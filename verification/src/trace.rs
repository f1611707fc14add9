//! Laws of the borrow state machine, stated over whole operation traces.
//!
//! An operation trace is a sequence of [`BorrowOp`] values applied in order
//! to the initial state. The proofs here show, for every trace: each
//! operation moves exactly the counter it documents or leaves the state
//! unchanged; well-formedness is preserved; the shared and possibly-aliasing
//! sides never overlap; the poisoned flag is never set; and an adjacent
//! increment-decrement pair of the shared counter can be removed from a
//! trace without changing where it ends.

use vstd::prelude::*;

use crate::borrow_state::BorrowView;
use crate::borrow_state::initial_view;
use crate::borrow_state::possibly_aliasing;
use crate::borrow_state::spec_decrement_mut;
use crate::borrow_state::spec_decrement_shared;
use crate::borrow_state::spec_increment_mut;
use crate::borrow_state::spec_increment_shared;
use crate::borrow_state::spec_set_non_aliasing;
use crate::borrow_state::spec_unset_non_aliasing;
use crate::borrow_state::wf_view;

verus! {

/// One operation of the borrow state machine, named for the method of
/// [`crate::borrow_state::BorrowState`] it stands for.
pub ghost enum BorrowOp {
    IncrementShared,
    DecrementShared,
    IncrementMut,
    DecrementMut,
    SetNonAliasing,
    UnsetNonAliasing,
}

/// The state after one operation, whether or not the operation succeeded.
pub open spec fn step(v: BorrowView, op: BorrowOp) -> BorrowView {
    match op {
        BorrowOp::IncrementShared => spec_increment_shared(v).0,
        BorrowOp::DecrementShared => spec_decrement_shared(v).0,
        BorrowOp::IncrementMut => spec_increment_mut(v).0,
        BorrowOp::DecrementMut => spec_decrement_mut(v).0,
        BorrowOp::SetNonAliasing => spec_set_non_aliasing(v).0,
        BorrowOp::UnsetNonAliasing => spec_unset_non_aliasing(v).0,
    }
}

/// Whether one operation succeeds on the given state.
pub open spec fn step_ok(v: BorrowView, op: BorrowOp) -> bool {
    (match op {
        BorrowOp::IncrementShared => spec_increment_shared(v).1,
        BorrowOp::DecrementShared => spec_decrement_shared(v).1,
        BorrowOp::IncrementMut => spec_increment_mut(v).1,
        BorrowOp::DecrementMut => spec_decrement_mut(v).1,
        BorrowOp::SetNonAliasing => spec_set_non_aliasing(v).1,
        BorrowOp::UnsetNonAliasing => spec_unset_non_aliasing(v).1,
    }) is Ok
}

/// The state a whole trace of operations ends in.
pub open spec fn apply_ops(v: BorrowView, ops: Seq<BorrowOp>) -> BorrowView
    decreases ops.len(),
{
    if ops.len() == 0 {
        v
    } else {
        apply_ops(step(v, ops.first()), ops.drop_first())
    }
}

/// The one change each operation documents: its own counter, moved by
/// exactly one.
pub open spec fn documented_change(v: BorrowView, op: BorrowOp) -> BorrowView {
    match op {
        BorrowOp::IncrementShared => BorrowView { shared_count: v.shared_count + 1, ..v },
        BorrowOp::DecrementShared => BorrowView {
            shared_count: (v.shared_count - 1) as nat,
            ..v
        },
        BorrowOp::IncrementMut => BorrowView { mut_count: v.mut_count + 1, ..v },
        BorrowOp::DecrementMut => BorrowView { mut_count: (v.mut_count - 1) as nat, ..v },
        BorrowOp::SetNonAliasing => BorrowView {
            non_aliasing_count: v.non_aliasing_count + 1,
            ..v
        },
        BorrowOp::UnsetNonAliasing => BorrowView {
            non_aliasing_count: (v.non_aliasing_count - 1) as nat,
            ..v
        },
    }
}

/// Law: on a well-formed state, each operation either succeeds and performs
/// exactly the one counter change it documents, or fails and leaves the
/// state unchanged — no partial mutation.
pub proof fn lemma_step_frame(v: BorrowView, op: BorrowOp)
    requires
        wf_view(v),
    ensures
        step_ok(v, op) ==> step(v, op) == documented_change(v, op),
        !step_ok(v, op) ==> step(v, op) == v,
{
}

/// Each operation preserves well-formedness, and leaves the poisoned flag
/// exactly as it found it.
pub proof fn lemma_step_preserves_wf(v: BorrowView, op: BorrowOp)
    requires
        wf_view(v),
    ensures
        wf_view(step(v, op)),
        step(v, op).poisoned == v.poisoned,
{
}

/// A whole trace preserves well-formedness and the poisoned flag.
pub proof fn lemma_apply_ops_preserves_wf(v: BorrowView, ops: Seq<BorrowOp>)
    requires
        wf_view(v),
    ensures
        wf_view(apply_ops(v, ops)),
        apply_ops(v, ops).poisoned == v.poisoned,
    decreases ops.len(),
{
    if ops.len() > 0 {
        lemma_step_preserves_wf(v, ops.first());
        lemma_apply_ops_preserves_wf(step(v, ops.first()), ops.drop_first());
    }
}

/// Law: no trace of operations, however adversarial, reaches a state with a
/// live shared accessor and a possibly aliasing exclusive accessor at once.
pub proof fn lemma_no_shared_beside_aliasing(ops: Seq<BorrowOp>)
    ensures
        !(apply_ops(initial_view(), ops).shared_count > 0 && possibly_aliasing(
            apply_ops(initial_view(), ops),
        )),
{
    lemma_apply_ops_preserves_wf(initial_view(), ops);
}

/// Law: no trace of operations ever sets the poisoned flag; the poisoning
/// paths of the state machine are a safety net that the machine itself never
/// needs.
pub proof fn lemma_never_poisoned(ops: Seq<BorrowOp>)
    ensures
        !apply_ops(initial_view(), ops).poisoned,
{
    lemma_apply_ops_preserves_wf(initial_view(), ops);
}

/// Applying a concatenated trace is applying its parts in order.
pub proof fn lemma_apply_ops_concat(v: BorrowView, a: Seq<BorrowOp>, b: Seq<BorrowOp>)
    ensures
        apply_ops(v, a + b) == apply_ops(apply_ops(v, a), b),
    decreases a.len(),
{
    if a.len() == 0 {
        assert(a + b =~= b);
    } else {
        assert((a + b).first() == a.first());
        assert((a + b).drop_first() =~= a.drop_first() + b);
        lemma_apply_ops_concat(step(v, a.first()), a.drop_first(), b);
    }
}

/// A trace of exactly two operations is two steps.
proof fn lemma_apply_two(v: BorrowView, op1: BorrowOp, op2: BorrowOp)
    ensures
        apply_ops(v, seq![op1, op2]) == step(step(v, op1), op2),
{
    let s = seq![op1, op2];
    let t = seq![op2];
    let e = Seq::<BorrowOp>::empty();
    assert(s.first() == op1);
    assert(s.drop_first() =~= t);
    assert(t.first() == op2);
    assert(t.drop_first() =~= e);
    assert(apply_ops(step(step(v, op1), op2), e) == step(step(v, op1), op2));
    assert(apply_ops(step(v, op1), t) == apply_ops(step(step(v, op1), op2), t.drop_first()));
    assert(apply_ops(v, s) == apply_ops(step(v, op1), s.drop_first()));
}

/// Incrementing and at once decrementing the shared counter returns any
/// well-formed state below the counter's ceiling to exactly itself — whether
/// or not the increment was legal.
pub proof fn lemma_inc_dec_shared_roundtrip(v: BorrowView)
    requires
        wf_view(v),
        v.shared_count < usize::MAX,
    ensures
        step(step(v, BorrowOp::IncrementShared), BorrowOp::DecrementShared) == v,
{
}

/// Law: removing an adjacent increment-decrement pair of the shared counter
/// from a trace leaves the final state unchanged, provided the shared
/// counter is below its ceiling where the pair runs. (At the ceiling the
/// increment of the pair fails while its decrement still runs, so the pair
/// is not neutral there.)
pub proof fn lemma_remove_shared_pair(prefix: Seq<BorrowOp>, suffix: Seq<BorrowOp>)
    requires
        apply_ops(initial_view(), prefix).shared_count < usize::MAX,
    ensures
        apply_ops(
            initial_view(),
            prefix + seq![BorrowOp::IncrementShared, BorrowOp::DecrementShared] + suffix,
        ) == apply_ops(initial_view(), prefix + suffix),
{
    let v0 = initial_view();
    let w = apply_ops(v0, prefix);
    let pair = seq![BorrowOp::IncrementShared, BorrowOp::DecrementShared];
    lemma_apply_ops_preserves_wf(v0, prefix);
    lemma_apply_ops_concat(v0, prefix + pair, suffix);
    lemma_apply_ops_concat(v0, prefix, pair);
    lemma_apply_ops_concat(v0, prefix, suffix);
    lemma_apply_two(w, BorrowOp::IncrementShared, BorrowOp::DecrementShared);
    lemma_inc_dec_shared_roundtrip(w);
}

} // verus!
