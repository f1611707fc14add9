//! A cell that enforces, at runtime, the exclusivity rule a static borrow
//! checker enforces at compile time: at most one exclusive accessor, or any
//! number of shared accessors, may observe the wrapped value at once.
//!
//! It exists for host object models in which the holder of an exclusive
//! accessor can re-enter the same cell through an indirect call. The holder
//! may declare its accessor non-aliasing for the span of such a call, which
//! unblocks new borrows without giving the outer accessor up.
//!
//! The [`borrow_state`] module holds the counter state machine that decides
//! every legality question; [`trace`] proves its laws over whole operation
//! traces; [`guards`] holds the witnesses the cell hands out. The cell
//! identifies its pinned storage by an opaque token (the storage address),
//! and keeps a stack of such tokens so that a non-aliasing declaration can
//! be checked against the reference that is currently active.

pub mod borrow_state;
pub mod guards;
pub mod trace;

pub use borrow_state::BorrowState;
pub use borrow_state::BorrowStateErr;
pub use guards::GdMut;
pub use guards::GdRef;
pub use guards::NonAliasingGuard;

use vstd::prelude::*;

use crate::borrow_state::BorrowView;
use crate::borrow_state::initial_view;
use crate::borrow_state::spec_decrement_mut;
use crate::borrow_state::spec_decrement_shared;
use crate::borrow_state::spec_increment_mut;
use crate::borrow_state::spec_increment_shared;
use crate::borrow_state::spec_set_non_aliasing;
use crate::borrow_state::spec_unset_non_aliasing;
use crate::borrow_state::wf_view;

verus! {

/// View of a [`GdCell`]: the counters, the wrapped value, and the stack of
/// storage tokens.
pub ghost struct CellView<T> {
    pub state: BorrowView,
    pub value: T,
    pub tokens: Seq<u64>,
}

/// Relies on `std::ptr::from_ref` and `pointer::addr`: the machine address
/// of the referent, taken only as an opaque identity token for the pinned
/// storage location. Nothing is assumed about the returned value.
#[verifier::external_body]
fn storage_token<T>(r: &T) -> u64 {
    std::ptr::from_ref(r).addr() as u64
}

/// A cell owning one value under the borrow state machine.
///
/// Every entry point first asks the state machine whether the request is
/// legal; on success it hands back a guard, and the matching `drop_` method
/// rolls the transition back. The cell must not be moved between the first
/// borrow and the last surrender: the storage token taken at the first
/// borrow stands for the pinned address of the value.
#[derive(Debug)]
pub struct GdCell<T> {
    state: BorrowState,
    value: T,
    token_stack: Vec<u64>,
}

impl<T> View for GdCell<T> {
    type V = CellView<T>;

    closed spec fn view(&self) -> CellView<T> {
        CellView { state: self.state@, value: self.value, tokens: self.token_stack@ }
    }
}

impl<T> GdCell<T> {
    /// Well-formedness: the counters satisfy their invariants, every entry
    /// of the token stack names the same storage, and the stack's depth is
    /// one more than the number of outstanding non-aliasing declarations
    /// once the first borrow has initialized it.
    pub open spec fn wf(&self) -> bool {
        &&& wf_view(self@.state)
        &&& forall|i: int|
            0 <= i < self@.tokens.len() ==> #[trigger] self@.tokens[i] == self@.tokens[0]
        &&& self@.tokens.len() == 0 ==> self@.state.non_aliasing_count == 0
        &&& self@.tokens.len() > 0 ==> self@.tokens.len() == self@.state.non_aliasing_count + 1
    }

    /// Create a cell holding `value`, with no accessors tracked.
    pub fn new(value: T) -> (c: Self)
        ensures
            c.wf(),
            c@.state == initial_view(),
            c@.value == value,
            c@.tokens.len() == 0,
    {
        GdCell { state: BorrowState::new(), value, token_stack: Vec::new() }
    }

    /// The token every freshly minted guard is bound to: the top of the
    /// token stack, after pushing the storage token once if the stack is
    /// still empty. The stack never holds two different tokens, so this is
    /// the base storage token whenever the stack is initialized.
    fn active_token(&mut self) -> (t: u64)
        requires
            old(self).wf(),
        ensures
            final(self).wf(),
            final(self)@.state == old(self)@.state,
            final(self)@.value == old(self)@.value,
            old(self)@.tokens.len() == 0 ==> final(self)@.tokens == seq![t],
            old(self)@.tokens.len() > 0 ==> final(self)@.tokens == old(self)@.tokens,
            final(self)@.tokens.len() > 0,
            t == final(self)@.tokens.last(),
    {
        if self.token_stack.len() == 0 {
            let t: u64 = storage_token(&self.value);
            self.token_stack.push(t);
            proof {
                assert(self.token_stack@ =~= seq![t]);
            }
        }
        self.token_stack[self.token_stack.len() - 1]
    }

    /// Acquire a shared accessor.
    ///
    /// Asks the state machine to track one more shared accessor and, on
    /// success, returns a guard bound to the currently active storage
    /// token. A failure is the state machine's own and leaves the cell
    /// unchanged.
    pub fn gd_ref(&mut self) -> (r: Result<GdRef, BorrowStateErr>)
        requires
            old(self).wf(),
        ensures
            final(self).wf(),
            final(self)@.value == old(self)@.value,
            final(self)@.state == spec_increment_shared(old(self)@.state).0,
            match r {
                Ok(g) => {
                    &&& spec_increment_shared(old(self)@.state).1 is Ok
                    &&& final(self)@.tokens.len() > 0
                    &&& g@ == final(self)@.tokens.last()
                    &&& old(self)@.tokens.len() == 0 ==> final(self)@.tokens == seq![g@]
                    &&& old(self)@.tokens.len() > 0 ==> final(self)@.tokens == old(self)@.tokens
                },
                Err(e) => {
                    &&& spec_increment_shared(old(self)@.state).1 == Err::<nat, BorrowStateErr>(e)
                    &&& final(self)@.tokens == old(self)@.tokens
                },
            },
    {
        match self.state.increment_shared() {
            Ok(_) => {},
            Err(e) => {
                return Err(e);
            },
        }
        let t: u64 = self.active_token();
        Ok(GdRef::new(t))
    }

    /// Acquire an exclusive accessor.
    ///
    /// Asks the state machine to track one more exclusive accessor and, on
    /// success, returns a guard that captures the new exclusive-accessor
    /// count and the currently active storage token. A failure is the state
    /// machine's own and leaves the cell unchanged.
    pub fn gd_mut(&mut self) -> (r: Result<GdMut, BorrowStateErr>)
        requires
            old(self).wf(),
        ensures
            final(self).wf(),
            final(self)@.value == old(self)@.value,
            final(self)@.state == spec_increment_mut(old(self)@.state).0,
            match r {
                Ok(g) => {
                    &&& spec_increment_mut(old(self)@.state).1 is Ok
                    &&& g@.count == final(self)@.state.mut_count
                    &&& final(self)@.tokens.len() > 0
                    &&& g@.token == final(self)@.tokens.last()
                    &&& old(self)@.tokens.len() == 0 ==> final(self)@.tokens == seq![g@.token]
                    &&& old(self)@.tokens.len() > 0 ==> final(self)@.tokens == old(self)@.tokens
                },
                Err(e) => {
                    &&& spec_increment_mut(old(self)@.state).1 == Err::<nat, BorrowStateErr>(e)
                    &&& final(self)@.tokens == old(self)@.tokens
                },
            },
    {
        let count: usize = match self.state.increment_mut() {
            Ok(c) => c,
            Err(e) => {
                return Err(e);
            },
        };
        let t: u64 = self.active_token();
        Ok(GdMut::new(count, t))
    }

    /// Read the value through a shared-accessor guard.
    pub fn borrow(&self, guard: &GdRef) -> (r: &T)
        requires
            self.wf(),
            self@.state.shared_count > 0,
        ensures
            *r == self@.value,
    {
        let _ = guard;
        &self.value
    }

    /// Reach the value through an exclusive-accessor guard.
    ///
    /// The guard's captured count must still equal the live
    /// exclusive-accessor count: a mismatch means the guard has gone stale
    /// under a nested non-aliasing re-borrow, which correct guard
    /// discipline never produces.
    pub fn borrow_mut(&mut self, guard: &GdMut) -> (r: &mut T)
        requires
            old(self).wf(),
            old(self)@.state.mut_count > 0,
            guard@.count == old(self)@.state.mut_count,
        ensures
            *r == old(self)@.value,
            final(self)@.value == *final(r),
            final(self)@.state == old(self)@.state,
            final(self)@.tokens == old(self)@.tokens,
            final(self).wf(),
    {
        let _ = guard;
        &mut self.value
    }

    /// Declare the current exclusive accessor non-aliasing for the span of
    /// a re-entrant call.
    ///
    /// The caller passes the guard it currently holds; its token must name
    /// the storage currently at the top of the token stack, else the call
    /// fails with `WrongReference` and changes nothing — a caller bug, not
    /// a concurrency fault. On a match the state machine is asked to
    /// declare non-aliasing; on its success the matching token is pushed
    /// again and a guard for the declaration is returned.
    pub fn set_non_aliasing(&mut self, current: &GdMut) -> (r: Result<
        NonAliasingGuard,
        BorrowStateErr,
    >)
        requires
            old(self).wf(),
            old(self)@.tokens.len() > 0,
        ensures
            final(self).wf(),
            final(self)@.value == old(self)@.value,
            match r {
                Ok(g) => {
                    &&& current@.token == old(self)@.tokens.last()
                    &&& g@ == current@.token
                    &&& spec_set_non_aliasing(old(self)@.state).1 is Ok
                    &&& final(self)@.state == spec_set_non_aliasing(old(self)@.state).0
                    &&& final(self)@.tokens == old(self)@.tokens.push(current@.token)
                },
                Err(e) => {
                    &&& final(self)@.state == old(self)@.state
                    &&& final(self)@.tokens == old(self)@.tokens
                    &&& if current@.token != old(self)@.tokens.last() {
                        e == BorrowStateErr::WrongReference
                    } else {
                        spec_set_non_aliasing(old(self)@.state).1 == Err::<nat, BorrowStateErr>(e)
                    }
                },
            },
    {
        let top: u64 = self.token_stack[self.token_stack.len() - 1];
        if current.token() != top {
            return Err(BorrowStateErr::WrongReference);
        }
        match self.state.set_non_aliasing() {
            Ok(_) => {},
            Err(e) => {
                return Err(e);
            },
        }
        self.token_stack.push(top);
        Ok(NonAliasingGuard::new(top))
    }

    /// Surrender a shared-accessor guard: untrack one shared accessor.
    ///
    /// With the guard discipline respected this cannot fail, so the
    /// preconditions are exactly the state machine's success conditions.
    pub fn drop_ref(&mut self, guard: GdRef)
        requires
            old(self).wf(),
            !old(self)@.state.poisoned,
            old(self)@.state.shared_count > 0,
        ensures
            final(self).wf(),
            final(self)@.state == spec_decrement_shared(old(self)@.state).0,
            final(self)@.state.shared_count == old(self)@.state.shared_count - 1,
            final(self)@.value == old(self)@.value,
            final(self)@.tokens == old(self)@.tokens,
    {
        let _ = guard;
        let _ = self.state.decrement_shared();
    }

    /// Surrender an exclusive-accessor guard: untrack one exclusive
    /// accessor.
    ///
    /// The accessor being surrendered must be possibly aliasing: a declared
    /// non-aliasing accessor is re-declared aliasing first by surrendering
    /// the matching [`NonAliasingGuard`].
    pub fn drop_mut(&mut self, guard: GdMut)
        requires
            old(self).wf(),
            !old(self)@.state.poisoned,
            old(self)@.state.mut_count > old(self)@.state.non_aliasing_count,
        ensures
            final(self).wf(),
            final(self)@.state == spec_decrement_mut(old(self)@.state).0,
            final(self)@.state.mut_count == old(self)@.state.mut_count - 1,
            final(self)@.value == old(self)@.value,
            final(self)@.tokens == old(self)@.tokens,
    {
        let _ = guard;
        let _ = self.state.decrement_mut();
    }

    /// Surrender a non-aliasing-declaration guard: revoke one declaration
    /// and pop one entry of the token stack.
    pub fn drop_non_aliasing(&mut self, guard: NonAliasingGuard)
        requires
            old(self).wf(),
            !old(self)@.state.poisoned,
            old(self)@.state.non_aliasing_count > 0,
            old(self)@.state.mut_count == old(self)@.state.non_aliasing_count,
            old(self)@.state.shared_count == 0,
        ensures
            final(self).wf(),
            final(self)@.state == spec_unset_non_aliasing(old(self)@.state).0,
            final(self)@.state.non_aliasing_count == old(self)@.state.non_aliasing_count - 1,
            final(self)@.tokens == old(self)@.tokens.drop_last(),
            final(self)@.value == old(self)@.value,
    {
        let _ = guard;
        let _ = self.state.unset_non_aliasing();
        let _ = self.token_stack.pop();
        proof {
            assert(self.token_stack@ =~= old(self).token_stack@.drop_last());
        }
    }

    /// Observe the borrow state machine. Read-only: every transition still
    /// goes through the cell's own entry points, so an unverified caller
    /// can test an entry point's precondition before committing to it.
    pub fn borrow_state(&self) -> (s: &BorrowState)
        ensures
            s@ == self@.state,
    {
        &self.state
    }

    /// Report whether any accessor, shared or exclusive, is presently
    /// tracked. Advisory only: with the cell shared across threads the
    /// answer may be stale by the time the caller acts on it.
    pub fn is_currently_bound(&self) -> (r: bool)
        ensures
            r == (self@.state.shared_count > 0 || self@.state.mut_count > 0),
    {
        self.state.shared_count() > 0 || self.state.mut_count() > 0
    }
}

} // verus!
