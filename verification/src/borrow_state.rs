//! The borrow-tracking state machine.
//!
//! Four counters decide every legality question about borrows of one cell:
//! how many shared accessors are live, how many exclusive accessors are live,
//! how many of those exclusive accessors have been declared non-aliasing, and
//! whether the state has been poisoned by a detected inconsistency.
//!
//! The state upholds these invariants after every successful operation:
//! - at most one exclusive accessor is possibly aliasing at a time
//!   (`mut_count - non_aliasing_count <= 1`);
//! - `non_aliasing_count <= mut_count`;
//! - while any shared accessor is live, no exclusive accessor is possibly
//!   aliasing.

use vstd::prelude::*;

verus! {

/// The counters of a [`BorrowState`], as one mathematical value.
pub ghost struct BorrowView {
    pub shared_count: nat,
    pub mut_count: nat,
    pub non_aliasing_count: nat,
    pub poisoned: bool,
}

/// True when an exclusive accessor exists that has not been declared
/// non-aliasing. At most one such accessor can exist in a well-formed state.
pub open spec fn possibly_aliasing(v: BorrowView) -> bool {
    v.mut_count > v.non_aliasing_count
}

/// Well-formedness of the counters: the invariants listed in the module
/// documentation, plus the bound that each counter fits the machine word.
pub open spec fn wf_view(v: BorrowView) -> bool {
    &&& v.non_aliasing_count <= v.mut_count
    &&& v.mut_count <= v.non_aliasing_count + 1
    &&& v.shared_count > 0 ==> v.mut_count == v.non_aliasing_count
    &&& v.shared_count <= usize::MAX
    &&& v.mut_count <= usize::MAX
    &&& v.non_aliasing_count <= usize::MAX
}

/// The state of a freshly created tracker: no accessors, not poisoned.
pub open spec fn initial_view() -> BorrowView {
    BorrowView { shared_count: 0, mut_count: 0, non_aliasing_count: 0, poisoned: false }
}

/// What poisoned the state. Poisoning marks an arithmetic inconsistency that
/// only bypassing the guard discipline could produce; it is permanent.
#[derive(Debug, Clone, Copy, PartialEq, Eq, Structural)]
pub enum PoisonReason {
    /// A shared accessor was tracked while an exclusive accessor was still
    /// possibly aliasing.
    SharedTrackedWhileAliasing,
    /// `non_aliasing_count` no longer fits its invariant against `mut_count`.
    NonAliasingCountMismatch,
}

/// Why an operation on a [`BorrowState`] was refused.
#[derive(Debug, Clone, Copy, PartialEq, Eq, Structural)]
pub enum BorrowStateErr {
    /// A tracked shared accessor was expected and none exists.
    NoSharedRef,
    /// No tracked shared accessor was expected, but one exists.
    HasSharedRef,
    /// A tracked exclusive accessor was expected and none exists.
    NoMutRef,
    /// No tracked exclusive accessor was expected, but one exists.
    HasMutRef,
    /// The current exclusive accessor is declared non-aliasing and must be
    /// re-declared aliasing before it can be released.
    IsNonAliasing,
    /// A possibly aliasing exclusive accessor was expected and none exists.
    NoAliasingRef,
    /// No possibly aliasing exclusive accessor was expected, but one exists.
    HasAliasingRef,
    /// A counter has reached the representable maximum.
    Overflow,
    /// A non-aliasing declaration named a reference other than the currently
    /// active one.
    WrongReference,
    /// The state was poisoned by an earlier inconsistency; every operation
    /// fails once this is so.
    IsPoisoned,
    /// The operation itself detected an inconsistency and poisoned the state.
    Poisoned(PoisonReason),
}

/// Tracks the borrows of one cell. See the module documentation.
#[derive(Debug, Clone, PartialEq, Eq, Structural)]
pub struct BorrowState {
    shared_count: usize,
    mut_count: usize,
    non_aliasing_count: usize,
    poisoned: bool,
}

impl View for BorrowState {
    type V = BorrowView;

    closed spec fn view(&self) -> BorrowView {
        BorrowView {
            shared_count: self.shared_count as nat,
            mut_count: self.mut_count as nat,
            non_aliasing_count: self.non_aliasing_count as nat,
            poisoned: self.poisoned,
        }
    }
}

/// The exec result of an operation returns the same success value and the
/// same error as the spec-level outcome.
pub open spec fn res_agrees(r: Result<usize, BorrowStateErr>, s: Result<nat, BorrowStateErr>) -> bool {
    match (r, s) {
        (Ok(a), Ok(b)) => a == b,
        (Err(e), Err(f)) => e == f,
        _ => false,
    }
}

/// Outcome of tracking one more shared accessor: refused while poisoned,
/// while an exclusive accessor is possibly aliasing, or at the counter's
/// ceiling; otherwise `shared_count` rises by one.
pub open spec fn spec_increment_shared(v: BorrowView) -> (BorrowView, Result<nat, BorrowStateErr>) {
    if v.poisoned {
        (v, Err(BorrowStateErr::IsPoisoned))
    } else if possibly_aliasing(v) {
        (v, Err(BorrowStateErr::HasAliasingRef))
    } else if v.shared_count == usize::MAX {
        (v, Err(BorrowStateErr::Overflow))
    } else {
        (
            BorrowView { shared_count: v.shared_count + 1, ..v },
            Ok((v.shared_count + 1) as nat),
        )
    }
}

/// Outcome of untracking one shared accessor: refused while poisoned or when
/// none is tracked; poisons the state if an exclusive accessor is possibly
/// aliasing beside it (unreachable through this API); otherwise
/// `shared_count` falls by one.
pub open spec fn spec_decrement_shared(v: BorrowView) -> (BorrowView, Result<nat, BorrowStateErr>) {
    if v.poisoned {
        (v, Err(BorrowStateErr::IsPoisoned))
    } else if v.shared_count == 0 {
        (v, Err(BorrowStateErr::NoSharedRef))
    } else if possibly_aliasing(v) {
        (
            BorrowView { poisoned: true, ..v },
            Err(BorrowStateErr::Poisoned(PoisonReason::SharedTrackedWhileAliasing)),
        )
    } else {
        (
            BorrowView { shared_count: (v.shared_count - 1) as nat, ..v },
            Ok((v.shared_count - 1) as nat),
        )
    }
}

/// Outcome of tracking one more exclusive accessor: refused while poisoned,
/// while an exclusive accessor is possibly aliasing, while any shared
/// accessor is tracked, or at the counter's ceiling; otherwise `mut_count`
/// rises by one.
pub open spec fn spec_increment_mut(v: BorrowView) -> (BorrowView, Result<nat, BorrowStateErr>) {
    if v.poisoned {
        (v, Err(BorrowStateErr::IsPoisoned))
    } else if possibly_aliasing(v) {
        (v, Err(BorrowStateErr::HasAliasingRef))
    } else if v.shared_count > 0 {
        (v, Err(BorrowStateErr::HasSharedRef))
    } else if v.mut_count == usize::MAX {
        (v, Err(BorrowStateErr::Overflow))
    } else {
        (BorrowView { mut_count: v.mut_count + 1, ..v }, Ok((v.mut_count + 1) as nat))
    }
}

/// Outcome of untracking one exclusive accessor: refused while poisoned,
/// when none is tracked, and when the current one is declared non-aliasing;
/// poisons the state when the counters disagree in any other way
/// (unreachable through this API); otherwise `mut_count` falls by one.
pub open spec fn spec_decrement_mut(v: BorrowView) -> (BorrowView, Result<nat, BorrowStateErr>) {
    if v.poisoned {
        (v, Err(BorrowStateErr::IsPoisoned))
    } else if v.mut_count == 0 {
        (v, Err(BorrowStateErr::NoMutRef))
    } else if v.mut_count == v.non_aliasing_count {
        (v, Err(BorrowStateErr::IsNonAliasing))
    } else if v.mut_count != v.non_aliasing_count + 1 {
        (
            BorrowView { poisoned: true, ..v },
            Err(BorrowStateErr::Poisoned(PoisonReason::NonAliasingCountMismatch)),
        )
    } else {
        (
            BorrowView { mut_count: (v.mut_count - 1) as nat, ..v },
            Ok((v.mut_count - 1) as nat),
        )
    }
}

/// Outcome of declaring the current exclusive accessor non-aliasing: refused
/// while poisoned and unless exactly one possibly aliasing exclusive
/// accessor exists; otherwise `non_aliasing_count` rises by one.
pub open spec fn spec_set_non_aliasing(v: BorrowView) -> (BorrowView, Result<nat, BorrowStateErr>) {
    if v.poisoned {
        (v, Err(BorrowStateErr::IsPoisoned))
    } else if !possibly_aliasing(v) {
        (v, Err(BorrowStateErr::NoAliasingRef))
    } else {
        (
            BorrowView { non_aliasing_count: v.non_aliasing_count + 1, ..v },
            Ok((v.non_aliasing_count + 1) as nat),
        )
    }
}

/// Outcome of revoking one non-aliasing declaration: refused while poisoned,
/// while an exclusive accessor is possibly aliasing, while any shared
/// accessor is tracked, and when no declaration is outstanding; otherwise
/// `non_aliasing_count` falls by one.
pub open spec fn spec_unset_non_aliasing(v: BorrowView) -> (BorrowView, Result<nat, BorrowStateErr>) {
    if v.poisoned {
        (v, Err(BorrowStateErr::IsPoisoned))
    } else if possibly_aliasing(v) {
        (v, Err(BorrowStateErr::HasAliasingRef))
    } else if v.shared_count > 0 {
        (v, Err(BorrowStateErr::HasSharedRef))
    } else if v.non_aliasing_count == 0 {
        (v, Err(BorrowStateErr::NoAliasingRef))
    } else {
        (
            BorrowView { non_aliasing_count: (v.non_aliasing_count - 1) as nat, ..v },
            Ok((v.non_aliasing_count - 1) as nat),
        )
    }
}

/// At the representable ceiling, tracking one more shared accessor is
/// refused with `Overflow` rather than wrapping, and changes nothing. No
/// run of the executable can reach that many live accessors, so this edge
/// is stated here instead of in a test.
pub proof fn lemma_increment_shared_overflow(v: BorrowView)
    requires
        wf_view(v),
        !v.poisoned,
        !possibly_aliasing(v),
        v.shared_count == usize::MAX,
    ensures
        spec_increment_shared(v).0 == v,
        spec_increment_shared(v).1 == Err::<nat, BorrowStateErr>(BorrowStateErr::Overflow),
{
}

impl BorrowState {
    /// The well-formedness invariant, stated over the view.
    pub open spec fn wf(&self) -> bool {
        wf_view(self@)
    }

    /// Create a new borrow state representing no borrows.
    pub fn new() -> (s: Self)
        ensures
            s@ == initial_view(),
            s.wf(),
    {
        Self { shared_count: 0, mut_count: 0, non_aliasing_count: 0, poisoned: false }
    }

    /// Returns `true` if there may be an aliasing exclusive accessor.
    pub fn has_possibly_aliasing(&self) -> (r: bool)
        requires
            self.wf(),
        ensures
            r == possibly_aliasing(self@),
    {
        let count: usize = self.mut_count - self.non_aliasing_count;
        count == 1
    }

    /// Returns `true` if at least one shared accessor is tracked.
    pub fn has_shared_reference(&self) -> (r: bool)
        ensures
            r == (self@.shared_count > 0),
    {
        self.shared_count > 0
    }

    /// Returns the number of tracked shared accessors.
    pub fn shared_count(&self) -> (n: usize)
        ensures
            n == self@.shared_count,
    {
        self.shared_count
    }

    /// Returns the number of tracked exclusive accessors, the declared
    /// non-aliasing ones included.
    pub fn mut_count(&self) -> (n: usize)
        ensures
            n == self@.mut_count,
    {
        self.mut_count
    }

    /// Returns the number of tracked exclusive accessors that are declared
    /// non-aliasing. In a well-formed state this equals `mut_count` or falls
    /// one short of it.
    pub fn non_aliasing_count(&self) -> (n: usize)
        ensures
            n == self@.non_aliasing_count,
    {
        self.non_aliasing_count
    }

    /// Returns `true` if the state has been poisoned.
    pub fn is_poisoned(&self) -> (r: bool)
        ensures
            r == self@.poisoned,
    {
        self.poisoned
    }

    /// Mark the state as poisoned and report why. Poisoning is one-way.
    fn poison(&mut self, reason: PoisonReason) -> (r: Result<usize, BorrowStateErr>)
        ensures
            final(self)@ == (BorrowView { poisoned: true, ..old(self)@ }),
            r == Err::<usize, BorrowStateErr>(BorrowStateErr::Poisoned(reason)),
    {
        self.poisoned = true;
        Err(BorrowStateErr::Poisoned(reason))
    }

    fn ensure_not_poisoned(&self) -> (r: Result<(), BorrowStateErr>)
        ensures
            self@.poisoned ==> r == Err::<(), BorrowStateErr>(BorrowStateErr::IsPoisoned),
            !self@.poisoned ==> r == Ok::<(), BorrowStateErr>(()),
    {
        if self.is_poisoned() {
            return Err(BorrowStateErr::IsPoisoned);
        }
        Ok(())
    }

    fn ensure_can_ref(&self) -> (r: Result<(), BorrowStateErr>)
        requires
            self.wf(),
        ensures
            self@.poisoned ==> r == Err::<(), BorrowStateErr>(BorrowStateErr::IsPoisoned),
            !self@.poisoned && possibly_aliasing(self@) ==> r == Err::<(), BorrowStateErr>(
                BorrowStateErr::HasAliasingRef,
            ),
            !self@.poisoned && !possibly_aliasing(self@) ==> r == Ok::<(), BorrowStateErr>(()),
    {
        if let Err(e) = self.ensure_not_poisoned() {
            return Err(e);
        }
        if self.has_possibly_aliasing() {
            return Err(BorrowStateErr::HasAliasingRef);
        }
        Ok(())
    }

    /// Track a new shared accessor.
    ///
    /// Returns the new total number of shared accessors. Fails while the
    /// state is poisoned, while an exclusive accessor is possibly aliasing,
    /// and when `shared_count` has reached the representable maximum; a
    /// failure leaves the state unchanged.
    pub fn increment_shared(&mut self) -> (r: Result<usize, BorrowStateErr>)
        requires
            old(self).wf(),
        ensures
            final(self).wf(),
            final(self)@ == spec_increment_shared(old(self)@).0,
            res_agrees(r, spec_increment_shared(old(self)@).1),
    {
        if let Err(e) = self.ensure_not_poisoned() {
            return Err(e);
        }
        if let Err(e) = self.ensure_can_ref() {
            return Err(e);
        }
        if self.shared_count == usize::MAX {
            return Err(BorrowStateErr::Overflow);
        }
        self.shared_count = self.shared_count + 1;
        Ok(self.shared_count)
    }

    /// Untrack an existing shared accessor.
    ///
    /// Returns the new total number of shared accessors. Fails while the
    /// state is poisoned and when no shared accessor is tracked; a failure
    /// leaves the state unchanged. A shared accessor tracked beside a
    /// possibly aliasing exclusive one would poison the state, but no
    /// sequence of operations on this type reaches that combination.
    pub fn decrement_shared(&mut self) -> (r: Result<usize, BorrowStateErr>)
        requires
            old(self).wf(),
        ensures
            final(self).wf(),
            final(self)@ == spec_decrement_shared(old(self)@).0,
            res_agrees(r, spec_decrement_shared(old(self)@).1),
    {
        if let Err(e) = self.ensure_not_poisoned() {
            return Err(e);
        }
        if self.shared_count == 0 {
            return Err(BorrowStateErr::NoSharedRef);
        }
        if self.has_possibly_aliasing() {
            return self.poison(PoisonReason::SharedTrackedWhileAliasing);
        }
        self.shared_count = self.shared_count - 1;
        Ok(self.shared_count)
    }

    fn ensure_can_mut_ref(&self) -> (r: Result<(), BorrowStateErr>)
        requires
            self.wf(),
        ensures
            self@.poisoned ==> r == Err::<(), BorrowStateErr>(BorrowStateErr::IsPoisoned),
            !self@.poisoned && possibly_aliasing(self@) ==> r == Err::<(), BorrowStateErr>(
                BorrowStateErr::HasAliasingRef,
            ),
            !self@.poisoned && !possibly_aliasing(self@) && self@.shared_count > 0 ==> r == Err::<
                (),
                BorrowStateErr,
            >(BorrowStateErr::HasSharedRef),
            !self@.poisoned && !possibly_aliasing(self@) && self@.shared_count == 0 ==> r == Ok::<
                (),
                BorrowStateErr,
            >(()),
    {
        if let Err(e) = self.ensure_not_poisoned() {
            return Err(e);
        }
        if self.has_possibly_aliasing() {
            return Err(BorrowStateErr::HasAliasingRef);
        }
        if self.shared_count != 0 {
            return Err(BorrowStateErr::HasSharedRef);
        }
        Ok(())
    }

    /// Track a new exclusive accessor.
    ///
    /// Returns the new total number of exclusive accessors. Fails while the
    /// state is poisoned, while an exclusive accessor is possibly aliasing,
    /// while any shared accessor is tracked, and when `mut_count` has
    /// reached the representable maximum; a failure leaves the state
    /// unchanged.
    pub fn increment_mut(&mut self) -> (r: Result<usize, BorrowStateErr>)
        requires
            old(self).wf(),
        ensures
            final(self).wf(),
            final(self)@ == spec_increment_mut(old(self)@).0,
            res_agrees(r, spec_increment_mut(old(self)@).1),
    {
        if let Err(e) = self.ensure_not_poisoned() {
            return Err(e);
        }
        if let Err(e) = self.ensure_can_mut_ref() {
            return Err(e);
        }
        if self.mut_count == usize::MAX {
            return Err(BorrowStateErr::Overflow);
        }
        self.mut_count = self.mut_count + 1;
        Ok(self.mut_count)
    }

    /// Untrack an existing exclusive accessor.
    ///
    /// Returns the new total number of exclusive accessors. Fails while the
    /// state is poisoned, when no exclusive accessor is tracked, and when
    /// the current one is still declared non-aliasing (it must be re-declared
    /// aliasing first); a failure leaves the state unchanged. Counters that
    /// disagree in any other way would poison the state, but no sequence of
    /// operations on this type reaches such counters.
    pub fn decrement_mut(&mut self) -> (r: Result<usize, BorrowStateErr>)
        requires
            old(self).wf(),
        ensures
            final(self).wf(),
            final(self)@ == spec_decrement_mut(old(self)@).0,
            res_agrees(r, spec_decrement_mut(old(self)@).1),
    {
        if let Err(e) = self.ensure_not_poisoned() {
            return Err(e);
        }
        if self.mut_count == 0 {
            return Err(BorrowStateErr::NoMutRef);
        }
        if self.mut_count == self.non_aliasing_count {
            return Err(BorrowStateErr::IsNonAliasing);
        }
        if self.mut_count - 1 != self.non_aliasing_count {
            return self.poison(PoisonReason::NonAliasingCountMismatch);
        }
        self.mut_count = self.mut_count - 1;
        Ok(self.mut_count)
    }

    /// Declare the current exclusive accessor non-aliasing.
    ///
    /// Returns the new total of non-aliasing exclusive accessors. Fails
    /// while the state is poisoned and unless exactly one possibly aliasing
    /// exclusive accessor exists; a failure leaves the state unchanged.
    pub fn set_non_aliasing(&mut self) -> (r: Result<usize, BorrowStateErr>)
        requires
            old(self).wf(),
        ensures
            final(self).wf(),
            final(self)@ == spec_set_non_aliasing(old(self)@).0,
            res_agrees(r, spec_set_non_aliasing(old(self)@).1),
    {
        if let Err(e) = self.ensure_not_poisoned() {
            return Err(e);
        }
        if !self.has_possibly_aliasing() {
            return Err(BorrowStateErr::NoAliasingRef);
        }
        self.non_aliasing_count = self.non_aliasing_count + 1;
        Ok(self.non_aliasing_count)
    }

    /// Revoke one non-aliasing declaration.
    ///
    /// Returns the new total of non-aliasing exclusive accessors. Fails
    /// while the state is poisoned, while an exclusive accessor is possibly
    /// aliasing, while any shared accessor is tracked, and when no
    /// declaration is outstanding; a failure leaves the state unchanged.
    pub fn unset_non_aliasing(&mut self) -> (r: Result<usize, BorrowStateErr>)
        requires
            old(self).wf(),
        ensures
            final(self).wf(),
            final(self)@ == spec_unset_non_aliasing(old(self)@).0,
            res_agrees(r, spec_unset_non_aliasing(old(self)@).1),
    {
        if let Err(e) = self.ensure_not_poisoned() {
            return Err(e);
        }
        if self.has_possibly_aliasing() {
            return Err(BorrowStateErr::HasAliasingRef);
        }
        if self.shared_count() > 0 {
            return Err(BorrowStateErr::HasSharedRef);
        }
        if self.non_aliasing_count == 0 {
            return Err(BorrowStateErr::NoAliasingRef);
        }
        self.non_aliasing_count = self.non_aliasing_count - 1;
        Ok(self.non_aliasing_count)
    }
}

} // verus!
