use gd_cell::BorrowState;
use gd_cell::BorrowStateErr;

#[test]
fn poisoned_unset_shared_ref() {
    let mut state = BorrowState::new();
    assert!(!state.is_poisoned());

    let _ = state.increment_mut();
    assert!(!state.is_poisoned());
    let _ = state.set_non_aliasing();
    assert!(!state.is_poisoned());
    let _ = state.increment_shared();
    assert!(!state.is_poisoned());
    let _ = state.unset_non_aliasing();
    assert!(!state.is_poisoned());
    let _ = state.increment_shared();
    assert!(!state.is_poisoned());
    let _ = state.decrement_shared();
    assert!(!state.is_poisoned());
}

#[test]
fn operation_results_report_new_totals() {
    let mut state = BorrowState::new();
    assert_eq!(state.increment_shared(), Ok(1));
    assert_eq!(state.increment_shared(), Ok(2));
    assert_eq!(state.decrement_shared(), Ok(1));
    assert_eq!(state.decrement_shared(), Ok(0));
    assert_eq!(state.increment_mut(), Ok(1));
    assert_eq!(state.set_non_aliasing(), Ok(1));
    assert_eq!(state.increment_mut(), Ok(2));
    assert_eq!(state.decrement_mut(), Ok(1));
    assert_eq!(state.unset_non_aliasing(), Ok(0));
    assert_eq!(state.decrement_mut(), Ok(0));
}

#[test]
fn decrement_without_tracked_accessor_is_refused() {
    let mut state = BorrowState::new();
    assert_eq!(state.decrement_shared(), Err(BorrowStateErr::NoSharedRef));
    assert_eq!(state.decrement_mut(), Err(BorrowStateErr::NoMutRef));
}

#[test]
fn aliasing_exclusive_blocks_everything_but_declaration() {
    let mut state = BorrowState::new();
    assert_eq!(state.increment_mut(), Ok(1));
    assert_eq!(state.increment_shared(), Err(BorrowStateErr::HasAliasingRef));
    assert_eq!(state.increment_mut(), Err(BorrowStateErr::HasAliasingRef));
    assert_eq!(state.unset_non_aliasing(), Err(BorrowStateErr::HasAliasingRef));
}

#[test]
fn shared_blocks_exclusive_and_revocation() {
    let mut state = BorrowState::new();
    assert_eq!(state.increment_shared(), Ok(1));
    assert_eq!(state.increment_mut(), Err(BorrowStateErr::HasSharedRef));
    assert_eq!(state.unset_non_aliasing(), Err(BorrowStateErr::HasSharedRef));
}

#[test]
fn declaration_needs_an_aliasing_exclusive() {
    let mut state = BorrowState::new();
    assert_eq!(state.set_non_aliasing(), Err(BorrowStateErr::NoAliasingRef));
    assert_eq!(state.increment_shared(), Ok(1));
    assert_eq!(state.set_non_aliasing(), Err(BorrowStateErr::NoAliasingRef));
    assert_eq!(state.decrement_shared(), Ok(0));
    assert_eq!(state.increment_mut(), Ok(1));
    assert_eq!(state.set_non_aliasing(), Ok(1));
    assert_eq!(state.set_non_aliasing(), Err(BorrowStateErr::NoAliasingRef));
}

#[test]
fn declared_exclusive_must_be_revoked_before_release() {
    let mut state = BorrowState::new();
    assert_eq!(state.increment_mut(), Ok(1));
    assert_eq!(state.set_non_aliasing(), Ok(1));
    assert_eq!(state.decrement_mut(), Err(BorrowStateErr::IsNonAliasing));
    assert_eq!(state.unset_non_aliasing(), Ok(0));
    assert_eq!(state.decrement_mut(), Ok(0));
}

#[test]
fn success_changes_one_counter_failure_changes_nothing() {
    let mut state = BorrowState::new();
    assert_eq!(state.increment_mut(), Ok(1));

    let before = state.clone();
    assert!(state.increment_shared().is_err());
    assert_eq!(state, before);

    assert_eq!(state.set_non_aliasing(), Ok(1));
    let before = state.clone();
    assert_eq!(state.increment_shared(), Ok(1));
    assert_eq!(state.shared_count(), before.shared_count() + 1);
    assert_eq!(state.mut_count(), before.mut_count());
    assert_eq!(state.non_aliasing_count(), before.non_aliasing_count());
    assert_eq!(state.is_poisoned(), before.is_poisoned());
}

#[test]
fn shared_and_aliasing_never_coexist() {
    let mut state = BorrowState::new();
    let _ = state.increment_mut();
    let _ = state.increment_shared();
    if state.has_shared_reference() {
        assert!(!state.has_possibly_aliasing());
    }
    let _ = state.set_non_aliasing();
    let _ = state.increment_shared();
    assert!(state.has_shared_reference());
    assert!(!state.has_possibly_aliasing());
}

#[test]
fn adjacent_shared_pair_removal_keeps_final_state() {
    let mut with_pair = BorrowState::new();
    let _ = with_pair.increment_mut();
    let _ = with_pair.set_non_aliasing();
    let _ = with_pair.increment_shared();
    let _ = with_pair.decrement_shared();
    let _ = with_pair.increment_shared();
    let _ = with_pair.unset_non_aliasing();

    let mut without_pair = BorrowState::new();
    let _ = without_pair.increment_mut();
    let _ = without_pair.set_non_aliasing();
    let _ = without_pair.increment_shared();
    let _ = without_pair.unset_non_aliasing();

    assert_eq!(with_pair, without_pair);
}

#[test]
fn counters_report_their_values() {
    let mut state = BorrowState::new();
    assert_eq!(state.shared_count(), 0);
    assert_eq!(state.mut_count(), 0);
    assert_eq!(state.non_aliasing_count(), 0);
    assert!(!state.has_shared_reference());
    assert!(!state.has_possibly_aliasing());
    let _ = state.increment_mut();
    assert_eq!(state.mut_count(), 1);
    assert!(state.has_possibly_aliasing());
    let _ = state.set_non_aliasing();
    assert_eq!(state.non_aliasing_count(), 1);
    assert!(!state.has_possibly_aliasing());
}
