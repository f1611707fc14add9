use gd_cell::BorrowStateErr;
use gd_cell::GdCell;

#[test]
fn prevent_mut_mut() {
    let mut cell = GdCell::new(-451431556);
    let guard1 = cell.gd_mut().unwrap();
    let guard2 = cell.gd_mut();

    assert_eq!(*cell.borrow_mut(&guard1), -451431556);
    assert!(guard2.is_err());
    cell.drop_mut(guard1);
}

#[test]
fn prevent_mut_shared() {
    let mut cell = GdCell::new(13512);
    let guard1 = cell.gd_mut().unwrap();
    let guard2 = cell.gd_ref();

    assert_eq!(*cell.borrow_mut(&guard1), 13512);
    assert!(guard2.is_err());
    cell.drop_mut(guard1);
}

#[test]
fn prevent_shared_mut() {
    let mut cell = GdCell::new(99);
    let guard1 = cell.gd_ref().unwrap();
    let guard2 = cell.gd_mut();

    assert_eq!(*cell.borrow(&guard1), 99);
    assert!(guard2.is_err());
    cell.drop_ref(guard1);
}

#[test]
fn allow_shared_shared() {
    let mut cell = GdCell::new(10);
    let guard1 = cell.gd_ref().unwrap();
    let guard2 = cell.gd_ref().unwrap();

    assert_eq!(*cell.borrow(&guard1), 10);
    assert_eq!(*cell.borrow(&guard2), 10);
    cell.drop_ref(guard1);
    cell.drop_ref(guard2);
}

#[test]
fn allow_non_aliasing_mut_mut() {
    let mut cell = GdCell::new(23456);

    let guard1 = cell.gd_mut().unwrap();
    assert_eq!(*cell.borrow_mut(&guard1), 23456);
    *cell.borrow_mut(&guard1) = 23456 + 50;

    let no_alias_guard = cell.set_non_aliasing(&guard1).unwrap();

    let guard2 = cell.gd_mut().unwrap();
    assert_eq!(*cell.borrow_mut(&guard2), 23456 + 50);
    *cell.borrow_mut(&guard2) = 23456 - 30;
    cell.drop_mut(guard2);

    cell.drop_non_aliasing(no_alias_guard);

    assert_eq!(*cell.borrow_mut(&guard1), 23456 - 30);
    *cell.borrow_mut(&guard1) = 23456 - 5;

    cell.drop_mut(guard1);

    let guard3 = cell.gd_ref().unwrap();
    assert_eq!(*cell.borrow(&guard3), 23456 - 5);
    cell.drop_ref(guard3);
}

#[test]
fn prevent_mut_mut_without_non_aliasing() {
    let mut cell = GdCell::new(23456);

    let guard1 = cell.gd_mut().unwrap();
    assert_eq!(*cell.borrow_mut(&guard1), 23456);
    *cell.borrow_mut(&guard1) = 23456 + 50;

    cell.gd_mut()
        .expect_err("reference may be aliasing so should be prevented");

    cell.drop_mut(guard1);
}

#[test]
fn different_non_aliasing() {
    let mut cell1 = GdCell::new(23456);
    let mut cell2 = GdCell::new(11111);

    let guard1 = cell1.gd_mut().unwrap();
    assert_eq!(*cell1.borrow_mut(&guard1), 23456);
    *cell1.borrow_mut(&guard1) = 23456 + 10;

    let guard2 = cell2.gd_mut().unwrap();
    assert_eq!(*cell2.borrow_mut(&guard2), 11111);
    *cell2.borrow_mut(&guard2) = 11111 + 10;

    let no_alias_guard = cell1
        .set_non_aliasing(&guard2)
        .expect_err("should not allow different references");

    drop(no_alias_guard);

    cell1.drop_mut(guard1);
    cell2.drop_mut(guard2);
}

#[test]
fn wrong_reference_error_kind() {
    let mut cell1 = GdCell::new(1u8);
    let mut cell2 = GdCell::new(2u8);
    let g1 = cell1.gd_mut().unwrap();
    let g2 = cell2.gd_mut().unwrap();

    assert!(matches!(
        cell1.set_non_aliasing(&g2),
        Err(BorrowStateErr::WrongReference)
    ));

    assert_eq!(cell1.gd_mut().err(), Some(BorrowStateErr::HasAliasingRef));
    assert_eq!(cell2.gd_mut().err(), Some(BorrowStateErr::HasAliasingRef));

    cell1.drop_mut(g1);
    cell2.drop_mut(g2);
}

#[test]
fn shared_allowed_after_exclusive_released() {
    let mut cell = GdCell::new(5i32);
    let guard1 = cell.gd_mut().unwrap();
    assert!(matches!(
        cell.gd_ref(),
        Err(BorrowStateErr::HasAliasingRef)
    ));
    cell.drop_mut(guard1);
    let guard2 = cell.gd_ref().unwrap();
    assert_eq!(*cell.borrow(&guard2), 5);
    cell.drop_ref(guard2);
}

#[test]
fn exclusive_then_exclusive_is_refused() {
    let mut cell = GdCell::new(10);
    let guard1 = cell.gd_mut().unwrap();
    assert_eq!(cell.gd_mut().err(), Some(BorrowStateErr::HasAliasingRef));
    assert_eq!(*cell.borrow_mut(&guard1), 10);
    cell.drop_mut(guard1);
}

#[test]
fn state_observer_tracks_transitions() {
    let mut cell = GdCell::new(1u8);
    assert_eq!(cell.borrow_state().shared_count(), 0);
    let g = cell.gd_ref().unwrap();
    assert_eq!(cell.borrow_state().shared_count(), 1);
    cell.drop_ref(g);
    assert_eq!(cell.borrow_state().shared_count(), 0);
    let g = cell.gd_mut().unwrap();
    assert_eq!(cell.borrow_state().mut_count(), 1);
    let na = cell.set_non_aliasing(&g).unwrap();
    assert_eq!(cell.borrow_state().non_aliasing_count(), 1);
    cell.drop_non_aliasing(na);
    assert_eq!(cell.borrow_state().non_aliasing_count(), 0);
    cell.drop_mut(g);
    assert!(!cell.borrow_state().is_poisoned());
}

#[test]
fn currently_bound_reports_live_accessors() {
    let mut cell = GdCell::new(0i64);
    assert!(!cell.is_currently_bound());
    let g = cell.gd_ref().unwrap();
    assert!(cell.is_currently_bound());
    cell.drop_ref(g);
    assert!(!cell.is_currently_bound());
    let g = cell.gd_mut().unwrap();
    assert!(cell.is_currently_bound());
    cell.drop_mut(g);
    assert!(!cell.is_currently_bound());
}

#[test]
fn guards_of_one_cell_share_the_storage_token() {
    let mut cell = GdCell::new(9u32);
    let g1 = cell.gd_ref().unwrap();
    let g2 = cell.gd_ref().unwrap();
    assert_eq!(g1.token(), g2.token());
    cell.drop_ref(g1);
    cell.drop_ref(g2);
}

#[test]
fn exclusive_guard_captures_the_count() {
    let mut cell = GdCell::new(3u16);
    let g1 = cell.gd_mut().unwrap();
    assert_eq!(g1.count(), 1);
    let na = cell.set_non_aliasing(&g1).unwrap();
    let g2 = cell.gd_mut().unwrap();
    assert_eq!(g2.count(), 2);
    cell.drop_mut(g2);
    cell.drop_non_aliasing(na);
    cell.drop_mut(g1);
}
