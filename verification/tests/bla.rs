// The shared-memory prototype and its helpers.
use sandcrust::bla::{eat_a_b, sandbox_me_label, write_b_to_a, Sandcrust};
use sandcrust::ArgKind;

#[test]
fn it_works() {}

#[test]
fn shm_cursor_starts_at_zero() {
    let s = Sandcrust::new(64);
    assert_eq!(s.memptr, 0);
}

#[test]
fn shm_cursor_does_not_move() {
    let mut s = Sandcrust::new(64);
    let a = 23i32;
    let b = 42u64;
    assert_eq!(s.get_var_in_shm(&a), 0);
    assert_eq!(s.get_var_in_shm(&b), 0);
    assert_eq!(s.memptr, 0);
}

#[test]
fn write_b_to_a_copies_a_into_b() {
    let mut a = 23;
    let mut b = 42;
    write_b_to_a(&mut a, &mut b);
    assert_eq!(a, 23);
    assert_eq!(b, 23);
}

#[test]
fn eat_a_b_changes_nothing_outside() {
    let a = 23;
    let b = 42;
    eat_a_b(a, b);
    assert_eq!((a, b), (23, 42));
}

#[test]
fn labels_of_each_kind() {
    assert_eq!(sandbox_me_label(ArgKind::MutRef, true), "single mut ref");
    assert_eq!(sandbox_me_label(ArgKind::MutRef, false), "process mut ref");
    assert_eq!(sandbox_me_label(ArgKind::Ref, true), "single ref");
    assert_eq!(sandbox_me_label(ArgKind::Ref, false), "process ref");
    assert_eq!(sandbox_me_label(ArgKind::Value, true), "single var");
    assert_eq!(sandbox_me_label(ArgKind::MutValue, false), "process var");
}
