// The call protocol on concrete frames.
use sandcrust::{changed_count, reply_len, restore_changed_vars, store_changed_vars, ArgKind, ProtocolError};

#[test]
fn only_mut_refs_are_changed_vars() {
    assert!(ArgKind::MutRef.is_changed_var());
    assert!(!ArgKind::Ref.is_changed_var());
    assert!(!ArgKind::Value.is_changed_var());
    assert!(!ArgKind::MutValue.is_changed_var());
    let kinds = vec![ArgKind::MutRef, ArgKind::Value, ArgKind::MutRef, ArgKind::Ref, ArgKind::MutValue];
    assert_eq!(changed_count(&kinds), 2);
}

#[test]
fn reply_length_counts_mut_refs_and_return_value() {
    let kinds = vec![ArgKind::MutRef, ArgKind::Value, ArgKind::MutRef, ArgKind::Ref];
    assert_eq!(reply_len(&kinds, false), 2);
    assert_eq!(reply_len(&kinds, true), 3);
    assert_eq!(reply_len(&vec![], true), 1);
    assert_eq!(reply_len(&vec![ArgKind::MutValue], false), 0);
}

#[test]
fn reply_holds_mut_refs_then_return_value() {
    let kinds = vec![ArgKind::Value, ArgKind::MutRef, ArgKind::Ref, ArgKind::MutRef];
    let reply = store_changed_vars(&kinds, vec![10, 11, 12, 13], Some(99));
    assert_eq!(reply, vec![11, 13, 99]);
    let reply = store_changed_vars(&kinds, vec![10, 11, 12, 13], None);
    assert_eq!(reply, vec![11, 13]);
}

#[test]
fn restore_changes_only_mut_refs() {
    let kinds = vec![ArgKind::Value, ArgKind::MutRef, ArgKind::Ref, ArgKind::MutRef];
    let before = vec![1, 2, 3, 4];
    let after = vec![10, 20, 30, 40];
    let reply = store_changed_vars(&kinds, after, Some(7));
    assert_eq!(restore_changed_vars(&kinds, before, reply, true), Ok((vec![1, 20, 3, 40], Some(7))));
}

#[test]
fn reply_of_wrong_length_is_refused() {
    let kinds = vec![ArgKind::MutRef, ArgKind::Value];
    assert_eq!(restore_changed_vars(&kinds, vec![1, 2], vec![5], true), Err(ProtocolError::WrongFrameCount));
    assert_eq!(restore_changed_vars(&kinds, vec![1, 2], vec![5, 6], false), Err(ProtocolError::WrongFrameCount));
    assert_eq!(restore_changed_vars(&kinds, vec![1, 2], vec![], false), Err(ProtocolError::WrongFrameCount));
    assert_eq!(restore_changed_vars(&kinds, vec![1, 2], vec![5, 6], true), Ok((vec![5, 2], Some(6))));
}
