//! The error taxonomy: every constructor yields the right variant and carries
//! the identity it was given.

use tab_service::errors::{
    AlreadyLinkedError, Link, LinkTakenError, ResourceInitializedError, ResourceTakenError,
    ResourceUninitializedError, TakeChannelError, TakeResourceError,
};

#[test]
fn link_taken_error_carries_identity() {
    let e = LinkTakenError::new("B".to_owned(), "M".to_owned(), Link::Both);
    assert_eq!(e.bus, "B");
    assert_eq!(e.message, "M");
    assert_eq!(e.link, Link::Both);
}

#[test]
fn already_linked_error_carries_identity() {
    let e = AlreadyLinkedError::new("B".to_owned(), "M".to_owned());
    assert_eq!(e.bus, "B");
    assert_eq!(e.message, "M");
}

#[test]
fn take_channel_error_constructors_pick_the_variant() {
    match TakeChannelError::already_linked("B".to_owned(), "M".to_owned()) {
        TakeChannelError::AlreadyLinked(e) => {
            assert_eq!(e.bus, "B");
            assert_eq!(e.message, "M");
        }
        _ => panic!("expected the already-linked variant"),
    }
    match TakeChannelError::already_taken("B".to_owned(), "M".to_owned(), Link::Rx) {
        TakeChannelError::AlreadyTaken(e) => {
            assert_eq!(e.bus, "B");
            assert_eq!(e.message, "M");
            assert_eq!(e.link, Link::Rx);
        }
        _ => panic!("expected the already-taken variant"),
    }
}

#[test]
fn resource_error_constructors_pick_the_variant() {
    match TakeResourceError::uninitialized("B".to_owned(), "R".to_owned()) {
        TakeResourceError::Uninitialized(e) => {
            assert_eq!(e.bus, "B");
            assert_eq!(e.resource, "R");
        }
        _ => panic!("expected the uninitialized variant"),
    }
    match TakeResourceError::taken("B".to_owned(), "R".to_owned()) {
        TakeResourceError::Taken(e) => {
            assert_eq!(e.bus, "B");
            assert_eq!(e.resource, "R");
        }
        _ => panic!("expected the taken variant"),
    }
}

#[test]
fn plain_resource_errors_carry_identity() {
    let t = ResourceTakenError::new("B".to_owned(), "R".to_owned());
    assert_eq!((t.bus.as_str(), t.resource.as_str()), ("B", "R"));
    let u = ResourceUninitializedError::new("B".to_owned(), "R".to_owned());
    assert_eq!((u.bus.as_str(), u.resource.as_str()), ("B", "R"));
    let i = ResourceInitializedError::new("B".to_owned(), "R".to_owned());
    assert_eq!((i.bus.as_str(), i.resource.as_str()), ("B", "R"));
}

#[test]
fn link_labels() {
    assert_eq!(Link::Tx.label(), "Tx");
    assert_eq!(Link::Rx.label(), "Rx");
    assert_eq!(Link::Both.label(), "Both");
}
