use coretools::errors::WatchError;
use coretools::mask;

use inotify::WatchMask;

fn tr(tokens: &[&str]) -> Result<u32, WatchError> {
    let v: Vec<String> = tokens.iter().map(|t| t.to_string()).collect();
    mask::translate(&v)
}

#[test]
fn constants_match_the_native_facility() {
    assert_eq!(mask::ACCESS, WatchMask::ACCESS.bits());
    assert_eq!(mask::MODIFY, WatchMask::MODIFY.bits());
    assert_eq!(mask::ATTRIB, WatchMask::ATTRIB.bits());
    assert_eq!(mask::CLOSE_WRITE, WatchMask::CLOSE_WRITE.bits());
    assert_eq!(mask::CLOSE_NOWRITE, WatchMask::CLOSE_NOWRITE.bits());
    assert_eq!(mask::OPEN, WatchMask::OPEN.bits());
    assert_eq!(mask::MOVED_FROM, WatchMask::MOVED_FROM.bits());
    assert_eq!(mask::MOVED_TO, WatchMask::MOVED_TO.bits());
    assert_eq!(mask::CREATE, WatchMask::CREATE.bits());
    assert_eq!(mask::DELETE, WatchMask::DELETE.bits());
    assert_eq!(mask::DELETE_SELF, WatchMask::DELETE_SELF.bits());
    assert_eq!(mask::MOVE_SELF, WatchMask::MOVE_SELF.bits());
    assert_eq!(mask::CLOSE, WatchMask::CLOSE.bits());
    assert_eq!(mask::MOVE, WatchMask::MOVE.bits());
}

#[test]
fn empty_filter_gives_the_documented_default_set() {
    let expected = WatchMask::ACCESS
        | WatchMask::ATTRIB
        | WatchMask::CLOSE_WRITE
        | WatchMask::CLOSE_NOWRITE
        | WatchMask::CREATE
        | WatchMask::DELETE
        | WatchMask::DELETE_SELF
        | WatchMask::MODIFY
        | WatchMask::MOVED_FROM
        | WatchMask::MOVED_TO
        | WatchMask::MOVE_SELF
        | WatchMask::OPEN;
    assert_eq!(tr(&[]).unwrap(), expected.bits());
    assert_eq!(mask::DEFAULT_MASK, expected.bits());
}

#[test]
fn single_tokens_translate_to_their_masks() {
    assert_eq!(tr(&["access"]).unwrap(), mask::ACCESS);
    assert_eq!(tr(&["modify"]).unwrap(), mask::MODIFY);
    assert_eq!(tr(&["attrib"]).unwrap(), mask::ATTRIB);
    assert_eq!(tr(&["close_write"]).unwrap(), mask::CLOSE_WRITE);
    assert_eq!(tr(&["close_nowrite"]).unwrap(), mask::CLOSE_NOWRITE);
    assert_eq!(tr(&["close"]).unwrap(), mask::CLOSE);
    assert_eq!(tr(&["open"]).unwrap(), mask::OPEN);
    assert_eq!(tr(&["moved_to"]).unwrap(), mask::MOVED_TO);
    assert_eq!(tr(&["moved_from"]).unwrap(), mask::MOVED_FROM);
    assert_eq!(tr(&["move"]).unwrap(), mask::MOVE);
    assert_eq!(tr(&["moved_self"]).unwrap(), mask::MOVE_SELF);
    assert_eq!(tr(&["create"]).unwrap(), mask::CREATE);
    assert_eq!(tr(&["delete"]).unwrap(), mask::DELETE);
    assert_eq!(tr(&["delete_self"]).unwrap(), mask::DELETE_SELF);
}

#[test]
fn composition_is_the_bitwise_or_and_ignores_order() {
    let a = tr(&["create", "delete", "modify"]).unwrap();
    let b = tr(&["modify", "create", "delete"]).unwrap();
    let c = tr(&["delete", "modify", "create"]).unwrap();
    assert_eq!(a, mask::CREATE | mask::DELETE | mask::MODIFY);
    assert_eq!(a, b);
    assert_eq!(b, c);
    // repeating a token adds nothing
    let d = tr(&["create", "create"]).unwrap();
    assert_eq!(d, mask::CREATE);
}

#[test]
fn unknown_token_fails_with_configuration_error() {
    let r = tr(&["create", "bogus", "delete"]);
    match r {
        Err(WatchError::Configuration { token }) => {
            assert_eq!(token, "bogus");
        }
        _ => panic!("expected a configuration error"),
    }
    let msg = tr(&["nonsense"]).unwrap_err().message();
    assert_eq!(msg, "unknown event type: nonsense");
}

#[test]
fn configuration_error_is_fatal() {
    let e = tr(&["zzz"]).unwrap_err();
    assert!(e.is_fatal());
    let skip = WatchError::PathUnavailable { path: "p".to_string() };
    assert!(!skip.is_fatal());
    let skip2 = WatchError::WatchCreation { path: "p".to_string() };
    assert!(!skip2.is_fatal());
    assert!(WatchError::Enumeration { path: "p".to_string() }.is_fatal());
    assert!(WatchError::ChannelRead.is_fatal());
}

#[test]
fn error_messages_name_their_subject() {
    let e = WatchError::PathUnavailable { path: "a/b".to_string() };
    assert_eq!(e.message(), "error when getting metadata of a/b");
    let e = WatchError::WatchCreation { path: "a/b".to_string() };
    assert_eq!(e.message(), "failed to add inotify watch for a/b");
    let e = WatchError::Enumeration { path: "a/b".to_string() };
    assert_eq!(e.message(), "error when reading directory a/b");
    assert_eq!(WatchError::ChannelRead.message(), "failed to read inotify event");
}
