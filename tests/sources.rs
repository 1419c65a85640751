use mio_core::error::Error;
use mio_core::interest::Interest;
use mio_core::io_source::{IoSource, IoSourceState};
use mio_core::selector::{Completion, Selector};
use mio_core::event::Events;
use mio_core::sock_state::PollAction;
use mio_core::sys_event::EPOLLIN;
use mio_core::token::Token;
use mio_core::uds::{escape_ascii, AddressKind, SocketAddr};

#[test]
fn source_slot_follows_registration() {
    let mut sel = Selector::new(1);
    let mut src = IoSource::new(String::from("sock"));
    assert!(src.state().internal().is_none());
    src.register(&mut sel, 9, Token(4), Interest::readable()).unwrap();
    let st = src.state().internal().unwrap();
    assert_eq!((st.selector_id, st.fd, st.token), (1, 9, Token(4)));
    src.reregister(&mut sel, Token(5), Interest::writable()).unwrap();
    let st = src.state().internal().unwrap();
    assert_eq!(st.token, Token(5));
    assert_eq!(st.interests, Interest::writable());
    src.deregister(&mut sel).unwrap();
    assert!(src.state().internal().is_none());
}

#[test]
fn source_with_foreign_selector_is_refused() {
    let mut a = Selector::new(1);
    let mut b = Selector::new(2);
    let mut st = IoSourceState::new();
    st.register(&mut a, 9, Token(1), Interest::readable()).unwrap();
    assert_eq!(st.register(&mut b, 9, Token(1), Interest::readable()), Err(Error::InvalidInput));
    assert_eq!(st.reregister(&mut b, Token(1), Interest::readable()), Err(Error::InvalidInput));
    assert_eq!(st.deregister(&mut b), Err(Error::InvalidInput));
    assert_eq!(st.internal().unwrap().selector_id, 1);
}

#[test]
fn unregistered_source_misuse() {
    let mut sel = Selector::new(1);
    let mut st = IoSourceState::new();
    assert_eq!(st.reregister(&mut sel, Token(1), Interest::readable()), Err(Error::InvalidInput));
    assert_eq!(st.deregister(&mut sel), Err(Error::NotFound));
    assert_eq!(st.io_blocked_reregister(&mut sel), Ok(PollAction::Nothing));
}

#[test]
fn failed_registration_clears_the_slot() {
    let mut sel = Selector::new(1);
    sel.register(9, Token(1), Interest::readable()).unwrap();
    let mut st = IoSourceState::new();
    assert_eq!(st.register(&mut sel, 9, Token(2), Interest::readable()), Err(Error::AlreadyExists));
    assert!(st.internal().is_none());
}

#[test]
fn io_blocked_reregister_keeps_token() {
    let mut sel = Selector::new(1);
    let mut st = IoSourceState::new();
    st.register(&mut sel, 9, Token(6), Interest::readable()).unwrap();
    let key = st.internal().unwrap().key;
    sel.drain();
    assert_eq!(st.io_blocked_reregister(&mut sel), Ok(PollAction::Cancel { key, fd: 9 }));
    let mut events = Events::with_capacity(2);
    sel.select(&mut events, &vec![Completion::Probe { key, flags: EPOLLIN }]);
    assert_eq!(events.len(), 0);
    sel.drain();
    sel.select(&mut events, &vec![Completion::Probe { key, flags: EPOLLIN }]);
    assert_eq!(events.get(0).token(), Token(6));
}

#[test]
fn do_io_runs_the_operation() {
    let mut src = IoSource::new(vec![1u8, 2]);
    let n = src.do_io(|v: &mut Vec<u8>| {
        v.push(3);
        v.len()
    });
    assert_eq!(n, 3);
    assert_eq!(src.get_ref(), &vec![1u8, 2, 3]);
}

fn addr(name: &[u8], socklen: u32) -> SocketAddr {
    let mut path = vec![0u8; 108];
    path[..name.len()].copy_from_slice(name);
    SocketAddr::new(path, socklen).unwrap()
}

#[test]
fn unnamed_address() {
    let a = addr(b"", 2);
    assert!(a.is_unnamed());
    assert_eq!(a.address(), AddressKind::Unnamed);
    assert!(a.as_pathname().is_none());
}

#[test]
fn pathname_address() {
    // "/tmp/s" and its terminating zero.
    let a = addr(b"/tmp/s\0", 2 + 7);
    assert!(!a.is_unnamed());
    assert_eq!(a.as_pathname(), Some(b"/tmp/s".to_vec()));
    assert!(a.as_abstract_name().is_none());
}

#[test]
fn abstract_address() {
    let a = addr(b"\0name", 2 + 5);
    assert_eq!(a.address(), AddressKind::Abstract(b"name".to_vec()));
    assert!(a.as_pathname().is_none());
    assert_eq!(a.as_abstract_name(), Some(b"name".to_vec()));
}

#[test]
fn address_length_must_fit() {
    assert!(SocketAddr::new(vec![0u8; 108], 1).is_none());
    assert!(SocketAddr::new(vec![0u8; 108], 111).is_none());
    assert!(SocketAddr::new(vec![0u8; 108], 110).is_some());
}

#[test]
fn escape_matches_std_for_every_byte() {
    for b in 0u8..=255 {
        let expected: Vec<u8> = std::ascii::escape_default(b).collect();
        assert_eq!(escape_ascii(&vec![b]), expected, "byte {}", b);
    }
    assert_eq!(escape_ascii(&b"a\"b\n\x01".to_vec()), b"a\\\"b\\n\\x01".to_vec());
}

#[test]
fn source_io_blocked_reregister_renews_with_same_values() {
    let mut sel = Selector::new(1);
    let mut src = IoSource::new(0u8);
    src.register(&mut sel, 9, Token(6), Interest::writable()).unwrap();
    assert_eq!(src.io_blocked_reregister(&mut sel), Ok(PollAction::Nothing));
    let st = src.state().internal().unwrap();
    assert_eq!((st.token, st.interests), (Token(6), Interest::writable()));
}

#[test]
fn slot_do_io_runs_on_the_value() {
    let mut st = IoSourceState::new();
    let mut v = 41u32;
    let r = st.do_io(|x: &mut u32| {
        *x += 1;
        *x
    }, &mut v);
    assert_eq!((r, v), (42, 42));
    assert!(st.internal().is_none());
}
