use mio_core::error::Error;
use mio_core::event::Events;
use mio_core::interest::Interest;
use mio_core::selector::{Completion, Selector};
use mio_core::sock_state::{mask_of, PollAction, SockKey, ALWAYS_REPORTED};
use mio_core::sys_event::{EPOLLERR, EPOLLHUP, EPOLLIN, EPOLLOUT, EPOLLPRI, EPOLLRDHUP};
use mio_core::timeout::{poll_done, port_wait, remaining_millis, wait_millis};
use mio_core::token::Token;

fn submitted(actions: &[PollAction], key: SockKey) -> Option<u32> {
    actions.iter().find_map(|a| match a {
        PollAction::Submit { key: k, mask, .. } if *k == key => Some(*mask),
        _ => None,
    })
}

fn select(sel: &mut Selector, cap: usize, cs: Vec<Completion>) -> Events {
    let mut events = Events::with_capacity(cap);
    sel.select(&mut events, &cs);
    events
}

#[test]
fn always_reported_is_error_and_hangup() {
    assert_eq!(ALWAYS_REPORTED, EPOLLERR | EPOLLHUP);
}

#[test]
fn interest_masks() {
    assert_eq!(mask_of(Interest::readable()), EPOLLIN | EPOLLRDHUP);
    assert_eq!(mask_of(Interest::writable()), EPOLLOUT);
    assert_eq!(mask_of(Interest::priority()), EPOLLPRI);
    assert_eq!(mask_of(Interest::aio()), 0);
}

#[test]
fn loopback_tcp_scenario() {
    let mut sel = Selector::new(1);
    let listener = sel.register(10, Token(0), Interest::readable()).unwrap();
    let stream = sel.register(11, Token(1), Interest::writable()).unwrap();
    let acts = sel.drain();
    assert_eq!(submitted(&acts, listener), Some(EPOLLIN | EPOLLRDHUP));
    assert_eq!(submitted(&acts, stream), Some(EPOLLOUT));
    let events = select(
        &mut sel,
        8,
        vec![
            Completion::Probe { key: listener, flags: EPOLLIN },
            Completion::Probe { key: stream, flags: EPOLLOUT },
        ],
    );
    assert_eq!(events.len(), 2);
    let (a, b) = (events.get(0), events.get(1));
    assert!(a.token() == Token(0) && a.is_readable());
    assert!(b.token() == Token(1) && b.is_writable());
    let accepted = sel.register(12, Token(2), Interest::readable()).unwrap();
    let acts = sel.drain();
    assert!(submitted(&acts, accepted).is_some());
    let events = select(&mut sel, 8, vec![Completion::Probe { key: accepted, flags: EPOLLIN }]);
    assert_eq!(events.len(), 1);
    assert!(events.get(0).token() == Token(2) && events.get(0).is_readable());
}

#[test]
fn half_close_scenario() {
    let mut sel = Selector::new(1);
    let key = sel.register(5, Token(3), Interest::readable()).unwrap();
    sel.drain();
    let events = select(&mut sel, 4, vec![Completion::Probe { key, flags: EPOLLIN | EPOLLRDHUP }]);
    assert_eq!(events.len(), 1);
    assert!(events.get(0).is_read_closed());
}

#[test]
fn waker_scenario() {
    let mut sel = Selector::new(1);
    let events = select(&mut sel, 4, vec![Completion::Wake { token: Token(9) }]);
    assert_eq!(events.len(), 1);
    assert_eq!(events.get(0).token(), Token(9));
    assert!(events.get(0).is_readable());
}

#[test]
fn several_wakes_each_give_an_event() {
    let mut sel = Selector::new(1);
    let w = Completion::Wake { token: Token(9) };
    let events = select(&mut sel, 4, vec![w, w]);
    assert!(events.len() >= 1);
    for i in 0..events.len() {
        assert_eq!(events.get(i).token(), Token(9));
    }
}

#[test]
fn reregister_change_scenario() {
    let mut sel = Selector::new(1);
    let key = sel.register(7, Token(1), Interest::readable()).unwrap();
    sel.drain();
    let act = sel.reregister(7, Token(2), Interest::writable()).unwrap();
    assert_eq!(act, PollAction::Cancel { key, fd: 7 });
    // The probe submitted for the old interests completes: dropped.
    let events = select(&mut sel, 4, vec![Completion::Probe { key, flags: EPOLLIN | EPOLLOUT }]);
    assert_eq!(events.len(), 0);
    let acts = sel.drain();
    assert_eq!(submitted(&acts, key), Some(EPOLLOUT));
    let events = select(&mut sel, 4, vec![Completion::Probe { key, flags: EPOLLIN | EPOLLOUT }]);
    assert_eq!(events.len(), 1);
    let e = events.get(0);
    assert_eq!(e.token(), Token(2));
    assert!(e.is_writable());
    assert!(!e.is_readable());
}

#[test]
fn cancel_during_reregister_gives_no_duplicate() {
    let mut sel = Selector::new(1);
    let key = sel.register(8, Token(1), Interest::readable()).unwrap();
    sel.drain();
    sel.reregister(8, Token(4), Interest::readable().add(Interest::writable())).unwrap();
    let events = select(
        &mut sel,
        4,
        vec![Completion::Probe { key, flags: EPOLLIN }, Completion::Probe { key, flags: EPOLLIN }],
    );
    assert_eq!(events.len(), 0);
    sel.drain();
    let events = select(&mut sel, 4, vec![Completion::Probe { key, flags: EPOLLIN | EPOLLOUT }]);
    assert_eq!(events.len(), 1);
    assert_eq!(events.get(0).token(), Token(4));
    assert!(events.get(0).is_readable() && events.get(0).is_writable());
}

#[test]
fn zero_timeout_scenario() {
    assert_eq!(wait_millis(Some((0, 0))), 0);
    let mut sel = Selector::new(1);
    let events = select(&mut sel, 4, vec![]);
    assert_eq!(events.len(), 0);
}

#[test]
fn token_echo_on_every_event() {
    let mut sel = Selector::new(1);
    let key = sel.register(3, Token(77), Interest::readable().add(Interest::writable())).unwrap();
    for flags in [EPOLLIN, EPOLLOUT, EPOLLERR, EPOLLHUP | EPOLLIN] {
        sel.drain();
        let events = select(&mut sel, 4, vec![Completion::Probe { key, flags }]);
        assert_eq!(events.len(), 1);
        assert_eq!(events.get(0).token(), Token(77));
    }
}

#[test]
fn interest_filtering() {
    let mut sel = Selector::new(1);
    let r = sel.register(3, Token(1), Interest::readable()).unwrap();
    let w = sel.register(4, Token(2), Interest::writable()).unwrap();
    sel.drain();
    let all = EPOLLIN | EPOLLOUT | EPOLLRDHUP;
    let events = select(
        &mut sel,
        4,
        vec![Completion::Probe { key: r, flags: all }, Completion::Probe { key: w, flags: all }],
    );
    assert_eq!(events.len(), 2);
    assert!(events.get(0).is_readable() && !events.get(0).is_writable());
    assert!(events.get(1).is_writable() && !events.get(1).is_readable());
    // Nothing the interests asked for: no event at all.
    sel.drain();
    let events = select(&mut sel, 4, vec![Completion::Probe { key: w, flags: EPOLLIN }]);
    assert_eq!(events.len(), 0);
}

#[test]
fn deregister_quiescence() {
    let mut sel = Selector::new(1);
    let key = sel.register(3, Token(1), Interest::readable()).unwrap();
    sel.drain();
    let act = sel.deregister(3).unwrap();
    assert_eq!(act, PollAction::Cancel { key, fd: 3 });
    let events = select(&mut sel, 4, vec![Completion::Probe { key, flags: EPOLLIN }]);
    assert_eq!(events.len(), 0);
    sel.drain();
    let events = select(&mut sel, 4, vec![Completion::Probe { key, flags: EPOLLIN }]);
    assert_eq!(events.len(), 0);
    assert_eq!(sel.deregister(3), Err(Error::NotFound));
}

#[test]
fn deregistered_slot_is_reused_under_a_new_generation() {
    let mut sel = Selector::new(1);
    let old = sel.register(3, Token(1), Interest::readable()).unwrap();
    sel.deregister(3).unwrap();
    assert!(sel.drain().is_empty());
    let new = sel.register(4, Token(2), Interest::readable()).unwrap();
    assert_eq!(new.index, old.index);
    assert_eq!(new.generation, old.generation + 1);
    sel.drain();
    // A completion under the old key names nothing.
    let events = select(&mut sel, 4, vec![Completion::Probe { key: old, flags: EPOLLIN }]);
    assert_eq!(events.len(), 0);
    let events = select(&mut sel, 4, vec![Completion::Probe { key: new, flags: EPOLLIN }]);
    assert_eq!(events.get(0).token(), Token(2));
}

#[test]
fn level_semantics_reports_again() {
    let mut sel = Selector::new(1);
    let key = sel.register(3, Token(5), Interest::readable()).unwrap();
    for _ in 0..3 {
        let acts = sel.drain();
        assert_eq!(submitted(&acts, key), Some(EPOLLIN | EPOLLRDHUP));
        let events = select(&mut sel, 4, vec![Completion::Probe { key, flags: EPOLLIN }]);
        assert_eq!(events.len(), 1);
        assert!(events.get(0).is_readable());
    }
}

#[test]
fn register_twice_is_refused() {
    let mut sel = Selector::new(1);
    sel.register(3, Token(1), Interest::readable()).unwrap();
    assert_eq!(sel.register(3, Token(2), Interest::writable()), Err(Error::AlreadyExists));
}

#[test]
fn reregister_unknown_is_not_found() {
    let mut sel = Selector::new(1);
    assert_eq!(sel.reregister(3, Token(1), Interest::readable()), Err(Error::NotFound));
}

#[test]
fn select_drops_events_beyond_capacity() {
    let mut sel = Selector::new(1);
    let events = select(
        &mut sel,
        1,
        vec![Completion::Wake { token: Token(1) }, Completion::Wake { token: Token(2) }],
    );
    assert_eq!(events.len(), 1);
    assert_eq!(events.get(0).token(), Token(1));
}

#[test]
fn try_clone_names_the_same_selector() {
    let sel = Selector::new(17);
    let handle = sel.try_clone().unwrap();
    assert_eq!(handle.id, 17);
    assert_eq!(handle.id, sel.id());
}

#[test]
fn priority_interest_is_not_readable() {
    let mut sel = Selector::new(1);
    let key = sel.register(3, Token(8), Interest::priority()).unwrap();
    sel.drain();
    let events = select(&mut sel, 4, vec![Completion::Probe { key, flags: EPOLLPRI | EPOLLIN }]);
    assert_eq!(events.len(), 1);
    assert!(events.get(0).is_priority());
    assert!(!events.get(0).is_readable());
}

#[test]
fn timeout_conversion() {
    assert_eq!(wait_millis(None), -1);
    assert_eq!(wait_millis(Some((1, 500_000))), 1001);
    assert_eq!(wait_millis(Some((0, 1))), 1);
    assert_eq!(wait_millis(Some((2, 0))), 2000);
    assert_eq!(wait_millis(Some((u64::MAX, 999_999_999))), i32::MAX);
    assert_eq!(wait_millis(Some((2_147_483, 648_000_000))), i32::MAX);
}

#[test]
fn remaining_wait_never_grows() {
    assert_eq!(remaining_millis(-1, 5_000), -1);
    assert_eq!(remaining_millis(100, 30), 70);
    assert_eq!(remaining_millis(100, 100), 0);
    assert_eq!(remaining_millis(100, u64::MAX), 0);
    assert_eq!(remaining_millis(0, 0), 0);
}

#[test]
fn wait_round_decisions() {
    assert_eq!(port_wait(250, true), 0);
    assert_eq!(port_wait(250, false), 250);
    assert_eq!(port_wait(-1, false), -1);
    assert!(poll_done(1, -1));
    assert!(poll_done(0, 0));
    assert!(!poll_done(0, 40));
    assert!(!poll_done(0, -1));
}

#[test]
fn wake_first_finds_room_in_a_full_batch() {
    let mut sel = Selector::new(1);
    let key = sel.register(3, Token(1), Interest::readable()).unwrap();
    sel.drain();
    let events = select(
        &mut sel,
        1,
        vec![Completion::Wake { token: Token(9) }, Completion::Probe { key, flags: EPOLLIN }],
    );
    assert_eq!(events.len(), 1);
    assert_eq!(events.get(0).token(), Token(9));
}
