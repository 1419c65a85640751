use mio_core::event::{Event, Events};
use mio_core::interest::{Interest, ALL_BITS};
use mio_core::sys_event::{
    self, SysEvent, EPOLLERR, EPOLLET, EPOLLEXCLUSIVE, EPOLLHUP, EPOLLIN, EPOLLMSG, EPOLLONESHOT,
    EPOLLOUT, EPOLLPRI, EPOLLRDBAND, EPOLLRDHUP, EPOLLRDNORM, EPOLLWAKEUP, EPOLLWRBAND, EPOLLWRNORM,
};
use mio_core::token::Token;

fn ev(events: u32, data: u64) -> Event {
    Event::from_sys_event(SysEvent { events, data })
}

#[test]
fn flag_values_match_the_kernel_headers() {
    assert_eq!(EPOLLIN, libc::EPOLLIN as u32);
    assert_eq!(EPOLLPRI, libc::EPOLLPRI as u32);
    assert_eq!(EPOLLOUT, libc::EPOLLOUT as u32);
    assert_eq!(EPOLLERR, libc::EPOLLERR as u32);
    assert_eq!(EPOLLHUP, libc::EPOLLHUP as u32);
    assert_eq!(EPOLLRDNORM, libc::EPOLLRDNORM as u32);
    assert_eq!(EPOLLRDBAND, libc::EPOLLRDBAND as u32);
    assert_eq!(EPOLLWRNORM, libc::EPOLLWRNORM as u32);
    assert_eq!(EPOLLWRBAND, libc::EPOLLWRBAND as u32);
    assert_eq!(EPOLLMSG, libc::EPOLLMSG as u32);
    assert_eq!(EPOLLRDHUP, libc::EPOLLRDHUP as u32);
    assert_eq!(EPOLLEXCLUSIVE, libc::EPOLLEXCLUSIVE as u32);
    assert_eq!(EPOLLWAKEUP, libc::EPOLLWAKEUP as u32);
    assert_eq!(EPOLLONESHOT, libc::EPOLLONESHOT as u32);
    assert_eq!(EPOLLET, libc::EPOLLET as u32);
}

#[test]
fn event_token_is_the_attached_word() {
    assert_eq!(ev(EPOLLIN, 42).token(), Token(42));
    assert_eq!(sys_event::token(&SysEvent { events: 0, data: 7 }), Token(7));
}

#[test]
fn readable_from_in_only() {
    assert!(ev(EPOLLIN, 0).is_readable());
    assert!(!ev(EPOLLPRI, 0).is_readable());
    assert!(ev(EPOLLPRI, 0).is_priority());
    assert!(!ev(EPOLLOUT, 0).is_readable());
    assert!(!ev(EPOLLHUP, 0).is_readable());
}

#[test]
fn writable_error_priority_flags() {
    assert!(ev(EPOLLOUT, 0).is_writable());
    assert!(!ev(EPOLLIN, 0).is_writable());
    assert!(ev(EPOLLERR, 0).is_error());
    assert!(!ev(EPOLLHUP, 0).is_error());
    assert!(ev(EPOLLPRI, 0).is_priority());
    assert!(!ev(EPOLLIN, 0).is_priority());
    assert!(!ev(u32::MAX, 0).is_aio());
    assert!(!ev(u32::MAX, 0).is_lio());
}

#[test]
fn read_closed_cases() {
    assert!(ev(EPOLLHUP, 0).is_read_closed());
    assert!(ev(EPOLLIN | EPOLLRDHUP, 0).is_read_closed());
    assert!(!ev(EPOLLRDHUP, 0).is_read_closed());
    assert!(!ev(EPOLLIN, 0).is_read_closed());
}

#[test]
fn write_closed_cases() {
    assert!(ev(EPOLLHUP, 0).is_write_closed());
    assert!(ev(EPOLLOUT | EPOLLERR, 0).is_write_closed());
    assert!(!ev(EPOLLERR, 0).is_write_closed());
    assert!(!ev(EPOLLERR | EPOLLIN, 0).is_write_closed());
    assert!(!ev(EPOLLOUT, 0).is_write_closed());
}

#[test]
fn no_close_without_hangup_or_error() {
    // Every combination of the flags other than hang-up, peer shutdown and error.
    let quiet = [EPOLLIN, EPOLLPRI, EPOLLOUT, EPOLLRDNORM, EPOLLWRNORM, EPOLLET];
    for mask in 0u32..(1 << quiet.len()) {
        let mut flags = 0u32;
        for (i, f) in quiet.iter().enumerate() {
            if mask & (1 << i) != 0 {
                flags |= f;
            }
        }
        let e = ev(flags, 1);
        assert!(!e.is_read_closed());
        assert!(!e.is_write_closed());
    }
}

#[test]
fn free_functions_agree_with_event_methods() {
    for flags in [0, EPOLLIN, EPOLLOUT | EPOLLERR, EPOLLHUP, EPOLLIN | EPOLLRDHUP, EPOLLPRI] {
        let raw = SysEvent { events: flags, data: 3 };
        let e = Event::from_sys_event(raw);
        assert_eq!(sys_event::is_readable(&raw), e.is_readable());
        assert_eq!(sys_event::is_writable(&raw), e.is_writable());
        assert_eq!(sys_event::is_error(&raw), e.is_error());
        assert_eq!(sys_event::is_read_closed(&raw), e.is_read_closed());
        assert_eq!(sys_event::is_write_closed(&raw), e.is_write_closed());
        assert_eq!(sys_event::is_priority(&raw), e.is_priority());
        assert_eq!(sys_event::is_aio(&raw), e.is_aio());
        assert_eq!(sys_event::is_lio(&raw), e.is_lio());
    }
}

#[test]
fn debug_details_lists_raised_flags_in_order() {
    let raw = SysEvent { events: EPOLLHUP | EPOLLIN | EPOLLET, data: 0 };
    assert_eq!(sys_event::debug_details(&raw), vec![EPOLLIN, EPOLLHUP, EPOLLET]);
    assert_eq!(sys_event::debug_details(&SysEvent { events: 0, data: 0 }), Vec::<u32>::new());
}

#[test]
fn events_buffer_is_bounded() {
    let mut events = Events::with_capacity(2);
    assert!(events.is_empty());
    assert_eq!(events.capacity(), 2);
    assert!(events.push(SysEvent { events: EPOLLIN, data: 1 }));
    assert!(events.push(SysEvent { events: EPOLLOUT, data: 2 }));
    assert!(events.is_full());
    assert!(!events.push(SysEvent { events: EPOLLIN, data: 3 }));
    assert_eq!(events.len(), 2);
    assert_eq!(events.get(1).token(), Token(2));
    events.clear();
    assert_eq!(events.len(), 0);
    assert_eq!(events.capacity(), 2);
}

#[test]
fn interest_rejects_zero_and_unknown_bits() {
    assert!(Interest::from_bits(0).is_none());
    assert!(Interest::from_bits(ALL_BITS + 1).is_none());
    assert_eq!(Interest::from_bits(3).unwrap().bits(), 3);
}

#[test]
fn interest_union_and_removal() {
    let r = Interest::readable();
    let w = Interest::writable();
    let rw = r.add(w);
    assert_eq!(rw.bits(), 0b11);
    assert_eq!(rw, w.add(r));
    assert_eq!(r.add(r), r);
    assert!(rw.is_readable() && rw.is_writable());
    assert!(!rw.is_priority() && !rw.is_aio() && !rw.is_lio());
    assert_eq!(rw.remove(r), Some(w));
    assert_eq!(r.remove(r), None);
    assert_eq!(r.remove(w), Some(r));
    assert!(Interest::priority().is_priority());
    assert!(Interest::aio().is_aio());
    assert!(Interest::lio().is_lio());
}
