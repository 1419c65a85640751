use vstd::prelude::*;
use crate::token::Token;

verus! {

/// Readiness flag: data to read.
pub const EPOLLIN: u32 = 0x001;

/// Readiness flag: urgent (priority) data to read.
pub const EPOLLPRI: u32 = 0x002;

/// Readiness flag: writing will not block.
pub const EPOLLOUT: u32 = 0x004;

/// Readiness flag: an error condition.
pub const EPOLLERR: u32 = 0x008;

/// Readiness flag: hang up, both halves closed.
pub const EPOLLHUP: u32 = 0x010;

/// Readiness flag: normal data to read.
pub const EPOLLRDNORM: u32 = 0x040;

/// Readiness flag: priority band data to read.
pub const EPOLLRDBAND: u32 = 0x080;

/// Readiness flag: normal data may be written.
pub const EPOLLWRNORM: u32 = 0x100;

/// Readiness flag: priority data may be written.
pub const EPOLLWRBAND: u32 = 0x200;

/// Readiness flag: a message is available (unused by the kernel).
pub const EPOLLMSG: u32 = 0x400;

/// Readiness flag: the peer closed its writing half.
pub const EPOLLRDHUP: u32 = 0x2000;

/// Registration flag: exclusive wakeup.
pub const EPOLLEXCLUSIVE: u32 = 0x1000_0000;

/// Registration flag: keep the system awake while the event is pending.
pub const EPOLLWAKEUP: u32 = 0x2000_0000;

/// Registration flag: one-shot delivery.
pub const EPOLLONESHOT: u32 = 0x4000_0000;

/// Registration flag: edge-triggered delivery.
pub const EPOLLET: u32 = 0x8000_0000;

/// The readiness record that the multiplexer hands back: the flags that were
/// raised and the word that was attached at registration (the token).
#[derive(Clone, Copy, Debug, PartialEq, Eq, Structural)]
pub struct SysEvent {
    pub events: u32,
    pub data: u64,
}

/// Whether any bit of `mask` is raised in `events`.
pub open spec fn has(events: u32, mask: u32) -> bool {
    events & mask != 0
}

pub open spec fn readable_spec(e: SysEvent) -> bool {
    has(e.events, EPOLLIN)
}

pub open spec fn writable_spec(e: SysEvent) -> bool {
    has(e.events, EPOLLOUT)
}

pub open spec fn error_spec(e: SysEvent) -> bool {
    has(e.events, EPOLLERR)
}

pub open spec fn read_closed_spec(e: SysEvent) -> bool {
    has(e.events, EPOLLHUP) || (has(e.events, EPOLLIN) && has(e.events, EPOLLRDHUP))
}

pub open spec fn write_closed_spec(e: SysEvent) -> bool {
    has(e.events, EPOLLHUP) || (has(e.events, EPOLLOUT) && has(e.events, EPOLLERR))
}

pub open spec fn priority_spec(e: SysEvent) -> bool {
    has(e.events, EPOLLPRI)
}

/// The token carried by a record.
pub fn token(e: &SysEvent) -> (r: Token)
    ensures
        r.0 == e.data as usize,
{
    Token(e.data as usize)
}

/// Readable: data to read.
pub fn is_readable(e: &SysEvent) -> (r: bool)
    ensures
        r == readable_spec(*e),
{
    e.events & EPOLLIN != 0
}

/// Writable: writing will not block.
pub fn is_writable(e: &SysEvent) -> (r: bool)
    ensures
        r == writable_spec(*e),
{
    e.events & EPOLLOUT != 0
}

/// Error condition on the handle.
pub fn is_error(e: &SysEvent) -> (r: bool)
    ensures
        r == error_spec(*e),
{
    e.events & EPOLLERR != 0
}

/// The read half is closed: a hang-up, or data with the peer's write half shut.
pub fn is_read_closed(e: &SysEvent) -> (r: bool)
    ensures
        r == read_closed_spec(*e),
{
    e.events & EPOLLHUP != 0 || (e.events & EPOLLIN != 0 && e.events & EPOLLRDHUP != 0)
}

/// The write half is closed: a hang-up, or writable with an error.
pub fn is_write_closed(e: &SysEvent) -> (r: bool)
    ensures
        r == write_closed_spec(*e),
{
    e.events & EPOLLHUP != 0 || (e.events & EPOLLOUT != 0 && e.events & EPOLLERR != 0)
}

/// Priority readiness.
pub fn is_priority(e: &SysEvent) -> (r: bool)
    ensures
        r == priority_spec(*e),
{
    e.events & EPOLLPRI != 0
}

/// AIO completion; this multiplexer never reports it.
pub fn is_aio(e: &SysEvent) -> (r: bool)
    ensures
        !r,
{
    false
}

/// List-I/O completion; this multiplexer never reports it.
pub fn is_lio(e: &SysEvent) -> (r: bool)
    ensures
        !r,
{
    false
}

/// Every flag that a record may hold, in the order they are listed.
pub open spec fn flag_table() -> Seq<u32> {
    seq![
        EPOLLIN, EPOLLPRI, EPOLLOUT, EPOLLRDNORM, EPOLLRDBAND, EPOLLWRNORM, EPOLLWRBAND,
        EPOLLMSG, EPOLLERR, EPOLLHUP, EPOLLET, EPOLLRDHUP, EPOLLONESHOT, EPOLLEXCLUSIVE,
        EPOLLWAKEUP,
    ]
}

/// The flags of `table` that are raised in `events`, in table order.
pub open spec fn raised(events: u32, table: Seq<u32>) -> Seq<u32>
    decreases table.len(),
{
    if table.len() == 0 {
        seq![]
    } else {
        let rest = raised(events, table.drop_last());
        if has(events, table.last()) {
            rest.push(table.last())
        } else {
            rest
        }
    }
}

/// The flags raised in a record, in table order; a caller names them when
/// describing the record.
pub fn debug_details(e: &SysEvent) -> (r: Vec<u32>)
    ensures
        r@ == raised(e.events, flag_table()),
{
    let table: Vec<u32> = vec![
        EPOLLIN, EPOLLPRI, EPOLLOUT, EPOLLRDNORM, EPOLLRDBAND, EPOLLWRNORM, EPOLLWRBAND,
        EPOLLMSG, EPOLLERR, EPOLLHUP, EPOLLET, EPOLLRDHUP, EPOLLONESHOT, EPOLLEXCLUSIVE,
        EPOLLWAKEUP,
    ];
    assert(table@ =~= flag_table());
    let mut r: Vec<u32> = Vec::new();
    let mut i: usize = 0;
    while i < table.len()
        invariant
            i <= table@.len(),
            table@ == flag_table(),
            r@ == raised(e.events, table@.subrange(0, i as int)),
        decreases table.len() - i,
    {
        assert(table@.subrange(0, i as int + 1).drop_last() =~= table@.subrange(0, i as int));
        if e.events & table[i] != 0 {
            r.push(table[i]);
        }
        i = i + 1;
    }
    assert(table@.subrange(0, table@.len() as int) =~= table@);
    r
}

/// A record reports a closed half only when the kernel raised a hang-up, a
/// peer shutdown or an error.
pub proof fn lemma_no_spurious_close(e: SysEvent)
    ensures
        read_closed_spec(e) ==> has(e.events, EPOLLHUP) || has(e.events, EPOLLRDHUP),
        write_closed_spec(e) ==> has(e.events, EPOLLHUP) || has(e.events, EPOLLERR),
{
}

} // verus!
