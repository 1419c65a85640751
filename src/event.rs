use vstd::prelude::*;
use crate::sys_event::{self, SysEvent};
use crate::token::Token;

verus! {

/// A readiness event: a readiness state paired with a [`Token`].
#[derive(Clone, Copy, Debug, PartialEq, Eq, Structural)]
pub struct Event {
    inner: SysEvent,
}

impl View for Event {
    type V = SysEvent;

    closed spec fn view(&self) -> SysEvent {
        self.inner
    }
}

impl Event {
    /// Views a kernel record as an event.
    pub fn from_sys_event(inner: SysEvent) -> (r: Event)
        ensures
            r@ == inner,
    {
        Event { inner }
    }

    /// The event's token.
    pub fn token(&self) -> (r: Token)
        ensures
            r.0 == self@.data as usize,
    {
        sys_event::token(&self.inner)
    }

    /// Whether the event holds readable readiness.
    pub fn is_readable(&self) -> (r: bool)
        ensures
            r == sys_event::readable_spec(self@),
    {
        sys_event::is_readable(&self.inner)
    }

    /// Whether the event holds writable readiness.
    pub fn is_writable(&self) -> (r: bool)
        ensures
            r == sys_event::writable_spec(self@),
    {
        sys_event::is_writable(&self.inner)
    }

    /// Whether the event holds error readiness.
    pub fn is_error(&self) -> (r: bool)
        ensures
            r == sys_event::error_spec(self@),
    {
        sys_event::is_error(&self.inner)
    }

    /// Whether the read half was closed; never a false positive.
    pub fn is_read_closed(&self) -> (r: bool)
        ensures
            r == sys_event::read_closed_spec(self@),
    {
        sys_event::is_read_closed(&self.inner)
    }

    /// Whether the write half was closed; never a false positive.
    pub fn is_write_closed(&self) -> (r: bool)
        ensures
            r == sys_event::write_closed_spec(self@),
    {
        sys_event::is_write_closed(&self.inner)
    }

    /// Whether the event holds priority readiness.
    pub fn is_priority(&self) -> (r: bool)
        ensures
            r == sys_event::priority_spec(self@),
    {
        sys_event::is_priority(&self.inner)
    }

    /// Whether the event holds AIO completion.
    pub fn is_aio(&self) -> (r: bool)
        ensures
            !r,
    {
        sys_event::is_aio(&self.inner)
    }

    /// Whether the event holds list-I/O completion.
    pub fn is_lio(&self) -> (r: bool)
        ensures
            !r,
    {
        sys_event::is_lio(&self.inner)
    }
}

/// A bounded, caller-owned buffer of kernel records filled by a selector.
pub struct Events {
    inner: Vec<SysEvent>,
    cap: usize,
}

impl View for Events {
    type V = Seq<SysEvent>;

    closed spec fn view(&self) -> Seq<SysEvent> {
        self.inner@
    }
}

impl Events {
    /// The most records the buffer holds.
    pub closed spec fn capacity_spec(&self) -> nat {
        self.cap as nat
    }


    /// An empty buffer that holds up to `capacity` records.
    pub fn with_capacity(capacity: usize) -> (r: Events)
        ensures
            r@ == Seq::<SysEvent>::empty(),
            r.capacity_spec() == capacity,
    {
        Events { inner: Vec::new(), cap: capacity }
    }

    /// The most records the buffer holds.
    pub fn capacity(&self) -> (r: usize)
        ensures
            r == self.capacity_spec(),
    {
        self.cap
    }

    /// How many records the buffer holds.
    pub fn len(&self) -> (r: usize)
        ensures
            r == self@.len(),
    {
        self.inner.len()
    }

    /// Whether the buffer holds no record.
    pub fn is_empty(&self) -> (r: bool)
        ensures
            r == (self@.len() == 0),
    {
        self.inner.len() == 0
    }

    /// Whether the buffer holds as many records as it may.
    pub fn is_full(&self) -> (r: bool)
        ensures
            r == (self@.len() >= self.capacity_spec()),
    {
        self.inner.len() >= self.cap
    }

    /// The event at position `i`.
    pub fn get(&self, i: usize) -> (r: Event)
        requires
            i < self@.len(),
        ensures
            r@ == self@[i as int],
    {
        Event::from_sys_event(self.inner[i])
    }

    /// Empties the buffer, keeping its capacity.
    pub fn clear(&mut self)
        ensures
            final(self)@ == Seq::<SysEvent>::empty(),
            final(self).capacity_spec() == old(self).capacity_spec(),
    {
        self.inner.clear();
    }

    /// Appends a record if there is room; says whether it was kept.
    pub fn push(&mut self, e: SysEvent) -> (r: bool)
        ensures
            r == (old(self)@.len() < old(self).capacity_spec()),
            r ==> final(self)@ == old(self)@.push(e),
            !r ==> final(self)@ == old(self)@,
            final(self).capacity_spec() == old(self).capacity_spec(),
    {
        if self.inner.len() < self.cap {
            self.inner.push(e);
            true
        } else {
            false
        }
    }
}

} // verus!
