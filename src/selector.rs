use vstd::prelude::*;
use crate::error::Error;
use crate::event::Events;
use crate::interest::Interest;
use crate::sock_state::{PollAction, PollStatus, SockKey, SockState};
use crate::sys_event::{SysEvent, EPOLLIN};
use crate::token::Token;

verus! {

/// A completion that the port handed back.
#[derive(Clone, Copy, Debug, PartialEq, Eq, Structural)]
pub enum Completion {
    /// The readiness probe tagged `key` finished with `flags` raised.
    Probe { key: SockKey, flags: u32 },
    /// A waker registered under `token` was signalled.
    Wake { token: Token },
}

/// The selector's registrations and its update queue.
pub struct PollModel {
    pub socks: Seq<SockState>,
    pub queue: Seq<SockKey>,
}

/// A slot whose socket is gone and whose generation can still grow.
pub open spec fn reusable(s: SockState) -> bool {
    s.status == PollStatus::Deleted && s.key.generation < u64::MAX
}

/// The first reusable slot at or after `start`.
pub open spec fn first_reusable(socks: Seq<SockState>, start: int) -> Option<int>
    decreases socks.len() - start,
{
    if start < 0 || start >= socks.len() {
        None
    } else if reusable(socks[start]) {
        Some(start)
    } else {
        first_reusable(socks, start + 1)
    }
}

/// The first live registration of `fd` at or after `start`.
pub open spec fn first_live(socks: Seq<SockState>, fd: i32, start: int) -> Option<int>
    decreases socks.len() - start,
{
    if start < 0 || start >= socks.len() {
        None
    } else if socks[start].is_live() && socks[start].fd == fd {
        Some(start)
    } else {
        first_live(socks, fd, start + 1)
    }
}

/// Where `first_live` finds a registration, it is a live one of `fd`.
pub proof fn lemma_first_live_found(socks: Seq<SockState>, fd: i32, start: int)
    requires
        first_live(socks, fd, start).is_some(),
    ensures
        start <= first_live(socks, fd, start).unwrap() < socks.len(),
        0 <= first_live(socks, fd, start).unwrap(),
        socks[first_live(socks, fd, start).unwrap()].is_live(),
        socks[first_live(socks, fd, start).unwrap()].fd == fd,
    decreases socks.len() - start,
{
    if start >= 0 && start < socks.len() && !(socks[start].is_live() && socks[start].fd == fd) {
        lemma_first_live_found(socks, fd, start + 1);
    }
}

/// Where `first_live` finds none from `start` on, no registration there is a live one of `fd`.
pub proof fn lemma_first_live_none(socks: Seq<SockState>, fd: i32, start: int)
    requires
        0 <= start,
        first_live(socks, fd, start).is_none(),
    ensures
        forall|i: int| start <= i < socks.len() ==> !(#[trigger] socks[i].is_live() && socks[i].fd == fd),
    decreases socks.len() - start,
{
    if start < socks.len() {
        lemma_first_live_none(socks, fd, start + 1);
    }
}

/// With at most one live registration of each descriptor, `first_live` finds
/// exactly that one.
pub proof fn lemma_first_live_unique(socks: Seq<SockState>, fd: i32, i: int)
    requires
        0 <= i < socks.len(),
        socks[i].is_live(),
        socks[i].fd == fd,
        live_fds_unique(socks),
    ensures
        first_live(socks, fd, 0) == Some(i),
{
    if first_live(socks, fd, 0).is_none() {
        lemma_first_live_none(socks, fd, 0);
    } else {
        lemma_first_live_found(socks, fd, 0);
    }
}

/// No two live registrations share a descriptor.
pub open spec fn live_fds_unique(socks: Seq<SockState>) -> bool {
    forall|i: int, j: int|
        0 <= i < socks.len() && 0 <= j < socks.len() && i != j && (#[trigger] socks[i]).is_live()
            && (#[trigger] socks[j]).is_live() ==> socks[i].fd != socks[j].fd
}

/// Whether `key` names the registration that now holds its slot.
pub open spec fn key_valid(socks: Seq<SockState>, key: SockKey) -> bool {
    key.index < socks.len() && socks[key.index as int].key == key
}

/// Drains the first `n` entries of the update queue.
pub open spec fn drain_prefix(socks: Seq<SockState>, queue: Seq<SockKey>, n: int) -> (Seq<SockState>, Seq<PollAction>)
    decreases n,
{
    if n <= 0 {
        (socks, seq![])
    } else {
        let (s1, acts) = drain_prefix(socks, queue, n - 1);
        let k = queue[n - 1];
        if key_valid(s1, k) {
            let (ns, a) = s1[k.index as int].update_spec();
            (s1.update(k.index as int, ns), if a == PollAction::Nothing { acts } else { acts.push(a) })
        } else {
            (s1, acts)
        }
    }
}

/// The event a waker's completion yields.
pub open spec fn wake_event(token: Token) -> SysEvent {
    SysEvent { events: EPOLLIN, data: token.0 as u64 }
}

impl PollModel {
    /// Each registration sits at the index its key names and is consistent,
    /// no descriptor has two live registrations, and an index can count them all.
    pub open spec fn wf(self) -> bool {
        &&& self.socks.len() <= usize::MAX
        &&& forall|i: int| 0 <= i < self.socks.len() ==> (#[trigger] self.socks[i]).key.index == i
        &&& forall|i: int| 0 <= i < self.socks.len() ==> (#[trigger] self.socks[i]).wf()
        &&& live_fds_unique(self.socks)
    }

    pub open spec fn empty() -> PollModel {
        PollModel { socks: seq![], queue: seq![] }
    }

    /// Registration of `fd`; refused while `fd` has a live registration.
    pub open spec fn register_spec(self, fd: i32, token: Token, interests: Interest) -> (PollModel, Result<SockKey, Error>) {
        if first_live(self.socks, fd, 0).is_some() {
            (self, Err(Error::AlreadyExists))
        } else {
            let key = match first_reusable(self.socks, 0) {
                Some(i) => SockKey { index: i as usize, generation: (self.socks[i].key.generation + 1) as u64 },
                None => SockKey { index: self.socks.len() as usize, generation: 0 },
            };
            let s = SockState::new_spec(fd, key, token, interests);
            let socks = if key.index < self.socks.len() {
                self.socks.update(key.index as int, s)
            } else {
                self.socks.push(s)
            };
            (PollModel { socks, queue: self.queue.push(key) }, Ok(key))
        }
    }

    /// New token and interests for the live registration of `fd`.
    pub open spec fn reregister_spec(self, fd: i32, token: Token, interests: Interest) -> (PollModel, Result<PollAction, Error>) {
        match first_live(self.socks, fd, 0) {
            None => (self, Err(Error::NotFound)),
            Some(i) => {
                let (ns, a) = self.socks[i].set_interest_spec(token, interests);
                (PollModel { socks: self.socks.update(i, ns), queue: self.queue.push(ns.key) }, Ok(a))
            },
        }
    }

    /// Removal of the live registration of `fd`.
    pub open spec fn deregister_spec(self, fd: i32) -> (PollModel, Result<PollAction, Error>) {
        match first_live(self.socks, fd, 0) {
            None => (self, Err(Error::NotFound)),
            Some(i) => {
                let (ns, a) = self.socks[i].mark_delete_spec();
                (PollModel { socks: self.socks.update(i, ns), queue: self.queue.push(ns.key) }, Ok(a))
            },
        }
    }

    /// Drains the whole update queue.
    pub open spec fn drain_spec(self) -> (PollModel, Seq<PollAction>) {
        let (socks, acts) = drain_prefix(self.socks, self.queue, self.queue.len() as int);
        (PollModel { socks, queue: seq![] }, acts)
    }

    /// Takes one completion: the event it yields, if any. A probe that ends
    /// with its socket idle is queued again, so readiness that persists is
    /// reported again.
    pub open spec fn complete_spec(self, c: Completion) -> (PollModel, Option<SysEvent>) {
        match c {
            Completion::Wake { token } => (self, Some(wake_event(token))),
            Completion::Probe { key, flags } => {
                if key_valid(self.socks, key) {
                    let s = self.socks[key.index as int];
                    let ns = s.complete_spec();
                    let queue = if ns.status == PollStatus::Idle { self.queue.push(key) } else { self.queue };
                    (PollModel { socks: self.socks.update(key.index as int, ns), queue }, s.harvest_spec(flags))
                } else {
                    (self, None)
                }
            },
        }
    }
}

/// Takes the first `n` completions, appending the events they yield while
/// there is room for them.
pub open spec fn select_prefix(m: PollModel, cap: nat, cs: Seq<Completion>, n: int) -> (PollModel, Seq<SysEvent>)
    decreases n,
{
    if n <= 0 {
        (m, seq![])
    } else {
        let (m1, evs) = select_prefix(m, cap, cs, n - 1);
        let (m2, e) = m1.complete_spec(cs[n - 1]);
        (m2, if e.is_some() && evs.len() < cap { evs.push(e.unwrap()) } else { evs })
    }
}

/// A handle to a selector: its identity, shared by every handle to it.
#[derive(Clone, Copy, Debug, PartialEq, Eq, Structural)]
pub struct SelectorHandle {
    pub id: usize,
}

/// The readiness multiplexer: registrations keyed by descriptor, each with a
/// probe state, and the queue of registrations to update before the next wait.
pub struct Selector {
    id: usize,
    socks: Vec<SockState>,
    queue: Vec<SockKey>,
}

impl View for Selector {
    type V = PollModel;

    closed spec fn view(&self) -> PollModel {
        PollModel { socks: self.socks@, queue: self.queue@ }
    }
}

impl Selector {
    /// The selector's identity.
    pub closed spec fn id_spec(&self) -> usize {
        self.id
    }

    /// A selector with no registration, known by `id`.
    pub fn new(id: usize) -> (r: Selector)
        ensures
            r@ == PollModel::empty(),
            r@.wf(),
            r.id_spec() == id,
    {
        Selector { id, socks: Vec::new(), queue: Vec::new() }
    }

    /// The selector's identity.
    pub fn id(&self) -> (r: usize)
        ensures
            r == self.id_spec(),
    {
        self.id
    }

    /// Another handle to this selector. A handle names the selector by its
    /// identity; registrations made under it are this selector's own.
    pub fn try_clone(&self) -> (r: Result<SelectorHandle, Error>)
        ensures
            r == Ok::<SelectorHandle, Error>(SelectorHandle { id: self.id_spec() }),
    {
        Ok(SelectorHandle { id: self.id })
    }

    fn find_live(&self, fd: i32) -> (r: Option<usize>)
        ensures
            r.is_some() == first_live(self.socks@, fd, 0).is_some(),
            r.is_some() ==> r.unwrap() as int == first_live(self.socks@, fd, 0).unwrap(),
            r.is_some() ==> r.unwrap() < self.socks@.len(),
    {
        let mut i: usize = 0;
        while i < self.socks.len()
            invariant
                i <= self.socks@.len(),
                first_live(self.socks@, fd, 0) == first_live(self.socks@, fd, i as int),
            decreases self.socks.len() - i,
        {
            if !self.socks[i].delete_pending && self.socks[i].status != PollStatus::Deleted
                && self.socks[i].fd == fd {
                return Some(i);
            }
            i = i + 1;
        }
        None
    }

    fn find_reusable(&self) -> (r: Option<usize>)
        ensures
            r.is_some() == first_reusable(self.socks@, 0).is_some(),
            r.is_some() ==> r.unwrap() as int == first_reusable(self.socks@, 0).unwrap(),
            r.is_some() ==> r.unwrap() < self.socks@.len() && reusable(self.socks@[r.unwrap() as int]),
    {
        let mut i: usize = 0;
        while i < self.socks.len()
            invariant
                i <= self.socks@.len(),
                first_reusable(self.socks@, 0) == first_reusable(self.socks@, i as int),
            decreases self.socks.len() - i,
        {
            if self.socks[i].status == PollStatus::Deleted && self.socks[i].key.generation < u64::MAX {
                return Some(i);
            }
            i = i + 1;
        }
        None
    }

    /// Registers `fd` under `token` for `interests`; the new registration is
    /// queued for its first probe.
    pub fn register(&mut self, fd: i32, token: Token, interests: Interest) -> (r: Result<SockKey, Error>)
        ensures
            (final(self)@, r) == old(self)@.register_spec(fd, token, interests),
            old(self)@.wf() ==> final(self)@.wf(),
            final(self).id_spec() == old(self).id_spec(),
    {
        if self.find_live(fd).is_some() {
            return Err(Error::AlreadyExists);
        }
        proof {
            lemma_first_live_none(self.socks@, fd, 0);
        }
        let key = match self.find_reusable() {
            Some(i) => SockKey { index: i, generation: self.socks[i].key.generation + 1 },
            None => SockKey { index: self.socks.len(), generation: 0 },
        };
        let s = SockState::new(fd, key, token, interests);
        if key.index < self.socks.len() {
            self.socks[key.index] = s;
        } else {
            self.socks.push(s);
        }
        self.queue.push(key);
        assert(self.socks.len() == self.socks@.len());
        Ok(key)
    }

    /// Replaces token and interests of the registration of `fd`; a probe in
    /// flight for the old ones is to be cancelled as the action says.
    pub fn reregister(&mut self, fd: i32, token: Token, interests: Interest) -> (r: Result<PollAction, Error>)
        ensures
            (final(self)@, r) == old(self)@.reregister_spec(fd, token, interests),
            old(self)@.wf() ==> final(self)@.wf(),
            final(self).id_spec() == old(self).id_spec(),
    {
        match self.find_live(fd) {
            None => Err(Error::NotFound),
            Some(i) => {
                let mut s = self.socks[i];
                let a = s.set_interest(token, interests);
                self.socks[i] = s;
                self.queue.push(s.key);
                Ok(a)
            },
        }
    }

    /// Removes the registration of `fd`: nothing it completes is reported
    /// any more, and a probe in flight is to be cancelled as the action says.
    pub fn deregister(&mut self, fd: i32) -> (r: Result<PollAction, Error>)
        ensures
            (final(self)@, r) == old(self)@.deregister_spec(fd),
            old(self)@.wf() ==> final(self)@.wf(),
            final(self).id_spec() == old(self).id_spec(),
    {
        match self.find_live(fd) {
            None => Err(Error::NotFound),
            Some(i) => {
                let mut s = self.socks[i];
                let a = s.mark_delete();
                self.socks[i] = s;
                self.queue.push(s.key);
                Ok(a)
            },
        }
    }

    /// Drains the update queue, returning the probes to submit and cancel.
    pub fn drain(&mut self) -> (r: Vec<PollAction>)
        ensures
            (final(self)@, r@) == old(self)@.drain_spec(),
            old(self)@.wf() ==> final(self)@.wf(),
            final(self).id_spec() == old(self).id_spec(),
    {
        let mut actions: Vec<PollAction> = Vec::new();
        let mut i: usize = 0;
        while i < self.queue.len()
            invariant
                i <= self.queue@.len(),
                self.queue@ == old(self).queue@,
                self.id == old(self).id,
                old(self)@.wf() ==> self@.wf(),
                (self.socks@, actions@) == drain_prefix(old(self).socks@, old(self).queue@, i as int),
            decreases self.queue.len() - i,
        {
            let k = self.queue[i];
            if k.index < self.socks.len() && self.socks[k.index].key == k {
                let mut s = self.socks[k.index];
                let a = s.update();
                self.socks[k.index] = s;
                if a != PollAction::Nothing {
                    actions.push(a);
                }
            }
            i = i + 1;
        }
        self.queue.clear();
        actions
    }

    /// Takes one completion: the event it yields, if any.
    pub fn complete(&mut self, c: Completion) -> (r: Option<SysEvent>)
        ensures
            (final(self)@, r) == old(self)@.complete_spec(c),
            old(self)@.wf() ==> final(self)@.wf(),
            final(self).id_spec() == old(self).id_spec(),
    {
        match c {
            Completion::Wake { token } => Some(SysEvent { events: EPOLLIN, data: token.0 as u64 }),
            Completion::Probe { key, flags } => {
                if key.index < self.socks.len() && self.socks[key.index].key == key {
                    let mut s = self.socks[key.index];
                    let e = s.feed_event(flags);
                    self.socks[key.index] = s;
                    if s.status == PollStatus::Idle {
                        self.queue.push(key);
                    }
                    e
                } else {
                    None
                }
            },
        }
    }

    /// Turns the completions of one wait into events: `events` is emptied,
    /// then receives the event of each completion in turn while it has room.
    pub fn select(&mut self, events: &mut Events, completions: &Vec<Completion>)
        ensures
            final(events).capacity_spec() == old(events).capacity_spec(),
            (final(self)@, final(events)@) == select_prefix(
                old(self)@,
                old(events).capacity_spec(),
                completions@,
                completions@.len() as int,
            ),
            old(self)@.wf() ==> final(self)@.wf(),
            final(self).id_spec() == old(self).id_spec(),
    {
        events.clear();
        let mut i: usize = 0;
        while i < completions.len()
            invariant
                i <= completions@.len(),
                events.capacity_spec() == old(events).capacity_spec(),
                self.id == old(self).id,
                old(self)@.wf() ==> self@.wf(),
                (self@, events@) == select_prefix(old(self)@, old(events).capacity_spec(), completions@, i as int),
            decreases completions.len() - i,
        {
            let e = self.complete(completions[i]);
            match e {
                Some(ev) => {
                    events.push(ev);
                },
                None => {},
            }
            i = i + 1;
        }
    }
}

} // verus!
