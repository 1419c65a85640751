use vstd::prelude::*;
use crate::interest::{Interest, PRIORITY_BIT, READABLE_BIT, WRITABLE_BIT};
use crate::selector::{
    drain_prefix, first_live, first_reusable, key_valid, lemma_first_live_found,
    lemma_first_live_unique, reusable, select_prefix, wake_event, Completion, PollModel,
};
use crate::sock_state::{interest_mask, PollAction, PollStatus, SockKey, SockState, ALWAYS_REPORTED};
use crate::sys_event::{
    readable_spec, writable_spec, EPOLLERR, EPOLLHUP, EPOLLIN, EPOLLOUT, EPOLLPRI,
    EPOLLRDHUP,
};
use crate::token::Token;

verus! {

/// The registration named `key` is live and binds `fd` to `token` and `interests`.
pub open spec fn bound(m: PollModel, key: SockKey, fd: i32, token: Token, interests: Interest) -> bool {
    &&& key_valid(m.socks, key)
    &&& m.socks[key.index as int].is_live()
    &&& m.socks[key.index as int].fd == fd
    &&& m.socks[key.index as int].token == token
    &&& m.socks[key.index as int].interests == interests
}

/// The registration named `key` was deregistered: its slot is still there,
/// and holds either that registration, marked deleted, or a later one.
pub open spec fn quiet(m: PollModel, key: SockKey) -> bool {
    &&& key.index < m.socks.len()
    &&& {
        let s = m.socks[key.index as int];
        s.key.generation > key.generation || (s.key == key && s.delete_pending)
    }
}

proof fn lemma_first_reusable_found(socks: Seq<SockState>, start: int)
    requires
        first_reusable(socks, start).is_some(),
    ensures
        0 <= start <= first_reusable(socks, start).unwrap() < socks.len(),
        reusable(socks[first_reusable(socks, start).unwrap()]),
    decreases socks.len() - start,
{
    if start >= 0 && start < socks.len() && !reusable(socks[start]) {
        lemma_first_reusable_found(socks, start + 1);
    }
}

/// A registration's key names it: register leaves each live registration
/// where it was, and reregister and deregister of another descriptor too.
proof fn lemma_other_ops_frame(m: PollModel, key: SockKey, fd: i32, fd2: i32, t2: Token, i2: Interest)
    requires
        key_valid(m.socks, key),
        m.socks[key.index as int].is_live(),
        m.socks[key.index as int].fd == fd,
        fd2 != fd,
        m.wf(),
    ensures
        m.register_spec(fd2, t2, i2).0.socks[key.index as int] == m.socks[key.index as int],
        key.index < m.register_spec(fd2, t2, i2).0.socks.len(),
        m.reregister_spec(fd2, t2, i2).0.socks[key.index as int] == m.socks[key.index as int],
        m.deregister_spec(fd2).0.socks[key.index as int] == m.socks[key.index as int],
        m.reregister_spec(fd2, t2, i2).0.socks.len() == m.socks.len(),
        m.deregister_spec(fd2).0.socks.len() == m.socks.len(),
{
    if first_reusable(m.socks, 0).is_some() {
        lemma_first_reusable_found(m.socks, 0);
    }
    if first_live(m.socks, fd2, 0).is_some() {
        lemma_first_live_found(m.socks, fd2, 0);
    }
}

/// Draining the update queue keeps a live registration's descriptor, token
/// and interests, and leaves it live.
proof fn lemma_drain_keeps(socks: Seq<SockState>, queue: Seq<SockKey>, n: int, idx: int)
    requires
        0 <= idx < socks.len(),
        socks[idx].is_live(),
        socks[idx].key.index == idx,
    ensures
        drain_prefix(socks, queue, n).0.len() == socks.len(),
        drain_prefix(socks, queue, n).0[idx].is_live(),
        drain_prefix(socks, queue, n).0[idx].key == socks[idx].key,
        drain_prefix(socks, queue, n).0[idx].fd == socks[idx].fd,
        drain_prefix(socks, queue, n).0[idx].token == socks[idx].token,
        drain_prefix(socks, queue, n).0[idx].interests == socks[idx].interests,
    decreases n,
{
    if n > 0 {
        lemma_drain_keeps(socks, queue, n - 1, idx);
    }
}

/// Draining the update queue keeps every slot's key, and keeps a
/// deregistered registration deregistered.
proof fn lemma_drain_keeps_keys(socks: Seq<SockState>, queue: Seq<SockKey>, n: int)
    ensures
        drain_prefix(socks, queue, n).0.len() == socks.len(),
        forall|i: int|
            0 <= i < socks.len() ==> (#[trigger] drain_prefix(socks, queue, n).0[i]).key == socks[i].key
                && (socks[i].delete_pending ==> drain_prefix(socks, queue, n).0[i].delete_pending),
    decreases n,
{
    if n > 0 {
        lemma_drain_keeps_keys(socks, queue, n - 1);
    }
}

/// Token echo: a registration that succeeded binds its descriptor to its
/// token and interests under the key it returned, and an event its probe
/// yields carries that token, which the event gives back unchanged.
pub proof fn lemma_token_echo(m: PollModel, fd: i32, token: Token, interests: Interest, flags: u32)
    requires
        m.register_spec(fd, token, interests).1.is_ok(),
        m.wf(),
    ensures
        ({
            let (m1, r) = m.register_spec(fd, token, interests);
            let e = m1.complete_spec(Completion::Probe { key: r.unwrap(), flags }).1;
            &&& bound(m1, r.unwrap(), fd, token, interests)
            &&& (e.is_some() ==> e.unwrap().data == token.0 as u64)
        }),
        (token.0 as u64) as usize == token.0,
{
    if first_reusable(m.socks, 0).is_some() {
        lemma_first_reusable_found(m.socks, 0);
    }
    let (m1, r) = m.register_spec(fd, token, interests);
    lemma_events_follow_binding(m1, r.unwrap(), fd, token, interests, flags);
}

/// A live binding survives a drain, a completion, and registration calls on
/// another descriptor.
pub proof fn lemma_binding_persists(
    m: PollModel,
    key: SockKey,
    fd: i32,
    token: Token,
    interests: Interest,
    c: Completion,
    fd2: i32,
    t2: Token,
    i2: Interest,
)
    requires
        bound(m, key, fd, token, interests),
        fd2 != fd,
        m.wf(),
    ensures
        bound(m.drain_spec().0, key, fd, token, interests),
        bound(m.complete_spec(c).0, key, fd, token, interests),
        bound(m.register_spec(fd2, t2, i2).0, key, fd, token, interests),
        bound(m.reregister_spec(fd2, t2, i2).0, key, fd, token, interests),
        bound(m.deregister_spec(fd2).0, key, fd, token, interests),
{
    lemma_drain_keeps(m.socks, m.queue, m.queue.len() as int, key.index as int);
    lemma_other_ops_frame(m, key, fd, fd2, t2, i2);
}

/// Each event a bound registration's probe yields carries its token; it is
/// readable only if readable interest was asked for, writable only if
/// writable interest was.
pub proof fn lemma_events_follow_binding(
    m: PollModel,
    key: SockKey,
    fd: i32,
    token: Token,
    interests: Interest,
    flags: u32,
)
    requires
        bound(m, key, fd, token, interests),
    ensures
        ({
            let e = m.complete_spec(Completion::Probe { key, flags }).1;
            e.is_some() ==> {
                &&& e.unwrap().data == token.0 as u64
                &&& (readable_spec(e.unwrap()) ==> interests@ & READABLE_BIT != 0)
                &&& (writable_spec(e.unwrap()) ==> interests@ & WRITABLE_BIT != 0)
            }
        }),
{
    let e = m.complete_spec(Completion::Probe { key, flags }).1;
    if e.is_some() {
        let b = interests@;
        let ev = e.unwrap().events;
        let mask = interest_mask(b);
        assert(ev == flags & (mask | ALWAYS_REPORTED));
        let rd: u32 = if b & READABLE_BIT != 0 { EPOLLIN | EPOLLRDHUP } else { 0u32 };
        let wr: u32 = if b & WRITABLE_BIT != 0 { EPOLLOUT } else { 0u32 };
        let pr: u32 = if b & PRIORITY_BIT != 0 { EPOLLPRI } else { 0u32 };
        assert(EPOLLIN | EPOLLRDHUP == 0x2001u32) by (bit_vector);
        assert(EPOLLERR | EPOLLHUP == 0x018u32) by (bit_vector);
        assert(ALWAYS_REPORTED == 0x018u32);
        assert(mask == rd | wr | pr);
        assert((flags & (rd | wr | pr | 0x018u32)) & 0x004u32 != 0 ==> wr != 0) by (bit_vector)
            requires
                rd == 0 || rd == 0x2001u32,
                pr == 0 || pr == 0x002u32,
        ;
        assert((flags & (rd | wr | pr | 0x018u32)) & 0x001u32 != 0 ==> rd != 0) by (bit_vector)
            requires
                wr == 0 || wr == 0x004u32,
                pr == 0 || pr == 0x002u32,
        ;
    }
}

/// A deregistration of a descriptor acts on that descriptor's own live
/// registration, whichever key names it, and leaves the descriptor free: a
/// later registration of it succeeds.
pub proof fn lemma_deregister_own(m: PollModel, key: SockKey, fd: i32, token: Token, interests: Interest)
    requires
        m.wf(),
        key_valid(m.socks, key),
        m.socks[key.index as int].is_live(),
        m.socks[key.index as int].fd == fd,
    ensures
        first_live(m.socks, fd, 0) == Some(key.index as int),
        m.deregister_spec(fd).1.is_ok(),
        m.deregister_spec(fd).0.socks[key.index as int].delete_pending,
        m.deregister_spec(fd).0.register_spec(fd, token, interests).1.is_ok(),
{
    lemma_first_live_unique(m.socks, fd, key.index as int);
    let m1 = m.deregister_spec(fd).0;
    if first_live(m1.socks, fd, 0).is_some() {
        lemma_first_live_found(m1.socks, fd, 0);
    }
}

/// Deregister quiescence: once deregistered, a registration stays quiet
/// through any later call, and a quiet registration's probes yield nothing.
pub proof fn lemma_deregister_quiescence(
    m: PollModel,
    fd: i32,
    c: Completion,
    fd2: i32,
    t2: Token,
    i2: Interest,
    flags: u32,
)
    requires
        m.deregister_spec(fd).1.is_ok(),
        m.wf(),
    ensures
        ({
            let key = m.socks[first_live(m.socks, fd, 0).unwrap()].key;
            let m1 = m.deregister_spec(fd).0;
            &&& quiet(m1, key)
            &&& quiet(m1.drain_spec().0, key)
            &&& quiet(m1.complete_spec(c).0, key)
            &&& quiet(m1.register_spec(fd2, t2, i2).0, key)
            &&& quiet(m1.reregister_spec(fd2, t2, i2).0, key)
            &&& quiet(m1.deregister_spec(fd2).0, key)
            &&& m1.complete_spec(Completion::Probe { key, flags }).1.is_none()
        }),
{
    lemma_first_live_found(m.socks, fd, 0);
    let idx = first_live(m.socks, fd, 0).unwrap();
    let key = m.socks[idx].key;
    let m1 = m.deregister_spec(fd).0;
    lemma_quiet_persists(m1, key, c, fd2, t2, i2, flags);
}

/// A quiet registration stays quiet through any call, and its probes yield
/// nothing.
pub proof fn lemma_quiet_persists(
    m: PollModel,
    key: SockKey,
    c: Completion,
    fd2: i32,
    t2: Token,
    i2: Interest,
    flags: u32,
)
    requires
        quiet(m, key),
        m.wf(),
    ensures
        quiet(m.drain_spec().0, key),
        quiet(m.complete_spec(c).0, key),
        quiet(m.register_spec(fd2, t2, i2).0, key),
        quiet(m.reregister_spec(fd2, t2, i2).0, key),
        quiet(m.deregister_spec(fd2).0, key),
        m.complete_spec(Completion::Probe { key, flags }).1.is_none(),
{
    lemma_drain_keeps_keys(m.socks, m.queue, m.queue.len() as int);
    if first_reusable(m.socks, 0).is_some() {
        lemma_first_reusable_found(m.socks, 0);
    }
    if first_live(m.socks, fd2, 0).is_some() {
        lemma_first_live_found(m.socks, fd2, 0);
    }
}

/// A completion keeps a quiet registration quiet, and its own probes yield nothing.
proof fn lemma_quiet_complete(m: PollModel, key: SockKey, c: Completion, flags: u32)
    requires
        quiet(m, key),
        m.wf(),
    ensures
        quiet(m.complete_spec(c).0, key),
        m.complete_spec(Completion::Probe { key, flags }).1.is_none(),
{
}

/// Reregister atomicity: a reregistration binds the descriptor to the new
/// token and interests at once, and leaves no probe in flight that was
/// submitted for the old interests: one that was pending is cancelled, and
/// its completion yields nothing.
pub proof fn lemma_reregister_atomic(m: PollModel, fd: i32, token: Token, interests: Interest, flags: u32)
    requires
        m.reregister_spec(fd, token, interests).1.is_ok(),
        m.wf(),
    ensures
        ({
            let idx = first_live(m.socks, fd, 0).unwrap();
            let key = m.socks[idx].key;
            let (m1, r) = m.reregister_spec(fd, token, interests);
            &&& bound(m1, key, fd, token, interests)
            &&& m1.socks[idx].status != PollStatus::Pending
            &&& m1.complete_spec(Completion::Probe { key, flags }).1.is_none()
            &&& (m.socks[idx].status == PollStatus::Pending ==> r == Ok::<PollAction, crate::error::Error>(
                PollAction::Cancel { key, fd },
            ))
        }),
{
    lemma_first_live_found(m.socks, fd, 0);
}

/// Draining a queue in which `key` does not occur leaves its registration as
/// it was.
proof fn lemma_drain_untouched(socks: Seq<SockState>, queue: Seq<SockKey>, n: int, idx: int)
    requires
        0 <= idx < socks.len(),
        socks[idx].key.index == idx,
        n <= queue.len(),
        forall|j: int| 0 <= j < n ==> queue[j] != socks[idx].key,
    ensures
        drain_prefix(socks, queue, n).0.len() == socks.len(),
        drain_prefix(socks, queue, n).0[idx] == socks[idx],
    decreases n,
{
    if n > 0 {
        lemma_drain_untouched(socks, queue, n - 1, idx);
        lemma_drain_keeps_keys(socks, queue, n - 1);
    }
}

/// Draining a queue in which the key of an idle live registration occurs
/// submits a probe for its interests.
proof fn lemma_drain_submits(socks: Seq<SockState>, queue: Seq<SockKey>, n: int, idx: int, j: int)
    requires
        0 <= idx < socks.len(),
        socks[idx].key.index == idx,
        socks[idx].is_live(),
        socks[idx].status == PollStatus::Idle || socks[idx].status == PollStatus::New,
        0 <= j < n <= queue.len(),
        queue[j] == socks[idx].key,
    ensures
        drain_prefix(socks, queue, n).0[idx].status == PollStatus::Pending,
        drain_prefix(socks, queue, n).0[idx].pending_mask == interest_mask(socks[idx].interests@),
        drain_prefix(socks, queue, n).1.contains(
            PollAction::Submit { key: socks[idx].key, fd: socks[idx].fd, mask: interest_mask(socks[idx].interests@) },
        ),
    decreases n,
{
    let s = socks[idx];
    let act = PollAction::Submit { key: s.key, fd: s.fd, mask: interest_mask(s.interests@) };
    lemma_drain_keeps(socks, queue, n - 1, idx);
    let (s1, acts) = drain_prefix(socks, queue, n - 1);
    if exists|k: int| 0 <= k < n - 1 && queue[k] == s.key {
        let k = choose|k: int| 0 <= k < n - 1 && queue[k] == s.key;
        lemma_drain_submits(socks, queue, n - 1, idx, k);
        let a = s1[queue[n - 1].index as int].update_spec().1;
        if key_valid(s1, queue[n - 1]) && a != PollAction::Nothing {
            assert(acts.push(a).contains(act)) by {
                let w = choose|w: int| 0 <= w < acts.len() && acts[w] == act;
                assert(acts.push(a)[w] == act);
            }
        }
    } else {
        assert(forall|k: int| 0 <= k < n - 1 ==> queue[k] != s.key);
        lemma_drain_untouched(socks, queue, n - 1, idx);
        assert(j == n - 1);
        assert(drain_prefix(socks, queue, n).1 == acts.push(act));
        assert(acts.push(act)[acts.len() as int] == act);
    }
}

/// Level semantics: a probe of a live registration that completes leaves it
/// idle and queued again, and the next drain submits a new probe for the same
/// interests, so readiness that persists is reported at every wait.
pub proof fn lemma_level_semantics(
    m: PollModel,
    key: SockKey,
    fd: i32,
    token: Token,
    interests: Interest,
    flags: u32,
)
    requires
        bound(m, key, fd, token, interests),
        m.socks[key.index as int].status == PollStatus::Pending,
        m.wf(),
    ensures
        ({
            let m1 = m.complete_spec(Completion::Probe { key, flags }).0;
            let (m2, acts) = m1.drain_spec();
            &&& bound(m1, key, fd, token, interests)
            &&& m1.socks[key.index as int].status == PollStatus::Idle
            &&& m1.queue.last() == key
            &&& bound(m2, key, fd, token, interests)
            &&& m2.socks[key.index as int].status == PollStatus::Pending
            &&& acts.contains(PollAction::Submit { key, fd, mask: interest_mask(interests@) })
        }),
{
    let m1 = m.complete_spec(Completion::Probe { key, flags }).0;
    lemma_drain_submits(m1.socks, m1.queue, m1.queue.len() as int, key.index as int, m1.queue.len() - 1);
    lemma_drain_keeps(m1.socks, m1.queue, m1.queue.len() as int, key.index as int);
}

proof fn lemma_select_len(m: PollModel, cap: nat, cs: Seq<Completion>, n: int)
    ensures
        select_prefix(m, cap, cs, n).1.len() <= if n < 0 { 0 } else { n },
    decreases n,
{
    if n > 0 {
        lemma_select_len(m, cap, cs, n - 1);
    }
}

/// Waker liveness: a wait whose completions include a wake, into a buffer
/// with room for every completion, yields an event with the waker's token.
pub proof fn lemma_wake_delivered(m: PollModel, cap: nat, cs: Seq<Completion>, j: int, token: Token)
    requires
        0 <= j < cs.len(),
        cs[j] == (Completion::Wake { token }),
        cs.len() <= cap,
    ensures
        select_prefix(m, cap, cs, cs.len() as int).1.contains(wake_event(token)),
        wake_event(token).data == token.0 as u64,
        readable_spec(wake_event(token)),
{
    lemma_wake_in_prefix(m, cap, cs, j, token, cs.len() as int);
    assert(EPOLLIN & EPOLLIN != 0) by (bit_vector);
}

proof fn lemma_wake_in_prefix(m: PollModel, cap: nat, cs: Seq<Completion>, j: int, token: Token, n: int)
    requires
        0 <= j < n <= cs.len(),
        cs[j] == (Completion::Wake { token }),
        cs.len() <= cap,
    ensures
        select_prefix(m, cap, cs, n).1.contains(wake_event(token)),
    decreases n,
{
    let (m1, evs) = select_prefix(m, cap, cs, n - 1);
    lemma_select_len(m, cap, cs, n - 1);
    if j < n - 1 {
        lemma_wake_in_prefix(m, cap, cs, j, token, n - 1);
        let e = m1.complete_spec(cs[n - 1]).1;
        if e.is_some() && evs.len() < cap {
            let w = choose|w: int| 0 <= w < evs.len() && evs[w] == wake_event(token);
            assert(evs.push(e.unwrap())[w] == wake_event(token));
        }
    } else {
        assert(evs.push(wake_event(token))[evs.len() as int] == wake_event(token));
    }
}

/// For each event that a wait keeps, the position of the completion it came from.
pub open spec fn select_origins(m: PollModel, cap: nat, cs: Seq<Completion>, n: int) -> Seq<int>
    decreases n,
{
    if n <= 0 {
        seq![]
    } else {
        let origins = select_origins(m, cap, cs, n - 1);
        let (m1, evs) = select_prefix(m, cap, cs, n - 1);
        let e = m1.complete_spec(cs[n - 1]).1;
        if e.is_some() && evs.len() < cap { origins.push(n - 1) } else { origins }
    }
}

/// The state a wait has reached after its first `j` completions.
pub open spec fn state_at(m: PollModel, cap: nat, cs: Seq<Completion>, j: int) -> PollModel {
    select_prefix(m, cap, cs, j).0
}

proof fn lemma_complete_keeps_wf(m: PollModel, c: Completion)
    requires
        m.wf(),
    ensures
        m.complete_spec(c).0.wf(),
{
}

/// Each event a wait keeps is the event that the completion at its origin
/// yielded, in the state the wait had reached there.
proof fn lemma_origins(m: PollModel, cap: nat, cs: Seq<Completion>, n: int)
    requires
        0 <= n <= cs.len(),
    ensures
        select_origins(m, cap, cs, n).len() == select_prefix(m, cap, cs, n).1.len(),
        forall|i: int|
            0 <= i < select_origins(m, cap, cs, n).len() ==> {
                let j = #[trigger] select_origins(m, cap, cs, n)[i];
                &&& 0 <= j < n
                &&& state_at(m, cap, cs, j).complete_spec(cs[j]).1 == Some(select_prefix(m, cap, cs, n).1[i])
            },
    decreases n,
{
    if n > 0 {
        lemma_origins(m, cap, cs, n - 1);
        let origins = select_origins(m, cap, cs, n - 1);
        let evs = select_prefix(m, cap, cs, n - 1).1;
        let e = state_at(m, cap, cs, n - 1).complete_spec(cs[n - 1]).1;
        if e.is_some() && evs.len() < cap {
            assert forall|i: int| 0 <= i < origins.len() + 1 implies {
                let j = #[trigger] origins.push(n - 1)[i];
                &&& 0 <= j < n
                &&& state_at(m, cap, cs, j).complete_spec(cs[j]).1 == Some(evs.push(e.unwrap())[i])
            } by {
                if i < origins.len() {
                    assert(origins.push(n - 1)[i] == origins[i]);
                    assert(evs.push(e.unwrap())[i] == evs[i]);
                }
            }
        }
    }
}

/// A quiet registration stays quiet through every step of a wait.
proof fn lemma_select_keeps_quiet(m: PollModel, cap: nat, cs: Seq<Completion>, key: SockKey, j: int)
    requires
        m.wf(),
        quiet(m, key),
        0 <= j <= cs.len(),
    ensures
        state_at(m, cap, cs, j).wf(),
        quiet(state_at(m, cap, cs, j), key),
    decreases j,
{
    if j > 0 {
        lemma_select_keeps_quiet(m, cap, cs, key, j - 1);
        let mj = state_at(m, cap, cs, j - 1);
        lemma_complete_keeps_wf(mj, cs[j - 1]);
        lemma_quiet_complete(mj, key, cs[j - 1], 0);
    }
}

/// Whether completion `c` is one of the probes named `key`.
pub open spec fn probe_of(c: Completion, key: SockKey) -> bool {
    match c {
        Completion::Probe { key: k, flags: _ } => k == key,
        Completion::Wake { token: _ } => false,
    }
}

/// Deregister quiescence over a whole wait: once a registration is quiet,
/// no event a wait yields comes from a completion of its probes, whatever
/// else completes in the same wait.
pub proof fn lemma_select_quiescence(m: PollModel, cap: nat, cs: Seq<Completion>, key: SockKey)
    requires
        m.wf(),
        quiet(m, key),
    ensures
        select_origins(m, cap, cs, cs.len() as int).len() == select_prefix(m, cap, cs, cs.len() as int).1.len(),
        forall|i: int| 0 <= i < select_origins(m, cap, cs, cs.len() as int).len() ==>
            !probe_of(cs[#[trigger] select_origins(m, cap, cs, cs.len() as int)[i]], key),
{
    let n = cs.len() as int;
    lemma_origins(m, cap, cs, n);
    assert forall|i: int| 0 <= i < select_origins(m, cap, cs, n).len() implies
        !probe_of(cs[#[trigger] select_origins(m, cap, cs, n)[i]], key) by {
        let j = select_origins(m, cap, cs, n)[i];
        lemma_select_keeps_quiet(m, cap, cs, key, j);
        if probe_of(cs[j], key) {
            lemma_quiet_complete(state_at(m, cap, cs, j), key, cs[j], cs[j]->Probe_flags);
        }
    }
}

/// A binding survives every step of a wait.
proof fn lemma_select_keeps_binding(
    m: PollModel,
    cap: nat,
    cs: Seq<Completion>,
    key: SockKey,
    fd: i32,
    token: Token,
    interests: Interest,
    j: int,
)
    requires
        m.wf(),
        bound(m, key, fd, token, interests),
        0 <= j <= cs.len(),
    ensures
        state_at(m, cap, cs, j).wf(),
        bound(state_at(m, cap, cs, j), key, fd, token, interests),
    decreases j,
{
    if j > 0 {
        lemma_select_keeps_binding(m, cap, cs, key, fd, token, interests, j - 1);
        let mj = state_at(m, cap, cs, j - 1);
        lemma_complete_keeps_wf(mj, cs[j - 1]);
        let other: i32 = if fd == 0 { 1 } else { 0 };
        lemma_binding_persists(mj, key, fd, token, interests, cs[j - 1], other, token, interests);
    }
}

/// Token echo, interest filtering and reregister atomicity over a whole
/// wait: every event a wait yields from the probes of a registration bound
/// to a token and interests when the wait began carries that token, is
/// readable only if readable interest was asked for, and writable only if
/// writable interest was, whatever else completes in the same wait.
pub proof fn lemma_select_follows_binding(
    m: PollModel,
    cap: nat,
    cs: Seq<Completion>,
    key: SockKey,
    fd: i32,
    token: Token,
    interests: Interest,
)
    requires
        m.wf(),
        bound(m, key, fd, token, interests),
    ensures
        ({
            let n = cs.len() as int;
            let origins = select_origins(m, cap, cs, n);
            let evs = select_prefix(m, cap, cs, n).1;
            &&& origins.len() == evs.len()
            &&& forall|i: int| 0 <= i < origins.len() && probe_of(cs[#[trigger] origins[i]], key) ==> {
                &&& evs[i].data == token.0 as u64
                &&& (readable_spec(evs[i]) ==> interests@ & READABLE_BIT != 0)
                &&& (writable_spec(evs[i]) ==> interests@ & WRITABLE_BIT != 0)
            }
        }),
{
    let n = cs.len() as int;
    lemma_origins(m, cap, cs, n);
    let origins = select_origins(m, cap, cs, n);
    let evs = select_prefix(m, cap, cs, n).1;
    assert forall|i: int| 0 <= i < origins.len() && probe_of(cs[#[trigger] origins[i]], key) implies {
        &&& evs[i].data == token.0 as u64
        &&& (readable_spec(evs[i]) ==> interests@ & READABLE_BIT != 0)
        &&& (writable_spec(evs[i]) ==> interests@ & WRITABLE_BIT != 0)
    } by {
        let j = origins[i];
        lemma_select_keeps_binding(m, cap, cs, key, fd, token, interests, j);
        lemma_events_follow_binding(state_at(m, cap, cs, j), key, fd, token, interests, cs[j]->Probe_flags);
    }
}

/// Waker liveness with any room at all: a wait whose first completion is a
/// wake yields the waker's event first.
pub proof fn lemma_wake_first(m: PollModel, cap: nat, cs: Seq<Completion>, token: Token)
    requires
        cs.len() > 0,
        cs[0] == (Completion::Wake { token }),
        cap >= 1,
    ensures
        select_prefix(m, cap, cs, cs.len() as int).1.len() >= 1,
        select_prefix(m, cap, cs, cs.len() as int).1[0] == wake_event(token),
{
    lemma_wake_stays_first(m, cap, cs, token, cs.len() as int);
}

proof fn lemma_wake_stays_first(m: PollModel, cap: nat, cs: Seq<Completion>, token: Token, n: int)
    requires
        0 < n <= cs.len(),
        cs[0] == (Completion::Wake { token }),
        cap >= 1,
    ensures
        select_prefix(m, cap, cs, n).1.len() >= 1,
        select_prefix(m, cap, cs, n).1[0] == wake_event(token),
    decreases n,
{
    if n > 1 {
        lemma_wake_stays_first(m, cap, cs, token, n - 1);
        let (m1, evs) = select_prefix(m, cap, cs, n - 1);
        let e = m1.complete_spec(cs[n - 1]).1;
        if e.is_some() && evs.len() < cap {
            assert(evs.push(e.unwrap())[0] == evs[0]);
        }
    } else {
        let (m0, evs0) = select_prefix(m, cap, cs, 0);
        assert(evs0.len() == 0);
        assert(evs0.push(wake_event(token))[0] == wake_event(token));
    }
}

} // verus!

