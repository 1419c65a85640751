use vstd::prelude::*;
use crate::interest::{Interest, PRIORITY_BIT, READABLE_BIT, WRITABLE_BIT};
use crate::sys_event::{SysEvent, EPOLLERR, EPOLLHUP, EPOLLIN, EPOLLOUT, EPOLLPRI, EPOLLRDHUP};
use crate::token::Token;

verus! {

/// Where a socket's readiness probe stands.
#[derive(Clone, Copy, Debug, PartialEq, Eq, Structural)]
pub enum PollStatus {
    /// Registered, never probed.
    New,
    /// A probe is in flight.
    Pending,
    /// A cancel was posted for the probe in flight; its result will be dropped.
    Cancelled,
    /// No probe in flight.
    Idle,
    /// Deregistered and quiet: the slot may be given to another socket.
    Deleted,
}

/// Names one registration of the selector: its slot and the slot's generation.
///
/// A slot is reused only under a new generation, so a key outlives its
/// registration without ever naming another.
#[derive(Clone, Copy, Debug, PartialEq, Eq, Structural)]
pub struct SockKey {
    pub index: usize,
    pub generation: u64,
}

/// What the caller must do against the completion port on the selector's behalf.
#[derive(Clone, Copy, Debug, PartialEq, Eq, Structural)]
pub enum PollAction {
    /// Nothing to do.
    Nothing,
    /// Submit a readiness probe for `fd` watching `mask`, tagged with `key`.
    Submit { key: SockKey, fd: i32, mask: u32 },
    /// Cancel the probe in flight for `fd`, tagged with `key`.
    Cancel { key: SockKey, fd: i32 },
}

/// Flags that a probe always reports, whatever was asked for.
pub const ALWAYS_REPORTED: u32 = EPOLLERR | EPOLLHUP;

/// The readiness flags a probe watches for an interest set.
pub open spec fn interest_mask(bits: u8) -> u32 {
    (if bits & READABLE_BIT != 0 { EPOLLIN | EPOLLRDHUP } else { 0u32 })
        | (if bits & WRITABLE_BIT != 0 { EPOLLOUT } else { 0u32 })
        | (if bits & PRIORITY_BIT != 0 { EPOLLPRI } else { 0u32 })
}

/// The readiness flags a probe watches for `interests`.
pub fn mask_of(interests: Interest) -> (r: u32)
    ensures
        r == interest_mask(interests@),
{
    let r: u32 = (if interests.is_readable() { EPOLLIN | EPOLLRDHUP } else { 0u32 })
        | (if interests.is_writable() { EPOLLOUT } else { 0u32 })
        | (if interests.is_priority() { EPOLLPRI } else { 0u32 });
    r
}

/// Per-socket state of the readiness emulation over a completion port.
#[derive(Clone, Copy, Debug, PartialEq, Eq, Structural)]
pub struct SockState {
    pub fd: i32,
    pub key: SockKey,
    pub token: Token,
    pub interests: Interest,
    pub status: PollStatus,
    /// The flags the probe in flight watches.
    pub pending_mask: u32,
    /// Deregistered: no event may come from this socket any more.
    pub delete_pending: bool,
}

impl SockState {
    pub open spec fn new_spec(fd: i32, key: SockKey, token: Token, interests: Interest) -> SockState {
        SockState {
            fd,
            key,
            token,
            interests,
            status: PollStatus::New,
            pending_mask: 0,
            delete_pending: false,
        }
    }

    /// Whether the socket still belongs to a registration.
    pub open spec fn is_live(self) -> bool {
        !self.delete_pending && self.status != PollStatus::Deleted
    }

    /// A state is consistent: only a deregistered socket is deleted, a
    /// deregistered one never has a probe in flight that was not cancelled,
    /// and a probe in flight watches exactly what the interests ask for.
    pub open spec fn wf(self) -> bool {
        &&& (self.status == PollStatus::Deleted ==> self.delete_pending)
        &&& (self.delete_pending ==> self.status != PollStatus::Pending)
        &&& (self.status == PollStatus::Pending ==> self.pending_mask == interest_mask(self.interests@))
    }

    /// New token and interests; a probe in flight for the old ones is cancelled.
    pub open spec fn set_interest_spec(self, token: Token, interests: Interest) -> (SockState, PollAction) {
        let s = SockState { token, interests, ..self };
        if self.status == PollStatus::Pending {
            (
                SockState { status: PollStatus::Cancelled, pending_mask: 0, ..s },
                PollAction::Cancel { key: self.key, fd: self.fd },
            )
        } else {
            (s, PollAction::Nothing)
        }
    }

    /// Deregistration: a probe in flight is cancelled, and the socket is
    /// marked so that nothing it completes is reported.
    pub open spec fn mark_delete_spec(self) -> (SockState, PollAction) {
        if self.delete_pending {
            (self, PollAction::Nothing)
        } else if self.status == PollStatus::Pending {
            (
                SockState { status: PollStatus::Cancelled, pending_mask: 0, delete_pending: true, ..self },
                PollAction::Cancel { key: self.key, fd: self.fd },
            )
        } else {
            (SockState { delete_pending: true, ..self }, PollAction::Nothing)
        }
    }

    /// A drain of the update queue: a live socket with no probe in flight gets
    /// one; a deregistered one with no probe in flight is deleted.
    pub open spec fn update_spec(self) -> (SockState, PollAction) {
        if self.delete_pending {
            if self.status == PollStatus::New || self.status == PollStatus::Idle {
                (SockState { status: PollStatus::Deleted, ..self }, PollAction::Nothing)
            } else {
                (self, PollAction::Nothing)
            }
        } else if self.status == PollStatus::New || self.status == PollStatus::Idle {
            let mask = interest_mask(self.interests@);
            (
                SockState { status: PollStatus::Pending, pending_mask: mask, ..self },
                PollAction::Submit { key: self.key, fd: self.fd, mask },
            )
        } else {
            (self, PollAction::Nothing)
        }
    }

    /// The event a completed probe yields: only a live, uncancelled probe
    /// reports, with the socket's token and the raised flags it asked for.
    pub open spec fn harvest_spec(self, flags: u32) -> Option<SysEvent> {
        let raised = flags & (interest_mask(self.interests@) | ALWAYS_REPORTED);
        if self.status == PollStatus::Pending && !self.delete_pending && raised != 0 {
            Some(SysEvent { events: raised, data: self.token.0 as u64 })
        } else {
            None
        }
    }

    /// The state after a probe completed.
    pub open spec fn complete_spec(self) -> SockState {
        if self.status == PollStatus::Pending || self.status == PollStatus::Cancelled {
            if self.delete_pending {
                SockState { status: PollStatus::Deleted, pending_mask: 0, ..self }
            } else {
                SockState { status: PollStatus::Idle, pending_mask: 0, ..self }
            }
        } else {
            self
        }
    }

    /// A fresh registration, not yet probed.
    pub fn new(fd: i32, key: SockKey, token: Token, interests: Interest) -> (r: SockState)
        ensures
            r == SockState::new_spec(fd, key, token, interests),
    {
        SockState {
            fd,
            key,
            token,
            interests,
            status: PollStatus::New,
            pending_mask: 0,
            delete_pending: false,
        }
    }

    /// Changes token and interests; says what to do with a probe in flight.
    pub fn set_interest(&mut self, token: Token, interests: Interest) -> (r: PollAction)
        ensures
            (*final(self), r) == old(self).set_interest_spec(token, interests),
    {
        self.token = token;
        self.interests = interests;
        if self.status == PollStatus::Pending {
            self.status = PollStatus::Cancelled;
            self.pending_mask = 0;
            PollAction::Cancel { key: self.key, fd: self.fd }
        } else {
            PollAction::Nothing
        }
    }

    /// Marks the socket for deletion; says what to do with a probe in flight.
    pub fn mark_delete(&mut self) -> (r: PollAction)
        ensures
            (*final(self), r) == old(self).mark_delete_spec(),
    {
        if self.delete_pending {
            PollAction::Nothing
        } else if self.status == PollStatus::Pending {
            self.status = PollStatus::Cancelled;
            self.pending_mask = 0;
            self.delete_pending = true;
            PollAction::Cancel { key: self.key, fd: self.fd }
        } else {
            self.delete_pending = true;
            PollAction::Nothing
        }
    }

    /// Advances the socket when the update queue is drained.
    pub fn update(&mut self) -> (r: PollAction)
        ensures
            (*final(self), r) == old(self).update_spec(),
    {
        if self.delete_pending {
            if self.status == PollStatus::New || self.status == PollStatus::Idle {
                self.status = PollStatus::Deleted;
            }
            PollAction::Nothing
        } else if self.status == PollStatus::New || self.status == PollStatus::Idle {
            let mask = mask_of(self.interests);
            self.status = PollStatus::Pending;
            self.pending_mask = mask;
            PollAction::Submit { key: self.key, fd: self.fd, mask }
        } else {
            PollAction::Nothing
        }
    }

    /// Takes the result of a completed probe: the event to report, if any.
    pub fn feed_event(&mut self, flags: u32) -> (r: Option<SysEvent>)
        ensures
            r == old(self).harvest_spec(flags),
            *final(self) == old(self).complete_spec(),
    {
        let raised = flags & (mask_of(self.interests) | ALWAYS_REPORTED);
        let r = if self.status == PollStatus::Pending && !self.delete_pending && raised != 0 {
            Some(SysEvent { events: raised, data: self.token.0 as u64 })
        } else {
            None
        };
        if self.status == PollStatus::Pending || self.status == PollStatus::Cancelled {
            self.pending_mask = 0;
            if self.delete_pending {
                self.status = PollStatus::Deleted;
            } else {
                self.status = PollStatus::Idle;
            }
        }
        r
    }
}

} // verus!
