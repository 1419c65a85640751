use vstd::prelude::*;
use crate::error::Error;
use crate::interest::Interest;
use crate::selector::Selector;
use crate::sock_state::{PollAction, SockKey};
use crate::token::Token;

verus! {

/// What a source remembers of its registration.
#[derive(Clone, Copy, Debug, PartialEq, Eq, Structural)]
pub struct InternalState {
    /// The identity of the selector it is registered with.
    pub selector_id: usize,
    pub fd: i32,
    pub token: Token,
    pub interests: Interest,
    /// The selector's key for the registration.
    pub key: SockKey,
}

/// A source's registration slot: empty exactly while the source is not
/// registered with any selector.
pub struct IoSourceState {
    internal: Option<InternalState>,
}

impl View for IoSourceState {
    type V = Option<InternalState>;

    closed spec fn view(&self) -> Option<InternalState> {
        self.internal
    }
}

/// Whether a slot refuses `selector_id`: it holds a registration with another selector.
pub open spec fn foreign(slot: Option<InternalState>, selector_id: usize) -> bool {
    slot.is_some() && slot.unwrap().selector_id != selector_id
}

impl IoSourceState {
    /// An empty slot.
    pub fn new() -> (r: IoSourceState)
        ensures
            r@.is_none(),
    {
        IoSourceState { internal: None }
    }

    /// Runs an I/O operation on `io` and hands back its result; the slot is
    /// left as it is.
    pub fn do_io<T, F, R>(&mut self, f: F, io: &mut T) -> (r: R)
        where
            F: FnOnce(&mut T) -> R,
        requires
            forall|t: &mut T| f.requires((t,)),
        ensures
            exists|t: &mut T| *t == *old(io) && *final(t) == *final(io) && f.ensures((t,), r),
            final(self)@ == old(self)@,
    {
        f(io)
    }

    /// The slot's registration, if any.
    pub fn internal(&self) -> (r: Option<InternalState>)
        ensures
            r == self@,
    {
        self.internal
    }

    /// Registers the source's descriptor `fd` with `selector`. A source bound
    /// to another selector is refused; when the selector refuses, the slot is
    /// emptied.
    pub fn register(&mut self, selector: &mut Selector, fd: i32, token: Token, interests: Interest) -> (r: Result<(), Error>)
        ensures
            old(selector)@.wf() ==> final(selector)@.wf(),
            final(selector).id_spec() == old(selector).id_spec(),
            foreign(old(self)@, old(selector).id_spec()) ==> {
                &&& r == Err::<(), Error>(Error::InvalidInput)
                &&& final(self)@ == old(self)@
                &&& final(selector)@ == old(selector)@
            },
            !foreign(old(self)@, old(selector).id_spec()) ==> {
                let (m1, res) = old(selector)@.register_spec(fd, token, interests);
                &&& final(selector)@ == m1
                &&& match res {
                    Ok(key) => r == Ok::<(), Error>(()) && final(self)@ == Some(
                        InternalState { selector_id: old(selector).id_spec(), fd, token, interests, key },
                    ),
                    Err(e) => r == Err::<(), Error>(e) && final(self)@.is_none(),
                }
            },
    {
        let id = selector.id();
        match self.internal {
            Some(st) => {
                if st.selector_id != id {
                    return Err(Error::InvalidInput);
                }
            },
            None => {},
        }
        match selector.register(fd, token, interests) {
            Ok(key) => {
                self.internal = Some(InternalState { selector_id: id, fd, token, interests, key });
                Ok(())
            },
            Err(e) => {
                self.internal = None;
                Err(e)
            },
        }
    }

    /// Replaces token and interests of the source's registration. A source
    /// never registered, or bound to another selector, is refused; the slot
    /// takes the new values only once the selector has.
    pub fn reregister(&mut self, selector: &mut Selector, token: Token, interests: Interest) -> (r: Result<PollAction, Error>)
        ensures
            old(selector)@.wf() ==> final(selector)@.wf(),
            final(selector).id_spec() == old(selector).id_spec(),
            (old(self)@.is_none() || foreign(old(self)@, old(selector).id_spec())) ==> {
                &&& r == Err::<PollAction, Error>(Error::InvalidInput)
                &&& final(self)@ == old(self)@
                &&& final(selector)@ == old(selector)@
            },
            (old(self)@.is_some() && !foreign(old(self)@, old(selector).id_spec())) ==> {
                let st = old(self)@.unwrap();
                let (m1, res) = old(selector)@.reregister_spec(st.fd, token, interests);
                &&& final(selector)@ == m1
                &&& r == res
                &&& final(self)@ == if res.is_ok() {
                    Some(InternalState { token, interests, ..st })
                } else {
                    old(self)@
                }
            },
    {
        match self.internal {
            None => Err(Error::InvalidInput),
            Some(st) => {
                if st.selector_id != selector.id() {
                    return Err(Error::InvalidInput);
                }
                let r = selector.reregister(st.fd, token, interests);
                if r.is_ok() {
                    self.internal = Some(InternalState { token, interests, ..st });
                }
                r
            },
        }
    }

    /// Removes the source's registration; the slot is emptied once the
    /// selector has let it go.
    pub fn deregister(&mut self, selector: &mut Selector) -> (r: Result<PollAction, Error>)
        ensures
            old(selector)@.wf() ==> final(selector)@.wf(),
            final(selector).id_spec() == old(selector).id_spec(),
            old(self)@.is_none() ==> {
                &&& r == Err::<PollAction, Error>(Error::NotFound)
                &&& final(self)@ == old(self)@
                &&& final(selector)@ == old(selector)@
            },
            foreign(old(self)@, old(selector).id_spec()) ==> {
                &&& r == Err::<PollAction, Error>(Error::InvalidInput)
                &&& final(self)@ == old(self)@
                &&& final(selector)@ == old(selector)@
            },
            (old(self)@.is_some() && !foreign(old(self)@, old(selector).id_spec())) ==> {
                let (m1, res) = old(selector)@.deregister_spec(old(self)@.unwrap().fd);
                &&& final(selector)@ == m1
                &&& r == res
                &&& final(self)@ == if res.is_ok() { None } else { old(self)@ }
            },
    {
        match self.internal {
            None => Err(Error::NotFound),
            Some(st) => {
                if st.selector_id != selector.id() {
                    return Err(Error::InvalidInput);
                }
                let r = selector.deregister(st.fd);
                if r.is_ok() {
                    self.internal = None;
                }
                r
            },
        }
    }

    /// After an operation on the source would have blocked: renews the
    /// registration with the token and interests it holds, so the selector
    /// keeps probing. An unregistered source has nothing to renew.
    pub fn io_blocked_reregister(&mut self, selector: &mut Selector) -> (r: Result<PollAction, Error>)
        ensures
            old(selector)@.wf() ==> final(selector)@.wf(),
            final(selector).id_spec() == old(selector).id_spec(),
            old(self)@.is_none() ==> r == Ok::<PollAction, Error>(PollAction::Nothing)
                && final(selector)@ == old(selector)@ && final(self)@ == old(self)@,
            foreign(old(self)@, old(selector).id_spec()) ==> {
                &&& r == Err::<PollAction, Error>(Error::InvalidInput)
                &&& final(self)@ == old(self)@
                &&& final(selector)@ == old(selector)@
            },
            (old(self)@.is_some() && !foreign(old(self)@, old(selector).id_spec())) ==> {
                let st = old(self)@.unwrap();
                let (m1, res) = old(selector)@.reregister_spec(st.fd, st.token, st.interests);
                &&& final(selector)@ == m1
                &&& r == res
                &&& final(self)@ == old(self)@
            },
    {
        match self.internal {
            None => Ok(PollAction::Nothing),
            Some(st) => {
                if st.selector_id != selector.id() {
                    return Err(Error::InvalidInput);
                }
                selector.reregister(st.fd, st.token, st.interests)
            },
        }
    }
}

/// Adapter that lets any value with a descriptor be registered: it pairs the
/// value with its registration slot.
pub struct IoSource<T> {
    state: IoSourceState,
    inner: T,
}

impl<T> IoSource<T> {
    /// The wrapped value.
    pub closed spec fn inner_spec(&self) -> T {
        self.inner
    }

    /// The registration slot.
    pub closed spec fn state_spec(&self) -> Option<InternalState> {
        self.state@
    }

    /// Wraps `io`, not yet registered.
    pub fn new(io: T) -> (r: IoSource<T>)
        ensures
            r.inner_spec() == io,
            r.state_spec().is_none(),
    {
        IoSource { state: IoSourceState::new(), inner: io }
    }

    /// The wrapped value.
    pub fn get_ref(&self) -> (r: &T)
        ensures
            *r == self.inner_spec(),
    {
        &self.inner
    }

    /// The registration slot.
    pub fn state(&self) -> (r: &IoSourceState)
        ensures
            r@ == self.state_spec(),
    {
        &self.state
    }

    /// Runs an I/O operation on the wrapped value and hands back its result.
    ///
    /// The selector queues a registration again after every completed probe,
    /// so readiness is probed anew whatever the operation returned; a caller
    /// whose operation would have blocked may still renew the registration
    /// with [`IoSource::io_blocked_reregister`].
    pub fn do_io<F, R>(&mut self, f: F) -> (r: R)
        where
            F: FnOnce(&mut T) -> R,
        requires
            forall|t: &mut T| f.requires((t,)),
        ensures
            exists|t: &mut T|
                *t == old(self).inner_spec() && *final(t) == final(self).inner_spec() && f.ensures((t,), r),
            final(self).state_spec() == old(self).state_spec(),
    {
        self.state.do_io(f, &mut self.inner)
    }

    /// Registers the wrapped value's descriptor `fd`; see [`IoSourceState::register`].
    pub fn register(&mut self, selector: &mut Selector, fd: i32, token: Token, interests: Interest) -> (r: Result<(), Error>)
        ensures
            old(selector)@.wf() ==> final(selector)@.wf(),
            final(self).inner_spec() == old(self).inner_spec(),
            foreign(old(self).state_spec(), old(selector).id_spec()) ==> {
                &&& r == Err::<(), Error>(Error::InvalidInput)
                &&& final(self).state_spec() == old(self).state_spec()
                &&& final(selector)@ == old(selector)@
            },
            !foreign(old(self).state_spec(), old(selector).id_spec()) ==> {
                let (m1, res) = old(selector)@.register_spec(fd, token, interests);
                &&& final(selector)@ == m1
                &&& match res {
                    Ok(key) => r == Ok::<(), Error>(()) && final(self).state_spec() == Some(
                        InternalState { selector_id: old(selector).id_spec(), fd, token, interests, key },
                    ),
                    Err(e) => r == Err::<(), Error>(e) && final(self).state_spec().is_none(),
                }
            },
    {
        self.state.register(selector, fd, token, interests)
    }

    /// Replaces token and interests; see [`IoSourceState::reregister`].
    pub fn reregister(&mut self, selector: &mut Selector, token: Token, interests: Interest) -> (r: Result<PollAction, Error>)
        ensures
            old(selector)@.wf() ==> final(selector)@.wf(),
            final(self).inner_spec() == old(self).inner_spec(),
            (old(self).state_spec().is_none() || foreign(old(self).state_spec(), old(selector).id_spec())) ==> {
                &&& r == Err::<PollAction, Error>(Error::InvalidInput)
                &&& final(self).state_spec() == old(self).state_spec()
                &&& final(selector)@ == old(selector)@
            },
            (old(self).state_spec().is_some() && !foreign(old(self).state_spec(), old(selector).id_spec())) ==> {
                let st = old(self).state_spec().unwrap();
                let (m1, res) = old(selector)@.reregister_spec(st.fd, token, interests);
                &&& final(selector)@ == m1
                &&& r == res
                &&& final(self).state_spec() == if res.is_ok() {
                    Some(InternalState { token, interests, ..st })
                } else {
                    old(self).state_spec()
                }
            },
    {
        self.state.reregister(selector, token, interests)
    }

    /// Removes the registration; see [`IoSourceState::deregister`].
    pub fn deregister(&mut self, selector: &mut Selector) -> (r: Result<PollAction, Error>)
        ensures
            old(selector)@.wf() ==> final(selector)@.wf(),
            final(self).inner_spec() == old(self).inner_spec(),
            old(self).state_spec().is_none() ==> {
                &&& r == Err::<PollAction, Error>(Error::NotFound)
                &&& final(self).state_spec() == old(self).state_spec()
                &&& final(selector)@ == old(selector)@
            },
            foreign(old(self).state_spec(), old(selector).id_spec()) ==> {
                &&& r == Err::<PollAction, Error>(Error::InvalidInput)
                &&& final(self).state_spec() == old(self).state_spec()
                &&& final(selector)@ == old(selector)@
            },
            (old(self).state_spec().is_some() && !foreign(old(self).state_spec(), old(selector).id_spec())) ==> {
                let (m1, res) = old(selector)@.deregister_spec(old(self).state_spec().unwrap().fd);
                &&& final(selector)@ == m1
                &&& r == res
                &&& final(self).state_spec() == if res.is_ok() { None } else { old(self).state_spec() }
            },
    {
        self.state.deregister(selector)
    }

    /// Renews the registration after an operation would have blocked; see
    /// [`IoSourceState::io_blocked_reregister`].
    pub fn io_blocked_reregister(&mut self, selector: &mut Selector) -> (r: Result<PollAction, Error>)
        ensures
            old(selector)@.wf() ==> final(selector)@.wf(),
            final(self).inner_spec() == old(self).inner_spec(),
            final(self).state_spec() == old(self).state_spec(),
            old(self).state_spec().is_none() ==> r == Ok::<PollAction, Error>(PollAction::Nothing)
                && final(selector)@ == old(selector)@,
            foreign(old(self).state_spec(), old(selector).id_spec()) ==> {
                &&& r == Err::<PollAction, Error>(Error::InvalidInput)
                &&& final(selector)@ == old(selector)@
            },
            (old(self).state_spec().is_some() && !foreign(old(self).state_spec(), old(selector).id_spec())) ==> {
                let st = old(self).state_spec().unwrap();
                let (m1, res) = old(selector)@.reregister_spec(st.fd, st.token, st.interests);
                &&& final(selector)@ == m1
                &&& r == res
            },
    {
        self.state.io_blocked_reregister(selector)
    }
}

} // verus!
