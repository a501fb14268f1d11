use vstd::prelude::*;

use crate::config::{address_in, AddressCache};
use crate::error::{SSEError, SSEResult};
use crate::protocol::{path_of, removal_ok, removal_succeeded, request_url, url_of, RequestKind};
use crate::timing::{
    freshness_wait, freshness_wait_spec, next_delay_spec, next_error_delay, until_next_second,
    NANOS_PER_SEC,
};

verus! {

/// The step of the registration sequence that is under way.
#[derive(Debug, Clone, Copy, PartialEq, Eq, Structural)]
pub enum RegStep {
    Remove,
    Metadata,
    Bind,
}

/// The states of the control loop.
#[derive(Debug, Clone, Copy, PartialEq, Eq, Structural)]
pub enum State {
    /// The config file may have just changed: wait until it is old enough.
    StartDelay,
    /// Registering with the service, at the given step.
    Registering(RegStep),
    /// Sending a new clock value.
    Updating,
    /// Waiting for the next whole second.
    Waiting,
    /// Waiting after an error.
    ErrorDelay,
}

/// What the control loop does after looking at the config file's age.
#[derive(Debug, Clone, Copy, PartialEq, Eq, Structural)]
pub enum StartDecision {
    /// The age could not be had: the loop moves on to its error delay.
    Failed(SSEError),
    /// The file is too young: wait this many nanoseconds and look again.
    Wait(u64),
    /// The file is old enough: read the address out of it.
    Fresh,
}

/// Whether the service holds a live registration of this client in state `s`.
pub open spec fn registered(s: State) -> bool {
    s is Updating || s is Waiting
}

/// The request due in state `s`, if one is.
pub open spec fn request_due(s: State) -> Option<RequestKind> {
    match s {
        State::Registering(RegStep::Remove) => Some(RequestKind::RemoveGame),
        State::Registering(RegStep::Metadata) => Some(RequestKind::GameMetadata),
        State::Registering(RegStep::Bind) => Some(RequestKind::BindGameEvent),
        State::Updating => Some(RequestKind::GameEvent),
        _ => None,
    }
}

/// The state after the request due in `s` ended with `result`. A removal
/// that the service refused because nothing was registered counts as done;
/// any other failure ends the sequence in the error delay.
pub open spec fn after_response(s: State, result: SSEResult<()>) -> State {
    match s {
        State::Registering(RegStep::Remove) => if removal_ok(result) {
            State::Registering(RegStep::Metadata)
        } else {
            State::ErrorDelay
        },
        State::Registering(RegStep::Metadata) => if result is Ok {
            State::Registering(RegStep::Bind)
        } else {
            State::ErrorDelay
        },
        State::Registering(RegStep::Bind) => if result is Ok {
            State::Updating
        } else {
            State::ErrorDelay
        },
        State::Updating => if result is Ok {
            State::Waiting
        } else {
            State::ErrorDelay
        },
        _ => s,
    }
}

/// The decisions of the control loop: its state, the current error delay in
/// nanoseconds, and the service's address. Waiting, the clock, the config
/// file and the requests themselves are the caller's.
pub struct ClockMachine {
    pub state: State,
    pub error_delay: u64,
    pub cache: AddressCache,
}

impl ClockMachine {
    /// A loop about to look at the config file, with no error delay and no address.
    pub fn new() -> (r: ClockMachine)
        ensures
            r.state == State::StartDelay,
            r.error_delay == 0,
            r.cache.address@ == Seq::<char>::empty(),
    {
        ClockMachine { state: State::StartDelay, error_delay: 0, cache: AddressCache::new() }
    }

    /// The state the loop is in.
    pub fn state(&self) -> (r: State)
        ensures
            r == self.state,
    {
        self.state
    }

    /// The address of the service last read from its config file.
    pub fn address(&self) -> (r: &str)
        ensures
            r@ == self.cache.address@,
    {
        self.cache.address.as_str()
    }

    /// Whether the service holds a live registration of this client, which
    /// the loop removes when it stops.
    pub fn is_registered(&self) -> (r: bool)
        ensures
            r == registered(self.state),
    {
        match self.state {
            State::Updating | State::Waiting => true,
            _ => false,
        }
    }

    /// The request due in the current state, if one is.
    pub fn request(&self) -> (r: Option<RequestKind>)
        ensures
            r == request_due(self.state),
    {
        match self.state {
            State::Registering(RegStep::Remove) => Some(RequestKind::RemoveGame),
            State::Registering(RegStep::Metadata) => Some(RequestKind::GameMetadata),
            State::Registering(RegStep::Bind) => Some(RequestKind::BindGameEvent),
            State::Updating => Some(RequestKind::GameEvent),
            _ => None,
        }
    }

    /// The start delay, given the config file's modification time (or why it
    /// could not be had) and the time now, both in nanoseconds since the epoch.
    pub fn start_delay(&mut self, modified: SSEResult<u64>, now: u64) -> (r: StartDecision)
        requires
            old(self).state == State::StartDelay,
        ensures
            final(self).error_delay == old(self).error_delay,
            final(self).cache == old(self).cache,
            match modified {
                Err(e) => r == StartDecision::Failed(e) && final(self).state == State::ErrorDelay,
                Ok(m) => final(self).state == State::StartDelay && if freshness_wait_spec(
                    m as int,
                    now as int,
                ) > 0 {
                    r == StartDecision::Wait(freshness_wait_spec(m as int, now as int) as u64)
                } else {
                    r == StartDecision::Fresh
                },
            },
    {
        match modified {
            Err(e) => {
                self.state = State::ErrorDelay;
                StartDecision::Failed(e)
            },
            Ok(m) => {
                let wait = freshness_wait(m, now);
                if wait > 0 {
                    StartDecision::Wait(wait)
                } else {
                    StartDecision::Fresh
                }
            },
        }
    }

    /// Ends the start delay of a fresh config file, given its text (or why
    /// it could not be read): registration starts once an address is read
    /// out of it. Returns whether the address changed.
    pub fn address_read(&mut self, config: SSEResult<&str>) -> (r: SSEResult<bool>)
        requires
            old(self).state == State::StartDelay,
        ensures
            final(self).error_delay == old(self).error_delay,
            match config {
                Err(e) => r == Err::<bool, SSEError>(e) && final(self).state == State::ErrorDelay
                    && final(self).cache == old(self).cache,
                Ok(text) => match address_in(text@) {
                    Ok(a) => r == Ok::<bool, SSEError>(a != old(self).cache.address@)
                        && final(self).cache.address@ == a && final(self).state
                        == State::Registering(RegStep::Remove),
                    Err(e) => r == Err::<bool, SSEError>(e) && final(self).state
                        == State::ErrorDelay && final(self).cache.address@
                        == old(self).cache.address@,
                },
            },
    {
        match config {
            Err(e) => {
                self.state = State::ErrorDelay;
                Err(e)
            },
            Ok(text) => {
                let r = self.cache.update(text);
                if r.is_ok() {
                    self.state = State::Registering(RegStep::Remove);
                } else {
                    self.state = State::ErrorDelay;
                }
                r
            },
        }
    }

    /// The URL of a request of kind `kind`, at the address read anew from
    /// the config file's text (or why that could not be had). The state is
    /// unchanged; the cached address follows the file.
    pub fn request_url(&mut self, kind: RequestKind, config: SSEResult<&str>) -> (r: SSEResult<
        String,
    >)
        ensures
            final(self).state == old(self).state,
            final(self).error_delay == old(self).error_delay,
            match config {
                Err(e) => r == Err::<String, SSEError>(e) && final(self).cache == old(self).cache,
                Ok(text) => match address_in(text@) {
                    Ok(a) => r matches Ok(url) && url@ == url_of(a, path_of(kind))
                        && final(self).cache.address@ == a,
                    Err(e) => r == Err::<String, SSEError>(e) && final(self).cache.address@
                        == old(self).cache.address@,
                },
            },
    {
        match config {
            Err(e) => Err(e),
            Ok(text) => match self.cache.update(text) {
                Ok(_) => Ok(request_url(self.cache.address.as_str(), kind.path())),
                Err(e) => Err(e),
            },
        }
    }

    /// Moves on once the request due has ended with `result`.
    pub fn response(&mut self, result: SSEResult<()>)
        requires
            request_due(old(self).state) is Some,
        ensures
            final(self).state == after_response(old(self).state, result),
            final(self).error_delay == old(self).error_delay,
            final(self).cache == old(self).cache,
    {
        self.state = match self.state {
            State::Registering(RegStep::Remove) => if removal_succeeded(&result) {
                State::Registering(RegStep::Metadata)
            } else {
                State::ErrorDelay
            },
            State::Registering(RegStep::Metadata) => if result.is_ok() {
                State::Registering(RegStep::Bind)
            } else {
                State::ErrorDelay
            },
            State::Registering(RegStep::Bind) => if result.is_ok() {
                State::Updating
            } else {
                State::ErrorDelay
            },
            _ => if result.is_ok() {
                State::Waiting
            } else {
                State::ErrorDelay
            },
        };
    }

    /// Leaves the waiting state: the error delay starts over, and the next
    /// value is due at the next whole second. Returns how many nanoseconds to
    /// wait for it, given the sub-second part of the time now.
    pub fn wait_for_second(&mut self, subsec_nanos: u32) -> (r: u64)
        requires
            old(self).state == State::Waiting,
            subsec_nanos < NANOS_PER_SEC,
        ensures
            r == NANOS_PER_SEC - subsec_nanos,
            final(self).state == State::Updating,
            final(self).error_delay == 0,
            final(self).cache == old(self).cache,
    {
        self.error_delay = 0;
        self.state = State::Updating;
        until_next_second(subsec_nanos)
    }

    /// Leaves the error delay: the delay doubles within its bounds, and the
    /// loop looks at the config file again once it has passed. Returns the
    /// delay in nanoseconds.
    pub fn error_pause(&mut self) -> (r: u64)
        requires
            old(self).state == State::ErrorDelay,
        ensures
            r == next_delay_spec(old(self).error_delay as int),
            final(self).error_delay == r,
            final(self).state == State::StartDelay,
            final(self).cache == old(self).cache,
    {
        let delay = next_error_delay(self.error_delay);
        self.error_delay = delay;
        self.state = State::StartDelay;
        delay
    }
}

/// The state after the requests due from `s` on ended with `results`, in turn.
pub open spec fn after_responses(s: State, results: Seq<SSEResult<()>>) -> State
    decreases results.len(),
{
    if results.len() == 0 {
        s
    } else {
        after_responses(after_response(s, results[0]), results.drop_first())
    }
}

/// A failed removal, unless the service refused it because nothing was
/// registered, ends registration at once: no metadata or binding request is
/// due after it.
pub proof fn lemma_failed_removal_aborts(result: SSEResult<()>)
    requires
        !removal_ok(result),
    ensures
        after_response(State::Registering(RegStep::Remove), result) == State::ErrorDelay,
        request_due(after_response(State::Registering(RegStep::Remove), result)) is None,
{
}

/// A removal that succeeded, or that the service refused because nothing
/// was registered, goes on to the metadata request.
pub proof fn lemma_removal_carve_out(result: SSEResult<()>)
    requires
        removal_ok(result),
    ensures
        after_response(State::Registering(RegStep::Remove), result) == State::Registering(
            RegStep::Metadata,
        ),
        request_due(after_response(State::Registering(RegStep::Remove), result)) == Some(
            RequestKind::GameMetadata,
        ),
{
}

/// With a healthy service, registering ends in the same state whether the
/// removal found a registration or not: a second registration right after a
/// first has the same effect.
pub proof fn lemma_registration_idempotent(removal: SSEResult<()>)
    requires
        removal_ok(removal),
    ensures
        after_responses(
            State::Registering(RegStep::Remove),
            seq![removal, Ok(()), Ok(())],
        ) == State::Updating,
        after_responses(
            State::Registering(RegStep::Remove),
            seq![Ok(()), Ok(()), Ok(())],
        ) == State::Updating,
{
    let s0 = State::Registering(RegStep::Remove);
    let rs = seq![removal, Ok(()), Ok(())];
    assert(rs.drop_first() =~= seq![Ok::<(), SSEError>(()), Ok(())]);
    assert(rs.drop_first().drop_first() =~= seq![Ok::<(), SSEError>(())]);
    assert(rs.drop_first().drop_first().drop_first() =~= Seq::<SSEResult<()>>::empty());
    reveal_with_fuel(after_responses, 4);
    let oks = seq![Ok::<(), SSEError>(()), Ok(()), Ok(())];
    assert(oks.drop_first() =~= seq![Ok::<(), SSEError>(()), Ok(())]);
    assert(oks.drop_first().drop_first() =~= seq![Ok::<(), SSEError>(())]);
    assert(oks.drop_first().drop_first().drop_first() =~= Seq::<SSEResult<()>>::empty());
}

/// The clock's value is sent only in a registered session: a response leads
/// to `Updating` only from a binding that succeeded, and a binding is due
/// only after metadata that succeeded.
pub proof fn lemma_session_order(s: State, result: SSEResult<()>)
    ensures
        after_response(s, result) == State::Updating ==> s == State::Registering(RegStep::Bind)
            && result is Ok,
        after_response(s, result) == State::Registering(RegStep::Bind) ==> s
            == State::Registering(RegStep::Metadata) && result is Ok,
        after_response(s, result) == State::Registering(RegStep::Metadata) ==> s
            == State::Registering(RegStep::Remove) && removal_ok(result),
{
}

} // verus!
