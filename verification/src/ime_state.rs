//! The connection to the server that all text services of a process share.
//!
//! Times are nanoseconds of a monotonic clock. A connection is known by its id.

use vstd::prelude::*;

verus! {

/// The least time between two attempts to connect.
pub const IPC_RECONNECT_RETRY_INTERVAL: u64 = 500_000_000;

/// The system's code of a pipe that is busy.
pub const ERROR_PIPE_BUSY: i32 = 231;

/// How long a busy pipe is left alone, in milliseconds.
pub const PIPE_BUSY_RETRY_MILLIS: u64 = 50;

/// The time to wait before a pipe is opened again, after it could not be opened.
/// Only a busy pipe is tried again.
pub fn pipe_retry_delay(os_error: Option<i32>) -> (delay: Option<u64>)
    ensures
        delay == if os_error == Some(ERROR_PIPE_BUSY) {
            Some(PIPE_BUSY_RETRY_MILLIS)
        } else {
            None::<u64>
        },
        os_error == Some(231i32) <==> delay == Some(50u64),
        os_error != Some(231i32) <==> delay is None,
{
    match os_error {
        Some(code) => if code == ERROR_PIPE_BUSY {
            Some(PIPE_BUSY_RETRY_MILLIS)
        } else {
            None
        },
        None => None,
    }
}

/// Whether an attempt to connect is due.
pub open spec fn is_due(
    active_attempt_id: Option<u64>,
    last_attempt: Option<u64>,
    now: u64,
    force: bool,
) -> bool {
    active_attempt_id is None && (force || match last_attempt {
        None => true,
        Some(last) => now >= last + IPC_RECONNECT_RETRY_INTERVAL,
    })
}

/// Tells whether an attempt to connect is due: none is running, and the last one
/// is long enough ago, or the attempt is forced.
pub fn reconnect_is_due(
    active_attempt_id: Option<u64>,
    last_attempt: Option<u64>,
    now: u64,
    force: bool,
) -> (due: bool)
    ensures
        due == is_due(active_attempt_id, last_attempt, now, force),
{
    if active_attempt_id.is_some() {
        return false;
    }
    if force {
        return true;
    }
    match last_attempt {
        None => true,
        Some(last) => now.saturating_sub(last) >= IPC_RECONNECT_RETRY_INTERVAL,
    }
}

/// A connection, and whether it may be used: it may while it is the shared one.
#[derive(Clone, Copy, Debug, PartialEq, Eq, Structural)]
pub struct Connection {
    pub id: u64,
    pub active: bool,
}

/// The shared connection and the attempts to make one.
#[derive(Clone, Copy, Debug, PartialEq, Eq, Structural)]
pub struct IMEState {
    pub ipc_service: Option<Connection>,
    pub active_ipc_reconnect_attempt: Option<u64>,
    pub next_ipc_reconnect_attempt: u64,
    pub last_ipc_reconnect_attempt: Option<u64>,
}

/// A connection that was given up, and the id of the attempt to make another one,
/// where none is running already.
#[derive(Clone, Copy, Debug, PartialEq, Eq, Structural)]
pub struct Invalidated {
    pub removed: Connection,
    pub attempt_id: Option<u64>,
}

/// The id of the attempt after the one with this id.
pub open spec fn following_attempt(id: u64) -> u64 {
    if id == u64::MAX {
        0
    } else {
        (id + 1) as u64
    }
}

impl IMEState {
    /// The shared connection may be used, and an attempt that is running is the
    /// latest one.
    pub open spec fn is_valid(self) -> bool {
        &&& self.ipc_service matches Some(connection) ==> connection.active
        &&& self.active_ipc_reconnect_attempt matches Some(id) ==> id
            == self.next_ipc_reconnect_attempt
    }

    /// The state after an attempt was asked for, and the id of the attempt.
    pub open spec fn reconnect_started(self, now: u64, force: bool) -> (IMEState, Option<u64>) {
        if self.ipc_service is Some || !is_due(
            self.active_ipc_reconnect_attempt,
            self.last_ipc_reconnect_attempt,
            now,
            force,
        ) {
            (self, None)
        } else {
            let id = following_attempt(self.next_ipc_reconnect_attempt);
            (
                IMEState {
                    next_ipc_reconnect_attempt: id,
                    active_ipc_reconnect_attempt: Some(id),
                    last_ipc_reconnect_attempt: Some(now),
                    ..self
                },
                Some(id),
            )
        }
    }

    /// The state after a connection has failed, and what came of it.
    pub open spec fn ipc_invalidated(self, connection_id: u64, now: u64) -> (
        IMEState,
        Option<Invalidated>,
    ) {
        match self.ipc_service {
            Some(connection) if connection.id == connection_id => {
                let without = IMEState { ipc_service: None, ..self };
                let (after, attempt_id) = without.reconnect_started(now, true);
                let removed = Connection { id: connection_id, active: false };
                (after, Some(Invalidated { removed, attempt_id }))
            },
            _ => (self, None),
        }
    }

    /// The state after an attempt has ended, and the connection that is given up.
    pub open spec fn reconnect_finished(self, attempt_id: u64, connected: Option<u64>) -> (
        IMEState,
        Option<u64>,
    ) {
        if self.active_ipc_reconnect_attempt != Some(attempt_id) {
            (self, connected)
        } else {
            let ended = IMEState { active_ipc_reconnect_attempt: None, ..self };
            match connected {
                Some(id) if self.ipc_service is None => (
                    IMEState { ipc_service: Some(Connection { id, active: true }), ..ended },
                    None,
                ),
                _ => (ended, connected),
            }
        }
    }

    /// Makes a state without a connection.
    pub fn new() -> (state: IMEState)
        ensures
            state.is_valid(),
            state == (IMEState {
                ipc_service: None,
                active_ipc_reconnect_attempt: None,
                next_ipc_reconnect_attempt: 0,
                last_ipc_reconnect_attempt: None,
            }),
    {
        IMEState {
            ipc_service: None,
            active_ipc_reconnect_attempt: None,
            next_ipc_reconnect_attempt: 0,
            last_ipc_reconnect_attempt: None,
        }
    }

    /// Returns the id of the connection that may be used.
    pub fn ipc_snapshot(&self) -> (id: Option<u64>)
        ensures
            id == match self.ipc_service {
                Some(connection) => if connection.active {
                    Some(connection.id)
                } else {
                    None
                },
                None => None,
            },
    {
        match self.ipc_service {
            Some(connection) => if connection.active {
                Some(connection.id)
            } else {
                None
            },
            None => None,
        }
    }

    /// Publishes a new connection, unless there is one. Tells whether it did.
    pub fn install_ipc_if_absent(&mut self, id: u64) -> (installed: bool)
        requires
            old(self).is_valid(),
        ensures
            final(self).is_valid(),
            installed == (old(self).ipc_service is None),
            *final(self) == if installed {
                IMEState { ipc_service: Some(Connection { id, active: true }), ..*old(self) }
            } else {
                *old(self)
            },
    {
        if self.ipc_service.is_some() {
            return false;
        }
        self.ipc_service = Some(Connection { id, active: true });
        true
    }

    /// Gives up the connection that has failed, and asks for an attempt to make
    /// another one, which is forced. A late failure of an older connection does not
    /// touch the present one.
    pub fn invalidate_ipc(&mut self, connection_id: u64, now: u64) -> (invalidated: Option<
        Invalidated,
    >)
        requires
            old(self).is_valid(),
        ensures
            final(self).is_valid(),
            (*final(self), invalidated) == old(self).ipc_invalidated(connection_id, now),
    {
        match self.ipc_service {
            Some(connection) => {
                if connection.id != connection_id {
                    return None;
                }
                self.ipc_service = None;
                let removed = Connection { id: connection.id, active: false };
                let attempt_id = self.start_ipc_reconnect(now, true);
                Some(Invalidated { removed, attempt_id })
            },
            None => None,
        }
    }

    /// Asks for an attempt to connect, and returns its id where it is to be made.
    pub fn start_ipc_reconnect(&mut self, now: u64, force: bool) -> (attempt_id: Option<u64>)
        requires
            old(self).is_valid(),
        ensures
            final(self).is_valid(),
            (*final(self), attempt_id) == old(self).reconnect_started(now, force),
    {
        if self.ipc_service.is_some() || !reconnect_is_due(
            self.active_ipc_reconnect_attempt,
            self.last_ipc_reconnect_attempt,
            now,
            force,
        ) {
            return None;
        }
        self.next_ipc_reconnect_attempt = self.next_ipc_reconnect_attempt.wrapping_add(1);
        let attempt_id: u64 = self.next_ipc_reconnect_attempt;
        self.active_ipc_reconnect_attempt = Some(attempt_id);
        self.last_ipc_reconnect_attempt = Some(now);
        Some(attempt_id)
    }

    /// Ends an attempt that has connected or failed. Returns the connection that
    /// is given up: that of an attempt which is not the running one, or one that
    /// comes too late.
    pub fn finish_ipc_reconnect(&mut self, attempt_id: u64, connected: Option<u64>) -> (discarded:
        Option<u64>)
        requires
            old(self).is_valid(),
        ensures
            final(self).is_valid(),
            (*final(self), discarded) == old(self).reconnect_finished(attempt_id, connected),
    {
        let running = match self.active_ipc_reconnect_attempt {
            Some(active) => active == attempt_id,
            None => false,
        };
        if !running {
            return connected;
        }
        self.active_ipc_reconnect_attempt = None;
        match connected {
            Some(id) => if self.ipc_service.is_none() {
                self.ipc_service = Some(Connection { id, active: true });
                None
            } else {
                connected
            },
            None => None,
        }
    }

    /// Ends an attempt that could not even be started.
    pub fn abandon_ipc_reconnect(&mut self, attempt_id: u64)
        requires
            old(self).is_valid(),
        ensures
            final(self).is_valid(),
            *final(self) == if old(self).active_ipc_reconnect_attempt == Some(attempt_id) {
                IMEState { active_ipc_reconnect_attempt: None, ..*old(self) }
            } else {
                *old(self)
            },
    {
        let running = match self.active_ipc_reconnect_attempt {
            Some(active) => active == attempt_id,
            None => false,
        };
        if running {
            self.active_ipc_reconnect_attempt = None;
        }
    }
}

/// There is never a second attempt while one is running, not even a forced one,
/// and none while there is a connection.
pub proof fn attempts_are_not_duplicated(state: IMEState, now: u64, force: bool)
    requires
        state.active_ipc_reconnect_attempt is Some || state.ipc_service is Some,
    ensures
        state.reconnect_started(now, force) == (state, None::<u64>),
{
}

/// Attempts that are not forced keep their distance.
pub proof fn attempts_are_throttled(state: IMEState, first: u64, second: u64)
    requires
        state.reconnect_started(first, false).1 is Some,
        second < first + IPC_RECONNECT_RETRY_INTERVAL,
    ensures
        ({
            let started = state.reconnect_started(first, false).0;
            let ended = started.reconnect_finished(started.next_ipc_reconnect_attempt, None).0;
            ended.reconnect_started(second, false).1 is None
        }),
{
}

/// A failure forces another attempt at once, whenever the last one was.
pub proof fn a_failure_forces_an_attempt(state: IMEState, now: u64)
    requires
        state.ipc_service is None,
        state.active_ipc_reconnect_attempt is None,
    ensures
        state.reconnect_started(now, true).1 is Some,
{
}

/// Exactly the connection that failed is given up. It may not be used any more, and
/// an attempt to make another one runs from then on: one that is started now,
/// however recent the last one was, or the one that was running. The failure of any
/// other connection, or a second failure of the same one, changes nothing.
pub proof fn a_failed_connection_is_replaced(
    state: IMEState,
    connection_id: u64,
    now: u64,
    later: u64,
)
    requires
        state.is_valid(),
    ensures
        ({
            let (after, invalidated) = state.ipc_invalidated(connection_id, now);
            let shared = state.ipc_service matches Some(connection) && connection.id
                == connection_id;
            &&& after.is_valid()
            &&& after.ipc_invalidated(connection_id, later) == (after, None::<Invalidated>)
            &&& match invalidated {
                Some(invalidated) => {
                    &&& shared
                    &&& after.ipc_service is None
                    &&& after.active_ipc_reconnect_attempt is Some
                    &&& invalidated.removed == Connection { id: connection_id, active: false }
                    &&& invalidated.attempt_id == if state.active_ipc_reconnect_attempt is None {
                        after.active_ipc_reconnect_attempt
                    } else {
                        None
                    }
                },
                None => !shared && after == state,
            }
        }),
{
}

/// An attempt that has ended never replaces a connection: where there is one, the
/// new connection is given up.
pub proof fn a_late_attempt_replaces_nothing(
    state: IMEState,
    attempt_id: u64,
    connected: Option<u64>,
)
    requires
        state.ipc_service is Some,
    ensures
        state.reconnect_finished(attempt_id, connected).0.ipc_service == state.ipc_service,
        state.reconnect_finished(attempt_id, connected).1 == connected,
{
}

/// Nothing is lost: the connection that an attempt has made is either published
/// or given up, and never both.
pub proof fn a_connection_is_published_or_given_up(
    state: IMEState,
    attempt_id: u64,
    connected: u64,
)
    ensures
        ({
            let (after, discarded) = state.reconnect_finished(attempt_id, Some(connected));
            let published = state.ipc_service is None && after.ipc_service == Some(
                Connection { id: connected, active: true },
            );
            published == (discarded is None)
        }),
{
}

/// An attempt that is not forced is due when there was none before, and from half a
/// second after the last one on; a forced one is always due. None is due while one
/// runs.
pub proof fn attempts_are_half_a_second_apart(
    last: u64,
    now: u64,
    force: bool,
    running: u64,
)
    requires
        last <= now,
    ensures
        is_due(None, Some(last), now, false) <==> now - last >= 500_000_000,
        is_due(None, Some(last), now, true),
        is_due(None, None, now, force),
        !is_due(Some(running), Some(last), now, force),
        !is_due(Some(running), None, now, force),
{
}

/// An attempt that is started gets an id that the one before it did not have, runs
/// from then on, and counts as the last one; the connection is not touched.
pub proof fn a_started_attempt_is_the_latest(state: IMEState, now: u64, force: bool)
    ensures
        ({
            let (after, id) = state.reconnect_started(now, force);
            &&& id is Some ==> {
                &&& id->0 != state.next_ipc_reconnect_attempt
                &&& after.active_ipc_reconnect_attempt == id
                &&& after.next_ipc_reconnect_attempt == id->0
                &&& after.last_ipc_reconnect_attempt == Some(now)
            }
            &&& id is None ==> after == state
            &&& after.ipc_service == state.ipc_service
            &&& id is Some <==> state.ipc_service is None && is_due(
                state.active_ipc_reconnect_attempt,
                state.last_ipc_reconnect_attempt,
                now,
                force,
            )
        }),
{
}

/// The running attempt ends with its outcome: a connection is published where there
/// is none, and a failure leaves the state without one. Any other attempt changes
/// nothing, and what it has made is given up.
pub proof fn an_attempt_ends_once(state: IMEState, attempt_id: u64, connected: Option<u64>)
    ensures
        ({
            let (after, discarded) = state.reconnect_finished(attempt_id, connected);
            let is_running = state.active_ipc_reconnect_attempt == Some(attempt_id);
            &&& !is_running ==> after == state && discarded == connected
            &&& is_running ==> {
                &&& after.active_ipc_reconnect_attempt is None
                &&& after.next_ipc_reconnect_attempt == state.next_ipc_reconnect_attempt
                &&& after.last_ipc_reconnect_attempt == state.last_ipc_reconnect_attempt
                &&& state.ipc_service is None && connected is Some ==> after.ipc_service == Some(
                    Connection { id: connected->0, active: true },
                ) && discarded is None
                &&& state.ipc_service is Some || connected is None ==> after.ipc_service
                    == state.ipc_service && discarded == connected
            }
        }),
{
}

/// Attempts are numbered one by one, and from zero again behind the last number.
pub proof fn attempts_are_numbered(state: IMEState, now: u64, force: bool)
    requires
        state.reconnect_started(now, force).1 is Some,
    ensures
        ({
            let id = state.reconnect_started(now, force).1->0;
            &&& state.next_ipc_reconnect_attempt < u64::MAX ==> id
                == state.next_ipc_reconnect_attempt + 1
            &&& state.next_ipc_reconnect_attempt == u64::MAX ==> id == 0
        }),
{
}

} // verus!
