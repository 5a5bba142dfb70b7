//! The lifecycle of the monitor: started once, stopped by one shared signal.
//!
//! The controller decides whether a poll loop is to be launched or ended. Its
//! caller runs the loop: it carries out the startup actions, polls at the
//! given interval, and leaves the loop when the signal is raised.

use tokio_util::sync::CancellationToken;
use vstd::prelude::*;
use crate::presence::{plan_startup, startup_actions, MonitorAction, POLL_INTERVAL_MS};

verus! {

/// Seconds that a caller waits for the poll loop to end after a stop.
pub const SHUTDOWN_TIMEOUT_SECS: u64 = 5;

/// The cancellation signal of `tokio_util`, which the controller holds and
/// hands to the poll loop. Nothing inside a token is visible to the proofs.
#[verifier::external_type_specification]
#[verifier::external_body]
pub struct ExCancellationToken(CancellationToken);

/// A new signal.
///
/// Trusted: calls `CancellationToken::new`. Nothing is claimed of the token.
#[verifier::external_body]
fn new_signal() -> CancellationToken {
    CancellationToken::new()
}

/// A second handle to `signal`.
///
/// Trusted: calls `CancellationToken::clone`, which hands out a token on the
/// same shared state: raising either raises both, and the crate's own `==`
/// holds the two to be equal. The contract claims that equality and nothing
/// of the state.
#[verifier::external_body]
fn share_signal(signal: &CancellationToken) -> (shared: CancellationToken)
    ensures
        shared == *signal,
{
    signal.clone()
}

/// Requests cancellation through `signal`.
///
/// Trusted: calls `CancellationToken::cancel`, which changes the state that
/// all handles to the signal share. Nothing is claimed of it.
#[verifier::external_body]
fn raise_signal(signal: &CancellationToken) {
    signal.cancel()
}

/// What a caller needs to run a poll loop.
pub struct MonitorLaunch {
    /// The loop ends when this signal is raised.
    pub signal: CancellationToken,
    /// Milliseconds between two polls.
    pub poll_interval_ms: u64,
    /// What the loop does once, before its first poll.
    pub startup: Vec<MonitorAction>,
}

/// What a caller has to do after a stop.
#[derive(Debug, Clone, Copy, PartialEq, Eq, Structural)]
pub struct MonitorShutdown {
    /// Seconds to wait for the poll loop to end. A loop that has not ended by
    /// then is left alone.
    pub join_timeout_secs: u64,
}

/// Starts and stops the monitor's poll loop.
pub struct EventController {
    cancellation_token: CancellationToken,
    is_running: bool,
}

impl EventController {
    /// Whether the poll loop counts as running.
    pub closed spec fn running(&self) -> bool {
        self.is_running
    }

    /// The controller's one signal, which ends the poll loop when it is
    /// raised.
    pub closed spec fn signal(&self) -> CancellationToken {
        self.cancellation_token
    }

    /// A controller whose poll loop is not running.
    pub fn new() -> (controller: EventController)
        ensures
            !controller.running(),
    {
        EventController { cancellation_token: new_signal(), is_running: false }
    }

    /// Whether the poll loop counts as running.
    pub fn is_running(&self) -> (running: bool)
        ensures
            running == self.running(),
    {
        self.is_running
    }

    /// Starts the monitor. Where it was not running, the result is what the
    /// caller needs to launch the one poll loop. Where it was running
    /// already, nothing changes and there is nothing to launch.
    ///
    /// The signal of every launch is the controller's one signal. Once a stop
    /// has raised it, it stays raised: a loop that is launched after a stop
    /// ends at its first look at the signal.
    pub fn start(&mut self) -> (launch: Option<MonitorLaunch>)
        ensures
            final(self).running(),
            launch is Some <==> !old(self).running(),
            old(self).running() ==> *final(self) == *old(self),
            final(self).signal() == old(self).signal(),
            launch matches Some(l) ==> l.signal == old(self).signal() && l.poll_interval_ms == 1000
                && l.startup.deep_view() == startup_actions(),
    {
        if self.is_running {
            return None;
        }
        let signal = share_signal(&self.cancellation_token);
        self.is_running = true;
        Some(MonitorLaunch { signal, poll_interval_ms: POLL_INTERVAL_MS, startup: plan_startup() })
    }

    /// Stops the monitor. Where it was running, the controller's signal, which
    /// every launch carries, is raised, and the result says how long the
    /// caller waits for the poll loop to end. Where it was not running,
    /// nothing changes and there is nothing to wait for.
    pub fn stop(&mut self) -> (shutdown: Option<MonitorShutdown>)
        ensures
            !final(self).running(),
            shutdown == if old(self).running() {
                Some(MonitorShutdown { join_timeout_secs: 5 })
            } else {
                None
            },
            !old(self).running() ==> *final(self) == *old(self),
            final(self).signal() == old(self).signal(),
    {
        if !self.is_running {
            return None;
        }
        raise_signal(&self.cancellation_token);
        self.is_running = false;
        Some(MonitorShutdown { join_timeout_secs: SHUTDOWN_TIMEOUT_SECS })
    }
}

/// A controller that has been started, with what its poll loop needs.
pub fn spawn_event_controller() -> (started: (EventController, MonitorLaunch))
    ensures
        started.0.running(),
        started.1.signal == started.0.signal(),
        started.1.poll_interval_ms == 1000,
        started.1.startup.deep_view() == startup_actions(),
{
    let mut controller = EventController::new();
    let launch = controller.start().unwrap();
    (controller, launch)
}

} // verus!
