//! Presence monitoring for attached hardware devices.
//!
//! The crate holds the decisions of a device monitor: how two enumeration
//! snapshots are compared, which notifications a connect or disconnect
//! produces, how the outcome of a feature handshake is turned into a readiness
//! report, and which worker owns the protocol session of a device. Timers,
//! transports and the event sink stay with the caller, which performs the
//! actions that these functions return.

pub mod controller;
pub mod device;
pub mod notification;
pub mod presence;
pub mod registry;
pub mod resolution;
pub mod text;

pub use controller::{spawn_event_controller, EventController, MonitorLaunch, MonitorShutdown};
pub use device::{DeviceFeatures, DeviceIdentity, ReadinessVerdict};
pub use notification::Notification;
pub use presence::{MonitorAction, PresenceMonitor};
pub use registry::{Acquired, WorkerRegistry};
pub use resolution::{ResolutionAction, ResolutionEvent, ResolutionTask};
