//! Fleet watchdog core: an anomaly-handling state machine, an event-rate
//! metering pipeline that drives it, and the remediation dispatcher that
//! turns state transitions into container-kill actions and upstream
//! notifications.

pub mod anomaly;
pub mod classify;
pub mod dispatch;
pub mod divider;
pub mod meter;
pub mod notify;
pub mod registry;
pub mod sprinkler;

pub use anomaly::Anomaly;
pub use anomaly::AnomalyTransition;
pub use anomaly::ImportantExt;
