//! A driver for an application's update loop.
//!
//! The driver runs the application's "advance one tick" operation under a
//! [`RunMode`], stops when a termination request appears in the
//! [`TerminationLog`], and between ticks tells its host how long to stay
//! suspended. Every decision of the loop is a verified function of this
//! crate; the host only performs what a [`Directive`] names.
pub mod driver;
pub mod dynamic_info;
pub mod exit;
pub mod fields;
pub mod laws;
pub mod run_mode;
pub mod runner;
pub mod suspension;
pub mod time;
pub mod type_identity;
pub mod value_info;

pub use driver::{Directive, DriverState, LoopDriver, Outcome};
pub use dynamic_info::DynamicInfo;
pub use exit::{ExitSignal, TerminationLog, TerminationReason};
pub use fields::{Field, NamedField, UnnamedField};
pub use run_mode::{RunMode, ScheduleRunnerSettings};
pub use runner::{ScheduleRunner, ScheduleRunnerPlugin};
pub use suspension::SuspensionStrategy;
pub use value_info::ValueInfo;
