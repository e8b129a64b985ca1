//! Container health monitoring and alert dispatch.
//!
//! The crate holds the decisions of a host monitor: the per-container health
//! state machine, the tick that turns a runtime snapshot into alerts, the
//! ordered alert queue, the dispatcher that drains it, and the listener that
//! lets an operator add a note. Everything here works on plain values; the
//! caller owns the clock, the container runtime and the chat channel.

pub mod alert;
pub mod bot;
pub mod cfg;
pub mod health;
pub mod history;
pub mod monitor;
pub mod queue;
pub mod runnable;
pub mod sender;
pub mod state;
pub mod text;

pub use crate::alert::AlertMessage;
pub use crate::cfg::Config;
pub use crate::health::ContainerStatus;
pub use crate::runnable::Runnable;
pub use crate::state::AppContainer;
