//! Decision core of a loop that keeps a GPU compositor's scene in step with a
//! native window: which events reach the application, when a scene is
//! resubmitted, which epoch stamps it, and when the compositor is torn down.
//! The window, the GL context and the compositor itself are driven by the
//! caller, which performs the actions that the `Runner` hands back.
mod runner;
mod session;

pub use runner::{Action, EpochPolicy, EventKind, LoopState, Phase, Runner, Step};
pub use session::Delivery;
