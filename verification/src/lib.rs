//! A non-blocking lifecycle controller for one background pruning task.
//!
//! An engine loop polls the controller once per tick. The controller owns the
//! pruning capability while idle, hands it to a background task when a tip is
//! eligible, and takes it back when the task reports over a one-shot channel.
//! While a run is in flight the controller is not idle, which is the signal the
//! engine uses to hold back anything that would write to the store.

pub mod completion;
pub mod controller;
pub mod event;
pub mod lifecycle;
pub mod runs;
pub mod state;

pub use controller::{EnginePruneController, PruneTask};
pub use event::{BlockNumber, EnginePruneEvent, PrunerWithResult};
pub use state::PrunerState;
