//! The rendezvous protocol behind spawning a worker whose initialization may
//! borrow from its creator: the creator blocks until the initialization phase
//! is over, on every exit path, and only then gets the worker's handle back.

pub mod laws;
pub mod protocol;
pub mod signal;

pub use protocol::{Action, CreatorPhase, Event, ExecutionFailure, Invocation, WorkerPhase};
pub use signal::{rendezvous, Consumer, Producer};
