//! An in-process message channel with any number of producers and a
//! single consumer: unbounded capacity, first-in-first-out delivery,
//! a blocking receive, and cooperative shutdown once every producer
//! handle is gone.
//!
//! All queue and counter logic is verified. The shared-memory core —
//! one mutex and one condition variable from the standard library —
//! stands behind a small trusted monitor that runs verified critical
//! sections on the guarded state.

mod monitor;

pub mod channel;
pub mod laws;
pub mod state;

pub use channel::channel;
pub use channel::Receiver;
pub use channel::Sender;
