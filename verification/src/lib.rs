//! Software fuses.
//!
//! A fuse is a boolean-like latch: it starts in a chosen initial state and
//! can be "zapped" once, after which it reports the opposite value forever.
//! [`Fuse`] is the exclusively-owned latch; [`AtomicFuse`] can be shared
//! between threads.

pub mod atomic;
pub mod error;
pub mod fuse;
pub mod laws;
pub mod state;
pub mod std_specs;

pub use atomic::AtomicFuse;
pub use error::AlreadyZappedError;
pub use fuse::Fuse;
pub use state::LatchState;
