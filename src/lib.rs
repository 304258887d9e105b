//! A single-slot concurrent value container: reads never block, writes are
//! serialised behind a mutex that does not poison.
pub mod lock;
pub mod mutex;
pub mod pending;
pub mod smr;
pub mod spin_mutex;

pub use lock::{LfrLock, LfrLockFactory, WriteGuard};
pub use smr_swap::ReadGuard;
