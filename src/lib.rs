//! A counting barrier: producers register outstanding units of work with
//! `add`, mark them complete with `done`, and waiters block in `wait` until
//! the count of outstanding work is back at zero.
pub mod counter;
mod monitor;
pub mod wait_group;

pub use counter::{CounterOverflow, CounterUnderflow};
pub use wait_group::WaitGroup;
