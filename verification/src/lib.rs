//! A TCP load generator's core: a dynamic worker pool that tracks a target
//! number of long-running jobs, and the pacing rules of the connection slots
//! that spread requests evenly over threads and time.

pub mod client;
pub mod pool;
pub mod settings;

pub use client::tcp;
pub use client::tcp::Config;
pub use client::Message;
