//! Verified coordination core of a share-nothing, shard-per-core runtime.
//!
//! Every decision that the runtime's Rust layer takes is made here, on plain
//! values, and is proved against a contract: arithmetic on clock readings,
//! the state of a timer, the topology of the shards, and above all the
//! per-shard borrow discipline of a service that is distributed over them.

pub mod api_safety;
pub mod args;
pub mod clocks;
pub mod distributed;
pub mod file;
pub mod laws;
pub mod logger;
pub mod smp;
pub mod spawn;
pub mod submit_to;
pub mod timer;
pub mod token;

pub use crate::api_safety::{assert_runtime_is_not_running, assert_runtime_is_running};
pub use crate::args::get_c_args;
pub use crate::clocks::{Clock, Duration, Instant, LowresClock, ManualClock, SteadyClock};
pub use crate::distributed::{Distributed, PeeringShardedService, PeeringShardedServiceMut, State};
pub use crate::file::{DmaBuffer, Flags, OpenOptions, CHUNK_SIZE};
pub use crate::logger::LogLevel;
pub use crate::smp::Reactor;
pub use crate::spawn::spawn;
pub use crate::submit_to::{submit_to, Dispatch, Route};
pub use crate::timer::{Timer, TimerState};
pub use crate::token::Token;
