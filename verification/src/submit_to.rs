//! The cross-shard dispatch primitive.
//!
//! Work is handed to a shard as a closure that the shard's event loop runs.
//! What this library decides of such a hand-over is where the closure goes
//! and which way it takes; carrying it there is the transport's business.

use crate::api_safety::assert_runtime_is_running;
use crate::smp::Reactor;
use vstd::prelude::*;

verus! {

/// The way a closure takes to the shard that runs it.
#[derive(Clone, Copy, Debug, PartialEq, Eq, Structural)]
pub enum Route {
    /// Through the run queue of the target shard. The closure must be safe
    /// to move between shards. A submission to the current shard takes this
    /// way too, so that it keeps its place among the shard's other tasks.
    Submit,
    /// Spawned on the loop of the current shard, with nothing crossing
    /// between shards.
    Spawn,
}

/// One closure on its way to one shard.
#[derive(Clone, Copy, Debug, PartialEq, Eq, Structural)]
pub struct Dispatch {
    /// The shard whose event loop runs the closure.
    pub shard: u32,
    pub route: Route,
}

/// Runs a closure on the shard `shard_id`: the closure travels through that
/// shard's run queue, also when `shard_id` is the current shard.
///
/// The runtime must be active and `shard_id` one of its shards.
pub fn submit_to(reactor: &Reactor, shard_id: u32) -> (d: Dispatch)
    requires
        reactor.engine_ready,
        shard_id < reactor.shard_count,
    ensures
        d == (Dispatch { shard: shard_id, route: Route::Submit }),
{
    assert_runtime_is_running(reactor);
    Dispatch { shard: shard_id, route: Route::Submit }
}

} // verus!
