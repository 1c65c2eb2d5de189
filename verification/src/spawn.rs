//! The same-shard spawn primitive.

use crate::api_safety::assert_runtime_is_running;
use crate::smp::Reactor;
use crate::submit_to::{Dispatch, Route};
use vstd::prelude::*;

verus! {

/// Spawns a task that runs concurrently with the caller on the loop of the
/// current shard. Nothing crosses between shards, so the task need not be
/// safe to move between them.
///
/// The runtime must be active.
pub fn spawn(reactor: &Reactor) -> (d: Dispatch)
    requires
        reactor.wf(),
        reactor.engine_ready,
    ensures
        d == (Dispatch { shard: reactor.shard_id, route: Route::Spawn }),
        d.shard < reactor.shard_count,
{
    assert_runtime_is_running(reactor);
    Dispatch { shard: reactor.this_shard_id(), route: Route::Spawn }
}

} // verus!
