//! Shard identity and topology.
//!
//! A shard is one cooperative, single-threaded execution context. Shards are
//! numbered densely from zero. What the reactor tells a thread about itself
//! is gathered in a [`Reactor`] record, which the operations of this library
//! take as an argument: they read the reactor through it and nowhere else.

use vstd::prelude::*;

verus! {

/// The increasing sequence of all shard ids below `count`.
pub open spec fn all_shards(count: nat) -> Seq<u32> {
    Seq::new(count, |i: int| i as u32)
}

/// The increasing sequence of all shard ids below `count` but `this`.
pub open spec fn other_shards(count: nat, this: nat) -> Seq<u32>
    recommends
        this < count,
{
    Seq::new(
        (count - 1) as nat,
        |i: int|
            if i < this {
                i as u32
            } else {
                (i + 1) as u32
            },
    )
}

/// `all_shards(count)` holds every shard id below `count` once, in order.
pub proof fn lemma_all_shards(count: nat)
    requires
        count <= u32::MAX,
    ensures
        all_shards(count).len() == count,
        forall|i: int| 0 <= i < count ==> #[trigger] all_shards(count)[i] == i,
        forall|s: u32| all_shards(count).contains(s) <==> s < count,
{
    let v = all_shards(count);
    assert forall|s: u32| v.contains(s) <==> s < count by {
        if s < count {
            assert(v[s as int] == s);
        }
    }
}

/// `other_shards(count, this)` holds every shard id below `count` except
/// `this` once, in increasing order, and never `this`.
pub proof fn lemma_other_shards(count: nat, this: nat)
    requires
        this < count <= u32::MAX,
    ensures
        other_shards(count, this).len() == count - 1,
        !other_shards(count, this).contains(this as u32),
        forall|s: u32| other_shards(count, this).contains(s) <==> s < count && s != this,
        forall|i: int, j: int|
            0 <= i < j < count - 1 ==> other_shards(count, this)[i] < other_shards(
                count,
                this,
            )[j],
{
    let v = other_shards(count, this);
    assert forall|s: u32| v.contains(s) <==> s < count && s != this by {
        if s < count && s != this {
            if s < this {
                assert(v[s as int] == s);
            } else {
                assert(v[s - 1] == s);
            }
        }
    }
}

/// What the reactor reports to the calling thread: whether the thread runs
/// inside an active runtime, how many shards the runtime has, and which of
/// them the thread is.
#[derive(Clone, Copy, Debug, PartialEq, Eq)]
pub struct Reactor {
    pub engine_ready: bool,
    pub shard_count: u32,
    pub shard_id: u32,
}

impl Reactor {
    /// Inside an active runtime the calling thread is one of its shards.
    pub open spec fn wf(&self) -> bool {
        self.engine_ready ==> self.shard_id < self.shard_count
    }

    /// Records what the reactor reported. Returns `None` exactly when the
    /// report is impossible: an active runtime whose current shard is not
    /// one of its shards.
    pub fn new(engine_ready: bool, shard_count: u32, shard_id: u32) -> (r: Option<Self>)
        ensures
            r is Some <==> (engine_ready ==> shard_id < shard_count),
            r is Some ==> r->0 == (Reactor { engine_ready, shard_count, shard_id }) && r->0.wf(),
    {
        if engine_ready && shard_id >= shard_count {
            None
        } else {
            Some(Reactor { engine_ready, shard_count, shard_id })
        }
    }

    /// Whether the calling thread is within an active runtime.
    pub fn engine_is_ready(&self) -> (b: bool)
        ensures
            b == self.engine_ready,
    {
        self.engine_ready
    }

    /// Returns the total number of shards.
    pub fn get_count(&self) -> (n: u32)
        ensures
            n == self.shard_count,
    {
        self.shard_count
    }

    /// Returns the id of the current shard.
    pub fn this_shard_id(&self) -> (id: u32)
        ensures
            id == self.shard_id,
    {
        self.shard_id
    }

    /// The ids of all shards, in increasing order.
    pub fn all_shards(&self) -> (shards: Vec<u32>)
        ensures
            shards@ == all_shards(self.shard_count as nat),
    {
        let mut shards: Vec<u32> = Vec::new();
        let mut shard: u32 = 0;
        while shard < self.shard_count
            invariant
                shard <= self.shard_count,
                shards@ == all_shards(shard as nat),
            decreases self.shard_count - shard,
        {
            shards.push(shard);
            shard = shard + 1;
            assert(shards@ =~= all_shards(shard as nat));
        }
        shards
    }

    /// The ids of all shards but the current one, in increasing order.
    pub fn other_shards(&self) -> (shards: Vec<u32>)
        requires
            self.shard_id < self.shard_count,
        ensures
            shards@ == other_shards(self.shard_count as nat, self.shard_id as nat),
    {
        let mut shards: Vec<u32> = Vec::new();
        let mut shard: u32 = 0;
        while shard < self.shard_count
            invariant
                shard <= self.shard_count,
                self.shard_id < self.shard_count,
                shard <= self.shard_id ==> shards@ == all_shards(shard as nat),
                shard > self.shard_id ==> shards@ == other_shards(
                    shard as nat,
                    self.shard_id as nat,
                ),
            decreases self.shard_count - shard,
        {
            if shard != self.shard_id {
                shards.push(shard);
            }
            shard = shard + 1;
            proof {
                if shard <= self.shard_id {
                    assert(shards@ =~= all_shards(shard as nat));
                } else {
                    assert(shards@ =~= other_shards(shard as nat, self.shard_id as nat));
                }
            }
        }
        shards
    }
}

} // verus!
