//! What holds of a distributed service whatever its callers do.
//!
//! Each statement here is proved over [`State`], the model in which the
//! contracts of [`crate::distributed::Distributed`] are written.

use crate::distributed::State;
use crate::smp::{all_shards, lemma_all_shards, lemma_other_shards, other_shards};
use crate::token::Token;
use vstd::prelude::*;

verus! {

/// A start on `count` shards puts one instance on each shard, so the service
/// maker runs `count` times, once for every shard. A teardown right after
/// runs the cleanup hook on the same shards, once each and each on the shard
/// that owns the instance, and leaves no instance behind.
pub proof fn lemma_start_then_stop(count: nat)
    requires
        1 <= count <= u32::MAX,
    ensures
        State::started(count).wf(),
        State::started(count).shard_count() == count,
        State::started(count).instances().len() == count,
        forall|i: int| 0 <= i < count ==> #[trigger] State::started(count).instances()[i] == i,
        State::started(count).stop().wf(),
        State::started(count).stop().instances().len() == 0,
{
}

/// A start on shard 0 alone puts one instance there and none elsewhere. A
/// teardown right after runs one cleanup, on shard 0.
pub proof fn lemma_start_single_then_stop(count: nat)
    requires
        1 <= count <= u32::MAX,
    ensures
        State::started_single(count).wf(),
        State::started_single(count).shard_count() == count,
        State::started_single(count).instances() == seq![0u32],
        State::started_single(count).stop().instances().len() == 0,
{
}

/// After a start every instance can be borrowed in either mode.
pub proof fn lemma_started_admits_all(count: nat, exclusive: bool)
    requires
        1 <= count <= u32::MAX,
    ensures
        State::started(count).admits_selected(all_shards(count), exclusive),
        State::started_single(count).admits_selected(all_shards(count), exclusive),
        forall|k: int| 0 <= k < count ==> State::started(count).admits(k, exclusive),
{
}

/// From startup to teardown the instances stay where they are: no borrow,
/// and no end of a borrow, adds or removes one. While the service is
/// active there is exactly one instance on every shard it was started on.
pub proof fn lemma_instances_stay_until_stop(
    s: State,
    shard: int,
    shards: Seq<u32>,
    exclusive: bool,
)
    requires
        0 <= shard < s.shard_count(),
    ensures
        s.borrow(shard, exclusive).instances() == s.instances(),
        s.release(shard, exclusive).instances() == s.instances(),
        s.borrow_selected(shards, exclusive).instances() == s.instances(),
        !s.stopped && !s.single ==> s.instances() == all_shards(s.shard_count()),
        !s.stopped && s.single ==> s.instances() == seq![0u32],
        s.stop().instances() == Seq::<u32>::empty(),
{
}

/// A borrow of one shard's instance reaches that shard and no other: every
/// other token, and the set of instances, stay as they were.
pub proof fn lemma_borrow_is_local(s: State, shard: int, exclusive: bool)
    requires
        s.wf(),
        s.admits(shard, exclusive),
    ensures
        s.borrow(shard, exclusive).wf(),
        s.borrow(shard, exclusive).instances() == s.instances(),
        s.borrow(shard, exclusive).tokens.len() == s.tokens.len(),
        forall|k: int|
            0 <= k < s.tokens.len() && k != shard ==> #[trigger] s.borrow(shard, exclusive).tokens[k]
                == s.tokens[k],
        forall|k: int, mode: bool|
            k != shard ==> s.borrow(shard, exclusive).admits(k, mode) == s.admits(k, mode),
{
    let t = s.borrow(shard, exclusive);
    assert forall|k: int| 0 <= k < t.tokens.len() implies (#[trigger] t.tokens[k]).wf() by {
        if k != shard {
            assert(s.tokens[k].wf());
        }
    }
}

/// A map over all shards reaches every shard once, and all the borrows are
/// held at the same time: when the call returns, each instance has one more
/// reader than before.
pub proof fn lemma_map_all_reaches_every_shard(s: State)
    requires
        s.wf(),
        s.admits_selected(all_shards(s.shard_count()), false),
    ensures
        all_shards(s.shard_count()).len() == s.shard_count(),
        forall|i: int| 0 <= i < s.shard_count() ==> #[trigger] all_shards(s.shard_count())[i] == i,
        s.borrow_selected(all_shards(s.shard_count()), false).wf(),
        forall|k: int|
            0 <= k < s.shard_count() ==> (#[trigger] s.borrow_selected(
                all_shards(s.shard_count()),
                false,
            ).tokens[k]).readers() == s.tokens[k].readers() + 1,
{
    let n = s.shard_count();
    let t = s.borrow_selected(all_shards(n), false);
    lemma_all_shards(n);
    assert forall|k: int| 0 <= k < n implies (#[trigger] t.tokens[k]).readers()
        == s.tokens[k].readers() + 1 && t.tokens[k].wf() by {
        assert(all_shards(n)[k] == k as u32);
        assert(all_shards(n).contains(k as u32));
        assert(s.admits(all_shards(n)[k] as int, false));
    }
}

/// A map over the other shards reaches every shard but the current one
/// once: it makes one borrow less than there are shards and leaves the
/// instance of the current shard alone.
pub proof fn lemma_map_others_spares_current(s: State, this: nat, exclusive: bool)
    requires
        s.wf(),
        this < s.shard_count(),
        s.admits_selected(other_shards(s.shard_count(), this), exclusive),
    ensures
        other_shards(s.shard_count(), this).len() == s.shard_count() - 1,
        !other_shards(s.shard_count(), this).contains(this as u32),
        forall|k: u32|
            k < s.shard_count() && k != this ==> other_shards(s.shard_count(), this).contains(k),
        s.borrow_selected(other_shards(s.shard_count(), this), exclusive).tokens[this as int]
            == s.tokens[this as int],
        forall|k: int|
            0 <= k < s.shard_count() && k != this ==> #[trigger] s.borrow_selected(
                other_shards(s.shard_count(), this),
                exclusive,
            ).tokens[k] == s.tokens[k].taken(exclusive),
{
    let n = s.shard_count();
    lemma_other_shards(n, this);
    assert forall|k: int| 0 <= k < n && k != this implies #[trigger] s.borrow_selected(
        other_shards(n, this),
        exclusive,
    ).tokens[k] == s.tokens[k].taken(exclusive) by {
        assert(other_shards(n, this).contains(k as u32));
    }
}

/// While a mutating borrow of a shard's instance is held, no second borrow
/// of that instance is admitted, mutating or not. Other shards are not
/// touched: each shard's instance is guarded on its own.
pub proof fn lemma_writer_excludes_all(s: State, shard: int)
    requires
        s.wf(),
        s.admits(shard, true),
    ensures
        !s.borrow(shard, true).admits(shard, true),
        !s.borrow(shard, true).admits(shard, false),
        forall|k: int, mode: bool|
            k != shard ==> s.borrow(shard, true).admits(k, mode) == s.admits(k, mode),
        s.borrow(shard, true).release(shard, true) == s,
{
    assert(s.borrow(shard, true).release(shard, true).tokens =~= s.tokens);
}

/// After a mutating map over all shards, or over all but the current one,
/// none of the shards it reached admits another borrow until its closure is
/// done.
pub proof fn lemma_writers_exclude_all(s: State, shards: Seq<u32>)
    requires
        s.wf(),
        s.admits_selected(shards, true),
    ensures
        forall|i: int|
            0 <= i < shards.len() ==> {
                &&& !s.borrow_selected(shards, true).admits(#[trigger] shards[i] as int, true)
                &&& !s.borrow_selected(shards, true).admits(shards[i] as int, false)
            },
{
    assert forall|i: int| 0 <= i < shards.len() implies {
        &&& !s.borrow_selected(shards, true).admits(#[trigger] shards[i] as int, true)
        &&& !s.borrow_selected(shards, true).admits(shards[i] as int, false)
    } by {
        assert(s.admits(shards[i] as int, true));
        assert(shards.contains(shards[i]));
    }
}

/// Readers of one instance coexist: while one reading borrow is held, a
/// second one is admitted, and both are then held together. As long as any
/// of them is held no writer is admitted, so what the readers see is not
/// changed under them. When both have ended the token is as it was.
pub proof fn lemma_readers_coexist(s: State, shard: int)
    requires
        s.wf(),
        s.admits(shard, false),
        s.tokens[shard].readers() + 1 < u64::MAX,
    ensures
        s.borrow(shard, false).admits(shard, false),
        s.borrow(shard, false).borrow(shard, false).tokens[shard].readers()
            == s.tokens[shard].readers() + 2,
        !s.borrow(shard, false).admits(shard, true),
        !s.borrow(shard, false).borrow(shard, false).admits(shard, true),
        !s.borrow(shard, false).borrow(shard, false).release(shard, false).admits(shard, true),
        s.borrow(shard, false).borrow(shard, false).instances() == s.instances(),
        s.borrow(shard, false).borrow(shard, false).release(shard, false).release(shard, false)
            == s,
{
    assert(s.tokens[shard].wf());
    let back = s.borrow(shard, false).borrow(shard, false).release(shard, false).release(
        shard,
        false,
    );
    assert(back.tokens =~= s.tokens);
}

/// A reading borrow does not stand in the way of any other reading borrow:
/// a closure that runs on shard `outer` can itself map over shard `inner`,
/// whichever shard that is, while its own borrow is still held.
pub proof fn lemma_nested_map_admitted(s: State, outer: int, inner: int)
    requires
        s.wf(),
        s.admits(outer, false),
        s.admits(inner, false),
        s.tokens[inner].readers() + 1 < u64::MAX,
    ensures
        s.borrow(outer, false).admits(inner, false),
        s.borrow(outer, false).borrow(inner, false).wf(),
{
    lemma_borrow_is_local(s, outer, false);
    lemma_borrow_is_local(s.borrow(outer, false), inner, false);
}

/// What can happen to a distributed service after its start.
pub enum Event {
    /// A mapping operation borrows the instance of `shard` for a closure.
    Borrow { shard: int, exclusive: bool },
    /// A closure on `shard` is done and its borrow ends.
    Release { shard: int, exclusive: bool },
    /// The service is torn down.
    Stop,
}

/// Whether `event` can happen in the state `s`: whether the contract of the
/// operation behind it admits the call.
pub open spec fn enabled(s: State, event: Event) -> bool {
    match event {
        Event::Borrow { shard, exclusive } => !s.stopped && s.admits(shard, exclusive),
        Event::Release { shard, exclusive } => 0 <= shard < s.shard_count() && if exclusive {
            s.tokens[shard] is Exclusive
        } else {
            s.tokens[shard] is Shared
        },
        Event::Stop => !s.stopped,
    }
}

/// The state after `event` has happened in the state `s`.
pub open spec fn next(s: State, event: Event) -> State {
    match event {
        Event::Borrow { shard, exclusive } => s.borrow(shard, exclusive),
        Event::Release { shard, exclusive } => s.release(shard, exclusive),
        Event::Stop => s.stop(),
    }
}

/// The state after the events of `trace` have happened in turn.
pub open spec fn after(s: State, trace: Seq<Event>) -> State
    decreases trace.len(),
{
    if trace.len() == 0 {
        s
    } else {
        next(after(s, trace.drop_last()), trace.last())
    }
}

/// Whether the events of `trace` can happen in turn, starting in `s`.
pub open spec fn admitted(s: State, trace: Seq<Event>) -> bool
    decreases trace.len(),
{
    trace.len() == 0 || (admitted(s, trace.drop_last()) && enabled(
        after(s, trace.drop_last()),
        trace.last(),
    ))
}

/// The number of closures that run against the instance of `shard` in the
/// given mode once `trace` has happened: the borrows that have begun and
/// not ended.
pub open spec fn running(trace: Seq<Event>, shard: int, exclusive: bool) -> int
    decreases trace.len(),
{
    if trace.len() == 0 {
        0
    } else {
        running(trace.drop_last(), shard, exclusive) + match trace.last() {
            Event::Borrow { shard: k, exclusive: mode } => if k == shard && mode == exclusive {
                1int
            } else {
                0int
            },
            Event::Release { shard: k, exclusive: mode } => if k == shard && mode == exclusive {
                -1int
            } else {
                0int
            },
            Event::Stop => 0int,
        }
    }
}

/// Whatever the callers of a service do within the contracts, the token of
/// each shard tells exactly which closures run against the instance of that
/// shard: none, or a number of readers and no writer, or one writer and no
/// reader. So at no moment do two writers, or a writer and a reader, hold
/// the same instance.
pub proof fn lemma_token_counts_running_closures(init: State, trace: Seq<Event>)
    requires
        init.wf(),
        forall|k: int| 0 <= k < init.shard_count() ==> #[trigger] init.tokens[k] == Token::Free,
        admitted(init, trace),
    ensures
        after(init, trace).wf(),
        after(init, trace).shard_count() == init.shard_count(),
        after(init, trace).single == init.single,
        forall|k: int|
            0 <= k < init.shard_count() ==> match #[trigger] after(init, trace).tokens[k] {
                Token::Free => running(trace, k, false) == 0 && running(trace, k, true) == 0,
                Token::Shared(readers) => running(trace, k, false) == readers && running(
                    trace,
                    k,
                    true,
                ) == 0,
                Token::Exclusive => running(trace, k, false) == 0 && running(trace, k, true) == 1,
            },
    decreases trace.len(),
{
    if trace.len() > 0 {
        let before = after(init, trace.drop_last());
        lemma_token_counts_running_closures(init, trace.drop_last());
        let now = after(init, trace);
        assert forall|k: int| 0 <= k < init.shard_count() implies (#[trigger] now.tokens[k]).wf()
            && match now.tokens[k] {
            Token::Free => running(trace, k, false) == 0 && running(trace, k, true) == 0,
            Token::Shared(readers) => running(trace, k, false) == readers && running(
                trace,
                k,
                true,
            ) == 0,
            Token::Exclusive => running(trace, k, false) == 0 && running(trace, k, true) == 1,
        } by {
            assert(before.tokens[k].wf());
        }
    }
}

/// The state after `rounds` maps over all shards in a row, none of whose
/// closures is done yet.
pub open spec fn fan_out(s: State, rounds: nat) -> State
    decreases rounds,
{
    if rounds == 0 {
        s
    } else {
        fan_out(s, (rounds - 1) as nat).borrow_selected(all_shards(s.shard_count()), false)
    }
}

/// The closures that `rounds` maps over all shards run: one for each shard
/// in every round.
pub open spec fn fan_out_targets(count: nat, rounds: nat) -> Seq<u32>
    decreases rounds,
{
    if rounds == 0 {
        Seq::empty()
    } else {
        fan_out_targets(count, (rounds - 1) as nat) + all_shards(count)
    }
}

/// Any number of maps over all shards can be in flight together, as long as
/// no writer holds an instance: each of them is admitted, and together they
/// run one closure for each shard in every round.
pub proof fn lemma_fan_out(s: State, rounds: nat)
    requires
        s.wf(),
        forall|k: int|
            0 <= k < s.shard_count() ==> (#[trigger] s.tokens[k]) !is Exclusive
                && s.tokens[k].readers() + rounds <= u64::MAX,
    ensures
        fan_out(s, rounds).wf(),
        fan_out(s, rounds).shard_count() == s.shard_count(),
        fan_out(s, rounds).instances() == s.instances(),
        forall|k: int|
            0 <= k < s.shard_count() ==> (#[trigger] fan_out(s, rounds).tokens[k]) !is Exclusive
                && fan_out(s, rounds).tokens[k].readers() == s.tokens[k].readers() + rounds,
        rounds > 0 ==> fan_out(s, (rounds - 1) as nat).admits_selected(
            all_shards(s.shard_count()),
            false,
        ),
        fan_out_targets(s.shard_count(), rounds).len() == rounds * s.shard_count(),
    decreases rounds,
{
    let n = s.shard_count();
    if rounds > 0 {
        let prev = fan_out(s, (rounds - 1) as nat);
        lemma_fan_out(s, (rounds - 1) as nat);
        lemma_all_shards(n);
        assert forall|i: int| 0 <= i < all_shards(n).len() implies prev.admits(
            #[trigger] all_shards(n)[i] as int,
            false,
        ) by {
            assert(prev.tokens[i] !is Exclusive);
        }
        let next = fan_out(s, rounds);
        assert forall|k: int| 0 <= k < n implies (#[trigger] next.tokens[k]) !is Exclusive
            && next.tokens[k].readers() == s.tokens[k].readers() + rounds && next.tokens[k].wf() by {
            assert(all_shards(n)[k] == k as u32);
            assert(all_shards(n).contains(k as u32));
            assert(prev.tokens[k] !is Exclusive);
        }
        assert(fan_out_targets(n, rounds).len() == rounds * n) by (nonlinear_arith)
            requires
                fan_out_targets(n, rounds).len() == (rounds - 1) * n + n,
        ;
    } else {
        assert(fan_out_targets(n, rounds).len() == rounds * n) by (nonlinear_arith)
            requires
                fan_out_targets(n, rounds).len() == 0,
                rounds == 0,
        ;
    }
}

/// When a closure on every shard maps over all shards in turn, every one
/// of these maps is admitted while the outer borrows are held, and together
/// they run as many closures as the square of the number of shards.
pub proof fn lemma_many_to_many(count: nat)
    requires
        1 <= count <= u32::MAX,
    ensures
        State::started(count).admits_selected(all_shards(count), false),
        forall|round: nat|
            round < count ==> (#[trigger] fan_out(
                State::started(count).borrow_selected(all_shards(count), false),
                round,
            )).admits_selected(all_shards(count), false),
        fan_out_targets(count, count).len() == count * count,
{
    let s = State::started(count);
    lemma_map_all_reaches_every_shard(s);
    let outer = s.borrow_selected(all_shards(count), false);
    assert forall|k: int| 0 <= k < count implies (#[trigger] outer.tokens[k]) !is Exclusive
        && outer.tokens[k].readers() == 1 by {
        assert(s.tokens[k].readers() == 0);
    }
    assert forall|round: nat| round < count implies (#[trigger] fan_out(
        outer,
        round,
    )).admits_selected(all_shards(count), false) by {
        lemma_fan_out(outer, round + 1);
    }
    lemma_fan_out(outer, count);
}

} // verus!
