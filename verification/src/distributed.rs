//! A service distributed over the shards of the runtime.
//!
//! A [`Distributed`] stands for one instance of a service on every shard (or
//! on shard 0 alone). It decides which shards a mapping operation reaches,
//! keeps the exclusivity token of each shard's instance, and says at
//! teardown which instances are to be cleaned up. The instances themselves,
//! and the closures that run against them, live with the runtime: a mapping
//! operation answers with one accessor for each closure to run, and the
//! accessor is handed back when the closure's future has resolved.

use crate::api_safety::assert_runtime_is_running;
use crate::smp::{all_shards, lemma_other_shards, other_shards, Reactor};
use crate::submit_to::{Dispatch, Route};
use crate::token::Token;
use vstd::prelude::*;

verus! {

/// The state of a distributed service: the token of each shard's instance,
/// whether the service was started on shard 0 alone, and whether it has
/// been stopped.
pub struct State {
    pub tokens: Seq<Token>,
    pub single: bool,
    pub stopped: bool,
}

impl State {
    /// There is one well-formed token for each shard, and at least one
    /// shard.
    pub open spec fn wf(self) -> bool {
        &&& 1 <= self.tokens.len() <= u32::MAX
        &&& forall|k: int| 0 <= k < self.tokens.len() ==> (#[trigger] self.tokens[k]).wf()
    }

    /// The number of shards.
    pub open spec fn shard_count(self) -> nat {
        self.tokens.len()
    }

    /// The state right after a start on `count` shards: an instance on every
    /// shard, every token free.
    pub open spec fn started(count: nat) -> State {
        State { tokens: Seq::new(count, |k: int| Token::Free), single: false, stopped: false }
    }

    /// The state right after a start on shard 0 alone, in a runtime of
    /// `count` shards: every shard has its token, all of them free.
    pub open spec fn started_single(count: nat) -> State {
        State { tokens: Seq::new(count, |k: int| Token::Free), single: true, stopped: false }
    }

    /// The shards that hold an instance, in increasing order.
    pub open spec fn instances(self) -> Seq<u32> {
        if self.stopped {
            Seq::empty()
        } else if self.single {
            seq![0u32]
        } else {
            all_shards(self.tokens.len())
        }
    }

    /// The state after teardown.
    pub open spec fn stop(self) -> State {
        State { stopped: true, ..self }
    }

    /// Whether the instance of `shard` can be borrowed in the given mode.
    pub open spec fn admits(self, shard: int, exclusive: bool) -> bool {
        0 <= shard < self.tokens.len() && self.tokens[shard].admits(exclusive)
    }

    /// The state after the instance of `shard` has been borrowed.
    pub open spec fn borrow(self, shard: int, exclusive: bool) -> State {
        State { tokens: self.tokens.update(shard, self.tokens[shard].taken(exclusive)), ..self }
    }

    /// The state after a borrow of the instance of `shard` has ended.
    pub open spec fn release(self, shard: int, exclusive: bool) -> State {
        State {
            tokens: self.tokens.update(
                shard,
                if exclusive {
                    Token::Free
                } else {
                    self.tokens[shard].unshared()
                },
            ),
            ..self
        }
    }

    /// Whether the instance of each of `shards` can be borrowed.
    pub open spec fn admits_selected(self, shards: Seq<u32>, exclusive: bool) -> bool {
        forall|i: int| 0 <= i < shards.len() ==> self.admits(#[trigger] shards[i] as int, exclusive)
    }

    /// The state after the instance of each of `shards` has been borrowed
    /// once.
    pub open spec fn borrow_selected(self, shards: Seq<u32>, exclusive: bool) -> State {
        State {
            tokens: Seq::new(
                self.tokens.len(),
                |k: int|
                    if shards.contains(k as u32) {
                        self.tokens[k].taken(exclusive)
                    } else {
                        self.tokens[k]
                    },
            ),
            ..self
        }
    }
}

/// What a closure gets when it runs against one shard's instance for
/// reading: access to the instance of that shard, which is the shard that
/// runs the closure.
///
/// It lives as long as the closure's future and is then handed back with
/// [`Distributed::release`].
#[derive(Debug)]
pub struct PeeringShardedService {
    dispatch: Dispatch,
}

/// What a closure gets when it runs against one shard's instance for
/// writing.
///
/// It lives as long as the closure's future and is then handed back with
/// [`Distributed::release_mut`].
#[derive(Debug)]
pub struct PeeringShardedServiceMut {
    dispatch: Dispatch,
}

impl View for PeeringShardedService {
    type V = Dispatch;

    /// The shard whose instance is lent, and the way the closure takes
    /// there.
    closed spec fn view(&self) -> Dispatch {
        self.dispatch
    }
}

impl View for PeeringShardedServiceMut {
    type V = Dispatch;

    /// The shard whose instance is lent, and the way the closure takes
    /// there.
    closed spec fn view(&self) -> Dispatch {
        self.dispatch
    }
}

impl PeeringShardedService {
    /// The shard that runs the closure, and how the closure gets there.
    pub fn dispatch(&self) -> (d: Dispatch)
        ensures
            d == self@,
    {
        self.dispatch
    }

    /// The shard whose instance the closure reads.
    pub fn shard(&self) -> (shard: u32)
        ensures
            shard == self@.shard,
    {
        self.dispatch.shard
    }
}

impl PeeringShardedServiceMut {
    /// The shard that runs the closure, and how the closure gets there.
    pub fn dispatch(&self) -> (d: Dispatch)
        ensures
            d == self@,
    {
        self.dispatch
    }

    /// The shard whose instance the closure may change.
    pub fn shard(&self) -> (shard: u32)
        ensures
            shard == self@.shard,
    {
        self.dispatch.shard
    }
}

/// A service distributed amongst all shards of the runtime.
///
/// One can only delegate a mutating map on an instance while nothing else
/// borrows it, and a reading map while no mutating map borrows it: the
/// preconditions of the mapping operations say so, and
/// [`Distributed::conflict`] finds the shard that stands in the way.
#[derive(Debug)]
pub struct Distributed {
    /// One token for each shard. They allow only exclusive writes or shared
    /// reads to the instance of that shard.
    locks: Vec<Token>,
    single: bool,
    stopped: bool,
}

impl View for Distributed {
    type V = State;

    closed spec fn view(&self) -> State {
        State { tokens: self.locks@, single: self.single, stopped: self.stopped }
    }
}

impl Distributed {
    /// The service is in a well-formed state.
    pub open spec fn wf(&self) -> bool {
        self@.wf()
    }

    /// Starts the service, on shard 0 alone if `single` and on every shard
    /// otherwise, with one free token for each shard of the runtime.
    fn start_inner(reactor: &Reactor, single: bool) -> (distr: Self)
        requires
            reactor.wf(),
            reactor.engine_ready,
        ensures
            distr@ == (State {
                tokens: Seq::new(reactor.shard_count as nat, |k: int| Token::Free),
                single,
                stopped: false,
            }),
            distr.wf(),
    {
        assert_runtime_is_running(reactor);
        let mut locks: Vec<Token> = Vec::new();
        let mut shard: u32 = 0;
        while shard < reactor.shard_count
            invariant
                shard <= reactor.shard_count,
                locks@ == Seq::new(shard as nat, |k: int| Token::Free),
            decreases reactor.shard_count - shard,
        {
            locks.push(Token::new());
            shard = shard + 1;
            assert(locks@ =~= Seq::new(shard as nat, |k: int| Token::Free));
        }
        Distributed { locks, single, stopped: false }
    }

    /// Starts a single instance of the service on shard `0`.
    ///
    /// Every shard gets its token, all of them free. The runtime must be
    /// active.
    pub fn start_single(reactor: &Reactor) -> (distr: Self)
        requires
            reactor.wf(),
            reactor.engine_ready,
        ensures
            distr@ == State::started_single(reactor.shard_count as nat),
            distr.wf(),
    {
        Distributed::start_inner(reactor, true)
    }

    /// Starts an instance of the service on each shard.
    ///
    /// Every shard gets its token, all of them free. The runtime must be
    /// active.
    pub fn start(reactor: &Reactor) -> (distr: Self)
        requires
            reactor.wf(),
            reactor.engine_ready,
        ensures
            distr@ == State::started(reactor.shard_count as nat),
            distr.wf(),
    {
        Distributed::start_inner(reactor, false)
    }

    /// The number of shards of the runtime that the service was started in.
    pub fn shard_count(&self) -> (count: u32)
        requires
            self.wf(),
        ensures
            count == self@.shard_count(),
    {
        let count = self.locks.len();
        count as u32
    }

    /// The token of the instance of `shard`.
    pub fn token(&self, shard: u32) -> (token: Token)
        requires
            self.wf(),
            shard < self@.shard_count(),
        ensures
            token == self@.tokens[shard as int],
    {
        self.locks[shard as usize]
    }

    /// Whether the service has been stopped.
    pub fn is_stopped(&self) -> (stopped: bool)
        ensures
            stopped == self@.stopped,
    {
        self.stopped
    }

    /// The shards that hold an instance of the service, in increasing order:
    /// the shards on which the service maker runs at startup, once each, and
    /// on which the cleanup hook runs at teardown.
    pub fn instances(&self) -> (shards: Vec<u32>)
        requires
            self.wf(),
        ensures
            shards@ == self@.instances(),
    {
        let mut shards: Vec<u32> = Vec::new();
        if self.stopped {
        } else if self.single {
            shards.push(0);
            assert(shards@ =~= seq![0u32]);
        } else {
            let count = self.shard_count();
            let mut shard: u32 = 0;
            while shard < count
                invariant
                    shard <= count,
                    shards@ == all_shards(shard as nat),
                decreases count - shard,
            {
                shards.push(shard);
                shard = shard + 1;
                assert(shards@ =~= all_shards(shard as nat));
            }
        }
        shards
    }

    /// Returns the shard whose instance is local to the caller: the current
    /// shard, which must hold an instance.
    pub fn local(&self, reactor: &Reactor) -> (shard: u32)
        requires
            self.wf(),
            reactor.engine_ready,
            self@.instances().contains(reactor.shard_id),
        ensures
            shard == reactor.shard_id,
    {
        reactor.this_shard_id()
    }

    /// What every mapping operation asks for: the service is well formed and
    /// has not been stopped, and the caller runs inside the active runtime
    /// that the service was started in.
    pub open spec fn usable_from(&self, reactor: &Reactor) -> bool {
        &&& self.wf()
        &&& !self@.stopped
        &&& reactor.wf()
        &&& reactor.engine_ready
        &&& reactor.shard_count == self@.shard_count()
    }

    /// Looks for a shard among `shards` whose instance cannot be borrowed in
    /// the given mode, and returns the first one in the order of `shards`.
    /// Returns `None` exactly when every one of them can be borrowed.
    pub fn conflict(&self, shards: &Vec<u32>, exclusive: bool) -> (found: Option<u32>)
        requires
            self.wf(),
            forall|i: int| 0 <= i < shards@.len() ==> shards@[i] < self@.shard_count(),
        ensures
            found is None <==> self@.admits_selected(shards@, exclusive),
            found matches Some(shard) ==> exists|i: int|
                {
                    &&& 0 <= i < shards@.len()
                    &&& #[trigger] shards@[i] == shard
                    &&& !self@.admits(shard as int, exclusive)
                    &&& self@.admits_selected(shards@.take(i), exclusive)
                },
    {
        let mut i: usize = 0;
        while i < shards.len()
            invariant
                i <= shards@.len(),
                self.wf(),
                forall|j: int| 0 <= j < shards@.len() ==> shards@[j] < self@.shard_count(),
                self@.admits_selected(shards@.take(i as int), exclusive),
            decreases shards@.len() - i,
        {
            let shard = shards[i];
            if !self.locks[shard as usize].can_acquire(exclusive) {
                assert(!self@.admits(shards@[i as int] as int, exclusive));
                return Some(shard);
            }
            proof {
                let next = shards@.take(i + 1);
                assert forall|j: int| 0 <= j < next.len() implies self@.admits(
                    #[trigger] next[j] as int,
                    exclusive,
                ) by {
                    if j < i {
                        assert(shards@.take(i as int)[j] == next[j]);
                    }
                }
            }
            i = i + 1;
        }
        assert(shards@.take(i as int) =~= shards@);
        None
    }

    /// Borrows the instance of `shard_id` for a reading closure that is
    /// submitted to that shard.
    fn submit_to(&mut self, reactor: &Reactor, shard_id: u32) -> (pss: PeeringShardedService)
        requires
            old(self).usable_from(reactor),
            old(self)@.admits(shard_id as int, false),
        ensures
            final(self)@ == old(self)@.borrow(shard_id as int, false),
            final(self).wf(),
            pss@ == (Dispatch { shard: shard_id, route: Route::Submit }),
    {
        assert_runtime_is_running(reactor);
        let dispatch = crate::submit_to::submit_to(reactor, shard_id);
        let mut lock = self.locks[shard_id as usize];
        let acquired = lock.try_acquire_shared();
        assert(acquired);
        self.locks.set(shard_id as usize, lock);
        PeeringShardedService { dispatch }
    }

    /// Borrows the instance of `shard_id` for a mutating closure that is
    /// submitted to that shard.
    fn submit_to_mut(&mut self, reactor: &Reactor, shard_id: u32) -> (pss: PeeringShardedServiceMut)
        requires
            old(self).usable_from(reactor),
            old(self)@.admits(shard_id as int, true),
        ensures
            final(self)@ == old(self)@.borrow(shard_id as int, true),
            final(self).wf(),
            pss@ == (Dispatch { shard: shard_id, route: Route::Submit }),
    {
        assert_runtime_is_running(reactor);
        let dispatch = crate::submit_to::submit_to(reactor, shard_id);
        let mut lock = self.locks[shard_id as usize];
        let acquired = lock.try_acquire_exclusive();
        assert(acquired);
        self.locks.set(shard_id as usize, lock);
        PeeringShardedServiceMut { dispatch }
    }

    /// Applies a map function only to the service instance on the provided
    /// shard: borrows that instance for reading and returns the accessor for
    /// the one closure to run, which travels through the shard's run queue.
    ///
    /// No writer may hold the instance.
    pub fn map_single(&mut self, reactor: &Reactor, shard_id: u32) -> (pss: PeeringShardedService)
        requires
            old(self).usable_from(reactor),
            old(self)@.admits(shard_id as int, false),
        ensures
            final(self)@ == old(self)@.borrow(shard_id as int, false),
            final(self).wf(),
            pss@ == (Dispatch { shard: shard_id, route: Route::Submit }),
    {
        self.submit_to(reactor, shard_id)
    }

    /// Applies a mutating map function only to the service instance on the
    /// provided shard: borrows that instance for writing and returns the
    /// accessor for the one closure to run.
    ///
    /// Nothing may hold the instance.
    pub fn map_single_mut(&mut self, reactor: &Reactor, shard_id: u32) -> (pss:
        PeeringShardedServiceMut)
        requires
            old(self).usable_from(reactor),
            old(self)@.admits(shard_id as int, true),
        ensures
            final(self)@ == old(self)@.borrow(shard_id as int, true),
            final(self).wf(),
            pss@ == (Dispatch { shard: shard_id, route: Route::Submit }),
    {
        self.submit_to_mut(reactor, shard_id)
    }

    /// Like `map_single` but for the current shard: the closure is spawned
    /// on the current shard's loop and crosses no shard boundary.
    pub fn map_current(&mut self, reactor: &Reactor) -> (pss: PeeringShardedService)
        requires
            old(self).usable_from(reactor),
            old(self)@.admits(reactor.shard_id as int, false),
        ensures
            final(self)@ == old(self)@.borrow(reactor.shard_id as int, false),
            final(self).wf(),
            pss@ == (Dispatch { shard: reactor.shard_id, route: Route::Spawn }),
    {
        assert_runtime_is_running(reactor);
        let dispatch = crate::spawn::spawn(reactor);
        let mut lock = self.locks[dispatch.shard as usize];
        let acquired = lock.try_acquire_shared();
        assert(acquired);
        self.locks.set(dispatch.shard as usize, lock);
        PeeringShardedService { dispatch }
    }

    /// Like `map_current` but borrows the instance for writing.
    pub fn map_current_mut(&mut self, reactor: &Reactor) -> (pss: PeeringShardedServiceMut)
        requires
            old(self).usable_from(reactor),
            old(self)@.admits(reactor.shard_id as int, true),
        ensures
            final(self)@ == old(self)@.borrow(reactor.shard_id as int, true),
            final(self).wf(),
            pss@ == (Dispatch { shard: reactor.shard_id, route: Route::Spawn }),
    {
        assert_runtime_is_running(reactor);
        let dispatch = crate::spawn::spawn(reactor);
        let mut lock = self.locks[dispatch.shard as usize];
        let acquired = lock.try_acquire_exclusive();
        assert(acquired);
        self.locks.set(dispatch.shard as usize, lock);
        PeeringShardedServiceMut { dispatch }
    }

    /// Borrows the instance of each of `shards` for reading, in the order
    /// given, and returns one accessor for each.
    fn map_selected(&mut self, reactor: &Reactor, shards: &Vec<u32>) -> (res: Vec<PeeringShardedService>)
        requires
            old(self).usable_from(reactor),
            shards@.no_duplicates(),
            old(self)@.admits_selected(shards@, false),
        ensures
            final(self)@ == old(self)@.borrow_selected(shards@, false),
            final(self).wf(),
            res@.len() == shards@.len(),
            forall|i: int|
                0 <= i < shards@.len() ==> (#[trigger] res@[i])@ == (Dispatch {
                    shard: shards@[i],
                    route: Route::Submit,
                }),
    {
        assert_runtime_is_running(reactor);
        let ghost start = self@;
        let mut res: Vec<PeeringShardedService> = Vec::new();
        let mut i: usize = 0;
        assert(self@ =~= start.borrow_selected(shards@.take(0), false)) by {
            assert(self@.tokens =~= start.borrow_selected(shards@.take(0), false).tokens);
        }
        while i < shards.len()
            invariant
                i <= shards@.len(),
                start.wf(),
                !start.stopped,
                reactor.wf(),
                reactor.engine_ready,
                reactor.shard_count == start.shard_count(),
                shards@.no_duplicates(),
                start.admits_selected(shards@, false),
                self@ == start.borrow_selected(shards@.take(i as int), false),
                self.wf(),
                res@.len() == i,
                forall|j: int|
                    0 <= j < i ==> (#[trigger] res@[j])@ == (Dispatch {
                        shard: shards@[j],
                        route: Route::Submit,
                    }),
            decreases shards@.len() - i,
        {
            let shard = shards[i];
            let ghost before = self@;
            proof {
                assert(start.admits(shards@[i as int] as int, false));
                if shards@.take(i as int).contains(shard) {
                    let j = choose|j: int| 0 <= j < i && shards@.take(i as int)[j] == shard;
                    assert(shards@[j] == shards@[i as int]);
                }
                assert(before.tokens[shard as int] == start.tokens[shard as int]);
            }
            let pss = self.map_single(reactor, shard);
            res.push(pss);
            proof {
                let done = shards@.take(i as int);
                let next = shards@.take(i + 1);
                assert(next =~= done.push(shard));
                assert forall|k: int| 0 <= k < start.tokens.len() implies self@.tokens[k]
                    == start.borrow_selected(next, false).tokens[k] by {
                    if k == shard {
                        assert(next[i as int] == shard);
                        assert(next.contains(k as u32));
                    } else if done.contains(k as u32) {
                        let j = choose|j: int| 0 <= j < done.len() && done[j] == k as u32;
                        assert(next[j] == k as u32);
                        assert(next.contains(k as u32));
                    } else {
                        if next.contains(k as u32) {
                            let j = choose|j: int| 0 <= j < next.len() && next[j] == k as u32;
                            if j < i {
                                assert(done[j] == k as u32);
                            }
                        }
                    }
                }
                assert(self@.tokens =~= start.borrow_selected(next, false).tokens);
            }
            i = i + 1;
        }
        assert(shards@.take(i as int) =~= shards@);
        res
    }

    /// Borrows the instance of each of `shards` for writing, in the order
    /// given, and returns one accessor for each.
    fn map_selected_mut(&mut self, reactor: &Reactor, shards: &Vec<u32>) -> (res: Vec<PeeringShardedServiceMut>)
        requires
            old(self).usable_from(reactor),
            shards@.no_duplicates(),
            old(self)@.admits_selected(shards@, true),
        ensures
            final(self)@ == old(self)@.borrow_selected(shards@, true),
            final(self).wf(),
            res@.len() == shards@.len(),
            forall|i: int|
                0 <= i < shards@.len() ==> (#[trigger] res@[i])@ == (Dispatch {
                    shard: shards@[i],
                    route: Route::Submit,
                }),
    {
        assert_runtime_is_running(reactor);
        let ghost start = self@;
        let mut res: Vec<PeeringShardedServiceMut> = Vec::new();
        let mut i: usize = 0;
        assert(self@ =~= start.borrow_selected(shards@.take(0), true)) by {
            assert(self@.tokens =~= start.borrow_selected(shards@.take(0), true).tokens);
        }
        while i < shards.len()
            invariant
                i <= shards@.len(),
                start.wf(),
                !start.stopped,
                reactor.wf(),
                reactor.engine_ready,
                reactor.shard_count == start.shard_count(),
                shards@.no_duplicates(),
                start.admits_selected(shards@, true),
                self@ == start.borrow_selected(shards@.take(i as int), true),
                self.wf(),
                res@.len() == i,
                forall|j: int|
                    0 <= j < i ==> (#[trigger] res@[j])@ == (Dispatch {
                        shard: shards@[j],
                        route: Route::Submit,
                    }),
            decreases shards@.len() - i,
        {
            let shard = shards[i];
            let ghost before = self@;
            proof {
                assert(start.admits(shards@[i as int] as int, true));
                if shards@.take(i as int).contains(shard) {
                    let j = choose|j: int| 0 <= j < i && shards@.take(i as int)[j] == shard;
                    assert(shards@[j] == shards@[i as int]);
                }
                assert(before.tokens[shard as int] == start.tokens[shard as int]);
            }
            let pss = self.submit_to_mut(reactor, shard);
            res.push(pss);
            proof {
                let done = shards@.take(i as int);
                let next = shards@.take(i + 1);
                assert(next =~= done.push(shard));
                assert forall|k: int| 0 <= k < start.tokens.len() implies self@.tokens[k]
                    == start.borrow_selected(next, true).tokens[k] by {
                    if k == shard {
                        assert(next[i as int] == shard);
                        assert(next.contains(k as u32));
                    } else if done.contains(k as u32) {
                        let j = choose|j: int| 0 <= j < done.len() && done[j] == k as u32;
                        assert(next[j] == k as u32);
                        assert(next.contains(k as u32));
                    } else {
                        if next.contains(k as u32) {
                            let j = choose|j: int| 0 <= j < next.len() && next[j] == k as u32;
                            if j < i {
                                assert(done[j] == k as u32);
                            }
                        }
                    }
                }
                assert(self@.tokens =~= start.borrow_selected(next, true).tokens);
            }
            i = i + 1;
        }
        assert(shards@.take(i as int) =~= shards@);
        res
    }

    /// Applies a map function to all instances of the service: borrows every
    /// instance for reading and returns one accessor for each shard, in the
    /// order of the shards. The closures all run concurrently; the caller
    /// joins their futures.
    ///
    /// No writer may hold any instance.
    pub fn map_all(&mut self, reactor: &Reactor) -> (res: Vec<PeeringShardedService>)
        requires
            old(self).usable_from(reactor),
            old(self)@.admits_selected(all_shards(old(self)@.shard_count()), false),
        ensures
            final(self)@ == old(self)@.borrow_selected(all_shards(old(self)@.shard_count()), false),
            final(self).wf(),
            res@.len() == old(self)@.shard_count(),
            forall|i: int|
                0 <= i < res@.len() ==> (#[trigger] res@[i])@ == (Dispatch {
                    shard: i as u32,
                    route: Route::Submit,
                }),
    {
        let shards = reactor.all_shards();
        self.map_selected(reactor, &shards)
    }

    /// Applies a map function to all instances of the service except the one
    /// on the current shard, and returns one accessor for each of the other
    /// shards, in the order of the shards.
    ///
    /// No writer may hold any of these instances.
    pub fn map_others(&mut self, reactor: &Reactor) -> (res: Vec<PeeringShardedService>)
        requires
            old(self).usable_from(reactor),
            old(self)@.admits_selected(
                other_shards(old(self)@.shard_count(), reactor.shard_id as nat),
                false,
            ),
        ensures
            final(self)@ == old(self)@.borrow_selected(
                other_shards(old(self)@.shard_count(), reactor.shard_id as nat),
                false,
            ),
            final(self).wf(),
            res@.len() == old(self)@.shard_count() - 1,
            forall|i: int|
                0 <= i < res@.len() ==> (#[trigger] res@[i])@ == (Dispatch {
                    shard: other_shards(old(self)@.shard_count(), reactor.shard_id as nat)[i],
                    route: Route::Submit,
                }),
            forall|i: int| 0 <= i < res@.len() ==> (#[trigger] res@[i])@.shard != reactor.shard_id,
    {
        proof {
            lemma_other_shards(old(self)@.shard_count(), reactor.shard_id as nat);
        }
        let shards = reactor.other_shards();
        let res = self.map_selected(reactor, &shards);
        proof {
            assert forall|i: int| 0 <= i < res@.len() implies (#[trigger] res@[i])@.shard
                != reactor.shard_id by {
                assert(shards@.contains(shards@[i]));
            }
        }
        res
    }

    /// Applies a mutating map function to all instances of the service: borrows
    /// every instance for writing and returns one accessor for each shard, in
    /// the order of the shards.
    ///
    /// Nothing may hold any instance.
    pub fn map_all_mut(&mut self, reactor: &Reactor) -> (res: Vec<PeeringShardedServiceMut>)
        requires
            old(self).usable_from(reactor),
            old(self)@.admits_selected(all_shards(old(self)@.shard_count()), true),
        ensures
            final(self)@ == old(self)@.borrow_selected(all_shards(old(self)@.shard_count()), true),
            final(self).wf(),
            res@.len() == old(self)@.shard_count(),
            forall|i: int|
                0 <= i < res@.len() ==> (#[trigger] res@[i])@ == (Dispatch {
                    shard: i as u32,
                    route: Route::Submit,
                }),
    {
        let shards = reactor.all_shards();
        self.map_selected_mut(reactor, &shards)
    }

    /// Applies a mutating map function to all instances of the service except
    /// the one on the current shard.
    ///
    /// Nothing may hold any of these instances.
    pub fn map_others_mut(&mut self, reactor: &Reactor) -> (res: Vec<PeeringShardedServiceMut>)
        requires
            old(self).usable_from(reactor),
            old(self)@.admits_selected(
                other_shards(old(self)@.shard_count(), reactor.shard_id as nat),
                true,
            ),
        ensures
            final(self)@ == old(self)@.borrow_selected(
                other_shards(old(self)@.shard_count(), reactor.shard_id as nat),
                true,
            ),
            final(self).wf(),
            res@.len() == old(self)@.shard_count() - 1,
            forall|i: int|
                0 <= i < res@.len() ==> (#[trigger] res@[i])@ == (Dispatch {
                    shard: other_shards(old(self)@.shard_count(), reactor.shard_id as nat)[i],
                    route: Route::Submit,
                }),
            forall|i: int| 0 <= i < res@.len() ==> (#[trigger] res@[i])@.shard != reactor.shard_id,
    {
        proof {
            lemma_other_shards(old(self)@.shard_count(), reactor.shard_id as nat);
        }
        let shards = reactor.other_shards();
        let res = self.map_selected_mut(reactor, &shards);
        proof {
            assert forall|i: int| 0 <= i < res@.len() implies (#[trigger] res@[i])@.shard
                != reactor.shard_id by {
                assert(shards@.contains(shards@[i]));
            }
        }
        res
    }

    /// Ends the borrow of a reading closure whose future has resolved.
    ///
    /// The accessor must come from this service and be handed back once.
    pub fn release(&mut self, pss: PeeringShardedService)
        requires
            old(self).wf(),
            pss@.shard < old(self)@.shard_count(),
            old(self)@.tokens[pss@.shard as int] is Shared,
        ensures
            final(self)@ == old(self)@.release(pss@.shard as int, false),
            final(self).wf(),
    {
        let shard = pss.dispatch.shard as usize;
        let mut lock = self.locks[shard];
        lock.release_shared();
        self.locks.set(shard, lock);
    }

    /// Ends the borrow of a mutating closure whose future has resolved.
    ///
    /// The accessor must come from this service and be handed back once.
    pub fn release_mut(&mut self, pss: PeeringShardedServiceMut)
        requires
            old(self).wf(),
            pss@.shard < old(self)@.shard_count(),
            old(self)@.tokens[pss@.shard as int] is Exclusive,
        ensures
            final(self)@ == old(self)@.release(pss@.shard as int, true),
            final(self).wf(),
    {
        let shard = pss.dispatch.shard as usize;
        let mut lock = self.locks[shard];
        lock.release_exclusive();
        self.locks.set(shard, lock);
    }

    /// Stops the service on all shards on which it was run, and returns
    /// those shards: on each of them the cleanup hook of the instance runs
    /// once, and the instance is then freed.
    ///
    /// This must be called exactly once, when the service is no longer to be
    /// used. The runtime must be active.
    pub fn stop(&mut self, reactor: &Reactor) -> (cleanups: Vec<u32>)
        requires
            old(self).wf(),
            reactor.engine_ready,
            !old(self)@.stopped,
        ensures
            cleanups@ == old(self)@.instances(),
            final(self)@ == old(self)@.stop(),
            final(self).wf(),
    {
        assert_runtime_is_running(reactor);
        let cleanups = self.instances();
        self.stopped = true;
        cleanups
    }
}

} // verus!
