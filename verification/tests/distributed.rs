use seastar::{Dispatch, Distributed, PeeringShardedService, Reactor, Route, Token};

/// A service that counts in a counter shared by all its instances.
struct CounterService;

impl CounterService {
    fn inc(&self, counter: &mut u32) {
        *counter += 1;
    }

    fn stop(&self, counter: &mut u32) {
        *counter += 1;
    }
}

fn on_shard(count: u32, shard_id: u32) -> Reactor {
    Reactor::new(true, count, shard_id).unwrap()
}

/// Runs the service maker once for each shard that `distr` put an instance
/// on, and returns the instances by shard.
fn make_instances(distr: &Distributed, makes: &mut u32) -> Vec<Option<CounterService>> {
    let mut instances: Vec<Option<CounterService>> = Vec::new();
    for _ in 0..distr.shard_count() {
        instances.push(None);
    }
    for shard in distr.instances() {
        *makes += 1;
        instances[shard as usize] = Some(CounterService);
    }
    instances
}

fn stop_all(
    distr: &mut Distributed,
    reactor: &Reactor,
    instances: &mut Vec<Option<CounterService>>,
    counter: &mut u32,
) -> Vec<u32> {
    let cleanups = distr.stop(reactor);
    for shard in cleanups.iter() {
        let instance = instances[*shard as usize].take().unwrap();
        instance.stop(counter);
    }
    cleanups
}

fn join_all(
    distr: &mut Distributed,
    futs: Vec<PeeringShardedService>,
    instances: &Vec<Option<CounterService>>,
    counter: &mut u32,
) {
    for pss in futs {
        instances[pss.shard() as usize].as_ref().unwrap().inc(counter);
        distr.release(pss);
    }
}

#[test]
fn start_then_stop_makes_and_cleans_one_instance_per_shard() {
    for count in 1..=9u32 {
        let reactor = on_shard(count, 0);
        let mut distr = Distributed::start(&reactor);
        let mut makes = 0;
        let mut counter = 0;
        let mut instances = make_instances(&distr, &mut makes);
        assert_eq!(makes, count);
        assert_eq!(distr.instances(), (0..count).collect::<Vec<u32>>());
        let cleanups = stop_all(&mut distr, &reactor, &mut instances, &mut counter);
        assert_eq!(cleanups, (0..count).collect::<Vec<u32>>());
        assert_eq!(counter, count);
        assert!(distr.is_stopped());
        assert!(distr.instances().is_empty());
        assert!(instances.iter().all(|i| i.is_none()));
    }
}

#[test]
fn start_single_then_stop_makes_and_cleans_one_instance() {
    for count in 1..=5u32 {
        let reactor = on_shard(count, count - 1);
        let mut distr = Distributed::start_single(&reactor);
        let mut makes = 0;
        let mut counter = 0;
        let mut instances = make_instances(&distr, &mut makes);
        assert_eq!(makes, 1);
        assert_eq!(distr.instances(), vec![0]);
        assert_eq!(distr.shard_count(), count);
        let cleanups = stop_all(&mut distr, &reactor, &mut instances, &mut counter);
        assert_eq!(cleanups, vec![0]);
        assert_eq!(counter, 1);
    }
}

#[test]
fn four_shards_start_stop_counts_four() {
    let reactor = on_shard(4, 0);
    let mut distr = Distributed::start(&reactor);
    let mut makes = 0;
    let mut counter = 0;
    let mut instances = make_instances(&distr, &mut makes);
    stop_all(&mut distr, &reactor, &mut instances, &mut counter);
    assert_eq!(counter, 4);
}

#[test]
fn four_shards_start_map_all_stop_counts_eight() {
    let reactor = on_shard(4, 0);
    let mut distr = Distributed::start(&reactor);
    let mut makes = 0;
    let mut counter = 0;
    let mut instances = make_instances(&distr, &mut makes);

    let futs = distr.map_all(&reactor);
    assert_eq!(futs.len(), 4);
    join_all(&mut distr, futs, &instances, &mut counter);
    assert_eq!(counter, 4);

    stop_all(&mut distr, &reactor, &mut instances, &mut counter);
    assert_eq!(counter, 4 + 4);
}

#[test]
fn map_all_returns_one_accessor_per_shard() {
    let reactor = on_shard(6, 2);
    let mut distr = Distributed::start(&reactor);
    let futs = distr.map_all(&reactor);
    let targets: Vec<Dispatch> = futs.iter().map(|pss| pss.dispatch()).collect();
    let expected: Vec<Dispatch> = (0..6)
        .map(|shard| Dispatch {
            shard,
            route: Route::Submit,
        })
        .collect();
    assert_eq!(targets, expected);
    // All six borrows are held together: no instance admits a writer.
    let all = reactor.all_shards();
    assert_eq!(distr.conflict(&all, true), Some(0));
    assert_eq!(distr.conflict(&all, false), None);
    for pss in futs {
        distr.release(pss);
    }
    assert_eq!(distr.conflict(&all, true), None);
}

#[test]
fn map_others_never_reaches_the_current_shard() {
    for count in 1..=5u32 {
        for this in 0..count {
            let reactor = on_shard(count, this);
            let mut distr = Distributed::start(&reactor);
            let futs = distr.map_others(&reactor);
            assert_eq!(futs.len() as u32, count - 1);
            let shards: Vec<u32> = futs.iter().map(|pss| pss.shard()).collect();
            let expected: Vec<u32> = (0..count).filter(|s| *s != this).collect();
            assert_eq!(shards, expected);
            assert!(futs.iter().all(|pss| pss.dispatch().route == Route::Submit));
            // The instance of the current shard is still free.
            assert_eq!(distr.conflict(&vec![this], true), None);
            for pss in futs {
                distr.release(pss);
            }
        }
    }
}

#[test]
fn map_others_mut_borrows_every_other_instance() {
    let reactor = on_shard(4, 1);
    let mut distr = Distributed::start(&reactor);
    let futs = distr.map_others_mut(&reactor);
    let shards: Vec<u32> = futs.iter().map(|pss| pss.shard()).collect();
    assert_eq!(shards, vec![0, 2, 3]);
    assert_eq!(distr.conflict(&vec![1], true), None);
    assert_eq!(distr.conflict(&vec![1, 3, 2], false), Some(3));
    for pss in futs {
        distr.release_mut(pss);
    }
    assert_eq!(distr.conflict(&reactor.all_shards(), true), None);
}

#[test]
fn map_single_reaches_exactly_the_named_shard() {
    let reactor = on_shard(4, 0);
    let mut distr = Distributed::start(&reactor);
    let mut makes = 0;
    let mut counter = 0;
    let instances = make_instances(&distr, &mut makes);
    for shard in 0..reactor.get_count() {
        let pss = distr.map_single(&reactor, shard);
        assert_eq!(
            pss.dispatch(),
            Dispatch {
                shard,
                route: Route::Submit
            }
        );
        // Only the token of that shard is held.
        for other in 0..reactor.get_count() {
            let expected = if other == shard { Some(other) } else { None };
            assert_eq!(distr.conflict(&vec![other], true), expected);
        }
        join_all(&mut distr, vec![pss], &instances, &mut counter);
        assert_eq!(shard + 1, counter);
    }
}

#[test]
fn map_single_to_the_current_shard_still_goes_through_the_queue() {
    let reactor = on_shard(3, 1);
    let mut distr = Distributed::start(&reactor);
    let pss = distr.map_single(&reactor, 1);
    assert_eq!(pss.dispatch().route, Route::Submit);
    distr.release(pss);
    let pss = distr.map_current(&reactor);
    assert_eq!(
        pss.dispatch(),
        Dispatch {
            shard: 1,
            route: Route::Spawn
        }
    );
    distr.release(pss);
}

#[test]
fn second_writer_on_the_same_shard_is_refused() {
    let reactor = on_shard(4, 2);
    let mut distr = Distributed::start(&reactor);

    let writer = distr.map_single_mut(&reactor, 3);
    assert_eq!(distr.conflict(&vec![3], true), Some(3));
    assert_eq!(distr.conflict(&vec![3], false), Some(3));
    assert_eq!(distr.conflict(&reactor.all_shards(), true), Some(3));
    assert_eq!(distr.conflict(&vec![0, 1, 2], true), None);
    distr.release_mut(writer);
    assert_eq!(distr.conflict(&vec![3], true), None);

    let writer = distr.map_current_mut(&reactor);
    assert_eq!(writer.shard(), 2);
    assert_eq!(writer.dispatch().route, Route::Spawn);
    assert_eq!(distr.conflict(&vec![2], true), Some(2));
    assert_eq!(distr.conflict(&reactor.other_shards(), true), None);
    distr.release_mut(writer);

    let writers = distr.map_all_mut(&reactor);
    assert_eq!(writers.len(), 4);
    for shard in 0..4 {
        assert_eq!(distr.conflict(&vec![shard], true), Some(shard));
        assert_eq!(distr.conflict(&vec![shard], false), Some(shard));
    }
    for writer in writers {
        distr.release_mut(writer);
    }
    assert_eq!(distr.conflict(&reactor.all_shards(), true), None);
}

#[test]
fn readers_of_one_instance_coexist() {
    let reactor = on_shard(2, 0);
    let mut distr = Distributed::start(&reactor);
    let first = distr.map_single(&reactor, 1);
    assert_eq!(distr.conflict(&vec![1], false), None);
    let second = distr.map_single(&reactor, 1);
    assert_eq!(first.shard(), second.shard());
    // A writer has to wait for both.
    assert_eq!(distr.conflict(&vec![1], true), Some(1));
    distr.release(first);
    assert_eq!(distr.conflict(&vec![1], true), Some(1));
    distr.release(second);
    assert_eq!(distr.conflict(&vec![1], true), None);
    assert_eq!(distr.instances(), vec![0, 1]);
}

#[test]
fn one_to_one_comm() {
    let reactor = on_shard(4, 0);
    let mut distr = Distributed::start(&reactor);
    let mut makes = 0;
    let mut counter = 0;
    let instances = make_instances(&distr, &mut makes);
    for shard in (0..4).filter(|s| s % 2 == 0) {
        let outer = distr.map_single(&on_shard(4, 0), shard);
        // The closure on `shard` maps over its neighbour.
        let inner = distr.map_single(&on_shard(4, outer.shard()), shard + 1);
        assert_eq!(inner.shard(), shard + 1);
        join_all(&mut distr, vec![inner], &instances, &mut counter);
        distr.release(outer);
        assert_eq!(shard / 2 + 1, counter);
    }
}

#[test]
fn one_to_many_comm() {
    let reactor = on_shard(4, 0);
    let mut distr = Distributed::start(&reactor);
    let mut makes = 0;
    let mut counter = 0;
    let instances = make_instances(&distr, &mut makes);
    let outer = distr.map_single(&reactor, 0);
    let futs = distr.map_all(&on_shard(4, outer.shard()));
    join_all(&mut distr, futs, &instances, &mut counter);
    distr.release(outer);
    assert_eq!(counter, 4);
}

#[test]
fn many_to_one_comm() {
    let reactor = on_shard(4, 0);
    let mut distr = Distributed::start(&reactor);
    let mut makes = 0;
    let mut counter = 0;
    let instances = make_instances(&distr, &mut makes);
    let outer = distr.map_all(&reactor);
    let mut inner = Vec::new();
    for pss in outer.iter() {
        inner.push(distr.map_single(&on_shard(4, pss.shard()), 0));
    }
    join_all(&mut distr, inner, &instances, &mut counter);
    for pss in outer {
        distr.release(pss);
    }
    assert_eq!(counter, 4);
}

#[test]
fn many_to_many_comm() {
    for count in 1..=5u32 {
        let reactor = on_shard(count, 0);
        let mut distr = Distributed::start(&reactor);
        let mut makes = 0;
        let mut counter = 0;
        let instances = make_instances(&distr, &mut makes);
        let outer = distr.map_all(&reactor);
        let mut inner = Vec::new();
        for pss in outer.iter() {
            inner.push(distr.map_all(&on_shard(count, pss.shard())));
        }
        for futs in inner {
            join_all(&mut distr, futs, &instances, &mut counter);
        }
        for pss in outer {
            distr.release(pss);
        }
        assert_eq!(counter, count.pow(2));
        assert_eq!(distr.conflict(&reactor.all_shards(), true), None);
    }
}

#[test]
fn conflict_names_the_first_shard_in_the_given_order() {
    let reactor = on_shard(5, 0);
    let mut distr = Distributed::start(&reactor);
    let w1 = distr.map_single_mut(&reactor, 1);
    let w3 = distr.map_single_mut(&reactor, 3);
    assert_eq!(distr.conflict(&vec![0, 1, 2, 3, 4], false), Some(1));
    assert_eq!(distr.conflict(&vec![4, 3, 2, 1, 0], false), Some(3));
    assert_eq!(distr.conflict(&vec![0, 2, 4], true), None);
    assert_eq!(distr.conflict(&vec![], true), None);
    distr.release_mut(w1);
    assert_eq!(distr.conflict(&vec![0, 1, 2, 3, 4], false), Some(3));
    distr.release_mut(w3);
}

#[test]
fn local_is_the_current_shard() {
    let reactor = on_shard(3, 2);
    let distr = Distributed::start(&reactor);
    assert_eq!(distr.local(&reactor), 2);
    let reactor = on_shard(3, 0);
    let distr = Distributed::start_single(&reactor);
    assert_eq!(distr.local(&reactor), 0);
}

#[test]
fn map_all_reaches_every_shard_of_a_service_started_on_one() {
    let reactor = on_shard(3, 1);
    let mut distr = Distributed::start_single(&reactor);
    assert_eq!(distr.instances(), vec![0]);
    let futs = distr.map_all(&reactor);
    let shards: Vec<u32> = futs.iter().map(|pss| pss.shard()).collect();
    assert_eq!(shards, vec![0, 1, 2]);
    for pss in futs {
        distr.release(pss);
    }
    // Borrows neither add nor remove an instance.
    assert_eq!(distr.instances(), vec![0]);
}

#[test]
fn tokens_follow_the_borrows() {
    let reactor = on_shard(2, 0);
    let mut distr = Distributed::start(&reactor);
    assert_eq!(distr.token(0), Token::Free);
    let first = distr.map_single(&reactor, 0);
    let second = distr.map_current(&reactor);
    assert_eq!(distr.token(0), Token::Shared(2));
    assert_eq!(distr.token(1), Token::Free);
    let writer = distr.map_single_mut(&reactor, 1);
    assert_eq!(distr.token(1), Token::Exclusive);
    distr.release(first);
    assert_eq!(distr.token(0), Token::Shared(1));
    distr.release(second);
    distr.release_mut(writer);
    assert_eq!(distr.token(0), Token::Free);
    assert_eq!(distr.token(1), Token::Free);
    // Tokens outlive the teardown.
    distr.stop(&reactor);
    assert_eq!(distr.token(1), Token::Free);
}
