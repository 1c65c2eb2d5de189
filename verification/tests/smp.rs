use seastar::{
    assert_runtime_is_not_running, assert_runtime_is_running, spawn, submit_to, Dispatch, Reactor,
    Route,
};

#[test]
fn reactor_outside_the_runtime() {
    let reactor = Reactor::new(false, 0, 0).unwrap();
    assert!(!reactor.engine_is_ready());
    assert_eq!(reactor.this_shard_id(), 0);
    assert_eq!(reactor.get_count(), 0);
    assert!(reactor.all_shards().is_empty());
}

#[test]
fn reactor_inside_the_runtime() {
    let reactor = Reactor::new(true, 4, 3).unwrap();
    assert!(reactor.engine_is_ready());
    assert_eq!(reactor.this_shard_id(), 3);
    assert_ne!(reactor.get_count(), 0);
    assert_eq!(reactor.all_shards(), vec![0, 1, 2, 3]);
    assert_eq!(reactor.other_shards(), vec![0, 1, 2]);
}

#[test]
fn reactor_refuses_a_shard_beyond_the_count() {
    assert_eq!(Reactor::new(true, 4, 4), None);
    assert_eq!(Reactor::new(true, 0, 0), None);
    assert!(Reactor::new(false, 4, 4).is_some());
}

#[test]
fn other_shards_leaves_out_the_current_one() {
    assert_eq!(Reactor::new(true, 1, 0).unwrap().other_shards(), Vec::<u32>::new());
    assert_eq!(Reactor::new(true, 4, 0).unwrap().other_shards(), vec![1, 2, 3]);
    assert_eq!(Reactor::new(true, 4, 2).unwrap().other_shards(), vec![0, 1, 3]);
}

#[test]
fn submit_to_goes_through_the_queue_of_the_target() {
    let reactor = Reactor::new(true, 2, 0).unwrap();
    assert_eq!(
        submit_to(&reactor, 0),
        Dispatch {
            shard: 0,
            route: Route::Submit
        }
    );
    assert_eq!(
        submit_to(&reactor, 1),
        Dispatch {
            shard: 1,
            route: Route::Submit
        }
    );
}

#[test]
fn spawn_stays_on_the_current_shard() {
    let reactor = Reactor::new(true, 3, 2).unwrap();
    assert_eq!(
        spawn(&reactor),
        Dispatch {
            shard: 2,
            route: Route::Spawn
        }
    );
}

#[test]
fn runtime_assertions_accept_the_matching_report() {
    let inside = Reactor::new(true, 2, 1).unwrap();
    assert_runtime_is_running(&inside);
    let outside = Reactor::new(false, 0, 0).unwrap();
    assert_runtime_is_not_running(&outside);
}
