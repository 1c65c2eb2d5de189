use seastar::{Duration, Instant, ManualClock, Reactor, SteadyClock, Timer};

fn running() -> Reactor {
    Reactor::new(true, 1, 0).unwrap()
}

/// A manual clock, a timer of it, and the number of times that the timer's
/// callback has run.
struct Bench {
    clock: ManualClock,
    timer: Timer<ManualClock>,
    calls: u32,
}

impl Bench {
    fn set_up() -> (Bench, Duration<ManualClock>) {
        let mut timer = Timer::new();
        timer.set_callback();
        let bench = Bench {
            clock: ManualClock::new(),
            timer,
            calls: 0,
        };
        (bench, Duration::from_millis(100))
    }

    fn wait(&mut self, duration: Duration<ManualClock>) {
        self.clock.advance(duration);
        if self.timer.expire(self.clock.now()) {
            self.calls += 1;
        }
    }

    fn check(&mut self, duration: Duration<ManualClock>) {
        self.wait(duration / 2);
        assert!(self.calls == 0);
        self.wait(duration);
        assert!(self.calls == 1);
        self.wait(duration);
        assert!(self.calls == 1);
        self.timer.cancel();
    }

    fn check_periodic(&mut self, duration: Duration<ManualClock>) {
        self.wait(duration / 2);
        assert!(self.calls == 0);
        self.wait(duration);
        assert!(self.calls == 1);
        self.wait(duration);
        assert!(self.calls == 2);
        self.timer.cancel();
        self.wait(duration);
        assert!(self.calls == 2);
    }
}

#[test]
fn manual_clock_timer_arm_at() {
    let (mut bench, duration) = Bench::set_up();
    let now = bench.clock.now();
    bench.timer.arm_at(&running(), now + duration);
    bench.check(duration);
}

#[test]
fn manual_clock_timer_arm_at_periodic() {
    let (mut bench, duration) = Bench::set_up();
    let now = bench.clock.now();
    bench.timer.arm_at_periodic(&running(), now + duration, duration);
    bench.check_periodic(duration);
}

#[test]
fn manual_clock_timer_rearm_at() {
    let (mut bench, duration) = Bench::set_up();
    let now = bench.clock.now();
    bench.timer.arm(&running(), now, 10 * duration);
    bench.timer.rearm_at(&running(), now + duration);
    bench.check(duration);
}

#[test]
fn manual_clock_timer_rearm_at_periodic() {
    let (mut bench, duration) = Bench::set_up();
    let now = bench.clock.now();
    bench.timer.arm(&running(), now, 10 * duration);
    bench.timer.rearm_at_periodic(&running(), now + duration, duration);
    bench.check_periodic(duration);
}

#[test]
fn manual_clock_timer_arm() {
    let (mut bench, duration) = Bench::set_up();
    bench.timer.arm(&running(), bench.clock.now(), duration);
    bench.check(duration);
}

#[test]
fn manual_clock_timer_arm_periodic() {
    let (mut bench, duration) = Bench::set_up();
    bench.timer.arm_periodic(&running(), bench.clock.now(), duration);
    bench.check_periodic(duration);
}

#[test]
fn manual_clock_timer_rearm() {
    let (mut bench, duration) = Bench::set_up();
    bench.timer.arm(&running(), bench.clock.now(), 10 * duration);
    bench.timer.rearm(&running(), bench.clock.now(), duration);
    bench.check(duration);
}

#[test]
fn manual_clock_timer_rearm_periodic() {
    let (mut bench, duration) = Bench::set_up();
    bench.timer.arm(&running(), bench.clock.now(), 10 * duration);
    bench.timer.rearm_periodic(&running(), bench.clock.now(), duration);
    bench.check_periodic(duration);
}

#[test]
fn manual_clock_timer_armed() {
    let (mut bench, _) = Bench::set_up();
    bench.timer = Timer::new();
    assert!(!bench.timer.armed());

    bench.timer.set_callback();
    let duration = Duration::from_millis(100);
    bench.timer.arm(&running(), bench.clock.now(), duration);
    assert!(bench.timer.armed());

    bench.wait(duration * 2);
    assert!(!bench.timer.armed());
}

#[test]
fn manual_clock_timer_get_timeout() {
    let clock = ManualClock::new();
    let mut timer = Timer::<ManualClock>::new();
    assert!(timer.get_timeout().is_none());

    let now = clock.now();
    let duration = Duration::from_secs(1);
    timer.arm(&running(), now, duration);

    let timeout = timer.get_timeout().unwrap();
    let diff = timeout - now;
    assert!(diff >= duration);
    assert_eq!(diff, duration);
}

#[test]
fn timer_expires_at_its_timeout_and_not_before() {
    let mut timer = Timer::<SteadyClock>::new();
    assert!(!timer.has_callback());
    timer.set_callback();
    assert!(timer.has_callback());
    timer.arm_at(&running(), Instant::new(1_000));
    assert!(!timer.expire(Instant::new(999)));
    assert_eq!(timer.get_timeout(), Some(Instant::new(1_000)));
    assert!(timer.expire(Instant::new(1_000)));
    assert_eq!(timer.get_timeout(), None);
    assert!(!timer.expire(Instant::new(2_000)));
}

#[test]
fn periodic_timer_is_rearmed_one_period_after_it_expired() {
    let mut timer = Timer::<SteadyClock>::new();
    timer.set_callback();
    timer.arm_at_periodic(&running(), Instant::new(1_000), Duration::from_nanos(300));
    assert!(timer.expire(Instant::new(1_050)));
    assert_eq!(timer.get_timeout(), Some(Instant::new(1_350)));
    assert!(!timer.expire(Instant::new(1_349)));
    assert!(timer.expire(Instant::new(1_350)));
    assert_eq!(timer.get_timeout(), Some(Instant::new(1_650)));
}

#[test]
fn cancel_says_whether_the_timer_was_armed() {
    let mut timer = Timer::<SteadyClock>::default();
    assert!(!timer.cancel());
    timer.arm_at_periodic(&running(), Instant::new(5), Duration::from_nanos(5));
    assert!(timer.cancel());
    assert!(!timer.armed());
    assert!(!timer.cancel());
    assert!(!timer.expire(Instant::new(10)));
    // A cancelled timer can be armed again, and has lost its period.
    timer.arm_at(&running(), Instant::new(20));
    assert!(timer.expire(Instant::new(20)));
    assert!(!timer.armed());
}

#[test]
fn observe_takes_over_the_reported_state() {
    let mut timer = Timer::<SteadyClock>::new();
    timer.observe(true, Instant::new(42));
    assert_eq!(timer.get_timeout(), Some(Instant::new(42)));
    assert!(timer.armed());
    timer.observe(false, Instant::new(42));
    assert_eq!(timer.get_timeout(), None);
    // A periodic timer that is seen still armed keeps its period.
    timer.arm_at_periodic(&running(), Instant::new(10), Duration::from_nanos(5));
    timer.observe(true, Instant::new(15));
    assert!(timer.expire(Instant::new(15)));
    assert_eq!(timer.get_timeout(), Some(Instant::new(20)));
    // Seen disarmed, it has lost it.
    timer.observe(false, Instant::new(0));
    timer.observe(true, Instant::new(30));
    assert!(timer.expire(Instant::new(30)));
    assert!(!timer.armed());
}
