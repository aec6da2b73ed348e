use console_mux::error::Fatal;
use console_mux::relay::{Forward, InputRelay, DEFAULT_TARGET};
use console_mux::startup::{enter, Duties, Startup, StartupFlag, Wait, Waiting, Worker, LEADER};

fn follower(tid: usize) -> Waiting {
    match enter(tid) {
        Startup::Follower(waiting) => waiting,
        Startup::Leader(_) => panic!("thread {} is no follower", tid),
    }
}

fn proceed(next: Wait) -> Worker {
    match next {
        Wait::Proceed(worker) => worker,
        Wait::Again(_) => panic!("still waiting"),
    }
}

#[test]
fn startup_flag_is_lowered_at_first() {
    assert!(!StartupFlag::new().is_raised());
}

#[test]
fn startup_flag_stays_raised() {
    let mut flag = StartupFlag::new();
    flag.raise();
    assert!(flag.is_raised());
    flag.raise();
    assert!(flag.is_raised());
    assert!(flag.is_raised());
}

#[test]
fn thread_zero_is_the_leader() {
    assert_eq!(LEADER, 0);
    assert!(matches!(enter(0), Startup::Leader(_)));
}

#[test]
fn every_other_thread_is_a_follower() {
    for tid in [1usize, 2, 3, 64, usize::MAX] {
        assert!(matches!(enter(tid), Startup::Follower(_)));
    }
}

#[test]
fn leader_raises_flag_and_clears_screen_once_registered() {
    let mut flag = StartupFlag::new();
    let leader = match enter(0) {
        Startup::Leader(registration) => registration,
        Startup::Follower(_) => panic!("thread 0 is the leader"),
    };
    let (worker, shown) = match leader.registered::<()>(&mut flag, Ok(())) {
        Ok(next) => next,
        Err(_) => panic!("registration succeeded"),
    };
    assert!(flag.is_raised());
    assert_eq!(shown, "\x1b[1;1H\x1b[0J");
    assert_eq!(worker.thread_id(), 0);
    assert_eq!(worker.duties(), Duties { gather: true, relay_input: true, draw: true });
}

#[test]
fn failed_registration_is_fatal_and_leaves_flag_lowered() {
    let mut flag = StartupFlag::new();
    let leader = match enter(0) {
        Startup::Leader(registration) => registration,
        Startup::Follower(_) => panic!("thread 0 is the leader"),
    };
    match leader.registered(&mut flag, Err("refused")) {
        Ok(_) => panic!("registration failed"),
        Err(fatal) => {
            assert_eq!(fatal, Fatal::Registration("refused"));
            assert_eq!(fatal.exit_status(), 1);
        }
    }
    assert!(!flag.is_raised());
}

#[test]
fn follower_waits_while_flag_is_lowered_then_only_gathers() {
    let flag_reads = [false, false, false, false, false, true];
    let mut waiting = Some(follower(2));
    let mut worker = None;
    let mut reads = 0;
    for raised in flag_reads {
        reads += 1;
        match waiting.take().unwrap().flag_read(raised) {
            Wait::Again(again) => {
                assert!(!raised);
                waiting = Some(again);
            }
            Wait::Proceed(running) => {
                assert!(raised);
                worker = Some(running);
                break;
            }
        }
    }
    assert_eq!(reads, 6);
    assert!(waiting.is_none());
    let worker = worker.unwrap();
    assert_eq!(worker.thread_id(), 2);
    for _ in 0..100 {
        assert_eq!(worker.duties(), Duties { gather: true, relay_input: false, draw: false });
    }
}

#[test]
fn follower_proceeds_at_once_if_flag_is_already_raised() {
    let worker = proceed(follower(5).flag_read(true));
    assert_eq!(worker.thread_id(), 5);
    assert!(worker.duties().gather);
    assert!(!worker.duties().relay_input);
    assert!(!worker.duties().draw);
}

#[test]
fn follower_keeps_waiting_on_a_lowered_flag() {
    let mut waiting = follower(1);
    for _ in 0..50 {
        waiting = match waiting.flag_read(false) {
            Wait::Again(again) => again,
            Wait::Proceed(_) => panic!("flag was lowered"),
        };
    }
    assert_eq!(proceed(waiting.flag_read(true)).thread_id(), 1);
}

#[test]
fn every_worker_gathers_and_only_the_leader_relays_and_draws() {
    for tid in [1usize, 2, 7, usize::MAX] {
        let duties = proceed(follower(tid).flag_read(true)).duties();
        assert_eq!(duties, Duties { gather: true, relay_input: false, draw: false });
    }
}

#[test]
fn default_relay_targets_capsule_one() {
    assert_eq!(DEFAULT_TARGET, 1);
    assert_eq!(InputRelay::to_default_target(), InputRelay { target: 1 });
    assert_eq!(InputRelay::new(9).target, 9);
}

#[test]
fn typed_character_is_forwarded_to_the_target() {
    let relay = InputRelay::to_default_target();
    assert_eq!(
        relay.get_user_input::<()>(Ok('q')),
        Some(Forward { character: 'q', capsule_id: 1 })
    );
    assert_eq!(
        InputRelay::new(4).get_user_input::<()>(Ok('\n')),
        Some(Forward { character: '\n', capsule_id: 4 })
    );
}

#[test]
fn typed_character_is_forwarded_whatever_it_is() {
    let relay = InputRelay::to_default_target();
    for c in ['\u{ff}', '\x1b', '\0', '\u{10ffff}'] {
        assert_eq!(
            relay.get_user_input::<()>(Ok(c)),
            Some(Forward { character: c, capsule_id: 1 })
        );
    }
}

#[test]
fn failed_read_forwards_nothing() {
    let relay = InputRelay::to_default_target();
    assert_eq!(relay.get_user_input(Err("interrupted")), None);
    assert_eq!(relay.get_user_input(Err(())), None);
}
