use flox::commands::CommandKind;
use flox::error::ErrorKind;
use flox::generation::Operation;
use flox::lock::{Attempt, Patience};

#[test]
fn a_free_access_is_taken_at_once() {
    let patience = Patience { limit: 1000, pause: 100 };
    assert_eq!(patience.next_attempt(false, 0), Attempt::Proceed);
    assert_eq!(patience.next_attempt(false, 5000), Attempt::Proceed);
    assert_eq!(Patience { limit: 0, pause: 0 }.next_attempt(false, 0), Attempt::Proceed);
}

#[test]
fn a_held_access_is_waited_for_within_the_limit() {
    let patience = Patience { limit: 1000, pause: 300 };
    assert_eq!(patience.next_attempt(true, 0), Attempt::Retry(300));
    assert_eq!(patience.next_attempt(true, 600), Attempt::Retry(300));
    assert_eq!(patience.next_attempt(true, 700), Attempt::Retry(300));
    assert_eq!(patience.next_attempt(true, 900), Attempt::Retry(100));
    assert_eq!(patience.next_attempt(true, 999), Attempt::Retry(1));
    assert_eq!(
        patience.next_attempt(true, 1000),
        Attempt::GiveUp(ErrorKind::ConcurrentModification)
    );
    assert_eq!(
        patience.next_attempt(true, u64::MAX),
        Attempt::GiveUp(ErrorKind::ConcurrentModification)
    );
}

#[test]
fn a_pause_is_never_empty() {
    let patience = Patience { limit: 3, pause: 0 };
    assert_eq!(patience.next_attempt(true, 0), Attempt::Retry(1));
    assert_eq!(patience.next_attempt(true, 2), Attempt::Retry(1));
    assert_eq!(patience.next_attempt(true, 3), Attempt::GiveUp(ErrorKind::ConcurrentModification));
    let none = Patience { limit: 0, pause: 50 };
    assert_eq!(none.next_attempt(true, 0), Attempt::GiveUp(ErrorKind::ConcurrentModification));
}

#[test]
fn a_writer_that_follows_the_pauses_stops_at_the_limit() {
    let patience = Patience { limit: 1000, pause: 130 };
    let mut waited = 0;
    let mut tries = 0;
    loop {
        match patience.next_attempt(true, waited) {
            Attempt::Retry(pause) => {
                waited += pause;
                tries += 1;
            },
            Attempt::GiveUp(kind) => {
                assert_eq!(kind, ErrorKind::ConcurrentModification);
                break;
            },
            Attempt::Proceed => panic!("the access is held"),
        }
    }
    assert_eq!(waited, 1000);
    assert_eq!(tries, 8);
}

#[test]
fn commands_that_only_read_need_no_exclusive_access() {
    let reading = [
        CommandKind::Activate,
        CommandKind::Export,
        CommandKind::Generations,
        CommandKind::Git,
        CommandKind::History,
        CommandKind::List,
    ];
    let writing = [
        CommandKind::Create,
        CommandKind::Destroy,
        CommandKind::Edit,
        CommandKind::Import,
        CommandKind::Install,
        CommandKind::Push,
        CommandKind::Pull,
        CommandKind::Remove,
        CommandKind::Rollback,
        CommandKind::SwitchGeneration,
        CommandKind::Upgrade,
        CommandKind::WipeHistory,
    ];
    for kind in reading {
        assert!(!kind.is_mutating());
    }
    for kind in writing {
        assert!(kind.is_mutating());
    }
}

#[test]
fn commands_and_operations_have_their_words() {
    assert_eq!(CommandKind::SwitchGeneration.name(), "switch-generation");
    assert_eq!(CommandKind::WipeHistory.name(), "wipe-history");
    assert_eq!(CommandKind::Install.name(), "install");
    assert_eq!(CommandKind::Git.name(), "git");
    for operation in [
        Operation::Install,
        Operation::Remove,
        Operation::Upgrade,
        Operation::Edit,
        Operation::Import,
    ] {
        assert_eq!(Operation::from_name(&operation.name().to_string()), Some(operation));
    }
    assert_eq!(Operation::Upgrade.name(), "upgrade");
    assert_eq!(Operation::from_name(&"Install".to_string()), None);
    assert_eq!(Operation::from_name(&"".to_string()), None);
}
