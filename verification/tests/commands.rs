use flox::commands::{
    activate_run_args, is_separator, CommandKind, EnvironmentArgs, EnvironmentCommands,
    ImportFile, ListOutput, PullFloxmainOrEnv, PushFloxmainOrEnv,
};
use flox::generation::Generation;
use flox::environment::Environment;
use flox::error::ErrorKind;
use flox::generation::{Actor, GenerationRef, Operation};
use flox::handling::{Failure, Replica, Report, Step};
use flox::history::Change;
use flox::main_branch::MainBranch;
use flox::manifest::{LockFile, Manifest};
use flox::transaction::ResolveOutcome;

fn names(list: &[&str]) -> Vec<String> {
    list.iter().map(|p| p.to_string()).collect()
}

fn args() -> EnvironmentArgs {
    EnvironmentArgs { system: None }
}

fn env() -> Option<String> {
    Some("default".to_string())
}

fn lock(text: &str) -> LockFile {
    LockFile::new(text.to_string(), format!("/store/{}", text))
}

fn fresh() -> Replica {
    Replica { environment: Environment::new(), main: MainBranch::new() }
}

fn copy(replica: &Replica) -> Replica {
    Replica { environment: replica.environment.clone(), main: replica.main.clone() }
}

fn install(packages: &[&str]) -> EnvironmentCommands {
    EnvironmentCommands::Install {
        environment_args: args(),
        environment: env(),
        packages: names(packages),
    }
}

fn failure(kind: ErrorKind, command: CommandKind) -> Failure {
    Failure { kind, command, environment: env(), diagnostic: None }
}

fn complete(command: &EnvironmentCommands, local: &mut Replica, remote: &mut Replica, at: u64) {
    let step = command.handle(false, local, remote).unwrap();
    let transaction = match step {
        Step::Resolve(transaction) => transaction,
        other => panic!("unexpected step {:?}", other),
    };
    let outcome = ResolveOutcome::Resolved(lock(&format!("l{}", at)));
    let done = command.conclude(local, transaction, outcome, "dave".to_string(), at).unwrap();
    assert!(matches!(done, Step::Done(Report::Committed(_))));
}

fn populated() -> (Replica, Replica) {
    let mut local = fresh();
    let mut remote = fresh();
    complete(&install(&["a"]), &mut local, &mut remote, 1);
    complete(&install(&["b"]), &mut local, &mut remote, 2);
    complete(&install(&["c"]), &mut local, &mut remote, 3);
    (local, remote)
}

#[test]
fn import_file_parse_tells_stdin_from_a_path() {
    assert_eq!(ImportFile::parse("-".to_string()), ImportFile::Stdin);
    assert_eq!(ImportFile::parse("env.txt".to_string()), ImportFile::Path("env.txt".to_string()));
    assert_eq!(ImportFile::parse("--".to_string()), ImportFile::Path("--".to_string()));
    assert_eq!(ImportFile::parse("-x".to_string()), ImportFile::Path("-x".to_string()));
    assert_eq!(ImportFile::parse("".to_string()), ImportFile::Path("".to_string()));
    assert_eq!(ImportFile::parse("./-".to_string()), ImportFile::Path("./-".to_string()));
}

#[test]
fn a_forwarded_command_is_not_handled() {
    let (mut local, mut remote) = populated();
    let (l, r) = (copy(&local), copy(&remote));
    let command = EnvironmentCommands::WipeHistory { environment_args: args(), environment: env() };
    assert_eq!(command.handle(true, &mut local, &mut remote), Ok(Step::Forward));
    assert_eq!((&local, &remote), (&l, &r));
}

#[test]
fn install_creates_generations_through_resolve_and_conclude() {
    let mut local = fresh();
    let mut remote = fresh();
    let command = install(&["pkgA"]);
    let step = command.handle(false, &mut local, &mut remote).unwrap();
    assert_eq!(local, fresh());
    let transaction = match step {
        Step::Resolve(transaction) => transaction,
        other => panic!("unexpected step {:?}", other),
    };
    assert_eq!(transaction.manifest.packages, names(&["pkgA"]));
    let done = command.conclude(
        &mut local,
        transaction,
        ResolveOutcome::Resolved(lock("la")),
        "dave".to_string(),
        1,
    );
    assert_eq!(
        done,
        Ok(Step::Done(Report::Committed(GenerationRef {
            index: 0,
            realized: "/store/la".to_string()
        })))
    );
    assert_eq!(local.environment.current(), Some(0));
    assert!(local.main.is_tracked(&"default".to_string()));
    complete(&install(&["pkgB"]), &mut local, &mut remote, 2);
    assert_eq!(local.environment.current(), Some(1));
    assert_eq!(local.environment.current_manifest().packages, names(&["pkgA", "pkgB"]));
    assert_eq!(remote, fresh());
}

#[test]
fn a_failed_resolution_is_reported_with_command_and_environment() {
    let (mut local, mut remote) = populated();
    let before = copy(&local);
    let command = install(&["d"]);
    let transaction = match command.handle(false, &mut local, &mut remote).unwrap() {
        Step::Resolve(transaction) => transaction,
        other => panic!("unexpected step {:?}", other),
    };
    let done = command.conclude(
        &mut local,
        transaction,
        ResolveOutcome::Failed("boom".to_string()),
        "dave".to_string(),
        9,
    );
    assert_eq!(
        done,
        Err(Failure {
            kind: ErrorKind::ExternalToolFailure,
            command: CommandKind::Install,
            environment: env(),
            diagnostic: Some("boom".to_string()),
        })
    );
    assert_eq!(local, before);
}

#[test]
fn an_invalid_install_fails_before_the_resolver() {
    let (mut local, mut remote) = populated();
    let before = copy(&local);
    let result = install(&["bad name"]).handle(false, &mut local, &mut remote);
    assert_eq!(result, Err(failure(ErrorKind::ValidationError, CommandKind::Install)));
    assert_eq!(local, before);
}

#[test]
fn remove_and_upgrade_begin_transactions() {
    let (mut local, mut remote) = populated();
    let remove = EnvironmentCommands::Remove {
        environment_args: args(),
        environment: env(),
        packages: names(&["b"]),
    };
    match remove.handle(false, &mut local, &mut remote).unwrap() {
        Step::Resolve(transaction) => {
            assert_eq!(transaction.operation, Operation::Remove);
            assert_eq!(transaction.manifest.packages, names(&["a", "c"]));
        },
        other => panic!("unexpected step {:?}", other),
    }
    let upgrade = EnvironmentCommands::Upgrade {
        environment_args: args(),
        environment: env(),
        packages: Vec::new(),
    };
    match upgrade.handle(false, &mut local, &mut remote).unwrap() {
        Step::Resolve(transaction) => {
            assert_eq!(transaction.operation, Operation::Upgrade);
            assert_eq!(transaction.refresh, names(&["a", "b", "c"]));
        },
        other => panic!("unexpected step {:?}", other),
    }
    let missing = EnvironmentCommands::Remove {
        environment_args: args(),
        environment: env(),
        packages: names(&["zz"]),
    };
    assert_eq!(
        missing.handle(false, &mut local, &mut remote),
        Err(failure(ErrorKind::ValidationError, CommandKind::Remove))
    );
}

#[test]
fn rollback_switch_and_wipe_commands() {
    let (mut local, mut remote) = populated();
    let rollback =
        EnvironmentCommands::Rollback { environment_args: args(), environment: env(), to: None };
    assert_eq!(rollback.handle(false, &mut local, &mut remote), Ok(Step::Done(Report::Moved(1))));
    assert_eq!(rollback.handle(false, &mut local, &mut remote), Ok(Step::Done(Report::Moved(0))));
    assert_eq!(
        rollback.handle(false, &mut local, &mut remote),
        Err(failure(ErrorKind::NoPreviousGeneration, CommandKind::Rollback))
    );
    let switch = EnvironmentCommands::SwitchGeneration {
        environment_args: args(),
        environment: env(),
        generation: 2,
    };
    assert_eq!(switch.handle(false, &mut local, &mut remote), Ok(Step::Done(Report::Moved(2))));
    let nowhere = EnvironmentCommands::SwitchGeneration {
        environment_args: args(),
        environment: env(),
        generation: 3,
    };
    assert_eq!(
        nowhere.handle(false, &mut local, &mut remote),
        Err(failure(ErrorKind::UnknownGeneration, CommandKind::SwitchGeneration))
    );
    let named = EnvironmentCommands::Rollback {
        environment_args: args(),
        environment: env(),
        to: Some(9),
    };
    assert_eq!(
        named.handle(false, &mut local, &mut remote),
        Err(failure(ErrorKind::UnknownGeneration, CommandKind::Rollback))
    );
    let wipe = EnvironmentCommands::WipeHistory { environment_args: args(), environment: env() };
    assert_eq!(wipe.handle(false, &mut local, &mut remote), Ok(Step::Done(Report::Wiped)));
    assert_eq!(local.environment.len(), 1);
    assert_eq!(local.environment.current(), Some(2));
    assert_eq!(
        wipe.handle(false, &mut local, &mut remote),
        Err(failure(ErrorKind::NothingToWipe, CommandKind::WipeHistory))
    );
}

#[test]
fn queries_report_and_change_nothing() {
    let (mut local, mut remote) = populated();
    let before = copy(&local);
    let export = EnvironmentCommands::Export { environment_args: args(), environment: env() };
    assert_eq!(
        export.handle(false, &mut local, &mut remote),
        Ok(Step::Done(Report::Exported(Manifest::new(names(&["a", "b", "c"]), None))))
    );
    let edit = EnvironmentCommands::Edit { environment_args: args(), environment: env() };
    assert_eq!(
        edit.handle(false, &mut local, &mut remote),
        Ok(Step::Edit(Manifest::new(names(&["a", "b", "c"]), None)))
    );
    let generations =
        EnvironmentCommands::Generations { environment_args: args(), environment: env() };
    match generations.handle(false, &mut local, &mut remote).unwrap() {
        Step::Done(Report::Generations(listed)) => {
            let indices: Vec<u32> = listed.iter().map(|g| g.index).collect();
            assert_eq!(indices, vec![0, 1, 2]);
            assert_eq!(listed[1].realized, "/store/l2");
        },
        other => panic!("unexpected step {:?}", other),
    }
    let history = EnvironmentCommands::History {
        oneline: true,
        environment_args: args(),
        environment: env(),
    };
    match history.handle(false, &mut local, &mut remote).unwrap() {
        Step::Done(Report::History(entries)) => {
            assert_eq!(entries.len(), 3);
            assert_eq!(entries[1].change, Change::Counted { additions: 1, removals: 0 });
            assert_eq!(entries[1].created_by, Actor::new("dave".to_string(), Operation::Install));
        },
        other => panic!("unexpected step {:?}", other),
    }
    let import = EnvironmentCommands::Import {
        environment_args: args(),
        environment: env(),
        file: ImportFile::Stdin,
    };
    assert_eq!(import.handle(false, &mut local, &mut remote), Ok(Step::Read));
    let git = EnvironmentCommands::Git {
        environment_args: args(),
        environment: None,
        git_arguments: names(&["status"]),
    };
    assert_eq!(git.handle(false, &mut local, &mut remote), Ok(Step::Git));
    let activate = EnvironmentCommands::Activate {
        environment_args: args(),
        environment: names(&["default", "other"]),
        arguments: Some(("make".to_string(), names(&["-j4"]))),
    };
    assert_eq!(activate.handle(false, &mut local, &mut remote), Ok(Step::Activate));
    assert_eq!(local, before);
    assert_eq!(remote, fresh());
}

#[test]
fn list_shows_the_generation_in_use_or_the_one_named() {
    let (mut local, mut remote) = populated();
    let current = EnvironmentCommands::List {
        environment_args: args(),
        environment: env(),
        json: Some(ListOutput::Json),
        generation: None,
    };
    match current.handle(false, &mut local, &mut remote).unwrap() {
        Step::Done(Report::Listing(listed, format)) => {
            assert_eq!(listed.index, 2);
            assert_eq!(listed.manifest.packages, names(&["a", "b", "c"]));
            assert_eq!(format, Some(ListOutput::Json));
        },
        other => panic!("unexpected step {:?}", other),
    }
    let named = EnvironmentCommands::List {
        environment_args: args(),
        environment: env(),
        json: Some(ListOutput::OutPath),
        generation: Some(0),
    };
    match named.handle(false, &mut local, &mut remote).unwrap() {
        Step::Done(Report::Listing(listed, format)) => {
            assert_eq!(listed.index, 0);
            assert_eq!(listed.lock.realized, "/store/l1");
            assert_eq!(format, Some(ListOutput::OutPath));
        },
        other => panic!("unexpected step {:?}", other),
    }
    let unknown = EnvironmentCommands::List {
        environment_args: args(),
        environment: env(),
        json: None,
        generation: Some(5),
    };
    assert_eq!(
        unknown.handle(false, &mut local, &mut remote),
        Err(failure(ErrorKind::UnknownGeneration, CommandKind::List))
    );
    let mut empty = fresh();
    let nothing = EnvironmentCommands::List {
        environment_args: args(),
        environment: env(),
        json: None,
        generation: None,
    };
    assert_eq!(
        nothing.handle(false, &mut empty, &mut remote),
        Err(failure(ErrorKind::UnknownGeneration, CommandKind::List))
    );
}

#[test]
fn create_and_destroy_keep_the_main_branch() {
    let mut local = fresh();
    let mut remote = fresh();
    let create = EnvironmentCommands::Create { environment_args: args(), environment: env() };
    assert_eq!(create.handle(false, &mut local, &mut remote), Ok(Step::Done(Report::Created)));
    assert!(local.main.is_tracked(&"default".to_string()));
    assert_eq!(local.environment, Environment::new());
    complete(&install(&["a"]), &mut local, &mut remote, 1);

    let destroy = EnvironmentCommands::Destroy {
        force: false,
        origin: false,
        environment_args: args(),
        environment: env(),
    };
    let before = copy(&local);
    assert_eq!(
        destroy.handle(false, &mut local, &mut remote),
        Err(failure(ErrorKind::DivergedHistory, CommandKind::Destroy))
    );
    assert_eq!(local, before);
    let forced = EnvironmentCommands::Destroy {
        force: true,
        origin: true,
        environment_args: args(),
        environment: env(),
    };
    assert_eq!(forced.handle(false, &mut local, &mut remote), Ok(Step::Done(Report::Destroyed)));
    assert_eq!(local.environment, Environment::new());
    assert!(!local.main.is_tracked(&"default".to_string()));
    assert_eq!(local.main.entries().len(), 2);
    assert_eq!(remote, fresh());
}

#[test]
fn push_and_pull_of_an_environment() {
    let (mut local, mut remote) = populated();
    let push = EnvironmentCommands::Push {
        environment_args: args(),
        target: Some(PushFloxmainOrEnv::Env { env: env() }),
        force: false,
    };
    assert_eq!(push.handle(false, &mut local, &mut remote), Ok(Step::Done(Report::Pushed)));
    assert_eq!(remote.environment, local.environment);
    assert_eq!(remote.main, MainBranch::new());

    let mut other = fresh();
    let pull = EnvironmentCommands::Pull {
        environment_args: args(),
        target: Some(PullFloxmainOrEnv::Env { env: env(), no_render: false }),
        force: false,
    };
    assert_eq!(
        pull.handle(false, &mut other, &mut remote),
        Ok(Step::Done(Report::Pulled(Some(GenerationRef {
            index: 2,
            realized: "/store/l3".to_string()
        }))))
    );
    assert_eq!(other.environment, local.environment);
    assert_eq!(other.main, MainBranch::new());

    complete(&install(&["x"]), &mut other, &mut remote, 10);
    assert_eq!(push.handle(false, &mut other, &mut remote), Ok(Step::Done(Report::Pushed)));
    complete(&install(&["y"]), &mut local, &mut remote, 11);
    let remote_before = copy(&remote);
    assert_eq!(
        push.handle(false, &mut local, &mut remote),
        Err(failure(ErrorKind::DivergedHistory, CommandKind::Push))
    );
    assert_eq!(remote, remote_before);
    assert_eq!(
        pull.handle(false, &mut local, &mut remote),
        Err(failure(ErrorKind::DivergedHistory, CommandKind::Pull))
    );
    let forced = EnvironmentCommands::Push {
        environment_args: args(),
        target: Some(PushFloxmainOrEnv::Env { env: env() }),
        force: true,
    };
    assert_eq!(forced.handle(false, &mut local, &mut remote), Ok(Step::Done(Report::Pushed)));
    assert_eq!(remote.environment, local.environment);
    assert_eq!(
        remote.environment.generations().last(),
        local.environment.generations().last()
    );
    let quiet = EnvironmentCommands::Pull {
        environment_args: args(),
        target: Some(PullFloxmainOrEnv::Env { env: env(), no_render: true }),
        force: true,
    };
    assert_eq!(quiet.handle(false, &mut other, &mut remote), Ok(Step::Done(Report::Pulled(None))));
    assert_eq!(other.environment, local.environment);
}

#[test]
fn push_and_pull_of_the_main_branch() {
    let (mut local, mut remote) = populated();
    let push = EnvironmentCommands::Push {
        environment_args: args(),
        target: Some(PushFloxmainOrEnv::Main),
        force: false,
    };
    assert_eq!(push.handle(false, &mut local, &mut remote), Ok(Step::Done(Report::Pushed)));
    assert_eq!(remote.main, local.main);
    assert_eq!(remote.environment, Environment::new());
    let mut other = fresh();
    let pull = EnvironmentCommands::Pull {
        environment_args: args(),
        target: Some(PullFloxmainOrEnv::Main),
        force: false,
    };
    assert_eq!(pull.handle(false, &mut other, &mut remote), Ok(Step::Done(Report::Pulled(None))));
    assert_eq!(other.main.tracked_environments(), names(&["default"]));
    assert_eq!(other.environment, Environment::new());
    other.main.register("mine".to_string());
    remote.main.register("theirs".to_string());
    assert_eq!(
        pull.handle(false, &mut other, &mut remote),
        Err(Failure {
            kind: ErrorKind::DivergedHistory,
            command: CommandKind::Pull,
            environment: None,
            diagnostic: None,
        })
    );
    assert_eq!(
        push.handle(false, &mut other, &mut remote),
        Err(Failure {
            kind: ErrorKind::DivergedHistory,
            command: CommandKind::Push,
            environment: None,
            diagnostic: None,
        })
    );
}

#[test]
fn edit_and_import_go_on_with_the_text() {
    let (mut local, mut remote) = populated();
    let import = EnvironmentCommands::Import {
        environment_args: args(),
        environment: env(),
        file: ImportFile::Path("m.txt".to_string()),
    };
    let transaction = match import.resume(&local, "system x86_64-linux\nq\n").unwrap() {
        Step::Resolve(transaction) => transaction,
        other => panic!("unexpected step {:?}", other),
    };
    assert_eq!(transaction.operation, Operation::Import);
    assert_eq!(
        transaction.manifest,
        Manifest::new(names(&["q"]), Some("x86_64-linux".to_string()))
    );
    assert_eq!(transaction.base, Some(2));
    let outcome = ResolveOutcome::Resolved(lock("lq"));
    import.conclude(&mut local, transaction, outcome, "dave".to_string(), 20).unwrap();
    assert_eq!(local.environment.current(), Some(3));
    assert_eq!(local.environment.current_manifest().packages, names(&["q"]));

    let edit = EnvironmentCommands::Edit { environment_args: args(), environment: env() };
    match edit.resume(&local, "q\nr\n").unwrap() {
        Step::Resolve(transaction) => assert_eq!(transaction.operation, Operation::Edit),
        other => panic!("unexpected step {:?}", other),
    }
    assert_eq!(
        edit.resume(&local, "not a specifier\n"),
        Err(failure(ErrorKind::ValidationError, CommandKind::Edit))
    );
    assert_eq!(
        import.resume(&local, "q\nq\n"),
        Err(failure(ErrorKind::ValidationError, CommandKind::Import))
    );
    assert_eq!(
        install(&["a"]).resume(&local, "a\n"),
        Err(failure(ErrorKind::ValidationError, CommandKind::Install))
    );
    let _ = remote.environment.len();
    let _ = &mut remote;
}

#[test]
fn commands_know_their_kind_and_their_environment() {
    let named = install(&["a"]);
    assert_eq!(named.kind(), CommandKind::Install);
    assert_eq!(named.environment(), Some(&"default".to_string()));
    assert!(named.is_scoped());
    let unnamed = EnvironmentCommands::Rollback {
        environment_args: args(),
        environment: None,
        to: None,
    };
    assert_eq!(unnamed.kind(), CommandKind::Rollback);
    assert_eq!(unnamed.environment(), None);
    assert!(!unnamed.is_scoped());
    let main = EnvironmentCommands::Push {
        environment_args: args(),
        target: Some(PushFloxmainOrEnv::Main),
        force: false,
    };
    assert!(main.is_scoped());
    assert_eq!(main.environment(), None);
    let nothing = EnvironmentCommands::Pull { environment_args: args(), target: None, force: false };
    assert!(!nothing.is_scoped());
    let no_env = EnvironmentCommands::Pull {
        environment_args: args(),
        target: Some(PullFloxmainOrEnv::Env { env: None, no_render: false }),
        force: false,
    };
    assert!(!no_env.is_scoped());
    let activate = EnvironmentCommands::Activate {
        environment_args: args(),
        environment: Vec::new(),
        arguments: None,
    };
    assert!(activate.is_scoped());
    assert_eq!(activate.kind(), CommandKind::Activate);
    assert_eq!(
        named.failure(ErrorKind::NothingToWipe),
        Failure {
            kind: ErrorKind::NothingToWipe,
            command: CommandKind::Install,
            environment: env(),
            diagnostic: None,
        }
    );
}

#[test]
fn activate_run_args_splits_command_and_arguments() {
    assert_eq!(
        activate_run_args(names(&["--", "ls", "-la"])),
        Ok(Some(("ls".to_string(), names(&["-la"]))))
    );
    assert_eq!(activate_run_args(names(&["--", "make"])), Ok(Some(("make".to_string(), Vec::new()))));
    assert_eq!(
        activate_run_args(names(&["--", "make", "-j4", "--", "all", "--"])),
        Ok(Some(("make".to_string(), names(&["-j4", "--", "all", "--"]))))
    );
    assert_eq!(
        activate_run_args(names(&["--", "--", "x"])),
        Ok(Some(("--".to_string(), names(&["x"]))))
    );
    assert_eq!(
        activate_run_args(names(&["--", "", "x"])),
        Ok(Some(("".to_string(), names(&["x"]))))
    );
}

#[test]
fn activate_run_args_without_a_command() {
    assert_eq!(activate_run_args(Vec::new()), Ok(None));
    assert_eq!(activate_run_args(names(&["--"])), Ok(None));
}

#[test]
fn activate_run_args_needs_the_separator() {
    assert_eq!(activate_run_args(names(&["ls", "-la"])), Err(ErrorKind::ValidationError));
    assert_eq!(activate_run_args(names(&["ls", "--", "-la"])), Err(ErrorKind::ValidationError));
    assert_eq!(activate_run_args(names(&["-"])), Err(ErrorKind::ValidationError));
    assert_eq!(activate_run_args(names(&["---", "ls"])), Err(ErrorKind::ValidationError));
    assert_eq!(activate_run_args(names(&["-- ", "ls"])), Err(ErrorKind::ValidationError));
    assert_eq!(activate_run_args(names(&[""])), Err(ErrorKind::ValidationError));
    assert!(is_separator("--"));
    assert!(!is_separator("-"));
    assert!(!is_separator("---"));
    assert!(!is_separator("-x"));
    assert!(!is_separator(""));
}

#[test]
fn a_failure_leaves_with_the_exit_code_of_its_class() {
    assert_eq!(failure(ErrorKind::ValidationError, CommandKind::Install).exit_code(), 2);
    assert_eq!(failure(ErrorKind::DivergedHistory, CommandKind::Push).exit_code(), 3);
    assert_eq!(failure(ErrorKind::ConcurrentModification, CommandKind::Edit).exit_code(), 3);
    assert_eq!(failure(ErrorKind::NothingToWipe, CommandKind::WipeHistory).exit_code(), 4);
    assert_eq!(failure(ErrorKind::ExternalToolFailure, CommandKind::Upgrade).exit_code(), 5);
}

#[test]
fn a_stale_transaction_is_a_concurrent_modification_of_the_command() {
    let (mut local, mut remote) = populated();
    let first = install(&["x"]);
    let second = install(&["y"]);
    let one = match first.handle(false, &mut local, &mut remote).unwrap() {
        Step::Resolve(transaction) => transaction,
        other => panic!("unexpected step {:?}", other),
    };
    let two = match second.handle(false, &mut local, &mut remote).unwrap() {
        Step::Resolve(transaction) => transaction,
        other => panic!("unexpected step {:?}", other),
    };
    let len = local.environment.len();
    let won = first.conclude(&mut local, one, ResolveOutcome::Resolved(lock("lx")), "a".to_string(), 1);
    assert!(won.is_ok());
    let lost = second.conclude(&mut local, two, ResolveOutcome::Resolved(lock("ly")), "b".to_string(), 2);
    assert_eq!(lost, Err(failure(ErrorKind::ConcurrentModification, CommandKind::Install)));
    assert_eq!(local.environment.len(), len + 1);
}

fn full() -> Replica {
    let last = Generation {
        index: u32::MAX,
        manifest: Manifest::new(names(&["a"]), None),
        lock: lock("full"),
        created_at: 1,
        created_by: Actor::new("dave".to_string(), Operation::Install),
        parent_index: None,
    };
    let environment = Environment::restore(vec![last], Some(u32::MAX)).unwrap();
    assert!(!environment.has_room());
    Replica { environment, main: MainBranch::new() }
}

#[test]
fn a_failed_resolution_needs_no_room_in_the_history() {
    let mut local = full();
    let mut remote = fresh();
    let before = copy(&local);
    let command = install(&["b"]);
    for _ in 0..2 {
        let transaction = match command.handle(false, &mut local, &mut remote).unwrap() {
            Step::Resolve(transaction) => transaction,
            other => panic!("unexpected step {:?}", other),
        };
        let done = command.conclude(
            &mut local,
            transaction,
            ResolveOutcome::Failed("offline".to_string()),
            "dave".to_string(),
            2,
        );
        assert_eq!(
            done,
            Err(Failure {
                kind: ErrorKind::ExternalToolFailure,
                command: CommandKind::Install,
                environment: env(),
                diagnostic: Some("offline".to_string()),
            })
        );
        assert_eq!(local, before);
    }
}

#[test]
fn a_stale_transaction_needs_no_room_in_the_history() {
    let (mut local, mut remote) = populated();
    let command = install(&["x"]);
    let stale = match command.handle(false, &mut local, &mut remote).unwrap() {
        Step::Resolve(transaction) => transaction,
        other => panic!("unexpected step {:?}", other),
    };
    let mut local = full();
    let before = copy(&local);
    assert_ne!(stale.base, local.environment.current());
    let done = command.conclude(
        &mut local,
        stale,
        ResolveOutcome::Resolved(lock("lx")),
        "dave".to_string(),
        3,
    );
    assert_eq!(done, Err(failure(ErrorKind::ConcurrentModification, CommandKind::Install)));
    assert_eq!(local, before);
}
