use flox::environment::Environment;
use flox::generation::{Actor, Operation};
use flox::manifest::{LockFile, Manifest};
use flox::transaction::{Mutation, ResolveOutcome};

fn check(env: &Environment) {
    let indices: Vec<u32> = env.generations().iter().map(|g| g.index).collect();
    for pair in indices.windows(2) {
        assert_eq!(pair[1], pair[0] + 1);
    }
    match env.current() {
        Some(index) => {
            assert!(env.contains(index));
            assert_eq!(indices.iter().filter(|i| **i == index).count(), 1);
            assert_eq!(env.current_generation().unwrap().index, index);
            assert_eq!(env.generation(index).unwrap().index, index);
        },
        None => assert!(indices.is_empty()),
    }
    for generation in env.generations() {
        if let Some(parent) = generation.parent_index {
            assert!(parent < generation.index);
        }
    }
    assert_eq!(env.len(), indices.len());
}

fn install(env: &mut Environment, package: &str, at: u64) {
    let transaction = env.begin(Mutation::Install(vec![package.to_string()])).unwrap();
    let lock = LockFile::new(format!("lock-{}", package), format!("/store/{}", package));
    env.commit(transaction, ResolveOutcome::Resolved(lock), "erin".to_string(), at).unwrap();
}

#[test]
fn the_cursor_never_dangles_and_indices_have_no_gap() {
    let mut env = Environment::new();
    check(&env);
    for (at, package) in ["a", "b", "c", "d"].iter().enumerate() {
        install(&mut env, package, at as u64);
        check(&env);
    }
    assert_eq!(env.rollback(None), Ok(2));
    check(&env);
    assert!(env.rollback(Some(9)).is_err());
    check(&env);
    install(&mut env, "e", 10);
    check(&env);
    assert_eq!(env.current(), Some(4));
    assert_eq!(env.switch_generation(1), Ok(()));
    check(&env);
    assert_eq!(env.wipe_history(), Ok(()));
    check(&env);
    assert_eq!(env.len(), 1);
    assert_eq!(env.current(), Some(1));
    install(&mut env, "f", 11);
    check(&env);
    assert_eq!(env.current(), Some(2));
    let failed = env.begin(Mutation::Install(vec!["g".to_string()])).unwrap();
    assert!(env
        .commit(failed, ResolveOutcome::Failed("no".to_string()), "erin".to_string(), 12)
        .is_err());
    check(&env);
}

#[test]
fn sync_keeps_both_sides_well_formed() {
    let mut local = Environment::new();
    let mut remote = Environment::new();
    install(&mut local, "a", 1);
    install(&mut local, "b", 2);
    local.push(&mut remote, false).unwrap();
    check(&remote);
    install(&mut remote, "r", 3);
    local.rollback(None).unwrap();
    install(&mut local, "l", 4);
    assert!(local.pull(&remote, false, true).is_err());
    check(&local);
    assert!(local.pull(&remote, true, true).is_ok());
    check(&local);
    assert_eq!(local, remote);
    local.wipe_history().unwrap();
    check(&local);
    assert!(local.push(&mut remote, false).is_err());
    assert!(local.push(&mut remote, true).is_ok());
    check(&remote);
    assert_eq!(remote.len(), 1);
    assert!(local.destroy(&mut remote, false, true).is_ok());
    check(&local);
    check(&remote);
}

#[test]
fn a_generation_keeps_what_it_was_created_with() {
    let mut env = Environment::new();
    let manifest = Manifest::new(vec!["a".to_string()], Some("x86_64-linux".to_string()));
    let lock = LockFile::new("pins".to_string(), "/store/a".to_string());
    env.create_generation(
        manifest.clone(),
        lock.clone(),
        Actor::new("erin".to_string(), Operation::Import),
        77,
        None,
    )
    .unwrap();
    install(&mut env, "b", 78);
    env.rollback(None).unwrap();
    install(&mut env, "c", 79);
    let first = env.generation(0).unwrap();
    assert_eq!(first.manifest, manifest);
    assert_eq!(first.lock, lock);
    assert_eq!(first.created_at, 77);
    assert_eq!(first.created_by, Actor::new("erin".to_string(), Operation::Import));
    assert_eq!(env.current_manifest().system, Some("x86_64-linux".to_string()));
    assert_eq!(env.current_manifest().packages, vec!["a".to_string(), "c".to_string()]);
}
