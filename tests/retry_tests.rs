use bench_client::native::{ConnectAction, ConnectPhase, ConnectRetry};
use bench_client::shell::{ShellAction, ShellPhase, ShellRetry, SpawnOutcome};

#[test]
fn native_succeeds_on_fourth_attempt() {
    let (mut m, mut a) = ConnectRetry::start();
    let mut connects = 0;
    let mut slept = 0u64;
    let mut outcomes = vec![Err("e1"), Err("e2"), Err("e3"), Ok(())].into_iter();
    loop {
        match a {
            ConnectAction::Connect => {
                connects += 1;
                let r = outcomes.next().unwrap().map_err(|e| e.to_string());
                a = m.on_connect_result(r);
            }
            ConnectAction::Sleep(s) => {
                slept += s;
                a = m.on_slept();
            }
            ConnectAction::Done | ConnectAction::GiveUp => break,
        }
    }
    assert_eq!(a, ConnectAction::Done);
    assert_eq!(connects, 4);
    assert_eq!(m.attempts, 4);
    assert!(slept >= 3);
    assert_eq!(m.errors, vec!["e1", "e2", "e3"]);
    assert_eq!(m.phase, ConnectPhase::Connected);
}

#[test]
fn native_gives_up_after_ten_failures() {
    let (mut m, mut a) = ConnectRetry::start();
    let mut connects = 0;
    loop {
        match a {
            ConnectAction::Connect => {
                connects += 1;
                a = m.on_connect_result(Err(format!("failure {connects}")));
            }
            ConnectAction::Sleep(_) => a = m.on_slept(),
            ConnectAction::Done | ConnectAction::GiveUp => break,
        }
    }
    assert_eq!(a, ConnectAction::GiveUp);
    assert_eq!(connects, 10);
    assert_eq!(m.errors.len(), 10);
    assert_eq!(m.errors[9], "failure 10");
    assert_eq!(m.phase, ConnectPhase::Exhausted);
}

#[test]
fn shell_exit_code_two_retries_with_new_spawn() {
    let (mut m, a) = ShellRetry::start();
    assert_eq!(a, ShellAction::Sleep(1));
    assert_eq!(m.on_slept(), ShellAction::Spawn);
    assert_eq!(m.on_spawned(SpawnOutcome::Ready), ShellAction::SendQuery);
    assert_eq!(m.on_exited(Ok(Some(2))), ShellAction::Sleep(1));
    assert_eq!(m.on_slept(), ShellAction::Spawn);
    assert_eq!(m.attempts, 2);
    assert_eq!(m.on_spawned(SpawnOutcome::Ready), ShellAction::SendQuery);
    assert_eq!(m.on_exited(Ok(Some(0))), ShellAction::Finish(Some(0)));
    assert_eq!(m.phase, ShellPhase::Completed);
    assert_eq!(m.errors, vec!["Failed to connect, psql exited immediately"]);
}

#[test]
fn shell_other_exit_codes_end_the_loop() {
    for code in [0, 1, 3, 127, -1] {
        let (mut m, _) = ShellRetry::start();
        m.on_slept();
        m.on_spawned(SpawnOutcome::Ready);
        assert_eq!(m.on_exited(Ok(Some(code))), ShellAction::Finish(Some(code)));
        assert_eq!(m.attempts, 1);
    }
    let (mut m, _) = ShellRetry::start();
    m.on_slept();
    m.on_spawned(SpawnOutcome::Ready);
    assert_eq!(m.on_exited(Ok(None)), ShellAction::Finish(None));
}

#[test]
fn shell_wait_error_fails_at_once() {
    let (mut m, _) = ShellRetry::start();
    m.on_slept();
    m.on_spawned(SpawnOutcome::Ready);
    assert_eq!(m.on_exited(Err("wait failed".to_string())), ShellAction::Fail);
    assert_eq!(m.phase, ShellPhase::Failed);
}

#[test]
fn shell_missing_stdin_kills_and_counts_as_failure() {
    let (mut m, _) = ShellRetry::start();
    m.on_slept();
    assert_eq!(m.on_spawned(SpawnOutcome::NoStdin), ShellAction::Kill);
    assert_eq!(m.on_killed(), ShellAction::Sleep(1));
    assert_eq!(m.errors, vec!["Child did not have a handle to stdin"]);
    assert_eq!(m.attempts, 1);
}

#[test]
fn shell_gives_up_after_ten_cycles() {
    let (mut m, mut a) = ShellRetry::start();
    let mut spawns = 0;
    loop {
        match a {
            ShellAction::Sleep(_) => a = m.on_slept(),
            ShellAction::Spawn => {
                spawns += 1;
                a = if spawns % 2 == 0 {
                    m.on_spawned(SpawnOutcome::Error(format!("spawn {spawns}")))
                } else {
                    m.on_spawned(SpawnOutcome::Ready)
                };
            }
            ShellAction::SendQuery => a = m.on_exited(Ok(Some(2))),
            ShellAction::Kill => a = m.on_killed(),
            _ => break,
        }
    }
    assert_eq!(a, ShellAction::GiveUp);
    assert_eq!(spawns, 10);
    assert_eq!(m.errors.len(), 10);
    assert_eq!(m.errors[1], "spawn 2");
    assert_eq!(m.errors[2], "Failed to connect, psql exited immediately");
    assert_eq!(m.phase, ShellPhase::Exhausted);
}

#[test]
fn shell_gives_up_after_ten_exit_code_two_cycles() {
    let (mut m, mut a) = ShellRetry::start();
    let mut spawns = 0;
    let mut slept = 0u64;
    loop {
        match a {
            ShellAction::Sleep(s) => {
                slept += s;
                a = m.on_slept();
            }
            ShellAction::Spawn => {
                spawns += 1;
                a = m.on_spawned(SpawnOutcome::Ready);
            }
            ShellAction::SendQuery => a = m.on_exited(Ok(Some(2))),
            ShellAction::Kill => a = m.on_killed(),
            _ => break,
        }
    }
    assert_eq!(a, ShellAction::GiveUp);
    assert_eq!(spawns, 10);
    assert_eq!(slept, 10);
    assert_eq!(m.attempts, 10);
    assert_eq!(m.errors.len(), 10);
    assert!(m.errors.iter().all(|e| e == "Failed to connect, psql exited immediately"));
    assert_eq!(m.phase, ShellPhase::Exhausted);
}
