//! The activation protocol played out: the per-unit race, the agent's
//! decisions, the rollback sequence, and the coordinator's revocation
//! walk, each driven by simulated events.

use deploy_rs::activation::ActivateError;
use deploy_rs::activation::ActivateFlags;
use deploy_rs::activation::ActivationConfirmationError;
use deploy_rs::activation::AgentAction;
use deploy_rs::activation::AgentEvent;
use deploy_rs::activation::AgentState;
use deploy_rs::activation::DangerZoneError;
use deploy_rs::activation::RollbackAction;
use deploy_rs::activation::RollbackStep;
use deploy_rs::activation::WatchSignal;
use deploy_rs::activation::agent_start;
use deploy_rs::activation::agent_step;
use deploy_rs::activation::danger_zone_outcome;
use deploy_rs::activation::rollback_start;
use deploy_rs::activation::rollback_step;
use deploy_rs::command::CmdOutput;
use deploy_rs::command::CommandError;
use deploy_rs::coordinator::CoordAction;
use deploy_rs::coordinator::CoordEvent;
use deploy_rs::coordinator::CoordState;
use deploy_rs::coordinator::UnitFailure;
use deploy_rs::coordinator::coord_start;
use deploy_rs::coordinator::coord_step;
use deploy_rs::coordinator::revocation_plan;
use deploy_rs::deploy::DeployProfileError;
use deploy_rs::deploy::UnitAction;
use deploy_rs::deploy::UnitEvent;
use deploy_rs::deploy::UnitState;
use deploy_rs::deploy::unit_start;
use deploy_rs::deploy::unit_step;
use deploy_rs::resolve::DeployData;

fn ok_exit() -> Result<CmdOutput, String> {
    Ok(CmdOutput { code: Some(0), stdout: Vec::new(), stderr: Vec::new() })
}

fn bad_exit(code: i32) -> Result<CmdOutput, String> {
    Ok(CmdOutput { code: Some(code), stdout: Vec::new(), stderr: Vec::new() })
}

fn flags(magic: bool, dry: bool, boot: bool) -> ActivateFlags {
    ActivateFlags {
        auto_rollback: true,
        magic_rollback: magic,
        dry_activate: dry,
        boot,
        test: false,
        confirm_timeout: 30,
    }
}

fn unit(auto_rollback: Option<bool>) -> DeployData {
    DeployData {
        node_name: "box".to_string(),
        profile_name: "system".to_string(),
        closure: "/nix/store/abc-x".to_string(),
        explicit_profile_path: None,
        node_hostname: Some("box.example".to_string()),
        host_override: None,
        merged_settings: deploy_rs::data::GenericSettings {
            ssh_user: None,
            user: None,
            ssh_opts: Vec::new(),
            fast_connection: None,
            auto_rollback,
            confirm_timeout: None,
            activation_timeout: None,
            temp_path: None,
            magic_rollback: None,
            remote_build: None,
            sudo: None,
        },
        debug_logs: false,
        log_dir: None,
    }
}

/// Runs the whole rollback sequence against well-behaved host tools and
/// returns the deleted generation identifier.
fn run_rollback_happily(list_output: &str) -> (String, Result<(), ()>) {
    let (s, a) = rollback_start();
    assert!(matches!(s, RollbackStep::RunningRollback));
    assert!(matches!(a, RollbackAction::RunRollback));
    let (s, a) = rollback_step(s, ok_exit(), "nix-env --rollback".to_string());
    assert!(matches!(a, Some(RollbackAction::RunListGenerations)));
    let listing = Ok(CmdOutput {
        code: Some(0),
        stdout: list_output.as_bytes().to_vec(),
        stderr: Vec::new(),
    });
    let (s, a) = rollback_step(s, listing, "nix-env --list-generations".to_string());
    let id = match a {
        Some(RollbackAction::RunDeleteGeneration(id)) => id,
        other => panic!("expected a delete action, got {:?}", other.is_some()),
    };
    let (s, a) = rollback_step(s, ok_exit(), "nix-env --delete-generations".to_string());
    assert!(matches!(a, Some(RollbackAction::RunReactivate)));
    let (s, _) = rollback_step(s, ok_exit(), "deploy-rs-activate".to_string());
    match s {
        RollbackStep::Done(Ok(())) => (id, Ok(())),
        _ => (id, Err(())),
    }
}

#[test]
fn rollback_deletes_the_last_listed_generation() {
    let (id, done) = run_rollback_happily("  10   2024-01-01\n  11   2024-01-02\n");
    assert_eq!(id, "11");
    assert!(done.is_ok());
}

#[test]
fn rollback_reports_each_failing_step() {
    let (s, _) = rollback_start();
    let (s, a) = rollback_step(s, bad_exit(1), "nix-env --rollback".to_string());
    assert!(a.is_none());
    assert!(matches!(
        s,
        RollbackStep::Done(Err(deploy_rs::activation::DeactivateError::Rollback(
            CommandError::Exit(_, _)
        )))
    ));

    let (s, _) = rollback_start();
    let (s, _) = rollback_step(s, ok_exit(), String::new());
    let (s, _) = rollback_step(s, Err("lost".to_string()), String::new());
    assert!(matches!(
        s,
        RollbackStep::Done(Err(deploy_rs::activation::DeactivateError::ListGen(
            CommandError::RunError(_)
        )))
    ));
}

#[test]
fn rollback_covers_the_remaining_failures() {
    // A generation list that is not UTF-8.
    let (s, _) = rollback_start();
    let (s, _) = rollback_step(s, ok_exit(), String::new());
    let listing = Ok(CmdOutput { code: Some(0), stdout: vec![0xff, 0xfe], stderr: Vec::new() });
    let (s, _) = rollback_step(s, listing, String::new());
    assert!(matches!(
        s,
        RollbackStep::Done(Err(deploy_rs::activation::DeactivateError::DecodeListGenUtf8(_)))
    ));

    // A generation list with nothing in it.
    let (s, _) = rollback_start();
    let (s, _) = rollback_step(s, ok_exit(), String::new());
    let (s, _) = rollback_step(s, ok_exit(), String::new());
    assert!(matches!(
        s,
        RollbackStep::Done(Err(deploy_rs::activation::DeactivateError::NoGeneration))
    ));

    // The deletion and the re-activation can each fail.
    let (s, _) = rollback_start();
    let (s, _) = rollback_step(s, ok_exit(), String::new());
    let listing = Ok(CmdOutput { code: Some(0), stdout: b"9 x\n".to_vec(), stderr: Vec::new() });
    let (s, _) = rollback_step(s, listing, String::new());
    let (s, _) = rollback_step(s, bad_exit(1), String::new());
    assert!(matches!(
        s,
        RollbackStep::Done(Err(deploy_rs::activation::DeactivateError::DeleteGen(_)))
    ));

    let (s, _) = rollback_start();
    let (s, _) = rollback_step(s, ok_exit(), String::new());
    let listing = Ok(CmdOutput { code: Some(0), stdout: b"9 x\n".to_vec(), stderr: Vec::new() });
    let (s, _) = rollback_step(s, listing, String::new());
    let (s, _) = rollback_step(s, ok_exit(), String::new());
    let (s, _) = rollback_step(s, Err("gone".to_string()), String::new());
    assert!(matches!(
        s,
        RollbackStep::Done(Err(deploy_rs::activation::DeactivateError::Reactivate(_)))
    ));
}

#[test]
fn race_reports_each_carrier_failure() {
    // The wait carrier exits badly while activate still runs: the unit
    // fails and the activation carrier is killed.
    let (us, _) = unit_start(true, false, false);
    let (us, ua) = unit_step(us, UnitEvent::WaitDone(Ok(Some(2))));
    assert!(matches!(ua, Some(UnitAction::KillActivate)));
    assert!(matches!(us, UnitState::Done(Err(DeployProfileError::SSHWaitExit(Some(2))))));

    // The wait carrier cannot be run at all.
    let (us, _) = unit_start(true, false, false);
    let (us, _) = unit_step(us, UnitEvent::WaitDone(Err("lost".to_string())));
    assert!(matches!(us, UnitState::Done(Err(DeployProfileError::SSHWait(_)))));

    // The activation carrier cannot be run at all.
    let (us, _) = unit_start(true, false, false);
    let (us, _) = unit_step(us, UnitEvent::ActivateDone(Err("lost".to_string())));
    assert!(matches!(us, UnitState::Done(Err(DeployProfileError::SSHActivate(_)))));

    // The activation carrier cannot even be spawned.
    let (us, _) = unit_start(true, false, false);
    let (us, ua) = unit_step(us, UnitEvent::ActivateSpawnFailed("no ssh".to_string()));
    assert!(matches!(ua, Some(UnitAction::KillWait)));
    assert!(matches!(us, UnitState::Done(Err(DeployProfileError::SSHSpawnActivate(_)))));

    // The confirmation command cannot be run; the target rolls back on
    // its own.
    let (us, _) = unit_start(true, false, false);
    let (us, _) = unit_step(us, UnitEvent::WaitDone(Ok(Some(0))));
    let (us, _) = unit_step(us, UnitEvent::ConfirmDone(Err("lost".to_string())));
    assert!(matches!(
        us,
        UnitState::Done(Err(DeployProfileError::Confirm(
            deploy_rs::deploy::ConfirmProfileError::SSHConfirm(_)
        )))
    ));
}

#[test]
fn agent_reports_set_profile_and_nested_rollback_failures() {
    // The symlink swap fails and the rollback that follows fails too:
    // both failures surface, the rollback's one on top.
    let f = flags(true, false, false);
    let (s, _) = agent_start(&f);
    let (s, a) = agent_step(s, &f, AgentEvent::CmdFinished(bad_exit(1)), "nix-env --set".to_string());
    assert!(matches!(a, Some(AgentAction::StartRollback)));
    let (s, _) = agent_step(
        s,
        &f,
        AgentEvent::RollbackSettled(Err(deploy_rs::activation::DeactivateError::NoGeneration)),
        String::new(),
    );
    assert!(matches!(s, AgentState::Done(Err(ActivateError::Deactivate(_)))));

    // Without auto-rollback the swap failure is reported directly.
    let mut f2 = flags(true, false, false);
    f2.auto_rollback = false;
    let (s, _) = agent_start(&f2);
    let (s, a) = agent_step(s, &f2, AgentEvent::CmdFinished(bad_exit(1)), String::new());
    assert!(a.is_none());
    assert!(matches!(s, AgentState::Done(Err(ActivateError::SetProfile(_)))));
}

#[test]
fn watchdog_verdicts_are_distinct() {
    assert!(matches!(
        danger_zone_outcome(WatchSignal::ChannelClosed),
        Err(DangerZoneError::NoConfirmation)
    ));
    assert!(matches!(
        danger_zone_outcome(WatchSignal::Received(Err("inotify failed".to_string()))),
        Err(DangerZoneError::Watch(_))
    ));
    assert!(danger_zone_outcome(WatchSignal::Received(Ok(()))).is_ok());
}

#[test]
fn happy_path_confirms_once_and_succeeds() {
    // One unit; push succeeds, the sentinel is observed, the
    // confirmation runs, both carriers end well.
    let units = vec![unit(None)];
    let mut log: Vec<&'static str> = Vec::new();

    let (cs, ca) = coord_start(&units);
    assert!(matches!(ca, Some(CoordAction::PushUnit(0))));
    log.push("push#1");
    let (cs, ca) = coord_step(cs, CoordEvent::PushFinished(Ok(())), &units, true, false);
    assert!(matches!(ca, Some(CoordAction::DeployUnit(0))));

    let (us, actions) = unit_start(true, false, false);
    assert!(matches!(actions[0], UnitAction::SpawnActivate));
    assert!(matches!(actions[1], UnitAction::SpawnWait));
    log.push("activate#1");
    log.push("wait#1");
    let (us, ua) = unit_step(us, UnitEvent::WaitDone(Ok(Some(0))));
    assert!(matches!(ua, Some(UnitAction::RunConfirm)));
    log.push("rm#1");
    let (us, ua) = unit_step(us, UnitEvent::ConfirmDone(Ok(Some(0))));
    assert!(ua.is_none());
    assert!(matches!(us, UnitState::AwaitingActivate));
    let (us, _) = unit_step(us, UnitEvent::ActivateDone(Ok(Some(0))));
    let outcome = match us {
        UnitState::Done(r) => r,
        _ => panic!("race not settled"),
    };
    assert!(outcome.is_ok());

    let (cs, ca) = coord_step(cs, CoordEvent::UnitFinished(outcome), &units, true, false);
    assert!(ca.is_none());
    assert!(matches!(cs, CoordState::Done(Ok(()))));
    // Exactly one confirmation ran.
    assert_eq!(log.iter().filter(|s| **s == "rm#1").count(), 1);
    assert_eq!(log, vec!["push#1", "activate#1", "wait#1", "rm#1"]);
}

#[test]
fn timeout_rolls_the_target_back() {
    // The confirmation never arrives; the agent's watchdog elapses,
    // the rollback sequence runs, and the agent exits with the timeout.
    let f = flags(true, false, false);
    let (s, a) = agent_start(&f);
    assert!(matches!(a, AgentAction::RunSetProfile));
    let (s, a) = agent_step(s, &f, AgentEvent::CmdFinished(ok_exit()), String::new());
    assert!(matches!(a, Some(AgentAction::RunActivationScript)));
    let (s, a) = agent_step(s, &f, AgentEvent::CmdFinished(ok_exit()), String::new());
    assert!(matches!(a, Some(AgentAction::SetupWatchdog)));
    assert!(matches!(s, AgentState::WaitingConfirmation));

    let verdict = danger_zone_outcome(WatchSignal::TimedOut);
    let err = match verdict {
        Err(e) => e,
        Ok(()) => panic!("a timeout must not confirm"),
    };
    assert!(matches!(err, DangerZoneError::TimesUp));
    let (s, a) = agent_step(
        s,
        &f,
        AgentEvent::Watchdog(Err(ActivationConfirmationError::WaitingError(err))),
        String::new(),
    );
    assert!(matches!(a, Some(AgentAction::StartRollback)));
    let (id, done) = run_rollback_happily("  7 old\n  8 broken\n");
    assert_eq!(id, "8");
    assert!(done.is_ok());
    let (s, _) = agent_step(s, &f, AgentEvent::RollbackSettled(Ok(())), String::new());
    assert!(matches!(
        s,
        AgentState::Done(Err(ActivateError::ActivationConfirmation(
            ActivationConfirmationError::WaitingError(DangerZoneError::TimesUp)
        )))
    ));

    // Controller side: the blocked `rm` surfaces as a confirmation error.
    let (us, _) = unit_start(true, false, false);
    let (us, _) = unit_step(us, UnitEvent::WaitDone(Ok(Some(0))));
    let (us, _) = unit_step(us, UnitEvent::ConfirmDone(Ok(Some(1))));
    assert!(matches!(
        us,
        UnitState::Done(Err(DeployProfileError::Confirm(
            deploy_rs::deploy::ConfirmProfileError::SSHConfirmExit(Some(1))
        )))
    ));
}

#[test]
fn failing_activation_script_rolls_back_and_is_never_confirmed() {
    // The activation script exits 1.
    let f = flags(true, false, false);
    let (s, _) = agent_start(&f);
    let (s, _) = agent_step(s, &f, AgentEvent::CmdFinished(ok_exit()), String::new());
    let (s, a) = agent_step(
        s,
        &f,
        AgentEvent::CmdFinished(bad_exit(1)),
        "deploy-rs-activate".to_string(),
    );
    assert!(matches!(a, Some(AgentAction::StartRollback)));
    let (s, _) = agent_step(s, &f, AgentEvent::RollbackSettled(Ok(())), String::new());
    match s {
        AgentState::Done(Err(ActivateError::RunActivate(CommandError::Exit(out, cmd)))) => {
            assert_eq!(out.code, Some(1));
            assert_eq!(cmd, "deploy-rs-activate");
        },
        _ => panic!("the script failure must be reported after the rollback"),
    }

    // Controller side: activate lost the race; the wait carrier is
    // killed and no confirmation is attempted.
    let (us, _) = unit_start(true, false, false);
    let (us, ua) = unit_step(us, UnitEvent::ActivateDone(Ok(Some(1))));
    assert!(matches!(ua, Some(UnitAction::KillWait)));
    assert!(matches!(us, UnitState::Done(Err(DeployProfileError::SSHActivateExit(Some(1))))));
}

#[test]
fn partial_failure_revokes_exactly_the_earlier_units() {
    // Three units on one node; the second fails its activation.
    let units = vec![unit(Some(true)), unit(Some(true)), unit(Some(true))];
    let mut invocations: Vec<String> = Vec::new();

    let (cs, ca) = coord_start(&units);
    assert!(matches!(ca, Some(CoordAction::PushUnit(0))));
    let (cs, ca) = coord_step(cs, CoordEvent::PushFinished(Ok(())), &units, true, false);
    assert!(matches!(ca, Some(CoordAction::DeployUnit(0))));

    // Unit 1 deploys cleanly through its race.
    let (us, _) = unit_start(true, false, false);
    invocations.push("activate#1".to_string());
    invocations.push("wait#1".to_string());
    let (us, ua) = unit_step(us, UnitEvent::WaitDone(Ok(Some(0))));
    assert!(matches!(ua, Some(UnitAction::RunConfirm)));
    invocations.push("rm#1".to_string());
    let (us, _) = unit_step(us, UnitEvent::ConfirmDone(Ok(Some(0))));
    let (us, _) = unit_step(us, UnitEvent::ActivateDone(Ok(Some(0))));
    let outcome1 = match us {
        UnitState::Done(r) => r,
        _ => panic!("race not settled"),
    };
    let (cs, ca) = coord_step(cs, CoordEvent::UnitFinished(outcome1), &units, true, false);
    assert!(matches!(ca, Some(CoordAction::PushUnit(1))));
    let (cs, ca) = coord_step(cs, CoordEvent::PushFinished(Ok(())), &units, true, false);
    assert!(matches!(ca, Some(CoordAction::DeployUnit(1))));

    // Unit 2 fails its activation; no confirmation for it.
    let (us, _) = unit_start(true, false, false);
    invocations.push("activate#2".to_string());
    invocations.push("wait#2".to_string());
    let (us, ua) = unit_step(us, UnitEvent::ActivateDone(Ok(Some(1))));
    assert!(matches!(ua, Some(UnitAction::KillWait)));
    let outcome2 = match us {
        UnitState::Done(r) => r,
        _ => panic!("race not settled"),
    };

    let (cs, ca) = coord_step(cs, CoordEvent::UnitFinished(outcome2), &units, true, false);
    match ca {
        Some(CoordAction::RevokeUnit(i)) => {
            assert_eq!(i, 0);
            invocations.push("revoke#1".to_string());
        },
        _ => panic!("the succeeded unit must be revoked"),
    }
    let (cs, ca) = coord_step(cs, CoordEvent::RevokeFinished(Ok(())), &units, true, false);
    assert!(ca.is_none());
    match cs {
        CoordState::Done(Err(f)) => {
            assert_eq!(f.unit, 1);
            assert!(matches!(f.failure, UnitFailure::Deploy(_)));
        },
        _ => panic!("the deployment must end in the recorded failure"),
    }
    assert_eq!(
        invocations,
        vec!["activate#1", "wait#1", "rm#1", "activate#2", "wait#2", "revoke#1"]
    );
}

#[test]
fn revocation_plan_filters_by_auto_rollback() {
    let units = vec![unit(Some(true)), unit(Some(false)), unit(None), unit(Some(true))];
    // The fourth unit failed: the walk names the earlier opted-in units,
    // in original order.
    assert_eq!(revocation_plan(&units, 3, true, false), vec![0usize, 2usize]);
    // Under a dry run, or with revocation switched off, nothing is touched.
    assert_eq!(revocation_plan(&units, 3, true, true), Vec::<usize>::new());
    assert_eq!(revocation_plan(&units, 3, false, false), Vec::<usize>::new());
}

#[test]
fn boot_mode_never_arms_the_watchdog() {
    // Under --boot the agent runs the script and exits; the
    // controller spawns no wait carrier and deletes no sentinel.
    let f = flags(true, false, true);
    let (s, _) = agent_start(&f);
    let (s, _) = agent_step(s, &f, AgentEvent::CmdFinished(ok_exit()), String::new());
    let (s, a) = agent_step(s, &f, AgentEvent::CmdFinished(ok_exit()), String::new());
    assert!(a.is_none());
    assert!(matches!(s, AgentState::Done(Ok(()))));

    let (us, actions) = unit_start(true, false, true);
    assert_eq!(actions.len(), 1);
    assert!(matches!(actions[0], UnitAction::SpawnActivate));
    assert!(matches!(us, UnitState::AwaitingActivate));
    let (us, ua) = unit_step(us, UnitEvent::ActivateDone(Ok(Some(0))));
    assert!(ua.is_none());
    assert!(matches!(us, UnitState::Done(Ok(()))));
}

#[test]
fn push_failure_stops_without_revoking() {
    let units = vec![unit(Some(true)), unit(Some(true))];
    let (cs, _) = coord_start(&units);
    let (cs, ca) = coord_step(
        cs,
        CoordEvent::PushFinished(Err("no route to host".to_string())),
        &units,
        true,
        false,
    );
    assert!(ca.is_none());
    match cs {
        CoordState::Done(Err(f)) => {
            assert_eq!(f.unit, 0);
            assert!(matches!(f.failure, UnitFailure::Push(_)));
        },
        _ => panic!("a push failure must stop the run"),
    }
}

#[test]
fn dry_activate_ignores_the_script_exit() {
    let f = flags(true, true, false);
    let (s, a) = agent_start(&f);
    assert!(matches!(a, AgentAction::RunActivationScript));
    let (s, a) = agent_step(s, &f, AgentEvent::CmdFinished(bad_exit(1)), String::new());
    assert!(a.is_none());
    assert!(matches!(s, AgentState::Done(Ok(()))));
}
