//! Controller-side deployment of one unit: the exact remote command
//! strings, and the race that plays one activation out — `activate` and
//! `wait` carriers running concurrently, confirmation sent once `wait`
//! reports the sentinel, both carriers settled before the unit is done.

use vstd::prelude::*;

verus! {

use crate::strutil::dec_seq;
use crate::strutil::u64_to_dec;

/// Everything the activate command string is built from.
pub struct ActivateCommandData<'a> {
    pub sudo: &'a Option<String>,
    pub profile_path: &'a str,
    pub closure: &'a str,
    pub auto_rollback: bool,
    pub temp_path: &'a str,
    pub confirm_timeout: u16,
    pub magic_rollback: bool,
    pub debug_logs: bool,
    pub log_dir: Option<&'a str>,
    pub dry_activate: bool,
    pub boot: bool,
    pub test: bool,
}

/// The agent binary inside the closure, with the logging flags every
/// subcommand takes.
pub open spec fn agent_prefix_spec(
    closure: Seq<char>,
    debug_logs: bool,
    log_dir: Option<Seq<char>>,
) -> Seq<char> {
    closure + "/activate-rs"@ + (if debug_logs {
        " --debug-logs"@
    } else {
        Seq::<char>::empty()
    }) + (match log_dir {
        Some(d) => " --log-dir "@ + d,
        None => Seq::<char>::empty(),
    })
}

/// A sudo prefix applied in front of a remote command.
pub open spec fn with_sudo_spec(sudo: Option<Seq<char>>, cmd: Seq<char>) -> Seq<char> {
    match sudo {
        Some(s) => s + " "@ + cmd,
        None => cmd,
    }
}

pub open spec fn opt_view(o: Option<String>) -> Option<Seq<char>> {
    match o {
        Some(s) => Some(s@),
        None => None,
    }
}

pub open spec fn opt_str_ref_view(o: Option<&str>) -> Option<Seq<char>> {
    match o {
        Some(s) => Some(s@),
        None => None,
    }
}

/// The exact remote `activate` invocation.
pub open spec fn activate_command_spec(d: ActivateCommandData) -> Seq<char> {
    with_sudo_spec(
        opt_view(*d.sudo),
        agent_prefix_spec(d.closure@, d.debug_logs, opt_str_ref_view(d.log_dir)) + " activate '"@
            + d.closure@ + "' '"@ + d.profile_path@ + "' --temp-path '"@ + d.temp_path@ + "'"@
            + " --confirm-timeout "@ + dec_seq(d.confirm_timeout as nat) + (if d.magic_rollback {
            " --magic-rollback"@
        } else {
            Seq::<char>::empty()
        }) + (if d.auto_rollback {
            " --auto-rollback"@
        } else {
            Seq::<char>::empty()
        }) + (if d.dry_activate {
            " --dry-activate"@
        } else {
            Seq::<char>::empty()
        }) + (if d.boot {
            " --boot"@
        } else {
            Seq::<char>::empty()
        }) + (if d.test {
            " --test"@
        } else {
            Seq::<char>::empty()
        }),
    )
}

fn agent_prefix(closure: &str, debug_logs: bool, log_dir: Option<&str>) -> (r: String)
    ensures
        r@ == agent_prefix_spec(closure@, debug_logs, opt_str_ref_view(log_dir)),
{
    proof {
        reveal_strlit("/activate-rs");
        reveal_strlit(" --debug-logs");
        reveal_strlit(" --log-dir ");
    }
    let mut r = String::from_str(closure).concat("/activate-rs");
    if debug_logs {
        r = r.concat(" --debug-logs");
    }
    if let Some(d) = log_dir {
        r = r.concat(" --log-dir ").concat(d);
    }
    proof {
        assert(r@ =~= agent_prefix_spec(closure@, debug_logs, opt_str_ref_view(log_dir)));
    }
    r
}

fn with_sudo(sudo: &Option<String>, cmd: String) -> (r: String)
    ensures
        r@ == with_sudo_spec(opt_view(*sudo), cmd@),
{
    proof {
        reveal_strlit(" ");
    }
    match sudo {
        Some(s) => {
            let r = s.clone().concat(" ").concat(cmd.as_str());
            proof {
                assert(r@ =~= with_sudo_spec(opt_view(*sudo), cmd@));
            }
            r
        },
        None => cmd,
    }
}

/// Builds the remote command that runs the agent's `activate` subcommand.
pub fn build_activate_command(data: &ActivateCommandData) -> (r: String)
    ensures
        r@ == activate_command_spec(*data),
{
    proof {
        reveal_strlit(" activate '");
        reveal_strlit("' '");
        reveal_strlit("' --temp-path '");
        reveal_strlit("'");
        reveal_strlit(" --confirm-timeout ");
        reveal_strlit(" --magic-rollback");
        reveal_strlit(" --auto-rollback");
        reveal_strlit(" --dry-activate");
        reveal_strlit(" --boot");
        reveal_strlit(" --test");
    }
    let mut cmd = agent_prefix(data.closure, data.debug_logs, data.log_dir);
    cmd = cmd.concat(" activate '").concat(data.closure).concat("' '").concat(
        data.profile_path,
    ).concat("' --temp-path '").concat(data.temp_path).concat("'");
    let timeout = u64_to_dec(data.confirm_timeout as u64);
    cmd = cmd.concat(" --confirm-timeout ").concat(timeout.as_str());
    if data.magic_rollback {
        cmd = cmd.concat(" --magic-rollback");
    }
    if data.auto_rollback {
        cmd = cmd.concat(" --auto-rollback");
    }
    if data.dry_activate {
        cmd = cmd.concat(" --dry-activate");
    }
    if data.boot {
        cmd = cmd.concat(" --boot");
    }
    if data.test {
        cmd = cmd.concat(" --test");
    }
    let r = with_sudo(data.sudo, cmd);
    proof {
        assert(r@ =~= activate_command_spec(*data));
    }
    r
}

/// Everything the wait command string is built from.
pub struct WaitCommandData<'a> {
    pub sudo: &'a Option<String>,
    pub closure: &'a str,
    pub temp_path: &'a str,
    pub debug_logs: bool,
    pub log_dir: Option<&'a str>,
}

/// The exact remote `wait` invocation.
pub open spec fn wait_command_spec(d: WaitCommandData) -> Seq<char> {
    with_sudo_spec(
        opt_view(*d.sudo),
        agent_prefix_spec(d.closure@, d.debug_logs, opt_str_ref_view(d.log_dir)) + " wait '"@
            + d.closure@ + "' --temp-path '"@ + d.temp_path@ + "'"@,
    )
}

/// Builds the remote command that runs the agent's `wait` subcommand.
pub fn build_wait_command(data: &WaitCommandData) -> (r: String)
    ensures
        r@ == wait_command_spec(*data),
{
    proof {
        reveal_strlit(" wait '");
        reveal_strlit("' --temp-path '");
        reveal_strlit("'");
    }
    let mut cmd = agent_prefix(data.closure, data.debug_logs, data.log_dir);
    cmd = cmd.concat(" wait '").concat(data.closure).concat("' --temp-path '").concat(
        data.temp_path,
    ).concat("'");
    let r = with_sudo(data.sudo, cmd);
    proof {
        assert(r@ =~= wait_command_spec(*data));
    }
    r
}

/// Everything the revoke command string is built from.
pub struct RevokeCommandData<'a> {
    pub sudo: &'a Option<String>,
    pub closure: &'a str,
    pub profile_path: &'a str,
    pub debug_logs: bool,
    pub log_dir: Option<&'a str>,
}

/// The exact remote `revoke` invocation.
pub open spec fn revoke_command_spec(d: RevokeCommandData) -> Seq<char> {
    with_sudo_spec(
        opt_view(*d.sudo),
        agent_prefix_spec(d.closure@, d.debug_logs, opt_str_ref_view(d.log_dir)) + " revoke '"@
            + d.profile_path@ + "'"@,
    )
}

/// Builds the remote command that runs the agent's `revoke` subcommand.
pub fn build_revoke_command(data: &RevokeCommandData) -> (r: String)
    ensures
        r@ == revoke_command_spec(*data),
{
    proof {
        reveal_strlit(" revoke '");
        reveal_strlit("'");
    }
    let mut cmd = agent_prefix(data.closure, data.debug_logs, data.log_dir);
    cmd = cmd.concat(" revoke '").concat(data.profile_path).concat("'");
    let r = with_sudo(data.sudo, cmd);
    proof {
        assert(r@ =~= revoke_command_spec(*data));
    }
    r
}

/// The confirmation command: deleting the sentinel, under the same sudo
/// prefix that created it.
pub open spec fn confirm_command_spec(sudo: Option<Seq<char>>, lock_path: Seq<char>) -> Seq<char> {
    with_sudo_spec(sudo, "rm "@ + lock_path)
}

/// Builds the confirmation command run over SSH when `wait` reports the
/// sentinel.
pub fn build_confirm_command(sudo: &Option<String>, lock_path: &str) -> (r: String)
    ensures
        r@ == confirm_command_spec(opt_view(*sudo), lock_path@),
{
    proof {
        reveal_strlit("rm ");
    }
    let cmd = String::from_str("rm ").concat(lock_path);
    let r = with_sudo(sudo, cmd);
    proof {
        assert(r@ =~= confirm_command_spec(opt_view(*sudo), lock_path@));
    }
    r
}

pub enum ConfirmProfileError {
    /// The confirmation command could not be run; the message of the
    /// carrier's error. The target will roll back on its own.
    SSHConfirm(String),
    /// The confirmation command exited with a bad code. The target will
    /// roll back on its own.
    SSHConfirmExit(Option<i32>),
}

pub enum DeployProfileError {
    /// The activation carrier could not be spawned.
    SSHSpawnActivate(String),
    /// The activation carrier failed; the message of the carrier's error.
    SSHActivate(String),
    /// The activation carrier exited with a bad code.
    SSHActivateExit(Option<i32>),
    /// The wait carrier failed; the message of the carrier's error.
    SSHWait(String),
    /// The wait carrier exited with a bad code.
    SSHWaitExit(Option<i32>),
    /// Confirmation failed after a successful wait.
    Confirm(ConfirmProfileError),
}

pub enum RevokeProfileError {
    /// The revocation carrier could not be spawned.
    SSHSpawnRevoke(String),
    /// The revocation carrier failed; the message of the carrier's error.
    SSHRevoke(String),
    /// The revocation carrier exited with a bad code.
    SSHRevokeExit(Option<i32>),
    /// The unit's derived values could not be computed.
    InvalidDeployDataDefs(crate::resolve::DeployDataDefsError),
}

/// How a revocation carrier's end is judged: a zero exit revokes, any
/// other exit or error is reported and the walk goes on elsewhere.
pub fn revoke_outcome(r: Result<Option<i32>, String>) -> (out: Result<(), RevokeProfileError>)
    ensures
        (match r {
            Ok(c) => if c == Some(0i32) {
                out == Ok::<(), RevokeProfileError>(())
            } else {
                out == Err::<(), RevokeProfileError>(RevokeProfileError::SSHRevokeExit(c))
            },
            Err(m) => out == Err::<(), RevokeProfileError>(RevokeProfileError::SSHRevoke(m)),
        }),
{
    match r {
        Ok(c) => match c {
            Some(0i32) => Ok(()),
            _ => Err(RevokeProfileError::SSHRevokeExit(c)),
        },
        Err(m) => Err(RevokeProfileError::SSHRevoke(m)),
    }
}

/// What the outside loop reports back into the race: a carrier finished
/// with an exit status, or failed with an error message.
pub enum UnitEvent {
    ActivateSpawnFailed(String),
    ActivateDone(Result<Option<i32>, String>),
    WaitDone(Result<Option<i32>, String>),
    ConfirmDone(Result<Option<i32>, String>),
}

/// What the outside loop must do next. Spawning uses the command strings
/// built above; killing settles a carrier that lost the race.
pub enum UnitAction {
    SpawnActivate,
    SpawnWait,
    RunConfirm,
    KillActivate,
    KillWait,
}

/// The race of one unit. `activate_exit` records the activation carrier's
/// own end while the rest of the protocol is still in flight.
pub enum UnitState {
    /// Both carriers are running; the first meaningful event decides.
    Racing { activate_exit: Option<Result<Option<i32>, String>> },
    /// `wait` reported the sentinel; the confirmation command is running.
    Confirming { activate_exit: Option<Result<Option<i32>, String>> },
    /// Confirmation is through (or was never needed); only the
    /// activation carrier's exit is still owed.
    AwaitingActivate,
    Done(Result<(), DeployProfileError>),
}

/// The opening move: under magic rollback both carriers spawn, `activate`
/// first; in dry-activate, boot, or plain mode only `activate` runs and
/// no confirmation is ever attempted.
pub open spec fn unit_start_spec(magic_rollback: bool, dry_activate: bool, boot: bool) -> (
    UnitState,
    Seq<UnitAction>,
) {
    if magic_rollback && !dry_activate && !boot {
        (
            UnitState::Racing { activate_exit: None },
            seq![UnitAction::SpawnActivate, UnitAction::SpawnWait],
        )
    } else {
        (UnitState::AwaitingActivate, seq![UnitAction::SpawnActivate])
    }
}

/// Starts one unit's race.
pub fn unit_start(magic_rollback: bool, dry_activate: bool, boot: bool) -> (r: (
    UnitState,
    Vec<UnitAction>,
))
    ensures
        r.0 == unit_start_spec(magic_rollback, dry_activate, boot).0,
        r.1@ == unit_start_spec(magic_rollback, dry_activate, boot).1,
{
    let mut actions: Vec<UnitAction> = Vec::new();
    actions.push(UnitAction::SpawnActivate);
    if magic_rollback && !dry_activate && !boot {
        actions.push(UnitAction::SpawnWait);
        proof {
            assert(actions@ =~= unit_start_spec(magic_rollback, dry_activate, boot).1);
        }
        (UnitState::Racing { activate_exit: None }, actions)
    } else {
        proof {
            assert(actions@ =~= unit_start_spec(magic_rollback, dry_activate, boot).1);
        }
        (UnitState::AwaitingActivate, actions)
    }
}

/// How a recorded activation exit resolves once confirmation succeeded.
pub open spec fn resolve_activate_exit(ae: Result<Option<i32>, String>) -> UnitState {
    match ae {
        Ok(c) => if c == Some(0i32) {
            UnitState::Done(Ok(()))
        } else {
            UnitState::Done(Err(DeployProfileError::SSHActivateExit(c)))
        },
        Err(m) => UnitState::Done(Err(DeployProfileError::SSHActivate(m))),
    }
}

/// One transition of the race. Confirmation is attempted exactly when
/// `wait` exits 0 while racing; a failed `activate` is never confirmed; a
/// carrier that lost the race is killed, never orphaned. An event that
/// does not belong to the state leaves it unchanged.
pub open spec fn unit_step_spec(s: UnitState, e: UnitEvent) -> (UnitState, Option<UnitAction>) {
    match (s, e) {
        (UnitState::Racing { activate_exit }, UnitEvent::ActivateSpawnFailed(m)) => (
            UnitState::Done(Err(DeployProfileError::SSHSpawnActivate(m))),
            Some(UnitAction::KillWait),
        ),
        (UnitState::Racing { activate_exit: None }, UnitEvent::ActivateDone(r)) => match r {
            Ok(c) => if c == Some(0i32) {
                (UnitState::Racing { activate_exit: Some(Ok(c)) }, None)
            } else {
                (
                    UnitState::Done(Err(DeployProfileError::SSHActivateExit(c))),
                    Some(UnitAction::KillWait),
                )
            },
            Err(m) => (
                UnitState::Done(Err(DeployProfileError::SSHActivate(m))),
                Some(UnitAction::KillWait),
            ),
        },
        (UnitState::Racing { activate_exit }, UnitEvent::WaitDone(r)) => match r {
            Ok(c) => if c == Some(0i32) {
                (UnitState::Confirming { activate_exit }, Some(UnitAction::RunConfirm))
            } else {
                (
                    UnitState::Done(Err(DeployProfileError::SSHWaitExit(c))),
                    if activate_exit is None {
                        Some(UnitAction::KillActivate)
                    } else {
                        None
                    },
                )
            },
            Err(m) => (
                UnitState::Done(Err(DeployProfileError::SSHWait(m))),
                if activate_exit is None {
                    Some(UnitAction::KillActivate)
                } else {
                    None
                },
            ),
        },
        (UnitState::Confirming { activate_exit: None }, UnitEvent::ActivateDone(r)) => (
            UnitState::Confirming { activate_exit: Some(r) },
            None,
        ),
        (UnitState::Confirming { activate_exit }, UnitEvent::ConfirmDone(r)) => match r {
            Ok(c) => if c == Some(0i32) {
                match activate_exit {
                    None => (UnitState::AwaitingActivate, None),
                    Some(ae) => (resolve_activate_exit(ae), None),
                }
            } else {
                (
                    UnitState::Done(
                        Err(
                            DeployProfileError::Confirm(ConfirmProfileError::SSHConfirmExit(c)),
                        ),
                    ),
                    if activate_exit is None {
                        Some(UnitAction::KillActivate)
                    } else {
                        None
                    },
                )
            },
            Err(m) => (
                UnitState::Done(
                    Err(DeployProfileError::Confirm(ConfirmProfileError::SSHConfirm(m))),
                ),
                if activate_exit is None {
                    Some(UnitAction::KillActivate)
                } else {
                    None
                },
            ),
        },
        (UnitState::AwaitingActivate, UnitEvent::ActivateDone(r)) => (
            resolve_activate_exit(r),
            None,
        ),
        (UnitState::AwaitingActivate, UnitEvent::ActivateSpawnFailed(m)) => (
            UnitState::Done(Err(DeployProfileError::SSHSpawnActivate(m))),
            None,
        ),
        (s0, _) => (s0, None),
    }
}

/// One transition of the race, as the outside loop drives it.
pub fn unit_step(s: UnitState, e: UnitEvent) -> (r: (UnitState, Option<UnitAction>))
    ensures
        r == unit_step_spec(s, e),
{
    match (s, e) {
        (UnitState::Racing { activate_exit: _ }, UnitEvent::ActivateSpawnFailed(m)) => (
            UnitState::Done(Err(DeployProfileError::SSHSpawnActivate(m))),
            Some(UnitAction::KillWait),
        ),
        (UnitState::Racing { activate_exit: None }, UnitEvent::ActivateDone(r)) => match r {
            Ok(c) => match c {
                Some(0i32) => (UnitState::Racing { activate_exit: Some(Ok(c)) }, None),
                _ => (
                    UnitState::Done(Err(DeployProfileError::SSHActivateExit(c))),
                    Some(UnitAction::KillWait),
                ),
            },
            Err(m) => (
                UnitState::Done(Err(DeployProfileError::SSHActivate(m))),
                Some(UnitAction::KillWait),
            ),
        },
        (UnitState::Racing { activate_exit }, UnitEvent::WaitDone(r)) => match r {
            Ok(c) => match c {
                Some(0i32) => (
                    UnitState::Confirming { activate_exit },
                    Some(UnitAction::RunConfirm),
                ),
                _ => {
                    let kill = if activate_exit.is_none() {
                        Some(UnitAction::KillActivate)
                    } else {
                        None
                    };
                    (UnitState::Done(Err(DeployProfileError::SSHWaitExit(c))), kill)
                },
            },
            Err(m) => {
                let kill = if activate_exit.is_none() {
                    Some(UnitAction::KillActivate)
                } else {
                    None
                };
                (UnitState::Done(Err(DeployProfileError::SSHWait(m))), kill)
            },
        },
        (UnitState::Confirming { activate_exit: None }, UnitEvent::ActivateDone(r)) => (
            UnitState::Confirming { activate_exit: Some(r) },
            None,
        ),
        (UnitState::Confirming { activate_exit }, UnitEvent::ConfirmDone(r)) => match r {
            Ok(c) => match c {
                Some(0i32) => match activate_exit {
                    None => (UnitState::AwaitingActivate, None),
                    Some(ae) => (resolve_activate_exit_exec(ae), None),
                },
                _ => {
                    let kill = if activate_exit.is_none() {
                        Some(UnitAction::KillActivate)
                    } else {
                        None
                    };
                    (
                        UnitState::Done(
                            Err(
                                DeployProfileError::Confirm(
                                    ConfirmProfileError::SSHConfirmExit(c),
                                ),
                            ),
                        ),
                        kill,
                    )
                },
            },
            Err(m) => {
                let kill = if activate_exit.is_none() {
                    Some(UnitAction::KillActivate)
                } else {
                    None
                };
                (
                    UnitState::Done(
                        Err(DeployProfileError::Confirm(ConfirmProfileError::SSHConfirm(m))),
                    ),
                    kill,
                )
            },
        },
        (UnitState::AwaitingActivate, UnitEvent::ActivateDone(r)) => (
            resolve_activate_exit_exec(r),
            None,
        ),
        (UnitState::AwaitingActivate, UnitEvent::ActivateSpawnFailed(m)) => (
            UnitState::Done(Err(DeployProfileError::SSHSpawnActivate(m))),
            None,
        ),
        (s0, _) => (s0, None),
    }
}

fn resolve_activate_exit_exec(ae: Result<Option<i32>, String>) -> (r: UnitState)
    ensures
        r == resolve_activate_exit(ae),
{
    match ae {
        Ok(c) => match c {
            Some(0i32) => UnitState::Done(Ok(())),
            _ => UnitState::Done(Err(DeployProfileError::SSHActivateExit(c))),
        },
        Err(m) => UnitState::Done(Err(DeployProfileError::SSHActivate(m))),
    }
}

/// Confirmation is sent only upon the wait carrier's success while the
/// race is open: the sentinel was observed before the controller ever
/// deletes it.
pub proof fn lemma_confirm_only_after_wait(s: UnitState, e: UnitEvent)
    ensures
        unit_step_spec(s, e).1 == Some(UnitAction::RunConfirm) ==> (s matches UnitState::Racing {
            ..
        }) && e == UnitEvent::WaitDone(Ok(Some(0i32))),
{
}

/// When the race ends while a carrier is still unaccounted for, the same
/// step kills that carrier: no SSH subprocess outlives its unit.
pub proof fn lemma_no_orphaned_carriers(s: UnitState, e: UnitEvent)
    ensures
        (s matches UnitState::Racing { .. } && unit_step_spec(s, e).0 is Done) ==> ((
        e matches UnitEvent::WaitDone(_)) || unit_step_spec(s, e).1 == Some(UnitAction::KillWait)),
        (s matches UnitState::Racing { activate_exit: None } && unit_step_spec(s, e).0 is Done)
            ==> ((e matches UnitEvent::ActivateDone(_)) || (
        e matches UnitEvent::ActivateSpawnFailed(_)) || unit_step_spec(s, e).1 == Some(
            UnitAction::KillActivate,
        )),
        (s matches UnitState::Confirming { activate_exit: None } && unit_step_spec(s, e).0
            is Done) ==> unit_step_spec(s, e).1 == Some(UnitAction::KillActivate),
{
}

/// A unit that starts without magic rollback, in dry-activate or in boot
/// mode never spawns a wait carrier and never confirms: its only possible
/// actions are the activation spawn itself.
pub proof fn lemma_boot_mode_no_wait(magic_rollback: bool, dry_activate: bool, boot: bool)
    requires
        !magic_rollback || dry_activate || boot,
    ensures
        unit_start_spec(magic_rollback, dry_activate, boot).1 =~= seq![UnitAction::SpawnActivate],
        unit_start_spec(magic_rollback, dry_activate, boot).0 == UnitState::AwaitingActivate,
{
}

/// The `user@host` address an SSH carrier connects to.
pub fn build_ssh_addr(ssh_user: &str, hostname: &str) -> (r: String)
    ensures
        r@ == ssh_user@ + "@"@ + hostname@,
{
    proof {
        reveal_strlit("@");
    }
    let r = String::from_str(ssh_user).concat("@").concat(hostname);
    proof {
        assert(r@ =~= ssh_user@ + "@"@ + hostname@);
    }
    r
}

} // verus!
