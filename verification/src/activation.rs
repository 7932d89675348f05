//! The target-side activation agent: its own sentinel-path derivation, the
//! rollback sequence, the `activate` decision machine with the magic-
//! rollback watchdog, the `wait` event filter, and the profile-path
//! derivation. Process spawning, filesystem watching and timers stay
//! outside; they only feed events in and carry actions out.

use vstd::prelude::*;

verus! {

use vstd::utf8::valid_utf8;
use vstd::utf8::decode_utf8;
use crate::command::CmdOutput;
use crate::command::CommandError;
use crate::command::HasCommandError;
use crate::strutil::find_char_from;
use crate::strutil::find_char;
use crate::strutil::lemma_find_char_from_bounds;
use crate::strutil::lemma_find_char_from_is;
use crate::sentinel_path_spec;
use crate::valid_closure_for_lock;
use crate::store_prefix_len;
use crate::target::find_last;
use crate::target::lemma_find_last_bounds;

// --- The sentinel path, derived on the agent's side ------------------------

/// The agent's own derivation of the sentinel path: it first strips the
/// store prefix off the closure, then drops everything from the first `-`
/// of the remainder on.
pub open spec fn agent_sentinel_path_spec(temp_path: Seq<char>, closure: Seq<char>) -> Seq<char> {
    let rest = closure.skip(store_prefix_len());
    temp_path + "/deploy-rs-canary-"@ + rest.take(find_char_from(rest, '-', 0))
}

/// Where the agent creates the sentinel file.
pub fn sentinel_path(temp_path: &str, closure: &str) -> (r: String)
    requires
        valid_closure_for_lock(closure@),
    ensures
        r@ == agent_sentinel_path_spec(temp_path@, closure@),
{
    let n = closure.unicode_len();
    let rest = closure.substring_char(11, n);
    proof {
        lemma_find_char_from_bounds(rest@, '-', 0);
    }
    let dash = find_char(rest, '-', 0);
    let hash_part = rest.substring_char(0, dash);
    let r = String::from_str(temp_path).concat("/deploy-rs-canary-").concat(hash_part);
    proof {
        assert(rest@ =~= closure@.skip(store_prefix_len()));
        assert(hash_part@ =~= rest@.take(find_char_from(rest@, '-', 0)));
        assert(r@ =~= agent_sentinel_path_spec(temp_path@, closure@));
    }
    r
}

/// Controller and agent derive the sentinel path independently — the
/// controller from the whole closure, the agent from the closure with its
/// store prefix stripped — and agree byte for byte on every valid input.
pub proof fn lemma_sentinel_path_agreement(temp_path: Seq<char>, closure: Seq<char>)
    requires
        valid_closure_for_lock(closure),
    ensures
        agent_sentinel_path_spec(temp_path, closure) == sentinel_path_spec(temp_path, closure),
{
    let rest = closure.skip(store_prefix_len());
    lemma_find_char_from_bounds(closure, '-', 0);
    lemma_find_char_from_bounds(rest, '-', 0);
    let d = find_char_from(rest, '-', 0);
    assert(forall|j: int| 0 <= j < rest.len() ==> rest[j] == closure[j + store_prefix_len()]);
    assert forall|j: int| 0 <= j < d + store_prefix_len() implies closure[j] != '-' by {
        if j >= store_prefix_len() {
            assert(rest[j - store_prefix_len()] == closure[j - store_prefix_len()
                + store_prefix_len()]);
        }
    }
    assert(d < rest.len() ==> closure[d + store_prefix_len()] == rest[d]);
    lemma_find_char_from_is(closure, '-', 0, d + store_prefix_len());
    assert(closure.subrange(store_prefix_len(), find_char_from(closure, '-', 0)) =~= rest.take(d));
    assert(agent_sentinel_path_spec(temp_path, closure) =~= sentinel_path_spec(
        temp_path,
        closure,
    ));
}

// --- Error taxonomy of the agent -------------------------------------------

pub struct RollbackError;

impl HasCommandError for RollbackError {
    fn title() -> String {
        String::from_str("Nix rollback")
    }
}

pub struct ListGenError;

impl HasCommandError for ListGenError {
    fn title() -> String {
        String::from_str("Nix list generations")
    }
}

pub struct DeleteGenError;

impl HasCommandError for DeleteGenError {
    fn title() -> String {
        String::from_str("Nix delete generations")
    }
}

pub struct ReactivateError;

impl HasCommandError for ReactivateError {
    fn title() -> String {
        String::from_str("Nix reactivate last generation")
    }
}

pub struct SetProfileError;

impl HasCommandError for SetProfileError {
    fn title() -> String {
        String::from_str("Nix profile set")
    }
}

pub struct RunActivateError;

impl HasCommandError for RunActivateError {
    fn title() -> String {
        String::from_str("Nix activation script")
    }
}

/// Failure of the rollback sequence.
pub enum DeactivateError {
    Rollback(CommandError<RollbackError>),
    ListGen(CommandError<ListGenError>),
    /// The generation list was not UTF-8; the raw bytes.
    DecodeListGenUtf8(Vec<u8>),
    /// The generation list held no generation to delete.
    NoGeneration,
    DeleteGen(CommandError<DeleteGenError>),
    Reactivate(CommandError<ReactivateError>),
}

pub enum DangerZoneError {
    /// The confirm timeout elapsed.
    TimesUp,
    /// The event stream ended without a confirmation.
    NoConfirmation,
    /// The event stream reported an error; its message.
    Watch(String),
}

pub enum ActivationConfirmationError {
    /// The sentinel's parent directory could not be created; the message.
    CreateConfirmDir(String),
    /// The sentinel file could not be created; the message.
    CreateConfirmFile(String),
    /// The filesystem watcher could not be installed; the message.
    Watcher(String),
    WaitingError(DangerZoneError),
}

pub enum WaitError {
    /// The filesystem watcher could not be installed; the message.
    Watcher(String),
    Waiting(DangerZoneError),
}

/// Failure of the `activate` subcommand.
pub enum ActivateError {
    SetProfile(CommandError<SetProfileError>),
    RunActivate(CommandError<RunActivateError>),
    /// The rollback that followed another failure failed itself.
    Deactivate(DeactivateError),
    ActivationConfirmation(ActivationConfirmationError),
}

// --- Parsing the generation list --------------------------------------------

/// ASCII whitespace as the generation list uses it.
pub open spec fn is_space_spec(c: char) -> bool {
    c == ' ' || c == '\t' || c == '\r'
}

fn is_space(c: char) -> (r: bool)
    ensures
        r == is_space_spec(c),
{
    c == ' ' || c == '\t' || c == '\r'
}

/// First index at or after `i` whose character is not whitespace.
pub open spec fn skip_space(s: Seq<char>, i: int) -> int
    decreases s.len() - i,
{
    if i < 0 || i >= s.len() {
        s.len() as int
    } else if is_space_spec(s[i]) {
        skip_space(s, i + 1)
    } else {
        i
    }
}

/// First index at or after `i` whose character is whitespace.
pub open spec fn scan_token(s: Seq<char>, i: int) -> int
    decreases s.len() - i,
{
    if i < 0 || i >= s.len() {
        s.len() as int
    } else if is_space_spec(s[i]) {
        i
    } else {
        scan_token(s, i + 1)
    }
}

/// The last line of a line-oriented output: the text between the final
/// interior newline and a trailing newline, if any.
pub open spec fn last_line_spec(s: Seq<char>) -> Seq<char> {
    let end = if s.len() > 0 && s[s.len() - 1] == '\n' {
        s.len() - 1
    } else {
        s.len() as int
    };
    let start = find_last(s.take(end), '\n') + 1;
    s.subrange(start, end)
}

/// The first whitespace-separated token of a line, if the line holds one.
pub open spec fn first_token_spec(l: Seq<char>) -> Option<Seq<char>> {
    let start = skip_space(l, 0);
    if start >= l.len() {
        None
    } else {
        Some(l.subrange(start, scan_token(l, start)))
    }
}

proof fn lemma_skip_space_bounds(s: Seq<char>, i: int)
    requires
        0 <= i <= s.len(),
    ensures
        i <= skip_space(s, i) <= s.len(),
        i <= scan_token(s, i) <= s.len(),
    decreases s.len() - i,
{
    if i < s.len() {
        lemma_skip_space_bounds(s, i + 1);
    }
}

fn skip_space_exec(s: &str, from: usize) -> (r: usize)
    requires
        from <= s@.len(),
    ensures
        r == skip_space(s@, from as int),
{
    let n = s.unicode_len();
    let mut i = from;
    while i < n
        invariant
            from <= i <= n,
            n == s@.len(),
            skip_space(s@, from as int) == skip_space(s@, i as int),
        decreases n - i,
    {
        if !is_space(s.get_char(i)) {
            return i;
        }
        i = i + 1;
    }
    i
}

fn scan_token_exec(s: &str, from: usize) -> (r: usize)
    requires
        from <= s@.len(),
    ensures
        r == scan_token(s@, from as int),
{
    let n = s.unicode_len();
    let mut i = from;
    while i < n
        invariant
            from <= i <= n,
            n == s@.len(),
            scan_token(s@, from as int) == scan_token(s@, i as int),
        decreases n - i,
    {
        if is_space(s.get_char(i)) {
            return i;
        }
        i = i + 1;
    }
    i
}

/// The identifier of the newest generation: the first token of the last
/// line of the generation list. `None` exactly when that line holds none.
pub fn last_generation_id(list: &str) -> (r: Option<String>)
    ensures
        match r {
            Some(id) => first_token_spec(last_line_spec(list@)) == Some(id@),
            None => first_token_spec(last_line_spec(list@)) is None,
        },
{
    let n = list.unicode_len();
    let end = if n > 0 && list.get_char(n - 1) == '\n' {
        n - 1
    } else {
        n
    };
    proof {
        lemma_find_last_bounds(list@.take(end as int), '\n');
    }
    let start_line = match crate::target::find_last_in(list, '\n', end) {
        Some(i) => i + 1,
        None => 0,
    };
    let line = list.substring_char(start_line, end);
    proof {
        assert(line@ =~= last_line_spec(list@));
        lemma_skip_space_bounds(line@, 0);
    }
    let tok_start = skip_space_exec(line, 0);
    if tok_start >= line.unicode_len() {
        return None;
    }
    proof {
        lemma_skip_space_bounds(line@, tok_start as int);
    }
    let tok_end = scan_token_exec(line, tok_start);
    Some(String::from_str(line.substring_char(tok_start, tok_end)))
}

/// Relies on str::from_utf8: the bytes decoded as UTF-8, failing exactly
/// on invalid UTF-8.
#[verifier::external_body]
pub(crate) fn bytes_to_string(b: &Vec<u8>) -> (r: Option<String>)
    ensures
        match r {
            Some(s) => valid_utf8(b@) && s@ == decode_utf8(b@),
            None => !valid_utf8(b@),
        },
{
    match core::str::from_utf8(b.as_slice()) {
        Ok(s) => Some(s.to_string()),
        Err(_) => None,
    }
}

// --- Host tool invocations ---------------------------------------------------

/// Arguments of `nix-env -p <profile> --rollback`.
pub fn nix_env_rollback_args(profile_path: &str) -> (r: Vec<String>)
    ensures
        crate::strutil::strs_view(r@) =~= seq!["-p"@, profile_path@, "--rollback"@],
{
    proof {
        reveal_strlit("-p");
        reveal_strlit("--rollback");
    }
    let mut r: Vec<String> = Vec::new();
    r.push(String::from_str("-p"));
    r.push(String::from_str(profile_path));
    r.push(String::from_str("--rollback"));
    proof {
        assert(crate::strutil::strs_view(r@) =~= seq!["-p"@, profile_path@, "--rollback"@]);
    }
    r
}

/// Arguments of `nix-env -p <profile> --list-generations`.
pub fn nix_env_list_generations_args(profile_path: &str) -> (r: Vec<String>)
    ensures
        crate::strutil::strs_view(r@) =~= seq!["-p"@, profile_path@, "--list-generations"@],
{
    proof {
        reveal_strlit("-p");
        reveal_strlit("--list-generations");
    }
    let mut r: Vec<String> = Vec::new();
    r.push(String::from_str("-p"));
    r.push(String::from_str(profile_path));
    r.push(String::from_str("--list-generations"));
    proof {
        assert(crate::strutil::strs_view(r@) =~= seq![
            "-p"@,
            profile_path@,
            "--list-generations"@,
        ]);
    }
    r
}

/// Arguments of `nix-env -p <profile> --delete-generations <id>`.
pub fn nix_env_delete_generation_args(profile_path: &str, gen_id: &str) -> (r: Vec<String>)
    ensures
        crate::strutil::strs_view(r@) =~= seq![
            "-p"@,
            profile_path@,
            "--delete-generations"@,
            gen_id@,
        ],
{
    proof {
        reveal_strlit("-p");
        reveal_strlit("--delete-generations");
    }
    let mut r: Vec<String> = Vec::new();
    r.push(String::from_str("-p"));
    r.push(String::from_str(profile_path));
    r.push(String::from_str("--delete-generations"));
    r.push(String::from_str(gen_id));
    proof {
        assert(crate::strutil::strs_view(r@) =~= seq![
            "-p"@,
            profile_path@,
            "--delete-generations"@,
            gen_id@,
        ]);
    }
    r
}

// --- The rollback sequence ---------------------------------------------------

/// Where the rollback sequence stands: roll the profile back, list the
/// generations, delete the newly dropped one, re-run the restored
/// activation script.
pub enum RollbackStep {
    RunningRollback,
    ListingGenerations,
    DeletingGeneration,
    Reactivating,
    Done(Result<(), DeactivateError>),
}

/// The host-tool invocation the outside loop must run next.
pub enum RollbackAction {
    RunRollback,
    RunListGenerations,
    /// Delete this generation by its identifier.
    RunDeleteGeneration(String),
    RunReactivate,
}

/// The rollback sequence begins by rolling the profile back one
/// generation.
pub fn rollback_start() -> (r: (RollbackStep, RollbackAction))
    ensures
        r.0 == RollbackStep::RunningRollback,
        r.1 == RollbackAction::RunRollback,
{
    (RollbackStep::RunningRollback, RollbackAction::RunRollback)
}

/// One step of the rollback sequence: the outcome of the last command
/// decides the next action or the final result. `cmd` is the command
/// line that ran, kept for reporting. After the rollback itself the
/// symlink already points at the previous generation; listing and
/// deleting garbage-collect the failed one, and the re-activation makes
/// the live services match the restored symlink.
pub fn rollback_step(s: RollbackStep, outcome: Result<CmdOutput, String>, cmd: String) -> (r: (
    RollbackStep,
    Option<RollbackAction>,
))
    ensures
        (match s {
            RollbackStep::RunningRollback => match outcome {
                Err(m) => r == (
                    RollbackStep::Done(
                        Err(DeactivateError::Rollback(CommandError::RunError(m))),
                    ),
                    None::<RollbackAction>,
                ),
                Ok(out) => if out.code == Some(0i32) {
                    r == (
                        RollbackStep::ListingGenerations,
                        Some(RollbackAction::RunListGenerations),
                    )
                } else {
                    r == (
                        RollbackStep::Done(
                            Err(DeactivateError::Rollback(CommandError::Exit(out, cmd))),
                        ),
                        None::<RollbackAction>,
                    )
                },
            },
            RollbackStep::ListingGenerations => match outcome {
                Err(m) => r == (
                    RollbackStep::Done(Err(DeactivateError::ListGen(CommandError::RunError(m)))),
                    None::<RollbackAction>,
                ),
                Ok(out) => if out.code != Some(0i32) {
                    r == (
                        RollbackStep::Done(
                            Err(DeactivateError::ListGen(CommandError::Exit(out, cmd))),
                        ),
                        None::<RollbackAction>,
                    )
                } else if !valid_utf8(out.stdout@) {
                    r == (
                        RollbackStep::Done(Err(DeactivateError::DecodeListGenUtf8(out.stdout))),
                        None::<RollbackAction>,
                    )
                } else {
                    match first_token_spec(last_line_spec(decode_utf8(out.stdout@))) {
                        None => r == (
                            RollbackStep::Done(Err(DeactivateError::NoGeneration)),
                            None::<RollbackAction>,
                        ),
                        Some(tok) => {
                            &&& r.0 == RollbackStep::DeletingGeneration
                            &&& r.1 matches Some(RollbackAction::RunDeleteGeneration(id)) && id@
                                == tok
                        },
                    }
                },
            },
            RollbackStep::DeletingGeneration => match outcome {
                Err(m) => r == (
                    RollbackStep::Done(
                        Err(DeactivateError::DeleteGen(CommandError::RunError(m))),
                    ),
                    None::<RollbackAction>,
                ),
                Ok(out) => if out.code == Some(0i32) {
                    r == (RollbackStep::Reactivating, Some(RollbackAction::RunReactivate))
                } else {
                    r == (
                        RollbackStep::Done(
                            Err(DeactivateError::DeleteGen(CommandError::Exit(out, cmd))),
                        ),
                        None::<RollbackAction>,
                    )
                },
            },
            RollbackStep::Reactivating => match outcome {
                Err(m) => r == (
                    RollbackStep::Done(
                        Err(DeactivateError::Reactivate(CommandError::RunError(m))),
                    ),
                    None::<RollbackAction>,
                ),
                Ok(out) => if out.code == Some(0i32) {
                    r == (RollbackStep::Done(Ok(())), None::<RollbackAction>)
                } else {
                    r == (
                        RollbackStep::Done(
                            Err(DeactivateError::Reactivate(CommandError::Exit(out, cmd))),
                        ),
                        None::<RollbackAction>,
                    )
                },
            },
            RollbackStep::Done(x) => r == (RollbackStep::Done(x), None::<RollbackAction>),
        }),
{
    match s {
        RollbackStep::RunningRollback => match outcome {
            Err(m) => (
                RollbackStep::Done(Err(DeactivateError::Rollback(CommandError::RunError(m)))),
                None,
            ),
            Ok(out) => {
                if out.success() {
                    (RollbackStep::ListingGenerations, Some(RollbackAction::RunListGenerations))
                } else {
                    (
                        RollbackStep::Done(
                            Err(DeactivateError::Rollback(CommandError::Exit(out, cmd))),
                        ),
                        None,
                    )
                }
            },
        },
        RollbackStep::ListingGenerations => match outcome {
            Err(m) => (
                RollbackStep::Done(Err(DeactivateError::ListGen(CommandError::RunError(m)))),
                None,
            ),
            Ok(out) => {
                if !out.success() {
                    (
                        RollbackStep::Done(
                            Err(DeactivateError::ListGen(CommandError::Exit(out, cmd))),
                        ),
                        None,
                    )
                } else {
                    match bytes_to_string(&out.stdout) {
                        None => (
                            RollbackStep::Done(
                                Err(DeactivateError::DecodeListGenUtf8(out.stdout)),
                            ),
                            None,
                        ),
                        Some(list) => match last_generation_id(list.as_str()) {
                            None => (
                                RollbackStep::Done(Err(DeactivateError::NoGeneration)),
                                None,
                            ),
                            Some(id) => (
                                RollbackStep::DeletingGeneration,
                                Some(RollbackAction::RunDeleteGeneration(id)),
                            ),
                        },
                    }
                }
            },
        },
        RollbackStep::DeletingGeneration => match outcome {
            Err(m) => (
                RollbackStep::Done(Err(DeactivateError::DeleteGen(CommandError::RunError(m)))),
                None,
            ),
            Ok(out) => {
                if out.success() {
                    (RollbackStep::Reactivating, Some(RollbackAction::RunReactivate))
                } else {
                    (
                        RollbackStep::Done(
                            Err(DeactivateError::DeleteGen(CommandError::Exit(out, cmd))),
                        ),
                        None,
                    )
                }
            },
        },
        RollbackStep::Reactivating => match outcome {
            Err(m) => (
                RollbackStep::Done(Err(DeactivateError::Reactivate(CommandError::RunError(m)))),
                None,
            ),
            Ok(out) => {
                if out.success() {
                    (RollbackStep::Done(Ok(())), None)
                } else {
                    (
                        RollbackStep::Done(
                            Err(DeactivateError::Reactivate(CommandError::Exit(out, cmd))),
                        ),
                        None,
                    )
                }
            },
        },
        RollbackStep::Done(x) => (RollbackStep::Done(x), None),
    }
}

// --- The activate decision machine -------------------------------------------

/// The flags one `activate` invocation runs under.
pub struct ActivateFlags {
    pub auto_rollback: bool,
    pub magic_rollback: bool,
    pub dry_activate: bool,
    pub boot: bool,
    pub test: bool,
    pub confirm_timeout: u16,
}

/// Where the agent's `activate` stands.
pub enum AgentState {
    /// The profile symlink is being set to the closure.
    SettingProfile,
    /// The activation script is running.
    RunningScript,
    /// The sentinel exists and the watchdog is armed.
    WaitingConfirmation,
    /// A failure triggered the rollback sequence; `pending` is reported
    /// once the rollback settles.
    RollingBack { pending: ActivateError },
    Done(Result<(), ActivateError>),
}

/// What the outside loop must do next.
pub enum AgentAction {
    /// Set the profile's current generation to the closure.
    RunSetProfile,
    /// Run the closure's activation script with the `PROFILE`,
    /// `DRY_ACTIVATE`, `BOOT` and `TEST` variables.
    RunActivationScript,
    /// Create the sentinel, watch it, and await its removal within the
    /// confirm timeout.
    SetupWatchdog,
    /// Drive the rollback sequence to completion and report back.
    StartRollback,
}

/// What the outside loop reports back.
pub enum AgentEvent {
    /// A host-tool command finished, or could not be run.
    CmdFinished(Result<CmdOutput, String>),
    /// The watchdog resolved: confirmed, or failed with this error.
    Watchdog(Result<(), ActivationConfirmationError>),
    /// The rollback sequence settled.
    RollbackSettled(Result<(), DeactivateError>),
}

/// The opening move: under dry-activate the profile symlink is left
/// alone and only the script runs; otherwise the profile is set first.
pub open spec fn agent_start_spec(flags: ActivateFlags) -> (AgentState, AgentAction) {
    if flags.dry_activate {
        (AgentState::RunningScript, AgentAction::RunActivationScript)
    } else {
        (AgentState::SettingProfile, AgentAction::RunSetProfile)
    }
}

/// Starts one `activate` run.
pub fn agent_start(flags: &ActivateFlags) -> (r: (AgentState, AgentAction))
    ensures
        r == agent_start_spec(*flags),
{
    if flags.dry_activate {
        (AgentState::RunningScript, AgentAction::RunActivationScript)
    } else {
        (AgentState::SettingProfile, AgentAction::RunSetProfile)
    }
}

/// Whether a failure at the given point triggers the local rollback:
/// auto-rollback must be on and the run must not be a dry run.
pub open spec fn rolls_back(flags: ActivateFlags) -> bool {
    flags.auto_rollback && !flags.dry_activate
}

/// One transition of the agent. A failed symlink swap or script run
/// triggers the rollback sequence before the failure is reported; a
/// successful script arms the watchdog only under magic rollback and
/// never in dry-activate or boot mode; a watchdog that is not confirmed
/// rolls back unconditionally. An event that does not belong to the
/// state leaves it unchanged.
pub open spec fn agent_step_spec(
    s: AgentState,
    flags: ActivateFlags,
    e: AgentEvent,
    cmd: String,
) -> (AgentState, Option<AgentAction>) {
    match (s, e) {
        (AgentState::SettingProfile, AgentEvent::CmdFinished(outcome)) => match outcome {
            Err(m) => (
                AgentState::Done(
                    Err(ActivateError::SetProfile(CommandError::RunError(m))),
                ),
                None,
            ),
            Ok(out) => if out.code == Some(0i32) {
                (AgentState::RunningScript, Some(AgentAction::RunActivationScript))
            } else {
                let failure = ActivateError::SetProfile(
                    CommandError::Exit(out, cmd),
                );
                if rolls_back(flags) {
                    (
                        AgentState::RollingBack { pending: failure },
                        Some(AgentAction::StartRollback),
                    )
                } else {
                    (AgentState::Done(Err(failure)), None)
                }
            },
        },
        (AgentState::RunningScript, AgentEvent::CmdFinished(outcome)) => match outcome {
            Err(m) => {
                let failure = ActivateError::RunActivate(CommandError::RunError(m));
                if rolls_back(flags) {
                    (
                        AgentState::RollingBack { pending: failure },
                        Some(AgentAction::StartRollback),
                    )
                } else {
                    (AgentState::Done(Err(failure)), None)
                }
            },
            Ok(out) => if flags.dry_activate {
                (AgentState::Done(Ok(())), None)
            } else if out.code != Some(0i32) {
                let failure = ActivateError::RunActivate(
                    CommandError::Exit(out, cmd),
                );
                if rolls_back(flags) {
                    (
                        AgentState::RollingBack { pending: failure },
                        Some(AgentAction::StartRollback),
                    )
                } else {
                    (AgentState::Done(Err(failure)), None)
                }
            } else if flags.magic_rollback && !flags.boot {
                (AgentState::WaitingConfirmation, Some(AgentAction::SetupWatchdog))
            } else {
                (AgentState::Done(Ok(())), None)
            },
        },
        (AgentState::WaitingConfirmation, AgentEvent::Watchdog(outcome)) => match outcome {
            Ok(u) => (AgentState::Done(Ok(u)), None),
            Err(err) => (
                AgentState::RollingBack {
                    pending: ActivateError::ActivationConfirmation(err),
                },
                Some(AgentAction::StartRollback),
            ),
        },
        (AgentState::RollingBack { pending }, AgentEvent::RollbackSettled(outcome)) => match outcome {
            Ok(u) => (AgentState::Done(Err(pending)), None),
            Err(de) => (AgentState::Done(Err(ActivateError::Deactivate(de))), None),
        },
        (s0, _) => (s0, None),
    }
}

/// One transition of the agent, as the outside loop drives it.
pub fn agent_step(s: AgentState, flags: &ActivateFlags, e: AgentEvent, cmd: String) -> (r: (
    AgentState,
    Option<AgentAction>,
))
    ensures
        r == agent_step_spec(s, *flags, e, cmd),
{
    match (s, e) {
        (AgentState::SettingProfile, AgentEvent::CmdFinished(outcome)) => match outcome {
            Err(m) => (
                AgentState::Done(Err(ActivateError::SetProfile(CommandError::RunError(m)))),
                None,
            ),
            Ok(out) => {
                if out.success() {
                    (AgentState::RunningScript, Some(AgentAction::RunActivationScript))
                } else {
                    let failure = ActivateError::SetProfile(CommandError::Exit(out, cmd));
                    if flags.auto_rollback && !flags.dry_activate {
                        (
                            AgentState::RollingBack { pending: failure },
                            Some(AgentAction::StartRollback),
                        )
                    } else {
                        (AgentState::Done(Err(failure)), None)
                    }
                }
            },
        },
        (AgentState::RunningScript, AgentEvent::CmdFinished(outcome)) => match outcome {
            Err(m) => {
                let failure = ActivateError::RunActivate(CommandError::RunError(m));
                if flags.auto_rollback && !flags.dry_activate {
                    (
                        AgentState::RollingBack { pending: failure },
                        Some(AgentAction::StartRollback),
                    )
                } else {
                    (AgentState::Done(Err(failure)), None)
                }
            },
            Ok(out) => {
                if flags.dry_activate {
                    (AgentState::Done(Ok(())), None)
                } else if !out.success() {
                    let failure = ActivateError::RunActivate(CommandError::Exit(out, cmd));
                    if flags.auto_rollback {
                        (
                            AgentState::RollingBack { pending: failure },
                            Some(AgentAction::StartRollback),
                        )
                    } else {
                        (AgentState::Done(Err(failure)), None)
                    }
                } else if flags.magic_rollback && !flags.boot {
                    (AgentState::WaitingConfirmation, Some(AgentAction::SetupWatchdog))
                } else {
                    (AgentState::Done(Ok(())), None)
                }
            },
        },
        (AgentState::WaitingConfirmation, AgentEvent::Watchdog(outcome)) => match outcome {
            Ok(u) => (AgentState::Done(Ok(u)), None),
            Err(err) => (
                AgentState::RollingBack {
                    pending: ActivateError::ActivationConfirmation(err),
                },
                Some(AgentAction::StartRollback),
            ),
        },
        (AgentState::RollingBack { pending }, AgentEvent::RollbackSettled(outcome)) => match outcome {
            Ok(u) => (AgentState::Done(Err(pending)), None),
            Err(de) => (AgentState::Done(Err(ActivateError::Deactivate(de))), None),
        },
        (s0, _) => (s0, None),
    }
}

// --- The watchdog and the watcher filters ------------------------------------

/// What the armed watchdog can observe: a delivered event (or watcher
/// error), the channel closing, or the timeout elapsing.
pub enum WatchSignal {
    Received(Result<(), String>),
    ChannelClosed,
    TimedOut,
}

/// The watchdog's verdict on what it observed: only a delivered removal
/// event confirms; everything else triggers the rollback with a distinct
/// error.
pub fn danger_zone_outcome(sig: WatchSignal) -> (r: Result<(), DangerZoneError>)
    ensures
        (match sig {
            WatchSignal::Received(Ok(u)) => r == Ok::<(), DangerZoneError>(u),
            WatchSignal::Received(Err(m)) => r == Err::<(), DangerZoneError>(
                DangerZoneError::Watch(m),
            ),
            WatchSignal::ChannelClosed => r == Err::<(), DangerZoneError>(
                DangerZoneError::NoConfirmation,
            ),
            WatchSignal::TimedOut => r == Err::<(), DangerZoneError>(DangerZoneError::TimesUp),
        }),
{
    match sig {
        WatchSignal::Received(Ok(u)) => Ok(u),
        WatchSignal::Received(Err(m)) => Err(DangerZoneError::Watch(m)),
        WatchSignal::ChannelClosed => Err(DangerZoneError::NoConfirmation),
        WatchSignal::TimedOut => Err(DangerZoneError::TimesUp),
    }
}

/// The kind of a filesystem event, as far as the agent cares.
#[derive(PartialEq, Eq, Structural, Clone, Copy, Debug)]
pub enum FsEventKind {
    CreateFile,
    RemoveFile,
    Other,
}

/// The `activate` watchdog reacts to file removal alone; every other
/// event kind is ignored.
pub fn confirm_event_matters(kind: &FsEventKind) -> (r: bool)
    ensures
        r == (*kind == FsEventKind::RemoveFile),
{
    match kind {
        FsEventKind::RemoveFile => true,
        _ => false,
    }
}

/// The `wait` watcher reacts only to the creation of a file whose one
/// canonical path equals the sentinel path.
pub fn wait_event_matches(kind: &FsEventKind, paths: &Vec<String>, sentinel: &str) -> (r: bool)
    ensures
        r == (*kind == FsEventKind::CreateFile && paths@.len() == 1 && paths@[0]@ == sentinel@),
{
    match kind {
        FsEventKind::CreateFile => {
            if paths.len() == 1 {
                crate::strutil::str_eq(paths[0].as_str(), sentinel)
            } else {
                false
            }
        },
        _ => false,
    }
}

// --- The profile path on the target -------------------------------------------

#[derive(Debug)]
pub enum GetProfilePathError {
    /// No home directory could be deduced for this user.
    NoUserHome(String),
}

/// The profile path the agent installs into, derived from what the
/// invocation and the environment provide: an explicit path wins; the
/// root user owns the system profile and the classic per-user tree; any
/// other user keeps the old per-user tree where it already exists and
/// falls back to the state directory otherwise.
pub fn get_profile_path(
    profile_path: Option<String>,
    profile_user: Option<String>,
    profile_name: Option<String>,
    nix_state_dir: &str,
    xdg_state_home: Option<String>,
    home_dir: Option<String>,
    old_user_profiles_dir_exists: bool,
) -> (r: Result<String, GetProfilePathError>)
    requires
        (profile_path is Some && profile_user is None && profile_name is None) || (profile_path
            is None && profile_user is Some && profile_name is Some),
    ensures
        (match profile_path {
            Some(p) => r == Ok::<String, GetProfilePathError>(p),
            None => {
                let user = profile_user->0;
                let name = profile_name->0;
                if user@ == "root"@ {
                    r matches Ok(p) && p@ == (if name@ == "system"@ {
                        nix_state_dir@ + "/profiles/system"@
                    } else {
                        nix_state_dir@ + "/profiles/per-user/root/"@ + name@
                    })
                } else if old_user_profiles_dir_exists {
                    r matches Ok(p) && p@ == nix_state_dir@ + "/profiles/per-user/"@ + user@
                        + "/"@ + name@
                } else {
                    match xdg_state_home {
                        Some(x) => r matches Ok(p) && p@ == x@ + "/nix/profiles/"@ + name@,
                        None => match home_dir {
                            Some(h) => r matches Ok(p) && p@ == h@ + "/.local/state"@
                                + "/nix/profiles/"@ + name@,
                            None => r matches Err(e) && e matches GetProfilePathError::NoUserHome(
                                u,
                            ) && u@ == user@,
                        },
                    }
                }
            },
        }),
{
    proof {
        reveal_strlit("root");
        reveal_strlit("system");
        reveal_strlit("/profiles/system");
        reveal_strlit("/profiles/per-user/root/");
        reveal_strlit("/profiles/per-user/");
        reveal_strlit("/");
        reveal_strlit("/.local/state");
        reveal_strlit("/nix/profiles/");
    }
    match (profile_path, profile_user, profile_name) {
        (Some(p), _, _) => Ok(p),
        (None, Some(user), Some(name)) => {
            if crate::strutil::str_eq(user.as_str(), "root") {
                if crate::strutil::str_eq(name.as_str(), "system") {
                    let r = String::from_str(nix_state_dir).concat("/profiles/system");
                    proof {
                        assert(r@ =~= nix_state_dir@ + "/profiles/system"@);
                    }
                    Ok(r)
                } else {
                    let r = String::from_str(nix_state_dir).concat("/profiles/per-user/root/")
                        .concat(name.as_str());
                    proof {
                        assert(r@ =~= nix_state_dir@ + "/profiles/per-user/root/"@ + name@);
                    }
                    Ok(r)
                }
            } else if old_user_profiles_dir_exists {
                let r = String::from_str(nix_state_dir).concat("/profiles/per-user/").concat(
                    user.as_str(),
                ).concat("/").concat(name.as_str());
                proof {
                    assert(r@ =~= nix_state_dir@ + "/profiles/per-user/"@ + user@ + "/"@ + name@);
                }
                Ok(r)
            } else {
                let state_dir: String = match xdg_state_home {
                    Some(x) => x,
                    None => match home_dir {
                        Some(h) => {
                            let s = h.concat("/.local/state");
                            s
                        },
                        None => {
                            return Err(GetProfilePathError::NoUserHome(user));
                        },
                    },
                };
                let r = state_dir.concat("/nix/profiles/").concat(name.as_str());
                proof {
                    assert(r@ =~= state_dir@ + "/nix/profiles/"@ + name@);
                }
                Ok(r)
            }
        },
        _ => {
            proof {
                assert(false);
            }
            Err(GetProfilePathError::NoUserHome(String::new()))
        },
    }
}

/// The activation script inside a closure or profile.
pub fn activation_script_path(location: &str) -> (r: String)
    ensures
        r@ == location@ + "/deploy-rs-activate"@,
{
    proof {
        reveal_strlit("/deploy-rs-activate");
    }
    let r = String::from_str(location).concat("/deploy-rs-activate");
    proof {
        assert(r@ =~= location@ + "/deploy-rs-activate"@);
    }
    r
}

} // verus!
