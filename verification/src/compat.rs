//! The older form of the remote `activate` invocation. Agents live inside
//! closures, so a target may still carry an agent built before the
//! subcommand interface; the controller keeps the old form around to talk
//! to those.

use vstd::prelude::*;

verus! {

use crate::strutil::dec_seq;
use crate::strutil::u64_to_dec;
use crate::deploy::opt_view;
use crate::deploy::opt_str_ref_view;
use crate::deploy::with_sudo_spec;

/// The older `activate` invocation: positional profile and closure, no
/// subcommand, logging flags trailing.
pub open spec fn legacy_activate_command_spec(
    sudo: Option<Seq<char>>,
    profile_path: Seq<char>,
    closure: Seq<char>,
    auto_rollback: bool,
    temp_path: Seq<char>,
    confirm_timeout: nat,
    magic_rollback: bool,
    debug_logs: bool,
    log_dir: Option<Seq<char>>,
) -> Seq<char> {
    with_sudo_spec(
        sudo,
        closure + "/activate-rs '"@ + profile_path + "' '"@ + closure + "' --temp-path "@
            + temp_path + " --confirm-timeout "@ + dec_seq(confirm_timeout) + (if magic_rollback {
            " --magic-rollback"@
        } else {
            Seq::<char>::empty()
        }) + (if auto_rollback {
            " --auto-rollback"@
        } else {
            Seq::<char>::empty()
        }) + (if debug_logs {
            " --debug-logs"@
        } else {
            Seq::<char>::empty()
        }) + (match log_dir {
            Some(d) => " --log-dir "@ + d,
            None => Seq::<char>::empty(),
        }),
    )
}

/// Builds the older remote `activate` invocation.
pub fn build_activate_command(
    sudo: &Option<String>,
    profile_path: &str,
    closure: &str,
    auto_rollback: bool,
    temp_path: &str,
    confirm_timeout: u16,
    magic_rollback: bool,
    debug_logs: bool,
    log_dir: Option<&str>,
) -> (r: String)
    ensures
        r@ == legacy_activate_command_spec(
            opt_view(*sudo),
            profile_path@,
            closure@,
            auto_rollback,
            temp_path@,
            confirm_timeout as nat,
            magic_rollback,
            debug_logs,
            opt_str_ref_view(log_dir),
        ),
{
    proof {
        reveal_strlit("/activate-rs '");
        reveal_strlit("' '");
        reveal_strlit("' --temp-path ");
        reveal_strlit(" --confirm-timeout ");
        reveal_strlit(" --magic-rollback");
        reveal_strlit(" --auto-rollback");
        reveal_strlit(" --debug-logs");
        reveal_strlit(" --log-dir ");
        reveal_strlit(" ");
    }
    let mut cmd = String::from_str(closure).concat("/activate-rs '").concat(profile_path).concat(
        "' '",
    ).concat(closure).concat("' --temp-path ").concat(temp_path);
    let timeout = u64_to_dec(confirm_timeout as u64);
    cmd = cmd.concat(" --confirm-timeout ").concat(timeout.as_str());
    if magic_rollback {
        cmd = cmd.concat(" --magic-rollback");
    }
    if auto_rollback {
        cmd = cmd.concat(" --auto-rollback");
    }
    if debug_logs {
        cmd = cmd.concat(" --debug-logs");
    }
    if let Some(d) = log_dir {
        cmd = cmd.concat(" --log-dir ").concat(d);
    }
    let r = match sudo {
        Some(s) => s.clone().concat(" ").concat(cmd.as_str()),
        None => cmd,
    };
    proof {
        assert(r@ =~= legacy_activate_command_spec(
            opt_view(*sudo),
            profile_path@,
            closure@,
            auto_rollback,
            temp_path@,
            confirm_timeout as nat,
            magic_rollback,
            debug_logs,
            opt_str_ref_view(log_dir),
        ));
    }
    r
}

} // verus!
