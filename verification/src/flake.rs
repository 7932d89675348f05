//! The pre-deployment checks and the evaluation of the deployment
//! description: their exact command lines. The controller invokes the
//! external evaluator with these and receives JSON back; running the
//! processes and decoding the JSON stay outside the library.

use vstd::prelude::*;

verus! {

use crate::strutil::strs_view;

pub enum CheckDeploymentError {
    /// The checking command could not be run; the message.
    NixCheck(String),
    /// The checking command exited with a bad code.
    NixCheckExit(Option<i32>),
}

pub enum GetDeploymentDataError {
    /// The evaluator could not be run; the message.
    NixEval(String),
    /// Its output could not be read; the message.
    NixEvalOut(String),
    /// The evaluator exited with a bad code.
    NixEvalExit(Option<i32>),
    /// Its output was not UTF-8.
    DecodeUtf8,
    /// Its output was not the expected JSON; the message.
    DecodeJson(String),
}

/// Arguments of the pre-deployment check: `nix flake check` on a flake,
/// or a classic build of the checks attribute.
pub fn check_command_args(supports_flakes: bool, repo: &str) -> (r: Vec<String>)
    ensures
        (supports_flakes ==> strs_view(r@) =~= seq!["flake"@, "check"@, repo@]),
        (!supports_flakes ==> strs_view(r@) =~= seq![
            "-E"@,
            "--no-out-link"@,
            "let r = import "@ + repo@
                + "/.; in (if builtins.isFunction r then (r {}) else r).checks.${builtins.currentSystem}"@,
        ]),
{
    proof {
        reveal_strlit("flake");
        reveal_strlit("check");
        reveal_strlit("-E");
        reveal_strlit("--no-out-link");
        reveal_strlit("let r = import ");
        reveal_strlit(
            "/.; in (if builtins.isFunction r then (r {}) else r).checks.${builtins.currentSystem}",
        );
    }
    let mut r: Vec<String> = Vec::new();
    if supports_flakes {
        r.push(String::from_str("flake"));
        r.push(String::from_str("check"));
        r.push(String::from_str(repo));
        proof {
            assert(strs_view(r@) =~= seq!["flake"@, "check"@, repo@]);
        }
    } else {
        r.push(String::from_str("-E"));
        r.push(String::from_str("--no-out-link"));
        let expr = String::from_str("let r = import ").concat(repo).concat(
            "/.; in (if builtins.isFunction r then (r {}) else r).checks.${builtins.currentSystem}",
        );
        r.push(expr);
        proof {
            assert(strs_view(r@) =~= seq![
                "-E"@,
                "--no-out-link"@,
                "let r = import "@ + repo@
                    + "/.; in (if builtins.isFunction r then (r {}) else r).checks.${builtins.currentSystem}"@,
            ]);
        }
    }
    r
}

/// Arguments of the evaluator invocation that yields the description as
/// JSON: the flake's deploy output, or the classic expression.
pub fn eval_command_args(supports_flakes: bool, repo: &str) -> (r: Vec<String>)
    ensures
        (supports_flakes ==> strs_view(r@) =~= seq!["eval"@, "--json"@, repo@ + "#deploy"@]),
        (!supports_flakes ==> strs_view(r@) =~= seq![
            "--strict"@,
            "--read-write-mode"@,
            "--json"@,
            "--eval"@,
            "-E"@,
            "let r = import "@ + repo@
                + "/.; in if builtins.isFunction r then (r {}).deploy else r.deploy"@,
        ]),
{
    proof {
        reveal_strlit("eval");
        reveal_strlit("--json");
        reveal_strlit("#deploy");
        reveal_strlit("--strict");
        reveal_strlit("--read-write-mode");
        reveal_strlit("--eval");
        reveal_strlit("-E");
        reveal_strlit("let r = import ");
        reveal_strlit("/.; in if builtins.isFunction r then (r {}).deploy else r.deploy");
    }
    let mut r: Vec<String> = Vec::new();
    if supports_flakes {
        r.push(String::from_str("eval"));
        r.push(String::from_str("--json"));
        r.push(String::from_str(repo).concat("#deploy"));
        proof {
            assert(strs_view(r@) =~= seq!["eval"@, "--json"@, repo@ + "#deploy"@]);
        }
    } else {
        r.push(String::from_str("--strict"));
        r.push(String::from_str("--read-write-mode"));
        r.push(String::from_str("--json"));
        r.push(String::from_str("--eval"));
        r.push(String::from_str("-E"));
        let expr = String::from_str("let r = import ").concat(repo).concat(
            "/.; in if builtins.isFunction r then (r {}).deploy else r.deploy",
        );
        r.push(expr);
        proof {
            assert(strs_view(r@) =~= seq![
                "--strict"@,
                "--read-write-mode"@,
                "--json"@,
                "--eval"@,
                "-E"@,
                "let r = import "@ + repo@
                    + "/.; in if builtins.isFunction r then (r {}).deploy else r.deploy"@,
            ]);
        }
    }
    r
}

} // verus!
