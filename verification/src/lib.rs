//! Verified core of a remote deployment controller for an immutable-store
//! based system.
//!
//! The library holds the logic that controller and target agent must agree
//! on: the sentinel (canary) path both sides derive independently, the
//! target-descriptor grammar, the settings merge and target resolution, the
//! remote command builders, and the decision machines of the activation
//! agent and of the deployment coordinator. Process spawning, SSH carriage
//! and filesystem watching live outside the library and only feed events to
//! the machines defined here.

use vstd::prelude::*;

pub mod activation;
pub mod cli;
pub mod command;
pub mod compat;
pub mod coordinator;
pub mod data;
pub mod deploy;
pub mod flake;
pub mod prompt;
pub mod push;
pub mod resolve;
pub mod ssh;
pub mod strutil;
pub mod target;

verus! {

use crate::strutil::find_char_from;
use crate::strutil::find_char;
use crate::strutil::lemma_find_char_from_bounds;

/// Length of the store prefix `/nix/store/` that a closure path carries.
pub open spec fn store_prefix_len() -> int {
    11
}

/// A closure path as the sentinel derivation expects it: long enough to
/// carry the store prefix, and with no `-` inside that prefix, so that the
/// hash part starts after it.
pub open spec fn valid_closure_for_lock(closure: Seq<char>) -> bool {
    &&& closure.len() >= store_prefix_len()
    &&& forall|i: int| 0 <= i < store_prefix_len() ==> closure[i] != '-'
}

/// The sentinel (canary) path for a closure under a temp directory: the
/// closure's store hash — the path with the store prefix stripped and
/// everything from the first `-` on dropped — appended to a fixed stem.
pub open spec fn sentinel_path_spec(temp_path: Seq<char>, closure: Seq<char>) -> Seq<char> {
    temp_path + "/deploy-rs-canary-"@ + closure.subrange(
        store_prefix_len(),
        find_char_from(closure, '-', 0),
    )
}

/// Path of the sentinel file whose creation signals "the agent reached its
/// watchdog" and whose deletion confirms the deployment.
pub fn make_lock_path(temp_path: &str, closure: &str) -> (r: String)
    requires
        valid_closure_for_lock(closure@),
    ensures
        r@ == sentinel_path_spec(temp_path@, closure@),
{
    proof {
        lemma_find_char_from_bounds(closure@, '-', 0);
    }
    let dash = find_char(closure, '-', 0);
    let hash_part = closure.substring_char(11, dash);
    let r = String::from_str(temp_path).concat("/deploy-rs-canary-").concat(hash_part);
    proof {
        assert(r@ =~= sentinel_path_spec(temp_path@, closure@));
    }
    r
}

} // verus!
