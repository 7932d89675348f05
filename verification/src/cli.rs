//! The command-line surface as data: the parsed options, the verbs that
//! steer a run, the list of targets a run works through, and the upward
//! search for the flake file.

use vstd::prelude::*;

verus! {

use crate::data::GenericSettings;
use crate::target::find_last;
use crate::target::lemma_find_last_bounds;

/// The verbs of one run.
pub struct Flags {
    pub debug_logs: bool,
    pub log_dir: Option<String>,
    pub keep_result: bool,
    pub result_path: Option<String>,
    pub interactive: bool,
    pub extra_build_args: Vec<String>,
    pub skip_checks: bool,
    pub dry_activate: bool,
    pub boot: bool,
    pub check_sigs: bool,
    pub rollback_succeeded: bool,
}

/// Everything the command line provides.
pub struct Opts {
    /// The one target to deploy.
    pub target: Option<String>,
    /// Alternatively, a list of targets.
    pub targets: Option<Vec<String>>,
    /// Hostname override for the node.
    pub hostname: Option<String>,
    pub flags: Flags,
    pub generic_settings: GenericSettings,
}

/// The descriptors a run works through: the target list when one was
/// given, else the single target, else the current directory.
pub fn targets_of(target: Option<String>, targets: Option<Vec<String>>) -> (r: Vec<String>)
    ensures
        (match targets {
            Some(ts) => r@ == ts@,
            None => r@.len() == 1 && r@[0]@ == (match target {
                Some(t) => t@,
                None => "."@,
            }),
        }),
{
    proof {
        reveal_strlit(".");
    }
    match targets {
        Some(ts) => ts,
        None => {
            let mut r: Vec<String> = Vec::new();
            match target {
                Some(t) => r.push(t),
                None => r.push(String::from_str(".")),
            }
            r
        },
    }
}

/// The parent of a path, as popping its last component: the root and the
/// empty path have none.
pub open spec fn parent_dir_spec(d: Seq<char>) -> Option<Seq<char>> {
    if d.len() == 0 || d == "/"@ {
        None
    } else {
        let k = find_last(d, '/');
        if k < 0 {
            Some(Seq::<char>::empty())
        } else if k == 0 {
            Some("/"@)
        } else {
            Some(d.subrange(0, k))
        }
    }
}

/// The flake file a directory would hold.
pub open spec fn flake_candidate_spec(dir: Seq<char>) -> Seq<char> {
    if dir == "/"@ {
        "/flake.nix"@
    } else if dir.len() == 0 {
        "flake.nix"@
    } else {
        dir + "/flake.nix"@
    }
}

fn flake_candidate(dir: &str) -> (r: String)
    ensures
        r@ == flake_candidate_spec(dir@),
{
    proof {
        reveal_strlit("/");
        reveal_strlit("/flake.nix");
        reveal_strlit("flake.nix");
    }
    if crate::strutil::str_eq(dir, "/") {
        String::from_str("/flake.nix")
    } else if dir.unicode_len() == 0 {
        String::from_str("flake.nix")
    } else {
        let r = String::from_str(dir).concat("/flake.nix");
        proof {
            assert(r@ =~= dir@ + "/flake.nix"@);
        }
        r
    }
}

/// The search for `flake.nix`: the probe the outside loop must make
/// next, or the result.
pub enum FlakeSearch {
    /// Ask whether `candidate` is a file; `dir` is where the search
    /// stands.
    Probe { candidate: String, dir: String },
    Done(Option<String>),
}

/// Starts the upward search for the flake file at a directory.
pub fn find_flake(starting_directory: &str) -> (r: FlakeSearch)
    ensures
        r matches FlakeSearch::Probe { candidate, dir } && candidate@ == flake_candidate_spec(
            starting_directory@,
        ) && dir@ == starting_directory@,
{
    let candidate = flake_candidate(starting_directory);
    FlakeSearch::Probe { candidate, dir: String::from_str(starting_directory) }
}

/// One step of the search: a hit ends it; a miss climbs to the parent
/// directory, giving up at the top.
pub fn find_flake_step(dir: &str, candidate: String, candidate_is_file: bool) -> (r: FlakeSearch)
    ensures
        (candidate_is_file ==> r == FlakeSearch::Done(Some(candidate))),
        (!candidate_is_file ==> match parent_dir_spec(dir@) {
            Some(p) => r matches FlakeSearch::Probe { candidate: c, dir: d } && d@ == p && c@
                == flake_candidate_spec(p),
            None => r == FlakeSearch::Done(None::<String>),
        }),
{
    proof {
        reveal_strlit("/flake.nix");
        reveal_strlit("/");
    }
    if candidate_is_file {
        return FlakeSearch::Done(Some(candidate));
    }
    let n = dir.unicode_len();
    if n == 0 || crate::strutil::str_eq(dir, "/") {
        return FlakeSearch::Done(None);
    }
    proof {
        lemma_find_last_bounds(dir@, '/');
        assert(dir@.take(n as int) =~= dir@);
    }
    let parent: String = match crate::target::find_last_in(dir, '/', n) {
        None => String::new(),
        Some(0) => String::from_str("/"),
        Some(k) => String::from_str(dir.substring_char(0, k)),
    };
    proof {
        assert(parent@ == parent_dir_spec(dir@)->0);
    }
    let candidate2 = flake_candidate(parent.as_str());
    FlakeSearch::Probe { candidate: candidate2, dir: parent }
}

} // verus!
