//! The compute side of building and pushing a closure: deriver
//! normalization, the choice between old- and new-style derivation
//! building, and the exact argument lists of the store commands. Running
//! them is outside work.

use vstd::prelude::*;

verus! {

use crate::strutil::strs_view;

pub enum PushProfileError {
    /// The show-derivation command failed; the message.
    ShowDerivation(String),
    ShowDerivationExit(Option<i32>),
    /// Its output was not UTF-8.
    ShowDerivationUtf8,
    /// Its output was not the expected JSON; the message.
    ShowDerivationParse(String),
    /// Its output held no derivation.
    ShowDerivationEmpty,
    Build(String),
    BuildExit(Option<i32>),
    /// The profile lacks the activation script.
    DeployRsActivateDoesntExist,
    /// The profile lacks the agent binary.
    ActivateRsDoesntExist,
    Sign(String),
    SignExit(Option<i32>),
    Copy(String),
    CopyExit(Option<i32>),
    PathInfo(String),
}

/// Everything one push needs to know.
pub struct PushProfileData {
    pub supports_flakes: bool,
    pub check_sigs: bool,
    pub repo: String,
    pub keep_result: bool,
    pub result_path: Option<String>,
    pub extra_build_args: Vec<String>,
}

/// Whether `s` starts with `prefix`.
pub fn str_starts_with(s: &str, prefix: &str) -> (r: bool)
    ensures
        r == (s@.len() >= prefix@.len() && s@.subrange(0, prefix@.len() as int) == prefix@),
{
    let np = prefix.unicode_len();
    let n = s.unicode_len();
    if n < np {
        return false;
    }
    let head = s.substring_char(0, np);
    crate::strutil::str_eq(head, prefix)
}

/// A deriver key as newer store tools print it — possibly without the
/// store prefix — normalized to a full store path.
pub fn normalize_deriver(key: &str) -> (r: String)
    ensures
        r@ == (if key@.len() >= "/nix/store/"@.len() && key@.subrange(0, "/nix/store/"@.len() as int)
            == "/nix/store/"@ {
            key@
        } else {
            "/nix/store/"@ + key@
        }),
{
    proof {
        reveal_strlit("/nix/store/");
    }
    if str_starts_with(key, "/nix/store/") {
        String::from_str(key)
    } else {
        let r = String::from_str("/nix/store/").concat(key);
        proof {
            assert(r@ =~= "/nix/store/"@ + key@);
        }
        r
    }
}

/// The deriver with an explicit output: newer store tools build only the
/// derivation file itself unless `^out` names its outputs.
pub fn deriver_with_output(deriver: &str) -> (r: String)
    ensures
        r@ == deriver@ + "^out"@,
{
    proof {
        reveal_strlit("^out");
    }
    let r = String::from_str(deriver).concat("^out");
    proof {
        assert(r@ =~= deriver@ + "^out"@);
    }
    r
}

/// Leading and trailing ASCII whitespace of a path-info line.
pub open spec fn is_trim_ws(c: char) -> bool {
    c == ' ' || c == '\t' || c == '\r' || c == '\n'
}

/// `s` with leading and trailing whitespace removed.
pub open spec fn trim_spec(s: Seq<char>) -> Seq<char>
    decreases s.len(),
{
    if s.len() > 0 && is_trim_ws(s[0]) {
        trim_spec(s.drop_first())
    } else if s.len() > 0 && is_trim_ws(s[s.len() - 1]) {
        trim_spec(s.drop_last())
    } else {
        s
    }
}

fn is_ws_char(c: char) -> (r: bool)
    ensures
        r == is_trim_ws(c),
{
    c == ' ' || c == '\t' || c == '\r' || c == '\n'
}

/// Trims ASCII whitespace from both ends.
pub fn trim(s: &str) -> (r: &str)
    ensures
        r@ == trim_spec(s@),
{
    let n = s.unicode_len();
    proof {
        assert(s@.subrange(0, n as int) =~= s@);
    }
    let mut start: usize = 0;
    while start < n && is_ws_char(s.get_char(start))
        invariant
            start <= n,
            n == s@.len(),
            trim_spec(s@) == trim_spec(s@.subrange(start as int, n as int)),
        decreases n - start,
    {
        proof {
            assert(s@.subrange(start as int, n as int).drop_first() =~= s@.subrange(
                start as int + 1,
                n as int,
            ));
        }
        start = start + 1;
    }
    let mut end = n;
    while end > start && is_ws_char(s.get_char(end - 1))
        invariant
            start <= end <= n,
            n == s@.len(),
            trim_spec(s@) == trim_spec(s@.subrange(start as int, end as int)),
            start < n ==> !is_trim_ws(s@[start as int]),
        decreases end,
    {
        proof {
            assert(s@.subrange(start as int, end as int).drop_last() =~= s@.subrange(
                start as int,
                end as int - 1,
            ));
        }
        end = end - 1;
    }
    let r = s.substring_char(start, end);
    proof {
        assert(r@ =~= s@.subrange(start as int, end as int));
    }
    r
}

/// Which deriver the build uses: when `path-info` on the derivation
/// returns the derivation itself, the store is new enough to need the
/// explicit output; otherwise the plain deriver is kept.
pub fn choose_deriver(path_info_stdout: &str, deriver: &str, with_output: String) -> (r: String)
    ensures
        r@ == (if trim_spec(path_info_stdout@) == deriver@ {
            with_output@
        } else {
            deriver@
        }),
{
    let trimmed = trim(path_info_stdout);
    if crate::strutil::str_eq(trimmed, deriver) {
        with_output
    } else {
        String::from_str(deriver)
    }
}

/// Arguments of `nix show-derivation <closure>`.
pub fn show_derivation_args(closure: &str) -> (r: Vec<String>)
    ensures
        strs_view(r@) =~= seq!["show-derivation"@, closure@],
{
    proof {
        reveal_strlit("show-derivation");
    }
    let mut r: Vec<String> = Vec::new();
    r.push(String::from_str("show-derivation"));
    r.push(String::from_str(closure));
    proof {
        assert(strs_view(r@) =~= seq!["show-derivation"@, closure@]);
    }
    r
}

/// Arguments of `nix path-info <deriver>`, under the nix-command feature.
pub fn path_info_args(deriver: &str) -> (r: Vec<String>)
    ensures
        strs_view(r@) =~= seq![
            "--experimental-features"@,
            "nix-command"@,
            "path-info"@,
            deriver@,
        ],
{
    proof {
        reveal_strlit("--experimental-features");
        reveal_strlit("nix-command");
        reveal_strlit("path-info");
    }
    let mut r: Vec<String> = Vec::new();
    r.push(String::from_str("--experimental-features"));
    r.push(String::from_str("nix-command"));
    r.push(String::from_str("path-info"));
    r.push(String::from_str(deriver));
    proof {
        assert(strs_view(r@) =~= seq![
            "--experimental-features"@,
            "nix-command"@,
            "path-info"@,
            deriver@,
        ]);
    }
    r
}

/// The out-link flag of a local build: an explicit link under the result
/// path when results are kept, otherwise no link at all, spelled as the
/// invoked tool expects it.
pub fn build_link_args(
    keep_result: bool,
    supports_flakes: bool,
    result_path: Option<&str>,
    node_name: &str,
    profile_name: &str,
) -> (r: Vec<String>)
    ensures
        (keep_result ==> strs_view(r@) =~= seq![
            "--out-link"@,
            (match result_path {
                Some(p) => p@,
                None => "./.deploy-gc"@,
            }) + "/"@ + node_name@ + "/"@ + profile_name@,
        ]),
        (!keep_result && !supports_flakes ==> strs_view(r@) =~= seq!["--no-out-link"@]),
        (!keep_result && supports_flakes ==> strs_view(r@) =~= seq!["--no-link"@]),
{
    proof {
        reveal_strlit("--out-link");
        reveal_strlit("./.deploy-gc");
        reveal_strlit("/");
        reveal_strlit("--no-out-link");
        reveal_strlit("--no-link");
    }
    let mut r: Vec<String> = Vec::new();
    if keep_result {
        let base: String = match result_path {
            Some(p) => String::from_str(p),
            None => String::from_str("./.deploy-gc"),
        };
        let link = base.concat("/").concat(node_name).concat("/").concat(profile_name);
        r.push(String::from_str("--out-link"));
        r.push(link);
        proof {
            assert(strs_view(r@) =~= seq![
                "--out-link"@,
                (match result_path {
                    Some(p) => p@,
                    None => "./.deploy-gc"@,
                }) + "/"@ + node_name@ + "/"@ + profile_name@,
            ]);
        }
    } else if !supports_flakes {
        r.push(String::from_str("--no-out-link"));
        proof {
            assert(strs_view(r@) =~= seq!["--no-out-link"@]);
        }
    } else {
        r.push(String::from_str("--no-link"));
        proof {
            assert(strs_view(r@) =~= seq!["--no-link"@]);
        }
    }
    r
}

/// Arguments of `nix sign-paths -r -k <key> <closure>`.
pub fn sign_args(local_key: &str, closure: &str) -> (r: Vec<String>)
    ensures
        strs_view(r@) =~= seq!["sign-paths"@, "-r"@, "-k"@, local_key@, closure@],
{
    proof {
        reveal_strlit("sign-paths");
        reveal_strlit("-r");
        reveal_strlit("-k");
    }
    let mut r: Vec<String> = Vec::new();
    r.push(String::from_str("sign-paths"));
    r.push(String::from_str("-r"));
    r.push(String::from_str("-k"));
    r.push(String::from_str(local_key));
    r.push(String::from_str(closure));
    proof {
        assert(strs_view(r@) =~= seq!["sign-paths"@, "-r"@, "-k"@, local_key@, closure@]);
    }
    r
}

/// Arguments that copy a derivation to the target so it can be built
/// there, fetching dependencies from substituters rather than from here.
pub fn copy_derivation_args(store_address: &str, deriver: &str) -> (r: Vec<String>)
    ensures
        strs_view(r@) =~= seq![
            "--experimental-features"@,
            "nix-command"@,
            "copy"@,
            "-s"@,
            "--to"@,
            store_address@,
            "--derivation"@,
            deriver@,
        ],
{
    proof {
        reveal_strlit("--experimental-features");
        reveal_strlit("nix-command");
        reveal_strlit("copy");
        reveal_strlit("-s");
        reveal_strlit("--to");
        reveal_strlit("--derivation");
    }
    let mut r: Vec<String> = Vec::new();
    r.push(String::from_str("--experimental-features"));
    r.push(String::from_str("nix-command"));
    r.push(String::from_str("copy"));
    r.push(String::from_str("-s"));
    r.push(String::from_str("--to"));
    r.push(String::from_str(store_address));
    r.push(String::from_str("--derivation"));
    r.push(String::from_str(deriver));
    proof {
        assert(strs_view(r@) =~= seq![
            "--experimental-features"@,
            "nix-command"@,
            "copy"@,
            "-s"@,
            "--to"@,
            store_address@,
            "--derivation"@,
            deriver@,
        ]);
    }
    r
}

/// Arguments that build a derivation on the target's store.
pub fn remote_build_args(store_address: &str, deriver: &str) -> (r: Vec<String>)
    ensures
        strs_view(r@) =~= seq![
            "--experimental-features"@,
            "nix-command"@,
            "build"@,
            deriver@,
            "--eval-store"@,
            "auto"@,
            "--store"@,
            store_address@,
        ],
{
    proof {
        reveal_strlit("--experimental-features");
        reveal_strlit("nix-command");
        reveal_strlit("build");
        reveal_strlit("--eval-store");
        reveal_strlit("auto");
        reveal_strlit("--store");
    }
    let mut r: Vec<String> = Vec::new();
    r.push(String::from_str("--experimental-features"));
    r.push(String::from_str("nix-command"));
    r.push(String::from_str("build"));
    r.push(String::from_str(deriver));
    r.push(String::from_str("--eval-store"));
    r.push(String::from_str("auto"));
    r.push(String::from_str("--store"));
    r.push(String::from_str(store_address));
    proof {
        assert(strs_view(r@) =~= seq![
            "--experimental-features"@,
            "nix-command"@,
            "build"@,
            deriver@,
            "--eval-store"@,
            "auto"@,
            "--store"@,
            store_address@,
        ]);
    }
    r
}

/// Arguments of the `nix copy` that pushes a closure to the target: the
/// destination substitutes unless the connection is fast, and signature
/// checking is explicit.
pub fn copy_args(
    fast_connection: bool,
    check_sigs: bool,
    ssh_addr: &str,
    closure: &str,
) -> (r: Vec<String>)
    ensures
        strs_view(r@) =~= seq!["copy"@] + (if !fast_connection {
            seq!["--substitute-on-destination"@]
        } else {
            Seq::<Seq<char>>::empty()
        }) + (if !check_sigs {
            seq!["--no-check-sigs"@]
        } else {
            Seq::<Seq<char>>::empty()
        }) + seq!["--to"@, "ssh://"@ + ssh_addr@, closure@],
{
    proof {
        reveal_strlit("copy");
        reveal_strlit("--substitute-on-destination");
        reveal_strlit("--no-check-sigs");
        reveal_strlit("--to");
        reveal_strlit("ssh://");
    }
    let mut r: Vec<String> = Vec::new();
    r.push(String::from_str("copy"));
    if !fast_connection {
        r.push(String::from_str("--substitute-on-destination"));
    }
    if !check_sigs {
        r.push(String::from_str("--no-check-sigs"));
    }
    r.push(String::from_str("--to"));
    let dest = String::from_str("ssh://").concat(ssh_addr);
    r.push(dest);
    r.push(String::from_str(closure));
    proof {
        assert(strs_view(r@) =~= seq!["copy"@] + (if !fast_connection {
            seq!["--substitute-on-destination"@]
        } else {
            Seq::<Seq<char>>::empty()
        }) + (if !check_sigs {
            seq!["--no-check-sigs"@]
        } else {
            Seq::<Seq<char>>::empty()
        }) + seq!["--to"@, "ssh://"@ + ssh_addr@, closure@]);
    }
    r
}

} // verus!
