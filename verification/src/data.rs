//! The deployment description: generic settings at three declarative levels
//! plus command-line overrides, nodes, profiles, and the merge that turns
//! them into the effective settings of one deploy unit.
//!
//! Mappings are held as vectors of `(name, value)` pairs with unique keys,
//! so that the resolver's ordering guarantees can be stated over plain
//! sequences.

use vstd::prelude::*;

verus! {

/// Settings that may be given globally, per node, per profile, or on the
/// command line. A `None` means "not set at this level".
pub struct GenericSettings {
    pub ssh_user: Option<String>,
    pub user: Option<String>,
    /// Accumulated, never overwritten: the merge concatenates all levels.
    pub ssh_opts: Vec<String>,
    pub fast_connection: Option<bool>,
    pub auto_rollback: Option<bool>,
    pub confirm_timeout: Option<u16>,
    pub activation_timeout: Option<u16>,
    pub temp_path: Option<String>,
    pub magic_rollback: Option<bool>,
    pub remote_build: Option<bool>,
    pub sudo: Option<String>,
}

/// The part of a profile that is not generic settings.
pub struct ProfileSettings {
    /// The closure (store path) to deploy.
    pub path: String,
    /// Explicit profile symlink path, overriding the derived one.
    pub profile_path: Option<String>,
}

pub struct Profile {
    pub profile_settings: ProfileSettings,
    pub generic_settings: GenericSettings,
}

/// The part of a node that is not generic settings.
pub struct NodeSettings {
    pub hostname: Option<String>,
    /// Profile name to profile, keys unique.
    pub profiles: Vec<(String, Profile)>,
    /// Priority prefix of the profile ordering; a subset of the keys of
    /// `profiles`.
    pub profiles_order: Vec<String>,
}

pub struct Node {
    pub generic_settings: GenericSettings,
    pub node_settings: NodeSettings,
}

/// The whole deployment description, as the external evaluator hands it
/// over: global defaults and the node mapping, keys unique.
pub struct Data {
    pub generic_settings: GenericSettings,
    pub nodes: Vec<(String, Node)>,
}

/// The root settings of one target repository; the same shape as `Data`,
/// under the name the evaluator boundary uses.
pub type Root = Data;

/// Keys of an association vector, as a sequence.
pub open spec fn assoc_keys<T>(s: Seq<(String, T)>) -> Seq<Seq<char>> {
    s.map_values(|p: (String, T)| p.0@)
}

/// No key occurs twice.
pub open spec fn unique_keys<T>(s: Seq<(String, T)>) -> bool {
    forall|i: int, j: int| 0 <= i < j < s.len() ==> s[i].0@ != s[j].0@
}

/// The value under `key`, if any.
pub open spec fn assoc_lookup<T>(s: Seq<(String, T)>, key: Seq<char>) -> Option<T>
    decreases s.len(),
{
    if s.len() == 0 {
        None
    } else if s[0].0@ == key {
        Some(s[0].1)
    } else {
        assoc_lookup(s.drop_first(), key)
    }
}

/// Whether `key` is among the keys of `s`.
pub open spec fn assoc_contains<T>(s: Seq<(String, T)>, key: Seq<char>) -> bool {
    exists|i: int| 0 <= i < s.len() && s[i].0@ == key
}

pub proof fn lemma_assoc_lookup_some<T>(s: Seq<(String, T)>, key: Seq<char>)
    ensures
        assoc_lookup(s, key) is Some <==> assoc_contains(s, key),
        assoc_lookup(s, key) is Some ==> exists|i: int|
            0 <= i < s.len() && s[i].0@ == key && assoc_lookup(s, key) == Some(s[i].1),
    decreases s.len(),
{
    if s.len() > 0 && s[0].0@ != key {
        lemma_assoc_lookup_some(s.drop_first(), key);
        if assoc_contains(s, key) {
            let i = choose|i: int| 0 <= i < s.len() && s[i].0@ == key;
            assert(s.drop_first()[i - 1].0@ == key);
        }
        if assoc_lookup(s.drop_first(), key) is Some {
            let i = choose|i: int|
                0 <= i < s.drop_first().len() && s.drop_first()[i].0@ == key && assoc_lookup(
                    s.drop_first(),
                    key,
                ) == Some(s.drop_first()[i].1);
            assert(s[i + 1].0@ == key && s[i + 1].1 == s.drop_first()[i].1);
        }
    }
}

/// Well-formedness of the whole description: unique node names, and unique
/// profile names within each node.
pub open spec fn data_well_formed(d: Data) -> bool {
    &&& unique_keys(d.nodes@)
    &&& forall|i: int|
        0 <= i < d.nodes@.len() ==> unique_keys(#[trigger] d.nodes@[i].1.node_settings.profiles@)
}

/// A scalar setting under the documented precedence: the root value where
/// set, else the node's, else the profile's, else the command line's.
pub open spec fn merged_scalar<T>(
    cmd: Option<T>,
    profile: Option<T>,
    node: Option<T>,
    root: Option<T>,
) -> Option<T> {
    if root is Some {
        root
    } else if node is Some {
        node
    } else if profile is Some {
        profile
    } else {
        cmd
    }
}

/// A scalar set at a more authoritative level is never overridden by a
/// less authoritative one; where no level sets it, it stays unset.
pub proof fn lemma_merge_precedence<T>(
    cmd: Option<T>,
    profile: Option<T>,
    node: Option<T>,
    root: Option<T>,
)
    ensures
        root is Some ==> merged_scalar(cmd, profile, node, root) == root,
        root is None && node is Some ==> merged_scalar(cmd, profile, node, root) == node,
        root is None && node is None && profile is Some ==> merged_scalar(
            cmd,
            profile,
            node,
            root,
        ) == profile,
        root is None && node is None && profile is None ==> merged_scalar(
            cmd,
            profile,
            node,
            root,
        ) == cmd,
{
}

fn pick<T>(cmd: Option<T>, profile: Option<T>, node: Option<T>, root: Option<T>) -> (r: Option<T>)
    ensures
        r == merged_scalar(cmd, profile, node, root),
{
    match root {
        Some(v) => Some(v),
        None => match node {
            Some(v) => Some(v),
            None => match profile {
                Some(v) => Some(v),
                None => cmd,
            },
        },
    }
}

/// What it means for `m` to be the merge of the four settings levels,
/// listed in increasing precedence: command line, then profile, then node,
/// then root. A scalar set at a later (more authoritative) level overrides
/// the earlier ones; `ssh_opts` concatenates all four levels, earliest
/// first.
pub open spec fn settings_merged(
    m: GenericSettings,
    cmd: GenericSettings,
    profile: GenericSettings,
    node: GenericSettings,
    root: GenericSettings,
) -> bool {
    &&& m.ssh_user == merged_scalar(cmd.ssh_user, profile.ssh_user, node.ssh_user, root.ssh_user)
    &&& m.user == merged_scalar(cmd.user, profile.user, node.user, root.user)
    &&& m.ssh_opts@ == cmd.ssh_opts@ + profile.ssh_opts@ + node.ssh_opts@ + root.ssh_opts@
    &&& m.fast_connection == merged_scalar(
        cmd.fast_connection,
        profile.fast_connection,
        node.fast_connection,
        root.fast_connection,
    )
    &&& m.auto_rollback == merged_scalar(
        cmd.auto_rollback,
        profile.auto_rollback,
        node.auto_rollback,
        root.auto_rollback,
    )
    &&& m.confirm_timeout == merged_scalar(
        cmd.confirm_timeout,
        profile.confirm_timeout,
        node.confirm_timeout,
        root.confirm_timeout,
    )
    &&& m.activation_timeout == merged_scalar(
        cmd.activation_timeout,
        profile.activation_timeout,
        node.activation_timeout,
        root.activation_timeout,
    )
    &&& m.temp_path == merged_scalar(cmd.temp_path, profile.temp_path, node.temp_path, root.temp_path)
    &&& m.magic_rollback == merged_scalar(
        cmd.magic_rollback,
        profile.magic_rollback,
        node.magic_rollback,
        root.magic_rollback,
    )
    &&& m.remote_build == merged_scalar(
        cmd.remote_build,
        profile.remote_build,
        node.remote_build,
        root.remote_build,
    )
    &&& m.sudo == merged_scalar(cmd.sudo, profile.sudo, node.sudo, root.sudo)
}

/// Merges the four settings levels. The direction of precedence is a
/// deliberate, documented choice: every declarative level wins over the
/// command line, so a per-profile setting cannot be overridden from a
/// flag.
pub fn merge_settings(
    cmd: GenericSettings,
    profile: GenericSettings,
    node: GenericSettings,
    root: GenericSettings,
) -> (r: GenericSettings)
    ensures
        settings_merged(r, cmd, profile, node, root),
{
    let mut ssh_opts = cmd.ssh_opts;
    let mut profile_opts = profile.ssh_opts;
    let mut node_opts = node.ssh_opts;
    let mut root_opts = root.ssh_opts;
    ssh_opts.append(&mut profile_opts);
    ssh_opts.append(&mut node_opts);
    ssh_opts.append(&mut root_opts);
    GenericSettings {
        ssh_user: pick(cmd.ssh_user, profile.ssh_user, node.ssh_user, root.ssh_user),
        user: pick(cmd.user, profile.user, node.user, root.user),
        ssh_opts,
        fast_connection: pick(
            cmd.fast_connection,
            profile.fast_connection,
            node.fast_connection,
            root.fast_connection,
        ),
        auto_rollback: pick(
            cmd.auto_rollback,
            profile.auto_rollback,
            node.auto_rollback,
            root.auto_rollback,
        ),
        confirm_timeout: pick(
            cmd.confirm_timeout,
            profile.confirm_timeout,
            node.confirm_timeout,
            root.confirm_timeout,
        ),
        activation_timeout: pick(
            cmd.activation_timeout,
            profile.activation_timeout,
            node.activation_timeout,
            root.activation_timeout,
        ),
        temp_path: pick(cmd.temp_path, profile.temp_path, node.temp_path, root.temp_path),
        magic_rollback: pick(
            cmd.magic_rollback,
            profile.magic_rollback,
            node.magic_rollback,
            root.magic_rollback,
        ),
        remote_build: pick(cmd.remote_build, profile.remote_build, node.remote_build, root.remote_build),
        sudo: pick(cmd.sudo, profile.sudo, node.sudo, root.sudo),
    }
}

/// Clones an optional string, keeping its value.
pub fn clone_opt_string(o: &Option<String>) -> (r: Option<String>)
    ensures
        r == *o,
{
    match o {
        Some(s) => Some(s.clone()),
        None => None,
    }
}

/// Clones a vector of strings, keeping its contents.
pub fn clone_strings(v: &Vec<String>) -> (r: Vec<String>)
    ensures
        r@ == v@,
{
    let n = v.len();
    let mut r: Vec<String> = Vec::new();
    let mut i: usize = 0;
    while i < n
        invariant
            i <= n,
            n == v@.len(),
            r@ == v@.take(i as int),
        decreases n - i,
    {
        r.push(v[i].clone());
        proof {
            assert(v@.take(i as int).push(v@[i as int]) =~= v@.take(i as int + 1));
        }
        i = i + 1;
    }
    proof {
        assert(v@.take(n as int) =~= v@);
    }
    r
}

/// Clones a settings value, keeping every field.
pub fn clone_settings(s: &GenericSettings) -> (r: GenericSettings)
    ensures
        r.ssh_user == s.ssh_user,
        r.user == s.user,
        r.ssh_opts@ == s.ssh_opts@,
        r.fast_connection == s.fast_connection,
        r.auto_rollback == s.auto_rollback,
        r.confirm_timeout == s.confirm_timeout,
        r.activation_timeout == s.activation_timeout,
        r.temp_path == s.temp_path,
        r.magic_rollback == s.magic_rollback,
        r.remote_build == s.remote_build,
        r.sudo == s.sudo,
{
    GenericSettings {
        ssh_user: clone_opt_string(&s.ssh_user),
        user: clone_opt_string(&s.user),
        ssh_opts: clone_strings(&s.ssh_opts),
        fast_connection: s.fast_connection,
        auto_rollback: s.auto_rollback,
        confirm_timeout: s.confirm_timeout,
        activation_timeout: s.activation_timeout,
        temp_path: clone_opt_string(&s.temp_path),
        magic_rollback: s.magic_rollback,
        remote_build: s.remote_build,
        sudo: clone_opt_string(&s.sudo),
    }
}

/// Looks a profile up by name.
pub fn get_profile<'a>(profiles: &'a Vec<(String, Profile)>, name: &str) -> (r: Option<
    &'a Profile,
>)
    ensures
        match r {
            Some(p) => assoc_lookup(profiles@, name@) == Some(*p),
            None => !assoc_contains(profiles@, name@),
        },
{
    proof {
        lemma_assoc_lookup_some(profiles@, name@);
        assert(profiles@.skip(0) =~= profiles@);
    }
    let n = profiles.len();
    let mut i: usize = 0;
    while i < n
        invariant
            i <= n,
            n == profiles@.len(),
            forall|j: int| 0 <= j < i ==> profiles@[j].0@ != name@,
            assoc_lookup(profiles@, name@) == assoc_lookup(profiles@.skip(i as int), name@),
        decreases n - i,
    {
        proof {
            assert(profiles@.skip(i as int).drop_first() =~= profiles@.skip(i as int + 1));
        }
        if crate::strutil::str_eq(profiles[i].0.as_str(), name) {
            proof {
                assert(profiles@.skip(i as int)[0] == profiles@[i as int]);
            }
            return Some(&profiles[i].1);
        }
        i = i + 1;
    }
    proof {
        assert(profiles@.skip(n as int).len() == 0);
    }
    None
}

/// Looks a node up by name.
pub fn get_node<'a>(nodes: &'a Vec<(String, Node)>, name: &str) -> (r: Option<&'a Node>)
    ensures
        match r {
            Some(p) => assoc_lookup(nodes@, name@) == Some(*p),
            None => !assoc_contains(nodes@, name@),
        },
{
    proof {
        lemma_assoc_lookup_some(nodes@, name@);
        assert(nodes@.skip(0) =~= nodes@);
    }
    let n = nodes.len();
    let mut i: usize = 0;
    while i < n
        invariant
            i <= n,
            n == nodes@.len(),
            forall|j: int| 0 <= j < i ==> nodes@[j].0@ != name@,
            assoc_lookup(nodes@, name@) == assoc_lookup(nodes@.skip(i as int), name@),
        decreases n - i,
    {
        proof {
            assert(nodes@.skip(i as int).drop_first() =~= nodes@.skip(i as int + 1));
        }
        if crate::strutil::str_eq(nodes[i].0.as_str(), name) {
            proof {
                assert(nodes@.skip(i as int)[0] == nodes@[i as int]);
            }
            return Some(&nodes[i].1);
        }
        i = i + 1;
    }
    proof {
        assert(nodes@.skip(n as int).len() == 0);
    }
    None
}

} // verus!
