//! The target resolver: expands a parsed descriptor against the deployment
//! description into the flat, ordered list of deploy units, merging the
//! settings levels and deriving the per-unit fields.

use vstd::prelude::*;

verus! {

use crate::data::GenericSettings;
use crate::data::Node;
use crate::data::Profile;
use crate::data::Data;
use crate::data::assoc_lookup;
use crate::data::assoc_contains;
use crate::data::assoc_keys;
use crate::data::unique_keys;
use crate::data::data_well_formed;
use crate::data::settings_merged;
use crate::data::merge_settings;
use crate::data::clone_settings;
use crate::data::clone_opt_string;
use crate::data::get_node;
use crate::data::get_profile;
use crate::data::lemma_assoc_lookup_some;
use crate::strutil::strs_view;
use crate::strutil::split_char_spec;
use crate::strutil::split_char;
use crate::strutil::str_eq;
use crate::target::DeployFlake;

/// Command-line overrides; the weakest level of the settings merge, plus
/// the hostname override.
pub struct CmdOverrides {
    pub ssh_user: Option<String>,
    pub profile_user: Option<String>,
    /// Space-separated SSH options.
    pub ssh_opts: Option<String>,
    pub fast_connection: Option<bool>,
    pub auto_rollback: Option<bool>,
    pub hostname: Option<String>,
    pub magic_rollback: Option<bool>,
    pub temp_path: Option<String>,
    pub confirm_timeout: Option<u16>,
}

/// The command-line overrides as one settings level.
pub fn overrides_settings(o: &CmdOverrides) -> (r: GenericSettings)
    ensures
        r.ssh_user == o.ssh_user,
        r.user == o.profile_user,
        (match o.ssh_opts {
            Some(s) => strs_view(r.ssh_opts@) == split_char_spec(s@, ' '),
            None => r.ssh_opts@.len() == 0,
        }),
        r.fast_connection == o.fast_connection,
        r.auto_rollback == o.auto_rollback,
        r.confirm_timeout == o.confirm_timeout,
        r.activation_timeout is None,
        r.temp_path == o.temp_path,
        r.magic_rollback == o.magic_rollback,
        r.remote_build is None,
        r.sudo is None,
{
    let ssh_opts: Vec<String> = match &o.ssh_opts {
        Some(s) => split_char(s.as_str(), ' '),
        None => Vec::new(),
    };
    GenericSettings {
        ssh_user: clone_opt_string(&o.ssh_user),
        user: clone_opt_string(&o.profile_user),
        ssh_opts,
        fast_connection: o.fast_connection,
        auto_rollback: o.auto_rollback,
        confirm_timeout: o.confirm_timeout,
        activation_timeout: None,
        temp_path: clone_opt_string(&o.temp_path),
        magic_rollback: o.magic_rollback,
        remote_build: None,
        sudo: None,
    }
}

/// One fully resolved deploy unit: a `(node, profile)` pair with its
/// merged settings and the inputs of the derived fields. Immutable once
/// the resolver has produced it.
pub struct DeployData {
    pub node_name: String,
    pub profile_name: String,
    /// The closure (store path) of the profile.
    pub closure: String,
    /// The declared profile symlink path, when one is given.
    pub explicit_profile_path: Option<String>,
    /// The hostname the node declares, when one is given.
    pub node_hostname: Option<String>,
    /// A hostname override, from the command line or the descriptor.
    pub host_override: Option<String>,
    pub merged_settings: GenericSettings,
    pub debug_logs: bool,
    pub log_dir: Option<String>,
}

/// The derived per-unit values the remote commands are built from.
pub struct DeployDefs {
    pub ssh_user: String,
    pub profile_user: String,
    pub profile_path: String,
    pub sudo: Option<String>,
}

#[derive(Debug)]
pub enum DeployDataDefsError {
    /// Neither `user` nor `ssh_user` is set; profile and node name.
    NoProfileUser(String, String),
    /// No hostname is declared or overridden; profile and node name.
    NoHost(String, String),
}

/// The user the generation symlink belongs to: `user`, else `ssh_user`,
/// else nothing.
pub open spec fn profile_user_spec(m: GenericSettings) -> Option<Seq<char>> {
    match m.user {
        Some(u) => Some(u@),
        None => match m.ssh_user {
            Some(u) => Some(u@),
            None => None,
        },
    }
}

/// The profile symlink path when none is declared explicitly.
pub open spec fn default_profile_path(profile_user: Seq<char>, profile_name: Seq<char>) -> Seq<
    char,
> {
    if profile_user == "root"@ {
        "/nix/var/nix/profiles/"@ + profile_name
    } else {
        "/nix/var/nix/profiles/per-user/"@ + profile_user + "/"@ + profile_name
    }
}

/// The sudo prefix: set exactly when a profile user is declared that
/// differs from the SSH user.
pub open spec fn sudo_prefix_spec(user: Option<String>, ssh_user: Seq<char>) -> Option<Seq<char>> {
    match user {
        Some(u) => if u@ != ssh_user {
            Some("sudo -u "@ + u@)
        } else {
            None
        },
        None => None,
    }
}

impl DeployData {
    /// Derives the per-unit values, with `local_user` standing in for the
    /// SSH user when none is declared.
    pub fn defs_with_user(&self, local_user: &str) -> (r: Result<DeployDefs, DeployDataDefsError>)
        ensures
            r is Err <==> (self.merged_settings.user is None && self.merged_settings.ssh_user
                is None),
            (match r {
                Err(e) => e matches DeployDataDefsError::NoProfileUser(p, n) && p@
                    == self.profile_name@ && n@ == self.node_name@,
                Ok(d) => {
                    &&& d.ssh_user@ == (match self.merged_settings.ssh_user {
                        Some(u) => u@,
                        None => local_user@,
                    })
                    &&& Some(d.profile_user@) == profile_user_spec(self.merged_settings)
                    &&& d.profile_path@ == (match self.explicit_profile_path {
                        Some(p) => p@,
                        None => default_profile_path(d.profile_user@, self.profile_name@),
                    })
                    &&& (match d.sudo {
                        Some(s) => Some(s@) == sudo_prefix_spec(
                            self.merged_settings.user,
                            d.ssh_user@,
                        ),
                        None => sudo_prefix_spec(self.merged_settings.user, d.ssh_user@) is None,
                    })
                },
            }),
    {
        proof {
            reveal_strlit("root");
            reveal_strlit("/nix/var/nix/profiles/");
            reveal_strlit("/nix/var/nix/profiles/per-user/");
            reveal_strlit("/");
            reveal_strlit("sudo -u ");
        }
        let ssh_user: String = match &self.merged_settings.ssh_user {
            Some(u) => u.clone(),
            None => String::from_str(local_user),
        };
        let profile_user: String = match &self.merged_settings.user {
            Some(u) => u.clone(),
            None => match &self.merged_settings.ssh_user {
                Some(u) => u.clone(),
                None => {
                    return Err(
                        DeployDataDefsError::NoProfileUser(
                            self.profile_name.clone(),
                            self.node_name.clone(),
                        ),
                    );
                },
            },
        };
        let profile_path: String = match &self.explicit_profile_path {
            Some(p) => p.clone(),
            None => {
                if str_eq(profile_user.as_str(), "root") {
                    let r = String::from_str("/nix/var/nix/profiles/").concat(
                        self.profile_name.as_str(),
                    );
                    proof {
                        assert(r@ =~= default_profile_path(profile_user@, self.profile_name@));
                    }
                    r
                } else {
                    let r = String::from_str("/nix/var/nix/profiles/per-user/").concat(
                        profile_user.as_str(),
                    ).concat("/").concat(self.profile_name.as_str());
                    proof {
                        assert(r@ =~= default_profile_path(profile_user@, self.profile_name@));
                    }
                    r
                }
            },
        };
        let sudo: Option<String> = match &self.merged_settings.user {
            Some(u) => {
                if !str_eq(u.as_str(), ssh_user.as_str()) {
                    let s = String::from_str("sudo -u ").concat(u.as_str());
                    proof {
                        assert(s@ =~= "sudo -u "@ + u@);
                    }
                    Some(s)
                } else {
                    None
                }
            },
            None => None,
        };
        Ok(DeployDefs { ssh_user, profile_user, profile_path, sudo })
    }

    /// Derives the per-unit values, falling back to the operator's own
    /// login name for the SSH user; everything but that name is pinned
    /// down as in `defs_with_user`.
    pub fn defs(&self) -> (r: Result<DeployDefs, DeployDataDefsError>)
        ensures
            r is Err <==> (self.merged_settings.user is None && self.merged_settings.ssh_user
                is None),
            (match r {
                Err(e) => e matches DeployDataDefsError::NoProfileUser(p, n) && p@
                    == self.profile_name@ && n@ == self.node_name@,
                Ok(d) => {
                    &&& (match self.merged_settings.ssh_user {
                        Some(u) => d.ssh_user@ == u@,
                        None => true,
                    })
                    &&& Some(d.profile_user@) == profile_user_spec(self.merged_settings)
                    &&& d.profile_path@ == (match self.explicit_profile_path {
                        Some(p) => p@,
                        None => default_profile_path(d.profile_user@, self.profile_name@),
                    })
                    &&& (match d.sudo {
                        Some(s) => Some(s@) == sudo_prefix_spec(
                            self.merged_settings.user,
                            d.ssh_user@,
                        ),
                        None => sudo_prefix_spec(self.merged_settings.user, d.ssh_user@) is None,
                    })
                },
            }),
    {
        let local_user = match current_username() {
            Some(u) => u,
            None => String::new(),
        };
        self.defs_with_user(local_user.as_str())
    }

    /// The hostname a unit is reached under: the override where one was
    /// given, else the node's declared hostname.
    pub fn hostname(&self) -> (r: Result<&String, DeployDataDefsError>)
        ensures
            (match r {
                Ok(h) => Some(*h) == (if self.host_override is Some {
                    self.host_override
                } else {
                    self.node_hostname
                }),
                Err(e) => self.host_override is None && self.node_hostname is None && (
                e matches DeployDataDefsError::NoHost(p, n) && p@ == self.profile_name@ && n@
                    == self.node_name@),
            }),
    {
        match &self.host_override {
            Some(h) => Ok(h),
            None => match &self.node_hostname {
                Some(h) => Ok(h),
                None => Err(
                    DeployDataDefsError::NoHost(
                        self.profile_name.clone(),
                        self.node_name.clone(),
                    ),
                ),
            },
        }
    }
}

/// Relies on whoami::username for the operator's login name; the result
/// depends on the environment, so nothing is promised of it.
#[verifier::external_body]
fn current_username() -> (r: Option<String>) {
    match whoami::username() {
        Ok(u) => Some(u),
        Err(_) => None,
    }
}

/// The order units of one node are produced in: the declared priority
/// prefix first, then every remaining profile in declaration order.
pub open spec fn prioritized_order(order: Seq<Seq<char>>, keys: Seq<Seq<char>>) -> Seq<Seq<char>> {
    order + keys.filter(|k: Seq<char>| !order.contains(k))
}

/// The profile names of `node` in deployment order.
pub fn profile_order(profiles_order: &Vec<String>, profiles: &Vec<(String, Profile)>) -> (r: Vec<
    String,
>)
    ensures
        strs_view(r@) == prioritized_order(strs_view(profiles_order@), assoc_keys(profiles@)),
{
    let mut r: Vec<String> = Vec::new();
    let n = profiles_order.len();
    let mut i: usize = 0;
    while i < n
        invariant
            i <= n,
            n == profiles_order@.len(),
            strs_view(r@) == strs_view(profiles_order@).take(i as int),
        decreases n - i,
    {
        proof {
            crate::strutil::lemma_strs_view_push(r@, profiles_order@[i as int]);
        }
        r.push(profiles_order[i].clone());
        proof {
            assert(strs_view(r@) =~= strs_view(profiles_order@).take(i as int + 1));
        }
        i = i + 1;
    }
    proof {
        assert(strs_view(profiles_order@).take(n as int) =~= strs_view(profiles_order@));
        assert(assoc_keys(profiles@).take(0) =~= Seq::<Seq<char>>::empty());
        reveal(Seq::filter);
        assert(assoc_keys(profiles@).take(0).filter(
            |k: Seq<char>| !strs_view(profiles_order@).contains(k),
        ) =~= Seq::<Seq<char>>::empty());
        assert(strs_view(r@) =~= strs_view(profiles_order@) + assoc_keys(profiles@).take(0).filter(
            |k: Seq<char>| !strs_view(profiles_order@).contains(k),
        ));
    }
    let m = profiles.len();
    let mut j: usize = 0;
    while j < m
        invariant
            j <= m,
            m == profiles@.len(),
            n == profiles_order@.len(),
            strs_view(r@) == strs_view(profiles_order@) + assoc_keys(profiles@).take(
                j as int,
            ).filter(|k: Seq<char>| !strs_view(profiles_order@).contains(k)),
        decreases m - j,
    {
        let key = &profiles[j].0;
        let mut found = false;
        let mut t: usize = 0;
        while t < n
            invariant
                t <= n,
                n == profiles_order@.len(),
                found == exists|u: int| 0 <= u < t && strs_view(profiles_order@)[u] == key@,
            decreases n - t,
        {
            proof {
                assert(strs_view(profiles_order@)[t as int] == profiles_order@[t as int]@);
            }
            if str_eq(profiles_order[t].as_str(), key.as_str()) {
                found = true;
            }
            t = t + 1;
        }
        proof {
            assert(found == strs_view(profiles_order@).contains(key@));
            assert(assoc_keys(profiles@).take(j as int + 1).drop_last() =~= assoc_keys(
                profiles@,
            ).take(j as int));
            assert(assoc_keys(profiles@).take(j as int + 1).last() == key@);
        }
        if !found {
            proof {
                crate::strutil::lemma_strs_view_push(r@, profiles@[j as int].0);
            }
            r.push(key.clone());
        }
        proof {
            reveal(Seq::filter);
            let pred = |k: Seq<char>| !strs_view(profiles_order@).contains(k);
            assert(strs_view(r@) =~= strs_view(profiles_order@) + assoc_keys(profiles@).take(
                j as int + 1,
            ).filter(pred));
        }
        j = j + 1;
    }
    proof {
        assert(assoc_keys(profiles@).take(m as int) =~= assoc_keys(profiles@));
    }
    r
}

/// The resolver yields the declared priority prefix first and the rest in
/// declaration order: a node declaring order `[a, c]` over profiles
/// `{b, a, c}` yields exactly `[a, c, b]`.
pub proof fn lemma_resolver_ordering(a: Seq<char>, b: Seq<char>, c: Seq<char>)
    requires
        a != b,
        b != c,
        a != c,
    ensures
        prioritized_order(seq![a, c], seq![b, a, c]) =~= seq![a, c, b],
{
    let order = seq![a, c];
    let keys = seq![b, a, c];
    let pred = |k: Seq<char>| !order.contains(k);
    reveal_with_fuel(Seq::filter, 5);
    assert(order[0] == a && order[1] == c);
    assert(order.contains(a) && order.contains(c));
    assert(!order.contains(b)) by {
        assert(forall|i: int| 0 <= i < order.len() ==> order[i] == a || order[i] == c);
    }
    assert(keys.drop_last() =~= seq![b, a]);
    assert(keys.drop_last().drop_last() =~= seq![b]);
    assert(keys.drop_last().drop_last().drop_last() =~= Seq::<Seq<char>>::empty());
    assert(seq![b].filter(pred) =~= seq![b]);
    assert(seq![b, a].filter(pred) =~= seq![b]);
    assert(keys.filter(pred) =~= seq![b]);
}

#[derive(Debug)]
pub enum ResolveError {
    /// The descriptor names a node the description does not hold.
    NodeNotFound(String),
    /// The descriptor or a node's order list names a missing profile.
    ProfileNotFound(String),
    /// The descriptor names a profile but no node.
    ProfileWithoutNode,
    /// The descriptor carries a host override but names no node.
    IpOnFlakeRoot,
}

/// What one resolved unit must hold, given the pieces it came from.
pub open spec fn unit_matches(
    u: DeployData,
    node_name: Seq<char>,
    node: Node,
    profile_name: Seq<char>,
    profile: Profile,
    cmd: GenericSettings,
    root: GenericSettings,
    host_override: Option<String>,
    debug_logs: bool,
    log_dir: Option<String>,
) -> bool {
    &&& u.node_name@ == node_name
    &&& u.profile_name@ == profile_name
    &&& u.closure == profile.profile_settings.path
    &&& u.explicit_profile_path == profile.profile_settings.profile_path
    &&& u.node_hostname == node.node_settings.hostname
    &&& u.host_override == host_override
    &&& settings_merged(
        u.merged_settings,
        cmd,
        profile.generic_settings,
        node.generic_settings,
        root,
    )
    &&& u.debug_logs == debug_logs
    &&& u.log_dir == log_dir
}

/// The plan of one node: its name paired with each profile name, in
/// deployment order.
pub open spec fn node_plan(node_name: Seq<char>, node: Node) -> Seq<(Seq<char>, Seq<char>)> {
    prioritized_order(
        strs_view(node.node_settings.profiles_order@),
        assoc_keys(node.node_settings.profiles@),
    ).map_values(|p: Seq<char>| (node_name, p))
}

/// The plan of the whole description: every node in declaration order,
/// each expanded to its own plan.
pub open spec fn full_plan(nodes: Seq<(String, Node)>) -> Seq<(Seq<char>, Seq<char>)>
    decreases nodes.len(),
{
    if nodes.len() == 0 {
        Seq::<(Seq<char>, Seq<char>)>::empty()
    } else {
        full_plan(nodes.drop_last()) + node_plan(nodes.last().0@, nodes.last().1)
    }
}

pub proof fn lemma_full_plan_take(nodes: Seq<(String, Node)>, k: int)
    requires
        0 <= k < nodes.len(),
    ensures
        full_plan(nodes.take(k + 1)) == full_plan(nodes.take(k)) + node_plan(
            nodes[k].0@,
            nodes[k].1,
        ),
{
    assert(nodes.take(k + 1).drop_last() =~= nodes.take(k));
    assert(nodes.take(k + 1).last() == nodes[k]);
}

/// Under unique keys, looking a key up finds the entry that carries it.
pub proof fn lemma_assoc_lookup_at<T>(s: Seq<(String, T)>, k: int)
    requires
        unique_keys(s),
        0 <= k < s.len(),
    ensures
        assoc_lookup(s, s[k].0@) == Some(s[k].1),
    decreases k,
{
    if k > 0 {
        assert(s[0].0@ != s[k].0@);
        assert(unique_keys(s.drop_first())) by {
            assert(forall|i: int, j: int|
                0 <= i < j < s.drop_first().len() ==> s.drop_first()[i] == s[i + 1]
                    && s.drop_first()[j] == s[j + 1]);
        }
        lemma_assoc_lookup_at(s.drop_first(), k - 1);
        assert(s.drop_first()[k - 1] == s[k]);
    }
}

/// Builds one deploy unit, merging the settings of all four levels.
pub fn make_deploy_data(
    top_settings: &GenericSettings,
    node: &Node,
    node_name: &str,
    profile: &Profile,
    profile_name: &str,
    cmd_settings: &GenericSettings,
    host_override: &Option<String>,
    debug_logs: bool,
    log_dir: &Option<String>,
) -> (r: DeployData)
    ensures
        unit_matches(
            r,
            node_name@,
            *node,
            profile_name@,
            *profile,
            *cmd_settings,
            *top_settings,
            *host_override,
            debug_logs,
            *log_dir,
        ),
{
    let merged = merge_settings(
        clone_settings(cmd_settings),
        clone_settings(&profile.generic_settings),
        clone_settings(&node.generic_settings),
        clone_settings(top_settings),
    );
    DeployData {
        node_name: String::from_str(node_name),
        profile_name: String::from_str(profile_name),
        closure: profile.profile_settings.path.clone(),
        explicit_profile_path: clone_opt_string(&profile.profile_settings.profile_path),
        node_hostname: clone_opt_string(&node.node_settings.hostname),
        host_override: clone_opt_string(host_override),
        merged_settings: merged,
        debug_logs,
        log_dir: clone_opt_string(log_dir),
    }
}

/// Expands one node into its units, profiles in deployment order. Fails
/// with `ProfileNotFound` exactly when the order list names a profile the
/// node does not hold.
pub fn resolve_node_units(
    node_name: &str,
    node: &Node,
    cmd: &GenericSettings,
    root: &GenericSettings,
    host_override: &Option<String>,
    debug_logs: bool,
    log_dir: &Option<String>,
) -> (r: Result<Vec<DeployData>, ResolveError>)
    ensures
        ({
            let profiles = node.node_settings.profiles@;
            let names = prioritized_order(
                strs_view(node.node_settings.profiles_order@),
                assoc_keys(profiles),
            );
            match r {
                Ok(units) => {
                    &&& units@.len() == names.len()
                    &&& forall|i: int|
                        0 <= i < names.len() ==> {
                            &&& #[trigger] assoc_lookup(profiles, names[i]) is Some
                            &&& unit_matches(
                                units@[i],
                                node_name@,
                                *node,
                                names[i],
                                assoc_lookup(profiles, names[i])->0,
                                *cmd,
                                *root,
                                *host_override,
                                debug_logs,
                                *log_dir,
                            )
                        }
                },
                Err(e) => e matches ResolveError::ProfileNotFound(p) && names.contains(p@)
                    && !assoc_contains(profiles, p@),
            }
        }),
{
    let names = profile_order(&node.node_settings.profiles_order, &node.node_settings.profiles);
    let n = names.len();
    let mut units: Vec<DeployData> = Vec::new();
    let ghost name_views = prioritized_order(
        strs_view(node.node_settings.profiles_order@),
        assoc_keys(node.node_settings.profiles@),
    );
    let mut i: usize = 0;
    while i < n
        invariant
            i <= n,
            n == names@.len(),
            strs_view(names@) == name_views,
            name_views == prioritized_order(
                strs_view(node.node_settings.profiles_order@),
                assoc_keys(node.node_settings.profiles@),
            ),
            units@.len() == i,
            forall|k: int|
                0 <= k < i ==> {
                    &&& #[trigger] assoc_lookup(node.node_settings.profiles@, name_views[k])
                        is Some
                    &&& unit_matches(
                        units@[k],
                        node_name@,
                        *node,
                        name_views[k],
                        assoc_lookup(node.node_settings.profiles@, name_views[k])->0,
                        *cmd,
                        *root,
                        *host_override,
                        debug_logs,
                        *log_dir,
                    )
                },
        decreases n - i,
    {
        proof {
            assert(strs_view(names@)[i as int] == names@[i as int]@);
        }
        match get_profile(&node.node_settings.profiles, names[i].as_str()) {
            Some(profile) => {
                let unit = make_deploy_data(
                    root,
                    node,
                    node_name,
                    profile,
                    names[i].as_str(),
                    cmd,
                    host_override,
                    debug_logs,
                    log_dir,
                );
                units.push(unit);
            },
            None => {
                let missing = names[i].clone();
                proof {
                    let names_post = prioritized_order(
                        strs_view(node.node_settings.profiles_order@),
                        assoc_keys(node.node_settings.profiles@),
                    );
                    assert(strs_view(names@).len() == names@.len());
                    assert(missing@ == name_views[i as int]);
                    assert(0 <= i < names_post.len() && names_post[i as int] == missing@);
                    assert(names_post.contains(missing@));
                }
                return Err(ResolveError::ProfileNotFound(missing));
            },
        }
        i = i + 1;
    }
    Ok(units)
}

/// Expands a parsed descriptor against the description into the flat,
/// ordered unit list. The command-line hostname wins over the
/// descriptor's `@host`; either overrides the node's declared hostname.
pub fn resolve(
    flake: &DeployFlake,
    data: &Data,
    cmd: &GenericSettings,
    hostname_override: &Option<String>,
    debug_logs: bool,
    log_dir: &Option<String>,
) -> (r: Result<Vec<DeployData>, ResolveError>)
    requires
        data_well_formed(*data),
    ensures
        ({
            let host = if hostname_override is Some {
                *hostname_override
            } else {
                flake.host
            };
            match r {
                Ok(units) => match (flake.node, flake.profile) {
                    (Some(n), Some(p)) => assoc_lookup(data.nodes@, n@) matches Some(node) && {
                        &&& assoc_lookup(node.node_settings.profiles@, p@) is Some
                        &&& units@.len() == 1
                        &&& unit_matches(
                            units@[0],
                            n@,
                            node,
                            p@,
                            assoc_lookup(node.node_settings.profiles@, p@)->0,
                            *cmd,
                            data.generic_settings,
                            host,
                            debug_logs,
                            *log_dir,
                        )
                    },
                    (Some(n), None) => assoc_lookup(data.nodes@, n@) matches Some(node) && {
                        let names = prioritized_order(
                            strs_view(node.node_settings.profiles_order@),
                            assoc_keys(node.node_settings.profiles@),
                        );
                        &&& units@.len() == names.len()
                        &&& forall|i: int|
                            0 <= i < names.len() ==> {
                                &&& #[trigger] assoc_lookup(
                                    node.node_settings.profiles@,
                                    names[i],
                                ) is Some
                                &&& unit_matches(
                                    units@[i],
                                    n@,
                                    node,
                                    names[i],
                                    assoc_lookup(node.node_settings.profiles@, names[i])->0,
                                    *cmd,
                                    data.generic_settings,
                                    host,
                                    debug_logs,
                                    *log_dir,
                                )
                            }
                    },
                    (None, None) => {
                        &&& flake.host is None
                        &&& units@.len() == full_plan(data.nodes@).len()
                        &&& forall|i: int|
                            0 <= i < full_plan(data.nodes@).len() ==> {
                                let pair = #[trigger] full_plan(data.nodes@)[i];
                                &&& assoc_lookup(data.nodes@, pair.0) matches Some(nd) && {
                                    &&& assoc_lookup(nd.node_settings.profiles@, pair.1) is Some
                                    &&& unit_matches(
                                        units@[i],
                                        pair.0,
                                        nd,
                                        pair.1,
                                        assoc_lookup(nd.node_settings.profiles@, pair.1)->0,
                                        *cmd,
                                        data.generic_settings,
                                        host,
                                        debug_logs,
                                        *log_dir,
                                    )
                                }
                            }
                    },
                    (None, Some(_)) => false,
                },
                Err(e) => match e {
                    ResolveError::ProfileWithoutNode => flake.node is None && flake.profile
                        is Some,
                    ResolveError::IpOnFlakeRoot => flake.node is None && flake.profile is None
                        && flake.host is Some,
                    ResolveError::NodeNotFound(m) => flake.node matches Some(n) && m@ == n@
                        && !assoc_contains(data.nodes@, n@),
                    ResolveError::ProfileNotFound(p) => exists|k: int|
                        0 <= k < data.nodes@.len() && {
                            let nd = #[trigger] data.nodes@[k].1;
                            &&& (match flake.node {
                                Some(n) => n@ == data.nodes@[k].0@,
                                None => true,
                            })
                            &&& !assoc_contains(nd.node_settings.profiles@, p@)
                            &&& (match flake.profile {
                                Some(q) => q@ == p@,
                                None => prioritized_order(
                                    strs_view(nd.node_settings.profiles_order@),
                                    assoc_keys(nd.node_settings.profiles@),
                                ).contains(p@),
                            })
                        },
                },
            }
        }),
{
    let host: Option<String> = match hostname_override {
        Some(h) => Some(h.clone()),
        None => clone_opt_string(&flake.host),
    };
    match (&flake.node, &flake.profile) {
        (Some(node_name), Some(profile_name)) => {
            match get_node(&data.nodes, node_name.as_str()) {
                Some(node) => match get_profile(
                    &node.node_settings.profiles,
                    profile_name.as_str(),
                ) {
                    Some(profile) => {
                        let unit = make_deploy_data(
                            &data.generic_settings,
                            node,
                            node_name.as_str(),
                            profile,
                            profile_name.as_str(),
                            cmd,
                            &host,
                            debug_logs,
                            log_dir,
                        );
                        let mut units: Vec<DeployData> = Vec::new();
                        units.push(unit);
                        Ok(units)
                    },
                    None => {
                        proof {
                            lemma_assoc_lookup_some(data.nodes@, node_name@);
                            let k = choose|k: int|
                                0 <= k < data.nodes@.len() && data.nodes@[k].0@ == node_name@
                                    && assoc_lookup(data.nodes@, node_name@) == Some(
                                    data.nodes@[k].1,
                                );
                            assert(data.nodes@[k].1 == *node);
                        }
                        Err(ResolveError::ProfileNotFound(profile_name.clone()))
                    },
                },
                None => Err(ResolveError::NodeNotFound(node_name.clone())),
            }
        },
        (Some(node_name), None) => {
            match get_node(&data.nodes, node_name.as_str()) {
                Some(node) => {
                    let r = resolve_node_units(
                        node_name.as_str(),
                        node,
                        cmd,
                        &data.generic_settings,
                        &host,
                        debug_logs,
                        log_dir,
                    );
                    match r {
                        Ok(units) => Ok(units),
                        Err(e) => {
                            proof {
                                lemma_assoc_lookup_some(data.nodes@, node_name@);
                                let k = choose|k: int|
                                    0 <= k < data.nodes@.len() && data.nodes@[k].0@ == node_name@
                                        && assoc_lookup(data.nodes@, node_name@) == Some(
                                        data.nodes@[k].1,
                                    );
                                assert(data.nodes@[k].1 == *node);
                            }
                            Err(e)
                        },
                    }
                },
                None => Err(ResolveError::NodeNotFound(node_name.clone())),
            }
        },
        (None, Some(_)) => Err(ResolveError::ProfileWithoutNode),
        (None, None) => {
            if flake.host.is_some() {
                return Err(ResolveError::IpOnFlakeRoot);
            }
            let m = data.nodes.len();
            let mut units: Vec<DeployData> = Vec::new();
            let mut k: usize = 0;
            while k < m
                invariant
                    k <= m,
                    m == data.nodes@.len(),
                    data_well_formed(*data),
                    flake.node is None,
                    flake.profile is None,
                    flake.host is None,
                    hostname_override is Some ==> host == *hostname_override,
                    hostname_override is None ==> host == flake.host,
                    units@.len() == full_plan(data.nodes@.take(k as int)).len(),
                    forall|i: int|
                        0 <= i < full_plan(data.nodes@.take(k as int)).len() ==> {
                            let pair = #[trigger] full_plan(data.nodes@.take(k as int))[i];
                            &&& assoc_lookup(data.nodes@, pair.0) matches Some(nd) && {
                                &&& assoc_lookup(nd.node_settings.profiles@, pair.1) is Some
                                &&& unit_matches(
                                    units@[i],
                                    pair.0,
                                    nd,
                                    pair.1,
                                    assoc_lookup(nd.node_settings.profiles@, pair.1)->0,
                                    *cmd,
                                    data.generic_settings,
                                    host,
                                    debug_logs,
                                    *log_dir,
                                )
                            }
                        },
                decreases m - k,
            {
                let node_name = &data.nodes[k].0;
                let node = &data.nodes[k].1;
                let r = resolve_node_units(
                    node_name.as_str(),
                    node,
                    cmd,
                    &data.generic_settings,
                    &host,
                    debug_logs,
                    log_dir,
                );
                match r {
                    Ok(mut part) => {
                        proof {
                            lemma_full_plan_take(data.nodes@, k as int);
                            lemma_assoc_lookup_at(data.nodes@, k as int);
                        }
                        units.append(&mut part);
                        proof {
                            let plan_now = full_plan(data.nodes@.take(k as int + 1));
                            let plan_old = full_plan(data.nodes@.take(k as int));
                            let names = prioritized_order(
                                strs_view(node.node_settings.profiles_order@),
                                assoc_keys(node.node_settings.profiles@),
                            );
                            assert(plan_now.len() == plan_old.len() + names.len());
                            assert forall|i: int|
                                0 <= i < plan_now.len() implies {
                                let pair = #[trigger] plan_now[i];
                                &&& assoc_lookup(data.nodes@, pair.0) matches Some(nd) && {
                                    &&& assoc_lookup(nd.node_settings.profiles@, pair.1) is Some
                                    &&& unit_matches(
                                        units@[i],
                                        pair.0,
                                        nd,
                                        pair.1,
                                        assoc_lookup(nd.node_settings.profiles@, pair.1)->0,
                                        *cmd,
                                        data.generic_settings,
                                        host,
                                        debug_logs,
                                        *log_dir,
                                    )
                                }
                            } by {
                                if i < plan_old.len() {
                                    assert(plan_now[i] == plan_old[i]);
                                } else {
                                    let j = i - plan_old.len();
                                    assert(plan_now[i] == node_plan(
                                        data.nodes@[k as int].0@,
                                        data.nodes@[k as int].1,
                                    )[j]);
                                    assert(node_plan(
                                        data.nodes@[k as int].0@,
                                        data.nodes@[k as int].1,
                                    )[j] == (data.nodes@[k as int].0@, names[j]));
                                }
                            }
                        }
                    },
                    Err(e) => {
                        proof {
                            let nd = data.nodes@[k as int].1;
                            let names = prioritized_order(
                                strs_view(nd.node_settings.profiles_order@),
                                assoc_keys(nd.node_settings.profiles@),
                            );
                            match &e {
                                ResolveError::ProfileNotFound(p) => {
                                    assert(!assoc_contains(nd.node_settings.profiles@, p@));
                                    assert(names.contains(p@));
                                },
                                _ => {
                                    assert(false);
                                },
                            }
                        }
                        return Err(e);
                    },
                }
                k = k + 1;
            }
            proof {
                assert(data.nodes@.take(m as int) =~= data.nodes@);
            }
            Ok(units)
        },
    }
}

} // verus!
