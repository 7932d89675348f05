//! Settings merge precedence, resolver ordering and expansion, and the
//! derived per-unit values.

use deploy_rs::data::Data;
use deploy_rs::data::GenericSettings;
use deploy_rs::data::Node;
use deploy_rs::data::NodeSettings;
use deploy_rs::data::Profile;
use deploy_rs::data::ProfileSettings;
use deploy_rs::data::merge_settings;
use deploy_rs::resolve::DeployData;
use deploy_rs::resolve::DeployDataDefsError;
use deploy_rs::resolve::ResolveError;
use deploy_rs::resolve::profile_order;
use deploy_rs::resolve::resolve;
use deploy_rs::target::parse_flake;

fn settings() -> GenericSettings {
    GenericSettings {
        ssh_user: None,
        user: None,
        ssh_opts: Vec::new(),
        fast_connection: None,
        auto_rollback: None,
        confirm_timeout: None,
        activation_timeout: None,
        temp_path: None,
        magic_rollback: None,
        remote_build: None,
        sudo: None,
    }
}

fn profile(path: &str) -> Profile {
    Profile {
        profile_settings: ProfileSettings { path: path.to_string(), profile_path: None },
        generic_settings: settings(),
    }
}

fn node(hostname: Option<&str>, profiles: Vec<(String, Profile)>, order: Vec<&str>) -> Node {
    Node {
        generic_settings: settings(),
        node_settings: NodeSettings {
            hostname: hostname.map(|h| h.to_string()),
            profiles,
            profiles_order: order.into_iter().map(|s| s.to_string()).collect(),
        },
    }
}

#[test]
fn merge_scalars_follow_the_documented_precedence() {
    let mut cmd = settings();
    cmd.confirm_timeout = Some(1);
    cmd.temp_path = Some("/cmd".to_string());
    cmd.ssh_user = Some("cmd-user".to_string());
    let mut profile = settings();
    profile.confirm_timeout = Some(2);
    profile.temp_path = Some("/profile".to_string());
    let mut node = settings();
    node.confirm_timeout = Some(3);
    let mut root = settings();
    root.confirm_timeout = Some(4);

    let m = merge_settings(cmd, profile, node, root);
    // The most authoritative level that sets a scalar wins; the command
    // line is overridden by any declarative level.
    assert_eq!(m.confirm_timeout, Some(4));
    assert_eq!(m.temp_path, Some("/profile".to_string()));
    assert_eq!(m.ssh_user, Some("cmd-user".to_string()));
    assert_eq!(m.magic_rollback, None);
}

#[test]
fn merge_concatenates_ssh_opts_earliest_first() {
    let mut cmd = settings();
    cmd.ssh_opts = vec!["-C".to_string()];
    let mut profile = settings();
    profile.ssh_opts = vec!["-p".to_string(), "2222".to_string()];
    let mut node = settings();
    node.ssh_opts = vec!["-v".to_string()];
    let mut root = settings();
    root.ssh_opts = vec!["-A".to_string()];

    let m = merge_settings(cmd, profile, node, root);
    assert_eq!(
        m.ssh_opts,
        vec![
            "-C".to_string(),
            "-p".to_string(),
            "2222".to_string(),
            "-v".to_string(),
            "-A".to_string(),
        ]
    );
}

#[test]
fn resolver_orders_declared_prefix_first_then_the_rest() {
    let profiles = vec![
        ("b".to_string(), profile("/nix/store/b")),
        ("a".to_string(), profile("/nix/store/a")),
        ("c".to_string(), profile("/nix/store/c")),
    ];
    let order = vec!["a".to_string(), "c".to_string()];
    let names = profile_order(&order, &profiles);
    assert_eq!(names, vec!["a".to_string(), "c".to_string(), "b".to_string()]);
}

#[test]
fn resolve_expands_a_node_in_deployment_order() {
    let data = Data {
        generic_settings: settings(),
        nodes: vec![(
            "box".to_string(),
            node(
                Some("box.example"),
                vec![
                    ("b".to_string(), profile("/nix/store/b")),
                    ("a".to_string(), profile("/nix/store/a")),
                    ("c".to_string(), profile("/nix/store/c")),
                ],
                vec!["a", "c"],
            ),
        )],
    };
    let flake = parse_flake("repo#box").unwrap();
    let units = resolve(&flake, &data, &settings(), &None, false, &None).unwrap();
    let names: Vec<&str> = units.iter().map(|u| u.profile_name.as_str()).collect();
    assert_eq!(names, vec!["a", "c", "b"]);
    assert_eq!(units[0].closure, "/nix/store/a");
    assert_eq!(units[0].node_name, "box");
    assert_eq!(units[0].node_hostname, Some("box.example".to_string()));
}

#[test]
fn resolve_single_profile_and_errors() {
    let data = Data {
        generic_settings: settings(),
        nodes: vec![(
            "box".to_string(),
            node(Some("h"), vec![("sys".to_string(), profile("/nix/store/s"))], vec![]),
        )],
    };
    let one = resolve(
        &parse_flake("repo#box.sys").unwrap(),
        &data,
        &settings(),
        &None,
        false,
        &None,
    )
    .unwrap();
    assert_eq!(one.len(), 1);
    assert_eq!(one[0].profile_name, "sys");

    assert!(matches!(
        resolve(&parse_flake("repo#ghost").unwrap(), &data, &settings(), &None, false, &None),
        Err(ResolveError::NodeNotFound(n)) if n == "ghost"
    ));
    assert!(matches!(
        resolve(&parse_flake("repo#box.ghost").unwrap(), &data, &settings(), &None, false, &None),
        Err(ResolveError::ProfileNotFound(p)) if p == "ghost"
    ));
    assert!(matches!(
        resolve(&parse_flake("repo#.prof").unwrap(), &data, &settings(), &None, false, &None),
        Err(ResolveError::ProfileWithoutNode)
    ));
    assert!(matches!(
        resolve(&parse_flake("repo#@10.0.0.1").unwrap(), &data, &settings(), &None, false, &None),
        Err(ResolveError::IpOnFlakeRoot)
    ));
}

#[test]
fn resolve_order_list_with_missing_profile_fails() {
    let data = Data {
        generic_settings: settings(),
        nodes: vec![(
            "box".to_string(),
            node(Some("h"), vec![("a".to_string(), profile("/nix/store/a"))], vec!["a", "zz"]),
        )],
    };
    assert!(matches!(
        resolve(&parse_flake("repo#box").unwrap(), &data, &settings(), &None, false, &None),
        Err(ResolveError::ProfileNotFound(p)) if p == "zz"
    ));
}

fn unit(ssh_user: Option<&str>, user: Option<&str>, explicit: Option<&str>) -> DeployData {
    let mut s = settings();
    s.ssh_user = ssh_user.map(|u| u.to_string());
    s.user = user.map(|u| u.to_string());
    DeployData {
        node_name: "box".to_string(),
        profile_name: "system".to_string(),
        closure: "/nix/store/abc-x".to_string(),
        explicit_profile_path: explicit.map(|p| p.to_string()),
        node_hostname: Some("box.example".to_string()),
        host_override: None,
        merged_settings: s,
        debug_logs: false,
        log_dir: None,
    }
}

#[test]
fn defs_derives_users_paths_and_sudo() {
    let d = unit(Some("admin"), Some("root"), None).defs().unwrap();
    assert_eq!(d.ssh_user, "admin");
    assert_eq!(d.profile_user, "root");
    assert_eq!(d.profile_path, "/nix/var/nix/profiles/system");
    assert_eq!(d.sudo, Some("sudo -u root".to_string()));

    let d = unit(Some("admin"), Some("deploy"), None).defs().unwrap();
    assert_eq!(d.profile_path, "/nix/var/nix/profiles/per-user/deploy/system");

    // A user equal to the SSH user needs no sudo prefix.
    let d = unit(Some("admin"), Some("admin"), None).defs().unwrap();
    assert_eq!(d.sudo, None);

    // An explicit profile path wins.
    let d = unit(Some("admin"), Some("root"), Some("/blah/profiles/test")).defs().unwrap();
    assert_eq!(d.profile_path, "/blah/profiles/test");

    assert!(matches!(
        unit(None, None, None).defs(),
        Err(DeployDataDefsError::NoProfileUser(p, n)) if p == "system" && n == "box"
    ));
}

#[test]
fn hostname_prefers_the_override() {
    let mut u = unit(Some("admin"), Some("root"), None);
    assert_eq!(u.hostname().unwrap(), "box.example");
    u.host_override = Some("10.0.0.9".to_string());
    assert_eq!(u.hostname().unwrap(), "10.0.0.9");
    u.host_override = None;
    u.node_hostname = None;
    assert!(matches!(u.hostname(), Err(DeployDataDefsError::NoHost(_, _))));
}
