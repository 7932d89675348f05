//! The target-descriptor grammar: parsing, rendering, and the round trip.

use deploy_rs::target::DeployFlake;
use deploy_rs::target::ParseFlakeError;
use deploy_rs::target::parse_flake;
use deploy_rs::target::render_target;

#[test]
fn test_parse_flake() {
    assert_eq!(
        parse_flake("../deploy/examples/system").unwrap(),
        DeployFlake {
            repo: "../deploy/examples/system".to_string(),
            node: None,
            profile: None,
            host: None,
        }
    );

    assert_eq!(
        parse_flake("../deploy/examples/system#").unwrap(),
        DeployFlake {
            repo: "../deploy/examples/system".to_string(),
            node: None,
            profile: None,
            host: None,
        }
    );

    assert_eq!(
        parse_flake("../deploy/examples/system#computer.\"something.nix\"").unwrap(),
        DeployFlake {
            repo: "../deploy/examples/system".to_string(),
            node: Some("computer".to_string()),
            profile: Some("something.nix".to_string()),
            host: None,
        }
    );

    assert_eq!(
        parse_flake("../deploy/examples/system#\"example.com\".system").unwrap(),
        DeployFlake {
            repo: "../deploy/examples/system".to_string(),
            node: Some("example.com".to_string()),
            profile: Some("system".to_string()),
            host: None,
        }
    );

    assert_eq!(
        parse_flake("../deploy/examples/system#example").unwrap(),
        DeployFlake {
            repo: "../deploy/examples/system".to_string(),
            node: Some("example".to_string()),
            profile: None,
            host: None,
        }
    );

    assert_eq!(
        parse_flake("../deploy/examples/system#example.system").unwrap(),
        DeployFlake {
            repo: "../deploy/examples/system".to_string(),
            node: Some("example".to_string()),
            profile: Some("system".to_string()),
            host: None,
        }
    );

    assert_eq!(
        parse_flake("../deploy/examples/system").unwrap(),
        DeployFlake {
            repo: "../deploy/examples/system".to_string(),
            node: None,
            profile: None,
            host: None,
        }
    );
}

#[test]
fn parse_rejects_paths_deeper_than_node_profile() {
    assert!(matches!(parse_flake("repo#a.b.c"), Err(ParseFlakeError::PathTooLong)));
}

#[test]
fn parse_rejects_stray_tokens() {
    assert!(matches!(parse_flake("repo#a!b"), Err(ParseFlakeError::Unrecognized)));
    assert!(matches!(parse_flake("repo#\"unclosed"), Err(ParseFlakeError::Unrecognized)));
}

#[test]
fn parse_splits_the_host_override_off() {
    assert_eq!(
        parse_flake("repo#node.profile@host.example").unwrap(),
        DeployFlake {
            repo: "repo".to_string(),
            node: Some("node".to_string()),
            profile: Some("profile".to_string()),
            host: Some("host.example".to_string()),
        }
    );
}

#[test]
fn render_parse_round_trip_on_concrete_targets() {
    let targets = vec![
        DeployFlake { repo: "r".to_string(), node: None, profile: None, host: None },
        DeployFlake {
            repo: "./x".to_string(),
            node: Some("node-a".to_string()),
            profile: None,
            host: None,
        },
        DeployFlake {
            repo: "./x".to_string(),
            node: Some("node-a".to_string()),
            profile: Some("system".to_string()),
            host: None,
        },
        DeployFlake {
            repo: "./x".to_string(),
            node: Some("example.com".to_string()),
            profile: Some("something.nix".to_string()),
            host: Some("10.0.0.1".to_string()),
        },
    ];
    for t in targets {
        let rendered = render_target(&t);
        assert_eq!(parse_flake(&rendered).unwrap(), t);
    }
}

#[test]
fn render_quotes_what_is_not_bare() {
    let t = DeployFlake {
        repo: "./x".to_string(),
        node: Some("example.com".to_string()),
        profile: Some("system".to_string()),
        host: None,
    };
    assert_eq!(render_target(&t), "./x#\"example.com\".system");
}
