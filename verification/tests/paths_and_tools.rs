//! Sentinel paths, generation-list parsing, the host-tool argument
//! lists, SSH multiplexing values, and the remaining derivations.

use deploy_rs::activation::FsEventKind;
use deploy_rs::activation::GetProfilePathError;
use deploy_rs::activation::activation_script_path;
use deploy_rs::activation::confirm_event_matters;
use deploy_rs::activation::get_profile_path;
use deploy_rs::activation::last_generation_id;
use deploy_rs::activation::nix_env_delete_generation_args;
use deploy_rs::activation::nix_env_list_generations_args;
use deploy_rs::activation::nix_env_rollback_args;
use deploy_rs::activation::sentinel_path;
use deploy_rs::activation::wait_event_matches;
use deploy_rs::cli::FlakeSearch;
use deploy_rs::cli::find_flake;
use deploy_rs::cli::find_flake_step;
use deploy_rs::cli::targets_of;
use deploy_rs::flake::check_command_args;
use deploy_rs::flake::eval_command_args;
use deploy_rs::make_lock_path;
use deploy_rs::prompt::PromptStep;
use deploy_rs::prompt::interpret_first_answer;
use deploy_rs::prompt::interpret_second_answer;
use deploy_rs::push::choose_deriver;
use deploy_rs::push::copy_args;
use deploy_rs::push::deriver_with_output;
use deploy_rs::push::normalize_deriver;
use deploy_rs::push::sign_args;
use deploy_rs::push::trim;
use deploy_rs::ssh::SshControlMaster;
use deploy_rs::ssh::runtime_dir_from;

#[test]
fn sentinel_path_strips_prefix_and_name() {
    assert_eq!(
        make_lock_path("/tmp", "/nix/store/blah-etc"),
        "/tmp/deploy-rs-canary-blah".to_string()
    );
    assert_eq!(
        make_lock_path("/tmp", "/nix/store/abc123xyz"),
        "/tmp/deploy-rs-canary-abc123xyz".to_string()
    );
}

#[test]
fn controller_and_agent_agree_on_the_sentinel() {
    // The two sides derive the path independently; both must produce the
    // same bytes for the same inputs.
    for (temp, closure) in [
        ("/tmp", "/nix/store/1q2w3e-system"),
        ("/var/tmp", "/nix/store/zzz-a-b-c"),
        ("/t", "/nix/store/plainhash"),
    ] {
        assert_eq!(make_lock_path(temp, closure), sentinel_path(temp, closure));
    }
}

#[test]
fn last_generation_id_takes_the_last_line_token() {
    assert_eq!(
        last_generation_id("  10   2024-01-01\n  11   2024-01-02   (current)\n"),
        Some("11".to_string())
    );
    assert_eq!(last_generation_id("5 x"), Some("5".to_string()));
    assert_eq!(last_generation_id(""), None);
    assert_eq!(last_generation_id("   \n"), None);
}

#[test]
fn nix_env_argument_lists() {
    let strs = |v: &[&str]| v.iter().map(|s| s.to_string()).collect::<Vec<String>>();
    assert_eq!(nix_env_rollback_args("/p"), strs(&["-p", "/p", "--rollback"]));
    assert_eq!(nix_env_list_generations_args("/p"), strs(&["-p", "/p", "--list-generations"]));
    assert_eq!(
        nix_env_delete_generation_args("/p", "11"),
        strs(&["-p", "/p", "--delete-generations", "11"])
    );
    assert_eq!(activation_script_path("/p"), "/p/deploy-rs-activate");
}

#[test]
fn watcher_filters_are_exact() {
    assert!(confirm_event_matters(&FsEventKind::RemoveFile));
    assert!(!confirm_event_matters(&FsEventKind::CreateFile));
    assert!(!confirm_event_matters(&FsEventKind::Other));

    let sentinel = "/tmp/deploy-rs-canary-abc";
    assert!(wait_event_matches(
        &FsEventKind::CreateFile,
        &vec![sentinel.to_string()],
        sentinel
    ));
    assert!(!wait_event_matches(
        &FsEventKind::CreateFile,
        &vec!["/tmp/other".to_string()],
        sentinel
    ));
    assert!(!wait_event_matches(
        &FsEventKind::CreateFile,
        &vec![sentinel.to_string(), sentinel.to_string()],
        sentinel
    ));
    assert!(!wait_event_matches(&FsEventKind::RemoveFile, &vec![sentinel.to_string()], sentinel));
}

#[test]
fn profile_path_derivation_covers_every_case() {
    let explicit = get_profile_path(
        Some("/blah/profiles/test".to_string()),
        None,
        None,
        "/nix/var/nix",
        None,
        None,
        false,
    );
    assert_eq!(explicit.unwrap(), "/blah/profiles/test");

    let system = get_profile_path(
        None,
        Some("root".to_string()),
        Some("system".to_string()),
        "/nix/var/nix",
        None,
        None,
        false,
    );
    assert_eq!(system.unwrap(), "/nix/var/nix/profiles/system");

    let root_other = get_profile_path(
        None,
        Some("root".to_string()),
        Some("web".to_string()),
        "/nix/var/nix",
        None,
        None,
        false,
    );
    assert_eq!(root_other.unwrap(), "/nix/var/nix/profiles/per-user/root/web");

    let old_tree = get_profile_path(
        None,
        Some("deploy".to_string()),
        Some("web".to_string()),
        "/nix/var/nix",
        None,
        Some("/home/deploy".to_string()),
        true,
    );
    assert_eq!(old_tree.unwrap(), "/nix/var/nix/profiles/per-user/deploy/web");

    let xdg = get_profile_path(
        None,
        Some("deploy".to_string()),
        Some("web".to_string()),
        "/nix/var/nix",
        Some("/home/deploy/.state".to_string()),
        None,
        false,
    );
    assert_eq!(xdg.unwrap(), "/home/deploy/.state/nix/profiles/web");

    let home = get_profile_path(
        None,
        Some("deploy".to_string()),
        Some("web".to_string()),
        "/nix/var/nix",
        None,
        Some("/home/deploy".to_string()),
        false,
    );
    assert_eq!(home.unwrap(), "/home/deploy/.local/state/nix/profiles/web");

    let lost = get_profile_path(
        None,
        Some("deploy".to_string()),
        Some("web".to_string()),
        "/nix/var/nix",
        None,
        None,
        false,
    );
    assert!(matches!(lost, Err(GetProfilePathError::NoUserHome(u)) if u == "deploy"));
}

#[test]
fn ssh_control_master_values() {
    let opts = vec!["-C".to_string()];
    let m = SshControlMaster::new("box.example", Some("admin"), &opts, "/run/user/1000/deploy-rs");
    assert_eq!(m.ssh_addr(), "admin@box.example");
    assert_eq!(m.control_path(), "/run/user/1000/deploy-rs/deploy-rs-ssh-box.example");
    assert_eq!(
        m.control_opts(),
        vec![
            "-o".to_string(),
            "ControlPath=/run/user/1000/deploy-rs/deploy-rs-ssh-box.example".to_string()
        ]
    );
    let start = m.start_args();
    assert_eq!(start[0], "-o");
    assert_eq!(start[1], "ControlMaster=yes");
    assert_eq!(*start.last().unwrap(), "admin@box.example");
    assert!(start.contains(&"-C".to_string()));
    let stop = m.stop_args();
    assert_eq!(
        stop,
        vec![
            "-o".to_string(),
            "ControlPath=/run/user/1000/deploy-rs/deploy-rs-ssh-box.example".to_string(),
            "-O".to_string(),
            "exit".to_string(),
            "admin@box.example".to_string(),
        ]
    );

    let bare = SshControlMaster::new("box", None, &Vec::new(), "/tmp");
    assert_eq!(bare.ssh_addr(), "box");
}

#[test]
fn runtime_dir_prefers_the_runtime_environment() {
    assert_eq!(
        runtime_dir_from(Some("/run/user/1".to_string()), Some("/t".to_string()), None),
        "/run/user/1/deploy-rs"
    );
    assert_eq!(runtime_dir_from(None, Some("/t".to_string()), None), "/t/deploy-rs");
    assert_eq!(
        runtime_dir_from(None, None, Some("/home/u".to_string())),
        "/home/u/.cache/deploy-rs"
    );
    assert_eq!(runtime_dir_from(None, None, None), "/tmp/deploy-rs");
}

#[test]
fn deriver_normalization_and_choice() {
    assert_eq!(normalize_deriver("/nix/store/abc.drv"), "/nix/store/abc.drv");
    assert_eq!(normalize_deriver("abc.drv"), "/nix/store/abc.drv");
    assert_eq!(deriver_with_output("/nix/store/abc.drv"), "/nix/store/abc.drv^out");
    assert_eq!(trim("  /nix/store/abc.drv\n"), "/nix/store/abc.drv");
    // A store new enough to echo the derivation path back builds with
    // the explicit output; an older one keeps the plain deriver.
    assert_eq!(
        choose_deriver(
            "/nix/store/abc.drv\n",
            "/nix/store/abc.drv",
            "/nix/store/abc.drv^out".to_string()
        ),
        "/nix/store/abc.drv^out"
    );
    assert_eq!(
        choose_deriver("/nix/store/other\n", "/nix/store/abc.drv", "x".to_string()),
        "/nix/store/abc.drv"
    );
}

#[test]
fn store_command_argument_lists() {
    assert_eq!(
        copy_args(false, false, "admin@box", "/nix/store/x"),
        vec![
            "copy".to_string(),
            "--substitute-on-destination".to_string(),
            "--no-check-sigs".to_string(),
            "--to".to_string(),
            "ssh://admin@box".to_string(),
            "/nix/store/x".to_string(),
        ]
    );
    assert_eq!(
        copy_args(true, true, "admin@box", "/nix/store/x"),
        vec![
            "copy".to_string(),
            "--to".to_string(),
            "ssh://admin@box".to_string(),
            "/nix/store/x".to_string(),
        ]
    );
    let strs = |v: &[&str]| v.iter().map(|s| s.to_string()).collect::<Vec<String>>();
    assert_eq!(
        sign_args("/etc/nix/signing.key", "/nix/store/x"),
        strs(&["sign-paths", "-r", "-k", "/etc/nix/signing.key", "/nix/store/x"])
    );
    assert_eq!(check_command_args(true, "./repo"), strs(&["flake", "check", "./repo"]));
    assert_eq!(
        eval_command_args(true, "./repo"),
        strs(&["eval", "--json", "./repo#deploy"])
    );
    assert_eq!(eval_command_args(false, "./repo").len(), 6);
}

#[test]
fn prompt_decisions_follow_the_answer() {
    assert!(matches!(interpret_first_answer("yes"), PromptStep::Proceed));
    assert!(matches!(interpret_first_answer("y"), PromptStep::Proceed));
    assert!(matches!(interpret_first_answer("no"), PromptStep::Cancel { note_unclear: false }));
    assert!(matches!(
        interpret_first_answer("hmm dunno"),
        PromptStep::Cancel { note_unclear: true }
    ));
    assert!(interpret_second_answer("yes"));
    assert!(!interpret_second_answer("no"));
}

#[test]
fn target_list_defaults_to_the_current_directory() {
    assert_eq!(targets_of(None, None), vec![".".to_string()]);
    assert_eq!(targets_of(Some("./a".to_string()), None), vec!["./a".to_string()]);
    assert_eq!(
        targets_of(Some("./a".to_string()), Some(vec!["./b".to_string(), "./c".to_string()])),
        vec!["./b".to_string(), "./c".to_string()]
    );
}

#[test]
fn flake_search_climbs_to_the_root() {
    let s = find_flake("/a/b");
    let (cand, dir) = match s {
        FlakeSearch::Probe { candidate, dir } => (candidate, dir),
        _ => panic!("the search must start with a probe"),
    };
    assert_eq!(cand, "/a/b/flake.nix");
    assert_eq!(dir, "/a/b");

    let s = find_flake_step(&dir, cand, false);
    let (cand, dir) = match s {
        FlakeSearch::Probe { candidate, dir } => (candidate, dir),
        _ => panic!("one level up remains"),
    };
    assert_eq!(cand, "/a/flake.nix");
    assert_eq!(dir, "/a");

    let s = find_flake_step(&dir, cand, false);
    let (cand, dir) = match s {
        FlakeSearch::Probe { candidate, dir } => (candidate, dir),
        _ => panic!("the root remains"),
    };
    assert_eq!(cand, "/flake.nix");
    assert_eq!(dir, "/");

    assert!(matches!(find_flake_step(&dir, cand, false), FlakeSearch::Done(None)));

    let s = find_flake("/x");
    let (cand, dir) = match s {
        FlakeSearch::Probe { candidate, dir } => (candidate, dir),
        _ => panic!("the search must start with a probe"),
    };
    assert!(matches!(
        find_flake_step(&dir, cand, true),
        FlakeSearch::Done(Some(p)) if p == "/x/flake.nix"
    ));
}
