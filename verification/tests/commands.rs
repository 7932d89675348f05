//! The exact remote command strings.

use deploy_rs::compat;
use deploy_rs::deploy::ActivateCommandData;
use deploy_rs::deploy::RevokeCommandData;
use deploy_rs::deploy::WaitCommandData;
use deploy_rs::deploy::build_activate_command;
use deploy_rs::deploy::build_confirm_command;
use deploy_rs::deploy::build_revoke_command;
use deploy_rs::deploy::build_ssh_addr;
use deploy_rs::deploy::build_wait_command;

#[test]
fn test_activation_command_builder() {
    let sudo = Some("sudo -u test".to_string());
    let profile_path = "/blah/profiles/test";
    let closure = "/nix/store/blah/etc";
    let auto_rollback = true;
    let dry_activate = false;
    let temp_path = "/tmp";
    let confirm_timeout = 30;
    let magic_rollback = true;
    let debug_logs = true;
    let log_dir = Some("/tmp/something.txt");

    assert_eq!(
        build_activate_command(&ActivateCommandData {
            sudo: &sudo,
            profile_path,
            closure,
            auto_rollback,
            temp_path,
            confirm_timeout,
            magic_rollback,
            debug_logs,
            log_dir,
            dry_activate,
            boot: false,
            test: false,
        }),
        "sudo -u test /nix/store/blah/etc/activate-rs --debug-logs --log-dir /tmp/something.txt activate '/nix/store/blah/etc' '/blah/profiles/test' --temp-path '/tmp' --confirm-timeout 30 --magic-rollback --auto-rollback"
            .to_string(),
    );
}

#[test]
fn test_wait_command_builder() {
    let sudo = Some("sudo -u test".to_string());
    let closure = "/nix/store/blah/etc";
    let temp_path = "/tmp";
    let debug_logs = true;
    let log_dir = Some("/tmp/something.txt");

    assert_eq!(
        build_wait_command(&WaitCommandData {
            sudo: &sudo,
            closure,
            temp_path,
            debug_logs,
            log_dir
        }),
        "sudo -u test /nix/store/blah/etc/activate-rs --debug-logs --log-dir /tmp/something.txt wait '/nix/store/blah/etc' --temp-path '/tmp'"
            .to_string(),
    );
}

#[test]
fn test_revoke_command_builder() {
    let sudo = Some("sudo -u test".to_string());
    let closure = "/nix/store/blah/etc";
    let profile_path = "/nix/var/nix/per-user/user/profile";
    let debug_logs = true;
    let log_dir = Some("/tmp/something.txt");

    assert_eq!(
        build_revoke_command(&RevokeCommandData {
            sudo: &sudo,
            closure,
            profile_path,
            debug_logs,
            log_dir
        }),
        "sudo -u test /nix/store/blah/etc/activate-rs --debug-logs --log-dir /tmp/something.txt revoke '/nix/var/nix/per-user/user/profile'"
            .to_string(),
    );
}

#[test]
fn deploy_test_activation_command_builder() {
    let sudo = Some("sudo -u test".to_string());
    let profile_path = "/blah/profiles/test";
    let closure = "/nix/store/blah/etc";
    let auto_rollback = true;
    let temp_path = "/tmp";
    let confirm_timeout = 30;
    let magic_rollback = true;
    let debug_logs = true;
    let log_dir = Some("/tmp/something.txt");

    assert_eq!(
        compat::build_activate_command(
            &sudo,
            profile_path,
            closure,
            auto_rollback,
            temp_path,
            confirm_timeout,
            magic_rollback,
            debug_logs,
            log_dir
        ),
        "sudo -u test /nix/store/blah/etc/activate-rs '/blah/profiles/test' '/nix/store/blah/etc' --temp-path /tmp --confirm-timeout 30 --magic-rollback --auto-rollback --debug-logs --log-dir /tmp/something.txt"
            .to_string(),
    );
}

#[test]
fn activate_command_without_sudo_or_log() {
    let cmd = build_activate_command(&ActivateCommandData {
        sudo: &None,
        profile_path: "/p",
        closure: "/nix/store/x",
        auto_rollback: false,
        temp_path: "/tmp",
        confirm_timeout: 240,
        magic_rollback: false,
        debug_logs: false,
        log_dir: None,
        dry_activate: true,
        boot: false,
        test: false,
    });
    assert_eq!(
        cmd,
        "/nix/store/x/activate-rs activate '/nix/store/x' '/p' --temp-path '/tmp' --confirm-timeout 240 --dry-activate"
    );
}

#[test]
fn activate_command_boot_and_test_flags() {
    let cmd = build_activate_command(&ActivateCommandData {
        sudo: &None,
        profile_path: "/p",
        closure: "/c",
        auto_rollback: true,
        temp_path: "/t",
        confirm_timeout: 5,
        magic_rollback: true,
        debug_logs: false,
        log_dir: None,
        dry_activate: false,
        boot: true,
        test: true,
    });
    assert_eq!(
        cmd,
        "/c/activate-rs activate '/c' '/p' --temp-path '/t' --confirm-timeout 5 --magic-rollback --auto-rollback --boot --test"
    );
}

#[test]
fn confirm_command_applies_the_sudo_prefix() {
    assert_eq!(
        build_confirm_command(&None, "/tmp/deploy-rs-canary-abc"),
        "rm /tmp/deploy-rs-canary-abc"
    );
    assert_eq!(
        build_confirm_command(&Some("sudo -u admin".to_string()), "/tmp/deploy-rs-canary-abc"),
        "sudo -u admin rm /tmp/deploy-rs-canary-abc"
    );
}

#[test]
fn ssh_addr_joins_user_and_host() {
    assert_eq!(build_ssh_addr("admin", "example.com"), "admin@example.com");
}
