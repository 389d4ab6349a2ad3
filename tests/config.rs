use snow::config::{
    config_read_failure, home_command, home_target, merge_deployment, needs_confirmation,
    rebuild_configuration_command, rebuild_host_command, snow_config_query, Deployment,
    RebuildMode, SnowConfig, VmConfig, VmConfigResolved,
};
use snow::error::SnowError;
use snow::provision::{
    accept_key_command, copy_image_command, find_public_key, image_build_command, import_command,
    keyscan_command, login_command, public_key_path, reboot_command, resize_command,
    split_lines, start_command, stored_image_path, vm_settings,
};
use snow::command::RunMode;
use snow::number::decimal_text;

fn vm() -> VmConfig {
    VmConfig {
        id: Some(105),
        ip: Some("10.0.0.5".to_string()),
        proxmox_host: Some("pve".to_string()),
        proxmox_image_store: Some("/mnt/images".to_string()),
        resize_disk_to: Some("32G".to_string()),
    }
}

fn settings() -> SnowConfig {
    SnowConfig {
        tags: vec![],
        use_remote_sudo: false,
        ask_sudo_password: None,
        build_on_target: false,
        use_substitutes: true,
        target_host: Some("web.lan".to_string()),
        build_host: None,
        vm: None,
    }
}

fn config_message(e: SnowError) -> String {
    match e {
        SnowError::SnowConfig(m) => m,
        _ => panic!("expected a configuration failure"),
    }
}

#[test]
fn vm_settings_need_every_value() {
    let ok = VmConfigResolved::try_from(vm()).ok().unwrap();
    assert_eq!(ok.id, 105);
    let mut v = vm();
    v.id = None;
    assert_eq!(config_message(VmConfigResolved::try_from(v).err().unwrap()), "missing id");
    let mut v = vm();
    v.ip = None;
    assert_eq!(config_message(VmConfigResolved::try_from(v).err().unwrap()), "missing ip");
    let mut v = vm();
    v.resize_disk_to = None;
    assert_eq!(
        config_message(VmConfigResolved::try_from(v).err().unwrap()),
        "missing resize_disk_to"
    );
    assert_eq!(
        config_message(vm_settings("vm1", None).err().unwrap()),
        "VM settings are not configured for host \"vm1\""
    );
}

#[test]
fn rebuild_modes_are_named() {
    assert_eq!(RebuildMode::Switch.name(), "switch");
    assert_eq!(RebuildMode::Test.name(), "test");
    assert_eq!(RebuildMode::Boot.name(), "boot");
    assert_eq!(RebuildMode::Build.name(), "build");
}

#[test]
fn rebuild_of_this_host_is_elevated() {
    let inv = rebuild_host_command(RebuildMode::Switch, "laptop", false);
    assert_eq!(
        inv.command.command_line(),
        "sudo nixos-rebuild switch --flake .?submodules=1#laptop"
    );
    let inv = rebuild_host_command(RebuildMode::Boot, "laptop", true);
    assert_eq!(
        inv.command.command_line(),
        "sudo nixos-rebuild boot --flake .?submodules=1#laptop --show-trace"
    );
    assert!(matches!(inv.mode, RunMode::Verbose));
}

#[test]
fn deployment_merges_command_line_over_settings() {
    let d = merge_deployment(&settings(), &None, &Some("builder".to_string()), false, true);
    assert_eq!(d.target_host.as_deref(), Some("web.lan"));
    assert_eq!(d.build_host.as_deref(), Some("builder"));
    assert!(d.use_remote_sudo);
    let inv = rebuild_configuration_command(RebuildMode::Switch, "web", &d, false).ok().unwrap();
    assert_eq!(
        inv.command.command_line(),
        "nixos-rebuild switch --flake .?submodules=1#web --target-host web.lan --build-host builder --sudo"
    );
}

#[test]
fn build_on_target_needs_a_target() {
    let d = Deployment {
        use_remote_sudo: false,
        build_on_target: true,
        target_host: None,
        build_host: None,
    };
    let e = rebuild_configuration_command(RebuildMode::Boot, "web", &d, false).err().unwrap();
    assert_eq!(
        config_message(e),
        "\"build on target\" is specified, but no target host is given"
    );
    let d = Deployment { target_host: Some("t".to_string()), ..d };
    let inv = rebuild_configuration_command(RebuildMode::Boot, "web", &d, false).ok().unwrap();
    assert_eq!(
        inv.command.command_line(),
        "nixos-rebuild boot --flake .?submodules=1#web --target-host t --build-host t"
    );
}

#[test]
fn confirmation_of_foreign_deployments() {
    assert!(!needs_confirmation("web", "web", &None, &None));
    assert!(needs_confirmation("web", "laptop", &None, &None));
    assert!(needs_confirmation("web", "web", &Some("a".to_string()), &Some("b".to_string())));
    assert!(!needs_confirmation("web", "laptop", &Some("a".to_string()), &Some("a".to_string())));
}

#[test]
fn home_target_and_command() {
    assert_eq!(home_target(&None, "me", "box").ok().unwrap(), "me@box");
    assert_eq!(home_target(&Some("x".to_string()), "", "").ok().unwrap(), "x");
    match home_target(&None, "", "box").err().unwrap() {
        SnowError::Env(m) => assert_eq!(m, "failed to read username/hostname"),
        _ => panic!("expected an environment failure"),
    }
    assert_eq!(
        home_command("me@box", false).command.command_line(),
        "home-manager switch --flake .?submodules=1#me@box"
    );
}

#[test]
fn config_query_and_failure() {
    assert_eq!(
        snow_config_query("web").command.command_line(),
        "nix eval .?submodules=1#nixosConfigurations.web.config.snow --json"
    );
    let e = config_read_failure("web", &SnowError::Nix("boom".to_string()));
    assert_eq!(
        e.message(),
        "Nix command failed with error: could not read snow config for host web: Nix command failed with error: boom"
    );
}

#[test]
fn provisioning_commands() {
    let v = VmConfigResolved::try_from(vm()).ok().unwrap();
    assert_eq!(
        image_build_command("vm1").command.command_line(),
        "nix build .?submodules=1#nixosConfigurations.vm1.config.formats.proxmox"
    );
    assert_eq!(
        stored_image_path(&v),
        "/mnt/images/vzdump-qemu-105-2024_06_01-10_00_00.vma.zst"
    );
    assert_eq!(
        copy_image_command("vm1", &v).command.command_line(),
        "cp result/vzdump-qemu-vm1.vma.zst /mnt/images/vzdump-qemu-105-2024_06_01-10_00_00.vma.zst"
    );
    assert_eq!(
        import_command(&v).command.command_line(),
        "ssh pve qmrestore /mnt/pve/proxmox_images/template/iso/vzdump-qemu-105-2024_06_01-10_00_00.vma.zst 105 --unique true"
    );
    assert_eq!(resize_command(&v).command.command_line(), "ssh pve qm disk resize 105 virtio0 32G");
    assert_eq!(start_command(&v).command.command_line(), "ssh pve qm start 105");
    assert_eq!(reboot_command(&v).command.command_line(), "ssh pve qm reboot 105");
    assert_eq!(keyscan_command(&v).command.command_line(), "ssh-keyscan 10.0.0.5");
    assert_eq!(
        accept_key_command("vm1.lan").command.command_line(),
        "ssh -o StrictHostKeyChecking=accept-new vm1.lan sudo resize2fs /dev/vda2"
    );
    assert_eq!(login_command("vm1.lan").command.command_line(), "ssh vm1.lan");
    assert_eq!(public_key_path("vm1"), "vms/keys/ssh_host_vm1_ed25519_key.pub");
}

#[test]
fn public_key_is_found_in_scan() {
    let scan = "# 10.0.0.5:22 SSH-2.0\n10.0.0.5 ssh-rsa AAAA\r\n10.0.0.5 ssh-ed25519 KEY\n";
    assert_eq!(
        find_public_key(scan, "10.0.0.5", "vm1"),
        Some("ssh-ed25519 KEY vm1".to_string())
    );
    assert_eq!(find_public_key("10.0.0.5 ssh-rsa X", "10.0.0.5", "vm1"), None);
}

#[test]
fn lines_split_like_std() {
    for s in ["", "a", "a\n", "a\r\nb", "\n\nx\n", "x\r", "a\n\r\n"] {
        let expected: Vec<String> = s.lines().map(|l| l.to_string()).collect();
        assert_eq!(split_lines(s), expected, "{:?}", s);
    }
}

#[test]
fn numbers_in_decimal() {
    assert_eq!(decimal_text(0), "0");
    assert_eq!(decimal_text(105), "105");
    assert_eq!(decimal_text(u64::MAX), "18446744073709551615");
}
