use snow::command::{effective_mode, Invocation, RunMode, SnowCommand};
use snow::commands::{
    agenix_edit, agenix_rekey, agenix_update_masterkeys, bump_python, clean, develop, eval,
    exist_untracked, exist_untracked_secrets, fmt, git_add, git_all, git_commit, git_init,
    git_pull, get_interactive_args, read_from_repl, referrers_closure, repl, shell, update,
};
use snow::wrap;

fn lines(steps: &[Invocation]) -> Vec<String> {
    steps.iter().map(|s| s.command.command_line()).collect()
}

#[test]
fn test_agenix_update_masterkeys() {
    let inv = agenix_update_masterkeys();
    assert_eq!(
        inv.command.command_line(),
        "agenix --extra-flake-params ?submodules=1 update-masterkeys"
    );
    assert!(matches!(inv.mode, RunMode::Interactive));
}

#[test]
fn test_agenix_edit() {
    let inv = agenix_edit("help-im-not-real");
    assert_eq!(
        inv.command.command_line(),
        "agenix --extra-flake-params ?submodules=1 edit help-im-not-real"
    );
}

#[test]
fn test_eval() {
    let inv = eval("nixosConfigurations.hostname.config", true, false);
    assert_eq!(
        inv.command.command_line(),
        "nix eval .?submodules=1#nixosConfigurations.hostname.config --json"
    );
    assert!(matches!(inv.mode, RunMode::WithReturn));
}

#[test]
fn test_fmt() {
    let inv = fmt();
    assert_eq!(inv.command.command_line(), "nix fmt");
    match inv.mode {
        RunMode::Progress(label) => assert_eq!(label, "fmt"),
        _ => panic!("fmt runs behind a progress display"),
    }
}

#[test]
fn elevated_command_runs_through_sudo() {
    let cmd = SnowCommand::new("nixos-rebuild".to_string(), vec!["switch", "--flake", ".#host"], true);
    let (program, args) = cmd.get_final_args();
    assert_eq!(program, "sudo");
    assert_eq!(args, vec!["nixos-rebuild", "switch", "--flake", ".#host"]);
    assert_eq!(cmd.command_line(), "sudo nixos-rebuild switch --flake .#host");
}

#[test]
fn plain_command_runs_unchanged() {
    let cmd = SnowCommand::new_git("git".to_string(), vec!["status", "--porcelain=v1"]);
    let (program, args) = cmd.get_final_args();
    assert_eq!(program, "git");
    assert_eq!(args, vec!["status", "--porcelain=v1"]);
}

#[test]
fn command_without_arguments_shows_trailing_space() {
    let cmd = SnowCommand::new("ls".to_string(), vec![], false);
    assert_eq!(cmd.command_line(), "ls ");
    let (program, args) = cmd.get_final_args();
    assert_eq!(program, "ls");
    assert!(args.is_empty());
}

#[test]
fn append_arg_goes_last() {
    let mut cmd = SnowCommand::new_nix("nix".to_string(), vec!["build"], false);
    cmd.append_arg("--show-trace");
    assert_eq!(cmd.get_final_args().1, vec!["build", "--show-trace"]);
}

#[test]
fn debug_output_degrades_inspecting_modes() {
    assert!(matches!(effective_mode(RunMode::Silent, true), RunMode::Verbose));
    assert!(matches!(effective_mode(RunMode::Interactive, true), RunMode::Verbose));
    assert!(matches!(effective_mode(RunMode::ProgressImport, true), RunMode::Verbose));
    assert!(matches!(effective_mode(RunMode::Progress("x".to_string()), true), RunMode::Verbose));
    assert!(matches!(effective_mode(RunMode::WithReturn, true), RunMode::WithReturn));
    assert!(matches!(effective_mode(RunMode::Silent, false), RunMode::Silent));
}

#[test]
fn wrap_with_and_without_submodules() {
    assert_eq!(wrap("host", true), ".?submodules=1#host");
    assert_eq!(wrap("host", false), ".#host");
}

#[test]
fn git_steps_in_order() {
    assert_eq!(
        lines(&git_pull(false)),
        vec!["git submodule foreach git pull", "git pull"]
    );
    assert_eq!(lines(&git_pull(true)), vec!["git submodule foreach git pull"]);
    assert_eq!(
        lines(&git_add(false)),
        vec!["git submodule foreach git add .", "git add ."]
    );
    assert_eq!(
        lines(&git_init(false)),
        vec!["git submodule init", "git submodule update"]
    );
}

#[test]
fn git_commit_with_and_without_message() {
    assert_eq!(
        lines(&git_commit(&Some("msg".to_string()), false)),
        vec![
            "git submodule foreach git add .",
            "git add .",
            "git submodule foreach git commit -m msg",
            "git submodule foreach git add .",
            "git add .",
            "git commit -m msg",
        ]
    );
    assert_eq!(
        lines(&git_commit(&None, true)),
        vec![
            "git submodule foreach git add .",
            "git submodule foreach git commit --amend -C HEAD",
        ]
    );
}

#[test]
fn git_all_commits_then_pushes() {
    let all = lines(&git_all(&None, true));
    assert_eq!(
        all,
        vec![
            "git submodule foreach git add .",
            "git submodule foreach git commit --amend -C HEAD",
            "git submodule foreach git push --force-with-lease",
        ]
    );
}

#[test]
fn untracked_files_are_detected() {
    assert!(exist_untracked_secrets("?? secrets/new.age\n"));
    assert!(!exist_untracked_secrets(" M flake.nix\n"));
    assert_eq!(exist_untracked("?? a", None), Some(true));
    assert_eq!(exist_untracked("", None), None);
    assert_eq!(exist_untracked("", Some("?? b")), Some(true));
    assert_eq!(exist_untracked("", Some("")), Some(false));
}

#[test]
fn agenix_rekey_stages_untracked_first() {
    assert_eq!(
        lines(&agenix_rekey(true, false, true)),
        vec![
            "git submodule foreach git add .",
            "git add .",
            "agenix --extra-flake-params ?submodules=1 rekey --force",
        ]
    );
    assert_eq!(
        lines(&agenix_rekey(false, true, false)),
        vec!["agenix --extra-flake-params ?submodules=1 rekey --dummy"]
    );
}

#[test]
fn bump_python_drops_dots() {
    assert_eq!(
        bump_python("3.12").command.command_line(),
        "find . -type f -exec sed -i s/python3[1-9][1-9]\\+/python312/g {} +"
    );
}

#[test]
fn other_commands() {
    assert_eq!(
        repl().command.command_line(),
        "nix repl --expr builtins.getFlake (toString ./.)"
    );
    assert_eq!(
        read_from_repl("a.b", vec!["--raw"]).command.command_line(),
        "nix eval .?submodules=1#a.b --raw"
    );
    assert_eq!(
        lines(&clean()),
        vec!["sudo nix-collect-garbage -d", "nix-collect-garbage -d"]
    );
    assert_eq!(update(&None).command.command_line(), "nix flake update");
    assert_eq!(
        update(&Some("nixpkgs".to_string())).command.command_line(),
        "nix flake update nixpkgs"
    );
    assert_eq!(
        referrers_closure("/nix/store/abc").command.command_line(),
        "nix-store -q --referrers-closure /nix/store/abc"
    );
}

#[test]
fn shells_use_the_wrapper_when_installed() {
    let packages = vec!["hello".to_string(), "github:a/b#c".to_string()];
    assert_eq!(
        shell(&packages, false).command.command_line(),
        "nix shell -- --impure nixpkgs#hello github:a/b#c"
    );
    assert_eq!(
        shell(&packages, true).command.command_line(),
        "nix-your-shell fish nix shell -- --impure nixpkgs#hello github:a/b#c"
    );
    assert_eq!(develop(&None, false).command.command_line(), "nix develop");
    assert_eq!(
        develop(&Some("py".to_string()), true).command.command_line(),
        "nix-your-shell fish nix develop .?submodules=1#py"
    );
    let (cmd, args) = get_interactive_args(
        "nix".to_string(),
        vec!["a".to_string()],
        vec!["nix".to_string(), "a".to_string()],
        true,
    );
    assert_eq!(cmd, "nix-your-shell");
    assert_eq!(args, vec!["fish", "nix", "a"]);
}
