use vstd::prelude::*;
use crate::command::{
    CommandView, Invocation, InvocationView, ModeView, RunMode, SnowCommand, invocation, plain,
    steps, str_texts, texts,
};
use crate::text::{contains, replace, replace_chars, str_contains, chars_of, string_of};
use crate::wrap;

verus! {

/// The steps of staging all files, in the submodules and then, unless only the
/// submodules are asked for, in the main repository.
pub open spec fn add_steps(submodules_only: bool) -> Seq<InvocationView> {
    let sub = plain("git"@, str_texts(seq!["submodule", "foreach", "git", "add", "."]), ModeView::Silent);
    let main = plain("git"@, str_texts(seq!["add", "."]), ModeView::Silent);
    if submodules_only {
        seq![sub]
    } else {
        seq![sub, main]
    }
}

/// The steps of pushing, in the submodules and then, unless only the submodules are
/// asked for, in the main repository.
pub open spec fn push_steps(submodules_only: bool) -> Seq<InvocationView> {
    let sub = plain(
        "git"@,
        str_texts(seq!["submodule", "foreach", "git", "push", "--force-with-lease"]),
        ModeView::Silent,
    );
    let main = plain("git"@, str_texts(seq!["push", "--force-with-lease"]), ModeView::Silent);
    if submodules_only {
        seq![sub]
    } else {
        seq![sub, main]
    }
}

/// The arguments that say how to commit: with the message, or amending the last
/// commit where there is none.
pub open spec fn commit_flags(message: Option<Seq<char>>) -> Seq<Seq<char>> {
    match message {
        Some(m) => seq!["-m"@, m],
        None => str_texts(seq!["--amend", "-C", "HEAD"]),
    }
}

/// The steps of committing: stage, commit in the submodules, and unless only the
/// submodules are asked for, stage again and commit in the main repository.
pub open spec fn commit_steps(message: Option<Seq<char>>, submodules_only: bool) -> Seq<
    InvocationView,
> {
    let sub = plain(
        "git"@,
        str_texts(seq!["submodule", "foreach", "git", "commit"]) + commit_flags(message),
        ModeView::Silent,
    );
    let main = plain("git"@, seq!["commit"@] + commit_flags(message), ModeView::Silent);
    if submodules_only {
        add_steps(true) + seq![sub]
    } else {
        add_steps(false) + seq![sub] + add_steps(false) + seq![main]
    }
}

/// Pulls new changes in the submodules, then in the main repository unless only the
/// submodules are asked for.
pub fn git_pull(submodules_only: bool) -> (r: Vec<Invocation>)
    ensures
        steps(r@) == if submodules_only {
            seq![plain("git"@, str_texts(seq!["submodule", "foreach", "git", "pull"]), ModeView::Silent)]
        } else {
            seq![
                plain("git"@, str_texts(seq!["submodule", "foreach", "git", "pull"]), ModeView::Silent),
                plain("git"@, str_texts(seq!["pull"]), ModeView::Silent),
            ]
        },
{
    let mut r: Vec<Invocation> = Vec::new();
    then(&mut r, invocation("git", vec!["submodule", "foreach", "git", "pull"], false, RunMode::Silent));
    if !submodules_only {
        let v: Vec<&str> = vec!["pull"];
        assert(v@ == seq!["pull"]);
        then(&mut r, invocation("git", v, false, RunMode::Silent));
    }
    proof {
        if submodules_only {
            assert(steps(r@) =~= seq![plain("git"@, str_texts(seq!["submodule", "foreach", "git", "pull"]), ModeView::Silent)]);
        } else {
            assert(steps(r@) =~= seq![
                plain("git"@, str_texts(seq!["submodule", "foreach", "git", "pull"]), ModeView::Silent),
                plain("git"@, str_texts(seq!["pull"]), ModeView::Silent),
            ]);
        }
    }
    r
}

/// Appends `more` to `r`.
fn extend(r: &mut Vec<Invocation>, more: Vec<Invocation>)
    ensures
        steps(final(r)@) == steps(old(r)@) + steps(more@),
{
    let mut more = more;
    let ghost tail = more@;
    r.append(&mut more);
    assert(steps(r@) =~= steps(old(r)@) + steps(tail));
}

/// Adds one invocation after `r`.
fn then(r: &mut Vec<Invocation>, x: Invocation)
    ensures
        steps(final(r)@) == steps(old(r)@).push(x@),
{
    let ghost v = x@;
    r.push(x);
    assert(steps(r@) =~= steps(old(r)@).push(v));
}

/// Stages all files, in the submodules and then, unless only the submodules are
/// asked for, in the main repository.
pub fn git_add(submodules_only: bool) -> (r: Vec<Invocation>)
    ensures
        steps(r@) == add_steps(submodules_only),
{
    let mut r: Vec<Invocation> = Vec::new();
    then(&mut r, invocation("git", vec!["submodule", "foreach", "git", "add", "."], false, RunMode::Silent));
    if !submodules_only {
        then(&mut r, invocation("git", vec!["add", "."], false, RunMode::Silent));
    }
    assert(steps(r@) =~= add_steps(submodules_only));
    r
}

/// Pushes, in the submodules and then, unless only the submodules are asked for, in
/// the main repository, refusing to overwrite changes not yet seen.
pub fn git_push(submodules_only: bool) -> (r: Vec<Invocation>)
    ensures
        steps(r@) == push_steps(submodules_only),
{
    let mut r: Vec<Invocation> = Vec::new();
    then(
        &mut r,
        invocation("git", vec!["submodule", "foreach", "git", "push", "--force-with-lease"], false, RunMode::Silent),
    );
    if !submodules_only {
        then(&mut r, invocation("git", vec!["push", "--force-with-lease"], false, RunMode::Silent));
    }
    assert(steps(r@) =~= push_steps(submodules_only));
    r
}

/// The arguments that say how to commit.
fn commit_args(first: Vec<&str>, message: &Option<String>) -> (r: Vec<String>)
    ensures
        texts(r@) == str_texts(first@) + commit_flags(
            match message {
                Some(m) => Some(m@),
                None => None,
            },
        ),
{
    let mut args: Vec<&str> = first;
    match message {
        Some(m) => {
            args.push("-m");
            args.push(m.as_str());
        },
        None => {
            args.push("--amend");
            args.push("-C");
            args.push("HEAD");
        },
    }
    let r = crate::command::owned_all(&args);
    assert(str_texts(args@) =~= str_texts(first@) + commit_flags(
        match message {
            Some(m) => Some(m@),
            None => None,
        },
    ));
    r
}

/// Stages and commits, in the submodules and then, unless only the submodules are
/// asked for, in the main repository; without a message, the changes are amended
/// to the last commit.
pub fn git_commit(message: &Option<String>, submodules_only: bool) -> (r: Vec<Invocation>)
    ensures
        steps(r@) == commit_steps(
            match message {
                Some(m) => Some(m@),
                None => None,
            },
            submodules_only,
        ),
{
    let mut r = git_add(submodules_only);
    then(
        &mut r,
        Invocation {
            command: SnowCommand::with_args(
                String::from_str("git"),
                commit_args(vec!["submodule", "foreach", "git", "commit"], message),
                false,
            ),
            mode: RunMode::Silent,
        },
    );
    if !submodules_only {
        extend(&mut r, git_add(submodules_only));
        let first: Vec<&str> = vec!["commit"];
        assert(first@ == seq!["commit"]);
        then(
            &mut r,
            Invocation {
                command: SnowCommand::with_args(String::from_str("git"), commit_args(first, message), false),
                mode: RunMode::Silent,
            },
        );
    }
    proof {
        let msg = match message {
            Some(m) => Some(m@),
            None => None,
        };
        assert(str_texts(seq!["commit"]) =~= seq!["commit"@]);
        assert(steps(r@) =~= commit_steps(msg, submodules_only));
    }
    r
}

/// Commits as `git_commit` does, then pushes as `git_push` does.
pub fn git_all(message: &Option<String>, submodules_only: bool) -> (r: Vec<Invocation>)
    ensures
        steps(r@) == commit_steps(
            match message {
                Some(m) => Some(m@),
                None => None,
            },
            submodules_only,
        ) + push_steps(submodules_only),
{
    let mut r = git_commit(message, submodules_only);
    extend(&mut r, git_push(submodules_only));
    r
}

/// Initialises and updates the submodules.
pub fn git_init(_submodules_only: bool) -> (r: Vec<Invocation>)
    ensures
        steps(r@) == seq![
            plain("git"@, str_texts(seq!["submodule", "init"]), ModeView::Silent),
            plain("git"@, str_texts(seq!["submodule", "update"]), ModeView::Silent),
        ],
{
    let mut r: Vec<Invocation> = Vec::new();
    then(&mut r, invocation("git", vec!["submodule", "init"], false, RunMode::Silent));
    then(&mut r, invocation("git", vec!["submodule", "update"], false, RunMode::Silent));
    assert(steps(r@) =~= seq![
        plain("git"@, str_texts(seq!["submodule", "init"]), ModeView::Silent),
        plain("git"@, str_texts(seq!["submodule", "update"]), ModeView::Silent),
    ]);
    r
}

/// Status query that lists the files of the main repository that git does not track.
pub fn untracked_secrets_query() -> (r: Invocation)
    ensures
        r@ == plain(
            "git"@,
            str_texts(seq!["status", "--porcelain=v1", "--untracked-files=all"]),
            ModeView::WithReturn,
        ),
{
    invocation("git", vec!["status", "--porcelain=v1", "--untracked-files=all"], false, RunMode::WithReturn)
}

/// Status query that lists the files of the submodules that git does not track.
pub fn untracked_submodules_query() -> (r: Invocation)
    ensures
        r@ == plain(
            "git"@,
            str_texts(
                seq!["submodule", "foreach", "git", "status", "--porcelain=v1", "--untracked-files=all"],
            ),
            ModeView::WithReturn,
        ),
{
    invocation(
        "git",
        vec!["submodule", "foreach", "git", "status", "--porcelain=v1", "--untracked-files=all"],
        false,
        RunMode::WithReturn,
    )
}

/// Whether a status listing names an untracked file.
pub open spec fn lists_untracked(status: Seq<char>) -> bool {
    contains(status, "??"@)
}

/// Whether the output of `untracked_secrets_query` names an untracked file.
pub fn exist_untracked_secrets(status: &str) -> (r: bool)
    ensures
        r == lists_untracked(status@),
{
    str_contains(status, "??")
}

/// Whether any repository has untracked files, given the main repository's status
/// and, once asked for, the submodules' status. None means that the submodules'
/// status (`untracked_submodules_query`) is needed to decide.
pub fn exist_untracked(status: &str, submodule_status: Option<&str>) -> (r: Option<bool>)
    ensures
        lists_untracked(status@) ==> r == Some(true),
        !lists_untracked(status@) && submodule_status is None ==> r is None,
        !lists_untracked(status@) ==> (submodule_status matches Some(s) ==> r == Some(
            lists_untracked(s@),
        )),
{
    if exist_untracked_secrets(status) {
        Some(true)
    } else {
        match submodule_status {
            Some(s) => Some(exist_untracked_secrets(s)),
            None => None,
        }
    }
}

/// The arguments that make the secrets tool read the flake with its submodules.
pub open spec fn agenix_args(rest: Seq<Seq<char>>) -> Seq<Seq<char>> {
    str_texts(seq!["--extra-flake-params", "?submodules=1"]) + rest
}

/// Re-encrypts all secrets for a new set of master keys.
pub fn agenix_update_masterkeys() -> (r: Invocation)
    ensures
        r@ == plain("agenix"@, agenix_args(str_texts(seq!["update-masterkeys"])), ModeView::Interactive),
{
    let r = invocation(
        "agenix",
        vec!["--extra-flake-params", "?submodules=1", "update-masterkeys"],
        false,
        RunMode::Interactive,
    );
    assert(r@.command.args =~= agenix_args(str_texts(seq!["update-masterkeys"])));
    r
}

/// Opens the secret `file` for editing.
pub fn agenix_edit(file: &str) -> (r: Invocation)
    ensures
        r@ == plain("agenix"@, agenix_args(seq!["edit"@, file@]), ModeView::Interactive),
{
    let r = invocation("agenix", vec!["--extra-flake-params", "?submodules=1", "edit", file], false, RunMode::Interactive);
    assert(r@.command.args =~= agenix_args(seq!["edit"@, file@]));
    r
}

/// The flags of a rekey.
pub open spec fn rekey_flags(force: bool, dummy: bool) -> Seq<Seq<char>> {
    (if force {
        seq!["--force"@]
    } else {
        Seq::empty()
    }) + (if dummy {
        seq!["--dummy"@]
    } else {
        Seq::empty()
    })
}

/// Re-encrypts the secrets for the hosts that need them, forcing it or using dummy
/// keys where asked; untracked secrets (as `exist_untracked_secrets` tells) are
/// staged first.
pub fn agenix_rekey(force: bool, dummy: bool, untracked_secrets: bool) -> (r: Vec<Invocation>)
    ensures
        steps(r@) == (if untracked_secrets {
            add_steps(false)
        } else {
            Seq::empty()
        }) + seq![
            plain(
                "agenix"@,
                agenix_args(seq!["rekey"@] + rekey_flags(force, dummy)),
                ModeView::Interactive,
            ),
        ],
{
    let mut r: Vec<Invocation> = if untracked_secrets {
        git_add(false)
    } else {
        Vec::new()
    };
    let ghost before = steps(r@);
    let mut args = vec!["--extra-flake-params", "?submodules=1", "rekey"];
    if force {
        args.push("--force");
    }
    if dummy {
        args.push("--dummy");
    }
    let rekey = invocation("agenix", args, false, RunMode::Interactive);
    assert(rekey@.command.args =~= agenix_args(seq!["rekey"@] + rekey_flags(force, dummy)));
    then(&mut r, rekey);
    proof {
        if !untracked_secrets {
            assert(before =~= Seq::<InvocationView>::empty());
        }
    }
    r
}

/// The sed expression that moves every `python3XY` to `python` followed by `version`
/// without its dots.
pub open spec fn python_bump_expression(version: Seq<char>) -> Seq<char> {
    "s/python3[1-9][1-9]\\+/python"@ + replace(version, "."@, Seq::empty()) + "/g"@
}

/// Runs the sed expression `sed` over every file below the current directory.
pub fn bump(sed: &str) -> (r: Invocation)
    ensures
        r@ == plain(
            "find"@,
            seq!["."@, "-type"@, "f"@, "-exec"@, "sed"@, "-i"@, sed@, "{}"@, "+"@],
            ModeView::Verbose,
        ),
{
    let r = invocation("find", vec![".", "-type", "f", "-exec", "sed", "-i", sed, "{}", "+"], false, RunMode::Verbose);
    assert(r@.command.args =~= seq!["."@, "-type"@, "f"@, "-exec"@, "sed"@, "-i"@, sed@, "{}"@, "+"@]);
    r
}

/// Moves every reference to a python 3 package set to `version`.
pub fn bump_python(version: &str) -> (r: Invocation)
    ensures
        r@ == plain(
            "find"@,
            seq!["."@, "-type"@, "f"@, "-exec"@, "sed"@, "-i"@, python_bump_expression(version@), "{}"@, "+"@],
            ModeView::Verbose,
        ),
{
    let dot = chars_of(".");
    proof {
        reveal_strlit(".");
    }
    let empty: Vec<char> = Vec::new();
    assert(empty@ =~= Seq::<char>::empty());
    let digits = string_of(&replace_chars(&chars_of(version), &dot, &empty));
    let mut expr = String::from_str("s/python3[1-9][1-9]\\+/python");
    expr.append(digits.as_str());
    expr.append("/g");
    bump(expr.as_str())
}

/// Opens the interactive evaluator with the current flake loaded.
pub fn repl() -> (r: Invocation)
    ensures
        r@ == plain(
            "nix"@,
            str_texts(seq!["repl", "--expr", "builtins.getFlake (toString ./.)"]),
            ModeView::Interactive,
        ),
{
    invocation("nix", vec!["repl", "--expr", "builtins.getFlake (toString ./.)"], false, RunMode::Interactive)
}

/// Evaluates the attribute `attr` of the flake, with its submodules, passing
/// `extra_args` on; the output is the result.
pub fn read_from_repl(attr: &str, extra_args: Vec<&str>) -> (r: Invocation)
    ensures
        r@ == plain(
            "nix"@,
            seq!["eval"@, ".?submodules=1#"@ + attr@] + str_texts(extra_args@),
            ModeView::WithReturn,
        ),
{
    let wrapped = wrap(attr, true);
    let mut args: Vec<&str> = vec!["eval", wrapped.as_str()];
    let mut i: usize = 0;
    assert(str_texts(args@) =~= seq!["eval"@, wrapped@] + str_texts(extra_args@.take(0)));
    while i < extra_args.len()
        invariant
            i <= extra_args.len(),
            str_texts(args@) == seq!["eval"@, wrapped@] + str_texts(extra_args@.take(i as int)),
        decreases extra_args.len() - i,
    {
        let ghost before = args@;
        args.push(extra_args[i]);
        assert(str_texts(extra_args@.take(i + 1)) =~= str_texts(extra_args@.take(i as int)).push(extra_args@[i as int]@));
        assert(str_texts(args@) =~= str_texts(before).push(extra_args@[i as int]@));
        i = i + 1;
    }
    assert(extra_args@.take(extra_args.len() as int) =~= extra_args@);
    let r = invocation("nix", args, false, RunMode::WithReturn);
    assert(r@.command.args =~= seq!["eval"@, ".?submodules=1#"@ + attr@] + str_texts(extra_args@));
    r
}

/// The output flags of an evaluation.
pub open spec fn eval_flags(json: bool, raw: bool) -> Seq<Seq<char>> {
    (if json {
        seq!["--json"@]
    } else {
        Seq::empty()
    }) + (if raw {
        seq!["--raw"@]
    } else {
        Seq::empty()
    })
}

/// Evaluates `expression` in the flake, as JSON or as raw text where asked.
pub fn eval(expression: &str, json: bool, raw: bool) -> (r: Invocation)
    ensures
        r@ == plain(
            "nix"@,
            seq!["eval"@, ".?submodules=1#"@ + expression@] + eval_flags(json, raw),
            ModeView::WithReturn,
        ),
{
    let mut extra: Vec<&str> = Vec::new();
    if json {
        extra.push("--json");
    }
    if raw {
        extra.push("--raw");
    }
    assert(str_texts(extra@) =~= eval_flags(json, raw));
    read_from_repl(expression, extra)
}

/// Formats the flake, behind a progress display.
pub fn fmt() -> (r: Invocation)
    ensures
        r@ == plain("nix"@, str_texts(seq!["fmt"]), ModeView::Progress("fmt"@)),
{
    let v: Vec<&str> = vec!["fmt"];
    assert(v@ == seq!["fmt"]);
    invocation("nix", v, false, RunMode::Progress(String::from_str("fmt")))
}

/// Collects garbage, first with elevated privileges for the system, then for the
/// user.
pub fn clean() -> (r: Vec<Invocation>)
    ensures
        steps(r@) == seq![
            InvocationView {
                command: CommandView {
                    program: "nix-collect-garbage"@,
                    args: seq!["-d"@],
                    sudo: true,
                },
                mode: ModeView::Verbose,
            },
            plain("nix-collect-garbage"@, seq!["-d"@], ModeView::Verbose),
        ],
{
    let mut r: Vec<Invocation> = Vec::new();
    let v: Vec<&str> = vec!["-d"];
    assert(v@ == seq!["-d"]);
    then(&mut r, invocation("nix-collect-garbage", v, true, RunMode::Verbose));
    let v: Vec<&str> = vec!["-d"];
    assert(v@ == seq!["-d"]);
    then(&mut r, invocation("nix-collect-garbage", v, false, RunMode::Verbose));
    assert(str_texts(seq!["-d"]) =~= seq!["-d"@]);
    assert(steps(r@) =~= seq![
        InvocationView {
            command: CommandView { program: "nix-collect-garbage"@, args: seq!["-d"@], sudo: true },
            mode: ModeView::Verbose,
        },
        plain("nix-collect-garbage"@, seq!["-d"@], ModeView::Verbose),
    ]);
    r
}

/// Updates the flake input `input`, or all of them.
pub fn update(input: &Option<String>) -> (r: Invocation)
    ensures
        r@ == plain(
            "nix"@,
            str_texts(seq!["flake", "update"]) + match input {
                Some(i) => seq![i@],
                None => Seq::empty(),
            },
            ModeView::Verbose,
        ),
{
    let mut args: Vec<&str> = vec!["flake", "update"];
    match input {
        Some(i) => args.push(i.as_str()),
        None => {},
    }
    let r = invocation("nix", args, false, RunMode::Verbose);
    assert(r@.command.args =~= str_texts(seq!["flake", "update"]) + match input {
        Some(i) => seq![i@],
        None => Seq::empty(),
    });
    r
}

/// Lists the store paths that refer to `derivation`, directly or not.
pub fn referrers_closure(derivation: &str) -> (r: Invocation)
    ensures
        r@ == plain("nix-store"@, seq!["-q"@, "--referrers-closure"@, derivation@], ModeView::Verbose),
{
    let r = invocation("nix-store", vec!["-q", "--referrers-closure", derivation], false, RunMode::Verbose);
    assert(r@.command.args =~= seq!["-q"@, "--referrers-closure"@, derivation@]);
    r
}

/// The program and arguments of an interactive shell: through the shell wrapper,
/// with "fish" in front of `success_args`, where that wrapper is installed; the
/// defaults otherwise.
pub fn get_interactive_args(
    default_command: String,
    default_args: Vec<String>,
    success_args: Vec<String>,
    wrapper_installed: bool,
) -> (r: (String, Vec<String>))
    ensures
        wrapper_installed ==> r.0@ == "nix-your-shell"@ && texts(r.1@) == seq!["fish"@] + texts(
            success_args@,
        ),
        !wrapper_installed ==> r.0@ == default_command@ && texts(r.1@) == texts(default_args@),
{
    if wrapper_installed {
        let mut args = success_args;
        let ghost before = texts(args@);
        args.insert(0, String::from_str("fish"));
        assert(texts(args@) =~= seq!["fish"@] + before);
        (String::from_str("nix-your-shell"), args)
    } else {
        (default_command, default_args)
    }
}

/// Enters the development shell `shell_name` of the flake, or its default one.
pub fn develop(shell_name: &Option<String>, wrapper_installed: bool) -> (r: Invocation)
    ensures
        r@ == plain(
            if wrapper_installed {
                "nix-your-shell"@
            } else {
                "nix"@
            },
            (if wrapper_installed {
                seq!["fish"@, "nix"@, "develop"@]
            } else {
                seq!["develop"@]
            }) + match shell_name {
                Some(n) => seq![".?submodules=1#"@ + n@],
                None => Seq::empty(),
            },
            ModeView::Verbose,
        ),
{
    let mut defaults: Vec<String> = Vec::new();
    defaults.push(String::from_str("develop"));
    let mut success: Vec<String> = Vec::new();
    success.push(String::from_str("nix"));
    success.push(String::from_str("develop"));
    assert(texts(defaults@) =~= seq!["develop"@]);
    assert(texts(success@) =~= seq!["nix"@, "develop"@]);
    let (command, mut args) = get_interactive_args(String::from_str("nix"), defaults, success, wrapper_installed);
    let ghost before = texts(args@);
    match shell_name {
        Some(n) => {
            args.push(wrap(n.as_str(), true));
            assert(texts(args@) =~= before.push(".?submodules=1#"@ + n@));
        },
        None => {},
    }
    let r = Invocation { command: SnowCommand::with_args(command, args, false), mode: RunMode::Verbose };
    assert(r@.command.args =~= (if wrapper_installed {
        seq!["fish"@, "nix"@, "develop"@]
    } else {
        seq!["develop"@]
    }) + match shell_name {
        Some(n) => seq![".?submodules=1#"@ + n@],
        None => Seq::empty(),
    });
    r
}

/// A package reference as the shell takes it: a flake reference where it holds a
/// "#", a package of the default package set otherwise.
pub open spec fn package_ref(p: Seq<char>) -> Seq<char> {
    if contains(p, "#"@) {
        p
    } else {
        "nixpkgs#"@ + p
    }
}

/// Enters a shell with `packages` installed; where the shell wrapper is installed,
/// through it.
pub fn shell(packages: &Vec<String>, wrapper_installed: bool) -> (r: Invocation)
    ensures
        r@ == plain(
            if wrapper_installed {
                "nix-your-shell"@
            } else {
                "nix"@
            },
            (if wrapper_installed {
                seq!["fish"@, "nix"@]
            } else {
                Seq::empty()
            }) + seq!["shell"@, "--"@, "--impure"@] + texts(packages@).map_values(
                |p: Seq<char>| package_ref(p),
            ),
            ModeView::Interactive,
        ),
{
    let mut args: Vec<String> = Vec::new();
    args.push(String::from_str("shell"));
    args.push(String::from_str("--"));
    args.push(String::from_str("--impure"));
    let ghost head = texts(args@);
    assert(head =~= seq!["shell"@, "--"@, "--impure"@]);
    let mut i: usize = 0;
    while i < packages.len()
        invariant
            i <= packages.len(),
            texts(args@) == head + texts(packages@).take(i as int).map_values(
                |p: Seq<char>| package_ref(p),
            ),
        decreases packages.len() - i,
    {
        let p = packages[i].as_str();
        let arg = if str_contains(p, "#") {
            String::from_str(p)
        } else {
            String::from_str("nixpkgs#").concat(p)
        };
        let ghost before = args@;
        args.push(arg);
        assert(texts(packages@).take(i + 1) =~= texts(packages@).take(i as int).push(p@));
        assert(texts(args@) =~= texts(before).push(arg@));
        assert(texts(args@) =~= head + texts(packages@).take(i + 1).map_values(
            |p: Seq<char>| package_ref(p),
        ));
        i = i + 1;
    }
    assert(texts(packages@).take(packages.len() as int) =~= texts(packages@));
    let ghost base = texts(args@);
    let mut success = crate::command::clone_all(&args);
    success.insert(0, String::from_str("nix"));
    assert(texts(success@) =~= seq!["nix"@] + base);
    let (command, args) = get_interactive_args(String::from_str("nix"), args, success, wrapper_installed);
    let r = Invocation { command: SnowCommand::with_args(command, args, false), mode: RunMode::Interactive };
    assert(r@.command.args =~= (if wrapper_installed {
        seq!["fish"@, "nix"@]
    } else {
        Seq::empty()
    }) + seq!["shell"@, "--"@, "--impure"@] + texts(packages@).map_values(
        |p: Seq<char>| package_ref(p),
    ));
    r
}

} // verus!
