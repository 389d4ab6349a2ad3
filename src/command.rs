use vstd::prelude::*;

verus! {

/// What a command descriptor holds.
pub struct CommandView {
    pub program: Seq<char>,
    pub args: Seq<Seq<char>>,
    pub sudo: bool,
}

/// The characters of each string.
pub open spec fn texts(v: Seq<String>) -> Seq<Seq<char>> {
    v.map_values(|s: String| s@)
}

/// The characters of each string slice.
pub open spec fn str_texts(v: Seq<&str>) -> Seq<Seq<char>> {
    v.map_values(|s: &str| s@)
}

/// The program that is actually started for `c`.
pub open spec fn final_program(c: CommandView) -> Seq<char> {
    if c.sudo {
        "sudo"@
    } else {
        c.program
    }
}

/// The arguments that the started program receives for `c`.
pub open spec fn final_args(c: CommandView) -> Seq<Seq<char>> {
    if c.sudo {
        seq![c.program] + c.args
    } else {
        c.args
    }
}

/// The words of `v` with `sep` between each two of them.
pub open spec fn join(v: Seq<Seq<char>>, sep: Seq<char>) -> Seq<char>
    decreases v.len(),
{
    if v.len() == 0 {
        Seq::empty()
    } else if v.len() == 1 {
        v[0]
    } else {
        join(v.drop_last(), sep) + sep + v.last()
    }
}

/// How a command is shown to the user: `[sudo ]program args...`.
pub open spec fn command_text(c: CommandView) -> Seq<char> {
    (if c.sudo {
        "sudo "@
    } else {
        Seq::empty()
    }) + c.program + " "@ + join(c.args, " "@)
}

/// An external program to run, with its arguments in order, and whether it is run
/// with elevated privileges.
pub struct SnowCommand {
    command: String,
    args: Vec<String>,
    requires_sudo: bool,
}

impl View for SnowCommand {
    type V = CommandView;

    closed spec fn view(&self) -> CommandView {
        CommandView { program: self.command@, args: texts(self.args@), sudo: self.requires_sudo }
    }
}

/// Copies of the given string slices.
pub fn owned_all(v: &Vec<&str>) -> (r: Vec<String>)
    ensures
        texts(r@) == str_texts(v@),
{
    let mut r: Vec<String> = Vec::new();
    let mut i: usize = 0;
    while i < v.len()
        invariant
            i <= v.len(),
            texts(r@) == str_texts(v@.take(i as int)),
        decreases v.len() - i,
    {
        r.push(String::from_str(v[i]));
        assert(str_texts(v@.take(i + 1)) =~= str_texts(v@.take(i as int)).push(v@[i as int]@));
        assert(texts(r@) =~= texts(r@.drop_last()).push(r@.last()@));
        i = i + 1;
    }
    assert(v@.take(v.len() as int) =~= v@);
    r
}

/// A copy of each string.
pub fn clone_all(v: &Vec<String>) -> (r: Vec<String>)
    ensures
        texts(r@) == texts(v@),
{
    let mut r: Vec<String> = Vec::new();
    let mut i: usize = 0;
    while i < v.len()
        invariant
            i <= v.len(),
            texts(r@) == texts(v@.take(i as int)),
        decreases v.len() - i,
    {
        r.push(v[i].clone());
        assert(texts(v@.take(i + 1)) =~= texts(v@.take(i as int)).push(v@[i as int]@));
        assert(texts(r@) =~= texts(r@.drop_last()).push(r@.last()@));
        i = i + 1;
    }
    assert(v@.take(v.len() as int) =~= v@);
    r
}

impl SnowCommand {
    /// A command that runs `command` with `args`, elevated where `requires_sudo` holds.
    pub fn new(command: String, args: Vec<&str>, requires_sudo: bool) -> (r: SnowCommand)
        ensures
            r@ == (CommandView { program: command@, args: str_texts(args@), sudo: requires_sudo }),
    {
        SnowCommand { command, args: owned_all(&args), requires_sudo }
    }

    /// A command that runs `command` with arguments already owned.
    pub fn with_args(command: String, args: Vec<String>, requires_sudo: bool) -> (r: SnowCommand)
        ensures
            r@ == (CommandView { program: command@, args: texts(args@), sudo: requires_sudo }),
    {
        SnowCommand { command, args, requires_sudo }
    }

    /// A command of the system-configuration tool.
    pub fn new_nix(command: String, args: Vec<&str>, requires_sudo: bool) -> (r: SnowCommand)
        ensures
            r@ == (CommandView { program: command@, args: str_texts(args@), sudo: requires_sudo }),
    {
        Self::new(command, args, requires_sudo)
    }

    /// A command of the version-control tool; never elevated.
    pub fn new_git(command: String, args: Vec<&str>) -> (r: SnowCommand)
        ensures
            r@ == (CommandView { program: command@, args: str_texts(args@), sudo: false }),
    {
        Self::new(command, args, false)
    }

    /// A command of the secrets tool; never elevated.
    pub fn new_agenix(command: String, args: Vec<&str>) -> (r: SnowCommand)
        ensures
            r@ == (CommandView { program: command@, args: str_texts(args@), sudo: false }),
    {
        Self::new(command, args, false)
    }

    /// Adds `arg` after the arguments already given.
    pub fn append_arg(&mut self, arg: &str)
        ensures
            final(self)@ == (CommandView { args: old(self)@.args.push(arg@), ..old(self)@ }),
    {
        self.args.push(String::from_str(arg));
        assert(texts(self.args@) =~= texts(old(self).args@).push(arg@));
    }

    /// The program to start and its arguments: where elevation is asked for, the
    /// escalation program, with the command's own program in front of its arguments;
    /// otherwise the command unchanged.
    pub fn get_final_args(&self) -> (r: (String, Vec<String>))
        ensures
            r.0@ == final_program(self@),
            texts(r.1@) == final_args(self@),
    {
        if self.requires_sudo {
            let mut args = clone_all(&self.args);
            args.insert(0, self.command.clone());
            assert(texts(args@) =~= seq![self.command@] + texts(self.args@));
            (String::from_str("sudo"), args)
        } else {
            (self.command.clone(), clone_all(&self.args))
        }
    }

    /// The command as it is shown to the user.
    pub fn command_line(&self) -> (r: String)
        ensures
            r@ == command_text(self@),
    {
        let mut line = if self.requires_sudo {
            String::from_str("sudo ")
        } else {
            String::new()
        };
        line.append(self.command.as_str());
        line.append(" ");
        let ghost head = line@;
        let mut i: usize = 0;
        while i < self.args.len()
            invariant
                i <= self.args.len(),
                line@ == head + join(texts(self.args@).take(i as int), " "@),
            decreases self.args.len() - i,
        {
            let ghost before = texts(self.args@).take(i as int);
            if i > 0 {
                line.append(" ");
            }
            line.append(self.args[i].as_str());
            let ghost after = texts(self.args@).take(i + 1);
            assert(after.drop_last() =~= before);
            if i == 0 {
                assert(before =~= Seq::<Seq<char>>::empty());
            }
            assert(line@ =~= head + join(after, " "@));
            i = i + 1;
        }
        assert(texts(self.args@).take(self.args.len() as int) =~= texts(self.args@));
        line
    }
}

/// The ways of running a command.
pub enum RunMode {
    /// All three standard streams inherited; nothing inspected.
    Verbose,
    /// Output discarded; nothing inspected.
    Silent,
    /// Standard input and output inherited, the error stream captured and scanned.
    Interactive,
    /// Both output streams captured; the standard output is the result.
    WithReturn,
    /// The error stream captured to recover a reported content hash.
    WithReturnHash,
    /// A live progress display under the given label, fed by the error stream.
    Progress(String),
    /// A live progress display of an image import, fed by the standard output.
    ProgressImport,
}

/// How a run mode is told apart in contracts.
pub enum ModeView {
    Verbose,
    Silent,
    Interactive,
    WithReturn,
    WithReturnHash,
    Progress(Seq<char>),
    ProgressImport,
}

impl View for RunMode {
    type V = ModeView;

    open spec fn view(&self) -> ModeView {
        match self {
            RunMode::Verbose => ModeView::Verbose,
            RunMode::Silent => ModeView::Silent,
            RunMode::Interactive => ModeView::Interactive,
            RunMode::WithReturn => ModeView::WithReturn,
            RunMode::WithReturnHash => ModeView::WithReturnHash,
            RunMode::Progress(label) => ModeView::Progress(label@),
            RunMode::ProgressImport => ModeView::ProgressImport,
        }
    }
}

/// Whether a mode hands its command's output straight to the terminal when debug
/// output is asked for, instead of inspecting it.
pub open spec fn degrades_in_debug(m: ModeView) -> bool {
    m is Silent || m is Interactive || m is Progress || m is ProgressImport
}

/// The mode a command actually runs in: with debug output asked for, the modes
/// that would hide or inspect the output run verbose instead.
pub fn effective_mode(mode: RunMode, debug: bool) -> (r: RunMode)
    ensures
        debug && degrades_in_debug(mode@) ==> r@ == ModeView::Verbose,
        !(debug && degrades_in_debug(mode@)) ==> r@ == mode@,
{
    if debug {
        match mode {
            RunMode::Silent | RunMode::Interactive | RunMode::Progress(_) | RunMode::ProgressImport => RunMode::Verbose,
            other => other,
        }
    } else {
        mode
    }
}

/// One command together with the mode to run it in.
pub struct Invocation {
    pub command: SnowCommand,
    pub mode: RunMode,
}

/// What an invocation holds.
pub struct InvocationView {
    pub command: CommandView,
    pub mode: ModeView,
}

impl View for Invocation {
    type V = InvocationView;

    open spec fn view(&self) -> InvocationView {
        InvocationView { command: self.command@, mode: self.mode@ }
    }
}

/// The view of each invocation.
pub open spec fn steps(v: Seq<Invocation>) -> Seq<InvocationView> {
    v.map_values(|i: Invocation| i@)
}

/// An invocation of `program` with the given arguments.
pub fn invocation(program: &str, args: Vec<&str>, sudo: bool, mode: RunMode) -> (r: Invocation)
    ensures
        r@ == (InvocationView {
            command: CommandView { program: program@, args: str_texts(args@), sudo },
            mode: mode@,
        }),
{
    Invocation { command: SnowCommand::new(String::from_str(program), args, sudo), mode }
}

/// An invocation of `program` with `args`, not elevated.
pub open spec fn plain(program: Seq<char>, args: Seq<Seq<char>>, mode: ModeView) -> InvocationView {
    InvocationView { command: CommandView { program, args, sudo: false }, mode }
}

} // verus!
