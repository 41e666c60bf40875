//! How a parsed pipeline runs: a lone built-in command is run by the shell
//! itself, anything else becomes a chain of processes, each reading what
//! the one before it wrote.
use vstd::prelude::*;
use crate::parser::{Pipeline, PipelineView, parse_spec};
use crate::parser_laws::law_parsed_words_nonempty;
use crate::text::is_word;

verus! {

/// The built-in commands.
#[derive(Debug, Clone, Copy, PartialEq, Eq, Structural)]
pub enum Builtin {
    Cd,
    Exit,
    Create,
    Delete,
    List,
    Read,
    Copy,
    Move,
    Rename,
    Hi,
}

/// The built-in command a program name stands for, if any.
pub open spec fn builtin_spec(name: Seq<char>) -> Option<Builtin> {
    if name == "cd"@ {
        Some(Builtin::Cd)
    } else if name == "exit"@ {
        Some(Builtin::Exit)
    } else if name == "create"@ {
        Some(Builtin::Create)
    } else if name == "delete"@ {
        Some(Builtin::Delete)
    } else if name == "list"@ {
        Some(Builtin::List)
    } else if name == "read"@ {
        Some(Builtin::Read)
    } else if name == "copy"@ {
        Some(Builtin::Copy)
    } else if name == "move"@ {
        Some(Builtin::Move)
    } else if name == "rename"@ {
        Some(Builtin::Rename)
    } else if name == "hi"@ {
        Some(Builtin::Hi)
    } else {
        None
    }
}

/// The built-in command that `name` stands for, if any.
pub fn builtin_named(name: &String) -> (b: Option<Builtin>)
    ensures
        b == builtin_spec(name@),
{
    if is_word(name, "cd") {
        Some(Builtin::Cd)
    } else if is_word(name, "exit") {
        Some(Builtin::Exit)
    } else if is_word(name, "create") {
        Some(Builtin::Create)
    } else if is_word(name, "delete") {
        Some(Builtin::Delete)
    } else if is_word(name, "list") {
        Some(Builtin::List)
    } else if is_word(name, "read") {
        Some(Builtin::Read)
    } else if is_word(name, "copy") {
        Some(Builtin::Copy)
    } else if is_word(name, "move") {
        Some(Builtin::Move)
    } else if is_word(name, "rename") {
        Some(Builtin::Rename)
    } else if is_word(name, "hi") {
        Some(Builtin::Hi)
    } else {
        None
    }
}

/// Where a process reads from.
#[derive(Debug, Clone, PartialEq)]
pub enum StdinSource {
    /// Nothing: the process sees the end of its input at once.
    Null,
    /// The file of that name.
    File(String),
    /// The output of the process before it.
    Previous,
}

/// Where a process writes to.
#[derive(Debug, Clone, PartialEq)]
pub enum StdoutTarget {
    /// A pipe that the shell, or the next process, reads.
    Piped,
    /// The file of that name, created or emptied first.
    File(String),
}

/// One process of a pipeline.
#[derive(Debug, Clone, PartialEq)]
pub struct Stage {
    pub program: String,
    pub args: Vec<String>,
    pub stdin: StdinSource,
    pub stdout: StdoutTarget,
}

/// What running a pipeline comes to.
#[derive(Debug, Clone, PartialEq)]
pub enum Plan {
    /// There is nothing to run.
    Nothing,
    /// The shell runs the built-in command itself, with these arguments.
    RunBuiltin(Builtin, Vec<String>),
    /// The processes to start, in order.
    Spawn(Vec<Stage>),
}

/// The value of where a process reads from.
pub enum StdinView {
    Null,
    File(Seq<char>),
    Previous,
}

/// The value of where a process writes to.
pub enum StdoutView {
    Piped,
    File(Seq<char>),
}

/// The value of a process.
pub struct StageView {
    pub program: Seq<char>,
    pub args: Seq<Seq<char>>,
    pub stdin: StdinView,
    pub stdout: StdoutView,
}

/// The value of a plan.
pub enum PlanView {
    Nothing,
    RunBuiltin(Builtin, Seq<Seq<char>>),
    Spawn(Seq<StageView>),
}

impl View for StdinSource {
    type V = StdinView;

    open spec fn view(&self) -> StdinView {
        match self {
            StdinSource::Null => StdinView::Null,
            StdinSource::File(f) => StdinView::File(f@),
            StdinSource::Previous => StdinView::Previous,
        }
    }
}

impl View for StdoutTarget {
    type V = StdoutView;

    open spec fn view(&self) -> StdoutView {
        match self {
            StdoutTarget::Piped => StdoutView::Piped,
            StdoutTarget::File(f) => StdoutView::File(f@),
        }
    }
}

impl View for Stage {
    type V = StageView;

    open spec fn view(&self) -> StageView {
        StageView {
            program: self.program@,
            args: self.args.deep_view(),
            stdin: self.stdin@,
            stdout: self.stdout@,
        }
    }
}

impl View for Plan {
    type V = PlanView;

    open spec fn view(&self) -> PlanView {
        match self {
            Plan::Nothing => PlanView::Nothing,
            Plan::RunBuiltin(b, args) => PlanView::RunBuiltin(*b, args.deep_view()),
            Plan::Spawn(stages) => PlanView::Spawn(stages@.map_values(|s: Stage| s@)),
        }
    }
}

/// Where process `i` of `n` reads from: the first from the input file or
/// nothing, every other from the process before it.
pub open spec fn stdin_of(i: int, stdin_file: Option<Seq<char>>) -> StdinView {
    if i == 0 {
        match stdin_file {
            Some(f) => StdinView::File(f),
            None => StdinView::Null,
        }
    } else {
        StdinView::Previous
    }
}

/// Where process `i` of `n` writes to: the last into the output file if
/// there is one, every process else into a pipe.
pub open spec fn stdout_of(i: int, n: int, stdout_file: Option<Seq<char>>) -> StdoutView {
    if i == n - 1 {
        match stdout_file {
            Some(f) => StdoutView::File(f),
            None => StdoutView::Piped,
        }
    } else {
        StdoutView::Piped
    }
}

/// Process `i` of the pipeline `p`.
pub open spec fn stage_of(p: PipelineView, i: int) -> StageView {
    StageView {
        program: p.commands[i].program,
        args: p.commands[i].args,
        stdin: stdin_of(i, p.stdin_file),
        stdout: stdout_of(i, p.commands.len() as int, p.stdout_file),
    }
}

/// How a pipeline runs: nothing for no command; a lone command named like a
/// built-in is run by the shell, redirections aside; anything else is a
/// chain of processes.
pub open spec fn plan_spec(p: PipelineView) -> PlanView {
    if p.commands.len() == 0 {
        PlanView::Nothing
    } else if p.commands.len() == 1 && builtin_spec(p.commands[0].program) is Some {
        PlanView::RunBuiltin(builtin_spec(p.commands[0].program)->0, p.commands[0].args)
    } else {
        PlanView::Spawn(Seq::new(p.commands.len(), |i: int| stage_of(p, i)))
    }
}

fn clone_text(s: &String) -> (r: String)
    ensures
        r@ == s@,
{
    s.clone()
}

fn clone_texts(v: &Vec<String>) -> (r: Vec<String>)
    ensures
        r.deep_view() == v.deep_view(),
{
    let mut r: Vec<String> = Vec::new();
    let mut i: usize = 0;
    while i < v.len()
        invariant
            i <= v.len(),
            r.deep_view() == v.deep_view().take(i as int),
        decreases v.len() - i,
    {
        let ghost before = r.deep_view();
        r.push(clone_text(&v[i]));
        assert(r.deep_view() =~= before.push(v[i as int]@));
        assert(v.deep_view().take(i + 1) =~= v.deep_view().take(i as int).push(v.deep_view()[i as int]));
        i = i + 1;
    }
    assert(v.deep_view().take(v.len() as int) =~= v.deep_view());
    r
}

fn clone_file(f: &Option<String>) -> (r: Option<String>)
    ensures
        r.deep_view() == f.deep_view(),
{
    match f {
        Some(s) => Some(clone_text(s)),
        None => None,
    }
}

/// Decides how the pipeline runs.
pub fn plan_execution(p: &Pipeline) -> (plan: Plan)
    ensures
        plan@ == plan_spec(p@),
{
    let n = p.commands.len();
    if n == 0 {
        return Plan::Nothing;
    }
    if n == 1 {
        assert(p@.commands[0] == p.commands@[0]@);
        if let Some(b) = builtin_named(&p.commands[0].program) {
            return Plan::RunBuiltin(b, clone_texts(&p.commands[0].args));
        }
    }
    let mut stages: Vec<Stage> = Vec::new();
    let mut i: usize = 0;
    while i < n
        invariant
            n == p.commands.len(),
            i <= n,
            n > 0,
            stages.len() == i,
            forall|j: int| 0 <= j < i ==> (#[trigger] stages@[j])@ == stage_of(p@, j),
        decreases n - i,
    {
        let cmd = &p.commands[i];
        assert(p@.commands[i as int] == cmd@);
        let stdin = if i == 0 {
            match &p.stdin_file {
                Some(f) => StdinSource::File(clone_text(f)),
                None => StdinSource::Null,
            }
        } else {
            StdinSource::Previous
        };
        let stdout = if i == n - 1 {
            match &p.stdout_file {
                Some(f) => StdoutTarget::File(clone_text(f)),
                None => StdoutTarget::Piped,
            }
        } else {
            StdoutTarget::Piped
        };
        let stage = Stage {
            program: clone_text(&cmd.program),
            args: clone_texts(&cmd.args),
            stdin,
            stdout,
        };
        stages.push(stage);
        i = i + 1;
    }
    let plan = Plan::Spawn(stages);
    assert(plan@ == plan_spec(p@)) by {
        if n == 1 {
            assert(builtin_spec(p@.commands[0].program) is None);
        }
        assert(stages@.map_values(|s: Stage| s@) =~= Seq::new(p@.commands.len(), |i: int| stage_of(p@, i)));
    }
    plan
}

/// What the shell shows once the last process has ended: what it wrote,
/// then what it wrote as errors if that is not empty, then the reason the
/// shell could not wait for it, if any.
pub open spec fn output_spec(stdout: Seq<char>, stderr: Option<Seq<char>>, wait_error: Option<Seq<char>>) -> Seq<char> {
    let with_errors = match stderr {
        Some(e) => stdout + e,
        None => stdout,
    };
    match wait_error {
        Some(w) => with_errors + "\niron_shell: wait failed: "@ + w,
        None => with_errors,
    }
}

/// The shell's output for a pipeline whose last process wrote `stdout`, wrote
/// `stderr` (where it could be read), and could or could not be waited for.
pub fn collect_output(stdout: String, stderr: Option<String>, wait_error: Option<String>) -> (out: String)
    ensures
        out@ == output_spec(
            stdout@,
            match stderr {
                Some(e) => if e@.len() > 0 { Some(e@) } else { None },
                None => None,
            },
            wait_error.deep_view(),
        ),
{
    let mut out = stdout;
    if let Some(e) = stderr {
        if !e.as_str().is_empty() {
            out.append(e.as_str());
        }
    }
    if let Some(w) = wait_error {
        out.append("\niron_shell: wait failed: ");
        out.append(w.as_str());
    }
    out
}

/// What the shell prints when a process cannot be started or a
/// redirection file cannot be opened: the program or file, and the reason.
pub open spec fn spawn_failed_message(subject: Seq<char>, err: Seq<char>) -> Seq<char> {
    "iron_shell: "@ + subject + ": "@ + err
}

pub fn spawn_failed(subject: &str, err: &str) -> (m: String)
    ensures
        m@ == spawn_failed_message(subject@, err@),
{
    let mut m = String::from_str("iron_shell: ");
    m.append(subject);
    m.append(": ");
    m.append(err);
    m
}


/// In a pipeline that is not a lone built-in, every command becomes one
/// process, in order; the first reads the input file, or nothing, and every
/// other reads what the process before it wrote; the last writes into the
/// output file, or a pipe the shell reads, and every other into a pipe.
pub proof fn law_stages_are_chained(p: PipelineView)
    requires
        p.commands.len() > 0,
        !(p.commands.len() == 1 && builtin_spec(p.commands[0].program) is Some),
    ensures
        plan_spec(p) matches PlanView::Spawn(st) && {
            &&& st.len() == p.commands.len()
            &&& forall|i: int|
                0 <= i < st.len() ==> (#[trigger] st[i]).program == p.commands[i].program
                    && st[i].args == p.commands[i].args
            &&& forall|i: int| 0 < i < st.len() ==> (#[trigger] st[i]).stdin == StdinView::Previous
            &&& forall|i: int| 0 <= i < st.len() - 1 ==> (#[trigger] st[i]).stdout == StdoutView::Piped
            &&& st[0].stdin == (match p.stdin_file {
                Some(f) => StdinView::File(f),
                None => StdinView::Null,
            })
            &&& st[st.len() - 1].stdout == (match p.stdout_file {
                Some(f) => StdoutView::File(f),
                None => StdoutView::Piped,
            })
        },
{
}

/// Every command line that `parse` accepts gives something to run.
pub proof fn law_parsed_line_runs(input: Seq<char>)
    ensures
        parse_spec(input) matches Some(p) ==> !(plan_spec(p) is Nothing),
{
    law_parsed_words_nonempty(input);
}


/// The name that calls the built-in command `b`.
pub open spec fn builtin_name(b: Builtin) -> Seq<char> {
    match b {
        Builtin::Cd => "cd"@,
        Builtin::Exit => "exit"@,
        Builtin::Create => "create"@,
        Builtin::Delete => "delete"@,
        Builtin::List => "list"@,
        Builtin::Read => "read"@,
        Builtin::Copy => "copy"@,
        Builtin::Move => "move"@,
        Builtin::Rename => "rename"@,
        Builtin::Hi => "hi"@,
    }
}

/// Each built-in command is called by its own name and by no other: a
/// program name stands for the built-in `b` exactly when it is `b`'s name.
pub proof fn law_builtin_names(name: Seq<char>, b: Builtin)
    ensures
        (builtin_spec(name) == Some(b)) <==> (name == builtin_name(b)),
{
    reveal_strlit("cd");
    reveal_strlit("exit");
    reveal_strlit("create");
    reveal_strlit("delete");
    reveal_strlit("list");
    reveal_strlit("read");
    reveal_strlit("copy");
    reveal_strlit("move");
    reveal_strlit("rename");
    reveal_strlit("hi");
    if name == builtin_name(b) {
        assert(name[0] == builtin_name(b)[0] && name[1] == builtin_name(b)[1]);
        assert(name.len() == builtin_name(b).len());
        assert(("cd"@.len() == 2) && "cd"@[0] == 'c' && "cd"@[1] == 'd');
        assert(("exit"@.len() == 4) && "exit"@[0] == 'e' && "exit"@[1] == 'x');
        assert(("create"@.len() == 6) && "create"@[0] == 'c' && "create"@[1] == 'r');
        assert(("delete"@.len() == 6) && "delete"@[0] == 'd' && "delete"@[1] == 'e');
        assert(("list"@.len() == 4) && "list"@[0] == 'l' && "list"@[1] == 'i');
        assert(("read"@.len() == 4) && "read"@[0] == 'r' && "read"@[1] == 'e');
        assert(("copy"@.len() == 4) && "copy"@[0] == 'c' && "copy"@[1] == 'o');
        assert(("move"@.len() == 4) && "move"@[0] == 'm' && "move"@[1] == 'o');
        assert(("rename"@.len() == 6) && "rename"@[0] == 'r' && "rename"@[1] == 'e');
        assert(("hi"@.len() == 2) && "hi"@[0] == 'h' && "hi"@[1] == 'i');
    }
}

/// A pipeline of one command named like the built-in `b` is run by the
/// shell as `b`, with that command's arguments, whatever its redirections.
pub proof fn law_lone_builtin_runs_in_shell(p: PipelineView, b: Builtin)
    requires
        p.commands.len() == 1,
        p.commands[0].program == builtin_name(b),
    ensures
        plan_spec(p) == PlanView::RunBuiltin(b, p.commands[0].args),
{
    law_builtin_names(builtin_name(b), b);
}

} // verus!
