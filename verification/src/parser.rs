//! Tokenising a command line into a pipeline of commands.
//!
//! The grammar is that of a small shell: words are separated by spaces and
//! tabs, `'...'` and `"..."` quote, a backslash escapes the next character
//! (except inside single quotes), `|` separates commands, `<` names the file
//! that feeds the first command and `>` the file that receives the output of
//! the last one.
use vstd::prelude::*;

verus! {

/// One command of a pipeline: the program to run and its arguments.
#[derive(Debug, Clone, PartialEq)]
pub struct Command {
    pub program: String,
    pub args: Vec<String>,
}

/// A whole command line: the commands joined by `|` and the optional
/// redirections of its input and output.
#[derive(Debug, Clone, PartialEq)]
pub struct Pipeline {
    pub commands: Vec<Command>,
    pub stdin_file: Option<String>,
    pub stdout_file: Option<String>,
}

/// The mathematical value of a [`Command`].
pub struct CommandView {
    pub program: Seq<char>,
    pub args: Seq<Seq<char>>,
}

/// The mathematical value of a [`Pipeline`].
pub struct PipelineView {
    pub commands: Seq<CommandView>,
    pub stdin_file: Option<Seq<char>>,
    pub stdout_file: Option<Seq<char>>,
}

impl View for Command {
    type V = CommandView;

    open spec fn view(&self) -> CommandView {
        CommandView { program: self.program@, args: self.args.deep_view() }
    }
}

pub open spec fn commands_view(cmds: Seq<Command>) -> Seq<CommandView> {
    cmds.map_values(|c: Command| c@)
}

impl View for Pipeline {
    type V = PipelineView;

    open spec fn view(&self) -> PipelineView {
        PipelineView {
            commands: commands_view(self.commands@),
            stdin_file: self.stdin_file.deep_view(),
            stdout_file: self.stdout_file.deep_view(),
        }
    }
}

impl Command {
    /// A command with no program and no arguments yet.
    pub fn new() -> (c: Command)
        ensures
            c@ == empty_command(),
    {
        let c = Command { program: String::new(), args: Vec::new() };
        assert(c.args.deep_view() =~= Seq::<Seq<char>>::empty());
        c
    }
}

impl Default for Pipeline {
    fn default() -> (p: Pipeline)
        ensures
            p@ == (PipelineView { commands: Seq::empty(), stdin_file: None, stdout_file: None }),
    {
        let p = Pipeline { commands: Vec::new(), stdin_file: None, stdout_file: None };
        assert(commands_view(p.commands@) =~= Seq::<CommandView>::empty());
        p
    }
}

/// The state of the tokeniser after it has read part of the input.
pub struct ScanState {
    /// Commands completed by a `|`.
    pub commands: Seq<CommandView>,
    /// The command being read.
    pub current: CommandView,
    /// The word being read.
    pub token: Seq<char>,
    pub in_single: bool,
    pub in_double: bool,
    pub expect_stdin: bool,
    pub expect_stdout: bool,
    pub escape_next: bool,
    pub stdin_file: Option<Seq<char>>,
    pub stdout_file: Option<Seq<char>>,
}

pub open spec fn empty_command() -> CommandView {
    CommandView { program: Seq::empty(), args: Seq::empty() }
}

/// The tokeniser before it has read anything.
pub open spec fn initial_state() -> ScanState {
    ScanState {
        commands: Seq::empty(),
        current: empty_command(),
        token: Seq::empty(),
        in_single: false,
        in_double: false,
        expect_stdin: false,
        expect_stdout: false,
        escape_next: false,
        stdin_file: None,
        stdout_file: None,
    }
}

/// The characters that separate words outside quotes.
pub open spec fn is_blank(c: char) -> bool {
    c == ' ' || c == '\t'
}

/// The characters with a meaning of their own outside quotes.
pub open spec fn is_special(c: char) -> bool {
    is_blank(c) || c == '\\' || c == '\'' || c == '"' || c == '|' || c == '<' || c == '>'
}

/// A finished word becomes the program of the current command if it has
/// none yet, else its next argument; an empty word is dropped.
pub open spec fn flush_token(s: ScanState) -> ScanState {
    if s.token.len() == 0 {
        s
    } else if s.current.program.len() == 0 {
        ScanState {
            current: CommandView { program: s.token, args: s.current.args },
            token: Seq::empty(),
            ..s
        }
    } else {
        ScanState {
            current: CommandView { program: s.current.program, args: s.current.args.push(s.token) },
            token: Seq::empty(),
            ..s
        }
    }
}

/// A finished word after `<` names the input file; an empty one is dropped.
pub open spec fn take_stdin(s: ScanState) -> ScanState {
    if s.token.len() > 0 {
        ScanState { stdin_file: Some(s.token), token: Seq::empty(), expect_stdin: false, ..s }
    } else {
        s
    }
}

/// A finished word after `>` names the output file; an empty one is dropped.
pub open spec fn take_stdout(s: ScanState) -> ScanState {
    if s.token.len() > 0 {
        ScanState { stdout_file: Some(s.token), token: Seq::empty(), expect_stdout: false, ..s }
    } else {
        s
    }
}

/// What the end of a word does: it fills a pending redirection, or else
/// goes to the current command.
pub open spec fn end_word(s: ScanState) -> ScanState {
    if s.expect_stdin {
        take_stdin(s)
    } else if s.expect_stdout {
        take_stdout(s)
    } else {
        flush_token(s)
    }
}

/// What a `|` does: the current command, if it has a program, is complete.
pub open spec fn end_command(s: ScanState) -> ScanState {
    let t = flush_token(s);
    if t.current.program.len() > 0 {
        ScanState { commands: t.commands.push(t.current), current: empty_command(), ..t }
    } else {
        t
    }
}

/// Reading one character.
pub open spec fn step(s: ScanState, c: char) -> ScanState {
    let quoted = s.in_single || s.in_double;
    if s.escape_next {
        ScanState { token: s.token.push(c), escape_next: false, ..s }
    } else if c == '\\' && !s.in_single {
        ScanState { escape_next: true, ..s }
    } else if c == '\'' && !s.in_double {
        ScanState { in_single: !s.in_single, ..s }
    } else if c == '"' && !s.in_single {
        ScanState { in_double: !s.in_double, ..s }
    } else if is_blank(c) && !quoted {
        end_word(s)
    } else if c == '|' && !quoted {
        end_command(s)
    } else if c == '<' && !quoted {
        ScanState { expect_stdin: true, ..flush_token(s) }
    } else if c == '>' && !quoted {
        ScanState { expect_stdout: true, ..flush_token(s) }
    } else {
        ScanState { token: s.token.push(c), ..s }
    }
}

/// The state after reading `cs` from the state `s`.
pub open spec fn scan_from(s: ScanState, cs: Seq<char>) -> ScanState
    decreases cs.len(),
{
    if cs.len() == 0 {
        s
    } else {
        step(scan_from(s, cs.drop_last()), cs.last())
    }
}

/// The state after reading `cs` from the start.
pub open spec fn scan(cs: Seq<char>) -> ScanState {
    scan_from(initial_state(), cs)
}

/// The commands at the end of the input: the last word is finished and the
/// current command, if it has a program, is complete.
pub open spec fn final_commands(s: ScanState) -> Seq<CommandView> {
    let t = end_word(s);
    if t.current.program.len() > 0 {
        t.commands.push(t.current)
    } else {
        t.commands
    }
}

/// The pipeline at the end of the input; `None` where it holds no command.
pub open spec fn finish(s: ScanState) -> Option<PipelineView> {
    let t = end_word(s);
    let cmds = final_commands(s);
    if cmds.len() == 0 {
        None
    } else {
        Some(PipelineView { commands: cmds, stdin_file: t.stdin_file, stdout_file: t.stdout_file })
    }
}

/// What `parse` gives for the characters of a command line.
pub open spec fn parse_spec(input: Seq<char>) -> Option<PipelineView> {
    finish(scan(input))
}

/// The executable state of the tokeniser.
struct Scanner {
    commands: Vec<Command>,
    current: Command,
    token: String,
    in_single: bool,
    in_double: bool,
    expect_stdin: bool,
    expect_stdout: bool,
    escape_next: bool,
    stdin_file: Option<String>,
    stdout_file: Option<String>,
}

impl View for Scanner {
    type V = ScanState;

    closed spec fn view(&self) -> ScanState {
        ScanState {
            commands: commands_view(self.commands@),
            current: self.current@,
            token: self.token@,
            in_single: self.in_single,
            in_double: self.in_double,
            expect_stdin: self.expect_stdin,
            expect_stdout: self.expect_stdout,
            escape_next: self.escape_next,
            stdin_file: self.stdin_file.deep_view(),
            stdout_file: self.stdout_file.deep_view(),
        }
    }
}

impl Scanner {
    fn new() -> (s: Scanner)
        ensures
            s@ == initial_state(),
    {
        let s = Scanner {
            commands: Vec::new(),
            current: Command::new(),
            token: String::new(),
            in_single: false,
            in_double: false,
            expect_stdin: false,
            expect_stdout: false,
            escape_next: false,
            stdin_file: None,
            stdout_file: None,
        };
        assert(commands_view(s.commands@) =~= Seq::<CommandView>::empty());
        s
    }

    fn take_token(&mut self) -> (t: String)
        ensures
            t@ == old(self)@.token,
            final(self)@ == (ScanState { token: Seq::empty(), ..old(self)@ }),
    {
        let mut t = String::new();
        std::mem::swap(&mut t, &mut self.token);
        t
    }

    fn flush_token(&mut self)
        ensures
            final(self)@ == flush_token(old(self)@),
    {
        if !self.token.as_str().is_empty() {
            let t = self.take_token();
            if self.current.program.as_str().is_empty() {
                self.current.program = t;
            } else {
                let ghost old_args = self.current.args;
                self.current.args.push(t);
                assert(self.current.args.deep_view() =~= old_args.deep_view().push(t@));
            }
        }
    }

    fn end_word(&mut self)
        ensures
            final(self)@ == end_word(old(self)@),
    {
        if self.expect_stdin {
            if !self.token.as_str().is_empty() {
                let t = self.take_token();
                self.stdin_file = Some(t);
                self.expect_stdin = false;
            }
        } else if self.expect_stdout {
            if !self.token.as_str().is_empty() {
                let t = self.take_token();
                self.stdout_file = Some(t);
                self.expect_stdout = false;
            }
        } else {
            self.flush_token();
        }
    }

    fn end_command(&mut self)
        ensures
            final(self)@ == end_command(old(self)@),
    {
        self.flush_token();
        if !self.current.program.as_str().is_empty() {
            let mut done = Command::new();
            std::mem::swap(&mut done, &mut self.current);
            let ghost old_cmds = self.commands@;
            self.commands.push(done);
            assert(commands_view(self.commands@) =~= commands_view(old_cmds).push(done@));
        }
    }

    fn step(&mut self, c: char)
        ensures
            final(self)@ == step(old(self)@, c),
    {
        let quoted = self.in_single || self.in_double;
        if self.escape_next {
            self.token.push(c);
            self.escape_next = false;
        } else if c == '\\' && !self.in_single {
            self.escape_next = true;
        } else if c == '\'' && !self.in_double {
            self.in_single = !self.in_single;
        } else if c == '"' && !self.in_single {
            self.in_double = !self.in_double;
        } else if (c == ' ' || c == '\t') && !quoted {
            self.end_word();
        } else if c == '|' && !quoted {
            self.end_command();
        } else if c == '<' && !quoted {
            self.flush_token();
            self.expect_stdin = true;
        } else if c == '>' && !quoted {
            self.flush_token();
            self.expect_stdout = true;
        } else {
            self.token.push(c);
        }
    }

    fn finish(self) -> (p: Option<Pipeline>)
        ensures
            option_view(p) == finish(self@),
    {
        let mut s = self;
        s.end_word();
        if !s.current.program.as_str().is_empty() {
            let ghost old_cmds = s.commands@;
            let cur = s.current;
            s.commands.push(cur);
            assert(commands_view(s.commands@) =~= commands_view(old_cmds).push(cur@));
        }
        if s.commands.len() == 0 {
            None
        } else {
            Some(Pipeline { commands: s.commands, stdin_file: s.stdin_file, stdout_file: s.stdout_file })
        }
    }
}

/// The value of an optional pipeline.
pub open spec fn option_view(p: Option<Pipeline>) -> Option<PipelineView> {
    match p {
        Some(p) => Some(p@),
        None => None,
    }
}

/// Splits a command line into a pipeline; `None` where it names no command.
pub fn parse(input: &str) -> (res: Option<Pipeline>)
    ensures
        option_view(res) == parse_spec(input@),
{
    let mut s = Scanner::new();
    for c in it: input.chars()
        invariant
            it.seq() == input@,
            s@ == scan(input@.take(it.index() as int)),
    {
        assert(input@.take(it.index() + 1).drop_last() =~= input@.take(it.index() as int));
        s.step(c);
    }
    assert(input@.take(input@.len() as int) =~= input@);
    s.finish()
}

} // verus!
