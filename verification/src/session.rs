//! The shell's session: what it has shown so far, the folder shown in the
//! prompt, and what happens to a line the user submits.
use vstd::prelude::*;
use crate::parser::{Pipeline, parse, parse_spec, option_view};
use crate::text::{trim, trim_spec, starts_with};

verus! {

/// How an entry of the history is shown.
#[derive(Debug, Clone, Copy, PartialEq, Eq, Structural)]
pub enum Tone {
    /// Output of commands and the welcome screen.
    Output,
    /// The echo of a submitted line.
    Prompt,
}

/// What the shell has shown so far, oldest first. It never holds an empty
/// text.
pub struct History {
    entries: Vec<(String, Tone)>,
}

impl View for History {
    type V = Seq<(Seq<char>, Tone)>;

    closed spec fn view(&self) -> Seq<(Seq<char>, Tone)> {
        self.entries@.map_values(|e: (String, Tone)| (e.0@, e.1))
    }
}

impl History {
    #[verifier::type_invariant]
    closed spec fn no_empty_entry(self) -> bool {
        forall|i: int| 0 <= i < self.entries@.len() ==> (#[trigger] self.entries@[i]).0@.len() > 0
    }

    /// An empty history.
    pub fn new() -> (h: History)
        ensures
            h@ == Seq::<(Seq<char>, Tone)>::empty(),
    {
        let h = History { entries: Vec::new() };
        assert(h@ =~= Seq::<(Seq<char>, Tone)>::empty());
        h
    }

    /// Records `text` in the given tone; empty text is not recorded.
    pub fn push_output(&mut self, text: String, tone: Tone)
        ensures
            text@.len() == 0 ==> final(self)@ == old(self)@,
            text@.len() > 0 ==> final(self)@ == old(self)@.push((text@, tone)),
    {
        proof {
            use_type_invariant(&*self);
        }
        if !text.as_str().is_empty() {
            let ghost before = self.entries@;
            let ghost t = text@;
            let mut entries = Vec::new();
            std::mem::swap(&mut entries, &mut self.entries);
            entries.push((text, tone));
            assert(forall|i: int| 0 <= i < entries@.len() ==> (#[trigger] entries@[i]).0@.len() > 0) by {
                assert forall|i: int| 0 <= i < entries@.len() implies (#[trigger] entries@[i]).0@.len() > 0 by {
                    if i < before.len() {
                        assert(entries@[i] == before[i]);
                    }
                }
            }
            self.entries = entries;
            assert(self@ =~= old(self)@.push((t, tone)));
        }
    }

    /// The number of entries.
    pub fn len(&self) -> (n: usize)
        ensures
            n == self@.len(),
    {
        self.entries.len()
    }

    /// Entry `i`: its text, never empty, and its tone.
    pub fn entry(&self, i: usize) -> (e: (&String, Tone))
        requires
            i < self@.len(),
        ensures
            e.0@ == self@[i as int].0,
            e.1 == self@[i as int].1,
            e.0@.len() > 0,
    {
        proof {
            use_type_invariant(self);
        }
        let (t, tone) = &self.entries[i];
        (t, *tone)
    }
}

/// The folder shown in the prompt: with the home folder's path at its start
/// replaced by `~`.
pub open spec fn display_dir_spec(cwd: Seq<char>, home: Option<Seq<char>>) -> Seq<char> {
    match home {
        Some(h) => if h.len() <= cwd.len() && cwd.take(h.len() as int) == h {
            "~"@ + cwd.skip(h.len() as int)
        } else {
            cwd
        },
        None => cwd,
    }
}

/// The folder `cwd` as the prompt shows it; `home` is the home folder, if
/// it is known.
pub fn display_dir(cwd: &str, home: Option<String>) -> (d: String)
    ensures
        d@ == display_dir_spec(cwd@, home.deep_view()),
{
    match home {
        Some(h) => {
            if starts_with(cwd, h.as_str()) {
                let n = cwd.unicode_len();
                let m = h.as_str().unicode_len();
                let mut d = String::from_str("~");
                d.append(cwd.substring_char(m, n));
                assert(cwd@.subrange(m as int, n as int) =~= cwd@.skip(m as int));
                d
            } else {
                String::from_str(cwd)
            }
        },
        None => String::from_str(cwd),
    }
}

/// The echo of a submitted command line under the folder it ran in.
pub open spec fn echo_line(dir: Seq<char>, line: Seq<char>) -> Seq<char> {
    dir + " \n❯ "@ + line
}

/// A line the user submits, trimmed: a blank line is dropped; any other is
/// echoed under the folder `dir` into the history and parsed.
pub fn submit_line(history: &mut History, line: &str, dir: &str) -> (res: Option<Pipeline>)
    ensures
        trim_spec(line@).len() == 0 ==> final(history)@ == old(history)@ && res is None,
        trim_spec(line@).len() > 0 ==> final(history)@ == old(history)@.push(
            (echo_line(dir@, trim_spec(line@)), Tone::Prompt),
        ) && option_view(res) == parse_spec(trim_spec(line@)),
{
    let input = trim(line);
    if input.as_str().is_empty() {
        return None;
    }
    let mut echo = String::from_str(dir);
    echo.append(" \n❯ ");
    echo.append(input.as_str());
    proof {
        reveal_strlit(" \n❯ ");
    }
    history.push_output(echo, Tone::Prompt);
    parse(input.as_str())
}

/// Records what a command printed; the answer is whether the shell goes on.
pub fn record_result(history: &mut History, result: (bool, String)) -> (go_on: bool)
    ensures
        go_on == result.0,
        result.1@.len() == 0 ==> final(history)@ == old(history)@,
        result.1@.len() > 0 ==> final(history)@ == old(history)@.push((result.1@, Tone::Output)),
{
    let (go_on, output) = result;
    history.push_output(output, Tone::Output);
    go_on
}

} // verus!
