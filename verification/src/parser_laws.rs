//! What holds of every command line that `parse` reads.
use vstd::prelude::*;
use crate::parser::{
    CommandView, PipelineView, ScanState, initial_state, scan, scan_from, step, flush_token,
    end_word, end_command, final_commands, parse_spec, is_special, empty_command, is_blank,
};

verus! {

/// Every word the tokeniser has produced so far is non-empty, and a command
/// without a program has no arguments either.
pub open spec fn words_nonempty(s: ScanState) -> bool {
    &&& forall|i: int| 0 <= i < s.commands.len() ==> command_well_formed(#[trigger] s.commands[i])
    &&& (s.current.program.len() == 0 ==> s.current.args.len() == 0)
    &&& forall|j: int| 0 <= j < s.current.args.len() ==> (#[trigger] s.current.args[j]).len() > 0
    &&& (s.stdin_file matches Some(f) ==> f.len() > 0)
    &&& (s.stdout_file matches Some(f) ==> f.len() > 0)
}

/// A command with a program, and no empty argument.
pub open spec fn command_well_formed(c: CommandView) -> bool {
    &&& c.program.len() > 0
    &&& forall|j: int| 0 <= j < c.args.len() ==> (#[trigger] c.args[j]).len() > 0
}

/// A pipeline as `parse` gives it: at least one command, every program and
/// argument non-empty, and the redirection files non-empty.
pub open spec fn pipeline_well_formed(p: PipelineView) -> bool {
    &&& p.commands.len() > 0
    &&& forall|i: int| 0 <= i < p.commands.len() ==> command_well_formed(#[trigger] p.commands[i])
    &&& (p.stdin_file matches Some(f) ==> f.len() > 0)
    &&& (p.stdout_file matches Some(f) ==> f.len() > 0)
}

proof fn lemma_flush_keeps(s: ScanState)
    requires
        words_nonempty(s),
    ensures
        words_nonempty(flush_token(s)),
{
    let t = flush_token(s);
    if s.token.len() > 0 && s.current.program.len() > 0 {
        assert forall|j: int| 0 <= j < t.current.args.len() implies (#[trigger] t.current.args[j]).len() > 0 by {
            if j < s.current.args.len() {
                assert(t.current.args[j] == s.current.args[j]);
            }
        }
    }
}

proof fn lemma_step_keeps(s: ScanState, c: char)
    requires
        words_nonempty(s),
    ensures
        words_nonempty(step(s, c)),
{
    lemma_flush_keeps(s);
    let t = flush_token(s);
    if t.current.program.len() > 0 {
        let u = end_command(s);
        assert forall|i: int| 0 <= i < u.commands.len() implies command_well_formed(#[trigger] u.commands[i]) by {
            if i < t.commands.len() {
                assert(u.commands[i] == t.commands[i]);
            }
        }
    }
}

proof fn lemma_scan_keeps(s: ScanState, cs: Seq<char>)
    requires
        words_nonempty(s),
    ensures
        words_nonempty(scan_from(s, cs)),
    decreases cs.len(),
{
    if cs.len() > 0 {
        lemma_scan_keeps(s, cs.drop_last());
        lemma_step_keeps(scan_from(s, cs.drop_last()), cs.last());
    }
}

/// Whatever the input, a pipeline that `parse` returns has at least one
/// command, every program, argument and redirection file in it is
/// non-empty: empty words never reach the result.
pub proof fn law_parsed_words_nonempty(input: Seq<char>)
    ensures
        parse_spec(input) matches Some(p) ==> pipeline_well_formed(p),
{
    lemma_scan_keeps(initial_state(), input);
    let s = scan(input);
    lemma_flush_keeps(s);
    let t = end_word(s);
    let cmds = final_commands(s);
    if let Some(p) = parse_spec(input) {
        assert forall|i: int| 0 <= i < p.commands.len() implies command_well_formed(#[trigger] p.commands[i]) by {
            if i < t.commands.len() {
                assert(cmds[i] == t.commands[i]);
            }
        }
    }
}

/// Reading `a` then `b` is reading `a + b`.
pub proof fn lemma_scan_concat(s: ScanState, a: Seq<char>, b: Seq<char>)
    ensures
        scan_from(s, a + b) == scan_from(scan_from(s, a), b),
    decreases b.len(),
{
    if b.len() == 0 {
        assert(a + b =~= a);
    } else {
        lemma_scan_concat(s, a, b.drop_last());
        assert((a + b).drop_last() =~= a + b.drop_last());
        assert((a + b).last() == b.last());
    }
}

/// A word of ordinary characters: non-empty, and none of them special.
pub open spec fn is_plain_word(w: Seq<char>) -> bool {
    w.len() > 0 && forall|i: int| 0 <= i < w.len() ==> !is_special(#[trigger] w[i])
}

/// Ordinary characters are appended to the current word.
proof fn lemma_plain_chars(s: ScanState, w: Seq<char>)
    requires
        !s.escape_next,
        forall|i: int| 0 <= i < w.len() ==> !is_special(#[trigger] w[i]),
    ensures
        scan_from(s, w) == (ScanState { token: s.token + w, ..s }),
    decreases w.len(),
{
    if w.len() == 0 {
        assert(s.token + w =~= s.token);
    } else {
        let v = w.drop_last();
        assert forall|i: int| 0 <= i < v.len() implies !is_special(#[trigger] v[i]) by {
            assert(v[i] == w[i]);
        }
        lemma_plain_chars(s, v);
        assert(!is_special(w[w.len() - 1]));
        assert((s.token + v).push(w.last()) =~= s.token + w);
    }
}

/// Characters other than `'` are appended to the word inside single quotes.
proof fn lemma_single_quoted(s: ScanState, w: Seq<char>)
    requires
        s.in_single,
        !s.escape_next,
        forall|i: int| 0 <= i < w.len() ==> #[trigger] w[i] != '\'',
    ensures
        scan_from(s, w) == (ScanState { token: s.token + w, ..s }),
    decreases w.len(),
{
    if w.len() == 0 {
        assert(s.token + w =~= s.token);
    } else {
        let v = w.drop_last();
        assert forall|i: int| 0 <= i < v.len() implies #[trigger] v[i] != '\'' by {
            assert(v[i] == w[i]);
        }
        lemma_single_quoted(s, v);
        assert(w[w.len() - 1] != '\'');
        assert((s.token + v).push(w.last()) =~= s.token + w);
    }
}

/// Characters other than `"` and `\` are appended to the word inside
/// double quotes.
proof fn lemma_double_quoted(s: ScanState, w: Seq<char>)
    requires
        s.in_double,
        !s.in_single,
        !s.escape_next,
        forall|i: int| 0 <= i < w.len() ==> #[trigger] w[i] != '"' && w[i] != '\\',
    ensures
        scan_from(s, w) == (ScanState { token: s.token + w, ..s }),
    decreases w.len(),
{
    if w.len() == 0 {
        assert(s.token + w =~= s.token);
    } else {
        let v = w.drop_last();
        assert forall|i: int| 0 <= i < v.len() implies #[trigger] v[i] != '"' && v[i] != '\\' by {
            assert(v[i] == w[i]);
        }
        lemma_double_quoted(s, v);
        assert(w[w.len() - 1] != '"' && w[w.len() - 1] != '\\');
        assert((s.token + v).push(w.last()) =~= s.token + w);
    }
}

/// The one-word command line `'t'` is the command `t`.
pub open spec fn single_word_pipeline(t: Seq<char>) -> PipelineView {
    PipelineView {
        commands: seq![CommandView { program: t, args: Seq::empty() }],
        stdin_file: None,
        stdout_file: None,
    }
}

/// Between single quotes every character but `'` is taken literally: blanks,
/// backslashes, double quotes, `|`, `<` and `>` included.
pub proof fn law_single_quotes_literal(t: Seq<char>)
    requires
        t.len() > 0,
        forall|i: int| 0 <= i < t.len() ==> #[trigger] t[i] != '\'',
    ensures
        parse_spec(seq!['\''] + t + seq!['\'']) == Some(single_word_pipeline(t)),
{
    let q = seq!['\''];
    let s0 = initial_state();
    assert(scan_from(s0, q) == step(scan_from(s0, q.drop_last()), '\'')) by {
        assert(q.drop_last() =~= Seq::<char>::empty());
    }
    let s1 = scan_from(s0, q);
    lemma_single_quoted(s1, t);
    lemma_scan_concat(s0, q, t);
    let s2 = scan_from(s0, q + t);
    assert(s2.token =~= t);
    assert(scan_from(s2, q) == step(scan_from(s2, q.drop_last()), '\'')) by {
        assert(q.drop_last() =~= Seq::<char>::empty());
    }
    lemma_scan_concat(s0, q + t, q);
    assert(parse_spec(q + t + q).unwrap().commands =~= single_word_pipeline(t).commands);
}

/// Between double quotes every character but `"` and `\` is taken
/// literally: blanks, single quotes, `|`, `<` and `>` included.
pub proof fn law_double_quotes_literal(t: Seq<char>)
    requires
        t.len() > 0,
        forall|i: int| 0 <= i < t.len() ==> #[trigger] t[i] != '"' && t[i] != '\\',
    ensures
        parse_spec(seq!['"'] + t + seq!['"']) == Some(single_word_pipeline(t)),
{
    let q = seq!['"'];
    let s0 = initial_state();
    assert(scan_from(s0, q) == step(scan_from(s0, q.drop_last()), '"')) by {
        assert(q.drop_last() =~= Seq::<char>::empty());
    }
    let s1 = scan_from(s0, q);
    lemma_double_quoted(s1, t);
    lemma_scan_concat(s0, q, t);
    let s2 = scan_from(s0, q + t);
    assert(s2.token =~= t);
    assert(scan_from(s2, q) == step(scan_from(s2, q.drop_last()), '"')) by {
        assert(q.drop_last() =~= Seq::<char>::empty());
    }
    lemma_scan_concat(s0, q + t, q);
    assert(parse_spec(q + t + q).unwrap().commands =~= single_word_pipeline(t).commands);
}


/// Reading three characters is three steps.
proof fn lemma_scan3(s: ScanState, a: char, b: char, c: char)
    ensures
        scan_from(s, seq![a, b, c]) == step(step(step(s, a), b), c),
{
    let w = seq![a, b, c];
    assert(w.drop_last() =~= seq![a, b]);
    assert(w.drop_last().drop_last() =~= seq![a]);
    assert(seq![a].drop_last() =~= Seq::<char>::empty());
    assert(scan_from(s, Seq::<char>::empty()) == s);
    assert(seq![a].last() == a);
    assert(seq![a, b].drop_last() =~= seq![a]);
    assert(scan_from(s, seq![a]) == step(s, a));
    assert(scan_from(s, seq![a, b]) == step(step(s, a), b));
}

/// Words joined by single spaces.
pub open spec fn join_words(ws: Seq<Seq<char>>) -> Seq<char>
    decreases ws.len(),
{
    if ws.len() == 0 {
        Seq::empty()
    } else if ws.len() == 1 {
        ws[0]
    } else {
        join_words(ws.drop_last()) + seq![' '] + ws.last()
    }
}

/// Every word of `ws` is plain.
pub open spec fn all_plain(ws: Seq<Seq<char>>) -> bool {
    forall|i: int| 0 <= i < ws.len() ==> is_plain_word(#[trigger] ws[i])
}

/// The command whose program is the first word and whose arguments are the
/// others.
pub open spec fn command_of(ws: Seq<Seq<char>>) -> CommandView {
    CommandView { program: ws[0], args: ws.drop_first() }
}

/// The command read so far when the last word of `ws` is still open.
pub open spec fn partial_command(ws: Seq<Seq<char>>) -> CommandView {
    if ws.len() <= 1 {
        empty_command()
    } else {
        CommandView { program: ws[0], args: ws.subrange(1, ws.len() - 1) }
    }
}

/// The tokeniser outside quotes, escapes and redirections, between words.
pub open spec fn between_words(s: ScanState) -> bool {
    &&& !s.in_single
    &&& !s.in_double
    &&& !s.escape_next
    &&& !s.expect_stdin
    &&& !s.expect_stdout
    &&& s.token.len() == 0
    &&& s.current == empty_command()
}

proof fn lemma_words(s: ScanState, ws: Seq<Seq<char>>)
    requires
        between_words(s),
        ws.len() > 0,
        all_plain(ws),
    ensures
        scan_from(s, join_words(ws)) == (ScanState {
            current: partial_command(ws),
            token: ws.last(),
            ..s
        }),
    decreases ws.len(),
{
    if ws.len() == 1 {
        lemma_plain_chars(s, ws[0]);
        assert(s.token + ws[0] =~= ws[0]);
    } else {
        let v = ws.drop_last();
        assert forall|i: int| 0 <= i < v.len() implies is_plain_word(#[trigger] v[i]) by {
            assert(v[i] == ws[i]);
        }
        lemma_words(s, v);
        let a = scan_from(s, join_words(v));
        let sp = seq![' '];
        lemma_scan_concat(s, join_words(v), sp);
        assert(scan_from(a, sp) == step(scan_from(a, sp.drop_last()), ' ')) by {
            assert(sp.drop_last() =~= Seq::<char>::empty());
        }
        let b = scan_from(a, sp);
        assert(is_plain_word(v.last()));
        if v.len() == 1 {
            assert(b.current == partial_command(ws)) by {
                assert(ws.subrange(1, ws.len() - 1) =~= Seq::<Seq<char>>::empty());
            }
        } else {
            assert(b.current == partial_command(ws)) by {
                assert(v.subrange(1, v.len() - 1).push(v.last()) =~= ws.subrange(1, ws.len() - 1));
            }
        }
        assert(is_plain_word(ws.last()));
        lemma_plain_chars(b, ws.last());
        assert(b.token + ws.last() =~= ws.last());
        lemma_scan_concat(s, join_words(v) + sp, ws.last());
    }
}

/// The state after a plain command line, once its last word is finished.
proof fn lemma_words_finished(s: ScanState, ws: Seq<Seq<char>>)
    requires
        between_words(s),
        ws.len() > 0,
        all_plain(ws),
    ensures
        flush_token(scan_from(s, join_words(ws))) == (ScanState {
            current: command_of(ws),
            token: Seq::empty(),
            ..s
        }),
{
    lemma_words(s, ws);
    assert(is_plain_word(ws.last()));
    assert(is_plain_word(ws[0]));
    if ws.len() == 1 {
        assert(ws.drop_first() =~= Seq::<Seq<char>>::empty());
    } else {
        assert(ws.subrange(1, ws.len() - 1).push(ws.last()) =~= ws.drop_first());
    }
}

/// The one-command pipeline of the words `ws`.
pub open spec fn words_pipeline(ws: Seq<Seq<char>>) -> PipelineView {
    PipelineView { commands: seq![command_of(ws)], stdin_file: None, stdout_file: None }
}

/// A command line of plain words separated by single spaces is one command:
/// the first word is the program, the others are its arguments in order.
pub proof fn law_joined_words_form_one_command(ws: Seq<Seq<char>>)
    requires
        ws.len() > 0,
        all_plain(ws),
    ensures
        parse_spec(join_words(ws)) == Some(words_pipeline(ws)),
{
    lemma_words_finished(initial_state(), ws);
    assert(is_plain_word(ws[0]));
    assert(final_commands(scan(join_words(ws))) =~= seq![command_of(ws)]);
}

/// Commands of plain words joined by ` | `.
pub open spec fn join_pipeline(cs: Seq<Seq<Seq<char>>>) -> Seq<char>
    decreases cs.len(),
{
    if cs.len() == 0 {
        Seq::empty()
    } else if cs.len() == 1 {
        join_words(cs[0])
    } else {
        join_pipeline(cs.drop_last()) + seq![' ', '|', ' '] + join_words(cs.last())
    }
}

/// Every command of `cs` is a non-empty list of plain words.
pub open spec fn all_plain_commands(cs: Seq<Seq<Seq<char>>>) -> bool {
    forall|i: int| 0 <= i < cs.len() ==> (#[trigger] cs[i]).len() > 0 && all_plain(cs[i])
}

/// The commands of `cs`, in order.
pub open spec fn commands_of(cs: Seq<Seq<Seq<char>>>) -> Seq<CommandView> {
    cs.map_values(|ws: Seq<Seq<char>>| command_of(ws))
}

proof fn lemma_pipeline(cs: Seq<Seq<Seq<char>>>)
    requires
        cs.len() > 0,
        all_plain_commands(cs),
    ensures
        scan(join_pipeline(cs)) == (ScanState {
            commands: commands_of(cs.drop_last()),
            current: partial_command(cs.last()),
            token: cs.last().last(),
            ..initial_state()
        }),
    decreases cs.len(),
{
    assert(cs.last().len() > 0 && all_plain(cs.last()));
    if cs.len() == 1 {
        lemma_words(initial_state(), cs[0]);
        assert(commands_of(cs.drop_last()) =~= Seq::<CommandView>::empty());
    } else {
        let v = cs.drop_last();
        assert forall|i: int| 0 <= i < v.len() implies (#[trigger] v[i]).len() > 0 && all_plain(v[i]) by {
            assert(v[i] == cs[i]);
        }
        lemma_pipeline(v);
        assert(v.last().len() > 0 && all_plain(v.last()));
        let a = scan(join_pipeline(v));
        let bar = seq![' ', '|', ' '];
        lemma_scan_concat(initial_state(), join_pipeline(v), bar);
        // ` | ` finishes the last word, completes the command and starts a new one.
        let s0 = ScanState { commands: commands_of(v.drop_last()), ..initial_state() };
        lemma_words_finished(s0, v.last());
        lemma_words(s0, v.last());
        assert(scan_from(s0, join_words(v.last())) == a);
        lemma_scan3(a, ' ', '|', ' ');
        let b = scan_from(a, bar);
        assert(commands_of(v.drop_last()).push(command_of(v.last())) =~= commands_of(cs.drop_last()));
        assert(b == ScanState { commands: commands_of(cs.drop_last()), ..initial_state() });
        lemma_words(b, cs.last());
        lemma_scan_concat(initial_state(), join_pipeline(v) + bar, join_words(cs.last()));
    }
}

/// A command line of plain words and ` | ` is the pipeline of those
/// commands, in order, with no redirection.
pub proof fn law_pipes_split_commands(cs: Seq<Seq<Seq<char>>>)
    requires
        cs.len() > 0,
        all_plain_commands(cs),
    ensures
        parse_spec(join_pipeline(cs)) == Some(PipelineView {
            commands: commands_of(cs),
            stdin_file: None,
            stdout_file: None,
        }),
{
    lemma_pipeline(cs);
    assert(cs.last().len() > 0 && all_plain(cs.last()));
    let s0 = ScanState { commands: commands_of(cs.drop_last()), ..initial_state() };
    lemma_words_finished(s0, cs.last());
    lemma_words(s0, cs.last());
    assert(is_plain_word(cs.last()[0]));
    assert(commands_of(cs.drop_last()).push(command_of(cs.last())) =~= commands_of(cs));
}

/// `words < f > g`: the input and output files are named and take no part
/// in the command.
pub proof fn law_redirections_name_files(ws: Seq<Seq<char>>, f: Seq<char>, g: Seq<char>)
    requires
        ws.len() > 0,
        all_plain(ws),
        is_plain_word(f),
        is_plain_word(g),
    ensures
        parse_spec(join_words(ws) + seq![' ', '<', ' '] + f + seq![' ', '>', ' '] + g) == Some(
            PipelineView { commands: seq![command_of(ws)], stdin_file: Some(f), stdout_file: Some(g) },
        ),
{
    let s0 = initial_state();
    let lt = seq![' ', '<', ' '];
    let gt = seq![' ', '>', ' '];
    lemma_words_finished(s0, ws);
    lemma_words(s0, ws);
    assert(is_plain_word(ws[0]));
    let a = scan(join_words(ws));
    lemma_scan3(a, ' ', '<', ' ');
    let b = scan_from(a, lt);
    assert(b == ScanState { current: command_of(ws), expect_stdin: true, ..s0 });
    lemma_plain_chars(b, f);
    let c = scan_from(b, f);
    assert(c.token =~= f);
    lemma_scan3(c, ' ', '>', ' ');
    let d = scan_from(c, gt);
    assert(d == ScanState { current: command_of(ws), stdin_file: Some(f), expect_stdout: true, ..s0 });
    lemma_plain_chars(d, g);
    let e = scan_from(d, g);
    assert(e.token =~= g);
    lemma_scan_concat(s0, join_words(ws), lt);
    lemma_scan_concat(s0, join_words(ws) + lt, f);
    lemma_scan_concat(s0, join_words(ws) + lt + f, gt);
    lemma_scan_concat(s0, join_words(ws) + lt + f + gt, g);
    assert(final_commands(e) =~= seq![command_of(ws)]);
}


/// A backslash outside quotes makes the next character an ordinary one,
/// whatever it is: a blank, a quote, `|`, `<`, `>` or a backslash.
pub proof fn law_backslash_escapes(c: char)
    ensures
        parse_spec(seq!['\\', c]) == Some(single_word_pipeline(seq![c])),
{
    let w = seq!['\\', c];
    assert(w.drop_last() =~= seq!['\\']);
    assert(seq!['\\'].drop_last() =~= Seq::<char>::empty());
    assert(scan_from(initial_state(), Seq::<char>::empty()) == initial_state());
    assert(scan(seq!['\\']) == step(initial_state(), '\\'));
    let s = scan(w);
    assert(s.token =~= seq![c]);
    assert(parse_spec(w).unwrap().commands =~= single_word_pipeline(seq![c]).commands);
}


/// A character that is neither a quote, a backslash, `|`, `<` nor `>`.
pub open spec fn unquoted_char(c: char) -> bool {
    c != '\\' && c != '\'' && c != '"' && c != '|' && c != '<' && c != '>'
}

/// Splitting `s` on blanks: the words finished so far and the word being
/// read at the end of `s`.
pub open spec fn split_blanks(s: Seq<char>) -> (Seq<Seq<char>>, Seq<char>)
    decreases s.len(),
{
    if s.len() == 0 {
        (Seq::empty(), Seq::empty())
    } else {
        let (done, word) = split_blanks(s.drop_last());
        if is_blank(s.last()) {
            if word.len() > 0 {
                (done.push(word), Seq::empty())
            } else {
                (done, Seq::empty())
            }
        } else {
            (done, word.push(s.last()))
        }
    }
}

/// The non-empty words of `s` between spaces and tabs, in order: what
/// `s.split(|c| c == ' ' || c == '\t')` gives once the empty pieces are
/// dropped.
pub open spec fn blank_words(s: Seq<char>) -> Seq<Seq<char>> {
    let (done, word) = split_blanks(s);
    if word.len() > 0 {
        done.push(word)
    } else {
        done
    }
}

/// The command of the words `ws` as far as the tokeniser has placed them:
/// none yet, or the first as program and the others as arguments.
pub open spec fn command_so_far(ws: Seq<Seq<char>>) -> CommandView {
    if ws.len() == 0 {
        empty_command()
    } else {
        command_of(ws)
    }
}

/// Every word of `ws` is non-empty.
pub open spec fn all_nonempty(ws: Seq<Seq<char>>) -> bool {
    forall|i: int| 0 <= i < ws.len() ==> (#[trigger] ws[i]).len() > 0
}

proof fn lemma_scan_unquoted(s: Seq<char>)
    requires
        forall|i: int| 0 <= i < s.len() ==> unquoted_char(#[trigger] s[i]),
    ensures
        all_nonempty(split_blanks(s).0),
        scan(s) == (ScanState {
            current: command_so_far(split_blanks(s).0),
            token: split_blanks(s).1,
            ..initial_state()
        }),
    decreases s.len(),
{
    if s.len() > 0 {
        let t = s.drop_last();
        assert forall|i: int| 0 <= i < t.len() implies unquoted_char(#[trigger] t[i]) by {
            assert(t[i] == s[i]);
        }
        lemma_scan_unquoted(t);
        let (done, word) = split_blanks(t);
        let c = s.last();
        assert(unquoted_char(s[s.len() - 1]));
        if is_blank(c) {
            if word.len() > 0 {
                assert forall|i: int| 0 <= i < done.push(word).len() implies (#[trigger] done.push(word)[i]).len() > 0 by {
                    if i < done.len() {
                        assert(done.push(word)[i] == done[i]);
                    }
                }
                if done.len() > 0 {
                    assert(done.drop_first().push(word) =~= done.push(word).drop_first());
                } else {
                    assert(done.push(word).drop_first() =~= Seq::<Seq<char>>::empty());
                }
            }
        }
    }
}

/// A command line without quotes, backslashes, `|`, `<` or `>` is split on
/// spaces and tabs, and on nothing else: its non-empty words make one
/// command, the first the program and the others its arguments, with no
/// redirection; a line with no word gives `None`.
pub proof fn law_words_split_on_blanks(line: Seq<char>)
    requires
        forall|i: int| 0 <= i < line.len() ==> unquoted_char(#[trigger] line[i]),
    ensures
        parse_spec(line) == if blank_words(line).len() == 0 {
            None
        } else {
            Some(words_pipeline(blank_words(line)))
        },
{
    lemma_scan_unquoted(line);
    let (done, word) = split_blanks(line);
    let ws = blank_words(line);
    assert(all_nonempty(ws)) by {
        if word.len() > 0 {
            assert forall|i: int| 0 <= i < ws.len() implies (#[trigger] ws[i]).len() > 0 by {
                if i < done.len() {
                    assert(ws[i] == done[i]);
                }
            }
        }
    }
    if word.len() > 0 {
        if done.len() > 0 {
            assert(done.drop_first().push(word) =~= ws.drop_first());
        } else {
            assert(ws.drop_first() =~= Seq::<Seq<char>>::empty());
        }
    }
    if ws.len() > 0 {
        assert(ws[0].len() > 0);
        assert(final_commands(scan(line)) =~= seq![command_of(ws)]);
    } else {
        assert(final_commands(scan(line)) =~= Seq::<CommandView>::empty());
    }
}


/// `words > g`: the output goes to the file `g`, the input is left alone,
/// and the file takes no part in the command, however many arguments it has.
pub proof fn law_output_redirection_names_file(ws: Seq<Seq<char>>, g: Seq<char>)
    requires
        ws.len() > 0,
        all_plain(ws),
        is_plain_word(g),
    ensures
        parse_spec(join_words(ws) + seq![' ', '>', ' '] + g) == Some(
            PipelineView { commands: seq![command_of(ws)], stdin_file: None, stdout_file: Some(g) },
        ),
{
    let s0 = initial_state();
    let gt = seq![' ', '>', ' '];
    lemma_words_finished(s0, ws);
    lemma_words(s0, ws);
    assert(is_plain_word(ws[0]));
    let a = scan(join_words(ws));
    lemma_scan3(a, ' ', '>', ' ');
    let b = scan_from(a, gt);
    assert(b == ScanState { current: command_of(ws), expect_stdout: true, ..s0 });
    lemma_plain_chars(b, g);
    let e = scan_from(b, g);
    assert(e.token =~= g);
    lemma_scan_concat(s0, join_words(ws), gt);
    lemma_scan_concat(s0, join_words(ws) + gt, g);
    assert(final_commands(e) =~= seq![command_of(ws)]);
}

/// `words < f`: the input comes from the file `f`, the output is left
/// alone, and the file takes no part in the command.
pub proof fn law_input_redirection_names_file(ws: Seq<Seq<char>>, f: Seq<char>)
    requires
        ws.len() > 0,
        all_plain(ws),
        is_plain_word(f),
    ensures
        parse_spec(join_words(ws) + seq![' ', '<', ' '] + f) == Some(
            PipelineView { commands: seq![command_of(ws)], stdin_file: Some(f), stdout_file: None },
        ),
{
    let s0 = initial_state();
    let lt = seq![' ', '<', ' '];
    lemma_words_finished(s0, ws);
    lemma_words(s0, ws);
    assert(is_plain_word(ws[0]));
    let a = scan(join_words(ws));
    lemma_scan3(a, ' ', '<', ' ');
    let b = scan_from(a, lt);
    assert(b == ScanState { current: command_of(ws), expect_stdin: true, ..s0 });
    lemma_plain_chars(b, f);
    let e = scan_from(b, f);
    assert(e.token =~= f);
    lemma_scan_concat(s0, join_words(ws), lt);
    lemma_scan_concat(s0, join_words(ws) + lt, f);
    assert(final_commands(e) =~= seq![command_of(ws)]);
}

} // verus!
