use iron_shell::parser::{parse, Command, Pipeline};

fn s(x: &str) -> String {
    x.to_string()
}

fn cmd(program: &str, args: &[&str]) -> Command {
    Command { program: s(program), args: args.iter().map(|a| s(a)).collect() }
}

fn pipe(commands: Vec<Command>, stdin: Option<&str>, stdout: Option<&str>) -> Pipeline {
    Pipeline { commands, stdin_file: stdin.map(s), stdout_file: stdout.map(s) }
}

#[test]
fn parses_program_and_arguments() {
    assert_eq!(parse("ls -la /tmp"), Some(pipe(vec![cmd("ls", &["-la", "/tmp"])], None, None)));
}

#[test]
fn blank_input_is_none() {
    assert_eq!(parse(""), None);
    assert_eq!(parse("   \t  "), None);
}

#[test]
fn tabs_and_repeated_blanks_separate_words() {
    assert_eq!(parse("  echo\t\ta   b  "), Some(pipe(vec![cmd("echo", &["a", "b"])], None, None)));
}

#[test]
fn single_quotes_keep_everything_literal() {
    assert_eq!(
        parse("echo 'a | b < c > d \\ \"e\"'"),
        Some(pipe(vec![cmd("echo", &["a | b < c > d \\ \"e\""])], None, None))
    );
}

#[test]
fn double_quotes_keep_blanks_and_single_quotes() {
    assert_eq!(
        parse("echo \"it's a | test\""),
        Some(pipe(vec![cmd("echo", &["it's a | test"])], None, None))
    );
}

#[test]
fn backslash_escapes_inside_double_quotes() {
    assert_eq!(parse("echo \"a\\\"b\""), Some(pipe(vec![cmd("echo", &["a\"b"])], None, None)));
}

#[test]
fn backslash_escapes_special_characters() {
    assert_eq!(parse("echo a\\ b \\|"), Some(pipe(vec![cmd("echo", &["a b", "|"])], None, None)));
}

#[test]
fn trailing_backslash_is_dropped() {
    assert_eq!(parse("echo a\\"), Some(pipe(vec![cmd("echo", &["a"])], None, None)));
}

#[test]
fn quotes_join_adjacent_text() {
    assert_eq!(parse("a'b c'd"), Some(pipe(vec![cmd("ab cd", &[])], None, None)));
}

#[test]
fn empty_quotes_give_no_word() {
    assert_eq!(parse("echo '' \"\""), Some(pipe(vec![cmd("echo", &[])], None, None)));
}

#[test]
fn pipes_separate_commands() {
    assert_eq!(
        parse("cat f | grep x | wc -l"),
        Some(pipe(vec![cmd("cat", &["f"]), cmd("grep", &["x"]), cmd("wc", &["-l"])], None, None))
    );
}

#[test]
fn pipes_need_no_blanks() {
    assert_eq!(parse("a|b"), Some(pipe(vec![cmd("a", &[]), cmd("b", &[])], None, None)));
}

#[test]
fn empty_commands_between_pipes_are_skipped() {
    assert_eq!(parse("| a || b |"), Some(pipe(vec![cmd("a", &[]), cmd("b", &[])], None, None)));
    assert_eq!(parse("| |"), None);
}

#[test]
fn redirections_name_files() {
    assert_eq!(
        parse("sort < in.txt > out.txt"),
        Some(pipe(vec![cmd("sort", &[])], Some("in.txt"), Some("out.txt")))
    );
}

#[test]
fn a_redirection_ends_only_at_a_blank() {
    // `>` ends the pending word as an argument, and the last word fills the
    // `<` still waiting for its file.
    assert_eq!(parse("sort<in>out"), Some(pipe(vec![cmd("sort", &["in"])], Some("out"), None)));
    assert_eq!(parse("sort<in >out"), Some(pipe(vec![cmd("sort", &[])], Some("in"), Some("out"))));
}

#[test]
fn words_after_a_redirection_go_back_to_the_command() {
    assert_eq!(
        parse("cat < in extra"),
        Some(pipe(vec![cmd("cat", &["extra"])], Some("in"), None))
    );
}

#[test]
fn redirection_without_file_names_none() {
    assert_eq!(parse("cat <"), Some(pipe(vec![cmd("cat", &[])], None, None)));
}

#[test]
fn a_redirection_alone_is_no_command() {
    assert_eq!(parse("> out"), None);
}

#[test]
fn quoted_file_names_keep_blanks() {
    assert_eq!(
        parse("cat > 'my file'"),
        Some(pipe(vec![cmd("cat", &[])], None, Some("my file")))
    );
}

#[test]
fn unicode_text_is_kept() {
    assert_eq!(parse("echo héllo ❯"), Some(pipe(vec![cmd("echo", &["héllo", "❯"])], None, None)));
}

#[test]
fn default_pipeline_is_empty() {
    assert_eq!(Pipeline::default(), pipe(vec![], None, None));
}

#[test]
fn law_words_nonempty_on_examples() {
    for line in ["a '' b", "x | | y", "< f", "a\\", "'' | ''", "p >"] {
        if let Some(p) = parse(line) {
            assert!(!p.commands.is_empty());
            for c in &p.commands {
                assert!(!c.program.is_empty());
                assert!(c.args.iter().all(|a| !a.is_empty()));
            }
            assert!(p.stdin_file.as_ref().map_or(true, |f| !f.is_empty()));
            assert!(p.stdout_file.as_ref().map_or(true, |f| !f.is_empty()));
        }
    }
}

#[test]
fn law_single_and_double_quotes_on_example() {
    assert_eq!(parse("'a b|c'"), Some(pipe(vec![cmd("a b|c", &[])], None, None)));
    assert_eq!(parse("\"a b'c\""), Some(pipe(vec![cmd("a b'c", &[])], None, None)));
}

#[test]
fn law_redirections_on_example() {
    assert_eq!(
        parse("grep -v x < a > b"),
        Some(pipe(vec![cmd("grep", &["-v", "x"])], Some("a"), Some("b")))
    );
}

#[test]
fn law_backslash_on_examples() {
    for c in ["|", "<", ">", " ", "'", "\"", "\\", "x"] {
        let line = format!("\\{}", c);
        assert_eq!(parse(&line), Some(pipe(vec![cmd(c, &[])], None, None)));
    }
}

#[test]
fn law_words_split_on_blanks_on_examples() {
    for line in ["\t a \t\tb  c\t", "a", "  ", "x\ny z", "é  ❯\tq"] {
        let words: Vec<String> = line
            .split(|c| c == ' ' || c == '\t')
            .filter(|t| !t.is_empty())
            .map(String::from)
            .collect();
        let expected = if words.is_empty() {
            None
        } else {
            Some(Pipeline {
                commands: vec![Command { program: words[0].clone(), args: words[1..].to_vec() }],
                stdin_file: None,
                stdout_file: None,
            })
        };
        assert_eq!(parse(line), expected);
    }
}
