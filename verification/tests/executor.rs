use iron_shell::executor::{
    builtin_named, collect_output, plan_execution, spawn_failed, Builtin, Plan, Stage, StdinSource,
    StdoutTarget,
};
use iron_shell::parser::parse;

fn s(x: &str) -> String {
    x.to_string()
}

#[test]
fn builtin_names() {
    assert_eq!(builtin_named(&s("cd")), Some(Builtin::Cd));
    assert_eq!(builtin_named(&s("rename")), Some(Builtin::Rename));
    assert_eq!(builtin_named(&s("hi")), Some(Builtin::Hi));
    assert_eq!(builtin_named(&s("ls")), None);
    assert_eq!(builtin_named(&s("CD")), None);
}

#[test]
fn lone_builtin_runs_in_the_shell() {
    let p = parse("create folder x > ignored").unwrap();
    assert_eq!(plan_execution(&p), Plan::RunBuiltin(Builtin::Create, vec![s("folder"), s("x")]));
}

#[test]
fn builtin_inside_a_pipeline_is_spawned() {
    let p = parse("hi | cat").unwrap();
    match plan_execution(&p) {
        Plan::Spawn(stages) => assert_eq!(stages.len(), 2),
        other => panic!("unexpected plan {:?}", other),
    }
}

#[test]
fn empty_pipeline_runs_nothing() {
    let p = iron_shell::parser::Pipeline::default();
    assert_eq!(plan_execution(&p), Plan::Nothing);
}

#[test]
fn stages_are_chained() {
    let p = parse("sort -r < in | uniq | head -n 3 > out").unwrap();
    let expected = vec![
        Stage { program: s("sort"), args: vec![s("-r")], stdin: StdinSource::File(s("in")), stdout: StdoutTarget::Piped },
        Stage { program: s("uniq"), args: vec![], stdin: StdinSource::Previous, stdout: StdoutTarget::Piped },
        Stage {
            program: s("head"),
            args: vec![s("-n"), s("3")],
            stdin: StdinSource::Previous,
            stdout: StdoutTarget::File(s("out")),
        },
    ];
    assert_eq!(plan_execution(&p), Plan::Spawn(expected));
}

#[test]
fn single_external_command_reads_nothing_and_is_piped() {
    let p = parse("ls").unwrap();
    assert_eq!(
        plan_execution(&p),
        Plan::Spawn(vec![Stage { program: s("ls"), args: vec![], stdin: StdinSource::Null, stdout: StdoutTarget::Piped }])
    );
}

#[test]
fn output_collects_stdout_stderr_and_wait_error() {
    assert_eq!(collect_output(s("out\n"), Some(s("err\n")), None), "out\nerr\n");
    assert_eq!(collect_output(s("out"), Some(s("")), None), "out");
    assert_eq!(collect_output(s("out"), None, Some(s("gone"))), "out\niron_shell: wait failed: gone");
    assert_eq!(collect_output(s(""), None, None), "");
}

#[test]
fn spawn_failure_message() {
    assert_eq!(spawn_failed("nosuch", "not found"), "iron_shell: nosuch: not found");
}
