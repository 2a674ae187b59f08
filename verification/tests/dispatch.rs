use shellfront::dispatch::{conclude, plan, CommandKind, Outcome, Plan, Platform, RunRequest};

fn run_of(p: Plan) -> RunRequest {
    match p {
        Plan::Run(r) => r,
        Plan::Reject(m) => panic!("expected a run, got a rejection: {}", m),
    }
}

fn success_text(o: Outcome) -> String {
    match o {
        Outcome::Success(t) => t,
        Outcome::Failure(t) => panic!("expected success, got failure: {}", t),
    }
}

fn failure_text(o: Outcome) -> String {
    match o {
        Outcome::Failure(t) => t,
        Outcome::Success(t) => panic!("expected failure, got success: {}", t),
    }
}

#[test]
fn mkdir_without_argument_is_rejected() {
    match plan("mkdir", Platform::Other) {
        Plan::Reject(m) => assert_eq!(m, "missing directory name"),
        Plan::Run(_) => panic!("a missing name must not spawn anything"),
    }
    match plan("mkdir", Platform::Windows) {
        Plan::Reject(m) => assert_eq!(m, "missing directory name"),
        Plan::Run(_) => panic!("a missing name must not spawn anything"),
    }
}

#[test]
fn rm_without_argument_is_rejected() {
    match plan("rm", Platform::Other) {
        Plan::Reject(m) => assert_eq!(m, "missing directory name"),
        Plan::Run(_) => panic!("a missing name must not spawn anything"),
    }
}

#[test]
fn mkdir_plans_directory_creation() {
    let r = run_of(plan("mkdir foo", Platform::Other));
    assert_eq!(r.kind, CommandKind::Mkdir);
    assert_eq!(r.target, "foo");
    assert_eq!(r.program, "mkdir");
    assert_eq!(r.args, vec!["foo"]);

    let r = run_of(plan("mkdir foo", Platform::Windows));
    assert_eq!(r.program, "cmd");
    assert_eq!(r.args, vec!["/C", "mkdir foo"]);
}

#[test]
fn mkdir_ignores_extra_tokens() {
    let r = run_of(plan("mkdir foo bar baz", Platform::Other));
    assert_eq!(r.target, "foo");
    assert_eq!(r.args, vec!["foo"]);
}

#[test]
fn mkdir_outcomes_mention_the_name() {
    let r = run_of(plan("mkdir foo", Platform::Other));
    assert_eq!(success_text(conclude(&r, true, b"")), "Directory 'foo' created");
    assert_eq!(
        failure_text(conclude(&r, false, b"")),
        "failed to create directory 'foo'"
    );
}

#[test]
fn rm_plans_recursive_removal() {
    let r = run_of(plan("rm foo", Platform::Other));
    assert_eq!(r.kind, CommandKind::Rm);
    assert_eq!(r.target, "foo");
    assert_eq!(r.program, "rm");
    assert_eq!(r.args, vec!["-r", "foo"]);

    let r = run_of(plan("rm foo", Platform::Windows));
    assert_eq!(r.program, "cmd");
    assert_eq!(r.args, vec!["/C", "rmdir /S /Q foo"]);
}

#[test]
fn rm_outcomes_mention_the_name() {
    let r = run_of(plan("rm foo", Platform::Other));
    assert_eq!(success_text(conclude(&r, true, b"")), "Directory 'foo' removed");
    assert_eq!(
        failure_text(conclude(&r, false, b"")),
        "failed to remove directory 'foo'"
    );
}

#[test]
fn ls_plans_a_listing_and_ignores_arguments() {
    let r = run_of(plan("ls", Platform::Other));
    assert_eq!(r.kind, CommandKind::Ls);
    assert_eq!(r.program, "ls");
    assert!(r.args.is_empty());

    let r = run_of(plan("ls -la somewhere", Platform::Other));
    assert_eq!(r.kind, CommandKind::Ls);
    assert!(r.args.is_empty());

    let r = run_of(plan("ls", Platform::Windows));
    assert_eq!(r.program, "cmd");
    assert_eq!(r.args, vec!["/C", "dir"]);
}

#[test]
fn ls_success_carries_the_captured_output() {
    let r = run_of(plan("ls", Platform::Other));
    assert_eq!(success_text(conclude(&r, true, b"foo\nbar\n")), "foo\nbar\n");
    assert_eq!(success_text(conclude(&r, true, b"")), "");
    assert_eq!(failure_text(conclude(&r, false, b"")), "failed to list directory");
}

#[test]
fn ls_output_decoding_never_fails_on_malformed_bytes() {
    let r = run_of(plan("ls", Platform::Other));
    let bytes: Vec<u8> = vec![0xff, 0xfe, b'a'];
    let text = success_text(conclude(&r, true, &bytes));
    assert_eq!(text, "\u{fffd}\u{fffd}a");
}

#[test]
fn other_commands_delegate_the_whole_line() {
    let r = run_of(plan("echo hello", Platform::Other));
    assert_eq!(r.kind, CommandKind::Fallback);
    assert_eq!(r.target, "echo hello");
    assert_eq!(r.program, "sh");
    assert_eq!(r.args, vec!["-c", "echo hello"]);

    let r = run_of(plan("echo hello", Platform::Windows));
    assert_eq!(r.program, "cmd");
    assert_eq!(r.args, vec!["/C", "echo hello"]);
}

#[test]
fn delegation_returns_the_output_verbatim() {
    let r = run_of(plan("echo hello", Platform::Other));
    assert_eq!(success_text(conclude(&r, true, b"hello\n")), "hello\n");
    assert_eq!(
        failure_text(conclude(&r, false, b"")),
        "command failed: echo hello"
    );
}

#[test]
fn classification_is_exact_and_case_sensitive() {
    assert_eq!(run_of(plan("Mkdir foo", Platform::Other)).kind, CommandKind::Fallback);
    assert_eq!(run_of(plan("mkdirx foo", Platform::Other)).kind, CommandKind::Fallback);
    assert_eq!(run_of(plan("LS", Platform::Other)).kind, CommandKind::Fallback);
    assert_eq!(run_of(plan("  mkdir foo", Platform::Other)).kind, CommandKind::Mkdir);
}
