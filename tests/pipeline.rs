use jex_compiler_server::jex_commands::{
    after_execute, compile_command, compiled_filepath, exec_timeout_text, reply_for,
    source_filepath, vm_command, write_failure_message, InternalErr, JexRun, JexStep, RunJexError,
};
use jex_compiler_server::run_command::{classify_outcome, CommandError, DiagnosticStream, RawOutcome};
use jex_compiler_server::utils::{decimal, id_from_draws, random_string};

fn exited(success: bool, stdout: &[u8], stderr: &[u8]) -> RawOutcome {
    RawOutcome::Exited { success, stdout: stdout.to_vec(), stderr: stderr.to_vec() }
}

fn io_error() -> std::io::Error {
    std::io::Error::new(std::io::ErrorKind::Other, "disk full")
}

fn compile_step(run: &JexRun) -> DiagnosticStream {
    match run.after_write(Ok(())) {
        JexStep::Compile(c) => c.diagnostics,
        _ => panic!("expected a compile step"),
    }
}

fn execute_step(run: &JexRun) -> DiagnosticStream {
    match run.after_compile(Ok(String::new())) {
        JexStep::Execute(c) => c.diagnostics,
        _ => panic!("expected an execute step"),
    }
}

#[test]
fn valid_program_prints_its_output() {
    let run = JexRun::new("abc123");
    let compiled = classify_outcome(exited(true, b"", b""), compile_step(&run));
    let stream = match run.after_compile(compiled) {
        JexStep::Execute(c) => c.diagnostics,
        _ => panic!("expected an execute step"),
    };
    let executed = classify_outcome(exited(true, b"42", b""), stream);
    match after_execute(executed) {
        Ok(s) => assert_eq!(s, "42"),
        _ => panic!("expected success"),
    }
}

#[test]
fn invalid_program_is_a_compilation_error() {
    let run = JexRun::new("abc123");
    let stream = compile_step(&run);
    let outcome = classify_outcome(exited(false, b"", b"line 3: unexpected token"), stream);
    match run.after_compile(outcome) {
        JexStep::Finish(Err(RunJexError::UserCompilationError(m))) => {
            assert_eq!(m, "line 3: unexpected token")
        }
        _ => panic!("expected a compilation error"),
    }
}

#[test]
fn endless_program_is_an_execution_error_naming_the_limit() {
    let run = JexRun::new("abc123");
    let outcome = classify_outcome(RawOutcome::TimedOut, execute_step(&run));
    match after_execute(outcome) {
        Err(RunJexError::UserExecutionError(m)) => {
            assert!(m.contains("10"));
            assert_eq!(m, "Run time exceeded 10 secs.");
        }
        _ => panic!("expected an execution error"),
    }
}

#[test]
fn failed_write_is_internal_whatever_the_text() {
    for code in ["", "print 1", "}}}"] {
        let run = JexRun::new("abc123");
        match run.stage_source(code.to_string()) {
            JexStep::WriteSource { path, code: c } => {
                assert_eq!(path, "runtime_data/source_code/abc123.txt");
                assert_eq!(c, code);
            }
            _ => panic!("expected a write step"),
        }
        match run.after_write(Err(io_error())) {
            JexStep::Finish(Err(RunJexError::InternalErr(InternalErr::FailedToWriteFile(_)))) => {}
            _ => panic!("expected an internal error"),
        }
    }
}

#[test]
fn vm_failure_carries_its_stdout() {
    let run = JexRun::new("abc123");
    let outcome = classify_outcome(exited(false, b"division by zero", b"noise"), execute_step(&run));
    match after_execute(outcome) {
        Err(RunJexError::UserExecutionError(m)) => assert_eq!(m, "division by zero"),
        _ => panic!("expected an execution error"),
    }
}

#[test]
fn compiler_diagnostic_comes_from_stderr() {
    let run = JexRun::new("abc123");
    let outcome = classify_outcome(exited(false, b"noise", b"bad"), compile_step(&run));
    match run.after_compile(outcome) {
        JexStep::Finish(Err(RunJexError::UserCompilationError(m))) => assert_eq!(m, "bad"),
        _ => panic!("expected a compilation error"),
    }
}

#[test]
fn compiler_timeout_is_internal() {
    let run = JexRun::new("abc123");
    let outcome = classify_outcome(RawOutcome::TimedOut, compile_step(&run));
    match run.after_compile(outcome) {
        JexStep::Finish(Err(RunJexError::InternalErr(InternalErr::FailedToRunCompiler(m)))) => {
            assert_eq!(m, "Compiler timed out")
        }
        _ => panic!("expected an internal error"),
    }
}

#[test]
fn compiler_launch_failure_is_internal() {
    let run = JexRun::new("abc123");
    let outcome = classify_outcome(RawOutcome::LaunchFailed(io_error()), DiagnosticStream::Stderr);
    assert!(matches!(outcome, Err(CommandError::RunFailure(_))));
    match run.after_compile(outcome) {
        JexStep::Finish(Err(RunJexError::InternalErr(InternalErr::FailedToRunCompiler(m)))) => {
            assert!(m.contains("disk full"))
        }
        _ => panic!("expected an internal error"),
    }
}

#[test]
fn vm_launch_failure_is_internal() {
    match after_execute(Err(CommandError::RunFailure(io_error()))) {
        Err(RunJexError::InternalErr(InternalErr::FailedToRunVm(m))) => assert!(m.contains("disk full")),
        _ => panic!("expected an internal error"),
    }
}

#[test]
fn undecodable_stdout_is_internal() {
    let outcome = classify_outcome(exited(true, &[0xff, 0xfe], b""), DiagnosticStream::Stdout);
    assert!(matches!(outcome, Err(CommandError::StdioDecodingFailed(_))));
    match after_execute(outcome) {
        Err(RunJexError::InternalErr(InternalErr::FailedToRunVm(_))) => {}
        _ => panic!("expected an internal error"),
    }
    let run = JexRun::new("x");
    let outcome = classify_outcome(exited(true, &[0xc3], b""), DiagnosticStream::Stderr);
    match run.after_compile(outcome) {
        JexStep::Finish(Err(RunJexError::InternalErr(InternalErr::FailedToRunCompiler(_)))) => {}
        _ => panic!("expected an internal error"),
    }
}

#[test]
fn undecodable_diagnostic_gets_a_placeholder() {
    let outcome = classify_outcome(exited(false, b"", &[0xff]), DiagnosticStream::Stderr);
    match outcome {
        Err(CommandError::UnsuccessfulExitCode(m)) => {
            assert_eq!(m, "Failed to decode stderr as utf-8.")
        }
        _ => panic!("expected an unsuccessful exit"),
    }
}

#[test]
fn successful_exit_decodes_stdout() {
    let outcome = classify_outcome(exited(true, "héllo\n".as_bytes(), b"warn"), DiagnosticStream::Stderr);
    match outcome {
        Ok(s) => assert_eq!(s, "héllo\n"),
        _ => panic!("expected success"),
    }
    match classify_outcome(exited(true, b"", b""), DiagnosticStream::Stdout) {
        Ok(s) => assert_eq!(s, ""),
        _ => panic!("expected success"),
    }
}

#[test]
fn paths_follow_the_identifier() {
    assert_eq!(source_filepath("k3j9a0"), "runtime_data/source_code/k3j9a0.txt");
    assert_eq!(compiled_filepath("k3j9a0"), "runtime_data/compiled/k3j9a0");
    assert_ne!(source_filepath("aaaaaa"), source_filepath("aaaaab"));
    assert_ne!(compiled_filepath("aaaaaa"), compiled_filepath("aaaaab"));
    let run = JexRun::new("k3j9a0");
    assert_eq!(run.source_path, "runtime_data/source_code/k3j9a0.txt");
    assert_eq!(run.compiled_path, "runtime_data/compiled/k3j9a0");
}

#[test]
fn commands_are_invoked_as_expected() {
    let c = compile_command("src.txt", "out");
    assert_eq!(c.program, "java");
    assert_eq!(c.args, vec!["-jar", "./res/JexCompiler-0.3.jar", "src.txt", "out"]);
    assert_eq!(c.timeout_secs, 10);
    assert_eq!(c.diagnostics, DiagnosticStream::Stderr);
    let v = vm_command("out");
    assert_eq!(v.program, "./res/jex_vm-0.4");
    assert_eq!(v.args, vec!["out"]);
    assert_eq!(v.timeout_secs, 10);
    assert_eq!(v.diagnostics, DiagnosticStream::Stdout);
    let run = JexRun::new("id0001");
    match run.after_write(Ok(())) {
        JexStep::Compile(c) => assert_eq!(
            c.args,
            vec![
                "-jar",
                "./res/JexCompiler-0.3.jar",
                "runtime_data/source_code/id0001.txt",
                "runtime_data/compiled/id0001"
            ]
        ),
        _ => panic!("expected a compile step"),
    }
    match run.after_compile(Ok("ignored".to_string())) {
        JexStep::Execute(v) => assert_eq!(v.args, vec!["runtime_data/compiled/id0001"]),
        _ => panic!("expected an execute step"),
    }
}

#[test]
fn decimal_renders_numbers() {
    assert_eq!(decimal(0), "0");
    assert_eq!(decimal(7), "7");
    assert_eq!(decimal(10), "10");
    assert_eq!(decimal(12345), "12345");
    assert_eq!(decimal(u64::MAX), "18446744073709551615");
    assert_eq!(exec_timeout_text(), "Run time exceeded 10 secs.");
}

#[test]
fn identifiers_have_fixed_length_and_alphabet() {
    for _ in 0..50 {
        let id = random_string(6);
        assert_eq!(id.chars().count(), 6);
        assert!(id.chars().all(|c| "0123456789abcdef".contains(c)));
    }
    assert_eq!(random_string(0), "");
}

#[test]
fn messages_name_their_category() {
    let e = RunJexError::UserCompilationError("bad".to_string());
    assert_eq!(e.message(), "COMPILATION ERROR\nbad");
    let e = RunJexError::UserExecutionError("crash".to_string());
    assert_eq!(e.message(), "RUNTIME ERROR\ncrash");
    let e = RunJexError::InternalErr(InternalErr::FailedToRunCompiler("x".to_string()));
    assert_eq!(e.message(), "INTERNAL ERROR\nFailed to run the compiler: x");
    let e = RunJexError::InternalErr(InternalErr::FailedToRunVm("y".to_string()));
    assert_eq!(e.message(), "INTERNAL ERROR\nFailed to run the VM: y");
    let e = InternalErr::FailedToWriteFile(io_error());
    assert_eq!(e.message(), "Failed to create file for source code: disk full");
}

#[test]
fn replies_carry_status_and_body() {
    let r = reply_for(&Ok("42".to_string()));
    assert_eq!(r.status, 200);
    assert_eq!(r.body, "42");
    let r = reply_for(&Err(RunJexError::UserCompilationError("bad".to_string())));
    assert_eq!(r.status, 400);
    assert_eq!(r.body, "COMPILATION ERROR\nbad");
    let r = reply_for(&Err(RunJexError::UserExecutionError("crash".to_string())));
    assert_eq!(r.status, 400);
    assert_eq!(r.body, "RUNTIME ERROR\ncrash");
    let r = reply_for(&Err(RunJexError::InternalErr(InternalErr::FailedToRunVm("y".to_string()))));
    assert_eq!(r.status, 500);
    assert_eq!(r.body, "INTERNAL ERROR\nFailed to run the VM: y");
}

#[test]
fn draws_pick_alphabet_characters() {
    assert_eq!(id_from_draws(&vec![0, 1, 9, 10, 15, 16]), "019af0");
    assert_eq!(id_from_draws(&vec![u64::MAX, 31, 100]), "ff4");
    assert_eq!(id_from_draws(&vec![]), "");
}

#[test]
fn write_failure_message_appends_the_detail() {
    assert_eq!(write_failure_message("no space"), "Failed to create file for source code: no space");
}

#[test]
fn undecodable_stdout_diagnostic_names_stdout() {
    let outcome = classify_outcome(exited(false, &[0xff], b"fine"), DiagnosticStream::Stdout);
    match outcome {
        Err(CommandError::UnsuccessfulExitCode(m)) => {
            assert_eq!(m, "Failed to decode stdout as utf-8.")
        }
        _ => panic!("expected an unsuccessful exit"),
    }
}
