use vstd::prelude::*;

use crate::constants::{JEX_COMPILE_TIMEOUT, JEX_EXEC_TIMEOUT};
use crate::jex_commands::{
    compile_transition, compiled_dir, compiled_path_of, execute_result, source_dir,
    source_path_of, write_transition, InternalErr, JexRun, JexStep, RunJexError,
};
use crate::run_command::{classifies, diagnostic_text, CommandError, DiagnosticStream, RawOutcome};
use crate::utils::decimal_of;

verus! {

/// A request hands out at most two commands, each under a fixed budget: first the
/// compiler's, under the compile timeout; then, if anything, the VM's, under the
/// execution timeout. After the compiler the pipeline never compiles again.
pub proof fn pipeline_time_budget(
    run: JexRun,
    staged: JexStep,
    outcome: Result<String, CommandError>,
    next: JexStep,
)
    requires
        write_transition(run, Ok::<(), std::io::Error>(()), staged),
        compile_transition(run, outcome, next),
    ensures
        staged matches JexStep::Compile(c) && c.timeout_secs == JEX_COMPILE_TIMEOUT,
        next is Execute || next is Finish,
        next matches JexStep::Execute(c) ==> c.timeout_secs == JEX_EXEC_TIMEOUT,
{
}

/// When the compiler exits unsuccessfully, the request ends as a compilation error
/// that carries exactly the compiler's standard-error text.
pub proof fn compiler_rejection_is_user_error(
    run: JexRun,
    staged: JexStep,
    raw: RawOutcome,
    outcome: Result<String, CommandError>,
    next: JexStep,
)
    requires
        write_transition(run, Ok::<(), std::io::Error>(()), staged),
        staged matches JexStep::Compile(c) && classifies(raw, c.diagnostics, outcome),
        raw matches RawOutcome::Exited { success, .. } && !success,
        compile_transition(run, outcome, next),
    ensures
        next matches JexStep::Finish(Err(RunJexError::UserCompilationError(m)))
            && m@ == diagnostic_text(raw->stderr@, DiagnosticStream::Stderr),
{
}

/// When the compiler succeeds and the VM exits unsuccessfully, the request ends as
/// an execution error that carries exactly the VM's standard-output text.
pub proof fn vm_failure_is_user_error(
    run: JexRun,
    compiled: Result<String, CommandError>,
    execute: JexStep,
    raw: RawOutcome,
    outcome: Result<String, CommandError>,
    result: Result<String, RunJexError>,
)
    requires
        compile_transition(run, compiled, execute),
        execute matches JexStep::Execute(c) && classifies(raw, c.diagnostics, outcome),
        raw matches RawOutcome::Exited { success, .. } && !success,
        execute_result(outcome, result),
    ensures
        result matches Err(RunJexError::UserExecutionError(m)) && m@ == diagnostic_text(
            raw->stdout@,
            DiagnosticStream::Stdout,
        ),
{
}

/// When the compiler succeeds and the VM runs out of time, the request ends as an
/// execution error whose message names the execution timeout in seconds.
pub proof fn vm_timeout_is_user_error(
    run: JexRun,
    compiled: Result<String, CommandError>,
    execute: JexStep,
    outcome: Result<String, CommandError>,
    result: Result<String, RunJexError>,
)
    requires
        compile_transition(run, compiled, execute),
        execute matches JexStep::Execute(c) && classifies(RawOutcome::TimedOut, c.diagnostics, outcome),
        execute_result(outcome, result),
    ensures
        result matches Err(RunJexError::UserExecutionError(m)) && m@ == "Run time exceeded "@
            + decimal_of(JEX_EXEC_TIMEOUT as nat) + " secs."@,
{
}

/// When the compiler runs out of time, the request ends as an internal error, not
/// as a compilation error.
pub proof fn compiler_timeout_is_internal(
    run: JexRun,
    staged: JexStep,
    outcome: Result<String, CommandError>,
    next: JexStep,
)
    requires
        write_transition(run, Ok::<(), std::io::Error>(()), staged),
        staged matches JexStep::Compile(c) && classifies(RawOutcome::TimedOut, c.diagnostics, outcome),
        compile_transition(run, outcome, next),
    ensures
        next matches JexStep::Finish(Err(RunJexError::InternalErr(_))),
{
}

/// When the source cannot be staged, the request ends as an internal error,
/// whatever the submitted text.
pub proof fn write_failure_is_internal(
    run: JexRun,
    e: std::io::Error,
    next: JexStep,
)
    requires
        write_transition(run, Err::<(), std::io::Error>(e), next),
    ensures
        next matches JexStep::Finish(Err(RunJexError::InternalErr(InternalErr::FailedToWriteFile(_)))),
{
}

/// Requests with distinct identifiers use distinct files: neither their staged
/// sources nor their artifacts share a path, and no staged source of one request
/// is the artifact of another.
pub proof fn distinct_requests_use_distinct_files(a: Seq<char>, b: Seq<char>)
    ensures
        a != b ==> source_path_of(a) != source_path_of(b),
        a != b ==> compiled_path_of(a) != compiled_path_of(b),
        source_path_of(a) != compiled_path_of(b),
{
    reveal_strlit("runtime_data/source_code");
    reveal_strlit("runtime_data/compiled");
    reveal_strlit("/");
    reveal_strlit(".txt");
    let pre = source_dir() + "/"@;
    let cpre = compiled_dir() + "/"@;
    if source_path_of(a) == source_path_of(b) {
        assert(source_path_of(a).len() == source_path_of(b).len());
        assert(a =~= source_path_of(a).subrange(pre.len() as int, (pre.len() + a.len()) as int));
        assert(b =~= source_path_of(b).subrange(pre.len() as int, (pre.len() + b.len()) as int));
    }
    if compiled_path_of(a) == compiled_path_of(b) {
        assert(a =~= compiled_path_of(a).subrange(cpre.len() as int, (cpre.len() + a.len()) as int));
        assert(b =~= compiled_path_of(b).subrange(cpre.len() as int, (cpre.len() + b.len()) as int));
    }
    assert(source_path_of(a)[13] == 's');
    assert(compiled_path_of(b)[13] == 'c');
}

} // verus!
