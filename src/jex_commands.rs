use vstd::prelude::*;

use crate::constants::{JEX_COMPILE_TIMEOUT, JEX_EXEC_TIMEOUT};
use crate::run_command::{CommandError, DiagnosticStream};
use crate::utils::{decimal, decimal_of};

verus! {

/// How a request can fail.
pub enum RunJexError {
    InternalErr(InternalErr),
    UserCompilationError(String),
    UserExecutionError(String),
}

/// Failures of the infrastructure, never attributed to the submitted program.
pub enum InternalErr {
    FailedToWriteFile(std::io::Error),
    FailedToRunCompiler(String),
    FailedToRunVm(String),
}

/// An external command to launch: the program, its arguments, its time budget in
/// seconds, and the stream that carries its diagnostic on an unsuccessful exit.
pub struct CommandSpec {
    pub program: String,
    pub args: Vec<String>,
    pub timeout_secs: u64,
    pub diagnostics: DiagnosticStream,
}

/// What the pipeline asks of the outside world next, or its final result.
pub enum JexStep {
    /// Write `code` verbatim to the file at `path`.
    WriteSource { path: String, code: String },
    /// Run the compiler.
    Compile(CommandSpec),
    /// Run the VM on the compiled artifact.
    Execute(CommandSpec),
    /// The request is over.
    Finish(Result<String, RunJexError>),
}

/// The files of one request.
pub struct JexRun {
    pub source_path: String,
    pub compiled_path: String,
}

/// The response the request boundary gives for a result.
pub struct Reply {
    pub status: u16,
    pub body: String,
}

/// Relies on the `Display` impl of std::io::Error, to describe an I/O failure.
#[verifier::external_body]
fn io_error_text(e: &std::io::Error) -> (r: String) {
    e.to_string()
}

pub open spec fn source_dir() -> Seq<char> {
    "runtime_data/source_code"@
}

pub open spec fn compiled_dir() -> Seq<char> {
    "runtime_data/compiled"@
}

/// Where the source of request `id` is staged.
pub open spec fn source_path_of(id: Seq<char>) -> Seq<char> {
    source_dir() + "/"@ + id + ".txt"@
}

/// Where the compiler puts the artifact of request `id`.
pub open spec fn compiled_path_of(id: Seq<char>) -> Seq<char> {
    compiled_dir() + "/"@ + id
}

pub open spec fn compile_command_of(source: Seq<char>, compiled: Seq<char>, c: CommandSpec) -> bool {
    &&& c.program@ == "java"@
    &&& c.args@.len() == 4
    &&& c.args@[0]@ == "-jar"@
    &&& c.args@[1]@ == "./res/JexCompiler-0.3.jar"@
    &&& c.args@[2]@ == source
    &&& c.args@[3]@ == compiled
    &&& c.timeout_secs == JEX_COMPILE_TIMEOUT
    &&& c.diagnostics == DiagnosticStream::Stderr
}

pub open spec fn vm_command_of(compiled: Seq<char>, c: CommandSpec) -> bool {
    &&& c.program@ == "./res/jex_vm-0.4"@
    &&& c.args@.len() == 1
    &&& c.args@[0]@ == compiled
    &&& c.timeout_secs == JEX_EXEC_TIMEOUT
    &&& c.diagnostics == DiagnosticStream::Stdout
}

pub open spec fn exec_timeout_message() -> Seq<char> {
    "Run time exceeded "@ + decimal_of(JEX_EXEC_TIMEOUT as nat) + " secs."@
}

/// What follows the attempt to stage the source.
pub open spec fn write_transition(run: JexRun, written: Result<(), std::io::Error>, step: JexStep) -> bool {
    match written {
        Ok(_) => step matches JexStep::Compile(c) && compile_command_of(
            run.source_path@,
            run.compiled_path@,
            c,
        ),
        Err(e) => step == JexStep::Finish(
            Err(RunJexError::InternalErr(InternalErr::FailedToWriteFile(e))),
        ),
    }
}

/// What follows the compiler's outcome.
pub open spec fn compile_transition(run: JexRun, outcome: Result<String, CommandError>, step: JexStep) -> bool {
    match outcome {
        Ok(_) => step matches JexStep::Execute(c) && vm_command_of(run.compiled_path@, c),
        Err(CommandError::UnsuccessfulExitCode(m)) => step == JexStep::Finish(
            Err(RunJexError::UserCompilationError(m)),
        ),
        Err(CommandError::StdioDecodingFailed(m)) => step == JexStep::Finish(
            Err(RunJexError::InternalErr(InternalErr::FailedToRunCompiler(m))),
        ),
        Err(CommandError::RunFailure(_)) => step matches JexStep::Finish(
            Err(RunJexError::InternalErr(InternalErr::FailedToRunCompiler(_))),
        ),
        Err(CommandError::Timeout) => step matches JexStep::Finish(
            Err(RunJexError::InternalErr(InternalErr::FailedToRunCompiler(m))),
        ) && m@ == "Compiler timed out"@,
    }
}

/// The result that the VM's outcome gives.
pub open spec fn execute_result(outcome: Result<String, CommandError>, r: Result<String, RunJexError>) -> bool {
    match outcome {
        Ok(s) => r == Ok::<String, RunJexError>(s),
        Err(CommandError::UnsuccessfulExitCode(m)) => r == Err::<String, RunJexError>(
            RunJexError::UserExecutionError(m),
        ),
        Err(CommandError::StdioDecodingFailed(m)) => r == Err::<String, RunJexError>(
            RunJexError::InternalErr(InternalErr::FailedToRunVm(m)),
        ),
        Err(CommandError::RunFailure(_)) => r matches Err(
            RunJexError::InternalErr(InternalErr::FailedToRunVm(_)),
        ),
        Err(CommandError::Timeout) => r matches Err(RunJexError::UserExecutionError(m))
            && m@ == exec_timeout_message(),
    }
}

/// The staged-source path of a request identifier.
pub fn source_filepath(request_id: &str) -> (r: String)
    ensures
        r@ == source_path_of(request_id@),
{
    let mut r = source_code_dir();
    r.append("/");
    r.append(request_id);
    r.append(".txt");
    r
}

/// The compiled-artifact path of a request identifier.
pub fn compiled_filepath(request_id: &str) -> (r: String)
    ensures
        r@ == compiled_path_of(request_id@),
{
    let mut r = compiled_code_dir();
    r.append("/");
    r.append(request_id);
    r
}

/// The directory of staged sources.
pub fn source_code_dir() -> (r: String)
    ensures
        r@ == source_dir(),
{
    String::from_str("runtime_data/source_code")
}

/// The directory of compiled artifacts.
pub fn compiled_code_dir() -> (r: String)
    ensures
        r@ == compiled_dir(),
{
    String::from_str("runtime_data/compiled")
}

/// The compiler invocation for a staged source and an artifact path.
pub fn compile_command(from: &str, to: &str) -> (c: CommandSpec)
    ensures
        compile_command_of(from@, to@, c),
{
    let mut args: Vec<String> = Vec::new();
    args.push(String::from_str("-jar"));
    args.push(String::from_str("./res/JexCompiler-0.3.jar"));
    args.push(from.to_string());
    args.push(to.to_string());
    CommandSpec {
        program: String::from_str("java"),
        args,
        timeout_secs: JEX_COMPILE_TIMEOUT,
        diagnostics: DiagnosticStream::Stderr,
    }
}

/// The VM invocation for a compiled artifact.
pub fn vm_command(from: &str) -> (c: CommandSpec)
    ensures
        vm_command_of(from@, c),
{
    let mut args: Vec<String> = Vec::new();
    args.push(from.to_string());
    CommandSpec {
        program: String::from_str("./res/jex_vm-0.4"),
        args,
        timeout_secs: JEX_EXEC_TIMEOUT,
        diagnostics: DiagnosticStream::Stdout,
    }
}

/// The diagnostic of an execution that ran out of time.
pub fn exec_timeout_text() -> (r: String)
    ensures
        r@ == exec_timeout_message(),
{
    let mut r = String::from_str("Run time exceeded ");
    let d = decimal(JEX_EXEC_TIMEOUT);
    r.append(d.as_str());
    r.append(" secs.");
    r
}

impl JexRun {
    /// The run of the request with identifier `request_id`.
    pub fn new(request_id: &str) -> (r: JexRun)
        ensures
            r.source_path@ == source_path_of(request_id@),
            r.compiled_path@ == compiled_path_of(request_id@),
    {
        JexRun { source_path: source_filepath(request_id), compiled_path: compiled_filepath(request_id) }
    }

    /// The first step: stage the submitted text.
    pub fn stage_source(&self, code: String) -> (step: JexStep)
        ensures
            step matches JexStep::WriteSource { path, code: c } && path@ == self.source_path@ && c
                == code,
    {
        JexStep::WriteSource { path: self.source_path.clone(), code }
    }

    /// The step that follows staging: compile, or give up on a failed write.
    pub fn after_write(&self, written: Result<(), std::io::Error>) -> (step: JexStep)
        ensures
            write_transition(*self, written, step),
    {
        match written {
            Ok(()) => JexStep::Compile(
                compile_command(self.source_path.as_str(), self.compiled_path.as_str()),
            ),
            Err(e) => JexStep::Finish(Err(RunJexError::InternalErr(InternalErr::FailedToWriteFile(e)))),
        }
    }

    /// The step that follows compilation: execute the artifact, or end with the
    /// classified failure.
    pub fn after_compile(&self, outcome: Result<String, CommandError>) -> (step: JexStep)
        ensures
            compile_transition(*self, outcome, step),
    {
        match outcome {
            Ok(_) => JexStep::Execute(vm_command(self.compiled_path.as_str())),
            Err(CommandError::RunFailure(e)) => JexStep::Finish(
                Err(RunJexError::InternalErr(InternalErr::FailedToRunCompiler(io_error_text(&e)))),
            ),
            Err(CommandError::StdioDecodingFailed(m)) => JexStep::Finish(
                Err(RunJexError::InternalErr(InternalErr::FailedToRunCompiler(m))),
            ),
            Err(CommandError::UnsuccessfulExitCode(m)) => JexStep::Finish(
                Err(RunJexError::UserCompilationError(m)),
            ),
            Err(CommandError::Timeout) => JexStep::Finish(
                Err(
                    RunJexError::InternalErr(
                        InternalErr::FailedToRunCompiler(String::from_str("Compiler timed out")),
                    ),
                ),
            ),
        }
    }
}

/// The result of a request once the VM is over.
pub fn after_execute(outcome: Result<String, CommandError>) -> (r: Result<String, RunJexError>)
    ensures
        execute_result(outcome, r),
{
    match outcome {
        Ok(msg) => Ok(msg),
        Err(CommandError::RunFailure(e)) => Err(
            RunJexError::InternalErr(InternalErr::FailedToRunVm(io_error_text(&e))),
        ),
        Err(CommandError::StdioDecodingFailed(m)) => Err(
            RunJexError::InternalErr(InternalErr::FailedToRunVm(m)),
        ),
        Err(CommandError::UnsuccessfulExitCode(m)) => Err(RunJexError::UserExecutionError(m)),
        Err(CommandError::Timeout) => Err(RunJexError::UserExecutionError(exec_timeout_text())),
    }
}

/// The text that describes an internal failure.
pub open spec fn internal_message_of(e: InternalErr, m: Seq<char>) -> bool {
    match e {
        InternalErr::FailedToWriteFile(_) => "Failed to create file for source code: "@.is_prefix_of(m),
        InternalErr::FailedToRunCompiler(t) => m == "Failed to run the compiler: "@ + t@,
        InternalErr::FailedToRunVm(t) => m == "Failed to run the VM: "@ + t@,
    }
}

/// The text that describes a failed request: a line naming its category, then the detail.
pub open spec fn error_message_of(e: RunJexError, m: Seq<char>) -> bool {
    match e {
        RunJexError::InternalErr(i) => {
            &&& "INTERNAL ERROR\n"@.is_prefix_of(m)
            &&& internal_message_of(i, m.subrange("INTERNAL ERROR\n"@.len() as int, m.len() as int))
        },
        RunJexError::UserCompilationError(t) => m == "COMPILATION ERROR\n"@ + t@,
        RunJexError::UserExecutionError(t) => m == "RUNTIME ERROR\n"@ + t@,
    }
}

/// The text that describes a failure to stage the source, given the I/O error's text.
pub fn write_failure_message(t: &str) -> (r: String)
    ensures
        r@ == "Failed to create file for source code: "@ + t@,
{
    let mut r = String::from_str("Failed to create file for source code: ");
    r.append(t);
    r
}

impl InternalErr {
    /// Describes the failure.
    pub fn message(&self) -> (r: String)
        ensures
            internal_message_of(*self, r@),
    {
        match self {
            InternalErr::FailedToWriteFile(e) => {
                let t = io_error_text(e);
                write_failure_message(t.as_str())
            },
            InternalErr::FailedToRunCompiler(t) => {
                let mut r = String::from_str("Failed to run the compiler: ");
                r.append(t.as_str());
                r
            },
            InternalErr::FailedToRunVm(t) => {
                let mut r = String::from_str("Failed to run the VM: ");
                r.append(t.as_str());
                r
            },
        }
    }
}

impl RunJexError {
    /// Describes the failure, under a line naming its category.
    pub fn message(&self) -> (r: String)
        ensures
            error_message_of(*self, r@),
    {
        match self {
            RunJexError::InternalErr(e) => {
                let mut r = String::from_str("INTERNAL ERROR\n");
                let ghost head = r@;
                let t = e.message();
                r.append(t.as_str());
                assert(r@.subrange(0, head.len() as int) =~= head);
                assert(r@.subrange(head.len() as int, r@.len() as int) =~= t@);
                r
            },
            RunJexError::UserCompilationError(t) => {
                let mut r = String::from_str("COMPILATION ERROR\n");
                r.append(t.as_str());
                r
            },
            RunJexError::UserExecutionError(t) => {
                let mut r = String::from_str("RUNTIME ERROR\n");
                r.append(t.as_str());
                r
            },
        }
    }
}

/// The response to a result: 200 with the output, 500 for an internal failure,
/// 400 for a failure of the submitted program; a failure's body is its message.
pub fn reply_for(result: &Result<String, RunJexError>) -> (r: Reply)
    ensures
        match *result {
            Ok(s) => r.status == 200 && r.body@ == s@,
            Err(e) => {
                &&& error_message_of(e, r.body@)
                &&& r.status == (if e is InternalErr { 500u16 } else { 400u16 })
            },
        },
{
    match result {
        Ok(s) => Reply { status: 200, body: s.clone() },
        Err(e) => {
            let status: u16 = match e {
                RunJexError::InternalErr(_) => 500,
                _ => 400,
            };
            Reply { status, body: e.message() }
        },
    }
}

} // verus!
