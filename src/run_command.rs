use vstd::prelude::*;

verus! {

#[verifier::external_type_specification]
#[verifier::external_body]
pub struct ExIoError(std::io::Error);

#[verifier::external_type_specification]
#[verifier::external_body]
pub struct ExUtf8Error(core::str::Utf8Error);

/// What one run of an external command came to, once it is over.
pub enum CommandError {
    /// The command failed to run
    RunFailure(std::io::Error),
    /// The command was executed but returned an unsuccessful exit code.
    /// The passed [String] is its diagnostic stream
    UnsuccessfulExitCode(String),
    /// The command ran successfully but stdout could not be parsed as a utf-8 string
    StdioDecodingFailed(String),
    /// The command did not finish within its time budget
    Timeout,
}

/// The stream on which a command writes its diagnostic when it exits unsuccessfully.
#[derive(Clone, Copy, PartialEq, Eq, Structural, Debug)]
pub enum DiagnosticStream {
    Stdout,
    Stderr,
}

/// How a launched command ended, as the process layer observed it.
pub enum RawOutcome {
    /// The process could not be started.
    LaunchFailed(std::io::Error),
    /// The time budget ran out before the process finished.
    TimedOut,
    /// The process finished; `success` tells whether its exit status was zero.
    Exited { success: bool, stdout: Vec<u8>, stderr: Vec<u8> },
}

/// The text that a byte sequence decodes to as UTF-8, or `None` where it is not valid UTF-8.
pub uninterp spec fn utf8_decoded(b: Seq<u8>) -> Option<Seq<char>>;

/// Relies on std::str::from_utf8: it succeeds exactly on valid UTF-8 and then yields
/// the decoded text.
#[verifier::external_body]
fn decode_utf8(b: &[u8]) -> (r: Result<String, core::str::Utf8Error>)
    ensures
        match r {
            Ok(s) => utf8_decoded(b@) == Some(s@),
            Err(_) => utf8_decoded(b@) is None,
        },
{
    std::str::from_utf8(b).map(|s| s.to_string())
}

/// Relies on the `Display` impl of std::str::Utf8Error, to describe a decoding failure.
#[verifier::external_body]
fn utf8_error_text(e: &core::str::Utf8Error) -> (r: String) {
    e.to_string()
}

/// Placeholder for a diagnostic whose bytes are not valid UTF-8; it names the
/// stream that was read.
pub open spec fn undecodable_diagnostic(stream: DiagnosticStream) -> Seq<char> {
    match stream {
        DiagnosticStream::Stdout => "Failed to decode stdout as utf-8."@,
        DiagnosticStream::Stderr => "Failed to decode stderr as utf-8."@,
    }
}

/// The diagnostic text carried by an unsuccessful exit, read from `stream`.
pub open spec fn diagnostic_text(b: Seq<u8>, stream: DiagnosticStream) -> Seq<char> {
    match utf8_decoded(b) {
        Some(t) => t,
        None => undecodable_diagnostic(stream),
    }
}

/// The closed reduction of a raw process outcome.
pub open spec fn classifies(
    raw: RawOutcome,
    stream: DiagnosticStream,
    r: Result<String, CommandError>,
) -> bool {
    match raw {
        RawOutcome::LaunchFailed(e) => r == Err::<String, CommandError>(CommandError::RunFailure(e)),
        RawOutcome::TimedOut => r == Err::<String, CommandError>(CommandError::Timeout),
        RawOutcome::Exited { success, stdout, stderr } => if success {
            match utf8_decoded(stdout@) {
                Some(t) => r matches Ok(s) && s@ == t,
                None => r matches Err(CommandError::StdioDecodingFailed(_)),
            }
        } else {
            let diag = match stream {
                DiagnosticStream::Stdout => stdout@,
                DiagnosticStream::Stderr => stderr@,
            };
            r matches Err(CommandError::UnsuccessfulExitCode(m)) && m@ == diagnostic_text(diag, stream)
        },
    }
}

/// Reduces how a command ended to its outcome: stdout on a zero exit, else the
/// classified failure. `stream` says where the command writes its diagnostic.
pub fn classify_outcome(raw: RawOutcome, stream: DiagnosticStream) -> (r: Result<String, CommandError>)
    ensures
        classifies(raw, stream, r),
{
    match raw {
        RawOutcome::LaunchFailed(e) => Err(CommandError::RunFailure(e)),
        RawOutcome::TimedOut => Err(CommandError::Timeout),
        RawOutcome::Exited { success, stdout, stderr } => {
            if success {
                match decode_utf8(stdout.as_slice()) {
                    Ok(s) => Ok(s),
                    Err(e) => Err(CommandError::StdioDecodingFailed(utf8_error_text(&e))),
                }
            } else {
                let diag = match stream {
                    DiagnosticStream::Stdout => stdout.as_slice(),
                    DiagnosticStream::Stderr => stderr.as_slice(),
                };
                let text = match decode_utf8(diag) {
                    Ok(s) => s,
                    Err(_) => match stream {
                        DiagnosticStream::Stdout => String::from_str("Failed to decode stdout as utf-8."),
                        DiagnosticStream::Stderr => String::from_str("Failed to decode stderr as utf-8."),
                    },
                };
                Err(CommandError::UnsuccessfulExitCode(text))
            }
        },
    }
}

} // verus!
