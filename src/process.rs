use vstd::prelude::*;
use vstd::utf8::{decode_utf8, valid_utf8};

use crate::text::{from_utf8, from_utf8_lossy, lossy_of};

verus! {

/// How a child process ended.
#[derive(Clone, Copy, Debug, PartialEq, Eq, Structural)]
pub enum ExitStatus {
    /// The process exited with this code.
    Exited(i32),
    /// The process was terminated by the signal with this number.
    Signaled(i32),
}

impl ExitStatus {
    /// Success is an exit with code zero; any other code, and any signal, is not.
    pub open spec fn is_success(self) -> bool {
        self == ExitStatus::Exited(0)
    }

    pub fn success(&self) -> (r: bool)
        ensures
            r == self.is_success(),
    {
        match self {
            ExitStatus::Exited(code) => *code == 0,
            ExitStatus::Signaled(_) => false,
        }
    }
}

/// What a finished process left behind: how it ended, and everything it
/// wrote to standard output and standard error.
#[derive(Debug)]
pub struct Output {
    pub status: ExitStatus,
    pub stdout: Vec<u8>,
    pub stderr: Vec<u8>,
}

/// Why a process run is taken as a failure.
#[derive(Debug)]
pub enum CommandError {
    /// The process did not end with success.
    ExitStatus(ExitStatus),
    /// The process ended with success but wrote this text to standard error.
    Stderr(String),
    /// Standard error was not UTF-8; this is a lossy rendering of it.
    StderrNotUtf8(String),
    /// Standard output was not UTF-8; this is a lossy rendering of it.
    StdoutNotUtf8(String),
}

/// The mathematical model of a [`CommandError`], its texts as character sequences.
pub enum Failure {
    ExitStatus(ExitStatus),
    Stderr(Seq<char>),
    StderrNotUtf8(Seq<char>),
    StdoutNotUtf8(Seq<char>),
}

impl View for CommandError {
    type V = Failure;

    open spec fn view(&self) -> Failure {
        match self {
            CommandError::ExitStatus(s) => Failure::ExitStatus(*s),
            CommandError::Stderr(t) => Failure::Stderr(t@),
            CommandError::StderrNotUtf8(t) => Failure::StderrNotUtf8(t@),
            CommandError::StdoutNotUtf8(t) => Failure::StdoutNotUtf8(t@),
        }
    }
}

/// The failure that a finished process is classified as, checked in order:
/// an unsuccessful exit, then any output on standard error (as its text, or
/// its lossy rendering where it is not UTF-8). `None` when the run succeeded.
pub open spec fn failure_of(output: Output) -> Option<Failure> {
    if !output.status.is_success() {
        Some(Failure::ExitStatus(output.status))
    } else if output.stderr@.len() > 0 {
        if valid_utf8(output.stderr@) {
            Some(Failure::Stderr(decode_utf8(output.stderr@)))
        } else {
            Some(Failure::StderrNotUtf8(lossy_of(output.stderr@)))
        }
    } else {
        None
    }
}

/// What classifying `output` may return, with `f` as the transformation of
/// standard output: the failure of [`failure_of`], or else what `f` makes
/// of the captured standard-output bytes.
pub open spec fn outcome_of<F, T>(output: Output, f: F, r: Result<T, CommandError>) -> bool
    where
        F: FnOnce(Vec<u8>) -> T,
{
    match failure_of(output) {
        Some(e) => r matches Err(err) && err@ == e,
        None => r matches Ok(t) && f.ensures((output.stdout,), t),
    }
}

/// Classifies a finished process. Where it failed, the failure is returned and
/// `f` is not called; where it succeeded, `f` is called once, on exactly the
/// bytes written to standard output, and its result is returned.
pub fn interpret_output<F, T>(output: Output, f: F) -> (r: Result<T, CommandError>)
    where
        F: FnOnce(Vec<u8>) -> T,
    requires
        failure_of(output) is None ==> f.requires((output.stdout,)),
    ensures
        outcome_of(output, f, r),
{
    let Output { status, stdout, stderr } = output;
    if !status.success() {
        return Err(CommandError::ExitStatus(status));
    }
    if stderr.len() > 0 {
        return match from_utf8(stderr) {
            Ok(text) => Err(CommandError::Stderr(text)),
            Err(bytes) => Err(CommandError::StderrNotUtf8(from_utf8_lossy(&bytes))),
        };
    }
    Ok(f(stdout))
}

/// Classifies a finished process and, where it succeeded, decodes its
/// standard output as UTF-8 text.
pub fn interpret_stdout(output: Output) -> (r: Result<String, CommandError>)
    ensures
        failure_of(output) matches Some(e) ==> (r matches Err(err) && err@ == e),
        failure_of(output) is None && valid_utf8(output.stdout@) ==> (r matches Ok(s) && s@
            == decode_utf8(output.stdout@)),
        failure_of(output) is None && !valid_utf8(output.stdout@) ==> (r matches Err(err) && err@
            == Failure::StdoutNotUtf8(lossy_of(output.stdout@))),
{
    let decode = |bytes: Vec<u8>| -> (d: Result<String, Vec<u8>>)
        ensures
            valid_utf8(bytes@) <==> d is Ok,
            d matches Ok(s) ==> s@ == decode_utf8(bytes@),
            d matches Err(b) ==> b@ == bytes@,
        { from_utf8(bytes) };
    match interpret_output(output, decode) {
        Err(e) => Err(e),
        Ok(Ok(text)) => Ok(text),
        Ok(Err(bytes)) => Err(CommandError::StdoutNotUtf8(from_utf8_lossy(&bytes))),
    }
}

/// Classification is deterministic: two classifications of the same finished
/// run (as a deterministic process leaves each time) both fail with the same
/// failure or both succeed, and where the transformation gives one value for
/// the captured standard output, both succeed with that value.
pub proof fn lemma_outcome_deterministic<F, T>(
    output: Output,
    f: F,
    r1: Result<T, CommandError>,
    r2: Result<T, CommandError>,
)
    where
        F: FnOnce(Vec<u8>) -> T,
    requires
        outcome_of(output, f, r1),
        outcome_of(output, f, r2),
    ensures
        r1 is Ok <==> r2 is Ok,
        r1 matches Err(e1) ==> (r2 matches Err(e2) && e1@ == e2@),
        (forall|t1: T, t2: T|
            #[trigger] f.ensures((output.stdout,), t1) && #[trigger] f.ensures((output.stdout,), t2)
                ==> t1 == t2) ==> (r1 matches Ok(t1) ==> (r2 matches Ok(t2) && t1 == t2)),
{
}

} // verus!
