//! The output of a failed command, decoded for showing to the user.

use vstd::prelude::*;
use vstd::utf8::{decode_utf8, valid_utf8};

verus! {

/// Decodes `bytes` with `String::from_utf8`, which, as its documentation
/// says, succeeds exactly when the bytes are valid UTF-8 and then holds the
/// characters they encode.  Claimed here: the result is `Some` iff the bytes
/// are valid UTF-8, and its text is then their decoding.
#[verifier::external_body]
fn string_from_utf8(bytes: Vec<u8>) -> (r: Option<String>)
    ensures
        r is Some <==> valid_utf8(bytes@),
        r matches Some(s) ==> s@ == decode_utf8(bytes@),
{
    String::from_utf8(bytes).ok()
}

/// The output of a command that failed, as text.
pub struct FailureReport {
    pub stdout: String,
    pub stderr: String,
}

/// Which output of a failed command is not UTF-8.
#[derive(Clone, Copy, Debug, PartialEq, Eq, Structural)]
pub enum UndecodableOutput {
    Stdout,
    Stderr,
}

/// The standard output and standard error of a failed command as text.
/// Standard output is decoded first, so when neither is UTF-8 the error
/// names standard output.
pub fn install_failure_report(stdout: Vec<u8>, stderr: Vec<u8>) -> (r: Result<
    FailureReport,
    UndecodableOutput,
>)
    ensures
        !valid_utf8(stdout@) ==> r == Err::<FailureReport, UndecodableOutput>(
            UndecodableOutput::Stdout,
        ),
        valid_utf8(stdout@) && !valid_utf8(stderr@) ==> r == Err::<
            FailureReport,
            UndecodableOutput,
        >(UndecodableOutput::Stderr),
        valid_utf8(stdout@) && valid_utf8(stderr@) ==> (r matches Ok(report) && report.stdout@
            == decode_utf8(stdout@) && report.stderr@ == decode_utf8(stderr@)),
{
    let out = match string_from_utf8(stdout) {
        Some(s) => s,
        None => {
            return Err(UndecodableOutput::Stdout);
        },
    };
    let err = match string_from_utf8(stderr) {
        Some(s) => s,
        None => {
            return Err(UndecodableOutput::Stderr);
        },
    };
    Ok(FailureReport { stdout: out, stderr: err })
}

} // verus!
