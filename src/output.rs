//! What a finished rustup process handed back, and how its output is cleaned,
//! decoded and judged.
use vstd::prelude::*;
use crate::RustupTargetError;

verus! {

/// What a finished process handed back.
pub struct CommandOutput {
    /// The exit code; `None` where the process was ended by a signal.
    pub exit_code: Option<i32>,
    pub stdout: Vec<u8>,
    pub stderr: Vec<u8>,
}

/// The bytes that remain of `b` once its terminal escape sequences are gone.
pub uninterp spec fn ansi_stripped(b: Seq<u8>) -> Seq<u8>;

/// The text that the bytes `b` encode in UTF-8, or `None` where they are not UTF-8.
pub uninterp spec fn utf8_decoded(b: Seq<u8>) -> Option<Seq<char>>;

/// The text of `b` with each byte sequence that is not UTF-8 replaced.
pub uninterp spec fn lossy_text(b: Seq<u8>) -> Seq<char>;

/// Relies on `strip_ansi_escapes::strip`, which removes terminal escape sequences.
#[verifier::external_body]
fn strip_ansi(b: &Vec<u8>) -> (r: Vec<u8>)
    ensures
        r@ == ansi_stripped(b@),
{
    strip_ansi_escapes::strip(b)
}

/// Relies on `String::from_utf8`, which fails exactly where the bytes are not UTF-8.
#[verifier::external_body]
fn decode_utf8(b: Vec<u8>) -> (r: Option<String>)
    ensures
        r is Some <==> utf8_decoded(b@) is Some,
        r is Some ==> utf8_decoded(b@) == Some(r.unwrap()@),
{
    String::from_utf8(b).ok()
}

/// Relies on `String::from_utf8_lossy`, which keeps bytes that are UTF-8 as
/// they are.
#[verifier::external_body]
fn decode_lossy(b: &Vec<u8>) -> (r: String)
    ensures
        r@ == lossy_text(b@),
        utf8_decoded(b@) is Some ==> r@ == utf8_decoded(b@).unwrap(),
{
    String::from_utf8_lossy(b).into_owned()
}

/// Whether the process succeeded: it exited, with code zero.
pub open spec fn succeeded(o: CommandOutput) -> bool {
    o.exit_code == Some(0i32)
}

/// What the output of a process comes to.
pub enum StdoutModel {
    /// It succeeded and printed this text.
    Text(Seq<char>),
    /// What it printed is not UTF-8 once the escapes are gone.
    Undecodable,
    /// It did not succeed.
    Failed { exitcode: Option<i32>, stderr: Seq<char>, stdout: Seq<char> },
}

/// What the output `o` comes to: its standard output is cleaned of escapes and
/// decoded first; then, where the process failed, the failure carries its exit
/// code, its standard error and the decoded standard output.
pub open spec fn stdout_model(o: CommandOutput) -> StdoutModel {
    match utf8_decoded(ansi_stripped(o.stdout@)) {
        None => StdoutModel::Undecodable,
        Some(out) => if succeeded(o) {
            StdoutModel::Text(out)
        } else {
            StdoutModel::Failed { exitcode: o.exit_code, stderr: lossy_text(o.stderr@), stdout: out }
        },
    }
}

/// The error `e` reports the output `m`, which is not a success.
pub open spec fn reports(e: RustupTargetError, m: StdoutModel) -> bool {
    match m {
        StdoutModel::Text(_) => false,
        StdoutModel::Undecodable => e is InvalidEncoding,
        StdoutModel::Failed { exitcode, stderr, stdout } => match e {
            RustupTargetError::RustupError { exitcode: c, stderr: se, stdout: so } => c == exitcode
                && se@ == stderr && so@ == stdout,
            _ => false,
        },
    }
}

/// The cleaned standard output of a process that succeeded, or the error that
/// says why there is none.
pub fn extract_stdout(output: &CommandOutput) -> (r: Result<String, RustupTargetError>)
    ensures
        match r {
            Ok(s) => stdout_model(*output) == StdoutModel::Text(s@),
            Err(e) => reports(e, stdout_model(*output)),
        },
{
    let cleaned = strip_ansi(&output.stdout);
    let out = match decode_utf8(cleaned) {
        Some(out) => out,
        None => return Err(RustupTargetError::InvalidEncoding),
    };
    let success = match output.exit_code {
        Some(code) => code == 0,
        None => false,
    };
    if !success {
        let err = decode_lossy(&output.stderr);
        return Err(RustupTargetError::RustupError { exitcode: output.exit_code, stderr: err, stdout: out });
    }
    Ok(out)
}

} // verus!
