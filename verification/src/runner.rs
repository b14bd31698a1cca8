//! Interpretation of a finished run of the external tool, and the formatting
//! of its diagnostic stream for the host log.
//!
//! The process I/O itself stays outside the library: the caller spawns the
//! tool, drains its diagnostic stream line by line, captures its primary
//! output in full, and waits for the exit status. The library receives those
//! plain values and decides what the caller sees: one tagged log record per
//! diagnostic line, and either the decoded primary output or a failure that
//! carries it.

use vstd::prelude::*;
use vstd::string::StringExecFns;

verus! {

/// The text that the lossy UTF-8 decoding of the given bytes yields: valid
/// sequences decoded as they stand, invalid ones replaced. The decoding
/// depends on the bytes alone.
pub uninterp spec fn lossy_utf8_of(bytes: Seq<u8>) -> Seq<char>;

/// Relies on `String::from_utf8_lossy`: the decoding is a function of the
/// bytes alone, and an empty input decodes to the empty string.
#[verifier::external_body]
fn decode_lossy(bytes: &Vec<u8>) -> (r: String)
    ensures
        r@ == lossy_utf8_of(bytes@),
        bytes@.len() == 0 ==> r@.len() == 0,
{
    String::from_utf8_lossy(bytes.as_slice()).into_owned()
}

/// The tag prefixed to every diagnostic line before it is handed to the log.
pub open spec fn spec_log_prefix() -> Seq<char> {
    "[pgcopydb cli]: "@
}

/// Formats one diagnostic line as the log record the host receives: the fixed
/// tag prefix followed by the line, unchanged.
pub fn diagnostic_record(line: &String) -> (r: String)
    ensures
        r@ == spec_log_prefix() + line@,
{
    String::from_str("[pgcopydb cli]: ").concat(line.as_str())
}

/// Formats a whole diagnostic transcript: one record per line, in the order
/// the lines were produced, each carrying the tag prefix — no line dropped,
/// none repeated, whatever the run's final exit status turns out to be.
pub fn diagnostic_records(lines: &Vec<String>) -> (r: Vec<String>)
    ensures
        r@.len() == lines@.len(),
        forall|i: int| 0 <= i < lines@.len() ==> r@[i]@ == spec_log_prefix() + lines@[i]@,
{
    let mut out: Vec<String> = Vec::new();
    let mut i: usize = 0;
    while i < lines.len()
        invariant
            i <= lines@.len(),
            out@.len() == i,
            forall|j: int| 0 <= j < i ==> out@[j]@ == spec_log_prefix() + lines@[j]@,
        decreases lines@.len() - i,
    {
        out.push(diagnostic_record(&lines[i]));
        i = i + 1;
    }
    out
}

/// A run that the tool itself reported as failed: it exited with a non-zero
/// status after writing `output` to its primary stream. The exit code value
/// is deliberately not kept — callers rely on a text-only failure payload.
#[derive(Debug)]
pub struct ExecFailure {
    /// The primary output captured before the tool exited, decoded as text.
    pub output: String,
}

impl ExecFailure {
    /// The failure as a single line of text, carrying the captured primary
    /// output and nothing else.
    pub fn message(&self) -> (r: String)
        ensures
            r@ == "pgcopydb command failed: stdout: "@ + self.output@,
    {
        String::from_str("pgcopydb command failed: stdout: ").concat(self.output.as_str())
    }
}

/// Decides what a finished run means for the caller. `exit_ok` is whether the
/// tool's exit status was zero; `primary_output` is everything it wrote to its
/// primary stream. A zero exit yields exactly that output, decoded as text;
/// a non-zero exit yields a failure carrying the same decoded text, and
/// nothing succeeds or fails on any other grounds.
pub fn run_outcome(exit_ok: bool, primary_output: Vec<u8>) -> (r: Result<String, ExecFailure>)
    ensures
        r is Ok <==> exit_ok,
        r is Ok ==> r->Ok_0@ == lossy_utf8_of(primary_output@),
        r is Err ==> r->Err_0.output@ == lossy_utf8_of(primary_output@),
{
    let text = decode_lossy(&primary_output);
    if exit_ok {
        Ok(text)
    } else {
        Err(ExecFailure { output: text })
    }
}

} // verus!
