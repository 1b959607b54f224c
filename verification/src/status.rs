//! Classification of one completed run of the battery status utility, and
//! the program's terminal failures.
//!
//! The program runs the status utility once, captures its exit condition and
//! both output streams, and hands the decoded text here. The run yields a
//! reading exactly when the utility succeeded, printed something besides
//! whitespace, and that text holds the percentage-and-time pattern; every
//! other case is one terminal error. Failures of the program that happen
//! before or after that run (a missing tool, a process that could not be
//! started) have their own variants, so that every diagnostic line the
//! program prints is built in one place.

use vstd::prelude::*;

use crate::extract::ExtractedReading;
use crate::extract::extract_battery_fields;
use crate::extract::extracted_fields;

verus! {

/// Whether a character counts as whitespace; what `char::is_whitespace`
/// returns depends on the character alone.
pub uninterp spec fn is_unicode_whitespace(c: char) -> bool;

/// Relies on `char::is_whitespace`: whether `c` has the Unicode
/// `White_Space` property.
#[verifier::external_body]
fn char_is_whitespace(c: char) -> (r: bool)
    ensures
        r == is_unicode_whitespace(c),
{
    c.is_whitespace()
}

/// Every character of `s` is whitespace; true of the empty text.
pub open spec fn blank(s: Seq<char>) -> bool {
    forall|i: int| 0 <= i < s.len() ==> is_unicode_whitespace(s[i])
}

/// Whether the captured status text is empty or whitespace-only.
pub fn is_blank(text: &str) -> (r: bool)
    ensures
        r == blank(text@),
{
    let n: usize = text.unicode_len();
    let mut i: usize = 0;
    while i < n
        invariant
            n == text@.len(),
            i <= n,
            forall|k: int| 0 <= k < i ==> is_unicode_whitespace(text@[k]),
        decreases n - i,
    {
        if !char_is_whitespace(text.get_char(i)) {
            return false;
        }
        i += 1;
    }
    true
}

/// The terminal failures of one battery-notification run. Each carries what
/// its diagnostic line needs; every failure ends the run with no notification
/// sent.
#[derive(Clone, Debug, PartialEq, Eq)]
pub enum BatteryError {
    /// A required external tool cannot be resolved: the tool's name and the
    /// package that provides it.
    ToolMissing(String, String),
    /// The status utility could not be started; holds the reported reason.
    StartFailed(String),
    /// The status utility exited with failure; holds its captured error text.
    CommandFailed(String),
    /// The status utility printed nothing but whitespace.
    NoBatteryInfo,
    /// The status text holds no percentage-and-time pattern.
    ParseFailed,
    /// The notification utility could not be started; holds the reported
    /// reason.
    NotifyFailed(String),
}

/// Turn one completed run of the status utility into a reading or an error.
///
/// `exit_ok` is whether the utility reported success; `stdout_text` and
/// `stderr_text` are its two captured streams, decoded. A failed exit wins
/// over everything and carries the error text; then whitespace-only output;
/// then a text that does not match the pattern; otherwise the extracted
/// reading is returned.
pub fn interpret_battery_output(exit_ok: bool, stdout_text: &str, stderr_text: &str) -> (r: Result<
    ExtractedReading,
    BatteryError,
>)
    ensures
        (match r {
            Ok(reading) => exit_ok && !blank(stdout_text@) && extracted_fields(stdout_text@)
                == Some((reading.percentage@, reading.remaining@)),
            Err(e) => (match e {
                BatteryError::CommandFailed(detail) => !exit_ok && detail@ == stderr_text@,
                BatteryError::NoBatteryInfo => exit_ok && blank(stdout_text@),
                BatteryError::ParseFailed => exit_ok && !blank(stdout_text@) && extracted_fields(
                    stdout_text@,
                ) is None,
                _ => false,
            }),
        }),
{
    if !exit_ok {
        return Err(BatteryError::CommandFailed(stderr_text.to_owned()));
    }
    if is_blank(stdout_text) {
        return Err(BatteryError::NoBatteryInfo);
    }
    match extract_battery_fields(stdout_text) {
        Some(reading) => Ok(reading),
        None => Err(BatteryError::ParseFailed),
    }
}

} // verus!
