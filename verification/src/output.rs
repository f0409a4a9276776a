//! Naming the output file.

use vstd::prelude::*;
use vstd::string::*;

verus! {

/// How the moment of writing is spelled in the file name: date and time of
/// day, to the second.
pub const STAMP_PATTERN: &'static str = "%Y-%m-%d-%H-%M-%S";

/// Shown when the transcript is written.
pub const SUCCESS: &'static str = "Transcription successful. File saved on Desktop.";

/// What `chrono` prints for the UTC moment `seconds` after the Unix epoch
/// under the `strftime` pattern `pattern`: `None` where the moment is out of
/// `chrono`'s range or the pattern is one it cannot print.
pub uninterp spec fn utc_text(seconds: int, pattern: Seq<char>) -> Option<Seq<char>>;

/// `chrono::DateTime::from_timestamp` at nanosecond 0, then `format` with
/// the pattern, written out with `write_to`. The contract only names the
/// outcome.
#[verifier::external_body]
fn format_utc(seconds: i64, pattern: &str) -> (r: Option<String>)
    ensures
        match r {
            Some(text) => utc_text(seconds as int, pattern@) == Some(text@),
            None => utc_text(seconds as int, pattern@) is None,
        },
{
    let moment = chrono::DateTime::from_timestamp(seconds, 0)?;
    let mut out = String::new();
    match moment.format(pattern).write_to(&mut out) {
        Ok(()) => Some(out),
        Err(_) => None,
    }
}

/// Name of the output file for a moment spelled `stamp`.
pub open spec fn file_name(stamp: Seq<char>) -> Seq<char> {
    "transcription-"@ + stamp + ".md"@
}

/// Name of the output file written at `seconds` after the Unix epoch, if
/// that moment can be spelled.
pub open spec fn file_name_at(seconds: int) -> Option<Seq<char>> {
    match utc_text(seconds, STAMP_PATTERN@) {
        Some(stamp) => Some(file_name(stamp)),
        None => None,
    }
}

/// Name of the output file for a moment spelled `stamp`.
pub fn output_file_name_for(stamp: &str) -> (r: String)
    ensures
        r@ == file_name(stamp@),
{
    let mut out = String::from_str("transcription-");
    out.append(stamp);
    out.append(".md");
    out
}

/// Name of the output file written at `unix_seconds` after the Unix epoch,
/// UTC. There is none for a moment that cannot be spelled.
pub fn output_file_name(unix_seconds: i64) -> (r: Option<String>)
    ensures
        match r {
            Some(name) => file_name_at(unix_seconds as int) == Some(name@),
            None => file_name_at(unix_seconds as int) is None,
        },
{
    match format_utc(unix_seconds, STAMP_PATTERN) {
        Some(stamp) => Some(output_file_name_for(stamp.as_str())),
        None => None,
    }
}

} // verus!
