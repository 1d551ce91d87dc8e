//! One audit line per connection: a timestamp and the extracted method and
//! path, appended to standard output.  Formatting is verified; the clock,
//! the RFC 3339 rendering, and the write to standard output are trusted.

use std::io::Write;
use vstd::prelude::*;

verus! {

use crate::extract::{extract_request_line, method_token, path_token};
use vstd::string::StringExecFns;

/// The last second humantime can render: the final second of year 9999.
pub const MAX_RFC3339_SECS: u64 = 253_402_300_799;

/// The RFC 3339 rendering of a moment given as whole seconds since the
/// Unix epoch plus a subsecond nanosecond count.
pub uninterp spec fn rfc3339_of(secs: u64, nanos: u32) -> Seq<char>;

/// A timestamp clamped into the range the renderer accepts.
pub open spec fn clamped_secs(secs: u64) -> u64 {
    if secs <= MAX_RFC3339_SECS {
        secs
    } else {
        MAX_RFC3339_SECS
    }
}

/// The audit line written for one connection.
pub open spec fn log_line(ts: Seq<char>, method: Seq<char>, path: Seq<char>) -> Seq<char> {
    "["@ + ts + "] "@ + method + " "@ + path
}

/// Relies on `humantime::format_rfc3339`: a deterministic rendering of the
/// moment, 20 characters without fractional seconds and 30 with, which
/// fails only past year 9999 and before the epoch — both excluded here.
#[verifier::external_body]
fn rfc3339_string(secs: u64, nanos: u32) -> (r: String)
    requires
        secs <= MAX_RFC3339_SECS,
        nanos < 1_000_000_000,
    ensures
        r@ == rfc3339_of(secs, nanos),
        r@.len() == (if nanos == 0 { 20int } else { 30int }),
{
    let t = std::time::UNIX_EPOCH + std::time::Duration::new(secs, nanos);
    humantime::format_rfc3339(t).to_string()
}

/// Relies on `std::time::SystemTime::now`: the moment is whatever the
/// clock reports, converted to seconds since the Unix epoch and subsecond
/// nanoseconds, which `Duration` keeps below one billion; a clock before
/// the epoch reports the epoch itself.
#[verifier::external_body]
fn unix_now() -> (t: (u64, u32))
    ensures
        t.1 < 1_000_000_000,
{
    match std::time::SystemTime::now().duration_since(std::time::UNIX_EPOCH) {
        Ok(d) => (d.as_secs(), d.subsec_nanos()),
        Err(_) => (0, 0),
    }
}

/// Relies on `std::io::stdout`: appends the line to standard output in one
/// write; a write failure is discarded.
#[verifier::external_body]
fn emit_line(line: &str) {
    let _ = writeln!(std::io::stdout(), "{}", line);
}

/// Formats the audit line for one connection: the clamped timestamp in
/// brackets, then the method and path tokens.
pub fn format_log_line(secs: u64, nanos: u32, method: &str, path: &str) -> (r: String)
    requires
        nanos < 1_000_000_000,
    ensures
        r@ == log_line(rfc3339_of(clamped_secs(secs), nanos), method@, path@),
{
    let s = if secs <= MAX_RFC3339_SECS {
        secs
    } else {
        MAX_RFC3339_SECS
    };
    let ts = rfc3339_string(s, nanos);
    let mut r = String::from_str("[");
    r.append(ts.as_str());
    r.append("] ");
    r.append(method);
    r.append(" ");
    r.append(path);
    proof {
        assert(r@ =~= log_line(rfc3339_of(clamped_secs(secs), nanos), method@, path@));
    }
    r
}

/// Logs one connection: extracts the request line's tokens from the raw
/// bytes, stamps them with the current moment, appends the line to
/// standard output, and returns it.  Extraction never fails, so neither
/// does logging.
pub fn log_request(request: &[u8]) -> (line: String)
    ensures
        exists|s: u64, n: u32|
            n < 1_000_000_000 && line@ == log_line(
                #[trigger] rfc3339_of(clamped_secs(s), n),
                method_token(request@),
                path_token(request@),
            ),
{
    let (method, path) = extract_request_line(request);
    let (secs, nanos) = unix_now();
    let line = format_log_line(secs, nanos, method.as_str(), path.as_str());
    emit_line(line.as_str());
    line
}

} // verus!
