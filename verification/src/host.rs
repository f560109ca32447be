//! The calls that leave this library: the clock, the user's home directory
//! and the permissive decoding of captured bytes. Their contracts are taken
//! on trust.

use vstd::prelude::*;
use std::time::{Duration, SystemTime, SystemTimeError, UNIX_EPOCH};

verus! {

/// The text that permissive UTF-8 decoding gives for `bytes`: valid sequences
/// decode to their characters, each invalid one becomes the replacement
/// character.
pub uninterp spec fn lossy_text(bytes: Seq<u8>) -> Seq<char>;

/// Calls `String::from_utf8_lossy` and owns the result. The decoding is a
/// function of the bytes alone; the contract gives it the name `lossy_text`
/// and claims nothing else of it.
#[verifier::external_body]
pub(crate) fn decode_lossy(bytes: &[u8]) -> (text: String)
    ensures
        text@ == lossy_text(bytes@),
{
    String::from_utf8_lossy(bytes).into_owned()
}

/// Calls `dirs::home_dir` and renders the path as text, permissively. The
/// answer depends on the environment and the user database, so nothing is
/// claimed of it: it may be absent, and two calls may differ.
#[verifier::external_body]
pub(crate) fn home_directory() -> (home: Option<String>)
{
    dirs::home_dir().map(|p| p.to_string_lossy().into_owned())
}

/// The standard library's point in time, carried through unread.
#[verifier::external_type_specification]
#[verifier::external_body]
pub struct ExSystemTime(std::time::SystemTime);

/// The standard library's error for a time that lies before another, carried
/// through unread.
#[verifier::external_type_specification]
#[verifier::external_body]
pub struct ExSystemTimeError(std::time::SystemTimeError);

/// `SystemTime::now` reads the clock: nothing is claimed of what it gives.
pub assume_specification[ SystemTime::now ]() -> (now: SystemTime)
;

/// `Duration::as_secs` gives the whole seconds of a duration whose contents
/// are not modelled here: nothing is claimed of the number.
pub assume_specification[ Duration::as_secs ](d: &Duration) -> (secs: u64)
;

/// Calls `SystemTime::duration_since` with the Unix epoch as the earlier
/// time. It fails when `t` lies before the epoch; nothing is claimed of the
/// duration.
#[verifier::external_body]
pub(crate) fn since_unix_epoch(t: &SystemTime) -> (elapsed: Result<Duration, SystemTimeError>)
{
    t.duration_since(UNIX_EPOCH)
}

/// The current time in whole seconds since the Unix epoch, or `None` when
/// the clock stands before the epoch.
pub(crate) fn unix_seconds() -> (secs: Option<u64>)
{
    let now: SystemTime = SystemTime::now();
    match since_unix_epoch(&now) {
        Ok(elapsed) => Some(elapsed.as_secs()),
        Err(_) => None,
    }
}

} // verus!
