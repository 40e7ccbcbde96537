//! The text of a moment under a date pattern.

use vstd::prelude::*;

verus! {

/// A moment: whole seconds since the start of 1970 in universal time, and
/// the observer's distance from universal time in seconds, east positive.
#[derive(Clone, Copy, Debug, PartialEq, Eq, Structural)]
pub struct Moment {
    pub seconds: i64,
    pub offset: i32,
}

/// What chrono writes for the moment `seconds` after the start of 1970, seen
/// `offset` seconds east of universal time, under the strftime pattern
/// `pattern`; nothing where chrono has no such moment or offset, or refuses
/// the pattern.
pub uninterp spec fn date_text(seconds: int, offset: int, pattern: Seq<char>) -> Option<Seq<char>>;

/// Calls chrono: `FixedOffset::east_opt` and `DateTime::from_timestamp` turn
/// the two numbers into a date and time in that zone, and
/// `DateTime::format` with `DelayedFormat::write_to` writes it under
/// `pattern`. The contract only gives the outcome its name: the text written,
/// or nothing where any of the steps fails.
#[verifier::external_body]
fn format_date(seconds: i64, offset: i32, pattern: &str) -> (r: Option<String>)
    ensures
        match r {
            Some(s) => date_text(seconds as int, offset as int, pattern@) == Some(s@),
            None => date_text(seconds as int, offset as int, pattern@) is None,
        },
{
    let zone = chrono::FixedOffset::east_opt(offset)?;
    let utc = chrono::DateTime::from_timestamp(seconds, 0)?;
    let mut out = String::new();
    utc.with_timezone(&zone).format(pattern).write_to(&mut out).ok()?;
    Some(out)
}

impl Moment {
    /// The moment's text under `pattern`, where it has one.
    pub open spec fn text(self, pattern: Seq<char>) -> Option<Seq<char>> {
        date_text(self.seconds as int, self.offset as int, pattern)
    }

    /// Writes the moment under the strftime pattern `pattern`; nothing where
    /// the moment, the offset or the pattern is out of what can be written.
    pub fn format(&self, pattern: &str) -> (r: Option<String>)
        ensures
            match r {
                Some(s) => self.text(pattern@) == Some(s@),
                None => self.text(pattern@) is None,
            },
    {
        format_date(self.seconds, self.offset, pattern)
    }
}

} // verus!
