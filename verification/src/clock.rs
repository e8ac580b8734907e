//! Readings of the clock, as the text that stamps a saved file.

use vstd::prelude::*;

verus! {

/// The text of one reading of the clock.  Only `now_rfc3339` makes one, so
/// a text that is the text of some reading was read from the clock.
pub struct ClockReading {
    text: String,
}

impl ClockReading {
    /// The text of the reading.
    pub closed spec fn text(self) -> Seq<char> {
        self.text@
    }

    /// The text of the reading, as a `String`.
    pub fn into_text(self) -> (s: String)
        ensures
            s@ == self.text(),
    {
        self.text
    }
}

/// `s` is the text of a reading of the clock.
pub open spec fn is_clock_reading(s: Seq<char>) -> bool {
    exists|r: ClockReading| #[trigger] r.text() == s
}

/// The current time in RFC 3339 form.
///
/// Trusted: `chrono::Utc::now().to_rfc3339()`.  The time depends on the
/// clock, so the contract claims only what every outcome has: the text is
/// not empty.
#[verifier::external_body]
pub(crate) fn now_rfc3339() -> (r: ClockReading)
    ensures
        r.text().len() > 0,
{
    ClockReading { text: chrono::Utc::now().to_rfc3339() }
}

} // verus!
