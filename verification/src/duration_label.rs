//! Clock-style labels for track and playback durations.
//!
//! The label for a duration depends on its whole seconds alone; below one
//! hundred hours it is `HH:MM:SS` with two-digit, zero-padded fields.

use hhmmss::Hhmmss;
use vstd::prelude::*;

verus! {

/// The character for a single decimal digit.
pub open spec fn digit_char(d: int) -> char {
    if d == 0 {
        '0'
    } else if d == 1 {
        '1'
    } else if d == 2 {
        '2'
    } else if d == 3 {
        '3'
    } else if d == 4 {
        '4'
    } else if d == 5 {
        '5'
    } else if d == 6 {
        '6'
    } else if d == 7 {
        '7'
    } else if d == 8 {
        '8'
    } else {
        '9'
    }
}

/// A number below one hundred printed as two zero-padded digits.
pub open spec fn two_digits(n: int) -> Seq<char> {
    seq![digit_char(n / 10), digit_char(n % 10)]
}

/// The clock label that a duration of `secs` whole seconds carries.
pub uninterp spec fn hhmmss_of(secs: u64) -> Seq<char>;

/// Relies on hhmmss's formatting of a `std::time::Duration`: the result is
/// a function of the whole seconds alone, and for durations below one
/// hundred hours it is the two-digit hours, minutes and seconds joined by
/// colons. The crate casts the seconds to a signed word and negates a
/// negative value, so seconds at or beyond `2^63` stay out.
#[verifier::external_body]
pub(crate) fn hhmmss_label(secs: u64) -> (r: String)
    requires
        secs < 0x8000_0000_0000_0000,
    ensures
        r@ == hhmmss_of(secs),
        secs < 360000 ==> r@ == two_digits(secs as int / 3600) + seq![':']
            + two_digits((secs as int % 3600) / 60) + seq![':'] + two_digits(secs as int % 60),
{
    std::time::Duration::from_secs(secs).hhmmss()
}

} // verus!
