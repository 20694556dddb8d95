//! The one place the supervision core reads the wall clock.

use vstd::prelude::*;

verus! {

/// Relies on `chrono::Local::now` and its `%H:%M:%S` formatting: the current
/// local wall-clock time as two-digit hours, minutes and seconds separated
/// by colons — eight characters. Nothing more can be promised of a clock
/// reading.
#[verifier::external_body]
pub(crate) fn now_hms() -> (r: String)
    ensures
        r@.len() == 8,
{
    chrono::Local::now().format("%H:%M:%S").to_string()
}

} // verus!
