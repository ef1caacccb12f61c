//! What the library takes on trust from the standard library: the functions
//! of `std` that it calls and of which `vstd` says nothing. Nothing here is
//! proved; each contract repeats what the documentation of `std` promises.

use std::time::Duration;
use vstd::prelude::*;

verus! {

/// What `Duration::as_millis` returns for a duration: the whole
/// milliseconds that it holds.
pub uninterp spec fn whole_millis(d: Duration) -> nat;

/// What `Duration::from_millis` returns for a number of milliseconds.
pub uninterp spec fn duration_of_millis(millis: u64) -> Duration;

/// `Duration::from_millis`: the duration of exactly `millis` milliseconds,
/// which therefore holds `millis` whole milliseconds.
#[verifier::external_body]
pub(crate) fn duration_from_millis(millis: u64) -> (d: Duration)
    ensures
        d == duration_of_millis(millis),
        whole_millis(d) == millis,
{
    Duration::from_millis(millis)
}

/// `Duration::as_millis`: the whole milliseconds that the duration holds.
#[verifier::external_body]
pub(crate) fn duration_as_millis(d: &Duration) -> (millis: u128)
    ensures
        millis == whole_millis(*d),
{
    d.as_millis()
}

/// `String::push`: the character is appended, the text before it stays.
pub assume_specification[ String::push ](text: &mut String, c: char)
    ensures
        final(text)@ == old(text)@.push(c),
;

} // verus!
