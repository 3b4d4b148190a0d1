//! What the library knows of `std::time::Duration`.
//!
//! A duration is opaque to the verifier. Contracts speak of it through
//! [`duration_nanos`], its length in nanoseconds, and the three functions of
//! the standard library specified here are the only ones that verified code
//! calls on it.

use std::time::Duration;
use vstd::prelude::*;

verus! {

/// Nanoseconds in one second.
pub const NANOS_PER_SEC: u64 = 1_000_000_000;

/// The length of a duration in nanoseconds.
pub uninterp spec fn duration_nanos(d: Duration) -> nat;

/// The whole seconds of a duration: what is left when the fraction of a
/// second is dropped.
pub open spec fn duration_secs(d: Duration) -> nat {
    duration_nanos(d) / (NANOS_PER_SEC as nat)
}

/// Whether a duration is a whole number of seconds.
pub open spec fn whole_seconds(d: Duration) -> bool {
    duration_nanos(d) % (NANOS_PER_SEC as nat) == 0
}

/// Trusted: `Duration::from_secs` makes a duration of exactly `secs` whole
/// seconds, as the standard library documents.
pub assume_specification[ Duration::from_secs ](secs: u64) -> (d: Duration)
    ensures
        duration_nanos(d) == secs as nat * (NANOS_PER_SEC as nat),
;

/// Trusted: `Duration::as_secs` gives the number of whole seconds that a
/// duration holds and leaves out the fraction of a second.
pub assume_specification[ Duration::as_secs ](d: &Duration) -> (secs: u64)
    ensures
        secs as nat == duration_secs(*d),
;

/// Trusted: `Duration::as_nanos` gives the whole length of a duration in
/// nanoseconds.
pub assume_specification[ Duration::as_nanos ](d: &Duration) -> (nanos: u128)
    ensures
        nanos as nat == duration_nanos(*d),
;

/// A duration made by `Duration::from_secs` is a whole number of seconds, and
/// `secs` is that number.
pub proof fn lemma_from_secs(nanos: nat, secs: nat)
    requires
        nanos == secs * (NANOS_PER_SEC as nat),
    ensures
        nanos / (NANOS_PER_SEC as nat) == secs,
        nanos % (NANOS_PER_SEC as nat) == 0,
{
    assert(nanos / 1_000_000_000 == secs && nanos % 1_000_000_000 == 0) by (nonlinear_arith)
        requires
            nanos == secs * 1_000_000_000,
    ;
}

} // verus!
