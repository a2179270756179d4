pub mod asset;
pub mod btsieve;
pub mod bytes;
pub mod chain;
pub mod config;
pub mod db;
pub mod http_api;
pub mod key;
pub mod rfc003;
pub mod secret;
pub mod text;

use vstd::prelude::*;

verus! {

/// A point in time, in seconds since the Unix epoch.
///
/// Expiries of hash time-locked contracts and the start of a swap are
/// measured at this granularity.
#[derive(Clone, Copy, Debug, PartialEq, Eq, Structural)]
pub struct Timestamp(pub u32);

/// Returns whether `expiry` lies strictly in the past, seen from `now`.
///
/// Timing is never an error by itself: this is the boolean precondition
/// that gates refund eligibility and the switch from watching for a redeem
/// to watching for a refund.
pub fn expiry_has_passed(expiry: Timestamp, now: Timestamp) -> (r: bool)
    ensures
        r == (expiry.0 < now.0),
{
    expiry.0 < now.0
}

} // verus!
