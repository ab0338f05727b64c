use vstd::prelude::*;
use anchor_lang::prelude::{Clock, SolanaSysvar};

verus! {

/// Reads the hosting runtime's clock: `Clock::get` of `anchor_lang`, of which
/// the `unix_timestamp` field is handed on, in seconds since the epoch.
/// `None` where the runtime gives no clock. Nothing is claimed of the value:
/// it depends on when and where the call is made.
#[verifier::external_body]
pub(crate) fn unix_timestamp() -> (now: Option<i64>) {
    match Clock::get() {
        Ok(clock) => Some(clock.unix_timestamp),
        Err(_) => None,
    }
}

} // verus!
