//! The wall clock as the registry writes it.

use vstd::prelude::*;

use crate::text;

verus! {

/// The error of a count of milliseconds that 64 bits cannot hold.
pub open spec fn clock_overflow() -> Seq<char> {
    "out of range integral type conversion attempted"@
}

/// Milliseconds since the Unix epoch, from the time since the epoch that the system clock
/// gave, or its error.
pub fn current_unix_ms(since_epoch: Result<u128, String>) -> (r: Result<u64, String>)
    ensures
        text::outcome_of(r) == (match text::outcome_of(since_epoch) {
            Ok(millis) => if millis <= u64::MAX {
                Ok(millis as u64)
            } else {
                Err(clock_overflow())
            },
            Err(e) => Err(e),
        }),
        r is Ok ==> since_epoch is Ok && r->Ok_0 == since_epoch->Ok_0,
        since_epoch is Ok && since_epoch->Ok_0 < 0x1_0000_0000_0000_0000 ==> r is Ok,
{
    match since_epoch {
        Ok(millis) => if millis <= u64::MAX as u128 {
            Ok(millis as u64)
        } else {
            Err("out of range integral type conversion attempted".to_owned())
        },
        Err(error) => Err(error),
    }
}

} // verus!
