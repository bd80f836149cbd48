pub mod config;
pub mod digits;
pub mod email;
pub mod errors;
pub mod ids;
pub mod keys;
pub mod kv;
pub mod otp;
pub mod password;
pub mod requests;
pub mod responses;
pub mod service;
pub mod token;
pub mod users;

use vstd::prelude::*;

verus! {

/// Seconds in one minute, used to turn configured minutes into store TTLs.
pub const SECONDS_PER_MINUTE: u64 = 60;

/// Adds two durations of seconds, capping at the largest representable
/// instant instead of wrapping around.
pub fn saturating_add_u64(a: u64, b: u64) -> (r: u64)
    ensures
        r == if a + b <= u64::MAX { a + b } else { u64::MAX as int },
{
    if a <= u64::MAX - b {
        a + b
    } else {
        u64::MAX
    }
}

/// Multiplies two durations, capping at the largest representable value
/// instead of wrapping around.
pub fn saturating_mul_u64(a: u64, b: u64) -> (r: u64)
    ensures
        r == if a * b <= u64::MAX { a * b } else { u64::MAX as int },
{
    if b == 0 {
        0
    } else {
        let q = u64::MAX / b;
        if a <= q {
            proof {
                assert(a * b <= u64::MAX) by (nonlinear_arith)
                    requires
                        b > 0,
                        a <= u64::MAX as int / b as int,
                ;
            }
            a * b
        } else {
            proof {
                assert(a * b > u64::MAX) by (nonlinear_arith)
                    requires
                        b > 0,
                        a > u64::MAX as int / b as int,
                ;
            }
            u64::MAX
        }
    }
}

} // verus!
