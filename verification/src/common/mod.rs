//! Helpers shared by the blocking and the asynchronous clients.

use rand::Rng;
use vstd::prelude::*;

verus! {

/// A random number in `low..high`, drawn with
/// `rand::rng().random_range(low..high)` from the thread-local generator.
/// Claimed: the number lies in the range; which one it is, is left open.
#[verifier::external_body]
fn random_in_range(low: u16, high: u16) -> (res: u16)
    requires
        low < high,
    ensures
        low <= res < high,
{
    rand::rng().random_range(low..high)
}

/// A random port in the dynamic range `32768..65535`.
pub fn random_port() -> (res: u16)
    ensures
        32768 <= res < 65535,
{
    random_in_range(32768, 65535)
}

} // verus!
