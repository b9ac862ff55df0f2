//! The payment approval decision.
//!
//! The approval source is a placeholder coin flip: a uniform draw below 10
//! approves when it lands under 8. The draw itself comes from the process
//! random number generator; everything downstream of the draw is verified.

use vstd::prelude::*;

verus! {

/// Relies on `rand::Rng::gen_range` (through `rand::thread_rng`): a uniform
/// draw from the half-open range `0..n`, which is in range whenever the range
/// is non-empty. `gen_range` panics on an empty range, which the precondition
/// rules out.
#[verifier::external_body]
fn random_below(n: u32) -> (r: u32)
    requires
        n > 0,
    ensures
        r < n,
{
    rand::Rng::gen_range(&mut rand::thread_rng(), 0..n)
}

/// A uniform draw below `n`, for callers that need one.
pub fn draw_below(n: u32) -> (r: u32)
    requires
        n > 0,
    ensures
        r < n,
{
    random_below(n)
}

/// Whether a draw below 10 approves the payment: exactly the draws 0 through
/// 7 approve, so 8 of the 10 possible draws do.
pub fn approve_from_draw(draw: u32) -> (approved: bool)
    ensures
        approved == (draw < 8),
{
    draw < 8
}

/// The status word of the payment response: `"success"` when approved,
/// `"declined"` otherwise, and never any other value.
pub fn payment_status(approved: bool) -> (status: &'static str)
    ensures
        approved ==> status@ == "success"@,
        !approved ==> status@ == "declined"@,
{
    if approved {
        "success"
    } else {
        "declined"
    }
}

/// Draws the placeholder approval decision: a fresh uniform draw below 10,
/// approving when it lands under 8. The draw is random, so nothing more than
/// its range can be promised of the outcome.
pub fn decide_payment() -> bool {
    let draw = random_below(10);
    approve_from_draw(draw)
}

} // verus!
