use vstd::prelude::*;

verus! {

/// Resolution of a unit roll. A roll is a uniform draw from `[0, ROLL_SCALE)`
/// and stands for a real number in `[0, 1)`, in ten-thousandths.
pub const ROLL_SCALE: u32 = 10000;

/// Relies on `rand::thread_rng` and `Rng::gen_range`: a uniform draw from
/// `0..bound`, which panics only when that range is empty.
#[verifier::external_body]
fn draw_below(bound: u32) -> (r: u32)
    requires
        bound > 0,
    ensures
        r < bound,
{
    rand::Rng::gen_range(&mut rand::thread_rng(), 0..bound)
}

/// Draws one unit roll from the thread-local generator.
pub fn roll() -> (r: u32)
    ensures
        r < ROLL_SCALE,
{
    draw_below(ROLL_SCALE)
}

/// The fixed-point image of `u * span` for the unit value `u` that `roll`
/// stands for, truncated toward zero.
pub open spec fn scaled(roll: nat, span: nat) -> nat {
    roll * span / (ROLL_SCALE as nat)
}

/// Scales a unit roll to `[0, span)`.
pub fn scale(roll: u32, span: u32) -> (r: u32)
    requires
        roll < ROLL_SCALE,
    ensures
        r as nat == scaled(roll as nat, span as nat),
        span > 0 ==> r < span,
        r <= span,
{
    assert((roll as nat) * (span as nat) <= 10000 * 0xffff_ffff) by (nonlinear_arith)
        requires
            roll < 10000,
    ;
    let p: u64 = roll as u64 * span as u64;
    let q: u64 = p / ROLL_SCALE as u64;
    assert(q <= span && (span > 0 ==> q < span)) by (nonlinear_arith)
        requires
            roll < 10000,
            p == roll * span,
            q == p / 10000,
    ;
    q as u32
}

} // verus!
