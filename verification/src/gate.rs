//! Averaged-color heuristic gate for fetched screenshots.
//!
//! Channel intensities are carried in thousandths of full scale, so the
//! normalized thresholds are exact integer comparisons: an image is accepted
//! when its averaged red and green channels are below 0.7 of full scale and
//! its averaged blue channel is above 0.4 of full scale.

use vstd::prelude::*;

verus! {

/// Full scale of one color channel: a channel value of `CHANNEL_SCALE`
/// means 1.0 in normalized terms.
pub const CHANNEL_SCALE: u16 = 1000;

/// One pixel's color, each channel in thousandths of full scale.
#[derive(PartialEq, Eq, Structural, Clone, Copy, Debug)]
pub struct Pixel {
    pub red: u16,
    pub green: u16,
    pub blue: u16,
}

impl Pixel {
    /// Each channel is at most full scale.
    pub open spec fn wf(self) -> bool {
        self.red <= CHANNEL_SCALE && self.green <= CHANNEL_SCALE && self.blue <= CHANNEL_SCALE
    }
}

/// Sum of the red channel over a pixel sequence.
pub open spec fn sum_red(s: Seq<Pixel>) -> int
    decreases s.len(),
{
    if s.len() == 0 {
        0
    } else {
        sum_red(s.drop_last()) + s.last().red
    }
}

/// Sum of the green channel over a pixel sequence.
pub open spec fn sum_green(s: Seq<Pixel>) -> int
    decreases s.len(),
{
    if s.len() == 0 {
        0
    } else {
        sum_green(s.drop_last()) + s.last().green
    }
}

/// Sum of the blue channel over a pixel sequence.
pub open spec fn sum_blue(s: Seq<Pixel>) -> int
    decreases s.len(),
{
    if s.len() == 0 {
        0
    } else {
        sum_blue(s.drop_last()) + s.last().blue
    }
}

/// The acceptance test on the averaged channels, written without division:
/// average red < 0.7 and average green < 0.7 and average blue > 0.4, where an
/// average is the channel sum over `len * CHANNEL_SCALE`.
pub open spec fn spec_gate(s: Seq<Pixel>) -> bool {
    &&& 10 * sum_red(s) < 7 * (CHANNEL_SCALE as int) * s.len()
    &&& 10 * sum_green(s) < 7 * (CHANNEL_SCALE as int) * s.len()
    &&& 10 * sum_blue(s) > 4 * (CHANNEL_SCALE as int) * s.len()
}

/// Channel sums are bounded by the pixel count times full scale.
proof fn lemma_sum_bounds(s: Seq<Pixel>)
    requires
        forall|i: int| 0 <= i < s.len() ==> (#[trigger] s[i]).wf(),
    ensures
        0 <= sum_red(s) <= s.len() * (CHANNEL_SCALE as int),
        0 <= sum_green(s) <= s.len() * (CHANNEL_SCALE as int),
        0 <= sum_blue(s) <= s.len() * (CHANNEL_SCALE as int),
    decreases s.len(),
{
    if s.len() > 0 {
        lemma_sum_bounds(s.drop_last());
        assert(s.last().wf());
        assert((s.len() - 1) * (CHANNEL_SCALE as int) + (CHANNEL_SCALE as int) == s.len() * (
        CHANNEL_SCALE as int)) by (nonlinear_arith);
    }
}

/// Whether an image with the given pixels passes the averaged-color gate.
///
/// The pixel count must be positive: an image with no pixels has no average.
pub fn gate(pixels: &Vec<Pixel>) -> (accepted: bool)
    requires
        pixels@.len() > 0,
        forall|i: int| 0 <= i < pixels@.len() ==> (#[trigger] pixels@[i]).wf(),
    ensures
        accepted == spec_gate(pixels@),
{
    let mut red: u128 = 0;
    let mut green: u128 = 0;
    let mut blue: u128 = 0;
    let mut i: usize = 0;
    proof {
        assert(pixels@.take(0) =~= Seq::<Pixel>::empty());
    }
    while i < pixels.len()
        invariant
            i <= pixels@.len(),
            forall|k: int| 0 <= k < pixels@.len() ==> (#[trigger] pixels@[k]).wf(),
            red == sum_red(pixels@.take(i as int)),
            green == sum_green(pixels@.take(i as int)),
            blue == sum_blue(pixels@.take(i as int)),
        decreases pixels@.len() - i,
    {
        proof {
            lemma_sum_bounds(pixels@.take(i as int));
            assert(i * (CHANNEL_SCALE as int) <= 0xffff_ffff_ffff_ffff * 1000) by (
            nonlinear_arith)
                requires
                    0 <= i <= 0xffff_ffff_ffff_ffff,
            ;
            assert(pixels@.take(i + 1).drop_last() =~= pixels@.take(i as int));
            assert(pixels@.take(i + 1).last() == pixels@[i as int]);
        }
        let p = pixels[i];
        red = red + p.red as u128;
        green = green + p.green as u128;
        blue = blue + p.blue as u128;
        i += 1;
    }
    let n_usize: usize = pixels.len();
    let n = n_usize as u128;
    proof {
        assert(pixels@.take(n_usize as int) =~= pixels@);
        lemma_sum_bounds(pixels@);
        assert((CHANNEL_SCALE as u128) * n <= 1000 * 0xffff_ffff_ffff_ffff) by (nonlinear_arith)
            requires
                0 <= n <= 0xffff_ffff_ffff_ffff,
                CHANNEL_SCALE == 1000,
        ;
    }
    let scaled_n: u128 = (CHANNEL_SCALE as u128) * n;
    proof {
        assert(red == sum_red(pixels@));
        assert(scaled_n == (CHANNEL_SCALE as int) * pixels@.len());
        assert(7 * (scaled_n as int) == 7 * (CHANNEL_SCALE as int) * pixels@.len() && 4 * (
        scaled_n as int) == 4 * (CHANNEL_SCALE as int) * pixels@.len()) by (nonlinear_arith)
            requires
                scaled_n == (CHANNEL_SCALE as int) * pixels@.len(),
        ;
    }
    10 * red < 7 * scaled_n && 10 * green < 7 * scaled_n && 10 * blue > 4 * scaled_n
}

} // verus!
