//! The grid of an analysis: which harmonics are estimated, in what order,
//! and where each sample of the outline falls.

use crate::outline::{drawn, SVGPath};
use vstd::prelude::*;

verus! {

/// The frequency at position `index` of the analysis: the harmonics come
/// in pairs, each frequency followed by its negative, from 1 upwards.
pub open spec fn frequency_at(index: int) -> int {
    if index % 2 == 0 {
        index / 2 + 1
    } else {
        -(index / 2 + 1)
    }
}

/// The frequencies of an analysis up to `bound`, in the order in which
/// their rotating vectors are chained: 1, -1, 2, -2, and so on to `bound`
/// and its negative. None is left out and none comes twice.
pub fn frequencies(bound: u32) -> (list: Vec<i64>)
    ensures
        list.len() == 2 * bound,
        forall|index: int| 0 <= index < list.len() ==> list[index] == frequency_at(index),
{
    let mut list: Vec<i64> = Vec::new();
    let mut frequency: u32 = 0;
    while frequency < bound
        invariant
            frequency <= bound,
            list.len() == 2 * frequency,
            forall|index: int| 0 <= index < list.len() ==> list[index] == frequency_at(index),
        decreases bound - frequency,
    {
        frequency += 1;
        let signed = frequency as i64;
        list.push(signed);
        list.push(-signed);
    }
    list
}

/// Whether `place` is where sample `sample` of `samples` falls on a curve
/// of `segments` segments of equal share: the whole part of
/// `sample * segments / samples` is the segment, and the rest, counted in
/// steps of `1 / samples`, is how far along that segment the sample lies.
pub open spec fn placed(sample: int, samples: int, segments: int, place: (usize, usize)) -> bool {
    &&& place.0 * samples + place.1 == sample * segments
    &&& 0 <= place.1 < samples
}

/// A sample has one place only: the segment and the rest are the quotient
/// and the remainder of one division.
pub proof fn placement_is_unique(
    sample: int,
    samples: int,
    segments: int,
    one: (usize, usize),
    other: (usize, usize),
)
    requires
        placed(sample, samples, segments, one),
        placed(sample, samples, segments, other),
    ensures
        one == other,
{
    assert(one.0 == other.0) by (nonlinear_arith)
        requires
            one.0 * samples + one.1 == other.0 * samples + other.1,
            0 <= one.1 < samples,
            0 <= other.1 < samples,
    ;
}

/// The first sample falls on the start of the first segment, and a sample
/// that comes later never falls on an earlier segment.
pub proof fn placement_follows_the_outline(
    earlier: int,
    later: int,
    samples: int,
    segments: int,
    first: (usize, usize),
    second: (usize, usize),
)
    requires
        0 <= earlier <= later,
        0 <= segments,
        placed(earlier, samples, segments, first),
        placed(later, samples, segments, second),
    ensures
        earlier == 0 ==> first == (0usize, 0usize),
        first.0 <= second.0,
{
    assert(first.0 <= second.0) by (nonlinear_arith)
        requires
            first.0 * samples + first.1 == earlier * segments,
            second.0 * samples + second.1 == later * segments,
            0 <= first.1 < samples,
            0 <= second.1 < samples,
            0 <= earlier <= later,
            0 <= segments,
    ;
    if earlier == 0 {
        assert(earlier * segments == 0) by (nonlinear_arith)
            requires
                earlier == 0,
        ;
        assert(first.0 == 0 && first.1 == 0) by (nonlinear_arith)
            requires
                first.0 * samples + first.1 == 0,
                0 <= first.1 < samples,
                0 <= first.0,
        ;
    }
}

impl SVGPath {
    /// Finds the segment on which sample `sample` of `samples` falls, and
    /// how far along it: the parameter `sample / samples` of the whole
    /// outline, taken times the number of segments, has the segment as its
    /// whole part and the place on it as its fraction, here the count of
    /// steps of `1 / samples`.
    ///
    /// The outline is walked round and round: a sample beyond the grid
    /// falls where the sample `sample % samples` does.
    pub fn locate(&self, sample: usize, samples: usize) -> (place: (usize, usize))
        requires
            samples > 0,
        ensures
            placed((sample % samples) as int, samples as int, drawn(self@) as int, place),
            place.0 < drawn(self@),
    {
        let segments = self.segment_count();
        let sample = sample % samples;
        assert(sample * segments <= u128::MAX) by (nonlinear_arith)
            requires
                0 <= sample <= u64::MAX,
                0 <= segments <= u64::MAX,
        ;
        let product = sample as u128 * segments as u128;

        let whole = product / samples as u128;
        let rest = product % samples as u128;
        assert(whole < segments && whole * samples + rest == product) by (nonlinear_arith)
            requires
                product == sample * segments,
                0 <= sample < samples,
                0 < segments,
                whole == product / (samples as u128),
                rest == product % (samples as u128),
        ;
        (whole as usize, rest as usize)
    }
}

} // verus!
