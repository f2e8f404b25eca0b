//! Greyscale mapping from escape-time counts to bytes.
use vstd::prelude::*;

verus! {

/// The grey level of a pixel whose orbit survived `count` of `max`
/// iterations: `count / max * 255`, rounded to the nearest integer
/// (halves round up).
pub open spec fn grey(count: int, max: int) -> int {
    (510 * count + max) / (2 * max)
}

/// Grey level of an escape-time count: the ratio `count / max`, scaled to
/// `0..=255` and rounded to the nearest integer.
pub fn grey_level(count: u32, max: u32) -> (r: u8)
    requires
        0 < max,
        count <= max,
    ensures
        r as int == grey(count as int, max as int),
        count == max ==> r == 255,
        count == 0 ==> r == 0,
{
    let num: u64 = 510 * (count as u64) + (max as u64);
    let den: u64 = 2 * (max as u64);
    let g: u64 = num / den;
    proof {
        assert(num <= 255 * den + max) by (nonlinear_arith)
            requires
                num == 510 * (count as int) + max,
                den == 2 * max,
                count <= max,
        ;
        assert(num / den <= 255) by (nonlinear_arith)
            requires
                num <= 255 * den + max,
                den == 2 * max,
                max > 0,
        ;
        if count == 0 {
            assert(num / den == 0) by (nonlinear_arith)
                requires
                    num == max,
                    den == 2 * max,
                    max > 0,
            ;
        }
        if count == max {
            assert(num == 255 * den + max);
            assert(num / den == 255) by (nonlinear_arith)
                requires
                    num == 255 * den + max,
                    den == 2 * max,
                    max > 0,
            ;
        }
    }
    g as u8
}

} // verus!
