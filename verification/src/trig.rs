//! Quantized trigonometry for the aim-to-velocity conversion.
//!
//! The throw direction is the unit vector at `(90 - angle)` degrees, held in
//! milli units: `sin_mdeg` and `cos_mdeg` return sine and cosine scaled by
//! 1000 and rounded to the nearest integer.  A single quarter-wave table for
//! 0..=90 degrees serves both, through the usual reflection identities, for
//! every argument the aim range [0, 230] can produce.

use vstd::prelude::*;

verus! {

pub open spec fn sin_table(d: int) -> int {
    if d == 0 { 0 } else
    if d == 1 { 17 } else
    if d == 2 { 35 } else
    if d == 3 { 52 } else
    if d == 4 { 70 } else
    if d == 5 { 87 } else
    if d == 6 { 105 } else
    if d == 7 { 122 } else
    if d == 8 { 139 } else
    if d == 9 { 156 } else
    if d == 10 { 174 } else
    if d == 11 { 191 } else
    if d == 12 { 208 } else
    if d == 13 { 225 } else
    if d == 14 { 242 } else
    if d == 15 { 259 } else
    if d == 16 { 276 } else
    if d == 17 { 292 } else
    if d == 18 { 309 } else
    if d == 19 { 326 } else
    if d == 20 { 342 } else
    if d == 21 { 358 } else
    if d == 22 { 375 } else
    if d == 23 { 391 } else
    if d == 24 { 407 } else
    if d == 25 { 423 } else
    if d == 26 { 438 } else
    if d == 27 { 454 } else
    if d == 28 { 469 } else
    if d == 29 { 485 } else
    if d == 30 { 500 } else
    if d == 31 { 515 } else
    if d == 32 { 530 } else
    if d == 33 { 545 } else
    if d == 34 { 559 } else
    if d == 35 { 574 } else
    if d == 36 { 588 } else
    if d == 37 { 602 } else
    if d == 38 { 616 } else
    if d == 39 { 629 } else
    if d == 40 { 643 } else
    if d == 41 { 656 } else
    if d == 42 { 669 } else
    if d == 43 { 682 } else
    if d == 44 { 695 } else
    if d == 45 { 707 } else
    if d == 46 { 719 } else
    if d == 47 { 731 } else
    if d == 48 { 743 } else
    if d == 49 { 755 } else
    if d == 50 { 766 } else
    if d == 51 { 777 } else
    if d == 52 { 788 } else
    if d == 53 { 799 } else
    if d == 54 { 809 } else
    if d == 55 { 819 } else
    if d == 56 { 829 } else
    if d == 57 { 839 } else
    if d == 58 { 848 } else
    if d == 59 { 857 } else
    if d == 60 { 866 } else
    if d == 61 { 875 } else
    if d == 62 { 883 } else
    if d == 63 { 891 } else
    if d == 64 { 899 } else
    if d == 65 { 906 } else
    if d == 66 { 914 } else
    if d == 67 { 921 } else
    if d == 68 { 927 } else
    if d == 69 { 934 } else
    if d == 70 { 940 } else
    if d == 71 { 946 } else
    if d == 72 { 951 } else
    if d == 73 { 956 } else
    if d == 74 { 961 } else
    if d == 75 { 966 } else
    if d == 76 { 970 } else
    if d == 77 { 974 } else
    if d == 78 { 978 } else
    if d == 79 { 982 } else
    if d == 80 { 985 } else
    if d == 81 { 988 } else
    if d == 82 { 990 } else
    if d == 83 { 993 } else
    if d == 84 { 995 } else
    if d == 85 { 996 } else
    if d == 86 { 998 } else
    if d == 87 { 999 } else
    if d == 88 { 999 } else
    if d == 89 { 1000 } else
    { 1000 }
}

fn sin_table_lookup(d: u32) -> (r: i64)
    requires d <= 90,
    ensures r == sin_table(d as int),
{
    match d {
        0 => 0,
        1 => 17,
        2 => 35,
        3 => 52,
        4 => 70,
        5 => 87,
        6 => 105,
        7 => 122,
        8 => 139,
        9 => 156,
        10 => 174,
        11 => 191,
        12 => 208,
        13 => 225,
        14 => 242,
        15 => 259,
        16 => 276,
        17 => 292,
        18 => 309,
        19 => 326,
        20 => 342,
        21 => 358,
        22 => 375,
        23 => 391,
        24 => 407,
        25 => 423,
        26 => 438,
        27 => 454,
        28 => 469,
        29 => 485,
        30 => 500,
        31 => 515,
        32 => 530,
        33 => 545,
        34 => 559,
        35 => 574,
        36 => 588,
        37 => 602,
        38 => 616,
        39 => 629,
        40 => 643,
        41 => 656,
        42 => 669,
        43 => 682,
        44 => 695,
        45 => 707,
        46 => 719,
        47 => 731,
        48 => 743,
        49 => 755,
        50 => 766,
        51 => 777,
        52 => 788,
        53 => 799,
        54 => 809,
        55 => 819,
        56 => 829,
        57 => 839,
        58 => 848,
        59 => 857,
        60 => 866,
        61 => 875,
        62 => 883,
        63 => 891,
        64 => 899,
        65 => 906,
        66 => 914,
        67 => 921,
        68 => 927,
        69 => 934,
        70 => 940,
        71 => 946,
        72 => 951,
        73 => 956,
        74 => 961,
        75 => 966,
        76 => 970,
        77 => 974,
        78 => 978,
        79 => 982,
        80 => 985,
        81 => 988,
        82 => 990,
        83 => 993,
        84 => 995,
        85 => 996,
        86 => 998,
        87 => 999,
        88 => 999,
        89 => 1000,
        _ => 1000,
    }
}

/// Milli-sine for any degree argument in [-180, 180].
pub open spec fn sin_mdeg(d: int) -> int {
    if d < 0 {
        -sin_mdeg_pos(-d)
    } else {
        sin_mdeg_pos(d)
    }
}

/// Milli-sine on [0, 180], folded onto the quarter-wave table.
pub open spec fn sin_mdeg_pos(d: int) -> int {
    if d <= 90 {
        sin_table(d)
    } else {
        sin_table(180 - d)
    }
}

/// Milli-cosine for any degree argument in [-180, 180].
pub open spec fn cos_mdeg(d: int) -> int {
    if -90 <= d <= 90 {
        sin_table(90 - abs_int(d))
    } else {
        -sin_table(abs_int(d) - 90)
    }
}

/// Absolute value of a mathematical integer.
pub open spec fn abs_int(d: int) -> int {
    if d < 0 {
        -d
    } else {
        d
    }
}

/// Table lookup for `sin_mdeg` over the whole supported span.
pub fn sin_lookup(d: i32) -> (r: i64)
    requires
        -180 <= d <= 180,
    ensures
        r == sin_mdeg(d as int),
        -1000 <= r <= 1000,
{
    proof {
        lemma_sin_table_range(abs_int(d as int));
        lemma_sin_table_range(180 - abs_int(d as int));
    }
    if d < 0 {
        let p: u32 = (-d) as u32;
        if p <= 90 {
            -sin_table_lookup(p)
        } else {
            -sin_table_lookup(180 - p)
        }
    } else {
        let p: u32 = d as u32;
        if p <= 90 {
            sin_table_lookup(p)
        } else {
            sin_table_lookup(180 - p)
        }
    }
}

/// Table lookup for `cos_mdeg` over the whole supported span.
pub fn cos_lookup(d: i32) -> (r: i64)
    requires
        -180 <= d <= 180,
    ensures
        r == cos_mdeg(d as int),
        -1000 <= r <= 1000,
{
    proof {
        lemma_sin_table_range(90 - abs_int(d as int));
        lemma_sin_table_range(abs_int(d as int) - 90);
    }
    let p: u32 = if d < 0 {
        (-d) as u32
    } else {
        d as u32
    };
    if p <= 90 {
        sin_table_lookup(90 - p)
    } else {
        -sin_table_lookup(p - 90)
    }
}

/// Every table entry lies in [0, 1000], the sine range in milli.
pub proof fn lemma_sin_table_range(d: int)
    ensures
        0 <= sin_table(d) <= 1000,
{
}

/// Each quarter-table pair `(sin d, cos d)` stays within rounding of the
/// milli unit circle: its squared norm differs from 1000^2 by at most 1200.
#[verifier::rlimit(100)]
pub proof fn lemma_table_norm_bounds(d: int)
    requires
        0 <= d <= 90,
    ensures
        999200 <= sin_table(d) * sin_table(d) + sin_table(90 - d) * sin_table(90 - d)
            <= 1001192,
{
    let s = sin_table(d);
    let c = sin_table(90 - d);
    assert(999200 <= s * s + c * c <= 1001192) by (nonlinear_arith)
        requires
            s == sin_table(d),
            c == sin_table(90 - d),
            0 <= d <= 90,
    ;
}

} // verus!
