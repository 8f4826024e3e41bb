//! The logarithmic speed curve, tabulated.
//!
//! A speed is a percentage from 1 (slowest) to 100 (fastest). The curve maps
//! it to `10000 * log_100(percent)`, rounded to the nearest integer, so that
//! it rises from 0 at one percent to 10000 at a hundred. The library holds
//! the curve as integers: nothing in it computes a logarithm at run time.
use vstd::prelude::*;

verus! {

/// The longest delay bound, in milliseconds, and the height of the curve.
pub const MAX_MILLISECONDS: u64 = 10_000;

/// Rows 1 to 10 of the curve.
pub open spec fn drop_01_10(percent: int) -> int {
    if percent == 1 {
        0
    } else if percent == 2 {
        1505
    } else if percent == 3 {
        2386
    } else if percent == 4 {
        3010
    } else if percent == 5 {
        3495
    } else if percent == 6 {
        3891
    } else if percent == 7 {
        4225
    } else if percent == 8 {
        4515
    } else if percent == 9 {
        4771
    } else {
        5000
    }
}

/// Rows 11 to 20 of the curve.
pub open spec fn drop_11_20(percent: int) -> int {
    if percent == 11 {
        5207
    } else if percent == 12 {
        5396
    } else if percent == 13 {
        5570
    } else if percent == 14 {
        5731
    } else if percent == 15 {
        5880
    } else if percent == 16 {
        6021
    } else if percent == 17 {
        6152
    } else if percent == 18 {
        6276
    } else if percent == 19 {
        6394
    } else {
        6505
    }
}

/// Rows 21 to 30 of the curve.
pub open spec fn drop_21_30(percent: int) -> int {
    if percent == 21 {
        6611
    } else if percent == 22 {
        6712
    } else if percent == 23 {
        6809
    } else if percent == 24 {
        6901
    } else if percent == 25 {
        6990
    } else if percent == 26 {
        7075
    } else if percent == 27 {
        7157
    } else if percent == 28 {
        7236
    } else if percent == 29 {
        7312
    } else {
        7386
    }
}

/// Rows 31 to 40 of the curve.
pub open spec fn drop_31_40(percent: int) -> int {
    if percent == 31 {
        7457
    } else if percent == 32 {
        7526
    } else if percent == 33 {
        7593
    } else if percent == 34 {
        7657
    } else if percent == 35 {
        7720
    } else if percent == 36 {
        7782
    } else if percent == 37 {
        7841
    } else if percent == 38 {
        7899
    } else if percent == 39 {
        7955
    } else {
        8010
    }
}

/// Rows 41 to 50 of the curve.
pub open spec fn drop_41_50(percent: int) -> int {
    if percent == 41 {
        8064
    } else if percent == 42 {
        8116
    } else if percent == 43 {
        8167
    } else if percent == 44 {
        8217
    } else if percent == 45 {
        8266
    } else if percent == 46 {
        8314
    } else if percent == 47 {
        8360
    } else if percent == 48 {
        8406
    } else if percent == 49 {
        8451
    } else {
        8495
    }
}

/// Rows 51 to 60 of the curve.
pub open spec fn drop_51_60(percent: int) -> int {
    if percent == 51 {
        8538
    } else if percent == 52 {
        8580
    } else if percent == 53 {
        8621
    } else if percent == 54 {
        8662
    } else if percent == 55 {
        8702
    } else if percent == 56 {
        8741
    } else if percent == 57 {
        8779
    } else if percent == 58 {
        8817
    } else if percent == 59 {
        8854
    } else {
        8891
    }
}

/// Rows 61 to 70 of the curve.
pub open spec fn drop_61_70(percent: int) -> int {
    if percent == 61 {
        8927
    } else if percent == 62 {
        8962
    } else if percent == 63 {
        8997
    } else if percent == 64 {
        9031
    } else if percent == 65 {
        9065
    } else if percent == 66 {
        9098
    } else if percent == 67 {
        9130
    } else if percent == 68 {
        9163
    } else if percent == 69 {
        9194
    } else {
        9225
    }
}

/// Rows 71 to 80 of the curve.
pub open spec fn drop_71_80(percent: int) -> int {
    if percent == 71 {
        9256
    } else if percent == 72 {
        9287
    } else if percent == 73 {
        9317
    } else if percent == 74 {
        9346
    } else if percent == 75 {
        9375
    } else if percent == 76 {
        9404
    } else if percent == 77 {
        9432
    } else if percent == 78 {
        9460
    } else if percent == 79 {
        9488
    } else {
        9515
    }
}

/// Rows 81 to 90 of the curve.
pub open spec fn drop_81_90(percent: int) -> int {
    if percent == 81 {
        9542
    } else if percent == 82 {
        9569
    } else if percent == 83 {
        9595
    } else if percent == 84 {
        9621
    } else if percent == 85 {
        9647
    } else if percent == 86 {
        9672
    } else if percent == 87 {
        9698
    } else if percent == 88 {
        9722
    } else if percent == 89 {
        9747
    } else {
        9771
    }
}

/// Rows 91 to 100 of the curve.
pub open spec fn drop_91_100(percent: int) -> int {
    if percent == 91 {
        9795
    } else if percent == 92 {
        9819
    } else if percent == 93 {
        9842
    } else if percent == 94 {
        9866
    } else if percent == 95 {
        9889
    } else if percent == 96 {
        9911
    } else if percent == 97 {
        9934
    } else if percent == 98 {
        9956
    } else if percent == 99 {
        9978
    } else {
        10000
    }
}

/// The rise of the curve at `percent`: ten thousand times the logarithm of
/// `percent` to base one hundred, rounded to the nearest integer. It is held as
/// a table over the whole range of speeds, one row per percent from 1 to 100;
/// below the range it is the first row, above it the last.
pub open spec fn curve_drop(percent: int) -> int {
    if percent <= 1 {
        0
    } else if percent <= 10 {
        drop_01_10(percent)
    } else if percent <= 20 {
        drop_11_20(percent)
    } else if percent <= 30 {
        drop_21_30(percent)
    } else if percent <= 40 {
        drop_31_40(percent)
    } else if percent <= 50 {
        drop_41_50(percent)
    } else if percent <= 60 {
        drop_51_60(percent)
    } else if percent <= 70 {
        drop_61_70(percent)
    } else if percent <= 80 {
        drop_71_80(percent)
    } else if percent <= 90 {
        drop_81_90(percent)
    } else {
        drop_91_100(percent)
    }
}

/// The curve never falls from one percent to the next.
pub proof fn lemma_curve_step(percent: int)
    ensures
        curve_drop(percent) <= curve_drop(percent + 1),
{
}

/// The curve never falls as the speed rises.
pub proof fn lemma_curve_monotonic(low: int, high: int)
    requires
        low <= high,
    ensures
        curve_drop(low) <= curve_drop(high),
    decreases high - low,
{
    if low < high {
        lemma_curve_monotonic(low, high - 1);
        lemma_curve_step(high - 1);
    }
}

/// The curve starts at 0, passes through half its height at ten percent and
/// ends at its full height, and stays within it everywhere.
pub proof fn lemma_curve_range(percent: int)
    ensures
        0 <= curve_drop(percent) <= MAX_MILLISECONDS,
        percent <= 1 ==> curve_drop(percent) == 0,
        curve_drop(10) == 5000,
        percent >= 100 ==> curve_drop(percent) == MAX_MILLISECONDS,
{
}

/// One row of the law of products: for a factor from 1 to 10, held in
/// `small`, and any other factor that keeps the product within the range.
proof fn lemma_curve_product_row(small: int, other: int)
    requires
        1 <= small <= 10,
        1 <= other,
        small * other <= 100,
    ensures
        curve_drop(small) + curve_drop(other) - 1 <= curve_drop(small * other) <= curve_drop(small)
            + curve_drop(other) + 1,
{
    if small == 1 {
        assert(small * other == other);
    } else if small == 2 {
        assert(small * other == 2 * other);
    } else if small == 3 {
        assert(small * other == 3 * other);
    } else if small == 4 {
        assert(small * other == 4 * other);
    } else if small == 5 {
        assert(small * other == 5 * other);
    } else if small == 6 {
        assert(small * other == 6 * other);
    } else if small == 7 {
        assert(small * other == 7 * other);
    } else if small == 8 {
        assert(small * other == 8 * other);
    } else if small == 9 {
        assert(small * other == 9 * other);
    } else {
        assert(small * other == 10 * other);
    }
}

/// The curve is a logarithm: it turns a product into a sum, up to the
/// rounding of the three rows, which is at most one.
pub proof fn lemma_curve_turns_products_into_sums(a: int, b: int)
    requires
        1 <= a,
        1 <= b,
        a * b <= 100,
    ensures
        curve_drop(a) + curve_drop(b) - 1 <= curve_drop(a * b) <= curve_drop(a) + curve_drop(b)
            + 1,
{
    if a <= 10 {
        lemma_curve_product_row(a, b);
    } else {
        assert(b <= 10) by (nonlinear_arith)
            requires
                a >= 11,
                1 <= b,
                a * b <= 100,
        ;
        assert(a * b == b * a) by (nonlinear_arith);
        lemma_curve_product_row(b, a);
    }
}

/// Looks the rise of the curve up for a speed inside the range.
pub fn rounded_log_drop(percent: u8) -> (drop: u64)
    requires
        1 <= percent <= 100,
    ensures
        drop == curve_drop(percent as int),
        drop <= MAX_MILLISECONDS,
{
    match percent {
        1 => 0,
        2 => 1505,
        3 => 2386,
        4 => 3010,
        5 => 3495,
        6 => 3891,
        7 => 4225,
        8 => 4515,
        9 => 4771,
        10 => 5000,
        11 => 5207,
        12 => 5396,
        13 => 5570,
        14 => 5731,
        15 => 5880,
        16 => 6021,
        17 => 6152,
        18 => 6276,
        19 => 6394,
        20 => 6505,
        21 => 6611,
        22 => 6712,
        23 => 6809,
        24 => 6901,
        25 => 6990,
        26 => 7075,
        27 => 7157,
        28 => 7236,
        29 => 7312,
        30 => 7386,
        31 => 7457,
        32 => 7526,
        33 => 7593,
        34 => 7657,
        35 => 7720,
        36 => 7782,
        37 => 7841,
        38 => 7899,
        39 => 7955,
        40 => 8010,
        41 => 8064,
        42 => 8116,
        43 => 8167,
        44 => 8217,
        45 => 8266,
        46 => 8314,
        47 => 8360,
        48 => 8406,
        49 => 8451,
        50 => 8495,
        51 => 8538,
        52 => 8580,
        53 => 8621,
        54 => 8662,
        55 => 8702,
        56 => 8741,
        57 => 8779,
        58 => 8817,
        59 => 8854,
        60 => 8891,
        61 => 8927,
        62 => 8962,
        63 => 8997,
        64 => 9031,
        65 => 9065,
        66 => 9098,
        67 => 9130,
        68 => 9163,
        69 => 9194,
        70 => 9225,
        71 => 9256,
        72 => 9287,
        73 => 9317,
        74 => 9346,
        75 => 9375,
        76 => 9404,
        77 => 9432,
        78 => 9460,
        79 => 9488,
        80 => 9515,
        81 => 9542,
        82 => 9569,
        83 => 9595,
        84 => 9621,
        85 => 9647,
        86 => 9672,
        87 => 9698,
        88 => 9722,
        89 => 9747,
        90 => 9771,
        91 => 9795,
        92 => 9819,
        93 => 9842,
        94 => 9866,
        95 => 9889,
        96 => 9911,
        97 => 9934,
        98 => 9956,
        99 => 9978,
        _ => 10000,
    }
}

} // verus!
