//! Fixed-point trigonometry on whole degrees.
//!
//! A heading is an angle in degrees. The sine and cosine of a heading are
//! held as integers scaled by [`TRIG_SCALE`]: `sin_milli(30) == 500` stands
//! for `sin 30deg == 0.500`. The table below holds the scaled sine of each
//! degree from 0 to 90, rounded to the nearest integer; the other quadrants
//! come from it by symmetry.

use vstd::prelude::*;

verus! {

/// Scaled trigonometric values represent 1.0 as this many integer units.
pub const TRIG_SCALE: i64 = 1000;

/// Scaled sine of a degree in the first quadrant, read from the table.
pub open spec fn quarter_sin(d: int) -> int
    recommends
        0 <= d <= 90,
{
    if d == 0 {
        0
    } else if d == 1 {
        17
    } else if d == 2 {
        35
    } else if d == 3 {
        52
    } else if d == 4 {
        70
    } else if d == 5 {
        87
    } else if d == 6 {
        105
    } else if d == 7 {
        122
    } else if d == 8 {
        139
    } else if d == 9 {
        156
    } else if d == 10 {
        174
    } else if d == 11 {
        191
    } else if d == 12 {
        208
    } else if d == 13 {
        225
    } else if d == 14 {
        242
    } else if d == 15 {
        259
    } else if d == 16 {
        276
    } else if d == 17 {
        292
    } else if d == 18 {
        309
    } else if d == 19 {
        326
    } else if d == 20 {
        342
    } else if d == 21 {
        358
    } else if d == 22 {
        375
    } else if d == 23 {
        391
    } else if d == 24 {
        407
    } else if d == 25 {
        423
    } else if d == 26 {
        438
    } else if d == 27 {
        454
    } else if d == 28 {
        469
    } else if d == 29 {
        485
    } else if d == 30 {
        500
    } else if d == 31 {
        515
    } else if d == 32 {
        530
    } else if d == 33 {
        545
    } else if d == 34 {
        559
    } else if d == 35 {
        574
    } else if d == 36 {
        588
    } else if d == 37 {
        602
    } else if d == 38 {
        616
    } else if d == 39 {
        629
    } else if d == 40 {
        643
    } else if d == 41 {
        656
    } else if d == 42 {
        669
    } else if d == 43 {
        682
    } else if d == 44 {
        695
    } else if d == 45 {
        707
    } else if d == 46 {
        719
    } else if d == 47 {
        731
    } else if d == 48 {
        743
    } else if d == 49 {
        755
    } else if d == 50 {
        766
    } else if d == 51 {
        777
    } else if d == 52 {
        788
    } else if d == 53 {
        799
    } else if d == 54 {
        809
    } else if d == 55 {
        819
    } else if d == 56 {
        829
    } else if d == 57 {
        839
    } else if d == 58 {
        848
    } else if d == 59 {
        857
    } else if d == 60 {
        866
    } else if d == 61 {
        875
    } else if d == 62 {
        883
    } else if d == 63 {
        891
    } else if d == 64 {
        899
    } else if d == 65 {
        906
    } else if d == 66 {
        914
    } else if d == 67 {
        921
    } else if d == 68 {
        927
    } else if d == 69 {
        934
    } else if d == 70 {
        940
    } else if d == 71 {
        946
    } else if d == 72 {
        951
    } else if d == 73 {
        956
    } else if d == 74 {
        961
    } else if d == 75 {
        966
    } else if d == 76 {
        970
    } else if d == 77 {
        974
    } else if d == 78 {
        978
    } else if d == 79 {
        982
    } else if d == 80 {
        985
    } else if d == 81 {
        988
    } else if d == 82 {
        990
    } else if d == 83 {
        993
    } else if d == 84 {
        995
    } else if d == 85 {
        996
    } else if d == 86 {
        998
    } else if d == 87 {
        999
    } else if d == 88 {
        999
    } else if d == 89 {
        1000
    } else {
        1000
    }
}

/// Scaled sine of a whole-degree heading, by quadrant symmetry.
pub open spec fn sin_milli(h: int) -> int
    recommends
        0 <= h < 360,
{
    if h <= 90 {
        quarter_sin(h)
    } else if h <= 180 {
        quarter_sin(180 - h)
    } else if h <= 270 {
        -quarter_sin(h - 180)
    } else {
        -quarter_sin(360 - h)
    }
}

/// Scaled cosine of a whole-degree heading: the sine a quarter turn ahead.
pub open spec fn cos_milli(h: int) -> int
    recommends
        0 <= h < 360,
{
    sin_milli(if h < 270 { h + 90 } else { h - 270 })
}

/// Every scaled sine and cosine lies between -TRIG_SCALE and TRIG_SCALE.
pub proof fn lemma_trig_bounds(h: int)
    requires
        0 <= h < 360,
    ensures
        -TRIG_SCALE <= sin_milli(h) <= TRIG_SCALE,
        -TRIG_SCALE <= cos_milli(h) <= TRIG_SCALE,
{
}

fn quarter_sin_exec(d: i64) -> (r: i64)
    requires
        0 <= d <= 90,
    ensures
        r == quarter_sin(d as int),
{
    match d {
        0 => 0,
        1 => 17,
        2 => 35,
        3 => 52,
        4 => 70,
        5 => 87,
        6 => 105,
        7 => 122,
        8 => 139,
        9 => 156,
        10 => 174,
        11 => 191,
        12 => 208,
        13 => 225,
        14 => 242,
        15 => 259,
        16 => 276,
        17 => 292,
        18 => 309,
        19 => 326,
        20 => 342,
        21 => 358,
        22 => 375,
        23 => 391,
        24 => 407,
        25 => 423,
        26 => 438,
        27 => 454,
        28 => 469,
        29 => 485,
        30 => 500,
        31 => 515,
        32 => 530,
        33 => 545,
        34 => 559,
        35 => 574,
        36 => 588,
        37 => 602,
        38 => 616,
        39 => 629,
        40 => 643,
        41 => 656,
        42 => 669,
        43 => 682,
        44 => 695,
        45 => 707,
        46 => 719,
        47 => 731,
        48 => 743,
        49 => 755,
        50 => 766,
        51 => 777,
        52 => 788,
        53 => 799,
        54 => 809,
        55 => 819,
        56 => 829,
        57 => 839,
        58 => 848,
        59 => 857,
        60 => 866,
        61 => 875,
        62 => 883,
        63 => 891,
        64 => 899,
        65 => 906,
        66 => 914,
        67 => 921,
        68 => 927,
        69 => 934,
        70 => 940,
        71 => 946,
        72 => 951,
        73 => 956,
        74 => 961,
        75 => 966,
        76 => 970,
        77 => 974,
        78 => 978,
        79 => 982,
        80 => 985,
        81 => 988,
        82 => 990,
        83 => 993,
        84 => 995,
        85 => 996,
        86 => 998,
        87 => 999,
        88 => 999,
        89 => 1000,
        _ => 1000,
    }
}

/// Scaled sine of a whole-degree heading.
pub fn sin_milli_exec(h: i64) -> (r: i64)
    requires
        0 <= h < 360,
    ensures
        r == sin_milli(h as int),
        -TRIG_SCALE <= r <= TRIG_SCALE,
{
    proof {
        lemma_trig_bounds(h as int);
    }
    if h <= 90 {
        quarter_sin_exec(h)
    } else if h <= 180 {
        quarter_sin_exec(180 - h)
    } else if h <= 270 {
        -quarter_sin_exec(h - 180)
    } else {
        -quarter_sin_exec(360 - h)
    }
}

/// Scaled cosine of a whole-degree heading.
pub fn cos_milli_exec(h: i64) -> (r: i64)
    requires
        0 <= h < 360,
    ensures
        r == cos_milli(h as int),
        -TRIG_SCALE <= r <= TRIG_SCALE,
{
    if h < 270 {
        sin_milli_exec(h + 90)
    } else {
        sin_milli_exec(h - 270)
    }
}

} // verus!
