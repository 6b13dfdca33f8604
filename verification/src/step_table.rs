//! The band-limited step response table: for each of `PHASE_COUNT` phases,
//! one 8-tap half of a windowed-sinc step.  The table is antisymmetric: the
//! reverse half of phase `p` is the forward half of phase `PHASE_COUNT - p`
//! read backwards, so only the forward halves are stored, with one extra row
//! so that row `p + 1` always exists for interpolation.  The two halves of
//! any phase together total exactly `DELTA_UNIT`.

use vstd::prelude::*;

use crate::DELTA_UNIT;

verus! {

/// The stored half of the step response: row `phase` (`0..=32`), tap `0..8`.
pub open spec fn bl_row(phase: int) -> Seq<int> {
    if phase == 0 {
        seq![43, -115, 350, -488, 1136, -914, 5861, 21022]
    } else if phase == 1 {
        seq![44, -118, 348, -473, 1076, -799, 5274, 21001]
    } else if phase == 2 {
        seq![45, -121, 344, -454, 1011, -677, 4706, 20936]
    } else if phase == 3 {
        seq![46, -122, 336, -431, 942, -549, 4156, 20829]
    } else if phase == 4 {
        seq![47, -123, 327, -404, 868, -418, 3629, 20679]
    } else if phase == 5 {
        seq![47, -122, 316, -375, 792, -285, 3124, 20488]
    } else if phase == 6 {
        seq![47, -120, 303, -344, 714, -151, 2644, 20256]
    } else if phase == 7 {
        seq![46, -117, 289, -310, 634, -17, 2188, 19985]
    } else if phase == 8 {
        seq![46, -114, 273, -275, 553, 117, 1758, 19675]
    } else if phase == 9 {
        seq![44, -108, 255, -237, 471, 247, 1356, 19327]
    } else if phase == 10 {
        seq![43, -103, 237, -199, 390, 373, 981, 18944]
    } else if phase == 11 {
        seq![42, -98, 218, -160, 310, 495, 633, 18527]
    } else if phase == 12 {
        seq![40, -91, 198, -121, 231, 611, 314, 18078]
    } else if phase == 13 {
        seq![38, -84, 178, -81, 153, 722, 22, 17599]
    } else if phase == 14 {
        seq![36, -76, 157, -43, 80, 824, -241, 17092]
    } else if phase == 15 {
        seq![34, -68, 135, -3, 8, 919, -476, 16558]
    } else if phase == 16 {
        seq![32, -61, 115, 34, -60, 1006, -683, 16001]
    } else if phase == 17 {
        seq![29, -52, 94, 70, -123, 1083, -862, 15422]
    } else if phase == 18 {
        seq![27, -44, 73, 106, -184, 1152, -1015, 14824]
    } else if phase == 19 {
        seq![25, -36, 53, 139, -239, 1211, -1142, 14210]
    } else if phase == 20 {
        seq![22, -27, 34, 170, -290, 1261, -1244, 13582]
    } else if phase == 21 {
        seq![20, -20, 16, 199, -335, 1301, -1322, 12942]
    } else if phase == 22 {
        seq![18, -12, -3, 226, -375, 1331, -1376, 12293]
    } else if phase == 23 {
        seq![15, -4, -19, 250, -410, 1351, -1408, 11638]
    } else if phase == 24 {
        seq![13, 3, -35, 272, -439, 1361, -1419, 10979]
    } else if phase == 25 {
        seq![11, 9, -49, 292, -464, 1362, -1410, 10319]
    } else if phase == 26 {
        seq![9, 16, -63, 309, -483, 1354, -1383, 9660]
    } else if phase == 27 {
        seq![7, 22, -75, 322, -496, 1337, -1339, 9005]
    } else if phase == 28 {
        seq![6, 26, -85, 333, -504, 1312, -1280, 8355]
    } else if phase == 29 {
        seq![4, 31, -94, 341, -507, 1278, -1205, 7713]
    } else if phase == 30 {
        seq![3, 35, -102, 347, -506, 1238, -1119, 7082]
    } else if phase == 31 {
        seq![1, 40, -110, 350, -499, 1190, -1021, 6464]
    } else if phase == 32 {
        seq![0, 43, -115, 350, -488, 1136, -914, 5861]
    } else {
        seq![0, 0, 0, 0, 0, 0, 0, 0]
    }
}

/// One entry of the step table.
pub open spec fn bl(phase: int, tap: int) -> int {
    bl_row(phase)[tap]
}

/// Main coefficient of slot `j` (`0..16`) of the full interpolation window
/// for `phase` (`0..32`): the forward half is row `phase`, the reverse half
/// is row `PHASE_COUNT - phase` read backwards.
pub open spec fn step_coeff(phase: int, j: int) -> int {
    if j < 8 {
        bl(phase, j)
    } else {
        bl(32 - phase, 15 - j)
    }
}

/// Phase-interpolation partner of `step_coeff`: the same window one phase
/// later, weighted by the interpolation fraction.
pub open spec fn step_coeff2(phase: int, j: int) -> int {
    if j < 8 {
        bl(phase + 1, j)
    } else {
        bl(31 - phase, 15 - j)
    }
}

/// Sum of the first `n` taps of row `phase`.
pub open spec fn bl_row_sum(phase: int, n: int) -> int
    decreases n,
{
    if n <= 0 {
        0
    } else {
        bl_row_sum(phase, n - 1) + bl(phase, n - 1)
    }
}

/// Fetches one entry of the step table.
pub fn bl_entry(phase: usize, tap: usize) -> (r: i16)
    requires
        phase < 33,
        tap < 8,
    ensures
        r as int == bl(phase as int, tap as int),
{
    match phase {
        0 => match tap {
            0 => 43,
            1 => -115,
            2 => 350,
            3 => -488,
            4 => 1136,
            5 => -914,
            6 => 5861,
            7 => 21022,
            _ => 0,
        },
        1 => match tap {
            0 => 44,
            1 => -118,
            2 => 348,
            3 => -473,
            4 => 1076,
            5 => -799,
            6 => 5274,
            7 => 21001,
            _ => 0,
        },
        2 => match tap {
            0 => 45,
            1 => -121,
            2 => 344,
            3 => -454,
            4 => 1011,
            5 => -677,
            6 => 4706,
            7 => 20936,
            _ => 0,
        },
        3 => match tap {
            0 => 46,
            1 => -122,
            2 => 336,
            3 => -431,
            4 => 942,
            5 => -549,
            6 => 4156,
            7 => 20829,
            _ => 0,
        },
        4 => match tap {
            0 => 47,
            1 => -123,
            2 => 327,
            3 => -404,
            4 => 868,
            5 => -418,
            6 => 3629,
            7 => 20679,
            _ => 0,
        },
        5 => match tap {
            0 => 47,
            1 => -122,
            2 => 316,
            3 => -375,
            4 => 792,
            5 => -285,
            6 => 3124,
            7 => 20488,
            _ => 0,
        },
        6 => match tap {
            0 => 47,
            1 => -120,
            2 => 303,
            3 => -344,
            4 => 714,
            5 => -151,
            6 => 2644,
            7 => 20256,
            _ => 0,
        },
        7 => match tap {
            0 => 46,
            1 => -117,
            2 => 289,
            3 => -310,
            4 => 634,
            5 => -17,
            6 => 2188,
            7 => 19985,
            _ => 0,
        },
        8 => match tap {
            0 => 46,
            1 => -114,
            2 => 273,
            3 => -275,
            4 => 553,
            5 => 117,
            6 => 1758,
            7 => 19675,
            _ => 0,
        },
        9 => match tap {
            0 => 44,
            1 => -108,
            2 => 255,
            3 => -237,
            4 => 471,
            5 => 247,
            6 => 1356,
            7 => 19327,
            _ => 0,
        },
        10 => match tap {
            0 => 43,
            1 => -103,
            2 => 237,
            3 => -199,
            4 => 390,
            5 => 373,
            6 => 981,
            7 => 18944,
            _ => 0,
        },
        11 => match tap {
            0 => 42,
            1 => -98,
            2 => 218,
            3 => -160,
            4 => 310,
            5 => 495,
            6 => 633,
            7 => 18527,
            _ => 0,
        },
        12 => match tap {
            0 => 40,
            1 => -91,
            2 => 198,
            3 => -121,
            4 => 231,
            5 => 611,
            6 => 314,
            7 => 18078,
            _ => 0,
        },
        13 => match tap {
            0 => 38,
            1 => -84,
            2 => 178,
            3 => -81,
            4 => 153,
            5 => 722,
            6 => 22,
            7 => 17599,
            _ => 0,
        },
        14 => match tap {
            0 => 36,
            1 => -76,
            2 => 157,
            3 => -43,
            4 => 80,
            5 => 824,
            6 => -241,
            7 => 17092,
            _ => 0,
        },
        15 => match tap {
            0 => 34,
            1 => -68,
            2 => 135,
            3 => -3,
            4 => 8,
            5 => 919,
            6 => -476,
            7 => 16558,
            _ => 0,
        },
        16 => match tap {
            0 => 32,
            1 => -61,
            2 => 115,
            3 => 34,
            4 => -60,
            5 => 1006,
            6 => -683,
            7 => 16001,
            _ => 0,
        },
        17 => match tap {
            0 => 29,
            1 => -52,
            2 => 94,
            3 => 70,
            4 => -123,
            5 => 1083,
            6 => -862,
            7 => 15422,
            _ => 0,
        },
        18 => match tap {
            0 => 27,
            1 => -44,
            2 => 73,
            3 => 106,
            4 => -184,
            5 => 1152,
            6 => -1015,
            7 => 14824,
            _ => 0,
        },
        19 => match tap {
            0 => 25,
            1 => -36,
            2 => 53,
            3 => 139,
            4 => -239,
            5 => 1211,
            6 => -1142,
            7 => 14210,
            _ => 0,
        },
        20 => match tap {
            0 => 22,
            1 => -27,
            2 => 34,
            3 => 170,
            4 => -290,
            5 => 1261,
            6 => -1244,
            7 => 13582,
            _ => 0,
        },
        21 => match tap {
            0 => 20,
            1 => -20,
            2 => 16,
            3 => 199,
            4 => -335,
            5 => 1301,
            6 => -1322,
            7 => 12942,
            _ => 0,
        },
        22 => match tap {
            0 => 18,
            1 => -12,
            2 => -3,
            3 => 226,
            4 => -375,
            5 => 1331,
            6 => -1376,
            7 => 12293,
            _ => 0,
        },
        23 => match tap {
            0 => 15,
            1 => -4,
            2 => -19,
            3 => 250,
            4 => -410,
            5 => 1351,
            6 => -1408,
            7 => 11638,
            _ => 0,
        },
        24 => match tap {
            0 => 13,
            1 => 3,
            2 => -35,
            3 => 272,
            4 => -439,
            5 => 1361,
            6 => -1419,
            7 => 10979,
            _ => 0,
        },
        25 => match tap {
            0 => 11,
            1 => 9,
            2 => -49,
            3 => 292,
            4 => -464,
            5 => 1362,
            6 => -1410,
            7 => 10319,
            _ => 0,
        },
        26 => match tap {
            0 => 9,
            1 => 16,
            2 => -63,
            3 => 309,
            4 => -483,
            5 => 1354,
            6 => -1383,
            7 => 9660,
            _ => 0,
        },
        27 => match tap {
            0 => 7,
            1 => 22,
            2 => -75,
            3 => 322,
            4 => -496,
            5 => 1337,
            6 => -1339,
            7 => 9005,
            _ => 0,
        },
        28 => match tap {
            0 => 6,
            1 => 26,
            2 => -85,
            3 => 333,
            4 => -504,
            5 => 1312,
            6 => -1280,
            7 => 8355,
            _ => 0,
        },
        29 => match tap {
            0 => 4,
            1 => 31,
            2 => -94,
            3 => 341,
            4 => -507,
            5 => 1278,
            6 => -1205,
            7 => 7713,
            _ => 0,
        },
        30 => match tap {
            0 => 3,
            1 => 35,
            2 => -102,
            3 => 347,
            4 => -506,
            5 => 1238,
            6 => -1119,
            7 => 7082,
            _ => 0,
        },
        31 => match tap {
            0 => 1,
            1 => 40,
            2 => -110,
            3 => 350,
            4 => -499,
            5 => 1190,
            6 => -1021,
            7 => 6464,
            _ => 0,
        },
        32 => match tap {
            0 => 0,
            1 => 43,
            2 => -115,
            3 => 350,
            4 => -488,
            5 => 1136,
            6 => -914,
            7 => 5861,
            _ => 0,
        },
        _ => 0,
    }
}

/// Sum of the first `n` main coefficients of the 16-tap window for `phase`.
pub open spec fn step_coeff_sum(phase: int, n: int) -> int
    decreases n,
{
    if n <= 0 {
        0
    } else {
        step_coeff_sum(phase, n - 1) + step_coeff(phase, n - 1)
    }
}

/// Sum of the first `n` interpolation-partner coefficients for `phase`.
pub open spec fn step_coeff2_sum(phase: int, n: int) -> int
    decreases n,
{
    if n <= 0 {
        0
    } else {
        step_coeff2_sum(phase, n - 1) + step_coeff2(phase, n - 1)
    }
}

/// The full 16-tap window of any phase totals exactly one `DELTA_UNIT`,
/// and so does its interpolation partner: a delta spread by the window
/// keeps its own amplitude, whatever its sub-sample phase.
pub proof fn lemma_window_normalized(phase: int)
    requires
        0 <= phase < 32,
    ensures
        step_coeff_sum(phase, 16) == DELTA_UNIT,
        step_coeff2_sum(phase, 16) == DELTA_UNIT,
{
    reveal_with_fuel(step_coeff_sum, 17);
    reveal_with_fuel(step_coeff2_sum, 17);
    reveal_with_fuel(bl_row_sum, 9);
    assert(step_coeff_sum(phase, 16) == bl_row_sum(phase, 8) + bl_row_sum(32 - phase, 8));
    lemma_step_table_normalized(phase);
    assert(step_coeff2_sum(phase, 16) == bl_row_sum(phase + 1, 8) + bl_row_sum(31 - phase, 8));
    lemma_step_table_normalized(phase + 1);
}

/// The step table is normalized: the forward half of any phase and the
/// reverse half read for that same phase always total one `DELTA_UNIT`, so a
/// delta spread over the 16-tap window keeps exactly its own amplitude.
pub proof fn lemma_step_table_normalized(phase: int)
    requires
        0 <= phase < 33,
    ensures
        bl_row_sum(phase, 8) + bl_row_sum(32 - phase, 8) == DELTA_UNIT,
{
    reveal_with_fuel(bl_row_sum, 9);
    if phase == 0 || phase == 32 {
        assert(bl_row_sum(0, 8) == 26895);
        assert(bl_row_sum(32, 8) == 5873);
    } else if phase == 1 || phase == 31 {
        assert(bl_row_sum(1, 8) == 26353);
        assert(bl_row_sum(31, 8) == 6415);
    } else if phase == 2 || phase == 30 {
        assert(bl_row_sum(2, 8) == 25790);
        assert(bl_row_sum(30, 8) == 6978);
    } else if phase == 3 || phase == 29 {
        assert(bl_row_sum(3, 8) == 25207);
        assert(bl_row_sum(29, 8) == 7561);
    } else if phase == 4 || phase == 28 {
        assert(bl_row_sum(4, 8) == 24605);
        assert(bl_row_sum(28, 8) == 8163);
    } else if phase == 5 || phase == 27 {
        assert(bl_row_sum(5, 8) == 23985);
        assert(bl_row_sum(27, 8) == 8783);
    } else if phase == 6 || phase == 26 {
        assert(bl_row_sum(6, 8) == 23349);
        assert(bl_row_sum(26, 8) == 9419);
    } else if phase == 7 || phase == 25 {
        assert(bl_row_sum(7, 8) == 22698);
        assert(bl_row_sum(25, 8) == 10070);
    } else if phase == 8 || phase == 24 {
        assert(bl_row_sum(8, 8) == 22033);
        assert(bl_row_sum(24, 8) == 10735);
    } else if phase == 9 || phase == 23 {
        assert(bl_row_sum(9, 8) == 21355);
        assert(bl_row_sum(23, 8) == 11413);
    } else if phase == 10 || phase == 22 {
        assert(bl_row_sum(10, 8) == 20666);
        assert(bl_row_sum(22, 8) == 12102);
    } else if phase == 11 || phase == 21 {
        assert(bl_row_sum(11, 8) == 19967);
        assert(bl_row_sum(21, 8) == 12801);
    } else if phase == 12 || phase == 20 {
        assert(bl_row_sum(12, 8) == 19260);
        assert(bl_row_sum(20, 8) == 13508);
    } else if phase == 13 || phase == 19 {
        assert(bl_row_sum(13, 8) == 18547);
        assert(bl_row_sum(19, 8) == 14221);
    } else if phase == 14 || phase == 18 {
        assert(bl_row_sum(14, 8) == 17829);
        assert(bl_row_sum(18, 8) == 14939);
    } else if phase == 15 || phase == 17 {
        assert(bl_row_sum(15, 8) == 17107);
        assert(bl_row_sum(17, 8) == 15661);
    } else if phase == 16 {
        assert(bl_row_sum(16, 8) == 16384);
    }
}

} // verus!
