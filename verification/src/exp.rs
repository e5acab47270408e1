//! Base-2 exponential lookup with linear interpolation.
//!
//! The table samples `2^x - 1` for `x` in [0, 1] at 1024 points plus one
//! guard entry, as unsigned Q0.16 magnitudes.  An argument is read as a
//! Q16.16 logarithm: its integer part is a power-of-two exponent and its
//! fractional part selects a table entry (bits 6..15) and a linear
//! interpolation weight (bits 0..5), so the lookup reproduces `2^x` with the
//! same interpolation granularity as the sine table.

use vstd::prelude::*;

use crate::fp::FP;

verus! {

use vstd::arithmetic::power2::pow2;

pub const EXP_TABLE: [u16; 1025] = [
    0, 44, 89, 133, 178, 222, 267, 311, 356, 400, 445, 490, 535, 579, 624, 669,
    714, 758, 803, 848, 893, 938, 983, 1028, 1073, 1118, 1164, 1209, 1254, 1299, 1344, 1390,
    1435, 1480, 1526, 1571, 1617, 1662, 1708, 1753, 1799, 1844, 1890, 1936, 1981, 2027, 2073, 2119,
    2164, 2210, 2256, 2302, 2348, 2394, 2440, 2486, 2532, 2578, 2624, 2670, 2716, 2763, 2809, 2855,
    2902, 2948, 2994, 3041, 3087, 3134, 3180, 3227, 3273, 3320, 3366, 3413, 3460, 3506, 3553, 3600,
    3647, 3694, 3740, 3787, 3834, 3881, 3928, 3975, 4022, 4070, 4117, 4164, 4211, 4258, 4305, 4353,
    4400, 4447, 4495, 4542, 4590, 4637, 4685, 4732, 4780, 4827, 4875, 4923, 4971, 5018, 5066, 5114,
    5162, 5210, 5257, 5305, 5353, 5401, 5449, 5497, 5546, 5594, 5642, 5690, 5738, 5787, 5835, 5883,
    5932, 5980, 6028, 6077, 6125, 6174, 6222, 6271, 6320, 6368, 6417, 6466, 6514, 6563, 6612, 6661,
    6710, 6759, 6808, 6857, 6906, 6955, 7004, 7053, 7102, 7151, 7200, 7250, 7299, 7348, 7398, 7447,
    7496, 7546, 7595, 7645, 7694, 7744, 7794, 7843, 7893, 7943, 7992, 8042, 8092, 8142, 8192, 8242,
    8292, 8342, 8392, 8442, 8492, 8542, 8592, 8642, 8693, 8743, 8793, 8843, 8894, 8944, 8995, 9045,
    9096, 9146, 9197, 9247, 9298, 9349, 9399, 9450, 9501, 9552, 9603, 9653, 9704, 9755, 9806, 9857,
    9908, 9959, 10011, 10062, 10113, 10164, 10215, 10267, 10318, 10369, 10421, 10472, 10524, 10575, 10627, 10678,
    10730, 10782, 10833, 10885, 10937, 10988, 11040, 11092, 11144, 11196, 11248, 11300, 11352, 11404, 11456, 11508,
    11560, 11613, 11665, 11717, 11769, 11822, 11874, 11927, 11979, 12031, 12084, 12137, 12189, 12242, 12294, 12347,
    12400, 12453, 12505, 12558, 12611, 12664, 12717, 12770, 12823, 12876, 12929, 12982, 13036, 13089, 13142, 13195,
    13249, 13302, 13355, 13409, 13462, 13516, 13569, 13623, 13676, 13730, 13784, 13837, 13891, 13945, 13999, 14053,
    14106, 14160, 14214, 14268, 14322, 14376, 14431, 14485, 14539, 14593, 14647, 14702, 14756, 14810, 14865, 14919,
    14974, 15028, 15083, 15137, 15192, 15247, 15301, 15356, 15411, 15466, 15521, 15575, 15630, 15685, 15740, 15795,
    15850, 15906, 15961, 16016, 16071, 16126, 16182, 16237, 16292, 16348, 16403, 16459, 16514, 16570, 16625, 16681,
    16737, 16792, 16848, 16904, 16960, 17016, 17071, 17127, 17183, 17239, 17295, 17352, 17408, 17464, 17520, 17576,
    17633, 17689, 17745, 17802, 17858, 17914, 17971, 18028, 18084, 18141, 18197, 18254, 18311, 18368, 18424, 18481,
    18538, 18595, 18652, 18709, 18766, 18823, 18880, 18937, 18995, 19052, 19109, 19167, 19224, 19281, 19339, 19396,
    19454, 19511, 19569, 19626, 19684, 19742, 19800, 19857, 19915, 19973, 20031, 20089, 20147, 20205, 20263, 20321,
    20379, 20437, 20496, 20554, 20612, 20670, 20729, 20787, 20846, 20904, 20963, 21021, 21080, 21139, 21197, 21256,
    21315, 21374, 21432, 21491, 21550, 21609, 21668, 21727, 21786, 21845, 21905, 21964, 22023, 22082, 22142, 22201,
    22260, 22320, 22379, 22439, 22498, 22558, 22618, 22677, 22737, 22797, 22857, 22917, 22977, 23036, 23096, 23156,
    23216, 23277, 23337, 23397, 23457, 23517, 23578, 23638, 23698, 23759, 23819, 23880, 23940, 24001, 24062, 24122,
    24183, 24244, 24304, 24365, 24426, 24487, 24548, 24609, 24670, 24731, 24792, 24853, 24915, 24976, 25037, 25099,
    25160, 25221, 25283, 25344, 25406, 25467, 25529, 25591, 25652, 25714, 25776, 25838, 25900, 25962, 26023, 26085,
    26148, 26210, 26272, 26334, 26396, 26458, 26521, 26583, 26645, 26708, 26770, 26833, 26895, 26958, 27021, 27083,
    27146, 27209, 27271, 27334, 27397, 27460, 27523, 27586, 27649, 27712, 27775, 27839, 27902, 27965, 28028, 28092,
    28155, 28219, 28282, 28346, 28409, 28473, 28536, 28600, 28664, 28728, 28791, 28855, 28919, 28983, 29047, 29111,
    29175, 29240, 29304, 29368, 29432, 29496, 29561, 29625, 29690, 29754, 29819, 29883, 29948, 30012, 30077, 30142,
    30207, 30272, 30336, 30401, 30466, 30531, 30596, 30661, 30727, 30792, 30857, 30922, 30988, 31053, 31118, 31184,
    31249, 31315, 31380, 31446, 31512, 31577, 31643, 31709, 31775, 31841, 31907, 31973, 32039, 32105, 32171, 32237,
    32303, 32369, 32436, 32502, 32568, 32635, 32701, 32768, 32834, 32901, 32968, 33034, 33101, 33168, 33235, 33302,
    33369, 33436, 33503, 33570, 33637, 33704, 33771, 33838, 33906, 33973, 34040, 34108, 34175, 34243, 34310, 34378,
    34446, 34513, 34581, 34649, 34717, 34785, 34852, 34920, 34988, 35057, 35125, 35193, 35261, 35329, 35398, 35466,
    35534, 35603, 35671, 35740, 35808, 35877, 35946, 36014, 36083, 36152, 36221, 36290, 36359, 36428, 36497, 36566,
    36635, 36704, 36773, 36843, 36912, 36981, 37051, 37120, 37190, 37259, 37329, 37399, 37468, 37538, 37608, 37678,
    37747, 37817, 37887, 37957, 38028, 38098, 38168, 38238, 38308, 38379, 38449, 38519, 38590, 38660, 38731, 38802,
    38872, 38943, 39014, 39084, 39155, 39226, 39297, 39368, 39439, 39510, 39581, 39652, 39724, 39795, 39866, 39938,
    40009, 40081, 40152, 40224, 40295, 40367, 40439, 40510, 40582, 40654, 40726, 40798, 40870, 40942, 41014, 41086,
    41158, 41231, 41303, 41375, 41448, 41520, 41593, 41665, 41738, 41810, 41883, 41956, 42029, 42101, 42174, 42247,
    42320, 42393, 42466, 42539, 42613, 42686, 42759, 42833, 42906, 42979, 43053, 43126, 43200, 43274, 43347, 43421,
    43495, 43569, 43642, 43716, 43790, 43864, 43938, 44013, 44087, 44161, 44235, 44310, 44384, 44458, 44533, 44607,
    44682, 44757, 44831, 44906, 44981, 45056, 45131, 45205, 45280, 45355, 45431, 45506, 45581, 45656, 45731, 45807,
    45882, 45958, 46033, 46109, 46184, 46260, 46336, 46411, 46487, 46563, 46639, 46715, 46791, 46867, 46943, 47019,
    47095, 47172, 47248, 47324, 47401, 47477, 47554, 47630, 47707, 47784, 47860, 47937, 48014, 48091, 48168, 48245,
    48322, 48399, 48476, 48553, 48631, 48708, 48785, 48863, 48940, 49018, 49095, 49173, 49251, 49328, 49406, 49484,
    49562, 49640, 49718, 49796, 49874, 49952, 50030, 50108, 50187, 50265, 50343, 50422, 50500, 50579, 50658, 50736,
    50815, 50894, 50973, 51052, 51131, 51210, 51289, 51368, 51447, 51526, 51605, 51685, 51764, 51843, 51923, 52002,
    52082, 52162, 52241, 52321, 52401, 52481, 52561, 52641, 52721, 52801, 52881, 52961, 53041, 53122, 53202, 53282,
    53363, 53443, 53524, 53605, 53685, 53766, 53847, 53928, 54008, 54089, 54170, 54251, 54333, 54414, 54495, 54576,
    54658, 54739, 54820, 54902, 54983, 55065, 55147, 55228, 55310, 55392, 55474, 55556, 55638, 55720, 55802, 55884,
    55966, 56049, 56131, 56213, 56296, 56378, 56461, 56543, 56626, 56709, 56792, 56874, 56957, 57040, 57123, 57206,
    57289, 57373, 57456, 57539, 57622, 57706, 57789, 57873, 57956, 58040, 58124, 58207, 58291, 58375, 58459, 58543,
    58627, 58711, 58795, 58879, 58964, 59048, 59132, 59217, 59301, 59386, 59470, 59555, 59640, 59724, 59809, 59894,
    59979, 60064, 60149, 60234, 60319, 60405, 60490, 60575, 60661, 60746, 60831, 60917, 61003, 61088, 61174, 61260,
    61346, 61432, 61518, 61604, 61690, 61776, 61862, 61948, 62035, 62121, 62208, 62294, 62381, 62467, 62554, 62641,
    62727, 62814, 62901, 62988, 63075, 63162, 63249, 63337, 63424, 63511, 63599, 63686, 63774, 63861, 63949, 64036,
    64124, 64212, 64300, 64388, 64476, 64564, 64652, 64740, 64828, 64916, 65005, 65093, 65182, 65270, 65359, 65447,
    65535,
];

/// The interpolated value of `2^(f / 65536) - 1`, scaled by 65536, for a
/// fractional exponent `f` in [0, 0x1_0000): table entry `f / 64` blended
/// with its successor by the weight `f % 64`, scaled back by 64.  Kept
/// opaque so that callers do not drag the table literal into their own
/// proofs.
#[verifier::opaque]
pub open spec fn exp_frac_lookup(f: int) -> int
    recommends
        0 <= f < 0x1_0000,
{
    let i = f / 64;
    let d = f % 64;
    (EXP_TABLE[i] * (64 - d) + EXP_TABLE[i + 1] * d) / 64
}

/// Result of `FP::exp`: `2^v` in Q16.16, computed as a mantissa
/// `65536 + exp_frac_lookup(frac)` scaled by the power of two of the integer
/// part.  Exponents of 15 or more saturate to `i32::MAX`; below -17 the
/// result underflows to zero.
pub open spec fn fp_exp(v: FP) -> FP {
    let n = v.repr as int / 0x1_0000;
    let m = 0x1_0000 + exp_frac_lookup(v.repr as int % 0x1_0000);
    if n >= 15 {
        FP { repr: i32::MAX }
    } else if n >= 0 {
        FP { repr: (m * pow2(n as nat)) as i32 }
    } else if n >= -17 {
        FP { repr: (m / pow2((-n) as nat) as int) as i32 }
    } else {
        FP { repr: 0 }
    }
}

impl FP {
    /// 2 to the power of `self`, a Q16.16 logarithm: integer part the octave,
    /// fractional part the position within the octave.
    pub fn exp(self) -> (r: FP)
        ensures
            r == fp_exp(self),
    {
        proof {
            reveal(exp_frac_lookup);
        }
        let n: i32 = self.int_part();
        let f: u16 = self.fraq();
        let i: usize = (f / 64) as usize;
        let d: u32 = (f % 64) as u32;
        let bot: u32 = EXP_TABLE[i] as u32;
        let top: u32 = EXP_TABLE[i + 1] as u32;
        proof {
            assert(0 <= bot * (64 - d) + top * d < 0x1_0000 * 64) by (nonlinear_arith)
                requires
                    0 <= d <= 63,
                    0 <= bot < 0x1_0000,
                    0 <= top < 0x1_0000,
            ;
        }
        let rf: u32 = (bot * (64 - d) + top * d) / 64;
        let m: u32 = 0x1_0000 + rf;
        if n >= 15 {
            FP::raw(i32::MAX)
        } else if n >= 0 {
            let pow: i64 = crate::fp::pow2_i64(n as usize);
            proof {
                vstd::arithmetic::power2::lemma2_to64();
                if n < 14 {
                    vstd::arithmetic::power2::lemma_pow2_strictly_increases(n as nat, 14);
                }
                assert((m as i64) * pow < 0x8000_0000) by (nonlinear_arith)
                    requires
                        0x1_0000 <= m as i64,
                        (m as i64) < 0x2_0000,
                        1 <= pow <= 0x4000,
                ;
            }
            FP::raw(((m as i64) * pow) as i32)
        } else if n >= -17 {
            let pow: i64 = crate::fp::pow2_i64((-n) as usize);
            let q: i64 = (m as i64) / pow;
            proof {
                assert(0 <= q <= m as i64) by (nonlinear_arith)
                    requires
                        q == (m as i64) as int / (pow as int),
                        0 < m as i64,
                        1 <= pow,
                ;
            }
            FP::raw(q as i32)
        } else {
            FP::raw(0)
        }
    }
}

} // verus!
