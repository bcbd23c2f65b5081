use vstd::prelude::*;

verus! {

/// Lower edge of each FT8 activity window, below its centre frequency.
pub const LO_ALLOWANCE: u64 = 2_000;

/// Upper edge of each FT8 activity window, above its centre frequency.
pub const HI_ALLOWANCE: u64 = 3_000;

/// Centre frequencies (Hz) of FT8 activity, 160 m through 6 m.
pub open spec fn ft8_centres() -> Seq<int> {
    seq![
        1_840_000int,
        3_575_000int,
        7_074_000int,
        10_136_000int,
        14_074_000int,
        18_100_000int,
        21_074_000int,
        24_915_000int,
        28_074_000int,
        50_313_000int,
    ]
}

/// `f` lies in the half-open window `[c - 2000, c + 3000)` around centre `c`.
pub open spec fn in_window(c: int, f: int) -> bool {
    c - LO_ALLOWANCE <= f < c + HI_ALLOWANCE
}

/// `f` lies in at least one FT8 activity window.
pub open spec fn in_ft8_window(f: int) -> bool {
    exists|i: int| 0 <= i < ft8_centres().len() && #[trigger] in_window(ft8_centres()[i], f)
}

/// Whether a dial frequency (whole hertz) falls in an FT8 activity window, where
/// the digital mode is almost certainly wanted. A fractional frequency classifies
/// as its whole-hertz part, since every window edge is a whole hertz.
pub fn is_ft8(freq_hz: u64) -> (r: bool)
    ensures
        r == in_ft8_window(freq_hz as int),
{
    let centres: [u64; 10] = [
        1_840_000,
        3_575_000,
        7_074_000,
        10_136_000,
        14_074_000,
        18_100_000,
        21_074_000,
        24_915_000,
        28_074_000,
        50_313_000,
    ];
    assert(centres@ =~= ft8_centres().map_values(|c: int| c as u64));
    let mut i: usize = 0;
    while i < 10
        invariant
            0 <= i <= 10,
            centres@ =~= ft8_centres().map_values(|c: int| c as u64),
            forall|j: int| 0 <= j < i ==> !#[trigger] in_window(ft8_centres()[j], freq_hz as int),
        decreases 10 - i,
    {
        let c = centres[i];
        if freq_hz >= c - LO_ALLOWANCE && freq_hz < c + HI_ALLOWANCE {
            assert(in_window(ft8_centres()[i as int], freq_hz as int));
            return true;
        }
        i = i + 1;
    }
    false
}

} // verus!
