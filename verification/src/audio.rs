use vstd::prelude::*;

verus! {

/// Mono samples in one tick of the voice channel: 20 ms at 48 kHz.
pub const TICK_SAMPLES: usize = 960;

/// Interleaved stereo audio as one channel: each value is the sum of a left
/// and a right sample. Divided by 65536, it is the mono sample between -1
/// and 1. A last sample without its pair is left out.
pub open spec fn mono_sums(stereo: Seq<i16>) -> Seq<i32> {
    Seq::new(stereo.len() / 2, |i: int| (stereo[2 * i] + stereo[2 * i + 1]) as i32)
}

/// Merges the two channels of interleaved stereo audio into one.
pub fn downmix(stereo: &[i16]) -> (mono: Vec<i32>)
    ensures
        mono@ == mono_sums(stereo@),
{
    let pairs = stereo.len() / 2;
    let mut mono: Vec<i32> = Vec::new();
    let mut at: usize = 0;
    while at < pairs
        invariant
            stereo@.len() <= usize::MAX,
            pairs == stereo@.len() / 2,
            at <= pairs,
            mono@ == mono_sums(stereo@).subrange(0, at as int),
        decreases pairs - at,
    {
        let left: i32 = stereo[2 * at] as i32;
        let right: i32 = stereo[2 * at + 1] as i32;
        mono.push(left + right);
        at = at + 1;
        assert(mono@ =~= mono_sums(stereo@).subrange(0, at as int));
    }
    assert(mono@ =~= mono_sums(stereo@));
    mono
}

} // verus!
