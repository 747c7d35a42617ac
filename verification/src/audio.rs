//! The audio spectrum frame that hosts and shaders exchange: 64 band
//! magnitudes, the tempo and four energies, and where each sits in the
//! shader's audio uniform.  Values are `f32`s held by their bits.
use vstd::prelude::*;

verus! {

/// The number of values in a spectrum frame.
pub const FRAME_LEN: usize = 69;

/// The audio part of the shader's resolution uniform: 32 rows of four
/// band values, then the tempo and the bass, mid, high and total energy.
#[derive(Clone, Copy, Debug)]
pub struct AudioUniform {
    pub audio_data: [[u32; 4]; 32],
    pub bpm: u32,
    pub bass_energy: u32,
    pub mid_energy: u32,
    pub high_energy: u32,
    pub total_energy: u32,
}

/// Value `i` of the frame of `u`: band `i` (row `i / 4`, column `i % 4`)
/// for `i < 64`, then the tempo and the four energies.
pub open spec fn frame_value(u: AudioUniform, i: int) -> u32 {
    if i < 64 {
        u.audio_data@[i / 4]@[i % 4]
    } else if i == 64 {
        u.bpm
    } else if i == 65 {
        u.bass_energy
    } else if i == 66 {
        u.mid_energy
    } else if i == 67 {
        u.high_energy
    } else {
        u.total_energy
    }
}

/// The spectrum frame of an audio uniform.
pub fn spectrum_frame(u: &AudioUniform) -> (f: Vec<u32>)
    ensures
        f@.len() == 69,
        forall|i: int| 0 <= i < 69 ==> f@[i] == frame_value(*u, i),
{
    let mut f: Vec<u32> = Vec::new();
    let mut i: usize = 0;
    while i < 64
        invariant
            i <= 64,
            f@.len() == i,
            forall|j: int| 0 <= j < i ==> f@[j] == frame_value(*u, j),
        decreases 64 - i,
    {
        f.push(u.audio_data[i / 4][i % 4]);
        i = i + 1;
    }
    f.push(u.bpm);
    f.push(u.bass_energy);
    f.push(u.mid_energy);
    f.push(u.high_energy);
    f.push(u.total_energy);
    f
}

/// Writes a spectrum frame into an audio uniform: the inverse of
/// [`spectrum_frame`].  Rows 16 and up are not part of a frame and keep
/// their values.
pub fn apply_spectrum_frame(u: &mut AudioUniform, frame: &[u32])
    requires
        frame@.len() == 69,
    ensures
        forall|i: int| 0 <= i < 69 ==> frame_value(*final(u), i) == frame@[i],
        forall|r: int| 16 <= r < 32 ==> final(u).audio_data@[r] == old(u).audio_data@[r],
{
    let mut i: usize = 0;
    while i < 64
        invariant
            i <= 64,
            frame@.len() == 69,
            forall|j: int| 0 <= j < i ==> frame_value(*u, j) == frame@[j],
            forall|r: int| 16 <= r < 32 ==> u.audio_data@[r] == old(u).audio_data@[r],
        decreases 64 - i,
    {
        let mut row = u.audio_data[i / 4];
        row[i % 4] = frame[i];
        u.audio_data[i / 4] = row;
        proof {
            assert forall|j: int| 0 <= j < i + 1 implies frame_value(*u, j) == frame@[j] by {
                if j / 4 != i / 4 {
                } else if j % 4 != i % 4 {
                } else {
                    assert(j == i);
                }
            }
        }
        i = i + 1;
    }
    u.bpm = frame[64];
    u.bass_energy = frame[65];
    u.mid_energy = frame[66];
    u.high_energy = frame[67];
    u.total_energy = frame[68];
}

/// A frame holds exactly the spectrum part of a uniform: a uniform that a
/// frame of `u` was written into agrees with `u` on bands 0 to 63 (rows 0
/// to 15), the tempo and the energies.
pub proof fn lemma_frame_round_trip(u: AudioUniform, after: AudioUniform)
    requires
        forall|i: int| 0 <= i < 69 ==> frame_value(after, i) == frame_value(u, i),
    ensures
        after.bpm == u.bpm,
        after.bass_energy == u.bass_energy,
        after.mid_energy == u.mid_energy,
        after.high_energy == u.high_energy,
        after.total_energy == u.total_energy,
        forall|r: int, c: int|
            0 <= r < 16 && 0 <= c < 4 ==> after.audio_data@[r]@[c] == u.audio_data@[r]@[c],
{
    assert(frame_value(after, 64) == frame_value(u, 64));
    assert(frame_value(after, 65) == frame_value(u, 65));
    assert(frame_value(after, 66) == frame_value(u, 66));
    assert(frame_value(after, 67) == frame_value(u, 67));
    assert(frame_value(after, 68) == frame_value(u, 68));
    assert forall|r: int, c: int| 0 <= r < 16 && 0 <= c < 4 implies after.audio_data@[r]@[c]
        == u.audio_data@[r]@[c] by {
        let i = 4 * r + c;
        assert(i / 4 == r && i % 4 == c);
        assert(frame_value(after, i) == frame_value(u, i));
    }
}

} // verus!
