//! The synthesizer's keyboard: which of its nine keys a MIDI pitch plays,
//! and which keys changed when a host pressed or released remote keys.
use vstd::prelude::*;

use crate::runtime::RemoteRuntime;

verus! {

/// The key of a pitch offset (semitones above middle C, in `0..`): the
/// white keys C D E F G A B of the first octave are keys 0 to 6, C and D
/// of the next octave keys 7 and 8, and higher pitches fold onto the
/// first octave.  Black keys have none.
pub open spec fn key_for_offset(offset: int) -> Option<usize> {
    if offset == 0 {
        Some(0)
    } else if offset == 2 {
        Some(1)
    } else if offset == 4 {
        Some(2)
    } else if offset == 5 {
        Some(3)
    } else if offset == 7 {
        Some(4)
    } else if offset == 9 {
        Some(5)
    } else if offset == 11 {
        Some(6)
    } else if offset == 12 {
        Some(7)
    } else if offset == 14 {
        Some(8)
    } else {
        let r = offset % 12;
        if r == 0 {
            Some(0)
        } else if r == 2 {
            Some(1)
        } else if r == 4 {
            Some(2)
        } else if r == 5 {
            Some(3)
        } else if r == 7 {
            Some(4)
        } else if r == 9 {
            Some(5)
        } else if r == 11 {
            Some(6)
        } else {
            None
        }
    }
}

/// The offset of a pitch from middle C (60), raised by octaves until it
/// is not negative.
pub open spec fn pitch_offset(pitch: int) -> int {
    if pitch - 60 >= 0 {
        pitch - 60
    } else {
        (pitch - 60) % 12
    }
}

/// The key that a (rounded) MIDI pitch plays.
pub fn key_index_for_pitch(pitch: i32) -> (r: Option<usize>)
    requires
        pitch >= i32::MIN + 60,
    ensures
        r == key_for_offset(pitch_offset(pitch as int)),
{
    let mut offset: i32 = pitch - 60;
    let ghost mut k: int = 0;
    while offset < 0
        invariant
            k >= 0,
            offset == pitch - 60 + 12 * k,
            pitch - 60 >= 0 ==> k == 0,
            pitch - 60 < 0 ==> offset < 12,
        decreases 12 - offset,
    {
        offset = offset + 12;
        proof {
            k = k + 1;
        }
    }
    proof {
        if pitch - 60 < 0 {
            assert((offset - 12 * k) % 12 == offset) by (nonlinear_arith)
                requires
                    0 <= offset < 12,
                    k >= 0,
            ;
        }
    }
    match offset {
        0 => Some(0),
        2 => Some(1),
        4 => Some(2),
        5 => Some(3),
        7 => Some(4),
        9 => Some(5),
        11 => Some(6),
        12 => Some(7),
        14 => Some(8),
        _ => match offset % 12 {
            0 => Some(0),
            2 => Some(1),
            4 => Some(2),
            5 => Some(3),
            7 => Some(4),
            9 => Some(5),
            11 => Some(6),
            _ => None,
        },
    }
}

/// The remote key ids `key_1` to `key_9`, for keys 0 to 8.
pub open spec fn remote_key_id(index: int) -> Seq<char> {
    seq!['k', 'e', 'y', '_', (('1' as u32) + index) as char]
}

fn remote_key_name(index: usize) -> (s: &'static str)
    requires
        index < 9,
    ensures
        s@ == remote_key_id(index as int),
{
    let s = if index == 0 {
        "key_1"
    } else if index == 1 {
        "key_2"
    } else if index == 2 {
        "key_3"
    } else if index == 3 {
        "key_4"
    } else if index == 4 {
        "key_5"
    } else if index == 5 {
        "key_6"
    } else if index == 6 {
        "key_7"
    } else if index == 7 {
        "key_8"
    } else {
        "key_9"
    };
    proof {
        reveal_strlit("key_1");
        reveal_strlit("key_2");
        reveal_strlit("key_3");
        reveal_strlit("key_4");
        reveal_strlit("key_5");
        reveal_strlit("key_6");
        reveal_strlit("key_7");
        reveal_strlit("key_8");
        reveal_strlit("key_9");
        assert(s@ =~= remote_key_id(index as int));
    }
    s
}

/// The key changes that bring `held` in line with the remote key states
/// `down` for keys `0..k`, in key order.
pub open spec fn key_changes(held: Seq<bool>, down: Seq<bool>, k: int) -> Seq<(usize, bool)>
    decreases k,
{
    if k <= 0 {
        seq![]
    } else {
        let rest = key_changes(held, down, k - 1);
        if down[k - 1] != held[k - 1] {
            rest.push(((k - 1) as usize, down[k - 1]))
        } else {
            rest
        }
    }
}

/// Follows the host's remote keys `key_1` to `key_9`: updates `held` to
/// the remote states and returns each key whose state changed, with its
/// new state, in key order.
pub fn sync_remote_keys(held: &mut [bool; 9], remote: &RemoteRuntime) -> (changes: Vec<(usize, bool)>)
    ensures
        forall|i: int| 0 <= i < 9 ==> final(held)@[i] == remote.key_state(#[trigger] remote_key_id(i)),
        changes@ == key_changes(
            old(held)@,
            Seq::new(9, |i: int| remote.key_state(remote_key_id(i))),
            9,
        ),
{
    let ghost down = Seq::new(9, |i: int| remote.key_state(remote_key_id(i)));
    let ghost before = held@;
    let mut changes: Vec<(usize, bool)> = Vec::new();
    let mut index: usize = 0;
    while index < 9
        invariant
            index <= 9,
            held@.len() == 9,
            down == Seq::new(9, |i: int| remote.key_state(remote_key_id(i))),
            before.len() == 9,
            forall|i: int| 0 <= i < index ==> held@[i] == down[i],
            forall|i: int| index <= i < 9 ==> held@[i] == before[i],
            changes@ == key_changes(before, down, index as int),
        decreases 9 - index,
    {
        let d = remote.key_down(remote_key_name(index));
        if d != held[index] {
            held[index] = d;
            changes.push((index, d));
        }
        index = index + 1;
    }
    assert forall|i: int| 0 <= i < 9 implies held@[i] == remote.key_state(#[trigger] remote_key_id(i)) by {
        assert(held@[i] == down[i]);
    }
    changes
}

/// Whether a semitone within an octave is a white key.
pub open spec fn white_semitone(r: int) -> bool {
    r == 0 || r == 2 || r == 4 || r == 5 || r == 7 || r == 9 || r == 11
}

/// The keyboard's two octaves: from middle C up to the D above the next
/// C, exactly the nine white notes (offsets 0, 2, 4, 5, 7, 9, 11, 12, 14)
/// play a key, middle C plays key 0 and the top D key 8, and a higher
/// note plays a higher key; so each of the nine keys is played by one
/// white note, in order.
pub proof fn lemma_white_keys_ascending(a: int, b: int)
    requires
        0 <= a <= 14,
        0 <= b <= 14,
    ensures
        key_for_offset(a) is Some <==> (a == 0 || a == 2 || a == 4 || a == 5 || a == 7 || a == 9
            || a == 11 || a == 12 || a == 14),
        key_for_offset(0) == Some(0usize),
        key_for_offset(14) == Some(8usize),
        a < b && key_for_offset(a) is Some && key_for_offset(b) is Some ==> key_for_offset(a)->0
            < key_for_offset(b)->0,
{
    assert(a == 0 || a == 1 || a == 2 || a == 3 || a == 4 || a == 5 || a == 6 || a == 7 || a == 8
        || a == 9 || a == 10 || a == 11 || a == 12 || a == 13 || a == 14);
    assert(b == 0 || b == 1 || b == 2 || b == 3 || b == 4 || b == 5 || b == 6 || b == 7 || b == 8
        || b == 9 || b == 10 || b == 11 || b == 12 || b == 13 || b == 14);
}

/// Above the keyboard's two octaves, a pitch plays the key of the same
/// note in the first octave, and only white notes play a key.
pub proof fn lemma_key_octaves(offset: int)
    requires
        offset > 14,
    ensures
        key_for_offset(offset) == key_for_offset(offset % 12),
        key_for_offset(offset) is Some <==> white_semitone(offset % 12),
{
}

/// Once the keys follow the remote states, following them again changes
/// nothing.
pub proof fn lemma_sync_settles(down: Seq<bool>, k: int)
    requires
        0 <= k <= down.len(),
    ensures
        key_changes(down, down, k) == Seq::<(usize, bool)>::empty(),
    decreases k,
{
    if k > 0 {
        lemma_sync_settles(down, k - 1);
    }
}

/// Whether the `f32` with these bits is greater than zero: positive,
/// not zero and not NaN (positive infinity counts).
pub open spec fn f32_above_zero(bits: u32) -> bool {
    0 < bits <= 0x7f80_0000
}

/// Whether the `f32` with these bits is greater than zero.
pub fn f32_bits_above_zero(bits: u32) -> (b: bool)
    ensures
        b == f32_above_zero(bits),
{
    0 < bits && bits <= 0x7f80_0000
}

/// The bits of the `f32` zero.
pub const TIME_ZERO: u32 = 0;

/// Entry `index` of a 3 by 4 block of key times.
pub open spec fn time_at(block: [[u32; 4]; 3], index: int) -> u32 {
    block@[index / 4]@[index % 4]
}

fn set_time(block: &mut [[u32; 4]; 3], index: usize, time: u32)
    requires
        index < 9,
    ensures
        time_at(*final(block), index as int) == time,
        forall|j: int| 0 <= j < 12 && j != index ==> time_at(*final(block), j) == time_at(*old(block), j),
{
    let mut row = block[index / 4];
    row[index % 4] = time;
    block[index / 4] = row;
    proof {
        assert forall|j: int| 0 <= j < 12 && j != index implies time_at(*block, j) == time_at(*old(block), j) by {
            if j / 4 == index / 4 {
                assert(j % 4 != index % 4);
            }
        }
    }
}

/// `after` is `before` with key `index` pressed at `now`: held, not
/// releasing, and its note-on time kept when it was pressed before and is
/// still releasing, else set to `now`; other keys as they were.
pub open spec fn pressed(before: Keyboard, after: Keyboard, index: int, now: u32) -> bool {
    let retrigger = f32_above_zero(time_at(before.key_states, index)) && f32_above_zero(
        time_at(before.key_decay, index),
    );
    &&& after.keys_held@ == before.keys_held@.update(index, true)
    &&& time_at(after.key_decay, index) == TIME_ZERO
    &&& time_at(after.key_states, index) == if retrigger {
        time_at(before.key_states, index)
    } else {
        now
    }
    &&& forall|j: int|
        0 <= j < 12 && j != index ==> time_at(after.key_states, j) == time_at(before.key_states, j)
            && time_at(after.key_decay, j) == time_at(before.key_decay, j)
}

/// `after` is `before` with key `index` released at `now`: not held and
/// releasing since `now`; note-on times and other keys as they were.
pub open spec fn released(before: Keyboard, after: Keyboard, index: int, now: u32) -> bool {
    &&& after.keys_held@ == before.keys_held@.update(index, false)
    &&& time_at(after.key_decay, index) == now
    &&& after.key_states == before.key_states
    &&& forall|j: int| 0 <= j < 12 && j != index ==> time_at(after.key_decay, j) == time_at(before.key_decay, j)
}

/// The synthesizer's nine keys: when each was last pressed and released
/// (`f32` seconds by their bits; zero for never), and which are held.
#[derive(Clone, Copy, Debug)]
pub struct Keyboard {
    /// Note-on times: above zero once a key was pressed.
    pub key_states: [[u32; 4]; 3],
    /// Release times: above zero while a key is releasing.
    pub key_decay: [[u32; 4]; 3],
    pub keys_held: [bool; 9],
}

impl Keyboard {
    /// Presses key `index` at time `now`.  A key that was pressed before
    /// and is still releasing keeps its note-on time and only stops
    /// releasing; otherwise its note starts at `now`.  Keys past the
    /// ninth are ignored.
    pub fn set_key_pressed(&mut self, index: usize, now: u32)
        ensures
            index >= 9 ==> *final(self) == *old(self),
            index < 9 ==> pressed(*old(self), *final(self), index as int, now),
    {
        if index >= 9 {
            return;
        }
        let has_previous = f32_bits_above_zero(self.key_states[index / 4][index % 4]);
        let in_release = f32_bits_above_zero(self.key_decay[index / 4][index % 4]);
        self.keys_held[index] = true;
        if has_previous && in_release {
            set_time(&mut self.key_decay, index, TIME_ZERO);
        } else {
            set_time(&mut self.key_states, index, now);
            set_time(&mut self.key_decay, index, TIME_ZERO);
        }
    }

    /// Releases key `index` at time `now`: it is no longer held and starts
    /// releasing.  Keys past the ninth are ignored.
    pub fn set_key_released(&mut self, index: usize, now: u32)
        ensures
            index >= 9 ==> *final(self) == *old(self),
            index < 9 ==> released(*old(self), *final(self), index as int, now),
    {
        if index >= 9 {
            return;
        }
        self.keys_held[index] = false;
        set_time(&mut self.key_decay, index, now);
    }

    /// A note from a host: a velocity above zero presses the note's key at
    /// `now`, any other releases it; notes without a key are ignored.
    /// `pitch` is the rounded MIDI pitch.
    pub fn apply_remote_note(&mut self, pitch: i32, velocity_bits: u32, now: u32)
        requires
            pitch >= i32::MIN + 60,
        ensures
            match key_for_offset(pitch_offset(pitch as int)) {
                Some(i) => if f32_above_zero(velocity_bits) {
                    pressed(*old(self), *final(self), i as int, now)
                } else {
                    released(*old(self), *final(self), i as int, now)
                },
                None => *final(self) == *old(self),
            },
    {
        match key_index_for_pitch(pitch) {
            Some(index) => {
                if f32_bits_above_zero(velocity_bits) {
                    self.set_key_pressed(index, now);
                } else {
                    self.set_key_released(index, now);
                }
            },
            None => {},
        }
    }
}

/// Pressing a key again while it releases continues its note: the
/// note-on time of a key that was played, released at a time above zero
/// and pressed again is the first press's, and it no longer releases.
pub proof fn lemma_retrigger_keeps_note(
    start: Keyboard,
    mid: Keyboard,
    end: Keyboard,
    index: int,
    release_time: u32,
    press_time: u32,
)
    requires
        0 <= index < 9,
        f32_above_zero(time_at(start.key_states, index)),
        f32_above_zero(release_time),
        released(start, mid, index, release_time),
        pressed(mid, end, index, press_time),
    ensures
        time_at(end.key_states, index) == time_at(start.key_states, index),
        time_at(end.key_decay, index) == TIME_ZERO,
        end.keys_held@[index],
{
}

} // verus!
