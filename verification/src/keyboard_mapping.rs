//! Musical note names, their frequencies, and the per-key press throttle.
//!
//! A note name such as `C4`, `F#5` or `Bb3` resolves to a frequency in
//! millihertz under A4 = 440 Hz tuning, with octaves above and below octave
//! four scaled by exact powers of two.

use vstd::prelude::*;
use vstd::string::*;

use crate::engine::MAX_TIME_US;
use crate::fixed::SCALE;
use crate::keyed::{find_key, lemma_find_key_push, lemma_find_key_update, spec_find_key};
use crate::keyboard_config::KeyboardConfig;

verus! {

/// The semitone within an octave that a note name (without its octave digit)
/// denotes, or `None` for an unknown name.  Accidentals accept both the
/// sharp of the lower note and the flat of the upper one.
pub open spec fn spec_semitone_of(name: Seq<char>) -> Option<int> {
    if name.len() == 1 {
        match name[0] {
            'C' | 'c' => Some(0int),
            'D' | 'd' => Some(2int),
            'E' | 'e' => Some(4int),
            'F' | 'f' => Some(5int),
            'G' | 'g' => Some(7int),
            'A' | 'a' => Some(9int),
            'B' | 'b' => Some(11int),
            _ => None,
        }
    } else if name.len() == 2 && name[1] == '#' {
        match name[0] {
            'C' | 'c' => Some(1int),
            'D' | 'd' => Some(3int),
            'F' | 'f' => Some(6int),
            'G' | 'g' => Some(8int),
            'A' | 'a' => Some(10int),
            _ => None,
        }
    } else if name.len() == 2 && (name[1] == 'b' || name[1] == 'B') {
        match name[0] {
            'D' | 'd' => Some(1int),
            'E' | 'e' => Some(3int),
            'G' | 'g' => Some(6int),
            'A' | 'a' => Some(8int),
            'B' => Some(10int),
            _ => None,
        }
    } else {
        None
    }
}

/// The frequency of the semitone in octave four, in millihertz, under
/// A4 = 440 Hz equal temperament.
pub open spec fn spec_octave4_mhz(semitone: int) -> int {
    if semitone == 0 {
        261_626
    } else if semitone == 1 {
        277_183
    } else if semitone == 2 {
        293_665
    } else if semitone == 3 {
        311_127
    } else if semitone == 4 {
        329_628
    } else if semitone == 5 {
        349_228
    } else if semitone == 6 {
        369_994
    } else if semitone == 7 {
        391_995
    } else if semitone == 8 {
        415_305
    } else if semitone == 9 {
        440_000
    } else if semitone == 10 {
        466_164
    } else {
        493_883
    }
}

/// Two to the `n`th power, for small `n`.
pub open spec fn spec_pow2(n: int) -> int
    decreases n,
{
    if n <= 0 {
        1
    } else {
        2 * spec_pow2(n - 1)
    }
}

/// The powers of two an octave shift can need.
pub proof fn lemma_pow2_small()
    ensures
        spec_pow2(0) == 1,
        spec_pow2(1) == 2,
        spec_pow2(2) == 4,
        spec_pow2(3) == 8,
        spec_pow2(4) == 16,
        spec_pow2(5) == 32,
{
    assert(spec_pow2(0) == 1);
    assert(spec_pow2(1) == 2);
    assert(spec_pow2(2) == 4);
    assert(spec_pow2(3) == 8);
    assert(spec_pow2(4) == 16);
    assert(spec_pow2(5) == 32);
}

/// The frequency a note name resolves to, in millihertz: `None` unless the
/// name is a known note followed by one octave digit.
pub open spec fn spec_note_frequency_mhz(s: Seq<char>) -> Option<int> {
    if s.len() < 2 {
        None
    } else if !('0' <= s.last() && s.last() <= '9') {
        None
    } else {
        match spec_semitone_of(s.drop_last()) {
            None => None,
            Some(st) => {
                let octave = s.last() as int - '0' as int;
                let base = spec_octave4_mhz(st);
                if octave >= 4 {
                    Some(base * spec_pow2(octave - 4))
                } else {
                    Some(base / spec_pow2(4 - octave))
                }
            },
        }
    }
}

fn semitone_of(name: &str) -> (r: Option<i64>)
    ensures
        match r {
            Some(v) => spec_semitone_of(name@) == Some(v as int) && 0 <= v <= 11,
            None => spec_semitone_of(name@) is None,
        },
{
    let n: usize = name.unicode_len();
    if n == 1 {
        let c: char = name.get_char(0);
        match c {
            'C' | 'c' => Some(0),
            'D' | 'd' => Some(2),
            'E' | 'e' => Some(4),
            'F' | 'f' => Some(5),
            'G' | 'g' => Some(7),
            'A' | 'a' => Some(9),
            'B' | 'b' => Some(11),
            _ => None,
        }
    } else if n == 2 {
        let c0: char = name.get_char(0);
        let c1: char = name.get_char(1);
        if c1 == '#' {
            match c0 {
                'C' | 'c' => Some(1),
                'D' | 'd' => Some(3),
                'F' | 'f' => Some(6),
                'G' | 'g' => Some(8),
                'A' | 'a' => Some(10),
                _ => None,
            }
        } else if c1 == 'b' || c1 == 'B' {
            match c0 {
                'D' | 'd' => Some(1),
                'E' | 'e' => Some(3),
                'G' | 'g' => Some(6),
                'A' | 'a' => Some(8),
                'B' => Some(10),
                _ => None,
            }
        } else {
            None
        }
    } else {
        None
    }
}

/// Resolve a note name such as `C4`, `F#5` or `Bb3` to its frequency in
/// millihertz; `None` for anything else.  The result is always positive and
/// at most about 16 MHz worth of millihertz, so it fits every voice
/// contract.
pub fn get_frequency_from_note(note: &str) -> (r: Option<i64>)
    ensures
        match r {
            Some(v) => spec_note_frequency_mhz(note@) == Some(v as int) && 0 < v
                <= 1_000_000_000,
            None => spec_note_frequency_mhz(note@) is None,
        },
{
    let n: usize = note.unicode_len();
    if n < 2 {
        return None;
    }
    let oc: char = note.get_char(n - 1);
    if !('0' <= oc && oc <= '9') {
        return None;
    }
    let name: &str = note.substring_char(0, n - 1);
    proof {
        assert(name@ =~= note@.drop_last());
    }
    let st: Option<i64> = semitone_of(name);
    match st {
        None => None,
        Some(semitone) => {
            let base: i64 = if semitone == 0 {
                261_626
            } else if semitone == 1 {
                277_183
            } else if semitone == 2 {
                293_665
            } else if semitone == 3 {
                311_127
            } else if semitone == 4 {
                329_628
            } else if semitone == 5 {
                349_228
            } else if semitone == 6 {
                369_994
            } else if semitone == 7 {
                391_995
            } else if semitone == 8 {
                415_305
            } else if semitone == 9 {
                440_000
            } else if semitone == 10 {
                466_164
            } else {
                493_883
            };
            let octave: i64 = (oc as u32) as i64 - 48;
            proof {
                lemma_pow2_small();
            }
            if octave >= 4 {
                let shift: i64 = octave - 4;
                let factor: i64 = if shift == 0 {
                    1
                } else if shift == 1 {
                    2
                } else if shift == 2 {
                    4
                } else if shift == 3 {
                    8
                } else if shift == 4 {
                    16
                } else {
                    32
                };
                Some(base * factor)
            } else {
                let shift: i64 = 4 - octave;
                let factor: i64 = if shift == 1 {
                    2
                } else if shift == 2 {
                    4
                } else if shift == 3 {
                    8
                } else {
                    16
                };
                Some(base / factor)
            }
        },
    }
}

/// The per-key press record: the instant of the last press and how many
/// rapid presses in a row preceded it.
pub open spec fn spec_key_press_step(entry: Option<(i64, u32)>, now: int) -> (int, (int, int)) {
    match entry {
        Some(e) => {
            if now - e.0 < 150_000 {
                let c = if e.1 >= 6 {
                    6int
                } else {
                    e.1 + 1
                };
                let m: int = if c <= 1 {
                    SCALE as int
                } else if c == 2 {
                    700_000
                } else if c == 3 {
                    400_000
                } else if c <= 5 {
                    200_000
                } else {
                    0
                };
                (m, (now, c))
            } else {
                (SCALE as int, (now, 1))
            }
        },
        None => (SCALE as int, (now, 1)),
    }
}

/// Throttle for rapid repeats of one physical key: presses less than 150
/// milliseconds apart get progressively quieter and soon silent; a pause
/// resets the count.
pub struct KeyRateLimiter {
    /// Last press instant and rapid-press count per key name.
    pub presses: Vec<(String, (i64, u32))>,
}

impl KeyRateLimiter {
    /// Unique keys, bounded size, instants in range.
    pub open spec fn wf(&self) -> bool {
        &&& self.presses@.len() <= 1_000_000
        &&& forall|j: int, k: int|
            0 <= j < k < self.presses@.len() ==> #[trigger] self.presses@[j].0@
                != #[trigger] self.presses@[k].0@
        &&& forall|j: int|
            0 <= j < self.presses@.len() ==> 0 <= (#[trigger] self.presses@[j]).1.0 <= MAX_TIME_US
                && self.presses@[j].1.1 <= 6
    }

    /// The press record of `id`, if one is held.
    pub open spec fn spec_entry_of(&self, id: Seq<char>) -> Option<(i64, u32)> {
        let k = spec_find_key(self.presses@, id);
        if k == -1 {
            None
        } else {
            Some(self.presses@[k].1)
        }
    }

    /// A limiter with no press history.
    pub fn new() -> (r: KeyRateLimiter)
        ensures
            r.wf(),
            r.presses@.len() == 0,
    {
        KeyRateLimiter { presses: Vec::new() }
    }

    /// Record a press of `key` at instant `now` and return its volume
    /// multiplier: full for the first press and after any 150 millisecond
    /// pause, then stepping down toward silence under rapid repeats.
    pub fn check_key_press(&mut self, key: &str, now: i64) -> (r: i64)
        requires
            old(self).wf(),
            0 <= now <= MAX_TIME_US,
            old(self).presses@.len() < 1_000_000,
        ensures
            final(self).wf(),
            r == spec_key_press_step(old(self).spec_entry_of(key@), now as int).0,
            0 <= r <= SCALE,
            final(self).spec_entry_of(key@) == Some(
                (
                    spec_key_press_step(old(self).spec_entry_of(key@), now as int).1.0 as i64,
                    spec_key_press_step(old(self).spec_entry_of(key@), now as int).1.1 as u32,
                ),
            ),
            forall|other: Seq<char>|
                other != key@ ==> #[trigger] final(self).spec_entry_of(other)
                    == old(self).spec_entry_of(other),
    {
        proof {
            crate::keyed::lemma_find_key_props(self.presses@, key@);
        }
        match find_key(&self.presses, key) {
            Some(i) => {
                let ghost old_entries = self.presses@;
                let (name, entry) = self.presses.remove(i);
                let last: i64 = entry.0;
                let count: u32 = entry.1;
                let stepped: (i64, (i64, u32)) = if now - last < 150_000 {
                    let c: u32 = if count >= 6 {
                        6
                    } else {
                        count + 1
                    };
                    let m: i64 = if c <= 1 {
                        SCALE
                    } else if c == 2 {
                        700_000
                    } else if c == 3 {
                        400_000
                    } else if c <= 5 {
                        200_000
                    } else {
                        0
                    };
                    (m, (now, c))
                } else {
                    (SCALE, (now, 1))
                };
                self.presses.insert(i, (name, stepped.1));
                proof {
                    let s2 = self.presses@;
                    assert(s2 =~= old_entries.update(i as int, s2[i as int]));
                    assert(s2[i as int].0@ == key@);
                    lemma_find_key_update(old_entries, i as int, s2[i as int], key@);
                    assert forall|j: int, k: int| 0 <= j < k < s2.len() implies
                        #[trigger] s2[j].0@ != #[trigger] s2[k].0@ by {
                        assert(s2[j].0@ == old_entries[j].0@);
                        assert(s2[k].0@ == old_entries[k].0@);
                    }
                    assert forall|other: Seq<char>| other != key@ implies
                        #[trigger] final(self).spec_entry_of(other)
                            == old(self).spec_entry_of(other) by {
                        lemma_find_key_update(old_entries, i as int, s2[i as int], other);
                        let k = spec_find_key(old_entries, other);
                        if k != -1 {
                            crate::keyed::lemma_find_key_props(old_entries, other);
                            assert(k != i);
                            assert(s2[k] == old_entries[k]);
                        }
                    }
                }
                stepped.0
            },
            None => {
                let ghost old_entries = self.presses@;
                self.presses.push((key.to_owned(), (now, 1)));
                proof {
                    let s2 = self.presses@;
                    let e = s2[s2.len() - 1];
                    assert(s2 =~= old_entries.push(e));
                    lemma_find_key_push(old_entries, e, key@);
                    crate::keyed::lemma_find_key_props(old_entries, key@);
                    assert forall|j: int, k: int| 0 <= j < k < s2.len() implies
                        #[trigger] s2[j].0@ != #[trigger] s2[k].0@ by {
                        if k == s2.len() - 1 {
                            assert(old_entries[j].0@ != key@);
                        }
                    }
                    assert forall|other: Seq<char>| other != key@ implies
                        #[trigger] final(self).spec_entry_of(other)
                            == old(self).spec_entry_of(other) by {
                        lemma_find_key_push(old_entries, e, other);
                        let k = spec_find_key(old_entries, other);
                        if k != -1 {
                            crate::keyed::lemma_find_key_props(old_entries, other);
                            assert(s2[k] == old_entries[k]);
                        }
                    }
                }
                SCALE
            },
        }
    }
}

/// Resolve a key name through a keyboard configuration: the frequency in
/// millihertz, the mapped volume in fixed point, and the note name.
pub fn get_frequency_and_volume_with_config(key_name: &str, config: &KeyboardConfig) -> (r: Option<
    (i64, i64, String),
>)
    ensures
        match r {
            Some(t) => {
                &&& config.mappings@.contains_key(key_name@)
                &&& spec_note_frequency_mhz(config.mappings@[key_name@].note@) == Some(t.0 as int)
                &&& 0 < t.0 <= 1_000_000_000
                &&& t.1 == config.mappings@[key_name@].volume
                &&& t.2@ == config.mappings@[key_name@].note@
            },
            None => !config.mappings@.contains_key(key_name@) || spec_note_frequency_mhz(
                config.mappings@[key_name@].note@,
            ) is None,
        },
{
    match config.mappings.get(key_name) {
        Some(mapping) => {
            match get_frequency_from_note(mapping.note.as_str()) {
                Some(freq) => {
                    let note: String = mapping.note.clone();
                    Some((freq, mapping.volume, note))
                },
                None => None,
            }
        },
        None => None,
    }
}

} // verus!
