//! Keyboard configurations: named key-to-note mappings.
//!
//! A configuration maps key names to notes and volumes; collaborators load
//! such configurations from files and hand them over as plain values.

use vstd::prelude::*;
use vstd::string::*;
use vstd::hash_map::StringHashMap;

use crate::fixed::SCALE;
use crate::waveforms::{spec_parse_waveform, Waveform};

verus! {

/// One key's sound: a note name, a volume in fixed point, and an optional
/// description of why the key got it.
pub struct KeyMapping {
    pub note: String,
    pub volume: i64,
    pub description: Option<String>,
}

/// A complete keyboard configuration.
pub struct KeyboardConfig {
    /// Version of the configuration format.
    pub version: String,
    /// What this configuration is for.
    pub description: String,
    /// Default waveform name for this configuration, if it names one.
    pub waveform: Option<String>,
    /// Key name to sound mapping.
    pub mappings: StringHashMap<KeyMapping>,
}

/// A key mapping with a description.
fn km(note: &str, volume: i64, description: &str) -> (r: KeyMapping)
    ensures
        r.note@ == note@,
        r.volume == volume,
        r.description is Some && r.description->0@ == description@,
{
    KeyMapping {
        note: <String as StringExecFns>::from_str(note),
        volume,
        description: Some(<String as StringExecFns>::from_str(description)),
    }
}

/// A key mapping without a description.
fn km_plain(note: &str, volume: i64) -> (r: KeyMapping)
    ensures
        r.note@ == note@,
        r.volume == volume,
        r.description is None,
{
    KeyMapping { note: <String as StringExecFns>::from_str(note), volume, description: None }
}

/// An owned copy of a string literal.
fn str_string(s: &str) -> (r: String)
    ensures
        r@ == s@,
{
    <String as StringExecFns>::from_str(s)
}

/// The bulk of the programming-optimized mapping; the handful of keys the
/// contract of [`KeyboardConfig::programming_optimized`] names are added by
/// the caller.
fn base_programming_mappings() -> StringHashMap<KeyMapping> {
    let mut m: StringHashMap<KeyMapping> = StringHashMap::new();
    m.insert(str_string("O"), km("D4", 300000, "Very common letter"));
    m.insert(str_string("I"), km("A4", 300000, "Very common letter"));
    m.insert(str_string("N"), km("E5", 300000, "Very common letter"));
    m.insert(str_string("S"), km("G5", 300000, "Very common letter"));
    m.insert(str_string("H"), km("C5", 300000, "Very common letter"));
    m.insert(str_string("R"), km("D5", 300000, "Very common letter"));
    m.insert(str_string("L"), km("F4", 250000, "Common letter"));
    m.insert(str_string("U"), km("A3", 250000, "Common letter"));
    m.insert(str_string("D"), km("F5", 250000, "Common letter"));
    m.insert(str_string("C"), km("B4", 250000, "Common letter"));
    m.insert(str_string("M"), km("B3", 250000, "Common letter"));
    m.insert(str_string("F"), km_plain("C3", 200000));
    m.insert(str_string("P"), km_plain("D3", 200000));
    m.insert(str_string("B"), km_plain("E3", 200000));
    m.insert(str_string("V"), km_plain("G3", 200000));
    m.insert(str_string("K"), km_plain("A5", 200000));
    m.insert(str_string("W"), km_plain("F3", 200000));
    m.insert(str_string("Y"), km_plain("B5", 200000));
    m.insert(str_string("G"), km_plain("C6", 200000));
    m.insert(str_string("J"), km_plain("D6", 200000));
    m.insert(str_string("Q"), km_plain("E6", 200000));
    m.insert(str_string("X"), km_plain("F6", 200000));
    m.insert(str_string("Z"), km_plain("G6", 200000));
    m.insert(str_string("Key0"), km("C4", 250000, "Number key"));
    m.insert(str_string("Key1"), km("E4", 250000, "Number key"));
    m.insert(str_string("Key2"), km("G4", 250000, "Number key"));
    m.insert(str_string("Key3"), km("A4", 250000, "Number key"));
    m.insert(str_string("Key4"), km("D4", 250000, "Number key"));
    m.insert(str_string("Key5"), km("F4", 250000, "Number key"));
    m.insert(str_string("Key6"), km("C5", 250000, "Number key"));
    m.insert(str_string("Key7"), km("E5", 250000, "Number key"));
    m.insert(str_string("Key8"), km("G5", 250000, "Number key"));
    m.insert(str_string("Key9"), km("A5", 250000, "Number key"));
    m.insert(str_string("Semicolon"), km("C4", 200000, "Programming symbol"));
    m.insert(str_string("LeftBracket"), km("E4", 200000, "Programming symbol"));
    m.insert(str_string("RightBracket"), km("G4", 200000, "Programming symbol"));
    m.insert(str_string("Comma"), km("A4", 200000, "Programming symbol"));
    m.insert(str_string("Dot"), km("D4", 200000, "Programming symbol"));
    m.insert(str_string("Slash"), km("F4", 200000, "Programming symbol"));
    m.insert(str_string("BackSlash"), km("B4", 200000, "Programming symbol"));
    m.insert(str_string("Apostrophe"), km("C5", 200000, "Programming symbol"));
    m.insert(str_string("Equal"), km("D5", 200000, "Programming symbol"));
    m.insert(str_string("Minus"), km("E5", 200000, "Programming symbol"));
    m.insert(str_string("Space"), km("C3", 100000, "Common key - quiet"));
    m.insert(str_string("Backspace"), km("G2", 100000, "Common key - quiet"));
    m.insert(str_string("Enter"), km("C3", 100000, "Common key - quiet"));
    m.insert(str_string("Tab"), km("F2", 100000, "Common key - quiet"));
    m.insert(str_string("Delete"), km("A2", 100000, "Common key - quiet"));
    m.insert(str_string("RShift"), km("E2", 50000, "Modifier - very quiet"));
    m.insert(str_string("LControl"), km("G2", 50000, "Modifier - very quiet"));
    m.insert(str_string("RControl"), km("A2", 50000, "Modifier - very quiet"));
    m.insert(str_string("LAlt"), km("D2", 50000, "Modifier - very quiet"));
    m.insert(str_string("RAlt"), km("F2", 50000, "Modifier - very quiet"));
    m.insert(str_string("CapsLock"), km("B1", 50000, "Modifier - very quiet"));
    m.insert(str_string("Escape"), km("C2", 50000, "Modifier - very quiet"));
    m.insert(str_string("Up"), km("E3", 150000, "Navigation key"));
    m.insert(str_string("Down"), km("D3", 150000, "Navigation key"));
    m.insert(str_string("Left"), km("C3", 150000, "Navigation key"));
    m.insert(str_string("Right"), km("G3", 150000, "Navigation key"));
    m.insert(str_string("Home"), km("C3", 150000, "Navigation key"));
    m.insert(str_string("End"), km("G3", 150000, "Navigation key"));
    m.insert(str_string("PageUp"), km("E3", 150000, "Navigation key"));
    m.insert(str_string("PageDown"), km("A3", 150000, "Navigation key"));
    m.insert(str_string("F1"), km("C6", 200000, "Function key"));
    m.insert(str_string("F2"), km("D6", 200000, "Function key"));
    m.insert(str_string("F3"), km("E6", 200000, "Function key"));
    m.insert(str_string("F4"), km("F6", 200000, "Function key"));
    m.insert(str_string("F5"), km("G6", 200000, "Function key"));
    m.insert(str_string("F6"), km("A6", 200000, "Function key"));
    m.insert(str_string("F7"), km("B6", 200000, "Function key"));
    m.insert(str_string("F8"), km("C7", 200000, "Function key"));
    m.insert(str_string("F10"), km("E7", 200000, "Function key"));
    m.insert(str_string("F11"), km("F7", 200000, "Function key"));
    m.insert(str_string("F12"), km("G7", 200000, "Function key"));
    m
}

impl KeyboardConfig {
    /// The default programming-optimized mapping: frequent letters on a
    /// pleasant pentatonic range, numbers and punctuation on supporting
    /// notes, modifiers quiet.
    #[verifier::rlimit(100)]
    pub fn programming_optimized() -> (r: KeyboardConfig)
        ensures
            r.version@ == "1.0"@,
            r.description@.len() > 0,
            r.waveform is None,
            r.mappings@.contains_key("A"@) && r.mappings@["A"@].note@ == "C4"@
                && r.mappings@["A"@].volume == 300_000,
            r.mappings@.contains_key("E"@) && r.mappings@["E"@].note@ == "E4"@
                && r.mappings@["E"@].volume == 300_000,
            r.mappings@.contains_key("T"@) && r.mappings@["T"@].note@ == "G4"@
                && r.mappings@["T"@].volume == 300_000,
            r.mappings@.contains_key("LShift"@) && r.mappings@["LShift"@].volume == 50_000,
            r.mappings@.contains_key("F9"@),
    {
        proof {
            reveal_strlit("A");
            reveal_strlit("E");
            reveal_strlit("T");
            reveal_strlit("LShift");
            reveal_strlit("F9");
            reveal_strlit("C4");
            reveal_strlit("E4");
            reveal_strlit("G4");
            reveal_strlit("Programming-optimized keyboard mapping with frequency analysis");
        }
        let mut m: StringHashMap<KeyMapping> = base_programming_mappings();
        m.insert(str_string("E"), km("E4", 300000, "Very common letter"));
        proof {
            assert(m@.contains_key("E"@) && m@["E"@].note@ == "E4"@ && m@["E"@].volume
                == 300_000);
        }
        m.insert(str_string("T"), km("G4", 300000, "Very common letter"));
        proof {
            assert("E"@ != "T"@) by {
                assert("E"@[0] == 'E' && "T"@[0] == 'T');
            }
            assert(m@.contains_key("E"@) && m@["E"@].note@ == "E4"@ && m@["E"@].volume
                == 300_000);
            assert(m@.contains_key("T"@) && m@["T"@].note@ == "G4"@ && m@["T"@].volume
                == 300_000);
        }
        m.insert(str_string("A"), km("C4", 300000, "Most common letter"));
        proof {
            assert("E"@ != "A"@ && "T"@ != "A"@) by {
                assert("E"@[0] == 'E' && "T"@[0] == 'T' && "A"@[0] == 'A');
            }
            assert(m@.contains_key("E"@) && m@["E"@].note@ == "E4"@ && m@["E"@].volume
                == 300_000);
            assert(m@.contains_key("T"@) && m@["T"@].note@ == "G4"@ && m@["T"@].volume
                == 300_000);
            assert(m@.contains_key("A"@) && m@["A"@].note@ == "C4"@ && m@["A"@].volume
                == 300_000);
        }
        m.insert(str_string("LShift"), km("C2", 50000, "Modifier - very quiet"));
        proof {
            assert("E"@ != "LShift"@ && "T"@ != "LShift"@ && "A"@ != "LShift"@) by {
                assert("E"@.len() == 1 && "T"@.len() == 1 && "A"@.len() == 1 && "LShift"@.len()
                    == 6);
            }
            assert(m@.contains_key("E"@) && m@["E"@].note@ == "E4"@ && m@["E"@].volume
                == 300_000);
            assert(m@.contains_key("T"@) && m@["T"@].note@ == "G4"@ && m@["T"@].volume
                == 300_000);
            assert(m@.contains_key("A"@) && m@["A"@].note@ == "C4"@ && m@["A"@].volume
                == 300_000);
            assert(m@.contains_key("LShift"@) && m@["LShift"@].volume == 50_000);
        }
        m.insert(str_string("F9"), km("D7", 200000, "Function key"));
        proof {
            assert("E"@ != "F9"@ && "T"@ != "F9"@ && "A"@ != "F9"@ && "LShift"@ != "F9"@) by {
                assert("E"@.len() == 1 && "T"@.len() == 1 && "A"@.len() == 1 && "LShift"@.len()
                    == 6 && "F9"@.len() == 2);
            }
            assert(m@.contains_key("E"@) && m@["E"@].note@ == "E4"@ && m@["E"@].volume
                == 300_000);
            assert(m@.contains_key("T"@) && m@["T"@].note@ == "G4"@ && m@["T"@].volume
                == 300_000);
            assert(m@.contains_key("A"@) && m@["A"@].note@ == "C4"@ && m@["A"@].volume
                == 300_000);
            assert(m@.contains_key("LShift"@) && m@["LShift"@].volume == 50_000);
            assert(m@.contains_key("F9"@));
        }
        KeyboardConfig {
            version: str_string("1.0"),
            description: str_string(
                "Programming-optimized keyboard mapping with frequency analysis",
            ),
            waveform: None,
            mappings: m,
        }
    }

    /// A simple piano layout: white keys on the home letters, black keys on
    /// the number row.
    pub fn piano_layout() -> (r: KeyboardConfig)
        ensures
            r.version@ == "1.0"@,
            r.description@.len() > 0,
            r.waveform is None,
            r.mappings@.contains_key("Q"@) && r.mappings@["Q"@].note@ == "C4"@,
    {
        let mut m: StringHashMap<KeyMapping> = StringHashMap::new();
        m.insert(str_string("W"), km("D4", 300000, "White key - D4"));
        m.insert(str_string("E"), km("E4", 300000, "White key - E4"));
        m.insert(str_string("R"), km("F4", 300000, "White key - F4"));
        m.insert(str_string("T"), km("G4", 300000, "White key - G4"));
        m.insert(str_string("Y"), km("A4", 300000, "White key - A4"));
        m.insert(str_string("U"), km("B4", 300000, "White key - B4"));
        m.insert(str_string("I"), km("C5", 300000, "White key - C5"));
        m.insert(str_string("Key2"), km("C#4", 250000, "Black key - C#4"));
        m.insert(str_string("Key3"), km("D#4", 250000, "Black key - D#4"));
        m.insert(str_string("Key5"), km("F#4", 250000, "Black key - F#4"));
        m.insert(str_string("Key6"), km("G#4", 250000, "Black key - G#4"));
        m.insert(str_string("Key7"), km("A#4", 250000, "Black key - A#4"));
        m.insert(str_string("Q"), km("C4", 300000, "White key - C4"));
        proof {
            reveal_strlit("Q");
            reveal_strlit("C4");
            reveal_strlit("Standard piano layout keyboard mapping");
        }
        KeyboardConfig {
            version: str_string("1.0"),
            description: str_string("Standard piano layout keyboard mapping"),
            waveform: None,
            mappings: m,
        }
    }

    /// An empty configuration with the given version, description and
    /// optional waveform name; collaborators that read configuration files
    /// fill it through [`KeyboardConfig::insert_mapping`].
    pub fn with_header(version: String, description: String, waveform: Option<String>) -> (r: KeyboardConfig)
        ensures
            r.version@ == version@,
            r.description@ == description@,
            r.waveform == waveform,
            r.mappings@ == Map::<Seq<char>, KeyMapping>::empty(),
    {
        KeyboardConfig { version, description, waveform, mappings: StringHashMap::new() }
    }

    /// Map a key name to a note and volume, replacing any mapping the key
    /// already had.  The volume is clamped into `[0, SCALE]`.
    pub fn insert_mapping(&mut self, key: String, note: String, volume: i64, description: Option<String>)
        ensures
            final(self).version == old(self).version,
            final(self).description == old(self).description,
            final(self).waveform == old(self).waveform,
            final(self).mappings@.contains_key(key@),
            final(self).mappings@[key@].note@ == note@,
            final(self).mappings@[key@].volume == if volume < 0 {
                0
            } else if volume > SCALE {
                SCALE as int
            } else {
                volume as int
            },
            forall|other: Seq<char>|
                other != key@ && old(self).mappings@.contains_key(other)
                    ==> #[trigger] final(self).mappings@.contains_key(other)
                    && final(self).mappings@[other] == old(self).mappings@[other],
    {
        let v: i64 = if volume < 0 {
            0
        } else if volume > SCALE {
            SCALE
        } else {
            volume
        };
        self.mappings.insert(key, KeyMapping { note, volume: v, description });
    }

    /// The waveform kind this configuration selects, when it names a valid
    /// one.
    pub fn get_waveform(&self) -> (r: Option<Waveform>)
        ensures
            r == match self.waveform {
                Some(w) => spec_parse_waveform(w@),
                None => None::<Waveform>,
            },
    {
        match &self.waveform {
            Some(w) => Waveform::from_str(w.as_str()),
            None => None,
        }
    }
}

impl Default for KeyboardConfig {
    /// The programming-optimized mapping.
    fn default() -> (r: KeyboardConfig)
        ensures
            r.version@ == "1.0"@,
            r.mappings@.contains_key("A"@),
    {
        KeyboardConfig::programming_optimized()
    }
}


} // verus!
