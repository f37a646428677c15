//! Musical scales assigned to programming languages, and helpers to order
//! and characterize notes.

use vstd::prelude::*;
use vstd::string::*;
use vstd::hash_map::StringHashMap;

use crate::text::str_eq;

verus! {

/// A musical scale: its name, its notes and a description of its character.
pub struct Scale {
    pub name: String,
    pub notes: Vec<String>,
    pub description: String,
}

/// A language together with the scale assigned to it and its key-to-note
/// mappings.
pub struct LanguageScale {
    pub language: String,
    pub scale: Scale,
    pub key_mappings: Vec<(String, String)>,
}

/// Scale analysis over the language configurations.
pub struct ScaleComparison;

/// The number a note name sorts by: twelve per octave plus the semitone,
/// with octave four assumed when the name ends in no digit, and zero for an
/// unknown note name.
pub open spec fn spec_note_number(s: Seq<char>) -> int {
    let octave: int = if s.len() > 0 && '0' <= s.last() && s.last() <= '9' {
        s.last() as int - '0' as int
    } else {
        4
    };
    let name = s.drop_last();
    octave * 12 + spec_note_base(name)
}

/// The semitone a note name (without octave) sorts by; zero when unknown.
/// Flats are written with a lower-case `b`, as in the scale tables.
pub open spec fn spec_note_base(name: Seq<char>) -> int {
    if name.len() == 1 {
        match name[0] {
            'C' => 0,
            'D' => 2,
            'E' => 4,
            'F' => 5,
            'G' => 7,
            'A' => 9,
            'B' => 11,
            _ => 0,
        }
    } else if name.len() == 2 && name[1] == '#' {
        match name[0] {
            'C' => 1,
            'D' => 3,
            'F' => 6,
            'G' => 8,
            'A' => 10,
            _ => 0,
        }
    } else if name.len() == 2 && name[1] == 'b' {
        match name[0] {
            'D' => 1,
            'E' => 3,
            'G' => 6,
            'A' => 8,
            'B' => 10,
            _ => 0,
        }
    } else {
        0
    }
}

/// An owned copy of a string literal.
fn owned(s: &str) -> (r: String)
    ensures
        r@ == s@,
{
    <String as StringExecFns>::from_str(s)
}

/// A scale from its name, notes and description.
fn mk_scale(name: &str, notes: Vec<String>, description: &str) -> (r: Scale)
    ensures
        r.name@ == name@,
        r.notes@ == notes@,
        r.description@ == description@,
{
    Scale { name: owned(name), notes, description: owned(description) }
}

impl ScaleComparison {
    /// The musical scale of each supported language: pentatonic scales for
    /// Rust and Go, heptatonic ones for JavaScript, C and Python.
    pub fn get_language_scales() -> (r: StringHashMap<Scale>)
        ensures
            r@.contains_key("rust"@) && r@["rust"@].notes@.len() == 5 && r@["rust"@].name@
                == "C Minor Pentatonic"@,
            r@.contains_key("javascript"@) && r@["javascript"@].notes@.len() == 7
                && r@["javascript"@].name@ == "D Mixolydian"@,
            r@.contains_key("c"@) && r@["c"@].notes@.len() == 7 && r@["c"@].name@
                == "A Natural Minor"@,
            r@.contains_key("go"@) && r@["go"@].notes@.len() == 5 && r@["go"@].name@
                == "G Major Pentatonic"@,
            r@.contains_key("python"@) && r@["python"@].notes@.len() == 7 && r@["python"@].name@
                == "F Major"@,
    {
        proof {
            reveal_strlit("rust");
            reveal_strlit("javascript");
            reveal_strlit("c");
            reveal_strlit("go");
            reveal_strlit("python");
            assert("rust"@[0] == 'r' && "javascript"@[0] == 'j' && "c"@[0] == 'c' && "go"@[0]
                == 'g' && "python"@[0] == 'p');
        }
        let mut scales: StringHashMap<Scale> = StringHashMap::new();

        let rust_notes: Vec<String> = vec![
            owned("C"), owned("Eb"), owned("F"), owned("G"), owned("Bb"),
        ];
        scales.insert(
            owned("rust"),
            mk_scale(
                "C Minor Pentatonic",
                rust_notes,
                "Systems programming power - emphasizes strength and directness",
            ),
        );
        proof {
            assert(scales@.contains_key("rust"@) && scales@["rust"@].notes@.len() == 5
                && scales@["rust"@].name@ == "C Minor Pentatonic"@);
        }

        let js_notes: Vec<String> = vec![
            owned("D"), owned("E"), owned("F#"), owned("G"), owned("A"), owned("B"), owned("C"),
        ];
        scales.insert(
            owned("javascript"),
            mk_scale(
                "D Mixolydian",
                js_notes,
                "Dynamic web development - flexible and modern with characteristic flat seventh",
            ),
        );
        proof {
            assert(scales@.contains_key("rust"@) && scales@["rust"@].notes@.len() == 5
                && scales@["rust"@].name@ == "C Minor Pentatonic"@);
            assert(scales@.contains_key("javascript"@) && scales@["javascript"@].notes@.len() == 7
                && scales@["javascript"@].name@ == "D Mixolydian"@);
        }

        let c_notes: Vec<String> = vec![
            owned("A"), owned("B"), owned("C"), owned("D"), owned("E"), owned("F"), owned("G"),
        ];
        scales.insert(
            owned("c"),
            mk_scale(
                "A Natural Minor",
                c_notes,
                "Systems programming foundation - serious and precise for low-level control",
            ),
        );
        proof {
            assert(scales@.contains_key("rust"@) && scales@["rust"@].notes@.len() == 5
                && scales@["rust"@].name@ == "C Minor Pentatonic"@);
            assert(scales@.contains_key("javascript"@) && scales@["javascript"@].notes@.len() == 7
                && scales@["javascript"@].name@ == "D Mixolydian"@);
            assert(scales@.contains_key("c"@) && scales@["c"@].notes@.len() == 7
                && scales@["c"@].name@ == "A Natural Minor"@);
        }

        let go_notes: Vec<String> = vec![
            owned("G"), owned("A"), owned("B"), owned("D"), owned("E"),
        ];
        scales.insert(
            owned("go"),
            mk_scale(
                "G Major Pentatonic",
                go_notes,
                "Simple and efficient - clean and clear like Go's philosophy",
            ),
        );
        proof {
            assert(scales@.contains_key("rust"@) && scales@["rust"@].notes@.len() == 5
                && scales@["rust"@].name@ == "C Minor Pentatonic"@);
            assert(scales@.contains_key("javascript"@) && scales@["javascript"@].notes@.len() == 7
                && scales@["javascript"@].name@ == "D Mixolydian"@);
            assert(scales@.contains_key("c"@) && scales@["c"@].notes@.len() == 7
                && scales@["c"@].name@ == "A Natural Minor"@);
            assert(scales@.contains_key("go"@) && scales@["go"@].notes@.len() == 5
                && scales@["go"@].name@ == "G Major Pentatonic"@);
        }

        let python_notes: Vec<String> = vec![
            owned("F"), owned("G"), owned("A"), owned("Bb"), owned("C"), owned("D"), owned("E"),
        ];
        scales.insert(
            owned("python"),
            mk_scale(
                "F Major",
                python_notes,
                "Friendly and readable - warm major scale reflecting Python's accessibility",
            ),
        );
        proof {
            assert(scales@.contains_key("rust"@) && scales@["rust"@].notes@.len() == 5
                && scales@["rust"@].name@ == "C Minor Pentatonic"@);
            assert(scales@.contains_key("javascript"@) && scales@["javascript"@].notes@.len() == 7
                && scales@["javascript"@].name@ == "D Mixolydian"@);
            assert(scales@.contains_key("c"@) && scales@["c"@].notes@.len() == 7
                && scales@["c"@].name@ == "A Natural Minor"@);
            assert(scales@.contains_key("go"@) && scales@["go"@].notes@.len() == 5
                && scales@["go"@].name@ == "G Major Pentatonic"@);
            assert(scales@.contains_key("python"@) && scales@["python"@].notes@.len() == 7
                && scales@["python"@].name@ == "F Major"@);
        }

        scales
    }

    /// Convert a note name such as `C4` or `Bb4` to its number for sorting.
    pub fn note_to_number(note: &str) -> (r: i32)
        requires
            note@.len() >= 1,
        ensures
            r == spec_note_number(note@),
            0 <= r <= 119,
    {
        let n: usize = note.unicode_len();
        let last: char = note.get_char(n - 1);
        let octave: i32 = if '0' <= last && last <= '9' {
            ((last as u32) as i32) - 48
        } else {
            4
        };
        let name: &str = note.substring_char(0, n - 1);
        proof {
            assert(name@ =~= note@.drop_last());
        }
        let m: usize = name.unicode_len();
        let base: i32 = if m == 1 {
            let c: char = name.get_char(0);
            match c {
                'C' => 0,
                'D' => 2,
                'E' => 4,
                'F' => 5,
                'G' => 7,
                'A' => 9,
                'B' => 11,
                _ => 0,
            }
        } else if m == 2 {
            let c0: char = name.get_char(0);
            let c1: char = name.get_char(1);
            if c1 == '#' {
                match c0 {
                    'C' => 1,
                    'D' => 3,
                    'F' => 6,
                    'G' => 8,
                    'A' => 10,
                    _ => 0,
                }
            } else if c1 == 'b' {
                match c0 {
                    'D' => 1,
                    'E' => 3,
                    'G' => 6,
                    'A' => 8,
                    'B' => 10,
                    _ => 0,
                }
            } else {
                0
            }
        } else {
            0
        };
        octave * 12 + base
    }

    /// The mood a scale's name characterizes, for presentation.
    pub fn get_scale_mood(scale_name: &str) -> (r: &'static str)
        ensures
            scale_name@ == "C Minor Pentatonic"@ ==> r@ == "Powerful, direct, bluesy"@,
            scale_name@ == "D Mixolydian"@ ==> r@ == "Modern, jazzy, slightly unresolved"@,
            scale_name@ == "A Natural Minor"@ ==> r@ == "Serious, melancholic, precise"@,
            scale_name@ == "G Major Pentatonic"@ ==> r@ == "Simple, bright, folk-like"@,
            scale_name@ == "F Major"@ ==> r@ == "Warm, friendly, pastoral"@,
    {
        proof {
            reveal_strlit("C Minor Pentatonic");
            reveal_strlit("D Mixolydian");
            reveal_strlit("A Natural Minor");
            reveal_strlit("G Major Pentatonic");
            reveal_strlit("F Major");
            assert("C Minor Pentatonic"@[0] == 'C' && "D Mixolydian"@[0] == 'D'
                && "A Natural Minor"@[0] == 'A' && "G Major Pentatonic"@[0] == 'G'
                && "F Major"@[0] == 'F');
        }
        if str_eq(scale_name, "C Minor Pentatonic") {
            "Powerful, direct, bluesy"
        } else if str_eq(scale_name, "D Mixolydian") {
            "Modern, jazzy, slightly unresolved"
        } else if str_eq(scale_name, "A Natural Minor") {
            "Serious, melancholic, precise"
        } else if str_eq(scale_name, "G Major Pentatonic") {
            "Simple, bright, folk-like"
        } else if str_eq(scale_name, "F Major") {
            "Warm, friendly, pastoral"
        } else {
            "Neutral"
        }
    }

    /// Sort key-to-note mappings by their note, for presentation: the
    /// result holds the same pairs, ordered by each note's number.
    pub fn sort_mappings_by_note(mappings: Vec<(String, String)>) -> (r: Vec<(String, String)>)
        requires
            forall|i: int| 0 <= i < mappings@.len() ==> (#[trigger] mappings@[i]).1@.len() >= 1,
        ensures
            r@.to_multiset() == mappings@.to_multiset(),
            forall|i: int, j: int|
                0 <= i < j < r@.len() ==> spec_note_number(#[trigger] r@[i].1@) <= spec_note_number(
                    #[trigger] r@[j].1@,
                ),
    {
        let mut input = mappings;
        let mut out: Vec<(String, String)> = Vec::new();
        proof {
            broadcast use vstd::seq_lib::group_to_multiset_ensures;
            broadcast use vstd::multiset::group_multiset_axioms;

            vstd::multiset::lemma_multiset_empty_len(out@.to_multiset());
            assert(out@.to_multiset().add(input@.to_multiset()) =~= input@.to_multiset());
        }
        while input.len() > 0
            invariant
                out@.to_multiset().add(input@.to_multiset()) == mappings@.to_multiset(),
                forall|i: int| 0 <= i < input@.len() ==> (#[trigger] input@[i]).1@.len() >= 1,
                forall|i: int| 0 <= i < out@.len() ==> (#[trigger] out@[i]).1@.len() >= 1,
                forall|i: int, j: int|
                    0 <= i < j < out@.len() ==> spec_note_number(#[trigger] out@[i].1@)
                        <= spec_note_number(#[trigger] out@[j].1@),
                forall|i: int, j: int|
                    0 <= i < out@.len() && 0 <= j < input@.len() ==> spec_note_number(
                        #[trigger] out@[i].1@,
                    ) <= spec_note_number(#[trigger] input@[j].1@),
            decreases input@.len(),
        {
            let mut min_idx: usize = 0;
            let mut min_val: i32 = Self::note_to_number(input[0].1.as_str());
            let mut k: usize = 1;
            while k < input.len()
                invariant
                    forall|i: int| 0 <= i < input@.len() ==> (#[trigger] input@[i]).1@.len() >= 1,
                    input@.len() > 0,
                    0 <= min_idx < k,
                    1 <= k <= input@.len(),
                    min_val == spec_note_number(input@[min_idx as int].1@),
                    forall|i: int|
                        0 <= i < k ==> min_val <= spec_note_number(#[trigger] input@[i].1@),
                decreases input@.len() - k,
            {
                let v: i32 = Self::note_to_number(input[k].1.as_str());
                if v < min_val {
                    min_val = v;
                    min_idx = k;
                }
                k = k + 1;
            }
            let ghost pre_input = input@;
            let ghost pre_out = out@;
            let picked = input.remove(min_idx);
            out.push(picked);
            proof {
                broadcast use vstd::seq_lib::group_to_multiset_ensures;
                broadcast use vstd::multiset::group_multiset_axioms;

                assert(pre_input.contains(picked));
                assert(pre_input.to_multiset().count(picked) > 0);
                assert(input@.to_multiset() =~= pre_input.to_multiset().remove(picked));
                assert(out@.to_multiset() =~= pre_out.to_multiset().insert(picked));
                assert(out@.to_multiset().add(input@.to_multiset()) =~= pre_out.to_multiset().add(
                    pre_input.to_multiset(),
                ));
                assert(forall|i: int|
                    0 <= i < input@.len() ==> #[trigger] input@[i] == if i < min_idx {
                        pre_input[i]
                    } else {
                        pre_input[i + 1]
                    });
            }
        }
        proof {
            broadcast use vstd::seq_lib::group_to_multiset_ensures;
            broadcast use vstd::multiset::group_multiset_axioms;

            vstd::multiset::lemma_multiset_empty_len(input@.to_multiset());
            assert(input@.to_multiset().len() == 0);
            assert(out@.to_multiset() =~= mappings@.to_multiset());
        }
        out
    }
}

} // verus!
