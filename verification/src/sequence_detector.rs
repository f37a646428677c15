//! Detection of a fixed letter sequence in a stream of key inputs.
//!
//! The detector keeps a bounded history of recent letter inputs and fires
//! once when the history ends with the target sequence, then stays quiet
//! until enough further inputs have arrived, so that holding the last key
//! cannot fire it repeatedly.

use vstd::prelude::*;
use vstd::string::*;

verus! {

/// Maximum length of input history kept for matching.
pub const MAX_HISTORY_LENGTH: usize = 50;

/// The letter accepted from an input: lower-case letters pass unchanged,
/// upper-case letters are folded, everything else is ignored.
pub open spec fn spec_letter_of(ch: char) -> Option<char> {
    if 'a' <= ch && ch <= 'z' {
        Some(ch)
    } else if 'A' <= ch && ch <= 'Z' {
        Some((((ch as u32) + 32) as u8) as char)
    } else {
        None
    }
}

/// A history sequence after one letter arrives: appended at the end, and
/// trimmed at the front once over the length bound.
pub open spec fn spec_push_history(h: Seq<char>, c: char) -> Seq<char> {
    let h2 = h.push(c);
    if h2.len() > MAX_HISTORY_LENGTH {
        h2.drop_first()
    } else {
        h2
    }
}

/// Whether the history ends with the target sequence.
pub open spec fn spec_ends_with(h: Seq<char>, t: Seq<char>) -> bool {
    h.len() >= t.len() && h.skip(h.len() - t.len()) == t
}

/// Detector for one fixed letter sequence over a stream of inputs.
pub struct SequenceDetector {
    /// Recent letter inputs, oldest first.
    pub input_history: std::collections::VecDeque<char>,
    /// The sequence looked for, as lower-case letters.
    pub target_sequence: Vec<char>,
    /// Set after a match, to swallow immediate re-triggers.
    pub recently_triggered: bool,
    /// Inputs seen since the trigger flag was last reset.
    pub reset_counter: usize,
}

impl SequenceDetector {
    /// The bounds and letter ranges every operation preserves.
    pub open spec fn wf(&self) -> bool {
        &&& self.input_history@.len() <= MAX_HISTORY_LENGTH
        &&& forall|i: int|
            0 <= i < self.input_history@.len() ==> 'a' <= #[trigger] self.input_history@[i]
                && self.input_history@[i] <= 'z'
        &&& self.target_sequence@ == "oppokokoppokosuttenten"@
        &&& self.reset_counter <= 23
    }

    /// A fresh detector for the fixed target sequence, with empty history.
    pub fn new() -> (r: SequenceDetector)
        ensures
            r.wf(),
            r.input_history@.len() == 0,
            !r.recently_triggered,
            r.reset_counter == 0,
    {
        let target: Vec<char> = vec![
            'o', 'p', 'p', 'o', 'k', 'o', 'k', 'o', 'p', 'p', 'o', 'k', 'o', 's', 'u', 't', 't',
            'e', 'n', 't', 'e', 'n',
        ];
        proof {
            reveal_strlit("oppokokoppokosuttenten");
            assert(target@ =~= "oppokokoppokosuttenten"@);
        }
        SequenceDetector {
            input_history: std::collections::VecDeque::with_capacity(MAX_HISTORY_LENGTH),
            target_sequence: target,
            recently_triggered: false,
            reset_counter: 0,
        }
    }

    /// Whether the input history currently ends with the target sequence.
    pub fn check_sequence_match(&self) -> (r: bool)
        requires
            self.wf(),
        ensures
            r == spec_ends_with(self.input_history@, self.target_sequence@),
    {
        let history_len: usize = self.input_history.len();
        let target_len: usize = self.target_sequence.len();
        if history_len < target_len {
            return false;
        }
        let base: usize = history_len - target_len;
        let mut i: usize = 0;
        while i < target_len
            invariant
                self.wf(),
                target_len == self.target_sequence@.len(),
                history_len == self.input_history@.len(),
                base == history_len - target_len,
                0 <= i <= target_len,
                forall|k: int|
                    0 <= k < i ==> self.input_history@[base + k] == self.target_sequence@[k],
            decreases target_len - i,
        {
            if self.input_history[base + i] != self.target_sequence[i] {
                proof {
                    assert(self.input_history@.skip(base as int)[i as int] != self.target_sequence@[i as int]);
                }
                return false;
            }
            i = i + 1;
        }
        proof {
            assert(self.input_history@.skip(base as int) =~= self.target_sequence@);
        }
        true
    }

    /// Feed one input. Letters enter the bounded history (folded to lower
    /// case); other inputs are ignored. Returns whether the target sequence
    /// was just completed; after a match the detector stays quiet until more
    /// inputs than the target's length have arrived.
    pub fn process_input(&mut self, ch: char) -> (r: bool)
        requires
            old(self).wf(),
        ensures
            final(self).wf(),
            final(self).target_sequence@ == old(self).target_sequence@,
            spec_letter_of(ch) is None ==> *final(self) == *old(self) && !r,
            spec_letter_of(ch) is Some ==> {
                let h2 = spec_push_history(old(self).input_history@, spec_letter_of(ch)->Some_0);
                let counted = if old(self).reset_counter + 1 > old(self).target_sequence@.len() {
                    0
                } else {
                    old(self).reset_counter + 1
                };
                let cleared = !old(self).recently_triggered || old(self).reset_counter + 1
                    > old(self).target_sequence@.len();
                &&& final(self).input_history@ == h2
                &&& (r == (cleared && spec_ends_with(h2, old(self).target_sequence@)))
                &&& (r ==> final(self).recently_triggered && final(self).reset_counter == 0)
                &&& (!r ==> final(self).recently_triggered == !cleared
                    && final(self).reset_counter == counted)
            },
    {
        proof {
            reveal_strlit("oppokokoppokosuttenten");
        }
        let letter: Option<char> = char_to_letter(ch);
        match letter {
            None => false,
            Some(c) => {
                self.input_history.push_back(c);
                if self.input_history.len() > MAX_HISTORY_LENGTH {
                    let _ = self.input_history.pop_front();
                }
                proof {
                    let h = old(self).input_history@;
                    let h2 = h.push(c);
                    assert(self.input_history@ == spec_push_history(h, c));
                    assert forall|i: int|
                        0 <= i < self.input_history@.len() implies 'a'
                        <= #[trigger] self.input_history@[i] && self.input_history@[i] <= 'z' by {
                        if h2.len() > MAX_HISTORY_LENGTH {
                            assert(self.input_history@[i] == h2[i + 1]);
                            if i + 1 < h.len() {
                                assert(h2[i + 1] == h[i + 1]);
                            } else {
                                assert(h2[i + 1] == c);
                            }
                        } else {
                            if i < h.len() {
                                assert(h2[i] == h[i]);
                            } else {
                                assert(h2[i] == c);
                            }
                        }
                    }
                }
                self.reset_counter = self.reset_counter + 1;
                if self.reset_counter > self.target_sequence.len() {
                    self.recently_triggered = false;
                    self.reset_counter = 0;
                }
                if !self.recently_triggered {
                    if self.check_sequence_match() {
                        self.recently_triggered = true;
                        self.reset_counter = 0;
                        return true;
                    }
                }
                false
            },
        }
    }

    /// The input history as a string, oldest input first.
    pub fn get_history_string(&self) -> (r: String)
        requires
            self.wf(),
        ensures
            r@ == self.input_history@,
    {
        let mut r = <String as StringExecFns>::from_str("");
        proof {
            reveal_strlit("");
            assert(r@ =~= self.input_history@.take(0));
        }
        let mut i: usize = 0;
        while i < self.input_history.len()
            invariant
                self.wf(),
                0 <= i <= self.input_history@.len(),
                r@ == self.input_history@.take(i as int),
            decreases self.input_history@.len() - i,
        {
            let c: char = self.input_history[i];
            let piece: &str = char_str(c);
            r.append(piece);
            proof {
                assert(r@ =~= self.input_history@.take(i as int + 1));
            }
            i = i + 1;
        }
        proof {
            assert(self.input_history@.take(self.input_history@.len() as int)
                =~= self.input_history@);
        }
        r
    }

    /// The target sequence as a string.
    pub fn get_target_string(&self) -> (r: String)
        requires
            self.wf(),
        ensures
            r@ == self.target_sequence@,
    {
        <String as StringExecFns>::from_str("oppokokoppokosuttenten")
    }

    /// Forget all history and the trigger flag.
    pub fn reset(&mut self)
        requires
            old(self).wf(),
        ensures
            final(self).wf(),
            final(self).input_history@.len() == 0,
            !final(self).recently_triggered,
            final(self).reset_counter == 0,
            final(self).target_sequence@ == old(self).target_sequence@,
    {
        self.input_history.clear();
        self.recently_triggered = false;
        self.reset_counter = 0;
    }
}

/// The accepted letter for an input, folding upper case to lower case.
fn char_to_letter(ch: char) -> (r: Option<char>)
    ensures
        r == spec_letter_of(ch),
        r is Some ==> 'a' <= r->Some_0 && r->Some_0 <= 'z',
{
    if 'a' <= ch && ch <= 'z' {
        Some(ch)
    } else if 'A' <= ch && ch <= 'Z' {
        let v: u32 = (ch as u32) + 32;
        let b: u8 = v as u8;
        Some(b as char)
    } else {
        None
    }
}

/// The one-character string of a lower-case letter.
fn char_str(c: char) -> (r: &'static str)
    requires
        'a' <= c && c <= 'z',
    ensures
        r@ =~= seq![c],
{
    let r: &'static str = match c {
        'a' => "a",
        'b' => "b",
        'c' => "c",
        'd' => "d",
        'e' => "e",
        'f' => "f",
        'g' => "g",
        'h' => "h",
        'i' => "i",
        'j' => "j",
        'k' => "k",
        'l' => "l",
        'm' => "m",
        'n' => "n",
        'o' => "o",
        'p' => "p",
        'q' => "q",
        'r' => "r",
        's' => "s",
        't' => "t",
        'u' => "u",
        'v' => "v",
        'w' => "w",
        'x' => "x",
        'y' => "y",
        'z' => "z",
        _ => "",
    };
    proof {
        reveal_strlit("a");
        reveal_strlit("b");
        reveal_strlit("c");
        reveal_strlit("d");
        reveal_strlit("e");
        reveal_strlit("f");
        reveal_strlit("g");
        reveal_strlit("h");
        reveal_strlit("i");
        reveal_strlit("j");
        reveal_strlit("k");
        reveal_strlit("l");
        reveal_strlit("m");
        reveal_strlit("n");
        reveal_strlit("o");
        reveal_strlit("p");
        reveal_strlit("q");
        reveal_strlit("r");
        reveal_strlit("s");
        reveal_strlit("t");
        reveal_strlit("u");
        reveal_strlit("v");
        reveal_strlit("w");
        reveal_strlit("x");
        reveal_strlit("y");
        reveal_strlit("z");
    }
    r
}

} // verus!
