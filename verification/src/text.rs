//! Small verified helpers over strings: ASCII case folding and comparison.

use vstd::prelude::*;
use vstd::string::*;

verus! {

/// The character code with an ASCII upper-case letter folded to lower case.
pub open spec fn spec_lower_code(c: char) -> u32 {
    if 'A' <= c && c <= 'Z' {
        ((c as u32) + 32) as u32
    } else {
        c as u32
    }
}

/// The sequence of case-folded character codes of a string.
pub open spec fn spec_lower_codes(s: Seq<char>) -> Seq<u32> {
    s.map_values(|c: char| spec_lower_code(c))
}

/// Case fold one character code.
fn lower_code(c: char) -> (r: u32)
    ensures
        r == spec_lower_code(c),
{
    let v: u32 = c as u32;
    if 65 <= v && v <= 90 {
        v + 32
    } else {
        v
    }
}

/// Whether two strings hold exactly the same characters.
pub fn str_eq(a: &str, b: &str) -> (r: bool)
    ensures
        r == (a@ == b@),
{
    let an: usize = a.unicode_len();
    let bn: usize = b.unicode_len();
    if an != bn {
        return false;
    }
    let mut i: usize = 0;
    while i < an
        invariant
            0 <= i <= an,
            an == a@.len(),
            an == b@.len(),
            forall|j: int| 0 <= j < i ==> a@[j] == b@[j],
        decreases an - i,
    {
        if a.get_char(i) != b.get_char(i) {
            return false;
        }
        i = i + 1;
    }
    proof {
        assert(a@ =~= b@);
    }
    true
}

/// Whether two strings are equal up to ASCII case.
pub fn eq_ignore_case(a: &str, b: &str) -> (r: bool)
    ensures
        r == (spec_lower_codes(a@) == spec_lower_codes(b@)),
{
    let an: usize = a.unicode_len();
    let bn: usize = b.unicode_len();
    if an != bn {
        proof {
            assert(spec_lower_codes(a@).len() != spec_lower_codes(b@).len());
        }
        return false;
    }
    let mut i: usize = 0;
    while i < an
        invariant
            0 <= i <= an,
            an == a@.len(),
            an == b@.len(),
            forall|j: int|
                0 <= j < i ==> spec_lower_codes(a@)[j] == spec_lower_codes(b@)[j],
        decreases an - i,
    {
        let ca: u32 = lower_code(a.get_char(i));
        let cb: u32 = lower_code(b.get_char(i));
        if ca != cb {
            proof {
                assert(spec_lower_codes(a@)[i as int] != spec_lower_codes(b@)[i as int]);
            }
            return false;
        }
        i = i + 1;
    }
    proof {
        assert(spec_lower_codes(a@) =~= spec_lower_codes(b@));
    }
    true
}

} // verus!
