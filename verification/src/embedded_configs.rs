//! Built-in assets: configuration names and a generated percussive sound.
//!
//! Per-language keyboard configuration files and recorded effects are
//! loaded by collaborators; this module holds the registry of known
//! configuration names and synthesizes a small WAV-encoded percussive burst
//! used when no recorded effect is available.

use vstd::prelude::*;
use vstd::string::*;

use crate::fixed::{attenuate, sine_at, spec_attenuate, spec_sine, SCALE};
use crate::text::str_eq;

verus! {

/// Whether a configuration of this name is built in.
pub open spec fn spec_known_config(s: Seq<char>) -> bool {
    ||| s == "c"@
    ||| s == "chinese"@
    ||| s == "clojure"@
    ||| s == "cpp"@
    ||| s == "csharp"@
    ||| s == "emacs-lisp"@
    ||| s == "english"@
    ||| s == "french"@
    ||| s == "general"@
    ||| s == "german"@
    ||| s == "go"@
    ||| s == "haskell"@
    ||| s == "japanese"@
    ||| s == "java"@
    ||| s == "javascript"@
    ||| s == "kotlin"@
    ||| s == "php"@
    ||| s == "python"@
    ||| s == "ruby"@
    ||| s == "rust"@
    ||| s == "scheme"@
    ||| s == "spanish"@
    ||| s == "swift"@
    ||| s == "typescript"@
}

/// The names of the built-in configurations, sorted.
pub fn get_config_names() -> (r: Vec<String>)
    ensures
        r@.len() == 24,
        r@[0]@ == "c"@,
        r@[1]@ == "chinese"@,
        r@[2]@ == "clojure"@,
        r@[3]@ == "cpp"@,
        r@[4]@ == "csharp"@,
        r@[5]@ == "emacs-lisp"@,
        r@[6]@ == "english"@,
        r@[7]@ == "french"@,
        r@[8]@ == "general"@,
        r@[9]@ == "german"@,
        r@[10]@ == "go"@,
        r@[11]@ == "haskell"@,
        r@[12]@ == "japanese"@,
        r@[13]@ == "java"@,
        r@[14]@ == "javascript"@,
        r@[15]@ == "kotlin"@,
        r@[16]@ == "php"@,
        r@[17]@ == "python"@,
        r@[18]@ == "ruby"@,
        r@[19]@ == "rust"@,
        r@[20]@ == "scheme"@,
        r@[21]@ == "spanish"@,
        r@[22]@ == "swift"@,
        r@[23]@ == "typescript"@,
        forall|j: int| 0 <= j < 24 ==> spec_known_config(#[trigger] r@[j]@),
{
    let mut names: Vec<String> = Vec::new();
    names.push(<String as StringExecFns>::from_str("c"));
    names.push(<String as StringExecFns>::from_str("chinese"));
    names.push(<String as StringExecFns>::from_str("clojure"));
    names.push(<String as StringExecFns>::from_str("cpp"));
    names.push(<String as StringExecFns>::from_str("csharp"));
    names.push(<String as StringExecFns>::from_str("emacs-lisp"));
    names.push(<String as StringExecFns>::from_str("english"));
    names.push(<String as StringExecFns>::from_str("french"));
    names.push(<String as StringExecFns>::from_str("general"));
    names.push(<String as StringExecFns>::from_str("german"));
    names.push(<String as StringExecFns>::from_str("go"));
    names.push(<String as StringExecFns>::from_str("haskell"));
    names.push(<String as StringExecFns>::from_str("japanese"));
    names.push(<String as StringExecFns>::from_str("java"));
    names.push(<String as StringExecFns>::from_str("javascript"));
    names.push(<String as StringExecFns>::from_str("kotlin"));
    names.push(<String as StringExecFns>::from_str("php"));
    names.push(<String as StringExecFns>::from_str("python"));
    names.push(<String as StringExecFns>::from_str("ruby"));
    names.push(<String as StringExecFns>::from_str("rust"));
    names.push(<String as StringExecFns>::from_str("scheme"));
    names.push(<String as StringExecFns>::from_str("spanish"));
    names.push(<String as StringExecFns>::from_str("swift"));
    names.push(<String as StringExecFns>::from_str("typescript"));
    names
}

/// Whether a configuration of this name is built in.
pub fn config_exists(name: &str) -> (r: bool)
    ensures
        r == spec_known_config(name@),
{
    let names: Vec<String> = get_config_names();
    let mut i: usize = 0;
    while i < names.len()
        invariant
            0 <= i <= names@.len(),
            names@.len() == 24,
            forall|j: int| 0 <= j < 24 ==> spec_known_config(#[trigger] names@[j]@),
            spec_known_config(name@) ==> exists|j: int|
                i <= j < 24 && name@ == #[trigger] names@[j]@,
            forall|j: int| 0 <= j < i ==> name@ != #[trigger] names@[j]@,
        decreases names@.len() - i,
    {
        if str_eq(names[i].as_str(), name) {
            return true;
        }
        i = i + 1;
    }
    false
}

/// A short description of a built-in configuration; `None` for an unknown
/// name.
pub fn get_config_description(name: &str) -> (r: Option<String>)
    ensures
        r is Some <==> spec_known_config(name@),
{
    if config_exists(name) {
        Some(<String as StringExecFns>::from_str("Built-in key-to-note mapping"))
    } else {
        None
    }
}

/// The fixed-point value of burst sample `i`: a decaying 80 Hz tone,
/// sampled at 8000 Hz, 800 samples long.
pub open spec fn spec_burst_sample(i: int) -> int {
    spec_attenuate(spec_sine((i * 10_000) % (SCALE as int)), (800 - i) * 1250)
}

/// Byte `k` of the burst's PCM payload (for `44 <= k < 1644`): the samples
/// scaled to 16 bits, two's complement, little endian.
pub open spec fn spec_burst_byte(k: int) -> u8 {
    let i = (k - 44) / 2;
    let v = spec_burst_sample(i);
    let v16 = if v >= 0 {
        v / 32
    } else {
        -((-v) / 32)
    };
    let u = (v16 + 65_536) % 65_536;
    if (k - 44) % 2 == 0 {
        (u % 256) as u8
    } else {
        (u / 256) as u8
    }
}

/// The 44-byte WAV header of the built-in burst: RIFF/WAVE, one channel of
/// 16-bit PCM at 8000 Hz, and a 1600-byte data chunk.
pub open spec fn spec_burst_header() -> Seq<u8> {
    seq![82u8, 73u8, 70u8, 70u8, 100u8, 6u8, 0u8, 0u8, 87u8, 65u8, 86u8, 69u8, 102u8, 109u8, 116u8, 32u8, 16u8, 0u8, 0u8, 0u8, 1u8, 0u8, 1u8, 0u8, 64u8, 31u8, 0u8, 0u8, 128u8, 62u8, 0u8, 0u8, 2u8, 0u8, 16u8, 0u8, 100u8, 97u8, 116u8, 97u8, 64u8, 6u8, 0u8, 0u8]
}

/// A short percussive low-frequency burst, WAV-encoded: 800 mono 16-bit
/// samples at 8000 Hz of a decaying 80 Hz tone, behind a standard 44-byte
/// header.  Serves as the built-in effect when no recorded one is loaded;
/// every call returns the same bytes, pinned byte for byte.
pub fn get_fart_audio_data() -> (r: Vec<u8>)
    ensures
        r@.len() == 1644,
        forall|k: int| 0 <= k < 44 ==> r@[k] == spec_burst_header()[k],
        forall|k: int| 44 <= k < 1644 ==> r@[k] == spec_burst_byte(k),
{
    let mut r: Vec<u8> = vec![82, 73, 70, 70, 100, 6, 0, 0, 87, 65, 86, 69, 102, 109, 116, 32, 16, 0, 0, 0, 1, 0, 1, 0, 64, 31, 0, 0, 128, 62, 0, 0, 2, 0, 16, 0, 100, 97, 116, 97, 64, 6, 0, 0];
    proof {
        assert(r@ =~= spec_burst_header());
    }
    let mut i: i64 = 0;
    while i < 800
        invariant
            0 <= i <= 800,
            r@.len() == 44 + 2 * i,
            forall|k: int| 0 <= k < 44 ==> r@[k] == spec_burst_header()[k],
            forall|k: int| 44 <= k < 44 + 2 * i ==> r@[k] == spec_burst_byte(k),
        decreases 800 - i,
    {
        let phase: i64 = (i * 10_000) % SCALE;
        let env: i64 = (800 - i) * 1250;
        let v: i64 = attenuate(sine_at(phase), env);
        let v16: i64 = if v >= 0 {
            v / 32
        } else {
            -((-v) / 32)
        };
        let u: i64 = (v16 + 65_536) % 65_536;
        let lo: u8 = (u % 256) as u8;
        let hi: u8 = (u / 256) as u8;
        r.push(lo);
        r.push(hi);
        proof {
            assert(v == spec_burst_sample(i as int));
            assert((44 + 2 * (i as int) - 44) / 2 == i as int);
            assert((44 + 2 * (i as int) - 44) % 2 == 0);
            assert((44 + 2 * (i as int) + 1 - 44) / 2 == i as int);
            assert((44 + 2 * (i as int) + 1 - 44) % 2 == 1);
            assert(r@[44 + 2 * (i as int)] == spec_burst_byte(44 + 2 * (i as int)));
            assert(r@[44 + 2 * (i as int) + 1] == spec_burst_byte(44 + 2 * (i as int) + 1));
        }
        i = i + 1;
    }
    r
}

} // verus!
