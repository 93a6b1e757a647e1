use vstd::prelude::*;
use vstd::string::{StrSliceExecFns, StringExecFns, StringSliceAdditionalSpecFns};
use vstd::utf8::{decode_utf8, encode_utf8, encode_utf8_decode_utf8, is_char_boundary};

verus! {

/// `s` ends with `suffix`.
pub open spec fn has_suffix(s: Seq<char>, suffix: Seq<char>) -> bool {
    suffix.len() <= s.len() && s.subrange(s.len() - suffix.len(), s.len() as int) == suffix
}

/// The name carries one of the audio extensions the player opens.
pub open spec fn is_song_name(name: Seq<char>) -> bool {
    has_suffix(name, ".mp3"@) || has_suffix(name, ".wav"@) || has_suffix(name, ".ogg"@)
        || has_suffix(name, ".flac"@) || has_suffix(name, ".aac"@)
}

/// `s` cut to at most `max` bytes of UTF-8: a longer text keeps the characters
/// encoded in its first `max - 3` bytes, followed by `...`.
pub open spec fn limited(s: Seq<char>, max: nat) -> Seq<char> {
    let bytes = encode_utf8(s);
    if bytes.len() > max {
        decode_utf8(bytes.subrange(0, max - 3)) + "..."@
    } else {
        s
    }
}

/// Tells whether `s` ends with `suffix`, comparing characters.
pub fn ends_with(s: &str, suffix: &str) -> (r: bool)
    ensures
        r == has_suffix(s@, suffix@),
{
    let n = s.unicode_len();
    let m = suffix.unicode_len();
    if m > n {
        return false;
    }
    let start: usize = n - m;
    let mut i: usize = 0;
    while i < m
        invariant
            n == s@.len(),
            m == suffix@.len(),
            start == n - m,
            i <= m,
            forall|j: int| 0 <= j < i ==> s@[start + j] == #[trigger] suffix@[j],
        decreases m - i,
    {
        if s.get_char(start + i) != suffix.get_char(i) {
            assert(s@.subrange(start as int, n as int)[i as int] != suffix@[i as int]);
            return false;
        }
        i = i + 1;
    }
    assert(s@.subrange(start as int, n as int) =~= suffix@);
    true
}

/// Tells whether a file name looks like an audio file the player can open,
/// judging by its extension.
pub fn is_song_file(filename: &str) -> (r: bool)
    ensures
        r == is_song_name(filename@),
{
    ends_with(filename, ".mp3") || ends_with(filename, ".wav") || ends_with(filename, ".ogg")
        || ends_with(filename, ".flac") || ends_with(filename, ".aac")
}

/// Writes into `dest` the text `src`, cut to `max_length` bytes with a trailing
/// `...` when it is longer; the cut must fall between two characters.
pub fn limit_text(dest: &mut String, src: &str, max_length: usize)
    requires
        src.spec_bytes().len() > max_length ==> max_length >= 3 && is_char_boundary(
            src.spec_bytes(),
            max_length - 3,
        ),
    ensures
        final(dest)@ == limited(src@, max_length as nat),
{
    let size = src.as_bytes().len();
    if size > max_length {
        let parts = src.split_at(max_length - 3);
        let head = parts.0;
        proof {
            encode_utf8_decode_utf8(head@);
            assert(head@ == decode_utf8(encode_utf8(src@).subrange(0, max_length - 3)));
        }
        let mut out = String::from_str(head);
        out.append("...");
        *dest = out;
    } else {
        *dest = String::from_str(src);
    }
}

} // verus!
