//! Which paths name a file that the tool accepts.

use crate::error::{result_view, Error};
use vstd::prelude::*;
use vstd::utf8::{
    decode_utf8, decode_utf8_split, encode_utf8, encode_utf8_decode_utf8, encode_utf8_valid_utf8,
    is_char_boundary_iff_not_is_continuation_byte, is_continuation_byte,
};

verus! {

/// `s` ends with `suffix`.
pub open spec fn has_suffix<T>(s: Seq<T>, suffix: Seq<T>) -> bool {
    suffix.len() <= s.len() && s.subrange(s.len() - suffix.len(), s.len() as int) == suffix
}

/// A path is accepted when it ends in `.txt` or in `.md`, compared character
/// by character: `.MD` is not accepted, and what the file holds is not looked
/// at.
pub open spec fn is_text_path(path: Seq<char>) -> bool {
    has_suffix(path, ".txt"@) || has_suffix(path, ".md"@)
}

/// The path that a command line names: its second entry, after the name of
/// the program. What follows the path is not looked at.
pub open spec fn path_of_args(args: Seq<Seq<char>>) -> Result<Seq<char>, Error> {
    if args.len() < 2 {
        Err(Error::MissingInput)
    } else if !is_text_path(args[1]) {
        Err(Error::UnsupportedFileType)
    } else {
        Ok(args[1])
    }
}

/// The bytes of two texts, one after the other, are the bytes of the two
/// texts put together.
proof fn lemma_encode_concat(first: Seq<char>, second: Seq<char>)
    ensures
        encode_utf8(first + second) == encode_utf8(first) + encode_utf8(second),
    decreases first.len(),
{
    if first.len() > 0 {
        lemma_encode_concat(first.drop_first(), second);
        assert((first + second).drop_first() =~= first.drop_first() + second);
    }
}

/// A text ends with another exactly when its bytes end with the bytes of the
/// other: no character begins in the middle of another.
pub proof fn lemma_suffix_in_bytes(s: Seq<char>, suffix: Seq<char>)
    ensures
        has_suffix(s, suffix) <==> has_suffix(encode_utf8(s), encode_utf8(suffix)),
{
    let bytes = encode_utf8(s);
    let tail = encode_utf8(suffix);
    encode_utf8_valid_utf8(s);
    encode_utf8_valid_utf8(suffix);
    encode_utf8_decode_utf8(s);
    encode_utf8_decode_utf8(suffix);
    if has_suffix(s, suffix) {
        let before = s.subrange(0, s.len() - suffix.len());
        assert(before + suffix =~= s);
        lemma_encode_concat(before, suffix);
        assert(bytes.subrange(bytes.len() - tail.len(), bytes.len() as int) =~= tail);
    }
    if has_suffix(bytes, tail) {
        let cut = bytes.len() - tail.len();
        if suffix.len() == 0 {
            assert(s.subrange(s.len() as int, s.len() as int) =~= suffix);
        } else {
            // The bytes of the suffix begin with the first byte of a
            // character, so the cut falls between two characters of `s`.
            assert(!is_continuation_byte(tail[0]));
            is_char_boundary_iff_not_is_continuation_byte(bytes, cut);
            decode_utf8_split(bytes, cut);
            assert(s =~= decode_utf8(bytes.subrange(0, cut)) + suffix);
            assert(s.subrange(s.len() - suffix.len(), s.len() as int) =~= suffix);
        }
    }
}

/// Whether `s` ends with `suffix`. The two are compared byte by byte, from
/// where the suffix would begin.
pub fn ends_with(s: &str, suffix: &str) -> (b: bool)
    ensures
        b == has_suffix(s@, suffix@),
{
    let bytes = s.as_bytes();
    let tail = suffix.as_bytes();
    proof {
        lemma_suffix_in_bytes(s@, suffix@);
    }
    if tail.len() > bytes.len() {
        return false;
    }
    let start: usize = bytes.len() - tail.len();
    let mut i: usize = 0;
    while i < tail.len()
        invariant
            has_suffix(s@, suffix@) <==> has_suffix(bytes@, tail@),
            start + tail.len() == bytes.len(),
            i <= tail.len(),
            forall|j: int| 0 <= j < i ==> bytes@[start + j] == tail@[j],
        decreases tail.len() - i,
    {
        if bytes[start + i] != tail[i] {
            return false;
        }
        i += 1;
    }
    assert(bytes@.subrange(start as int, bytes.len() as int) =~= tail@);
    true
}

/// Whether `s` names a file that the tool accepts: one whose name ends in
/// `.txt` or `.md`.
pub fn is_text_file(s: &str) -> (b: bool)
    ensures
        b == is_text_path(s@),
{
    ends_with(s, ".txt") || ends_with(s, ".md")
}

/// Takes the path from the command line and holds it to the rule on
/// extensions.
pub fn input_path(args: &Vec<String>) -> (r: Result<&String, Error>)
    ensures
        result_view(r) == path_of_args(args.deep_view()),
{
    if args.len() < 2 {
        Err(Error::MissingInput)
    } else if !is_text_file(args[1].as_str()) {
        Err(Error::UnsupportedFileType)
    } else {
        Ok(&args[1])
    }
}

} // verus!
