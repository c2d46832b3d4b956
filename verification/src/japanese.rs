//! Recognition of Japanese-script characters, used when choosing which of
//! a title's variants counts as English or native.

use vstd::prelude::*;

verus! {

/// Whether the character belongs to a Japanese script block: CJK symbols
/// and punctuation, hiragana, katakana, CJK ideographs (including
/// extension A and the compatibility block), or the halfwidth and
/// fullwidth forms.
pub open spec fn spec_is_japanese_char(c: char) -> bool {
    ||| 0x3000 <= c as u32 <= 0x30FF
    ||| 0x3400 <= c as u32 <= 0x4DBF
    ||| 0x4E00 <= c as u32 <= 0x9FFF
    ||| 0xF900 <= c as u32 <= 0xFAFF
    ||| 0xFF00 <= c as u32 <= 0xFFEF
}

/// Whether the character belongs to a Japanese script block.
pub fn is_japanese_char(c: char) -> (r: bool)
    ensures
        r == spec_is_japanese_char(c),
{
    let u = c as u32;
    (0x3000 <= u && u <= 0x30FF) || (0x3400 <= u && u <= 0x4DBF) || (0x4E00 <= u && u <= 0x9FFF)
        || (0xF900 <= u && u <= 0xFAFF) || (0xFF00 <= u && u <= 0xFFEF)
}

/// Whether no character of the sequence is in a Japanese script block.
pub open spec fn no_japanese_chars(s: Seq<char>) -> bool {
    forall|i: int| 0 <= i < s.len() ==> !spec_is_japanese_char(s[i])
}

/// Whether no character of the string slice is in a Japanese script block.
pub fn all_non_japanese(s: &str) -> (r: bool)
    ensures
        r == no_japanese_chars(s@),
{
    let v = crate::text::chars_of(s);
    let mut i: usize = 0;
    while i < v.len()
        invariant
            v@ == s@,
            i <= v@.len(),
            forall|k: int| 0 <= k < i ==> !spec_is_japanese_char(v@[k]),
        decreases v@.len() - i,
    {
        if is_japanese_char(v[i]) {
            return false;
        }
        i = i + 1;
    }
    true
}

} // verus!
