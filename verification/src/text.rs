//! Reading what a console program printed.
use vstd::prelude::*;
use vstd::string::*;
use vstd::utf8::*;

verus! {

/// What `String::from_utf8_lossy` makes of `bytes`.
pub uninterp spec fn utf8_lossy(bytes: Seq<u8>) -> Seq<char>;

/// What `str::to_lowercase` makes of `chars`.
pub uninterp spec fn lowercase(chars: Seq<char>) -> Seq<char>;

/// The lower-case form of an ASCII letter; every other character stands for itself.
pub open spec fn ascii_lower(c: char) -> char {
    if 'A' <= c && c <= 'Z' {
        (c as u32 + 32) as char
    } else {
        c
    }
}

/// Whether `part` occurs in `whole` as a contiguous run of characters.
pub open spec fn occurs_in(part: Seq<char>, whole: Seq<char>) -> bool {
    exists|i: int|
        0 <= i && i + part.len() <= whole.len() && #[trigger] whole.subrange(
            i,
            i + part.len(),
        ) == part
}

/// Calls `String::from_utf8_lossy`. Bytes that are valid UTF-8 come out as the characters that
/// they encode; what stands for an invalid run is left to the name.
#[verifier::external_body]
pub(crate) fn decode_lossy(bytes: &[u8]) -> (res: String)
    ensures
        res@ == utf8_lossy(bytes@),
        valid_utf8(bytes@) ==> res@ == decode_utf8(bytes@),
{
    String::from_utf8_lossy(bytes).into_owned()
}

/// Calls `str::to_lowercase`. Text that is all ASCII has each capital letter replaced by the
/// small one; for other text the result is left to the name.
#[verifier::external_body]
pub(crate) fn to_lower(text: &str) -> (res: String)
    ensures
        res@ == lowercase(text@),
        is_ascii_chars(text@) ==> res@ == text@.map_values(|c: char| ascii_lower(c)),
{
    text.to_lowercase()
}

/// Whether `part` occurs in `whole`.
pub fn contains_text(whole: &str, part: &str) -> (found: bool)
    ensures
        found == occurs_in(part@, whole@),
{
    let whole_chars: Vec<char> = characters(whole);
    let part_chars: Vec<char> = characters(part);
    if part_chars.len() > whole_chars.len() {
        return false;
    }
    let last: usize = whole_chars.len() - part_chars.len();
    for start in 0..last
        invariant
            whole_chars@ == whole@,
            part_chars@ == part@,
            last + part@.len() == whole@.len(),
            forall|i: int|
                0 <= i < start ==> #[trigger] whole@.subrange(i, i + part@.len()) != part@,
    {
        if matches_at(&whole_chars, &part_chars, start) {
            return true;
        }
    }
    matches_at(&whole_chars, &part_chars, last)
}

/// Whether the characters of `part` stand in `whole` from position `start` on.
fn matches_at(whole: &Vec<char>, part: &Vec<char>, start: usize) -> (same: bool)
    requires
        start + part@.len() <= whole@.len(),
    ensures
        same == (whole@.subrange(start as int, start + part@.len()) == part@),
{
    let length: usize = whole.len();
    for k in 0..part.len()
        invariant
            length == whole@.len(),
            start + part@.len() <= length,
            forall|j: int| 0 <= j < k ==> whole@[start + j] == part@[j],
    {
        if whole[start + k] != part[k] {
            assert(whole@.subrange(start as int, start + part@.len())[k as int] != part@[k as int]);
            return false;
        }
    }
    assert(whole@.subrange(start as int, start + part@.len()) =~= part@);
    true
}

/// The characters of `text`, in order.
fn characters(text: &str) -> (res: Vec<char>)
    ensures
        res@ == text@,
{
    let mut res: Vec<char> = Vec::new();
    for c in it: text.chars()
        invariant
            res@ == it.seq().take(it.index()),
            it.seq() == text@,
    {
        res.push(c);
    }
    res
}

} // verus!
