//! Text helpers shared by the other modules.

use vstd::prelude::*;

verus! {

/// The ASCII upper-case equivalent of a character; any other character is kept.
pub open spec fn ascii_upper_char(c: char) -> char {
    if 'a' <= c <= 'z' {
        ((c as u32) - 32) as char
    } else {
        c
    }
}

/// A text with every ASCII letter in upper case.
pub open spec fn ascii_upper(s: Seq<char>) -> Seq<char> {
    s.map_values(|c: char| ascii_upper_char(c))
}

/// The contents of a list of texts.
pub open spec fn texts(list: Seq<String>) -> Seq<Seq<char>> {
    list.map_values(|s: String| s@)
}

/// `str::to_ascii_uppercase` maps `a` to `z` onto `A` to `Z`, leaves every other
/// character alone, and keeps their order.
pub assume_specification[ str::to_ascii_uppercase ](s: &str) -> (res: String)
    ensures
        res@ == ascii_upper(s@),
;

/// `str::eq`: two texts are equal when they hold the same characters.
#[verifier::external_body]
pub(crate) fn same_text(a: &str, b: &str) -> (res: bool)
    ensures
        res == (a@ == b@),
{
    a == b
}

/// Upper-casing a text a second time changes nothing.
pub proof fn ascii_upper_idempotent(s: Seq<char>)
    ensures
        ascii_upper(ascii_upper(s)) == ascii_upper(s),
{
    assert(ascii_upper(ascii_upper(s)) =~= ascii_upper(s));
}

/// Upper-casing works character by character: a letter from `a` to `z` moves down
/// by the distance of the two alphabets, and every other character stays.
pub proof fn ascii_upper_char_by_char(s: Seq<char>, i: int)
    requires
        0 <= i < s.len(),
    ensures
        ascii_upper(s).len() == s.len(),
        'a' <= s[i] <= 'z' ==> 'A' <= ascii_upper(s)[i] <= 'Z' && s[i] as int - ascii_upper(
            s,
        )[i] as int == 'a' as int - 'A' as int,
        s[i] < 'a' || 'z' < s[i] ==> ascii_upper(s)[i] == s[i],
{
}

/// A list of texts has the contents of each entry, in order.
pub proof fn texts_entry_by_entry(list: Seq<String>, i: int)
    requires
        0 <= i < list.len(),
    ensures
        texts(list).len() == list.len(),
        texts(list)[i] == list[i]@,
{
}

} // verus!
