use vstd::prelude::*;

verus! {

use vstd::utf8::is_ascii_chars;

/// The lowercase form of one ASCII character: 'A'..='Z' map to 'a'..='z',
/// every other character is unchanged.
pub open spec fn ascii_lower_char(c: char) -> char {
    if 'A' <= c && c <= 'Z' {
        ((c as u32) + 32) as char
    } else {
        c
    }
}

/// The uppercase form of one ASCII character: 'a'..='z' map to 'A'..='Z',
/// every other character is unchanged.
pub open spec fn ascii_upper_char(c: char) -> char {
    if 'a' <= c && c <= 'z' {
        ((c as u32) - 32) as char
    } else {
        c
    }
}

/// Character-wise ASCII lowercasing of a character sequence.
pub open spec fn ascii_lower(s: Seq<char>) -> Seq<char> {
    s.map_values(|c: char| ascii_lower_char(c))
}

/// Character-wise ASCII uppercasing of a character sequence.
pub open spec fn ascii_upper(s: Seq<char>) -> Seq<char> {
    s.map_values(|c: char| ascii_upper_char(c))
}

/// What `str::to_lowercase` returns: a function of the input characters alone.
pub uninterp spec fn lower_of(s: Seq<char>) -> Seq<char>;

/// What `str::to_uppercase` returns: a function of the input characters alone.
pub uninterp spec fn upper_of(s: Seq<char>) -> Seq<char>;

/// Relies on `str::to_lowercase`: the result is the Unicode lowercase mapping
/// of the input, a function of the input characters alone; on ASCII
/// characters the Unicode mapping takes 'A'..='Z' to 'a'..='z' and leaves
/// every other character unchanged.
#[verifier::external_body]
pub(crate) fn to_lowercase_str(s: &str) -> (r: String)
    ensures
        r@ == lower_of(s@),
        is_ascii_chars(s@) ==> r@ == ascii_lower(s@),
{
    s.to_lowercase()
}

/// Relies on `str::to_uppercase`: the result is the Unicode uppercase mapping
/// of the input, a function of the input characters alone; on ASCII
/// characters the Unicode mapping takes 'a'..='z' to 'A'..='Z' and leaves
/// every other character unchanged.
#[verifier::external_body]
pub(crate) fn to_uppercase_str(s: &str) -> (r: String)
    ensures
        r@ == upper_of(s@),
        is_ascii_chars(s@) ==> r@ == ascii_upper(s@),
{
    s.to_uppercase()
}

/// Whether two strings hold the same characters.
pub fn str_eq(a: &str, b: &str) -> (r: bool)
    ensures
        r == (a@ == b@),
{
    let x = a.to_owned();
    let y = b.to_owned();
    x == y
}

/// ASCII lowercasing is idempotent: once lowered, a second pass changes
/// nothing.
pub proof fn lemma_ascii_lower_idempotent(s: Seq<char>)
    ensures
        ascii_lower(ascii_lower(s)) == ascii_lower(s),
{
    assert forall|i: int| 0 <= i < s.len() implies ascii_lower_char(ascii_lower_char(s[i]))
        == ascii_lower_char(s[i]) by {}
    assert(ascii_lower(ascii_lower(s)) =~= ascii_lower(s));
}

/// ASCII uppercasing is idempotent: once raised, a second pass changes
/// nothing.
pub proof fn lemma_ascii_upper_idempotent(s: Seq<char>)
    ensures
        ascii_upper(ascii_upper(s)) == ascii_upper(s),
{
    assert forall|i: int| 0 <= i < s.len() implies ascii_upper_char(ascii_upper_char(s[i]))
        == ascii_upper_char(s[i]) by {}
    assert(ascii_upper(ascii_upper(s)) =~= ascii_upper(s));
}

/// ASCII case folding maps letters to letters: a character that is neither
/// kind of letter, such as '.' or '/', is never produced from a different
/// character.
pub proof fn lemma_ascii_fold_keeps_char(s: Seq<char>, c: char)
    requires
        !('a' <= c <= 'z'),
        !('A' <= c <= 'Z'),
        forall|i: int| 0 <= i < s.len() ==> s[i] != c,
    ensures
        forall|i: int| 0 <= i < ascii_lower(s).len() ==> ascii_lower(s)[i] != c,
        forall|i: int| 0 <= i < ascii_upper(s).len() ==> ascii_upper(s)[i] != c,
{
    assert forall|i: int| 0 <= i < ascii_lower(s).len() implies ascii_lower(s)[i] != c by {
        assert(ascii_lower(s)[i] == ascii_lower_char(s[i]));
    }
    assert forall|i: int| 0 <= i < ascii_upper(s).len() implies ascii_upper(s)[i] != c by {
        assert(ascii_upper(s)[i] == ascii_upper_char(s[i]));
    }
}

/// ASCII case folding keeps a sequence ASCII.
pub proof fn lemma_ascii_fold_stays_ascii(s: Seq<char>)
    requires
        is_ascii_chars(s),
    ensures
        is_ascii_chars(ascii_lower(s)),
        is_ascii_chars(ascii_upper(s)),
{
    assert forall|i: int| 0 <= i < ascii_lower(s).len() implies '\0' <= #[trigger] ascii_lower(
        s,
    )[i] <= '\u{7f}' by {
        assert(ascii_lower(s)[i] == ascii_lower_char(s[i]));
        assert('\0' <= s[i] <= '\u{7f}');
    }
    assert forall|i: int| 0 <= i < ascii_upper(s).len() implies '\0' <= #[trigger] ascii_upper(
        s,
    )[i] <= '\u{7f}' by {
        assert(ascii_upper(s)[i] == ascii_upper_char(s[i]));
        assert('\0' <= s[i] <= '\u{7f}');
    }
}

} // verus!
