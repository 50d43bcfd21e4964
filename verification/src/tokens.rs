//! Splitting a message into whitespace-separated tokens.
//!
//! A command message is read as: optional whitespace, the command keyword,
//! then optionally more whitespace and an argument token. Only the first two
//! tokens ever matter; anything after them is ignored.

use vstd::prelude::*;

verus! {

/// Whether `c` has the Unicode `White_Space` property, the separator that
/// tokenization splits on.
pub open spec fn is_space(c: char) -> bool {
    ||| c == '\u{0009}'
    ||| c == '\u{000A}'
    ||| c == '\u{000B}'
    ||| c == '\u{000C}'
    ||| c == '\u{000D}'
    ||| c == ' '
    ||| c == '\u{0085}'
    ||| c == '\u{00A0}'
    ||| c == '\u{1680}'
    ||| ('\u{2000}' <= c && c <= '\u{200A}')
    ||| c == '\u{2028}'
    ||| c == '\u{2029}'
    ||| c == '\u{202F}'
    ||| c == '\u{205F}'
    ||| c == '\u{3000}'
}

/// Decides `is_space`.
pub fn is_space_char(c: char) -> (r: bool)
    ensures
        r == is_space(c),
{
    c == '\u{0009}' || c == '\u{000A}' || c == '\u{000B}' || c == '\u{000C}' || c == '\u{000D}'
        || c == ' ' || c == '\u{0085}' || c == '\u{00A0}' || c == '\u{1680}'
        || ('\u{2000}' <= c && c <= '\u{200A}') || c == '\u{2028}' || c == '\u{2029}'
        || c == '\u{202F}' || c == '\u{205F}' || c == '\u{3000}'
}

/// The first index at or after `i` holding a non-space character, or the
/// length of `s` if there is none.
pub open spec fn skip_spaces(s: Seq<char>, i: int) -> int
    decreases s.len() - i,
{
    if i < 0 || i >= s.len() {
        s.len() as int
    } else if is_space(s[i]) {
        skip_spaces(s, i + 1)
    } else {
        i
    }
}

/// The first index at or after `i` holding a space, or the length of `s` if
/// there is none: the end of a token that starts at `i`.
pub open spec fn token_end(s: Seq<char>, i: int) -> int
    decreases s.len() - i,
{
    if i < 0 || i >= s.len() {
        s.len() as int
    } else if !is_space(s[i]) {
        token_end(s, i + 1)
    } else {
        i
    }
}

/// The first whitespace-separated token of `s` (empty if `s` is all
/// whitespace or empty).
pub open spec fn first_token(s: Seq<char>) -> Seq<char> {
    let a = skip_spaces(s, 0);
    s.subrange(a, token_end(s, a))
}

/// The second whitespace-separated token of `s` (empty if there is none).
pub open spec fn second_token(s: Seq<char>) -> Seq<char> {
    let a = skip_spaces(s, 0);
    let b = token_end(s, a);
    let c = skip_spaces(s, b);
    s.subrange(c, token_end(s, c))
}

/// Finds the first non-space index at or after `from`.
pub fn skip_spaces_exec(s: &str, from: usize) -> (r: usize)
    requires
        from <= s@.len(),
    ensures
        r == skip_spaces(s@, from as int),
        from <= r <= s@.len(),
{
    let len = s.unicode_len();
    let mut i = from;
    while i < len && is_space_char(s.get_char(i))
        invariant
            from <= i <= len,
            len == s@.len(),
            skip_spaces(s@, from as int) == skip_spaces(s@, i as int),
        decreases len - i,
    {
        i = i + 1;
    }
    i
}

/// Finds the end of the token that starts at `from`: the first space index
/// at or after `from`.
pub fn token_end_exec(s: &str, from: usize) -> (r: usize)
    requires
        from <= s@.len(),
    ensures
        r == token_end(s@, from as int),
        from <= r <= s@.len(),
{
    let len = s.unicode_len();
    let mut i = from;
    while i < len && !is_space_char(s.get_char(i))
        invariant
            from <= i <= len,
            len == s@.len(),
            token_end(s@, from as int) == token_end(s@, i as int),
        decreases len - i,
    {
        i = i + 1;
    }
    i
}

/// Compares two string slices character by character.
pub fn str_eq(a: &str, b: &str) -> (r: bool)
    ensures
        r == (a@ == b@),
{
    let alen = a.unicode_len();
    let blen = b.unicode_len();
    if alen != blen {
        return false;
    }
    let mut i: usize = 0;
    while i < alen
        invariant
            0 <= i <= alen,
            alen == a@.len(),
            alen == b@.len(),
            forall|j: int| 0 <= j < i ==> a@[j] == b@[j],
        decreases alen - i,
    {
        if a.get_char(i) != b.get_char(i) {
            return false;
        }
        i = i + 1;
    }
    proof {
        assert(a@ =~= b@);
    }
    true
}

} // verus!
