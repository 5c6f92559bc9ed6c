//! Case-insensitive string helpers: ASCII lowercasing, substring search,
//! and the truthiness predicate used for boolean-valued option flags.

use vstd::prelude::*;

verus! {

/// ASCII lowercasing of a single character: `'A'..='Z'` map to
/// `'a'..='z'`, every other character is unchanged.
pub open spec fn lower_char(c: char) -> char {
    if 'A' <= c && c <= 'Z' {
        ((c as u8) + 32) as char
    } else {
        c
    }
}

/// ASCII lowercasing of a character sequence, element by element.
pub open spec fn lower_seq(s: Seq<char>) -> Seq<char> {
    s.map_values(|c: char| lower_char(c))
}

/// Lowercase one character.
pub fn lower_char_exec(c: char) -> (r: char)
    ensures
        r == lower_char(c),
{
    if 'A' <= c && c <= 'Z' {
        ((c as u8) + 32) as char
    } else {
        c
    }
}

/// Build the ASCII-lowercased copy of a string.
pub fn ascii_lower(s: &str) -> (r: String)
    ensures
        r@ == lower_seq(s@),
{
    let n: usize = s.unicode_len();
    let mut chars: Vec<char> = Vec::new();
    let mut i: usize = 0;
    while i < n
        invariant
            n == s@.len(),
            0 <= i <= n,
            chars@ == lower_seq(s@).take(i as int),
        decreases n - i,
    {
        let c = s.get_char(i);
        chars.push(lower_char_exec(c));
        proof {
            assert(chars@ =~= lower_seq(s@).take(i + 1 as int));
        }
        i = i + 1;
    }
    proof {
        assert(chars@ =~= lower_seq(s@));
    }
    chars_to_string(&chars)
}

/// Relies on `String`'s `FromIterator` over characters: collecting a
/// sequence of characters yields the string made of exactly those
/// characters in order.
#[verifier::external_body]
fn chars_to_string(chars: &Vec<char>) -> (r: String)
    ensures
        r@ == chars@,
{
    chars.iter().collect()
}

/// `needle` occurs as a contiguous subsequence of `hay`.
pub open spec fn spec_contains(hay: Seq<char>, needle: Seq<char>) -> bool {
    exists|i: int|
        0 <= i && i + needle.len() <= hay.len() && #[trigger] hay.subrange(i, i + needle.len())
            == needle
}

/// Substring search: does `hay` contain `needle`?
pub fn contains_substr(hay: &str, needle: &str) -> (r: bool)
    ensures
        r == spec_contains(hay@, needle@),
{
    let h: usize = hay.unicode_len();
    let n: usize = needle.unicode_len();
    if n > h {
        return false;
    }
    if n == 0 {
        proof {
            assert(hay@.subrange(0, 0 + needle@.len() as int) =~= needle@);
        }
        return true;
    }
    let mut i: usize = 0;
    while i <= h - n
        invariant
            1 <= n <= h,
            h == hay@.len(),
            n == needle@.len(),
            0 <= i <= h - n + 1,
            forall|k: int| 0 <= k < i ==> #[trigger] hay@.subrange(k, k + n as int) != needle@,
        decreases h + 1 - n - i,
    {
        let mut j: usize = 0;
        let mut matching = true;
        while matching && j < n
            invariant
                0 <= j <= n,
                i + n <= h,
                h == hay@.len(),
                n == needle@.len(),
                matching ==> forall|t: int| 0 <= t < j ==> #[trigger] hay@[i + t] == needle@[t],
                !matching ==> hay@.subrange(i as int, i + n as int) != needle@,
            decreases n - j, (if matching { 1int } else { 0int }),
        {
            if hay.get_char(i + j) != needle.get_char(j) {
                proof {
                    assert(hay@.subrange(i as int, i + n as int)[j as int] == hay@[i + j]);
                }
                matching = false;
            } else {
                j = j + 1;
            }
        }
        if matching {
            proof {
                assert forall|t: int| 0 <= t < n as int implies hay@.subrange(
                    i as int,
                    i + n as int,
                )[t] == needle@[t] by {
                    assert(hay@[i + t] == needle@[t]);
                }
                assert(hay@.subrange(i as int, i + n as int) =~= needle@);
            }
            return true;
        }
        i = i + 1;
    }
    proof {
        assert forall|k: int|
            0 <= k && k + needle@.len() <= hay@.len() implies #[trigger] hay@.subrange(
            k,
            k + needle@.len(),
        ) != needle@ by {
            assert(k < i);
            assert(hay@.subrange(k, k + n as int) != needle@);
        }
    }
    false
}

/// Compare a string against a literal for exact (case-sensitive) equality.
pub fn str_eq(a: &str, b: &str) -> (r: bool)
    ensures
        r == (a@ == b@),
{
    a.to_owned() == b.to_owned()
}

/// The truthiness judgment for boolean-valued option flags: a value is
/// truthy exactly when, ignoring ASCII case, it is one of "1", "true",
/// "on", "yes" or "y".
pub open spec fn is_truthy(s: Seq<char>) -> bool {
    ||| lower_seq(s) == "1"@
    ||| lower_seq(s) == "true"@
    ||| lower_seq(s) == "on"@
    ||| lower_seq(s) == "yes"@
    ||| lower_seq(s) == "y"@
}

/// Judge a free-form string value as truthy or not.
pub fn str_is_truthy(val: &str) -> (r: bool)
    ensures
        r == is_truthy(val@),
{
    let l = ascii_lower(val);
    str_eq(l.as_str(), "1") || str_eq(l.as_str(), "true") || str_eq(l.as_str(), "on") || str_eq(
        l.as_str(),
        "yes",
    ) || str_eq(l.as_str(), "y")
}

} // verus!
