//! Parsing of `#RRGGBB` color strings into RGB triples, with a defensive
//! fallback to black on any malformed input.
use vstd::prelude::*;

verus! {

/// A character that is a hexadecimal digit, in either case.
pub open spec fn is_hex_digit(c: char) -> bool {
    ('0' as u32 <= c as u32 && c as u32 <= '9' as u32) || ('a' as u32 <= c as u32 && c as u32
        <= 'f' as u32) || ('A' as u32 <= c as u32 && c as u32 <= 'F' as u32)
}

/// Numeric value of a hexadecimal digit (0 for a non-digit).
pub open spec fn hex_digit_value(c: char) -> nat {
    if '0' as u32 <= c as u32 && c as u32 <= '9' as u32 {
        (c as u32 - '0' as u32) as nat
    } else if 'a' as u32 <= c as u32 && c as u32 <= 'f' as u32 {
        (c as u32 - 'a' as u32 + 10) as nat
    } else if 'A' as u32 <= c as u32 && c as u32 <= 'F' as u32 {
        (c as u32 - 'A' as u32 + 10) as nat
    } else {
        0
    }
}

/// Value of a two-digit hexadecimal pair, high digit first.
pub open spec fn hex_pair_value(hi: char, lo: char) -> u8 {
    (hex_digit_value(hi) * 16 + hex_digit_value(lo)) as u8
}

/// The string with every leading `'#'` removed.
pub open spec fn strip_leading_hashes(s: Seq<char>) -> Seq<char>
    decreases s.len(),
{
    if s.len() > 0 && s[0] == '#' {
        strip_leading_hashes(s.skip(1))
    } else {
        s
    }
}

/// The color a string resolves to: if, after removing every leading `'#'`,
/// exactly six hexadecimal digits remain, they are read as `RRGGBB`; any
/// other input falls back to black `(0, 0, 0)`.
pub open spec fn resolved_color(s: Seq<char>) -> (u8, u8, u8) {
    let h = strip_leading_hashes(s);
    if h.len() == 6 && (forall|i: int| 0 <= i < 6 ==> is_hex_digit(#[trigger] h[i])) {
        (hex_pair_value(h[0], h[1]), hex_pair_value(h[2], h[3]), hex_pair_value(h[4], h[5]))
    } else {
        (0, 0, 0)
    }
}

/// Any string that does not leave exactly six hexadecimal digits after the
/// leading `'#'` characters are removed resolves to black.
pub proof fn lemma_color_fallback(s: Seq<char>)
    requires
        !(strip_leading_hashes(s).len() == 6 && (forall|i: int|
            0 <= i < 6 ==> is_hex_digit(#[trigger] strip_leading_hashes(s)[i]))),
    ensures
        resolved_color(s) == (0u8, 0u8, 0u8),
{
}

proof fn lemma_strip_at(s: Seq<char>, k: int)
    requires
        0 <= k <= s.len(),
        forall|j: int| 0 <= j < k ==> s[j] == '#',
        k == s.len() || s[k] != '#',
    ensures
        strip_leading_hashes(s) == s.skip(k),
    decreases k,
{
    if k == 0 {
        assert(s.skip(0) =~= s);
    } else {
        assert(s[0] == '#');
        let t = s.skip(1);
        assert forall|j: int| 0 <= j < k - 1 implies t[j] == '#' by {
            assert(t[j] == s[j + 1]);
        }
        lemma_strip_at(t, k - 1);
        assert(t.skip(k - 1) =~= s.skip(k));
    }
}

/// Numeric value of one hexadecimal digit character, or `None` for any
/// other character.
fn hex_digit(c: char) -> (r: Option<u8>)
    ensures
        r is Some <==> is_hex_digit(c),
        r is Some ==> r->Some_0 == hex_digit_value(c) && r->Some_0 <= 15,
{
    let u = c as u32;
    if 48 <= u && u <= 57 {
        Some((u - 48) as u8)
    } else if 97 <= u && u <= 102 {
        Some((u - 97 + 10) as u8)
    } else if 65 <= u && u <= 70 {
        Some((u - 65 + 10) as u8)
    } else {
        None
    }
}

/// Resolve a user-supplied color string such as `"#FF00FF"` to an RGB
/// triple. Leading `'#'` characters are stripped; the remainder must be
/// exactly six hexadecimal digits, else the result falls back to black.
pub fn parse_color(color_str: &str) -> (rgb: (u8, u8, u8))
    ensures
        rgb == resolved_color(color_str@),
{
    let n = color_str.unicode_len();
    let mut start: usize = 0;
    while start < n && color_str.get_char(start) == '#'
        invariant
            start <= n,
            n == color_str@.len(),
            forall|j: int| 0 <= j < start ==> color_str@[j] == '#',
        decreases n - start,
    {
        start += 1;
    }
    proof {
        lemma_strip_at(color_str@, start as int);
    }
    let ghost h = strip_leading_hashes(color_str@);
    if n - start != 6 {
        return (0, 0, 0);
    }
    let d0 = hex_digit(color_str.get_char(start));
    let d1 = hex_digit(color_str.get_char(start + 1));
    let d2 = hex_digit(color_str.get_char(start + 2));
    let d3 = hex_digit(color_str.get_char(start + 3));
    let d4 = hex_digit(color_str.get_char(start + 4));
    let d5 = hex_digit(color_str.get_char(start + 5));
    match (d0, d1, d2, d3, d4, d5) {
        (Some(v0), Some(v1), Some(v2), Some(v3), Some(v4), Some(v5)) => {
            assert(forall|i: int| 0 <= i < 6 ==> is_hex_digit(#[trigger] h[i])) by {
                assert(h[0] == color_str@[start as int]);
                assert(h[1] == color_str@[start + 1]);
                assert(h[2] == color_str@[start + 2]);
                assert(h[3] == color_str@[start + 3]);
                assert(h[4] == color_str@[start + 4]);
                assert(h[5] == color_str@[start + 5]);
            }
            (v0 * 16 + v1, v2 * 16 + v3, v4 * 16 + v5)
        },
        _ => {
            (0, 0, 0)
        },
    }
}

} // verus!
