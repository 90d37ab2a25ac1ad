//! Hexadecimal color parsing.
//!
//! A hex color string is an optional leading `#` followed by 3, 4, 6 or 8
//! hexadecimal digits. The short forms duplicate each digit in place; a
//! missing alpha pair defaults to `FF` (fully opaque). [`parse_hex_spec`]
//! states the whole parse as a function of the character sequence, and
//! [`parse_hex_to_rgba`] is proved to return exactly that.

use vstd::prelude::*;

use crate::color::ColorParserError;
use crate::color::Rgba;

verus! {

/// Whether `c` is a hexadecimal digit, upper or lower case.
pub open spec fn is_hex_digit(c: char) -> bool {
    ('0' <= c && c <= '9') || ('a' <= c && c <= 'f') || ('A' <= c && c <= 'F')
}

/// The value of the hexadecimal digit `c` (0 for a non-digit).
pub open spec fn hex_digit_val(c: char) -> int {
    if '0' <= c && c <= '9' {
        c as u32 - '0' as u32
    } else if 'a' <= c && c <= 'f' {
        10 + c as u32 - 'a' as u32
    } else if 'A' <= c && c <= 'F' {
        10 + c as u32 - 'A' as u32
    } else {
        0
    }
}

/// Every character of `s` is a hexadecimal digit.
pub open spec fn all_hex_digits(s: Seq<char>) -> bool {
    forall|i: int| 0 <= i < s.len() ==> is_hex_digit(#[trigger] s[i])
}

/// `s` with at most one leading `#` removed.
pub open spec fn strip_hash(s: Seq<char>) -> Seq<char> {
    if s.len() > 0 && s[0] == '#' {
        s.skip(1)
    } else {
        s
    }
}

/// The lengths a stripped hex color string may have.
pub open spec fn valid_hex_len(n: nat) -> bool {
    n == 3 || n == 4 || n == 6 || n == 8
}

/// Each character of `s` doubled in place: `RGB` becomes `RRGGBB`.
pub open spec fn duplicated(s: Seq<char>) -> Seq<char> {
    Seq::new(2 * s.len(), |i: int| s[i / 2])
}

/// The 8-character `RRGGBBAA` form of a stripped string of valid length:
/// short forms have each digit doubled, and a missing alpha pair is `FF`.
pub open spec fn expanded(s: Seq<char>) -> Seq<char> {
    if s.len() == 8 {
        s
    } else if s.len() == 6 {
        s + seq!['F', 'F']
    } else if s.len() == 4 {
        duplicated(s)
    } else {
        duplicated(s) + seq!['F', 'F']
    }
}

/// The value of the `k`-th two-digit pair of `s`.
pub open spec fn pair_val(s: Seq<char>, k: int) -> int {
    16 * hex_digit_val(s[2 * k]) + hex_digit_val(s[2 * k + 1])
}

/// The RGBA value denoted by an 8-digit `RRGGBBAA` character sequence.
pub open spec fn rgba_of_hex(e: Seq<char>) -> Rgba {
    Rgba {
        red: pair_val(e, 0) as u8,
        green: pair_val(e, 1) as u8,
        blue: pair_val(e, 2) as u8,
        alpha: pair_val(e, 3) as u8,
    }
}

/// What parsing a hex color string returns: strip at most one leading `#`;
/// reject a length other than 3, 4, 6 or 8; reject a non-hex digit; otherwise
/// the RGBA value of the expanded 8-digit form.
pub open spec fn parse_hex_spec(s: Seq<char>) -> Result<Rgba, ColorParserError> {
    let t = strip_hash(s);
    if !valid_hex_len(t.len()) {
        Err(ColorParserError::InvalidLength)
    } else if !all_hex_digits(t) {
        Err(ColorParserError::InvalidCharacter)
    } else {
        Ok(rgba_of_hex(expanded(t)))
    }
}

/// `c` and `d` are the same character up to hex-digit case: either equal, or
/// both hex digits with the same value.
pub open spec fn same_hex_char(c: char, d: char) -> bool {
    c == d || (is_hex_digit(c) && is_hex_digit(d) && hex_digit_val(c) == hex_digit_val(d))
}

/// A six-digit hex string with a leading `#` parses successfully, and its
/// alpha channel defaults to 255 (fully opaque).
pub proof fn lemma_six_digits_default_alpha(s: Seq<char>)
    requires
        s.len() == 6,
        all_hex_digits(s),
    ensures
        parse_hex_spec(seq!['#'] + s) is Ok,
        parse_hex_spec(seq!['#'] + s)->Ok_0.alpha == 255,
{
    let u = seq!['#'] + s;
    assert(u[0] == '#');
    assert(strip_hash(u) =~= s);
    let e = expanded(s);
    assert(e[6] == 'F' && e[7] == 'F');
    assert(hex_digit_val('F') == 15);
    assert(pair_val(e, 3) == 255);
}

/// Shorthand expansion: a three-digit hex string parses exactly as the
/// six-digit string with each digit doubled, and its alpha defaults to 255.
pub proof fn lemma_shorthand_expansion(s: Seq<char>)
    requires
        s.len() == 3,
        all_hex_digits(s),
    ensures
        parse_hex_spec(s) == parse_hex_spec(duplicated(s)),
        parse_hex_spec(s) is Ok,
        parse_hex_spec(s)->Ok_0.alpha == 255,
{
    let d = duplicated(s);
    assert(is_hex_digit(s[0]) && s[0] != '#');
    assert(d[0] == s[0]);
    assert(strip_hash(s) =~= s);
    assert(strip_hash(d) =~= d);
    assert forall|i: int| 0 <= i < d.len() implies is_hex_digit(#[trigger] d[i]) by {
        assert(d[i] == s[i / 2]);
    }
    assert(expanded(s) =~= expanded(d));
    let e = expanded(s);
    assert(e[6] == 'F' && e[7] == 'F');
    assert(hex_digit_val('F') == 15);
    assert(pair_val(e, 3) == 255);
}

/// Parsing is case-insensitive: two strings whose characters agree up to
/// hex-digit case parse to the same result.
pub proof fn lemma_case_insensitive(s: Seq<char>, u: Seq<char>)
    requires
        s.len() == u.len(),
        forall|i: int| 0 <= i < s.len() ==> same_hex_char(#[trigger] s[i], #[trigger] u[i]),
    ensures
        parse_hex_spec(s) == parse_hex_spec(u),
{
    assert(!is_hex_digit('#'));
    let ts = strip_hash(s);
    let tu = strip_hash(u);
    if s.len() > 0 {
        assert(same_hex_char(s[0], u[0]));
        assert(s[0] == '#' <==> u[0] == '#');
    }
    assert(ts.len() == tu.len());
    assert forall|j: int| 0 <= j < ts.len() implies same_hex_char(
        #[trigger] ts[j],
        #[trigger] tu[j],
    ) by {
        if s.len() > 0 && s[0] == '#' {
            assert(ts[j] == s[j + 1] && tu[j] == u[j + 1]);
        }
    }
    assert forall|j: int| 0 <= j < ts.len() implies (is_hex_digit(#[trigger] ts[j])
        == is_hex_digit(#[trigger] tu[j]) && hex_digit_val(ts[j]) == hex_digit_val(tu[j])) by {
        assert(same_hex_char(ts[j], tu[j]));
    }
    if all_hex_digits(ts) {
        assert forall|j: int| 0 <= j < tu.len() implies is_hex_digit(#[trigger] tu[j]) by {
            assert(is_hex_digit(ts[j]));
        }
    }
    if all_hex_digits(tu) {
        assert forall|j: int| 0 <= j < ts.len() implies is_hex_digit(#[trigger] ts[j]) by {
            assert(is_hex_digit(tu[j]));
        }
    }
    assert(all_hex_digits(ts) == all_hex_digits(tu));
    if valid_hex_len(ts.len()) && all_hex_digits(ts) {
        let es = expanded(ts);
        let eu = expanded(tu);
        assert forall|i: int| 0 <= i < 8 implies hex_digit_val(#[trigger] es[i]) == hex_digit_val(
            #[trigger] eu[i],
        ) by {
            if ts.len() == 8 {
                assert(es[i] == ts[i] && eu[i] == tu[i]);
            } else if ts.len() == 6 {
                if i < 6 {
                    assert(es[i] == ts[i] && eu[i] == tu[i]);
                } else {
                    assert(es[i] == 'F' && eu[i] == 'F');
                }
            } else if ts.len() == 4 {
                assert(es[i] == ts[i / 2] && eu[i] == tu[i / 2]);
            } else {
                if i < 6 {
                    assert(es[i] == ts[i / 2] && eu[i] == tu[i / 2]);
                } else {
                    assert(es[i] == 'F' && eu[i] == 'F');
                }
            }
        }
        assert(pair_val(es, 0) == pair_val(eu, 0));
        assert(pair_val(es, 1) == pair_val(eu, 1));
        assert(pair_val(es, 2) == pair_val(eu, 2));
        assert(pair_val(es, 3) == pair_val(eu, 3));
        assert(rgba_of_hex(es) == rgba_of_hex(eu));
    }
}

/// The value of the hexadecimal digit `c`, or `None` for a non-digit.
fn hex_digit(c: char) -> (r: Option<u8>)
    ensures
        is_hex_digit(c) ==> r == Some(hex_digit_val(c) as u8),
        !is_hex_digit(c) ==> r is None,
        r is Some ==> hex_digit_val(c) < 16,
{
    if c >= '0' && c <= '9' {
        Some((c as u8) - 48)
    } else if c >= 'a' && c <= 'f' {
        Some((c as u8) - 97 + 10)
    } else if c >= 'A' && c <= 'F' {
        Some((c as u8) - 65 + 10)
    } else {
        None
    }
}

/// The value of the two-digit pair `(hi, lo)`, both known to be hex digits.
fn pair_value(hi: char, lo: char) -> (v: u8)
    requires
        is_hex_digit(hi),
        is_hex_digit(lo),
    ensures
        v == 16 * hex_digit_val(hi) + hex_digit_val(lo),
{
    let h = match hex_digit(hi) {
        Some(h) => h,
        None => 0,
    };
    let l = match hex_digit(lo) {
        Some(l) => l,
        None => 0,
    };
    16 * h + l
}

/// Parses a hexadecimal color string into an [`Rgba`] struct.
///
/// Accepts the following formats, each with or without the leading `#`:
/// - `#RRGGBB`
/// - `#RRGGBBAA`
/// - `#RGB`
/// - `#RGBA`
///
/// # Errors
/// Returns [`ColorParserError::InvalidLength`] if the string (after the
/// optional `#`) is not 3, 4, 6 or 8 characters long, and
/// [`ColorParserError::InvalidCharacter`] if any of those characters is not a
/// hexadecimal digit.
pub fn parse_hex_to_rgba(hex: &str) -> (res: Result<Rgba, ColorParserError>)
    ensures
        res == parse_hex_spec(hex@),
        res is Err && res->Err_0 is InvalidLength <==> !valid_hex_len(strip_hash(hex@).len()),
        res is Err && res->Err_0 is InvalidCharacter <==> valid_hex_len(strip_hash(hex@).len())
            && !all_hex_digits(strip_hash(hex@)),
        res is Ok <==> valid_hex_len(strip_hash(hex@).len()) && all_hex_digits(strip_hash(hex@)),
{
    let n = hex.unicode_len();
    let start: usize = if n > 0 && hex.get_char(0) == '#' {
        1
    } else {
        0
    };
    let ghost t = strip_hash(hex@);
    let m = n - start;
    assert(t =~= hex@.skip(start as int));
    assert(t.len() == m);

    if !(m == 3 || m == 4 || m == 6 || m == 8) {
        return Err(ColorParserError::InvalidLength);
    }

    // Reject any non-hex digit among the stripped characters.
    let mut i: usize = 0;
    while i < m
        invariant
            start + m == n,
            n == hex@.len(),
            t == hex@.skip(start as int),
            t == strip_hash(hex@),
            t.len() == m,
            m == 3 || m == 4 || m == 6 || m == 8,
            i <= m,
            forall|j: int| 0 <= j < i ==> is_hex_digit(#[trigger] t[j]),
        decreases m - i,
    {
        let c = hex.get_char(start + i);
        assert(c == t[i as int]);
        if hex_digit(c).is_none() {
            assert(!is_hex_digit(t[i as int]));
            assert(!all_hex_digits(t));
            return Err(ColorParserError::InvalidCharacter);
        }
        i += 1;
    }

    // Gather the characters of the expanded `RRGGBBAA` form.
    let (e0, e1, e2, e3, e4, e5, e6, e7): (char, char, char, char, char, char, char, char) =
        if m == 8 {
            (
                hex.get_char(start),
                hex.get_char(start + 1),
                hex.get_char(start + 2),
                hex.get_char(start + 3),
                hex.get_char(start + 4),
                hex.get_char(start + 5),
                hex.get_char(start + 6),
                hex.get_char(start + 7),
            )
        } else if m == 6 {
            (
                hex.get_char(start),
                hex.get_char(start + 1),
                hex.get_char(start + 2),
                hex.get_char(start + 3),
                hex.get_char(start + 4),
                hex.get_char(start + 5),
                'F',
                'F',
            )
        } else if m == 4 {
            let c0 = hex.get_char(start);
            let c1 = hex.get_char(start + 1);
            let c2 = hex.get_char(start + 2);
            let c3 = hex.get_char(start + 3);
            (c0, c0, c1, c1, c2, c2, c3, c3)
        } else {
            let c0 = hex.get_char(start);
            let c1 = hex.get_char(start + 1);
            let c2 = hex.get_char(start + 2);
            (c0, c0, c1, c1, c2, c2, 'F', 'F')
        };

    proof {
        let e = expanded(t);
        assert(e[0] == e0 && e[1] == e1 && e[2] == e2 && e[3] == e3 && e[4] == e4 && e[5] == e5
            && e[6] == e6 && e[7] == e7);
    }

    let red = pair_value(e0, e1);
    let green = pair_value(e2, e3);
    let blue = pair_value(e4, e5);
    let alpha = pair_value(e6, e7);

    Ok(Rgba { red, green, blue, alpha })
}

} // verus!
