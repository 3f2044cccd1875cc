//! JSON syntax. The circuit input document is an arbitrary structured
//! document; the service only checks that it is well-formed JSON before
//! writing it to the blueprint directory. The grammar is given as spec
//! functions over the character sequence, each returning the position after
//! the phrase it recognises (or nothing); the executable checker is proved to
//! decide exactly that grammar.

use vstd::prelude::*;

verus! {

pub open spec fn is_ws(c: char) -> bool {
    c == ' ' || c == '\t' || c == '\n' || c == '\r'
}

pub open spec fn is_digit(c: char) -> bool {
    '0' <= c && c <= '9'
}

pub open spec fn is_hex(c: char) -> bool {
    is_digit(c) || ('a' <= c && c <= 'f') || ('A' <= c && c <= 'F')
}

/// A character that may stand unescaped inside a string literal.
pub open spec fn is_content(c: char) -> bool {
    c != '"' && c != '\\' && (c as u32) >= 32
}

/// A single-character escape that may follow a backslash.
pub open spec fn is_short_escape(c: char) -> bool {
    c == '"' || c == '\\' || c == '/' || c == 'b' || c == 'f' || c == 'n' || c == 'r' || c == 't'
}

/// The first position at or after `i` holding no whitespace.
pub open spec fn sp_ws(s: Seq<char>, i: int) -> int
    decreases s.len() - i,
{
    if 0 <= i < s.len() && is_ws(s[i]) {
        sp_ws(s, i + 1)
    } else {
        i
    }
}

/// The rest of a string literal, entered just past the opening quote:
/// content characters and escapes up to and including the closing quote.
/// Yields the position after that quote.
pub open spec fn sp_strbody(s: Seq<char>, i: int) -> Option<int>
    decreases s.len() - i,
{
    if !(0 <= i < s.len()) {
        None
    } else if s[i] == '"' {
        Some(i + 1)
    } else if s[i] == '\\' {
        if i + 2 <= s.len() && is_short_escape(s[i + 1]) {
            sp_strbody(s, i + 2)
        } else if i + 6 <= s.len() && s[i + 1] == 'u' && is_hex(s[i + 2]) && is_hex(s[i + 3])
            && is_hex(s[i + 4]) && is_hex(s[i + 5]) {
            sp_strbody(s, i + 6)
        } else {
            None
        }
    } else if is_content(s[i]) {
        sp_strbody(s, i + 1)
    } else {
        None
    }
}

/// A whole string literal starting at `i`.
pub open spec fn sp_string(s: Seq<char>, i: int) -> Option<int> {
    if 0 <= i < s.len() && s[i] == '"' {
        sp_strbody(s, i + 1)
    } else {
        None
    }
}

/// The first position at or after `i` holding no digit.
pub open spec fn sp_digits(s: Seq<char>, i: int) -> int
    decreases s.len() - i,
{
    if 0 <= i < s.len() && is_digit(s[i]) {
        sp_digits(s, i + 1)
    } else {
        i
    }
}

/// The integer part of a number: a lone zero, or a nonzero digit followed by
/// any digits.
pub open spec fn sp_int_part(s: Seq<char>, i: int) -> Option<int> {
    if 0 <= i < s.len() && s[i] == '0' {
        Some(i + 1)
    } else if 0 <= i < s.len() && '1' <= s[i] && s[i] <= '9' {
        Some(sp_digits(s, i + 1))
    } else {
        None
    }
}

/// An optional fraction at `i`: a dot with at least one digit, or nothing.
pub open spec fn sp_frac(s: Seq<char>, i: int) -> Option<int> {
    if 0 <= i < s.len() && s[i] == '.' {
        if i + 1 < s.len() && is_digit(s[i + 1]) {
            Some(sp_digits(s, i + 1))
        } else {
            None
        }
    } else {
        Some(i)
    }
}

/// An optional exponent at `i`: `e` or `E`, an optional sign, and at least
/// one digit; or nothing.
pub open spec fn sp_exp(s: Seq<char>, i: int) -> Option<int> {
    if 0 <= i < s.len() && (s[i] == 'e' || s[i] == 'E') {
        let j = if i + 1 < s.len() && (s[i + 1] == '+' || s[i + 1] == '-') {
            i + 2
        } else {
            i + 1
        };
        if 0 <= j < s.len() && is_digit(s[j]) {
            Some(sp_digits(s, j))
        } else {
            None
        }
    } else {
        Some(i)
    }
}

/// A number starting at `i`: optional minus, integer part, optional fraction
/// and exponent.
pub open spec fn sp_number(s: Seq<char>, i: int) -> Option<int> {
    let j = if 0 <= i < s.len() && s[i] == '-' {
        i + 1
    } else {
        i
    };
    match sp_int_part(s, j) {
        None => None,
        Some(k) => match sp_frac(s, k) {
            None => None,
            Some(m) => sp_exp(s, m),
        },
    }
}

/// A JSON value starting at `i`: a string, object, array, keyword or number.
///
/// The positions handed to the recursive phrases are guarded to move
/// strictly forward and stay within the text; the guards can never fail on
/// the positions the grammar actually produces, and the executable checker
/// mirrors them exactly.
pub open spec fn sp_value(s: Seq<char>, i: int) -> Option<int>
    decreases s.len() - i, 0int,
{
    if !(0 <= i < s.len()) {
        None
    } else if s[i] == '"' {
        sp_string(s, i)
    } else if s[i] == '{' {
        let j = sp_ws(s, i + 1);
        if !(i < j <= s.len()) {
            None
        } else if j < s.len() && s[j] == '}' {
            Some(j + 1)
        } else {
            sp_members(s, j)
        }
    } else if s[i] == '[' {
        let j = sp_ws(s, i + 1);
        if !(i < j <= s.len()) {
            None
        } else if j < s.len() && s[j] == ']' {
            Some(j + 1)
        } else {
            sp_elements(s, j)
        }
    } else if s[i] == 't' {
        if i + 4 <= s.len() && s[i + 1] == 'r' && s[i + 2] == 'u' && s[i + 3] == 'e' {
            Some(i + 4)
        } else {
            None
        }
    } else if s[i] == 'f' {
        if i + 5 <= s.len() && s[i + 1] == 'a' && s[i + 2] == 'l' && s[i + 3] == 's' && s[i + 4]
            == 'e' {
            Some(i + 5)
        } else {
            None
        }
    } else if s[i] == 'n' {
        if i + 4 <= s.len() && s[i + 1] == 'u' && s[i + 2] == 'l' && s[i + 3] == 'l' {
            Some(i + 4)
        } else {
            None
        }
    } else {
        sp_number(s, i)
    }
}

/// One or more array elements starting at `i` (the position of the first
/// element), up to and including the closing bracket.
pub open spec fn sp_elements(s: Seq<char>, i: int) -> Option<int>
    decreases s.len() - i, 1int,
{
    match sp_value(s, i) {
        None => None,
        Some(k) => {
            if !(i < k <= s.len()) {
                None
            } else {
                let j = sp_ws(s, k);
                if !(k <= j <= s.len()) {
                    None
                } else if j < s.len() && s[j] == ',' {
                    let m = sp_ws(s, j + 1);
                    if !(j < m <= s.len()) {
                        None
                    } else {
                        sp_elements(s, m)
                    }
                } else if j < s.len() && s[j] == ']' {
                    Some(j + 1)
                } else {
                    None
                }
            }
        },
    }
}

/// One or more object members starting at `i` (the position of the first
/// key), up to and including the closing brace.
pub open spec fn sp_members(s: Seq<char>, i: int) -> Option<int>
    decreases s.len() - i, 1int,
{
    match sp_string(s, i) {
        None => None,
        Some(k) => {
            if !(i < k <= s.len()) {
                None
            } else {
                let j = sp_ws(s, k);
                if !(k <= j <= s.len()) {
                    None
                } else if j < s.len() && s[j] == ':' {
                    let m = sp_ws(s, j + 1);
                    if !(j < m <= s.len()) {
                        None
                    } else {
                        match sp_value(s, m) {
                            None => None,
                            Some(v) => {
                                if !(m < v <= s.len()) {
                                    None
                                } else {
                                    let w = sp_ws(s, v);
                                    if !(v <= w <= s.len()) {
                                        None
                                    } else if w < s.len() && s[w] == ',' {
                                        let n = sp_ws(s, w + 1);
                                        if !(w < n <= s.len()) {
                                            None
                                        } else {
                                            sp_members(s, n)
                                        }
                                    } else if w < s.len() && s[w] == '}' {
                                        Some(w + 1)
                                    } else {
                                        None
                                    }
                                }
                            },
                        }
                    }
                } else {
                    None
                }
            }
        },
    }
}

/// A well-formed JSON text: one value, surrounded by whitespace, spanning
/// the whole input.
pub open spec fn json_text_ok_spec(s: Seq<char>) -> bool {
    let j = sp_ws(s, 0);
    match sp_value(s, j) {
        None => false,
        Some(k) => sp_ws(s, k) == s.len(),
    }
}

pub(crate) fn ws_from(s: &str, n: usize, i: usize) -> (r: usize)
    requires
        n == s@.len(),
        i <= n,
    ensures
        r == sp_ws(s@, i as int),
        i <= r <= n,
{
    let mut cur = i;
    loop
        invariant
            n == s@.len(),
            i <= cur <= n,
            sp_ws(s@, i as int) == sp_ws(s@, cur as int),
        decreases n - cur,
    {
        if cur < n {
            let c = s.get_char(cur);
            if c == ' ' || c == '\t' || c == '\n' || c == '\r' {
                cur = cur + 1;
                continue ;
            }
        }
        return cur;
    }
}

pub(crate) fn strbody_from(s: &str, n: usize, i: usize) -> (r: Option<usize>)
    requires
        n == s@.len(),
        i <= n,
    ensures
        match r {
            Some(k) => sp_strbody(s@, i as int) == Some(k as int) && i < k <= n,
            None => sp_strbody(s@, i as int) is None,
        },
{
    let mut cur = i;
    loop
        invariant
            n == s@.len(),
            i <= cur <= n,
            sp_strbody(s@, i as int) == sp_strbody(s@, cur as int),
        decreases n - cur,
    {
        if cur >= n {
            return None;
        }
        let c = s.get_char(cur);
        if c == '"' {
            return Some(cur + 1);
        } else if c == '\\' {
            if n - cur >= 2 {
                let e = s.get_char(cur + 1);
                if e == '"' || e == '\\' || e == '/' || e == 'b' || e == 'f' || e == 'n' || e == 'r'
                    || e == 't' {
                    cur = cur + 2;
                    continue ;
                }
                if e == 'u' && n - cur >= 6 && is_hex_exec(s.get_char(cur + 2)) && is_hex_exec(
                    s.get_char(cur + 3),
                ) && is_hex_exec(s.get_char(cur + 4)) && is_hex_exec(s.get_char(cur + 5)) {
                    cur = cur + 6;
                    continue ;
                }
            }
            return None;
        } else if c != '"' && c != '\\' && (c as u32) >= 32 {
            cur = cur + 1;
        } else {
            return None;
        }
    }
}

fn is_hex_exec(c: char) -> (r: bool)
    ensures
        r == is_hex(c),
{
    ('0' <= c && c <= '9') || ('a' <= c && c <= 'f') || ('A' <= c && c <= 'F')
}

fn digits_from(s: &str, n: usize, i: usize) -> (r: usize)
    requires
        n == s@.len(),
        i <= n,
    ensures
        r == sp_digits(s@, i as int),
        i <= r <= n,
{
    let mut cur = i;
    loop
        invariant
            n == s@.len(),
            i <= cur <= n,
            sp_digits(s@, i as int) == sp_digits(s@, cur as int),
        decreases n - cur,
    {
        if cur < n {
            let c = s.get_char(cur);
            if '0' <= c && c <= '9' {
                cur = cur + 1;
                continue ;
            }
        }
        return cur;
    }
}

fn number_from(s: &str, n: usize, i: usize) -> (r: Option<usize>)
    requires
        n == s@.len(),
        i <= n,
    ensures
        match r {
            Some(k) => sp_number(s@, i as int) == Some(k as int) && i < k <= n,
            None => sp_number(s@, i as int) is None,
        },
{
    let j = if i < n && s.get_char(i) == '-' {
        i + 1
    } else {
        i
    };
    let k: usize;
    if j < n && s.get_char(j) == '0' {
        k = j + 1;
    } else if j < n && {
        let c = s.get_char(j);
        '1' <= c && c <= '9'
    } {
        k = digits_from(s, n, j + 1);
    } else {
        return None;
    }
    let m: usize;
    if k < n && s.get_char(k) == '.' {
        if k + 1 < n && {
            let c = s.get_char(k + 1);
            '0' <= c && c <= '9'
        } {
            m = digits_from(s, n, k + 1);
        } else {
            return None;
        }
    } else {
        m = k;
    }
    if m < n && {
        let c = s.get_char(m);
        c == 'e' || c == 'E'
    } {
        let j2 = if m + 1 < n && {
            let c = s.get_char(m + 1);
            c == '+' || c == '-'
        } {
            m + 2
        } else {
            m + 1
        };
        if j2 < n && {
            let c = s.get_char(j2);
            '0' <= c && c <= '9'
        } {
            Some(digits_from(s, n, j2))
        } else {
            None
        }
    } else {
        Some(m)
    }
}

fn value_from(s: &str, n: usize, i: usize) -> (r: Option<usize>)
    requires
        n == s@.len(),
        i <= n,
    ensures
        match r {
            Some(k) => sp_value(s@, i as int) == Some(k as int) && i < k <= n,
            None => sp_value(s@, i as int) is None,
        },
    decreases n - i, 0int,
{
    if i >= n {
        return None;
    }
    let c = s.get_char(i);
    if c == '"' {
        strbody_from(s, n, i + 1)
    } else if c == '{' {
        let j = ws_from(s, n, i + 1);
        if j < n && s.get_char(j) == '}' {
            Some(j + 1)
        } else {
            members_from(s, n, j)
        }
    } else if c == '[' {
        let j = ws_from(s, n, i + 1);
        if j < n && s.get_char(j) == ']' {
            Some(j + 1)
        } else {
            elements_from(s, n, j)
        }
    } else if c == 't' {
        if n - i >= 4 && s.get_char(i + 1) == 'r' && s.get_char(i + 2) == 'u' && s.get_char(i + 3)
            == 'e' {
            Some(i + 4)
        } else {
            None
        }
    } else if c == 'f' {
        if n - i >= 5 && s.get_char(i + 1) == 'a' && s.get_char(i + 2) == 'l' && s.get_char(i + 3)
            == 's' && s.get_char(i + 4) == 'e' {
            Some(i + 5)
        } else {
            None
        }
    } else if c == 'n' {
        if n - i >= 4 && s.get_char(i + 1) == 'u' && s.get_char(i + 2) == 'l' && s.get_char(i + 3)
            == 'l' {
            Some(i + 4)
        } else {
            None
        }
    } else {
        number_from(s, n, i)
    }
}

fn elements_from(s: &str, n: usize, i: usize) -> (r: Option<usize>)
    requires
        n == s@.len(),
        i <= n,
    ensures
        match r {
            Some(k) => sp_elements(s@, i as int) == Some(k as int) && i < k <= n,
            None => sp_elements(s@, i as int) is None,
        },
    decreases n - i, 1int,
{
    let mut cur = i;
    loop
        invariant
            n == s@.len(),
            i <= cur <= n,
            sp_elements(s@, i as int) == sp_elements(s@, cur as int),
        decreases n - cur,
    {
        let v = value_from(s, n, cur);
        match v {
            None => {
                return None;
            },
            Some(k) => {
                let j = ws_from(s, n, k);
                if j < n && s.get_char(j) == ',' {
                    let m = ws_from(s, n, j + 1);
                    cur = m;
                } else if j < n && s.get_char(j) == ']' {
                    return Some(j + 1);
                } else {
                    return None;
                }
            },
        }
    }
}

fn members_from(s: &str, n: usize, i: usize) -> (r: Option<usize>)
    requires
        n == s@.len(),
        i <= n,
    ensures
        match r {
            Some(k) => sp_members(s@, i as int) == Some(k as int) && i < k <= n,
            None => sp_members(s@, i as int) is None,
        },
    decreases n - i, 1int,
{
    let mut cur = i;
    loop
        invariant
            n == s@.len(),
            i <= cur <= n,
            sp_members(s@, i as int) == sp_members(s@, cur as int),
        decreases n - cur,
    {
        if !(cur < n && s.get_char(cur) == '"') {
            return None;
        }
        let k = match strbody_from(s, n, cur + 1) {
            None => {
                return None;
            },
            Some(k) => k,
        };
        let j = ws_from(s, n, k);
        if !(j < n && s.get_char(j) == ':') {
            return None;
        }
        let m = ws_from(s, n, j + 1);
        let v = match value_from(s, n, m) {
            None => {
                return None;
            },
            Some(v) => v,
        };
        let w = ws_from(s, n, v);
        if w < n && s.get_char(w) == ',' {
            let nn = ws_from(s, n, w + 1);
            cur = nn;
        } else if w < n && s.get_char(w) == '}' {
            return Some(w + 1);
        } else {
            return None;
        }
    }
}

/// A text that may stand, as it is, between the quotes of a string literal:
/// content characters and complete escape sequences.
pub open spec fn content_ok(c: Seq<char>) -> bool
    decreases c.len(),
{
    if c.len() == 0 {
        true
    } else if c[0] == '\\' {
        if c.len() >= 2 && is_short_escape(c[1]) {
            content_ok(c.skip(2))
        } else if c.len() >= 6 && c[1] == 'u' && is_hex(c[2]) && is_hex(c[3]) && is_hex(c[4])
            && is_hex(c[5]) {
            content_ok(c.skip(6))
        } else {
            false
        }
    } else if is_content(c[0]) {
        content_ok(c.skip(1))
    } else {
        false
    }
}

/// Scanning a string literal whose content is well-formed consumes exactly
/// that content and the closing quote.
pub proof fn lemma_strbody_content(s: Seq<char>, i: int, c: Seq<char>)
    requires
        content_ok(c),
        0 <= i,
        i + c.len() + 1 <= s.len(),
        forall|k: int| 0 <= k < c.len() ==> s[i + k] == c[k],
        s[i + c.len()] == '"',
    ensures
        sp_strbody(s, i) == Some(i + c.len() + 1),
    decreases c.len(),
{
    if c.len() == 0 {
        assert(s[i] == '"');
    } else if c[0] == '\\' {
        assert(s[i] == '\\');
        if c.len() >= 2 && is_short_escape(c[1]) {
            assert(s[i + 1] == c[1]);
            let c2 = c.skip(2);
            assert forall|k: int| 0 <= k < c2.len() implies s[i + 2 + k] == c2[k] by {
                assert(c2[k] == c[k + 2]);
            }
            assert(s[i + 2 + c2.len()] == '"');
            lemma_strbody_content(s, i + 2, c2);
        } else {
            assert(c.len() >= 6 && c[1] == 'u');
            assert(s[i + 1] == 'u');
            assert(s[i + 2] == c[2] && s[i + 3] == c[3] && s[i + 4] == c[4] && s[i + 5] == c[5]);
            let c6 = c.skip(6);
            assert forall|k: int| 0 <= k < c6.len() implies s[i + 6 + k] == c6[k] by {
                assert(c6[k] == c[k + 6]);
            }
            assert(s[i + 6 + c6.len()] == '"');
            lemma_strbody_content(s, i + 6, c6);
        }
    } else {
        assert(is_content(c[0]));
        assert(s[i] == c[0]);
        let c1 = c.skip(1);
        assert forall|k: int| 0 <= k < c1.len() implies s[i + 1 + k] == c1[k] by {
            assert(c1[k] == c[k + 1]);
        }
        assert(s[i + 1 + c1.len()] == '"');
        lemma_strbody_content(s, i + 1, c1);
    }
}

/// Decides whether a text is well-formed JSON: exactly one value, with any
/// surrounding whitespace, spanning the whole text.
pub fn json_text_ok(s: &str) -> (r: bool)
    ensures
        r == json_text_ok_spec(s@),
{
    let n = s.unicode_len();
    let j = ws_from(s, n, 0);
    match value_from(s, n, j) {
        None => false,
        Some(k) => {
            let e = ws_from(s, n, k);
            e == n
        },
    }
}

} // verus!
