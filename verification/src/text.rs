//! Character-level scanning primitives shared by the header parser, the
//! element parser and the datetime grammar.
//!
//! Every executable function here mirrors a specification function over the
//! input's view, so the parsers built on top can state their results
//! exactly.  A cursor position is always explicit; nothing here keeps
//! state.

use vstd::prelude::*;

verus! {

/// Whitespace as the markup dialect understands it.
pub open spec fn is_ws_char(c: char) -> bool {
    c == ' ' || c == '\t' || c == '\r' || c == '\n'
}

/// Characters permitted inside a tag name: anything but the markup
/// delimiters and whitespace.
pub open spec fn is_name_char(c: char) -> bool {
    !(c == '<' || c == '>' || c == '/' || is_ws_char(c))
}

/// Decimal digits.
pub open spec fn is_digit_char(c: char) -> bool {
    48 <= (c as u32) && (c as u32) <= 57
}

/// The numeric value of a decimal digit.
pub open spec fn digit_val(c: char) -> int {
    (c as u32) - 48
}

/// First position at or after `pos` holding a non-whitespace character, or
/// the end of the input.
pub open spec fn skip_ws_spec(s: Seq<char>, pos: int) -> int
    decreases s.len() - pos,
{
    if 0 <= pos && pos < s.len() && is_ws_char(s[pos]) {
        skip_ws_spec(s, pos + 1)
    } else {
        pos
    }
}

/// What `skip_ws_spec` returns: a position within bounds, on a
/// non-whitespace character unless the input ended, with only whitespace
/// before it.
pub proof fn lemma_skip_ws_props(s: Seq<char>, pos: int)
    requires
        0 <= pos <= s.len(),
    ensures
        pos <= skip_ws_spec(s, pos) <= s.len(),
        skip_ws_spec(s, pos) < s.len() ==> !is_ws_char(s[skip_ws_spec(s, pos)]),
        forall|j: int| pos <= j < skip_ws_spec(s, pos) ==> is_ws_char(s[j]),
    decreases s.len() - pos,
{
    if pos < s.len() && is_ws_char(s[pos]) {
        lemma_skip_ws_props(s, pos + 1);
    }
}

/// First position at or after `pos` whose character is not a name
/// character, or the end of the input.
pub open spec fn name_end_spec(s: Seq<char>, pos: int) -> int
    decreases s.len() - pos,
{
    if 0 <= pos && pos < s.len() && is_name_char(s[pos]) {
        name_end_spec(s, pos + 1)
    } else {
        pos
    }
}


/// First position at or after `pos` whose character is not a digit, or the
/// end of the input.
pub open spec fn digit_end_spec(s: Seq<char>, pos: int) -> int
    decreases s.len() - pos,
{
    if 0 <= pos && pos < s.len() && is_digit_char(s[pos]) {
        digit_end_spec(s, pos + 1)
    } else {
        pos
    }
}

/// What `digit_end_spec` returns: the end of the run of digits starting at
/// `pos`.
pub proof fn lemma_digit_end_props(s: Seq<char>, pos: int)
    requires
        0 <= pos <= s.len(),
    ensures
        pos <= digit_end_spec(s, pos) <= s.len(),
        digit_end_spec(s, pos) < s.len() ==> !is_digit_char(s[digit_end_spec(s, pos)]),
        forall|j: int| pos <= j < digit_end_spec(s, pos) ==> is_digit_char(s[j]),
    decreases s.len() - pos,
{
    if pos < s.len() && is_digit_char(s[pos]) {
        lemma_digit_end_props(s, pos + 1);
    }
}

/// First position at or after `pos` holding `stop`, or the end of the
/// input.
pub open spec fn scan_to_spec(s: Seq<char>, pos: int, stop: char) -> int
    decreases s.len() - pos,
{
    if 0 <= pos && pos < s.len() && s[pos] != stop {
        scan_to_spec(s, pos + 1, stop)
    } else {
        pos
    }
}


/// Skips whitespace starting at `pos`.
pub fn skip_ws(s: &str, pos: usize) -> (r: usize)
    requires
        pos <= s@.len(),
    ensures
        r == skip_ws_spec(s@, pos as int),
        pos <= r <= s@.len(),
    decreases s@.len() - pos,
{
    let n = s.unicode_len();
    if pos < n {
        let c = s.get_char(pos);
        if c == ' ' || c == '\t' || c == '\r' || c == '\n' {
            return skip_ws(s, pos + 1);
        }
    }
    pos
}

/// Scans past name characters starting at `pos`.
pub fn name_end(s: &str, pos: usize) -> (r: usize)
    requires
        pos <= s@.len(),
    ensures
        r == name_end_spec(s@, pos as int),
        pos <= r <= s@.len(),
    decreases s@.len() - pos,
{
    let n = s.unicode_len();
    if pos < n {
        let c = s.get_char(pos);
        if !(c == '<' || c == '>' || c == '/' || c == ' ' || c == '\t' || c == '\r' || c == '\n') {
            return name_end(s, pos + 1);
        }
    }
    pos
}

/// Scans past digits starting at `pos`.
pub fn digit_end(s: &str, pos: usize) -> (r: usize)
    requires
        pos <= s@.len(),
    ensures
        r == digit_end_spec(s@, pos as int),
        pos <= r <= s@.len(),
    decreases s@.len() - pos,
{
    let n = s.unicode_len();
    if pos < n {
        let c = s.get_char(pos);
        let u = c as u32;
        if 48 <= u && u <= 57 {
            return digit_end(s, pos + 1);
        }
    }
    pos
}

/// Scans up to the next occurrence of `stop` starting at `pos`.
pub fn scan_to(s: &str, pos: usize, stop: char) -> (r: usize)
    requires
        pos <= s@.len(),
    ensures
        r == scan_to_spec(s@, pos as int, stop),
        pos <= r <= s@.len(),
    decreases s@.len() - pos,
{
    let n = s.unicode_len();
    if pos < n {
        let c = s.get_char(pos);
        if c != stop {
            return scan_to(s, pos + 1, stop);
        }
    }
    pos
}

/// All of the `n` characters starting at `pos` are digits.
pub open spec fn all_digits(s: Seq<char>, pos: int, n: int) -> bool {
    forall|i: int| pos <= i < pos + n ==> is_digit_char(s[i])
}

/// The number denoted by the `n` digits starting at `pos`, most significant
/// first.
pub open spec fn digits_val(s: Seq<char>, pos: int, n: int) -> int
    decreases n,
{
    if n <= 0 {
        0
    } else {
        digits_val(s, pos, n - 1) * 10 + digit_val(s[pos + n - 1])
    }
}

/// Ten to the `n`th power.
pub open spec fn pow10(n: nat) -> nat
    decreases n,
{
    if n == 0 {
        1
    } else {
        10 * pow10((n - 1) as nat)
    }
}

pub proof fn lemma_pow10_le(i: nat, j: nat)
    requires
        i <= j,
    ensures
        pow10(i) <= pow10(j),
    decreases j,
{
    if i < j {
        lemma_pow10_le(i, (j - 1) as nat);
    }
}

/// Reads exactly `n` digits starting at `pos` as an unsigned number.
/// Returns `None` as soon as one of those characters is not a digit.
pub fn parse_fixed_digits(s: &str, pos: usize, n: usize) -> (r: Option<u32>)
    requires
        pos + n <= s@.len(),
        n <= 9,
    ensures
        (r is Some) == all_digits(s@, pos as int, n as int),
        r matches Some(v) ==> v == digits_val(s@, pos as int, n as int) && v < pow10(n as nat),
{
    let total = s.unicode_len();
    let mut acc: u32 = 0;
    let mut i: usize = 0;
    while i < n
        invariant
            i <= n,
            n <= 9,
            total == s@.len(),
            pos + n <= s@.len(),
            acc == digits_val(s@, pos as int, i as int),
            acc < pow10(i as nat),
            all_digits(s@, pos as int, i as int),
        decreases n - i,
    {
        let c = s.get_char(pos + i);
        let u = c as u32;
        if u < 48 || u > 57 {
            proof {
                assert(!is_digit_char(s@[pos + i]));
            }
            return None;
        }
        proof {
            lemma_pow10_le(i as nat, 8);
            reveal_with_fuel(pow10, 10);
            assert(pow10(8) == 100000000nat);
        }
        acc = acc * 10 + (u - 48);
        i = i + 1;
    }
    Some(acc)
}

/// The unsigned number a whole token denotes: one to nine digits and
/// nothing else.  Longer runs of digits are rejected, which keeps every
/// accepted value well inside the 32-bit range.
pub open spec fn spec_u32_token(t: Seq<char>) -> Option<int> {
    if 1 <= t.len() <= 9 && all_digits(t, 0, t.len() as int) {
        Some(digits_val(t, 0, t.len() as int))
    } else {
        None
    }
}

/// Parses a whole token as an unsigned number.
pub fn parse_u32_token(s: &str) -> (r: Option<u32>)
    ensures
        match spec_u32_token(s@) {
            Some(v) => r matches Some(u) && u == v,
            None => r is None,
        },
        r matches Some(u) ==> u < 1000000000,
{
    let n = s.unicode_len();
    if n < 1 || n > 9 {
        return None;
    }
    let r = parse_fixed_digits(s, 0, n);
    proof {
        lemma_pow10_le(n as nat, 9);
        reveal_with_fuel(pow10, 10);
    }
    r
}

/// The signed number a whole token denotes: an optional sign followed by
/// one to nine digits.
pub open spec fn spec_i32_token(t: Seq<char>) -> Option<int> {
    if t.len() >= 1 && t[0] == '-' {
        match spec_u32_token(t.subrange(1, t.len() as int)) {
            Some(v) => Some(-v),
            None => None,
        }
    } else if t.len() >= 1 && t[0] == '+' {
        spec_u32_token(t.subrange(1, t.len() as int))
    } else {
        spec_u32_token(t)
    }
}

/// Parses a whole token as a signed number.
pub fn parse_i32_token(s: &str) -> (r: Option<i32>)
    ensures
        match spec_i32_token(s@) {
            Some(v) => r matches Some(u) && u == v,
            None => r is None,
        },
{
    let n = s.unicode_len();
    if n >= 1 {
        let c = s.get_char(0);
        if c == '-' || c == '+' {
            let rest = s.substring_char(1, n);
            let mag = parse_u32_token(rest);
            return match mag {
                Some(m) => {
                    if c == '-' {
                        Some(0i32 - (m as i32))
                    } else {
                        Some(m as i32)
                    }
                },
                None => None,
            };
        }
    }
    let mag = parse_u32_token(s);
    match mag {
        Some(m) => Some(m as i32),
        None => None,
    }
}

/// Character-wise equality of two string slices.
pub fn str_eq(a: &str, b: &str) -> (r: bool)
    ensures
        r == (a@ == b@),
{
    let na = a.unicode_len();
    let nb = b.unicode_len();
    if na != nb {
        return false;
    }
    let mut i: usize = 0;
    while i < na
        invariant
            i <= na,
            na == a@.len(),
            na == b@.len(),
            forall|j: int| 0 <= j < i ==> a@[j] == b@[j],
        decreases na - i,
    {
        if s_get(a, i) != s_get(b, i) {
            return false;
        }
        i = i + 1;
    }
    proof {
        assert(a@ =~= b@);
    }
    true
}

/// `get_char`, wrapped so call sites stay short.
fn s_get(s: &str, i: usize) -> (c: char)
    requires
        i < s@.len(),
    ensures
        c == s@[i as int],
{
    s.get_char(i)
}

/// Whether the text holds an escape sequence introducer.
pub open spec fn has_escape(t: Seq<char>) -> bool {
    exists|i: int| 0 <= i < t.len() && t[i] == '&'
}

/// Scans the whole slice for an escape sequence introducer.
pub fn contains_escape(s: &str) -> (r: bool)
    ensures
        r == has_escape(s@),
{
    let n = s.unicode_len();
    let mut i: usize = 0;
    while i < n
        invariant
            i <= n,
            n == s@.len(),
            forall|j: int| 0 <= j < i ==> s@[j] != '&',
        decreases n - i,
    {
        if s.get_char(i) == '&' {
            return true;
        }
        i = i + 1;
    }
    false
}

/// Decodes the escape sequences `&lt;`, `&gt;` and `&amp;` starting at
/// `pos`.  `None` means an introducer was not followed by a known
/// sequence.
pub open spec fn unescape_from(t: Seq<char>, pos: int) -> Option<Seq<char>>
    decreases t.len() - pos,
{
    if pos < 0 || pos >= t.len() {
        Some(Seq::empty())
    } else if t[pos] != '&' {
        match unescape_from(t, pos + 1) {
            Some(r) => Some(seq![t[pos]] + r),
            None => None,
        }
    } else if pos + 4 <= t.len() && t[pos + 1] == 'l' && t[pos + 2] == 't' && t[pos + 3] == ';' {
        match unescape_from(t, pos + 4) {
            Some(r) => Some(seq!['<'] + r),
            None => None,
        }
    } else if pos + 4 <= t.len() && t[pos + 1] == 'g' && t[pos + 2] == 't' && t[pos + 3] == ';' {
        match unescape_from(t, pos + 4) {
            Some(r) => Some(seq!['>'] + r),
            None => None,
        }
    } else if pos + 5 <= t.len() && t[pos + 1] == 'a' && t[pos + 2] == 'm' && t[pos + 3] == 'p'
        && t[pos + 4] == ';' {
        match unescape_from(t, pos + 5) {
            Some(r) => Some(seq!['&'] + r),
            None => None,
        }
    } else {
        None
    }
}

/// Decodes the escape sequences of a whole slice.
#[verifier::rlimit(100)]
pub fn unescape(s: &str) -> (r: Option<String>)
    ensures
        match unescape_from(s@, 0) {
            Some(u) => r matches Some(out) && out@ == u,
            None => r is None,
        },
{
    let n = s.unicode_len();
    let mut acc = String::new();
    let mut pos: usize = 0;
    proof {
        assert(acc@ + unescape_from(s@, 0).unwrap() =~= unescape_from(s@, 0).unwrap());
    }
    while pos < n
        invariant
            pos <= n,
            n == s@.len(),
            match unescape_from(s@, pos as int) {
                Some(rest) => unescape_from(s@, 0) matches Some(w) && w == acc@ + rest,
                None => unescape_from(s@, 0) is None,
            },
        decreases n - pos,
    {
        let ghost prev_acc = acc@;
        let c = s.get_char(pos);
        if c != '&' {
            let piece = s.substring_char(pos, pos + 1);
            acc.append(piece);
            proof {
                assert(piece@ =~= seq![c]);
                match unescape_from(s@, pos + 1) {
                        Some(r2) => {
                            assert(prev_acc + (seq![c] + r2) =~= acc@ + r2);
                        },
                        None => {},
                    }
            }
            pos = pos + 1;
        } else if n - pos >= 4 && s.get_char(pos + 1) == 'l' && s.get_char(pos + 2) == 't'
            && s.get_char(pos + 3) == ';' {
            acc.append("<");
            proof {
                reveal_strlit("<");
                assert(("<")@ =~= seq!['<']);
                match unescape_from(s@, pos + 4) {
                        Some(r2) => {
                            assert(prev_acc + (seq!['<'] + r2) =~= acc@ + r2);
                        },
                        None => {},
                    }
            }
            pos = pos + 4;
        } else if n - pos >= 4 && s.get_char(pos + 1) == 'g' && s.get_char(pos + 2) == 't'
            && s.get_char(pos + 3) == ';' {
            acc.append(">");
            proof {
                reveal_strlit(">");
                assert((">")@ =~= seq!['>']);
                match unescape_from(s@, pos + 4) {
                        Some(r2) => {
                            assert(prev_acc + (seq!['>'] + r2) =~= acc@ + r2);
                        },
                        None => {},
                    }
            }
            pos = pos + 4;
        } else if n - pos >= 5 && s.get_char(pos + 1) == 'a' && s.get_char(pos + 2) == 'm'
            && s.get_char(pos + 3) == 'p' && s.get_char(pos + 4) == ';' {
            acc.append("&");
            proof {
                reveal_strlit("&");
                assert(("&")@ =~= seq!['&']);
                match unescape_from(s@, pos + 5) {
                        Some(r2) => {
                            assert(prev_acc + (seq!['&'] + r2) =~= acc@ + r2);
                        },
                        None => {},
                    }
            }
            pos = pos + 5;
        } else {
            return None;
        }
    }
    Some(acc)
}

/// Last position at or before `e` such that everything from it to `e` is
/// whitespace, scanning from the right.
pub open spec fn trim_end_spec(t: Seq<char>, e: int) -> int
    decreases e,
{
    if 0 < e && e <= t.len() && is_ws_char(t[e - 1]) {
        trim_end_spec(t, e - 1)
    } else {
        e
    }
}


/// A non-whitespace character at `i` bounds the right trim from below.
pub proof fn lemma_trim_end_lower(t: Seq<char>, e: int, i: int)
    requires
        0 <= i < e <= t.len(),
        !is_ws_char(t[i]),
    ensures
        trim_end_spec(t, e) >= i + 1,
    decreases e,
{
    if 0 < e && is_ws_char(t[e - 1]) {
        lemma_trim_end_lower(t, e - 1, i);
    }
}

/// The text with leading and trailing whitespace removed.
pub open spec fn trim_spec(t: Seq<char>) -> Seq<char> {
    let a = skip_ws_spec(t, 0);
    if a >= t.len() {
        Seq::empty()
    } else {
        t.subrange(a, trim_end_spec(t, t.len() as int))
    }
}

/// Scans back over trailing whitespace, mirroring `trim_end_spec`.
fn trim_end(s: &str, e: usize) -> (r: usize)
    requires
        e <= s@.len(),
    ensures
        r == trim_end_spec(s@, e as int),
        r <= e,
    decreases e,
{
    if e > 0 {
        let c = s.get_char(e - 1);
        if c == ' ' || c == '\t' || c == '\r' || c == '\n' {
            return trim_end(s, e - 1);
        }
    }
    e
}

/// Copies the slice with leading and trailing whitespace removed.
pub fn trim_str(s: &str) -> (r: String)
    ensures
        r@ == trim_spec(s@),
{
    let n = s.unicode_len();
    let a = skip_ws(s, 0);
    if a >= n {
        return String::new();
    }
    let e = trim_end(s, n);
    proof {
        lemma_skip_ws_props(s@, 0);
        lemma_trim_end_lower(s@, n as int, a as int);
    }
    let piece = s.substring_char(a, e);
    String::from_str(piece)
}

} // verus!
