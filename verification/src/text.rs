//! Verified text helpers: decimal rendering and parsing, character-bounded
//! truncation, and URL joining.

use vstd::prelude::*;

verus! {

/// The character for one decimal digit value.
pub open spec fn digit_char(d: int) -> char {
    if d == 0 {
        '0'
    } else if d == 1 {
        '1'
    } else if d == 2 {
        '2'
    } else if d == 3 {
        '3'
    } else if d == 4 {
        '4'
    } else if d == 5 {
        '5'
    } else if d == 6 {
        '6'
    } else if d == 7 {
        '7'
    } else if d == 8 {
        '8'
    } else {
        '9'
    }
}

/// Decimal spelling of a non-negative integer, most significant digit first.
pub open spec fn dec_str(n: int) -> Seq<char>
    decreases n,
{
    if n < 10 {
        seq![digit_char(n)]
    } else {
        dec_str(n / 10) + seq![digit_char(n % 10)]
    }
}

/// One-character string for a decimal digit.
fn digit_to_str(d: u64) -> (r: &'static str)
    requires
        d < 10,
    ensures
        r@ == seq![digit_char(d as int)],
{
    proof {
        reveal_strlit("0");
        reveal_strlit("1");
        reveal_strlit("2");
        reveal_strlit("3");
        reveal_strlit("4");
        reveal_strlit("5");
        reveal_strlit("6");
        reveal_strlit("7");
        reveal_strlit("8");
        reveal_strlit("9");
    }
    match d {
        0 => "0",
        1 => "1",
        2 => "2",
        3 => "3",
        4 => "4",
        5 => "5",
        6 => "6",
        7 => "7",
        8 => "8",
        _ => "9",
    }
}

/// Decimal rendering of `n`.
pub fn u64_to_string(n: u64) -> (r: String)
    ensures
        r@ == dec_str(n as int),
    decreases n,
{
    if n < 10 {
        String::from_str(digit_to_str(n))
    } else {
        let mut prefix = u64_to_string(n / 10);
        prefix.append(digit_to_str(n % 10));
        prefix
    }
}

/// Decimal spelling of a signed value: a minus sign for negatives.
pub open spec fn int_str(n: int) -> Seq<char> {
    if n >= 0 {
        dec_str(n)
    } else {
        seq!['-'] + dec_str(-n)
    }
}

/// Decimal rendering of a signed value: a minus sign for negatives.
pub fn i64_to_string(n: i64) -> (r: String)
    ensures
        r@ == int_str(n as int),
{
    proof {
        reveal_strlit("-");
    }
    if n >= 0 {
        u64_to_string(n as u64)
    } else {
        // i64::MIN negates safely by stepping through n + 1.
        let magnitude: u64 = ((-(n + 1)) as u64) + 1;
        assert(magnitude == -(n as int));
        let mut s = String::from_str("-");
        let digits = u64_to_string(magnitude);
        s.append(digits.as_str());
        s
    }
}

/// True when `c` is a decimal digit.
pub open spec fn is_digit(c: char) -> bool {
    '0' <= c && c <= '9'
}

/// Numeric value of a digit character.
pub open spec fn digit_val(c: char) -> int {
    c as int - '0' as int
}

/// True when every character of `s` is a decimal digit.
pub open spec fn all_digits(s: Seq<char>) -> bool {
    forall|i: int| 0 <= i < s.len() ==> is_digit(#[trigger] s[i])
}

/// Value of a digit string, most significant digit first.
pub open spec fn dec_val(s: Seq<char>) -> int
    decreases s.len(),
{
    if s.len() == 0 {
        0
    } else {
        dec_val(s.drop_last()) * 10 + digit_val(s.last())
    }
}

/// Parses a non-empty, all-digit string as a decimal integer.  Returns `None`
/// when the string is empty, holds any non-digit, or its value does not fit
/// in a `u64`.
pub fn parse_u64(s: &str) -> (r: Option<u64>)
    ensures
        match r {
            Some(v) => s@.len() > 0 && all_digits(s@) && v == dec_val(s@) && dec_val(s@)
                <= u64::MAX,
            None => s@.len() == 0 || !all_digits(s@) || dec_val(s@) > u64::MAX,
        },
{
    let n = s.unicode_len();
    if n == 0 {
        return None;
    }
    let mut acc: u64 = 0;
    let mut i: usize = 0;
    while i < n
        invariant
            0 <= i <= n,
            n == s@.len(),
            all_digits(s@.subrange(0, i as int)),
            acc == dec_val(s@.subrange(0, i as int)),
        decreases n - i,
    {
        let c = s.get_char(i);
        if c < '0' || c > '9' {
            assert(!is_digit(s@[i as int]));
            return None;
        }
        let d: u32 = (c as u32) - ('0' as u32);
        assert(d == digit_val(s@[i as int]));
        assert(d < 10);
        if acc > u64::MAX / 10 {
            proof {
                assert(acc * 10 > u64::MAX - 9) by (nonlinear_arith)
                    requires
                        acc > u64::MAX / 10,
                ;
                if all_digits(s@) {
                    lemma_dec_val_grows(s@, i as int);
                }
            }
            return None;
        }
        let shifted = acc * 10;
        if shifted > u64::MAX - (d as u64) {
            proof {
                if all_digits(s@) {
                    lemma_dec_val_grows(s@, i as int);
                }
            }
            return None;
        }
        acc = shifted + (d as u64);
        proof {
            assert(s@.subrange(0, i + 1).drop_last() =~= s@.subrange(0, i as int));
            assert(s@.subrange(0, i + 1).last() == s@[i as int]);
        }
        i += 1;
    }
    proof {
        assert(s@.subrange(0, n as int) =~= s@);
    }
    Some(acc)
}

/// Once a prefix of a digit string exceeds what fits, the whole string does.
proof fn lemma_dec_val_grows(s: Seq<char>, i: int)
    requires
        0 <= i < s.len(),
        all_digits(s),
        dec_val(s.subrange(0, i)) * 10 + digit_val(s[i]) > u64::MAX,
    ensures
        dec_val(s) > u64::MAX,
    decreases s.len() - i,
{
    assert(s.subrange(0, i + 1).drop_last() =~= s.subrange(0, i));
    assert(s.subrange(0, i + 1).last() == s[i]);
    assert(dec_val(s.subrange(0, i + 1)) > u64::MAX);
    if i + 1 == s.len() {
        assert(s.subrange(0, i + 1) =~= s);
    } else {
        lemma_dec_val_monotone(s, i + 1);
    }
}

/// A digit string is worth at least any of its prefixes.
proof fn lemma_dec_val_monotone(s: Seq<char>, i: int)
    requires
        0 <= i < s.len(),
        all_digits(s),
    ensures
        dec_val(s) >= dec_val(s.subrange(0, i)),
        dec_val(s.subrange(0, i)) >= 0,
    decreases s.len() - i,
{
    lemma_dec_val_nonneg(s.subrange(0, i));
    assert(s.subrange(0, i + 1).drop_last() =~= s.subrange(0, i));
    assert(s.subrange(0, i + 1).last() == s[i]);
    if i + 1 == s.len() {
        assert(s.subrange(0, i + 1) =~= s);
    } else {
        lemma_dec_val_monotone(s, i + 1);
    }
}

/// The value of an all-digit string is non-negative.
proof fn lemma_dec_val_nonneg(s: Seq<char>)
    requires
        all_digits(s),
    ensures
        dec_val(s) >= 0,
    decreases s.len(),
{
    if s.len() > 0 {
        assert(all_digits(s.drop_last()));
        lemma_dec_val_nonneg(s.drop_last());
    }
}

/// First `limit` characters of `s`, or all of `s` when it is shorter.
pub fn prefix_chars(s: &str, limit: usize) -> (r: String)
    ensures
        limit < s@.len() ==> r@ == s@.subrange(0, limit as int),
        limit >= s@.len() ==> r@ == s@,
{
    let n = s.unicode_len();
    let end = if limit < n {
        limit
    } else {
        n
    };
    let cut = s.substring_char(0, end);
    proof {
        if limit >= s@.len() {
            assert(s@.subrange(0, s@.len() as int) =~= s@);
        }
    }
    String::from_str(cut)
}

/// A length-bounded snippet: the body itself when short, else its first
/// `limit` characters with a truncation marker.
pub open spec fn snippet_of(s: Seq<char>, limit: int) -> Seq<char> {
    if s.len() > limit {
        s.subrange(0, limit) + "...[truncated]"@
    } else {
        s
    }
}

/// Length-bounded snippet of a response body.
pub fn body_snippet(s: &str, limit: usize) -> (r: String)
    ensures
        r@ == snippet_of(s@, limit as int),
{
    let n = s.unicode_len();
    if n > limit {
        let mut head = prefix_chars(s, limit);
        head.append("...[truncated]");
        head
    } else {
        String::from_str(s)
    }
}

/// True for the blank characters trimmed off a header value: the Unicode
/// white-space set.
pub open spec fn is_space(c: char) -> bool {
    ||| c == ' '
    ||| c == '\t'
    ||| c == '\n'
    ||| c == '\u{b}'
    ||| c == '\u{c}'
    ||| c == '\r'
    ||| c == '\u{85}'
    ||| c == '\u{a0}'
    ||| c == '\u{1680}'
    ||| ('\u{2000}' <= c && c <= '\u{200a}')
    ||| c == '\u{2028}'
    ||| c == '\u{2029}'
    ||| c == '\u{202f}'
    ||| c == '\u{205f}'
    ||| c == '\u{3000}'
}

/// `s` with blank characters removed from the front.
pub open spec fn trim_front(s: Seq<char>) -> Seq<char>
    decreases s.len(),
{
    if s.len() > 0 && is_space(s[0]) {
        trim_front(s.subrange(1, s.len() as int))
    } else {
        s
    }
}

/// `s` with blank characters removed from the back.
pub open spec fn trim_back(s: Seq<char>) -> Seq<char>
    decreases s.len(),
{
    if s.len() > 0 && is_space(s.last()) {
        trim_back(s.drop_last())
    } else {
        s
    }
}

/// `s` with blank characters removed from both ends.
pub open spec fn trimmed(s: Seq<char>) -> Seq<char> {
    trim_back(trim_front(s))
}

/// Dropping a blank prefix reaches `trim_front`.
proof fn lemma_trim_front_skip(s: Seq<char>, i: int)
    requires
        0 <= i <= s.len(),
        forall|k: int| 0 <= k < i ==> is_space(#[trigger] s[k]),
        i == s.len() || !is_space(s[i]),
    ensures
        trim_front(s) == s.subrange(i, s.len() as int),
    decreases i,
{
    if i == 0 {
        assert(s.subrange(0, s.len() as int) =~= s);
    } else {
        let t = s.subrange(1, s.len() as int);
        lemma_trim_front_skip(t, i - 1);
        assert(t.subrange(i - 1, t.len() as int) =~= s.subrange(i, s.len() as int));
    }
}

/// Dropping a blank suffix reaches `trim_back`.
proof fn lemma_trim_back_skip(s: Seq<char>, j: int)
    requires
        0 <= j <= s.len(),
        forall|k: int| j <= k < s.len() ==> is_space(#[trigger] s[k]),
        j == 0 || !is_space(s[j - 1]),
    ensures
        trim_back(s) == s.subrange(0, j),
    decreases s.len() - j,
{
    if j == s.len() {
        assert(s.subrange(0, j) =~= s);
    } else {
        let t = s.drop_last();
        lemma_trim_back_skip(t, j);
        assert(t.subrange(0, j) =~= s.subrange(0, j));
    }
}

/// Executable test for the blank characters trimmed off a header value.
pub fn is_space_char(c: char) -> (r: bool)
    ensures
        r == is_space(c),
{
    c == ' ' || c == '\t' || c == '\n' || c == '\u{b}' || c == '\u{c}' || c == '\r' || c == '\u{85}'
        || c == '\u{a0}' || c == '\u{1680}' || ('\u{2000}' <= c && c <= '\u{200a}') || c
        == '\u{2028}' || c == '\u{2029}' || c == '\u{202f}' || c == '\u{205f}' || c == '\u{3000}'
}

/// `s` with blank characters removed from both ends.
pub fn trim(s: &str) -> (r: String)
    ensures
        r@ == trimmed(s@),
{
    let n = s.unicode_len();
    let mut a: usize = 0;
    while a < n && is_space_char(s.get_char(a))
        invariant
            0 <= a <= n,
            n == s@.len(),
            forall|k: int| 0 <= k < a ==> is_space(#[trigger] s@[k]),
        decreases n - a,
    {
        a += 1;
    }
    proof {
        lemma_trim_front_skip(s@, a as int);
    }
    let mut b: usize = n;
    while b > a && is_space_char(s.get_char(b - 1))
        invariant
            a <= b <= n,
            n == s@.len(),
            forall|k: int| b <= k < n ==> is_space(#[trigger] s@[k]),
        decreases b,
    {
        b -= 1;
    }
    let cut = s.substring_char(a, b);
    proof {
        let f = s@.subrange(a as int, n as int);
        lemma_trim_back_skip(f, b - a);
        assert(f.subrange(0, b - a) =~= s@.subrange(a as int, b as int));
        assert(forall|k: int| b - a <= k < f.len() ==> is_space(#[trigger] f[k]));
    }
    String::from_str(cut)
}

/// `s` without its leading `/` characters.
pub open spec fn strip_leading_slashes(s: Seq<char>) -> Seq<char>
    decreases s.len(),
{
    if s.len() > 0 && s[0] == '/' {
        strip_leading_slashes(s.subrange(1, s.len() as int))
    } else {
        s
    }
}

/// Dropping a slash prefix reaches `strip_leading_slashes`.
proof fn lemma_strip_skip(s: Seq<char>, i: int)
    requires
        0 <= i <= s.len(),
        forall|k: int| 0 <= k < i ==> #[trigger] s[k] == '/',
        i == s.len() || s[i] != '/',
    ensures
        strip_leading_slashes(s) == s.subrange(i, s.len() as int),
    decreases i,
{
    if i == 0 {
        assert(s.subrange(0, s.len() as int) =~= s);
    } else {
        let t = s.subrange(1, s.len() as int);
        lemma_strip_skip(t, i - 1);
        assert(t.subrange(i - 1, t.len() as int) =~= s.subrange(i, s.len() as int));
    }
}

/// Joins a base URL, which already ends in `/`, with an endpoint whose
/// leading slashes are dropped.
pub fn join_url(base: &str, endpoint: &str) -> (r: String)
    ensures
        r@ == base@ + strip_leading_slashes(endpoint@),
{
    let n = endpoint.unicode_len();
    let mut i: usize = 0;
    while i < n && endpoint.get_char(i) == '/'
        invariant
            0 <= i <= n,
            n == endpoint@.len(),
            forall|k: int| 0 <= k < i ==> #[trigger] endpoint@[k] == '/',
        decreases n - i,
    {
        i += 1;
    }
    proof {
        lemma_strip_skip(endpoint@, i as int);
    }
    let tail = endpoint.substring_char(i, n);
    let mut r = String::from_str(base);
    r.append(tail);
    r
}

} // verus!
