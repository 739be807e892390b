//! Text helpers: comparison, decimal numbers, prefixes, trimming and
//! shortening.

use vstd::prelude::*;

verus! {

/// Whether two texts hold the same characters.
pub fn text_equals(a: &str, b: &str) -> (r: bool)
    ensures
        r == (a@ == b@),
{
    String::from_str(a) == String::from_str(b)
}

/// The character of a decimal digit.
pub open spec fn digit_char(d: nat) -> char {
    if d == 0 {
        '0'
    } else if d == 1 {
        '1'
    } else if d == 2 {
        '2'
    } else if d == 3 {
        '3'
    } else if d == 4 {
        '4'
    } else if d == 5 {
        '5'
    } else if d == 6 {
        '6'
    } else if d == 7 {
        '7'
    } else if d == 8 {
        '8'
    } else {
        '9'
    }
}

/// The decimal writing of `n`, most significant digit first, no leading zeros.
pub open spec fn decimal_chars(n: nat) -> Seq<char>
    decreases n,
{
    if n < 10 {
        seq![digit_char(n)]
    } else {
        decimal_chars(n / 10) + seq![digit_char(n % 10)]
    }
}

/// The text of one decimal digit.
pub fn digit_text(d: u64) -> (r: &'static str)
    requires
        d < 10,
    ensures
        r@ == seq![digit_char(d as nat)],
{
    proof {
        reveal_strlit("0");
        reveal_strlit("1");
        reveal_strlit("2");
        reveal_strlit("3");
        reveal_strlit("4");
        reveal_strlit("5");
        reveal_strlit("6");
        reveal_strlit("7");
        reveal_strlit("8");
        reveal_strlit("9");
    }
    match d {
        0 => "0",
        1 => "1",
        2 => "2",
        3 => "3",
        4 => "4",
        5 => "5",
        6 => "6",
        7 => "7",
        8 => "8",
        _ => "9",
    }
}

/// `n` written in decimal, as `{}` formats an unsigned integer.
pub fn decimal_string(n: u64) -> (r: String)
    ensures
        r@ == decimal_chars(n as nat),
    decreases n,
{
    if n < 10 {
        String::from_str(digit_text(n))
    } else {
        let mut s = decimal_string(n / 10);
        s.append(digit_text(n % 10));
        s
    }
}

/// Whether `prefix` begins `s`.
pub open spec fn has_prefix(s: Seq<char>, prefix: Seq<char>) -> bool {
    prefix.len() <= s.len() && s.take(prefix.len() as int) == prefix
}

/// Whether `prefix` begins `s`, as `str::starts_with` answers.
pub fn starts_with(s: &str, prefix: &str) -> (r: bool)
    ensures
        r == has_prefix(s@, prefix@),
{
    let n = s.unicode_len();
    let k = prefix.unicode_len();
    if k > n {
        return false;
    }
    let head = s.substring_char(0, k);
    text_equals(head, prefix)
}

/// What follows the first `k` characters of `s`.
pub fn text_after(s: &str, k: usize) -> (r: &str)
    requires
        k <= s@.len(),
    ensures
        r@ == s@.skip(k as int),
{
    let n = s.unicode_len();
    s.substring_char(k, n)
}

/// Whether `c` has the Unicode `White_Space` property, which is what
/// `char::is_whitespace` tests.
pub open spec fn is_white_space(c: char) -> bool {
    let v = c as u32;
    ||| 0x09 <= v <= 0x0d
    ||| v == 0x20
    ||| v == 0x85
    ||| v == 0xa0
    ||| v == 0x1680
    ||| 0x2000 <= v <= 0x200a
    ||| v == 0x2028
    ||| v == 0x2029
    ||| v == 0x202f
    ||| v == 0x205f
    ||| v == 0x3000
}

/// `s` without its leading white space.
pub open spec fn trim_start_spec(s: Seq<char>) -> Seq<char>
    decreases s.len(),
{
    if s.len() > 0 && is_white_space(s[0]) {
        trim_start_spec(s.drop_first())
    } else {
        s
    }
}

/// `s` without its trailing white space.
pub open spec fn trim_end_spec(s: Seq<char>) -> Seq<char>
    decreases s.len(),
{
    if s.len() > 0 && is_white_space(s.last()) {
        trim_end_spec(s.drop_last())
    } else {
        s
    }
}

/// `s` without leading and trailing white space.
pub open spec fn trim_spec(s: Seq<char>) -> Seq<char> {
    trim_end_spec(trim_start_spec(s))
}

/// Whether `c` has the Unicode `White_Space` property.
pub fn is_white_space_char(c: char) -> (r: bool)
    ensures
        r == is_white_space(c),
{
    let v = c as u32;
    (0x09 <= v && v <= 0x0d) || v == 0x20 || v == 0x85 || v == 0xa0 || v == 0x1680 || (0x2000
        <= v && v <= 0x200a) || v == 0x2028 || v == 0x2029 || v == 0x202f || v == 0x205f || v
        == 0x3000
}

/// Dropping a run of leading white space that ends before a character of
/// another kind (or at the end) is what [`trim_start_spec`] does.
proof fn lemma_trim_start(s: Seq<char>, i: int)
    requires
        0 <= i <= s.len(),
        forall|j: int| 0 <= j < i ==> is_white_space(#[trigger] s[j]),
        i == s.len() || !is_white_space(s[i]),
    ensures
        trim_start_spec(s) == s.skip(i),
    decreases i,
{
    if i == 0 {
        assert(s.skip(0) =~= s);
    } else {
        let t = s.drop_first();
        assert forall|j: int| 0 <= j < i - 1 implies is_white_space(#[trigger] t[j]) by {
            assert(t[j] == s[j + 1]);
        }
        if i < s.len() {
            assert(t[i - 1] == s[i]);
        }
        lemma_trim_start(t, i - 1);
        assert(t.skip(i - 1) =~= s.skip(i));
    }
}

/// Dropping a run of trailing white space that starts after a character of
/// another kind (or at the start) is what [`trim_end_spec`] does.
proof fn lemma_trim_end(t: Seq<char>, k: int)
    requires
        0 <= k <= t.len(),
        forall|j: int| k <= j < t.len() ==> is_white_space(#[trigger] t[j]),
        k == 0 || !is_white_space(t[k - 1]),
    ensures
        trim_end_spec(t) == t.take(k),
    decreases t.len() - k,
{
    if k == t.len() {
        assert(t.take(k) =~= t);
    } else {
        let u = t.drop_last();
        assert(is_white_space(t[t.len() - 1]));
        assert forall|j: int| k <= j < u.len() implies is_white_space(#[trigger] u[j]) by {
            assert(u[j] == t[j]);
        }
        if k > 0 {
            assert(u[k - 1] == t[k - 1]);
        }
        lemma_trim_end(u, k);
        assert(u.take(k) =~= t.take(k));
    }
}

/// A copy of `s` without leading and trailing white space, as `str::trim`
/// gives it: the characters stripped are those that `char::is_whitespace`
/// accepts, the Unicode `White_Space` property.
pub fn trimmed(s: &str) -> (r: String)
    ensures
        r@ == trim_spec(s@),
{
    let n = s.unicode_len();
    let mut i: usize = 0;
    while i < n
        invariant
            i <= n,
            n == s@.len(),
            forall|j: int| 0 <= j < i ==> is_white_space(#[trigger] s@[j]),
        ensures
            i <= n,
            forall|j: int| 0 <= j < i ==> is_white_space(#[trigger] s@[j]),
            i == n || !is_white_space(s@[i as int]),
        decreases n - i,
    {
        if !is_white_space_char(s.get_char(i)) {
            break;
        }
        i = i + 1;
    }
    proof {
        lemma_trim_start(s@, i as int);
    }
    let mut k: usize = n;
    while k > i
        invariant
            i <= k <= n,
            n == s@.len(),
            forall|j: int| k <= j < n ==> is_white_space(#[trigger] s@[j]),
        ensures
            i <= k <= n,
            forall|j: int| k <= j < n ==> is_white_space(#[trigger] s@[j]),
            k == i || !is_white_space(s@[k - 1]),
        decreases k,
    {
        if !is_white_space_char(s.get_char(k - 1)) {
            break;
        }
        k = k - 1;
    }
    let ghost t = s@.skip(i as int);
    proof {
        if i < n {
            assert(!is_white_space(s@[i as int]));
        }
        assert forall|j: int| k - i <= j < t.len() implies is_white_space(#[trigger] t[j]) by {
            assert(t[j] == s@[i + j]);
        }
        if k > i {
            assert(t[k - i - 1] == s@[k - 1]);
        }
        lemma_trim_end(t, k - i);
        assert(t.take(k - i) =~= s@.subrange(i as int, k as int));
    }
    String::from_str(s.substring_char(i, k))
}

/// The horizontal ellipsis that marks a shortened text.
pub const ELLIPSIS: &'static str = "…";

/// `s` cut to its first `limit` characters, with an ellipsis after the cut
/// when anything was cut.
pub open spec fn shortened(s: Seq<char>, limit: nat) -> Seq<char> {
    if s.len() > limit {
        s.take(limit as int) + ELLIPSIS@
    } else {
        s
    }
}

/// `s` cut to its first `limit` characters, with `…` after the cut when
/// anything was cut.
pub fn shorten(s: &str, limit: usize) -> (r: String)
    ensures
        r@ == shortened(s@, limit as nat),
{
    let n = s.unicode_len();
    if n > limit {
        let mut r = String::from_str(s.substring_char(0, limit));
        r.append(ELLIPSIS);
        r
    } else {
        String::from_str(s)
    }
}


/// Whether `c` is one of `0` to `9`.
pub open spec fn is_digit(c: char) -> bool {
    '0' <= c && c <= '9'
}

/// Whether every character of `s` is a decimal digit.
pub open spec fn all_digits(s: Seq<char>) -> bool {
    forall|i: int| 0 <= i < s.len() ==> is_digit(#[trigger] s[i])
}

/// The number that the decimal digits `s` write.
pub open spec fn digits_value(s: Seq<char>) -> nat
    decreases s.len(),
{
    if s.len() == 0 {
        0
    } else {
        digits_value(s.drop_last()) * 10 + ((s.last() as nat) - ('0' as nat)) as nat
    }
}

/// What `str::parse::<usize>` gives: an optional `+`, then at least one
/// decimal digit and nothing else, with a value that fits in `usize`.
pub open spec fn parse_usize_spec(s: Seq<char>) -> Option<usize> {
    let digits = if s.len() > 0 && s[0] == '+' {
        s.drop_first()
    } else {
        s
    };
    if digits.len() > 0 && all_digits(digits) && digits_value(digits) <= usize::MAX {
        Some(digits_value(digits) as usize)
    } else {
        None
    }
}

/// The value of more digits is at least that of their beginning.
proof fn lemma_digits_value_grows(s: Seq<char>, k: int)
    requires
        0 <= k <= s.len(),
        all_digits(s),
    ensures
        digits_value(s.take(k)) <= digits_value(s),
    decreases s.len() - k,
{
    if k < s.len() {
        let t = s.take(k + 1);
        assert(t.drop_last() =~= s.take(k));
        assert(is_digit(t.last()));
        lemma_digits_value_grows(s, k + 1);
    } else {
        assert(s.take(k) =~= s);
    }
}

/// Reads a decimal `usize` as `str::parse::<usize>` does (see
/// [`parse_usize_spec`]).
pub fn parse_usize(s: &str) -> (r: Option<usize>)
    ensures
        r == parse_usize_spec(s@),
{
    let n = s.unicode_len();
    let mut start: usize = 0;
    if n > 0 && s.get_char(0) == '+' {
        start = 1;
    }
    let ghost digits = if s@.len() > 0 && s@[0] == '+' {
        s@.drop_first()
    } else {
        s@
    };
    assert(digits =~= s@.skip(start as int));
    if start == n {
        return None;
    }
    let mut i: usize = start;
    while i < n
        invariant
            start < n,
            digits == (if s@.len() > 0 && s@[0] == '+' {
                s@.drop_first()
            } else {
                s@
            }),
            start <= i <= n,
            n == s@.len(),
            digits =~= s@.skip(start as int),
            forall|j: int| 0 <= j < i - start ==> is_digit(#[trigger] digits[j]),
        decreases n - i,
    {
        let c = s.get_char(i);
        if !('0' <= c && c <= '9') {
            assert(!is_digit(digits[i - start]));
            return None;
        }
        i = i + 1;
    }
    assert(all_digits(digits));
    let mut acc: usize = 0;
    let mut k: usize = start;
    while k < n
        invariant
            start < n,
            digits == (if s@.len() > 0 && s@[0] == '+' {
                s@.drop_first()
            } else {
                s@
            }),
            start <= k <= n,
            n == s@.len(),
            digits =~= s@.skip(start as int),
            all_digits(digits),
            acc as nat == digits_value(digits.take(k - start)),
        decreases n - k,
    {
        let c = s.get_char(k);
        let ghost t = digits.take(k - start + 1);
        assert(t.drop_last() =~= digits.take(k - start));
        assert(t.last() == c);
        assert(is_digit(digits[k - start]));
        let d = ((c as u32) - ('0' as u32)) as usize;
        assert(digits_value(t) == digits_value(digits.take(k - start)) * 10 + d);
        let grown = acc.checked_mul(10);
        match grown {
            Some(m) => match m.checked_add(d) {
                Some(v) => {
                    acc = v;
                },
                None => {
                    proof {
                        lemma_digits_value_grows(digits, k - start + 1);
                    }
                    return None;
                },
            },
            None => {
                proof {
                    lemma_digits_value_grows(digits, k - start + 1);
                }
                return None;
            },
        }
        k = k + 1;
    }
    assert(digits.take(n - start) =~= digits);
    Some(acc)
}

/// A number written in decimal reads back as itself.
pub proof fn lemma_decimal_round_trip(n: usize)
    ensures
        parse_usize_spec(decimal_chars(n as nat)) == Some(n),
{
    lemma_decimal_chars_digits(n as nat);
    reveal_with_fuel(decimal_chars, 1);
    assert(decimal_chars(n as nat)[0] != '+') by {
        lemma_decimal_chars_digits(n as nat);
        assert(is_digit(decimal_chars(n as nat)[0]));
    }
}

/// The character of a digit is a digit, and reads back as that digit.
proof fn lemma_digit_char(d: nat)
    requires
        d < 10,
    ensures
        is_digit(digit_char(d)),
        (digit_char(d) as nat) - ('0' as nat) == d,
{
}

/// The decimal writing of `n` is a non-empty run of digits whose value is
/// `n`.
pub proof fn lemma_decimal_chars_digits(n: nat)
    ensures
        decimal_chars(n).len() > 0,
        all_digits(decimal_chars(n)),
        digits_value(decimal_chars(n)) == n,
    decreases n,
{
    lemma_digit_char(n % 10);
    if n < 10 {
        let s = decimal_chars(n);
        assert(s.drop_last() =~= Seq::<char>::empty());
        assert(s.last() == digit_char(n % 10));
        assert(digits_value(s.drop_last()) == 0);
        assert(digits_value(s) == digits_value(s.drop_last()) * 10 + ((s.last() as nat) - ('0' as nat)) as nat);
    } else {
        lemma_decimal_chars_digits(n / 10);
        let s = decimal_chars(n);
        assert(s.drop_last() =~= decimal_chars(n / 10));
        assert(s.last() == digit_char(n % 10));
        assert(n == (n / 10) * 10 + n % 10) by (nonlinear_arith);
        assert(digits_value(s) == digits_value(s.drop_last()) * 10 + ((s.last() as nat) - ('0' as nat)) as nat);
        assert forall|i: int| 0 <= i < s.len() implies is_digit(#[trigger] s[i]) by {
            if i < s.len() - 1 {
                assert(s[i] == decimal_chars(n / 10)[i]);
            }
        }
    }
}

} // verus!
