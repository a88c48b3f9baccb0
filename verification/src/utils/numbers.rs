use vstd::prelude::*;
use vstd::string::StrSliceExecFns;
use vstd::string::StringExecFns;

verus! {

/// Whether a character is one of the ten digits.
pub open spec fn is_digit(c: char) -> bool {
    '0' <= c <= '9'
}

/// Tells whether a character is one of the ten digits.
pub fn is_ascii_digit(c: char) -> (r: bool)
    ensures
        r == is_digit(c),
{
    '0' <= c && c <= '9'
}

/// Where the digits that start at `start` end: the first place from `start`
/// on that holds no digit, or the end of the text.
pub open spec fn digits_end(s: Seq<char>, start: int) -> int
    decreases s.len() - start,
{
    if start < 0 || start >= s.len() || !is_digit(s[start]) {
        start
    } else {
        digits_end(s, start + 1)
    }
}

fn find_digits_end(s: &str, start: usize, n: usize) -> (r: usize)
    requires
        start <= n,
        n == s@.len(),
    ensures
        r == digits_end(s@, start as int),
        start <= r <= n,
{
    let mut j: usize = start;
    while j < n && is_ascii_digit(s.get_char(j))
        invariant
            start <= j <= n,
            n == s@.len(),
            digits_end(s@, start as int) == digits_end(s@, j as int),
        decreases n - j,
    {
        j += 1;
    }
    j
}

/// Whether a character is a sign.
pub open spec fn is_sign(c: char) -> bool {
    c == '+' || c == '-'
}

/// An ASCII letter in lower case; any other character as it is.
pub open spec fn lower(c: char) -> char {
    if 'A' <= c <= 'Z' {
        ((c as u32) + 32) as char
    } else {
        c
    }
}

/// Whether a text is a given word, whatever the case of its ASCII letters.
pub open spec fn is_word(s: Seq<char>, word: Seq<char>) -> bool {
    s.len() == word.len() && forall|i: int| 0 <= i < s.len() ==> lower(#[trigger] s[i]) == word[i]
}

/// Where the exponent that starts at `start` ends, or -1 where none starts
/// there: an `e` in either case, an optional sign and at least one digit.
pub open spec fn exponent_end(s: Seq<char>, start: int) -> int {
    if 0 <= start < s.len() && lower(s[start]) == 'e' {
        let digits = if start + 1 < s.len() && is_sign(s[start + 1]) {
            start + 2
        } else {
            start + 1
        };
        if digits <= s.len() && digits_end(s, digits) > digits {
            digits_end(s, digits)
        } else {
            -1
        }
    } else {
        -1
    }
}

/// Whether a text is a decimal number without a sign: digits with an
/// optional point among them, before it or behind it, at least one digit in
/// all, and an optional exponent.
pub open spec fn is_decimal(s: Seq<char>) -> bool {
    let whole = digits_end(s, 0);
    let mantissa = if whole < s.len() && s[whole] == '.' {
        digits_end(s, whole + 1)
    } else {
        whole
    };
    let digits = if mantissa > whole {
        mantissa - 1
    } else {
        mantissa
    };
    digits >= 1 && (mantissa == s.len() || exponent_end(s, mantissa) == s.len())
}

/// A text without its sign, if it starts with one.
pub open spec fn unsigned_part(s: Seq<char>) -> Seq<char> {
    if s.len() > 0 && is_sign(s[0]) {
        s.skip(1)
    } else {
        s
    }
}

/// Whether a text is a number as `add --amount` takes it: an optional sign,
/// then `inf`, `infinity` or `nan` in any case, or a decimal number. These
/// are the texts that `str::parse` reads as a double.
pub open spec fn is_float_literal(s: Seq<char>) -> bool {
    let body = unsigned_part(s);
    is_word(body, "inf"@) || is_word(body, "infinity"@) || is_word(body, "nan"@) || is_decimal(body)
}

fn to_lower(c: char) -> (r: char)
    ensures
        r == lower(c),
{
    if 'A' <= c && c <= 'Z' {
        let u: u32 = c as u32 + 32;
        assert(0x61 <= u <= 0x7A);
        let b: u8 = u as u8;
        b as char
    } else {
        c
    }
}

fn matches_word(s: &str, word: &str) -> (r: bool)
    ensures
        r == is_word(s@, word@),
{
    let n = s.unicode_len();
    if n != word.unicode_len() {
        return false;
    }
    let mut i: usize = 0;
    while i < n
        invariant
            i <= n,
            n == s@.len(),
            n == word@.len(),
            forall|k: int| 0 <= k < i ==> lower(#[trigger] s@[k]) == word@[k],
        decreases n - i,
    {
        if to_lower(s.get_char(i)) != word.get_char(i) {
            return false;
        }
        i += 1;
    }
    true
}

fn find_exponent_end(s: &str, start: usize, n: usize) -> (r: Option<usize>)
    requires
        start <= n,
        n == s@.len(),
    ensures
        match r {
            Some(end) => end == exponent_end(s@, start as int),
            None => exponent_end(s@, start as int) == -1,
        },
{
    if start < n && to_lower(s.get_char(start)) == 'e' {
        let digits: usize = if start + 1 < n && (s.get_char(start + 1) == '+' || s.get_char(
            start + 1,
        ) == '-') {
            start + 2
        } else {
            start + 1
        };
        let end = find_digits_end(s, digits, n);
        if end > digits {
            Some(end)
        } else {
            None
        }
    } else {
        None
    }
}

fn check_decimal(s: &str) -> (r: bool)
    ensures
        r == is_decimal(s@),
{
    let n = s.unicode_len();
    let whole = find_digits_end(s, 0, n);
    let mantissa = if whole < n && s.get_char(whole) == '.' {
        find_digits_end(s, whole + 1, n)
    } else {
        whole
    };
    let digits = if mantissa > whole {
        mantissa - 1
    } else {
        mantissa
    };
    if digits < 1 {
        return false;
    }
    if mantissa == n {
        return true;
    }
    match find_exponent_end(s, mantissa, n) {
        Some(end) => end == n,
        None => false,
    }
}

/// Tells whether a text is a number as `add --amount` takes it.
pub fn check_float_literal(s: &str) -> (r: bool)
    ensures
        r == is_float_literal(s@),
{
    let n = s.unicode_len();
    let body = if n > 0 && (s.get_char(0) == '+' || s.get_char(0) == '-') {
        s.substring_char(1, n)
    } else {
        s
    };
    matches_word(body, "inf") || matches_word(body, "infinity") || matches_word(body, "nan")
        || check_decimal(body)
}

/// Whether a text is one digit or more and nothing else.
pub open spec fn is_digits(s: Seq<char>) -> bool {
    s.len() > 0 && forall|i: int| 0 <= i < s.len() ==> is_digit(#[trigger] s[i])
}

/// What a digit counts.
pub open spec fn digit_value(c: char) -> nat {
    (c as u32 - '0' as u32) as nat
}

/// The number that a run of digits writes in base ten.
pub open spec fn digits_value(s: Seq<char>) -> nat
    decreases s.len(),
{
    if s.len() == 0 {
        0
    } else {
        digits_value(s.drop_last()) * 10 + digit_value(s.last())
    }
}

/// The month that a text names: an optional `+`, then digits that write a
/// number from 1 to 12.
pub open spec fn month_of(s: Seq<char>) -> Option<u32> {
    let body = if s.len() > 0 && s[0] == '+' {
        s.skip(1)
    } else {
        s
    };
    if is_digits(body) && 1 <= digits_value(body) <= 12 {
        Some(digits_value(body) as u32)
    } else {
        None
    }
}

/// Reads the number of a month.
pub fn parse_month(s: &str) -> (r: Option<u32>)
    ensures
        r == month_of(s@),
{
    let n = s.unicode_len();
    let body = if n > 0 && s.get_char(0) == '+' {
        s.substring_char(1, n)
    } else {
        s
    };
    let len = body.unicode_len();
    if len == 0 {
        return None;
    }
    // The number read so far, or 13 for any number above 12.
    let mut month: u32 = 0;
    let mut i: usize = 0;
    while i < len
        invariant
            i <= len,
            len == body@.len(),
            len > 0,
            body@ == if s@.len() > 0 && s@[0] == '+' {
                s@.skip(1)
            } else {
                s@
            },
            forall|k: int| 0 <= k < i ==> is_digit(#[trigger] body@[k]),
            month <= 13,
            month < 13 ==> month == digits_value(body@.take(i as int)),
            month == 13 ==> digits_value(body@.take(i as int)) >= 13,
        decreases len - i,
    {
        let c = body.get_char(i);
        if !is_ascii_digit(c) {
            return None;
        }
        let d: u32 = c as u32 - '0' as u32;
        assert(body@.take(i + 1).drop_last() == body@.take(i as int));
        assert(body@.take(i + 1).last() == c);
        month = if month >= 2 {
            13
        } else {
            let m = month * 10 + d;
            if m > 12 {
                13
            } else {
                m
            }
        };
        i += 1;
    }
    assert(body@.take(len as int) == body@);
    if 1 <= month && month <= 12 {
        Some(month)
    } else {
        None
    }
}

/// The character that writes a digit below ten.
pub open spec fn digit_char(d: nat) -> char {
    (d + '0' as u32) as char
}

/// An unsigned number in base ten.
pub open spec fn decimal_digits(n: nat) -> Seq<char>
    decreases n,
{
    if n < 10 {
        seq![digit_char(n)]
    } else {
        decimal_digits(n / 10).push(digit_char(n % 10))
    }
}

/// A number in base ten, with `-` before it where it is below zero.
pub open spec fn decimal(i: int) -> Seq<char> {
    if i < 0 {
        seq!['-'] + decimal_digits((-i) as nat)
    } else {
        decimal_digits(i as nat)
    }
}

fn digit_text(d: u64) -> (r: &'static str)
    requires
        d < 10,
    ensures
        r@ == seq![digit_char(d as nat)],
{
    proof {
        reveal_strlit("0");
        reveal_strlit("1");
        reveal_strlit("2");
        reveal_strlit("3");
        reveal_strlit("4");
        reveal_strlit("5");
        reveal_strlit("6");
        reveal_strlit("7");
        reveal_strlit("8");
        reveal_strlit("9");
    }
    let text = if d == 0 {
        "0"
    } else if d == 1 {
        "1"
    } else if d == 2 {
        "2"
    } else if d == 3 {
        "3"
    } else if d == 4 {
        "4"
    } else if d == 5 {
        "5"
    } else if d == 6 {
        "6"
    } else if d == 7 {
        "7"
    } else if d == 8 {
        "8"
    } else {
        "9"
    };
    assert(text@ =~= seq![digit_char(d as nat)]);
    text
}

fn digits_text(n: u64) -> (r: String)
    ensures
        r@ == decimal_digits(n as nat),
    decreases n,
{
    if n < 10 {
        String::from_str(digit_text(n))
    } else {
        let mut text = digits_text(n / 10);
        text.append(digit_text(n % 10));
        assert(decimal_digits((n / 10) as nat) + seq![digit_char((n % 10) as nat)]
            =~= decimal_digits((n / 10) as nat).push(digit_char((n % 10) as nat)));
        text
    }
}

/// Writes a number in base ten.
pub fn decimal_text(i: i64) -> (r: String)
    ensures
        r@ == decimal(i as int),
{
    if i < 0 {
        let magnitude: u64 = (-(i as i128)) as u64;
        let mut text = String::from_str("-");
        proof {
            reveal_strlit("-");
            assert("-"@ =~= seq!['-']);
        }
        let digits = digits_text(magnitude);
        text.append(digits.as_str());
        text
    } else {
        digits_text(i as u64)
    }
}

/// A number written in base ten is made of digits, and reads as itself.
pub proof fn lemma_digits_read_back(n: nat)
    ensures
        is_digits(decimal_digits(n)),
        digits_value(decimal_digits(n)) == n,
    decreases n,
{
    if n < 10 {
        assert(seq![digit_char(n)].drop_last() =~= Seq::<char>::empty());
        assert(digits_value(Seq::<char>::empty()) == 0);
    } else {
        lemma_digits_read_back(n / 10);
        assert(decimal_digits(n / 10).push(digit_char(n % 10)).drop_last() =~= decimal_digits(
            n / 10,
        ));
    }
}

/// Two numbers that are written alike in base ten are the same number: no
/// two identifiers that a counter gives out are written alike.
pub proof fn lemma_decimal_tells_apart(a: int, b: int)
    requires
        decimal(a) == decimal(b),
    ensures
        a == b,
{
    let first = if a < 0 {
        (-a) as nat
    } else {
        a as nat
    };
    let second = if b < 0 {
        (-b) as nat
    } else {
        b as nat
    };
    lemma_digits_read_back(first);
    lemma_digits_read_back(second);
    if a < 0 && b < 0 {
        assert((seq!['-'] + decimal_digits(first)).skip(1) =~= decimal_digits(first));
        assert((seq!['-'] + decimal_digits(second)).skip(1) =~= decimal_digits(second));
    } else if a < 0 {
        assert(decimal(a)[0] == '-');
        assert(is_digit(decimal(b)[0]));
    } else if b < 0 {
        assert(decimal(b)[0] == '-');
        assert(is_digit(decimal(a)[0]));
    }
}

} // verus!
