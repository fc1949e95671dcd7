//! Decimal text of integers: how a number is written in a prompt and how a
//! typed answer is read, with the proof that reading undoes writing.

use vstd::prelude::*;
use vstd::std_specs::iter::IteratorSpec;
use vstd::string::*;
use crate::operator::fits_i64;

verus! {

/// The character of the decimal digit `d`, for `0 <= d <= 9`.
pub open spec fn digit_char(d: int) -> char {
    ((48 + d) as u8) as char
}

/// Whether `c` is one of the ASCII digits `0` to `9`.
pub open spec fn is_digit(c: char) -> bool {
    '0' <= c <= '9'
}

/// The value of the ASCII digit `c`.
pub open spec fn digit_value(c: char) -> int {
    c as u32 - 48
}

/// The decimal digits of a natural number, most significant first, without
/// leading zeros.
pub open spec fn natural_text(n: nat) -> Seq<char>
    decreases n,
{
    if n < 10 {
        seq![digit_char(n as int)]
    } else {
        natural_text(n / 10).push(digit_char((n % 10) as int))
    }
}

/// The decimal text of an integer: a minus sign for a negative number, then
/// the digits of its magnitude.
pub open spec fn decimal_text(n: int) -> Seq<char> {
    if n < 0 {
        seq!['-'] + natural_text((-n) as nat)
    } else {
        natural_text(n as nat)
    }
}

/// The number that a string of digits denotes, read most significant first.
/// Leading zeros are allowed; the empty string denotes zero.
pub open spec fn digits_value(s: Seq<char>) -> int
    decreases s.len(),
{
    if s.len() == 0 {
        0
    } else {
        digits_value(s.drop_last()) * 10 + digit_value(s.last())
    }
}

/// Whether every character of `s` is an ASCII digit.
pub open spec fn all_digits(s: Seq<char>) -> bool {
    forall|i: int| 0 <= i < s.len() ==> is_digit(#[trigger] s[i])
}

/// Whether `c` is white space: a character with the Unicode property
/// `White_Space`.
pub open spec fn is_whitespace(c: char) -> bool {
    let u = c as u32;
    ||| 0x09 <= u <= 0x0D
    ||| u == 0x20
    ||| u == 0x85
    ||| u == 0xA0
    ||| u == 0x1680
    ||| 0x2000 <= u <= 0x200A
    ||| u == 0x2028
    ||| u == 0x2029
    ||| u == 0x202F
    ||| u == 0x205F
    ||| u == 0x3000
}

/// `s` without its leading white space.
pub open spec fn trim_start(s: Seq<char>) -> Seq<char>
    decreases s.len(),
{
    if s.len() > 0 && is_whitespace(s[0]) {
        trim_start(s.skip(1))
    } else {
        s
    }
}

/// `s` without its trailing white space.
pub open spec fn trim_end(s: Seq<char>) -> Seq<char>
    decreases s.len(),
{
    if s.len() > 0 && is_whitespace(s.last()) {
        trim_end(s.drop_last())
    } else {
        s
    }
}

/// `s` without the white space that surrounds it.
pub open spec fn trimmed(s: Seq<char>) -> Seq<char> {
    trim_end(trim_start(s))
}

/// The integer that `s` denotes: an optional `+` or `-`, then one or more
/// ASCII digits and nothing else, with a value that fits in `i64`.
pub open spec fn signed_value(s: Seq<char>) -> Option<int> {
    let negative = s.len() > 0 && s[0] == '-';
    let signed = s.len() > 0 && (s[0] == '-' || s[0] == '+');
    let body = if signed { s.skip(1) } else { s };
    let value = if negative { -digits_value(body) } else { digits_value(body) };
    if body.len() > 0 && all_digits(body) && fits_i64(value) {
        Some(value)
    } else {
        None
    }
}

/// The integer that a typed answer denotes, once the surrounding white
/// space is taken away; `None` where the text is no integer.
pub open spec fn answer_value(s: Seq<char>) -> Option<int> {
    signed_value(trimmed(s))
}

/// The digits of a natural number are digits, at least one of them, and
/// read back they give the number.
pub proof fn lemma_natural_text(n: nat)
    ensures
        natural_text(n).len() >= 1,
        all_digits(natural_text(n)),
        digits_value(natural_text(n)) == n,
    decreases n,
{
    let t = natural_text(n);
    if n < 10 {
        assert(digits_value(t.drop_last()) == 0);
    } else {
        let head = natural_text(n / 10);
        lemma_natural_text(n / 10);
        assert(t.drop_last() =~= head);
    }
}

/// A string that neither begins nor ends with white space is its own
/// trimmed form.
pub proof fn lemma_trimmed_identity(s: Seq<char>)
    requires
        s.len() > 0 ==> !is_whitespace(s[0]) && !is_whitespace(s.last()),
    ensures
        trimmed(s) == s,
{
}

/// Reading the decimal text of an integer gives the integer back, for
/// every integer that fits in `i64`.
pub proof fn lemma_decimal_text_round_trip(n: int)
    requires
        fits_i64(n),
    ensures
        answer_value(decimal_text(n)) == Some(n),
{
    let t = decimal_text(n);
    if n < 0 {
        let body = natural_text((-n) as nat);
        lemma_natural_text((-n) as nat);
        lemma_trimmed_identity(t);
        assert(t.skip(1) =~= body);
    } else {
        lemma_natural_text(n as nat);
        lemma_trimmed_identity(t);
    }
}

/// A string of digits denotes a number that is not negative, and no prefix
/// of it denotes a larger one.
pub proof fn lemma_digits_value_prefix(s: Seq<char>, k: int)
    requires
        all_digits(s),
        0 <= k <= s.len(),
    ensures
        0 <= digits_value(s.take(k)) <= digits_value(s),
    decreases s.len(),
{
    if s.len() > 0 {
        let front = s.drop_last();
        lemma_digits_value_prefix(front, front.len() as int);
        if k == s.len() {
            assert(s.take(k) =~= s);
        } else {
            lemma_digits_value_prefix(front, k);
            assert(front.take(k) =~= s.take(k));
        }
    }
}

/// The one-character string of the digit `d`.
fn digit_str(d: u64) -> (r: &'static str)
    requires
        d < 10,
    ensures
        r@ == seq![digit_char(d as int)],
{
    proof {
        reveal_strlit("0");
        reveal_strlit("1");
        reveal_strlit("2");
        reveal_strlit("3");
        reveal_strlit("4");
        reveal_strlit("5");
        reveal_strlit("6");
        reveal_strlit("7");
        reveal_strlit("8");
        reveal_strlit("9");
    }
    let r = if d == 0 {
        "0"
    } else if d == 1 {
        "1"
    } else if d == 2 {
        "2"
    } else if d == 3 {
        "3"
    } else if d == 4 {
        "4"
    } else if d == 5 {
        "5"
    } else if d == 6 {
        "6"
    } else if d == 7 {
        "7"
    } else if d == 8 {
        "8"
    } else {
        "9"
    };
    r
}

/// Appends the decimal digits of `m` to `out`.
fn append_natural(out: &mut String, m: u64)
    ensures
        final(out)@ == old(out)@ + natural_text(m as nat),
    decreases m,
{
    if m >= 10 {
        append_natural(out, m / 10);
    }
    out.append(digit_str(m % 10));
}

/// Appends the decimal text of `n` to `out`.
pub fn append_decimal(out: &mut String, n: i64)
    ensures
        final(out)@ == old(out)@ + decimal_text(n as int),
{
    if n < 0 {
        let magnitude: u64 = (-(n + 1)) as u64 + 1;
        proof {
            reveal_strlit("-");
        }
        out.append("-");
        append_natural(out, magnitude);
    } else {
        append_natural(out, n as u64);
    }
}

/// The decimal text of `n`.
pub fn render_decimal(n: i64) -> (r: String)
    ensures
        r@ == decimal_text(n as int),
{
    let mut r = String::new();
    append_decimal(&mut r, n);
    r
}

/// Decides whether `c` is white space.
pub fn char_is_whitespace(c: char) -> (r: bool)
    ensures
        r == is_whitespace(c),
{
    let u: u32 = c as u32;
    (0x09 <= u && u <= 0x0D) || u == 0x20 || u == 0x85 || u == 0xA0 || u == 0x1680 || (0x2000 <= u
        && u <= 0x200A) || u == 0x2028 || u == 0x2029 || u == 0x202F || u == 0x205F || u == 0x3000
}

/// The characters of `text`, one by one.
fn chars_of(text: &str) -> (v: Vec<char>)
    ensures
        v@ == text@,
{
    let mut v: Vec<char> = Vec::new();
    for c in it: text.chars()
        invariant
            it.seq() == text@,
            v@ == text@.take(it.index() as int),
    {
        v.push(c);
    }
    v
}

/// Reads the digits `v[from..to]` as a number, negated where `negative` is
/// set. `None` where a character is no digit or the number does not fit.
fn parse_digits(v: &Vec<char>, from: usize, to: usize, negative: bool) -> (r: Option<i64>)
    requires
        from <= to <= v@.len(),
    ensures
        ({
            let body = v@.subrange(from as int, to as int);
            let value = if negative { -digits_value(body) } else { digits_value(body) };
            r == (if all_digits(body) && fits_i64(value) { Some(value as i64) } else { None })
        }),
{
    let ghost body = v@.subrange(from as int, to as int);
    let mut acc: i64 = 0;
    let mut k: usize = from;
    while k < to
        invariant
            from <= k <= to <= v@.len(),
            body == v@.subrange(from as int, to as int),
            all_digits(body.take(k - from)),
            acc == (if negative { -digits_value(body.take(k - from)) } else { digits_value(body.take(k - from)) }),
        decreases to - k,
    {
        let c: char = v[k];
        let ghost prefix = body.take(k - from);
        let ghost next = body.take(k + 1 - from);
        assert(body[k - from] == c);
        if !(c >= '0' && c <= '9') {
            return None;
        }
        let d: i64 = (c as u32 - 48) as i64;
        proof {
            // `next` is `prefix` with the digit `c` behind it
            assert(next.drop_last() =~= prefix);
            // no prefix denotes more than the whole: where `next` does not
            // fit, neither does `body`
            if all_digits(body) {
                lemma_digits_value_prefix(body, k + 1 - from);
            }
            lemma_digits_value_prefix(next, next.len() as int);
        }
        let scaled = match acc.checked_mul(10) {
            Some(x) => x,
            None => { return None; },
        };
        let stepped = if negative { scaled.checked_sub(d) } else { scaled.checked_add(d) };
        acc = match stepped {
            Some(x) => x,
            None => { return None; },
        };
        k += 1;
    }
    assert(body.take(k - from) =~= body);
    Some(acc)
}

/// Reads a typed answer: surrounding white space is ignored, and what is
/// left must be an optional sign and one or more digits whose value fits in
/// `i64`. Anything else is no number.
pub fn parse_answer(text: &str) -> (r: Option<i64>)
    ensures
        r == (match answer_value(text@) {
            Some(value) => Some(value as i64),
            None => None,
        }),
{
    let v = chars_of(text);
    let ghost s = v@;
    let n: usize = v.len();
    let mut i: usize = 0;
    assert(s.skip(0) =~= s);
    while i < n && char_is_whitespace(v[i])
        invariant
            i <= n,
            n == v@.len(),
            s == v@,
            trim_start(s) == trim_start(s.skip(i as int)),
        decreases n - i,
    {
        assert(s.skip(i as int).skip(1) =~= s.skip(i + 1));
        i += 1;
    }
    let mut j: usize = n;
    while j > i && char_is_whitespace(v[j - 1])
        invariant
            i <= j <= n,
            n == v@.len(),
            s == v@,
            trim_end(s.skip(i as int)) == trim_end(s.subrange(i as int, j as int)),
        decreases j,
    {
        assert(s.subrange(i as int, j as int).drop_last() =~= s.subrange(i as int, j - 1));
        j -= 1;
    }
    let ghost t = s.subrange(i as int, j as int);
    if i == j {
        return None;
    }
    let first: char = v[i];
    let negative = first == '-';
    let start: usize = if first == '-' || first == '+' { i + 1 } else { i };
    assert(v@.subrange(start as int, j as int) =~= (if first == '-' || first == '+' { t.skip(1) } else { t }));
    if start == j {
        return None;
    }
    parse_digits(&v, start, j, negative)
}

} // verus!
