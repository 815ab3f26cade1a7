use vstd::prelude::*;
use vstd::string::StringExecFns;

verus! {

/// The decimal digit character for `d` (meaningful for `d < 10`).
pub open spec fn digit_char(d: nat) -> char {
    if d == 0 {
        '0'
    } else if d == 1 {
        '1'
    } else if d == 2 {
        '2'
    } else if d == 3 {
        '3'
    } else if d == 4 {
        '4'
    } else if d == 5 {
        '5'
    } else if d == 6 {
        '6'
    } else if d == 7 {
        '7'
    } else if d == 8 {
        '8'
    } else {
        '9'
    }
}

/// The decimal digits of `n`, most significant first, with no sign and no padding.
pub open spec fn dec_digits(n: nat) -> Seq<char>
    decreases n,
{
    if n < 10 {
        seq![digit_char(n)]
    } else {
        dec_digits(n / 10).push(digit_char(n % 10))
    }
}

/// `n` in decimal, right-aligned with spaces to a field of width three.
pub open spec fn dec_padded3(n: nat) -> Seq<char> {
    if n < 10 {
        seq![' ', ' '] + dec_digits(n)
    } else if n < 100 {
        seq![' '] + dec_digits(n)
    } else {
        dec_digits(n)
    }
}

/// Relies on String::push: appends exactly the given character to the string.
#[verifier::external_body]
pub(crate) fn push_char(s: &mut String, c: char)
    ensures
        final(s)@ == old(s)@.push(c),
{
    s.push(c)
}

fn digit_of(d: u32) -> (c: char)
    requires
        d < 10,
    ensures
        c == digit_char(d as nat),
{
    if d == 0 {
        '0'
    } else if d == 1 {
        '1'
    } else if d == 2 {
        '2'
    } else if d == 3 {
        '3'
    } else if d == 4 {
        '4'
    } else if d == 5 {
        '5'
    } else if d == 6 {
        '6'
    } else if d == 7 {
        '7'
    } else if d == 8 {
        '8'
    } else {
        '9'
    }
}

/// Renders `n` in decimal.
pub fn u32_string(n: u32) -> (r: String)
    ensures
        r@ == dec_digits(n as nat),
    decreases n,
{
    if n < 10 {
        let mut s = String::new();
        push_char(&mut s, digit_of(n));
        proof {
            assert(s@ =~= dec_digits(n as nat));
        }
        s
    } else {
        let mut s = u32_string(n / 10);
        push_char(&mut s, digit_of(n % 10));
        s
    }
}

/// Renders `n` in decimal, right-aligned with spaces to a field of width three.
pub fn u32_string_padded3(n: u32) -> (r: String)
    ensures
        r@ == dec_padded3(n as nat),
{
    let mut s = String::new();
    if n < 10 {
        push_char(&mut s, ' ');
        push_char(&mut s, ' ');
    } else if n < 100 {
        push_char(&mut s, ' ');
    }
    let d = u32_string(n);
    s.append(d.as_str());
    proof {
        assert(s@ =~= dec_padded3(n as nat));
    }
    s
}

/// `n` in decimal with a leading minus sign when negative.
pub open spec fn dec_i32(n: int) -> Seq<char> {
    if n < 0 {
        seq!['-'] + dec_digits((-n) as nat)
    } else {
        dec_digits(n as nat)
    }
}

/// Renders `n` in decimal, with a leading minus sign when negative.
pub fn i32_string(n: i32) -> (r: String)
    ensures
        r@ == dec_i32(n as int),
{
    if n >= 0 {
        u32_string(n as u32)
    } else {
        let m: u32 = (-(n as i64)) as u32;
        let mut s = String::new();
        push_char(&mut s, '-');
        let d = u32_string(m);
        s.append(d.as_str());
        proof {
            assert(s@ =~= dec_i32(n as int));
        }
        s
    }
}

/// True exactly when the two strings hold the same characters.
pub fn str_eq(a: &str, b: &str) -> (r: bool)
    ensures
        r == (a@ == b@),
{
    let sa = a.to_owned();
    let sb = b.to_owned();
    sa == sb
}

/// An ASCII decimal digit.
pub open spec fn is_digit(c: char) -> bool {
    '0' <= c && c <= '9'
}

/// The numeric value of a digit character.
pub open spec fn digit_val(c: char) -> int {
    c as u32 - '0' as u32
}

/// Every character of `s` is a digit.
pub open spec fn all_digits(s: Seq<char>) -> bool {
    forall|i: int| 0 <= i < s.len() ==> is_digit(#[trigger] s[i])
}

/// The value of a digit string, most significant digit first.
pub open spec fn digits_val(s: Seq<char>) -> int
    decreases s.len(),
{
    if s.len() == 0 {
        0
    } else {
        digits_val(s.drop_last()) * 10 + digit_val(s.last())
    }
}

/// The digits of an integer literal: everything after one optional sign.
pub open spec fn digits_part(s: Seq<char>) -> Seq<char> {
    if s.len() > 0 && (s[0] == '+' || s[0] == '-') {
        s.drop_first()
    } else {
        s
    }
}

/// The literal carries a minus sign.
pub open spec fn is_neg_literal(s: Seq<char>) -> bool {
    s.len() > 0 && s[0] == '-'
}

/// A well-formed integer literal: one optional sign, then at least one
/// digit and nothing else.
pub open spec fn is_int_literal(s: Seq<char>) -> bool {
    digits_part(s).len() > 0 && all_digits(digits_part(s))
}

/// The signed value of an integer literal.
pub open spec fn literal_val(s: Seq<char>) -> int {
    if is_neg_literal(s) {
        -digits_val(digits_part(s))
    } else {
        digits_val(digits_part(s))
    }
}

/// Parses a decimal integer as the sampled files carry them: an optional
/// sign, then decimal digits.  Succeeds exactly on a well-formed literal
/// whose value fits `i32`; any failure reports the offending input back.
pub fn parse_i32(s: &str) -> (r: Result<i32, crate::error::Error>)
    ensures
        r is Ok <==> is_int_literal(s@) && i32::MIN <= literal_val(s@) <= i32::MAX,
        r matches Ok(v) ==> v as int == literal_val(s@),
        r matches Err(e) ==> e matches crate::error::Error::Parse(m) && m@ == s@,
{
    let n = s.unicode_len();
    let mut start: usize = 0;
    let mut negative = false;
    if n > 0 {
        let c0 = s.get_char(0);
        if c0 == '-' {
            negative = true;
            start = 1;
        } else if c0 == '+' {
            start = 1;
        }
    }
    if start >= n {
        assert(digits_part(s@).len() == 0);
        return Err(crate::error::Error::Parse(s.to_owned()));
    }
    let ghost dpart = digits_part(s@);
    proof {
        assert(dpart =~= s@.skip(start as int));
    }
    let mut acc: i64 = 0;
    let mut too_big = false;
    let mut i: usize = start;
    proof {
        assert(dpart.take(0) =~= Seq::<char>::empty());
    }
    while i < n
        invariant
            start <= i <= n,
            start < n,
            n == s@.len(),
            start <= 1,
            dpart == digits_part(s@),
            dpart =~= s@.skip(start as int),
            negative == is_neg_literal(s@),
            all_digits(dpart.take(i - start)),
            !too_big ==> acc == digits_val(dpart.take(i - start)) && 0 <= acc <= 2147483648,
            too_big ==> digits_val(dpart.take(i - start)) > 2147483648,
        decreases n - i,
    {
        let c = s.get_char(i);
        assert(dpart[i - start] == c);
        if c < '0' || c > '9' {
            assert(!is_digit(dpart[i - start]));
            assert(!all_digits(dpart));
            return Err(crate::error::Error::Parse(s.to_owned()));
        }
        let d: u32 = c as u32 - '0' as u32;
        let ghost pre = dpart.take(i - start);
        proof {
            assert(dpart.take(i + 1 - start).drop_last() =~= pre);
            assert(dpart.take(i + 1 - start).last() == c);
        }
        if too_big {
            proof {
                assert(digits_val(dpart.take(i + 1 - start)) == digits_val(pre) * 10 + digit_val(
                    c,
                ));
            }
        } else {
            acc = acc * 10 + (d as i64);
            if acc > 2147483648 {
                too_big = true;
            }
        }
        i += 1;
    }
    proof {
        assert(dpart.take(n - start) =~= dpart);
    }
    if too_big {
        proof {
            if negative {
                assert(literal_val(s@) < i32::MIN);
            } else {
                assert(literal_val(s@) > i32::MAX);
            }
        }
        return Err(crate::error::Error::Parse(s.to_owned()));
    }
    if negative {
        let v: i32 = (-acc) as i32;
        Ok(v)
    } else {
        if acc > 2147483647 {
            assert(literal_val(s@) > i32::MAX);
            return Err(crate::error::Error::Parse(s.to_owned()));
        }
        Ok(acc as i32)
    }
}

/// ASCII whitespace, as the sampled files wrap it around a value.
pub open spec fn is_ascii_ws(c: char) -> bool {
    c == ' ' || c == '\t' || c == '\n' || c == '\r'
}

fn is_ws(c: char) -> (r: bool)
    ensures
        r == is_ascii_ws(c),
{
    c == ' ' || c == '\t' || c == '\n' || c == '\r'
}

/// Removes leading and trailing ASCII whitespace: the result is the unique
/// inner piece of `s` that neither starts nor ends with whitespace and is
/// bordered only by whitespace.
pub fn trim_ascii(s: &str) -> (r: String)
    ensures
        exists|a: int, b: int|
            {
                &&& 0 <= a <= b <= s@.len()
                &&& r@ == s@.subrange(a, b)
                &&& (forall|j: int| 0 <= j < a ==> is_ascii_ws(#[trigger] s@[j]))
                &&& (forall|j: int| b <= j < s@.len() ==> is_ascii_ws(#[trigger] s@[j]))
                &&& (a < b ==> !is_ascii_ws(s@[a]) && !is_ascii_ws(s@[b - 1]))
            },
{
    let n = s.unicode_len();
    let mut a: usize = 0;
    while a < n && is_ws(s.get_char(a))
        invariant
            a <= n,
            n == s@.len(),
            forall|j: int| 0 <= j < a ==> is_ascii_ws(#[trigger] s@[j]),
        decreases n - a,
    {
        a += 1;
    }
    let mut b: usize = n;
    while b > a && is_ws(s.get_char(b - 1))
        invariant
            a <= b <= n,
            n == s@.len(),
            forall|j: int| b <= j < n ==> is_ascii_ws(#[trigger] s@[j]),
        decreases b,
    {
        b -= 1;
    }
    let t = s.substring_char(a, b);
    let r = t.to_owned();
    proof {
        assert(0 <= a as int <= b as int <= s@.len() && r@ == s@.subrange(a as int, b as int) && (
        forall|j: int| 0 <= j < a as int ==> is_ascii_ws(#[trigger] s@[j])) && (forall|j: int|
            b as int <= j < s@.len() ==> is_ascii_ws(#[trigger] s@[j])) && (a < b
            ==> !is_ascii_ws(s@[a as int]) && !is_ascii_ws(s@[b - 1])));
    }
    r
}

} // verus!
