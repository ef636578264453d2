//! Decimal integers: parsing (`str::parse`) and printing (`to_string`).
use vstd::prelude::*;

verus! {

pub open spec fn is_digit(c: char) -> bool {
    '0' <= c && c <= '9'
}

pub open spec fn digit_value(c: char) -> int {
    c as int - '0' as int
}

pub open spec fn all_digits(s: Seq<char>) -> bool {
    forall|i: int| 0 <= i < s.len() ==> is_digit(#[trigger] s[i])
}

/// The number that the decimal digits `s` write.
pub open spec fn digits_value(s: Seq<char>) -> int
    decreases s.len(),
{
    if s.len() == 0 {
        0
    } else {
        digits_value(s.drop_last()) * 10 + digit_value(s.last())
    }
}

/// `str::parse::<i64>`: an optional sign, then one or more ASCII digits, with a value that fits.
pub open spec fn parse_i64(s: Seq<char>) -> Option<i64> {
    if s.len() == 0 {
        None
    } else if s[0] == '+' || s[0] == '-' {
        let d = s.drop_first();
        let v = if s[0] == '-' {
            -digits_value(d)
        } else {
            digits_value(d)
        };
        if d.len() > 0 && all_digits(d) && i64::MIN <= v <= i64::MAX {
            Some(v as i64)
        } else {
            None
        }
    } else {
        let v = digits_value(s);
        if all_digits(s) && v <= i64::MAX {
            Some(v as i64)
        } else {
            None
        }
    }
}

/// `str::parse::<u64>`: an optional `'+'`, then one or more ASCII digits, with a value that fits.
pub open spec fn parse_u64(s: Seq<char>) -> Option<u64> {
    let d = if s.len() > 0 && s[0] == '+' {
        s.drop_first()
    } else {
        s
    };
    if d.len() > 0 && all_digits(d) && digits_value(d) <= u64::MAX {
        Some(digits_value(d) as u64)
    } else {
        None
    }
}

proof fn lemma_digits_value_nonneg(s: Seq<char>)
    requires
        all_digits(s),
    ensures
        digits_value(s) >= 0,
    decreases s.len(),
{
    if s.len() > 0 {
        lemma_digits_value_nonneg(s.drop_last());
    }
}

proof fn lemma_digits_value_prefix(s: Seq<char>, k: int)
    requires
        all_digits(s),
        0 <= k <= s.len(),
    ensures
        digits_value(s.take(k)) <= digits_value(s),
    decreases s.len() - k,
{
    if k < s.len() {
        assert(s.drop_last().take(k) == s.take(k));
        lemma_digits_value_prefix(s.drop_last(), k);
        lemma_digits_value_nonneg(s.drop_last());
    } else {
        assert(s.take(k) == s);
    }
}

/// Value of the digit run `s[a..b]`, or `None` when it exceeds `u64::MAX`.
fn digits_u64(s: &[char], a: usize, b: usize) -> (res: Option<u64>)
    requires
        a <= b <= s@.len(),
        all_digits(s@.subrange(a as int, b as int)),
    ensures
        match res {
            Some(v) => v == digits_value(s@.subrange(a as int, b as int)),
            None => digits_value(s@.subrange(a as int, b as int)) > u64::MAX,
        },
{
    let ghost d = s@.subrange(a as int, b as int);
    let mut acc: u64 = 0;
    let mut i = a;
    while i < b
        invariant
            a <= i <= b <= s@.len(),
            d == s@.subrange(a as int, b as int),
            all_digits(d),
            acc == digits_value(d.take(i - a)),
        decreases b - i,
    {
        let c = s[i];
        assert(d[i - a] == c);
        let dv = (c as u32 - '0' as u32) as u64;
        assert(d.take(i - a + 1).drop_last() == d.take(i - a));
        match acc.checked_mul(10) {
            Some(m) => match m.checked_add(dv) {
                Some(n) => {
                    acc = n;
                },
                None => {
                    proof {
                        lemma_digits_value_prefix(d, i - a + 1);
                    }
                    return None;
                },
            },
            None => {
                proof {
                    lemma_digits_value_prefix(d, i - a + 1);
                    lemma_digits_value_nonneg(d.take(i - a));
                }
                return None;
            },
        }
        i = i + 1;
    }
    assert(d.take(b - a) == d);
    Some(acc)
}

fn all_digits_exec(s: &[char], a: usize, b: usize) -> (res: bool)
    requires
        a <= b <= s@.len(),
    ensures
        res == all_digits(s@.subrange(a as int, b as int)),
{
    let mut i = a;
    while i < b
        invariant
            a <= i <= b <= s@.len(),
            forall|j: int| a <= j < i ==> is_digit(#[trigger] s@[j]),
        decreases b - i,
    {
        if !('0' <= s[i] && s[i] <= '9') {
            assert(s@.subrange(a as int, b as int)[i - a] == s@[i as int]);
            return false;
        }
        i = i + 1;
    }
    assert forall|k: int| 0 <= k < b - a implies is_digit(#[trigger] s@.subrange(a as int, b as int)[k]) by {
        assert(s@.subrange(a as int, b as int)[k] == s@[a + k]);
    }
    true
}

/// `str::parse::<i64>` on characters.
pub fn parse_i64_exec(s: &[char]) -> (res: Option<i64>)
    ensures
        res == parse_i64(s@),
{
    let n = s.len();
    if n == 0 {
        return None;
    }
    let signed = s[0] == '+' || s[0] == '-';
    let a: usize = if signed { 1 } else { 0 };
    assert(s@.subrange(1, n as int) == s@.drop_first());
    assert(s@.subrange(0, n as int) == s@);
    if a == n || !all_digits_exec(s, a, n) {
        return None;
    }
    proof {
        lemma_digits_value_nonneg(s@.subrange(a as int, n as int));
    }
    match digits_u64(s, a, n) {
        None => None,
        Some(m) => {
            if s[0] == '-' {
                if m <= 9223372036854775808u64 {
                    if m == 9223372036854775808u64 {
                        Some(i64::MIN)
                    } else {
                        Some(-(m as i64))
                    }
                } else {
                    None
                }
            } else {
                if m <= 9223372036854775807u64 {
                    Some(m as i64)
                } else {
                    None
                }
            }
        },
    }
}

/// `str::parse::<u64>` on characters.
pub fn parse_u64_exec(s: &[char]) -> (res: Option<u64>)
    ensures
        res == parse_u64(s@),
{
    let n = s.len();
    let a: usize = if n > 0 && s[0] == '+' { 1 } else { 0 };
    assert(s@.subrange(1, n as int) == s@.drop_first());
    assert(s@.subrange(0, n as int) == s@);
    if a == n || !all_digits_exec(s, a, n) {
        return None;
    }
    digits_u64(s, a, n)
}

} // verus!

verus! {

pub open spec fn digit_char(d: int) -> char {
    (d + '0' as int) as char
}

/// The decimal digits of `n`, most significant first, without leading zeros.
pub open spec fn decimal(n: nat) -> Seq<char>
    decreases n,
{
    if n < 10 {
        seq![digit_char(n as int)]
    } else {
        decimal(n / 10).push(digit_char((n % 10) as int))
    }
}

/// The decimal text of a signed number: a `'-'` before the digits of a negative one.
pub open spec fn signed_decimal(n: int) -> Seq<char> {
    if n < 0 {
        seq!['-'] + decimal((-n) as nat)
    } else {
        decimal(n as nat)
    }
}

/// `u64::to_string`, as characters.
pub fn decimal_u64(n: u64) -> (res: Vec<char>)
    ensures
        res@ == decimal(n as nat),
    decreases n,
{
    let d = ((n % 10) as u8 + 48u8) as char;
    assert(d == digit_char((n % 10) as int));
    if n < 10 {
        let mut v: Vec<char> = Vec::new();
        v.push(d);
        assert(v@ == seq![d]);
        v
    } else {
        let mut v = decimal_u64(n / 10);
        v.push(d);
        v
    }
}

/// `i64::to_string`, as characters.
pub fn decimal_i64(n: i64) -> (res: Vec<char>)
    ensures
        res@ == signed_decimal(n as int),
{
    if n < 0 {
        let m: u64 = if n == i64::MIN {
            9223372036854775808u64
        } else {
            (-n) as u64
        };
        let digits = decimal_u64(m);
        let mut v: Vec<char> = Vec::new();
        v.push('-');
        let mut i: usize = 0;
        while i < digits.len()
            invariant
                i <= digits@.len(),
                v@ == seq!['-'] + digits@.take(i as int),
            decreases digits@.len() - i,
        {
            v.push(digits[i]);
            assert(digits@.take(i + 1) == digits@.take(i as int).push(digits@[i as int]));
            i = i + 1;
        }
        assert(digits@.take(digits@.len() as int) == digits@);
        v
    } else {
        decimal_u64(n as u64)
    }
}

} // verus!
