//! Reading and writing unsigned numbers as text, as Rust's `from_str_radix` and `Display` do.
use vstd::prelude::*;
use vstd::string::StringExecFns;

verus! {

/// The value of a digit in `radix` (up to 36): `0`-`9`, then letters of either case.
pub open spec fn digit_value(c: char, radix: nat) -> Option<nat> {
    let v: int = if '0' <= c && c <= '9' {
        c as int - '0' as int
    } else if 'a' <= c && c <= 'z' {
        c as int - 'a' as int + 10
    } else if 'A' <= c && c <= 'Z' {
        c as int - 'A' as int + 10
    } else {
        radix as int
    };
    if v < radix {
        Some(v as nat)
    } else {
        None
    }
}

/// The number that a string of digits in `radix` denotes (0 for no digits), if every character
/// is a digit.
pub open spec fn digits_value(d: Seq<char>, radix: nat) -> Option<nat>
    decreases d.len(),
{
    if d.len() == 0 {
        Some(0)
    } else {
        match (digits_value(d.drop_last(), radix), digit_value(d.last(), radix)) {
            (Some(v), Some(x)) => Some(radix * v + x),
            _ => None,
        }
    }
}

/// The number that `from_str_radix` reads from `s` for an unsigned type: an optional `+`,
/// then at least one digit.
pub open spec fn unsigned_value(s: Seq<char>, radix: nat) -> Option<nat> {
    let digits = if s.len() > 0 && s[0] == '+' {
        s.drop_first()
    } else {
        s
    };
    if digits.len() == 0 {
        None
    } else {
        digits_value(digits, radix)
    }
}

/// `unsigned_value` for a type whose largest value is `max`.
pub open spec fn bounded_value(s: Seq<char>, radix: nat, max: nat) -> Option<nat> {
    match unsigned_value(s, radix) {
        Some(v) => if v <= max {
            Some(v)
        } else {
            None
        },
        None => None,
    }
}

/// The characters of a string.
pub fn chars_of(s: &str) -> (v: Vec<char>)
    ensures
        v@ == s@,
{
    let mut v: Vec<char> = Vec::new();
    for c in it: s.chars()
        invariant
            v@ == it.seq().take(it.index() as int),
    {
        v.push(c);
    }
    v
}

fn digit_of(c: char, radix: u32) -> (r: Option<u64>)
    requires
        2 <= radix <= 36,
    ensures
        r matches Some(x) ==> digit_value(c, radix as nat) == Some(x as nat),
        r is None ==> digit_value(c, radix as nat) is None,
{
    let v: u64 = if '0' <= c && c <= '9' {
        (c as u64) - ('0' as u64)
    } else if 'a' <= c && c <= 'z' {
        (c as u64) - ('a' as u64) + 10
    } else if 'A' <= c && c <= 'Z' {
        (c as u64) - ('A' as u64) + 10
    } else {
        radix as u64
    };
    if v < radix as u64 {
        Some(v)
    } else {
        None
    }
}

proof fn lemma_digits_value_prefix(d: Seq<char>, radix: nat, k: int)
    requires
        0 <= k <= d.len(),
        radix >= 1,
        digits_value(d, radix) is Some,
    ensures
        digits_value(d.take(k), radix) is Some,
        digits_value(d.take(k), radix)->Some_0 <= digits_value(d, radix)->Some_0,
    decreases d.len(),
{
    if k == d.len() {
        assert(d.take(k) =~= d);
    } else {
        lemma_digits_value_prefix(d.drop_last(), radix, k);
        assert(d.drop_last().take(k) =~= d.take(k));
        let v = digits_value(d.drop_last(), radix)->Some_0;
        let x = digit_value(d.last(), radix)->Some_0;
        assert(v <= radix * v + x) by (nonlinear_arith)
            requires
                radix >= 1,
        ;
    }
}

/// A string of digits with a character that is not a digit in `radix` denotes no number.
pub(crate) proof fn lemma_digits_value_none(d: Seq<char>, radix: nat, j: int)
    requires
        0 <= j < d.len(),
        digit_value(d[j], radix) is None,
    ensures
        digits_value(d, radix) is None,
    decreases d.len(),
{
    if j < d.len() - 1 {
        assert(d.drop_last()[j] == d[j]);
        lemma_digits_value_none(d.drop_last(), radix, j);
    }
}

/// The number that `c[from..]` denotes in `radix`, read as `u64::from_str_radix` reads it.
pub fn parse_u64_from(c: &Vec<char>, from: usize, radix: u32) -> (r: Option<u64>)
    requires
        from <= c.len(),
        2 <= radix <= 36,
    ensures
        r matches Some(v) ==> bounded_value(c@.skip(from as int), radix as nat, u64::MAX as nat)
            == Some(v as nat),
        r is None ==> bounded_value(c@.skip(from as int), radix as nat, u64::MAX as nat) is None,
{
    let ghost t = c@.skip(from as int);
    let n = c.len();
    let mut i = from;
    if i < n && c[i] == '+' {
        i = i + 1;
    }
    let ghost digits = c@.skip(i as int);
    assert(digits =~= (if t.len() > 0 && t[0] == '+' {
        t.drop_first()
    } else {
        t
    }));
    if i == n {
        return None;
    }
    let mut value: u64 = 0;
    let mut k: usize = i;
    while k < n
        invariant
            from <= i <= k <= n,
            n == c.len(),
            2 <= radix <= 36,
            t == c@.skip(from as int),
            digits == c@.skip(i as int),
            digits == (if t.len() > 0 && t[0] == '+' {
                t.drop_first()
            } else {
                t
            }),
            digits.len() > 0,
            digits_value(digits.take(k - i), radix as nat) == Some(value as nat),
        decreases n - k,
    {
        let ghost p = digits.take(k - i + 1);
        proof {
            assert(p.drop_last() =~= digits.take(k - i));
            assert(p.last() == c@[k as int]);
        }
        let d = match digit_of(c[k], radix) {
            Some(d) => d,
            None => {
                proof {
                    if digits_value(digits, radix as nat) is Some {
                        lemma_digits_value_prefix(digits, radix as nat, k - i + 1);
                    }
                }
                return None;
            },
        };
        let next = match value.checked_mul(radix as u64) {
            Some(m) => m.checked_add(d),
            None => None,
        };
        match next {
            Some(v) => {
                value = v;
            },
            None => {
                proof {
                    assert(digits_value(p, radix as nat) == Some(
                        (radix * (value as nat) + d) as nat,
                    ));
                    assert(radix * (value as nat) + d > u64::MAX) by (nonlinear_arith)
                        requires
                            value * radix > u64::MAX || value * radix + d > u64::MAX,
                    ;
                    if digits_value(digits, radix as nat) is Some {
                        lemma_digits_value_prefix(digits, radix as nat, k - i + 1);
                    }
                }
                return None;
            },
        }
        k = k + 1;
    }
    assert(digits.take(n - i) =~= digits);
    Some(value)
}

/// The digits of `n` in decimal, most significant first, without leading zeros (`0` for zero).
pub open spec fn decimal(n: nat) -> Seq<char>
    decreases n,
{
    if n < 10 {
        seq![decimal_digit(n)]
    } else {
        decimal(n / 10).push(decimal_digit(n % 10))
    }
}

/// The decimal digit character for a number below ten.
pub open spec fn decimal_digit(d: nat) -> char {
    ('0' as nat + d) as char
}

fn digit_str(d: u64) -> (s: &'static str)
    requires
        d < 10,
    ensures
        s@ == seq![decimal_digit(d as nat)],
{
    let s = if d == 0 {
        "0"
    } else if d == 1 {
        "1"
    } else if d == 2 {
        "2"
    } else if d == 3 {
        "3"
    } else if d == 4 {
        "4"
    } else if d == 5 {
        "5"
    } else if d == 6 {
        "6"
    } else if d == 7 {
        "7"
    } else if d == 8 {
        "8"
    } else {
        "9"
    };
    proof {
        reveal_strlit("0");
        reveal_strlit("1");
        reveal_strlit("2");
        reveal_strlit("3");
        reveal_strlit("4");
        reveal_strlit("5");
        reveal_strlit("6");
        reveal_strlit("7");
        reveal_strlit("8");
        reveal_strlit("9");
    }
    s
}

/// Reading back the decimal digits of a number gives the number.
pub proof fn lemma_decimal_reads_back(n: nat)
    ensures
        digits_value(decimal(n), 10) == Some(n),
        unsigned_value(decimal(n), 10) == Some(n),
    decreases n,
{
    lemma_decimal_digit(n % 10);
    if n < 10 {
        assert(decimal(n).drop_last() =~= Seq::<char>::empty());
        assert(decimal(n).last() == decimal_digit(n % 10));
        assert(digits_value(Seq::<char>::empty(), 10) == Some(0nat));
        assert(digit_value(decimal(n).last(), 10) == Some(n));
        assert(decimal(n).len() == 1);
        assert(digits_value(decimal(n), 10) == Some(10 * 0 + n));
    } else {
        lemma_decimal_reads_back(n / 10);
        assert(decimal(n).drop_last() =~= decimal(n / 10));
        assert(decimal(n).last() == decimal_digit(n % 10));
        assert(10 * (n / 10) + n % 10 == n);
        assert(digits_value(decimal(n), 10) == Some(10 * (n / 10) + n % 10));
    }
    lemma_decimal_digits(n);
    assert('0' <= decimal(n)[0] <= '9');
}

proof fn lemma_decimal_digit(d: nat)
    requires
        d < 10,
    ensures
        '0' <= decimal_digit(d) <= '9',
        digit_value(decimal_digit(d), 10) == Some(d),
{
    assert(decimal_digit(d) as int == '0' as int + d);
}

proof fn lemma_decimal_digits(n: nat)
    ensures
        forall|i: int| 0 <= i < decimal(n).len() ==> '0' <= #[trigger] decimal(n)[i] <= '9',
    decreases n,
{
    lemma_decimal_digit(n % 10);
    if n >= 10 {
        lemma_decimal_digits(n / 10);
        let p = decimal(n / 10);
        assert forall|i: int| 0 <= i < decimal(n).len() implies '0' <= #[trigger] decimal(n)[i]
            <= '9' by {
            if i < p.len() {
                assert(decimal(n)[i] == p[i]);
            }
        }
    }
}

/// Appends the decimal digits of `n` to `text`, as `Display` writes them.
pub fn append_decimal(text: &mut String, n: u64)
    ensures
        final(text)@ == old(text)@ + decimal(n as nat),
    decreases n,
{
    if n >= 10 {
        append_decimal(text, n / 10);
    }
    text.append(digit_str(n % 10));
}

} // verus!
