//! Working keys for the descrambler, given on the command line as hexadecimal numbers.
use crate::numbers::{bounded_value, chars_of, digit_value, digits_value, parse_u64_from};
use vstd::prelude::*;

verus! {

/// `s` without the `0x` prefixes it starts with (all of them, as `trim_start_matches` does).
pub open spec fn strip_hex_prefixes(s: Seq<char>) -> Seq<char>
    decreases s.len(),
{
    if s.len() >= 2 && s[0] == '0' && s[1] == 'x' {
        strip_hex_prefixes(s.skip(2))
    } else {
        s
    }
}

/// The key that a command-line argument denotes: hexadecimal, after any `0x` prefixes.
pub open spec fn parse_key(s: Seq<char>) -> Option<u64> {
    match bounded_value(strip_hex_prefixes(s), 16, u64::MAX as nat) {
        Some(v) => Some(v as u64),
        None => None,
    }
}

/// Whether every argument of the list denotes a key.
pub open spec fn keys_valid(ks: Seq<String>) -> bool {
    forall|i: int| 0 <= i < ks.len() ==> (#[trigger] parse_key(ks[i]@)) is Some
}

/// The keys that the arguments of a list denote.
pub open spec fn keys_of(ks: Seq<String>) -> Seq<u64> {
    Seq::new(ks.len(), |i: int| parse_key(ks[i]@)->Some_0)
}

/// Why the key arguments cannot be used.
#[derive(Debug, Clone, Copy, PartialEq, Eq, Structural)]
pub enum KeyError {
    /// Only one of the two key lists was given.
    Unpaired,
    /// An argument is not a hexadecimal number that fits in 64 bits.
    InvalidKey,
}

/// What the key arguments amount to: nothing, a pair of key lists, or an error.
pub open spec fn keys_outcome(key0: Option<Seq<String>>, key1: Option<Seq<String>>) -> Result<
    (),
    KeyError,
> {
    match (key0, key1) {
        (None, None) => Ok(()),
        (Some(k0), Some(k1)) => if keys_valid(k0) && keys_valid(k1) {
            Ok(())
        } else {
            Err(KeyError::InvalidKey)
        },
        _ => Err(KeyError::Unpaired),
    }
}

/// The lists of a pair of optional lists, as sequences.
pub open spec fn lists_of(key: &Option<Vec<String>>) -> Option<Seq<String>> {
    match key {
        Some(v) => Some(v@),
        None => None,
    }
}

proof fn lemma_strip_from(s: Seq<char>, i: int)
    requires
        0 <= i <= s.len(),
        i % 2 == 0,
        forall|j: int| 0 <= j < i ==> #[trigger] s[j] == (if j % 2 == 0 {
            '0'
        } else {
            'x'
        }),
    ensures
        strip_hex_prefixes(s) == strip_hex_prefixes(s.skip(i)),
    decreases i,
{
    if i > 0 {
        assert(s[0] == '0');
        assert(s[1] == 'x');
        let t = s.skip(2);
        assert forall|j: int| 0 <= j < i - 2 implies #[trigger] t[j] == (if j % 2 == 0 {
            '0'
        } else {
            'x'
        }) by {
            assert(t[j] == s[j + 2]);
        }
        lemma_strip_from(t, i - 2);
        assert(t.skip(i - 2) =~= s.skip(i));
    } else {
        assert(s.skip(0) =~= s);
    }
}

/// The key that a command-line argument denotes, if it denotes one (see [`parse_key`]).
pub fn parse_key_arg(s: &str) -> (r: Option<u64>)
    ensures
        r == parse_key(s@),
{
    let c = chars_of(s);
    let n = c.len();
    let mut i: usize = 0;
    while i + 1 < n && c[i] == '0' && c[i + 1] == 'x'
        invariant
            c@ == s@,
            n == c.len(),
            i <= n,
            i % 2 == 0,
            forall|j: int| 0 <= j < i ==> #[trigger] c@[j] == (if j % 2 == 0 {
                '0'
            } else {
                'x'
            }),
        decreases n - i,
    {
        i = i + 2;
    }
    proof {
        lemma_strip_from(c@, i as int);
        let t = c@.skip(i as int);
        assert(!(t.len() >= 2 && t[0] == '0' && t[1] == 'x'));
    }
    parse_u64_from(&c, i, 16)
}

/// Whether the key arguments can be used: both lists or neither, every argument a key.
pub fn check_keys(key0: &Option<Vec<String>>, key1: &Option<Vec<String>>) -> (r: Result<
    (),
    KeyError,
>)
    ensures
        r == keys_outcome(lists_of(key0), lists_of(key1)),
{
    match (key0, key1) {
        (None, None) => Ok(()),
        (Some(k0), Some(k1)) => {
            if all_keys_valid(k0) && all_keys_valid(k1) {
                Ok(())
            } else {
                Err(KeyError::InvalidKey)
            }
        },
        _ => Err(KeyError::Unpaired),
    }
}

fn all_keys_valid(ks: &Vec<String>) -> (r: bool)
    ensures
        r == keys_valid(ks@),
{
    let mut i: usize = 0;
    while i < ks.len()
        invariant
            i <= ks.len(),
            forall|j: int| 0 <= j < i ==> (#[trigger] parse_key(ks@[j]@)) is Some,
        decreases ks.len() - i,
    {
        if parse_key_arg(ks[i].as_str()).is_none() {
            return false;
        }
        i = i + 1;
    }
    true
}

fn parse_key_list(ks: &Vec<String>) -> (r: Vec<u64>)
    requires
        keys_valid(ks@),
    ensures
        r@ == keys_of(ks@),
{
    let mut r: Vec<u64> = Vec::new();
    let mut i: usize = 0;
    while i < ks.len()
        invariant
            i <= ks.len(),
            keys_valid(ks@),
            r@ == keys_of(ks@).take(i as int),
        decreases ks.len() - i,
    {
        let k = parse_key_arg(ks[i].as_str());
        assert(parse_key(ks@[i as int]@) is Some);
        match k {
            Some(key) => r.push(key),
            None => {},
        }
        assert(keys_of(ks@).take(i + 1) =~= keys_of(ks@).take(i as int).push(key_at(ks@, i as int)));
        i = i + 1;
    }
    assert(keys_of(ks@).take(ks.len() as int) =~= keys_of(ks@));
    r
}

spec fn key_at(ks: Seq<String>, i: int) -> u64 {
    parse_key(ks[i]@)->Some_0
}

/// The working keys that the command line gives: none when neither list is given, or the
/// keys of both lists, each argument read as hexadecimal after any `0x` prefixes.
/// Only lists that [`check_keys`] accepts can be read.
pub fn parse_keys(key0: Option<Vec<String>>, key1: Option<Vec<String>>) -> (r: Option<
    (Vec<u64>, Vec<u64>),
>)
    requires
        keys_outcome(lists_of(&key0), lists_of(&key1)) is Ok,
    ensures
        match (key0, key1) {
            (Some(k0), Some(k1)) => r matches Some((a, b)) && a@ == keys_of(k0@) && b@
                == keys_of(k1@),
            _ => r is None,
        },
{
    match (key0, key1) {
        (Some(k0), Some(k1)) => {
            let a = parse_key_list(&k0);
            let b = parse_key_list(&k1);
            Some((a, b))
        },
        _ => None,
    }
}

} // verus!

verus! {

/// Whether `c` is a hexadecimal digit of value `x`: `0`-`9`, `a`-`f` or `A`-`F`.
pub open spec fn hex_digit(c: char, x: nat) -> bool {
    ||| '0' <= c <= '9' && x == c as int - '0' as int
    ||| 'a' <= c <= 'f' && x == c as int - 'a' as int + 10
    ||| 'A' <= c <= 'F' && x == c as int - 'A' as int + 10
}

/// A `0x` in front of a key argument changes nothing: any number of them may stand there.
pub proof fn lemma_parse_key_skips_prefix(s: Seq<char>)
    ensures
        parse_key(seq!['0', 'x'] + s) == parse_key(s),
{
    let p = seq!['0', 'x'] + s;
    assert(p.skip(2) =~= s);
}

proof fn lemma_strip_push(s: Seq<char>, c: char)
    requires
        c != 'x',
    ensures
        strip_hex_prefixes(s.push(c)) == strip_hex_prefixes(s).push(c),
    decreases s.len(),
{
    if s.len() >= 2 && s[0] == '0' && s[1] == 'x' {
        assert(s.push(c).skip(2) =~= s.skip(2).push(c));
        lemma_strip_push(s.skip(2), c);
    }
}

/// A key argument is read in base 16: a single hexadecimal digit denotes its value.
pub proof fn lemma_parse_key_single_digit(c: char, x: nat)
    requires
        hex_digit(c, x),
    ensures
        parse_key(seq![c]) == Some(x as u64),
{
    let t = seq![c];
    assert(t.drop_last() =~= Seq::<char>::empty());
    assert(digit_value(c, 16) == Some(x));
    assert(digits_value(t.drop_last(), 16) == Some(0nat));
    assert(digits_value(t, 16) == Some(16 * 0 + x));
}

/// A key argument is read in base 16: one more hexadecimal digit after a key multiplies it by
/// 16 and adds the digit, and the argument is refused once the key no longer fits in 64 bits.
pub proof fn lemma_parse_key_next_digit(s: Seq<char>, v: u64, c: char, x: nat)
    requires
        parse_key(s) == Some(v),
        hex_digit(c, x),
    ensures
        parse_key(s.push(c)) == (if 16 * v + x <= u64::MAX {
            Some((16 * v + x) as u64)
        } else {
            None
        }),
{
    lemma_strip_push(s, c);
    let t = strip_hex_prefixes(s);
    let d = if t.len() > 0 && t[0] == '+' {
        t.drop_first()
    } else {
        t
    };
    let t2 = t.push(c);
    let d2 = if t2.len() > 0 && t2[0] == '+' {
        t2.drop_first()
    } else {
        t2
    };
    assert(d.len() > 0);
    assert(t2[0] == t[0]);
    assert(d2 =~= d.push(c));
    assert(d2.drop_last() =~= d);
    assert(digit_value(c, 16) == Some(x));
    assert(digits_value(d2, 16) == Some(16 * (v as nat) + x));
}

/// What the key arguments amount to: nothing when neither list is given, a refusal as unpaired
/// when exactly one is, and, when both are, a refusal as invalid exactly when some argument of
/// either list is not a key.
pub proof fn lemma_keys_outcome_cases(k0: Option<Seq<String>>, k1: Option<Seq<String>>)
    ensures
        (k0 is None && k1 is None) ==> keys_outcome(k0, k1) == Ok::<(), KeyError>(()),
        (k0 is None) != (k1 is None) ==> keys_outcome(k0, k1) == Err::<(), KeyError>(
            KeyError::Unpaired,
        ),
        (k0 is Some && k1 is Some) ==> (keys_outcome(k0, k1) is Ok <==> (forall|i: int|
            0 <= i < k0->Some_0.len() ==> (#[trigger] parse_key(k0->Some_0[i]@)) is Some) && (
        forall|i: int| 0 <= i < k1->Some_0.len() ==> (#[trigger] parse_key(k1->Some_0[i]@)) is Some)),
        keys_outcome(k0, k1) != Err::<(), KeyError>(KeyError::InvalidKey) || (k0 is Some
            && k1 is Some),
{
    if let (Some(a), Some(b)) = (k0, k1) {
        assert(keys_outcome(k0, k1) is Ok <==> keys_valid(a) && keys_valid(b));
    }
}

} // verus!
