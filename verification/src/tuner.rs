//! The tuner side: the LNB supply voltage and the interface of tunable devices.
use vstd::prelude::*;

verus! {

/// Supply voltage for the LNB of a satellite antenna.
#[derive(Debug, Clone, Copy, PartialEq, Eq, Structural)]
pub enum Voltage {
    _11v,
    _15v,
    Low,
}

/// `c` with an ASCII upper-case letter turned into its lower-case form.
pub open spec fn ascii_lower(c: char) -> char {
    if 'A' <= c && c <= 'Z' {
        ((c as u32) + 32) as char
    } else {
        c
    }
}

/// Every ASCII letter of `s` in lower case; every other character unchanged.
pub open spec fn ascii_lowercase(s: Seq<char>) -> Seq<char> {
    s.map_values(|c: char| ascii_lower(c))
}

/// The voltage that a (case-insensitive) name denotes, if any.
pub open spec fn voltage_named(s: Seq<char>) -> Option<Voltage> {
    let l = ascii_lowercase(s);
    if l == seq!['1', '1', 'v'] || l == seq!['_', '1', '1', 'v'] {
        Some(Voltage::_11v)
    } else if l == seq!['1', '5', 'v'] || l == seq!['_', '1', '5', 'v'] {
        Some(Voltage::_15v)
    } else if l == seq!['l', 'o', 'w'] {
        Some(Voltage::Low)
    } else {
        None
    }
}

fn lower_char(c: char) -> (r: char)
    ensures
        r == ascii_lower(c),
{
    if 'A' <= c && c <= 'Z' {
        let b: u8 = (c as u8) + 32;
        assert(b == (c as u32) + 32);
        b as char
    } else {
        c
    }
}

fn lowercase_chars(s: &str) -> (v: Vec<char>)
    ensures
        v@ == ascii_lowercase(s@),
{
    let mut v: Vec<char> = Vec::new();
    for c in it: s.chars()
        invariant
            v@ == ascii_lowercase(it.seq().take(it.index() as int)),
    {
        v.push(lower_char(c));
    }
    v
}


fn chars_equal(v: &Vec<char>, expected: &[char]) -> (r: bool)
    ensures
        r == (v@ == expected@),
{
    if v.len() != expected.len() {
        return false;
    }
    let mut i: usize = 0;
    while i < v.len()
        invariant
            i <= v.len(),
            v.len() == expected.len(),
            forall|j: int| 0 <= j < i ==> v@[j] == expected@[j],
        decreases v.len() - i,
    {
        if v[i] != expected[i] {
            return false;
        }
        i = i + 1;
    }
    assert(v@ =~= expected@);
    true
}

impl Voltage {
    /// Reads a voltage from its name, ignoring ASCII case: `11v` or `_11v`, `15v` or `_15v`,
    /// and `low`. Any other text is refused with the message that lists the accepted names.
    pub fn parse(s: &str) -> (r: Result<Voltage, &'static str>)
        ensures
            r matches Ok(v) ==> voltage_named(s@) == Some(v),
            r matches Err(msg) ==> voltage_named(s@) is None && msg@
                == "expected one of: 11v, 15v, low"@,
            voltage_named(s@) is None ==> r is Err,
    {
        let l = lowercase_chars(s);
        let r = if chars_equal(&l, &['1', '1', 'v']) || chars_equal(&l, &['_', '1', '1', 'v']) {
            Ok(Voltage::_11v)
        } else if chars_equal(&l, &['1', '5', 'v']) || chars_equal(&l, &['_', '1', '5', 'v']) {
            Ok(Voltage::_15v)
        } else if chars_equal(&l, &['l', 'o', 'w']) {
            Ok(Voltage::Low)
        } else {
            Err("expected one of: 11v, 15v, low")
        };
        proof {
            assert(seq!['1', '1', 'v'] =~= ['1', '1', 'v']@);
        }
        r
    }
}

/// A tuner that can be tuned to a channel, yielding the tuned device that streams it.
pub trait Tunable: Sized {
    /// The channels this tuner understands.
    type Channel;
    /// The tuned device.
    type Tuner;

    /// Tunes to `ch`, with the LNB supply voltage `lnb` if one is given.
    fn tune(self, ch: Self::Channel, lnb: Option<Voltage>) -> Result<Self::Tuner, std::io::Error>;
}

/// `c` with an ASCII lower-case letter turned into its upper-case form.
pub open spec fn ascii_upper(c: char) -> char {
    if 'a' <= c && c <= 'z' {
        ((c as u32) - 32) as char
    } else {
        c
    }
}

/// Every ASCII letter of `s` in upper case; every other character unchanged.
pub open spec fn ascii_uppercase(s: Seq<char>) -> Seq<char> {
    s.map_values(|c: char| ascii_upper(c))
}

proof fn lemma_lower_of_upper(c: char)
    ensures
        ascii_lower(ascii_upper(c)) == ascii_lower(c),
        ascii_lower(ascii_lower(c)) == ascii_lower(c),
{
    if 'a' <= c && c <= 'z' {
        assert(ascii_upper(c) as u32 == c as u32 - 32);
    }
    if 'A' <= c && c <= 'Z' {
        assert(ascii_lower(c) as u32 == c as u32 + 32);
    }
}

/// Reading a voltage ignores ASCII case: a name, its lower-case form and its upper-case form
/// denote the same voltage, and so do any two names that differ only in ASCII case.
pub proof fn lemma_voltage_name_ignores_case(s: Seq<char>, t: Seq<char>)
    ensures
        voltage_named(s) == voltage_named(ascii_lowercase(s)),
        voltage_named(s) == voltage_named(ascii_uppercase(s)),
        ascii_lowercase(s) == ascii_lowercase(t) ==> voltage_named(s) == voltage_named(t),
{
    assert forall|i: int| 0 <= i < s.len() implies ascii_lowercase(ascii_lowercase(s))[i]
        == ascii_lowercase(s)[i] && ascii_lowercase(ascii_uppercase(s))[i]
        == ascii_lowercase(s)[i] by {
        lemma_lower_of_upper(s[i]);
    }
    assert(ascii_lowercase(ascii_lowercase(s)) =~= ascii_lowercase(s));
    assert(ascii_lowercase(ascii_uppercase(s)) =~= ascii_lowercase(s));
}

/// The names that are read, and nothing else: ignoring ASCII case, `11v` and `_11v` denote
/// 11 V, `15v` and `_15v` denote 15 V, `low` denotes the low setting, and every other text
/// denotes no voltage.
pub proof fn lemma_voltage_names(s: Seq<char>)
    ensures
        voltage_named(s) == Some(Voltage::_11v) <==> (ascii_lowercase(s) == seq!['1', '1', 'v']
            || ascii_lowercase(s) == seq!['_', '1', '1', 'v']),
        voltage_named(s) == Some(Voltage::_15v) <==> (ascii_lowercase(s) == seq!['1', '5', 'v']
            || ascii_lowercase(s) == seq!['_', '1', '5', 'v']),
        voltage_named(s) == Some(Voltage::Low) <==> ascii_lowercase(s) == seq!['l', 'o', 'w'],
{
    let l = ascii_lowercase(s);
    assert(seq!['1', '5', 'v'] != seq!['1', '1', 'v']) by {
        assert(seq!['1', '5', 'v'][1] != seq!['1', '1', 'v'][1]);
    }
    assert(seq!['_', '1', '5', 'v'] != seq!['_', '1', '1', 'v']) by {
        assert(seq!['_', '1', '5', 'v'][2] != seq!['_', '1', '1', 'v'][2]);
    }
    assert(seq!['l', 'o', 'w'] != seq!['1', '1', 'v']) by {
        assert(seq!['l', 'o', 'w'][0] != seq!['1', '1', 'v'][0]);
    }
    assert(seq!['l', 'o', 'w'] != seq!['1', '5', 'v']) by {
        assert(seq!['l', 'o', 'w'][0] != seq!['1', '5', 'v'][0]);
    }
    assert(seq!['1', '5', 'v'] != seq!['_', '1', '1', 'v']);
    assert(seq!['_', '1', '5', 'v'] != seq!['1', '1', 'v']);
    assert(seq!['l', 'o', 'w'] != seq!['_', '1', '1', 'v']);
    assert(seq!['l', 'o', 'w'] != seq!['_', '1', '5', 'v']);
}

/// The name of each voltage as its variant is written, which is also the text that `Debug`
/// writes for it.
pub open spec fn variant_name(v: Voltage) -> Seq<char> {
    match v {
        Voltage::_11v => seq!['_', '1', '1', 'v'],
        Voltage::_15v => seq!['_', '1', '5', 'v'],
        Voltage::Low => seq!['L', 'o', 'w'],
    }
}

/// Each voltage reads back from its variant name.
pub proof fn lemma_variant_name_reads_back(v: Voltage)
    ensures
        voltage_named(variant_name(v)) == Some(v),
{
    assert(ascii_lowercase(seq!['_', '1', '1', 'v']) =~= seq!['_', '1', '1', 'v']);
    assert(ascii_lowercase(seq!['_', '1', '5', 'v']) =~= seq!['_', '1', '5', 'v']);
    assert(ascii_lowercase(seq!['L', 'o', 'w']) =~= seq!['l', 'o', 'w']);
    assert(seq!['_', '1', '5', 'v'] != seq!['1', '1', 'v']);
    assert(seq!['_', '1', '5', 'v'] != seq!['_', '1', '1', 'v']) by {
        assert(seq!['_', '1', '5', 'v'][2] != seq!['_', '1', '1', 'v'][2]);
    }
    assert(seq!['l', 'o', 'w'] != seq!['1', '1', 'v']) by {
        assert(seq!['l', 'o', 'w'][0] != seq!['1', '1', 'v'][0]);
    }
    assert(seq!['l', 'o', 'w'] != seq!['1', '5', 'v']) by {
        assert(seq!['l', 'o', 'w'][0] != seq!['1', '5', 'v'][0]);
    }
}

impl core::str::FromStr for Voltage {
    type Err = &'static str;

    fn from_str(s: &str) -> (r: Result<Self, Self::Err>)
        ensures
            r matches Ok(v) ==> voltage_named(s@) == Some(v),
            r matches Err(msg) ==> voltage_named(s@) is None && msg@
                == "expected one of: 11v, 15v, low"@,
            voltage_named(s@) is None ==> r is Err,
    {
        Voltage::parse(s)
    }
}

} // verus!
