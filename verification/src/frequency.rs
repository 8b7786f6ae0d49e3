//! Clock frequency: a non-negative count of cycles per second, parsed from
//! `<digits>[hz|khz|mhz]` (suffix case-insensitive, empty suffix meaning
//! hertz), with overflow detection over the 32-bit unsigned range.

use vstd::prelude::*;
use vstd::string::StrSliceExecFns;
use crate::decimal::{is_dec_digit, dec_val, dec_digits, lemma_dec_val_snoc, lemma_dec_digits_wf,
    lemma_dec_val_of_digits};

verus! {

#[derive(Clone, Copy, PartialEq, Eq, Structural, Debug)]
pub struct Frequency {
    hz: u32,
}

/// The index of the first non-digit character at or after `i`, or the
/// length of `s` if every character from `i` on is a digit.
pub open spec fn digits_end(s: Seq<char>, i: int) -> int
    recommends
        0 <= i <= s.len(),
    decreases s.len() - i,
    when 0 <= i <= s.len()
{
    if i >= s.len() {
        i
    } else if !is_dec_digit(s[i]) {
        i
    } else {
        digits_end(s, i + 1)
    }
}

proof fn lemma_digits_end_scan(s: Seq<char>, i: int)
    requires
        0 <= i <= s.len(),
        forall|j: int| 0 <= j < i ==> is_dec_digit(s[j]),
        i == s.len() || !is_dec_digit(s[i]),
    ensures
        digits_end(s, 0) == i,
{
    lemma_digits_end_scan_from(s, 0, i);
}

proof fn lemma_digits_end_scan_from(s: Seq<char>, k: int, i: int)
    requires
        0 <= k <= i <= s.len(),
        forall|j: int| k <= j < i ==> is_dec_digit(s[j]),
        i == s.len() || !is_dec_digit(s[i]),
    ensures
        digits_end(s, k) == i,
    decreases i - k,
{
    if k < i {
        lemma_digits_end_scan_from(s, k + 1, i);
    }
}

/// The lower-case image of one character, folding only the ASCII letters.
pub open spec fn to_lower_char(c: char) -> char {
    if 'A' <= c && c <= 'Z' {
        ((c as u8) + 32) as char
    } else {
        c
    }
}

/// The unit multiplier denoted by a suffix: `hz`, `khz` or `mhz`, compared
/// after ASCII case folding.
pub open spec fn suffix_multiplier(s: Seq<char>) -> Option<u32> {
    if s.len() == 2 && to_lower_char(s[0]) == 'h' && to_lower_char(s[1]) == 'z' {
        Some(1u32)
    } else if s.len() == 3 && to_lower_char(s[0]) == 'k' && to_lower_char(s[1]) == 'h'
        && to_lower_char(s[2]) == 'z' {
        Some(1000u32)
    } else if s.len() == 3 && to_lower_char(s[0]) == 'm' && to_lower_char(s[1]) == 'h'
        && to_lower_char(s[2]) == 'z' {
        Some(1000000u32)
    } else {
        None
    }
}

/// What parsing yields on any input: the digit prefix is read as a 32-bit
/// unsigned value, the remainder as a unit suffix, and the product must
/// still fit in 32 bits.
pub open spec fn spec_parse_frequency(s: Seq<char>) -> Result<u32, Seq<char>> {
    let e = digits_end(s, 0);
    let prefix = s.subrange(0, e);
    if e == 0 || dec_val(prefix) > u32::MAX {
        Err("Frequency is not a number"@)
    } else if e == s.len() {
        Ok(dec_val(prefix) as u32)
    } else {
        match suffix_multiplier(s.subrange(e, s.len() as int)) {
            Option::None => Err("Invalid frequency suffix"@),
            Option::Some(m) => {
                if dec_val(prefix) * m > u32::MAX {
                    Err("Frequency is too big"@)
                } else {
                    Ok((dec_val(prefix) * m) as u32)
                }
            },
        }
    }
}

/// Exec mirror of `to_lower_char`.
fn to_lower(c: char) -> (r: char)
    ensures
        r == to_lower_char(c),
{
    if c >= 'A' && c <= 'Z' {
        ((c as u8) + 32) as char
    } else {
        c
    }
}

/// Exec digit test mirroring `is_dec_digit`.
fn is_digit_char(c: char) -> (r: bool)
    ensures
        r == is_dec_digit(c),
{
    c >= '0' && c <= '9'
}

impl Frequency {
    /// The frequency in hertz.
    pub closed spec fn spec_hz(&self) -> u32 {
        self.hz
    }

    pub fn hz(self) -> (r: u32)
        ensures
            r == self.spec_hz(),
    {
        self.hz
    }

    /// Parses `<digits>[hz|khz|mhz]`; rejects a missing or over-wide digit
    /// prefix, an unknown suffix, and a product over the 32-bit range.
    pub fn parse(s: &str) -> (r: Result<Frequency, String>)
        ensures
            match spec_parse_frequency(s@) {
                Ok(v) => r is Ok && r->Ok_0.spec_hz() == v,
                Err(m) => r is Err && r->Err_0@ == m,
            },
    {
        let n = s.unicode_len();
        let mut i: usize = 0;
        while i < n
            invariant
                i <= n,
                n == s@.len(),
                forall|j: int| 0 <= j < i ==> is_dec_digit(s@[j]),
            ensures
                i <= n,
                n == s@.len(),
                forall|j: int| 0 <= j < i ==> is_dec_digit(s@[j]),
                i == n || !is_dec_digit(s@[i as int]),
            decreases n - i,
        {
            let c = s.get_char(i);
            if !is_digit_char(c) {
                break ;
            }
            i = i + 1;
        }
        proof {
            lemma_digits_end_scan(s@, i as int);
        }
        if i == 0 {
            proof {
                assert(s@.subrange(0, 0) =~= Seq::<char>::empty());
            }
            return Err("Frequency is not a number".to_owned());
        }
        let ghost prefix = s@.subrange(0, i as int);
        let mut value: u64 = 0;
        let mut j: usize = 0;
        while j < i
            invariant
                j <= i <= n,
                n == s@.len(),
                forall|k: int| 0 <= k < i ==> is_dec_digit(s@[k]),
                prefix == s@.subrange(0, i as int),
                value <= u32::MAX ==> value == dec_val(s@.subrange(0, j as int)),
                value > u32::MAX ==> value <= 0xf_ffff_ffffu64 && dec_val(
                    s@.subrange(0, j as int),
                ) > u32::MAX,
            decreases i - j,
        {
            let c = s.get_char(j);
            let ghost before = s@.subrange(0, j as int);
            proof {
                assert(before.push(s@[j as int]) =~= s@.subrange(0, j as int + 1));
                lemma_dec_val_snoc(before, s@[j as int]);
            }
            let d = (c as u32 - 48) as u64;
            if value <= u32::MAX as u64 {
                value = value * 10 + d;
            }
            j = j + 1;
        }
        proof {
            assert(s@.subrange(0, i as int) =~= prefix);
        }
        if value > u32::MAX as u64 {
            return Err("Frequency is not a number".to_owned());
        }
        if i == n {
            return Ok(Frequency { hz: value as u32 });
        }
        let suffix_len = n - i;
        let multiplier: u32 = if suffix_len == 2 {
            let c0 = to_lower(s.get_char(i));
            let c1 = to_lower(s.get_char(i + 1));
            if c0 == 'h' && c1 == 'z' {
                1
            } else {
                return Err("Invalid frequency suffix".to_owned());
            }
        } else if suffix_len == 3 {
            let c0 = to_lower(s.get_char(i));
            let c1 = to_lower(s.get_char(i + 1));
            let c2 = to_lower(s.get_char(i + 2));
            if c0 == 'k' && c1 == 'h' && c2 == 'z' {
                1000
            } else if c0 == 'm' && c1 == 'h' && c2 == 'z' {
                1000000
            } else {
                return Err("Invalid frequency suffix".to_owned());
            }
        } else {
            return Err("Invalid frequency suffix".to_owned());
        };
        proof {
            assert(value * multiplier <= 0xffff_ffff_u64 * 1000000) by (nonlinear_arith)
                requires
                    value <= 0xffff_ffff_u64,
                    multiplier <= 1000000,
            ;
        }
        let product = value * (multiplier as u64);
        if product > u32::MAX as u64 {
            Err("Frequency is too big".to_owned())
        } else {
            Ok(Frequency { hz: product as u32 })
        }
    }

    /// The canonical form: the value in hertz, with no suffix.
    pub fn format_hz(&self) -> (r: String)
        ensures
            r@ == dec_digits(self.spec_hz() as nat),
    {
        crate::decimal::u32_to_decimal(self.hz)
    }
}

/// Law: parsing is idempotent through the canonical form. Formatting a
/// parsed frequency as plain hertz and parsing it again yields the same
/// value.
pub proof fn lemma_parse_format_round_trip(f: Frequency)
    ensures
        spec_parse_frequency(dec_digits(f.spec_hz() as nat)) == Ok::<u32, Seq<char>>(f.spec_hz()),
{
    let d = dec_digits(f.spec_hz() as nat);
    lemma_dec_digits_wf(f.spec_hz() as nat);
    lemma_dec_val_of_digits(f.spec_hz() as nat);
    lemma_digits_end_scan(d, d.len() as int);
    assert(d.subrange(0, d.len() as int) =~= d);
}

} // verus!
