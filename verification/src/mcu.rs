//! MCU-facing domain primitives: the I/O port letter, the pin index, and
//! the stop-bit width.

use vstd::prelude::*;
use vstd::string::StrSliceExecFns;
use crate::decimal::{is_dec_digit, dec_val, lemma_dec_val_snoc};

pub use crate::frequency::Frequency;

verus! {

/// An I/O port, normalised to an upper-case letter out of the fixed set
/// the MCU family offers.
#[derive(Clone, Copy, PartialEq, Eq, Structural, Debug)]
pub struct Port {
    letter: char,
}

/// A pin index on a port, in the range 0 to 7.
#[derive(Clone, Copy, PartialEq, Eq, Structural, Debug)]
pub struct Pin {
    number: u8,
}

/// The stop-bit width of a frame.
#[derive(Clone, Copy, PartialEq, Eq, Structural, Debug)]
pub enum StopBits {
    One,
    Two,
    OneAndHalf,
}

/// The upper-case image of one character, folding only the ASCII letters.
pub open spec fn to_upper_char(c: char) -> char {
    if 'a' <= c && c <= 'z' {
        ((c as u8) - 32) as char
    } else {
        c
    }
}

/// The ports available on the MCU family.
pub open spec fn is_available_port(c: char) -> bool {
    c == 'A' || c == 'B' || c == 'C'
}

/// What port parsing yields: the input must be one character long, and
/// its upper-case image must be an available port.
pub open spec fn spec_parse_port(s: Seq<char>) -> Result<char, Seq<char>> {
    if s.len() != 1 {
        Err("Port should be represented as a single character (ABC)"@)
    } else if is_available_port(to_upper_char(s[0])) {
        Ok(to_upper_char(s[0]))
    } else {
        Err("Unknown port"@)
    }
}

/// Every character is a decimal digit.
pub open spec fn all_dec_digits(s: Seq<char>) -> bool {
    forall|j: int| 0 <= j < s.len() ==> is_dec_digit(#[trigger] s[j])
}

/// The digit run of a pin spelling: everything after one optional
/// leading plus sign.
pub open spec fn pin_digits(s: Seq<char>) -> Seq<char> {
    if s.len() >= 1 && s[0] == '+' {
        s.skip(1)
    } else {
        s
    }
}

/// What pin parsing yields: an optional leading plus sign, then a run of
/// digits denoting a value that fits in eight bits and is at most 7.
pub open spec fn spec_parse_pin(s: Seq<char>) -> Result<u8, Seq<char>> {
    let digits = pin_digits(s);
    if digits.len() == 0 || !all_dec_digits(digits) {
        Err("Invalid pin number"@)
    } else if dec_val(digits) > u8::MAX {
        Err("Invalid pin number"@)
    } else if dec_val(digits) > 7 {
        Err("Pin can't be bigger than 7"@)
    } else {
        Ok(dec_val(digits) as u8)
    }
}

/// What stop-bit parsing yields: an exact match against the three
/// accepted literals.
pub open spec fn spec_parse_stop_bits(s: Seq<char>) -> Result<StopBits, Seq<char>> {
    if s.len() == 1 && s[0] == '1' {
        Ok(StopBits::One)
    } else if s.len() == 1 && s[0] == '2' {
        Ok(StopBits::Two)
    } else if s.len() == 3 && s[0] == '1' && s[1] == '.' && s[2] == '5' {
        Ok(StopBits::OneAndHalf)
    } else {
        Err("Invalid stop bits value"@)
    }
}

impl Port {
    /// The port letter.
    pub closed spec fn spec_char(&self) -> char {
        self.letter
    }

    pub fn char(&self) -> (r: char)
        ensures
            r == self.spec_char(),
    {
        self.letter
    }

    /// Parses a port: one letter, case-insensitive, out of the available
    /// set.
    pub fn parse(s: &str) -> (r: Result<Port, String>)
        ensures
            match spec_parse_port(s@) {
                Ok(c) => r is Ok && r->Ok_0.spec_char() == c && is_available_port(c),
                Err(m) => r is Err && r->Err_0@ == m,
            },
    {
        if s.unicode_len() != 1 {
            return Err("Port should be represented as a single character (ABC)".to_owned());
        }
        let c = s.get_char(0);
        let upper = if c >= 'a' && c <= 'z' {
            ((c as u8) - 32) as char
        } else {
            c
        };
        if upper == 'A' || upper == 'B' || upper == 'C' {
            Ok(Port { letter: upper })
        } else {
            Err("Unknown port".to_owned())
        }
    }
}

impl Pin {
    /// The pin index.
    pub closed spec fn spec_num(&self) -> u8 {
        self.number
    }

    pub fn num(&self) -> (r: u8)
        ensures
            r == self.spec_num(),
    {
        self.number
    }

    /// Parses a pin index: an optional leading plus sign, then digits
    /// only, value at most 7.
    pub fn parse(s: &str) -> (r: Result<Pin, String>)
        ensures
            match spec_parse_pin(s@) {
                Ok(v) => r is Ok && r->Ok_0.spec_num() == v && v <= 7,
                Err(m) => r is Err && r->Err_0@ == m,
            },
    {
        let n = s.unicode_len();
        let start: usize = if n >= 1 && s.get_char(0) == '+' {
            1
        } else {
            0
        };
        let ghost digits = pin_digits(s@);
        proof {
            assert(digits =~= s@.subrange(start as int, n as int));
        }
        if start == n {
            return Err("Invalid pin number".to_owned());
        }
        let mut value: u32 = 0;
        let mut j: usize = start;
        while j < n
            invariant
                start <= j <= n,
                n == s@.len(),
                digits == pin_digits(s@),
                digits == s@.subrange(start as int, n as int),
                forall|k: int| start <= k < j ==> is_dec_digit(s@[k]),
                value <= u8::MAX ==> value == dec_val(s@.subrange(start as int, j as int)),
                value > u8::MAX ==> value <= 2559 && dec_val(
                    s@.subrange(start as int, j as int),
                ) > u8::MAX,
            decreases n - j,
        {
            let c = s.get_char(j);
            if c < '0' || c > '9' {
                proof {
                    assert(digits[j - start] == s@[j as int]);
                    assert(!all_dec_digits(digits)) by {
                        assert(!is_dec_digit(digits[j - start]));
                    }
                }
                return Err("Invalid pin number".to_owned());
            }
            let ghost before = s@.subrange(start as int, j as int);
            proof {
                assert(before.push(s@[j as int]) =~= s@.subrange(start as int, j as int + 1));
                lemma_dec_val_snoc(before, s@[j as int]);
            }
            let d = c as u32 - 48;
            if value <= u8::MAX as u32 {
                value = value * 10 + d;
            }
            j = j + 1;
        }
        proof {
            assert(all_dec_digits(digits)) by {
                assert forall|k: int| 0 <= k < digits.len() implies is_dec_digit(
                    #[trigger] digits[k],
                ) by {
                    assert(digits[k] == s@[start + k]);
                }
            }
        }
        if value > u8::MAX as u32 {
            Err("Invalid pin number".to_owned())
        } else if value > 7 {
            Err("Pin can't be bigger than 7".to_owned())
        } else {
            Ok(Pin { number: value as u8 })
        }
    }
}

impl StopBits {
    /// Parses a stop-bit width from one of the literals `1`, `2`, `1.5`.
    pub fn parse(s: &str) -> (r: Result<StopBits, String>)
        ensures
            match spec_parse_stop_bits(s@) {
                Ok(v) => r == Ok::<StopBits, String>(v),
                Err(m) => r is Err && r->Err_0@ == m,
            },
    {
        let n = s.unicode_len();
        if n == 1 {
            let c = s.get_char(0);
            if c == '1' {
                return Ok(StopBits::One);
            }
            if c == '2' {
                return Ok(StopBits::Two);
            }
        } else if n == 3 {
            if s.get_char(0) == '1' && s.get_char(1) == '.' && s.get_char(2) == '5' {
                return Ok(StopBits::OneAndHalf);
            }
        }
        Err("Invalid stop bits value".to_owned())
    }
}

} // verus!
