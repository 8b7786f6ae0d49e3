//! The timing synthesiser: turns a validated configuration into a frozen
//! `UartPlan`-style record, `UartGenerator`, whose cycle counts are exact.
//!
//! The bit period is `freq / baud` rounded to the nearest integer; the
//! synthesiser works with exact rational rounding, `round(n/d) =
//! (2n + d) / (2d)` in integer division, so every accepted plan satisfies
//! its bounds exactly rather than up to floating-point error.

use vstd::prelude::*;
use vstd::arithmetic::div_mod::{lemma_fundamental_div_mod, lemma_mod_division_less_than_divisor};
use vstd::string::StringExecFns;
use crate::mcu::{Frequency, Port, Pin, StopBits};
use crate::config::{AppConfig, AppSubcommand};
use crate::decimal::{dec_digits, u32_to_decimal};

verus! {

/// Name this generator reports in the provenance header of its output.
pub const APP_NAME: &'static str = "freepdk_gen";

pub const APP_VERSION: &'static str = "0.1.0";

/// Ceiling of the wait-loop capacity: a single-byte counter around a
/// four-cycle loop body.
pub const MAX_CLOCKS_PER_BIT: u32 = 1024;

/// Floor under which the fixed-overhead instructions of the bit-bang
/// prologue no longer fit within one bit period.
pub const MIN_CLOCKS_PER_BIT: u32 = 16;

pub const DEFAULT_TOLERANCE_NUMER: u32 = 1;

pub const DEFAULT_TOLERANCE_DENOM: u32 = 100;

/// A clock-deviation tolerance, as the exact fraction numer/denom.
#[derive(Clone, Copy, PartialEq, Eq, Structural, Debug)]
pub struct Tolerance {
    pub numer: u32,
    pub denom: u32,
}

impl Tolerance {
    pub open spec fn wf(self) -> bool {
        self.denom >= 1
    }
}

#[derive(Debug)]
pub enum Error {
    InvalidOptions,
    TooManyClocksPerBit(u32),
    TooManyClocksPerStopBit(u32),
    TooBigClockDeviation(Tolerance),
    VeryFewClocksPerBit(u32),
    VeryFewClocksPerHalfBit(u32),
    TemplateFailure(String),
}

/// `num / den` rounded to the nearest integer, halves away from zero.
pub open spec fn round_div(num: int, den: int) -> int
    recommends
        0 <= num,
        1 <= den,
{
    (2 * num + den) / (2 * den)
}

/// The bit period in clocks: `freq / baud`, rounded.
pub open spec fn spec_clocks_per_bit(freq: int, baud: int) -> int {
    round_div(freq, baud)
}

/// The stop-bit interval in clocks: the bit period scaled by the stop-bit
/// width, rounded from the exact rational rather than from the already
/// rounded bit period.
pub open spec fn spec_clocks_per_stop_bit(freq: int, baud: int, stop_bits: StopBits) -> int {
    match stop_bits {
        StopBits::One => round_div(freq, baud),
        StopBits::Two => round_div(2 * freq, baud),
        StopBits::OneAndHalf => round_div(3 * freq, 2 * baud),
    }
}

/// The half-bit interval in clocks, used for mid-bit sampling on receive.
pub open spec fn spec_clocks_per_half_bit(freq: int, baud: int) -> int {
    round_div(freq, 2 * baud)
}

/// The rounding deviation bound: `|cpb - freq/baud| / (freq/baud) <=
/// numer/denom`, cleared of divisions.
pub open spec fn deviation_within(freq: int, baud: int, cpb: int, tol: Tolerance) -> bool {
    vstd::math::abs(cpb * baud - freq) * tol.denom <= freq * tol.numer
}

/// The outcome the synthesiser owes for every `(freq, baud, stop_bits,
/// tolerance)`: either the exact triple `(clocks_per_bit,
/// clocks_per_stop_bit, clocks_per_half_bit)` or the exact error. A zero
/// baud rate admits no finite bit period and is rejected up front.
pub open spec fn spec_build_outcome(
    freq: int,
    baud: int,
    stop_bits: StopBits,
    tol: Tolerance,
) -> Result<(int, int, int), Error>
    recommends
        0 <= freq <= u32::MAX,
        0 <= baud <= u32::MAX,
{
    if baud == 0 {
        if freq == 0 {
            Err(Error::VeryFewClocksPerBit(0))
        } else {
            Err(Error::TooManyClocksPerBit(u32::MAX))
        }
    } else {
        let cpb = spec_clocks_per_bit(freq, baud);
        if cpb > MAX_CLOCKS_PER_BIT {
            Err(Error::TooManyClocksPerBit(cpb as u32))
        } else if cpb < MIN_CLOCKS_PER_BIT {
            Err(Error::VeryFewClocksPerBit(cpb as u32))
        } else if !deviation_within(freq, baud, cpb, tol) {
            Err(Error::TooBigClockDeviation(tol))
        } else {
            let stop = spec_clocks_per_stop_bit(freq, baud, stop_bits);
            if stop > MAX_CLOCKS_PER_BIT {
                Err(Error::TooManyClocksPerStopBit(stop as u32))
            } else {
                let half = spec_clocks_per_half_bit(freq, baud);
                if half < MIN_CLOCKS_PER_BIT {
                    Err(Error::VeryFewClocksPerHalfBit(half as u32))
                } else {
                    Ok((cpb, stop, half))
                }
            }
        }
    }
}

/// The frozen, fully validated plan handed to the emitter.
#[derive(Debug)]
pub struct UartGenerator {
    pub frequency: Frequency,
    pub baud: u32,
    pub clocks_per_bit: u32,
    pub clocks_per_half_bit: u32,
    pub clocks_per_stop_bit: u32,
    pub tx_port: Port,
    pub tx_pin: Pin,
    pub uart_num: u8,
    pub invert_tx: bool,
    pub rx_port: Port,
    pub rx_pin: Pin,
    pub invert_rx: bool,
    pub tx_function_name: Option<String>,
}

impl UartGenerator {
    /// The min/max invariants every accepted plan satisfies.
    pub open spec fn wf(self) -> bool {
        &&& MIN_CLOCKS_PER_BIT <= self.clocks_per_bit <= MAX_CLOCKS_PER_BIT
        &&& MIN_CLOCKS_PER_BIT <= self.clocks_per_stop_bit <= MAX_CLOCKS_PER_BIT
        &&& MIN_CLOCKS_PER_BIT <= self.clocks_per_half_bit
    }

    pub fn builder() -> (r: UartGeneratorBuilder)
        ensures
            r == UartGeneratorBuilder::empty_spec(),
    {
        UartGeneratorBuilder::default()
    }
}

pub struct UartGeneratorBuilder {
    pub frequency: Option<Frequency>,
    pub baud: Option<u32>,
    pub tx_pin: Option<Pin>,
    pub tx_port: Option<Port>,
    pub invert_tx: bool,
    pub rx_port: Option<Port>,
    pub rx_pin: Option<Pin>,
    pub invert_rx: bool,
    pub max_clock_deviation: Option<Tolerance>,
    pub uart_num: Option<u8>,
    pub stop_bits: Option<StopBits>,
    pub tx_function_name: Option<String>,
}

impl UartGeneratorBuilder {
    pub open spec fn empty_spec() -> UartGeneratorBuilder {
        UartGeneratorBuilder {
            frequency: None,
            baud: None,
            tx_pin: None,
            tx_port: None,
            invert_tx: false,
            rx_port: None,
            rx_pin: None,
            invert_rx: false,
            max_clock_deviation: None,
            uart_num: None,
            stop_bits: None,
            tx_function_name: None,
        }
    }

    /// Every field without a default has been supplied.
    pub open spec fn is_complete(self) -> bool {
        &&& self.frequency is Some
        &&& self.baud is Some
        &&& self.tx_port is Some
        &&& self.tx_pin is Some
        &&& self.rx_port is Some
        &&& self.rx_pin is Some
        &&& self.uart_num is Some
    }

    /// The stop-bit width the plan will use: the supplied one, or one
    /// stop bit.
    pub open spec fn spec_stop_bits(self) -> StopBits {
        if self.stop_bits is Some {
            self.stop_bits.unwrap()
        } else {
            StopBits::One
        }
    }

    /// The tolerance the plan will use: the supplied one, or 1%.
    pub open spec fn spec_tolerance(self) -> Tolerance {
        if self.max_clock_deviation is Some {
            self.max_clock_deviation.unwrap()
        } else {
            Tolerance { numer: DEFAULT_TOLERANCE_NUMER, denom: DEFAULT_TOLERANCE_DENOM }
        }
    }

    /// Copies every field of the active uart subcommand into the builder.
    pub fn load_config(self, config: &AppConfig) -> (r: Result<UartGeneratorBuilder, Error>)
        ensures
            r is Ok,
            ({
                let u = config.subcommand->0;
                let b = r->Ok_0;
                &&& b.frequency == Some(config.freq)
                &&& b.baud == Some(u.baud)
                &&& b.tx_port == Some(u.tx_port)
                &&& b.tx_pin == Some(u.tx_pin)
                &&& b.invert_tx == u.invert_tx
                &&& b.rx_port == Some(u.rx_port)
                &&& b.rx_pin == Some(u.rx_pin)
                &&& b.invert_rx == u.invert_rx
                &&& b.uart_num == Some(u.uart_num)
                &&& b.stop_bits == Some(u.stop_bits)
                &&& b.tx_function_name == u.tx_function_name
                &&& b.max_clock_deviation == self.max_clock_deviation
            }),
    {
        let uart = match &config.subcommand {
            AppSubcommand::Uart(command) => command,
        };
        let tx_function_name = match &uart.tx_function_name {
            Some(name) => Some(name.clone()),
            None => None,
        };
        Ok(
            UartGeneratorBuilder {
                frequency: Some(config.freq),
                baud: Some(uart.baud),
                tx_port: Some(uart.tx_port),
                tx_pin: Some(uart.tx_pin),
                invert_tx: uart.invert_tx,
                rx_port: Some(uart.rx_port),
                rx_pin: Some(uart.rx_pin),
                invert_rx: uart.invert_rx,
                uart_num: Some(uart.uart_num),
                stop_bits: Some(uart.stop_bits),
                tx_function_name,
                max_clock_deviation: self.max_clock_deviation,
            },
        )
    }

    fn validate_all_params_specified(&self) -> (r: Result<(), Error>)
        ensures
            r is Ok <==> self.is_complete(),
            r is Err ==> r->Err_0 is InvalidOptions,
    {
        if self.frequency.is_none() {
            return Err(Error::InvalidOptions);
        }
        if self.baud.is_none() {
            return Err(Error::InvalidOptions);
        }
        if self.tx_port.is_none() {
            return Err(Error::InvalidOptions);
        }
        if self.tx_pin.is_none() {
            return Err(Error::InvalidOptions);
        }
        if self.rx_port.is_none() {
            return Err(Error::InvalidOptions);
        }
        if self.rx_pin.is_none() {
            return Err(Error::InvalidOptions);
        }
        if self.uart_num.is_none() {
            return Err(Error::InvalidOptions);
        }
        Ok(())
    }

    /// Runs the synthesiser: checks feasibility of the requested timing
    /// and freezes the plan, or reports the exact reason it is infeasible.
    pub fn build(self) -> (r: Result<UartGenerator, Error>)
        ensures
            !self.is_complete() ==> (r matches Err(e) && e is InvalidOptions),
            self.is_complete() ==> match spec_build_outcome(
                self.frequency.unwrap().spec_hz() as int,
                self.baud.unwrap() as int,
                self.spec_stop_bits(),
                self.spec_tolerance(),
            ) {
                Err(e) => r matches Err(e2) && e2 == e,
                Ok(nums) => {
                    &&& r is Ok
                    &&& r->Ok_0.wf()
                    &&& r->Ok_0.frequency == self.frequency.unwrap()
                    &&& r->Ok_0.baud == self.baud.unwrap()
                    &&& r->Ok_0.clocks_per_bit == nums.0
                    &&& r->Ok_0.clocks_per_stop_bit == nums.1
                    &&& r->Ok_0.clocks_per_half_bit == nums.2
                    &&& r->Ok_0.tx_port == self.tx_port.unwrap()
                    &&& r->Ok_0.tx_pin == self.tx_pin.unwrap()
                    &&& r->Ok_0.invert_tx == self.invert_tx
                    &&& r->Ok_0.rx_port == self.rx_port.unwrap()
                    &&& r->Ok_0.rx_pin == self.rx_pin.unwrap()
                    &&& r->Ok_0.invert_rx == self.invert_rx
                    &&& r->Ok_0.uart_num == self.uart_num.unwrap()
                    &&& r->Ok_0.tx_function_name == self.tx_function_name
                },
            },
    {
        self.validate_all_params_specified()?;

        let frequency = match self.frequency {
            Some(f) => f,
            None => { return Err(Error::InvalidOptions) },
        };
        let baud = match self.baud {
            Some(b) => b,
            None => { return Err(Error::InvalidOptions) },
        };
        let tx_port = match self.tx_port {
            Some(p) => p,
            None => { return Err(Error::InvalidOptions) },
        };
        let tx_pin = match self.tx_pin {
            Some(p) => p,
            None => { return Err(Error::InvalidOptions) },
        };
        let rx_port = match self.rx_port {
            Some(p) => p,
            None => { return Err(Error::InvalidOptions) },
        };
        let rx_pin = match self.rx_pin {
            Some(p) => p,
            None => { return Err(Error::InvalidOptions) },
        };
        let uart_num = match self.uart_num {
            Some(n) => n,
            None => { return Err(Error::InvalidOptions) },
        };
        let stop_bits = match self.stop_bits {
            Some(s) => s,
            None => StopBits::One,
        };
        let tolerance = match self.max_clock_deviation {
            Some(t) => t,
            None => Tolerance { numer: DEFAULT_TOLERANCE_NUMER, denom: DEFAULT_TOLERANCE_DENOM },
        };

        let f = frequency.hz();
        let ghost fi = f as int;
        let ghost bi = baud as int;
        if baud == 0 {
            if f == 0 {
                return Err(Error::VeryFewClocksPerBit(0));
            } else {
                return Err(Error::TooManyClocksPerBit(u32::MAX));
            }
        }

        let f64v = f as u64;
        let b64v = baud as u64;
        let cpb64 = (2 * f64v + b64v) / (2 * b64v);
        proof {
            lemma_round_div_le_num(fi, bi);
            assert(cpb64 == round_div(fi, bi));
        }
        let clocks_per_bit = cpb64 as u32;

        if clocks_per_bit > MAX_CLOCKS_PER_BIT {
            return Err(Error::TooManyClocksPerBit(clocks_per_bit));
        }
        if clocks_per_bit < MIN_CLOCKS_PER_BIT {
            return Err(Error::VeryFewClocksPerBit(clocks_per_bit));
        }

        proof {
            assert(clocks_per_bit * baud <= 1024 * 0xffff_ffff_i64) by (nonlinear_arith)
                requires
                    clocks_per_bit <= 1024,
                    baud <= 0xffff_ffff_u32,
            ;
        }
        let scaled = (clocks_per_bit as u64) * b64v;
        let diff = if scaled >= f64v {
            scaled - f64v
        } else {
            f64v - scaled
        };
        proof {
            assert(diff == vstd::math::abs(round_div(fi, bi) * bi - fi));
        }
        proof {
            assert(diff * tolerance.denom < 0x1_0000_0000_0000_0000_0000_0000_i128) by (
            nonlinear_arith)
                requires
                    diff <= 0xffff_ffff_ffff_ffff_u64,
                    tolerance.denom <= 0xffff_ffff_u32,
            ;
            assert(f * tolerance.numer < 0x1_0000_0000_0000_0000_0000_0000_i128) by (
            nonlinear_arith)
                requires
                    f <= 0xffff_ffff_u32,
                    tolerance.numer <= 0xffff_ffff_u32,
            ;
        }
        let lhs = (diff as u128) * (tolerance.denom as u128);
        let rhs = (f as u128) * (tolerance.numer as u128);
        if lhs > rhs {
            return Err(Error::TooBigClockDeviation(tolerance));
        }

        let stop64 = match stop_bits {
            StopBits::One => cpb64,
            StopBits::Two => (4 * f64v + b64v) / (2 * b64v),
            StopBits::OneAndHalf => (6 * f64v + 2 * b64v) / (4 * b64v),
        };
        proof {
            assert(stop64 == spec_clocks_per_stop_bit(fi, bi, stop_bits));
            lemma_stop_bit_bounds(fi, bi);
        }
        let clocks_per_stop_bit = stop64 as u32;
        if clocks_per_stop_bit > MAX_CLOCKS_PER_BIT {
            return Err(Error::TooManyClocksPerStopBit(clocks_per_stop_bit));
        }

        let half64 = (2 * f64v + 2 * b64v) / (4 * b64v);
        proof {
            assert(half64 == spec_clocks_per_half_bit(fi, bi));
            lemma_half_bit_bounds(fi, bi);
        }
        let clocks_per_half_bit = half64 as u32;
        if clocks_per_half_bit < MIN_CLOCKS_PER_BIT {
            return Err(Error::VeryFewClocksPerHalfBit(clocks_per_half_bit));
        }

        Ok(
            UartGenerator {
                frequency,
                baud,
                clocks_per_bit,
                clocks_per_half_bit,
                clocks_per_stop_bit,
                tx_port,
                tx_pin,
                uart_num,
                invert_tx: self.invert_tx,
                rx_port,
                rx_pin,
                invert_rx: self.invert_rx,
                tx_function_name: self.tx_function_name,
            },
        )
    }
}

impl Default for UartGeneratorBuilder {
    fn default() -> (r: UartGeneratorBuilder)
        ensures
            r == UartGeneratorBuilder::empty_spec(),
    {
        UartGeneratorBuilder {
            frequency: None,
            baud: None,
            tx_pin: None,
            tx_port: None,
            invert_tx: false,
            rx_port: None,
            rx_pin: None,
            invert_rx: false,
            max_clock_deviation: None,
            uart_num: None,
            stop_bits: None,
            tx_function_name: None,
        }
    }
}

// Fixed-overhead accounting: the constant cycle cost of the instructions
// surrounding each wait loop in the emitted assembly scaffold. These are
// the contract between the synthesiser and the template; changing one
// demands changing the other.
/// The last wait-loop iteration is one cycle shorter, because the
/// decrement-and-skip instruction takes its extra cycle on exit.
pub const WAIT_LOOP_MISSING_CLOCKS: u32 = 1;

pub const TX_SET_WAIT_LOOP_COUNTER_CLOCKS: u32 = 1;

pub const TX_SET_PIN_CLOCKS: u32 = 1;

pub const TX_BIT_SET_LOOP_LAG_CLOCKS: u32 = 5;

pub const TX_RESET_BIT_COUNTER_CLOCKS: u32 = 2;

pub const TX_BIT_COMPARE_AND_SET_PIN_CLOCKS: u32 = 8;

pub const TX_COMPARE_BIT_COUNT_CLOCKS: u32 = 3;

pub const RX_CHECK_START_BIT_CLOCKS: u32 = 2;

pub const RX_FUNCTION_PRELUDE_CLOCKS: u32 = 1;

pub const RX_SET_START_BIT_WAIT_LOOP_COUNTER_CLOCKS: u32 = 1;

pub const RX_VALIDATE_START_BIT_CLOCKS: u32 = 2;

pub const RX_SET_BIT_COUNTER_CLOCKS: u32 = 2;

/// Added back for the half-bit wait: that wait ends inside the bit loop,
/// whose lag the later waits pay for separately.
pub const RX_BIT_LOOP_LAG_CLOCKS: u32 = 6;

pub const RX_SET_BIT_WAIT_LOOP_COUNTER_CLOCKS: u32 = 1;

pub const RX_SHIFT_CARRY_CLOCKS: u32 = 1;

pub const RX_DEC_BIT_COUNTER_CLOCKS: u32 = 1;

pub const RX_CHECK_BIT_CLOCKS: u32 = 3;

pub const RX_CHECK_BIT_COUNTER_CLOCKS: u32 = 3;

/// Clocks the start-bit wait loop and tail must kill.
pub open spec fn spec_tx_start_bit_wait_clocks(cpb: int) -> int {
    cpb - (TX_BIT_SET_LOOP_LAG_CLOCKS + TX_SET_WAIT_LOOP_COUNTER_CLOCKS + TX_SET_PIN_CLOCKS
        + TX_RESET_BIT_COUNTER_CLOCKS) + WAIT_LOOP_MISSING_CLOCKS
}

/// Clocks the data-bit wait loop and tail must kill.
pub open spec fn spec_tx_bit_wait_clocks(cpb: int) -> int {
    cpb - (TX_BIT_COMPARE_AND_SET_PIN_CLOCKS + TX_SET_WAIT_LOOP_COUNTER_CLOCKS
        + TX_COMPARE_BIT_COUNT_CLOCKS) + WAIT_LOOP_MISSING_CLOCKS
}

/// Clocks the stop-bit wait loop and tail must kill.
pub open spec fn spec_tx_stop_bit_wait_clocks(stop: int) -> int {
    stop - (TX_BIT_SET_LOOP_LAG_CLOCKS + TX_SET_PIN_CLOCKS + TX_SET_WAIT_LOOP_COUNTER_CLOCKS)
        + WAIT_LOOP_MISSING_CLOCKS
}

/// Clocks the receive half-bit sync wait must kill.
pub open spec fn spec_rx_start_bit_wait_clocks(half: int) -> int {
    half - (RX_CHECK_START_BIT_CLOCKS + RX_FUNCTION_PRELUDE_CLOCKS
        + RX_SET_START_BIT_WAIT_LOOP_COUNTER_CLOCKS + RX_VALIDATE_START_BIT_CLOCKS
        + RX_SET_BIT_COUNTER_CLOCKS) + WAIT_LOOP_MISSING_CLOCKS + RX_BIT_LOOP_LAG_CLOCKS
}

/// Clocks the receive data-bit wait must kill.
pub open spec fn spec_rx_bit_wait_clocks(cpb: int) -> int {
    cpb - (RX_SHIFT_CARRY_CLOCKS + RX_SET_BIT_WAIT_LOOP_COUNTER_CLOCKS + RX_DEC_BIT_COUNTER_CLOCKS
        + RX_CHECK_BIT_CLOCKS + RX_CHECK_BIT_COUNTER_CLOCKS) + WAIT_LOOP_MISSING_CLOCKS
}

/// The space-optimal instruction sequence for a residual tail of up to
/// three cycles.
pub open spec fn tail_instruction_seq(count: int) -> Seq<Seq<char>>
    recommends
        0 <= count < 4,
{
    if count == 0 {
        seq![]
    } else if count == 1 {
        seq!["nop ; 1T"@]
    } else if count == 2 {
        seq!["goto .+1 ; 2T"@]
    } else {
        seq!["goto .+1 ; 2T"@, "nop ; 1T"@]
    }
}

/// Expands a residual tail of 0 to 3 cycles into the shortest instruction
/// sequence taking exactly that many cycles. A tail of four or more would
/// be a synthesiser error: the wait loop should have absorbed it.
pub fn generate_space_optimal_nop_chain(count: u32) -> (r: Vec<&'static str>)
    requires
        count < 4,
    ensures
        r.deep_view() == tail_instruction_seq(count as int),
{
    let mut r: Vec<&'static str> = Vec::new();
    if count == 1 {
        r.push("nop ; 1T");
    } else if count == 2 {
        r.push("goto .+1 ; 2T");
    } else if count == 3 {
        r.push("goto .+1 ; 2T");
        r.push("nop ; 1T");
    }
    proof {
        assert(r.deep_view() =~~= tail_instruction_seq(count as int));
    }
    r
}

/// Splits a wait interval into whole four-cycle loop iterations and the
/// expanded residual tail.
pub fn decompose_wait_interval(wait_clocks: u32) -> (r: (u32, Vec<&'static str>))
    ensures
        r.0 == wait_clocks as int / 4,
        r.1.deep_view() == tail_instruction_seq(wait_clocks as int % 4),
        4 * (r.0 as int) + wait_clocks as int % 4 == wait_clocks as int,
{
    proof {
        lemma_fundamental_div_mod(wait_clocks as int, 4);
    }
    let loop_iterations = wait_clocks / 4;
    let tail_cycles = wait_clocks % 4;
    let tail = generate_space_optimal_nop_chain(tail_cycles);
    (loop_iterations, tail)
}

/// All substitution variables of the template, as one flat record.
pub struct EmissionContext {
    pub app_name: &'static str,
    pub app_version: &'static str,
    pub frequency: u32,
    pub baud: u32,
    pub tx_function_name: String,
    pub tx_port: char,
    pub tx_pin: u8,
    pub tx_inverted: bool,
    pub tx_start_bit_wait_cycles: u32,
    pub tx_start_bit_tail_wait_instructions: Vec<&'static str>,
    pub tx_bit_wait_cycles: u32,
    pub tx_bit_tail_wait_instructions: Vec<&'static str>,
    pub tx_stop_bit_wait_cycles: u32,
    pub tx_stop_bit_tail_wait_instructions: Vec<&'static str>,
    pub rx_function_name: String,
    pub rx_byte_name: String,
    pub rx_port: char,
    pub rx_pin: u8,
    pub rx_inverted: bool,
    pub rx_start_bit_wait_cycles: u32,
    pub rx_start_bit_tail_wait_instructions: Vec<&'static str>,
    pub rx_bit_wait_cycles: u32,
    pub rx_bit_tail_wait_instructions: Vec<&'static str>,
}

/// The default transmit function name for an instance number.
pub open spec fn spec_default_tx_function_name(num: u8) -> Seq<char> {
    "uart"@ + dec_digits(num as nat) + "_send"@
}

/// The transmit function name a plan emits: the override if one was
/// given, the instance-derived name otherwise.
pub open spec fn spec_tx_function_name(plan: UartGenerator) -> Seq<char> {
    if plan.tx_function_name is Some {
        plan.tx_function_name.unwrap()@
    } else {
        spec_default_tx_function_name(plan.uart_num)
    }
}

/// The receive function name, always instance-derived.
pub open spec fn spec_rx_function_name(num: u8) -> Seq<char> {
    "uart"@ + dec_digits(num as nat) + "_receive"@
}

/// The storage name for the received byte.
pub open spec fn spec_rx_byte_name(num: u8) -> Seq<char> {
    "uart"@ + dec_digits(num as nat) + "_rx_byte"@
}

/// Builds `uart<num><suffix>`.
fn instance_name(num: u8, suffix: &str) -> (r: String)
    ensures
        r@ == "uart"@ + dec_digits(num as nat) + suffix@,
{
    let mut s = "uart".to_owned();
    let digits = u32_to_decimal(num as u32);
    s.append(digits.as_str());
    s.append(suffix);
    s
}

impl UartGenerator {
    /// Computes every substitution variable of the template from the
    /// frozen plan: each wait interval is the target interval less its
    /// fixed overhead, split into loop iterations and residual tail.
    pub fn emission_context(&self) -> (ctx: EmissionContext)
        requires
            self.wf(),
        ensures
            ctx.app_name@ == APP_NAME@,
            ctx.app_version@ == APP_VERSION@,
            ctx.frequency == self.frequency.spec_hz(),
            ctx.baud == self.baud,
            ctx.tx_function_name@ == spec_tx_function_name(*self),
            ctx.tx_port == self.tx_port.spec_char(),
            ctx.tx_pin == self.tx_pin.spec_num(),
            ctx.tx_inverted == self.invert_tx,
            ctx.tx_start_bit_wait_cycles == spec_tx_start_bit_wait_clocks(
                self.clocks_per_bit as int,
            ) / 4,
            ctx.tx_start_bit_tail_wait_instructions.deep_view() == tail_instruction_seq(
                spec_tx_start_bit_wait_clocks(self.clocks_per_bit as int) % 4,
            ),
            ctx.tx_bit_wait_cycles == spec_tx_bit_wait_clocks(self.clocks_per_bit as int) / 4,
            ctx.tx_bit_tail_wait_instructions.deep_view() == tail_instruction_seq(
                spec_tx_bit_wait_clocks(self.clocks_per_bit as int) % 4,
            ),
            ctx.tx_stop_bit_wait_cycles == spec_tx_stop_bit_wait_clocks(
                self.clocks_per_stop_bit as int,
            ) / 4,
            ctx.tx_stop_bit_tail_wait_instructions.deep_view() == tail_instruction_seq(
                spec_tx_stop_bit_wait_clocks(self.clocks_per_stop_bit as int) % 4,
            ),
            ctx.rx_function_name@ == spec_rx_function_name(self.uart_num),
            ctx.rx_byte_name@ == spec_rx_byte_name(self.uart_num),
            ctx.rx_port == self.rx_port.spec_char(),
            ctx.rx_pin == self.rx_pin.spec_num(),
            ctx.rx_inverted == self.invert_rx,
            ctx.rx_start_bit_wait_cycles == spec_rx_start_bit_wait_clocks(
                self.clocks_per_half_bit as int,
            ) / 4,
            ctx.rx_start_bit_tail_wait_instructions.deep_view() == tail_instruction_seq(
                spec_rx_start_bit_wait_clocks(self.clocks_per_half_bit as int) % 4,
            ),
            ctx.rx_bit_wait_cycles == spec_rx_bit_wait_clocks(self.clocks_per_bit as int) / 4,
            ctx.rx_bit_tail_wait_instructions.deep_view() == tail_instruction_seq(
                spec_rx_bit_wait_clocks(self.clocks_per_bit as int) % 4,
            ),
    {
        let tx_start_bit_wait_clocks = self.clocks_per_bit - TX_BIT_SET_LOOP_LAG_CLOCKS
            - TX_SET_WAIT_LOOP_COUNTER_CLOCKS - TX_SET_PIN_CLOCKS - TX_RESET_BIT_COUNTER_CLOCKS
            + WAIT_LOOP_MISSING_CLOCKS;
        let (tx_start_bit_wait_cycles, tx_start_bit_tail_wait_instructions) =
            decompose_wait_interval(tx_start_bit_wait_clocks);

        let tx_bit_wait_clocks = self.clocks_per_bit - TX_BIT_COMPARE_AND_SET_PIN_CLOCKS
            - TX_SET_WAIT_LOOP_COUNTER_CLOCKS - TX_COMPARE_BIT_COUNT_CLOCKS
            + WAIT_LOOP_MISSING_CLOCKS;
        let (tx_bit_wait_cycles, tx_bit_tail_wait_instructions) = decompose_wait_interval(
            tx_bit_wait_clocks,
        );

        let tx_stop_bit_wait_clocks = self.clocks_per_stop_bit - TX_BIT_SET_LOOP_LAG_CLOCKS
            - TX_SET_PIN_CLOCKS - TX_SET_WAIT_LOOP_COUNTER_CLOCKS + WAIT_LOOP_MISSING_CLOCKS;
        let (tx_stop_bit_wait_cycles, tx_stop_bit_tail_wait_instructions) =
            decompose_wait_interval(tx_stop_bit_wait_clocks);

        let rx_start_bit_wait_clocks = self.clocks_per_half_bit - RX_CHECK_START_BIT_CLOCKS
            - RX_FUNCTION_PRELUDE_CLOCKS - RX_SET_START_BIT_WAIT_LOOP_COUNTER_CLOCKS
            - RX_VALIDATE_START_BIT_CLOCKS - RX_SET_BIT_COUNTER_CLOCKS + WAIT_LOOP_MISSING_CLOCKS
            + RX_BIT_LOOP_LAG_CLOCKS;
        let (rx_start_bit_wait_cycles, rx_start_bit_tail_wait_instructions) =
            decompose_wait_interval(rx_start_bit_wait_clocks);

        let rx_bit_wait_clocks = self.clocks_per_bit - RX_SHIFT_CARRY_CLOCKS
            - RX_SET_BIT_WAIT_LOOP_COUNTER_CLOCKS - RX_DEC_BIT_COUNTER_CLOCKS - RX_CHECK_BIT_CLOCKS
            - RX_CHECK_BIT_COUNTER_CLOCKS + WAIT_LOOP_MISSING_CLOCKS;
        let (rx_bit_wait_cycles, rx_bit_tail_wait_instructions) = decompose_wait_interval(
            rx_bit_wait_clocks,
        );

        let tx_function_name = match &self.tx_function_name {
            Some(name) => name.clone(),
            None => instance_name(self.uart_num, "_send"),
        };
        let rx_function_name = instance_name(self.uart_num, "_receive");
        let rx_byte_name = instance_name(self.uart_num, "_rx_byte");

        EmissionContext {
            app_name: APP_NAME,
            app_version: APP_VERSION,
            frequency: self.frequency.hz(),
            baud: self.baud,
            tx_function_name,
            tx_port: self.tx_port.char(),
            tx_pin: self.tx_pin.num(),
            tx_inverted: self.invert_tx,
            tx_start_bit_wait_cycles,
            tx_start_bit_tail_wait_instructions,
            tx_bit_wait_cycles,
            tx_bit_tail_wait_instructions,
            tx_stop_bit_wait_cycles,
            tx_stop_bit_tail_wait_instructions,
            rx_function_name,
            rx_byte_name,
            rx_port: self.rx_port.char(),
            rx_pin: self.rx_pin.num(),
            rx_inverted: self.invert_rx,
            rx_start_bit_wait_cycles,
            rx_start_bit_tail_wait_instructions,
            rx_bit_wait_cycles,
            rx_bit_tail_wait_instructions,
        }
    }
}

/// Law: at every wait point of a well-formed plan, four clocks per loop
/// iteration, less the one clock the final skipping decrement saves, plus
/// the residual tail and the fixed overhead of the surrounding
/// instructions add up exactly to the target interval.
pub proof fn lemma_wait_decomposition_exact(plan: UartGenerator)
    requires
        plan.wf(),
    ensures
        4 * (spec_tx_start_bit_wait_clocks(plan.clocks_per_bit as int) / 4) - 1
            + spec_tx_start_bit_wait_clocks(plan.clocks_per_bit as int) % 4 + (
        TX_BIT_SET_LOOP_LAG_CLOCKS + TX_SET_WAIT_LOOP_COUNTER_CLOCKS + TX_SET_PIN_CLOCKS
            + TX_RESET_BIT_COUNTER_CLOCKS) == plan.clocks_per_bit,
        4 * (spec_tx_bit_wait_clocks(plan.clocks_per_bit as int) / 4) - 1
            + spec_tx_bit_wait_clocks(plan.clocks_per_bit as int) % 4 + (
        TX_BIT_COMPARE_AND_SET_PIN_CLOCKS + TX_SET_WAIT_LOOP_COUNTER_CLOCKS
            + TX_COMPARE_BIT_COUNT_CLOCKS) == plan.clocks_per_bit,
        4 * (spec_tx_stop_bit_wait_clocks(plan.clocks_per_stop_bit as int) / 4) - 1
            + spec_tx_stop_bit_wait_clocks(plan.clocks_per_stop_bit as int) % 4 + (
        TX_BIT_SET_LOOP_LAG_CLOCKS + TX_SET_PIN_CLOCKS + TX_SET_WAIT_LOOP_COUNTER_CLOCKS)
            == plan.clocks_per_stop_bit,
        4 * (spec_rx_start_bit_wait_clocks(plan.clocks_per_half_bit as int) / 4) - 1
            + spec_rx_start_bit_wait_clocks(plan.clocks_per_half_bit as int) % 4 + (
        RX_CHECK_START_BIT_CLOCKS + RX_FUNCTION_PRELUDE_CLOCKS
            + RX_SET_START_BIT_WAIT_LOOP_COUNTER_CLOCKS + RX_VALIDATE_START_BIT_CLOCKS
            + RX_SET_BIT_COUNTER_CLOCKS) == plan.clocks_per_half_bit + RX_BIT_LOOP_LAG_CLOCKS,
        4 * (spec_rx_bit_wait_clocks(plan.clocks_per_bit as int) / 4) - 1
            + spec_rx_bit_wait_clocks(plan.clocks_per_bit as int) % 4 + (RX_SHIFT_CARRY_CLOCKS
            + RX_SET_BIT_WAIT_LOOP_COUNTER_CLOCKS + RX_DEC_BIT_COUNTER_CLOCKS
            + RX_CHECK_BIT_CLOCKS + RX_CHECK_BIT_COUNTER_CLOCKS) == plan.clocks_per_bit,
{
    lemma_fundamental_div_mod(spec_tx_start_bit_wait_clocks(plan.clocks_per_bit as int), 4);
    lemma_fundamental_div_mod(spec_tx_bit_wait_clocks(plan.clocks_per_bit as int), 4);
    lemma_fundamental_div_mod(spec_tx_stop_bit_wait_clocks(plan.clocks_per_stop_bit as int), 4);
    lemma_fundamental_div_mod(spec_rx_start_bit_wait_clocks(plan.clocks_per_half_bit as int), 4);
    lemma_fundamental_div_mod(spec_rx_bit_wait_clocks(plan.clocks_per_bit as int), 4);
}

/// Law: a residual tail is never more than two emitted instructions.
pub proof fn lemma_tail_at_most_two(count: int)
    requires
        0 <= count < 4,
    ensures
        tail_instruction_seq(count).len() <= 2,
{
}

/// Law: the synthesiser accepts exactly the plans that satisfy the
/// min/max bounds and the deviation bound, and its accepted triple is the
/// exactly rounded one.
pub proof fn lemma_accepted_plan_invariants(
    freq: int,
    baud: int,
    stop_bits: StopBits,
    tol: Tolerance,
)
    requires
        0 <= freq <= u32::MAX,
        0 <= baud <= u32::MAX,
        spec_build_outcome(freq, baud, stop_bits, tol) is Ok,
    ensures
        ({
            let nums = spec_build_outcome(freq, baud, stop_bits, tol).unwrap();
            &&& baud >= 1
            &&& nums.0 == spec_clocks_per_bit(freq, baud)
            &&& nums.1 == spec_clocks_per_stop_bit(freq, baud, stop_bits)
            &&& nums.2 == spec_clocks_per_half_bit(freq, baud)
            &&& MIN_CLOCKS_PER_BIT <= nums.0 <= MAX_CLOCKS_PER_BIT
            &&& nums.1 <= MAX_CLOCKS_PER_BIT
            &&& nums.2 >= MIN_CLOCKS_PER_BIT
            &&& deviation_within(freq, baud, nums.0, tol)
        }),
{
}

impl Error {
    /// The diagnostic for this error, one short line.
    pub open spec fn spec_message(self) -> Seq<char> {
        match self {
            Error::InvalidOptions => "Invalid generator options"@,
            Error::TooManyClocksPerBit(n) => dec_digits(n as nat)
                + " clocks per bit is not implemented yet, try lower frequency or higher baud rate"@,
            Error::TooManyClocksPerStopBit(n) => dec_digits(n as nat)
                + " clocks per stop bit is not implemented yet, try lower frequency or higher baud rate"@,
            Error::TooBigClockDeviation(t) => "Clock deviation is higher than allowed "@
                + dec_digits(t.numer as nat) + "/"@ + dec_digits(t.denom as nat),
            Error::VeryFewClocksPerBit(n) => "Calculated clocks count per bit ("@ + dec_digits(
                n as nat,
            ) + ") is too small, try higher frequency or lower baud rate"@,
            Error::VeryFewClocksPerHalfBit(n) => "Calculated clocks count per half bit ("@
                + dec_digits(n as nat) + ") is too small, try higher frequency or lower baud rate"@,
            Error::TemplateFailure(m) => "Template rendering failed: "@ + m@,
        }
    }

    pub fn message(&self) -> (r: String)
        ensures
            r@ == self.spec_message(),
    {
        match self {
            Error::InvalidOptions => "Invalid generator options".to_owned(),
            Error::TooManyClocksPerBit(n) => {
                let mut s = u32_to_decimal(*n);
                s.append(
                    " clocks per bit is not implemented yet, try lower frequency or higher baud rate",
                );
                s
            },
            Error::TooManyClocksPerStopBit(n) => {
                let mut s = u32_to_decimal(*n);
                s.append(
                    " clocks per stop bit is not implemented yet, try lower frequency or higher baud rate",
                );
                s
            },
            Error::TooBigClockDeviation(t) => {
                let mut s = "Clock deviation is higher than allowed ".to_owned();
                let numer = u32_to_decimal(t.numer);
                let denom = u32_to_decimal(t.denom);
                s.append(numer.as_str());
                s.append("/");
                s.append(denom.as_str());
                s
            },
            Error::VeryFewClocksPerBit(n) => {
                let mut s = "Calculated clocks count per bit (".to_owned();
                let digits = u32_to_decimal(*n);
                s.append(digits.as_str());
                s.append(") is too small, try higher frequency or lower baud rate");
                s
            },
            Error::VeryFewClocksPerHalfBit(n) => {
                let mut s = "Calculated clocks count per half bit (".to_owned();
                let digits = u32_to_decimal(*n);
                s.append(digits.as_str());
                s.append(") is too small, try higher frequency or lower baud rate");
                s
            },
            Error::TemplateFailure(m) => {
                let mut s = "Template rendering failed: ".to_owned();
                s.append(m.as_str());
                s
            },
        }
    }
}

/// For positive divisors, a quotient at least `c` means the dividend was
/// at least `c` times the divisor, and conversely.
proof fn lemma_div_lower(x: int, d: int, c: int)
    requires
        1 <= d,
        c * d <= x,
    ensures
        c <= x / d,
{
    lemma_fundamental_div_mod(x, d);
    lemma_mod_division_less_than_divisor(x, d);
    assert(c <= x / d) by (nonlinear_arith)
        requires
            x == d * (x / d) + x % d,
            0 <= x % d < d,
            1 <= d,
            c * d <= x,
    ;
}

proof fn lemma_div_upper(x: int, d: int, c: int)
    requires
        1 <= d,
        0 <= x,
        x < c * d,
    ensures
        x / d < c,
{
    lemma_fundamental_div_mod(x, d);
    lemma_mod_division_less_than_divisor(x, d);
    assert(x / d < c) by (nonlinear_arith)
        requires
            x == d * (x / d) + x % d,
            0 <= x % d < d,
            1 <= d,
            x < c * d,
    ;
}

/// The rounded quotient never exceeds the numerator.
proof fn lemma_round_div_le_num(f: int, b: int)
    requires
        0 <= f,
        1 <= b,
    ensures
        0 <= round_div(f, b) <= f,
{
    lemma_fundamental_div_mod(2 * f + b, 2 * b);
    lemma_mod_division_less_than_divisor(2 * f + b, 2 * b);
    assert(0 <= round_div(f, b) <= f) by (nonlinear_arith)
        requires
            0 <= f,
            1 <= b,
            round_div(f, b) == (2 * f + b) / (2 * b),
            2 * f + b == (2 * b) * ((2 * f + b) / (2 * b)) + (2 * f + b) % (2 * b),
            0 <= (2 * f + b) % (2 * b) < 2 * b,
    ;
}

/// Once the bit period is within bounds, every stop-bit width yields a
/// stop interval within the 32-bit range and at least the minimum.
proof fn lemma_stop_bit_bounds(f: int, b: int)
    requires
        0 <= f,
        1 <= b,
        MIN_CLOCKS_PER_BIT <= round_div(f, b) <= MAX_CLOCKS_PER_BIT,
    ensures
        MIN_CLOCKS_PER_BIT <= round_div(2 * f, b) <= 2 * MAX_CLOCKS_PER_BIT + 2,
        MIN_CLOCKS_PER_BIT <= round_div(3 * f, 2 * b) <= 2 * MAX_CLOCKS_PER_BIT + 2,
{
    lemma_fundamental_div_mod(2 * f + b, 2 * b);
    lemma_mod_division_less_than_divisor(2 * f + b, 2 * b);
    // 16 <= (2f+b)/(2b) <= 1024 pins 2f+b between 32b and strictly under 2050b.
    assert(32 * b <= 2 * f + b && 2 * f + b < 2050 * b) by (nonlinear_arith)
        requires
            1 <= b,
            16 <= (2 * f + b) / (2 * b) <= 1024,
            2 * f + b == (2 * b) * ((2 * f + b) / (2 * b)) + (2 * f + b) % (2 * b),
            0 <= (2 * f + b) % (2 * b) < 2 * b,
    ;
    lemma_div_lower(4 * f + b, 2 * b, 16);
    lemma_div_upper(4 * f + b, 2 * b, 2050);
    lemma_div_lower(6 * f + 2 * b, 4 * b, 16);
    lemma_div_upper(6 * f + 2 * b, 4 * b, 2050);
}

/// The half-bit interval stays within the 32-bit range.
proof fn lemma_half_bit_bounds(f: int, b: int)
    requires
        0 <= f,
        1 <= b,
    ensures
        0 <= round_div(f, 2 * b) <= f,
{
    lemma_fundamental_div_mod(2 * f + 2 * b, 4 * b);
    lemma_mod_division_less_than_divisor(2 * f + 2 * b, 4 * b);
    assert(0 <= (2 * f + 2 * b) / (4 * b) <= f) by (nonlinear_arith)
        requires
            0 <= f,
            1 <= b,
            2 * f + 2 * b == (4 * b) * ((2 * f + 2 * b) / (4 * b)) + (2 * f + 2 * b) % (4 * b),
            0 <= (2 * f + 2 * b) % (4 * b) < 4 * b,
    ;
}

} // verus!
