//! Line configuration and the configuration resolver.
//!
//! A [`Config`] is the declarative description of a serial line (baud rate,
//! parity, stop bits). The resolver turns it, together with the peripheral
//! clock frequency, into the concrete register field values of a
//! [`RegisterPlan`].

use vstd::prelude::*;

verus! {

/// Parity mode of the line.
#[derive(Clone, Copy, Debug, PartialEq, Eq, Structural)]
pub enum Parity {
    ParityNone,
    ParityEven,
    ParityOdd,
}

/// Number of stop bits of the line.
#[derive(Clone, Copy, Debug, PartialEq, Eq, Structural)]
pub enum StopBits {
    /// 1 stop bit
    STOP1,
    /// 0.5 stop bits
    STOP0P5,
    /// 2 stop bits
    STOP2,
    /// 1.5 stop bits
    STOP1P5,
}

/// Declarative line configuration: baud rate in bits per second, parity and
/// stop bits. Immutable once handed to initialization.
#[derive(Clone, Copy, Debug, PartialEq, Eq, Structural)]
pub struct Config {
    pub baudrate: u32,
    pub parity: Parity,
    pub stopbits: StopBits,
}

impl Config {
    pub fn baudrate(self, baudrate: u32) -> (c: Config)
        ensures
            c == (Config { baudrate, ..self }),
    {
        Config { baudrate, ..self }
    }

    pub fn parity_none(self) -> (c: Config)
        ensures
            c == (Config { parity: Parity::ParityNone, ..self }),
    {
        Config { parity: Parity::ParityNone, ..self }
    }

    pub fn parity_even(self) -> (c: Config)
        ensures
            c == (Config { parity: Parity::ParityEven, ..self }),
    {
        Config { parity: Parity::ParityEven, ..self }
    }

    pub fn parity_odd(self) -> (c: Config)
        ensures
            c == (Config { parity: Parity::ParityOdd, ..self }),
    {
        Config { parity: Parity::ParityOdd, ..self }
    }

    pub fn stopbits(self, stopbits: StopBits) -> (c: Config)
        ensures
            c == (Config { stopbits, ..self }),
    {
        Config { stopbits, ..self }
    }
}

impl Default for Config {
    /// The default line: 115200 baud, no parity, one stop bit.
    fn default() -> (c: Config)
        ensures
            c == (Config {
                baudrate: 115200u32,
                parity: Parity::ParityNone,
                stopbits: StopBits::STOP1,
            }),
    {
        Config { baudrate: 115200, parity: Parity::ParityNone, stopbits: StopBits::STOP1 }
    }
}

/// Register encoding of a stop-bit choice: {1 -> 0b00, 0.5 -> 0b01,
/// 2 -> 0b10, 1.5 -> 0b11}.
pub open spec fn stop_code_of(s: StopBits) -> u8 {
    match s {
        StopBits::STOP1 => 0u8,
        StopBits::STOP0P5 => 1u8,
        StopBits::STOP2 => 2u8,
        StopBits::STOP1P5 => 3u8,
    }
}

/// A configuration is feasible at a clock frequency when the baud rate is
/// positive and the integer divisor `clock_hz / baudrate` is at least 16,
/// the smallest divisor the peripheral can represent.
pub open spec fn feasible(c: Config, clock_hz: u32) -> bool {
    c.baudrate > 0 && clock_hz / c.baudrate >= 16
}

/// Concrete register field values derived from a [`Config`] and a clock
/// frequency: the baud divisor, the coupled word-length/parity flags and the
/// stop-bit code.
#[derive(Clone, Copy, Debug, PartialEq, Eq, Structural)]
pub struct RegisterPlan {
    /// Baud-rate divisor, `clock_hz / baudrate`.
    pub divisor: u32,
    /// Extended word length (9 data bit positions). On this peripheral family
    /// the parity bit occupies a data bit position, so this is set exactly
    /// when parity is enabled.
    pub word_length: bool,
    /// Parity control enable.
    pub parity_enable: bool,
    /// Parity polarity: set for odd parity.
    pub parity_odd: bool,
    /// Stop-bit code, see [`stop_code_of`].
    pub stop_code: u8,
}

/// The register plan a configuration resolves to at a given clock frequency.
pub open spec fn plan_of(c: Config, clock_hz: u32) -> RegisterPlan {
    RegisterPlan {
        divisor: clock_hz / c.baudrate,
        word_length: !(c.parity is ParityNone),
        parity_enable: !(c.parity is ParityNone),
        parity_odd: c.parity is ParityOdd,
        stop_code: stop_code_of(c.stopbits),
    }
}

/// Resolves a feasible configuration to its register plan. A baud rate the
/// clock cannot reach is a programming error: it is excluded here, and
/// [`try_resolve`] reports it as `None` instead of silently clamping.
pub fn resolve(c: &Config, clock_hz: u32) -> (p: RegisterPlan)
    requires
        feasible(*c, clock_hz),
    ensures
        p == plan_of(*c, clock_hz),
{
    let divisor = clock_hz / c.baudrate;
    let (word_length, parity_enable, parity_odd) = match c.parity {
        Parity::ParityNone => (false, false, false),
        Parity::ParityEven => (true, true, false),
        Parity::ParityOdd => (true, true, true),
    };
    let stop_code: u8 = match c.stopbits {
        StopBits::STOP1 => 0,
        StopBits::STOP0P5 => 1,
        StopBits::STOP2 => 2,
        StopBits::STOP1P5 => 3,
    };
    RegisterPlan { divisor, word_length, parity_enable, parity_odd, stop_code }
}

/// Resolves a configuration, reporting an infeasible baud rate as `None` —
/// never clamping it to a reachable one.
pub fn try_resolve(c: &Config, clock_hz: u32) -> (p: Option<RegisterPlan>)
    ensures
        p is Some <==> feasible(*c, clock_hz),
        p matches Some(plan) ==> plan == plan_of(*c, clock_hz),
{
    if c.baudrate == 0 {
        None
    } else if clock_hz / c.baudrate < 16 {
        None
    } else {
        Some(resolve(c, clock_hz))
    }
}

/// The resolved divisor is exactly the integer division of the clock
/// frequency by the baud rate; nothing is rounded or clamped.
pub proof fn lemma_resolved_divisor(c: Config, clock_hz: u32)
    requires
        feasible(c, clock_hz),
    ensures
        plan_of(c, clock_hz).divisor == clock_hz as int / c.baudrate as int,
        plan_of(c, clock_hz).divisor >= 16,
{
}

/// Enabling parity always sets the extended-word-length flag and disabling
/// parity always clears it: the two are one derived flag, not independent
/// options.
pub proof fn lemma_parity_word_length_coupling(c: Config, clock_hz: u32)
    ensures
        plan_of(c, clock_hz).word_length == plan_of(c, clock_hz).parity_enable,
        plan_of(c, clock_hz).parity_enable == !(c.parity is ParityNone),
{
}

/// The stop-bit encoding is an exact bijection:
/// {1 <-> 0b00, 0.5 <-> 0b01, 2 <-> 0b10, 1.5 <-> 0b11}.
pub proof fn lemma_stop_bits_bijection(a: StopBits, b: StopBits)
    ensures
        stop_code_of(a) == stop_code_of(b) ==> a == b,
        stop_code_of(StopBits::STOP1) == 0,
        stop_code_of(StopBits::STOP0P5) == 1,
        stop_code_of(StopBits::STOP2) == 2,
        stop_code_of(StopBits::STOP1P5) == 3,
{
}

} // verus!
