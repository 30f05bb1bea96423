//! Validated serial-device configuration: the relay accepts only the
//! parameter values the device driver understands, and rejects everything
//! else before the serial link starts.

use vstd::prelude::*;
use vstd::string::StringSliceAdditionalSpecFns;

verus! {

/// Supported line speeds, mirroring the rates a serial driver accepts.
#[derive(Clone, Copy, Debug, PartialEq, Eq, Structural)]
pub enum BaudRate {
    Baud110,
    Baud300,
    Baud600,
    Baud1200,
    Baud2400,
    Baud4800,
    Baud9600,
    Baud19200,
    Baud38400,
    Baud57600,
    Baud115200,
}

/// Flow control modes a session may configure on the device.
#[derive(Clone, Copy, Debug, PartialEq, Eq, Structural)]
pub enum FlowControl {
    FlowNone,
    FlowHardware,
    FlowSoftware,
}

/// Number of data bits per character.
#[derive(Clone, Copy, Debug, PartialEq, Eq, Structural)]
pub enum CharSize {
    Bits5,
    Bits6,
    Bits7,
    Bits8,
}

/// Parity setting of the device.
#[derive(Clone, Copy, Debug, PartialEq, Eq, Structural)]
pub enum Parity {
    ParityNone,
    ParityEven,
    ParityOdd,
}

/// Number of stop bits.
#[derive(Clone, Copy, Debug, PartialEq, Eq, Structural)]
pub enum StopBits {
    Stop1,
    Stop2,
}

/// A configuration value that the device driver would not understand.
#[derive(Clone, Copy, Debug, PartialEq, Eq, Structural)]
pub enum ConfigError {
    InvalidBaudRate,
    InvalidFlowControl,
    InvalidDataBits,
    InvalidParity,
    InvalidStopBits,
}

impl ConfigError {
    /// A short description of the rejected parameter.
    pub fn message(&self) -> (r: &'static str)
        ensures
            r@ == self.spec_message(),
    {
        proof {
            reveal_strlit("invalid baudrate");
            reveal_strlit("invalid flowcontrol");
            reveal_strlit("invalid databits");
            reveal_strlit("invalid parity");
            reveal_strlit("invalid stopbits");
        }
        match self {
            ConfigError::InvalidBaudRate => "invalid baudrate",
            ConfigError::InvalidFlowControl => "invalid flowcontrol",
            ConfigError::InvalidDataBits => "invalid databits",
            ConfigError::InvalidParity => "invalid parity",
            ConfigError::InvalidStopBits => "invalid stopbits",
        }
    }

    pub open spec fn spec_message(&self) -> Seq<char> {
        match self {
            ConfigError::InvalidBaudRate => "invalid baudrate"@,
            ConfigError::InvalidFlowControl => "invalid flowcontrol"@,
            ConfigError::InvalidDataBits => "invalid databits"@,
            ConfigError::InvalidParity => "invalid parity"@,
            ConfigError::InvalidStopBits => "invalid stopbits"@,
        }
    }
}

/// The numeric rates the relay accepts.
pub open spec fn valid_baud(n: u32) -> bool {
    n == 110 || n == 300 || n == 600 || n == 1200 || n == 2400 || n == 4800 || n == 9600
        || n == 19200 || n == 38400 || n == 57600 || n == 115200
}

/// The rate each accepted number maps to; everything else is rejected.
pub open spec fn spec_opt_baudrate(baudrate: u32) -> Result<BaudRate, ConfigError> {
    if baudrate == 110 {
        Result::Ok(BaudRate::Baud110)
    } else if baudrate == 300 {
        Result::Ok(BaudRate::Baud300)
    } else if baudrate == 600 {
        Result::Ok(BaudRate::Baud600)
    } else if baudrate == 1200 {
        Result::Ok(BaudRate::Baud1200)
    } else if baudrate == 2400 {
        Result::Ok(BaudRate::Baud2400)
    } else if baudrate == 4800 {
        Result::Ok(BaudRate::Baud4800)
    } else if baudrate == 9600 {
        Result::Ok(BaudRate::Baud9600)
    } else if baudrate == 19200 {
        Result::Ok(BaudRate::Baud19200)
    } else if baudrate == 38400 {
        Result::Ok(BaudRate::Baud38400)
    } else if baudrate == 57600 {
        Result::Ok(BaudRate::Baud57600)
    } else if baudrate == 115200 {
        Result::Ok(BaudRate::Baud115200)
    } else {
        Result::Err(ConfigError::InvalidBaudRate)
    }
}

/// Maps a numeric baud rate onto the driver's rate set; every rate outside
/// the supported set is a configuration error.
pub fn opt_baudrate(baudrate: u32) -> (r: Result<BaudRate, ConfigError>)
    ensures
        r == spec_opt_baudrate(baudrate),
        r is Ok <==> valid_baud(baudrate),
{
    match baudrate {
        110 => Ok(BaudRate::Baud110),
        300 => Ok(BaudRate::Baud300),
        600 => Ok(BaudRate::Baud600),
        1200 => Ok(BaudRate::Baud1200),
        2400 => Ok(BaudRate::Baud2400),
        4800 => Ok(BaudRate::Baud4800),
        9600 => Ok(BaudRate::Baud9600),
        19200 => Ok(BaudRate::Baud19200),
        38400 => Ok(BaudRate::Baud38400),
        57600 => Ok(BaudRate::Baud57600),
        115200 => Ok(BaudRate::Baud115200),
        _ => Err(ConfigError::InvalidBaudRate),
    }
}

/// Byte-wise comparison of two strings; equal encodings mean equal texts.
fn str_eq(a: &str, b: &str) -> (r: bool)
    ensures
        r == (a@ == b@),
{
    proof {
        vstd::utf8::encode_utf8_decode_utf8(a@);
        vstd::utf8::encode_utf8_decode_utf8(b@);
    }
    let ab = a.as_bytes();
    let bb = b.as_bytes();
    if ab.len() != bb.len() {
        return false;
    }
    let mut i: usize = 0;
    while i < ab.len()
        invariant
            i <= ab@.len(),
            ab@.len() == bb@.len(),
            forall|j: int| 0 <= j < i ==> ab@[j] == bb@[j],
            ab@ == a.spec_bytes(),
            bb@ == b.spec_bytes(),
        decreases ab@.len() - i,
    {
        if ab[i] != bb[i] {
            assert(ab@ != bb@);
            return false;
        }
        i += 1;
    }
    assert(ab@ =~= bb@);
    assert(vstd::utf8::decode_utf8(a.spec_bytes()) == vstd::utf8::decode_utf8(b.spec_bytes()));
    true
}

/// The spellings accepted for "no flow control".
pub open spec fn flow_word_none(s: Seq<char>) -> bool {
    s == "N"@ || s == "n"@ || s == "NONE"@ || s == "none"@
}

/// The spellings accepted for hardware flow control.
pub open spec fn flow_word_hardware(s: Seq<char>) -> bool {
    s == "H"@ || s == "h"@ || s == "HARD"@ || s == "hard"@ || s == "hw"@ || s == "hardware"@
}

/// The spellings accepted for software flow control.
pub open spec fn flow_word_software(s: Seq<char>) -> bool {
    s == "S"@ || s == "s"@ || s == "SOFT"@ || s == "soft"@ || s == "sw"@ || s == "software"@
}

/// The flow-control mode each accepted spelling maps to; everything else
/// is rejected.
pub open spec fn spec_opt_flowcontrol(s: Seq<char>) -> Result<FlowControl, ConfigError> {
    if flow_word_none(s) {
        Result::Ok(FlowControl::FlowNone)
    } else if flow_word_hardware(s) {
        Result::Ok(FlowControl::FlowHardware)
    } else if flow_word_software(s) {
        Result::Ok(FlowControl::FlowSoftware)
    } else {
        Result::Err(ConfigError::InvalidFlowControl)
    }
}

/// Maps a flow-control word onto the driver's modes; any unrecognized
/// spelling is a configuration error.
pub fn opt_flowcontrol(flowcontrol: &str) -> (r: Result<FlowControl, ConfigError>)
    ensures
        r == spec_opt_flowcontrol(flowcontrol@),
{
    if str_eq(flowcontrol, "N") || str_eq(flowcontrol, "n") || str_eq(flowcontrol, "NONE")
        || str_eq(flowcontrol, "none") {
        Ok(FlowControl::FlowNone)
    } else if str_eq(flowcontrol, "H") || str_eq(flowcontrol, "h") || str_eq(flowcontrol, "HARD")
        || str_eq(flowcontrol, "hard") || str_eq(flowcontrol, "hw")
        || str_eq(flowcontrol, "hardware") {
        Ok(FlowControl::FlowHardware)
    } else if str_eq(flowcontrol, "S") || str_eq(flowcontrol, "s") || str_eq(flowcontrol, "SOFT")
        || str_eq(flowcontrol, "soft") || str_eq(flowcontrol, "sw")
        || str_eq(flowcontrol, "software") {
        Ok(FlowControl::FlowSoftware)
    } else {
        Err(ConfigError::InvalidFlowControl)
    }
}

/// The spellings accepted for each parity setting.
pub open spec fn parity_word_none(s: Seq<char>) -> bool {
    s == "N"@ || s == "n"@
}

pub open spec fn parity_word_even(s: Seq<char>) -> bool {
    s == "E"@ || s == "e"@
}

pub open spec fn parity_word_odd(s: Seq<char>) -> bool {
    s == "O"@ || s == "o"@
}

/// The parity each accepted spelling maps to; everything else is rejected.
pub open spec fn spec_opt_parity(s: Seq<char>) -> Result<Parity, ConfigError> {
    if parity_word_none(s) {
        Result::Ok(Parity::ParityNone)
    } else if parity_word_even(s) {
        Result::Ok(Parity::ParityEven)
    } else if parity_word_odd(s) {
        Result::Ok(Parity::ParityOdd)
    } else {
        Result::Err(ConfigError::InvalidParity)
    }
}

/// Maps a parity word onto the driver's settings; any unrecognized spelling
/// is a configuration error.
pub fn opt_parity(parity: &str) -> (r: Result<Parity, ConfigError>)
    ensures
        r == spec_opt_parity(parity@),
{
    if str_eq(parity, "N") || str_eq(parity, "n") {
        Ok(Parity::ParityNone)
    } else if str_eq(parity, "E") || str_eq(parity, "e") {
        Ok(Parity::ParityEven)
    } else if str_eq(parity, "O") || str_eq(parity, "o") {
        Ok(Parity::ParityOdd)
    } else {
        Err(ConfigError::InvalidParity)
    }
}

/// The character size each accepted count maps to; everything else is
/// rejected.
pub open spec fn spec_opt_databits(bits: u32) -> Result<CharSize, ConfigError> {
    match bits {
        5u32 => Result::Ok(CharSize::Bits5),
        6u32 => Result::Ok(CharSize::Bits6),
        7u32 => Result::Ok(CharSize::Bits7),
        8u32 => Result::Ok(CharSize::Bits8),
        _ => Result::Err(ConfigError::InvalidDataBits),
    }
}

/// Maps a data-bits count onto the driver's character sizes; only 5 through
/// 8 are meaningful on a serial line.
pub fn opt_databits(bits: u32) -> (r: Result<CharSize, ConfigError>)
    ensures
        r == spec_opt_databits(bits),
{
    match bits {
        5 => Ok(CharSize::Bits5),
        6 => Ok(CharSize::Bits6),
        7 => Ok(CharSize::Bits7),
        8 => Ok(CharSize::Bits8),
        _ => Err(ConfigError::InvalidDataBits),
    }
}

/// The stop-bits setting each accepted count maps to; everything else is
/// rejected.
pub open spec fn spec_opt_stopbits(bits: u32) -> Result<StopBits, ConfigError> {
    match bits {
        1u32 => Result::Ok(StopBits::Stop1),
        2u32 => Result::Ok(StopBits::Stop2),
        _ => Result::Err(ConfigError::InvalidStopBits),
    }
}

/// Maps a stop-bits count onto the driver's settings; only 1 and 2 exist.
pub fn opt_stopbits(bits: u32) -> (r: Result<StopBits, ConfigError>)
    ensures
        r == spec_opt_stopbits(bits),
{
    match bits {
        1 => Ok(StopBits::Stop1),
        2 => Ok(StopBits::Stop2),
        _ => Err(ConfigError::InvalidStopBits),
    }
}

/// A fully validated device configuration, ready to hand to the driver.
#[derive(Clone, Copy, Debug, PartialEq, Eq, Structural)]
pub struct SerialConfig {
    pub flow: FlowControl,
    pub baud: BaudRate,
    pub data_bits: CharSize,
    pub parity: Parity,
    pub stop_bits: StopBits,
}

/// Validation of a whole configuration, parameter by parameter in the
/// order the device is programmed: the first invalid one is the error.
pub open spec fn spec_serial_config(
    flow: Seq<char>,
    baud: u32,
    datab: u32,
    parity: Seq<char>,
    stopb: u32,
) -> Result<SerialConfig, ConfigError> {
    match spec_opt_flowcontrol(flow) {
        Result::Err(e) => Result::Err(e),
        Result::Ok(f) => match spec_opt_baudrate(baud) {
            Result::Err(e) => Result::Err(e),
            Result::Ok(b) => match spec_opt_databits(datab) {
                Result::Err(e) => Result::Err(e),
                Result::Ok(d) => match spec_opt_parity(parity) {
                    Result::Err(e) => Result::Err(e),
                    Result::Ok(p) => match spec_opt_stopbits(stopb) {
                        Result::Err(e) => Result::Err(e),
                        Result::Ok(s) => Result::Ok(
                            SerialConfig {
                                flow: f,
                                baud: b,
                                data_bits: d,
                                parity: p,
                                stop_bits: s,
                            },
                        ),
                    },
                },
            },
        },
    }
}

/// Validates the five device parameters exactly as the relay does at
/// startup. An invalid parameter is fatal there: the relay reports it and
/// does not start.
pub fn serial_config(flow: &str, baud: u32, datab: u32, parity: &str, stopb: u32) -> (r: Result<
    SerialConfig,
    ConfigError,
>)
    ensures
        r == spec_serial_config(flow@, baud, datab, parity@, stopb),
{
    let f = match opt_flowcontrol(flow) {
        Ok(f) => f,
        Err(e) => {
            return Err(e);
        },
    };
    let b = match opt_baudrate(baud) {
        Ok(b) => b,
        Err(e) => {
            return Err(e);
        },
    };
    let d = match opt_databits(datab) {
        Ok(d) => d,
        Err(e) => {
            return Err(e);
        },
    };
    let p = match opt_parity(parity) {
        Ok(p) => p,
        Err(e) => {
            return Err(e);
        },
    };
    let s = match opt_stopbits(stopb) {
        Ok(s) => s,
        Err(e) => {
            return Err(e);
        },
    };
    Ok(SerialConfig { flow: f, baud: b, data_bits: d, parity: p, stop_bits: s })
}

} // verus!
