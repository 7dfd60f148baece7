//! Command headers: the two bytes that open every transfer to the panel.

use vstd::prelude::*;

verus! {

/// Modes are 6-bit, network order.
/// They use a tree-ish encoding, so only the ones in use are listed here.
#[derive(Debug, Clone, Copy, PartialEq, Eq, Structural)]
pub enum Mode {
    /// Clear memory
    /// bits: 0 Function, X, 1 Clear, 0 Blink off, X, X
    AllClear,
    /// Input 1-bit data
    /// bits: 1 No function, X, 0 Data Update, 01 1-bit, X
    Input1Bit,
    /// Input 4-bit data
    Input4Bit,
    /// Store nothing
    NoUpdate,
}

impl Mode {
    /// The 6-bit code of the mode.
    pub open spec fn code(self) -> u16 {
        match self {
            Mode::AllClear => 0b001000,
            Mode::Input1Bit => 0b100010,
            Mode::Input4Bit => 0b100100,
            Mode::NoUpdate => 0b101000,
        }
    }

    /// Returns the 6-bit code of the mode.
    pub fn bits(self) -> (bits: u16)
        ensures
            bits == self.code(),
    {
        match self {
            Mode::AllClear => 0b001000,
            Mode::Input1Bit => 0b100010,
            Mode::Input4Bit => 0b100100,
            Mode::NoUpdate => 0b101000,
        }
    }
}

/// Command header is composed of a 6-bit mode and 10 bits of address,
/// network bit order.
#[derive(Debug, Clone, Copy, PartialEq, Eq, Structural)]
pub struct CommandHeader {
    pub mode: Mode,
    pub gate_line: u16,
}

/// The header as a 16-bit number: the mode above the lowest ten bits of the
/// address.
pub open spec fn header_word(mode: Mode, gate_line: int) -> int {
    mode.code() * 1024 + gate_line % 1024
}

/// The header as it goes over the wire, high byte first.
pub open spec fn header_bytes(mode: Mode, gate_line: int) -> Seq<u8> {
    seq![(header_word(mode, gate_line) / 256) as u8, (header_word(mode, gate_line) % 256) as u8]
}

impl CommandHeader {
    /// Formats header for transfer
    pub fn encode(&self) -> (bytes: [u8; 2])
        ensures
            bytes@ == header_bytes(self.mode, self.gate_line as int),
    {
        let bits: u16 = self.mode.bits();
        let line: u16 = self.gate_line;
        let word: u16 = (line & 0b1111111111) | (bits << 10);
        let high: u8 = (word >> 8) as u8;
        let low: u8 = (word & 0xff) as u8;
        assert(word == bits * 1024 + line % 1024) by (bit_vector)
            requires
                bits < 64,
                word == (line & 0b1111111111) | (bits << 10),
        ;
        assert(word >> 8 == word / 256) by (bit_vector);
        assert(word & 0xff == word % 256) by (bit_vector);
        [high, low]
    }
}

/// The receiver of a header can tell the mode and the ten address bits apart:
/// the mode is the upper six bits of the first byte, the address is the rest.
pub proof fn header_fields_recoverable(mode: Mode, gate_line: int)
    ensures
        header_bytes(mode, gate_line).len() == 2,
        header_bytes(mode, gate_line)[0] / 4 == mode.code(),
        (header_bytes(mode, gate_line)[0] % 4) * 256 + header_bytes(mode, gate_line)[1]
            == gate_line % 1024,
{
}

/// No two modes share a header, and within one mode no two addresses below
/// 1024 do.
pub proof fn header_determines_command(mode1: Mode, line1: int, mode2: Mode, line2: int)
    requires
        0 <= line1 < 1024,
        0 <= line2 < 1024,
        header_bytes(mode1, line1) == header_bytes(mode2, line2),
    ensures
        mode1 == mode2,
        line1 == line2,
{
    header_fields_recoverable(mode1, line1);
    header_fields_recoverable(mode2, line2);
}

/// The four commands on the wire: the first byte tells the mode and carries the two
/// highest address bits, the second byte carries the others.
pub proof fn commands_on_the_wire(mode: Mode, gate_line: int)
    ensures
        header_bytes(mode, gate_line).len() == 2,
        header_bytes(mode, gate_line)[0] == gate_line % 1024 / 256 + match mode {
            Mode::AllClear => 0x20int,
            Mode::Input1Bit => 0x88int,
            Mode::Input4Bit => 0x90int,
            Mode::NoUpdate => 0xa0int,
        },
        header_bytes(mode, gate_line)[1] == gate_line % 1024 % 256,
        Mode::AllClear.code() == 0b001000,
        Mode::Input1Bit.code() == 0b100010,
        Mode::Input4Bit.code() == 0b100100,
        Mode::NoUpdate.code() == 0b101000,
{
    let address = gate_line % 1024;
    let word = header_word(mode, gate_line);
    assert(word == mode.code() * 1024 + address);
    assert(word / 256 == mode.code() * 4 + address / 256);
    assert(word % 256 == address % 256);
}

} // verus!
