//! The debug console extension: writing a string, reading into a buffer, and
//! writing one byte, each a single register mapping.

use vstd::prelude::*;

use crate::error::Error;

verus! {

/// Functions for the debug console extension.
#[derive(Copy, Clone, Debug, Eq, PartialEq, Structural)]
pub enum DebugConsoleFunction {
    /// Prints the given string to the system console.
    Write {
        /// The length of the string to print.
        len: u64,
        /// The address of the string.
        addr: u64,
        /// For rv32, the upper bits of address if needed.
        addr_hi: u64,
    },
    /// Reads from the console.
    Read {
        /// The length of the buffer to read into.
        len: u64,
        /// The address of the buffer to read into.
        addr: u64,
        /// For rv32, the upper bits of address if needed.
        addr_hi: u64,
    },
    /// Writes a single byte to the console.
    WriteByte {
        /// The byte to write.
        byte: u64,
    },
}

impl DebugConsoleFunction {
    /// The function a register frame decodes to: the selector in `a6` picks
    /// the variant, whose fields come from `a0`-`a2`.
    pub open spec fn spec_from_regs(args: Seq<u64>) -> Result<DebugConsoleFunction, Error> {
        match args[6] {
            0u64 => Ok(
                DebugConsoleFunction::Write { len: args[0], addr: args[1], addr_hi: args[2] },
            ),
            1u64 => Ok(
                DebugConsoleFunction::Read { len: args[0], addr: args[1], addr_hi: args[2] },
            ),
            2u64 => Ok(DebugConsoleFunction::WriteByte { byte: args[0] }),
            _ => Err(Error::UnsupportedFunction),
        }
    }

    /// Attempts to parse `Self` from the passed in `a0`-`a7`.
    pub fn from_regs(args: &[u64]) -> (r: Result<DebugConsoleFunction, Error>)
        requires
            args@.len() >= 8,
        ensures
            r == DebugConsoleFunction::spec_from_regs(args@),
    {
        match args[6] {
            0u64 => Ok(
                DebugConsoleFunction::Write { len: args[0], addr: args[1], addr_hi: args[2] },
            ),
            1u64 => Ok(
                DebugConsoleFunction::Read { len: args[0], addr: args[1], addr_hi: args[2] },
            ),
            2u64 => Ok(DebugConsoleFunction::WriteByte { byte: args[0] }),
            _ => Err(Error::UnsupportedFunction),
        }
    }

    /// The value this function encodes into register `a0`.
    pub open spec fn spec_a0(self) -> u64 {
        match self {
            DebugConsoleFunction::Write { len, .. } => len,
            DebugConsoleFunction::Read { len, .. } => len,
            DebugConsoleFunction::WriteByte { byte } => byte,
        }
    }

    /// The value this function encodes into register `a1`.
    pub open spec fn spec_a1(self) -> u64 {
        match self {
            DebugConsoleFunction::Write { addr, .. } => addr,
            DebugConsoleFunction::Read { addr, .. } => addr,
            DebugConsoleFunction::WriteByte { .. } => 0,
        }
    }

    /// The value this function encodes into register `a2`.
    pub open spec fn spec_a2(self) -> u64 {
        match self {
            DebugConsoleFunction::Write { addr_hi, .. } => addr_hi,
            DebugConsoleFunction::Read { addr_hi, .. } => addr_hi,
            DebugConsoleFunction::WriteByte { .. } => 0,
        }
    }

    /// The function selector this function encodes into register `a6`.
    pub open spec fn spec_a6(self) -> u64 {
        match self {
            DebugConsoleFunction::Write { .. } => 0,
            DebugConsoleFunction::Read { .. } => 1,
            DebugConsoleFunction::WriteByte { .. } => 2,
        }
    }

    /// Returns the value to be set in register `a0` for this function.
    pub fn a0(&self) -> (r: u64)
        ensures
            r == self.spec_a0(),
    {
        match self {
            DebugConsoleFunction::Write { len, addr: _, addr_hi: _ } => *len,
            DebugConsoleFunction::Read { len, addr: _, addr_hi: _ } => *len,
            DebugConsoleFunction::WriteByte { byte } => *byte,
        }
    }

    /// Returns the value to be set in register `a1` for this function.
    pub fn a1(&self) -> (r: u64)
        ensures
            r == self.spec_a1(),
    {
        match self {
            DebugConsoleFunction::Write { len: _, addr, addr_hi: _ } => *addr,
            DebugConsoleFunction::Read { len: _, addr, addr_hi: _ } => *addr,
            DebugConsoleFunction::WriteByte { byte: _ } => 0,
        }
    }

    /// Returns the value to be set in register `a2` for this function.
    pub fn a2(&self) -> (r: u64)
        ensures
            r == self.spec_a2(),
    {
        match self {
            DebugConsoleFunction::Write { len: _, addr: _, addr_hi } => *addr_hi,
            DebugConsoleFunction::Read { len: _, addr: _, addr_hi } => *addr_hi,
            DebugConsoleFunction::WriteByte { byte: _ } => 0,
        }
    }

    /// Returns the value to be set in register `a3` for this function.
    pub fn a3(&self) -> (r: u64)
        ensures
            r == 0,
    {
        0
    }

    /// Returns the value to be set in register `a4` for this function.
    pub fn a4(&self) -> (r: u64)
        ensures
            r == 0,
    {
        0
    }

    /// Returns the value to be set in register `a5` for this function.
    pub fn a5(&self) -> (r: u64)
        ensures
            r == 0,
    {
        0
    }

    /// Returns the function selector to be set in register `a6`.
    pub fn a6(&self) -> (r: u64)
        ensures
            r == self.spec_a6(),
    {
        match self {
            DebugConsoleFunction::Write { .. } => 0,
            DebugConsoleFunction::Read { .. } => 1,
            DebugConsoleFunction::WriteByte { .. } => 2,
        }
    }

    /// The full argument frame this function encodes to, selector included
    /// and the extension slot left clear.
    pub open spec fn spec_frame(self) -> Seq<u64> {
        seq![
            self.spec_a0(),
            self.spec_a1(),
            self.spec_a2(),
            0u64,
            0u64,
            0u64,
            self.spec_a6(),
            0u64,
        ]
    }
}

/// Law: decoding the frame a debug console function encodes to yields the
/// function back, for every constructible value.
pub proof fn lemma_debug_console_round_trip(f: DebugConsoleFunction)
    ensures
        DebugConsoleFunction::spec_from_regs(f.spec_frame()) == Ok::<DebugConsoleFunction, Error>(
            f,
        ),
{
}

/// Law: a frame whose selector is outside the known set decodes to an
/// unsupported-function error, never to a default.
pub proof fn lemma_debug_console_unknown_selector(args: Seq<u64>)
    requires
        args.len() >= 8,
        args[6] > 2,
    ensures
        DebugConsoleFunction::spec_from_regs(args) == Err::<DebugConsoleFunction, Error>(
            Error::UnsupportedFunction,
        ),
{
}

} // verus!
