//! The Rivos test extension: a memory-copy test call carrying destination,
//! source, and length in the first three argument registers.

use vstd::prelude::*;

use crate::error::Error;

verus! {

/// Arguments to the memcpy test function.
#[derive(Clone, Copy, Debug, Eq, PartialEq, Structural)]
pub struct MemCopyArgs {
    /// Destination Address.
    pub to: u64,
    /// Source Address.
    pub from: u64,
    /// Length in bytes of the copy.
    pub len: u64,
}

/// Functions defined for the Rivos test extension.
#[derive(Clone, Copy, Debug, Eq, PartialEq, Structural)]
pub enum RivosTestFunction {
    /// Memcopy test.
    MemCopy(MemCopyArgs),
}

impl RivosTestFunction {
    /// The function a register frame decodes to: selector zero carries the
    /// copy arguments in `a0`-`a2`.
    pub open spec fn spec_from_regs(args: Seq<u64>) -> Result<RivosTestFunction, Error> {
        match args[6] {
            0u64 => Ok(
                RivosTestFunction::MemCopy(
                    MemCopyArgs { to: args[0], from: args[1], len: args[2] },
                ),
            ),
            _ => Err(Error::UnsupportedFunction),
        }
    }

    /// Attempts to parse `Self` from the passed in `a0`-`a7`.
    pub fn from_regs(args: &[u64]) -> (r: Result<RivosTestFunction, Error>)
        requires
            args@.len() >= 8,
        ensures
            r == RivosTestFunction::spec_from_regs(args@),
    {
        match args[6] {
            0u64 => Ok(
                RivosTestFunction::MemCopy(
                    MemCopyArgs { to: args[0], from: args[1], len: args[2] },
                ),
            ),
            _ => Err(Error::UnsupportedFunction),
        }
    }

    /// The value this function encodes into register `a0`.
    pub open spec fn spec_a0(self) -> u64 {
        match self {
            RivosTestFunction::MemCopy(args) => args.to,
        }
    }

    /// The value this function encodes into register `a1`.
    pub open spec fn spec_a1(self) -> u64 {
        match self {
            RivosTestFunction::MemCopy(args) => args.from,
        }
    }

    /// The value this function encodes into register `a2`.
    pub open spec fn spec_a2(self) -> u64 {
        match self {
            RivosTestFunction::MemCopy(args) => args.len,
        }
    }

    /// The function selector this function encodes into register `a6`.
    pub open spec fn spec_a6(self) -> u64 {
        0
    }

    /// Returns the value to be set in register `a0` for this function.
    pub fn a0(&self) -> (r: u64)
        ensures
            r == self.spec_a0(),
    {
        match self {
            RivosTestFunction::MemCopy(args) => args.to,
        }
    }

    /// Returns the value to be set in register `a1` for this function.
    pub fn a1(&self) -> (r: u64)
        ensures
            r == self.spec_a1(),
    {
        match self {
            RivosTestFunction::MemCopy(args) => args.from,
        }
    }

    /// Returns the value to be set in register `a2` for this function.
    pub fn a2(&self) -> (r: u64)
        ensures
            r == self.spec_a2(),
    {
        match self {
            RivosTestFunction::MemCopy(args) => args.len,
        }
    }

    /// Returns the value to be set in register `a3` for this function.
    pub fn a3(&self) -> (r: u64)
        ensures
            r == 0,
    {
        0
    }

    /// Returns the value to be set in register `a4` for this function.
    pub fn a4(&self) -> (r: u64)
        ensures
            r == 0,
    {
        0
    }

    /// Returns the value to be set in register `a5` for this function.
    pub fn a5(&self) -> (r: u64)
        ensures
            r == 0,
    {
        0
    }

    /// Returns the function selector to be set in register `a6`.
    pub fn a6(&self) -> (r: u64)
        ensures
            r == self.spec_a6(),
    {
        0
    }

    /// The full argument frame this function encodes to, selector included
    /// and the extension slot left clear.
    pub open spec fn spec_frame(self) -> Seq<u64> {
        seq![
            self.spec_a0(),
            self.spec_a1(),
            self.spec_a2(),
            0u64,
            0u64,
            0u64,
            self.spec_a6(),
            0u64,
        ]
    }
}

/// Law: decoding the frame a Rivos test function encodes to yields the
/// function back, for every constructible value.
pub proof fn lemma_rivos_test_round_trip(f: RivosTestFunction)
    ensures
        RivosTestFunction::spec_from_regs(f.spec_frame()) == Ok::<RivosTestFunction, Error>(f),
{
}

/// Law: a frame whose selector is outside the known set decodes to an
/// unsupported-function error, never to a default.
pub proof fn lemma_rivos_test_unknown_selector(args: Seq<u64>)
    requires
        args.len() >= 8,
        args[6] != 0,
    ensures
        RivosTestFunction::spec_from_regs(args) == Err::<RivosTestFunction, Error>(
            Error::UnsupportedFunction,
        ),
{
}

} // verus!
