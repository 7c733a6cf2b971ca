//! The system reset extension: a single function that shuts down or reboots
//! the machine, carrying the reset type in `a0` and the reason in `a1`.

use vstd::prelude::*;

use crate::error::Error;

verus! {

/// The types of reset a supervisor can request.
#[derive(Copy, Clone, Debug, Eq, PartialEq, Structural)]
pub enum ResetType {
    /// Powers down the system.
    Shutdown,
    /// Powers down, then reboots.
    ColdReset,
    /// Reboots, doesn't power down.
    WarmReset,
}

impl ResetType {
    /// The register value this reset type encodes to.
    pub open spec fn spec_reg(self) -> u64 {
        match self {
            ResetType::Shutdown => 0,
            ResetType::ColdReset => 1,
            ResetType::WarmReset => 2,
        }
    }

    /// The reset type a register value decodes to, if any.
    pub open spec fn spec_from_reg(a0: u64) -> Result<ResetType, Error> {
        match a0 {
            0u64 => Ok(ResetType::Shutdown),
            1u64 => Ok(ResetType::ColdReset),
            2u64 => Ok(ResetType::WarmReset),
            _ => Err(Error::InvalidParam),
        }
    }

    /// Returns the register value this reset type encodes to.
    pub fn reg(&self) -> (r: u64)
        ensures
            r == self.spec_reg(),
    {
        match self {
            ResetType::Shutdown => 0,
            ResetType::ColdReset => 1,
            ResetType::WarmReset => 2,
        }
    }

    /// Creates a reset type from the `a0` register value, or reports an
    /// invalid parameter if no mapping is known for the given value.
    pub fn from_reg(a0: u64) -> (r: Result<ResetType, Error>)
        ensures
            r == ResetType::spec_from_reg(a0),
    {
        match a0 {
            0u64 => Ok(ResetType::Shutdown),
            1u64 => Ok(ResetType::ColdReset),
            2u64 => Ok(ResetType::WarmReset),
            _ => Err(Error::InvalidParam),
        }
    }
}

/// Reasons why a supervisor requests a reset.
#[derive(Copy, Clone, Debug, Eq, PartialEq, Structural)]
pub enum ResetReason {
    /// Used for normal resets.
    NoReason,
    /// Used when the system has failed.
    SystemFailure,
}

impl ResetReason {
    /// The register value this reset reason encodes to.
    pub open spec fn spec_reg(self) -> u64 {
        match self {
            ResetReason::NoReason => 0,
            ResetReason::SystemFailure => 1,
        }
    }

    /// The reset reason a register value decodes to, if any.
    pub open spec fn spec_from_reg(a1: u64) -> Result<ResetReason, Error> {
        match a1 {
            0u64 => Ok(ResetReason::NoReason),
            1u64 => Ok(ResetReason::SystemFailure),
            _ => Err(Error::InvalidParam),
        }
    }

    /// Returns the register value this reset reason encodes to.
    pub fn reg(&self) -> (r: u64)
        ensures
            r == self.spec_reg(),
    {
        match self {
            ResetReason::NoReason => 0,
            ResetReason::SystemFailure => 1,
        }
    }

    /// Creates a reset reason from the `a1` register value, or reports an
    /// invalid parameter if no mapping is known for the given value.
    pub fn from_reg(a1: u64) -> (r: Result<ResetReason, Error>)
        ensures
            r == ResetReason::spec_from_reg(a1),
    {
        match a1 {
            0u64 => Ok(ResetReason::NoReason),
            1u64 => Ok(ResetReason::SystemFailure),
            _ => Err(Error::InvalidParam),
        }
    }
}

/// Functions for the reset extension.
#[derive(Copy, Clone, Debug, Eq, PartialEq, Structural)]
pub enum ResetFunction {
    /// Performs a system reset.
    Reset {
        /// Determines the type of reset to perform.
        reset_type: ResetType,
        /// Represents the reason for system reset.
        reason: ResetReason,
    },
}

impl ResetFunction {
    /// The function a register frame decodes to: selector zero with a legal
    /// type in `a0` and a legal reason in `a1`, anything else an error.
    pub open spec fn spec_from_regs(args: Seq<u64>) -> Result<ResetFunction, Error> {
        if args[6] == 0 {
            match ResetType::spec_from_reg(args[0]) {
                Ok(reset_type) => match ResetReason::spec_from_reg(args[1]) {
                    Ok(reason) => Ok(ResetFunction::Reset { reset_type, reason }),
                    Err(e) => Err(e),
                },
                Err(e) => Err(e),
            }
        } else {
            Err(Error::UnsupportedFunction)
        }
    }

    /// Attempts to parse `Self` from the passed in `a0`-`a7`.
    pub fn from_regs(args: &[u64]) -> (r: Result<ResetFunction, Error>)
        requires
            args@.len() >= 8,
        ensures
            r == ResetFunction::spec_from_regs(args@),
    {
        if args[6] == 0 {
            match ResetType::from_reg(args[0]) {
                Ok(reset_type) => match ResetReason::from_reg(args[1]) {
                    Ok(reason) => Ok(ResetFunction::Reset { reset_type, reason }),
                    Err(e) => Err(e),
                },
                Err(e) => Err(e),
            }
        } else {
            Err(Error::UnsupportedFunction)
        }
    }

    /// Creates an operation to shutdown the machine.
    pub fn shutdown() -> (r: ResetFunction)
        ensures
            r == (ResetFunction::Reset {
                reset_type: ResetType::Shutdown,
                reason: ResetReason::NoReason,
            }),
    {
        ResetFunction::Reset { reset_type: ResetType::Shutdown, reason: ResetReason::NoReason }
    }

    /// The value this function encodes into register `a0`: the reset type.
    pub open spec fn spec_a0(self) -> u64 {
        match self {
            ResetFunction::Reset { reset_type, .. } => reset_type.spec_reg(),
        }
    }

    /// The value this function encodes into register `a1`: the reset reason.
    pub open spec fn spec_a1(self) -> u64 {
        match self {
            ResetFunction::Reset { reason, .. } => reason.spec_reg(),
        }
    }

    /// The function selector this function encodes into register `a6`.
    pub open spec fn spec_a6(self) -> u64 {
        0
    }

    /// Returns the value to be set in register `a0` for this function.
    pub fn a0(&self) -> (r: u64)
        ensures
            r == self.spec_a0(),
    {
        match self {
            ResetFunction::Reset { reset_type, reason: _ } => reset_type.reg(),
        }
    }

    /// Returns the value to be set in register `a1` for this function.
    pub fn a1(&self) -> (r: u64)
        ensures
            r == self.spec_a1(),
    {
        match self {
            ResetFunction::Reset { reset_type: _, reason } => reason.reg(),
        }
    }

    /// Returns the value to be set in register `a2` for this function.
    pub fn a2(&self) -> (r: u64)
        ensures
            r == 0,
    {
        0
    }

    /// Returns the value to be set in register `a3` for this function.
    pub fn a3(&self) -> (r: u64)
        ensures
            r == 0,
    {
        0
    }

    /// Returns the value to be set in register `a4` for this function.
    pub fn a4(&self) -> (r: u64)
        ensures
            r == 0,
    {
        0
    }

    /// Returns the value to be set in register `a5` for this function.
    pub fn a5(&self) -> (r: u64)
        ensures
            r == 0,
    {
        0
    }

    /// Returns the function selector to be set in register `a6`.
    pub fn a6(&self) -> (r: u64)
        ensures
            r == self.spec_a6(),
    {
        0
    }

    /// The full argument frame this function encodes to, selector included
    /// and the extension slot left clear.
    pub open spec fn spec_frame(self) -> Seq<u64> {
        seq![self.spec_a0(), self.spec_a1(), 0u64, 0u64, 0u64, 0u64, self.spec_a6(), 0u64]
    }
}

/// Law: decoding the frame a reset function encodes to yields the function
/// back, for every constructible value.
pub proof fn lemma_reset_round_trip(f: ResetFunction)
    ensures
        ResetFunction::spec_from_regs(f.spec_frame()) == Ok::<ResetFunction, Error>(f),
{
}

/// Law: a frame whose selector is outside the known set decodes to an
/// unsupported-function error, never to a default.
pub proof fn lemma_reset_unknown_selector(args: Seq<u64>)
    requires
        args.len() >= 8,
        args[6] != 0,
    ensures
        ResetFunction::spec_from_regs(args) == Err::<ResetFunction, Error>(
            Error::UnsupportedFunction,
        ),
{
}

} // verus!
