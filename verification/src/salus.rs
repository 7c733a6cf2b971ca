//! Vendor extensions specific to the Salus host: the test extension at the
//! top of the vendor range, and its conversion into a raw vendor message.

use vstd::prelude::*;
use vstd::std_specs::convert::FromSpec;

use crate::error::Error;
use crate::message::SbiMessage;

verus! {

/// Extension ID of the Salus test extension, at the top of the vendor range.
pub const EXT_SALUS_TEST: u64 = 0x09FFFFFF;

/// Arguments to the memcpy test function.
#[derive(Clone, Copy, Debug, Eq, PartialEq, Structural)]
pub struct MemCopyArgs {
    /// Destination Address.
    pub to: u64,
    /// Source Address.
    pub from: u64,
    /// Length in bytes of the copy.
    pub len: u64,
}

/// Functions defined for the Salus test extension.
#[derive(Clone, Copy, Debug, Eq, PartialEq, Structural)]
pub enum SalusTestFunction {
    /// Memcopy test.
    MemCopy(MemCopyArgs),
}

impl SalusTestFunction {
    /// The function a register frame decodes to: selector zero carries the
    /// copy arguments in `a0`-`a2`.
    pub open spec fn spec_from_regs(args: Seq<u64>) -> Result<SalusTestFunction, Error> {
        match args[6] {
            0u64 => Ok(
                SalusTestFunction::MemCopy(
                    MemCopyArgs { to: args[0], from: args[1], len: args[2] },
                ),
            ),
            _ => Err(Error::UnsupportedFunction),
        }
    }

    /// Attempts to parse `Self` from the passed in `a0`-`a7`.
    pub fn from_regs(args: &[u64]) -> (r: Result<SalusTestFunction, Error>)
        requires
            args@.len() >= 8,
        ensures
            r == SalusTestFunction::spec_from_regs(args@),
    {
        match args[6] {
            0u64 => Ok(
                SalusTestFunction::MemCopy(
                    MemCopyArgs { to: args[0], from: args[1], len: args[2] },
                ),
            ),
            _ => Err(Error::UnsupportedFunction),
        }
    }

    /// The value this function encodes into register `a0`.
    pub open spec fn spec_a0(self) -> u64 {
        match self {
            SalusTestFunction::MemCopy(args) => args.to,
        }
    }

    /// The value this function encodes into register `a1`.
    pub open spec fn spec_a1(self) -> u64 {
        match self {
            SalusTestFunction::MemCopy(args) => args.from,
        }
    }

    /// The value this function encodes into register `a2`.
    pub open spec fn spec_a2(self) -> u64 {
        match self {
            SalusTestFunction::MemCopy(args) => args.len,
        }
    }

    /// The function selector this function encodes into register `a6`.
    pub open spec fn spec_a6(self) -> u64 {
        0
    }

    /// Returns the value to be set in register `a0` for this function.
    pub fn a0(&self) -> (r: u64)
        ensures
            r == self.spec_a0(),
    {
        match self {
            SalusTestFunction::MemCopy(args) => args.to,
        }
    }

    /// Returns the value to be set in register `a1` for this function.
    pub fn a1(&self) -> (r: u64)
        ensures
            r == self.spec_a1(),
    {
        match self {
            SalusTestFunction::MemCopy(args) => args.from,
        }
    }

    /// Returns the value to be set in register `a2` for this function.
    pub fn a2(&self) -> (r: u64)
        ensures
            r == self.spec_a2(),
    {
        match self {
            SalusTestFunction::MemCopy(args) => args.len,
        }
    }

    /// Returns the value to be set in register `a3` for this function.
    pub fn a3(&self) -> (r: u64)
        ensures
            r == 0,
    {
        0
    }

    /// Returns the value to be set in register `a4` for this function.
    pub fn a4(&self) -> (r: u64)
        ensures
            r == 0,
    {
        0
    }

    /// Returns the value to be set in register `a5` for this function.
    pub fn a5(&self) -> (r: u64)
        ensures
            r == 0,
    {
        0
    }

    /// Returns the function selector to be set in register `a6`.
    pub fn a6(&self) -> (r: u64)
        ensures
            r == self.spec_a6(),
    {
        0
    }

    /// The full argument frame this function encodes to, selector included
    /// and the extension slot left clear.
    pub open spec fn spec_frame(self) -> Seq<u64> {
        seq![
            self.spec_a0(),
            self.spec_a1(),
            self.spec_a2(),
            0u64,
            0u64,
            0u64,
            self.spec_a6(),
            0u64,
        ]
    }
}

/// Salus-specific vendor messages.
#[derive(Clone, Copy, Debug, Eq, PartialEq, Structural)]
pub enum SalusSbiMessage {
    /// Salus test functions.
    SalusTest(SalusTestFunction),
}

impl SalusSbiMessage {
    /// The message a register frame decodes to: the extension identifier in
    /// position 7 must name the Salus test extension.
    pub open spec fn spec_from_regs(args: Seq<u64>) -> Result<SalusSbiMessage, Error> {
        if args[7] == EXT_SALUS_TEST {
            match SalusTestFunction::spec_from_regs(args) {
                Ok(f) => Ok(SalusSbiMessage::SalusTest(f)),
                Err(e) => Err(e),
            }
        } else {
            Err(Error::UnsupportedExtension)
        }
    }

    /// Parse a Salus vendor message from registers.
    pub fn from_regs(args: &[u64]) -> (r: Result<SalusSbiMessage, Error>)
        requires
            args@.len() >= 8,
        ensures
            r == SalusSbiMessage::spec_from_regs(args@),
    {
        if args[7] == EXT_SALUS_TEST {
            match SalusTestFunction::from_regs(args) {
                Ok(f) => Ok(SalusSbiMessage::SalusTest(f)),
                Err(e) => Err(e),
            }
        } else {
            Err(Error::UnsupportedExtension)
        }
    }

    /// Returns the function of this message.
    pub fn func(&self) -> (r: SalusTestFunction)
        ensures
            self matches SalusSbiMessage::SalusTest(f) && r == f,
    {
        match *self {
            SalusSbiMessage::SalusTest(func) => func,
        }
    }

    /// The extension identifier this message encodes into register `a7`.
    pub open spec fn spec_eid(self) -> u64 {
        match self {
            SalusSbiMessage::SalusTest(_) => EXT_SALUS_TEST,
        }
    }

    /// Returns the extension ID of this message.
    pub fn eid(&self) -> (r: u64)
        ensures
            r == self.spec_eid(),
    {
        match *self {
            SalusSbiMessage::SalusTest(_) => EXT_SALUS_TEST,
        }
    }
}

impl vstd::std_specs::convert::FromSpecImpl<SalusSbiMessage> for SbiMessage {
    open spec fn obeys_from_spec() -> bool {
        true
    }

    /// A Salus message is carried as a raw vendor message: its function's
    /// frame words with the Salus extension identifier in position 7.
    open spec fn from_spec(msg: SalusSbiMessage) -> SbiMessage {
        match msg {
            SalusSbiMessage::SalusTest(f) => SbiMessage::Vendor(
                [
                    f.spec_a0(),
                    f.spec_a1(),
                    f.spec_a2(),
                    0u64,
                    0u64,
                    0u64,
                    f.spec_a6(),
                    EXT_SALUS_TEST,
                ],
            ),
        }
    }
}

impl From<SalusSbiMessage> for SbiMessage {
    /// Carries a Salus message as a raw vendor message.
    fn from(msg: SalusSbiMessage) -> (r: SbiMessage)
    {
        let func = msg.func();
        let args: [u64; 8] = [
            func.a0(),
            func.a1(),
            func.a2(),
            func.a3(),
            func.a4(),
            func.a5(),
            func.a6(),
            msg.eid(),
        ];
        SbiMessage::Vendor(args)
    }
}

/// Law: decoding the frame a Salus test function encodes to yields the
/// function back, for every constructible value.
pub proof fn lemma_salus_test_round_trip(f: SalusTestFunction)
    ensures
        SalusTestFunction::spec_from_regs(f.spec_frame()) == Ok::<SalusTestFunction, Error>(f),
{
}

/// Law: a frame whose selector is outside the known set decodes to an
/// unsupported-function error, never to a default.
pub proof fn lemma_salus_test_unknown_selector(args: Seq<u64>)
    requires
        args.len() >= 8,
        args[6] != 0,
    ensures
        SalusTestFunction::spec_from_regs(args) == Err::<SalusTestFunction, Error>(
            Error::UnsupportedFunction,
        ),
{
}

/// Law: the vendor message a Salus message converts into is well formed and
/// decodes, as a Salus message, back to the original: the conversion loses
/// nothing.
pub proof fn lemma_salus_message_round_trip(msg: SalusSbiMessage)
    ensures
        SbiMessage::from_spec(msg).spec_wf(),
        SalusSbiMessage::spec_from_regs(SbiMessage::from_spec(msg).spec_into_regs()@) == Ok::<
            SalusSbiMessage,
            Error,
        >(msg),
{
}

} // verus!
