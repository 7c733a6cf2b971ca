//! The message layer: the tagged union over all supported extensions, owning
//! extension-ID assignment and delegating encoding and decoding to the
//! matching extension's function codec.

use vstd::prelude::*;

use crate::consts::{
    EXT_COVE_GUEST, EXT_COVE_INTERRUPT, EXT_DBCN, EXT_NACL, EXT_RESET, EXT_VENDOR_RANGE_END,
    EXT_VENDOR_RANGE_START,
};
use crate::cove_guest::CoveGuestFunction;
use crate::cove_interrupt::CoveInterruptFunction;
use crate::debug_console::DebugConsoleFunction;
use crate::error::Error;
use crate::nacl::NaclFunction;
use crate::reset::ResetFunction;

verus! {

/// The pairing of an extension identity with a concrete function value: the
/// unit actually encoded to and decoded from a register frame. Generic
/// vendor calls have no compile-time-known shape, so the vendor variant
/// carries the raw frame words, extension identifier included.
#[derive(Copy, Clone, Debug, Eq, PartialEq)]
pub enum SbiMessage {
    /// A debug console call.
    DebugConsole(DebugConsoleFunction),
    /// A system reset call.
    Reset(ResetFunction),
    /// A nested virtualization acceleration call.
    Nacl(NaclFunction),
    /// A COVE guest call.
    CoveGuest(CoveGuestFunction),
    /// A COVE interrupt call.
    CoveInterrupt(CoveInterruptFunction),
    /// A call to an extension in the vendor range, carried as raw words.
    Vendor([u64; 8]),
}

impl SbiMessage {
    /// The extension identifier this message encodes into register `a7`.
    pub open spec fn spec_eid(self) -> u64 {
        match self {
            SbiMessage::DebugConsole(_) => EXT_DBCN,
            SbiMessage::Reset(_) => EXT_RESET,
            SbiMessage::Nacl(_) => EXT_NACL,
            SbiMessage::CoveGuest(_) => EXT_COVE_GUEST,
            SbiMessage::CoveInterrupt(_) => EXT_COVE_INTERRUPT,
            SbiMessage::Vendor(regs) => regs@[7],
        }
    }

    /// Returns the extension identifier of this message.
    pub fn eid(&self) -> (r: u64)
        ensures
            r == self.spec_eid(),
    {
        match self {
            SbiMessage::DebugConsole(_) => EXT_DBCN,
            SbiMessage::Reset(_) => EXT_RESET,
            SbiMessage::Nacl(_) => EXT_NACL,
            SbiMessage::CoveGuest(_) => EXT_COVE_GUEST,
            SbiMessage::CoveInterrupt(_) => EXT_COVE_INTERRUPT,
            SbiMessage::Vendor(regs) => regs[7],
        }
    }

    /// A message is well formed when its raw form names its own extension:
    /// always, except for a vendor message whose extension word lies
    /// outside the vendor range.
    pub open spec fn spec_wf(self) -> bool {
        match self {
            SbiMessage::Vendor(regs) => EXT_VENDOR_RANGE_START <= regs@[7]
                <= EXT_VENDOR_RANGE_END,
            _ => true,
        }
    }

    /// The message a register frame decodes to: the extension identifier in
    /// position 7 selects the codec, which reads the selector and argument
    /// positions; an identifier in the vendor range keeps the raw words.
    pub open spec fn spec_from_regs(args: Seq<u64>) -> Result<SbiMessage, Error> {
        let ext = args[7];
        if ext == EXT_DBCN {
            match DebugConsoleFunction::spec_from_regs(args) {
                Ok(f) => Ok(SbiMessage::DebugConsole(f)),
                Err(e) => Err(e),
            }
        } else if ext == EXT_RESET {
            match ResetFunction::spec_from_regs(args) {
                Ok(f) => Ok(SbiMessage::Reset(f)),
                Err(e) => Err(e),
            }
        } else if ext == EXT_NACL {
            match NaclFunction::spec_from_regs(args) {
                Ok(f) => Ok(SbiMessage::Nacl(f)),
                Err(e) => Err(e),
            }
        } else if ext == EXT_COVE_GUEST {
            match CoveGuestFunction::spec_from_regs(args) {
                Ok(f) => Ok(SbiMessage::CoveGuest(f)),
                Err(e) => Err(e),
            }
        } else if ext == EXT_COVE_INTERRUPT {
            match CoveInterruptFunction::spec_from_regs(args) {
                Ok(f) => Ok(SbiMessage::CoveInterrupt(f)),
                Err(e) => Err(e),
            }
        } else if EXT_VENDOR_RANGE_START <= ext <= EXT_VENDOR_RANGE_END {
            Ok(
                SbiMessage::Vendor(
                    [args[0], args[1], args[2], args[3], args[4], args[5], args[6], args[7]],
                ),
            )
        } else {
            Err(Error::UnsupportedExtension)
        }
    }

    /// Attempts to parse a message from the passed in `a0`-`a7`. The
    /// extension identifier is read first; unknown identifiers are rejected
    /// before any selector is looked at.
    pub fn from_regs(args: &[u64]) -> (r: Result<SbiMessage, Error>)
        requires
            args@.len() >= 8,
        ensures
            r == SbiMessage::spec_from_regs(args@),
    {
        let ext = args[7];
        if ext == EXT_DBCN {
            match DebugConsoleFunction::from_regs(args) {
                Ok(f) => Ok(SbiMessage::DebugConsole(f)),
                Err(e) => Err(e),
            }
        } else if ext == EXT_RESET {
            match ResetFunction::from_regs(args) {
                Ok(f) => Ok(SbiMessage::Reset(f)),
                Err(e) => Err(e),
            }
        } else if ext == EXT_NACL {
            match NaclFunction::from_regs(args) {
                Ok(f) => Ok(SbiMessage::Nacl(f)),
                Err(e) => Err(e),
            }
        } else if ext == EXT_COVE_GUEST {
            match CoveGuestFunction::from_regs(args) {
                Ok(f) => Ok(SbiMessage::CoveGuest(f)),
                Err(e) => Err(e),
            }
        } else if ext == EXT_COVE_INTERRUPT {
            match CoveInterruptFunction::from_regs(args) {
                Ok(f) => Ok(SbiMessage::CoveInterrupt(f)),
                Err(e) => Err(e),
            }
        } else if EXT_VENDOR_RANGE_START <= ext && ext <= EXT_VENDOR_RANGE_END {
            Ok(
                SbiMessage::Vendor(
                    [args[0], args[1], args[2], args[3], args[4], args[5], args[6], args[7]],
                ),
            )
        } else {
            Err(Error::UnsupportedExtension)
        }
    }

    /// The register frame this message encodes to: the function's argument
    /// and selector words, with the extension identifier in position 7.
    pub open spec fn spec_into_regs(self) -> [u64; 8] {
        match self {
            SbiMessage::DebugConsole(f) => [
                f.spec_a0(),
                f.spec_a1(),
                f.spec_a2(),
                0u64,
                0u64,
                0u64,
                f.spec_a6(),
                EXT_DBCN,
            ],
            SbiMessage::Reset(f) => [
                f.spec_a0(),
                f.spec_a1(),
                0u64,
                0u64,
                0u64,
                0u64,
                f.spec_a6(),
                EXT_RESET,
            ],
            SbiMessage::Nacl(f) => [
                f.spec_a0(),
                0u64,
                0u64,
                0u64,
                0u64,
                0u64,
                f.spec_a6(),
                EXT_NACL,
            ],
            SbiMessage::CoveGuest(f) => [
                f.spec_a0(),
                f.spec_a1(),
                0u64,
                0u64,
                0u64,
                0u64,
                f.spec_a6(),
                EXT_COVE_GUEST,
            ],
            SbiMessage::CoveInterrupt(f) => [
                f.spec_a0(),
                f.spec_a1(),
                f.spec_a2(),
                0u64,
                0u64,
                0u64,
                f.spec_a6(),
                EXT_COVE_INTERRUPT,
            ],
            SbiMessage::Vendor(regs) => regs,
        }
    }

    /// Encodes this message into the eight-word register frame handed to
    /// the trap primitive.
    pub fn into_regs(&self) -> (r: [u64; 8])
        ensures
            r == self.spec_into_regs(),
    {
        match self {
            SbiMessage::DebugConsole(f) => [f.a0(), f.a1(), f.a2(), 0, 0, 0, f.a6(), EXT_DBCN],
            SbiMessage::Reset(f) => [f.a0(), f.a1(), 0, 0, 0, 0, f.a6(), EXT_RESET],
            SbiMessage::Nacl(f) => [f.a0(), 0, 0, 0, 0, 0, f.a6(), EXT_NACL],
            SbiMessage::CoveGuest(f) => [f.a0(), f.a1(), 0, 0, 0, 0, f.a6(), EXT_COVE_GUEST],
            SbiMessage::CoveInterrupt(f) => [
                f.a0(),
                f.a1(),
                f.a2(),
                0,
                0,
                0,
                f.a6(),
                EXT_COVE_INTERRUPT,
            ],
            SbiMessage::Vendor(regs) => *regs,
        }
    }
}

/// Law: decoding the frame a well-formed message encodes to yields the
/// message back, for every constructible value.
pub proof fn lemma_message_round_trip(m: SbiMessage)
    requires
        m.spec_wf(),
    ensures
        SbiMessage::spec_from_regs(m.spec_into_regs()@) == Ok::<SbiMessage, Error>(m),
{
    match m {
        SbiMessage::DebugConsole(f) => {
            assert(m.spec_into_regs()@ =~= f.spec_frame().update(7, EXT_DBCN));
            crate::debug_console::lemma_debug_console_round_trip(f);
            assert(DebugConsoleFunction::spec_from_regs(m.spec_into_regs()@) == Ok::<
                DebugConsoleFunction,
                Error,
            >(f));
        },
        SbiMessage::Reset(f) => {
            crate::reset::lemma_reset_round_trip(f);
            assert(ResetFunction::spec_from_regs(m.spec_into_regs()@) == Ok::<
                ResetFunction,
                Error,
            >(f));
        },
        SbiMessage::Nacl(f) => {
            crate::nacl::lemma_nacl_round_trip(f);
            assert(NaclFunction::spec_from_regs(m.spec_into_regs()@) == Ok::<NaclFunction, Error>(
                f,
            ));
        },
        SbiMessage::CoveGuest(f) => {
            crate::cove_guest::lemma_cove_guest_round_trip(f);
            assert(CoveGuestFunction::spec_from_regs(m.spec_into_regs()@) == Ok::<
                CoveGuestFunction,
                Error,
            >(f));
        },
        SbiMessage::CoveInterrupt(f) => {
            crate::cove_interrupt::lemma_cove_interrupt_round_trip(f);
            assert(CoveInterruptFunction::spec_from_regs(m.spec_into_regs()@) == Ok::<
                CoveInterruptFunction,
                Error,
            >(f));
        },
        SbiMessage::Vendor(regs) => {
            let decoded = SbiMessage::spec_from_regs(regs@);
            assert(decoded matches Ok(v) && v matches SbiMessage::Vendor(r2) && r2@ =~= regs@);
            assert(decoded matches Ok(v) && v matches SbiMessage::Vendor(r2) && r2 =~= regs);
        },
    }
}

/// Law: every message a frame decodes to is well formed and re-encodes to a
/// frame that decodes to the same message again: decoding is idempotent
/// across a round trip, so re-encoding a received call loses nothing.
pub proof fn lemma_decode_then_encode_idempotent(args: Seq<u64>, m: SbiMessage)
    requires
        args.len() >= 8,
        SbiMessage::spec_from_regs(args) == Ok::<SbiMessage, Error>(m),
    ensures
        m.spec_wf(),
        SbiMessage::spec_from_regs(m.spec_into_regs()@) == Ok::<SbiMessage, Error>(m),
{
    lemma_message_round_trip(m);
}

/// Law: a frame whose extension identifier is outside the known set and the
/// vendor range decodes to an unsupported-extension error, never to a
/// default.
pub proof fn lemma_message_unknown_extension(args: Seq<u64>)
    requires
        args.len() >= 8,
        args[7] != EXT_DBCN,
        args[7] != EXT_RESET,
        args[7] != EXT_NACL,
        args[7] != EXT_COVE_GUEST,
        args[7] != EXT_COVE_INTERRUPT,
        !(EXT_VENDOR_RANGE_START <= args[7] <= EXT_VENDOR_RANGE_END),
    ensures
        SbiMessage::spec_from_regs(args) == Err::<SbiMessage, Error>(Error::UnsupportedExtension),
{
}

} // verus!
