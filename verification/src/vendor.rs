//! The vendor extension: generic calls with no compile-time-known shape,
//! addressed by a 32-bit extension/function pair packed into one register
//! word beyond the normal eight-word frame.

use vstd::prelude::*;

use crate::error::Error;

verus! {

/// Functions for the vendor extension.
#[derive(Copy, Clone, Debug, Eq, PartialEq, Structural)]
pub enum VendorFunction {
    /// Sends a vendor-specific message.
    Vendor {
        /// Vendor extension ID, packed with `fid` into the identification
        /// word beyond the eight-word frame.
        eid: u32,
        /// Vendor function ID, packed with `eid` into the identification
        /// word beyond the eight-word frame.
        fid: u32,
        /// Generic argument carried in `a0`.
        arg0: u64,
        /// Generic argument carried in `a1`.
        arg1: u64,
        /// Generic argument carried in `a2`.
        arg2: u64,
        /// Generic argument carried in `a3`.
        arg3: u64,
        /// Generic argument carried in `a4`.
        arg4: u64,
        /// Generic argument carried in `a5`.
        arg5: u64,
    },
}

impl VendorFunction {
    /// The extension/function pair this function encodes into the
    /// identification word: the extension ID in the upper 32 bits, the
    /// function ID in the lower.
    pub open spec fn spec_id_word(self) -> u64 {
        match self {
            VendorFunction::Vendor { eid, fid, .. } => ((eid as u64) << 32) | (fid as u64),
        }
    }

    /// The function a register frame decodes to: the six generic arguments
    /// from `a0`-`a5` and the extension/function pair unpacked from the
    /// identification word at position 8.
    pub open spec fn spec_from_regs(args: Seq<u64>) -> Result<VendorFunction, Error> {
        Ok(
            VendorFunction::Vendor {
                eid: (args[8] >> 32) as u32,
                fid: args[8] as u32,
                arg0: args[0],
                arg1: args[1],
                arg2: args[2],
                arg3: args[3],
                arg4: args[4],
                arg5: args[5],
            },
        )
    }

    /// Attempts to parse `Self` from the passed in `a0`-`a7` together with
    /// the vendor identification word at position 8.
    pub fn from_regs(args: &[u64]) -> (r: Result<VendorFunction, Error>)
        requires
            args@.len() >= 9,
        ensures
            r == VendorFunction::spec_from_regs(args@),
    {
        Ok(
            VendorFunction::Vendor {
                eid: (args[8] >> 32) as u32,
                fid: args[8] as u32,
                arg0: args[0],
                arg1: args[1],
                arg2: args[2],
                arg3: args[3],
                arg4: args[4],
                arg5: args[5],
            },
        )
    }

    /// A vendor call with no generic arguments; the argument registers are
    /// zero-filled.
    pub fn call0(eid: u32, fid: u32) -> (r: VendorFunction)
        ensures
            r == (VendorFunction::Vendor {
                eid,
                fid,
                arg0: 0u64,
                arg1: 0u64,
                arg2: 0u64,
                arg3: 0u64,
                arg4: 0u64,
                arg5: 0u64,
            }),
    {
        VendorFunction::Vendor { eid, fid, arg0: 0, arg1: 0, arg2: 0, arg3: 0, arg4: 0, arg5: 0 }
    }

    /// A vendor call with one generic argument; the remaining argument
    /// registers are zero-filled.
    pub fn call1(eid: u32, fid: u32, arg0: u64) -> (r: VendorFunction)
        ensures
            r == (VendorFunction::Vendor {
                eid,
                fid,
                arg0,
                arg1: 0u64,
                arg2: 0u64,
                arg3: 0u64,
                arg4: 0u64,
                arg5: 0u64,
            }),
    {
        VendorFunction::Vendor { eid, fid, arg0, arg1: 0, arg2: 0, arg3: 0, arg4: 0, arg5: 0 }
    }

    /// A vendor call with two generic arguments; the remaining argument
    /// registers are zero-filled.
    pub fn call2(eid: u32, fid: u32, arg0: u64, arg1: u64) -> (r: VendorFunction)
        ensures
            r == (VendorFunction::Vendor {
                eid,
                fid,
                arg0,
                arg1,
                arg2: 0u64,
                arg3: 0u64,
                arg4: 0u64,
                arg5: 0u64,
            }),
    {
        VendorFunction::Vendor { eid, fid, arg0, arg1, arg2: 0, arg3: 0, arg4: 0, arg5: 0 }
    }

    /// A vendor call with three generic arguments; the remaining argument
    /// registers are zero-filled.
    pub fn call3(eid: u32, fid: u32, arg0: u64, arg1: u64, arg2: u64) -> (r: VendorFunction)
        ensures
            r == (VendorFunction::Vendor {
                eid,
                fid,
                arg0,
                arg1,
                arg2,
                arg3: 0u64,
                arg4: 0u64,
                arg5: 0u64,
            }),
    {
        VendorFunction::Vendor { eid, fid, arg0, arg1, arg2, arg3: 0, arg4: 0, arg5: 0 }
    }

    /// A vendor call with four generic arguments; the remaining argument
    /// registers are zero-filled.
    pub fn call4(eid: u32, fid: u32, arg0: u64, arg1: u64, arg2: u64, arg3: u64) -> (r:
        VendorFunction)
        ensures
            r == (VendorFunction::Vendor { eid, fid, arg0, arg1, arg2, arg3, arg4: 0u64, arg5: 0u64 }),
    {
        VendorFunction::Vendor { eid, fid, arg0, arg1, arg2, arg3, arg4: 0, arg5: 0 }
    }

    /// A vendor call with five generic arguments; the remaining argument
    /// register is zero-filled.
    pub fn call5(eid: u32, fid: u32, arg0: u64, arg1: u64, arg2: u64, arg3: u64, arg4: u64) -> (r:
        VendorFunction)
        ensures
            r == (VendorFunction::Vendor { eid, fid, arg0, arg1, arg2, arg3, arg4, arg5: 0u64 }),
    {
        VendorFunction::Vendor { eid, fid, arg0, arg1, arg2, arg3, arg4, arg5: 0 }
    }

    /// The value this function encodes into register `a0`.
    pub open spec fn spec_a0(self) -> u64 {
        match self {
            VendorFunction::Vendor { arg0, .. } => arg0,
        }
    }

    /// The value this function encodes into register `a1`.
    pub open spec fn spec_a1(self) -> u64 {
        match self {
            VendorFunction::Vendor { arg1, .. } => arg1,
        }
    }

    /// The value this function encodes into register `a2`.
    pub open spec fn spec_a2(self) -> u64 {
        match self {
            VendorFunction::Vendor { arg2, .. } => arg2,
        }
    }

    /// The value this function encodes into register `a3`.
    pub open spec fn spec_a3(self) -> u64 {
        match self {
            VendorFunction::Vendor { arg3, .. } => arg3,
        }
    }

    /// The value this function encodes into register `a4`.
    pub open spec fn spec_a4(self) -> u64 {
        match self {
            VendorFunction::Vendor { arg4, .. } => arg4,
        }
    }

    /// The value this function encodes into register `a5`.
    pub open spec fn spec_a5(self) -> u64 {
        match self {
            VendorFunction::Vendor { arg5, .. } => arg5,
        }
    }

    /// Returns the value to be set in register `a0` for this function.
    pub fn a0(&self) -> (r: u64)
        ensures
            r == self.spec_a0(),
    {
        match self {
            VendorFunction::Vendor { arg0, .. } => *arg0,
        }
    }

    /// Returns the value to be set in register `a1` for this function.
    pub fn a1(&self) -> (r: u64)
        ensures
            r == self.spec_a1(),
    {
        match self {
            VendorFunction::Vendor { arg1, .. } => *arg1,
        }
    }

    /// Returns the value to be set in register `a2` for this function.
    pub fn a2(&self) -> (r: u64)
        ensures
            r == self.spec_a2(),
    {
        match self {
            VendorFunction::Vendor { arg2, .. } => *arg2,
        }
    }

    /// Returns the value to be set in register `a3` for this function.
    pub fn a3(&self) -> (r: u64)
        ensures
            r == self.spec_a3(),
    {
        match self {
            VendorFunction::Vendor { arg3, .. } => *arg3,
        }
    }

    /// Returns the value to be set in register `a4` for this function.
    pub fn a4(&self) -> (r: u64)
        ensures
            r == self.spec_a4(),
    {
        match self {
            VendorFunction::Vendor { arg4, .. } => *arg4,
        }
    }

    /// Returns the value to be set in register `a5` for this function.
    pub fn a5(&self) -> (r: u64)
        ensures
            r == self.spec_a5(),
    {
        match self {
            VendorFunction::Vendor { arg5, .. } => *arg5,
        }
    }

    /// Returns the function selector to be set in register `a6`. The vendor
    /// extension addresses its functions through the identification word
    /// instead, so the selector register is left clear.
    pub fn a6(&self) -> (r: u64)
        ensures
            r == 0,
    {
        0
    }

    /// Returns the extension/function identification word to be set beyond
    /// the eight-word frame.
    pub fn id_word(&self) -> (r: u64)
        ensures
            r == self.spec_id_word(),
    {
        match self {
            VendorFunction::Vendor { eid, fid, .. } => (((*eid as u64) << 32u64) | (*fid as u64)),
        }
    }

    /// The full argument frame this function encodes to: the six generic
    /// arguments, a clear selector, a clear extension slot, and the
    /// identification word at position 8.
    pub open spec fn spec_frame(self) -> Seq<u64> {
        seq![
            self.spec_a0(),
            self.spec_a1(),
            self.spec_a2(),
            self.spec_a3(),
            self.spec_a4(),
            self.spec_a5(),
            0u64,
            0u64,
            self.spec_id_word(),
        ]
    }
}

/// Law: decoding the frame a vendor function encodes to yields the function
/// back, for every constructible value: the extension/function pair survives
/// the packing into the identification word.
pub proof fn lemma_vendor_round_trip(f: VendorFunction)
    ensures
        VendorFunction::spec_from_regs(f.spec_frame()) == Ok::<VendorFunction, Error>(f),
{
    match f {
        VendorFunction::Vendor { eid, fid, .. } => {
            assert(((((eid as u64) << 32) | (fid as u64)) >> 32) as u32 == eid) by (bit_vector);
            assert((((eid as u64) << 32) | (fid as u64)) as u32 == fid) by (bit_vector);
        },
    }
}

/// Law: a vendor call built with two generic arguments encodes its argument
/// registers as exactly those two values followed by zeros, whatever the
/// extension/function pair.
pub proof fn lemma_call2_zero_fills(eid: u32, fid: u32, x: u64, y: u64)
    ensures
        ({
            let f = (VendorFunction::Vendor {
                eid,
                fid,
                arg0: x,
                arg1: y,
                arg2: 0u64,
                arg3: 0u64,
                arg4: 0u64,
                arg5: 0u64,
            });
            f.spec_a0() == x && f.spec_a1() == y && f.spec_a2() == 0 && f.spec_a3() == 0
                && f.spec_a4() == 0 && f.spec_a5() == 0
        }),
{
}

} // verus!
