//! The confidential-computing guest extension: MMIO region management,
//! shared/confidential memory conversion requests, and the external
//! interrupt injection gate, as seen from a TVM guest.

use vstd::prelude::*;

use crate::error::Error;

verus! {

/// Functions provided by the COVE guest extension to TVM guests.
#[derive(Copy, Clone, Debug, Eq, PartialEq, Structural)]
pub enum CoveGuestFunction {
    /// Marks the specified range of guest physical address space as used for
    /// emulated MMIO. Upon return, all accesses by the TVM within the range
    /// are trapped and may be emulated by the host.
    ///
    /// Both `addr` and `len` must be 4kB-aligned, and the range must not
    /// overlap with any existing memory regions.
    AddMmioRegion {
        /// Start address of the region, in `a0`.
        addr: u64,
        /// Length of the region, in `a1`.
        len: u64,
    },
    /// Removes the specified range of guest physical address space from the
    /// emulated MMIO regions. Upon return, all accesses by the TVM within
    /// the range will result in a page fault.
    ///
    /// Both `addr` and `len` must be 4kB-aligned.
    RemoveMmioRegion {
        /// Start address of the region, in `a0`.
        addr: u64,
        /// Length of the region, in `a1`.
        len: u64,
    },
    /// Requests conversion of the specified range of guest physical address
    /// space from confidential to shared. The caller is blocked until the
    /// host has completed the invalidation and removal of any confidential
    /// pages mapped in the region.
    ///
    /// Both `addr` and `len` must be page-aligned, and the range must lie
    /// within an existing region of confidential memory.
    ShareMemory {
        /// Start address of the region, in `a0`.
        addr: u64,
        /// Length of the region, in `a1`.
        len: u64,
    },
    /// Requests conversion of the specified range of guest physical address
    /// space from shared to confidential. The caller is blocked until the
    /// host has completed the invalidation and removal of any shared pages
    /// mapped in the region.
    ///
    /// Both `addr` and `len` must be page-aligned, and the range must lie
    /// within an existing region of shared memory.
    UnshareMemory {
        /// Start address of the region, in `a0`.
        addr: u64,
        /// Length of the region, in `a1`.
        len: u64,
    },
    /// Allows injection of the specified external interrupt ID into the
    /// calling TVM vCPU. Passing an ID of -1 allows injection of all
    /// external interrupts. TVM vCPUs are started with injection of external
    /// interrupts completely disabled by default.
    AllowExternalInterrupt {
        /// Interrupt ID, in `a0`.
        id: i64,
    },
    /// Denies injection of the specified external interrupt ID into the
    /// calling TVM vCPU. Passing an ID of -1 denies injection of all
    /// external interrupts.
    DenyExternalInterrupt {
        /// Interrupt ID, in `a0`.
        id: i64,
    },
}

impl CoveGuestFunction {
    /// The function a register frame decodes to: the selector in `a6` picks
    /// the variant, whose fields come from `a0`-`a1`.
    pub open spec fn spec_from_regs(args: Seq<u64>) -> Result<CoveGuestFunction, Error> {
        match args[6] {
            0u64 => Ok(CoveGuestFunction::AddMmioRegion { addr: args[0], len: args[1] }),
            1u64 => Ok(CoveGuestFunction::RemoveMmioRegion { addr: args[0], len: args[1] }),
            2u64 => Ok(CoveGuestFunction::ShareMemory { addr: args[0], len: args[1] }),
            3u64 => Ok(CoveGuestFunction::UnshareMemory { addr: args[0], len: args[1] }),
            4u64 => Ok(CoveGuestFunction::AllowExternalInterrupt { id: args[0] as i64 }),
            5u64 => Ok(CoveGuestFunction::DenyExternalInterrupt { id: args[0] as i64 }),
            _ => Err(Error::UnsupportedFunction),
        }
    }

    /// Attempts to parse `Self` from the passed in `a0`-`a7`.
    pub fn from_regs(args: &[u64]) -> (r: Result<CoveGuestFunction, Error>)
        requires
            args@.len() >= 8,
        ensures
            r == CoveGuestFunction::spec_from_regs(args@),
    {
        match args[6] {
            0u64 => Ok(CoveGuestFunction::AddMmioRegion { addr: args[0], len: args[1] }),
            1u64 => Ok(CoveGuestFunction::RemoveMmioRegion { addr: args[0], len: args[1] }),
            2u64 => Ok(CoveGuestFunction::ShareMemory { addr: args[0], len: args[1] }),
            3u64 => Ok(CoveGuestFunction::UnshareMemory { addr: args[0], len: args[1] }),
            4u64 => Ok(CoveGuestFunction::AllowExternalInterrupt { id: args[0] as i64 }),
            5u64 => Ok(CoveGuestFunction::DenyExternalInterrupt { id: args[0] as i64 }),
            _ => Err(Error::UnsupportedFunction),
        }
    }

    /// The value this function encodes into register `a0`.
    pub open spec fn spec_a0(self) -> u64 {
        match self {
            CoveGuestFunction::AddMmioRegion { addr, .. } => addr,
            CoveGuestFunction::RemoveMmioRegion { addr, .. } => addr,
            CoveGuestFunction::ShareMemory { addr, .. } => addr,
            CoveGuestFunction::UnshareMemory { addr, .. } => addr,
            CoveGuestFunction::AllowExternalInterrupt { id } => id as u64,
            CoveGuestFunction::DenyExternalInterrupt { id } => id as u64,
        }
    }

    /// The value this function encodes into register `a1`.
    pub open spec fn spec_a1(self) -> u64 {
        match self {
            CoveGuestFunction::AddMmioRegion { len, .. } => len,
            CoveGuestFunction::RemoveMmioRegion { len, .. } => len,
            CoveGuestFunction::ShareMemory { len, .. } => len,
            CoveGuestFunction::UnshareMemory { len, .. } => len,
            _ => 0,
        }
    }

    /// The function selector this function encodes into register `a6`.
    pub open spec fn spec_a6(self) -> u64 {
        match self {
            CoveGuestFunction::AddMmioRegion { .. } => 0,
            CoveGuestFunction::RemoveMmioRegion { .. } => 1,
            CoveGuestFunction::ShareMemory { .. } => 2,
            CoveGuestFunction::UnshareMemory { .. } => 3,
            CoveGuestFunction::AllowExternalInterrupt { .. } => 4,
            CoveGuestFunction::DenyExternalInterrupt { .. } => 5,
        }
    }

    /// Returns the value to be set in register `a0` for this function.
    pub fn a0(&self) -> (r: u64)
        ensures
            r == self.spec_a0(),
    {
        match self {
            CoveGuestFunction::AddMmioRegion { addr, len: _ } => *addr,
            CoveGuestFunction::RemoveMmioRegion { addr, len: _ } => *addr,
            CoveGuestFunction::ShareMemory { addr, len: _ } => *addr,
            CoveGuestFunction::UnshareMemory { addr, len: _ } => *addr,
            CoveGuestFunction::AllowExternalInterrupt { id } => *id as u64,
            CoveGuestFunction::DenyExternalInterrupt { id } => *id as u64,
        }
    }

    /// Returns the value to be set in register `a1` for this function.
    pub fn a1(&self) -> (r: u64)
        ensures
            r == self.spec_a1(),
    {
        match self {
            CoveGuestFunction::AddMmioRegion { addr: _, len } => *len,
            CoveGuestFunction::RemoveMmioRegion { addr: _, len } => *len,
            CoveGuestFunction::ShareMemory { addr: _, len } => *len,
            CoveGuestFunction::UnshareMemory { addr: _, len } => *len,
            _ => 0,
        }
    }

    /// Returns the value to be set in register `a2` for this function.
    pub fn a2(&self) -> (r: u64)
        ensures
            r == 0,
    {
        0
    }

    /// Returns the value to be set in register `a3` for this function.
    pub fn a3(&self) -> (r: u64)
        ensures
            r == 0,
    {
        0
    }

    /// Returns the value to be set in register `a4` for this function.
    pub fn a4(&self) -> (r: u64)
        ensures
            r == 0,
    {
        0
    }

    /// Returns the value to be set in register `a5` for this function.
    pub fn a5(&self) -> (r: u64)
        ensures
            r == 0,
    {
        0
    }

    /// Returns the function selector to be set in register `a6`.
    pub fn a6(&self) -> (r: u64)
        ensures
            r == self.spec_a6(),
    {
        match self {
            CoveGuestFunction::AddMmioRegion { .. } => 0,
            CoveGuestFunction::RemoveMmioRegion { .. } => 1,
            CoveGuestFunction::ShareMemory { .. } => 2,
            CoveGuestFunction::UnshareMemory { .. } => 3,
            CoveGuestFunction::AllowExternalInterrupt { .. } => 4,
            CoveGuestFunction::DenyExternalInterrupt { .. } => 5,
        }
    }

    /// The full argument frame this function encodes to, selector included
    /// and the extension slot left clear.
    pub open spec fn spec_frame(self) -> Seq<u64> {
        seq![self.spec_a0(), self.spec_a1(), 0u64, 0u64, 0u64, 0u64, self.spec_a6(), 0u64]
    }
}

/// Law: decoding the frame a COVE guest function encodes to yields the
/// function back, for every constructible value.
pub proof fn lemma_cove_guest_round_trip(f: CoveGuestFunction)
    ensures
        CoveGuestFunction::spec_from_regs(f.spec_frame()) == Ok::<CoveGuestFunction, Error>(f),
{
    match f {
        CoveGuestFunction::AllowExternalInterrupt { id } => {
            assert(id as u64 as i64 == id) by (bit_vector);
        },
        CoveGuestFunction::DenyExternalInterrupt { id } => {
            assert(id as u64 as i64 == id) by (bit_vector);
        },
        _ => {},
    }
}

/// Law: a frame whose selector is outside the known set decodes to an
/// unsupported-function error, never to a default.
pub proof fn lemma_cove_guest_unknown_selector(args: Seq<u64>)
    requires
        args.len() >= 8,
        args[6] > 5,
    ensures
        CoveGuestFunction::spec_from_regs(args) == Err::<CoveGuestFunction, Error>(
            Error::UnsupportedFunction,
        ),
{
}

} // verus!
