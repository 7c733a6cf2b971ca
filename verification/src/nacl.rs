//! The nested virtualization acceleration extension: feature probing, the
//! per-CPU shared-memory area registered with the host, and the transform
//! from a 12-bit CSR number to its slot in the area's CSR mirror.

use vstd::prelude::*;

use crate::error::Error;

verus! {

/// Number of bytes in the `NaclShmem` scratch area.
pub const NACL_SCRATCH_BYTES: usize = 2048;

/// Number of 64-bit words in the `NaclShmem` scratch area.
pub const NACL_SCRATCH_WORDS: usize = 256;

/// Layout of the shared-memory area registered with `SetShmem`.
///
/// The area is owned by the registering physical CPU and may be written by
/// the host at any time, so its contents must be treated as volatile until
/// the area is unregistered.
pub struct NaclShmem {
    /// Scratch space. The layout of this scratch space is defined by the
    /// particular function being invoked.
    pub scratch: [u64; 256],
    /// Reserved padding between the scratch space and the dirty bitmap.
    pub reserved: [u64; 240],
    /// Bitmap indicating which CSRs in `csrs` the host wishes to sync.
    ///
    /// Currently unused in the COVE-related extensions and will not be read
    /// or written by the monitor.
    pub dirty_bitmap: [u64; 16],
    /// Hypervisor and virtual-supervisor CSRs. The 12-bit CSR number is
    /// transformed into a 10-bit index by extracting bits `{csr[11:10],
    /// csr[7:0]}`, since `csr[9:8]` is always 2'b10 for HS and VS CSRs.
    pub csrs: [u64; 1024],
}

/// The index in the CSR mirror of the HS or VS CSR numbered `csr_num`:
/// bits 11:10 of the number, followed by its bits 7:0.
pub open spec fn spec_csr_index(csr_num: u16) -> u16 {
    ((csr_num & 0xc00) >> 2) | (csr_num & 0xff)
}

impl NaclShmem {
    /// Returns the index in `csrs` of the HS or VS CSR at `csr_num`.
    pub fn csr_index(csr_num: u16) -> (r: usize)
        ensures
            r == spec_csr_index(csr_num),
            r < 1024,
    {
        proof {
            lemma_csr_index_in_range(csr_num);
        }
        (((csr_num & 0xc00) >> 2) | (csr_num & 0xff)) as usize
    }
}

impl Default for NaclShmem {
    /// An all-zero shared-memory area.
    fn default() -> (r: NaclShmem)
        ensures
            r.scratch@ =~= Seq::new(256, |i: int| 0u64),
            r.dirty_bitmap@ =~= Seq::new(16, |i: int| 0u64),
            r.csrs@ =~= Seq::new(1024, |i: int| 0u64),
    {
        NaclShmem {
            scratch: [0u64; 256],
            reserved: [0u64; 240],
            dirty_bitmap: [0u64; 16],
            csrs: [0u64; 1024],
        }
    }
}

/// Law: the CSR index always falls within the bounds of the mirror.
pub proof fn lemma_csr_index_in_range(csr_num: u16)
    ensures
        spec_csr_index(csr_num) < 1024,
{
    assert(((csr_num & 0xc00) >> 2) | (csr_num & 0xff) < 1024) by (bit_vector);
}

/// Law: the CSR index is injective over the legal 12-bit CSR space the
/// transform is meant for, the numbers whose bits 9:8 are 2'b10.
pub proof fn lemma_csr_index_injective(a: u16, b: u16)
    requires
        a < 0x1000,
        b < 0x1000,
        a & 0x300 == 0x200,
        b & 0x300 == 0x200,
        spec_csr_index(a) == spec_csr_index(b),
    ensures
        a == b,
{
    assert(((a & 0xc00) >> 2) | (a & 0xff) == ((b & 0xc00) >> 2) | (b & 0xff) && a < 0x1000 && b
        < 0x1000 && a & 0x300 == 0x200 && b & 0x300 == 0x200 ==> a == b) by (bit_vector);
}

/// Feature IDs understood by `NaclFunction::ProbeFeature`.
#[derive(Copy, Clone, Debug, Eq, PartialEq, Structural)]
pub enum NaclFeature {
    /// The synchronize CSR feature: the implementation allows supervisor
    /// software to write hypervisor-extension CSRs through the CSR mirror.
    SyncCSR,
    /// The synchronize HFENCE feature: the implementation allows supervisor
    /// software to issue HFENCEs through the scratch space.
    SyncHfence,
    /// The synchronize SRET feature: the implementation synchronizes CSRs
    /// and HFENCEs in the shared-memory area along with SRET emulation.
    SyncSret,
    /// The autoswap CSR feature: the implementation swaps certain
    /// hypervisor-extension CSR values from the shared-memory area whenever
    /// the virtualization state of the supervisor software changes.
    AutoSwapCsr,
}

impl NaclFeature {
    /// The feature ID this feature is probed under.
    pub open spec fn spec_id(self) -> u64 {
        match self {
            NaclFeature::SyncCSR => 0,
            NaclFeature::SyncHfence => 1,
            NaclFeature::SyncSret => 2,
            NaclFeature::AutoSwapCsr => 3,
        }
    }

    /// Returns the feature ID this feature is probed under.
    pub fn id(&self) -> (r: u64)
        ensures
            r == self.spec_id(),
    {
        match self {
            NaclFeature::SyncCSR => 0,
            NaclFeature::SyncHfence => 1,
            NaclFeature::SyncSret => 2,
            NaclFeature::AutoSwapCsr => 3,
        }
    }
}

/// Functions provided by the nested virtualization acceleration extension.
#[derive(Copy, Clone, Debug, Eq, PartialEq, Structural)]
pub enum NaclFunction {
    /// Queries whether the host supports the feature with the given ID; see
    /// [`NaclFeature`] for the known IDs.
    ProbeFeature {
        /// Feature ID being checked, in `a0`.
        feature_id: u64,
    },
    /// Registers the shared memory area for the calling CPU. `shmem_addr` is
    /// the base address where the [`NaclShmem`] struct is placed in the
    /// caller's physical address space. The whole range of memory occupied
    /// by the struct must remain accessible to the caller until it is
    /// unregistered by calling this function with `shmem_addr` set to the
    /// all-bits-set sentinel.
    SetShmem {
        /// Address of the shared memory area, in `a0`.
        shmem_addr: u64,
    },
}

impl NaclFunction {
    /// The function a register frame decodes to: the selector in `a6` picks
    /// the variant, whose field comes from `a0`.
    pub open spec fn spec_from_regs(args: Seq<u64>) -> Result<NaclFunction, Error> {
        match args[6] {
            0u64 => Ok(NaclFunction::ProbeFeature { feature_id: args[0] }),
            1u64 => Ok(NaclFunction::SetShmem { shmem_addr: args[0] }),
            _ => Err(Error::UnsupportedFunction),
        }
    }

    /// Attempts to parse `Self` from the passed in `a0`-`a7`.
    pub fn from_regs(args: &[u64]) -> (r: Result<NaclFunction, Error>)
        requires
            args@.len() >= 8,
        ensures
            r == NaclFunction::spec_from_regs(args@),
    {
        match args[6] {
            0u64 => Ok(NaclFunction::ProbeFeature { feature_id: args[0] }),
            1u64 => Ok(NaclFunction::SetShmem { shmem_addr: args[0] }),
            _ => Err(Error::UnsupportedFunction),
        }
    }

    /// The value this function encodes into register `a0`.
    pub open spec fn spec_a0(self) -> u64 {
        match self {
            NaclFunction::ProbeFeature { feature_id } => feature_id,
            NaclFunction::SetShmem { shmem_addr } => shmem_addr,
        }
    }

    /// The function selector this function encodes into register `a6`.
    pub open spec fn spec_a6(self) -> u64 {
        match self {
            NaclFunction::ProbeFeature { .. } => 0,
            NaclFunction::SetShmem { .. } => 1,
        }
    }

    /// Returns the value to be set in register `a0` for this function.
    pub fn a0(&self) -> (r: u64)
        ensures
            r == self.spec_a0(),
    {
        match self {
            NaclFunction::ProbeFeature { feature_id } => *feature_id,
            NaclFunction::SetShmem { shmem_addr } => *shmem_addr,
        }
    }

    /// Returns the value to be set in register `a1` for this function.
    pub fn a1(&self) -> (r: u64)
        ensures
            r == 0,
    {
        0
    }

    /// Returns the value to be set in register `a2` for this function.
    pub fn a2(&self) -> (r: u64)
        ensures
            r == 0,
    {
        0
    }

    /// Returns the value to be set in register `a3` for this function.
    pub fn a3(&self) -> (r: u64)
        ensures
            r == 0,
    {
        0
    }

    /// Returns the value to be set in register `a4` for this function.
    pub fn a4(&self) -> (r: u64)
        ensures
            r == 0,
    {
        0
    }

    /// Returns the value to be set in register `a5` for this function.
    pub fn a5(&self) -> (r: u64)
        ensures
            r == 0,
    {
        0
    }

    /// Returns the function selector to be set in register `a6`.
    pub fn a6(&self) -> (r: u64)
        ensures
            r == self.spec_a6(),
    {
        match self {
            NaclFunction::ProbeFeature { .. } => 0,
            NaclFunction::SetShmem { .. } => 1,
        }
    }

    /// The full argument frame this function encodes to, selector included
    /// and the extension slot left clear.
    pub open spec fn spec_frame(self) -> Seq<u64> {
        seq![self.spec_a0(), 0u64, 0u64, 0u64, 0u64, 0u64, self.spec_a6(), 0u64]
    }
}

/// Law: decoding the frame a NACL function encodes to yields the function
/// back, for every constructible value.
pub proof fn lemma_nacl_round_trip(f: NaclFunction)
    ensures
        NaclFunction::spec_from_regs(f.spec_frame()) == Ok::<NaclFunction, Error>(f),
{
}

/// Law: a frame whose selector is outside the known set decodes to an
/// unsupported-function error, never to a default.
pub proof fn lemma_nacl_unknown_selector(args: Seq<u64>)
    requires
        args.len() >= 8,
        args[6] > 1,
    ensures
        NaclFunction::spec_from_regs(args) == Err::<NaclFunction, Error>(
            Error::UnsupportedFunction,
        ),
{
}

} // verus!
