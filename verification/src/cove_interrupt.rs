//! The confidential-computing interrupt extension: AIA virtualization
//! setup, guest interrupt file conversion and reclaim, vCPU binding and
//! migration of interrupt files across physical CPUs, and host-side
//! interrupt injection.

use vstd::prelude::*;

use crate::error::Error;

verus! {

/// Functions provided by the COVE interrupt extension to the host.
#[derive(Copy, Clone, Debug, Eq, PartialEq, Structural)]
pub enum CoveInterruptFunction {
    /// Configures AIA virtualization for a TVM from a parameter structure
    /// of the given length at the given address.
    TvmAiaInit {
        /// TVM identifier, in `a0`.
        tvm_id: u64,
        /// Address of the parameter structure, in `a1`.
        params_addr: u64,
        /// Length in bytes of the parameter structure, in `a2`.
        len: u64,
    },
    /// Sets the guest physical address of a vCPU's virtualized IMSIC.
    TvmCpuSetImsicAddr {
        /// TVM identifier, in `a0`.
        tvm_id: u64,
        /// vCPU identifier, in `a1`.
        vcpu_id: u64,
        /// Guest physical address of the virtualized IMSIC, in `a2`.
        imsic_addr: u64,
    },
    /// Converts the guest interrupt file at the given address for use with
    /// a TVM. The caller must not access the file again until it has been
    /// reclaimed.
    TsmConvertImsic {
        /// Address of the guest interrupt file, in `a0`.
        imsic_addr: u64,
    },
    /// Reclaims a guest interrupt file that was previously converted.
    TsmReclaimImsic {
        /// Address of the guest interrupt file, in `a0`.
        imsic_addr: u64,
    },
    /// Binds a vCPU to the calling physical CPU and the specified set of
    /// confidential guest interrupt files. The referenced files must
    /// already be inaccessible to any other consumer.
    TvmCpuBindImsic {
        /// TVM identifier, in `a0`.
        tvm_id: u64,
        /// vCPU identifier, in `a1`.
        vcpu_id: u64,
        /// Bitmask of guest interrupt files to bind, in `a2`.
        imsic_mask: u64,
    },
    /// Begins the unbind of a vCPU from the calling physical CPU and its
    /// guest interrupt files. The host must complete a TLB invalidation
    /// sequence for the TVM before completing the unbind.
    TvmCpuUnbindImsicBegin {
        /// TVM identifier, in `a0`.
        tvm_id: u64,
        /// vCPU identifier, in `a1`.
        vcpu_id: u64,
    },
    /// Completes the unbind of a vCPU; only afterwards may the files be
    /// reused or the vCPU be bound to another physical CPU.
    TvmCpuUnbindImsicEnd {
        /// TVM identifier, in `a0`.
        tvm_id: u64,
        /// vCPU identifier, in `a1`.
        vcpu_id: u64,
    },
    /// Injects an external interrupt into a vCPU. The interrupt ID must
    /// have been allowed by the guest.
    TvmCpuInjectExternalInterrupt {
        /// TVM identifier, in `a0`.
        tvm_id: u64,
        /// vCPU identifier, in `a1`.
        vcpu_id: u64,
        /// External interrupt ID to inject, in `a2`.
        interrupt_id: u64,
    },
    /// Begins rebinding a vCPU to the calling (destination) physical CPU
    /// and the specified guest interrupt file. The host must complete a TLB
    /// invalidation sequence for the TVM before cloning the old file state.
    TvmCpuRebindImsicBegin {
        /// TVM identifier, in `a0`.
        tvm_id: u64,
        /// vCPU identifier, in `a1`.
        vcpu_id: u64,
        /// Bitmask of guest interrupt files to bind, in `a2`.
        imsic_mask: u64,
    },
    /// Clones the old guest interrupt file state of a vCPU being rebound;
    /// must be issued on the original physical CPU.
    TvmCpuRebindImsicClone {
        /// TVM identifier, in `a0`.
        tvm_id: u64,
        /// vCPU identifier, in `a1`.
        vcpu_id: u64,
    },
    /// Completes the rebind of a vCPU; must be issued on the same physical
    /// CPU as the matching begin.
    TvmCpuRebindImsicEnd {
        /// TVM identifier, in `a0`.
        tvm_id: u64,
        /// vCPU identifier, in `a1`.
        vcpu_id: u64,
    },
}

impl CoveInterruptFunction {
    /// The function a register frame decodes to: the selector in `a6` picks
    /// the variant, whose fields come from `a0`-`a2`.
    pub open spec fn spec_from_regs(args: Seq<u64>) -> Result<CoveInterruptFunction, Error> {
        match args[6] {
            0u64 => Ok(
                CoveInterruptFunction::TvmAiaInit {
                    tvm_id: args[0],
                    params_addr: args[1],
                    len: args[2],
                },
            ),
            1u64 => Ok(
                CoveInterruptFunction::TvmCpuSetImsicAddr {
                    tvm_id: args[0],
                    vcpu_id: args[1],
                    imsic_addr: args[2],
                },
            ),
            2u64 => Ok(CoveInterruptFunction::TsmConvertImsic { imsic_addr: args[0] }),
            3u64 => Ok(CoveInterruptFunction::TsmReclaimImsic { imsic_addr: args[0] }),
            4u64 => Ok(
                CoveInterruptFunction::TvmCpuBindImsic {
                    tvm_id: args[0],
                    vcpu_id: args[1],
                    imsic_mask: args[2],
                },
            ),
            5u64 => Ok(
                CoveInterruptFunction::TvmCpuUnbindImsicBegin {
                    tvm_id: args[0],
                    vcpu_id: args[1],
                },
            ),
            6u64 => Ok(
                CoveInterruptFunction::TvmCpuUnbindImsicEnd { tvm_id: args[0], vcpu_id: args[1] },
            ),
            7u64 => Ok(
                CoveInterruptFunction::TvmCpuInjectExternalInterrupt {
                    tvm_id: args[0],
                    vcpu_id: args[1],
                    interrupt_id: args[2],
                },
            ),
            8u64 => Ok(
                CoveInterruptFunction::TvmCpuRebindImsicBegin {
                    tvm_id: args[0],
                    vcpu_id: args[1],
                    imsic_mask: args[2],
                },
            ),
            9u64 => Ok(
                CoveInterruptFunction::TvmCpuRebindImsicClone {
                    tvm_id: args[0],
                    vcpu_id: args[1],
                },
            ),
            10u64 => Ok(
                CoveInterruptFunction::TvmCpuRebindImsicEnd { tvm_id: args[0], vcpu_id: args[1] },
            ),
            _ => Err(Error::UnsupportedFunction),
        }
    }

    /// Attempts to parse `Self` from the passed in `a0`-`a7`.
    pub fn from_regs(args: &[u64]) -> (r: Result<CoveInterruptFunction, Error>)
        requires
            args@.len() >= 8,
        ensures
            r == CoveInterruptFunction::spec_from_regs(args@),
    {
        match args[6] {
            0u64 => Ok(
                CoveInterruptFunction::TvmAiaInit {
                    tvm_id: args[0],
                    params_addr: args[1],
                    len: args[2],
                },
            ),
            1u64 => Ok(
                CoveInterruptFunction::TvmCpuSetImsicAddr {
                    tvm_id: args[0],
                    vcpu_id: args[1],
                    imsic_addr: args[2],
                },
            ),
            2u64 => Ok(CoveInterruptFunction::TsmConvertImsic { imsic_addr: args[0] }),
            3u64 => Ok(CoveInterruptFunction::TsmReclaimImsic { imsic_addr: args[0] }),
            4u64 => Ok(
                CoveInterruptFunction::TvmCpuBindImsic {
                    tvm_id: args[0],
                    vcpu_id: args[1],
                    imsic_mask: args[2],
                },
            ),
            5u64 => Ok(
                CoveInterruptFunction::TvmCpuUnbindImsicBegin {
                    tvm_id: args[0],
                    vcpu_id: args[1],
                },
            ),
            6u64 => Ok(
                CoveInterruptFunction::TvmCpuUnbindImsicEnd { tvm_id: args[0], vcpu_id: args[1] },
            ),
            7u64 => Ok(
                CoveInterruptFunction::TvmCpuInjectExternalInterrupt {
                    tvm_id: args[0],
                    vcpu_id: args[1],
                    interrupt_id: args[2],
                },
            ),
            8u64 => Ok(
                CoveInterruptFunction::TvmCpuRebindImsicBegin {
                    tvm_id: args[0],
                    vcpu_id: args[1],
                    imsic_mask: args[2],
                },
            ),
            9u64 => Ok(
                CoveInterruptFunction::TvmCpuRebindImsicClone {
                    tvm_id: args[0],
                    vcpu_id: args[1],
                },
            ),
            10u64 => Ok(
                CoveInterruptFunction::TvmCpuRebindImsicEnd { tvm_id: args[0], vcpu_id: args[1] },
            ),
            _ => Err(Error::UnsupportedFunction),
        }
    }

    /// The value this function encodes into register `a0`.
    pub open spec fn spec_a0(self) -> u64 {
        match self {
            CoveInterruptFunction::TvmAiaInit { tvm_id, .. } => tvm_id,
            CoveInterruptFunction::TvmCpuSetImsicAddr { tvm_id, .. } => tvm_id,
            CoveInterruptFunction::TsmConvertImsic { imsic_addr } => imsic_addr,
            CoveInterruptFunction::TsmReclaimImsic { imsic_addr } => imsic_addr,
            CoveInterruptFunction::TvmCpuBindImsic { tvm_id, .. } => tvm_id,
            CoveInterruptFunction::TvmCpuUnbindImsicBegin { tvm_id, .. } => tvm_id,
            CoveInterruptFunction::TvmCpuUnbindImsicEnd { tvm_id, .. } => tvm_id,
            CoveInterruptFunction::TvmCpuInjectExternalInterrupt { tvm_id, .. } => tvm_id,
            CoveInterruptFunction::TvmCpuRebindImsicBegin { tvm_id, .. } => tvm_id,
            CoveInterruptFunction::TvmCpuRebindImsicClone { tvm_id, .. } => tvm_id,
            CoveInterruptFunction::TvmCpuRebindImsicEnd { tvm_id, .. } => tvm_id,
        }
    }

    /// The value this function encodes into register `a1`.
    pub open spec fn spec_a1(self) -> u64 {
        match self {
            CoveInterruptFunction::TvmAiaInit { params_addr, .. } => params_addr,
            CoveInterruptFunction::TvmCpuSetImsicAddr { vcpu_id, .. } => vcpu_id,
            CoveInterruptFunction::TsmConvertImsic { .. } => 0,
            CoveInterruptFunction::TsmReclaimImsic { .. } => 0,
            CoveInterruptFunction::TvmCpuBindImsic { vcpu_id, .. } => vcpu_id,
            CoveInterruptFunction::TvmCpuUnbindImsicBegin { vcpu_id, .. } => vcpu_id,
            CoveInterruptFunction::TvmCpuUnbindImsicEnd { vcpu_id, .. } => vcpu_id,
            CoveInterruptFunction::TvmCpuInjectExternalInterrupt { vcpu_id, .. } => vcpu_id,
            CoveInterruptFunction::TvmCpuRebindImsicBegin { vcpu_id, .. } => vcpu_id,
            CoveInterruptFunction::TvmCpuRebindImsicClone { vcpu_id, .. } => vcpu_id,
            CoveInterruptFunction::TvmCpuRebindImsicEnd { vcpu_id, .. } => vcpu_id,
        }
    }

    /// The value this function encodes into register `a2`.
    pub open spec fn spec_a2(self) -> u64 {
        match self {
            CoveInterruptFunction::TvmAiaInit { len, .. } => len,
            CoveInterruptFunction::TvmCpuSetImsicAddr { imsic_addr, .. } => imsic_addr,
            CoveInterruptFunction::TvmCpuBindImsic { imsic_mask, .. } => imsic_mask,
            CoveInterruptFunction::TvmCpuInjectExternalInterrupt { interrupt_id, .. } => interrupt_id,
            CoveInterruptFunction::TvmCpuRebindImsicBegin { imsic_mask, .. } => imsic_mask,
            _ => 0,
        }
    }

    /// The function selector this function encodes into register `a6`.
    pub open spec fn spec_a6(self) -> u64 {
        match self {
            CoveInterruptFunction::TvmAiaInit { .. } => 0,
            CoveInterruptFunction::TvmCpuSetImsicAddr { .. } => 1,
            CoveInterruptFunction::TsmConvertImsic { .. } => 2,
            CoveInterruptFunction::TsmReclaimImsic { .. } => 3,
            CoveInterruptFunction::TvmCpuBindImsic { .. } => 4,
            CoveInterruptFunction::TvmCpuUnbindImsicBegin { .. } => 5,
            CoveInterruptFunction::TvmCpuUnbindImsicEnd { .. } => 6,
            CoveInterruptFunction::TvmCpuInjectExternalInterrupt { .. } => 7,
            CoveInterruptFunction::TvmCpuRebindImsicBegin { .. } => 8,
            CoveInterruptFunction::TvmCpuRebindImsicClone { .. } => 9,
            CoveInterruptFunction::TvmCpuRebindImsicEnd { .. } => 10,
        }
    }

    /// Returns the value to be set in register `a0` for this function.
    pub fn a0(&self) -> (r: u64)
        ensures
            r == self.spec_a0(),
    {
        match self {
            CoveInterruptFunction::TvmAiaInit { tvm_id, .. } => *tvm_id,
            CoveInterruptFunction::TvmCpuSetImsicAddr { tvm_id, .. } => *tvm_id,
            CoveInterruptFunction::TsmConvertImsic { imsic_addr } => *imsic_addr,
            CoveInterruptFunction::TsmReclaimImsic { imsic_addr } => *imsic_addr,
            CoveInterruptFunction::TvmCpuBindImsic { tvm_id, .. } => *tvm_id,
            CoveInterruptFunction::TvmCpuUnbindImsicBegin { tvm_id, .. } => *tvm_id,
            CoveInterruptFunction::TvmCpuUnbindImsicEnd { tvm_id, .. } => *tvm_id,
            CoveInterruptFunction::TvmCpuInjectExternalInterrupt { tvm_id, .. } => *tvm_id,
            CoveInterruptFunction::TvmCpuRebindImsicBegin { tvm_id, .. } => *tvm_id,
            CoveInterruptFunction::TvmCpuRebindImsicClone { tvm_id, .. } => *tvm_id,
            CoveInterruptFunction::TvmCpuRebindImsicEnd { tvm_id, .. } => *tvm_id,
        }
    }

    /// Returns the value to be set in register `a1` for this function.
    pub fn a1(&self) -> (r: u64)
        ensures
            r == self.spec_a1(),
    {
        match self {
            CoveInterruptFunction::TvmAiaInit { params_addr, .. } => *params_addr,
            CoveInterruptFunction::TvmCpuSetImsicAddr { vcpu_id, .. } => *vcpu_id,
            CoveInterruptFunction::TsmConvertImsic { .. } => 0,
            CoveInterruptFunction::TsmReclaimImsic { .. } => 0,
            CoveInterruptFunction::TvmCpuBindImsic { vcpu_id, .. } => *vcpu_id,
            CoveInterruptFunction::TvmCpuUnbindImsicBegin { vcpu_id, .. } => *vcpu_id,
            CoveInterruptFunction::TvmCpuUnbindImsicEnd { vcpu_id, .. } => *vcpu_id,
            CoveInterruptFunction::TvmCpuInjectExternalInterrupt { vcpu_id, .. } => *vcpu_id,
            CoveInterruptFunction::TvmCpuRebindImsicBegin { vcpu_id, .. } => *vcpu_id,
            CoveInterruptFunction::TvmCpuRebindImsicClone { vcpu_id, .. } => *vcpu_id,
            CoveInterruptFunction::TvmCpuRebindImsicEnd { vcpu_id, .. } => *vcpu_id,
        }
    }

    /// Returns the value to be set in register `a2` for this function.
    pub fn a2(&self) -> (r: u64)
        ensures
            r == self.spec_a2(),
    {
        match self {
            CoveInterruptFunction::TvmAiaInit { len, .. } => *len,
            CoveInterruptFunction::TvmCpuSetImsicAddr { imsic_addr, .. } => *imsic_addr,
            CoveInterruptFunction::TvmCpuBindImsic { imsic_mask, .. } => *imsic_mask,
            CoveInterruptFunction::TvmCpuInjectExternalInterrupt { interrupt_id, .. } => *interrupt_id,
            CoveInterruptFunction::TvmCpuRebindImsicBegin { imsic_mask, .. } => *imsic_mask,
            _ => 0,
        }
    }

    /// Returns the value to be set in register `a3` for this function.
    pub fn a3(&self) -> (r: u64)
        ensures
            r == 0,
    {
        0
    }

    /// Returns the value to be set in register `a4` for this function.
    pub fn a4(&self) -> (r: u64)
        ensures
            r == 0,
    {
        0
    }

    /// Returns the value to be set in register `a5` for this function.
    pub fn a5(&self) -> (r: u64)
        ensures
            r == 0,
    {
        0
    }

    /// Returns the function selector to be set in register `a6`.
    pub fn a6(&self) -> (r: u64)
        ensures
            r == self.spec_a6(),
    {
        match self {
            CoveInterruptFunction::TvmAiaInit { .. } => 0,
            CoveInterruptFunction::TvmCpuSetImsicAddr { .. } => 1,
            CoveInterruptFunction::TsmConvertImsic { .. } => 2,
            CoveInterruptFunction::TsmReclaimImsic { .. } => 3,
            CoveInterruptFunction::TvmCpuBindImsic { .. } => 4,
            CoveInterruptFunction::TvmCpuUnbindImsicBegin { .. } => 5,
            CoveInterruptFunction::TvmCpuUnbindImsicEnd { .. } => 6,
            CoveInterruptFunction::TvmCpuInjectExternalInterrupt { .. } => 7,
            CoveInterruptFunction::TvmCpuRebindImsicBegin { .. } => 8,
            CoveInterruptFunction::TvmCpuRebindImsicClone { .. } => 9,
            CoveInterruptFunction::TvmCpuRebindImsicEnd { .. } => 10,
        }
    }

    /// The full argument frame this function encodes to, selector included
    /// and the extension slot left clear.
    pub open spec fn spec_frame(self) -> Seq<u64> {
        seq![
            self.spec_a0(),
            self.spec_a1(),
            self.spec_a2(),
            0u64,
            0u64,
            0u64,
            self.spec_a6(),
            0u64,
        ]
    }
}

/// Law: decoding the frame a COVE interrupt function encodes to yields the
/// function back, for every constructible value.
pub proof fn lemma_cove_interrupt_round_trip(f: CoveInterruptFunction)
    ensures
        CoveInterruptFunction::spec_from_regs(f.spec_frame()) == Ok::<CoveInterruptFunction, Error>(
            f,
        ),
{
}

/// Law: a frame whose selector is outside the known set decodes to an
/// unsupported-function error, never to a default.
pub proof fn lemma_cove_interrupt_unknown_selector(args: Seq<u64>)
    requires
        args.len() >= 8,
        args[6] > 10,
    ensures
        CoveInterruptFunction::spec_from_regs(args) == Err::<CoveInterruptFunction, Error>(
            Error::UnsupportedFunction,
        ),
{
}

} // verus!
