//! The interrupt-file migration handshake: the lifecycle of the binding
//! between a vCPU, a physical CPU, and its guest interrupt files, driven by
//! the bind, unbind, and rebind calls of the COVE interrupt extension.
//!
//! The handshake is a one-way causal sequence: a begin step marks intent,
//! the host performs the TLB invalidation in between, and only the matching
//! clone and end steps complete the transition. A step issued out of order,
//! or from the wrong physical CPU, is rejected and leaves the binding in
//! the state the sequence had already reached; there is no undo.

use vstd::prelude::*;

use crate::error::Error;

verus! {

/// The lifecycle states of a vCPU's interrupt-file binding.
#[derive(Copy, Clone, Debug, Eq, PartialEq, Structural)]
pub enum BindingState {
    /// No physical CPU holds the vCPU's interrupt files.
    Unbound,
    /// The vCPU is bound to a physical CPU and a set of guest interrupt
    /// files.
    Bound {
        /// The physical CPU holding the binding.
        pcpu: u64,
        /// Bitmask of the bound guest interrupt files.
        file_mask: u64,
    },
    /// An unbind has begun; the files are released only once the host has
    /// invalidated stale translations and issued the matching end step.
    UnbindPending {
        /// The physical CPU holding the binding being released.
        pcpu: u64,
        /// Bitmask of the guest interrupt files being released.
        file_mask: u64,
    },
    /// A rebind to another physical CPU has begun; the old file state still
    /// awaits its clone step on the original CPU.
    RebindPending {
        /// The physical CPU the vCPU is migrating away from.
        old_pcpu: u64,
        /// Bitmask of the files bound on the original CPU.
        old_mask: u64,
        /// The physical CPU the vCPU is migrating to.
        new_pcpu: u64,
        /// Bitmask of the files claimed on the destination CPU.
        new_mask: u64,
    },
    /// The old file state has been cloned on the original CPU; only the end
    /// step on the destination CPU completes the migration.
    ClonedOnOldCpu {
        /// The physical CPU the vCPU is migrating away from.
        old_pcpu: u64,
        /// Bitmask of the files bound on the original CPU, now free to
        /// reclaim once the migration ends.
        old_mask: u64,
        /// The physical CPU the vCPU is migrating to.
        new_pcpu: u64,
        /// Bitmask of the files claimed on the destination CPU.
        new_mask: u64,
    },
}

/// The binding of one vCPU of one TVM, stepped by the migration calls in
/// the order the protocol demands.
#[derive(Copy, Clone, Debug, Eq, PartialEq, Structural)]
pub struct VcpuBinding {
    /// Current lifecycle state of the binding.
    pub state: BindingState,
}

impl VcpuBinding {
    /// A fresh vCPU starts with its interrupt files unbound.
    pub fn new() -> (r: VcpuBinding)
        ensures
            r.state == BindingState::Unbound,
    {
        VcpuBinding { state: BindingState::Unbound }
    }

    /// The state and result a bind call steps to: only an unbound vCPU can
    /// be bound; at most one binding is outstanding at a time.
    pub open spec fn spec_bind(s: BindingState, pcpu: u64, file_mask: u64) -> (
        BindingState,
        Result<(), Error>,
    ) {
        if s == BindingState::Unbound {
            (BindingState::Bound { pcpu, file_mask }, Ok(()))
        } else {
            (s, Err(Error::Denied))
        }
    }

    /// Binds the vCPU to the calling physical CPU and the given set of
    /// guest interrupt files. Rejected unless the vCPU is unbound: an
    /// unbind or rebind sequence must complete in full before a new bind.
    pub fn bind(&mut self, pcpu: u64, file_mask: u64) -> (r: Result<(), Error>)
        ensures
            (final(self).state, r) == VcpuBinding::spec_bind(old(self).state, pcpu, file_mask),
    {
        if matches!(self.state, BindingState::Unbound) {
            self.state = BindingState::Bound { pcpu, file_mask };
            Ok(())
        } else {
            Err(Error::Denied)
        }
    }

    /// The state and result an unbind-begin call steps to: only a bound
    /// vCPU can begin an unbind.
    pub open spec fn spec_unbind_begin(s: BindingState) -> (BindingState, Result<(), Error>) {
        match s {
            BindingState::Bound { pcpu, file_mask } => (
                BindingState::UnbindPending { pcpu, file_mask },
                Ok(()),
            ),
            _ => (s, Err(Error::Denied)),
        }
    }

    /// Marks the binding for release. The host must complete a TLB
    /// invalidation sequence for the TVM across all physical CPUs that may
    /// hold cached translations before issuing the matching end step.
    pub fn unbind_begin(&mut self) -> (r: Result<(), Error>)
        ensures
            (final(self).state, r) == VcpuBinding::spec_unbind_begin(old(self).state),
    {
        match self.state {
            BindingState::Bound { pcpu, file_mask } => {
                self.state = BindingState::UnbindPending { pcpu, file_mask };
                Ok(())
            },
            _ => Err(Error::Denied),
        }
    }

    /// The state and result an unbind-end call steps to: only a pending
    /// unbind can be finalized.
    pub open spec fn spec_unbind_end(s: BindingState) -> (BindingState, Result<(), Error>) {
        match s {
            BindingState::UnbindPending { .. } => (BindingState::Unbound, Ok(())),
            _ => (s, Err(Error::Denied)),
        }
    }

    /// Finalizes the release begun by [`VcpuBinding::unbind_begin`]. Only
    /// afterwards may the files be reused or the vCPU be bound elsewhere.
    pub fn unbind_end(&mut self) -> (r: Result<(), Error>)
        ensures
            (final(self).state, r) == VcpuBinding::spec_unbind_end(old(self).state),
    {
        match self.state {
            BindingState::UnbindPending { .. } => {
                self.state = BindingState::Unbound;
                Ok(())
            },
            _ => Err(Error::Denied),
        }
    }

    /// The state and result a rebind-begin call steps to: only a bound vCPU
    /// can begin a migration.
    pub open spec fn spec_rebind_begin(s: BindingState, new_pcpu: u64, new_mask: u64) -> (
        BindingState,
        Result<(), Error>,
    ) {
        match s {
            BindingState::Bound { pcpu, file_mask } => (
                BindingState::RebindPending { old_pcpu: pcpu, old_mask: file_mask, new_pcpu, new_mask },
                Ok(()),
            ),
            _ => (s, Err(Error::Denied)),
        }
    }

    /// Begins migrating the vCPU to the calling (destination) physical CPU
    /// and the given guest interrupt files. The host must complete a TLB
    /// invalidation sequence for the TVM before cloning the old file state.
    pub fn rebind_begin(&mut self, new_pcpu: u64, new_mask: u64) -> (r: Result<(), Error>)
        ensures
            (final(self).state, r) == VcpuBinding::spec_rebind_begin(
                old(self).state,
                new_pcpu,
                new_mask,
            ),
    {
        match self.state {
            BindingState::Bound { pcpu, file_mask } => {
                self.state = BindingState::RebindPending {
                    old_pcpu: pcpu,
                    old_mask: file_mask,
                    new_pcpu,
                    new_mask,
                };
                Ok(())
            },
            _ => Err(Error::Denied),
        }
    }

    /// The state and result a rebind-clone call steps to: only a pending
    /// rebind can be cloned, and only from the original physical CPU.
    pub open spec fn spec_rebind_clone(s: BindingState, calling_pcpu: u64) -> (
        BindingState,
        Result<(), Error>,
    ) {
        match s {
            BindingState::RebindPending { old_pcpu, old_mask, new_pcpu, new_mask } => {
                if calling_pcpu == old_pcpu {
                    (
                        BindingState::ClonedOnOldCpu { old_pcpu, old_mask, new_pcpu, new_mask },
                        Ok(()),
                    )
                } else {
                    (s, Err(Error::Denied))
                }
            },
            _ => (s, Err(Error::Denied)),
        }
    }

    /// Transfers the prior interrupt-file state into the new file. Must be
    /// issued on the original physical CPU; a call from any other CPU is a
    /// contract violation and is rejected.
    pub fn rebind_clone(&mut self, calling_pcpu: u64) -> (r: Result<(), Error>)
        ensures
            (final(self).state, r) == VcpuBinding::spec_rebind_clone(
                old(self).state,
                calling_pcpu,
            ),
    {
        match self.state {
            BindingState::RebindPending { old_pcpu, old_mask, new_pcpu, new_mask } => {
                if calling_pcpu == old_pcpu {
                    self.state = BindingState::ClonedOnOldCpu {
                        old_pcpu,
                        old_mask,
                        new_pcpu,
                        new_mask,
                    };
                    Ok(())
                } else {
                    Err(Error::Denied)
                }
            },
            _ => Err(Error::Denied),
        }
    }

    /// The state and result a rebind-end call steps to: only a cloned
    /// migration can be completed, and only from the destination physical
    /// CPU.
    pub open spec fn spec_rebind_end(s: BindingState, calling_pcpu: u64) -> (
        BindingState,
        Result<(), Error>,
    ) {
        match s {
            BindingState::ClonedOnOldCpu { new_pcpu, new_mask, .. } => {
                if calling_pcpu == new_pcpu {
                    (BindingState::Bound { pcpu: new_pcpu, file_mask: new_mask }, Ok(()))
                } else {
                    (s, Err(Error::Denied))
                }
            },
            _ => (s, Err(Error::Denied)),
        }
    }

    /// Completes the migration begun by [`VcpuBinding::rebind_begin`]. Must
    /// be issued on the destination physical CPU, after the clone step;
    /// afterwards the vCPU is eligible to run there and the old file is
    /// free for reuse.
    pub fn rebind_end(&mut self, calling_pcpu: u64) -> (r: Result<(), Error>)
        ensures
            (final(self).state, r) == VcpuBinding::spec_rebind_end(old(self).state, calling_pcpu),
    {
        match self.state {
            BindingState::ClonedOnOldCpu { old_pcpu: _, old_mask: _, new_pcpu, new_mask } => {
                if calling_pcpu == new_pcpu {
                    self.state = BindingState::Bound { pcpu: new_pcpu, file_mask: new_mask };
                    Ok(())
                } else {
                    Err(Error::Denied)
                }
            },
            _ => Err(Error::Denied),
        }
    }
}

/// Law: a rebind end issued without a prior matching begin and clone on the
/// same binding never completes a migration: from any state other than a
/// cloned migration it is rejected and leaves the state untouched, never
/// silently succeeding with stale state.
pub proof fn lemma_rebind_end_needs_clone(s: BindingState, calling_pcpu: u64)
    requires
        !(s matches BindingState::ClonedOnOldCpu { .. }),
    ensures
        VcpuBinding::spec_rebind_end(s, calling_pcpu) == (s, Err::<(), Error>(Error::Denied)),
{
}

/// Law: every step of the migration handshake either succeeds into the one
/// state the protocol prescribes or fails leaving the binding exactly as it
/// was; a rejected step never moves the state machine.
pub proof fn lemma_rejected_step_keeps_state(s: BindingState, pcpu: u64, mask: u64)
    ensures
        VcpuBinding::spec_bind(s, pcpu, mask).1 is Err ==> VcpuBinding::spec_bind(s, pcpu, mask).0
            == s,
        VcpuBinding::spec_unbind_begin(s).1 is Err ==> VcpuBinding::spec_unbind_begin(s).0 == s,
        VcpuBinding::spec_unbind_end(s).1 is Err ==> VcpuBinding::spec_unbind_end(s).0 == s,
        VcpuBinding::spec_rebind_begin(s, pcpu, mask).1 is Err ==> VcpuBinding::spec_rebind_begin(
            s,
            pcpu,
            mask,
        ).0 == s,
        VcpuBinding::spec_rebind_clone(s, pcpu).1 is Err ==> VcpuBinding::spec_rebind_clone(
            s,
            pcpu,
        ).0 == s,
        VcpuBinding::spec_rebind_end(s, pcpu).1 is Err ==> VcpuBinding::spec_rebind_end(s, pcpu).0
            == s,
{
}

} // verus!
