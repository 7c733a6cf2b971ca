//! The memory conversion handshake: guest-initiated, host-mediated
//! transitions of a guest physical region between confidential and shared.
//!
//! A share or unshare request first verifies alignment, containment, and
//! the region's starting state, and fails before any transition otherwise.
//! On success the region becomes removable and the host acts; the host's
//! status word then either completes the transition or returns the region
//! to its non-removable starting state, forwarding the error code.

use vstd::prelude::*;

use crate::error::Error;

verus! {

/// Size in bytes of the pages a convertible region is made of.
pub const PAGE_SIZE: u64 = 4096;

/// The conversion states of a guest physical region.
#[derive(Copy, Clone, Debug, Eq, PartialEq, Structural)]
pub enum RegionState {
    /// Accessible only through confidential mappings.
    Confidential,
    /// Provisionally marked for conversion to shared, awaiting host
    /// confirmation.
    ConfidentialRemovable,
    /// Accessible through shared mappings.
    Shared,
    /// Provisionally marked for conversion to confidential, awaiting host
    /// confirmation.
    SharedRemovable,
}

/// A guest physical region tracked through the conversion handshake:
/// a page-aligned address range together with its conversion state.
#[derive(Copy, Clone, Debug, Eq, PartialEq, Structural)]
pub struct GuestRegion {
    /// Start address of the region.
    pub addr: u64,
    /// Length in bytes of the region.
    pub len: u64,
    /// Current conversion state of the region.
    pub state: RegionState,
}

/// Whether an address/length pair is page-aligned.
pub open spec fn spec_page_aligned(addr: u64, len: u64) -> bool {
    addr % PAGE_SIZE == 0 && len % PAGE_SIZE == 0
}

impl GuestRegion {
    /// A region is well formed when its bounds are page-aligned and its end
    /// does not wrap the address space.
    pub open spec fn wf(self) -> bool {
        spec_page_aligned(self.addr, self.len) && self.addr + self.len <= u64::MAX
    }

    /// Whether the range `[addr, addr + len)` lies wholly within this
    /// region.
    pub open spec fn spec_contains(self, addr: u64, len: u64) -> bool {
        self.addr <= addr && addr + len <= self.addr + self.len
    }

    /// Creates a region in the given starting state, rejecting misaligned
    /// or wrapping bounds.
    pub fn new(addr: u64, len: u64, state: RegionState) -> (r: Result<GuestRegion, Error>)
        ensures
            r matches Ok(region) ==> region == (GuestRegion { addr, len, state }) && region.wf(),
            r matches Err(e) ==> e == Error::InvalidAddress && !(spec_page_aligned(addr, len)
                && addr + len <= u64::MAX),
    {
        if addr % PAGE_SIZE == 0 && len % PAGE_SIZE == 0 && len <= u64::MAX - addr {
            Ok(GuestRegion { addr, len, state })
        } else {
            Err(Error::InvalidAddress)
        }
    }

    /// The region and result a share request steps to: unchanged with an
    /// invalid-address error unless the range is page-aligned and lies
    /// wholly within the region with the region confidential, in which case
    /// the region becomes confidential-removable.
    pub open spec fn spec_share_begin(self, addr: u64, len: u64) -> (GuestRegion, Result<
        (),
        Error,
    >) {
        if spec_page_aligned(addr, len) && self.spec_contains(addr, len) && self.state
            == RegionState::Confidential {
            (GuestRegion { state: RegionState::ConfidentialRemovable, ..self }, Ok(()))
        } else {
            (self, Err(Error::InvalidAddress))
        }
    }

    /// Begins converting the range `[addr, addr + len)` from confidential
    /// to shared: marks the region confidential-removable for the host to
    /// act on. Fails fast, before any state transition, if the range is
    /// misaligned or does not lie wholly within this region with the
    /// region confidential.
    pub fn share_memory_begin(&mut self, addr: u64, len: u64) -> (r: Result<(), Error>)
        requires
            old(self).wf(),
        ensures
            (*final(self), r) == old(self).spec_share_begin(addr, len),
            final(self).wf(),
    {
        if addr % PAGE_SIZE == 0 && len % PAGE_SIZE == 0 && self.addr <= addr && len <= self.len
            && addr - self.addr <= self.len - len && matches!(self.state, RegionState::Confidential) {
            self.state = RegionState::ConfidentialRemovable;
            Ok(())
        } else {
            Err(Error::InvalidAddress)
        }
    }

    /// The region and result the host's decision on a pending share steps
    /// to: a zero status word completes the transition to shared, any other
    /// status returns the region to confidential and forwards the host's
    /// status word as the error.
    pub open spec fn spec_share_finish(self, host_status: u64) -> (GuestRegion, Result<(), u64>) {
        if host_status == 0 {
            (GuestRegion { state: RegionState::Shared, ..self }, Ok(()))
        } else {
            (GuestRegion { state: RegionState::Confidential, ..self }, Err(host_status))
        }
    }

    /// Completes a pending share once the host has acted: a zero status
    /// word in the shared scratch area signals that every confidential page
    /// was removed and the region becomes shared; a non-zero status rejects
    /// the request, the region returns to non-removable confidential, and
    /// the host's code is forwarded to the guest.
    pub fn share_memory_finish(&mut self, host_status: u64) -> (r: Result<(), u64>)
        requires
            old(self).wf(),
            old(self).state == RegionState::ConfidentialRemovable,
        ensures
            (*final(self), r) == old(self).spec_share_finish(host_status),
            final(self).wf(),
    {
        if host_status == 0 {
            self.state = RegionState::Shared;
            Ok(())
        } else {
            self.state = RegionState::Confidential;
            Err(host_status)
        }
    }

    /// The region and result an unshare request steps to: the mirror of
    /// [`GuestRegion::spec_share_begin`], from shared to shared-removable.
    pub open spec fn spec_unshare_begin(self, addr: u64, len: u64) -> (GuestRegion, Result<
        (),
        Error,
    >) {
        if spec_page_aligned(addr, len) && self.spec_contains(addr, len) && self.state
            == RegionState::Shared {
            (GuestRegion { state: RegionState::SharedRemovable, ..self }, Ok(()))
        } else {
            (self, Err(Error::InvalidAddress))
        }
    }

    /// Begins converting the range `[addr, addr + len)` from shared to
    /// confidential: marks the region shared-removable for the host to act
    /// on. Fails fast, before any state transition, if the range is
    /// misaligned or does not lie wholly within this region with the
    /// region shared.
    pub fn unshare_memory_begin(&mut self, addr: u64, len: u64) -> (r: Result<(), Error>)
        requires
            old(self).wf(),
        ensures
            (*final(self), r) == old(self).spec_unshare_begin(addr, len),
            final(self).wf(),
    {
        if addr % PAGE_SIZE == 0 && len % PAGE_SIZE == 0 && self.addr <= addr && len <= self.len
            && addr - self.addr <= self.len - len && matches!(self.state, RegionState::Shared) {
            self.state = RegionState::SharedRemovable;
            Ok(())
        } else {
            Err(Error::InvalidAddress)
        }
    }

    /// The region and result the host's decision on a pending unshare steps
    /// to: a zero status word completes the transition to confidential, any
    /// other status returns the region to shared and forwards the host's
    /// status word as the error.
    pub open spec fn spec_unshare_finish(self, host_status: u64) -> (GuestRegion, Result<
        (),
        u64,
    >) {
        if host_status == 0 {
            (GuestRegion { state: RegionState::Confidential, ..self }, Ok(()))
        } else {
            (GuestRegion { state: RegionState::Shared, ..self }, Err(host_status))
        }
    }

    /// Completes a pending unshare once the host has acted: a zero status
    /// word signals that every shared page was removed and the region
    /// becomes confidential; a non-zero status rejects the request, the
    /// region returns to non-removable shared, and the host's code is
    /// forwarded to the guest.
    pub fn unshare_memory_finish(&mut self, host_status: u64) -> (r: Result<(), u64>)
        requires
            old(self).wf(),
            old(self).state == RegionState::SharedRemovable,
        ensures
            (*final(self), r) == old(self).spec_unshare_finish(host_status),
            final(self).wf(),
    {
        if host_status == 0 {
            self.state = RegionState::Confidential;
            Ok(())
        } else {
            self.state = RegionState::Shared;
            Err(host_status)
        }
    }
}

/// Law: a conversion request with a misaligned range, a range not wholly
/// contained in the region, or a region not in the expected starting state
/// fails with an invalid-address error before any state transition is
/// recorded.
pub proof fn lemma_conversion_fails_fast(region: GuestRegion, addr: u64, len: u64)
    ensures
        !(spec_page_aligned(addr, len) && region.spec_contains(addr, len) && region.state
            == RegionState::Confidential) ==> region.spec_share_begin(addr, len) == (
        region,
        Err::<(), Error>(Error::InvalidAddress),
        ),
        !(spec_page_aligned(addr, len) && region.spec_contains(addr, len) && region.state
            == RegionState::Shared) ==> region.spec_unshare_begin(addr, len) == (
        region,
        Err::<(), Error>(Error::InvalidAddress),
        ),
{
}

} // verus!
