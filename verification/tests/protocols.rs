use sbi_rs::error::Error;
use sbi_rs::imsic_binding::{BindingState, VcpuBinding};
use sbi_rs::interrupt_gate::InterruptGate;
use sbi_rs::memory_conversion::{GuestRegion, RegionState};

#[test]
fn share_memory_happy_path() {
    let mut region = GuestRegion::new(0x10000, 0x8000, RegionState::Confidential).unwrap();
    assert_eq!(region.share_memory_begin(0x11000, 0x2000), Ok(()));
    assert_eq!(region.state, RegionState::ConfidentialRemovable);
    assert_eq!(region.share_memory_finish(0), Ok(()));
    assert_eq!(region.state, RegionState::Shared);
}

#[test]
fn share_memory_host_rejection_forwards_code() {
    let mut region = GuestRegion::new(0x10000, 0x8000, RegionState::Confidential).unwrap();
    assert_eq!(region.share_memory_begin(0x10000, 0x8000), Ok(()));
    assert_eq!(region.share_memory_finish(42), Err(42));
    assert_eq!(region.state, RegionState::Confidential);
}

#[test]
fn share_memory_misaligned_fails_before_transition() {
    let mut region = GuestRegion::new(0x10000, 0x8000, RegionState::Confidential).unwrap();
    let before = region;
    assert_eq!(
        region.share_memory_begin(0x10001, 0x1000),
        Err(Error::InvalidAddress)
    );
    assert_eq!(region, before);
    assert_eq!(
        region.share_memory_begin(0x10000, 0x1234),
        Err(Error::InvalidAddress)
    );
    assert_eq!(region, before);
}

#[test]
fn share_memory_out_of_bounds_fails_before_transition() {
    let mut region = GuestRegion::new(0x10000, 0x8000, RegionState::Confidential).unwrap();
    let before = region;
    assert_eq!(
        region.share_memory_begin(0x17000, 0x2000),
        Err(Error::InvalidAddress)
    );
    assert_eq!(region, before);
}

#[test]
fn share_memory_wrong_state_fails_before_transition() {
    let mut region = GuestRegion::new(0x10000, 0x8000, RegionState::Shared).unwrap();
    let before = region;
    assert_eq!(
        region.share_memory_begin(0x10000, 0x1000),
        Err(Error::InvalidAddress)
    );
    assert_eq!(region, before);
}

#[test]
fn unshare_memory_mirrors_share() {
    let mut region = GuestRegion::new(0x20000, 0x4000, RegionState::Shared).unwrap();
    let before = region;
    assert_eq!(
        region.unshare_memory_begin(0x20001, 0x1000),
        Err(Error::InvalidAddress)
    );
    assert_eq!(region, before);
    assert_eq!(region.unshare_memory_begin(0x20000, 0x4000), Ok(()));
    assert_eq!(region.state, RegionState::SharedRemovable);
    assert_eq!(region.unshare_memory_finish(7), Err(7));
    assert_eq!(region.state, RegionState::Shared);
    assert_eq!(region.unshare_memory_begin(0x20000, 0x4000), Ok(()));
    assert_eq!(region.unshare_memory_finish(0), Ok(()));
    assert_eq!(region.state, RegionState::Confidential);
}

#[test]
fn region_new_rejects_misaligned() {
    assert_eq!(
        GuestRegion::new(0x10001, 0x1000, RegionState::Confidential),
        Err(Error::InvalidAddress)
    );
    assert_eq!(
        GuestRegion::new(u64::MAX - 0xfff, 0x2000, RegionState::Confidential),
        Err(Error::InvalidAddress)
    );
}

#[test]
fn unbind_sequence() {
    let mut b = VcpuBinding::new();
    assert_eq!(b.bind(1, 0b1), Ok(()));
    assert_eq!(
        b.state,
        BindingState::Bound {
            pcpu: 1,
            file_mask: 0b1
        }
    );
    // A second bind without completing a release is rejected.
    assert_eq!(b.bind(2, 0b10), Err(Error::Denied));
    assert_eq!(b.unbind_begin(), Ok(()));
    // The bind stays pending until the end step.
    assert_eq!(b.bind(2, 0b10), Err(Error::Denied));
    assert_eq!(b.unbind_end(), Ok(()));
    assert_eq!(b.state, BindingState::Unbound);
    assert_eq!(b.bind(2, 0b10), Ok(()));
}

#[test]
fn rebind_sequence() {
    let mut b = VcpuBinding::new();
    assert_eq!(b.bind(1, 0b1), Ok(()));
    assert_eq!(b.rebind_begin(2, 0b100), Ok(()));
    // The clone step must come from the original physical CPU.
    assert_eq!(b.rebind_clone(2), Err(Error::Denied));
    assert_eq!(b.rebind_clone(1), Ok(()));
    // The end step must come from the destination physical CPU.
    assert_eq!(b.rebind_end(1), Err(Error::Denied));
    assert_eq!(b.rebind_end(2), Ok(()));
    assert_eq!(
        b.state,
        BindingState::Bound {
            pcpu: 2,
            file_mask: 0b100
        }
    );
}

#[test]
fn rebind_end_without_begin_and_clone_is_rejected() {
    let mut b = VcpuBinding::new();
    assert_eq!(b.rebind_end(1), Err(Error::Denied));
    assert_eq!(b.state, BindingState::Unbound);

    assert_eq!(b.bind(1, 0b1), Ok(()));
    let bound = b.state;
    assert_eq!(b.rebind_end(1), Err(Error::Denied));
    assert_eq!(b.state, bound);

    assert_eq!(b.rebind_begin(2, 0b10), Ok(()));
    let pending = b.state;
    // Begin alone, without the clone, does not let the end step through.
    assert_eq!(b.rebind_end(2), Err(Error::Denied));
    assert_eq!(b.state, pending);
}

#[test]
fn unbind_steps_out_of_order_are_rejected() {
    let mut b = VcpuBinding::new();
    assert_eq!(b.unbind_begin(), Err(Error::Denied));
    assert_eq!(b.unbind_end(), Err(Error::Denied));
    assert_eq!(b.rebind_begin(1, 0b1), Err(Error::Denied));
    assert_eq!(b.rebind_clone(1), Err(Error::Denied));
    assert_eq!(b.state, BindingState::Unbound);
}

#[test]
fn gate_denies_everything_by_default() {
    let gate = InterruptGate::new();
    assert_eq!(gate.check_inject(0), Err(Error::Denied));
    assert_eq!(gate.check_inject(9), Err(Error::Denied));
    assert_eq!(gate.check_inject(u64::MAX), Err(Error::Denied));
}

#[test]
fn gate_allows_single_id() {
    let mut gate = InterruptGate::new();
    assert_eq!(gate.allow(9), Ok(()));
    assert_eq!(gate.check_inject(9), Ok(()));
    assert_eq!(gate.check_inject(8), Err(Error::Denied));
    assert_eq!(gate.deny(9), Ok(()));
    assert_eq!(gate.check_inject(9), Err(Error::Denied));
}

#[test]
fn gate_wildcard_allows_and_denies_all() {
    let mut gate = InterruptGate::new();
    assert_eq!(gate.allow(-1), Ok(()));
    assert_eq!(gate.check_inject(0), Ok(()));
    assert_eq!(gate.check_inject(123), Ok(()));
    assert_eq!(gate.deny(5), Ok(()));
    assert_eq!(gate.check_inject(5), Err(Error::Denied));
    assert_eq!(gate.check_inject(123), Ok(()));
    assert_eq!(gate.deny(-1), Ok(()));
    assert_eq!(gate.check_inject(123), Err(Error::Denied));
}

#[test]
fn gate_rejects_invalid_id() {
    let mut gate = InterruptGate::new();
    assert_eq!(gate.allow(-2), Err(Error::InvalidParam));
    assert_eq!(gate.deny(i64::MIN), Err(Error::InvalidParam));
    assert_eq!(gate.check_inject(0), Err(Error::Denied));
}
