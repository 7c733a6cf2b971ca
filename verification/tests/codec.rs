use sbi_rs::consts::{
    EXT_COVE_GUEST, EXT_COVE_INTERRUPT, EXT_DBCN, EXT_NACL, EXT_RESET, EXT_VENDOR_RANGE_START,
};
use sbi_rs::cove_guest::CoveGuestFunction;
use sbi_rs::cove_interrupt::CoveInterruptFunction;
use sbi_rs::debug_console::DebugConsoleFunction;
use sbi_rs::error::Error;
use sbi_rs::message::SbiMessage;
use sbi_rs::nacl::NaclFunction;
use sbi_rs::rivos_test::{MemCopyArgs, RivosTestFunction};
use sbi_rs::vendor::VendorFunction;

#[test]
fn debug_console_round_trip() {
    let f = DebugConsoleFunction::Write {
        len: 16,
        addr: 0x8000_0000,
        addr_hi: 0,
    };
    let frame = [f.a0(), f.a1(), f.a2(), 0, 0, 0, f.a6(), 0];
    assert_eq!(DebugConsoleFunction::from_regs(&frame), Ok(f));

    let g = DebugConsoleFunction::WriteByte { byte: 0x41 };
    let frame = [g.a0(), g.a1(), g.a2(), 0, 0, 0, g.a6(), 0];
    assert_eq!(DebugConsoleFunction::from_regs(&frame), Ok(g));
}

#[test]
fn debug_console_rejects_unknown_selector() {
    let frame = [0u64, 0, 0, 0, 0, 0, 3, 0];
    assert_eq!(
        DebugConsoleFunction::from_regs(&frame),
        Err(Error::UnsupportedFunction)
    );
}

#[test]
fn cove_guest_round_trip() {
    let f = CoveGuestFunction::ShareMemory {
        addr: 0x1000,
        len: 0x2000,
    };
    let frame = [f.a0(), f.a1(), 0, 0, 0, 0, f.a6(), 0];
    assert_eq!(CoveGuestFunction::from_regs(&frame), Ok(f));

    // A negative interrupt ID survives the trip through a register word.
    let g = CoveGuestFunction::AllowExternalInterrupt { id: -1 };
    let frame = [g.a0(), g.a1(), 0, 0, 0, 0, g.a6(), 0];
    assert_eq!(CoveGuestFunction::from_regs(&frame), Ok(g));
}

#[test]
fn cove_guest_rejects_unknown_selector() {
    let frame = [0u64, 0, 0, 0, 0, 0, 6, 0];
    assert_eq!(
        CoveGuestFunction::from_regs(&frame),
        Err(Error::UnsupportedFunction)
    );
}

#[test]
fn cove_interrupt_round_trip() {
    let f = CoveInterruptFunction::TvmCpuRebindImsicBegin {
        tvm_id: 3,
        vcpu_id: 7,
        imsic_mask: 0b101,
    };
    let frame = [f.a0(), f.a1(), f.a2(), 0, 0, 0, f.a6(), 0];
    assert_eq!(CoveInterruptFunction::from_regs(&frame), Ok(f));
    assert_eq!(f.a6(), 8);
}

#[test]
fn cove_interrupt_rejects_unknown_selector() {
    let frame = [0u64, 0, 0, 0, 0, 0, 11, 0];
    assert_eq!(
        CoveInterruptFunction::from_regs(&frame),
        Err(Error::UnsupportedFunction)
    );
}

#[test]
fn nacl_round_trip() {
    let f = NaclFunction::SetShmem {
        shmem_addr: 0x9000_0000,
    };
    let frame = [f.a0(), 0, 0, 0, 0, 0, f.a6(), 0];
    assert_eq!(NaclFunction::from_regs(&frame), Ok(f));
}

#[test]
fn nacl_rejects_unknown_selector() {
    let frame = [0u64, 0, 0, 0, 0, 0, 2, 0];
    assert_eq!(NaclFunction::from_regs(&frame), Err(Error::UnsupportedFunction));
}

#[test]
fn rivos_test_round_trip() {
    let f = RivosTestFunction::MemCopy(MemCopyArgs {
        to: 0x1000,
        from: 0x2000,
        len: 64,
    });
    let frame = [f.a0(), f.a1(), f.a2(), 0, 0, 0, f.a6(), 0];
    assert_eq!(RivosTestFunction::from_regs(&frame), Ok(f));
}

#[test]
fn rivos_test_rejects_unknown_selector() {
    let frame = [0u64, 0, 0, 0, 0, 0, 1, 0];
    assert_eq!(
        RivosTestFunction::from_regs(&frame),
        Err(Error::UnsupportedFunction)
    );
}

#[test]
fn vendor_builders_zero_fill() {
    let eid = 0x0900_0001u32;
    let fid = 5u32;

    let f = VendorFunction::call0(eid, fid);
    assert_eq!(
        (f.a0(), f.a1(), f.a2(), f.a3(), f.a4(), f.a5()),
        (0, 0, 0, 0, 0, 0)
    );

    let f = VendorFunction::call1(eid, fid, 11);
    assert_eq!(
        (f.a0(), f.a1(), f.a2(), f.a3(), f.a4(), f.a5()),
        (11, 0, 0, 0, 0, 0)
    );

    let f = VendorFunction::call2(eid, fid, 11, 22);
    assert_eq!(
        (f.a0(), f.a1(), f.a2(), f.a3(), f.a4(), f.a5()),
        (11, 22, 0, 0, 0, 0)
    );

    let f = VendorFunction::call3(eid, fid, 11, 22, 33);
    assert_eq!(
        (f.a0(), f.a1(), f.a2(), f.a3(), f.a4(), f.a5()),
        (11, 22, 33, 0, 0, 0)
    );

    let f = VendorFunction::call4(eid, fid, 11, 22, 33, 44);
    assert_eq!(
        (f.a0(), f.a1(), f.a2(), f.a3(), f.a4(), f.a5()),
        (11, 22, 33, 44, 0, 0)
    );

    let f = VendorFunction::call5(eid, fid, 11, 22, 33, 44, 55);
    assert_eq!(
        (f.a0(), f.a1(), f.a2(), f.a3(), f.a4(), f.a5()),
        (11, 22, 33, 44, 55, 0)
    );
}

#[test]
fn vendor_round_trip() {
    let f = VendorFunction::call2(0x0900_0001, 7, 0xdead, 0xbeef);
    let frame = [
        f.a0(),
        f.a1(),
        f.a2(),
        f.a3(),
        f.a4(),
        f.a5(),
        f.a6(),
        0,
        f.id_word(),
    ];
    assert_eq!(VendorFunction::from_regs(&frame), Ok(f));
}

#[test]
fn vendor_id_word_packs_pair() {
    let f = VendorFunction::call0(0x0900_0001, 0x42);
    assert_eq!(f.id_word(), (0x0900_0001u64 << 32) | 0x42);
}

#[test]
fn message_round_trip_each_extension() {
    let messages = [
        SbiMessage::DebugConsole(DebugConsoleFunction::Read {
            len: 8,
            addr: 0x100,
            addr_hi: 0,
        }),
        SbiMessage::Reset(sbi_rs::reset::ResetFunction::shutdown()),
        SbiMessage::Nacl(NaclFunction::ProbeFeature { feature_id: 1 }),
        SbiMessage::CoveGuest(CoveGuestFunction::UnshareMemory {
            addr: 0x3000,
            len: 0x1000,
        }),
        SbiMessage::CoveInterrupt(CoveInterruptFunction::TsmConvertImsic {
            imsic_addr: 0x4000,
        }),
        SbiMessage::Vendor([1, 2, 3, 4, 5, 6, 7, EXT_VENDOR_RANGE_START + 9]),
    ];
    for m in messages {
        let regs = m.into_regs();
        assert_eq!(SbiMessage::from_regs(&regs), Ok(m));
    }
}

#[test]
fn message_eids() {
    assert_eq!(
        SbiMessage::Reset(sbi_rs::reset::ResetFunction::shutdown()).eid(),
        EXT_RESET
    );
    assert_eq!(
        SbiMessage::DebugConsole(DebugConsoleFunction::WriteByte { byte: 0 }).eid(),
        EXT_DBCN
    );
    assert_eq!(
        SbiMessage::Nacl(NaclFunction::ProbeFeature { feature_id: 0 }).eid(),
        EXT_NACL
    );
    assert_eq!(
        SbiMessage::CoveGuest(CoveGuestFunction::AddMmioRegion { addr: 0, len: 0 }).eid(),
        EXT_COVE_GUEST
    );
    assert_eq!(
        SbiMessage::CoveInterrupt(CoveInterruptFunction::TsmReclaimImsic { imsic_addr: 0 }).eid(),
        EXT_COVE_INTERRUPT
    );
    assert_eq!(SbiMessage::Vendor([0, 0, 0, 0, 0, 0, 0, 0x0900_0002]).eid(), 0x0900_0002);
}

#[test]
fn message_vendor_range_boundaries() {
    let low = [9u64, 8, 7, 6, 5, 4, 3, EXT_VENDOR_RANGE_START];
    assert_eq!(SbiMessage::from_regs(&low), Ok(SbiMessage::Vendor(low)));
    let high = [1u64, 2, 3, 4, 5, 6, 7, sbi_rs::consts::EXT_VENDOR_RANGE_END];
    assert_eq!(SbiMessage::from_regs(&high), Ok(SbiMessage::Vendor(high)));
    // One below and one above the range are unknown extensions.
    let below = [0u64, 0, 0, 0, 0, 0, 0, EXT_VENDOR_RANGE_START - 1];
    assert_eq!(SbiMessage::from_regs(&below), Err(Error::UnsupportedExtension));
    let above = [0u64, 0, 0, 0, 0, 0, 0, sbi_rs::consts::EXT_VENDOR_RANGE_END + 1];
    assert_eq!(SbiMessage::from_regs(&above), Err(Error::UnsupportedExtension));
}

#[test]
fn message_rejects_unknown_extension() {
    let frame = [0u64, 0, 0, 0, 0, 0, 0, 0x1234_5678];
    assert_eq!(
        SbiMessage::from_regs(&frame),
        Err(Error::UnsupportedExtension)
    );
}

#[test]
fn message_decode_error_propagates() {
    // A known extension with an unknown selector reports the selector, not
    // the extension.
    let frame = [0u64, 0, 0, 0, 0, 0, 9, EXT_RESET];
    assert_eq!(
        SbiMessage::from_regs(&frame),
        Err(Error::UnsupportedFunction)
    );
}
