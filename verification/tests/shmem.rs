use sbi_rs::nacl::{NaclFeature, NaclShmem, NACL_SCRATCH_BYTES, NACL_SCRATCH_WORDS};
use sbi_rs::salus::{MemCopyArgs, SalusSbiMessage, SalusTestFunction, EXT_SALUS_TEST};
use sbi_rs::message::SbiMessage;
use sbi_rs::error::Error;

#[test]
fn csr_index_known_values() {
    // vsstatus: bits 11:10 are 0, bits 7:0 are 0.
    assert_eq!(NaclShmem::csr_index(0x200), 0);
    // vsatp = 0x280.
    assert_eq!(NaclShmem::csr_index(0x280), 0x80);
    // hstatus = 0x600: bits 11:10 give 0x400 >> 2 = 0x100.
    assert_eq!(NaclShmem::csr_index(0x600), 0x100);
    // hgatp = 0x680.
    assert_eq!(NaclShmem::csr_index(0x680), 0x180);
    // A number with every relevant bit set lands at the top of the mirror.
    assert_eq!(NaclShmem::csr_index(0xeff), 0x3ff);
}

#[test]
fn csr_index_always_in_mirror() {
    for csr in 0u16..0x1000 {
        assert!(NaclShmem::csr_index(csr) < 1024);
    }
}

#[test]
fn csr_index_injective_on_hs_vs_space() {
    // Over the CSR numbers whose bits 9:8 are 2'b10, the transform never
    // collides.
    let mut seen = [false; 1024];
    let mut count = 0u32;
    for csr in 0u16..0x1000 {
        if csr & 0x300 == 0x200 {
            let idx = NaclShmem::csr_index(csr);
            assert!(!seen[idx], "collision at csr {csr:#x}");
            seen[idx] = true;
            count += 1;
        }
    }
    assert_eq!(count, 1024);
}

#[test]
fn shmem_default_is_zeroed() {
    let shmem = NaclShmem::default();
    assert!(shmem.scratch.iter().all(|w| *w == 0));
    assert!(shmem.dirty_bitmap.iter().all(|w| *w == 0));
    assert!(shmem.csrs.iter().all(|w| *w == 0));
    assert_eq!(NACL_SCRATCH_BYTES, NACL_SCRATCH_WORDS * 8);
    assert_eq!(shmem.scratch.len(), NACL_SCRATCH_WORDS);
}

#[test]
fn nacl_feature_ids() {
    assert_eq!(NaclFeature::SyncCSR.id(), 0);
    assert_eq!(NaclFeature::SyncHfence.id(), 1);
    assert_eq!(NaclFeature::SyncSret.id(), 2);
    assert_eq!(NaclFeature::AutoSwapCsr.id(), 3);
}

#[test]
fn salus_message_converts_to_vendor_message() {
    let func = SalusTestFunction::MemCopy(MemCopyArgs {
        to: 0x1000,
        from: 0x2000,
        len: 32,
    });
    let msg = SalusSbiMessage::SalusTest(func);
    assert_eq!(msg.eid(), EXT_SALUS_TEST);
    assert_eq!(msg.func(), func);

    let sbi: SbiMessage = msg.into();
    let regs = sbi.into_regs();
    assert_eq!(regs, [0x1000, 0x2000, 32, 0, 0, 0, 0, EXT_SALUS_TEST]);

    // The raw frame decodes back to the Salus message.
    assert_eq!(SalusSbiMessage::from_regs(&regs), Ok(msg));
    // And the message layer routes it through the vendor range.
    assert_eq!(SbiMessage::from_regs(&regs), Ok(SbiMessage::Vendor(regs)));
}

#[test]
fn salus_message_rejects_other_extension() {
    let frame = [0u64, 0, 0, 0, 0, 0, 0, 0x0900_0000];
    assert_eq!(
        SalusSbiMessage::from_regs(&frame),
        Err(Error::UnsupportedExtension)
    );
}

#[test]
fn salus_test_rejects_unknown_selector() {
    let frame = [0u64, 0, 0, 0, 0, 0, 4, EXT_SALUS_TEST];
    assert_eq!(
        SalusTestFunction::from_regs(&frame),
        Err(Error::UnsupportedFunction)
    );
}
