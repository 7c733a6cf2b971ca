use sbi_rs::reset::{ResetFunction, ResetReason, ResetType};

#[test]
fn shutdown_systemfailure() {
    let reset = ResetFunction::Reset {
        reset_type: ResetType::Shutdown,
        reason: ResetReason::SystemFailure,
    };

    assert_eq!(reset.a0(), 0); // a0 = Shutdown (0x00000000)
    assert_eq!(reset.a1(), 1); // a1 = System failure (0x00000001)
    assert_eq!(reset.a6(), 0); // a6 = function id 0
}

#[test]
fn shutdown_noreason() {
    let reset = ResetFunction::Reset {
        reset_type: ResetType::Shutdown,
        reason: ResetReason::NoReason,
    };

    assert_eq!(reset.a0(), 0); // a0 = Shutdown (0x00000000)
    assert_eq!(reset.a1(), 0); // a1 = No reason (0x00000000)
    assert_eq!(reset.a6(), 0); // a6 = function id 0
}

#[test]
fn coldreset_noreason() {
    let reset = ResetFunction::Reset {
        reset_type: ResetType::ColdReset,
        reason: ResetReason::NoReason,
    };

    assert_eq!(reset.a0(), 1); // a0 = Cold reboot (0x00000001)
    assert_eq!(reset.a1(), 0); // a1 = No reason (0x00000000)
    assert_eq!(reset.a6(), 0); // a6 = function id 0
}

#[test]
fn warmreset_noreason() {
    let reset = ResetFunction::Reset {
        reset_type: ResetType::WarmReset,
        reason: ResetReason::NoReason,
    };

    assert_eq!(reset.a0(), 2); // a0 = Warm reboot (0x00000002)
    assert_eq!(reset.a1(), 0); // a1 = No reason (0x00000000)
    assert_eq!(reset.a6(), 0); // a6 = function id 0
}

#[test]
fn shutdown() {
    let reset = ResetFunction::shutdown();

    assert_eq!(reset.a0(), 0); // a0 = Shutdown (0x00000000)
    assert_eq!(reset.a1(), 0); // a1 = No reason (0x00000000)
    assert_eq!(reset.a6(), 0); // a6 = function id 0
}

#[test]
fn reset_decode_rejects_bad_type() {
    // Selector 0 with an unknown reset type in a0.
    let frame = [3u64, 0, 0, 0, 0, 0, 0, 0];
    assert_eq!(
        ResetFunction::from_regs(&frame),
        Err(sbi_rs::error::Error::InvalidParam)
    );
}

#[test]
fn reset_decode_rejects_bad_reason() {
    // Selector 0 with an unknown reset reason in a1.
    let frame = [0u64, 2, 0, 0, 0, 0, 0, 0];
    assert_eq!(
        ResetFunction::from_regs(&frame),
        Err(sbi_rs::error::Error::InvalidParam)
    );
}

#[test]
fn reset_decode_rejects_bad_selector() {
    let frame = [0u64, 0, 0, 0, 0, 0, 7, 0];
    assert_eq!(
        ResetFunction::from_regs(&frame),
        Err(sbi_rs::error::Error::UnsupportedFunction)
    );
}

#[test]
fn reset_round_trip() {
    let reset = ResetFunction::Reset {
        reset_type: ResetType::ColdReset,
        reason: ResetReason::SystemFailure,
    };
    let frame = [reset.a0(), reset.a1(), 0, 0, 0, 0, reset.a6(), 0];
    assert_eq!(ResetFunction::from_regs(&frame), Ok(reset));
}
