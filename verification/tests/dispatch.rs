use sbi_rs::consts::{
    SBI_ERR_DENIED, SBI_ERR_FAILED, SBI_ERR_INVALID_ADDRESS, SBI_ERR_INVALID_PARAM,
    SBI_ERR_NOT_SUPPORTED, SBI_SUCCESS,
};
use sbi_rs::error::{outcome_to_result, Error};

#[test]
fn zero_code_is_success_with_payload() {
    assert_eq!(outcome_to_result(SBI_SUCCESS, 0), Ok(0));
    assert_eq!(outcome_to_result(SBI_SUCCESS, 0xabcd), Ok(0xabcd));
}

#[test]
fn positive_code_passes_through() {
    assert_eq!(outcome_to_result(3, 999), Ok(3));
    assert_eq!(outcome_to_result(i64::MAX, 0), Ok(i64::MAX as u64));
}

#[test]
fn negative_codes_map_to_taxonomy() {
    assert_eq!(
        outcome_to_result(SBI_ERR_INVALID_PARAM, 0),
        Err(Error::InvalidParam)
    );
    assert_eq!(outcome_to_result(SBI_ERR_DENIED, 0), Err(Error::Denied));
    assert_eq!(
        outcome_to_result(SBI_ERR_INVALID_ADDRESS, 0),
        Err(Error::InvalidAddress)
    );
    assert_eq!(
        outcome_to_result(SBI_ERR_FAILED, 0),
        Err(Error::NotSupported(-1))
    );
    assert_eq!(
        outcome_to_result(SBI_ERR_NOT_SUPPORTED, 0),
        Err(Error::NotSupported(-2))
    );
    assert_eq!(
        outcome_to_result(-77, 5),
        Err(Error::NotSupported(-77))
    );
}

#[test]
fn each_negative_code_maps_to_one_member() {
    for code in [-1i64, -2, -3, -4, -5, -6, -100, i64::MIN] {
        let r = outcome_to_result(code, 1);
        assert!(r.is_err());
        // Translating twice gives the same member: the mapping is a
        // function of the code alone.
        assert_eq!(r, outcome_to_result(code, 2));
    }
}
