//! The library's SBI return codes against the `sbi-spec` crate's
//! canonical encoding.

use coffer_sbi::sbi::{
    SbiRet, RET_ERR_DENIED, RET_ERR_FAILED, RET_ERR_INVALID_PARAM, RET_ERR_NOT_SUPPORTED,
    RET_SUCCESS,
};

#[test]
fn error_codes_match_the_sbi_specification() {
    assert_eq!(RET_SUCCESS, sbi_spec::binary::SbiRet::success(0usize).error);
    assert_eq!(RET_ERR_FAILED, sbi_spec::binary::SbiRet::<usize>::failed().error);
    assert_eq!(
        RET_ERR_NOT_SUPPORTED,
        sbi_spec::binary::SbiRet::<usize>::not_supported().error
    );
    assert_eq!(
        RET_ERR_INVALID_PARAM,
        sbi_spec::binary::SbiRet::<usize>::invalid_param().error
    );
    assert_eq!(RET_ERR_DENIED, sbi_spec::binary::SbiRet::<usize>::denied().error);
}

#[test]
fn constructors_set_error_and_value() {
    let ok = SbiRet::success(0x1234);
    assert_eq!(ok.error, RET_SUCCESS);
    assert_eq!(ok.value, 0x1234);
    assert!(ok.is_ok());
    assert!(!ok.is_err());

    let denied = SbiRet::denied();
    assert_eq!(denied.error, RET_ERR_DENIED);
    assert_eq!(denied.value, 0);
    assert!(denied.is_err());

    let inval = SbiRet::invalid_param();
    assert_eq!(inval.error, RET_ERR_INVALID_PARAM);
    let nosup = SbiRet::not_supported();
    assert_eq!(nosup.error, RET_ERR_NOT_SUPPORTED);
    let failed = SbiRet::failed();
    assert_eq!(failed.error, RET_ERR_FAILED);
}
