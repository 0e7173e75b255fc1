use monado::MndResult;

#[test]
fn to_result_success_is_ok() {
    assert_eq!(MndResult::Success.to_result(), Ok(()));
}

#[test]
fn to_result_errors_carry_themselves() {
    assert_eq!(
        MndResult::ErrorInvalidVersion.to_result(),
        Err(MndResult::ErrorInvalidVersion)
    );
    assert_eq!(
        MndResult::ErrorInvalidValue.to_result(),
        Err(MndResult::ErrorInvalidValue)
    );
    assert_eq!(
        MndResult::ErrorConnectingFailed.to_result(),
        Err(MndResult::ErrorConnectingFailed)
    );
    assert_eq!(
        MndResult::ErrorOperationFailed.to_result(),
        Err(MndResult::ErrorOperationFailed)
    );
}

#[test]
fn from_code_maps_documented_codes() {
    assert_eq!(MndResult::from_code(0), MndResult::Success);
    assert_eq!(MndResult::from_code(-1), MndResult::ErrorInvalidVersion);
    assert_eq!(MndResult::from_code(-2), MndResult::ErrorInvalidValue);
    assert_eq!(MndResult::from_code(-3), MndResult::ErrorConnectingFailed);
    assert_eq!(MndResult::from_code(-4), MndResult::ErrorOperationFailed);
}

#[test]
fn from_code_unknown_negative_is_operation_failed() {
    assert_eq!(MndResult::from_code(-5), MndResult::ErrorOperationFailed);
    assert_eq!(MndResult::from_code(-77), MndResult::ErrorOperationFailed);
    assert_eq!(MndResult::from_code(i32::MIN), MndResult::ErrorOperationFailed);
}

#[test]
fn from_code_positive_is_success() {
    assert_eq!(MndResult::from_code(1), MndResult::Success);
    assert_eq!(MndResult::from_code(i32::MAX), MndResult::Success);
}
