use dx12_hal::error::{
    into_device_result, into_result, DeviceError, HResultError, WinError, ERR_INVALIDARG,
    ERR_NOTIMPL, ERR_OUTOFMEMORY, ERR_UNEXPECTED,
};

#[test]
fn out_of_memory_is_kept_apart() {
    assert_eq!(
        WinError::map_win_error_to_device_error(ERR_OUTOFMEMORY),
        DeviceError::OutOfMemory
    );
}

#[test]
fn every_other_code_means_lost() {
    assert_eq!(
        WinError::map_win_error_to_device_error(ERR_UNEXPECTED),
        DeviceError::Lost
    );
    assert_eq!(
        WinError::map_win_error_to_device_error(ERR_INVALIDARG),
        DeviceError::Lost
    );
    assert_eq!(WinError::map_win_error_to_device_error(0), DeviceError::Lost);
    assert_eq!(
        WinError::map_win_error_to_device_error(0xDEAD_BEEF),
        DeviceError::Lost
    );
}

#[test]
fn non_negative_codes_succeed() {
    assert!(into_result(0).is_ok());
    assert!(into_result(7).is_ok());
    assert!(into_result(i32::MAX).is_ok());
    assert!(into_device_result(0).is_ok());
}

#[test]
fn failed_codes_are_classified() {
    assert_eq!(
        into_result(ERR_UNEXPECTED as i32),
        Err(HResultError::Unexpected)
    );
    assert_eq!(
        into_result(ERR_NOTIMPL as i32),
        Err(HResultError::NotImplemented)
    );
    assert_eq!(
        into_result(ERR_OUTOFMEMORY as i32),
        Err(HResultError::OutOfMemory)
    );
    assert_eq!(
        into_result(ERR_INVALIDARG as i32),
        Err(HResultError::InvalidArgument)
    );
    assert_eq!(
        into_result(0x8000_0001u32 as i32),
        Err(HResultError::Other(0x8000_0001))
    );
}

#[test]
fn device_results_collapse_to_the_taxonomy() {
    assert_eq!(
        into_device_result(ERR_OUTOFMEMORY as i32),
        Err(DeviceError::OutOfMemory)
    );
    assert_eq!(
        into_device_result(ERR_UNEXPECTED as i32),
        Err(DeviceError::Lost)
    );
    assert_eq!(
        into_device_result(0x8000_0001u32 as i32),
        Err(DeviceError::Lost)
    );
}

#[test]
fn descriptions_name_the_known_codes() {
    assert_eq!(HResultError::Unexpected.description(), "unexpected");
    assert_eq!(HResultError::NotImplemented.description(), "not implemented");
    assert_eq!(HResultError::OutOfMemory.description(), "out of memory");
    assert_eq!(HResultError::InvalidArgument.description(), "invalid argument");
}
