use fswatch::status::{
    FSW_ERR_CALLBACK_NOT_SET, FSW_ERR_INVALID_CALLBACK, FSW_ERR_INVALID_LATENCY,
    FSW_ERR_INVALID_PATH, FSW_ERR_INVALID_PROPERTY, FSW_ERR_INVALID_REGEX, FSW_ERR_MEMORY,
    FSW_ERR_MISSING_CONTEXT, FSW_ERR_MONITOR_ALREADY_EXISTS, FSW_ERR_MONITOR_ALREADY_RUNNING,
    FSW_ERR_PATHS_NOT_SET, FSW_ERR_SESSION_UNKNOWN, FSW_ERR_UNKNOWN_ERROR,
    FSW_ERR_UNKNOWN_MONITOR_TYPE, FSW_ERR_UNKNOWN_VALUE, FSW_OK,
};
use fswatch::{
    c_string_bytes, map_result, FswError, FswEventFlag, FswFilterType, FswMonitorType, FswStatus,
    NulError,
};

#[test]
fn status_codes_map_to_their_statuses() {
    let table = [
        (FSW_OK, FswStatus::NoError),
        (FSW_ERR_UNKNOWN_ERROR, FswStatus::UnknownError),
        (FSW_ERR_SESSION_UNKNOWN, FswStatus::SessionUnknown),
        (FSW_ERR_MONITOR_ALREADY_EXISTS, FswStatus::MonitorAlreadyExists),
        (FSW_ERR_MEMORY, FswStatus::Memory),
        (FSW_ERR_UNKNOWN_MONITOR_TYPE, FswStatus::UnknownMonitorType),
        (FSW_ERR_CALLBACK_NOT_SET, FswStatus::CallbackNotSet),
        (FSW_ERR_PATHS_NOT_SET, FswStatus::PathsNotSet),
        (FSW_ERR_MISSING_CONTEXT, FswStatus::MissingContext),
        (FSW_ERR_INVALID_PATH, FswStatus::InvalidPath),
        (FSW_ERR_INVALID_CALLBACK, FswStatus::InvalidCallback),
        (FSW_ERR_INVALID_LATENCY, FswStatus::InvalidLatency),
        (FSW_ERR_INVALID_REGEX, FswStatus::InvalidRegex),
        (FSW_ERR_MONITOR_ALREADY_RUNNING, FswStatus::MonitorAlreadyRunning),
        (FSW_ERR_UNKNOWN_VALUE, FswStatus::UnknownValue),
        (FSW_ERR_INVALID_PROPERTY, FswStatus::InvalidProprety),
    ];
    for (code, status) in table.iter() {
        assert_eq!(FswStatus::from(*code), *status);
    }
}

#[test]
fn status_code_values_follow_the_c_header() {
    assert_eq!(FSW_OK, 0);
    assert_eq!(FSW_ERR_UNKNOWN_ERROR, 1);
    assert_eq!(FSW_ERR_SESSION_UNKNOWN, 1 << 1);
    assert_eq!(FSW_ERR_MEMORY, 1 << 3);
    assert_eq!(FSW_ERR_INVALID_PROPERTY, 1 << 14);
}

#[test]
fn unknown_status_codes_are_unknown_errors() {
    for code in [3, -1, 5, 6, 12, 32768, 16383, i32::MAX, i32::MIN].iter() {
        assert_eq!(FswStatus::from(*code), FswStatus::UnknownError);
    }
}

#[test]
fn map_result_is_ok_only_for_success() {
    assert_eq!(map_result(7u8, FSW_OK), Ok(7u8));
    assert_eq!(map_result((), FSW_ERR_INVALID_PATH), Err(FswError::FromFsw(FswStatus::InvalidPath)));
    assert_eq!(map_result((), 3), Err(FswError::FromFsw(FswStatus::UnknownError)));
    assert_eq!(map_result((), FSW_ERR_UNKNOWN_ERROR), Err(FswError::FromFsw(FswStatus::UnknownError)));
}

#[test]
fn monitor_types_have_their_c_values() {
    let all = [
        FswMonitorType::SystemDefault,
        FswMonitorType::FSEvents,
        FswMonitorType::KQueue,
        FswMonitorType::INotify,
        FswMonitorType::Windows,
        FswMonitorType::Poll,
        FswMonitorType::Fen,
    ];
    for (i, m) in all.iter().enumerate() {
        assert_eq!(u32::from(*m), i as u32);
    }
}

#[test]
fn filter_types_have_their_c_values() {
    assert_eq!(u32::from(FswFilterType::Include), 0);
    assert_eq!(u32::from(FswFilterType::Exclude), 1);
}

fn all_flags() -> Vec<FswEventFlag> {
    vec![
        FswEventFlag::NoOp,
        FswEventFlag::PlatformSpecific,
        FswEventFlag::Created,
        FswEventFlag::Updated,
        FswEventFlag::Removed,
        FswEventFlag::Renamed,
        FswEventFlag::OwnerModified,
        FswEventFlag::AttributeModified,
        FswEventFlag::MovedFrom,
        FswEventFlag::MovedTo,
        FswEventFlag::IsFile,
        FswEventFlag::IsDir,
        FswEventFlag::IsSymLink,
        FswEventFlag::Link,
        FswEventFlag::Overflow,
    ]
}

#[test]
fn event_flags_have_their_c_bits() {
    let flags = all_flags();
    assert_eq!(u32::from(flags[0]), 0);
    for (i, f) in flags.iter().enumerate().skip(1) {
        assert_eq!(u32::from(*f), 1u32 << (i - 1));
    }
    assert_eq!(u32::from(FswEventFlag::Overflow), 8192);
}

#[test]
fn event_flags_round_trip_through_bits() {
    for f in all_flags() {
        assert_eq!(FswEventFlag::from_bits(u32::from(f)), Some(f));
    }
}

#[test]
fn unknown_bits_are_no_flag() {
    for bits in [3u32, 5, 6, 16384, 8191, u32::MAX].iter() {
        assert_eq!(FswEventFlag::from_bits(*bits), None);
    }
}

#[test]
fn c_string_bytes_keeps_text_without_nul() {
    assert_eq!(c_string_bytes("/tmp/a"), Ok(b"/tmp/a".to_vec()));
    assert_eq!(c_string_bytes(""), Ok(Vec::new()));
    assert_eq!(c_string_bytes("é"), Ok(vec![0xc3, 0xa9]));
}

#[test]
fn c_string_bytes_names_the_first_nul() {
    assert_eq!(
        c_string_bytes("ab\0c\0"),
        Err(FswError::NulError(NulError { position: 2, bytes: b"ab\0c\0".to_vec() }))
    );
    assert_eq!(
        c_string_bytes("\0"),
        Err(FswError::NulError(NulError { position: 0, bytes: vec![0] }))
    );
}
