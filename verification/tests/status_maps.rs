use zoom_sdk::auth::{
    map_auth_result, map_auth_result_description, map_login_status, AuthResult, LoginStatus,
};
use zoom_sdk::error::{
    category_description, err_wrap, map_err_type, map_last_error_category, u64_to_string, Error,
    ErrorType, LastErrorCategory,
};
use zoom_sdk::meeting::{
    map_end, map_fail, map_meeting_status, map_statistics_warning, MeetingEndReason,
    MeetingFailCode, MeetingStatus, StatisticsWarningType,
};

#[test]
fn err_kind_documented_values() {
    assert_eq!(map_err_type(0), (ErrorType::Success, "Success"));
    assert_eq!(map_err_type(1), (ErrorType::NoImpl, "This feature is currently invalid"));
    assert_eq!(map_err_type(2), (ErrorType::WrongUsage, "Incorrect usage of the feature"));
    assert_eq!(map_err_type(3), (ErrorType::InvalidParameter, "Wrong parameter"));
    assert_eq!(map_err_type(7), (ErrorType::Uninitialized, "Not initialized before the usage"));
    assert_eq!(map_err_type(8), (ErrorType::Unauthorized, "Not authorized before the usage"));
    assert_eq!(
        map_err_type(14),
        (ErrorType::OtherSdkInstanceRunning, "The other instance of the SDK is in process")
    );
    assert_eq!(map_err_type(18), (ErrorType::TooFrequentCall, "API calls too frequently"));
    assert_eq!(
        map_err_type(27),
        (
            ErrorType::HardwareNotMetForVb,
            "Computer doesn't meet the minimum requirements to use virtual background feature"
        )
    );
}

#[test]
fn err_kind_undocumented_fallback() {
    assert_eq!(map_err_type(28), (ErrorType::Undocumented(28), "Undocumented SDKError"));
    assert_eq!(map_err_type(-5), (ErrorType::Undocumented(-5), "Undocumented SDKError"));
    assert_eq!(
        map_err_type(i32::MIN),
        (ErrorType::Undocumented(i32::MIN), "Undocumented SDKError")
    );
    assert_eq!(
        map_err_type(i32::MAX),
        (ErrorType::Undocumented(i32::MAX), "Undocumented SDKError")
    );
}

#[test]
fn status_round_trip_total() {
    // Every status code must map to some kind with a nonempty description:
    // the documented band, its surroundings, and a stride across the whole
    // 32-bit range, including both extremes.
    let mut codes: Vec<i32> = (-1000..1000).collect();
    codes.push(i32::MIN);
    codes.push(i32::MAX);
    let mut c = i32::MIN;
    loop {
        codes.push(c);
        match c.checked_add(1_000_003) {
            Some(next) => c = next,
            None => break,
        }
    }
    for code in codes {
        let (kind, description) = map_err_type(code);
        assert!(!description.is_empty());
        if let ErrorType::Undocumented(raw) = kind {
            assert_eq!(raw, code);
        }
        let e = Error::new(code, None);
        assert_eq!(e.kind(), kind);
        assert_eq!(e.message(), description);
        assert!(e.detail().is_none());
    }
}

#[test]
fn auth_result_documented_values() {
    assert_eq!(map_auth_result(0), AuthResult::Success);
    assert_eq!(map_auth_result(1), AuthResult::KeyOrSecretEmpty);
    assert_eq!(map_auth_result(2), AuthResult::KeyOrSecretWrong);
    assert_eq!(map_auth_result(3), AuthResult::AccountNotSupport);
    assert_eq!(map_auth_result(4), AuthResult::AccountNotEnableSdk);
    assert_eq!(map_auth_result(5), AuthResult::Unknown);
    assert_eq!(map_auth_result(6), AuthResult::ServiceBusy);
    assert_eq!(map_auth_result(7), AuthResult::Initial);
    assert_eq!(map_auth_result(8), AuthResult::OverTime);
    assert_eq!(map_auth_result(9), AuthResult::NetworkIssue);
    assert_eq!(map_auth_result(10), AuthResult::ClientIncompatible);
    assert_eq!(map_auth_result(11), AuthResult::Unmapped(11));
    assert_eq!(map_auth_result(-1), AuthResult::Unmapped(-1));
}

#[test]
fn auth_result_descriptions() {
    assert_eq!(
        map_auth_result_description(AuthResult::Success),
        "Authentication is successful"
    );
    assert_eq!(
        map_auth_result_description(AuthResult::KeyOrSecretWrong),
        "The key or secret to authenticate is wrong"
    );
    assert_eq!(map_auth_result_description(AuthResult::Initial), "Initial status");
    assert_eq!(map_auth_result_description(AuthResult::Unmapped(77)), "Unknown AuthResult");
    for code in -20..20 {
        assert!(!map_auth_result_description(map_auth_result(code)).is_empty());
    }
}

#[test]
fn login_status_mapping() {
    assert!(matches!(map_login_status(0, None), Some(LoginStatus::Idle)));
    assert!(matches!(map_login_status(1, None), Some(LoginStatus::Processing)));
    assert!(matches!(map_login_status(3, None), Some(LoginStatus::Failed)));
    match map_login_status(2, Some(String::from("Alice Example"))) {
        Some(LoginStatus::Success(info)) => {
            assert_eq!(info.get_display_name(), "Alice Example");
        }
        other => panic!("expected a successful login status, got {:?}", other),
    }
    assert!(map_login_status(2, None).is_none());
    assert!(matches!(map_login_status(9, None), Some(LoginStatus::Unmapped(9))));
}

#[test]
fn meeting_status_mapping() {
    assert_eq!(map_meeting_status(0, 0), MeetingStatus::Idle);
    assert_eq!(map_meeting_status(1, 0), MeetingStatus::Connecting);
    assert_eq!(map_meeting_status(2, 0), MeetingStatus::WaitingForHost);
    assert_eq!(map_meeting_status(3, 0), MeetingStatus::InMeeting);
    assert_eq!(map_meeting_status(4, 0), MeetingStatus::Disconnecting);
    assert_eq!(map_meeting_status(5, 0), MeetingStatus::Reconnecting);
    assert_eq!(
        map_meeting_status(6, 4),
        MeetingStatus::Failed(MeetingFailCode::MeetingFailPasswordErr)
    );
    assert_eq!(map_meeting_status(7, 2), MeetingStatus::Ended(MeetingEndReason::EndByHost));
    assert_eq!(map_meeting_status(8, 0), MeetingStatus::Unknown);
    assert_eq!(map_meeting_status(16, 0), MeetingStatus::WaitingExternalSessionKey);
    assert_eq!(map_meeting_status(17, 0), MeetingStatus::Unmapped(17));
    assert_eq!(map_meeting_status(-3, 0), MeetingStatus::Unmapped(-3));
}

#[test]
fn meeting_fail_mapping() {
    assert_eq!(map_fail(0), MeetingFailCode::MeetingSuccess);
    assert_eq!(map_fail(1), MeetingFailCode::MeetingFailNetworkErr);
    assert_eq!(map_fail(4), MeetingFailCode::MeetingFailPasswordErr);
    assert_eq!(map_fail(17), MeetingFailCode::SessionVideoErr);
    assert_eq!(map_fail(24), MeetingFailCode::ConfFailZcCertificateChanged);
    // The native taxonomy leaves gaps; codes inside a gap are unmapped.
    assert_eq!(map_fail(25), MeetingFailCode::Unmapped(25));
    assert_eq!(map_fail(26), MeetingFailCode::Unmapped(26));
    assert_eq!(map_fail(27), MeetingFailCode::ConfFailVanityNotExist);
    assert_eq!(map_fail(50), MeetingFailCode::MeetingFailWriteConfigFile);
    assert_eq!(map_fail(60), MeetingFailCode::MeetingFailForbidToJoinInternalMeeting);
    assert_eq!(map_fail(61), MeetingFailCode::ConfFailRemovedByHost);
    assert_eq!(map_fail(62), MeetingFailCode::Unmapped(62));
}

#[test]
fn meeting_end_mapping() {
    assert_eq!(map_end(0), MeetingEndReason::Initial);
    assert_eq!(map_end(1), MeetingEndReason::KickByHost);
    assert_eq!(map_end(2), MeetingEndReason::EndByHost);
    assert_eq!(map_end(7), MeetingEndReason::NetworkBroken);
    assert_eq!(map_end(8), MeetingEndReason::Unmapped(8));
    assert_eq!(map_end(-1), MeetingEndReason::Unmapped(-1));
}

#[test]
fn statistics_warning_mapping() {
    assert_eq!(map_statistics_warning(0), StatisticsWarningType::NoWarning);
    assert_eq!(map_statistics_warning(1), StatisticsWarningType::NetworkQualityBad);
    assert_eq!(map_statistics_warning(2), StatisticsWarningType::BusySystem);
    assert_eq!(map_statistics_warning(3), StatisticsWarningType::Unmapped(3));
}

#[test]
fn last_error_categories() {
    assert_eq!(map_last_error_category(0), LastErrorCategory::NoError);
    assert_eq!(map_last_error_category(1), LastErrorCategory::Auth);
    assert_eq!(map_last_error_category(2), LastErrorCategory::Login);
    assert_eq!(map_last_error_category(3), LastErrorCategory::Meeting);
    assert_eq!(map_last_error_category(4), LastErrorCategory::System);
    assert_eq!(map_last_error_category(5), LastErrorCategory::Unknown);
    assert_eq!(category_description(LastErrorCategory::NoError), "No error");
    assert_eq!(category_description(LastErrorCategory::Auth), "Auth (verification)");
    assert_eq!(category_description(LastErrorCategory::Login), "Login");
    assert_eq!(category_description(LastErrorCategory::Meeting), "Meeting (associated error)");
    assert_eq!(
        category_description(LastErrorCategory::System),
        "System (associated error with SDK bottom layer)"
    );
    assert_eq!(category_description(LastErrorCategory::Unknown), "Unknown LastErrorType");
}

#[test]
fn err_wrap_success_and_failure() {
    assert!(err_wrap(0, None).is_ok());
    let e = err_wrap(1, None).unwrap_err();
    assert_eq!(e.kind(), ErrorType::NoImpl);
    assert_eq!(e.message(), "This feature is currently invalid");
}

#[test]
fn decimal_rendering() {
    assert_eq!(u64_to_string(0), "0");
    assert_eq!(u64_to_string(7), "7");
    assert_eq!(u64_to_string(10), "10");
    assert_eq!(u64_to_string(12511), "12511");
    assert_eq!(u64_to_string(u64::MAX), "18446744073709551615");
}

#[test]
fn rust_error_constructor() {
    let e = Error::new_rust("native call returned null");
    assert_eq!(e.kind(), ErrorType::Rust);
    assert_eq!(e.message(), "native call returned null");
    assert!(e.detail().is_none());
}
