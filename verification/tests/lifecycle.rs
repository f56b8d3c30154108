use zoom_sdk::auth::{AuthResult, AuthService, AuthServiceEvent, LoginStatus};
use zoom_sdk::error::{ErrorType, LastErrorCategory};
use zoom_sdk::{
    clean_up_sdk, create_auth_service, create_meeting_service, init_sdk, zoom_version, InitParam,
    Sdk,
};
use zoom_sdk::meeting::{MeetingService, MeetingServiceEvent, MeetingStatus, StatisticsWarningType};

#[derive(Debug)]
struct Quiet;

impl AuthServiceEvent for Quiet {
    fn authentication_return(
        &mut self,
        _sdk: &mut Sdk,
        _service: &mut AuthService<Self>,
        _auth_result: AuthResult,
    ) {
    }

    fn login_return(
        &mut self,
        _sdk: &mut Sdk,
        _service: &mut AuthService<Self>,
        _login_status: &LoginStatus,
    ) {
    }
}

#[derive(Debug)]
struct QuietMeeting;

impl MeetingServiceEvent for QuietMeeting {
    fn meeting_status_changed(
        &mut self,
        _sdk: &mut Sdk,
        _meeting: &mut MeetingService<Self>,
        _status: MeetingStatus,
    ) {
    }

    fn meeting_statistics_warning_notification(
        &mut self,
        _sdk: &mut Sdk,
        _meeting: &mut MeetingService<Self>,
        _typ: StatisticsWarningType,
    ) {
    }
}

#[test]
fn zoom_version_equals() {
    let version = zoom_version();
    assert_eq!("5.5.1 (12511.0422)", &version);
}

#[test]
fn init_rejects_missing_web_domain() {
    let mut sdk = Sdk::new();
    let init_param = InitParam::new().web_domain(None);
    let err = init_sdk(&mut sdk, &init_param).unwrap_err();
    assert_eq!(err.kind(), ErrorType::InvalidParameter);
    assert_eq!(err.message(), "Wrong parameter");
    assert!(err.detail().is_none());
    assert!(!sdk.initialized);
}

#[test]
fn invalid_init_param() {
    let mut sdk = Sdk::new();
    let init_param = InitParam::new().web_domain(None);
    let err = init_sdk(&mut sdk, &init_param).unwrap_err();
    assert_eq!(
        &err.describe(),
        r#"zoom_sdk::Error { type: InvalidParameter, message: "Wrong parameter" }"#
    );
}

#[test]
fn describe_renders_the_attached_detail() {
    let mut sdk = Sdk::new();
    let err = create_auth_service::<Quiet>(&mut sdk).unwrap_err();
    let expected = r#"zoom_sdk::Error { type: Uninitialized, message: "Not initialized before the usage", detail: ErrorDetail { category: "System (associated error with SDK bottom layer)", code: 7, description: "Not initialized before the usage" } }"#;
    assert_eq!(&err.describe(), expected);
}

#[test]
fn init_records_wide_web_domain() {
    let mut sdk = Sdk::new();
    init_sdk(&mut sdk, &InitParam::new()).unwrap();
    let expected: Vec<u16> = "https://zoom.us\0".encode_utf16().collect();
    assert_eq!(sdk.init_web_domain.as_deref(), Some(expected.as_slice()));
}

#[test]
fn init_records_a_custom_web_domain() {
    let mut sdk = Sdk::new();
    let init_param = InitParam::new().web_domain(Some("https://example.com"));
    init_sdk(&mut sdk, &init_param).unwrap();
    let expected: Vec<u16> = "https://example.com\0".encode_utf16().collect();
    assert_eq!(sdk.init_web_domain.as_deref(), Some(expected.as_slice()));
}

#[test]
fn init_cycle_with_services() {
    let mut sdk = Sdk::new();
    // Clean up may run before the first initialization, repeatedly.
    clean_up_sdk(&mut sdk).unwrap();
    clean_up_sdk(&mut sdk).unwrap();
    let init_param = InitParam::new();
    init_sdk(&mut sdk, &init_param).unwrap();
    let auth = create_auth_service::<Quiet>(&mut sdk).unwrap();
    // Initialization may be repeated while initialized.
    init_sdk(&mut sdk, &init_param).unwrap();
    auth.destroy(&mut sdk);
    clean_up_sdk(&mut sdk).unwrap();
    // A second round of initialization works.
    init_sdk(&mut sdk, &init_param).unwrap();
    let auth = create_auth_service::<Quiet>(&mut sdk).unwrap();
    auth.destroy(&mut sdk);
    clean_up_sdk(&mut sdk).unwrap();
    // After clean up, creation is refused.
    let err = create_auth_service::<Quiet>(&mut sdk).unwrap_err();
    assert_eq!(err.kind(), ErrorType::Uninitialized);
}

#[test]
fn create_before_init_fails() {
    let mut sdk = Sdk::new();
    let err = create_auth_service::<Quiet>(&mut sdk).unwrap_err();
    assert_eq!(err.kind(), ErrorType::Uninitialized);
    assert_eq!(err.message(), "Not initialized before the usage");
    let detail = err.detail().expect("a failing native call records a detail");
    assert_eq!(detail.category, LastErrorCategory::System);
    assert_eq!(detail.code, 7);
    assert_eq!(detail.description, "Not initialized before the usage");
}

#[test]
fn second_create_is_refused_while_live() {
    let mut sdk = Sdk::new();
    init_sdk(&mut sdk, &InitParam::new()).unwrap();
    let auth = create_auth_service::<Quiet>(&mut sdk).unwrap();
    let err = create_auth_service::<Quiet>(&mut sdk).unwrap_err();
    assert_eq!(err.kind(), ErrorType::WrongUsage);
    assert_eq!(err.message(), "Incorrect usage of the feature");
    // The two service kinds are independent singletons.
    let meeting = create_meeting_service::<QuietMeeting>(&mut sdk).unwrap();
    let err = create_meeting_service::<QuietMeeting>(&mut sdk).unwrap_err();
    assert_eq!(err.kind(), ErrorType::WrongUsage);
    meeting.destroy(&mut sdk);
    auth.destroy(&mut sdk);
}

#[test]
fn destroy_then_recreate() {
    let mut sdk = Sdk::new();
    init_sdk(&mut sdk, &InitParam::new()).unwrap();
    let auth = create_auth_service::<Quiet>(&mut sdk).unwrap();
    let first_instance = auth.instance_address();
    auth.destroy(&mut sdk);
    assert!(!sdk.auth_live);
    let auth = create_auth_service::<Quiet>(&mut sdk).unwrap();
    assert_ne!(auth.instance_address(), first_instance);
    auth.destroy(&mut sdk);
}

#[test]
fn address_exhaustion_is_a_memory_failure() {
    let mut sdk = Sdk::new();
    init_sdk(&mut sdk, &InitParam::new()).unwrap();
    sdk.next_address = u64::MAX;
    let err = create_auth_service::<Quiet>(&mut sdk).unwrap_err();
    assert_eq!(err.kind(), ErrorType::MemoryFailed);
    assert_eq!(err.message(), "No memory is allocated");
}

#[test]
fn fresh_handles_have_no_receiver() {
    let mut sdk = Sdk::new();
    init_sdk(&mut sdk, &InitParam::new()).unwrap();
    let auth = create_auth_service::<Quiet>(&mut sdk).unwrap();
    assert!(auth.receiver().is_none());
    assert!(auth.event_address().is_none());
    assert_eq!(sdk.auth_event_address, None);
    auth.destroy(&mut sdk);
}
