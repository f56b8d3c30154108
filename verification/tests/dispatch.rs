use zoom_sdk::auth::{
    on_authentication_return, on_login_return, AuthResult, AuthService, AuthServiceEvent,
    LoginStatus, AUTHRET_KEYORSECRETWRONG, AUTHRET_SUCCESS, LOGINSTATUS_LOGIN_FAILED,
    LOGINSTATUS_LOGIN_SUCCESS,
};
use zoom_sdk::error::{ErrorType, LastErrorCategory};
use zoom_sdk::meeting::{
    on_meeting_statistics_warning_notification, on_meeting_status_changed, MeetingFailCode,
    MeetingService, MeetingServiceEvent, MeetingStatus, StatisticsWarningType,
    MEETING_STATUS_FAILED, MEETING_FAIL_PASSWORD_ERR, STATISTIC_WARNING_NETWORK_QUALITY_BAD,
};
use zoom_sdk::{create_auth_service, create_meeting_service, init_sdk, DispatchOutcome, InitParam, Sdk};

/// What a recorder does from inside its authentication callback.
const MODE_RECORD: u8 = 0;
const MODE_LOGIN: u8 = 1;
const MODE_REREGISTER: u8 = 2;
const MODE_NESTED_DISPATCH: u8 = 3;

#[derive(Debug)]
struct Recorder {
    marker: u64,
    mode: u8,
    seen: Vec<AuthResult>,
    login_ok: Option<bool>,
    reregister_ok: Option<bool>,
    nested: Option<DispatchOutcome>,
    display_name: Option<String>,
}

impl Recorder {
    fn new(marker: u64, mode: u8) -> Recorder {
        Recorder {
            marker,
            mode,
            seen: Vec::new(),
            login_ok: None,
            reregister_ok: None,
            nested: None,
            display_name: None,
        }
    }
}

impl AuthServiceEvent for Recorder {
    fn authentication_return(
        &mut self,
        sdk: &mut Sdk,
        service: &mut AuthService<Self>,
        auth_result: AuthResult,
    ) {
        self.seen.push(auth_result);
        if self.mode == MODE_LOGIN {
            let r = service.login(sdk, "alice", "hunter2", false);
            self.login_ok = Some(r.is_ok());
        } else if self.mode == MODE_REREGISTER {
            let r = service.set_event(sdk, Recorder::new(900, MODE_RECORD));
            self.reregister_ok = Some(r.is_ok());
        } else if self.mode == MODE_NESTED_DISPATCH {
            self.nested = Some(on_authentication_return(sdk, service, AUTHRET_SUCCESS));
        }
    }

    fn login_return(
        &mut self,
        _sdk: &mut Sdk,
        _service: &mut AuthService<Self>,
        login_status: &LoginStatus,
    ) {
        if let LoginStatus::Success(info) = login_status {
            self.display_name = Some(info.get_display_name());
        }
    }
}

fn live_auth(sdk: &mut Sdk) -> AuthService<Recorder> {
    init_sdk(sdk, &InitParam::new()).unwrap();
    create_auth_service::<Recorder>(sdk).unwrap()
}

#[test]
fn auth_scenario_wrong_secret_then_login() {
    let mut sdk = Sdk::new();
    let mut service = live_auth(&mut sdk);
    service.set_event(&mut sdk, Recorder::new(1, MODE_LOGIN)).unwrap();
    let outcome = on_authentication_return(&mut sdk, &mut service, AUTHRET_KEYORSECRETWRONG);
    assert_eq!(outcome, DispatchOutcome::Delivered);
    let receiver = service.receiver().unwrap();
    assert_eq!(receiver.seen, vec![AuthResult::KeyOrSecretWrong]);
    // A login issued from inside the handler, with nonempty credentials,
    // succeeds against the native state.
    assert_eq!(receiver.login_ok, Some(true));
    let login = sdk.last_login_param.as_ref().unwrap();
    let expected_name: Vec<u16> = "alice\0".encode_utf16().collect();
    let expected_password: Vec<u16> = "hunter2\0".encode_utf16().collect();
    assert_eq!(login.user_name, expected_name);
    assert_eq!(login.password, expected_password);
    assert_eq!(login.login_type, zoom_sdk::auth::LOGINTYPE_EMAIL);
    assert!(!login.remember_me);
    service.destroy(&mut sdk);
}

#[test]
fn login_status_scenario_extracts_display_name() {
    let mut sdk = Sdk::new();
    let mut service = live_auth(&mut sdk);
    service.set_event(&mut sdk, Recorder::new(2, MODE_RECORD)).unwrap();
    let outcome = on_login_return(
        &mut sdk,
        &mut service,
        LOGINSTATUS_LOGIN_SUCCESS,
        Some(String::from("Alice Example")),
    );
    assert_eq!(outcome, DispatchOutcome::Delivered);
    // The receiver extracted a nonempty display name; the auxiliary
    // account-info value itself was dropped with the callback and only the
    // extracted data remains reachable.
    let name = service.receiver().unwrap().display_name.clone().unwrap();
    assert!(!name.is_empty());
    assert_eq!(name, "Alice Example");
    service.destroy(&mut sdk);
}

#[test]
fn swapped_receiver_observes_events() {
    let mut sdk = Sdk::new();
    let mut service = live_auth(&mut sdk);
    service.set_event(&mut sdk, Recorder::new(1, MODE_RECORD)).unwrap();
    let first_address = service.event_address().unwrap();
    assert_eq!(sdk.auth_event_address, Some(first_address));
    let outcome = on_authentication_return(&mut sdk, &mut service, AUTHRET_SUCCESS);
    assert_eq!(outcome, DispatchOutcome::Delivered);
    assert_eq!(service.receiver().unwrap().marker, 1);
    assert_eq!(service.receiver().unwrap().seen.len(), 1);
    // Replace the receiver: the native side is told the new address, which
    // is never the old one.
    service.set_event(&mut sdk, Recorder::new(2, MODE_RECORD)).unwrap();
    let second_address = service.event_address().unwrap();
    assert_ne!(second_address, first_address);
    assert_eq!(sdk.auth_event_address, Some(second_address));
    // A trampoline invoked after the swap reaches the new receiver, never
    // the old one.
    let outcome = on_authentication_return(&mut sdk, &mut service, AUTHRET_KEYORSECRETWRONG);
    assert_eq!(outcome, DispatchOutcome::Delivered);
    let receiver = service.receiver().unwrap();
    assert_eq!(receiver.marker, 2);
    assert_eq!(receiver.seen, vec![AuthResult::KeyOrSecretWrong]);
    service.destroy(&mut sdk);
}

#[test]
fn reentrant_registration_from_callback() {
    let mut sdk = Sdk::new();
    let mut service = live_auth(&mut sdk);
    service.set_event(&mut sdk, Recorder::new(1, MODE_REREGISTER)).unwrap();
    let outcome = on_authentication_return(&mut sdk, &mut service, AUTHRET_SUCCESS);
    assert_eq!(outcome, DispatchOutcome::Delivered);
    // The registration made inside the callback completed, and the
    // replacement receiver is the one attached afterwards.
    let receiver = service.receiver().unwrap();
    assert_eq!(receiver.marker, 900);
    assert!(receiver.seen.is_empty());
    // The next event reaches the replacement normally.
    let outcome = on_authentication_return(&mut sdk, &mut service, AUTHRET_KEYORSECRETWRONG);
    assert_eq!(outcome, DispatchOutcome::Delivered);
    assert_eq!(service.receiver().unwrap().seen, vec![AuthResult::KeyOrSecretWrong]);
    service.destroy(&mut sdk);
}

#[test]
fn nested_dispatch_cannot_reach_the_running_receiver() {
    let mut sdk = Sdk::new();
    let mut service = live_auth(&mut sdk);
    service.set_event(&mut sdk, Recorder::new(1, MODE_NESTED_DISPATCH)).unwrap();
    let outcome = on_authentication_return(&mut sdk, &mut service, AUTHRET_SUCCESS);
    assert_eq!(outcome, DispatchOutcome::Delivered);
    let receiver = service.receiver().unwrap();
    // The nested trampoline invocation found no reachable receiver: the
    // running one was taken out, so the nested event was dropped and only
    // one callback ran for the outer event.
    assert_eq!(receiver.nested, Some(DispatchOutcome::DroppedNoReceiver));
    assert_eq!(receiver.seen, vec![AuthResult::Success]);
    service.destroy(&mut sdk);
}

#[test]
fn dispatch_without_receiver_drops_the_event() {
    let mut sdk = Sdk::new();
    let mut service = live_auth(&mut sdk);
    let outcome = on_authentication_return(&mut sdk, &mut service, AUTHRET_SUCCESS);
    assert_eq!(outcome, DispatchOutcome::DroppedNoReceiver);
    service.destroy(&mut sdk);
}

#[test]
fn malformed_event_is_dropped_and_the_next_is_delivered() {
    let mut sdk = Sdk::new();
    let mut service = live_auth(&mut sdk);
    service.set_event(&mut sdk, Recorder::new(1, MODE_RECORD)).unwrap();
    // A success status must carry the account-info payload; without it the
    // event is dropped before reaching the receiver.
    let outcome = on_login_return(&mut sdk, &mut service, LOGINSTATUS_LOGIN_SUCCESS, None);
    assert_eq!(outcome, DispatchOutcome::DroppedInvalidPayload);
    assert!(service.receiver().unwrap().display_name.is_none());
    // The receiver stayed attached: the next legitimate event is delivered.
    let outcome = on_login_return(&mut sdk, &mut service, LOGINSTATUS_LOGIN_FAILED, None);
    assert_eq!(outcome, DispatchOutcome::Delivered);
    let outcome = on_authentication_return(&mut sdk, &mut service, AUTHRET_SUCCESS);
    assert_eq!(outcome, DispatchOutcome::Delivered);
    assert_eq!(service.receiver().unwrap().seen, vec![AuthResult::Success]);
    service.destroy(&mut sdk);
}

#[test]
fn failed_registration_keeps_the_previous_adapter() {
    let mut sdk = Sdk::new();
    let mut service = live_auth(&mut sdk);
    service.set_event(&mut sdk, Recorder::new(1, MODE_RECORD)).unwrap();
    let address = service.event_address().unwrap();
    // When the native side cannot place a new adapter, registration fails,
    // no receiver is attached, and the previous adapter stays active.
    sdk.next_address = u64::MAX;
    let err = service.set_event(&mut sdk, Recorder::new(2, MODE_RECORD)).unwrap_err();
    assert_eq!(err.kind(), ErrorType::MemoryFailed);
    assert_eq!(service.receiver().unwrap().marker, 1);
    assert_eq!(service.event_address(), Some(address));
    let outcome = on_authentication_return(&mut sdk, &mut service, AUTHRET_SUCCESS);
    assert_eq!(outcome, DispatchOutcome::Delivered);
    assert_eq!(service.receiver().unwrap().marker, 1);
    service.destroy(&mut sdk);
}

#[test]
fn auth_and_uri_calls_record_marshaled_parameters() {
    let mut sdk = Sdk::new();
    let service = live_auth(&mut sdk);
    service.sdk_auth(&mut sdk, "app-key", "app-secret").unwrap();
    let auth = sdk.last_auth_param.as_ref().unwrap();
    let expected_key: Vec<u16> = "app-key\0".encode_utf16().collect();
    let expected_secret: Vec<u16> = "app-secret\0".encode_utf16().collect();
    assert_eq!(auth.app_key, expected_key);
    assert_eq!(auth.app_secret, expected_secret);
    let err = service.sdk_auth(&mut sdk, "", "app-secret").unwrap_err();
    assert_eq!(err.kind(), ErrorType::InvalidParameter);
    assert_eq!(err.detail().unwrap().category, LastErrorCategory::Auth);
    let err = service.login(&mut sdk, "alice", "", false).unwrap_err();
    assert_eq!(err.kind(), ErrorType::InvalidParameter);
    assert_eq!(err.detail().unwrap().category, LastErrorCategory::Login);
    service.destroy(&mut sdk);
}

#[derive(Debug)]
struct MeetingRecorder {
    statuses: Vec<MeetingStatus>,
    warnings: Vec<StatisticsWarningType>,
}

impl MeetingServiceEvent for MeetingRecorder {
    fn meeting_status_changed(
        &mut self,
        _sdk: &mut Sdk,
        _meeting: &mut MeetingService<Self>,
        status: MeetingStatus,
    ) {
        self.statuses.push(status);
    }

    fn meeting_statistics_warning_notification(
        &mut self,
        _sdk: &mut Sdk,
        _meeting: &mut MeetingService<Self>,
        typ: StatisticsWarningType,
    ) {
        self.warnings.push(typ);
    }
}

#[test]
fn meeting_dispatch_and_uri_action() {
    let mut sdk = Sdk::new();
    init_sdk(&mut sdk, &InitParam::new()).unwrap();
    let mut meeting = create_meeting_service::<MeetingRecorder>(&mut sdk).unwrap();
    meeting
        .set_event(&mut sdk, MeetingRecorder { statuses: Vec::new(), warnings: Vec::new() })
        .unwrap();
    let outcome = on_meeting_status_changed(
        &mut sdk,
        &mut meeting,
        MEETING_STATUS_FAILED,
        MEETING_FAIL_PASSWORD_ERR,
    );
    assert_eq!(outcome, DispatchOutcome::Delivered);
    let outcome = on_meeting_statistics_warning_notification(
        &mut sdk,
        &mut meeting,
        STATISTIC_WARNING_NETWORK_QUALITY_BAD,
    );
    assert_eq!(outcome, DispatchOutcome::Delivered);
    let receiver = meeting.receiver().unwrap();
    assert_eq!(
        receiver.statuses,
        vec![MeetingStatus::Failed(MeetingFailCode::MeetingFailPasswordErr)]
    );
    assert_eq!(receiver.warnings, vec![StatisticsWarningType::NetworkQualityBad]);
    meeting
        .handle_zoom_web_uri_protocol_action(&mut sdk, "zoommtg://zoom.us/join?confno=1")
        .unwrap();
    let expected: Vec<u16> = "zoommtg://zoom.us/join?confno=1\0".encode_utf16().collect();
    assert_eq!(sdk.last_uri_action.as_ref().unwrap(), &expected);
    let err = meeting.handle_zoom_web_uri_protocol_action(&mut sdk, "").unwrap_err();
    assert_eq!(err.kind(), ErrorType::InvalidParameter);
    assert_eq!(err.detail().unwrap().category, LastErrorCategory::Meeting);
    meeting.destroy(&mut sdk);
}
