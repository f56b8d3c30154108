//! Mapping of native status codes to the bridge's error model.
//!
//! Every foreign call answers with an `i32` status.  The bridge maps it to a
//! closed set of kinds with a human-readable description, optionally
//! enriched with the "last error" detail the native library keeps in global
//! state.  The mapping is total: every possible status code yields a kind,
//! with `Undocumented` carrying any raw value outside the documented set.

use vstd::prelude::*;
use crate::{same_records, same_services, Sdk};

verus! {

pub const SDKERR_SUCCESS: i32 = 0;
pub const SDKERR_NO_IMPL: i32 = 1;
pub const SDKERR_WRONG_USEAGE: i32 = 2;
pub const SDKERR_INVALID_PARAMETER: i32 = 3;
pub const SDKERR_MODULE_LOAD_FAILED: i32 = 4;
pub const SDKERR_MEMORY_FAILED: i32 = 5;
pub const SDKERR_SERVICE_FAILED: i32 = 6;
pub const SDKERR_UNINITIALIZE: i32 = 7;
pub const SDKERR_UNAUTHENTICATION: i32 = 8;
pub const SDKERR_NORECORDINGINPROCESS: i32 = 9;
pub const SDKERR_TRANSCODER_NOFOUND: i32 = 10;
pub const SDKERR_VIDEO_NOTREADY: i32 = 11;
pub const SDKERR_NO_PERMISSION: i32 = 12;
pub const SDKERR_UNKNOWN: i32 = 13;
pub const SDKERR_OTHER_SDK_INSTANCE_RUNNING: i32 = 14;
pub const SDKERR_INTELNAL_ERROR: i32 = 15;
pub const SDKERR_NO_AUDIODEVICE_ISFOUND: i32 = 16;
pub const SDKERR_NO_VIDEODEVICE_ISFOUND: i32 = 17;
pub const SDKERR_TOO_FREQUENT_CALL: i32 = 18;
pub const SDKERR_FAIL_ASSIGN_USER_PRIVILEGE: i32 = 19;
pub const SDKERR_MEETING_DONT_SUPPORT_FEATURE: i32 = 20;
pub const SDKERR_MEETING_NOT_SHARE_SENDER: i32 = 21;
pub const SDKERR_MEETING_YOU_HAVE_NO_SHARE: i32 = 22;
pub const SDKERR_MEETING_VIEWTYPE_PARAMETER_IS_WRONG: i32 = 23;
pub const SDKERR_MEETING_ANNOTATION_IS_OFF: i32 = 24;
pub const SDKERR_SETTING_OS_DONT_SUPPORT: i32 = 25;
pub const SDKERR_EMAIL_LOGIN_IS_DISABLED: i32 = 26;
pub const SDKERR_HARDWARE_NOT_MEET_FOR_VB: i32 = 27;

pub const LASTERRORTYPE_NONE: i32 = 0;
pub const LASTERRORTYPE_AUTH: i32 = 1;
pub const LASTERRORTYPE_LOGIN: i32 = 2;
pub const LASTERRORTYPE_MEETING: i32 = 3;
pub const LASTERRORTYPE_SYSTEM: i32 = 4;

/// The closed set of failure kinds a native status code maps to.
///
/// `Undocumented` carries any raw status outside the documented set, so the
/// mapping is total.  `Rust` marks a bridge-invariant failure detected on
/// this side of the boundary, not a native status.
#[derive(Copy, Clone, Debug, PartialEq, Eq, Structural)]
pub enum ErrorType {
    Success,
    NoImpl,
    WrongUsage,
    InvalidParameter,
    ModuleLoadFailed,
    MemoryFailed,
    ServiceFailed,
    Uninitialized,
    Unauthorized,
    NoRecordingInProgress,
    TranscoderNotFound,
    VideoNotReady,
    NoPermission,
    Unknown,
    OtherSdkInstanceRunning,
    InternalError,
    NoAudioDeviceIsFound,
    NoVideoDeviceIsFound,
    TooFrequentCall,
    FailAssignUserPrivilege,
    MeetingNotSupportedFeature,
    MeetingNotShareSender,
    MeetingYouHaveNoShare,
    MeetingViewTypeParameterIsWrong,
    MeetingAnnotationIsOff,
    SettingOsNotSupported,
    EmailLoginIsDisabled,
    HardwareNotMetForVb,
    Undocumented(i32),
    Rust,
}

/// The kind a native status code maps to.
pub open spec fn spec_err_kind(code: i32) -> ErrorType {
    if code == SDKERR_SUCCESS {
        ErrorType::Success
    } else if code == SDKERR_NO_IMPL {
        ErrorType::NoImpl
    } else if code == SDKERR_WRONG_USEAGE {
        ErrorType::WrongUsage
    } else if code == SDKERR_INVALID_PARAMETER {
        ErrorType::InvalidParameter
    } else if code == SDKERR_MODULE_LOAD_FAILED {
        ErrorType::ModuleLoadFailed
    } else if code == SDKERR_MEMORY_FAILED {
        ErrorType::MemoryFailed
    } else if code == SDKERR_SERVICE_FAILED {
        ErrorType::ServiceFailed
    } else if code == SDKERR_UNINITIALIZE {
        ErrorType::Uninitialized
    } else if code == SDKERR_UNAUTHENTICATION {
        ErrorType::Unauthorized
    } else if code == SDKERR_NORECORDINGINPROCESS {
        ErrorType::NoRecordingInProgress
    } else if code == SDKERR_TRANSCODER_NOFOUND {
        ErrorType::TranscoderNotFound
    } else if code == SDKERR_VIDEO_NOTREADY {
        ErrorType::VideoNotReady
    } else if code == SDKERR_NO_PERMISSION {
        ErrorType::NoPermission
    } else if code == SDKERR_UNKNOWN {
        ErrorType::Unknown
    } else if code == SDKERR_OTHER_SDK_INSTANCE_RUNNING {
        ErrorType::OtherSdkInstanceRunning
    } else if code == SDKERR_INTELNAL_ERROR {
        ErrorType::InternalError
    } else if code == SDKERR_NO_AUDIODEVICE_ISFOUND {
        ErrorType::NoAudioDeviceIsFound
    } else if code == SDKERR_NO_VIDEODEVICE_ISFOUND {
        ErrorType::NoVideoDeviceIsFound
    } else if code == SDKERR_TOO_FREQUENT_CALL {
        ErrorType::TooFrequentCall
    } else if code == SDKERR_FAIL_ASSIGN_USER_PRIVILEGE {
        ErrorType::FailAssignUserPrivilege
    } else if code == SDKERR_MEETING_DONT_SUPPORT_FEATURE {
        ErrorType::MeetingNotSupportedFeature
    } else if code == SDKERR_MEETING_NOT_SHARE_SENDER {
        ErrorType::MeetingNotShareSender
    } else if code == SDKERR_MEETING_YOU_HAVE_NO_SHARE {
        ErrorType::MeetingYouHaveNoShare
    } else if code == SDKERR_MEETING_VIEWTYPE_PARAMETER_IS_WRONG {
        ErrorType::MeetingViewTypeParameterIsWrong
    } else if code == SDKERR_MEETING_ANNOTATION_IS_OFF {
        ErrorType::MeetingAnnotationIsOff
    } else if code == SDKERR_SETTING_OS_DONT_SUPPORT {
        ErrorType::SettingOsNotSupported
    } else if code == SDKERR_EMAIL_LOGIN_IS_DISABLED {
        ErrorType::EmailLoginIsDisabled
    } else if code == SDKERR_HARDWARE_NOT_MEET_FOR_VB {
        ErrorType::HardwareNotMetForVb
    } else {
        ErrorType::Undocumented(code)
    }
}

/// The description belonging to a kind.
pub open spec fn spec_err_description(kind: ErrorType) -> Seq<char> {
    match kind {
        ErrorType::Success => "Success"@,
        ErrorType::NoImpl => "This feature is currently invalid"@,
        ErrorType::WrongUsage => "Incorrect usage of the feature"@,
        ErrorType::InvalidParameter => "Wrong parameter"@,
        ErrorType::ModuleLoadFailed => "Loading module failed"@,
        ErrorType::MemoryFailed => "No memory is allocated"@,
        ErrorType::ServiceFailed => "Internal service error"@,
        ErrorType::Uninitialized => "Not initialized before the usage"@,
        ErrorType::Unauthorized => "Not authorized before the usage"@,
        ErrorType::NoRecordingInProgress => "No recording in process"@,
        ErrorType::TranscoderNotFound => "Transcoder module is not found"@,
        ErrorType::VideoNotReady => "The video service is not ready"@,
        ErrorType::NoPermission => "No permission"@,
        ErrorType::Unknown => "Unknown error"@,
        ErrorType::OtherSdkInstanceRunning => "The other instance of the SDK is in process"@,
        ErrorType::InternalError => "SDK internal error"@,
        ErrorType::NoAudioDeviceIsFound => "No audio device found"@,
        ErrorType::NoVideoDeviceIsFound => "No video device found"@,
        ErrorType::TooFrequentCall => "API calls too frequently"@,
        ErrorType::FailAssignUserPrivilege => "<User can't be assigned with new privilege"@,
        ErrorType::MeetingNotSupportedFeature => "The current meeting doesn't support the feature"@,
        ErrorType::MeetingNotShareSender => "The current user is not the presenter"@,
        ErrorType::MeetingYouHaveNoShare => "There is no sharing"@,
        ErrorType::MeetingViewTypeParameterIsWrong => "Incorrect ViewType parameters"@,
        ErrorType::MeetingAnnotationIsOff => "Annotation is disabled"@,
        ErrorType::SettingOsNotSupported => "Current OS doesn't support the setting"@,
        ErrorType::EmailLoginIsDisabled => "Email login is disabled"@,
        ErrorType::HardwareNotMetForVb => "Computer doesn't meet the minimum requirements to use virtual background feature"@,
        ErrorType::Undocumented(_) => "Undocumented SDKError"@,
        ErrorType::Rust => "Bridge-side error"@,
    }
}

/// Maps a native status code to its kind and description.
pub fn map_err_type(err_type: i32) -> (r: (ErrorType, &'static str))
    ensures
        r.0 == spec_err_kind(err_type),
        r.1@ == spec_err_description(r.0),
{
    if err_type == SDKERR_SUCCESS {
        (ErrorType::Success, "Success")
    } else if err_type == SDKERR_NO_IMPL {
        (ErrorType::NoImpl, "This feature is currently invalid")
    } else if err_type == SDKERR_WRONG_USEAGE {
        (ErrorType::WrongUsage, "Incorrect usage of the feature")
    } else if err_type == SDKERR_INVALID_PARAMETER {
        (ErrorType::InvalidParameter, "Wrong parameter")
    } else if err_type == SDKERR_MODULE_LOAD_FAILED {
        (ErrorType::ModuleLoadFailed, "Loading module failed")
    } else if err_type == SDKERR_MEMORY_FAILED {
        (ErrorType::MemoryFailed, "No memory is allocated")
    } else if err_type == SDKERR_SERVICE_FAILED {
        (ErrorType::ServiceFailed, "Internal service error")
    } else if err_type == SDKERR_UNINITIALIZE {
        (ErrorType::Uninitialized, "Not initialized before the usage")
    } else if err_type == SDKERR_UNAUTHENTICATION {
        (ErrorType::Unauthorized, "Not authorized before the usage")
    } else if err_type == SDKERR_NORECORDINGINPROCESS {
        (ErrorType::NoRecordingInProgress, "No recording in process")
    } else if err_type == SDKERR_TRANSCODER_NOFOUND {
        (ErrorType::TranscoderNotFound, "Transcoder module is not found")
    } else if err_type == SDKERR_VIDEO_NOTREADY {
        (ErrorType::VideoNotReady, "The video service is not ready")
    } else if err_type == SDKERR_NO_PERMISSION {
        (ErrorType::NoPermission, "No permission")
    } else if err_type == SDKERR_UNKNOWN {
        (ErrorType::Unknown, "Unknown error")
    } else if err_type == SDKERR_OTHER_SDK_INSTANCE_RUNNING {
        (ErrorType::OtherSdkInstanceRunning, "The other instance of the SDK is in process")
    } else if err_type == SDKERR_INTELNAL_ERROR {
        (ErrorType::InternalError, "SDK internal error")
    } else if err_type == SDKERR_NO_AUDIODEVICE_ISFOUND {
        (ErrorType::NoAudioDeviceIsFound, "No audio device found")
    } else if err_type == SDKERR_NO_VIDEODEVICE_ISFOUND {
        (ErrorType::NoVideoDeviceIsFound, "No video device found")
    } else if err_type == SDKERR_TOO_FREQUENT_CALL {
        (ErrorType::TooFrequentCall, "API calls too frequently")
    } else if err_type == SDKERR_FAIL_ASSIGN_USER_PRIVILEGE {
        (ErrorType::FailAssignUserPrivilege, "<User can't be assigned with new privilege")
    } else if err_type == SDKERR_MEETING_DONT_SUPPORT_FEATURE {
        (ErrorType::MeetingNotSupportedFeature, "The current meeting doesn't support the feature")
    } else if err_type == SDKERR_MEETING_NOT_SHARE_SENDER {
        (ErrorType::MeetingNotShareSender, "The current user is not the presenter")
    } else if err_type == SDKERR_MEETING_YOU_HAVE_NO_SHARE {
        (ErrorType::MeetingYouHaveNoShare, "There is no sharing")
    } else if err_type == SDKERR_MEETING_VIEWTYPE_PARAMETER_IS_WRONG {
        (ErrorType::MeetingViewTypeParameterIsWrong, "Incorrect ViewType parameters")
    } else if err_type == SDKERR_MEETING_ANNOTATION_IS_OFF {
        (ErrorType::MeetingAnnotationIsOff, "Annotation is disabled")
    } else if err_type == SDKERR_SETTING_OS_DONT_SUPPORT {
        (ErrorType::SettingOsNotSupported, "Current OS doesn't support the setting")
    } else if err_type == SDKERR_EMAIL_LOGIN_IS_DISABLED {
        (ErrorType::EmailLoginIsDisabled, "Email login is disabled")
    } else if err_type == SDKERR_HARDWARE_NOT_MEET_FOR_VB {
        (
            ErrorType::HardwareNotMetForVb,
            "Computer doesn't meet the minimum requirements to use virtual background feature",
        )
    } else {
        (ErrorType::Undocumented(err_type), "Undocumented SDKError")
    }
}

/// Mapping a status code to its kind and from the kind back to a
/// description is total: every `i32` yields some kind, and every kind
/// carries a nonempty description.
pub proof fn lemma_status_round_trip(code: i32)
    ensures
        spec_err_description(spec_err_kind(code)).len() > 0,
{
    reveal_strlit("Success");
    reveal_strlit("This feature is currently invalid");
    reveal_strlit("Incorrect usage of the feature");
    reveal_strlit("Wrong parameter");
    reveal_strlit("Loading module failed");
    reveal_strlit("No memory is allocated");
    reveal_strlit("Internal service error");
    reveal_strlit("Not initialized before the usage");
    reveal_strlit("Not authorized before the usage");
    reveal_strlit("No recording in process");
    reveal_strlit("Transcoder module is not found");
    reveal_strlit("The video service is not ready");
    reveal_strlit("No permission");
    reveal_strlit("Unknown error");
    reveal_strlit("The other instance of the SDK is in process");
    reveal_strlit("SDK internal error");
    reveal_strlit("No audio device found");
    reveal_strlit("No video device found");
    reveal_strlit("API calls too frequently");
    reveal_strlit("<User can't be assigned with new privilege");
    reveal_strlit("The current meeting doesn't support the feature");
    reveal_strlit("The current user is not the presenter");
    reveal_strlit("There is no sharing");
    reveal_strlit("Incorrect ViewType parameters");
    reveal_strlit("Annotation is disabled");
    reveal_strlit("Current OS doesn't support the setting");
    reveal_strlit("Email login is disabled");
    reveal_strlit("Computer doesn't meet the minimum requirements to use virtual background feature");
    reveal_strlit("Undocumented SDKError");
    reveal_strlit("Bridge-side error");
}

/// Category of the native "last error" record.
#[derive(Copy, Clone, Debug, PartialEq, Eq, Structural)]
pub enum LastErrorCategory {
    /// No error.
    NoError,
    /// Verification error.
    Auth,
    /// Login error.
    Login,
    /// Meeting-associated error.
    Meeting,
    /// Error associated with the native library's bottom layer.
    System,
    /// A category code outside the documented set.
    Unknown,
}

/// The raw "last error" record as the native library keeps it in global
/// state: a category code, a numeric error code and a description.
#[derive(Clone, Debug)]
pub struct LastErrorRaw {
    pub category: i32,
    pub code: u64,
    pub description: String,
}

/// The "last error" detail fetched right after a failing call, with the
/// category code already mapped.
#[derive(Clone, Debug)]
pub struct ErrorDetail {
    pub category: LastErrorCategory,
    pub code: u64,
    pub description: String,
}

/// The category a native "last error type" code maps to.
pub open spec fn spec_category(code: i32) -> LastErrorCategory {
    if code == LASTERRORTYPE_NONE {
        LastErrorCategory::NoError
    } else if code == LASTERRORTYPE_AUTH {
        LastErrorCategory::Auth
    } else if code == LASTERRORTYPE_LOGIN {
        LastErrorCategory::Login
    } else if code == LASTERRORTYPE_MEETING {
        LastErrorCategory::Meeting
    } else if code == LASTERRORTYPE_SYSTEM {
        LastErrorCategory::System
    } else {
        LastErrorCategory::Unknown
    }
}

/// Maps a native "last error type" code to its category.
pub fn map_last_error_category(code: i32) -> (r: LastErrorCategory)
    ensures
        r == spec_category(code),
{
    if code == LASTERRORTYPE_NONE {
        LastErrorCategory::NoError
    } else if code == LASTERRORTYPE_AUTH {
        LastErrorCategory::Auth
    } else if code == LASTERRORTYPE_LOGIN {
        LastErrorCategory::Login
    } else if code == LASTERRORTYPE_MEETING {
        LastErrorCategory::Meeting
    } else if code == LASTERRORTYPE_SYSTEM {
        LastErrorCategory::System
    } else {
        LastErrorCategory::Unknown
    }
}

/// The description belonging to a category.
pub open spec fn spec_category_description(c: LastErrorCategory) -> Seq<char> {
    match c {
        LastErrorCategory::NoError => "No error"@,
        LastErrorCategory::Auth => "Auth (verification)"@,
        LastErrorCategory::Login => "Login"@,
        LastErrorCategory::Meeting => "Meeting (associated error)"@,
        LastErrorCategory::System => "System (associated error with SDK bottom layer)"@,
        LastErrorCategory::Unknown => "Unknown LastErrorType"@,
    }
}

/// Describes a category in words.
pub fn category_description(c: LastErrorCategory) -> (r: &'static str)
    ensures
        r@ == spec_category_description(c),
{
    match c {
        LastErrorCategory::NoError => "No error",
        LastErrorCategory::Auth => "Auth (verification)",
        LastErrorCategory::Login => "Login",
        LastErrorCategory::Meeting => "Meeting (associated error)",
        LastErrorCategory::System => "System (associated error with SDK bottom layer)",
        LastErrorCategory::Unknown => "Unknown LastErrorType",
    }
}

/// The detail the native "last error" state currently maps to.
pub open spec fn spec_last_error_detail(sdk: Sdk) -> Option<ErrorDetail> {
    match sdk.last_error {
        Some(raw) => Some(
            ErrorDetail {
                category: spec_category(raw.category),
                code: raw.code,
                description: raw.description,
            },
        ),
        None => None,
    }
}

/// Fetches and maps the native "last error" record.  The global record is
/// overwritten by each subsequent failing call, so it must be read right
/// after the call whose failure it belongs to.
pub fn get_last_error(sdk: &Sdk) -> (r: Option<ErrorDetail>)
    ensures
        r == spec_last_error_detail(*sdk),
{
    match &sdk.last_error {
        Some(raw) => {
            let category = map_last_error_category(raw.category);
            Some(ErrorDetail { category, code: raw.code, description: raw.description.clone() })
        },
        None => None,
    }
}

/// A failed bridge operation: the mapped kind, its description, and the
/// "last error" detail fetched after the failing call, if any was.
#[derive(Debug)]
pub struct Error {
    err_type: ErrorType,
    message: String,
    detail: Option<ErrorDetail>,
}

impl Error {
    /// The mapped kind.
    pub closed spec fn spec_kind(&self) -> ErrorType {
        self.err_type
    }

    /// The human-readable description.
    pub closed spec fn spec_message(&self) -> Seq<char> {
        self.message@
    }

    /// The attached "last error" detail.
    pub closed spec fn spec_detail(&self) -> Option<ErrorDetail> {
        self.detail
    }

    /// Builds the error a native status code maps to, attaching the given
    /// "last error" detail.
    pub fn new(err_type: i32, detail: Option<ErrorDetail>) -> (e: Error)
        ensures
            e.spec_kind() == spec_err_kind(err_type),
            e.spec_message() == spec_err_description(spec_err_kind(err_type)),
            e.spec_detail() == detail,
    {
        let (kind, message) = map_err_type(err_type);
        Error { err_type: kind, message: String::from_str(message), detail }
    }

    /// Builds a bridge-invariant failure: the native call reported success
    /// but handed back an invalid value, which is a contract violation
    /// rather than an expected runtime condition.
    pub fn new_rust(message: &str) -> (e: Error)
        ensures
            e.spec_kind() == ErrorType::Rust,
            e.spec_message() == message@,
            e.spec_detail() is None,
    {
        Error { err_type: ErrorType::Rust, message: String::from_str(message), detail: None }
    }

    /// The mapped kind.
    pub fn kind(&self) -> (k: ErrorType)
        ensures
            k == self.spec_kind(),
    {
        self.err_type
    }

    /// The human-readable description.
    pub fn message(&self) -> (m: &str)
        ensures
            m@ == self.spec_message(),
    {
        self.message.as_str()
    }

    /// The attached "last error" detail.
    pub fn detail(&self) -> (d: Option<&ErrorDetail>)
        ensures
            match d {
                Some(x) => self.spec_detail() == Some(*x),
                None => self.spec_detail() is None,
            },
    {
        match &self.detail {
            Some(x) => Some(x),
            None => None,
        }
    }
}

/// The decimal digit character for a value below ten.
pub open spec fn spec_digit_char(d: nat) -> char {
    ((d + 48) as u8) as char
}

/// The decimal representation of a number, most significant digit first.
pub open spec fn spec_dec(n: nat) -> Seq<char>
    decreases n,
{
    if n < 10 {
        seq![spec_digit_char(n)]
    } else {
        spec_dec(n / 10).push(spec_digit_char(n % 10))
    }
}

fn digit_str(d: u64) -> (r: &'static str)
    requires
        d < 10,
    ensures
        r@ == seq![spec_digit_char(d as nat)],
{
    proof {
        reveal_strlit("0");
        reveal_strlit("1");
        reveal_strlit("2");
        reveal_strlit("3");
        reveal_strlit("4");
        reveal_strlit("5");
        reveal_strlit("6");
        reveal_strlit("7");
        reveal_strlit("8");
        reveal_strlit("9");
    }
    if d == 0 {
        "0"
    } else if d == 1 {
        "1"
    } else if d == 2 {
        "2"
    } else if d == 3 {
        "3"
    } else if d == 4 {
        "4"
    } else if d == 5 {
        "5"
    } else if d == 6 {
        "6"
    } else if d == 7 {
        "7"
    } else if d == 8 {
        "8"
    } else {
        "9"
    }
}

/// Renders a number in decimal.
pub fn u64_to_string(n: u64) -> (r: String)
    ensures
        r@ == spec_dec(n as nat),
    decreases n,
{
    if n < 10 {
        String::from_str(digit_str(n))
    } else {
        let mut s = u64_to_string(n / 10);
        s.append(digit_str(n % 10));
        proof {
            assert(spec_dec((n / 10) as nat) + seq![spec_digit_char((n % 10) as nat)] =~= spec_dec(
                (n / 10) as nat,
            ).push(spec_digit_char((n % 10) as nat)));
        }
        s
    }
}

/// The name of a kind, as it appears in an error's rendered form.
pub open spec fn spec_kind_name(kind: ErrorType) -> Seq<char> {
    match kind {
        ErrorType::Success => "Success"@,
        ErrorType::NoImpl => "NoImpl"@,
        ErrorType::WrongUsage => "WrongUsage"@,
        ErrorType::InvalidParameter => "InvalidParameter"@,
        ErrorType::ModuleLoadFailed => "ModuleLoadFailed"@,
        ErrorType::MemoryFailed => "MemoryFailed"@,
        ErrorType::ServiceFailed => "ServiceFailed"@,
        ErrorType::Uninitialized => "Uninitialized"@,
        ErrorType::Unauthorized => "Unauthorized"@,
        ErrorType::NoRecordingInProgress => "NoRecordingInProgress"@,
        ErrorType::TranscoderNotFound => "TranscoderNotFound"@,
        ErrorType::VideoNotReady => "VideoNotReady"@,
        ErrorType::NoPermission => "NoPermission"@,
        ErrorType::Unknown => "Unknown"@,
        ErrorType::OtherSdkInstanceRunning => "OtherSdkInstanceRunning"@,
        ErrorType::InternalError => "InternalError"@,
        ErrorType::NoAudioDeviceIsFound => "NoAudioDeviceIsFound"@,
        ErrorType::NoVideoDeviceIsFound => "NoVideoDeviceIsFound"@,
        ErrorType::TooFrequentCall => "TooFrequentCall"@,
        ErrorType::FailAssignUserPrivilege => "FailAssignUserPrivilege"@,
        ErrorType::MeetingNotSupportedFeature => "MeetingNotSupportedFeature"@,
        ErrorType::MeetingNotShareSender => "MeetingNotShareSender"@,
        ErrorType::MeetingYouHaveNoShare => "MeetingYouHaveNoShare"@,
        ErrorType::MeetingViewTypeParameterIsWrong => "MeetingViewTypeParameterIsWrong"@,
        ErrorType::MeetingAnnotationIsOff => "MeetingAnnotationIsOff"@,
        ErrorType::SettingOsNotSupported => "SettingOsNotSupported"@,
        ErrorType::EmailLoginIsDisabled => "EmailLoginIsDisabled"@,
        ErrorType::HardwareNotMetForVb => "HardwareNotMetForVb"@,
        ErrorType::Undocumented(_) => "Undocumented"@,
        ErrorType::Rust => "Rust"@,
    }
}

/// The name of a kind, as it appears in an error's rendered form.
pub fn kind_name(kind: ErrorType) -> (r: &'static str)
    ensures
        r@ == spec_kind_name(kind),
{
    match kind {
        ErrorType::Success => "Success",
        ErrorType::NoImpl => "NoImpl",
        ErrorType::WrongUsage => "WrongUsage",
        ErrorType::InvalidParameter => "InvalidParameter",
        ErrorType::ModuleLoadFailed => "ModuleLoadFailed",
        ErrorType::MemoryFailed => "MemoryFailed",
        ErrorType::ServiceFailed => "ServiceFailed",
        ErrorType::Uninitialized => "Uninitialized",
        ErrorType::Unauthorized => "Unauthorized",
        ErrorType::NoRecordingInProgress => "NoRecordingInProgress",
        ErrorType::TranscoderNotFound => "TranscoderNotFound",
        ErrorType::VideoNotReady => "VideoNotReady",
        ErrorType::NoPermission => "NoPermission",
        ErrorType::Unknown => "Unknown",
        ErrorType::OtherSdkInstanceRunning => "OtherSdkInstanceRunning",
        ErrorType::InternalError => "InternalError",
        ErrorType::NoAudioDeviceIsFound => "NoAudioDeviceIsFound",
        ErrorType::NoVideoDeviceIsFound => "NoVideoDeviceIsFound",
        ErrorType::TooFrequentCall => "TooFrequentCall",
        ErrorType::FailAssignUserPrivilege => "FailAssignUserPrivilege",
        ErrorType::MeetingNotSupportedFeature => "MeetingNotSupportedFeature",
        ErrorType::MeetingNotShareSender => "MeetingNotShareSender",
        ErrorType::MeetingYouHaveNoShare => "MeetingYouHaveNoShare",
        ErrorType::MeetingViewTypeParameterIsWrong => "MeetingViewTypeParameterIsWrong",
        ErrorType::MeetingAnnotationIsOff => "MeetingAnnotationIsOff",
        ErrorType::SettingOsNotSupported => "SettingOsNotSupported",
        ErrorType::EmailLoginIsDisabled => "EmailLoginIsDisabled",
        ErrorType::HardwareNotMetForVb => "HardwareNotMetForVb",
        ErrorType::Undocumented(_) => "Undocumented",
        ErrorType::Rust => "Rust",
    }
}

/// The rendered form of an error: its kind and message, and the attached
/// detail when one was fetched.
pub open spec fn spec_describe(e: Error) -> Seq<char> {
    "zoom_sdk::Error { type: "@ + spec_kind_name(e.spec_kind()) + ", message: \""@
        + e.spec_message() + "\""@ + (match e.spec_detail() {
        Some(d) => ", detail: ErrorDetail { category: \""@ + spec_category_description(d.category)
            + "\", code: "@ + spec_dec(d.code as nat) + ", description: \""@ + d.description@
            + "\" }"@,
        None => Seq::<char>::empty(),
    }) + " }"@
}

impl Error {
    /// Renders the error in one line: the kind and message, and the
    /// attached "last error" detail when one was fetched.
    pub fn describe(&self) -> (r: String)
        ensures
            r@ == spec_describe(*self),
    {
        let mut s = String::from_str("zoom_sdk::Error { type: ");
        s.append(kind_name(self.err_type));
        s.append(", message: \"");
        s.append(self.message.as_str());
        s.append("\"");
        match &self.detail {
            Some(d) => {
                s.append(", detail: ErrorDetail { category: \"");
                s.append(category_description(d.category));
                s.append("\", code: ");
                let code = u64_to_string(d.code);
                s.append(code.as_str());
                s.append(", description: \"");
                s.append(d.description.as_str());
                s.append("\" }");
            },
            None => {},
        }
        s.append(" }");
        s
    }
}

/// Converts a native status code into the bridge's result model: the
/// success status becomes `Ok`, every other status the mapped error with
/// the given detail attached.
pub fn err_wrap(status: i32, detail: Option<ErrorDetail>) -> (r: Result<(), Error>)
    ensures
        status == SDKERR_SUCCESS <==> r is Ok,
        status != SDKERR_SUCCESS ==> (r matches Err(e) && {
            &&& e.spec_kind() == spec_err_kind(status)
            &&& e.spec_message() == spec_err_description(spec_err_kind(status))
            &&& e.spec_detail() == detail
        }),
{
    if status == SDKERR_SUCCESS {
        Ok(())
    } else {
        Err(Error::new(status, detail))
    }
}

/// True when `e` is exactly the error a native call that failed with
/// `status` under "last error" category `category` maps to.
pub open spec fn is_native_failure(e: Error, status: i32, category: i32) -> bool {
    &&& e.spec_kind() == spec_err_kind(status)
    &&& e.spec_message() == spec_err_description(spec_err_kind(status))
    &&& (e.spec_detail() matches Some(d) && {
        &&& d.category == spec_category(category)
        &&& d.code == status as u64
        &&& d.description@ == spec_err_description(spec_err_kind(status))
    })
}

/// True when the native "last error" state records a failure with `status`
/// under `category`.
pub open spec fn is_failed_sdk(sdk: Sdk, status: i32, category: i32) -> bool {
    match sdk.last_error {
        Some(raw) => {
            &&& raw.category == category
            &&& raw.code == status as u64
            &&& raw.description@ == spec_err_description(spec_err_kind(status))
        },
        None => false,
    }
}

/// Records a failing native call in the global "last error" state and
/// builds the mapped error with the fetched detail attached.
pub(crate) fn record_native_failure(sdk: &mut Sdk, category: i32, status: i32) -> (e: Error)
    requires
        0 <= status,
    ensures
        same_services(*old(sdk), *final(sdk)),
        same_records(*old(sdk), *final(sdk)),
        is_failed_sdk(*final(sdk), status, category),
        is_native_failure(e, status, category),
{
    let (_, message) = map_err_type(status);
    sdk.last_error = Some(
        LastErrorRaw { category, code: status as u64, description: String::from_str(message) },
    );
    let detail = get_last_error(sdk);
    Error::new(status, detail)
}

} // verus!
