//! Safe core of a bridge to a native video-conferencing SDK.
//!
//! The native library is a closed-source C++ interface that must be driven
//! from one thread and that calls back into foreign code through
//! function-pointer slots.  This crate verifies the bridge discipline around
//! that boundary: service lifecycle, event-adapter registration, trampoline
//! dispatch, status-code mapping and wide-string marshaling.  The native
//! side's observable state is represented explicitly by [`Sdk`], so every
//! rule the bridge must uphold is stated as a contract over that state.

use vstd::prelude::*;

pub mod auth;
pub mod error;
pub mod marshal;
pub mod meeting;
pub mod meeting_ui;

use crate::error::{Error, LastErrorRaw};
use crate::marshal::utf16_nul;

verus! {

/// Get the version of the SDK the bridge was built against.
pub fn zoom_version() -> (v: String)
    ensures
        v@ == "5.5.1 (12511.0422)"@,
{
    String::from_str("5.5.1 (12511.0422)")
}

/// The observable state of the native library.
///
/// The native side keeps process-global state: whether it is initialized,
/// which service instances are live, which event-adapter address each
/// service was last told to call back into, the "last error" record, and
/// the parameter records the most recent calls handed over.  The bridge's
/// contracts are stated over this record, and tests drive it directly in
/// place of the foreign library.
pub struct Sdk {
    /// Whether the library has been initialized and not yet cleaned up.
    pub initialized: bool,
    /// Whether the authentication service singleton is currently live.
    pub auth_live: bool,
    /// Whether the meeting service singleton is currently live.
    pub meeting_live: bool,
    /// Source of fresh native addresses; every address the native side has
    /// ever been handed is below this bound.
    pub next_address: u64,
    /// The event-adapter address the authentication service would call
    /// back into, as last registered.
    pub auth_event_address: Option<u64>,
    /// The event-adapter address the meeting service would call back into,
    /// as last registered.
    pub meeting_event_address: Option<u64>,
    /// The global "last error" record, overwritten by each failing call.
    pub last_error: Option<LastErrorRaw>,
    /// The wide-encoded web domain handed over by initialization.
    pub init_web_domain: Option<Vec<u16>>,
    /// The authentication parameter record handed over most recently.
    pub last_auth_param: Option<crate::auth::AuthParam>,
    /// The login parameter record handed over most recently.
    pub last_login_param: Option<crate::auth::LoginParam>,
    /// The wide-encoded meeting URI handed over most recently.
    pub last_uri_action: Option<Vec<u16>>,
}

/// The state of the native library before initialization.
pub open spec fn initial_sdk() -> Sdk {
    Sdk {
        initialized: false,
        auth_live: false,
        meeting_live: false,
        next_address: 1,
        auth_event_address: None,
        meeting_event_address: None,
        last_error: None,
        init_web_domain: None,
        last_auth_param: None,
        last_login_param: None,
        last_uri_action: None,
    }
}

/// True when `a` and `b` agree on every service-lifecycle field.
pub open spec fn same_services(a: Sdk, b: Sdk) -> bool {
    &&& a.initialized == b.initialized
    &&& a.auth_live == b.auth_live
    &&& a.meeting_live == b.meeting_live
    &&& a.next_address == b.next_address
    &&& a.auth_event_address == b.auth_event_address
    &&& a.meeting_event_address == b.meeting_event_address
}

/// True when `a` and `b` agree on every recorded call parameter.
pub open spec fn same_records(a: Sdk, b: Sdk) -> bool {
    &&& a.init_web_domain == b.init_web_domain
    &&& a.last_auth_param == b.last_auth_param
    &&& a.last_login_param == b.last_login_param
    &&& a.last_uri_action == b.last_uri_action
}

impl Sdk {
    /// A fresh, uninitialized native library state.
    pub fn new() -> (s: Sdk)
        ensures
            s == initial_sdk(),
    {
        Sdk {
            initialized: false,
            auth_live: false,
            meeting_live: false,
            next_address: 1,
            auth_event_address: None,
            meeting_event_address: None,
            last_error: None,
            init_web_domain: None,
            last_auth_param: None,
            last_login_param: None,
            last_uri_action: None,
        }
    }
}

/// What became of one native event at a trampoline.
#[derive(Copy, Clone, Debug, PartialEq, Eq, Structural)]
pub enum DispatchOutcome {
    /// The event reached the registered receiver.
    Delivered,
    /// No receiver was attached — either none was registered, or dispatch
    /// re-entered the same adapter while a callback was already running —
    /// so the event was dropped.
    DroppedNoReceiver,
    /// The native payload was malformed; the event was dropped.
    DroppedInvalidPayload,
}

/// The text resource languages the native library can be initialized with.
#[derive(Copy, Clone, Debug, PartialEq, Eq, Structural)]
pub enum SdkLanguageId {
    /// For initialization.
    Unknown,
    /// In English.
    English,
    /// In simplified Chinese.
    ChineseSimplified,
    /// In traditional Chinese.
    ChineseTraditional,
    /// In Japanese.
    Japanese,
    /// In Spanish.
    Spanish,
    /// In German.
    German,
    /// In French.
    French,
    /// In Portuguese.
    Portuguese,
    /// In Russian.
    Russian,
    /// In Korean.
    Korean,
    /// In Vietnamese.
    Vietnamese,
    /// In Italian.
    Italian,
}

/// The fields of an initialization parameter record, with strings in the
/// wide form the native record points at.
pub struct InitParamView {
    pub web_domain: Option<Seq<u16>>,
    pub branding_name: Option<Seq<u16>>,
    pub support_url: Option<Seq<u16>>,
    pub res_instance: u64,
    pub ui_window_icon_small_id: u32,
    pub ui_window_icon_big_id: u32,
    pub em_language_id: SdkLanguageId,
    pub enable_generate_dump: bool,
    pub enable_log_by_default: bool,
    pub ui_log_file_size: u32,
}

/// Builder for the native initialization parameter record.
///
/// Optional strings are kept in their encoded wide form, mirroring the
/// cache that backs the native record's string pointers.
#[derive(Clone, Debug)]
pub struct InitParam {
    web_domain: Option<Vec<u16>>,
    branding_name: Option<Vec<u16>>,
    support_url: Option<Vec<u16>>,
    res_instance: u64,
    ui_window_icon_small_id: u32,
    ui_window_icon_big_id: u32,
    em_language_id: SdkLanguageId,
    enable_generate_dump: bool,
    enable_log_by_default: bool,
    ui_log_file_size: u32,
}

impl View for InitParam {
    type V = InitParamView;

    closed spec fn view(&self) -> InitParamView {
        InitParamView {
            web_domain: match self.web_domain {
                Some(v) => Some(v@),
                None => None,
            },
            branding_name: match self.branding_name {
                Some(v) => Some(v@),
                None => None,
            },
            support_url: match self.support_url {
                Some(v) => Some(v@),
                None => None,
            },
            res_instance: self.res_instance,
            ui_window_icon_small_id: self.ui_window_icon_small_id,
            ui_window_icon_big_id: self.ui_window_icon_big_id,
            em_language_id: self.em_language_id,
            enable_generate_dump: self.enable_generate_dump,
            enable_log_by_default: self.enable_log_by_default,
            ui_log_file_size: self.ui_log_file_size,
        }
    }
}

/// The wide form of an optional string argument: absent strings cross the
/// boundary as null pointers.
pub open spec fn spec_opt_wide(s: Option<&str>) -> Option<Seq<u16>> {
    match s {
        Some(t) => Some(utf16_nul(t@)),
        None => None,
    }
}

impl InitParam {
    /// Creates the default parameter record: the public web domain, no
    /// branding, no support URL, no resource module, and a 5M log file.
    pub fn new() -> (r: Self)
        ensures
            r@ == (InitParamView {
                web_domain: Some(utf16_nul("https://zoom.us"@)),
                branding_name: None,
                support_url: None,
                res_instance: u64::MAX,
                ui_window_icon_small_id: 0,
                ui_window_icon_big_id: 0,
                em_language_id: SdkLanguageId::Unknown,
                enable_generate_dump: false,
                enable_log_by_default: false,
                ui_log_file_size: 5,
            }),
    {
        let param = InitParam {
            web_domain: None,
            branding_name: None,
            support_url: None,
            res_instance: u64::MAX,
            ui_window_icon_small_id: 0,
            ui_window_icon_big_id: 0,
            em_language_id: SdkLanguageId::Unknown,
            enable_generate_dump: false,
            enable_log_by_default: false,
            ui_log_file_size: 5,
        };
        param.web_domain(Some("https://zoom.us"))
    }

    /// Web domain, defaults to 'https://zoom.us'.
    pub fn web_domain(self, web_domain: Option<&str>) -> (r: Self)
        ensures
            r@ == (InitParamView { web_domain: spec_opt_wide(web_domain), ..self@ }),
    {
        let encoded = crate::marshal::option_str_encode_nul_wide(web_domain);
        InitParam { web_domain: encoded, ..self }
    }

    /// Branding name.
    pub fn branding_name(self, branding_name: Option<&str>) -> (r: Self)
        ensures
            r@ == (InitParamView { branding_name: spec_opt_wide(branding_name), ..self@ }),
    {
        let encoded = crate::marshal::option_str_encode_nul_wide(branding_name);
        InitParam { branding_name: encoded, ..self }
    }

    /// Support URL.
    pub fn support_url(self, support_url: Option<&str>) -> (r: Self)
        ensures
            r@ == (InitParamView { support_url: spec_opt_wide(support_url), ..self@ }),
    {
        let encoded = crate::marshal::option_str_encode_nul_wide(support_url);
        InitParam { support_url: encoded, ..self }
    }

    /// Resource module handle value.
    pub fn res_instance(self, res_instance: u64) -> (r: Self)
        ensures
            r@ == (InitParamView { res_instance: res_instance, ..self@ }),
    {
        InitParam { res_instance, ..self }
    }

    /// The ID of the small icon on the window.
    pub fn ui_window_icon_small_id(self, ui_window_icon_small_id: u32) -> (r: Self)
        ensures
            r@ == (InitParamView { ui_window_icon_small_id: ui_window_icon_small_id, ..self@ }),
    {
        InitParam { ui_window_icon_small_id, ..self }
    }

    /// The ID of the big icon on the window.
    pub fn ui_window_icon_big_id(self, ui_window_icon_big_id: u32) -> (r: Self)
        ensures
            r@ == (InitParamView { ui_window_icon_big_id: ui_window_icon_big_id, ..self@ }),
    {
        InitParam { ui_window_icon_big_id, ..self }
    }

    /// The ID of the SDK language.
    pub fn em_language_id(self, em_language_id: SdkLanguageId) -> (r: Self)
        ensures
            r@ == (InitParamView { em_language_id: em_language_id, ..self@ }),
    {
        InitParam { em_language_id, ..self }
    }

    /// Enable writing a dump file if the application crashes.
    pub fn enable_generate_dump(self, enable_generate_dump: bool) -> (r: Self)
        ensures
            r@ == (InitParamView { enable_generate_dump: enable_generate_dump, ..self@ }),
    {
        InitParam { enable_generate_dump, ..self }
    }

    /// Enable the log feature.
    pub fn enable_log_by_default(self, enable_log_by_default: bool) -> (r: Self)
        ensures
            r@ == (InitParamView { enable_log_by_default: enable_log_by_default, ..self@ }),
    {
        InitParam { enable_log_by_default, ..self }
    }

    /// Size of a log file in megabytes.  The default size is 5M.
    pub fn ui_log_file_size(self, ui_log_file_size: u32) -> (r: Self)
        ensures
            r@ == (InitParamView { ui_log_file_size: ui_log_file_size, ..self@ }),
    {
        InitParam { ui_log_file_size, ..self }
    }

    fn web_domain_units(&self) -> (r: Option<&Vec<u16>>)
        ensures
            match r {
                Some(v) => self@.web_domain == Some(v@),
                None => self@.web_domain is None,
            },
    {
        match &self.web_domain {
            Some(v) => Some(v),
            None => None,
        }
    }
}

/// Initialize the native library.
///
/// The native side rejects a parameter record without a web domain with the
/// "wrong parameter" status; otherwise it becomes initialized and keeps the
/// wide-encoded domain.  Initialization may be repeated while initialized.
pub fn init_sdk(sdk: &mut Sdk, init_param: &InitParam) -> (r: Result<(), Error>)
    ensures
        match r {
            Ok(()) => {
                &&& init_param@.web_domain is Some
                &&& final(sdk).initialized
                &&& (match final(sdk).init_web_domain {
                    Some(v) => Some(v@) == init_param@.web_domain,
                    None => false,
                })
                &&& final(sdk).auth_live == old(sdk).auth_live
                &&& final(sdk).meeting_live == old(sdk).meeting_live
                &&& final(sdk).next_address == old(sdk).next_address
                &&& final(sdk).auth_event_address == old(sdk).auth_event_address
                &&& final(sdk).meeting_event_address == old(sdk).meeting_event_address
                &&& final(sdk).last_error == old(sdk).last_error
                &&& final(sdk).last_auth_param == old(sdk).last_auth_param
                &&& final(sdk).last_login_param == old(sdk).last_login_param
                &&& final(sdk).last_uri_action == old(sdk).last_uri_action
            },
            Err(e) => {
                &&& init_param@.web_domain is None
                &&& e.spec_kind() == crate::error::ErrorType::InvalidParameter
                &&& e.spec_message() == crate::error::spec_err_description(e.spec_kind())
                &&& e.spec_detail() == crate::error::spec_last_error_detail(*old(sdk))
                &&& *final(sdk) == *old(sdk)
            },
        },
{
    match init_param.web_domain_units() {
        Some(units) => {
            sdk.initialized = true;
            sdk.init_web_domain = Some(vstd::slice::slice_to_vec(units.as_slice()));
            Ok(())
        },
        None => {
            let detail = crate::error::get_last_error(sdk);
            Err(Error::new(crate::error::SDKERR_INVALID_PARAMETER, detail))
        },
    }
}

/// Create the authentication service singleton.
///
/// Teardown is explicit and consuming: see [`auth::AuthService::destroy`].
pub fn create_auth_service<E: auth::AuthServiceEvent>(sdk: &mut Sdk) -> (r: Result<
    auth::AuthService<E>,
    Error,
>)
    ensures
        match r {
            Ok(service) => {
                &&& auth::auth_create_ok(*old(sdk))
                &&& service.instance_addr() == old(sdk).next_address
                &&& !service.has_receiver()
                &&& service.attached(*final(sdk))
                &&& *final(sdk) == auth::auth_created_sdk(*old(sdk))
            },
            Err(e) => {
                &&& !auth::auth_create_ok(*old(sdk))
                &&& same_services(*old(sdk), *final(sdk))
                &&& same_records(*old(sdk), *final(sdk))
                &&& {
                    let status = if !old(sdk).initialized {
                        error::SDKERR_UNINITIALIZE
                    } else if old(sdk).auth_live {
                        error::SDKERR_WRONG_USEAGE
                    } else {
                        error::SDKERR_MEMORY_FAILED
                    };
                    &&& error::is_native_failure(e, status, error::LASTERRORTYPE_SYSTEM)
                    &&& error::is_failed_sdk(*final(sdk), status, error::LASTERRORTYPE_SYSTEM)
                }
            },
        },
{
    auth::AuthService::new(sdk)
}

/// Create the meeting service singleton.
///
/// Teardown is explicit and consuming: see [`meeting::MeetingService::destroy`].
pub fn create_meeting_service<E: meeting::MeetingServiceEvent>(sdk: &mut Sdk) -> (r: Result<
    meeting::MeetingService<E>,
    Error,
>)
    ensures
        match r {
            Ok(service) => {
                &&& meeting::meeting_create_ok(*old(sdk))
                &&& service.instance_addr() == old(sdk).next_address
                &&& !service.has_receiver()
                &&& service.attached(*final(sdk))
                &&& *final(sdk) == meeting::meeting_created_sdk(*old(sdk))
            },
            Err(e) => {
                &&& !meeting::meeting_create_ok(*old(sdk))
                &&& same_services(*old(sdk), *final(sdk))
                &&& same_records(*old(sdk), *final(sdk))
                &&& {
                    let status = if !old(sdk).initialized {
                        error::SDKERR_UNINITIALIZE
                    } else if old(sdk).meeting_live {
                        error::SDKERR_WRONG_USEAGE
                    } else {
                        error::SDKERR_MEMORY_FAILED
                    };
                    &&& error::is_native_failure(e, status, error::LASTERRORTYPE_SYSTEM)
                    &&& error::is_failed_sdk(*final(sdk), status, error::LASTERRORTYPE_SYSTEM)
                }
            },
        },
{
    meeting::MeetingService::new(sdk)
}

/// Clean up the native library.
///
/// Every service handle must have been destroyed first: teardown of the
/// library underneath a live native instance would leave the instance's
/// owner holding a dangling foreign pointer.
pub fn clean_up_sdk(sdk: &mut Sdk) -> (r: Result<(), Error>)
    requires
        !old(sdk).auth_live,
        !old(sdk).meeting_live,
    ensures
        r is Ok,
        *final(sdk) == (Sdk { initialized: false, ..*old(sdk) }),
{
    sdk.initialized = false;
    Ok(())
}

} // verus!
