//! The meeting service: handle lifecycle, event registration and trampoline
//! dispatch, with the meeting status taxonomy.
//!
//! The mechanism is the same as for the authentication service: the handle
//! exclusively owns one live native instance, registration installs an
//! address-fixed event adapter, and the trampolines take the receiver out
//! for the duration of a callback and restore one afterwards.

use vstd::prelude::*;
use crate::error::{
    is_failed_sdk, is_native_failure, record_native_failure, Error, LASTERRORTYPE_MEETING,
    LASTERRORTYPE_SYSTEM, SDKERR_INVALID_PARAMETER, SDKERR_MEMORY_FAILED, SDKERR_UNINITIALIZE,
    SDKERR_WRONG_USEAGE,
};
use crate::marshal::{str_to_u16_vec, utf16_nul};
use crate::{same_records, same_services, DispatchOutcome, Sdk};

verus! {

pub const MEETING_STATUS_IDLE: i32 = 0;
pub const MEETING_STATUS_CONNECTING: i32 = 1;
pub const MEETING_STATUS_WAITINGFORHOST: i32 = 2;
pub const MEETING_STATUS_INMEETING: i32 = 3;
pub const MEETING_STATUS_DISCONNECTING: i32 = 4;
pub const MEETING_STATUS_RECONNECTING: i32 = 5;
pub const MEETING_STATUS_FAILED: i32 = 6;
pub const MEETING_STATUS_ENDED: i32 = 7;
pub const MEETING_STATUS_UNKNOW: i32 = 8;
pub const MEETING_STATUS_LOCKED: i32 = 9;
pub const MEETING_STATUS_UNLOCKED: i32 = 10;
pub const MEETING_STATUS_IN_WAITING_ROOM: i32 = 11;
pub const MEETING_STATUS_WEBINAR_PROMOTE: i32 = 12;
pub const MEETING_STATUS_WEBINAR_DEPROMOTE: i32 = 13;
pub const MEETING_STATUS_JOIN_BREAKOUT_ROOM: i32 = 14;
pub const MEETING_STATUS_LEAVE_BREAKOUT_ROOM: i32 = 15;
pub const MEETING_STATUS_WAITING_EXTERNAL_SESSION_KEY: i32 = 16;

pub const MEETING_FAIL_SUCCESS: i32 = 0;
pub const MEETING_FAIL_NETWORK_ERR: i32 = 1;
pub const MEETING_FAIL_RECONNECT_ERR: i32 = 2;
pub const MEETING_FAIL_MMR_ERR: i32 = 3;
pub const MEETING_FAIL_PASSWORD_ERR: i32 = 4;
pub const MEETING_FAIL_SESSION_ERR: i32 = 5;
pub const MEETING_FAIL_MEETING_OVER: i32 = 6;
pub const MEETING_FAIL_MEETING_NOT_START: i32 = 7;
pub const MEETING_FAIL_MEETING_NOT_EXIST: i32 = 8;
pub const MEETING_FAIL_MEETING_USER_FULL: i32 = 9;
pub const MEETING_FAIL_CLIENT_INCOMPATIBLE: i32 = 10;
pub const MEETING_FAIL_NO_MMR: i32 = 11;
pub const MEETING_FAIL_CONFLOCKED: i32 = 12;
pub const MEETING_FAIL_MEETING_RESTRICTED: i32 = 13;
pub const MEETING_FAIL_MEETING_RESTRICTED_JBH: i32 = 14;
pub const MEETING_FAIL_CANNOT_EMIT_WEBREQUEST: i32 = 15;
pub const MEETING_FAIL_CANNOT_START_TOKENEXPIRE: i32 = 16;
pub const SESSION_VIDEO_ERR: i32 = 17;
pub const SESSION_AUDIO_AUTOSTARTERR: i32 = 18;
pub const MEETING_FAIL_REGISTERWEBINAR_FULL: i32 = 19;
pub const MEETING_FAIL_REGISTERWEBINAR_HOSTREGISTER: i32 = 20;
pub const MEETING_FAIL_REGISTERWEBINAR_PANELISTREGISTER: i32 = 21;
pub const MEETING_FAIL_REGISTERWEBINAR_DENIED_EMAIL: i32 = 22;
pub const MEETING_FAIL_ENFORCE_LOGIN: i32 = 23;
pub const CONF_FAIL_ZC_CERTIFICATE_CHANGED: i32 = 24;
pub const CONF_FAIL_VANITY_NOT_EXIST: i32 = 27;
pub const CONF_FAIL_JOIN_WEBINAR_WITHSAMEEMAIL: i32 = 28;
pub const CONF_FAIL_DISALLOW_HOST_MEETING: i32 = 29;
pub const MEETING_FAIL_WRITE_CONFIG_FILE: i32 = 50;
pub const MEETING_FAIL_FORBID_TO_JOIN_INTERNAL_MEETING: i32 = 60;
pub const CONF_FAIL_REMOVED_BY_HOST: i32 = 61;

pub const END_MEETING_REASON_NONE: i32 = 0;
pub const END_MEETING_REASON_KICK_BY_HOST: i32 = 1;
pub const END_MEETING_REASON_END_BY_HOST: i32 = 2;
pub const END_MEETING_REASON_JBH_TIMEOUT: i32 = 3;
pub const END_MEETING_REASON_NO_ATTENDEE: i32 = 4;
pub const END_MEETING_REASON_HOST_START_ANOTHERMEETING: i32 = 5;
pub const END_MEETING_REASON_FREEMEETING_TIMEOUT: i32 = 6;
pub const END_MEETING_REASON_NETWORK_BROKEN: i32 = 7;

/// The header region of a meeting event adapter: one function-pointer slot
/// per event kind, true when bound to the corresponding trampoline.
#[derive(Debug)]
pub struct MeetingEventHeader {
    pub cb_meeting_status_changed: bool,
    pub cb_meeting_statistics_warning_notification: bool,
}

/// An event adapter for the meeting service, exactly as for the
/// authentication service: header, fixed address, back-reference and the
/// caller-supplied receiver.
#[derive(Debug)]
pub struct EventObject<E> {
    header: MeetingEventHeader,
    address: u64,
    service_address: u64,
    events: E,
}

/// Meeting service handle: exclusive owner of one live native meeting
/// instance, together with the event adapter registered on it, if any.
///
/// The handle is destroyed by [`MeetingService::destroy`], which consumes
/// it, so no operation can follow teardown and teardown cannot run twice.
#[derive(Debug)]
pub struct MeetingService<E> {
    instance: u64,
    event_data: Option<EventObject<E>>,
    // The native library must be driven from one thread; the handle is
    // neither sendable nor shareable across threads.
    single_thread: core::marker::PhantomData<std::rc::Rc<()>>,
}

impl<E> MeetingService<E> {
    /// The address of the owned native instance.
    pub closed spec fn instance_addr(&self) -> u64 {
        self.instance
    }

    /// Whether an event adapter holding a receiver is attached.
    pub closed spec fn has_receiver(&self) -> bool {
        self.event_data is Some
    }

    /// The attached receiver, if any.
    pub closed spec fn spec_receiver(&self) -> Option<E> {
        match self.event_data {
            Some(d) => Some(d.events),
            None => None,
        }
    }

    /// The fixed address of the attached event adapter, if any.
    pub closed spec fn adapter_addr(&self) -> Option<u64> {
        match self.event_data {
            Some(d) => Some(d.address),
            None => None,
        }
    }

    /// The adapter agrees with the native side: the native library calls
    /// back into exactly the attached adapter's address, the back-reference
    /// names the owning instance, and both trampoline slots are bound.
    pub closed spec fn adapter_ok(&self, sdk: Sdk) -> bool {
        match self.event_data {
            Some(d) => {
                &&& d.address < sdk.next_address
                &&& sdk.meeting_event_address == Some(d.address)
                &&& d.service_address == self.instance
                &&& d.header.cb_meeting_status_changed
                &&& d.header.cb_meeting_statistics_warning_notification
            },
            None => sdk.meeting_event_address is None,
        }
    }

    /// Well-formedness of a handle against the native state it was created
    /// from.
    pub open spec fn attached(&self, sdk: Sdk) -> bool {
        &&& sdk.initialized
        &&& sdk.meeting_live
        &&& self.instance_addr() < sdk.next_address
        &&& self.adapter_ok(sdk)
    }

    /// The state a receiver observes while its callback runs: the receiver
    /// has been taken out of the adapter for the duration of the call, and
    /// the native side still holds the suspended adapter's address.
    pub open spec fn in_callback(&self, sdk: Sdk) -> bool {
        &&& sdk.initialized
        &&& sdk.meeting_live
        &&& !self.has_receiver()
        &&& self.instance_addr() < sdk.next_address
        &&& (match sdk.meeting_event_address {
            Some(a) => a < sdk.next_address,
            None => false,
        })
    }

    /// The address of the owned native instance.
    pub fn instance_address(&self) -> (a: u64)
        ensures
            a == self.instance_addr(),
    {
        self.instance
    }

    /// The address the attached event adapter was registered under, if any.
    pub fn event_address(&self) -> (r: Option<u64>)
        ensures
            r == self.adapter_addr(),
    {
        match &self.event_data {
            Some(d) => Some(d.address),
            None => None,
        }
    }

    /// The attached receiver, if any.
    pub fn receiver(&self) -> (r: Option<&E>)
        ensures
            match r {
                Some(e) => self.spec_receiver() == Some(*e),
                None => !self.has_receiver(),
            },
    {
        match &self.event_data {
            Some(d) => Some(&d.events),
            None => None,
        }
    }
}

/// A caller-supplied receiver for meeting service events.  The same calling
/// discipline as for the authentication service applies: the receiver is
/// taken out of the adapter while one of its callbacks runs, and it may
/// call back into the service it was handed.
pub trait MeetingServiceEvent: Sized {
    /// The meeting status changed.
    fn meeting_status_changed(
        &mut self,
        sdk: &mut Sdk,
        meeting: &mut MeetingService<Self>,
        status: MeetingStatus,
    )
        requires
            old(meeting).in_callback(*old(sdk)),
        ensures
            final(sdk).initialized,
            final(sdk).meeting_live,
            final(sdk).next_address >= old(sdk).next_address,
            final(meeting).instance_addr() == old(meeting).instance_addr(),
            final(meeting).has_receiver() ==> final(meeting).adapter_ok(*final(sdk)),
            !final(meeting).has_receiver() ==> final(sdk).meeting_event_address == old(
                sdk,
            ).meeting_event_address,
    ;

    /// The native library warned about meeting statistics.
    fn meeting_statistics_warning_notification(
        &mut self,
        sdk: &mut Sdk,
        meeting: &mut MeetingService<Self>,
        typ: StatisticsWarningType,
    )
        requires
            old(meeting).in_callback(*old(sdk)),
        ensures
            final(sdk).initialized,
            final(sdk).meeting_live,
            final(sdk).next_address >= old(sdk).next_address,
            final(meeting).instance_addr() == old(meeting).instance_addr(),
            final(meeting).has_receiver() ==> final(meeting).adapter_ok(*final(sdk)),
            !final(meeting).has_receiver() ==> final(sdk).meeting_event_address == old(
                sdk,
            ).meeting_event_address,
    ;
}

/// True when the native library would accept creating the meeting service
/// singleton.
pub open spec fn meeting_create_ok(sdk: Sdk) -> bool {
    &&& sdk.initialized
    &&& !sdk.meeting_live
    &&& sdk.next_address < u64::MAX
}

/// The native state after the meeting service singleton has been created.
pub open spec fn meeting_created_sdk(sdk: Sdk) -> Sdk {
    Sdk {
        meeting_live: true,
        meeting_event_address: None,
        next_address: (sdk.next_address + 1) as u64,
        ..sdk
    }
}

/// The native state after the meeting service singleton has been destroyed.
pub open spec fn meeting_destroyed_sdk(sdk: Sdk) -> Sdk {
    Sdk { meeting_live: false, meeting_event_address: None, ..sdk }
}

/// At most one meeting service instance is live: creating the singleton
/// makes it live, and no state in which it is live accepts a second
/// creation.
pub proof fn lemma_at_most_one_live_meeting(sdk: Sdk)
    requires
        meeting_create_ok(sdk),
    ensures
        meeting_created_sdk(sdk).meeting_live,
        !meeting_create_ok(meeting_created_sdk(sdk)),
{
}

/// Destroying the live meeting instance re-enables creation.
pub proof fn lemma_meeting_destroy_enables_create(sdk: Sdk)
    requires
        meeting_create_ok(sdk),
        meeting_created_sdk(sdk).next_address < u64::MAX,
    ensures
        meeting_create_ok(meeting_destroyed_sdk(meeting_created_sdk(sdk))),
{
}

/// The native side calls back into exactly the adapter that is currently
/// attached: while a receiver is registered, the address the native state
/// holds is the attached adapter's address.
pub proof fn lemma_meeting_observes_current_adapter<E>(service: MeetingService<E>, sdk: Sdk)
    requires
        service.attached(sdk),
        service.has_receiver(),
    ensures
        sdk.meeting_event_address == service.adapter_addr(),
{
}

/// A registration never reuses an address the handle already shared with
/// the native side.
pub proof fn lemma_meeting_registration_address_fresh<E>(service: MeetingService<E>, sdk: Sdk)
    requires
        service.attached(sdk),
    ensures
        match service.adapter_addr() {
            Some(a) => a != sdk.next_address,
            None => true,
        },
        service.instance_addr() != sdk.next_address,
{
}

impl<E: MeetingServiceEvent> MeetingService<E> {
    /// Asks the native library to allocate the meeting service singleton.
    /// Fails with `Uninitialized` before initialization, with `WrongUsage`
    /// while an instance is already live, and with `MemoryFailed` when the
    /// native side cannot allocate.
    pub(crate) fn new(sdk: &mut Sdk) -> (r: Result<MeetingService<E>, Error>)
        ensures
            match r {
                Ok(service) => {
                    &&& meeting_create_ok(*old(sdk))
                    &&& service.instance_addr() == old(sdk).next_address
                    &&& !service.has_receiver()
                    &&& service.attached(*final(sdk))
                    &&& *final(sdk) == meeting_created_sdk(*old(sdk))
                },
                Err(e) => {
                    &&& !meeting_create_ok(*old(sdk))
                    &&& same_services(*old(sdk), *final(sdk))
                    &&& same_records(*old(sdk), *final(sdk))
                    &&& {
                        let status = if !old(sdk).initialized {
                            SDKERR_UNINITIALIZE
                        } else if old(sdk).meeting_live {
                            SDKERR_WRONG_USEAGE
                        } else {
                            SDKERR_MEMORY_FAILED
                        };
                        &&& is_native_failure(e, status, LASTERRORTYPE_SYSTEM)
                        &&& is_failed_sdk(*final(sdk), status, LASTERRORTYPE_SYSTEM)
                    }
                },
            },
    {
        if !sdk.initialized {
            return Err(record_native_failure(sdk, LASTERRORTYPE_SYSTEM, SDKERR_UNINITIALIZE));
        }
        if sdk.meeting_live {
            return Err(record_native_failure(sdk, LASTERRORTYPE_SYSTEM, SDKERR_WRONG_USEAGE));
        }
        if sdk.next_address == u64::MAX {
            return Err(record_native_failure(sdk, LASTERRORTYPE_SYSTEM, SDKERR_MEMORY_FAILED));
        }
        let instance = sdk.next_address;
        sdk.next_address = instance + 1;
        sdk.meeting_live = true;
        sdk.meeting_event_address = None;
        Ok(MeetingService { instance, event_data: None, single_thread: core::marker::PhantomData })
    }

    /// Joins a meeting through its web URI.  The URI is marshaled into its
    /// nul-terminated wide form for the duration of the native call only.
    /// An empty URI is rejected by the native side as a wrong parameter.
    pub fn handle_zoom_web_uri_protocol_action(&self, sdk: &mut Sdk, uri: &str) -> (r: Result<
        (),
        Error,
    >)
        requires
            old(sdk).initialized,
            old(sdk).meeting_live,
        ensures
            match r {
                Ok(()) => {
                    &&& uri@.len() > 0
                    &&& same_services(*old(sdk), *final(sdk))
                    &&& final(sdk).last_error == old(sdk).last_error
                    &&& final(sdk).init_web_domain == old(sdk).init_web_domain
                    &&& final(sdk).last_auth_param == old(sdk).last_auth_param
                    &&& final(sdk).last_login_param == old(sdk).last_login_param
                    &&& (final(sdk).last_uri_action matches Some(u) && u@ == utf16_nul(uri@))
                },
                Err(e) => {
                    &&& uri@.len() == 0
                    &&& same_services(*old(sdk), *final(sdk))
                    &&& same_records(*old(sdk), *final(sdk))
                    &&& is_native_failure(e, SDKERR_INVALID_PARAMETER, LASTERRORTYPE_MEETING)
                    &&& is_failed_sdk(*final(sdk), SDKERR_INVALID_PARAMETER, LASTERRORTYPE_MEETING)
                },
            },
    {
        if uri.unicode_len() == 0 {
            return Err(
                record_native_failure(sdk, LASTERRORTYPE_MEETING, SDKERR_INVALID_PARAMETER),
            );
        }
        sdk.last_uri_action = Some(str_to_u16_vec(uri));
        Ok(())
    }

    /// Registers a callback receiver, replacing any previous one, exactly
    /// as [`crate::auth::AuthService::set_event`] does: the adapter is
    /// placed at a fresh address and the native library switches to it
    /// before the previous adapter is released.
    pub fn set_event(&mut self, sdk: &mut Sdk, events: E) -> (r: Result<(), Error>)
        requires
            old(sdk).initialized,
            old(sdk).meeting_live,
            old(self).instance_addr() < old(sdk).next_address,
        ensures
            final(self).instance_addr() == old(self).instance_addr(),
            match r {
                Ok(()) => {
                    &&& old(sdk).next_address < u64::MAX
                    &&& final(self).has_receiver()
                    &&& final(self).spec_receiver() == Some(events)
                    &&& final(self).adapter_addr() == Some(old(sdk).next_address)
                    &&& final(self).attached(*final(sdk))
                    &&& *final(sdk) == (Sdk {
                        meeting_event_address: Some(old(sdk).next_address),
                        next_address: (old(sdk).next_address + 1) as u64,
                        ..*old(sdk)
                    })
                },
                Err(e) => {
                    &&& old(sdk).next_address == u64::MAX
                    &&& *final(self) == *old(self)
                    &&& same_services(*old(sdk), *final(sdk))
                    &&& same_records(*old(sdk), *final(sdk))
                    &&& is_native_failure(e, SDKERR_MEMORY_FAILED, LASTERRORTYPE_SYSTEM)
                    &&& is_failed_sdk(*final(sdk), SDKERR_MEMORY_FAILED, LASTERRORTYPE_SYSTEM)
                },
            },
    {
        if sdk.next_address == u64::MAX {
            return Err(record_native_failure(sdk, LASTERRORTYPE_SYSTEM, SDKERR_MEMORY_FAILED));
        }
        let address = sdk.next_address;
        let data = EventObject {
            header: MeetingEventHeader {
                cb_meeting_status_changed: true,
                cb_meeting_statistics_warning_notification: true,
            },
            address,
            service_address: self.instance,
            events,
        };
        sdk.meeting_event_address = Some(address);
        sdk.next_address = address + 1;
        self.event_data = Some(data);
        Ok(())
    }

    /// Tears down the owned native instance, exactly once; consuming the
    /// handle makes any later operation, and a second teardown, a type
    /// error.  The adapter, if any, is destroyed with the handle.
    pub fn destroy(self, sdk: &mut Sdk)
        requires
            old(sdk).meeting_live,
        ensures
            *final(sdk) == meeting_destroyed_sdk(*old(sdk)),
    {
        sdk.meeting_live = false;
        sdk.meeting_event_address = None;
    }
}

pub const STATISTIC_WARNING_NONE: i32 = 0;
pub const STATISTIC_WARNING_NETWORK_QUALITY_BAD: i32 = 1;
pub const STATISTIC_WARNING_BUSY_SYSTEM: i32 = 2;

/// A meeting statistics warning, mapped from the native code.
#[derive(Copy, Clone, Debug, PartialEq, Eq, Structural)]
pub enum StatisticsWarningType {
    /// No warning.
    NoWarning,
    /// The network connection quality is bad.
    NetworkQualityBad,
    /// The system is busy.
    BusySystem,
    /// A code outside the documented set, carried raw.
    Unmapped(i32),
}

/// The warning a native statistics warning code maps to.
pub open spec fn spec_statistics_warning(code: i32) -> StatisticsWarningType {
    if code == STATISTIC_WARNING_NONE {
        StatisticsWarningType::NoWarning
    } else if code == STATISTIC_WARNING_NETWORK_QUALITY_BAD {
        StatisticsWarningType::NetworkQualityBad
    } else if code == STATISTIC_WARNING_BUSY_SYSTEM {
        StatisticsWarningType::BusySystem
    } else {
        StatisticsWarningType::Unmapped(code)
    }
}

/// Maps a native statistics warning code, totally: every code yields a
/// warning, unknown ones carried raw in `Unmapped`.
pub fn map_statistics_warning(typ: i32) -> (r: StatisticsWarningType)
    ensures
        r == spec_statistics_warning(typ),
{
    if typ == STATISTIC_WARNING_NONE {
        StatisticsWarningType::NoWarning
    } else if typ == STATISTIC_WARNING_NETWORK_QUALITY_BAD {
        StatisticsWarningType::NetworkQualityBad
    } else if typ == STATISTIC_WARNING_BUSY_SYSTEM {
        StatisticsWarningType::BusySystem
    } else {
        StatisticsWarningType::Unmapped(typ)
    }
}

/// Why connecting to a meeting failed, mapped from the native code.
#[derive(Copy, Clone, Debug, PartialEq, Eq, Structural)]
pub enum MeetingFailCode {
    /// Start meeting successfully.
    MeetingSuccess,
    /// Network error.
    MeetingFailNetworkErr,
    /// Reconnect error.
    MeetingFailReconnectErr,
    /// Multi-media Router error.
    MeetingFailMmrErr,
    /// Password is wrong.
    MeetingFailPasswordErr,
    /// Session error.
    MeetingFailSessionErr,
    /// Meeting is over.
    MeetingFailMeetingOver,
    /// Meeting has not begun.
    MeetingFailMeetingNotStart,
    /// Meeting does not exist.
    MeetingFailMeetingNotExist,
    /// The capacity of meeting is full.
    MeetingFailMeetingUserFull,
    /// The client is incompatible.
    MeetingFailClientIncompatible,
    /// The Multi-media router is not founded.
    MeetingFailNoMmr,
    /// The meeting is locked.
    MeetingFailConfLocked,
    /// The meeting is failed because of the restriction by the same account.
    MeetingFailMeetingRestricted,
    /// The meeting is restricted by the same account while the attendee is allowed to join before the host.
    MeetingFailMeetingRestrictedJbh,
    /// Unable to send web request.
    MeetingFailCannotEmitWebRequest,
    /// The token is expired.
    MeetingFailCannotStartTokenExpire,
    /// Video hardware or software error.
    SessionVideoErr,
    /// Audio autostart error.
    SessionAudioAutoStartErr,
    /// The number of webinar registered has reached the upper limit.
    MeetingFailRegisterWebinarFull,
    /// Register webinar with the role of webinar host.
    MeetingFailRegisterWebinarHostRegister,
    /// Register webinar with the role of panelist member.
    MeetingFailRegisterWebinarPanelistRegister,
    /// Register webinar with the denied email.
    MeetingFailRegisterWebinarDeniedEmail,
    /// Webinar request to login.
    MeetingFailEnforceLogin,
    /// Invalid for Windows SDK.
    ConfFailZcCertificateChanged,
    /// Vanity conference ID does not exist.
    ConfFailVanityNotExist,
    /// Join webinar with the same email.
    ConfFailJoinWebinarWithSameEmail,
    /// Meeting settings is not allowed to start a meeting.
    ConfFailDisallowHostMeeting,
    /// Disabled to write the configure file.
    MeetingFailWriteConfigFile,
    /// Forbidden to join the internal meeting.
    MeetingFailForbidToJoinInternalMeeting,
    /// Removed by the host.
    ConfFailRemovedByHost,
    /// A code outside the documented set, carried raw.
    Unmapped(i32),
}

/// The failure reason a native result code maps to.
pub open spec fn spec_meeting_fail(code: i32) -> MeetingFailCode {
    if code == MEETING_FAIL_SUCCESS {
        MeetingFailCode::MeetingSuccess
    } else if code == MEETING_FAIL_NETWORK_ERR {
        MeetingFailCode::MeetingFailNetworkErr
    } else if code == MEETING_FAIL_RECONNECT_ERR {
        MeetingFailCode::MeetingFailReconnectErr
    } else if code == MEETING_FAIL_MMR_ERR {
        MeetingFailCode::MeetingFailMmrErr
    } else if code == MEETING_FAIL_PASSWORD_ERR {
        MeetingFailCode::MeetingFailPasswordErr
    } else if code == MEETING_FAIL_SESSION_ERR {
        MeetingFailCode::MeetingFailSessionErr
    } else if code == MEETING_FAIL_MEETING_OVER {
        MeetingFailCode::MeetingFailMeetingOver
    } else if code == MEETING_FAIL_MEETING_NOT_START {
        MeetingFailCode::MeetingFailMeetingNotStart
    } else if code == MEETING_FAIL_MEETING_NOT_EXIST {
        MeetingFailCode::MeetingFailMeetingNotExist
    } else if code == MEETING_FAIL_MEETING_USER_FULL {
        MeetingFailCode::MeetingFailMeetingUserFull
    } else if code == MEETING_FAIL_CLIENT_INCOMPATIBLE {
        MeetingFailCode::MeetingFailClientIncompatible
    } else if code == MEETING_FAIL_NO_MMR {
        MeetingFailCode::MeetingFailNoMmr
    } else if code == MEETING_FAIL_CONFLOCKED {
        MeetingFailCode::MeetingFailConfLocked
    } else if code == MEETING_FAIL_MEETING_RESTRICTED {
        MeetingFailCode::MeetingFailMeetingRestricted
    } else if code == MEETING_FAIL_MEETING_RESTRICTED_JBH {
        MeetingFailCode::MeetingFailMeetingRestrictedJbh
    } else if code == MEETING_FAIL_CANNOT_EMIT_WEBREQUEST {
        MeetingFailCode::MeetingFailCannotEmitWebRequest
    } else if code == MEETING_FAIL_CANNOT_START_TOKENEXPIRE {
        MeetingFailCode::MeetingFailCannotStartTokenExpire
    } else if code == SESSION_VIDEO_ERR {
        MeetingFailCode::SessionVideoErr
    } else if code == SESSION_AUDIO_AUTOSTARTERR {
        MeetingFailCode::SessionAudioAutoStartErr
    } else if code == MEETING_FAIL_REGISTERWEBINAR_FULL {
        MeetingFailCode::MeetingFailRegisterWebinarFull
    } else if code == MEETING_FAIL_REGISTERWEBINAR_HOSTREGISTER {
        MeetingFailCode::MeetingFailRegisterWebinarHostRegister
    } else if code == MEETING_FAIL_REGISTERWEBINAR_PANELISTREGISTER {
        MeetingFailCode::MeetingFailRegisterWebinarPanelistRegister
    } else if code == MEETING_FAIL_REGISTERWEBINAR_DENIED_EMAIL {
        MeetingFailCode::MeetingFailRegisterWebinarDeniedEmail
    } else if code == MEETING_FAIL_ENFORCE_LOGIN {
        MeetingFailCode::MeetingFailEnforceLogin
    } else if code == CONF_FAIL_ZC_CERTIFICATE_CHANGED {
        MeetingFailCode::ConfFailZcCertificateChanged
    } else if code == CONF_FAIL_VANITY_NOT_EXIST {
        MeetingFailCode::ConfFailVanityNotExist
    } else if code == CONF_FAIL_JOIN_WEBINAR_WITHSAMEEMAIL {
        MeetingFailCode::ConfFailJoinWebinarWithSameEmail
    } else if code == CONF_FAIL_DISALLOW_HOST_MEETING {
        MeetingFailCode::ConfFailDisallowHostMeeting
    } else if code == MEETING_FAIL_WRITE_CONFIG_FILE {
        MeetingFailCode::MeetingFailWriteConfigFile
    } else if code == MEETING_FAIL_FORBID_TO_JOIN_INTERNAL_MEETING {
        MeetingFailCode::MeetingFailForbidToJoinInternalMeeting
    } else if code == CONF_FAIL_REMOVED_BY_HOST {
        MeetingFailCode::ConfFailRemovedByHost
    } else {
        MeetingFailCode::Unmapped(code)
    }
}

/// Maps a native meeting failure code, totally: every code yields a
/// reason, unknown ones carried raw in `Unmapped`.
pub fn map_fail(i_result: i32) -> (r: MeetingFailCode)
    ensures
        r == spec_meeting_fail(i_result),
{
    if i_result == MEETING_FAIL_SUCCESS {
        MeetingFailCode::MeetingSuccess
    } else if i_result == MEETING_FAIL_NETWORK_ERR {
        MeetingFailCode::MeetingFailNetworkErr
    } else if i_result == MEETING_FAIL_RECONNECT_ERR {
        MeetingFailCode::MeetingFailReconnectErr
    } else if i_result == MEETING_FAIL_MMR_ERR {
        MeetingFailCode::MeetingFailMmrErr
    } else if i_result == MEETING_FAIL_PASSWORD_ERR {
        MeetingFailCode::MeetingFailPasswordErr
    } else if i_result == MEETING_FAIL_SESSION_ERR {
        MeetingFailCode::MeetingFailSessionErr
    } else if i_result == MEETING_FAIL_MEETING_OVER {
        MeetingFailCode::MeetingFailMeetingOver
    } else if i_result == MEETING_FAIL_MEETING_NOT_START {
        MeetingFailCode::MeetingFailMeetingNotStart
    } else if i_result == MEETING_FAIL_MEETING_NOT_EXIST {
        MeetingFailCode::MeetingFailMeetingNotExist
    } else if i_result == MEETING_FAIL_MEETING_USER_FULL {
        MeetingFailCode::MeetingFailMeetingUserFull
    } else if i_result == MEETING_FAIL_CLIENT_INCOMPATIBLE {
        MeetingFailCode::MeetingFailClientIncompatible
    } else if i_result == MEETING_FAIL_NO_MMR {
        MeetingFailCode::MeetingFailNoMmr
    } else if i_result == MEETING_FAIL_CONFLOCKED {
        MeetingFailCode::MeetingFailConfLocked
    } else if i_result == MEETING_FAIL_MEETING_RESTRICTED {
        MeetingFailCode::MeetingFailMeetingRestricted
    } else if i_result == MEETING_FAIL_MEETING_RESTRICTED_JBH {
        MeetingFailCode::MeetingFailMeetingRestrictedJbh
    } else if i_result == MEETING_FAIL_CANNOT_EMIT_WEBREQUEST {
        MeetingFailCode::MeetingFailCannotEmitWebRequest
    } else if i_result == MEETING_FAIL_CANNOT_START_TOKENEXPIRE {
        MeetingFailCode::MeetingFailCannotStartTokenExpire
    } else if i_result == SESSION_VIDEO_ERR {
        MeetingFailCode::SessionVideoErr
    } else if i_result == SESSION_AUDIO_AUTOSTARTERR {
        MeetingFailCode::SessionAudioAutoStartErr
    } else if i_result == MEETING_FAIL_REGISTERWEBINAR_FULL {
        MeetingFailCode::MeetingFailRegisterWebinarFull
    } else if i_result == MEETING_FAIL_REGISTERWEBINAR_HOSTREGISTER {
        MeetingFailCode::MeetingFailRegisterWebinarHostRegister
    } else if i_result == MEETING_FAIL_REGISTERWEBINAR_PANELISTREGISTER {
        MeetingFailCode::MeetingFailRegisterWebinarPanelistRegister
    } else if i_result == MEETING_FAIL_REGISTERWEBINAR_DENIED_EMAIL {
        MeetingFailCode::MeetingFailRegisterWebinarDeniedEmail
    } else if i_result == MEETING_FAIL_ENFORCE_LOGIN {
        MeetingFailCode::MeetingFailEnforceLogin
    } else if i_result == CONF_FAIL_ZC_CERTIFICATE_CHANGED {
        MeetingFailCode::ConfFailZcCertificateChanged
    } else if i_result == CONF_FAIL_VANITY_NOT_EXIST {
        MeetingFailCode::ConfFailVanityNotExist
    } else if i_result == CONF_FAIL_JOIN_WEBINAR_WITHSAMEEMAIL {
        MeetingFailCode::ConfFailJoinWebinarWithSameEmail
    } else if i_result == CONF_FAIL_DISALLOW_HOST_MEETING {
        MeetingFailCode::ConfFailDisallowHostMeeting
    } else if i_result == MEETING_FAIL_WRITE_CONFIG_FILE {
        MeetingFailCode::MeetingFailWriteConfigFile
    } else if i_result == MEETING_FAIL_FORBID_TO_JOIN_INTERNAL_MEETING {
        MeetingFailCode::MeetingFailForbidToJoinInternalMeeting
    } else if i_result == CONF_FAIL_REMOVED_BY_HOST {
        MeetingFailCode::ConfFailRemovedByHost
    } else {
        MeetingFailCode::Unmapped(i_result)
    }
}

/// Why a meeting ended, mapped from the native code.
#[derive(Copy, Clone, Debug, PartialEq, Eq, Structural)]
pub enum MeetingEndReason {
    /// For initialization.
    Initial,
    /// Kicked by host.
    KickByHost,
    /// Ended by host.
    EndByHost,
    /// JBH times out.
    JBHTimeOut,
    /// No attendee.
    NoAttendee,
    /// Host starts another meeting.
    HostStartAnotherMeeting,
    /// Free meeting times out.
    FreeMeetingTimeOut,
    /// Network is broken.
    NetworkBroken,
    /// A code outside the documented set, carried raw.
    Unmapped(i32),
}

/// The end reason a native result code maps to.
pub open spec fn spec_meeting_end(code: i32) -> MeetingEndReason {
    if code == END_MEETING_REASON_NONE {
        MeetingEndReason::Initial
    } else if code == END_MEETING_REASON_KICK_BY_HOST {
        MeetingEndReason::KickByHost
    } else if code == END_MEETING_REASON_END_BY_HOST {
        MeetingEndReason::EndByHost
    } else if code == END_MEETING_REASON_JBH_TIMEOUT {
        MeetingEndReason::JBHTimeOut
    } else if code == END_MEETING_REASON_NO_ATTENDEE {
        MeetingEndReason::NoAttendee
    } else if code == END_MEETING_REASON_HOST_START_ANOTHERMEETING {
        MeetingEndReason::HostStartAnotherMeeting
    } else if code == END_MEETING_REASON_FREEMEETING_TIMEOUT {
        MeetingEndReason::FreeMeetingTimeOut
    } else if code == END_MEETING_REASON_NETWORK_BROKEN {
        MeetingEndReason::NetworkBroken
    } else {
        MeetingEndReason::Unmapped(code)
    }
}

/// Maps a native meeting end reason, totally: every code yields a reason,
/// unknown ones carried raw in `Unmapped`.
pub fn map_end(i_result: i32) -> (r: MeetingEndReason)
    ensures
        r == spec_meeting_end(i_result),
{
    if i_result == END_MEETING_REASON_NONE {
        MeetingEndReason::Initial
    } else if i_result == END_MEETING_REASON_KICK_BY_HOST {
        MeetingEndReason::KickByHost
    } else if i_result == END_MEETING_REASON_END_BY_HOST {
        MeetingEndReason::EndByHost
    } else if i_result == END_MEETING_REASON_JBH_TIMEOUT {
        MeetingEndReason::JBHTimeOut
    } else if i_result == END_MEETING_REASON_NO_ATTENDEE {
        MeetingEndReason::NoAttendee
    } else if i_result == END_MEETING_REASON_HOST_START_ANOTHERMEETING {
        MeetingEndReason::HostStartAnotherMeeting
    } else if i_result == END_MEETING_REASON_FREEMEETING_TIMEOUT {
        MeetingEndReason::FreeMeetingTimeOut
    } else if i_result == END_MEETING_REASON_NETWORK_BROKEN {
        MeetingEndReason::NetworkBroken
    } else {
        MeetingEndReason::Unmapped(i_result)
    }
}

/// The meeting status reported to a status-changed callback.
#[derive(Copy, Clone, Debug, PartialEq, Eq, Structural)]
pub enum MeetingStatus {
    /// No meeting is running.
    Idle,
    /// Connect to the meeting server status.
    Connecting,
    /// Waiting for the host to start the meeting.
    WaitingForHost,
    /// Meeting is ready, in meeting status.
    InMeeting,
    /// Disconnect the meeting server, leave meeting status.
    Disconnecting,
    /// Reconnecting meeting server status.
    Reconnecting,
    /// Failed to connect the meeting server.
    Failed(MeetingFailCode),
    /// Meeting ends.
    Ended(MeetingEndReason),
    /// Unknown status.
    Unknown,
    /// Meeting is locked to prevent the further participants to join the meeting.
    Locked,
    /// Meeting is open and participants can join the meeting.
    Unlocked,
    /// Participants who join the meeting before the start are in the waiting room.
    InWaitingRoom,
    /// Upgrade the attendees to panelist in webinar.
    WebinarPromote,
    /// Downgrade the attendees from the panelist.
    WebinarDepromote,
    /// Join the breakout room.
    JoinBreakoutRoom,
    /// Leave the breakout room.
    LeaveBreakoutRoom,
    /// Waiting for the additional secret key.
    WaitingExternalSessionKey,
    /// A status outside the documented set, carried raw.
    Unmapped(i32),
}

/// The meeting status a native status code maps to, with the auxiliary
/// result code folded into the failure and end variants.
pub open spec fn spec_meeting_status(status: i32, i_result: i32) -> MeetingStatus {
    if status == MEETING_STATUS_IDLE {
        MeetingStatus::Idle
    } else if status == MEETING_STATUS_CONNECTING {
        MeetingStatus::Connecting
    } else if status == MEETING_STATUS_WAITINGFORHOST {
        MeetingStatus::WaitingForHost
    } else if status == MEETING_STATUS_INMEETING {
        MeetingStatus::InMeeting
    } else if status == MEETING_STATUS_DISCONNECTING {
        MeetingStatus::Disconnecting
    } else if status == MEETING_STATUS_RECONNECTING {
        MeetingStatus::Reconnecting
    } else if status == MEETING_STATUS_FAILED {
        MeetingStatus::Failed(spec_meeting_fail(i_result))
    } else if status == MEETING_STATUS_ENDED {
        MeetingStatus::Ended(spec_meeting_end(i_result))
    } else if status == MEETING_STATUS_UNKNOW {
        MeetingStatus::Unknown
    } else if status == MEETING_STATUS_LOCKED {
        MeetingStatus::Locked
    } else if status == MEETING_STATUS_UNLOCKED {
        MeetingStatus::Unlocked
    } else if status == MEETING_STATUS_IN_WAITING_ROOM {
        MeetingStatus::InWaitingRoom
    } else if status == MEETING_STATUS_WEBINAR_PROMOTE {
        MeetingStatus::WebinarPromote
    } else if status == MEETING_STATUS_WEBINAR_DEPROMOTE {
        MeetingStatus::WebinarDepromote
    } else if status == MEETING_STATUS_JOIN_BREAKOUT_ROOM {
        MeetingStatus::JoinBreakoutRoom
    } else if status == MEETING_STATUS_LEAVE_BREAKOUT_ROOM {
        MeetingStatus::LeaveBreakoutRoom
    } else if status == MEETING_STATUS_WAITING_EXTERNAL_SESSION_KEY {
        MeetingStatus::WaitingExternalSessionKey
    } else {
        MeetingStatus::Unmapped(status)
    }
}

/// Maps a native meeting status code and its auxiliary result code,
/// totally: every combination yields a status.
pub fn map_meeting_status(status: i32, i_result: i32) -> (r: MeetingStatus)
    ensures
        r == spec_meeting_status(status, i_result),
{
    if status == MEETING_STATUS_IDLE {
        MeetingStatus::Idle
    } else if status == MEETING_STATUS_CONNECTING {
        MeetingStatus::Connecting
    } else if status == MEETING_STATUS_WAITINGFORHOST {
        MeetingStatus::WaitingForHost
    } else if status == MEETING_STATUS_INMEETING {
        MeetingStatus::InMeeting
    } else if status == MEETING_STATUS_DISCONNECTING {
        MeetingStatus::Disconnecting
    } else if status == MEETING_STATUS_RECONNECTING {
        MeetingStatus::Reconnecting
    } else if status == MEETING_STATUS_FAILED {
        MeetingStatus::Failed(map_fail(i_result))
    } else if status == MEETING_STATUS_ENDED {
        MeetingStatus::Ended(map_end(i_result))
    } else if status == MEETING_STATUS_UNKNOW {
        MeetingStatus::Unknown
    } else if status == MEETING_STATUS_LOCKED {
        MeetingStatus::Locked
    } else if status == MEETING_STATUS_UNLOCKED {
        MeetingStatus::Unlocked
    } else if status == MEETING_STATUS_IN_WAITING_ROOM {
        MeetingStatus::InWaitingRoom
    } else if status == MEETING_STATUS_WEBINAR_PROMOTE {
        MeetingStatus::WebinarPromote
    } else if status == MEETING_STATUS_WEBINAR_DEPROMOTE {
        MeetingStatus::WebinarDepromote
    } else if status == MEETING_STATUS_JOIN_BREAKOUT_ROOM {
        MeetingStatus::JoinBreakoutRoom
    } else if status == MEETING_STATUS_LEAVE_BREAKOUT_ROOM {
        MeetingStatus::LeaveBreakoutRoom
    } else if status == MEETING_STATUS_WAITING_EXTERNAL_SESSION_KEY {
        MeetingStatus::WaitingExternalSessionKey
    } else {
        MeetingStatus::Unmapped(status)
    }
}

/// Trampoline for the meeting-status-changed event.  The receiver is taken
/// out of the adapter for the duration of the callback and a receiver is
/// restored afterwards, exactly as for the authentication trampolines.
pub fn on_meeting_status_changed<E: MeetingServiceEvent>(
    sdk: &mut Sdk,
    service: &mut MeetingService<E>,
    status: i32,
    i_result: i32,
) -> (outcome: DispatchOutcome)
    requires
        old(service).attached(*old(sdk)),
    ensures
        outcome == DispatchOutcome::Delivered <==> old(service).has_receiver(),
        outcome != DispatchOutcome::Delivered ==> *final(service) == *old(service) && *final(sdk)
            == *old(sdk),
        final(service).has_receiver() == old(service).has_receiver(),
        final(service).attached(*final(sdk)),
        final(service).instance_addr() == old(service).instance_addr(),
        final(sdk).next_address >= old(sdk).next_address,
{
    let taken = service.event_data.take();
    match taken {
        None => DispatchOutcome::DroppedNoReceiver,
        Some(mut data) => {
            let mapped = map_meeting_status(status, i_result);
            data.events.meeting_status_changed(sdk, service, mapped);
            if service.event_data.is_none() {
                service.event_data = Some(data);
            }
            DispatchOutcome::Delivered
        },
    }
}

/// Trampoline for the statistics-warning event.  The receiver is taken
/// out of the adapter for the duration of the callback and a receiver is
/// restored afterwards, exactly as for the authentication trampolines.
pub fn on_meeting_statistics_warning_notification<E: MeetingServiceEvent>(
    sdk: &mut Sdk,
    service: &mut MeetingService<E>,
    typ: i32,
) -> (outcome: DispatchOutcome)
    requires
        old(service).attached(*old(sdk)),
    ensures
        outcome == DispatchOutcome::Delivered <==> old(service).has_receiver(),
        outcome != DispatchOutcome::Delivered ==> *final(service) == *old(service) && *final(sdk)
            == *old(sdk),
        final(service).has_receiver() == old(service).has_receiver(),
        final(service).attached(*final(sdk)),
        final(service).instance_addr() == old(service).instance_addr(),
        final(sdk).next_address >= old(sdk).next_address,
{
    let taken = service.event_data.take();
    match taken {
        None => DispatchOutcome::DroppedNoReceiver,
        Some(mut data) => {
            let mapped = map_statistics_warning(typ);
            data.events.meeting_statistics_warning_notification(sdk, service, mapped);
            if service.event_data.is_none() {
                service.event_data = Some(data);
            }
            DispatchOutcome::Delivered
        },
    }
}

} // verus!
