//! The authentication service: handle lifecycle, event registration and
//! trampoline dispatch.
//!
//! A service handle exclusively owns one live native instance.  Registering
//! a callback receiver builds an event adapter: a record whose header
//! region the native library treats as a virtual-interface implementation,
//! whose address is handed over at registration and must stay fixed until
//! it is replaced or the handle is destroyed.  The trampolines are the only
//! entry points the native side calls; each one recovers the adapter,
//! takes the receiver out for the duration of the callback (so that a
//! re-entrant registration cannot corrupt the running dispatch), maps the
//! raw event arguments, and restores a receiver before returning.

use vstd::prelude::*;
use crate::error::{
    is_failed_sdk, is_native_failure, record_native_failure, Error, LASTERRORTYPE_AUTH,
    LASTERRORTYPE_LOGIN, LASTERRORTYPE_SYSTEM, SDKERR_INVALID_PARAMETER, SDKERR_MEMORY_FAILED,
    SDKERR_UNINITIALIZE, SDKERR_WRONG_USEAGE,
};
use crate::marshal::{str_to_u16_vec, utf16_nul};
use crate::{same_records, same_services, DispatchOutcome, Sdk};

verus! {

pub const AUTHRET_SUCCESS: i32 = 0;
pub const AUTHRET_KEYORSECRETEMPTY: i32 = 1;
pub const AUTHRET_KEYORSECRETWRONG: i32 = 2;
pub const AUTHRET_ACCOUNTNOTSUPPORT: i32 = 3;
pub const AUTHRET_ACCOUNTNOTENABLESDK: i32 = 4;
pub const AUTHRET_UNKNOWN: i32 = 5;
pub const AUTHRET_SERVICE_BUSY: i32 = 6;
pub const AUTHRET_NONE: i32 = 7;
pub const AUTHRET_OVERTIME: i32 = 8;
pub const AUTHRET_NETWORKISSUE: i32 = 9;
pub const AUTHRET_CLIENT_INCOMPATIBLE: i32 = 10;

pub const LOGINSTATUS_LOGIN_IDLE: i32 = 0;
pub const LOGINSTATUS_LOGIN_PROCESSING: i32 = 1;
pub const LOGINSTATUS_LOGIN_SUCCESS: i32 = 2;
pub const LOGINSTATUS_LOGIN_FAILED: i32 = 3;

pub const LOGINTYPE_EMAIL: i32 = 1;

/// The native authentication parameter record: key and secret in their
/// nul-terminated wide form.
pub struct AuthParam {
    pub app_key: Vec<u16>,
    pub app_secret: Vec<u16>,
}

/// The native login parameter record for an email login.
pub struct LoginParam {
    pub login_type: i32,
    pub remember_me: bool,
    pub user_name: Vec<u16>,
    pub password: Vec<u16>,
}

/// The header region of an event adapter, shaped like the native callback
/// interface: one function-pointer slot per event kind.  A flag is true
/// when the slot is bound to the corresponding trampoline.
#[derive(Debug)]
pub struct AuthEventHeader {
    pub cb_authentication_return: bool,
    pub cb_login_ret: bool,
}

/// An event adapter: the record the native library is given the address of
/// and treats as a callback-interface implementation.  It carries the
/// header, its own fixed address, a back-reference to the owning service's
/// instance, and the caller-supplied receiver.
#[derive(Debug)]
pub struct EventObject<E> {
    header: AuthEventHeader,
    address: u64,
    service_address: u64,
    events: E,
}

/// Authentication service handle: exclusive owner of one live native
/// authentication instance, together with the event adapter registered on
/// it, if any.
///
/// The handle is destroyed by [`AuthService::destroy`], which consumes it,
/// so no operation can follow teardown and teardown cannot run twice; both
/// are type errors rather than runtime failures.
#[derive(Debug)]
pub struct AuthService<E> {
    instance: u64,
    event_data: Option<EventObject<E>>,
    // The native library must be driven from one thread; the handle is
    // neither sendable nor shareable across threads.
    single_thread: core::marker::PhantomData<std::rc::Rc<()>>,
}

impl<E> AuthService<E> {
    /// The address of the owned native instance.
    pub closed spec fn instance_addr(&self) -> u64 {
        self.instance
    }

    /// Whether an event adapter holding a receiver is attached.
    pub closed spec fn has_receiver(&self) -> bool {
        self.event_data is Some
    }

    /// The attached receiver, if any.
    pub closed spec fn spec_receiver(&self) -> Option<E> {
        match self.event_data {
            Some(d) => Some(d.events),
            None => None,
        }
    }

    /// The fixed address of the attached event adapter, if any.
    pub closed spec fn adapter_addr(&self) -> Option<u64> {
        match self.event_data {
            Some(d) => Some(d.address),
            None => None,
        }
    }

    /// The adapter agrees with the native side: the native library calls
    /// back into exactly the attached adapter's address, the adapter's
    /// back-reference names the owning instance, and both trampoline slots
    /// are bound.
    pub closed spec fn adapter_ok(&self, sdk: Sdk) -> bool {
        match self.event_data {
            Some(d) => {
                &&& d.address < sdk.next_address
                &&& sdk.auth_event_address == Some(d.address)
                &&& d.service_address == self.instance
                &&& d.header.cb_authentication_return
                &&& d.header.cb_login_ret
            },
            None => sdk.auth_event_address is None,
        }
    }

    /// Well-formedness of a handle against the native state it was created
    /// from: the library is initialized, this singleton is live, addresses
    /// were issued by the native state, and the adapter (if any) is the one
    /// the native side dispatches to.
    pub open spec fn attached(&self, sdk: Sdk) -> bool {
        &&& sdk.initialized
        &&& sdk.auth_live
        &&& self.instance_addr() < sdk.next_address
        &&& self.adapter_ok(sdk)
    }

    /// The state a receiver observes while its callback runs: the service
    /// is live, the receiver has been taken out of the adapter for the
    /// duration of the call (the reentrancy guard), and the native side
    /// still holds the suspended adapter's address.
    pub open spec fn in_callback(&self, sdk: Sdk) -> bool {
        &&& sdk.initialized
        &&& sdk.auth_live
        &&& !self.has_receiver()
        &&& self.instance_addr() < sdk.next_address
        &&& (match sdk.auth_event_address {
            Some(a) => a < sdk.next_address,
            None => false,
        })
    }

    /// The address of the owned native instance.
    pub fn instance_address(&self) -> (a: u64)
        ensures
            a == self.instance_addr(),
    {
        self.instance
    }

    /// The address the attached event adapter was registered under, if any.
    pub fn event_address(&self) -> (r: Option<u64>)
        ensures
            r == self.adapter_addr(),
    {
        match &self.event_data {
            Some(d) => Some(d.address),
            None => None,
        }
    }

    /// The attached receiver, if any.
    pub fn receiver(&self) -> (r: Option<&E>)
        ensures
            match r {
                Some(e) => self.spec_receiver() == Some(*e),
                None => !self.has_receiver(),
            },
    {
        match &self.event_data {
            Some(d) => Some(&d.events),
            None => None,
        }
    }
}

/// A caller-supplied receiver for authentication service events.
///
/// The trampolines call these methods on the bridge's single thread, with
/// the receiver taken out of the adapter for the duration of the call.  A
/// receiver may call back into the service it was handed — including
/// registering a replacement receiver — which is why the service and the
/// native state are passed mutably.  An implementation that only uses this
/// crate's operations upholds the postconditions below.
pub trait AuthServiceEvent: Sized {
    /// The native library answered an authentication request.
    fn authentication_return(
        &mut self,
        sdk: &mut Sdk,
        service: &mut AuthService<Self>,
        auth_result: AuthResult,
    )
        requires
            old(service).in_callback(*old(sdk)),
        ensures
            final(sdk).initialized,
            final(sdk).auth_live,
            final(sdk).next_address >= old(sdk).next_address,
            final(service).instance_addr() == old(service).instance_addr(),
            final(service).has_receiver() ==> final(service).adapter_ok(*final(sdk)),
            !final(service).has_receiver() ==> final(sdk).auth_event_address == old(
                sdk,
            ).auth_event_address,
    ;

    /// The native library reported a change of the login status.
    fn login_return(
        &mut self,
        sdk: &mut Sdk,
        service: &mut AuthService<Self>,
        login_status: &LoginStatus,
    )
        requires
            old(service).in_callback(*old(sdk)),
        ensures
            final(sdk).initialized,
            final(sdk).auth_live,
            final(sdk).next_address >= old(sdk).next_address,
            final(service).instance_addr() == old(service).instance_addr(),
            final(service).has_receiver() ==> final(service).adapter_ok(*final(sdk)),
            !final(service).has_receiver() ==> final(sdk).auth_event_address == old(
                sdk,
            ).auth_event_address,
    ;
}

/// True when the native library would accept creating the authentication
/// service singleton.
pub open spec fn auth_create_ok(sdk: Sdk) -> bool {
    &&& sdk.initialized
    &&& !sdk.auth_live
    &&& sdk.next_address < u64::MAX
}

/// The native state after the authentication service singleton has been
/// created.
pub open spec fn auth_created_sdk(sdk: Sdk) -> Sdk {
    Sdk {
        auth_live: true,
        auth_event_address: None,
        next_address: (sdk.next_address + 1) as u64,
        ..sdk
    }
}

/// The native state after the authentication service singleton has been
/// destroyed.
pub open spec fn auth_destroyed_sdk(sdk: Sdk) -> Sdk {
    Sdk { auth_live: false, auth_event_address: None, ..sdk }
}

/// At most one authentication service instance is live: creating the
/// singleton makes it live, and no state in which it is live accepts a
/// second creation.
pub proof fn lemma_at_most_one_live_instance(sdk: Sdk)
    requires
        auth_create_ok(sdk),
    ensures
        auth_created_sdk(sdk).auth_live,
        !auth_create_ok(auth_created_sdk(sdk)),
{
}

/// Destroying the live instance re-enables creation: teardown returns the
/// native state to one that accepts a new singleton.
pub proof fn lemma_destroy_enables_create(sdk: Sdk)
    requires
        auth_create_ok(sdk),
        auth_created_sdk(sdk).next_address < u64::MAX,
    ensures
        auth_create_ok(auth_destroyed_sdk(auth_created_sdk(sdk))),
{
}

/// The native side calls back into exactly the adapter that is currently
/// attached: while a receiver is registered, the address the native state
/// holds is the attached adapter's address.
pub proof fn lemma_native_observes_current_adapter<E>(service: AuthService<E>, sdk: Sdk)
    requires
        service.attached(sdk),
        service.has_receiver(),
    ensures
        sdk.auth_event_address == service.adapter_addr(),
{
}

/// A registration never reuses an address the handle already shared with
/// the native side: the address a new adapter would be placed at differs
/// from the current adapter's address and from the instance's own.
pub proof fn lemma_registration_address_fresh<E>(service: AuthService<E>, sdk: Sdk)
    requires
        service.attached(sdk),
    ensures
        match service.adapter_addr() {
            Some(a) => a != sdk.next_address,
            None => true,
        },
        service.instance_addr() != sdk.next_address,
{
}

impl<E: AuthServiceEvent> AuthService<E> {
    /// Asks the native library to allocate the authentication service
    /// singleton.  Fails with `Uninitialized` before initialization, with
    /// `WrongUsage` while an instance is already live, and with
    /// `MemoryFailed` when the native side cannot allocate.
    pub(crate) fn new(sdk: &mut Sdk) -> (r: Result<AuthService<E>, Error>)
        ensures
            match r {
                Ok(service) => {
                    &&& auth_create_ok(*old(sdk))
                    &&& service.instance_addr() == old(sdk).next_address
                    &&& !service.has_receiver()
                    &&& service.attached(*final(sdk))
                    &&& *final(sdk) == auth_created_sdk(*old(sdk))
                },
                Err(e) => {
                    &&& !auth_create_ok(*old(sdk))
                    &&& same_services(*old(sdk), *final(sdk))
                    &&& same_records(*old(sdk), *final(sdk))
                    &&& {
                        let status = if !old(sdk).initialized {
                            SDKERR_UNINITIALIZE
                        } else if old(sdk).auth_live {
                            SDKERR_WRONG_USEAGE
                        } else {
                            SDKERR_MEMORY_FAILED
                        };
                        &&& is_native_failure(e, status, LASTERRORTYPE_SYSTEM)
                        &&& is_failed_sdk(*final(sdk), status, LASTERRORTYPE_SYSTEM)
                    }
                },
            },
    {
        if !sdk.initialized {
            return Err(record_native_failure(sdk, LASTERRORTYPE_SYSTEM, SDKERR_UNINITIALIZE));
        }
        if sdk.auth_live {
            return Err(record_native_failure(sdk, LASTERRORTYPE_SYSTEM, SDKERR_WRONG_USEAGE));
        }
        if sdk.next_address == u64::MAX {
            return Err(record_native_failure(sdk, LASTERRORTYPE_SYSTEM, SDKERR_MEMORY_FAILED));
        }
        let instance = sdk.next_address;
        sdk.next_address = instance + 1;
        sdk.auth_live = true;
        sdk.auth_event_address = None;
        Ok(AuthService { instance, event_data: None, single_thread: core::marker::PhantomData })
    }

    /// Authenticates the application with the native service.  The key and
    /// secret are marshaled into their nul-terminated wide form and handed
    /// to the native call; nothing retains them afterwards.  Empty
    /// credentials are rejected by the native side as a wrong parameter.
    pub fn sdk_auth(&self, sdk: &mut Sdk, app_key: &str, app_secret: &str) -> (r: Result<
        (),
        Error,
    >)
        requires
            old(sdk).initialized,
            old(sdk).auth_live,
        ensures
            match r {
                Ok(()) => {
                    &&& app_key@.len() > 0
                    &&& app_secret@.len() > 0
                    &&& same_services(*old(sdk), *final(sdk))
                    &&& final(sdk).last_error == old(sdk).last_error
                    &&& final(sdk).init_web_domain == old(sdk).init_web_domain
                    &&& final(sdk).last_login_param == old(sdk).last_login_param
                    &&& final(sdk).last_uri_action == old(sdk).last_uri_action
                    &&& (final(sdk).last_auth_param matches Some(p) && p.app_key@ == utf16_nul(
                        app_key@,
                    ) && p.app_secret@ == utf16_nul(app_secret@))
                },
                Err(e) => {
                    &&& !(app_key@.len() > 0 && app_secret@.len() > 0)
                    &&& same_services(*old(sdk), *final(sdk))
                    &&& same_records(*old(sdk), *final(sdk))
                    &&& is_native_failure(e, SDKERR_INVALID_PARAMETER, LASTERRORTYPE_AUTH)
                    &&& is_failed_sdk(*final(sdk), SDKERR_INVALID_PARAMETER, LASTERRORTYPE_AUTH)
                },
            },
    {
        if app_key.unicode_len() == 0 || app_secret.unicode_len() == 0 {
            return Err(record_native_failure(sdk, LASTERRORTYPE_AUTH, SDKERR_INVALID_PARAMETER));
        }
        let param = AuthParam {
            app_key: str_to_u16_vec(app_key),
            app_secret: str_to_u16_vec(app_secret),
        };
        sdk.last_auth_param = Some(param);
        Ok(())
    }

    /// Logs a user in by email.  The name and password are marshaled into
    /// their nul-terminated wide form for the duration of the native call
    /// only.  Empty credentials are rejected by the native side as a wrong
    /// parameter.
    pub fn login(&self, sdk: &mut Sdk, username: &str, password: &str, remember_me: bool) -> (r:
        Result<(), Error>)
        requires
            old(sdk).initialized,
            old(sdk).auth_live,
        ensures
            match r {
                Ok(()) => {
                    &&& username@.len() > 0
                    &&& password@.len() > 0
                    &&& same_services(*old(sdk), *final(sdk))
                    &&& final(sdk).last_error == old(sdk).last_error
                    &&& final(sdk).init_web_domain == old(sdk).init_web_domain
                    &&& final(sdk).last_auth_param == old(sdk).last_auth_param
                    &&& final(sdk).last_uri_action == old(sdk).last_uri_action
                    &&& (final(sdk).last_login_param matches Some(p) && {
                        &&& p.login_type == LOGINTYPE_EMAIL
                        &&& p.remember_me == remember_me
                        &&& p.user_name@ == utf16_nul(username@)
                        &&& p.password@ == utf16_nul(password@)
                    })
                },
                Err(e) => {
                    &&& !(username@.len() > 0 && password@.len() > 0)
                    &&& same_services(*old(sdk), *final(sdk))
                    &&& same_records(*old(sdk), *final(sdk))
                    &&& is_native_failure(e, SDKERR_INVALID_PARAMETER, LASTERRORTYPE_LOGIN)
                    &&& is_failed_sdk(*final(sdk), SDKERR_INVALID_PARAMETER, LASTERRORTYPE_LOGIN)
                },
            },
    {
        if username.unicode_len() == 0 || password.unicode_len() == 0 {
            return Err(record_native_failure(sdk, LASTERRORTYPE_LOGIN, SDKERR_INVALID_PARAMETER));
        }
        let param = LoginParam {
            login_type: LOGINTYPE_EMAIL,
            remember_me,
            user_name: str_to_u16_vec(username),
            password: str_to_u16_vec(password),
        };
        sdk.last_login_param = Some(param);
        Ok(())
    }

    /// Registers a callback receiver, replacing any previous one.
    ///
    /// A new event adapter is built at a fresh address, its header slots
    /// are bound to the trampolines, and the native library is told to
    /// switch to the new address before the previous adapter is released.
    /// On failure no receiver is attached and the handle keeps whichever
    /// adapter was previously active.
    pub fn set_event(&mut self, sdk: &mut Sdk, events: E) -> (r: Result<(), Error>)
        requires
            old(sdk).initialized,
            old(sdk).auth_live,
            old(self).instance_addr() < old(sdk).next_address,
        ensures
            final(self).instance_addr() == old(self).instance_addr(),
            match r {
                Ok(()) => {
                    &&& old(sdk).next_address < u64::MAX
                    &&& final(self).has_receiver()
                    &&& final(self).spec_receiver() == Some(events)
                    &&& final(self).adapter_addr() == Some(old(sdk).next_address)
                    &&& final(self).attached(*final(sdk))
                    &&& *final(sdk) == (Sdk {
                        auth_event_address: Some(old(sdk).next_address),
                        next_address: (old(sdk).next_address + 1) as u64,
                        ..*old(sdk)
                    })
                },
                Err(e) => {
                    &&& old(sdk).next_address == u64::MAX
                    &&& *final(self) == *old(self)
                    &&& same_services(*old(sdk), *final(sdk))
                    &&& same_records(*old(sdk), *final(sdk))
                    &&& is_native_failure(e, SDKERR_MEMORY_FAILED, LASTERRORTYPE_SYSTEM)
                    &&& is_failed_sdk(*final(sdk), SDKERR_MEMORY_FAILED, LASTERRORTYPE_SYSTEM)
                },
            },
    {
        if sdk.next_address == u64::MAX {
            return Err(record_native_failure(sdk, LASTERRORTYPE_SYSTEM, SDKERR_MEMORY_FAILED));
        }
        let address = sdk.next_address;
        let data = EventObject {
            header: AuthEventHeader { cb_authentication_return: true, cb_login_ret: true },
            address,
            service_address: self.instance,
            events,
        };
        // The native library is switched to the new header address first;
        // only then is the previous adapter released, so the two are never
        // both dispatchable.
        sdk.auth_event_address = Some(address);
        sdk.next_address = address + 1;
        self.event_data = Some(data);
        Ok(())
    }

    /// Tears down the owned native instance, exactly once: consuming the
    /// handle makes any later operation, and a second teardown, a type
    /// error rather than a runtime failure.  The adapter, if any, is
    /// destroyed with the handle, and the native side forgets its address.
    pub fn destroy(self, sdk: &mut Sdk)
        requires
            old(sdk).auth_live,
        ensures
            *final(sdk) == auth_destroyed_sdk(*old(sdk)),
    {
        sdk.auth_live = false;
        sdk.auth_event_address = None;
    }
}

/// The result of an authentication request, mapped from the native code.
#[derive(Copy, Clone, Debug, PartialEq, Eq, Structural)]
pub enum AuthResult {
    /// Authentication is successful.
    Success,
    /// The key or secret to authenticate is empty.
    KeyOrSecretEmpty,
    /// The key or secret to authenticate is wrong.
    KeyOrSecretWrong,
    /// The user account does not support.
    AccountNotSupport,
    /// The user account is not enabled for SDK.
    AccountNotEnableSdk,
    /// Unknown error.
    Unknown,
    /// Service is busy.
    ServiceBusy,
    /// Initial status.
    Initial,
    /// Time out.
    OverTime,
    /// Network issues.
    NetworkIssue,
    /// Account does not support this SDK version.
    ClientIncompatible,
    /// A code outside the documented set, carried raw.
    Unmapped(i32),
}

/// The authentication result a native code maps to.
pub open spec fn spec_auth_result(code: i32) -> AuthResult {
    if code == AUTHRET_SUCCESS {
        AuthResult::Success
    } else if code == AUTHRET_KEYORSECRETEMPTY {
        AuthResult::KeyOrSecretEmpty
    } else if code == AUTHRET_KEYORSECRETWRONG {
        AuthResult::KeyOrSecretWrong
    } else if code == AUTHRET_ACCOUNTNOTSUPPORT {
        AuthResult::AccountNotSupport
    } else if code == AUTHRET_ACCOUNTNOTENABLESDK {
        AuthResult::AccountNotEnableSdk
    } else if code == AUTHRET_UNKNOWN {
        AuthResult::Unknown
    } else if code == AUTHRET_SERVICE_BUSY {
        AuthResult::ServiceBusy
    } else if code == AUTHRET_NONE {
        AuthResult::Initial
    } else if code == AUTHRET_OVERTIME {
        AuthResult::OverTime
    } else if code == AUTHRET_NETWORKISSUE {
        AuthResult::NetworkIssue
    } else if code == AUTHRET_CLIENT_INCOMPATIBLE {
        AuthResult::ClientIncompatible
    } else {
        AuthResult::Unmapped(code)
    }
}

/// Maps a native authentication result code, totally: every code yields a
/// result, unknown ones carried raw in `Unmapped`.
pub fn map_auth_result(result: i32) -> (r: AuthResult)
    ensures
        r == spec_auth_result(result),
{
    if result == AUTHRET_SUCCESS {
        AuthResult::Success
    } else if result == AUTHRET_KEYORSECRETEMPTY {
        AuthResult::KeyOrSecretEmpty
    } else if result == AUTHRET_KEYORSECRETWRONG {
        AuthResult::KeyOrSecretWrong
    } else if result == AUTHRET_ACCOUNTNOTSUPPORT {
        AuthResult::AccountNotSupport
    } else if result == AUTHRET_ACCOUNTNOTENABLESDK {
        AuthResult::AccountNotEnableSdk
    } else if result == AUTHRET_UNKNOWN {
        AuthResult::Unknown
    } else if result == AUTHRET_SERVICE_BUSY {
        AuthResult::ServiceBusy
    } else if result == AUTHRET_NONE {
        AuthResult::Initial
    } else if result == AUTHRET_OVERTIME {
        AuthResult::OverTime
    } else if result == AUTHRET_NETWORKISSUE {
        AuthResult::NetworkIssue
    } else if result == AUTHRET_CLIENT_INCOMPATIBLE {
        AuthResult::ClientIncompatible
    } else {
        AuthResult::Unmapped(result)
    }
}

/// The description belonging to an authentication result.
pub open spec fn spec_auth_result_description(result: AuthResult) -> Seq<char> {
    match result {
        AuthResult::Success => "Authentication is successful"@,
        AuthResult::KeyOrSecretEmpty => "The key or secret to authenticate is empty"@,
        AuthResult::KeyOrSecretWrong => "The key or secret to authenticate is wrong"@,
        AuthResult::AccountNotSupport => "The user account does not support"@,
        AuthResult::AccountNotEnableSdk => "The user account is not enabled for SDK"@,
        AuthResult::Unknown => "Unknown error"@,
        AuthResult::ServiceBusy => "Service is busy"@,
        AuthResult::Initial => "Initial status"@,
        AuthResult::OverTime => "Time out"@,
        AuthResult::NetworkIssue => "Network issues"@,
        AuthResult::ClientIncompatible => "Account does not support this SDK version"@,
        AuthResult::Unmapped(_) => "Unknown AuthResult"@,
    }
}

/// Describes an authentication result in words.
pub fn map_auth_result_description(result: AuthResult) -> (r: &'static str)
    ensures
        r@ == spec_auth_result_description(result),
{
    match result {
        AuthResult::Success => "Authentication is successful",
        AuthResult::KeyOrSecretEmpty => "The key or secret to authenticate is empty",
        AuthResult::KeyOrSecretWrong => "The key or secret to authenticate is wrong",
        AuthResult::AccountNotSupport => "The user account does not support",
        AuthResult::AccountNotEnableSdk => "The user account is not enabled for SDK",
        AuthResult::Unknown => "Unknown error",
        AuthResult::ServiceBusy => "Service is busy",
        AuthResult::Initial => "Initial status",
        AuthResult::OverTime => "Time out",
        AuthResult::NetworkIssue => "Network issues",
        AuthResult::ClientIncompatible => "Account does not support this SDK version",
        AuthResult::Unmapped(_) => "Unknown AuthResult",
    }
}

/// Account information handed to a login-status callback.  The underlying
/// native handle is owned by the native library and valid only for the
/// duration of that callback; only the data read from it is kept, and no
/// native destructor is ever triggered for it.
#[derive(Debug)]
pub struct AccountInfo {
    display_name: String,
}

impl View for AccountInfo {
    type V = Seq<char>;

    closed spec fn view(&self) -> Seq<char> {
        self.display_name@
    }
}

impl AccountInfo {
    /// Wraps the display name read from a native account-info handle.
    pub fn new(display_name: String) -> (r: AccountInfo)
        ensures
            r@ == display_name@,
    {
        AccountInfo { display_name }
    }

    /// The account's display name.
    pub fn get_display_name(&self) -> (r: String)
        ensures
            r@ == self@,
    {
        self.display_name.clone()
    }
}

/// The login status reported to a login-status callback.
#[derive(Debug)]
pub enum LoginStatus {
    /// Not logged in.
    Idle,
    /// In process of login.
    Processing,
    /// Login successful, with the account's information.
    Success(AccountInfo),
    /// Login failed.
    Failed,
    /// A status outside the documented set, carried raw.
    Unmapped(i32),
}

/// Maps a native login status code and the optional account-info payload.
/// A success status without an account payload is malformed and yields
/// nothing; every other combination yields a status.
pub fn map_login_status(ret: i32, account_display_name: Option<String>) -> (r: Option<LoginStatus>)
    ensures
        ret == LOGINSTATUS_LOGIN_IDLE ==> r matches Some(LoginStatus::Idle),
        ret == LOGINSTATUS_LOGIN_PROCESSING ==> r matches Some(LoginStatus::Processing),
        ret == LOGINSTATUS_LOGIN_FAILED ==> r matches Some(LoginStatus::Failed),
        ret == LOGINSTATUS_LOGIN_SUCCESS ==> (match account_display_name {
            Some(name) => r matches Some(LoginStatus::Success(info)) && info@ == name@,
            None => r is None,
        }),
        (ret != LOGINSTATUS_LOGIN_IDLE && ret != LOGINSTATUS_LOGIN_PROCESSING && ret
            != LOGINSTATUS_LOGIN_FAILED && ret != LOGINSTATUS_LOGIN_SUCCESS) ==> (r matches Some(
            LoginStatus::Unmapped(code),
        ) && code == ret),
{
    if ret == LOGINSTATUS_LOGIN_IDLE {
        Some(LoginStatus::Idle)
    } else if ret == LOGINSTATUS_LOGIN_PROCESSING {
        Some(LoginStatus::Processing)
    } else if ret == LOGINSTATUS_LOGIN_FAILED {
        Some(LoginStatus::Failed)
    } else if ret == LOGINSTATUS_LOGIN_SUCCESS {
        match account_display_name {
            Some(name) => Some(LoginStatus::Success(AccountInfo::new(name))),
            None => None,
        }
    } else {
        Some(LoginStatus::Unmapped(ret))
    }
}

/// Trampoline for the authentication-return event.
///
/// Recovers the receiver from the adapter, taking it out for the duration
/// of the call so that a re-entrant registration from inside the callback
/// cannot reach the running receiver.  After the callback, the suspended
/// receiver is restored unless the callback installed a replacement; either
/// way a receiver is attached again, so the next event can be dispatched.
pub fn on_authentication_return<E: AuthServiceEvent>(
    sdk: &mut Sdk,
    service: &mut AuthService<E>,
    res: i32,
) -> (outcome: DispatchOutcome)
    requires
        old(service).attached(*old(sdk)),
    ensures
        outcome == DispatchOutcome::Delivered <==> old(service).has_receiver(),
        outcome != DispatchOutcome::Delivered ==> *final(service) == *old(service) && *final(sdk)
            == *old(sdk),
        final(service).has_receiver() == old(service).has_receiver(),
        final(service).attached(*final(sdk)),
        final(service).instance_addr() == old(service).instance_addr(),
        final(sdk).next_address >= old(sdk).next_address,
{
    let taken = service.event_data.take();
    match taken {
        None => DispatchOutcome::DroppedNoReceiver,
        Some(mut data) => {
            let result = map_auth_result(res);
            data.events.authentication_return(sdk, service, result);
            if service.event_data.is_none() {
                service.event_data = Some(data);
            }
            DispatchOutcome::Delivered
        },
    }
}

/// Trampoline for the login-status event.
///
/// The auxiliary account-info payload accompanies a success status; a
/// success status without it is a malformed event and is dropped without
/// reaching the receiver.  The receiver is taken out and restored exactly
/// as in [`on_authentication_return`].
pub fn on_login_return<E: AuthServiceEvent>(
    sdk: &mut Sdk,
    service: &mut AuthService<E>,
    ret: i32,
    account_display_name: Option<String>,
) -> (outcome: DispatchOutcome)
    requires
        old(service).attached(*old(sdk)),
    ensures
        outcome == DispatchOutcome::Delivered <==> old(service).has_receiver() && !(ret
            == LOGINSTATUS_LOGIN_SUCCESS && account_display_name is None),
        outcome == DispatchOutcome::DroppedNoReceiver <==> !old(service).has_receiver(),
        outcome != DispatchOutcome::Delivered ==> *final(service) == *old(service) && *final(sdk)
            == *old(sdk),
        final(service).has_receiver() == old(service).has_receiver(),
        final(service).attached(*final(sdk)),
        final(service).instance_addr() == old(service).instance_addr(),
        final(sdk).next_address >= old(sdk).next_address,
{
    let taken = service.event_data.take();
    match taken {
        None => DispatchOutcome::DroppedNoReceiver,
        Some(mut data) => {
            match map_login_status(ret, account_display_name) {
                None => {
                    service.event_data = Some(data);
                    DispatchOutcome::DroppedInvalidPayload
                },
                Some(status) => {
                    data.events.login_return(sdk, service, &status);
                    if service.event_data.is_none() {
                        service.event_data = Some(data);
                    }
                    DispatchOutcome::Delivered
                },
            }
        },
    }
}

} // verus!
