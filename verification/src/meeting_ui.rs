//! Handle to the native meeting UI controller.
//!
//! The controller is owned by the native meeting service and is never
//! freed by the bridge; this handle only carries the controller's address
//! for the window operations built on it, which are pure native side
//! effects outside the verified core.

use vstd::prelude::*;

verus! {

/// Non-owning handle to the meeting service's UI controller.
pub struct MeetingUiController {
    inner: u64,
    // Like the service handles, not sendable nor shareable across threads.
    single_thread: core::marker::PhantomData<std::rc::Rc<()>>,
}

impl MeetingUiController {
    /// The address of the underlying native controller.
    pub closed spec fn instance_addr(&self) -> u64 {
        self.inner
    }

    /// Wraps the address of a native UI controller obtained from the
    /// meeting service.
    pub fn new(inner: u64) -> (r: MeetingUiController)
        ensures
            r.instance_addr() == inner,
    {
        MeetingUiController { inner, single_thread: core::marker::PhantomData }
    }

    /// The address of the underlying native controller.
    pub fn instance_address(&self) -> (a: u64)
        ensures
            a == self.instance_addr(),
    {
        self.inner
    }
}

} // verus!
