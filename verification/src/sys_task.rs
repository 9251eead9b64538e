//! The handle of the system tasks of the application: at most one is active at a time, from its
//! activation until it has finished.
use vstd::prelude::*;

verus! {

/// A handle to the system tasks of the application; it can be cloned freely.
#[derive(Clone, Copy, Debug, PartialEq, Eq, Structural)]
pub struct SystemTaskHandle;

/// Why a handle could not be activated.
#[derive(Clone, Copy, Debug, PartialEq, Eq, Structural)]
pub enum Error {
    /// A handle has already been activated and has not finished.
    SystemTaskHandleAlreadyExists,
}

/// What the application knows of its handle: whether one is activated and not yet finished,
/// and the handle that is globally active, if any.
pub struct SystemTaskState {
    handle_created: bool,
    global_app: Option<SystemTaskHandle>,
}

impl SystemTaskState {
    /// A handle is activated and has not finished.
    pub closed spec fn spec_created(&self) -> bool {
        self.handle_created
    }

    /// The handle that is globally active, if any.
    pub closed spec fn spec_global(&self) -> Option<SystemTaskHandle> {
        self.global_app
    }

    /// A handle is activated and has not finished.
    pub fn handle_created(&self) -> (r: bool)
        ensures
            r == self.spec_created(),
    {
        self.handle_created
    }

    /// No handle has been activated.
    pub fn new() -> (r: SystemTaskState)
        ensures
            !r.spec_created(),
            r.spec_global() is None,
    {
        SystemTaskState { handle_created: false, global_app: None }
    }
}

impl SystemTaskHandle {
    /// Activate the handle of the application, which becomes the globally active one; when the
    /// application's run loop ends, it should finish. A handle that is already active and has
    /// not finished makes this fail.
    pub fn activate(state: &mut SystemTaskState) -> (r: Result<SystemTaskHandle, Error>)
        ensures
            old(state).spec_created() ==> r == Err::<SystemTaskHandle, Error>(
                Error::SystemTaskHandleAlreadyExists,
            ) && final(state).spec_created() == old(state).spec_created()
                && final(state).spec_global() == old(state).spec_global(),
            !old(state).spec_created() ==> r is Ok && final(state).spec_created()
                && final(state).spec_global() == Some(r->Ok_0),
    {
        if state.handle_created {
            return Err(Error::SystemTaskHandleAlreadyExists);
        }
        state.handle_created = true;
        let app = SystemTaskHandle;
        state.global_app = Some(app);
        Ok(app)
    }

    /// The globally active handle, which must exist.
    pub fn global(state: &SystemTaskState) -> (r: SystemTaskHandle)
        requires
            state.spec_global() is Some,
        ensures
            state.spec_global() == Some(r),
    {
        match SystemTaskHandle::try_global(state) {
            Some(app) => app,
            None => SystemTaskHandle,
        }
    }

    /// The globally active handle, if any.
    pub fn try_global(state: &SystemTaskState) -> (r: Option<SystemTaskHandle>)
        ensures
            r == state.spec_global(),
    {
        state.global_app
    }

    /// The application has exited: the handle is no longer globally active, and a new one can
    /// be activated. A handle must be active.
    pub fn finished(self, state: &mut SystemTaskState)
        requires
            old(state).spec_created(),
        ensures
            !final(state).spec_created(),
            final(state).spec_global() is None,
    {
        state.global_app = None;
        state.handle_created = false;
    }

    /// Ask the application to quit; the platforms need nothing done for it.
    pub fn quit(&self) {
    }
}

} // verus!
