//! The lifecycle of a Disk Arbitration session: made once, one approval callback
//! registered, then scheduled on the event loop.

use vstd::prelude::*;

verus! {

/// Why a session could not be set up.
#[derive(Clone, Copy, Debug, PartialEq, Eq, Structural)]
pub enum SessionError {
    /// The operating system refused to allocate a session.
    SessionCreationFailed,
    /// An approval callback was already registered with the session.
    CallbackAlreadyRegistered,
}

/// What has been done with a session. Callbacks fire only once a callback is
/// registered and the session is scheduled.
#[derive(Clone, Copy, Debug, PartialEq, Eq, Structural)]
pub struct SessionLifecycle {
    pub callback_registered: bool,
    pub scheduled: bool,
}

impl SessionLifecycle {
    /// A session from the outcome of asking for one: `SessionCreationFailed` when the
    /// operating system gave no handle, else a fresh session with nothing registered.
    pub fn open(handle_obtained: bool) -> (r: Result<SessionLifecycle, SessionError>)
        ensures
            !handle_obtained ==> r == Err::<SessionLifecycle, SessionError>(
                SessionError::SessionCreationFailed,
            ),
            handle_obtained ==> r == Ok::<SessionLifecycle, SessionError>(
                SessionLifecycle { callback_registered: false, scheduled: false },
            ),
    {
        if handle_obtained {
            Ok(SessionLifecycle { callback_registered: false, scheduled: false })
        } else {
            Err(SessionError::SessionCreationFailed)
        }
    }

    /// Registers the approval callback; a second registration is refused and changes
    /// nothing.
    pub fn register_approval_callback(&mut self) -> (r: Result<(), SessionError>)
        ensures
            old(self).callback_registered ==> r == Err::<(), SessionError>(
                SessionError::CallbackAlreadyRegistered,
            ) && *final(self) == *old(self),
            !old(self).callback_registered ==> r is Ok && *final(self) == (SessionLifecycle {
                callback_registered: true,
                ..*old(self)
            }),
    {
        if self.callback_registered {
            Err(SessionError::CallbackAlreadyRegistered)
        } else {
            self.callback_registered = true;
            Ok(())
        }
    }

    /// Attaches the session to the event loop.
    pub fn schedule(&mut self)
        ensures
            *final(self) == (SessionLifecycle { scheduled: true, ..*old(self) }),
    {
        self.scheduled = true;
    }

    /// Whether mount approvals reach the callback.
    pub fn callbacks_live(&self) -> (r: bool)
        ensures
            r == (self.callback_registered && self.scheduled),
    {
        self.callback_registered && self.scheduled
    }
}

} // verus!
