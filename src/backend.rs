use vstd::prelude::*;

verus! {

/// A notification to show on screen.
#[derive(Clone, Debug)]
pub struct Notification {
    pub name: String,
    pub contents: String,
}

/// A source of notifications.
pub trait Backend {
    /// The next pending notification, if any.
    fn get_notification(&mut self) -> Option<Notification>;
}

/// Why a notification backend could not be set up.
#[derive(Clone, Copy, Debug, PartialEq, Eq, Structural)]
pub enum BackendError {
    RedisFail,
}

/// A backend that never has a notification.
#[derive(Clone, Copy, Debug)]
pub struct NullBackend {}

impl NullBackend {
    pub fn new() -> (r: Result<Self, ()>)
        ensures
            r is Ok,
    {
        Ok(NullBackend {})
    }

    /// Always `None`.
    pub fn next_notification(&mut self) -> (n: Option<Notification>)
        ensures
            n is None,
    {
        None
    }
}

impl Backend for NullBackend {
    fn get_notification(&mut self) -> Option<Notification> {
        self.next_notification()
    }
}

} // verus!
