//! Errors of browser operations.

use vstd::prelude::*;
use vstd::std_specs::convert::FromSpecImpl;
use crate::platform::PlatformError;

verus! {

/// Any error of a browser operation.
#[derive(Debug)]
pub enum BrowserError {
    Window(WindowError),
    Tab(TabError),
    Navigation(NavigationError),
    State(StateError),
    JavaScript(JavaScriptError),
    Platform(PlatformError),
    Other(String),
}

#[derive(Debug)]
pub enum WindowError {
    Creation(String),
    Update(String),
    NotFound(String),
    InvalidState(String),
}

#[derive(Debug)]
pub enum TabError {
    Creation(String),
    Update(String),
    NotFound { id: usize },
    CannotCloseLast,
    InvalidState(String),
}

#[derive(Debug)]
pub enum NavigationError {
    InvalidUrl(String),
    Failed(String),
    Timeout,
    Cancelled,
}

#[derive(Debug)]
pub enum StateError {
    LockFailed(String),
    InvalidTransition { from: String, to: String },
    NotInitialized,
    InvalidState(String),
}

#[derive(Debug)]
pub enum JavaScriptError {
    ExecutionFailed(String),
    InvalidScript(String),
    Timeout,
    ContextError(String),
}

/// Result of a browser operation.
pub type BrowserResult<T> = Result<T, BrowserError>;

impl From<WindowError> for BrowserError {
    fn from(e: WindowError) -> (res: Self) {
        BrowserError::Window(e)
    }
}

impl FromSpecImpl<WindowError> for BrowserError {
    open spec fn obeys_from_spec() -> bool {
        true
    }

    open spec fn from_spec(e: WindowError) -> Self {
        BrowserError::Window(e)
    }
}

impl From<TabError> for BrowserError {
    fn from(e: TabError) -> (res: Self) {
        BrowserError::Tab(e)
    }
}

impl FromSpecImpl<TabError> for BrowserError {
    open spec fn obeys_from_spec() -> bool {
        true
    }

    open spec fn from_spec(e: TabError) -> Self {
        BrowserError::Tab(e)
    }
}

impl From<NavigationError> for BrowserError {
    fn from(e: NavigationError) -> (res: Self) {
        BrowserError::Navigation(e)
    }
}

impl FromSpecImpl<NavigationError> for BrowserError {
    open spec fn obeys_from_spec() -> bool {
        true
    }

    open spec fn from_spec(e: NavigationError) -> Self {
        BrowserError::Navigation(e)
    }
}

impl From<StateError> for BrowserError {
    fn from(e: StateError) -> (res: Self) {
        BrowserError::State(e)
    }
}

impl FromSpecImpl<StateError> for BrowserError {
    open spec fn obeys_from_spec() -> bool {
        true
    }

    open spec fn from_spec(e: StateError) -> Self {
        BrowserError::State(e)
    }
}

impl From<JavaScriptError> for BrowserError {
    fn from(e: JavaScriptError) -> (res: Self) {
        BrowserError::JavaScript(e)
    }
}

impl FromSpecImpl<JavaScriptError> for BrowserError {
    open spec fn obeys_from_spec() -> bool {
        true
    }

    open spec fn from_spec(e: JavaScriptError) -> Self {
        BrowserError::JavaScript(e)
    }
}

impl From<PlatformError> for BrowserError {
    fn from(e: PlatformError) -> (res: Self) {
        BrowserError::Platform(e)
    }
}

impl FromSpecImpl<PlatformError> for BrowserError {
    open spec fn obeys_from_spec() -> bool {
        true
    }

    open spec fn from_spec(e: PlatformError) -> Self {
        BrowserError::Platform(e)
    }
}

impl From<String> for BrowserError {
    fn from(error: String) -> (res: Self) {
        BrowserError::Other(error)
    }
}

impl FromSpecImpl<String> for BrowserError {
    open spec fn obeys_from_spec() -> bool {
        true
    }

    open spec fn from_spec(error: String) -> Self {
        BrowserError::Other(error)
    }
}

impl<'a> From<&'a str> for BrowserError {
    fn from(error: &'a str) -> (res: Self)
        ensures
            res matches BrowserError::Other(s) && s@ == error@,
    {
        BrowserError::Other(String::from_str(error))
    }
}

impl<'a> FromSpecImpl<&'a str> for BrowserError {
    /// A string built from a slice is only known by its characters, so the
    /// conversion is stated by the `ensures` of `from` above.
    open spec fn obeys_from_spec() -> bool {
        false
    }

    open spec fn from_spec(error: &'a str) -> Self {
        vstd::pervasive::arbitrary()
    }
}

} // verus!
