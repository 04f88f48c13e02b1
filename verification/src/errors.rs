//! The errors of native requests: what failed, in which phase, whether trying
//! again can help, and named evidence.
use vstd::prelude::*;

use crate::evidence::{Detail, Fields};
use crate::evidence;

verus! {

#[derive(Clone, Copy, Debug, PartialEq, Eq, Structural)]
pub enum ErrorCode {
    AppLaunchFailed,
    AppNotFound,
    AxRevisionMismatch,
    DispatchFailed,
    ElementStale,
    Internal,
    InvalidRequest,
    MenuStateStale,
    ObservationRaced,
    ObservationStale,
    PermissionDenied,
    PostureUnverifiable,
    PostureViolated,
    SurfaceStale,
    TargetBusy,
    UnsupportedInBackground,
    VerificationFailed,
    WindowIdentityChanged,
    WindowNotFound,
}

#[derive(Clone, Copy, Debug, PartialEq, Eq, Structural)]
pub enum ErrorPhase {
    Validate,
    Preflight,
    Dispatch,
    Settle,
    Verify,
}

#[derive(Debug)]
pub struct NativeError {
    pub code: ErrorCode,
    pub phase: ErrorPhase,
    pub retryable: bool,
    pub message: String,
    pub details: Fields,
}

/// What a [`NativeError`] says.
#[verifier::ext_equal]
pub ghost struct ErrorView {
    pub code: ErrorCode,
    pub phase: ErrorPhase,
    pub retryable: bool,
    pub message: Seq<char>,
    pub details: Map<Seq<char>, evidence::DetailView>,
}

impl ErrorView {
    pub open spec fn new(
        code: ErrorCode,
        phase: ErrorPhase,
        retryable: bool,
        message: Seq<char>,
    ) -> ErrorView {
        ErrorView { code, phase, retryable, message, details: Map::empty() }
    }

    /// Evidence that an observation no longer describes the native state: a
    /// fresh observation makes the request possible again.
    pub open spec fn stale(code: ErrorCode, message: Seq<char>) -> ErrorView {
        ErrorView::new(code, ErrorPhase::Preflight, true, message)
    }

    /// A request that cannot be carried out without leaving the background.
    pub open spec fn unsupported(message: Seq<char>) -> ErrorView {
        ErrorView::new(ErrorCode::UnsupportedInBackground, ErrorPhase::Preflight, false, message)
    }

    /// A request that is malformed whatever the native state.
    pub open spec fn invalid(message: Seq<char>) -> ErrorView {
        ErrorView::new(ErrorCode::InvalidRequest, ErrorPhase::Validate, false, message)
    }

    pub open spec fn with(self, name: Seq<char>, value: evidence::DetailView) -> ErrorView {
        ErrorView { details: self.details.insert(name, value), ..self }
    }
}

impl View for NativeError {
    type V = ErrorView;

    open spec fn view(&self) -> ErrorView {
        ErrorView {
            code: self.code,
            phase: self.phase,
            retryable: self.retryable,
            message: self.message@,
            details: self.details@,
        }
    }
}

impl NativeError {
    pub fn new(code: ErrorCode, phase: ErrorPhase, retryable: bool, message: &str) -> (error:
        NativeError)
        ensures
            error@ == ErrorView::new(code, phase, retryable, message@),
    {
        NativeError { code, phase, retryable, message: message.to_owned(), details: Fields::new() }
    }

    pub fn stale(code: ErrorCode, message: &str) -> (error: NativeError)
        ensures
            error@ == ErrorView::stale(code, message@),
    {
        NativeError::new(code, ErrorPhase::Preflight, true, message)
    }

    pub fn unsupported(message: &str) -> (error: NativeError)
        ensures
            error@ == ErrorView::unsupported(message@),
    {
        NativeError::new(ErrorCode::UnsupportedInBackground, ErrorPhase::Preflight, false, message)
    }

    pub fn invalid(message: &str) -> (error: NativeError)
        ensures
            error@ == ErrorView::invalid(message@),
    {
        NativeError::new(ErrorCode::InvalidRequest, ErrorPhase::Validate, false, message)
    }

    pub fn with_detail(self, name: &str, value: Detail) -> (error: NativeError)
        ensures
            error@ == self@.with(name@, value@),
    {
        let mut error: NativeError = self;
        error.details.insert(name, value);
        error
    }

    pub fn with_int(self, name: &str, value: i128) -> (error: NativeError)
        ensures
            error@ == self@.with(name@, evidence::DetailView::Int(value as int)),
    {
        self.with_detail(name, Detail::Int(value))
    }

    pub fn with_bool(self, name: &str, value: bool) -> (error: NativeError)
        ensures
            error@ == self@.with(name@, evidence::DetailView::Bool(value)),
    {
        self.with_detail(name, Detail::Bool(value))
    }

    pub fn with_text(self, name: &str, value: &str) -> (error: NativeError)
        ensures
            error@ == self@.with(name@, evidence::DetailView::Text(value@)),
    {
        self.with_detail(name, Detail::text(value))
    }
}

impl Clone for NativeError {
    fn clone(&self) -> (copy: Self)
        ensures
            copy@ == self@,
    {
        NativeError {
            code: self.code,
            phase: self.phase,
            retryable: self.retryable,
            message: self.message.clone(),
            details: self.details.clone(),
        }
    }
}

} // verus!
