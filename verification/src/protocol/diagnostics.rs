use vstd::prelude::*;

verus! {

/// Where in the frontend an error surfaced.
#[derive(Debug, Clone, Copy, PartialEq, Eq)]
pub enum FrontendErrorKind {
    Window,
    UnhandledRejection,
    ReactUncaught,
    ReactCaught,
    ReactRecoverable,
}

pub open spec fn frontend_error_kind_name(kind: FrontendErrorKind) -> Seq<char> {
    match kind {
        FrontendErrorKind::Window => "window"@,
        FrontendErrorKind::UnhandledRejection => "unhandled_rejection"@,
        FrontendErrorKind::ReactUncaught => "react_uncaught"@,
        FrontendErrorKind::ReactCaught => "react_caught"@,
        FrontendErrorKind::ReactRecoverable => "react_recoverable"@,
    }
}

pub open spec fn frontend_error_kind_recoverable(kind: FrontendErrorKind) -> bool {
    kind == FrontendErrorKind::ReactCaught || kind == FrontendErrorKind::ReactRecoverable
}

impl FrontendErrorKind {
    pub fn as_str(self) -> (r: &'static str)
        ensures
            r@ == frontend_error_kind_name(self),
    {
        match self {
            FrontendErrorKind::Window => "window",
            FrontendErrorKind::UnhandledRejection => "unhandled_rejection",
            FrontendErrorKind::ReactUncaught => "react_uncaught",
            FrontendErrorKind::ReactCaught => "react_caught",
            FrontendErrorKind::ReactRecoverable => "react_recoverable",
        }
    }

    /// Errors that React caught or recovered from are warnings; the others
    /// are errors.
    pub fn is_recoverable(self) -> (r: bool)
        ensures
            r == frontend_error_kind_recoverable(self),
    {
        match self {
            FrontendErrorKind::ReactCaught | FrontendErrorKind::ReactRecoverable => true,
            _ => false,
        }
    }
}

/// An error that the frontend reports for the application log.
#[derive(Debug, Clone, PartialEq, Eq)]
pub struct FrontendErrorReportRequest {
    pub kind: FrontendErrorKind,
    pub message: String,
    pub stack: Option<String>,
    pub component_stack: Option<String>,
    pub source: Option<String>,
    pub line: Option<u32>,
    pub column: Option<u32>,
}

} // verus!
