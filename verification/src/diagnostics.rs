//! Diagnostics that the frontend reports: bounded to a character budget
//! per field before they reach the application log.

use vstd::prelude::*;

use crate::protocol::diagnostics::{
    frontend_error_kind_name, frontend_error_kind_recoverable, FrontendErrorReportRequest,
};
use crate::text::{chars_of, string_from_chars};

verus! {

/// The most characters of a reported message that are logged.
pub const MAX_MESSAGE_CHARS: usize = 4096;

/// The most characters of a reported stack that are logged.
pub const MAX_STACK_CHARS: usize = 16384;

/// The most characters of a reported source that are logged.
pub const MAX_SOURCE_CHARS: usize = 2048;

/// The first `max_chars` characters of `value`.
pub open spec fn truncated(value: Seq<char>, max_chars: nat) -> Seq<char> {
    if value.len() <= max_chars {
        value
    } else {
        value.take(max_chars as int)
    }
}

/// Keeps at most `max_chars` characters of `value`, cutting on character
/// boundaries.
pub fn truncate(value: String, max_chars: usize) -> (r: String)
    ensures
        r@ == truncated(value@, max_chars as nat),
{
    let chars = chars_of(value.as_str());
    if chars.len() <= max_chars {
        value
    } else {
        let kept = string_from_chars(vstd::slice::slice_subrange(chars.as_slice(), 0, max_chars));
        assert(chars@.subrange(0, max_chars as int) =~= value@.take(max_chars as int));
        kept
    }
}

fn truncate_optional(value: Option<String>, max_chars: usize) -> (r: Option<String>)
    ensures
        value is None ==> r is None,
        value matches Some(v) ==> (r matches Some(t) && t@ == truncated(v@, max_chars as nat)),
{
    match value {
        Some(v) => Some(truncate(v, max_chars)),
        None => None,
    }
}

/// A frontend error, bounded and ready for the log.
#[derive(Debug, Clone, PartialEq, Eq)]
pub struct FrontendErrorReport {
    pub kind: &'static str,
    pub message: String,
    pub stack: Option<String>,
    pub component_stack: Option<String>,
    pub source: Option<String>,
    pub line: Option<u32>,
    pub column: Option<u32>,
    /// Recoverable errors are logged as warnings, the others as errors.
    pub recoverable: bool,
}

pub open spec fn optional_truncated(r: Option<String>, v: Option<String>, max_chars: nat) -> bool {
    &&& v is None ==> r is None
    &&& v matches Some(s) ==> (r matches Some(t) && t@ == truncated(s@, max_chars))
}

/// Bounds each text field of a frontend error report to its character
/// budget and decides its log level.
pub fn prepare_frontend_error_report(request: FrontendErrorReportRequest) -> (r: FrontendErrorReport)
    ensures
        r.kind@ == frontend_error_kind_name(request.kind),
        r.message@ == truncated(request.message@, MAX_MESSAGE_CHARS as nat),
        optional_truncated(r.stack, request.stack, MAX_STACK_CHARS as nat),
        optional_truncated(r.component_stack, request.component_stack, MAX_STACK_CHARS as nat),
        optional_truncated(r.source, request.source, MAX_SOURCE_CHARS as nat),
        r.line == request.line,
        r.column == request.column,
        r.recoverable == frontend_error_kind_recoverable(request.kind),
{
    FrontendErrorReport {
        kind: request.kind.as_str(),
        message: truncate(request.message, MAX_MESSAGE_CHARS),
        stack: truncate_optional(request.stack, MAX_STACK_CHARS),
        component_stack: truncate_optional(request.component_stack, MAX_STACK_CHARS),
        source: truncate_optional(request.source, MAX_SOURCE_CHARS),
        line: request.line,
        column: request.column,
        recoverable: request.kind.is_recoverable(),
    }
}

} // verus!
