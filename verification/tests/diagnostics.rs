use yukin::diagnostics::prepare_frontend_error_report;
use yukin::protocol::diagnostics::{FrontendErrorKind, FrontendErrorReportRequest};
use yukin::diagnostics::truncate;

#[test]
fn truncates_frontend_diagnostics_on_character_boundaries() {
    assert_eq!(truncate("异常信息".into(), 2), "异常");
    assert_eq!(truncate("short".into(), 10), "short");
}

#[test]
fn truncation_keeps_exactly_the_limit() {
    assert_eq!(truncate("abcdef".into(), 6), "abcdef");
    assert_eq!(truncate("abcdef".into(), 0), "");
    assert_eq!(truncate("abcdef".into(), 3).chars().count(), 3);
}

#[test]
fn prepares_a_bounded_frontend_report() {

    let report = prepare_frontend_error_report(FrontendErrorReportRequest {
        kind: FrontendErrorKind::UnhandledRejection,
        message: "x".repeat(5000),
        stack: None,
        component_stack: Some("y".repeat(10)),
        source: Some("main.tsx".into()),
        line: Some(3),
        column: None,
    });
    assert_eq!(report.kind, FrontendErrorKind::UnhandledRejection.as_str());
    assert!(report.message.chars().count() < 5000);
    assert_eq!(report.stack, None);
    assert_eq!(report.component_stack.as_deref(), Some("yyyyyyyyyy"));
    assert_eq!(report.source.as_deref(), Some("main.tsx"));
    assert_eq!(report.line, Some(3));
    assert_eq!(report.recoverable, FrontendErrorKind::UnhandledRejection.is_recoverable());
}
