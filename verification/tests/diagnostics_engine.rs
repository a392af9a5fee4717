use type_kernel::diagnostic_rules::{
    render_diagnostic_rule_1, render_diagnostic_rule_1500, render_diagnostic_rule_750,
};
use type_kernel::diagnostics_engine::{
    rust_diagnostics_render, DiagnosticSeverity, FullDiagnosticsEngine,
};

#[test]
fn test_full_diagnostics_engine() {
    let mut engine = FullDiagnosticsEngine::new("main.py");
    assert!(render_diagnostic_rule_1(&mut engine, "Type error", 10));
    assert_eq!(engine.diagnostics.len(), 1);
}

#[test]
fn rendered_line_format() {
    let mut engine = FullDiagnosticsEngine::new("main.py");
    assert!(render_diagnostic_rule_1(&mut engine, "Type error", 10));
    assert_eq!(engine.diagnostics[0], "[Error] main.py:10: Type error");
}

#[test]
fn every_severity_and_line_zero() {
    let mut engine = FullDiagnosticsEngine::new("a/b.py");
    engine.emit_diagnostic(DiagnosticSeverity::Note, "n", 0);
    engine.emit_diagnostic(DiagnosticSeverity::Warning, "w", 1234567);
    engine.emit_diagnostic(DiagnosticSeverity::Error, "", 9);
    assert_eq!(
        engine.diagnostics,
        vec![
            "[Note] a/b.py:0: n".to_string(),
            "[Warning] a/b.py:1234567: w".to_string(),
            "[Error] a/b.py:9: ".to_string(),
        ]
    );
    assert_eq!(engine.file_path, "a/b.py");
}

#[test]
fn empty_message_is_not_rendered() {
    let mut engine = FullDiagnosticsEngine::new("main.py");
    assert!(!render_diagnostic_rule_750(&mut engine, "", 3));
    assert!(engine.diagnostics.is_empty());
    assert!(render_diagnostic_rule_1500(&mut engine, "x", usize::MAX));
    assert_eq!(
        engine.diagnostics,
        vec![format!("[Error] main.py:{}: x", usize::MAX)]
    );
}

#[test]
fn render_entry_point() {
    assert!(rust_diagnostics_render("boom", 1));
    assert!(!rust_diagnostics_render("", 1));
}
