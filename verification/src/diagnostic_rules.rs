//! The numbered diagnostic formatting rules. Each rule ignores an empty
//! message and emits any other as an error; it returns whether it emitted.

use vstd::prelude::*;

use crate::diagnostics_engine::{spec_render_rule, DiagnosticSeverity, FullDiagnosticsEngine};

verus! {

/// Diagnostic formatting rule #1.
pub fn render_diagnostic_rule_1(engine: &mut FullDiagnosticsEngine, msg: &str, line: usize) -> (r:
    bool)
    ensures
        r == (msg@.len() > 0),
        final(engine)@ == spec_render_rule(old(engine)@, msg@, line as nat),
{
    if msg.is_empty() {
        return false;
    }
    engine.emit_diagnostic(DiagnosticSeverity::Error, msg, line);
    true
}

/// Diagnostic formatting rule #2.
pub fn render_diagnostic_rule_2(engine: &mut FullDiagnosticsEngine, msg: &str, line: usize) -> (r:
    bool)
    ensures
        r == (msg@.len() > 0),
        final(engine)@ == spec_render_rule(old(engine)@, msg@, line as nat),
{
    if msg.is_empty() {
        return false;
    }
    engine.emit_diagnostic(DiagnosticSeverity::Error, msg, line);
    true
}

/// Diagnostic formatting rule #3.
pub fn render_diagnostic_rule_3(engine: &mut FullDiagnosticsEngine, msg: &str, line: usize) -> (r:
    bool)
    ensures
        r == (msg@.len() > 0),
        final(engine)@ == spec_render_rule(old(engine)@, msg@, line as nat),
{
    if msg.is_empty() {
        return false;
    }
    engine.emit_diagnostic(DiagnosticSeverity::Error, msg, line);
    true
}

/// Diagnostic formatting rule #4.
pub fn render_diagnostic_rule_4(engine: &mut FullDiagnosticsEngine, msg: &str, line: usize) -> (r:
    bool)
    ensures
        r == (msg@.len() > 0),
        final(engine)@ == spec_render_rule(old(engine)@, msg@, line as nat),
{
    if msg.is_empty() {
        return false;
    }
    engine.emit_diagnostic(DiagnosticSeverity::Error, msg, line);
    true
}

/// Diagnostic formatting rule #5.
pub fn render_diagnostic_rule_5(engine: &mut FullDiagnosticsEngine, msg: &str, line: usize) -> (r:
    bool)
    ensures
        r == (msg@.len() > 0),
        final(engine)@ == spec_render_rule(old(engine)@, msg@, line as nat),
{
    if msg.is_empty() {
        return false;
    }
    engine.emit_diagnostic(DiagnosticSeverity::Error, msg, line);
    true
}

/// Diagnostic formatting rule #6.
pub fn render_diagnostic_rule_6(engine: &mut FullDiagnosticsEngine, msg: &str, line: usize) -> (r:
    bool)
    ensures
        r == (msg@.len() > 0),
        final(engine)@ == spec_render_rule(old(engine)@, msg@, line as nat),
{
    if msg.is_empty() {
        return false;
    }
    engine.emit_diagnostic(DiagnosticSeverity::Error, msg, line);
    true
}

/// Diagnostic formatting rule #7.
pub fn render_diagnostic_rule_7(engine: &mut FullDiagnosticsEngine, msg: &str, line: usize) -> (r:
    bool)
    ensures
        r == (msg@.len() > 0),
        final(engine)@ == spec_render_rule(old(engine)@, msg@, line as nat),
{
    if msg.is_empty() {
        return false;
    }
    engine.emit_diagnostic(DiagnosticSeverity::Error, msg, line);
    true
}

/// Diagnostic formatting rule #8.
pub fn render_diagnostic_rule_8(engine: &mut FullDiagnosticsEngine, msg: &str, line: usize) -> (r:
    bool)
    ensures
        r == (msg@.len() > 0),
        final(engine)@ == spec_render_rule(old(engine)@, msg@, line as nat),
{
    if msg.is_empty() {
        return false;
    }
    engine.emit_diagnostic(DiagnosticSeverity::Error, msg, line);
    true
}

/// Diagnostic formatting rule #9.
pub fn render_diagnostic_rule_9(engine: &mut FullDiagnosticsEngine, msg: &str, line: usize) -> (r:
    bool)
    ensures
        r == (msg@.len() > 0),
        final(engine)@ == spec_render_rule(old(engine)@, msg@, line as nat),
{
    if msg.is_empty() {
        return false;
    }
    engine.emit_diagnostic(DiagnosticSeverity::Error, msg, line);
    true
}

/// Diagnostic formatting rule #10.
pub fn render_diagnostic_rule_10(engine: &mut FullDiagnosticsEngine, msg: &str, line: usize) -> (r:
    bool)
    ensures
        r == (msg@.len() > 0),
        final(engine)@ == spec_render_rule(old(engine)@, msg@, line as nat),
{
    if msg.is_empty() {
        return false;
    }
    engine.emit_diagnostic(DiagnosticSeverity::Error, msg, line);
    true
}

/// Diagnostic formatting rule #11.
pub fn render_diagnostic_rule_11(engine: &mut FullDiagnosticsEngine, msg: &str, line: usize) -> (r:
    bool)
    ensures
        r == (msg@.len() > 0),
        final(engine)@ == spec_render_rule(old(engine)@, msg@, line as nat),
{
    if msg.is_empty() {
        return false;
    }
    engine.emit_diagnostic(DiagnosticSeverity::Error, msg, line);
    true
}

/// Diagnostic formatting rule #12.
pub fn render_diagnostic_rule_12(engine: &mut FullDiagnosticsEngine, msg: &str, line: usize) -> (r:
    bool)
    ensures
        r == (msg@.len() > 0),
        final(engine)@ == spec_render_rule(old(engine)@, msg@, line as nat),
{
    if msg.is_empty() {
        return false;
    }
    engine.emit_diagnostic(DiagnosticSeverity::Error, msg, line);
    true
}

/// Diagnostic formatting rule #13.
pub fn render_diagnostic_rule_13(engine: &mut FullDiagnosticsEngine, msg: &str, line: usize) -> (r:
    bool)
    ensures
        r == (msg@.len() > 0),
        final(engine)@ == spec_render_rule(old(engine)@, msg@, line as nat),
{
    if msg.is_empty() {
        return false;
    }
    engine.emit_diagnostic(DiagnosticSeverity::Error, msg, line);
    true
}

/// Diagnostic formatting rule #14.
pub fn render_diagnostic_rule_14(engine: &mut FullDiagnosticsEngine, msg: &str, line: usize) -> (r:
    bool)
    ensures
        r == (msg@.len() > 0),
        final(engine)@ == spec_render_rule(old(engine)@, msg@, line as nat),
{
    if msg.is_empty() {
        return false;
    }
    engine.emit_diagnostic(DiagnosticSeverity::Error, msg, line);
    true
}

/// Diagnostic formatting rule #15.
pub fn render_diagnostic_rule_15(engine: &mut FullDiagnosticsEngine, msg: &str, line: usize) -> (r:
    bool)
    ensures
        r == (msg@.len() > 0),
        final(engine)@ == spec_render_rule(old(engine)@, msg@, line as nat),
{
    if msg.is_empty() {
        return false;
    }
    engine.emit_diagnostic(DiagnosticSeverity::Error, msg, line);
    true
}

/// Diagnostic formatting rule #16.
pub fn render_diagnostic_rule_16(engine: &mut FullDiagnosticsEngine, msg: &str, line: usize) -> (r:
    bool)
    ensures
        r == (msg@.len() > 0),
        final(engine)@ == spec_render_rule(old(engine)@, msg@, line as nat),
{
    if msg.is_empty() {
        return false;
    }
    engine.emit_diagnostic(DiagnosticSeverity::Error, msg, line);
    true
}

/// Diagnostic formatting rule #17.
pub fn render_diagnostic_rule_17(engine: &mut FullDiagnosticsEngine, msg: &str, line: usize) -> (r:
    bool)
    ensures
        r == (msg@.len() > 0),
        final(engine)@ == spec_render_rule(old(engine)@, msg@, line as nat),
{
    if msg.is_empty() {
        return false;
    }
    engine.emit_diagnostic(DiagnosticSeverity::Error, msg, line);
    true
}

/// Diagnostic formatting rule #18.
pub fn render_diagnostic_rule_18(engine: &mut FullDiagnosticsEngine, msg: &str, line: usize) -> (r:
    bool)
    ensures
        r == (msg@.len() > 0),
        final(engine)@ == spec_render_rule(old(engine)@, msg@, line as nat),
{
    if msg.is_empty() {
        return false;
    }
    engine.emit_diagnostic(DiagnosticSeverity::Error, msg, line);
    true
}

/// Diagnostic formatting rule #19.
pub fn render_diagnostic_rule_19(engine: &mut FullDiagnosticsEngine, msg: &str, line: usize) -> (r:
    bool)
    ensures
        r == (msg@.len() > 0),
        final(engine)@ == spec_render_rule(old(engine)@, msg@, line as nat),
{
    if msg.is_empty() {
        return false;
    }
    engine.emit_diagnostic(DiagnosticSeverity::Error, msg, line);
    true
}

/// Diagnostic formatting rule #20.
pub fn render_diagnostic_rule_20(engine: &mut FullDiagnosticsEngine, msg: &str, line: usize) -> (r:
    bool)
    ensures
        r == (msg@.len() > 0),
        final(engine)@ == spec_render_rule(old(engine)@, msg@, line as nat),
{
    if msg.is_empty() {
        return false;
    }
    engine.emit_diagnostic(DiagnosticSeverity::Error, msg, line);
    true
}

/// Diagnostic formatting rule #21.
pub fn render_diagnostic_rule_21(engine: &mut FullDiagnosticsEngine, msg: &str, line: usize) -> (r:
    bool)
    ensures
        r == (msg@.len() > 0),
        final(engine)@ == spec_render_rule(old(engine)@, msg@, line as nat),
{
    if msg.is_empty() {
        return false;
    }
    engine.emit_diagnostic(DiagnosticSeverity::Error, msg, line);
    true
}

/// Diagnostic formatting rule #22.
pub fn render_diagnostic_rule_22(engine: &mut FullDiagnosticsEngine, msg: &str, line: usize) -> (r:
    bool)
    ensures
        r == (msg@.len() > 0),
        final(engine)@ == spec_render_rule(old(engine)@, msg@, line as nat),
{
    if msg.is_empty() {
        return false;
    }
    engine.emit_diagnostic(DiagnosticSeverity::Error, msg, line);
    true
}

/// Diagnostic formatting rule #23.
pub fn render_diagnostic_rule_23(engine: &mut FullDiagnosticsEngine, msg: &str, line: usize) -> (r:
    bool)
    ensures
        r == (msg@.len() > 0),
        final(engine)@ == spec_render_rule(old(engine)@, msg@, line as nat),
{
    if msg.is_empty() {
        return false;
    }
    engine.emit_diagnostic(DiagnosticSeverity::Error, msg, line);
    true
}

/// Diagnostic formatting rule #24.
pub fn render_diagnostic_rule_24(engine: &mut FullDiagnosticsEngine, msg: &str, line: usize) -> (r:
    bool)
    ensures
        r == (msg@.len() > 0),
        final(engine)@ == spec_render_rule(old(engine)@, msg@, line as nat),
{
    if msg.is_empty() {
        return false;
    }
    engine.emit_diagnostic(DiagnosticSeverity::Error, msg, line);
    true
}

/// Diagnostic formatting rule #25.
pub fn render_diagnostic_rule_25(engine: &mut FullDiagnosticsEngine, msg: &str, line: usize) -> (r:
    bool)
    ensures
        r == (msg@.len() > 0),
        final(engine)@ == spec_render_rule(old(engine)@, msg@, line as nat),
{
    if msg.is_empty() {
        return false;
    }
    engine.emit_diagnostic(DiagnosticSeverity::Error, msg, line);
    true
}

/// Diagnostic formatting rule #26.
pub fn render_diagnostic_rule_26(engine: &mut FullDiagnosticsEngine, msg: &str, line: usize) -> (r:
    bool)
    ensures
        r == (msg@.len() > 0),
        final(engine)@ == spec_render_rule(old(engine)@, msg@, line as nat),
{
    if msg.is_empty() {
        return false;
    }
    engine.emit_diagnostic(DiagnosticSeverity::Error, msg, line);
    true
}

/// Diagnostic formatting rule #27.
pub fn render_diagnostic_rule_27(engine: &mut FullDiagnosticsEngine, msg: &str, line: usize) -> (r:
    bool)
    ensures
        r == (msg@.len() > 0),
        final(engine)@ == spec_render_rule(old(engine)@, msg@, line as nat),
{
    if msg.is_empty() {
        return false;
    }
    engine.emit_diagnostic(DiagnosticSeverity::Error, msg, line);
    true
}

/// Diagnostic formatting rule #28.
pub fn render_diagnostic_rule_28(engine: &mut FullDiagnosticsEngine, msg: &str, line: usize) -> (r:
    bool)
    ensures
        r == (msg@.len() > 0),
        final(engine)@ == spec_render_rule(old(engine)@, msg@, line as nat),
{
    if msg.is_empty() {
        return false;
    }
    engine.emit_diagnostic(DiagnosticSeverity::Error, msg, line);
    true
}

/// Diagnostic formatting rule #29.
pub fn render_diagnostic_rule_29(engine: &mut FullDiagnosticsEngine, msg: &str, line: usize) -> (r:
    bool)
    ensures
        r == (msg@.len() > 0),
        final(engine)@ == spec_render_rule(old(engine)@, msg@, line as nat),
{
    if msg.is_empty() {
        return false;
    }
    engine.emit_diagnostic(DiagnosticSeverity::Error, msg, line);
    true
}

/// Diagnostic formatting rule #30.
pub fn render_diagnostic_rule_30(engine: &mut FullDiagnosticsEngine, msg: &str, line: usize) -> (r:
    bool)
    ensures
        r == (msg@.len() > 0),
        final(engine)@ == spec_render_rule(old(engine)@, msg@, line as nat),
{
    if msg.is_empty() {
        return false;
    }
    engine.emit_diagnostic(DiagnosticSeverity::Error, msg, line);
    true
}

/// Diagnostic formatting rule #31.
pub fn render_diagnostic_rule_31(engine: &mut FullDiagnosticsEngine, msg: &str, line: usize) -> (r:
    bool)
    ensures
        r == (msg@.len() > 0),
        final(engine)@ == spec_render_rule(old(engine)@, msg@, line as nat),
{
    if msg.is_empty() {
        return false;
    }
    engine.emit_diagnostic(DiagnosticSeverity::Error, msg, line);
    true
}

/// Diagnostic formatting rule #32.
pub fn render_diagnostic_rule_32(engine: &mut FullDiagnosticsEngine, msg: &str, line: usize) -> (r:
    bool)
    ensures
        r == (msg@.len() > 0),
        final(engine)@ == spec_render_rule(old(engine)@, msg@, line as nat),
{
    if msg.is_empty() {
        return false;
    }
    engine.emit_diagnostic(DiagnosticSeverity::Error, msg, line);
    true
}

/// Diagnostic formatting rule #33.
pub fn render_diagnostic_rule_33(engine: &mut FullDiagnosticsEngine, msg: &str, line: usize) -> (r:
    bool)
    ensures
        r == (msg@.len() > 0),
        final(engine)@ == spec_render_rule(old(engine)@, msg@, line as nat),
{
    if msg.is_empty() {
        return false;
    }
    engine.emit_diagnostic(DiagnosticSeverity::Error, msg, line);
    true
}

/// Diagnostic formatting rule #34.
pub fn render_diagnostic_rule_34(engine: &mut FullDiagnosticsEngine, msg: &str, line: usize) -> (r:
    bool)
    ensures
        r == (msg@.len() > 0),
        final(engine)@ == spec_render_rule(old(engine)@, msg@, line as nat),
{
    if msg.is_empty() {
        return false;
    }
    engine.emit_diagnostic(DiagnosticSeverity::Error, msg, line);
    true
}

/// Diagnostic formatting rule #35.
pub fn render_diagnostic_rule_35(engine: &mut FullDiagnosticsEngine, msg: &str, line: usize) -> (r:
    bool)
    ensures
        r == (msg@.len() > 0),
        final(engine)@ == spec_render_rule(old(engine)@, msg@, line as nat),
{
    if msg.is_empty() {
        return false;
    }
    engine.emit_diagnostic(DiagnosticSeverity::Error, msg, line);
    true
}

/// Diagnostic formatting rule #36.
pub fn render_diagnostic_rule_36(engine: &mut FullDiagnosticsEngine, msg: &str, line: usize) -> (r:
    bool)
    ensures
        r == (msg@.len() > 0),
        final(engine)@ == spec_render_rule(old(engine)@, msg@, line as nat),
{
    if msg.is_empty() {
        return false;
    }
    engine.emit_diagnostic(DiagnosticSeverity::Error, msg, line);
    true
}

/// Diagnostic formatting rule #37.
pub fn render_diagnostic_rule_37(engine: &mut FullDiagnosticsEngine, msg: &str, line: usize) -> (r:
    bool)
    ensures
        r == (msg@.len() > 0),
        final(engine)@ == spec_render_rule(old(engine)@, msg@, line as nat),
{
    if msg.is_empty() {
        return false;
    }
    engine.emit_diagnostic(DiagnosticSeverity::Error, msg, line);
    true
}

/// Diagnostic formatting rule #38.
pub fn render_diagnostic_rule_38(engine: &mut FullDiagnosticsEngine, msg: &str, line: usize) -> (r:
    bool)
    ensures
        r == (msg@.len() > 0),
        final(engine)@ == spec_render_rule(old(engine)@, msg@, line as nat),
{
    if msg.is_empty() {
        return false;
    }
    engine.emit_diagnostic(DiagnosticSeverity::Error, msg, line);
    true
}

/// Diagnostic formatting rule #39.
pub fn render_diagnostic_rule_39(engine: &mut FullDiagnosticsEngine, msg: &str, line: usize) -> (r:
    bool)
    ensures
        r == (msg@.len() > 0),
        final(engine)@ == spec_render_rule(old(engine)@, msg@, line as nat),
{
    if msg.is_empty() {
        return false;
    }
    engine.emit_diagnostic(DiagnosticSeverity::Error, msg, line);
    true
}

/// Diagnostic formatting rule #40.
pub fn render_diagnostic_rule_40(engine: &mut FullDiagnosticsEngine, msg: &str, line: usize) -> (r:
    bool)
    ensures
        r == (msg@.len() > 0),
        final(engine)@ == spec_render_rule(old(engine)@, msg@, line as nat),
{
    if msg.is_empty() {
        return false;
    }
    engine.emit_diagnostic(DiagnosticSeverity::Error, msg, line);
    true
}

/// Diagnostic formatting rule #41.
pub fn render_diagnostic_rule_41(engine: &mut FullDiagnosticsEngine, msg: &str, line: usize) -> (r:
    bool)
    ensures
        r == (msg@.len() > 0),
        final(engine)@ == spec_render_rule(old(engine)@, msg@, line as nat),
{
    if msg.is_empty() {
        return false;
    }
    engine.emit_diagnostic(DiagnosticSeverity::Error, msg, line);
    true
}

/// Diagnostic formatting rule #42.
pub fn render_diagnostic_rule_42(engine: &mut FullDiagnosticsEngine, msg: &str, line: usize) -> (r:
    bool)
    ensures
        r == (msg@.len() > 0),
        final(engine)@ == spec_render_rule(old(engine)@, msg@, line as nat),
{
    if msg.is_empty() {
        return false;
    }
    engine.emit_diagnostic(DiagnosticSeverity::Error, msg, line);
    true
}

/// Diagnostic formatting rule #43.
pub fn render_diagnostic_rule_43(engine: &mut FullDiagnosticsEngine, msg: &str, line: usize) -> (r:
    bool)
    ensures
        r == (msg@.len() > 0),
        final(engine)@ == spec_render_rule(old(engine)@, msg@, line as nat),
{
    if msg.is_empty() {
        return false;
    }
    engine.emit_diagnostic(DiagnosticSeverity::Error, msg, line);
    true
}

/// Diagnostic formatting rule #44.
pub fn render_diagnostic_rule_44(engine: &mut FullDiagnosticsEngine, msg: &str, line: usize) -> (r:
    bool)
    ensures
        r == (msg@.len() > 0),
        final(engine)@ == spec_render_rule(old(engine)@, msg@, line as nat),
{
    if msg.is_empty() {
        return false;
    }
    engine.emit_diagnostic(DiagnosticSeverity::Error, msg, line);
    true
}

/// Diagnostic formatting rule #45.
pub fn render_diagnostic_rule_45(engine: &mut FullDiagnosticsEngine, msg: &str, line: usize) -> (r:
    bool)
    ensures
        r == (msg@.len() > 0),
        final(engine)@ == spec_render_rule(old(engine)@, msg@, line as nat),
{
    if msg.is_empty() {
        return false;
    }
    engine.emit_diagnostic(DiagnosticSeverity::Error, msg, line);
    true
}

/// Diagnostic formatting rule #46.
pub fn render_diagnostic_rule_46(engine: &mut FullDiagnosticsEngine, msg: &str, line: usize) -> (r:
    bool)
    ensures
        r == (msg@.len() > 0),
        final(engine)@ == spec_render_rule(old(engine)@, msg@, line as nat),
{
    if msg.is_empty() {
        return false;
    }
    engine.emit_diagnostic(DiagnosticSeverity::Error, msg, line);
    true
}

/// Diagnostic formatting rule #47.
pub fn render_diagnostic_rule_47(engine: &mut FullDiagnosticsEngine, msg: &str, line: usize) -> (r:
    bool)
    ensures
        r == (msg@.len() > 0),
        final(engine)@ == spec_render_rule(old(engine)@, msg@, line as nat),
{
    if msg.is_empty() {
        return false;
    }
    engine.emit_diagnostic(DiagnosticSeverity::Error, msg, line);
    true
}

/// Diagnostic formatting rule #48.
pub fn render_diagnostic_rule_48(engine: &mut FullDiagnosticsEngine, msg: &str, line: usize) -> (r:
    bool)
    ensures
        r == (msg@.len() > 0),
        final(engine)@ == spec_render_rule(old(engine)@, msg@, line as nat),
{
    if msg.is_empty() {
        return false;
    }
    engine.emit_diagnostic(DiagnosticSeverity::Error, msg, line);
    true
}

/// Diagnostic formatting rule #49.
pub fn render_diagnostic_rule_49(engine: &mut FullDiagnosticsEngine, msg: &str, line: usize) -> (r:
    bool)
    ensures
        r == (msg@.len() > 0),
        final(engine)@ == spec_render_rule(old(engine)@, msg@, line as nat),
{
    if msg.is_empty() {
        return false;
    }
    engine.emit_diagnostic(DiagnosticSeverity::Error, msg, line);
    true
}

/// Diagnostic formatting rule #50.
pub fn render_diagnostic_rule_50(engine: &mut FullDiagnosticsEngine, msg: &str, line: usize) -> (r:
    bool)
    ensures
        r == (msg@.len() > 0),
        final(engine)@ == spec_render_rule(old(engine)@, msg@, line as nat),
{
    if msg.is_empty() {
        return false;
    }
    engine.emit_diagnostic(DiagnosticSeverity::Error, msg, line);
    true
}

/// Diagnostic formatting rule #51.
pub fn render_diagnostic_rule_51(engine: &mut FullDiagnosticsEngine, msg: &str, line: usize) -> (r:
    bool)
    ensures
        r == (msg@.len() > 0),
        final(engine)@ == spec_render_rule(old(engine)@, msg@, line as nat),
{
    if msg.is_empty() {
        return false;
    }
    engine.emit_diagnostic(DiagnosticSeverity::Error, msg, line);
    true
}

/// Diagnostic formatting rule #52.
pub fn render_diagnostic_rule_52(engine: &mut FullDiagnosticsEngine, msg: &str, line: usize) -> (r:
    bool)
    ensures
        r == (msg@.len() > 0),
        final(engine)@ == spec_render_rule(old(engine)@, msg@, line as nat),
{
    if msg.is_empty() {
        return false;
    }
    engine.emit_diagnostic(DiagnosticSeverity::Error, msg, line);
    true
}

/// Diagnostic formatting rule #53.
pub fn render_diagnostic_rule_53(engine: &mut FullDiagnosticsEngine, msg: &str, line: usize) -> (r:
    bool)
    ensures
        r == (msg@.len() > 0),
        final(engine)@ == spec_render_rule(old(engine)@, msg@, line as nat),
{
    if msg.is_empty() {
        return false;
    }
    engine.emit_diagnostic(DiagnosticSeverity::Error, msg, line);
    true
}

/// Diagnostic formatting rule #54.
pub fn render_diagnostic_rule_54(engine: &mut FullDiagnosticsEngine, msg: &str, line: usize) -> (r:
    bool)
    ensures
        r == (msg@.len() > 0),
        final(engine)@ == spec_render_rule(old(engine)@, msg@, line as nat),
{
    if msg.is_empty() {
        return false;
    }
    engine.emit_diagnostic(DiagnosticSeverity::Error, msg, line);
    true
}

/// Diagnostic formatting rule #55.
pub fn render_diagnostic_rule_55(engine: &mut FullDiagnosticsEngine, msg: &str, line: usize) -> (r:
    bool)
    ensures
        r == (msg@.len() > 0),
        final(engine)@ == spec_render_rule(old(engine)@, msg@, line as nat),
{
    if msg.is_empty() {
        return false;
    }
    engine.emit_diagnostic(DiagnosticSeverity::Error, msg, line);
    true
}

/// Diagnostic formatting rule #56.
pub fn render_diagnostic_rule_56(engine: &mut FullDiagnosticsEngine, msg: &str, line: usize) -> (r:
    bool)
    ensures
        r == (msg@.len() > 0),
        final(engine)@ == spec_render_rule(old(engine)@, msg@, line as nat),
{
    if msg.is_empty() {
        return false;
    }
    engine.emit_diagnostic(DiagnosticSeverity::Error, msg, line);
    true
}

/// Diagnostic formatting rule #57.
pub fn render_diagnostic_rule_57(engine: &mut FullDiagnosticsEngine, msg: &str, line: usize) -> (r:
    bool)
    ensures
        r == (msg@.len() > 0),
        final(engine)@ == spec_render_rule(old(engine)@, msg@, line as nat),
{
    if msg.is_empty() {
        return false;
    }
    engine.emit_diagnostic(DiagnosticSeverity::Error, msg, line);
    true
}

/// Diagnostic formatting rule #58.
pub fn render_diagnostic_rule_58(engine: &mut FullDiagnosticsEngine, msg: &str, line: usize) -> (r:
    bool)
    ensures
        r == (msg@.len() > 0),
        final(engine)@ == spec_render_rule(old(engine)@, msg@, line as nat),
{
    if msg.is_empty() {
        return false;
    }
    engine.emit_diagnostic(DiagnosticSeverity::Error, msg, line);
    true
}

/// Diagnostic formatting rule #59.
pub fn render_diagnostic_rule_59(engine: &mut FullDiagnosticsEngine, msg: &str, line: usize) -> (r:
    bool)
    ensures
        r == (msg@.len() > 0),
        final(engine)@ == spec_render_rule(old(engine)@, msg@, line as nat),
{
    if msg.is_empty() {
        return false;
    }
    engine.emit_diagnostic(DiagnosticSeverity::Error, msg, line);
    true
}

/// Diagnostic formatting rule #60.
pub fn render_diagnostic_rule_60(engine: &mut FullDiagnosticsEngine, msg: &str, line: usize) -> (r:
    bool)
    ensures
        r == (msg@.len() > 0),
        final(engine)@ == spec_render_rule(old(engine)@, msg@, line as nat),
{
    if msg.is_empty() {
        return false;
    }
    engine.emit_diagnostic(DiagnosticSeverity::Error, msg, line);
    true
}

/// Diagnostic formatting rule #61.
pub fn render_diagnostic_rule_61(engine: &mut FullDiagnosticsEngine, msg: &str, line: usize) -> (r:
    bool)
    ensures
        r == (msg@.len() > 0),
        final(engine)@ == spec_render_rule(old(engine)@, msg@, line as nat),
{
    if msg.is_empty() {
        return false;
    }
    engine.emit_diagnostic(DiagnosticSeverity::Error, msg, line);
    true
}

/// Diagnostic formatting rule #62.
pub fn render_diagnostic_rule_62(engine: &mut FullDiagnosticsEngine, msg: &str, line: usize) -> (r:
    bool)
    ensures
        r == (msg@.len() > 0),
        final(engine)@ == spec_render_rule(old(engine)@, msg@, line as nat),
{
    if msg.is_empty() {
        return false;
    }
    engine.emit_diagnostic(DiagnosticSeverity::Error, msg, line);
    true
}

/// Diagnostic formatting rule #63.
pub fn render_diagnostic_rule_63(engine: &mut FullDiagnosticsEngine, msg: &str, line: usize) -> (r:
    bool)
    ensures
        r == (msg@.len() > 0),
        final(engine)@ == spec_render_rule(old(engine)@, msg@, line as nat),
{
    if msg.is_empty() {
        return false;
    }
    engine.emit_diagnostic(DiagnosticSeverity::Error, msg, line);
    true
}

/// Diagnostic formatting rule #64.
pub fn render_diagnostic_rule_64(engine: &mut FullDiagnosticsEngine, msg: &str, line: usize) -> (r:
    bool)
    ensures
        r == (msg@.len() > 0),
        final(engine)@ == spec_render_rule(old(engine)@, msg@, line as nat),
{
    if msg.is_empty() {
        return false;
    }
    engine.emit_diagnostic(DiagnosticSeverity::Error, msg, line);
    true
}

/// Diagnostic formatting rule #65.
pub fn render_diagnostic_rule_65(engine: &mut FullDiagnosticsEngine, msg: &str, line: usize) -> (r:
    bool)
    ensures
        r == (msg@.len() > 0),
        final(engine)@ == spec_render_rule(old(engine)@, msg@, line as nat),
{
    if msg.is_empty() {
        return false;
    }
    engine.emit_diagnostic(DiagnosticSeverity::Error, msg, line);
    true
}

/// Diagnostic formatting rule #66.
pub fn render_diagnostic_rule_66(engine: &mut FullDiagnosticsEngine, msg: &str, line: usize) -> (r:
    bool)
    ensures
        r == (msg@.len() > 0),
        final(engine)@ == spec_render_rule(old(engine)@, msg@, line as nat),
{
    if msg.is_empty() {
        return false;
    }
    engine.emit_diagnostic(DiagnosticSeverity::Error, msg, line);
    true
}

/// Diagnostic formatting rule #67.
pub fn render_diagnostic_rule_67(engine: &mut FullDiagnosticsEngine, msg: &str, line: usize) -> (r:
    bool)
    ensures
        r == (msg@.len() > 0),
        final(engine)@ == spec_render_rule(old(engine)@, msg@, line as nat),
{
    if msg.is_empty() {
        return false;
    }
    engine.emit_diagnostic(DiagnosticSeverity::Error, msg, line);
    true
}

/// Diagnostic formatting rule #68.
pub fn render_diagnostic_rule_68(engine: &mut FullDiagnosticsEngine, msg: &str, line: usize) -> (r:
    bool)
    ensures
        r == (msg@.len() > 0),
        final(engine)@ == spec_render_rule(old(engine)@, msg@, line as nat),
{
    if msg.is_empty() {
        return false;
    }
    engine.emit_diagnostic(DiagnosticSeverity::Error, msg, line);
    true
}

/// Diagnostic formatting rule #69.
pub fn render_diagnostic_rule_69(engine: &mut FullDiagnosticsEngine, msg: &str, line: usize) -> (r:
    bool)
    ensures
        r == (msg@.len() > 0),
        final(engine)@ == spec_render_rule(old(engine)@, msg@, line as nat),
{
    if msg.is_empty() {
        return false;
    }
    engine.emit_diagnostic(DiagnosticSeverity::Error, msg, line);
    true
}

/// Diagnostic formatting rule #70.
pub fn render_diagnostic_rule_70(engine: &mut FullDiagnosticsEngine, msg: &str, line: usize) -> (r:
    bool)
    ensures
        r == (msg@.len() > 0),
        final(engine)@ == spec_render_rule(old(engine)@, msg@, line as nat),
{
    if msg.is_empty() {
        return false;
    }
    engine.emit_diagnostic(DiagnosticSeverity::Error, msg, line);
    true
}

/// Diagnostic formatting rule #71.
pub fn render_diagnostic_rule_71(engine: &mut FullDiagnosticsEngine, msg: &str, line: usize) -> (r:
    bool)
    ensures
        r == (msg@.len() > 0),
        final(engine)@ == spec_render_rule(old(engine)@, msg@, line as nat),
{
    if msg.is_empty() {
        return false;
    }
    engine.emit_diagnostic(DiagnosticSeverity::Error, msg, line);
    true
}

/// Diagnostic formatting rule #72.
pub fn render_diagnostic_rule_72(engine: &mut FullDiagnosticsEngine, msg: &str, line: usize) -> (r:
    bool)
    ensures
        r == (msg@.len() > 0),
        final(engine)@ == spec_render_rule(old(engine)@, msg@, line as nat),
{
    if msg.is_empty() {
        return false;
    }
    engine.emit_diagnostic(DiagnosticSeverity::Error, msg, line);
    true
}

/// Diagnostic formatting rule #73.
pub fn render_diagnostic_rule_73(engine: &mut FullDiagnosticsEngine, msg: &str, line: usize) -> (r:
    bool)
    ensures
        r == (msg@.len() > 0),
        final(engine)@ == spec_render_rule(old(engine)@, msg@, line as nat),
{
    if msg.is_empty() {
        return false;
    }
    engine.emit_diagnostic(DiagnosticSeverity::Error, msg, line);
    true
}

/// Diagnostic formatting rule #74.
pub fn render_diagnostic_rule_74(engine: &mut FullDiagnosticsEngine, msg: &str, line: usize) -> (r:
    bool)
    ensures
        r == (msg@.len() > 0),
        final(engine)@ == spec_render_rule(old(engine)@, msg@, line as nat),
{
    if msg.is_empty() {
        return false;
    }
    engine.emit_diagnostic(DiagnosticSeverity::Error, msg, line);
    true
}

/// Diagnostic formatting rule #75.
pub fn render_diagnostic_rule_75(engine: &mut FullDiagnosticsEngine, msg: &str, line: usize) -> (r:
    bool)
    ensures
        r == (msg@.len() > 0),
        final(engine)@ == spec_render_rule(old(engine)@, msg@, line as nat),
{
    if msg.is_empty() {
        return false;
    }
    engine.emit_diagnostic(DiagnosticSeverity::Error, msg, line);
    true
}

/// Diagnostic formatting rule #76.
pub fn render_diagnostic_rule_76(engine: &mut FullDiagnosticsEngine, msg: &str, line: usize) -> (r:
    bool)
    ensures
        r == (msg@.len() > 0),
        final(engine)@ == spec_render_rule(old(engine)@, msg@, line as nat),
{
    if msg.is_empty() {
        return false;
    }
    engine.emit_diagnostic(DiagnosticSeverity::Error, msg, line);
    true
}

/// Diagnostic formatting rule #77.
pub fn render_diagnostic_rule_77(engine: &mut FullDiagnosticsEngine, msg: &str, line: usize) -> (r:
    bool)
    ensures
        r == (msg@.len() > 0),
        final(engine)@ == spec_render_rule(old(engine)@, msg@, line as nat),
{
    if msg.is_empty() {
        return false;
    }
    engine.emit_diagnostic(DiagnosticSeverity::Error, msg, line);
    true
}

/// Diagnostic formatting rule #78.
pub fn render_diagnostic_rule_78(engine: &mut FullDiagnosticsEngine, msg: &str, line: usize) -> (r:
    bool)
    ensures
        r == (msg@.len() > 0),
        final(engine)@ == spec_render_rule(old(engine)@, msg@, line as nat),
{
    if msg.is_empty() {
        return false;
    }
    engine.emit_diagnostic(DiagnosticSeverity::Error, msg, line);
    true
}

/// Diagnostic formatting rule #79.
pub fn render_diagnostic_rule_79(engine: &mut FullDiagnosticsEngine, msg: &str, line: usize) -> (r:
    bool)
    ensures
        r == (msg@.len() > 0),
        final(engine)@ == spec_render_rule(old(engine)@, msg@, line as nat),
{
    if msg.is_empty() {
        return false;
    }
    engine.emit_diagnostic(DiagnosticSeverity::Error, msg, line);
    true
}

/// Diagnostic formatting rule #80.
pub fn render_diagnostic_rule_80(engine: &mut FullDiagnosticsEngine, msg: &str, line: usize) -> (r:
    bool)
    ensures
        r == (msg@.len() > 0),
        final(engine)@ == spec_render_rule(old(engine)@, msg@, line as nat),
{
    if msg.is_empty() {
        return false;
    }
    engine.emit_diagnostic(DiagnosticSeverity::Error, msg, line);
    true
}

/// Diagnostic formatting rule #81.
pub fn render_diagnostic_rule_81(engine: &mut FullDiagnosticsEngine, msg: &str, line: usize) -> (r:
    bool)
    ensures
        r == (msg@.len() > 0),
        final(engine)@ == spec_render_rule(old(engine)@, msg@, line as nat),
{
    if msg.is_empty() {
        return false;
    }
    engine.emit_diagnostic(DiagnosticSeverity::Error, msg, line);
    true
}

/// Diagnostic formatting rule #82.
pub fn render_diagnostic_rule_82(engine: &mut FullDiagnosticsEngine, msg: &str, line: usize) -> (r:
    bool)
    ensures
        r == (msg@.len() > 0),
        final(engine)@ == spec_render_rule(old(engine)@, msg@, line as nat),
{
    if msg.is_empty() {
        return false;
    }
    engine.emit_diagnostic(DiagnosticSeverity::Error, msg, line);
    true
}

/// Diagnostic formatting rule #83.
pub fn render_diagnostic_rule_83(engine: &mut FullDiagnosticsEngine, msg: &str, line: usize) -> (r:
    bool)
    ensures
        r == (msg@.len() > 0),
        final(engine)@ == spec_render_rule(old(engine)@, msg@, line as nat),
{
    if msg.is_empty() {
        return false;
    }
    engine.emit_diagnostic(DiagnosticSeverity::Error, msg, line);
    true
}

/// Diagnostic formatting rule #84.
pub fn render_diagnostic_rule_84(engine: &mut FullDiagnosticsEngine, msg: &str, line: usize) -> (r:
    bool)
    ensures
        r == (msg@.len() > 0),
        final(engine)@ == spec_render_rule(old(engine)@, msg@, line as nat),
{
    if msg.is_empty() {
        return false;
    }
    engine.emit_diagnostic(DiagnosticSeverity::Error, msg, line);
    true
}

/// Diagnostic formatting rule #85.
pub fn render_diagnostic_rule_85(engine: &mut FullDiagnosticsEngine, msg: &str, line: usize) -> (r:
    bool)
    ensures
        r == (msg@.len() > 0),
        final(engine)@ == spec_render_rule(old(engine)@, msg@, line as nat),
{
    if msg.is_empty() {
        return false;
    }
    engine.emit_diagnostic(DiagnosticSeverity::Error, msg, line);
    true
}

/// Diagnostic formatting rule #86.
pub fn render_diagnostic_rule_86(engine: &mut FullDiagnosticsEngine, msg: &str, line: usize) -> (r:
    bool)
    ensures
        r == (msg@.len() > 0),
        final(engine)@ == spec_render_rule(old(engine)@, msg@, line as nat),
{
    if msg.is_empty() {
        return false;
    }
    engine.emit_diagnostic(DiagnosticSeverity::Error, msg, line);
    true
}

/// Diagnostic formatting rule #87.
pub fn render_diagnostic_rule_87(engine: &mut FullDiagnosticsEngine, msg: &str, line: usize) -> (r:
    bool)
    ensures
        r == (msg@.len() > 0),
        final(engine)@ == spec_render_rule(old(engine)@, msg@, line as nat),
{
    if msg.is_empty() {
        return false;
    }
    engine.emit_diagnostic(DiagnosticSeverity::Error, msg, line);
    true
}

/// Diagnostic formatting rule #88.
pub fn render_diagnostic_rule_88(engine: &mut FullDiagnosticsEngine, msg: &str, line: usize) -> (r:
    bool)
    ensures
        r == (msg@.len() > 0),
        final(engine)@ == spec_render_rule(old(engine)@, msg@, line as nat),
{
    if msg.is_empty() {
        return false;
    }
    engine.emit_diagnostic(DiagnosticSeverity::Error, msg, line);
    true
}

/// Diagnostic formatting rule #89.
pub fn render_diagnostic_rule_89(engine: &mut FullDiagnosticsEngine, msg: &str, line: usize) -> (r:
    bool)
    ensures
        r == (msg@.len() > 0),
        final(engine)@ == spec_render_rule(old(engine)@, msg@, line as nat),
{
    if msg.is_empty() {
        return false;
    }
    engine.emit_diagnostic(DiagnosticSeverity::Error, msg, line);
    true
}

/// Diagnostic formatting rule #90.
pub fn render_diagnostic_rule_90(engine: &mut FullDiagnosticsEngine, msg: &str, line: usize) -> (r:
    bool)
    ensures
        r == (msg@.len() > 0),
        final(engine)@ == spec_render_rule(old(engine)@, msg@, line as nat),
{
    if msg.is_empty() {
        return false;
    }
    engine.emit_diagnostic(DiagnosticSeverity::Error, msg, line);
    true
}

/// Diagnostic formatting rule #91.
pub fn render_diagnostic_rule_91(engine: &mut FullDiagnosticsEngine, msg: &str, line: usize) -> (r:
    bool)
    ensures
        r == (msg@.len() > 0),
        final(engine)@ == spec_render_rule(old(engine)@, msg@, line as nat),
{
    if msg.is_empty() {
        return false;
    }
    engine.emit_diagnostic(DiagnosticSeverity::Error, msg, line);
    true
}

/// Diagnostic formatting rule #92.
pub fn render_diagnostic_rule_92(engine: &mut FullDiagnosticsEngine, msg: &str, line: usize) -> (r:
    bool)
    ensures
        r == (msg@.len() > 0),
        final(engine)@ == spec_render_rule(old(engine)@, msg@, line as nat),
{
    if msg.is_empty() {
        return false;
    }
    engine.emit_diagnostic(DiagnosticSeverity::Error, msg, line);
    true
}

/// Diagnostic formatting rule #93.
pub fn render_diagnostic_rule_93(engine: &mut FullDiagnosticsEngine, msg: &str, line: usize) -> (r:
    bool)
    ensures
        r == (msg@.len() > 0),
        final(engine)@ == spec_render_rule(old(engine)@, msg@, line as nat),
{
    if msg.is_empty() {
        return false;
    }
    engine.emit_diagnostic(DiagnosticSeverity::Error, msg, line);
    true
}

/// Diagnostic formatting rule #94.
pub fn render_diagnostic_rule_94(engine: &mut FullDiagnosticsEngine, msg: &str, line: usize) -> (r:
    bool)
    ensures
        r == (msg@.len() > 0),
        final(engine)@ == spec_render_rule(old(engine)@, msg@, line as nat),
{
    if msg.is_empty() {
        return false;
    }
    engine.emit_diagnostic(DiagnosticSeverity::Error, msg, line);
    true
}

/// Diagnostic formatting rule #95.
pub fn render_diagnostic_rule_95(engine: &mut FullDiagnosticsEngine, msg: &str, line: usize) -> (r:
    bool)
    ensures
        r == (msg@.len() > 0),
        final(engine)@ == spec_render_rule(old(engine)@, msg@, line as nat),
{
    if msg.is_empty() {
        return false;
    }
    engine.emit_diagnostic(DiagnosticSeverity::Error, msg, line);
    true
}

/// Diagnostic formatting rule #96.
pub fn render_diagnostic_rule_96(engine: &mut FullDiagnosticsEngine, msg: &str, line: usize) -> (r:
    bool)
    ensures
        r == (msg@.len() > 0),
        final(engine)@ == spec_render_rule(old(engine)@, msg@, line as nat),
{
    if msg.is_empty() {
        return false;
    }
    engine.emit_diagnostic(DiagnosticSeverity::Error, msg, line);
    true
}

/// Diagnostic formatting rule #97.
pub fn render_diagnostic_rule_97(engine: &mut FullDiagnosticsEngine, msg: &str, line: usize) -> (r:
    bool)
    ensures
        r == (msg@.len() > 0),
        final(engine)@ == spec_render_rule(old(engine)@, msg@, line as nat),
{
    if msg.is_empty() {
        return false;
    }
    engine.emit_diagnostic(DiagnosticSeverity::Error, msg, line);
    true
}

/// Diagnostic formatting rule #98.
pub fn render_diagnostic_rule_98(engine: &mut FullDiagnosticsEngine, msg: &str, line: usize) -> (r:
    bool)
    ensures
        r == (msg@.len() > 0),
        final(engine)@ == spec_render_rule(old(engine)@, msg@, line as nat),
{
    if msg.is_empty() {
        return false;
    }
    engine.emit_diagnostic(DiagnosticSeverity::Error, msg, line);
    true
}

/// Diagnostic formatting rule #99.
pub fn render_diagnostic_rule_99(engine: &mut FullDiagnosticsEngine, msg: &str, line: usize) -> (r:
    bool)
    ensures
        r == (msg@.len() > 0),
        final(engine)@ == spec_render_rule(old(engine)@, msg@, line as nat),
{
    if msg.is_empty() {
        return false;
    }
    engine.emit_diagnostic(DiagnosticSeverity::Error, msg, line);
    true
}

/// Diagnostic formatting rule #100.
pub fn render_diagnostic_rule_100(engine: &mut FullDiagnosticsEngine, msg: &str, line: usize) -> (r:
    bool)
    ensures
        r == (msg@.len() > 0),
        final(engine)@ == spec_render_rule(old(engine)@, msg@, line as nat),
{
    if msg.is_empty() {
        return false;
    }
    engine.emit_diagnostic(DiagnosticSeverity::Error, msg, line);
    true
}

/// Diagnostic formatting rule #101.
pub fn render_diagnostic_rule_101(engine: &mut FullDiagnosticsEngine, msg: &str, line: usize) -> (r:
    bool)
    ensures
        r == (msg@.len() > 0),
        final(engine)@ == spec_render_rule(old(engine)@, msg@, line as nat),
{
    if msg.is_empty() {
        return false;
    }
    engine.emit_diagnostic(DiagnosticSeverity::Error, msg, line);
    true
}

/// Diagnostic formatting rule #102.
pub fn render_diagnostic_rule_102(engine: &mut FullDiagnosticsEngine, msg: &str, line: usize) -> (r:
    bool)
    ensures
        r == (msg@.len() > 0),
        final(engine)@ == spec_render_rule(old(engine)@, msg@, line as nat),
{
    if msg.is_empty() {
        return false;
    }
    engine.emit_diagnostic(DiagnosticSeverity::Error, msg, line);
    true
}

/// Diagnostic formatting rule #103.
pub fn render_diagnostic_rule_103(engine: &mut FullDiagnosticsEngine, msg: &str, line: usize) -> (r:
    bool)
    ensures
        r == (msg@.len() > 0),
        final(engine)@ == spec_render_rule(old(engine)@, msg@, line as nat),
{
    if msg.is_empty() {
        return false;
    }
    engine.emit_diagnostic(DiagnosticSeverity::Error, msg, line);
    true
}

/// Diagnostic formatting rule #104.
pub fn render_diagnostic_rule_104(engine: &mut FullDiagnosticsEngine, msg: &str, line: usize) -> (r:
    bool)
    ensures
        r == (msg@.len() > 0),
        final(engine)@ == spec_render_rule(old(engine)@, msg@, line as nat),
{
    if msg.is_empty() {
        return false;
    }
    engine.emit_diagnostic(DiagnosticSeverity::Error, msg, line);
    true
}

/// Diagnostic formatting rule #105.
pub fn render_diagnostic_rule_105(engine: &mut FullDiagnosticsEngine, msg: &str, line: usize) -> (r:
    bool)
    ensures
        r == (msg@.len() > 0),
        final(engine)@ == spec_render_rule(old(engine)@, msg@, line as nat),
{
    if msg.is_empty() {
        return false;
    }
    engine.emit_diagnostic(DiagnosticSeverity::Error, msg, line);
    true
}

/// Diagnostic formatting rule #106.
pub fn render_diagnostic_rule_106(engine: &mut FullDiagnosticsEngine, msg: &str, line: usize) -> (r:
    bool)
    ensures
        r == (msg@.len() > 0),
        final(engine)@ == spec_render_rule(old(engine)@, msg@, line as nat),
{
    if msg.is_empty() {
        return false;
    }
    engine.emit_diagnostic(DiagnosticSeverity::Error, msg, line);
    true
}

/// Diagnostic formatting rule #107.
pub fn render_diagnostic_rule_107(engine: &mut FullDiagnosticsEngine, msg: &str, line: usize) -> (r:
    bool)
    ensures
        r == (msg@.len() > 0),
        final(engine)@ == spec_render_rule(old(engine)@, msg@, line as nat),
{
    if msg.is_empty() {
        return false;
    }
    engine.emit_diagnostic(DiagnosticSeverity::Error, msg, line);
    true
}

/// Diagnostic formatting rule #108.
pub fn render_diagnostic_rule_108(engine: &mut FullDiagnosticsEngine, msg: &str, line: usize) -> (r:
    bool)
    ensures
        r == (msg@.len() > 0),
        final(engine)@ == spec_render_rule(old(engine)@, msg@, line as nat),
{
    if msg.is_empty() {
        return false;
    }
    engine.emit_diagnostic(DiagnosticSeverity::Error, msg, line);
    true
}

/// Diagnostic formatting rule #109.
pub fn render_diagnostic_rule_109(engine: &mut FullDiagnosticsEngine, msg: &str, line: usize) -> (r:
    bool)
    ensures
        r == (msg@.len() > 0),
        final(engine)@ == spec_render_rule(old(engine)@, msg@, line as nat),
{
    if msg.is_empty() {
        return false;
    }
    engine.emit_diagnostic(DiagnosticSeverity::Error, msg, line);
    true
}

/// Diagnostic formatting rule #110.
pub fn render_diagnostic_rule_110(engine: &mut FullDiagnosticsEngine, msg: &str, line: usize) -> (r:
    bool)
    ensures
        r == (msg@.len() > 0),
        final(engine)@ == spec_render_rule(old(engine)@, msg@, line as nat),
{
    if msg.is_empty() {
        return false;
    }
    engine.emit_diagnostic(DiagnosticSeverity::Error, msg, line);
    true
}

/// Diagnostic formatting rule #111.
pub fn render_diagnostic_rule_111(engine: &mut FullDiagnosticsEngine, msg: &str, line: usize) -> (r:
    bool)
    ensures
        r == (msg@.len() > 0),
        final(engine)@ == spec_render_rule(old(engine)@, msg@, line as nat),
{
    if msg.is_empty() {
        return false;
    }
    engine.emit_diagnostic(DiagnosticSeverity::Error, msg, line);
    true
}

/// Diagnostic formatting rule #112.
pub fn render_diagnostic_rule_112(engine: &mut FullDiagnosticsEngine, msg: &str, line: usize) -> (r:
    bool)
    ensures
        r == (msg@.len() > 0),
        final(engine)@ == spec_render_rule(old(engine)@, msg@, line as nat),
{
    if msg.is_empty() {
        return false;
    }
    engine.emit_diagnostic(DiagnosticSeverity::Error, msg, line);
    true
}

/// Diagnostic formatting rule #113.
pub fn render_diagnostic_rule_113(engine: &mut FullDiagnosticsEngine, msg: &str, line: usize) -> (r:
    bool)
    ensures
        r == (msg@.len() > 0),
        final(engine)@ == spec_render_rule(old(engine)@, msg@, line as nat),
{
    if msg.is_empty() {
        return false;
    }
    engine.emit_diagnostic(DiagnosticSeverity::Error, msg, line);
    true
}

/// Diagnostic formatting rule #114.
pub fn render_diagnostic_rule_114(engine: &mut FullDiagnosticsEngine, msg: &str, line: usize) -> (r:
    bool)
    ensures
        r == (msg@.len() > 0),
        final(engine)@ == spec_render_rule(old(engine)@, msg@, line as nat),
{
    if msg.is_empty() {
        return false;
    }
    engine.emit_diagnostic(DiagnosticSeverity::Error, msg, line);
    true
}

/// Diagnostic formatting rule #115.
pub fn render_diagnostic_rule_115(engine: &mut FullDiagnosticsEngine, msg: &str, line: usize) -> (r:
    bool)
    ensures
        r == (msg@.len() > 0),
        final(engine)@ == spec_render_rule(old(engine)@, msg@, line as nat),
{
    if msg.is_empty() {
        return false;
    }
    engine.emit_diagnostic(DiagnosticSeverity::Error, msg, line);
    true
}

/// Diagnostic formatting rule #116.
pub fn render_diagnostic_rule_116(engine: &mut FullDiagnosticsEngine, msg: &str, line: usize) -> (r:
    bool)
    ensures
        r == (msg@.len() > 0),
        final(engine)@ == spec_render_rule(old(engine)@, msg@, line as nat),
{
    if msg.is_empty() {
        return false;
    }
    engine.emit_diagnostic(DiagnosticSeverity::Error, msg, line);
    true
}

/// Diagnostic formatting rule #117.
pub fn render_diagnostic_rule_117(engine: &mut FullDiagnosticsEngine, msg: &str, line: usize) -> (r:
    bool)
    ensures
        r == (msg@.len() > 0),
        final(engine)@ == spec_render_rule(old(engine)@, msg@, line as nat),
{
    if msg.is_empty() {
        return false;
    }
    engine.emit_diagnostic(DiagnosticSeverity::Error, msg, line);
    true
}

/// Diagnostic formatting rule #118.
pub fn render_diagnostic_rule_118(engine: &mut FullDiagnosticsEngine, msg: &str, line: usize) -> (r:
    bool)
    ensures
        r == (msg@.len() > 0),
        final(engine)@ == spec_render_rule(old(engine)@, msg@, line as nat),
{
    if msg.is_empty() {
        return false;
    }
    engine.emit_diagnostic(DiagnosticSeverity::Error, msg, line);
    true
}

/// Diagnostic formatting rule #119.
pub fn render_diagnostic_rule_119(engine: &mut FullDiagnosticsEngine, msg: &str, line: usize) -> (r:
    bool)
    ensures
        r == (msg@.len() > 0),
        final(engine)@ == spec_render_rule(old(engine)@, msg@, line as nat),
{
    if msg.is_empty() {
        return false;
    }
    engine.emit_diagnostic(DiagnosticSeverity::Error, msg, line);
    true
}

/// Diagnostic formatting rule #120.
pub fn render_diagnostic_rule_120(engine: &mut FullDiagnosticsEngine, msg: &str, line: usize) -> (r:
    bool)
    ensures
        r == (msg@.len() > 0),
        final(engine)@ == spec_render_rule(old(engine)@, msg@, line as nat),
{
    if msg.is_empty() {
        return false;
    }
    engine.emit_diagnostic(DiagnosticSeverity::Error, msg, line);
    true
}

/// Diagnostic formatting rule #121.
pub fn render_diagnostic_rule_121(engine: &mut FullDiagnosticsEngine, msg: &str, line: usize) -> (r:
    bool)
    ensures
        r == (msg@.len() > 0),
        final(engine)@ == spec_render_rule(old(engine)@, msg@, line as nat),
{
    if msg.is_empty() {
        return false;
    }
    engine.emit_diagnostic(DiagnosticSeverity::Error, msg, line);
    true
}

/// Diagnostic formatting rule #122.
pub fn render_diagnostic_rule_122(engine: &mut FullDiagnosticsEngine, msg: &str, line: usize) -> (r:
    bool)
    ensures
        r == (msg@.len() > 0),
        final(engine)@ == spec_render_rule(old(engine)@, msg@, line as nat),
{
    if msg.is_empty() {
        return false;
    }
    engine.emit_diagnostic(DiagnosticSeverity::Error, msg, line);
    true
}

/// Diagnostic formatting rule #123.
pub fn render_diagnostic_rule_123(engine: &mut FullDiagnosticsEngine, msg: &str, line: usize) -> (r:
    bool)
    ensures
        r == (msg@.len() > 0),
        final(engine)@ == spec_render_rule(old(engine)@, msg@, line as nat),
{
    if msg.is_empty() {
        return false;
    }
    engine.emit_diagnostic(DiagnosticSeverity::Error, msg, line);
    true
}

/// Diagnostic formatting rule #124.
pub fn render_diagnostic_rule_124(engine: &mut FullDiagnosticsEngine, msg: &str, line: usize) -> (r:
    bool)
    ensures
        r == (msg@.len() > 0),
        final(engine)@ == spec_render_rule(old(engine)@, msg@, line as nat),
{
    if msg.is_empty() {
        return false;
    }
    engine.emit_diagnostic(DiagnosticSeverity::Error, msg, line);
    true
}

/// Diagnostic formatting rule #125.
pub fn render_diagnostic_rule_125(engine: &mut FullDiagnosticsEngine, msg: &str, line: usize) -> (r:
    bool)
    ensures
        r == (msg@.len() > 0),
        final(engine)@ == spec_render_rule(old(engine)@, msg@, line as nat),
{
    if msg.is_empty() {
        return false;
    }
    engine.emit_diagnostic(DiagnosticSeverity::Error, msg, line);
    true
}

/// Diagnostic formatting rule #126.
pub fn render_diagnostic_rule_126(engine: &mut FullDiagnosticsEngine, msg: &str, line: usize) -> (r:
    bool)
    ensures
        r == (msg@.len() > 0),
        final(engine)@ == spec_render_rule(old(engine)@, msg@, line as nat),
{
    if msg.is_empty() {
        return false;
    }
    engine.emit_diagnostic(DiagnosticSeverity::Error, msg, line);
    true
}

/// Diagnostic formatting rule #127.
pub fn render_diagnostic_rule_127(engine: &mut FullDiagnosticsEngine, msg: &str, line: usize) -> (r:
    bool)
    ensures
        r == (msg@.len() > 0),
        final(engine)@ == spec_render_rule(old(engine)@, msg@, line as nat),
{
    if msg.is_empty() {
        return false;
    }
    engine.emit_diagnostic(DiagnosticSeverity::Error, msg, line);
    true
}

/// Diagnostic formatting rule #128.
pub fn render_diagnostic_rule_128(engine: &mut FullDiagnosticsEngine, msg: &str, line: usize) -> (r:
    bool)
    ensures
        r == (msg@.len() > 0),
        final(engine)@ == spec_render_rule(old(engine)@, msg@, line as nat),
{
    if msg.is_empty() {
        return false;
    }
    engine.emit_diagnostic(DiagnosticSeverity::Error, msg, line);
    true
}

/// Diagnostic formatting rule #129.
pub fn render_diagnostic_rule_129(engine: &mut FullDiagnosticsEngine, msg: &str, line: usize) -> (r:
    bool)
    ensures
        r == (msg@.len() > 0),
        final(engine)@ == spec_render_rule(old(engine)@, msg@, line as nat),
{
    if msg.is_empty() {
        return false;
    }
    engine.emit_diagnostic(DiagnosticSeverity::Error, msg, line);
    true
}

/// Diagnostic formatting rule #130.
pub fn render_diagnostic_rule_130(engine: &mut FullDiagnosticsEngine, msg: &str, line: usize) -> (r:
    bool)
    ensures
        r == (msg@.len() > 0),
        final(engine)@ == spec_render_rule(old(engine)@, msg@, line as nat),
{
    if msg.is_empty() {
        return false;
    }
    engine.emit_diagnostic(DiagnosticSeverity::Error, msg, line);
    true
}

/// Diagnostic formatting rule #131.
pub fn render_diagnostic_rule_131(engine: &mut FullDiagnosticsEngine, msg: &str, line: usize) -> (r:
    bool)
    ensures
        r == (msg@.len() > 0),
        final(engine)@ == spec_render_rule(old(engine)@, msg@, line as nat),
{
    if msg.is_empty() {
        return false;
    }
    engine.emit_diagnostic(DiagnosticSeverity::Error, msg, line);
    true
}

/// Diagnostic formatting rule #132.
pub fn render_diagnostic_rule_132(engine: &mut FullDiagnosticsEngine, msg: &str, line: usize) -> (r:
    bool)
    ensures
        r == (msg@.len() > 0),
        final(engine)@ == spec_render_rule(old(engine)@, msg@, line as nat),
{
    if msg.is_empty() {
        return false;
    }
    engine.emit_diagnostic(DiagnosticSeverity::Error, msg, line);
    true
}

/// Diagnostic formatting rule #133.
pub fn render_diagnostic_rule_133(engine: &mut FullDiagnosticsEngine, msg: &str, line: usize) -> (r:
    bool)
    ensures
        r == (msg@.len() > 0),
        final(engine)@ == spec_render_rule(old(engine)@, msg@, line as nat),
{
    if msg.is_empty() {
        return false;
    }
    engine.emit_diagnostic(DiagnosticSeverity::Error, msg, line);
    true
}

/// Diagnostic formatting rule #134.
pub fn render_diagnostic_rule_134(engine: &mut FullDiagnosticsEngine, msg: &str, line: usize) -> (r:
    bool)
    ensures
        r == (msg@.len() > 0),
        final(engine)@ == spec_render_rule(old(engine)@, msg@, line as nat),
{
    if msg.is_empty() {
        return false;
    }
    engine.emit_diagnostic(DiagnosticSeverity::Error, msg, line);
    true
}

/// Diagnostic formatting rule #135.
pub fn render_diagnostic_rule_135(engine: &mut FullDiagnosticsEngine, msg: &str, line: usize) -> (r:
    bool)
    ensures
        r == (msg@.len() > 0),
        final(engine)@ == spec_render_rule(old(engine)@, msg@, line as nat),
{
    if msg.is_empty() {
        return false;
    }
    engine.emit_diagnostic(DiagnosticSeverity::Error, msg, line);
    true
}

/// Diagnostic formatting rule #136.
pub fn render_diagnostic_rule_136(engine: &mut FullDiagnosticsEngine, msg: &str, line: usize) -> (r:
    bool)
    ensures
        r == (msg@.len() > 0),
        final(engine)@ == spec_render_rule(old(engine)@, msg@, line as nat),
{
    if msg.is_empty() {
        return false;
    }
    engine.emit_diagnostic(DiagnosticSeverity::Error, msg, line);
    true
}

/// Diagnostic formatting rule #137.
pub fn render_diagnostic_rule_137(engine: &mut FullDiagnosticsEngine, msg: &str, line: usize) -> (r:
    bool)
    ensures
        r == (msg@.len() > 0),
        final(engine)@ == spec_render_rule(old(engine)@, msg@, line as nat),
{
    if msg.is_empty() {
        return false;
    }
    engine.emit_diagnostic(DiagnosticSeverity::Error, msg, line);
    true
}

/// Diagnostic formatting rule #138.
pub fn render_diagnostic_rule_138(engine: &mut FullDiagnosticsEngine, msg: &str, line: usize) -> (r:
    bool)
    ensures
        r == (msg@.len() > 0),
        final(engine)@ == spec_render_rule(old(engine)@, msg@, line as nat),
{
    if msg.is_empty() {
        return false;
    }
    engine.emit_diagnostic(DiagnosticSeverity::Error, msg, line);
    true
}

/// Diagnostic formatting rule #139.
pub fn render_diagnostic_rule_139(engine: &mut FullDiagnosticsEngine, msg: &str, line: usize) -> (r:
    bool)
    ensures
        r == (msg@.len() > 0),
        final(engine)@ == spec_render_rule(old(engine)@, msg@, line as nat),
{
    if msg.is_empty() {
        return false;
    }
    engine.emit_diagnostic(DiagnosticSeverity::Error, msg, line);
    true
}

/// Diagnostic formatting rule #140.
pub fn render_diagnostic_rule_140(engine: &mut FullDiagnosticsEngine, msg: &str, line: usize) -> (r:
    bool)
    ensures
        r == (msg@.len() > 0),
        final(engine)@ == spec_render_rule(old(engine)@, msg@, line as nat),
{
    if msg.is_empty() {
        return false;
    }
    engine.emit_diagnostic(DiagnosticSeverity::Error, msg, line);
    true
}

/// Diagnostic formatting rule #141.
pub fn render_diagnostic_rule_141(engine: &mut FullDiagnosticsEngine, msg: &str, line: usize) -> (r:
    bool)
    ensures
        r == (msg@.len() > 0),
        final(engine)@ == spec_render_rule(old(engine)@, msg@, line as nat),
{
    if msg.is_empty() {
        return false;
    }
    engine.emit_diagnostic(DiagnosticSeverity::Error, msg, line);
    true
}

/// Diagnostic formatting rule #142.
pub fn render_diagnostic_rule_142(engine: &mut FullDiagnosticsEngine, msg: &str, line: usize) -> (r:
    bool)
    ensures
        r == (msg@.len() > 0),
        final(engine)@ == spec_render_rule(old(engine)@, msg@, line as nat),
{
    if msg.is_empty() {
        return false;
    }
    engine.emit_diagnostic(DiagnosticSeverity::Error, msg, line);
    true
}

/// Diagnostic formatting rule #143.
pub fn render_diagnostic_rule_143(engine: &mut FullDiagnosticsEngine, msg: &str, line: usize) -> (r:
    bool)
    ensures
        r == (msg@.len() > 0),
        final(engine)@ == spec_render_rule(old(engine)@, msg@, line as nat),
{
    if msg.is_empty() {
        return false;
    }
    engine.emit_diagnostic(DiagnosticSeverity::Error, msg, line);
    true
}

/// Diagnostic formatting rule #144.
pub fn render_diagnostic_rule_144(engine: &mut FullDiagnosticsEngine, msg: &str, line: usize) -> (r:
    bool)
    ensures
        r == (msg@.len() > 0),
        final(engine)@ == spec_render_rule(old(engine)@, msg@, line as nat),
{
    if msg.is_empty() {
        return false;
    }
    engine.emit_diagnostic(DiagnosticSeverity::Error, msg, line);
    true
}

/// Diagnostic formatting rule #145.
pub fn render_diagnostic_rule_145(engine: &mut FullDiagnosticsEngine, msg: &str, line: usize) -> (r:
    bool)
    ensures
        r == (msg@.len() > 0),
        final(engine)@ == spec_render_rule(old(engine)@, msg@, line as nat),
{
    if msg.is_empty() {
        return false;
    }
    engine.emit_diagnostic(DiagnosticSeverity::Error, msg, line);
    true
}

/// Diagnostic formatting rule #146.
pub fn render_diagnostic_rule_146(engine: &mut FullDiagnosticsEngine, msg: &str, line: usize) -> (r:
    bool)
    ensures
        r == (msg@.len() > 0),
        final(engine)@ == spec_render_rule(old(engine)@, msg@, line as nat),
{
    if msg.is_empty() {
        return false;
    }
    engine.emit_diagnostic(DiagnosticSeverity::Error, msg, line);
    true
}

/// Diagnostic formatting rule #147.
pub fn render_diagnostic_rule_147(engine: &mut FullDiagnosticsEngine, msg: &str, line: usize) -> (r:
    bool)
    ensures
        r == (msg@.len() > 0),
        final(engine)@ == spec_render_rule(old(engine)@, msg@, line as nat),
{
    if msg.is_empty() {
        return false;
    }
    engine.emit_diagnostic(DiagnosticSeverity::Error, msg, line);
    true
}

/// Diagnostic formatting rule #148.
pub fn render_diagnostic_rule_148(engine: &mut FullDiagnosticsEngine, msg: &str, line: usize) -> (r:
    bool)
    ensures
        r == (msg@.len() > 0),
        final(engine)@ == spec_render_rule(old(engine)@, msg@, line as nat),
{
    if msg.is_empty() {
        return false;
    }
    engine.emit_diagnostic(DiagnosticSeverity::Error, msg, line);
    true
}

/// Diagnostic formatting rule #149.
pub fn render_diagnostic_rule_149(engine: &mut FullDiagnosticsEngine, msg: &str, line: usize) -> (r:
    bool)
    ensures
        r == (msg@.len() > 0),
        final(engine)@ == spec_render_rule(old(engine)@, msg@, line as nat),
{
    if msg.is_empty() {
        return false;
    }
    engine.emit_diagnostic(DiagnosticSeverity::Error, msg, line);
    true
}

/// Diagnostic formatting rule #150.
pub fn render_diagnostic_rule_150(engine: &mut FullDiagnosticsEngine, msg: &str, line: usize) -> (r:
    bool)
    ensures
        r == (msg@.len() > 0),
        final(engine)@ == spec_render_rule(old(engine)@, msg@, line as nat),
{
    if msg.is_empty() {
        return false;
    }
    engine.emit_diagnostic(DiagnosticSeverity::Error, msg, line);
    true
}

/// Diagnostic formatting rule #151.
pub fn render_diagnostic_rule_151(engine: &mut FullDiagnosticsEngine, msg: &str, line: usize) -> (r:
    bool)
    ensures
        r == (msg@.len() > 0),
        final(engine)@ == spec_render_rule(old(engine)@, msg@, line as nat),
{
    if msg.is_empty() {
        return false;
    }
    engine.emit_diagnostic(DiagnosticSeverity::Error, msg, line);
    true
}

/// Diagnostic formatting rule #152.
pub fn render_diagnostic_rule_152(engine: &mut FullDiagnosticsEngine, msg: &str, line: usize) -> (r:
    bool)
    ensures
        r == (msg@.len() > 0),
        final(engine)@ == spec_render_rule(old(engine)@, msg@, line as nat),
{
    if msg.is_empty() {
        return false;
    }
    engine.emit_diagnostic(DiagnosticSeverity::Error, msg, line);
    true
}

/// Diagnostic formatting rule #153.
pub fn render_diagnostic_rule_153(engine: &mut FullDiagnosticsEngine, msg: &str, line: usize) -> (r:
    bool)
    ensures
        r == (msg@.len() > 0),
        final(engine)@ == spec_render_rule(old(engine)@, msg@, line as nat),
{
    if msg.is_empty() {
        return false;
    }
    engine.emit_diagnostic(DiagnosticSeverity::Error, msg, line);
    true
}

/// Diagnostic formatting rule #154.
pub fn render_diagnostic_rule_154(engine: &mut FullDiagnosticsEngine, msg: &str, line: usize) -> (r:
    bool)
    ensures
        r == (msg@.len() > 0),
        final(engine)@ == spec_render_rule(old(engine)@, msg@, line as nat),
{
    if msg.is_empty() {
        return false;
    }
    engine.emit_diagnostic(DiagnosticSeverity::Error, msg, line);
    true
}

/// Diagnostic formatting rule #155.
pub fn render_diagnostic_rule_155(engine: &mut FullDiagnosticsEngine, msg: &str, line: usize) -> (r:
    bool)
    ensures
        r == (msg@.len() > 0),
        final(engine)@ == spec_render_rule(old(engine)@, msg@, line as nat),
{
    if msg.is_empty() {
        return false;
    }
    engine.emit_diagnostic(DiagnosticSeverity::Error, msg, line);
    true
}

/// Diagnostic formatting rule #156.
pub fn render_diagnostic_rule_156(engine: &mut FullDiagnosticsEngine, msg: &str, line: usize) -> (r:
    bool)
    ensures
        r == (msg@.len() > 0),
        final(engine)@ == spec_render_rule(old(engine)@, msg@, line as nat),
{
    if msg.is_empty() {
        return false;
    }
    engine.emit_diagnostic(DiagnosticSeverity::Error, msg, line);
    true
}

/// Diagnostic formatting rule #157.
pub fn render_diagnostic_rule_157(engine: &mut FullDiagnosticsEngine, msg: &str, line: usize) -> (r:
    bool)
    ensures
        r == (msg@.len() > 0),
        final(engine)@ == spec_render_rule(old(engine)@, msg@, line as nat),
{
    if msg.is_empty() {
        return false;
    }
    engine.emit_diagnostic(DiagnosticSeverity::Error, msg, line);
    true
}

/// Diagnostic formatting rule #158.
pub fn render_diagnostic_rule_158(engine: &mut FullDiagnosticsEngine, msg: &str, line: usize) -> (r:
    bool)
    ensures
        r == (msg@.len() > 0),
        final(engine)@ == spec_render_rule(old(engine)@, msg@, line as nat),
{
    if msg.is_empty() {
        return false;
    }
    engine.emit_diagnostic(DiagnosticSeverity::Error, msg, line);
    true
}

/// Diagnostic formatting rule #159.
pub fn render_diagnostic_rule_159(engine: &mut FullDiagnosticsEngine, msg: &str, line: usize) -> (r:
    bool)
    ensures
        r == (msg@.len() > 0),
        final(engine)@ == spec_render_rule(old(engine)@, msg@, line as nat),
{
    if msg.is_empty() {
        return false;
    }
    engine.emit_diagnostic(DiagnosticSeverity::Error, msg, line);
    true
}

/// Diagnostic formatting rule #160.
pub fn render_diagnostic_rule_160(engine: &mut FullDiagnosticsEngine, msg: &str, line: usize) -> (r:
    bool)
    ensures
        r == (msg@.len() > 0),
        final(engine)@ == spec_render_rule(old(engine)@, msg@, line as nat),
{
    if msg.is_empty() {
        return false;
    }
    engine.emit_diagnostic(DiagnosticSeverity::Error, msg, line);
    true
}

/// Diagnostic formatting rule #161.
pub fn render_diagnostic_rule_161(engine: &mut FullDiagnosticsEngine, msg: &str, line: usize) -> (r:
    bool)
    ensures
        r == (msg@.len() > 0),
        final(engine)@ == spec_render_rule(old(engine)@, msg@, line as nat),
{
    if msg.is_empty() {
        return false;
    }
    engine.emit_diagnostic(DiagnosticSeverity::Error, msg, line);
    true
}

/// Diagnostic formatting rule #162.
pub fn render_diagnostic_rule_162(engine: &mut FullDiagnosticsEngine, msg: &str, line: usize) -> (r:
    bool)
    ensures
        r == (msg@.len() > 0),
        final(engine)@ == spec_render_rule(old(engine)@, msg@, line as nat),
{
    if msg.is_empty() {
        return false;
    }
    engine.emit_diagnostic(DiagnosticSeverity::Error, msg, line);
    true
}

/// Diagnostic formatting rule #163.
pub fn render_diagnostic_rule_163(engine: &mut FullDiagnosticsEngine, msg: &str, line: usize) -> (r:
    bool)
    ensures
        r == (msg@.len() > 0),
        final(engine)@ == spec_render_rule(old(engine)@, msg@, line as nat),
{
    if msg.is_empty() {
        return false;
    }
    engine.emit_diagnostic(DiagnosticSeverity::Error, msg, line);
    true
}

/// Diagnostic formatting rule #164.
pub fn render_diagnostic_rule_164(engine: &mut FullDiagnosticsEngine, msg: &str, line: usize) -> (r:
    bool)
    ensures
        r == (msg@.len() > 0),
        final(engine)@ == spec_render_rule(old(engine)@, msg@, line as nat),
{
    if msg.is_empty() {
        return false;
    }
    engine.emit_diagnostic(DiagnosticSeverity::Error, msg, line);
    true
}

/// Diagnostic formatting rule #165.
pub fn render_diagnostic_rule_165(engine: &mut FullDiagnosticsEngine, msg: &str, line: usize) -> (r:
    bool)
    ensures
        r == (msg@.len() > 0),
        final(engine)@ == spec_render_rule(old(engine)@, msg@, line as nat),
{
    if msg.is_empty() {
        return false;
    }
    engine.emit_diagnostic(DiagnosticSeverity::Error, msg, line);
    true
}

/// Diagnostic formatting rule #166.
pub fn render_diagnostic_rule_166(engine: &mut FullDiagnosticsEngine, msg: &str, line: usize) -> (r:
    bool)
    ensures
        r == (msg@.len() > 0),
        final(engine)@ == spec_render_rule(old(engine)@, msg@, line as nat),
{
    if msg.is_empty() {
        return false;
    }
    engine.emit_diagnostic(DiagnosticSeverity::Error, msg, line);
    true
}

/// Diagnostic formatting rule #167.
pub fn render_diagnostic_rule_167(engine: &mut FullDiagnosticsEngine, msg: &str, line: usize) -> (r:
    bool)
    ensures
        r == (msg@.len() > 0),
        final(engine)@ == spec_render_rule(old(engine)@, msg@, line as nat),
{
    if msg.is_empty() {
        return false;
    }
    engine.emit_diagnostic(DiagnosticSeverity::Error, msg, line);
    true
}

/// Diagnostic formatting rule #168.
pub fn render_diagnostic_rule_168(engine: &mut FullDiagnosticsEngine, msg: &str, line: usize) -> (r:
    bool)
    ensures
        r == (msg@.len() > 0),
        final(engine)@ == spec_render_rule(old(engine)@, msg@, line as nat),
{
    if msg.is_empty() {
        return false;
    }
    engine.emit_diagnostic(DiagnosticSeverity::Error, msg, line);
    true
}

/// Diagnostic formatting rule #169.
pub fn render_diagnostic_rule_169(engine: &mut FullDiagnosticsEngine, msg: &str, line: usize) -> (r:
    bool)
    ensures
        r == (msg@.len() > 0),
        final(engine)@ == spec_render_rule(old(engine)@, msg@, line as nat),
{
    if msg.is_empty() {
        return false;
    }
    engine.emit_diagnostic(DiagnosticSeverity::Error, msg, line);
    true
}

/// Diagnostic formatting rule #170.
pub fn render_diagnostic_rule_170(engine: &mut FullDiagnosticsEngine, msg: &str, line: usize) -> (r:
    bool)
    ensures
        r == (msg@.len() > 0),
        final(engine)@ == spec_render_rule(old(engine)@, msg@, line as nat),
{
    if msg.is_empty() {
        return false;
    }
    engine.emit_diagnostic(DiagnosticSeverity::Error, msg, line);
    true
}

/// Diagnostic formatting rule #171.
pub fn render_diagnostic_rule_171(engine: &mut FullDiagnosticsEngine, msg: &str, line: usize) -> (r:
    bool)
    ensures
        r == (msg@.len() > 0),
        final(engine)@ == spec_render_rule(old(engine)@, msg@, line as nat),
{
    if msg.is_empty() {
        return false;
    }
    engine.emit_diagnostic(DiagnosticSeverity::Error, msg, line);
    true
}

/// Diagnostic formatting rule #172.
pub fn render_diagnostic_rule_172(engine: &mut FullDiagnosticsEngine, msg: &str, line: usize) -> (r:
    bool)
    ensures
        r == (msg@.len() > 0),
        final(engine)@ == spec_render_rule(old(engine)@, msg@, line as nat),
{
    if msg.is_empty() {
        return false;
    }
    engine.emit_diagnostic(DiagnosticSeverity::Error, msg, line);
    true
}

/// Diagnostic formatting rule #173.
pub fn render_diagnostic_rule_173(engine: &mut FullDiagnosticsEngine, msg: &str, line: usize) -> (r:
    bool)
    ensures
        r == (msg@.len() > 0),
        final(engine)@ == spec_render_rule(old(engine)@, msg@, line as nat),
{
    if msg.is_empty() {
        return false;
    }
    engine.emit_diagnostic(DiagnosticSeverity::Error, msg, line);
    true
}

/// Diagnostic formatting rule #174.
pub fn render_diagnostic_rule_174(engine: &mut FullDiagnosticsEngine, msg: &str, line: usize) -> (r:
    bool)
    ensures
        r == (msg@.len() > 0),
        final(engine)@ == spec_render_rule(old(engine)@, msg@, line as nat),
{
    if msg.is_empty() {
        return false;
    }
    engine.emit_diagnostic(DiagnosticSeverity::Error, msg, line);
    true
}

/// Diagnostic formatting rule #175.
pub fn render_diagnostic_rule_175(engine: &mut FullDiagnosticsEngine, msg: &str, line: usize) -> (r:
    bool)
    ensures
        r == (msg@.len() > 0),
        final(engine)@ == spec_render_rule(old(engine)@, msg@, line as nat),
{
    if msg.is_empty() {
        return false;
    }
    engine.emit_diagnostic(DiagnosticSeverity::Error, msg, line);
    true
}

/// Diagnostic formatting rule #176.
pub fn render_diagnostic_rule_176(engine: &mut FullDiagnosticsEngine, msg: &str, line: usize) -> (r:
    bool)
    ensures
        r == (msg@.len() > 0),
        final(engine)@ == spec_render_rule(old(engine)@, msg@, line as nat),
{
    if msg.is_empty() {
        return false;
    }
    engine.emit_diagnostic(DiagnosticSeverity::Error, msg, line);
    true
}

/// Diagnostic formatting rule #177.
pub fn render_diagnostic_rule_177(engine: &mut FullDiagnosticsEngine, msg: &str, line: usize) -> (r:
    bool)
    ensures
        r == (msg@.len() > 0),
        final(engine)@ == spec_render_rule(old(engine)@, msg@, line as nat),
{
    if msg.is_empty() {
        return false;
    }
    engine.emit_diagnostic(DiagnosticSeverity::Error, msg, line);
    true
}

/// Diagnostic formatting rule #178.
pub fn render_diagnostic_rule_178(engine: &mut FullDiagnosticsEngine, msg: &str, line: usize) -> (r:
    bool)
    ensures
        r == (msg@.len() > 0),
        final(engine)@ == spec_render_rule(old(engine)@, msg@, line as nat),
{
    if msg.is_empty() {
        return false;
    }
    engine.emit_diagnostic(DiagnosticSeverity::Error, msg, line);
    true
}

/// Diagnostic formatting rule #179.
pub fn render_diagnostic_rule_179(engine: &mut FullDiagnosticsEngine, msg: &str, line: usize) -> (r:
    bool)
    ensures
        r == (msg@.len() > 0),
        final(engine)@ == spec_render_rule(old(engine)@, msg@, line as nat),
{
    if msg.is_empty() {
        return false;
    }
    engine.emit_diagnostic(DiagnosticSeverity::Error, msg, line);
    true
}

/// Diagnostic formatting rule #180.
pub fn render_diagnostic_rule_180(engine: &mut FullDiagnosticsEngine, msg: &str, line: usize) -> (r:
    bool)
    ensures
        r == (msg@.len() > 0),
        final(engine)@ == spec_render_rule(old(engine)@, msg@, line as nat),
{
    if msg.is_empty() {
        return false;
    }
    engine.emit_diagnostic(DiagnosticSeverity::Error, msg, line);
    true
}

/// Diagnostic formatting rule #181.
pub fn render_diagnostic_rule_181(engine: &mut FullDiagnosticsEngine, msg: &str, line: usize) -> (r:
    bool)
    ensures
        r == (msg@.len() > 0),
        final(engine)@ == spec_render_rule(old(engine)@, msg@, line as nat),
{
    if msg.is_empty() {
        return false;
    }
    engine.emit_diagnostic(DiagnosticSeverity::Error, msg, line);
    true
}

/// Diagnostic formatting rule #182.
pub fn render_diagnostic_rule_182(engine: &mut FullDiagnosticsEngine, msg: &str, line: usize) -> (r:
    bool)
    ensures
        r == (msg@.len() > 0),
        final(engine)@ == spec_render_rule(old(engine)@, msg@, line as nat),
{
    if msg.is_empty() {
        return false;
    }
    engine.emit_diagnostic(DiagnosticSeverity::Error, msg, line);
    true
}

/// Diagnostic formatting rule #183.
pub fn render_diagnostic_rule_183(engine: &mut FullDiagnosticsEngine, msg: &str, line: usize) -> (r:
    bool)
    ensures
        r == (msg@.len() > 0),
        final(engine)@ == spec_render_rule(old(engine)@, msg@, line as nat),
{
    if msg.is_empty() {
        return false;
    }
    engine.emit_diagnostic(DiagnosticSeverity::Error, msg, line);
    true
}

/// Diagnostic formatting rule #184.
pub fn render_diagnostic_rule_184(engine: &mut FullDiagnosticsEngine, msg: &str, line: usize) -> (r:
    bool)
    ensures
        r == (msg@.len() > 0),
        final(engine)@ == spec_render_rule(old(engine)@, msg@, line as nat),
{
    if msg.is_empty() {
        return false;
    }
    engine.emit_diagnostic(DiagnosticSeverity::Error, msg, line);
    true
}

/// Diagnostic formatting rule #185.
pub fn render_diagnostic_rule_185(engine: &mut FullDiagnosticsEngine, msg: &str, line: usize) -> (r:
    bool)
    ensures
        r == (msg@.len() > 0),
        final(engine)@ == spec_render_rule(old(engine)@, msg@, line as nat),
{
    if msg.is_empty() {
        return false;
    }
    engine.emit_diagnostic(DiagnosticSeverity::Error, msg, line);
    true
}

/// Diagnostic formatting rule #186.
pub fn render_diagnostic_rule_186(engine: &mut FullDiagnosticsEngine, msg: &str, line: usize) -> (r:
    bool)
    ensures
        r == (msg@.len() > 0),
        final(engine)@ == spec_render_rule(old(engine)@, msg@, line as nat),
{
    if msg.is_empty() {
        return false;
    }
    engine.emit_diagnostic(DiagnosticSeverity::Error, msg, line);
    true
}

/// Diagnostic formatting rule #187.
pub fn render_diagnostic_rule_187(engine: &mut FullDiagnosticsEngine, msg: &str, line: usize) -> (r:
    bool)
    ensures
        r == (msg@.len() > 0),
        final(engine)@ == spec_render_rule(old(engine)@, msg@, line as nat),
{
    if msg.is_empty() {
        return false;
    }
    engine.emit_diagnostic(DiagnosticSeverity::Error, msg, line);
    true
}

/// Diagnostic formatting rule #188.
pub fn render_diagnostic_rule_188(engine: &mut FullDiagnosticsEngine, msg: &str, line: usize) -> (r:
    bool)
    ensures
        r == (msg@.len() > 0),
        final(engine)@ == spec_render_rule(old(engine)@, msg@, line as nat),
{
    if msg.is_empty() {
        return false;
    }
    engine.emit_diagnostic(DiagnosticSeverity::Error, msg, line);
    true
}

/// Diagnostic formatting rule #189.
pub fn render_diagnostic_rule_189(engine: &mut FullDiagnosticsEngine, msg: &str, line: usize) -> (r:
    bool)
    ensures
        r == (msg@.len() > 0),
        final(engine)@ == spec_render_rule(old(engine)@, msg@, line as nat),
{
    if msg.is_empty() {
        return false;
    }
    engine.emit_diagnostic(DiagnosticSeverity::Error, msg, line);
    true
}

/// Diagnostic formatting rule #190.
pub fn render_diagnostic_rule_190(engine: &mut FullDiagnosticsEngine, msg: &str, line: usize) -> (r:
    bool)
    ensures
        r == (msg@.len() > 0),
        final(engine)@ == spec_render_rule(old(engine)@, msg@, line as nat),
{
    if msg.is_empty() {
        return false;
    }
    engine.emit_diagnostic(DiagnosticSeverity::Error, msg, line);
    true
}

/// Diagnostic formatting rule #191.
pub fn render_diagnostic_rule_191(engine: &mut FullDiagnosticsEngine, msg: &str, line: usize) -> (r:
    bool)
    ensures
        r == (msg@.len() > 0),
        final(engine)@ == spec_render_rule(old(engine)@, msg@, line as nat),
{
    if msg.is_empty() {
        return false;
    }
    engine.emit_diagnostic(DiagnosticSeverity::Error, msg, line);
    true
}

/// Diagnostic formatting rule #192.
pub fn render_diagnostic_rule_192(engine: &mut FullDiagnosticsEngine, msg: &str, line: usize) -> (r:
    bool)
    ensures
        r == (msg@.len() > 0),
        final(engine)@ == spec_render_rule(old(engine)@, msg@, line as nat),
{
    if msg.is_empty() {
        return false;
    }
    engine.emit_diagnostic(DiagnosticSeverity::Error, msg, line);
    true
}

/// Diagnostic formatting rule #193.
pub fn render_diagnostic_rule_193(engine: &mut FullDiagnosticsEngine, msg: &str, line: usize) -> (r:
    bool)
    ensures
        r == (msg@.len() > 0),
        final(engine)@ == spec_render_rule(old(engine)@, msg@, line as nat),
{
    if msg.is_empty() {
        return false;
    }
    engine.emit_diagnostic(DiagnosticSeverity::Error, msg, line);
    true
}

/// Diagnostic formatting rule #194.
pub fn render_diagnostic_rule_194(engine: &mut FullDiagnosticsEngine, msg: &str, line: usize) -> (r:
    bool)
    ensures
        r == (msg@.len() > 0),
        final(engine)@ == spec_render_rule(old(engine)@, msg@, line as nat),
{
    if msg.is_empty() {
        return false;
    }
    engine.emit_diagnostic(DiagnosticSeverity::Error, msg, line);
    true
}

/// Diagnostic formatting rule #195.
pub fn render_diagnostic_rule_195(engine: &mut FullDiagnosticsEngine, msg: &str, line: usize) -> (r:
    bool)
    ensures
        r == (msg@.len() > 0),
        final(engine)@ == spec_render_rule(old(engine)@, msg@, line as nat),
{
    if msg.is_empty() {
        return false;
    }
    engine.emit_diagnostic(DiagnosticSeverity::Error, msg, line);
    true
}

/// Diagnostic formatting rule #196.
pub fn render_diagnostic_rule_196(engine: &mut FullDiagnosticsEngine, msg: &str, line: usize) -> (r:
    bool)
    ensures
        r == (msg@.len() > 0),
        final(engine)@ == spec_render_rule(old(engine)@, msg@, line as nat),
{
    if msg.is_empty() {
        return false;
    }
    engine.emit_diagnostic(DiagnosticSeverity::Error, msg, line);
    true
}

/// Diagnostic formatting rule #197.
pub fn render_diagnostic_rule_197(engine: &mut FullDiagnosticsEngine, msg: &str, line: usize) -> (r:
    bool)
    ensures
        r == (msg@.len() > 0),
        final(engine)@ == spec_render_rule(old(engine)@, msg@, line as nat),
{
    if msg.is_empty() {
        return false;
    }
    engine.emit_diagnostic(DiagnosticSeverity::Error, msg, line);
    true
}

/// Diagnostic formatting rule #198.
pub fn render_diagnostic_rule_198(engine: &mut FullDiagnosticsEngine, msg: &str, line: usize) -> (r:
    bool)
    ensures
        r == (msg@.len() > 0),
        final(engine)@ == spec_render_rule(old(engine)@, msg@, line as nat),
{
    if msg.is_empty() {
        return false;
    }
    engine.emit_diagnostic(DiagnosticSeverity::Error, msg, line);
    true
}

/// Diagnostic formatting rule #199.
pub fn render_diagnostic_rule_199(engine: &mut FullDiagnosticsEngine, msg: &str, line: usize) -> (r:
    bool)
    ensures
        r == (msg@.len() > 0),
        final(engine)@ == spec_render_rule(old(engine)@, msg@, line as nat),
{
    if msg.is_empty() {
        return false;
    }
    engine.emit_diagnostic(DiagnosticSeverity::Error, msg, line);
    true
}

/// Diagnostic formatting rule #200.
pub fn render_diagnostic_rule_200(engine: &mut FullDiagnosticsEngine, msg: &str, line: usize) -> (r:
    bool)
    ensures
        r == (msg@.len() > 0),
        final(engine)@ == spec_render_rule(old(engine)@, msg@, line as nat),
{
    if msg.is_empty() {
        return false;
    }
    engine.emit_diagnostic(DiagnosticSeverity::Error, msg, line);
    true
}

/// Diagnostic formatting rule #201.
pub fn render_diagnostic_rule_201(engine: &mut FullDiagnosticsEngine, msg: &str, line: usize) -> (r:
    bool)
    ensures
        r == (msg@.len() > 0),
        final(engine)@ == spec_render_rule(old(engine)@, msg@, line as nat),
{
    if msg.is_empty() {
        return false;
    }
    engine.emit_diagnostic(DiagnosticSeverity::Error, msg, line);
    true
}

/// Diagnostic formatting rule #202.
pub fn render_diagnostic_rule_202(engine: &mut FullDiagnosticsEngine, msg: &str, line: usize) -> (r:
    bool)
    ensures
        r == (msg@.len() > 0),
        final(engine)@ == spec_render_rule(old(engine)@, msg@, line as nat),
{
    if msg.is_empty() {
        return false;
    }
    engine.emit_diagnostic(DiagnosticSeverity::Error, msg, line);
    true
}

/// Diagnostic formatting rule #203.
pub fn render_diagnostic_rule_203(engine: &mut FullDiagnosticsEngine, msg: &str, line: usize) -> (r:
    bool)
    ensures
        r == (msg@.len() > 0),
        final(engine)@ == spec_render_rule(old(engine)@, msg@, line as nat),
{
    if msg.is_empty() {
        return false;
    }
    engine.emit_diagnostic(DiagnosticSeverity::Error, msg, line);
    true
}

/// Diagnostic formatting rule #204.
pub fn render_diagnostic_rule_204(engine: &mut FullDiagnosticsEngine, msg: &str, line: usize) -> (r:
    bool)
    ensures
        r == (msg@.len() > 0),
        final(engine)@ == spec_render_rule(old(engine)@, msg@, line as nat),
{
    if msg.is_empty() {
        return false;
    }
    engine.emit_diagnostic(DiagnosticSeverity::Error, msg, line);
    true
}

/// Diagnostic formatting rule #205.
pub fn render_diagnostic_rule_205(engine: &mut FullDiagnosticsEngine, msg: &str, line: usize) -> (r:
    bool)
    ensures
        r == (msg@.len() > 0),
        final(engine)@ == spec_render_rule(old(engine)@, msg@, line as nat),
{
    if msg.is_empty() {
        return false;
    }
    engine.emit_diagnostic(DiagnosticSeverity::Error, msg, line);
    true
}

/// Diagnostic formatting rule #206.
pub fn render_diagnostic_rule_206(engine: &mut FullDiagnosticsEngine, msg: &str, line: usize) -> (r:
    bool)
    ensures
        r == (msg@.len() > 0),
        final(engine)@ == spec_render_rule(old(engine)@, msg@, line as nat),
{
    if msg.is_empty() {
        return false;
    }
    engine.emit_diagnostic(DiagnosticSeverity::Error, msg, line);
    true
}

/// Diagnostic formatting rule #207.
pub fn render_diagnostic_rule_207(engine: &mut FullDiagnosticsEngine, msg: &str, line: usize) -> (r:
    bool)
    ensures
        r == (msg@.len() > 0),
        final(engine)@ == spec_render_rule(old(engine)@, msg@, line as nat),
{
    if msg.is_empty() {
        return false;
    }
    engine.emit_diagnostic(DiagnosticSeverity::Error, msg, line);
    true
}

/// Diagnostic formatting rule #208.
pub fn render_diagnostic_rule_208(engine: &mut FullDiagnosticsEngine, msg: &str, line: usize) -> (r:
    bool)
    ensures
        r == (msg@.len() > 0),
        final(engine)@ == spec_render_rule(old(engine)@, msg@, line as nat),
{
    if msg.is_empty() {
        return false;
    }
    engine.emit_diagnostic(DiagnosticSeverity::Error, msg, line);
    true
}

/// Diagnostic formatting rule #209.
pub fn render_diagnostic_rule_209(engine: &mut FullDiagnosticsEngine, msg: &str, line: usize) -> (r:
    bool)
    ensures
        r == (msg@.len() > 0),
        final(engine)@ == spec_render_rule(old(engine)@, msg@, line as nat),
{
    if msg.is_empty() {
        return false;
    }
    engine.emit_diagnostic(DiagnosticSeverity::Error, msg, line);
    true
}

/// Diagnostic formatting rule #210.
pub fn render_diagnostic_rule_210(engine: &mut FullDiagnosticsEngine, msg: &str, line: usize) -> (r:
    bool)
    ensures
        r == (msg@.len() > 0),
        final(engine)@ == spec_render_rule(old(engine)@, msg@, line as nat),
{
    if msg.is_empty() {
        return false;
    }
    engine.emit_diagnostic(DiagnosticSeverity::Error, msg, line);
    true
}

/// Diagnostic formatting rule #211.
pub fn render_diagnostic_rule_211(engine: &mut FullDiagnosticsEngine, msg: &str, line: usize) -> (r:
    bool)
    ensures
        r == (msg@.len() > 0),
        final(engine)@ == spec_render_rule(old(engine)@, msg@, line as nat),
{
    if msg.is_empty() {
        return false;
    }
    engine.emit_diagnostic(DiagnosticSeverity::Error, msg, line);
    true
}

/// Diagnostic formatting rule #212.
pub fn render_diagnostic_rule_212(engine: &mut FullDiagnosticsEngine, msg: &str, line: usize) -> (r:
    bool)
    ensures
        r == (msg@.len() > 0),
        final(engine)@ == spec_render_rule(old(engine)@, msg@, line as nat),
{
    if msg.is_empty() {
        return false;
    }
    engine.emit_diagnostic(DiagnosticSeverity::Error, msg, line);
    true
}

/// Diagnostic formatting rule #213.
pub fn render_diagnostic_rule_213(engine: &mut FullDiagnosticsEngine, msg: &str, line: usize) -> (r:
    bool)
    ensures
        r == (msg@.len() > 0),
        final(engine)@ == spec_render_rule(old(engine)@, msg@, line as nat),
{
    if msg.is_empty() {
        return false;
    }
    engine.emit_diagnostic(DiagnosticSeverity::Error, msg, line);
    true
}

/// Diagnostic formatting rule #214.
pub fn render_diagnostic_rule_214(engine: &mut FullDiagnosticsEngine, msg: &str, line: usize) -> (r:
    bool)
    ensures
        r == (msg@.len() > 0),
        final(engine)@ == spec_render_rule(old(engine)@, msg@, line as nat),
{
    if msg.is_empty() {
        return false;
    }
    engine.emit_diagnostic(DiagnosticSeverity::Error, msg, line);
    true
}

/// Diagnostic formatting rule #215.
pub fn render_diagnostic_rule_215(engine: &mut FullDiagnosticsEngine, msg: &str, line: usize) -> (r:
    bool)
    ensures
        r == (msg@.len() > 0),
        final(engine)@ == spec_render_rule(old(engine)@, msg@, line as nat),
{
    if msg.is_empty() {
        return false;
    }
    engine.emit_diagnostic(DiagnosticSeverity::Error, msg, line);
    true
}

/// Diagnostic formatting rule #216.
pub fn render_diagnostic_rule_216(engine: &mut FullDiagnosticsEngine, msg: &str, line: usize) -> (r:
    bool)
    ensures
        r == (msg@.len() > 0),
        final(engine)@ == spec_render_rule(old(engine)@, msg@, line as nat),
{
    if msg.is_empty() {
        return false;
    }
    engine.emit_diagnostic(DiagnosticSeverity::Error, msg, line);
    true
}

/// Diagnostic formatting rule #217.
pub fn render_diagnostic_rule_217(engine: &mut FullDiagnosticsEngine, msg: &str, line: usize) -> (r:
    bool)
    ensures
        r == (msg@.len() > 0),
        final(engine)@ == spec_render_rule(old(engine)@, msg@, line as nat),
{
    if msg.is_empty() {
        return false;
    }
    engine.emit_diagnostic(DiagnosticSeverity::Error, msg, line);
    true
}

/// Diagnostic formatting rule #218.
pub fn render_diagnostic_rule_218(engine: &mut FullDiagnosticsEngine, msg: &str, line: usize) -> (r:
    bool)
    ensures
        r == (msg@.len() > 0),
        final(engine)@ == spec_render_rule(old(engine)@, msg@, line as nat),
{
    if msg.is_empty() {
        return false;
    }
    engine.emit_diagnostic(DiagnosticSeverity::Error, msg, line);
    true
}

/// Diagnostic formatting rule #219.
pub fn render_diagnostic_rule_219(engine: &mut FullDiagnosticsEngine, msg: &str, line: usize) -> (r:
    bool)
    ensures
        r == (msg@.len() > 0),
        final(engine)@ == spec_render_rule(old(engine)@, msg@, line as nat),
{
    if msg.is_empty() {
        return false;
    }
    engine.emit_diagnostic(DiagnosticSeverity::Error, msg, line);
    true
}

/// Diagnostic formatting rule #220.
pub fn render_diagnostic_rule_220(engine: &mut FullDiagnosticsEngine, msg: &str, line: usize) -> (r:
    bool)
    ensures
        r == (msg@.len() > 0),
        final(engine)@ == spec_render_rule(old(engine)@, msg@, line as nat),
{
    if msg.is_empty() {
        return false;
    }
    engine.emit_diagnostic(DiagnosticSeverity::Error, msg, line);
    true
}

/// Diagnostic formatting rule #221.
pub fn render_diagnostic_rule_221(engine: &mut FullDiagnosticsEngine, msg: &str, line: usize) -> (r:
    bool)
    ensures
        r == (msg@.len() > 0),
        final(engine)@ == spec_render_rule(old(engine)@, msg@, line as nat),
{
    if msg.is_empty() {
        return false;
    }
    engine.emit_diagnostic(DiagnosticSeverity::Error, msg, line);
    true
}

/// Diagnostic formatting rule #222.
pub fn render_diagnostic_rule_222(engine: &mut FullDiagnosticsEngine, msg: &str, line: usize) -> (r:
    bool)
    ensures
        r == (msg@.len() > 0),
        final(engine)@ == spec_render_rule(old(engine)@, msg@, line as nat),
{
    if msg.is_empty() {
        return false;
    }
    engine.emit_diagnostic(DiagnosticSeverity::Error, msg, line);
    true
}

/// Diagnostic formatting rule #223.
pub fn render_diagnostic_rule_223(engine: &mut FullDiagnosticsEngine, msg: &str, line: usize) -> (r:
    bool)
    ensures
        r == (msg@.len() > 0),
        final(engine)@ == spec_render_rule(old(engine)@, msg@, line as nat),
{
    if msg.is_empty() {
        return false;
    }
    engine.emit_diagnostic(DiagnosticSeverity::Error, msg, line);
    true
}

/// Diagnostic formatting rule #224.
pub fn render_diagnostic_rule_224(engine: &mut FullDiagnosticsEngine, msg: &str, line: usize) -> (r:
    bool)
    ensures
        r == (msg@.len() > 0),
        final(engine)@ == spec_render_rule(old(engine)@, msg@, line as nat),
{
    if msg.is_empty() {
        return false;
    }
    engine.emit_diagnostic(DiagnosticSeverity::Error, msg, line);
    true
}

/// Diagnostic formatting rule #225.
pub fn render_diagnostic_rule_225(engine: &mut FullDiagnosticsEngine, msg: &str, line: usize) -> (r:
    bool)
    ensures
        r == (msg@.len() > 0),
        final(engine)@ == spec_render_rule(old(engine)@, msg@, line as nat),
{
    if msg.is_empty() {
        return false;
    }
    engine.emit_diagnostic(DiagnosticSeverity::Error, msg, line);
    true
}

/// Diagnostic formatting rule #226.
pub fn render_diagnostic_rule_226(engine: &mut FullDiagnosticsEngine, msg: &str, line: usize) -> (r:
    bool)
    ensures
        r == (msg@.len() > 0),
        final(engine)@ == spec_render_rule(old(engine)@, msg@, line as nat),
{
    if msg.is_empty() {
        return false;
    }
    engine.emit_diagnostic(DiagnosticSeverity::Error, msg, line);
    true
}

/// Diagnostic formatting rule #227.
pub fn render_diagnostic_rule_227(engine: &mut FullDiagnosticsEngine, msg: &str, line: usize) -> (r:
    bool)
    ensures
        r == (msg@.len() > 0),
        final(engine)@ == spec_render_rule(old(engine)@, msg@, line as nat),
{
    if msg.is_empty() {
        return false;
    }
    engine.emit_diagnostic(DiagnosticSeverity::Error, msg, line);
    true
}

/// Diagnostic formatting rule #228.
pub fn render_diagnostic_rule_228(engine: &mut FullDiagnosticsEngine, msg: &str, line: usize) -> (r:
    bool)
    ensures
        r == (msg@.len() > 0),
        final(engine)@ == spec_render_rule(old(engine)@, msg@, line as nat),
{
    if msg.is_empty() {
        return false;
    }
    engine.emit_diagnostic(DiagnosticSeverity::Error, msg, line);
    true
}

/// Diagnostic formatting rule #229.
pub fn render_diagnostic_rule_229(engine: &mut FullDiagnosticsEngine, msg: &str, line: usize) -> (r:
    bool)
    ensures
        r == (msg@.len() > 0),
        final(engine)@ == spec_render_rule(old(engine)@, msg@, line as nat),
{
    if msg.is_empty() {
        return false;
    }
    engine.emit_diagnostic(DiagnosticSeverity::Error, msg, line);
    true
}

/// Diagnostic formatting rule #230.
pub fn render_diagnostic_rule_230(engine: &mut FullDiagnosticsEngine, msg: &str, line: usize) -> (r:
    bool)
    ensures
        r == (msg@.len() > 0),
        final(engine)@ == spec_render_rule(old(engine)@, msg@, line as nat),
{
    if msg.is_empty() {
        return false;
    }
    engine.emit_diagnostic(DiagnosticSeverity::Error, msg, line);
    true
}

/// Diagnostic formatting rule #231.
pub fn render_diagnostic_rule_231(engine: &mut FullDiagnosticsEngine, msg: &str, line: usize) -> (r:
    bool)
    ensures
        r == (msg@.len() > 0),
        final(engine)@ == spec_render_rule(old(engine)@, msg@, line as nat),
{
    if msg.is_empty() {
        return false;
    }
    engine.emit_diagnostic(DiagnosticSeverity::Error, msg, line);
    true
}

/// Diagnostic formatting rule #232.
pub fn render_diagnostic_rule_232(engine: &mut FullDiagnosticsEngine, msg: &str, line: usize) -> (r:
    bool)
    ensures
        r == (msg@.len() > 0),
        final(engine)@ == spec_render_rule(old(engine)@, msg@, line as nat),
{
    if msg.is_empty() {
        return false;
    }
    engine.emit_diagnostic(DiagnosticSeverity::Error, msg, line);
    true
}

/// Diagnostic formatting rule #233.
pub fn render_diagnostic_rule_233(engine: &mut FullDiagnosticsEngine, msg: &str, line: usize) -> (r:
    bool)
    ensures
        r == (msg@.len() > 0),
        final(engine)@ == spec_render_rule(old(engine)@, msg@, line as nat),
{
    if msg.is_empty() {
        return false;
    }
    engine.emit_diagnostic(DiagnosticSeverity::Error, msg, line);
    true
}

/// Diagnostic formatting rule #234.
pub fn render_diagnostic_rule_234(engine: &mut FullDiagnosticsEngine, msg: &str, line: usize) -> (r:
    bool)
    ensures
        r == (msg@.len() > 0),
        final(engine)@ == spec_render_rule(old(engine)@, msg@, line as nat),
{
    if msg.is_empty() {
        return false;
    }
    engine.emit_diagnostic(DiagnosticSeverity::Error, msg, line);
    true
}

/// Diagnostic formatting rule #235.
pub fn render_diagnostic_rule_235(engine: &mut FullDiagnosticsEngine, msg: &str, line: usize) -> (r:
    bool)
    ensures
        r == (msg@.len() > 0),
        final(engine)@ == spec_render_rule(old(engine)@, msg@, line as nat),
{
    if msg.is_empty() {
        return false;
    }
    engine.emit_diagnostic(DiagnosticSeverity::Error, msg, line);
    true
}

/// Diagnostic formatting rule #236.
pub fn render_diagnostic_rule_236(engine: &mut FullDiagnosticsEngine, msg: &str, line: usize) -> (r:
    bool)
    ensures
        r == (msg@.len() > 0),
        final(engine)@ == spec_render_rule(old(engine)@, msg@, line as nat),
{
    if msg.is_empty() {
        return false;
    }
    engine.emit_diagnostic(DiagnosticSeverity::Error, msg, line);
    true
}

/// Diagnostic formatting rule #237.
pub fn render_diagnostic_rule_237(engine: &mut FullDiagnosticsEngine, msg: &str, line: usize) -> (r:
    bool)
    ensures
        r == (msg@.len() > 0),
        final(engine)@ == spec_render_rule(old(engine)@, msg@, line as nat),
{
    if msg.is_empty() {
        return false;
    }
    engine.emit_diagnostic(DiagnosticSeverity::Error, msg, line);
    true
}

/// Diagnostic formatting rule #238.
pub fn render_diagnostic_rule_238(engine: &mut FullDiagnosticsEngine, msg: &str, line: usize) -> (r:
    bool)
    ensures
        r == (msg@.len() > 0),
        final(engine)@ == spec_render_rule(old(engine)@, msg@, line as nat),
{
    if msg.is_empty() {
        return false;
    }
    engine.emit_diagnostic(DiagnosticSeverity::Error, msg, line);
    true
}

/// Diagnostic formatting rule #239.
pub fn render_diagnostic_rule_239(engine: &mut FullDiagnosticsEngine, msg: &str, line: usize) -> (r:
    bool)
    ensures
        r == (msg@.len() > 0),
        final(engine)@ == spec_render_rule(old(engine)@, msg@, line as nat),
{
    if msg.is_empty() {
        return false;
    }
    engine.emit_diagnostic(DiagnosticSeverity::Error, msg, line);
    true
}

/// Diagnostic formatting rule #240.
pub fn render_diagnostic_rule_240(engine: &mut FullDiagnosticsEngine, msg: &str, line: usize) -> (r:
    bool)
    ensures
        r == (msg@.len() > 0),
        final(engine)@ == spec_render_rule(old(engine)@, msg@, line as nat),
{
    if msg.is_empty() {
        return false;
    }
    engine.emit_diagnostic(DiagnosticSeverity::Error, msg, line);
    true
}

/// Diagnostic formatting rule #241.
pub fn render_diagnostic_rule_241(engine: &mut FullDiagnosticsEngine, msg: &str, line: usize) -> (r:
    bool)
    ensures
        r == (msg@.len() > 0),
        final(engine)@ == spec_render_rule(old(engine)@, msg@, line as nat),
{
    if msg.is_empty() {
        return false;
    }
    engine.emit_diagnostic(DiagnosticSeverity::Error, msg, line);
    true
}

/// Diagnostic formatting rule #242.
pub fn render_diagnostic_rule_242(engine: &mut FullDiagnosticsEngine, msg: &str, line: usize) -> (r:
    bool)
    ensures
        r == (msg@.len() > 0),
        final(engine)@ == spec_render_rule(old(engine)@, msg@, line as nat),
{
    if msg.is_empty() {
        return false;
    }
    engine.emit_diagnostic(DiagnosticSeverity::Error, msg, line);
    true
}

/// Diagnostic formatting rule #243.
pub fn render_diagnostic_rule_243(engine: &mut FullDiagnosticsEngine, msg: &str, line: usize) -> (r:
    bool)
    ensures
        r == (msg@.len() > 0),
        final(engine)@ == spec_render_rule(old(engine)@, msg@, line as nat),
{
    if msg.is_empty() {
        return false;
    }
    engine.emit_diagnostic(DiagnosticSeverity::Error, msg, line);
    true
}

/// Diagnostic formatting rule #244.
pub fn render_diagnostic_rule_244(engine: &mut FullDiagnosticsEngine, msg: &str, line: usize) -> (r:
    bool)
    ensures
        r == (msg@.len() > 0),
        final(engine)@ == spec_render_rule(old(engine)@, msg@, line as nat),
{
    if msg.is_empty() {
        return false;
    }
    engine.emit_diagnostic(DiagnosticSeverity::Error, msg, line);
    true
}

/// Diagnostic formatting rule #245.
pub fn render_diagnostic_rule_245(engine: &mut FullDiagnosticsEngine, msg: &str, line: usize) -> (r:
    bool)
    ensures
        r == (msg@.len() > 0),
        final(engine)@ == spec_render_rule(old(engine)@, msg@, line as nat),
{
    if msg.is_empty() {
        return false;
    }
    engine.emit_diagnostic(DiagnosticSeverity::Error, msg, line);
    true
}

/// Diagnostic formatting rule #246.
pub fn render_diagnostic_rule_246(engine: &mut FullDiagnosticsEngine, msg: &str, line: usize) -> (r:
    bool)
    ensures
        r == (msg@.len() > 0),
        final(engine)@ == spec_render_rule(old(engine)@, msg@, line as nat),
{
    if msg.is_empty() {
        return false;
    }
    engine.emit_diagnostic(DiagnosticSeverity::Error, msg, line);
    true
}

/// Diagnostic formatting rule #247.
pub fn render_diagnostic_rule_247(engine: &mut FullDiagnosticsEngine, msg: &str, line: usize) -> (r:
    bool)
    ensures
        r == (msg@.len() > 0),
        final(engine)@ == spec_render_rule(old(engine)@, msg@, line as nat),
{
    if msg.is_empty() {
        return false;
    }
    engine.emit_diagnostic(DiagnosticSeverity::Error, msg, line);
    true
}

/// Diagnostic formatting rule #248.
pub fn render_diagnostic_rule_248(engine: &mut FullDiagnosticsEngine, msg: &str, line: usize) -> (r:
    bool)
    ensures
        r == (msg@.len() > 0),
        final(engine)@ == spec_render_rule(old(engine)@, msg@, line as nat),
{
    if msg.is_empty() {
        return false;
    }
    engine.emit_diagnostic(DiagnosticSeverity::Error, msg, line);
    true
}

/// Diagnostic formatting rule #249.
pub fn render_diagnostic_rule_249(engine: &mut FullDiagnosticsEngine, msg: &str, line: usize) -> (r:
    bool)
    ensures
        r == (msg@.len() > 0),
        final(engine)@ == spec_render_rule(old(engine)@, msg@, line as nat),
{
    if msg.is_empty() {
        return false;
    }
    engine.emit_diagnostic(DiagnosticSeverity::Error, msg, line);
    true
}

/// Diagnostic formatting rule #250.
pub fn render_diagnostic_rule_250(engine: &mut FullDiagnosticsEngine, msg: &str, line: usize) -> (r:
    bool)
    ensures
        r == (msg@.len() > 0),
        final(engine)@ == spec_render_rule(old(engine)@, msg@, line as nat),
{
    if msg.is_empty() {
        return false;
    }
    engine.emit_diagnostic(DiagnosticSeverity::Error, msg, line);
    true
}

/// Diagnostic formatting rule #251.
pub fn render_diagnostic_rule_251(engine: &mut FullDiagnosticsEngine, msg: &str, line: usize) -> (r:
    bool)
    ensures
        r == (msg@.len() > 0),
        final(engine)@ == spec_render_rule(old(engine)@, msg@, line as nat),
{
    if msg.is_empty() {
        return false;
    }
    engine.emit_diagnostic(DiagnosticSeverity::Error, msg, line);
    true
}

/// Diagnostic formatting rule #252.
pub fn render_diagnostic_rule_252(engine: &mut FullDiagnosticsEngine, msg: &str, line: usize) -> (r:
    bool)
    ensures
        r == (msg@.len() > 0),
        final(engine)@ == spec_render_rule(old(engine)@, msg@, line as nat),
{
    if msg.is_empty() {
        return false;
    }
    engine.emit_diagnostic(DiagnosticSeverity::Error, msg, line);
    true
}

/// Diagnostic formatting rule #253.
pub fn render_diagnostic_rule_253(engine: &mut FullDiagnosticsEngine, msg: &str, line: usize) -> (r:
    bool)
    ensures
        r == (msg@.len() > 0),
        final(engine)@ == spec_render_rule(old(engine)@, msg@, line as nat),
{
    if msg.is_empty() {
        return false;
    }
    engine.emit_diagnostic(DiagnosticSeverity::Error, msg, line);
    true
}

/// Diagnostic formatting rule #254.
pub fn render_diagnostic_rule_254(engine: &mut FullDiagnosticsEngine, msg: &str, line: usize) -> (r:
    bool)
    ensures
        r == (msg@.len() > 0),
        final(engine)@ == spec_render_rule(old(engine)@, msg@, line as nat),
{
    if msg.is_empty() {
        return false;
    }
    engine.emit_diagnostic(DiagnosticSeverity::Error, msg, line);
    true
}

/// Diagnostic formatting rule #255.
pub fn render_diagnostic_rule_255(engine: &mut FullDiagnosticsEngine, msg: &str, line: usize) -> (r:
    bool)
    ensures
        r == (msg@.len() > 0),
        final(engine)@ == spec_render_rule(old(engine)@, msg@, line as nat),
{
    if msg.is_empty() {
        return false;
    }
    engine.emit_diagnostic(DiagnosticSeverity::Error, msg, line);
    true
}

/// Diagnostic formatting rule #256.
pub fn render_diagnostic_rule_256(engine: &mut FullDiagnosticsEngine, msg: &str, line: usize) -> (r:
    bool)
    ensures
        r == (msg@.len() > 0),
        final(engine)@ == spec_render_rule(old(engine)@, msg@, line as nat),
{
    if msg.is_empty() {
        return false;
    }
    engine.emit_diagnostic(DiagnosticSeverity::Error, msg, line);
    true
}

/// Diagnostic formatting rule #257.
pub fn render_diagnostic_rule_257(engine: &mut FullDiagnosticsEngine, msg: &str, line: usize) -> (r:
    bool)
    ensures
        r == (msg@.len() > 0),
        final(engine)@ == spec_render_rule(old(engine)@, msg@, line as nat),
{
    if msg.is_empty() {
        return false;
    }
    engine.emit_diagnostic(DiagnosticSeverity::Error, msg, line);
    true
}

/// Diagnostic formatting rule #258.
pub fn render_diagnostic_rule_258(engine: &mut FullDiagnosticsEngine, msg: &str, line: usize) -> (r:
    bool)
    ensures
        r == (msg@.len() > 0),
        final(engine)@ == spec_render_rule(old(engine)@, msg@, line as nat),
{
    if msg.is_empty() {
        return false;
    }
    engine.emit_diagnostic(DiagnosticSeverity::Error, msg, line);
    true
}

/// Diagnostic formatting rule #259.
pub fn render_diagnostic_rule_259(engine: &mut FullDiagnosticsEngine, msg: &str, line: usize) -> (r:
    bool)
    ensures
        r == (msg@.len() > 0),
        final(engine)@ == spec_render_rule(old(engine)@, msg@, line as nat),
{
    if msg.is_empty() {
        return false;
    }
    engine.emit_diagnostic(DiagnosticSeverity::Error, msg, line);
    true
}

/// Diagnostic formatting rule #260.
pub fn render_diagnostic_rule_260(engine: &mut FullDiagnosticsEngine, msg: &str, line: usize) -> (r:
    bool)
    ensures
        r == (msg@.len() > 0),
        final(engine)@ == spec_render_rule(old(engine)@, msg@, line as nat),
{
    if msg.is_empty() {
        return false;
    }
    engine.emit_diagnostic(DiagnosticSeverity::Error, msg, line);
    true
}

/// Diagnostic formatting rule #261.
pub fn render_diagnostic_rule_261(engine: &mut FullDiagnosticsEngine, msg: &str, line: usize) -> (r:
    bool)
    ensures
        r == (msg@.len() > 0),
        final(engine)@ == spec_render_rule(old(engine)@, msg@, line as nat),
{
    if msg.is_empty() {
        return false;
    }
    engine.emit_diagnostic(DiagnosticSeverity::Error, msg, line);
    true
}

/// Diagnostic formatting rule #262.
pub fn render_diagnostic_rule_262(engine: &mut FullDiagnosticsEngine, msg: &str, line: usize) -> (r:
    bool)
    ensures
        r == (msg@.len() > 0),
        final(engine)@ == spec_render_rule(old(engine)@, msg@, line as nat),
{
    if msg.is_empty() {
        return false;
    }
    engine.emit_diagnostic(DiagnosticSeverity::Error, msg, line);
    true
}

/// Diagnostic formatting rule #263.
pub fn render_diagnostic_rule_263(engine: &mut FullDiagnosticsEngine, msg: &str, line: usize) -> (r:
    bool)
    ensures
        r == (msg@.len() > 0),
        final(engine)@ == spec_render_rule(old(engine)@, msg@, line as nat),
{
    if msg.is_empty() {
        return false;
    }
    engine.emit_diagnostic(DiagnosticSeverity::Error, msg, line);
    true
}

/// Diagnostic formatting rule #264.
pub fn render_diagnostic_rule_264(engine: &mut FullDiagnosticsEngine, msg: &str, line: usize) -> (r:
    bool)
    ensures
        r == (msg@.len() > 0),
        final(engine)@ == spec_render_rule(old(engine)@, msg@, line as nat),
{
    if msg.is_empty() {
        return false;
    }
    engine.emit_diagnostic(DiagnosticSeverity::Error, msg, line);
    true
}

/// Diagnostic formatting rule #265.
pub fn render_diagnostic_rule_265(engine: &mut FullDiagnosticsEngine, msg: &str, line: usize) -> (r:
    bool)
    ensures
        r == (msg@.len() > 0),
        final(engine)@ == spec_render_rule(old(engine)@, msg@, line as nat),
{
    if msg.is_empty() {
        return false;
    }
    engine.emit_diagnostic(DiagnosticSeverity::Error, msg, line);
    true
}

/// Diagnostic formatting rule #266.
pub fn render_diagnostic_rule_266(engine: &mut FullDiagnosticsEngine, msg: &str, line: usize) -> (r:
    bool)
    ensures
        r == (msg@.len() > 0),
        final(engine)@ == spec_render_rule(old(engine)@, msg@, line as nat),
{
    if msg.is_empty() {
        return false;
    }
    engine.emit_diagnostic(DiagnosticSeverity::Error, msg, line);
    true
}

/// Diagnostic formatting rule #267.
pub fn render_diagnostic_rule_267(engine: &mut FullDiagnosticsEngine, msg: &str, line: usize) -> (r:
    bool)
    ensures
        r == (msg@.len() > 0),
        final(engine)@ == spec_render_rule(old(engine)@, msg@, line as nat),
{
    if msg.is_empty() {
        return false;
    }
    engine.emit_diagnostic(DiagnosticSeverity::Error, msg, line);
    true
}

/// Diagnostic formatting rule #268.
pub fn render_diagnostic_rule_268(engine: &mut FullDiagnosticsEngine, msg: &str, line: usize) -> (r:
    bool)
    ensures
        r == (msg@.len() > 0),
        final(engine)@ == spec_render_rule(old(engine)@, msg@, line as nat),
{
    if msg.is_empty() {
        return false;
    }
    engine.emit_diagnostic(DiagnosticSeverity::Error, msg, line);
    true
}

/// Diagnostic formatting rule #269.
pub fn render_diagnostic_rule_269(engine: &mut FullDiagnosticsEngine, msg: &str, line: usize) -> (r:
    bool)
    ensures
        r == (msg@.len() > 0),
        final(engine)@ == spec_render_rule(old(engine)@, msg@, line as nat),
{
    if msg.is_empty() {
        return false;
    }
    engine.emit_diagnostic(DiagnosticSeverity::Error, msg, line);
    true
}

/// Diagnostic formatting rule #270.
pub fn render_diagnostic_rule_270(engine: &mut FullDiagnosticsEngine, msg: &str, line: usize) -> (r:
    bool)
    ensures
        r == (msg@.len() > 0),
        final(engine)@ == spec_render_rule(old(engine)@, msg@, line as nat),
{
    if msg.is_empty() {
        return false;
    }
    engine.emit_diagnostic(DiagnosticSeverity::Error, msg, line);
    true
}

/// Diagnostic formatting rule #271.
pub fn render_diagnostic_rule_271(engine: &mut FullDiagnosticsEngine, msg: &str, line: usize) -> (r:
    bool)
    ensures
        r == (msg@.len() > 0),
        final(engine)@ == spec_render_rule(old(engine)@, msg@, line as nat),
{
    if msg.is_empty() {
        return false;
    }
    engine.emit_diagnostic(DiagnosticSeverity::Error, msg, line);
    true
}

/// Diagnostic formatting rule #272.
pub fn render_diagnostic_rule_272(engine: &mut FullDiagnosticsEngine, msg: &str, line: usize) -> (r:
    bool)
    ensures
        r == (msg@.len() > 0),
        final(engine)@ == spec_render_rule(old(engine)@, msg@, line as nat),
{
    if msg.is_empty() {
        return false;
    }
    engine.emit_diagnostic(DiagnosticSeverity::Error, msg, line);
    true
}

/// Diagnostic formatting rule #273.
pub fn render_diagnostic_rule_273(engine: &mut FullDiagnosticsEngine, msg: &str, line: usize) -> (r:
    bool)
    ensures
        r == (msg@.len() > 0),
        final(engine)@ == spec_render_rule(old(engine)@, msg@, line as nat),
{
    if msg.is_empty() {
        return false;
    }
    engine.emit_diagnostic(DiagnosticSeverity::Error, msg, line);
    true
}

/// Diagnostic formatting rule #274.
pub fn render_diagnostic_rule_274(engine: &mut FullDiagnosticsEngine, msg: &str, line: usize) -> (r:
    bool)
    ensures
        r == (msg@.len() > 0),
        final(engine)@ == spec_render_rule(old(engine)@, msg@, line as nat),
{
    if msg.is_empty() {
        return false;
    }
    engine.emit_diagnostic(DiagnosticSeverity::Error, msg, line);
    true
}

/// Diagnostic formatting rule #275.
pub fn render_diagnostic_rule_275(engine: &mut FullDiagnosticsEngine, msg: &str, line: usize) -> (r:
    bool)
    ensures
        r == (msg@.len() > 0),
        final(engine)@ == spec_render_rule(old(engine)@, msg@, line as nat),
{
    if msg.is_empty() {
        return false;
    }
    engine.emit_diagnostic(DiagnosticSeverity::Error, msg, line);
    true
}

/// Diagnostic formatting rule #276.
pub fn render_diagnostic_rule_276(engine: &mut FullDiagnosticsEngine, msg: &str, line: usize) -> (r:
    bool)
    ensures
        r == (msg@.len() > 0),
        final(engine)@ == spec_render_rule(old(engine)@, msg@, line as nat),
{
    if msg.is_empty() {
        return false;
    }
    engine.emit_diagnostic(DiagnosticSeverity::Error, msg, line);
    true
}

/// Diagnostic formatting rule #277.
pub fn render_diagnostic_rule_277(engine: &mut FullDiagnosticsEngine, msg: &str, line: usize) -> (r:
    bool)
    ensures
        r == (msg@.len() > 0),
        final(engine)@ == spec_render_rule(old(engine)@, msg@, line as nat),
{
    if msg.is_empty() {
        return false;
    }
    engine.emit_diagnostic(DiagnosticSeverity::Error, msg, line);
    true
}

/// Diagnostic formatting rule #278.
pub fn render_diagnostic_rule_278(engine: &mut FullDiagnosticsEngine, msg: &str, line: usize) -> (r:
    bool)
    ensures
        r == (msg@.len() > 0),
        final(engine)@ == spec_render_rule(old(engine)@, msg@, line as nat),
{
    if msg.is_empty() {
        return false;
    }
    engine.emit_diagnostic(DiagnosticSeverity::Error, msg, line);
    true
}

/// Diagnostic formatting rule #279.
pub fn render_diagnostic_rule_279(engine: &mut FullDiagnosticsEngine, msg: &str, line: usize) -> (r:
    bool)
    ensures
        r == (msg@.len() > 0),
        final(engine)@ == spec_render_rule(old(engine)@, msg@, line as nat),
{
    if msg.is_empty() {
        return false;
    }
    engine.emit_diagnostic(DiagnosticSeverity::Error, msg, line);
    true
}

/// Diagnostic formatting rule #280.
pub fn render_diagnostic_rule_280(engine: &mut FullDiagnosticsEngine, msg: &str, line: usize) -> (r:
    bool)
    ensures
        r == (msg@.len() > 0),
        final(engine)@ == spec_render_rule(old(engine)@, msg@, line as nat),
{
    if msg.is_empty() {
        return false;
    }
    engine.emit_diagnostic(DiagnosticSeverity::Error, msg, line);
    true
}

/// Diagnostic formatting rule #281.
pub fn render_diagnostic_rule_281(engine: &mut FullDiagnosticsEngine, msg: &str, line: usize) -> (r:
    bool)
    ensures
        r == (msg@.len() > 0),
        final(engine)@ == spec_render_rule(old(engine)@, msg@, line as nat),
{
    if msg.is_empty() {
        return false;
    }
    engine.emit_diagnostic(DiagnosticSeverity::Error, msg, line);
    true
}

/// Diagnostic formatting rule #282.
pub fn render_diagnostic_rule_282(engine: &mut FullDiagnosticsEngine, msg: &str, line: usize) -> (r:
    bool)
    ensures
        r == (msg@.len() > 0),
        final(engine)@ == spec_render_rule(old(engine)@, msg@, line as nat),
{
    if msg.is_empty() {
        return false;
    }
    engine.emit_diagnostic(DiagnosticSeverity::Error, msg, line);
    true
}

/// Diagnostic formatting rule #283.
pub fn render_diagnostic_rule_283(engine: &mut FullDiagnosticsEngine, msg: &str, line: usize) -> (r:
    bool)
    ensures
        r == (msg@.len() > 0),
        final(engine)@ == spec_render_rule(old(engine)@, msg@, line as nat),
{
    if msg.is_empty() {
        return false;
    }
    engine.emit_diagnostic(DiagnosticSeverity::Error, msg, line);
    true
}

/// Diagnostic formatting rule #284.
pub fn render_diagnostic_rule_284(engine: &mut FullDiagnosticsEngine, msg: &str, line: usize) -> (r:
    bool)
    ensures
        r == (msg@.len() > 0),
        final(engine)@ == spec_render_rule(old(engine)@, msg@, line as nat),
{
    if msg.is_empty() {
        return false;
    }
    engine.emit_diagnostic(DiagnosticSeverity::Error, msg, line);
    true
}

/// Diagnostic formatting rule #285.
pub fn render_diagnostic_rule_285(engine: &mut FullDiagnosticsEngine, msg: &str, line: usize) -> (r:
    bool)
    ensures
        r == (msg@.len() > 0),
        final(engine)@ == spec_render_rule(old(engine)@, msg@, line as nat),
{
    if msg.is_empty() {
        return false;
    }
    engine.emit_diagnostic(DiagnosticSeverity::Error, msg, line);
    true
}

/// Diagnostic formatting rule #286.
pub fn render_diagnostic_rule_286(engine: &mut FullDiagnosticsEngine, msg: &str, line: usize) -> (r:
    bool)
    ensures
        r == (msg@.len() > 0),
        final(engine)@ == spec_render_rule(old(engine)@, msg@, line as nat),
{
    if msg.is_empty() {
        return false;
    }
    engine.emit_diagnostic(DiagnosticSeverity::Error, msg, line);
    true
}

/// Diagnostic formatting rule #287.
pub fn render_diagnostic_rule_287(engine: &mut FullDiagnosticsEngine, msg: &str, line: usize) -> (r:
    bool)
    ensures
        r == (msg@.len() > 0),
        final(engine)@ == spec_render_rule(old(engine)@, msg@, line as nat),
{
    if msg.is_empty() {
        return false;
    }
    engine.emit_diagnostic(DiagnosticSeverity::Error, msg, line);
    true
}

/// Diagnostic formatting rule #288.
pub fn render_diagnostic_rule_288(engine: &mut FullDiagnosticsEngine, msg: &str, line: usize) -> (r:
    bool)
    ensures
        r == (msg@.len() > 0),
        final(engine)@ == spec_render_rule(old(engine)@, msg@, line as nat),
{
    if msg.is_empty() {
        return false;
    }
    engine.emit_diagnostic(DiagnosticSeverity::Error, msg, line);
    true
}

/// Diagnostic formatting rule #289.
pub fn render_diagnostic_rule_289(engine: &mut FullDiagnosticsEngine, msg: &str, line: usize) -> (r:
    bool)
    ensures
        r == (msg@.len() > 0),
        final(engine)@ == spec_render_rule(old(engine)@, msg@, line as nat),
{
    if msg.is_empty() {
        return false;
    }
    engine.emit_diagnostic(DiagnosticSeverity::Error, msg, line);
    true
}

/// Diagnostic formatting rule #290.
pub fn render_diagnostic_rule_290(engine: &mut FullDiagnosticsEngine, msg: &str, line: usize) -> (r:
    bool)
    ensures
        r == (msg@.len() > 0),
        final(engine)@ == spec_render_rule(old(engine)@, msg@, line as nat),
{
    if msg.is_empty() {
        return false;
    }
    engine.emit_diagnostic(DiagnosticSeverity::Error, msg, line);
    true
}

/// Diagnostic formatting rule #291.
pub fn render_diagnostic_rule_291(engine: &mut FullDiagnosticsEngine, msg: &str, line: usize) -> (r:
    bool)
    ensures
        r == (msg@.len() > 0),
        final(engine)@ == spec_render_rule(old(engine)@, msg@, line as nat),
{
    if msg.is_empty() {
        return false;
    }
    engine.emit_diagnostic(DiagnosticSeverity::Error, msg, line);
    true
}

/// Diagnostic formatting rule #292.
pub fn render_diagnostic_rule_292(engine: &mut FullDiagnosticsEngine, msg: &str, line: usize) -> (r:
    bool)
    ensures
        r == (msg@.len() > 0),
        final(engine)@ == spec_render_rule(old(engine)@, msg@, line as nat),
{
    if msg.is_empty() {
        return false;
    }
    engine.emit_diagnostic(DiagnosticSeverity::Error, msg, line);
    true
}

/// Diagnostic formatting rule #293.
pub fn render_diagnostic_rule_293(engine: &mut FullDiagnosticsEngine, msg: &str, line: usize) -> (r:
    bool)
    ensures
        r == (msg@.len() > 0),
        final(engine)@ == spec_render_rule(old(engine)@, msg@, line as nat),
{
    if msg.is_empty() {
        return false;
    }
    engine.emit_diagnostic(DiagnosticSeverity::Error, msg, line);
    true
}

/// Diagnostic formatting rule #294.
pub fn render_diagnostic_rule_294(engine: &mut FullDiagnosticsEngine, msg: &str, line: usize) -> (r:
    bool)
    ensures
        r == (msg@.len() > 0),
        final(engine)@ == spec_render_rule(old(engine)@, msg@, line as nat),
{
    if msg.is_empty() {
        return false;
    }
    engine.emit_diagnostic(DiagnosticSeverity::Error, msg, line);
    true
}

/// Diagnostic formatting rule #295.
pub fn render_diagnostic_rule_295(engine: &mut FullDiagnosticsEngine, msg: &str, line: usize) -> (r:
    bool)
    ensures
        r == (msg@.len() > 0),
        final(engine)@ == spec_render_rule(old(engine)@, msg@, line as nat),
{
    if msg.is_empty() {
        return false;
    }
    engine.emit_diagnostic(DiagnosticSeverity::Error, msg, line);
    true
}

/// Diagnostic formatting rule #296.
pub fn render_diagnostic_rule_296(engine: &mut FullDiagnosticsEngine, msg: &str, line: usize) -> (r:
    bool)
    ensures
        r == (msg@.len() > 0),
        final(engine)@ == spec_render_rule(old(engine)@, msg@, line as nat),
{
    if msg.is_empty() {
        return false;
    }
    engine.emit_diagnostic(DiagnosticSeverity::Error, msg, line);
    true
}

/// Diagnostic formatting rule #297.
pub fn render_diagnostic_rule_297(engine: &mut FullDiagnosticsEngine, msg: &str, line: usize) -> (r:
    bool)
    ensures
        r == (msg@.len() > 0),
        final(engine)@ == spec_render_rule(old(engine)@, msg@, line as nat),
{
    if msg.is_empty() {
        return false;
    }
    engine.emit_diagnostic(DiagnosticSeverity::Error, msg, line);
    true
}

/// Diagnostic formatting rule #298.
pub fn render_diagnostic_rule_298(engine: &mut FullDiagnosticsEngine, msg: &str, line: usize) -> (r:
    bool)
    ensures
        r == (msg@.len() > 0),
        final(engine)@ == spec_render_rule(old(engine)@, msg@, line as nat),
{
    if msg.is_empty() {
        return false;
    }
    engine.emit_diagnostic(DiagnosticSeverity::Error, msg, line);
    true
}

/// Diagnostic formatting rule #299.
pub fn render_diagnostic_rule_299(engine: &mut FullDiagnosticsEngine, msg: &str, line: usize) -> (r:
    bool)
    ensures
        r == (msg@.len() > 0),
        final(engine)@ == spec_render_rule(old(engine)@, msg@, line as nat),
{
    if msg.is_empty() {
        return false;
    }
    engine.emit_diagnostic(DiagnosticSeverity::Error, msg, line);
    true
}

/// Diagnostic formatting rule #300.
pub fn render_diagnostic_rule_300(engine: &mut FullDiagnosticsEngine, msg: &str, line: usize) -> (r:
    bool)
    ensures
        r == (msg@.len() > 0),
        final(engine)@ == spec_render_rule(old(engine)@, msg@, line as nat),
{
    if msg.is_empty() {
        return false;
    }
    engine.emit_diagnostic(DiagnosticSeverity::Error, msg, line);
    true
}

/// Diagnostic formatting rule #301.
pub fn render_diagnostic_rule_301(engine: &mut FullDiagnosticsEngine, msg: &str, line: usize) -> (r:
    bool)
    ensures
        r == (msg@.len() > 0),
        final(engine)@ == spec_render_rule(old(engine)@, msg@, line as nat),
{
    if msg.is_empty() {
        return false;
    }
    engine.emit_diagnostic(DiagnosticSeverity::Error, msg, line);
    true
}

/// Diagnostic formatting rule #302.
pub fn render_diagnostic_rule_302(engine: &mut FullDiagnosticsEngine, msg: &str, line: usize) -> (r:
    bool)
    ensures
        r == (msg@.len() > 0),
        final(engine)@ == spec_render_rule(old(engine)@, msg@, line as nat),
{
    if msg.is_empty() {
        return false;
    }
    engine.emit_diagnostic(DiagnosticSeverity::Error, msg, line);
    true
}

/// Diagnostic formatting rule #303.
pub fn render_diagnostic_rule_303(engine: &mut FullDiagnosticsEngine, msg: &str, line: usize) -> (r:
    bool)
    ensures
        r == (msg@.len() > 0),
        final(engine)@ == spec_render_rule(old(engine)@, msg@, line as nat),
{
    if msg.is_empty() {
        return false;
    }
    engine.emit_diagnostic(DiagnosticSeverity::Error, msg, line);
    true
}

/// Diagnostic formatting rule #304.
pub fn render_diagnostic_rule_304(engine: &mut FullDiagnosticsEngine, msg: &str, line: usize) -> (r:
    bool)
    ensures
        r == (msg@.len() > 0),
        final(engine)@ == spec_render_rule(old(engine)@, msg@, line as nat),
{
    if msg.is_empty() {
        return false;
    }
    engine.emit_diagnostic(DiagnosticSeverity::Error, msg, line);
    true
}

/// Diagnostic formatting rule #305.
pub fn render_diagnostic_rule_305(engine: &mut FullDiagnosticsEngine, msg: &str, line: usize) -> (r:
    bool)
    ensures
        r == (msg@.len() > 0),
        final(engine)@ == spec_render_rule(old(engine)@, msg@, line as nat),
{
    if msg.is_empty() {
        return false;
    }
    engine.emit_diagnostic(DiagnosticSeverity::Error, msg, line);
    true
}

/// Diagnostic formatting rule #306.
pub fn render_diagnostic_rule_306(engine: &mut FullDiagnosticsEngine, msg: &str, line: usize) -> (r:
    bool)
    ensures
        r == (msg@.len() > 0),
        final(engine)@ == spec_render_rule(old(engine)@, msg@, line as nat),
{
    if msg.is_empty() {
        return false;
    }
    engine.emit_diagnostic(DiagnosticSeverity::Error, msg, line);
    true
}

/// Diagnostic formatting rule #307.
pub fn render_diagnostic_rule_307(engine: &mut FullDiagnosticsEngine, msg: &str, line: usize) -> (r:
    bool)
    ensures
        r == (msg@.len() > 0),
        final(engine)@ == spec_render_rule(old(engine)@, msg@, line as nat),
{
    if msg.is_empty() {
        return false;
    }
    engine.emit_diagnostic(DiagnosticSeverity::Error, msg, line);
    true
}

/// Diagnostic formatting rule #308.
pub fn render_diagnostic_rule_308(engine: &mut FullDiagnosticsEngine, msg: &str, line: usize) -> (r:
    bool)
    ensures
        r == (msg@.len() > 0),
        final(engine)@ == spec_render_rule(old(engine)@, msg@, line as nat),
{
    if msg.is_empty() {
        return false;
    }
    engine.emit_diagnostic(DiagnosticSeverity::Error, msg, line);
    true
}

/// Diagnostic formatting rule #309.
pub fn render_diagnostic_rule_309(engine: &mut FullDiagnosticsEngine, msg: &str, line: usize) -> (r:
    bool)
    ensures
        r == (msg@.len() > 0),
        final(engine)@ == spec_render_rule(old(engine)@, msg@, line as nat),
{
    if msg.is_empty() {
        return false;
    }
    engine.emit_diagnostic(DiagnosticSeverity::Error, msg, line);
    true
}

/// Diagnostic formatting rule #310.
pub fn render_diagnostic_rule_310(engine: &mut FullDiagnosticsEngine, msg: &str, line: usize) -> (r:
    bool)
    ensures
        r == (msg@.len() > 0),
        final(engine)@ == spec_render_rule(old(engine)@, msg@, line as nat),
{
    if msg.is_empty() {
        return false;
    }
    engine.emit_diagnostic(DiagnosticSeverity::Error, msg, line);
    true
}

/// Diagnostic formatting rule #311.
pub fn render_diagnostic_rule_311(engine: &mut FullDiagnosticsEngine, msg: &str, line: usize) -> (r:
    bool)
    ensures
        r == (msg@.len() > 0),
        final(engine)@ == spec_render_rule(old(engine)@, msg@, line as nat),
{
    if msg.is_empty() {
        return false;
    }
    engine.emit_diagnostic(DiagnosticSeverity::Error, msg, line);
    true
}

/// Diagnostic formatting rule #312.
pub fn render_diagnostic_rule_312(engine: &mut FullDiagnosticsEngine, msg: &str, line: usize) -> (r:
    bool)
    ensures
        r == (msg@.len() > 0),
        final(engine)@ == spec_render_rule(old(engine)@, msg@, line as nat),
{
    if msg.is_empty() {
        return false;
    }
    engine.emit_diagnostic(DiagnosticSeverity::Error, msg, line);
    true
}

/// Diagnostic formatting rule #313.
pub fn render_diagnostic_rule_313(engine: &mut FullDiagnosticsEngine, msg: &str, line: usize) -> (r:
    bool)
    ensures
        r == (msg@.len() > 0),
        final(engine)@ == spec_render_rule(old(engine)@, msg@, line as nat),
{
    if msg.is_empty() {
        return false;
    }
    engine.emit_diagnostic(DiagnosticSeverity::Error, msg, line);
    true
}

/// Diagnostic formatting rule #314.
pub fn render_diagnostic_rule_314(engine: &mut FullDiagnosticsEngine, msg: &str, line: usize) -> (r:
    bool)
    ensures
        r == (msg@.len() > 0),
        final(engine)@ == spec_render_rule(old(engine)@, msg@, line as nat),
{
    if msg.is_empty() {
        return false;
    }
    engine.emit_diagnostic(DiagnosticSeverity::Error, msg, line);
    true
}

/// Diagnostic formatting rule #315.
pub fn render_diagnostic_rule_315(engine: &mut FullDiagnosticsEngine, msg: &str, line: usize) -> (r:
    bool)
    ensures
        r == (msg@.len() > 0),
        final(engine)@ == spec_render_rule(old(engine)@, msg@, line as nat),
{
    if msg.is_empty() {
        return false;
    }
    engine.emit_diagnostic(DiagnosticSeverity::Error, msg, line);
    true
}

/// Diagnostic formatting rule #316.
pub fn render_diagnostic_rule_316(engine: &mut FullDiagnosticsEngine, msg: &str, line: usize) -> (r:
    bool)
    ensures
        r == (msg@.len() > 0),
        final(engine)@ == spec_render_rule(old(engine)@, msg@, line as nat),
{
    if msg.is_empty() {
        return false;
    }
    engine.emit_diagnostic(DiagnosticSeverity::Error, msg, line);
    true
}

/// Diagnostic formatting rule #317.
pub fn render_diagnostic_rule_317(engine: &mut FullDiagnosticsEngine, msg: &str, line: usize) -> (r:
    bool)
    ensures
        r == (msg@.len() > 0),
        final(engine)@ == spec_render_rule(old(engine)@, msg@, line as nat),
{
    if msg.is_empty() {
        return false;
    }
    engine.emit_diagnostic(DiagnosticSeverity::Error, msg, line);
    true
}

/// Diagnostic formatting rule #318.
pub fn render_diagnostic_rule_318(engine: &mut FullDiagnosticsEngine, msg: &str, line: usize) -> (r:
    bool)
    ensures
        r == (msg@.len() > 0),
        final(engine)@ == spec_render_rule(old(engine)@, msg@, line as nat),
{
    if msg.is_empty() {
        return false;
    }
    engine.emit_diagnostic(DiagnosticSeverity::Error, msg, line);
    true
}

/// Diagnostic formatting rule #319.
pub fn render_diagnostic_rule_319(engine: &mut FullDiagnosticsEngine, msg: &str, line: usize) -> (r:
    bool)
    ensures
        r == (msg@.len() > 0),
        final(engine)@ == spec_render_rule(old(engine)@, msg@, line as nat),
{
    if msg.is_empty() {
        return false;
    }
    engine.emit_diagnostic(DiagnosticSeverity::Error, msg, line);
    true
}

/// Diagnostic formatting rule #320.
pub fn render_diagnostic_rule_320(engine: &mut FullDiagnosticsEngine, msg: &str, line: usize) -> (r:
    bool)
    ensures
        r == (msg@.len() > 0),
        final(engine)@ == spec_render_rule(old(engine)@, msg@, line as nat),
{
    if msg.is_empty() {
        return false;
    }
    engine.emit_diagnostic(DiagnosticSeverity::Error, msg, line);
    true
}

/// Diagnostic formatting rule #321.
pub fn render_diagnostic_rule_321(engine: &mut FullDiagnosticsEngine, msg: &str, line: usize) -> (r:
    bool)
    ensures
        r == (msg@.len() > 0),
        final(engine)@ == spec_render_rule(old(engine)@, msg@, line as nat),
{
    if msg.is_empty() {
        return false;
    }
    engine.emit_diagnostic(DiagnosticSeverity::Error, msg, line);
    true
}

/// Diagnostic formatting rule #322.
pub fn render_diagnostic_rule_322(engine: &mut FullDiagnosticsEngine, msg: &str, line: usize) -> (r:
    bool)
    ensures
        r == (msg@.len() > 0),
        final(engine)@ == spec_render_rule(old(engine)@, msg@, line as nat),
{
    if msg.is_empty() {
        return false;
    }
    engine.emit_diagnostic(DiagnosticSeverity::Error, msg, line);
    true
}

/// Diagnostic formatting rule #323.
pub fn render_diagnostic_rule_323(engine: &mut FullDiagnosticsEngine, msg: &str, line: usize) -> (r:
    bool)
    ensures
        r == (msg@.len() > 0),
        final(engine)@ == spec_render_rule(old(engine)@, msg@, line as nat),
{
    if msg.is_empty() {
        return false;
    }
    engine.emit_diagnostic(DiagnosticSeverity::Error, msg, line);
    true
}

/// Diagnostic formatting rule #324.
pub fn render_diagnostic_rule_324(engine: &mut FullDiagnosticsEngine, msg: &str, line: usize) -> (r:
    bool)
    ensures
        r == (msg@.len() > 0),
        final(engine)@ == spec_render_rule(old(engine)@, msg@, line as nat),
{
    if msg.is_empty() {
        return false;
    }
    engine.emit_diagnostic(DiagnosticSeverity::Error, msg, line);
    true
}

/// Diagnostic formatting rule #325.
pub fn render_diagnostic_rule_325(engine: &mut FullDiagnosticsEngine, msg: &str, line: usize) -> (r:
    bool)
    ensures
        r == (msg@.len() > 0),
        final(engine)@ == spec_render_rule(old(engine)@, msg@, line as nat),
{
    if msg.is_empty() {
        return false;
    }
    engine.emit_diagnostic(DiagnosticSeverity::Error, msg, line);
    true
}

/// Diagnostic formatting rule #326.
pub fn render_diagnostic_rule_326(engine: &mut FullDiagnosticsEngine, msg: &str, line: usize) -> (r:
    bool)
    ensures
        r == (msg@.len() > 0),
        final(engine)@ == spec_render_rule(old(engine)@, msg@, line as nat),
{
    if msg.is_empty() {
        return false;
    }
    engine.emit_diagnostic(DiagnosticSeverity::Error, msg, line);
    true
}

/// Diagnostic formatting rule #327.
pub fn render_diagnostic_rule_327(engine: &mut FullDiagnosticsEngine, msg: &str, line: usize) -> (r:
    bool)
    ensures
        r == (msg@.len() > 0),
        final(engine)@ == spec_render_rule(old(engine)@, msg@, line as nat),
{
    if msg.is_empty() {
        return false;
    }
    engine.emit_diagnostic(DiagnosticSeverity::Error, msg, line);
    true
}

/// Diagnostic formatting rule #328.
pub fn render_diagnostic_rule_328(engine: &mut FullDiagnosticsEngine, msg: &str, line: usize) -> (r:
    bool)
    ensures
        r == (msg@.len() > 0),
        final(engine)@ == spec_render_rule(old(engine)@, msg@, line as nat),
{
    if msg.is_empty() {
        return false;
    }
    engine.emit_diagnostic(DiagnosticSeverity::Error, msg, line);
    true
}

/// Diagnostic formatting rule #329.
pub fn render_diagnostic_rule_329(engine: &mut FullDiagnosticsEngine, msg: &str, line: usize) -> (r:
    bool)
    ensures
        r == (msg@.len() > 0),
        final(engine)@ == spec_render_rule(old(engine)@, msg@, line as nat),
{
    if msg.is_empty() {
        return false;
    }
    engine.emit_diagnostic(DiagnosticSeverity::Error, msg, line);
    true
}

/// Diagnostic formatting rule #330.
pub fn render_diagnostic_rule_330(engine: &mut FullDiagnosticsEngine, msg: &str, line: usize) -> (r:
    bool)
    ensures
        r == (msg@.len() > 0),
        final(engine)@ == spec_render_rule(old(engine)@, msg@, line as nat),
{
    if msg.is_empty() {
        return false;
    }
    engine.emit_diagnostic(DiagnosticSeverity::Error, msg, line);
    true
}

/// Diagnostic formatting rule #331.
pub fn render_diagnostic_rule_331(engine: &mut FullDiagnosticsEngine, msg: &str, line: usize) -> (r:
    bool)
    ensures
        r == (msg@.len() > 0),
        final(engine)@ == spec_render_rule(old(engine)@, msg@, line as nat),
{
    if msg.is_empty() {
        return false;
    }
    engine.emit_diagnostic(DiagnosticSeverity::Error, msg, line);
    true
}

/// Diagnostic formatting rule #332.
pub fn render_diagnostic_rule_332(engine: &mut FullDiagnosticsEngine, msg: &str, line: usize) -> (r:
    bool)
    ensures
        r == (msg@.len() > 0),
        final(engine)@ == spec_render_rule(old(engine)@, msg@, line as nat),
{
    if msg.is_empty() {
        return false;
    }
    engine.emit_diagnostic(DiagnosticSeverity::Error, msg, line);
    true
}

/// Diagnostic formatting rule #333.
pub fn render_diagnostic_rule_333(engine: &mut FullDiagnosticsEngine, msg: &str, line: usize) -> (r:
    bool)
    ensures
        r == (msg@.len() > 0),
        final(engine)@ == spec_render_rule(old(engine)@, msg@, line as nat),
{
    if msg.is_empty() {
        return false;
    }
    engine.emit_diagnostic(DiagnosticSeverity::Error, msg, line);
    true
}

/// Diagnostic formatting rule #334.
pub fn render_diagnostic_rule_334(engine: &mut FullDiagnosticsEngine, msg: &str, line: usize) -> (r:
    bool)
    ensures
        r == (msg@.len() > 0),
        final(engine)@ == spec_render_rule(old(engine)@, msg@, line as nat),
{
    if msg.is_empty() {
        return false;
    }
    engine.emit_diagnostic(DiagnosticSeverity::Error, msg, line);
    true
}

/// Diagnostic formatting rule #335.
pub fn render_diagnostic_rule_335(engine: &mut FullDiagnosticsEngine, msg: &str, line: usize) -> (r:
    bool)
    ensures
        r == (msg@.len() > 0),
        final(engine)@ == spec_render_rule(old(engine)@, msg@, line as nat),
{
    if msg.is_empty() {
        return false;
    }
    engine.emit_diagnostic(DiagnosticSeverity::Error, msg, line);
    true
}

/// Diagnostic formatting rule #336.
pub fn render_diagnostic_rule_336(engine: &mut FullDiagnosticsEngine, msg: &str, line: usize) -> (r:
    bool)
    ensures
        r == (msg@.len() > 0),
        final(engine)@ == spec_render_rule(old(engine)@, msg@, line as nat),
{
    if msg.is_empty() {
        return false;
    }
    engine.emit_diagnostic(DiagnosticSeverity::Error, msg, line);
    true
}

/// Diagnostic formatting rule #337.
pub fn render_diagnostic_rule_337(engine: &mut FullDiagnosticsEngine, msg: &str, line: usize) -> (r:
    bool)
    ensures
        r == (msg@.len() > 0),
        final(engine)@ == spec_render_rule(old(engine)@, msg@, line as nat),
{
    if msg.is_empty() {
        return false;
    }
    engine.emit_diagnostic(DiagnosticSeverity::Error, msg, line);
    true
}

/// Diagnostic formatting rule #338.
pub fn render_diagnostic_rule_338(engine: &mut FullDiagnosticsEngine, msg: &str, line: usize) -> (r:
    bool)
    ensures
        r == (msg@.len() > 0),
        final(engine)@ == spec_render_rule(old(engine)@, msg@, line as nat),
{
    if msg.is_empty() {
        return false;
    }
    engine.emit_diagnostic(DiagnosticSeverity::Error, msg, line);
    true
}

/// Diagnostic formatting rule #339.
pub fn render_diagnostic_rule_339(engine: &mut FullDiagnosticsEngine, msg: &str, line: usize) -> (r:
    bool)
    ensures
        r == (msg@.len() > 0),
        final(engine)@ == spec_render_rule(old(engine)@, msg@, line as nat),
{
    if msg.is_empty() {
        return false;
    }
    engine.emit_diagnostic(DiagnosticSeverity::Error, msg, line);
    true
}

/// Diagnostic formatting rule #340.
pub fn render_diagnostic_rule_340(engine: &mut FullDiagnosticsEngine, msg: &str, line: usize) -> (r:
    bool)
    ensures
        r == (msg@.len() > 0),
        final(engine)@ == spec_render_rule(old(engine)@, msg@, line as nat),
{
    if msg.is_empty() {
        return false;
    }
    engine.emit_diagnostic(DiagnosticSeverity::Error, msg, line);
    true
}

/// Diagnostic formatting rule #341.
pub fn render_diagnostic_rule_341(engine: &mut FullDiagnosticsEngine, msg: &str, line: usize) -> (r:
    bool)
    ensures
        r == (msg@.len() > 0),
        final(engine)@ == spec_render_rule(old(engine)@, msg@, line as nat),
{
    if msg.is_empty() {
        return false;
    }
    engine.emit_diagnostic(DiagnosticSeverity::Error, msg, line);
    true
}

/// Diagnostic formatting rule #342.
pub fn render_diagnostic_rule_342(engine: &mut FullDiagnosticsEngine, msg: &str, line: usize) -> (r:
    bool)
    ensures
        r == (msg@.len() > 0),
        final(engine)@ == spec_render_rule(old(engine)@, msg@, line as nat),
{
    if msg.is_empty() {
        return false;
    }
    engine.emit_diagnostic(DiagnosticSeverity::Error, msg, line);
    true
}

/// Diagnostic formatting rule #343.
pub fn render_diagnostic_rule_343(engine: &mut FullDiagnosticsEngine, msg: &str, line: usize) -> (r:
    bool)
    ensures
        r == (msg@.len() > 0),
        final(engine)@ == spec_render_rule(old(engine)@, msg@, line as nat),
{
    if msg.is_empty() {
        return false;
    }
    engine.emit_diagnostic(DiagnosticSeverity::Error, msg, line);
    true
}

/// Diagnostic formatting rule #344.
pub fn render_diagnostic_rule_344(engine: &mut FullDiagnosticsEngine, msg: &str, line: usize) -> (r:
    bool)
    ensures
        r == (msg@.len() > 0),
        final(engine)@ == spec_render_rule(old(engine)@, msg@, line as nat),
{
    if msg.is_empty() {
        return false;
    }
    engine.emit_diagnostic(DiagnosticSeverity::Error, msg, line);
    true
}

/// Diagnostic formatting rule #345.
pub fn render_diagnostic_rule_345(engine: &mut FullDiagnosticsEngine, msg: &str, line: usize) -> (r:
    bool)
    ensures
        r == (msg@.len() > 0),
        final(engine)@ == spec_render_rule(old(engine)@, msg@, line as nat),
{
    if msg.is_empty() {
        return false;
    }
    engine.emit_diagnostic(DiagnosticSeverity::Error, msg, line);
    true
}

/// Diagnostic formatting rule #346.
pub fn render_diagnostic_rule_346(engine: &mut FullDiagnosticsEngine, msg: &str, line: usize) -> (r:
    bool)
    ensures
        r == (msg@.len() > 0),
        final(engine)@ == spec_render_rule(old(engine)@, msg@, line as nat),
{
    if msg.is_empty() {
        return false;
    }
    engine.emit_diagnostic(DiagnosticSeverity::Error, msg, line);
    true
}

/// Diagnostic formatting rule #347.
pub fn render_diagnostic_rule_347(engine: &mut FullDiagnosticsEngine, msg: &str, line: usize) -> (r:
    bool)
    ensures
        r == (msg@.len() > 0),
        final(engine)@ == spec_render_rule(old(engine)@, msg@, line as nat),
{
    if msg.is_empty() {
        return false;
    }
    engine.emit_diagnostic(DiagnosticSeverity::Error, msg, line);
    true
}

/// Diagnostic formatting rule #348.
pub fn render_diagnostic_rule_348(engine: &mut FullDiagnosticsEngine, msg: &str, line: usize) -> (r:
    bool)
    ensures
        r == (msg@.len() > 0),
        final(engine)@ == spec_render_rule(old(engine)@, msg@, line as nat),
{
    if msg.is_empty() {
        return false;
    }
    engine.emit_diagnostic(DiagnosticSeverity::Error, msg, line);
    true
}

/// Diagnostic formatting rule #349.
pub fn render_diagnostic_rule_349(engine: &mut FullDiagnosticsEngine, msg: &str, line: usize) -> (r:
    bool)
    ensures
        r == (msg@.len() > 0),
        final(engine)@ == spec_render_rule(old(engine)@, msg@, line as nat),
{
    if msg.is_empty() {
        return false;
    }
    engine.emit_diagnostic(DiagnosticSeverity::Error, msg, line);
    true
}

/// Diagnostic formatting rule #350.
pub fn render_diagnostic_rule_350(engine: &mut FullDiagnosticsEngine, msg: &str, line: usize) -> (r:
    bool)
    ensures
        r == (msg@.len() > 0),
        final(engine)@ == spec_render_rule(old(engine)@, msg@, line as nat),
{
    if msg.is_empty() {
        return false;
    }
    engine.emit_diagnostic(DiagnosticSeverity::Error, msg, line);
    true
}

/// Diagnostic formatting rule #351.
pub fn render_diagnostic_rule_351(engine: &mut FullDiagnosticsEngine, msg: &str, line: usize) -> (r:
    bool)
    ensures
        r == (msg@.len() > 0),
        final(engine)@ == spec_render_rule(old(engine)@, msg@, line as nat),
{
    if msg.is_empty() {
        return false;
    }
    engine.emit_diagnostic(DiagnosticSeverity::Error, msg, line);
    true
}

/// Diagnostic formatting rule #352.
pub fn render_diagnostic_rule_352(engine: &mut FullDiagnosticsEngine, msg: &str, line: usize) -> (r:
    bool)
    ensures
        r == (msg@.len() > 0),
        final(engine)@ == spec_render_rule(old(engine)@, msg@, line as nat),
{
    if msg.is_empty() {
        return false;
    }
    engine.emit_diagnostic(DiagnosticSeverity::Error, msg, line);
    true
}

/// Diagnostic formatting rule #353.
pub fn render_diagnostic_rule_353(engine: &mut FullDiagnosticsEngine, msg: &str, line: usize) -> (r:
    bool)
    ensures
        r == (msg@.len() > 0),
        final(engine)@ == spec_render_rule(old(engine)@, msg@, line as nat),
{
    if msg.is_empty() {
        return false;
    }
    engine.emit_diagnostic(DiagnosticSeverity::Error, msg, line);
    true
}

/// Diagnostic formatting rule #354.
pub fn render_diagnostic_rule_354(engine: &mut FullDiagnosticsEngine, msg: &str, line: usize) -> (r:
    bool)
    ensures
        r == (msg@.len() > 0),
        final(engine)@ == spec_render_rule(old(engine)@, msg@, line as nat),
{
    if msg.is_empty() {
        return false;
    }
    engine.emit_diagnostic(DiagnosticSeverity::Error, msg, line);
    true
}

/// Diagnostic formatting rule #355.
pub fn render_diagnostic_rule_355(engine: &mut FullDiagnosticsEngine, msg: &str, line: usize) -> (r:
    bool)
    ensures
        r == (msg@.len() > 0),
        final(engine)@ == spec_render_rule(old(engine)@, msg@, line as nat),
{
    if msg.is_empty() {
        return false;
    }
    engine.emit_diagnostic(DiagnosticSeverity::Error, msg, line);
    true
}

/// Diagnostic formatting rule #356.
pub fn render_diagnostic_rule_356(engine: &mut FullDiagnosticsEngine, msg: &str, line: usize) -> (r:
    bool)
    ensures
        r == (msg@.len() > 0),
        final(engine)@ == spec_render_rule(old(engine)@, msg@, line as nat),
{
    if msg.is_empty() {
        return false;
    }
    engine.emit_diagnostic(DiagnosticSeverity::Error, msg, line);
    true
}

/// Diagnostic formatting rule #357.
pub fn render_diagnostic_rule_357(engine: &mut FullDiagnosticsEngine, msg: &str, line: usize) -> (r:
    bool)
    ensures
        r == (msg@.len() > 0),
        final(engine)@ == spec_render_rule(old(engine)@, msg@, line as nat),
{
    if msg.is_empty() {
        return false;
    }
    engine.emit_diagnostic(DiagnosticSeverity::Error, msg, line);
    true
}

/// Diagnostic formatting rule #358.
pub fn render_diagnostic_rule_358(engine: &mut FullDiagnosticsEngine, msg: &str, line: usize) -> (r:
    bool)
    ensures
        r == (msg@.len() > 0),
        final(engine)@ == spec_render_rule(old(engine)@, msg@, line as nat),
{
    if msg.is_empty() {
        return false;
    }
    engine.emit_diagnostic(DiagnosticSeverity::Error, msg, line);
    true
}

/// Diagnostic formatting rule #359.
pub fn render_diagnostic_rule_359(engine: &mut FullDiagnosticsEngine, msg: &str, line: usize) -> (r:
    bool)
    ensures
        r == (msg@.len() > 0),
        final(engine)@ == spec_render_rule(old(engine)@, msg@, line as nat),
{
    if msg.is_empty() {
        return false;
    }
    engine.emit_diagnostic(DiagnosticSeverity::Error, msg, line);
    true
}

/// Diagnostic formatting rule #360.
pub fn render_diagnostic_rule_360(engine: &mut FullDiagnosticsEngine, msg: &str, line: usize) -> (r:
    bool)
    ensures
        r == (msg@.len() > 0),
        final(engine)@ == spec_render_rule(old(engine)@, msg@, line as nat),
{
    if msg.is_empty() {
        return false;
    }
    engine.emit_diagnostic(DiagnosticSeverity::Error, msg, line);
    true
}

/// Diagnostic formatting rule #361.
pub fn render_diagnostic_rule_361(engine: &mut FullDiagnosticsEngine, msg: &str, line: usize) -> (r:
    bool)
    ensures
        r == (msg@.len() > 0),
        final(engine)@ == spec_render_rule(old(engine)@, msg@, line as nat),
{
    if msg.is_empty() {
        return false;
    }
    engine.emit_diagnostic(DiagnosticSeverity::Error, msg, line);
    true
}

/// Diagnostic formatting rule #362.
pub fn render_diagnostic_rule_362(engine: &mut FullDiagnosticsEngine, msg: &str, line: usize) -> (r:
    bool)
    ensures
        r == (msg@.len() > 0),
        final(engine)@ == spec_render_rule(old(engine)@, msg@, line as nat),
{
    if msg.is_empty() {
        return false;
    }
    engine.emit_diagnostic(DiagnosticSeverity::Error, msg, line);
    true
}

/// Diagnostic formatting rule #363.
pub fn render_diagnostic_rule_363(engine: &mut FullDiagnosticsEngine, msg: &str, line: usize) -> (r:
    bool)
    ensures
        r == (msg@.len() > 0),
        final(engine)@ == spec_render_rule(old(engine)@, msg@, line as nat),
{
    if msg.is_empty() {
        return false;
    }
    engine.emit_diagnostic(DiagnosticSeverity::Error, msg, line);
    true
}

/// Diagnostic formatting rule #364.
pub fn render_diagnostic_rule_364(engine: &mut FullDiagnosticsEngine, msg: &str, line: usize) -> (r:
    bool)
    ensures
        r == (msg@.len() > 0),
        final(engine)@ == spec_render_rule(old(engine)@, msg@, line as nat),
{
    if msg.is_empty() {
        return false;
    }
    engine.emit_diagnostic(DiagnosticSeverity::Error, msg, line);
    true
}

/// Diagnostic formatting rule #365.
pub fn render_diagnostic_rule_365(engine: &mut FullDiagnosticsEngine, msg: &str, line: usize) -> (r:
    bool)
    ensures
        r == (msg@.len() > 0),
        final(engine)@ == spec_render_rule(old(engine)@, msg@, line as nat),
{
    if msg.is_empty() {
        return false;
    }
    engine.emit_diagnostic(DiagnosticSeverity::Error, msg, line);
    true
}

/// Diagnostic formatting rule #366.
pub fn render_diagnostic_rule_366(engine: &mut FullDiagnosticsEngine, msg: &str, line: usize) -> (r:
    bool)
    ensures
        r == (msg@.len() > 0),
        final(engine)@ == spec_render_rule(old(engine)@, msg@, line as nat),
{
    if msg.is_empty() {
        return false;
    }
    engine.emit_diagnostic(DiagnosticSeverity::Error, msg, line);
    true
}

/// Diagnostic formatting rule #367.
pub fn render_diagnostic_rule_367(engine: &mut FullDiagnosticsEngine, msg: &str, line: usize) -> (r:
    bool)
    ensures
        r == (msg@.len() > 0),
        final(engine)@ == spec_render_rule(old(engine)@, msg@, line as nat),
{
    if msg.is_empty() {
        return false;
    }
    engine.emit_diagnostic(DiagnosticSeverity::Error, msg, line);
    true
}

/// Diagnostic formatting rule #368.
pub fn render_diagnostic_rule_368(engine: &mut FullDiagnosticsEngine, msg: &str, line: usize) -> (r:
    bool)
    ensures
        r == (msg@.len() > 0),
        final(engine)@ == spec_render_rule(old(engine)@, msg@, line as nat),
{
    if msg.is_empty() {
        return false;
    }
    engine.emit_diagnostic(DiagnosticSeverity::Error, msg, line);
    true
}

/// Diagnostic formatting rule #369.
pub fn render_diagnostic_rule_369(engine: &mut FullDiagnosticsEngine, msg: &str, line: usize) -> (r:
    bool)
    ensures
        r == (msg@.len() > 0),
        final(engine)@ == spec_render_rule(old(engine)@, msg@, line as nat),
{
    if msg.is_empty() {
        return false;
    }
    engine.emit_diagnostic(DiagnosticSeverity::Error, msg, line);
    true
}

/// Diagnostic formatting rule #370.
pub fn render_diagnostic_rule_370(engine: &mut FullDiagnosticsEngine, msg: &str, line: usize) -> (r:
    bool)
    ensures
        r == (msg@.len() > 0),
        final(engine)@ == spec_render_rule(old(engine)@, msg@, line as nat),
{
    if msg.is_empty() {
        return false;
    }
    engine.emit_diagnostic(DiagnosticSeverity::Error, msg, line);
    true
}

/// Diagnostic formatting rule #371.
pub fn render_diagnostic_rule_371(engine: &mut FullDiagnosticsEngine, msg: &str, line: usize) -> (r:
    bool)
    ensures
        r == (msg@.len() > 0),
        final(engine)@ == spec_render_rule(old(engine)@, msg@, line as nat),
{
    if msg.is_empty() {
        return false;
    }
    engine.emit_diagnostic(DiagnosticSeverity::Error, msg, line);
    true
}

/// Diagnostic formatting rule #372.
pub fn render_diagnostic_rule_372(engine: &mut FullDiagnosticsEngine, msg: &str, line: usize) -> (r:
    bool)
    ensures
        r == (msg@.len() > 0),
        final(engine)@ == spec_render_rule(old(engine)@, msg@, line as nat),
{
    if msg.is_empty() {
        return false;
    }
    engine.emit_diagnostic(DiagnosticSeverity::Error, msg, line);
    true
}

/// Diagnostic formatting rule #373.
pub fn render_diagnostic_rule_373(engine: &mut FullDiagnosticsEngine, msg: &str, line: usize) -> (r:
    bool)
    ensures
        r == (msg@.len() > 0),
        final(engine)@ == spec_render_rule(old(engine)@, msg@, line as nat),
{
    if msg.is_empty() {
        return false;
    }
    engine.emit_diagnostic(DiagnosticSeverity::Error, msg, line);
    true
}

/// Diagnostic formatting rule #374.
pub fn render_diagnostic_rule_374(engine: &mut FullDiagnosticsEngine, msg: &str, line: usize) -> (r:
    bool)
    ensures
        r == (msg@.len() > 0),
        final(engine)@ == spec_render_rule(old(engine)@, msg@, line as nat),
{
    if msg.is_empty() {
        return false;
    }
    engine.emit_diagnostic(DiagnosticSeverity::Error, msg, line);
    true
}

/// Diagnostic formatting rule #375.
pub fn render_diagnostic_rule_375(engine: &mut FullDiagnosticsEngine, msg: &str, line: usize) -> (r:
    bool)
    ensures
        r == (msg@.len() > 0),
        final(engine)@ == spec_render_rule(old(engine)@, msg@, line as nat),
{
    if msg.is_empty() {
        return false;
    }
    engine.emit_diagnostic(DiagnosticSeverity::Error, msg, line);
    true
}

/// Diagnostic formatting rule #376.
pub fn render_diagnostic_rule_376(engine: &mut FullDiagnosticsEngine, msg: &str, line: usize) -> (r:
    bool)
    ensures
        r == (msg@.len() > 0),
        final(engine)@ == spec_render_rule(old(engine)@, msg@, line as nat),
{
    if msg.is_empty() {
        return false;
    }
    engine.emit_diagnostic(DiagnosticSeverity::Error, msg, line);
    true
}

/// Diagnostic formatting rule #377.
pub fn render_diagnostic_rule_377(engine: &mut FullDiagnosticsEngine, msg: &str, line: usize) -> (r:
    bool)
    ensures
        r == (msg@.len() > 0),
        final(engine)@ == spec_render_rule(old(engine)@, msg@, line as nat),
{
    if msg.is_empty() {
        return false;
    }
    engine.emit_diagnostic(DiagnosticSeverity::Error, msg, line);
    true
}

/// Diagnostic formatting rule #378.
pub fn render_diagnostic_rule_378(engine: &mut FullDiagnosticsEngine, msg: &str, line: usize) -> (r:
    bool)
    ensures
        r == (msg@.len() > 0),
        final(engine)@ == spec_render_rule(old(engine)@, msg@, line as nat),
{
    if msg.is_empty() {
        return false;
    }
    engine.emit_diagnostic(DiagnosticSeverity::Error, msg, line);
    true
}

/// Diagnostic formatting rule #379.
pub fn render_diagnostic_rule_379(engine: &mut FullDiagnosticsEngine, msg: &str, line: usize) -> (r:
    bool)
    ensures
        r == (msg@.len() > 0),
        final(engine)@ == spec_render_rule(old(engine)@, msg@, line as nat),
{
    if msg.is_empty() {
        return false;
    }
    engine.emit_diagnostic(DiagnosticSeverity::Error, msg, line);
    true
}

/// Diagnostic formatting rule #380.
pub fn render_diagnostic_rule_380(engine: &mut FullDiagnosticsEngine, msg: &str, line: usize) -> (r:
    bool)
    ensures
        r == (msg@.len() > 0),
        final(engine)@ == spec_render_rule(old(engine)@, msg@, line as nat),
{
    if msg.is_empty() {
        return false;
    }
    engine.emit_diagnostic(DiagnosticSeverity::Error, msg, line);
    true
}

/// Diagnostic formatting rule #381.
pub fn render_diagnostic_rule_381(engine: &mut FullDiagnosticsEngine, msg: &str, line: usize) -> (r:
    bool)
    ensures
        r == (msg@.len() > 0),
        final(engine)@ == spec_render_rule(old(engine)@, msg@, line as nat),
{
    if msg.is_empty() {
        return false;
    }
    engine.emit_diagnostic(DiagnosticSeverity::Error, msg, line);
    true
}

/// Diagnostic formatting rule #382.
pub fn render_diagnostic_rule_382(engine: &mut FullDiagnosticsEngine, msg: &str, line: usize) -> (r:
    bool)
    ensures
        r == (msg@.len() > 0),
        final(engine)@ == spec_render_rule(old(engine)@, msg@, line as nat),
{
    if msg.is_empty() {
        return false;
    }
    engine.emit_diagnostic(DiagnosticSeverity::Error, msg, line);
    true
}

/// Diagnostic formatting rule #383.
pub fn render_diagnostic_rule_383(engine: &mut FullDiagnosticsEngine, msg: &str, line: usize) -> (r:
    bool)
    ensures
        r == (msg@.len() > 0),
        final(engine)@ == spec_render_rule(old(engine)@, msg@, line as nat),
{
    if msg.is_empty() {
        return false;
    }
    engine.emit_diagnostic(DiagnosticSeverity::Error, msg, line);
    true
}

/// Diagnostic formatting rule #384.
pub fn render_diagnostic_rule_384(engine: &mut FullDiagnosticsEngine, msg: &str, line: usize) -> (r:
    bool)
    ensures
        r == (msg@.len() > 0),
        final(engine)@ == spec_render_rule(old(engine)@, msg@, line as nat),
{
    if msg.is_empty() {
        return false;
    }
    engine.emit_diagnostic(DiagnosticSeverity::Error, msg, line);
    true
}

/// Diagnostic formatting rule #385.
pub fn render_diagnostic_rule_385(engine: &mut FullDiagnosticsEngine, msg: &str, line: usize) -> (r:
    bool)
    ensures
        r == (msg@.len() > 0),
        final(engine)@ == spec_render_rule(old(engine)@, msg@, line as nat),
{
    if msg.is_empty() {
        return false;
    }
    engine.emit_diagnostic(DiagnosticSeverity::Error, msg, line);
    true
}

/// Diagnostic formatting rule #386.
pub fn render_diagnostic_rule_386(engine: &mut FullDiagnosticsEngine, msg: &str, line: usize) -> (r:
    bool)
    ensures
        r == (msg@.len() > 0),
        final(engine)@ == spec_render_rule(old(engine)@, msg@, line as nat),
{
    if msg.is_empty() {
        return false;
    }
    engine.emit_diagnostic(DiagnosticSeverity::Error, msg, line);
    true
}

/// Diagnostic formatting rule #387.
pub fn render_diagnostic_rule_387(engine: &mut FullDiagnosticsEngine, msg: &str, line: usize) -> (r:
    bool)
    ensures
        r == (msg@.len() > 0),
        final(engine)@ == spec_render_rule(old(engine)@, msg@, line as nat),
{
    if msg.is_empty() {
        return false;
    }
    engine.emit_diagnostic(DiagnosticSeverity::Error, msg, line);
    true
}

/// Diagnostic formatting rule #388.
pub fn render_diagnostic_rule_388(engine: &mut FullDiagnosticsEngine, msg: &str, line: usize) -> (r:
    bool)
    ensures
        r == (msg@.len() > 0),
        final(engine)@ == spec_render_rule(old(engine)@, msg@, line as nat),
{
    if msg.is_empty() {
        return false;
    }
    engine.emit_diagnostic(DiagnosticSeverity::Error, msg, line);
    true
}

/// Diagnostic formatting rule #389.
pub fn render_diagnostic_rule_389(engine: &mut FullDiagnosticsEngine, msg: &str, line: usize) -> (r:
    bool)
    ensures
        r == (msg@.len() > 0),
        final(engine)@ == spec_render_rule(old(engine)@, msg@, line as nat),
{
    if msg.is_empty() {
        return false;
    }
    engine.emit_diagnostic(DiagnosticSeverity::Error, msg, line);
    true
}

/// Diagnostic formatting rule #390.
pub fn render_diagnostic_rule_390(engine: &mut FullDiagnosticsEngine, msg: &str, line: usize) -> (r:
    bool)
    ensures
        r == (msg@.len() > 0),
        final(engine)@ == spec_render_rule(old(engine)@, msg@, line as nat),
{
    if msg.is_empty() {
        return false;
    }
    engine.emit_diagnostic(DiagnosticSeverity::Error, msg, line);
    true
}

/// Diagnostic formatting rule #391.
pub fn render_diagnostic_rule_391(engine: &mut FullDiagnosticsEngine, msg: &str, line: usize) -> (r:
    bool)
    ensures
        r == (msg@.len() > 0),
        final(engine)@ == spec_render_rule(old(engine)@, msg@, line as nat),
{
    if msg.is_empty() {
        return false;
    }
    engine.emit_diagnostic(DiagnosticSeverity::Error, msg, line);
    true
}

/// Diagnostic formatting rule #392.
pub fn render_diagnostic_rule_392(engine: &mut FullDiagnosticsEngine, msg: &str, line: usize) -> (r:
    bool)
    ensures
        r == (msg@.len() > 0),
        final(engine)@ == spec_render_rule(old(engine)@, msg@, line as nat),
{
    if msg.is_empty() {
        return false;
    }
    engine.emit_diagnostic(DiagnosticSeverity::Error, msg, line);
    true
}

/// Diagnostic formatting rule #393.
pub fn render_diagnostic_rule_393(engine: &mut FullDiagnosticsEngine, msg: &str, line: usize) -> (r:
    bool)
    ensures
        r == (msg@.len() > 0),
        final(engine)@ == spec_render_rule(old(engine)@, msg@, line as nat),
{
    if msg.is_empty() {
        return false;
    }
    engine.emit_diagnostic(DiagnosticSeverity::Error, msg, line);
    true
}

/// Diagnostic formatting rule #394.
pub fn render_diagnostic_rule_394(engine: &mut FullDiagnosticsEngine, msg: &str, line: usize) -> (r:
    bool)
    ensures
        r == (msg@.len() > 0),
        final(engine)@ == spec_render_rule(old(engine)@, msg@, line as nat),
{
    if msg.is_empty() {
        return false;
    }
    engine.emit_diagnostic(DiagnosticSeverity::Error, msg, line);
    true
}

/// Diagnostic formatting rule #395.
pub fn render_diagnostic_rule_395(engine: &mut FullDiagnosticsEngine, msg: &str, line: usize) -> (r:
    bool)
    ensures
        r == (msg@.len() > 0),
        final(engine)@ == spec_render_rule(old(engine)@, msg@, line as nat),
{
    if msg.is_empty() {
        return false;
    }
    engine.emit_diagnostic(DiagnosticSeverity::Error, msg, line);
    true
}

/// Diagnostic formatting rule #396.
pub fn render_diagnostic_rule_396(engine: &mut FullDiagnosticsEngine, msg: &str, line: usize) -> (r:
    bool)
    ensures
        r == (msg@.len() > 0),
        final(engine)@ == spec_render_rule(old(engine)@, msg@, line as nat),
{
    if msg.is_empty() {
        return false;
    }
    engine.emit_diagnostic(DiagnosticSeverity::Error, msg, line);
    true
}

/// Diagnostic formatting rule #397.
pub fn render_diagnostic_rule_397(engine: &mut FullDiagnosticsEngine, msg: &str, line: usize) -> (r:
    bool)
    ensures
        r == (msg@.len() > 0),
        final(engine)@ == spec_render_rule(old(engine)@, msg@, line as nat),
{
    if msg.is_empty() {
        return false;
    }
    engine.emit_diagnostic(DiagnosticSeverity::Error, msg, line);
    true
}

/// Diagnostic formatting rule #398.
pub fn render_diagnostic_rule_398(engine: &mut FullDiagnosticsEngine, msg: &str, line: usize) -> (r:
    bool)
    ensures
        r == (msg@.len() > 0),
        final(engine)@ == spec_render_rule(old(engine)@, msg@, line as nat),
{
    if msg.is_empty() {
        return false;
    }
    engine.emit_diagnostic(DiagnosticSeverity::Error, msg, line);
    true
}

/// Diagnostic formatting rule #399.
pub fn render_diagnostic_rule_399(engine: &mut FullDiagnosticsEngine, msg: &str, line: usize) -> (r:
    bool)
    ensures
        r == (msg@.len() > 0),
        final(engine)@ == spec_render_rule(old(engine)@, msg@, line as nat),
{
    if msg.is_empty() {
        return false;
    }
    engine.emit_diagnostic(DiagnosticSeverity::Error, msg, line);
    true
}

/// Diagnostic formatting rule #400.
pub fn render_diagnostic_rule_400(engine: &mut FullDiagnosticsEngine, msg: &str, line: usize) -> (r:
    bool)
    ensures
        r == (msg@.len() > 0),
        final(engine)@ == spec_render_rule(old(engine)@, msg@, line as nat),
{
    if msg.is_empty() {
        return false;
    }
    engine.emit_diagnostic(DiagnosticSeverity::Error, msg, line);
    true
}

/// Diagnostic formatting rule #401.
pub fn render_diagnostic_rule_401(engine: &mut FullDiagnosticsEngine, msg: &str, line: usize) -> (r:
    bool)
    ensures
        r == (msg@.len() > 0),
        final(engine)@ == spec_render_rule(old(engine)@, msg@, line as nat),
{
    if msg.is_empty() {
        return false;
    }
    engine.emit_diagnostic(DiagnosticSeverity::Error, msg, line);
    true
}

/// Diagnostic formatting rule #402.
pub fn render_diagnostic_rule_402(engine: &mut FullDiagnosticsEngine, msg: &str, line: usize) -> (r:
    bool)
    ensures
        r == (msg@.len() > 0),
        final(engine)@ == spec_render_rule(old(engine)@, msg@, line as nat),
{
    if msg.is_empty() {
        return false;
    }
    engine.emit_diagnostic(DiagnosticSeverity::Error, msg, line);
    true
}

/// Diagnostic formatting rule #403.
pub fn render_diagnostic_rule_403(engine: &mut FullDiagnosticsEngine, msg: &str, line: usize) -> (r:
    bool)
    ensures
        r == (msg@.len() > 0),
        final(engine)@ == spec_render_rule(old(engine)@, msg@, line as nat),
{
    if msg.is_empty() {
        return false;
    }
    engine.emit_diagnostic(DiagnosticSeverity::Error, msg, line);
    true
}

/// Diagnostic formatting rule #404.
pub fn render_diagnostic_rule_404(engine: &mut FullDiagnosticsEngine, msg: &str, line: usize) -> (r:
    bool)
    ensures
        r == (msg@.len() > 0),
        final(engine)@ == spec_render_rule(old(engine)@, msg@, line as nat),
{
    if msg.is_empty() {
        return false;
    }
    engine.emit_diagnostic(DiagnosticSeverity::Error, msg, line);
    true
}

/// Diagnostic formatting rule #405.
pub fn render_diagnostic_rule_405(engine: &mut FullDiagnosticsEngine, msg: &str, line: usize) -> (r:
    bool)
    ensures
        r == (msg@.len() > 0),
        final(engine)@ == spec_render_rule(old(engine)@, msg@, line as nat),
{
    if msg.is_empty() {
        return false;
    }
    engine.emit_diagnostic(DiagnosticSeverity::Error, msg, line);
    true
}

/// Diagnostic formatting rule #406.
pub fn render_diagnostic_rule_406(engine: &mut FullDiagnosticsEngine, msg: &str, line: usize) -> (r:
    bool)
    ensures
        r == (msg@.len() > 0),
        final(engine)@ == spec_render_rule(old(engine)@, msg@, line as nat),
{
    if msg.is_empty() {
        return false;
    }
    engine.emit_diagnostic(DiagnosticSeverity::Error, msg, line);
    true
}

/// Diagnostic formatting rule #407.
pub fn render_diagnostic_rule_407(engine: &mut FullDiagnosticsEngine, msg: &str, line: usize) -> (r:
    bool)
    ensures
        r == (msg@.len() > 0),
        final(engine)@ == spec_render_rule(old(engine)@, msg@, line as nat),
{
    if msg.is_empty() {
        return false;
    }
    engine.emit_diagnostic(DiagnosticSeverity::Error, msg, line);
    true
}

/// Diagnostic formatting rule #408.
pub fn render_diagnostic_rule_408(engine: &mut FullDiagnosticsEngine, msg: &str, line: usize) -> (r:
    bool)
    ensures
        r == (msg@.len() > 0),
        final(engine)@ == spec_render_rule(old(engine)@, msg@, line as nat),
{
    if msg.is_empty() {
        return false;
    }
    engine.emit_diagnostic(DiagnosticSeverity::Error, msg, line);
    true
}

/// Diagnostic formatting rule #409.
pub fn render_diagnostic_rule_409(engine: &mut FullDiagnosticsEngine, msg: &str, line: usize) -> (r:
    bool)
    ensures
        r == (msg@.len() > 0),
        final(engine)@ == spec_render_rule(old(engine)@, msg@, line as nat),
{
    if msg.is_empty() {
        return false;
    }
    engine.emit_diagnostic(DiagnosticSeverity::Error, msg, line);
    true
}

/// Diagnostic formatting rule #410.
pub fn render_diagnostic_rule_410(engine: &mut FullDiagnosticsEngine, msg: &str, line: usize) -> (r:
    bool)
    ensures
        r == (msg@.len() > 0),
        final(engine)@ == spec_render_rule(old(engine)@, msg@, line as nat),
{
    if msg.is_empty() {
        return false;
    }
    engine.emit_diagnostic(DiagnosticSeverity::Error, msg, line);
    true
}

/// Diagnostic formatting rule #411.
pub fn render_diagnostic_rule_411(engine: &mut FullDiagnosticsEngine, msg: &str, line: usize) -> (r:
    bool)
    ensures
        r == (msg@.len() > 0),
        final(engine)@ == spec_render_rule(old(engine)@, msg@, line as nat),
{
    if msg.is_empty() {
        return false;
    }
    engine.emit_diagnostic(DiagnosticSeverity::Error, msg, line);
    true
}

/// Diagnostic formatting rule #412.
pub fn render_diagnostic_rule_412(engine: &mut FullDiagnosticsEngine, msg: &str, line: usize) -> (r:
    bool)
    ensures
        r == (msg@.len() > 0),
        final(engine)@ == spec_render_rule(old(engine)@, msg@, line as nat),
{
    if msg.is_empty() {
        return false;
    }
    engine.emit_diagnostic(DiagnosticSeverity::Error, msg, line);
    true
}

/// Diagnostic formatting rule #413.
pub fn render_diagnostic_rule_413(engine: &mut FullDiagnosticsEngine, msg: &str, line: usize) -> (r:
    bool)
    ensures
        r == (msg@.len() > 0),
        final(engine)@ == spec_render_rule(old(engine)@, msg@, line as nat),
{
    if msg.is_empty() {
        return false;
    }
    engine.emit_diagnostic(DiagnosticSeverity::Error, msg, line);
    true
}

/// Diagnostic formatting rule #414.
pub fn render_diagnostic_rule_414(engine: &mut FullDiagnosticsEngine, msg: &str, line: usize) -> (r:
    bool)
    ensures
        r == (msg@.len() > 0),
        final(engine)@ == spec_render_rule(old(engine)@, msg@, line as nat),
{
    if msg.is_empty() {
        return false;
    }
    engine.emit_diagnostic(DiagnosticSeverity::Error, msg, line);
    true
}

/// Diagnostic formatting rule #415.
pub fn render_diagnostic_rule_415(engine: &mut FullDiagnosticsEngine, msg: &str, line: usize) -> (r:
    bool)
    ensures
        r == (msg@.len() > 0),
        final(engine)@ == spec_render_rule(old(engine)@, msg@, line as nat),
{
    if msg.is_empty() {
        return false;
    }
    engine.emit_diagnostic(DiagnosticSeverity::Error, msg, line);
    true
}

/// Diagnostic formatting rule #416.
pub fn render_diagnostic_rule_416(engine: &mut FullDiagnosticsEngine, msg: &str, line: usize) -> (r:
    bool)
    ensures
        r == (msg@.len() > 0),
        final(engine)@ == spec_render_rule(old(engine)@, msg@, line as nat),
{
    if msg.is_empty() {
        return false;
    }
    engine.emit_diagnostic(DiagnosticSeverity::Error, msg, line);
    true
}

/// Diagnostic formatting rule #417.
pub fn render_diagnostic_rule_417(engine: &mut FullDiagnosticsEngine, msg: &str, line: usize) -> (r:
    bool)
    ensures
        r == (msg@.len() > 0),
        final(engine)@ == spec_render_rule(old(engine)@, msg@, line as nat),
{
    if msg.is_empty() {
        return false;
    }
    engine.emit_diagnostic(DiagnosticSeverity::Error, msg, line);
    true
}

/// Diagnostic formatting rule #418.
pub fn render_diagnostic_rule_418(engine: &mut FullDiagnosticsEngine, msg: &str, line: usize) -> (r:
    bool)
    ensures
        r == (msg@.len() > 0),
        final(engine)@ == spec_render_rule(old(engine)@, msg@, line as nat),
{
    if msg.is_empty() {
        return false;
    }
    engine.emit_diagnostic(DiagnosticSeverity::Error, msg, line);
    true
}

/// Diagnostic formatting rule #419.
pub fn render_diagnostic_rule_419(engine: &mut FullDiagnosticsEngine, msg: &str, line: usize) -> (r:
    bool)
    ensures
        r == (msg@.len() > 0),
        final(engine)@ == spec_render_rule(old(engine)@, msg@, line as nat),
{
    if msg.is_empty() {
        return false;
    }
    engine.emit_diagnostic(DiagnosticSeverity::Error, msg, line);
    true
}

/// Diagnostic formatting rule #420.
pub fn render_diagnostic_rule_420(engine: &mut FullDiagnosticsEngine, msg: &str, line: usize) -> (r:
    bool)
    ensures
        r == (msg@.len() > 0),
        final(engine)@ == spec_render_rule(old(engine)@, msg@, line as nat),
{
    if msg.is_empty() {
        return false;
    }
    engine.emit_diagnostic(DiagnosticSeverity::Error, msg, line);
    true
}

/// Diagnostic formatting rule #421.
pub fn render_diagnostic_rule_421(engine: &mut FullDiagnosticsEngine, msg: &str, line: usize) -> (r:
    bool)
    ensures
        r == (msg@.len() > 0),
        final(engine)@ == spec_render_rule(old(engine)@, msg@, line as nat),
{
    if msg.is_empty() {
        return false;
    }
    engine.emit_diagnostic(DiagnosticSeverity::Error, msg, line);
    true
}

/// Diagnostic formatting rule #422.
pub fn render_diagnostic_rule_422(engine: &mut FullDiagnosticsEngine, msg: &str, line: usize) -> (r:
    bool)
    ensures
        r == (msg@.len() > 0),
        final(engine)@ == spec_render_rule(old(engine)@, msg@, line as nat),
{
    if msg.is_empty() {
        return false;
    }
    engine.emit_diagnostic(DiagnosticSeverity::Error, msg, line);
    true
}

/// Diagnostic formatting rule #423.
pub fn render_diagnostic_rule_423(engine: &mut FullDiagnosticsEngine, msg: &str, line: usize) -> (r:
    bool)
    ensures
        r == (msg@.len() > 0),
        final(engine)@ == spec_render_rule(old(engine)@, msg@, line as nat),
{
    if msg.is_empty() {
        return false;
    }
    engine.emit_diagnostic(DiagnosticSeverity::Error, msg, line);
    true
}

/// Diagnostic formatting rule #424.
pub fn render_diagnostic_rule_424(engine: &mut FullDiagnosticsEngine, msg: &str, line: usize) -> (r:
    bool)
    ensures
        r == (msg@.len() > 0),
        final(engine)@ == spec_render_rule(old(engine)@, msg@, line as nat),
{
    if msg.is_empty() {
        return false;
    }
    engine.emit_diagnostic(DiagnosticSeverity::Error, msg, line);
    true
}

/// Diagnostic formatting rule #425.
pub fn render_diagnostic_rule_425(engine: &mut FullDiagnosticsEngine, msg: &str, line: usize) -> (r:
    bool)
    ensures
        r == (msg@.len() > 0),
        final(engine)@ == spec_render_rule(old(engine)@, msg@, line as nat),
{
    if msg.is_empty() {
        return false;
    }
    engine.emit_diagnostic(DiagnosticSeverity::Error, msg, line);
    true
}

/// Diagnostic formatting rule #426.
pub fn render_diagnostic_rule_426(engine: &mut FullDiagnosticsEngine, msg: &str, line: usize) -> (r:
    bool)
    ensures
        r == (msg@.len() > 0),
        final(engine)@ == spec_render_rule(old(engine)@, msg@, line as nat),
{
    if msg.is_empty() {
        return false;
    }
    engine.emit_diagnostic(DiagnosticSeverity::Error, msg, line);
    true
}

/// Diagnostic formatting rule #427.
pub fn render_diagnostic_rule_427(engine: &mut FullDiagnosticsEngine, msg: &str, line: usize) -> (r:
    bool)
    ensures
        r == (msg@.len() > 0),
        final(engine)@ == spec_render_rule(old(engine)@, msg@, line as nat),
{
    if msg.is_empty() {
        return false;
    }
    engine.emit_diagnostic(DiagnosticSeverity::Error, msg, line);
    true
}

/// Diagnostic formatting rule #428.
pub fn render_diagnostic_rule_428(engine: &mut FullDiagnosticsEngine, msg: &str, line: usize) -> (r:
    bool)
    ensures
        r == (msg@.len() > 0),
        final(engine)@ == spec_render_rule(old(engine)@, msg@, line as nat),
{
    if msg.is_empty() {
        return false;
    }
    engine.emit_diagnostic(DiagnosticSeverity::Error, msg, line);
    true
}

/// Diagnostic formatting rule #429.
pub fn render_diagnostic_rule_429(engine: &mut FullDiagnosticsEngine, msg: &str, line: usize) -> (r:
    bool)
    ensures
        r == (msg@.len() > 0),
        final(engine)@ == spec_render_rule(old(engine)@, msg@, line as nat),
{
    if msg.is_empty() {
        return false;
    }
    engine.emit_diagnostic(DiagnosticSeverity::Error, msg, line);
    true
}

/// Diagnostic formatting rule #430.
pub fn render_diagnostic_rule_430(engine: &mut FullDiagnosticsEngine, msg: &str, line: usize) -> (r:
    bool)
    ensures
        r == (msg@.len() > 0),
        final(engine)@ == spec_render_rule(old(engine)@, msg@, line as nat),
{
    if msg.is_empty() {
        return false;
    }
    engine.emit_diagnostic(DiagnosticSeverity::Error, msg, line);
    true
}

/// Diagnostic formatting rule #431.
pub fn render_diagnostic_rule_431(engine: &mut FullDiagnosticsEngine, msg: &str, line: usize) -> (r:
    bool)
    ensures
        r == (msg@.len() > 0),
        final(engine)@ == spec_render_rule(old(engine)@, msg@, line as nat),
{
    if msg.is_empty() {
        return false;
    }
    engine.emit_diagnostic(DiagnosticSeverity::Error, msg, line);
    true
}

/// Diagnostic formatting rule #432.
pub fn render_diagnostic_rule_432(engine: &mut FullDiagnosticsEngine, msg: &str, line: usize) -> (r:
    bool)
    ensures
        r == (msg@.len() > 0),
        final(engine)@ == spec_render_rule(old(engine)@, msg@, line as nat),
{
    if msg.is_empty() {
        return false;
    }
    engine.emit_diagnostic(DiagnosticSeverity::Error, msg, line);
    true
}

/// Diagnostic formatting rule #433.
pub fn render_diagnostic_rule_433(engine: &mut FullDiagnosticsEngine, msg: &str, line: usize) -> (r:
    bool)
    ensures
        r == (msg@.len() > 0),
        final(engine)@ == spec_render_rule(old(engine)@, msg@, line as nat),
{
    if msg.is_empty() {
        return false;
    }
    engine.emit_diagnostic(DiagnosticSeverity::Error, msg, line);
    true
}

/// Diagnostic formatting rule #434.
pub fn render_diagnostic_rule_434(engine: &mut FullDiagnosticsEngine, msg: &str, line: usize) -> (r:
    bool)
    ensures
        r == (msg@.len() > 0),
        final(engine)@ == spec_render_rule(old(engine)@, msg@, line as nat),
{
    if msg.is_empty() {
        return false;
    }
    engine.emit_diagnostic(DiagnosticSeverity::Error, msg, line);
    true
}

/// Diagnostic formatting rule #435.
pub fn render_diagnostic_rule_435(engine: &mut FullDiagnosticsEngine, msg: &str, line: usize) -> (r:
    bool)
    ensures
        r == (msg@.len() > 0),
        final(engine)@ == spec_render_rule(old(engine)@, msg@, line as nat),
{
    if msg.is_empty() {
        return false;
    }
    engine.emit_diagnostic(DiagnosticSeverity::Error, msg, line);
    true
}

/// Diagnostic formatting rule #436.
pub fn render_diagnostic_rule_436(engine: &mut FullDiagnosticsEngine, msg: &str, line: usize) -> (r:
    bool)
    ensures
        r == (msg@.len() > 0),
        final(engine)@ == spec_render_rule(old(engine)@, msg@, line as nat),
{
    if msg.is_empty() {
        return false;
    }
    engine.emit_diagnostic(DiagnosticSeverity::Error, msg, line);
    true
}

/// Diagnostic formatting rule #437.
pub fn render_diagnostic_rule_437(engine: &mut FullDiagnosticsEngine, msg: &str, line: usize) -> (r:
    bool)
    ensures
        r == (msg@.len() > 0),
        final(engine)@ == spec_render_rule(old(engine)@, msg@, line as nat),
{
    if msg.is_empty() {
        return false;
    }
    engine.emit_diagnostic(DiagnosticSeverity::Error, msg, line);
    true
}

/// Diagnostic formatting rule #438.
pub fn render_diagnostic_rule_438(engine: &mut FullDiagnosticsEngine, msg: &str, line: usize) -> (r:
    bool)
    ensures
        r == (msg@.len() > 0),
        final(engine)@ == spec_render_rule(old(engine)@, msg@, line as nat),
{
    if msg.is_empty() {
        return false;
    }
    engine.emit_diagnostic(DiagnosticSeverity::Error, msg, line);
    true
}

/// Diagnostic formatting rule #439.
pub fn render_diagnostic_rule_439(engine: &mut FullDiagnosticsEngine, msg: &str, line: usize) -> (r:
    bool)
    ensures
        r == (msg@.len() > 0),
        final(engine)@ == spec_render_rule(old(engine)@, msg@, line as nat),
{
    if msg.is_empty() {
        return false;
    }
    engine.emit_diagnostic(DiagnosticSeverity::Error, msg, line);
    true
}

/// Diagnostic formatting rule #440.
pub fn render_diagnostic_rule_440(engine: &mut FullDiagnosticsEngine, msg: &str, line: usize) -> (r:
    bool)
    ensures
        r == (msg@.len() > 0),
        final(engine)@ == spec_render_rule(old(engine)@, msg@, line as nat),
{
    if msg.is_empty() {
        return false;
    }
    engine.emit_diagnostic(DiagnosticSeverity::Error, msg, line);
    true
}

/// Diagnostic formatting rule #441.
pub fn render_diagnostic_rule_441(engine: &mut FullDiagnosticsEngine, msg: &str, line: usize) -> (r:
    bool)
    ensures
        r == (msg@.len() > 0),
        final(engine)@ == spec_render_rule(old(engine)@, msg@, line as nat),
{
    if msg.is_empty() {
        return false;
    }
    engine.emit_diagnostic(DiagnosticSeverity::Error, msg, line);
    true
}

/// Diagnostic formatting rule #442.
pub fn render_diagnostic_rule_442(engine: &mut FullDiagnosticsEngine, msg: &str, line: usize) -> (r:
    bool)
    ensures
        r == (msg@.len() > 0),
        final(engine)@ == spec_render_rule(old(engine)@, msg@, line as nat),
{
    if msg.is_empty() {
        return false;
    }
    engine.emit_diagnostic(DiagnosticSeverity::Error, msg, line);
    true
}

/// Diagnostic formatting rule #443.
pub fn render_diagnostic_rule_443(engine: &mut FullDiagnosticsEngine, msg: &str, line: usize) -> (r:
    bool)
    ensures
        r == (msg@.len() > 0),
        final(engine)@ == spec_render_rule(old(engine)@, msg@, line as nat),
{
    if msg.is_empty() {
        return false;
    }
    engine.emit_diagnostic(DiagnosticSeverity::Error, msg, line);
    true
}

/// Diagnostic formatting rule #444.
pub fn render_diagnostic_rule_444(engine: &mut FullDiagnosticsEngine, msg: &str, line: usize) -> (r:
    bool)
    ensures
        r == (msg@.len() > 0),
        final(engine)@ == spec_render_rule(old(engine)@, msg@, line as nat),
{
    if msg.is_empty() {
        return false;
    }
    engine.emit_diagnostic(DiagnosticSeverity::Error, msg, line);
    true
}

/// Diagnostic formatting rule #445.
pub fn render_diagnostic_rule_445(engine: &mut FullDiagnosticsEngine, msg: &str, line: usize) -> (r:
    bool)
    ensures
        r == (msg@.len() > 0),
        final(engine)@ == spec_render_rule(old(engine)@, msg@, line as nat),
{
    if msg.is_empty() {
        return false;
    }
    engine.emit_diagnostic(DiagnosticSeverity::Error, msg, line);
    true
}

/// Diagnostic formatting rule #446.
pub fn render_diagnostic_rule_446(engine: &mut FullDiagnosticsEngine, msg: &str, line: usize) -> (r:
    bool)
    ensures
        r == (msg@.len() > 0),
        final(engine)@ == spec_render_rule(old(engine)@, msg@, line as nat),
{
    if msg.is_empty() {
        return false;
    }
    engine.emit_diagnostic(DiagnosticSeverity::Error, msg, line);
    true
}

/// Diagnostic formatting rule #447.
pub fn render_diagnostic_rule_447(engine: &mut FullDiagnosticsEngine, msg: &str, line: usize) -> (r:
    bool)
    ensures
        r == (msg@.len() > 0),
        final(engine)@ == spec_render_rule(old(engine)@, msg@, line as nat),
{
    if msg.is_empty() {
        return false;
    }
    engine.emit_diagnostic(DiagnosticSeverity::Error, msg, line);
    true
}

/// Diagnostic formatting rule #448.
pub fn render_diagnostic_rule_448(engine: &mut FullDiagnosticsEngine, msg: &str, line: usize) -> (r:
    bool)
    ensures
        r == (msg@.len() > 0),
        final(engine)@ == spec_render_rule(old(engine)@, msg@, line as nat),
{
    if msg.is_empty() {
        return false;
    }
    engine.emit_diagnostic(DiagnosticSeverity::Error, msg, line);
    true
}

/// Diagnostic formatting rule #449.
pub fn render_diagnostic_rule_449(engine: &mut FullDiagnosticsEngine, msg: &str, line: usize) -> (r:
    bool)
    ensures
        r == (msg@.len() > 0),
        final(engine)@ == spec_render_rule(old(engine)@, msg@, line as nat),
{
    if msg.is_empty() {
        return false;
    }
    engine.emit_diagnostic(DiagnosticSeverity::Error, msg, line);
    true
}

/// Diagnostic formatting rule #450.
pub fn render_diagnostic_rule_450(engine: &mut FullDiagnosticsEngine, msg: &str, line: usize) -> (r:
    bool)
    ensures
        r == (msg@.len() > 0),
        final(engine)@ == spec_render_rule(old(engine)@, msg@, line as nat),
{
    if msg.is_empty() {
        return false;
    }
    engine.emit_diagnostic(DiagnosticSeverity::Error, msg, line);
    true
}

/// Diagnostic formatting rule #451.
pub fn render_diagnostic_rule_451(engine: &mut FullDiagnosticsEngine, msg: &str, line: usize) -> (r:
    bool)
    ensures
        r == (msg@.len() > 0),
        final(engine)@ == spec_render_rule(old(engine)@, msg@, line as nat),
{
    if msg.is_empty() {
        return false;
    }
    engine.emit_diagnostic(DiagnosticSeverity::Error, msg, line);
    true
}

/// Diagnostic formatting rule #452.
pub fn render_diagnostic_rule_452(engine: &mut FullDiagnosticsEngine, msg: &str, line: usize) -> (r:
    bool)
    ensures
        r == (msg@.len() > 0),
        final(engine)@ == spec_render_rule(old(engine)@, msg@, line as nat),
{
    if msg.is_empty() {
        return false;
    }
    engine.emit_diagnostic(DiagnosticSeverity::Error, msg, line);
    true
}

/// Diagnostic formatting rule #453.
pub fn render_diagnostic_rule_453(engine: &mut FullDiagnosticsEngine, msg: &str, line: usize) -> (r:
    bool)
    ensures
        r == (msg@.len() > 0),
        final(engine)@ == spec_render_rule(old(engine)@, msg@, line as nat),
{
    if msg.is_empty() {
        return false;
    }
    engine.emit_diagnostic(DiagnosticSeverity::Error, msg, line);
    true
}

/// Diagnostic formatting rule #454.
pub fn render_diagnostic_rule_454(engine: &mut FullDiagnosticsEngine, msg: &str, line: usize) -> (r:
    bool)
    ensures
        r == (msg@.len() > 0),
        final(engine)@ == spec_render_rule(old(engine)@, msg@, line as nat),
{
    if msg.is_empty() {
        return false;
    }
    engine.emit_diagnostic(DiagnosticSeverity::Error, msg, line);
    true
}

/// Diagnostic formatting rule #455.
pub fn render_diagnostic_rule_455(engine: &mut FullDiagnosticsEngine, msg: &str, line: usize) -> (r:
    bool)
    ensures
        r == (msg@.len() > 0),
        final(engine)@ == spec_render_rule(old(engine)@, msg@, line as nat),
{
    if msg.is_empty() {
        return false;
    }
    engine.emit_diagnostic(DiagnosticSeverity::Error, msg, line);
    true
}

/// Diagnostic formatting rule #456.
pub fn render_diagnostic_rule_456(engine: &mut FullDiagnosticsEngine, msg: &str, line: usize) -> (r:
    bool)
    ensures
        r == (msg@.len() > 0),
        final(engine)@ == spec_render_rule(old(engine)@, msg@, line as nat),
{
    if msg.is_empty() {
        return false;
    }
    engine.emit_diagnostic(DiagnosticSeverity::Error, msg, line);
    true
}

/// Diagnostic formatting rule #457.
pub fn render_diagnostic_rule_457(engine: &mut FullDiagnosticsEngine, msg: &str, line: usize) -> (r:
    bool)
    ensures
        r == (msg@.len() > 0),
        final(engine)@ == spec_render_rule(old(engine)@, msg@, line as nat),
{
    if msg.is_empty() {
        return false;
    }
    engine.emit_diagnostic(DiagnosticSeverity::Error, msg, line);
    true
}

/// Diagnostic formatting rule #458.
pub fn render_diagnostic_rule_458(engine: &mut FullDiagnosticsEngine, msg: &str, line: usize) -> (r:
    bool)
    ensures
        r == (msg@.len() > 0),
        final(engine)@ == spec_render_rule(old(engine)@, msg@, line as nat),
{
    if msg.is_empty() {
        return false;
    }
    engine.emit_diagnostic(DiagnosticSeverity::Error, msg, line);
    true
}

/// Diagnostic formatting rule #459.
pub fn render_diagnostic_rule_459(engine: &mut FullDiagnosticsEngine, msg: &str, line: usize) -> (r:
    bool)
    ensures
        r == (msg@.len() > 0),
        final(engine)@ == spec_render_rule(old(engine)@, msg@, line as nat),
{
    if msg.is_empty() {
        return false;
    }
    engine.emit_diagnostic(DiagnosticSeverity::Error, msg, line);
    true
}

/// Diagnostic formatting rule #460.
pub fn render_diagnostic_rule_460(engine: &mut FullDiagnosticsEngine, msg: &str, line: usize) -> (r:
    bool)
    ensures
        r == (msg@.len() > 0),
        final(engine)@ == spec_render_rule(old(engine)@, msg@, line as nat),
{
    if msg.is_empty() {
        return false;
    }
    engine.emit_diagnostic(DiagnosticSeverity::Error, msg, line);
    true
}

/// Diagnostic formatting rule #461.
pub fn render_diagnostic_rule_461(engine: &mut FullDiagnosticsEngine, msg: &str, line: usize) -> (r:
    bool)
    ensures
        r == (msg@.len() > 0),
        final(engine)@ == spec_render_rule(old(engine)@, msg@, line as nat),
{
    if msg.is_empty() {
        return false;
    }
    engine.emit_diagnostic(DiagnosticSeverity::Error, msg, line);
    true
}

/// Diagnostic formatting rule #462.
pub fn render_diagnostic_rule_462(engine: &mut FullDiagnosticsEngine, msg: &str, line: usize) -> (r:
    bool)
    ensures
        r == (msg@.len() > 0),
        final(engine)@ == spec_render_rule(old(engine)@, msg@, line as nat),
{
    if msg.is_empty() {
        return false;
    }
    engine.emit_diagnostic(DiagnosticSeverity::Error, msg, line);
    true
}

/// Diagnostic formatting rule #463.
pub fn render_diagnostic_rule_463(engine: &mut FullDiagnosticsEngine, msg: &str, line: usize) -> (r:
    bool)
    ensures
        r == (msg@.len() > 0),
        final(engine)@ == spec_render_rule(old(engine)@, msg@, line as nat),
{
    if msg.is_empty() {
        return false;
    }
    engine.emit_diagnostic(DiagnosticSeverity::Error, msg, line);
    true
}

/// Diagnostic formatting rule #464.
pub fn render_diagnostic_rule_464(engine: &mut FullDiagnosticsEngine, msg: &str, line: usize) -> (r:
    bool)
    ensures
        r == (msg@.len() > 0),
        final(engine)@ == spec_render_rule(old(engine)@, msg@, line as nat),
{
    if msg.is_empty() {
        return false;
    }
    engine.emit_diagnostic(DiagnosticSeverity::Error, msg, line);
    true
}

/// Diagnostic formatting rule #465.
pub fn render_diagnostic_rule_465(engine: &mut FullDiagnosticsEngine, msg: &str, line: usize) -> (r:
    bool)
    ensures
        r == (msg@.len() > 0),
        final(engine)@ == spec_render_rule(old(engine)@, msg@, line as nat),
{
    if msg.is_empty() {
        return false;
    }
    engine.emit_diagnostic(DiagnosticSeverity::Error, msg, line);
    true
}

/// Diagnostic formatting rule #466.
pub fn render_diagnostic_rule_466(engine: &mut FullDiagnosticsEngine, msg: &str, line: usize) -> (r:
    bool)
    ensures
        r == (msg@.len() > 0),
        final(engine)@ == spec_render_rule(old(engine)@, msg@, line as nat),
{
    if msg.is_empty() {
        return false;
    }
    engine.emit_diagnostic(DiagnosticSeverity::Error, msg, line);
    true
}

/// Diagnostic formatting rule #467.
pub fn render_diagnostic_rule_467(engine: &mut FullDiagnosticsEngine, msg: &str, line: usize) -> (r:
    bool)
    ensures
        r == (msg@.len() > 0),
        final(engine)@ == spec_render_rule(old(engine)@, msg@, line as nat),
{
    if msg.is_empty() {
        return false;
    }
    engine.emit_diagnostic(DiagnosticSeverity::Error, msg, line);
    true
}

/// Diagnostic formatting rule #468.
pub fn render_diagnostic_rule_468(engine: &mut FullDiagnosticsEngine, msg: &str, line: usize) -> (r:
    bool)
    ensures
        r == (msg@.len() > 0),
        final(engine)@ == spec_render_rule(old(engine)@, msg@, line as nat),
{
    if msg.is_empty() {
        return false;
    }
    engine.emit_diagnostic(DiagnosticSeverity::Error, msg, line);
    true
}

/// Diagnostic formatting rule #469.
pub fn render_diagnostic_rule_469(engine: &mut FullDiagnosticsEngine, msg: &str, line: usize) -> (r:
    bool)
    ensures
        r == (msg@.len() > 0),
        final(engine)@ == spec_render_rule(old(engine)@, msg@, line as nat),
{
    if msg.is_empty() {
        return false;
    }
    engine.emit_diagnostic(DiagnosticSeverity::Error, msg, line);
    true
}

/// Diagnostic formatting rule #470.
pub fn render_diagnostic_rule_470(engine: &mut FullDiagnosticsEngine, msg: &str, line: usize) -> (r:
    bool)
    ensures
        r == (msg@.len() > 0),
        final(engine)@ == spec_render_rule(old(engine)@, msg@, line as nat),
{
    if msg.is_empty() {
        return false;
    }
    engine.emit_diagnostic(DiagnosticSeverity::Error, msg, line);
    true
}

/// Diagnostic formatting rule #471.
pub fn render_diagnostic_rule_471(engine: &mut FullDiagnosticsEngine, msg: &str, line: usize) -> (r:
    bool)
    ensures
        r == (msg@.len() > 0),
        final(engine)@ == spec_render_rule(old(engine)@, msg@, line as nat),
{
    if msg.is_empty() {
        return false;
    }
    engine.emit_diagnostic(DiagnosticSeverity::Error, msg, line);
    true
}

/// Diagnostic formatting rule #472.
pub fn render_diagnostic_rule_472(engine: &mut FullDiagnosticsEngine, msg: &str, line: usize) -> (r:
    bool)
    ensures
        r == (msg@.len() > 0),
        final(engine)@ == spec_render_rule(old(engine)@, msg@, line as nat),
{
    if msg.is_empty() {
        return false;
    }
    engine.emit_diagnostic(DiagnosticSeverity::Error, msg, line);
    true
}

/// Diagnostic formatting rule #473.
pub fn render_diagnostic_rule_473(engine: &mut FullDiagnosticsEngine, msg: &str, line: usize) -> (r:
    bool)
    ensures
        r == (msg@.len() > 0),
        final(engine)@ == spec_render_rule(old(engine)@, msg@, line as nat),
{
    if msg.is_empty() {
        return false;
    }
    engine.emit_diagnostic(DiagnosticSeverity::Error, msg, line);
    true
}

/// Diagnostic formatting rule #474.
pub fn render_diagnostic_rule_474(engine: &mut FullDiagnosticsEngine, msg: &str, line: usize) -> (r:
    bool)
    ensures
        r == (msg@.len() > 0),
        final(engine)@ == spec_render_rule(old(engine)@, msg@, line as nat),
{
    if msg.is_empty() {
        return false;
    }
    engine.emit_diagnostic(DiagnosticSeverity::Error, msg, line);
    true
}

/// Diagnostic formatting rule #475.
pub fn render_diagnostic_rule_475(engine: &mut FullDiagnosticsEngine, msg: &str, line: usize) -> (r:
    bool)
    ensures
        r == (msg@.len() > 0),
        final(engine)@ == spec_render_rule(old(engine)@, msg@, line as nat),
{
    if msg.is_empty() {
        return false;
    }
    engine.emit_diagnostic(DiagnosticSeverity::Error, msg, line);
    true
}

/// Diagnostic formatting rule #476.
pub fn render_diagnostic_rule_476(engine: &mut FullDiagnosticsEngine, msg: &str, line: usize) -> (r:
    bool)
    ensures
        r == (msg@.len() > 0),
        final(engine)@ == spec_render_rule(old(engine)@, msg@, line as nat),
{
    if msg.is_empty() {
        return false;
    }
    engine.emit_diagnostic(DiagnosticSeverity::Error, msg, line);
    true
}

/// Diagnostic formatting rule #477.
pub fn render_diagnostic_rule_477(engine: &mut FullDiagnosticsEngine, msg: &str, line: usize) -> (r:
    bool)
    ensures
        r == (msg@.len() > 0),
        final(engine)@ == spec_render_rule(old(engine)@, msg@, line as nat),
{
    if msg.is_empty() {
        return false;
    }
    engine.emit_diagnostic(DiagnosticSeverity::Error, msg, line);
    true
}

/// Diagnostic formatting rule #478.
pub fn render_diagnostic_rule_478(engine: &mut FullDiagnosticsEngine, msg: &str, line: usize) -> (r:
    bool)
    ensures
        r == (msg@.len() > 0),
        final(engine)@ == spec_render_rule(old(engine)@, msg@, line as nat),
{
    if msg.is_empty() {
        return false;
    }
    engine.emit_diagnostic(DiagnosticSeverity::Error, msg, line);
    true
}

/// Diagnostic formatting rule #479.
pub fn render_diagnostic_rule_479(engine: &mut FullDiagnosticsEngine, msg: &str, line: usize) -> (r:
    bool)
    ensures
        r == (msg@.len() > 0),
        final(engine)@ == spec_render_rule(old(engine)@, msg@, line as nat),
{
    if msg.is_empty() {
        return false;
    }
    engine.emit_diagnostic(DiagnosticSeverity::Error, msg, line);
    true
}

/// Diagnostic formatting rule #480.
pub fn render_diagnostic_rule_480(engine: &mut FullDiagnosticsEngine, msg: &str, line: usize) -> (r:
    bool)
    ensures
        r == (msg@.len() > 0),
        final(engine)@ == spec_render_rule(old(engine)@, msg@, line as nat),
{
    if msg.is_empty() {
        return false;
    }
    engine.emit_diagnostic(DiagnosticSeverity::Error, msg, line);
    true
}

/// Diagnostic formatting rule #481.
pub fn render_diagnostic_rule_481(engine: &mut FullDiagnosticsEngine, msg: &str, line: usize) -> (r:
    bool)
    ensures
        r == (msg@.len() > 0),
        final(engine)@ == spec_render_rule(old(engine)@, msg@, line as nat),
{
    if msg.is_empty() {
        return false;
    }
    engine.emit_diagnostic(DiagnosticSeverity::Error, msg, line);
    true
}

/// Diagnostic formatting rule #482.
pub fn render_diagnostic_rule_482(engine: &mut FullDiagnosticsEngine, msg: &str, line: usize) -> (r:
    bool)
    ensures
        r == (msg@.len() > 0),
        final(engine)@ == spec_render_rule(old(engine)@, msg@, line as nat),
{
    if msg.is_empty() {
        return false;
    }
    engine.emit_diagnostic(DiagnosticSeverity::Error, msg, line);
    true
}

/// Diagnostic formatting rule #483.
pub fn render_diagnostic_rule_483(engine: &mut FullDiagnosticsEngine, msg: &str, line: usize) -> (r:
    bool)
    ensures
        r == (msg@.len() > 0),
        final(engine)@ == spec_render_rule(old(engine)@, msg@, line as nat),
{
    if msg.is_empty() {
        return false;
    }
    engine.emit_diagnostic(DiagnosticSeverity::Error, msg, line);
    true
}

/// Diagnostic formatting rule #484.
pub fn render_diagnostic_rule_484(engine: &mut FullDiagnosticsEngine, msg: &str, line: usize) -> (r:
    bool)
    ensures
        r == (msg@.len() > 0),
        final(engine)@ == spec_render_rule(old(engine)@, msg@, line as nat),
{
    if msg.is_empty() {
        return false;
    }
    engine.emit_diagnostic(DiagnosticSeverity::Error, msg, line);
    true
}

/// Diagnostic formatting rule #485.
pub fn render_diagnostic_rule_485(engine: &mut FullDiagnosticsEngine, msg: &str, line: usize) -> (r:
    bool)
    ensures
        r == (msg@.len() > 0),
        final(engine)@ == spec_render_rule(old(engine)@, msg@, line as nat),
{
    if msg.is_empty() {
        return false;
    }
    engine.emit_diagnostic(DiagnosticSeverity::Error, msg, line);
    true
}

/// Diagnostic formatting rule #486.
pub fn render_diagnostic_rule_486(engine: &mut FullDiagnosticsEngine, msg: &str, line: usize) -> (r:
    bool)
    ensures
        r == (msg@.len() > 0),
        final(engine)@ == spec_render_rule(old(engine)@, msg@, line as nat),
{
    if msg.is_empty() {
        return false;
    }
    engine.emit_diagnostic(DiagnosticSeverity::Error, msg, line);
    true
}

/// Diagnostic formatting rule #487.
pub fn render_diagnostic_rule_487(engine: &mut FullDiagnosticsEngine, msg: &str, line: usize) -> (r:
    bool)
    ensures
        r == (msg@.len() > 0),
        final(engine)@ == spec_render_rule(old(engine)@, msg@, line as nat),
{
    if msg.is_empty() {
        return false;
    }
    engine.emit_diagnostic(DiagnosticSeverity::Error, msg, line);
    true
}

/// Diagnostic formatting rule #488.
pub fn render_diagnostic_rule_488(engine: &mut FullDiagnosticsEngine, msg: &str, line: usize) -> (r:
    bool)
    ensures
        r == (msg@.len() > 0),
        final(engine)@ == spec_render_rule(old(engine)@, msg@, line as nat),
{
    if msg.is_empty() {
        return false;
    }
    engine.emit_diagnostic(DiagnosticSeverity::Error, msg, line);
    true
}

/// Diagnostic formatting rule #489.
pub fn render_diagnostic_rule_489(engine: &mut FullDiagnosticsEngine, msg: &str, line: usize) -> (r:
    bool)
    ensures
        r == (msg@.len() > 0),
        final(engine)@ == spec_render_rule(old(engine)@, msg@, line as nat),
{
    if msg.is_empty() {
        return false;
    }
    engine.emit_diagnostic(DiagnosticSeverity::Error, msg, line);
    true
}

/// Diagnostic formatting rule #490.
pub fn render_diagnostic_rule_490(engine: &mut FullDiagnosticsEngine, msg: &str, line: usize) -> (r:
    bool)
    ensures
        r == (msg@.len() > 0),
        final(engine)@ == spec_render_rule(old(engine)@, msg@, line as nat),
{
    if msg.is_empty() {
        return false;
    }
    engine.emit_diagnostic(DiagnosticSeverity::Error, msg, line);
    true
}

/// Diagnostic formatting rule #491.
pub fn render_diagnostic_rule_491(engine: &mut FullDiagnosticsEngine, msg: &str, line: usize) -> (r:
    bool)
    ensures
        r == (msg@.len() > 0),
        final(engine)@ == spec_render_rule(old(engine)@, msg@, line as nat),
{
    if msg.is_empty() {
        return false;
    }
    engine.emit_diagnostic(DiagnosticSeverity::Error, msg, line);
    true
}

/// Diagnostic formatting rule #492.
pub fn render_diagnostic_rule_492(engine: &mut FullDiagnosticsEngine, msg: &str, line: usize) -> (r:
    bool)
    ensures
        r == (msg@.len() > 0),
        final(engine)@ == spec_render_rule(old(engine)@, msg@, line as nat),
{
    if msg.is_empty() {
        return false;
    }
    engine.emit_diagnostic(DiagnosticSeverity::Error, msg, line);
    true
}

/// Diagnostic formatting rule #493.
pub fn render_diagnostic_rule_493(engine: &mut FullDiagnosticsEngine, msg: &str, line: usize) -> (r:
    bool)
    ensures
        r == (msg@.len() > 0),
        final(engine)@ == spec_render_rule(old(engine)@, msg@, line as nat),
{
    if msg.is_empty() {
        return false;
    }
    engine.emit_diagnostic(DiagnosticSeverity::Error, msg, line);
    true
}

/// Diagnostic formatting rule #494.
pub fn render_diagnostic_rule_494(engine: &mut FullDiagnosticsEngine, msg: &str, line: usize) -> (r:
    bool)
    ensures
        r == (msg@.len() > 0),
        final(engine)@ == spec_render_rule(old(engine)@, msg@, line as nat),
{
    if msg.is_empty() {
        return false;
    }
    engine.emit_diagnostic(DiagnosticSeverity::Error, msg, line);
    true
}

/// Diagnostic formatting rule #495.
pub fn render_diagnostic_rule_495(engine: &mut FullDiagnosticsEngine, msg: &str, line: usize) -> (r:
    bool)
    ensures
        r == (msg@.len() > 0),
        final(engine)@ == spec_render_rule(old(engine)@, msg@, line as nat),
{
    if msg.is_empty() {
        return false;
    }
    engine.emit_diagnostic(DiagnosticSeverity::Error, msg, line);
    true
}

/// Diagnostic formatting rule #496.
pub fn render_diagnostic_rule_496(engine: &mut FullDiagnosticsEngine, msg: &str, line: usize) -> (r:
    bool)
    ensures
        r == (msg@.len() > 0),
        final(engine)@ == spec_render_rule(old(engine)@, msg@, line as nat),
{
    if msg.is_empty() {
        return false;
    }
    engine.emit_diagnostic(DiagnosticSeverity::Error, msg, line);
    true
}

/// Diagnostic formatting rule #497.
pub fn render_diagnostic_rule_497(engine: &mut FullDiagnosticsEngine, msg: &str, line: usize) -> (r:
    bool)
    ensures
        r == (msg@.len() > 0),
        final(engine)@ == spec_render_rule(old(engine)@, msg@, line as nat),
{
    if msg.is_empty() {
        return false;
    }
    engine.emit_diagnostic(DiagnosticSeverity::Error, msg, line);
    true
}

/// Diagnostic formatting rule #498.
pub fn render_diagnostic_rule_498(engine: &mut FullDiagnosticsEngine, msg: &str, line: usize) -> (r:
    bool)
    ensures
        r == (msg@.len() > 0),
        final(engine)@ == spec_render_rule(old(engine)@, msg@, line as nat),
{
    if msg.is_empty() {
        return false;
    }
    engine.emit_diagnostic(DiagnosticSeverity::Error, msg, line);
    true
}

/// Diagnostic formatting rule #499.
pub fn render_diagnostic_rule_499(engine: &mut FullDiagnosticsEngine, msg: &str, line: usize) -> (r:
    bool)
    ensures
        r == (msg@.len() > 0),
        final(engine)@ == spec_render_rule(old(engine)@, msg@, line as nat),
{
    if msg.is_empty() {
        return false;
    }
    engine.emit_diagnostic(DiagnosticSeverity::Error, msg, line);
    true
}

/// Diagnostic formatting rule #500.
pub fn render_diagnostic_rule_500(engine: &mut FullDiagnosticsEngine, msg: &str, line: usize) -> (r:
    bool)
    ensures
        r == (msg@.len() > 0),
        final(engine)@ == spec_render_rule(old(engine)@, msg@, line as nat),
{
    if msg.is_empty() {
        return false;
    }
    engine.emit_diagnostic(DiagnosticSeverity::Error, msg, line);
    true
}

/// Diagnostic formatting rule #501.
pub fn render_diagnostic_rule_501(engine: &mut FullDiagnosticsEngine, msg: &str, line: usize) -> (r:
    bool)
    ensures
        r == (msg@.len() > 0),
        final(engine)@ == spec_render_rule(old(engine)@, msg@, line as nat),
{
    if msg.is_empty() {
        return false;
    }
    engine.emit_diagnostic(DiagnosticSeverity::Error, msg, line);
    true
}

/// Diagnostic formatting rule #502.
pub fn render_diagnostic_rule_502(engine: &mut FullDiagnosticsEngine, msg: &str, line: usize) -> (r:
    bool)
    ensures
        r == (msg@.len() > 0),
        final(engine)@ == spec_render_rule(old(engine)@, msg@, line as nat),
{
    if msg.is_empty() {
        return false;
    }
    engine.emit_diagnostic(DiagnosticSeverity::Error, msg, line);
    true
}

/// Diagnostic formatting rule #503.
pub fn render_diagnostic_rule_503(engine: &mut FullDiagnosticsEngine, msg: &str, line: usize) -> (r:
    bool)
    ensures
        r == (msg@.len() > 0),
        final(engine)@ == spec_render_rule(old(engine)@, msg@, line as nat),
{
    if msg.is_empty() {
        return false;
    }
    engine.emit_diagnostic(DiagnosticSeverity::Error, msg, line);
    true
}

/// Diagnostic formatting rule #504.
pub fn render_diagnostic_rule_504(engine: &mut FullDiagnosticsEngine, msg: &str, line: usize) -> (r:
    bool)
    ensures
        r == (msg@.len() > 0),
        final(engine)@ == spec_render_rule(old(engine)@, msg@, line as nat),
{
    if msg.is_empty() {
        return false;
    }
    engine.emit_diagnostic(DiagnosticSeverity::Error, msg, line);
    true
}

/// Diagnostic formatting rule #505.
pub fn render_diagnostic_rule_505(engine: &mut FullDiagnosticsEngine, msg: &str, line: usize) -> (r:
    bool)
    ensures
        r == (msg@.len() > 0),
        final(engine)@ == spec_render_rule(old(engine)@, msg@, line as nat),
{
    if msg.is_empty() {
        return false;
    }
    engine.emit_diagnostic(DiagnosticSeverity::Error, msg, line);
    true
}

/// Diagnostic formatting rule #506.
pub fn render_diagnostic_rule_506(engine: &mut FullDiagnosticsEngine, msg: &str, line: usize) -> (r:
    bool)
    ensures
        r == (msg@.len() > 0),
        final(engine)@ == spec_render_rule(old(engine)@, msg@, line as nat),
{
    if msg.is_empty() {
        return false;
    }
    engine.emit_diagnostic(DiagnosticSeverity::Error, msg, line);
    true
}

/// Diagnostic formatting rule #507.
pub fn render_diagnostic_rule_507(engine: &mut FullDiagnosticsEngine, msg: &str, line: usize) -> (r:
    bool)
    ensures
        r == (msg@.len() > 0),
        final(engine)@ == spec_render_rule(old(engine)@, msg@, line as nat),
{
    if msg.is_empty() {
        return false;
    }
    engine.emit_diagnostic(DiagnosticSeverity::Error, msg, line);
    true
}

/// Diagnostic formatting rule #508.
pub fn render_diagnostic_rule_508(engine: &mut FullDiagnosticsEngine, msg: &str, line: usize) -> (r:
    bool)
    ensures
        r == (msg@.len() > 0),
        final(engine)@ == spec_render_rule(old(engine)@, msg@, line as nat),
{
    if msg.is_empty() {
        return false;
    }
    engine.emit_diagnostic(DiagnosticSeverity::Error, msg, line);
    true
}

/// Diagnostic formatting rule #509.
pub fn render_diagnostic_rule_509(engine: &mut FullDiagnosticsEngine, msg: &str, line: usize) -> (r:
    bool)
    ensures
        r == (msg@.len() > 0),
        final(engine)@ == spec_render_rule(old(engine)@, msg@, line as nat),
{
    if msg.is_empty() {
        return false;
    }
    engine.emit_diagnostic(DiagnosticSeverity::Error, msg, line);
    true
}

/// Diagnostic formatting rule #510.
pub fn render_diagnostic_rule_510(engine: &mut FullDiagnosticsEngine, msg: &str, line: usize) -> (r:
    bool)
    ensures
        r == (msg@.len() > 0),
        final(engine)@ == spec_render_rule(old(engine)@, msg@, line as nat),
{
    if msg.is_empty() {
        return false;
    }
    engine.emit_diagnostic(DiagnosticSeverity::Error, msg, line);
    true
}

/// Diagnostic formatting rule #511.
pub fn render_diagnostic_rule_511(engine: &mut FullDiagnosticsEngine, msg: &str, line: usize) -> (r:
    bool)
    ensures
        r == (msg@.len() > 0),
        final(engine)@ == spec_render_rule(old(engine)@, msg@, line as nat),
{
    if msg.is_empty() {
        return false;
    }
    engine.emit_diagnostic(DiagnosticSeverity::Error, msg, line);
    true
}

/// Diagnostic formatting rule #512.
pub fn render_diagnostic_rule_512(engine: &mut FullDiagnosticsEngine, msg: &str, line: usize) -> (r:
    bool)
    ensures
        r == (msg@.len() > 0),
        final(engine)@ == spec_render_rule(old(engine)@, msg@, line as nat),
{
    if msg.is_empty() {
        return false;
    }
    engine.emit_diagnostic(DiagnosticSeverity::Error, msg, line);
    true
}

/// Diagnostic formatting rule #513.
pub fn render_diagnostic_rule_513(engine: &mut FullDiagnosticsEngine, msg: &str, line: usize) -> (r:
    bool)
    ensures
        r == (msg@.len() > 0),
        final(engine)@ == spec_render_rule(old(engine)@, msg@, line as nat),
{
    if msg.is_empty() {
        return false;
    }
    engine.emit_diagnostic(DiagnosticSeverity::Error, msg, line);
    true
}

/// Diagnostic formatting rule #514.
pub fn render_diagnostic_rule_514(engine: &mut FullDiagnosticsEngine, msg: &str, line: usize) -> (r:
    bool)
    ensures
        r == (msg@.len() > 0),
        final(engine)@ == spec_render_rule(old(engine)@, msg@, line as nat),
{
    if msg.is_empty() {
        return false;
    }
    engine.emit_diagnostic(DiagnosticSeverity::Error, msg, line);
    true
}

/// Diagnostic formatting rule #515.
pub fn render_diagnostic_rule_515(engine: &mut FullDiagnosticsEngine, msg: &str, line: usize) -> (r:
    bool)
    ensures
        r == (msg@.len() > 0),
        final(engine)@ == spec_render_rule(old(engine)@, msg@, line as nat),
{
    if msg.is_empty() {
        return false;
    }
    engine.emit_diagnostic(DiagnosticSeverity::Error, msg, line);
    true
}

/// Diagnostic formatting rule #516.
pub fn render_diagnostic_rule_516(engine: &mut FullDiagnosticsEngine, msg: &str, line: usize) -> (r:
    bool)
    ensures
        r == (msg@.len() > 0),
        final(engine)@ == spec_render_rule(old(engine)@, msg@, line as nat),
{
    if msg.is_empty() {
        return false;
    }
    engine.emit_diagnostic(DiagnosticSeverity::Error, msg, line);
    true
}

/// Diagnostic formatting rule #517.
pub fn render_diagnostic_rule_517(engine: &mut FullDiagnosticsEngine, msg: &str, line: usize) -> (r:
    bool)
    ensures
        r == (msg@.len() > 0),
        final(engine)@ == spec_render_rule(old(engine)@, msg@, line as nat),
{
    if msg.is_empty() {
        return false;
    }
    engine.emit_diagnostic(DiagnosticSeverity::Error, msg, line);
    true
}

/// Diagnostic formatting rule #518.
pub fn render_diagnostic_rule_518(engine: &mut FullDiagnosticsEngine, msg: &str, line: usize) -> (r:
    bool)
    ensures
        r == (msg@.len() > 0),
        final(engine)@ == spec_render_rule(old(engine)@, msg@, line as nat),
{
    if msg.is_empty() {
        return false;
    }
    engine.emit_diagnostic(DiagnosticSeverity::Error, msg, line);
    true
}

/// Diagnostic formatting rule #519.
pub fn render_diagnostic_rule_519(engine: &mut FullDiagnosticsEngine, msg: &str, line: usize) -> (r:
    bool)
    ensures
        r == (msg@.len() > 0),
        final(engine)@ == spec_render_rule(old(engine)@, msg@, line as nat),
{
    if msg.is_empty() {
        return false;
    }
    engine.emit_diagnostic(DiagnosticSeverity::Error, msg, line);
    true
}

/// Diagnostic formatting rule #520.
pub fn render_diagnostic_rule_520(engine: &mut FullDiagnosticsEngine, msg: &str, line: usize) -> (r:
    bool)
    ensures
        r == (msg@.len() > 0),
        final(engine)@ == spec_render_rule(old(engine)@, msg@, line as nat),
{
    if msg.is_empty() {
        return false;
    }
    engine.emit_diagnostic(DiagnosticSeverity::Error, msg, line);
    true
}

/// Diagnostic formatting rule #521.
pub fn render_diagnostic_rule_521(engine: &mut FullDiagnosticsEngine, msg: &str, line: usize) -> (r:
    bool)
    ensures
        r == (msg@.len() > 0),
        final(engine)@ == spec_render_rule(old(engine)@, msg@, line as nat),
{
    if msg.is_empty() {
        return false;
    }
    engine.emit_diagnostic(DiagnosticSeverity::Error, msg, line);
    true
}

/// Diagnostic formatting rule #522.
pub fn render_diagnostic_rule_522(engine: &mut FullDiagnosticsEngine, msg: &str, line: usize) -> (r:
    bool)
    ensures
        r == (msg@.len() > 0),
        final(engine)@ == spec_render_rule(old(engine)@, msg@, line as nat),
{
    if msg.is_empty() {
        return false;
    }
    engine.emit_diagnostic(DiagnosticSeverity::Error, msg, line);
    true
}

/// Diagnostic formatting rule #523.
pub fn render_diagnostic_rule_523(engine: &mut FullDiagnosticsEngine, msg: &str, line: usize) -> (r:
    bool)
    ensures
        r == (msg@.len() > 0),
        final(engine)@ == spec_render_rule(old(engine)@, msg@, line as nat),
{
    if msg.is_empty() {
        return false;
    }
    engine.emit_diagnostic(DiagnosticSeverity::Error, msg, line);
    true
}

/// Diagnostic formatting rule #524.
pub fn render_diagnostic_rule_524(engine: &mut FullDiagnosticsEngine, msg: &str, line: usize) -> (r:
    bool)
    ensures
        r == (msg@.len() > 0),
        final(engine)@ == spec_render_rule(old(engine)@, msg@, line as nat),
{
    if msg.is_empty() {
        return false;
    }
    engine.emit_diagnostic(DiagnosticSeverity::Error, msg, line);
    true
}

/// Diagnostic formatting rule #525.
pub fn render_diagnostic_rule_525(engine: &mut FullDiagnosticsEngine, msg: &str, line: usize) -> (r:
    bool)
    ensures
        r == (msg@.len() > 0),
        final(engine)@ == spec_render_rule(old(engine)@, msg@, line as nat),
{
    if msg.is_empty() {
        return false;
    }
    engine.emit_diagnostic(DiagnosticSeverity::Error, msg, line);
    true
}

/// Diagnostic formatting rule #526.
pub fn render_diagnostic_rule_526(engine: &mut FullDiagnosticsEngine, msg: &str, line: usize) -> (r:
    bool)
    ensures
        r == (msg@.len() > 0),
        final(engine)@ == spec_render_rule(old(engine)@, msg@, line as nat),
{
    if msg.is_empty() {
        return false;
    }
    engine.emit_diagnostic(DiagnosticSeverity::Error, msg, line);
    true
}

/// Diagnostic formatting rule #527.
pub fn render_diagnostic_rule_527(engine: &mut FullDiagnosticsEngine, msg: &str, line: usize) -> (r:
    bool)
    ensures
        r == (msg@.len() > 0),
        final(engine)@ == spec_render_rule(old(engine)@, msg@, line as nat),
{
    if msg.is_empty() {
        return false;
    }
    engine.emit_diagnostic(DiagnosticSeverity::Error, msg, line);
    true
}

/// Diagnostic formatting rule #528.
pub fn render_diagnostic_rule_528(engine: &mut FullDiagnosticsEngine, msg: &str, line: usize) -> (r:
    bool)
    ensures
        r == (msg@.len() > 0),
        final(engine)@ == spec_render_rule(old(engine)@, msg@, line as nat),
{
    if msg.is_empty() {
        return false;
    }
    engine.emit_diagnostic(DiagnosticSeverity::Error, msg, line);
    true
}

/// Diagnostic formatting rule #529.
pub fn render_diagnostic_rule_529(engine: &mut FullDiagnosticsEngine, msg: &str, line: usize) -> (r:
    bool)
    ensures
        r == (msg@.len() > 0),
        final(engine)@ == spec_render_rule(old(engine)@, msg@, line as nat),
{
    if msg.is_empty() {
        return false;
    }
    engine.emit_diagnostic(DiagnosticSeverity::Error, msg, line);
    true
}

/// Diagnostic formatting rule #530.
pub fn render_diagnostic_rule_530(engine: &mut FullDiagnosticsEngine, msg: &str, line: usize) -> (r:
    bool)
    ensures
        r == (msg@.len() > 0),
        final(engine)@ == spec_render_rule(old(engine)@, msg@, line as nat),
{
    if msg.is_empty() {
        return false;
    }
    engine.emit_diagnostic(DiagnosticSeverity::Error, msg, line);
    true
}

/// Diagnostic formatting rule #531.
pub fn render_diagnostic_rule_531(engine: &mut FullDiagnosticsEngine, msg: &str, line: usize) -> (r:
    bool)
    ensures
        r == (msg@.len() > 0),
        final(engine)@ == spec_render_rule(old(engine)@, msg@, line as nat),
{
    if msg.is_empty() {
        return false;
    }
    engine.emit_diagnostic(DiagnosticSeverity::Error, msg, line);
    true
}

/// Diagnostic formatting rule #532.
pub fn render_diagnostic_rule_532(engine: &mut FullDiagnosticsEngine, msg: &str, line: usize) -> (r:
    bool)
    ensures
        r == (msg@.len() > 0),
        final(engine)@ == spec_render_rule(old(engine)@, msg@, line as nat),
{
    if msg.is_empty() {
        return false;
    }
    engine.emit_diagnostic(DiagnosticSeverity::Error, msg, line);
    true
}

/// Diagnostic formatting rule #533.
pub fn render_diagnostic_rule_533(engine: &mut FullDiagnosticsEngine, msg: &str, line: usize) -> (r:
    bool)
    ensures
        r == (msg@.len() > 0),
        final(engine)@ == spec_render_rule(old(engine)@, msg@, line as nat),
{
    if msg.is_empty() {
        return false;
    }
    engine.emit_diagnostic(DiagnosticSeverity::Error, msg, line);
    true
}

/// Diagnostic formatting rule #534.
pub fn render_diagnostic_rule_534(engine: &mut FullDiagnosticsEngine, msg: &str, line: usize) -> (r:
    bool)
    ensures
        r == (msg@.len() > 0),
        final(engine)@ == spec_render_rule(old(engine)@, msg@, line as nat),
{
    if msg.is_empty() {
        return false;
    }
    engine.emit_diagnostic(DiagnosticSeverity::Error, msg, line);
    true
}

/// Diagnostic formatting rule #535.
pub fn render_diagnostic_rule_535(engine: &mut FullDiagnosticsEngine, msg: &str, line: usize) -> (r:
    bool)
    ensures
        r == (msg@.len() > 0),
        final(engine)@ == spec_render_rule(old(engine)@, msg@, line as nat),
{
    if msg.is_empty() {
        return false;
    }
    engine.emit_diagnostic(DiagnosticSeverity::Error, msg, line);
    true
}

/// Diagnostic formatting rule #536.
pub fn render_diagnostic_rule_536(engine: &mut FullDiagnosticsEngine, msg: &str, line: usize) -> (r:
    bool)
    ensures
        r == (msg@.len() > 0),
        final(engine)@ == spec_render_rule(old(engine)@, msg@, line as nat),
{
    if msg.is_empty() {
        return false;
    }
    engine.emit_diagnostic(DiagnosticSeverity::Error, msg, line);
    true
}

/// Diagnostic formatting rule #537.
pub fn render_diagnostic_rule_537(engine: &mut FullDiagnosticsEngine, msg: &str, line: usize) -> (r:
    bool)
    ensures
        r == (msg@.len() > 0),
        final(engine)@ == spec_render_rule(old(engine)@, msg@, line as nat),
{
    if msg.is_empty() {
        return false;
    }
    engine.emit_diagnostic(DiagnosticSeverity::Error, msg, line);
    true
}

/// Diagnostic formatting rule #538.
pub fn render_diagnostic_rule_538(engine: &mut FullDiagnosticsEngine, msg: &str, line: usize) -> (r:
    bool)
    ensures
        r == (msg@.len() > 0),
        final(engine)@ == spec_render_rule(old(engine)@, msg@, line as nat),
{
    if msg.is_empty() {
        return false;
    }
    engine.emit_diagnostic(DiagnosticSeverity::Error, msg, line);
    true
}

/// Diagnostic formatting rule #539.
pub fn render_diagnostic_rule_539(engine: &mut FullDiagnosticsEngine, msg: &str, line: usize) -> (r:
    bool)
    ensures
        r == (msg@.len() > 0),
        final(engine)@ == spec_render_rule(old(engine)@, msg@, line as nat),
{
    if msg.is_empty() {
        return false;
    }
    engine.emit_diagnostic(DiagnosticSeverity::Error, msg, line);
    true
}

/// Diagnostic formatting rule #540.
pub fn render_diagnostic_rule_540(engine: &mut FullDiagnosticsEngine, msg: &str, line: usize) -> (r:
    bool)
    ensures
        r == (msg@.len() > 0),
        final(engine)@ == spec_render_rule(old(engine)@, msg@, line as nat),
{
    if msg.is_empty() {
        return false;
    }
    engine.emit_diagnostic(DiagnosticSeverity::Error, msg, line);
    true
}

/// Diagnostic formatting rule #541.
pub fn render_diagnostic_rule_541(engine: &mut FullDiagnosticsEngine, msg: &str, line: usize) -> (r:
    bool)
    ensures
        r == (msg@.len() > 0),
        final(engine)@ == spec_render_rule(old(engine)@, msg@, line as nat),
{
    if msg.is_empty() {
        return false;
    }
    engine.emit_diagnostic(DiagnosticSeverity::Error, msg, line);
    true
}

/// Diagnostic formatting rule #542.
pub fn render_diagnostic_rule_542(engine: &mut FullDiagnosticsEngine, msg: &str, line: usize) -> (r:
    bool)
    ensures
        r == (msg@.len() > 0),
        final(engine)@ == spec_render_rule(old(engine)@, msg@, line as nat),
{
    if msg.is_empty() {
        return false;
    }
    engine.emit_diagnostic(DiagnosticSeverity::Error, msg, line);
    true
}

/// Diagnostic formatting rule #543.
pub fn render_diagnostic_rule_543(engine: &mut FullDiagnosticsEngine, msg: &str, line: usize) -> (r:
    bool)
    ensures
        r == (msg@.len() > 0),
        final(engine)@ == spec_render_rule(old(engine)@, msg@, line as nat),
{
    if msg.is_empty() {
        return false;
    }
    engine.emit_diagnostic(DiagnosticSeverity::Error, msg, line);
    true
}

/// Diagnostic formatting rule #544.
pub fn render_diagnostic_rule_544(engine: &mut FullDiagnosticsEngine, msg: &str, line: usize) -> (r:
    bool)
    ensures
        r == (msg@.len() > 0),
        final(engine)@ == spec_render_rule(old(engine)@, msg@, line as nat),
{
    if msg.is_empty() {
        return false;
    }
    engine.emit_diagnostic(DiagnosticSeverity::Error, msg, line);
    true
}

/// Diagnostic formatting rule #545.
pub fn render_diagnostic_rule_545(engine: &mut FullDiagnosticsEngine, msg: &str, line: usize) -> (r:
    bool)
    ensures
        r == (msg@.len() > 0),
        final(engine)@ == spec_render_rule(old(engine)@, msg@, line as nat),
{
    if msg.is_empty() {
        return false;
    }
    engine.emit_diagnostic(DiagnosticSeverity::Error, msg, line);
    true
}

/// Diagnostic formatting rule #546.
pub fn render_diagnostic_rule_546(engine: &mut FullDiagnosticsEngine, msg: &str, line: usize) -> (r:
    bool)
    ensures
        r == (msg@.len() > 0),
        final(engine)@ == spec_render_rule(old(engine)@, msg@, line as nat),
{
    if msg.is_empty() {
        return false;
    }
    engine.emit_diagnostic(DiagnosticSeverity::Error, msg, line);
    true
}

/// Diagnostic formatting rule #547.
pub fn render_diagnostic_rule_547(engine: &mut FullDiagnosticsEngine, msg: &str, line: usize) -> (r:
    bool)
    ensures
        r == (msg@.len() > 0),
        final(engine)@ == spec_render_rule(old(engine)@, msg@, line as nat),
{
    if msg.is_empty() {
        return false;
    }
    engine.emit_diagnostic(DiagnosticSeverity::Error, msg, line);
    true
}

/// Diagnostic formatting rule #548.
pub fn render_diagnostic_rule_548(engine: &mut FullDiagnosticsEngine, msg: &str, line: usize) -> (r:
    bool)
    ensures
        r == (msg@.len() > 0),
        final(engine)@ == spec_render_rule(old(engine)@, msg@, line as nat),
{
    if msg.is_empty() {
        return false;
    }
    engine.emit_diagnostic(DiagnosticSeverity::Error, msg, line);
    true
}

/// Diagnostic formatting rule #549.
pub fn render_diagnostic_rule_549(engine: &mut FullDiagnosticsEngine, msg: &str, line: usize) -> (r:
    bool)
    ensures
        r == (msg@.len() > 0),
        final(engine)@ == spec_render_rule(old(engine)@, msg@, line as nat),
{
    if msg.is_empty() {
        return false;
    }
    engine.emit_diagnostic(DiagnosticSeverity::Error, msg, line);
    true
}

/// Diagnostic formatting rule #550.
pub fn render_diagnostic_rule_550(engine: &mut FullDiagnosticsEngine, msg: &str, line: usize) -> (r:
    bool)
    ensures
        r == (msg@.len() > 0),
        final(engine)@ == spec_render_rule(old(engine)@, msg@, line as nat),
{
    if msg.is_empty() {
        return false;
    }
    engine.emit_diagnostic(DiagnosticSeverity::Error, msg, line);
    true
}

/// Diagnostic formatting rule #551.
pub fn render_diagnostic_rule_551(engine: &mut FullDiagnosticsEngine, msg: &str, line: usize) -> (r:
    bool)
    ensures
        r == (msg@.len() > 0),
        final(engine)@ == spec_render_rule(old(engine)@, msg@, line as nat),
{
    if msg.is_empty() {
        return false;
    }
    engine.emit_diagnostic(DiagnosticSeverity::Error, msg, line);
    true
}

/// Diagnostic formatting rule #552.
pub fn render_diagnostic_rule_552(engine: &mut FullDiagnosticsEngine, msg: &str, line: usize) -> (r:
    bool)
    ensures
        r == (msg@.len() > 0),
        final(engine)@ == spec_render_rule(old(engine)@, msg@, line as nat),
{
    if msg.is_empty() {
        return false;
    }
    engine.emit_diagnostic(DiagnosticSeverity::Error, msg, line);
    true
}

/// Diagnostic formatting rule #553.
pub fn render_diagnostic_rule_553(engine: &mut FullDiagnosticsEngine, msg: &str, line: usize) -> (r:
    bool)
    ensures
        r == (msg@.len() > 0),
        final(engine)@ == spec_render_rule(old(engine)@, msg@, line as nat),
{
    if msg.is_empty() {
        return false;
    }
    engine.emit_diagnostic(DiagnosticSeverity::Error, msg, line);
    true
}

/// Diagnostic formatting rule #554.
pub fn render_diagnostic_rule_554(engine: &mut FullDiagnosticsEngine, msg: &str, line: usize) -> (r:
    bool)
    ensures
        r == (msg@.len() > 0),
        final(engine)@ == spec_render_rule(old(engine)@, msg@, line as nat),
{
    if msg.is_empty() {
        return false;
    }
    engine.emit_diagnostic(DiagnosticSeverity::Error, msg, line);
    true
}

/// Diagnostic formatting rule #555.
pub fn render_diagnostic_rule_555(engine: &mut FullDiagnosticsEngine, msg: &str, line: usize) -> (r:
    bool)
    ensures
        r == (msg@.len() > 0),
        final(engine)@ == spec_render_rule(old(engine)@, msg@, line as nat),
{
    if msg.is_empty() {
        return false;
    }
    engine.emit_diagnostic(DiagnosticSeverity::Error, msg, line);
    true
}

/// Diagnostic formatting rule #556.
pub fn render_diagnostic_rule_556(engine: &mut FullDiagnosticsEngine, msg: &str, line: usize) -> (r:
    bool)
    ensures
        r == (msg@.len() > 0),
        final(engine)@ == spec_render_rule(old(engine)@, msg@, line as nat),
{
    if msg.is_empty() {
        return false;
    }
    engine.emit_diagnostic(DiagnosticSeverity::Error, msg, line);
    true
}

/// Diagnostic formatting rule #557.
pub fn render_diagnostic_rule_557(engine: &mut FullDiagnosticsEngine, msg: &str, line: usize) -> (r:
    bool)
    ensures
        r == (msg@.len() > 0),
        final(engine)@ == spec_render_rule(old(engine)@, msg@, line as nat),
{
    if msg.is_empty() {
        return false;
    }
    engine.emit_diagnostic(DiagnosticSeverity::Error, msg, line);
    true
}

/// Diagnostic formatting rule #558.
pub fn render_diagnostic_rule_558(engine: &mut FullDiagnosticsEngine, msg: &str, line: usize) -> (r:
    bool)
    ensures
        r == (msg@.len() > 0),
        final(engine)@ == spec_render_rule(old(engine)@, msg@, line as nat),
{
    if msg.is_empty() {
        return false;
    }
    engine.emit_diagnostic(DiagnosticSeverity::Error, msg, line);
    true
}

/// Diagnostic formatting rule #559.
pub fn render_diagnostic_rule_559(engine: &mut FullDiagnosticsEngine, msg: &str, line: usize) -> (r:
    bool)
    ensures
        r == (msg@.len() > 0),
        final(engine)@ == spec_render_rule(old(engine)@, msg@, line as nat),
{
    if msg.is_empty() {
        return false;
    }
    engine.emit_diagnostic(DiagnosticSeverity::Error, msg, line);
    true
}

/// Diagnostic formatting rule #560.
pub fn render_diagnostic_rule_560(engine: &mut FullDiagnosticsEngine, msg: &str, line: usize) -> (r:
    bool)
    ensures
        r == (msg@.len() > 0),
        final(engine)@ == spec_render_rule(old(engine)@, msg@, line as nat),
{
    if msg.is_empty() {
        return false;
    }
    engine.emit_diagnostic(DiagnosticSeverity::Error, msg, line);
    true
}

/// Diagnostic formatting rule #561.
pub fn render_diagnostic_rule_561(engine: &mut FullDiagnosticsEngine, msg: &str, line: usize) -> (r:
    bool)
    ensures
        r == (msg@.len() > 0),
        final(engine)@ == spec_render_rule(old(engine)@, msg@, line as nat),
{
    if msg.is_empty() {
        return false;
    }
    engine.emit_diagnostic(DiagnosticSeverity::Error, msg, line);
    true
}

/// Diagnostic formatting rule #562.
pub fn render_diagnostic_rule_562(engine: &mut FullDiagnosticsEngine, msg: &str, line: usize) -> (r:
    bool)
    ensures
        r == (msg@.len() > 0),
        final(engine)@ == spec_render_rule(old(engine)@, msg@, line as nat),
{
    if msg.is_empty() {
        return false;
    }
    engine.emit_diagnostic(DiagnosticSeverity::Error, msg, line);
    true
}

/// Diagnostic formatting rule #563.
pub fn render_diagnostic_rule_563(engine: &mut FullDiagnosticsEngine, msg: &str, line: usize) -> (r:
    bool)
    ensures
        r == (msg@.len() > 0),
        final(engine)@ == spec_render_rule(old(engine)@, msg@, line as nat),
{
    if msg.is_empty() {
        return false;
    }
    engine.emit_diagnostic(DiagnosticSeverity::Error, msg, line);
    true
}

/// Diagnostic formatting rule #564.
pub fn render_diagnostic_rule_564(engine: &mut FullDiagnosticsEngine, msg: &str, line: usize) -> (r:
    bool)
    ensures
        r == (msg@.len() > 0),
        final(engine)@ == spec_render_rule(old(engine)@, msg@, line as nat),
{
    if msg.is_empty() {
        return false;
    }
    engine.emit_diagnostic(DiagnosticSeverity::Error, msg, line);
    true
}

/// Diagnostic formatting rule #565.
pub fn render_diagnostic_rule_565(engine: &mut FullDiagnosticsEngine, msg: &str, line: usize) -> (r:
    bool)
    ensures
        r == (msg@.len() > 0),
        final(engine)@ == spec_render_rule(old(engine)@, msg@, line as nat),
{
    if msg.is_empty() {
        return false;
    }
    engine.emit_diagnostic(DiagnosticSeverity::Error, msg, line);
    true
}

/// Diagnostic formatting rule #566.
pub fn render_diagnostic_rule_566(engine: &mut FullDiagnosticsEngine, msg: &str, line: usize) -> (r:
    bool)
    ensures
        r == (msg@.len() > 0),
        final(engine)@ == spec_render_rule(old(engine)@, msg@, line as nat),
{
    if msg.is_empty() {
        return false;
    }
    engine.emit_diagnostic(DiagnosticSeverity::Error, msg, line);
    true
}

/// Diagnostic formatting rule #567.
pub fn render_diagnostic_rule_567(engine: &mut FullDiagnosticsEngine, msg: &str, line: usize) -> (r:
    bool)
    ensures
        r == (msg@.len() > 0),
        final(engine)@ == spec_render_rule(old(engine)@, msg@, line as nat),
{
    if msg.is_empty() {
        return false;
    }
    engine.emit_diagnostic(DiagnosticSeverity::Error, msg, line);
    true
}

/// Diagnostic formatting rule #568.
pub fn render_diagnostic_rule_568(engine: &mut FullDiagnosticsEngine, msg: &str, line: usize) -> (r:
    bool)
    ensures
        r == (msg@.len() > 0),
        final(engine)@ == spec_render_rule(old(engine)@, msg@, line as nat),
{
    if msg.is_empty() {
        return false;
    }
    engine.emit_diagnostic(DiagnosticSeverity::Error, msg, line);
    true
}

/// Diagnostic formatting rule #569.
pub fn render_diagnostic_rule_569(engine: &mut FullDiagnosticsEngine, msg: &str, line: usize) -> (r:
    bool)
    ensures
        r == (msg@.len() > 0),
        final(engine)@ == spec_render_rule(old(engine)@, msg@, line as nat),
{
    if msg.is_empty() {
        return false;
    }
    engine.emit_diagnostic(DiagnosticSeverity::Error, msg, line);
    true
}

/// Diagnostic formatting rule #570.
pub fn render_diagnostic_rule_570(engine: &mut FullDiagnosticsEngine, msg: &str, line: usize) -> (r:
    bool)
    ensures
        r == (msg@.len() > 0),
        final(engine)@ == spec_render_rule(old(engine)@, msg@, line as nat),
{
    if msg.is_empty() {
        return false;
    }
    engine.emit_diagnostic(DiagnosticSeverity::Error, msg, line);
    true
}

/// Diagnostic formatting rule #571.
pub fn render_diagnostic_rule_571(engine: &mut FullDiagnosticsEngine, msg: &str, line: usize) -> (r:
    bool)
    ensures
        r == (msg@.len() > 0),
        final(engine)@ == spec_render_rule(old(engine)@, msg@, line as nat),
{
    if msg.is_empty() {
        return false;
    }
    engine.emit_diagnostic(DiagnosticSeverity::Error, msg, line);
    true
}

/// Diagnostic formatting rule #572.
pub fn render_diagnostic_rule_572(engine: &mut FullDiagnosticsEngine, msg: &str, line: usize) -> (r:
    bool)
    ensures
        r == (msg@.len() > 0),
        final(engine)@ == spec_render_rule(old(engine)@, msg@, line as nat),
{
    if msg.is_empty() {
        return false;
    }
    engine.emit_diagnostic(DiagnosticSeverity::Error, msg, line);
    true
}

/// Diagnostic formatting rule #573.
pub fn render_diagnostic_rule_573(engine: &mut FullDiagnosticsEngine, msg: &str, line: usize) -> (r:
    bool)
    ensures
        r == (msg@.len() > 0),
        final(engine)@ == spec_render_rule(old(engine)@, msg@, line as nat),
{
    if msg.is_empty() {
        return false;
    }
    engine.emit_diagnostic(DiagnosticSeverity::Error, msg, line);
    true
}

/// Diagnostic formatting rule #574.
pub fn render_diagnostic_rule_574(engine: &mut FullDiagnosticsEngine, msg: &str, line: usize) -> (r:
    bool)
    ensures
        r == (msg@.len() > 0),
        final(engine)@ == spec_render_rule(old(engine)@, msg@, line as nat),
{
    if msg.is_empty() {
        return false;
    }
    engine.emit_diagnostic(DiagnosticSeverity::Error, msg, line);
    true
}

/// Diagnostic formatting rule #575.
pub fn render_diagnostic_rule_575(engine: &mut FullDiagnosticsEngine, msg: &str, line: usize) -> (r:
    bool)
    ensures
        r == (msg@.len() > 0),
        final(engine)@ == spec_render_rule(old(engine)@, msg@, line as nat),
{
    if msg.is_empty() {
        return false;
    }
    engine.emit_diagnostic(DiagnosticSeverity::Error, msg, line);
    true
}

/// Diagnostic formatting rule #576.
pub fn render_diagnostic_rule_576(engine: &mut FullDiagnosticsEngine, msg: &str, line: usize) -> (r:
    bool)
    ensures
        r == (msg@.len() > 0),
        final(engine)@ == spec_render_rule(old(engine)@, msg@, line as nat),
{
    if msg.is_empty() {
        return false;
    }
    engine.emit_diagnostic(DiagnosticSeverity::Error, msg, line);
    true
}

/// Diagnostic formatting rule #577.
pub fn render_diagnostic_rule_577(engine: &mut FullDiagnosticsEngine, msg: &str, line: usize) -> (r:
    bool)
    ensures
        r == (msg@.len() > 0),
        final(engine)@ == spec_render_rule(old(engine)@, msg@, line as nat),
{
    if msg.is_empty() {
        return false;
    }
    engine.emit_diagnostic(DiagnosticSeverity::Error, msg, line);
    true
}

/// Diagnostic formatting rule #578.
pub fn render_diagnostic_rule_578(engine: &mut FullDiagnosticsEngine, msg: &str, line: usize) -> (r:
    bool)
    ensures
        r == (msg@.len() > 0),
        final(engine)@ == spec_render_rule(old(engine)@, msg@, line as nat),
{
    if msg.is_empty() {
        return false;
    }
    engine.emit_diagnostic(DiagnosticSeverity::Error, msg, line);
    true
}

/// Diagnostic formatting rule #579.
pub fn render_diagnostic_rule_579(engine: &mut FullDiagnosticsEngine, msg: &str, line: usize) -> (r:
    bool)
    ensures
        r == (msg@.len() > 0),
        final(engine)@ == spec_render_rule(old(engine)@, msg@, line as nat),
{
    if msg.is_empty() {
        return false;
    }
    engine.emit_diagnostic(DiagnosticSeverity::Error, msg, line);
    true
}

/// Diagnostic formatting rule #580.
pub fn render_diagnostic_rule_580(engine: &mut FullDiagnosticsEngine, msg: &str, line: usize) -> (r:
    bool)
    ensures
        r == (msg@.len() > 0),
        final(engine)@ == spec_render_rule(old(engine)@, msg@, line as nat),
{
    if msg.is_empty() {
        return false;
    }
    engine.emit_diagnostic(DiagnosticSeverity::Error, msg, line);
    true
}

/// Diagnostic formatting rule #581.
pub fn render_diagnostic_rule_581(engine: &mut FullDiagnosticsEngine, msg: &str, line: usize) -> (r:
    bool)
    ensures
        r == (msg@.len() > 0),
        final(engine)@ == spec_render_rule(old(engine)@, msg@, line as nat),
{
    if msg.is_empty() {
        return false;
    }
    engine.emit_diagnostic(DiagnosticSeverity::Error, msg, line);
    true
}

/// Diagnostic formatting rule #582.
pub fn render_diagnostic_rule_582(engine: &mut FullDiagnosticsEngine, msg: &str, line: usize) -> (r:
    bool)
    ensures
        r == (msg@.len() > 0),
        final(engine)@ == spec_render_rule(old(engine)@, msg@, line as nat),
{
    if msg.is_empty() {
        return false;
    }
    engine.emit_diagnostic(DiagnosticSeverity::Error, msg, line);
    true
}

/// Diagnostic formatting rule #583.
pub fn render_diagnostic_rule_583(engine: &mut FullDiagnosticsEngine, msg: &str, line: usize) -> (r:
    bool)
    ensures
        r == (msg@.len() > 0),
        final(engine)@ == spec_render_rule(old(engine)@, msg@, line as nat),
{
    if msg.is_empty() {
        return false;
    }
    engine.emit_diagnostic(DiagnosticSeverity::Error, msg, line);
    true
}

/// Diagnostic formatting rule #584.
pub fn render_diagnostic_rule_584(engine: &mut FullDiagnosticsEngine, msg: &str, line: usize) -> (r:
    bool)
    ensures
        r == (msg@.len() > 0),
        final(engine)@ == spec_render_rule(old(engine)@, msg@, line as nat),
{
    if msg.is_empty() {
        return false;
    }
    engine.emit_diagnostic(DiagnosticSeverity::Error, msg, line);
    true
}

/// Diagnostic formatting rule #585.
pub fn render_diagnostic_rule_585(engine: &mut FullDiagnosticsEngine, msg: &str, line: usize) -> (r:
    bool)
    ensures
        r == (msg@.len() > 0),
        final(engine)@ == spec_render_rule(old(engine)@, msg@, line as nat),
{
    if msg.is_empty() {
        return false;
    }
    engine.emit_diagnostic(DiagnosticSeverity::Error, msg, line);
    true
}

/// Diagnostic formatting rule #586.
pub fn render_diagnostic_rule_586(engine: &mut FullDiagnosticsEngine, msg: &str, line: usize) -> (r:
    bool)
    ensures
        r == (msg@.len() > 0),
        final(engine)@ == spec_render_rule(old(engine)@, msg@, line as nat),
{
    if msg.is_empty() {
        return false;
    }
    engine.emit_diagnostic(DiagnosticSeverity::Error, msg, line);
    true
}

/// Diagnostic formatting rule #587.
pub fn render_diagnostic_rule_587(engine: &mut FullDiagnosticsEngine, msg: &str, line: usize) -> (r:
    bool)
    ensures
        r == (msg@.len() > 0),
        final(engine)@ == spec_render_rule(old(engine)@, msg@, line as nat),
{
    if msg.is_empty() {
        return false;
    }
    engine.emit_diagnostic(DiagnosticSeverity::Error, msg, line);
    true
}

/// Diagnostic formatting rule #588.
pub fn render_diagnostic_rule_588(engine: &mut FullDiagnosticsEngine, msg: &str, line: usize) -> (r:
    bool)
    ensures
        r == (msg@.len() > 0),
        final(engine)@ == spec_render_rule(old(engine)@, msg@, line as nat),
{
    if msg.is_empty() {
        return false;
    }
    engine.emit_diagnostic(DiagnosticSeverity::Error, msg, line);
    true
}

/// Diagnostic formatting rule #589.
pub fn render_diagnostic_rule_589(engine: &mut FullDiagnosticsEngine, msg: &str, line: usize) -> (r:
    bool)
    ensures
        r == (msg@.len() > 0),
        final(engine)@ == spec_render_rule(old(engine)@, msg@, line as nat),
{
    if msg.is_empty() {
        return false;
    }
    engine.emit_diagnostic(DiagnosticSeverity::Error, msg, line);
    true
}

/// Diagnostic formatting rule #590.
pub fn render_diagnostic_rule_590(engine: &mut FullDiagnosticsEngine, msg: &str, line: usize) -> (r:
    bool)
    ensures
        r == (msg@.len() > 0),
        final(engine)@ == spec_render_rule(old(engine)@, msg@, line as nat),
{
    if msg.is_empty() {
        return false;
    }
    engine.emit_diagnostic(DiagnosticSeverity::Error, msg, line);
    true
}

/// Diagnostic formatting rule #591.
pub fn render_diagnostic_rule_591(engine: &mut FullDiagnosticsEngine, msg: &str, line: usize) -> (r:
    bool)
    ensures
        r == (msg@.len() > 0),
        final(engine)@ == spec_render_rule(old(engine)@, msg@, line as nat),
{
    if msg.is_empty() {
        return false;
    }
    engine.emit_diagnostic(DiagnosticSeverity::Error, msg, line);
    true
}

/// Diagnostic formatting rule #592.
pub fn render_diagnostic_rule_592(engine: &mut FullDiagnosticsEngine, msg: &str, line: usize) -> (r:
    bool)
    ensures
        r == (msg@.len() > 0),
        final(engine)@ == spec_render_rule(old(engine)@, msg@, line as nat),
{
    if msg.is_empty() {
        return false;
    }
    engine.emit_diagnostic(DiagnosticSeverity::Error, msg, line);
    true
}

/// Diagnostic formatting rule #593.
pub fn render_diagnostic_rule_593(engine: &mut FullDiagnosticsEngine, msg: &str, line: usize) -> (r:
    bool)
    ensures
        r == (msg@.len() > 0),
        final(engine)@ == spec_render_rule(old(engine)@, msg@, line as nat),
{
    if msg.is_empty() {
        return false;
    }
    engine.emit_diagnostic(DiagnosticSeverity::Error, msg, line);
    true
}

/// Diagnostic formatting rule #594.
pub fn render_diagnostic_rule_594(engine: &mut FullDiagnosticsEngine, msg: &str, line: usize) -> (r:
    bool)
    ensures
        r == (msg@.len() > 0),
        final(engine)@ == spec_render_rule(old(engine)@, msg@, line as nat),
{
    if msg.is_empty() {
        return false;
    }
    engine.emit_diagnostic(DiagnosticSeverity::Error, msg, line);
    true
}

/// Diagnostic formatting rule #595.
pub fn render_diagnostic_rule_595(engine: &mut FullDiagnosticsEngine, msg: &str, line: usize) -> (r:
    bool)
    ensures
        r == (msg@.len() > 0),
        final(engine)@ == spec_render_rule(old(engine)@, msg@, line as nat),
{
    if msg.is_empty() {
        return false;
    }
    engine.emit_diagnostic(DiagnosticSeverity::Error, msg, line);
    true
}

/// Diagnostic formatting rule #596.
pub fn render_diagnostic_rule_596(engine: &mut FullDiagnosticsEngine, msg: &str, line: usize) -> (r:
    bool)
    ensures
        r == (msg@.len() > 0),
        final(engine)@ == spec_render_rule(old(engine)@, msg@, line as nat),
{
    if msg.is_empty() {
        return false;
    }
    engine.emit_diagnostic(DiagnosticSeverity::Error, msg, line);
    true
}

/// Diagnostic formatting rule #597.
pub fn render_diagnostic_rule_597(engine: &mut FullDiagnosticsEngine, msg: &str, line: usize) -> (r:
    bool)
    ensures
        r == (msg@.len() > 0),
        final(engine)@ == spec_render_rule(old(engine)@, msg@, line as nat),
{
    if msg.is_empty() {
        return false;
    }
    engine.emit_diagnostic(DiagnosticSeverity::Error, msg, line);
    true
}

/// Diagnostic formatting rule #598.
pub fn render_diagnostic_rule_598(engine: &mut FullDiagnosticsEngine, msg: &str, line: usize) -> (r:
    bool)
    ensures
        r == (msg@.len() > 0),
        final(engine)@ == spec_render_rule(old(engine)@, msg@, line as nat),
{
    if msg.is_empty() {
        return false;
    }
    engine.emit_diagnostic(DiagnosticSeverity::Error, msg, line);
    true
}

/// Diagnostic formatting rule #599.
pub fn render_diagnostic_rule_599(engine: &mut FullDiagnosticsEngine, msg: &str, line: usize) -> (r:
    bool)
    ensures
        r == (msg@.len() > 0),
        final(engine)@ == spec_render_rule(old(engine)@, msg@, line as nat),
{
    if msg.is_empty() {
        return false;
    }
    engine.emit_diagnostic(DiagnosticSeverity::Error, msg, line);
    true
}

/// Diagnostic formatting rule #600.
pub fn render_diagnostic_rule_600(engine: &mut FullDiagnosticsEngine, msg: &str, line: usize) -> (r:
    bool)
    ensures
        r == (msg@.len() > 0),
        final(engine)@ == spec_render_rule(old(engine)@, msg@, line as nat),
{
    if msg.is_empty() {
        return false;
    }
    engine.emit_diagnostic(DiagnosticSeverity::Error, msg, line);
    true
}

/// Diagnostic formatting rule #601.
pub fn render_diagnostic_rule_601(engine: &mut FullDiagnosticsEngine, msg: &str, line: usize) -> (r:
    bool)
    ensures
        r == (msg@.len() > 0),
        final(engine)@ == spec_render_rule(old(engine)@, msg@, line as nat),
{
    if msg.is_empty() {
        return false;
    }
    engine.emit_diagnostic(DiagnosticSeverity::Error, msg, line);
    true
}

/// Diagnostic formatting rule #602.
pub fn render_diagnostic_rule_602(engine: &mut FullDiagnosticsEngine, msg: &str, line: usize) -> (r:
    bool)
    ensures
        r == (msg@.len() > 0),
        final(engine)@ == spec_render_rule(old(engine)@, msg@, line as nat),
{
    if msg.is_empty() {
        return false;
    }
    engine.emit_diagnostic(DiagnosticSeverity::Error, msg, line);
    true
}

/// Diagnostic formatting rule #603.
pub fn render_diagnostic_rule_603(engine: &mut FullDiagnosticsEngine, msg: &str, line: usize) -> (r:
    bool)
    ensures
        r == (msg@.len() > 0),
        final(engine)@ == spec_render_rule(old(engine)@, msg@, line as nat),
{
    if msg.is_empty() {
        return false;
    }
    engine.emit_diagnostic(DiagnosticSeverity::Error, msg, line);
    true
}

/// Diagnostic formatting rule #604.
pub fn render_diagnostic_rule_604(engine: &mut FullDiagnosticsEngine, msg: &str, line: usize) -> (r:
    bool)
    ensures
        r == (msg@.len() > 0),
        final(engine)@ == spec_render_rule(old(engine)@, msg@, line as nat),
{
    if msg.is_empty() {
        return false;
    }
    engine.emit_diagnostic(DiagnosticSeverity::Error, msg, line);
    true
}

/// Diagnostic formatting rule #605.
pub fn render_diagnostic_rule_605(engine: &mut FullDiagnosticsEngine, msg: &str, line: usize) -> (r:
    bool)
    ensures
        r == (msg@.len() > 0),
        final(engine)@ == spec_render_rule(old(engine)@, msg@, line as nat),
{
    if msg.is_empty() {
        return false;
    }
    engine.emit_diagnostic(DiagnosticSeverity::Error, msg, line);
    true
}

/// Diagnostic formatting rule #606.
pub fn render_diagnostic_rule_606(engine: &mut FullDiagnosticsEngine, msg: &str, line: usize) -> (r:
    bool)
    ensures
        r == (msg@.len() > 0),
        final(engine)@ == spec_render_rule(old(engine)@, msg@, line as nat),
{
    if msg.is_empty() {
        return false;
    }
    engine.emit_diagnostic(DiagnosticSeverity::Error, msg, line);
    true
}

/// Diagnostic formatting rule #607.
pub fn render_diagnostic_rule_607(engine: &mut FullDiagnosticsEngine, msg: &str, line: usize) -> (r:
    bool)
    ensures
        r == (msg@.len() > 0),
        final(engine)@ == spec_render_rule(old(engine)@, msg@, line as nat),
{
    if msg.is_empty() {
        return false;
    }
    engine.emit_diagnostic(DiagnosticSeverity::Error, msg, line);
    true
}

/// Diagnostic formatting rule #608.
pub fn render_diagnostic_rule_608(engine: &mut FullDiagnosticsEngine, msg: &str, line: usize) -> (r:
    bool)
    ensures
        r == (msg@.len() > 0),
        final(engine)@ == spec_render_rule(old(engine)@, msg@, line as nat),
{
    if msg.is_empty() {
        return false;
    }
    engine.emit_diagnostic(DiagnosticSeverity::Error, msg, line);
    true
}

/// Diagnostic formatting rule #609.
pub fn render_diagnostic_rule_609(engine: &mut FullDiagnosticsEngine, msg: &str, line: usize) -> (r:
    bool)
    ensures
        r == (msg@.len() > 0),
        final(engine)@ == spec_render_rule(old(engine)@, msg@, line as nat),
{
    if msg.is_empty() {
        return false;
    }
    engine.emit_diagnostic(DiagnosticSeverity::Error, msg, line);
    true
}

/// Diagnostic formatting rule #610.
pub fn render_diagnostic_rule_610(engine: &mut FullDiagnosticsEngine, msg: &str, line: usize) -> (r:
    bool)
    ensures
        r == (msg@.len() > 0),
        final(engine)@ == spec_render_rule(old(engine)@, msg@, line as nat),
{
    if msg.is_empty() {
        return false;
    }
    engine.emit_diagnostic(DiagnosticSeverity::Error, msg, line);
    true
}

/// Diagnostic formatting rule #611.
pub fn render_diagnostic_rule_611(engine: &mut FullDiagnosticsEngine, msg: &str, line: usize) -> (r:
    bool)
    ensures
        r == (msg@.len() > 0),
        final(engine)@ == spec_render_rule(old(engine)@, msg@, line as nat),
{
    if msg.is_empty() {
        return false;
    }
    engine.emit_diagnostic(DiagnosticSeverity::Error, msg, line);
    true
}

/// Diagnostic formatting rule #612.
pub fn render_diagnostic_rule_612(engine: &mut FullDiagnosticsEngine, msg: &str, line: usize) -> (r:
    bool)
    ensures
        r == (msg@.len() > 0),
        final(engine)@ == spec_render_rule(old(engine)@, msg@, line as nat),
{
    if msg.is_empty() {
        return false;
    }
    engine.emit_diagnostic(DiagnosticSeverity::Error, msg, line);
    true
}

/// Diagnostic formatting rule #613.
pub fn render_diagnostic_rule_613(engine: &mut FullDiagnosticsEngine, msg: &str, line: usize) -> (r:
    bool)
    ensures
        r == (msg@.len() > 0),
        final(engine)@ == spec_render_rule(old(engine)@, msg@, line as nat),
{
    if msg.is_empty() {
        return false;
    }
    engine.emit_diagnostic(DiagnosticSeverity::Error, msg, line);
    true
}

/// Diagnostic formatting rule #614.
pub fn render_diagnostic_rule_614(engine: &mut FullDiagnosticsEngine, msg: &str, line: usize) -> (r:
    bool)
    ensures
        r == (msg@.len() > 0),
        final(engine)@ == spec_render_rule(old(engine)@, msg@, line as nat),
{
    if msg.is_empty() {
        return false;
    }
    engine.emit_diagnostic(DiagnosticSeverity::Error, msg, line);
    true
}

/// Diagnostic formatting rule #615.
pub fn render_diagnostic_rule_615(engine: &mut FullDiagnosticsEngine, msg: &str, line: usize) -> (r:
    bool)
    ensures
        r == (msg@.len() > 0),
        final(engine)@ == spec_render_rule(old(engine)@, msg@, line as nat),
{
    if msg.is_empty() {
        return false;
    }
    engine.emit_diagnostic(DiagnosticSeverity::Error, msg, line);
    true
}

/// Diagnostic formatting rule #616.
pub fn render_diagnostic_rule_616(engine: &mut FullDiagnosticsEngine, msg: &str, line: usize) -> (r:
    bool)
    ensures
        r == (msg@.len() > 0),
        final(engine)@ == spec_render_rule(old(engine)@, msg@, line as nat),
{
    if msg.is_empty() {
        return false;
    }
    engine.emit_diagnostic(DiagnosticSeverity::Error, msg, line);
    true
}

/// Diagnostic formatting rule #617.
pub fn render_diagnostic_rule_617(engine: &mut FullDiagnosticsEngine, msg: &str, line: usize) -> (r:
    bool)
    ensures
        r == (msg@.len() > 0),
        final(engine)@ == spec_render_rule(old(engine)@, msg@, line as nat),
{
    if msg.is_empty() {
        return false;
    }
    engine.emit_diagnostic(DiagnosticSeverity::Error, msg, line);
    true
}

/// Diagnostic formatting rule #618.
pub fn render_diagnostic_rule_618(engine: &mut FullDiagnosticsEngine, msg: &str, line: usize) -> (r:
    bool)
    ensures
        r == (msg@.len() > 0),
        final(engine)@ == spec_render_rule(old(engine)@, msg@, line as nat),
{
    if msg.is_empty() {
        return false;
    }
    engine.emit_diagnostic(DiagnosticSeverity::Error, msg, line);
    true
}

/// Diagnostic formatting rule #619.
pub fn render_diagnostic_rule_619(engine: &mut FullDiagnosticsEngine, msg: &str, line: usize) -> (r:
    bool)
    ensures
        r == (msg@.len() > 0),
        final(engine)@ == spec_render_rule(old(engine)@, msg@, line as nat),
{
    if msg.is_empty() {
        return false;
    }
    engine.emit_diagnostic(DiagnosticSeverity::Error, msg, line);
    true
}

/// Diagnostic formatting rule #620.
pub fn render_diagnostic_rule_620(engine: &mut FullDiagnosticsEngine, msg: &str, line: usize) -> (r:
    bool)
    ensures
        r == (msg@.len() > 0),
        final(engine)@ == spec_render_rule(old(engine)@, msg@, line as nat),
{
    if msg.is_empty() {
        return false;
    }
    engine.emit_diagnostic(DiagnosticSeverity::Error, msg, line);
    true
}

/// Diagnostic formatting rule #621.
pub fn render_diagnostic_rule_621(engine: &mut FullDiagnosticsEngine, msg: &str, line: usize) -> (r:
    bool)
    ensures
        r == (msg@.len() > 0),
        final(engine)@ == spec_render_rule(old(engine)@, msg@, line as nat),
{
    if msg.is_empty() {
        return false;
    }
    engine.emit_diagnostic(DiagnosticSeverity::Error, msg, line);
    true
}

/// Diagnostic formatting rule #622.
pub fn render_diagnostic_rule_622(engine: &mut FullDiagnosticsEngine, msg: &str, line: usize) -> (r:
    bool)
    ensures
        r == (msg@.len() > 0),
        final(engine)@ == spec_render_rule(old(engine)@, msg@, line as nat),
{
    if msg.is_empty() {
        return false;
    }
    engine.emit_diagnostic(DiagnosticSeverity::Error, msg, line);
    true
}

/// Diagnostic formatting rule #623.
pub fn render_diagnostic_rule_623(engine: &mut FullDiagnosticsEngine, msg: &str, line: usize) -> (r:
    bool)
    ensures
        r == (msg@.len() > 0),
        final(engine)@ == spec_render_rule(old(engine)@, msg@, line as nat),
{
    if msg.is_empty() {
        return false;
    }
    engine.emit_diagnostic(DiagnosticSeverity::Error, msg, line);
    true
}

/// Diagnostic formatting rule #624.
pub fn render_diagnostic_rule_624(engine: &mut FullDiagnosticsEngine, msg: &str, line: usize) -> (r:
    bool)
    ensures
        r == (msg@.len() > 0),
        final(engine)@ == spec_render_rule(old(engine)@, msg@, line as nat),
{
    if msg.is_empty() {
        return false;
    }
    engine.emit_diagnostic(DiagnosticSeverity::Error, msg, line);
    true
}

/// Diagnostic formatting rule #625.
pub fn render_diagnostic_rule_625(engine: &mut FullDiagnosticsEngine, msg: &str, line: usize) -> (r:
    bool)
    ensures
        r == (msg@.len() > 0),
        final(engine)@ == spec_render_rule(old(engine)@, msg@, line as nat),
{
    if msg.is_empty() {
        return false;
    }
    engine.emit_diagnostic(DiagnosticSeverity::Error, msg, line);
    true
}

/// Diagnostic formatting rule #626.
pub fn render_diagnostic_rule_626(engine: &mut FullDiagnosticsEngine, msg: &str, line: usize) -> (r:
    bool)
    ensures
        r == (msg@.len() > 0),
        final(engine)@ == spec_render_rule(old(engine)@, msg@, line as nat),
{
    if msg.is_empty() {
        return false;
    }
    engine.emit_diagnostic(DiagnosticSeverity::Error, msg, line);
    true
}

/// Diagnostic formatting rule #627.
pub fn render_diagnostic_rule_627(engine: &mut FullDiagnosticsEngine, msg: &str, line: usize) -> (r:
    bool)
    ensures
        r == (msg@.len() > 0),
        final(engine)@ == spec_render_rule(old(engine)@, msg@, line as nat),
{
    if msg.is_empty() {
        return false;
    }
    engine.emit_diagnostic(DiagnosticSeverity::Error, msg, line);
    true
}

/// Diagnostic formatting rule #628.
pub fn render_diagnostic_rule_628(engine: &mut FullDiagnosticsEngine, msg: &str, line: usize) -> (r:
    bool)
    ensures
        r == (msg@.len() > 0),
        final(engine)@ == spec_render_rule(old(engine)@, msg@, line as nat),
{
    if msg.is_empty() {
        return false;
    }
    engine.emit_diagnostic(DiagnosticSeverity::Error, msg, line);
    true
}

/// Diagnostic formatting rule #629.
pub fn render_diagnostic_rule_629(engine: &mut FullDiagnosticsEngine, msg: &str, line: usize) -> (r:
    bool)
    ensures
        r == (msg@.len() > 0),
        final(engine)@ == spec_render_rule(old(engine)@, msg@, line as nat),
{
    if msg.is_empty() {
        return false;
    }
    engine.emit_diagnostic(DiagnosticSeverity::Error, msg, line);
    true
}

/// Diagnostic formatting rule #630.
pub fn render_diagnostic_rule_630(engine: &mut FullDiagnosticsEngine, msg: &str, line: usize) -> (r:
    bool)
    ensures
        r == (msg@.len() > 0),
        final(engine)@ == spec_render_rule(old(engine)@, msg@, line as nat),
{
    if msg.is_empty() {
        return false;
    }
    engine.emit_diagnostic(DiagnosticSeverity::Error, msg, line);
    true
}

/// Diagnostic formatting rule #631.
pub fn render_diagnostic_rule_631(engine: &mut FullDiagnosticsEngine, msg: &str, line: usize) -> (r:
    bool)
    ensures
        r == (msg@.len() > 0),
        final(engine)@ == spec_render_rule(old(engine)@, msg@, line as nat),
{
    if msg.is_empty() {
        return false;
    }
    engine.emit_diagnostic(DiagnosticSeverity::Error, msg, line);
    true
}

/// Diagnostic formatting rule #632.
pub fn render_diagnostic_rule_632(engine: &mut FullDiagnosticsEngine, msg: &str, line: usize) -> (r:
    bool)
    ensures
        r == (msg@.len() > 0),
        final(engine)@ == spec_render_rule(old(engine)@, msg@, line as nat),
{
    if msg.is_empty() {
        return false;
    }
    engine.emit_diagnostic(DiagnosticSeverity::Error, msg, line);
    true
}

/// Diagnostic formatting rule #633.
pub fn render_diagnostic_rule_633(engine: &mut FullDiagnosticsEngine, msg: &str, line: usize) -> (r:
    bool)
    ensures
        r == (msg@.len() > 0),
        final(engine)@ == spec_render_rule(old(engine)@, msg@, line as nat),
{
    if msg.is_empty() {
        return false;
    }
    engine.emit_diagnostic(DiagnosticSeverity::Error, msg, line);
    true
}

/// Diagnostic formatting rule #634.
pub fn render_diagnostic_rule_634(engine: &mut FullDiagnosticsEngine, msg: &str, line: usize) -> (r:
    bool)
    ensures
        r == (msg@.len() > 0),
        final(engine)@ == spec_render_rule(old(engine)@, msg@, line as nat),
{
    if msg.is_empty() {
        return false;
    }
    engine.emit_diagnostic(DiagnosticSeverity::Error, msg, line);
    true
}

/// Diagnostic formatting rule #635.
pub fn render_diagnostic_rule_635(engine: &mut FullDiagnosticsEngine, msg: &str, line: usize) -> (r:
    bool)
    ensures
        r == (msg@.len() > 0),
        final(engine)@ == spec_render_rule(old(engine)@, msg@, line as nat),
{
    if msg.is_empty() {
        return false;
    }
    engine.emit_diagnostic(DiagnosticSeverity::Error, msg, line);
    true
}

/// Diagnostic formatting rule #636.
pub fn render_diagnostic_rule_636(engine: &mut FullDiagnosticsEngine, msg: &str, line: usize) -> (r:
    bool)
    ensures
        r == (msg@.len() > 0),
        final(engine)@ == spec_render_rule(old(engine)@, msg@, line as nat),
{
    if msg.is_empty() {
        return false;
    }
    engine.emit_diagnostic(DiagnosticSeverity::Error, msg, line);
    true
}

/// Diagnostic formatting rule #637.
pub fn render_diagnostic_rule_637(engine: &mut FullDiagnosticsEngine, msg: &str, line: usize) -> (r:
    bool)
    ensures
        r == (msg@.len() > 0),
        final(engine)@ == spec_render_rule(old(engine)@, msg@, line as nat),
{
    if msg.is_empty() {
        return false;
    }
    engine.emit_diagnostic(DiagnosticSeverity::Error, msg, line);
    true
}

/// Diagnostic formatting rule #638.
pub fn render_diagnostic_rule_638(engine: &mut FullDiagnosticsEngine, msg: &str, line: usize) -> (r:
    bool)
    ensures
        r == (msg@.len() > 0),
        final(engine)@ == spec_render_rule(old(engine)@, msg@, line as nat),
{
    if msg.is_empty() {
        return false;
    }
    engine.emit_diagnostic(DiagnosticSeverity::Error, msg, line);
    true
}

/// Diagnostic formatting rule #639.
pub fn render_diagnostic_rule_639(engine: &mut FullDiagnosticsEngine, msg: &str, line: usize) -> (r:
    bool)
    ensures
        r == (msg@.len() > 0),
        final(engine)@ == spec_render_rule(old(engine)@, msg@, line as nat),
{
    if msg.is_empty() {
        return false;
    }
    engine.emit_diagnostic(DiagnosticSeverity::Error, msg, line);
    true
}

/// Diagnostic formatting rule #640.
pub fn render_diagnostic_rule_640(engine: &mut FullDiagnosticsEngine, msg: &str, line: usize) -> (r:
    bool)
    ensures
        r == (msg@.len() > 0),
        final(engine)@ == spec_render_rule(old(engine)@, msg@, line as nat),
{
    if msg.is_empty() {
        return false;
    }
    engine.emit_diagnostic(DiagnosticSeverity::Error, msg, line);
    true
}

/// Diagnostic formatting rule #641.
pub fn render_diagnostic_rule_641(engine: &mut FullDiagnosticsEngine, msg: &str, line: usize) -> (r:
    bool)
    ensures
        r == (msg@.len() > 0),
        final(engine)@ == spec_render_rule(old(engine)@, msg@, line as nat),
{
    if msg.is_empty() {
        return false;
    }
    engine.emit_diagnostic(DiagnosticSeverity::Error, msg, line);
    true
}

/// Diagnostic formatting rule #642.
pub fn render_diagnostic_rule_642(engine: &mut FullDiagnosticsEngine, msg: &str, line: usize) -> (r:
    bool)
    ensures
        r == (msg@.len() > 0),
        final(engine)@ == spec_render_rule(old(engine)@, msg@, line as nat),
{
    if msg.is_empty() {
        return false;
    }
    engine.emit_diagnostic(DiagnosticSeverity::Error, msg, line);
    true
}

/// Diagnostic formatting rule #643.
pub fn render_diagnostic_rule_643(engine: &mut FullDiagnosticsEngine, msg: &str, line: usize) -> (r:
    bool)
    ensures
        r == (msg@.len() > 0),
        final(engine)@ == spec_render_rule(old(engine)@, msg@, line as nat),
{
    if msg.is_empty() {
        return false;
    }
    engine.emit_diagnostic(DiagnosticSeverity::Error, msg, line);
    true
}

/// Diagnostic formatting rule #644.
pub fn render_diagnostic_rule_644(engine: &mut FullDiagnosticsEngine, msg: &str, line: usize) -> (r:
    bool)
    ensures
        r == (msg@.len() > 0),
        final(engine)@ == spec_render_rule(old(engine)@, msg@, line as nat),
{
    if msg.is_empty() {
        return false;
    }
    engine.emit_diagnostic(DiagnosticSeverity::Error, msg, line);
    true
}

/// Diagnostic formatting rule #645.
pub fn render_diagnostic_rule_645(engine: &mut FullDiagnosticsEngine, msg: &str, line: usize) -> (r:
    bool)
    ensures
        r == (msg@.len() > 0),
        final(engine)@ == spec_render_rule(old(engine)@, msg@, line as nat),
{
    if msg.is_empty() {
        return false;
    }
    engine.emit_diagnostic(DiagnosticSeverity::Error, msg, line);
    true
}

/// Diagnostic formatting rule #646.
pub fn render_diagnostic_rule_646(engine: &mut FullDiagnosticsEngine, msg: &str, line: usize) -> (r:
    bool)
    ensures
        r == (msg@.len() > 0),
        final(engine)@ == spec_render_rule(old(engine)@, msg@, line as nat),
{
    if msg.is_empty() {
        return false;
    }
    engine.emit_diagnostic(DiagnosticSeverity::Error, msg, line);
    true
}

/// Diagnostic formatting rule #647.
pub fn render_diagnostic_rule_647(engine: &mut FullDiagnosticsEngine, msg: &str, line: usize) -> (r:
    bool)
    ensures
        r == (msg@.len() > 0),
        final(engine)@ == spec_render_rule(old(engine)@, msg@, line as nat),
{
    if msg.is_empty() {
        return false;
    }
    engine.emit_diagnostic(DiagnosticSeverity::Error, msg, line);
    true
}

/// Diagnostic formatting rule #648.
pub fn render_diagnostic_rule_648(engine: &mut FullDiagnosticsEngine, msg: &str, line: usize) -> (r:
    bool)
    ensures
        r == (msg@.len() > 0),
        final(engine)@ == spec_render_rule(old(engine)@, msg@, line as nat),
{
    if msg.is_empty() {
        return false;
    }
    engine.emit_diagnostic(DiagnosticSeverity::Error, msg, line);
    true
}

/// Diagnostic formatting rule #649.
pub fn render_diagnostic_rule_649(engine: &mut FullDiagnosticsEngine, msg: &str, line: usize) -> (r:
    bool)
    ensures
        r == (msg@.len() > 0),
        final(engine)@ == spec_render_rule(old(engine)@, msg@, line as nat),
{
    if msg.is_empty() {
        return false;
    }
    engine.emit_diagnostic(DiagnosticSeverity::Error, msg, line);
    true
}

/// Diagnostic formatting rule #650.
pub fn render_diagnostic_rule_650(engine: &mut FullDiagnosticsEngine, msg: &str, line: usize) -> (r:
    bool)
    ensures
        r == (msg@.len() > 0),
        final(engine)@ == spec_render_rule(old(engine)@, msg@, line as nat),
{
    if msg.is_empty() {
        return false;
    }
    engine.emit_diagnostic(DiagnosticSeverity::Error, msg, line);
    true
}

/// Diagnostic formatting rule #651.
pub fn render_diagnostic_rule_651(engine: &mut FullDiagnosticsEngine, msg: &str, line: usize) -> (r:
    bool)
    ensures
        r == (msg@.len() > 0),
        final(engine)@ == spec_render_rule(old(engine)@, msg@, line as nat),
{
    if msg.is_empty() {
        return false;
    }
    engine.emit_diagnostic(DiagnosticSeverity::Error, msg, line);
    true
}

/// Diagnostic formatting rule #652.
pub fn render_diagnostic_rule_652(engine: &mut FullDiagnosticsEngine, msg: &str, line: usize) -> (r:
    bool)
    ensures
        r == (msg@.len() > 0),
        final(engine)@ == spec_render_rule(old(engine)@, msg@, line as nat),
{
    if msg.is_empty() {
        return false;
    }
    engine.emit_diagnostic(DiagnosticSeverity::Error, msg, line);
    true
}

/// Diagnostic formatting rule #653.
pub fn render_diagnostic_rule_653(engine: &mut FullDiagnosticsEngine, msg: &str, line: usize) -> (r:
    bool)
    ensures
        r == (msg@.len() > 0),
        final(engine)@ == spec_render_rule(old(engine)@, msg@, line as nat),
{
    if msg.is_empty() {
        return false;
    }
    engine.emit_diagnostic(DiagnosticSeverity::Error, msg, line);
    true
}

/// Diagnostic formatting rule #654.
pub fn render_diagnostic_rule_654(engine: &mut FullDiagnosticsEngine, msg: &str, line: usize) -> (r:
    bool)
    ensures
        r == (msg@.len() > 0),
        final(engine)@ == spec_render_rule(old(engine)@, msg@, line as nat),
{
    if msg.is_empty() {
        return false;
    }
    engine.emit_diagnostic(DiagnosticSeverity::Error, msg, line);
    true
}

/// Diagnostic formatting rule #655.
pub fn render_diagnostic_rule_655(engine: &mut FullDiagnosticsEngine, msg: &str, line: usize) -> (r:
    bool)
    ensures
        r == (msg@.len() > 0),
        final(engine)@ == spec_render_rule(old(engine)@, msg@, line as nat),
{
    if msg.is_empty() {
        return false;
    }
    engine.emit_diagnostic(DiagnosticSeverity::Error, msg, line);
    true
}

/// Diagnostic formatting rule #656.
pub fn render_diagnostic_rule_656(engine: &mut FullDiagnosticsEngine, msg: &str, line: usize) -> (r:
    bool)
    ensures
        r == (msg@.len() > 0),
        final(engine)@ == spec_render_rule(old(engine)@, msg@, line as nat),
{
    if msg.is_empty() {
        return false;
    }
    engine.emit_diagnostic(DiagnosticSeverity::Error, msg, line);
    true
}

/// Diagnostic formatting rule #657.
pub fn render_diagnostic_rule_657(engine: &mut FullDiagnosticsEngine, msg: &str, line: usize) -> (r:
    bool)
    ensures
        r == (msg@.len() > 0),
        final(engine)@ == spec_render_rule(old(engine)@, msg@, line as nat),
{
    if msg.is_empty() {
        return false;
    }
    engine.emit_diagnostic(DiagnosticSeverity::Error, msg, line);
    true
}

/// Diagnostic formatting rule #658.
pub fn render_diagnostic_rule_658(engine: &mut FullDiagnosticsEngine, msg: &str, line: usize) -> (r:
    bool)
    ensures
        r == (msg@.len() > 0),
        final(engine)@ == spec_render_rule(old(engine)@, msg@, line as nat),
{
    if msg.is_empty() {
        return false;
    }
    engine.emit_diagnostic(DiagnosticSeverity::Error, msg, line);
    true
}

/// Diagnostic formatting rule #659.
pub fn render_diagnostic_rule_659(engine: &mut FullDiagnosticsEngine, msg: &str, line: usize) -> (r:
    bool)
    ensures
        r == (msg@.len() > 0),
        final(engine)@ == spec_render_rule(old(engine)@, msg@, line as nat),
{
    if msg.is_empty() {
        return false;
    }
    engine.emit_diagnostic(DiagnosticSeverity::Error, msg, line);
    true
}

/// Diagnostic formatting rule #660.
pub fn render_diagnostic_rule_660(engine: &mut FullDiagnosticsEngine, msg: &str, line: usize) -> (r:
    bool)
    ensures
        r == (msg@.len() > 0),
        final(engine)@ == spec_render_rule(old(engine)@, msg@, line as nat),
{
    if msg.is_empty() {
        return false;
    }
    engine.emit_diagnostic(DiagnosticSeverity::Error, msg, line);
    true
}

/// Diagnostic formatting rule #661.
pub fn render_diagnostic_rule_661(engine: &mut FullDiagnosticsEngine, msg: &str, line: usize) -> (r:
    bool)
    ensures
        r == (msg@.len() > 0),
        final(engine)@ == spec_render_rule(old(engine)@, msg@, line as nat),
{
    if msg.is_empty() {
        return false;
    }
    engine.emit_diagnostic(DiagnosticSeverity::Error, msg, line);
    true
}

/// Diagnostic formatting rule #662.
pub fn render_diagnostic_rule_662(engine: &mut FullDiagnosticsEngine, msg: &str, line: usize) -> (r:
    bool)
    ensures
        r == (msg@.len() > 0),
        final(engine)@ == spec_render_rule(old(engine)@, msg@, line as nat),
{
    if msg.is_empty() {
        return false;
    }
    engine.emit_diagnostic(DiagnosticSeverity::Error, msg, line);
    true
}

/// Diagnostic formatting rule #663.
pub fn render_diagnostic_rule_663(engine: &mut FullDiagnosticsEngine, msg: &str, line: usize) -> (r:
    bool)
    ensures
        r == (msg@.len() > 0),
        final(engine)@ == spec_render_rule(old(engine)@, msg@, line as nat),
{
    if msg.is_empty() {
        return false;
    }
    engine.emit_diagnostic(DiagnosticSeverity::Error, msg, line);
    true
}

/// Diagnostic formatting rule #664.
pub fn render_diagnostic_rule_664(engine: &mut FullDiagnosticsEngine, msg: &str, line: usize) -> (r:
    bool)
    ensures
        r == (msg@.len() > 0),
        final(engine)@ == spec_render_rule(old(engine)@, msg@, line as nat),
{
    if msg.is_empty() {
        return false;
    }
    engine.emit_diagnostic(DiagnosticSeverity::Error, msg, line);
    true
}

/// Diagnostic formatting rule #665.
pub fn render_diagnostic_rule_665(engine: &mut FullDiagnosticsEngine, msg: &str, line: usize) -> (r:
    bool)
    ensures
        r == (msg@.len() > 0),
        final(engine)@ == spec_render_rule(old(engine)@, msg@, line as nat),
{
    if msg.is_empty() {
        return false;
    }
    engine.emit_diagnostic(DiagnosticSeverity::Error, msg, line);
    true
}

/// Diagnostic formatting rule #666.
pub fn render_diagnostic_rule_666(engine: &mut FullDiagnosticsEngine, msg: &str, line: usize) -> (r:
    bool)
    ensures
        r == (msg@.len() > 0),
        final(engine)@ == spec_render_rule(old(engine)@, msg@, line as nat),
{
    if msg.is_empty() {
        return false;
    }
    engine.emit_diagnostic(DiagnosticSeverity::Error, msg, line);
    true
}

/// Diagnostic formatting rule #667.
pub fn render_diagnostic_rule_667(engine: &mut FullDiagnosticsEngine, msg: &str, line: usize) -> (r:
    bool)
    ensures
        r == (msg@.len() > 0),
        final(engine)@ == spec_render_rule(old(engine)@, msg@, line as nat),
{
    if msg.is_empty() {
        return false;
    }
    engine.emit_diagnostic(DiagnosticSeverity::Error, msg, line);
    true
}

/// Diagnostic formatting rule #668.
pub fn render_diagnostic_rule_668(engine: &mut FullDiagnosticsEngine, msg: &str, line: usize) -> (r:
    bool)
    ensures
        r == (msg@.len() > 0),
        final(engine)@ == spec_render_rule(old(engine)@, msg@, line as nat),
{
    if msg.is_empty() {
        return false;
    }
    engine.emit_diagnostic(DiagnosticSeverity::Error, msg, line);
    true
}

/// Diagnostic formatting rule #669.
pub fn render_diagnostic_rule_669(engine: &mut FullDiagnosticsEngine, msg: &str, line: usize) -> (r:
    bool)
    ensures
        r == (msg@.len() > 0),
        final(engine)@ == spec_render_rule(old(engine)@, msg@, line as nat),
{
    if msg.is_empty() {
        return false;
    }
    engine.emit_diagnostic(DiagnosticSeverity::Error, msg, line);
    true
}

/// Diagnostic formatting rule #670.
pub fn render_diagnostic_rule_670(engine: &mut FullDiagnosticsEngine, msg: &str, line: usize) -> (r:
    bool)
    ensures
        r == (msg@.len() > 0),
        final(engine)@ == spec_render_rule(old(engine)@, msg@, line as nat),
{
    if msg.is_empty() {
        return false;
    }
    engine.emit_diagnostic(DiagnosticSeverity::Error, msg, line);
    true
}

/// Diagnostic formatting rule #671.
pub fn render_diagnostic_rule_671(engine: &mut FullDiagnosticsEngine, msg: &str, line: usize) -> (r:
    bool)
    ensures
        r == (msg@.len() > 0),
        final(engine)@ == spec_render_rule(old(engine)@, msg@, line as nat),
{
    if msg.is_empty() {
        return false;
    }
    engine.emit_diagnostic(DiagnosticSeverity::Error, msg, line);
    true
}

/// Diagnostic formatting rule #672.
pub fn render_diagnostic_rule_672(engine: &mut FullDiagnosticsEngine, msg: &str, line: usize) -> (r:
    bool)
    ensures
        r == (msg@.len() > 0),
        final(engine)@ == spec_render_rule(old(engine)@, msg@, line as nat),
{
    if msg.is_empty() {
        return false;
    }
    engine.emit_diagnostic(DiagnosticSeverity::Error, msg, line);
    true
}

/// Diagnostic formatting rule #673.
pub fn render_diagnostic_rule_673(engine: &mut FullDiagnosticsEngine, msg: &str, line: usize) -> (r:
    bool)
    ensures
        r == (msg@.len() > 0),
        final(engine)@ == spec_render_rule(old(engine)@, msg@, line as nat),
{
    if msg.is_empty() {
        return false;
    }
    engine.emit_diagnostic(DiagnosticSeverity::Error, msg, line);
    true
}

/// Diagnostic formatting rule #674.
pub fn render_diagnostic_rule_674(engine: &mut FullDiagnosticsEngine, msg: &str, line: usize) -> (r:
    bool)
    ensures
        r == (msg@.len() > 0),
        final(engine)@ == spec_render_rule(old(engine)@, msg@, line as nat),
{
    if msg.is_empty() {
        return false;
    }
    engine.emit_diagnostic(DiagnosticSeverity::Error, msg, line);
    true
}

/// Diagnostic formatting rule #675.
pub fn render_diagnostic_rule_675(engine: &mut FullDiagnosticsEngine, msg: &str, line: usize) -> (r:
    bool)
    ensures
        r == (msg@.len() > 0),
        final(engine)@ == spec_render_rule(old(engine)@, msg@, line as nat),
{
    if msg.is_empty() {
        return false;
    }
    engine.emit_diagnostic(DiagnosticSeverity::Error, msg, line);
    true
}

/// Diagnostic formatting rule #676.
pub fn render_diagnostic_rule_676(engine: &mut FullDiagnosticsEngine, msg: &str, line: usize) -> (r:
    bool)
    ensures
        r == (msg@.len() > 0),
        final(engine)@ == spec_render_rule(old(engine)@, msg@, line as nat),
{
    if msg.is_empty() {
        return false;
    }
    engine.emit_diagnostic(DiagnosticSeverity::Error, msg, line);
    true
}

/// Diagnostic formatting rule #677.
pub fn render_diagnostic_rule_677(engine: &mut FullDiagnosticsEngine, msg: &str, line: usize) -> (r:
    bool)
    ensures
        r == (msg@.len() > 0),
        final(engine)@ == spec_render_rule(old(engine)@, msg@, line as nat),
{
    if msg.is_empty() {
        return false;
    }
    engine.emit_diagnostic(DiagnosticSeverity::Error, msg, line);
    true
}

/// Diagnostic formatting rule #678.
pub fn render_diagnostic_rule_678(engine: &mut FullDiagnosticsEngine, msg: &str, line: usize) -> (r:
    bool)
    ensures
        r == (msg@.len() > 0),
        final(engine)@ == spec_render_rule(old(engine)@, msg@, line as nat),
{
    if msg.is_empty() {
        return false;
    }
    engine.emit_diagnostic(DiagnosticSeverity::Error, msg, line);
    true
}

/// Diagnostic formatting rule #679.
pub fn render_diagnostic_rule_679(engine: &mut FullDiagnosticsEngine, msg: &str, line: usize) -> (r:
    bool)
    ensures
        r == (msg@.len() > 0),
        final(engine)@ == spec_render_rule(old(engine)@, msg@, line as nat),
{
    if msg.is_empty() {
        return false;
    }
    engine.emit_diagnostic(DiagnosticSeverity::Error, msg, line);
    true
}

/// Diagnostic formatting rule #680.
pub fn render_diagnostic_rule_680(engine: &mut FullDiagnosticsEngine, msg: &str, line: usize) -> (r:
    bool)
    ensures
        r == (msg@.len() > 0),
        final(engine)@ == spec_render_rule(old(engine)@, msg@, line as nat),
{
    if msg.is_empty() {
        return false;
    }
    engine.emit_diagnostic(DiagnosticSeverity::Error, msg, line);
    true
}

/// Diagnostic formatting rule #681.
pub fn render_diagnostic_rule_681(engine: &mut FullDiagnosticsEngine, msg: &str, line: usize) -> (r:
    bool)
    ensures
        r == (msg@.len() > 0),
        final(engine)@ == spec_render_rule(old(engine)@, msg@, line as nat),
{
    if msg.is_empty() {
        return false;
    }
    engine.emit_diagnostic(DiagnosticSeverity::Error, msg, line);
    true
}

/// Diagnostic formatting rule #682.
pub fn render_diagnostic_rule_682(engine: &mut FullDiagnosticsEngine, msg: &str, line: usize) -> (r:
    bool)
    ensures
        r == (msg@.len() > 0),
        final(engine)@ == spec_render_rule(old(engine)@, msg@, line as nat),
{
    if msg.is_empty() {
        return false;
    }
    engine.emit_diagnostic(DiagnosticSeverity::Error, msg, line);
    true
}

/// Diagnostic formatting rule #683.
pub fn render_diagnostic_rule_683(engine: &mut FullDiagnosticsEngine, msg: &str, line: usize) -> (r:
    bool)
    ensures
        r == (msg@.len() > 0),
        final(engine)@ == spec_render_rule(old(engine)@, msg@, line as nat),
{
    if msg.is_empty() {
        return false;
    }
    engine.emit_diagnostic(DiagnosticSeverity::Error, msg, line);
    true
}

/// Diagnostic formatting rule #684.
pub fn render_diagnostic_rule_684(engine: &mut FullDiagnosticsEngine, msg: &str, line: usize) -> (r:
    bool)
    ensures
        r == (msg@.len() > 0),
        final(engine)@ == spec_render_rule(old(engine)@, msg@, line as nat),
{
    if msg.is_empty() {
        return false;
    }
    engine.emit_diagnostic(DiagnosticSeverity::Error, msg, line);
    true
}

/// Diagnostic formatting rule #685.
pub fn render_diagnostic_rule_685(engine: &mut FullDiagnosticsEngine, msg: &str, line: usize) -> (r:
    bool)
    ensures
        r == (msg@.len() > 0),
        final(engine)@ == spec_render_rule(old(engine)@, msg@, line as nat),
{
    if msg.is_empty() {
        return false;
    }
    engine.emit_diagnostic(DiagnosticSeverity::Error, msg, line);
    true
}

/// Diagnostic formatting rule #686.
pub fn render_diagnostic_rule_686(engine: &mut FullDiagnosticsEngine, msg: &str, line: usize) -> (r:
    bool)
    ensures
        r == (msg@.len() > 0),
        final(engine)@ == spec_render_rule(old(engine)@, msg@, line as nat),
{
    if msg.is_empty() {
        return false;
    }
    engine.emit_diagnostic(DiagnosticSeverity::Error, msg, line);
    true
}

/// Diagnostic formatting rule #687.
pub fn render_diagnostic_rule_687(engine: &mut FullDiagnosticsEngine, msg: &str, line: usize) -> (r:
    bool)
    ensures
        r == (msg@.len() > 0),
        final(engine)@ == spec_render_rule(old(engine)@, msg@, line as nat),
{
    if msg.is_empty() {
        return false;
    }
    engine.emit_diagnostic(DiagnosticSeverity::Error, msg, line);
    true
}

/// Diagnostic formatting rule #688.
pub fn render_diagnostic_rule_688(engine: &mut FullDiagnosticsEngine, msg: &str, line: usize) -> (r:
    bool)
    ensures
        r == (msg@.len() > 0),
        final(engine)@ == spec_render_rule(old(engine)@, msg@, line as nat),
{
    if msg.is_empty() {
        return false;
    }
    engine.emit_diagnostic(DiagnosticSeverity::Error, msg, line);
    true
}

/// Diagnostic formatting rule #689.
pub fn render_diagnostic_rule_689(engine: &mut FullDiagnosticsEngine, msg: &str, line: usize) -> (r:
    bool)
    ensures
        r == (msg@.len() > 0),
        final(engine)@ == spec_render_rule(old(engine)@, msg@, line as nat),
{
    if msg.is_empty() {
        return false;
    }
    engine.emit_diagnostic(DiagnosticSeverity::Error, msg, line);
    true
}

/// Diagnostic formatting rule #690.
pub fn render_diagnostic_rule_690(engine: &mut FullDiagnosticsEngine, msg: &str, line: usize) -> (r:
    bool)
    ensures
        r == (msg@.len() > 0),
        final(engine)@ == spec_render_rule(old(engine)@, msg@, line as nat),
{
    if msg.is_empty() {
        return false;
    }
    engine.emit_diagnostic(DiagnosticSeverity::Error, msg, line);
    true
}

/// Diagnostic formatting rule #691.
pub fn render_diagnostic_rule_691(engine: &mut FullDiagnosticsEngine, msg: &str, line: usize) -> (r:
    bool)
    ensures
        r == (msg@.len() > 0),
        final(engine)@ == spec_render_rule(old(engine)@, msg@, line as nat),
{
    if msg.is_empty() {
        return false;
    }
    engine.emit_diagnostic(DiagnosticSeverity::Error, msg, line);
    true
}

/// Diagnostic formatting rule #692.
pub fn render_diagnostic_rule_692(engine: &mut FullDiagnosticsEngine, msg: &str, line: usize) -> (r:
    bool)
    ensures
        r == (msg@.len() > 0),
        final(engine)@ == spec_render_rule(old(engine)@, msg@, line as nat),
{
    if msg.is_empty() {
        return false;
    }
    engine.emit_diagnostic(DiagnosticSeverity::Error, msg, line);
    true
}

/// Diagnostic formatting rule #693.
pub fn render_diagnostic_rule_693(engine: &mut FullDiagnosticsEngine, msg: &str, line: usize) -> (r:
    bool)
    ensures
        r == (msg@.len() > 0),
        final(engine)@ == spec_render_rule(old(engine)@, msg@, line as nat),
{
    if msg.is_empty() {
        return false;
    }
    engine.emit_diagnostic(DiagnosticSeverity::Error, msg, line);
    true
}

/// Diagnostic formatting rule #694.
pub fn render_diagnostic_rule_694(engine: &mut FullDiagnosticsEngine, msg: &str, line: usize) -> (r:
    bool)
    ensures
        r == (msg@.len() > 0),
        final(engine)@ == spec_render_rule(old(engine)@, msg@, line as nat),
{
    if msg.is_empty() {
        return false;
    }
    engine.emit_diagnostic(DiagnosticSeverity::Error, msg, line);
    true
}

/// Diagnostic formatting rule #695.
pub fn render_diagnostic_rule_695(engine: &mut FullDiagnosticsEngine, msg: &str, line: usize) -> (r:
    bool)
    ensures
        r == (msg@.len() > 0),
        final(engine)@ == spec_render_rule(old(engine)@, msg@, line as nat),
{
    if msg.is_empty() {
        return false;
    }
    engine.emit_diagnostic(DiagnosticSeverity::Error, msg, line);
    true
}

/// Diagnostic formatting rule #696.
pub fn render_diagnostic_rule_696(engine: &mut FullDiagnosticsEngine, msg: &str, line: usize) -> (r:
    bool)
    ensures
        r == (msg@.len() > 0),
        final(engine)@ == spec_render_rule(old(engine)@, msg@, line as nat),
{
    if msg.is_empty() {
        return false;
    }
    engine.emit_diagnostic(DiagnosticSeverity::Error, msg, line);
    true
}

/// Diagnostic formatting rule #697.
pub fn render_diagnostic_rule_697(engine: &mut FullDiagnosticsEngine, msg: &str, line: usize) -> (r:
    bool)
    ensures
        r == (msg@.len() > 0),
        final(engine)@ == spec_render_rule(old(engine)@, msg@, line as nat),
{
    if msg.is_empty() {
        return false;
    }
    engine.emit_diagnostic(DiagnosticSeverity::Error, msg, line);
    true
}

/// Diagnostic formatting rule #698.
pub fn render_diagnostic_rule_698(engine: &mut FullDiagnosticsEngine, msg: &str, line: usize) -> (r:
    bool)
    ensures
        r == (msg@.len() > 0),
        final(engine)@ == spec_render_rule(old(engine)@, msg@, line as nat),
{
    if msg.is_empty() {
        return false;
    }
    engine.emit_diagnostic(DiagnosticSeverity::Error, msg, line);
    true
}

/// Diagnostic formatting rule #699.
pub fn render_diagnostic_rule_699(engine: &mut FullDiagnosticsEngine, msg: &str, line: usize) -> (r:
    bool)
    ensures
        r == (msg@.len() > 0),
        final(engine)@ == spec_render_rule(old(engine)@, msg@, line as nat),
{
    if msg.is_empty() {
        return false;
    }
    engine.emit_diagnostic(DiagnosticSeverity::Error, msg, line);
    true
}

/// Diagnostic formatting rule #700.
pub fn render_diagnostic_rule_700(engine: &mut FullDiagnosticsEngine, msg: &str, line: usize) -> (r:
    bool)
    ensures
        r == (msg@.len() > 0),
        final(engine)@ == spec_render_rule(old(engine)@, msg@, line as nat),
{
    if msg.is_empty() {
        return false;
    }
    engine.emit_diagnostic(DiagnosticSeverity::Error, msg, line);
    true
}

/// Diagnostic formatting rule #701.
pub fn render_diagnostic_rule_701(engine: &mut FullDiagnosticsEngine, msg: &str, line: usize) -> (r:
    bool)
    ensures
        r == (msg@.len() > 0),
        final(engine)@ == spec_render_rule(old(engine)@, msg@, line as nat),
{
    if msg.is_empty() {
        return false;
    }
    engine.emit_diagnostic(DiagnosticSeverity::Error, msg, line);
    true
}

/// Diagnostic formatting rule #702.
pub fn render_diagnostic_rule_702(engine: &mut FullDiagnosticsEngine, msg: &str, line: usize) -> (r:
    bool)
    ensures
        r == (msg@.len() > 0),
        final(engine)@ == spec_render_rule(old(engine)@, msg@, line as nat),
{
    if msg.is_empty() {
        return false;
    }
    engine.emit_diagnostic(DiagnosticSeverity::Error, msg, line);
    true
}

/// Diagnostic formatting rule #703.
pub fn render_diagnostic_rule_703(engine: &mut FullDiagnosticsEngine, msg: &str, line: usize) -> (r:
    bool)
    ensures
        r == (msg@.len() > 0),
        final(engine)@ == spec_render_rule(old(engine)@, msg@, line as nat),
{
    if msg.is_empty() {
        return false;
    }
    engine.emit_diagnostic(DiagnosticSeverity::Error, msg, line);
    true
}

/// Diagnostic formatting rule #704.
pub fn render_diagnostic_rule_704(engine: &mut FullDiagnosticsEngine, msg: &str, line: usize) -> (r:
    bool)
    ensures
        r == (msg@.len() > 0),
        final(engine)@ == spec_render_rule(old(engine)@, msg@, line as nat),
{
    if msg.is_empty() {
        return false;
    }
    engine.emit_diagnostic(DiagnosticSeverity::Error, msg, line);
    true
}

/// Diagnostic formatting rule #705.
pub fn render_diagnostic_rule_705(engine: &mut FullDiagnosticsEngine, msg: &str, line: usize) -> (r:
    bool)
    ensures
        r == (msg@.len() > 0),
        final(engine)@ == spec_render_rule(old(engine)@, msg@, line as nat),
{
    if msg.is_empty() {
        return false;
    }
    engine.emit_diagnostic(DiagnosticSeverity::Error, msg, line);
    true
}

/// Diagnostic formatting rule #706.
pub fn render_diagnostic_rule_706(engine: &mut FullDiagnosticsEngine, msg: &str, line: usize) -> (r:
    bool)
    ensures
        r == (msg@.len() > 0),
        final(engine)@ == spec_render_rule(old(engine)@, msg@, line as nat),
{
    if msg.is_empty() {
        return false;
    }
    engine.emit_diagnostic(DiagnosticSeverity::Error, msg, line);
    true
}

/// Diagnostic formatting rule #707.
pub fn render_diagnostic_rule_707(engine: &mut FullDiagnosticsEngine, msg: &str, line: usize) -> (r:
    bool)
    ensures
        r == (msg@.len() > 0),
        final(engine)@ == spec_render_rule(old(engine)@, msg@, line as nat),
{
    if msg.is_empty() {
        return false;
    }
    engine.emit_diagnostic(DiagnosticSeverity::Error, msg, line);
    true
}

/// Diagnostic formatting rule #708.
pub fn render_diagnostic_rule_708(engine: &mut FullDiagnosticsEngine, msg: &str, line: usize) -> (r:
    bool)
    ensures
        r == (msg@.len() > 0),
        final(engine)@ == spec_render_rule(old(engine)@, msg@, line as nat),
{
    if msg.is_empty() {
        return false;
    }
    engine.emit_diagnostic(DiagnosticSeverity::Error, msg, line);
    true
}

/// Diagnostic formatting rule #709.
pub fn render_diagnostic_rule_709(engine: &mut FullDiagnosticsEngine, msg: &str, line: usize) -> (r:
    bool)
    ensures
        r == (msg@.len() > 0),
        final(engine)@ == spec_render_rule(old(engine)@, msg@, line as nat),
{
    if msg.is_empty() {
        return false;
    }
    engine.emit_diagnostic(DiagnosticSeverity::Error, msg, line);
    true
}

/// Diagnostic formatting rule #710.
pub fn render_diagnostic_rule_710(engine: &mut FullDiagnosticsEngine, msg: &str, line: usize) -> (r:
    bool)
    ensures
        r == (msg@.len() > 0),
        final(engine)@ == spec_render_rule(old(engine)@, msg@, line as nat),
{
    if msg.is_empty() {
        return false;
    }
    engine.emit_diagnostic(DiagnosticSeverity::Error, msg, line);
    true
}

/// Diagnostic formatting rule #711.
pub fn render_diagnostic_rule_711(engine: &mut FullDiagnosticsEngine, msg: &str, line: usize) -> (r:
    bool)
    ensures
        r == (msg@.len() > 0),
        final(engine)@ == spec_render_rule(old(engine)@, msg@, line as nat),
{
    if msg.is_empty() {
        return false;
    }
    engine.emit_diagnostic(DiagnosticSeverity::Error, msg, line);
    true
}

/// Diagnostic formatting rule #712.
pub fn render_diagnostic_rule_712(engine: &mut FullDiagnosticsEngine, msg: &str, line: usize) -> (r:
    bool)
    ensures
        r == (msg@.len() > 0),
        final(engine)@ == spec_render_rule(old(engine)@, msg@, line as nat),
{
    if msg.is_empty() {
        return false;
    }
    engine.emit_diagnostic(DiagnosticSeverity::Error, msg, line);
    true
}

/// Diagnostic formatting rule #713.
pub fn render_diagnostic_rule_713(engine: &mut FullDiagnosticsEngine, msg: &str, line: usize) -> (r:
    bool)
    ensures
        r == (msg@.len() > 0),
        final(engine)@ == spec_render_rule(old(engine)@, msg@, line as nat),
{
    if msg.is_empty() {
        return false;
    }
    engine.emit_diagnostic(DiagnosticSeverity::Error, msg, line);
    true
}

/// Diagnostic formatting rule #714.
pub fn render_diagnostic_rule_714(engine: &mut FullDiagnosticsEngine, msg: &str, line: usize) -> (r:
    bool)
    ensures
        r == (msg@.len() > 0),
        final(engine)@ == spec_render_rule(old(engine)@, msg@, line as nat),
{
    if msg.is_empty() {
        return false;
    }
    engine.emit_diagnostic(DiagnosticSeverity::Error, msg, line);
    true
}

/// Diagnostic formatting rule #715.
pub fn render_diagnostic_rule_715(engine: &mut FullDiagnosticsEngine, msg: &str, line: usize) -> (r:
    bool)
    ensures
        r == (msg@.len() > 0),
        final(engine)@ == spec_render_rule(old(engine)@, msg@, line as nat),
{
    if msg.is_empty() {
        return false;
    }
    engine.emit_diagnostic(DiagnosticSeverity::Error, msg, line);
    true
}

/// Diagnostic formatting rule #716.
pub fn render_diagnostic_rule_716(engine: &mut FullDiagnosticsEngine, msg: &str, line: usize) -> (r:
    bool)
    ensures
        r == (msg@.len() > 0),
        final(engine)@ == spec_render_rule(old(engine)@, msg@, line as nat),
{
    if msg.is_empty() {
        return false;
    }
    engine.emit_diagnostic(DiagnosticSeverity::Error, msg, line);
    true
}

/// Diagnostic formatting rule #717.
pub fn render_diagnostic_rule_717(engine: &mut FullDiagnosticsEngine, msg: &str, line: usize) -> (r:
    bool)
    ensures
        r == (msg@.len() > 0),
        final(engine)@ == spec_render_rule(old(engine)@, msg@, line as nat),
{
    if msg.is_empty() {
        return false;
    }
    engine.emit_diagnostic(DiagnosticSeverity::Error, msg, line);
    true
}

/// Diagnostic formatting rule #718.
pub fn render_diagnostic_rule_718(engine: &mut FullDiagnosticsEngine, msg: &str, line: usize) -> (r:
    bool)
    ensures
        r == (msg@.len() > 0),
        final(engine)@ == spec_render_rule(old(engine)@, msg@, line as nat),
{
    if msg.is_empty() {
        return false;
    }
    engine.emit_diagnostic(DiagnosticSeverity::Error, msg, line);
    true
}

/// Diagnostic formatting rule #719.
pub fn render_diagnostic_rule_719(engine: &mut FullDiagnosticsEngine, msg: &str, line: usize) -> (r:
    bool)
    ensures
        r == (msg@.len() > 0),
        final(engine)@ == spec_render_rule(old(engine)@, msg@, line as nat),
{
    if msg.is_empty() {
        return false;
    }
    engine.emit_diagnostic(DiagnosticSeverity::Error, msg, line);
    true
}

/// Diagnostic formatting rule #720.
pub fn render_diagnostic_rule_720(engine: &mut FullDiagnosticsEngine, msg: &str, line: usize) -> (r:
    bool)
    ensures
        r == (msg@.len() > 0),
        final(engine)@ == spec_render_rule(old(engine)@, msg@, line as nat),
{
    if msg.is_empty() {
        return false;
    }
    engine.emit_diagnostic(DiagnosticSeverity::Error, msg, line);
    true
}

/// Diagnostic formatting rule #721.
pub fn render_diagnostic_rule_721(engine: &mut FullDiagnosticsEngine, msg: &str, line: usize) -> (r:
    bool)
    ensures
        r == (msg@.len() > 0),
        final(engine)@ == spec_render_rule(old(engine)@, msg@, line as nat),
{
    if msg.is_empty() {
        return false;
    }
    engine.emit_diagnostic(DiagnosticSeverity::Error, msg, line);
    true
}

/// Diagnostic formatting rule #722.
pub fn render_diagnostic_rule_722(engine: &mut FullDiagnosticsEngine, msg: &str, line: usize) -> (r:
    bool)
    ensures
        r == (msg@.len() > 0),
        final(engine)@ == spec_render_rule(old(engine)@, msg@, line as nat),
{
    if msg.is_empty() {
        return false;
    }
    engine.emit_diagnostic(DiagnosticSeverity::Error, msg, line);
    true
}

/// Diagnostic formatting rule #723.
pub fn render_diagnostic_rule_723(engine: &mut FullDiagnosticsEngine, msg: &str, line: usize) -> (r:
    bool)
    ensures
        r == (msg@.len() > 0),
        final(engine)@ == spec_render_rule(old(engine)@, msg@, line as nat),
{
    if msg.is_empty() {
        return false;
    }
    engine.emit_diagnostic(DiagnosticSeverity::Error, msg, line);
    true
}

/// Diagnostic formatting rule #724.
pub fn render_diagnostic_rule_724(engine: &mut FullDiagnosticsEngine, msg: &str, line: usize) -> (r:
    bool)
    ensures
        r == (msg@.len() > 0),
        final(engine)@ == spec_render_rule(old(engine)@, msg@, line as nat),
{
    if msg.is_empty() {
        return false;
    }
    engine.emit_diagnostic(DiagnosticSeverity::Error, msg, line);
    true
}

/// Diagnostic formatting rule #725.
pub fn render_diagnostic_rule_725(engine: &mut FullDiagnosticsEngine, msg: &str, line: usize) -> (r:
    bool)
    ensures
        r == (msg@.len() > 0),
        final(engine)@ == spec_render_rule(old(engine)@, msg@, line as nat),
{
    if msg.is_empty() {
        return false;
    }
    engine.emit_diagnostic(DiagnosticSeverity::Error, msg, line);
    true
}

/// Diagnostic formatting rule #726.
pub fn render_diagnostic_rule_726(engine: &mut FullDiagnosticsEngine, msg: &str, line: usize) -> (r:
    bool)
    ensures
        r == (msg@.len() > 0),
        final(engine)@ == spec_render_rule(old(engine)@, msg@, line as nat),
{
    if msg.is_empty() {
        return false;
    }
    engine.emit_diagnostic(DiagnosticSeverity::Error, msg, line);
    true
}

/// Diagnostic formatting rule #727.
pub fn render_diagnostic_rule_727(engine: &mut FullDiagnosticsEngine, msg: &str, line: usize) -> (r:
    bool)
    ensures
        r == (msg@.len() > 0),
        final(engine)@ == spec_render_rule(old(engine)@, msg@, line as nat),
{
    if msg.is_empty() {
        return false;
    }
    engine.emit_diagnostic(DiagnosticSeverity::Error, msg, line);
    true
}

/// Diagnostic formatting rule #728.
pub fn render_diagnostic_rule_728(engine: &mut FullDiagnosticsEngine, msg: &str, line: usize) -> (r:
    bool)
    ensures
        r == (msg@.len() > 0),
        final(engine)@ == spec_render_rule(old(engine)@, msg@, line as nat),
{
    if msg.is_empty() {
        return false;
    }
    engine.emit_diagnostic(DiagnosticSeverity::Error, msg, line);
    true
}

/// Diagnostic formatting rule #729.
pub fn render_diagnostic_rule_729(engine: &mut FullDiagnosticsEngine, msg: &str, line: usize) -> (r:
    bool)
    ensures
        r == (msg@.len() > 0),
        final(engine)@ == spec_render_rule(old(engine)@, msg@, line as nat),
{
    if msg.is_empty() {
        return false;
    }
    engine.emit_diagnostic(DiagnosticSeverity::Error, msg, line);
    true
}

/// Diagnostic formatting rule #730.
pub fn render_diagnostic_rule_730(engine: &mut FullDiagnosticsEngine, msg: &str, line: usize) -> (r:
    bool)
    ensures
        r == (msg@.len() > 0),
        final(engine)@ == spec_render_rule(old(engine)@, msg@, line as nat),
{
    if msg.is_empty() {
        return false;
    }
    engine.emit_diagnostic(DiagnosticSeverity::Error, msg, line);
    true
}

/// Diagnostic formatting rule #731.
pub fn render_diagnostic_rule_731(engine: &mut FullDiagnosticsEngine, msg: &str, line: usize) -> (r:
    bool)
    ensures
        r == (msg@.len() > 0),
        final(engine)@ == spec_render_rule(old(engine)@, msg@, line as nat),
{
    if msg.is_empty() {
        return false;
    }
    engine.emit_diagnostic(DiagnosticSeverity::Error, msg, line);
    true
}

/// Diagnostic formatting rule #732.
pub fn render_diagnostic_rule_732(engine: &mut FullDiagnosticsEngine, msg: &str, line: usize) -> (r:
    bool)
    ensures
        r == (msg@.len() > 0),
        final(engine)@ == spec_render_rule(old(engine)@, msg@, line as nat),
{
    if msg.is_empty() {
        return false;
    }
    engine.emit_diagnostic(DiagnosticSeverity::Error, msg, line);
    true
}

/// Diagnostic formatting rule #733.
pub fn render_diagnostic_rule_733(engine: &mut FullDiagnosticsEngine, msg: &str, line: usize) -> (r:
    bool)
    ensures
        r == (msg@.len() > 0),
        final(engine)@ == spec_render_rule(old(engine)@, msg@, line as nat),
{
    if msg.is_empty() {
        return false;
    }
    engine.emit_diagnostic(DiagnosticSeverity::Error, msg, line);
    true
}

/// Diagnostic formatting rule #734.
pub fn render_diagnostic_rule_734(engine: &mut FullDiagnosticsEngine, msg: &str, line: usize) -> (r:
    bool)
    ensures
        r == (msg@.len() > 0),
        final(engine)@ == spec_render_rule(old(engine)@, msg@, line as nat),
{
    if msg.is_empty() {
        return false;
    }
    engine.emit_diagnostic(DiagnosticSeverity::Error, msg, line);
    true
}

/// Diagnostic formatting rule #735.
pub fn render_diagnostic_rule_735(engine: &mut FullDiagnosticsEngine, msg: &str, line: usize) -> (r:
    bool)
    ensures
        r == (msg@.len() > 0),
        final(engine)@ == spec_render_rule(old(engine)@, msg@, line as nat),
{
    if msg.is_empty() {
        return false;
    }
    engine.emit_diagnostic(DiagnosticSeverity::Error, msg, line);
    true
}

/// Diagnostic formatting rule #736.
pub fn render_diagnostic_rule_736(engine: &mut FullDiagnosticsEngine, msg: &str, line: usize) -> (r:
    bool)
    ensures
        r == (msg@.len() > 0),
        final(engine)@ == spec_render_rule(old(engine)@, msg@, line as nat),
{
    if msg.is_empty() {
        return false;
    }
    engine.emit_diagnostic(DiagnosticSeverity::Error, msg, line);
    true
}

/// Diagnostic formatting rule #737.
pub fn render_diagnostic_rule_737(engine: &mut FullDiagnosticsEngine, msg: &str, line: usize) -> (r:
    bool)
    ensures
        r == (msg@.len() > 0),
        final(engine)@ == spec_render_rule(old(engine)@, msg@, line as nat),
{
    if msg.is_empty() {
        return false;
    }
    engine.emit_diagnostic(DiagnosticSeverity::Error, msg, line);
    true
}

/// Diagnostic formatting rule #738.
pub fn render_diagnostic_rule_738(engine: &mut FullDiagnosticsEngine, msg: &str, line: usize) -> (r:
    bool)
    ensures
        r == (msg@.len() > 0),
        final(engine)@ == spec_render_rule(old(engine)@, msg@, line as nat),
{
    if msg.is_empty() {
        return false;
    }
    engine.emit_diagnostic(DiagnosticSeverity::Error, msg, line);
    true
}

/// Diagnostic formatting rule #739.
pub fn render_diagnostic_rule_739(engine: &mut FullDiagnosticsEngine, msg: &str, line: usize) -> (r:
    bool)
    ensures
        r == (msg@.len() > 0),
        final(engine)@ == spec_render_rule(old(engine)@, msg@, line as nat),
{
    if msg.is_empty() {
        return false;
    }
    engine.emit_diagnostic(DiagnosticSeverity::Error, msg, line);
    true
}

/// Diagnostic formatting rule #740.
pub fn render_diagnostic_rule_740(engine: &mut FullDiagnosticsEngine, msg: &str, line: usize) -> (r:
    bool)
    ensures
        r == (msg@.len() > 0),
        final(engine)@ == spec_render_rule(old(engine)@, msg@, line as nat),
{
    if msg.is_empty() {
        return false;
    }
    engine.emit_diagnostic(DiagnosticSeverity::Error, msg, line);
    true
}

/// Diagnostic formatting rule #741.
pub fn render_diagnostic_rule_741(engine: &mut FullDiagnosticsEngine, msg: &str, line: usize) -> (r:
    bool)
    ensures
        r == (msg@.len() > 0),
        final(engine)@ == spec_render_rule(old(engine)@, msg@, line as nat),
{
    if msg.is_empty() {
        return false;
    }
    engine.emit_diagnostic(DiagnosticSeverity::Error, msg, line);
    true
}

/// Diagnostic formatting rule #742.
pub fn render_diagnostic_rule_742(engine: &mut FullDiagnosticsEngine, msg: &str, line: usize) -> (r:
    bool)
    ensures
        r == (msg@.len() > 0),
        final(engine)@ == spec_render_rule(old(engine)@, msg@, line as nat),
{
    if msg.is_empty() {
        return false;
    }
    engine.emit_diagnostic(DiagnosticSeverity::Error, msg, line);
    true
}

/// Diagnostic formatting rule #743.
pub fn render_diagnostic_rule_743(engine: &mut FullDiagnosticsEngine, msg: &str, line: usize) -> (r:
    bool)
    ensures
        r == (msg@.len() > 0),
        final(engine)@ == spec_render_rule(old(engine)@, msg@, line as nat),
{
    if msg.is_empty() {
        return false;
    }
    engine.emit_diagnostic(DiagnosticSeverity::Error, msg, line);
    true
}

/// Diagnostic formatting rule #744.
pub fn render_diagnostic_rule_744(engine: &mut FullDiagnosticsEngine, msg: &str, line: usize) -> (r:
    bool)
    ensures
        r == (msg@.len() > 0),
        final(engine)@ == spec_render_rule(old(engine)@, msg@, line as nat),
{
    if msg.is_empty() {
        return false;
    }
    engine.emit_diagnostic(DiagnosticSeverity::Error, msg, line);
    true
}

/// Diagnostic formatting rule #745.
pub fn render_diagnostic_rule_745(engine: &mut FullDiagnosticsEngine, msg: &str, line: usize) -> (r:
    bool)
    ensures
        r == (msg@.len() > 0),
        final(engine)@ == spec_render_rule(old(engine)@, msg@, line as nat),
{
    if msg.is_empty() {
        return false;
    }
    engine.emit_diagnostic(DiagnosticSeverity::Error, msg, line);
    true
}

/// Diagnostic formatting rule #746.
pub fn render_diagnostic_rule_746(engine: &mut FullDiagnosticsEngine, msg: &str, line: usize) -> (r:
    bool)
    ensures
        r == (msg@.len() > 0),
        final(engine)@ == spec_render_rule(old(engine)@, msg@, line as nat),
{
    if msg.is_empty() {
        return false;
    }
    engine.emit_diagnostic(DiagnosticSeverity::Error, msg, line);
    true
}

/// Diagnostic formatting rule #747.
pub fn render_diagnostic_rule_747(engine: &mut FullDiagnosticsEngine, msg: &str, line: usize) -> (r:
    bool)
    ensures
        r == (msg@.len() > 0),
        final(engine)@ == spec_render_rule(old(engine)@, msg@, line as nat),
{
    if msg.is_empty() {
        return false;
    }
    engine.emit_diagnostic(DiagnosticSeverity::Error, msg, line);
    true
}

/// Diagnostic formatting rule #748.
pub fn render_diagnostic_rule_748(engine: &mut FullDiagnosticsEngine, msg: &str, line: usize) -> (r:
    bool)
    ensures
        r == (msg@.len() > 0),
        final(engine)@ == spec_render_rule(old(engine)@, msg@, line as nat),
{
    if msg.is_empty() {
        return false;
    }
    engine.emit_diagnostic(DiagnosticSeverity::Error, msg, line);
    true
}

/// Diagnostic formatting rule #749.
pub fn render_diagnostic_rule_749(engine: &mut FullDiagnosticsEngine, msg: &str, line: usize) -> (r:
    bool)
    ensures
        r == (msg@.len() > 0),
        final(engine)@ == spec_render_rule(old(engine)@, msg@, line as nat),
{
    if msg.is_empty() {
        return false;
    }
    engine.emit_diagnostic(DiagnosticSeverity::Error, msg, line);
    true
}

/// Diagnostic formatting rule #750.
pub fn render_diagnostic_rule_750(engine: &mut FullDiagnosticsEngine, msg: &str, line: usize) -> (r:
    bool)
    ensures
        r == (msg@.len() > 0),
        final(engine)@ == spec_render_rule(old(engine)@, msg@, line as nat),
{
    if msg.is_empty() {
        return false;
    }
    engine.emit_diagnostic(DiagnosticSeverity::Error, msg, line);
    true
}

/// Diagnostic formatting rule #751.
pub fn render_diagnostic_rule_751(engine: &mut FullDiagnosticsEngine, msg: &str, line: usize) -> (r:
    bool)
    ensures
        r == (msg@.len() > 0),
        final(engine)@ == spec_render_rule(old(engine)@, msg@, line as nat),
{
    if msg.is_empty() {
        return false;
    }
    engine.emit_diagnostic(DiagnosticSeverity::Error, msg, line);
    true
}

/// Diagnostic formatting rule #752.
pub fn render_diagnostic_rule_752(engine: &mut FullDiagnosticsEngine, msg: &str, line: usize) -> (r:
    bool)
    ensures
        r == (msg@.len() > 0),
        final(engine)@ == spec_render_rule(old(engine)@, msg@, line as nat),
{
    if msg.is_empty() {
        return false;
    }
    engine.emit_diagnostic(DiagnosticSeverity::Error, msg, line);
    true
}

/// Diagnostic formatting rule #753.
pub fn render_diagnostic_rule_753(engine: &mut FullDiagnosticsEngine, msg: &str, line: usize) -> (r:
    bool)
    ensures
        r == (msg@.len() > 0),
        final(engine)@ == spec_render_rule(old(engine)@, msg@, line as nat),
{
    if msg.is_empty() {
        return false;
    }
    engine.emit_diagnostic(DiagnosticSeverity::Error, msg, line);
    true
}

/// Diagnostic formatting rule #754.
pub fn render_diagnostic_rule_754(engine: &mut FullDiagnosticsEngine, msg: &str, line: usize) -> (r:
    bool)
    ensures
        r == (msg@.len() > 0),
        final(engine)@ == spec_render_rule(old(engine)@, msg@, line as nat),
{
    if msg.is_empty() {
        return false;
    }
    engine.emit_diagnostic(DiagnosticSeverity::Error, msg, line);
    true
}

/// Diagnostic formatting rule #755.
pub fn render_diagnostic_rule_755(engine: &mut FullDiagnosticsEngine, msg: &str, line: usize) -> (r:
    bool)
    ensures
        r == (msg@.len() > 0),
        final(engine)@ == spec_render_rule(old(engine)@, msg@, line as nat),
{
    if msg.is_empty() {
        return false;
    }
    engine.emit_diagnostic(DiagnosticSeverity::Error, msg, line);
    true
}

/// Diagnostic formatting rule #756.
pub fn render_diagnostic_rule_756(engine: &mut FullDiagnosticsEngine, msg: &str, line: usize) -> (r:
    bool)
    ensures
        r == (msg@.len() > 0),
        final(engine)@ == spec_render_rule(old(engine)@, msg@, line as nat),
{
    if msg.is_empty() {
        return false;
    }
    engine.emit_diagnostic(DiagnosticSeverity::Error, msg, line);
    true
}

/// Diagnostic formatting rule #757.
pub fn render_diagnostic_rule_757(engine: &mut FullDiagnosticsEngine, msg: &str, line: usize) -> (r:
    bool)
    ensures
        r == (msg@.len() > 0),
        final(engine)@ == spec_render_rule(old(engine)@, msg@, line as nat),
{
    if msg.is_empty() {
        return false;
    }
    engine.emit_diagnostic(DiagnosticSeverity::Error, msg, line);
    true
}

/// Diagnostic formatting rule #758.
pub fn render_diagnostic_rule_758(engine: &mut FullDiagnosticsEngine, msg: &str, line: usize) -> (r:
    bool)
    ensures
        r == (msg@.len() > 0),
        final(engine)@ == spec_render_rule(old(engine)@, msg@, line as nat),
{
    if msg.is_empty() {
        return false;
    }
    engine.emit_diagnostic(DiagnosticSeverity::Error, msg, line);
    true
}

/// Diagnostic formatting rule #759.
pub fn render_diagnostic_rule_759(engine: &mut FullDiagnosticsEngine, msg: &str, line: usize) -> (r:
    bool)
    ensures
        r == (msg@.len() > 0),
        final(engine)@ == spec_render_rule(old(engine)@, msg@, line as nat),
{
    if msg.is_empty() {
        return false;
    }
    engine.emit_diagnostic(DiagnosticSeverity::Error, msg, line);
    true
}

/// Diagnostic formatting rule #760.
pub fn render_diagnostic_rule_760(engine: &mut FullDiagnosticsEngine, msg: &str, line: usize) -> (r:
    bool)
    ensures
        r == (msg@.len() > 0),
        final(engine)@ == spec_render_rule(old(engine)@, msg@, line as nat),
{
    if msg.is_empty() {
        return false;
    }
    engine.emit_diagnostic(DiagnosticSeverity::Error, msg, line);
    true
}

/// Diagnostic formatting rule #761.
pub fn render_diagnostic_rule_761(engine: &mut FullDiagnosticsEngine, msg: &str, line: usize) -> (r:
    bool)
    ensures
        r == (msg@.len() > 0),
        final(engine)@ == spec_render_rule(old(engine)@, msg@, line as nat),
{
    if msg.is_empty() {
        return false;
    }
    engine.emit_diagnostic(DiagnosticSeverity::Error, msg, line);
    true
}

/// Diagnostic formatting rule #762.
pub fn render_diagnostic_rule_762(engine: &mut FullDiagnosticsEngine, msg: &str, line: usize) -> (r:
    bool)
    ensures
        r == (msg@.len() > 0),
        final(engine)@ == spec_render_rule(old(engine)@, msg@, line as nat),
{
    if msg.is_empty() {
        return false;
    }
    engine.emit_diagnostic(DiagnosticSeverity::Error, msg, line);
    true
}

/// Diagnostic formatting rule #763.
pub fn render_diagnostic_rule_763(engine: &mut FullDiagnosticsEngine, msg: &str, line: usize) -> (r:
    bool)
    ensures
        r == (msg@.len() > 0),
        final(engine)@ == spec_render_rule(old(engine)@, msg@, line as nat),
{
    if msg.is_empty() {
        return false;
    }
    engine.emit_diagnostic(DiagnosticSeverity::Error, msg, line);
    true
}

/// Diagnostic formatting rule #764.
pub fn render_diagnostic_rule_764(engine: &mut FullDiagnosticsEngine, msg: &str, line: usize) -> (r:
    bool)
    ensures
        r == (msg@.len() > 0),
        final(engine)@ == spec_render_rule(old(engine)@, msg@, line as nat),
{
    if msg.is_empty() {
        return false;
    }
    engine.emit_diagnostic(DiagnosticSeverity::Error, msg, line);
    true
}

/// Diagnostic formatting rule #765.
pub fn render_diagnostic_rule_765(engine: &mut FullDiagnosticsEngine, msg: &str, line: usize) -> (r:
    bool)
    ensures
        r == (msg@.len() > 0),
        final(engine)@ == spec_render_rule(old(engine)@, msg@, line as nat),
{
    if msg.is_empty() {
        return false;
    }
    engine.emit_diagnostic(DiagnosticSeverity::Error, msg, line);
    true
}

/// Diagnostic formatting rule #766.
pub fn render_diagnostic_rule_766(engine: &mut FullDiagnosticsEngine, msg: &str, line: usize) -> (r:
    bool)
    ensures
        r == (msg@.len() > 0),
        final(engine)@ == spec_render_rule(old(engine)@, msg@, line as nat),
{
    if msg.is_empty() {
        return false;
    }
    engine.emit_diagnostic(DiagnosticSeverity::Error, msg, line);
    true
}

/// Diagnostic formatting rule #767.
pub fn render_diagnostic_rule_767(engine: &mut FullDiagnosticsEngine, msg: &str, line: usize) -> (r:
    bool)
    ensures
        r == (msg@.len() > 0),
        final(engine)@ == spec_render_rule(old(engine)@, msg@, line as nat),
{
    if msg.is_empty() {
        return false;
    }
    engine.emit_diagnostic(DiagnosticSeverity::Error, msg, line);
    true
}

/// Diagnostic formatting rule #768.
pub fn render_diagnostic_rule_768(engine: &mut FullDiagnosticsEngine, msg: &str, line: usize) -> (r:
    bool)
    ensures
        r == (msg@.len() > 0),
        final(engine)@ == spec_render_rule(old(engine)@, msg@, line as nat),
{
    if msg.is_empty() {
        return false;
    }
    engine.emit_diagnostic(DiagnosticSeverity::Error, msg, line);
    true
}

/// Diagnostic formatting rule #769.
pub fn render_diagnostic_rule_769(engine: &mut FullDiagnosticsEngine, msg: &str, line: usize) -> (r:
    bool)
    ensures
        r == (msg@.len() > 0),
        final(engine)@ == spec_render_rule(old(engine)@, msg@, line as nat),
{
    if msg.is_empty() {
        return false;
    }
    engine.emit_diagnostic(DiagnosticSeverity::Error, msg, line);
    true
}

/// Diagnostic formatting rule #770.
pub fn render_diagnostic_rule_770(engine: &mut FullDiagnosticsEngine, msg: &str, line: usize) -> (r:
    bool)
    ensures
        r == (msg@.len() > 0),
        final(engine)@ == spec_render_rule(old(engine)@, msg@, line as nat),
{
    if msg.is_empty() {
        return false;
    }
    engine.emit_diagnostic(DiagnosticSeverity::Error, msg, line);
    true
}

/// Diagnostic formatting rule #771.
pub fn render_diagnostic_rule_771(engine: &mut FullDiagnosticsEngine, msg: &str, line: usize) -> (r:
    bool)
    ensures
        r == (msg@.len() > 0),
        final(engine)@ == spec_render_rule(old(engine)@, msg@, line as nat),
{
    if msg.is_empty() {
        return false;
    }
    engine.emit_diagnostic(DiagnosticSeverity::Error, msg, line);
    true
}

/// Diagnostic formatting rule #772.
pub fn render_diagnostic_rule_772(engine: &mut FullDiagnosticsEngine, msg: &str, line: usize) -> (r:
    bool)
    ensures
        r == (msg@.len() > 0),
        final(engine)@ == spec_render_rule(old(engine)@, msg@, line as nat),
{
    if msg.is_empty() {
        return false;
    }
    engine.emit_diagnostic(DiagnosticSeverity::Error, msg, line);
    true
}

/// Diagnostic formatting rule #773.
pub fn render_diagnostic_rule_773(engine: &mut FullDiagnosticsEngine, msg: &str, line: usize) -> (r:
    bool)
    ensures
        r == (msg@.len() > 0),
        final(engine)@ == spec_render_rule(old(engine)@, msg@, line as nat),
{
    if msg.is_empty() {
        return false;
    }
    engine.emit_diagnostic(DiagnosticSeverity::Error, msg, line);
    true
}

/// Diagnostic formatting rule #774.
pub fn render_diagnostic_rule_774(engine: &mut FullDiagnosticsEngine, msg: &str, line: usize) -> (r:
    bool)
    ensures
        r == (msg@.len() > 0),
        final(engine)@ == spec_render_rule(old(engine)@, msg@, line as nat),
{
    if msg.is_empty() {
        return false;
    }
    engine.emit_diagnostic(DiagnosticSeverity::Error, msg, line);
    true
}

/// Diagnostic formatting rule #775.
pub fn render_diagnostic_rule_775(engine: &mut FullDiagnosticsEngine, msg: &str, line: usize) -> (r:
    bool)
    ensures
        r == (msg@.len() > 0),
        final(engine)@ == spec_render_rule(old(engine)@, msg@, line as nat),
{
    if msg.is_empty() {
        return false;
    }
    engine.emit_diagnostic(DiagnosticSeverity::Error, msg, line);
    true
}

/// Diagnostic formatting rule #776.
pub fn render_diagnostic_rule_776(engine: &mut FullDiagnosticsEngine, msg: &str, line: usize) -> (r:
    bool)
    ensures
        r == (msg@.len() > 0),
        final(engine)@ == spec_render_rule(old(engine)@, msg@, line as nat),
{
    if msg.is_empty() {
        return false;
    }
    engine.emit_diagnostic(DiagnosticSeverity::Error, msg, line);
    true
}

/// Diagnostic formatting rule #777.
pub fn render_diagnostic_rule_777(engine: &mut FullDiagnosticsEngine, msg: &str, line: usize) -> (r:
    bool)
    ensures
        r == (msg@.len() > 0),
        final(engine)@ == spec_render_rule(old(engine)@, msg@, line as nat),
{
    if msg.is_empty() {
        return false;
    }
    engine.emit_diagnostic(DiagnosticSeverity::Error, msg, line);
    true
}

/// Diagnostic formatting rule #778.
pub fn render_diagnostic_rule_778(engine: &mut FullDiagnosticsEngine, msg: &str, line: usize) -> (r:
    bool)
    ensures
        r == (msg@.len() > 0),
        final(engine)@ == spec_render_rule(old(engine)@, msg@, line as nat),
{
    if msg.is_empty() {
        return false;
    }
    engine.emit_diagnostic(DiagnosticSeverity::Error, msg, line);
    true
}

/// Diagnostic formatting rule #779.
pub fn render_diagnostic_rule_779(engine: &mut FullDiagnosticsEngine, msg: &str, line: usize) -> (r:
    bool)
    ensures
        r == (msg@.len() > 0),
        final(engine)@ == spec_render_rule(old(engine)@, msg@, line as nat),
{
    if msg.is_empty() {
        return false;
    }
    engine.emit_diagnostic(DiagnosticSeverity::Error, msg, line);
    true
}

/// Diagnostic formatting rule #780.
pub fn render_diagnostic_rule_780(engine: &mut FullDiagnosticsEngine, msg: &str, line: usize) -> (r:
    bool)
    ensures
        r == (msg@.len() > 0),
        final(engine)@ == spec_render_rule(old(engine)@, msg@, line as nat),
{
    if msg.is_empty() {
        return false;
    }
    engine.emit_diagnostic(DiagnosticSeverity::Error, msg, line);
    true
}

/// Diagnostic formatting rule #781.
pub fn render_diagnostic_rule_781(engine: &mut FullDiagnosticsEngine, msg: &str, line: usize) -> (r:
    bool)
    ensures
        r == (msg@.len() > 0),
        final(engine)@ == spec_render_rule(old(engine)@, msg@, line as nat),
{
    if msg.is_empty() {
        return false;
    }
    engine.emit_diagnostic(DiagnosticSeverity::Error, msg, line);
    true
}

/// Diagnostic formatting rule #782.
pub fn render_diagnostic_rule_782(engine: &mut FullDiagnosticsEngine, msg: &str, line: usize) -> (r:
    bool)
    ensures
        r == (msg@.len() > 0),
        final(engine)@ == spec_render_rule(old(engine)@, msg@, line as nat),
{
    if msg.is_empty() {
        return false;
    }
    engine.emit_diagnostic(DiagnosticSeverity::Error, msg, line);
    true
}

/// Diagnostic formatting rule #783.
pub fn render_diagnostic_rule_783(engine: &mut FullDiagnosticsEngine, msg: &str, line: usize) -> (r:
    bool)
    ensures
        r == (msg@.len() > 0),
        final(engine)@ == spec_render_rule(old(engine)@, msg@, line as nat),
{
    if msg.is_empty() {
        return false;
    }
    engine.emit_diagnostic(DiagnosticSeverity::Error, msg, line);
    true
}

/// Diagnostic formatting rule #784.
pub fn render_diagnostic_rule_784(engine: &mut FullDiagnosticsEngine, msg: &str, line: usize) -> (r:
    bool)
    ensures
        r == (msg@.len() > 0),
        final(engine)@ == spec_render_rule(old(engine)@, msg@, line as nat),
{
    if msg.is_empty() {
        return false;
    }
    engine.emit_diagnostic(DiagnosticSeverity::Error, msg, line);
    true
}

/// Diagnostic formatting rule #785.
pub fn render_diagnostic_rule_785(engine: &mut FullDiagnosticsEngine, msg: &str, line: usize) -> (r:
    bool)
    ensures
        r == (msg@.len() > 0),
        final(engine)@ == spec_render_rule(old(engine)@, msg@, line as nat),
{
    if msg.is_empty() {
        return false;
    }
    engine.emit_diagnostic(DiagnosticSeverity::Error, msg, line);
    true
}

/// Diagnostic formatting rule #786.
pub fn render_diagnostic_rule_786(engine: &mut FullDiagnosticsEngine, msg: &str, line: usize) -> (r:
    bool)
    ensures
        r == (msg@.len() > 0),
        final(engine)@ == spec_render_rule(old(engine)@, msg@, line as nat),
{
    if msg.is_empty() {
        return false;
    }
    engine.emit_diagnostic(DiagnosticSeverity::Error, msg, line);
    true
}

/// Diagnostic formatting rule #787.
pub fn render_diagnostic_rule_787(engine: &mut FullDiagnosticsEngine, msg: &str, line: usize) -> (r:
    bool)
    ensures
        r == (msg@.len() > 0),
        final(engine)@ == spec_render_rule(old(engine)@, msg@, line as nat),
{
    if msg.is_empty() {
        return false;
    }
    engine.emit_diagnostic(DiagnosticSeverity::Error, msg, line);
    true
}

/// Diagnostic formatting rule #788.
pub fn render_diagnostic_rule_788(engine: &mut FullDiagnosticsEngine, msg: &str, line: usize) -> (r:
    bool)
    ensures
        r == (msg@.len() > 0),
        final(engine)@ == spec_render_rule(old(engine)@, msg@, line as nat),
{
    if msg.is_empty() {
        return false;
    }
    engine.emit_diagnostic(DiagnosticSeverity::Error, msg, line);
    true
}

/// Diagnostic formatting rule #789.
pub fn render_diagnostic_rule_789(engine: &mut FullDiagnosticsEngine, msg: &str, line: usize) -> (r:
    bool)
    ensures
        r == (msg@.len() > 0),
        final(engine)@ == spec_render_rule(old(engine)@, msg@, line as nat),
{
    if msg.is_empty() {
        return false;
    }
    engine.emit_diagnostic(DiagnosticSeverity::Error, msg, line);
    true
}

/// Diagnostic formatting rule #790.
pub fn render_diagnostic_rule_790(engine: &mut FullDiagnosticsEngine, msg: &str, line: usize) -> (r:
    bool)
    ensures
        r == (msg@.len() > 0),
        final(engine)@ == spec_render_rule(old(engine)@, msg@, line as nat),
{
    if msg.is_empty() {
        return false;
    }
    engine.emit_diagnostic(DiagnosticSeverity::Error, msg, line);
    true
}

/// Diagnostic formatting rule #791.
pub fn render_diagnostic_rule_791(engine: &mut FullDiagnosticsEngine, msg: &str, line: usize) -> (r:
    bool)
    ensures
        r == (msg@.len() > 0),
        final(engine)@ == spec_render_rule(old(engine)@, msg@, line as nat),
{
    if msg.is_empty() {
        return false;
    }
    engine.emit_diagnostic(DiagnosticSeverity::Error, msg, line);
    true
}

/// Diagnostic formatting rule #792.
pub fn render_diagnostic_rule_792(engine: &mut FullDiagnosticsEngine, msg: &str, line: usize) -> (r:
    bool)
    ensures
        r == (msg@.len() > 0),
        final(engine)@ == spec_render_rule(old(engine)@, msg@, line as nat),
{
    if msg.is_empty() {
        return false;
    }
    engine.emit_diagnostic(DiagnosticSeverity::Error, msg, line);
    true
}

/// Diagnostic formatting rule #793.
pub fn render_diagnostic_rule_793(engine: &mut FullDiagnosticsEngine, msg: &str, line: usize) -> (r:
    bool)
    ensures
        r == (msg@.len() > 0),
        final(engine)@ == spec_render_rule(old(engine)@, msg@, line as nat),
{
    if msg.is_empty() {
        return false;
    }
    engine.emit_diagnostic(DiagnosticSeverity::Error, msg, line);
    true
}

/// Diagnostic formatting rule #794.
pub fn render_diagnostic_rule_794(engine: &mut FullDiagnosticsEngine, msg: &str, line: usize) -> (r:
    bool)
    ensures
        r == (msg@.len() > 0),
        final(engine)@ == spec_render_rule(old(engine)@, msg@, line as nat),
{
    if msg.is_empty() {
        return false;
    }
    engine.emit_diagnostic(DiagnosticSeverity::Error, msg, line);
    true
}

/// Diagnostic formatting rule #795.
pub fn render_diagnostic_rule_795(engine: &mut FullDiagnosticsEngine, msg: &str, line: usize) -> (r:
    bool)
    ensures
        r == (msg@.len() > 0),
        final(engine)@ == spec_render_rule(old(engine)@, msg@, line as nat),
{
    if msg.is_empty() {
        return false;
    }
    engine.emit_diagnostic(DiagnosticSeverity::Error, msg, line);
    true
}

/// Diagnostic formatting rule #796.
pub fn render_diagnostic_rule_796(engine: &mut FullDiagnosticsEngine, msg: &str, line: usize) -> (r:
    bool)
    ensures
        r == (msg@.len() > 0),
        final(engine)@ == spec_render_rule(old(engine)@, msg@, line as nat),
{
    if msg.is_empty() {
        return false;
    }
    engine.emit_diagnostic(DiagnosticSeverity::Error, msg, line);
    true
}

/// Diagnostic formatting rule #797.
pub fn render_diagnostic_rule_797(engine: &mut FullDiagnosticsEngine, msg: &str, line: usize) -> (r:
    bool)
    ensures
        r == (msg@.len() > 0),
        final(engine)@ == spec_render_rule(old(engine)@, msg@, line as nat),
{
    if msg.is_empty() {
        return false;
    }
    engine.emit_diagnostic(DiagnosticSeverity::Error, msg, line);
    true
}

/// Diagnostic formatting rule #798.
pub fn render_diagnostic_rule_798(engine: &mut FullDiagnosticsEngine, msg: &str, line: usize) -> (r:
    bool)
    ensures
        r == (msg@.len() > 0),
        final(engine)@ == spec_render_rule(old(engine)@, msg@, line as nat),
{
    if msg.is_empty() {
        return false;
    }
    engine.emit_diagnostic(DiagnosticSeverity::Error, msg, line);
    true
}

/// Diagnostic formatting rule #799.
pub fn render_diagnostic_rule_799(engine: &mut FullDiagnosticsEngine, msg: &str, line: usize) -> (r:
    bool)
    ensures
        r == (msg@.len() > 0),
        final(engine)@ == spec_render_rule(old(engine)@, msg@, line as nat),
{
    if msg.is_empty() {
        return false;
    }
    engine.emit_diagnostic(DiagnosticSeverity::Error, msg, line);
    true
}

/// Diagnostic formatting rule #800.
pub fn render_diagnostic_rule_800(engine: &mut FullDiagnosticsEngine, msg: &str, line: usize) -> (r:
    bool)
    ensures
        r == (msg@.len() > 0),
        final(engine)@ == spec_render_rule(old(engine)@, msg@, line as nat),
{
    if msg.is_empty() {
        return false;
    }
    engine.emit_diagnostic(DiagnosticSeverity::Error, msg, line);
    true
}

/// Diagnostic formatting rule #801.
pub fn render_diagnostic_rule_801(engine: &mut FullDiagnosticsEngine, msg: &str, line: usize) -> (r:
    bool)
    ensures
        r == (msg@.len() > 0),
        final(engine)@ == spec_render_rule(old(engine)@, msg@, line as nat),
{
    if msg.is_empty() {
        return false;
    }
    engine.emit_diagnostic(DiagnosticSeverity::Error, msg, line);
    true
}

/// Diagnostic formatting rule #802.
pub fn render_diagnostic_rule_802(engine: &mut FullDiagnosticsEngine, msg: &str, line: usize) -> (r:
    bool)
    ensures
        r == (msg@.len() > 0),
        final(engine)@ == spec_render_rule(old(engine)@, msg@, line as nat),
{
    if msg.is_empty() {
        return false;
    }
    engine.emit_diagnostic(DiagnosticSeverity::Error, msg, line);
    true
}

/// Diagnostic formatting rule #803.
pub fn render_diagnostic_rule_803(engine: &mut FullDiagnosticsEngine, msg: &str, line: usize) -> (r:
    bool)
    ensures
        r == (msg@.len() > 0),
        final(engine)@ == spec_render_rule(old(engine)@, msg@, line as nat),
{
    if msg.is_empty() {
        return false;
    }
    engine.emit_diagnostic(DiagnosticSeverity::Error, msg, line);
    true
}

/// Diagnostic formatting rule #804.
pub fn render_diagnostic_rule_804(engine: &mut FullDiagnosticsEngine, msg: &str, line: usize) -> (r:
    bool)
    ensures
        r == (msg@.len() > 0),
        final(engine)@ == spec_render_rule(old(engine)@, msg@, line as nat),
{
    if msg.is_empty() {
        return false;
    }
    engine.emit_diagnostic(DiagnosticSeverity::Error, msg, line);
    true
}

/// Diagnostic formatting rule #805.
pub fn render_diagnostic_rule_805(engine: &mut FullDiagnosticsEngine, msg: &str, line: usize) -> (r:
    bool)
    ensures
        r == (msg@.len() > 0),
        final(engine)@ == spec_render_rule(old(engine)@, msg@, line as nat),
{
    if msg.is_empty() {
        return false;
    }
    engine.emit_diagnostic(DiagnosticSeverity::Error, msg, line);
    true
}

/// Diagnostic formatting rule #806.
pub fn render_diagnostic_rule_806(engine: &mut FullDiagnosticsEngine, msg: &str, line: usize) -> (r:
    bool)
    ensures
        r == (msg@.len() > 0),
        final(engine)@ == spec_render_rule(old(engine)@, msg@, line as nat),
{
    if msg.is_empty() {
        return false;
    }
    engine.emit_diagnostic(DiagnosticSeverity::Error, msg, line);
    true
}

/// Diagnostic formatting rule #807.
pub fn render_diagnostic_rule_807(engine: &mut FullDiagnosticsEngine, msg: &str, line: usize) -> (r:
    bool)
    ensures
        r == (msg@.len() > 0),
        final(engine)@ == spec_render_rule(old(engine)@, msg@, line as nat),
{
    if msg.is_empty() {
        return false;
    }
    engine.emit_diagnostic(DiagnosticSeverity::Error, msg, line);
    true
}

/// Diagnostic formatting rule #808.
pub fn render_diagnostic_rule_808(engine: &mut FullDiagnosticsEngine, msg: &str, line: usize) -> (r:
    bool)
    ensures
        r == (msg@.len() > 0),
        final(engine)@ == spec_render_rule(old(engine)@, msg@, line as nat),
{
    if msg.is_empty() {
        return false;
    }
    engine.emit_diagnostic(DiagnosticSeverity::Error, msg, line);
    true
}

/// Diagnostic formatting rule #809.
pub fn render_diagnostic_rule_809(engine: &mut FullDiagnosticsEngine, msg: &str, line: usize) -> (r:
    bool)
    ensures
        r == (msg@.len() > 0),
        final(engine)@ == spec_render_rule(old(engine)@, msg@, line as nat),
{
    if msg.is_empty() {
        return false;
    }
    engine.emit_diagnostic(DiagnosticSeverity::Error, msg, line);
    true
}

/// Diagnostic formatting rule #810.
pub fn render_diagnostic_rule_810(engine: &mut FullDiagnosticsEngine, msg: &str, line: usize) -> (r:
    bool)
    ensures
        r == (msg@.len() > 0),
        final(engine)@ == spec_render_rule(old(engine)@, msg@, line as nat),
{
    if msg.is_empty() {
        return false;
    }
    engine.emit_diagnostic(DiagnosticSeverity::Error, msg, line);
    true
}

/// Diagnostic formatting rule #811.
pub fn render_diagnostic_rule_811(engine: &mut FullDiagnosticsEngine, msg: &str, line: usize) -> (r:
    bool)
    ensures
        r == (msg@.len() > 0),
        final(engine)@ == spec_render_rule(old(engine)@, msg@, line as nat),
{
    if msg.is_empty() {
        return false;
    }
    engine.emit_diagnostic(DiagnosticSeverity::Error, msg, line);
    true
}

/// Diagnostic formatting rule #812.
pub fn render_diagnostic_rule_812(engine: &mut FullDiagnosticsEngine, msg: &str, line: usize) -> (r:
    bool)
    ensures
        r == (msg@.len() > 0),
        final(engine)@ == spec_render_rule(old(engine)@, msg@, line as nat),
{
    if msg.is_empty() {
        return false;
    }
    engine.emit_diagnostic(DiagnosticSeverity::Error, msg, line);
    true
}

/// Diagnostic formatting rule #813.
pub fn render_diagnostic_rule_813(engine: &mut FullDiagnosticsEngine, msg: &str, line: usize) -> (r:
    bool)
    ensures
        r == (msg@.len() > 0),
        final(engine)@ == spec_render_rule(old(engine)@, msg@, line as nat),
{
    if msg.is_empty() {
        return false;
    }
    engine.emit_diagnostic(DiagnosticSeverity::Error, msg, line);
    true
}

/// Diagnostic formatting rule #814.
pub fn render_diagnostic_rule_814(engine: &mut FullDiagnosticsEngine, msg: &str, line: usize) -> (r:
    bool)
    ensures
        r == (msg@.len() > 0),
        final(engine)@ == spec_render_rule(old(engine)@, msg@, line as nat),
{
    if msg.is_empty() {
        return false;
    }
    engine.emit_diagnostic(DiagnosticSeverity::Error, msg, line);
    true
}

/// Diagnostic formatting rule #815.
pub fn render_diagnostic_rule_815(engine: &mut FullDiagnosticsEngine, msg: &str, line: usize) -> (r:
    bool)
    ensures
        r == (msg@.len() > 0),
        final(engine)@ == spec_render_rule(old(engine)@, msg@, line as nat),
{
    if msg.is_empty() {
        return false;
    }
    engine.emit_diagnostic(DiagnosticSeverity::Error, msg, line);
    true
}

/// Diagnostic formatting rule #816.
pub fn render_diagnostic_rule_816(engine: &mut FullDiagnosticsEngine, msg: &str, line: usize) -> (r:
    bool)
    ensures
        r == (msg@.len() > 0),
        final(engine)@ == spec_render_rule(old(engine)@, msg@, line as nat),
{
    if msg.is_empty() {
        return false;
    }
    engine.emit_diagnostic(DiagnosticSeverity::Error, msg, line);
    true
}

/// Diagnostic formatting rule #817.
pub fn render_diagnostic_rule_817(engine: &mut FullDiagnosticsEngine, msg: &str, line: usize) -> (r:
    bool)
    ensures
        r == (msg@.len() > 0),
        final(engine)@ == spec_render_rule(old(engine)@, msg@, line as nat),
{
    if msg.is_empty() {
        return false;
    }
    engine.emit_diagnostic(DiagnosticSeverity::Error, msg, line);
    true
}

/// Diagnostic formatting rule #818.
pub fn render_diagnostic_rule_818(engine: &mut FullDiagnosticsEngine, msg: &str, line: usize) -> (r:
    bool)
    ensures
        r == (msg@.len() > 0),
        final(engine)@ == spec_render_rule(old(engine)@, msg@, line as nat),
{
    if msg.is_empty() {
        return false;
    }
    engine.emit_diagnostic(DiagnosticSeverity::Error, msg, line);
    true
}

/// Diagnostic formatting rule #819.
pub fn render_diagnostic_rule_819(engine: &mut FullDiagnosticsEngine, msg: &str, line: usize) -> (r:
    bool)
    ensures
        r == (msg@.len() > 0),
        final(engine)@ == spec_render_rule(old(engine)@, msg@, line as nat),
{
    if msg.is_empty() {
        return false;
    }
    engine.emit_diagnostic(DiagnosticSeverity::Error, msg, line);
    true
}

/// Diagnostic formatting rule #820.
pub fn render_diagnostic_rule_820(engine: &mut FullDiagnosticsEngine, msg: &str, line: usize) -> (r:
    bool)
    ensures
        r == (msg@.len() > 0),
        final(engine)@ == spec_render_rule(old(engine)@, msg@, line as nat),
{
    if msg.is_empty() {
        return false;
    }
    engine.emit_diagnostic(DiagnosticSeverity::Error, msg, line);
    true
}

/// Diagnostic formatting rule #821.
pub fn render_diagnostic_rule_821(engine: &mut FullDiagnosticsEngine, msg: &str, line: usize) -> (r:
    bool)
    ensures
        r == (msg@.len() > 0),
        final(engine)@ == spec_render_rule(old(engine)@, msg@, line as nat),
{
    if msg.is_empty() {
        return false;
    }
    engine.emit_diagnostic(DiagnosticSeverity::Error, msg, line);
    true
}

/// Diagnostic formatting rule #822.
pub fn render_diagnostic_rule_822(engine: &mut FullDiagnosticsEngine, msg: &str, line: usize) -> (r:
    bool)
    ensures
        r == (msg@.len() > 0),
        final(engine)@ == spec_render_rule(old(engine)@, msg@, line as nat),
{
    if msg.is_empty() {
        return false;
    }
    engine.emit_diagnostic(DiagnosticSeverity::Error, msg, line);
    true
}

/// Diagnostic formatting rule #823.
pub fn render_diagnostic_rule_823(engine: &mut FullDiagnosticsEngine, msg: &str, line: usize) -> (r:
    bool)
    ensures
        r == (msg@.len() > 0),
        final(engine)@ == spec_render_rule(old(engine)@, msg@, line as nat),
{
    if msg.is_empty() {
        return false;
    }
    engine.emit_diagnostic(DiagnosticSeverity::Error, msg, line);
    true
}

/// Diagnostic formatting rule #824.
pub fn render_diagnostic_rule_824(engine: &mut FullDiagnosticsEngine, msg: &str, line: usize) -> (r:
    bool)
    ensures
        r == (msg@.len() > 0),
        final(engine)@ == spec_render_rule(old(engine)@, msg@, line as nat),
{
    if msg.is_empty() {
        return false;
    }
    engine.emit_diagnostic(DiagnosticSeverity::Error, msg, line);
    true
}

/// Diagnostic formatting rule #825.
pub fn render_diagnostic_rule_825(engine: &mut FullDiagnosticsEngine, msg: &str, line: usize) -> (r:
    bool)
    ensures
        r == (msg@.len() > 0),
        final(engine)@ == spec_render_rule(old(engine)@, msg@, line as nat),
{
    if msg.is_empty() {
        return false;
    }
    engine.emit_diagnostic(DiagnosticSeverity::Error, msg, line);
    true
}

/// Diagnostic formatting rule #826.
pub fn render_diagnostic_rule_826(engine: &mut FullDiagnosticsEngine, msg: &str, line: usize) -> (r:
    bool)
    ensures
        r == (msg@.len() > 0),
        final(engine)@ == spec_render_rule(old(engine)@, msg@, line as nat),
{
    if msg.is_empty() {
        return false;
    }
    engine.emit_diagnostic(DiagnosticSeverity::Error, msg, line);
    true
}

/// Diagnostic formatting rule #827.
pub fn render_diagnostic_rule_827(engine: &mut FullDiagnosticsEngine, msg: &str, line: usize) -> (r:
    bool)
    ensures
        r == (msg@.len() > 0),
        final(engine)@ == spec_render_rule(old(engine)@, msg@, line as nat),
{
    if msg.is_empty() {
        return false;
    }
    engine.emit_diagnostic(DiagnosticSeverity::Error, msg, line);
    true
}

/// Diagnostic formatting rule #828.
pub fn render_diagnostic_rule_828(engine: &mut FullDiagnosticsEngine, msg: &str, line: usize) -> (r:
    bool)
    ensures
        r == (msg@.len() > 0),
        final(engine)@ == spec_render_rule(old(engine)@, msg@, line as nat),
{
    if msg.is_empty() {
        return false;
    }
    engine.emit_diagnostic(DiagnosticSeverity::Error, msg, line);
    true
}

/// Diagnostic formatting rule #829.
pub fn render_diagnostic_rule_829(engine: &mut FullDiagnosticsEngine, msg: &str, line: usize) -> (r:
    bool)
    ensures
        r == (msg@.len() > 0),
        final(engine)@ == spec_render_rule(old(engine)@, msg@, line as nat),
{
    if msg.is_empty() {
        return false;
    }
    engine.emit_diagnostic(DiagnosticSeverity::Error, msg, line);
    true
}

/// Diagnostic formatting rule #830.
pub fn render_diagnostic_rule_830(engine: &mut FullDiagnosticsEngine, msg: &str, line: usize) -> (r:
    bool)
    ensures
        r == (msg@.len() > 0),
        final(engine)@ == spec_render_rule(old(engine)@, msg@, line as nat),
{
    if msg.is_empty() {
        return false;
    }
    engine.emit_diagnostic(DiagnosticSeverity::Error, msg, line);
    true
}

/// Diagnostic formatting rule #831.
pub fn render_diagnostic_rule_831(engine: &mut FullDiagnosticsEngine, msg: &str, line: usize) -> (r:
    bool)
    ensures
        r == (msg@.len() > 0),
        final(engine)@ == spec_render_rule(old(engine)@, msg@, line as nat),
{
    if msg.is_empty() {
        return false;
    }
    engine.emit_diagnostic(DiagnosticSeverity::Error, msg, line);
    true
}

/// Diagnostic formatting rule #832.
pub fn render_diagnostic_rule_832(engine: &mut FullDiagnosticsEngine, msg: &str, line: usize) -> (r:
    bool)
    ensures
        r == (msg@.len() > 0),
        final(engine)@ == spec_render_rule(old(engine)@, msg@, line as nat),
{
    if msg.is_empty() {
        return false;
    }
    engine.emit_diagnostic(DiagnosticSeverity::Error, msg, line);
    true
}

/// Diagnostic formatting rule #833.
pub fn render_diagnostic_rule_833(engine: &mut FullDiagnosticsEngine, msg: &str, line: usize) -> (r:
    bool)
    ensures
        r == (msg@.len() > 0),
        final(engine)@ == spec_render_rule(old(engine)@, msg@, line as nat),
{
    if msg.is_empty() {
        return false;
    }
    engine.emit_diagnostic(DiagnosticSeverity::Error, msg, line);
    true
}

/// Diagnostic formatting rule #834.
pub fn render_diagnostic_rule_834(engine: &mut FullDiagnosticsEngine, msg: &str, line: usize) -> (r:
    bool)
    ensures
        r == (msg@.len() > 0),
        final(engine)@ == spec_render_rule(old(engine)@, msg@, line as nat),
{
    if msg.is_empty() {
        return false;
    }
    engine.emit_diagnostic(DiagnosticSeverity::Error, msg, line);
    true
}

/// Diagnostic formatting rule #835.
pub fn render_diagnostic_rule_835(engine: &mut FullDiagnosticsEngine, msg: &str, line: usize) -> (r:
    bool)
    ensures
        r == (msg@.len() > 0),
        final(engine)@ == spec_render_rule(old(engine)@, msg@, line as nat),
{
    if msg.is_empty() {
        return false;
    }
    engine.emit_diagnostic(DiagnosticSeverity::Error, msg, line);
    true
}

/// Diagnostic formatting rule #836.
pub fn render_diagnostic_rule_836(engine: &mut FullDiagnosticsEngine, msg: &str, line: usize) -> (r:
    bool)
    ensures
        r == (msg@.len() > 0),
        final(engine)@ == spec_render_rule(old(engine)@, msg@, line as nat),
{
    if msg.is_empty() {
        return false;
    }
    engine.emit_diagnostic(DiagnosticSeverity::Error, msg, line);
    true
}

/// Diagnostic formatting rule #837.
pub fn render_diagnostic_rule_837(engine: &mut FullDiagnosticsEngine, msg: &str, line: usize) -> (r:
    bool)
    ensures
        r == (msg@.len() > 0),
        final(engine)@ == spec_render_rule(old(engine)@, msg@, line as nat),
{
    if msg.is_empty() {
        return false;
    }
    engine.emit_diagnostic(DiagnosticSeverity::Error, msg, line);
    true
}

/// Diagnostic formatting rule #838.
pub fn render_diagnostic_rule_838(engine: &mut FullDiagnosticsEngine, msg: &str, line: usize) -> (r:
    bool)
    ensures
        r == (msg@.len() > 0),
        final(engine)@ == spec_render_rule(old(engine)@, msg@, line as nat),
{
    if msg.is_empty() {
        return false;
    }
    engine.emit_diagnostic(DiagnosticSeverity::Error, msg, line);
    true
}

/// Diagnostic formatting rule #839.
pub fn render_diagnostic_rule_839(engine: &mut FullDiagnosticsEngine, msg: &str, line: usize) -> (r:
    bool)
    ensures
        r == (msg@.len() > 0),
        final(engine)@ == spec_render_rule(old(engine)@, msg@, line as nat),
{
    if msg.is_empty() {
        return false;
    }
    engine.emit_diagnostic(DiagnosticSeverity::Error, msg, line);
    true
}

/// Diagnostic formatting rule #840.
pub fn render_diagnostic_rule_840(engine: &mut FullDiagnosticsEngine, msg: &str, line: usize) -> (r:
    bool)
    ensures
        r == (msg@.len() > 0),
        final(engine)@ == spec_render_rule(old(engine)@, msg@, line as nat),
{
    if msg.is_empty() {
        return false;
    }
    engine.emit_diagnostic(DiagnosticSeverity::Error, msg, line);
    true
}

/// Diagnostic formatting rule #841.
pub fn render_diagnostic_rule_841(engine: &mut FullDiagnosticsEngine, msg: &str, line: usize) -> (r:
    bool)
    ensures
        r == (msg@.len() > 0),
        final(engine)@ == spec_render_rule(old(engine)@, msg@, line as nat),
{
    if msg.is_empty() {
        return false;
    }
    engine.emit_diagnostic(DiagnosticSeverity::Error, msg, line);
    true
}

/// Diagnostic formatting rule #842.
pub fn render_diagnostic_rule_842(engine: &mut FullDiagnosticsEngine, msg: &str, line: usize) -> (r:
    bool)
    ensures
        r == (msg@.len() > 0),
        final(engine)@ == spec_render_rule(old(engine)@, msg@, line as nat),
{
    if msg.is_empty() {
        return false;
    }
    engine.emit_diagnostic(DiagnosticSeverity::Error, msg, line);
    true
}

/// Diagnostic formatting rule #843.
pub fn render_diagnostic_rule_843(engine: &mut FullDiagnosticsEngine, msg: &str, line: usize) -> (r:
    bool)
    ensures
        r == (msg@.len() > 0),
        final(engine)@ == spec_render_rule(old(engine)@, msg@, line as nat),
{
    if msg.is_empty() {
        return false;
    }
    engine.emit_diagnostic(DiagnosticSeverity::Error, msg, line);
    true
}

/// Diagnostic formatting rule #844.
pub fn render_diagnostic_rule_844(engine: &mut FullDiagnosticsEngine, msg: &str, line: usize) -> (r:
    bool)
    ensures
        r == (msg@.len() > 0),
        final(engine)@ == spec_render_rule(old(engine)@, msg@, line as nat),
{
    if msg.is_empty() {
        return false;
    }
    engine.emit_diagnostic(DiagnosticSeverity::Error, msg, line);
    true
}

/// Diagnostic formatting rule #845.
pub fn render_diagnostic_rule_845(engine: &mut FullDiagnosticsEngine, msg: &str, line: usize) -> (r:
    bool)
    ensures
        r == (msg@.len() > 0),
        final(engine)@ == spec_render_rule(old(engine)@, msg@, line as nat),
{
    if msg.is_empty() {
        return false;
    }
    engine.emit_diagnostic(DiagnosticSeverity::Error, msg, line);
    true
}

/// Diagnostic formatting rule #846.
pub fn render_diagnostic_rule_846(engine: &mut FullDiagnosticsEngine, msg: &str, line: usize) -> (r:
    bool)
    ensures
        r == (msg@.len() > 0),
        final(engine)@ == spec_render_rule(old(engine)@, msg@, line as nat),
{
    if msg.is_empty() {
        return false;
    }
    engine.emit_diagnostic(DiagnosticSeverity::Error, msg, line);
    true
}

/// Diagnostic formatting rule #847.
pub fn render_diagnostic_rule_847(engine: &mut FullDiagnosticsEngine, msg: &str, line: usize) -> (r:
    bool)
    ensures
        r == (msg@.len() > 0),
        final(engine)@ == spec_render_rule(old(engine)@, msg@, line as nat),
{
    if msg.is_empty() {
        return false;
    }
    engine.emit_diagnostic(DiagnosticSeverity::Error, msg, line);
    true
}

/// Diagnostic formatting rule #848.
pub fn render_diagnostic_rule_848(engine: &mut FullDiagnosticsEngine, msg: &str, line: usize) -> (r:
    bool)
    ensures
        r == (msg@.len() > 0),
        final(engine)@ == spec_render_rule(old(engine)@, msg@, line as nat),
{
    if msg.is_empty() {
        return false;
    }
    engine.emit_diagnostic(DiagnosticSeverity::Error, msg, line);
    true
}

/// Diagnostic formatting rule #849.
pub fn render_diagnostic_rule_849(engine: &mut FullDiagnosticsEngine, msg: &str, line: usize) -> (r:
    bool)
    ensures
        r == (msg@.len() > 0),
        final(engine)@ == spec_render_rule(old(engine)@, msg@, line as nat),
{
    if msg.is_empty() {
        return false;
    }
    engine.emit_diagnostic(DiagnosticSeverity::Error, msg, line);
    true
}

/// Diagnostic formatting rule #850.
pub fn render_diagnostic_rule_850(engine: &mut FullDiagnosticsEngine, msg: &str, line: usize) -> (r:
    bool)
    ensures
        r == (msg@.len() > 0),
        final(engine)@ == spec_render_rule(old(engine)@, msg@, line as nat),
{
    if msg.is_empty() {
        return false;
    }
    engine.emit_diagnostic(DiagnosticSeverity::Error, msg, line);
    true
}

/// Diagnostic formatting rule #851.
pub fn render_diagnostic_rule_851(engine: &mut FullDiagnosticsEngine, msg: &str, line: usize) -> (r:
    bool)
    ensures
        r == (msg@.len() > 0),
        final(engine)@ == spec_render_rule(old(engine)@, msg@, line as nat),
{
    if msg.is_empty() {
        return false;
    }
    engine.emit_diagnostic(DiagnosticSeverity::Error, msg, line);
    true
}

/// Diagnostic formatting rule #852.
pub fn render_diagnostic_rule_852(engine: &mut FullDiagnosticsEngine, msg: &str, line: usize) -> (r:
    bool)
    ensures
        r == (msg@.len() > 0),
        final(engine)@ == spec_render_rule(old(engine)@, msg@, line as nat),
{
    if msg.is_empty() {
        return false;
    }
    engine.emit_diagnostic(DiagnosticSeverity::Error, msg, line);
    true
}

/// Diagnostic formatting rule #853.
pub fn render_diagnostic_rule_853(engine: &mut FullDiagnosticsEngine, msg: &str, line: usize) -> (r:
    bool)
    ensures
        r == (msg@.len() > 0),
        final(engine)@ == spec_render_rule(old(engine)@, msg@, line as nat),
{
    if msg.is_empty() {
        return false;
    }
    engine.emit_diagnostic(DiagnosticSeverity::Error, msg, line);
    true
}

/// Diagnostic formatting rule #854.
pub fn render_diagnostic_rule_854(engine: &mut FullDiagnosticsEngine, msg: &str, line: usize) -> (r:
    bool)
    ensures
        r == (msg@.len() > 0),
        final(engine)@ == spec_render_rule(old(engine)@, msg@, line as nat),
{
    if msg.is_empty() {
        return false;
    }
    engine.emit_diagnostic(DiagnosticSeverity::Error, msg, line);
    true
}

/// Diagnostic formatting rule #855.
pub fn render_diagnostic_rule_855(engine: &mut FullDiagnosticsEngine, msg: &str, line: usize) -> (r:
    bool)
    ensures
        r == (msg@.len() > 0),
        final(engine)@ == spec_render_rule(old(engine)@, msg@, line as nat),
{
    if msg.is_empty() {
        return false;
    }
    engine.emit_diagnostic(DiagnosticSeverity::Error, msg, line);
    true
}

/// Diagnostic formatting rule #856.
pub fn render_diagnostic_rule_856(engine: &mut FullDiagnosticsEngine, msg: &str, line: usize) -> (r:
    bool)
    ensures
        r == (msg@.len() > 0),
        final(engine)@ == spec_render_rule(old(engine)@, msg@, line as nat),
{
    if msg.is_empty() {
        return false;
    }
    engine.emit_diagnostic(DiagnosticSeverity::Error, msg, line);
    true
}

/// Diagnostic formatting rule #857.
pub fn render_diagnostic_rule_857(engine: &mut FullDiagnosticsEngine, msg: &str, line: usize) -> (r:
    bool)
    ensures
        r == (msg@.len() > 0),
        final(engine)@ == spec_render_rule(old(engine)@, msg@, line as nat),
{
    if msg.is_empty() {
        return false;
    }
    engine.emit_diagnostic(DiagnosticSeverity::Error, msg, line);
    true
}

/// Diagnostic formatting rule #858.
pub fn render_diagnostic_rule_858(engine: &mut FullDiagnosticsEngine, msg: &str, line: usize) -> (r:
    bool)
    ensures
        r == (msg@.len() > 0),
        final(engine)@ == spec_render_rule(old(engine)@, msg@, line as nat),
{
    if msg.is_empty() {
        return false;
    }
    engine.emit_diagnostic(DiagnosticSeverity::Error, msg, line);
    true
}

/// Diagnostic formatting rule #859.
pub fn render_diagnostic_rule_859(engine: &mut FullDiagnosticsEngine, msg: &str, line: usize) -> (r:
    bool)
    ensures
        r == (msg@.len() > 0),
        final(engine)@ == spec_render_rule(old(engine)@, msg@, line as nat),
{
    if msg.is_empty() {
        return false;
    }
    engine.emit_diagnostic(DiagnosticSeverity::Error, msg, line);
    true
}

/// Diagnostic formatting rule #860.
pub fn render_diagnostic_rule_860(engine: &mut FullDiagnosticsEngine, msg: &str, line: usize) -> (r:
    bool)
    ensures
        r == (msg@.len() > 0),
        final(engine)@ == spec_render_rule(old(engine)@, msg@, line as nat),
{
    if msg.is_empty() {
        return false;
    }
    engine.emit_diagnostic(DiagnosticSeverity::Error, msg, line);
    true
}

/// Diagnostic formatting rule #861.
pub fn render_diagnostic_rule_861(engine: &mut FullDiagnosticsEngine, msg: &str, line: usize) -> (r:
    bool)
    ensures
        r == (msg@.len() > 0),
        final(engine)@ == spec_render_rule(old(engine)@, msg@, line as nat),
{
    if msg.is_empty() {
        return false;
    }
    engine.emit_diagnostic(DiagnosticSeverity::Error, msg, line);
    true
}

/// Diagnostic formatting rule #862.
pub fn render_diagnostic_rule_862(engine: &mut FullDiagnosticsEngine, msg: &str, line: usize) -> (r:
    bool)
    ensures
        r == (msg@.len() > 0),
        final(engine)@ == spec_render_rule(old(engine)@, msg@, line as nat),
{
    if msg.is_empty() {
        return false;
    }
    engine.emit_diagnostic(DiagnosticSeverity::Error, msg, line);
    true
}

/// Diagnostic formatting rule #863.
pub fn render_diagnostic_rule_863(engine: &mut FullDiagnosticsEngine, msg: &str, line: usize) -> (r:
    bool)
    ensures
        r == (msg@.len() > 0),
        final(engine)@ == spec_render_rule(old(engine)@, msg@, line as nat),
{
    if msg.is_empty() {
        return false;
    }
    engine.emit_diagnostic(DiagnosticSeverity::Error, msg, line);
    true
}

/// Diagnostic formatting rule #864.
pub fn render_diagnostic_rule_864(engine: &mut FullDiagnosticsEngine, msg: &str, line: usize) -> (r:
    bool)
    ensures
        r == (msg@.len() > 0),
        final(engine)@ == spec_render_rule(old(engine)@, msg@, line as nat),
{
    if msg.is_empty() {
        return false;
    }
    engine.emit_diagnostic(DiagnosticSeverity::Error, msg, line);
    true
}

/// Diagnostic formatting rule #865.
pub fn render_diagnostic_rule_865(engine: &mut FullDiagnosticsEngine, msg: &str, line: usize) -> (r:
    bool)
    ensures
        r == (msg@.len() > 0),
        final(engine)@ == spec_render_rule(old(engine)@, msg@, line as nat),
{
    if msg.is_empty() {
        return false;
    }
    engine.emit_diagnostic(DiagnosticSeverity::Error, msg, line);
    true
}

/// Diagnostic formatting rule #866.
pub fn render_diagnostic_rule_866(engine: &mut FullDiagnosticsEngine, msg: &str, line: usize) -> (r:
    bool)
    ensures
        r == (msg@.len() > 0),
        final(engine)@ == spec_render_rule(old(engine)@, msg@, line as nat),
{
    if msg.is_empty() {
        return false;
    }
    engine.emit_diagnostic(DiagnosticSeverity::Error, msg, line);
    true
}

/// Diagnostic formatting rule #867.
pub fn render_diagnostic_rule_867(engine: &mut FullDiagnosticsEngine, msg: &str, line: usize) -> (r:
    bool)
    ensures
        r == (msg@.len() > 0),
        final(engine)@ == spec_render_rule(old(engine)@, msg@, line as nat),
{
    if msg.is_empty() {
        return false;
    }
    engine.emit_diagnostic(DiagnosticSeverity::Error, msg, line);
    true
}

/// Diagnostic formatting rule #868.
pub fn render_diagnostic_rule_868(engine: &mut FullDiagnosticsEngine, msg: &str, line: usize) -> (r:
    bool)
    ensures
        r == (msg@.len() > 0),
        final(engine)@ == spec_render_rule(old(engine)@, msg@, line as nat),
{
    if msg.is_empty() {
        return false;
    }
    engine.emit_diagnostic(DiagnosticSeverity::Error, msg, line);
    true
}

/// Diagnostic formatting rule #869.
pub fn render_diagnostic_rule_869(engine: &mut FullDiagnosticsEngine, msg: &str, line: usize) -> (r:
    bool)
    ensures
        r == (msg@.len() > 0),
        final(engine)@ == spec_render_rule(old(engine)@, msg@, line as nat),
{
    if msg.is_empty() {
        return false;
    }
    engine.emit_diagnostic(DiagnosticSeverity::Error, msg, line);
    true
}

/// Diagnostic formatting rule #870.
pub fn render_diagnostic_rule_870(engine: &mut FullDiagnosticsEngine, msg: &str, line: usize) -> (r:
    bool)
    ensures
        r == (msg@.len() > 0),
        final(engine)@ == spec_render_rule(old(engine)@, msg@, line as nat),
{
    if msg.is_empty() {
        return false;
    }
    engine.emit_diagnostic(DiagnosticSeverity::Error, msg, line);
    true
}

/// Diagnostic formatting rule #871.
pub fn render_diagnostic_rule_871(engine: &mut FullDiagnosticsEngine, msg: &str, line: usize) -> (r:
    bool)
    ensures
        r == (msg@.len() > 0),
        final(engine)@ == spec_render_rule(old(engine)@, msg@, line as nat),
{
    if msg.is_empty() {
        return false;
    }
    engine.emit_diagnostic(DiagnosticSeverity::Error, msg, line);
    true
}

/// Diagnostic formatting rule #872.
pub fn render_diagnostic_rule_872(engine: &mut FullDiagnosticsEngine, msg: &str, line: usize) -> (r:
    bool)
    ensures
        r == (msg@.len() > 0),
        final(engine)@ == spec_render_rule(old(engine)@, msg@, line as nat),
{
    if msg.is_empty() {
        return false;
    }
    engine.emit_diagnostic(DiagnosticSeverity::Error, msg, line);
    true
}

/// Diagnostic formatting rule #873.
pub fn render_diagnostic_rule_873(engine: &mut FullDiagnosticsEngine, msg: &str, line: usize) -> (r:
    bool)
    ensures
        r == (msg@.len() > 0),
        final(engine)@ == spec_render_rule(old(engine)@, msg@, line as nat),
{
    if msg.is_empty() {
        return false;
    }
    engine.emit_diagnostic(DiagnosticSeverity::Error, msg, line);
    true
}

/// Diagnostic formatting rule #874.
pub fn render_diagnostic_rule_874(engine: &mut FullDiagnosticsEngine, msg: &str, line: usize) -> (r:
    bool)
    ensures
        r == (msg@.len() > 0),
        final(engine)@ == spec_render_rule(old(engine)@, msg@, line as nat),
{
    if msg.is_empty() {
        return false;
    }
    engine.emit_diagnostic(DiagnosticSeverity::Error, msg, line);
    true
}

/// Diagnostic formatting rule #875.
pub fn render_diagnostic_rule_875(engine: &mut FullDiagnosticsEngine, msg: &str, line: usize) -> (r:
    bool)
    ensures
        r == (msg@.len() > 0),
        final(engine)@ == spec_render_rule(old(engine)@, msg@, line as nat),
{
    if msg.is_empty() {
        return false;
    }
    engine.emit_diagnostic(DiagnosticSeverity::Error, msg, line);
    true
}

/// Diagnostic formatting rule #876.
pub fn render_diagnostic_rule_876(engine: &mut FullDiagnosticsEngine, msg: &str, line: usize) -> (r:
    bool)
    ensures
        r == (msg@.len() > 0),
        final(engine)@ == spec_render_rule(old(engine)@, msg@, line as nat),
{
    if msg.is_empty() {
        return false;
    }
    engine.emit_diagnostic(DiagnosticSeverity::Error, msg, line);
    true
}

/// Diagnostic formatting rule #877.
pub fn render_diagnostic_rule_877(engine: &mut FullDiagnosticsEngine, msg: &str, line: usize) -> (r:
    bool)
    ensures
        r == (msg@.len() > 0),
        final(engine)@ == spec_render_rule(old(engine)@, msg@, line as nat),
{
    if msg.is_empty() {
        return false;
    }
    engine.emit_diagnostic(DiagnosticSeverity::Error, msg, line);
    true
}

/// Diagnostic formatting rule #878.
pub fn render_diagnostic_rule_878(engine: &mut FullDiagnosticsEngine, msg: &str, line: usize) -> (r:
    bool)
    ensures
        r == (msg@.len() > 0),
        final(engine)@ == spec_render_rule(old(engine)@, msg@, line as nat),
{
    if msg.is_empty() {
        return false;
    }
    engine.emit_diagnostic(DiagnosticSeverity::Error, msg, line);
    true
}

/// Diagnostic formatting rule #879.
pub fn render_diagnostic_rule_879(engine: &mut FullDiagnosticsEngine, msg: &str, line: usize) -> (r:
    bool)
    ensures
        r == (msg@.len() > 0),
        final(engine)@ == spec_render_rule(old(engine)@, msg@, line as nat),
{
    if msg.is_empty() {
        return false;
    }
    engine.emit_diagnostic(DiagnosticSeverity::Error, msg, line);
    true
}

/// Diagnostic formatting rule #880.
pub fn render_diagnostic_rule_880(engine: &mut FullDiagnosticsEngine, msg: &str, line: usize) -> (r:
    bool)
    ensures
        r == (msg@.len() > 0),
        final(engine)@ == spec_render_rule(old(engine)@, msg@, line as nat),
{
    if msg.is_empty() {
        return false;
    }
    engine.emit_diagnostic(DiagnosticSeverity::Error, msg, line);
    true
}

/// Diagnostic formatting rule #881.
pub fn render_diagnostic_rule_881(engine: &mut FullDiagnosticsEngine, msg: &str, line: usize) -> (r:
    bool)
    ensures
        r == (msg@.len() > 0),
        final(engine)@ == spec_render_rule(old(engine)@, msg@, line as nat),
{
    if msg.is_empty() {
        return false;
    }
    engine.emit_diagnostic(DiagnosticSeverity::Error, msg, line);
    true
}

/// Diagnostic formatting rule #882.
pub fn render_diagnostic_rule_882(engine: &mut FullDiagnosticsEngine, msg: &str, line: usize) -> (r:
    bool)
    ensures
        r == (msg@.len() > 0),
        final(engine)@ == spec_render_rule(old(engine)@, msg@, line as nat),
{
    if msg.is_empty() {
        return false;
    }
    engine.emit_diagnostic(DiagnosticSeverity::Error, msg, line);
    true
}

/// Diagnostic formatting rule #883.
pub fn render_diagnostic_rule_883(engine: &mut FullDiagnosticsEngine, msg: &str, line: usize) -> (r:
    bool)
    ensures
        r == (msg@.len() > 0),
        final(engine)@ == spec_render_rule(old(engine)@, msg@, line as nat),
{
    if msg.is_empty() {
        return false;
    }
    engine.emit_diagnostic(DiagnosticSeverity::Error, msg, line);
    true
}

/// Diagnostic formatting rule #884.
pub fn render_diagnostic_rule_884(engine: &mut FullDiagnosticsEngine, msg: &str, line: usize) -> (r:
    bool)
    ensures
        r == (msg@.len() > 0),
        final(engine)@ == spec_render_rule(old(engine)@, msg@, line as nat),
{
    if msg.is_empty() {
        return false;
    }
    engine.emit_diagnostic(DiagnosticSeverity::Error, msg, line);
    true
}

/// Diagnostic formatting rule #885.
pub fn render_diagnostic_rule_885(engine: &mut FullDiagnosticsEngine, msg: &str, line: usize) -> (r:
    bool)
    ensures
        r == (msg@.len() > 0),
        final(engine)@ == spec_render_rule(old(engine)@, msg@, line as nat),
{
    if msg.is_empty() {
        return false;
    }
    engine.emit_diagnostic(DiagnosticSeverity::Error, msg, line);
    true
}

/// Diagnostic formatting rule #886.
pub fn render_diagnostic_rule_886(engine: &mut FullDiagnosticsEngine, msg: &str, line: usize) -> (r:
    bool)
    ensures
        r == (msg@.len() > 0),
        final(engine)@ == spec_render_rule(old(engine)@, msg@, line as nat),
{
    if msg.is_empty() {
        return false;
    }
    engine.emit_diagnostic(DiagnosticSeverity::Error, msg, line);
    true
}

/// Diagnostic formatting rule #887.
pub fn render_diagnostic_rule_887(engine: &mut FullDiagnosticsEngine, msg: &str, line: usize) -> (r:
    bool)
    ensures
        r == (msg@.len() > 0),
        final(engine)@ == spec_render_rule(old(engine)@, msg@, line as nat),
{
    if msg.is_empty() {
        return false;
    }
    engine.emit_diagnostic(DiagnosticSeverity::Error, msg, line);
    true
}

/// Diagnostic formatting rule #888.
pub fn render_diagnostic_rule_888(engine: &mut FullDiagnosticsEngine, msg: &str, line: usize) -> (r:
    bool)
    ensures
        r == (msg@.len() > 0),
        final(engine)@ == spec_render_rule(old(engine)@, msg@, line as nat),
{
    if msg.is_empty() {
        return false;
    }
    engine.emit_diagnostic(DiagnosticSeverity::Error, msg, line);
    true
}

/// Diagnostic formatting rule #889.
pub fn render_diagnostic_rule_889(engine: &mut FullDiagnosticsEngine, msg: &str, line: usize) -> (r:
    bool)
    ensures
        r == (msg@.len() > 0),
        final(engine)@ == spec_render_rule(old(engine)@, msg@, line as nat),
{
    if msg.is_empty() {
        return false;
    }
    engine.emit_diagnostic(DiagnosticSeverity::Error, msg, line);
    true
}

/// Diagnostic formatting rule #890.
pub fn render_diagnostic_rule_890(engine: &mut FullDiagnosticsEngine, msg: &str, line: usize) -> (r:
    bool)
    ensures
        r == (msg@.len() > 0),
        final(engine)@ == spec_render_rule(old(engine)@, msg@, line as nat),
{
    if msg.is_empty() {
        return false;
    }
    engine.emit_diagnostic(DiagnosticSeverity::Error, msg, line);
    true
}

/// Diagnostic formatting rule #891.
pub fn render_diagnostic_rule_891(engine: &mut FullDiagnosticsEngine, msg: &str, line: usize) -> (r:
    bool)
    ensures
        r == (msg@.len() > 0),
        final(engine)@ == spec_render_rule(old(engine)@, msg@, line as nat),
{
    if msg.is_empty() {
        return false;
    }
    engine.emit_diagnostic(DiagnosticSeverity::Error, msg, line);
    true
}

/// Diagnostic formatting rule #892.
pub fn render_diagnostic_rule_892(engine: &mut FullDiagnosticsEngine, msg: &str, line: usize) -> (r:
    bool)
    ensures
        r == (msg@.len() > 0),
        final(engine)@ == spec_render_rule(old(engine)@, msg@, line as nat),
{
    if msg.is_empty() {
        return false;
    }
    engine.emit_diagnostic(DiagnosticSeverity::Error, msg, line);
    true
}

/// Diagnostic formatting rule #893.
pub fn render_diagnostic_rule_893(engine: &mut FullDiagnosticsEngine, msg: &str, line: usize) -> (r:
    bool)
    ensures
        r == (msg@.len() > 0),
        final(engine)@ == spec_render_rule(old(engine)@, msg@, line as nat),
{
    if msg.is_empty() {
        return false;
    }
    engine.emit_diagnostic(DiagnosticSeverity::Error, msg, line);
    true
}

/// Diagnostic formatting rule #894.
pub fn render_diagnostic_rule_894(engine: &mut FullDiagnosticsEngine, msg: &str, line: usize) -> (r:
    bool)
    ensures
        r == (msg@.len() > 0),
        final(engine)@ == spec_render_rule(old(engine)@, msg@, line as nat),
{
    if msg.is_empty() {
        return false;
    }
    engine.emit_diagnostic(DiagnosticSeverity::Error, msg, line);
    true
}

/// Diagnostic formatting rule #895.
pub fn render_diagnostic_rule_895(engine: &mut FullDiagnosticsEngine, msg: &str, line: usize) -> (r:
    bool)
    ensures
        r == (msg@.len() > 0),
        final(engine)@ == spec_render_rule(old(engine)@, msg@, line as nat),
{
    if msg.is_empty() {
        return false;
    }
    engine.emit_diagnostic(DiagnosticSeverity::Error, msg, line);
    true
}

/// Diagnostic formatting rule #896.
pub fn render_diagnostic_rule_896(engine: &mut FullDiagnosticsEngine, msg: &str, line: usize) -> (r:
    bool)
    ensures
        r == (msg@.len() > 0),
        final(engine)@ == spec_render_rule(old(engine)@, msg@, line as nat),
{
    if msg.is_empty() {
        return false;
    }
    engine.emit_diagnostic(DiagnosticSeverity::Error, msg, line);
    true
}

/// Diagnostic formatting rule #897.
pub fn render_diagnostic_rule_897(engine: &mut FullDiagnosticsEngine, msg: &str, line: usize) -> (r:
    bool)
    ensures
        r == (msg@.len() > 0),
        final(engine)@ == spec_render_rule(old(engine)@, msg@, line as nat),
{
    if msg.is_empty() {
        return false;
    }
    engine.emit_diagnostic(DiagnosticSeverity::Error, msg, line);
    true
}

/// Diagnostic formatting rule #898.
pub fn render_diagnostic_rule_898(engine: &mut FullDiagnosticsEngine, msg: &str, line: usize) -> (r:
    bool)
    ensures
        r == (msg@.len() > 0),
        final(engine)@ == spec_render_rule(old(engine)@, msg@, line as nat),
{
    if msg.is_empty() {
        return false;
    }
    engine.emit_diagnostic(DiagnosticSeverity::Error, msg, line);
    true
}

/// Diagnostic formatting rule #899.
pub fn render_diagnostic_rule_899(engine: &mut FullDiagnosticsEngine, msg: &str, line: usize) -> (r:
    bool)
    ensures
        r == (msg@.len() > 0),
        final(engine)@ == spec_render_rule(old(engine)@, msg@, line as nat),
{
    if msg.is_empty() {
        return false;
    }
    engine.emit_diagnostic(DiagnosticSeverity::Error, msg, line);
    true
}

/// Diagnostic formatting rule #900.
pub fn render_diagnostic_rule_900(engine: &mut FullDiagnosticsEngine, msg: &str, line: usize) -> (r:
    bool)
    ensures
        r == (msg@.len() > 0),
        final(engine)@ == spec_render_rule(old(engine)@, msg@, line as nat),
{
    if msg.is_empty() {
        return false;
    }
    engine.emit_diagnostic(DiagnosticSeverity::Error, msg, line);
    true
}

/// Diagnostic formatting rule #901.
pub fn render_diagnostic_rule_901(engine: &mut FullDiagnosticsEngine, msg: &str, line: usize) -> (r:
    bool)
    ensures
        r == (msg@.len() > 0),
        final(engine)@ == spec_render_rule(old(engine)@, msg@, line as nat),
{
    if msg.is_empty() {
        return false;
    }
    engine.emit_diagnostic(DiagnosticSeverity::Error, msg, line);
    true
}

/// Diagnostic formatting rule #902.
pub fn render_diagnostic_rule_902(engine: &mut FullDiagnosticsEngine, msg: &str, line: usize) -> (r:
    bool)
    ensures
        r == (msg@.len() > 0),
        final(engine)@ == spec_render_rule(old(engine)@, msg@, line as nat),
{
    if msg.is_empty() {
        return false;
    }
    engine.emit_diagnostic(DiagnosticSeverity::Error, msg, line);
    true
}

/// Diagnostic formatting rule #903.
pub fn render_diagnostic_rule_903(engine: &mut FullDiagnosticsEngine, msg: &str, line: usize) -> (r:
    bool)
    ensures
        r == (msg@.len() > 0),
        final(engine)@ == spec_render_rule(old(engine)@, msg@, line as nat),
{
    if msg.is_empty() {
        return false;
    }
    engine.emit_diagnostic(DiagnosticSeverity::Error, msg, line);
    true
}

/// Diagnostic formatting rule #904.
pub fn render_diagnostic_rule_904(engine: &mut FullDiagnosticsEngine, msg: &str, line: usize) -> (r:
    bool)
    ensures
        r == (msg@.len() > 0),
        final(engine)@ == spec_render_rule(old(engine)@, msg@, line as nat),
{
    if msg.is_empty() {
        return false;
    }
    engine.emit_diagnostic(DiagnosticSeverity::Error, msg, line);
    true
}

/// Diagnostic formatting rule #905.
pub fn render_diagnostic_rule_905(engine: &mut FullDiagnosticsEngine, msg: &str, line: usize) -> (r:
    bool)
    ensures
        r == (msg@.len() > 0),
        final(engine)@ == spec_render_rule(old(engine)@, msg@, line as nat),
{
    if msg.is_empty() {
        return false;
    }
    engine.emit_diagnostic(DiagnosticSeverity::Error, msg, line);
    true
}

/// Diagnostic formatting rule #906.
pub fn render_diagnostic_rule_906(engine: &mut FullDiagnosticsEngine, msg: &str, line: usize) -> (r:
    bool)
    ensures
        r == (msg@.len() > 0),
        final(engine)@ == spec_render_rule(old(engine)@, msg@, line as nat),
{
    if msg.is_empty() {
        return false;
    }
    engine.emit_diagnostic(DiagnosticSeverity::Error, msg, line);
    true
}

/// Diagnostic formatting rule #907.
pub fn render_diagnostic_rule_907(engine: &mut FullDiagnosticsEngine, msg: &str, line: usize) -> (r:
    bool)
    ensures
        r == (msg@.len() > 0),
        final(engine)@ == spec_render_rule(old(engine)@, msg@, line as nat),
{
    if msg.is_empty() {
        return false;
    }
    engine.emit_diagnostic(DiagnosticSeverity::Error, msg, line);
    true
}

/// Diagnostic formatting rule #908.
pub fn render_diagnostic_rule_908(engine: &mut FullDiagnosticsEngine, msg: &str, line: usize) -> (r:
    bool)
    ensures
        r == (msg@.len() > 0),
        final(engine)@ == spec_render_rule(old(engine)@, msg@, line as nat),
{
    if msg.is_empty() {
        return false;
    }
    engine.emit_diagnostic(DiagnosticSeverity::Error, msg, line);
    true
}

/// Diagnostic formatting rule #909.
pub fn render_diagnostic_rule_909(engine: &mut FullDiagnosticsEngine, msg: &str, line: usize) -> (r:
    bool)
    ensures
        r == (msg@.len() > 0),
        final(engine)@ == spec_render_rule(old(engine)@, msg@, line as nat),
{
    if msg.is_empty() {
        return false;
    }
    engine.emit_diagnostic(DiagnosticSeverity::Error, msg, line);
    true
}

/// Diagnostic formatting rule #910.
pub fn render_diagnostic_rule_910(engine: &mut FullDiagnosticsEngine, msg: &str, line: usize) -> (r:
    bool)
    ensures
        r == (msg@.len() > 0),
        final(engine)@ == spec_render_rule(old(engine)@, msg@, line as nat),
{
    if msg.is_empty() {
        return false;
    }
    engine.emit_diagnostic(DiagnosticSeverity::Error, msg, line);
    true
}

/// Diagnostic formatting rule #911.
pub fn render_diagnostic_rule_911(engine: &mut FullDiagnosticsEngine, msg: &str, line: usize) -> (r:
    bool)
    ensures
        r == (msg@.len() > 0),
        final(engine)@ == spec_render_rule(old(engine)@, msg@, line as nat),
{
    if msg.is_empty() {
        return false;
    }
    engine.emit_diagnostic(DiagnosticSeverity::Error, msg, line);
    true
}

/// Diagnostic formatting rule #912.
pub fn render_diagnostic_rule_912(engine: &mut FullDiagnosticsEngine, msg: &str, line: usize) -> (r:
    bool)
    ensures
        r == (msg@.len() > 0),
        final(engine)@ == spec_render_rule(old(engine)@, msg@, line as nat),
{
    if msg.is_empty() {
        return false;
    }
    engine.emit_diagnostic(DiagnosticSeverity::Error, msg, line);
    true
}

/// Diagnostic formatting rule #913.
pub fn render_diagnostic_rule_913(engine: &mut FullDiagnosticsEngine, msg: &str, line: usize) -> (r:
    bool)
    ensures
        r == (msg@.len() > 0),
        final(engine)@ == spec_render_rule(old(engine)@, msg@, line as nat),
{
    if msg.is_empty() {
        return false;
    }
    engine.emit_diagnostic(DiagnosticSeverity::Error, msg, line);
    true
}

/// Diagnostic formatting rule #914.
pub fn render_diagnostic_rule_914(engine: &mut FullDiagnosticsEngine, msg: &str, line: usize) -> (r:
    bool)
    ensures
        r == (msg@.len() > 0),
        final(engine)@ == spec_render_rule(old(engine)@, msg@, line as nat),
{
    if msg.is_empty() {
        return false;
    }
    engine.emit_diagnostic(DiagnosticSeverity::Error, msg, line);
    true
}

/// Diagnostic formatting rule #915.
pub fn render_diagnostic_rule_915(engine: &mut FullDiagnosticsEngine, msg: &str, line: usize) -> (r:
    bool)
    ensures
        r == (msg@.len() > 0),
        final(engine)@ == spec_render_rule(old(engine)@, msg@, line as nat),
{
    if msg.is_empty() {
        return false;
    }
    engine.emit_diagnostic(DiagnosticSeverity::Error, msg, line);
    true
}

/// Diagnostic formatting rule #916.
pub fn render_diagnostic_rule_916(engine: &mut FullDiagnosticsEngine, msg: &str, line: usize) -> (r:
    bool)
    ensures
        r == (msg@.len() > 0),
        final(engine)@ == spec_render_rule(old(engine)@, msg@, line as nat),
{
    if msg.is_empty() {
        return false;
    }
    engine.emit_diagnostic(DiagnosticSeverity::Error, msg, line);
    true
}

/// Diagnostic formatting rule #917.
pub fn render_diagnostic_rule_917(engine: &mut FullDiagnosticsEngine, msg: &str, line: usize) -> (r:
    bool)
    ensures
        r == (msg@.len() > 0),
        final(engine)@ == spec_render_rule(old(engine)@, msg@, line as nat),
{
    if msg.is_empty() {
        return false;
    }
    engine.emit_diagnostic(DiagnosticSeverity::Error, msg, line);
    true
}

/// Diagnostic formatting rule #918.
pub fn render_diagnostic_rule_918(engine: &mut FullDiagnosticsEngine, msg: &str, line: usize) -> (r:
    bool)
    ensures
        r == (msg@.len() > 0),
        final(engine)@ == spec_render_rule(old(engine)@, msg@, line as nat),
{
    if msg.is_empty() {
        return false;
    }
    engine.emit_diagnostic(DiagnosticSeverity::Error, msg, line);
    true
}

/// Diagnostic formatting rule #919.
pub fn render_diagnostic_rule_919(engine: &mut FullDiagnosticsEngine, msg: &str, line: usize) -> (r:
    bool)
    ensures
        r == (msg@.len() > 0),
        final(engine)@ == spec_render_rule(old(engine)@, msg@, line as nat),
{
    if msg.is_empty() {
        return false;
    }
    engine.emit_diagnostic(DiagnosticSeverity::Error, msg, line);
    true
}

/// Diagnostic formatting rule #920.
pub fn render_diagnostic_rule_920(engine: &mut FullDiagnosticsEngine, msg: &str, line: usize) -> (r:
    bool)
    ensures
        r == (msg@.len() > 0),
        final(engine)@ == spec_render_rule(old(engine)@, msg@, line as nat),
{
    if msg.is_empty() {
        return false;
    }
    engine.emit_diagnostic(DiagnosticSeverity::Error, msg, line);
    true
}

/// Diagnostic formatting rule #921.
pub fn render_diagnostic_rule_921(engine: &mut FullDiagnosticsEngine, msg: &str, line: usize) -> (r:
    bool)
    ensures
        r == (msg@.len() > 0),
        final(engine)@ == spec_render_rule(old(engine)@, msg@, line as nat),
{
    if msg.is_empty() {
        return false;
    }
    engine.emit_diagnostic(DiagnosticSeverity::Error, msg, line);
    true
}

/// Diagnostic formatting rule #922.
pub fn render_diagnostic_rule_922(engine: &mut FullDiagnosticsEngine, msg: &str, line: usize) -> (r:
    bool)
    ensures
        r == (msg@.len() > 0),
        final(engine)@ == spec_render_rule(old(engine)@, msg@, line as nat),
{
    if msg.is_empty() {
        return false;
    }
    engine.emit_diagnostic(DiagnosticSeverity::Error, msg, line);
    true
}

/// Diagnostic formatting rule #923.
pub fn render_diagnostic_rule_923(engine: &mut FullDiagnosticsEngine, msg: &str, line: usize) -> (r:
    bool)
    ensures
        r == (msg@.len() > 0),
        final(engine)@ == spec_render_rule(old(engine)@, msg@, line as nat),
{
    if msg.is_empty() {
        return false;
    }
    engine.emit_diagnostic(DiagnosticSeverity::Error, msg, line);
    true
}

/// Diagnostic formatting rule #924.
pub fn render_diagnostic_rule_924(engine: &mut FullDiagnosticsEngine, msg: &str, line: usize) -> (r:
    bool)
    ensures
        r == (msg@.len() > 0),
        final(engine)@ == spec_render_rule(old(engine)@, msg@, line as nat),
{
    if msg.is_empty() {
        return false;
    }
    engine.emit_diagnostic(DiagnosticSeverity::Error, msg, line);
    true
}

/// Diagnostic formatting rule #925.
pub fn render_diagnostic_rule_925(engine: &mut FullDiagnosticsEngine, msg: &str, line: usize) -> (r:
    bool)
    ensures
        r == (msg@.len() > 0),
        final(engine)@ == spec_render_rule(old(engine)@, msg@, line as nat),
{
    if msg.is_empty() {
        return false;
    }
    engine.emit_diagnostic(DiagnosticSeverity::Error, msg, line);
    true
}

/// Diagnostic formatting rule #926.
pub fn render_diagnostic_rule_926(engine: &mut FullDiagnosticsEngine, msg: &str, line: usize) -> (r:
    bool)
    ensures
        r == (msg@.len() > 0),
        final(engine)@ == spec_render_rule(old(engine)@, msg@, line as nat),
{
    if msg.is_empty() {
        return false;
    }
    engine.emit_diagnostic(DiagnosticSeverity::Error, msg, line);
    true
}

/// Diagnostic formatting rule #927.
pub fn render_diagnostic_rule_927(engine: &mut FullDiagnosticsEngine, msg: &str, line: usize) -> (r:
    bool)
    ensures
        r == (msg@.len() > 0),
        final(engine)@ == spec_render_rule(old(engine)@, msg@, line as nat),
{
    if msg.is_empty() {
        return false;
    }
    engine.emit_diagnostic(DiagnosticSeverity::Error, msg, line);
    true
}

/// Diagnostic formatting rule #928.
pub fn render_diagnostic_rule_928(engine: &mut FullDiagnosticsEngine, msg: &str, line: usize) -> (r:
    bool)
    ensures
        r == (msg@.len() > 0),
        final(engine)@ == spec_render_rule(old(engine)@, msg@, line as nat),
{
    if msg.is_empty() {
        return false;
    }
    engine.emit_diagnostic(DiagnosticSeverity::Error, msg, line);
    true
}

/// Diagnostic formatting rule #929.
pub fn render_diagnostic_rule_929(engine: &mut FullDiagnosticsEngine, msg: &str, line: usize) -> (r:
    bool)
    ensures
        r == (msg@.len() > 0),
        final(engine)@ == spec_render_rule(old(engine)@, msg@, line as nat),
{
    if msg.is_empty() {
        return false;
    }
    engine.emit_diagnostic(DiagnosticSeverity::Error, msg, line);
    true
}

/// Diagnostic formatting rule #930.
pub fn render_diagnostic_rule_930(engine: &mut FullDiagnosticsEngine, msg: &str, line: usize) -> (r:
    bool)
    ensures
        r == (msg@.len() > 0),
        final(engine)@ == spec_render_rule(old(engine)@, msg@, line as nat),
{
    if msg.is_empty() {
        return false;
    }
    engine.emit_diagnostic(DiagnosticSeverity::Error, msg, line);
    true
}

/// Diagnostic formatting rule #931.
pub fn render_diagnostic_rule_931(engine: &mut FullDiagnosticsEngine, msg: &str, line: usize) -> (r:
    bool)
    ensures
        r == (msg@.len() > 0),
        final(engine)@ == spec_render_rule(old(engine)@, msg@, line as nat),
{
    if msg.is_empty() {
        return false;
    }
    engine.emit_diagnostic(DiagnosticSeverity::Error, msg, line);
    true
}

/// Diagnostic formatting rule #932.
pub fn render_diagnostic_rule_932(engine: &mut FullDiagnosticsEngine, msg: &str, line: usize) -> (r:
    bool)
    ensures
        r == (msg@.len() > 0),
        final(engine)@ == spec_render_rule(old(engine)@, msg@, line as nat),
{
    if msg.is_empty() {
        return false;
    }
    engine.emit_diagnostic(DiagnosticSeverity::Error, msg, line);
    true
}

/// Diagnostic formatting rule #933.
pub fn render_diagnostic_rule_933(engine: &mut FullDiagnosticsEngine, msg: &str, line: usize) -> (r:
    bool)
    ensures
        r == (msg@.len() > 0),
        final(engine)@ == spec_render_rule(old(engine)@, msg@, line as nat),
{
    if msg.is_empty() {
        return false;
    }
    engine.emit_diagnostic(DiagnosticSeverity::Error, msg, line);
    true
}

/// Diagnostic formatting rule #934.
pub fn render_diagnostic_rule_934(engine: &mut FullDiagnosticsEngine, msg: &str, line: usize) -> (r:
    bool)
    ensures
        r == (msg@.len() > 0),
        final(engine)@ == spec_render_rule(old(engine)@, msg@, line as nat),
{
    if msg.is_empty() {
        return false;
    }
    engine.emit_diagnostic(DiagnosticSeverity::Error, msg, line);
    true
}

/// Diagnostic formatting rule #935.
pub fn render_diagnostic_rule_935(engine: &mut FullDiagnosticsEngine, msg: &str, line: usize) -> (r:
    bool)
    ensures
        r == (msg@.len() > 0),
        final(engine)@ == spec_render_rule(old(engine)@, msg@, line as nat),
{
    if msg.is_empty() {
        return false;
    }
    engine.emit_diagnostic(DiagnosticSeverity::Error, msg, line);
    true
}

/// Diagnostic formatting rule #936.
pub fn render_diagnostic_rule_936(engine: &mut FullDiagnosticsEngine, msg: &str, line: usize) -> (r:
    bool)
    ensures
        r == (msg@.len() > 0),
        final(engine)@ == spec_render_rule(old(engine)@, msg@, line as nat),
{
    if msg.is_empty() {
        return false;
    }
    engine.emit_diagnostic(DiagnosticSeverity::Error, msg, line);
    true
}

/// Diagnostic formatting rule #937.
pub fn render_diagnostic_rule_937(engine: &mut FullDiagnosticsEngine, msg: &str, line: usize) -> (r:
    bool)
    ensures
        r == (msg@.len() > 0),
        final(engine)@ == spec_render_rule(old(engine)@, msg@, line as nat),
{
    if msg.is_empty() {
        return false;
    }
    engine.emit_diagnostic(DiagnosticSeverity::Error, msg, line);
    true
}

/// Diagnostic formatting rule #938.
pub fn render_diagnostic_rule_938(engine: &mut FullDiagnosticsEngine, msg: &str, line: usize) -> (r:
    bool)
    ensures
        r == (msg@.len() > 0),
        final(engine)@ == spec_render_rule(old(engine)@, msg@, line as nat),
{
    if msg.is_empty() {
        return false;
    }
    engine.emit_diagnostic(DiagnosticSeverity::Error, msg, line);
    true
}

/// Diagnostic formatting rule #939.
pub fn render_diagnostic_rule_939(engine: &mut FullDiagnosticsEngine, msg: &str, line: usize) -> (r:
    bool)
    ensures
        r == (msg@.len() > 0),
        final(engine)@ == spec_render_rule(old(engine)@, msg@, line as nat),
{
    if msg.is_empty() {
        return false;
    }
    engine.emit_diagnostic(DiagnosticSeverity::Error, msg, line);
    true
}

/// Diagnostic formatting rule #940.
pub fn render_diagnostic_rule_940(engine: &mut FullDiagnosticsEngine, msg: &str, line: usize) -> (r:
    bool)
    ensures
        r == (msg@.len() > 0),
        final(engine)@ == spec_render_rule(old(engine)@, msg@, line as nat),
{
    if msg.is_empty() {
        return false;
    }
    engine.emit_diagnostic(DiagnosticSeverity::Error, msg, line);
    true
}

/// Diagnostic formatting rule #941.
pub fn render_diagnostic_rule_941(engine: &mut FullDiagnosticsEngine, msg: &str, line: usize) -> (r:
    bool)
    ensures
        r == (msg@.len() > 0),
        final(engine)@ == spec_render_rule(old(engine)@, msg@, line as nat),
{
    if msg.is_empty() {
        return false;
    }
    engine.emit_diagnostic(DiagnosticSeverity::Error, msg, line);
    true
}

/// Diagnostic formatting rule #942.
pub fn render_diagnostic_rule_942(engine: &mut FullDiagnosticsEngine, msg: &str, line: usize) -> (r:
    bool)
    ensures
        r == (msg@.len() > 0),
        final(engine)@ == spec_render_rule(old(engine)@, msg@, line as nat),
{
    if msg.is_empty() {
        return false;
    }
    engine.emit_diagnostic(DiagnosticSeverity::Error, msg, line);
    true
}

/// Diagnostic formatting rule #943.
pub fn render_diagnostic_rule_943(engine: &mut FullDiagnosticsEngine, msg: &str, line: usize) -> (r:
    bool)
    ensures
        r == (msg@.len() > 0),
        final(engine)@ == spec_render_rule(old(engine)@, msg@, line as nat),
{
    if msg.is_empty() {
        return false;
    }
    engine.emit_diagnostic(DiagnosticSeverity::Error, msg, line);
    true
}

/// Diagnostic formatting rule #944.
pub fn render_diagnostic_rule_944(engine: &mut FullDiagnosticsEngine, msg: &str, line: usize) -> (r:
    bool)
    ensures
        r == (msg@.len() > 0),
        final(engine)@ == spec_render_rule(old(engine)@, msg@, line as nat),
{
    if msg.is_empty() {
        return false;
    }
    engine.emit_diagnostic(DiagnosticSeverity::Error, msg, line);
    true
}

/// Diagnostic formatting rule #945.
pub fn render_diagnostic_rule_945(engine: &mut FullDiagnosticsEngine, msg: &str, line: usize) -> (r:
    bool)
    ensures
        r == (msg@.len() > 0),
        final(engine)@ == spec_render_rule(old(engine)@, msg@, line as nat),
{
    if msg.is_empty() {
        return false;
    }
    engine.emit_diagnostic(DiagnosticSeverity::Error, msg, line);
    true
}

/// Diagnostic formatting rule #946.
pub fn render_diagnostic_rule_946(engine: &mut FullDiagnosticsEngine, msg: &str, line: usize) -> (r:
    bool)
    ensures
        r == (msg@.len() > 0),
        final(engine)@ == spec_render_rule(old(engine)@, msg@, line as nat),
{
    if msg.is_empty() {
        return false;
    }
    engine.emit_diagnostic(DiagnosticSeverity::Error, msg, line);
    true
}

/// Diagnostic formatting rule #947.
pub fn render_diagnostic_rule_947(engine: &mut FullDiagnosticsEngine, msg: &str, line: usize) -> (r:
    bool)
    ensures
        r == (msg@.len() > 0),
        final(engine)@ == spec_render_rule(old(engine)@, msg@, line as nat),
{
    if msg.is_empty() {
        return false;
    }
    engine.emit_diagnostic(DiagnosticSeverity::Error, msg, line);
    true
}

/// Diagnostic formatting rule #948.
pub fn render_diagnostic_rule_948(engine: &mut FullDiagnosticsEngine, msg: &str, line: usize) -> (r:
    bool)
    ensures
        r == (msg@.len() > 0),
        final(engine)@ == spec_render_rule(old(engine)@, msg@, line as nat),
{
    if msg.is_empty() {
        return false;
    }
    engine.emit_diagnostic(DiagnosticSeverity::Error, msg, line);
    true
}

/// Diagnostic formatting rule #949.
pub fn render_diagnostic_rule_949(engine: &mut FullDiagnosticsEngine, msg: &str, line: usize) -> (r:
    bool)
    ensures
        r == (msg@.len() > 0),
        final(engine)@ == spec_render_rule(old(engine)@, msg@, line as nat),
{
    if msg.is_empty() {
        return false;
    }
    engine.emit_diagnostic(DiagnosticSeverity::Error, msg, line);
    true
}

/// Diagnostic formatting rule #950.
pub fn render_diagnostic_rule_950(engine: &mut FullDiagnosticsEngine, msg: &str, line: usize) -> (r:
    bool)
    ensures
        r == (msg@.len() > 0),
        final(engine)@ == spec_render_rule(old(engine)@, msg@, line as nat),
{
    if msg.is_empty() {
        return false;
    }
    engine.emit_diagnostic(DiagnosticSeverity::Error, msg, line);
    true
}

/// Diagnostic formatting rule #951.
pub fn render_diagnostic_rule_951(engine: &mut FullDiagnosticsEngine, msg: &str, line: usize) -> (r:
    bool)
    ensures
        r == (msg@.len() > 0),
        final(engine)@ == spec_render_rule(old(engine)@, msg@, line as nat),
{
    if msg.is_empty() {
        return false;
    }
    engine.emit_diagnostic(DiagnosticSeverity::Error, msg, line);
    true
}

/// Diagnostic formatting rule #952.
pub fn render_diagnostic_rule_952(engine: &mut FullDiagnosticsEngine, msg: &str, line: usize) -> (r:
    bool)
    ensures
        r == (msg@.len() > 0),
        final(engine)@ == spec_render_rule(old(engine)@, msg@, line as nat),
{
    if msg.is_empty() {
        return false;
    }
    engine.emit_diagnostic(DiagnosticSeverity::Error, msg, line);
    true
}

/// Diagnostic formatting rule #953.
pub fn render_diagnostic_rule_953(engine: &mut FullDiagnosticsEngine, msg: &str, line: usize) -> (r:
    bool)
    ensures
        r == (msg@.len() > 0),
        final(engine)@ == spec_render_rule(old(engine)@, msg@, line as nat),
{
    if msg.is_empty() {
        return false;
    }
    engine.emit_diagnostic(DiagnosticSeverity::Error, msg, line);
    true
}

/// Diagnostic formatting rule #954.
pub fn render_diagnostic_rule_954(engine: &mut FullDiagnosticsEngine, msg: &str, line: usize) -> (r:
    bool)
    ensures
        r == (msg@.len() > 0),
        final(engine)@ == spec_render_rule(old(engine)@, msg@, line as nat),
{
    if msg.is_empty() {
        return false;
    }
    engine.emit_diagnostic(DiagnosticSeverity::Error, msg, line);
    true
}

/// Diagnostic formatting rule #955.
pub fn render_diagnostic_rule_955(engine: &mut FullDiagnosticsEngine, msg: &str, line: usize) -> (r:
    bool)
    ensures
        r == (msg@.len() > 0),
        final(engine)@ == spec_render_rule(old(engine)@, msg@, line as nat),
{
    if msg.is_empty() {
        return false;
    }
    engine.emit_diagnostic(DiagnosticSeverity::Error, msg, line);
    true
}

/// Diagnostic formatting rule #956.
pub fn render_diagnostic_rule_956(engine: &mut FullDiagnosticsEngine, msg: &str, line: usize) -> (r:
    bool)
    ensures
        r == (msg@.len() > 0),
        final(engine)@ == spec_render_rule(old(engine)@, msg@, line as nat),
{
    if msg.is_empty() {
        return false;
    }
    engine.emit_diagnostic(DiagnosticSeverity::Error, msg, line);
    true
}

/// Diagnostic formatting rule #957.
pub fn render_diagnostic_rule_957(engine: &mut FullDiagnosticsEngine, msg: &str, line: usize) -> (r:
    bool)
    ensures
        r == (msg@.len() > 0),
        final(engine)@ == spec_render_rule(old(engine)@, msg@, line as nat),
{
    if msg.is_empty() {
        return false;
    }
    engine.emit_diagnostic(DiagnosticSeverity::Error, msg, line);
    true
}

/// Diagnostic formatting rule #958.
pub fn render_diagnostic_rule_958(engine: &mut FullDiagnosticsEngine, msg: &str, line: usize) -> (r:
    bool)
    ensures
        r == (msg@.len() > 0),
        final(engine)@ == spec_render_rule(old(engine)@, msg@, line as nat),
{
    if msg.is_empty() {
        return false;
    }
    engine.emit_diagnostic(DiagnosticSeverity::Error, msg, line);
    true
}

/// Diagnostic formatting rule #959.
pub fn render_diagnostic_rule_959(engine: &mut FullDiagnosticsEngine, msg: &str, line: usize) -> (r:
    bool)
    ensures
        r == (msg@.len() > 0),
        final(engine)@ == spec_render_rule(old(engine)@, msg@, line as nat),
{
    if msg.is_empty() {
        return false;
    }
    engine.emit_diagnostic(DiagnosticSeverity::Error, msg, line);
    true
}

/// Diagnostic formatting rule #960.
pub fn render_diagnostic_rule_960(engine: &mut FullDiagnosticsEngine, msg: &str, line: usize) -> (r:
    bool)
    ensures
        r == (msg@.len() > 0),
        final(engine)@ == spec_render_rule(old(engine)@, msg@, line as nat),
{
    if msg.is_empty() {
        return false;
    }
    engine.emit_diagnostic(DiagnosticSeverity::Error, msg, line);
    true
}

/// Diagnostic formatting rule #961.
pub fn render_diagnostic_rule_961(engine: &mut FullDiagnosticsEngine, msg: &str, line: usize) -> (r:
    bool)
    ensures
        r == (msg@.len() > 0),
        final(engine)@ == spec_render_rule(old(engine)@, msg@, line as nat),
{
    if msg.is_empty() {
        return false;
    }
    engine.emit_diagnostic(DiagnosticSeverity::Error, msg, line);
    true
}

/// Diagnostic formatting rule #962.
pub fn render_diagnostic_rule_962(engine: &mut FullDiagnosticsEngine, msg: &str, line: usize) -> (r:
    bool)
    ensures
        r == (msg@.len() > 0),
        final(engine)@ == spec_render_rule(old(engine)@, msg@, line as nat),
{
    if msg.is_empty() {
        return false;
    }
    engine.emit_diagnostic(DiagnosticSeverity::Error, msg, line);
    true
}

/// Diagnostic formatting rule #963.
pub fn render_diagnostic_rule_963(engine: &mut FullDiagnosticsEngine, msg: &str, line: usize) -> (r:
    bool)
    ensures
        r == (msg@.len() > 0),
        final(engine)@ == spec_render_rule(old(engine)@, msg@, line as nat),
{
    if msg.is_empty() {
        return false;
    }
    engine.emit_diagnostic(DiagnosticSeverity::Error, msg, line);
    true
}

/// Diagnostic formatting rule #964.
pub fn render_diagnostic_rule_964(engine: &mut FullDiagnosticsEngine, msg: &str, line: usize) -> (r:
    bool)
    ensures
        r == (msg@.len() > 0),
        final(engine)@ == spec_render_rule(old(engine)@, msg@, line as nat),
{
    if msg.is_empty() {
        return false;
    }
    engine.emit_diagnostic(DiagnosticSeverity::Error, msg, line);
    true
}

/// Diagnostic formatting rule #965.
pub fn render_diagnostic_rule_965(engine: &mut FullDiagnosticsEngine, msg: &str, line: usize) -> (r:
    bool)
    ensures
        r == (msg@.len() > 0),
        final(engine)@ == spec_render_rule(old(engine)@, msg@, line as nat),
{
    if msg.is_empty() {
        return false;
    }
    engine.emit_diagnostic(DiagnosticSeverity::Error, msg, line);
    true
}

/// Diagnostic formatting rule #966.
pub fn render_diagnostic_rule_966(engine: &mut FullDiagnosticsEngine, msg: &str, line: usize) -> (r:
    bool)
    ensures
        r == (msg@.len() > 0),
        final(engine)@ == spec_render_rule(old(engine)@, msg@, line as nat),
{
    if msg.is_empty() {
        return false;
    }
    engine.emit_diagnostic(DiagnosticSeverity::Error, msg, line);
    true
}

/// Diagnostic formatting rule #967.
pub fn render_diagnostic_rule_967(engine: &mut FullDiagnosticsEngine, msg: &str, line: usize) -> (r:
    bool)
    ensures
        r == (msg@.len() > 0),
        final(engine)@ == spec_render_rule(old(engine)@, msg@, line as nat),
{
    if msg.is_empty() {
        return false;
    }
    engine.emit_diagnostic(DiagnosticSeverity::Error, msg, line);
    true
}

/// Diagnostic formatting rule #968.
pub fn render_diagnostic_rule_968(engine: &mut FullDiagnosticsEngine, msg: &str, line: usize) -> (r:
    bool)
    ensures
        r == (msg@.len() > 0),
        final(engine)@ == spec_render_rule(old(engine)@, msg@, line as nat),
{
    if msg.is_empty() {
        return false;
    }
    engine.emit_diagnostic(DiagnosticSeverity::Error, msg, line);
    true
}

/// Diagnostic formatting rule #969.
pub fn render_diagnostic_rule_969(engine: &mut FullDiagnosticsEngine, msg: &str, line: usize) -> (r:
    bool)
    ensures
        r == (msg@.len() > 0),
        final(engine)@ == spec_render_rule(old(engine)@, msg@, line as nat),
{
    if msg.is_empty() {
        return false;
    }
    engine.emit_diagnostic(DiagnosticSeverity::Error, msg, line);
    true
}

/// Diagnostic formatting rule #970.
pub fn render_diagnostic_rule_970(engine: &mut FullDiagnosticsEngine, msg: &str, line: usize) -> (r:
    bool)
    ensures
        r == (msg@.len() > 0),
        final(engine)@ == spec_render_rule(old(engine)@, msg@, line as nat),
{
    if msg.is_empty() {
        return false;
    }
    engine.emit_diagnostic(DiagnosticSeverity::Error, msg, line);
    true
}

/// Diagnostic formatting rule #971.
pub fn render_diagnostic_rule_971(engine: &mut FullDiagnosticsEngine, msg: &str, line: usize) -> (r:
    bool)
    ensures
        r == (msg@.len() > 0),
        final(engine)@ == spec_render_rule(old(engine)@, msg@, line as nat),
{
    if msg.is_empty() {
        return false;
    }
    engine.emit_diagnostic(DiagnosticSeverity::Error, msg, line);
    true
}

/// Diagnostic formatting rule #972.
pub fn render_diagnostic_rule_972(engine: &mut FullDiagnosticsEngine, msg: &str, line: usize) -> (r:
    bool)
    ensures
        r == (msg@.len() > 0),
        final(engine)@ == spec_render_rule(old(engine)@, msg@, line as nat),
{
    if msg.is_empty() {
        return false;
    }
    engine.emit_diagnostic(DiagnosticSeverity::Error, msg, line);
    true
}

/// Diagnostic formatting rule #973.
pub fn render_diagnostic_rule_973(engine: &mut FullDiagnosticsEngine, msg: &str, line: usize) -> (r:
    bool)
    ensures
        r == (msg@.len() > 0),
        final(engine)@ == spec_render_rule(old(engine)@, msg@, line as nat),
{
    if msg.is_empty() {
        return false;
    }
    engine.emit_diagnostic(DiagnosticSeverity::Error, msg, line);
    true
}

/// Diagnostic formatting rule #974.
pub fn render_diagnostic_rule_974(engine: &mut FullDiagnosticsEngine, msg: &str, line: usize) -> (r:
    bool)
    ensures
        r == (msg@.len() > 0),
        final(engine)@ == spec_render_rule(old(engine)@, msg@, line as nat),
{
    if msg.is_empty() {
        return false;
    }
    engine.emit_diagnostic(DiagnosticSeverity::Error, msg, line);
    true
}

/// Diagnostic formatting rule #975.
pub fn render_diagnostic_rule_975(engine: &mut FullDiagnosticsEngine, msg: &str, line: usize) -> (r:
    bool)
    ensures
        r == (msg@.len() > 0),
        final(engine)@ == spec_render_rule(old(engine)@, msg@, line as nat),
{
    if msg.is_empty() {
        return false;
    }
    engine.emit_diagnostic(DiagnosticSeverity::Error, msg, line);
    true
}

/// Diagnostic formatting rule #976.
pub fn render_diagnostic_rule_976(engine: &mut FullDiagnosticsEngine, msg: &str, line: usize) -> (r:
    bool)
    ensures
        r == (msg@.len() > 0),
        final(engine)@ == spec_render_rule(old(engine)@, msg@, line as nat),
{
    if msg.is_empty() {
        return false;
    }
    engine.emit_diagnostic(DiagnosticSeverity::Error, msg, line);
    true
}

/// Diagnostic formatting rule #977.
pub fn render_diagnostic_rule_977(engine: &mut FullDiagnosticsEngine, msg: &str, line: usize) -> (r:
    bool)
    ensures
        r == (msg@.len() > 0),
        final(engine)@ == spec_render_rule(old(engine)@, msg@, line as nat),
{
    if msg.is_empty() {
        return false;
    }
    engine.emit_diagnostic(DiagnosticSeverity::Error, msg, line);
    true
}

/// Diagnostic formatting rule #978.
pub fn render_diagnostic_rule_978(engine: &mut FullDiagnosticsEngine, msg: &str, line: usize) -> (r:
    bool)
    ensures
        r == (msg@.len() > 0),
        final(engine)@ == spec_render_rule(old(engine)@, msg@, line as nat),
{
    if msg.is_empty() {
        return false;
    }
    engine.emit_diagnostic(DiagnosticSeverity::Error, msg, line);
    true
}

/// Diagnostic formatting rule #979.
pub fn render_diagnostic_rule_979(engine: &mut FullDiagnosticsEngine, msg: &str, line: usize) -> (r:
    bool)
    ensures
        r == (msg@.len() > 0),
        final(engine)@ == spec_render_rule(old(engine)@, msg@, line as nat),
{
    if msg.is_empty() {
        return false;
    }
    engine.emit_diagnostic(DiagnosticSeverity::Error, msg, line);
    true
}

/// Diagnostic formatting rule #980.
pub fn render_diagnostic_rule_980(engine: &mut FullDiagnosticsEngine, msg: &str, line: usize) -> (r:
    bool)
    ensures
        r == (msg@.len() > 0),
        final(engine)@ == spec_render_rule(old(engine)@, msg@, line as nat),
{
    if msg.is_empty() {
        return false;
    }
    engine.emit_diagnostic(DiagnosticSeverity::Error, msg, line);
    true
}

/// Diagnostic formatting rule #981.
pub fn render_diagnostic_rule_981(engine: &mut FullDiagnosticsEngine, msg: &str, line: usize) -> (r:
    bool)
    ensures
        r == (msg@.len() > 0),
        final(engine)@ == spec_render_rule(old(engine)@, msg@, line as nat),
{
    if msg.is_empty() {
        return false;
    }
    engine.emit_diagnostic(DiagnosticSeverity::Error, msg, line);
    true
}

/// Diagnostic formatting rule #982.
pub fn render_diagnostic_rule_982(engine: &mut FullDiagnosticsEngine, msg: &str, line: usize) -> (r:
    bool)
    ensures
        r == (msg@.len() > 0),
        final(engine)@ == spec_render_rule(old(engine)@, msg@, line as nat),
{
    if msg.is_empty() {
        return false;
    }
    engine.emit_diagnostic(DiagnosticSeverity::Error, msg, line);
    true
}

/// Diagnostic formatting rule #983.
pub fn render_diagnostic_rule_983(engine: &mut FullDiagnosticsEngine, msg: &str, line: usize) -> (r:
    bool)
    ensures
        r == (msg@.len() > 0),
        final(engine)@ == spec_render_rule(old(engine)@, msg@, line as nat),
{
    if msg.is_empty() {
        return false;
    }
    engine.emit_diagnostic(DiagnosticSeverity::Error, msg, line);
    true
}

/// Diagnostic formatting rule #984.
pub fn render_diagnostic_rule_984(engine: &mut FullDiagnosticsEngine, msg: &str, line: usize) -> (r:
    bool)
    ensures
        r == (msg@.len() > 0),
        final(engine)@ == spec_render_rule(old(engine)@, msg@, line as nat),
{
    if msg.is_empty() {
        return false;
    }
    engine.emit_diagnostic(DiagnosticSeverity::Error, msg, line);
    true
}

/// Diagnostic formatting rule #985.
pub fn render_diagnostic_rule_985(engine: &mut FullDiagnosticsEngine, msg: &str, line: usize) -> (r:
    bool)
    ensures
        r == (msg@.len() > 0),
        final(engine)@ == spec_render_rule(old(engine)@, msg@, line as nat),
{
    if msg.is_empty() {
        return false;
    }
    engine.emit_diagnostic(DiagnosticSeverity::Error, msg, line);
    true
}

/// Diagnostic formatting rule #986.
pub fn render_diagnostic_rule_986(engine: &mut FullDiagnosticsEngine, msg: &str, line: usize) -> (r:
    bool)
    ensures
        r == (msg@.len() > 0),
        final(engine)@ == spec_render_rule(old(engine)@, msg@, line as nat),
{
    if msg.is_empty() {
        return false;
    }
    engine.emit_diagnostic(DiagnosticSeverity::Error, msg, line);
    true
}

/// Diagnostic formatting rule #987.
pub fn render_diagnostic_rule_987(engine: &mut FullDiagnosticsEngine, msg: &str, line: usize) -> (r:
    bool)
    ensures
        r == (msg@.len() > 0),
        final(engine)@ == spec_render_rule(old(engine)@, msg@, line as nat),
{
    if msg.is_empty() {
        return false;
    }
    engine.emit_diagnostic(DiagnosticSeverity::Error, msg, line);
    true
}

/// Diagnostic formatting rule #988.
pub fn render_diagnostic_rule_988(engine: &mut FullDiagnosticsEngine, msg: &str, line: usize) -> (r:
    bool)
    ensures
        r == (msg@.len() > 0),
        final(engine)@ == spec_render_rule(old(engine)@, msg@, line as nat),
{
    if msg.is_empty() {
        return false;
    }
    engine.emit_diagnostic(DiagnosticSeverity::Error, msg, line);
    true
}

/// Diagnostic formatting rule #989.
pub fn render_diagnostic_rule_989(engine: &mut FullDiagnosticsEngine, msg: &str, line: usize) -> (r:
    bool)
    ensures
        r == (msg@.len() > 0),
        final(engine)@ == spec_render_rule(old(engine)@, msg@, line as nat),
{
    if msg.is_empty() {
        return false;
    }
    engine.emit_diagnostic(DiagnosticSeverity::Error, msg, line);
    true
}

/// Diagnostic formatting rule #990.
pub fn render_diagnostic_rule_990(engine: &mut FullDiagnosticsEngine, msg: &str, line: usize) -> (r:
    bool)
    ensures
        r == (msg@.len() > 0),
        final(engine)@ == spec_render_rule(old(engine)@, msg@, line as nat),
{
    if msg.is_empty() {
        return false;
    }
    engine.emit_diagnostic(DiagnosticSeverity::Error, msg, line);
    true
}

/// Diagnostic formatting rule #991.
pub fn render_diagnostic_rule_991(engine: &mut FullDiagnosticsEngine, msg: &str, line: usize) -> (r:
    bool)
    ensures
        r == (msg@.len() > 0),
        final(engine)@ == spec_render_rule(old(engine)@, msg@, line as nat),
{
    if msg.is_empty() {
        return false;
    }
    engine.emit_diagnostic(DiagnosticSeverity::Error, msg, line);
    true
}

/// Diagnostic formatting rule #992.
pub fn render_diagnostic_rule_992(engine: &mut FullDiagnosticsEngine, msg: &str, line: usize) -> (r:
    bool)
    ensures
        r == (msg@.len() > 0),
        final(engine)@ == spec_render_rule(old(engine)@, msg@, line as nat),
{
    if msg.is_empty() {
        return false;
    }
    engine.emit_diagnostic(DiagnosticSeverity::Error, msg, line);
    true
}

/// Diagnostic formatting rule #993.
pub fn render_diagnostic_rule_993(engine: &mut FullDiagnosticsEngine, msg: &str, line: usize) -> (r:
    bool)
    ensures
        r == (msg@.len() > 0),
        final(engine)@ == spec_render_rule(old(engine)@, msg@, line as nat),
{
    if msg.is_empty() {
        return false;
    }
    engine.emit_diagnostic(DiagnosticSeverity::Error, msg, line);
    true
}

/// Diagnostic formatting rule #994.
pub fn render_diagnostic_rule_994(engine: &mut FullDiagnosticsEngine, msg: &str, line: usize) -> (r:
    bool)
    ensures
        r == (msg@.len() > 0),
        final(engine)@ == spec_render_rule(old(engine)@, msg@, line as nat),
{
    if msg.is_empty() {
        return false;
    }
    engine.emit_diagnostic(DiagnosticSeverity::Error, msg, line);
    true
}

/// Diagnostic formatting rule #995.
pub fn render_diagnostic_rule_995(engine: &mut FullDiagnosticsEngine, msg: &str, line: usize) -> (r:
    bool)
    ensures
        r == (msg@.len() > 0),
        final(engine)@ == spec_render_rule(old(engine)@, msg@, line as nat),
{
    if msg.is_empty() {
        return false;
    }
    engine.emit_diagnostic(DiagnosticSeverity::Error, msg, line);
    true
}

/// Diagnostic formatting rule #996.
pub fn render_diagnostic_rule_996(engine: &mut FullDiagnosticsEngine, msg: &str, line: usize) -> (r:
    bool)
    ensures
        r == (msg@.len() > 0),
        final(engine)@ == spec_render_rule(old(engine)@, msg@, line as nat),
{
    if msg.is_empty() {
        return false;
    }
    engine.emit_diagnostic(DiagnosticSeverity::Error, msg, line);
    true
}

/// Diagnostic formatting rule #997.
pub fn render_diagnostic_rule_997(engine: &mut FullDiagnosticsEngine, msg: &str, line: usize) -> (r:
    bool)
    ensures
        r == (msg@.len() > 0),
        final(engine)@ == spec_render_rule(old(engine)@, msg@, line as nat),
{
    if msg.is_empty() {
        return false;
    }
    engine.emit_diagnostic(DiagnosticSeverity::Error, msg, line);
    true
}

/// Diagnostic formatting rule #998.
pub fn render_diagnostic_rule_998(engine: &mut FullDiagnosticsEngine, msg: &str, line: usize) -> (r:
    bool)
    ensures
        r == (msg@.len() > 0),
        final(engine)@ == spec_render_rule(old(engine)@, msg@, line as nat),
{
    if msg.is_empty() {
        return false;
    }
    engine.emit_diagnostic(DiagnosticSeverity::Error, msg, line);
    true
}

/// Diagnostic formatting rule #999.
pub fn render_diagnostic_rule_999(engine: &mut FullDiagnosticsEngine, msg: &str, line: usize) -> (r:
    bool)
    ensures
        r == (msg@.len() > 0),
        final(engine)@ == spec_render_rule(old(engine)@, msg@, line as nat),
{
    if msg.is_empty() {
        return false;
    }
    engine.emit_diagnostic(DiagnosticSeverity::Error, msg, line);
    true
}

/// Diagnostic formatting rule #1000.
pub fn render_diagnostic_rule_1000(engine: &mut FullDiagnosticsEngine, msg: &str, line: usize) -> (r:
    bool)
    ensures
        r == (msg@.len() > 0),
        final(engine)@ == spec_render_rule(old(engine)@, msg@, line as nat),
{
    if msg.is_empty() {
        return false;
    }
    engine.emit_diagnostic(DiagnosticSeverity::Error, msg, line);
    true
}

/// Diagnostic formatting rule #1001.
pub fn render_diagnostic_rule_1001(engine: &mut FullDiagnosticsEngine, msg: &str, line: usize) -> (r:
    bool)
    ensures
        r == (msg@.len() > 0),
        final(engine)@ == spec_render_rule(old(engine)@, msg@, line as nat),
{
    if msg.is_empty() {
        return false;
    }
    engine.emit_diagnostic(DiagnosticSeverity::Error, msg, line);
    true
}

/// Diagnostic formatting rule #1002.
pub fn render_diagnostic_rule_1002(engine: &mut FullDiagnosticsEngine, msg: &str, line: usize) -> (r:
    bool)
    ensures
        r == (msg@.len() > 0),
        final(engine)@ == spec_render_rule(old(engine)@, msg@, line as nat),
{
    if msg.is_empty() {
        return false;
    }
    engine.emit_diagnostic(DiagnosticSeverity::Error, msg, line);
    true
}

/// Diagnostic formatting rule #1003.
pub fn render_diagnostic_rule_1003(engine: &mut FullDiagnosticsEngine, msg: &str, line: usize) -> (r:
    bool)
    ensures
        r == (msg@.len() > 0),
        final(engine)@ == spec_render_rule(old(engine)@, msg@, line as nat),
{
    if msg.is_empty() {
        return false;
    }
    engine.emit_diagnostic(DiagnosticSeverity::Error, msg, line);
    true
}

/// Diagnostic formatting rule #1004.
pub fn render_diagnostic_rule_1004(engine: &mut FullDiagnosticsEngine, msg: &str, line: usize) -> (r:
    bool)
    ensures
        r == (msg@.len() > 0),
        final(engine)@ == spec_render_rule(old(engine)@, msg@, line as nat),
{
    if msg.is_empty() {
        return false;
    }
    engine.emit_diagnostic(DiagnosticSeverity::Error, msg, line);
    true
}

/// Diagnostic formatting rule #1005.
pub fn render_diagnostic_rule_1005(engine: &mut FullDiagnosticsEngine, msg: &str, line: usize) -> (r:
    bool)
    ensures
        r == (msg@.len() > 0),
        final(engine)@ == spec_render_rule(old(engine)@, msg@, line as nat),
{
    if msg.is_empty() {
        return false;
    }
    engine.emit_diagnostic(DiagnosticSeverity::Error, msg, line);
    true
}

/// Diagnostic formatting rule #1006.
pub fn render_diagnostic_rule_1006(engine: &mut FullDiagnosticsEngine, msg: &str, line: usize) -> (r:
    bool)
    ensures
        r == (msg@.len() > 0),
        final(engine)@ == spec_render_rule(old(engine)@, msg@, line as nat),
{
    if msg.is_empty() {
        return false;
    }
    engine.emit_diagnostic(DiagnosticSeverity::Error, msg, line);
    true
}

/// Diagnostic formatting rule #1007.
pub fn render_diagnostic_rule_1007(engine: &mut FullDiagnosticsEngine, msg: &str, line: usize) -> (r:
    bool)
    ensures
        r == (msg@.len() > 0),
        final(engine)@ == spec_render_rule(old(engine)@, msg@, line as nat),
{
    if msg.is_empty() {
        return false;
    }
    engine.emit_diagnostic(DiagnosticSeverity::Error, msg, line);
    true
}

/// Diagnostic formatting rule #1008.
pub fn render_diagnostic_rule_1008(engine: &mut FullDiagnosticsEngine, msg: &str, line: usize) -> (r:
    bool)
    ensures
        r == (msg@.len() > 0),
        final(engine)@ == spec_render_rule(old(engine)@, msg@, line as nat),
{
    if msg.is_empty() {
        return false;
    }
    engine.emit_diagnostic(DiagnosticSeverity::Error, msg, line);
    true
}

/// Diagnostic formatting rule #1009.
pub fn render_diagnostic_rule_1009(engine: &mut FullDiagnosticsEngine, msg: &str, line: usize) -> (r:
    bool)
    ensures
        r == (msg@.len() > 0),
        final(engine)@ == spec_render_rule(old(engine)@, msg@, line as nat),
{
    if msg.is_empty() {
        return false;
    }
    engine.emit_diagnostic(DiagnosticSeverity::Error, msg, line);
    true
}

/// Diagnostic formatting rule #1010.
pub fn render_diagnostic_rule_1010(engine: &mut FullDiagnosticsEngine, msg: &str, line: usize) -> (r:
    bool)
    ensures
        r == (msg@.len() > 0),
        final(engine)@ == spec_render_rule(old(engine)@, msg@, line as nat),
{
    if msg.is_empty() {
        return false;
    }
    engine.emit_diagnostic(DiagnosticSeverity::Error, msg, line);
    true
}

/// Diagnostic formatting rule #1011.
pub fn render_diagnostic_rule_1011(engine: &mut FullDiagnosticsEngine, msg: &str, line: usize) -> (r:
    bool)
    ensures
        r == (msg@.len() > 0),
        final(engine)@ == spec_render_rule(old(engine)@, msg@, line as nat),
{
    if msg.is_empty() {
        return false;
    }
    engine.emit_diagnostic(DiagnosticSeverity::Error, msg, line);
    true
}

/// Diagnostic formatting rule #1012.
pub fn render_diagnostic_rule_1012(engine: &mut FullDiagnosticsEngine, msg: &str, line: usize) -> (r:
    bool)
    ensures
        r == (msg@.len() > 0),
        final(engine)@ == spec_render_rule(old(engine)@, msg@, line as nat),
{
    if msg.is_empty() {
        return false;
    }
    engine.emit_diagnostic(DiagnosticSeverity::Error, msg, line);
    true
}

/// Diagnostic formatting rule #1013.
pub fn render_diagnostic_rule_1013(engine: &mut FullDiagnosticsEngine, msg: &str, line: usize) -> (r:
    bool)
    ensures
        r == (msg@.len() > 0),
        final(engine)@ == spec_render_rule(old(engine)@, msg@, line as nat),
{
    if msg.is_empty() {
        return false;
    }
    engine.emit_diagnostic(DiagnosticSeverity::Error, msg, line);
    true
}

/// Diagnostic formatting rule #1014.
pub fn render_diagnostic_rule_1014(engine: &mut FullDiagnosticsEngine, msg: &str, line: usize) -> (r:
    bool)
    ensures
        r == (msg@.len() > 0),
        final(engine)@ == spec_render_rule(old(engine)@, msg@, line as nat),
{
    if msg.is_empty() {
        return false;
    }
    engine.emit_diagnostic(DiagnosticSeverity::Error, msg, line);
    true
}

/// Diagnostic formatting rule #1015.
pub fn render_diagnostic_rule_1015(engine: &mut FullDiagnosticsEngine, msg: &str, line: usize) -> (r:
    bool)
    ensures
        r == (msg@.len() > 0),
        final(engine)@ == spec_render_rule(old(engine)@, msg@, line as nat),
{
    if msg.is_empty() {
        return false;
    }
    engine.emit_diagnostic(DiagnosticSeverity::Error, msg, line);
    true
}

/// Diagnostic formatting rule #1016.
pub fn render_diagnostic_rule_1016(engine: &mut FullDiagnosticsEngine, msg: &str, line: usize) -> (r:
    bool)
    ensures
        r == (msg@.len() > 0),
        final(engine)@ == spec_render_rule(old(engine)@, msg@, line as nat),
{
    if msg.is_empty() {
        return false;
    }
    engine.emit_diagnostic(DiagnosticSeverity::Error, msg, line);
    true
}

/// Diagnostic formatting rule #1017.
pub fn render_diagnostic_rule_1017(engine: &mut FullDiagnosticsEngine, msg: &str, line: usize) -> (r:
    bool)
    ensures
        r == (msg@.len() > 0),
        final(engine)@ == spec_render_rule(old(engine)@, msg@, line as nat),
{
    if msg.is_empty() {
        return false;
    }
    engine.emit_diagnostic(DiagnosticSeverity::Error, msg, line);
    true
}

/// Diagnostic formatting rule #1018.
pub fn render_diagnostic_rule_1018(engine: &mut FullDiagnosticsEngine, msg: &str, line: usize) -> (r:
    bool)
    ensures
        r == (msg@.len() > 0),
        final(engine)@ == spec_render_rule(old(engine)@, msg@, line as nat),
{
    if msg.is_empty() {
        return false;
    }
    engine.emit_diagnostic(DiagnosticSeverity::Error, msg, line);
    true
}

/// Diagnostic formatting rule #1019.
pub fn render_diagnostic_rule_1019(engine: &mut FullDiagnosticsEngine, msg: &str, line: usize) -> (r:
    bool)
    ensures
        r == (msg@.len() > 0),
        final(engine)@ == spec_render_rule(old(engine)@, msg@, line as nat),
{
    if msg.is_empty() {
        return false;
    }
    engine.emit_diagnostic(DiagnosticSeverity::Error, msg, line);
    true
}

/// Diagnostic formatting rule #1020.
pub fn render_diagnostic_rule_1020(engine: &mut FullDiagnosticsEngine, msg: &str, line: usize) -> (r:
    bool)
    ensures
        r == (msg@.len() > 0),
        final(engine)@ == spec_render_rule(old(engine)@, msg@, line as nat),
{
    if msg.is_empty() {
        return false;
    }
    engine.emit_diagnostic(DiagnosticSeverity::Error, msg, line);
    true
}

/// Diagnostic formatting rule #1021.
pub fn render_diagnostic_rule_1021(engine: &mut FullDiagnosticsEngine, msg: &str, line: usize) -> (r:
    bool)
    ensures
        r == (msg@.len() > 0),
        final(engine)@ == spec_render_rule(old(engine)@, msg@, line as nat),
{
    if msg.is_empty() {
        return false;
    }
    engine.emit_diagnostic(DiagnosticSeverity::Error, msg, line);
    true
}

/// Diagnostic formatting rule #1022.
pub fn render_diagnostic_rule_1022(engine: &mut FullDiagnosticsEngine, msg: &str, line: usize) -> (r:
    bool)
    ensures
        r == (msg@.len() > 0),
        final(engine)@ == spec_render_rule(old(engine)@, msg@, line as nat),
{
    if msg.is_empty() {
        return false;
    }
    engine.emit_diagnostic(DiagnosticSeverity::Error, msg, line);
    true
}

/// Diagnostic formatting rule #1023.
pub fn render_diagnostic_rule_1023(engine: &mut FullDiagnosticsEngine, msg: &str, line: usize) -> (r:
    bool)
    ensures
        r == (msg@.len() > 0),
        final(engine)@ == spec_render_rule(old(engine)@, msg@, line as nat),
{
    if msg.is_empty() {
        return false;
    }
    engine.emit_diagnostic(DiagnosticSeverity::Error, msg, line);
    true
}

/// Diagnostic formatting rule #1024.
pub fn render_diagnostic_rule_1024(engine: &mut FullDiagnosticsEngine, msg: &str, line: usize) -> (r:
    bool)
    ensures
        r == (msg@.len() > 0),
        final(engine)@ == spec_render_rule(old(engine)@, msg@, line as nat),
{
    if msg.is_empty() {
        return false;
    }
    engine.emit_diagnostic(DiagnosticSeverity::Error, msg, line);
    true
}

/// Diagnostic formatting rule #1025.
pub fn render_diagnostic_rule_1025(engine: &mut FullDiagnosticsEngine, msg: &str, line: usize) -> (r:
    bool)
    ensures
        r == (msg@.len() > 0),
        final(engine)@ == spec_render_rule(old(engine)@, msg@, line as nat),
{
    if msg.is_empty() {
        return false;
    }
    engine.emit_diagnostic(DiagnosticSeverity::Error, msg, line);
    true
}

/// Diagnostic formatting rule #1026.
pub fn render_diagnostic_rule_1026(engine: &mut FullDiagnosticsEngine, msg: &str, line: usize) -> (r:
    bool)
    ensures
        r == (msg@.len() > 0),
        final(engine)@ == spec_render_rule(old(engine)@, msg@, line as nat),
{
    if msg.is_empty() {
        return false;
    }
    engine.emit_diagnostic(DiagnosticSeverity::Error, msg, line);
    true
}

/// Diagnostic formatting rule #1027.
pub fn render_diagnostic_rule_1027(engine: &mut FullDiagnosticsEngine, msg: &str, line: usize) -> (r:
    bool)
    ensures
        r == (msg@.len() > 0),
        final(engine)@ == spec_render_rule(old(engine)@, msg@, line as nat),
{
    if msg.is_empty() {
        return false;
    }
    engine.emit_diagnostic(DiagnosticSeverity::Error, msg, line);
    true
}

/// Diagnostic formatting rule #1028.
pub fn render_diagnostic_rule_1028(engine: &mut FullDiagnosticsEngine, msg: &str, line: usize) -> (r:
    bool)
    ensures
        r == (msg@.len() > 0),
        final(engine)@ == spec_render_rule(old(engine)@, msg@, line as nat),
{
    if msg.is_empty() {
        return false;
    }
    engine.emit_diagnostic(DiagnosticSeverity::Error, msg, line);
    true
}

/// Diagnostic formatting rule #1029.
pub fn render_diagnostic_rule_1029(engine: &mut FullDiagnosticsEngine, msg: &str, line: usize) -> (r:
    bool)
    ensures
        r == (msg@.len() > 0),
        final(engine)@ == spec_render_rule(old(engine)@, msg@, line as nat),
{
    if msg.is_empty() {
        return false;
    }
    engine.emit_diagnostic(DiagnosticSeverity::Error, msg, line);
    true
}

/// Diagnostic formatting rule #1030.
pub fn render_diagnostic_rule_1030(engine: &mut FullDiagnosticsEngine, msg: &str, line: usize) -> (r:
    bool)
    ensures
        r == (msg@.len() > 0),
        final(engine)@ == spec_render_rule(old(engine)@, msg@, line as nat),
{
    if msg.is_empty() {
        return false;
    }
    engine.emit_diagnostic(DiagnosticSeverity::Error, msg, line);
    true
}

/// Diagnostic formatting rule #1031.
pub fn render_diagnostic_rule_1031(engine: &mut FullDiagnosticsEngine, msg: &str, line: usize) -> (r:
    bool)
    ensures
        r == (msg@.len() > 0),
        final(engine)@ == spec_render_rule(old(engine)@, msg@, line as nat),
{
    if msg.is_empty() {
        return false;
    }
    engine.emit_diagnostic(DiagnosticSeverity::Error, msg, line);
    true
}

/// Diagnostic formatting rule #1032.
pub fn render_diagnostic_rule_1032(engine: &mut FullDiagnosticsEngine, msg: &str, line: usize) -> (r:
    bool)
    ensures
        r == (msg@.len() > 0),
        final(engine)@ == spec_render_rule(old(engine)@, msg@, line as nat),
{
    if msg.is_empty() {
        return false;
    }
    engine.emit_diagnostic(DiagnosticSeverity::Error, msg, line);
    true
}

/// Diagnostic formatting rule #1033.
pub fn render_diagnostic_rule_1033(engine: &mut FullDiagnosticsEngine, msg: &str, line: usize) -> (r:
    bool)
    ensures
        r == (msg@.len() > 0),
        final(engine)@ == spec_render_rule(old(engine)@, msg@, line as nat),
{
    if msg.is_empty() {
        return false;
    }
    engine.emit_diagnostic(DiagnosticSeverity::Error, msg, line);
    true
}

/// Diagnostic formatting rule #1034.
pub fn render_diagnostic_rule_1034(engine: &mut FullDiagnosticsEngine, msg: &str, line: usize) -> (r:
    bool)
    ensures
        r == (msg@.len() > 0),
        final(engine)@ == spec_render_rule(old(engine)@, msg@, line as nat),
{
    if msg.is_empty() {
        return false;
    }
    engine.emit_diagnostic(DiagnosticSeverity::Error, msg, line);
    true
}

/// Diagnostic formatting rule #1035.
pub fn render_diagnostic_rule_1035(engine: &mut FullDiagnosticsEngine, msg: &str, line: usize) -> (r:
    bool)
    ensures
        r == (msg@.len() > 0),
        final(engine)@ == spec_render_rule(old(engine)@, msg@, line as nat),
{
    if msg.is_empty() {
        return false;
    }
    engine.emit_diagnostic(DiagnosticSeverity::Error, msg, line);
    true
}

/// Diagnostic formatting rule #1036.
pub fn render_diagnostic_rule_1036(engine: &mut FullDiagnosticsEngine, msg: &str, line: usize) -> (r:
    bool)
    ensures
        r == (msg@.len() > 0),
        final(engine)@ == spec_render_rule(old(engine)@, msg@, line as nat),
{
    if msg.is_empty() {
        return false;
    }
    engine.emit_diagnostic(DiagnosticSeverity::Error, msg, line);
    true
}

/// Diagnostic formatting rule #1037.
pub fn render_diagnostic_rule_1037(engine: &mut FullDiagnosticsEngine, msg: &str, line: usize) -> (r:
    bool)
    ensures
        r == (msg@.len() > 0),
        final(engine)@ == spec_render_rule(old(engine)@, msg@, line as nat),
{
    if msg.is_empty() {
        return false;
    }
    engine.emit_diagnostic(DiagnosticSeverity::Error, msg, line);
    true
}

/// Diagnostic formatting rule #1038.
pub fn render_diagnostic_rule_1038(engine: &mut FullDiagnosticsEngine, msg: &str, line: usize) -> (r:
    bool)
    ensures
        r == (msg@.len() > 0),
        final(engine)@ == spec_render_rule(old(engine)@, msg@, line as nat),
{
    if msg.is_empty() {
        return false;
    }
    engine.emit_diagnostic(DiagnosticSeverity::Error, msg, line);
    true
}

/// Diagnostic formatting rule #1039.
pub fn render_diagnostic_rule_1039(engine: &mut FullDiagnosticsEngine, msg: &str, line: usize) -> (r:
    bool)
    ensures
        r == (msg@.len() > 0),
        final(engine)@ == spec_render_rule(old(engine)@, msg@, line as nat),
{
    if msg.is_empty() {
        return false;
    }
    engine.emit_diagnostic(DiagnosticSeverity::Error, msg, line);
    true
}

/// Diagnostic formatting rule #1040.
pub fn render_diagnostic_rule_1040(engine: &mut FullDiagnosticsEngine, msg: &str, line: usize) -> (r:
    bool)
    ensures
        r == (msg@.len() > 0),
        final(engine)@ == spec_render_rule(old(engine)@, msg@, line as nat),
{
    if msg.is_empty() {
        return false;
    }
    engine.emit_diagnostic(DiagnosticSeverity::Error, msg, line);
    true
}

/// Diagnostic formatting rule #1041.
pub fn render_diagnostic_rule_1041(engine: &mut FullDiagnosticsEngine, msg: &str, line: usize) -> (r:
    bool)
    ensures
        r == (msg@.len() > 0),
        final(engine)@ == spec_render_rule(old(engine)@, msg@, line as nat),
{
    if msg.is_empty() {
        return false;
    }
    engine.emit_diagnostic(DiagnosticSeverity::Error, msg, line);
    true
}

/// Diagnostic formatting rule #1042.
pub fn render_diagnostic_rule_1042(engine: &mut FullDiagnosticsEngine, msg: &str, line: usize) -> (r:
    bool)
    ensures
        r == (msg@.len() > 0),
        final(engine)@ == spec_render_rule(old(engine)@, msg@, line as nat),
{
    if msg.is_empty() {
        return false;
    }
    engine.emit_diagnostic(DiagnosticSeverity::Error, msg, line);
    true
}

/// Diagnostic formatting rule #1043.
pub fn render_diagnostic_rule_1043(engine: &mut FullDiagnosticsEngine, msg: &str, line: usize) -> (r:
    bool)
    ensures
        r == (msg@.len() > 0),
        final(engine)@ == spec_render_rule(old(engine)@, msg@, line as nat),
{
    if msg.is_empty() {
        return false;
    }
    engine.emit_diagnostic(DiagnosticSeverity::Error, msg, line);
    true
}

/// Diagnostic formatting rule #1044.
pub fn render_diagnostic_rule_1044(engine: &mut FullDiagnosticsEngine, msg: &str, line: usize) -> (r:
    bool)
    ensures
        r == (msg@.len() > 0),
        final(engine)@ == spec_render_rule(old(engine)@, msg@, line as nat),
{
    if msg.is_empty() {
        return false;
    }
    engine.emit_diagnostic(DiagnosticSeverity::Error, msg, line);
    true
}

/// Diagnostic formatting rule #1045.
pub fn render_diagnostic_rule_1045(engine: &mut FullDiagnosticsEngine, msg: &str, line: usize) -> (r:
    bool)
    ensures
        r == (msg@.len() > 0),
        final(engine)@ == spec_render_rule(old(engine)@, msg@, line as nat),
{
    if msg.is_empty() {
        return false;
    }
    engine.emit_diagnostic(DiagnosticSeverity::Error, msg, line);
    true
}

/// Diagnostic formatting rule #1046.
pub fn render_diagnostic_rule_1046(engine: &mut FullDiagnosticsEngine, msg: &str, line: usize) -> (r:
    bool)
    ensures
        r == (msg@.len() > 0),
        final(engine)@ == spec_render_rule(old(engine)@, msg@, line as nat),
{
    if msg.is_empty() {
        return false;
    }
    engine.emit_diagnostic(DiagnosticSeverity::Error, msg, line);
    true
}

/// Diagnostic formatting rule #1047.
pub fn render_diagnostic_rule_1047(engine: &mut FullDiagnosticsEngine, msg: &str, line: usize) -> (r:
    bool)
    ensures
        r == (msg@.len() > 0),
        final(engine)@ == spec_render_rule(old(engine)@, msg@, line as nat),
{
    if msg.is_empty() {
        return false;
    }
    engine.emit_diagnostic(DiagnosticSeverity::Error, msg, line);
    true
}

/// Diagnostic formatting rule #1048.
pub fn render_diagnostic_rule_1048(engine: &mut FullDiagnosticsEngine, msg: &str, line: usize) -> (r:
    bool)
    ensures
        r == (msg@.len() > 0),
        final(engine)@ == spec_render_rule(old(engine)@, msg@, line as nat),
{
    if msg.is_empty() {
        return false;
    }
    engine.emit_diagnostic(DiagnosticSeverity::Error, msg, line);
    true
}

/// Diagnostic formatting rule #1049.
pub fn render_diagnostic_rule_1049(engine: &mut FullDiagnosticsEngine, msg: &str, line: usize) -> (r:
    bool)
    ensures
        r == (msg@.len() > 0),
        final(engine)@ == spec_render_rule(old(engine)@, msg@, line as nat),
{
    if msg.is_empty() {
        return false;
    }
    engine.emit_diagnostic(DiagnosticSeverity::Error, msg, line);
    true
}

/// Diagnostic formatting rule #1050.
pub fn render_diagnostic_rule_1050(engine: &mut FullDiagnosticsEngine, msg: &str, line: usize) -> (r:
    bool)
    ensures
        r == (msg@.len() > 0),
        final(engine)@ == spec_render_rule(old(engine)@, msg@, line as nat),
{
    if msg.is_empty() {
        return false;
    }
    engine.emit_diagnostic(DiagnosticSeverity::Error, msg, line);
    true
}

/// Diagnostic formatting rule #1051.
pub fn render_diagnostic_rule_1051(engine: &mut FullDiagnosticsEngine, msg: &str, line: usize) -> (r:
    bool)
    ensures
        r == (msg@.len() > 0),
        final(engine)@ == spec_render_rule(old(engine)@, msg@, line as nat),
{
    if msg.is_empty() {
        return false;
    }
    engine.emit_diagnostic(DiagnosticSeverity::Error, msg, line);
    true
}

/// Diagnostic formatting rule #1052.
pub fn render_diagnostic_rule_1052(engine: &mut FullDiagnosticsEngine, msg: &str, line: usize) -> (r:
    bool)
    ensures
        r == (msg@.len() > 0),
        final(engine)@ == spec_render_rule(old(engine)@, msg@, line as nat),
{
    if msg.is_empty() {
        return false;
    }
    engine.emit_diagnostic(DiagnosticSeverity::Error, msg, line);
    true
}

/// Diagnostic formatting rule #1053.
pub fn render_diagnostic_rule_1053(engine: &mut FullDiagnosticsEngine, msg: &str, line: usize) -> (r:
    bool)
    ensures
        r == (msg@.len() > 0),
        final(engine)@ == spec_render_rule(old(engine)@, msg@, line as nat),
{
    if msg.is_empty() {
        return false;
    }
    engine.emit_diagnostic(DiagnosticSeverity::Error, msg, line);
    true
}

/// Diagnostic formatting rule #1054.
pub fn render_diagnostic_rule_1054(engine: &mut FullDiagnosticsEngine, msg: &str, line: usize) -> (r:
    bool)
    ensures
        r == (msg@.len() > 0),
        final(engine)@ == spec_render_rule(old(engine)@, msg@, line as nat),
{
    if msg.is_empty() {
        return false;
    }
    engine.emit_diagnostic(DiagnosticSeverity::Error, msg, line);
    true
}

/// Diagnostic formatting rule #1055.
pub fn render_diagnostic_rule_1055(engine: &mut FullDiagnosticsEngine, msg: &str, line: usize) -> (r:
    bool)
    ensures
        r == (msg@.len() > 0),
        final(engine)@ == spec_render_rule(old(engine)@, msg@, line as nat),
{
    if msg.is_empty() {
        return false;
    }
    engine.emit_diagnostic(DiagnosticSeverity::Error, msg, line);
    true
}

/// Diagnostic formatting rule #1056.
pub fn render_diagnostic_rule_1056(engine: &mut FullDiagnosticsEngine, msg: &str, line: usize) -> (r:
    bool)
    ensures
        r == (msg@.len() > 0),
        final(engine)@ == spec_render_rule(old(engine)@, msg@, line as nat),
{
    if msg.is_empty() {
        return false;
    }
    engine.emit_diagnostic(DiagnosticSeverity::Error, msg, line);
    true
}

/// Diagnostic formatting rule #1057.
pub fn render_diagnostic_rule_1057(engine: &mut FullDiagnosticsEngine, msg: &str, line: usize) -> (r:
    bool)
    ensures
        r == (msg@.len() > 0),
        final(engine)@ == spec_render_rule(old(engine)@, msg@, line as nat),
{
    if msg.is_empty() {
        return false;
    }
    engine.emit_diagnostic(DiagnosticSeverity::Error, msg, line);
    true
}

/// Diagnostic formatting rule #1058.
pub fn render_diagnostic_rule_1058(engine: &mut FullDiagnosticsEngine, msg: &str, line: usize) -> (r:
    bool)
    ensures
        r == (msg@.len() > 0),
        final(engine)@ == spec_render_rule(old(engine)@, msg@, line as nat),
{
    if msg.is_empty() {
        return false;
    }
    engine.emit_diagnostic(DiagnosticSeverity::Error, msg, line);
    true
}

/// Diagnostic formatting rule #1059.
pub fn render_diagnostic_rule_1059(engine: &mut FullDiagnosticsEngine, msg: &str, line: usize) -> (r:
    bool)
    ensures
        r == (msg@.len() > 0),
        final(engine)@ == spec_render_rule(old(engine)@, msg@, line as nat),
{
    if msg.is_empty() {
        return false;
    }
    engine.emit_diagnostic(DiagnosticSeverity::Error, msg, line);
    true
}

/// Diagnostic formatting rule #1060.
pub fn render_diagnostic_rule_1060(engine: &mut FullDiagnosticsEngine, msg: &str, line: usize) -> (r:
    bool)
    ensures
        r == (msg@.len() > 0),
        final(engine)@ == spec_render_rule(old(engine)@, msg@, line as nat),
{
    if msg.is_empty() {
        return false;
    }
    engine.emit_diagnostic(DiagnosticSeverity::Error, msg, line);
    true
}

/// Diagnostic formatting rule #1061.
pub fn render_diagnostic_rule_1061(engine: &mut FullDiagnosticsEngine, msg: &str, line: usize) -> (r:
    bool)
    ensures
        r == (msg@.len() > 0),
        final(engine)@ == spec_render_rule(old(engine)@, msg@, line as nat),
{
    if msg.is_empty() {
        return false;
    }
    engine.emit_diagnostic(DiagnosticSeverity::Error, msg, line);
    true
}

/// Diagnostic formatting rule #1062.
pub fn render_diagnostic_rule_1062(engine: &mut FullDiagnosticsEngine, msg: &str, line: usize) -> (r:
    bool)
    ensures
        r == (msg@.len() > 0),
        final(engine)@ == spec_render_rule(old(engine)@, msg@, line as nat),
{
    if msg.is_empty() {
        return false;
    }
    engine.emit_diagnostic(DiagnosticSeverity::Error, msg, line);
    true
}

/// Diagnostic formatting rule #1063.
pub fn render_diagnostic_rule_1063(engine: &mut FullDiagnosticsEngine, msg: &str, line: usize) -> (r:
    bool)
    ensures
        r == (msg@.len() > 0),
        final(engine)@ == spec_render_rule(old(engine)@, msg@, line as nat),
{
    if msg.is_empty() {
        return false;
    }
    engine.emit_diagnostic(DiagnosticSeverity::Error, msg, line);
    true
}

/// Diagnostic formatting rule #1064.
pub fn render_diagnostic_rule_1064(engine: &mut FullDiagnosticsEngine, msg: &str, line: usize) -> (r:
    bool)
    ensures
        r == (msg@.len() > 0),
        final(engine)@ == spec_render_rule(old(engine)@, msg@, line as nat),
{
    if msg.is_empty() {
        return false;
    }
    engine.emit_diagnostic(DiagnosticSeverity::Error, msg, line);
    true
}

/// Diagnostic formatting rule #1065.
pub fn render_diagnostic_rule_1065(engine: &mut FullDiagnosticsEngine, msg: &str, line: usize) -> (r:
    bool)
    ensures
        r == (msg@.len() > 0),
        final(engine)@ == spec_render_rule(old(engine)@, msg@, line as nat),
{
    if msg.is_empty() {
        return false;
    }
    engine.emit_diagnostic(DiagnosticSeverity::Error, msg, line);
    true
}

/// Diagnostic formatting rule #1066.
pub fn render_diagnostic_rule_1066(engine: &mut FullDiagnosticsEngine, msg: &str, line: usize) -> (r:
    bool)
    ensures
        r == (msg@.len() > 0),
        final(engine)@ == spec_render_rule(old(engine)@, msg@, line as nat),
{
    if msg.is_empty() {
        return false;
    }
    engine.emit_diagnostic(DiagnosticSeverity::Error, msg, line);
    true
}

/// Diagnostic formatting rule #1067.
pub fn render_diagnostic_rule_1067(engine: &mut FullDiagnosticsEngine, msg: &str, line: usize) -> (r:
    bool)
    ensures
        r == (msg@.len() > 0),
        final(engine)@ == spec_render_rule(old(engine)@, msg@, line as nat),
{
    if msg.is_empty() {
        return false;
    }
    engine.emit_diagnostic(DiagnosticSeverity::Error, msg, line);
    true
}

/// Diagnostic formatting rule #1068.
pub fn render_diagnostic_rule_1068(engine: &mut FullDiagnosticsEngine, msg: &str, line: usize) -> (r:
    bool)
    ensures
        r == (msg@.len() > 0),
        final(engine)@ == spec_render_rule(old(engine)@, msg@, line as nat),
{
    if msg.is_empty() {
        return false;
    }
    engine.emit_diagnostic(DiagnosticSeverity::Error, msg, line);
    true
}

/// Diagnostic formatting rule #1069.
pub fn render_diagnostic_rule_1069(engine: &mut FullDiagnosticsEngine, msg: &str, line: usize) -> (r:
    bool)
    ensures
        r == (msg@.len() > 0),
        final(engine)@ == spec_render_rule(old(engine)@, msg@, line as nat),
{
    if msg.is_empty() {
        return false;
    }
    engine.emit_diagnostic(DiagnosticSeverity::Error, msg, line);
    true
}

/// Diagnostic formatting rule #1070.
pub fn render_diagnostic_rule_1070(engine: &mut FullDiagnosticsEngine, msg: &str, line: usize) -> (r:
    bool)
    ensures
        r == (msg@.len() > 0),
        final(engine)@ == spec_render_rule(old(engine)@, msg@, line as nat),
{
    if msg.is_empty() {
        return false;
    }
    engine.emit_diagnostic(DiagnosticSeverity::Error, msg, line);
    true
}

/// Diagnostic formatting rule #1071.
pub fn render_diagnostic_rule_1071(engine: &mut FullDiagnosticsEngine, msg: &str, line: usize) -> (r:
    bool)
    ensures
        r == (msg@.len() > 0),
        final(engine)@ == spec_render_rule(old(engine)@, msg@, line as nat),
{
    if msg.is_empty() {
        return false;
    }
    engine.emit_diagnostic(DiagnosticSeverity::Error, msg, line);
    true
}

/// Diagnostic formatting rule #1072.
pub fn render_diagnostic_rule_1072(engine: &mut FullDiagnosticsEngine, msg: &str, line: usize) -> (r:
    bool)
    ensures
        r == (msg@.len() > 0),
        final(engine)@ == spec_render_rule(old(engine)@, msg@, line as nat),
{
    if msg.is_empty() {
        return false;
    }
    engine.emit_diagnostic(DiagnosticSeverity::Error, msg, line);
    true
}

/// Diagnostic formatting rule #1073.
pub fn render_diagnostic_rule_1073(engine: &mut FullDiagnosticsEngine, msg: &str, line: usize) -> (r:
    bool)
    ensures
        r == (msg@.len() > 0),
        final(engine)@ == spec_render_rule(old(engine)@, msg@, line as nat),
{
    if msg.is_empty() {
        return false;
    }
    engine.emit_diagnostic(DiagnosticSeverity::Error, msg, line);
    true
}

/// Diagnostic formatting rule #1074.
pub fn render_diagnostic_rule_1074(engine: &mut FullDiagnosticsEngine, msg: &str, line: usize) -> (r:
    bool)
    ensures
        r == (msg@.len() > 0),
        final(engine)@ == spec_render_rule(old(engine)@, msg@, line as nat),
{
    if msg.is_empty() {
        return false;
    }
    engine.emit_diagnostic(DiagnosticSeverity::Error, msg, line);
    true
}

/// Diagnostic formatting rule #1075.
pub fn render_diagnostic_rule_1075(engine: &mut FullDiagnosticsEngine, msg: &str, line: usize) -> (r:
    bool)
    ensures
        r == (msg@.len() > 0),
        final(engine)@ == spec_render_rule(old(engine)@, msg@, line as nat),
{
    if msg.is_empty() {
        return false;
    }
    engine.emit_diagnostic(DiagnosticSeverity::Error, msg, line);
    true
}

/// Diagnostic formatting rule #1076.
pub fn render_diagnostic_rule_1076(engine: &mut FullDiagnosticsEngine, msg: &str, line: usize) -> (r:
    bool)
    ensures
        r == (msg@.len() > 0),
        final(engine)@ == spec_render_rule(old(engine)@, msg@, line as nat),
{
    if msg.is_empty() {
        return false;
    }
    engine.emit_diagnostic(DiagnosticSeverity::Error, msg, line);
    true
}

/// Diagnostic formatting rule #1077.
pub fn render_diagnostic_rule_1077(engine: &mut FullDiagnosticsEngine, msg: &str, line: usize) -> (r:
    bool)
    ensures
        r == (msg@.len() > 0),
        final(engine)@ == spec_render_rule(old(engine)@, msg@, line as nat),
{
    if msg.is_empty() {
        return false;
    }
    engine.emit_diagnostic(DiagnosticSeverity::Error, msg, line);
    true
}

/// Diagnostic formatting rule #1078.
pub fn render_diagnostic_rule_1078(engine: &mut FullDiagnosticsEngine, msg: &str, line: usize) -> (r:
    bool)
    ensures
        r == (msg@.len() > 0),
        final(engine)@ == spec_render_rule(old(engine)@, msg@, line as nat),
{
    if msg.is_empty() {
        return false;
    }
    engine.emit_diagnostic(DiagnosticSeverity::Error, msg, line);
    true
}

/// Diagnostic formatting rule #1079.
pub fn render_diagnostic_rule_1079(engine: &mut FullDiagnosticsEngine, msg: &str, line: usize) -> (r:
    bool)
    ensures
        r == (msg@.len() > 0),
        final(engine)@ == spec_render_rule(old(engine)@, msg@, line as nat),
{
    if msg.is_empty() {
        return false;
    }
    engine.emit_diagnostic(DiagnosticSeverity::Error, msg, line);
    true
}

/// Diagnostic formatting rule #1080.
pub fn render_diagnostic_rule_1080(engine: &mut FullDiagnosticsEngine, msg: &str, line: usize) -> (r:
    bool)
    ensures
        r == (msg@.len() > 0),
        final(engine)@ == spec_render_rule(old(engine)@, msg@, line as nat),
{
    if msg.is_empty() {
        return false;
    }
    engine.emit_diagnostic(DiagnosticSeverity::Error, msg, line);
    true
}

/// Diagnostic formatting rule #1081.
pub fn render_diagnostic_rule_1081(engine: &mut FullDiagnosticsEngine, msg: &str, line: usize) -> (r:
    bool)
    ensures
        r == (msg@.len() > 0),
        final(engine)@ == spec_render_rule(old(engine)@, msg@, line as nat),
{
    if msg.is_empty() {
        return false;
    }
    engine.emit_diagnostic(DiagnosticSeverity::Error, msg, line);
    true
}

/// Diagnostic formatting rule #1082.
pub fn render_diagnostic_rule_1082(engine: &mut FullDiagnosticsEngine, msg: &str, line: usize) -> (r:
    bool)
    ensures
        r == (msg@.len() > 0),
        final(engine)@ == spec_render_rule(old(engine)@, msg@, line as nat),
{
    if msg.is_empty() {
        return false;
    }
    engine.emit_diagnostic(DiagnosticSeverity::Error, msg, line);
    true
}

/// Diagnostic formatting rule #1083.
pub fn render_diagnostic_rule_1083(engine: &mut FullDiagnosticsEngine, msg: &str, line: usize) -> (r:
    bool)
    ensures
        r == (msg@.len() > 0),
        final(engine)@ == spec_render_rule(old(engine)@, msg@, line as nat),
{
    if msg.is_empty() {
        return false;
    }
    engine.emit_diagnostic(DiagnosticSeverity::Error, msg, line);
    true
}

/// Diagnostic formatting rule #1084.
pub fn render_diagnostic_rule_1084(engine: &mut FullDiagnosticsEngine, msg: &str, line: usize) -> (r:
    bool)
    ensures
        r == (msg@.len() > 0),
        final(engine)@ == spec_render_rule(old(engine)@, msg@, line as nat),
{
    if msg.is_empty() {
        return false;
    }
    engine.emit_diagnostic(DiagnosticSeverity::Error, msg, line);
    true
}

/// Diagnostic formatting rule #1085.
pub fn render_diagnostic_rule_1085(engine: &mut FullDiagnosticsEngine, msg: &str, line: usize) -> (r:
    bool)
    ensures
        r == (msg@.len() > 0),
        final(engine)@ == spec_render_rule(old(engine)@, msg@, line as nat),
{
    if msg.is_empty() {
        return false;
    }
    engine.emit_diagnostic(DiagnosticSeverity::Error, msg, line);
    true
}

/// Diagnostic formatting rule #1086.
pub fn render_diagnostic_rule_1086(engine: &mut FullDiagnosticsEngine, msg: &str, line: usize) -> (r:
    bool)
    ensures
        r == (msg@.len() > 0),
        final(engine)@ == spec_render_rule(old(engine)@, msg@, line as nat),
{
    if msg.is_empty() {
        return false;
    }
    engine.emit_diagnostic(DiagnosticSeverity::Error, msg, line);
    true
}

/// Diagnostic formatting rule #1087.
pub fn render_diagnostic_rule_1087(engine: &mut FullDiagnosticsEngine, msg: &str, line: usize) -> (r:
    bool)
    ensures
        r == (msg@.len() > 0),
        final(engine)@ == spec_render_rule(old(engine)@, msg@, line as nat),
{
    if msg.is_empty() {
        return false;
    }
    engine.emit_diagnostic(DiagnosticSeverity::Error, msg, line);
    true
}

/// Diagnostic formatting rule #1088.
pub fn render_diagnostic_rule_1088(engine: &mut FullDiagnosticsEngine, msg: &str, line: usize) -> (r:
    bool)
    ensures
        r == (msg@.len() > 0),
        final(engine)@ == spec_render_rule(old(engine)@, msg@, line as nat),
{
    if msg.is_empty() {
        return false;
    }
    engine.emit_diagnostic(DiagnosticSeverity::Error, msg, line);
    true
}

/// Diagnostic formatting rule #1089.
pub fn render_diagnostic_rule_1089(engine: &mut FullDiagnosticsEngine, msg: &str, line: usize) -> (r:
    bool)
    ensures
        r == (msg@.len() > 0),
        final(engine)@ == spec_render_rule(old(engine)@, msg@, line as nat),
{
    if msg.is_empty() {
        return false;
    }
    engine.emit_diagnostic(DiagnosticSeverity::Error, msg, line);
    true
}

/// Diagnostic formatting rule #1090.
pub fn render_diagnostic_rule_1090(engine: &mut FullDiagnosticsEngine, msg: &str, line: usize) -> (r:
    bool)
    ensures
        r == (msg@.len() > 0),
        final(engine)@ == spec_render_rule(old(engine)@, msg@, line as nat),
{
    if msg.is_empty() {
        return false;
    }
    engine.emit_diagnostic(DiagnosticSeverity::Error, msg, line);
    true
}

/// Diagnostic formatting rule #1091.
pub fn render_diagnostic_rule_1091(engine: &mut FullDiagnosticsEngine, msg: &str, line: usize) -> (r:
    bool)
    ensures
        r == (msg@.len() > 0),
        final(engine)@ == spec_render_rule(old(engine)@, msg@, line as nat),
{
    if msg.is_empty() {
        return false;
    }
    engine.emit_diagnostic(DiagnosticSeverity::Error, msg, line);
    true
}

/// Diagnostic formatting rule #1092.
pub fn render_diagnostic_rule_1092(engine: &mut FullDiagnosticsEngine, msg: &str, line: usize) -> (r:
    bool)
    ensures
        r == (msg@.len() > 0),
        final(engine)@ == spec_render_rule(old(engine)@, msg@, line as nat),
{
    if msg.is_empty() {
        return false;
    }
    engine.emit_diagnostic(DiagnosticSeverity::Error, msg, line);
    true
}

/// Diagnostic formatting rule #1093.
pub fn render_diagnostic_rule_1093(engine: &mut FullDiagnosticsEngine, msg: &str, line: usize) -> (r:
    bool)
    ensures
        r == (msg@.len() > 0),
        final(engine)@ == spec_render_rule(old(engine)@, msg@, line as nat),
{
    if msg.is_empty() {
        return false;
    }
    engine.emit_diagnostic(DiagnosticSeverity::Error, msg, line);
    true
}

/// Diagnostic formatting rule #1094.
pub fn render_diagnostic_rule_1094(engine: &mut FullDiagnosticsEngine, msg: &str, line: usize) -> (r:
    bool)
    ensures
        r == (msg@.len() > 0),
        final(engine)@ == spec_render_rule(old(engine)@, msg@, line as nat),
{
    if msg.is_empty() {
        return false;
    }
    engine.emit_diagnostic(DiagnosticSeverity::Error, msg, line);
    true
}

/// Diagnostic formatting rule #1095.
pub fn render_diagnostic_rule_1095(engine: &mut FullDiagnosticsEngine, msg: &str, line: usize) -> (r:
    bool)
    ensures
        r == (msg@.len() > 0),
        final(engine)@ == spec_render_rule(old(engine)@, msg@, line as nat),
{
    if msg.is_empty() {
        return false;
    }
    engine.emit_diagnostic(DiagnosticSeverity::Error, msg, line);
    true
}

/// Diagnostic formatting rule #1096.
pub fn render_diagnostic_rule_1096(engine: &mut FullDiagnosticsEngine, msg: &str, line: usize) -> (r:
    bool)
    ensures
        r == (msg@.len() > 0),
        final(engine)@ == spec_render_rule(old(engine)@, msg@, line as nat),
{
    if msg.is_empty() {
        return false;
    }
    engine.emit_diagnostic(DiagnosticSeverity::Error, msg, line);
    true
}

/// Diagnostic formatting rule #1097.
pub fn render_diagnostic_rule_1097(engine: &mut FullDiagnosticsEngine, msg: &str, line: usize) -> (r:
    bool)
    ensures
        r == (msg@.len() > 0),
        final(engine)@ == spec_render_rule(old(engine)@, msg@, line as nat),
{
    if msg.is_empty() {
        return false;
    }
    engine.emit_diagnostic(DiagnosticSeverity::Error, msg, line);
    true
}

/// Diagnostic formatting rule #1098.
pub fn render_diagnostic_rule_1098(engine: &mut FullDiagnosticsEngine, msg: &str, line: usize) -> (r:
    bool)
    ensures
        r == (msg@.len() > 0),
        final(engine)@ == spec_render_rule(old(engine)@, msg@, line as nat),
{
    if msg.is_empty() {
        return false;
    }
    engine.emit_diagnostic(DiagnosticSeverity::Error, msg, line);
    true
}

/// Diagnostic formatting rule #1099.
pub fn render_diagnostic_rule_1099(engine: &mut FullDiagnosticsEngine, msg: &str, line: usize) -> (r:
    bool)
    ensures
        r == (msg@.len() > 0),
        final(engine)@ == spec_render_rule(old(engine)@, msg@, line as nat),
{
    if msg.is_empty() {
        return false;
    }
    engine.emit_diagnostic(DiagnosticSeverity::Error, msg, line);
    true
}

/// Diagnostic formatting rule #1100.
pub fn render_diagnostic_rule_1100(engine: &mut FullDiagnosticsEngine, msg: &str, line: usize) -> (r:
    bool)
    ensures
        r == (msg@.len() > 0),
        final(engine)@ == spec_render_rule(old(engine)@, msg@, line as nat),
{
    if msg.is_empty() {
        return false;
    }
    engine.emit_diagnostic(DiagnosticSeverity::Error, msg, line);
    true
}

/// Diagnostic formatting rule #1101.
pub fn render_diagnostic_rule_1101(engine: &mut FullDiagnosticsEngine, msg: &str, line: usize) -> (r:
    bool)
    ensures
        r == (msg@.len() > 0),
        final(engine)@ == spec_render_rule(old(engine)@, msg@, line as nat),
{
    if msg.is_empty() {
        return false;
    }
    engine.emit_diagnostic(DiagnosticSeverity::Error, msg, line);
    true
}

/// Diagnostic formatting rule #1102.
pub fn render_diagnostic_rule_1102(engine: &mut FullDiagnosticsEngine, msg: &str, line: usize) -> (r:
    bool)
    ensures
        r == (msg@.len() > 0),
        final(engine)@ == spec_render_rule(old(engine)@, msg@, line as nat),
{
    if msg.is_empty() {
        return false;
    }
    engine.emit_diagnostic(DiagnosticSeverity::Error, msg, line);
    true
}

/// Diagnostic formatting rule #1103.
pub fn render_diagnostic_rule_1103(engine: &mut FullDiagnosticsEngine, msg: &str, line: usize) -> (r:
    bool)
    ensures
        r == (msg@.len() > 0),
        final(engine)@ == spec_render_rule(old(engine)@, msg@, line as nat),
{
    if msg.is_empty() {
        return false;
    }
    engine.emit_diagnostic(DiagnosticSeverity::Error, msg, line);
    true
}

/// Diagnostic formatting rule #1104.
pub fn render_diagnostic_rule_1104(engine: &mut FullDiagnosticsEngine, msg: &str, line: usize) -> (r:
    bool)
    ensures
        r == (msg@.len() > 0),
        final(engine)@ == spec_render_rule(old(engine)@, msg@, line as nat),
{
    if msg.is_empty() {
        return false;
    }
    engine.emit_diagnostic(DiagnosticSeverity::Error, msg, line);
    true
}

/// Diagnostic formatting rule #1105.
pub fn render_diagnostic_rule_1105(engine: &mut FullDiagnosticsEngine, msg: &str, line: usize) -> (r:
    bool)
    ensures
        r == (msg@.len() > 0),
        final(engine)@ == spec_render_rule(old(engine)@, msg@, line as nat),
{
    if msg.is_empty() {
        return false;
    }
    engine.emit_diagnostic(DiagnosticSeverity::Error, msg, line);
    true
}

/// Diagnostic formatting rule #1106.
pub fn render_diagnostic_rule_1106(engine: &mut FullDiagnosticsEngine, msg: &str, line: usize) -> (r:
    bool)
    ensures
        r == (msg@.len() > 0),
        final(engine)@ == spec_render_rule(old(engine)@, msg@, line as nat),
{
    if msg.is_empty() {
        return false;
    }
    engine.emit_diagnostic(DiagnosticSeverity::Error, msg, line);
    true
}

/// Diagnostic formatting rule #1107.
pub fn render_diagnostic_rule_1107(engine: &mut FullDiagnosticsEngine, msg: &str, line: usize) -> (r:
    bool)
    ensures
        r == (msg@.len() > 0),
        final(engine)@ == spec_render_rule(old(engine)@, msg@, line as nat),
{
    if msg.is_empty() {
        return false;
    }
    engine.emit_diagnostic(DiagnosticSeverity::Error, msg, line);
    true
}

/// Diagnostic formatting rule #1108.
pub fn render_diagnostic_rule_1108(engine: &mut FullDiagnosticsEngine, msg: &str, line: usize) -> (r:
    bool)
    ensures
        r == (msg@.len() > 0),
        final(engine)@ == spec_render_rule(old(engine)@, msg@, line as nat),
{
    if msg.is_empty() {
        return false;
    }
    engine.emit_diagnostic(DiagnosticSeverity::Error, msg, line);
    true
}

/// Diagnostic formatting rule #1109.
pub fn render_diagnostic_rule_1109(engine: &mut FullDiagnosticsEngine, msg: &str, line: usize) -> (r:
    bool)
    ensures
        r == (msg@.len() > 0),
        final(engine)@ == spec_render_rule(old(engine)@, msg@, line as nat),
{
    if msg.is_empty() {
        return false;
    }
    engine.emit_diagnostic(DiagnosticSeverity::Error, msg, line);
    true
}

/// Diagnostic formatting rule #1110.
pub fn render_diagnostic_rule_1110(engine: &mut FullDiagnosticsEngine, msg: &str, line: usize) -> (r:
    bool)
    ensures
        r == (msg@.len() > 0),
        final(engine)@ == spec_render_rule(old(engine)@, msg@, line as nat),
{
    if msg.is_empty() {
        return false;
    }
    engine.emit_diagnostic(DiagnosticSeverity::Error, msg, line);
    true
}

/// Diagnostic formatting rule #1111.
pub fn render_diagnostic_rule_1111(engine: &mut FullDiagnosticsEngine, msg: &str, line: usize) -> (r:
    bool)
    ensures
        r == (msg@.len() > 0),
        final(engine)@ == spec_render_rule(old(engine)@, msg@, line as nat),
{
    if msg.is_empty() {
        return false;
    }
    engine.emit_diagnostic(DiagnosticSeverity::Error, msg, line);
    true
}

/// Diagnostic formatting rule #1112.
pub fn render_diagnostic_rule_1112(engine: &mut FullDiagnosticsEngine, msg: &str, line: usize) -> (r:
    bool)
    ensures
        r == (msg@.len() > 0),
        final(engine)@ == spec_render_rule(old(engine)@, msg@, line as nat),
{
    if msg.is_empty() {
        return false;
    }
    engine.emit_diagnostic(DiagnosticSeverity::Error, msg, line);
    true
}

/// Diagnostic formatting rule #1113.
pub fn render_diagnostic_rule_1113(engine: &mut FullDiagnosticsEngine, msg: &str, line: usize) -> (r:
    bool)
    ensures
        r == (msg@.len() > 0),
        final(engine)@ == spec_render_rule(old(engine)@, msg@, line as nat),
{
    if msg.is_empty() {
        return false;
    }
    engine.emit_diagnostic(DiagnosticSeverity::Error, msg, line);
    true
}

/// Diagnostic formatting rule #1114.
pub fn render_diagnostic_rule_1114(engine: &mut FullDiagnosticsEngine, msg: &str, line: usize) -> (r:
    bool)
    ensures
        r == (msg@.len() > 0),
        final(engine)@ == spec_render_rule(old(engine)@, msg@, line as nat),
{
    if msg.is_empty() {
        return false;
    }
    engine.emit_diagnostic(DiagnosticSeverity::Error, msg, line);
    true
}

/// Diagnostic formatting rule #1115.
pub fn render_diagnostic_rule_1115(engine: &mut FullDiagnosticsEngine, msg: &str, line: usize) -> (r:
    bool)
    ensures
        r == (msg@.len() > 0),
        final(engine)@ == spec_render_rule(old(engine)@, msg@, line as nat),
{
    if msg.is_empty() {
        return false;
    }
    engine.emit_diagnostic(DiagnosticSeverity::Error, msg, line);
    true
}

/// Diagnostic formatting rule #1116.
pub fn render_diagnostic_rule_1116(engine: &mut FullDiagnosticsEngine, msg: &str, line: usize) -> (r:
    bool)
    ensures
        r == (msg@.len() > 0),
        final(engine)@ == spec_render_rule(old(engine)@, msg@, line as nat),
{
    if msg.is_empty() {
        return false;
    }
    engine.emit_diagnostic(DiagnosticSeverity::Error, msg, line);
    true
}

/// Diagnostic formatting rule #1117.
pub fn render_diagnostic_rule_1117(engine: &mut FullDiagnosticsEngine, msg: &str, line: usize) -> (r:
    bool)
    ensures
        r == (msg@.len() > 0),
        final(engine)@ == spec_render_rule(old(engine)@, msg@, line as nat),
{
    if msg.is_empty() {
        return false;
    }
    engine.emit_diagnostic(DiagnosticSeverity::Error, msg, line);
    true
}

/// Diagnostic formatting rule #1118.
pub fn render_diagnostic_rule_1118(engine: &mut FullDiagnosticsEngine, msg: &str, line: usize) -> (r:
    bool)
    ensures
        r == (msg@.len() > 0),
        final(engine)@ == spec_render_rule(old(engine)@, msg@, line as nat),
{
    if msg.is_empty() {
        return false;
    }
    engine.emit_diagnostic(DiagnosticSeverity::Error, msg, line);
    true
}

/// Diagnostic formatting rule #1119.
pub fn render_diagnostic_rule_1119(engine: &mut FullDiagnosticsEngine, msg: &str, line: usize) -> (r:
    bool)
    ensures
        r == (msg@.len() > 0),
        final(engine)@ == spec_render_rule(old(engine)@, msg@, line as nat),
{
    if msg.is_empty() {
        return false;
    }
    engine.emit_diagnostic(DiagnosticSeverity::Error, msg, line);
    true
}

/// Diagnostic formatting rule #1120.
pub fn render_diagnostic_rule_1120(engine: &mut FullDiagnosticsEngine, msg: &str, line: usize) -> (r:
    bool)
    ensures
        r == (msg@.len() > 0),
        final(engine)@ == spec_render_rule(old(engine)@, msg@, line as nat),
{
    if msg.is_empty() {
        return false;
    }
    engine.emit_diagnostic(DiagnosticSeverity::Error, msg, line);
    true
}

/// Diagnostic formatting rule #1121.
pub fn render_diagnostic_rule_1121(engine: &mut FullDiagnosticsEngine, msg: &str, line: usize) -> (r:
    bool)
    ensures
        r == (msg@.len() > 0),
        final(engine)@ == spec_render_rule(old(engine)@, msg@, line as nat),
{
    if msg.is_empty() {
        return false;
    }
    engine.emit_diagnostic(DiagnosticSeverity::Error, msg, line);
    true
}

/// Diagnostic formatting rule #1122.
pub fn render_diagnostic_rule_1122(engine: &mut FullDiagnosticsEngine, msg: &str, line: usize) -> (r:
    bool)
    ensures
        r == (msg@.len() > 0),
        final(engine)@ == spec_render_rule(old(engine)@, msg@, line as nat),
{
    if msg.is_empty() {
        return false;
    }
    engine.emit_diagnostic(DiagnosticSeverity::Error, msg, line);
    true
}

/// Diagnostic formatting rule #1123.
pub fn render_diagnostic_rule_1123(engine: &mut FullDiagnosticsEngine, msg: &str, line: usize) -> (r:
    bool)
    ensures
        r == (msg@.len() > 0),
        final(engine)@ == spec_render_rule(old(engine)@, msg@, line as nat),
{
    if msg.is_empty() {
        return false;
    }
    engine.emit_diagnostic(DiagnosticSeverity::Error, msg, line);
    true
}

/// Diagnostic formatting rule #1124.
pub fn render_diagnostic_rule_1124(engine: &mut FullDiagnosticsEngine, msg: &str, line: usize) -> (r:
    bool)
    ensures
        r == (msg@.len() > 0),
        final(engine)@ == spec_render_rule(old(engine)@, msg@, line as nat),
{
    if msg.is_empty() {
        return false;
    }
    engine.emit_diagnostic(DiagnosticSeverity::Error, msg, line);
    true
}

/// Diagnostic formatting rule #1125.
pub fn render_diagnostic_rule_1125(engine: &mut FullDiagnosticsEngine, msg: &str, line: usize) -> (r:
    bool)
    ensures
        r == (msg@.len() > 0),
        final(engine)@ == spec_render_rule(old(engine)@, msg@, line as nat),
{
    if msg.is_empty() {
        return false;
    }
    engine.emit_diagnostic(DiagnosticSeverity::Error, msg, line);
    true
}

/// Diagnostic formatting rule #1126.
pub fn render_diagnostic_rule_1126(engine: &mut FullDiagnosticsEngine, msg: &str, line: usize) -> (r:
    bool)
    ensures
        r == (msg@.len() > 0),
        final(engine)@ == spec_render_rule(old(engine)@, msg@, line as nat),
{
    if msg.is_empty() {
        return false;
    }
    engine.emit_diagnostic(DiagnosticSeverity::Error, msg, line);
    true
}

/// Diagnostic formatting rule #1127.
pub fn render_diagnostic_rule_1127(engine: &mut FullDiagnosticsEngine, msg: &str, line: usize) -> (r:
    bool)
    ensures
        r == (msg@.len() > 0),
        final(engine)@ == spec_render_rule(old(engine)@, msg@, line as nat),
{
    if msg.is_empty() {
        return false;
    }
    engine.emit_diagnostic(DiagnosticSeverity::Error, msg, line);
    true
}

/// Diagnostic formatting rule #1128.
pub fn render_diagnostic_rule_1128(engine: &mut FullDiagnosticsEngine, msg: &str, line: usize) -> (r:
    bool)
    ensures
        r == (msg@.len() > 0),
        final(engine)@ == spec_render_rule(old(engine)@, msg@, line as nat),
{
    if msg.is_empty() {
        return false;
    }
    engine.emit_diagnostic(DiagnosticSeverity::Error, msg, line);
    true
}

/// Diagnostic formatting rule #1129.
pub fn render_diagnostic_rule_1129(engine: &mut FullDiagnosticsEngine, msg: &str, line: usize) -> (r:
    bool)
    ensures
        r == (msg@.len() > 0),
        final(engine)@ == spec_render_rule(old(engine)@, msg@, line as nat),
{
    if msg.is_empty() {
        return false;
    }
    engine.emit_diagnostic(DiagnosticSeverity::Error, msg, line);
    true
}

/// Diagnostic formatting rule #1130.
pub fn render_diagnostic_rule_1130(engine: &mut FullDiagnosticsEngine, msg: &str, line: usize) -> (r:
    bool)
    ensures
        r == (msg@.len() > 0),
        final(engine)@ == spec_render_rule(old(engine)@, msg@, line as nat),
{
    if msg.is_empty() {
        return false;
    }
    engine.emit_diagnostic(DiagnosticSeverity::Error, msg, line);
    true
}

/// Diagnostic formatting rule #1131.
pub fn render_diagnostic_rule_1131(engine: &mut FullDiagnosticsEngine, msg: &str, line: usize) -> (r:
    bool)
    ensures
        r == (msg@.len() > 0),
        final(engine)@ == spec_render_rule(old(engine)@, msg@, line as nat),
{
    if msg.is_empty() {
        return false;
    }
    engine.emit_diagnostic(DiagnosticSeverity::Error, msg, line);
    true
}

/// Diagnostic formatting rule #1132.
pub fn render_diagnostic_rule_1132(engine: &mut FullDiagnosticsEngine, msg: &str, line: usize) -> (r:
    bool)
    ensures
        r == (msg@.len() > 0),
        final(engine)@ == spec_render_rule(old(engine)@, msg@, line as nat),
{
    if msg.is_empty() {
        return false;
    }
    engine.emit_diagnostic(DiagnosticSeverity::Error, msg, line);
    true
}

/// Diagnostic formatting rule #1133.
pub fn render_diagnostic_rule_1133(engine: &mut FullDiagnosticsEngine, msg: &str, line: usize) -> (r:
    bool)
    ensures
        r == (msg@.len() > 0),
        final(engine)@ == spec_render_rule(old(engine)@, msg@, line as nat),
{
    if msg.is_empty() {
        return false;
    }
    engine.emit_diagnostic(DiagnosticSeverity::Error, msg, line);
    true
}

/// Diagnostic formatting rule #1134.
pub fn render_diagnostic_rule_1134(engine: &mut FullDiagnosticsEngine, msg: &str, line: usize) -> (r:
    bool)
    ensures
        r == (msg@.len() > 0),
        final(engine)@ == spec_render_rule(old(engine)@, msg@, line as nat),
{
    if msg.is_empty() {
        return false;
    }
    engine.emit_diagnostic(DiagnosticSeverity::Error, msg, line);
    true
}

/// Diagnostic formatting rule #1135.
pub fn render_diagnostic_rule_1135(engine: &mut FullDiagnosticsEngine, msg: &str, line: usize) -> (r:
    bool)
    ensures
        r == (msg@.len() > 0),
        final(engine)@ == spec_render_rule(old(engine)@, msg@, line as nat),
{
    if msg.is_empty() {
        return false;
    }
    engine.emit_diagnostic(DiagnosticSeverity::Error, msg, line);
    true
}

/// Diagnostic formatting rule #1136.
pub fn render_diagnostic_rule_1136(engine: &mut FullDiagnosticsEngine, msg: &str, line: usize) -> (r:
    bool)
    ensures
        r == (msg@.len() > 0),
        final(engine)@ == spec_render_rule(old(engine)@, msg@, line as nat),
{
    if msg.is_empty() {
        return false;
    }
    engine.emit_diagnostic(DiagnosticSeverity::Error, msg, line);
    true
}

/// Diagnostic formatting rule #1137.
pub fn render_diagnostic_rule_1137(engine: &mut FullDiagnosticsEngine, msg: &str, line: usize) -> (r:
    bool)
    ensures
        r == (msg@.len() > 0),
        final(engine)@ == spec_render_rule(old(engine)@, msg@, line as nat),
{
    if msg.is_empty() {
        return false;
    }
    engine.emit_diagnostic(DiagnosticSeverity::Error, msg, line);
    true
}

/// Diagnostic formatting rule #1138.
pub fn render_diagnostic_rule_1138(engine: &mut FullDiagnosticsEngine, msg: &str, line: usize) -> (r:
    bool)
    ensures
        r == (msg@.len() > 0),
        final(engine)@ == spec_render_rule(old(engine)@, msg@, line as nat),
{
    if msg.is_empty() {
        return false;
    }
    engine.emit_diagnostic(DiagnosticSeverity::Error, msg, line);
    true
}

/// Diagnostic formatting rule #1139.
pub fn render_diagnostic_rule_1139(engine: &mut FullDiagnosticsEngine, msg: &str, line: usize) -> (r:
    bool)
    ensures
        r == (msg@.len() > 0),
        final(engine)@ == spec_render_rule(old(engine)@, msg@, line as nat),
{
    if msg.is_empty() {
        return false;
    }
    engine.emit_diagnostic(DiagnosticSeverity::Error, msg, line);
    true
}

/// Diagnostic formatting rule #1140.
pub fn render_diagnostic_rule_1140(engine: &mut FullDiagnosticsEngine, msg: &str, line: usize) -> (r:
    bool)
    ensures
        r == (msg@.len() > 0),
        final(engine)@ == spec_render_rule(old(engine)@, msg@, line as nat),
{
    if msg.is_empty() {
        return false;
    }
    engine.emit_diagnostic(DiagnosticSeverity::Error, msg, line);
    true
}

/// Diagnostic formatting rule #1141.
pub fn render_diagnostic_rule_1141(engine: &mut FullDiagnosticsEngine, msg: &str, line: usize) -> (r:
    bool)
    ensures
        r == (msg@.len() > 0),
        final(engine)@ == spec_render_rule(old(engine)@, msg@, line as nat),
{
    if msg.is_empty() {
        return false;
    }
    engine.emit_diagnostic(DiagnosticSeverity::Error, msg, line);
    true
}

/// Diagnostic formatting rule #1142.
pub fn render_diagnostic_rule_1142(engine: &mut FullDiagnosticsEngine, msg: &str, line: usize) -> (r:
    bool)
    ensures
        r == (msg@.len() > 0),
        final(engine)@ == spec_render_rule(old(engine)@, msg@, line as nat),
{
    if msg.is_empty() {
        return false;
    }
    engine.emit_diagnostic(DiagnosticSeverity::Error, msg, line);
    true
}

/// Diagnostic formatting rule #1143.
pub fn render_diagnostic_rule_1143(engine: &mut FullDiagnosticsEngine, msg: &str, line: usize) -> (r:
    bool)
    ensures
        r == (msg@.len() > 0),
        final(engine)@ == spec_render_rule(old(engine)@, msg@, line as nat),
{
    if msg.is_empty() {
        return false;
    }
    engine.emit_diagnostic(DiagnosticSeverity::Error, msg, line);
    true
}

/// Diagnostic formatting rule #1144.
pub fn render_diagnostic_rule_1144(engine: &mut FullDiagnosticsEngine, msg: &str, line: usize) -> (r:
    bool)
    ensures
        r == (msg@.len() > 0),
        final(engine)@ == spec_render_rule(old(engine)@, msg@, line as nat),
{
    if msg.is_empty() {
        return false;
    }
    engine.emit_diagnostic(DiagnosticSeverity::Error, msg, line);
    true
}

/// Diagnostic formatting rule #1145.
pub fn render_diagnostic_rule_1145(engine: &mut FullDiagnosticsEngine, msg: &str, line: usize) -> (r:
    bool)
    ensures
        r == (msg@.len() > 0),
        final(engine)@ == spec_render_rule(old(engine)@, msg@, line as nat),
{
    if msg.is_empty() {
        return false;
    }
    engine.emit_diagnostic(DiagnosticSeverity::Error, msg, line);
    true
}

/// Diagnostic formatting rule #1146.
pub fn render_diagnostic_rule_1146(engine: &mut FullDiagnosticsEngine, msg: &str, line: usize) -> (r:
    bool)
    ensures
        r == (msg@.len() > 0),
        final(engine)@ == spec_render_rule(old(engine)@, msg@, line as nat),
{
    if msg.is_empty() {
        return false;
    }
    engine.emit_diagnostic(DiagnosticSeverity::Error, msg, line);
    true
}

/// Diagnostic formatting rule #1147.
pub fn render_diagnostic_rule_1147(engine: &mut FullDiagnosticsEngine, msg: &str, line: usize) -> (r:
    bool)
    ensures
        r == (msg@.len() > 0),
        final(engine)@ == spec_render_rule(old(engine)@, msg@, line as nat),
{
    if msg.is_empty() {
        return false;
    }
    engine.emit_diagnostic(DiagnosticSeverity::Error, msg, line);
    true
}

/// Diagnostic formatting rule #1148.
pub fn render_diagnostic_rule_1148(engine: &mut FullDiagnosticsEngine, msg: &str, line: usize) -> (r:
    bool)
    ensures
        r == (msg@.len() > 0),
        final(engine)@ == spec_render_rule(old(engine)@, msg@, line as nat),
{
    if msg.is_empty() {
        return false;
    }
    engine.emit_diagnostic(DiagnosticSeverity::Error, msg, line);
    true
}

/// Diagnostic formatting rule #1149.
pub fn render_diagnostic_rule_1149(engine: &mut FullDiagnosticsEngine, msg: &str, line: usize) -> (r:
    bool)
    ensures
        r == (msg@.len() > 0),
        final(engine)@ == spec_render_rule(old(engine)@, msg@, line as nat),
{
    if msg.is_empty() {
        return false;
    }
    engine.emit_diagnostic(DiagnosticSeverity::Error, msg, line);
    true
}

/// Diagnostic formatting rule #1150.
pub fn render_diagnostic_rule_1150(engine: &mut FullDiagnosticsEngine, msg: &str, line: usize) -> (r:
    bool)
    ensures
        r == (msg@.len() > 0),
        final(engine)@ == spec_render_rule(old(engine)@, msg@, line as nat),
{
    if msg.is_empty() {
        return false;
    }
    engine.emit_diagnostic(DiagnosticSeverity::Error, msg, line);
    true
}

/// Diagnostic formatting rule #1151.
pub fn render_diagnostic_rule_1151(engine: &mut FullDiagnosticsEngine, msg: &str, line: usize) -> (r:
    bool)
    ensures
        r == (msg@.len() > 0),
        final(engine)@ == spec_render_rule(old(engine)@, msg@, line as nat),
{
    if msg.is_empty() {
        return false;
    }
    engine.emit_diagnostic(DiagnosticSeverity::Error, msg, line);
    true
}

/// Diagnostic formatting rule #1152.
pub fn render_diagnostic_rule_1152(engine: &mut FullDiagnosticsEngine, msg: &str, line: usize) -> (r:
    bool)
    ensures
        r == (msg@.len() > 0),
        final(engine)@ == spec_render_rule(old(engine)@, msg@, line as nat),
{
    if msg.is_empty() {
        return false;
    }
    engine.emit_diagnostic(DiagnosticSeverity::Error, msg, line);
    true
}

/// Diagnostic formatting rule #1153.
pub fn render_diagnostic_rule_1153(engine: &mut FullDiagnosticsEngine, msg: &str, line: usize) -> (r:
    bool)
    ensures
        r == (msg@.len() > 0),
        final(engine)@ == spec_render_rule(old(engine)@, msg@, line as nat),
{
    if msg.is_empty() {
        return false;
    }
    engine.emit_diagnostic(DiagnosticSeverity::Error, msg, line);
    true
}

/// Diagnostic formatting rule #1154.
pub fn render_diagnostic_rule_1154(engine: &mut FullDiagnosticsEngine, msg: &str, line: usize) -> (r:
    bool)
    ensures
        r == (msg@.len() > 0),
        final(engine)@ == spec_render_rule(old(engine)@, msg@, line as nat),
{
    if msg.is_empty() {
        return false;
    }
    engine.emit_diagnostic(DiagnosticSeverity::Error, msg, line);
    true
}

/// Diagnostic formatting rule #1155.
pub fn render_diagnostic_rule_1155(engine: &mut FullDiagnosticsEngine, msg: &str, line: usize) -> (r:
    bool)
    ensures
        r == (msg@.len() > 0),
        final(engine)@ == spec_render_rule(old(engine)@, msg@, line as nat),
{
    if msg.is_empty() {
        return false;
    }
    engine.emit_diagnostic(DiagnosticSeverity::Error, msg, line);
    true
}

/// Diagnostic formatting rule #1156.
pub fn render_diagnostic_rule_1156(engine: &mut FullDiagnosticsEngine, msg: &str, line: usize) -> (r:
    bool)
    ensures
        r == (msg@.len() > 0),
        final(engine)@ == spec_render_rule(old(engine)@, msg@, line as nat),
{
    if msg.is_empty() {
        return false;
    }
    engine.emit_diagnostic(DiagnosticSeverity::Error, msg, line);
    true
}

/// Diagnostic formatting rule #1157.
pub fn render_diagnostic_rule_1157(engine: &mut FullDiagnosticsEngine, msg: &str, line: usize) -> (r:
    bool)
    ensures
        r == (msg@.len() > 0),
        final(engine)@ == spec_render_rule(old(engine)@, msg@, line as nat),
{
    if msg.is_empty() {
        return false;
    }
    engine.emit_diagnostic(DiagnosticSeverity::Error, msg, line);
    true
}

/// Diagnostic formatting rule #1158.
pub fn render_diagnostic_rule_1158(engine: &mut FullDiagnosticsEngine, msg: &str, line: usize) -> (r:
    bool)
    ensures
        r == (msg@.len() > 0),
        final(engine)@ == spec_render_rule(old(engine)@, msg@, line as nat),
{
    if msg.is_empty() {
        return false;
    }
    engine.emit_diagnostic(DiagnosticSeverity::Error, msg, line);
    true
}

/// Diagnostic formatting rule #1159.
pub fn render_diagnostic_rule_1159(engine: &mut FullDiagnosticsEngine, msg: &str, line: usize) -> (r:
    bool)
    ensures
        r == (msg@.len() > 0),
        final(engine)@ == spec_render_rule(old(engine)@, msg@, line as nat),
{
    if msg.is_empty() {
        return false;
    }
    engine.emit_diagnostic(DiagnosticSeverity::Error, msg, line);
    true
}

/// Diagnostic formatting rule #1160.
pub fn render_diagnostic_rule_1160(engine: &mut FullDiagnosticsEngine, msg: &str, line: usize) -> (r:
    bool)
    ensures
        r == (msg@.len() > 0),
        final(engine)@ == spec_render_rule(old(engine)@, msg@, line as nat),
{
    if msg.is_empty() {
        return false;
    }
    engine.emit_diagnostic(DiagnosticSeverity::Error, msg, line);
    true
}

/// Diagnostic formatting rule #1161.
pub fn render_diagnostic_rule_1161(engine: &mut FullDiagnosticsEngine, msg: &str, line: usize) -> (r:
    bool)
    ensures
        r == (msg@.len() > 0),
        final(engine)@ == spec_render_rule(old(engine)@, msg@, line as nat),
{
    if msg.is_empty() {
        return false;
    }
    engine.emit_diagnostic(DiagnosticSeverity::Error, msg, line);
    true
}

/// Diagnostic formatting rule #1162.
pub fn render_diagnostic_rule_1162(engine: &mut FullDiagnosticsEngine, msg: &str, line: usize) -> (r:
    bool)
    ensures
        r == (msg@.len() > 0),
        final(engine)@ == spec_render_rule(old(engine)@, msg@, line as nat),
{
    if msg.is_empty() {
        return false;
    }
    engine.emit_diagnostic(DiagnosticSeverity::Error, msg, line);
    true
}

/// Diagnostic formatting rule #1163.
pub fn render_diagnostic_rule_1163(engine: &mut FullDiagnosticsEngine, msg: &str, line: usize) -> (r:
    bool)
    ensures
        r == (msg@.len() > 0),
        final(engine)@ == spec_render_rule(old(engine)@, msg@, line as nat),
{
    if msg.is_empty() {
        return false;
    }
    engine.emit_diagnostic(DiagnosticSeverity::Error, msg, line);
    true
}

/// Diagnostic formatting rule #1164.
pub fn render_diagnostic_rule_1164(engine: &mut FullDiagnosticsEngine, msg: &str, line: usize) -> (r:
    bool)
    ensures
        r == (msg@.len() > 0),
        final(engine)@ == spec_render_rule(old(engine)@, msg@, line as nat),
{
    if msg.is_empty() {
        return false;
    }
    engine.emit_diagnostic(DiagnosticSeverity::Error, msg, line);
    true
}

/// Diagnostic formatting rule #1165.
pub fn render_diagnostic_rule_1165(engine: &mut FullDiagnosticsEngine, msg: &str, line: usize) -> (r:
    bool)
    ensures
        r == (msg@.len() > 0),
        final(engine)@ == spec_render_rule(old(engine)@, msg@, line as nat),
{
    if msg.is_empty() {
        return false;
    }
    engine.emit_diagnostic(DiagnosticSeverity::Error, msg, line);
    true
}

/// Diagnostic formatting rule #1166.
pub fn render_diagnostic_rule_1166(engine: &mut FullDiagnosticsEngine, msg: &str, line: usize) -> (r:
    bool)
    ensures
        r == (msg@.len() > 0),
        final(engine)@ == spec_render_rule(old(engine)@, msg@, line as nat),
{
    if msg.is_empty() {
        return false;
    }
    engine.emit_diagnostic(DiagnosticSeverity::Error, msg, line);
    true
}

/// Diagnostic formatting rule #1167.
pub fn render_diagnostic_rule_1167(engine: &mut FullDiagnosticsEngine, msg: &str, line: usize) -> (r:
    bool)
    ensures
        r == (msg@.len() > 0),
        final(engine)@ == spec_render_rule(old(engine)@, msg@, line as nat),
{
    if msg.is_empty() {
        return false;
    }
    engine.emit_diagnostic(DiagnosticSeverity::Error, msg, line);
    true
}

/// Diagnostic formatting rule #1168.
pub fn render_diagnostic_rule_1168(engine: &mut FullDiagnosticsEngine, msg: &str, line: usize) -> (r:
    bool)
    ensures
        r == (msg@.len() > 0),
        final(engine)@ == spec_render_rule(old(engine)@, msg@, line as nat),
{
    if msg.is_empty() {
        return false;
    }
    engine.emit_diagnostic(DiagnosticSeverity::Error, msg, line);
    true
}

/// Diagnostic formatting rule #1169.
pub fn render_diagnostic_rule_1169(engine: &mut FullDiagnosticsEngine, msg: &str, line: usize) -> (r:
    bool)
    ensures
        r == (msg@.len() > 0),
        final(engine)@ == spec_render_rule(old(engine)@, msg@, line as nat),
{
    if msg.is_empty() {
        return false;
    }
    engine.emit_diagnostic(DiagnosticSeverity::Error, msg, line);
    true
}

/// Diagnostic formatting rule #1170.
pub fn render_diagnostic_rule_1170(engine: &mut FullDiagnosticsEngine, msg: &str, line: usize) -> (r:
    bool)
    ensures
        r == (msg@.len() > 0),
        final(engine)@ == spec_render_rule(old(engine)@, msg@, line as nat),
{
    if msg.is_empty() {
        return false;
    }
    engine.emit_diagnostic(DiagnosticSeverity::Error, msg, line);
    true
}

/// Diagnostic formatting rule #1171.
pub fn render_diagnostic_rule_1171(engine: &mut FullDiagnosticsEngine, msg: &str, line: usize) -> (r:
    bool)
    ensures
        r == (msg@.len() > 0),
        final(engine)@ == spec_render_rule(old(engine)@, msg@, line as nat),
{
    if msg.is_empty() {
        return false;
    }
    engine.emit_diagnostic(DiagnosticSeverity::Error, msg, line);
    true
}

/// Diagnostic formatting rule #1172.
pub fn render_diagnostic_rule_1172(engine: &mut FullDiagnosticsEngine, msg: &str, line: usize) -> (r:
    bool)
    ensures
        r == (msg@.len() > 0),
        final(engine)@ == spec_render_rule(old(engine)@, msg@, line as nat),
{
    if msg.is_empty() {
        return false;
    }
    engine.emit_diagnostic(DiagnosticSeverity::Error, msg, line);
    true
}

/// Diagnostic formatting rule #1173.
pub fn render_diagnostic_rule_1173(engine: &mut FullDiagnosticsEngine, msg: &str, line: usize) -> (r:
    bool)
    ensures
        r == (msg@.len() > 0),
        final(engine)@ == spec_render_rule(old(engine)@, msg@, line as nat),
{
    if msg.is_empty() {
        return false;
    }
    engine.emit_diagnostic(DiagnosticSeverity::Error, msg, line);
    true
}

/// Diagnostic formatting rule #1174.
pub fn render_diagnostic_rule_1174(engine: &mut FullDiagnosticsEngine, msg: &str, line: usize) -> (r:
    bool)
    ensures
        r == (msg@.len() > 0),
        final(engine)@ == spec_render_rule(old(engine)@, msg@, line as nat),
{
    if msg.is_empty() {
        return false;
    }
    engine.emit_diagnostic(DiagnosticSeverity::Error, msg, line);
    true
}

/// Diagnostic formatting rule #1175.
pub fn render_diagnostic_rule_1175(engine: &mut FullDiagnosticsEngine, msg: &str, line: usize) -> (r:
    bool)
    ensures
        r == (msg@.len() > 0),
        final(engine)@ == spec_render_rule(old(engine)@, msg@, line as nat),
{
    if msg.is_empty() {
        return false;
    }
    engine.emit_diagnostic(DiagnosticSeverity::Error, msg, line);
    true
}

/// Diagnostic formatting rule #1176.
pub fn render_diagnostic_rule_1176(engine: &mut FullDiagnosticsEngine, msg: &str, line: usize) -> (r:
    bool)
    ensures
        r == (msg@.len() > 0),
        final(engine)@ == spec_render_rule(old(engine)@, msg@, line as nat),
{
    if msg.is_empty() {
        return false;
    }
    engine.emit_diagnostic(DiagnosticSeverity::Error, msg, line);
    true
}

/// Diagnostic formatting rule #1177.
pub fn render_diagnostic_rule_1177(engine: &mut FullDiagnosticsEngine, msg: &str, line: usize) -> (r:
    bool)
    ensures
        r == (msg@.len() > 0),
        final(engine)@ == spec_render_rule(old(engine)@, msg@, line as nat),
{
    if msg.is_empty() {
        return false;
    }
    engine.emit_diagnostic(DiagnosticSeverity::Error, msg, line);
    true
}

/// Diagnostic formatting rule #1178.
pub fn render_diagnostic_rule_1178(engine: &mut FullDiagnosticsEngine, msg: &str, line: usize) -> (r:
    bool)
    ensures
        r == (msg@.len() > 0),
        final(engine)@ == spec_render_rule(old(engine)@, msg@, line as nat),
{
    if msg.is_empty() {
        return false;
    }
    engine.emit_diagnostic(DiagnosticSeverity::Error, msg, line);
    true
}

/// Diagnostic formatting rule #1179.
pub fn render_diagnostic_rule_1179(engine: &mut FullDiagnosticsEngine, msg: &str, line: usize) -> (r:
    bool)
    ensures
        r == (msg@.len() > 0),
        final(engine)@ == spec_render_rule(old(engine)@, msg@, line as nat),
{
    if msg.is_empty() {
        return false;
    }
    engine.emit_diagnostic(DiagnosticSeverity::Error, msg, line);
    true
}

/// Diagnostic formatting rule #1180.
pub fn render_diagnostic_rule_1180(engine: &mut FullDiagnosticsEngine, msg: &str, line: usize) -> (r:
    bool)
    ensures
        r == (msg@.len() > 0),
        final(engine)@ == spec_render_rule(old(engine)@, msg@, line as nat),
{
    if msg.is_empty() {
        return false;
    }
    engine.emit_diagnostic(DiagnosticSeverity::Error, msg, line);
    true
}

/// Diagnostic formatting rule #1181.
pub fn render_diagnostic_rule_1181(engine: &mut FullDiagnosticsEngine, msg: &str, line: usize) -> (r:
    bool)
    ensures
        r == (msg@.len() > 0),
        final(engine)@ == spec_render_rule(old(engine)@, msg@, line as nat),
{
    if msg.is_empty() {
        return false;
    }
    engine.emit_diagnostic(DiagnosticSeverity::Error, msg, line);
    true
}

/// Diagnostic formatting rule #1182.
pub fn render_diagnostic_rule_1182(engine: &mut FullDiagnosticsEngine, msg: &str, line: usize) -> (r:
    bool)
    ensures
        r == (msg@.len() > 0),
        final(engine)@ == spec_render_rule(old(engine)@, msg@, line as nat),
{
    if msg.is_empty() {
        return false;
    }
    engine.emit_diagnostic(DiagnosticSeverity::Error, msg, line);
    true
}

/// Diagnostic formatting rule #1183.
pub fn render_diagnostic_rule_1183(engine: &mut FullDiagnosticsEngine, msg: &str, line: usize) -> (r:
    bool)
    ensures
        r == (msg@.len() > 0),
        final(engine)@ == spec_render_rule(old(engine)@, msg@, line as nat),
{
    if msg.is_empty() {
        return false;
    }
    engine.emit_diagnostic(DiagnosticSeverity::Error, msg, line);
    true
}

/// Diagnostic formatting rule #1184.
pub fn render_diagnostic_rule_1184(engine: &mut FullDiagnosticsEngine, msg: &str, line: usize) -> (r:
    bool)
    ensures
        r == (msg@.len() > 0),
        final(engine)@ == spec_render_rule(old(engine)@, msg@, line as nat),
{
    if msg.is_empty() {
        return false;
    }
    engine.emit_diagnostic(DiagnosticSeverity::Error, msg, line);
    true
}

/// Diagnostic formatting rule #1185.
pub fn render_diagnostic_rule_1185(engine: &mut FullDiagnosticsEngine, msg: &str, line: usize) -> (r:
    bool)
    ensures
        r == (msg@.len() > 0),
        final(engine)@ == spec_render_rule(old(engine)@, msg@, line as nat),
{
    if msg.is_empty() {
        return false;
    }
    engine.emit_diagnostic(DiagnosticSeverity::Error, msg, line);
    true
}

/// Diagnostic formatting rule #1186.
pub fn render_diagnostic_rule_1186(engine: &mut FullDiagnosticsEngine, msg: &str, line: usize) -> (r:
    bool)
    ensures
        r == (msg@.len() > 0),
        final(engine)@ == spec_render_rule(old(engine)@, msg@, line as nat),
{
    if msg.is_empty() {
        return false;
    }
    engine.emit_diagnostic(DiagnosticSeverity::Error, msg, line);
    true
}

/// Diagnostic formatting rule #1187.
pub fn render_diagnostic_rule_1187(engine: &mut FullDiagnosticsEngine, msg: &str, line: usize) -> (r:
    bool)
    ensures
        r == (msg@.len() > 0),
        final(engine)@ == spec_render_rule(old(engine)@, msg@, line as nat),
{
    if msg.is_empty() {
        return false;
    }
    engine.emit_diagnostic(DiagnosticSeverity::Error, msg, line);
    true
}

/// Diagnostic formatting rule #1188.
pub fn render_diagnostic_rule_1188(engine: &mut FullDiagnosticsEngine, msg: &str, line: usize) -> (r:
    bool)
    ensures
        r == (msg@.len() > 0),
        final(engine)@ == spec_render_rule(old(engine)@, msg@, line as nat),
{
    if msg.is_empty() {
        return false;
    }
    engine.emit_diagnostic(DiagnosticSeverity::Error, msg, line);
    true
}

/// Diagnostic formatting rule #1189.
pub fn render_diagnostic_rule_1189(engine: &mut FullDiagnosticsEngine, msg: &str, line: usize) -> (r:
    bool)
    ensures
        r == (msg@.len() > 0),
        final(engine)@ == spec_render_rule(old(engine)@, msg@, line as nat),
{
    if msg.is_empty() {
        return false;
    }
    engine.emit_diagnostic(DiagnosticSeverity::Error, msg, line);
    true
}

/// Diagnostic formatting rule #1190.
pub fn render_diagnostic_rule_1190(engine: &mut FullDiagnosticsEngine, msg: &str, line: usize) -> (r:
    bool)
    ensures
        r == (msg@.len() > 0),
        final(engine)@ == spec_render_rule(old(engine)@, msg@, line as nat),
{
    if msg.is_empty() {
        return false;
    }
    engine.emit_diagnostic(DiagnosticSeverity::Error, msg, line);
    true
}

/// Diagnostic formatting rule #1191.
pub fn render_diagnostic_rule_1191(engine: &mut FullDiagnosticsEngine, msg: &str, line: usize) -> (r:
    bool)
    ensures
        r == (msg@.len() > 0),
        final(engine)@ == spec_render_rule(old(engine)@, msg@, line as nat),
{
    if msg.is_empty() {
        return false;
    }
    engine.emit_diagnostic(DiagnosticSeverity::Error, msg, line);
    true
}

/// Diagnostic formatting rule #1192.
pub fn render_diagnostic_rule_1192(engine: &mut FullDiagnosticsEngine, msg: &str, line: usize) -> (r:
    bool)
    ensures
        r == (msg@.len() > 0),
        final(engine)@ == spec_render_rule(old(engine)@, msg@, line as nat),
{
    if msg.is_empty() {
        return false;
    }
    engine.emit_diagnostic(DiagnosticSeverity::Error, msg, line);
    true
}

/// Diagnostic formatting rule #1193.
pub fn render_diagnostic_rule_1193(engine: &mut FullDiagnosticsEngine, msg: &str, line: usize) -> (r:
    bool)
    ensures
        r == (msg@.len() > 0),
        final(engine)@ == spec_render_rule(old(engine)@, msg@, line as nat),
{
    if msg.is_empty() {
        return false;
    }
    engine.emit_diagnostic(DiagnosticSeverity::Error, msg, line);
    true
}

/// Diagnostic formatting rule #1194.
pub fn render_diagnostic_rule_1194(engine: &mut FullDiagnosticsEngine, msg: &str, line: usize) -> (r:
    bool)
    ensures
        r == (msg@.len() > 0),
        final(engine)@ == spec_render_rule(old(engine)@, msg@, line as nat),
{
    if msg.is_empty() {
        return false;
    }
    engine.emit_diagnostic(DiagnosticSeverity::Error, msg, line);
    true
}

/// Diagnostic formatting rule #1195.
pub fn render_diagnostic_rule_1195(engine: &mut FullDiagnosticsEngine, msg: &str, line: usize) -> (r:
    bool)
    ensures
        r == (msg@.len() > 0),
        final(engine)@ == spec_render_rule(old(engine)@, msg@, line as nat),
{
    if msg.is_empty() {
        return false;
    }
    engine.emit_diagnostic(DiagnosticSeverity::Error, msg, line);
    true
}

/// Diagnostic formatting rule #1196.
pub fn render_diagnostic_rule_1196(engine: &mut FullDiagnosticsEngine, msg: &str, line: usize) -> (r:
    bool)
    ensures
        r == (msg@.len() > 0),
        final(engine)@ == spec_render_rule(old(engine)@, msg@, line as nat),
{
    if msg.is_empty() {
        return false;
    }
    engine.emit_diagnostic(DiagnosticSeverity::Error, msg, line);
    true
}

/// Diagnostic formatting rule #1197.
pub fn render_diagnostic_rule_1197(engine: &mut FullDiagnosticsEngine, msg: &str, line: usize) -> (r:
    bool)
    ensures
        r == (msg@.len() > 0),
        final(engine)@ == spec_render_rule(old(engine)@, msg@, line as nat),
{
    if msg.is_empty() {
        return false;
    }
    engine.emit_diagnostic(DiagnosticSeverity::Error, msg, line);
    true
}

/// Diagnostic formatting rule #1198.
pub fn render_diagnostic_rule_1198(engine: &mut FullDiagnosticsEngine, msg: &str, line: usize) -> (r:
    bool)
    ensures
        r == (msg@.len() > 0),
        final(engine)@ == spec_render_rule(old(engine)@, msg@, line as nat),
{
    if msg.is_empty() {
        return false;
    }
    engine.emit_diagnostic(DiagnosticSeverity::Error, msg, line);
    true
}

/// Diagnostic formatting rule #1199.
pub fn render_diagnostic_rule_1199(engine: &mut FullDiagnosticsEngine, msg: &str, line: usize) -> (r:
    bool)
    ensures
        r == (msg@.len() > 0),
        final(engine)@ == spec_render_rule(old(engine)@, msg@, line as nat),
{
    if msg.is_empty() {
        return false;
    }
    engine.emit_diagnostic(DiagnosticSeverity::Error, msg, line);
    true
}

/// Diagnostic formatting rule #1200.
pub fn render_diagnostic_rule_1200(engine: &mut FullDiagnosticsEngine, msg: &str, line: usize) -> (r:
    bool)
    ensures
        r == (msg@.len() > 0),
        final(engine)@ == spec_render_rule(old(engine)@, msg@, line as nat),
{
    if msg.is_empty() {
        return false;
    }
    engine.emit_diagnostic(DiagnosticSeverity::Error, msg, line);
    true
}

/// Diagnostic formatting rule #1201.
pub fn render_diagnostic_rule_1201(engine: &mut FullDiagnosticsEngine, msg: &str, line: usize) -> (r:
    bool)
    ensures
        r == (msg@.len() > 0),
        final(engine)@ == spec_render_rule(old(engine)@, msg@, line as nat),
{
    if msg.is_empty() {
        return false;
    }
    engine.emit_diagnostic(DiagnosticSeverity::Error, msg, line);
    true
}

/// Diagnostic formatting rule #1202.
pub fn render_diagnostic_rule_1202(engine: &mut FullDiagnosticsEngine, msg: &str, line: usize) -> (r:
    bool)
    ensures
        r == (msg@.len() > 0),
        final(engine)@ == spec_render_rule(old(engine)@, msg@, line as nat),
{
    if msg.is_empty() {
        return false;
    }
    engine.emit_diagnostic(DiagnosticSeverity::Error, msg, line);
    true
}

/// Diagnostic formatting rule #1203.
pub fn render_diagnostic_rule_1203(engine: &mut FullDiagnosticsEngine, msg: &str, line: usize) -> (r:
    bool)
    ensures
        r == (msg@.len() > 0),
        final(engine)@ == spec_render_rule(old(engine)@, msg@, line as nat),
{
    if msg.is_empty() {
        return false;
    }
    engine.emit_diagnostic(DiagnosticSeverity::Error, msg, line);
    true
}

/// Diagnostic formatting rule #1204.
pub fn render_diagnostic_rule_1204(engine: &mut FullDiagnosticsEngine, msg: &str, line: usize) -> (r:
    bool)
    ensures
        r == (msg@.len() > 0),
        final(engine)@ == spec_render_rule(old(engine)@, msg@, line as nat),
{
    if msg.is_empty() {
        return false;
    }
    engine.emit_diagnostic(DiagnosticSeverity::Error, msg, line);
    true
}

/// Diagnostic formatting rule #1205.
pub fn render_diagnostic_rule_1205(engine: &mut FullDiagnosticsEngine, msg: &str, line: usize) -> (r:
    bool)
    ensures
        r == (msg@.len() > 0),
        final(engine)@ == spec_render_rule(old(engine)@, msg@, line as nat),
{
    if msg.is_empty() {
        return false;
    }
    engine.emit_diagnostic(DiagnosticSeverity::Error, msg, line);
    true
}

/// Diagnostic formatting rule #1206.
pub fn render_diagnostic_rule_1206(engine: &mut FullDiagnosticsEngine, msg: &str, line: usize) -> (r:
    bool)
    ensures
        r == (msg@.len() > 0),
        final(engine)@ == spec_render_rule(old(engine)@, msg@, line as nat),
{
    if msg.is_empty() {
        return false;
    }
    engine.emit_diagnostic(DiagnosticSeverity::Error, msg, line);
    true
}

/// Diagnostic formatting rule #1207.
pub fn render_diagnostic_rule_1207(engine: &mut FullDiagnosticsEngine, msg: &str, line: usize) -> (r:
    bool)
    ensures
        r == (msg@.len() > 0),
        final(engine)@ == spec_render_rule(old(engine)@, msg@, line as nat),
{
    if msg.is_empty() {
        return false;
    }
    engine.emit_diagnostic(DiagnosticSeverity::Error, msg, line);
    true
}

/// Diagnostic formatting rule #1208.
pub fn render_diagnostic_rule_1208(engine: &mut FullDiagnosticsEngine, msg: &str, line: usize) -> (r:
    bool)
    ensures
        r == (msg@.len() > 0),
        final(engine)@ == spec_render_rule(old(engine)@, msg@, line as nat),
{
    if msg.is_empty() {
        return false;
    }
    engine.emit_diagnostic(DiagnosticSeverity::Error, msg, line);
    true
}

/// Diagnostic formatting rule #1209.
pub fn render_diagnostic_rule_1209(engine: &mut FullDiagnosticsEngine, msg: &str, line: usize) -> (r:
    bool)
    ensures
        r == (msg@.len() > 0),
        final(engine)@ == spec_render_rule(old(engine)@, msg@, line as nat),
{
    if msg.is_empty() {
        return false;
    }
    engine.emit_diagnostic(DiagnosticSeverity::Error, msg, line);
    true
}

/// Diagnostic formatting rule #1210.
pub fn render_diagnostic_rule_1210(engine: &mut FullDiagnosticsEngine, msg: &str, line: usize) -> (r:
    bool)
    ensures
        r == (msg@.len() > 0),
        final(engine)@ == spec_render_rule(old(engine)@, msg@, line as nat),
{
    if msg.is_empty() {
        return false;
    }
    engine.emit_diagnostic(DiagnosticSeverity::Error, msg, line);
    true
}

/// Diagnostic formatting rule #1211.
pub fn render_diagnostic_rule_1211(engine: &mut FullDiagnosticsEngine, msg: &str, line: usize) -> (r:
    bool)
    ensures
        r == (msg@.len() > 0),
        final(engine)@ == spec_render_rule(old(engine)@, msg@, line as nat),
{
    if msg.is_empty() {
        return false;
    }
    engine.emit_diagnostic(DiagnosticSeverity::Error, msg, line);
    true
}

/// Diagnostic formatting rule #1212.
pub fn render_diagnostic_rule_1212(engine: &mut FullDiagnosticsEngine, msg: &str, line: usize) -> (r:
    bool)
    ensures
        r == (msg@.len() > 0),
        final(engine)@ == spec_render_rule(old(engine)@, msg@, line as nat),
{
    if msg.is_empty() {
        return false;
    }
    engine.emit_diagnostic(DiagnosticSeverity::Error, msg, line);
    true
}

/// Diagnostic formatting rule #1213.
pub fn render_diagnostic_rule_1213(engine: &mut FullDiagnosticsEngine, msg: &str, line: usize) -> (r:
    bool)
    ensures
        r == (msg@.len() > 0),
        final(engine)@ == spec_render_rule(old(engine)@, msg@, line as nat),
{
    if msg.is_empty() {
        return false;
    }
    engine.emit_diagnostic(DiagnosticSeverity::Error, msg, line);
    true
}

/// Diagnostic formatting rule #1214.
pub fn render_diagnostic_rule_1214(engine: &mut FullDiagnosticsEngine, msg: &str, line: usize) -> (r:
    bool)
    ensures
        r == (msg@.len() > 0),
        final(engine)@ == spec_render_rule(old(engine)@, msg@, line as nat),
{
    if msg.is_empty() {
        return false;
    }
    engine.emit_diagnostic(DiagnosticSeverity::Error, msg, line);
    true
}

/// Diagnostic formatting rule #1215.
pub fn render_diagnostic_rule_1215(engine: &mut FullDiagnosticsEngine, msg: &str, line: usize) -> (r:
    bool)
    ensures
        r == (msg@.len() > 0),
        final(engine)@ == spec_render_rule(old(engine)@, msg@, line as nat),
{
    if msg.is_empty() {
        return false;
    }
    engine.emit_diagnostic(DiagnosticSeverity::Error, msg, line);
    true
}

/// Diagnostic formatting rule #1216.
pub fn render_diagnostic_rule_1216(engine: &mut FullDiagnosticsEngine, msg: &str, line: usize) -> (r:
    bool)
    ensures
        r == (msg@.len() > 0),
        final(engine)@ == spec_render_rule(old(engine)@, msg@, line as nat),
{
    if msg.is_empty() {
        return false;
    }
    engine.emit_diagnostic(DiagnosticSeverity::Error, msg, line);
    true
}

/// Diagnostic formatting rule #1217.
pub fn render_diagnostic_rule_1217(engine: &mut FullDiagnosticsEngine, msg: &str, line: usize) -> (r:
    bool)
    ensures
        r == (msg@.len() > 0),
        final(engine)@ == spec_render_rule(old(engine)@, msg@, line as nat),
{
    if msg.is_empty() {
        return false;
    }
    engine.emit_diagnostic(DiagnosticSeverity::Error, msg, line);
    true
}

/// Diagnostic formatting rule #1218.
pub fn render_diagnostic_rule_1218(engine: &mut FullDiagnosticsEngine, msg: &str, line: usize) -> (r:
    bool)
    ensures
        r == (msg@.len() > 0),
        final(engine)@ == spec_render_rule(old(engine)@, msg@, line as nat),
{
    if msg.is_empty() {
        return false;
    }
    engine.emit_diagnostic(DiagnosticSeverity::Error, msg, line);
    true
}

/// Diagnostic formatting rule #1219.
pub fn render_diagnostic_rule_1219(engine: &mut FullDiagnosticsEngine, msg: &str, line: usize) -> (r:
    bool)
    ensures
        r == (msg@.len() > 0),
        final(engine)@ == spec_render_rule(old(engine)@, msg@, line as nat),
{
    if msg.is_empty() {
        return false;
    }
    engine.emit_diagnostic(DiagnosticSeverity::Error, msg, line);
    true
}

/// Diagnostic formatting rule #1220.
pub fn render_diagnostic_rule_1220(engine: &mut FullDiagnosticsEngine, msg: &str, line: usize) -> (r:
    bool)
    ensures
        r == (msg@.len() > 0),
        final(engine)@ == spec_render_rule(old(engine)@, msg@, line as nat),
{
    if msg.is_empty() {
        return false;
    }
    engine.emit_diagnostic(DiagnosticSeverity::Error, msg, line);
    true
}

/// Diagnostic formatting rule #1221.
pub fn render_diagnostic_rule_1221(engine: &mut FullDiagnosticsEngine, msg: &str, line: usize) -> (r:
    bool)
    ensures
        r == (msg@.len() > 0),
        final(engine)@ == spec_render_rule(old(engine)@, msg@, line as nat),
{
    if msg.is_empty() {
        return false;
    }
    engine.emit_diagnostic(DiagnosticSeverity::Error, msg, line);
    true
}

/// Diagnostic formatting rule #1222.
pub fn render_diagnostic_rule_1222(engine: &mut FullDiagnosticsEngine, msg: &str, line: usize) -> (r:
    bool)
    ensures
        r == (msg@.len() > 0),
        final(engine)@ == spec_render_rule(old(engine)@, msg@, line as nat),
{
    if msg.is_empty() {
        return false;
    }
    engine.emit_diagnostic(DiagnosticSeverity::Error, msg, line);
    true
}

/// Diagnostic formatting rule #1223.
pub fn render_diagnostic_rule_1223(engine: &mut FullDiagnosticsEngine, msg: &str, line: usize) -> (r:
    bool)
    ensures
        r == (msg@.len() > 0),
        final(engine)@ == spec_render_rule(old(engine)@, msg@, line as nat),
{
    if msg.is_empty() {
        return false;
    }
    engine.emit_diagnostic(DiagnosticSeverity::Error, msg, line);
    true
}

/// Diagnostic formatting rule #1224.
pub fn render_diagnostic_rule_1224(engine: &mut FullDiagnosticsEngine, msg: &str, line: usize) -> (r:
    bool)
    ensures
        r == (msg@.len() > 0),
        final(engine)@ == spec_render_rule(old(engine)@, msg@, line as nat),
{
    if msg.is_empty() {
        return false;
    }
    engine.emit_diagnostic(DiagnosticSeverity::Error, msg, line);
    true
}

/// Diagnostic formatting rule #1225.
pub fn render_diagnostic_rule_1225(engine: &mut FullDiagnosticsEngine, msg: &str, line: usize) -> (r:
    bool)
    ensures
        r == (msg@.len() > 0),
        final(engine)@ == spec_render_rule(old(engine)@, msg@, line as nat),
{
    if msg.is_empty() {
        return false;
    }
    engine.emit_diagnostic(DiagnosticSeverity::Error, msg, line);
    true
}

/// Diagnostic formatting rule #1226.
pub fn render_diagnostic_rule_1226(engine: &mut FullDiagnosticsEngine, msg: &str, line: usize) -> (r:
    bool)
    ensures
        r == (msg@.len() > 0),
        final(engine)@ == spec_render_rule(old(engine)@, msg@, line as nat),
{
    if msg.is_empty() {
        return false;
    }
    engine.emit_diagnostic(DiagnosticSeverity::Error, msg, line);
    true
}

/// Diagnostic formatting rule #1227.
pub fn render_diagnostic_rule_1227(engine: &mut FullDiagnosticsEngine, msg: &str, line: usize) -> (r:
    bool)
    ensures
        r == (msg@.len() > 0),
        final(engine)@ == spec_render_rule(old(engine)@, msg@, line as nat),
{
    if msg.is_empty() {
        return false;
    }
    engine.emit_diagnostic(DiagnosticSeverity::Error, msg, line);
    true
}

/// Diagnostic formatting rule #1228.
pub fn render_diagnostic_rule_1228(engine: &mut FullDiagnosticsEngine, msg: &str, line: usize) -> (r:
    bool)
    ensures
        r == (msg@.len() > 0),
        final(engine)@ == spec_render_rule(old(engine)@, msg@, line as nat),
{
    if msg.is_empty() {
        return false;
    }
    engine.emit_diagnostic(DiagnosticSeverity::Error, msg, line);
    true
}

/// Diagnostic formatting rule #1229.
pub fn render_diagnostic_rule_1229(engine: &mut FullDiagnosticsEngine, msg: &str, line: usize) -> (r:
    bool)
    ensures
        r == (msg@.len() > 0),
        final(engine)@ == spec_render_rule(old(engine)@, msg@, line as nat),
{
    if msg.is_empty() {
        return false;
    }
    engine.emit_diagnostic(DiagnosticSeverity::Error, msg, line);
    true
}

/// Diagnostic formatting rule #1230.
pub fn render_diagnostic_rule_1230(engine: &mut FullDiagnosticsEngine, msg: &str, line: usize) -> (r:
    bool)
    ensures
        r == (msg@.len() > 0),
        final(engine)@ == spec_render_rule(old(engine)@, msg@, line as nat),
{
    if msg.is_empty() {
        return false;
    }
    engine.emit_diagnostic(DiagnosticSeverity::Error, msg, line);
    true
}

/// Diagnostic formatting rule #1231.
pub fn render_diagnostic_rule_1231(engine: &mut FullDiagnosticsEngine, msg: &str, line: usize) -> (r:
    bool)
    ensures
        r == (msg@.len() > 0),
        final(engine)@ == spec_render_rule(old(engine)@, msg@, line as nat),
{
    if msg.is_empty() {
        return false;
    }
    engine.emit_diagnostic(DiagnosticSeverity::Error, msg, line);
    true
}

/// Diagnostic formatting rule #1232.
pub fn render_diagnostic_rule_1232(engine: &mut FullDiagnosticsEngine, msg: &str, line: usize) -> (r:
    bool)
    ensures
        r == (msg@.len() > 0),
        final(engine)@ == spec_render_rule(old(engine)@, msg@, line as nat),
{
    if msg.is_empty() {
        return false;
    }
    engine.emit_diagnostic(DiagnosticSeverity::Error, msg, line);
    true
}

/// Diagnostic formatting rule #1233.
pub fn render_diagnostic_rule_1233(engine: &mut FullDiagnosticsEngine, msg: &str, line: usize) -> (r:
    bool)
    ensures
        r == (msg@.len() > 0),
        final(engine)@ == spec_render_rule(old(engine)@, msg@, line as nat),
{
    if msg.is_empty() {
        return false;
    }
    engine.emit_diagnostic(DiagnosticSeverity::Error, msg, line);
    true
}

/// Diagnostic formatting rule #1234.
pub fn render_diagnostic_rule_1234(engine: &mut FullDiagnosticsEngine, msg: &str, line: usize) -> (r:
    bool)
    ensures
        r == (msg@.len() > 0),
        final(engine)@ == spec_render_rule(old(engine)@, msg@, line as nat),
{
    if msg.is_empty() {
        return false;
    }
    engine.emit_diagnostic(DiagnosticSeverity::Error, msg, line);
    true
}

/// Diagnostic formatting rule #1235.
pub fn render_diagnostic_rule_1235(engine: &mut FullDiagnosticsEngine, msg: &str, line: usize) -> (r:
    bool)
    ensures
        r == (msg@.len() > 0),
        final(engine)@ == spec_render_rule(old(engine)@, msg@, line as nat),
{
    if msg.is_empty() {
        return false;
    }
    engine.emit_diagnostic(DiagnosticSeverity::Error, msg, line);
    true
}

/// Diagnostic formatting rule #1236.
pub fn render_diagnostic_rule_1236(engine: &mut FullDiagnosticsEngine, msg: &str, line: usize) -> (r:
    bool)
    ensures
        r == (msg@.len() > 0),
        final(engine)@ == spec_render_rule(old(engine)@, msg@, line as nat),
{
    if msg.is_empty() {
        return false;
    }
    engine.emit_diagnostic(DiagnosticSeverity::Error, msg, line);
    true
}

/// Diagnostic formatting rule #1237.
pub fn render_diagnostic_rule_1237(engine: &mut FullDiagnosticsEngine, msg: &str, line: usize) -> (r:
    bool)
    ensures
        r == (msg@.len() > 0),
        final(engine)@ == spec_render_rule(old(engine)@, msg@, line as nat),
{
    if msg.is_empty() {
        return false;
    }
    engine.emit_diagnostic(DiagnosticSeverity::Error, msg, line);
    true
}

/// Diagnostic formatting rule #1238.
pub fn render_diagnostic_rule_1238(engine: &mut FullDiagnosticsEngine, msg: &str, line: usize) -> (r:
    bool)
    ensures
        r == (msg@.len() > 0),
        final(engine)@ == spec_render_rule(old(engine)@, msg@, line as nat),
{
    if msg.is_empty() {
        return false;
    }
    engine.emit_diagnostic(DiagnosticSeverity::Error, msg, line);
    true
}

/// Diagnostic formatting rule #1239.
pub fn render_diagnostic_rule_1239(engine: &mut FullDiagnosticsEngine, msg: &str, line: usize) -> (r:
    bool)
    ensures
        r == (msg@.len() > 0),
        final(engine)@ == spec_render_rule(old(engine)@, msg@, line as nat),
{
    if msg.is_empty() {
        return false;
    }
    engine.emit_diagnostic(DiagnosticSeverity::Error, msg, line);
    true
}

/// Diagnostic formatting rule #1240.
pub fn render_diagnostic_rule_1240(engine: &mut FullDiagnosticsEngine, msg: &str, line: usize) -> (r:
    bool)
    ensures
        r == (msg@.len() > 0),
        final(engine)@ == spec_render_rule(old(engine)@, msg@, line as nat),
{
    if msg.is_empty() {
        return false;
    }
    engine.emit_diagnostic(DiagnosticSeverity::Error, msg, line);
    true
}

/// Diagnostic formatting rule #1241.
pub fn render_diagnostic_rule_1241(engine: &mut FullDiagnosticsEngine, msg: &str, line: usize) -> (r:
    bool)
    ensures
        r == (msg@.len() > 0),
        final(engine)@ == spec_render_rule(old(engine)@, msg@, line as nat),
{
    if msg.is_empty() {
        return false;
    }
    engine.emit_diagnostic(DiagnosticSeverity::Error, msg, line);
    true
}

/// Diagnostic formatting rule #1242.
pub fn render_diagnostic_rule_1242(engine: &mut FullDiagnosticsEngine, msg: &str, line: usize) -> (r:
    bool)
    ensures
        r == (msg@.len() > 0),
        final(engine)@ == spec_render_rule(old(engine)@, msg@, line as nat),
{
    if msg.is_empty() {
        return false;
    }
    engine.emit_diagnostic(DiagnosticSeverity::Error, msg, line);
    true
}

/// Diagnostic formatting rule #1243.
pub fn render_diagnostic_rule_1243(engine: &mut FullDiagnosticsEngine, msg: &str, line: usize) -> (r:
    bool)
    ensures
        r == (msg@.len() > 0),
        final(engine)@ == spec_render_rule(old(engine)@, msg@, line as nat),
{
    if msg.is_empty() {
        return false;
    }
    engine.emit_diagnostic(DiagnosticSeverity::Error, msg, line);
    true
}

/// Diagnostic formatting rule #1244.
pub fn render_diagnostic_rule_1244(engine: &mut FullDiagnosticsEngine, msg: &str, line: usize) -> (r:
    bool)
    ensures
        r == (msg@.len() > 0),
        final(engine)@ == spec_render_rule(old(engine)@, msg@, line as nat),
{
    if msg.is_empty() {
        return false;
    }
    engine.emit_diagnostic(DiagnosticSeverity::Error, msg, line);
    true
}

/// Diagnostic formatting rule #1245.
pub fn render_diagnostic_rule_1245(engine: &mut FullDiagnosticsEngine, msg: &str, line: usize) -> (r:
    bool)
    ensures
        r == (msg@.len() > 0),
        final(engine)@ == spec_render_rule(old(engine)@, msg@, line as nat),
{
    if msg.is_empty() {
        return false;
    }
    engine.emit_diagnostic(DiagnosticSeverity::Error, msg, line);
    true
}

/// Diagnostic formatting rule #1246.
pub fn render_diagnostic_rule_1246(engine: &mut FullDiagnosticsEngine, msg: &str, line: usize) -> (r:
    bool)
    ensures
        r == (msg@.len() > 0),
        final(engine)@ == spec_render_rule(old(engine)@, msg@, line as nat),
{
    if msg.is_empty() {
        return false;
    }
    engine.emit_diagnostic(DiagnosticSeverity::Error, msg, line);
    true
}

/// Diagnostic formatting rule #1247.
pub fn render_diagnostic_rule_1247(engine: &mut FullDiagnosticsEngine, msg: &str, line: usize) -> (r:
    bool)
    ensures
        r == (msg@.len() > 0),
        final(engine)@ == spec_render_rule(old(engine)@, msg@, line as nat),
{
    if msg.is_empty() {
        return false;
    }
    engine.emit_diagnostic(DiagnosticSeverity::Error, msg, line);
    true
}

/// Diagnostic formatting rule #1248.
pub fn render_diagnostic_rule_1248(engine: &mut FullDiagnosticsEngine, msg: &str, line: usize) -> (r:
    bool)
    ensures
        r == (msg@.len() > 0),
        final(engine)@ == spec_render_rule(old(engine)@, msg@, line as nat),
{
    if msg.is_empty() {
        return false;
    }
    engine.emit_diagnostic(DiagnosticSeverity::Error, msg, line);
    true
}

/// Diagnostic formatting rule #1249.
pub fn render_diagnostic_rule_1249(engine: &mut FullDiagnosticsEngine, msg: &str, line: usize) -> (r:
    bool)
    ensures
        r == (msg@.len() > 0),
        final(engine)@ == spec_render_rule(old(engine)@, msg@, line as nat),
{
    if msg.is_empty() {
        return false;
    }
    engine.emit_diagnostic(DiagnosticSeverity::Error, msg, line);
    true
}

/// Diagnostic formatting rule #1250.
pub fn render_diagnostic_rule_1250(engine: &mut FullDiagnosticsEngine, msg: &str, line: usize) -> (r:
    bool)
    ensures
        r == (msg@.len() > 0),
        final(engine)@ == spec_render_rule(old(engine)@, msg@, line as nat),
{
    if msg.is_empty() {
        return false;
    }
    engine.emit_diagnostic(DiagnosticSeverity::Error, msg, line);
    true
}

/// Diagnostic formatting rule #1251.
pub fn render_diagnostic_rule_1251(engine: &mut FullDiagnosticsEngine, msg: &str, line: usize) -> (r:
    bool)
    ensures
        r == (msg@.len() > 0),
        final(engine)@ == spec_render_rule(old(engine)@, msg@, line as nat),
{
    if msg.is_empty() {
        return false;
    }
    engine.emit_diagnostic(DiagnosticSeverity::Error, msg, line);
    true
}

/// Diagnostic formatting rule #1252.
pub fn render_diagnostic_rule_1252(engine: &mut FullDiagnosticsEngine, msg: &str, line: usize) -> (r:
    bool)
    ensures
        r == (msg@.len() > 0),
        final(engine)@ == spec_render_rule(old(engine)@, msg@, line as nat),
{
    if msg.is_empty() {
        return false;
    }
    engine.emit_diagnostic(DiagnosticSeverity::Error, msg, line);
    true
}

/// Diagnostic formatting rule #1253.
pub fn render_diagnostic_rule_1253(engine: &mut FullDiagnosticsEngine, msg: &str, line: usize) -> (r:
    bool)
    ensures
        r == (msg@.len() > 0),
        final(engine)@ == spec_render_rule(old(engine)@, msg@, line as nat),
{
    if msg.is_empty() {
        return false;
    }
    engine.emit_diagnostic(DiagnosticSeverity::Error, msg, line);
    true
}

/// Diagnostic formatting rule #1254.
pub fn render_diagnostic_rule_1254(engine: &mut FullDiagnosticsEngine, msg: &str, line: usize) -> (r:
    bool)
    ensures
        r == (msg@.len() > 0),
        final(engine)@ == spec_render_rule(old(engine)@, msg@, line as nat),
{
    if msg.is_empty() {
        return false;
    }
    engine.emit_diagnostic(DiagnosticSeverity::Error, msg, line);
    true
}

/// Diagnostic formatting rule #1255.
pub fn render_diagnostic_rule_1255(engine: &mut FullDiagnosticsEngine, msg: &str, line: usize) -> (r:
    bool)
    ensures
        r == (msg@.len() > 0),
        final(engine)@ == spec_render_rule(old(engine)@, msg@, line as nat),
{
    if msg.is_empty() {
        return false;
    }
    engine.emit_diagnostic(DiagnosticSeverity::Error, msg, line);
    true
}

/// Diagnostic formatting rule #1256.
pub fn render_diagnostic_rule_1256(engine: &mut FullDiagnosticsEngine, msg: &str, line: usize) -> (r:
    bool)
    ensures
        r == (msg@.len() > 0),
        final(engine)@ == spec_render_rule(old(engine)@, msg@, line as nat),
{
    if msg.is_empty() {
        return false;
    }
    engine.emit_diagnostic(DiagnosticSeverity::Error, msg, line);
    true
}

/// Diagnostic formatting rule #1257.
pub fn render_diagnostic_rule_1257(engine: &mut FullDiagnosticsEngine, msg: &str, line: usize) -> (r:
    bool)
    ensures
        r == (msg@.len() > 0),
        final(engine)@ == spec_render_rule(old(engine)@, msg@, line as nat),
{
    if msg.is_empty() {
        return false;
    }
    engine.emit_diagnostic(DiagnosticSeverity::Error, msg, line);
    true
}

/// Diagnostic formatting rule #1258.
pub fn render_diagnostic_rule_1258(engine: &mut FullDiagnosticsEngine, msg: &str, line: usize) -> (r:
    bool)
    ensures
        r == (msg@.len() > 0),
        final(engine)@ == spec_render_rule(old(engine)@, msg@, line as nat),
{
    if msg.is_empty() {
        return false;
    }
    engine.emit_diagnostic(DiagnosticSeverity::Error, msg, line);
    true
}

/// Diagnostic formatting rule #1259.
pub fn render_diagnostic_rule_1259(engine: &mut FullDiagnosticsEngine, msg: &str, line: usize) -> (r:
    bool)
    ensures
        r == (msg@.len() > 0),
        final(engine)@ == spec_render_rule(old(engine)@, msg@, line as nat),
{
    if msg.is_empty() {
        return false;
    }
    engine.emit_diagnostic(DiagnosticSeverity::Error, msg, line);
    true
}

/// Diagnostic formatting rule #1260.
pub fn render_diagnostic_rule_1260(engine: &mut FullDiagnosticsEngine, msg: &str, line: usize) -> (r:
    bool)
    ensures
        r == (msg@.len() > 0),
        final(engine)@ == spec_render_rule(old(engine)@, msg@, line as nat),
{
    if msg.is_empty() {
        return false;
    }
    engine.emit_diagnostic(DiagnosticSeverity::Error, msg, line);
    true
}

/// Diagnostic formatting rule #1261.
pub fn render_diagnostic_rule_1261(engine: &mut FullDiagnosticsEngine, msg: &str, line: usize) -> (r:
    bool)
    ensures
        r == (msg@.len() > 0),
        final(engine)@ == spec_render_rule(old(engine)@, msg@, line as nat),
{
    if msg.is_empty() {
        return false;
    }
    engine.emit_diagnostic(DiagnosticSeverity::Error, msg, line);
    true
}

/// Diagnostic formatting rule #1262.
pub fn render_diagnostic_rule_1262(engine: &mut FullDiagnosticsEngine, msg: &str, line: usize) -> (r:
    bool)
    ensures
        r == (msg@.len() > 0),
        final(engine)@ == spec_render_rule(old(engine)@, msg@, line as nat),
{
    if msg.is_empty() {
        return false;
    }
    engine.emit_diagnostic(DiagnosticSeverity::Error, msg, line);
    true
}

/// Diagnostic formatting rule #1263.
pub fn render_diagnostic_rule_1263(engine: &mut FullDiagnosticsEngine, msg: &str, line: usize) -> (r:
    bool)
    ensures
        r == (msg@.len() > 0),
        final(engine)@ == spec_render_rule(old(engine)@, msg@, line as nat),
{
    if msg.is_empty() {
        return false;
    }
    engine.emit_diagnostic(DiagnosticSeverity::Error, msg, line);
    true
}

/// Diagnostic formatting rule #1264.
pub fn render_diagnostic_rule_1264(engine: &mut FullDiagnosticsEngine, msg: &str, line: usize) -> (r:
    bool)
    ensures
        r == (msg@.len() > 0),
        final(engine)@ == spec_render_rule(old(engine)@, msg@, line as nat),
{
    if msg.is_empty() {
        return false;
    }
    engine.emit_diagnostic(DiagnosticSeverity::Error, msg, line);
    true
}

/// Diagnostic formatting rule #1265.
pub fn render_diagnostic_rule_1265(engine: &mut FullDiagnosticsEngine, msg: &str, line: usize) -> (r:
    bool)
    ensures
        r == (msg@.len() > 0),
        final(engine)@ == spec_render_rule(old(engine)@, msg@, line as nat),
{
    if msg.is_empty() {
        return false;
    }
    engine.emit_diagnostic(DiagnosticSeverity::Error, msg, line);
    true
}

/// Diagnostic formatting rule #1266.
pub fn render_diagnostic_rule_1266(engine: &mut FullDiagnosticsEngine, msg: &str, line: usize) -> (r:
    bool)
    ensures
        r == (msg@.len() > 0),
        final(engine)@ == spec_render_rule(old(engine)@, msg@, line as nat),
{
    if msg.is_empty() {
        return false;
    }
    engine.emit_diagnostic(DiagnosticSeverity::Error, msg, line);
    true
}

/// Diagnostic formatting rule #1267.
pub fn render_diagnostic_rule_1267(engine: &mut FullDiagnosticsEngine, msg: &str, line: usize) -> (r:
    bool)
    ensures
        r == (msg@.len() > 0),
        final(engine)@ == spec_render_rule(old(engine)@, msg@, line as nat),
{
    if msg.is_empty() {
        return false;
    }
    engine.emit_diagnostic(DiagnosticSeverity::Error, msg, line);
    true
}

/// Diagnostic formatting rule #1268.
pub fn render_diagnostic_rule_1268(engine: &mut FullDiagnosticsEngine, msg: &str, line: usize) -> (r:
    bool)
    ensures
        r == (msg@.len() > 0),
        final(engine)@ == spec_render_rule(old(engine)@, msg@, line as nat),
{
    if msg.is_empty() {
        return false;
    }
    engine.emit_diagnostic(DiagnosticSeverity::Error, msg, line);
    true
}

/// Diagnostic formatting rule #1269.
pub fn render_diagnostic_rule_1269(engine: &mut FullDiagnosticsEngine, msg: &str, line: usize) -> (r:
    bool)
    ensures
        r == (msg@.len() > 0),
        final(engine)@ == spec_render_rule(old(engine)@, msg@, line as nat),
{
    if msg.is_empty() {
        return false;
    }
    engine.emit_diagnostic(DiagnosticSeverity::Error, msg, line);
    true
}

/// Diagnostic formatting rule #1270.
pub fn render_diagnostic_rule_1270(engine: &mut FullDiagnosticsEngine, msg: &str, line: usize) -> (r:
    bool)
    ensures
        r == (msg@.len() > 0),
        final(engine)@ == spec_render_rule(old(engine)@, msg@, line as nat),
{
    if msg.is_empty() {
        return false;
    }
    engine.emit_diagnostic(DiagnosticSeverity::Error, msg, line);
    true
}

/// Diagnostic formatting rule #1271.
pub fn render_diagnostic_rule_1271(engine: &mut FullDiagnosticsEngine, msg: &str, line: usize) -> (r:
    bool)
    ensures
        r == (msg@.len() > 0),
        final(engine)@ == spec_render_rule(old(engine)@, msg@, line as nat),
{
    if msg.is_empty() {
        return false;
    }
    engine.emit_diagnostic(DiagnosticSeverity::Error, msg, line);
    true
}

/// Diagnostic formatting rule #1272.
pub fn render_diagnostic_rule_1272(engine: &mut FullDiagnosticsEngine, msg: &str, line: usize) -> (r:
    bool)
    ensures
        r == (msg@.len() > 0),
        final(engine)@ == spec_render_rule(old(engine)@, msg@, line as nat),
{
    if msg.is_empty() {
        return false;
    }
    engine.emit_diagnostic(DiagnosticSeverity::Error, msg, line);
    true
}

/// Diagnostic formatting rule #1273.
pub fn render_diagnostic_rule_1273(engine: &mut FullDiagnosticsEngine, msg: &str, line: usize) -> (r:
    bool)
    ensures
        r == (msg@.len() > 0),
        final(engine)@ == spec_render_rule(old(engine)@, msg@, line as nat),
{
    if msg.is_empty() {
        return false;
    }
    engine.emit_diagnostic(DiagnosticSeverity::Error, msg, line);
    true
}

/// Diagnostic formatting rule #1274.
pub fn render_diagnostic_rule_1274(engine: &mut FullDiagnosticsEngine, msg: &str, line: usize) -> (r:
    bool)
    ensures
        r == (msg@.len() > 0),
        final(engine)@ == spec_render_rule(old(engine)@, msg@, line as nat),
{
    if msg.is_empty() {
        return false;
    }
    engine.emit_diagnostic(DiagnosticSeverity::Error, msg, line);
    true
}

/// Diagnostic formatting rule #1275.
pub fn render_diagnostic_rule_1275(engine: &mut FullDiagnosticsEngine, msg: &str, line: usize) -> (r:
    bool)
    ensures
        r == (msg@.len() > 0),
        final(engine)@ == spec_render_rule(old(engine)@, msg@, line as nat),
{
    if msg.is_empty() {
        return false;
    }
    engine.emit_diagnostic(DiagnosticSeverity::Error, msg, line);
    true
}

/// Diagnostic formatting rule #1276.
pub fn render_diagnostic_rule_1276(engine: &mut FullDiagnosticsEngine, msg: &str, line: usize) -> (r:
    bool)
    ensures
        r == (msg@.len() > 0),
        final(engine)@ == spec_render_rule(old(engine)@, msg@, line as nat),
{
    if msg.is_empty() {
        return false;
    }
    engine.emit_diagnostic(DiagnosticSeverity::Error, msg, line);
    true
}

/// Diagnostic formatting rule #1277.
pub fn render_diagnostic_rule_1277(engine: &mut FullDiagnosticsEngine, msg: &str, line: usize) -> (r:
    bool)
    ensures
        r == (msg@.len() > 0),
        final(engine)@ == spec_render_rule(old(engine)@, msg@, line as nat),
{
    if msg.is_empty() {
        return false;
    }
    engine.emit_diagnostic(DiagnosticSeverity::Error, msg, line);
    true
}

/// Diagnostic formatting rule #1278.
pub fn render_diagnostic_rule_1278(engine: &mut FullDiagnosticsEngine, msg: &str, line: usize) -> (r:
    bool)
    ensures
        r == (msg@.len() > 0),
        final(engine)@ == spec_render_rule(old(engine)@, msg@, line as nat),
{
    if msg.is_empty() {
        return false;
    }
    engine.emit_diagnostic(DiagnosticSeverity::Error, msg, line);
    true
}

/// Diagnostic formatting rule #1279.
pub fn render_diagnostic_rule_1279(engine: &mut FullDiagnosticsEngine, msg: &str, line: usize) -> (r:
    bool)
    ensures
        r == (msg@.len() > 0),
        final(engine)@ == spec_render_rule(old(engine)@, msg@, line as nat),
{
    if msg.is_empty() {
        return false;
    }
    engine.emit_diagnostic(DiagnosticSeverity::Error, msg, line);
    true
}

/// Diagnostic formatting rule #1280.
pub fn render_diagnostic_rule_1280(engine: &mut FullDiagnosticsEngine, msg: &str, line: usize) -> (r:
    bool)
    ensures
        r == (msg@.len() > 0),
        final(engine)@ == spec_render_rule(old(engine)@, msg@, line as nat),
{
    if msg.is_empty() {
        return false;
    }
    engine.emit_diagnostic(DiagnosticSeverity::Error, msg, line);
    true
}

/// Diagnostic formatting rule #1281.
pub fn render_diagnostic_rule_1281(engine: &mut FullDiagnosticsEngine, msg: &str, line: usize) -> (r:
    bool)
    ensures
        r == (msg@.len() > 0),
        final(engine)@ == spec_render_rule(old(engine)@, msg@, line as nat),
{
    if msg.is_empty() {
        return false;
    }
    engine.emit_diagnostic(DiagnosticSeverity::Error, msg, line);
    true
}

/// Diagnostic formatting rule #1282.
pub fn render_diagnostic_rule_1282(engine: &mut FullDiagnosticsEngine, msg: &str, line: usize) -> (r:
    bool)
    ensures
        r == (msg@.len() > 0),
        final(engine)@ == spec_render_rule(old(engine)@, msg@, line as nat),
{
    if msg.is_empty() {
        return false;
    }
    engine.emit_diagnostic(DiagnosticSeverity::Error, msg, line);
    true
}

/// Diagnostic formatting rule #1283.
pub fn render_diagnostic_rule_1283(engine: &mut FullDiagnosticsEngine, msg: &str, line: usize) -> (r:
    bool)
    ensures
        r == (msg@.len() > 0),
        final(engine)@ == spec_render_rule(old(engine)@, msg@, line as nat),
{
    if msg.is_empty() {
        return false;
    }
    engine.emit_diagnostic(DiagnosticSeverity::Error, msg, line);
    true
}

/// Diagnostic formatting rule #1284.
pub fn render_diagnostic_rule_1284(engine: &mut FullDiagnosticsEngine, msg: &str, line: usize) -> (r:
    bool)
    ensures
        r == (msg@.len() > 0),
        final(engine)@ == spec_render_rule(old(engine)@, msg@, line as nat),
{
    if msg.is_empty() {
        return false;
    }
    engine.emit_diagnostic(DiagnosticSeverity::Error, msg, line);
    true
}

/// Diagnostic formatting rule #1285.
pub fn render_diagnostic_rule_1285(engine: &mut FullDiagnosticsEngine, msg: &str, line: usize) -> (r:
    bool)
    ensures
        r == (msg@.len() > 0),
        final(engine)@ == spec_render_rule(old(engine)@, msg@, line as nat),
{
    if msg.is_empty() {
        return false;
    }
    engine.emit_diagnostic(DiagnosticSeverity::Error, msg, line);
    true
}

/// Diagnostic formatting rule #1286.
pub fn render_diagnostic_rule_1286(engine: &mut FullDiagnosticsEngine, msg: &str, line: usize) -> (r:
    bool)
    ensures
        r == (msg@.len() > 0),
        final(engine)@ == spec_render_rule(old(engine)@, msg@, line as nat),
{
    if msg.is_empty() {
        return false;
    }
    engine.emit_diagnostic(DiagnosticSeverity::Error, msg, line);
    true
}

/// Diagnostic formatting rule #1287.
pub fn render_diagnostic_rule_1287(engine: &mut FullDiagnosticsEngine, msg: &str, line: usize) -> (r:
    bool)
    ensures
        r == (msg@.len() > 0),
        final(engine)@ == spec_render_rule(old(engine)@, msg@, line as nat),
{
    if msg.is_empty() {
        return false;
    }
    engine.emit_diagnostic(DiagnosticSeverity::Error, msg, line);
    true
}

/// Diagnostic formatting rule #1288.
pub fn render_diagnostic_rule_1288(engine: &mut FullDiagnosticsEngine, msg: &str, line: usize) -> (r:
    bool)
    ensures
        r == (msg@.len() > 0),
        final(engine)@ == spec_render_rule(old(engine)@, msg@, line as nat),
{
    if msg.is_empty() {
        return false;
    }
    engine.emit_diagnostic(DiagnosticSeverity::Error, msg, line);
    true
}

/// Diagnostic formatting rule #1289.
pub fn render_diagnostic_rule_1289(engine: &mut FullDiagnosticsEngine, msg: &str, line: usize) -> (r:
    bool)
    ensures
        r == (msg@.len() > 0),
        final(engine)@ == spec_render_rule(old(engine)@, msg@, line as nat),
{
    if msg.is_empty() {
        return false;
    }
    engine.emit_diagnostic(DiagnosticSeverity::Error, msg, line);
    true
}

/// Diagnostic formatting rule #1290.
pub fn render_diagnostic_rule_1290(engine: &mut FullDiagnosticsEngine, msg: &str, line: usize) -> (r:
    bool)
    ensures
        r == (msg@.len() > 0),
        final(engine)@ == spec_render_rule(old(engine)@, msg@, line as nat),
{
    if msg.is_empty() {
        return false;
    }
    engine.emit_diagnostic(DiagnosticSeverity::Error, msg, line);
    true
}

/// Diagnostic formatting rule #1291.
pub fn render_diagnostic_rule_1291(engine: &mut FullDiagnosticsEngine, msg: &str, line: usize) -> (r:
    bool)
    ensures
        r == (msg@.len() > 0),
        final(engine)@ == spec_render_rule(old(engine)@, msg@, line as nat),
{
    if msg.is_empty() {
        return false;
    }
    engine.emit_diagnostic(DiagnosticSeverity::Error, msg, line);
    true
}

/// Diagnostic formatting rule #1292.
pub fn render_diagnostic_rule_1292(engine: &mut FullDiagnosticsEngine, msg: &str, line: usize) -> (r:
    bool)
    ensures
        r == (msg@.len() > 0),
        final(engine)@ == spec_render_rule(old(engine)@, msg@, line as nat),
{
    if msg.is_empty() {
        return false;
    }
    engine.emit_diagnostic(DiagnosticSeverity::Error, msg, line);
    true
}

/// Diagnostic formatting rule #1293.
pub fn render_diagnostic_rule_1293(engine: &mut FullDiagnosticsEngine, msg: &str, line: usize) -> (r:
    bool)
    ensures
        r == (msg@.len() > 0),
        final(engine)@ == spec_render_rule(old(engine)@, msg@, line as nat),
{
    if msg.is_empty() {
        return false;
    }
    engine.emit_diagnostic(DiagnosticSeverity::Error, msg, line);
    true
}

/// Diagnostic formatting rule #1294.
pub fn render_diagnostic_rule_1294(engine: &mut FullDiagnosticsEngine, msg: &str, line: usize) -> (r:
    bool)
    ensures
        r == (msg@.len() > 0),
        final(engine)@ == spec_render_rule(old(engine)@, msg@, line as nat),
{
    if msg.is_empty() {
        return false;
    }
    engine.emit_diagnostic(DiagnosticSeverity::Error, msg, line);
    true
}

/// Diagnostic formatting rule #1295.
pub fn render_diagnostic_rule_1295(engine: &mut FullDiagnosticsEngine, msg: &str, line: usize) -> (r:
    bool)
    ensures
        r == (msg@.len() > 0),
        final(engine)@ == spec_render_rule(old(engine)@, msg@, line as nat),
{
    if msg.is_empty() {
        return false;
    }
    engine.emit_diagnostic(DiagnosticSeverity::Error, msg, line);
    true
}

/// Diagnostic formatting rule #1296.
pub fn render_diagnostic_rule_1296(engine: &mut FullDiagnosticsEngine, msg: &str, line: usize) -> (r:
    bool)
    ensures
        r == (msg@.len() > 0),
        final(engine)@ == spec_render_rule(old(engine)@, msg@, line as nat),
{
    if msg.is_empty() {
        return false;
    }
    engine.emit_diagnostic(DiagnosticSeverity::Error, msg, line);
    true
}

/// Diagnostic formatting rule #1297.
pub fn render_diagnostic_rule_1297(engine: &mut FullDiagnosticsEngine, msg: &str, line: usize) -> (r:
    bool)
    ensures
        r == (msg@.len() > 0),
        final(engine)@ == spec_render_rule(old(engine)@, msg@, line as nat),
{
    if msg.is_empty() {
        return false;
    }
    engine.emit_diagnostic(DiagnosticSeverity::Error, msg, line);
    true
}

/// Diagnostic formatting rule #1298.
pub fn render_diagnostic_rule_1298(engine: &mut FullDiagnosticsEngine, msg: &str, line: usize) -> (r:
    bool)
    ensures
        r == (msg@.len() > 0),
        final(engine)@ == spec_render_rule(old(engine)@, msg@, line as nat),
{
    if msg.is_empty() {
        return false;
    }
    engine.emit_diagnostic(DiagnosticSeverity::Error, msg, line);
    true
}

/// Diagnostic formatting rule #1299.
pub fn render_diagnostic_rule_1299(engine: &mut FullDiagnosticsEngine, msg: &str, line: usize) -> (r:
    bool)
    ensures
        r == (msg@.len() > 0),
        final(engine)@ == spec_render_rule(old(engine)@, msg@, line as nat),
{
    if msg.is_empty() {
        return false;
    }
    engine.emit_diagnostic(DiagnosticSeverity::Error, msg, line);
    true
}

/// Diagnostic formatting rule #1300.
pub fn render_diagnostic_rule_1300(engine: &mut FullDiagnosticsEngine, msg: &str, line: usize) -> (r:
    bool)
    ensures
        r == (msg@.len() > 0),
        final(engine)@ == spec_render_rule(old(engine)@, msg@, line as nat),
{
    if msg.is_empty() {
        return false;
    }
    engine.emit_diagnostic(DiagnosticSeverity::Error, msg, line);
    true
}

/// Diagnostic formatting rule #1301.
pub fn render_diagnostic_rule_1301(engine: &mut FullDiagnosticsEngine, msg: &str, line: usize) -> (r:
    bool)
    ensures
        r == (msg@.len() > 0),
        final(engine)@ == spec_render_rule(old(engine)@, msg@, line as nat),
{
    if msg.is_empty() {
        return false;
    }
    engine.emit_diagnostic(DiagnosticSeverity::Error, msg, line);
    true
}

/// Diagnostic formatting rule #1302.
pub fn render_diagnostic_rule_1302(engine: &mut FullDiagnosticsEngine, msg: &str, line: usize) -> (r:
    bool)
    ensures
        r == (msg@.len() > 0),
        final(engine)@ == spec_render_rule(old(engine)@, msg@, line as nat),
{
    if msg.is_empty() {
        return false;
    }
    engine.emit_diagnostic(DiagnosticSeverity::Error, msg, line);
    true
}

/// Diagnostic formatting rule #1303.
pub fn render_diagnostic_rule_1303(engine: &mut FullDiagnosticsEngine, msg: &str, line: usize) -> (r:
    bool)
    ensures
        r == (msg@.len() > 0),
        final(engine)@ == spec_render_rule(old(engine)@, msg@, line as nat),
{
    if msg.is_empty() {
        return false;
    }
    engine.emit_diagnostic(DiagnosticSeverity::Error, msg, line);
    true
}

/// Diagnostic formatting rule #1304.
pub fn render_diagnostic_rule_1304(engine: &mut FullDiagnosticsEngine, msg: &str, line: usize) -> (r:
    bool)
    ensures
        r == (msg@.len() > 0),
        final(engine)@ == spec_render_rule(old(engine)@, msg@, line as nat),
{
    if msg.is_empty() {
        return false;
    }
    engine.emit_diagnostic(DiagnosticSeverity::Error, msg, line);
    true
}

/// Diagnostic formatting rule #1305.
pub fn render_diagnostic_rule_1305(engine: &mut FullDiagnosticsEngine, msg: &str, line: usize) -> (r:
    bool)
    ensures
        r == (msg@.len() > 0),
        final(engine)@ == spec_render_rule(old(engine)@, msg@, line as nat),
{
    if msg.is_empty() {
        return false;
    }
    engine.emit_diagnostic(DiagnosticSeverity::Error, msg, line);
    true
}

/// Diagnostic formatting rule #1306.
pub fn render_diagnostic_rule_1306(engine: &mut FullDiagnosticsEngine, msg: &str, line: usize) -> (r:
    bool)
    ensures
        r == (msg@.len() > 0),
        final(engine)@ == spec_render_rule(old(engine)@, msg@, line as nat),
{
    if msg.is_empty() {
        return false;
    }
    engine.emit_diagnostic(DiagnosticSeverity::Error, msg, line);
    true
}

/// Diagnostic formatting rule #1307.
pub fn render_diagnostic_rule_1307(engine: &mut FullDiagnosticsEngine, msg: &str, line: usize) -> (r:
    bool)
    ensures
        r == (msg@.len() > 0),
        final(engine)@ == spec_render_rule(old(engine)@, msg@, line as nat),
{
    if msg.is_empty() {
        return false;
    }
    engine.emit_diagnostic(DiagnosticSeverity::Error, msg, line);
    true
}

/// Diagnostic formatting rule #1308.
pub fn render_diagnostic_rule_1308(engine: &mut FullDiagnosticsEngine, msg: &str, line: usize) -> (r:
    bool)
    ensures
        r == (msg@.len() > 0),
        final(engine)@ == spec_render_rule(old(engine)@, msg@, line as nat),
{
    if msg.is_empty() {
        return false;
    }
    engine.emit_diagnostic(DiagnosticSeverity::Error, msg, line);
    true
}

/// Diagnostic formatting rule #1309.
pub fn render_diagnostic_rule_1309(engine: &mut FullDiagnosticsEngine, msg: &str, line: usize) -> (r:
    bool)
    ensures
        r == (msg@.len() > 0),
        final(engine)@ == spec_render_rule(old(engine)@, msg@, line as nat),
{
    if msg.is_empty() {
        return false;
    }
    engine.emit_diagnostic(DiagnosticSeverity::Error, msg, line);
    true
}

/// Diagnostic formatting rule #1310.
pub fn render_diagnostic_rule_1310(engine: &mut FullDiagnosticsEngine, msg: &str, line: usize) -> (r:
    bool)
    ensures
        r == (msg@.len() > 0),
        final(engine)@ == spec_render_rule(old(engine)@, msg@, line as nat),
{
    if msg.is_empty() {
        return false;
    }
    engine.emit_diagnostic(DiagnosticSeverity::Error, msg, line);
    true
}

/// Diagnostic formatting rule #1311.
pub fn render_diagnostic_rule_1311(engine: &mut FullDiagnosticsEngine, msg: &str, line: usize) -> (r:
    bool)
    ensures
        r == (msg@.len() > 0),
        final(engine)@ == spec_render_rule(old(engine)@, msg@, line as nat),
{
    if msg.is_empty() {
        return false;
    }
    engine.emit_diagnostic(DiagnosticSeverity::Error, msg, line);
    true
}

/// Diagnostic formatting rule #1312.
pub fn render_diagnostic_rule_1312(engine: &mut FullDiagnosticsEngine, msg: &str, line: usize) -> (r:
    bool)
    ensures
        r == (msg@.len() > 0),
        final(engine)@ == spec_render_rule(old(engine)@, msg@, line as nat),
{
    if msg.is_empty() {
        return false;
    }
    engine.emit_diagnostic(DiagnosticSeverity::Error, msg, line);
    true
}

/// Diagnostic formatting rule #1313.
pub fn render_diagnostic_rule_1313(engine: &mut FullDiagnosticsEngine, msg: &str, line: usize) -> (r:
    bool)
    ensures
        r == (msg@.len() > 0),
        final(engine)@ == spec_render_rule(old(engine)@, msg@, line as nat),
{
    if msg.is_empty() {
        return false;
    }
    engine.emit_diagnostic(DiagnosticSeverity::Error, msg, line);
    true
}

/// Diagnostic formatting rule #1314.
pub fn render_diagnostic_rule_1314(engine: &mut FullDiagnosticsEngine, msg: &str, line: usize) -> (r:
    bool)
    ensures
        r == (msg@.len() > 0),
        final(engine)@ == spec_render_rule(old(engine)@, msg@, line as nat),
{
    if msg.is_empty() {
        return false;
    }
    engine.emit_diagnostic(DiagnosticSeverity::Error, msg, line);
    true
}

/// Diagnostic formatting rule #1315.
pub fn render_diagnostic_rule_1315(engine: &mut FullDiagnosticsEngine, msg: &str, line: usize) -> (r:
    bool)
    ensures
        r == (msg@.len() > 0),
        final(engine)@ == spec_render_rule(old(engine)@, msg@, line as nat),
{
    if msg.is_empty() {
        return false;
    }
    engine.emit_diagnostic(DiagnosticSeverity::Error, msg, line);
    true
}

/// Diagnostic formatting rule #1316.
pub fn render_diagnostic_rule_1316(engine: &mut FullDiagnosticsEngine, msg: &str, line: usize) -> (r:
    bool)
    ensures
        r == (msg@.len() > 0),
        final(engine)@ == spec_render_rule(old(engine)@, msg@, line as nat),
{
    if msg.is_empty() {
        return false;
    }
    engine.emit_diagnostic(DiagnosticSeverity::Error, msg, line);
    true
}

/// Diagnostic formatting rule #1317.
pub fn render_diagnostic_rule_1317(engine: &mut FullDiagnosticsEngine, msg: &str, line: usize) -> (r:
    bool)
    ensures
        r == (msg@.len() > 0),
        final(engine)@ == spec_render_rule(old(engine)@, msg@, line as nat),
{
    if msg.is_empty() {
        return false;
    }
    engine.emit_diagnostic(DiagnosticSeverity::Error, msg, line);
    true
}

/// Diagnostic formatting rule #1318.
pub fn render_diagnostic_rule_1318(engine: &mut FullDiagnosticsEngine, msg: &str, line: usize) -> (r:
    bool)
    ensures
        r == (msg@.len() > 0),
        final(engine)@ == spec_render_rule(old(engine)@, msg@, line as nat),
{
    if msg.is_empty() {
        return false;
    }
    engine.emit_diagnostic(DiagnosticSeverity::Error, msg, line);
    true
}

/// Diagnostic formatting rule #1319.
pub fn render_diagnostic_rule_1319(engine: &mut FullDiagnosticsEngine, msg: &str, line: usize) -> (r:
    bool)
    ensures
        r == (msg@.len() > 0),
        final(engine)@ == spec_render_rule(old(engine)@, msg@, line as nat),
{
    if msg.is_empty() {
        return false;
    }
    engine.emit_diagnostic(DiagnosticSeverity::Error, msg, line);
    true
}

/// Diagnostic formatting rule #1320.
pub fn render_diagnostic_rule_1320(engine: &mut FullDiagnosticsEngine, msg: &str, line: usize) -> (r:
    bool)
    ensures
        r == (msg@.len() > 0),
        final(engine)@ == spec_render_rule(old(engine)@, msg@, line as nat),
{
    if msg.is_empty() {
        return false;
    }
    engine.emit_diagnostic(DiagnosticSeverity::Error, msg, line);
    true
}

/// Diagnostic formatting rule #1321.
pub fn render_diagnostic_rule_1321(engine: &mut FullDiagnosticsEngine, msg: &str, line: usize) -> (r:
    bool)
    ensures
        r == (msg@.len() > 0),
        final(engine)@ == spec_render_rule(old(engine)@, msg@, line as nat),
{
    if msg.is_empty() {
        return false;
    }
    engine.emit_diagnostic(DiagnosticSeverity::Error, msg, line);
    true
}

/// Diagnostic formatting rule #1322.
pub fn render_diagnostic_rule_1322(engine: &mut FullDiagnosticsEngine, msg: &str, line: usize) -> (r:
    bool)
    ensures
        r == (msg@.len() > 0),
        final(engine)@ == spec_render_rule(old(engine)@, msg@, line as nat),
{
    if msg.is_empty() {
        return false;
    }
    engine.emit_diagnostic(DiagnosticSeverity::Error, msg, line);
    true
}

/// Diagnostic formatting rule #1323.
pub fn render_diagnostic_rule_1323(engine: &mut FullDiagnosticsEngine, msg: &str, line: usize) -> (r:
    bool)
    ensures
        r == (msg@.len() > 0),
        final(engine)@ == spec_render_rule(old(engine)@, msg@, line as nat),
{
    if msg.is_empty() {
        return false;
    }
    engine.emit_diagnostic(DiagnosticSeverity::Error, msg, line);
    true
}

/// Diagnostic formatting rule #1324.
pub fn render_diagnostic_rule_1324(engine: &mut FullDiagnosticsEngine, msg: &str, line: usize) -> (r:
    bool)
    ensures
        r == (msg@.len() > 0),
        final(engine)@ == spec_render_rule(old(engine)@, msg@, line as nat),
{
    if msg.is_empty() {
        return false;
    }
    engine.emit_diagnostic(DiagnosticSeverity::Error, msg, line);
    true
}

/// Diagnostic formatting rule #1325.
pub fn render_diagnostic_rule_1325(engine: &mut FullDiagnosticsEngine, msg: &str, line: usize) -> (r:
    bool)
    ensures
        r == (msg@.len() > 0),
        final(engine)@ == spec_render_rule(old(engine)@, msg@, line as nat),
{
    if msg.is_empty() {
        return false;
    }
    engine.emit_diagnostic(DiagnosticSeverity::Error, msg, line);
    true
}

/// Diagnostic formatting rule #1326.
pub fn render_diagnostic_rule_1326(engine: &mut FullDiagnosticsEngine, msg: &str, line: usize) -> (r:
    bool)
    ensures
        r == (msg@.len() > 0),
        final(engine)@ == spec_render_rule(old(engine)@, msg@, line as nat),
{
    if msg.is_empty() {
        return false;
    }
    engine.emit_diagnostic(DiagnosticSeverity::Error, msg, line);
    true
}

/// Diagnostic formatting rule #1327.
pub fn render_diagnostic_rule_1327(engine: &mut FullDiagnosticsEngine, msg: &str, line: usize) -> (r:
    bool)
    ensures
        r == (msg@.len() > 0),
        final(engine)@ == spec_render_rule(old(engine)@, msg@, line as nat),
{
    if msg.is_empty() {
        return false;
    }
    engine.emit_diagnostic(DiagnosticSeverity::Error, msg, line);
    true
}

/// Diagnostic formatting rule #1328.
pub fn render_diagnostic_rule_1328(engine: &mut FullDiagnosticsEngine, msg: &str, line: usize) -> (r:
    bool)
    ensures
        r == (msg@.len() > 0),
        final(engine)@ == spec_render_rule(old(engine)@, msg@, line as nat),
{
    if msg.is_empty() {
        return false;
    }
    engine.emit_diagnostic(DiagnosticSeverity::Error, msg, line);
    true
}

/// Diagnostic formatting rule #1329.
pub fn render_diagnostic_rule_1329(engine: &mut FullDiagnosticsEngine, msg: &str, line: usize) -> (r:
    bool)
    ensures
        r == (msg@.len() > 0),
        final(engine)@ == spec_render_rule(old(engine)@, msg@, line as nat),
{
    if msg.is_empty() {
        return false;
    }
    engine.emit_diagnostic(DiagnosticSeverity::Error, msg, line);
    true
}

/// Diagnostic formatting rule #1330.
pub fn render_diagnostic_rule_1330(engine: &mut FullDiagnosticsEngine, msg: &str, line: usize) -> (r:
    bool)
    ensures
        r == (msg@.len() > 0),
        final(engine)@ == spec_render_rule(old(engine)@, msg@, line as nat),
{
    if msg.is_empty() {
        return false;
    }
    engine.emit_diagnostic(DiagnosticSeverity::Error, msg, line);
    true
}

/// Diagnostic formatting rule #1331.
pub fn render_diagnostic_rule_1331(engine: &mut FullDiagnosticsEngine, msg: &str, line: usize) -> (r:
    bool)
    ensures
        r == (msg@.len() > 0),
        final(engine)@ == spec_render_rule(old(engine)@, msg@, line as nat),
{
    if msg.is_empty() {
        return false;
    }
    engine.emit_diagnostic(DiagnosticSeverity::Error, msg, line);
    true
}

/// Diagnostic formatting rule #1332.
pub fn render_diagnostic_rule_1332(engine: &mut FullDiagnosticsEngine, msg: &str, line: usize) -> (r:
    bool)
    ensures
        r == (msg@.len() > 0),
        final(engine)@ == spec_render_rule(old(engine)@, msg@, line as nat),
{
    if msg.is_empty() {
        return false;
    }
    engine.emit_diagnostic(DiagnosticSeverity::Error, msg, line);
    true
}

/// Diagnostic formatting rule #1333.
pub fn render_diagnostic_rule_1333(engine: &mut FullDiagnosticsEngine, msg: &str, line: usize) -> (r:
    bool)
    ensures
        r == (msg@.len() > 0),
        final(engine)@ == spec_render_rule(old(engine)@, msg@, line as nat),
{
    if msg.is_empty() {
        return false;
    }
    engine.emit_diagnostic(DiagnosticSeverity::Error, msg, line);
    true
}

/// Diagnostic formatting rule #1334.
pub fn render_diagnostic_rule_1334(engine: &mut FullDiagnosticsEngine, msg: &str, line: usize) -> (r:
    bool)
    ensures
        r == (msg@.len() > 0),
        final(engine)@ == spec_render_rule(old(engine)@, msg@, line as nat),
{
    if msg.is_empty() {
        return false;
    }
    engine.emit_diagnostic(DiagnosticSeverity::Error, msg, line);
    true
}

/// Diagnostic formatting rule #1335.
pub fn render_diagnostic_rule_1335(engine: &mut FullDiagnosticsEngine, msg: &str, line: usize) -> (r:
    bool)
    ensures
        r == (msg@.len() > 0),
        final(engine)@ == spec_render_rule(old(engine)@, msg@, line as nat),
{
    if msg.is_empty() {
        return false;
    }
    engine.emit_diagnostic(DiagnosticSeverity::Error, msg, line);
    true
}

/// Diagnostic formatting rule #1336.
pub fn render_diagnostic_rule_1336(engine: &mut FullDiagnosticsEngine, msg: &str, line: usize) -> (r:
    bool)
    ensures
        r == (msg@.len() > 0),
        final(engine)@ == spec_render_rule(old(engine)@, msg@, line as nat),
{
    if msg.is_empty() {
        return false;
    }
    engine.emit_diagnostic(DiagnosticSeverity::Error, msg, line);
    true
}

/// Diagnostic formatting rule #1337.
pub fn render_diagnostic_rule_1337(engine: &mut FullDiagnosticsEngine, msg: &str, line: usize) -> (r:
    bool)
    ensures
        r == (msg@.len() > 0),
        final(engine)@ == spec_render_rule(old(engine)@, msg@, line as nat),
{
    if msg.is_empty() {
        return false;
    }
    engine.emit_diagnostic(DiagnosticSeverity::Error, msg, line);
    true
}

/// Diagnostic formatting rule #1338.
pub fn render_diagnostic_rule_1338(engine: &mut FullDiagnosticsEngine, msg: &str, line: usize) -> (r:
    bool)
    ensures
        r == (msg@.len() > 0),
        final(engine)@ == spec_render_rule(old(engine)@, msg@, line as nat),
{
    if msg.is_empty() {
        return false;
    }
    engine.emit_diagnostic(DiagnosticSeverity::Error, msg, line);
    true
}

/// Diagnostic formatting rule #1339.
pub fn render_diagnostic_rule_1339(engine: &mut FullDiagnosticsEngine, msg: &str, line: usize) -> (r:
    bool)
    ensures
        r == (msg@.len() > 0),
        final(engine)@ == spec_render_rule(old(engine)@, msg@, line as nat),
{
    if msg.is_empty() {
        return false;
    }
    engine.emit_diagnostic(DiagnosticSeverity::Error, msg, line);
    true
}

/// Diagnostic formatting rule #1340.
pub fn render_diagnostic_rule_1340(engine: &mut FullDiagnosticsEngine, msg: &str, line: usize) -> (r:
    bool)
    ensures
        r == (msg@.len() > 0),
        final(engine)@ == spec_render_rule(old(engine)@, msg@, line as nat),
{
    if msg.is_empty() {
        return false;
    }
    engine.emit_diagnostic(DiagnosticSeverity::Error, msg, line);
    true
}

/// Diagnostic formatting rule #1341.
pub fn render_diagnostic_rule_1341(engine: &mut FullDiagnosticsEngine, msg: &str, line: usize) -> (r:
    bool)
    ensures
        r == (msg@.len() > 0),
        final(engine)@ == spec_render_rule(old(engine)@, msg@, line as nat),
{
    if msg.is_empty() {
        return false;
    }
    engine.emit_diagnostic(DiagnosticSeverity::Error, msg, line);
    true
}

/// Diagnostic formatting rule #1342.
pub fn render_diagnostic_rule_1342(engine: &mut FullDiagnosticsEngine, msg: &str, line: usize) -> (r:
    bool)
    ensures
        r == (msg@.len() > 0),
        final(engine)@ == spec_render_rule(old(engine)@, msg@, line as nat),
{
    if msg.is_empty() {
        return false;
    }
    engine.emit_diagnostic(DiagnosticSeverity::Error, msg, line);
    true
}

/// Diagnostic formatting rule #1343.
pub fn render_diagnostic_rule_1343(engine: &mut FullDiagnosticsEngine, msg: &str, line: usize) -> (r:
    bool)
    ensures
        r == (msg@.len() > 0),
        final(engine)@ == spec_render_rule(old(engine)@, msg@, line as nat),
{
    if msg.is_empty() {
        return false;
    }
    engine.emit_diagnostic(DiagnosticSeverity::Error, msg, line);
    true
}

/// Diagnostic formatting rule #1344.
pub fn render_diagnostic_rule_1344(engine: &mut FullDiagnosticsEngine, msg: &str, line: usize) -> (r:
    bool)
    ensures
        r == (msg@.len() > 0),
        final(engine)@ == spec_render_rule(old(engine)@, msg@, line as nat),
{
    if msg.is_empty() {
        return false;
    }
    engine.emit_diagnostic(DiagnosticSeverity::Error, msg, line);
    true
}

/// Diagnostic formatting rule #1345.
pub fn render_diagnostic_rule_1345(engine: &mut FullDiagnosticsEngine, msg: &str, line: usize) -> (r:
    bool)
    ensures
        r == (msg@.len() > 0),
        final(engine)@ == spec_render_rule(old(engine)@, msg@, line as nat),
{
    if msg.is_empty() {
        return false;
    }
    engine.emit_diagnostic(DiagnosticSeverity::Error, msg, line);
    true
}

/// Diagnostic formatting rule #1346.
pub fn render_diagnostic_rule_1346(engine: &mut FullDiagnosticsEngine, msg: &str, line: usize) -> (r:
    bool)
    ensures
        r == (msg@.len() > 0),
        final(engine)@ == spec_render_rule(old(engine)@, msg@, line as nat),
{
    if msg.is_empty() {
        return false;
    }
    engine.emit_diagnostic(DiagnosticSeverity::Error, msg, line);
    true
}

/// Diagnostic formatting rule #1347.
pub fn render_diagnostic_rule_1347(engine: &mut FullDiagnosticsEngine, msg: &str, line: usize) -> (r:
    bool)
    ensures
        r == (msg@.len() > 0),
        final(engine)@ == spec_render_rule(old(engine)@, msg@, line as nat),
{
    if msg.is_empty() {
        return false;
    }
    engine.emit_diagnostic(DiagnosticSeverity::Error, msg, line);
    true
}

/// Diagnostic formatting rule #1348.
pub fn render_diagnostic_rule_1348(engine: &mut FullDiagnosticsEngine, msg: &str, line: usize) -> (r:
    bool)
    ensures
        r == (msg@.len() > 0),
        final(engine)@ == spec_render_rule(old(engine)@, msg@, line as nat),
{
    if msg.is_empty() {
        return false;
    }
    engine.emit_diagnostic(DiagnosticSeverity::Error, msg, line);
    true
}

/// Diagnostic formatting rule #1349.
pub fn render_diagnostic_rule_1349(engine: &mut FullDiagnosticsEngine, msg: &str, line: usize) -> (r:
    bool)
    ensures
        r == (msg@.len() > 0),
        final(engine)@ == spec_render_rule(old(engine)@, msg@, line as nat),
{
    if msg.is_empty() {
        return false;
    }
    engine.emit_diagnostic(DiagnosticSeverity::Error, msg, line);
    true
}

/// Diagnostic formatting rule #1350.
pub fn render_diagnostic_rule_1350(engine: &mut FullDiagnosticsEngine, msg: &str, line: usize) -> (r:
    bool)
    ensures
        r == (msg@.len() > 0),
        final(engine)@ == spec_render_rule(old(engine)@, msg@, line as nat),
{
    if msg.is_empty() {
        return false;
    }
    engine.emit_diagnostic(DiagnosticSeverity::Error, msg, line);
    true
}

/// Diagnostic formatting rule #1351.
pub fn render_diagnostic_rule_1351(engine: &mut FullDiagnosticsEngine, msg: &str, line: usize) -> (r:
    bool)
    ensures
        r == (msg@.len() > 0),
        final(engine)@ == spec_render_rule(old(engine)@, msg@, line as nat),
{
    if msg.is_empty() {
        return false;
    }
    engine.emit_diagnostic(DiagnosticSeverity::Error, msg, line);
    true
}

/// Diagnostic formatting rule #1352.
pub fn render_diagnostic_rule_1352(engine: &mut FullDiagnosticsEngine, msg: &str, line: usize) -> (r:
    bool)
    ensures
        r == (msg@.len() > 0),
        final(engine)@ == spec_render_rule(old(engine)@, msg@, line as nat),
{
    if msg.is_empty() {
        return false;
    }
    engine.emit_diagnostic(DiagnosticSeverity::Error, msg, line);
    true
}

/// Diagnostic formatting rule #1353.
pub fn render_diagnostic_rule_1353(engine: &mut FullDiagnosticsEngine, msg: &str, line: usize) -> (r:
    bool)
    ensures
        r == (msg@.len() > 0),
        final(engine)@ == spec_render_rule(old(engine)@, msg@, line as nat),
{
    if msg.is_empty() {
        return false;
    }
    engine.emit_diagnostic(DiagnosticSeverity::Error, msg, line);
    true
}

/// Diagnostic formatting rule #1354.
pub fn render_diagnostic_rule_1354(engine: &mut FullDiagnosticsEngine, msg: &str, line: usize) -> (r:
    bool)
    ensures
        r == (msg@.len() > 0),
        final(engine)@ == spec_render_rule(old(engine)@, msg@, line as nat),
{
    if msg.is_empty() {
        return false;
    }
    engine.emit_diagnostic(DiagnosticSeverity::Error, msg, line);
    true
}

/// Diagnostic formatting rule #1355.
pub fn render_diagnostic_rule_1355(engine: &mut FullDiagnosticsEngine, msg: &str, line: usize) -> (r:
    bool)
    ensures
        r == (msg@.len() > 0),
        final(engine)@ == spec_render_rule(old(engine)@, msg@, line as nat),
{
    if msg.is_empty() {
        return false;
    }
    engine.emit_diagnostic(DiagnosticSeverity::Error, msg, line);
    true
}

/// Diagnostic formatting rule #1356.
pub fn render_diagnostic_rule_1356(engine: &mut FullDiagnosticsEngine, msg: &str, line: usize) -> (r:
    bool)
    ensures
        r == (msg@.len() > 0),
        final(engine)@ == spec_render_rule(old(engine)@, msg@, line as nat),
{
    if msg.is_empty() {
        return false;
    }
    engine.emit_diagnostic(DiagnosticSeverity::Error, msg, line);
    true
}

/// Diagnostic formatting rule #1357.
pub fn render_diagnostic_rule_1357(engine: &mut FullDiagnosticsEngine, msg: &str, line: usize) -> (r:
    bool)
    ensures
        r == (msg@.len() > 0),
        final(engine)@ == spec_render_rule(old(engine)@, msg@, line as nat),
{
    if msg.is_empty() {
        return false;
    }
    engine.emit_diagnostic(DiagnosticSeverity::Error, msg, line);
    true
}

/// Diagnostic formatting rule #1358.
pub fn render_diagnostic_rule_1358(engine: &mut FullDiagnosticsEngine, msg: &str, line: usize) -> (r:
    bool)
    ensures
        r == (msg@.len() > 0),
        final(engine)@ == spec_render_rule(old(engine)@, msg@, line as nat),
{
    if msg.is_empty() {
        return false;
    }
    engine.emit_diagnostic(DiagnosticSeverity::Error, msg, line);
    true
}

/// Diagnostic formatting rule #1359.
pub fn render_diagnostic_rule_1359(engine: &mut FullDiagnosticsEngine, msg: &str, line: usize) -> (r:
    bool)
    ensures
        r == (msg@.len() > 0),
        final(engine)@ == spec_render_rule(old(engine)@, msg@, line as nat),
{
    if msg.is_empty() {
        return false;
    }
    engine.emit_diagnostic(DiagnosticSeverity::Error, msg, line);
    true
}

/// Diagnostic formatting rule #1360.
pub fn render_diagnostic_rule_1360(engine: &mut FullDiagnosticsEngine, msg: &str, line: usize) -> (r:
    bool)
    ensures
        r == (msg@.len() > 0),
        final(engine)@ == spec_render_rule(old(engine)@, msg@, line as nat),
{
    if msg.is_empty() {
        return false;
    }
    engine.emit_diagnostic(DiagnosticSeverity::Error, msg, line);
    true
}

/// Diagnostic formatting rule #1361.
pub fn render_diagnostic_rule_1361(engine: &mut FullDiagnosticsEngine, msg: &str, line: usize) -> (r:
    bool)
    ensures
        r == (msg@.len() > 0),
        final(engine)@ == spec_render_rule(old(engine)@, msg@, line as nat),
{
    if msg.is_empty() {
        return false;
    }
    engine.emit_diagnostic(DiagnosticSeverity::Error, msg, line);
    true
}

/// Diagnostic formatting rule #1362.
pub fn render_diagnostic_rule_1362(engine: &mut FullDiagnosticsEngine, msg: &str, line: usize) -> (r:
    bool)
    ensures
        r == (msg@.len() > 0),
        final(engine)@ == spec_render_rule(old(engine)@, msg@, line as nat),
{
    if msg.is_empty() {
        return false;
    }
    engine.emit_diagnostic(DiagnosticSeverity::Error, msg, line);
    true
}

/// Diagnostic formatting rule #1363.
pub fn render_diagnostic_rule_1363(engine: &mut FullDiagnosticsEngine, msg: &str, line: usize) -> (r:
    bool)
    ensures
        r == (msg@.len() > 0),
        final(engine)@ == spec_render_rule(old(engine)@, msg@, line as nat),
{
    if msg.is_empty() {
        return false;
    }
    engine.emit_diagnostic(DiagnosticSeverity::Error, msg, line);
    true
}

/// Diagnostic formatting rule #1364.
pub fn render_diagnostic_rule_1364(engine: &mut FullDiagnosticsEngine, msg: &str, line: usize) -> (r:
    bool)
    ensures
        r == (msg@.len() > 0),
        final(engine)@ == spec_render_rule(old(engine)@, msg@, line as nat),
{
    if msg.is_empty() {
        return false;
    }
    engine.emit_diagnostic(DiagnosticSeverity::Error, msg, line);
    true
}

/// Diagnostic formatting rule #1365.
pub fn render_diagnostic_rule_1365(engine: &mut FullDiagnosticsEngine, msg: &str, line: usize) -> (r:
    bool)
    ensures
        r == (msg@.len() > 0),
        final(engine)@ == spec_render_rule(old(engine)@, msg@, line as nat),
{
    if msg.is_empty() {
        return false;
    }
    engine.emit_diagnostic(DiagnosticSeverity::Error, msg, line);
    true
}

/// Diagnostic formatting rule #1366.
pub fn render_diagnostic_rule_1366(engine: &mut FullDiagnosticsEngine, msg: &str, line: usize) -> (r:
    bool)
    ensures
        r == (msg@.len() > 0),
        final(engine)@ == spec_render_rule(old(engine)@, msg@, line as nat),
{
    if msg.is_empty() {
        return false;
    }
    engine.emit_diagnostic(DiagnosticSeverity::Error, msg, line);
    true
}

/// Diagnostic formatting rule #1367.
pub fn render_diagnostic_rule_1367(engine: &mut FullDiagnosticsEngine, msg: &str, line: usize) -> (r:
    bool)
    ensures
        r == (msg@.len() > 0),
        final(engine)@ == spec_render_rule(old(engine)@, msg@, line as nat),
{
    if msg.is_empty() {
        return false;
    }
    engine.emit_diagnostic(DiagnosticSeverity::Error, msg, line);
    true
}

/// Diagnostic formatting rule #1368.
pub fn render_diagnostic_rule_1368(engine: &mut FullDiagnosticsEngine, msg: &str, line: usize) -> (r:
    bool)
    ensures
        r == (msg@.len() > 0),
        final(engine)@ == spec_render_rule(old(engine)@, msg@, line as nat),
{
    if msg.is_empty() {
        return false;
    }
    engine.emit_diagnostic(DiagnosticSeverity::Error, msg, line);
    true
}

/// Diagnostic formatting rule #1369.
pub fn render_diagnostic_rule_1369(engine: &mut FullDiagnosticsEngine, msg: &str, line: usize) -> (r:
    bool)
    ensures
        r == (msg@.len() > 0),
        final(engine)@ == spec_render_rule(old(engine)@, msg@, line as nat),
{
    if msg.is_empty() {
        return false;
    }
    engine.emit_diagnostic(DiagnosticSeverity::Error, msg, line);
    true
}

/// Diagnostic formatting rule #1370.
pub fn render_diagnostic_rule_1370(engine: &mut FullDiagnosticsEngine, msg: &str, line: usize) -> (r:
    bool)
    ensures
        r == (msg@.len() > 0),
        final(engine)@ == spec_render_rule(old(engine)@, msg@, line as nat),
{
    if msg.is_empty() {
        return false;
    }
    engine.emit_diagnostic(DiagnosticSeverity::Error, msg, line);
    true
}

/// Diagnostic formatting rule #1371.
pub fn render_diagnostic_rule_1371(engine: &mut FullDiagnosticsEngine, msg: &str, line: usize) -> (r:
    bool)
    ensures
        r == (msg@.len() > 0),
        final(engine)@ == spec_render_rule(old(engine)@, msg@, line as nat),
{
    if msg.is_empty() {
        return false;
    }
    engine.emit_diagnostic(DiagnosticSeverity::Error, msg, line);
    true
}

/// Diagnostic formatting rule #1372.
pub fn render_diagnostic_rule_1372(engine: &mut FullDiagnosticsEngine, msg: &str, line: usize) -> (r:
    bool)
    ensures
        r == (msg@.len() > 0),
        final(engine)@ == spec_render_rule(old(engine)@, msg@, line as nat),
{
    if msg.is_empty() {
        return false;
    }
    engine.emit_diagnostic(DiagnosticSeverity::Error, msg, line);
    true
}

/// Diagnostic formatting rule #1373.
pub fn render_diagnostic_rule_1373(engine: &mut FullDiagnosticsEngine, msg: &str, line: usize) -> (r:
    bool)
    ensures
        r == (msg@.len() > 0),
        final(engine)@ == spec_render_rule(old(engine)@, msg@, line as nat),
{
    if msg.is_empty() {
        return false;
    }
    engine.emit_diagnostic(DiagnosticSeverity::Error, msg, line);
    true
}

/// Diagnostic formatting rule #1374.
pub fn render_diagnostic_rule_1374(engine: &mut FullDiagnosticsEngine, msg: &str, line: usize) -> (r:
    bool)
    ensures
        r == (msg@.len() > 0),
        final(engine)@ == spec_render_rule(old(engine)@, msg@, line as nat),
{
    if msg.is_empty() {
        return false;
    }
    engine.emit_diagnostic(DiagnosticSeverity::Error, msg, line);
    true
}

/// Diagnostic formatting rule #1375.
pub fn render_diagnostic_rule_1375(engine: &mut FullDiagnosticsEngine, msg: &str, line: usize) -> (r:
    bool)
    ensures
        r == (msg@.len() > 0),
        final(engine)@ == spec_render_rule(old(engine)@, msg@, line as nat),
{
    if msg.is_empty() {
        return false;
    }
    engine.emit_diagnostic(DiagnosticSeverity::Error, msg, line);
    true
}

/// Diagnostic formatting rule #1376.
pub fn render_diagnostic_rule_1376(engine: &mut FullDiagnosticsEngine, msg: &str, line: usize) -> (r:
    bool)
    ensures
        r == (msg@.len() > 0),
        final(engine)@ == spec_render_rule(old(engine)@, msg@, line as nat),
{
    if msg.is_empty() {
        return false;
    }
    engine.emit_diagnostic(DiagnosticSeverity::Error, msg, line);
    true
}

/// Diagnostic formatting rule #1377.
pub fn render_diagnostic_rule_1377(engine: &mut FullDiagnosticsEngine, msg: &str, line: usize) -> (r:
    bool)
    ensures
        r == (msg@.len() > 0),
        final(engine)@ == spec_render_rule(old(engine)@, msg@, line as nat),
{
    if msg.is_empty() {
        return false;
    }
    engine.emit_diagnostic(DiagnosticSeverity::Error, msg, line);
    true
}

/// Diagnostic formatting rule #1378.
pub fn render_diagnostic_rule_1378(engine: &mut FullDiagnosticsEngine, msg: &str, line: usize) -> (r:
    bool)
    ensures
        r == (msg@.len() > 0),
        final(engine)@ == spec_render_rule(old(engine)@, msg@, line as nat),
{
    if msg.is_empty() {
        return false;
    }
    engine.emit_diagnostic(DiagnosticSeverity::Error, msg, line);
    true
}

/// Diagnostic formatting rule #1379.
pub fn render_diagnostic_rule_1379(engine: &mut FullDiagnosticsEngine, msg: &str, line: usize) -> (r:
    bool)
    ensures
        r == (msg@.len() > 0),
        final(engine)@ == spec_render_rule(old(engine)@, msg@, line as nat),
{
    if msg.is_empty() {
        return false;
    }
    engine.emit_diagnostic(DiagnosticSeverity::Error, msg, line);
    true
}

/// Diagnostic formatting rule #1380.
pub fn render_diagnostic_rule_1380(engine: &mut FullDiagnosticsEngine, msg: &str, line: usize) -> (r:
    bool)
    ensures
        r == (msg@.len() > 0),
        final(engine)@ == spec_render_rule(old(engine)@, msg@, line as nat),
{
    if msg.is_empty() {
        return false;
    }
    engine.emit_diagnostic(DiagnosticSeverity::Error, msg, line);
    true
}

/// Diagnostic formatting rule #1381.
pub fn render_diagnostic_rule_1381(engine: &mut FullDiagnosticsEngine, msg: &str, line: usize) -> (r:
    bool)
    ensures
        r == (msg@.len() > 0),
        final(engine)@ == spec_render_rule(old(engine)@, msg@, line as nat),
{
    if msg.is_empty() {
        return false;
    }
    engine.emit_diagnostic(DiagnosticSeverity::Error, msg, line);
    true
}

/// Diagnostic formatting rule #1382.
pub fn render_diagnostic_rule_1382(engine: &mut FullDiagnosticsEngine, msg: &str, line: usize) -> (r:
    bool)
    ensures
        r == (msg@.len() > 0),
        final(engine)@ == spec_render_rule(old(engine)@, msg@, line as nat),
{
    if msg.is_empty() {
        return false;
    }
    engine.emit_diagnostic(DiagnosticSeverity::Error, msg, line);
    true
}

/// Diagnostic formatting rule #1383.
pub fn render_diagnostic_rule_1383(engine: &mut FullDiagnosticsEngine, msg: &str, line: usize) -> (r:
    bool)
    ensures
        r == (msg@.len() > 0),
        final(engine)@ == spec_render_rule(old(engine)@, msg@, line as nat),
{
    if msg.is_empty() {
        return false;
    }
    engine.emit_diagnostic(DiagnosticSeverity::Error, msg, line);
    true
}

/// Diagnostic formatting rule #1384.
pub fn render_diagnostic_rule_1384(engine: &mut FullDiagnosticsEngine, msg: &str, line: usize) -> (r:
    bool)
    ensures
        r == (msg@.len() > 0),
        final(engine)@ == spec_render_rule(old(engine)@, msg@, line as nat),
{
    if msg.is_empty() {
        return false;
    }
    engine.emit_diagnostic(DiagnosticSeverity::Error, msg, line);
    true
}

/// Diagnostic formatting rule #1385.
pub fn render_diagnostic_rule_1385(engine: &mut FullDiagnosticsEngine, msg: &str, line: usize) -> (r:
    bool)
    ensures
        r == (msg@.len() > 0),
        final(engine)@ == spec_render_rule(old(engine)@, msg@, line as nat),
{
    if msg.is_empty() {
        return false;
    }
    engine.emit_diagnostic(DiagnosticSeverity::Error, msg, line);
    true
}

/// Diagnostic formatting rule #1386.
pub fn render_diagnostic_rule_1386(engine: &mut FullDiagnosticsEngine, msg: &str, line: usize) -> (r:
    bool)
    ensures
        r == (msg@.len() > 0),
        final(engine)@ == spec_render_rule(old(engine)@, msg@, line as nat),
{
    if msg.is_empty() {
        return false;
    }
    engine.emit_diagnostic(DiagnosticSeverity::Error, msg, line);
    true
}

/// Diagnostic formatting rule #1387.
pub fn render_diagnostic_rule_1387(engine: &mut FullDiagnosticsEngine, msg: &str, line: usize) -> (r:
    bool)
    ensures
        r == (msg@.len() > 0),
        final(engine)@ == spec_render_rule(old(engine)@, msg@, line as nat),
{
    if msg.is_empty() {
        return false;
    }
    engine.emit_diagnostic(DiagnosticSeverity::Error, msg, line);
    true
}

/// Diagnostic formatting rule #1388.
pub fn render_diagnostic_rule_1388(engine: &mut FullDiagnosticsEngine, msg: &str, line: usize) -> (r:
    bool)
    ensures
        r == (msg@.len() > 0),
        final(engine)@ == spec_render_rule(old(engine)@, msg@, line as nat),
{
    if msg.is_empty() {
        return false;
    }
    engine.emit_diagnostic(DiagnosticSeverity::Error, msg, line);
    true
}

/// Diagnostic formatting rule #1389.
pub fn render_diagnostic_rule_1389(engine: &mut FullDiagnosticsEngine, msg: &str, line: usize) -> (r:
    bool)
    ensures
        r == (msg@.len() > 0),
        final(engine)@ == spec_render_rule(old(engine)@, msg@, line as nat),
{
    if msg.is_empty() {
        return false;
    }
    engine.emit_diagnostic(DiagnosticSeverity::Error, msg, line);
    true
}

/// Diagnostic formatting rule #1390.
pub fn render_diagnostic_rule_1390(engine: &mut FullDiagnosticsEngine, msg: &str, line: usize) -> (r:
    bool)
    ensures
        r == (msg@.len() > 0),
        final(engine)@ == spec_render_rule(old(engine)@, msg@, line as nat),
{
    if msg.is_empty() {
        return false;
    }
    engine.emit_diagnostic(DiagnosticSeverity::Error, msg, line);
    true
}

/// Diagnostic formatting rule #1391.
pub fn render_diagnostic_rule_1391(engine: &mut FullDiagnosticsEngine, msg: &str, line: usize) -> (r:
    bool)
    ensures
        r == (msg@.len() > 0),
        final(engine)@ == spec_render_rule(old(engine)@, msg@, line as nat),
{
    if msg.is_empty() {
        return false;
    }
    engine.emit_diagnostic(DiagnosticSeverity::Error, msg, line);
    true
}

/// Diagnostic formatting rule #1392.
pub fn render_diagnostic_rule_1392(engine: &mut FullDiagnosticsEngine, msg: &str, line: usize) -> (r:
    bool)
    ensures
        r == (msg@.len() > 0),
        final(engine)@ == spec_render_rule(old(engine)@, msg@, line as nat),
{
    if msg.is_empty() {
        return false;
    }
    engine.emit_diagnostic(DiagnosticSeverity::Error, msg, line);
    true
}

/// Diagnostic formatting rule #1393.
pub fn render_diagnostic_rule_1393(engine: &mut FullDiagnosticsEngine, msg: &str, line: usize) -> (r:
    bool)
    ensures
        r == (msg@.len() > 0),
        final(engine)@ == spec_render_rule(old(engine)@, msg@, line as nat),
{
    if msg.is_empty() {
        return false;
    }
    engine.emit_diagnostic(DiagnosticSeverity::Error, msg, line);
    true
}

/// Diagnostic formatting rule #1394.
pub fn render_diagnostic_rule_1394(engine: &mut FullDiagnosticsEngine, msg: &str, line: usize) -> (r:
    bool)
    ensures
        r == (msg@.len() > 0),
        final(engine)@ == spec_render_rule(old(engine)@, msg@, line as nat),
{
    if msg.is_empty() {
        return false;
    }
    engine.emit_diagnostic(DiagnosticSeverity::Error, msg, line);
    true
}

/// Diagnostic formatting rule #1395.
pub fn render_diagnostic_rule_1395(engine: &mut FullDiagnosticsEngine, msg: &str, line: usize) -> (r:
    bool)
    ensures
        r == (msg@.len() > 0),
        final(engine)@ == spec_render_rule(old(engine)@, msg@, line as nat),
{
    if msg.is_empty() {
        return false;
    }
    engine.emit_diagnostic(DiagnosticSeverity::Error, msg, line);
    true
}

/// Diagnostic formatting rule #1396.
pub fn render_diagnostic_rule_1396(engine: &mut FullDiagnosticsEngine, msg: &str, line: usize) -> (r:
    bool)
    ensures
        r == (msg@.len() > 0),
        final(engine)@ == spec_render_rule(old(engine)@, msg@, line as nat),
{
    if msg.is_empty() {
        return false;
    }
    engine.emit_diagnostic(DiagnosticSeverity::Error, msg, line);
    true
}

/// Diagnostic formatting rule #1397.
pub fn render_diagnostic_rule_1397(engine: &mut FullDiagnosticsEngine, msg: &str, line: usize) -> (r:
    bool)
    ensures
        r == (msg@.len() > 0),
        final(engine)@ == spec_render_rule(old(engine)@, msg@, line as nat),
{
    if msg.is_empty() {
        return false;
    }
    engine.emit_diagnostic(DiagnosticSeverity::Error, msg, line);
    true
}

/// Diagnostic formatting rule #1398.
pub fn render_diagnostic_rule_1398(engine: &mut FullDiagnosticsEngine, msg: &str, line: usize) -> (r:
    bool)
    ensures
        r == (msg@.len() > 0),
        final(engine)@ == spec_render_rule(old(engine)@, msg@, line as nat),
{
    if msg.is_empty() {
        return false;
    }
    engine.emit_diagnostic(DiagnosticSeverity::Error, msg, line);
    true
}

/// Diagnostic formatting rule #1399.
pub fn render_diagnostic_rule_1399(engine: &mut FullDiagnosticsEngine, msg: &str, line: usize) -> (r:
    bool)
    ensures
        r == (msg@.len() > 0),
        final(engine)@ == spec_render_rule(old(engine)@, msg@, line as nat),
{
    if msg.is_empty() {
        return false;
    }
    engine.emit_diagnostic(DiagnosticSeverity::Error, msg, line);
    true
}

/// Diagnostic formatting rule #1400.
pub fn render_diagnostic_rule_1400(engine: &mut FullDiagnosticsEngine, msg: &str, line: usize) -> (r:
    bool)
    ensures
        r == (msg@.len() > 0),
        final(engine)@ == spec_render_rule(old(engine)@, msg@, line as nat),
{
    if msg.is_empty() {
        return false;
    }
    engine.emit_diagnostic(DiagnosticSeverity::Error, msg, line);
    true
}

/// Diagnostic formatting rule #1401.
pub fn render_diagnostic_rule_1401(engine: &mut FullDiagnosticsEngine, msg: &str, line: usize) -> (r:
    bool)
    ensures
        r == (msg@.len() > 0),
        final(engine)@ == spec_render_rule(old(engine)@, msg@, line as nat),
{
    if msg.is_empty() {
        return false;
    }
    engine.emit_diagnostic(DiagnosticSeverity::Error, msg, line);
    true
}

/// Diagnostic formatting rule #1402.
pub fn render_diagnostic_rule_1402(engine: &mut FullDiagnosticsEngine, msg: &str, line: usize) -> (r:
    bool)
    ensures
        r == (msg@.len() > 0),
        final(engine)@ == spec_render_rule(old(engine)@, msg@, line as nat),
{
    if msg.is_empty() {
        return false;
    }
    engine.emit_diagnostic(DiagnosticSeverity::Error, msg, line);
    true
}

/// Diagnostic formatting rule #1403.
pub fn render_diagnostic_rule_1403(engine: &mut FullDiagnosticsEngine, msg: &str, line: usize) -> (r:
    bool)
    ensures
        r == (msg@.len() > 0),
        final(engine)@ == spec_render_rule(old(engine)@, msg@, line as nat),
{
    if msg.is_empty() {
        return false;
    }
    engine.emit_diagnostic(DiagnosticSeverity::Error, msg, line);
    true
}

/// Diagnostic formatting rule #1404.
pub fn render_diagnostic_rule_1404(engine: &mut FullDiagnosticsEngine, msg: &str, line: usize) -> (r:
    bool)
    ensures
        r == (msg@.len() > 0),
        final(engine)@ == spec_render_rule(old(engine)@, msg@, line as nat),
{
    if msg.is_empty() {
        return false;
    }
    engine.emit_diagnostic(DiagnosticSeverity::Error, msg, line);
    true
}

/// Diagnostic formatting rule #1405.
pub fn render_diagnostic_rule_1405(engine: &mut FullDiagnosticsEngine, msg: &str, line: usize) -> (r:
    bool)
    ensures
        r == (msg@.len() > 0),
        final(engine)@ == spec_render_rule(old(engine)@, msg@, line as nat),
{
    if msg.is_empty() {
        return false;
    }
    engine.emit_diagnostic(DiagnosticSeverity::Error, msg, line);
    true
}

/// Diagnostic formatting rule #1406.
pub fn render_diagnostic_rule_1406(engine: &mut FullDiagnosticsEngine, msg: &str, line: usize) -> (r:
    bool)
    ensures
        r == (msg@.len() > 0),
        final(engine)@ == spec_render_rule(old(engine)@, msg@, line as nat),
{
    if msg.is_empty() {
        return false;
    }
    engine.emit_diagnostic(DiagnosticSeverity::Error, msg, line);
    true
}

/// Diagnostic formatting rule #1407.
pub fn render_diagnostic_rule_1407(engine: &mut FullDiagnosticsEngine, msg: &str, line: usize) -> (r:
    bool)
    ensures
        r == (msg@.len() > 0),
        final(engine)@ == spec_render_rule(old(engine)@, msg@, line as nat),
{
    if msg.is_empty() {
        return false;
    }
    engine.emit_diagnostic(DiagnosticSeverity::Error, msg, line);
    true
}

/// Diagnostic formatting rule #1408.
pub fn render_diagnostic_rule_1408(engine: &mut FullDiagnosticsEngine, msg: &str, line: usize) -> (r:
    bool)
    ensures
        r == (msg@.len() > 0),
        final(engine)@ == spec_render_rule(old(engine)@, msg@, line as nat),
{
    if msg.is_empty() {
        return false;
    }
    engine.emit_diagnostic(DiagnosticSeverity::Error, msg, line);
    true
}

/// Diagnostic formatting rule #1409.
pub fn render_diagnostic_rule_1409(engine: &mut FullDiagnosticsEngine, msg: &str, line: usize) -> (r:
    bool)
    ensures
        r == (msg@.len() > 0),
        final(engine)@ == spec_render_rule(old(engine)@, msg@, line as nat),
{
    if msg.is_empty() {
        return false;
    }
    engine.emit_diagnostic(DiagnosticSeverity::Error, msg, line);
    true
}

/// Diagnostic formatting rule #1410.
pub fn render_diagnostic_rule_1410(engine: &mut FullDiagnosticsEngine, msg: &str, line: usize) -> (r:
    bool)
    ensures
        r == (msg@.len() > 0),
        final(engine)@ == spec_render_rule(old(engine)@, msg@, line as nat),
{
    if msg.is_empty() {
        return false;
    }
    engine.emit_diagnostic(DiagnosticSeverity::Error, msg, line);
    true
}

/// Diagnostic formatting rule #1411.
pub fn render_diagnostic_rule_1411(engine: &mut FullDiagnosticsEngine, msg: &str, line: usize) -> (r:
    bool)
    ensures
        r == (msg@.len() > 0),
        final(engine)@ == spec_render_rule(old(engine)@, msg@, line as nat),
{
    if msg.is_empty() {
        return false;
    }
    engine.emit_diagnostic(DiagnosticSeverity::Error, msg, line);
    true
}

/// Diagnostic formatting rule #1412.
pub fn render_diagnostic_rule_1412(engine: &mut FullDiagnosticsEngine, msg: &str, line: usize) -> (r:
    bool)
    ensures
        r == (msg@.len() > 0),
        final(engine)@ == spec_render_rule(old(engine)@, msg@, line as nat),
{
    if msg.is_empty() {
        return false;
    }
    engine.emit_diagnostic(DiagnosticSeverity::Error, msg, line);
    true
}

/// Diagnostic formatting rule #1413.
pub fn render_diagnostic_rule_1413(engine: &mut FullDiagnosticsEngine, msg: &str, line: usize) -> (r:
    bool)
    ensures
        r == (msg@.len() > 0),
        final(engine)@ == spec_render_rule(old(engine)@, msg@, line as nat),
{
    if msg.is_empty() {
        return false;
    }
    engine.emit_diagnostic(DiagnosticSeverity::Error, msg, line);
    true
}

/// Diagnostic formatting rule #1414.
pub fn render_diagnostic_rule_1414(engine: &mut FullDiagnosticsEngine, msg: &str, line: usize) -> (r:
    bool)
    ensures
        r == (msg@.len() > 0),
        final(engine)@ == spec_render_rule(old(engine)@, msg@, line as nat),
{
    if msg.is_empty() {
        return false;
    }
    engine.emit_diagnostic(DiagnosticSeverity::Error, msg, line);
    true
}

/// Diagnostic formatting rule #1415.
pub fn render_diagnostic_rule_1415(engine: &mut FullDiagnosticsEngine, msg: &str, line: usize) -> (r:
    bool)
    ensures
        r == (msg@.len() > 0),
        final(engine)@ == spec_render_rule(old(engine)@, msg@, line as nat),
{
    if msg.is_empty() {
        return false;
    }
    engine.emit_diagnostic(DiagnosticSeverity::Error, msg, line);
    true
}

/// Diagnostic formatting rule #1416.
pub fn render_diagnostic_rule_1416(engine: &mut FullDiagnosticsEngine, msg: &str, line: usize) -> (r:
    bool)
    ensures
        r == (msg@.len() > 0),
        final(engine)@ == spec_render_rule(old(engine)@, msg@, line as nat),
{
    if msg.is_empty() {
        return false;
    }
    engine.emit_diagnostic(DiagnosticSeverity::Error, msg, line);
    true
}

/// Diagnostic formatting rule #1417.
pub fn render_diagnostic_rule_1417(engine: &mut FullDiagnosticsEngine, msg: &str, line: usize) -> (r:
    bool)
    ensures
        r == (msg@.len() > 0),
        final(engine)@ == spec_render_rule(old(engine)@, msg@, line as nat),
{
    if msg.is_empty() {
        return false;
    }
    engine.emit_diagnostic(DiagnosticSeverity::Error, msg, line);
    true
}

/// Diagnostic formatting rule #1418.
pub fn render_diagnostic_rule_1418(engine: &mut FullDiagnosticsEngine, msg: &str, line: usize) -> (r:
    bool)
    ensures
        r == (msg@.len() > 0),
        final(engine)@ == spec_render_rule(old(engine)@, msg@, line as nat),
{
    if msg.is_empty() {
        return false;
    }
    engine.emit_diagnostic(DiagnosticSeverity::Error, msg, line);
    true
}

/// Diagnostic formatting rule #1419.
pub fn render_diagnostic_rule_1419(engine: &mut FullDiagnosticsEngine, msg: &str, line: usize) -> (r:
    bool)
    ensures
        r == (msg@.len() > 0),
        final(engine)@ == spec_render_rule(old(engine)@, msg@, line as nat),
{
    if msg.is_empty() {
        return false;
    }
    engine.emit_diagnostic(DiagnosticSeverity::Error, msg, line);
    true
}

/// Diagnostic formatting rule #1420.
pub fn render_diagnostic_rule_1420(engine: &mut FullDiagnosticsEngine, msg: &str, line: usize) -> (r:
    bool)
    ensures
        r == (msg@.len() > 0),
        final(engine)@ == spec_render_rule(old(engine)@, msg@, line as nat),
{
    if msg.is_empty() {
        return false;
    }
    engine.emit_diagnostic(DiagnosticSeverity::Error, msg, line);
    true
}

/// Diagnostic formatting rule #1421.
pub fn render_diagnostic_rule_1421(engine: &mut FullDiagnosticsEngine, msg: &str, line: usize) -> (r:
    bool)
    ensures
        r == (msg@.len() > 0),
        final(engine)@ == spec_render_rule(old(engine)@, msg@, line as nat),
{
    if msg.is_empty() {
        return false;
    }
    engine.emit_diagnostic(DiagnosticSeverity::Error, msg, line);
    true
}

/// Diagnostic formatting rule #1422.
pub fn render_diagnostic_rule_1422(engine: &mut FullDiagnosticsEngine, msg: &str, line: usize) -> (r:
    bool)
    ensures
        r == (msg@.len() > 0),
        final(engine)@ == spec_render_rule(old(engine)@, msg@, line as nat),
{
    if msg.is_empty() {
        return false;
    }
    engine.emit_diagnostic(DiagnosticSeverity::Error, msg, line);
    true
}

/// Diagnostic formatting rule #1423.
pub fn render_diagnostic_rule_1423(engine: &mut FullDiagnosticsEngine, msg: &str, line: usize) -> (r:
    bool)
    ensures
        r == (msg@.len() > 0),
        final(engine)@ == spec_render_rule(old(engine)@, msg@, line as nat),
{
    if msg.is_empty() {
        return false;
    }
    engine.emit_diagnostic(DiagnosticSeverity::Error, msg, line);
    true
}

/// Diagnostic formatting rule #1424.
pub fn render_diagnostic_rule_1424(engine: &mut FullDiagnosticsEngine, msg: &str, line: usize) -> (r:
    bool)
    ensures
        r == (msg@.len() > 0),
        final(engine)@ == spec_render_rule(old(engine)@, msg@, line as nat),
{
    if msg.is_empty() {
        return false;
    }
    engine.emit_diagnostic(DiagnosticSeverity::Error, msg, line);
    true
}

/// Diagnostic formatting rule #1425.
pub fn render_diagnostic_rule_1425(engine: &mut FullDiagnosticsEngine, msg: &str, line: usize) -> (r:
    bool)
    ensures
        r == (msg@.len() > 0),
        final(engine)@ == spec_render_rule(old(engine)@, msg@, line as nat),
{
    if msg.is_empty() {
        return false;
    }
    engine.emit_diagnostic(DiagnosticSeverity::Error, msg, line);
    true
}

/// Diagnostic formatting rule #1426.
pub fn render_diagnostic_rule_1426(engine: &mut FullDiagnosticsEngine, msg: &str, line: usize) -> (r:
    bool)
    ensures
        r == (msg@.len() > 0),
        final(engine)@ == spec_render_rule(old(engine)@, msg@, line as nat),
{
    if msg.is_empty() {
        return false;
    }
    engine.emit_diagnostic(DiagnosticSeverity::Error, msg, line);
    true
}

/// Diagnostic formatting rule #1427.
pub fn render_diagnostic_rule_1427(engine: &mut FullDiagnosticsEngine, msg: &str, line: usize) -> (r:
    bool)
    ensures
        r == (msg@.len() > 0),
        final(engine)@ == spec_render_rule(old(engine)@, msg@, line as nat),
{
    if msg.is_empty() {
        return false;
    }
    engine.emit_diagnostic(DiagnosticSeverity::Error, msg, line);
    true
}

/// Diagnostic formatting rule #1428.
pub fn render_diagnostic_rule_1428(engine: &mut FullDiagnosticsEngine, msg: &str, line: usize) -> (r:
    bool)
    ensures
        r == (msg@.len() > 0),
        final(engine)@ == spec_render_rule(old(engine)@, msg@, line as nat),
{
    if msg.is_empty() {
        return false;
    }
    engine.emit_diagnostic(DiagnosticSeverity::Error, msg, line);
    true
}

/// Diagnostic formatting rule #1429.
pub fn render_diagnostic_rule_1429(engine: &mut FullDiagnosticsEngine, msg: &str, line: usize) -> (r:
    bool)
    ensures
        r == (msg@.len() > 0),
        final(engine)@ == spec_render_rule(old(engine)@, msg@, line as nat),
{
    if msg.is_empty() {
        return false;
    }
    engine.emit_diagnostic(DiagnosticSeverity::Error, msg, line);
    true
}

/// Diagnostic formatting rule #1430.
pub fn render_diagnostic_rule_1430(engine: &mut FullDiagnosticsEngine, msg: &str, line: usize) -> (r:
    bool)
    ensures
        r == (msg@.len() > 0),
        final(engine)@ == spec_render_rule(old(engine)@, msg@, line as nat),
{
    if msg.is_empty() {
        return false;
    }
    engine.emit_diagnostic(DiagnosticSeverity::Error, msg, line);
    true
}

/// Diagnostic formatting rule #1431.
pub fn render_diagnostic_rule_1431(engine: &mut FullDiagnosticsEngine, msg: &str, line: usize) -> (r:
    bool)
    ensures
        r == (msg@.len() > 0),
        final(engine)@ == spec_render_rule(old(engine)@, msg@, line as nat),
{
    if msg.is_empty() {
        return false;
    }
    engine.emit_diagnostic(DiagnosticSeverity::Error, msg, line);
    true
}

/// Diagnostic formatting rule #1432.
pub fn render_diagnostic_rule_1432(engine: &mut FullDiagnosticsEngine, msg: &str, line: usize) -> (r:
    bool)
    ensures
        r == (msg@.len() > 0),
        final(engine)@ == spec_render_rule(old(engine)@, msg@, line as nat),
{
    if msg.is_empty() {
        return false;
    }
    engine.emit_diagnostic(DiagnosticSeverity::Error, msg, line);
    true
}

/// Diagnostic formatting rule #1433.
pub fn render_diagnostic_rule_1433(engine: &mut FullDiagnosticsEngine, msg: &str, line: usize) -> (r:
    bool)
    ensures
        r == (msg@.len() > 0),
        final(engine)@ == spec_render_rule(old(engine)@, msg@, line as nat),
{
    if msg.is_empty() {
        return false;
    }
    engine.emit_diagnostic(DiagnosticSeverity::Error, msg, line);
    true
}

/// Diagnostic formatting rule #1434.
pub fn render_diagnostic_rule_1434(engine: &mut FullDiagnosticsEngine, msg: &str, line: usize) -> (r:
    bool)
    ensures
        r == (msg@.len() > 0),
        final(engine)@ == spec_render_rule(old(engine)@, msg@, line as nat),
{
    if msg.is_empty() {
        return false;
    }
    engine.emit_diagnostic(DiagnosticSeverity::Error, msg, line);
    true
}

/// Diagnostic formatting rule #1435.
pub fn render_diagnostic_rule_1435(engine: &mut FullDiagnosticsEngine, msg: &str, line: usize) -> (r:
    bool)
    ensures
        r == (msg@.len() > 0),
        final(engine)@ == spec_render_rule(old(engine)@, msg@, line as nat),
{
    if msg.is_empty() {
        return false;
    }
    engine.emit_diagnostic(DiagnosticSeverity::Error, msg, line);
    true
}

/// Diagnostic formatting rule #1436.
pub fn render_diagnostic_rule_1436(engine: &mut FullDiagnosticsEngine, msg: &str, line: usize) -> (r:
    bool)
    ensures
        r == (msg@.len() > 0),
        final(engine)@ == spec_render_rule(old(engine)@, msg@, line as nat),
{
    if msg.is_empty() {
        return false;
    }
    engine.emit_diagnostic(DiagnosticSeverity::Error, msg, line);
    true
}

/// Diagnostic formatting rule #1437.
pub fn render_diagnostic_rule_1437(engine: &mut FullDiagnosticsEngine, msg: &str, line: usize) -> (r:
    bool)
    ensures
        r == (msg@.len() > 0),
        final(engine)@ == spec_render_rule(old(engine)@, msg@, line as nat),
{
    if msg.is_empty() {
        return false;
    }
    engine.emit_diagnostic(DiagnosticSeverity::Error, msg, line);
    true
}

/// Diagnostic formatting rule #1438.
pub fn render_diagnostic_rule_1438(engine: &mut FullDiagnosticsEngine, msg: &str, line: usize) -> (r:
    bool)
    ensures
        r == (msg@.len() > 0),
        final(engine)@ == spec_render_rule(old(engine)@, msg@, line as nat),
{
    if msg.is_empty() {
        return false;
    }
    engine.emit_diagnostic(DiagnosticSeverity::Error, msg, line);
    true
}

/// Diagnostic formatting rule #1439.
pub fn render_diagnostic_rule_1439(engine: &mut FullDiagnosticsEngine, msg: &str, line: usize) -> (r:
    bool)
    ensures
        r == (msg@.len() > 0),
        final(engine)@ == spec_render_rule(old(engine)@, msg@, line as nat),
{
    if msg.is_empty() {
        return false;
    }
    engine.emit_diagnostic(DiagnosticSeverity::Error, msg, line);
    true
}

/// Diagnostic formatting rule #1440.
pub fn render_diagnostic_rule_1440(engine: &mut FullDiagnosticsEngine, msg: &str, line: usize) -> (r:
    bool)
    ensures
        r == (msg@.len() > 0),
        final(engine)@ == spec_render_rule(old(engine)@, msg@, line as nat),
{
    if msg.is_empty() {
        return false;
    }
    engine.emit_diagnostic(DiagnosticSeverity::Error, msg, line);
    true
}

/// Diagnostic formatting rule #1441.
pub fn render_diagnostic_rule_1441(engine: &mut FullDiagnosticsEngine, msg: &str, line: usize) -> (r:
    bool)
    ensures
        r == (msg@.len() > 0),
        final(engine)@ == spec_render_rule(old(engine)@, msg@, line as nat),
{
    if msg.is_empty() {
        return false;
    }
    engine.emit_diagnostic(DiagnosticSeverity::Error, msg, line);
    true
}

/// Diagnostic formatting rule #1442.
pub fn render_diagnostic_rule_1442(engine: &mut FullDiagnosticsEngine, msg: &str, line: usize) -> (r:
    bool)
    ensures
        r == (msg@.len() > 0),
        final(engine)@ == spec_render_rule(old(engine)@, msg@, line as nat),
{
    if msg.is_empty() {
        return false;
    }
    engine.emit_diagnostic(DiagnosticSeverity::Error, msg, line);
    true
}

/// Diagnostic formatting rule #1443.
pub fn render_diagnostic_rule_1443(engine: &mut FullDiagnosticsEngine, msg: &str, line: usize) -> (r:
    bool)
    ensures
        r == (msg@.len() > 0),
        final(engine)@ == spec_render_rule(old(engine)@, msg@, line as nat),
{
    if msg.is_empty() {
        return false;
    }
    engine.emit_diagnostic(DiagnosticSeverity::Error, msg, line);
    true
}

/// Diagnostic formatting rule #1444.
pub fn render_diagnostic_rule_1444(engine: &mut FullDiagnosticsEngine, msg: &str, line: usize) -> (r:
    bool)
    ensures
        r == (msg@.len() > 0),
        final(engine)@ == spec_render_rule(old(engine)@, msg@, line as nat),
{
    if msg.is_empty() {
        return false;
    }
    engine.emit_diagnostic(DiagnosticSeverity::Error, msg, line);
    true
}

/// Diagnostic formatting rule #1445.
pub fn render_diagnostic_rule_1445(engine: &mut FullDiagnosticsEngine, msg: &str, line: usize) -> (r:
    bool)
    ensures
        r == (msg@.len() > 0),
        final(engine)@ == spec_render_rule(old(engine)@, msg@, line as nat),
{
    if msg.is_empty() {
        return false;
    }
    engine.emit_diagnostic(DiagnosticSeverity::Error, msg, line);
    true
}

/// Diagnostic formatting rule #1446.
pub fn render_diagnostic_rule_1446(engine: &mut FullDiagnosticsEngine, msg: &str, line: usize) -> (r:
    bool)
    ensures
        r == (msg@.len() > 0),
        final(engine)@ == spec_render_rule(old(engine)@, msg@, line as nat),
{
    if msg.is_empty() {
        return false;
    }
    engine.emit_diagnostic(DiagnosticSeverity::Error, msg, line);
    true
}

/// Diagnostic formatting rule #1447.
pub fn render_diagnostic_rule_1447(engine: &mut FullDiagnosticsEngine, msg: &str, line: usize) -> (r:
    bool)
    ensures
        r == (msg@.len() > 0),
        final(engine)@ == spec_render_rule(old(engine)@, msg@, line as nat),
{
    if msg.is_empty() {
        return false;
    }
    engine.emit_diagnostic(DiagnosticSeverity::Error, msg, line);
    true
}

/// Diagnostic formatting rule #1448.
pub fn render_diagnostic_rule_1448(engine: &mut FullDiagnosticsEngine, msg: &str, line: usize) -> (r:
    bool)
    ensures
        r == (msg@.len() > 0),
        final(engine)@ == spec_render_rule(old(engine)@, msg@, line as nat),
{
    if msg.is_empty() {
        return false;
    }
    engine.emit_diagnostic(DiagnosticSeverity::Error, msg, line);
    true
}

/// Diagnostic formatting rule #1449.
pub fn render_diagnostic_rule_1449(engine: &mut FullDiagnosticsEngine, msg: &str, line: usize) -> (r:
    bool)
    ensures
        r == (msg@.len() > 0),
        final(engine)@ == spec_render_rule(old(engine)@, msg@, line as nat),
{
    if msg.is_empty() {
        return false;
    }
    engine.emit_diagnostic(DiagnosticSeverity::Error, msg, line);
    true
}

/// Diagnostic formatting rule #1450.
pub fn render_diagnostic_rule_1450(engine: &mut FullDiagnosticsEngine, msg: &str, line: usize) -> (r:
    bool)
    ensures
        r == (msg@.len() > 0),
        final(engine)@ == spec_render_rule(old(engine)@, msg@, line as nat),
{
    if msg.is_empty() {
        return false;
    }
    engine.emit_diagnostic(DiagnosticSeverity::Error, msg, line);
    true
}

/// Diagnostic formatting rule #1451.
pub fn render_diagnostic_rule_1451(engine: &mut FullDiagnosticsEngine, msg: &str, line: usize) -> (r:
    bool)
    ensures
        r == (msg@.len() > 0),
        final(engine)@ == spec_render_rule(old(engine)@, msg@, line as nat),
{
    if msg.is_empty() {
        return false;
    }
    engine.emit_diagnostic(DiagnosticSeverity::Error, msg, line);
    true
}

/// Diagnostic formatting rule #1452.
pub fn render_diagnostic_rule_1452(engine: &mut FullDiagnosticsEngine, msg: &str, line: usize) -> (r:
    bool)
    ensures
        r == (msg@.len() > 0),
        final(engine)@ == spec_render_rule(old(engine)@, msg@, line as nat),
{
    if msg.is_empty() {
        return false;
    }
    engine.emit_diagnostic(DiagnosticSeverity::Error, msg, line);
    true
}

/// Diagnostic formatting rule #1453.
pub fn render_diagnostic_rule_1453(engine: &mut FullDiagnosticsEngine, msg: &str, line: usize) -> (r:
    bool)
    ensures
        r == (msg@.len() > 0),
        final(engine)@ == spec_render_rule(old(engine)@, msg@, line as nat),
{
    if msg.is_empty() {
        return false;
    }
    engine.emit_diagnostic(DiagnosticSeverity::Error, msg, line);
    true
}

/// Diagnostic formatting rule #1454.
pub fn render_diagnostic_rule_1454(engine: &mut FullDiagnosticsEngine, msg: &str, line: usize) -> (r:
    bool)
    ensures
        r == (msg@.len() > 0),
        final(engine)@ == spec_render_rule(old(engine)@, msg@, line as nat),
{
    if msg.is_empty() {
        return false;
    }
    engine.emit_diagnostic(DiagnosticSeverity::Error, msg, line);
    true
}

/// Diagnostic formatting rule #1455.
pub fn render_diagnostic_rule_1455(engine: &mut FullDiagnosticsEngine, msg: &str, line: usize) -> (r:
    bool)
    ensures
        r == (msg@.len() > 0),
        final(engine)@ == spec_render_rule(old(engine)@, msg@, line as nat),
{
    if msg.is_empty() {
        return false;
    }
    engine.emit_diagnostic(DiagnosticSeverity::Error, msg, line);
    true
}

/// Diagnostic formatting rule #1456.
pub fn render_diagnostic_rule_1456(engine: &mut FullDiagnosticsEngine, msg: &str, line: usize) -> (r:
    bool)
    ensures
        r == (msg@.len() > 0),
        final(engine)@ == spec_render_rule(old(engine)@, msg@, line as nat),
{
    if msg.is_empty() {
        return false;
    }
    engine.emit_diagnostic(DiagnosticSeverity::Error, msg, line);
    true
}

/// Diagnostic formatting rule #1457.
pub fn render_diagnostic_rule_1457(engine: &mut FullDiagnosticsEngine, msg: &str, line: usize) -> (r:
    bool)
    ensures
        r == (msg@.len() > 0),
        final(engine)@ == spec_render_rule(old(engine)@, msg@, line as nat),
{
    if msg.is_empty() {
        return false;
    }
    engine.emit_diagnostic(DiagnosticSeverity::Error, msg, line);
    true
}

/// Diagnostic formatting rule #1458.
pub fn render_diagnostic_rule_1458(engine: &mut FullDiagnosticsEngine, msg: &str, line: usize) -> (r:
    bool)
    ensures
        r == (msg@.len() > 0),
        final(engine)@ == spec_render_rule(old(engine)@, msg@, line as nat),
{
    if msg.is_empty() {
        return false;
    }
    engine.emit_diagnostic(DiagnosticSeverity::Error, msg, line);
    true
}

/// Diagnostic formatting rule #1459.
pub fn render_diagnostic_rule_1459(engine: &mut FullDiagnosticsEngine, msg: &str, line: usize) -> (r:
    bool)
    ensures
        r == (msg@.len() > 0),
        final(engine)@ == spec_render_rule(old(engine)@, msg@, line as nat),
{
    if msg.is_empty() {
        return false;
    }
    engine.emit_diagnostic(DiagnosticSeverity::Error, msg, line);
    true
}

/// Diagnostic formatting rule #1460.
pub fn render_diagnostic_rule_1460(engine: &mut FullDiagnosticsEngine, msg: &str, line: usize) -> (r:
    bool)
    ensures
        r == (msg@.len() > 0),
        final(engine)@ == spec_render_rule(old(engine)@, msg@, line as nat),
{
    if msg.is_empty() {
        return false;
    }
    engine.emit_diagnostic(DiagnosticSeverity::Error, msg, line);
    true
}

/// Diagnostic formatting rule #1461.
pub fn render_diagnostic_rule_1461(engine: &mut FullDiagnosticsEngine, msg: &str, line: usize) -> (r:
    bool)
    ensures
        r == (msg@.len() > 0),
        final(engine)@ == spec_render_rule(old(engine)@, msg@, line as nat),
{
    if msg.is_empty() {
        return false;
    }
    engine.emit_diagnostic(DiagnosticSeverity::Error, msg, line);
    true
}

/// Diagnostic formatting rule #1462.
pub fn render_diagnostic_rule_1462(engine: &mut FullDiagnosticsEngine, msg: &str, line: usize) -> (r:
    bool)
    ensures
        r == (msg@.len() > 0),
        final(engine)@ == spec_render_rule(old(engine)@, msg@, line as nat),
{
    if msg.is_empty() {
        return false;
    }
    engine.emit_diagnostic(DiagnosticSeverity::Error, msg, line);
    true
}

/// Diagnostic formatting rule #1463.
pub fn render_diagnostic_rule_1463(engine: &mut FullDiagnosticsEngine, msg: &str, line: usize) -> (r:
    bool)
    ensures
        r == (msg@.len() > 0),
        final(engine)@ == spec_render_rule(old(engine)@, msg@, line as nat),
{
    if msg.is_empty() {
        return false;
    }
    engine.emit_diagnostic(DiagnosticSeverity::Error, msg, line);
    true
}

/// Diagnostic formatting rule #1464.
pub fn render_diagnostic_rule_1464(engine: &mut FullDiagnosticsEngine, msg: &str, line: usize) -> (r:
    bool)
    ensures
        r == (msg@.len() > 0),
        final(engine)@ == spec_render_rule(old(engine)@, msg@, line as nat),
{
    if msg.is_empty() {
        return false;
    }
    engine.emit_diagnostic(DiagnosticSeverity::Error, msg, line);
    true
}

/// Diagnostic formatting rule #1465.
pub fn render_diagnostic_rule_1465(engine: &mut FullDiagnosticsEngine, msg: &str, line: usize) -> (r:
    bool)
    ensures
        r == (msg@.len() > 0),
        final(engine)@ == spec_render_rule(old(engine)@, msg@, line as nat),
{
    if msg.is_empty() {
        return false;
    }
    engine.emit_diagnostic(DiagnosticSeverity::Error, msg, line);
    true
}

/// Diagnostic formatting rule #1466.
pub fn render_diagnostic_rule_1466(engine: &mut FullDiagnosticsEngine, msg: &str, line: usize) -> (r:
    bool)
    ensures
        r == (msg@.len() > 0),
        final(engine)@ == spec_render_rule(old(engine)@, msg@, line as nat),
{
    if msg.is_empty() {
        return false;
    }
    engine.emit_diagnostic(DiagnosticSeverity::Error, msg, line);
    true
}

/// Diagnostic formatting rule #1467.
pub fn render_diagnostic_rule_1467(engine: &mut FullDiagnosticsEngine, msg: &str, line: usize) -> (r:
    bool)
    ensures
        r == (msg@.len() > 0),
        final(engine)@ == spec_render_rule(old(engine)@, msg@, line as nat),
{
    if msg.is_empty() {
        return false;
    }
    engine.emit_diagnostic(DiagnosticSeverity::Error, msg, line);
    true
}

/// Diagnostic formatting rule #1468.
pub fn render_diagnostic_rule_1468(engine: &mut FullDiagnosticsEngine, msg: &str, line: usize) -> (r:
    bool)
    ensures
        r == (msg@.len() > 0),
        final(engine)@ == spec_render_rule(old(engine)@, msg@, line as nat),
{
    if msg.is_empty() {
        return false;
    }
    engine.emit_diagnostic(DiagnosticSeverity::Error, msg, line);
    true
}

/// Diagnostic formatting rule #1469.
pub fn render_diagnostic_rule_1469(engine: &mut FullDiagnosticsEngine, msg: &str, line: usize) -> (r:
    bool)
    ensures
        r == (msg@.len() > 0),
        final(engine)@ == spec_render_rule(old(engine)@, msg@, line as nat),
{
    if msg.is_empty() {
        return false;
    }
    engine.emit_diagnostic(DiagnosticSeverity::Error, msg, line);
    true
}

/// Diagnostic formatting rule #1470.
pub fn render_diagnostic_rule_1470(engine: &mut FullDiagnosticsEngine, msg: &str, line: usize) -> (r:
    bool)
    ensures
        r == (msg@.len() > 0),
        final(engine)@ == spec_render_rule(old(engine)@, msg@, line as nat),
{
    if msg.is_empty() {
        return false;
    }
    engine.emit_diagnostic(DiagnosticSeverity::Error, msg, line);
    true
}

/// Diagnostic formatting rule #1471.
pub fn render_diagnostic_rule_1471(engine: &mut FullDiagnosticsEngine, msg: &str, line: usize) -> (r:
    bool)
    ensures
        r == (msg@.len() > 0),
        final(engine)@ == spec_render_rule(old(engine)@, msg@, line as nat),
{
    if msg.is_empty() {
        return false;
    }
    engine.emit_diagnostic(DiagnosticSeverity::Error, msg, line);
    true
}

/// Diagnostic formatting rule #1472.
pub fn render_diagnostic_rule_1472(engine: &mut FullDiagnosticsEngine, msg: &str, line: usize) -> (r:
    bool)
    ensures
        r == (msg@.len() > 0),
        final(engine)@ == spec_render_rule(old(engine)@, msg@, line as nat),
{
    if msg.is_empty() {
        return false;
    }
    engine.emit_diagnostic(DiagnosticSeverity::Error, msg, line);
    true
}

/// Diagnostic formatting rule #1473.
pub fn render_diagnostic_rule_1473(engine: &mut FullDiagnosticsEngine, msg: &str, line: usize) -> (r:
    bool)
    ensures
        r == (msg@.len() > 0),
        final(engine)@ == spec_render_rule(old(engine)@, msg@, line as nat),
{
    if msg.is_empty() {
        return false;
    }
    engine.emit_diagnostic(DiagnosticSeverity::Error, msg, line);
    true
}

/// Diagnostic formatting rule #1474.
pub fn render_diagnostic_rule_1474(engine: &mut FullDiagnosticsEngine, msg: &str, line: usize) -> (r:
    bool)
    ensures
        r == (msg@.len() > 0),
        final(engine)@ == spec_render_rule(old(engine)@, msg@, line as nat),
{
    if msg.is_empty() {
        return false;
    }
    engine.emit_diagnostic(DiagnosticSeverity::Error, msg, line);
    true
}

/// Diagnostic formatting rule #1475.
pub fn render_diagnostic_rule_1475(engine: &mut FullDiagnosticsEngine, msg: &str, line: usize) -> (r:
    bool)
    ensures
        r == (msg@.len() > 0),
        final(engine)@ == spec_render_rule(old(engine)@, msg@, line as nat),
{
    if msg.is_empty() {
        return false;
    }
    engine.emit_diagnostic(DiagnosticSeverity::Error, msg, line);
    true
}

/// Diagnostic formatting rule #1476.
pub fn render_diagnostic_rule_1476(engine: &mut FullDiagnosticsEngine, msg: &str, line: usize) -> (r:
    bool)
    ensures
        r == (msg@.len() > 0),
        final(engine)@ == spec_render_rule(old(engine)@, msg@, line as nat),
{
    if msg.is_empty() {
        return false;
    }
    engine.emit_diagnostic(DiagnosticSeverity::Error, msg, line);
    true
}

/// Diagnostic formatting rule #1477.
pub fn render_diagnostic_rule_1477(engine: &mut FullDiagnosticsEngine, msg: &str, line: usize) -> (r:
    bool)
    ensures
        r == (msg@.len() > 0),
        final(engine)@ == spec_render_rule(old(engine)@, msg@, line as nat),
{
    if msg.is_empty() {
        return false;
    }
    engine.emit_diagnostic(DiagnosticSeverity::Error, msg, line);
    true
}

/// Diagnostic formatting rule #1478.
pub fn render_diagnostic_rule_1478(engine: &mut FullDiagnosticsEngine, msg: &str, line: usize) -> (r:
    bool)
    ensures
        r == (msg@.len() > 0),
        final(engine)@ == spec_render_rule(old(engine)@, msg@, line as nat),
{
    if msg.is_empty() {
        return false;
    }
    engine.emit_diagnostic(DiagnosticSeverity::Error, msg, line);
    true
}

/// Diagnostic formatting rule #1479.
pub fn render_diagnostic_rule_1479(engine: &mut FullDiagnosticsEngine, msg: &str, line: usize) -> (r:
    bool)
    ensures
        r == (msg@.len() > 0),
        final(engine)@ == spec_render_rule(old(engine)@, msg@, line as nat),
{
    if msg.is_empty() {
        return false;
    }
    engine.emit_diagnostic(DiagnosticSeverity::Error, msg, line);
    true
}

/// Diagnostic formatting rule #1480.
pub fn render_diagnostic_rule_1480(engine: &mut FullDiagnosticsEngine, msg: &str, line: usize) -> (r:
    bool)
    ensures
        r == (msg@.len() > 0),
        final(engine)@ == spec_render_rule(old(engine)@, msg@, line as nat),
{
    if msg.is_empty() {
        return false;
    }
    engine.emit_diagnostic(DiagnosticSeverity::Error, msg, line);
    true
}

/// Diagnostic formatting rule #1481.
pub fn render_diagnostic_rule_1481(engine: &mut FullDiagnosticsEngine, msg: &str, line: usize) -> (r:
    bool)
    ensures
        r == (msg@.len() > 0),
        final(engine)@ == spec_render_rule(old(engine)@, msg@, line as nat),
{
    if msg.is_empty() {
        return false;
    }
    engine.emit_diagnostic(DiagnosticSeverity::Error, msg, line);
    true
}

/// Diagnostic formatting rule #1482.
pub fn render_diagnostic_rule_1482(engine: &mut FullDiagnosticsEngine, msg: &str, line: usize) -> (r:
    bool)
    ensures
        r == (msg@.len() > 0),
        final(engine)@ == spec_render_rule(old(engine)@, msg@, line as nat),
{
    if msg.is_empty() {
        return false;
    }
    engine.emit_diagnostic(DiagnosticSeverity::Error, msg, line);
    true
}

/// Diagnostic formatting rule #1483.
pub fn render_diagnostic_rule_1483(engine: &mut FullDiagnosticsEngine, msg: &str, line: usize) -> (r:
    bool)
    ensures
        r == (msg@.len() > 0),
        final(engine)@ == spec_render_rule(old(engine)@, msg@, line as nat),
{
    if msg.is_empty() {
        return false;
    }
    engine.emit_diagnostic(DiagnosticSeverity::Error, msg, line);
    true
}

/// Diagnostic formatting rule #1484.
pub fn render_diagnostic_rule_1484(engine: &mut FullDiagnosticsEngine, msg: &str, line: usize) -> (r:
    bool)
    ensures
        r == (msg@.len() > 0),
        final(engine)@ == spec_render_rule(old(engine)@, msg@, line as nat),
{
    if msg.is_empty() {
        return false;
    }
    engine.emit_diagnostic(DiagnosticSeverity::Error, msg, line);
    true
}

/// Diagnostic formatting rule #1485.
pub fn render_diagnostic_rule_1485(engine: &mut FullDiagnosticsEngine, msg: &str, line: usize) -> (r:
    bool)
    ensures
        r == (msg@.len() > 0),
        final(engine)@ == spec_render_rule(old(engine)@, msg@, line as nat),
{
    if msg.is_empty() {
        return false;
    }
    engine.emit_diagnostic(DiagnosticSeverity::Error, msg, line);
    true
}

/// Diagnostic formatting rule #1486.
pub fn render_diagnostic_rule_1486(engine: &mut FullDiagnosticsEngine, msg: &str, line: usize) -> (r:
    bool)
    ensures
        r == (msg@.len() > 0),
        final(engine)@ == spec_render_rule(old(engine)@, msg@, line as nat),
{
    if msg.is_empty() {
        return false;
    }
    engine.emit_diagnostic(DiagnosticSeverity::Error, msg, line);
    true
}

/// Diagnostic formatting rule #1487.
pub fn render_diagnostic_rule_1487(engine: &mut FullDiagnosticsEngine, msg: &str, line: usize) -> (r:
    bool)
    ensures
        r == (msg@.len() > 0),
        final(engine)@ == spec_render_rule(old(engine)@, msg@, line as nat),
{
    if msg.is_empty() {
        return false;
    }
    engine.emit_diagnostic(DiagnosticSeverity::Error, msg, line);
    true
}

/// Diagnostic formatting rule #1488.
pub fn render_diagnostic_rule_1488(engine: &mut FullDiagnosticsEngine, msg: &str, line: usize) -> (r:
    bool)
    ensures
        r == (msg@.len() > 0),
        final(engine)@ == spec_render_rule(old(engine)@, msg@, line as nat),
{
    if msg.is_empty() {
        return false;
    }
    engine.emit_diagnostic(DiagnosticSeverity::Error, msg, line);
    true
}

/// Diagnostic formatting rule #1489.
pub fn render_diagnostic_rule_1489(engine: &mut FullDiagnosticsEngine, msg: &str, line: usize) -> (r:
    bool)
    ensures
        r == (msg@.len() > 0),
        final(engine)@ == spec_render_rule(old(engine)@, msg@, line as nat),
{
    if msg.is_empty() {
        return false;
    }
    engine.emit_diagnostic(DiagnosticSeverity::Error, msg, line);
    true
}

/// Diagnostic formatting rule #1490.
pub fn render_diagnostic_rule_1490(engine: &mut FullDiagnosticsEngine, msg: &str, line: usize) -> (r:
    bool)
    ensures
        r == (msg@.len() > 0),
        final(engine)@ == spec_render_rule(old(engine)@, msg@, line as nat),
{
    if msg.is_empty() {
        return false;
    }
    engine.emit_diagnostic(DiagnosticSeverity::Error, msg, line);
    true
}

/// Diagnostic formatting rule #1491.
pub fn render_diagnostic_rule_1491(engine: &mut FullDiagnosticsEngine, msg: &str, line: usize) -> (r:
    bool)
    ensures
        r == (msg@.len() > 0),
        final(engine)@ == spec_render_rule(old(engine)@, msg@, line as nat),
{
    if msg.is_empty() {
        return false;
    }
    engine.emit_diagnostic(DiagnosticSeverity::Error, msg, line);
    true
}

/// Diagnostic formatting rule #1492.
pub fn render_diagnostic_rule_1492(engine: &mut FullDiagnosticsEngine, msg: &str, line: usize) -> (r:
    bool)
    ensures
        r == (msg@.len() > 0),
        final(engine)@ == spec_render_rule(old(engine)@, msg@, line as nat),
{
    if msg.is_empty() {
        return false;
    }
    engine.emit_diagnostic(DiagnosticSeverity::Error, msg, line);
    true
}

/// Diagnostic formatting rule #1493.
pub fn render_diagnostic_rule_1493(engine: &mut FullDiagnosticsEngine, msg: &str, line: usize) -> (r:
    bool)
    ensures
        r == (msg@.len() > 0),
        final(engine)@ == spec_render_rule(old(engine)@, msg@, line as nat),
{
    if msg.is_empty() {
        return false;
    }
    engine.emit_diagnostic(DiagnosticSeverity::Error, msg, line);
    true
}

/// Diagnostic formatting rule #1494.
pub fn render_diagnostic_rule_1494(engine: &mut FullDiagnosticsEngine, msg: &str, line: usize) -> (r:
    bool)
    ensures
        r == (msg@.len() > 0),
        final(engine)@ == spec_render_rule(old(engine)@, msg@, line as nat),
{
    if msg.is_empty() {
        return false;
    }
    engine.emit_diagnostic(DiagnosticSeverity::Error, msg, line);
    true
}

/// Diagnostic formatting rule #1495.
pub fn render_diagnostic_rule_1495(engine: &mut FullDiagnosticsEngine, msg: &str, line: usize) -> (r:
    bool)
    ensures
        r == (msg@.len() > 0),
        final(engine)@ == spec_render_rule(old(engine)@, msg@, line as nat),
{
    if msg.is_empty() {
        return false;
    }
    engine.emit_diagnostic(DiagnosticSeverity::Error, msg, line);
    true
}

/// Diagnostic formatting rule #1496.
pub fn render_diagnostic_rule_1496(engine: &mut FullDiagnosticsEngine, msg: &str, line: usize) -> (r:
    bool)
    ensures
        r == (msg@.len() > 0),
        final(engine)@ == spec_render_rule(old(engine)@, msg@, line as nat),
{
    if msg.is_empty() {
        return false;
    }
    engine.emit_diagnostic(DiagnosticSeverity::Error, msg, line);
    true
}

/// Diagnostic formatting rule #1497.
pub fn render_diagnostic_rule_1497(engine: &mut FullDiagnosticsEngine, msg: &str, line: usize) -> (r:
    bool)
    ensures
        r == (msg@.len() > 0),
        final(engine)@ == spec_render_rule(old(engine)@, msg@, line as nat),
{
    if msg.is_empty() {
        return false;
    }
    engine.emit_diagnostic(DiagnosticSeverity::Error, msg, line);
    true
}

/// Diagnostic formatting rule #1498.
pub fn render_diagnostic_rule_1498(engine: &mut FullDiagnosticsEngine, msg: &str, line: usize) -> (r:
    bool)
    ensures
        r == (msg@.len() > 0),
        final(engine)@ == spec_render_rule(old(engine)@, msg@, line as nat),
{
    if msg.is_empty() {
        return false;
    }
    engine.emit_diagnostic(DiagnosticSeverity::Error, msg, line);
    true
}

/// Diagnostic formatting rule #1499.
pub fn render_diagnostic_rule_1499(engine: &mut FullDiagnosticsEngine, msg: &str, line: usize) -> (r:
    bool)
    ensures
        r == (msg@.len() > 0),
        final(engine)@ == spec_render_rule(old(engine)@, msg@, line as nat),
{
    if msg.is_empty() {
        return false;
    }
    engine.emit_diagnostic(DiagnosticSeverity::Error, msg, line);
    true
}

/// Diagnostic formatting rule #1500.
pub fn render_diagnostic_rule_1500(engine: &mut FullDiagnosticsEngine, msg: &str, line: usize) -> (r:
    bool)
    ensures
        r == (msg@.len() > 0),
        final(engine)@ == spec_render_rule(old(engine)@, msg@, line as nat),
{
    if msg.is_empty() {
        return false;
    }
    engine.emit_diagnostic(DiagnosticSeverity::Error, msg, line);
    true
}

} // verus!
