//! The diagnostics engine: it renders diagnostics as
//! `[Severity] file:line: message` lines and collects them.

use vstd::prelude::*;
use vstd::string::StringExecFns;

verus! {

/// How serious a diagnostic is.
#[derive(Debug, Clone, PartialEq, Eq, Structural)]
pub enum DiagnosticSeverity {
    Note,
    Warning,
    Error,
}

/// A file's diagnostics, in the order they were emitted.
pub struct FullDiagnosticsEngine {
    pub file_path: String,
    pub diagnostics: Vec<String>,
}

/// The abstract content of an engine: the file path and the rendered
/// diagnostics.
pub struct EngineView {
    pub file_path: Seq<char>,
    pub diagnostics: Seq<Seq<char>>,
}

impl View for FullDiagnosticsEngine {
    type V = EngineView;

    open spec fn view(&self) -> EngineView {
        EngineView {
            file_path: self.file_path@,
            diagnostics: self.diagnostics@.map_values(|d: String| d@),
        }
    }
}

/// The name of a severity, as its `Debug` rendering spells it.
pub open spec fn severity_name(severity: DiagnosticSeverity) -> Seq<char> {
    match severity {
        DiagnosticSeverity::Note => seq!['N', 'o', 't', 'e'],
        DiagnosticSeverity::Warning => seq!['W', 'a', 'r', 'n', 'i', 'n', 'g'],
        DiagnosticSeverity::Error => seq!['E', 'r', 'r', 'o', 'r'],
    }
}

/// The character of a decimal digit.
pub open spec fn digit_char(d: int) -> char {
    if d == 0 {
        '0'
    } else if d == 1 {
        '1'
    } else if d == 2 {
        '2'
    } else if d == 3 {
        '3'
    } else if d == 4 {
        '4'
    } else if d == 5 {
        '5'
    } else if d == 6 {
        '6'
    } else if d == 7 {
        '7'
    } else if d == 8 {
        '8'
    } else {
        '9'
    }
}

/// The decimal rendering of a natural number, without leading zeros.
pub open spec fn decimal(n: nat) -> Seq<char>
    decreases n,
{
    if n < 10 {
        seq![digit_char(n as int)]
    } else {
        decimal(n / 10).push(digit_char((n % 10) as int))
    }
}

/// The rendered line of a diagnostic.
pub open spec fn diagnostic_text(
    severity: DiagnosticSeverity,
    file_path: Seq<char>,
    line: nat,
    msg: Seq<char>,
) -> Seq<char> {
    seq!['['] + severity_name(severity) + seq![']', ' '] + file_path + seq![':'] + decimal(line)
        + seq![':', ' '] + msg
}

/// The engine after emitting a diagnostic.
pub open spec fn spec_emit(
    engine: EngineView,
    severity: DiagnosticSeverity,
    msg: Seq<char>,
    line: nat,
) -> EngineView {
    EngineView {
        file_path: engine.file_path,
        diagnostics: engine.diagnostics.push(
            diagnostic_text(severity, engine.file_path, line, msg),
        ),
    }
}

/// The engine after a formatting rule saw a message: an empty message is
/// ignored, any other is emitted as an error.
pub open spec fn spec_render_rule(engine: EngineView, msg: Seq<char>, line: nat) -> EngineView {
    if msg.len() == 0 {
        engine
    } else {
        spec_emit(engine, DiagnosticSeverity::Error, msg, line)
    }
}

/// Whether a character is a decimal digit.
pub open spec fn is_digit(c: char) -> bool {
    '0' <= c && c <= '9'
}

/// The number a string of decimal digits denotes, most significant first.
pub open spec fn digits_value(s: Seq<char>) -> int
    decreases s.len(),
{
    if s.len() == 0 {
        0
    } else {
        digits_value(s.drop_last()) * 10 + (s.last() as int - '0' as int)
    }
}

/// Whether `s` is the standard base-10 numeral of `n`: non-empty, all
/// digits, no leading zero, and denoting `n`.
pub open spec fn is_numeral_of(s: Seq<char>, n: nat) -> bool {
    &&& s.len() > 0
    &&& forall|i: int| 0 <= i < s.len() ==> is_digit(#[trigger] s[i])
    &&& (s.len() > 1 ==> s[0] != '0')
    &&& digits_value(s) == n
}

/// A digit's character is a digit that reads back as the digit.
proof fn lemma_digit_char(d: int)
    requires
        0 <= d < 10,
    ensures
        is_digit(digit_char(d)),
        digit_char(d) as int - '0' as int == d,
        d != 0 ==> digit_char(d) != '0',
{
}

/// `decimal(n)` is the base-10 numeral of `n`: reading it back gives `n`.
pub proof fn lemma_decimal_is_numeral(n: nat)
    ensures
        is_numeral_of(decimal(n), n),
    decreases n,
{
    lemma_digit_char((n % 10) as int);
    if n < 10 {
        assert(decimal(n) == seq![digit_char(n as int)]);
        assert(decimal(n).drop_last() =~= seq![]);
        assert(digits_value(decimal(n)) == digits_value(seq![]) * 10 + (digit_char(n as int) as int
            - '0' as int));
    } else {
        lemma_decimal_is_numeral(n / 10);
        let d = decimal(n / 10);
        let s = d.push(digit_char((n % 10) as int));
        assert(s.drop_last() =~= d);
        assert(s[0] == d[0]);
        if n / 10 < 10 {
            lemma_digit_char((n / 10) as int);
            assert(d == seq![digit_char((n / 10) as int)]);
        } else {
            assert(d == decimal((n / 10 / 10) as nat).push(digit_char((n / 10 % 10) as int)));
            assert(d.len() > 1);
        }
        assert(d.len() > 1 ==> d[0] != '0');
        assert(d[0] != '0');
        assert((n / 10) * 10 + n % 10 == n);
        assert(digits_value(s) == digits_value(d) * 10 + (s.last() as int - '0' as int));
        assert forall|i: int| 0 <= i < s.len() implies is_digit(#[trigger] s[i]) by {
            if i < d.len() {
                assert(s[i] == d[i]);
            }
        }
    }
}

/// An emitted diagnostic is the line `[Severity] file:line: message`: the
/// engine keeps its file and earlier diagnostics and gains one line, which
/// opens with `[`, the severity's name, `] `, the file path and `:`, ends
/// with `: ` and the message, and holds between them exactly the base-10
/// numeral of the line number.
pub proof fn lemma_emit_renders_line(
    engine: EngineView,
    severity: DiagnosticSeverity,
    msg: Seq<char>,
    line: nat,
)
    ensures
        ({
            let after = spec_emit(engine, severity, msg, line);
            let t = after.diagnostics.last();
            let p: int = severity_name(severity).len() + engine.file_path.len() + 4int;
            let q: int = t.len() - msg.len() - 2;
            &&& after.file_path == engine.file_path
            &&& after.diagnostics.len() == engine.diagnostics.len() + 1
            &&& after.diagnostics.drop_last() == engine.diagnostics
            &&& p <= q
            &&& t.subrange(0, p) == seq!['['] + severity_name(severity) + seq![']', ' ']
                + engine.file_path + seq![':']
            &&& t.subrange(q, t.len() as int) == seq![':', ' '] + msg
            &&& is_numeral_of(t.subrange(p, q), line)
        }),
{
    lemma_decimal_is_numeral(line);
    let after = spec_emit(engine, severity, msg, line);
    let t = after.diagnostics.last();
    let head = seq!['['] + severity_name(severity) + seq![']', ' '] + engine.file_path + seq![':'];
    let tail = seq![':', ' '] + msg;
    let d = decimal(line);
    assert(t =~= head + d + tail);
    assert(after.diagnostics.drop_last() =~= engine.diagnostics);
    let p: int = severity_name(severity).len() + engine.file_path.len() + 4int;
    let q: int = t.len() - msg.len() - 2;
    assert(head.len() == p);
    assert(t.subrange(0, p) =~= head);
    assert(t.subrange(q, t.len() as int) =~= tail);
    assert(t.subrange(p, q) =~= d);
}

/// Append the decimal rendering of `n`.
fn append_decimal(out: &mut String, n: usize)
    ensures
        final(out)@ == old(out)@ + decimal(n as nat),
    decreases n,
{
    if n >= 10 {
        append_decimal(out, n / 10);
    }
    let d = n % 10;
    let text: &str = if d == 0 {
        "0"
    } else if d == 1 {
        "1"
    } else if d == 2 {
        "2"
    } else if d == 3 {
        "3"
    } else if d == 4 {
        "4"
    } else if d == 5 {
        "5"
    } else if d == 6 {
        "6"
    } else if d == 7 {
        "7"
    } else if d == 8 {
        "8"
    } else {
        "9"
    };
    proof {
        reveal_strlit("0");
        reveal_strlit("1");
        reveal_strlit("2");
        reveal_strlit("3");
        reveal_strlit("4");
        reveal_strlit("5");
        reveal_strlit("6");
        reveal_strlit("7");
        reveal_strlit("8");
        reveal_strlit("9");
    }
    assert(text@ == seq![digit_char(d as int)]);
    out.append(text);
}

/// The `Debug` name of a severity.
fn severity_label(severity: &DiagnosticSeverity) -> (r: &'static str)
    ensures
        r@ == severity_name(*severity),
{
    proof {
        reveal_strlit("Note");
        reveal_strlit("Warning");
        reveal_strlit("Error");
    }
    match severity {
        DiagnosticSeverity::Note => "Note",
        DiagnosticSeverity::Warning => "Warning",
        DiagnosticSeverity::Error => "Error",
    }
}

impl FullDiagnosticsEngine {
    /// An engine for `file_path` with no diagnostics yet.
    pub fn new(file_path: &str) -> (r: Self)
        ensures
            r@.file_path == file_path@,
            r@.diagnostics == Seq::<Seq<char>>::empty(),
    {
        let engine = FullDiagnosticsEngine { file_path: file_path.to_owned(), diagnostics: Vec::new() };
        assert(engine@.diagnostics =~= Seq::<Seq<char>>::empty());
        engine
    }

    /// Render a diagnostic as `[Severity] file:line: message` and append it.
    pub fn emit_diagnostic(&mut self, severity: DiagnosticSeverity, msg: &str, line: usize)
        ensures
            final(self)@ == spec_emit(old(self)@, severity, msg@, line as nat),
    {
        proof {
            reveal_strlit("[");
            reveal_strlit("] ");
            reveal_strlit(":");
            reveal_strlit(": ");
        }
        let mut text = String::new();
        text.append("[");
        text.append(severity_label(&severity));
        text.append("] ");
        text.append(self.file_path.as_str());
        text.append(":");
        append_decimal(&mut text, line);
        text.append(": ");
        text.append(msg);
        assert(text@ =~= diagnostic_text(severity, self.file_path@, line as nat, msg@));
        let ghost before = self@;
        self.diagnostics.push(text);
        assert(self@.diagnostics =~= before.diagnostics.push(
            diagnostic_text(severity, before.file_path, line as nat, msg@),
        ));
    }
}

/// Render `msg` at `line` through the first formatting rule into a fresh
/// engine for `test.py`; returns whether a diagnostic was emitted.
pub fn rust_diagnostics_render(msg: &str, line: usize) -> (r: bool)
    ensures
        r == (msg@.len() > 0),
{
    let mut engine = FullDiagnosticsEngine::new("test.py");
    crate::diagnostic_rules::render_diagnostic_rule_1(&mut engine, msg, line)
}

} // verus!
