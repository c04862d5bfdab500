//! Pure parts of the scripting (Steel) API: documentation comments and the names
//! by which scripts configure the editor.
use vstd::prelude::*;

use crate::text::{chars_of, push_str, str_eq, string_from_range};

verus! {

broadcast use vstd::string::group_string_axioms;

/// A line without the `\r` of a `\r\n` line ending.
pub open spec fn strip_cr(line: Seq<char>) -> Seq<char> {
    if line.len() > 0 && line.last() == '\r' {
        line.drop_last()
    } else {
        line
    }
}

/// The lines of `s[start..]` as `str::lines` splits them, where the current line
/// began at `start` and `s[start..i]` holds no line feed: lines end at `\n` or
/// `\r\n`, and a final line ending adds no empty line.
pub open spec fn lines_from(s: Seq<char>, start: int, i: int) -> Seq<Seq<char>>
    decreases s.len() - i,
{
    if i < 0 || i >= s.len() {
        if 0 <= start < s.len() {
            seq![s.subrange(start, s.len() as int)]
        } else {
            Seq::empty()
        }
    } else if s[i] == '\n' {
        seq![strip_cr(s.subrange(start, i))] + lines_from(s, i + 1, i + 1)
    } else {
        lines_from(s, start, i + 1)
    }
}

/// The lines of a text, as `str::lines` gives them.
pub open spec fn lines_of(s: Seq<char>) -> Seq<Seq<char>> {
    lines_from(s, 0, 0)
}

/// Each line as a Scheme comment (`;;` before it) followed by a line feed.
pub open spec fn commented(lines: Seq<Seq<char>>) -> Seq<char>
    decreases lines.len(),
{
    if lines.len() == 0 {
        Seq::empty()
    } else {
        ";;"@ + lines[0] + "\n"@ + commented(lines.drop_first())
    }
}

/// A documentation text as a Scheme comment block: each line commented, without a
/// line feed after the last one.
pub open spec fn docstring(doc: Seq<char>) -> Seq<char> {
    let c = commented(lines_of(doc));
    if c.len() > 0 {
        c.drop_last()
    } else {
        c
    }
}

/// Formats a documentation text as a block of Scheme comments.
pub fn format_docstring(doc: &str) -> (r: String)
    ensures
        r@ == docstring(doc@),
{
    let v = chars_of(doc);
    let n = v.len();
    let ghost s = v@;
    let mut out = String::new();
    let mut start: usize = 0;
    let mut i: usize = 0;
    while i < n
        invariant
            s == v@,
            s == doc@,
            n == s.len(),
            start <= i <= n,
            commented(lines_of(s)) == out@ + commented(lines_from(s, start as int, i as int)),
        decreases n - i,
    {
        if v[i] == '\n' {
            let end = if i > start && v[i - 1] == '\r' { i - 1 } else { i };
            let line = string_from_range(&v, start, end);
            let ghost l = strip_cr(s.subrange(start as int, i as int));
            assert(line@ =~= l);
            let ghost rest = lines_from(s, i + 1, i + 1);
            assert((seq![l] + rest).drop_first() =~= rest);
            let ghost before = out@;
            push_str(&mut out, ";;");
            push_str(&mut out, line.as_str());
            push_str(&mut out, "\n");
            assert(before + (";;"@ + l + "\n"@ + commented(rest)) =~= out@ + commented(rest));
            start = i + 1;
        }
        i += 1;
    }
    if start < n {
        let line = string_from_range(&v, start, n);
        let ghost rest = Seq::<Seq<char>>::empty();
        assert((seq![line@] + rest).drop_first() =~= rest);
        assert(lines_from(s, start as int, i as int) =~= seq![line@]);
        let ghost before = out@;
        push_str(&mut out, ";;");
        push_str(&mut out, line.as_str());
        push_str(&mut out, "\n");
        assert(before + (";;"@ + line@ + "\n"@ + commented(rest)) =~= out@);
    } else {
        assert(out@ + commented(Seq::<Seq<char>>::empty()) =~= out@);
    }
    let w = chars_of(out.as_str());
    if w.len() > 0 {
        let r = string_from_range(&w, 0, w.len() - 1);
        assert(r@ =~= out@.drop_last());
        r
    } else {
        out
    }
}

/// The Scheme source that exposes a static command to scripts: it is provided,
/// documented by its docstring, and defined as the built-in of the same name.
pub open spec fn static_command_source(name: Seq<char>, doc: Seq<char>) -> Seq<char> {
    "\n(provide "@ + name + ")\n;;@doc\n"@ + docstring(doc) + "\n(define "@ + name + " helix.static."@ + name
        + ")\n"@
}

/// The Scheme source that exposes a typed command to scripts: a provided,
/// documented function that passes its arguments to the built-in of the same name.
pub open spec fn typed_command_source(name: Seq<char>, doc: Seq<char>) -> Seq<char> {
    "\n(provide "@ + name + ")\n\n;;@doc\n"@ + docstring(doc) + "\n(define ("@ + name + " . args)\n    (helix."@
        + name + " args))\n"@
}

/// The Scheme source that exposes a UI component function to scripts: it is
/// provided, documented by its docstring, and defined as the built-in of the same
/// name; the text ends in the indentation that followed it where it was written.
pub open spec fn component_source(name: Seq<char>, doc: Seq<char>) -> Seq<char> {
    "\n(provide "@ + name + ")\n;;@doc\n"@ + docstring(doc) + "\n(define "@ + name + " helix.components."@ + name
        + ")\n                    "@
}

/// Appends the Scheme source of a UI component function (see `component_source`).
pub fn push_component_source(module: &mut String, name: &str, doc: &str)
    ensures
        final(module)@ == old(module)@ + component_source(name@, doc@),
{
    let d = format_docstring(doc);
    push_str(module, "\n(provide ");
    push_str(module, name);
    push_str(module, ")\n;;@doc\n");
    push_str(module, d.as_str());
    push_str(module, "\n(define ");
    push_str(module, name);
    push_str(module, " helix.components.");
    push_str(module, name);
    push_str(module, ")\n                    ");
    assert(module@ =~= old(module)@ + component_source(name@, doc@));
}

/// Appends the Scheme source of a static command (see `static_command_source`).
pub fn push_static_command_source(module: &mut String, name: &str, doc: &str)
    ensures
        final(module)@ == old(module)@ + static_command_source(name@, doc@),
{
    let d = format_docstring(doc);
    push_str(module, "\n(provide ");
    push_str(module, name);
    push_str(module, ")\n;;@doc\n");
    push_str(module, d.as_str());
    push_str(module, "\n(define ");
    push_str(module, name);
    push_str(module, " helix.static.");
    push_str(module, name);
    push_str(module, ")\n");
    assert(module@ =~= old(module)@ + static_command_source(name@, doc@));
}

/// Appends the Scheme source of a typed command (see `typed_command_source`).
pub fn push_typed_command_source(module: &mut String, name: &str, doc: &str)
    ensures
        final(module)@ == old(module)@ + typed_command_source(name@, doc@),
{
    let d = format_docstring(doc);
    push_str(module, "\n(provide ");
    push_str(module, name);
    push_str(module, ")\n\n;;@doc\n");
    push_str(module, d.as_str());
    push_str(module, "\n(define (");
    push_str(module, name);
    push_str(module, " . args)\n    (helix.");
    push_str(module, name);
    push_str(module, " args))\n");
    assert(module@ =~= old(module)@ + typed_command_source(name@, doc@));
}

/// An editing mode.
#[derive(Debug, Clone, Copy, PartialEq, Eq)]
pub enum Mode {
    Normal,
    Select,
    Insert,
}

/// The mode a script names.
pub open spec fn mode_named(s: Seq<char>) -> Option<Mode> {
    if s == "normal"@ {
        Some(Mode::Normal)
    } else if s == "select"@ {
        Some(Mode::Select)
    } else if s == "insert"@ {
        Some(Mode::Insert)
    } else {
        None
    }
}

/// The name by which a script writes an editing mode.
pub open spec fn mode_name(e: Mode) -> Seq<char> {
    match e {
        Mode::Normal => "normal"@,
        Mode::Select => "select"@,
        Mode::Insert => "insert"@,
    }
}

/// A script's name reads as an editing mode exactly when it is that one's name: each has
/// one name, and distinct names give distinct values.
pub proof fn law_mode_names(s: Seq<char>, e: Mode)
    ensures
        mode_named(s) == Some(e) <==> s == mode_name(e),
{
    if mode_named(s) == Some(e) {
        assert(s == mode_name(e));
    }
    match e {
        Mode::Normal => {
            reveal_strlit("normal");
            assert(mode_named("normal"@) == Some(Mode::Normal));
        },
        Mode::Select => {
            reveal_strlit("select");
            reveal_strlit("normal");
            assert("select"@[0] != "normal"@[0]);
            assert(mode_named("select"@) == Some(Mode::Select));
        },
        Mode::Insert => {
            reveal_strlit("insert");
            reveal_strlit("normal");
            assert("insert"@[0] != "normal"@[0]);
            reveal_strlit("select");
            assert("insert"@[0] != "select"@[0]);
            assert(mode_named("insert"@) == Some(Mode::Insert));
        },
    }
}


/// Reads a mode's name.
pub fn parse_mode(s: &str) -> (r: Option<Mode>)
    ensures
        r == mode_named(s@),
{
    if str_eq(s, "normal") {
        Some(Mode::Normal)
    } else if str_eq(s, "select") {
        Some(Mode::Select)
    } else if str_eq(s, "insert") {
        Some(Mode::Insert)
    } else {
        None
    }
}

/// The shape of the cursor.
#[derive(Debug, Clone, Copy, PartialEq, Eq)]
pub enum CursorKind {
    Block,
    Bar,
    Underline,
    Hidden,
}

/// The cursor shape a script names.
pub open spec fn cursor_kind_named(s: Seq<char>) -> Option<CursorKind> {
    if s == "block"@ {
        Some(CursorKind::Block)
    } else if s == "bar"@ {
        Some(CursorKind::Bar)
    } else if s == "underline"@ {
        Some(CursorKind::Underline)
    } else if s == "hidden"@ {
        Some(CursorKind::Hidden)
    } else {
        None
    }
}

/// The name by which a script writes a cursor shape.
pub open spec fn cursor_kind_name(e: CursorKind) -> Seq<char> {
    match e {
        CursorKind::Block => "block"@,
        CursorKind::Bar => "bar"@,
        CursorKind::Underline => "underline"@,
        CursorKind::Hidden => "hidden"@,
    }
}

/// A script's name reads as a cursor shape exactly when it is that one's name: each has
/// one name, and distinct names give distinct values.
pub proof fn law_cursor_kind_names(s: Seq<char>, e: CursorKind)
    ensures
        cursor_kind_named(s) == Some(e) <==> s == cursor_kind_name(e),
{
    if cursor_kind_named(s) == Some(e) {
        assert(s == cursor_kind_name(e));
    }
    match e {
        CursorKind::Block => {
            reveal_strlit("block");
            assert(cursor_kind_named("block"@) == Some(CursorKind::Block));
        },
        CursorKind::Bar => {
            reveal_strlit("bar");
            reveal_strlit("block");
            assert("bar"@.len() != "block"@.len());
            assert(cursor_kind_named("bar"@) == Some(CursorKind::Bar));
        },
        CursorKind::Underline => {
            reveal_strlit("underline");
            reveal_strlit("block");
            assert("underline"@.len() != "block"@.len());
            reveal_strlit("bar");
            assert("underline"@.len() != "bar"@.len());
            assert(cursor_kind_named("underline"@) == Some(CursorKind::Underline));
        },
        CursorKind::Hidden => {
            reveal_strlit("hidden");
            reveal_strlit("block");
            assert("hidden"@.len() != "block"@.len());
            reveal_strlit("bar");
            assert("hidden"@.len() != "bar"@.len());
            reveal_strlit("underline");
            assert("hidden"@.len() != "underline"@.len());
            assert(cursor_kind_named("hidden"@) == Some(CursorKind::Hidden));
        },
    }
}


/// Reads a cursor shape's name.
pub fn parse_cursor_kind(s: &str) -> (r: Option<CursorKind>)
    ensures
        r == cursor_kind_named(s@),
{
    if str_eq(s, "block") {
        Some(CursorKind::Block)
    } else if str_eq(s, "bar") {
        Some(CursorKind::Bar)
    } else if str_eq(s, "underline") {
        Some(CursorKind::Underline)
    } else if str_eq(s, "hidden") {
        Some(CursorKind::Hidden)
    } else {
        None
    }
}

/// How line numbers are shown.
#[derive(Debug, Clone, Copy, PartialEq, Eq)]
pub enum LineNumber {
    Absolute,
    Relative,
}

/// The line-number style a script names.
pub open spec fn line_number_named(s: Seq<char>) -> Option<LineNumber> {
    if s == "relative"@ {
        Some(LineNumber::Relative)
    } else if s == "absolute"@ {
        Some(LineNumber::Absolute)
    } else {
        None
    }
}

/// The name by which a script writes a line-number style.
pub open spec fn line_number_name(e: LineNumber) -> Seq<char> {
    match e {
        LineNumber::Relative => "relative"@,
        LineNumber::Absolute => "absolute"@,
    }
}

/// A script's name reads as a line-number style exactly when it is that one's name: each has
/// one name, and distinct names give distinct values.
pub proof fn law_line_number_names(s: Seq<char>, e: LineNumber)
    ensures
        line_number_named(s) == Some(e) <==> s == line_number_name(e),
{
    if line_number_named(s) == Some(e) {
        assert(s == line_number_name(e));
    }
    match e {
        LineNumber::Relative => {
            reveal_strlit("relative");
            assert(line_number_named("relative"@) == Some(LineNumber::Relative));
        },
        LineNumber::Absolute => {
            reveal_strlit("absolute");
            reveal_strlit("relative");
            assert("absolute"@[0] != "relative"@[0]);
            assert(line_number_named("absolute"@) == Some(LineNumber::Absolute));
        },
    }
}


/// Reads a line-number style, or the error for an unknown one.
pub fn parse_line_number(s: &str) -> (r: Result<LineNumber, String>)
    ensures
        match line_number_named(s@) {
            Some(l) => r == Ok::<LineNumber, String>(l),
            None => r matches Err(e) && e@ == "Unrecognized line-number option: "@ + s@,
        },
{
    if str_eq(s, "relative") {
        Ok(LineNumber::Relative)
    } else if str_eq(s, "absolute") {
        Ok(LineNumber::Absolute)
    } else {
        let mut e = String::new();
        push_str(&mut e, "Unrecognized line-number option: ");
        push_str(&mut e, s);
        Err(e)
    }
}

/// When the buffer line is shown.
#[derive(Debug, Clone, Copy, PartialEq, Eq)]
pub enum BufferLine {
    Never,
    Always,
    Multiple,
}

/// The buffer-line setting a script names.
pub open spec fn bufferline_named(s: Seq<char>) -> Option<BufferLine> {
    if s == "never"@ {
        Some(BufferLine::Never)
    } else if s == "always"@ {
        Some(BufferLine::Always)
    } else if s == "multiple"@ {
        Some(BufferLine::Multiple)
    } else {
        None
    }
}

/// The name by which a script writes a buffer-line setting.
pub open spec fn bufferline_name(e: BufferLine) -> Seq<char> {
    match e {
        BufferLine::Never => "never"@,
        BufferLine::Always => "always"@,
        BufferLine::Multiple => "multiple"@,
    }
}

/// A script's name reads as a buffer-line setting exactly when it is that one's name: each has
/// one name, and distinct names give distinct values.
pub proof fn law_bufferline_names(s: Seq<char>, e: BufferLine)
    ensures
        bufferline_named(s) == Some(e) <==> s == bufferline_name(e),
{
    if bufferline_named(s) == Some(e) {
        assert(s == bufferline_name(e));
    }
    match e {
        BufferLine::Never => {
            reveal_strlit("never");
            assert(bufferline_named("never"@) == Some(BufferLine::Never));
        },
        BufferLine::Always => {
            reveal_strlit("always");
            reveal_strlit("never");
            assert("always"@.len() != "never"@.len());
            assert(bufferline_named("always"@) == Some(BufferLine::Always));
        },
        BufferLine::Multiple => {
            reveal_strlit("multiple");
            reveal_strlit("never");
            assert("multiple"@.len() != "never"@.len());
            reveal_strlit("always");
            assert("multiple"@.len() != "always"@.len());
            assert(bufferline_named("multiple"@) == Some(BufferLine::Multiple));
        },
    }
}


/// Reads a buffer-line setting, or the error for an unknown one.
pub fn parse_bufferline(s: &str) -> (r: Result<BufferLine, String>)
    ensures
        match bufferline_named(s@) {
            Some(b) => r == Ok::<BufferLine, String>(b),
            None => r matches Err(e) && e@ == "Unrecognized bufferline option: "@ + s@,
        },
{
    if str_eq(s, "never") {
        Ok(BufferLine::Never)
    } else if str_eq(s, "always") {
        Ok(BufferLine::Always)
    } else if str_eq(s, "multiple") {
        Ok(BufferLine::Multiple)
    } else {
        let mut e = String::new();
        push_str(&mut e, "Unrecognized bufferline option: ");
        push_str(&mut e, s);
        Err(e)
    }
}

/// The severity of a diagnostic.
#[derive(Debug, Clone, Copy, PartialEq, Eq)]
pub enum Severity {
    Hint,
    Info,
    Warning,
    Error,
}

/// The severity a script names.
pub open spec fn severity_named(s: Seq<char>) -> Option<Severity> {
    if s == "hint"@ {
        Some(Severity::Hint)
    } else if s == "info"@ {
        Some(Severity::Info)
    } else if s == "warning"@ {
        Some(Severity::Warning)
    } else if s == "error"@ {
        Some(Severity::Error)
    } else {
        None
    }
}

/// The name by which a script writes a severity.
pub open spec fn severity_name(e: Severity) -> Seq<char> {
    match e {
        Severity::Hint => "hint"@,
        Severity::Info => "info"@,
        Severity::Warning => "warning"@,
        Severity::Error => "error"@,
    }
}

/// A script's name reads as a severity exactly when it is that one's name: each has
/// one name, and distinct names give distinct values.
pub proof fn law_severity_names(s: Seq<char>, e: Severity)
    ensures
        severity_named(s) == Some(e) <==> s == severity_name(e),
{
    if severity_named(s) == Some(e) {
        assert(s == severity_name(e));
    }
    match e {
        Severity::Hint => {
            reveal_strlit("hint");
            assert(severity_named("hint"@) == Some(Severity::Hint));
        },
        Severity::Info => {
            reveal_strlit("info");
            reveal_strlit("hint");
            assert("info"@[0] != "hint"@[0]);
            assert(severity_named("info"@) == Some(Severity::Info));
        },
        Severity::Warning => {
            reveal_strlit("warning");
            reveal_strlit("hint");
            assert("warning"@.len() != "hint"@.len());
            reveal_strlit("info");
            assert("warning"@.len() != "info"@.len());
            assert(severity_named("warning"@) == Some(Severity::Warning));
        },
        Severity::Error => {
            reveal_strlit("error");
            reveal_strlit("hint");
            assert("error"@.len() != "hint"@.len());
            reveal_strlit("info");
            assert("error"@.len() != "info"@.len());
            reveal_strlit("warning");
            assert("error"@.len() != "warning"@.len());
            assert(severity_named("error"@) == Some(Severity::Error));
        },
    }
}


/// Reads a severity's name.
pub fn parse_severity(s: &str) -> (r: Option<Severity>)
    ensures
        r == severity_named(s@),
{
    if str_eq(s, "hint") {
        Some(Severity::Hint)
    } else if str_eq(s, "info") {
        Some(Severity::Info)
    } else if str_eq(s, "warning") {
        Some(Severity::Warning)
    } else if str_eq(s, "error") {
        Some(Severity::Error)
    } else {
        None
    }
}

/// An element of the status line.
#[derive(Debug, Clone, Copy, PartialEq, Eq)]
pub enum StatusLineElement {
    Mode,
    Spinner,
    FileBaseName,
    FileName,
    FileAbsolutePath,
    FileModificationIndicator,
    ReadOnlyIndicator,
    FileEncoding,
    FileLineEnding,
    FileIndentStyle,
    FileType,
    Diagnostics,
    WorkspaceDiagnostics,
    Selections,
    PrimarySelectionLength,
    Position,
    Separator,
    PositionPercentage,
    TotalLineNumbers,
    Spacer,
    VersionControl,
    Register,
    CurrentWorkingDirectory,
}

/// The status-line element a script names.
pub open spec fn status_line_element_named(s: Seq<char>) -> Option<StatusLineElement> {
    if s == "mode"@ {
        Some(StatusLineElement::Mode)
    } else if s == "spinner"@ {
        Some(StatusLineElement::Spinner)
    } else if s == "file-base-name"@ {
        Some(StatusLineElement::FileBaseName)
    } else if s == "file-name"@ {
        Some(StatusLineElement::FileName)
    } else if s == "file-absolute-path"@ {
        Some(StatusLineElement::FileAbsolutePath)
    } else if s == "file-modification-indicator"@ {
        Some(StatusLineElement::FileModificationIndicator)
    } else if s == "read-only-indicator"@ {
        Some(StatusLineElement::ReadOnlyIndicator)
    } else if s == "file-encoding"@ {
        Some(StatusLineElement::FileEncoding)
    } else if s == "file-line-ending"@ {
        Some(StatusLineElement::FileLineEnding)
    } else if s == "file-indent-style"@ {
        Some(StatusLineElement::FileIndentStyle)
    } else if s == "file-type"@ {
        Some(StatusLineElement::FileType)
    } else if s == "diagnostics"@ {
        Some(StatusLineElement::Diagnostics)
    } else if s == "workspace-diagnostics"@ {
        Some(StatusLineElement::WorkspaceDiagnostics)
    } else if s == "selections"@ {
        Some(StatusLineElement::Selections)
    } else if s == "primary-selection-length"@ {
        Some(StatusLineElement::PrimarySelectionLength)
    } else if s == "position"@ {
        Some(StatusLineElement::Position)
    } else if s == "separator"@ {
        Some(StatusLineElement::Separator)
    } else if s == "position-percentage"@ {
        Some(StatusLineElement::PositionPercentage)
    } else if s == "total-line-numbers"@ {
        Some(StatusLineElement::TotalLineNumbers)
    } else if s == "spacer"@ {
        Some(StatusLineElement::Spacer)
    } else if s == "version-control"@ {
        Some(StatusLineElement::VersionControl)
    } else if s == "register"@ {
        Some(StatusLineElement::Register)
    } else if s == "current-working-directory"@ {
        Some(StatusLineElement::CurrentWorkingDirectory)
    } else {
        None
    }
}

/// The name by which a script writes a status-line element.
pub open spec fn element_name(e: StatusLineElement) -> Seq<char> {
    match e {
        StatusLineElement::Mode => "mode"@,
        StatusLineElement::Spinner => "spinner"@,
        StatusLineElement::FileBaseName => "file-base-name"@,
        StatusLineElement::FileName => "file-name"@,
        StatusLineElement::FileAbsolutePath => "file-absolute-path"@,
        StatusLineElement::FileModificationIndicator => "file-modification-indicator"@,
        StatusLineElement::ReadOnlyIndicator => "read-only-indicator"@,
        StatusLineElement::FileEncoding => "file-encoding"@,
        StatusLineElement::FileLineEnding => "file-line-ending"@,
        StatusLineElement::FileIndentStyle => "file-indent-style"@,
        StatusLineElement::FileType => "file-type"@,
        StatusLineElement::Diagnostics => "diagnostics"@,
        StatusLineElement::WorkspaceDiagnostics => "workspace-diagnostics"@,
        StatusLineElement::Selections => "selections"@,
        StatusLineElement::PrimarySelectionLength => "primary-selection-length"@,
        StatusLineElement::Position => "position"@,
        StatusLineElement::Separator => "separator"@,
        StatusLineElement::PositionPercentage => "position-percentage"@,
        StatusLineElement::TotalLineNumbers => "total-line-numbers"@,
        StatusLineElement::Spacer => "spacer"@,
        StatusLineElement::VersionControl => "version-control"@,
        StatusLineElement::Register => "register"@,
        StatusLineElement::CurrentWorkingDirectory => "current-working-directory"@,
    }
}

/// A script's name reads as a status-line element exactly when it is that
/// element's name: every element has one name, and distinct names give distinct
/// elements.
pub proof fn law_status_line_element_names(s: Seq<char>, e: StatusLineElement)
    ensures
        status_line_element_named(s) == Some(e) <==> s == element_name(e),
{
    if status_line_element_named(s) == Some(e) {
        assert(s == element_name(e));
    }
    match e {
        StatusLineElement::Mode => {
            reveal_strlit("mode");
            assert(status_line_element_named("mode"@) == Some(StatusLineElement::Mode));
        },
        StatusLineElement::Spinner => {
            reveal_strlit("spinner");
            reveal_strlit("mode");
            assert("spinner"@.len() != "mode"@.len());
            assert(status_line_element_named("spinner"@) == Some(StatusLineElement::Spinner));
        },
        StatusLineElement::FileBaseName => {
            reveal_strlit("file-base-name");
            reveal_strlit("mode");
            assert("file-base-name"@.len() != "mode"@.len());
            reveal_strlit("spinner");
            assert("file-base-name"@.len() != "spinner"@.len());
            assert(status_line_element_named("file-base-name"@) == Some(StatusLineElement::FileBaseName));
        },
        StatusLineElement::FileName => {
            reveal_strlit("file-name");
            reveal_strlit("mode");
            assert("file-name"@.len() != "mode"@.len());
            reveal_strlit("spinner");
            assert("file-name"@.len() != "spinner"@.len());
            reveal_strlit("file-base-name");
            assert("file-name"@.len() != "file-base-name"@.len());
            assert(status_line_element_named("file-name"@) == Some(StatusLineElement::FileName));
        },
        StatusLineElement::FileAbsolutePath => {
            reveal_strlit("file-absolute-path");
            reveal_strlit("mode");
            assert("file-absolute-path"@.len() != "mode"@.len());
            reveal_strlit("spinner");
            assert("file-absolute-path"@.len() != "spinner"@.len());
            reveal_strlit("file-base-name");
            assert("file-absolute-path"@.len() != "file-base-name"@.len());
            reveal_strlit("file-name");
            assert("file-absolute-path"@.len() != "file-name"@.len());
            assert(status_line_element_named("file-absolute-path"@) == Some(StatusLineElement::FileAbsolutePath));
        },
        StatusLineElement::FileModificationIndicator => {
            reveal_strlit("file-modification-indicator");
            reveal_strlit("mode");
            assert("file-modification-indicator"@.len() != "mode"@.len());
            reveal_strlit("spinner");
            assert("file-modification-indicator"@.len() != "spinner"@.len());
            reveal_strlit("file-base-name");
            assert("file-modification-indicator"@.len() != "file-base-name"@.len());
            reveal_strlit("file-name");
            assert("file-modification-indicator"@.len() != "file-name"@.len());
            reveal_strlit("file-absolute-path");
            assert("file-modification-indicator"@.len() != "file-absolute-path"@.len());
            assert(status_line_element_named("file-modification-indicator"@) == Some(StatusLineElement::FileModificationIndicator));
        },
        StatusLineElement::ReadOnlyIndicator => {
            reveal_strlit("read-only-indicator");
            reveal_strlit("mode");
            assert("read-only-indicator"@.len() != "mode"@.len());
            reveal_strlit("spinner");
            assert("read-only-indicator"@.len() != "spinner"@.len());
            reveal_strlit("file-base-name");
            assert("read-only-indicator"@.len() != "file-base-name"@.len());
            reveal_strlit("file-name");
            assert("read-only-indicator"@.len() != "file-name"@.len());
            reveal_strlit("file-absolute-path");
            assert("read-only-indicator"@.len() != "file-absolute-path"@.len());
            reveal_strlit("file-modification-indicator");
            assert("read-only-indicator"@.len() != "file-modification-indicator"@.len());
            assert(status_line_element_named("read-only-indicator"@) == Some(StatusLineElement::ReadOnlyIndicator));
        },
        StatusLineElement::FileEncoding => {
            reveal_strlit("file-encoding");
            reveal_strlit("mode");
            assert("file-encoding"@.len() != "mode"@.len());
            reveal_strlit("spinner");
            assert("file-encoding"@.len() != "spinner"@.len());
            reveal_strlit("file-base-name");
            assert("file-encoding"@.len() != "file-base-name"@.len());
            reveal_strlit("file-name");
            assert("file-encoding"@.len() != "file-name"@.len());
            reveal_strlit("file-absolute-path");
            assert("file-encoding"@.len() != "file-absolute-path"@.len());
            reveal_strlit("file-modification-indicator");
            assert("file-encoding"@.len() != "file-modification-indicator"@.len());
            reveal_strlit("read-only-indicator");
            assert("file-encoding"@.len() != "read-only-indicator"@.len());
            assert(status_line_element_named("file-encoding"@) == Some(StatusLineElement::FileEncoding));
        },
        StatusLineElement::FileLineEnding => {
            reveal_strlit("file-line-ending");
            reveal_strlit("mode");
            assert("file-line-ending"@.len() != "mode"@.len());
            reveal_strlit("spinner");
            assert("file-line-ending"@.len() != "spinner"@.len());
            reveal_strlit("file-base-name");
            assert("file-line-ending"@.len() != "file-base-name"@.len());
            reveal_strlit("file-name");
            assert("file-line-ending"@.len() != "file-name"@.len());
            reveal_strlit("file-absolute-path");
            assert("file-line-ending"@.len() != "file-absolute-path"@.len());
            reveal_strlit("file-modification-indicator");
            assert("file-line-ending"@.len() != "file-modification-indicator"@.len());
            reveal_strlit("read-only-indicator");
            assert("file-line-ending"@.len() != "read-only-indicator"@.len());
            reveal_strlit("file-encoding");
            assert("file-line-ending"@.len() != "file-encoding"@.len());
            assert(status_line_element_named("file-line-ending"@) == Some(StatusLineElement::FileLineEnding));
        },
        StatusLineElement::FileIndentStyle => {
            reveal_strlit("file-indent-style");
            reveal_strlit("mode");
            assert("file-indent-style"@.len() != "mode"@.len());
            reveal_strlit("spinner");
            assert("file-indent-style"@.len() != "spinner"@.len());
            reveal_strlit("file-base-name");
            assert("file-indent-style"@.len() != "file-base-name"@.len());
            reveal_strlit("file-name");
            assert("file-indent-style"@.len() != "file-name"@.len());
            reveal_strlit("file-absolute-path");
            assert("file-indent-style"@.len() != "file-absolute-path"@.len());
            reveal_strlit("file-modification-indicator");
            assert("file-indent-style"@.len() != "file-modification-indicator"@.len());
            reveal_strlit("read-only-indicator");
            assert("file-indent-style"@.len() != "read-only-indicator"@.len());
            reveal_strlit("file-encoding");
            assert("file-indent-style"@.len() != "file-encoding"@.len());
            reveal_strlit("file-line-ending");
            assert("file-indent-style"@.len() != "file-line-ending"@.len());
            assert(status_line_element_named("file-indent-style"@) == Some(StatusLineElement::FileIndentStyle));
        },
        StatusLineElement::FileType => {
            reveal_strlit("file-type");
            reveal_strlit("mode");
            assert("file-type"@.len() != "mode"@.len());
            reveal_strlit("spinner");
            assert("file-type"@.len() != "spinner"@.len());
            reveal_strlit("file-base-name");
            assert("file-type"@.len() != "file-base-name"@.len());
            reveal_strlit("file-name");
            assert("file-type"@[5] != "file-name"@[5]);
            reveal_strlit("file-absolute-path");
            assert("file-type"@.len() != "file-absolute-path"@.len());
            reveal_strlit("file-modification-indicator");
            assert("file-type"@.len() != "file-modification-indicator"@.len());
            reveal_strlit("read-only-indicator");
            assert("file-type"@.len() != "read-only-indicator"@.len());
            reveal_strlit("file-encoding");
            assert("file-type"@.len() != "file-encoding"@.len());
            reveal_strlit("file-line-ending");
            assert("file-type"@.len() != "file-line-ending"@.len());
            reveal_strlit("file-indent-style");
            assert("file-type"@.len() != "file-indent-style"@.len());
            assert(status_line_element_named("file-type"@) == Some(StatusLineElement::FileType));
        },
        StatusLineElement::Diagnostics => {
            reveal_strlit("diagnostics");
            reveal_strlit("mode");
            assert("diagnostics"@.len() != "mode"@.len());
            reveal_strlit("spinner");
            assert("diagnostics"@.len() != "spinner"@.len());
            reveal_strlit("file-base-name");
            assert("diagnostics"@.len() != "file-base-name"@.len());
            reveal_strlit("file-name");
            assert("diagnostics"@.len() != "file-name"@.len());
            reveal_strlit("file-absolute-path");
            assert("diagnostics"@.len() != "file-absolute-path"@.len());
            reveal_strlit("file-modification-indicator");
            assert("diagnostics"@.len() != "file-modification-indicator"@.len());
            reveal_strlit("read-only-indicator");
            assert("diagnostics"@.len() != "read-only-indicator"@.len());
            reveal_strlit("file-encoding");
            assert("diagnostics"@.len() != "file-encoding"@.len());
            reveal_strlit("file-line-ending");
            assert("diagnostics"@.len() != "file-line-ending"@.len());
            reveal_strlit("file-indent-style");
            assert("diagnostics"@.len() != "file-indent-style"@.len());
            reveal_strlit("file-type");
            assert("diagnostics"@.len() != "file-type"@.len());
            assert(status_line_element_named("diagnostics"@) == Some(StatusLineElement::Diagnostics));
        },
        StatusLineElement::WorkspaceDiagnostics => {
            reveal_strlit("workspace-diagnostics");
            reveal_strlit("mode");
            assert("workspace-diagnostics"@.len() != "mode"@.len());
            reveal_strlit("spinner");
            assert("workspace-diagnostics"@.len() != "spinner"@.len());
            reveal_strlit("file-base-name");
            assert("workspace-diagnostics"@.len() != "file-base-name"@.len());
            reveal_strlit("file-name");
            assert("workspace-diagnostics"@.len() != "file-name"@.len());
            reveal_strlit("file-absolute-path");
            assert("workspace-diagnostics"@.len() != "file-absolute-path"@.len());
            reveal_strlit("file-modification-indicator");
            assert("workspace-diagnostics"@.len() != "file-modification-indicator"@.len());
            reveal_strlit("read-only-indicator");
            assert("workspace-diagnostics"@.len() != "read-only-indicator"@.len());
            reveal_strlit("file-encoding");
            assert("workspace-diagnostics"@.len() != "file-encoding"@.len());
            reveal_strlit("file-line-ending");
            assert("workspace-diagnostics"@.len() != "file-line-ending"@.len());
            reveal_strlit("file-indent-style");
            assert("workspace-diagnostics"@.len() != "file-indent-style"@.len());
            reveal_strlit("file-type");
            assert("workspace-diagnostics"@.len() != "file-type"@.len());
            reveal_strlit("diagnostics");
            assert("workspace-diagnostics"@.len() != "diagnostics"@.len());
            assert(status_line_element_named("workspace-diagnostics"@) == Some(StatusLineElement::WorkspaceDiagnostics));
        },
        StatusLineElement::Selections => {
            reveal_strlit("selections");
            reveal_strlit("mode");
            assert("selections"@.len() != "mode"@.len());
            reveal_strlit("spinner");
            assert("selections"@.len() != "spinner"@.len());
            reveal_strlit("file-base-name");
            assert("selections"@.len() != "file-base-name"@.len());
            reveal_strlit("file-name");
            assert("selections"@.len() != "file-name"@.len());
            reveal_strlit("file-absolute-path");
            assert("selections"@.len() != "file-absolute-path"@.len());
            reveal_strlit("file-modification-indicator");
            assert("selections"@.len() != "file-modification-indicator"@.len());
            reveal_strlit("read-only-indicator");
            assert("selections"@.len() != "read-only-indicator"@.len());
            reveal_strlit("file-encoding");
            assert("selections"@.len() != "file-encoding"@.len());
            reveal_strlit("file-line-ending");
            assert("selections"@.len() != "file-line-ending"@.len());
            reveal_strlit("file-indent-style");
            assert("selections"@.len() != "file-indent-style"@.len());
            reveal_strlit("file-type");
            assert("selections"@.len() != "file-type"@.len());
            reveal_strlit("diagnostics");
            assert("selections"@.len() != "diagnostics"@.len());
            reveal_strlit("workspace-diagnostics");
            assert("selections"@.len() != "workspace-diagnostics"@.len());
            assert(status_line_element_named("selections"@) == Some(StatusLineElement::Selections));
        },
        StatusLineElement::PrimarySelectionLength => {
            reveal_strlit("primary-selection-length");
            reveal_strlit("mode");
            assert("primary-selection-length"@.len() != "mode"@.len());
            reveal_strlit("spinner");
            assert("primary-selection-length"@.len() != "spinner"@.len());
            reveal_strlit("file-base-name");
            assert("primary-selection-length"@.len() != "file-base-name"@.len());
            reveal_strlit("file-name");
            assert("primary-selection-length"@.len() != "file-name"@.len());
            reveal_strlit("file-absolute-path");
            assert("primary-selection-length"@.len() != "file-absolute-path"@.len());
            reveal_strlit("file-modification-indicator");
            assert("primary-selection-length"@.len() != "file-modification-indicator"@.len());
            reveal_strlit("read-only-indicator");
            assert("primary-selection-length"@.len() != "read-only-indicator"@.len());
            reveal_strlit("file-encoding");
            assert("primary-selection-length"@.len() != "file-encoding"@.len());
            reveal_strlit("file-line-ending");
            assert("primary-selection-length"@.len() != "file-line-ending"@.len());
            reveal_strlit("file-indent-style");
            assert("primary-selection-length"@.len() != "file-indent-style"@.len());
            reveal_strlit("file-type");
            assert("primary-selection-length"@.len() != "file-type"@.len());
            reveal_strlit("diagnostics");
            assert("primary-selection-length"@.len() != "diagnostics"@.len());
            reveal_strlit("workspace-diagnostics");
            assert("primary-selection-length"@.len() != "workspace-diagnostics"@.len());
            reveal_strlit("selections");
            assert("primary-selection-length"@.len() != "selections"@.len());
            assert(status_line_element_named("primary-selection-length"@) == Some(StatusLineElement::PrimarySelectionLength));
        },
        StatusLineElement::Position => {
            reveal_strlit("position");
            reveal_strlit("mode");
            assert("position"@.len() != "mode"@.len());
            reveal_strlit("spinner");
            assert("position"@.len() != "spinner"@.len());
            reveal_strlit("file-base-name");
            assert("position"@.len() != "file-base-name"@.len());
            reveal_strlit("file-name");
            assert("position"@.len() != "file-name"@.len());
            reveal_strlit("file-absolute-path");
            assert("position"@.len() != "file-absolute-path"@.len());
            reveal_strlit("file-modification-indicator");
            assert("position"@.len() != "file-modification-indicator"@.len());
            reveal_strlit("read-only-indicator");
            assert("position"@.len() != "read-only-indicator"@.len());
            reveal_strlit("file-encoding");
            assert("position"@.len() != "file-encoding"@.len());
            reveal_strlit("file-line-ending");
            assert("position"@.len() != "file-line-ending"@.len());
            reveal_strlit("file-indent-style");
            assert("position"@.len() != "file-indent-style"@.len());
            reveal_strlit("file-type");
            assert("position"@.len() != "file-type"@.len());
            reveal_strlit("diagnostics");
            assert("position"@.len() != "diagnostics"@.len());
            reveal_strlit("workspace-diagnostics");
            assert("position"@.len() != "workspace-diagnostics"@.len());
            reveal_strlit("selections");
            assert("position"@.len() != "selections"@.len());
            reveal_strlit("primary-selection-length");
            assert("position"@.len() != "primary-selection-length"@.len());
            assert(status_line_element_named("position"@) == Some(StatusLineElement::Position));
        },
        StatusLineElement::Separator => {
            reveal_strlit("separator");
            reveal_strlit("mode");
            assert("separator"@.len() != "mode"@.len());
            reveal_strlit("spinner");
            assert("separator"@.len() != "spinner"@.len());
            reveal_strlit("file-base-name");
            assert("separator"@.len() != "file-base-name"@.len());
            reveal_strlit("file-name");
            assert("separator"@[0] != "file-name"@[0]);
            reveal_strlit("file-absolute-path");
            assert("separator"@.len() != "file-absolute-path"@.len());
            reveal_strlit("file-modification-indicator");
            assert("separator"@.len() != "file-modification-indicator"@.len());
            reveal_strlit("read-only-indicator");
            assert("separator"@.len() != "read-only-indicator"@.len());
            reveal_strlit("file-encoding");
            assert("separator"@.len() != "file-encoding"@.len());
            reveal_strlit("file-line-ending");
            assert("separator"@.len() != "file-line-ending"@.len());
            reveal_strlit("file-indent-style");
            assert("separator"@.len() != "file-indent-style"@.len());
            reveal_strlit("file-type");
            assert("separator"@[0] != "file-type"@[0]);
            reveal_strlit("diagnostics");
            assert("separator"@.len() != "diagnostics"@.len());
            reveal_strlit("workspace-diagnostics");
            assert("separator"@.len() != "workspace-diagnostics"@.len());
            reveal_strlit("selections");
            assert("separator"@.len() != "selections"@.len());
            reveal_strlit("primary-selection-length");
            assert("separator"@.len() != "primary-selection-length"@.len());
            reveal_strlit("position");
            assert("separator"@.len() != "position"@.len());
            assert(status_line_element_named("separator"@) == Some(StatusLineElement::Separator));
        },
        StatusLineElement::PositionPercentage => {
            reveal_strlit("position-percentage");
            reveal_strlit("mode");
            assert("position-percentage"@.len() != "mode"@.len());
            reveal_strlit("spinner");
            assert("position-percentage"@.len() != "spinner"@.len());
            reveal_strlit("file-base-name");
            assert("position-percentage"@.len() != "file-base-name"@.len());
            reveal_strlit("file-name");
            assert("position-percentage"@.len() != "file-name"@.len());
            reveal_strlit("file-absolute-path");
            assert("position-percentage"@.len() != "file-absolute-path"@.len());
            reveal_strlit("file-modification-indicator");
            assert("position-percentage"@.len() != "file-modification-indicator"@.len());
            reveal_strlit("read-only-indicator");
            assert("position-percentage"@[0] != "read-only-indicator"@[0]);
            reveal_strlit("file-encoding");
            assert("position-percentage"@.len() != "file-encoding"@.len());
            reveal_strlit("file-line-ending");
            assert("position-percentage"@.len() != "file-line-ending"@.len());
            reveal_strlit("file-indent-style");
            assert("position-percentage"@.len() != "file-indent-style"@.len());
            reveal_strlit("file-type");
            assert("position-percentage"@.len() != "file-type"@.len());
            reveal_strlit("diagnostics");
            assert("position-percentage"@.len() != "diagnostics"@.len());
            reveal_strlit("workspace-diagnostics");
            assert("position-percentage"@.len() != "workspace-diagnostics"@.len());
            reveal_strlit("selections");
            assert("position-percentage"@.len() != "selections"@.len());
            reveal_strlit("primary-selection-length");
            assert("position-percentage"@.len() != "primary-selection-length"@.len());
            reveal_strlit("position");
            assert("position-percentage"@.len() != "position"@.len());
            reveal_strlit("separator");
            assert("position-percentage"@.len() != "separator"@.len());
            assert(status_line_element_named("position-percentage"@) == Some(StatusLineElement::PositionPercentage));
        },
        StatusLineElement::TotalLineNumbers => {
            reveal_strlit("total-line-numbers");
            reveal_strlit("mode");
            assert("total-line-numbers"@.len() != "mode"@.len());
            reveal_strlit("spinner");
            assert("total-line-numbers"@.len() != "spinner"@.len());
            reveal_strlit("file-base-name");
            assert("total-line-numbers"@.len() != "file-base-name"@.len());
            reveal_strlit("file-name");
            assert("total-line-numbers"@.len() != "file-name"@.len());
            reveal_strlit("file-absolute-path");
            assert("total-line-numbers"@[0] != "file-absolute-path"@[0]);
            reveal_strlit("file-modification-indicator");
            assert("total-line-numbers"@.len() != "file-modification-indicator"@.len());
            reveal_strlit("read-only-indicator");
            assert("total-line-numbers"@.len() != "read-only-indicator"@.len());
            reveal_strlit("file-encoding");
            assert("total-line-numbers"@.len() != "file-encoding"@.len());
            reveal_strlit("file-line-ending");
            assert("total-line-numbers"@.len() != "file-line-ending"@.len());
            reveal_strlit("file-indent-style");
            assert("total-line-numbers"@.len() != "file-indent-style"@.len());
            reveal_strlit("file-type");
            assert("total-line-numbers"@.len() != "file-type"@.len());
            reveal_strlit("diagnostics");
            assert("total-line-numbers"@.len() != "diagnostics"@.len());
            reveal_strlit("workspace-diagnostics");
            assert("total-line-numbers"@.len() != "workspace-diagnostics"@.len());
            reveal_strlit("selections");
            assert("total-line-numbers"@.len() != "selections"@.len());
            reveal_strlit("primary-selection-length");
            assert("total-line-numbers"@.len() != "primary-selection-length"@.len());
            reveal_strlit("position");
            assert("total-line-numbers"@.len() != "position"@.len());
            reveal_strlit("separator");
            assert("total-line-numbers"@.len() != "separator"@.len());
            reveal_strlit("position-percentage");
            assert("total-line-numbers"@.len() != "position-percentage"@.len());
            assert(status_line_element_named("total-line-numbers"@) == Some(StatusLineElement::TotalLineNumbers));
        },
        StatusLineElement::Spacer => {
            reveal_strlit("spacer");
            reveal_strlit("mode");
            assert("spacer"@.len() != "mode"@.len());
            reveal_strlit("spinner");
            assert("spacer"@.len() != "spinner"@.len());
            reveal_strlit("file-base-name");
            assert("spacer"@.len() != "file-base-name"@.len());
            reveal_strlit("file-name");
            assert("spacer"@.len() != "file-name"@.len());
            reveal_strlit("file-absolute-path");
            assert("spacer"@.len() != "file-absolute-path"@.len());
            reveal_strlit("file-modification-indicator");
            assert("spacer"@.len() != "file-modification-indicator"@.len());
            reveal_strlit("read-only-indicator");
            assert("spacer"@.len() != "read-only-indicator"@.len());
            reveal_strlit("file-encoding");
            assert("spacer"@.len() != "file-encoding"@.len());
            reveal_strlit("file-line-ending");
            assert("spacer"@.len() != "file-line-ending"@.len());
            reveal_strlit("file-indent-style");
            assert("spacer"@.len() != "file-indent-style"@.len());
            reveal_strlit("file-type");
            assert("spacer"@.len() != "file-type"@.len());
            reveal_strlit("diagnostics");
            assert("spacer"@.len() != "diagnostics"@.len());
            reveal_strlit("workspace-diagnostics");
            assert("spacer"@.len() != "workspace-diagnostics"@.len());
            reveal_strlit("selections");
            assert("spacer"@.len() != "selections"@.len());
            reveal_strlit("primary-selection-length");
            assert("spacer"@.len() != "primary-selection-length"@.len());
            reveal_strlit("position");
            assert("spacer"@.len() != "position"@.len());
            reveal_strlit("separator");
            assert("spacer"@.len() != "separator"@.len());
            reveal_strlit("position-percentage");
            assert("spacer"@.len() != "position-percentage"@.len());
            reveal_strlit("total-line-numbers");
            assert("spacer"@.len() != "total-line-numbers"@.len());
            assert(status_line_element_named("spacer"@) == Some(StatusLineElement::Spacer));
        },
        StatusLineElement::VersionControl => {
            reveal_strlit("version-control");
            reveal_strlit("mode");
            assert("version-control"@.len() != "mode"@.len());
            reveal_strlit("spinner");
            assert("version-control"@.len() != "spinner"@.len());
            reveal_strlit("file-base-name");
            assert("version-control"@.len() != "file-base-name"@.len());
            reveal_strlit("file-name");
            assert("version-control"@.len() != "file-name"@.len());
            reveal_strlit("file-absolute-path");
            assert("version-control"@.len() != "file-absolute-path"@.len());
            reveal_strlit("file-modification-indicator");
            assert("version-control"@.len() != "file-modification-indicator"@.len());
            reveal_strlit("read-only-indicator");
            assert("version-control"@.len() != "read-only-indicator"@.len());
            reveal_strlit("file-encoding");
            assert("version-control"@.len() != "file-encoding"@.len());
            reveal_strlit("file-line-ending");
            assert("version-control"@.len() != "file-line-ending"@.len());
            reveal_strlit("file-indent-style");
            assert("version-control"@.len() != "file-indent-style"@.len());
            reveal_strlit("file-type");
            assert("version-control"@.len() != "file-type"@.len());
            reveal_strlit("diagnostics");
            assert("version-control"@.len() != "diagnostics"@.len());
            reveal_strlit("workspace-diagnostics");
            assert("version-control"@.len() != "workspace-diagnostics"@.len());
            reveal_strlit("selections");
            assert("version-control"@.len() != "selections"@.len());
            reveal_strlit("primary-selection-length");
            assert("version-control"@.len() != "primary-selection-length"@.len());
            reveal_strlit("position");
            assert("version-control"@.len() != "position"@.len());
            reveal_strlit("separator");
            assert("version-control"@.len() != "separator"@.len());
            reveal_strlit("position-percentage");
            assert("version-control"@.len() != "position-percentage"@.len());
            reveal_strlit("total-line-numbers");
            assert("version-control"@.len() != "total-line-numbers"@.len());
            reveal_strlit("spacer");
            assert("version-control"@.len() != "spacer"@.len());
            assert(status_line_element_named("version-control"@) == Some(StatusLineElement::VersionControl));
        },
        StatusLineElement::Register => {
            reveal_strlit("register");
            reveal_strlit("mode");
            assert("register"@.len() != "mode"@.len());
            reveal_strlit("spinner");
            assert("register"@.len() != "spinner"@.len());
            reveal_strlit("file-base-name");
            assert("register"@.len() != "file-base-name"@.len());
            reveal_strlit("file-name");
            assert("register"@.len() != "file-name"@.len());
            reveal_strlit("file-absolute-path");
            assert("register"@.len() != "file-absolute-path"@.len());
            reveal_strlit("file-modification-indicator");
            assert("register"@.len() != "file-modification-indicator"@.len());
            reveal_strlit("read-only-indicator");
            assert("register"@.len() != "read-only-indicator"@.len());
            reveal_strlit("file-encoding");
            assert("register"@.len() != "file-encoding"@.len());
            reveal_strlit("file-line-ending");
            assert("register"@.len() != "file-line-ending"@.len());
            reveal_strlit("file-indent-style");
            assert("register"@.len() != "file-indent-style"@.len());
            reveal_strlit("file-type");
            assert("register"@.len() != "file-type"@.len());
            reveal_strlit("diagnostics");
            assert("register"@.len() != "diagnostics"@.len());
            reveal_strlit("workspace-diagnostics");
            assert("register"@.len() != "workspace-diagnostics"@.len());
            reveal_strlit("selections");
            assert("register"@.len() != "selections"@.len());
            reveal_strlit("primary-selection-length");
            assert("register"@.len() != "primary-selection-length"@.len());
            reveal_strlit("position");
            assert("register"@[0] != "position"@[0]);
            reveal_strlit("separator");
            assert("register"@.len() != "separator"@.len());
            reveal_strlit("position-percentage");
            assert("register"@.len() != "position-percentage"@.len());
            reveal_strlit("total-line-numbers");
            assert("register"@.len() != "total-line-numbers"@.len());
            reveal_strlit("spacer");
            assert("register"@.len() != "spacer"@.len());
            reveal_strlit("version-control");
            assert("register"@.len() != "version-control"@.len());
            assert(status_line_element_named("register"@) == Some(StatusLineElement::Register));
        },
        StatusLineElement::CurrentWorkingDirectory => {
            reveal_strlit("current-working-directory");
            reveal_strlit("mode");
            assert("current-working-directory"@.len() != "mode"@.len());
            reveal_strlit("spinner");
            assert("current-working-directory"@.len() != "spinner"@.len());
            reveal_strlit("file-base-name");
            assert("current-working-directory"@.len() != "file-base-name"@.len());
            reveal_strlit("file-name");
            assert("current-working-directory"@.len() != "file-name"@.len());
            reveal_strlit("file-absolute-path");
            assert("current-working-directory"@.len() != "file-absolute-path"@.len());
            reveal_strlit("file-modification-indicator");
            assert("current-working-directory"@.len() != "file-modification-indicator"@.len());
            reveal_strlit("read-only-indicator");
            assert("current-working-directory"@.len() != "read-only-indicator"@.len());
            reveal_strlit("file-encoding");
            assert("current-working-directory"@.len() != "file-encoding"@.len());
            reveal_strlit("file-line-ending");
            assert("current-working-directory"@.len() != "file-line-ending"@.len());
            reveal_strlit("file-indent-style");
            assert("current-working-directory"@.len() != "file-indent-style"@.len());
            reveal_strlit("file-type");
            assert("current-working-directory"@.len() != "file-type"@.len());
            reveal_strlit("diagnostics");
            assert("current-working-directory"@.len() != "diagnostics"@.len());
            reveal_strlit("workspace-diagnostics");
            assert("current-working-directory"@.len() != "workspace-diagnostics"@.len());
            reveal_strlit("selections");
            assert("current-working-directory"@.len() != "selections"@.len());
            reveal_strlit("primary-selection-length");
            assert("current-working-directory"@.len() != "primary-selection-length"@.len());
            reveal_strlit("position");
            assert("current-working-directory"@.len() != "position"@.len());
            reveal_strlit("separator");
            assert("current-working-directory"@.len() != "separator"@.len());
            reveal_strlit("position-percentage");
            assert("current-working-directory"@.len() != "position-percentage"@.len());
            reveal_strlit("total-line-numbers");
            assert("current-working-directory"@.len() != "total-line-numbers"@.len());
            reveal_strlit("spacer");
            assert("current-working-directory"@.len() != "spacer"@.len());
            reveal_strlit("version-control");
            assert("current-working-directory"@.len() != "version-control"@.len());
            reveal_strlit("register");
            assert("current-working-directory"@.len() != "register"@.len());
            assert(status_line_element_named("current-working-directory"@) == Some(StatusLineElement::CurrentWorkingDirectory));
        },
    }
}

/// Reads a status-line element's name, or the error for an unknown one.
pub fn parse_status_line_element(s: &str) -> (r: Result<StatusLineElement, String>)
    ensures
        match status_line_element_named(s@) {
            Some(e) => r == Ok::<StatusLineElement, String>(e),
            None => r matches Err(e) && e@ == "Unknown status line element: "@ + s@,
        },
{
    if str_eq(s, "mode") {
        Ok(StatusLineElement::Mode)
    } else if str_eq(s, "spinner") {
        Ok(StatusLineElement::Spinner)
    } else if str_eq(s, "file-base-name") {
        Ok(StatusLineElement::FileBaseName)
    } else if str_eq(s, "file-name") {
        Ok(StatusLineElement::FileName)
    } else if str_eq(s, "file-absolute-path") {
        Ok(StatusLineElement::FileAbsolutePath)
    } else if str_eq(s, "file-modification-indicator") {
        Ok(StatusLineElement::FileModificationIndicator)
    } else if str_eq(s, "read-only-indicator") {
        Ok(StatusLineElement::ReadOnlyIndicator)
    } else if str_eq(s, "file-encoding") {
        Ok(StatusLineElement::FileEncoding)
    } else if str_eq(s, "file-line-ending") {
        Ok(StatusLineElement::FileLineEnding)
    } else if str_eq(s, "file-indent-style") {
        Ok(StatusLineElement::FileIndentStyle)
    } else if str_eq(s, "file-type") {
        Ok(StatusLineElement::FileType)
    } else if str_eq(s, "diagnostics") {
        Ok(StatusLineElement::Diagnostics)
    } else if str_eq(s, "workspace-diagnostics") {
        Ok(StatusLineElement::WorkspaceDiagnostics)
    } else if str_eq(s, "selections") {
        Ok(StatusLineElement::Selections)
    } else if str_eq(s, "primary-selection-length") {
        Ok(StatusLineElement::PrimarySelectionLength)
    } else if str_eq(s, "position") {
        Ok(StatusLineElement::Position)
    } else if str_eq(s, "separator") {
        Ok(StatusLineElement::Separator)
    } else if str_eq(s, "position-percentage") {
        Ok(StatusLineElement::PositionPercentage)
    } else if str_eq(s, "total-line-numbers") {
        Ok(StatusLineElement::TotalLineNumbers)
    } else if str_eq(s, "spacer") {
        Ok(StatusLineElement::Spacer)
    } else if str_eq(s, "version-control") {
        Ok(StatusLineElement::VersionControl)
    } else if str_eq(s, "register") {
        Ok(StatusLineElement::Register)
    } else if str_eq(s, "current-working-directory") {
        Ok(StatusLineElement::CurrentWorkingDirectory)
    } else {
        let mut e = String::new();
        push_str(&mut e, "Unknown status line element: ");
        push_str(&mut e, s);
        Err(e)
    }
}

} // verus!

verus! {

/// A path with `p` appended, as `Path::join` does it on Unix: an absolute `p`
/// replaces the path; otherwise a `/` separates the two unless the path is empty
/// or already ends with one.
pub open spec fn path_join(base: Seq<char>, p: Seq<char>) -> Seq<char> {
    if p.len() > 0 && p[0] == '/' {
        p
    } else if base.len() == 0 || base.last() == '/' {
        base + p
    } else {
        base + "/"@ + p
    }
}

/// Appends a path component the way `Path::join` does on Unix.
pub fn join_path(base: &str, p: &str) -> (r: String)
    ensures
        r@ == path_join(base@, p@),
{
    let pv = chars_of(p);
    if pv.len() > 0 && pv[0] == '/' {
        return p.to_owned();
    }
    let bv = chars_of(base);
    let mut s = base.to_owned();
    if !(bv.len() == 0 || bv[bv.len() - 1] == '/') {
        push_str(&mut s, "/");
    }
    push_str(&mut s, p);
    s
}

/// Where the scripting configuration files are looked for.
pub open spec fn preferred_config_path(
    file_name: Seq<char>,
    env_dir: Option<Seq<char>>,
    local_config_exists: bool,
    workspace: Seq<char>,
    config_dir: Seq<char>,
) -> Seq<char> {
    match env_dir {
        Some(d) => path_join(d, file_name),
        None => if local_config_exists {
            path_join(path_join(workspace, ".helix"@), file_name)
        } else {
            path_join(config_dir, file_name)
        },
    }
}

/// The path of a scripting configuration file: in the directory that the
/// `HELIX_STEEL_CONFIG` variable names, if it is set (`env_dir`); else in the
/// workspace's `.helix` directory, if it holds both `helix.scm` and `init.scm`;
/// else in the editor's configuration directory.
pub fn config_file_path(
    file_name: &str,
    env_dir: Option<&str>,
    local_config_exists: bool,
    workspace: &str,
    config_dir: &str,
) -> (r: String)
    ensures
        r@ == preferred_config_path(
            file_name@,
            match env_dir {
                Some(d) => Some(d@),
                None => None,
            },
            local_config_exists,
            workspace@,
            config_dir@,
        ),
{
    match env_dir {
        Some(d) => join_path(d, file_name),
        None => if local_config_exists {
            let local = join_path(workspace, ".helix");
            join_path(local.as_str(), file_name)
        } else {
            join_path(config_dir, file_name)
        },
    }
}

/// The path of the scripting module file, `helix.scm`.
pub fn helix_module_file(env_dir: Option<&str>, local_config_exists: bool, workspace: &str, config_dir: &str) -> (r: String)
    ensures
        r@ == preferred_config_path(
            "helix.scm"@,
            match env_dir {
                Some(d) => Some(d@),
                None => None,
            },
            local_config_exists,
            workspace@,
            config_dir@,
        ),
{
    config_file_path("helix.scm", env_dir, local_config_exists, workspace, config_dir)
}

/// The path of the scripting initialization file, `init.scm`.
pub fn steel_init_file(env_dir: Option<&str>, local_config_exists: bool, workspace: &str, config_dir: &str) -> (r: String)
    ensures
        r@ == preferred_config_path(
            "init.scm"@,
            match env_dir {
                Some(d) => Some(d@),
                None => None,
            },
            local_config_exists,
            workspace@,
            config_dir@,
        ),
{
    config_file_path("init.scm", env_dir, local_config_exists, workspace, config_dir)
}

/// Where the editor's scripting packages are installed, given the scripting
/// engine's home directory: its `cogs/helix` directory.
pub fn alternative_runtime_search_path(steel_home: Option<&str>) -> (r: Option<String>)
    ensures
        match steel_home {
            Some(h) => r matches Some(p) && p@ == path_join(path_join(h@, "cogs"@), "helix"@),
            None => r is None,
        },
{
    match steel_home {
        Some(h) => {
            let cogs = join_path(h, "cogs");
            Some(join_path(cogs.as_str(), "helix"))
        },
        None => None,
    }
}

} // verus!

verus! {

/// Whether reading a line of a terminal session waits at most a short while for
/// more output (some output has been read already) or until output arrives (none
/// has).
pub fn read_line_waits_briefly(buffered: &str) -> (r: bool)
    ensures
        r == (buffered@.len() > 0),
{
    !buffered.is_empty()
}

/// The line a terminal session's reader returns, from the output read so far and
/// what waiting brought: more output (`Some`), or nothing because the session
/// closed or the short wait ran out (`None`). With nothing at all, `None`: the
/// session is over.
pub fn read_line_result(buffered: String, next: Option<String>) -> (r: Option<String>)
    ensures
        match next {
            Some(v) => r matches Some(line) && line@ == buffered@ + v@,
            None => if buffered@.len() == 0 {
                r is None
            } else {
                r matches Some(line) && line@ == buffered@
            },
        },
{
    match next {
        Some(v) => {
            let mut buf = buffered;
            push_str(&mut buf, v.as_str());
            Some(buf)
        },
        None => if buffered.as_str().is_empty() {
            None
        } else {
            Some(buffered)
        },
    }
}

/// The number of bytes a terminal session's writer reports as written: all of
/// them when the output was sent, none when the session is closed.
pub fn written_len(sent: bool, len: usize) -> (r: usize)
    ensures
        r == if sent { len } else { 0 },
{
    if sent { len } else { 0 }
}

} // verus!

verus! {

/// The generation of the scripting engine. Reloading the engine starts a new
/// generation; components and callbacks remember the generation they were made
/// in and act only while it is current.
#[derive(Debug, Clone, Copy, PartialEq, Eq)]
pub struct Generation {
    value: usize,
}

impl Generation {
    /// The generation's number.
    pub closed spec fn number(&self) -> usize {
        self.value
    }

    /// The first generation.
    pub fn new() -> (g: Generation)
        ensures
            g.number() == 0,
    {
        Generation { value: 0 }
    }

    /// The current generation's number, for something made now to remember.
    pub fn load_generation(&self) -> (r: usize)
        ensures
            r == self.number(),
    {
        self.value
    }

    /// Whether the generation a thing was made in is the current one.
    pub fn is_current_generation(&self, generation: usize) -> (r: bool)
        ensures
            r == (generation == self.number()),
    {
        self.value == generation
    }

    /// Starts a new generation (the number wraps around after the largest one).
    pub fn increment_generation(&mut self)
        ensures
            final(self).number() == next_generation(old(self).number()),
    {
        self.value = if self.value == usize::MAX { 0 } else { self.value + 1 };
    }
}

/// The number of the generation after the one numbered `n`.
pub open spec fn next_generation(n: usize) -> usize {
    if n == usize::MAX {
        0
    } else {
        (n + 1) as usize
    }
}

/// Starting a new generation retires the current one: what was made in it no
/// longer counts as current.
pub proof fn law_new_generation_retires_old(before: Generation, after: Generation)
    requires
        after.number() == next_generation(before.number()),
    ensures
        after.number() != before.number(),
{
}

} // verus!

verus! {

/// An editor event that a script can hook.
#[derive(Debug, Clone, Copy, PartialEq, Eq)]
pub enum HookEvent {
    OnModeSwitch,
    PostInsertChar,
    PostCommand,
    DocumentFocusLost,
    SelectionDidChange,
    DocumentOpened,
    DocumentSaved,
}

/// The event a script names when it registers a hook.
pub open spec fn hook_event_named(s: Seq<char>) -> Option<HookEvent> {
    if s == "on-mode-switch"@ {
        Some(HookEvent::OnModeSwitch)
    } else if s == "post-insert-char"@ {
        Some(HookEvent::PostInsertChar)
    } else if s == "post-command"@ {
        Some(HookEvent::PostCommand)
    } else if s == "document-focus-lost"@ {
        Some(HookEvent::DocumentFocusLost)
    } else if s == "selection-did-change"@ {
        Some(HookEvent::SelectionDidChange)
    } else if s == "document-opened"@ {
        Some(HookEvent::DocumentOpened)
    } else if s == "document-saved"@ {
        Some(HookEvent::DocumentSaved)
    } else {
        None
    }
}

/// The name by which a script writes a hook event.
pub open spec fn hook_event_name(e: HookEvent) -> Seq<char> {
    match e {
        HookEvent::OnModeSwitch => "on-mode-switch"@,
        HookEvent::PostInsertChar => "post-insert-char"@,
        HookEvent::PostCommand => "post-command"@,
        HookEvent::DocumentFocusLost => "document-focus-lost"@,
        HookEvent::SelectionDidChange => "selection-did-change"@,
        HookEvent::DocumentOpened => "document-opened"@,
        HookEvent::DocumentSaved => "document-saved"@,
    }
}

/// A script's name reads as a hook event exactly when it is that one's name: each has
/// one name, and distinct names give distinct values.
pub proof fn law_hook_event_names(s: Seq<char>, e: HookEvent)
    ensures
        hook_event_named(s) == Some(e) <==> s == hook_event_name(e),
{
    if hook_event_named(s) == Some(e) {
        assert(s == hook_event_name(e));
    }
    match e {
        HookEvent::OnModeSwitch => {
            reveal_strlit("on-mode-switch");
            assert(hook_event_named("on-mode-switch"@) == Some(HookEvent::OnModeSwitch));
        },
        HookEvent::PostInsertChar => {
            reveal_strlit("post-insert-char");
            reveal_strlit("on-mode-switch");
            assert("post-insert-char"@.len() != "on-mode-switch"@.len());
            assert(hook_event_named("post-insert-char"@) == Some(HookEvent::PostInsertChar));
        },
        HookEvent::PostCommand => {
            reveal_strlit("post-command");
            reveal_strlit("on-mode-switch");
            assert("post-command"@.len() != "on-mode-switch"@.len());
            reveal_strlit("post-insert-char");
            assert("post-command"@.len() != "post-insert-char"@.len());
            assert(hook_event_named("post-command"@) == Some(HookEvent::PostCommand));
        },
        HookEvent::DocumentFocusLost => {
            reveal_strlit("document-focus-lost");
            reveal_strlit("on-mode-switch");
            assert("document-focus-lost"@.len() != "on-mode-switch"@.len());
            reveal_strlit("post-insert-char");
            assert("document-focus-lost"@.len() != "post-insert-char"@.len());
            reveal_strlit("post-command");
            assert("document-focus-lost"@.len() != "post-command"@.len());
            assert(hook_event_named("document-focus-lost"@) == Some(HookEvent::DocumentFocusLost));
        },
        HookEvent::SelectionDidChange => {
            reveal_strlit("selection-did-change");
            reveal_strlit("on-mode-switch");
            assert("selection-did-change"@.len() != "on-mode-switch"@.len());
            reveal_strlit("post-insert-char");
            assert("selection-did-change"@.len() != "post-insert-char"@.len());
            reveal_strlit("post-command");
            assert("selection-did-change"@.len() != "post-command"@.len());
            reveal_strlit("document-focus-lost");
            assert("selection-did-change"@.len() != "document-focus-lost"@.len());
            assert(hook_event_named("selection-did-change"@) == Some(HookEvent::SelectionDidChange));
        },
        HookEvent::DocumentOpened => {
            reveal_strlit("document-opened");
            reveal_strlit("on-mode-switch");
            assert("document-opened"@.len() != "on-mode-switch"@.len());
            reveal_strlit("post-insert-char");
            assert("document-opened"@.len() != "post-insert-char"@.len());
            reveal_strlit("post-command");
            assert("document-opened"@.len() != "post-command"@.len());
            reveal_strlit("document-focus-lost");
            assert("document-opened"@.len() != "document-focus-lost"@.len());
            reveal_strlit("selection-did-change");
            assert("document-opened"@.len() != "selection-did-change"@.len());
            assert(hook_event_named("document-opened"@) == Some(HookEvent::DocumentOpened));
        },
        HookEvent::DocumentSaved => {
            reveal_strlit("document-saved");
            reveal_strlit("on-mode-switch");
            assert("document-saved"@[0] != "on-mode-switch"@[0]);
            reveal_strlit("post-insert-char");
            assert("document-saved"@.len() != "post-insert-char"@.len());
            reveal_strlit("post-command");
            assert("document-saved"@.len() != "post-command"@.len());
            reveal_strlit("document-focus-lost");
            assert("document-saved"@.len() != "document-focus-lost"@.len());
            reveal_strlit("selection-did-change");
            assert("document-saved"@.len() != "selection-did-change"@.len());
            reveal_strlit("document-opened");
            assert("document-saved"@.len() != "document-opened"@.len());
            assert(hook_event_named("document-saved"@) == Some(HookEvent::DocumentSaved));
        },
    }
}


/// The event a hook is registered for, or the error for an unknown event name.
pub fn register_hook(event_kind: &str) -> (r: Result<HookEvent, String>)
    ensures
        match hook_event_named(event_kind@) {
            Some(e) => r == Ok::<HookEvent, String>(e),
            None => r matches Err(m) && m@ == "Unable to register hook: Unknown event type: "@ + event_kind@,
        },
{
    if str_eq(event_kind, "on-mode-switch") {
        Ok(HookEvent::OnModeSwitch)
    } else if str_eq(event_kind, "post-insert-char") {
        Ok(HookEvent::PostInsertChar)
    } else if str_eq(event_kind, "post-command") {
        Ok(HookEvent::PostCommand)
    } else if str_eq(event_kind, "document-focus-lost") {
        Ok(HookEvent::DocumentFocusLost)
    } else if str_eq(event_kind, "selection-did-change") {
        Ok(HookEvent::SelectionDidChange)
    } else if str_eq(event_kind, "document-opened") {
        Ok(HookEvent::DocumentOpened)
    } else if str_eq(event_kind, "document-saved") {
        Ok(HookEvent::DocumentSaved)
    } else {
        let mut m = String::new();
        push_str(&mut m, "Unable to register hook: Unknown event type: ");
        push_str(&mut m, event_kind);
        Err(m)
    }
}

} // verus!

verus! {

/// A value a script hands to the configuration API, as far as the status line
/// reads it: a string, a list (whose items are strings, `Some`, or other values,
/// `None`), or any other value.
#[derive(Debug, PartialEq, Eq)]
pub enum ScriptValue {
    Str(String),
    List(Vec<Option<String>>),
    Other,
}

/// The texts shown for each mode in the status line.
#[derive(Debug, PartialEq, Eq)]
pub struct ModeConfig {
    pub normal: String,
    pub insert: String,
    pub select: String,
}

/// The status line configuration.
#[derive(Debug, PartialEq, Eq)]
pub struct StatusLineConfig {
    pub left: Vec<StatusLineElement>,
    pub center: Vec<StatusLineElement>,
    pub right: Vec<StatusLineElement>,
    pub separator: String,
    pub mode: ModeConfig,
    pub diagnostics: Vec<Severity>,
    pub workspace_diagnostics: Vec<Severity>,
}

/// The mathematical value of a `StatusLineConfig`.
#[verifier::ext_equal]
pub struct StatusLineView {
    pub left: Seq<StatusLineElement>,
    pub center: Seq<StatusLineElement>,
    pub right: Seq<StatusLineElement>,
    pub separator: Seq<char>,
    pub normal: Seq<char>,
    pub insert: Seq<char>,
    pub select: Seq<char>,
    pub diagnostics: Seq<Severity>,
    pub workspace_diagnostics: Seq<Severity>,
}

impl View for StatusLineConfig {
    type V = StatusLineView;

    open spec fn view(&self) -> StatusLineView {
        StatusLineView {
            left: self.left@,
            center: self.center@,
            right: self.right@,
            separator: self.separator@,
            normal: self.mode.normal@,
            insert: self.mode.insert@,
            select: self.mode.select@,
            diagnostics: self.diagnostics@,
            workspace_diagnostics: self.workspace_diagnostics@,
        }
    }
}

/// Why a status line configuration was refused.
#[derive(Debug, PartialEq, Eq)]
pub enum StatusLineError {
    /// A list item names no status line element.
    UnknownElement(String),
    /// A list item for the elements is not a string.
    NotAnElement,
    /// The value for `left`, `center` or `right` is not a list.
    NotAnElementList,
    /// A list item names no severity.
    UnknownSeverity(String),
    /// A list item for the severities is not a string.
    NotASeverity,
    /// The value for `diagnostics` or `workspace-diagnostics` is not a list.
    NotASeverityList,
    /// The value for the key (the separator or a mode's text) is not a string.
    NotAString(&'static str),
}

/// The mathematical value of a `StatusLineError`.
pub enum StatusLineFault {
    UnknownElement(Seq<char>),
    NotAnElement,
    NotAnElementList,
    UnknownSeverity(Seq<char>),
    NotASeverity,
    NotASeverityList,
    NotAString(Seq<char>),
}

impl View for StatusLineError {
    type V = StatusLineFault;

    open spec fn view(&self) -> StatusLineFault {
        match self {
            StatusLineError::UnknownElement(s) => StatusLineFault::UnknownElement(s@),
            StatusLineError::NotAnElement => StatusLineFault::NotAnElement,
            StatusLineError::NotAnElementList => StatusLineFault::NotAnElementList,
            StatusLineError::UnknownSeverity(s) => StatusLineFault::UnknownSeverity(s@),
            StatusLineError::NotASeverity => StatusLineFault::NotASeverity,
            StatusLineError::NotASeverityList => StatusLineFault::NotASeverityList,
            StatusLineError::NotAString(k) => StatusLineFault::NotAString(k@),
        }
    }
}

/// Whether the error's text is determined by the error alone: the texts of the
/// other errors print the refused scripting value, which the library does not
/// hold.
pub open spec fn has_status_text(e: StatusLineFault) -> bool {
    e is UnknownElement || e is UnknownSeverity
}

/// The text that describes a refused status line setting.
pub open spec fn status_text(e: StatusLineFault) -> Seq<char> {
    match e {
        StatusLineFault::UnknownElement(s) => "Unknown status line element: "@ + s,
        StatusLineFault::UnknownSeverity(s) => "Unknown severity label: "@ + s,
        _ => Seq::empty(),
    }
}

impl StatusLineError {
    /// Whether `to_string` can describe the error (see `has_status_text`).
    pub fn has_text(&self) -> (r: bool)
        ensures
            r == has_status_text(self@),
    {
        match self {
            StatusLineError::UnknownElement(_) => true,
            StatusLineError::UnknownSeverity(_) => true,
            _ => false,
        }
    }

    /// The text that describes the error to the user.
    pub fn to_string(&self) -> (r: String)
        requires
            has_status_text(self@),
        ensures
            r@ == status_text(self@),
    {
        let mut t = String::new();
        match self {
            StatusLineError::UnknownElement(name) => {
                push_str(&mut t, "Unknown status line element: ");
                push_str(&mut t, name.as_str());
            },
            StatusLineError::UnknownSeverity(name) => {
                push_str(&mut t, "Unknown severity label: ");
                push_str(&mut t, name.as_str());
            },
            _ => {},
        }
        t
    }
}

/// The value given for a key: the first entry with that key.
pub open spec fn lookup(entries: Seq<(String, ScriptValue)>, key: Seq<char>) -> Option<ScriptValue>
    decreases entries.len(),
{
    if entries.len() == 0 {
        None
    } else if entries[0].0@ == key {
        Some(entries[0].1)
    } else {
        lookup(entries.drop_first(), key)
    }
}

/// The elements that list items name, or the fault of the first item that names
/// none.
pub open spec fn items_elements(items: Seq<Option<String>>) -> Result<Seq<StatusLineElement>, StatusLineFault>
    decreases items.len(),
{
    if items.len() == 0 {
        Ok(Seq::empty())
    } else {
        match items[0] {
            None => Err(StatusLineFault::NotAnElement),
            Some(s) => match status_line_element_named(s@) {
                None => Err(StatusLineFault::UnknownElement(s@)),
                Some(e) => match items_elements(items.drop_first()) {
                    Ok(rest) => Ok(seq![e] + rest),
                    Err(f) => Err(f),
                },
            },
        }
    }
}

/// The severities that list items name, or the fault of the first item that names
/// none.
pub open spec fn items_severities(items: Seq<Option<String>>) -> Result<Seq<Severity>, StatusLineFault>
    decreases items.len(),
{
    if items.len() == 0 {
        Ok(Seq::empty())
    } else {
        match items[0] {
            None => Err(StatusLineFault::NotASeverity),
            Some(s) => match severity_named(s@) {
                None => Err(StatusLineFault::UnknownSeverity(s@)),
                Some(e) => match items_severities(items.drop_first()) {
                    Ok(rest) => Ok(seq![e] + rest),
                    Err(f) => Err(f),
                },
            },
        }
    }
}

/// The elements given for a key, if the key is given.
pub open spec fn given_elements(entries: Seq<(String, ScriptValue)>, key: Seq<char>) -> Result<Option<Seq<StatusLineElement>>, StatusLineFault> {
    match lookup(entries, key) {
        None => Ok(None),
        Some(ScriptValue::List(items)) => match items_elements(items@) {
            Ok(es) => Ok(Some(es)),
            Err(f) => Err(f),
        },
        Some(_) => Err(StatusLineFault::NotAnElementList),
    }
}

/// The severities given for a key, if the key is given.
pub open spec fn given_severities(entries: Seq<(String, ScriptValue)>, key: Seq<char>) -> Result<Option<Seq<Severity>>, StatusLineFault> {
    match lookup(entries, key) {
        None => Ok(None),
        Some(ScriptValue::List(items)) => match items_severities(items@) {
            Ok(es) => Ok(Some(es)),
            Err(f) => Err(f),
        },
        Some(_) => Err(StatusLineFault::NotASeverityList),
    }
}

/// The text given for a key, if the key is given.
pub open spec fn given_text(entries: Seq<(String, ScriptValue)>, key: Seq<char>) -> Result<Option<Seq<char>>, StatusLineFault> {
    match lookup(entries, key) {
        None => Ok(None),
        Some(ScriptValue::Str(s)) => Ok(Some(s@)),
        Some(_) => Err(StatusLineFault::NotAString(key)),
    }
}

/// A given value, or the current one.
pub open spec fn or_current<T>(given: Option<T>, current: T) -> T {
    match given {
        Some(v) => v,
        None => current,
    }
}

/// The status line configuration after applying a script's settings, or the fault
/// of the first key (in the order left, center, right, separator, mode-normal,
/// mode-insert, mode-select, diagnostics, workspace-diagnostics) whose value is
/// refused. Keys that are not given keep their value.
pub open spec fn apply_statusline(c: StatusLineView, e: Seq<(String, ScriptValue)>) -> Result<StatusLineView, StatusLineFault> {
    match given_elements(e, "left"@) {
        Err(f) => Err(f),
        Ok(left) => match given_elements(e, "center"@) {
            Err(f) => Err(f),
            Ok(center) => match given_elements(e, "right"@) {
                Err(f) => Err(f),
                Ok(right) => match given_text(e, "separator"@) {
                    Err(f) => Err(f),
                    Ok(separator) => match given_text(e, "mode-normal"@) {
                        Err(f) => Err(f),
                        Ok(normal) => match given_text(e, "mode-insert"@) {
                            Err(f) => Err(f),
                            Ok(insert) => match given_text(e, "mode-select"@) {
                                Err(f) => Err(f),
                                Ok(select) => match given_severities(e, "diagnostics"@) {
                                    Err(f) => Err(f),
                                    Ok(diagnostics) => match given_severities(e, "workspace-diagnostics"@) {
                                        Err(f) => Err(f),
                                        Ok(workspace_diagnostics) => Ok(
                                            StatusLineView {
                                                left: or_current(left, c.left),
                                                center: or_current(center, c.center),
                                                right: or_current(right, c.right),
                                                separator: or_current(separator, c.separator),
                                                normal: or_current(normal, c.normal),
                                                insert: or_current(insert, c.insert),
                                                select: or_current(select, c.select),
                                                diagnostics: or_current(diagnostics, c.diagnostics),
                                                workspace_diagnostics: or_current(
                                                    workspace_diagnostics,
                                                    c.workspace_diagnostics,
                                                ),
                                            },
                                        ),
                                    },
                                },
                            },
                        },
                    },
                },
            },
        },
    }
}

fn lookup_entry<'a>(entries: &'a Vec<(String, ScriptValue)>, key: &str) -> (r: Option<&'a ScriptValue>)
    ensures
        match lookup(entries@, key@) {
            None => r is None,
            Some(v) => r matches Some(x) && *x == v,
        },
{
    let mut i: usize = 0;
    assert(entries@.skip(0) =~= entries@);
    while i < entries.len()
        invariant
            i <= entries@.len(),
            lookup(entries@, key@) == lookup(entries@.skip(i as int), key@),
        decreases entries@.len() - i,
    {
        assert(entries@.skip(i as int).drop_first() =~= entries@.skip(i + 1));
        assert(entries@.skip(i as int)[0] == entries@[i as int]);
        if str_eq(entries[i].0.as_str(), key) {
            return Some(&entries[i].1);
        }
        i += 1;
    }
    None
}

fn list_elements(items: &Vec<Option<String>>) -> (r: Result<Vec<StatusLineElement>, StatusLineError>)
    ensures
        match items_elements(items@) {
            Ok(es) => r matches Ok(v) && v@ == es,
            Err(f) => r matches Err(e) && e@ == f,
        },
{
    let mut out: Vec<StatusLineElement> = Vec::new();
    let mut i: usize = 0;
    assert(items@.skip(0) =~= items@);
    while i < items.len()
        invariant
            i <= items@.len(),
            items_elements(items@) == match items_elements(items@.skip(i as int)) {
                Ok(rest) => Ok(out@ + rest),
                Err(f) => Err(f),
            },
        decreases items@.len() - i,
    {
        let ghost tail = items@.skip(i as int);
        assert(tail.drop_first() =~= items@.skip(i + 1));
        assert(tail[0] == items@[i as int]);
        match &items[i] {
            None => {
                return Err(StatusLineError::NotAnElement);
            },
            Some(s) => match parse_status_line_element(s.as_str()) {
                Err(_) => {
                    return Err(StatusLineError::UnknownElement(s.clone()));
                },
                Ok(e) => {
                    let ghost before = out@;
                    out.push(e);
                    proof {
                        if let Ok(rest) = items_elements(items@.skip(i + 1)) {
                            assert(before + (seq![e] + rest) =~= out@ + rest);
                        }
                    }
                },
            },
        }
        i += 1;
    }
    assert(items_elements(items@.skip(i as int)) == Ok::<Seq<StatusLineElement>, StatusLineFault>(Seq::empty()));
    assert(out@ + Seq::<StatusLineElement>::empty() =~= out@);
    Ok(out)
}

fn list_severities(items: &Vec<Option<String>>) -> (r: Result<Vec<Severity>, StatusLineError>)
    ensures
        match items_severities(items@) {
            Ok(es) => r matches Ok(v) && v@ == es,
            Err(f) => r matches Err(e) && e@ == f,
        },
{
    let mut out: Vec<Severity> = Vec::new();
    let mut i: usize = 0;
    assert(items@.skip(0) =~= items@);
    while i < items.len()
        invariant
            i <= items@.len(),
            items_severities(items@) == match items_severities(items@.skip(i as int)) {
                Ok(rest) => Ok(out@ + rest),
                Err(f) => Err(f),
            },
        decreases items@.len() - i,
    {
        let ghost tail = items@.skip(i as int);
        assert(tail.drop_first() =~= items@.skip(i + 1));
        assert(tail[0] == items@[i as int]);
        match &items[i] {
            None => {
                return Err(StatusLineError::NotASeverity);
            },
            Some(s) => match parse_severity(s.as_str()) {
                None => {
                    return Err(StatusLineError::UnknownSeverity(s.clone()));
                },
                Some(e) => {
                    let ghost before = out@;
                    out.push(e);
                    proof {
                        if let Ok(rest) = items_severities(items@.skip(i + 1)) {
                            assert(before + (seq![e] + rest) =~= out@ + rest);
                        }
                    }
                },
            },
        }
        i += 1;
    }
    assert(items_severities(items@.skip(i as int)) == Ok::<Seq<Severity>, StatusLineFault>(Seq::empty()));
    assert(out@ + Seq::<Severity>::empty() =~= out@);
    Ok(out)
}

fn elements_for(entries: &Vec<(String, ScriptValue)>, key: &str) -> (r: Result<Option<Vec<StatusLineElement>>, StatusLineError>)
    ensures
        match given_elements(entries@, key@) {
            Ok(None) => r matches Ok(None),
            Ok(Some(es)) => r matches Ok(Some(v)) && v@ == es,
            Err(f) => r matches Err(e) && e@ == f,
        },
{
    match lookup_entry(entries, key) {
        None => Ok(None),
        Some(ScriptValue::List(items)) => match list_elements(items) {
            Ok(v) => Ok(Some(v)),
            Err(e) => Err(e),
        },
        Some(_) => Err(StatusLineError::NotAnElementList),
    }
}

fn severities_for(entries: &Vec<(String, ScriptValue)>, key: &str) -> (r: Result<Option<Vec<Severity>>, StatusLineError>)
    ensures
        match given_severities(entries@, key@) {
            Ok(None) => r matches Ok(None),
            Ok(Some(es)) => r matches Ok(Some(v)) && v@ == es,
            Err(f) => r matches Err(e) && e@ == f,
        },
{
    match lookup_entry(entries, key) {
        None => Ok(None),
        Some(ScriptValue::List(items)) => match list_severities(items) {
            Ok(v) => Ok(Some(v)),
            Err(e) => Err(e),
        },
        Some(_) => Err(StatusLineError::NotASeverityList),
    }
}

fn text_for(entries: &Vec<(String, ScriptValue)>, key: &'static str) -> (r: Result<Option<String>, StatusLineError>)
    ensures
        match given_text(entries@, key@) {
            Ok(None) => r matches Ok(None),
            Ok(Some(t)) => r matches Ok(Some(v)) && v@ == t,
            Err(f) => r matches Err(e) && e@ == f,
        },
{
    match lookup_entry(entries, key) {
        None => Ok(None),
        Some(ScriptValue::Str(s)) => Ok(Some(s.clone())),
        Some(_) => Err(StatusLineError::NotAString(key)),
    }
}

/// Applies a script's status line settings (`left`, `center`, `right`,
/// `separator`, `mode-normal`, `mode-insert`, `mode-select`, `diagnostics`,
/// `workspace-diagnostics`). A refused value leaves the configuration unchanged.
pub fn statusline(config: &mut StatusLineConfig, entries: &Vec<(String, ScriptValue)>) -> (r: Result<(), StatusLineError>)
    ensures
        match apply_statusline(old(config)@, entries@) {
            Ok(c) => r is Ok && final(config)@ == c,
            Err(f) => r matches Err(e) && e@ == f && final(config)@ == old(config)@,
        },
{
    let left = match elements_for(entries, "left") { Ok(v) => v, Err(e) => { return Err(e); } };
    let center = match elements_for(entries, "center") { Ok(v) => v, Err(e) => { return Err(e); } };
    let right = match elements_for(entries, "right") { Ok(v) => v, Err(e) => { return Err(e); } };
    let separator = match text_for(entries, "separator") { Ok(v) => v, Err(e) => { return Err(e); } };
    let normal = match text_for(entries, "mode-normal") { Ok(v) => v, Err(e) => { return Err(e); } };
    let insert = match text_for(entries, "mode-insert") { Ok(v) => v, Err(e) => { return Err(e); } };
    let select = match text_for(entries, "mode-select") { Ok(v) => v, Err(e) => { return Err(e); } };
    let diagnostics = match severities_for(entries, "diagnostics") { Ok(v) => v, Err(e) => { return Err(e); } };
    let workspace_diagnostics = match severities_for(entries, "workspace-diagnostics") { Ok(v) => v, Err(e) => { return Err(e); } };
    if let Some(v) = left {
        config.left = v;
    }
    if let Some(v) = center {
        config.center = v;
    }
    if let Some(v) = right {
        config.right = v;
    }
    if let Some(v) = separator {
        config.separator = v;
    }
    if let Some(v) = normal {
        config.mode.normal = v;
    }
    if let Some(v) = insert {
        config.mode.insert = v;
    }
    if let Some(v) = select {
        config.mode.select = v;
    }
    if let Some(v) = diagnostics {
        config.diagnostics = v;
    }
    if let Some(v) = workspace_diagnostics {
        config.workspace_diagnostics = v;
    }
    Ok(())
}

} // verus!

verus! {

/// Applying no settings leaves the status line as it is.
pub proof fn law_statusline_no_settings(c: StatusLineView)
    ensures
        apply_statusline(c, Seq::empty()) == Ok::<StatusLineView, StatusLineFault>(c),
{
    assert(apply_statusline(c, Seq::empty()) matches Ok(d) && d =~= c);
}

/// Applying the same settings twice gives what applying them once gives.
pub proof fn law_statusline_idempotent(c: StatusLineView, e: Seq<(String, ScriptValue)>)
    ensures
        apply_statusline(c, e) matches Ok(d) ==> apply_statusline(d, e) == Ok::<StatusLineView, StatusLineFault>(d),
{
    if let Ok(d) = apply_statusline(c, e) {
        assert(apply_statusline(d, e) matches Ok(d2) && d2 =~= d);
    }
}


/// Each status-line key a script gives sets its own field, to what the given value
/// reads as (a list of element or severity names, or a text), and each key it
/// leaves out keeps its field; an accepted update has a value of the right shape
/// for every key it gives.
pub proof fn law_statusline_keys_set_their_fields(c: StatusLineView, e: Seq<(String, ScriptValue)>)
    ensures
        apply_statusline(c, e) matches Ok(d) ==> (match lookup(e, "left"@) {
            None => d.left == c.left,
            Some(ScriptValue::List(items)) => items_elements(items@) == Ok::<Seq<StatusLineElement>, StatusLineFault>(d.left),
            Some(_) => false,
        }),
        apply_statusline(c, e) matches Ok(d) ==> (match lookup(e, "center"@) {
            None => d.center == c.center,
            Some(ScriptValue::List(items)) => items_elements(items@) == Ok::<Seq<StatusLineElement>, StatusLineFault>(d.center),
            Some(_) => false,
        }),
        apply_statusline(c, e) matches Ok(d) ==> (match lookup(e, "right"@) {
            None => d.right == c.right,
            Some(ScriptValue::List(items)) => items_elements(items@) == Ok::<Seq<StatusLineElement>, StatusLineFault>(d.right),
            Some(_) => false,
        }),
        apply_statusline(c, e) matches Ok(d) ==> (match lookup(e, "separator"@) {
            None => d.separator == c.separator,
            Some(ScriptValue::Str(t)) => d.separator == t@,
            Some(_) => false,
        }),
        apply_statusline(c, e) matches Ok(d) ==> (match lookup(e, "mode-normal"@) {
            None => d.normal == c.normal,
            Some(ScriptValue::Str(t)) => d.normal == t@,
            Some(_) => false,
        }),
        apply_statusline(c, e) matches Ok(d) ==> (match lookup(e, "mode-insert"@) {
            None => d.insert == c.insert,
            Some(ScriptValue::Str(t)) => d.insert == t@,
            Some(_) => false,
        }),
        apply_statusline(c, e) matches Ok(d) ==> (match lookup(e, "mode-select"@) {
            None => d.select == c.select,
            Some(ScriptValue::Str(t)) => d.select == t@,
            Some(_) => false,
        }),
        apply_statusline(c, e) matches Ok(d) ==> (match lookup(e, "diagnostics"@) {
            None => d.diagnostics == c.diagnostics,
            Some(ScriptValue::List(items)) => items_severities(items@) == Ok::<Seq<Severity>, StatusLineFault>(d.diagnostics),
            Some(_) => false,
        }),
        apply_statusline(c, e) matches Ok(d) ==> (match lookup(e, "workspace-diagnostics"@) {
            None => d.workspace_diagnostics == c.workspace_diagnostics,
            Some(ScriptValue::List(items)) => items_severities(items@) == Ok::<Seq<Severity>, StatusLineFault>(d.workspace_diagnostics),
            Some(_) => false,
        }),
{
}

} // verus!
