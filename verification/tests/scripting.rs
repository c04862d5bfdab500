use helix_term::scripting::{push_component_source, push_static_command_source, push_typed_command_source};
use helix_term::scripting::{
    alternative_runtime_search_path, config_file_path, format_docstring, helix_module_file,
    join_path, parse_bufferline, parse_cursor_kind, parse_line_number, parse_mode,
    parse_severity, parse_status_line_element, steel_init_file, BufferLine, CursorKind,
    LineNumber, Mode, Severity, StatusLineElement,
};

#[test]
fn docstrings() {
    assert_eq!(format_docstring("hello"), ";;hello");
    assert_eq!(format_docstring("a\nb"), ";;a\n;;b");
    assert_eq!(format_docstring("a\r\nb\n"), ";;a\n;;b");
    assert_eq!(format_docstring("a\n\nb"), ";;a\n;;\n;;b");
    assert_eq!(format_docstring(""), "");
    assert_eq!(format_docstring("\n"), ";;");
    assert_eq!(format_docstring("a\rb"), ";;a\rb");
}

#[test]
fn names() {
    assert_eq!(parse_mode("normal"), Some(Mode::Normal));
    assert_eq!(parse_mode("select"), Some(Mode::Select));
    assert_eq!(parse_mode("insert"), Some(Mode::Insert));
    assert_eq!(parse_mode("visual"), None);
    assert_eq!(parse_cursor_kind("bar"), Some(CursorKind::Bar));
    assert_eq!(parse_cursor_kind("hidden"), Some(CursorKind::Hidden));
    assert_eq!(parse_cursor_kind("Bar"), None);
    assert_eq!(parse_line_number("relative"), Ok(LineNumber::Relative));
    assert_eq!(parse_line_number("absolute"), Ok(LineNumber::Absolute));
    assert_eq!(parse_line_number("both"), Err("Unrecognized line-number option: both".to_string()));
    assert_eq!(parse_bufferline("multiple"), Ok(BufferLine::Multiple));
    assert_eq!(parse_bufferline("sometimes"), Err("Unrecognized bufferline option: sometimes".to_string()));
    assert_eq!(parse_severity("warning"), Some(Severity::Warning));
    assert_eq!(parse_severity("fatal"), None);
    assert_eq!(parse_status_line_element("file-name"), Ok(StatusLineElement::FileName));
    assert_eq!(
        parse_status_line_element("current-working-directory"),
        Ok(StatusLineElement::CurrentWorkingDirectory)
    );
    assert_eq!(
        parse_status_line_element("clock"),
        Err("Unknown status line element: clock".to_string())
    );
}

#[test]
fn paths() {
    assert_eq!(join_path("/home/u", "init.scm"), "/home/u/init.scm");
    assert_eq!(join_path("/home/u/", "init.scm"), "/home/u/init.scm");
    assert_eq!(join_path("", "init.scm"), "init.scm");
    assert_eq!(join_path("/home/u", "/etc/x"), "/etc/x");
    assert_eq!(helix_module_file(Some("/cfg"), true, "/ws", "/home/.config/helix"), "/cfg/helix.scm");
    assert_eq!(helix_module_file(None, true, "/ws", "/home/.config/helix"), "/ws/.helix/helix.scm");
    assert_eq!(steel_init_file(None, false, "/ws", "/home/.config/helix"), "/home/.config/helix/init.scm");
    assert_eq!(config_file_path("x.scm", None, false, "/ws", "/c"), "/c/x.scm");
    assert_eq!(alternative_runtime_search_path(Some("/home/u/.steel")), Some("/home/u/.steel/cogs/helix".to_string()));
    assert_eq!(alternative_runtime_search_path(None), None);
}

use helix_term::scripting::{read_line_result, read_line_waits_briefly, written_len, Generation};

#[test]
fn terminal_session_io() {
    assert!(!read_line_waits_briefly(""));
    assert!(read_line_waits_briefly("a"));
    assert_eq!(read_line_result("ab".to_string(), Some("c".to_string())), Some("abc".to_string()));
    assert_eq!(read_line_result("".to_string(), Some("c".to_string())), Some("c".to_string()));
    assert_eq!(read_line_result("ab".to_string(), None), Some("ab".to_string()));
    assert_eq!(read_line_result("".to_string(), None), None);
    assert_eq!(written_len(true, 5), 5);
    assert_eq!(written_len(false, 5), 0);
}

#[test]
fn generations() {
    let mut g = Generation::new();
    let made = g.load_generation();
    assert_eq!(made, 0);
    assert!(g.is_current_generation(made));
    g.increment_generation();
    assert!(!g.is_current_generation(made));
    assert!(g.is_current_generation(1));
}

use helix_term::scripting::{register_hook, statusline, HookEvent, ModeConfig, ScriptValue, StatusLineConfig, StatusLineError};

#[test]
fn hooks() {
    assert_eq!(register_hook("document-saved"), Ok(HookEvent::DocumentSaved));
    assert_eq!(register_hook("on-mode-switch"), Ok(HookEvent::OnModeSwitch));
    assert_eq!(
        register_hook("on-quit"),
        Err("Unable to register hook: Unknown event type: on-quit".to_string())
    );
}

fn base_config() -> StatusLineConfig {
    StatusLineConfig {
        left: vec![StatusLineElement::Mode],
        center: vec![],
        right: vec![StatusLineElement::Position],
        separator: "│".to_string(),
        mode: ModeConfig { normal: "NOR".to_string(), insert: "INS".to_string(), select: "SEL".to_string() },
        diagnostics: vec![Severity::Warning, Severity::Error],
        workspace_diagnostics: vec![Severity::Warning, Severity::Error],
    }
}

fn list(items: &[&str]) -> ScriptValue {
    ScriptValue::List(items.iter().map(|s| Some(s.to_string())).collect())
}

#[test]
fn statusline_settings_apply() {
    let mut c = base_config();
    let entries = vec![
        ("center".to_string(), list(&["file-name", "spacer"])),
        ("mode-insert".to_string(), ScriptValue::Str("I".to_string())),
        ("diagnostics".to_string(), list(&["hint"])),
    ];
    assert_eq!(statusline(&mut c, &entries), Ok(()));
    assert_eq!(c.center, vec![StatusLineElement::FileName, StatusLineElement::Spacer]);
    assert_eq!(c.left, vec![StatusLineElement::Mode]);
    assert_eq!(c.mode.insert, "I");
    assert_eq!(c.mode.normal, "NOR");
    assert_eq!(c.diagnostics, vec![Severity::Hint]);
}

#[test]
fn statusline_refusals_change_nothing() {
    let mut c = base_config();
    let entries = vec![
        ("left".to_string(), list(&["mode"])),
        ("right".to_string(), list(&["position", "clock"])),
    ];
    assert_eq!(statusline(&mut c, &entries), Err(StatusLineError::UnknownElement("clock".to_string())));
    assert_eq!(c, base_config());
    let entries = vec![("separator".to_string(), ScriptValue::Other)];
    assert_eq!(statusline(&mut c, &entries), Err(StatusLineError::NotAString("separator")));
    let entries = vec![("center".to_string(), ScriptValue::Str("mode".to_string()))];
    assert_eq!(statusline(&mut c, &entries), Err(StatusLineError::NotAnElementList));
    let entries = vec![("center".to_string(), ScriptValue::List(vec![None]))];
    assert_eq!(statusline(&mut c, &entries), Err(StatusLineError::NotAnElement));
    let entries = vec![("workspace-diagnostics".to_string(), list(&["loud"]))];
    assert_eq!(statusline(&mut c, &entries), Err(StatusLineError::UnknownSeverity("loud".to_string())));
    let entries = vec![("diagnostics".to_string(), ScriptValue::Other)];
    assert_eq!(statusline(&mut c, &entries), Err(StatusLineError::NotASeverityList));
    let entries = vec![("diagnostics".to_string(), ScriptValue::List(vec![None]))];
    assert_eq!(statusline(&mut c, &entries), Err(StatusLineError::NotASeverity));
    assert_eq!(c, base_config());
}

#[test]
fn status_line_error_texts() {
    let e = StatusLineError::UnknownElement("clock".to_string());
    assert!(e.has_text());
    assert_eq!(e.to_string(), "Unknown status line element: clock");
    let e = StatusLineError::UnknownSeverity("loud".to_string());
    assert!(e.has_text());
    assert_eq!(e.to_string(), "Unknown severity label: loud");
    assert!(!StatusLineError::NotAnElementList.has_text());
    assert!(!StatusLineError::NotAString("separator").has_text());
}

#[test]
fn command_sources() {
    let mut m = String::from(";; header");
    push_static_command_source(&mut m, "move_char_left", "Move left\nby one");
    assert_eq!(
        m,
        ";; header\n(provide move_char_left)\n;;@doc\n;;Move left\n;;by one\n(define move_char_left helix.static.move_char_left)\n"
    );
    let mut m = String::new();
    push_typed_command_source(&mut m, "write", "Write changes");
    assert_eq!(
        m,
        "\n(provide write)\n\n;;@doc\n;;Write changes\n(define (write . args)\n    (helix.write args))\n"
    );
}

#[test]
fn component_source_text() {
    let mut m = String::new();
    push_component_source(&mut m, "theme->bg", "The background\nstyle");
    assert_eq!(
        m,
        "\n(provide theme->bg)\n;;@doc\n;;The background\n;;style\n(define theme->bg helix.components.theme->bg)\n                    "
    );
}
