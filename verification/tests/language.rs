use helix_term::language::{find_language, scope_or_current, merge_language_config, update_language_config, GivenKeys, LanguageConfig};
use helix_term::scripting::Severity;

fn config(id: &str, scope: &str) -> LanguageConfig<String> {
    LanguageConfig {
        language_id: id.to_string(),
        scope: scope.to_string(),
        language_server_language_id: None,
        file_types: vec!["rs".to_string()],
        shebangs: vec![],
        roots: vec!["Cargo.toml".to_string()],
        comment_tokens: Some(vec!["//".to_string()]),
        block_comment_tokens: None,
        text_width: None,
        soft_wrap: None,
        auto_format: true,
        formatter: None,
        path_completion: None,
        diagnostic_severity: Severity::Hint,
        grammar: None,
        injection_regex: None,
        language_servers: vec!["rust-analyzer".to_string()],
        indent: Some("4 spaces".to_string()),
        debugger: None,
        auto_pairs: None,
        rulers: None,
        workspace_lsp_roots: None,
        rainbow_brackets: Some(false),
        persistent_diagnostic_sources: vec![],
    }
}

fn nothing_given(scope: &str) -> LanguageConfig<String> {
    LanguageConfig {
        file_types: vec![],
        roots: vec![],
        comment_tokens: None,
        auto_format: false,
        diagnostic_severity: Severity::Warning,
        language_servers: vec![],
        indent: None,
        rainbow_brackets: None,
        ..config("ignored", scope)
    }
}

const NO_KEYS: GivenKeys =
    GivenKeys { auto_format: false, diagnostic_severity: false, language_servers: false, persistent_diagnostic_sources: false };

#[test]
fn empty_update_keeps_everything() {
    let merged = merge_language_config(config("rust", "source.rust"), nothing_given("source.rust"), NO_KEYS);
    assert_eq!(merged, config("rust", "source.rust"));
}

#[test]
fn update_rules() {
    let mut given = nothing_given("source.rs2");
    given.text_width = Some(100);
    given.file_types = vec!["rs2".to_string()];
    given.auto_format = false;
    given.language_servers = vec![];
    let keys = GivenKeys { auto_format: true, language_servers: true, ..NO_KEYS };
    let merged = merge_language_config(config("rust", "source.rust"), given, keys);
    assert_eq!(merged.language_id, "rust");
    assert_eq!(merged.scope, "source.rs2");
    assert_eq!(merged.text_width, Some(100));
    assert_eq!(merged.file_types, vec!["rs2".to_string()]);
    assert_eq!(merged.roots, vec!["Cargo.toml".to_string()]);
    assert_eq!(merged.comment_tokens, Some(vec!["//".to_string()]));
    assert!(!merged.auto_format);
    assert!(merged.language_servers.is_empty());
    assert_eq!(merged.diagnostic_severity, Severity::Hint);
    assert_eq!(merged.indent, Some("4 spaces".to_string()));
}

#[test]
fn update_of_one_language() {
    let mut configs = vec![config("c", "source.c"), config("rust", "source.rust"), config("rust", "second")];
    assert_eq!(find_language(&configs, "rust"), Some(1));
    assert_eq!(find_language(&configs, "go"), None);
    let mut given = nothing_given("source.rust");
    given.grammar = Some("rust-next".to_string());
    update_language_config(&mut configs, "rust", given, NO_KEYS);
    assert_eq!(configs[0], config("c", "source.c"));
    assert_eq!(configs[1].grammar, Some("rust-next".to_string()));
    assert_eq!(configs[2], config("rust", "second"));
    assert_eq!(configs.len(), 3);
}

#[test]
fn scope_defaults_to_current() {
    let c = config("rust", "source.rust");
    assert_eq!(scope_or_current(None, &c), "source.rust");
    assert_eq!(scope_or_current(Some("source.rs".to_string()), &c), "source.rs");
    let mut given = nothing_given("source.rust");
    given.rainbow_brackets = Some(true);
    let merged = merge_language_config(config("rust", "source.rust"), given, NO_KEYS);
    assert_eq!(merged.rainbow_brackets, Some(true));
}
