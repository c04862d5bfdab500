use helix_term::engine::{NoEngine, PluginSystemKind, PluginSystemTypes, ScriptingEngine};

#[test]
fn without_a_scripting_engine_nothing_is_handled() {
    ScriptingEngine::initialize();
    ScriptingEngine::generate_sources();
    assert!(!ScriptingEngine::call_function_by_name("anything", &["a".to_string()]));
    assert!(!ScriptingEngine::call_typed_command("vsplit", &["x"]));
    assert_eq!(ScriptingEngine::get_doc_for_identifier("ident"), None);
    assert!(ScriptingEngine::available_commands().is_empty());
    let p = PluginSystemTypes::NoEngine(NoEngine);
    assert_eq!(p.engine_name(), PluginSystemKind::NoEngine);
    assert_eq!(NoEngine.engine_name(), PluginSystemKind::NoEngine);
}
