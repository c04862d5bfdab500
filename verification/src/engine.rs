//! The boundary between the editor and its plugin systems.
//!
//! The editor asks each plugin system in order of precedence; the first one that
//! handles a request answers it. In this build no scripting engine is compiled in,
//! so the only plugin system is `NoEngine`, which handles nothing.
use vstd::prelude::*;

verus! {

/// The kinds of plugin systems.
#[derive(Debug, Clone, Copy, PartialEq, Eq)]
pub enum PluginSystemKind {
    NoEngine,
}

/// The plugin system that handles nothing.
#[derive(Debug, Clone, Copy, PartialEq, Eq)]
pub struct NoEngine;

/// A plugin system, of one of the kinds.
#[derive(Debug, Clone, Copy, PartialEq, Eq)]
pub enum PluginSystemTypes {
    NoEngine(NoEngine),
}

/// The editor's entry point into the plugin systems.
#[derive(Debug, Clone, Copy, PartialEq, Eq)]
pub struct ScriptingEngine;

/// The plugin systems in the order in which they are asked.
pub open spec fn plugin_precedence() -> Seq<PluginSystemTypes> {
    seq![PluginSystemTypes::NoEngine(NoEngine)]
}

fn precedence() -> (r: Vec<PluginSystemTypes>)
    ensures
        r@ == plugin_precedence(),
{
    let mut v: Vec<PluginSystemTypes> = Vec::new();
    v.push(PluginSystemTypes::NoEngine(NoEngine));
    assert(v@ =~= plugin_precedence());
    v
}

impl NoEngine {
    /// Prepares the system before the editor's context exists: nothing to do.
    pub fn initialize(&self) {
    }

    /// Writes out the sources of the system's API: there are none.
    pub fn generate_sources(&self) {
    }

    /// The kind of this plugin system.
    pub fn engine_name(&self) -> (r: PluginSystemKind)
        ensures
            r == PluginSystemKind::NoEngine,
    {
        PluginSystemKind::NoEngine
    }

    /// Whether the system has a function `name` and called it: never.
    pub fn call_function_by_name(&self, name: &str, args: &[String]) -> (r: bool)
        ensures
            !r,
    {
        false
    }

    /// Whether the system handled a typed command: never.
    pub fn call_typed_command(&self, command: &str, parts: &[&str]) -> (r: bool)
        ensures
            !r,
    {
        false
    }

    /// The system's documentation of an identifier: none.
    pub fn get_doc_for_identifier(&self, ident: &str) -> (r: Option<String>)
        ensures
            r is None,
    {
        None
    }

    /// The typed commands the system offers: none.
    pub fn available_commands(&self) -> (r: Vec<String>)
        ensures
            r@.len() == 0,
    {
        Vec::new()
    }
}

impl PluginSystemTypes {
    /// Prepares the plugin system before the editor's context exists.
    pub fn initialize(&self) {
        match self {
            PluginSystemTypes::NoEngine(n) => n.initialize(),
        }
    }

    /// Writes out the sources of the plugin system's API.
    pub fn generate_sources(&self) {
        match self {
            PluginSystemTypes::NoEngine(n) => n.generate_sources(),
        }
    }

    /// The kind of the plugin system.
    pub fn engine_name(&self) -> (r: PluginSystemKind)
        ensures
            r == PluginSystemKind::NoEngine,
    {
        match self {
            PluginSystemTypes::NoEngine(n) => n.engine_name(),
        }
    }

    /// Whether the plugin system handled a call of the function `name`.
    pub fn call_function_by_name(&self, name: &str, args: &[String]) -> (r: bool)
        ensures
            !r,
    {
        match self {
            PluginSystemTypes::NoEngine(n) => n.call_function_by_name(name, args),
        }
    }

    /// Whether the plugin system handled a typed command.
    pub fn call_typed_command(&self, command: &str, parts: &[&str]) -> (r: bool)
        ensures
            !r,
    {
        match self {
            PluginSystemTypes::NoEngine(n) => n.call_typed_command(command, parts),
        }
    }

    /// The plugin system's documentation of an identifier.
    pub fn get_doc_for_identifier(&self, ident: &str) -> (r: Option<String>)
        ensures
            r is None,
    {
        match self {
            PluginSystemTypes::NoEngine(n) => n.get_doc_for_identifier(ident),
        }
    }

    /// The typed commands the plugin system offers.
    pub fn available_commands(&self) -> (r: Vec<String>)
        ensures
            r@.len() == 0,
    {
        match self {
            PluginSystemTypes::NoEngine(n) => n.available_commands(),
        }
    }
}

impl ScriptingEngine {
    /// Prepares every plugin system before the editor's context exists; the
    /// systems of this build need nothing.
    pub fn initialize() {
        let systems = precedence();
        let mut i: usize = 0;
        while i < systems.len()
            invariant
                i <= systems@.len(),
            decreases systems@.len() - i,
        {
            systems[i].initialize();
            i += 1;
        }
    }

    /// Calls the function `name` in the first plugin system that has it; whether
    /// one did.
    pub fn call_function_by_name(name: &str, args: &[String]) -> (r: bool)
        ensures
            !r,
    {
        let systems = precedence();
        let mut i: usize = 0;
        while i < systems.len()
            invariant
                i <= systems@.len(),
            decreases systems@.len() - i,
        {
            if systems[i].call_function_by_name(name, args) {
                return true;
            }
            i += 1;
        }
        false
    }

    /// Lets the first plugin system that handles a typed command run it; whether
    /// one did.
    pub fn call_typed_command(command: &str, parts: &[&str]) -> (r: bool)
        ensures
            !r,
    {
        let systems = precedence();
        let mut i: usize = 0;
        while i < systems.len()
            invariant
                i <= systems@.len(),
            decreases systems@.len() - i,
        {
            if systems[i].call_typed_command(command, parts) {
                return true;
            }
            i += 1;
        }
        false
    }

    /// The documentation of an identifier from the first plugin system that has
    /// some.
    pub fn get_doc_for_identifier(ident: &str) -> (r: Option<String>)
        ensures
            r is None,
    {
        let systems = precedence();
        let mut i: usize = 0;
        while i < systems.len()
            invariant
                i <= systems@.len(),
            decreases systems@.len() - i,
        {
            let doc = systems[i].get_doc_for_identifier(ident);
            if doc.is_some() {
                return doc;
            }
            i += 1;
        }
        None
    }

    /// The typed commands of all plugin systems, in order of precedence.
    pub fn available_commands() -> (r: Vec<String>)
        ensures
            r@.len() == 0,
    {
        let systems = precedence();
        let mut all: Vec<String> = Vec::new();
        let mut i: usize = 0;
        while i < systems.len()
            invariant
                i <= systems@.len(),
                all@.len() == 0,
            decreases systems@.len() - i,
        {
            let mut more = systems[i].available_commands();
            all.append(&mut more);
            i += 1;
        }
        all
    }

    /// Lets every plugin system write out the sources of its API; the systems of
    /// this build have none.
    pub fn generate_sources() {
        let systems = precedence();
        let mut i: usize = 0;
        while i < systems.len()
            invariant
                i <= systems@.len(),
            decreases systems@.len() - i,
        {
            systems[i].generate_sources();
            i += 1;
        }
    }
}

} // verus!
