//! Updating a language's configuration from a script.
//!
//! A script hands the editor a partial configuration for a language. It has been
//! read into a full `LanguageConfig` (absent lists read as empty, absent optional
//! settings as `None`, an absent scope as the language's current scope), together
//! with which of the plain (non-optional) settings the script named
//! (`scope_or_current` fills in the scope). The update then keeps the language's
//! current value of every setting the script left out.
use vstd::prelude::*;

use crate::scripting::Severity;
use crate::text::str_eq;

verus! {

/// A language's configuration. Settings whose values the update only moves
/// around (file types, comment tokens, soft wrapping, formatter, language
/// servers, indentation, debugger, auto pairs) are held as values of `V`.
#[derive(Debug, PartialEq, Eq)]
pub struct LanguageConfig<V> {
    pub language_id: String,
    pub scope: String,
    pub language_server_language_id: Option<String>,
    pub file_types: Vec<V>,
    pub shebangs: Vec<String>,
    pub roots: Vec<String>,
    pub comment_tokens: Option<Vec<String>>,
    pub block_comment_tokens: Option<V>,
    pub text_width: Option<usize>,
    pub soft_wrap: Option<V>,
    pub auto_format: bool,
    pub formatter: Option<V>,
    pub path_completion: Option<bool>,
    pub diagnostic_severity: Severity,
    pub grammar: Option<String>,
    pub injection_regex: Option<String>,
    pub language_servers: Vec<V>,
    pub indent: Option<V>,
    pub debugger: Option<V>,
    pub auto_pairs: Option<V>,
    pub rulers: Option<Vec<u16>>,
    pub workspace_lsp_roots: Option<Vec<String>>,
    pub rainbow_brackets: Option<bool>,
    pub persistent_diagnostic_sources: Vec<String>,
}

/// Which of the plain settings the script named (their read values stand for
/// defaults otherwise).
#[derive(Debug, Clone, Copy, PartialEq, Eq)]
pub struct GivenKeys {
    pub auto_format: bool,
    pub diagnostic_severity: bool,
    pub language_servers: bool,
    pub persistent_diagnostic_sources: bool,
}

/// The given value when there is one, else the current one.
pub open spec fn given_or<T>(given: Option<T>, current: Option<T>) -> Option<T> {
    if given is Some {
        given
    } else {
        current
    }
}

/// The given list when it is not empty, else the current one.
pub open spec fn nonempty_or<T>(given: Vec<T>, current: Vec<T>) -> Vec<T> {
    if given@.len() > 0 {
        given
    } else {
        current
    }
}

/// The configuration after an update: the scope is the given one; the
/// language-server id, comment tokens, text width, soft wrap, formatter, path
/// completion, grammar, injection regex, indentation, debugger, auto pairs, rulers,
/// workspace roots and rainbow brackets are replaced when given; file types, shebangs and roots
/// when the given list is not empty; auto-format, diagnostic severity, language
/// servers and persistent diagnostic sources when the script named them. The
/// language id stays.
pub open spec fn merged<V>(current: LanguageConfig<V>, given: LanguageConfig<V>, keys: GivenKeys) -> LanguageConfig<V> {
    LanguageConfig {
        language_id: current.language_id,
        scope: given.scope,
        language_server_language_id: given_or(
            given.language_server_language_id,
            current.language_server_language_id,
        ),
        file_types: nonempty_or(given.file_types, current.file_types),
        shebangs: nonempty_or(given.shebangs, current.shebangs),
        roots: nonempty_or(given.roots, current.roots),
        comment_tokens: given_or(given.comment_tokens, current.comment_tokens),
        block_comment_tokens: given_or(given.block_comment_tokens, current.block_comment_tokens),
        text_width: given_or(given.text_width, current.text_width),
        soft_wrap: given_or(given.soft_wrap, current.soft_wrap),
        auto_format: if keys.auto_format {
            given.auto_format
        } else {
            current.auto_format
        },
        formatter: given_or(given.formatter, current.formatter),
        path_completion: given_or(given.path_completion, current.path_completion),
        diagnostic_severity: if keys.diagnostic_severity {
            given.diagnostic_severity
        } else {
            current.diagnostic_severity
        },
        grammar: given_or(given.grammar, current.grammar),
        injection_regex: given_or(given.injection_regex, current.injection_regex),
        language_servers: if keys.language_servers {
            given.language_servers
        } else {
            current.language_servers
        },
        indent: given_or(given.indent, current.indent),
        debugger: given_or(given.debugger, current.debugger),
        auto_pairs: given_or(given.auto_pairs, current.auto_pairs),
        rulers: given_or(given.rulers, current.rulers),
        workspace_lsp_roots: given_or(given.workspace_lsp_roots, current.workspace_lsp_roots),
        rainbow_brackets: given_or(given.rainbow_brackets, current.rainbow_brackets),
        persistent_diagnostic_sources: if keys.persistent_diagnostic_sources {
            given.persistent_diagnostic_sources
        } else {
            current.persistent_diagnostic_sources
        },
    }
}

fn pick<T>(given: Option<T>, current: Option<T>) -> (r: Option<T>)
    ensures
        r == given_or(given, current),
{
    if given.is_some() {
        given
    } else {
        current
    }
}

fn pick_nonempty<T>(given: Vec<T>, current: Vec<T>) -> (r: Vec<T>)
    ensures
        r == nonempty_or(given, current),
{
    if given.len() > 0 {
        given
    } else {
        current
    }
}

/// Applies an update to a language's configuration.
pub fn merge_language_config<V>(current: LanguageConfig<V>, given: LanguageConfig<V>, keys: GivenKeys) -> (r: LanguageConfig<V>)
    ensures
        r == merged(current, given, keys),
{
    let LanguageConfig {
        language_id,
        scope: _,
        language_server_language_id,
        file_types,
        shebangs,
        roots,
        comment_tokens,
        block_comment_tokens,
        text_width,
        soft_wrap,
        auto_format,
        formatter,
        path_completion,
        diagnostic_severity,
        grammar,
        injection_regex,
        language_servers,
        indent,
        debugger,
        auto_pairs,
        rulers,
        workspace_lsp_roots,
        rainbow_brackets,
        persistent_diagnostic_sources,
    } = current;
    let LanguageConfig {
        language_id: _,
        scope: g_scope,
        language_server_language_id: g_language_server_language_id,
        file_types: g_file_types,
        shebangs: g_shebangs,
        roots: g_roots,
        comment_tokens: g_comment_tokens,
        block_comment_tokens: g_block_comment_tokens,
        text_width: g_text_width,
        soft_wrap: g_soft_wrap,
        auto_format: g_auto_format,
        formatter: g_formatter,
        path_completion: g_path_completion,
        diagnostic_severity: g_diagnostic_severity,
        grammar: g_grammar,
        injection_regex: g_injection_regex,
        language_servers: g_language_servers,
        indent: g_indent,
        debugger: g_debugger,
        auto_pairs: g_auto_pairs,
        rulers: g_rulers,
        workspace_lsp_roots: g_workspace_lsp_roots,
        rainbow_brackets: g_rainbow_brackets,
        persistent_diagnostic_sources: g_persistent_diagnostic_sources,
    } = given;
    LanguageConfig {
        language_id,
        scope: g_scope,
        language_server_language_id: pick(g_language_server_language_id, language_server_language_id),
        file_types: pick_nonempty(g_file_types, file_types),
        shebangs: pick_nonempty(g_shebangs, shebangs),
        roots: pick_nonempty(g_roots, roots),
        comment_tokens: pick(g_comment_tokens, comment_tokens),
        block_comment_tokens: pick(g_block_comment_tokens, block_comment_tokens),
        text_width: pick(g_text_width, text_width),
        soft_wrap: pick(g_soft_wrap, soft_wrap),
        auto_format: if keys.auto_format {
            g_auto_format
        } else {
            auto_format
        },
        formatter: pick(g_formatter, formatter),
        path_completion: pick(g_path_completion, path_completion),
        diagnostic_severity: if keys.diagnostic_severity {
            g_diagnostic_severity
        } else {
            diagnostic_severity
        },
        grammar: pick(g_grammar, grammar),
        injection_regex: pick(g_injection_regex, injection_regex),
        language_servers: if keys.language_servers {
            g_language_servers
        } else {
            language_servers
        },
        indent: pick(g_indent, indent),
        debugger: pick(g_debugger, debugger),
        auto_pairs: pick(g_auto_pairs, auto_pairs),
        rulers: pick(g_rulers, rulers),
        workspace_lsp_roots: pick(g_workspace_lsp_roots, workspace_lsp_roots),
        rainbow_brackets: pick(g_rainbow_brackets, rainbow_brackets),
        persistent_diagnostic_sources: if keys.persistent_diagnostic_sources {
            g_persistent_diagnostic_sources
        } else {
            persistent_diagnostic_sources
        },
    }
}

/// The scope an update gives: the script's, or the language's current scope
/// when the script names none.
pub fn scope_or_current<V>(given: Option<String>, current: &LanguageConfig<V>) -> (r: String)
    ensures
        r@ == match given {
            Some(s) => s@,
            None => current.scope@,
        },
{
    match given {
        Some(s) => s,
        None => current.scope.clone(),
    }
}

/// The index of the first configuration of the language `id`, from `i` on.
pub open spec fn language_index_from<V>(configs: Seq<LanguageConfig<V>>, id: Seq<char>, i: int) -> Option<int>
    decreases configs.len() - i,
{
    if i < 0 || i >= configs.len() {
        None
    } else if configs[i].language_id@ == id {
        Some(i)
    } else {
        language_index_from(configs, id, i + 1)
    }
}

/// The index of the first configuration of the language `id`.
pub open spec fn language_index<V>(configs: Seq<LanguageConfig<V>>, id: Seq<char>) -> Option<int> {
    language_index_from(configs, id, 0)
}

proof fn lemma_language_index_from<V>(configs: Seq<LanguageConfig<V>>, id: Seq<char>, i: int)
    requires
        0 <= i,
    ensures
        language_index_from(configs, id, i) matches Some(k) ==> i <= k < configs.len()
            && configs[k].language_id@ == id,
    decreases configs.len() - i,
{
    if i < configs.len() && configs[i].language_id@ != id {
        lemma_language_index_from(configs, id, i + 1);
    }
}

/// Where the configuration of the language `language` stands, if there is one.
pub fn find_language<V>(configs: &Vec<LanguageConfig<V>>, language: &str) -> (r: Option<usize>)
    ensures
        match language_index(configs@, language@) {
            None => r is None,
            Some(k) => r == Some(k as usize),
        },
{
    let mut i: usize = 0;
    while i < configs.len()
        invariant
            i <= configs@.len(),
            language_index(configs@, language@) == language_index_from(configs@, language@, i as int),
        decreases configs@.len() - i,
    {
        if str_eq(configs[i].language_id.as_str(), language) {
            return Some(i);
        }
        i += 1;
    }
    None
}

/// Applies a script's update to the configuration of the language `language`,
/// which must be configured; the other languages' configurations stay as they
/// are.
pub fn update_language_config<V>(configs: &mut Vec<LanguageConfig<V>>, language: &str, given: LanguageConfig<V>, keys: GivenKeys)
    requires
        language_index(old(configs)@, language@) is Some,
    ensures
        ({
            let k = language_index(old(configs)@, language@)->0;
            final(configs)@ == old(configs)@.update(k, merged(old(configs)@[k], given, keys))
        }),
{
    proof {
        lemma_language_index_from(configs@, language@, 0);
    }
    let k = match find_language(configs, language) {
        Some(k) => k,
        None => {
            return;
        },
    };
    let current = configs.remove(k);
    let updated = merge_language_config(current, given, keys);
    configs.insert(k, updated);
    assert(configs@ =~= old(configs)@.update(k as int, merged(old(configs)@[k as int], given, keys)));
}

/// An update that gives nothing (the current scope, no optional settings, empty
/// lists, no plain settings named) leaves the configuration as it is.
pub proof fn law_empty_update_keeps_config<V>(current: LanguageConfig<V>, given: LanguageConfig<V>)
    requires
        given.scope == current.scope,
        given.language_server_language_id is None,
        given.file_types@.len() == 0,
        given.shebangs@.len() == 0,
        given.roots@.len() == 0,
        given.comment_tokens is None,
        given.block_comment_tokens is None,
        given.text_width is None,
        given.soft_wrap is None,
        given.formatter is None,
        given.path_completion is None,
        given.grammar is None,
        given.injection_regex is None,
        given.indent is None,
        given.debugger is None,
        given.auto_pairs is None,
        given.rulers is None,
        given.workspace_lsp_roots is None,
        given.rainbow_brackets is None,
    ensures
        merged(
            current,
            given,
            GivenKeys {
                auto_format: false,
                diagnostic_severity: false,
                language_servers: false,
                persistent_diagnostic_sources: false,
            },
        ) == current,
{
}

/// Applying the same update twice gives what applying it once gives.
pub proof fn law_update_idempotent<V>(current: LanguageConfig<V>, given: LanguageConfig<V>, keys: GivenKeys)
    ensures
        merged(merged(current, given, keys), given, keys) == merged(current, given, keys),
{
}


/// What an update gives replaces what the language had, and what it leaves out
/// is kept: each optional setting the update gives (`Some`) is taken from it and
/// each it does not give is kept; each list the update gives non-empty is taken
/// from it, an empty one is kept; each plain setting the script named is taken
/// from it, the others are kept; the scope is the update's; the language id stays.
pub proof fn law_update_takes_given_keeps_rest<V>(current: LanguageConfig<V>, given: LanguageConfig<V>, keys: GivenKeys)
    ensures
        merged(current, given, keys).language_id == current.language_id,
        merged(current, given, keys).scope == given.scope,
        given.language_server_language_id is Some ==> merged(current, given, keys).language_server_language_id == given.language_server_language_id,
        given.language_server_language_id is None ==> merged(current, given, keys).language_server_language_id == current.language_server_language_id,
        given.comment_tokens is Some ==> merged(current, given, keys).comment_tokens == given.comment_tokens,
        given.comment_tokens is None ==> merged(current, given, keys).comment_tokens == current.comment_tokens,
        given.block_comment_tokens is Some ==> merged(current, given, keys).block_comment_tokens == given.block_comment_tokens,
        given.block_comment_tokens is None ==> merged(current, given, keys).block_comment_tokens == current.block_comment_tokens,
        given.text_width is Some ==> merged(current, given, keys).text_width == given.text_width,
        given.text_width is None ==> merged(current, given, keys).text_width == current.text_width,
        given.soft_wrap is Some ==> merged(current, given, keys).soft_wrap == given.soft_wrap,
        given.soft_wrap is None ==> merged(current, given, keys).soft_wrap == current.soft_wrap,
        given.formatter is Some ==> merged(current, given, keys).formatter == given.formatter,
        given.formatter is None ==> merged(current, given, keys).formatter == current.formatter,
        given.path_completion is Some ==> merged(current, given, keys).path_completion == given.path_completion,
        given.path_completion is None ==> merged(current, given, keys).path_completion == current.path_completion,
        given.grammar is Some ==> merged(current, given, keys).grammar == given.grammar,
        given.grammar is None ==> merged(current, given, keys).grammar == current.grammar,
        given.injection_regex is Some ==> merged(current, given, keys).injection_regex == given.injection_regex,
        given.injection_regex is None ==> merged(current, given, keys).injection_regex == current.injection_regex,
        given.indent is Some ==> merged(current, given, keys).indent == given.indent,
        given.indent is None ==> merged(current, given, keys).indent == current.indent,
        given.debugger is Some ==> merged(current, given, keys).debugger == given.debugger,
        given.debugger is None ==> merged(current, given, keys).debugger == current.debugger,
        given.auto_pairs is Some ==> merged(current, given, keys).auto_pairs == given.auto_pairs,
        given.auto_pairs is None ==> merged(current, given, keys).auto_pairs == current.auto_pairs,
        given.rulers is Some ==> merged(current, given, keys).rulers == given.rulers,
        given.rulers is None ==> merged(current, given, keys).rulers == current.rulers,
        given.workspace_lsp_roots is Some ==> merged(current, given, keys).workspace_lsp_roots == given.workspace_lsp_roots,
        given.workspace_lsp_roots is None ==> merged(current, given, keys).workspace_lsp_roots == current.workspace_lsp_roots,
        given.rainbow_brackets is Some ==> merged(current, given, keys).rainbow_brackets == given.rainbow_brackets,
        given.rainbow_brackets is None ==> merged(current, given, keys).rainbow_brackets == current.rainbow_brackets,
        given.file_types@.len() > 0 ==> merged(current, given, keys).file_types == given.file_types,
        given.file_types@.len() == 0 ==> merged(current, given, keys).file_types == current.file_types,
        given.shebangs@.len() > 0 ==> merged(current, given, keys).shebangs == given.shebangs,
        given.shebangs@.len() == 0 ==> merged(current, given, keys).shebangs == current.shebangs,
        given.roots@.len() > 0 ==> merged(current, given, keys).roots == given.roots,
        given.roots@.len() == 0 ==> merged(current, given, keys).roots == current.roots,
        keys.auto_format ==> merged(current, given, keys).auto_format == given.auto_format,
        !keys.auto_format ==> merged(current, given, keys).auto_format == current.auto_format,
        keys.diagnostic_severity ==> merged(current, given, keys).diagnostic_severity == given.diagnostic_severity,
        !keys.diagnostic_severity ==> merged(current, given, keys).diagnostic_severity == current.diagnostic_severity,
        keys.language_servers ==> merged(current, given, keys).language_servers == given.language_servers,
        !keys.language_servers ==> merged(current, given, keys).language_servers == current.language_servers,
        keys.persistent_diagnostic_sources ==> merged(current, given, keys).persistent_diagnostic_sources == given.persistent_diagnostic_sources,
        !keys.persistent_diagnostic_sources ==> merged(current, given, keys).persistent_diagnostic_sources == current.persistent_diagnostic_sources,
{
}

} // verus!
