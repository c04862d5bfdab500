//! The decisions behind the Copilot commands.
//!
//! The Copilot language server is driven by the editor; here stand the rules that
//! decide what the commands do with its answers: which message to show, whether a
//! suggestion is still current, which part of a suggestion is shown as ghost text,
//! and where the cursor lands when a suggestion is accepted.
use vstd::prelude::*;

use crate::text::{chars_of, push_char, push_str, str_eq};

verus! {

broadcast use vstd::string::group_string_axioms;

/// What signing in does with the server's answer.
#[derive(Debug, PartialEq, Eq)]
pub enum SignInOutcome {
    /// The user has to authorize this device: show the message and wait for the
    /// device flow to finish.
    DeviceFlow { message: String },
    /// The user is signed in already.
    AlreadySignedIn,
    /// The server answered with a status this editor does not know: show the
    /// message.
    Unexpected { message: String },
}

/// The message shown when a status check says the user is signed in already.
pub fn already_signed_in_message(user: Option<&str>) -> (r: String)
    ensures
        r@ == "Copilot: already signed in as "@ + (match user {
            Some(u) => u@,
            None => Seq::empty(),
        }),
{
    let mut s = String::new();
    push_str(&mut s, "Copilot: already signed in as ");
    match user {
        Some(u) => push_str(&mut s, u),
        None => {},
    }
    s
}

/// The page on which the user authorizes a device when the server names none.
pub open spec fn default_verification_uri() -> Seq<char> {
    "https://github.com/login/device"@
}

/// What signing in does with the sign-in answer's status, device code and
/// verification page.
pub fn sign_in_outcome(status: &str, user_code: Option<&str>, verification_uri: Option<&str>) -> (r: SignInOutcome)
    ensures
        status@ == "PromptUserDeviceFlow"@ ==> (r matches SignInOutcome::DeviceFlow { message } && message@
            == "Copilot: open "@ + (match verification_uri {
            Some(u) => u@,
            None => default_verification_uri(),
        }) + " and enter code "@ + (match user_code {
            Some(c) => c@,
            None => Seq::empty(),
        })),
        status@ != "PromptUserDeviceFlow"@ && status@ == "AlreadySignedIn"@ ==> r
            == SignInOutcome::AlreadySignedIn,
        status@ != "PromptUserDeviceFlow"@ && status@ != "AlreadySignedIn"@ ==> (r matches SignInOutcome::Unexpected {
            message,
        } && message@ == "Copilot: unexpected sign-in status '"@ + status@ + "'"@),
{
    if str_eq(status, "PromptUserDeviceFlow") {
        let mut m = String::new();
        push_str(&mut m, "Copilot: open ");
        match verification_uri {
            Some(u) => push_str(&mut m, u),
            None => push_str(&mut m, "https://github.com/login/device"),
        }
        push_str(&mut m, " and enter code ");
        match user_code {
            Some(c) => push_str(&mut m, c),
            None => {},
        }
        SignInOutcome::DeviceFlow { message: m }
    } else if str_eq(status, "AlreadySignedIn") {
        SignInOutcome::AlreadySignedIn
    } else {
        let mut m = String::new();
        push_str(&mut m, "Copilot: unexpected sign-in status '");
        push_str(&mut m, status);
        push_str(&mut m, "'");
        SignInOutcome::Unexpected { message: m }
    }
}

/// The message of `:copilot-status`.
pub fn status_message(signed_in: bool, user: Option<&str>, enabled: bool) -> (r: String)
    ensures
        r@ == if signed_in {
            "Copilot: signed in as "@ + (match user {
                Some(u) => u@,
                None => Seq::empty(),
            }) + " ("@ + (if enabled { "enabled"@ } else { "disabled"@ }) + ")"@
        } else {
            "Copilot: not signed in ("@ + (if enabled { "enabled"@ } else { "disabled"@ })
                + ", run :copilot-signin)"@
        },
{
    let mut s = String::new();
    if signed_in {
        push_str(&mut s, "Copilot: signed in as ");
        match user {
            Some(u) => push_str(&mut s, u),
            None => {},
        }
        push_str(&mut s, " (");
        if enabled {
            push_str(&mut s, "enabled");
        } else {
            push_str(&mut s, "disabled");
        }
        push_str(&mut s, ")");
    } else {
        push_str(&mut s, "Copilot: not signed in (");
        if enabled {
            push_str(&mut s, "enabled");
        } else {
            push_str(&mut s, "disabled");
        }
        push_str(&mut s, ", run :copilot-signin)");
    }
    s
}

/// What `:copilot-toggle` does.
#[derive(Debug, PartialEq, Eq)]
pub struct ToggleOutcome {
    /// Whether Copilot is enabled afterwards.
    pub enabled: bool,
    /// The status message.
    pub message: &'static str,
    /// Whether the focused document's suggestion is cleared.
    pub clear_suggestion: bool,
    /// Whether the server is started now, so that the first suggestion is fast.
    pub start_client: bool,
}

/// `:copilot-toggle`: flips whether Copilot is enabled; disabling clears the
/// visible suggestion, enabling starts the server if it is not running.
pub fn copilot_toggle(enabled: bool, has_client: bool) -> (r: ToggleOutcome)
    ensures
        r.enabled == !enabled,
        !r.enabled ==> r == (ToggleOutcome {
            enabled: false,
            message: "Copilot: disabled",
            clear_suggestion: true,
            start_client: false,
        }),
        r.enabled ==> r == (ToggleOutcome {
            enabled: true,
            message: "Copilot: enabled",
            clear_suggestion: false,
            start_client: !has_client,
        }),
{
    let enabled = !enabled;
    if !enabled {
        return ToggleOutcome {
            enabled: false,
            message: "Copilot: disabled",
            clear_suggestion: true,
            start_client: false,
        };
    }
    ToggleOutcome {
        enabled: true,
        message: "Copilot: enabled",
        clear_suggestion: false,
        start_client: !has_client,
    }
}

/// Whether a suggestion may be requested for the focused document, or the status
/// message to show: Copilot must be enabled and the buffer saved to disk.
pub fn copilot_request_completion(enabled: bool, has_url: bool) -> (r: Result<(), &'static str>)
    ensures
        !enabled ==> r == Err::<(), &'static str>("Copilot is disabled (run :copilot-toggle to enable)"),
        enabled && !has_url ==> r == Err::<(), &'static str>("Copilot: the buffer must be saved to disk first"),
        enabled && has_url ==> r is Ok,
{
    if !enabled {
        return Err("Copilot is disabled (run :copilot-toggle to enable)");
    }
    if !has_url {
        return Err("Copilot: the buffer must be saved to disk first");
    }
    Ok(())
}

/// Dismisses the active inline suggestion of a document without inserting it.
pub fn copilot_dismiss_completion<T>(suggestion: &mut Option<T>)
    ensures
        *final(suggestion) is None,
{
    *suggestion = None;
}

/// Where the cursor lands after accepting a suggestion that replaces the text from
/// `start` with `text`: just after the inserted text. `None` when the suggestion
/// was made for another view, which leaves it alone.
pub fn copilot_apply_completion(suggestion_view: usize, current_view: usize, start: usize, text: &str) -> (r: Option<usize>)
    requires
        start + text@.len() <= usize::MAX,
    ensures
        suggestion_view != current_view ==> r is None,
        suggestion_view == current_view ==> r == Some((start + text@.len()) as usize),
{
    if suggestion_view != current_view {
        return None;
    }
    let n = crate::text::chars_of(text).len();
    Some(start + n)
}

/// Whether a suggestion requested at one document version may still be shown.
pub fn suggestion_is_current(document_version: i32, requested_version: i32) -> (r: bool)
    ensures
        r == (document_version == requested_version),
{
    document_version == requested_version
}

/// The range a suggestion replaces: the positions it names (each falling back to
/// the cursor when it does not lie in the document), or the empty range at the
/// cursor when it names none.
pub fn suggestion_range(cursor: usize, range: Option<(Option<usize>, Option<usize>)>) -> (r: (usize, usize))
    ensures
        r == match range {
            Some((s, e)) => (
                match s {
                    Some(x) => x,
                    None => cursor,
                },
                match e {
                    Some(x) => x,
                    None => cursor,
                },
            ),
            None => (cursor, cursor),
        },
{
    match range {
        Some((s, e)) => (s.unwrap_or(cursor), e.unwrap_or(cursor)),
        None => (cursor, cursor),
    }
}

/// The characters of `s` before its first newline (all of `s` without one).
pub open spec fn first_line(s: Seq<char>) -> Seq<char>
    decreases s.len(),
{
    if s.len() == 0 || s[0] == '\n' {
        Seq::empty()
    } else {
        seq![s[0]] + first_line(s.subrange(1, s.len() as int))
    }
}

/// The ghost text shown for a suggestion: the first line of the part of the
/// suggested text not typed yet (the characters from the range's start up to the
/// cursor are typed already).
pub open spec fn ghost_text(insert_text: Seq<char>, cursor: usize, range_start: usize) -> Seq<char> {
    let typed = if cursor >= range_start { cursor - range_start } else { 0 };
    let rest = if typed <= insert_text.len() {
        insert_text.subrange(typed as int, insert_text.len() as int)
    } else {
        Seq::empty()
    };
    first_line(rest)
}

/// The ghost text of a suggestion, or `None` when it is empty (nothing is shown).
pub fn suggestion_ghost_text(insert_text: &str, cursor: usize, range_start: usize) -> (r: Option<String>)
    ensures
        match r {
            Some(g) => g@ == ghost_text(insert_text@, cursor, range_start) && g@.len() > 0,
            None => ghost_text(insert_text@, cursor, range_start).len() == 0,
        },
{
    let chars = chars_of(insert_text);
    let n = chars.len();
    let typed = cursor.saturating_sub(range_start);
    let mut i: usize = if typed <= n { typed } else { n };
    let ghost rest = if typed <= n {
        insert_text@.subrange(typed as int, n as int)
    } else {
        Seq::<char>::empty()
    };
    assert(rest =~= chars@.subrange(i as int, n as int));
    let mut g = String::new();
    while i < n && chars[i] != '\n'
        invariant
            chars@ == insert_text@,
            n == chars@.len(),
            i <= n,
            g@ + first_line(chars@.subrange(i as int, n as int)) == first_line(rest),
        decreases n - i,
    {
        let ghost before = g@;
        let ghost tail = chars@.subrange(i as int, n as int);
        assert(tail.subrange(1, tail.len() as int) =~= chars@.subrange(i + 1, n as int));
        push_char(&mut g, chars[i]);
        assert(before + (seq![chars@[i as int]] + first_line(chars@.subrange(i + 1, n as int)))
            =~= g@ + first_line(chars@.subrange(i + 1, n as int)));
        i += 1;
    }
    assert(g@ + Seq::<char>::empty() =~= g@);
    if g.as_str().is_empty() {
        None
    } else {
        Some(g)
    }
}

} // verus!
