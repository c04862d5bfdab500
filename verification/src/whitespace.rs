//! The scripting API's whitespace rendering settings.
//!
//! A script sets which whitespace characters are drawn (`ws_visible`,
//! `ws_render`) and with which characters (`ws_chars`). Settings are given as
//! `(key, value)` entries; the keys are `space`, `tab`, `nbsp`, `nnbsp`,
//! `newline`, and `default` (for rendering) or `tabpad` (for characters).
use vstd::prelude::*;

use crate::text::{push_str, str_eq};

verus! {

/// Whether a kind of whitespace is drawn.
#[derive(Debug, Clone, Copy, PartialEq, Eq)]
pub enum WhitespaceRenderValue {
    /// Not drawn (the editor's `none`).
    Hidden,
    /// Drawn.
    All,
}

/// Which kinds of whitespace are drawn, each unset one following `default`.
#[derive(Debug, Clone, Copy, PartialEq, Eq)]
pub struct RenderFlags {
    pub default: Option<WhitespaceRenderValue>,
    pub space: Option<WhitespaceRenderValue>,
    pub nbsp: Option<WhitespaceRenderValue>,
    pub nnbsp: Option<WhitespaceRenderValue>,
    pub tab: Option<WhitespaceRenderValue>,
    pub newline: Option<WhitespaceRenderValue>,
}

/// How whitespace is drawn: all kinds alike, or kind by kind.
#[derive(Debug, Clone, Copy, PartialEq, Eq)]
pub enum WhitespaceRender {
    Basic(WhitespaceRenderValue),
    Specific(RenderFlags),
}

/// The characters whitespace is drawn with.
#[derive(Debug, Clone, Copy, PartialEq, Eq)]
pub struct WhitespaceCharacters {
    pub space: char,
    pub nbsp: char,
    pub nnbsp: char,
    pub tab: char,
    pub tabpad: char,
    pub newline: char,
}

/// A setting key that names no whitespace setting.
#[derive(Debug, PartialEq, Eq)]
pub enum WhitespaceKeyError {
    Unrecognized(String),
}

impl WhitespaceKeyError {
    /// The text that describes the error to the user.
    pub fn to_string(&self) -> (r: String)
        ensures
            r@ == "Unrecognized key: "@ + match self {
                WhitespaceKeyError::Unrecognized(k) => k@,
            },
    {
        let mut t = String::new();
        push_str(&mut t, "Unrecognized key: ");
        match self {
            WhitespaceKeyError::Unrecognized(k) => push_str(&mut t, k.as_str()),
        }
        t
    }
}

/// The drawing value of a boolean setting.
pub open spec fn render_value(on: bool) -> WhitespaceRenderValue {
    if on {
        WhitespaceRenderValue::All
    } else {
        WhitespaceRenderValue::Hidden
    }
}

/// Draws all whitespace, or none.
pub fn ws_visible(render: &mut WhitespaceRender, option: bool)
    ensures
        *final(render) == WhitespaceRender::Basic(render_value(option)),
{
    let value = if option {
        WhitespaceRenderValue::All
    } else {
        WhitespaceRenderValue::Hidden
    };
    *render = WhitespaceRender::Basic(value);
}

/// The flags a kind-by-kind setting starts from: every kind as drawn now when all
/// are drawn alike, else none set.
pub open spec fn base_flags(render: WhitespaceRender) -> RenderFlags {
    match render {
        WhitespaceRender::Basic(v) => RenderFlags {
            default: Some(v),
            space: Some(v),
            nbsp: Some(v),
            nnbsp: Some(v),
            tab: Some(v),
            newline: Some(v),
        },
        WhitespaceRender::Specific(_) => RenderFlags {
            default: None,
            space: None,
            nbsp: None,
            nnbsp: None,
            tab: None,
            newline: None,
        },
    }
}

/// The flags with the one that `key` names set, if `key` names one.
pub open spec fn set_render_flag(f: RenderFlags, key: Seq<char>, on: bool) -> Option<RenderFlags> {
    let v = Some(render_value(on));
    if key == "space"@ {
        Some(RenderFlags { space: v, ..f })
    } else if key == "tab"@ {
        Some(RenderFlags { tab: v, ..f })
    } else if key == "nbsp"@ {
        Some(RenderFlags { nbsp: v, ..f })
    } else if key == "nnbsp"@ {
        Some(RenderFlags { nnbsp: v, ..f })
    } else if key == "newline"@ {
        Some(RenderFlags { newline: v, ..f })
    } else if key == "default"@ {
        Some(RenderFlags { default: v, ..f })
    } else {
        None
    }
}

/// The flags after the entries, in order, or the first key that names no flag.
pub open spec fn apply_render(f: RenderFlags, entries: Seq<(String, bool)>) -> Result<RenderFlags, Seq<char>>
    decreases entries.len(),
{
    if entries.len() == 0 {
        Ok(f)
    } else {
        match set_render_flag(f, entries[0].0@, entries[0].1) {
            None => Err(entries[0].0@),
            Some(g) => apply_render(g, entries.drop_first()),
        }
    }
}

fn set_render_flag_exec(f: RenderFlags, key: &str, on: bool) -> (r: Option<RenderFlags>)
    ensures
        r == set_render_flag(f, key@, on),
{
    let v = Some(if on {
        WhitespaceRenderValue::All
    } else {
        WhitespaceRenderValue::Hidden
    });
    if str_eq(key, "space") {
        Some(RenderFlags { space: v, ..f })
    } else if str_eq(key, "tab") {
        Some(RenderFlags { tab: v, ..f })
    } else if str_eq(key, "nbsp") {
        Some(RenderFlags { nbsp: v, ..f })
    } else if str_eq(key, "nnbsp") {
        Some(RenderFlags { nnbsp: v, ..f })
    } else if str_eq(key, "newline") {
        Some(RenderFlags { newline: v, ..f })
    } else if str_eq(key, "default") {
        Some(RenderFlags { default: v, ..f })
    } else {
        None
    }
}

/// Draws whitespace kind by kind, starting from `base_flags` and setting each
/// entry's kind in turn. An unrecognized key leaves the setting as it was.
pub fn ws_render(render: &mut WhitespaceRender, entries: &Vec<(String, bool)>) -> (r: Result<(), WhitespaceKeyError>)
    ensures
        match apply_render(base_flags(*old(render)), entries@) {
            Ok(f) => r is Ok && *final(render) == WhitespaceRender::Specific(f),
            Err(k) => r matches Err(WhitespaceKeyError::Unrecognized(key)) && key@ == k && *final(render)
                == *old(render),
        },
{
    let mut flags = match *render {
        WhitespaceRender::Basic(v) => RenderFlags {
            default: Some(v),
            space: Some(v),
            nbsp: Some(v),
            nnbsp: Some(v),
            tab: Some(v),
            newline: Some(v),
        },
        WhitespaceRender::Specific(_) => RenderFlags {
            default: None,
            space: None,
            nbsp: None,
            nnbsp: None,
            tab: None,
            newline: None,
        },
    };
    let ghost goal = apply_render(base_flags(*old(render)), entries@);
    let mut i: usize = 0;
    assert(entries@.skip(0) =~= entries@);
    while i < entries.len()
        invariant
            i <= entries@.len(),
            goal == apply_render(base_flags(*old(render)), entries@),
            *render == *old(render),
            goal == apply_render(flags, entries@.skip(i as int)),
        decreases entries@.len() - i,
    {
        assert(entries@.skip(i as int).drop_first() =~= entries@.skip(i + 1));
        assert(entries@.skip(i as int)[0] == entries@[i as int]);
        match set_render_flag_exec(flags, entries[i].0.as_str(), entries[i].1) {
            None => {
                return Err(WhitespaceKeyError::Unrecognized(entries[i].0.clone()));
            },
            Some(g) => {
                flags = g;
            },
        }
        i += 1;
    }
    *render = WhitespaceRender::Specific(flags);
    Ok(())
}

/// The characters with the one that `key` names set, if `key` names one.
pub open spec fn set_character(c: WhitespaceCharacters, key: Seq<char>, ch: char) -> Option<WhitespaceCharacters> {
    if key == "space"@ {
        Some(WhitespaceCharacters { space: ch, ..c })
    } else if key == "tab"@ {
        Some(WhitespaceCharacters { tab: ch, ..c })
    } else if key == "nbsp"@ {
        Some(WhitespaceCharacters { nbsp: ch, ..c })
    } else if key == "nnbsp"@ {
        Some(WhitespaceCharacters { nnbsp: ch, ..c })
    } else if key == "newline"@ {
        Some(WhitespaceCharacters { newline: ch, ..c })
    } else if key == "tabpad"@ {
        Some(WhitespaceCharacters { tabpad: ch, ..c })
    } else {
        None
    }
}

/// The characters after the entries, in order, up to the first key that names no
/// character: the characters set before it, and that key.
pub open spec fn apply_characters(c: WhitespaceCharacters, entries: Seq<(String, char)>) -> (
    WhitespaceCharacters,
    Option<Seq<char>>,
)
    decreases entries.len(),
{
    if entries.len() == 0 {
        (c, None)
    } else {
        match set_character(c, entries[0].0@, entries[0].1) {
            None => (c, Some(entries[0].0@)),
            Some(d) => apply_characters(d, entries.drop_first()),
        }
    }
}

fn set_character_exec(c: WhitespaceCharacters, key: &str, ch: char) -> (r: Option<WhitespaceCharacters>)
    ensures
        r == set_character(c, key@, ch),
{
    if str_eq(key, "space") {
        Some(WhitespaceCharacters { space: ch, ..c })
    } else if str_eq(key, "tab") {
        Some(WhitespaceCharacters { tab: ch, ..c })
    } else if str_eq(key, "nbsp") {
        Some(WhitespaceCharacters { nbsp: ch, ..c })
    } else if str_eq(key, "nnbsp") {
        Some(WhitespaceCharacters { nnbsp: ch, ..c })
    } else if str_eq(key, "newline") {
        Some(WhitespaceCharacters { newline: ch, ..c })
    } else if str_eq(key, "tabpad") {
        Some(WhitespaceCharacters { tabpad: ch, ..c })
    } else {
        None
    }
}

/// Sets the characters whitespace is drawn with, entry by entry. At an
/// unrecognized key it stops: the entries before it stay set.
pub fn ws_chars(chars: &mut WhitespaceCharacters, entries: &Vec<(String, char)>) -> (r: Result<(), WhitespaceKeyError>)
    ensures
        *final(chars) == apply_characters(*old(chars), entries@).0,
        match apply_characters(*old(chars), entries@).1 {
            None => r is Ok,
            Some(k) => r matches Err(WhitespaceKeyError::Unrecognized(key)) && key@ == k,
        },
{
    let ghost goal = apply_characters(*old(chars), entries@);
    let mut i: usize = 0;
    assert(entries@.skip(0) =~= entries@);
    while i < entries.len()
        invariant
            i <= entries@.len(),
            goal == apply_characters(*old(chars), entries@),
            goal == apply_characters(*chars, entries@.skip(i as int)),
        decreases entries@.len() - i,
    {
        assert(entries@.skip(i as int).drop_first() =~= entries@.skip(i + 1));
        assert(entries@.skip(i as int)[0] == entries@[i as int]);
        match set_character_exec(*chars, entries[i].0.as_str(), entries[i].1) {
            None => {
                return Err(WhitespaceKeyError::Unrecognized(entries[i].0.clone()));
            },
            Some(d) => {
                *chars = d;
            },
        }
        i += 1;
    }
    Ok(())
}


/// The rendering flag a key names, if it names one.
pub open spec fn render_flag_of(f: RenderFlags, key: Seq<char>) -> Option<Option<WhitespaceRenderValue>> {
    if key == "space"@ {
        Some(f.space)
    } else if key == "tab"@ {
        Some(f.tab)
    } else if key == "nbsp"@ {
        Some(f.nbsp)
    } else if key == "nnbsp"@ {
        Some(f.nnbsp)
    } else if key == "newline"@ {
        Some(f.newline)
    } else if key == "default"@ {
        Some(f.default)
    } else {
        None
    }
}

/// Setting a rendering key sets exactly the flag of that name to the given value
/// and leaves every other flag as it was; only the six flag names are keys.
pub proof fn law_render_key_sets_its_flag(f: RenderFlags, key: Seq<char>, on: bool)
    ensures
        set_render_flag(f, key, on) is Some <==> render_flag_of(f, key) is Some,
        set_render_flag(f, key, on) matches Some(g) ==> {
            &&& render_flag_of(g, key) == Some(Some(render_value(on)))
            &&& forall|other: Seq<char>| other != key ==> render_flag_of(g, other) == render_flag_of(f, other)
        },
{
    reveal_strlit("space");
    reveal_strlit("tab");
    reveal_strlit("nbsp");
    reveal_strlit("nnbsp");
    reveal_strlit("newline");
    reveal_strlit("default");
    assert("space"@.len() != "tab"@.len());
    assert("space"@.len() != "nbsp"@.len());
    assert("space"@[0] != "nnbsp"@[0]);
    assert("space"@.len() != "newline"@.len());
    assert("space"@.len() != "default"@.len());
    assert("tab"@.len() != "nbsp"@.len());
    assert("tab"@.len() != "nnbsp"@.len());
    assert("tab"@.len() != "newline"@.len());
    assert("tab"@.len() != "default"@.len());
    assert("nbsp"@.len() != "nnbsp"@.len());
    assert("nbsp"@.len() != "newline"@.len());
    assert("nbsp"@.len() != "default"@.len());
    assert("nnbsp"@.len() != "newline"@.len());
    assert("nnbsp"@.len() != "default"@.len());
    assert("newline"@[0] != "default"@[0]);
}

/// The whitespace character a key names, if it names one.
pub open spec fn character_of(c: WhitespaceCharacters, key: Seq<char>) -> Option<char> {
    if key == "space"@ {
        Some(c.space)
    } else if key == "tab"@ {
        Some(c.tab)
    } else if key == "nbsp"@ {
        Some(c.nbsp)
    } else if key == "nnbsp"@ {
        Some(c.nnbsp)
    } else if key == "newline"@ {
        Some(c.newline)
    } else if key == "tabpad"@ {
        Some(c.tabpad)
    } else {
        None
    }
}

/// Setting a character key sets exactly the character of that name and leaves
/// every other as it was; only the six character names are keys.
pub proof fn law_character_key_sets_its_character(c: WhitespaceCharacters, key: Seq<char>, ch: char)
    ensures
        set_character(c, key, ch) is Some <==> character_of(c, key) is Some,
        set_character(c, key, ch) matches Some(d) ==> {
            &&& character_of(d, key) == Some(ch)
            &&& forall|other: Seq<char>| other != key ==> character_of(d, other) == character_of(c, other)
        },
{
    reveal_strlit("space");
    reveal_strlit("tab");
    reveal_strlit("nbsp");
    reveal_strlit("nnbsp");
    reveal_strlit("newline");
    reveal_strlit("tabpad");
    assert("space"@.len() != "tab"@.len());
    assert("space"@.len() != "nbsp"@.len());
    assert("space"@[0] != "nnbsp"@[0]);
    assert("space"@.len() != "newline"@.len());
    assert("space"@.len() != "tabpad"@.len());
    assert("tab"@.len() != "nbsp"@.len());
    assert("tab"@.len() != "nnbsp"@.len());
    assert("tab"@.len() != "newline"@.len());
    assert("tab"@.len() != "tabpad"@.len());
    assert("nbsp"@.len() != "nnbsp"@.len());
    assert("nbsp"@.len() != "newline"@.len());
    assert("nbsp"@.len() != "tabpad"@.len());
    assert("nnbsp"@.len() != "newline"@.len());
    assert("nnbsp"@.len() != "tabpad"@.len());
    assert("newline"@.len() != "tabpad"@.len());
}

} // verus!
