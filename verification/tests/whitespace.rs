use helix_term::whitespace::{
    ws_chars, ws_render, ws_visible, RenderFlags, WhitespaceCharacters, WhitespaceKeyError, WhitespaceRender,
    WhitespaceRenderValue,
};

#[test]
fn visible_draws_all_or_nothing() {
    let mut r = WhitespaceRender::Specific(RenderFlags {
        default: None,
        space: None,
        nbsp: None,
        nnbsp: None,
        tab: None,
        newline: None,
    });
    ws_visible(&mut r, true);
    assert_eq!(r, WhitespaceRender::Basic(WhitespaceRenderValue::All));
    ws_visible(&mut r, false);
    assert_eq!(r, WhitespaceRender::Basic(WhitespaceRenderValue::Hidden));
}

#[test]
fn render_kind_by_kind() {
    let mut r = WhitespaceRender::Basic(WhitespaceRenderValue::Hidden);
    let entries = vec![("space".to_string(), true), ("newline".to_string(), true)];
    assert_eq!(ws_render(&mut r, &entries), Ok(()));
    let h = Some(WhitespaceRenderValue::Hidden);
    let a = Some(WhitespaceRenderValue::All);
    assert_eq!(
        r,
        WhitespaceRender::Specific(RenderFlags { default: h, space: a, nbsp: h, nnbsp: h, tab: h, newline: a })
    );
    // From a kind-by-kind setting, the kinds not given are unset.
    assert_eq!(ws_render(&mut r, &vec![("tab".to_string(), false)]), Ok(()));
    assert_eq!(
        r,
        WhitespaceRender::Specific(RenderFlags { default: None, space: None, nbsp: None, nnbsp: None, tab: h, newline: None })
    );
    let before = r;
    let e = ws_render(&mut r, &vec![("space".to_string(), true), ("tabs".to_string(), true)]).unwrap_err();
    assert_eq!(e, WhitespaceKeyError::Unrecognized("tabs".to_string()));
    assert_eq!(e.to_string(), "Unrecognized key: tabs");
    assert_eq!(r, before);
}

#[test]
fn characters_until_an_unknown_key() {
    let start = WhitespaceCharacters { space: '·', nbsp: '⍽', nnbsp: '␣', tab: '→', tabpad: ' ', newline: '⏎' };
    let mut c = start;
    assert_eq!(ws_chars(&mut c, &vec![("tab".to_string(), '>'), ("tabpad".to_string(), '-')]), Ok(()));
    assert_eq!(c, WhitespaceCharacters { tab: '>', tabpad: '-', ..start });
    let mut c = start;
    let r = ws_chars(&mut c, &vec![("space".to_string(), '.'), ("bogus".to_string(), 'x'), ("tab".to_string(), '>')]);
    assert_eq!(r, Err(WhitespaceKeyError::Unrecognized("bogus".to_string())));
    assert_eq!(c, WhitespaceCharacters { space: '.', ..start });
}
