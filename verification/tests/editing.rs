use helix_term::editing::{
    add_inlay_hint, cx_pos_within_text, goto_line_target, inlay_hint_window, remove_inlay_hint, remove_inlay_hint_by_id,
    InlayHints, InlineAnnotation, Range,
};

#[test]
fn cursor_of_a_range() {
    assert_eq!(cx_pos_within_text(Range { anchor: 2, head: 6 }, 5), 5);
    assert_eq!(cx_pos_within_text(Range { anchor: 6, head: 2 }, 1), 2);
    assert_eq!(cx_pos_within_text(Range { anchor: 4, head: 4 }, 3), 4);
}

#[test]
fn goto_line() {
    assert_eq!(goto_line_target(1, 10), 0);
    assert_eq!(goto_line_target(5, 10), 4);
    assert_eq!(goto_line_target(50, 10), 9);
    assert_eq!(goto_line_target(0, 10), 0);
    assert_eq!(goto_line_target(3, 0), 0);
}

#[test]
fn inlay_hints() {
    let hint = |t: &str, i: usize| InlineAnnotation { text: t.to_string(), char_idx: i };
    let mut hints = Some(vec![hint("a", 1), hint("b", 4), hint("c", 1), hint("d", 9)]);
    assert!(remove_inlay_hint(&mut hints, 1));
    assert_eq!(hints, Some(vec![hint("b", 4), hint("d", 9)]));
    assert!(remove_inlay_hint(&mut hints, 5));
    assert_eq!(hints.as_ref().map(|h| h.len()), Some(2));
    let mut none: Option<Vec<InlineAnnotation>> = None;
    assert!(!remove_inlay_hint(&mut none, 1));
    assert_eq!(none, None);
}

#[test]
fn hint_windows() {
    assert_eq!(inlay_hint_window(100, 30, 1000), (70, 160));
    assert_eq!(inlay_hint_window(10, 30, 1000), (0, 70));
    assert_eq!(inlay_hint_window(100, 30, 120), (70, 120));
    assert_eq!(inlay_hint_window(5, usize::MAX, 50), (0, 50));
}

#[test]
fn adding_and_clearing_hints() {
    let mut hints: Option<InlayHints> = None;
    assert_eq!(add_inlay_hint(&mut hints, (2, 40), 7, "x".to_string()), (2, 40));
    assert_eq!(add_inlay_hint(&mut hints, (9, 9), 8, "y".to_string()), (2, 40));
    let h = hints.as_ref().unwrap();
    assert_eq!((h.first_line, h.last_line), (2, 40));
    assert_eq!(h.other_inlay_hints.len(), 2);
    assert_eq!(h.other_inlay_hints[1], InlineAnnotation { text: "y".to_string(), char_idx: 8 });
    assert!(!remove_inlay_hint_by_id(&mut hints, 2, 41, (0, 10)));
    assert_eq!(hints.as_ref().unwrap().other_inlay_hints.len(), 2);
    assert!(remove_inlay_hint_by_id(&mut hints, 2, 40, (0, 10)));
    assert_eq!(hints, Some(InlayHints { first_line: 0, last_line: 10, other_inlay_hints: vec![] }));
    let mut none: Option<InlayHints> = None;
    assert!(!remove_inlay_hint_by_id(&mut none, 0, 10, (0, 10)));
    assert_eq!(none, None);
}
