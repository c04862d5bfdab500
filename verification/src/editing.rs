//! Small editing rules used by the scripting API: where the cursor of a selection
//! range sits, which line a jump goes to, and removing inlay hints.
use vstd::prelude::*;

verus! {

/// A selection range: the anchor stays put, the head moves.
#[derive(Debug, Clone, Copy, PartialEq, Eq)]
pub struct Range {
    pub anchor: usize,
    pub head: usize,
}

/// The position of the cursor of the primary selection range, given the grapheme
/// boundary just before the range's head (computed on the document's text): a
/// forward range's cursor sits on the last grapheme it covers, so one grapheme
/// before the head; otherwise the cursor is at the head.
pub fn cx_pos_within_text(primary: Range, prev_boundary_of_head: usize) -> (r: usize)
    ensures
        r == if primary.head > primary.anchor { prev_boundary_of_head } else { primary.head },
{
    if primary.head > primary.anchor {
        prev_boundary_of_head
    } else {
        primary.head
    }
}

/// The (0-based) line a jump to the 1-based `line` goes to, in a text of
/// `len_lines` lines: lines past the end go to the last line, line 0 to the first.
pub fn goto_line_target(line: usize, len_lines: usize) -> (r: usize)
    ensures
        r == (if line > len_lines {
            if len_lines == 0 { 0 } else { len_lines - 1 }
        } else {
            if line == 0 { 0 } else { line - 1 }
        }),
{
    let line = if line > len_lines { len_lines } else { line };
    line.saturating_sub(1)
}

/// A piece of text shown inline at a character position.
#[derive(Debug, PartialEq, Eq)]
pub struct InlineAnnotation {
    pub text: String,
    pub char_idx: usize,
}

/// The annotations that are not at `char_index`, in order.
pub open spec fn without_position(hints: Seq<InlineAnnotation>, char_index: usize) -> Seq<InlineAnnotation>
    decreases hints.len(),
{
    if hints.len() == 0 {
        Seq::empty()
    } else if hints[0].char_idx == char_index {
        without_position(hints.drop_first(), char_index)
    } else {
        seq![hints[0]] + without_position(hints.drop_first(), char_index)
    }
}

/// Removes the inlay hints at a character position from the hints that the
/// focused view's document holds for that view (`None` when the view, its document
/// or its hints are missing), keeping the others in order. Returns whether there
/// were hints to edit; when there were none, nothing changes.
pub fn remove_inlay_hint(hints: &mut Option<Vec<InlineAnnotation>>, char_index: usize) -> (r: bool)
    ensures
        r == (*old(hints) is Some),
        match *old(hints) {
            None => (*final(hints)) is None,
            Some(v) => (*final(hints)) matches Some(w) && w@ == without_position(v@, char_index),
        },
{
    match hints.take() {
        None => false,
        Some(mut v) => {
            retain_other_positions(&mut v, char_index);
            *hints = Some(v);
            true
        },
    }
}

fn retain_other_positions(hints: &mut Vec<InlineAnnotation>, char_index: usize)
    ensures
        final(hints)@ == without_position(old(hints)@, char_index),
{
    let mut kept: Vec<InlineAnnotation> = Vec::new();
    let ghost all = hints@;
    while hints.len() > 0
        invariant
            all == old(hints)@,
            without_position(all, char_index) == kept@ + without_position(hints@, char_index),
        decreases hints@.len(),
    {
        let ghost before = hints@;
        let ghost k0 = kept@;
        let h = hints.remove(0);
        assert(before.drop_first() =~= hints@);
        if h.char_idx != char_index {
            kept.push(h);
            assert(k0 + (seq![h] + without_position(hints@, char_index))
                =~= kept@ + without_position(hints@, char_index));
        }
    }
    assert(kept@ + without_position(hints@, char_index) =~= kept@);
    *hints = kept;
}

/// The inlay hints a document holds for a view: the lines they were computed for,
/// and the hints added by scripts.
#[derive(Debug, PartialEq, Eq)]
pub struct InlayHints {
    pub first_line: usize,
    pub last_line: usize,
    pub other_inlay_hints: Vec<InlineAnnotation>,
}

/// `a - b`, or 0 below it.
pub open spec fn sat_sub(a: usize, b: usize) -> usize {
    if a >= b { (a - b) as usize } else { 0 }
}

/// `a + b`, or `usize::MAX` above it.
pub open spec fn sat_add(a: usize, b: usize) -> usize {
    if a + b > usize::MAX { usize::MAX } else { (a + b) as usize }
}

/// The lines new inlay hints are computed for: from one view height above the
/// first visible line to two view heights below it, within the text.
pub open spec fn hint_window(first_visible_line: usize, view_height: usize, len_lines: usize) -> (usize, usize) {
    let twice = sat_add(view_height, view_height);
    let last = sat_add(first_visible_line, twice);
    (sat_sub(first_visible_line, view_height), if last < len_lines { last } else { len_lines })
}

/// The lines new inlay hints are computed for (see `hint_window`).
pub fn inlay_hint_window(first_visible_line: usize, view_height: usize, len_lines: usize) -> (r: (usize, usize))
    ensures
        r == hint_window(first_visible_line, view_height, len_lines),
{
    let first = if first_visible_line >= view_height { first_visible_line - view_height } else { 0 };
    let twice = if view_height > usize::MAX - view_height { usize::MAX } else { view_height + view_height };
    let last = if first_visible_line > usize::MAX - twice { usize::MAX } else { first_visible_line + twice };
    (first, if last < len_lines { last } else { len_lines })
}

/// Adds a script's inlay hint at a character position to the hints the focused
/// view's document holds for it, starting from empty hints over `window` (see
/// `inlay_hint_window`) when it holds none. Returns the lines the hints are for.
pub fn add_inlay_hint(hints: &mut Option<InlayHints>, window: (usize, usize), char_index: usize, text: String) -> (r: (usize, usize))
    ensures
        match *old(hints) {
            Some(h) => {
                &&& r == (h.first_line, h.last_line)
                &&& (*final(hints)) matches Some(n) && n.first_line == h.first_line && n.last_line == h.last_line
                    && n.other_inlay_hints@ == h.other_inlay_hints@.push(InlineAnnotation { text, char_idx: char_index })
            },
            None => {
                &&& r == window
                &&& (*final(hints)) matches Some(n) && n.first_line == window.0 && n.last_line == window.1
                    && n.other_inlay_hints@ == seq![InlineAnnotation { text, char_idx: char_index }]
            },
        },
{
    let mut h = match hints.take() {
        Some(h) => h,
        None => InlayHints { first_line: window.0, last_line: window.1, other_inlay_hints: Vec::new() },
    };
    h.other_inlay_hints.push(InlineAnnotation { text, char_idx: char_index });
    let r = (h.first_line, h.last_line);
    *hints = Some(h);
    r
}

/// Clears the hints the focused view's document holds for it when they are the
/// ones computed for the lines `first_line..last_line`, putting empty hints over
/// `window` in their place. Returns whether it did; otherwise nothing changes.
pub fn remove_inlay_hint_by_id(hints: &mut Option<InlayHints>, first_line: usize, last_line: usize, window: (usize, usize)) -> (r: bool)
    ensures
        r == (match *old(hints) {
            Some(h) => h.first_line == first_line && h.last_line == last_line,
            None => false,
        }),
        r ==> ((*final(hints)) matches Some(n) && n.first_line == window.0 && n.last_line == window.1
            && n.other_inlay_hints@.len() == 0),
        !r ==> *final(hints) == *old(hints),
{
    let matches = match hints {
        Some(h) => h.first_line == first_line && h.last_line == last_line,
        None => false,
    };
    if matches {
        *hints = Some(InlayHints { first_line: window.0, last_line: window.1, other_inlay_hints: Vec::new() });
    }
    matches
}

} // verus!
