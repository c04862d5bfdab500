//! The decisions behind the debugger (DAP) commands.
//!
//! Each command reads a little of the running debugger's state (held in
//! `DebuggerState`) and decides what to do: which request to send, or which message
//! to show. The requests themselves, and the editor's pickers and prompts, are the
//! editor's business; here stand the rules that pick between them, the breakpoint
//! list edits, the texts that are shown, and how a debug template's arguments are
//! filled in from the user's parameters.
use vstd::prelude::*;

use crate::text::{decimal, str_eq, parse_usize, parse_usize_spec, push_decimal, push_str, replace, replace_all};

verus! {

broadcast use vstd::string::group_string_axioms;

/// A debugger thread's id.
#[derive(Debug, Clone, Copy, PartialEq, Eq)]
pub struct ThreadId(pub isize);

/// What the debugging commands read of a running debugger.
#[derive(Debug)]
pub struct DebuggerState {
    /// Whether the debug adapter supports restarting a session (if it said so).
    pub supports_restart_request: Option<bool>,
    /// Whether the arguments the session was started with are known.
    pub has_starting_request_args: bool,
    /// The stopped thread that commands act on, if any.
    pub thread_id: Option<ThreadId>,
    /// The index of the stack frame being inspected, if any.
    pub active_frame: Option<usize>,
    /// The exception breakpoint filters the adapter offers, if any.
    pub exception_breakpoint_filters: Option<Vec<String>>,
    /// The ids of each thread's stack frames, innermost first, as the adapter last
    /// reported them; a thread's first entry counts.
    pub stack_frames: Vec<(ThreadId, Vec<usize>)>,
}

/// What a command that acts on the active thread does.
#[derive(Debug, PartialEq, Eq)]
pub enum ThreadDecision {
    /// Send the command's request for this thread.
    Request(ThreadId),
    /// Show this error instead.
    Error(&'static str),
}

/// The message shown when a command needs a stopped thread and none is active.
pub open spec fn not_stopped_message() -> &'static str {
    "Currently active thread is not stopped. Switch the thread."
}

/// The decision of a command that acts on the active thread.
pub open spec fn thread_decision(d: &DebuggerState) -> ThreadDecision {
    match d.thread_id {
        Some(t) => ThreadDecision::Request(t),
        None => ThreadDecision::Error(not_stopped_message()),
    }
}

fn active_thread(debugger: &DebuggerState) -> (r: ThreadDecision)
    ensures
        r == thread_decision(debugger),
{
    match debugger.thread_id {
        Some(t) => ThreadDecision::Request(t),
        None => ThreadDecision::Error("Currently active thread is not stopped. Switch the thread."),
    }
}

/// Continuing the active thread: `None` when no debugger runs.
pub fn dap_continue(debugger: Option<&DebuggerState>) -> (r: Option<ThreadDecision>)
    ensures
        match debugger {
            None => r is None,
            Some(d) => r == Some(thread_decision(d)),
        },
{
    match debugger {
        None => None,
        Some(d) => Some(active_thread(d)),
    }
}

/// Stepping into a call on the active thread: `None` when no debugger runs.
pub fn dap_step_in(debugger: Option<&DebuggerState>) -> (r: Option<ThreadDecision>)
    ensures
        match debugger {
            None => r is None,
            Some(d) => r == Some(thread_decision(d)),
        },
{
    match debugger {
        None => None,
        Some(d) => Some(active_thread(d)),
    }
}

/// Stepping out of the current call on the active thread: `None` when no debugger
/// runs.
pub fn dap_step_out(debugger: Option<&DebuggerState>) -> (r: Option<ThreadDecision>)
    ensures
        match debugger {
            None => r is None,
            Some(d) => r == Some(thread_decision(d)),
        },
{
    match debugger {
        None => None,
        Some(d) => Some(active_thread(d)),
    }
}

/// Stepping over the next line on the active thread: `None` when no debugger runs.
pub fn dap_next(debugger: Option<&DebuggerState>) -> (r: Option<ThreadDecision>)
    ensures
        match debugger {
            None => r is None,
            Some(d) => r == Some(thread_decision(d)),
        },
{
    match debugger {
        None => None,
        Some(d) => Some(active_thread(d)),
    }
}

/// Whether to send the disconnect request that ends the session (after which the
/// editor drops its debugger): only when a debugger runs.
pub fn dap_terminate(debugger: Option<&DebuggerState>) -> (r: bool)
    ensures
        r == debugger is Some,
{
    debugger.is_some()
}

/// Whether `:debug-start` may offer the language's debug templates, or the error
/// to show: no debugger may be running and the language must have a debug adapter.
pub fn dap_launch(debugger_running: bool, has_debug_adapter: bool) -> (r: Result<(), &'static str>)
    ensures
        debugger_running ==> r == Err::<(), &'static str>("Debugger is already running"),
        !debugger_running && !has_debug_adapter ==> r == Err::<(), &'static str>(
            "No debug adapter available for language",
        ),
        !debugger_running && has_debug_adapter ==> r is Ok,
{
    if debugger_running {
        return Err("Debugger is already running");
    }
    if !has_debug_adapter {
        return Err("No debug adapter available for language");
    }
    Ok(())
}

/// Whether the thread picker can be skipped: with exactly one thread, the command
/// acts on it directly.
pub fn thread_picker_skips(thread_count: usize) -> (r: bool)
    ensures
        r == (thread_count == 1),
{
    thread_count == 1
}

/// Whether the session can be restarted, or the error to show.
pub fn dap_restart(debugger: Option<&DebuggerState>) -> (r: Result<(), &'static str>)
    ensures
        match debugger {
            None => r == Err::<(), &'static str>("Debugger is not running"),
            Some(d) => if !(d.supports_restart_request == Some(true)) {
                r == Err::<(), &'static str>("Debugger does not support session restarts")
            } else if !d.has_starting_request_args {
                r == Err::<(), &'static str>("No arguments found with which to restart the sessions")
            } else {
                r is Ok
            },
        },
{
    let debugger = match debugger {
        Some(debugger) => debugger,
        None => {
            return Err("Debugger is not running");
        },
    };
    if !debugger.supports_restart_request.unwrap_or(false) {
        return Err("Debugger does not support session restarts");
    }
    if !debugger.has_starting_request_args {
        return Err("No arguments found with which to restart the sessions");
    }
    Ok(())
}

/// The exception breakpoint filters to enable: all that the adapter offers.
/// `None` when no debugger runs or the adapter offers none.
pub fn dap_enable_exceptions(debugger: Option<&DebuggerState>) -> (r: Option<Vec<String>>)
    ensures
        match debugger {
            Some(d) => match &d.exception_breakpoint_filters {
                Some(filters) => r matches Some(v) && v@ == filters@,
                None => r is None,
            },
            None => r is None,
        },
{
    let debugger = match debugger {
        Some(debugger) => debugger,
        None => {
            return None;
        },
    };
    match &debugger.exception_breakpoint_filters {
        None => None,
        Some(filters) => {
            let mut out: Vec<String> = Vec::new();
            let mut i: usize = 0;
            while i < filters.len()
                invariant
                    i <= filters@.len(),
                    out@ == filters@.subrange(0, i as int),
                decreases filters@.len() - i,
            {
                out.push(filters[i].clone());
                assert(out@ =~= filters@.subrange(0, i + 1));
                i += 1;
            }
            assert(filters@.subrange(0, filters@.len() as int) =~= filters@);
            Some(out)
        },
    }
}

/// The exception breakpoint filters to set when disabling them: none. `None`
/// when no debugger runs.
pub fn dap_disable_exceptions(debugger: Option<&DebuggerState>) -> (r: Option<Vec<String>>)
    ensures
        match debugger {
            Some(_) => r matches Some(v) && v@.len() == 0,
            None => r is None,
        },
{
    match debugger {
        Some(_) => Some(Vec::new()),
        None => None,
    }
}

/// Why the variables of the current frame cannot be shown.
#[derive(Debug, PartialEq, Eq)]
pub enum VariablesProblem {
    /// A status message: the target runs, or no frame is selected.
    Status(&'static str),
    /// An error message: the selected frame is not among the reported ones.
    Error(&'static str),
}

/// The stack frame ids reported for a thread: those of its first entry.
pub open spec fn frames_of(frames: Seq<(ThreadId, Vec<usize>)>, thread: ThreadId) -> Option<Seq<usize>>
    decreases frames.len(),
{
    if frames.len() == 0 {
        None
    } else if frames[0].0 == thread {
        Some(frames[0].1@)
    } else {
        frames_of(frames.drop_first(), thread)
    }
}

/// What `:dap-variables` does with a running debugger: the thread and the id of
/// the stack frame whose scopes it asks for, or the message it shows instead.
pub open spec fn variables_choice(d: DebuggerState) -> Result<(ThreadId, usize), VariablesProblem> {
    match (d.thread_id, d.active_frame) {
        (None, _) => Err(VariablesProblem::Status("Cannot access variables while target is running.")),
        (Some(_), None) => Err(VariablesProblem::Status("Cannot find current stack frame to access variables.")),
        (Some(t), Some(f)) => match frames_of(d.stack_frames@, t) {
            None => Err(VariablesProblem::Error("Failed to get stack frame for thread: {thread_id}")),
            Some(ids) => if f < ids.len() {
                Ok((t, ids[f as int]))
            } else {
                Err(VariablesProblem::Error("Failed to get stack frame for thread {thread_id} and frame {frame}."))
            },
        },
    }
}

fn find_frames<'a>(frames: &'a Vec<(ThreadId, Vec<usize>)>, thread: ThreadId) -> (r: Option<&'a Vec<usize>>)
    ensures
        match frames_of(frames@, thread) {
            None => r is None,
            Some(ids) => r matches Some(v) && v@ == ids,
        },
{
    let mut i: usize = 0;
    assert(frames@.skip(0) =~= frames@);
    while i < frames.len()
        invariant
            i <= frames@.len(),
            frames_of(frames@, thread) == frames_of(frames@.skip(i as int), thread),
        decreases frames@.len() - i,
    {
        assert(frames@.skip(i as int).drop_first() =~= frames@.skip(i + 1));
        assert(frames@.skip(i as int)[0] == frames@[i as int]);
        if frames[i].0.0 == thread.0 {
            return Some(&frames[i].1);
        }
        i += 1;
    }
    None
}

/// The thread and stack frame id whose variables `:dap-variables` shows, or the
/// message to show instead. `None` when no debugger runs. (The texts of the two
/// lookup errors are the editor's, braces and all.)
pub fn dap_variables(debugger: Option<&DebuggerState>) -> (r: Option<Result<(ThreadId, usize), VariablesProblem>>)
    ensures
        match debugger {
            None => r is None,
            Some(d) => r == Some(variables_choice(*d)),
        },
{
    let debugger = match debugger {
        Some(debugger) => debugger,
        None => {
            return None;
        },
    };
    if debugger.thread_id.is_none() {
        return Some(Err(VariablesProblem::Status("Cannot access variables while target is running.")));
    }
    let (frame, thread_id) = match (debugger.active_frame, debugger.thread_id) {
        (Some(frame), Some(thread_id)) => (frame, thread_id),
        _ => {
            return Some(Err(VariablesProblem::Status("Cannot find current stack frame to access variables.")));
        },
    };
    let thread_frames = match find_frames(&debugger.stack_frames, thread_id) {
        Some(f) => f,
        None => {
            return Some(Err(VariablesProblem::Error("Failed to get stack frame for thread: {thread_id}")));
        },
    };
    if frame < thread_frames.len() {
        Some(Ok((thread_id, thread_frames[frame])))
    } else {
        Some(Err(VariablesProblem::Error("Failed to get stack frame for thread {thread_id} and frame {frame}.")))
    }
}

/// The header line of a scope in the variables popup.
pub fn format_scope(name: &str) -> (r: String)
    ensures
        r@ == "▸ "@ + name@,
{
    let mut s = String::new();
    push_str(&mut s, "▸ ");
    push_str(&mut s, name);
    s
}

/// A variable's line in the variables popup: `name: type = value`, or
/// `name = value` when the type is unknown.
pub fn format_variable(name: &str, ty: Option<&str>, value: &str) -> (r: String)
    ensures
        r@ == name@ + (match ty {
            Some(t) => ": "@ + t@,
            None => Seq::empty(),
        }) + " = "@ + value@,
{
    let mut s = String::new();
    push_str(&mut s, name);
    match ty {
        Some(t) => {
            push_str(&mut s, ": ");
            push_str(&mut s, t);
        },
        None => {},
    }
    push_str(&mut s, " = ");
    push_str(&mut s, value);
    assert(s@ =~= name@ + (match ty {
        Some(t) => ": "@ + t@,
        None => Seq::empty(),
    }) + " = "@ + value@);
    s
}

/// A thread's line in the thread picker: its name and, in parentheses, its state
/// (`unknown` when the state is not known).
pub fn format_thread(name: &str, state: Option<&str>) -> (r: String)
    ensures
        r@ == name@ + " ("@ + (match state {
            Some(st) => st@,
            None => "unknown"@,
        }) + ")"@,
{
    let mut s = String::new();
    push_str(&mut s, name);
    push_str(&mut s, " (");
    match state {
        Some(st) => push_str(&mut s, st),
        None => push_str(&mut s, "unknown"),
    }
    push_str(&mut s, ")");
    s
}

/// The (0-based) first and last lines to preview for a stack frame given by its
/// 1-based start line and optional end line.
pub fn frame_preview_lines(line: usize, end_line: Option<usize>) -> (r: (usize, usize))
    ensures
        r.0 == if line == 0 { 0 } else { line - 1 },
        r.1 == match end_line {
            Some(e) => if e == 0 { 0 } else { e - 1 },
            None => if line == 0 { 0 } else { line - 1 },
        },
{
    (line.saturating_sub(1), end_line.unwrap_or(line).saturating_sub(1))
}

/// The first position at or after `i` whose value is `x`.
pub open spec fn position_from(s: Seq<usize>, x: usize, i: int) -> Option<int>
    decreases s.len() - i,
{
    if i < 0 || i >= s.len() {
        None
    } else if s[i] == x {
        Some(i)
    } else {
        position_from(s, x, i + 1)
    }
}

/// The position of the first frame id equal to `id`.
fn frame_position(frame_ids: &Vec<usize>, id: usize) -> (r: Option<usize>)
    ensures
        match r {
            Some(i) => position_from(frame_ids@, id, 0) == Some(i as int) && i < frame_ids@.len(),
            None => position_from(frame_ids@, id, 0) is None,
        },
{
    let mut i: usize = 0;
    while i < frame_ids.len()
        invariant
            i <= frame_ids@.len(),
            position_from(frame_ids@, id, 0) == position_from(frame_ids@, id, i as int),
        decreases frame_ids@.len() - i,
    {
        if frame_ids[i] == id {
            return Some(i);
        }
        i += 1;
    }
    None
}

/// Picking a stack frame by id among the active thread's frames (given by their
/// ids): the frame becomes the active frame (`None` if the id is not among them),
/// and the frame to jump to is that one, or else the first frame if there is one.
pub fn stack_frame_selection(frame_ids: &Vec<usize>, id: usize) -> (r: (Option<usize>, Option<usize>))
    ensures
        match position_from(frame_ids@, id, 0) {
            Some(i) => r.0 == Some(i as usize) && r.1 == Some(i as usize),
            None => r.0 is None && r.1 == (if frame_ids@.len() > 0 { Some(0usize) } else { None::<usize> }),
        },
{
    let pos = frame_position(frame_ids, id);
    let target = pos.unwrap_or(0);
    let jump = if target < frame_ids.len() { Some(target) } else { None };
    (pos, jump)
}

/// What `:dap-switch-stack-frame` offers: the active thread's stack frame ids to
/// pick from (see `stack_frame_selection`), or the error to show when no thread is
/// active. `None` when no debugger runs. The active thread's frames must have been
/// reported.
pub fn dap_switch_stack_frame(debugger: Option<&DebuggerState>) -> (r: Option<Result<Vec<usize>, &'static str>>)
    requires
        debugger matches Some(d) ==> (d.thread_id matches Some(t) ==> frames_of(d.stack_frames@, t) is Some),
    ensures
        match debugger {
            None => r is None,
            Some(d) => match d.thread_id {
                None => r == Some(Err::<Vec<usize>, &'static str>("No thread is currently active")),
                Some(t) => r matches Some(Ok(ids)) && Some(ids@) == frames_of(d.stack_frames@, t),
            },
        },
{
    let debugger = match debugger {
        Some(d) => d,
        None => {
            return None;
        },
    };
    match debugger.thread_id {
        None => Some(Err("No thread is currently active")),
        Some(t) => match find_frames(&debugger.stack_frames, t) {
            Some(ids) => Some(Ok(ids.clone())),
            None => Some(Ok(Vec::new())),
        },
    }
}

/// A breakpoint as the editor records it.
#[derive(Debug, PartialEq, Eq)]
pub struct Breakpoint {
    pub id: Option<usize>,
    pub verified: bool,
    pub message: Option<String>,
    pub line: usize,
    pub column: Option<usize>,
    pub condition: Option<String>,
    pub hit_condition: Option<String>,
    pub log_message: Option<String>,
}

/// A fresh breakpoint on a line: not yet verified by the debugger, with no
/// condition and no log message.
pub open spec fn fresh_breakpoint(b: Breakpoint, line: usize) -> bool {
    &&& b.id is None
    &&& !b.verified
    &&& b.message is None
    &&& b.line == line
    &&& b.column is None
    &&& b.condition is None
    &&& b.hit_condition is None
    &&& b.log_message is None
}

impl Breakpoint {
    /// A fresh breakpoint on the given line.
    pub fn at_line(line: usize) -> (b: Breakpoint)
        ensures
            fresh_breakpoint(b, line),
    {
        Breakpoint {
            id: None,
            verified: false,
            message: None,
            line,
            column: None,
            condition: None,
            hit_condition: None,
            log_message: None,
        }
    }
}

/// The first breakpoint at or after `i` that is on `line`.
pub open spec fn breakpoint_from(bps: Seq<Breakpoint>, line: usize, i: int) -> Option<int>
    decreases bps.len() - i,
{
    if i < 0 || i >= bps.len() {
        None
    } else if bps[i].line == line {
        Some(i)
    } else {
        breakpoint_from(bps, line, i + 1)
    }
}

/// The first breakpoint on a line.
pub open spec fn breakpoint_at(bps: Seq<Breakpoint>, line: usize) -> Option<int> {
    breakpoint_from(bps, line, 0)
}

proof fn lemma_breakpoint_from(bps: Seq<Breakpoint>, line: usize, i: int)
    requires
        0 <= i,
    ensures
        breakpoint_from(bps, line, i) matches Some(j) ==> i <= j < bps.len() && bps[j].line == line,
    decreases bps.len() - i,
{
    if i < bps.len() && bps[i].line != line {
        lemma_breakpoint_from(bps, line, i + 1);
    }
}

/// The position of the first breakpoint on a line.
pub fn breakpoint_position(breakpoints: &Vec<Breakpoint>, line: usize) -> (r: Option<usize>)
    ensures
        match r {
            Some(i) => breakpoint_at(breakpoints@, line) == Some(i as int),
            None => breakpoint_at(breakpoints@, line) is None,
        },
        r matches Some(i) ==> i < breakpoints@.len() && breakpoints@[i as int].line == line,
{
    proof {
        lemma_breakpoint_from(breakpoints@, line, 0);
    }
    let mut i: usize = 0;
    while i < breakpoints.len()
        invariant
            i <= breakpoints@.len(),
            breakpoint_at(breakpoints@, line) == breakpoint_from(breakpoints@, line, i as int),
        decreases breakpoints@.len() - i,
    {
        if breakpoints[i].line == line {
            return Some(i);
        }
        i += 1;
    }
    None
}

/// The breakpoint on the cursor's line, with its position in the document's
/// breakpoint list (`None` when the document has no breakpoints or none is on
/// that line).
pub fn get_breakpoint_at_current_line(breakpoints: Option<&Vec<Breakpoint>>, line: usize) -> (r: Option<(usize, &Breakpoint)>)
    ensures
        match breakpoints {
            None => r is None,
            Some(bps) => match breakpoint_at(bps@, line) {
                None => r is None,
                Some(i) => r matches Some((j, b)) && j == i && *b == bps@[i],
            },
        },
{
    match breakpoints {
        None => None,
        Some(bps) => match breakpoint_position(bps, line) {
            None => None,
            Some(i) => Some((i, &bps[i])),
        },
    }
}

/// Toggles a breakpoint on a line of a document's breakpoint list: the first
/// breakpoint on that line is removed, or, if there is none, a fresh one is added
/// at the end.
pub fn dap_toggle_breakpoint_impl(breakpoints: &mut Vec<Breakpoint>, line: usize)
    ensures
        match breakpoint_at(old(breakpoints)@, line) {
            Some(i) => final(breakpoints)@ == old(breakpoints)@.remove(i),
            None => {
                &&& final(breakpoints)@.len() == old(breakpoints)@.len() + 1
                &&& final(breakpoints)@.drop_last() == old(breakpoints)@
                &&& fresh_breakpoint(final(breakpoints)@.last(), line)
            },
        },
{
    match breakpoint_position(breakpoints, line) {
        Some(pos) => {
            breakpoints.remove(pos);
        },
        None => {
            breakpoints.push(Breakpoint::at_line(line));
            assert(breakpoints@.drop_last() =~= old(breakpoints)@);
        },
    }
}

/// Toggles a breakpoint on the cursor's line of the current document, given
/// whether the document has a path and its breakpoint list: without a path nothing
/// changes and the error is returned.
pub fn dap_toggle_breakpoint(has_path: bool, breakpoints: &mut Vec<Breakpoint>, line: usize) -> (r: Result<(), &'static str>)
    ensures
        !has_path ==> r == Err::<(), &'static str>("Can't set breakpoint: document has no path")
            && final(breakpoints)@ == old(breakpoints)@,
        has_path ==> r is Ok && match breakpoint_at(old(breakpoints)@, line) {
            Some(i) => final(breakpoints)@ == old(breakpoints)@.remove(i),
            None => {
                &&& final(breakpoints)@.len() == old(breakpoints)@.len() + 1
                &&& final(breakpoints)@.drop_last() == old(breakpoints)@
                &&& fresh_breakpoint(final(breakpoints)@.last(), line)
            },
        },
{
    if !has_path {
        return Err("Can't set breakpoint: document has no path");
    }
    dap_toggle_breakpoint_impl(breakpoints, line);
    Ok(())
}

/// Toggling a breakpoint on a line with none adds one that a second toggle
/// removes again: toggling twice gives back the list it started from.
pub proof fn law_toggle_twice_restores(bps: Seq<Breakpoint>, line: usize, added: Breakpoint)
    requires
        breakpoint_at(bps, line) is None,
        fresh_breakpoint(added, line),
    ensures
        breakpoint_at(bps.push(added), line) == Some(bps.len() as int),
        bps.push(added).remove(bps.len() as int) == bps,
{
    let t = bps.push(added);
    lemma_toggle_scan(bps, line, added, 0);
    assert(t.remove(bps.len() as int) =~= bps);
}

proof fn lemma_toggle_scan(bps: Seq<Breakpoint>, line: usize, added: Breakpoint, i: int)
    requires
        0 <= i <= bps.len(),
        breakpoint_from(bps, line, i) is None,
        added.line == line,
    ensures
        breakpoint_from(bps.push(added), line, i) == Some(bps.len() as int),
    decreases bps.len() - i,
{
    let t = bps.push(added);
    if i < bps.len() {
        assert(t[i] == bps[i]);
        lemma_toggle_scan(bps, line, added, i + 1);
    } else {
        assert(t[i] == added);
    }
}

/// The value that an edit prompt's input gives an optional field: none for an
/// empty input, the input otherwise.
pub open spec fn edited_value(input: Seq<char>) -> Option<Seq<char>> {
    if input.len() == 0 {
        None
    } else {
        Some(input)
    }
}

fn edited_field(input: &str) -> (r: Option<String>)
    ensures
        match edited_value(input@) {
            None => r is None,
            Some(v) => r matches Some(s) && s@ == v,
        },
{
    if input.is_empty() {
        None
    } else {
        Some(input.to_owned())
    }
}

/// Sets the condition of the breakpoint at `pos` from the condition prompt's input
/// (an empty input removes the condition); the other breakpoints and fields stay.
pub fn dap_edit_condition(breakpoints: &mut Vec<Breakpoint>, pos: usize, input: &str)
    requires
        pos < old(breakpoints)@.len(),
    ensures
        final(breakpoints)@.len() == old(breakpoints)@.len(),
        forall|j: int| 0 <= j < final(breakpoints)@.len() && j != pos ==> final(breakpoints)@[j] == old(breakpoints)@[j],
        match edited_value(input@) {
            None => final(breakpoints)@[pos as int].condition is None,
            Some(v) => final(breakpoints)@[pos as int].condition matches Some(c) && c@ == v,
        },
        final(breakpoints)@[pos as int].log_message == old(breakpoints)@[pos as int].log_message,
        final(breakpoints)@[pos as int].line == old(breakpoints)@[pos as int].line,
        final(breakpoints)@[pos as int].hit_condition == old(breakpoints)@[pos as int].hit_condition,
        final(breakpoints)@[pos as int].id == old(breakpoints)@[pos as int].id,
        final(breakpoints)@[pos as int].verified == old(breakpoints)@[pos as int].verified,
        final(breakpoints)@[pos as int].message == old(breakpoints)@[pos as int].message,
        final(breakpoints)@[pos as int].column == old(breakpoints)@[pos as int].column,
{
    let value = edited_field(input);
    breakpoints[pos].condition = value;
}

/// Sets the log message of the breakpoint at `pos` from the log prompt's input (an
/// empty input removes the message); the other breakpoints and fields stay.
pub fn dap_edit_log(breakpoints: &mut Vec<Breakpoint>, pos: usize, input: &str)
    requires
        pos < old(breakpoints)@.len(),
    ensures
        final(breakpoints)@.len() == old(breakpoints)@.len(),
        forall|j: int| 0 <= j < final(breakpoints)@.len() && j != pos ==> final(breakpoints)@[j] == old(breakpoints)@[j],
        match edited_value(input@) {
            None => final(breakpoints)@[pos as int].log_message is None,
            Some(v) => final(breakpoints)@[pos as int].log_message matches Some(c) && c@ == v,
        },
        final(breakpoints)@[pos as int].condition == old(breakpoints)@[pos as int].condition,
        final(breakpoints)@[pos as int].line == old(breakpoints)@[pos as int].line,
        final(breakpoints)@[pos as int].hit_condition == old(breakpoints)@[pos as int].hit_condition,
        final(breakpoints)@[pos as int].id == old(breakpoints)@[pos as int].id,
        final(breakpoints)@[pos as int].verified == old(breakpoints)@[pos as int].verified,
        final(breakpoints)@[pos as int].message == old(breakpoints)@[pos as int].message,
        final(breakpoints)@[pos as int].column == old(breakpoints)@[pos as int].column,
{
    let value = edited_field(input);
    breakpoints[pos].log_message = value;
}


/// A value of a debug template's argument.
#[derive(Debug, PartialEq, Eq)]
pub enum DebugArgumentValue {
    String(String),
    Array(Vec<String>),
    Boolean(bool),
}

/// A parameter prompt of a debug template with more detail than a name.
#[derive(Debug, PartialEq, Eq)]
pub struct AdvancedCompletion {
    pub name: Option<String>,
    /// The kind of value asked for: `filename` and `directory` complete paths.
    pub completion: Option<String>,
    /// The value used when the user enters nothing.
    pub default: Option<String>,
}

/// A parameter that a debug template asks the user for.
#[derive(Debug, PartialEq, Eq)]
pub enum DebugConfigCompletion {
    Named(String),
    Advanced(AdvancedCompletion),
}

/// A way to start a debug session, from the language's configuration.
#[derive(Debug, PartialEq, Eq)]
pub struct DebugTemplate {
    pub name: String,
    /// `launch` or `attach`.
    pub request: String,
    /// The parameters asked for, in order.
    pub completion: Vec<DebugConfigCompletion>,
    /// The arguments passed to the adapter, by name (each name once: see
    /// `keys_distinct`); `{0}`, `{1}`, ... in their strings stand for the
    /// parameters.
    pub args: Vec<(String, DebugArgumentValue)>,
}

/// An argument as it is sent to the debug adapter.
#[derive(Debug, PartialEq, Eq)]
pub enum DebugArgument {
    Integer(usize),
    String(String),
    Array(Vec<String>),
    Boolean(bool),
}

/// The request that starts a session.
#[derive(Debug, Clone, Copy, PartialEq, Eq)]
pub enum DebugRequest {
    Launch,
    Attach,
}

/// The index of the template to start: the first with the given name, or the
/// first template when no name is given.
pub open spec fn template_index(templates: Seq<DebugTemplate>, name: Option<Seq<char>>) -> Option<int> {
    match name {
        Some(n) => template_from(templates, n, 0),
        None => if templates.len() > 0 {
            Some(0)
        } else {
            None
        },
    }
}

/// The first template at or after `i` with the given name.
pub open spec fn template_from(templates: Seq<DebugTemplate>, name: Seq<char>, i: int) -> Option<int>
    decreases templates.len() - i,
{
    if i < 0 || i >= templates.len() {
        None
    } else if templates[i].name@ == name {
        Some(i)
    } else {
        template_from(templates, name, i + 1)
    }
}

proof fn lemma_template_from(ts: Seq<DebugTemplate>, n: Seq<char>, k: int)
    requires
        0 <= k,
    ensures
        match template_from(ts, n, k) {
            Some(i) => k <= i < ts.len() && ts[i].name@ == n && forall|j: int| k <= j < i ==> ts[j].name@ != n,
            None => forall|j: int| k <= j < ts.len() ==> ts[j].name@ != n,
        },
    decreases ts.len() - k,
{
    if k < ts.len() && ts[k].name@ != n {
        lemma_template_from(ts, n, k + 1);
    }
}

/// Templates are picked by their name: the template picked for a name has that
/// name and no template before it does, and no template is picked only when none
/// has the name.
pub proof fn law_template_picked_by_name(ts: Seq<DebugTemplate>, n: Seq<char>)
    ensures
        match template_index(ts, Some(n)) {
            Some(i) => 0 <= i < ts.len() && ts[i].name@ == n && forall|j: int| 0 <= j < i ==> ts[j].name@ != n,
            None => forall|j: int| 0 <= j < ts.len() ==> ts[j].name@ != n,
        },
{
    lemma_template_from(ts, n, 0);
}

/// Picks the template that a debug session starts from, or the error when there
/// is none.
pub fn select_template(templates: &Vec<DebugTemplate>, name: Option<&str>) -> (r: Result<usize, &'static str>)
    ensures
        match template_index(templates@, match name { Some(n) => Some(n@), None => None }) {
            Some(i) => r == Ok::<usize, &'static str>(i as usize) && i < templates@.len(),
            None => r == Err::<usize, &'static str>("No debug config with given name"),
        },
{
    match name {
        None => if templates.len() > 0 {
            Ok(0)
        } else {
            Err("No debug config with given name")
        },
        Some(wanted) => {
            let mut i: usize = 0;
            while i < templates.len()
                invariant
                    name == Some(wanted),
                    i <= templates@.len(),
                    template_from(templates@, wanted@, 0) == template_from(templates@, wanted@, i as int),
                decreases templates@.len() - i,
            {
                if crate::text::str_eq(templates[i].name.as_str(), wanted) {
                    return Ok(i);
                }
                i += 1;
            }
            Err("No debug config with given name")
        },
    }
}

/// The request a template asks for, or the error for an unknown one.
pub fn debug_request(request: &str) -> (r: Result<DebugRequest, String>)
    ensures
        request@ == "launch"@ ==> r == Ok::<DebugRequest, String>(DebugRequest::Launch),
        request@ != "launch"@ && request@ == "attach"@ ==> r == Ok::<DebugRequest, String>(
            DebugRequest::Attach,
        ),
        request@ != "launch"@ && request@ != "attach"@ ==> (r matches Err(e) && e@
            == "Unsupported request '"@ + request@ + "'"@),
{
    if crate::text::str_eq(request, "launch") {
        Ok(DebugRequest::Launch)
    } else if crate::text::str_eq(request, "attach") {
        Ok(DebugRequest::Attach)
    } else {
        let mut e = String::new();
        push_str(&mut e, "Unsupported request '");
        push_str(&mut e, request);
        push_str(&mut e, "'");
        Err(e)
    }
}

/// Whether the template's `i`-th parameter names a file or directory (which the
/// editor turns into a canonical path before it is used).
pub fn param_is_path(template: &DebugTemplate, i: usize) -> (r: bool)
    ensures
        r == (i < template.completion@.len() && match template.completion@[i as int] {
            DebugConfigCompletion::Advanced(cfg) => match cfg.completion {
                Some(c) => c@ == "filename"@ || c@ == "directory"@,
                None => false,
            },
            _ => false,
        }),
{
    if i >= template.completion.len() {
        return false;
    }
    match &template.completion[i] {
        DebugConfigCompletion::Advanced(cfg) => match &cfg.completion {
            Some(c) => crate::text::str_eq(c.as_str(), "filename") || crate::text::str_eq(c.as_str(), "directory"),
            None => false,
        },
        _ => false,
    }
}

/// The placeholder that stands for the `i`-th parameter: `{i}`.
pub open spec fn placeholder(i: nat) -> Seq<char> {
    "{"@ + decimal(i) + "}"@
}

fn make_placeholder(i: usize) -> (r: String)
    ensures
        r@ == placeholder(i as nat),
{
    let mut s = String::new();
    push_str(&mut s, "{");
    push_decimal(&mut s, i);
    push_str(&mut s, "}");
    s
}

/// A string with the placeholders of the first `n` parameters replaced, in order.
pub open spec fn substitute(s: Seq<char>, params: Seq<Seq<char>>, n: nat) -> Seq<char>
    decreases n,
{
    if n == 0 {
        s
    } else {
        replace_all(substitute(s, params, (n - 1) as nat), placeholder((n - 1) as nat), params[n - 1])
    }
}

proof fn lemma_placeholder_nonempty(i: nat)
    ensures
        placeholder(i).len() > 0,
{
    reveal_strlit("{");
}

/// Replaces the parameters' placeholders in a string.
fn substitute_string(s: &str, params: &Vec<String>) -> (r: String)
    ensures
        r@ == substitute(s@, params@.map_values(|p: String| p@), params@.len()),
{
    let ghost ps = params@.map_values(|p: String| p@);
    let mut value = s.to_owned();
    let mut i: usize = 0;
    while i < params.len()
        invariant
            i <= params@.len(),
            ps == params@.map_values(|p: String| p@),
            value@ == substitute(s@, ps, i as nat),
        decreases params@.len() - i,
    {
        let pattern = make_placeholder(i);
        proof {
            lemma_placeholder_nonempty(i as nat);
        }
        value = replace(value.as_str(), pattern.as_str(), params[i].as_str());
        i += 1;
    }
    value
}

/// The argument sent to the adapter for a template value with the parameters
/// filled in: a string that reads as a number is sent as that number.
pub open spec fn argument_for(value: DebugArgumentValue, params: Seq<Seq<char>>) -> DebugArgumentView {
    match value {
        DebugArgumentValue::String(v) => {
            let t = substitute(v@, params, params.len());
            match parse_usize_spec(t) {
                Some(n) => DebugArgumentView::Integer(n),
                None => DebugArgumentView::String(t),
            }
        },
        DebugArgumentValue::Array(arr) => DebugArgumentView::Array(
            arr@.map_values(|x: String| substitute(x@, params, params.len())),
        ),
        DebugArgumentValue::Boolean(b) => DebugArgumentView::Boolean(b),
    }
}

/// The mathematical value of a `DebugArgument`.
pub enum DebugArgumentView {
    Integer(usize),
    String(Seq<char>),
    Array(Seq<Seq<char>>),
    Boolean(bool),
}

impl View for DebugArgument {
    type V = DebugArgumentView;

    open spec fn view(&self) -> DebugArgumentView {
        match self {
            DebugArgument::Integer(n) => DebugArgumentView::Integer(*n),
            DebugArgument::String(s) => DebugArgumentView::String(s@),
            DebugArgument::Array(a) => DebugArgumentView::Array(a@.map_values(|x: String| x@)),
            DebugArgument::Boolean(b) => DebugArgumentView::Boolean(*b),
        }
    }
}

/// The argument for one template value.
pub fn template_argument(value: &DebugArgumentValue, params: &Vec<String>) -> (r: DebugArgument)
    ensures
        r@ == argument_for(*value, params@.map_values(|p: String| p@)),
{
    let ghost ps = params@.map_values(|p: String| p@);
    match value {
        DebugArgumentValue::String(v) => {
            let t = substitute_string(v.as_str(), params);
            match parse_usize(t.as_str()) {
                Some(n) => DebugArgument::Integer(n),
                None => DebugArgument::String(t),
            }
        },
        DebugArgumentValue::Array(arr) => {
            let mut out: Vec<String> = Vec::new();
            let mut i: usize = 0;
            while i < arr.len()
                invariant
                    i <= arr@.len(),
                    ps == params@.map_values(|p: String| p@),
                    out@.len() == i,
                    forall|j: int| 0 <= j < i ==> (#[trigger] out@[j])@ == substitute(arr@[j]@, ps, ps.len()),
                decreases arr@.len() - i,
            {
                let t = substitute_string(arr[i].as_str(), params);
                out.push(t);
                i += 1;
            }
            assert(out@.map_values(|x: String| x@) =~= arr@.map_values(
                |x: String| substitute(x@, ps, ps.len()),
            ));
            DebugArgument::Array(out)
        },
        DebugArgumentValue::Boolean(b) => DebugArgument::Boolean(*b),
    }
}

/// Whether no name occurs twice among named entries.
pub open spec fn keys_distinct<T>(entries: Seq<(String, T)>) -> bool {
    forall|i: int, j: int| 0 <= i < j < entries.len() ==> (#[trigger] entries[i]).0@ != (#[trigger] entries[j]).0@
}

/// The arguments a template's session is started with, for the parameters the
/// user entered (each path parameter already made canonical): every template
/// argument with its placeholders filled in. Without parameters, none.
pub fn template_arguments(template: &DebugTemplate, params: Option<&Vec<String>>) -> (r: Vec<(String, DebugArgument)>)
    ensures
        match params {
            None => r@.len() == 0,
            Some(ps) => {
                &&& r@.len() == template.args@.len()
                &&& forall|i: int|
                    0 <= i < r@.len() ==> (#[trigger] r@[i]).0@ == template.args@[i].0@ && r@[i].1@
                        == argument_for(template.args@[i].1, ps@.map_values(|p: String| p@))
            },
        },
        keys_distinct(template.args@) ==> keys_distinct(r@),
{
    let mut out: Vec<(String, DebugArgument)> = Vec::new();
    match params {
        None => out,
        Some(ps) => {
            let mut i: usize = 0;
            while i < template.args.len()
                invariant
                    i <= template.args@.len(),
                    out@.len() == i,
                    forall|j: int|
                        0 <= j < i ==> (#[trigger] out@[j]).0@ == template.args@[j].0@ && out@[j].1@
                            == argument_for(template.args@[j].1, ps@.map_values(|p: String| p@)),
                decreases template.args@.len() - i,
            {
                let (k, v) = &template.args[i];
                let arg = template_argument(v, ps);
                out.push((k.clone(), arg));
                i += 1;
            }
            assert(keys_distinct(template.args@) ==> keys_distinct(out@)) by {
                if keys_distinct(template.args@) {
                    assert forall|a: int, b: int| 0 <= a < b < out@.len() implies (#[trigger] out@[a]).0@
                        != (#[trigger] out@[b]).0@ by {
                        assert(template.args@[a].0@ != template.args@[b].0@);
                    }
                }
            }
            out
        },
    }
}

/// The entries other than those named `key`, in order.
pub open spec fn without_key<T>(entries: Seq<(String, T)>, key: Seq<char>) -> Seq<(String, T)>
    decreases entries.len(),
{
    if entries.len() == 0 {
        Seq::empty()
    } else if entries[0].0@ == key {
        without_key(entries.drop_first(), key)
    } else {
        seq![entries[0]] + without_key(entries.drop_first(), key)
    }
}

proof fn lemma_without_key<T>(entries: Seq<(String, T)>, key: Seq<char>)
    ensures
        forall|i: int| 0 <= i < without_key(entries, key).len() ==> (#[trigger] without_key(entries, key)[i]).0@
            != key,
        keys_distinct(entries) ==> keys_distinct(without_key(entries, key)),
        forall|i: int| 0 <= i < without_key(entries, key).len() ==> entries.contains(
            #[trigger] without_key(entries, key)[i],
        ),
    decreases entries.len(),
{
    if entries.len() > 0 {
        let rest = entries.drop_first();
        lemma_without_key(rest, key);
        let w = without_key(rest, key);
        assert forall|i: int| 0 <= i < w.len() implies entries.contains(#[trigger] w[i]) by {
            assert(rest.contains(w[i]));
            let k = choose|k: int| 0 <= k < rest.len() && rest[k] == w[i];
            assert(entries[k + 1] == w[i]);
        }
        if entries[0].0@ != key {
            let v = seq![entries[0]] + w;
            assert forall|i: int| 0 <= i < v.len() implies entries.contains(#[trigger] v[i]) by {
                if i == 0 {
                    assert(entries[0] == v[0]);
                } else {
                    assert(v[i] == w[i - 1]);
                }
            }
            if keys_distinct(entries) {
                assert(keys_distinct(rest)) by {
                    assert forall|a: int, b: int| 0 <= a < b < rest.len() implies (#[trigger] rest[a]).0@
                        != (#[trigger] rest[b]).0@ by {
                        assert(rest[a] == entries[a + 1]);
                        assert(rest[b] == entries[b + 1]);
                    }
                }
                assert forall|a: int, b: int| 0 <= a < b < v.len() implies (#[trigger] v[a]).0@
                    != (#[trigger] v[b]).0@ by {
                    if a == 0 {
                        assert(v[b] == w[b - 1]);
                        assert(rest.contains(w[b - 1]));
                        let k = choose|k: int| 0 <= k < rest.len() && rest[k] == w[b - 1];
                        assert(entries[k + 1] == w[b - 1]);
                        assert(entries[0].0@ != entries[k + 1].0@);
                    } else {
                        assert(v[a] == w[a - 1]);
                        assert(v[b] == w[b - 1]);
                    }
                }
            }
        } else {
            if keys_distinct(entries) {
                assert forall|a: int, b: int| 0 <= a < b < rest.len() implies (#[trigger] rest[a]).0@
                    != (#[trigger] rest[b]).0@ by {
                    assert(rest[a] == entries[a + 1]);
                    assert(rest[b] == entries[b + 1]);
                }
            }
        }
    }
}

/// The arguments a session is started with in the working directory `cwd`: every
/// argument not named `cwd`, in order, then `cwd` set to the directory. Names that
/// occurred once still do.
pub fn with_working_directory(args: Vec<(String, DebugArgument)>, cwd: String) -> (r: Vec<(String, DebugArgument)>)
    ensures
        r@.len() == without_key(args@, "cwd"@).len() + 1,
        r@.drop_last() == without_key(args@, "cwd"@),
        r@.last().0@ == "cwd"@,
        r@.last().1 == DebugArgument::String(cwd),
        keys_distinct(args@) ==> keys_distinct(r@),
{
    let mut rest = args;
    let mut kept: Vec<(String, DebugArgument)> = Vec::new();
    let ghost all = rest@;
    while rest.len() > 0
        invariant
            without_key(all, "cwd"@) == kept@ + without_key(rest@, "cwd"@),
        decreases rest@.len(),
    {
        let ghost before = rest@;
        let ghost k0 = kept@;
        let entry = rest.remove(0);
        assert(before.drop_first() =~= rest@);
        if !str_eq(entry.0.as_str(), "cwd") {
            kept.push(entry);
            assert(k0 + (seq![entry] + without_key(rest@, "cwd"@)) =~= kept@ + without_key(rest@, "cwd"@));
        }
    }
    assert(kept@ + without_key(rest@, "cwd"@) =~= kept@);
    let ghost w = kept@;
    let key = String::from_str("cwd");
    kept.push((key, DebugArgument::String(cwd)));
    proof {
        lemma_without_key(all, "cwd"@);
        assert(kept@.drop_last() =~= w);
        if keys_distinct(all) {
            assert forall|a: int, b: int| 0 <= a < b < kept@.len() implies (#[trigger] kept@[a]).0@
                != (#[trigger] kept@[b]).0@ by {
                if b == kept@.len() - 1 {
                    assert(kept@[a] == w[a]);
                } else {
                    assert(kept@[a] == w[a]);
                    assert(kept@[b] == w[b]);
                }
            }
        }
    }
    kept
}

/// What the parameter prompt shows and offers for one parameter.
pub struct ParameterPrompt {
    /// The prompt's label: the parameter's name followed by `: `.
    pub label: String,
    /// The kind of completion offered: `filename`, `directory`, or empty.
    pub field_type: String,
    /// The value used when the user enters nothing.
    pub default: String,
}

/// The kind of completion a parameter asks for.
pub open spec fn field_type_of(c: DebugConfigCompletion) -> Seq<char> {
    match c {
        DebugConfigCompletion::Advanced(cfg) => match cfg.completion {
            Some(t) => t@,
            None => Seq::empty(),
        },
        _ => Seq::empty(),
    }
}

/// The name a parameter is asked for by.
pub open spec fn name_of(c: DebugConfigCompletion) -> Seq<char> {
    match c {
        DebugConfigCompletion::Advanced(cfg) => match cfg.name {
            Some(n) => n@,
            None => field_type_of(c),
        },
        DebugConfigCompletion::Named(n) => n@,
    }
}

/// The default value of a parameter.
pub open spec fn default_of(c: DebugConfigCompletion) -> Seq<char> {
    match c {
        DebugConfigCompletion::Advanced(cfg) => match cfg.default {
            Some(d) => d@,
            None => Seq::empty(),
        },
        _ => Seq::empty(),
    }
}

/// The prompt for the next parameter of a template, once `entered` parameters have
/// been given.
pub fn debug_parameter_prompt(completions: &Vec<DebugConfigCompletion>, entered: usize) -> (r: ParameterPrompt)
    requires
        entered < completions@.len(),
    ensures
        r.label@ == name_of(completions@[entered as int]) + ": "@,
        r.field_type@ == field_type_of(completions@[entered as int]),
        r.default@ == default_of(completions@[entered as int]),
{
    let completion = &completions[entered];
    let mut field_type = String::new();
    let mut default = String::new();
    let mut label = String::new();
    match completion {
        DebugConfigCompletion::Advanced(cfg) => {
            match &cfg.completion {
                Some(t) => push_str(&mut field_type, t.as_str()),
                None => {},
            }
            match &cfg.default {
                Some(d) => push_str(&mut default, d.as_str()),
                None => {},
            }
            match &cfg.name {
                Some(n) => push_str(&mut label, n.as_str()),
                None => push_str(&mut label, field_type.as_str()),
            }
        },
        DebugConfigCompletion::Named(n) => {
            push_str(&mut label, n.as_str());
        },
    }
    push_str(&mut label, ": ");
    ParameterPrompt { label, field_type, default }
}

/// Records the value the user entered at a parameter prompt (the default for an
/// empty input) and tells whether another parameter remains to be asked for.
pub fn debug_parameter_entered(params: &mut Vec<String>, input: &str, default: &str, total: usize) -> (more: bool)
    ensures
        final(params)@.len() == old(params)@.len() + 1,
        final(params)@.drop_last() == old(params)@,
        final(params)@.last()@ == if input@.len() == 0 { default@ } else { input@ },
        more == (final(params)@.len() < total),
{
    let value = if input.is_empty() {
        default.to_owned()
    } else {
        input.to_owned()
    };
    params.push(value);
    assert(params@.drop_last() =~= old(params)@);
    params.len() < total
}

} // verus!
