use helix_term::dap::{
    dap_continue, dap_disable_exceptions, dap_switch_stack_frame, dap_edit_condition, dap_edit_log, dap_enable_exceptions,
    dap_next, dap_restart, dap_step_in, dap_step_out, dap_terminate, dap_toggle_breakpoint,
    dap_toggle_breakpoint_impl, dap_variables, debug_parameter_entered, debug_parameter_prompt,
    debug_request, format_scope, format_thread, format_variable, frame_preview_lines,
    get_breakpoint_at_current_line, param_is_path, select_template, stack_frame_selection,
    template_arguments, with_working_directory, AdvancedCompletion, Breakpoint, DebugArgument, DebugArgumentValue,
    DebugConfigCompletion, DebugRequest, DebugTemplate, DebuggerState, ThreadDecision, ThreadId,
    VariablesProblem,
};

fn debugger(thread: Option<isize>) -> DebuggerState {
    DebuggerState {
        supports_restart_request: Some(true),
        has_starting_request_args: true,
        thread_id: thread.map(ThreadId),
        active_frame: Some(0),
        exception_breakpoint_filters: Some(vec!["raised".to_string(), "uncaught".to_string()]),
        stack_frames: vec![(ThreadId(3), vec![40, 41]), (ThreadId(7), vec![70])],
    }
}

const NOT_STOPPED: &str = "Currently active thread is not stopped. Switch the thread.";

#[test]
fn thread_commands_need_a_stopped_thread() {
    let stopped = debugger(Some(7));
    let running = debugger(None);
    for f in [dap_continue, dap_step_in, dap_step_out, dap_next] {
        assert_eq!(f(None), None);
        assert_eq!(f(Some(&stopped)), Some(ThreadDecision::Request(ThreadId(7))));
        assert_eq!(f(Some(&running)), Some(ThreadDecision::Error(NOT_STOPPED)));
    }
}

#[test]
fn terminate_only_with_a_debugger() {
    assert!(dap_terminate(Some(&debugger(None))));
    assert!(!dap_terminate(None));
}

#[test]
fn restart_checks() {
    assert_eq!(dap_restart(None), Err("Debugger is not running"));
    let mut d = debugger(None);
    assert_eq!(dap_restart(Some(&d)), Ok(()));
    d.has_starting_request_args = false;
    assert_eq!(dap_restart(Some(&d)), Err("No arguments found with which to restart the sessions"));
    d.supports_restart_request = None;
    assert_eq!(dap_restart(Some(&d)), Err("Debugger does not support session restarts"));
    d.supports_restart_request = Some(false);
    assert_eq!(dap_restart(Some(&d)), Err("Debugger does not support session restarts"));
}

#[test]
fn exception_filters() {
    let d = debugger(None);
    assert_eq!(dap_enable_exceptions(Some(&d)), Some(vec!["raised".to_string(), "uncaught".to_string()]));
    assert_eq!(dap_enable_exceptions(None), None);
    let mut d2 = debugger(None);
    d2.exception_breakpoint_filters = None;
    assert_eq!(dap_enable_exceptions(Some(&d2)), None);
    assert_eq!(dap_disable_exceptions(Some(&d2)), Some(Vec::new()));
    assert_eq!(dap_disable_exceptions(None), None);
}

#[test]
fn variables_frame_choice() {
    assert_eq!(dap_variables(None), None);
    assert_eq!(
        dap_variables(Some(&debugger(None))),
        Some(Err(VariablesProblem::Status("Cannot access variables while target is running.")))
    );
    let mut d = debugger(Some(3));
    assert_eq!(dap_variables(Some(&d)), Some(Ok((ThreadId(3), 40))));
    d.active_frame = Some(1);
    assert_eq!(dap_variables(Some(&d)), Some(Ok((ThreadId(3), 41))));
    d.active_frame = Some(2);
    assert_eq!(
        dap_variables(Some(&d)),
        Some(Err(VariablesProblem::Error("Failed to get stack frame for thread {thread_id} and frame {frame}.")))
    );
    let mut other = debugger(Some(9));
    assert_eq!(
        dap_variables(Some(&other)),
        Some(Err(VariablesProblem::Error("Failed to get stack frame for thread: {thread_id}")))
    );
    other.stack_frames = vec![(ThreadId(9), vec![5]), (ThreadId(9), vec![6, 7])];
    assert_eq!(dap_variables(Some(&other)), Some(Ok((ThreadId(9), 5))));
    d.active_frame = None;
    assert_eq!(
        dap_variables(Some(&d)),
        Some(Err(VariablesProblem::Status("Cannot find current stack frame to access variables.")))
    );
}

#[test]
fn texts() {
    assert_eq!(format_thread("main", Some("stopped")), "main (stopped)");
    assert_eq!(format_thread("worker", None), "worker (unknown)");
    assert_eq!(format_scope("Locals"), "▸ Locals");
    assert_eq!(format_variable("x", Some("i32"), "5"), "x: i32 = 5");
    assert_eq!(format_variable("y", None, "\"s\""), "y = \"s\"");
}

#[test]
fn frame_preview() {
    assert_eq!(frame_preview_lines(10, None), (9, 9));
    assert_eq!(frame_preview_lines(10, Some(12)), (9, 11));
    assert_eq!(frame_preview_lines(0, Some(0)), (0, 0));
}

#[test]
fn stack_frame_pick() {
    let ids = vec![4, 8, 15];
    assert_eq!(stack_frame_selection(&ids, 8), (Some(1), Some(1)));
    assert_eq!(stack_frame_selection(&ids, 16), (None, Some(0)));
    assert_eq!(stack_frame_selection(&Vec::new(), 16), (None, None));
}

#[test]
fn toggling_breakpoints() {
    let mut bps = vec![Breakpoint::at_line(3), Breakpoint::at_line(7)];
    dap_toggle_breakpoint_impl(&mut bps, 5);
    assert_eq!(bps.iter().map(|b| b.line).collect::<Vec<_>>(), vec![3, 7, 5]);
    assert!(!bps[2].verified && bps[2].condition.is_none());
    dap_toggle_breakpoint_impl(&mut bps, 3);
    assert_eq!(bps.iter().map(|b| b.line).collect::<Vec<_>>(), vec![7, 5]);
    // Toggling twice on a free line gives back the list.
    dap_toggle_breakpoint_impl(&mut bps, 9);
    dap_toggle_breakpoint_impl(&mut bps, 9);
    assert_eq!(bps.iter().map(|b| b.line).collect::<Vec<_>>(), vec![7, 5]);
    assert_eq!(dap_toggle_breakpoint(false, &mut bps, 1), Err("Can't set breakpoint: document has no path"));
    assert_eq!(bps.len(), 2);
    assert_eq!(dap_toggle_breakpoint(true, &mut bps, 1), Ok(()));
    assert_eq!(bps.len(), 3);
}

#[test]
fn breakpoint_on_line_and_edits() {
    let mut bps = vec![Breakpoint::at_line(3), Breakpoint::at_line(7), Breakpoint::at_line(7)];
    assert_eq!(get_breakpoint_at_current_line(Some(&bps), 7).map(|(i, b)| (i, b.line)), Some((1, 7)));
    assert!(get_breakpoint_at_current_line(Some(&bps), 4).is_none());
    assert!(get_breakpoint_at_current_line(None, 7).is_none());
    dap_edit_condition(&mut bps, 1, "x > 1");
    assert_eq!(bps[1].condition.as_deref(), Some("x > 1"));
    dap_edit_condition(&mut bps, 1, "");
    assert_eq!(bps[1].condition, None);
    dap_edit_log(&mut bps, 0, "hit");
    assert_eq!(bps[0].log_message.as_deref(), Some("hit"));
    assert_eq!(bps[2].log_message, None);
}

fn template() -> DebugTemplate {
    DebugTemplate {
        name: "binary".to_string(),
        request: "launch".to_string(),
        completion: vec![
            DebugConfigCompletion::Advanced(AdvancedCompletion {
                name: Some("binary".to_string()),
                completion: Some("filename".to_string()),
                default: Some("a.out".to_string()),
            }),
            DebugConfigCompletion::Named("listen".to_string()),
        ],
        args: vec![
            ("program".to_string(), DebugArgumentValue::String("{0}".to_string())),
            ("listen".to_string(), DebugArgumentValue::String("{1}".to_string())),
            ("args".to_string(), DebugArgumentValue::Array(vec!["--in={0}".to_string(), "{1}{1}".to_string()])),
            ("stop".to_string(), DebugArgumentValue::Boolean(true)),
        ],
    }
}

#[test]
fn template_choice_and_request() {
    let other = DebugTemplate { name: "attach".to_string(), request: "attach".to_string(), completion: vec![], args: vec![] };
    let templates = vec![template(), other];
    assert_eq!(select_template(&templates, None), Ok(0));
    assert_eq!(select_template(&templates, Some("attach")), Ok(1));
    assert_eq!(select_template(&templates, Some("nope")), Err("No debug config with given name"));
    assert_eq!(select_template(&Vec::new(), None), Err("No debug config with given name"));
    assert_eq!(debug_request("launch"), Ok(DebugRequest::Launch));
    assert_eq!(debug_request("attach"), Ok(DebugRequest::Attach));
    assert_eq!(debug_request("run"), Err("Unsupported request 'run'".to_string()));
}

#[test]
fn template_arguments_fill_in_parameters() {
    let t = template();
    assert!(param_is_path(&t, 0));
    assert!(!param_is_path(&t, 1));
    assert!(!param_is_path(&t, 2));
    let params = vec!["/bin/x".to_string(), "8080".to_string()];
    let args = template_arguments(&t, Some(&params));
    assert_eq!(
        args,
        vec![
            ("program".to_string(), DebugArgument::String("/bin/x".to_string())),
            ("listen".to_string(), DebugArgument::Integer(8080)),
            ("args".to_string(), DebugArgument::Array(vec!["--in=/bin/x".to_string(), "80808080".to_string()])),
            ("stop".to_string(), DebugArgument::Boolean(true)),
        ]
    );
    assert!(template_arguments(&t, None).is_empty());
}

#[test]
fn parameter_prompts() {
    let t = template();
    let p = debug_parameter_prompt(&t.completion, 0);
    assert_eq!(p.label, "binary: ");
    assert_eq!(p.field_type, "filename");
    assert_eq!(p.default, "a.out");
    let p = debug_parameter_prompt(&t.completion, 1);
    assert_eq!(p.label, "listen: ");
    assert_eq!(p.field_type, "");
    assert_eq!(p.default, "");
    let mut params = Vec::new();
    assert!(debug_parameter_entered(&mut params, "", "a.out", 2));
    assert!(!debug_parameter_entered(&mut params, "9000", "", 2));
    assert_eq!(params, vec!["a.out".to_string(), "9000".to_string()]);
}

use helix_term::dap::{dap_launch, thread_picker_skips};

#[test]
fn launch_checks() {
    assert_eq!(dap_launch(true, true), Err("Debugger is already running"));
    assert_eq!(dap_launch(false, false), Err("No debug adapter available for language"));
    assert_eq!(dap_launch(false, true), Ok(()));
    assert!(thread_picker_skips(1));
    assert!(!thread_picker_skips(2));
    assert!(!thread_picker_skips(0));
}

#[test]
fn stack_frames_to_switch_to() {
    assert_eq!(dap_switch_stack_frame(None), None);
    assert_eq!(dap_switch_stack_frame(Some(&debugger(None))), Some(Err("No thread is currently active")));
    assert_eq!(dap_switch_stack_frame(Some(&debugger(Some(3)))), Some(Ok(vec![40, 41])));
    assert_eq!(dap_switch_stack_frame(Some(&debugger(Some(7)))), Some(Ok(vec![70])));
}

#[test]
fn working_directory_replaces_cwd() {
    let args = vec![
        ("program".to_string(), DebugArgument::String("a.out".to_string())),
        ("cwd".to_string(), DebugArgument::String("/old".to_string())),
        ("stopOnEntry".to_string(), DebugArgument::Boolean(true)),
    ];
    let r = with_working_directory(args, "/work".to_string());
    assert_eq!(
        r,
        vec![
            ("program".to_string(), DebugArgument::String("a.out".to_string())),
            ("stopOnEntry".to_string(), DebugArgument::Boolean(true)),
            ("cwd".to_string(), DebugArgument::String("/work".to_string())),
        ]
    );
    let r = with_working_directory(Vec::new(), "/w".to_string());
    assert_eq!(r, vec![("cwd".to_string(), DebugArgument::String("/w".to_string()))]);
}

#[test]
fn edits_change_only_their_field() {
    let mut bps = vec![Breakpoint {
        id: Some(4),
        verified: true,
        message: Some("ok".to_string()),
        line: 9,
        column: Some(2),
        condition: None,
        hit_condition: Some("3".to_string()),
        log_message: Some("hit".to_string()),
    }];
    dap_edit_condition(&mut bps, 0, "x > 1");
    assert_eq!(bps[0].condition, Some("x > 1".to_string()));
    assert_eq!((bps[0].id, bps[0].verified, bps[0].column), (Some(4), true, Some(2)));
    assert_eq!(bps[0].message, Some("ok".to_string()));
    dap_edit_log(&mut bps, 0, "");
    assert_eq!(bps[0].log_message, None);
    assert_eq!(bps[0].condition, Some("x > 1".to_string()));
    assert_eq!((bps[0].id, bps[0].verified, bps[0].line), (Some(4), true, 9));
}
