use helix_term::copilot::{
    already_signed_in_message, copilot_apply_completion, copilot_dismiss_completion,
    copilot_request_completion, copilot_toggle, sign_in_outcome, status_message,
    suggestion_ghost_text, suggestion_is_current, suggestion_range, SignInOutcome, ToggleOutcome,
};

#[test]
fn sign_in() {
    assert_eq!(
        sign_in_outcome("PromptUserDeviceFlow", Some("ABCD-1234"), None),
        SignInOutcome::DeviceFlow {
            message: "Copilot: open https://github.com/login/device and enter code ABCD-1234".to_string()
        }
    );
    assert_eq!(
        sign_in_outcome("PromptUserDeviceFlow", None, Some("https://example.com/device")),
        SignInOutcome::DeviceFlow { message: "Copilot: open https://example.com/device and enter code ".to_string() }
    );
    assert_eq!(sign_in_outcome("AlreadySignedIn", None, None), SignInOutcome::AlreadySignedIn);
    assert_eq!(
        sign_in_outcome("Weird", None, None),
        SignInOutcome::Unexpected { message: "Copilot: unexpected sign-in status 'Weird'".to_string() }
    );
    assert_eq!(already_signed_in_message(Some("octo")), "Copilot: already signed in as octo");
    assert_eq!(already_signed_in_message(None), "Copilot: already signed in as ");
}

#[test]
fn status() {
    assert_eq!(status_message(true, Some("octo"), true), "Copilot: signed in as octo (enabled)");
    assert_eq!(status_message(true, None, false), "Copilot: signed in as  (disabled)");
    assert_eq!(status_message(false, Some("octo"), false), "Copilot: not signed in (disabled, run :copilot-signin)");
}

#[test]
fn toggle() {
    assert_eq!(
        copilot_toggle(true, true),
        ToggleOutcome { enabled: false, message: "Copilot: disabled", clear_suggestion: true, start_client: false }
    );
    assert_eq!(
        copilot_toggle(false, false),
        ToggleOutcome { enabled: true, message: "Copilot: enabled", clear_suggestion: false, start_client: true }
    );
    assert!(!copilot_toggle(false, true).start_client);
    assert_eq!(copilot_toggle(copilot_toggle(true, false).enabled, false).enabled, true);
}

#[test]
fn request_guard() {
    assert_eq!(copilot_request_completion(false, true), Err("Copilot is disabled (run :copilot-toggle to enable)"));
    assert_eq!(copilot_request_completion(true, false), Err("Copilot: the buffer must be saved to disk first"));
    assert_eq!(copilot_request_completion(true, true), Ok(()));
}

#[test]
fn accept_and_dismiss() {
    assert_eq!(copilot_apply_completion(1, 1, 10, "héllo"), Some(15));
    assert_eq!(copilot_apply_completion(1, 2, 10, "hello"), None);
    let mut s = Some(3);
    copilot_dismiss_completion(&mut s);
    assert_eq!(s, None);
}

#[test]
fn suggestions() {
    assert!(suggestion_is_current(4, 4));
    assert!(!suggestion_is_current(5, 4));
    assert_eq!(suggestion_range(7, None), (7, 7));
    assert_eq!(suggestion_range(7, Some((Some(2), None))), (2, 7));
    assert_eq!(suggestion_range(7, Some((Some(2), Some(9)))), (2, 9));
    assert_eq!(suggestion_ghost_text("let x = 1;\nnext", 6, 2), Some("x = 1;".to_string()));
    assert_eq!(suggestion_ghost_text("abc", 5, 2), None);
    assert_eq!(suggestion_ghost_text("abc\n", 5, 2), None);
    assert_eq!(suggestion_ghost_text("abc", 1, 2), Some("abc".to_string()));
}
