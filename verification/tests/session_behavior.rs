//! Behavior of a session: the event-loop policy, input synthesis, element
//! lookup by role, and error classification.

use headless_chrome::errors::ElementLookupError;
use headless_chrome::errors::MethodCallError;
use headless_chrome::errors::NoElementFound;
use headless_chrome::errors::RemoteError;
use headless_chrome::keyboard::Keyboard;
use headless_chrome::keyboard::TypingAction;
use headless_chrome::mouse::Mouse;
use headless_chrome::protocol::accessibility::first_backend_node_id;
use headless_chrome::protocol::accessibility::AXNode;
use headless_chrome::protocol::input::MouseButton;
use headless_chrome::tab::decode_capture_data;
use headless_chrome::tab::navigation_result;
use headless_chrome::tab::resolve_paused;
use headless_chrome::tab::ContinueRequest;
use headless_chrome::tab::FetchResolution;
use headless_chrome::tab::FulfilRequest;
use headless_chrome::tab::RequestPausedDecision;
use headless_chrome::tab::Tab;
use headless_chrome::tab::TabEvent;
use headless_chrome::tab::TabReaction;

fn fresh_tab() -> Tab {
    Tab::new(String::from("target-1"), String::from("session-1"))
}

#[test]
fn lifecycle_events_move_the_navigation_flag() {
    let mut tab = fresh_tab();
    assert!(!tab.is_navigating());
    let r = tab.handle_event(&TabEvent::Lifecycle { name: String::from("init") });
    assert!(matches!(r, TabReaction::Ignored));
    assert!(tab.is_navigating());
    // An unrelated milestone leaves the flag.
    tab.handle_event(&TabEvent::Lifecycle { name: String::from("firstPaint") });
    assert!(tab.is_navigating());
    tab.handle_event(&TabEvent::Lifecycle { name: String::from("networkAlmostIdle") });
    assert!(!tab.is_navigating());
}

#[test]
fn paused_requests_ask_the_interception_policy() {
    let mut tab = fresh_tab();
    let r = tab.handle_event(&TabEvent::RequestPaused { request_id: String::from("req-9") });
    match r {
        TabReaction::AskInterceptor { request_id } => assert_eq!(request_id, "req-9"),
        _ => panic!("expected an interception"),
    }
}

#[test]
fn default_interception_continues_unmodified() {
    // The default policy decides Continue(None): exactly one terminal
    // resolution goes back, a bare continue of this request.
    match resolve_paused(RequestPausedDecision::Continue(None), "req-1") {
        FetchResolution::Continue(c) => {
            assert_eq!(c.request_id, "req-1");
            assert_eq!(c.params, "");
        }
        _ => panic!("expected a continue"),
    }
}

#[test]
fn explicit_interception_decisions_pass_through() {
    let c = ContinueRequest { request_id: String::from("r"), params: String::from("{\"url\":\"u\"}") };
    assert!(matches!(
        resolve_paused(RequestPausedDecision::Continue(Some(c)), "r"),
        FetchResolution::Continue(_)
    ));
    let f = FulfilRequest { request_id: String::from("r"), params: String::from("{}") };
    assert!(matches!(
        resolve_paused(RequestPausedDecision::Fulfil(f), "r"),
        FetchResolution::Fulfil(_)
    ));
}

#[test]
fn auth_challenges_use_the_installed_policy() {
    let mut tab = fresh_tab();
    // Default: no credentials supplied.
    match tab.handle_event(&TabEvent::AuthRequired { request_id: String::from("a1") }) {
        TabReaction::ContinueWithAuth { request_id, auth } => {
            assert_eq!(request_id, "a1");
            assert_eq!(auth.response, "Default");
            assert!(auth.username.is_none());
        }
        _ => panic!("expected an auth continuation"),
    }
    tab.authenticate(Some(String::from("user")), Some(String::from("pw")));
    match tab.handle_event(&TabEvent::AuthRequired { request_id: String::from("a2") }) {
        TabReaction::ContinueWithAuth { auth, .. } => {
            assert_eq!(auth.response, "ProvideCredentials");
            assert_eq!(auth.username.as_deref(), Some("user"));
        }
        _ => panic!("expected an auth continuation"),
    }
}

#[test]
fn response_metadata_reaches_an_installed_handler_only() {
    let mut tab = fresh_tab();
    let r = tab.handle_event(&TabEvent::ResponseReceived { request_id: String::from("n1") });
    assert!(matches!(r, TabReaction::Ignored));
    tab.enable_response_handling();
    match tab.handle_event(&TabEvent::ResponseReceived { request_id: String::from("n2") }) {
        TabReaction::FetchResponseBody { request_id } => assert_eq!(request_id, "n2"),
        _ => panic!("expected a body fetch"),
    }
}

#[test]
fn file_chooser_resolves_with_queued_files() {
    let mut tab = fresh_tab();
    let r = tab.handle_event(&TabEvent::FileChooserOpened { backend_node_id: 77 });
    assert!(matches!(r, TabReaction::Ignored));
    tab.set_files(vec![String::from("/tmp/a.txt"), String::from("/tmp/b.txt")]);
    match tab.handle_event(&TabEvent::FileChooserOpened { backend_node_id: 77 }) {
        TabReaction::SetInputFiles { files, backend_node_id } => {
            assert_eq!(backend_node_id, 77);
            assert_eq!(files, vec![String::from("/tmp/a.txt"), String::from("/tmp/b.txt")]);
        }
        _ => panic!("expected a chooser resolution"),
    }
}

#[test]
fn listeners_are_broadcast_targets_until_revoked() {
    let mut tab = fresh_tab();
    let h1 = tab.add_event_listener();
    let h2 = tab.add_event_listener();
    assert_eq!(tab.listeners_to_notify(), vec![h1, h2]);
    assert!(tab.remove_event_listener(h1));
    assert_eq!(tab.listeners_to_notify(), vec![h2]);
    // Revoking again is a no-op.
    assert!(!tab.remove_event_listener(h1));
}

#[test]
fn navigation_failure_carries_the_error_text() {
    assert!(navigation_result(None).is_ok());
    match navigation_result(Some(String::from("net::ERR_ABORTED"))) {
        Err(e) => assert_eq!(e.error_text, "net::ERR_ABORTED"),
        Ok(_) => panic!("expected the failure"),
    }
}

#[test]
fn remote_errors_describe_themselves() {
    let e = RemoteError { code: -32000, message: String::from("no such frame") };
    assert_eq!(e.describe(), "no such frame");
}

#[test]
fn node_gone_errors_read_as_element_not_found() {
    let remote = MethodCallError::Remote(RemoteError {
        code: -32000,
        message: String::from("Could not find node with given id"),
    });
    assert!(matches!(NoElementFound::map(remote), ElementLookupError::NotFound(_)));
    let other = MethodCallError::Remote(RemoteError {
        code: -32601,
        message: String::from("Method not found"),
    });
    match NoElementFound::map(other) {
        ElementLookupError::Call(MethodCallError::Remote(e)) => {
            assert_eq!(e.code, -32601);
        }
        _ => panic!("expected the original error back"),
    }
    assert!(matches!(
        NoElementFound::map(MethodCallError::TransportClosed),
        ElementLookupError::Call(MethodCallError::TransportClosed)
    ));
}

fn bare_node(backend: Option<u32>) -> AXNode {
    AXNode {
        node_id: String::from("n"),
        ignored: false,
        role: None,
        name: None,
        description: None,
        value: None,
        properties: None,
        parent_id: None,
        child_ids: None,
        backend_dom_node_id: backend,
        frame_id: None,
    }
}

#[test]
fn role_query_uses_the_first_backed_node() {
    assert!(first_backend_node_id(&Vec::new()).is_err());
    assert!(first_backend_node_id(&vec![bare_node(None)]).is_err());
    assert_eq!(first_backend_node_id(&vec![bare_node(Some(42)), bare_node(Some(7))]).unwrap(), 42);
}

#[test]
fn capture_data_decodes_from_transfer_encoding() {
    let decoded = decode_capture_data("aGVsbG8gd29ybGQ=").unwrap();
    assert_eq!(decoded, b"hello world".to_vec());
    assert!(decode_capture_data("not base64 !!!").is_none());
}

#[test]
fn modifier_bits_match_the_wire_protocol() {
    let kb = Keyboard::new();
    assert_eq!(kb.modifier_bit("Alt"), 1);
    assert_eq!(kb.modifier_bit("Control"), 2);
    assert_eq!(kb.modifier_bit("Meta"), 4);
    assert_eq!(kb.modifier_bit("Shift"), 8);
    assert_eq!(kb.modifier_bit("a"), 0);
}

#[test]
fn key_down_produces_a_key_event() {
    let mut kb = Keyboard::new();
    let ev = kb.down("a").unwrap();
    // 'a' inserts text, so the full keyDown goes out.
    assert_eq!(ev.event_type, "keyDown");
    assert_eq!(ev.key.as_deref(), Some("a"));
    assert_eq!(ev.code.as_deref(), Some("KeyA"));
    assert_eq!(ev.text.as_deref(), Some("a"));
    assert_eq!(ev.windows_virtual_key_code, 65);
    assert!(!ev.auto_repeat);
    // Held down again: auto-repeat.
    let again = kb.down("a").unwrap();
    assert!(again.auto_repeat);
}

#[test]
fn raw_key_down_for_textless_keys() {
    let mut kb = Keyboard::new();
    let ev = kb.down("ArrowLeft").unwrap();
    assert_eq!(ev.event_type, "rawKeyDown");
    assert!(ev.text.is_none());
}

#[test]
fn shift_changes_letters_and_digits() {
    let mut kb = Keyboard::new();
    let down_shift = kb.down("Shift").unwrap();
    assert_eq!(down_shift.modifiers, 8);
    let ev = kb.down("a").unwrap();
    assert_eq!(ev.key.as_deref(), Some("A"));
    assert_eq!(ev.text.as_deref(), Some("A"));
    let digit = kb.down("1").unwrap();
    assert_eq!(digit.key.as_deref(), Some("!"));
    kb.up("Shift").unwrap();
    assert_eq!(kb.modifiers, 0);
}

#[test]
fn key_up_releases_and_clears_state() {
    let mut kb = Keyboard::new();
    kb.down("Control").unwrap();
    assert_eq!(kb.modifiers, 2);
    let ev = kb.up("Control").unwrap();
    assert_eq!(ev.event_type, "keyUp");
    assert_eq!(ev.modifiers, 0);
    assert!(kb.pressed_keys.is_empty());
}

#[test]
fn unknown_keys_are_reported() {
    let mut kb = Keyboard::new();
    match kb.down("NoSuchKey") {
        Err(e) => assert_eq!(e.key, "NoSuchKey"),
        Ok(_) => panic!("expected the lookup failure"),
    }
}

#[test]
fn typing_mixes_presses_and_insertions() {
    let mut kb = Keyboard::new();
    let actions = kb.type_str("a☃b");
    assert_eq!(actions.len(), 3);
    assert!(matches!(actions[0], TypingAction::KeyPress(_, _)));
    match &actions[1] {
        TypingAction::Insert(it) => assert_eq!(it.text, "☃"),
        _ => panic!("the snowman is not a key"),
    }
    assert!(matches!(actions[2], TypingAction::KeyPress(_, _)));
}

#[test]
fn typing_nothing_does_nothing() {
    let mut kb = Keyboard::new();
    assert!(kb.type_str("").is_empty());
    assert_eq!(kb.modifiers, 0);
}

#[test]
fn mouse_move_interpolates_and_lands_exactly() {
    let mut mouse = Mouse::new();
    let events = mouse.mouse_move(10, 20, 1, 0);
    assert_eq!(events.len(), 1);
    assert_eq!(events[0].event_type, "mouseMoved");
    assert_eq!((events[0].x, events[0].y), (10, 20));
    let steps = mouse.mouse_move(20, 0, 4, 0);
    assert_eq!(steps.len(), 4);
    let xs: Vec<i64> = steps.iter().map(|e| e.x).collect();
    let ys: Vec<i64> = steps.iter().map(|e| e.y).collect();
    // From (10, 20) towards (20, 0) in quarters.
    assert_eq!(xs, vec![12, 15, 17, 20]);
    assert_eq!(ys, vec![15, 10, 5, 0]);
    assert_eq!((mouse.x, mouse.y), (20, 0));
}

#[test]
fn click_emits_move_press_release() {
    let mut mouse = Mouse::new();
    let events = mouse.click(5, 6, MouseButton::Left, 1, 0);
    assert_eq!(events.len(), 3);
    assert_eq!(events[0].event_type, "mouseMoved");
    assert_eq!(events[1].event_type, "mousePressed");
    assert_eq!(events[2].event_type, "mouseReleased");
    assert!(matches!(events[1].button, Some(MouseButton::Left)));
    assert_eq!(events[1].click_count, Some(1));
    // The button is released afterwards.
    assert!(mouse.button.is_none());
}

#[test]
fn buttons_serialize_to_their_wire_names() {
    assert_eq!(MouseButton::Left.wire_name(), "left");
    assert_eq!(MouseButton::Middle.wire_name(), "middle");
    assert_eq!(MouseButton::Right.wire_name(), "right");
    assert!(matches!(MouseButton::from_wire_name("middle"), MouseButton::Middle));
    assert!(matches!(MouseButton::from_wire_name("right"), MouseButton::Right));
    assert!(matches!(MouseButton::from_wire_name("unknown"), MouseButton::Left));
}

#[test]
fn slow_motion_scales_and_defaults_off() {
    let mut tab = fresh_tab();
    assert_eq!(tab.slow_motion_delay(100), 0);
    tab.set_slow_motion_multiplier(150);
    assert_eq!(tab.slow_motion_delay(100), 150);
}
