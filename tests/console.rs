use gcode_console::input::{CommandInput, KeyCode, PROMPT};
use gcode_console::rpc::{endpoint, envelope, format_json, frame_envelope, NetworkLoop};
use gcode_console::ui::{Drained, InputEvent, KeyPress, Scrollback, UiAction};
use gcode_console::{exit_status, ConsoleError, QUEUE_CAPACITY};

fn typed(text: &str) -> CommandInput {
    let mut cmd = CommandInput::new();
    for ch in text.chars() {
        cmd.append(ch);
    }
    cmd
}

fn key(code: KeyCode) -> InputEvent {
    InputEvent::Key(KeyPress { code, control_only: false, is_press: true })
}

#[test]
fn new_input_has_prompt_only() {
    let cmd = CommandInput::new();
    assert_eq!(cmd.prompt(), PROMPT);
    assert_eq!(cmd.input(), "");
    assert_eq!(cmd.len(), 2);
}

#[test]
fn geometry_of_prompt_and_ten_characters_at_width_ten() {
    let cmd = typed("gcode test");
    assert_eq!(cmd.len(), 12);
    assert_eq!(cmd.rows_needed(10), 2);
    assert_eq!(cmd.cursor_column(10), 2);
}

#[test]
fn geometry_matches_division_and_remainder() {
    for n in 0..40usize {
        let text: String = std::iter::repeat('x').take(n).collect();
        let cmd = typed(&text);
        for w in 1..15u16 {
            let len = n + 2;
            assert_eq!(cmd.rows_needed(w), len / w as usize + 1);
            assert_eq!(cmd.cursor_column(w) as usize, len % w as usize);
        }
    }
}

#[test]
fn exactly_full_row_reserves_a_new_row() {
    let cmd = typed("abcdefgh");
    assert_eq!(cmd.rows_needed(10), 2);
    assert_eq!(cmd.cursor_column(10), 0);
}

#[test]
fn backspace_on_empty_buffer_is_a_no_op() {
    let mut cmd = CommandInput::new();
    cmd.backspace();
    assert_eq!(cmd.len(), 2);
    assert_eq!(cmd.input(), "");
}

#[test]
fn backspace_removes_last_character() {
    let mut cmd = typed("G28");
    cmd.backspace();
    assert_eq!(cmd.input(), "G2");
    assert_eq!(cmd.len(), 4);
}

#[test]
fn characters_are_counted_not_bytes() {
    let cmd = typed("é°");
    assert_eq!(cmd.len(), 4);
}

#[test]
fn render_wraps_buffer_after_prompt() {
    let cmd = typed("gcode test");
    assert_eq!(cmd.render(10), vec!["> gcode te".to_string(), "st".to_string()]);
}

#[test]
fn render_empty_buffer_is_prompt_alone() {
    let cmd = CommandInput::new();
    assert_eq!(cmd.render(10), vec!["> ".to_string()]);
}

#[test]
fn render_long_buffer_in_full_rows() {
    let cmd = typed("abcdefghijkl");
    assert_eq!(cmd.render(4), vec!["> ab".to_string(), "cdef".to_string(), "ghij".to_string(), "kl".to_string()]);
}

#[test]
fn render_narrower_than_prompt() {
    let cmd = typed("abc");
    assert_eq!(cmd.render(1), vec!["> ".to_string(), "a".to_string(), "b".to_string(), "c".to_string()]);
}

#[test]
fn key_presses_edit_the_buffer() {
    let mut cmd = CommandInput::new();
    cmd.on_key_press(KeyCode::Char('M'));
    cmd.on_key_press(KeyCode::Char('1'));
    cmd.on_key_press(KeyCode::Other);
    assert_eq!(cmd.input(), "M1");
    cmd.on_key_press(KeyCode::Backspace);
    assert_eq!(cmd.input(), "M");
}

#[test]
fn enter_submits_and_clears() {
    let mut cmd = typed("G28");
    match cmd.handle_event(key(KeyCode::Enter)) {
        UiAction::Submit(s) => assert_eq!(s, "G28"),
        other => panic!("unexpected {:?}", other),
    }
    assert_eq!(cmd.input(), "");
}

#[test]
fn control_c_quits() {
    let mut cmd = typed("G2");
    let ev = InputEvent::Key(KeyPress { code: KeyCode::Char('c'), control_only: true, is_press: true });
    assert!(matches!(cmd.handle_event(ev), UiAction::Quit));
    assert_eq!(cmd.input(), "G2");
}

#[test]
fn plain_c_is_typed() {
    let mut cmd = CommandInput::new();
    assert!(matches!(cmd.handle_event(key(KeyCode::Char('c'))), UiAction::Continue));
    assert_eq!(cmd.input(), "c");
}

#[test]
fn escape_and_other_events_are_ignored() {
    let mut cmd = typed("G1");
    let released = InputEvent::Key(KeyPress { code: KeyCode::Char('x'), control_only: false, is_press: false });
    for ev in [
        key(KeyCode::Esc),
        released,
        InputEvent::FocusGained,
        InputEvent::FocusLost,
        InputEvent::Mouse,
        InputEvent::Paste("M112".to_string()),
        InputEvent::Resize(80, 24),
    ] {
        assert!(matches!(cmd.handle_event(ev), UiAction::Continue));
    }
    assert_eq!(cmd.input(), "G1");
}

#[test]
fn replies_are_appended_in_order() {
    let mut sb = Scrollback::new();
    assert!(sb.on_drain(Drained::Response("first".to_string())).is_ok());
    assert!(sb.on_drain(Drained::Empty).is_ok());
    assert!(sb.on_drain(Drained::Response("second".to_string())).is_ok());
    assert!(sb.on_drain(Drained::Response("third".to_string())).is_ok());
    assert_eq!(sb.len(), 3);
    assert_eq!(sb.newest_first(), vec!["third".to_string(), "second".to_string(), "first".to_string()]);
}

#[test]
fn closed_reply_queue_is_fatal() {
    let mut sb = Scrollback::new();
    let r = sb.on_drain(Drained::Closed);
    assert!(matches!(r, Err(ConsoleError::DisconnectedNetworkChannel)));
    assert_eq!(sb.len(), 0);
}

#[test]
fn frame_envelope_writes_json_rpc_body() {
    let body = frame_envelope("\"abc\"", "\"G28\"");
    assert_eq!(
        body,
        "{\"jsonrpc\":\"2.0\",\"id\":\"abc\",\"method\":\"printer.gcode.script\",\"params\":{\"script\":\"G28\"}}"
    );
}

#[test]
fn envelope_quotes_identifier_and_script() {
    let body = envelope(0xa1a2a3a4b1b2c1c2d1d2d3d4d5d6d7d8, "M117 \"hi\"").unwrap();
    assert_eq!(
        body,
        "{\"jsonrpc\":\"2.0\",\"id\":\"a1a2a3a4-b1b2-c1c2-d1d2-d3d4d5d6d7d8\",\"method\":\"printer.gcode.script\",\"params\":{\"script\":\"M117 \\\"hi\\\"\"}}"
    );
}

#[test]
fn endpoint_appends_rpc_path() {
    assert_eq!(endpoint("http://localhost:7125"), "http://localhost:7125/server/jsonrpc");
}

#[test]
fn closed_command_queue_is_fatal() {
    let mut net = NetworkLoop::new();
    let r = net.next_request(None);
    assert!(matches!(r, Err(ConsoleError::DisconnectedIOChannel)));
    assert_ne!(exit_status(&r.map(|_| ())), 0);
}

#[test]
fn consecutive_requests_have_distinct_ids() {
    let mut net = NetworkLoop::new();
    let a = net.next_request(Some("G28".to_string())).unwrap();
    let b = net.next_request(Some("G28".to_string())).unwrap();
    assert_ne!(a.id, b.id);
    assert_ne!(a.body, b.body);
    assert!(a.body.contains("\"script\":\"G28\""));
    assert_eq!(uuid::Uuid::from_u128(a.id).get_version_num(), 4);
}

#[test]
fn exit_status_is_zero_only_on_success() {
    assert_eq!(exit_status::<ConsoleError>(&Ok(())), 0);
    assert_eq!(exit_status(&Err(ConsoleError::DisconnectedNetworkChannel)), 1);
}

#[test]
fn format_json_indents() {
    let mut m = serde_json::Map::new();
    m.insert("result".to_string(), serde_json::Value::String("ok".to_string()));
    let v = serde_json::Value::Object(m);
    assert_eq!(format_json(&v).unwrap(), "{\n  \"result\": \"ok\"\n}");
}

#[test]
fn third_unconsumed_push_waits_for_a_drain() {
    let (tx, mut rx) = tokio::sync::mpsc::channel::<String>(QUEUE_CAPACITY);
    assert!(tx.try_send("a".to_string()).is_ok());
    assert!(tx.try_send("b".to_string()).is_ok());
    assert!(matches!(tx.try_send("c".to_string()), Err(tokio::sync::mpsc::error::TrySendError::Full(_))));
    assert_eq!(rx.try_recv().unwrap(), "a");
    assert!(tx.try_send("c".to_string()).is_ok());
    assert_eq!(rx.try_recv().unwrap(), "b");
    assert_eq!(rx.try_recv().unwrap(), "c");
}

#[test]
fn request_for_builds_body_and_refuses_a_repeated_id() {
    let mut net = NetworkLoop::new();
    let id: u128 = 0xa1a2a3a4b1b2c1c2d1d2d3d4d5d6d7d8;
    let req = net.request_for(id, "G28".to_string()).unwrap();
    assert_eq!(req.id, id);
    assert_eq!(
        req.body,
        "{\"jsonrpc\":\"2.0\",\"id\":\"a1a2a3a4-b1b2-c1c2-d1d2-d3d4d5d6d7d8\",\"method\":\"printer.gcode.script\",\"params\":{\"script\":\"G28\"}}"
    );
    assert!(matches!(net.request_for(id, "G1".to_string()), Err(ConsoleError::RepeatedRequestId)));
    assert!(net.request_for(id + 1, "G1".to_string()).is_ok());
}

#[test]
fn backspace_key_on_empty_buffer_keeps_length() {
    let mut cmd = CommandInput::new();
    cmd.on_key_press(KeyCode::Backspace);
    assert_eq!(cmd.len(), 2);
    assert_eq!(cmd.input(), "");
}

#[test]
fn envelope_escapes_control_characters() {
    let body = envelope(0, "a\tb\u{1}\\").unwrap();
    assert_eq!(
        body,
        "{\"jsonrpc\":\"2.0\",\"id\":\"00000000-0000-0000-0000-000000000000\",\"method\":\"printer.gcode.script\",\"params\":{\"script\":\"a\\tb\\u0001\\\\\"}}"
    );
}
