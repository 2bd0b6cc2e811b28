use htrime::engine::{Action, Engine, DEFAULT_HEIGHT, DEFAULT_WIDTH};
use htrime::events::{PointerEvent, ToolEvent};
use htrime::keys::{key_command, layout_keycode, pen_button_command, KeyCommand};
use htrime::registry::{bind_version, classify_interface, Capability};

fn default_engine() -> Engine {
    Engine::new(DEFAULT_WIDTH, DEFAULT_HEIGHT)
}

#[test]
fn tool_events_drive_the_capture_machine() {
    let mut e = default_engine();
    e.handle_tool(ToolEvent::Pressure { value: 900 });
    e.handle_tool(ToolEvent::Down);
    e.handle_tool(ToolEvent::Motion { x: 4, y: 5, time: 0 });
    let acts = e.handle_tool(ToolEvent::Up);
    assert_eq!(e.stroke_count(), 1);
    assert_eq!(e.stroke_point(0, 0).pressure, Some(900));
    assert_eq!(acts, vec![Action::SendRequest { line: b"200 80\n".to_vec() }]);
}

#[test]
fn tool_buttons_commit_and_undo() {
    let mut e = default_engine();
    e.handle_tool(ToolEvent::Down);
    e.handle_tool(ToolEvent::Motion { x: 4, y: 5, time: 0 });
    e.handle_tool(ToolEvent::Up);
    e.handle_tool(ToolEvent::Button { button: 332, pressed: true });
    assert_eq!(e.stroke_count(), 0);
    e.handle_tool(ToolEvent::Down);
    e.handle_tool(ToolEvent::Up);
    let acts = e.handle_tool(ToolEvent::Button { button: 331, pressed: true });
    assert_eq!(e.stroke_count(), 0);
    assert!(matches!(acts.first(), Some(Action::CommitText { .. })));
    // Releases and unknown buttons do nothing.
    assert!(e.handle_tool(ToolEvent::Button { button: 331, pressed: false }).is_empty());
    assert!(e.handle_tool(ToolEvent::Button { button: 7, pressed: true }).is_empty());
}

#[test]
fn pointer_buttons_clear_pressure_and_toggle_the_pen() {
    let mut e = default_engine();
    e.handle_tool(ToolEvent::Pressure { value: 900 });
    e.handle_pointer(PointerEvent::Button { pressed: true });
    assert!(e.pen_is_down());
    e.handle_pointer(PointerEvent::Motion { x: 1, y: 2, time: 3 });
    // The pointer has no pressure sensor, so the sample was cleared.
    assert_eq!(e.stroke_point(0, 0).pressure, None);
    let acts = e.handle_pointer(PointerEvent::Button { pressed: false });
    assert!(!e.pen_is_down());
    assert_eq!(acts, vec![Action::SendRequest { line: b"200 80\n".to_vec() }]);
}

#[test]
fn pointer_enter_and_leave() {
    let mut e = default_engine();
    assert!(e.handle_pointer(PointerEvent::Enter).is_empty());
    e.handle_pointer(PointerEvent::Button { pressed: true });
    e.handle_pointer(PointerEvent::Leave { left_our_surface: true });
    assert!(!e.pen_is_down());
}

#[test]
fn resolved_keys_undo_and_commit() {
    let mut e = default_engine();
    e.on_down();
    e.on_up();
    e.on_key_char('z');
    assert_eq!(e.stroke_count(), 0);
    let acts = e.on_key_char('\r');
    assert!(matches!(acts.first(), Some(Action::CommitText { .. })));
    assert!(e.on_key_char('q').is_empty());
}

#[test]
fn key_commands() {
    assert_eq!(key_command('z'), KeyCommand::Undo);
    assert_eq!(key_command('\r'), KeyCommand::CommitInput);
    assert_eq!(key_command('a'), KeyCommand::Ignored);
    assert_eq!(pen_button_command(331), KeyCommand::CommitInput);
    assert_eq!(pen_button_command(332), KeyCommand::Undo);
    assert_eq!(pen_button_command(330), KeyCommand::Ignored);
    assert_eq!(layout_keycode(44), 52);
}

#[test]
fn registry_classification() {
    assert_eq!(
        classify_interface(b"zwp_input_method_manager_v2"),
        Some(Capability::InputMethodManager)
    );
    assert_eq!(classify_interface(b"wl_seat"), Some(Capability::Seat));
    assert_eq!(classify_interface(b"wl_compositor"), Some(Capability::Compositor));
    assert_eq!(classify_interface(b"wl_shm"), Some(Capability::Shm));
    assert_eq!(
        classify_interface(b"zwp_tablet_manager_v2"),
        Some(Capability::TabletManager)
    );
    assert_eq!(classify_interface(b"wl_output"), None);
    assert_eq!(classify_interface(b"wl_sea"), None);
}

#[test]
fn bind_versions_match_the_protocol() {
    assert_eq!(bind_version(Capability::InputMethodManager), 1);
    assert_eq!(bind_version(Capability::Seat), 8);
    assert_eq!(bind_version(Capability::Compositor), 4);
    assert_eq!(bind_version(Capability::Shm), 1);
    assert_eq!(bind_version(Capability::TabletManager), 1);
}
