use htrime::engine::{Action, Engine, EngineError, ImEvent, DEFAULT_HEIGHT, DEFAULT_WIDTH};

fn default_engine() -> Engine {
    Engine::new(DEFAULT_WIDTH, DEFAULT_HEIGHT)
}

#[test]
fn capture_records_one_point_per_motion_in_order() {
    let mut e = default_engine();
    e.on_down();
    e.on_motion(10, 20, 100);
    e.on_motion(11, 21, 101);
    e.on_motion(12, 22, 102);
    e.on_up();
    assert_eq!(e.stroke_count(), 1);
    assert_eq!(e.stroke_len(0), 3);
    let expected = [(10i32, 20i32, 100u32), (11, 21, 101), (12, 22, 102)];
    for (j, (x, y, t)) in expected.iter().enumerate() {
        let p = e.stroke_point(0, j);
        assert_eq!((p.x, p.y, p.time, p.pressure), (*x, *y, *t, None));
    }
}

#[test]
fn motion_with_pen_up_records_nothing() {
    let mut e = default_engine();
    let acts = e.on_motion(10, 20, 100);
    assert_eq!(e.stroke_count(), 0);
    assert!(acts.is_empty());
}

#[test]
fn motion_carries_the_latest_pressure_sample() {
    let mut e = default_engine();
    e.on_pressure(32768);
    e.on_down();
    e.on_motion(5, 5, 1);
    e.clear_pressure();
    e.on_motion(6, 6, 2);
    assert_eq!(e.stroke_point(0, 0).pressure, Some(32768));
    assert_eq!(e.stroke_point(0, 1).pressure, None);
}

#[test]
fn first_motion_moves_then_later_motions_draw_segments() {
    let mut e = default_engine();
    e.on_down();
    let first = e.on_motion(10, 20, 1);
    assert_eq!(
        first,
        vec![Action::MoveTo { x: 10, y: 20 }, Action::PresentCanvas]
    );
    let second = e.on_motion(12, 24, 2);
    assert_eq!(
        second,
        vec![
            Action::DrawSegment { x0: 10, y0: 20, x1: 12, y1: 24, pressure: None },
            Action::PresentCanvas,
        ]
    );
}

#[test]
fn each_down_opens_a_new_stroke() {
    let mut e = default_engine();
    e.on_down();
    e.on_motion(1, 1, 1);
    e.on_up();
    e.on_down();
    e.on_up();
    assert_eq!(e.stroke_count(), 2);
    assert_eq!(e.stroke_len(0), 1);
    assert_eq!(e.stroke_len(1), 0);
}

#[test]
fn undo_on_empty_session_is_a_noop() {
    let mut e = default_engine();
    let acts = e.undo();
    assert_eq!(e.stroke_count(), 0);
    assert_eq!((e.width(), e.height()), (DEFAULT_WIDTH, DEFAULT_HEIGHT));
    // It still repaints and re-requests recognition, as any undo does.
    assert_eq!(
        acts,
        vec![
            Action::ClearCanvas,
            Action::PresentCanvas,
            Action::SendRequest { line: b"200 80\n".to_vec() },
        ]
    );
}

#[test]
fn undo_discards_only_the_last_stroke() {
    let mut e = default_engine();
    e.on_down();
    e.on_motion(1, 2, 1);
    e.on_up();
    e.on_down();
    e.on_motion(3, 4, 2);
    e.on_up();
    e.undo();
    assert_eq!(e.stroke_count(), 1);
    assert_eq!(e.stroke_point(0, 0).x, 1);
}

#[test]
fn undo_redraws_what_remains() {
    let mut e = default_engine();
    e.on_down();
    e.on_motion(1, 2, 1);
    e.on_motion(3, 4, 2);
    e.on_up();
    e.on_down();
    e.on_motion(9, 9, 3);
    e.on_up();
    let acts = e.undo();
    assert_eq!(
        acts,
        vec![
            Action::ClearCanvas,
            Action::MoveTo { x: 1, y: 2 },
            Action::DrawSegment { x0: 1, y0: 2, x1: 3, y1: 4, pressure: None },
            Action::PresentCanvas,
            Action::SendRequest { line: b"200 80\n".to_vec() },
        ]
    );
}

#[test]
fn auto_resize_triggers_only_beyond_eight_tenths() {
    // Width 200: the threshold is max x extent > 160.
    let mut e = default_engine();
    e.on_down();
    e.on_motion(160, 10, 1);
    e.on_up();
    assert_eq!((e.width(), e.height()), (200, 80));

    let mut e = default_engine();
    e.on_down();
    e.on_motion(161, 10, 1);
    let acts = e.on_up();
    assert_eq!((e.width(), e.height()), (300, 80));
    assert_eq!(acts.first(), Some(&Action::RecreateBuffer { width: 300, height: 80 }));
}

#[test]
fn request_names_the_dimensions_at_request_time() {
    let mut e = default_engine();
    e.on_down();
    e.on_motion(190, 10, 1);
    let acts = e.on_up();
    // The resize ran first, so the request names the grown canvas.
    assert_eq!(
        acts.last(),
        Some(&Action::SendRequest { line: b"300 80\n".to_vec() })
    );
}

#[test]
fn pen_up_without_resize_still_requests_recognition() {
    let mut e = default_engine();
    e.on_down();
    e.on_motion(10, 10, 1);
    let acts = e.on_up();
    assert_eq!(acts, vec![Action::SendRequest { line: b"200 80\n".to_vec() }]);
}

#[test]
fn commit_resets_session_and_canvas() {
    let mut e = default_engine();
    e.on_im_event(ImEvent::Done).unwrap();
    e.on_down();
    e.on_motion(190, 10, 1);
    e.on_up();
    assert_eq!(e.width(), 300);
    e.feed_recognizer(b"recognized: hi\n");
    e.poll_recognizer();
    let acts = e.enter_input();
    assert_eq!(e.stroke_count(), 0);
    assert_eq!((e.width(), e.height()), (DEFAULT_WIDTH, DEFAULT_HEIGHT));
    assert_eq!(e.preedit_text(), b"".to_vec());
    assert_eq!(
        acts,
        vec![
            Action::CommitText { text: b"hi".to_vec(), serial: 1 },
            Action::RecreateBuffer { width: 200, height: 80 },
            Action::ClearCanvas,
            Action::PresentCanvas,
            Action::PresentCanvas,
        ]
    );
}

#[test]
fn recognized_line_replaces_preedit_and_noise_does_not() {
    let mut e = default_engine();
    e.feed_recognizer(b"recognized: hello\n");
    let acts = e.poll_recognizer();
    assert_eq!(e.preedit_text(), b"hello".to_vec());
    assert_eq!(
        acts,
        vec![Action::StagePreedit { text: b"hello".to_vec(), serial: 0 }]
    );
    e.feed_recognizer(b"log: debug\n");
    let acts = e.poll_recognizer();
    assert_eq!(e.preedit_text(), b"hello".to_vec());
    // The engine still re-stages the unchanged preedit, as a full line
    // was consumed.
    assert_eq!(
        acts,
        vec![Action::StagePreedit { text: b"hello".to_vec(), serial: 0 }]
    );
}

#[test]
fn split_delivery_yields_the_same_preedit() {
    let mut split = default_engine();
    split.feed_recognizer(b"recogni");
    assert!(split.poll_recognizer().is_empty());
    assert_eq!(split.preedit_text(), b"".to_vec());
    split.feed_recognizer(b"zed: hi\n");
    let split_acts = split.poll_recognizer();

    let mut whole = default_engine();
    whole.feed_recognizer(b"recognized: hi\n");
    let whole_acts = whole.poll_recognizer();

    assert_eq!(split.preedit_text(), whole.preedit_text());
    assert_eq!(split_acts, whole_acts);
    assert_eq!(split.preedit_text(), b"hi".to_vec());
}

#[test]
fn serial_advances_once_per_done_and_tags_every_message() {
    let mut e = default_engine();
    assert_eq!(e.serial(), 0);
    e.feed_recognizer(b"recognized: a\n");
    let acts = e.poll_recognizer();
    assert_eq!(acts, vec![Action::StagePreedit { text: b"a".to_vec(), serial: 0 }]);

    e.on_im_event(ImEvent::Done).unwrap();
    assert_eq!(e.serial(), 1);
    e.feed_recognizer(b"recognized: b\n");
    let acts = e.poll_recognizer();
    assert_eq!(acts, vec![Action::StagePreedit { text: b"b".to_vec(), serial: 1 }]);

    e.on_im_event(ImEvent::Done).unwrap();
    e.on_im_event(ImEvent::Done).unwrap();
    assert_eq!(e.serial(), 3);
    let acts = e.enter_input();
    assert_eq!(
        acts.first(),
        Some(&Action::CommitText { text: b"b".to_vec(), serial: 3 })
    );
}

#[test]
fn activation_is_tracked_and_unavailable_is_fatal() {
    let mut e = default_engine();
    assert!(!e.is_active());
    assert_eq!(e.on_im_event(ImEvent::Activate), Ok(()));
    assert!(e.is_active());
    assert_eq!(e.on_im_event(ImEvent::Deactivate), Ok(()));
    assert!(!e.is_active());
    assert_eq!(
        e.on_im_event(ImEvent::Unavailable),
        Err(EngineError::InputMethodUnavailable)
    );
}

#[test]
fn pointer_leave_only_lifts_the_pen() {
    let mut e = default_engine();
    e.on_down();
    e.on_motion(1, 1, 1);
    assert!(e.pen_is_down());
    e.on_pointer_leave(false);
    assert!(e.pen_is_down());
    e.on_pointer_leave(true);
    assert!(!e.pen_is_down());
    // Unlike pen-up, leaving asks for nothing: no resize, no request,
    // and the stroke stays.
    assert_eq!(e.stroke_count(), 1);
}
