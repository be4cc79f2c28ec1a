use nih_plug_egui_test::editor::EditorState;

#[test]
fn new_state_is_closed_with_given_size() {
    let s: EditorState<f32> = EditorState::from_size(420, 220);
    assert_eq!(s.size(), (420, 220));
    assert!(!s.is_open());
    assert_eq!(s.requested_size(), None);
    assert_eq!(s.scaling_factor(), None);
    assert_eq!(s.editor_size(), (420, 220));
    assert_eq!(s.resize_drag_base(), (420, 220));
}

#[test]
fn host_sees_pending_request() {
    let mut s: EditorState<f32> = EditorState::from_size(420, 220);
    s.set_requested_size((500, 300));
    assert_eq!(s.editor_size(), (500, 300));
    assert_eq!(s.size(), (420, 220));
}

#[test]
fn later_request_replaces_earlier() {
    let mut s: EditorState<f32> = EditorState::from_size(420, 220);
    s.set_requested_size((500, 300));
    s.set_requested_size((640, 480));
    assert_eq!(s.requested_size(), Some((640, 480)));
}

#[test]
fn accepted_resize_applies_request() {
    let mut s: EditorState<f32> = EditorState::from_size(420, 220);
    s.set_requested_size((500, 300));
    let pending = s.take_requested_resize().expect("a request is pending");
    assert_eq!(pending.new_size, (500, 300));
    assert_eq!(pending.old_size, (420, 220));
    // While the host is asked, the editor already reports the new size.
    assert_eq!(s.editor_size(), (500, 300));
    assert_eq!(s.requested_size(), None);
    s.finish_resize(pending, true);
    assert_eq!(s.size(), (500, 300));
    assert_eq!(s.requested_size(), None);
}

#[test]
fn refused_resize_keeps_size() {
    let mut s: EditorState<f32> = EditorState::from_size(420, 220);
    s.set_requested_size((500, 300));
    let pending = s.take_requested_resize().expect("a request is pending");
    s.finish_resize(pending, false);
    assert_eq!(s.size(), (420, 220));
    assert_eq!(s.requested_size(), None);
    assert_eq!(s.editor_size(), (420, 220));
}

#[test]
fn no_request_no_resize() {
    let mut s: EditorState<f32> = EditorState::from_size(420, 220);
    assert!(s.take_requested_resize().is_none());
    assert_eq!(s.size(), (420, 220));
}

#[test]
fn scale_factor_refused_while_open() {
    let mut s: EditorState<f32> = EditorState::from_size(420, 220);
    assert!(s.set_scale_factor(2.0));
    assert_eq!(s.scaling_factor(), Some(2.0));
    s.set_open(true);
    assert!(s.is_open());
    assert!(!s.set_scale_factor(1.5));
    assert_eq!(s.scaling_factor(), Some(2.0));
    s.set_open(false);
    assert!(s.set_scale_factor(1.5));
    assert_eq!(s.scaling_factor(), Some(1.5));
}

#[test]
fn drag_measured_from_start() {
    let mut s: EditorState<f32> = EditorState::from_size(420, 220);
    s.start_resize_drag();
    s.set_requested_size((450, 240));
    let pending = s.take_requested_resize().unwrap();
    s.finish_resize(pending, true);
    assert_eq!(s.size(), (450, 240));
    assert_eq!(s.resize_drag_base(), (420, 220));
    s.stop_resize_drag();
    assert_eq!(s.resize_drag_base(), (450, 240));
}
