use las_viewer::{Action, Key, PointRecord, Rgb16, RunState, Scene, Viewer, ViewerEvent};

fn viewer() -> Viewer {
    let c = Rgb16 { red: 10, green: 20, blue: 30 };
    let records = vec![
        PointRecord { x: 0, y: 0, z: 0, color: Some(c) },
        PointRecord { x: 8, y: 6, z: 4, color: Some(c) },
    ];
    Viewer::new(Scene::from_records(&records).unwrap())
}

#[test]
fn viewer_starts_running() {
    let v = viewer();
    assert!(v.is_running());
    assert_eq!(v.state(), RunState::Running);
}

#[test]
fn close_request_stops() {
    let mut v = viewer();
    assert_eq!(v.handle_event(ViewerEvent::CloseRequested), Action::Stop);
    assert_eq!(v.state(), RunState::Stopped);
}

#[test]
fn escape_stops_other_keys_do_not() {
    let mut v = viewer();
    assert_eq!(v.handle_event(ViewerEvent::KeyPressed(Key::Other)), Action::Nothing);
    assert!(v.is_running());
    assert_eq!(v.handle_event(ViewerEvent::KeyPressed(Key::Escape)), Action::Stop);
    assert!(!v.is_running());
}

#[test]
fn resize_keeps_state_and_scene() {
    let mut v = viewer();
    let before = v.scene().bounds().center();
    assert_eq!(v.handle_event(ViewerEvent::Resized(1024, 768)), Action::ResizeTargets(1024, 768));
    assert!(v.is_running());
    assert_eq!(v.scene().points().len(), 2);
    assert_eq!(v.scene().bounds().center(), before);
}

#[test]
fn frame_events_in_order() {
    let mut v = viewer();
    let events = vec![
        ViewerEvent::Other,
        ViewerEvent::Resized(800, 600),
        ViewerEvent::CloseRequested,
        ViewerEvent::Resized(640, 480),
    ];
    let actions = v.handle_events(&events);
    assert_eq!(
        actions,
        vec![
            Action::Nothing,
            Action::ResizeTargets(800, 600),
            Action::Stop,
            Action::ResizeTargets(640, 480),
        ]
    );
    assert_eq!(v.state(), RunState::Stopped);
}

#[test]
fn no_events_change_nothing() {
    let mut v = viewer();
    assert!(v.handle_events(&Vec::new()).is_empty());
    assert!(v.is_running());
}
