use las_viewer::{colored_points, ColoredPoint, LoadError, PointRecord, Rgb16, Scene};

fn rec(x: i32, y: i32, z: i32, color: Option<Rgb16>) -> PointRecord {
    PointRecord { x, y, z, color }
}

const RED: Rgb16 = Rgb16 { red: 65535, green: 0, blue: 0 };
const GREY: Rgb16 = Rgb16 { red: 32768, green: 32768, blue: 32768 };

#[test]
fn uncolored_records_are_dropped() {
    let records = vec![
        rec(1, 1, 1, None),
        rec(2, 2, 2, Some(RED)),
        rec(3, 3, 3, None),
        rec(4, 4, 4, Some(GREY)),
    ];
    let pts = colored_points(&records);
    assert_eq!(
        pts,
        vec![
            ColoredPoint { x: 2, y: 2, z: 2, color: RED },
            ColoredPoint { x: 4, y: 4, z: 4, color: GREY },
        ]
    );
}

#[test]
fn color_channels_are_kept_exactly() {
    let c = Rgb16 { red: 1, green: 65535, blue: 0 };
    let pts = colored_points(&vec![rec(0, 0, 0, Some(c))]);
    assert_eq!(pts[0].color, c);
    // The drawn color is the channel over 65535, in [0, 1].
    let g = pts[0].color.green as f32 / 65535.0;
    assert_eq!(g, 1.0);
    let r = pts[0].color.red as f32 / 65535.0;
    assert!(r > 0.0 && r < 1.0e-4);
}

#[test]
fn no_colored_record_is_no_data() {
    let records = vec![rec(1, 2, 3, None), rec(4, 5, 6, None)];
    assert!(matches!(Scene::from_records(&records), Err(LoadError::NoData)));
}

#[test]
fn empty_file_is_no_data() {
    assert!(matches!(Scene::from_records(&Vec::new()), Err(LoadError::NoData)));
}

#[test]
fn scene_holds_colored_points_and_their_box() {
    let records = vec![
        rec(100, -50, 7, Some(RED)),
        rec(-900, 900, 900, None),
        rec(-20, 30, 1, Some(GREY)),
    ];
    let scene = Scene::from_records(&records).unwrap();
    assert_eq!(scene.points().len(), 2);
    let b = scene.bounds();
    assert_eq!(b.min_corner(), (-20, -50, 1));
    assert_eq!(b.max_corner(), (100, 30, 7));
    assert_eq!(b.center(), (80, -20, 8));
}
