use svg_drawing::{create_path, Point, SvgPath};

fn pts(v: &[(i64, i64)]) -> Vec<Point> {
    v.iter().map(|&(x, y)| Point { x, y }).collect()
}

#[test]
fn test_create_path() {
    // Polygon
    assert_eq!(
        create_path(pts(&[(0, 0), (100, 100), (-100, -100)]), true, false),
        "M 0 0 L 1 1 L -1 -1 Z"
    );

    // Smooth: the first and the last segment stay straight
    assert_eq!(
        create_path(pts(&[(0, 0), (100, 100), (200, 100), (300, 0)]), true, true),
        "M 0 0 L 1 1 C 1.4 1.2 1.6 1.2 2 1 L 3 0 Z"
    );
}

#[test]
fn test_svgpath() {
    // Polygon Mode
    assert_eq!(
        create_path(pts(&[(0, 0), (100, 100), (-100, -100)]), true, false),
        "M 0 0 L 1 1 L -1 -1 Z"
    );
}

#[test]
fn short_paths_have_no_segment() {
    for close in [false, true] {
        for circul in [false, true] {
            assert_eq!(create_path(Vec::new(), close, circul), "");
            let one = create_path(pts(&[(150, -250)]), close, circul);
            assert!(!one.contains('L') && !one.contains('C'));
            assert!(one.starts_with("M 1.5 -2.5"));
        }
    }
    assert_eq!(create_path(pts(&[(150, -250)]), true, false), "M 1.5 -2.5 Z");
    let mut path = SvgPath::new(None, Some(true));
    path.add(Point { x: 100, y: 200 });
    assert_eq!(path.data(), "M 1 2");
}

#[test]
fn smooth_path_of_four_points() {
    let d = create_path(pts(&[(0, 0), (100, 100), (200, 100), (300, 0)]), true, true);
    assert_eq!(d.matches('M').count(), 1);
    assert_eq!(d.matches('C').count(), 1);
    assert_eq!(d.matches('L').count(), 2);
    assert!(d.starts_with("M 0 0 L 1 1 C"));
    assert!(d.ends_with(" L 3 0 Z"));
}

#[test]
fn smooth_path_of_five_points() {
    // control points: (1,1)+(2,1)/5, (2,1)+(-2,1)/5, then (2,1)+(2,-1)/5, (3,0)+(-2,1)/5
    assert_eq!(
        create_path(
            pts(&[(0, 0), (100, 100), (200, 100), (300, 0), (400, 0)]),
            false,
            true
        ),
        "M 0 0 L 1 1 C 1.4 1.2 1.6 1.2 2 1 C 2.4 0.8 2.6 0.2 3 0 L 4 0"
    );
}

#[test]
fn smooth_path_with_repeated_points() {
    assert_eq!(
        create_path(pts(&[(100, 100), (100, 100), (100, 100), (100, 100)]), false, true),
        "M 1 1 L 1 1 C 1 1 1 1 1 1 L 1 1"
    );
}

#[test]
fn smooth_control_points_round_to_hundredths() {
    // chords of 0.01: a fifth of them rounds to zero
    assert_eq!(
        create_path(pts(&[(0, 0), (1, 0), (1, 1), (2, 1)]), false, true),
        "M 0 0 L 0.01 0 C 0.01 0 0.01 0.01 0.01 0.01 L 0.02 0.01"
    );
}

#[test]
fn path_markup_and_attributes() {
    let mut path = SvgPath::new(None, None);
    assert!(!path.is_close() && !path.is_circul());
    assert_eq!(path.get_stroke(), "black");
    assert_eq!(path.get_fill(), "none");
    assert_eq!(path.get_stroke_width(), 100);
    path.add(Point { x: 0, y: 0 });
    path.add(Point { x: 100, y: 100 });
    assert_eq!(
        path.to_string(),
        "<path stroke=\"black\" stroke-width=\"1\" fill=\"none\" stroke-linejoin=\"miter\" stroke-linecap=\"square\" d=\"M 0 0 L 1 1\" />"
    );
    path.set_fill("");
    path.set_stroke("red");
    path.set_stroke_width(-1);
    path.toggle_circul();
    path.toggle_close();
    assert!(path.is_close() && path.is_circul());
    assert_eq!(
        path.to_string(),
        "<path stroke=\"red\" fill=\"none\" stroke-linejoin=\"round\" stroke-linecap=\"round\" d=\"M 0 0 L 1 1 Z\" />"
    );
    path.set_fill("blue");
    path.set_stroke_width(250);
    assert_eq!(
        path.to_string(),
        "<path stroke=\"red\" stroke-width=\"2.5\" fill=\"blue\" stroke-linejoin=\"round\" stroke-linecap=\"round\" d=\"M 0 0 L 1 1 Z\" />"
    );
}

#[test]
fn path_new_takes_given_flags() {
    let path = SvgPath::new(Some(true), Some(false));
    assert!(path.is_close());
    assert!(!path.is_circul());
    assert_eq!(path.get_point_length(), 0);
}

#[test]
fn path_points_by_index() {
    let mut path = SvgPath::new(None, None);
    path.add(Point { x: 1, y: 2 });
    path.add(Point { x: 3, y: 4 });
    assert_eq!(path.get_point_length(), 2);
    assert_eq!(path.get_point(1), Ok(Point { x: 3, y: 4 }));
    assert_eq!(path.get_point(2), Err(svg_drawing::DrawingError::OutOfRange));
    assert_eq!(path.update_point(0, Point { x: 9, y: 9 }), Ok(()));
    assert_eq!(path.get_point(0), Ok(Point { x: 9, y: 9 }));
    assert_eq!(
        path.update_point(5, Point { x: 0, y: 0 }),
        Err(svg_drawing::DrawingError::OutOfRange)
    );
    assert_eq!(path.points, vec![Point { x: 9, y: 9 }, Point { x: 3, y: 4 }]);
    let copy = path.copy();
    path.clear();
    assert_eq!(path.get_point_length(), 0);
    assert_eq!(copy.get_point_length(), 2);
}

#[test]
fn path_scale_scales_points_and_width() {
    let mut path = SvgPath::new(None, None);
    path.add(Point { x: 100, y: -300 });
    path.add(Point { x: 5, y: 0 });
    assert_eq!(path.scale(svg_drawing::Ratio { num: 3, den: 2 }), Ok(()));
    assert_eq!(path.points, vec![Point { x: 150, y: -450 }, Point { x: 8, y: 0 }]);
    assert_eq!(path.get_stroke_width(), 150);
}

#[test]
fn path_scale_refuses_overflow() {
    let mut path = SvgPath::new(None, None);
    path.add(Point { x: 1, y: 1 });
    path.add(Point { x: i64::MAX / 2 + 1, y: 0 });
    assert_eq!(
        path.scale(svg_drawing::Ratio { num: 2, den: 1 }),
        Err(svg_drawing::DrawingError::Overflow)
    );
    assert_eq!(path.points, vec![Point { x: 1, y: 1 }, Point { x: i64::MAX / 2 + 1, y: 0 }]);
    assert_eq!(path.get_stroke_width(), 100);
}
