use svg_drawing::{DrawingError, Point, SvgDrawing, SvgPath};

fn path_of(points: &[(i64, i64)]) -> SvgPath {
    let mut path = SvgPath::new(None, None);
    for &(x, y) in points {
        path.add(Point { x, y });
    }
    path
}

#[test]
fn undo_on_empty_drawing_gives_nothing() {
    let mut drawing = SvgDrawing::new(10000, 5000);
    assert!(drawing.undo().is_none());
    assert_eq!(drawing.get_path_length(), 0);
}

#[test]
fn undo_after_add_gives_the_path_back() {
    let mut drawing = SvgDrawing::new(10000, 5000);
    drawing.add(path_of(&[(0, 0)]));
    let before = drawing.get_path_length();
    let mut path = path_of(&[(100, 200), (300, 400)]);
    path.set_stroke("green");
    drawing.add(path.copy());
    assert_eq!(drawing.get_path_length(), before + 1);
    let back = drawing.undo().unwrap();
    assert_eq!(drawing.get_path_length(), before);
    assert_eq!(back.points, path.points);
    assert_eq!(back.to_string(), path.to_string());
}

#[test]
fn paths_by_index() {
    let mut drawing = SvgDrawing::new(10000, 5000);
    assert_eq!(drawing.update(path_of(&[])).err(), Some(DrawingError::OutOfRange));
    assert_eq!(drawing.get_path(0).err(), Some(DrawingError::OutOfRange));
    drawing.add(path_of(&[(1, 1)]));
    drawing.add(path_of(&[(2, 2)]));
    assert_eq!(drawing.update(path_of(&[(3, 3)])), Ok(()));
    assert_eq!(drawing.get_path(1).unwrap().points, vec![Point { x: 3, y: 3 }]);
    assert_eq!(drawing.update_path(0, path_of(&[(4, 4)])), Ok(()));
    assert_eq!(drawing.get_path(0).unwrap().points, vec![Point { x: 4, y: 4 }]);
    assert_eq!(
        drawing.update_path(2, path_of(&[])),
        Err(DrawingError::OutOfRange)
    );
    assert_eq!(drawing.get_path_length(), 2);
    drawing.clear();
    assert_eq!(drawing.get_path_length(), 0);
}

#[test]
fn change_size_scales_by_width_ratio() {
    let mut drawing = SvgDrawing::new(10000, 5000);
    drawing.add(path_of(&[(100, 200), (-300, 50)]));
    assert_eq!(drawing.change_size(20000, 7000), Ok(()));
    assert_eq!((drawing.width, drawing.height), (20000, 7000));
    let path = drawing.get_path(0).unwrap();
    assert_eq!(path.points, vec![Point { x: 200, y: 400 }, Point { x: -600, y: 100 }]);
    assert_eq!(path.get_stroke_width(), 200);
}

#[test]
fn change_size_rounds_to_hundredths() {
    let mut drawing = SvgDrawing::new(300, 300);
    drawing.add(path_of(&[(100, 200)]));
    assert_eq!(drawing.change_size(100, 100), Ok(()));
    assert_eq!(drawing.get_path(0).unwrap().points, vec![Point { x: 33, y: 67 }]);
    assert_eq!(drawing.get_path(0).unwrap().get_stroke_width(), 33);
}

#[test]
fn change_size_refuses_zero_width_and_overflow() {
    let mut drawing = SvgDrawing::new(0, 100);
    drawing.add(path_of(&[(100, 200)]));
    assert_eq!(drawing.change_size(100, 100), Err(DrawingError::ZeroWidth));
    assert_eq!((drawing.width, drawing.height), (0, 100));

    let mut drawing = SvgDrawing::new(1, 100);
    drawing.add(path_of(&[(i64::MAX, 0)]));
    assert_eq!(drawing.change_size(2, 200), Err(DrawingError::Overflow));
    assert_eq!((drawing.width, drawing.height), (1, 100));
    assert_eq!(drawing.get_path(0).unwrap().points, vec![Point { x: i64::MAX, y: 0 }]);
}

#[test]
fn drawing_markup() {
    let mut drawing = SvgDrawing::new(10000, 5050);
    assert_eq!(
        drawing.to_string(),
        "<svg width=\"100\" height=\"50.5\" version=\"1.1\" xmlns=\"http://www.w3.org/2000/svg\"></svg>"
    );
    drawing.add(path_of(&[(0, 0), (100, 100)]));
    let mut second = path_of(&[(200, 0)]);
    second.toggle_close();
    drawing.add(second);
    assert_eq!(
        drawing.to_string(),
        "<svg width=\"100\" height=\"50.5\" version=\"1.1\" xmlns=\"http://www.w3.org/2000/svg\">\
<path stroke=\"black\" stroke-width=\"1\" fill=\"none\" stroke-linejoin=\"miter\" stroke-linecap=\"square\" d=\"M 0 0 L 1 1\" />\
<path stroke=\"black\" stroke-width=\"1\" fill=\"none\" stroke-linejoin=\"miter\" stroke-linecap=\"square\" d=\"M 2 0 Z\" />\
</svg>"
    );
}
