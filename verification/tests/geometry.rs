use vecdraw::data_sources::DataError;
use vecdraw::path::{circle_path, line_path, polygon_path, rectangle_path, PathElem};
use vecdraw::primitives::{
    command_in_bounds, Color, DrawCommand, Point, Stroke, COORD_LIMIT, SUBPIXELS,
};
use vecdraw::style::resolve_stroke;

fn sub(v: i32) -> i64 {
    v as i64 * SUBPIXELS
}

fn end_of(elem: &PathElem) -> (i64, i64) {
    match elem {
        PathElem::MoveTo { x, y } => (*x, *y),
        PathElem::LineTo { x, y } => (*x, *y),
        PathElem::CubicTo { x, y, .. } => (*x, *y),
        PathElem::ClosePath => panic!("a close step has no endpoint"),
    }
}

#[test]
fn circle_path_passes_through_cardinal_points() {
    let cx = sub(10);
    let cy = sub(10);
    let r = sub(5);
    let v = circle_path(Point { x: cx, y: cy }, r);
    assert_eq!(v.len(), 6);
    assert_eq!(end_of(&v[0]), (cx - r, cy));
    assert_eq!(end_of(&v[1]), (cx, cy - r));
    assert_eq!(end_of(&v[2]), (cx + r, cy));
    assert_eq!(end_of(&v[3]), (cx, cy + r));
    assert_eq!(end_of(&v[4]), (cx - r, cy));
    assert!(matches!(v[5], PathElem::ClosePath));
}

#[test]
fn circle_handle_offset_is_the_rounded_kappa_fraction() {
    // for a radius of one pixel, k * 256 = 141.38... rounds to 141 subunits
    let v = circle_path(Point { x: 0, y: 0 }, 256);
    match v[1] {
        PathElem::CubicTo { x1, y1, x2, y2, x, y } => {
            assert_eq!((x1, y1), (-256, -141));
            assert_eq!((x2, y2), (-141, -256));
            assert_eq!((x, y), (0, -256));
        }
        _ => panic!("the first arc must be a cubic segment"),
    }
}

#[test]
fn rectangle_path_walks_the_four_corners_closed() {
    let v = rectangle_path(Point { x: sub(1), y: sub(2) }, sub(3), sub(4));
    assert_eq!(
        v,
        vec![
            PathElem::MoveTo { x: sub(1), y: sub(2) },
            PathElem::LineTo { x: sub(4), y: sub(2) },
            PathElem::LineTo { x: sub(4), y: sub(6) },
            PathElem::LineTo { x: sub(1), y: sub(6) },
            PathElem::ClosePath,
        ]
    );
}

#[test]
fn line_path_is_one_open_segment() {
    let v = line_path(Point { x: sub(1), y: sub(1) }, Point { x: sub(7), y: sub(2) });
    assert_eq!(
        v,
        vec![
            PathElem::MoveTo { x: sub(1), y: sub(1) },
            PathElem::LineTo { x: sub(7), y: sub(2) },
        ]
    );
}

#[test]
fn polygon_path_closes_and_empty_list_yields_no_path() {
    let pts = vec![Point { x: sub(1), y: sub(1) }, Point { x: sub(5), y: sub(1) }, Point {
        x: sub(3),
        y: sub(4),
    }];
    let v = polygon_path(&pts);
    assert_eq!(
        v,
        vec![
            PathElem::MoveTo { x: sub(1), y: sub(1) },
            PathElem::LineTo { x: sub(5), y: sub(1) },
            PathElem::LineTo { x: sub(3), y: sub(4) },
            PathElem::ClosePath,
        ]
    );
    let empty = polygon_path(&vec![]);
    assert_eq!(empty.len(), 0);
}

#[test]
fn stroke_resolution_gates_on_color_presence() {
    let black = Color { r: 0, g: 0, b: 0, a: 255 };
    assert_eq!(resolve_stroke(&None), None);
    assert_eq!(resolve_stroke(&Some(Stroke { color: None, width: sub(5) })), None);
    assert_eq!(
        resolve_stroke(&Some(Stroke { color: Some(black), width: sub(5) })),
        Some((black, sub(5)))
    );
}

#[test]
fn defaults_match_the_documented_values() {
    assert_eq!(Point::default(), Point { x: 0, y: 0 });
    assert_eq!(Color::default(), Color { r: 0, g: 0, b: 0, a: 255 });
    let stroke = Stroke::default();
    assert_eq!(stroke.color, Some(Color { r: 0, g: 0, b: 0, a: 255 }));
    assert_eq!(stroke.width, 2 * SUBPIXELS);
}

#[test]
fn command_bounds_check_accepts_and_rejects() {
    let ok = DrawCommand::Circle {
        position: Point::from_px(100, 100),
        radius: sub(50),
        fill: None,
        stroke: None,
    };
    assert!(command_in_bounds(&ok));
    let negative_radius = DrawCommand::Circle {
        position: Point::from_px(100, 100),
        radius: -1,
        fill: None,
        stroke: None,
    };
    assert!(!command_in_bounds(&negative_radius));
    let too_far = DrawCommand::Line {
        start: Point { x: COORD_LIMIT + 1, y: 0 },
        end: Point { x: 0, y: 0 },
        stroke: None,
    };
    assert!(!command_in_bounds(&too_far));
    let bad_stroke = DrawCommand::Rectangle {
        position: Point::from_px(0, 0),
        width: sub(4),
        height: sub(4),
        fill: None,
        stroke: Some(Stroke { color: None, width: -5 }),
    };
    assert!(!command_in_bounds(&bad_stroke));
}

#[test]
fn data_error_carries_its_message() {
    let err = DataError::ColumnNotFound("Column 'x' not found".to_string());
    assert_eq!(err.message(), "Column 'x' not found");
    assert!(matches!(err, DataError::ColumnNotFound(_)));
    let err = DataError::PolarsError("boom".to_string());
    assert_eq!(err.message(), "boom");
}
