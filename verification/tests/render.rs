use vecdraw::canvas::{Canvas, RenderError};
use vecdraw::primitives::{Color, DrawCommand, Point, Stroke, SUBPIXELS};
use vecdraw::renderer::PngRenderer;

fn sub(v: i32) -> i64 {
    v as i64 * SUBPIXELS
}

fn opaque(r: u8, g: u8, b: u8) -> Color {
    Color { r, g, b, a: 255 }
}

fn pixel(data: &[u8], width: u32, x: u32, y: u32) -> [u8; 4] {
    let i = ((y * width + x) * 4) as usize;
    [data[i], data[i + 1], data[i + 2], data[i + 3]]
}

fn all_pixels_are(data: &[u8], rgba: [u8; 4]) -> bool {
    data.chunks(4).all(|p| p == rgba)
}

#[test]
fn full_canvas_rectangle_fill_is_red() {
    let renderer = PngRenderer::new(10, 10, "unused.png");
    let commands = vec![DrawCommand::Rectangle {
        position: Point::from_px(0, 0),
        width: sub(10),
        height: sub(10),
        fill: Some(opaque(255, 0, 0)),
        stroke: None,
    }];
    let pixmap = renderer.render_pixmap(&commands).unwrap();
    assert_eq!(pixmap.width(), 10);
    assert_eq!(pixmap.height(), 10);
    assert!(all_pixels_are(pixmap.data(), [255, 0, 0, 255]));
}

#[test]
fn later_rectangle_occludes_earlier() {
    let renderer = PngRenderer::new(10, 10, "unused.png");
    let commands = vec![
        DrawCommand::Rectangle {
            position: Point::from_px(0, 0),
            width: sub(10),
            height: sub(10),
            fill: Some(opaque(0, 0, 255)),
            stroke: None,
        },
        DrawCommand::Rectangle {
            position: Point::from_px(0, 0),
            width: sub(5),
            height: sub(5),
            fill: Some(opaque(255, 0, 0)),
            stroke: None,
        },
    ];
    let pixmap = renderer.render_pixmap(&commands).unwrap();
    let data = pixmap.data();
    assert_eq!(pixel(data, 10, 0, 0), [255, 0, 0, 255]);
    assert_eq!(pixel(data, 10, 7, 7), [0, 0, 255, 255]);
}

#[test]
fn overlapping_opaque_rectangles_show_the_later_color() {
    let renderer = PngRenderer::new(16, 16, "unused.png");
    let commands = vec![
        DrawCommand::Rectangle {
            position: Point::from_px(0, 0),
            width: sub(8),
            height: sub(8),
            fill: Some(opaque(0, 255, 0)),
            stroke: None,
        },
        DrawCommand::Rectangle {
            position: Point::from_px(4, 4),
            width: sub(8),
            height: sub(8),
            fill: Some(opaque(255, 0, 0)),
            stroke: None,
        },
    ];
    let pixmap = renderer.render_pixmap(&commands).unwrap();
    let data = pixmap.data();
    // every pixel of the overlap square shows the later rectangle's color
    for y in 4..8 {
        for x in 4..8 {
            assert_eq!(pixel(data, 16, x, y), [255, 0, 0, 255]);
        }
    }
    assert_eq!(pixel(data, 16, 1, 1), [0, 255, 0, 255]);
}

#[test]
fn text_only_leaves_canvas_white() {
    let renderer = PngRenderer::new(10, 10, "unused.png");
    let commands = vec![DrawCommand::Text {
        position: Point::from_px(3, 3),
        content: "hello".to_string(),
        font_size: sub(12),
        color: Some(opaque(0, 0, 0)),
    }];
    let result = renderer.render_pixmap(&commands);
    let pixmap = result.unwrap();
    assert!(all_pixels_are(pixmap.data(), [255, 255, 255, 255]));
}

#[test]
fn unstyled_commands_change_no_pixel() {
    let renderer = PngRenderer::new(10, 10, "unused.png");
    let commands = vec![
        DrawCommand::Circle {
            position: Point::from_px(5, 5),
            radius: sub(3),
            fill: None,
            stroke: None,
        },
        DrawCommand::Rectangle {
            position: Point::from_px(1, 1),
            width: sub(7),
            height: sub(7),
            fill: None,
            stroke: None,
        },
        DrawCommand::Polygon {
            points: vec![Point::from_px(1, 8), Point::from_px(8, 8), Point::from_px(4, 1)],
            fill: None,
            stroke: None,
        },
        DrawCommand::Line {
            start: Point::from_px(0, 0),
            end: Point::from_px(9, 9),
            stroke: None,
        },
    ];
    let pixmap = renderer.render_pixmap(&commands).unwrap();
    assert!(all_pixels_are(pixmap.data(), [255, 255, 255, 255]));
}

#[test]
fn empty_polygon_succeeds_and_draws_nothing() {
    let renderer = PngRenderer::new(10, 10, "unused.png");
    let commands = vec![DrawCommand::Polygon {
        points: vec![],
        fill: Some(opaque(255, 0, 0)),
        stroke: Some(Stroke { color: Some(opaque(0, 0, 0)), width: sub(5) }),
    }];
    let result = renderer.render_pixmap(&commands);
    assert!(result.is_ok());
    assert!(all_pixels_are(result.unwrap().data(), [255, 255, 255, 255]));
}

#[test]
fn colorless_stroke_matches_no_stroke() {
    let with_colorless = vec![
        DrawCommand::Rectangle {
            position: Point::from_px(2, 2),
            width: sub(6),
            height: sub(6),
            fill: Some(opaque(0, 128, 0)),
            stroke: Some(Stroke { color: None, width: sub(5) }),
        },
        DrawCommand::Circle {
            position: Point::from_px(5, 5),
            radius: sub(3),
            fill: None,
            stroke: Some(Stroke { color: None, width: sub(5) }),
        },
    ];
    let without = vec![
        DrawCommand::Rectangle {
            position: Point::from_px(2, 2),
            width: sub(6),
            height: sub(6),
            fill: Some(opaque(0, 128, 0)),
            stroke: None,
        },
        DrawCommand::Circle {
            position: Point::from_px(5, 5),
            radius: sub(3),
            fill: None,
            stroke: None,
        },
    ];
    let renderer = PngRenderer::new(12, 12, "unused.png");
    let a = renderer.render_pixmap(&with_colorless).unwrap();
    let b = renderer.render_pixmap(&without).unwrap();
    assert_eq!(a.data(), b.data());
}

#[test]
fn rendering_twice_gives_identical_buffers() {
    let commands = vec![
        DrawCommand::Circle {
            position: Point::from_px(6, 6),
            radius: sub(4),
            fill: Some(opaque(200, 40, 40)),
            stroke: Some(Stroke { color: Some(opaque(0, 0, 0)), width: sub(1) }),
        },
        DrawCommand::Polygon {
            points: vec![Point::from_px(1, 11), Point::from_px(11, 11), Point::from_px(6, 2)],
            fill: Some(opaque(40, 40, 200)),
            stroke: None,
        },
    ];
    let renderer = PngRenderer::new(12, 12, "unused.png");
    let a = renderer.render_pixmap(&commands).unwrap();
    let b = renderer.render_pixmap(&commands).unwrap();
    assert_eq!(a.data(), b.data());
}

#[test]
fn stroke_is_painted_over_the_fill() {
    let renderer = PngRenderer::new(12, 12, "unused.png");
    let commands = vec![DrawCommand::Rectangle {
        position: Point::from_px(2, 2),
        width: sub(6),
        height: sub(6),
        fill: Some(opaque(255, 0, 0)),
        stroke: Some(Stroke { color: Some(opaque(0, 0, 255)), width: sub(2) }),
    }];
    let pixmap = renderer.render_pixmap(&commands).unwrap();
    let data = pixmap.data();
    // a pixel on the outline shows the stroke color, not the fill color
    assert_eq!(pixel(data, 12, 2, 5), [0, 0, 255, 255]);
    // a pixel well inside still shows the fill color
    assert_eq!(pixel(data, 12, 5, 5), [255, 0, 0, 255]);
}

#[test]
fn line_stroke_paints_its_band() {
    let renderer = PngRenderer::new(10, 10, "unused.png");
    let commands = vec![DrawCommand::Line {
        start: Point::from_px(2, 5),
        end: Point::from_px(8, 5),
        stroke: Some(Stroke { color: Some(opaque(0, 0, 0)), width: sub(2) }),
    }];
    let pixmap = renderer.render_pixmap(&commands).unwrap();
    let data = pixmap.data();
    assert_eq!(pixel(data, 10, 5, 5), [0, 0, 0, 255]);
    assert_eq!(pixel(data, 10, 5, 1), [255, 255, 255, 255]);
}

#[test]
fn zero_size_canvas_fails_allocation() {
    let renderer = PngRenderer::new(0, 10, "unused.png");
    let result = renderer.render_pixmap(&[]);
    assert!(matches!(result, Err(RenderError::CanvasAllocationFailed)));
    let renderer = PngRenderer::new(10, 0, "unused.png");
    assert!(matches!(renderer.render_pixmap(&[]), Err(RenderError::CanvasAllocationFailed)));
}

#[test]
fn canvas_starts_white_and_applies_commands() {
    let mut canvas = match Canvas::new(5, 5) {
        Ok(c) => c,
        Err(_) => panic!("canvas allocation failed"),
    };
    assert_eq!(canvas.width(), 5);
    assert_eq!(canvas.height(), 5);
    let noop = DrawCommand::Circle {
        position: Point::from_px(2, 2),
        radius: sub(1),
        fill: None,
        stroke: None,
    };
    assert!(canvas.apply(&noop).is_ok());
    let pixmap = canvas.into_pixmap();
    assert!(all_pixels_are(pixmap.data(), [255, 255, 255, 255]));
}

#[test]
fn renderer_reports_its_configuration() {
    let renderer = PngRenderer::new(500, 250, "test_output.png");
    assert_eq!(renderer.width(), 500);
    assert_eq!(renderer.height(), 250);
    assert_eq!(renderer.file_path(), "test_output.png");
}
