use plotters_vello::{
    BackendColor, BackendStyle, Cap, Circle, Error, Fill, Image, ImageFormat, Line, PathEl, Point,
    Rect, Scene, SceneCommand, Shape, Stroke, Transform, VelloBackend,
};
use vello::peniko::Color;

fn style(alpha: f64, rgb: (u8, u8, u8), stroke_width: u32) -> BackendStyle {
    BackendStyle { color: BackendColor { alpha: alpha.to_bits(), rgb }, stroke_width }
}

fn at(x_halves: i64, y_halves: i64) -> Point {
    Point { x_halves, y_halves }
}

#[test]
fn new_backend_keeps_size_and_scene() {
    let mut scene = Scene::new();
    assert_eq!(scene.len(), 0);
    let backend = VelloBackend::new((640, 480), &mut scene);
    assert_eq!(backend.get_size(), (640, 480));
    assert_eq!(backend.scene.len(), 0);
}

#[test]
fn preparing_and_presenting_change_nothing() {
    let mut scene = Scene::new();
    let mut backend = VelloBackend::new((3, 2), &mut scene);
    assert_eq!(backend.ensure_prepared(), Ok(()));
    assert_eq!(backend.present(), Ok(()));
    assert_eq!(backend.get_size(), (3, 2));
    assert_eq!(scene.len(), 0);
}

#[test]
fn pixel_is_a_unit_square_fill() {
    let mut scene = Scene::new();
    let mut backend = VelloBackend::new((10, 10), &mut scene);
    let red = BackendColor { alpha: 1.0f64.to_bits(), rgb: (255, 0, 0) };
    assert_eq!(backend.draw_pixel((3, 4), red), Ok(()));
    assert_eq!(
        scene.commands,
        vec![SceneCommand::Fill {
            style: Fill::NonZero,
            transform: Transform::Identity,
            brush: Color::from_rgba8(255, 0, 0, 255),
            shape: Shape::Rect(Rect { x0: 6, y0: 8, x1: 8, y1: 10 }),
        }]
    );
}

#[test]
fn pixel_at_the_edge_of_the_coordinate_range() {
    let mut scene = Scene::new();
    let mut backend = VelloBackend::new((10, 10), &mut scene);
    let red = BackendColor { alpha: 1.0f64.to_bits(), rgb: (255, 0, 0) };
    backend.draw_pixel((i32::MAX, i32::MIN), red).unwrap();
    let SceneCommand::Fill { shape, .. } = &scene.commands[0] else {
        panic!("not a fill");
    };
    assert_eq!(
        *shape,
        Shape::Rect(Rect {
            x0: 2 * i32::MAX as i64,
            y0: 2 * i32::MIN as i64,
            x1: 2 * i32::MAX as i64 + 2,
            y1: 2 * i32::MIN as i64 + 2,
        })
    );
}

#[test]
fn line_runs_between_pixel_centres() {
    let mut scene = Scene::new();
    let mut backend = VelloBackend::new((10, 10), &mut scene);
    backend.draw_line((0, 0), (4, 2), &style(0.5, (1, 2, 3), 3)).unwrap();
    assert_eq!(
        scene.commands,
        vec![SceneCommand::Stroke {
            style: Stroke { width: 3, end_cap: Cap::Square },
            transform: Transform::Identity,
            brush: Color::from_rgba8(1, 2, 3, 128),
            shape: Shape::Line(Line { start: at(1, 1), end: at(9, 5) }),
        }]
    );
}

#[test]
fn filled_rect_reaches_one_pixel_further() {
    let mut scene = Scene::new();
    let mut backend = VelloBackend::new((10, 10), &mut scene);
    backend.draw_rect((0, 0), (2, 2), &style(1.0, (0, 0, 0), 1), true).unwrap();
    assert_eq!(
        scene.commands,
        vec![SceneCommand::Fill {
            style: Fill::NonZero,
            transform: Transform::Identity,
            brush: Color::from_rgba8(0, 0, 0, 255),
            shape: Shape::Rect(Rect { x0: 0, y0: 0, x1: 6, y1: 6 }),
        }]
    );
    let Shape::Rect(rect) = (match &scene.commands[0] {
        SceneCommand::Fill { shape, .. } => shape,
        _ => unreachable!(),
    }) else {
        unreachable!()
    };
    let floats =
        [rect.x0 as f64 / 2.0, rect.y0 as f64 / 2.0, rect.x1 as f64 / 2.0, rect.y1 as f64 / 2.0];
    assert_eq!(floats, [0.0, 0.0, 3.0, 3.0]);
}

#[test]
fn stroked_rect_runs_through_pixel_centres() {
    let mut scene = Scene::new();
    let mut backend = VelloBackend::new((10, 10), &mut scene);
    backend.draw_rect((0, 0), (2, 2), &style(1.0, (9, 8, 7), 2), false).unwrap();
    assert_eq!(
        scene.commands,
        vec![SceneCommand::Stroke {
            style: Stroke { width: 2, end_cap: Cap::Square },
            transform: Transform::Identity,
            brush: Color::from_rgba8(9, 8, 7, 255),
            shape: Shape::Rect(Rect { x0: 1, y0: 1, x1: 5, y1: 5 }),
        }]
    );
}

#[test]
fn filling_the_whole_canvas_with_white() {
    let width = 3;
    let height = 2;
    let mut scene = Scene::new();
    let mut backend = VelloBackend::new((width, height), &mut scene);
    let white = style(1.0, (255, 255, 255), 1);
    backend.draw_rect((0, 0), (width as i32 - 1, height as i32 - 1), &white, true).unwrap();
    assert_eq!(
        scene.commands,
        vec![SceneCommand::Fill {
            style: Fill::NonZero,
            transform: Transform::Identity,
            brush: Color::from_rgba8(255, 255, 255, 255),
            shape: Shape::Rect(Rect { x0: 0, y0: 0, x1: 6, y1: 4 }),
        }]
    );
    let SceneCommand::Fill { brush, .. } = &scene.commands[0] else {
        unreachable!()
    };
    assert_eq!(brush.to_rgba8().to_u8_array(), [255, 255, 255, 255]);
}

#[test]
fn path_is_stroked_through_pixel_centres() {
    let mut scene = Scene::new();
    let mut backend = VelloBackend::new((10, 10), &mut scene);
    backend.draw_path(&[(1, 2), (3, 4), (5, 6)], &style(1.0, (0, 255, 0), 1)).unwrap();
    assert_eq!(
        scene.commands,
        vec![SceneCommand::Stroke {
            style: Stroke { width: 1, end_cap: Cap::Square },
            transform: Transform::Identity,
            brush: Color::from_rgba8(0, 255, 0, 255),
            shape: Shape::Path(vec![
                PathEl::MoveTo(at(3, 5)),
                PathEl::LineTo(at(7, 9)),
                PathEl::LineTo(at(11, 13)),
            ]),
        }]
    );
}

#[test]
fn empty_path_draws_nothing() {
    let mut scene = Scene::new();
    let mut backend = VelloBackend::new((10, 10), &mut scene);
    assert_eq!(backend.draw_path(&[], &style(1.0, (0, 255, 0), 1)), Ok(()));
    assert_eq!(scene.len(), 0);
}

#[test]
fn transparent_polygon_is_skipped_but_transparent_path_is_not() {
    let points = [(1, 2), (3, 4), (5, 6)];
    for zero in [0.0f64, -0.0f64] {
        let clear = style(zero, (0, 0, 255), 1);
        let mut scene = Scene::new();
        let mut backend = VelloBackend::new((10, 10), &mut scene);
        assert_eq!(backend.fill_polygon(&points, &clear), Ok(()));
        assert_eq!(backend.scene.len(), 0);
        assert_eq!(backend.draw_path(&points, &clear), Ok(()));
        assert_eq!(backend.scene.len(), 1);
        assert_eq!(
            scene.commands,
            vec![SceneCommand::Stroke {
                style: Stroke { width: 1, end_cap: Cap::Square },
                transform: Transform::Identity,
                brush: Color::from_rgba8(0, 0, 255, 0),
                shape: Shape::Path(vec![
                    PathEl::MoveTo(at(3, 5)),
                    PathEl::LineTo(at(7, 9)),
                    PathEl::LineTo(at(11, 13)),
                ]),
            }]
        );
    }
}

#[test]
fn polygon_is_a_closed_path_fill() {
    let mut scene = Scene::new();
    let mut backend = VelloBackend::new((10, 10), &mut scene);
    backend.fill_polygon(&[(0, 0), (4, 0), (0, 4)], &style(0.25, (5, 6, 7), 9)).unwrap();
    assert_eq!(
        scene.commands,
        vec![SceneCommand::Fill {
            style: Fill::NonZero,
            transform: Transform::Identity,
            brush: Color::from_rgba8(5, 6, 7, 64),
            shape: Shape::Path(vec![
                PathEl::MoveTo(at(1, 1)),
                PathEl::LineTo(at(9, 1)),
                PathEl::LineTo(at(1, 9)),
                PathEl::ClosePath,
            ]),
        }]
    );
}

#[test]
fn faint_polygon_is_still_drawn() {
    let mut scene = Scene::new();
    let mut backend = VelloBackend::new((10, 10), &mut scene);
    backend.fill_polygon(&[(0, 0), (4, 0), (0, 4)], &style(0.001, (5, 6, 7), 1)).unwrap();
    assert_eq!(scene.len(), 1);
    let SceneCommand::Fill { brush, .. } = &scene.commands[0] else {
        panic!("not a fill");
    };
    assert_eq!(*brush, Color::from_rgba8(5, 6, 7, 0));
}

#[test]
fn polygon_without_vertices_is_a_lone_close() {
    let mut scene = Scene::new();
    let mut backend = VelloBackend::new((10, 10), &mut scene);
    backend.fill_polygon(&[], &style(1.0, (5, 6, 7), 1)).unwrap();
    let SceneCommand::Fill { shape, .. } = &scene.commands[0] else {
        panic!("not a fill");
    };
    assert_eq!(*shape, Shape::Path(vec![PathEl::ClosePath]));
}

#[test]
fn circle_is_centred_on_the_pixel() {
    let mut scene = Scene::new();
    let mut backend = VelloBackend::new((10, 10), &mut scene);
    let ink = style(1.0, (1, 1, 1), 4);
    backend.draw_circle((5, 6), 7, &ink, true).unwrap();
    backend.draw_circle((5, 6), 7, &ink, false).unwrap();
    let circle = Shape::Circle(Circle { center: at(11, 13), radius: 7 });
    assert_eq!(
        scene.commands,
        vec![
            SceneCommand::Fill {
                style: Fill::NonZero,
                transform: Transform::Identity,
                brush: Color::from_rgba8(1, 1, 1, 255),
                shape: circle.clone(),
            },
            SceneCommand::Stroke {
                style: Stroke { width: 4, end_cap: Cap::Square },
                transform: Transform::Identity,
                brush: Color::from_rgba8(1, 1, 1, 255),
                shape: circle,
            },
        ]
    );
}

#[test]
fn bitmap_is_copied_and_put_at_the_corner() {
    let mut scene = Scene::new();
    let mut backend = VelloBackend::new((10, 10), &mut scene);
    let mut bytes = vec![1u8, 2, 3, 4, 5, 6, 7, 8];
    backend.blit_bitmap((3, -4), (2, 1), &bytes).unwrap();
    bytes[0] = 99;
    assert_eq!(
        scene.commands,
        vec![SceneCommand::Image {
            image: Image {
                data: vec![1, 2, 3, 4, 5, 6, 7, 8],
                format: ImageFormat::Rgba8,
                width: 2,
                height: 1,
            },
            transform: Transform::Translate(at(6, -8)),
        }]
    );
}

#[test]
fn commands_are_appended_in_order() {
    let mut scene = Scene::new();
    let ink = style(1.0, (0, 0, 0), 1);
    {
        let mut backend = VelloBackend::new((10, 10), &mut scene);
        backend.draw_pixel((0, 0), ink.color).unwrap();
        backend.draw_line((0, 0), (1, 1), &ink).unwrap();
        backend.scene().fill(
            Fill::EvenOdd,
            Transform::Identity,
            Color::from_rgba8(1, 2, 3, 4),
            Shape::Rect(Rect { x0: 0, y0: 0, x1: 2, y1: 2 }),
        );
        backend.draw_circle((0, 0), 1, &ink, true).unwrap();
    }
    {
        let mut backend = VelloBackend::new((10, 10), &mut scene);
        backend.blit_bitmap((0, 0), (0, 0), &[]).unwrap();
    }
    assert_eq!(scene.len(), 5);
    assert!(matches!(scene.commands[0], SceneCommand::Fill { style: Fill::NonZero, .. }));
    assert!(matches!(scene.commands[1], SceneCommand::Stroke { .. }));
    assert!(matches!(scene.commands[2], SceneCommand::Fill { style: Fill::EvenOdd, .. }));
    assert!(matches!(scene.commands[3], SceneCommand::Fill { style: Fill::NonZero, .. }));
    assert!(matches!(scene.commands[4], SceneCommand::Image { .. }));
}

#[test]
fn error_text() {
    assert_eq!(Error {}.to_string(), "plotters-vello error\n");
    assert_eq!(Error {}, Error {});
}
