use plotters_vello::{
    place_text, Cap, Circle, Fill, FontStack, FontTransform, GenericFamily, HPos, Image,
    ImageFormat, LayoutRequest, Point, Pos, Scene, SceneCommand, Shape, Slant, Stroke,
    StyleProperty, Transform, VPos,
};
use vello::peniko::Color;

#[test]
fn new_scene_is_empty() {
    let scene = Scene::new();
    assert_eq!(scene.len(), 0);
    assert!(scene.commands.is_empty());
}

#[test]
fn scene_keeps_every_kind_of_command_in_order() {
    let mut scene = Scene::new();
    let ink = Color::from_rgba8(1, 2, 3, 4);
    let dot = Shape::Circle(Circle { center: Point { x_halves: 1, y_halves: 1 }, radius: 1 });
    let request = LayoutRequest {
        text: "x".to_string(),
        font_size: 10.0f64.to_bits(),
        font_stack: FontStack::Generic(GenericFamily::UiSerif),
        property: StyleProperty::FontStyle(Slant::Normal),
    };
    let placement = place_text(
        FontTransform::Unrotated,
        Pos { h_pos: HPos::Center, v_pos: VPos::Center },
        (0, 0),
    );

    scene.fill(Fill::EvenOdd, Transform::Identity, ink, dot.clone());
    scene.stroke(Stroke { width: 2, end_cap: Cap::Round }, Transform::Identity, ink, dot.clone());
    scene.draw_image(
        Image { data: vec![0; 4], format: ImageFormat::Bgra8, width: 1, height: 1 },
        Transform::Translate(Point { x_halves: 2, y_halves: 4 }),
    );
    scene.draw_text(request.clone(), placement, ink, false);
    scene.push(SceneCommand::Fill {
        style: Fill::NonZero,
        transform: Transform::Identity,
        brush: ink,
        shape: dot.clone(),
    });

    assert_eq!(scene.len(), 5);
    assert_eq!(
        scene.commands,
        vec![
            SceneCommand::Fill {
                style: Fill::EvenOdd,
                transform: Transform::Identity,
                brush: ink,
                shape: dot.clone(),
            },
            SceneCommand::Stroke {
                style: Stroke { width: 2, end_cap: Cap::Round },
                transform: Transform::Identity,
                brush: ink,
                shape: dot.clone(),
            },
            SceneCommand::Image {
                image: Image { data: vec![0; 4], format: ImageFormat::Bgra8, width: 1, height: 1 },
                transform: Transform::Translate(Point { x_halves: 2, y_halves: 4 }),
            },
            SceneCommand::Text { request, placement, brush: ink, hint: false },
            SceneCommand::Fill {
                style: Fill::NonZero,
                transform: Transform::Identity,
                brush: ink,
                shape: dot,
            },
        ]
    );
}
