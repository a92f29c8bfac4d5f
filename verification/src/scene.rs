//! The scene: the ordered list of drawing commands of one frame.
//!
//! A scene only grows. Every operation of a backend appends at most one
//! command and leaves the commands before it as they were.

use vstd::prelude::*;
use vello::peniko::Color;
use crate::geometry::{Circle, Line, PathEl, Point, Rect};
use crate::text::{LayoutRequest, LayoutRequestView, TextPlacement};

verus! {

/// Which points a path encloses.
#[derive(Clone, Copy, Debug, PartialEq, Eq)]
pub enum Fill {
    NonZero,
    EvenOdd,
}

/// How the ends of a stroke are drawn.
#[derive(Clone, Copy, Debug, PartialEq, Eq)]
pub enum Cap {
    Butt,
    Square,
    Round,
}

/// The style of a stroke: its width in pixels and its end caps.
#[derive(Clone, Copy, Debug, PartialEq, Eq)]
pub struct Stroke {
    pub width: u32,
    pub end_cap: Cap,
}

/// The transform under which a command is drawn.
#[derive(Clone, Copy, Debug, PartialEq, Eq)]
pub enum Transform {
    Identity,
    /// A shift that takes the origin to the point.
    Translate(Point),
}

/// The outline of a fill or a stroke.
#[derive(Clone, Debug, PartialEq, Eq)]
pub enum Shape {
    Rect(Rect),
    Line(Line),
    Circle(Circle),
    Path(Vec<PathEl>),
}

/// The layout of an image's pixels in its bytes.
#[derive(Clone, Copy, Debug, PartialEq, Eq)]
pub enum ImageFormat {
    /// Four bytes a pixel: red, green, blue, alpha.
    Rgba8,
    /// Four bytes a pixel: blue, green, red, alpha.
    Bgra8,
}

/// An image: its bytes, row by row, and its size in pixels.
#[derive(Clone, Debug, PartialEq, Eq)]
pub struct Image {
    pub data: Vec<u8>,
    pub format: ImageFormat,
    pub width: u32,
    pub height: u32,
}

/// One drawing command.
#[derive(Debug, PartialEq)]
pub enum SceneCommand {
    /// Fills a shape with a colour.
    Fill { style: Fill, transform: Transform, brush: Color, shape: Shape },
    /// Strokes the outline of a shape with a colour.
    Stroke { style: Stroke, transform: Transform, brush: Color, shape: Shape },
    /// Draws an image with its corner at the origin.
    Image { image: Image, transform: Transform },
    /// Lays a text out and draws the run where the placement puts it.
    Text { request: LayoutRequest, placement: TextPlacement, brush: Color, hint: bool },
}

/// The list of commands of a frame, in the order in which they are drawn.
#[derive(Debug, PartialEq)]
pub struct Scene {
    pub commands: Vec<SceneCommand>,
}

/// The mathematical value of a [`Shape`].
pub enum ShapeView {
    Rect(Rect),
    Line(Line),
    Circle(Circle),
    Path(Seq<PathEl>),
}

/// The mathematical value of an [`Image`].
pub struct ImageView {
    pub data: Seq<u8>,
    pub format: ImageFormat,
    pub width: u32,
    pub height: u32,
}

/// The mathematical value of a [`SceneCommand`].
pub enum SceneCommandView {
    Fill { style: Fill, transform: Transform, brush: Color, shape: ShapeView },
    Stroke { style: Stroke, transform: Transform, brush: Color, shape: ShapeView },
    Image { image: ImageView, transform: Transform },
    Text { request: LayoutRequestView, placement: TextPlacement, brush: Color, hint: bool },
}

impl View for Shape {
    type V = ShapeView;

    open spec fn view(&self) -> ShapeView {
        match self {
            Shape::Rect(rect) => ShapeView::Rect(*rect),
            Shape::Line(line) => ShapeView::Line(*line),
            Shape::Circle(circle) => ShapeView::Circle(*circle),
            Shape::Path(elements) => ShapeView::Path(elements@),
        }
    }
}

impl View for Image {
    type V = ImageView;

    open spec fn view(&self) -> ImageView {
        ImageView {
            data: self.data@,
            format: self.format,
            width: self.width,
            height: self.height,
        }
    }
}

impl View for SceneCommand {
    type V = SceneCommandView;

    open spec fn view(&self) -> SceneCommandView {
        match self {
            SceneCommand::Fill { style, transform, brush, shape } => SceneCommandView::Fill {
                style: *style,
                transform: *transform,
                brush: *brush,
                shape: shape@,
            },
            SceneCommand::Stroke { style, transform, brush, shape } => SceneCommandView::Stroke {
                style: *style,
                transform: *transform,
                brush: *brush,
                shape: shape@,
            },
            SceneCommand::Image { image, transform } => SceneCommandView::Image {
                image: image@,
                transform: *transform,
            },
            SceneCommand::Text { request, placement, brush, hint } => SceneCommandView::Text {
                request: request@,
                placement: *placement,
                brush: *brush,
                hint: *hint,
            },
        }
    }
}

impl View for Scene {
    type V = Seq<SceneCommandView>;

    open spec fn view(&self) -> Seq<SceneCommandView> {
        self.commands@.map_values(|command: SceneCommand| command@)
    }
}

impl Scene {
    /// An empty scene.
    pub fn new() -> (scene: Self)
        ensures
            scene@ == Seq::<SceneCommandView>::empty(),
    {
        Scene { commands: Vec::new() }
    }

    /// The number of commands.
    pub fn len(&self) -> (n: usize)
        ensures
            n == self@.len(),
    {
        self.commands.len()
    }

    /// Appends a command.
    pub fn push(&mut self, command: SceneCommand)
        ensures
            final(self)@ == old(self)@.push(command@),
    {
        self.commands.push(command);
    }

    /// Appends the fill of a shape.
    pub fn fill(&mut self, style: Fill, transform: Transform, brush: Color, shape: Shape)
        ensures
            final(self)@ == old(self)@.push(
                SceneCommandView::Fill { style, transform, brush, shape: shape@ },
            ),
    {
        self.push(SceneCommand::Fill { style, transform, brush, shape });
    }

    /// Appends the stroke of a shape's outline.
    pub fn stroke(&mut self, style: Stroke, transform: Transform, brush: Color, shape: Shape)
        ensures
            final(self)@ == old(self)@.push(
                SceneCommandView::Stroke { style, transform, brush, shape: shape@ },
            ),
    {
        self.push(SceneCommand::Stroke { style, transform, brush, shape });
    }

    /// Appends the drawing of an image.
    pub fn draw_image(&mut self, image: Image, transform: Transform)
        ensures
            final(self)@ == old(self)@.push(SceneCommandView::Image { image: image@, transform }),
    {
        self.push(SceneCommand::Image { image, transform });
    }

    /// Appends the drawing of a text.
    pub fn draw_text(
        &mut self,
        request: LayoutRequest,
        placement: TextPlacement,
        brush: Color,
        hint: bool,
    )
        ensures
            final(self)@ == old(self)@.push(
                SceneCommandView::Text { request: request@, placement, brush, hint },
            ),
    {
        self.push(SceneCommand::Text { request, placement, brush, hint });
    }
}

} // verus!
