//! The scene backend: one scene command for each drawing primitive.

use vstd::prelude::*;
use vstd::slice::slice_to_vec;
use crate::color::{
    lemma_alpha_byte_of_unit_interval, plotters_color_to_peniko, rgba8_color, scene_color,
    BackendColor, BackendStyle,
};
use crate::geometry::{
    closed_path_elements, corner, mid, path_elements, plotters_path_to_kurbo,
    plotters_point_to_kurbo_corner, plotters_point_to_kurbo_mid, BackendCoord, Circle, Line, PathEl,
    Rect,
};
use crate::scene::{
    Cap, Fill, Image, ImageFormat, ImageView, Scene, SceneCommandView, Shape, ShapeView, Stroke,
    Transform,
};

verus! {

/// The error of a drawing operation. No operation of this crate gives it.
#[derive(Debug, PartialEq, Eq)]
pub struct Error {}

impl Error {
    /// The text of the error, a line of its own.
    pub fn to_string(&self) -> (text: String)
        ensures
            text@ == "plotters-vello error\n"@,
    {
        "plotters-vello error\n".to_owned()
    }
}

/// The style of every stroke of this backend: the style's width, and square
/// end caps.
pub open spec fn stroke_style(style: BackendStyle) -> Stroke {
    Stroke { width: style.stroke_width, end_cap: Cap::Square }
}

/// The square of the scene that a pixel covers.
pub open spec fn pixel_rect(point: BackendCoord) -> Rect {
    Rect {
        x0: corner(point).x_halves,
        y0: corner(point).y_halves,
        x1: (corner(point).x_halves + 2) as i64,
        y1: (corner(point).y_halves + 2) as i64,
    }
}

/// The region of the scene that the pixels from `upper_left` to
/// `bottom_right` cover, both included: from the corner of the first to one
/// pixel beyond the corner of the last.
pub open spec fn filled_rect(upper_left: BackendCoord, bottom_right: BackendCoord) -> Rect {
    Rect {
        x0: corner(upper_left).x_halves,
        y0: corner(upper_left).y_halves,
        x1: (corner(bottom_right).x_halves + 2) as i64,
        y1: (corner(bottom_right).y_halves + 2) as i64,
    }
}

/// The outline through the centres of the pixels at two opposite corners.
pub open spec fn stroked_rect(upper_left: BackendCoord, bottom_right: BackendCoord) -> Rect {
    Rect {
        x0: mid(upper_left).x_halves,
        y0: mid(upper_left).y_halves,
        x1: mid(bottom_right).x_halves,
        y1: mid(bottom_right).y_halves,
    }
}

/// The command that fills a shape with a colour.
pub open spec fn fill_command(color: BackendColor, shape: ShapeView) -> SceneCommandView {
    SceneCommandView::Fill {
        style: Fill::NonZero,
        transform: Transform::Identity,
        brush: scene_color(color),
        shape,
    }
}

/// The command that strokes the outline of a shape in a style.
pub open spec fn stroke_command(style: BackendStyle, shape: ShapeView) -> SceneCommandView {
    SceneCommandView::Stroke {
        style: stroke_style(style),
        transform: Transform::Identity,
        brush: scene_color(style.color),
        shape,
    }
}

/// The command of a pixel: the fill of its square.
pub open spec fn pixel_command(point: BackendCoord, color: BackendColor) -> SceneCommandView {
    fill_command(color, ShapeView::Rect(pixel_rect(point)))
}

/// The command of a line: the stroke of the segment between the centres of
/// its two end pixels.
pub open spec fn line_command(
    from: BackendCoord,
    to: BackendCoord,
    style: BackendStyle,
) -> SceneCommandView {
    stroke_command(style, ShapeView::Line(Line { start: mid(from), end: mid(to) }))
}

/// The command of a rectangle: the fill of the region its pixels cover, or
/// the stroke of the outline through the centres of its corner pixels.
pub open spec fn rect_command(
    upper_left: BackendCoord,
    bottom_right: BackendCoord,
    style: BackendStyle,
    fill: bool,
) -> SceneCommandView {
    if fill {
        fill_command(style.color, ShapeView::Rect(filled_rect(upper_left, bottom_right)))
    } else {
        stroke_command(style, ShapeView::Rect(stroked_rect(upper_left, bottom_right)))
    }
}

/// The command of a path: the stroke of the open path through the centres
/// of its pixels.
pub open spec fn path_command(path: Seq<BackendCoord>, style: BackendStyle) -> SceneCommandView {
    stroke_command(style, ShapeView::Path(path_elements(path)))
}

/// The command of a circle about the centre of a pixel: its fill or the
/// stroke of its outline.
pub open spec fn circle_command(
    center: BackendCoord,
    radius: u32,
    style: BackendStyle,
    fill: bool,
) -> SceneCommandView {
    let circle = ShapeView::Circle(Circle { center: mid(center), radius });
    if fill {
        fill_command(style.color, circle)
    } else {
        stroke_command(style, circle)
    }
}

/// The command of a polygon: the fill of the closed path through the centres
/// of its pixels.
pub open spec fn polygon_command(vert: Seq<BackendCoord>, style: BackendStyle) -> SceneCommandView {
    fill_command(style.color, ShapeView::Path(closed_path_elements(vert)))
}

/// The command of a bitmap: an image of a copy of the bytes, four a pixel,
/// with its corner at the corner of the pixel at `pos`.
pub open spec fn bitmap_command(
    pos: BackendCoord,
    size: (u32, u32),
    src: Seq<u8>,
) -> SceneCommandView {
    SceneCommandView::Image {
        image: ImageView { data: src, format: ImageFormat::Rgba8, width: size.0, height: size.1 },
        transform: Transform::Translate(corner(pos)),
    }
}

/// The commands of a scene after a path was drawn into it: one more, unless
/// the path has no position.
pub open spec fn after_draw_path(
    before: Seq<SceneCommandView>,
    path: Seq<BackendCoord>,
    style: BackendStyle,
) -> Seq<SceneCommandView> {
    if path.len() == 0 {
        before
    } else {
        before.push(path_command(path, style))
    }
}

/// The commands of a scene after a polygon was filled in it: one more,
/// unless the colour's opacity is exactly zero.
pub open spec fn after_fill_polygon(
    before: Seq<SceneCommandView>,
    vert: Seq<BackendCoord>,
    style: BackendStyle,
) -> Seq<SceneCommandView> {
    if style.color.is_transparent() {
        before
    } else {
        before.push(polygon_command(vert, style))
    }
}

/// A colour whose opacity is exactly zero makes a polygon leave the scene as
/// it was, and does not do so for a path: the path through the same
/// positions is still stroked, with a brush of alpha 0.
pub proof fn lemma_transparent_polygon_is_skipped_and_path_is_not(
    before: Seq<SceneCommandView>,
    points: Seq<BackendCoord>,
    style: BackendStyle,
)
    requires
        style.color.is_transparent(),
        points.len() > 0,
    ensures
        after_fill_polygon(before, points, style) == before,
        after_draw_path(before, points, style) == before.push(path_command(points, style)),
        after_draw_path(before, points, style).len() == before.len() + 1,
        path_command(points, style) matches SceneCommandView::Stroke { brush, .. } && brush
            == rgba8_color(style.color.rgb.0, style.color.rgb.1, style.color.rgb.2, 0),
{
    lemma_alpha_byte_of_unit_interval(style.color);
}

/// A backend that draws into a scene. It borrows the scene for as long as
/// it lives and appends to it.
pub struct VelloBackend<'a> {
    /// The size of the drawing area in pixels.
    pub size: (u32, u32),
    pub scene: &'a mut Scene,
}

impl<'a> VelloBackend<'a> {
    /// A backend of the given size that draws into `scene`.
    pub fn new(size: (u32, u32), scene: &'a mut Scene) -> (backend: Self)
        ensures
            backend.size == size,
            *backend.scene == *old(scene),
            *final(backend.scene) == *final(scene),
    {
        VelloBackend { size, scene }
    }

    /// The scene that this backend draws into.
    pub fn scene(&mut self) -> (scene: &mut Scene)
        ensures
            *scene == *old(self).scene,
            *final(scene) == *final(self).scene,
            final(self).size == old(self).size,
            *final(final(self).scene) == *final(old(self).scene),
    {
        self.scene
    }

    /// The size of the drawing area in pixels.
    pub fn get_size(&self) -> (size: (u32, u32))
        ensures
            size == self.size,
    {
        self.size
    }

    /// Does nothing: a scene is always ready to be drawn into.
    pub fn ensure_prepared(&mut self) -> (done: Result<(), Error>)
        ensures
            done is Ok,
            *final(self) == *old(self),
    {
        Ok(())
    }

    /// Does nothing: showing the scene is up to its owner.
    pub fn present(&mut self) -> (done: Result<(), Error>)
        ensures
            done is Ok,
            *final(self) == *old(self),
    {
        Ok(())
    }

    /// Draws a pixel: appends [`pixel_command`].
    pub fn draw_pixel(&mut self, point: BackendCoord, color: BackendColor) -> (done: Result<
        (),
        Error,
    >)
        ensures
            done is Ok,
            final(self).scene@ == old(self).scene@.push(pixel_command(point, color)),
            final(self).size == old(self).size,
            *final(final(self).scene) == *final(old(self).scene),
    {
        let at = plotters_point_to_kurbo_corner(point);
        let rect = Rect {
            x0: at.x_halves,
            y0: at.y_halves,
            x1: at.x_halves + 2,
            y1: at.y_halves + 2,
        };
        self.scene.fill(
            Fill::NonZero,
            Transform::Identity,
            plotters_color_to_peniko(&color),
            Shape::Rect(rect),
        );
        Ok(())
    }

    /// Draws a line: appends [`line_command`].
    pub fn draw_line(&mut self, from: BackendCoord, to: BackendCoord, style: &BackendStyle) -> (done:
        Result<(), Error>)
        ensures
            done is Ok,
            final(self).scene@ == old(self).scene@.push(line_command(from, to, *style)),
            final(self).size == old(self).size,
            *final(final(self).scene) == *final(old(self).scene),
    {
        let from = plotters_point_to_kurbo_mid(from);
        let to = plotters_point_to_kurbo_mid(to);
        self.scene.stroke(
            Stroke { width: style.stroke_width, end_cap: Cap::Square },
            Transform::Identity,
            plotters_color_to_peniko(&style.color),
            Shape::Line(Line { start: from, end: to }),
        );
        Ok(())
    }

    /// Draws a rectangle, filled or in outline: appends [`rect_command`].
    pub fn draw_rect(
        &mut self,
        upper_left: BackendCoord,
        bottom_right: BackendCoord,
        style: &BackendStyle,
        fill: bool,
    ) -> (done: Result<(), Error>)
        ensures
            done is Ok,
            final(self).scene@ == old(self).scene@.push(
                rect_command(upper_left, bottom_right, *style, fill),
            ),
            final(self).size == old(self).size,
            *final(final(self).scene) == *final(old(self).scene),
    {
        let color = plotters_color_to_peniko(&style.color);
        if fill {
            let upper_left = plotters_point_to_kurbo_corner(upper_left);
            let mut bottom_right = plotters_point_to_kurbo_corner(bottom_right);
            bottom_right.x_halves = bottom_right.x_halves + 2;
            bottom_right.y_halves = bottom_right.y_halves + 2;
            let rect = Rect {
                x0: upper_left.x_halves,
                y0: upper_left.y_halves,
                x1: bottom_right.x_halves,
                y1: bottom_right.y_halves,
            };
            self.scene.fill(Fill::NonZero, Transform::Identity, color, Shape::Rect(rect));
        } else {
            let upper_left = plotters_point_to_kurbo_mid(upper_left);
            let bottom_right = plotters_point_to_kurbo_mid(bottom_right);
            let rect = Rect {
                x0: upper_left.x_halves,
                y0: upper_left.y_halves,
                x1: bottom_right.x_halves,
                y1: bottom_right.y_halves,
            };
            self.scene.stroke(
                Stroke { width: style.stroke_width, end_cap: Cap::Square },
                Transform::Identity,
                color,
                Shape::Rect(rect),
            );
        }
        Ok(())
    }

    /// Draws the open path through the given positions: appends
    /// [`path_command`]. A path without a position draws nothing. A colour
    /// that cannot be seen is drawn like any other.
    pub fn draw_path(&mut self, path: &[BackendCoord], style: &BackendStyle) -> (done: Result<
        (),
        Error,
    >)
        ensures
            done is Ok,
            final(self).scene@ == after_draw_path(old(self).scene@, path@, *style),
            final(self).size == old(self).size,
            *final(final(self).scene) == *final(old(self).scene),
    {
        if path.len() == 0 {
            return Ok(());
        }
        let elements: Vec<PathEl> = plotters_path_to_kurbo(path);
        self.scene.stroke(
            Stroke { width: style.stroke_width, end_cap: Cap::Square },
            Transform::Identity,
            plotters_color_to_peniko(&style.color),
            Shape::Path(elements),
        );
        Ok(())
    }

    /// Draws a circle, filled or in outline: appends [`circle_command`].
    pub fn draw_circle(
        &mut self,
        center: BackendCoord,
        radius: u32,
        style: &BackendStyle,
        fill: bool,
    ) -> (done: Result<(), Error>)
        ensures
            done is Ok,
            final(self).scene@ == old(self).scene@.push(
                circle_command(center, radius, *style, fill),
            ),
            final(self).size == old(self).size,
            *final(final(self).scene) == *final(old(self).scene),
    {
        let center = plotters_point_to_kurbo_mid(center);
        let color = plotters_color_to_peniko(&style.color);
        let circle = Circle { center, radius };
        if fill {
            self.scene.fill(Fill::NonZero, Transform::Identity, color, Shape::Circle(circle));
        } else {
            self.scene.stroke(
                Stroke { width: style.stroke_width, end_cap: Cap::Square },
                Transform::Identity,
                color,
                Shape::Circle(circle),
            );
        }
        Ok(())
    }

    /// Fills the polygon through the given positions: appends
    /// [`polygon_command`], unless the colour's opacity is exactly zero, when
    /// nothing is drawn.
    pub fn fill_polygon(&mut self, vert: &[BackendCoord], style: &BackendStyle) -> (done: Result<
        (),
        Error,
    >)
        ensures
            done is Ok,
            final(self).scene@ == after_fill_polygon(old(self).scene@, vert@, *style),
            final(self).size == old(self).size,
            *final(final(self).scene) == *final(old(self).scene),
    {
        if style.color.is_transparent() {
            return Ok(());
        }
        let mut elements: Vec<PathEl> = plotters_path_to_kurbo(vert);
        elements.push(PathEl::ClosePath);
        self.scene.fill(
            Fill::NonZero,
            Transform::Identity,
            plotters_color_to_peniko(&style.color),
            Shape::Path(elements),
        );
        Ok(())
    }

    /// Draws a bitmap of `size.0` by `size.1` pixels: appends
    /// [`bitmap_command`]. The bytes are copied.
    pub fn blit_bitmap(&mut self, pos: BackendCoord, size: (u32, u32), src: &[u8]) -> (done: Result<
        (),
        Error,
    >)
        ensures
            done is Ok,
            final(self).scene@ == old(self).scene@.push(bitmap_command(pos, size, src@)),
            final(self).size == old(self).size,
            *final(final(self).scene) == *final(old(self).scene),
    {
        let data = slice_to_vec(src);
        let image = Image { data, format: ImageFormat::Rgba8, width: size.0, height: size.1 };
        self.scene.draw_image(image, Transform::Translate(plotters_point_to_kurbo_corner(pos)));
        Ok(())
    }
}

} // verus!
