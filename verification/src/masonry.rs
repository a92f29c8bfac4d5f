//! The text-capable backend: the scene backend, and text on top of it.

use vstd::prelude::*;
use crate::backend::{
    after_draw_path, after_fill_polygon, bitmap_command, circle_command, line_command,
    pixel_command, rect_command, Error, VelloBackend,
};
use crate::color::{plotters_color_to_peniko, scene_color, BackendColor, BackendStyle};
use crate::geometry::BackendCoord;
use crate::scene::{Scene, SceneCommandView};
use crate::text::{
    layout_request, measured_size, place_text, spec_layout_request, spec_measured_size,
    spec_place_text, LayoutExtent, TextStyle,
};

verus! {

/// The command of a text: the request for the string in the style, the
/// placement for the style's rotation and anchor at `pos`, the style's
/// colour, and hinting switched on.
pub open spec fn text_command(
    text: Seq<char>,
    style: TextStyle<'_>,
    pos: BackendCoord,
) -> SceneCommandView {
    SceneCommandView::Text {
        request: spec_layout_request(text, style),
        placement: spec_place_text(style.transform, style.anchor, pos),
        brush: scene_color(style.color),
        hint: true,
    }
}

/// A backend that draws shapes as the scene backend does, and text as well.
pub struct MasonryBackend<'a> {
    pub vello_backend: VelloBackend<'a>,
}

impl<'a> MasonryBackend<'a> {
    /// A backend of the given size that draws into `scene`.
    pub fn new(size: (u32, u32), scene: &'a mut Scene) -> (backend: Self)
        ensures
            backend.vello_backend.size == size,
            *backend.vello_backend.scene == *old(scene),
            *final(backend.vello_backend.scene) == *final(scene),
    {
        MasonryBackend { vello_backend: VelloBackend::new(size, scene) }
    }

    /// The size of the drawing area in pixels.
    pub fn get_size(&self) -> (size: (u32, u32))
        ensures
            size == self.vello_backend.size,
    {
        self.vello_backend.get_size()
    }

    /// Does nothing: a scene is always ready to be drawn into.
    pub fn ensure_prepared(&mut self) -> (done: Result<(), Error>)
        ensures
            done is Ok,
            *final(self) == *old(self),
    {
        Ok(())
    }

    /// Does nothing: showing the scene is up to its owner.
    pub fn present(&mut self) -> (done: Result<(), Error>)
        ensures
            done is Ok,
            *final(self) == *old(self),
    {
        Ok(())
    }

    /// Draws a pixel as the scene backend does.
    pub fn draw_pixel(&mut self, point: BackendCoord, color: BackendColor) -> (done: Result<
        (),
        Error,
    >)
        ensures
            done is Ok,
            final(self).vello_backend.scene@ == old(self).vello_backend.scene@.push(
                pixel_command(point, color),
            ),
            final(self).vello_backend.size == old(self).vello_backend.size,
            *final(final(self).vello_backend.scene) == *final(old(self).vello_backend.scene),
    {
        self.vello_backend.draw_pixel(point, color)
    }

    /// Draws a line as the scene backend does.
    pub fn draw_line(&mut self, from: BackendCoord, to: BackendCoord, style: &BackendStyle) -> (done:
        Result<(), Error>)
        ensures
            done is Ok,
            final(self).vello_backend.scene@ == old(self).vello_backend.scene@.push(
                line_command(from, to, *style),
            ),
            final(self).vello_backend.size == old(self).vello_backend.size,
            *final(final(self).vello_backend.scene) == *final(old(self).vello_backend.scene),
    {
        self.vello_backend.draw_line(from, to, style)
    }

    /// Draws a rectangle as the scene backend does.
    pub fn draw_rect(
        &mut self,
        upper_left: BackendCoord,
        bottom_right: BackendCoord,
        style: &BackendStyle,
        fill: bool,
    ) -> (done: Result<(), Error>)
        ensures
            done is Ok,
            final(self).vello_backend.scene@ == old(self).vello_backend.scene@.push(
                rect_command(upper_left, bottom_right, *style, fill),
            ),
            final(self).vello_backend.size == old(self).vello_backend.size,
            *final(final(self).vello_backend.scene) == *final(old(self).vello_backend.scene),
    {
        self.vello_backend.draw_rect(upper_left, bottom_right, style, fill)
    }

    /// Draws a path as the scene backend does.
    pub fn draw_path(&mut self, path: &[BackendCoord], style: &BackendStyle) -> (done: Result<
        (),
        Error,
    >)
        ensures
            done is Ok,
            final(self).vello_backend.scene@ == after_draw_path(
                old(self).vello_backend.scene@,
                path@,
                *style,
            ),
            final(self).vello_backend.size == old(self).vello_backend.size,
            *final(final(self).vello_backend.scene) == *final(old(self).vello_backend.scene),
    {
        self.vello_backend.draw_path(path, style)
    }

    /// Draws a circle as the scene backend does.
    pub fn draw_circle(
        &mut self,
        center: BackendCoord,
        radius: u32,
        style: &BackendStyle,
        fill: bool,
    ) -> (done: Result<(), Error>)
        ensures
            done is Ok,
            final(self).vello_backend.scene@ == old(self).vello_backend.scene@.push(
                circle_command(center, radius, *style, fill),
            ),
            final(self).vello_backend.size == old(self).vello_backend.size,
            *final(final(self).vello_backend.scene) == *final(old(self).vello_backend.scene),
    {
        self.vello_backend.draw_circle(center, radius, style, fill)
    }

    /// Fills a polygon as the scene backend does.
    pub fn fill_polygon(&mut self, vert: &[BackendCoord], style: &BackendStyle) -> (done: Result<
        (),
        Error,
    >)
        ensures
            done is Ok,
            final(self).vello_backend.scene@ == after_fill_polygon(
                old(self).vello_backend.scene@,
                vert@,
                *style,
            ),
            final(self).vello_backend.size == old(self).vello_backend.size,
            *final(final(self).vello_backend.scene) == *final(old(self).vello_backend.scene),
    {
        self.vello_backend.fill_polygon(vert, style)
    }

    /// Draws a text with its anchor at `pos`: appends [`text_command`].
    pub fn draw_text(&mut self, text: &str, style: &TextStyle<'_>, pos: BackendCoord) -> (done:
        Result<(), Error>)
        ensures
            done is Ok,
            final(self).vello_backend.scene@ == old(self).vello_backend.scene@.push(
                text_command(text@, *style, pos),
            ),
            final(self).vello_backend.size == old(self).vello_backend.size,
            *final(final(self).vello_backend.scene) == *final(old(self).vello_backend.scene),
    {
        let request = layout_request(text, style);
        let placement = place_text(style.transform, style.anchor, pos);
        let color = plotters_color_to_peniko(&style.color);
        self.vello_backend.scene().draw_text(request, placement, color, true);
        Ok(())
    }

    /// The size of a text in whole pixels, from the extent that the layout
    /// engine found for its request.
    pub fn estimate_text_size(&self, style: &TextStyle<'_>, extent: LayoutExtent) -> (size: Result<
        (u32, u32),
        Error,
    >)
        ensures
            size == Ok::<(u32, u32), Error>(spec_measured_size(extent, style.transform)),
    {
        Ok(measured_size(extent, style.transform))
    }

    /// Draws a bitmap as the scene backend does.
    pub fn blit_bitmap(&mut self, pos: BackendCoord, size: (u32, u32), src: &[u8]) -> (done: Result<
        (),
        Error,
    >)
        ensures
            done is Ok,
            final(self).vello_backend.scene@ == old(self).vello_backend.scene@.push(
                bitmap_command(pos, size, src@),
            ),
            final(self).vello_backend.size == old(self).vello_backend.size,
            *final(final(self).vello_backend.scene) == *final(old(self).vello_backend.scene),
    {
        self.vello_backend.blit_bitmap(pos, size, src)
    }
}

} // verus!
