//! The drawing surface: two planes of one bit per pixel, and a rotation.
//!
//! The black plane says for each pixel whether it is drawn black (bit clear) or
//! left as background (bit set). The accent plane says whether it is drawn in
//! the accent pigment (bit set), which overrides the black plane.

use vstd::prelude::*;
use crate::color::Color;
use crate::geometry::{in_grid, Rotation, PLANE_LEN};
use crate::plane::{
    bit_at, fill, filled, get_bit, lemma_filled_bit, lemma_with_bit_idempotent,
    lemma_with_bit_other, lemma_with_bit_same, new_plane, set_bit, with_bit,
};

verus! {

/// What a surface holds, as plain values: the two planes byte for byte and the
/// rotation that drawing coordinates go through.
pub struct SurfaceView {
    pub black: Seq<u8>,
    pub accent: Seq<u8>,
    pub rotation: Rotation,
}

impl SurfaceView {
    /// Both planes have the one size that the panel's grid gives them.
    pub open spec fn wf(self) -> bool {
        self.black.len() == PLANE_LEN && self.accent.len() == PLANE_LEN
    }

    /// The color shown at the physical pixel `(col, row)`.
    pub open spec fn physical_pixel(self, col: int, row: int) -> Color {
        Color::from_bits(bit_at(self.black, col, row), bit_at(self.accent, col, row))
    }

    /// The color shown at the logical point `(x, y)`.
    pub open spec fn pixel(self, x: int, y: int) -> Color {
        self.physical_pixel(self.rotation.physical(x, y).0, self.rotation.physical(x, y).1)
    }

    /// The surface after drawing `color` at the logical point `(x, y)`: a point
    /// outside the drawing window changes nothing.
    pub open spec fn painted(self, x: int, y: int, color: Color) -> SurfaceView {
        if self.rotation.in_window(x, y) {
            let place = self.rotation.physical(x, y);
            SurfaceView {
                black: with_bit(self.black, place.0, place.1, color.black_bit()),
                accent: with_bit(self.accent, place.0, place.1, color.accent_bit()),
                rotation: self.rotation,
            }
        } else {
            self
        }
    }

    /// The surface after filling every pixel with `color`.
    pub open spec fn cleared(self, color: Color) -> SurfaceView {
        SurfaceView {
            black: filled(color.spec_black_fill()),
            accent: filled(color.spec_accent_fill()),
            rotation: self.rotation,
        }
    }

    /// A surface with both planes zeroed.
    pub open spec fn blank(rotation: Rotation) -> SurfaceView {
        SurfaceView { black: filled(0), accent: filled(0), rotation }
    }
}

/// In-memory framebuffer of the panel with a per-pixel drawing operation.
#[derive(PartialEq, Eq, Debug)]
pub struct GraphicSurface {
    black: Vec<u8>,
    accent: Vec<u8>,
    rotation: Rotation,
}

impl View for GraphicSurface {
    type V = SurfaceView;

    closed spec fn view(&self) -> SurfaceView {
        SurfaceView { black: self.black@, accent: self.accent@, rotation: self.rotation }
    }
}

impl GraphicSurface {
    #[verifier::type_invariant]
    spec fn planes_sized(self) -> bool {
        self.black@.len() == PLANE_LEN && self.accent@.len() == PLANE_LEN
    }

    /// A surface over two freshly zeroed planes.
    pub fn new(rotation: Rotation) -> (surface: GraphicSurface)
        ensures
            surface@ == SurfaceView::blank(rotation),
            surface@.wf(),
    {
        GraphicSurface { black: new_plane(0), accent: new_plane(0), rotation }
    }

    /// The rotation that drawing coordinates go through.
    pub fn rotation(&self) -> (rotation: Rotation)
        ensures
            rotation == self@.rotation,
    {
        self.rotation
    }

    /// Width and height of the drawing window.
    pub fn dimensions(&self) -> (size: (u32, u32))
        ensures
            size.0 as int == self@.rotation.logical_width(),
            size.1 as int == self@.rotation.logical_height(),
    {
        (self.rotation.width(), self.rotation.height())
    }

    /// Draws one pixel. A point outside the drawing window is clipped: nothing
    /// changes and nothing is reported.
    pub fn set_pixel(&mut self, x: i32, y: i32, color: Color)
        ensures
            final(self)@ == old(self)@.painted(x as int, y as int, color),
            final(self)@.wf(),
    {
        proof {
            use_type_invariant(&*self);
        }
        match self.rotation.to_physical(x, y) {
            Some((col, row)) => {
                set_bit(&mut self.black, col, row, color.sets_black_bit());
                set_bit(&mut self.accent, col, row, color.sets_accent_bit());
            },
            None => {},
        }
    }

    /// Reads back the color of one pixel, `None` outside the drawing window.
    pub fn read_pixel(&self, x: i32, y: i32) -> (color: Option<Color>)
        ensures
            color == if self@.rotation.in_window(x as int, y as int) {
                Some(self@.pixel(x as int, y as int))
            } else {
                None
            },
    {
        proof {
            use_type_invariant(self);
        }
        match self.rotation.to_physical(x, y) {
            Some((col, row)) => Some(
                Color::decode(get_bit(&self.black, col, row), get_bit(&self.accent, col, row)),
            ),
            None => None,
        }
    }

    /// Fills both planes with the byte pattern of `color`.
    pub fn clear(&mut self, color: Color)
        ensures
            final(self)@ == old(self)@.cleared(color),
            final(self)@.wf(),
    {
        proof {
            use_type_invariant(&*self);
        }
        fill(&mut self.black, color.black_fill());
        fill(&mut self.accent, color.accent_fill());
    }

    /// The black plane and the accent plane, for streaming to the controller.
    pub fn planes(&self) -> (planes: (&[u8], &[u8]))
        ensures
            planes.0@ == self@.black,
            planes.1@ == self@.accent,
            planes.0@.len() == PLANE_LEN,
            planes.1@.len() == PLANE_LEN,
    {
        proof {
            use_type_invariant(self);
        }
        (self.black.as_slice(), self.accent.as_slice())
    }
}

/// Both planes always have the same size, the one that the native grid gives:
/// neither drawing nor clearing resizes them.
pub proof fn lemma_planes_keep_size(surface: SurfaceView, x: int, y: int, color: Color)
    requires
        surface.wf(),
    ensures
        surface.black.len() == surface.accent.len() == 2756,
        surface.painted(x, y, color).wf(),
        surface.cleared(color).wf(),
        SurfaceView::blank(surface.rotation).wf(),
{
}

/// A pixel drawn inside the drawing window reads back as the color drawn.
pub proof fn lemma_set_then_read(surface: SurfaceView, x: int, y: int, color: Color)
    requires
        surface.wf(),
        surface.rotation.in_window(x, y),
    ensures
        surface.painted(x, y, color).pixel(x, y) == color,
{
    let place = surface.rotation.physical(x, y);
    lemma_with_bit_same(surface.black, place.0, place.1, color.black_bit());
    lemma_with_bit_same(surface.accent, place.0, place.1, color.accent_bit());
}

/// Drawing a pixel leaves every other pixel of the drawing window as it was.
pub proof fn lemma_set_keeps_others(
    surface: SurfaceView,
    x: int,
    y: int,
    color: Color,
    x2: int,
    y2: int,
)
    requires
        surface.wf(),
        surface.rotation.in_window(x2, y2),
        (x, y) != (x2, y2),
    ensures
        surface.painted(x, y, color).pixel(x2, y2) == surface.pixel(x2, y2),
{
    if surface.rotation.in_window(x, y) {
        let place = surface.rotation.physical(x, y);
        let other = surface.rotation.physical(x2, y2);
        lemma_with_bit_other(
            surface.black,
            place.0,
            place.1,
            color.black_bit(),
            other.0,
            other.1,
        );
        lemma_with_bit_other(
            surface.accent,
            place.0,
            place.1,
            color.accent_bit(),
            other.0,
            other.1,
        );
    }
}

/// Drawing the same pixel twice leaves the planes byte for byte as drawing it
/// once does.
pub proof fn lemma_set_idempotent(surface: SurfaceView, x: int, y: int, color: Color)
    requires
        surface.wf(),
    ensures
        surface.painted(x, y, color).painted(x, y, color) == surface.painted(x, y, color),
{
    if surface.rotation.in_window(x, y) {
        let place = surface.rotation.physical(x, y);
        lemma_with_bit_idempotent(surface.black, place.0, place.1, color.black_bit());
        lemma_with_bit_idempotent(surface.accent, place.0, place.1, color.accent_bit());
    }
}

/// Drawing outside the drawing window leaves both planes byte for byte as they
/// were.
pub proof fn lemma_set_outside_window(surface: SurfaceView, x: int, y: int, color: Color)
    requires
        !surface.rotation.in_window(x, y),
    ensures
        surface.painted(x, y, color).black == surface.black,
        surface.painted(x, y, color).accent == surface.accent,
        surface.painted(x, y, color) == surface,
{
}

/// After clearing to a color, every pixel of the drawing window reads back as
/// that color.
pub proof fn lemma_clear_then_read(surface: SurfaceView, color: Color, x: int, y: int)
    requires
        surface.rotation.in_window(x, y),
    ensures
        surface.cleared(color).pixel(x, y) == color,
{
    let place = surface.rotation.physical(x, y);
    lemma_filled_bit(color.black_bit(), place.0, place.1);
    lemma_filled_bit(color.accent_bit(), place.0, place.1);
}

/// On a fresh surface every pixel of the drawing window is black.
pub proof fn lemma_blank_is_black(rotation: Rotation, x: int, y: int)
    requires
        rotation.in_window(x, y),
    ensures
        SurfaceView::blank(rotation).pixel(x, y) == Color::Black,
{
    let place = rotation.physical(x, y);
    lemma_filled_bit(false, place.0, place.1);
}

} // verus!
