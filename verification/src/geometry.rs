//! Pixel rectangles and the rules that decide whether one can be outlined on,
//! and cropped from, a canvas of a given size.

use vstd::prelude::*;

verus! {

/// The widest and tallest canvas on which outlines are traced. The tracer
/// follows a line in single-precision coordinates, which are exact for whole
/// numbers up to this bound and not beyond.
pub const MAX_EXTENT: u32 = 16_777_216;

/// A rectangle of whole pixels: its top-left corner and its size.
#[derive(Clone, Copy, Debug, PartialEq, Eq, Structural)]
pub struct PixelRect {
    pub x: i32,
    pub y: i32,
    pub width: u32,
    pub height: u32,
}

/// Why a rectangle is refused.
#[derive(Clone, Copy, Debug, PartialEq, Eq, Structural)]
pub enum GeometryError {
    /// The rectangle has no width or no height.
    Degenerate,
    /// The rectangle starts left of or above the canvas, or reaches past its
    /// right or bottom edge.
    OutOfBounds,
    /// The canvas is wider or taller than `MAX_EXTENT`.
    CanvasTooLarge,
}

impl PixelRect {
    /// The rectangle covers at least one pixel.
    pub open spec fn is_proper(self) -> bool {
        self.width > 0 && self.height > 0
    }

    /// Every pixel of the rectangle lies on a canvas of the given size.
    pub open spec fn within(self, canvas_width: nat, canvas_height: nat) -> bool {
        &&& 0 <= self.x
        &&& 0 <= self.y
        &&& self.x + self.width <= canvas_width
        &&& self.y + self.height <= canvas_height
    }

    /// The pixel `(x, y)` belongs to the rectangle.
    pub open spec fn covers(self, x: int, y: int) -> bool {
        &&& self.x <= x < self.x + self.width
        &&& self.y <= y < self.y + self.height
    }

    /// The pixel `(x, y)` lies on the one-pixel border of the rectangle.
    pub open spec fn on_outline(self, x: int, y: int) -> bool {
        &&& self.covers(x, y)
        &&& (x == self.x || x == self.x + self.width - 1 || y == self.y || y == self.y
            + self.height - 1)
    }

    /// The verdict on the rectangle for a canvas of the given size: the first
    /// of the three refusals that applies, or none.
    pub open spec fn verdict(self, canvas_width: nat, canvas_height: nat) -> Option<GeometryError> {
        if !self.is_proper() {
            Some(GeometryError::Degenerate)
        } else if !self.within(canvas_width, canvas_height) {
            Some(GeometryError::OutOfBounds)
        } else if canvas_width > MAX_EXTENT || canvas_height > MAX_EXTENT {
            Some(GeometryError::CanvasTooLarge)
        } else {
            None
        }
    }

    /// Decides whether the rectangle can be outlined on and cropped from a
    /// canvas of the given size, and says why not where it cannot.
    pub fn check(&self, canvas_width: u32, canvas_height: u32) -> (outcome: Result<
        (),
        GeometryError,
    >)
        ensures
            outcome is Ok <==> self.verdict(canvas_width as nat, canvas_height as nat) is None,
            outcome matches Err(e) ==> self.verdict(canvas_width as nat, canvas_height as nat)
                == Some(e),
    {
        if self.width == 0 || self.height == 0 {
            return Err(GeometryError::Degenerate);
        }
        let right: i64 = self.x as i64 + self.width as i64;
        let bottom: i64 = self.y as i64 + self.height as i64;
        if self.x < 0 || self.y < 0 || right > canvas_width as i64 || bottom
            > canvas_height as i64 {
            return Err(GeometryError::OutOfBounds);
        }
        if canvas_width > MAX_EXTENT || canvas_height > MAX_EXTENT {
            return Err(GeometryError::CanvasTooLarge);
        }
        Ok(())
    }
}

/// A rectangle that passes the check lies wholly on the canvas: no crop ever
/// asks for a pixel past an edge.
pub proof fn lemma_accepted_rect_is_on_canvas(rect: PixelRect, canvas_width: nat, canvas_height: nat)
    requires
        rect.verdict(canvas_width, canvas_height) is None,
    ensures
        rect.is_proper(),
        rect.within(canvas_width, canvas_height),
        forall|x: int, y: int| #[trigger]
            rect.covers(x, y) ==> 0 <= x < canvas_width && 0 <= y < canvas_height,
{
}

/// A rectangle that reaches past an edge of the canvas is always refused.
pub proof fn lemma_overreaching_rect_is_refused(
    rect: PixelRect,
    canvas_width: nat,
    canvas_height: nat,
)
    requires
        !rect.within(canvas_width, canvas_height),
    ensures
        rect.verdict(canvas_width, canvas_height) is Some,
{
}

} // verus!
