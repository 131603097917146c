//! Outlining the detections on the canvas and cropping each of them out.
//!
//! The detections are handled in order on one canvas, and the caller chooses
//! where the crops are cut from. Cut from the canvas as drawn, a crop shows
//! its own outline, and the outlines of earlier detections wherever they
//! cross it. Cut from a snapshot, every crop shows the image as it was before
//! anything was drawn. Nothing is drawn, and nothing is cut, unless every
//! rectangle is accepted.

use crate::canvas::buffer_crop;
use crate::canvas::buffer_outline;
use crate::canvas::Canvas;
use crate::canvas::Colour;
use crate::canvas::Raster;
use crate::geometry::GeometryError;
use crate::geometry::PixelRect;
use vstd::prelude::*;

verus! {

/// The colour of an outline: full green, no red, no blue, alpha zero.
pub open spec fn line_colour() -> Colour {
    Colour { red: 0, green: 255, blue: 0, alpha: 0 }
}

/// The colour of an outline.
pub fn outline_colour() -> (colour: Colour)
    ensures
        colour == line_colour(),
{
    Colour { red: 0, green: 255, blue: 0, alpha: 0 }
}

/// Where the crops are cut from.
#[derive(Clone, Copy, Debug, PartialEq, Eq, Structural)]
pub enum CropSource {
    /// Each crop is cut right after its own outline was drawn, from the canvas
    /// as it then is: earlier outlines show in later crops.
    AsDrawn,
    /// Every crop is cut before anything is drawn: no crop shows an outline.
    Snapshot,
}

/// The first detection that cannot be drawn, and why.
#[derive(Clone, Copy, Debug, PartialEq, Eq, Structural)]
pub struct Rejection {
    pub index: usize,
    pub reason: GeometryError,
}

/// Every rectangle is accepted on a canvas of the given size.
pub open spec fn all_accepted(rects: Seq<PixelRect>, width: nat, height: nat) -> bool {
    forall|i: int| 0 <= i < rects.len() ==> (#[trigger] rects[i]).verdict(width, height) is None
}

/// `index` is the first rectangle that is refused, and `reason` is why.
pub open spec fn is_first_refusal(
    rects: Seq<PixelRect>,
    width: nat,
    height: nat,
    index: int,
    reason: GeometryError,
) -> bool {
    &&& 0 <= index < rects.len()
    &&& rects[index].verdict(width, height) == Some(reason)
    &&& all_accepted(rects.take(index), width, height)
}

/// The raster after the rectangles have been outlined on it, first to last.
pub open spec fn annotated(raster: Raster, rects: Seq<PixelRect>) -> Raster
    decreases rects.len(),
{
    if rects.len() == 0 {
        raster
    } else {
        annotated(raster, rects.drop_last()).outlined(rects.last(), line_colour())
    }
}

/// The crop of detection `k`. Cut from the canvas as drawn, it is the
/// rectangle of the raster as it is once detections `0` to `k` have been
/// outlined. Cut from a snapshot, it is the rectangle of the raster as given.
pub open spec fn crop_of(raster: Raster, rects: Seq<PixelRect>, k: int, source: CropSource) -> Raster {
    match source {
        CropSource::AsDrawn => annotated(raster, rects.take(k + 1)).cropped(rects[k]),
        CropSource::Snapshot => raster.cropped(rects[k]),
    }
}

/// Outlining keeps the size of the raster.
pub proof fn lemma_annotated_keeps_size(raster: Raster, rects: Seq<PixelRect>)
    ensures
        annotated(raster, rects).width == raster.width,
        annotated(raster, rects).height() == raster.height(),
    decreases rects.len(),
{
    if rects.len() > 0 {
        lemma_annotated_keeps_size(raster, rects.drop_last());
    }
}

/// With no detection the raster stays as it is.
pub proof fn lemma_no_detection_no_change(raster: Raster)
    ensures
        annotated(raster, Seq::<PixelRect>::empty()) == raster,
{
}

/// A pixel that lies on no outline keeps its colour.
pub proof fn lemma_untouched_pixel_is_kept(raster: Raster, rects: Seq<PixelRect>, x: int, y: int)
    requires
        0 <= x < raster.width,
        0 <= y < raster.height(),
        forall|i: int| 0 <= i < rects.len() ==> !(#[trigger] rects[i]).on_outline(x, y),
    ensures
        annotated(raster, rects).rows[y][x] == raster.rows[y][x],
    decreases rects.len(),
{
    if rects.len() > 0 {
        let earlier = rects.drop_last();
        assert forall|i: int| 0 <= i < earlier.len() implies !(#[trigger] earlier[i]).on_outline(
            x,
            y,
        ) by {
            assert(earlier[i] == rects[i]);
        }
        lemma_untouched_pixel_is_kept(raster, earlier, x, y);
        lemma_annotated_keeps_size(raster, earlier);
        assert(!rects[rects.len() - 1].on_outline(x, y));
    }
}

/// A pixel on the outline of any detection shows the line colour in the end:
/// a later outline either misses it or paints it in the same colour.
pub proof fn lemma_outline_pixel_is_painted(
    raster: Raster,
    rects: Seq<PixelRect>,
    k: int,
    x: int,
    y: int,
)
    requires
        0 <= x < raster.width,
        0 <= y < raster.height(),
        0 <= k < rects.len(),
        rects[k].on_outline(x, y),
    ensures
        annotated(raster, rects).rows[y][x] == line_colour(),
    decreases rects.len(),
{
    let earlier = rects.drop_last();
    lemma_annotated_keeps_size(raster, earlier);
    if !rects.last().on_outline(x, y) {
        assert(earlier[k] == rects[k]);
        lemma_outline_pixel_is_painted(raster, earlier, k, x, y);
    }
}

/// A crop that is cut from the canvas as drawn shows its own outline: every
/// pixel on the border of the crop has the line colour.
pub proof fn lemma_crop_as_drawn_shows_its_outline(
    raster: Raster,
    rects: Seq<PixelRect>,
    k: int,
    i: int,
    j: int,
)
    requires
        0 <= k < rects.len(),
        rects[k].within(raster.width, raster.height()),
        0 <= i < rects[k].width,
        0 <= j < rects[k].height,
        i == 0 || i == rects[k].width - 1 || j == 0 || j == rects[k].height - 1,
    ensures
        crop_of(raster, rects, k, CropSource::AsDrawn).rows[j][i] == line_colour(),
{
    let drawn = rects.take(k + 1);
    assert(drawn[k] == rects[k]);
    lemma_outline_pixel_is_painted(raster, drawn, k, rects[k].x + i, rects[k].y + j);
}

/// Outlines every rectangle on the canvas, first to last, and returns the
/// crop of each, cut from where `source` says.
///
/// If any rectangle is refused, the first refusal is returned and the canvas
/// is left untouched.
pub fn annotate(canvas: &mut Canvas, rects: &Vec<PixelRect>, source: CropSource) -> (outcome: Result<
    Vec<Canvas>,
    Rejection,
>)
    ensures
        match outcome {
            Ok(crops) => {
                &&& all_accepted(rects@, old(canvas)@.width, old(canvas)@.height())
                &&& final(canvas)@ == annotated(old(canvas)@, rects@)
                &&& final(canvas)@.width == old(canvas)@.width
                &&& final(canvas)@.height() == old(canvas)@.height()
                &&& crops.len() == rects.len()
                &&& forall|k: int|
                    0 <= k < crops.len() ==> (#[trigger] crops[k])@ == crop_of(
                        old(canvas)@,
                        rects@,
                        k,
                        source,
                    )
            },
            Err(rejection) => {
                &&& is_first_refusal(
                    rects@,
                    old(canvas)@.width,
                    old(canvas)@.height(),
                    rejection.index as int,
                    rejection.reason,
                )
                &&& final(canvas)@ == old(canvas)@
            },
        },
{
    let width: u32 = canvas.width();
    let height: u32 = canvas.height();
    let count: usize = rects.len();
    let mut i: usize = 0;
    while i < count
        invariant
            i <= count,
            count == rects.len(),
            width == canvas@.width,
            height == canvas@.height(),
            canvas@ == old(canvas)@,
            all_accepted(rects@.take(i as int), width as nat, height as nat),
        decreases count - i,
    {
        match rects[i].check(width, height) {
            Ok(()) => {},
            Err(reason) => {
                return Err(Rejection { index: i, reason });
            },
        }
        proof {
            let seen = rects@.take(i as int + 1);
            assert forall|j: int| 0 <= j < seen.len() implies (#[trigger] seen[j]).verdict(
                width as nat,
                height as nat,
            ) is None by {
                if j < i {
                    assert(seen[j] == rects@.take(i as int)[j]);
                }
            }
        }
        i += 1;
    }
    assert(rects@.take(count as int) == rects@);
    let mut crops: Vec<Canvas> = Vec::new();
    if source == CropSource::Snapshot {
        let mut s: usize = 0;
        while s < count
            invariant
                s <= count,
                count == rects.len(),
                width == canvas@.width,
                height == canvas@.height(),
                canvas@ == old(canvas)@,
                all_accepted(rects@, width as nat, height as nat),
                crops.len() == s,
                forall|j: int|
                    0 <= j < s ==> (#[trigger] crops[j])@ == old(canvas)@.cropped(rects@[j]),
            decreases count - s,
        {
            let rect = rects[s];
            assert(rects@[s as int].verdict(width as nat, height as nat) is None);
            let part = buffer_crop(canvas, rect);
            crops.push(part);
            s += 1;
        }
    }
    let colour = outline_colour();
    let mut k: usize = 0;
    while k < count
        invariant
            k <= count,
            count == rects.len(),
            colour == line_colour(),
            width == old(canvas)@.width,
            height == old(canvas)@.height(),
            all_accepted(rects@, width as nat, height as nat),
            canvas@ == annotated(old(canvas)@, rects@.take(k as int)),
            source == CropSource::Snapshot ==> crops.len() == count,
            source == CropSource::AsDrawn ==> crops.len() == k,
            forall|j: int|
                0 <= j < crops.len() ==> (#[trigger] crops[j])@ == crop_of(
                    old(canvas)@,
                    rects@,
                    j,
                    source,
                ),
        decreases count - k,
    {
        let rect = rects[k];
        proof {
            lemma_annotated_keeps_size(old(canvas)@, rects@.take(k as int));
            assert(rects@[k as int].verdict(width as nat, height as nat) is None);
            let drawn = rects@.take(k as int + 1);
            assert(drawn.drop_last() == rects@.take(k as int));
            assert(drawn.last() == rect);
        }
        buffer_outline(canvas, rect, colour);
        if source == CropSource::AsDrawn {
            let part = buffer_crop(canvas, rect);
            crops.push(part);
        }
        k += 1;
    }
    proof {
        assert(rects@.take(count as int) == rects@);
        lemma_annotated_keeps_size(old(canvas)@, rects@);
    }
    Ok(crops)
}

} // verus!
