//! Region clamping and cropping over raw RGBA pixel buffers.
//!
//! A region is an axis-aligned rectangle in the coordinate space of a single
//! monitor's captured image, supplied by the caller with a signed origin and
//! unsigned extents. Before use it is always clamped to the captured image's
//! bounds: the origin is clamped to zero and each extent is limited to what
//! remains of the image past the clamped origin. A clamped region with zero
//! area is rejected by the capture path.

use vstd::prelude::*;

verus! {

/// A clamped region: guaranteed to lie inside the image it was clamped to.
#[derive(Clone, Copy, PartialEq, Eq, Structural, Debug)]
pub struct Region {
    pub x: u32,
    pub y: u32,
    pub width: u32,
    pub height: u32,
}

/// A requested origin coordinate clamped to zero.
pub open spec fn clamped_start(coord: i32) -> u32 {
    if coord > 0 {
        coord as u32
    } else {
        0
    }
}

/// A requested extent limited to what remains of the image past the clamped
/// start: `min(requested, image_extent - start)`, zero when the start lies
/// at or beyond the image edge.
pub open spec fn clamped_extent(requested: u32, image_extent: u32, start: u32) -> u32 {
    let avail = if image_extent > start {
        (image_extent - start) as u32
    } else {
        0u32
    };
    if requested < avail {
        requested
    } else {
        avail
    }
}

/// The width of the intersection of the half-open interval
/// `[origin, origin + extent)` with `[0, bound)`.
pub open spec fn intersection_extent(origin: int, extent: int, bound: int) -> int {
    let lo = if origin > 0 {
        origin
    } else {
        0
    };
    let hi = if origin + extent < bound {
        origin + extent
    } else {
        bound
    };
    if hi > lo {
        hi - lo
    } else {
        0
    }
}

/// Clamp a requested rectangle to an image of the given dimensions.
/// Succeeds exactly when the clamped rectangle still has positive area; a
/// request entirely outside the image, or with a zero extent, is refused.
pub fn clamp_region(x: i32, y: i32, width: u32, height: u32, img_width: u32, img_height: u32) -> (r:
    Option<Region>)
    ensures
        ({
            let cw = clamped_extent(width, img_width, clamped_start(x));
            let ch = clamped_extent(height, img_height, clamped_start(y));
            &&& r is Some <==> (cw > 0 && ch > 0)
            &&& r matches Some(reg) ==> reg == (Region {
                x: clamped_start(x),
                y: clamped_start(y),
                width: cw,
                height: ch,
            })
        }),
        r matches Some(reg) ==> reg.x + reg.width <= img_width && reg.y + reg.height
            <= img_height,
{
    let start_x: u32 = if x > 0 {
        x as u32
    } else {
        0
    };
    let start_y: u32 = if y > 0 {
        y as u32
    } else {
        0
    };
    let avail_w: u32 = if img_width > start_x {
        img_width - start_x
    } else {
        0
    };
    let avail_h: u32 = if img_height > start_y {
        img_height - start_y
    } else {
        0
    };
    let crop_width: u32 = if width < avail_w {
        width
    } else {
        avail_w
    };
    let crop_height: u32 = if height < avail_h {
        height
    } else {
        avail_h
    };
    if crop_width == 0 || crop_height == 0 {
        None
    } else {
        Some(Region { x: start_x, y: start_y, width: crop_width, height: crop_height })
    }
}

/// For a request whose origin is nonnegative, the clamped extent equals the
/// width of the intersection of the requested interval with the image
/// bounds. (A negative origin is clamped to zero without shrinking the
/// requested extent, so there the crop can be wider than the intersection.)
pub proof fn lemma_clamp_is_intersection(origin: i32, extent: u32, bound: u32)
    requires
        origin >= 0,
    ensures
        clamped_extent(extent, bound, clamped_start(origin)) == intersection_extent(
            origin as int,
            extent as int,
            bound as int,
        ),
{
}

/// One RGBA row segment of a crop: the bytes of `count` pixels starting at
/// column `sx` of row `row` in an image `img_w` pixels wide.
pub open spec fn row_bytes(pixels: Seq<u8>, img_w: u32, sx: u32, row: int, count: u32) -> Seq<u8> {
    pixels.subrange((row * img_w + sx) * 4, (row * img_w + sx) * 4 + count * 4)
}

/// The bytes of the crop made of the first `rows` rows of the rectangle
/// starting at `(sx, sy)`, each `count` pixels wide, in row-major order.
pub open spec fn cropped_bytes(
    pixels: Seq<u8>,
    img_w: u32,
    sx: u32,
    sy: u32,
    count: u32,
    rows: int,
) -> Seq<u8>
    decreases rows,
{
    if rows <= 0 {
        Seq::empty()
    } else {
        cropped_bytes(pixels, img_w, sx, sy, count, rows - 1) + row_bytes(
            pixels,
            img_w,
            sx,
            sy + rows - 1,
            count,
        )
    }
}

/// Copy the pixels of a clamped region out of a raw RGBA buffer, row by
/// row, producing the crop's bytes in row-major order.
pub fn crop_rgba(pixels: &Vec<u8>, img_width: u32, img_height: u32, region: &Region) -> (out: Vec<
    u8,
>)
    requires
        pixels@.len() == 4 * img_width * img_height,
        region.width > 0,
        region.height > 0,
        region.x + region.width <= img_width,
        region.y + region.height <= img_height,
    ensures
        out@ == cropped_bytes(
            pixels@,
            img_width,
            region.x,
            region.y,
            region.width,
            region.height as int,
        ),
        out@.len() == 4 * region.width * region.height,
{
    // Binding the length once brings the fact that it fits in usize into
    // scope for the index arithmetic below.
    let _total_len: usize = pixels.len();
    proof {
        assert(region.width * 4 <= 4 * img_width * img_height) by (nonlinear_arith)
            requires
                region.width > 0,
                region.height > 0,
                region.x + region.width <= img_width,
                region.y + region.height <= img_height,
        ;
    }
    let row_len: usize = (region.width as usize) * 4;
    let mut out: Vec<u8> = Vec::new();
    let mut row: u32 = 0;
    while row < region.height
        invariant
            pixels@.len() == 4 * img_width * img_height,
            pixels@.len() <= usize::MAX,
            region.width > 0,
            region.height > 0,
            region.x + region.width <= img_width,
            region.y + region.height <= img_height,
            row <= region.height,
            row_len == region.width * 4,
            out@ == cropped_bytes(
                pixels@,
                img_width,
                region.x,
                region.y,
                region.width,
                row as int,
            ),
            out@.len() == row * region.width * 4,
        decreases region.height - row,
    {
        proof {
            assert(((region.y + row) * img_width + region.x) * 4 + region.width * 4 <= pixels@.len()
                && ((region.y + row) * img_width + region.x) >= 0) by (nonlinear_arith)
                requires
                    pixels@.len() == 4 * img_width * img_height,
                    region.x + region.width <= img_width,
                    region.y + region.height <= img_height,
                    region.width > 0,
                    row < region.height,
            ;
        }
        let row_start: usize = (((region.y + row) as usize) * (img_width as usize) + (
        region.x as usize)) * 4;
        let ghost row_seq: Seq<u8> = row_bytes(
            pixels@,
            img_width,
            region.x,
            (region.y + row) as int,
            region.width,
        );
        let ghost out_before: Seq<u8> = out@;
        let mut col: usize = 0;
        while col < row_len
            invariant
                pixels@.len() == 4 * img_width * img_height,
                pixels@.len() <= usize::MAX,
                row_len == region.width * 4,
                col <= row_len,
                row_start == ((region.y + row) * img_width + region.x) * 4,
                row_start + row_len <= pixels@.len(),
                row_seq == row_bytes(
                    pixels@,
                    img_width,
                    region.x,
                    (region.y + row) as int,
                    region.width,
                ),
                out@ == out_before + pixels@.subrange(row_start as int, row_start + col),
            decreases row_len - col,
        {
            out.push(pixels[row_start + col]);
            col += 1;
            proof {
                assert(pixels@.subrange(row_start as int, row_start + col) == pixels@.subrange(
                    row_start as int,
                    row_start + col - 1,
                ).push(pixels@[row_start + col - 1]));
            }
        }
        proof {
            assert(out@ == out_before + row_seq);
            assert(cropped_bytes(
                pixels@,
                img_width,
                region.x,
                region.y,
                region.width,
                row + 1 as int,
            ) == cropped_bytes(pixels@, img_width, region.x, region.y, region.width, row as int)
                + row_seq);
            assert((row + 1) * region.width * 4 == row * region.width * 4 + region.width * 4)
                by (nonlinear_arith);
        }
        row += 1;
    }
    proof {
        assert(region.height * region.width * 4 == 4 * region.width * region.height)
            by (nonlinear_arith);
    }
    out
}

} // verus!
