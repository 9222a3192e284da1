//! Color-zone screen sampler.
//!
//! A frame buffer is BGRA, 4 bytes per pixel, rows `stride` bytes apart.
//! For each rectangular zone the sampler collects the colors of the pixels
//! the zone covers, clipped to the frame; the zone's color is then their
//! gamma-correct (linear-light) average, which is computed in floating
//! point at the edge of the program.
use vstd::prelude::*;

use crate::effects::ColorZone;

verus! {

/// A rectangular zone of the screen, in pixels.
#[derive(Debug, Clone, Copy)]
pub struct Rect {
    pub x: u32,
    pub y: u32,
    pub w: u32,
    pub h: u32,
}

/// The color of the pixel whose blue byte is at `i` (BGRA byte order).
pub open spec fn pixel_at(bgra: Seq<u8>, i: int) -> ColorZone {
    ColorZone { r: bgra[i + 2], g: bgra[i + 1], b: bgra[i] }
}

/// Byte offset of pixel (x, y).
pub open spec fn pixel_offset(stride: int, x: int, y: int) -> int {
    y * stride + 4 * x
}

/// The pixels x in [x0, x1) of row y whose color bytes lie inside the
/// buffer, in order of x.
pub open spec fn row_samples(bgra: Seq<u8>, stride: int, y: int, x0: int, x1: int) -> Seq<ColorZone>
    decreases x1 - x0,
{
    if x1 <= x0 {
        Seq::empty()
    } else {
        let i = pixel_offset(stride, x1 - 1, y);
        row_samples(bgra, stride, y, x0, x1 - 1) + if i + 2 < bgra.len() {
            seq![pixel_at(bgra, i)]
        } else {
            Seq::empty()
        }
    }
}

/// The samples of rows y in [y0, y1), each over columns [x0, x1), row by row.
pub open spec fn rows_samples(
    bgra: Seq<u8>,
    stride: int,
    y0: int,
    y1: int,
    x0: int,
    x1: int,
) -> Seq<ColorZone>
    decreases y1 - y0,
{
    if y1 <= y0 {
        Seq::empty()
    } else {
        rows_samples(bgra, stride, y0, y1 - 1, x0, x1) + row_samples(bgra, stride, y1 - 1, x0, x1)
    }
}

/// The smaller of two integers.
pub open spec fn min_int(a: int, b: int) -> int {
    if a <= b {
        a
    } else {
        b
    }
}

/// The pixel colors a zone covers: its rows and columns clipped to a frame
/// of `stride / 4` columns and `height` rows, row by row, leaving out
/// pixels whose bytes run past the end of the buffer.
pub open spec fn zone_pixels(bgra: Seq<u8>, stride: u32, height: u32, r: Rect) -> Seq<ColorZone> {
    rows_samples(
        bgra,
        stride as int,
        r.y as int,
        min_int(r.y + r.h, height as int),
        r.x as int,
        min_int(r.x + r.w, (stride / 4) as int),
    )
}

proof fn lemma_row_tail_outside(bgra: Seq<u8>, stride: int, y: int, x0: int, x: int, x1: int)
    requires
        x0 <= x <= x1,
        pixel_offset(stride, x, y) + 2 >= bgra.len(),
    ensures
        row_samples(bgra, stride, y, x0, x1) == row_samples(bgra, stride, y, x0, x),
    decreases x1 - x,
{
    if x1 > x {
        lemma_row_tail_outside(bgra, stride, y, x0, x, x1 - 1);
        assert(pixel_offset(stride, x1 - 1, y) >= pixel_offset(stride, x, y));
        assert(row_samples(bgra, stride, y, x0, x1) =~= row_samples(bgra, stride, y, x0, x1 - 1));
    }
}

/// The colors of the pixels zone `r` covers in a BGRA frame with rows
/// `stride` bytes apart and `height` rows, clipped to the frame.
pub fn zone_pixel_colors(bgra: &[u8], stride: u32, height: u32, r: Rect) -> (out: Vec<ColorZone>)
    requires
        r.x + r.w <= u32::MAX,
        r.y + r.h <= u32::MAX,
    ensures
        out@ == zone_pixels(bgra@, stride, height, r),
{
    let xr = r.x + r.w;
    let cols = stride / 4;
    let x_end: u32 = if xr <= cols { xr } else { cols };
    let yr = r.y + r.h;
    let y_end: u32 = if yr <= height { yr } else { height };
    let len = bgra.len() as u64;
    let mut out: Vec<ColorZone> = Vec::new();
    let mut y: u32 = r.y;
    while y < y_end
        invariant
            len == bgra@.len(),
            r.y <= y,
            y <= y_end || y == r.y,
            x_end as int == min_int(r.x + r.w, (stride / 4) as int),
            y_end as int == min_int(r.y + r.h, height as int),
            out@ == rows_samples(bgra@, stride as int, r.y as int, y as int, r.x as int, x_end as int),
        decreases y_end - y,
    {
        assert((y as int + 1) * (stride as int) <= 0x1_0000_0000 * 0xffff_ffff) by (nonlinear_arith)
            requires
                y < 0x1_0000_0000int,
                stride <= 0xffff_ffffint,
        ;
        assert((y as int + 1) * (stride as int) == y * stride + stride) by (nonlinear_arith);
        let row_start: u64 = y as u64 * stride as u64;
        let ghost before = out@;
        let mut x: u32 = r.x;
        let mut inside = true;
        while x < x_end && inside
            invariant
                len == bgra@.len(),
                row_start == y * stride,
                r.x <= x,
                x <= x_end || x == r.x,
                y < y_end,
                row_start + stride <= 0xffff_ffff_0000_0000int,
                x_end as int <= stride as int / 4,
                !inside ==> x < x_end,
                out@ == before + row_samples(bgra@, stride as int, y as int, r.x as int, x as int),
                !inside ==> pixel_offset(stride as int, x as int, y as int) + 2 >= bgra@.len(),
            decreases x_end - x + if inside { 1int } else { 0int },
        {
            let i: u64 = row_start + x as u64 * 4;
            assert(i == pixel_offset(stride as int, x as int, y as int));
            if i + 2 >= len {
                inside = false;
            } else {
                let px = ColorZone {
                    r: bgra[(i + 2) as usize],
                    g: bgra[(i + 1) as usize],
                    b: bgra[i as usize],
                };
                out.push(px);
                assert(row_samples(bgra@, stride as int, y as int, r.x as int, x + 1)
                    =~= row_samples(bgra@, stride as int, y as int, r.x as int, x as int)
                    + seq![pixel_at(bgra@, i as int)]);
                x = x + 1;
            }
        }
        proof {
            if !inside {
                lemma_row_tail_outside(bgra@, stride as int, y as int, r.x as int, x as int, x_end as int);
            }
            assert(out@ =~= rows_samples(bgra@, stride as int, r.y as int, y + 1, r.x as int, x_end as int));
        }
        y = y + 1;
    }
    out
}

/// A row whose pixels all lie inside the buffer yields every one of them,
/// left to right: sample `j` is the color of pixel `x0 + j` of that row,
/// read from its B, G, R bytes.
pub proof fn law_row_yields_each_pixel(bgra: Seq<u8>, stride: int, y: int, x0: int, x1: int)
    requires
        x0 <= x1,
        x0 < x1 ==> pixel_offset(stride, x1 - 1, y) + 2 < bgra.len(),
    ensures
        row_samples(bgra, stride, y, x0, x1).len() == x1 - x0,
        forall|j: int|
            0 <= j < x1 - x0 ==> {
                let i = y * stride + 4 * (x0 + j);
                &&& (#[trigger] row_samples(bgra, stride, y, x0, x1)[j]).r == bgra[i + 2]
                &&& row_samples(bgra, stride, y, x0, x1)[j].g == bgra[i + 1]
                &&& row_samples(bgra, stride, y, x0, x1)[j].b == bgra[i]
            },
    decreases x1 - x0,
{
    if x0 < x1 {
        law_row_yields_each_pixel(bgra, stride, y, x0, x1 - 1);
        let prev = row_samples(bgra, stride, y, x0, x1 - 1);
        let cur = row_samples(bgra, stride, y, x0, x1);
        assert(cur == prev + seq![pixel_at(bgra, pixel_offset(stride, x1 - 1, y))]);
        assert forall|j: int| 0 <= j < x1 - x0 implies {
            let i = y * stride + 4 * (x0 + j);
            &&& (#[trigger] cur[j]).r == bgra[i + 2]
            &&& cur[j].g == bgra[i + 1]
            &&& cur[j].b == bgra[i]
        } by {
            if j < x1 - 1 - x0 {
                assert(cur[j] == prev[j]);
            }
        }
    }
}

/// A zone that starts at or past the frame's last row or column covers no
/// pixels.
pub proof fn law_zone_outside_frame_is_empty(bgra: Seq<u8>, stride: u32, height: u32, r: Rect)
    requires
        r.y >= height || r.x >= stride / 4,
    ensures
        zone_pixels(bgra, stride, height, r) == Seq::<ColorZone>::empty(),
{
    let y1 = min_int(r.y + r.h, height as int);
    let x1 = min_int(r.x + r.w, (stride / 4) as int);
    lemma_rows_empty_when_no_columns(bgra, stride as int, r.y as int, y1, r.x as int, x1);
}

/// A single-row zone inside the frame and the buffer yields exactly its
/// `w` pixels, left to right.
pub proof fn law_row_zone_yields_its_pixels(bgra: Seq<u8>, stride: u32, height: u32, r: Rect)
    requires
        r.h == 1,
        r.y < height,
        r.w >= 1,
        r.x + r.w <= stride / 4,
        pixel_offset(stride as int, r.x + r.w - 1, r.y as int) + 2 < bgra.len(),
    ensures
        zone_pixels(bgra, stride, height, r).len() == r.w,
        forall|j: int|
            0 <= j < r.w ==> {
                let i = r.y * stride + 4 * (r.x + j);
                &&& (#[trigger] zone_pixels(bgra, stride, height, r)[j]).r == bgra[i + 2]
                &&& zone_pixels(bgra, stride, height, r)[j].g == bgra[i + 1]
                &&& zone_pixels(bgra, stride, height, r)[j].b == bgra[i]
            },
{
    let x1 = r.x + r.w;
    assert(min_int(r.y + r.h, height as int) == r.y + 1);
    assert(min_int(r.x + r.w, (stride / 4) as int) == x1);
    assert(rows_samples(bgra, stride as int, r.y as int, r.y as int, r.x as int, x1)
        =~= Seq::<ColorZone>::empty());
    assert(zone_pixels(bgra, stride, height, r) =~= row_samples(
        bgra,
        stride as int,
        r.y as int,
        r.x as int,
        x1,
    ));
    law_row_yields_each_pixel(bgra, stride as int, r.y as int, r.x as int, x1);
}

/// A zone of zero width or zero height covers no pixels.
pub proof fn law_empty_zone_has_no_pixels(bgra: Seq<u8>, stride: u32, height: u32, r: Rect)
    requires
        r.w == 0 || r.h == 0,
    ensures
        zone_pixels(bgra, stride, height, r) == Seq::<ColorZone>::empty(),
{
    let y1 = min_int(r.y + r.h, height as int);
    let x1 = min_int(r.x + r.w, (stride / 4) as int);
    lemma_rows_empty_when_no_columns(bgra, stride as int, r.y as int, y1, r.x as int, x1);
}

proof fn lemma_rows_empty_when_no_columns(bgra: Seq<u8>, stride: int, y0: int, y1: int, x0: int, x1: int)
    requires
        x1 <= x0 || y1 <= y0,
    ensures
        rows_samples(bgra, stride, y0, y1, x0, x1) == Seq::<ColorZone>::empty(),
    decreases y1 - y0,
{
    if y1 > y0 {
        lemma_rows_empty_when_no_columns(bgra, stride, y0, y1 - 1, x0, x1);
        assert(rows_samples(bgra, stride, y0, y1, x0, x1) =~= Seq::<ColorZone>::empty());
    }
}

} // verus!
