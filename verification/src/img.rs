//! Pixel-buffer logic of the capture pipeline: the raw capture type, the
//! conversion a frame source's BGRA frame needs to become RGBA, and
//! cropping a capture to a selected region. Grabbing the frame itself and
//! encoding or decoding image files is input and output and stays with the
//! surrounding program.
use crate::region::Region;
use vstd::arithmetic::div_mod::lemma_fundamental_div_mod;
use vstd::prelude::*;

verus! {

/// A raw full-colour capture: row-major RGBA, four bytes per pixel.
pub struct Capture {
    pub pixels: Vec<u8>,
    pub width: u32,
    pub height: u32,
}

impl Capture {
    /// The capture's invariant: the buffer holds exactly
    /// `width * height * 4` bytes.
    pub open spec fn wf(&self) -> bool {
        self.pixels@.len() == self.width * self.height * 4
    }

    /// A capture from a buffer and its dimensions.
    pub fn new(pixels: Vec<u8>, width: u32, height: u32) -> (r: Capture)
        requires
            pixels@.len() == width * height * 4,
        ensures
            r.wf(),
            r.pixels == pixels,
            r.width == width,
            r.height == height,
    {
        Capture { pixels, width, height }
    }
}

/// The RGBA bytes of one pixel of a BGRA frame with the given row stride:
/// the blue and red bytes swap and the alpha byte becomes opaque.
pub open spec fn rgba_pixel(frame: Seq<u8>, stride: int, y: int, x: int) -> Seq<u8> {
    seq![
        frame[stride * y + 4 * x + 2],
        frame[stride * y + 4 * x + 1],
        frame[stride * y + 4 * x],
        255u8,
    ]
}

/// The first `xs` converted pixels of row `y`.
pub open spec fn rgba_row(frame: Seq<u8>, stride: int, y: int, xs: int) -> Seq<u8>
    decreases xs,
{
    if xs <= 0 {
        Seq::empty()
    } else {
        rgba_row(frame, stride, y, xs - 1) + rgba_pixel(frame, stride, y, xs - 1)
    }
}

/// The first `ys` converted rows, each `w` pixels wide.
pub open spec fn rgba_rows(frame: Seq<u8>, stride: int, w: int, ys: int) -> Seq<u8>
    decreases ys,
{
    if ys <= 0 {
        Seq::empty()
    } else {
        rgba_rows(frame, stride, w, ys - 1) + rgba_row(frame, stride, ys - 1, w)
    }
}

/// The RGBA image of a whole BGRA frame, whose stride is its length divided
/// by the number of rows.
pub open spec fn rgba_of_frame(frame: Seq<u8>, w: int, h: int) -> Seq<u8> {
    rgba_rows(frame, frame.len() as int / h, w, h)
}

/// Convert a frame source's BGRA frame, with its padded row stride, into a
/// tight `w * h * 4` RGBA buffer.
pub fn rgba_from_frame(frame: &[u8], w: usize, h: usize) -> (r: Vec<u8>)
    requires
        h > 0,
        4 * w <= frame@.len() as int / h as int,
    ensures
        r@ == rgba_of_frame(frame@, w as int, h as int),
        r@.len() == w * h * 4,
{
    let stride = frame.len() / h;
    let len = frame.len();
    proof {
        lemma_fundamental_div_mod(len as int, h as int);
        assert(stride * h <= len) by (nonlinear_arith)
            requires
                len as int == (h as int) * (stride as int) + (len as int) % (h as int),
                (len as int) % (h as int) >= 0,
        ;
    }
    let mut out: Vec<u8> = Vec::new();
    let mut y: usize = 0;
    while y < h
        invariant
            y <= h,
            h > 0,
            len == frame@.len(),
            stride == frame@.len() as int / h as int,
            4 * w <= stride,
            stride * h <= len,
            out@ == rgba_rows(frame@, stride as int, w as int, y as int),
            out@.len() == y * w * 4,
        decreases h - y,
    {
        let mut x: usize = 0;
        while x < w
            invariant
                x <= w,
                y < h,
                h > 0,
                len == frame@.len(),
                stride == frame@.len() as int / h as int,
                4 * w <= stride,
                stride * h <= len,
                out@ == rgba_rows(frame@, stride as int, w as int, y as int) + rgba_row(
                    frame@,
                    stride as int,
                    y as int,
                    x as int,
                ),
                out@.len() == y * w * 4 + x * 4,
            decreases w - x,
        {
            proof {
                assert(stride * y + 4 * x + 4 <= stride * h) by (nonlinear_arith)
                    requires
                        4 * x + 4 <= 4 * w <= stride,
                        y + 1 <= h,
                        stride >= 0,
                ;
            }
            let base = stride * y + 4 * x;
            let ghost out0 = out@;
            out.push(frame[base + 2]);
            out.push(frame[base + 1]);
            out.push(frame[base]);
            out.push(255);
            proof {
                assert(out@ =~= out0 + rgba_pixel(frame@, stride as int, y as int, x as int));
                assert(rgba_row(frame@, stride as int, y as int, x + 1) == rgba_row(
                    frame@,
                    stride as int,
                    y as int,
                    x as int,
                ) + rgba_pixel(frame@, stride as int, y as int, x as int));
                assert(out@ =~= rgba_rows(frame@, stride as int, w as int, y as int) + rgba_row(
                    frame@,
                    stride as int,
                    y as int,
                    x + 1,
                ));
            }
            x = x + 1;
        }
        proof {
            assert(rgba_rows(frame@, stride as int, w as int, y + 1) == rgba_rows(
                frame@,
                stride as int,
                w as int,
                y as int,
            ) + rgba_row(frame@, stride as int, y as int, w as int));
            assert((y as int) * w * 4 + w * 4 == (y + 1) * w * 4) by (nonlinear_arith);
        }
        y = y + 1;
    }
    proof {
        assert((h as int) * w * 4 == (w as int) * h * 4) by (nonlinear_arith);
    }
    out
}

/// The selected region clamped to the capture: the crop origin.
pub open spec fn crop_ox(c: &Capture, g: &Region) -> int {
    if g.x <= c.width {
        g.x as int
    } else {
        c.width as int
    }
}

/// The selected region clamped to the capture: the crop origin.
pub open spec fn crop_oy(c: &Capture, g: &Region) -> int {
    if g.y <= c.height {
        g.y as int
    } else {
        c.height as int
    }
}

/// The crop width, clamped to what remains of the capture.
pub open spec fn crop_w(c: &Capture, g: &Region) -> int {
    if g.width <= c.width - crop_ox(c, g) {
        g.width as int
    } else {
        c.width - crop_ox(c, g)
    }
}

/// The crop height, clamped to what remains of the capture.
pub open spec fn crop_h(c: &Capture, g: &Region) -> int {
    if g.height <= c.height - crop_oy(c, g) {
        g.height as int
    } else {
        c.height - crop_oy(c, g)
    }
}

/// One cropped row: the contiguous bytes of `cw` pixels of absolute row
/// `row`, starting at column `ox`.
pub open spec fn cropped_row(pix: Seq<u8>, width: int, row: int, ox: int, cw: int) -> Seq<u8> {
    pix.subrange(4 * (row * width + ox), 4 * (row * width + ox) + 4 * cw)
}

/// The first `rows` cropped rows.
pub open spec fn cropped_rows(
    pix: Seq<u8>,
    width: int,
    oy: int,
    ox: int,
    cw: int,
    rows: int,
) -> Seq<u8>
    decreases rows,
{
    if rows <= 0 {
        Seq::empty()
    } else {
        cropped_rows(pix, width, oy, ox, cw, rows - 1) + cropped_row(
            pix,
            width,
            oy + rows - 1,
            ox,
            cw,
        )
    }
}

/// The pixel bytes of a capture cropped to a region, clamped to the
/// capture's bounds.
pub open spec fn crop_pixels(c: &Capture, g: &Region) -> Seq<u8> {
    cropped_rows(c.pixels@, c.width as int, crop_oy(c, g), crop_ox(c, g), crop_w(c, g), crop_h(c, g))
}

/// Crop a capture to a region, clamping the region to the capture's bounds.
/// The result is the sub-image whose rows are taken in order from the
/// original.
pub fn crop(capture: &Capture, region: &Region) -> (r: Capture)
    requires
        capture.wf(),
    ensures
        r.wf(),
        r.width == crop_w(capture, region),
        r.height == crop_h(capture, region),
        r.pixels@ == crop_pixels(capture, region),
{
    let ox: u32 = if region.x <= capture.width {
        region.x
    } else {
        capture.width
    };
    let oy: u32 = if region.y <= capture.height {
        region.y
    } else {
        capture.height
    };
    let cw: u32 = if region.width <= capture.width - ox {
        region.width
    } else {
        capture.width - ox
    };
    let ch: u32 = if region.height <= capture.height - oy {
        region.height
    } else {
        capture.height - oy
    };
    let width = capture.width as usize;
    let len = capture.pixels.len();
    let mut out: Vec<u8> = Vec::new();
    let mut row: usize = 0;
    proof {
        assert(capture.width * capture.height * 4 == (capture.width as int) * (capture.height
            as int) * 4);
    }
    while row < ch as usize
        invariant
            row <= ch,
            capture.wf(),
            width == capture.width as int,
            len == capture.pixels@.len(),
            ox == crop_ox(capture, region),
            oy == crop_oy(capture, region),
            cw == crop_w(capture, region),
            ch == crop_h(capture, region),
            ox + cw <= capture.width,
            oy + ch <= capture.height,
            out@ == cropped_rows(
                capture.pixels@,
                capture.width as int,
                oy as int,
                ox as int,
                cw as int,
                row as int,
            ),
            out@.len() == row * cw * 4,
        decreases ch - row,
    {
        let abs_row = oy as usize + row;
        proof {
            assert((abs_row as int) * width + ox + cw <= (capture.height as int) * width)
                by (nonlinear_arith)
                requires
                    abs_row + 1 <= capture.height as int,
                    ox + cw <= width,
                    width >= 0,
            ;
            assert((capture.height as int) * width * 4 == (capture.width as int) * (capture.height
                as int) * 4) by (nonlinear_arith)
                requires
                    width == capture.width as int,
            ;
        }
        let row_base = (abs_row * width + ox as usize) * 4;
        let mut j: usize = 0;
        let ghost row_start = out@;
        while j < cw as usize * 4
            invariant
                j <= cw * 4,
                capture.wf(),
                width == capture.width as int,
                len == capture.pixels@.len(),
                row_base == 4 * ((abs_row as int) * width + ox),
                row_base + 4 * cw <= len,
                out@ == row_start + capture.pixels@.subrange(
                    row_base as int,
                    row_base + j as int,
                ),
                out@.len() == row_start.len() + j,
            decreases cw * 4 - j,
        {
            let b = capture.pixels[row_base + j];
            out.push(b);
            proof {
                assert(out@ =~= row_start + capture.pixels@.subrange(
                    row_base as int,
                    row_base + j + 1,
                ));
            }
            j = j + 1;
        }
        proof {
            assert(out@ =~= cropped_rows(
                capture.pixels@,
                capture.width as int,
                oy as int,
                ox as int,
                cw as int,
                row + 1,
            ));
            assert((row as int) * cw * 4 + cw * 4 == (row + 1) * cw * 4) by (nonlinear_arith);
        }
        row = row + 1;
    }
    proof {
        assert(out@.len() == (ch as int) * (cw as int) * 4);
        assert(cw * ch * 4 == (ch as int) * (cw as int) * 4) by (nonlinear_arith);
    }
    Capture { pixels: out, width: cw, height: ch }
}

} // verus!
