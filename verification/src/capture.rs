//! Cropping and pixel-format conversion for captured screen images.
//!
//! A captured frame arrives as raw bytes with its geometry; cropping cuts
//! the selected region out row by row, padding rows that run past the
//! buffer, and the ARGB-to-RGBA conversion reorders each pixel's bytes
//! for the image pipeline that consumes the result.

use vstd::prelude::*;

use crate::geometry::Rect;

verus! {

/// Captured image data with its geometry.  `stride` is the number of
/// bytes per row in `data`.
#[derive(Debug)]
pub struct CapturedImage {
    pub data: Vec<u8>,
    pub width: u32,
    pub height: u32,
    pub stride: u32,
}

impl CapturedImage {
    /// The cropped width: the requested width, clamped to what remains of
    /// the image right of the crop origin.
    pub open spec fn spec_crop_width(self, rect: Rect) -> int {
        if rect.width <= self.width - rect.x {
            rect.width as int
        } else {
            self.width - rect.x
        }
    }

    /// The cropped height, clamped likewise.
    pub open spec fn spec_crop_height(self, rect: Rect) -> int {
        if rect.height <= self.height - rect.y {
            rect.height as int
        } else {
            self.height - rect.y
        }
    }

    /// The source row a cropped row reads: clamped to the last image row.
    pub open spec fn spec_src_row(self, rect: Rect, y: int) -> int {
        if rect.y + y <= self.height - 1 {
            rect.y + y
        } else {
            self.height - 1
        }
    }

    /// One cropped row: the source bytes when the row lies inside the
    /// buffer, else a row of zeroes.
    pub open spec fn spec_crop_row(self, rect: Rect, y: int) -> Seq<u8> {
        let off = self.spec_src_row(rect, y) * self.stride + rect.x * 4;
        let row_size = self.spec_crop_width(rect) * 4;
        if off + row_size <= self.data@.len() {
            self.data@.subrange(off, off + row_size)
        } else {
            Seq::new(row_size as nat, |i: int| 0u8)
        }
    }

    /// The first `rows` cropped rows, concatenated.
    pub open spec fn spec_crop_data(self, rect: Rect, rows: int) -> Seq<u8>
        decreases rows,
    {
        if rows <= 0 {
            Seq::empty()
        } else {
            self.spec_crop_data(rect, rows - 1) + self.spec_crop_row(rect, rows - 1)
        }
    }

    /// Crop the image to a region, given in image-local coordinates.
    /// Rows that would read past the end of the buffer are filled with
    /// zeroes instead.
    pub fn crop(&self, rect: Rect) -> (r: CapturedImage)
        requires
            0 <= rect.x <= self.width,
            0 <= rect.y <= self.height,
            0 <= rect.width,
            0 <= rect.height,
            self.height >= 1,
            self.width <= i32::MAX,
            self.height <= i32::MAX,
            (self.height - 1) * self.stride + self.width * 4 <= u32::MAX,
            (self.height - 1) * self.stride + self.width * 4 + self.spec_crop_width(rect) * 4
                <= usize::MAX,
            self.spec_crop_width(rect) * 4 * self.spec_crop_height(rect) <= usize::MAX,
        ensures
            r.width == self.spec_crop_width(rect),
            r.height == self.spec_crop_height(rect),
            r.stride == self.spec_crop_width(rect) * 4,
            r.data@ == self.spec_crop_data(rect, self.spec_crop_height(rect)),
    {
        let rect_width: u32 = if rect.width as u32 <= self.width - (rect.x as u32) {
            rect.width as u32
        } else {
            self.width - (rect.x as u32)
        };
        let rect_height: u32 = if rect.height as u32 <= self.height - (rect.y as u32) {
            rect.height as u32
        } else {
            self.height - (rect.y as u32)
        };
        let row_size: usize = (rect_width as usize) * 4;
        let mut cropped_data: Vec<u8> = Vec::new();
        let mut y: u32 = 0;
        while y < rect_height
            invariant
                y <= rect_height,
                rect_width == self.spec_crop_width(rect),
                rect_height == self.spec_crop_height(rect),
                row_size == rect_width * 4,
                0 <= rect.x <= self.width,
                0 <= rect.y <= self.height,
                self.height >= 1,
                self.width <= i32::MAX,
                self.height <= i32::MAX,
                (self.height - 1) * self.stride + self.width * 4 <= u32::MAX,
                (self.height - 1) * self.stride + self.width * 4 + rect_width * 4 <= usize::MAX,
                rect_width * 4 * rect_height <= usize::MAX,
                cropped_data@.len() == y * row_size,
                cropped_data@ == self.spec_crop_data(rect, y as int),
            decreases rect_height - y,
        {
            let src_y: u32 = if rect.y as u32 + y <= self.height - 1 {
                rect.y as u32 + y
            } else {
                self.height - 1
            };
            proof {
                assert(src_y * self.stride <= (self.height - 1) * self.stride) by (nonlinear_arith)
                    requires
                        src_y <= self.height - 1,
                        self.stride >= 0,
                ;
                assert((y + 1) * row_size == y * row_size + row_size) by (nonlinear_arith);
                assert(y * row_size + row_size <= rect_height * row_size) by (nonlinear_arith)
                    requires
                        y + 1 <= rect_height,
                        row_size >= 0,
                ;
                assert(rect_height * row_size == rect_width * 4 * rect_height)
                    by (nonlinear_arith)
                    requires
                        row_size == rect_width * 4,
                ;
            }
            let src_offset: usize = (src_y * self.stride + (rect.x as u32) * 4) as usize;
            let ghost row_start = cropped_data@.len() as int;
            if src_offset + row_size <= self.data.len() {
                let mut k: usize = 0;
                while k < row_size
                    invariant
                        k <= row_size,
                        src_offset + row_size <= usize::MAX,
                        src_offset + row_size <= self.data@.len(),
                        cropped_data@.len() == row_start + k,
                        cropped_data@ == self.spec_crop_data(rect, y as int) + self.data@.subrange(
                            src_offset as int,
                            src_offset + k,
                        ),
                        row_start == self.spec_crop_data(rect, y as int).len(),
                    decreases row_size - k,
                {
                    cropped_data.push(self.data[src_offset + k]);
                    proof {
                        assert(self.data@.subrange(src_offset as int, src_offset + k + 1)
                            =~= self.data@.subrange(src_offset as int, src_offset + k).push(
                            self.data@[src_offset + k],
                        ));
                    }
                    k = k + 1;
                }
            } else {
                let mut k: usize = 0;
                while k < row_size
                    invariant
                        k <= row_size,
                        cropped_data@.len() == row_start + k,
                        cropped_data@ == self.spec_crop_data(rect, y as int) + Seq::new(
                            k as nat,
                            |i: int| 0u8,
                        ),
                        row_start == self.spec_crop_data(rect, y as int).len(),
                    decreases row_size - k,
                {
                    cropped_data.push(0);
                    proof {
                        assert(Seq::new((k + 1) as nat, |i: int| 0u8) =~= Seq::new(
                            k as nat,
                            |i: int| 0u8,
                        ).push(0u8));
                    }
                    k = k + 1;
                }
            }
            proof {
                assert(self.spec_crop_row(rect, y as int).len() == row_size);
                assert(cropped_data@ =~= self.spec_crop_data(rect, y as int + 1));
            }
            y = y + 1;
        }
        CapturedImage {
            data: cropped_data,
            width: rect_width,
            height: rect_height,
            stride: rect_width * 4,
        }
    }
}

/// One byte of the RGBA image that an ARGB buffer converts to: pixels
/// keep their alpha byte, and the blue and red channels swap places.
/// Trailing bytes that do not fill a whole pixel are dropped.
pub open spec fn spec_argb_to_rgba(s: Seq<u8>) -> Seq<u8> {
    Seq::new(
        ((s.len() / 4) * 4) as nat,
        |i: int|
            {
                let p = (i / 4) * 4;
                if i % 4 == 0 {
                    s[p + 2]
                } else if i % 4 == 1 {
                    s[p + 1]
                } else if i % 4 == 2 {
                    s[p]
                } else {
                    s[p + 3]
                }
            },
    )
}

/// Converts ARGB8888 pixel data to RGBA8888.
pub fn convert_argb_to_rgba(buffer: &Vec<u8>) -> (out: Vec<u8>)
    ensures
        out@ == spec_argb_to_rgba(buffer@),
{
    let mut rgba_buffer: Vec<u8> = Vec::new();
    let pixels = buffer.len() / 4;
    let mut c: usize = 0;
    while c < pixels
        invariant
            c <= pixels,
            pixels == buffer@.len() / 4,
            buffer@.len() <= usize::MAX,
            rgba_buffer@.len() == 4 * c,
            rgba_buffer@ == spec_argb_to_rgba(buffer@).take(4 * c as int),
        decreases pixels - c,
    {
        proof {
            assert(4 * c + 4 <= 4 * pixels) by (nonlinear_arith)
                requires
                    c + 1 <= pixels,
            ;
            assert(4 * (buffer@.len() / 4) <= buffer@.len());
        }
        let b = buffer[4 * c];
        let g = buffer[4 * c + 1];
        let r = buffer[4 * c + 2];
        let a = buffer[4 * c + 3];
        rgba_buffer.push(r);
        rgba_buffer.push(g);
        rgba_buffer.push(b);
        rgba_buffer.push(a);
        proof {
            assert(rgba_buffer@ =~= spec_argb_to_rgba(buffer@).take(4 * (c + 1) as int));
        }
        c = c + 1;
    }
    proof {
        assert(rgba_buffer@ =~= spec_argb_to_rgba(buffer@));
    }
    rgba_buffer
}

} // verus!
