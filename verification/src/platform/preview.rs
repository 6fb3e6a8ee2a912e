//! Scaling a picture down onto a canvas of fixed size, so that every
//! preview tile has the same dimensions.

use vstd::prelude::*;
use vstd::arithmetic::div_mod::{lemma_fundamental_div_mod, lemma_fundamental_div_mod_converse};

verus! {

/// A picture and the canvas it is drawn on, all in pixels but for the
/// stride, which counts the bytes of one row of the picture.
pub struct Scaling {
    pub src_w: int,
    pub src_h: int,
    pub stride: int,
    pub max_w: int,
    pub max_h: int,
    pub scaled_w: int,
    pub scaled_h: int,
}

impl Scaling {
    /// The canvas has room for the drawn picture, which has a pixel at
    /// least.
    pub open spec fn wf(self) -> bool {
        &&& 1 <= self.scaled_w <= self.max_w
        &&& 1 <= self.scaled_h <= self.max_h
        &&& 0 <= self.src_w
        &&& 0 <= self.src_h
        &&& 0 <= self.stride
    }

    /// The empty columns to the left of the drawn picture.
    pub open spec fn offset_x(self) -> int {
        (self.max_w - self.scaled_w) / 2
    }

    /// The empty rows above the drawn picture.
    pub open spec fn offset_y(self) -> int {
        (self.max_h - self.scaled_h) / 2
    }

    /// The column of the drawn picture that byte `i` of the canvas
    /// belongs to.
    pub open spec fn column_of(self, i: int) -> int {
        (i / 4) % self.max_w - self.offset_x()
    }

    /// The row of the drawn picture that byte `i` of the canvas belongs to.
    pub open spec fn row_of(self, i: int) -> int {
        (i / 4) / self.max_w - self.offset_y()
    }

    /// Byte `i` of the canvas lies within the drawn picture.
    pub open spec fn covers(self, i: int) -> bool {
        0 <= self.column_of(i) < self.scaled_w && 0 <= self.row_of(i) < self.scaled_h
    }

    /// Where in the picture's bytes the pixel starts that is drawn at the
    /// given column and row: the nearest pixel to the left and above.
    pub open spec fn source_offset(self, column: int, row: int) -> int {
        ((row * self.src_h) / self.scaled_h) * self.stride + ((column * self.src_w)
            / self.scaled_w) * 4
    }

    /// The byte that the picture gives to byte `i` of the canvas, which
    /// lies within the drawn picture: zero where the picture's bytes end
    /// before the pixel does.
    pub open spec fn sampled_byte(self, data: Seq<u8>, i: int) -> u8 {
        let offset = self.source_offset(self.column_of(i), self.row_of(i));
        if offset + 4 <= data.len() {
            data[offset + i % 4]
        } else {
            0u8
        }
    }

    /// Byte `i` of the finished canvas: sampled from the picture within
    /// the drawn picture, zero around it.
    pub open spec fn canvas_byte(self, data: Seq<u8>, i: int) -> u8 {
        if self.covers(i) {
            self.sampled_byte(data, i)
        } else {
            0u8
        }
    }

    /// Byte `i` of the canvas while it is drawn row by row and has come
    /// to the given column of the given row.
    pub open spec fn partial_byte(self, data: Seq<u8>, i: int, row: int, column: int) -> u8 {
        if self.covers(i) && (self.row_of(i) < row || (self.row_of(i) == row && self.column_of(i)
            < column)) {
            self.sampled_byte(data, i)
        } else {
            0u8
        }
    }

    /// `canvas` is the finished canvas for the picture in `data`.
    pub open spec fn is_canvas(self, canvas: Seq<u8>, data: Seq<u8>) -> bool {
        &&& canvas.len() == self.max_w * self.max_h * 4
        &&& forall|i: int| 0 <= i < canvas.len() ==> #[trigger] canvas[i] == self.canvas_byte(data, i)
    }
}

/// The bytes of the pixel at a column and a row of the canvas, and no
/// others, take that column and row for theirs.
pub proof fn lemma_pixel_bytes(max_w: int, column: int, row: int, i: int)
    requires
        0 <= column < max_w,
        0 <= row,
        0 <= i,
    ensures
        (row * max_w + column) * 4 <= i < (row * max_w + column) * 4 + 4 <==> (i / 4) % max_w
            == column && (i / 4) / max_w == row,
        (row * max_w + column) * 4 <= i < (row * max_w + column) * 4 + 4 ==> i % 4 == i - (row
            * max_w + column) * 4,
{
    let pixel = row * max_w + column;
    assert(row * max_w >= 0) by (nonlinear_arith)
        requires
            row >= 0,
            max_w > 0,
    ;
    if pixel * 4 <= i < pixel * 4 + 4 {
        lemma_fundamental_div_mod_converse(i, 4, pixel, i - pixel * 4);
        assert(max_w * row == row * max_w) by (nonlinear_arith);
        lemma_fundamental_div_mod_converse(pixel, max_w, row, column);
    }
    if (i / 4) % max_w == column && (i / 4) / max_w == row {
        lemma_fundamental_div_mod(i, 4);
        lemma_fundamental_div_mod(i / 4, max_w);
        assert(max_w * row == row * max_w) by (nonlinear_arith);
    }
}

/// A pixel of the drawn picture lies on the canvas, and its bytes lie
/// within the canvas's bytes.
pub proof fn lemma_pixel_on_canvas(s: Scaling, column: int, row: int)
    requires
        s.wf(),
        0 <= column < s.scaled_w,
        0 <= row < s.scaled_h,
    ensures
        0 <= s.offset_x() + column < s.max_w,
        0 <= s.offset_y() + row < s.max_h,
        0 <= ((s.offset_y() + row) * s.max_w + s.offset_x() + column) * 4,
        ((s.offset_y() + row) * s.max_w + s.offset_x() + column) * 4 + 4 <= s.max_w * s.max_h * 4,
{
    let dy = s.offset_y() + row;
    let dx = s.offset_x() + column;
    assert(dy * s.max_w >= 0 && dy * s.max_w + s.max_w <= s.max_h * s.max_w) by (nonlinear_arith)
        requires
            0 <= dy,
            dy + 1 <= s.max_h,
            s.max_w > 0,
    ;
    assert(s.max_h * s.max_w == s.max_w * s.max_h) by (nonlinear_arith);
}

/// The nearest pixel of the picture to a pixel of the drawn picture lies
/// within the picture.
pub proof fn lemma_nearest_in_picture(position: int, size: int, scaled: int)
    requires
        0 <= position < scaled,
        0 <= size,
    ensures
        0 <= (position * size) / scaled,
        size > 0 ==> (position * size) / scaled < size,
        size == 0 ==> (position * size) / scaled == 0,
{
    assert(0 <= position * size) by (nonlinear_arith)
        requires
            0 <= position,
            0 <= size,
    ;
    assert(0 <= (position * size) / scaled) by (nonlinear_arith)
        requires
            0 <= position * size,
            0 < scaled,
    ;
    if size > 0 {
        assert(position * size < size * scaled) by (nonlinear_arith)
            requires
                0 <= position < scaled,
                size > 0,
        ;
        lemma_fundamental_div_mod(position * size, scaled);
        let q = (position * size) / scaled;
        assert(q < size) by (nonlinear_arith)
            requires
                position * size == scaled * q + (position * size) % scaled,
                0 <= (position * size) % scaled,
                position * size < size * scaled,
                scaled > 0,
        ;
    } else {
        assert(position * size == 0) by (nonlinear_arith)
            requires
                size == 0,
        ;
    }
}

/// The product of two numbers of sixty-four bits has room in twice as many.
proof fn lemma_product_fits(a: int, b: int)
    requires
        0 <= a <= u64::MAX,
        0 <= b <= u64::MAX,
    ensures
        0 <= a * b <= 0xffff_ffff_ffff_fffe_0000_0000_0000_0001,
{
    assert(0 <= a * b <= 0xffff_ffff_ffff_ffff * 0xffff_ffff_ffff_ffff) by (nonlinear_arith)
        requires
            0 <= a <= 0xffff_ffff_ffff_ffff,
            0 <= b <= 0xffff_ffff_ffff_ffff,
    ;
}

/// Draws a picture of four bytes to the pixel, scaled to `scaled_w` by
/// `scaled_h` pixels, in the middle of an empty canvas of `max_w` by
/// `max_h` pixels. Each pixel is taken from the nearest pixel of the
/// picture; where the picture's bytes end early, the pixel stays empty.
pub fn draw_scaled(
    data: &[u8],
    src_w: usize,
    src_h: usize,
    stride: usize,
    max_w: usize,
    max_h: usize,
    scaled_w: usize,
    scaled_h: usize,
) -> (canvas: Vec<u8>)
    requires
        max_w * max_h * 4 <= usize::MAX,
        1 <= scaled_w <= max_w,
        1 <= scaled_h <= max_h,
    ensures
        (Scaling {
            src_w: src_w as int,
            src_h: src_h as int,
            stride: stride as int,
            max_w: max_w as int,
            max_h: max_h as int,
            scaled_w: scaled_w as int,
            scaled_h: scaled_h as int,
        }).is_canvas(canvas@, data@),
{
    let ghost s = Scaling {
        src_w: src_w as int,
        src_h: src_h as int,
        stride: stride as int,
        max_w: max_w as int,
        max_h: max_h as int,
        scaled_w: scaled_w as int,
        scaled_h: scaled_h as int,
    };
    proof {
        assert(max_w * max_h >= 0 && max_w * max_h <= max_w * max_h * 4) by (nonlinear_arith)
            requires
                max_w >= 0,
                max_h >= 0,
        ;
    }
    let len = data.len();
    let total = max_w * max_h * 4;
    let mut canvas: Vec<u8> = Vec::new();
    let mut filled: usize = 0;
    while filled < total
        invariant
            filled <= total,
            canvas@.len() == filled,
            forall|i: int| 0 <= i < filled ==> #[trigger] canvas@[i] == 0u8,
        decreases total - filled,
    {
        canvas.push(0);
        filled += 1;
    }
    let offset_x = (max_w - scaled_w) / 2;
    let offset_y = (max_h - scaled_h) / 2;
    let mut y: usize = 0;
    while y < scaled_h
        invariant
            s.wf(),
            s == (Scaling {
                src_w: src_w as int,
                src_h: src_h as int,
                stride: stride as int,
                max_w: max_w as int,
                max_h: max_h as int,
                scaled_w: scaled_w as int,
                scaled_h: scaled_h as int,
            }),
            len == data@.len(),
            total == max_w * max_h * 4,
            offset_x == s.offset_x(),
            offset_y == s.offset_y(),
            y <= scaled_h,
            canvas@.len() == total,
            forall|i: int|
                0 <= i < total ==> #[trigger] canvas@[i] == s.partial_byte(data@, i, y as int, 0),
        decreases scaled_h - y,
    {
        proof {
            lemma_nearest_in_picture(y as int, src_h as int, scaled_h as int);
            lemma_product_fits(y as int, src_h as int);
            lemma_product_fits((y * src_h) / (scaled_h as int), stride as int);
        }
        let src_y: u128 = (y as u128 * src_h as u128) / (scaled_h as u128);
        let row_offset: u128 = src_y * (stride as u128);
        let mut x: usize = 0;
        while x < scaled_w
            invariant
                s.wf(),
                s == (Scaling {
                    src_w: src_w as int,
                    src_h: src_h as int,
                    stride: stride as int,
                    max_w: max_w as int,
                    max_h: max_h as int,
                    scaled_w: scaled_w as int,
                    scaled_h: scaled_h as int,
                }),
                len == data@.len(),
                total == max_w * max_h * 4,
                offset_x == s.offset_x(),
                offset_y == s.offset_y(),
                y < scaled_h,
                x <= scaled_w,
                src_y == (y * src_h) / (scaled_h as int),
                row_offset == src_y * stride,
                canvas@.len() == total,
                forall|i: int|
                    0 <= i < total ==> #[trigger] canvas@[i] == s.partial_byte(
                        data@,
                        i,
                        y as int,
                        x as int,
                    ),
            decreases scaled_w - x,
        {
            proof {
                lemma_nearest_in_picture(x as int, src_w as int, scaled_w as int);
                lemma_product_fits(x as int, src_w as int);
                lemma_pixel_on_canvas(s, x as int, y as int);
            }
            let src_x: u128 = (x as u128 * src_w as u128) / (scaled_w as u128);
            let dst: usize = ((offset_y + y) * max_w + offset_x + x) * 4;
            let ghost before = canvas@;
            let ghost offset = s.source_offset(x as int, y as int);
            assert(offset == row_offset + src_x * 4);
            if row_offset <= len as u128 && row_offset + src_x * 4 + 4 <= len as u128 {
                let src: usize = (row_offset + src_x * 4) as usize;
                canvas.set(dst, data[src]);
                canvas.set(dst + 1, data[src + 1]);
                canvas.set(dst + 2, data[src + 2]);
                canvas.set(dst + 3, data[src + 3]);
            }
            proof {
                assert forall|i: int| 0 <= i < total implies #[trigger] canvas@[i]
                    == s.partial_byte(data@, i, y as int, x as int + 1) by {
                    lemma_pixel_bytes(
                        max_w as int,
                        offset_x as int + x as int,
                        offset_y as int + y as int,
                        i,
                    );
                    if dst <= i < dst + 4 {
                        assert(s.column_of(i) == x && s.row_of(i) == y);
                        assert(before[i] == s.partial_byte(data@, i, y as int, x as int));
                    } else {
                        assert(canvas@[i] == before[i]);
                        assert(!(s.column_of(i) == x && s.row_of(i) == y));
                    }
                }
            }
            x += 1;
        }
        y += 1;
    }
    proof {
        assert forall|i: int| 0 <= i < canvas@.len() implies #[trigger] canvas@[i] == s.canvas_byte(
            data@,
            i,
        ) by {
            assert(canvas@[i] == s.partial_byte(data@, i, scaled_h as int, 0));
        }
    }
    canvas
}

/// `v` moved into the range from one to `max`.
pub open spec fn at_least_one_at_most(v: int, max: int) -> int {
    if v < 1 {
        1
    } else if v > max {
        max
    } else {
        v
    }
}

/// A picture can be scaled down when neither it nor the canvas is empty,
/// the number of its pixels fits the machine, and its bytes suffice for
/// four to the pixel.
pub open spec fn can_downscale(len: int, src_w: int, src_h: int, max_w: int, max_h: int) -> bool {
    &&& src_w > 0
    &&& src_h > 0
    &&& max_w > 0
    &&& max_h > 0
    &&& src_w * src_h <= usize::MAX
    &&& len >= src_w * src_h * 4
}

/// Scales a picture down onto a canvas of `max_w` by `max_h` pixels and
/// returns the canvas with its width and height. The caller names the
/// size at which the picture is drawn, which is moved into the canvas
/// where it exceeds it and made one pixel where it is none. A picture
/// that cannot be scaled down gives an empty canvas of no size.
pub fn downscale_rgba(
    data: &[u8],
    src_w: usize,
    src_h: usize,
    max_w: usize,
    max_h: usize,
    scaled_w: usize,
    scaled_h: usize,
) -> (thumb: (Vec<u8>, usize, usize))
    requires
        max_w * max_h * 4 <= usize::MAX,
    ensures
        !can_downscale(
            data@.len() as int,
            src_w as int,
            src_h as int,
            max_w as int,
            max_h as int,
        ) ==> thumb.0@.len() == 0 && thumb.1 == 0 && thumb.2 == 0,
        can_downscale(data@.len() as int, src_w as int, src_h as int, max_w as int, max_h as int)
            ==> thumb.1 == max_w && thumb.2 == max_h && (Scaling {
            src_w: src_w as int,
            src_h: src_h as int,
            stride: src_w * 4,
            max_w: max_w as int,
            max_h: max_h as int,
            scaled_w: at_least_one_at_most(scaled_w as int, max_w as int),
            scaled_h: at_least_one_at_most(scaled_h as int, max_h as int),
        }).is_canvas(thumb.0@, data@),
{
    let len = data.len();
    if src_w == 0 || src_h == 0 || max_w == 0 || max_h == 0 {
        return (Vec::new(), 0, 0);
    }
    let pixels = match src_w.checked_mul(src_h) {
        Some(value) => value,
        None => {
            return (Vec::new(), 0, 0);
        },
    };
    let needed = match pixels.checked_mul(4) {
        Some(value) => value,
        None => {
            return (Vec::new(), 0, 0);
        },
    };
    if len < needed {
        return (Vec::new(), 0, 0);
    }
    proof {
        assert(src_w * 4 <= src_w * src_h * 4) by (nonlinear_arith)
            requires
                src_w >= 0,
                src_h >= 1,
        ;
    }
    let drawn_w = if scaled_w < 1 {
        1
    } else if scaled_w > max_w {
        max_w
    } else {
        scaled_w
    };
    let drawn_h = if scaled_h < 1 {
        1
    } else if scaled_h > max_h {
        max_h
    } else {
        scaled_h
    };
    let canvas = draw_scaled(data, src_w, src_h, src_w * 4, max_w, max_h, drawn_w, drawn_h);
    (canvas, max_w, max_h)
}

} // verus!
