//! Conversions between the byte orders in which pictures arrive and the
//! ones in which they are kept.

use vstd::prelude::*;
use vstd::std_specs::bits::u32_trailing_zeros;

verus! {

/// Where in a pixel's bytes each colour stands.
#[derive(Clone, Copy, Debug, PartialEq, Eq, Structural)]
pub struct ChannelOrder {
    pub red: usize,
    pub green: usize,
    pub blue: usize,
}

impl Default for ChannelOrder {
    /// Blue first, then green, then red.
    fn default() -> (order: ChannelOrder)
        ensures
            order == (ChannelOrder { red: 2, green: 1, blue: 0 }),
    {
        ChannelOrder { red: 2, green: 1, blue: 0 }
    }
}

/// The byte of a pixel that a colour mask selects.
pub open spec fn mask_byte(mask: u32) -> int {
    u32_trailing_zeros(mask) as int / 8
}

/// The order of the colours that a display's masks give: the byte of each
/// mask, or the usual order where a mask is empty.
pub open spec fn order_of_masks(red_mask: u32, green_mask: u32, blue_mask: u32) -> ChannelOrder {
    if mask_byte(red_mask) > 3 || mask_byte(green_mask) > 3 || mask_byte(blue_mask) > 3 {
        ChannelOrder { red: 2, green: 1, blue: 0 }
    } else {
        ChannelOrder {
            red: mask_byte(red_mask) as usize,
            green: mask_byte(green_mask) as usize,
            blue: mask_byte(blue_mask) as usize,
        }
    }
}

/// Reads the order of the colours off the masks of a display.
pub fn channel_order_from_masks(
    red_mask: u32,
    green_mask: u32,
    blue_mask: u32,
) -> (order: ChannelOrder)
    ensures
        order == order_of_masks(red_mask, green_mask, blue_mask),
{
    let red = red_mask.trailing_zeros() / 8;
    let green = green_mask.trailing_zeros() / 8;
    let blue = blue_mask.trailing_zeros() / 8;
    if red > 3 || green > 3 || blue > 3 {
        return ChannelOrder::default();
    }
    ChannelOrder { red: red as usize, green: green as usize, blue: blue as usize }
}

/// The bytes that each pixel of a picture takes.
pub open spec fn bytes_per_pixel(len: int, width: int, height: int) -> int {
    len / (width * height)
}

/// A picture can be repacked when it has pixels, their number fits the
/// machine, each takes three bytes at least, and every colour stands
/// within a pixel's bytes.
pub open spec fn can_repack(len: int, width: int, height: int, order: ChannelOrder) -> bool {
    &&& 0 < width * height <= usize::MAX
    &&& bytes_per_pixel(len, width, height) >= 3
    &&& order.red < bytes_per_pixel(len, width, height)
    &&& order.green < bytes_per_pixel(len, width, height)
    &&& order.blue < bytes_per_pixel(len, width, height)
}

/// Byte `i` of a repacked picture of four bytes to the pixel: the three
/// chosen bytes of the pixel, then full opacity.
pub open spec fn repacked_byte(
    data: Seq<u8>,
    stride: int,
    first: int,
    second: int,
    third: int,
    i: int,
) -> u8 {
    let base = (i / 4) * stride;
    if i % 4 == 0 {
        data[base + first]
    } else if i % 4 == 1 {
        data[base + second]
    } else if i % 4 == 2 {
        data[base + third]
    } else {
        255u8
    }
}

/// `out` holds `pixels` pixels of four bytes, repacked from `data`.
pub open spec fn is_repacked(
    out: Seq<u8>,
    data: Seq<u8>,
    pixels: int,
    stride: int,
    first: int,
    second: int,
    third: int,
) -> bool {
    &&& out.len() == pixels * 4
    &&& forall|i: int|
        0 <= i < out.len() ==> #[trigger] out[i] == repacked_byte(
            data,
            stride,
            first,
            second,
            third,
            i,
        )
}

fn repack(
    data: &[u8],
    width: usize,
    height: usize,
    first: usize,
    second: usize,
    third: usize,
) -> (out: Option<Vec<u8>>)
    ensures
        out is Some <==> can_repack(
            data@.len() as int,
            width as int,
            height as int,
            ChannelOrder { red: first, green: second, blue: third },
        ),
        out matches Some(bytes) ==> is_repacked(
            bytes@,
            data@,
            width * height,
            bytes_per_pixel(data@.len() as int, width as int, height as int),
            first as int,
            second as int,
            third as int,
        ),
{
    let pixels = match width.checked_mul(height) {
        Some(p) => p,
        None => {
            return None;
        },
    };
    if pixels == 0 {
        return None;
    }
    let len = data.len();
    let stride = len / pixels;
    if stride < 3 {
        return None;
    }
    if first >= stride || second >= stride || third >= stride {
        return None;
    }
    proof {
        vstd::arithmetic::div_mod::lemma_fundamental_div_mod(data@.len() as int, pixels as int);
        assert(pixels * stride == stride * pixels) by (nonlinear_arith);
    }
    let mut out: Vec<u8> = Vec::new();
    let mut i: usize = 0;
    while i < pixels
        invariant
            i <= pixels,
            len == data@.len(),
            pixels * stride <= len,
            first < stride,
            second < stride,
            third < stride,
            is_repacked(
                out@,
                data@,
                i as int,
                stride as int,
                first as int,
                second as int,
                third as int,
            ),
        decreases pixels - i,
    {
        proof {
            assert(0 <= i * stride && i * stride + stride <= pixels * stride) by (nonlinear_arith)
                requires
                    0 <= i,
                    i + 1 <= pixels,
                    0 <= stride,
            ;
        }
        let base = i * stride;
        let ghost before = out@;
        out.push(data[base + first]);
        out.push(data[base + second]);
        out.push(data[base + third]);
        out.push(255);
        proof {
            assert forall|k: int| 0 <= k < out@.len() implies #[trigger] out@[k] == repacked_byte(
                data@,
                stride as int,
                first as int,
                second as int,
                third as int,
                k,
            ) by {
                if k < before.len() {
                    assert(out@[k] == before[k]);
                } else {
                    assert(k / 4 == i && k % 4 == k - 4 * i);
                }
            }
        }
        i += 1;
    }
    Some(out)
}

/// Repacks a picture into red, green, blue, alpha, with full opacity.
/// Gives nothing where the picture cannot be repacked.
pub fn to_rgba_with_order(
    data: &[u8],
    width: usize,
    height: usize,
    channel_order: ChannelOrder,
) -> (out: Option<Vec<u8>>)
    ensures
        out is Some <==> can_repack(
            data@.len() as int,
            width as int,
            height as int,
            channel_order,
        ),
        out matches Some(bytes) ==> is_repacked(
            bytes@,
            data@,
            width * height,
            bytes_per_pixel(data@.len() as int, width as int, height as int),
            channel_order.red as int,
            channel_order.green as int,
            channel_order.blue as int,
        ),
{
    repack(data, width, height, channel_order.red, channel_order.green, channel_order.blue)
}

/// Repacks a picture into blue, green, red, alpha, with full opacity.
/// Gives nothing where the picture cannot be repacked.
pub fn to_bgra_with_order(
    data: &[u8],
    width: usize,
    height: usize,
    channel_order: ChannelOrder,
) -> (out: Option<Vec<u8>>)
    ensures
        out is Some <==> can_repack(
            data@.len() as int,
            width as int,
            height as int,
            channel_order,
        ),
        out matches Some(bytes) ==> is_repacked(
            bytes@,
            data@,
            width * height,
            bytes_per_pixel(data@.len() as int, width as int, height as int),
            channel_order.blue as int,
            channel_order.green as int,
            channel_order.red as int,
        ),
{
    let swapped = repack(
        data,
        width,
        height,
        channel_order.blue,
        channel_order.green,
        channel_order.red,
    );
    swapped
}

/// Repacks a picture that arrives as blue, green, red into red, green,
/// blue, alpha.
pub fn to_rgba(data: &[u8], width: usize, height: usize) -> (out: Option<Vec<u8>>)
    ensures
        out is Some <==> can_repack(
            data@.len() as int,
            width as int,
            height as int,
            ChannelOrder { red: 2, green: 1, blue: 0 },
        ),
        out matches Some(bytes) ==> is_repacked(
            bytes@,
            data@,
            width * height,
            bytes_per_pixel(data@.len() as int, width as int, height as int),
            2,
            1,
            0,
        ),
{
    repack(data, width, height, 2, 1, 0)
}

/// Byte `i` of a picture whose red and blue bytes changed places in
/// every whole pixel.
pub open spec fn red_blue_swapped_byte(data: Seq<u8>, i: int) -> u8 {
    if i / 4 * 4 + 4 > data.len() {
        data[i]
    } else if i % 4 == 0 {
        data[i + 2]
    } else if i % 4 == 2 {
        data[i - 2]
    } else {
        data[i]
    }
}

/// Copies a picture of four bytes to the pixel and lets red and blue
/// change places. Bytes behind the last whole pixel are copied as they are.
pub fn swap_red_blue(data: &[u8]) -> (out: Vec<u8>)
    ensures
        out@.len() == data@.len(),
        forall|i: int| 0 <= i < out@.len() ==> #[trigger] out@[i] == red_blue_swapped_byte(data@, i),
{
    let len = data.len();
    let mut out: Vec<u8> = Vec::new();
    let mut i: usize = 0;
    while i < len
        invariant
            len == data@.len(),
            i <= len,
            i % 4 == 0 || i == len,
            out@.len() == i,
            forall|k: int| 0 <= k < i ==> #[trigger] out@[k] == red_blue_swapped_byte(data@, k),
        decreases len - i,
    {
        if len - i >= 4 {
            let ghost before = out@;
            out.push(data[i + 2]);
            out.push(data[i + 1]);
            out.push(data[i]);
            out.push(data[i + 3]);
            proof {
                assert forall|k: int| 0 <= k < i + 4 implies #[trigger] out@[k]
                    == red_blue_swapped_byte(data@, k) by {
                    if k < i {
                        assert(out@[k] == before[k]);
                    } else {
                        assert(k / 4 * 4 == i);
                    }
                }
            }
            i += 4;
        } else {
            let ghost start = i as int;
            while i < len
                invariant
                    len == data@.len(),
                    start <= i <= len,
                    start % 4 == 0,
                    len - start < 4,
                    out@.len() == i,
                    forall|k: int|
                        0 <= k < i ==> #[trigger] out@[k] == red_blue_swapped_byte(data@, k),
                decreases len - i,
            {
                let ghost before = out@;
                out.push(data[i]);
                proof {
                    assert forall|k: int| 0 <= k < i + 1 implies #[trigger] out@[k]
                        == red_blue_swapped_byte(data@, k) by {
                        if k < i {
                            assert(out@[k] == before[k]);
                        } else {
                            assert(k / 4 * 4 == start);
                        }
                    }
                }
                i += 1;
            }
        }
    }
    out
}

} // verus!
