//! Turning a decoded video frame into the bytes of a JPEG thumbnail.

use vstd::prelude::*;

verus! {

/// Where pixel `(x, y)` starts in a frame whose rows are `stride` bytes apart.
pub open spec fn pixel_offset(x: int, y: int, stride: int, bytes_per_pixel: int) -> int {
    y * stride + x * bytes_per_pixel
}

/// The number of pixel `(x, y)` in an image of this width, counting row by
/// row.
pub open spec fn pixel_index(x: int, y: int, width: int) -> int {
    y * width + x
}

/// Whether a frame of `len` bytes holds three bytes for every pixel.
pub open spec fn frame_fits(len: int, width: int, height: int, stride: int, bytes_per_pixel: int) -> bool {
    width == 0 || height == 0 || pixel_offset(width - 1, height - 1, stride, bytes_per_pixel) + 2
        < len
}

/// Whether `rgb` holds the pixels of the frame `data` row by row without gaps,
/// three bytes each in the order red, green, blue. `blue_first`: the frame
/// keeps them in the order blue, green, red.
pub open spec fn is_rgb_of(
    rgb: Seq<u8>,
    data: Seq<u8>,
    width: int,
    height: int,
    stride: int,
    bytes_per_pixel: int,
    blue_first: bool,
) -> bool {
    &&& rgb.len() == 3 * (width * height)
    &&& forall|x: int, y: int|
        0 <= x < width && 0 <= y < height ==> {
            let at = 3 * #[trigger] pixel_index(x, y, width);
            let from = pixel_offset(x, y, stride, bytes_per_pixel);
            &&& rgb[at] == data[from + if blue_first {
                2int
            } else {
                0int
            }]
            &&& rgb[at + 1] == data[from + 1]
            &&& rgb[at + 2] == data[from + if blue_first {
                0int
            } else {
                2int
            }]
        }
}

/// Where byte `channel` of a pixel (0 for red, 1 for green, 2 for blue) stands
/// among the three bytes that the frame keeps for the pixel.
pub open spec fn channel_offset(channel: int, blue_first: bool) -> int {
    if channel == 1 {
        1
    } else if (channel == 0) == blue_first {
        2
    } else {
        0
    }
}

/// What the `image` crate makes of an RGB image of this size: the bytes of
/// the JPEG file that it writes, or nothing where it refuses the image.
pub uninterp spec fn jpeg_of(rgb: Seq<u8>, width: u32, height: u32) -> Option<Seq<u8>>;


/// Bytes that a pixel takes in a bitmap of this depth: four at 32 bits, three
/// at any other depth.
pub fn bytes_per_pixel(bits_per_pixel: u16) -> (bytes: usize)
    ensures
        bytes == if bits_per_pixel == 32 {
            4int
        } else {
            3int
        },
{
    if bits_per_pixel == 32 {
        4
    } else {
        3
    }
}

proof fn lemma_offsets_in_frame(x: int, y: int, width: int, height: int, stride: int, bpp: int)
    requires
        0 <= x < width,
        0 <= y < height,
        0 <= stride,
        0 <= bpp,
    ensures
        0 <= y * stride <= (height - 1) * stride,
        0 <= x * bpp <= (width - 1) * bpp,
        0 <= pixel_offset(x, y, stride, bpp) <= pixel_offset(width - 1, height - 1, stride, bpp),
{
    assert(0 <= y * stride <= (height - 1) * stride) by (nonlinear_arith)
        requires
            0 <= y <= height - 1,
            0 <= stride,
    ;
    assert(0 <= x * bpp <= (width - 1) * bpp) by (nonlinear_arith)
        requires
            0 <= x <= width - 1,
            0 <= bpp,
    ;
}

proof fn lemma_rows_in_image(x: int, y: int, width: int, height: int)
    requires
        0 <= x < width,
        0 <= y < height,
    ensures
        0 <= pixel_index(x, y, width) < width * height,
        y * width + width == (y + 1) * width,
        (y + 1) * width <= width * height,
{
    assert(y * width + width == (y + 1) * width) by (nonlinear_arith);
    assert((y + 1) * width <= width * height) by (nonlinear_arith)
        requires
            0 <= y + 1 <= height,
            0 <= width,
    ;
    assert(0 <= y * width) by (nonlinear_arith)
        requires
            0 <= y,
            0 <= width,
    ;
}

proof fn lemma_earlier_pixel(x1: int, y1: int, x: int, y: int, width: int)
    requires
        0 <= x1 < width,
        0 <= y1,
        0 <= x <= width,
        y1 < y || (y1 == y && x1 < x),
    ensures
        0 <= pixel_index(x1, y1, width) < pixel_index(x, y, width),
{
    assert(0 <= y1 * width) by (nonlinear_arith)
        requires
            0 <= y1,
            0 <= width,
    ;
    if y1 < y {
        assert((y1 + 1) * width <= y * width) by (nonlinear_arith)
            requires
                y1 + 1 <= y,
                0 <= width,
        ;
        assert(y1 * width + width == (y1 + 1) * width) by (nonlinear_arith);
    }
}

/// Copies the pixels out of a frame, row by row and without gaps, as red,
/// green and blue. `None` where the frame is too short for its size or the
/// pixels would not fit in memory.
pub fn rgb_pixels(
    data: &Vec<u8>,
    width: u32,
    height: u32,
    stride: usize,
    bytes_per_pixel: usize,
    blue_first: bool,
) -> (rgb: Option<Vec<u8>>)
    ensures
        rgb is Some <==> frame_fits(
            data@.len() as int,
            width as int,
            height as int,
            stride as int,
            bytes_per_pixel as int,
        ) && 3 * (width * height) <= usize::MAX,
        rgb matches Some(pixels) ==> is_rgb_of(
            pixels@,
            data@,
            width as int,
            height as int,
            stride as int,
            bytes_per_pixel as int,
            blue_first,
        ),
{
    let mut pixels: Vec<u8> = Vec::new();
    if width == 0 || height == 0 {
        assert(width * height == 0) by (nonlinear_arith)
            requires
                width == 0 || height == 0,
        ;
        return Some(pixels);
    }
    let ghost w = width as int;
    let ghost h = height as int;
    let ghost s = stride as int;
    let ghost b = bytes_per_pixel as int;
    proof {
        lemma_offsets_in_frame(w - 1, h - 1, w, h, s, b);
        assert((h - 1) * s <= 0xFFFF_FFFF * 0xFFFF_FFFF_FFFF_FFFF) by (nonlinear_arith)
            requires
                0 <= h - 1 <= 0xFFFF_FFFF,
                0 <= s <= 0xFFFF_FFFF_FFFF_FFFF,
        ;
        assert((w - 1) * b <= 0xFFFF_FFFF * 0xFFFF_FFFF_FFFF_FFFF) by (nonlinear_arith)
            requires
                0 <= w - 1 <= 0xFFFF_FFFF,
                0 <= b <= 0xFFFF_FFFF_FFFF_FFFF,
        ;
        assert(0 < w * h <= 0xFFFF_FFFF * 0xFFFF_FFFF) by (nonlinear_arith)
            requires
                0 < w <= 0xFFFF_FFFF,
                0 < h <= 0xFFFF_FFFF,
        ;
    }
    let len: usize = data.len();
    let last: u128 = ((height - 1) as u128) * (stride as u128) + ((width - 1) as u128) * (
    bytes_per_pixel as u128) + 2;
    if last >= len as u128 {
        return None;
    }
    let count: u128 = 3 * ((width as u128) * (height as u128));
    if count > usize::MAX as u128 {
        return None;
    }
    let mut y: usize = 0;
    while y < height as usize
        invariant
            0 <= y <= h,
            w == width,
            h == height,
            s == stride,
            b == bytes_per_pixel,
            0 < w,
            0 < h,
            len == data@.len(),
            pixel_offset(w - 1, h - 1, s, b) + 2 < data@.len(),
            3 * (w * h) <= usize::MAX,
            pixels@.len() == 3 * (y * w),
            forall|x1: int, y1: int|
                0 <= x1 < w && 0 <= y1 < y ==> {
                    let at = 3 * #[trigger] pixel_index(x1, y1, w);
                    let from = pixel_offset(x1, y1, s, b);
                    &&& pixels@[at] == data@[from + if blue_first {
                        2int
                    } else {
                        0int
                    }]
                    &&& pixels@[at + 1] == data@[from + 1]
                    &&& pixels@[at + 2] == data@[from + if blue_first {
                        0int
                    } else {
                        2int
                    }]
                },
        decreases h - y,
    {
        let mut x: usize = 0;
        while x < width as usize
            invariant
                0 <= x <= w,
                0 <= y < h,
                w == width,
                h == height,
                s == stride,
                b == bytes_per_pixel,
                0 < w,
                0 < h,
                len == data@.len(),
                pixel_offset(w - 1, h - 1, s, b) + 2 < data@.len(),
                3 * (w * h) <= usize::MAX,
                pixels@.len() == 3 * pixel_index(x as int, y as int, w),
                forall|x1: int, y1: int|
                    0 <= x1 < w && 0 <= y1 && (y1 < y || (y1 == y && x1 < x)) ==> {
                        let at = 3 * #[trigger] pixel_index(x1, y1, w);
                        let from = pixel_offset(x1, y1, s, b);
                        &&& pixels@[at] == data@[from + if blue_first {
                            2int
                        } else {
                            0int
                        }]
                        &&& pixels@[at + 1] == data@[from + 1]
                        &&& pixels@[at + 2] == data@[from + if blue_first {
                            0int
                        } else {
                            2int
                        }]
                    },
            decreases w - x,
        {
            proof {
                lemma_offsets_in_frame(x as int, y as int, w, h, s, b);
                lemma_rows_in_image(x as int, y as int, w, h);
            }
            let from: usize = y * stride + x * bytes_per_pixel;
            let ghost before = pixels@;
            if blue_first {
                pixels.push(data[from + 2]);
                pixels.push(data[from + 1]);
                pixels.push(data[from]);
            } else {
                pixels.push(data[from]);
                pixels.push(data[from + 1]);
                pixels.push(data[from + 2]);
            }
            proof {
                let here = pixel_index(x as int, y as int, w);
                assert(pixels@.len() == 3 * pixel_index(x + 1, y as int, w));
                assert forall|x1: int, y1: int|
                    0 <= x1 < w && 0 <= y1 && (y1 < y || (y1 == y && x1 < x + 1)) implies {
                    let at = 3 * #[trigger] pixel_index(x1, y1, w);
                    let from1 = pixel_offset(x1, y1, s, b);
                    &&& pixels@[at] == data@[from1 + if blue_first {
                        2int
                    } else {
                        0int
                    }]
                    &&& pixels@[at + 1] == data@[from1 + 1]
                    &&& pixels@[at + 2] == data@[from1 + if blue_first {
                        0int
                    } else {
                        2int
                    }]
                } by {
                    if y1 == y && x1 == x {
                        assert(pixels@[3 * here] == before.push(pixels@[3 * here])[3 * here]);
                    } else {
                        lemma_earlier_pixel(x1, y1, x as int, y as int, w);
                        let at = 3 * pixel_index(x1, y1, w);
                        assert(pixels@[at] == before[at]);
                        assert(pixels@[at + 1] == before[at + 1]);
                        assert(pixels@[at + 2] == before[at + 2]);
                    }
                }
            }
            x = x + 1;
        }
        proof {
            lemma_rows_in_image(0, y as int, w, h);
        }
        y = y + 1;
    }
    proof {
        assert(h * w == w * h) by (nonlinear_arith);
        assert forall|x1: int, y1: int| 0 <= x1 < w && 0 <= y1 < h implies {
            let at = 3 * #[trigger] pixel_index(x1, y1, w);
            let from1 = pixel_offset(x1, y1, s, b);
            &&& pixels@[at] == data@[from1 + if blue_first {
                2int
            } else {
                0int
            }]
            &&& pixels@[at + 1] == data@[from1 + 1]
            &&& pixels@[at + 2] == data@[from1 + if blue_first {
                0int
            } else {
                2int
            }]
        } by {}
    }
    Some(pixels)
}

/// The thumbnail of a frame: its pixels, row by row as red, green and blue, as a
/// JPEG file. `None` where the frame is too short or the encoder refuses the image.
pub fn into_buffer(
    data: &Vec<u8>,
    width: u32,
    height: u32,
    stride: usize,
    bits_per_pixel: u16,
    blue_first: bool,
) -> (bytes: Option<Vec<u8>>)
    ensures
        match bytes {
            Some(jpeg) => thumbnail_of(
                data@,
                width,
                height,
                stride as int,
                bits_per_pixel,
                blue_first,
            ) == Some(jpeg@),
            None => thumbnail_of(data@, width, height, stride as int, bits_per_pixel, blue_first)
                is None,
        },
        bytes is Some ==> 1 <= width <= 65535 && 1 <= height <= 65535,
{
    match rgb_pixels(data, width, height, stride, bytes_per_pixel(bits_per_pixel), blue_first) {
        Some(rgb) => {
            proof {
                lemma_rgb_is_rgb_of(
                    rgb@,
                    data@,
                    width as int,
                    height as int,
                    stride as int,
                    if bits_per_pixel == 32 {
                        4int
                    } else {
                        3int
                    },
                    blue_first,
                );
            }
            encode_jpeg(rgb, width, height)
        },
        None => None,
    }
}

/// The thumbnail of a frame: what the `image` crate makes of its pixels, and
/// nothing where the frame is too short for its size or its pixels cannot be
/// held in memory.
pub open spec fn thumbnail_of(
    data: Seq<u8>,
    width: u32,
    height: u32,
    stride: int,
    bits_per_pixel: u16,
    blue_first: bool,
) -> Option<Seq<u8>> {
    let bytes_per_pixel = if bits_per_pixel == 32 {
        4int
    } else {
        3int
    };
    if frame_fits(data.len() as int, width as int, height as int, stride, bytes_per_pixel) && 3 * (
    width * height) <= usize::MAX {
        jpeg_of(
            rgb_of(data, width as int, height as int, stride, bytes_per_pixel, blue_first),
            width,
            height,
        )
    } else {
        None
    }
}

/// Byte `i` of the pixels of a frame: the pixels row by row without gaps,
/// three bytes each in the order red, green, blue.
pub open spec fn rgb_byte(
    data: Seq<u8>,
    i: int,
    width: int,
    stride: int,
    bytes_per_pixel: int,
    blue_first: bool,
) -> u8 {
    let pixel = i / 3;
    let x = pixel % width;
    let y = pixel / width;
    data[pixel_offset(x, y, stride, bytes_per_pixel) + channel_offset(i % 3, blue_first)]
}

/// The pixels of a frame as red, green and blue, row by row without gaps.
pub open spec fn rgb_of(
    data: Seq<u8>,
    width: int,
    height: int,
    stride: int,
    bytes_per_pixel: int,
    blue_first: bool,
) -> Seq<u8> {
    Seq::new(
        (3 * (width * height)) as nat,
        |i: int| rgb_byte(data, i, width, stride, bytes_per_pixel, blue_first),
    )
}

/// The pixels that `is_rgb_of` describes are those that `rgb_of` names.
pub proof fn lemma_rgb_is_rgb_of(
    rgb: Seq<u8>,
    data: Seq<u8>,
    width: int,
    height: int,
    stride: int,
    bytes_per_pixel: int,
    blue_first: bool,
)
    requires
        0 <= width,
        0 <= height,
        is_rgb_of(rgb, data, width, height, stride, bytes_per_pixel, blue_first),
    ensures
        rgb == rgb_of(data, width, height, stride, bytes_per_pixel, blue_first),
{
    let named = rgb_of(data, width, height, stride, bytes_per_pixel, blue_first);
    assert(0 <= width * height) by (nonlinear_arith)
        requires
            0 <= width,
            0 <= height,
    ;
    assert(rgb.len() == named.len());
    assert forall|i: int| 0 <= i < rgb.len() implies rgb[i] == named[i] by {
        let pixel = i / 3;
        let channel = i % 3;
        assert(width > 0) by (nonlinear_arith)
            requires
                0 < 3 * (width * height),
                0 <= width,
        ;
        let x = pixel % width;
        let y = pixel / width;
        vstd::arithmetic::div_mod::lemma_fundamental_div_mod(pixel, width);
        vstd::arithmetic::div_mod::lemma_mod_bound(pixel, width);
        assert(0 <= y < height) by (nonlinear_arith)
            requires
                pixel == width * y + x,
                0 <= x < width,
                0 <= pixel < width * height,
                0 <= height,
        ;
        assert(pixel_index(x, y, width) == pixel) by (nonlinear_arith)
            requires
                pixel == width * y + x,
                pixel_index(x, y, width) == y * width + x,
        ;
        assert(i == 3 * pixel_index(x, y, width) + channel);
    }
    assert(rgb =~= named);
}

/// `image::RgbImage::from_raw`, then `ImageBuffer::write_to` with
/// `ImageFormat::Jpeg`: encodes the pixels as a JPEG file. What comes back
/// depends on the pixels and the size alone. The crate refuses an image
/// without width or height, one wider or higher than 65535 pixels, and one
/// for which there are fewer than three bytes for each pixel.
#[verifier::external_body]
fn encode_jpeg(rgb: Vec<u8>, width: u32, height: u32) -> (bytes: Option<Vec<u8>>)
    ensures
        match bytes {
            Some(b) => jpeg_of(rgb@, width, height) == Some(b@),
            None => jpeg_of(rgb@, width, height) is None,
        },
        bytes is Some ==> 1 <= width <= 65535 && 1 <= height <= 65535 && 3 * (width * height)
            <= rgb@.len(),
{
    let image = image::RgbImage::from_raw(width, height, rgb)?;
    let mut bytes: Vec<u8> = Vec::new();
    image.write_to(&mut std::io::Cursor::new(&mut bytes), image::ImageFormat::Jpeg).ok()?;
    Some(bytes)
}

} // verus!
