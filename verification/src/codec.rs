use vstd::prelude::*;

verus! {

/// Pixel columns of the monochrome panel.
pub const WIDTH: u32 = 128;

/// Pixel rows of the monochrome panel.
pub const HEIGHT: u32 = 64;

/// Pixels of the monochrome panel.
pub const CANVAS_PIXELS: usize = 8192;

/// Bytes of a packed bitmap that fills the monochrome panel.
pub const BITMAP_BYTES: usize = 1024;

/// Grey levels strictly below this one are shown as black.
pub const THRESHOLD: u8 = 128;

/// Sixteenths of a pixel's error that go to the pixel on its right when grey levels are cut
/// to black and white.
pub const WEIGHT_RIGHT: u8 = 7;

/// Sixteenths of a pixel's error that go to the pixel below it on the left.
pub const WEIGHT_BELOW_LEFT: u8 = 3;

/// Sixteenths of a pixel's error that go to the pixel below it.
pub const WEIGHT_BELOW: u8 = 5;

/// Sixteenths of a pixel's error that go to the pixel below it on the right.
pub const WEIGHT_BELOW_RIGHT: u8 = 1;

/// Where a pixel of the canvas passes its error on: the positions, row by row, of its four
/// neighbours to the right and below.
#[derive(Debug, Clone, Copy, PartialEq, Eq, Structural)]
pub struct Diffusion {
    pub right: usize,
    pub below_left: usize,
    pub below: usize,
    pub below_right: usize,
}

/// Why a picture could not be converted.
#[derive(Debug, Clone, Copy, PartialEq, Eq, Structural)]
pub enum CodecError {
    /// The bytes are no picture in any format that is known.
    DecodeFailed,
    /// The pixels could not be written in the format asked for.
    EncodeFailed,
}

/// A decoded picture of the `image` crate, in whatever colour layout its file had.
#[verifier::external_type_specification]
#[verifier::external_body]
pub struct ExDynamicImage(image::DynamicImage);

/// The error type of the `image` crate.
#[verifier::external_type_specification]
#[verifier::external_body]
pub struct ExImageError(image::ImageError);

/// What `image::ImageReader` decodes from the given bytes once it has guessed their format
/// from the content, if it decodes anything.
pub uninterp spec fn decoded(bytes: Seq<u8>) -> Option<image::DynamicImage>;

/// The number of pixel columns that `image::DynamicImage::width` reports.
pub uninterp spec fn image_width(img: image::DynamicImage) -> nat;

/// The number of pixel rows that `image::DynamicImage::height` reports.
pub uninterp spec fn image_height(img: image::DynamicImage) -> nat;

/// The picture that `image::DynamicImage::rotate270` makes of a picture.
pub uninterp spec fn rotated270(img: image::DynamicImage) -> image::DynamicImage;

/// The picture that `image::DynamicImage::resize` makes of a picture with the triangle
/// filter, for the given bounds.
pub uninterp spec fn fitted(
    img: image::DynamicImage,
    max_width: nat,
    max_height: nat,
) -> image::DynamicImage;

/// The grey levels of the pixels that `image::DynamicImage::to_luma8` gives, row by row.
pub uninterp spec fn luma_pixels(img: image::DynamicImage) -> Seq<u8>;

/// The red, green and blue levels of the pixels that `image::DynamicImage::to_rgb8` gives,
/// pixel by pixel and row by row.
pub uninterp spec fn rgb_pixels(img: image::DynamicImage) -> Seq<u8>;

/// The PNG file that `image::codecs::png::PngEncoder` writes for a picture of grey levels,
/// if it writes one.
pub uninterp spec fn png_of_luma(pixels: Seq<u8>, width: nat, height: nat) -> Option<Seq<u8>>;

/// Decodes an encoded picture with `image::ImageReader`, which guesses the format from the
/// content. The result is the one that [`decoded`] names; an error comes exactly when there
/// is none.
#[verifier::external_body]
fn decode_image(bytes: &[u8]) -> (r: Result<image::DynamicImage, image::ImageError>)
    ensures
        match r {
            Ok(img) => decoded(bytes@) == Some(img),
            Err(_) => decoded(bytes@).is_none(),
        },
{
    let reader = image::ImageReader::new(std::io::Cursor::new(bytes));
    reader.with_guessed_format().map_err(image::ImageError::IoError)?.decode()
}

/// `image::DynamicImage::width`.
#[verifier::external_body]
fn width_of(img: &image::DynamicImage) -> (w: u32)
    ensures
        w == image_width(*img),
{
    img.width()
}

/// `image::DynamicImage::height`.
#[verifier::external_body]
fn height_of(img: &image::DynamicImage) -> (h: u32)
    ensures
        h == image_height(*img),
{
    img.height()
}

/// `image::DynamicImage::rotate270`. The crate writes the pixel at column x and row y of
/// the source to column y of the result, so the result is as wide as the source is high and
/// as high as it is wide.
#[verifier::external_body]
fn rotate270(img: &image::DynamicImage) -> (r: image::DynamicImage)
    ensures
        r == rotated270(*img),
        image_width(r) == image_height(*img),
        image_height(r) == image_width(*img),
{
    img.rotate270()
}

/// `image::DynamicImage::resize` with `FilterType::Triangle`. The crate documents that the
/// result is scaled to fit within the bounds; that much is stated of its size. Of its pixels
/// nothing is stated but their name.
#[verifier::external_body]
fn resize_to_fit(img: &image::DynamicImage, max_width: u32, max_height: u32) -> (r:
    image::DynamicImage)
    requires
        max_width >= 1,
        max_height >= 1,
    ensures
        r == fitted(*img, max_width as nat, max_height as nat),
        image_width(r) <= max_width,
        image_height(r) <= max_height,
{
    img.resize(max_width, max_height, image::imageops::FilterType::Triangle)
}

/// `image::DynamicImage::to_luma8`, read through `image::ImageBuffer::pixels`, which gives
/// the pixels row by row: one grey level for each pixel of the picture.
#[verifier::external_body]
fn to_luma8(img: &image::DynamicImage) -> (pixels: Vec<u8>)
    ensures
        pixels@ == luma_pixels(*img),
        pixels@.len() == image_width(*img) * image_height(*img),
{
    img.to_luma8().pixels().map(|pixel| pixel.0[0]).collect()
}

/// `image::DynamicImage::to_rgb8`, read through `image::ImageBuffer::pixels`, which gives
/// the pixels row by row: a red, a green and a blue level for each pixel of the picture.
#[verifier::external_body]
fn to_rgb8(img: &image::DynamicImage) -> (pixels: Vec<u8>)
    ensures
        pixels@ == rgb_pixels(*img),
        pixels@.len() == 3 * (image_width(*img) * image_height(*img)),
{
    img.to_rgb8().pixels().flat_map(|pixel| pixel.0).collect()
}

/// `image::ImageEncoder::write_image` of `image::codecs::png::PngEncoder`, for 8-bit grey
/// levels, into a fresh buffer. The crate panics unless there is one byte for each pixel.
#[verifier::external_body]
fn encode_png_luma(pixels: &[u8], width: u32, height: u32) -> (r: Result<
    Vec<u8>,
    image::ImageError,
>)
    requires
        pixels@.len() == width * height,
    ensures
        match r {
            Ok(png) => png_of_luma(pixels@, width as nat, height as nat) == Some(png@),
            Err(_) => png_of_luma(pixels@, width as nat, height as nat).is_none(),
        },
{
    let mut png: Vec<u8> = Vec::new();
    let encoder = image::codecs::png::PngEncoder::new(&mut png);
    image::ImageEncoder::write_image(encoder, pixels, width, height, image::ExtendedColorType::L8)?;
    Ok(png)
}

/// A picture as the panel wants it: turned by three quarters where it stands taller than
/// wide, and otherwise as it is.
pub open spec fn oriented(img: image::DynamicImage) -> image::DynamicImage {
    if image_height(img) > image_width(img) {
        rotated270(img)
    } else {
        img
    }
}

/// The blank margin before a picture that is centred in a frame, in pixels.
pub open spec fn centered_offset(frame: nat, picture: nat) -> nat {
    ((frame - picture) / 2) as nat
}

/// The panel-sized canvas with a picture of grey levels in its middle and black around it.
pub open spec fn letterboxed(pixels: Seq<u8>, width: nat, height: nat) -> Seq<u8> {
    Seq::new(
        8192,
        |i: int|
            {
                let x = i % 128;
                let y = i / 128;
                let left = centered_offset(128, width);
                let top = centered_offset(64, height);
                if left <= x < left + width && top <= y < top + height {
                    pixels[(y - top) * width + (x - left)]
                } else {
                    0u8
                }
            },
    )
}

/// The grey canvas that a decoded picture is shown from: the picture turned to landscape,
/// scaled to fit the panel and centred on black.
pub open spec fn padded_canvas(img: image::DynamicImage) -> Seq<u8> {
    let scaled = fitted(oriented(img), 128, 64);
    letterboxed(luma_pixels(scaled), image_width(scaled), image_height(scaled))
}

/// The grey canvas of an encoded picture, if the bytes decode.
pub open spec fn monochrome_canvas(image_data: Seq<u8>) -> Option<Seq<u8>> {
    match decoded(image_data) {
        Some(img) => Some(padded_canvas(img)),
        None => None,
    }
}

/// The raw colour bytes of an encoded picture, if the bytes decode.
pub open spec fn raw_rgb(image_data: Seq<u8>) -> Option<Seq<u8>> {
    match decoded(image_data) {
        Some(img) => Some(rgb_pixels(img)),
        None => None,
    }
}

/// The weight of the bit that stands for the k-th of the eight pixels of a byte: the first
/// pixel is the most significant bit.
pub open spec fn bit_weight(k: int) -> int {
    if k == 0 {
        128
    } else if k == 1 {
        64
    } else if k == 2 {
        32
    } else if k == 3 {
        16
    } else if k == 4 {
        8
    } else if k == 5 {
        4
    } else if k == 6 {
        2
    } else {
        1
    }
}

/// One where the pixel exists and is dark, zero elsewhere.
pub open spec fn dark_bit(dark: Seq<bool>, pixel: int) -> int {
    if 0 <= pixel < dark.len() && dark[pixel] {
        1
    } else {
        0
    }
}

/// The byte that holds the eight pixels from `8 * index` on.
pub open spec fn packed_byte(dark: Seq<bool>, index: int) -> int {
    128 * dark_bit(dark, 8 * index) + 64 * dark_bit(dark, 8 * index + 1) + 32 * dark_bit(
        dark,
        8 * index + 2,
    ) + 16 * dark_bit(dark, 8 * index + 3) + 8 * dark_bit(dark, 8 * index + 4) + 4 * dark_bit(
        dark,
        8 * index + 5,
    ) + 2 * dark_bit(dark, 8 * index + 6) + dark_bit(dark, 8 * index + 7)
}

/// The packed bitmap of a row-major run of pixels: eight pixels to the byte, the first in the
/// most significant bit, a set bit for a dark pixel. A last byte that is not full has zeros
/// for the pixels that are missing.
pub open spec fn packed(dark: Seq<bool>) -> Seq<u8> {
    Seq::new((dark.len() + 7) / 8, |i: int| packed_byte(dark, i) as u8)
}

/// Whether the bit for the k-th pixel of a byte is set.
pub open spec fn bit_is_set(byte: u8, k: int) -> bool {
    (byte as int / bit_weight(k)) % 2 == 1
}

/// The grey levels that a packed bitmap stands for on the panel: black for a set bit, white
/// for a clear one, and black where the bitmap has ended. Bytes beyond the panel are not
/// looked at.
pub open spec fn unpacked(data: Seq<u8>) -> Seq<u8> {
    Seq::new(
        8192,
        |p: int|
            if p / 8 < data.len() {
                if bit_is_set(data[p / 8], p % 8) {
                    0u8
                } else {
                    255u8
                }
            } else {
                0u8
            },
    )
}

/// Whether the pixel at a position of the canvas passes its error on. The pixels of the
/// left and right column and of the bottom row do not: they have a neighbour missing, and
/// are cut at the threshold as they stand.
pub open spec fn passes_error_on(index: int) -> bool {
    0 <= index < 8192 && 1 <= index % 128 <= 126 && index / 128 <= 62
}

/// The neighbours of a pixel that passes its error on.
pub open spec fn neighbours(index: int) -> Diffusion {
    Diffusion {
        right: (index + 1) as usize,
        below_left: (index + 127) as usize,
        below: (index + 128) as usize,
        below_right: (index + 129) as usize,
    }
}

/// Says where the pixel at a position of the canvas passes its error on, if it does. The
/// four neighbours all lie on the canvas.
pub fn diffusion_targets(index: usize) -> (targets: Option<Diffusion>)
    ensures
        targets == if passes_error_on(index as int) {
            Some(neighbours(index as int))
        } else {
            None
        },
        targets matches Some(t) ==> t.right < 8192 && t.below_left < 8192 && t.below < 8192
            && t.below_right < 8192,
{
    if index >= CANVAS_PIXELS {
        return None;
    }
    let x: usize = index % 128;
    let y: usize = index / 128;
    if x == 0 || x == 127 || y == 63 {
        None
    } else {
        Some(
            Diffusion {
                right: index + 1,
                below_left: index + 127,
                below: index + 128,
                below_right: index + 129,
            },
        )
    }
}

/// Turns a picture to landscape: by three quarters of a turn where it is taller than wide.
/// What comes back is never taller than wide.
pub fn orient(img: image::DynamicImage) -> (r: image::DynamicImage)
    ensures
        r == oriented(img),
        image_height(r) <= image_width(r),
        image_width(r) == if image_height(img) > image_width(img) {
            image_height(img)
        } else {
            image_width(img)
        },
        image_height(r) == if image_height(img) > image_width(img) {
            image_width(img)
        } else {
            image_height(img)
        },
{
    if height_of(&img) > width_of(&img) {
        rotate270(&img)
    } else {
        img
    }
}

/// Centres a picture of grey levels on a black canvas of the panel's size.
pub fn letterbox(pixels: &Vec<u8>, width: u32, height: u32) -> (canvas: Vec<u8>)
    requires
        width <= 128,
        height <= 64,
        pixels@.len() == width * height,
    ensures
        canvas@ == letterboxed(pixels@, width as nat, height as nat),
        canvas@.len() == 8192,
{
    let left: u32 = (WIDTH - width) / 2;
    let top: u32 = (HEIGHT - height) / 2;
    let mut canvas: Vec<u8> = Vec::new();
    let mut i: usize = 0;
    while i < CANVAS_PIXELS
        invariant
            i <= 8192,
            width <= 128,
            height <= 64,
            left == centered_offset(128, width as nat),
            top == centered_offset(64, height as nat),
            pixels@.len() == width * height,
            canvas@.len() == i,
            forall|j: int|
                0 <= j < i ==> canvas@[j] == letterboxed(
                    pixels@,
                    width as nat,
                    height as nat,
                )[j],
        decreases 8192 - i,
    {
        let x: u32 = (i % 128) as u32;
        let y: u32 = (i / 128) as u32;
        let level: u8 = if x >= left && x < left + width && y >= top && y < top + height {
            let row: u32 = y - top;
            let column: u32 = x - left;
            assert(row * width + column < width * height) by (nonlinear_arith)
                requires
                    row < height,
                    column < width,
            ;
            assert(row * width <= 63 * 128) by (nonlinear_arith)
                requires
                    row <= 63,
                    width <= 128,
            ;
            pixels[(row * width + column) as usize]
        } else {
            0
        };
        canvas.push(level);
        i = i + 1;
    }
    assert(canvas@ =~= letterboxed(pixels@, width as nat, height as nat));
    canvas
}

/// Makes the grey canvas of a decoded picture: turns it to landscape, scales it with a
/// smooth filter to the largest size that fits the panel, and centres it on black.
pub fn resize_and_pad(img: image::DynamicImage) -> (canvas: Vec<u8>)
    ensures
        canvas@ == padded_canvas(img),
        canvas@.len() == 8192,
{
    let upright = orient(img);
    let scaled = resize_to_fit(&upright, WIDTH, HEIGHT);
    let width: u32 = width_of(&scaled);
    let height: u32 = height_of(&scaled);
    let pixels = to_luma8(&scaled);
    letterbox(&pixels, width, height)
}

/// Decodes a picture, whatever its format, and makes its grey canvas. Fails exactly when
/// the bytes do not decode.
pub fn grayscale_canvas(image_data: &[u8]) -> (r: Result<Vec<u8>, CodecError>)
    ensures
        match r {
            Ok(canvas) => monochrome_canvas(image_data@) == Some(canvas@) && canvas@.len() == 8192,
            Err(e) => e == CodecError::DecodeFailed && monochrome_canvas(image_data@).is_none(),
        },
{
    match decode_image(image_data) {
        Ok(img) => Ok(resize_and_pad(img)),
        Err(_) => Err(CodecError::DecodeFailed),
    }
}

/// Decodes a picture and gives its pixels as raw red, green and blue bytes, at the size the
/// picture has: three bytes for each pixel. Fails exactly when the bytes do not decode.
pub fn convert_rgb(image_data: &[u8]) -> (r: Result<Vec<u8>, CodecError>)
    ensures
        match r {
            Ok(pixels) => raw_rgb(image_data@) == Some(pixels@) && pixels@.len() == 3 * (
            image_width(decoded(image_data@).unwrap()) * image_height(
                decoded(image_data@).unwrap(),
            )),
            Err(e) => e == CodecError::DecodeFailed && raw_rgb(image_data@).is_none(),
        },
{
    match decode_image(image_data) {
        Ok(img) => Ok(to_rgb8(&img)),
        Err(_) => Err(CodecError::DecodeFailed),
    }
}

/// Packs pixels into a bitmap, eight to the byte.
pub fn pack_bitmap(dark: &Vec<bool>) -> (bitmap: Vec<u8>)
    ensures
        bitmap@ == packed(dark@),
        bitmap@.len() == (dark@.len() + 7) / 8,
{
    let n: usize = dark.len();
    let mut bitmap: Vec<u8> = Vec::new();
    let mut current: u8 = 0;
    let mut i: usize = 0;
    while i < n
        invariant
            i <= n,
            n == dark@.len(),
            bitmap@.len() == i / 8,
            forall|j: int| 0 <= j < bitmap@.len() ==> bitmap@[j] == packed_byte(dark@, j) as u8,
            current as int + partial_rest(dark@, i as int) == packed_byte(dark@, i as int / 8),
            0 <= partial_rest(dark@, i as int),
        decreases n - i,
    {
        let k: usize = i % 8;
        let weight: u8 = if k == 0 {
            128
        } else if k == 1 {
            64
        } else if k == 2 {
            32
        } else if k == 3 {
            16
        } else if k == 4 {
            8
        } else if k == 5 {
            4
        } else if k == 6 {
            2
        } else {
            1
        };
        proof {
            lemma_packed_byte_bound(dark@, i as int / 8);
        }
        if dark[i] {
            current = current + weight;
        }
        if k == 7 {
            bitmap.push(current);
            current = 0;
        }
        i = i + 1;
    }
    if n % 8 != 0 {
        proof {
            lemma_packed_byte_bound(dark@, n as int / 8);
        }
        bitmap.push(current);
    }
    assert(bitmap@ =~= packed(dark@));
    bitmap
}

/// What the pixels from `from` to the end of their byte add to that byte.
spec fn partial_rest(dark: Seq<bool>, from: int) -> int {
    let index = from / 8;
    let k = from % 8;
    (if k <= 0 {
        128 * dark_bit(dark, 8 * index)
    } else {
        0
    }) + (if k <= 1 {
        64 * dark_bit(dark, 8 * index + 1)
    } else {
        0
    }) + (if k <= 2 {
        32 * dark_bit(dark, 8 * index + 2)
    } else {
        0
    }) + (if k <= 3 {
        16 * dark_bit(dark, 8 * index + 3)
    } else {
        0
    }) + (if k <= 4 {
        8 * dark_bit(dark, 8 * index + 4)
    } else {
        0
    }) + (if k <= 5 {
        4 * dark_bit(dark, 8 * index + 5)
    } else {
        0
    }) + (if k <= 6 {
        2 * dark_bit(dark, 8 * index + 6)
    } else {
        0
    }) + dark_bit(dark, 8 * index + 7)
}

/// A packed byte is a byte.
proof fn lemma_packed_byte_bound(dark: Seq<bool>, index: int)
    ensures
        0 <= packed_byte(dark, index) <= 255,
{
}

/// Spreads a packed bitmap out to the grey levels of the panel.
pub fn unpack_bitmap(data: &Vec<u8>) -> (pixels: Vec<u8>)
    ensures
        pixels@ == unpacked(data@),
        pixels@.len() == 8192,
{
    let mut pixels: Vec<u8> = Vec::new();
    let mut p: usize = 0;
    while p < CANVAS_PIXELS
        invariant
            p <= 8192,
            pixels@.len() == p,
            forall|q: int| 0 <= q < p ==> pixels@[q] == unpacked(data@)[q],
        decreases 8192 - p,
    {
        let index: usize = p / 8;
        let k: usize = p % 8;
        let level: u8 = if index < data.len() {
            let weight: u8 = if k == 0 {
                128
            } else if k == 1 {
                64
            } else if k == 2 {
                32
            } else if k == 3 {
                16
            } else if k == 4 {
                8
            } else if k == 5 {
                4
            } else if k == 6 {
                2
            } else {
                1
            };
            if (data[index] / weight) % 2 == 1 {
                0
            } else {
                255
            }
        } else {
            0
        };
        pixels.push(level);
        p = p + 1;
    }
    assert(pixels@ =~= unpacked(data@));
    pixels
}

/// Draws a packed bitmap as a PNG file of the panel's size: black where a bit is set, white
/// where it is clear. Fails exactly when the encoder does.
pub fn packed_to_png(data: &Vec<u8>) -> (r: Result<Vec<u8>, CodecError>)
    ensures
        match r {
            Ok(png) => png_of_luma(unpacked(data@), 128, 64) == Some(png@),
            Err(e) => e == CodecError::EncodeFailed && png_of_luma(
                unpacked(data@),
                128,
                64,
            ).is_none(),
        },
{
    let pixels = unpack_bitmap(data);
    match encode_png_luma(pixels.as_slice(), WIDTH, HEIGHT) {
        Ok(png) => Ok(png),
        Err(_) => Err(CodecError::EncodeFailed),
    }
}

/// The bit of a packed byte that stands for a pixel is set exactly where the pixel exists
/// and is dark.
pub proof fn lemma_packed_bit(dark: Seq<bool>, index: int, k: int)
    requires
        0 <= k < 8,
    ensures
        0 <= packed_byte(dark, index) <= 255,
        bit_is_set(packed_byte(dark, index) as u8, k) == (dark_bit(dark, 8 * index + k) == 1),
{
}

/// Unpacking undoes packing: a full canvas that is packed and spread out again is black
/// at each dark pixel and white at each light one.
pub proof fn lemma_unpack_pack(dark: Seq<bool>)
    requires
        dark.len() == 8192,
    ensures
        packed(dark).len() == 1024,
        unpacked(packed(dark)) == Seq::new(
            8192,
            |p: int|
                if dark[p] {
                    0u8
                } else {
                    255u8
                },
        ),
{
    assert forall|p: int| 0 <= p < 8192 implies #[trigger] unpacked(packed(dark))[p] == if dark[p] {
        0u8
    } else {
        255u8
    } by {
        lemma_packed_bit(dark, p / 8, p % 8);
    }
    assert(unpacked(packed(dark)) =~= Seq::new(
        8192,
        |p: int|
            if dark[p] {
                0u8
            } else {
                255u8
            },
    ));
}

/// A canvas of one shade packs to bytes of one kind: without a dark pixel to zero bytes,
/// with dark pixels alone to bytes of eight set bits.
pub proof fn lemma_pack_uniform(dark: Seq<bool>, shade: bool)
    requires
        dark.len() % 8 == 0,
        forall|i: int| 0 <= i < dark.len() ==> dark[i] == shade,
    ensures
        packed(dark).len() == dark.len() / 8,
        forall|index: int|
            0 <= index < packed(dark).len() ==> #[trigger] packed(dark)[index] == if shade {
                255u8
            } else {
                0u8
            },
{
}

} // verus!
