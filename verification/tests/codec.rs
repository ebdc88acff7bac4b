use image_manager::codec::convert_rgb;
use image_manager::codec::diffusion_targets;
use image_manager::codec::grayscale_canvas;
use image_manager::codec::letterbox;
use image_manager::codec::orient;
use image_manager::codec::pack_bitmap;
use image_manager::codec::packed_to_png;
use image_manager::codec::resize_and_pad;
use image_manager::codec::unpack_bitmap;
use image_manager::codec::CodecError;
use image_manager::codec::Diffusion;
use image_manager::codec::WEIGHT_BELOW;
use image_manager::codec::WEIGHT_BELOW_LEFT;
use image_manager::codec::WEIGHT_BELOW_RIGHT;
use image_manager::codec::WEIGHT_RIGHT;
use image_manager::codec::BITMAP_BYTES;
use image_manager::codec::CANVAS_PIXELS;
use image_manager::codec::THRESHOLD;

fn gray_png(width: u32, height: u32, level: fn(u32, u32) -> u8) -> Vec<u8> {
    let img = image::GrayImage::from_fn(width, height, |x, y| image::Luma([level(x, y)]));
    let mut out = Vec::new();
    image::DynamicImage::ImageLuma8(img)
        .write_to(&mut std::io::Cursor::new(&mut out), image::ImageFormat::Png)
        .unwrap();
    out
}

fn white(_x: u32, _y: u32) -> u8 {
    255
}

fn black(_x: u32, _y: u32) -> u8 {
    0
}

fn dark_on_top(_x: u32, y: u32) -> u8 {
    if y == 0 {
        0
    } else {
        255
    }
}

fn dark_on_left(x: u32, _y: u32) -> u8 {
    if x == 0 {
        0
    } else {
        255
    }
}

fn threshold(canvas: &[u8]) -> Vec<bool> {
    canvas.iter().map(|&level| level < THRESHOLD).collect()
}

// Error diffusion after Floyd and Steinberg on a canvas of the panel's size, with the error
// carried in single precision: to the right 7/16, below left 3/16, below 5/16, below right
// 1/16. Pixels on the left, right and bottom edge pass nothing on.
fn dither(canvas: &[u8]) -> Vec<bool> {
    let mut pixels: Vec<f32> = canvas.iter().map(|&level| level as f32).collect();
    for y in 0..63 {
        for x in 1..127 {
            let idx = y * 128 + x;
            let old_pixel = pixels[idx];
            let new_pixel = if old_pixel < 128.0 { 0.0 } else { 255.0 };
            pixels[idx] = new_pixel;
            let quant_error = old_pixel - new_pixel;
            pixels[idx + 1] += quant_error * 7.0 / 16.0;
            pixels[idx + 127] += quant_error * 3.0 / 16.0;
            pixels[idx + 128] += quant_error * 5.0 / 16.0;
            pixels[idx + 129] += quant_error * 1.0 / 16.0;
        }
    }
    pixels.iter().map(|&pixel| pixel < 128.0).collect()
}

// The same diffusion, led by the positions and weights that the library gives.
fn dither_as_led(canvas: &[u8]) -> Vec<bool> {
    let mut pixels: Vec<f32> = canvas.iter().map(|&level| level as f32).collect();
    for index in 0..pixels.len() {
        if let Some(targets) = diffusion_targets(index) {
            let old_pixel = pixels[index];
            let new_pixel = if old_pixel < 128.0 { 0.0 } else { 255.0 };
            pixels[index] = new_pixel;
            let quant_error = old_pixel - new_pixel;
            pixels[targets.right] += quant_error * WEIGHT_RIGHT as f32 / 16.0;
            pixels[targets.below_left] += quant_error * WEIGHT_BELOW_LEFT as f32 / 16.0;
            pixels[targets.below] += quant_error * WEIGHT_BELOW as f32 / 16.0;
            pixels[targets.below_right] += quant_error * WEIGHT_BELOW_RIGHT as f32 / 16.0;
        }
    }
    pixels.iter().map(|&pixel| pixel < 128.0).collect()
}

fn grey(_x: u32, _y: u32) -> u8 {
    64
}

fn ramp(x: u32, y: u32) -> u8 {
    ((x * 2 + y * 3) % 256) as u8
}

fn at(canvas: &[u8], x: usize, y: usize) -> u8 {
    canvas[y * 128 + x]
}

#[test]
fn all_white_panel_packs_to_zero_bits() {
    let canvas = grayscale_canvas(&gray_png(128, 64, white)).unwrap();
    assert_eq!(canvas.len(), CANVAS_PIXELS);
    assert!(canvas.iter().all(|&level| level == 255));
    let bitmap = pack_bitmap(&dither(&canvas));
    assert_eq!(bitmap.len(), 1024);
    assert_eq!(bitmap.len(), BITMAP_BYTES);
    assert!(bitmap.iter().all(|&byte| byte == 0));
    assert_eq!(pack_bitmap(&threshold(&canvas)), bitmap);
}

#[test]
fn all_black_panel_packs_to_set_bits() {
    let canvas = grayscale_canvas(&gray_png(128, 64, black)).unwrap();
    assert_eq!(canvas.len(), 8192);
    assert!(canvas.iter().all(|&level| level == 0));
    let bitmap = pack_bitmap(&dither(&canvas));
    assert_eq!(bitmap.len(), 1024);
    assert!(bitmap.iter().all(|&byte| byte == 0xff));
    assert_eq!(pack_bitmap(&threshold(&canvas)), bitmap);
}

#[test]
fn dark_grey_panel_packs_to_three_set_bits_in_four() {
    let canvas = grayscale_canvas(&gray_png(128, 64, grey)).unwrap();
    assert!(canvas.iter().all(|&level| level == 64));
    let bitmap = pack_bitmap(&dither(&canvas));
    assert_eq!(bitmap.len(), 1024);
    let set: u32 = bitmap.iter().map(|byte| byte.count_ones()).sum();
    // a quarter of full brightness: about a quarter of the 8192 pixels stay light
    assert!(set > 5900 && set < 6400, "{}", set);
    // the edges pass nothing on and are cut as they stand: the left edge is dark throughout
    for y in 0..64 {
        assert_eq!(bitmap[y * 16] & 0x80, 0x80);
    }
}

#[test]
fn inner_pixels_pass_their_error_to_four_neighbours() {
    assert_eq!((WEIGHT_RIGHT, WEIGHT_BELOW_LEFT, WEIGHT_BELOW, WEIGHT_BELOW_RIGHT), (7, 3, 5, 1));
    assert_eq!(
        diffusion_targets(1),
        Some(Diffusion { right: 2, below_left: 128, below: 129, below_right: 130 })
    );
    assert_eq!(
        diffusion_targets(62 * 128 + 126),
        Some(Diffusion { right: 8063, below_left: 8189, below: 8190, below_right: 8191 })
    );
    // the left and right column and the bottom row pass nothing on
    assert_eq!(diffusion_targets(0), None);
    assert_eq!(diffusion_targets(127), None);
    assert_eq!(diffusion_targets(128), None);
    assert_eq!(diffusion_targets(63 * 128 + 5), None);
    assert_eq!(diffusion_targets(8191), None);
    assert_eq!(diffusion_targets(8192), None);
    assert_eq!(diffusion_targets(usize::MAX), None);
    let passing = (0..8192).filter(|&index| diffusion_targets(index).is_some()).count();
    assert_eq!(passing, 126 * 63);
}

#[test]
fn diffusion_follows_the_rows_from_the_top() {
    for level in [ramp, grey, dark_on_top] {
        let canvas = grayscale_canvas(&gray_png(128, 64, level)).unwrap();
        assert_eq!(dither_as_led(&canvas), dither(&canvas));
    }
}

#[test]
fn portrait_picture_is_turned_to_landscape() {
    let portrait = image::DynamicImage::ImageLuma8(image::GrayImage::new(3, 5));
    let turned = orient(portrait);
    assert_eq!((turned.width(), turned.height()), (5, 3));
    let landscape = image::DynamicImage::ImageRgb8(image::RgbImage::new(5, 3));
    let kept = orient(landscape);
    assert_eq!((kept.width(), kept.height()), (5, 3));
    let square = image::DynamicImage::ImageLuma8(image::GrayImage::new(4, 4));
    let kept = orient(square);
    assert_eq!((kept.width(), kept.height()), (4, 4));
}

#[test]
fn turning_moves_each_pixel_to_its_place() {
    // 1 wide and 2 high, the upper pixel light: turned, the light pixel is on the left
    let mut source = image::GrayImage::new(1, 2);
    source.put_pixel(0, 0, image::Luma([200]));
    source.put_pixel(0, 1, image::Luma([10]));
    let turned = orient(image::DynamicImage::ImageLuma8(source)).to_luma8();
    assert_eq!(turned.dimensions(), (2, 1));
    assert_eq!(turned.get_pixel(0, 0).0, [200]);
    assert_eq!(turned.get_pixel(1, 0).0, [10]);
}

#[test]
fn thin_picture_keeps_one_row() {
    let picture = image::DynamicImage::ImageLuma8(image::GrayImage::from_pixel(
        1000,
        1,
        image::Luma([255]),
    ));
    let canvas = resize_and_pad(picture);
    for y in 0..64 {
        for x in 0..128 {
            assert_eq!(at(&canvas, x, y), if y == 31 { 255 } else { 0 });
        }
    }
    // a tall one is turned first
    let picture = image::DynamicImage::ImageLuma8(image::GrayImage::from_pixel(
        1,
        1000,
        image::Luma([255]),
    ));
    assert_eq!(resize_and_pad(picture), canvas);
}

#[test]
fn picture_without_pixels_gives_a_black_canvas() {
    for (width, height) in [(0, 0), (0, 5), (5, 0)] {
        let picture = image::DynamicImage::ImageLuma8(image::GrayImage::new(width, height));
        let canvas = resize_and_pad(picture);
        assert_eq!(canvas.len(), 8192);
        assert!(canvas.iter().all(|&level| level == 0));
    }
}

#[test]
fn picture_in_a_longer_buffer_is_read_by_its_size() {
    // a buffer that is longer than the picture: only the pixels of the picture count
    let mut levels = vec![255u8; 128 * 64];
    levels.extend_from_slice(&[7; 500]);
    let picture = image::GrayImage::from_raw(128, 64, levels).unwrap();
    let canvas = resize_and_pad(image::DynamicImage::ImageLuma8(picture));
    assert_eq!(canvas, vec![255u8; 8192]);
    let mut levels = vec![255u8; 4 * 8];
    levels.extend_from_slice(&[7; 9]);
    let picture = image::GrayImage::from_raw(4, 8, levels).unwrap();
    let canvas = resize_and_pad(image::DynamicImage::ImageLuma8(picture));
    assert_eq!(canvas, vec![255u8; 8192]);
}

#[test]
fn pictures_of_all_small_sizes_fit_the_canvas() {
    for width in 1..40u32 {
        for height in 1..40u32 {
            let picture = image::DynamicImage::ImageLuma8(image::GrayImage::from_pixel(
                width,
                height,
                image::Luma([255]),
            ));
            let canvas = resize_and_pad(picture);
            assert_eq!(canvas.len(), 8192);
            // the largest size that fits touches the canvas on one axis at least
            let full_row = (0..128).all(|x| at(&canvas, x, 32) == 255);
            let full_column = (0..64).all(|y| at(&canvas, 64, y) == 255);
            assert!(full_row || full_column, "{} by {}", width, height);
        }
    }
}

#[test]
fn decoded_picture_is_scaled_and_centred() {
    let picture = image::DynamicImage::ImageLuma8(image::GrayImage::from_pixel(
        20,
        40,
        image::Luma([255]),
    ));
    // turned it is 40 by 20, twice as wide as high like the panel: it fills the panel
    let canvas = resize_and_pad(picture);
    assert_eq!(canvas.len(), 8192);
    assert!(canvas.iter().all(|&level| level == 255));
    let picture = image::DynamicImage::ImageRgb8(image::RgbImage::from_pixel(
        64,
        64,
        image::Rgb([255, 255, 255]),
    ));
    let canvas = resize_and_pad(picture);
    assert_eq!(at(&canvas, 31, 10), 0);
    assert_eq!(at(&canvas, 32, 10), 255);
    assert_eq!(at(&canvas, 95, 10), 255);
    assert_eq!(at(&canvas, 96, 10), 0);
}

#[test]
fn portrait_input_is_turned_before_it_is_scaled() {
    // 10 wide and 40 high: turned it is 40 by 10, scaled 128 by 32, with black above and below.
    let canvas = grayscale_canvas(&gray_png(10, 40, white)).unwrap();
    for x in 0..128 {
        for y in 0..16 {
            assert_eq!(at(&canvas, x, y), 0);
        }
        for y in 16..48 {
            assert_eq!(at(&canvas, x, y), 255);
        }
        for y in 48..64 {
            assert_eq!(at(&canvas, x, y), 0);
        }
    }
}

#[test]
fn portrait_of_the_panels_shape_fills_the_panel() {
    let canvas = grayscale_canvas(&gray_png(64, 128, white)).unwrap();
    assert!(canvas.iter().all(|&level| level == 255));
}

#[test]
fn landscape_input_is_not_turned() {
    // 40 wide and 10 high, dark in its top row: the dark stays on top.
    let canvas = grayscale_canvas(&gray_png(40, 10, dark_on_top)).unwrap();
    assert!(at(&canvas, 64, 16) < 128);
    assert_eq!(at(&canvas, 64, 47), 255);
    assert_eq!(at(&canvas, 64, 15), 0);
}

#[test]
fn turning_brings_the_top_row_to_the_left() {
    // 10 wide and 40 high, dark in its top row: turned by three quarters, the top row is
    // the left column.
    let canvas = grayscale_canvas(&gray_png(10, 40, dark_on_top)).unwrap();
    assert!(at(&canvas, 0, 32) < 128);
    assert_eq!(at(&canvas, 127, 32), 255);
    // and the left column of the source is the bottom row
    let canvas = grayscale_canvas(&gray_png(10, 40, dark_on_left)).unwrap();
    assert!(at(&canvas, 64, 47) < 128);
    assert_eq!(at(&canvas, 64, 16), 255);
}

#[test]
fn square_input_is_centred_between_black_bars() {
    let canvas = grayscale_canvas(&gray_png(10, 10, white)).unwrap();
    for y in 0..64 {
        for x in 0..32 {
            assert_eq!(at(&canvas, x, y), 0);
        }
        for x in 32..96 {
            assert_eq!(at(&canvas, x, y), 255);
        }
        for x in 96..128 {
            assert_eq!(at(&canvas, x, y), 0);
        }
    }
}

#[test]
fn small_input_is_scaled_up_to_fit() {
    let canvas = grayscale_canvas(&gray_png(2, 1, white)).unwrap();
    assert!(canvas.iter().all(|&level| level == 255));
}

#[test]
fn odd_margin_is_rounded_down() {
    // 128 by 61 fits as it is: the margin above is (64 - 61) / 2 = 1 row, below 2 rows.
    let canvas = grayscale_canvas(&gray_png(128, 61, white)).unwrap();
    for x in 0..128 {
        assert_eq!(at(&canvas, x, 0), 0);
        assert_eq!(at(&canvas, x, 1), 255);
        assert_eq!(at(&canvas, x, 61), 255);
        assert_eq!(at(&canvas, x, 62), 0);
        assert_eq!(at(&canvas, x, 63), 0);
    }
}

#[test]
fn bytes_that_are_no_picture_fail_to_decode() {
    assert_eq!(grayscale_canvas(b"this is no picture"), Err(CodecError::DecodeFailed));
    assert_eq!(grayscale_canvas(&[]), Err(CodecError::DecodeFailed));
    assert_eq!(convert_rgb(b"this is no picture"), Err(CodecError::DecodeFailed));
    let mut cut = gray_png(16, 16, white);
    cut.truncate(20);
    assert_eq!(grayscale_canvas(&cut), Err(CodecError::DecodeFailed));
}

#[test]
fn format_is_found_from_the_content() {
    let img = image::RgbImage::from_pixel(128, 64, image::Rgb([255, 255, 255]));
    let mut bmp = Vec::new();
    image::DynamicImage::ImageRgb8(img)
        .write_to(&mut std::io::Cursor::new(&mut bmp), image::ImageFormat::Bmp)
        .unwrap();
    let canvas = grayscale_canvas(&bmp).unwrap();
    assert!(canvas.iter().all(|&level| level == 255));
}

#[test]
fn colour_conversion_gives_raw_triples() {
    let mut img = image::RgbImage::new(2, 2);
    img.put_pixel(0, 0, image::Rgb([1, 2, 3]));
    img.put_pixel(1, 0, image::Rgb([4, 5, 6]));
    img.put_pixel(0, 1, image::Rgb([7, 8, 9]));
    img.put_pixel(1, 1, image::Rgb([250, 251, 252]));
    let mut png = Vec::new();
    image::DynamicImage::ImageRgb8(img)
        .write_to(&mut std::io::Cursor::new(&mut png), image::ImageFormat::Png)
        .unwrap();
    assert_eq!(convert_rgb(&png), Ok(vec![1, 2, 3, 4, 5, 6, 7, 8, 9, 250, 251, 252]));
}

#[test]
fn colour_conversion_keeps_the_size_and_spreads_grey() {
    let pixels = convert_rgb(&gray_png(3, 5, dark_on_top)).unwrap();
    assert_eq!(pixels.len(), 3 * 5 * 3);
    assert_eq!(&pixels[0..9], &[0, 0, 0, 0, 0, 0, 0, 0, 0]);
    assert!(pixels[9..].iter().all(|&level| level == 255));
}

#[test]
fn letterbox_centres_the_picture() {
    let canvas = letterbox(&vec![7, 9], 2, 1);
    assert_eq!(canvas.len(), 8192);
    // margins: (128 - 2) / 2 = 63 columns, (64 - 1) / 2 = 31 rows
    assert_eq!(canvas[31 * 128 + 63], 7);
    assert_eq!(canvas[31 * 128 + 64], 9);
    assert_eq!(canvas.iter().filter(|&&level| level != 0).count(), 2);
    let full: Vec<u8> = (0..8192).map(|i| (i % 251) as u8).collect();
    assert_eq!(letterbox(&full, 128, 64), full);
    assert!(letterbox(&Vec::new(), 0, 0).iter().all(|&level| level == 0));
}

#[test]
fn packing_puts_the_first_pixel_in_the_high_bit() {
    assert_eq!(pack_bitmap(&vec![true, false, true]), vec![0b1010_0000]);
    assert_eq!(pack_bitmap(&vec![false, false, false, false, false, false, false, true]), vec![1]);
    assert_eq!(
        pack_bitmap(&vec![true, true, true, true, false, false, false, false, true]),
        vec![0xf0, 0x80]
    );
    assert_eq!(pack_bitmap(&Vec::new()), Vec::<u8>::new());
}

#[test]
fn unpacking_reads_set_bits_as_black() {
    let pixels = unpack_bitmap(&vec![0b1000_0001, 0xff]);
    assert_eq!(pixels.len(), 8192);
    assert_eq!(&pixels[0..8], &[0, 255, 255, 255, 255, 255, 255, 0]);
    assert_eq!(&pixels[8..16], &[0; 8]);
    // where the bitmap has ended the panel stays black
    assert!(pixels[16..].iter().all(|&level| level == 0));
    // bytes beyond the panel are not looked at
    let long = vec![0u8; 2000];
    assert!(unpack_bitmap(&long).iter().all(|&level| level == 255));
}

#[test]
fn unpacking_undoes_packing() {
    let dark: Vec<bool> = (0..8192).map(|i| (i * 7 + i / 128) % 3 == 0).collect();
    let pixels = unpack_bitmap(&pack_bitmap(&dark));
    for i in 0..8192 {
        assert_eq!(pixels[i], if dark[i] { 0 } else { 255 });
    }
}

#[test]
fn packed_bitmap_is_drawn_as_png() {
    let dark: Vec<bool> = (0..8192).map(|i| i % 5 == 0).collect();
    let bitmap = pack_bitmap(&dark);
    let png = packed_to_png(&bitmap).unwrap();
    assert_eq!(&png[0..8], &[0x89, b'P', b'N', b'G', 0x0d, 0x0a, 0x1a, 0x0a]);
    let img = image::load_from_memory(&png).unwrap().to_luma8();
    assert_eq!(img.dimensions(), (128, 64));
    assert_eq!(img.into_raw(), unpack_bitmap(&bitmap));
}

#[test]
fn drawn_png_converts_back_to_the_same_bitmap() {
    let dark: Vec<bool> = (0..8192).map(|i| (i / 128 + i % 128) % 2 == 0).collect();
    let bitmap = pack_bitmap(&dark);
    let canvas = grayscale_canvas(&packed_to_png(&bitmap).unwrap()).unwrap();
    assert_eq!(pack_bitmap(&threshold(&canvas)), bitmap);
}
