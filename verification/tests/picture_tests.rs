use brushbloom::error::ErrorKind;
use brushbloom::picture::{
    compress, crop, read_image, resize_image, Image, RESAMPLE_EXTENT_LIMIT,
};

fn sample(x: u32, y: u32, c: u32) -> u8 {
    match c {
        0 => (x * 7 + 1) as u8,
        1 => (y * 5 + 2) as u8,
        2 => (x + y + 3) as u8,
        _ => 255,
    }
}

fn picture(width: u32, height: u32) -> Image {
    let mut pixels = Vec::new();
    for y in 0..height {
        for x in 0..width {
            for c in 0..4 {
                pixels.push(sample(x, y, c));
            }
        }
    }
    Image::new(pixels, width, height).expect("four samples per pixel")
}

fn at(image: &Image, x: u32, y: u32, c: u32) -> u8 {
    image.pixels()[((y * image.width() + x) * 4 + c) as usize]
}

fn png_of(image: &Image) -> Vec<u8> {
    photon_rs::PhotonImage::new(image.pixels().clone(), image.width(), image.height()).get_bytes()
}

#[test]
fn image_new_wants_four_samples_per_pixel() {
    assert!(Image::new(vec![0; 24], 3, 2).is_some());
    assert!(Image::new(vec![0; 23], 3, 2).is_none());
    assert!(Image::new(vec![0; 25], 3, 2).is_none());
    assert!(Image::new(vec![], 0, 0).is_some());
    assert!(Image::new(vec![], 0, 9).is_some());
    assert!(Image::new(vec![0; 4], 0, 1).is_none());
    assert!(Image::new(vec![], u32::MAX, u32::MAX).is_none());
}

#[test]
fn image_keeps_what_it_was_made_of() {
    let image = Image::new(vec![1, 2, 3, 4, 5, 6, 7, 8], 2, 1).expect("valid");
    assert_eq!(image.width(), 2);
    assert_eq!(image.height(), 1);
    assert_eq!(image.pixels(), &vec![1, 2, 3, 4, 5, 6, 7, 8]);
    assert_eq!(image.into_pixels(), vec![1, 2, 3, 4, 5, 6, 7, 8]);
}

#[test]
fn read_image_decodes_png() {
    let source = picture(7, 5);
    let decoded = match read_image(&png_of(&source)) {
        Ok(image) => image,
        Err(e) => panic!("{}", e.message),
    };
    assert_eq!(decoded.width(), 7);
    assert_eq!(decoded.height(), 5);
    assert_eq!(decoded.pixels(), source.pixels());
}

#[test]
fn read_image_reports_bytes_that_are_no_image() {
    for bytes in [&b""[..], &b"not an image"[..], &[0x89, b'P', b'N', b'G'][..]] {
        match read_image(bytes) {
            Ok(_) => panic!("decoded {bytes:?}"),
            Err(e) => {
                assert_eq!(e.kind, ErrorKind::Codec);
                assert!(e.message.starts_with("Failed to decode image: "), "{}", e.message);
                assert!(e.message.len() > "Failed to decode image: ".len(), "{}", e.message);
                assert_eq!(e.status(), 500);
            }
        }
    }
}

#[test]
fn resize_with_only_width_200_on_400_by_300_yields_height_150() {
    let out = resize_image(&picture(400, 300), Some(200), None, false).expect("resized");
    assert_eq!((out.width(), out.height()), (200, 150));
    assert_eq!(out.pixels().len(), 4 * 200 * 150);
}

#[test]
fn resize_100_by_100_with_aspect_on_400_by_200_yields_100_by_50() {
    let out = resize_image(&picture(400, 200), Some(100), Some(100), true).expect("resized");
    assert_eq!((out.width(), out.height()), (100, 50));
}

#[test]
fn resize_without_aspect_may_distort() {
    let out = resize_image(&picture(40, 20), Some(10), Some(30), false).expect("resized");
    assert_eq!((out.width(), out.height()), (10, 30));
}

#[test]
fn resize_to_the_same_size_copies() {
    let source = picture(9, 4);
    let out = resize_image(&source, Some(9), Some(4), false).expect("resized");
    assert_eq!((out.width(), out.height()), (9, 4));
    assert_eq!(out.pixels(), source.pixels());
}

#[test]
fn resize_changes_the_samples() {
    let source = picture(8, 8);
    let out = resize_image(&source, Some(4), None, false).expect("resized");
    assert_eq!((out.width(), out.height()), (4, 4));
    assert_ne!(out.pixels(), source.pixels());
}

#[test]
fn resize_to_nothing_is_an_empty_image() {
    let out = resize_image(&picture(8, 8), Some(0), Some(0), false).expect("resized");
    assert_eq!((out.width(), out.height()), (0, 0));
    assert!(out.pixels().is_empty());
}

#[test]
fn resize_without_dimensions_fails_with_parameter_error() {
    match resize_image(&picture(4, 4), None, None, true) {
        Ok(_) => panic!("resized"),
        Err(e) => {
            assert_eq!(e.kind, ErrorKind::Parameter);
            assert_eq!(e.message, "At least one of width or height must be specified");
        }
    }
}

#[test]
fn resize_of_an_empty_source_is_a_codec_error() {
    for (w, h) in [(0, 0), (0, 5), (5, 0)] {
        match resize_image(&picture(w, h), Some(10), Some(10), false) {
            Ok(_) => panic!("resized"),
            Err(e) => {
                assert_eq!(e.kind, ErrorKind::Codec);
                assert_eq!(e.message, "Cannot resize: the source is empty or the result too large");
            }
        }
    }
}

#[test]
fn resize_beyond_memory_is_a_codec_error() {
    match resize_image(&picture(2, 2), Some(u32::MAX), Some(u32::MAX), false) {
        Ok(_) => panic!("resized"),
        Err(e) => assert_eq!(e.kind, ErrorKind::Codec),
    }
}

#[test]
fn crop_10_10_50_50_reports_exactly_50_by_50_on_any_source() {
    for (w, h) in [(400, 300), (60, 60), (59, 61), (20, 20), (11, 11), (10, 10), (3, 200), (0, 0)] {
        let out = crop(&picture(w, h), 10, 10, 50, 50).expect("cropped");
        assert_eq!((out.width(), out.height()), (50, 50), "source {w}x{h}");
        assert_eq!(out.pixels().len(), 4 * 50 * 50);
    }
}

#[test]
fn crop_inside_copies_the_rectangle() {
    let source = picture(30, 20);
    let out = crop(&source, 4, 6, 10, 8).expect("cropped");
    assert_eq!((out.width(), out.height()), (10, 8));
    for y in 0..8 {
        for x in 0..10 {
            for c in 0..4 {
                assert_eq!(at(&out, x, y, c), sample(x + 4, y + 6, c));
            }
        }
    }
}

#[test]
fn crop_beyond_the_source_is_transparent_outside() {
    let source = picture(12, 9);
    let out = crop(&source, 8, 5, 10, 10).expect("cropped");
    assert_eq!((out.width(), out.height()), (10, 10));
    for y in 0..10 {
        for x in 0..10 {
            for c in 0..4 {
                let expected = if x + 8 < 12 && y + 5 < 9 { sample(x + 8, y + 5, c) } else { 0 };
                assert_eq!(at(&out, x, y, c), expected, "({x}, {y}, {c})");
            }
        }
    }
}

#[test]
fn crop_wholly_outside_is_all_transparent() {
    let out = crop(&picture(12, 9), 12, 0, 3, 3).expect("cropped");
    assert_eq!((out.width(), out.height()), (3, 3));
    assert!(out.pixels().iter().all(|s| *s == 0));
    let far = crop(&picture(12, 9), u32::MAX, u32::MAX, 2, 2).expect("cropped");
    assert_eq!((far.width(), far.height()), (2, 2));
    assert!(far.pixels().iter().all(|s| *s == 0));
}

#[test]
fn crop_of_the_whole_is_the_whole() {
    let source = picture(6, 5);
    let out = crop(&source, 0, 0, 6, 5).expect("cropped");
    assert_eq!(out.pixels(), source.pixels());
}

#[test]
fn crop_to_nothing_is_an_empty_image() {
    let out = crop(&picture(6, 5), 1, 1, 0, 4).expect("cropped");
    assert_eq!((out.width(), out.height()), (0, 4));
    assert!(out.pixels().is_empty());
}

#[test]
fn crop_too_large_is_a_codec_error() {
    match crop(&picture(6, 5), 0, 0, u32::MAX, u32::MAX) {
        Ok(_) => panic!("cropped"),
        Err(e) => {
            assert_eq!(e.kind, ErrorKind::Codec);
            assert_eq!(e.message, "Cannot crop: the rectangle is too large");
        }
    }
}

#[test]
fn compress_keeps_the_dimensions() {
    let source = picture(33, 17);
    for quality in [0, 1, 50, 100, 255] {
        let out = compress(&source, quality).expect("compressed");
        assert_eq!((out.width(), out.height()), (33, 17));
        assert_eq!(out.pixels().len(), 4 * 33 * 17);
    }
}

#[test]
fn compress_is_lossy() {
    let source = picture(33, 17);
    let out = compress(&source, 10).expect("compressed");
    assert_ne!(out.pixels(), source.pixels());
}

#[test]
fn compress_of_an_empty_image_is_a_codec_error() {
    for (w, h) in [(0, 0), (0, 3), (3, 0)] {
        match compress(&picture(w, h), 80) {
            Ok(_) => panic!("compressed"),
            Err(e) => {
                assert_eq!(e.kind, ErrorKind::Codec);
                assert_eq!(e.message, "Cannot compress: the image is empty or too large");
            }
        }
    }
}

#[test]
fn compress_beyond_a_jpeg_frame_is_a_codec_error() {
    let wide = Image::new(vec![9; 4 * 65536], 65536, 1).expect("valid");
    match compress(&wide, 80) {
        Ok(_) => panic!("compressed"),
        Err(e) => assert_eq!(e.kind, ErrorKind::Codec),
    }
    let widest = Image::new(vec![9; 4 * 65535], 65535, 1).expect("valid");
    let out = compress(&widest, 80).expect("compressed");
    assert_eq!((out.width(), out.height()), (65535, 1));
}

#[test]
fn resize_to_an_empty_row_or_column() {
    let out = resize_image(&picture(8, 8), Some(0), Some(7), false).expect("resized");
    assert_eq!((out.width(), out.height()), (0, 7));
    let out = resize_image(&picture(8, 8), Some(7), Some(0), false).expect("resized");
    assert_eq!((out.width(), out.height()), (7, 0));
    let out = resize_image(&picture(400, 1), Some(1), None, true).expect("resized");
    assert_eq!((out.width(), out.height()), (1, 0));
}

#[test]
fn resize_of_a_single_pixel() {
    let out = resize_image(&picture(1, 1), Some(3), Some(5), false).expect("resized");
    assert_eq!((out.width(), out.height()), (3, 5));
    let out = resize_image(&picture(300, 200), Some(1), Some(1), true).expect("resized");
    assert_eq!((out.width(), out.height()), (1, 1));
}

#[test]
fn read_image_decodes_jpeg() {
    let source = picture(16, 9);
    let jpeg = photon_rs::PhotonImage::new(source.pixels().clone(), 16, 9).get_bytes_jpeg(90);
    let decoded = read_image(&jpeg).expect("decoded");
    assert_eq!((decoded.width(), decoded.height()), (16, 9));
    assert_eq!(decoded.pixels().len(), 4 * 16 * 9);
}

#[test]
fn compress_of_a_tall_sliver() {
    let tall = Image::new(vec![9; 4 * 65535], 1, 65535).expect("valid");
    let out = compress(&tall, 1).expect("compressed");
    assert_eq!((out.width(), out.height()), (1, 65535));
}

#[test]
fn crop_of_a_single_row_and_column() {
    let source = picture(9, 7);
    let row = crop(&source, 0, 6, 9, 1).expect("cropped");
    assert_eq!((row.width(), row.height()), (9, 1));
    assert_eq!(at(&row, 8, 0, 0), sample(8, 6, 0));
    let column = crop(&source, 8, 0, 1, 7).expect("cropped");
    assert_eq!((column.width(), column.height()), (1, 7));
    assert_eq!(at(&column, 0, 6, 1), sample(8, 6, 1));
}

#[test]
fn compress_depends_on_the_quality() {
    let source = picture(33, 17);
    let low = compress(&source, 5).expect("compressed");
    let high = compress(&source, 95).expect("compressed");
    assert_ne!(low.pixels(), high.pixels());
}

#[test]
fn compress_is_the_librarys_recompression() {
    let source = picture(33, 17);
    let ours = compress(&source, 60).expect("compressed");
    let theirs =
        photon_rs::transform::compress(&photon_rs::PhotonImage::new(source.pixels().clone(), 33, 17), 60);
    assert_eq!(ours.pixels(), &theirs.get_raw_pixels());
}

#[test]
fn resize_beyond_the_extent_limit_is_a_codec_error() {
    assert_eq!(RESAMPLE_EXTENT_LIMIT, 2_097_152);
    let over = RESAMPLE_EXTENT_LIMIT + 1;
    for (w, h) in [(Some(over), Some(1)), (Some(1), Some(over))] {
        match resize_image(&picture(2, 2), w, h, false) {
            Ok(_) => panic!("resized"),
            Err(e) => {
                assert_eq!(e.kind, ErrorKind::Codec);
                assert_eq!(e.message, "Cannot resize: the source is empty or the result too large");
            }
        }
    }
    let wide = Image::new(vec![7; 4 * over as usize], over, 1).expect("valid");
    match resize_image(&wide, Some(10), Some(1), false) {
        Ok(_) => panic!("resized"),
        Err(e) => assert_eq!(e.kind, ErrorKind::Codec),
    }
}

#[test]
fn resize_up_to_the_extent_limit() {
    let out = resize_image(&picture(3, 1), Some(RESAMPLE_EXTENT_LIMIT), Some(1), false)
        .expect("resized");
    assert_eq!((out.width(), out.height()), (RESAMPLE_EXTENT_LIMIT, 1));
    let wide = Image::new(vec![7; 4 * RESAMPLE_EXTENT_LIMIT as usize], RESAMPLE_EXTENT_LIMIT, 1)
        .expect("valid");
    let out = resize_image(&wide, Some(RESAMPLE_EXTENT_LIMIT - 5), Some(1), false).expect("resized");
    assert_eq!((out.width(), out.height()), (RESAMPLE_EXTENT_LIMIT - 5, 1));
    assert!(out.pixels().iter().all(|s| *s == 7));
}
