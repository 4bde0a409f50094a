use pp252::crop::{check_decoded, decode_file, crop_and_encode, crop_rgba, finish_encoding, load_image, LoadedImage, CROP_SIZE};

fn pattern(width: u32, height: u32) -> LoadedImage {
    let mut rgba_data = Vec::new();
    for y in 0..height {
        for x in 0..width {
            rgba_data.push((x % 251) as u8);
            rgba_data.push((y % 251) as u8);
            rgba_data.push(((x + y) % 256) as u8);
            rgba_data.push(255);
        }
    }
    LoadedImage { width, height, rgba_data }
}

fn png_of(img: &LoadedImage) -> Vec<u8> {
    let buffer = image::RgbaImage::from_raw(img.width, img.height, img.rgba_data.clone()).unwrap();
    let mut out = std::io::Cursor::new(Vec::new());
    buffer.write_to(&mut out, image::ImageFormat::Png).unwrap();
    out.into_inner()
}

fn decode(png: &[u8]) -> image::RgbaImage {
    image::load_from_memory_with_format(png, image::ImageFormat::Png).unwrap().to_rgba8()
}

#[test]
fn crop_size_is_252() {
    assert_eq!(CROP_SIZE, 252);
}

#[test]
fn crop_small_rectangle() {
    // 3 x 2 image, pixel (x, y) has red x and green y
    let img = pattern(3, 2);
    let (w, h, data) = crop_rgba(&img, 1, 0, 2, 2);
    assert_eq!((w, h), (2, 2));
    assert_eq!(data, vec![1, 0, 1, 255, 2, 0, 2, 255, 1, 1, 2, 255, 2, 1, 3, 255]);
}

#[test]
fn crop_is_clamped_to_image() {
    let img = pattern(3, 2);
    let (w, h, data) = crop_rgba(&img, 2, 1, 10, 10);
    assert_eq!((w, h), (1, 1));
    assert_eq!(data, vec![2, 1, 3, 255]);
}

#[test]
fn crop_outside_image_is_empty() {
    let img = pattern(3, 2);
    let (w, h, data) = crop_rgba(&img, 7, 0, 2, 2);
    assert_eq!((w, h), (0, 2));
    assert!(data.is_empty());
}

#[test]
fn crop_whole_image_gives_it_back() {
    let img = pattern(5, 4);
    let (w, h, data) = crop_rgba(&img, 0, 0, 5, 4);
    assert_eq!((w, h), (5, 4));
    assert_eq!(data, img.rgba_data);
}

#[test]
fn load_accepts_large_png() {
    let img = pattern(300, 260);
    let loaded = load_image(&png_of(&img), Some("png")).unwrap();
    assert_eq!(loaded, img);
}

#[test]
fn load_accepts_exact_crop_size() {
    let img = pattern(252, 252);
    let loaded = load_image(&png_of(&img), Some("png")).unwrap();
    assert_eq!((loaded.width, loaded.height), (252, 252));
}

#[test]
fn load_rejects_small_png() {
    let img = pattern(100, 300);
    let err = load_image(&png_of(&img), Some("png")).unwrap_err();
    assert_eq!(err, "画像が小さすぎます (100x300)。252x252 以上必要です。");
}

#[test]
fn load_rejects_low_png() {
    let img = pattern(400, 251);
    let err = load_image(&png_of(&img), Some("png")).unwrap_err();
    assert_eq!(err, "画像が小さすぎます (400x251)。252x252 以上必要です。");
}

#[test]
fn load_rejects_garbage() {
    let err = load_image(b"not a png file", Some("png")).unwrap_err();
    assert!(err.starts_with("画像のデコードに失敗: "));
    assert!(err.len() > "画像のデコードに失敗: ".len());
}

#[test]
fn check_decoded_reports_decoder_error() {
    let res = check_decoded(Err(String::from("bad header")));
    assert_eq!(res.unwrap_err(), "画像のデコードに失敗: bad header");
}

#[test]
fn check_decoded_reports_small_image() {
    let res = check_decoded(Ok(pattern(10, 20)));
    assert_eq!(res.unwrap_err(), "画像が小さすぎます (10x20)。252x252 以上必要です。");
}

#[test]
fn check_decoded_passes_large_image() {
    let img = pattern(252, 253);
    assert_eq!(check_decoded(Ok(img.clone())), Ok(img));
}

#[test]
fn crop_and_encode_gives_full_square() {
    let img = pattern(300, 280);
    let png = crop_and_encode(&img, 10, 20).unwrap();
    let out = decode(&png);
    assert_eq!(out.dimensions(), (252, 252));
    for (c, r) in [(0u32, 0u32), (5, 7), (251, 251), (100, 3)] {
        let p = out.get_pixel(c, r).0;
        let i = (((20 + r) * 300 + 10 + c) * 4) as usize;
        assert_eq!(p.to_vec(), img.rgba_data[i..i + 4].to_vec());
    }
}

#[test]
fn crop_and_encode_clamps_at_edge() {
    let img = pattern(300, 280);
    let png = crop_and_encode(&img, 100, 200).unwrap();
    let out = decode(&png);
    assert_eq!(out.dimensions(), (200, 80));
    assert_eq!(out.get_pixel(0, 0).0, [100, 200, 44, 255]);
}

#[test]
fn crop_and_encode_centred_selection() {
    let img = pattern(401, 300);
    let x = (401 - 252) / 2;
    let y = (300 - 252) / 2;
    let png = crop_and_encode(&img, x, y).unwrap();
    assert_eq!(decode(&png).dimensions(), (252, 252));
}

#[test]
fn crop_and_encode_outside_fails() {
    let img = pattern(300, 280);
    let err = crop_and_encode(&img, 300, 0).unwrap_err();
    assert!(err.starts_with("PNG エンコードに失敗: "));
}

#[test]
fn finish_encoding_keeps_bytes() {
    assert_eq!(finish_encoding(Ok(vec![1, 2, 3])), Ok(vec![1, 2, 3]));
}

#[test]
fn finish_encoding_prefixes_error() {
    assert_eq!(
        finish_encoding(Err(String::from("boom"))).unwrap_err(),
        "PNG エンコードに失敗: boom"
    );
}

#[test]
fn crop_and_encode_last_pixel_succeeds() {
    let img = pattern(300, 280);
    let png = crop_and_encode(&img, 299, 279).unwrap();
    let out = decode(&png);
    assert_eq!(out.dimensions(), (1, 1));
    assert_eq!(out.get_pixel(0, 0).0, [48, 28, 66, 255]);
}

#[test]
fn crop_and_encode_below_image_fails() {
    let img = pattern(300, 280);
    assert!(crop_and_encode(&img, 0, 280).is_err());
}

fn jpeg_of(img: &LoadedImage) -> Vec<u8> {
    let buffer = image::RgbImage::from_fn(img.width, img.height, |x, y| {
        let i = ((y * img.width + x) * 4) as usize;
        image::Rgb([img.rgba_data[i], img.rgba_data[i + 1], img.rgba_data[i + 2]])
    });
    let mut out = std::io::Cursor::new(Vec::new());
    buffer.write_to(&mut out, image::ImageFormat::Jpeg).unwrap();
    out.into_inner()
}

#[test]
fn load_takes_extension_without_case() {
    let img = pattern(260, 260);
    assert_eq!(load_image(&png_of(&img), Some("PNG")).unwrap(), img);
}

#[test]
fn load_without_extension_fails() {
    let img = pattern(260, 260);
    assert_eq!(
        load_image(&png_of(&img), None).unwrap_err(),
        "画像のデコードに失敗: The image format could not be determined"
    );
    assert_eq!(
        load_image(&png_of(&img), Some("")).unwrap_err(),
        "画像のデコードに失敗: The image format could not be determined"
    );
}

#[test]
fn load_with_unknown_extension_fails() {
    let img = pattern(260, 260);
    let err = load_image(&png_of(&img), Some("xyz")).unwrap_err();
    assert!(err.starts_with("画像のデコードに失敗: The file extension"));
    assert!(err.contains("xyz"));
}

#[test]
fn load_png_named_as_jpeg_fails() {
    let img = pattern(260, 260);
    let err = load_image(&png_of(&img), Some("jpg")).unwrap_err();
    assert!(err.starts_with("画像のデコードに失敗: "));
}

#[test]
fn load_jpeg_file() {
    let img = pattern(300, 256);
    let loaded = load_image(&jpeg_of(&img), Some("jpg")).unwrap();
    assert_eq!((loaded.width, loaded.height), (300, 256));
    assert_eq!(loaded.rgba_data.len(), 300 * 256 * 4);
}

#[test]
fn decode_file_does_not_check_size() {
    let img = pattern(10, 10);
    assert_eq!(decode_file(&png_of(&img), Some("png")).unwrap(), img);
}
