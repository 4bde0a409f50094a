//! The image side of the tool: decoding an image file into 8-bit RGBA pixels,
//! checking that it is large enough, cutting the `CROP_SIZE` square out of it,
//! and encoding that square as a PNG file.

use crate::text::{decimal, push_decimal};
use image::ImageEncoder;
use vstd::prelude::*;
use vstd::string::*;

verus! {

/// Side length, in pixels, of the square that the tool cuts out.
pub const CROP_SIZE: u32 = 252;

/// A decoded image: its size and its pixels, row by row, four bytes
/// (red, green, blue, alpha) per pixel.
#[derive(Debug, Clone, PartialEq, Eq)]
pub struct LoadedImage {
    pub width: u32,
    pub height: u32,
    pub rgba_data: Vec<u8>,
}

impl LoadedImage {
    /// The pixel buffer holds exactly `width * height` RGBA pixels.
    pub open spec fn wf(&self) -> bool {
        self.rgba_data@.len() == self.width * self.height * 4
    }
}

/// The smaller of two integers.
pub open spec fn min_u32(a: u32, b: u32) -> u32 {
    if a <= b { a } else { b }
}

/// The rectangle that a crop of `req_w` by `req_h` pixels at `(x, y)` keeps of a
/// `width` by `height` image: the corner is moved inside the image and the size is
/// cut down to what lies inside it.  Returned as `(x, y, w, h)`.
pub open spec fn crop_region(width: u32, height: u32, x: u32, y: u32, req_w: u32, req_h: u32) -> (
    u32,
    u32,
    u32,
    u32,
) {
    let cx = min_u32(x, width);
    let cy = min_u32(y, height);
    (cx, cy, min_u32(req_w, (width - cx) as u32), min_u32(req_h, (height - cy) as u32))
}

/// Index of the first byte of pixel `(x, y + row)` in a buffer of rows `width` pixels wide.
pub open spec fn row_start(width: nat, x: nat, y: nat, row: nat) -> nat {
    ((y + row) * width + x) * 4
}

/// The pixels of the `w` by `rows` rectangle at `(x, y)` of the image whose RGBA
/// buffer is `data` and whose rows are `width` pixels wide: the rectangle's rows,
/// each `w` pixels long, one after the other.
pub open spec fn crop_rows(data: Seq<u8>, width: nat, x: nat, y: nat, w: nat, rows: nat) -> Seq<u8>
    decreases rows,
{
    if rows == 0 {
        Seq::empty()
    } else {
        let r = (rows - 1) as nat;
        let start = row_start(width, x, y, r);
        crop_rows(data, width, x, y, w, r) + data.subrange(start as int, (start + w * 4) as int)
    }
}

/// The RGBA pixels of the rectangle that `crop_region` keeps.
pub open spec fn cropped_pixels(img_data: Seq<u8>, width: u32, height: u32, x: u32, y: u32, req_w: u32, req_h: u32) -> Seq<u8> {
    let (cx, cy, cw, ch) = crop_region(width, height, x, y, req_w, req_h);
    crop_rows(img_data, width as nat, cx as nat, cy as nat, cw as nat, ch as nat)
}

proof fn lemma_row_fits(width: nat, height: nat, x: nat, y: nat, w: nat, row: nat)
    requires
        y + row < height,
        x + w <= width,
    ensures
        row_start(width, x, y, row) + w * 4 <= width * height * 4,
{
    assert((y + row) * width + x + w <= (y + row + 1) * width) by (nonlinear_arith)
        requires
            x + w <= width,
    ;
    assert((y + row + 1) * width <= height * width) by (nonlinear_arith)
        requires
            y + row + 1 <= height,
    ;
    assert(height * width == width * height) by (nonlinear_arith);
}

proof fn lemma_crop_rows_len(data: Seq<u8>, width: nat, x: nat, y: nat, w: nat, rows: nat, height: nat)
    requires
        data.len() == width * height * 4,
        y + rows <= height,
        x + w <= width,
    ensures
        crop_rows(data, width, x, y, w, rows).len() == rows * w * 4,
    decreases rows,
{
    if rows == 0 {
        assert(rows * w * 4 == 0) by (nonlinear_arith)
            requires
                rows == 0,
        ;
    } else {
        let r = (rows - 1) as nat;
        lemma_crop_rows_len(data, width, x, y, w, r, height);
        lemma_row_fits(width, height, x, y, w, r);
        assert(r * w * 4 + w * 4 == rows * w * 4) by (nonlinear_arith)
            requires
                r + 1 == rows,
        ;
    }
}

/// Cuts the rectangle of `req_w` by `req_h` pixels at `(x, y)` out of the image,
/// clamped to the image as `crop_region` says.  Returns the kept width, the kept
/// height and the RGBA pixels of the rectangle.
pub fn crop_rgba(img: &LoadedImage, x: u32, y: u32, req_w: u32, req_h: u32) -> (res: (u32, u32, Vec<u8>))
    requires
        img.wf(),
    ensures
        ({
            let (cx, cy, cw, ch) = crop_region(img.width, img.height, x, y, req_w, req_h);
            &&& res.0 == cw
            &&& res.1 == ch
            &&& res.2@ == cropped_pixels(img.rgba_data@, img.width, img.height, x, y, req_w, req_h)
            &&& res.2@.len() == cw * ch * 4
        }),
{
    let width = img.width;
    let height = img.height;
    let cx: u32 = if x < width { x } else { width };
    let cy: u32 = if y < height { y } else { height };
    let cw: u32 = if req_w < width - cx { req_w } else { width - cx };
    let ch: u32 = if req_h < height - cy { req_h } else { height - cy };
    let ghost data = img.rgba_data@;
    let mut out: Vec<u8> = Vec::new();
    let mut row: u32 = 0;
    while row < ch
        invariant
            img.wf(),
            data == img.rgba_data@,
            width == img.width,
            height == img.height,
            cx + cw <= width,
            cy + ch <= height,
            row <= ch,
            out@ == crop_rows(data, width as nat, cx as nat, cy as nat, cw as nat, row as nat),
        decreases ch - row,
    {
        proof {
            lemma_row_fits(width as nat, height as nat, cx as nat, cy as nat, cw as nat, row as nat);
            assert(img.rgba_data@.len() <= usize::MAX) by {
                assert(img.rgba_data.len() == img.rgba_data@.len());
            }
            assert(((cy + row) as nat) * (width as nat) <= ((cy + row) * width + cx) * 4) by (nonlinear_arith);
        }
        let start: usize = (((cy + row) as usize) * (width as usize) + (cx as usize)) * 4;
        let end: usize = start + (cw as usize) * 4;
        let ghost before = out@;
        let mut i: usize = start;
        while i < end
            invariant
                img.wf(),
                data == img.rgba_data@,
                start <= i <= end,
                end <= data.len(),
                out@ == before + data.subrange(start as int, i as int),
            decreases end - i,
        {
            out.push(img.rgba_data[i]);
            i = i + 1;
            assert(out@ =~= before + data.subrange(start as int, i as int));
        }
        row = row + 1;
    }
    proof {
        lemma_crop_rows_len(data, width as nat, cx as nat, cy as nat, cw as nat, ch as nat, height as nat);
        assert((ch as nat) * (cw as nat) * 4 == (cw as nat) * (ch as nat) * 4) by (nonlinear_arith);
    }
    (cw, ch, out)
}


/// Crop pixel law: byte `k` of pixel `(c, r)` of the rectangle is byte `k` of pixel
/// `(x + c, y + r)` of the image.
pub proof fn lemma_crop_rows_pixel(
    data: Seq<u8>,
    width: nat,
    height: nat,
    x: nat,
    y: nat,
    w: nat,
    rows: nat,
    r: nat,
    c: nat,
    k: nat,
)
    requires
        data.len() == width * height * 4,
        y + rows <= height,
        x + w <= width,
        r < rows,
        c < w,
        k < 4,
    ensures
        crop_rows(data, width, x, y, w, rows).len() == rows * w * 4,
        crop_rows(data, width, x, y, w, rows)[((r * w + c) * 4 + k) as int] == data[(((y + r)
            * width + x + c) * 4 + k) as int],
    decreases rows,
{
    lemma_crop_rows_len(data, width, x, y, w, rows, height);
    let last = (rows - 1) as nat;
    let prefix = crop_rows(data, width, x, y, w, last);
    lemma_crop_rows_len(data, width, x, y, w, last, height);
    lemma_row_fits(width, height, x, y, w, last);
    let idx = (r * w + c) * 4 + k;
    if r == last {
        assert(idx == last * w * 4 + (c * 4 + k)) by (nonlinear_arith)
            requires
                idx == (r * w + c) * 4 + k,
                r == last,
        ;
        assert(row_start(width, x, y, last) + (c * 4 + k) == ((y + r) * width + x + c) * 4 + k)
            by (nonlinear_arith)
            requires
                r == last,
        ;
    } else {
        lemma_crop_rows_pixel(data, width, height, x, y, w, last, r, c, k);
        assert(idx < last * w * 4) by (nonlinear_arith)
            requires
                idx == (r * w + c) * 4 + k,
                r < last,
                c < w,
                k < 4,
        ;
    }
}

/// The message that reports a PNG file that could not be decoded.
pub open spec fn decode_failure_message(cause: Seq<char>) -> Seq<char> {
    "画像のデコードに失敗: "@ + cause
}

/// The message that reports an image smaller than the crop square.
pub open spec fn too_small_message(width: u32, height: u32) -> Seq<char> {
    "画像が小さすぎます ("@ + decimal(width as nat) + "x"@ + decimal(height as nat)
        + ")。252x252 以上必要です。"@
}

/// The message that reports a failure of the PNG encoder.
pub open spec fn encode_failure_message(cause: Seq<char>) -> Seq<char> {
    "PNG エンコードに失敗: "@ + cause
}

/// What the `image` crate decodes from `bytes` read as the image format that the
/// file extension `extension` names (as `ImageFormat::from_extension` maps
/// extensions, without regard to ASCII case), with its default limits, converted to
/// 8-bit RGBA pixels: `None` where the extension names no format; else
/// `Ok((width, height, pixels row by row))`, or `Err` with the text of the error by
/// which the decoder refuses the bytes.
pub uninterp spec fn image_decoding(bytes: Seq<u8>, extension: Seq<char>) -> Option<
    Result<(u32, u32, Seq<u8>), Seq<char>>,
>;

/// The text of the `image` crate's error for a file whose extension `extension`
/// names no image format.
pub uninterp spec fn unrecognized_extension_text(extension: Seq<char>) -> Seq<char>;

/// The text of the `image` crate's error for a file whose image format is not
/// known: one without an extension.
pub open spec fn unknown_format_text() -> Seq<char> {
    "The image format could not be determined"@
}

/// What the `image` crate's PNG encoder, with its default settings, gives for a
/// `width` by `height` image with the RGBA pixels `pixels`: `Ok` with the bytes of
/// the PNG file, or `Err` with the text of its error.
pub uninterp spec fn png_encoding(pixels: Seq<u8>, width: u32, height: u32) -> Result<Seq<u8>, Seq<char>>;

/// Decodes `bytes` as the image format that the file extension `extension` names,
/// with `ImageFormat::from_extension` and `image::load_from_memory_with_format`,
/// and converts the image to 8-bit RGBA with `DynamicImage::to_rgba8`; an error is
/// returned as its text.  Claimed of the outside code: the outcome is
/// `image_decoding(bytes, extension)` (the decoder's limits are the crate's fixed
/// defaults), and a decoded buffer holds exactly `width * height` pixels (the
/// decoders and the RGBA conversion allocate exactly that).
#[verifier::external_body]
fn decode_as_extension(bytes: &[u8], extension: &str) -> (res: Option<Result<LoadedImage, String>>)
    ensures
        match image_decoding(bytes@, extension@) {
            None => res is None,
            Some(Ok(d)) => res matches Some(Ok(img)) && img.wf() && d == (
                img.width,
                img.height,
                img.rgba_data@,
            ),
            Some(Err(e)) => res matches Some(Err(m)) && m@ == e,
        },
{
    match image::ImageFormat::from_extension(extension) {
        Some(format) => Some(match image::load_from_memory_with_format(bytes, format) {
            Ok(img) => {
                let rgba = img.to_rgba8();
                Ok(LoadedImage { width: rgba.width(), height: rgba.height(), rgba_data: rgba.into_raw() })
            },
            Err(e) => Err(e.to_string()),
        }),
        None => None,
    }
}

/// The text of the `image` crate's `ImageError::Unsupported` for the path
/// extension `extension` (`ImageFormatHint::PathExtension`), as `ImageReader`
/// reports a file whose extension names no image format.  Claimed of the outside
/// code: the text is `unrecognized_extension_text(extension)`.
#[verifier::external_body]
fn unrecognized_extension_error(extension: &str) -> (res: String)
    ensures
        res@ == unrecognized_extension_text(extension@),
{
    let hint = image::error::ImageFormatHint::PathExtension(std::path::PathBuf::from(extension));
    image::ImageError::Unsupported(hint.into()).to_string()
}

/// The text of the `image` crate's `ImageError::Unsupported` for an unknown
/// format (`ImageFormatHint::Unknown`), as `ImageReader::decode` reports a reader
/// that has no format.  Claimed of the outside code: the text is the one its
/// `Display` impl writes, `unknown_format_text()`.
#[verifier::external_body]
fn unknown_format_error() -> (res: String)
    ensures
        res@ == unknown_format_text(),
{
    let unknown = image::error::ImageFormatHint::Unknown;
    let kind = image::error::UnsupportedErrorKind::Format(image::error::ImageFormatHint::Unknown);
    image::ImageError::Unsupported(image::error::UnsupportedError::from_format_and_kind(unknown, kind)).to_string()
}

/// The view of an optional text.
pub open spec fn opt_text(t: Option<&str>) -> Option<Seq<char>> {
    match t {
        Some(s) => Some(s@),
        None => None,
    }
}

/// What the `image` crate's reader decodes from the bytes of a file whose path has
/// the extension `extension`, converted to RGBA: the format comes from a non-empty
/// extension, an extension that names no format is refused, and so is a file
/// without one.
pub open spec fn file_decoding(bytes: Seq<u8>, extension: Option<Seq<char>>) -> Result<(u32, u32, Seq<u8>), Seq<char>> {
    match extension {
        Some(ext) => if ext.len() == 0 {
            Err(unknown_format_text())
        } else {
            match image_decoding(bytes, ext) {
                Some(r) => r,
                None => Err(unrecognized_extension_text(ext)),
            }
        },
        None => Err(unknown_format_text()),
    }
}

/// Decodes the bytes of a file as `image::ImageReader` does for a file opened from
/// a path with the extension `extension`, and converts the image to RGBA: the
/// outcome is `file_decoding(bytes, extension)`.
pub fn decode_file(bytes: &[u8], extension: Option<&str>) -> (res: Result<LoadedImage, String>)
    ensures
        match file_decoding(bytes@, opt_text(extension)) {
            Ok(d) => res matches Ok(img) && img.wf() && d == (img.width, img.height, img.rgba_data@),
            Err(e) => res matches Err(m) && m@ == e,
        },
        match extension {
            Some(e) => e@.len() > 0 ==> (match image_decoding(bytes@, e@) {
                Some(Ok(d)) => res matches Ok(img) && img.width == d.0 && img.height == d.1
                    && img.rgba_data@ == d.2,
                _ => true,
            }),
            None => true,
        },
{
    match extension {
        Some(ext) => {
            if ext.unicode_len() == 0 {
                Err(unknown_format_error())
            } else {
                match decode_as_extension(bytes, ext) {
                    Some(r) => r,
                    None => Err(unrecognized_extension_error(ext)),
                }
            }
        },
        None => Err(unknown_format_error()),
    }
}

/// Encodes RGBA pixels as a PNG file with `PngEncoder::write_image`
/// (`ExtendedColorType::Rgba8`, default compression and filter) into a `Vec`; an
/// error is returned as its text.  Claimed of the outside code: the outcome is
/// `png_encoding(pixels, width, height)`, and it is an error exactly where the
/// width or the height is zero (the `png` crate's header check; with a buffer of
/// the right length and a `Vec` to write to nothing else fails).  `write_image`
/// panics on a buffer of another length, hence the `requires`.
#[verifier::external_body]
pub(crate) fn encode_png_rgba8(pixels: &[u8], width: u32, height: u32) -> (res: Result<Vec<u8>, String>)
    requires
        pixels@.len() == width * height * 4,
    ensures
        match png_encoding(pixels@, width, height) {
            Ok(b) => res matches Ok(png) && png@ == b,
            Err(e) => res matches Err(m) && m@ == e,
        },
        res is Ok <==> (width > 0 && height > 0),
{
    let mut buf: Vec<u8> = Vec::new();
    let encoder = image::codecs::png::PngEncoder::new(&mut buf);
    match encoder.write_image(pixels, width, height, image::ExtendedColorType::Rgba8) {
        Ok(()) => Ok(buf),
        Err(e) => Err(e.to_string()),
    }
}

/// What `load_image` returns for what the decoder gave back: a decoder error
/// becomes the decode failure message, an image narrower or lower than
/// `CROP_SIZE` becomes the too-small message, and any other image is returned.
pub fn check_decoded(decoded: Result<LoadedImage, String>) -> (res: Result<LoadedImage, String>)
    ensures
        match decoded {
            Err(cause) => res matches Err(m) && m@ == decode_failure_message(cause@),
            Ok(img) => if img.width < CROP_SIZE || img.height < CROP_SIZE {
                res matches Err(m) && m@ == too_small_message(img.width, img.height)
            } else {
                res == Ok::<LoadedImage, String>(img)
            },
        },
{
    match decoded {
        Err(cause) => {
            let mut m = String::from_str("画像のデコードに失敗: ");
            m.append(cause.as_str());
            Err(m)
        },
        Ok(img) => {
            if img.width < CROP_SIZE || img.height < CROP_SIZE {
                let mut m = String::from_str("画像が小さすぎます (");
                push_decimal(&mut m, img.width);
                m.append("x");
                push_decimal(&mut m, img.height);
                m.append(")。252x252 以上必要です。");
                Err(m)
            } else {
                Ok(img)
            }
        },
    }
}

/// What `load_image` gives for the bytes of a file whose path has the extension
/// `extension`: the decoded image `(width, height, pixels)` where it is at least
/// `CROP_SIZE` wide and high, the too-small message where it is smaller, the decode
/// failure message where the reader refuses the file.
pub open spec fn loading(bytes: Seq<u8>, extension: Option<Seq<char>>) -> Result<(u32, u32, Seq<u8>), Seq<char>> {
    match file_decoding(bytes, extension) {
        Err(cause) => Err(decode_failure_message(cause)),
        Ok((w, h, d)) => if w < CROP_SIZE || h < CROP_SIZE {
            Err(too_small_message(w, h))
        } else {
            Ok((w, h, d))
        },
    }
}

/// Decodes the bytes of an image file, whose path has the extension `extension`,
/// and checks that the crop square fits in it; the outcome is
/// `loading(bytes, extension)`, and a loaded image holds a full pixel buffer.
pub fn load_image(bytes: &[u8], extension: Option<&str>) -> (res: Result<LoadedImage, String>)
    ensures
        match loading(bytes@, opt_text(extension)) {
            Ok(d) => res matches Ok(img) && img.wf() && d == (img.width, img.height, img.rgba_data@),
            Err(e) => res matches Err(m) && m@ == e,
        },
        match extension {
            Some(e) => e@.len() > 0 ==> (match image_decoding(bytes@, e@) {
                Some(Ok(d)) => d.0 >= CROP_SIZE && d.1 >= CROP_SIZE ==> (res matches Ok(img)
                    && img.width == d.0 && img.height == d.1 && img.rgba_data@ == d.2),
                _ => true,
            }),
            None => true,
        },
{
    let decoded = decode_file(bytes, extension);
    check_decoded(decoded)
}

/// What `crop_and_encode` returns for what the encoder gave back: encoded bytes
/// are returned, an encoder error becomes the encode failure message.
pub fn finish_encoding(encoded: Result<Vec<u8>, String>) -> (res: Result<Vec<u8>, String>)
    ensures
        match encoded {
            Ok(png) => res == Ok::<Vec<u8>, String>(png),
            Err(cause) => res matches Err(m) && m@ == encode_failure_message(cause@),
        },
{
    match encoded {
        Ok(png) => Ok(png),
        Err(cause) => {
            let mut m = String::from_str("PNG エンコードに失敗: ");
            m.append(cause.as_str());
            Err(m)
        },
    }
}

/// What `crop_and_encode(img, x, y)` gives: the PNG encoding of the `CROP_SIZE`
/// square with top-left corner `(x, y)`, clamped to the image, or the encode
/// failure message for the encoder's error.
pub open spec fn cropping(img: LoadedImage, x: u32, y: u32) -> Result<Seq<u8>, Seq<char>> {
    let (cx, cy, cw, ch) = crop_region(img.width, img.height, x, y, CROP_SIZE, CROP_SIZE);
    let pixels = cropped_pixels(img.rgba_data@, img.width, img.height, x, y, CROP_SIZE, CROP_SIZE);
    match png_encoding(pixels, cw, ch) {
        Ok(b) => Ok(b),
        Err(cause) => Err(encode_failure_message(cause)),
    }
}

/// Cuts the `CROP_SIZE` square with top-left corner `(x, y)` out of the image
/// (clamped to the image) and encodes it as a PNG file.  The outcome is
/// `cropping(img, x, y)`; it succeeds exactly when the corner lies inside the
/// image, so that the square keeps at least one pixel.
pub fn crop_and_encode(img: &LoadedImage, x: u32, y: u32) -> (res: Result<Vec<u8>, String>)
    requires
        img.wf(),
    ensures
        match cropping(*img, x, y) {
            Ok(b) => res matches Ok(png) && png@ == b,
            Err(m) => res matches Err(e) && e@ == m,
        },
        res is Ok <==> (x < img.width && y < img.height),
{
    let (cw, ch, pixels) = crop_rgba(img, x, y, CROP_SIZE, CROP_SIZE);
    let encoded = encode_png_rgba8(pixels.as_slice(), cw, ch);
    finish_encoding(encoded)
}

/// A selection whose square lies inside the image is kept whole: the crop is
/// `CROP_SIZE` by `CROP_SIZE` pixels at `(x, y)`.
pub proof fn lemma_selection_inside_is_kept(width: u32, height: u32, x: u32, y: u32)
    requires
        x + CROP_SIZE <= width,
        y + CROP_SIZE <= height,
    ensures
        crop_region(width, height, x, y, CROP_SIZE, CROP_SIZE) == (x, y, CROP_SIZE, CROP_SIZE),
{
}

/// What a crop gives back: for a selection inside the image, the crop holds
/// `CROP_SIZE * CROP_SIZE` pixels, and byte `k` of its pixel `(c, r)` is byte `k`
/// of pixel `(x + c, y + r)` of the image.
pub proof fn lemma_crop_pixel(img: LoadedImage, x: u32, y: u32, r: nat, c: nat, k: nat)
    requires
        img.wf(),
        x + CROP_SIZE <= img.width,
        y + CROP_SIZE <= img.height,
        r < CROP_SIZE,
        c < CROP_SIZE,
        k < 4,
    ensures
        cropped_pixels(img.rgba_data@, img.width, img.height, x, y, CROP_SIZE, CROP_SIZE).len()
            == CROP_SIZE * CROP_SIZE * 4,
        cropped_pixels(img.rgba_data@, img.width, img.height, x, y, CROP_SIZE, CROP_SIZE)[((r
            * CROP_SIZE + c) * 4 + k) as int] == img.rgba_data@[(((y + r) * img.width + x + c) * 4
            + k) as int],
{
    lemma_selection_inside_is_kept(img.width, img.height, x, y);
    lemma_crop_rows_pixel(
        img.rgba_data@,
        img.width as nat,
        img.height as nat,
        x as nat,
        y as nat,
        CROP_SIZE as nat,
        CROP_SIZE as nat,
        r,
        c,
        k,
    );
}

proof fn lemma_crop_rows_whole(data: Seq<u8>, width: nat, height: nat, rows: nat)
    requires
        data.len() == width * height * 4,
        rows <= height,
    ensures
        crop_rows(data, width, 0, 0, width, rows) == data.subrange(0, (rows * width * 4) as int),
    decreases rows,
{
    if rows == 0 {
        assert(rows * width * 4 == 0) by (nonlinear_arith)
            requires
                rows == 0,
        ;
        assert(data.subrange(0, 0) =~= Seq::<u8>::empty());
    } else {
        let r = (rows - 1) as nat;
        lemma_crop_rows_whole(data, width, height, r);
        lemma_row_fits(width, height, 0, 0, width, r);
        assert(row_start(width, 0, 0, r) == r * width * 4) by (nonlinear_arith);
        assert(r * width * 4 + width * 4 == rows * width * 4) by (nonlinear_arith)
            requires
                r + 1 == rows,
        ;
        assert(data.subrange(0, (r * width * 4) as int) + data.subrange(
            (r * width * 4) as int,
            (rows * width * 4) as int,
        ) =~= data.subrange(0, (rows * width * 4) as int));
    }
}

/// Cropping the whole image gives the image back.
pub proof fn lemma_crop_whole_image(img: LoadedImage)
    requires
        img.wf(),
    ensures
        crop_region(img.width, img.height, 0, 0, img.width, img.height) == (
            0u32,
            0u32,
            img.width,
            img.height,
        ),
        cropped_pixels(img.rgba_data@, img.width, img.height, 0, 0, img.width, img.height)
            == img.rgba_data@,
{
    lemma_crop_rows_whole(img.rgba_data@, img.width as nat, img.height as nat, img.height as nat);
    assert(img.rgba_data@.subrange(0, img.rgba_data@.len() as int) =~= img.rgba_data@);
}

/// A successful crop of a selection inside the image is the PNG encoding of the
/// full `CROP_SIZE` square at `(x, y)`.
pub proof fn lemma_saved_file_is_full_square(img: LoadedImage, x: u32, y: u32, png: Seq<u8>)
    requires
        img.wf(),
        x + CROP_SIZE <= img.width,
        y + CROP_SIZE <= img.height,
        cropping(img, x, y) == Ok::<Seq<u8>, Seq<char>>(png),
    ensures
        Ok::<Seq<u8>, Seq<char>>(png) == png_encoding(
            crop_rows(img.rgba_data@, img.width as nat, x as nat, y as nat, CROP_SIZE as nat, CROP_SIZE as nat),
            CROP_SIZE,
            CROP_SIZE,
        ),
{
    lemma_selection_inside_is_kept(img.width, img.height, x, y);
}


/// Decoding is pixel-faithful: for a non-empty extension that names a format,
/// reading a file gives exactly what the `image` crate decodes, every byte of every
/// pixel (alpha included) as the decoder produced it.
pub proof fn lemma_file_decoding_is_faithful(bytes: Seq<u8>, ext: Seq<char>)
    requires
        ext.len() > 0,
        image_decoding(bytes, ext) is Some,
    ensures
        file_decoding(bytes, Some(ext)) == image_decoding(bytes, ext).unwrap(),
        image_decoding(bytes, ext) matches Some(Ok(d)) ==> forall|i: int|
            0 <= i < d.2.len() ==> #[trigger] file_decoding(bytes, Some(ext))->Ok_0.2[i] == d.2[i],
{
}

/// Loading keeps the decoded pixels: an image of at least `CROP_SIZE` by
/// `CROP_SIZE` that the `image` crate decodes for a non-empty extension is loaded
/// with exactly the decoder's size and pixels.
pub proof fn lemma_loading_keeps_pixels(bytes: Seq<u8>, ext: Seq<char>, w: u32, h: u32, d: Seq<u8>)
    requires
        ext.len() > 0,
        image_decoding(bytes, ext) == Some(Ok::<(u32, u32, Seq<u8>), Seq<char>>((w, h, d))),
        w >= CROP_SIZE,
        h >= CROP_SIZE,
    ensures
        loading(bytes, Some(ext)) == Ok::<(u32, u32, Seq<u8>), Seq<char>>((w, h, d)),
{
}

/// Loading refuses exactly the images that the decoder gives smaller than the
/// square, and names their size.
pub proof fn lemma_loading_refuses_small(bytes: Seq<u8>, ext: Seq<char>, w: u32, h: u32, d: Seq<u8>)
    requires
        ext.len() > 0,
        image_decoding(bytes, ext) == Some(Ok::<(u32, u32, Seq<u8>), Seq<char>>((w, h, d))),
        w < CROP_SIZE || h < CROP_SIZE,
    ensures
        loading(bytes, Some(ext)) == Err::<(u32, u32, Seq<u8>), Seq<char>>(too_small_message(w, h)),
{
}

} // verus!
