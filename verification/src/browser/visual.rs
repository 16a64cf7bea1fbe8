//! Visual testing: screenshots from raw pixels, where they are saved, and the
//! pixel-by-pixel comparison of two screenshots.

use vstd::prelude::*;
use base64::Engine as _;
use crate::clock::unix_time_millis;
use crate::json::Real32;
use crate::text::{concat, decimal_string, has_suffix, to_string};

verus! {

/// The file format of a screenshot.
#[derive(Debug, Clone, Copy, PartialEq, Eq, Structural)]
pub enum ScreenshotFormat {
    PNG,
    JPEG,
    WebP,
}

/// A rectangle of the page, in pixels.
#[derive(Debug, Clone, Copy, PartialEq, Eq, Structural)]
pub struct CaptureArea {
    pub x: u32,
    pub y: u32,
    pub width: u32,
    pub height: u32,
}

/// How to take a screenshot.
#[derive(Debug, Clone, Copy, PartialEq, Eq, Structural)]
pub struct ScreenshotOptions {
    /// File format.
    pub format: ScreenshotFormat,
    /// Quality for JPEG (1-100).
    pub quality: Option<u8>,
    /// The part of the page to keep; all of it when absent.
    pub area: Option<CaptureArea>,
    /// Whether the browser's own chrome is included.
    pub include_chrome: bool,
    /// Scale factor for high-DPI displays.
    pub scale_factor: Option<Real32>,
}

impl Default for ScreenshotOptions {
    /// PNG at quality 90, the whole page, no chrome, no scaling.
    fn default() -> (res: Self)
        ensures
            res == (ScreenshotOptions {
                format: ScreenshotFormat::PNG,
                quality: Some(90),
                area: None,
                include_chrome: false,
                scale_factor: None,
            }),
    {
        ScreenshotOptions {
            format: ScreenshotFormat::PNG,
            quality: Some(90),
            area: None,
            include_chrome: false,
            scale_factor: None,
        }
    }
}

/// A screenshot: the encoded image in base64, its size, its format, the
/// number of encoded bytes and when it was taken (milliseconds since the Unix
/// epoch).
#[derive(Debug, Clone)]
pub struct ScreenshotResult {
    pub data: String,
    pub width: u32,
    pub height: u32,
    pub format: ScreenshotFormat,
    pub size: usize,
    pub timestamp_ms: u64,
}

/// The outcome of comparing two screenshots pixel by pixel.
#[derive(Debug)]
pub struct PixelComparison {
    /// How many pixels differ by more than the tolerance.
    pub differing_pixels: u32,
    /// How many pixels were compared.
    pub total_pixels: u32,
    /// Areas where differences were found (none are singled out).
    pub difference_areas: Vec<CaptureArea>,
    /// The difference image, PNG in base64, when some pixel differs.
    pub diff_image: Option<String>,
}

/// The character of the standard base64 alphabet for the six bits `v`.
pub open spec fn base64_char(v: int) -> char {
    if v < 26 {
        (65 + v) as char
    } else if v < 52 {
        (71 + v) as char
    } else if v < 62 {
        (v - 4) as char
    } else if v == 62 {
        '+'
    } else {
        '/'
    }
}

/// The standard base64 text of `bytes`: each group of three bytes as four
/// characters of six bits each, a last group of one or two bytes filled out
/// with `=`.
pub open spec fn base64_text(bytes: Seq<u8>) -> Seq<char>
    decreases bytes.len(),
{
    if bytes.len() == 0 {
        Seq::empty()
    } else if bytes.len() == 1 {
        let b0 = bytes[0] as int;
        seq![base64_char(b0 / 4), base64_char((b0 % 4) * 16), '=', '=']
    } else if bytes.len() == 2 {
        let (b0, b1) = (bytes[0] as int, bytes[1] as int);
        seq![base64_char(b0 / 4), base64_char((b0 % 4) * 16 + b1 / 16), base64_char((b1 % 16) * 4), '=']
    } else {
        let (b0, b1, b2) = (bytes[0] as int, bytes[1] as int, bytes[2] as int);
        seq![
            base64_char(b0 / 4),
            base64_char((b0 % 4) * 16 + b1 / 16),
            base64_char((b1 % 16) * 4 + b2 / 64),
            base64_char(b2 % 64),
        ] + base64_text(bytes.skip(3))
    }
}

/// The bytes that standard base64 `text` stands for, if it is valid.
pub uninterp spec fn base64_bytes(text: Seq<char>) -> Option<Seq<u8>>;

/// The width, height and RGBA pixels of the image file `bytes`, if the
/// `image` crate can read it.
pub uninterp spec fn decoded_rgba(bytes: Seq<u8>) -> Option<(u32, u32, Seq<u8>)>;

/// The file of an RGBA image in a format (0 PNG, 1 JPEG, 2 WebP), if the
/// `image` crate can write it.
pub uninterp spec fn encoded_image(format: int, width: u32, height: u32, rgba: Seq<u8>) -> Option<Seq<u8>>;

/// The size and RGBA pixels of an image resized with the Lanczos filter to
/// the largest size within the given bounds that keeps its aspect ratio.
pub uninterp spec fn resized_rgba(width: u32, height: u32, rgba: Seq<u8>, new_width: u32, new_height: u32) -> (u32, u32, Seq<u8>);

/// The number of a format.
pub open spec fn format_no(f: ScreenshotFormat) -> int {
    match f {
        ScreenshotFormat::PNG => 0,
        ScreenshotFormat::JPEG => 1,
        ScreenshotFormat::WebP => 2,
    }
}

/// `base64::engine::general_purpose::STANDARD.encode`.
#[verifier::external_body]
fn base64_encode(bytes: &Vec<u8>) -> (res: String)
    ensures
        res@ == base64_text(bytes@),
{
    base64::engine::general_purpose::STANDARD.encode(bytes)
}

/// `base64::engine::general_purpose::STANDARD.decode`; the error's message is
/// not stated.
#[verifier::external_body]
fn base64_decode(text: &str) -> (res: Result<Vec<u8>, String>)
    ensures
        match res {
            Ok(b) => base64_bytes(text@) == Some(b@),
            Err(_) => base64_bytes(text@) is None,
        },
{
    match base64::engine::general_purpose::STANDARD.decode(text) {
        Ok(b) => Ok(b),
        Err(e) => Err(e.to_string()),
    }
}

/// `image::load_from_memory` followed by `to_rgba8`: four bytes per pixel,
/// row by row. The error's message is not stated.
#[verifier::external_body]
fn decode_image(bytes: &Vec<u8>) -> (res: Result<(u32, u32, Vec<u8>), String>)
    ensures
        match res {
            Ok((w, h, px)) => decoded_rgba(bytes@) == Some((w, h, px@)) && px@.len() == w * h * 4,
            Err(_) => decoded_rgba(bytes@) is None,
        },
{
    match image::load_from_memory(bytes) {
        Ok(img) => {
            let rgba = img.to_rgba8();
            Ok((rgba.width(), rgba.height(), rgba.into_raw()))
        },
        Err(e) => Err(e.to_string()),
    }
}

/// `DynamicImage::write_to` in the given format (for JPEG, after `to_rgb8`);
/// the error's message is not stated.
#[verifier::external_body]
fn encode_image(format: ScreenshotFormat, width: u32, height: u32, rgba: Vec<u8>) -> (res: Result<Vec<u8>, String>)
    requires
        rgba@.len() == width * height * 4,
    ensures
        match res {
            Ok(b) => encoded_image(format_no(format), width, height, rgba@) == Some(b@),
            Err(_) => encoded_image(format_no(format), width, height, rgba@) is None,
        },
{
    let img = image::DynamicImage::ImageRgba8(image::RgbaImage::from_raw(width, height, rgba).unwrap_or_default());
    let (img, fmt) = match format {
        ScreenshotFormat::PNG => (img, image::ImageFormat::Png),
        ScreenshotFormat::JPEG => (image::DynamicImage::ImageRgb8(img.to_rgb8()), image::ImageFormat::Jpeg),
        ScreenshotFormat::WebP => (img, image::ImageFormat::WebP),
    };
    let mut buffer: Vec<u8> = Vec::new();
    match img.write_to(&mut std::io::Cursor::new(&mut buffer), fmt) {
        Ok(()) => Ok(buffer),
        Err(e) => Err(e.to_string()),
    }
}

/// `DynamicImage::resize` with `FilterType::Lanczos3` on an RGBA image, then
/// `to_rgba8`: four bytes per pixel of the size it chose.
#[verifier::external_body]
fn resize_rgba(width: u32, height: u32, rgba: Vec<u8>, new_width: u32, new_height: u32) -> (res: (u32, u32, Vec<u8>))
    requires
        rgba@.len() == width * height * 4,
    ensures
        (res.0, res.1, res.2@) == resized_rgba(width, height, rgba@, new_width, new_height),
        res.2@.len() == res.0 * res.1 * 4,
{
    let img = image::DynamicImage::ImageRgba8(image::RgbaImage::from_raw(width, height, rgba).unwrap_or_default());
    let out = img.resize(new_width, new_height, image::imageops::FilterType::Lanczos3).to_rgba8();
    (out.width(), out.height(), out.into_raw())
}

/// The squared distance between pixel `i` of `a` and of `b`, over the four
/// channels.
pub open spec fn sq_dist(a: Seq<u8>, b: Seq<u8>, i: int) -> int {
    let d0 = a[4 * i] - b[4 * i];
    let d1 = a[4 * i + 1] - b[4 * i + 1];
    let d2 = a[4 * i + 2] - b[4 * i + 2];
    let d3 = a[4 * i + 3] - b[4 * i + 3];
    d0 * d0 + d1 * d1 + d2 * d2 + d3 * d3
}

/// Pixel `i` differs: its squared distance exceeds `limit`.
pub open spec fn differs(a: Seq<u8>, b: Seq<u8>, i: int, limit: int) -> bool {
    sq_dist(a, b, i) > limit
}

/// How many of the first `n` pixels differ.
pub open spec fn count_differing(a: Seq<u8>, b: Seq<u8>, n: nat, limit: int) -> nat
    decreases n,
{
    if n == 0 {
        0
    } else {
        count_differing(a, b, (n - 1) as nat, limit) + if differs(a, b, n - 1, limit) { 1nat } else { 0nat }
    }
}

/// Byte `c` of pixel `i` of the difference image: red where the pixels
/// differ, else the first image's pixel with its colours halved.
pub open spec fn diff_byte(a: Seq<u8>, b: Seq<u8>, i: int, c: int, limit: int) -> u8 {
    if differs(a, b, i, limit) {
        if c == 0 || c == 3 { 255 } else { 0 }
    } else if c == 3 {
        a[4 * i + 3]
    } else {
        (a[4 * i + c] / 2) as u8
    }
}

/// The difference image of the first `n` pixels.
pub open spec fn diff_image(a: Seq<u8>, b: Seq<u8>, n: nat, limit: int) -> Seq<u8> {
    Seq::new(4 * n, |k: int| diff_byte(a, b, k / 4, k % 4, limit))
}

/// Pixel `i` of `a` and of `b` agree in every channel but channel `c`.
pub open spec fn agree_except(a: Seq<u8>, b: Seq<u8>, i: int, c: int) -> bool {
    &&& (c == 0 || a[4 * i] == b[4 * i])
    &&& (c == 1 || a[4 * i + 1] == b[4 * i + 1])
    &&& (c == 2 || a[4 * i + 2] == b[4 * i + 2])
    &&& (c == 3 || a[4 * i + 3] == b[4 * i + 3])
}

/// The distance between two pixels counts every channel: it is zero exactly
/// when red, green, blue and alpha all agree, and for pixels that differ in
/// one channel only it is the square of that channel's difference, so such a
/// pixel differs exactly when that square exceeds the limit.
pub proof fn law_pixel_distance_counts_every_channel(a: Seq<u8>, b: Seq<u8>, i: int, c: int, limit: int)
    requires
        0 <= c < 4,
    ensures
        sq_dist(a, b, i) >= 0,
        sq_dist(a, b, i) == 0 <==> (a[4 * i] == b[4 * i] && a[4 * i + 1] == b[4 * i + 1] && a[4 * i + 2] == b[4
            * i + 2] && a[4 * i + 3] == b[4 * i + 3]),
        agree_except(a, b, i, c) ==> sq_dist(a, b, i) == (a[4 * i + c] - b[4 * i + c]) * (a[4 * i + c] - b[4
            * i + c]),
        agree_except(a, b, i, c) ==> (differs(a, b, i, limit) <==> (a[4 * i + c] - b[4 * i + c]) * (a[4 * i
            + c] - b[4 * i + c]) > limit),
{
    let d0 = a[4 * i] - b[4 * i];
    let d1 = a[4 * i + 1] - b[4 * i + 1];
    let d2 = a[4 * i + 2] - b[4 * i + 2];
    let d3 = a[4 * i + 3] - b[4 * i + 3];
    assert(d0 * d0 >= 0 && d1 * d1 >= 0 && d2 * d2 >= 0 && d3 * d3 >= 0) by (nonlinear_arith);
    assert(d0 * d0 == 0 ==> d0 == 0) by (nonlinear_arith);
    assert(d1 * d1 == 0 ==> d1 == 0) by (nonlinear_arith);
    assert(d2 * d2 == 0 ==> d2 == 0) by (nonlinear_arith);
    assert(d3 * d3 == 0 ==> d3 == 0) by (nonlinear_arith);
    assert(d0 == 0 ==> d0 * d0 == 0) by (nonlinear_arith);
    assert(d1 == 0 ==> d1 * d1 == 0) by (nonlinear_arith);
    assert(d2 == 0 ==> d2 * d2 == 0) by (nonlinear_arith);
    assert(d3 == 0 ==> d3 * d3 == 0) by (nonlinear_arith);
    assert(sq_dist(a, b, i) == d0 * d0 + d1 * d1 + d2 * d2 + d3 * d3);
    if c == 0 {
        assert(a[4 * i + c] - b[4 * i + c] == d0);
    } else if c == 1 {
        assert(a[4 * i + c] - b[4 * i + c] == d1);
    } else if c == 2 {
        assert(a[4 * i + c] - b[4 * i + c] == d2);
    } else {
        assert(a[4 * i + c] - b[4 * i + c] == d3);
    }
}

/// An image compared with itself has no differing pixel, whatever the
/// (non-negative) tolerance.
pub proof fn law_identical_images_do_not_differ(a: Seq<u8>, n: nat, limit: int)
    requires
        limit >= 0,
        a.len() >= 4 * n,
    ensures
        count_differing(a, a, n, limit) == 0,
    decreases n,
{
    if n > 0 {
        law_identical_images_do_not_differ(a, (n - 1) as nat, limit);
        assert(sq_dist(a, a, n - 1) == 0);
    }
}

/// A larger tolerance never finds more differing pixels.
pub proof fn law_differences_shrink_with_tolerance(a: Seq<u8>, b: Seq<u8>, n: nat, limit1: int, limit2: int)
    requires
        limit1 <= limit2,
    ensures
        count_differing(a, b, n, limit2) <= count_differing(a, b, n, limit1),
    decreases n,
{
    if n > 0 {
        law_differences_shrink_with_tolerance(a, b, (n - 1) as nat, limit1, limit2);
    }
}

proof fn lemma_square_bound(d: int)
    requires
        -255 <= d <= 255,
    ensures
        0 <= d * d <= 65025,
{
    assert(0 <= d * d <= 65025) by (nonlinear_arith)
        requires
            -255 <= d <= 255,
    ;
}

/// Compares two RGBA images of `n` pixels: a pixel differs where its squared
/// distance over the four channels exceeds `limit`. Returns the number of
/// differing pixels and the difference image.
pub fn compare_pixels(a: &Vec<u8>, b: &Vec<u8>, n: usize, limit: i64) -> (res: (u32, Vec<u8>))
    requires
        a@.len() == 4 * n,
        b@.len() == 4 * n,
        n <= u32::MAX,
    ensures
        res.0 == count_differing(a@, b@, n as nat, limit as int),
        res.1@ == diff_image(a@, b@, n as nat, limit as int),
{
    let mut count: u32 = 0;
    let mut out: Vec<u8> = Vec::new();
    let mut i: usize = 0;
    assert(4 * n == a.len());
    while i < n
        invariant
            4 * n <= usize::MAX,
            a@.len() == 4 * n,
            b@.len() == 4 * n,
            n <= u32::MAX,
            i <= n,
            count == count_differing(a@, b@, i as nat, limit as int),
            count <= i,
            out@ =~= diff_image(a@, b@, i as nat, limit as int),
        decreases n - i,
    {
        let k = 4 * i;
        let d0: i64 = a[k] as i64 - b[k] as i64;
        let d1: i64 = a[k + 1] as i64 - b[k + 1] as i64;
        let d2: i64 = a[k + 2] as i64 - b[k + 2] as i64;
        let d3: i64 = a[k + 3] as i64 - b[k + 3] as i64;
        proof {
            lemma_square_bound(d0 as int);
            lemma_square_bound(d1 as int);
            lemma_square_bound(d2 as int);
            lemma_square_bound(d3 as int);
        }
        let sq: i64 = d0 * d0 + d1 * d1 + d2 * d2 + d3 * d3;
        let ghost before = out@;
        let differ = sq > limit;
        proof {
            assert(sq == sq_dist(a@, b@, i as int));
        }
        if differ {
            count = count + 1;
            out.push(255);
            out.push(0);
            out.push(0);
            out.push(255);
        } else {
            out.push(a[k] / 2);
            out.push(a[k + 1] / 2);
            out.push(a[k + 2] / 2);
            out.push(a[k + 3]);
        }
        proof {
            let want = diff_image(a@, b@, (i + 1) as nat, limit as int);
            assert forall|m: int| 0 <= m < want.len() implies out@[m] == want[m] by {
                if m < 4 * i {
                    assert(want[m] == diff_image(a@, b@, i as nat, limit as int)[m]);
                } else {
                    assert(m / 4 == i);
                    assert(m % 4 == m - 4 * i);
                }
            }
        }
        i = i + 1;
    }
    (count, out)
}

/// The area that cropping to `area` keeps of a `width` by `height` image: the
/// corner is moved inside the image, and the size cut to what remains.
pub open spec fn crop_box(width: u32, height: u32, area: CaptureArea) -> (u32, u32, u32, u32) {
    let x = if area.x < width { area.x } else { width };
    let y = if area.y < height { area.y } else { height };
    let w = if area.width < width - x { area.width } else { (width - x) as u32 };
    let h = if area.height < height - y { area.height } else { (height - y) as u32 };
    (x, y, w, h)
}

/// The pixels of `rgba` (a `width`-wide image) inside the box at `x`, `y` of
/// size `w` by `h`, row by row.
pub open spec fn cropped(rgba: Seq<u8>, width: int, x: int, y: int, w: int, h: int) -> Seq<u8> {
    Seq::new(
        (4 * w * h) as nat,
        |k: int| rgba[4 * ((y + (k / 4) / w) * width + x + (k / 4) % w) + k % 4],
    )
}

/// `DynamicImage::crop_imm` on an RGBA image, then `to_rgba8`: the pixels of
/// `crop_box`, row by row, as `imageops::crop_imm` documents them.
#[verifier::external_body]
fn crop_rgba(width: u32, height: u32, rgba: Vec<u8>, area: CaptureArea) -> (res: (u32, u32, Vec<u8>))
    requires
        rgba@.len() == width * height * 4,
    ensures
        ({
            let (x, y, w, h) = crop_box(width, height, area);
            res.0 == w && res.1 == h && res.2@ == cropped(rgba@, width as int, x as int, y as int, w as int, h as int)
        }),
{
    let img = image::DynamicImage::ImageRgba8(image::RgbaImage::from_raw(width, height, rgba).unwrap_or_default());
    let out = img.crop_imm(area.x, area.y, area.width, area.height).to_rgba8();
    (out.width(), out.height(), out.into_raw())
}

/// The file extension of a format.
pub open spec fn extension_of(f: ScreenshotFormat) -> Seq<char> {
    match f {
        ScreenshotFormat::PNG => "png"@,
        ScreenshotFormat::JPEG => "jpg"@,
        ScreenshotFormat::WebP => "webp"@,
    }
}

fn extension(f: ScreenshotFormat) -> (res: &'static str)
    ensures
        res@ == extension_of(f),
{
    match f {
        ScreenshotFormat::PNG => "png",
        ScreenshotFormat::JPEG => "jpg",
        ScreenshotFormat::WebP => "webp",
    }
}

/// `filename` with the format's extension added, unless it ends with it.
pub open spec fn file_name_for(filename: Seq<char>, f: ScreenshotFormat) -> Seq<char> {
    let ext = "."@ + extension_of(f);
    if crate::text::has_suffix(filename, ext) {
        filename
    } else {
        filename + ext
    }
}

/// `name` placed in the directory `dir`, as `Path::join` places it on Unix: an
/// absolute name stands alone, and a separator goes between the two unless
/// `dir` is empty or ends with one.
pub open spec fn joined(dir: Seq<char>, name: Seq<char>) -> Seq<char> {
    if crate::text::has_prefix(name, "/"@) || dir.len() == 0 {
        name
    } else if crate::text::has_suffix(dir, "/"@) {
        dir + name
    } else {
        dir + "/"@ + name
    }
}

/// Places `name` in the directory `dir`.
pub fn join_path(dir: &str, name: &str) -> (res: String)
    ensures
        res@ == joined(dir@, name@),
{
    if crate::text::starts_with(name, "/") || dir.unicode_len() == 0 {
        to_string(name)
    } else if crate::text::ends_with(dir, "/") {
        concat(dir, name)
    } else {
        concat(concat(dir, "/").as_str(), name)
    }
}

/// The message of a refused comparison of images of different sizes.
pub open spec fn dimension_mismatch(w1: u32, h1: u32, w2: u32, h2: u32) -> Seq<char> {
    "Images have different dimensions: ("@ + crate::text::decimal(w1 as nat) + ", "@ + crate::text::decimal(
        h1 as nat,
    ) + ") vs ("@ + crate::text::decimal(w2 as nat) + ", "@ + crate::text::decimal(h2 as nat) + ")"@
}

/// The pixels kept of a `width` by `height` image after cropping to `area`,
/// when there is one, and resizing to `scaled`, when asked.
pub open spec fn capture_pixels(
    rgba: Seq<u8>,
    width: u32,
    height: u32,
    area: Option<CaptureArea>,
    scaled: Option<(u32, u32)>,
) -> (u32, u32, Seq<u8>) {
    let (w, h, px) = match area {
        Some(a) => {
            let (x, y, cw, ch) = crop_box(width, height, a);
            (cw, ch, cropped(rgba, width as int, x as int, y as int, cw as int, ch as int))
        },
        None => (width, height, rgba),
    };
    match scaled {
        Some((nw, nh)) => resized_rgba(w, h, px, nw, nh),
        None => (w, h, px),
    }
}

/// The size and RGBA pixels of a screenshot's base64 image, if it can be read.
pub open spec fn screenshot_pixels(data: Seq<char>) -> Option<(u32, u32, Seq<u8>)> {
    match base64_bytes(data) {
        Some(b) => decoded_rgba(b),
        None => None,
    }
}

/// Takes and compares screenshots, kept in one directory.
pub struct VisualTester {
    screenshot_dir: String,
}

/// The size and pixels a capture of `data` (`width` by `height`) comes to
/// before encoding: the capture area cut out, then the scaled size when the
/// options carry a scale factor other than 1.
pub open spec fn captured(
    data: Seq<u8>,
    width: u32,
    height: u32,
    options: ScreenshotOptions,
    scaled_size: Option<(u32, u32)>,
) -> (u32, u32, Seq<u8>) {
    let scaled = match options.scale_factor {
        Some(s) => if s.bits != 0x3F80_0000 {
            scaled_size
        } else {
            None
        },
        None => None,
    };
    capture_pixels(data.take(width * height * 4), width, height, options.area, scaled)
}

impl VisualTester {
    /// The directory the screenshots go to.
    pub closed spec fn dir(&self) -> Seq<char> {
        self.screenshot_dir@
    }

    /// A tester that keeps its screenshots in `screenshot_dir`.
    pub fn new(screenshot_dir: String) -> (res: Self)
        ensures
            res.dir() == screenshot_dir@,
    {
        VisualTester { screenshot_dir }
    }

    /// The directory the screenshots go to.
    pub fn screenshot_dir(&self) -> (res: &str)
        ensures
            res@ == self.dir(),
    {
        self.screenshot_dir.as_str()
    }

    /// The size a screenshot of a `width` by `height` image has after the
    /// capture area is applied, before any scaling.
    pub fn captured_size(width: u32, height: u32, options: &ScreenshotOptions) -> (res: (u32, u32))
        ensures
            res == match options.area {
                Some(a) => (crop_box(width, height, a).2, crop_box(width, height, a).3),
                None => (width, height),
            },
    {
        match options.area {
            Some(a) => {
                let x = if a.x < width { a.x } else { width };
                let y = if a.y < height { a.y } else { height };
                let w = if a.width < width - x { a.width } else { width - x };
                let h = if a.height < height - y { a.height } else { height - y };
                (w, h)
            },
            None => (width, height),
        }
    }

    /// Makes a screenshot of raw RGBA pixels, `width` by `height`: the
    /// capture area is cut out, the image is resized to `scaled_size` (the
    /// size the scale factor asks for) when the options carry a scale factor
    /// other than 1, and the result is encoded in the chosen format and base64.
    /// Refused when there are fewer than `width * height` pixels.
    pub fn capture_from_data(
        &self,
        image_data: &[u8],
        width: u32,
        height: u32,
        options: ScreenshotOptions,
        scaled_size: Option<(u32, u32)>,
    ) -> (res: Result<ScreenshotResult, String>)
        ensures
            (res is Ok) ==> image_data@.len() >= width * height * 4,
            image_data@.len() < width * height * 4 ==> (res matches Err(e)
                && e@ == "Failed to create image buffer from raw data"@),
            image_data@.len() >= width * height * 4 ==> {
                let (w, h, px) = captured(image_data@, width, height, options, scaled_size);
                res is Ok <==> encoded_image(format_no(options.format), w, h, px) is Some
            },
            res matches Ok(r) ==> {
                let (w, h, px) = captured(image_data@, width, height, options, scaled_size);
                &&& r.width == w
                &&& r.height == h
                &&& r.format == options.format
                &&& encoded_image(format_no(options.format), w, h, px) matches Some(bytes) && r.data@ == base64_text(
                    bytes,
                ) && r.size == bytes.len()
            },
    {
        let w = width as usize;
        let h = height as usize;
        let pix = w.checked_mul(h);
        let needed = match pix {
            Some(p) => p.checked_mul(4),
            None => None,
        };
        let len = image_data.len();
        let fits = match needed {
            Some(n) => n <= len,
            None => false,
        };
        if !fits {
            proof {
                match pix {
                    None => {
                        assert(width * height * 4 > usize::MAX) by (nonlinear_arith)
                            requires
                                width * height > usize::MAX,
                        ;
                    },
                    Some(p) => {
                        assert(p == width * height);
                    },
                }
            }
            return Err(to_string("Failed to create image buffer from raw data"));
        }
        let needed = needed.unwrap();
        let mut pixels: Vec<u8> = Vec::new();
        let mut i: usize = 0;
        while i < needed
            invariant
                needed <= image_data@.len(),
                i <= needed,
                pixels@ == image_data@.take(i as int),
            decreases needed - i,
        {
            pixels.push(image_data[i]);
            proof {
                assert(image_data@.take(i + 1) =~= image_data@.take(i as int).push(image_data@[i as int]));
            }
            i = i + 1;
        }
        proof {
            assert(needed == width * height * 4) by (nonlinear_arith)
                requires
                    needed == (w * h) * 4,
                    w == width,
                    h == height,
            ;
        }
        let (cw, ch, cropped_px) = match options.area {
            Some(a) => {
                let (cw, ch, px) = crop_rgba(width, height, pixels, a);
                proof {
                    let l = px@.len();
                    assert(l == cw * ch * 4) by (nonlinear_arith)
                        requires
                            l == 4 * cw * ch,
                    ;
                }
                (cw, ch, px)
            },
            None => (width, height, pixels),
        };
        let scaled = match options.scale_factor {
            Some(s) => if s.bits != 0x3F80_0000 { scaled_size } else { None },
            None => None,
        };
        let (fw, fh, final_px) = match scaled {
            Some((nw, nh)) => resize_rgba(cw, ch, cropped_px, nw, nh),
            None => (cw, ch, cropped_px),
        };
        let bytes = match encode_image(options.format, fw, fh, final_px) {
            Ok(b) => b,
            Err(e) => {
                return Err(e);
            },
        };
        let data = base64_encode(&bytes);
        Ok(
            ScreenshotResult {
                data,
                width: fw,
                height: fh,
                format: options.format,
                size: bytes.len(),
                timestamp_ms: unix_time_millis(),
            },
        )
    }

    /// Where a screenshot named `filename` is saved, and its image bytes.
    pub fn save_screenshot(&self, screenshot: &ScreenshotResult, filename: &str) -> (res: Result<(String, Vec<u8>), String>)
        ensures
            match res {
                Ok((path, bytes)) => path@ == joined(self.dir(), file_name_for(filename@, screenshot.format))
                    && base64_bytes(screenshot.data@) == Some(bytes@),
                Err(_) => base64_bytes(screenshot.data@) is None,
            },
    {
        let ext = concat(".", extension(screenshot.format));
        let name = if crate::text::ends_with(filename, ext.as_str()) {
            to_string(filename)
        } else {
            concat(filename, ext.as_str())
        };
        let path = join_path(self.screenshot_dir.as_str(), name.as_str());
        match base64_decode(screenshot.data.as_str()) {
            Ok(bytes) => Ok((path, bytes)),
            Err(e) => Err(e),
        }
    }

    /// Where the baseline of `test_name` is saved, and its image bytes.
    pub fn create_baseline(&self, screenshot: &ScreenshotResult, test_name: &str) -> (res: Result<(String, Vec<u8>), String>)
        ensures
            match res {
                Ok((path, bytes)) => path@ == joined(self.dir(), file_name_for("baseline_"@ + test_name@, screenshot.format))
                    && base64_bytes(screenshot.data@) == Some(bytes@),
                Err(_) => base64_bytes(screenshot.data@) is None,
            },
    {
        let filename = concat("baseline_", test_name);
        self.save_screenshot(screenshot, filename.as_str())
    }

    /// Where the PNG baseline of `test_name` is read from.
    pub fn baseline_path(&self, test_name: &str) -> (res: String)
        ensures
            res@ == joined(self.dir(), "baseline_"@ + test_name@ + ".png"@),
    {
        let name = concat(concat("baseline_", test_name).as_str(), ".png");
        join_path(self.screenshot_dir.as_str(), name.as_str())
    }

    /// The baseline screenshot whose PNG file holds `image_data`; refused
    /// when the file is not an image.
    pub fn load_baseline(&self, image_data: Vec<u8>) -> (res: Result<ScreenshotResult, String>)
        ensures
            res is Ok <==> decoded_rgba(image_data@) is Some,
            res matches Ok(r) ==> r.data@ == base64_text(image_data@) && r.format == ScreenshotFormat::PNG && r.size
                == image_data@.len() && (decoded_rgba(image_data@) matches Some((w, h, px)) && r.width == w && r.height
                == h),
    {
        let data = base64_encode(&image_data);
        let (w, h, _) = match decode_image(&image_data) {
            Ok(img) => img,
            Err(e) => {
                return Err(e);
            },
        };
        Ok(
            ScreenshotResult {
                data,
                width: w,
                height: h,
                format: ScreenshotFormat::PNG,
                size: image_data.len(),
                timestamp_ms: unix_time_millis(),
            },
        )
    }

    /// Compares two screenshots pixel by pixel: a pixel differs where its
    /// squared distance over the four channels exceeds `limit` (the caller
    /// derives it from its tolerance). Refused when an image cannot be read,
    /// when the sizes differ, and when an image has more pixels than a `u32`
    /// counts.
    pub fn compare_screenshots(&self, img1: &ScreenshotResult, img2: &ScreenshotResult, limit: i64) -> (res: Result<PixelComparison, String>)
        ensures
            match (screenshot_pixels(img1.data@), screenshot_pixels(img2.data@)) {
                (Some((w1, h1, p1)), Some((w2, h2, p2))) => if w1 != w2 || h1 != h2 {
                    res matches Err(e) && e@ == dimension_mismatch(w1, h1, w2, h2)
                } else if w1 * h1 > u32::MAX {
                    res matches Err(e) && e@ == "Images are too large to compare"@
                } else {
                    let n = (w1 * h1) as nat;
                    let count = count_differing(p1, p2, n, limit as int);
                    if count == 0 {
                        res matches Ok(c) && c.differing_pixels == 0 && c.total_pixels == n && c.diff_image is None
                            && c.difference_areas@.len() == 0
                    } else {
                        match encoded_image(0, w1, h1, diff_image(p1, p2, n, limit as int)) {
                            Some(png) => res matches Ok(c) && c.differing_pixels == count && c.total_pixels == n
                                && c.diff_image == Some(c.diff_image->0) && c.diff_image->0@ == base64_text(png)
                                && c.difference_areas@.len() == 0,
                            None => res is Err,
                        }
                    }
                },
                _ => res is Err,
            },
    {
        let data1 = match base64_decode(img1.data.as_str()) {
            Ok(d) => d,
            Err(e) => {
                return Err(e);
            },
        };
        let data2 = match base64_decode(img2.data.as_str()) {
            Ok(d) => d,
            Err(e) => {
                return Err(e);
            },
        };
        let (w1, h1, px1) = match decode_image(&data1) {
            Ok(i) => i,
            Err(e) => {
                return Err(e);
            },
        };
        let (w2, h2, px2) = match decode_image(&data2) {
            Ok(i) => i,
            Err(e) => {
                return Err(e);
            },
        };
        if w1 != w2 || h1 != h2 {
            let mut msg = to_string("Images have different dimensions: (");
            msg.append(decimal_string(w1 as u64).as_str());
            msg.append(", ");
            msg.append(decimal_string(h1 as u64).as_str());
            msg.append(") vs (");
            msg.append(decimal_string(w2 as u64).as_str());
            msg.append(", ");
            msg.append(decimal_string(h2 as u64).as_str());
            msg.append(")");
            return Err(msg);
        }
        proof {
            assert(w1 * h1 <= u64::MAX) by (nonlinear_arith)
                requires
                    w1 <= u32::MAX,
                    h1 <= u32::MAX,
            ;
        }
        let total: u64 = w1 as u64 * h1 as u64;
        if total > u32::MAX as u64 {
            return Err(to_string("Images are too large to compare"));
        }
        let n = total as usize;
        proof {
            assert(px1@.len() == 4 * n);
            assert(px2@.len() == 4 * n);
        }
        let (differing, diff) = compare_pixels(&px1, &px2, n, limit);
        let diff_image_data = if differing > 0 {
            proof {
                assert(diff@.len() == w1 * h1 * 4);
            }
            match encode_image(ScreenshotFormat::PNG, w1, h1, diff) {
                Ok(png) => Some(base64_encode(&png)),
                Err(e) => {
                    return Err(e);
                },
            }
        } else {
            None
        };
        Ok(
            PixelComparison {
                differing_pixels: differing,
                total_pixels: total as u32,
                difference_areas: Vec::new(),
                diff_image: diff_image_data,
            },
        )
    }
}

} // verus!
