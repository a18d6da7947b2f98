//! QR rendering: encode text as a QR symbol raster, optionally recolor it,
//! and package the raster as a PNG data URI.
use crate::color::resolved_color;
use crate::contact::ContactData;
use crate::vcard::{generate_vcard, vcard_text};
use vstd::prelude::*;

verus! {

/// The input text exceeds the capacity of the largest QR symbol at the
/// chosen error-correction level. The one failure this pipeline can report.
#[derive(Debug, Clone, Copy, PartialEq, Eq, Structural)]
pub struct EncodingError;

/// A grayscale raster: `pixels[y * width + x]` is the luma of the pixel at
/// `(x, y)`, with 0 black and 255 white.
pub struct GrayBitmap {
    pub width: usize,
    pub height: usize,
    pub pixels: Vec<u8>,
}

impl GrayBitmap {
    /// One byte per pixel.
    pub open spec fn wf(&self) -> bool {
        self.pixels@.len() == self.width * self.height
    }
}

/// An RGB raster: three bytes per pixel, in `R`, `G`, `B` order, row by row.
pub struct RgbBitmap {
    pub width: usize,
    pub height: usize,
    pub pixels: Vec<u8>,
}

impl RgbBitmap {
    /// Three bytes per pixel.
    pub open spec fn wf(&self) -> bool {
        self.pixels@.len() == 3 * self.width * self.height
    }
}

/// Whether the given text fits a QR symbol at medium error correction;
/// deterministic in the text.
pub uninterp spec fn qr_encodes(text: Seq<char>) -> bool;

/// Side length, in pixels, of the square raster that the QR renderer
/// produces for the given text.
pub uninterp spec fn qr_image_side(text: Seq<char>) -> nat;

/// The grayscale pixels of the QR raster for the given text.
pub uninterp spec fn qr_image_gray(text: Seq<char>) -> Seq<u8>;

/// The PNG serialization of an 8-bit grayscale image.
pub uninterp spec fn png_of_gray(width: nat, height: nat, pixels: Seq<u8>) -> Seq<u8>;

/// The PNG serialization of an 8-bit RGB image.
pub uninterp spec fn png_of_rgb(width: nat, height: nat, pixels: Seq<u8>) -> Seq<u8>;

/// The standard padded base64 encoding of a byte sequence.
pub uninterp spec fn base64_standard(bytes: Seq<u8>) -> Seq<char>;

/// Relies on qrcode::QrCode::new — the smallest QR symbol holding the given
/// bytes at medium error correction, an error exactly when no symbol can hold
/// them — and on qrcode's image renderer with its defaults: 8x8 pixels per
/// module, a 4-module quiet zone, dark modules as luma 0 and light ones as
/// luma 255. Both are deterministic in the text, so acceptance is named by
/// `qr_encodes` and the raster by `qr_image_side` and `qr_image_gray`. A
/// symbol is 21 to 177 modules wide, so the square image measures 232 to
/// 1480 pixels on a side.
#[verifier::external_body]
fn qr_encode_gray(text: &str) -> (r: Result<GrayBitmap, EncodingError>)
    ensures
        r is Ok <==> qr_encodes(text@),
        r is Ok ==> r->Ok_0.wf(),
        r is Ok ==> r->Ok_0.height == r->Ok_0.width,
        r is Ok ==> 232 <= r->Ok_0.width <= 1480,
        r is Ok ==> r->Ok_0.width == qr_image_side(text@),
        r is Ok ==> r->Ok_0.pixels@ == qr_image_gray(text@),
        r is Ok ==> forall|i: int|
            0 <= i < r->Ok_0.pixels@.len() ==> r->Ok_0.pixels@[i] == 0 || r->Ok_0.pixels@[i]
                == 255,
{
    match qrcode::QrCode::new(text.as_bytes()) {
        Ok(code) => {
            let img = code.render::<image::Luma<u8>>().build();
            let width = img.width() as usize;
            let height = img.height() as usize;
            Ok(GrayBitmap { width, height, pixels: img.into_raw() })
        },
        Err(_) => Err(EncodingError),
    }
}

/// Channel `k` (0, 1, 2 for red, green, blue) of a foreground color.
pub open spec fn rgb_channel(rgb: (u8, u8, u8), k: int) -> u8 {
    if k == 0 {
        rgb.0
    } else if k == 1 {
        rgb.1
    } else {
        rgb.2
    }
}

/// A grayscale raster recolored: every black source pixel becomes the
/// foreground color, every other pixel becomes pure white.
pub open spec fn colorized_pixels(gray: Seq<u8>, rgb: (u8, u8, u8)) -> Seq<u8> {
    Seq::new(
        3 * gray.len(),
        |i: int|
            if gray[i / 3] == 0 {
                rgb_channel(rgb, i % 3)
            } else {
                255
            },
    )
}

proof fn lemma_triple_index(p: int, k: int)
    requires
        0 <= k < 3,
    ensures
        (3 * p + k) / 3 == p,
        (3 * p + k) % 3 == k,
{
    vstd::arithmetic::div_mod::lemma_fundamental_div_mod_converse(3 * p + k, 3, p, k);
}

/// Render a grayscale raster as a two-color RGB raster: dark pixels take the
/// given foreground color, all other pixels become pure white.
pub fn colorize(gray: &GrayBitmap, rgb: (u8, u8, u8)) -> (out: RgbBitmap)
    requires
        gray.wf(),
    ensures
        out.wf(),
        out.width == gray.width,
        out.height == gray.height,
        out.pixels@ == colorized_pixels(gray.pixels@, rgb),
        forall|p: int|
            0 <= p < gray.pixels@.len() && gray.pixels@[p] == 0 ==> out.pixels@[3 * p] == rgb.0
                && out.pixels@[3 * p + 1] == rgb.1 && out.pixels@[3 * p + 2] == rgb.2,
        forall|p: int|
            0 <= p < gray.pixels@.len() && gray.pixels@[p] != 0 ==> out.pixels@[3 * p] == 255
                && out.pixels@[3 * p + 1] == 255 && out.pixels@[3 * p + 2] == 255,
{
    let n = gray.pixels.len();
    let mut pixels: Vec<u8> = Vec::new();
    let mut p: usize = 0;
    while p < n
        invariant
            n == gray.pixels@.len(),
            p <= n,
            pixels@.len() == 3 * p,
            forall|i: int| 0 <= i < 3 * p ==> pixels@[i] == colorized_pixels(gray.pixels@, rgb)[i],
        decreases n - p,
    {
        let g = gray.pixels[p];
        if g == 0 {
            pixels.push(rgb.0);
            pixels.push(rgb.1);
            pixels.push(rgb.2);
        } else {
            pixels.push(255);
            pixels.push(255);
            pixels.push(255);
        }
        proof {
            lemma_triple_index(p as int, 0);
            lemma_triple_index(p as int, 1);
            lemma_triple_index(p as int, 2);
        }
        p += 1;
    }
    assert(pixels@ =~= colorized_pixels(gray.pixels@, rgb));
    proof {
        assert(3 * ((gray.width * gray.height) as int) == 3 * (gray.width as int) * (
        gray.height as int)) by (nonlinear_arith);
    }
    let out = RgbBitmap { width: gray.width, height: gray.height, pixels };
    assert forall|q: int| 0 <= q < gray.pixels@.len() && gray.pixels@[q] == 0 implies out.pixels@[3
        * q] == rgb.0 && out.pixels@[3 * q + 1] == rgb.1 && out.pixels@[3 * q + 2] == rgb.2 by {
        lemma_triple_index(q, 0);
        lemma_triple_index(q, 1);
        lemma_triple_index(q, 2);
    }
    assert forall|q: int| 0 <= q < gray.pixels@.len() && gray.pixels@[q] != 0 implies out.pixels@[3
        * q] == 255 && out.pixels@[3 * q + 1] == 255 && out.pixels@[3 * q + 2] == 255 by {
        lemma_triple_index(q, 0);
        lemma_triple_index(q, 1);
        lemma_triple_index(q, 2);
    }
    out
}

/// Relies on image::DynamicImage::write_to with the PNG format on an
/// in-memory buffer: a deterministic PNG serialization of an 8-bit grayscale
/// image, named `png_of_gray`. Writing a well-formed non-empty image to an
/// in-memory buffer does not fail.
#[verifier::external_body]
fn encode_png_gray(img: &GrayBitmap) -> (r: Vec<u8>)
    requires
        img.wf(),
        1 <= img.width <= 0x4000,
        1 <= img.height <= 0x4000,
    ensures
        r@ == png_of_gray(img.width as nat, img.height as nat, img.pixels@),
{
    let buf = image::ImageBuffer::<image::Luma<u8>, Vec<u8>>::from_raw(
        img.width as u32,
        img.height as u32,
        img.pixels.clone(),
    ).unwrap();
    let mut cursor = std::io::Cursor::new(Vec::new());
    image::DynamicImage::ImageLuma8(buf).write_to(&mut cursor, image::ImageFormat::Png).unwrap();
    cursor.into_inner()
}

/// Relies on image::DynamicImage::write_to with the PNG format on an
/// in-memory buffer: a deterministic PNG serialization of an 8-bit RGB
/// image, named `png_of_rgb`. Writing a well-formed non-empty image to an
/// in-memory buffer does not fail.
#[verifier::external_body]
fn encode_png_rgb(img: &RgbBitmap) -> (r: Vec<u8>)
    requires
        img.wf(),
        1 <= img.width <= 0x4000,
        1 <= img.height <= 0x4000,
    ensures
        r@ == png_of_rgb(img.width as nat, img.height as nat, img.pixels@),
{
    let buf = image::ImageBuffer::<image::Rgb<u8>, Vec<u8>>::from_raw(
        img.width as u32,
        img.height as u32,
        img.pixels.clone(),
    ).unwrap();
    let mut cursor = std::io::Cursor::new(Vec::new());
    image::DynamicImage::ImageRgb8(buf).write_to(&mut cursor, image::ImageFormat::Png).unwrap();
    cursor.into_inner()
}

/// Relies on base64's standard alphabet engine with padding: a deterministic
/// encoding, named `base64_standard`, with four output characters for every
/// three input bytes, rounded up.
#[verifier::external_body]
fn base64_encode(bytes: &Vec<u8>) -> (r: String)
    ensures
        r@ == base64_standard(bytes@),
        r@.len() == 4 * ((bytes@.len() + 2) / 3),
{
    base64::Engine::encode(&base64::engine::general_purpose::STANDARD, bytes.as_slice())
}

/// The data URI carrying a PNG byte sequence.
pub open spec fn data_uri_of(png: Seq<u8>) -> Seq<char> {
    "data:image/png;base64,"@ + base64_standard(png)
}

fn png_data_uri(png: &Vec<u8>) -> (r: String)
    ensures
        r@ == data_uri_of(png@),
{
    let mut uri = String::new();
    uri.append("data:image/png;base64,");
    let b64 = base64_encode(png);
    uri.append(b64.as_str());
    proof {
        assert(uri@ =~= data_uri_of(png@));
    }
    uri
}

/// The PNG bytes of the rendered QR raster for the given text: recolored
/// when a foreground color is given, 8-bit grayscale otherwise.
pub open spec fn rendered_qr_png(text: Seq<char>, color: Option<(u8, u8, u8)>) -> Seq<u8> {
    match color {
        Some(rgb) => png_of_rgb(
            qr_image_side(text),
            qr_image_side(text),
            colorized_pixels(qr_image_gray(text), rgb),
        ),
        None => png_of_gray(qr_image_side(text), qr_image_side(text), qr_image_gray(text)),
    }
}

/// Encode text as a QR symbol, recolor it when a foreground color is given,
/// and return the raster as a PNG data URI. Fails exactly when the QR
/// encoder rejects the text as too long for any symbol.
pub fn render_qr_data_uri(text: &str, color: Option<(u8, u8, u8)>) -> (r: Result<
    String,
    EncodingError,
>)
    ensures
        r is Ok <==> qr_encodes(text@),
        r is Ok ==> r->Ok_0@ == data_uri_of(rendered_qr_png(text@, color)),
{
    let gray = match qr_encode_gray(text) {
        Ok(g) => g,
        Err(e) => {
            return Err(e);
        },
    };
    let png = match color {
        Some(rgb) => {
            let colored = colorize(&gray, rgb);
            encode_png_rgb(&colored)
        },
        None => encode_png_gray(&gray),
    };
    Ok(png_data_uri(&png))
}

/// The color option a contact record selects: a supplied color string is
/// resolved (malformed strings fall back to black); no string at all means
/// a monochrome rendering.
pub open spec fn contact_color(d: ContactData) -> Option<(u8, u8, u8)> {
    match d.color {
        Some(c) => Some(resolved_color(c@)),
        None => None,
    }
}

/// Format a contact record as vCard 3.0 text and render that text as a QR
/// symbol, returned as a PNG data URI. Fails exactly when the vCard text is
/// too long for any QR symbol.
pub fn contact_qr_data_uri(data: &ContactData) -> (r: Result<String, EncodingError>)
    ensures
        r is Ok <==> qr_encodes(vcard_text(*data)),
        r is Ok ==> r->Ok_0@ == data_uri_of(
            rendered_qr_png(vcard_text(*data), contact_color(*data)),
        ),
{
    let vcard = generate_vcard(data);
    let color = match &data.color {
        Some(c) => Some(crate::color::parse_color(c.as_str())),
        None => None,
    };
    render_qr_data_uri(vcard.as_str(), color)
}

} // verus!
