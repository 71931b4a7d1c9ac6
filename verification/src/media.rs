//! Media utilities: content sniffing, canonicalization, and fingerprinting.
//!
//! The extension sniff tests a handful of magic bytes, so it is implemented
//! and verified here against specs that state those bytes exactly. The
//! broader content-kind sniff, image decoding and the digest are work of the
//! `infer`, `image` and `blake2` crates, called through trusted wrappers
//! whose results are named functions of the payload bytes.

use vstd::prelude::*;
use blake2::Digest;
use crate::json_text::{chars_to_string, hex_digit, spec_hex_digit};

verus! {

/// PNG magic: the four bytes the extension sniff tests.
pub open spec fn spec_is_png(b: Seq<u8>) -> bool {
    b.len() > 3 && b[0] == 0x89 && b[1] == 0x50 && b[2] == 0x4e && b[3] == 0x47
}

/// JPEG magic.
pub open spec fn spec_is_jpeg(b: Seq<u8>) -> bool {
    b.len() > 2 && b[0] == 0xff && b[1] == 0xd8 && b[2] == 0xff
}

/// JPEG 2000 magic.
pub open spec fn spec_is_jpeg2000(b: Seq<u8>) -> bool {
    b.len() > 12 && b[0] == 0x00 && b[1] == 0x00 && b[2] == 0x00 && b[3] == 0x0c && b[4] == 0x6a
        && b[5] == 0x50 && b[6] == 0x20 && b[7] == 0x20 && b[8] == 0x0d && b[9] == 0x0a && b[10]
        == 0x87 && b[11] == 0x0a && b[12] == 0x00
}

/// GIF magic.
pub open spec fn spec_is_gif(b: Seq<u8>) -> bool {
    b.len() > 2 && b[0] == 0x47 && b[1] == 0x49 && b[2] == 0x46
}

/// WebP magic.
pub open spec fn spec_is_webp(b: Seq<u8>) -> bool {
    b.len() > 11 && b[8] == 0x57 && b[9] == 0x45 && b[10] == 0x42 && b[11] == 0x50
}

pub fn is_png_bytes(b: &Vec<u8>) -> (r: bool)
    ensures
        r == spec_is_png(b@),
{
    b.len() > 3 && b[0] == 0x89 && b[1] == 0x50 && b[2] == 0x4e && b[3] == 0x47
}

pub fn is_jpeg_bytes(b: &Vec<u8>) -> (r: bool)
    ensures
        r == spec_is_jpeg(b@),
{
    b.len() > 2 && b[0] == 0xff && b[1] == 0xd8 && b[2] == 0xff
}

pub fn is_jpeg2000_bytes(b: &Vec<u8>) -> (r: bool)
    ensures
        r == spec_is_jpeg2000(b@),
{
    b.len() > 12 && b[0] == 0x00 && b[1] == 0x00 && b[2] == 0x00 && b[3] == 0x0c && b[4] == 0x6a
        && b[5] == 0x50 && b[6] == 0x20 && b[7] == 0x20 && b[8] == 0x0d && b[9] == 0x0a && b[10]
        == 0x87 && b[11] == 0x0a && b[12] == 0x00
}

pub fn is_gif_bytes(b: &Vec<u8>) -> (r: bool)
    ensures
        r == spec_is_gif(b@),
{
    b.len() > 2 && b[0] == 0x47 && b[1] == 0x49 && b[2] == 0x46
}

pub fn is_webp_bytes(b: &Vec<u8>) -> (r: bool)
    ensures
        r == spec_is_webp(b@),
{
    b.len() > 11 && b[8] == 0x57 && b[9] == 0x45 && b[10] == 0x42 && b[11] == 0x50
}

/// The staged file extension of a payload: the first match among PNG,
/// JPEG/JPEG 2000 (reported as `jpg`), GIF and WebP, with PNG the fallback.
pub open spec fn spec_image_extension(b: Seq<u8>) -> Seq<char> {
    if spec_is_png(b) {
        "png"@
    } else if spec_is_jpeg(b) || spec_is_jpeg2000(b) {
        "jpg"@
    } else if spec_is_gif(b) {
        "gif"@
    } else if spec_is_webp(b) {
        "webp"@
    } else {
        "png"@
    }
}

/// Sniffs the staged file extension of a payload.
pub fn get_image_extension(image: &Vec<u8>) -> (r: Option<String>)
    ensures
        (match r {
            Some(e) => e@ == spec_image_extension(image@),
            None => false,
        }),
{
    if is_png_bytes(image) {
        Some(String::from_str("png"))
    } else if is_jpeg_bytes(image) || is_jpeg2000_bytes(image) {
        Some(String::from_str("jpg"))
    } else if is_gif_bytes(image) {
        Some(String::from_str("gif"))
    } else if is_webp_bytes(image) {
        Some(String::from_str("webp"))
    } else {
        Some(String::from_str("png"))
    }
}

/// Whether `infer` classifies the bytes as an image.
pub uninterp spec fn spec_is_image_data(b: Seq<u8>) -> bool;

/// Whether `infer` classifies the bytes as a video.
pub uninterp spec fn spec_is_video_data(b: Seq<u8>) -> bool;

/// Whether `infer` classifies the bytes as an application.
pub uninterp spec fn spec_is_app_data(b: Seq<u8>) -> bool;

/// Whether `infer` classifies the bytes as audio.
pub uninterp spec fn spec_is_audio_data(b: Seq<u8>) -> bool;

/// Whether `infer` classifies the bytes as an archive.
pub uninterp spec fn spec_is_archive_data(b: Seq<u8>) -> bool;

/// Whether `infer` classifies the bytes as a document.
pub uninterp spec fn spec_is_document_data(b: Seq<u8>) -> bool;

/// Whether `infer` classifies the bytes as a font.
pub uninterp spec fn spec_is_font_data(b: Seq<u8>) -> bool;

/// Relies on `infer::is_image`: a function of the buffer's leading bytes.
#[verifier::external_body]
fn is_image_data(b: &Vec<u8>) -> (r: bool)
    ensures
        r == spec_is_image_data(b@),
{
    infer::is_image(b)
}

/// Relies on `infer::is_video`: a function of the buffer's leading bytes.
#[verifier::external_body]
fn is_video_data(b: &Vec<u8>) -> (r: bool)
    ensures
        r == spec_is_video_data(b@),
{
    infer::is_video(b)
}

/// Relies on `infer::is_app`: a function of the buffer's leading bytes.
#[verifier::external_body]
fn is_app_data(b: &Vec<u8>) -> (r: bool)
    ensures
        r == spec_is_app_data(b@),
{
    infer::is_app(b)
}

/// Relies on `infer::is_audio`: a function of the buffer's leading bytes.
#[verifier::external_body]
fn is_audio_data(b: &Vec<u8>) -> (r: bool)
    ensures
        r == spec_is_audio_data(b@),
{
    infer::is_audio(b)
}

/// Relies on `infer::is_archive`: a function of the buffer's leading bytes.
#[verifier::external_body]
fn is_archive_data(b: &Vec<u8>) -> (r: bool)
    ensures
        r == spec_is_archive_data(b@),
{
    infer::is_archive(b)
}

/// Relies on `infer::is_document`: a function of the buffer's leading bytes.
#[verifier::external_body]
fn is_document_data(b: &Vec<u8>) -> (r: bool)
    ensures
        r == spec_is_document_data(b@),
{
    infer::is_document(b)
}

/// Relies on `infer::is_font`: a function of the buffer's leading bytes.
#[verifier::external_body]
fn is_font_data(b: &Vec<u8>) -> (r: bool)
    ensures
        r == spec_is_font_data(b@),
{
    infer::is_font(b)
}

/// The content kinds the client endpoint distinguishes.
#[derive(PartialEq, Eq, Structural, Clone, Copy, Debug)]
pub enum MediaKind {
    Image,
    Video,
    App,
    Audio,
    Archive,
    Document,
    Font,
    Unknown,
}

/// The kind the payload is classified as, probing in the order the client
/// endpoint uses.
pub open spec fn spec_media_kind(b: Seq<u8>) -> MediaKind {
    if spec_is_image_data(b) {
        MediaKind::Image
    } else if spec_is_video_data(b) {
        MediaKind::Video
    } else if spec_is_app_data(b) {
        MediaKind::App
    } else if spec_is_audio_data(b) {
        MediaKind::Audio
    } else if spec_is_archive_data(b) {
        MediaKind::Archive
    } else if spec_is_document_data(b) {
        MediaKind::Document
    } else if spec_is_font_data(b) {
        MediaKind::Font
    } else {
        MediaKind::Unknown
    }
}

/// Classifies a payload's content kind.
pub fn classify_media(b: &Vec<u8>) -> (r: MediaKind)
    ensures
        r == spec_media_kind(b@),
{
    if is_image_data(b) {
        MediaKind::Image
    } else if is_video_data(b) {
        MediaKind::Video
    } else if is_app_data(b) {
        MediaKind::App
    } else if is_audio_data(b) {
        MediaKind::Audio
    } else if is_archive_data(b) {
        MediaKind::Archive
    } else if is_document_data(b) {
        MediaKind::Document
    } else if is_font_data(b) {
        MediaKind::Font
    } else {
        MediaKind::Unknown
    }
}

/// The Blake2b-512 digest of the bytes.
pub uninterp spec fn spec_blake2b512(b: Seq<u8>) -> Seq<u8>;

/// Relies on `blake2::Blake2b512` through the `Digest` trait: a 64-byte
/// digest that is a function of the input bytes alone.
#[verifier::external_body]
fn blake2b512_digest(bytes: &Vec<u8>) -> (r: Vec<u8>)
    ensures
        r@ == spec_blake2b512(bytes@),
        r@.len() == 64,
{
    let mut hasher = blake2::Blake2b512::new();
    hasher.update(bytes.as_slice());
    hasher.finalize().to_vec()
}

/// The lowercase hexadecimal text of a byte string.
pub open spec fn spec_hex_of(b: Seq<u8>) -> Seq<char>
    decreases b.len(),
{
    if b.len() == 0 {
        Seq::empty()
    } else {
        spec_hex_of(b.drop_last()) + seq![
            spec_hex_digit(b.last() as int / 16),
            spec_hex_digit(b.last() as int % 16),
        ]
    }
}

/// Writes a byte string in lowercase hexadecimal.
pub fn hex_of_bytes(b: &Vec<u8>) -> (r: Vec<char>)
    ensures
        r@ == spec_hex_of(b@),
        r@.len() == 2 * b@.len(),
{
    let mut r: Vec<char> = Vec::new();
    let mut i: usize = 0;
    while i < b.len()
        invariant
            i <= b@.len(),
            r@ == spec_hex_of(b@.take(i as int)),
            r@.len() == 2 * i,
        decreases b@.len() - i,
    {
        let x = b[i];
        r.push(hex_digit(x / 16));
        r.push(hex_digit(x % 16));
        proof {
            assert(b@.take(i + 1).drop_last() =~= b@.take(i as int));
            assert(b@.take(i + 1).last() == b@[i as int]);
            assert(r@ =~= spec_hex_of(b@.take(i + 1)));
        }
        i = i + 1;
    }
    proof {
        assert(b@.take(b@.len() as int) =~= b@);
    }
    r
}

/// The fingerprint of a byte string: its Blake2b-512 digest, hex-encoded
/// lowercase; always 128 characters.
pub open spec fn spec_fingerprint(b: Seq<u8>) -> Seq<char> {
    spec_hex_of(spec_blake2b512(b))
}

/// Computes the fingerprint of the given bytes.
pub fn compute_hash(bytes: &Vec<u8>) -> (r: String)
    ensures
        r@ == spec_fingerprint(bytes@),
        r@.len() == 128,
{
    let digest = blake2b512_digest(bytes);
    let hex = hex_of_bytes(&digest);
    chars_to_string(&hex)
}

/// The PNG file signature.
pub open spec fn spec_png_signature(b: Seq<u8>) -> bool {
    b.len() >= 8 && b[0] == 0x89 && b[1] == 0x50 && b[2] == 0x4e && b[3] == 0x47 && b[4] == 0x0d
        && b[5] == 0x0a && b[6] == 0x1a && b[7] == 0x0a
}

/// The width a PNG's IHDR chunk declares (big-endian, right after the
/// signature and chunk header).
pub open spec fn spec_png_width(b: Seq<u8>) -> int
    recommends
        b.len() >= 24,
{
    b[16] as int * 0x1000000 + b[17] as int * 0x10000 + b[18] as int * 0x100 + b[19] as int
}

/// The height a PNG's IHDR chunk declares.
pub open spec fn spec_png_height(b: Seq<u8>) -> int
    recommends
        b.len() >= 24,
{
    b[20] as int * 0x1000000 + b[21] as int * 0x10000 + b[22] as int * 0x100 + b[23] as int
}

/// What decoding, resizing to fit the given bounds, and re-encoding as PNG
/// yields, as a function of the payload bytes and the bounds alone.
pub uninterp spec fn spec_resized_png(b: Seq<u8>, width: u32, height: u32) -> Option<Seq<u8>>;

/// Relies on `image::load_from_memory`, `DynamicImage::resize` and
/// `DynamicImage::write_to` with the PNG format: decoding and nearest-filter
/// resizing are functions of the bytes and bounds alone; `resize` keeps the
/// aspect ratio and fits both dimensions within the given positive bounds;
/// the PNG encoder writes the PNG signature and an IHDR chunk carrying the
/// encoded image's dimensions.
#[verifier::external_body]
fn resized_png(bytes: &Vec<u8>, width: u32, height: u32) -> (r: Option<Vec<u8>>)
    requires
        width >= 1,
        height >= 1,
    ensures
        (match r {
            Some(v) => spec_resized_png(bytes@, width, height) == Some(v@) && spec_png_signature(
                v@,
            ) && v@.len() >= 24 && spec_png_width(v@) <= width && spec_png_height(v@) <= height,
            None => spec_resized_png(bytes@, width, height) is None,
        }),
{
    let img = match image::load_from_memory(bytes.as_slice()) {
        Ok(i) => i,
        Err(_) => return None,
    };
    let resized = img.resize(width, height, image::imageops::FilterType::Nearest);
    let mut out: Vec<u8> = Vec::new();
    match resized.write_to(&mut std::io::Cursor::new(&mut out), image::ImageFormat::Png) {
        Ok(_) => Some(out),
        Err(_) => None,
    }
}

/// Resizes an image to fit within the given bounds and re-encodes it as PNG.
/// Both bounds must be positive: scaling from the width alone needs
/// floating-point arithmetic and stays outside the verified library.
pub fn resize_image(bytes: &Vec<u8>, width: u32, height: u32) -> (r: Option<Vec<u8>>)
    requires
        width >= 1,
        height >= 1,
    ensures
        (match r {
            Some(v) => spec_resized_png(bytes@, width, height) == Some(v@) && spec_png_signature(
                v@,
            ) && v@.len() >= 24 && spec_png_width(v@) <= width && spec_png_height(v@) <= height,
            None => spec_resized_png(bytes@, width, height) is None,
        }),
{
    resized_png(bytes, width, height)
}

/// Canonicalizes a payload: decode, resize to fit within 250 by 250, and
/// re-encode as PNG. A canonical form is always PNG bytes whose declared
/// dimensions are at most 250 by 250.
pub fn canonicalize_image(bytes: &Vec<u8>) -> (r: Option<Vec<u8>>)
    ensures
        (match r {
            Some(v) => spec_resized_png(bytes@, 250, 250) == Some(v@) && spec_png_signature(v@)
                && v@.len() >= 24 && spec_png_width(v@) <= 250 && spec_png_height(v@) <= 250,
            None => spec_resized_png(bytes@, 250, 250) is None,
        }),
{
    resize_image(bytes, 250, 250)
}

/// Canonicalization and fingerprinting are functions of the payload bytes
/// alone: equal payloads always canonicalize and fingerprint identically.
pub proof fn lemma_fingerprint_deterministic(b1: Seq<u8>, b2: Seq<u8>)
    requires
        b1 == b2,
    ensures
        spec_resized_png(b1, 250, 250) == spec_resized_png(b2, 250, 250),
        spec_fingerprint(b1) == spec_fingerprint(b2),
{
}

} // verus!
