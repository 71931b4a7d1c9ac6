use pamaxie_api::http_api::{compute_media_content, detect_route, get_hash_reply, DetectRoute};
use pamaxie_api::media::{canonicalize_image, compute_hash, get_image_extension, resize_image};

fn png_bytes(w: u32, h: u32) -> Vec<u8> {
    let img = image::RgbaImage::from_pixel(w, h, image::Rgba([255, 0, 0, 255]));
    let dynimg = image::DynamicImage::ImageRgba8(img);
    let mut out: Vec<u8> = Vec::new();
    dynimg
        .write_to(&mut std::io::Cursor::new(&mut out), image::ImageFormat::Png)
        .expect("encoding a fresh image must work");
    out
}

fn ihdr_width(b: &[u8]) -> u32 {
    u32::from_be_bytes([b[16], b[17], b[18], b[19]])
}

fn ihdr_height(b: &[u8]) -> u32 {
    u32::from_be_bytes([b[20], b[21], b[22], b[23]])
}

const PNG_SIG: [u8; 8] = [0x89, 0x50, 0x4e, 0x47, 0x0d, 0x0a, 0x1a, 0x0a];

#[test]
fn extension_sniff_matches_magic() {
    let png = vec![0x89u8, 0x50, 0x4e, 0x47, 0x0d, 0x0a];
    assert_eq!(get_image_extension(&png), Some("png".to_string()));
    let jpg = vec![0xffu8, 0xd8, 0xff, 0xe0];
    assert_eq!(get_image_extension(&jpg), Some("jpg".to_string()));
    let jp2 = vec![
        0x00u8, 0x00, 0x00, 0x0c, 0x6a, 0x50, 0x20, 0x20, 0x0d, 0x0a, 0x87, 0x0a, 0x00, 0x00,
    ];
    assert_eq!(get_image_extension(&jp2), Some("jpg".to_string()));
    let gif = vec![0x47u8, 0x49, 0x46, 0x38, 0x39, 0x61];
    assert_eq!(get_image_extension(&gif), Some("gif".to_string()));
    let webp = vec![
        0x52u8, 0x49, 0x46, 0x46, 0x00, 0x00, 0x00, 0x00, 0x57, 0x45, 0x42, 0x50,
    ];
    assert_eq!(get_image_extension(&webp), Some("webp".to_string()));
    let other = vec![1u8, 2, 3, 4, 5, 6, 7, 8, 9, 10, 11, 12, 13];
    assert_eq!(get_image_extension(&other), Some("png".to_string()));
}

#[test]
fn fingerprint_of_hello() {
    let r = compute_hash(&b"hello".to_vec());
    assert_eq!(r.len(), 128);
    assert_eq!(
        r,
        "e4cfa39a3d37be31c59609e807970799caa68a19bfaa15135f165085e01d41a65ba1e1b146aeb6bd0092b49eac214c103ccfa3a365954bbbe52f74a2b3620c94"
    );
}

#[test]
fn fingerprint_is_deterministic_and_input_sensitive() {
    let a = compute_hash(&b"hello".to_vec());
    let b = compute_hash(&b"hello".to_vec());
    assert_eq!(a, b);
    let c = compute_hash(&b"hellp".to_vec());
    assert_ne!(a, c);
}

#[test]
fn canonical_form_fits_the_bounds() {
    let big = png_bytes(300, 40);
    assert_eq!(ihdr_width(&big), 300);
    let canon = canonicalize_image(&big).expect("a valid PNG must canonicalize");
    assert_eq!(&canon[0..8], &PNG_SIG);
    assert!(ihdr_width(&canon) <= 250);
    assert!(ihdr_height(&canon) <= 250);
    assert_ne!(ihdr_width(&canon), 300);
}

#[test]
fn tiny_image_still_yields_png() {
    let tiny = png_bytes(1, 1);
    let canon = canonicalize_image(&tiny).expect("a 1x1 PNG must canonicalize");
    assert_eq!(&canon[0..8], &PNG_SIG);
    assert!(ihdr_width(&canon) <= 250);
    assert!(ihdr_height(&canon) <= 250);
}

#[test]
fn resize_honours_other_bounds() {
    let big = png_bytes(120, 120);
    let small = resize_image(&big, 30, 30).expect("resize must work on a PNG");
    assert!(ihdr_width(&small) <= 30);
    assert!(ihdr_height(&small) <= 30);
}

#[test]
fn junk_does_not_canonicalize() {
    let mut junk: Vec<u8> = Vec::new();
    for i in 0..1024u32 {
        junk.push((i.wrapping_mul(31).wrapping_add(7) % 251) as u8);
    }
    assert!(canonicalize_image(&junk).is_none());
}

#[test]
fn png_routes_to_the_scanner() {
    let png = png_bytes(4, 4);
    assert_eq!(detect_route(&png), DetectRoute::ScanImage);
}

#[test]
fn audio_is_unsupported() {
    let mut mp3 = vec![0x49u8, 0x44, 0x33, 0x04, 0x00, 0x00, 0x00, 0x00, 0x00, 0x00];
    mp3.extend(std::iter::repeat(0u8).take(64));
    assert_eq!(detect_route(&mp3), DetectRoute::Unsupported);
    let reply = compute_media_content(&mp3);
    assert_eq!(reply.status, 501);
    assert_eq!(reply.body, "We do not support this media type yet.");
}

#[test]
fn unrecognized_bytes_route_to_incorrect() {
    let noise = vec![0x13u8, 0x07, 0x21, 0x05, 0x00, 0x00, 0x00, 0x00, 0x00, 0x00, 0x00, 0x00, 0x00];
    assert_eq!(detect_route(&noise), DetectRoute::Incorrect);
}

#[test]
fn media_summary_for_an_image() {
    let png = png_bytes(2, 2);
    let hash = compute_hash(&png);
    let reply = compute_media_content(&png);
    assert_eq!(reply.status, 200);
    let expected = format!(
        "{{\"key\":\"{}\",\"data_type\":\"image\",\"scan_machine_guid\":\"\",\"is_user_scan\":false,\"scan_result\":\"\",\"ttl\":0}}",
        hash
    );
    assert_eq!(reply.body, expected);
}

#[test]
fn raw_hash_endpoint_hashes_the_exact_bytes() {
    let reply = get_hash_reply(&b"hello".to_vec());
    assert_eq!(reply.status, 200);
    assert_eq!(reply.body.len(), 128);
    assert!(reply.body.starts_with("e4cfa39a3d37be31c59609e807970799"));
    let canonical_hash = compute_hash(&png_bytes(2, 2));
    assert_ne!(reply.body, canonical_hash);
}
