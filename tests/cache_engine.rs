use gallery_thumbs::error::ThumbError;
use gallery_thumbs::generator::{generate, needs_downscale, WEBP_MAX_SIDE};
use gallery_thumbs::invalidate::{count_removed, invalidation_targets, THUMBNAIL_SIZE};
use gallery_thumbs::key::{key_material_bytes, to_hex};
use gallery_thumbs::listing::{is_image_path, is_vector_path, mime_for_ext, select_images};
use gallery_thumbs::media::{clipboard_png, image_data_url};
use gallery_thumbs::naming::{clipboard_file_name, collision_name, decimal, import_candidate};
use gallery_thumbs::service::{Action, Event, Found, Lookup, Stage};
use gallery_thumbs::store::{cache_entry_name, entry_file_name};
use image::GenericImageView;
use sha2::{Digest, Sha256};

fn png_of_size(width: u32, height: u32) -> Vec<u8> {
    let img = image::DynamicImage::ImageRgb8(image::RgbImage::new(width, height));
    let mut buf: Vec<u8> = Vec::new();
    img.write_to(std::io::Cursor::new(&mut buf), image::ImageFormat::Png).unwrap();
    buf
}

#[test]
fn derive_is_deterministic() {
    let a = gallery_thumbs::key::derive("/pics/photo.jpg", 1_700_000_000_123, 400);
    let b = gallery_thumbs::key::derive("/pics/photo.jpg", 1_700_000_000_123, 400);
    assert_eq!(a, b);
    assert_eq!(a.len(), 64);
    assert!(a.chars().all(|c| c.is_ascii_digit() || ('a'..='f').contains(&c)));
}

#[test]
fn derive_matches_streamed_digest() {
    let path = "/pics/photo.jpg";
    let modified: u128 = 1_700_000_000_123;
    let size: u32 = 400;
    let mut hasher = Sha256::new();
    hasher.update(path.as_bytes());
    hasher.update(modified.to_le_bytes());
    hasher.update(size.to_le_bytes());
    let expected = format!("{:x}", hasher.finalize());
    assert_eq!(gallery_thumbs::key::derive(path, modified, size), expected);
}

#[test]
fn derive_empty_path_known_value() {
    let mut material: Vec<u8> = Vec::new();
    material.extend_from_slice(&0u128.to_le_bytes());
    material.extend_from_slice(&0u32.to_le_bytes());
    let expected = format!("{:x}", Sha256::digest(&material));
    assert_eq!(gallery_thumbs::key::derive("", 0, 0), expected);
}

#[test]
fn derive_is_sensitive_to_each_input() {
    let keys = vec![
        gallery_thumbs::key::derive("/pics/a.jpg", 1000, 400),
        gallery_thumbs::key::derive("/pics/b.jpg", 1000, 400),
        gallery_thumbs::key::derive("/pics/a.jpg", 1001, 400),
        gallery_thumbs::key::derive("/pics/a.jpg", 1000, 401),
        gallery_thumbs::key::derive("/pics/a.jpg", 1000, 200),
        gallery_thumbs::key::derive("/Pics/a.jpg", 1000, 400),
    ];
    for i in 0..keys.len() {
        for j in (i + 1)..keys.len() {
            assert_ne!(keys[i], keys[j]);
        }
    }
}

#[test]
fn key_material_layout() {
    let bytes = key_material_bytes("ab", 0x0102, 0x0304_0506);
    let mut expected: Vec<u8> = vec![b'a', b'b', 0x02, 0x01];
    expected.extend_from_slice(&[0u8; 14]);
    expected.extend_from_slice(&[0x06, 0x05, 0x04, 0x03]);
    assert_eq!(bytes, expected);
    assert_eq!(key_material_bytes("é", 0, 0).len(), 2 + 20);
}

#[test]
fn hex_is_lowercase_two_digits_per_byte() {
    assert_eq!(to_hex(&[0x00, 0xff, 0x1a, 0x09]), "00ff1a09");
    assert_eq!(to_hex(&[]), "");
}

#[test]
fn entry_names() {
    assert_eq!(entry_file_name("abc"), "abc.webp");
    let key = gallery_thumbs::key::derive("/p/x.png", 5, 400);
    assert_eq!(cache_entry_name("/p/x.png", 5, 400), format!("{}.webp", key));
}

#[test]
fn image_extensions_any_case() {
    assert!(is_image_path("/p/a.JPG"));
    assert!(is_image_path("/p/a.jpeg"));
    assert!(is_image_path("/p/a.Tif"));
    assert!(is_image_path("/p/a.avif"));
    assert!(!is_image_path("/p/a.txt"));
    assert!(!is_image_path("/p/noext"));
    assert!(!is_image_path("/p/.png"));
}

#[test]
fn vector_detection() {
    assert!(is_vector_path("icon.svg"));
    assert!(is_vector_path("/x/ICON.SVG"));
    assert!(!is_vector_path("photo.jpg"));
    assert!(!is_vector_path("svg"));
}

#[test]
fn select_filters_and_sorts() {
    let files = vec![
        "/d/zeta.png".to_string(),
        "/d/notes.txt".to_string(),
        "/d/Alpha.JPG".to_string(),
        "/d/beta.svg".to_string(),
        "/d/README".to_string(),
    ];
    let picked = select_images(files);
    assert_eq!(picked, vec!["/d/Alpha.JPG".to_string(), "/d/beta.svg".to_string(), "/d/zeta.png".to_string()]);
    assert!(select_images(Vec::new()).is_empty());
}

#[test]
fn mime_types() {
    assert_eq!(mime_for_ext("jpg"), "image/jpeg");
    assert_eq!(mime_for_ext("jpeg"), "image/jpeg");
    assert_eq!(mime_for_ext("png"), "image/png");
    assert_eq!(mime_for_ext("gif"), "image/gif");
    assert_eq!(mime_for_ext("webp"), "image/webp");
    assert_eq!(mime_for_ext("svg"), "image/svg+xml");
    assert_eq!(mime_for_ext("bmp"), "image/bmp");
    assert_eq!(mime_for_ext("tif"), "image/tiff");
    assert_eq!(mime_for_ext("tiff"), "image/tiff");
    assert_eq!(mime_for_ext("avif"), "image/avif");
    assert_eq!(mime_for_ext("txt"), "application/octet-stream");
    assert_eq!(mime_for_ext(""), "application/octet-stream");
}

#[test]
fn downscale_decision() {
    assert!(!needs_downscale(200, 150, 400));
    assert!(!needs_downscale(400, 400, 400));
    assert!(needs_downscale(401, 10, 400));
    assert!(needs_downscale(10, 2000, 400));
}

#[test]
fn small_source_keeps_its_size() {
    let thumb = generate(&png_of_size(200, 150), 400).unwrap();
    assert_eq!((thumb.width, thumb.height), (200, 150));
    let back = image::load_from_memory(&thumb.bytes).unwrap();
    assert_eq!(back.dimensions(), (200, 150));
    assert_eq!(image::guess_format(&thumb.bytes).unwrap(), image::ImageFormat::WebP);
}

#[test]
fn large_source_is_fitted_to_bound() {
    let thumb = generate(&png_of_size(2000, 1000), 400).unwrap();
    let back = image::load_from_memory(&thumb.bytes).unwrap();
    assert_eq!(back.dimensions(), (400, 200));
    assert_eq!((thumb.width, thumb.height), (400, 200));
}

#[test]
fn tall_source_is_fitted_to_bound() {
    let thumb = generate(&png_of_size(300, 900), 400).unwrap();
    assert_eq!((thumb.width, thumb.height), (133, 400));
}

#[test]
fn corrupt_source_is_a_decode_error() {
    let r = generate(b"definitely not an image", 400);
    assert!(matches!(r, Err(ThumbError::Decode(_))));
    assert!(matches!(generate(&[], 400), Err(ThumbError::Decode(_))));
}

fn drive(lookup: &mut Lookup, events: Vec<Event>) -> Vec<Action> {
    let mut actions = Vec::new();
    for e in events {
        actions.push(lookup.advance(e));
    }
    actions
}

#[test]
fn repeat_request_generates_once() {
    let mut first = Lookup::new("photo.jpg".to_string(), 400);
    assert_eq!(first.stage, Stage::CheckSource);
    let a = drive(
        &mut first,
        vec![Event::SourceChecked(true), Event::TimeRead(Ok(77)), Event::Probed(false), Event::Filled(Ok(()))],
    );
    assert!(matches!(a[0], Action::ReadTime));
    assert!(matches!(a[1], Action::Probe));
    assert!(matches!(a[2], Action::Fill));
    assert!(matches!(a[3], Action::Done(Ok(Found::Cached))));
    assert_eq!(first.entry, cache_entry_name("photo.jpg", 77, 400));

    let mut second = Lookup::new("photo.jpg".to_string(), 400);
    let b = drive(&mut second, vec![Event::SourceChecked(true), Event::TimeRead(Ok(77)), Event::Probed(true)]);
    assert!(matches!(b[2], Action::Done(Ok(Found::Cached))));
    assert!(!b.iter().any(|x| matches!(x, Action::Fill)));
    assert_eq!(second.entry, first.entry);
    assert_eq!(second.stage, Stage::Done);
}

#[test]
fn vector_request_returns_source() {
    let mut l = Lookup::new("icon.svg".to_string(), 400);
    let a = l.advance(Event::SourceChecked(true));
    assert!(matches!(a, Action::Done(Ok(Found::Source))));
    assert_eq!(l.entry, "");
    assert_eq!(l.stage, Stage::Done);
}

#[test]
fn missing_source_is_invalid_input() {
    let mut l = Lookup::new("gone.jpg".to_string(), 400);
    assert!(matches!(l.advance(Event::SourceChecked(false)), Action::Done(Err(ThumbError::InvalidInput))));
}

#[test]
fn time_error_is_passed_on() {
    let mut l = Lookup::new("a.png".to_string(), 400);
    l.advance(Event::SourceChecked(true));
    assert!(matches!(l.advance(Event::TimeRead(Err(ThumbError::Time))), Action::Done(Err(ThumbError::Time))));
}

#[test]
fn fill_error_is_passed_on() {
    let mut l = Lookup::new("a.png".to_string(), 400);
    l.advance(Event::SourceChecked(true));
    l.advance(Event::TimeRead(Ok(1)));
    l.advance(Event::Probed(false));
    let a = l.advance(Event::Filled(Err(ThumbError::Io("disk full".to_string()))));
    assert!(matches!(a, Action::Done(Err(ThumbError::Io(_)))));
}

#[test]
fn event_out_of_order_is_refused() {
    let mut l = Lookup::new("a.png".to_string(), 400);
    assert!(matches!(l.advance(Event::Probed(true)), Action::Done(Err(ThumbError::OutOfOrder))));
    assert!(matches!(l.advance(Event::SourceChecked(true)), Action::Done(Err(ThumbError::OutOfOrder))));
}

#[test]
fn invalidation_covers_raster_images_only() {
    let images = vec![
        "/c/a.png".to_string(),
        "/c/b.jpg".to_string(),
        "/c/c.gif".to_string(),
        "/c/d.svg".to_string(),
        "/c/e.bmp".to_string(),
    ];
    let modified = vec![Some(10), Some(20), Some(30), Some(40), None];
    let targets = invalidation_targets(&images, &modified);
    assert_eq!(
        targets,
        vec![
            cache_entry_name("/c/a.png", 10, THUMBNAIL_SIZE),
            cache_entry_name("/c/b.jpg", 20, THUMBNAIL_SIZE),
            cache_entry_name("/c/c.gif", 30, THUMBNAIL_SIZE),
        ]
    );
    assert_eq!(count_removed(&vec![true, true, true]), 3);
    let outside = cache_entry_name("/elsewhere/a.png", 10, THUMBNAIL_SIZE);
    assert!(!targets.contains(&outside));
    assert!(!targets.contains(&cache_entry_name("/c/a.png", 11, THUMBNAIL_SIZE)));
}

#[test]
fn removal_count() {
    assert_eq!(count_removed(&vec![]), 0);
    assert_eq!(count_removed(&vec![true, false, true, false]), 2);
    assert_eq!(THUMBNAIL_SIZE, 400);
}

#[test]
fn numbered_names_for_collisions() {
    assert_eq!(collision_name("photo", "jpg", 1), "photo_1.jpg");
    assert_eq!(collision_name("photo", "jpg", 12), "photo_12.jpg");
    assert_eq!(collision_name("notes", "", 2), "notes_2");
    assert_ne!(collision_name("photo", "jpg", 1), collision_name("photo", "jpg", 2));
    assert_ne!(collision_name("photo", "jpg", 1), "photo.jpg");
}

#[test]
fn decimal_forms() {
    assert_eq!(decimal(0), "0");
    assert_eq!(decimal(7), "7");
    assert_eq!(decimal(10), "10");
    assert_eq!(decimal(1_700_000_000_123), "1700000000123");
    assert_eq!(decimal(u128::MAX), u128::MAX.to_string());
}

#[test]
fn clipboard_names() {
    assert_eq!(clipboard_file_name(1_700_000_000_123), "clipboard_1700000000123.png");
    assert_eq!(clipboard_file_name(0), "clipboard_0.png");
}

#[test]
fn data_urls() {
    assert_eq!(image_data_url("/p/a.PNG", b"hi"), "data:image/png;base64,aGk=");
    assert_eq!(image_data_url("/p/a.jpg", b"abc"), "data:image/jpeg;base64,YWJj");
    assert_eq!(image_data_url("/p/noext", b""), "data:image/png;base64,");
    assert_eq!(image_data_url("/p/a.xyz", b"a"), "data:application/octet-stream;base64,YQ==");
}

#[test]
fn pasted_pixels_become_png() {
    let rgba = vec![255u8, 0, 0, 255, 0, 255, 0, 255];
    let png = clipboard_png(&rgba, 2, 1).unwrap();
    let back = image::load_from_memory(&png).unwrap();
    assert_eq!(back.dimensions(), (2, 1));
    assert_eq!(image::guess_format(&png).unwrap(), image::ImageFormat::Png);
}

#[test]
fn pasted_pixels_of_wrong_length_are_refused() {
    assert!(matches!(clipboard_png(&[1, 2, 3], 1, 1), Err(ThumbError::InvalidInput)));
    assert!(matches!(clipboard_png(&[], 1, 0), Ok(_) | Err(ThumbError::Encode(_))));
}

#[test]
fn import_candidates_in_order() {
    assert_eq!(import_candidate("photo.jpg", "photo", "jpg", 0), "photo.jpg");
    assert_eq!(import_candidate("photo.jpg", "photo", "jpg", 1), "photo_1.jpg");
    assert_eq!(import_candidate("photo.jpg", "photo", "jpg", 2), "photo_2.jpg");
    assert_eq!(import_candidate("notes", "notes", "", 3), "notes_3");
}

#[test]
fn square_source_fitted_exactly() {
    let thumb = generate(&png_of_size(1000, 1000), 400).unwrap();
    assert_eq!((thumb.width, thumb.height), (400, 400));
}

#[test]
fn one_pixel_source_is_encoded() {
    let thumb = generate(&png_of_size(1, 1), 400).unwrap();
    assert_eq!((thumb.width, thumb.height), (1, 1));
    assert_eq!(WEBP_MAX_SIDE, 16384);
}

#[test]
fn data_url_of_three_bytes() {
    assert_eq!(image_data_url("/p/a.gif", b"abcd"), "data:image/gif;base64,YWJjZA==");
    assert_eq!(image_data_url("/p/a.webp", b"abcde"), "data:image/webp;base64,YWJjZGU=");
}
