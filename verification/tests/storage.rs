use axum_blueprint::app_error::AppError;
use axum_blueprint::storage::cloud::{
    file_exists_answer, presigned_error, presigning_config_error, s3_object_url, s3_public_base,
    storage_error, CloudProvider, HeadFailure, R2Layout, S3Layout,
};
use axum_blueprint::storage::file_preprocess::file_preprocess_cf_worker::CfWorkerFilePreprocessor;
use axum_blueprint::storage::file_preprocess::file_preprocess_local::{
    read_failure_error, resize_dimensions, webp_file_name, LocalFilePreprocessor,
};
use axum_blueprint::storage::file_preprocess::image_codec::ImageReadFailure;
use axum_blueprint::storage::file_preprocess::{
    resolve_key_from_config, strip_extension, validate_mime_type as validate_against, FilePreprocessor,
    PreprocessingConfig,
};
use axum_blueprint::storage::file_preprocess::encryption_utils::{decrypt_file, load_encryption_key};
use axum_blueprint::storage::image_preprocessing::{preprocess_profile_image, validate_mime_type};
use axum_blueprint::storage::localstorage::LocalStorage;
use axum_blueprint::storage::storage_types::{
    build_storage_key, file_name_from_key, storage_key_from_random, presigned_put_result, storage_key_with_id, PresignedUploadConfig,
};
use axum_blueprint::storage::storage_util::{
    file_url_on_update, is_file_field, multipart_read_error, required_file, storage_key_from_url, store_input_plain,
    store_input_profile_image, MultipartCollector, MultipartStage, RawFile,
};
use axum_blueprint::storage::storage_types::StoreFileResult;

fn message(e: AppError) -> String {
    match e {
        AppError::NotFound(m)
        | AppError::Conflict(m)
        | AppError::BadRequest(m)
        | AppError::DatabaseError(m)
        | AppError::SqlxError(m)
        | AppError::Internal(m) => m,
    }
}

fn png_bytes(width: u32, height: u32) -> Vec<u8> {
    let img = image::RgbImage::from_pixel(width, height, image::Rgb([200, 10, 10]));
    let mut out = Vec::new();
    image::DynamicImage::ImageRgb8(img)
        .write_to(&mut std::io::Cursor::new(&mut out), image::ImageFormat::Png)
        .unwrap();
    out
}

#[test]
fn mime_validation_messages() {
    let e = validate_mime_type("application/pdf").unwrap_err();
    assert!(matches!(e, AppError::BadRequest(_)));
    assert_eq!(
        message(e),
        "Unsupported file type 'application/pdf'. Allowed: image/jpeg, image/png, image/webp, image/gif"
    );
    assert!(validate_mime_type("image/gif").is_ok());
    assert!(validate_against("anything/at-all", &[]).is_ok());
    let list = vec!["a/b".to_string(), "c/d".to_string()];
    assert_eq!(message(validate_against("x/y", &list).unwrap_err()), "Unsupported file type 'x/y'. Allowed: a/b, c/d");
}

#[test]
fn file_name_helpers() {
    assert_eq!(strip_extension("photo.jpeg"), Some("photo"));
    assert_eq!(strip_extension("a.b.c"), Some("a.b"));
    assert_eq!(strip_extension("noext"), None);
    assert_eq!(strip_extension(".hidden"), None);
    assert_eq!(webp_file_name("photo.jpeg"), "photo.webp");
    assert_eq!(webp_file_name("noext"), "noext.webp");
    assert_eq!(webp_file_name(".hidden"), ".hidden.webp");
}

#[test]
fn resize_keeps_aspect_ratio() {
    assert_eq!(resize_dimensions(1024, 512, 512), Some((512, 256)));
    assert_eq!(resize_dimensions(512, 1024, 512), Some((256, 512)));
    assert_eq!(resize_dimensions(1000, 333, 512), Some((512, 170)));
    assert_eq!(resize_dimensions(1000, 999, 100), Some((100, 100)));
    assert_eq!(resize_dimensions(100, 100, 512), None);
    assert_eq!(resize_dimensions(600, 600, 0), None);
    assert_eq!(resize_dimensions(u32::MAX, 1, u32::MAX - 1), Some((u32::MAX - 1, 1)));
    assert_eq!(resize_dimensions(11, 22, 15), Some((7, 15)));
    assert_eq!(resize_dimensions(22, 11, 15), Some((15, 7)));
}

fn float_resize(width: u32, height: u32, max_dim: u32) -> Option<(u32, u32)> {
    if max_dim > 0 && (width > max_dim || height > max_dim) {
        let ratio = (max_dim as f64 / width.max(height) as f64).min(1.0);
        Some(((width as f64 * ratio).round() as u32, (height as f64 * ratio).round() as u32))
    } else {
        None
    }
}

#[test]
fn resize_matches_f64_arithmetic() {
    let sides = [1u32, 2, 3, 7, 11, 15, 22, 99, 100, 101, 333, 511, 512, 513, 999, 1000, 1023, 4095, 65537, 1_000_003, u32::MAX];
    for &w in &sides {
        for &h in &sides {
            for &m in &[1u32, 2, 3, 15, 100, 512, 1000, 4096, u32::MAX - 1] {
                assert_eq!(resize_dimensions(w, h, m), float_resize(w, h, m), "{w}x{h} max {m}");
            }
        }
    }
    for w in 1u32..300 {
        for h in [1u32, 17, 150, 299] {
            for m in [7u32, 15, 64, 100] {
                assert_eq!(resize_dimensions(w, h, m), float_resize(w, h, m), "{w}x{h} max {m}");
            }
        }
    }
}

#[test]
fn local_preprocessor_converts_real_image_to_webp() {
    let pre = LocalFilePreprocessor::new();
    let out = pre.preprocess(&png_bytes(1024, 512), "image/png", "big.png").unwrap();
    assert_eq!(out.content_type, "image/webp");
    assert_eq!(out.file_name, "big.webp");
    assert!(!out.is_encrypted);
    let decoded = image::load_from_memory(&out.buffer).unwrap();
    assert_eq!((decoded.width(), decoded.height()), (512, 256));
}

#[test]
fn local_preprocessor_png_passthrough_and_encryption() {
    let config = PreprocessingConfig { convert_to_webp: false, max_dimension: 0, ..Default::default() };
    let pre = LocalFilePreprocessor::with_config(config);
    let out = pre.preprocess(&png_bytes(3, 2), "image/png", "small.png").unwrap();
    assert_eq!(out.content_type, "image/png");
    assert_eq!(out.file_name, "small.png");
    let decoded = image::load_from_memory(&out.buffer).unwrap();
    assert_eq!((decoded.width(), decoded.height()), (3, 2));

    let config = PreprocessingConfig { encrypt_file: true, ..Default::default() };
    let pre = LocalFilePreprocessor::with_config(config);
    let out = pre.preprocess(&png_bytes(4, 4), "image/png", "enc.png").unwrap();
    assert!(out.is_encrypted);
    assert_eq!(out.content_type, "application/octet-stream");
    assert_eq!(out.file_name, "enc.webp");
    let key = pre.resolve_encryption_key().unwrap();
    let plain = decrypt_file(&out.buffer, &key).unwrap();
    assert!(image::load_from_memory(&plain).is_ok());
    assert_eq!(key, load_encryption_key("").unwrap());
}

fn jpeg_bytes(width: u32, height: u32) -> Vec<u8> {
    let img = image::RgbImage::from_pixel(width, height, image::Rgb([10, 120, 200]));
    let mut out = Vec::new();
    image::DynamicImage::ImageRgb8(img)
        .write_to(&mut std::io::Cursor::new(&mut out), image::ImageFormat::Jpeg)
        .unwrap();
    out
}

#[test]
fn local_preprocessor_keeps_the_input_format() {
    let config = PreprocessingConfig { convert_to_webp: false, max_dimension: 0, ..Default::default() };
    let pre = LocalFilePreprocessor::with_config(config);
    let out = pre.preprocess(&jpeg_bytes(6, 4), "image/jpeg", "photo.jpg").unwrap();
    assert_eq!(out.content_type, "image/jpeg");
    assert_eq!(out.file_name, "photo.jpg");
    assert_eq!(image::guess_format(&out.buffer).unwrap(), image::ImageFormat::Jpeg);

    let config = PreprocessingConfig { convert_to_webp: false, max_dimension: 4, ..Default::default() };
    let pre = LocalFilePreprocessor::with_config(config);
    let out = pre.preprocess(&jpeg_bytes(8, 4), "image/jpeg", "big.jpg").unwrap();
    assert_eq!(image::guess_format(&out.buffer).unwrap(), image::ImageFormat::Jpeg);
    let decoded = image::load_from_memory(&out.buffer).unwrap();
    assert_eq!((decoded.width(), decoded.height()), (4, 2));

    let out = pre.preprocess(&png_bytes(3, 2), "image/png", "small.png").unwrap();
    assert_eq!(image::guess_format(&out.buffer).unwrap(), image::ImageFormat::Png);
}

#[test]
fn local_preprocessor_read_errors() {
    let pre = LocalFilePreprocessor::new();
    let e = pre.preprocess(b"not-an-image", "image/png", "x.png").unwrap_err();
    assert!(matches!(e, AppError::BadRequest(_)));
    let m = message(e);
    assert!(m.starts_with("Failed to decode image: ") || m.starts_with("Failed to read image: "), "{m}");
    assert_eq!(
        message(read_failure_error(ImageReadFailure::Read("io".to_string()))),
        "Failed to read image: io"
    );
    assert_eq!(
        message(read_failure_error(ImageReadFailure::Decode("bad".to_string()))),
        "Failed to decode image: bad"
    );
}

#[test]
fn key_resolution_from_config() {
    let k = resolve_key_from_config("", "").unwrap();
    assert_eq!(k, load_encryption_key("").unwrap());
    let hex = "ff".repeat(32);
    assert_eq!(resolve_key_from_config(&hex, "").unwrap(), [0xff; 32]);
    assert_eq!(
        message(resolve_key_from_config("abcd", "").unwrap_err()),
        "encryption_key_hex must be 64 hex chars"
    );
    assert_eq!(
        message(resolve_key_from_config("abc", "").unwrap_err()),
        "Invalid encryption_key_hex: Odd number of digits"
    );
    assert_eq!(
        message(load_encryption_key("abcd").unwrap_err()),
        "FILE_ENCRYPTION_KEY must be exactly 64 hex chars (32 bytes), got 4 chars"
    );
    let env_hex = "01".repeat(32);
    assert_eq!(resolve_key_from_config("", &env_hex).unwrap(), [1u8; 32]);
}

#[test]
fn cf_preprocessor_size_limits() {
    assert_eq!(message(CfWorkerFilePreprocessor::check_file_size(b"").unwrap_err()), "Uploaded file is empty");
    let big = vec![0u8; 10 * 1024 * 1024 + 1];
    assert_eq!(
        message(CfWorkerFilePreprocessor::check_file_size(&big).unwrap_err()),
        "File exceeds maximum size of 10485760 bytes"
    );
    assert!(CfWorkerFilePreprocessor::check_file_size(&big[1..]).is_ok());
}

#[test]
fn profile_image_pipeline() {
    let (bytes, ty) = preprocess_profile_image(&png_bytes(600, 300), "image/png").unwrap();
    assert_eq!(ty, "image/webp");
    let decoded = image::load_from_memory(&bytes).unwrap();
    assert_eq!((decoded.width(), decoded.height()), (512, 256));
    assert!(preprocess_profile_image(b"x", "application/pdf").is_err());

    let file = RawFile { buffer: png_bytes(2, 2), file_name: "me.png".to_string(), content_type: "image/png".to_string() };
    let input = store_input_profile_image(file, "avatars").unwrap();
    assert_eq!(input.file_name, "me.webp");
    assert_eq!(input.content_type, "image/webp");
    assert_eq!(input.directory, "avatars");
}

#[test]
fn storage_keys() {
    assert_eq!(storage_key_with_id("uploads/", "ID", "my photo.png"), "uploads/ID-my_photo.png");
    assert_eq!(storage_key_with_id("a//", "X", "ü/x.png"), "a/X-ü_x.png");
    let key = build_storage_key("gallery", "x y.jpg").unwrap();
    assert!(key.starts_with("gallery/"));
    assert!(key.ends_with("-x_y.jpg"));
    assert_eq!(key.len(), "gallery/".len() + 36 + "-x_y.jpg".len());
    let other = build_storage_key("gallery", "x y.jpg").unwrap();
    assert_eq!(&key["gallery/".len() + 14.."gallery/".len() + 15], "4");
    assert_eq!(
        storage_key_from_random("gallery/", "my photo.png", [0u8; 16]),
        "gallery/00000000-0000-4000-8000-000000000000-my_photo.png"
    );
    assert_eq!(
        storage_key_from_random("d", "a", [0xffu8; 16]),
        "d/ffffffff-ffff-4fff-bfff-ffffffffffff-a"
    );
    assert_ne!(key, other);
    assert_eq!(file_name_from_key(&key).unwrap(), &key["gallery/".len()..]);
    assert_eq!(file_name_from_key("a/b/c.png"), Some("c.png"));
    assert_eq!(file_name_from_key("c.png"), Some("c.png"));
}

#[test]
fn urls_and_keys_roundtrip() {
    let local = LocalStorage::new("./uploads/", "/uploads/");
    assert_eq!(local.full_path("a/b.png"), "./uploads/a/b.png");
    let url = local.get_file_url("a/b.png");
    assert_eq!(url, "/uploads/a/b.png");
    assert_eq!(storage_key_from_url(&url, "/uploads/"), "a/b.png");
    assert_eq!(storage_key_from_url("/other/a.png", "/uploads"), "/other/a.png");
    assert_eq!(storage_key_from_url("/uploadsx/a.png", "/uploads"), "/uploadsx/a.png");
    let stored = local.store_result("k.png".to_string(), "image/png".to_string(), 9);
    assert_eq!((stored.url.as_str(), stored.size), ("/uploads/k.png", 9));
    assert!(message(local.presigned_upload_error()).starts_with("Presigned URLs are not supported"));

    assert_eq!(s3_public_base("bkt", "eu-west-1"), "https://bkt.s3.eu-west-1.amazonaws.com");
    let s3 = s3_object_url("bkt", "eu-west-1", "d/k.png");
    let layout = S3Layout::new("bkt", "eu-west-1");
    assert_eq!(layout.get_file_url("d/k.png"), s3);
    let stored = layout.store_result("d/k.png".to_string(), "image/png".to_string(), 4);
    assert_eq!((stored.key.as_str(), stored.url.as_str(), stored.content_type.as_str(), stored.size), ("d/k.png", s3.as_str(), "image/png", 4));
    assert_eq!(s3, "https://bkt.s3.eu-west-1.amazonaws.com/d/k.png");
    assert_eq!(storage_key_from_url(&s3, &s3_public_base("bkt", "eu-west-1")), "d/k.png");

    let r2 = R2Layout::new("prefix/", "https://pub.example.com/", "https://acct.r2.dev/");
    assert_eq!(r2.build_full_key("d/k.png"), "prefix/d/k.png");
    assert_eq!(r2.get_file_url("d/k.png"), "https://pub.example.com/d/k.png");
    let private = R2Layout::new("", "", "https://acct.r2.dev");
    assert_eq!(private.get_file_url("d/k.png"), "https://acct.r2.dev/d/k.png");
    let prefixed = R2Layout::new("p", "", "https://acct.r2.dev");
    assert_eq!(prefixed.get_file_url("k"), "https://acct.r2.dev/p/k");
}

#[test]
fn cloud_errors_and_existence() {
    assert_eq!(message(storage_error(CloudProvider::S3, "boom")), "S3 storage error: boom");
    assert_eq!(message(storage_error(CloudProvider::R2, "boom")), "R2 storage error: boom");
    assert_eq!(message(presigned_error(CloudProvider::R2, "x")), "R2 presigned URL error: x");
    assert_eq!(message(presigning_config_error("y")), "Presigning config error: y");
    assert_eq!(file_exists_answer(CloudProvider::S3, Ok(())).unwrap(), true);
    let absent = HeadFailure { not_found: true, code: None, message: "m".to_string() };
    assert_eq!(file_exists_answer(CloudProvider::S3, Err(absent)).unwrap(), false);
    let coded = HeadFailure { not_found: false, code: Some("NotFound".to_string()), message: "m".to_string() };
    assert_eq!(file_exists_answer(CloudProvider::R2, Err(coded)).unwrap(), false);
    let failed = HeadFailure { not_found: false, code: Some("AccessDenied".to_string()), message: "denied".to_string() };
    assert_eq!(message(file_exists_answer(CloudProvider::R2, Err(failed)).unwrap_err()), "R2 storage error: denied");
}

#[test]
fn presigned_answers() {
    let r = presigned_put_result("https://u".to_string(), "k".to_string(), "image/png".to_string());
    assert_eq!(r.method, "PUT");
    assert_eq!(r.headers.unwrap(), vec![("Content-Type".to_string(), "image/png".to_string())]);
    let d = PresignedUploadConfig::default();
    assert_eq!((d.directory.as_str(), d.expires_in_secs, d.content_type.as_str()), ("uploads", 3600, ""));
}

#[test]
fn multipart_collection() {
    let mut c = MultipartCollector::new();
    assert_eq!(message(c.on_file("f.png".to_string(), None, vec![]).unwrap_err()), "Uploaded file is empty");
    assert_eq!(
        message(c.on_file("f.png".to_string(), None, vec![0u8; 10 * 1024 * 1024 + 1]).unwrap_err()),
        "File exceeds maximum size of 10485760 bytes"
    );
    c.on_file("first.png".to_string(), None, vec![1]).unwrap();
    c.on_file("second.png".to_string(), Some("image/png".to_string()), vec![2]).unwrap();
    c.on_text("title".to_string(), "  Hello \n");
    c.on_text("title".to_string(), " again ");
    let (file, fields) = c.finish(true).unwrap();
    let file = file.unwrap();
    assert_eq!(file.file_name, "first.png");
    assert_eq!(file.content_type, "application/octet-stream");
    assert_eq!(file.buffer, vec![1]);
    assert_eq!(fields.get("title"), Some("again".to_string()));
    assert_eq!(fields.get("missing"), None);

    let empty = MultipartCollector::new();
    assert_eq!(message(empty.finish(true).unwrap_err()), "No file found in upload");
    assert_eq!(message(required_file(None).unwrap_err()), "No file found in upload");
    let f = RawFile { buffer: vec![7], file_name: "n".to_string(), content_type: "t".to_string() };
    assert_eq!(required_file(Some(f)).unwrap().buffer, vec![7]);
    let (none, _) = MultipartCollector::new().finish(false).unwrap();
    assert!(none.is_none());

    assert!(is_file_field(Some("a.png")));
    assert!(!is_file_field(Some("")));
    assert!(!is_file_field(None));
    assert_eq!(message(multipart_read_error(MultipartStage::NextField, "f", "eof")), "Multipart error: eof");
    assert_eq!(message(multipart_read_error(MultipartStage::FileBytes, "f", "eof")), "File read error: eof");
    assert_eq!(message(multipart_read_error(MultipartStage::FieldText, "name", "utf8")), "Invalid field 'name': utf8");
}

#[test]
fn url_update_on_replacement() {
    let new_result = StoreFileResult {
        key: "d/new.png".to_string(),
        url: "/uploads/d/new.png".to_string(),
        content_type: "image/png".to_string(),
        size: 1,
    };
    let upd = file_url_on_update("/uploads", "/uploads/d/old.png", Some(&new_result));
    assert_eq!(upd.url, "/uploads/d/new.png");
    assert_eq!(upd.delete_key, Some("d/old.png".to_string()));
    let keep = file_url_on_update("/uploads", "/uploads/d/old.png", None);
    assert_eq!(keep.url, "/uploads/d/old.png");
    assert_eq!(keep.delete_key, None);

    let input = store_input_plain(
        RawFile { buffer: vec![1, 2], file_name: "a".to_string(), content_type: "t/x".to_string() },
        "docs",
    );
    assert_eq!((input.buffer, input.file_name.as_str(), input.content_type.as_str(), input.directory.as_str()), (vec![1, 2], "a", "t/x", "docs"));
}
