use axum_blueprint::worker::encryption::{decrypt_file, encrypt_file, load_encryption_key, seal_with_nonce};
use axum_blueprint::worker::upload::{
    cors_headers, encryption_marker, plan_upload, public_url_base, route_request, uuid_v4, validate_upload, WorkerFile, WorkerMethod, WorkerRoute,
    WorkerUploadForm, MAX_FILE_SIZE,
};

const KEY_HEX: &str = "000102030405060708090a0b0c0d0e0f101112131415161718191a1b1c1d1e1f";

fn jpeg_file(bytes: &[u8]) -> WorkerFile {
    WorkerFile {
        bytes: bytes.to_vec(),
        file_name: "photo".to_string(),
        content_type: "image/jpeg".to_string(),
    }
}

#[test]
fn worker_routes_requests() {
    assert!(matches!(route_request(WorkerMethod::Options, "/anything"), WorkerRoute::Preflight));
    assert!(matches!(route_request(WorkerMethod::Get, "/"), WorkerRoute::Health));
    assert!(matches!(route_request(WorkerMethod::Get, "/other"), WorkerRoute::NotFound));
    assert!(matches!(route_request(WorkerMethod::Post, "/upload"), WorkerRoute::Upload));
    assert!(matches!(route_request(WorkerMethod::Post, "/"), WorkerRoute::NotFound));
    match route_request(WorkerMethod::Delete, "//uploads/abc") {
        WorkerRoute::Delete(key) => assert_eq!(key, "uploads/abc"),
        other => panic!("unexpected route {:?}", other),
    }
    assert!(matches!(route_request(WorkerMethod::Other, "/"), WorkerRoute::NotFound));
}

#[test]
fn worker_form_keeps_last_file_and_nonempty_directory() {
    let mut form = WorkerUploadForm::new();
    assert_eq!(form.directory, "uploads");
    form.add_file("first".to_string(), vec![1, 2], None);
    form.add_field("directory", "".to_string());
    assert_eq!(form.directory, "uploads");
    form.add_field("other", "x".to_string());
    assert_eq!(form.directory, "uploads");
    form.add_field("directory", "avatars/".to_string());
    form.add_file("second".to_string(), vec![3], Some("image/png".to_string()));
    assert_eq!(form.directory, "avatars/");
    let f = form.file.as_ref().unwrap();
    assert_eq!(f.bytes, vec![3]);
    assert_eq!(f.file_name, "second");
    assert_eq!(f.content_type, "image/png");

    let mut form2 = WorkerUploadForm::new();
    form2.add_file("a".to_string(), vec![9], None);
    assert_eq!(form2.file.as_ref().unwrap().content_type, "application/octet-stream");
}

#[test]
fn worker_validation_errors() {
    let e = validate_upload(WorkerUploadForm::new()).err().unwrap();
    assert_eq!((e.status, e.message.as_str()), (400, "No file found in upload"));

    let mut empty = WorkerUploadForm::new();
    empty.add_file("f".to_string(), vec![], Some("image/png".to_string()));
    let e = validate_upload(empty).err().unwrap();
    assert_eq!((e.status, e.message.as_str()), (400, "Uploaded file is empty"));

    let mut big = WorkerUploadForm::new();
    big.add_file("f".to_string(), vec![0u8; MAX_FILE_SIZE + 1], Some("image/png".to_string()));
    let e = validate_upload(big).err().unwrap();
    assert_eq!(e.message, "File exceeds max size of 10485760 bytes");

    let mut pdf = WorkerUploadForm::new();
    pdf.add_file("f".to_string(), vec![1], Some("application/pdf".to_string()));
    let e = validate_upload(pdf).err().unwrap();
    assert_eq!(
        e.message,
        "Unsupported file type 'application/pdf'. Allowed: image/jpeg, image/png, image/webp, image/gif"
    );

    let mut gif = WorkerUploadForm::new();
    gif.add_file("f".to_string(), vec![1; MAX_FILE_SIZE], Some("image/gif".to_string()));
    assert!(validate_upload(gif).is_ok());
}

#[test]
fn worker_plan_without_key_stores_as_received() {
    let plan = plan_upload(jpeg_file(b"abc"), "uploads//", None, "0123", "https://cdn.example.com/").unwrap();
    assert_eq!(plan.key, "uploads/0123");
    assert_eq!(plan.url, "https://cdn.example.com/uploads/0123");
    assert_eq!(plan.body, b"abc");
    assert_eq!(plan.store_content_type, "image/jpeg");
    assert!(!plan.is_encrypted);
    assert_eq!(plan.size, 3);
    assert_eq!(plan.content_type, "image/jpeg");

    // An invalid key is treated like no key.
    let plan = plan_upload(jpeg_file(b"abc"), "uploads", Some("zz"), "id", "https://x").unwrap();
    assert!(!plan.is_encrypted);
    assert_eq!(plan.body, b"abc");
}

#[test]
fn worker_plan_with_key_encrypts() {
    let plan = plan_upload(jpeg_file(b"secret image"), "uploads", Some(KEY_HEX), "id", "https://x").unwrap();
    assert!(plan.is_encrypted);
    assert_eq!(plan.store_content_type, "application/octet-stream");
    assert_eq!(plan.content_type, "image/jpeg");
    assert_eq!(plan.size, 12);
    assert_eq!(plan.body.len(), 12 + 28);
    let key = load_encryption_key(Some(KEY_HEX)).unwrap();
    assert_eq!(decrypt_file(&plan.body, &key).unwrap(), b"secret image");
}

#[test]
fn worker_key_loading_messages() {
    assert_eq!(
        load_encryption_key(None).unwrap_err(),
        "FILE_ENCRYPTION_KEY environment variable not set"
    );
    assert_eq!(
        load_encryption_key(Some("abc")).unwrap_err(),
        "FILE_ENCRYPTION_KEY is not valid hex: Odd number of digits"
    );
    assert_eq!(
        load_encryption_key(Some("abcd")).unwrap_err(),
        "FILE_ENCRYPTION_KEY must be exactly 64 hex chars, got 4"
    );
    let key = load_encryption_key(Some(KEY_HEX)).unwrap();
    assert_eq!(key[0], 0);
    assert_eq!(key[31], 0x1f);
}

#[test]
fn worker_encryption_roundtrip_and_failures() {
    let key = load_encryption_key(Some(KEY_HEX)).unwrap();
    let c = encrypt_file(b"hello", &key).unwrap();
    assert_eq!(c.len(), 5 + 28);
    assert_ne!(&c[12..17], b"hello");
    assert_eq!(decrypt_file(&c, &key).unwrap(), b"hello");

    assert_eq!(decrypt_file(b"short", &key).unwrap_err(), "Ciphertext too short");
    let mut wrong = key;
    wrong[5] ^= 0x80;
    assert_eq!(
        decrypt_file(&c, &wrong).unwrap_err(),
        "Decryption failed: file corrupt or wrong key"
    );
}

#[test]
fn worker_object_id_is_padded_hex() {
    assert_eq!(uuid_v4(0), "00000000000000000000000000000000");
    assert_eq!(uuid_v4(255), "000000000000000000000000000000ff");
    assert_eq!(uuid_v4(u128::MAX), "ffffffffffffffffffffffffffffffff");
    assert_eq!(uuid_v4(0x1234_abcd), format!("{:032x}", 0x1234_abcdu128));
}

#[test]
fn worker_sealing_with_a_given_nonce() {
    let key = load_encryption_key(Some(KEY_HEX)).unwrap();
    let nonce = [7u8; 12];
    let a = seal_with_nonce(b"payload", &key, &nonce).unwrap();
    let b = seal_with_nonce(b"payload", &key, &nonce).unwrap();
    assert_eq!(a, b);
    assert_eq!(&a[..12], &nonce);
    assert_eq!(a.len(), 7 + 28);
    assert_eq!(decrypt_file(&a, &key).unwrap(), b"payload");
}

#[test]
fn worker_response_pieces() {
    assert_eq!(public_url_base(None), "https://pub-<your-id>.r2.dev");
    assert_eq!(public_url_base(Some("https://files.example")), "https://files.example");
    assert_eq!(encryption_marker(true), "true");
    assert_eq!(encryption_marker(false), "false");
    let h = cors_headers();
    assert_eq!(h.len(), 3);
    assert_eq!(h[0], ("Access-Control-Allow-Origin".to_string(), "*".to_string()));
    assert_eq!(h[1].1, "GET, POST, DELETE, OPTIONS");
    assert_eq!(h[2], ("Access-Control-Allow-Headers".to_string(), "Content-Type".to_string()));
}
