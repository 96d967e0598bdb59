use axum_blueprint::storage::image_preprocessing::validate_mime_type;

#[test]
fn validate_mime_type_accepts_jpeg() {
    assert!(validate_mime_type("image/jpeg").is_ok());
}

#[test]
fn validate_mime_type_accepts_png() {
    assert!(validate_mime_type("image/png").is_ok());
}

#[test]
fn validate_mime_type_accepts_webp() {
    assert!(validate_mime_type("image/webp").is_ok());
}

#[test]
fn validate_mime_type_rejects_pdf() {
    assert!(validate_mime_type("application/pdf").is_err());
}

#[test]
fn validate_mime_type_rejects_svg() {
    assert!(validate_mime_type("image/svg+xml").is_err());
}

#[test]
fn validate_mime_type_rejects_empty_string() {
    assert!(validate_mime_type("").is_err());
}
