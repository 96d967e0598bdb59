use axum_blueprint::app_error::AppError;
use axum_blueprint::storage::file_preprocess::file_preprocess_aws_lambda::AwsLambdaFilePreprocessor;
use axum_blueprint::storage::file_preprocess::file_preprocess_cf_worker::CfWorkerFilePreprocessor;
use axum_blueprint::storage::file_preprocess::file_preprocess_local::LocalFilePreprocessor;
use axum_blueprint::storage::file_preprocess::{FilePreprocessor, PreprocessingConfig};

#[test]
fn lambda_preprocessor_rejects_pdf() {
    let pre = AwsLambdaFilePreprocessor::new();
    let result = pre.preprocess(b"fake-pdf-content", "application/pdf", "doc.pdf");
    assert!(result.is_err());
}

#[test]
fn lambda_preprocessor_mime_accepts_jpeg() {
    let pre = AwsLambdaFilePreprocessor::new();
    let result = pre.preprocess(b"not-a-real-image", "image/jpeg", "test.jpg");
    assert!(result.is_err());
}

#[test]
fn lambda_preprocessor_with_custom_config() {
    let config = PreprocessingConfig {
        max_dimension: 100,
        ..Default::default()
    };
    let pre = AwsLambdaFilePreprocessor::with_config(config);
    let result = pre.preprocess(b"not-a-real-image", "image/jpeg", "test.jpg");
    assert!(result.is_err());
}

#[test]
fn cf_preprocessor_rejects_pdf() {
    let pre = CfWorkerFilePreprocessor::new();
    let result = pre.preprocess(b"fake-pdf", "application/pdf", "doc.pdf");
    assert!(result.is_err());
}

#[test]
fn cf_preprocessor_accepts_jpeg() {
    let pre = CfWorkerFilePreprocessor::new();
    let result = pre.preprocess(b"fake-jpeg-bytes", "image/jpeg", "photo.jpg");
    assert!(result.is_ok());
    let processed = result.unwrap();
    assert_eq!(processed.content_type, "image/jpeg");
    assert_eq!(processed.file_name, "photo.jpg");
    assert_eq!(processed.buffer, b"fake-jpeg-bytes");
}

#[test]
fn cf_preprocessor_rejects_empty_file() {
    let pre = CfWorkerFilePreprocessor::new();
    let result = pre.preprocess(b"", "image/jpeg", "empty.jpg");
    assert!(result.is_err());
}

#[test]
fn cf_preprocessor_allows_custom_config() {
    let config = PreprocessingConfig {
        allowed_mime_types: vec!["image/png".into()],
        ..Default::default()
    };
    let pre = CfWorkerFilePreprocessor::with_config(config);
    assert!(pre.preprocess(b"fake-png", "image/png", "img.png").is_ok());
    assert!(pre.preprocess(b"fake-jpeg", "image/jpeg", "img.jpg").is_err());
}

#[test]
fn local_preprocessor_rejects_pdf() {
    let pre = LocalFilePreprocessor::new();
    let result = pre.preprocess(b"fake-pdf-content", "application/pdf", "doc.pdf");
    assert!(result.is_err());
    let err = result.unwrap_err();
    match err {
        AppError::BadRequest(msg) => assert!(msg.contains("Unsupported")),
        _ => panic!("Expected BadRequest, got {:?}", err),
    }
}

#[test]
fn local_preprocessor_mime_accepts_jpeg() {
    let pre = LocalFilePreprocessor::new();
    let result = pre.preprocess(b"not-a-real-jpeg", "image/jpeg", "test.jpg");
    assert!(result.is_err());
}

#[test]
fn preprocessor_no_webp_conversion() {
    let config = PreprocessingConfig {
        convert_to_webp: false,
        max_dimension: 0,
        ..Default::default()
    };
    let pre = LocalFilePreprocessor::with_config(config);
    let result = pre.preprocess(b"not-an-image", "image/png", "test.png");
    assert!(result.is_err());
}
