use axum_blueprint::domain::gallery::{GalleryCreateDto, GalleryDto, GalleryItem, GalleryUpdateDto};
use axum_blueprint::domain::object_id::{parse_optional_id, ObjectId};
use axum_blueprint::domain::orders::{OrderDto, OrderItem, OrderLineItemDto};
use axum_blueprint::domain::products::{is_sku, ProductDto, ProductItem};
use axum_blueprint::domain::users::{User, UserCreateDto, UserDto, UserUpdateDto};
use axum_blueprint::domain::validation::{check_email, is_timestamp};
use axum_blueprint::repositories::{parse_document_id, touched, DocumentOp, PsqlAppError};
use axum_blueprint::validate_json::{BodyRejection, ValidatedJson};

const OID: &str = "507f1f77bcf86cd799439011";

fn valid_product() -> ProductDto {
    ProductDto {
        id: None,
        sku: "ABC-1234".to_string(),
        item_name: "Widget".to_string(),
        description: "A fine widget".to_string(),
        quantity: 10,
        price_in_cents: 1999,
        discount_percent: 5,
        supplier_email: "sales@example.com".to_string(),
        tags: vec!["tools".to_string()],
        created_at: "2024-05-01T12:00:00Z".to_string(),
    }
}

fn valid_order() -> OrderDto {
    OrderDto {
        id: Some(OID.to_string()),
        order_number: "ORD-1".to_string(),
        user_id: "u1".to_string(),
        items: vec![
            OrderLineItemDto { sku: "SKU1".to_string(), quantity: 2, price_in_cents: 500 },
            OrderLineItemDto { sku: "SKU2".to_string(), quantity: 1, price_in_cents: 0 },
        ],
        total_in_cents: 1000,
        status: "new".to_string(),
        created_at: "2024-01-31T23:59:59Z".to_string(),
    }
}

#[test]
fn object_id_parses_and_prints() {
    let id = ObjectId::parse_str(OID).unwrap();
    assert_eq!(id.bytes[0], 0x50);
    assert_eq!(id.bytes[11], 0x11);
    assert_eq!(id.to_hex(), OID);
    let upper = ObjectId::parse_str("507F1F77BCF86CD799439011").unwrap();
    assert_eq!(upper, id);
    assert_eq!(upper.to_hex(), OID);
    assert!(ObjectId::parse_str("xyz").is_none());
    assert!(ObjectId::parse_str("507f1f77bcf86cd7994390").is_none());
    assert!(ObjectId::parse_str("507f1f77bcf86cd79943901g").is_none());
    assert!(parse_optional_id(None).is_none());
    assert_eq!(parse_optional_id(Some(OID.to_string())), Some(id));
}

#[test]
fn object_id_hex_roundtrip_on_values() {
    let id = ObjectId { bytes: [0, 1, 2, 15, 16, 127, 128, 200, 250, 254, 255, 9] };
    let text = id.to_hex();
    assert_eq!(text, "0001020f107f80c8fafeff09");
    assert_eq!(ObjectId::parse_str(&text), Some(id));
}

#[test]
fn gallery_validation_reports() {
    let ok = GalleryCreateDto { url: "https://x/y.png".to_string(), status: "active".to_string() };
    assert!(ok.validate().is_ok());
    let bad = GalleryCreateDto { url: "".to_string(), status: "active".to_string() };
    assert_eq!(bad.validate().unwrap_err(), "url: length is lower than 1\n");
    let bad = GalleryCreateDto { url: "x".repeat(2049), status: "".to_string() };
    assert_eq!(
        bad.validate().unwrap_err(),
        "status: length is lower than 1\nurl: length is greater than 2048\n"
    );
    let upd = GalleryUpdateDto { id: String::new(), status: "s".repeat(51) };
    assert_eq!(upd.validate().unwrap_err(), "status: length is greater than 50\n");
    let upd = GalleryUpdateDto { id: String::new(), status: "s".repeat(50) };
    assert!(upd.validate().is_ok());
}

#[test]
fn gallery_conversions() {
    let item = GalleryItem::from_create(GalleryCreateDto { url: "u".to_string(), status: "s".to_string() });
    assert!(item.id.is_none());
    let dto = GalleryDto::from_item(item);
    assert_eq!((dto.id.as_str(), dto.url.as_str(), dto.status.as_str()), ("", "u", "s"));
    let stored = GalleryItem { id: ObjectId::parse_str(OID), url: "u".to_string(), status: "s".to_string() };
    assert_eq!(GalleryDto::from_item(stored).id, OID);
}

#[test]
fn user_validation_counts_bytes() {
    let ok = UserCreateDto { name: "Ann".to_string(), profile_image: "p.webp".to_string(), role_id: 1 };
    assert!(ok.validate().is_ok());
    let bad = UserCreateDto { name: "".to_string(), profile_image: "p".to_string(), role_id: 0 };
    assert_eq!(bad.validate().unwrap_err(), "name: length is lower than 1\nrole_id: lower than 1\n");
    // 128 two-byte characters are 256 bytes.
    let wide = UserUpdateDto { id: 1, name: "é".repeat(128), profile_image: None, role_id: 2 };
    assert_eq!(wide.validate().unwrap_err(), "name: length is greater than 255\n");
    let narrow = UserUpdateDto { id: 1, name: "é".repeat(127), profile_image: None, role_id: 2 };
    assert!(narrow.validate().is_ok());
}

#[test]
fn user_conversion_keeps_fields() {
    let dto = UserDto::from_user(User { id: 7, name: "N".to_string(), profile_image: "i".to_string(), role_id: 3 });
    assert_eq!((dto.id, dto.name.as_str(), dto.profile_image.as_str(), dto.role_id), (7, "N", "i", 3));
}

#[test]
fn order_validation_reports() {
    assert!(valid_order().validate().is_ok());
    let line = OrderLineItemDto { sku: "ab".to_string(), quantity: 0, price_in_cents: -1 };
    assert_eq!(
        line.validate().unwrap_err(),
        "price_in_cents: lower than 0\nquantity: lower than 1\nsku: length is lower than 3\n"
    );
    let bad = OrderDto {
        id: None,
        order_number: "A1".to_string(),
        user_id: "".to_string(),
        items: vec![],
        total_in_cents: -5,
        status: "new".to_string(),
        created_at: "2024-01-01 10:00:00".to_string(),
    };
    assert_eq!(
        bad.validate().unwrap_err(),
        "created_at: does not match pattern /^[0-9]{4}-[0-9]{2}-[0-9]{2}T[0-9]{2}:[0-9]{2}:[0-9]{2}Z$/\n\
         items: length is lower than 1\n\
         order_number: length is lower than 3\n\
         total_in_cents: lower than 0\n\
         user_id: length is lower than 1\n"
    );
}

#[test]
fn order_conversion_maps_lines() {
    let item = OrderItem::from_dto(valid_order());
    assert_eq!(item.id.unwrap().to_hex(), OID);
    assert_eq!(item.items.len(), 2);
    assert_eq!(item.items[0].sku, "SKU1");
    assert_eq!(item.items[0].quantity, 2);
    assert_eq!(item.items[1].sku, "SKU2");
    assert_eq!(item.items[1].price_in_cents, 0);
    assert_eq!(item.total_in_cents, 1000);
    let mut o = valid_order();
    o.id = Some("not-an-id".to_string());
    assert!(OrderItem::from_dto(o).id.is_none());
}

#[test]
fn product_validation_reports() {
    assert!(valid_product().validate().is_ok());
    let bad = ProductDto {
        id: None,
        sku: "abc-1234".to_string(),
        item_name: "x".to_string(),
        description: "short".to_string(),
        quantity: 1_000_000,
        price_in_cents: 99,
        discount_percent: 101,
        supplier_email: "".to_string(),
        tags: vec![],
        created_at: "".to_string(),
    };
    assert_eq!(
        bad.validate().unwrap_err(),
        "created_at: does not match pattern /^[0-9]{4}-[0-9]{2}-[0-9]{2}T[0-9]{2}:[0-9]{2}:[0-9]{2}Z$/\n\
         description: length is lower than 10\n\
         discount_percent: greater than 100\n\
         item_name: length is lower than 2\n\
         price_in_cents: lower than 100\n\
         quantity: greater than 999999\n\
         sku: does not match pattern /^[A-Z0-9]{3}-[A-Z0-9]{4}$/\n\
         supplier_email: not a valid email: value is empty\n\
         tags: length is lower than 1\n"
    );
    let mut long_sku = valid_product();
    long_sku.sku = "ABCDEFGHIJKLMNOPQRSTU".to_string();
    assert_eq!(
        long_sku.validate().unwrap_err(),
        "sku: length is greater than 20\nsku: does not match pattern /^[A-Z0-9]{3}-[A-Z0-9]{4}$/\n"
    );
    let mut tags = valid_product();
    tags.tags = vec!["t".to_string(); 11];
    assert_eq!(tags.validate().unwrap_err(), "tags: length is greater than 10\n");
}

#[test]
fn product_item_shares_rules_and_conversion() {
    let item = ProductItem::from_dto(ProductDto { id: Some(OID.to_string()), ..valid_product() });
    assert!(item.validate().is_ok());
    assert_eq!(item.id.unwrap().to_hex(), OID);
    assert_eq!(item.sku, "ABC-1234");
    assert_eq!(item.tags, vec!["tools".to_string()]);
    let mut bad = item.clone();
    bad.discount_percent = -1;
    assert_eq!(bad.validate().unwrap_err(), "discount_percent: lower than 0\n");
}

#[test]
fn patterns_and_email_rule() {
    assert!(is_sku("A1B-9Z8Y"));
    assert!(!is_sku("A1B9Z8Y"));
    assert!(!is_sku("A1B-9Z8y"));
    assert!(is_timestamp("1999-12-31T00:00:00Z"));
    assert!(!is_timestamp("1999-12-31T00:00:00Z\n"));
    assert!(!is_timestamp("1999-12-31t00:00:00Z"));
    assert_eq!(check_email("abc").unwrap(), "not a valid email: value is missing `@`");
    assert!(check_email("sales@example.com").is_none());
    assert!(check_email("a @x.cz").is_some());
}

#[test]
fn validated_json_accepts_or_reports() {
    let ok = ValidatedJson::accept(5u32, Ok(())).unwrap();
    assert_eq!(ok.0, 5);
    let err = ValidatedJson::accept(5u32, Err("name: length is lower than 1\n".to_string())).err().unwrap();
    let (status, error, details) = err.parts();
    assert_eq!((status, error.as_str(), details.as_str()), (400, "Validation failed", "name: length is lower than 1\n"));
    let (status, error, details) = BodyRejection::InvalidJson("EOF".to_string()).parts();
    assert_eq!((status, error.as_str(), details.as_str()), (400, "Invalid JSON format", "EOF"));
}

#[test]
fn repository_errors_and_ids() {
    assert_eq!(PsqlAppError::DatabaseError("boom".to_string()).message(), "Database error occurred: boom");
    assert_eq!(PsqlAppError::AlreadyExists.message(), "User role already exists");
    assert_eq!(PsqlAppError::Internal("x".to_string()).message(), "Internal server error: x");
    assert_eq!(parse_document_id(OID, DocumentOp::Find).unwrap().to_hex(), OID);
    assert_eq!(parse_document_id("bad", DocumentOp::Find).unwrap_err(), "Invalid ID format");
    assert_eq!(parse_document_id("bad", DocumentOp::Update).unwrap_err(), "Invalid Id Format");
    assert_eq!(parse_document_id("bad", DocumentOp::Delete).unwrap_err(), "Invalid ID format");
    assert!(touched(1));
    assert!(!touched(0));
}
