use authgate::errors::ApiError;
use authgate::models::FilterOptionsModel;
use authgate::models::page_window;
use authgate::numbers::parse_i32;
use authgate::numbers::parse_price_minor;
use authgate::products_model::apply_text_field;
use authgate::products_model::classify_field;
use authgate::products_model::empty_draft;
use authgate::products_model::set_image;
use authgate::products_model::FieldPolicy;
use authgate::products_model::ProductField;
use authgate::text::fold_username;
use authgate::text::str_eq;

#[test]
fn price_minor_units_exact_values() {
    assert_eq!(parse_price_minor("12"), Some(1200));
    assert_eq!(parse_price_minor("12.5"), Some(1250));
    assert_eq!(parse_price_minor("12.50"), Some(1250));
    assert_eq!(parse_price_minor("0.99"), Some(99));
    assert_eq!(parse_price_minor("0"), Some(0));
    assert_eq!(parse_price_minor("1234567.89"), Some(123456789));
}

#[test]
fn price_rejects_out_of_grammar() {
    assert_eq!(parse_price_minor(""), None);
    assert_eq!(parse_price_minor("."), None);
    assert_eq!(parse_price_minor(".5"), None);
    assert_eq!(parse_price_minor("12."), None);
    assert_eq!(parse_price_minor("1.234"), None);
    assert_eq!(parse_price_minor("1.2.3"), None);
    assert_eq!(parse_price_minor("-1"), None);
    assert_eq!(parse_price_minor("1a"), None);
    assert_eq!(parse_price_minor("99999999999999999999"), None);
}

#[test]
fn stock_parses_like_i32() {
    assert_eq!(parse_i32("42"), Some(42));
    assert_eq!(parse_i32("-42"), Some(-42));
    assert_eq!(parse_i32("+7"), Some(7));
    assert_eq!(parse_i32("0"), Some(0));
    assert_eq!(parse_i32("2147483647"), Some(2147483647));
    assert_eq!(parse_i32("-2147483648"), Some(-2147483648));
}

#[test]
fn stock_rejects_out_of_grammar() {
    assert_eq!(parse_i32(""), None);
    assert_eq!(parse_i32("-"), None);
    assert_eq!(parse_i32("+"), None);
    assert_eq!(parse_i32("--1"), None);
    assert_eq!(parse_i32("1.0"), None);
    assert_eq!(parse_i32("2147483648"), None);
    assert_eq!(parse_i32("-2147483649"), None);
}

#[test]
fn username_folding_is_ascii_only() {
    assert_eq!(fold_username("User1"), "user1");
    assert_eq!(fold_username("ABC"), "abc");
    assert_eq!(fold_username("already"), "already");
    assert_eq!(fold_username("Üser"), "Üser");
    assert_eq!(fold_username(""), "");
    assert!(str_eq("same", "same"));
    assert!(!str_eq("same", "other"));
}

#[test]
fn field_names_classify_exactly() {
    assert_eq!(classify_field("product_name"), ProductField::ProductName);
    assert_eq!(classify_field("price"), ProductField::Price);
    assert_eq!(classify_field("stock"), ProductField::Stock);
    assert_eq!(classify_field("sku"), ProductField::Sku);
    assert_eq!(classify_field("category_id"), ProductField::CategoryId);
    assert_eq!(classify_field("product_image"), ProductField::ProductImage);
    assert_eq!(classify_field("Price"), ProductField::Unknown);
    assert_eq!(classify_field(""), ProductField::Unknown);
    assert_eq!(classify_field("unexpected"), ProductField::Unknown);
}

#[test]
fn create_path_rejects_unknown_field() {
    let mut draft = empty_draft();
    let r = apply_text_field(&mut draft, ProductField::Unknown, "x", FieldPolicy::Reject);
    assert_eq!(r, Err(ApiError::UnknownField));
    assert_eq!(r.unwrap_err().status(), 400);
}

#[test]
fn update_path_skips_unknown_field() {
    let mut draft = empty_draft();
    let r = apply_text_field(&mut draft, ProductField::Unknown, "x", FieldPolicy::Skip);
    assert_eq!(r, Ok(()));
    assert_eq!(draft.product_name, None);
}

#[test]
fn create_path_rejects_unparsable_numbers() {
    let mut draft = empty_draft();
    let r = apply_text_field(&mut draft, ProductField::Price, "oops", FieldPolicy::Reject);
    assert_eq!(r, Err(ApiError::MalformedField));
    let e = r.unwrap_err();
    assert_eq!(e.status(), 400);
    assert_eq!(e.message(), "Malformed field value in form data");
    let r = apply_text_field(&mut draft, ProductField::Stock, "x7", FieldPolicy::Reject);
    assert_eq!(r, Err(ApiError::MalformedField));
    assert_eq!(draft.price, None);
    assert_eq!(draft.stock, None);
}

#[test]
fn create_path_accepts_well_formed_numbers() {
    let mut draft = empty_draft();
    apply_text_field(&mut draft, ProductField::Price, "19.99", FieldPolicy::Reject).unwrap();
    apply_text_field(&mut draft, ProductField::Stock, "12", FieldPolicy::Reject).unwrap();
    assert_eq!(draft.price, Some(1999));
    assert_eq!(draft.stock, Some(12));
}

#[test]
fn update_path_leaves_unparsable_numbers_alone() {
    let mut draft = empty_draft();
    apply_text_field(&mut draft, ProductField::Price, "12.34", FieldPolicy::Skip).unwrap();
    apply_text_field(&mut draft, ProductField::Stock, "5", FieldPolicy::Skip).unwrap();
    apply_text_field(&mut draft, ProductField::Price, "oops", FieldPolicy::Skip).unwrap();
    apply_text_field(&mut draft, ProductField::Stock, "oops", FieldPolicy::Skip).unwrap();
    assert_eq!(draft.price, Some(1234));
    assert_eq!(draft.stock, Some(5));
}

#[test]
fn text_fields_and_image_key_land_in_draft() {
    let mut draft = empty_draft();
    apply_text_field(&mut draft, ProductField::ProductName, "Mug", FieldPolicy::Reject).unwrap();
    apply_text_field(&mut draft, ProductField::Sku, "MUG-1", FieldPolicy::Reject).unwrap();
    apply_text_field(&mut draft, ProductField::CategoryId, "c-9", FieldPolicy::Reject).unwrap();
    set_image(&mut draft, String::from("uploads/x.png"));
    assert_eq!(draft.product_name.as_deref(), Some("Mug"));
    assert_eq!(draft.sku.as_deref(), Some("MUG-1"));
    assert_eq!(draft.category_id.as_deref(), Some("c-9"));
    assert_eq!(draft.product_image.as_deref(), Some("uploads/x.png"));
}

#[test]
fn page_window_computes_row_offset() {
    let opts = FilterOptionsModel { offset: None, limit: None };
    assert_eq!(page_window(&opts, 10), (0, 10));
    let opts = FilterOptionsModel { offset: Some(3), limit: Some(20) };
    assert_eq!(page_window(&opts, 10), (40, 20));
    let opts = FilterOptionsModel { offset: Some(1), limit: Some(7) };
    assert_eq!(page_window(&opts, 7), (0, 7));
}
