use authgate::errors::ApiError;
use authgate::ids::is_uuid_string;
use authgate::ids::new_product_id;
use authgate::ids::new_uuid;
use authgate::image_service::file_extension;
use authgate::image_service::upload_image;

fn is_uuid_segment(s: &str) -> bool {
    is_uuid_string(s)
}

#[test]
fn upload_key_shape_for_cat_png() {
    let key = upload_image(Some("cat.png")).unwrap();
    assert_eq!(key.len(), "uploads/".len() + 36 + ".png".len());
    assert!(key.starts_with("uploads/"));
    assert!(key.ends_with(".png"));
    let middle = &key["uploads/".len()..key.len() - ".png".len()];
    assert!(is_uuid_segment(middle));
}

#[test]
fn upload_keys_are_unique() {
    let k1 = upload_image(Some("cat.png")).unwrap();
    let k2 = upload_image(Some("cat.png")).unwrap();
    assert_ne!(k1, k2);
}

#[test]
fn upload_missing_file_name_fails() {
    let r = upload_image(None);
    assert_eq!(r, Err(ApiError::MissingFileName));
    let e = r.unwrap_err();
    assert_eq!(e.status(), 400);
    assert_eq!(e.message(), "File name missing");
}

#[test]
fn extension_is_suffix_after_last_dot() {
    assert_eq!(file_extension("cat.png"), "png");
    assert_eq!(file_extension("archive.tar.gz"), "gz");
    assert_eq!(file_extension("trailing."), "");
    assert_eq!(file_extension("noext"), "noext");
    assert_eq!(file_extension(""), "");
    assert_eq!(file_extension(".hidden"), "hidden");
}

#[test]
fn empty_extension_key_still_built() {
    let key = upload_image(Some("archive.")).unwrap();
    assert!(key.starts_with("uploads/"));
    assert!(key.ends_with("."));
    assert_eq!(key.len(), "uploads/".len() + 36 + 1);
}

#[test]
fn new_uuid_is_hyphenated_text() {
    let id = new_uuid();
    assert!(is_uuid_string(&id));
    assert_ne!(new_uuid(), id);
}

#[test]
fn product_id_is_22_base64url_chars() {
    let id = new_product_id();
    assert_eq!(id.len(), 22);
    assert!(id.bytes().all(
        |b| b.is_ascii_alphanumeric() || b == b'-' || b == b'_'
    ));
    assert_ne!(new_product_id(), id);
}
