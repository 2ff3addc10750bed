//! Product drafts and multipart field dispatch.
//!
//! The multipart endpoints see a dynamic sequence of named fields. The
//! expected names form a fixed enumerated set; each arriving field is
//! classified and applied to a draft by an exhaustive match, and a field
//! outside the set falls to an explicit per-endpoint policy: the create
//! path rejects the request, the update path skips the field. Prices are
//! carried as integer minor units (cents) end to end, never as floating
//! point.

use vstd::prelude::*;

use crate::errors::ApiError;
use crate::numbers::parse_i32;
use crate::numbers::parse_price_minor;
use crate::numbers::spec_parse_i32;
use crate::numbers::spec_price_minor;
use crate::text::str_eq;

verus! {

/// The fixed set of field names the product endpoints expect.
#[derive(Clone, Copy, Debug, PartialEq, Eq, Structural)]
pub enum ProductField {
    ProductName,
    Price,
    Stock,
    Sku,
    CategoryId,
    ProductImage,
    Unknown,
}

/// What to do with a field outside the expected set: the create path
/// rejects the whole request, the update path applies only the fields
/// that are present and skips the rest.
#[derive(Clone, Copy, Debug, PartialEq, Eq, Structural)]
pub enum FieldPolicy {
    Reject,
    Skip,
}

/// A product record under assembly from multipart fields; every field is
/// optional until the surrounding endpoint completes it.
#[derive(Debug, Clone)]
pub struct PostProductModel {
    pub product_id: Option<String>,
    pub product_name: Option<String>,
    pub price: Option<i64>,
    pub stock: Option<i32>,
    pub sku: Option<String>,
    pub category_id: Option<String>,
    pub product_image: Option<String>,
    pub created_at: Option<i64>,
    pub updated_at: Option<i64>,
}

/// The mathematical content of a [`PostProductModel`].
#[verifier::ext_equal]
pub struct ProductDraftView {
    pub product_id: Option<Seq<char>>,
    pub product_name: Option<Seq<char>>,
    pub price: Option<i64>,
    pub stock: Option<i32>,
    pub sku: Option<Seq<char>>,
    pub category_id: Option<Seq<char>>,
    pub product_image: Option<Seq<char>>,
    pub created_at: Option<i64>,
    pub updated_at: Option<i64>,
}

pub open spec fn view_text(s: Option<String>) -> Option<Seq<char>> {
    match s {
        Some(t) => Some(t@),
        None => None,
    }
}

impl View for PostProductModel {
    type V = ProductDraftView;

    open spec fn view(&self) -> ProductDraftView {
        ProductDraftView {
            product_id: view_text(self.product_id),
            product_name: view_text(self.product_name),
            price: self.price,
            stock: self.stock,
            sku: view_text(self.sku),
            category_id: view_text(self.category_id),
            product_image: view_text(self.product_image),
            created_at: self.created_at,
            updated_at: self.updated_at,
        }
    }
}

/// A draft with nothing filled in yet.
pub fn empty_draft() -> (r: PostProductModel)
    ensures
        r@ == (ProductDraftView {
            product_id: None,
            product_name: None,
            price: None,
            stock: None,
            sku: None,
            category_id: None,
            product_image: None,
            created_at: None,
            updated_at: None,
        }),
{
    PostProductModel {
        product_id: None,
        product_name: None,
        price: None,
        stock: None,
        sku: None,
        category_id: None,
        product_image: None,
        created_at: None,
        updated_at: None,
    }
}

/// Which expected field a multipart field name denotes.
pub open spec fn spec_classify(name: Seq<char>) -> ProductField {
    if name == "product_name"@ {
        ProductField::ProductName
    } else if name == "price"@ {
        ProductField::Price
    } else if name == "stock"@ {
        ProductField::Stock
    } else if name == "sku"@ {
        ProductField::Sku
    } else if name == "category_id"@ {
        ProductField::CategoryId
    } else if name == "product_image"@ {
        ProductField::ProductImage
    } else {
        ProductField::Unknown
    }
}

/// Classify a multipart field name against the expected set.
pub fn classify_field(name: &str) -> (r: ProductField)
    ensures
        r == spec_classify(name@),
{
    if str_eq(name, "product_name") {
        ProductField::ProductName
    } else if str_eq(name, "price") {
        ProductField::Price
    } else if str_eq(name, "stock") {
        ProductField::Stock
    } else if str_eq(name, "sku") {
        ProductField::Sku
    } else if str_eq(name, "category_id") {
        ProductField::CategoryId
    } else if str_eq(name, "product_image") {
        ProductField::ProductImage
    } else {
        ProductField::Unknown
    }
}

/// The price value a text field leaves in the draft: the parsed minor
/// units when the text is in grammar and in range. A malformed price is
/// a client input error on the create path (`Reject`) and leaves the old
/// value on the update path (`Skip`); it is never silently defaulted.
pub open spec fn spec_price_update(
    old_price: Option<i64>,
    text: Seq<char>,
    policy: FieldPolicy,
) -> Result<Option<i64>, ApiError> {
    match spec_price_minor(text) {
        Some(v) => if 0 <= v <= i64::MAX {
            Ok(Some(v as i64))
        } else {
            match policy {
                FieldPolicy::Reject => Err(ApiError::MalformedField),
                FieldPolicy::Skip => Ok(old_price),
            }
        },
        None => match policy {
            FieldPolicy::Reject => Err(ApiError::MalformedField),
            FieldPolicy::Skip => Ok(old_price),
        },
    }
}

/// The stock value a text field leaves in the draft, in the same way.
pub open spec fn spec_stock_update(
    old_stock: Option<i32>,
    text: Seq<char>,
    policy: FieldPolicy,
) -> Result<Option<i32>, ApiError> {
    match spec_parse_i32(text) {
        Some(v) => Ok(Some(v as i32)),
        None => match policy {
            FieldPolicy::Reject => Err(ApiError::MalformedField),
            FieldPolicy::Skip => Ok(old_stock),
        },
    }
}

/// How one classified text field transforms a draft, or the client error
/// an unexpected field raises under the `Reject` policy.
pub open spec fn spec_apply_text(
    d: ProductDraftView,
    tag: ProductField,
    text: Seq<char>,
    policy: FieldPolicy,
) -> Result<ProductDraftView, ApiError> {
    match tag {
        ProductField::ProductName => Ok(ProductDraftView { product_name: Some(text), ..d }),
        ProductField::Price => match spec_price_update(d.price, text, policy) {
            Ok(p) => Ok(ProductDraftView { price: p, ..d }),
            Err(e) => Err(e),
        },
        ProductField::Stock => match spec_stock_update(d.stock, text, policy) {
            Ok(st) => Ok(ProductDraftView { stock: st, ..d }),
            Err(e) => Err(e),
        },
        ProductField::Sku => Ok(ProductDraftView { sku: Some(text), ..d }),
        ProductField::CategoryId => Ok(ProductDraftView { category_id: Some(text), ..d }),
        ProductField::ProductImage => Ok(d),
        ProductField::Unknown => match policy {
            FieldPolicy::Reject => Err(ApiError::UnknownField),
            FieldPolicy::Skip => Ok(d),
        },
    }
}

/// Apply one classified text field to the draft.
///
/// File fields do not come through here: the caller reads their bytes,
/// stores them, and records the key with [`set_image`]; handed the image
/// tag anyway, this leaves the draft alone.
pub fn apply_text_field(
    draft: &mut PostProductModel,
    tag: ProductField,
    text: &str,
    policy: FieldPolicy,
) -> (r: Result<(), ApiError>)
    ensures
        match spec_apply_text(old(draft)@, tag, text@, policy) {
            Ok(v) => r is Ok && final(draft)@ == v,
            Err(e) => r == Err::<(), ApiError>(e) && final(draft)@ == old(draft)@,
        },
{
    match tag {
        ProductField::ProductName => {
            draft.product_name = Some(text.to_owned());
            Ok(())
        },
        ProductField::Price => {
            match parse_price_minor(text) {
                Some(v) => {
                    draft.price = Some(v);
                    Ok(())
                },
                None => match policy {
                    FieldPolicy::Reject => Err(ApiError::MalformedField),
                    FieldPolicy::Skip => Ok(()),
                },
            }
        },
        ProductField::Stock => {
            match parse_i32(text) {
                Some(v) => {
                    draft.stock = Some(v);
                    Ok(())
                },
                None => match policy {
                    FieldPolicy::Reject => Err(ApiError::MalformedField),
                    FieldPolicy::Skip => Ok(()),
                },
            }
        },
        ProductField::Sku => {
            draft.sku = Some(text.to_owned());
            Ok(())
        },
        ProductField::CategoryId => {
            draft.category_id = Some(text.to_owned());
            Ok(())
        },
        ProductField::ProductImage => Ok(()),
        ProductField::Unknown => {
            match policy {
                FieldPolicy::Reject => Err(ApiError::UnknownField),
                FieldPolicy::Skip => Ok(()),
            }
        },
    }
}

/// Record the storage key of an uploaded product image in the draft.
pub fn set_image(draft: &mut PostProductModel, key: String)
    ensures
        final(draft)@ == (ProductDraftView { product_image: Some(key@), ..old(draft)@ }),
{
    draft.product_image = Some(key);
}

} // verus!
