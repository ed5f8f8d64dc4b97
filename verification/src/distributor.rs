//! The distributor-agnostic data model: the normalized product record that
//! every adapter produces, and the configuration variants an adapter may be
//! initialized with.

use vstd::prelude::*;

verus! {

/// One matched product from one distributor, normalized.
///
/// A field a distributor's schema or response does not supply is `None`,
/// never an empty string or zero masquerading as data, so a caller can tell
/// "the distributor did not say" from "the distributor said empty".
/// The two exceptions are `part_number`, which is always present when a
/// result exists at all, and `stock`, which is `Some(0)` when the vendor
/// supplied an availability text that does not read as a number.
///
/// `unit_price` carries the vendor's numeric price verbatim, as the decimal
/// text of the JSON number the vendor sent; no currency conversion and no
/// rounding is performed.
pub struct ProductInfo {
    pub part_number: String,
    pub manufacturer_part_number: Option<String>,
    pub manufacturer: Option<String>,
    pub description: Option<String>,
    pub unit_price: Option<String>,
    pub stock: Option<u32>,
    pub product_url: Option<String>,
    pub datasheet_url: Option<String>,
}

/// The mathematical shape of a [`ProductInfo`]: each text field as its
/// character sequence, absent fields as `None`.
pub struct ProductInfoView {
    pub part_number: Seq<char>,
    pub manufacturer_part_number: Option<Seq<char>>,
    pub manufacturer: Option<Seq<char>>,
    pub description: Option<Seq<char>>,
    pub unit_price: Option<Seq<char>>,
    pub stock: Option<u32>,
    pub product_url: Option<Seq<char>>,
    pub datasheet_url: Option<Seq<char>>,
}

impl View for ProductInfo {
    type V = ProductInfoView;

    open spec fn view(&self) -> ProductInfoView {
        ProductInfoView {
            part_number: self.part_number@,
            manufacturer_part_number: self.manufacturer_part_number.deep_view(),
            manufacturer: self.manufacturer.deep_view(),
            description: self.description.deep_view(),
            unit_price: self.unit_price.deep_view(),
            stock: self.stock,
            product_url: self.product_url.deep_view(),
            datasheet_url: self.datasheet_url.deep_view(),
        }
    }
}

/// How an adapter is initialized. Exactly one variant is active per value;
/// each distributor understands only the variant(s) matching its
/// authentication scheme and ignores the others.
pub enum DistributorConfig {
    ApiKey { api_key: String },
    OAuth { client_id: String, client_secret: String },
}

} // verus!
