//! The Mouser-style REST adapter: the vendor's wire schema, the mapping of
//! a vendor response into the normalized product record, and the
//! construction of the vendor request.
//!
//! The wire field names are the vendor's own and are matched exactly,
//! including `unitprice`, which the vendor spells in lower case while most
//! of its fields are capitalized.

use vstd::prelude::*;
use vstd::string::StringExecFns;

use crate::json::JsonValue;
use crate::json::field_of;
use crate::json::json_of;
use crate::json::parse_json;
use crate::text::json_escape;
use crate::text::json_escaped;
use crate::text::i32_of_dec;
use crate::text::parse_i32_dec;
use crate::text::parse_u32_dec;
use crate::text::u32_of_dec;
use crate::distributor::DistributorConfig;
use crate::distributor::ProductInfo;
use crate::distributor::ProductInfoView;

verus! {

// ========== vendor wire schema ==========

/// One entry of the vendor-level error list. The list is carried through
/// but never surfaced: absence of usable results, not the presence of
/// errors, is what makes a query yield nothing.
pub struct Error {
    pub id: i32,
    pub code: String,
    pub message: String,
    pub resource_key: String,
    pub resource_format_string: String,
    pub resource_format_string2: String,
    pub property_name: String,
}

pub struct ErrorView {
    pub id: i32,
    pub code: Seq<char>,
    pub message: Seq<char>,
    pub resource_key: Seq<char>,
    pub resource_format_string: Seq<char>,
    pub resource_format_string2: Seq<char>,
    pub property_name: Seq<char>,
}

impl View for Error {
    type V = ErrorView;

    open spec fn view(&self) -> ErrorView {
        ErrorView {
            id: self.id,
            code: self.code@,
            message: self.message@,
            resource_key: self.resource_key@,
            resource_format_string: self.resource_format_string@,
            resource_format_string2: self.resource_format_string2@,
            property_name: self.property_name@,
        }
    }
}

impl DeepView for Error {
    type V = ErrorView;

    open spec fn deep_view(&self) -> ErrorView {
        self.view()
    }
}

/// One tier of the vendor's tiered pricing. Tiers are carried through
/// verbatim; only the flat unit price enters the normalized record.
pub struct PriceBreak {
    pub quantity: i32,
    pub price: String,
    pub currency: String,
}

pub struct PriceBreakView {
    pub quantity: i32,
    pub price: Seq<char>,
    pub currency: Seq<char>,
}

impl View for PriceBreak {
    type V = PriceBreakView;

    open spec fn view(&self) -> PriceBreakView {
        PriceBreakView { quantity: self.quantity, price: self.price@, currency: self.currency@ }
    }
}

impl DeepView for PriceBreak {
    type V = PriceBreakView;

    open spec fn deep_view(&self) -> PriceBreakView {
        self.view()
    }
}

// ========== schema reading, field kinds ==========

/// A required text member: its characters, or `None` where it is missing
/// or not a string.
pub open spec fn req_text_field(v: JsonValue, key: Seq<char>) -> Option<Seq<char>> {
    match field_of(v, key) {
        Some(JsonValue::Str(s)) => Some(s@),
        _ => None,
    }
}

/// A required 32-bit integer member: its value, or `None` where it is
/// missing, not a number, or not integral in range.
pub open spec fn req_i32_field(v: JsonValue, key: Seq<char>) -> Option<i32> {
    match field_of(v, key) {
        Some(JsonValue::Num(s)) => i32_of_dec(s@),
        _ => None,
    }
}

/// An optional text member. The outer option is schema validity: a missing
/// or null member reads as `Some(None)` (absent), a string as its
/// characters, and any other shape as `None` (schema violation).
pub open spec fn opt_text_field(v: JsonValue, key: Seq<char>) -> Option<Option<Seq<char>>> {
    match field_of(v, key) {
        None => Some(None),
        Some(JsonValue::Null) => Some(None),
        Some(JsonValue::Str(s)) => Some(Some(s@)),
        Some(_) => None,
    }
}

/// An optional numeric member, read as the number's decimal text; options
/// nest as in [`opt_text_field`].
pub open spec fn opt_num_field(v: JsonValue, key: Seq<char>) -> Option<Option<Seq<char>>> {
    match field_of(v, key) {
        None => Some(None),
        Some(JsonValue::Null) => Some(None),
        Some(JsonValue::Num(s)) => Some(Some(s@)),
        Some(_) => None,
    }
}

// ========== error entries ==========

/// What one element of the error list denotes: every field is required.
pub open spec fn error_of_json(v: JsonValue) -> Option<ErrorView> {
    match (
        req_i32_field(v, "Id"@),
        req_text_field(v, "Code"@),
        req_text_field(v, "Message"@),
        req_text_field(v, "ResourceKey"@),
        req_text_field(v, "ResourceFormatString"@),
        req_text_field(v, "ResourceFormatString2"@),
        req_text_field(v, "PropertyName"@),
    ) {
        (Some(id), Some(code), Some(message), Some(rk), Some(rfs), Some(rfs2), Some(pn)) => Some(
            ErrorView {
                id,
                code,
                message,
                resource_key: rk,
                resource_format_string: rfs,
                resource_format_string2: rfs2,
                property_name: pn,
            },
        ),
        _ => None,
    }
}

impl Error {
    /// Reads one error entry; `None` exactly where the shape violates the
    /// vendor schema.
    pub fn from_json(v: &JsonValue) -> (r: Option<Error>)
        ensures
            match r {
                Some(e) => error_of_json(*v) == Some(e@),
                None => error_of_json(*v) is None,
            },
    {
        let id: i32 = match v.get("Id") {
            Some(JsonValue::Num(s)) => match parse_i32_dec(s.as_str()) {
                Some(n) => n,
                None => { return None; },
            },
            _ => { return None; },
        };
        let code: String = match v.get("Code") {
            Some(JsonValue::Str(s)) => s.clone(),
            _ => { return None; },
        };
        let message: String = match v.get("Message") {
            Some(JsonValue::Str(s)) => s.clone(),
            _ => { return None; },
        };
        let resource_key: String = match v.get("ResourceKey") {
            Some(JsonValue::Str(s)) => s.clone(),
            _ => { return None; },
        };
        let resource_format_string: String = match v.get("ResourceFormatString") {
            Some(JsonValue::Str(s)) => s.clone(),
            _ => { return None; },
        };
        let resource_format_string2: String = match v.get("ResourceFormatString2") {
            Some(JsonValue::Str(s)) => s.clone(),
            _ => { return None; },
        };
        let property_name: String = match v.get("PropertyName") {
            Some(JsonValue::Str(s)) => s.clone(),
            _ => { return None; },
        };
        Some(Error {
            id,
            code,
            message,
            resource_key,
            resource_format_string,
            resource_format_string2,
            property_name,
        })
    }
}

// ========== price break entries ==========

/// What one element of a part's price-break list denotes: every field is
/// required.
pub open spec fn price_break_of_json(v: JsonValue) -> Option<PriceBreakView> {
    match (
        req_i32_field(v, "Quantity"@),
        req_text_field(v, "Price"@),
        req_text_field(v, "Currency"@),
    ) {
        (Some(quantity), Some(price), Some(currency)) => Some(
            PriceBreakView { quantity, price, currency },
        ),
        _ => None,
    }
}

impl PriceBreak {
    /// Reads one price break; `None` exactly where the shape violates the
    /// vendor schema.
    pub fn from_json(v: &JsonValue) -> (r: Option<PriceBreak>)
        ensures
            match r {
                Some(pb) => price_break_of_json(*v) == Some(pb@),
                None => price_break_of_json(*v) is None,
            },
    {
        let quantity: i32 = match v.get("Quantity") {
            Some(JsonValue::Num(s)) => match parse_i32_dec(s.as_str()) {
                Some(n) => n,
                None => { return None; },
            },
            _ => { return None; },
        };
        let price: String = match v.get("Price") {
            Some(JsonValue::Str(s)) => s.clone(),
            _ => { return None; },
        };
        let currency: String = match v.get("Currency") {
            Some(JsonValue::Str(s)) => s.clone(),
            _ => { return None; },
        };
        Some(PriceBreak { quantity, price, currency })
    }
}

// ========== parts ==========

/// One candidate match in the vendor's results. Only the part number is
/// required; a field the response omits or nulls stays absent, and a field
/// of the wrong shape makes the whole response unusable.
pub struct Part {
    pub part_number: String,
    pub manufacturer_part_number: Option<String>,
    pub manufacturer: Option<String>,
    pub description: Option<String>,
    pub price_breaks: Vec<PriceBreak>,
    pub availability_in_stock: Option<String>,
    pub unit_price: Option<String>,
    pub product_url: Option<String>,
    pub data_sheet_url: Option<String>,
}

pub struct PartView {
    pub part_number: Seq<char>,
    pub manufacturer_part_number: Option<Seq<char>>,
    pub manufacturer: Option<Seq<char>>,
    pub description: Option<Seq<char>>,
    pub price_breaks: Seq<PriceBreakView>,
    pub availability_in_stock: Option<Seq<char>>,
    pub unit_price: Option<Seq<char>>,
    pub product_url: Option<Seq<char>>,
    pub data_sheet_url: Option<Seq<char>>,
}

impl View for Part {
    type V = PartView;

    open spec fn view(&self) -> PartView {
        PartView {
            part_number: self.part_number@,
            manufacturer_part_number: self.manufacturer_part_number.deep_view(),
            manufacturer: self.manufacturer.deep_view(),
            description: self.description.deep_view(),
            price_breaks: self.price_breaks.deep_view(),
            availability_in_stock: self.availability_in_stock.deep_view(),
            unit_price: self.unit_price.deep_view(),
            product_url: self.product_url.deep_view(),
            data_sheet_url: self.data_sheet_url.deep_view(),
        }
    }
}

impl DeepView for Part {
    type V = PartView;

    open spec fn deep_view(&self) -> PartView {
        self.view()
    }
}

// ========== element lists ==========

/// What an array of price breaks denotes: every element must be valid.
pub open spec fn price_breaks_list_of_json(items: Seq<JsonValue>) -> Option<Seq<PriceBreakView>>
    decreases items.len(),
{
    if items.len() == 0 {
        Some(Seq::empty())
    } else {
        match (price_breaks_list_of_json(items.drop_last()), price_break_of_json(items.last())) {
            (Some(pre), Some(pb)) => Some(pre.push(pb)),
            _ => None,
        }
    }
}

proof fn lemma_price_breaks_list_none(items: Seq<JsonValue>, j: int)
    requires
        0 <= j < items.len(),
        price_break_of_json(items[j]) is None,
    ensures
        price_breaks_list_of_json(items) is None,
    decreases items.len(),
{
    if j < items.len() - 1 {
        lemma_price_breaks_list_none(items.drop_last(), j);
    }
}

/// What an array of error entries denotes: every element must be valid.
pub open spec fn errors_list_of_json(items: Seq<JsonValue>) -> Option<Seq<ErrorView>>
    decreases items.len(),
{
    if items.len() == 0 {
        Some(Seq::empty())
    } else {
        match (errors_list_of_json(items.drop_last()), error_of_json(items.last())) {
            (Some(pre), Some(e)) => Some(pre.push(e)),
            _ => None,
        }
    }
}

proof fn lemma_errors_list_none(items: Seq<JsonValue>, j: int)
    requires
        0 <= j < items.len(),
        error_of_json(items[j]) is None,
    ensures
        errors_list_of_json(items) is None,
    decreases items.len(),
{
    if j < items.len() - 1 {
        lemma_errors_list_none(items.drop_last(), j);
    }
}

/// What the vendor's parts array denotes: every element must be valid.
pub open spec fn parts_list_of_json(items: Seq<JsonValue>) -> Option<Seq<PartView>>
    decreases items.len(),
{
    if items.len() == 0 {
        Some(Seq::empty())
    } else {
        match (parts_list_of_json(items.drop_last()), part_of_json(items.last())) {
            (Some(pre), Some(p)) => Some(pre.push(p)),
            _ => None,
        }
    }
}

proof fn lemma_parts_list_none(items: Seq<JsonValue>, j: int)
    requires
        0 <= j < items.len(),
        part_of_json(items[j]) is None,
    ensures
        parts_list_of_json(items) is None,
    decreases items.len(),
{
    if j < items.len() - 1 {
        lemma_parts_list_none(items.drop_last(), j);
    }
}

/// What a part's `PriceBreaks` member denotes: a missing or null member is
/// an empty list, an array must be element-wise valid, and any other shape
/// is a schema violation.
pub open spec fn price_breaks_of_json(v: JsonValue) -> Option<Seq<PriceBreakView>> {
    match field_of(v, "PriceBreaks"@) {
        None => Some(Seq::empty()),
        Some(JsonValue::Null) => Some(Seq::empty()),
        Some(JsonValue::Arr(items)) => price_breaks_list_of_json(items@),
        Some(_) => None,
    }
}

/// What one element of the vendor's parts array denotes. `MouserPartNumber`
/// is required; the other members are optional as in [`opt_text_field`].
pub open spec fn part_of_json(v: JsonValue) -> Option<PartView> {
    match req_text_field(v, "MouserPartNumber"@) {
        None => None,
        Some(pn) => match (
            opt_text_field(v, "ManufacturerPartNumber"@),
            opt_text_field(v, "Manufacturer"@),
            opt_text_field(v, "Description"@),
            price_breaks_of_json(v),
            opt_text_field(v, "AvailabilityInStock"@),
            opt_num_field(v, "unitprice"@),
            opt_text_field(v, "ProductDetailUrl"@),
            opt_text_field(v, "DataSheetUrl"@),
        ) {
            (
                Some(mpn),
                Some(mfr),
                Some(desc),
                Some(pbs),
                Some(avail),
                Some(up),
                Some(purl),
                Some(dsurl),
            ) => Some(
                PartView {
                    part_number: pn,
                    manufacturer_part_number: mpn,
                    manufacturer: mfr,
                    description: desc,
                    price_breaks: pbs,
                    availability_in_stock: avail,
                    unit_price: up,
                    product_url: purl,
                    data_sheet_url: dsurl,
                },
            ),
            _ => None,
        },
    }
}

/// Reads an optional text member of `v`, per [`opt_text_field`].
fn opt_text(v: &JsonValue, key: &str) -> (r: Option<Option<String>>)
    ensures
        match r {
            Some(o) => opt_text_field(*v, key@) == Some(o.deep_view()),
            None => opt_text_field(*v, key@) is None,
        },
{
    match v.get(key) {
        None => Some(None),
        Some(JsonValue::Null) => Some(None),
        Some(JsonValue::Str(s)) => Some(Some(s.clone())),
        Some(_) => None,
    }
}

/// Reads an optional numeric member of `v`, per [`opt_num_field`].
fn opt_num(v: &JsonValue, key: &str) -> (r: Option<Option<String>>)
    ensures
        match r {
            Some(o) => opt_num_field(*v, key@) == Some(o.deep_view()),
            None => opt_num_field(*v, key@) is None,
        },
{
    match v.get(key) {
        None => Some(None),
        Some(JsonValue::Null) => Some(None),
        Some(JsonValue::Num(s)) => Some(Some(s.clone())),
        Some(_) => None,
    }
}

fn price_breaks_from_items(items: &Vec<JsonValue>) -> (r: Option<Vec<PriceBreak>>)
    ensures
        match r {
            Some(pbs) => price_breaks_list_of_json(items@) == Some(pbs.deep_view()),
            None => price_breaks_list_of_json(items@) is None,
        },
{
    let n: usize = items.len();
    let mut out: Vec<PriceBreak> = Vec::new();
    let mut i: usize = 0;
    proof {
        assert(out.deep_view() =~= Seq::<PriceBreakView>::empty());
        assert(items@.subrange(0, 0) =~= Seq::<JsonValue>::empty());
    }
    while i < n
        invariant
            i <= n,
            n == items@.len(),
            price_breaks_list_of_json(items@.subrange(0, i as int)) == Some(out.deep_view()),
        decreases n - i,
    {
        match PriceBreak::from_json(&items[i]) {
            Some(pb) => {
                let ghost pre_view = out.deep_view();
                let ghost pbv = pb@;
                out.push(pb);
                proof {
                    let pre = items@.subrange(0, i as int);
                    let cur = items@.subrange(0, i + 1 as int);
                    assert(cur.drop_last() =~= pre);
                    assert(cur.last() == items@[i as int]);
                    assert(out.deep_view() =~= pre_view.push(pbv));
                }
            },
            None => {
                proof {
                    lemma_price_breaks_list_none(items@, i as int);
                }
                return None;
            },
        }
        i = i + 1;
    }
    proof {
        assert(items@.subrange(0, n as int) =~= items@);
    }
    Some(out)
}

impl Part {
    /// Reads one candidate part; `None` exactly where the shape violates
    /// the vendor schema.
    pub fn from_json(v: &JsonValue) -> (r: Option<Part>)
        ensures
            match r {
                Some(p) => part_of_json(*v) == Some(p@),
                None => part_of_json(*v) is None,
            },
    {
        let part_number: String = match v.get("MouserPartNumber") {
            Some(JsonValue::Str(s)) => s.clone(),
            _ => { return None; },
        };
        let manufacturer_part_number: Option<String> = match opt_text(v, "ManufacturerPartNumber") {
            Some(o) => o,
            None => { return None; },
        };
        let manufacturer: Option<String> = match opt_text(v, "Manufacturer") {
            Some(o) => o,
            None => { return None; },
        };
        let description: Option<String> = match opt_text(v, "Description") {
            Some(o) => o,
            None => { return None; },
        };
        let price_breaks: Vec<PriceBreak> = match v.get("PriceBreaks") {
            None => {
                let none_listed: Vec<PriceBreak> = Vec::new();
                proof {
                    assert(none_listed.deep_view() =~= Seq::<PriceBreakView>::empty());
                }
                none_listed
            },
            Some(JsonValue::Null) => {
                let none_listed: Vec<PriceBreak> = Vec::new();
                proof {
                    assert(none_listed.deep_view() =~= Seq::<PriceBreakView>::empty());
                }
                none_listed
            },
            Some(JsonValue::Arr(items)) => match price_breaks_from_items(items) {
                Some(pbs) => pbs,
                None => { return None; },
            },
            Some(_) => { return None; },
        };
        let availability_in_stock: Option<String> = match opt_text(v, "AvailabilityInStock") {
            Some(o) => o,
            None => { return None; },
        };
        let unit_price: Option<String> = match opt_num(v, "unitprice") {
            Some(o) => o,
            None => { return None; },
        };
        let product_url: Option<String> = match opt_text(v, "ProductDetailUrl") {
            Some(o) => o,
            None => { return None; },
        };
        let data_sheet_url: Option<String> = match opt_text(v, "DataSheetUrl") {
            Some(o) => o,
            None => { return None; },
        };
        Some(Part {
            part_number,
            manufacturer_part_number,
            manufacturer,
            description,
            price_breaks,
            availability_in_stock,
            unit_price,
            product_url,
            data_sheet_url,
        })
    }
}

// ========== results section and whole response ==========

/// The vendor's results section: how many matches it reports, and the
/// candidate parts in the vendor's own order.
pub struct SearchResults {
    pub number_of_result: i32,
    pub parts: Vec<Part>,
}

pub struct SearchResultsView {
    pub number_of_result: i32,
    pub parts: Seq<PartView>,
}

impl View for SearchResults {
    type V = SearchResultsView;

    open spec fn view(&self) -> SearchResultsView {
        SearchResultsView {
            number_of_result: self.number_of_result,
            parts: self.parts.deep_view(),
        }
    }
}

impl DeepView for SearchResults {
    type V = SearchResultsView;

    open spec fn deep_view(&self) -> SearchResultsView {
        self.view()
    }
}

/// What the results section denotes: `NumberOfResult` and `Parts` are both
/// required, and every listed part must be valid.
pub open spec fn search_results_of_json(v: JsonValue) -> Option<SearchResultsView> {
    match (req_i32_field(v, "NumberOfResult"@), field_of(v, "Parts"@)) {
        (Some(n), Some(JsonValue::Arr(items))) => match parts_list_of_json(items@) {
            Some(parts) => Some(SearchResultsView { number_of_result: n, parts }),
            None => None,
        },
        _ => None,
    }
}

fn parts_from_items(items: &Vec<JsonValue>) -> (r: Option<Vec<Part>>)
    ensures
        match r {
            Some(ps) => parts_list_of_json(items@) == Some(ps.deep_view()),
            None => parts_list_of_json(items@) is None,
        },
{
    let n: usize = items.len();
    let mut out: Vec<Part> = Vec::new();
    let mut i: usize = 0;
    proof {
        assert(out.deep_view() =~= Seq::<PartView>::empty());
        assert(items@.subrange(0, 0) =~= Seq::<JsonValue>::empty());
    }
    while i < n
        invariant
            i <= n,
            n == items@.len(),
            parts_list_of_json(items@.subrange(0, i as int)) == Some(out.deep_view()),
        decreases n - i,
    {
        match Part::from_json(&items[i]) {
            Some(p) => {
                let ghost pre_view = out.deep_view();
                let ghost pv = p@;
                out.push(p);
                proof {
                    let pre = items@.subrange(0, i as int);
                    let cur = items@.subrange(0, i + 1 as int);
                    assert(cur.drop_last() =~= pre);
                    assert(cur.last() == items@[i as int]);
                    assert(out.deep_view() =~= pre_view.push(pv));
                }
            },
            None => {
                proof {
                    lemma_parts_list_none(items@, i as int);
                }
                return None;
            },
        }
        i = i + 1;
    }
    proof {
        assert(items@.subrange(0, n as int) =~= items@);
    }
    Some(out)
}

impl SearchResults {
    /// Reads the results section; `None` exactly where the shape violates
    /// the vendor schema.
    pub fn from_json(v: &JsonValue) -> (r: Option<SearchResults>)
        ensures
            match r {
                Some(sr) => search_results_of_json(*v) == Some(sr@),
                None => search_results_of_json(*v) is None,
            },
    {
        let number_of_result: i32 = match v.get("NumberOfResult") {
            Some(JsonValue::Num(s)) => match parse_i32_dec(s.as_str()) {
                Some(n) => n,
                None => { return None; },
            },
            _ => { return None; },
        };
        let parts: Vec<Part> = match v.get("Parts") {
            Some(JsonValue::Arr(items)) => match parts_from_items(items) {
                Some(ps) => ps,
                None => { return None; },
            },
            _ => { return None; },
        };
        Some(SearchResults { number_of_result, parts })
    }
}

/// The vendor's whole answer: an optional error list and an optional
/// results section.
pub struct MouserApiResponse {
    pub errors: Option<Vec<Error>>,
    pub search_results: Option<SearchResults>,
}

pub struct MouserApiResponseView {
    pub errors: Option<Seq<ErrorView>>,
    pub search_results: Option<SearchResultsView>,
}

impl View for MouserApiResponse {
    type V = MouserApiResponseView;

    open spec fn view(&self) -> MouserApiResponseView {
        MouserApiResponseView {
            errors: self.errors.deep_view(),
            search_results: self.search_results.deep_view(),
        }
    }
}

/// What the response's `Errors` member denotes: missing or null is an
/// absent list, an array must be element-wise valid, anything else is a
/// schema violation.
pub open spec fn errors_member_of_json(v: JsonValue) -> Option<Option<Seq<ErrorView>>> {
    match field_of(v, "Errors"@) {
        None => Some(None),
        Some(JsonValue::Null) => Some(None),
        Some(JsonValue::Arr(items)) => match errors_list_of_json(items@) {
            Some(es) => Some(Some(es)),
            None => None,
        },
        Some(_) => None,
    }
}

/// What the response's `SearchResults` member denotes: missing or null is
/// an absent section, anything else must be a valid results section.
pub open spec fn search_results_member_of_json(v: JsonValue) -> Option<
    Option<SearchResultsView>,
> {
    match field_of(v, "SearchResults"@) {
        None => Some(None),
        Some(JsonValue::Null) => Some(None),
        Some(sv) => match search_results_of_json(sv) {
            Some(sr) => Some(Some(sr)),
            None => None,
        },
    }
}

/// What a vendor response denotes: a JSON object whose two known members
/// are valid; unknown members are ignored.
pub open spec fn response_of_json(v: JsonValue) -> Option<MouserApiResponseView> {
    if !(v matches JsonValue::Obj(_)) {
        None
    } else {
        match (errors_member_of_json(v), search_results_member_of_json(v)) {
            (Some(errors), Some(search_results)) => Some(
                MouserApiResponseView { errors, search_results },
            ),
            _ => None,
        }
    }
}

fn errors_from_items(items: &Vec<JsonValue>) -> (r: Option<Vec<Error>>)
    ensures
        match r {
            Some(es) => errors_list_of_json(items@) == Some(es.deep_view()),
            None => errors_list_of_json(items@) is None,
        },
{
    let n: usize = items.len();
    let mut out: Vec<Error> = Vec::new();
    let mut i: usize = 0;
    proof {
        assert(out.deep_view() =~= Seq::<ErrorView>::empty());
        assert(items@.subrange(0, 0) =~= Seq::<JsonValue>::empty());
    }
    while i < n
        invariant
            i <= n,
            n == items@.len(),
            errors_list_of_json(items@.subrange(0, i as int)) == Some(out.deep_view()),
        decreases n - i,
    {
        match Error::from_json(&items[i]) {
            Some(e) => {
                let ghost pre_view = out.deep_view();
                let ghost ev = e@;
                out.push(e);
                proof {
                    let pre = items@.subrange(0, i as int);
                    let cur = items@.subrange(0, i + 1 as int);
                    assert(cur.drop_last() =~= pre);
                    assert(cur.last() == items@[i as int]);
                    assert(out.deep_view() =~= pre_view.push(ev));
                }
            },
            None => {
                proof {
                    lemma_errors_list_none(items@, i as int);
                }
                return None;
            },
        }
        i = i + 1;
    }
    proof {
        assert(items@.subrange(0, n as int) =~= items@);
    }
    Some(out)
}

impl MouserApiResponse {
    /// Reads a whole vendor response; `None` exactly where the shape
    /// violates the vendor schema.
    pub fn from_json(v: &JsonValue) -> (r: Option<MouserApiResponse>)
        ensures
            match r {
                Some(resp) => response_of_json(*v) == Some(resp@),
                None => response_of_json(*v) is None,
            },
    {
        match v {
            JsonValue::Obj(_) => {},
            _ => { return None; },
        }
        let errors: Option<Vec<Error>> = match v.get("Errors") {
            None => None,
            Some(JsonValue::Null) => None,
            Some(JsonValue::Arr(items)) => match errors_from_items(items) {
                Some(es) => Some(es),
                None => { return None; },
            },
            Some(_) => { return None; },
        };
        let search_results: Option<SearchResults> = match v.get("SearchResults") {
            None => None,
            Some(JsonValue::Null) => None,
            Some(sv) => match SearchResults::from_json(sv) {
                Some(sr) => Some(sr),
                None => { return None; },
            },
        };
        Some(MouserApiResponse { errors, search_results })
    }
}

// ========== normalization ==========

/// The stock figure a vendor availability text yields: its value as an
/// unsigned decimal, or zero where the text does not read as one. The
/// fallback to zero is a deliberate, named policy of this adapter.
pub open spec fn stock_of_text(t: Seq<char>) -> u32 {
    match u32_of_dec(t) {
        Some(n) => n,
        None => 0,
    }
}

/// The normalized record a candidate part yields. Every field the vendor
/// supplied is carried over as present; a field the vendor left absent
/// stays absent, except stock, which follows [`stock_of_text`].
pub open spec fn product_view_of_part(p: PartView) -> ProductInfoView {
    ProductInfoView {
        part_number: p.part_number,
        manufacturer_part_number: p.manufacturer_part_number,
        manufacturer: p.manufacturer,
        description: p.description,
        unit_price: p.unit_price,
        stock: match p.availability_in_stock {
            None => None,
            Some(t) => Some(stock_of_text(t)),
        },
        product_url: p.product_url,
        datasheet_url: p.data_sheet_url,
    }
}

impl Part {
    /// Normalizes this candidate into the distributor-agnostic record.
    pub fn to_product_info(&self) -> (r: ProductInfo)
        ensures
            r@ == product_view_of_part(self@),
    {
        let stock: Option<u32> = match &self.availability_in_stock {
            None => None,
            Some(t) => match parse_u32_dec(t.as_str()) {
                Some(n) => Some(n),
                None => Some(0),
            },
        };
        ProductInfo {
            part_number: self.part_number.clone(),
            manufacturer_part_number: clone_opt(&self.manufacturer_part_number),
            manufacturer: clone_opt(&self.manufacturer),
            description: clone_opt(&self.description),
            unit_price: clone_opt(&self.unit_price),
            stock,
            product_url: clone_opt(&self.product_url),
            datasheet_url: clone_opt(&self.data_sheet_url),
        }
    }
}

/// Clones an optional string, keeping absence absent.
fn clone_opt(o: &Option<String>) -> (r: Option<String>)
    ensures
        r == *o,
{
    match o {
        None => None,
        Some(s) => Some(s.clone()),
    }
}

/// The record a whole vendor answer yields: the first listed candidate,
/// normalized; nothing when the results section is absent or lists no
/// candidate.
pub open spec fn first_product(r: MouserApiResponseView) -> Option<ProductInfoView> {
    match r.search_results {
        None => None,
        Some(sr) => if sr.parts.len() == 0 {
            None
        } else {
            Some(product_view_of_part(sr.parts[0]))
        },
    }
}

impl MouserApiResponse {
    /// Selects and normalizes the first candidate match, per
    /// [`first_product`].
    pub fn first_product_info(&self) -> (r: Option<ProductInfo>)
        ensures
            match r {
                Some(p) => first_product(self@) == Some(p@),
                None => first_product(self@) is None,
            },
    {
        match &self.search_results {
            None => None,
            Some(sr) => {
                if sr.parts.len() == 0 {
                    None
                } else {
                    Some(sr.parts[0].to_product_info())
                }
            },
        }
    }
}

/// The outcome a response body text yields: text that is not a JSON
/// document, or a document that violates the vendor schema, yields
/// nothing; a valid response yields its first candidate, normalized.
pub open spec fn product_of_body(s: Seq<char>) -> Option<ProductInfoView> {
    match json_of(s) {
        None => None,
        Some(v) => match response_of_json(v) {
            None => None,
            Some(r) => first_product(r),
        },
    }
}

/// Turns a raw vendor response body into the normalized record, per
/// [`product_of_body`]. Every failure shape yields `None`; no partial
/// record is ever produced.
pub fn product_from_response(body: &str) -> (r: Option<ProductInfo>)
    ensures
        match r {
            Some(p) => product_of_body(body@) == Some(p@),
            None => product_of_body(body@) is None,
        },
{
    match parse_json(body) {
        None => None,
        Some(v) => match MouserApiResponse::from_json(&v) {
            None => None,
            Some(resp) => resp.first_product_info(),
        },
    }
}

// ========== the adapter ==========

/// The base endpoint all initialized adapters target.
pub open spec fn mouser_base_url() -> Seq<char> {
    "https://api.mouser.com/api/v1/"@
}

/// The URL a query goes to: the configured base endpoint, the search path,
/// and the stored key.
pub open spec fn request_url_view(base: Seq<char>, key: Seq<char>) -> Seq<char> {
    base + "/search/partnumber?apiKey="@ + key
}

/// The JSON body of a query: the vendor's search framing around the
/// escaped part number and the escaped stored key.
pub open spec fn request_body_view(key: Seq<char>, part_number: Seq<char>) -> Seq<char> {
    "{\"SearchByPartRequest\":{\"mouserPartNumbers\":[\""@ + json_escaped(part_number)
        + "\"],\"apiKey\":\""@ + json_escaped(key) + "\"}}"@
}

/// One vendor request, ready for transport: where to POST and what JSON
/// body to send.
pub struct QueryRequest {
    pub url: String,
    pub body: String,
}

/// The adapter for the Mouser-style REST catalog. A fresh adapter is
/// unconfigured; initializing it with an API-key config stores the key and
/// fixes the base endpoint, and only then can requests be constructed.
pub struct MouserDistributor {
    pub api_key: String,
    pub base_url: String,
}

impl MouserDistributor {
    /// An adapter is configured once a base endpoint is fixed.
    pub open spec fn configured(self) -> bool {
        self.base_url@.len() > 0
    }

    /// A fresh, unconfigured adapter: no key, no endpoint.
    pub fn new() -> (r: Self)
        ensures
            r.api_key@ == Seq::<char>::empty(),
            r.base_url@ == Seq::<char>::empty(),
            !r.configured(),
    {
        MouserDistributor { api_key: String::new(), base_url: String::new() }
    }

    /// Applies a configuration. An API-key config is stored whole and
    /// fixes the base endpoint; any other variant is not understood by
    /// this adapter and leaves it exactly as it was.
    pub fn initialize(&mut self, config: DistributorConfig)
        ensures
            match config {
                DistributorConfig::ApiKey { api_key } => final(self).api_key == api_key
                    && final(self).base_url@ == mouser_base_url() && final(self).configured(),
                DistributorConfig::OAuth { .. } => *final(self) == *old(self),
            },
    {
        match config {
            DistributorConfig::ApiKey { api_key } => {
                self.api_key = api_key;
                self.base_url = String::from_str("https://api.mouser.com/api/v1/");
                proof {
                    assert(self.base_url@.len() > 0) by {
                        reveal_strlit("https://api.mouser.com/api/v1/");
                    }
                }
            },
            DistributorConfig::OAuth { .. } => {},
        }
    }

    /// Whether a query can be constructed yet.
    pub fn is_configured(&self) -> (b: bool)
        ensures
            b == self.configured(),
    {
        !self.base_url.as_str().is_empty()
    }

    /// Constructs the vendor request for one part number: `Some` exactly
    /// when the adapter is configured, and then the URL and body are the
    /// ones [`request_url_view`] and [`request_body_view`] give for the
    /// stored key.
    pub fn prepare_query(&self, part_number: &str) -> (r: Option<QueryRequest>)
        ensures
            r is Some <==> self.configured(),
            match r {
                Some(q) => q.url@ == request_url_view(self.base_url@, self.api_key@)
                    && q.body@ == request_body_view(self.api_key@, part_number@),
                None => !self.configured(),
            },
    {
        if self.is_configured() {
            let mut url = self.base_url.clone();
            url.append("/search/partnumber?apiKey=");
            url.append(self.api_key.as_str());
            let mut body = String::from_str("{\"SearchByPartRequest\":{\"mouserPartNumbers\":[\"");
            let escaped_pn = json_escape(part_number);
            body.append(escaped_pn.as_str());
            body.append("\"],\"apiKey\":\"");
            let escaped_key = json_escape(self.api_key.as_str());
            body.append(escaped_key.as_str());
            body.append("\"}}");
            proof {
                assert(url@ =~= request_url_view(self.base_url@, self.api_key@));
                assert(body@ =~= request_body_view(self.api_key@, part_number@));
            }
            Some(QueryRequest { url, body })
        } else {
            None
        }
    }
}

// ========== laws ==========

/// `needle` appears contiguously somewhere inside `hay`.
pub open spec fn embeds(hay: Seq<char>, needle: Seq<char>) -> bool {
    exists|a: Seq<char>, b: Seq<char>| hay == a + needle + b
}

/// Every request an adapter constructs uses the stored key: the query URL
/// embeds it verbatim and the query body embeds its escaped form. Together
/// with `initialize`'s postcondition — an API-key config stores exactly the
/// configured key — every query after initialization carries that key.
pub proof fn lemma_requests_embed_stored_key(base: Seq<char>, key: Seq<char>, part_number: Seq<char>)
    ensures
        embeds(request_url_view(base, key), key),
        embeds(request_body_view(key, part_number), json_escaped(key)),
{
    let url_pre = base + "/search/partnumber?apiKey="@;
    let url_post = Seq::<char>::empty();
    assert(request_url_view(base, key) == url_pre + key + url_post) by {
        assert(request_url_view(base, key) =~= url_pre + key + url_post);
    }
    let body_pre = "{\"SearchByPartRequest\":{\"mouserPartNumbers\":[\""@ + json_escaped(part_number)
        + "\"],\"apiKey\":\""@;
    let body_post = "\"}}"@;
    assert(request_body_view(key, part_number) == body_pre + json_escaped(key) + body_post) by {
        assert(request_body_view(key, part_number) =~= body_pre + json_escaped(key) + body_post);
    }
}

/// A response whose single candidate carries every field yields a record
/// whose every optional field is present and equal to the source value,
/// and whose part number is the candidate's own.
pub proof fn lemma_fully_populated_part_round_trips(
    r: MouserApiResponseView,
    sr: SearchResultsView,
    p: PartView,
)
    requires
        r.search_results == Some(sr),
        sr.parts.len() == 1,
        sr.parts[0] == p,
        p.manufacturer_part_number is Some,
        p.manufacturer is Some,
        p.description is Some,
        p.unit_price is Some,
        p.availability_in_stock is Some,
        p.product_url is Some,
        p.data_sheet_url is Some,
    ensures
        first_product(r) == Some(product_view_of_part(p)),
        product_view_of_part(p).part_number == p.part_number,
        product_view_of_part(p).manufacturer_part_number == p.manufacturer_part_number,
        product_view_of_part(p).manufacturer == p.manufacturer,
        product_view_of_part(p).description == p.description,
        product_view_of_part(p).unit_price == p.unit_price,
        product_view_of_part(p).stock is Some,
        product_view_of_part(p).product_url == p.product_url,
        product_view_of_part(p).datasheet_url == p.data_sheet_url,
{
}

/// A field the vendor left absent stays absent in the normalized record:
/// never an empty string, never a made-up value. Stock follows the named
/// policy: absent stays absent, present but unreadable becomes zero.
pub proof fn lemma_absent_fields_stay_absent(
    r: MouserApiResponseView,
    sr: SearchResultsView,
    p: PartView,
)
    requires
        r.search_results == Some(sr),
        sr.parts.len() >= 1,
        sr.parts[0] == p,
    ensures
        first_product(r) == Some(product_view_of_part(p)),
        product_view_of_part(p).manufacturer_part_number == p.manufacturer_part_number,
        product_view_of_part(p).manufacturer == p.manufacturer,
        product_view_of_part(p).description == p.description,
        product_view_of_part(p).unit_price == p.unit_price,
        product_view_of_part(p).product_url == p.product_url,
        product_view_of_part(p).datasheet_url == p.data_sheet_url,
        p.availability_in_stock is None ==> product_view_of_part(p).stock is None,
        forall|t: Seq<char>|
            p.availability_in_stock == Some(t) && u32_of_dec(t) is None
                ==> product_view_of_part(p).stock == Some(0u32),
{
}

/// A well-formed response without a usable results section — the section
/// absent, or present with zero candidates — yields nothing, whatever its
/// error list says.
pub proof fn lemma_no_results_yield_absent(r: MouserApiResponseView)
    requires
        r.search_results is None || (r.search_results matches Some(sr) && sr.parts.len() == 0),
    ensures
        first_product(r) is None,
{
}

/// A body that is not a JSON document, or that violates the vendor
/// schema, yields nothing.
pub proof fn lemma_unusable_body_yields_absent(s: Seq<char>)
    requires
        json_of(s) is None || (json_of(s) matches Some(v) && response_of_json(v) is None),
    ensures
        product_of_body(s) is None,
{
}

/// With two or more candidates, the normalized record comes from the
/// first, in the vendor's own order: its part number is the first
/// candidate's, and differs from the second's whenever those differ.
pub proof fn lemma_first_candidate_wins(r: MouserApiResponseView, sr: SearchResultsView)
    requires
        r.search_results == Some(sr),
        sr.parts.len() >= 2,
    ensures
        first_product(r) == Some(product_view_of_part(sr.parts[0])),
        product_view_of_part(sr.parts[0]).part_number == sr.parts[0].part_number,
        sr.parts[1].part_number != sr.parts[0].part_number ==> product_view_of_part(
            sr.parts[0],
        ).part_number != sr.parts[1].part_number,
{
}

} // verus!
