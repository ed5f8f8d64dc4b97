//! Normalized electronic-component lookup across distributor catalog APIs.
//!
//! A caller configures an adapter for one distributor, hands it a part
//! number, and receives one normalized product record, or nothing when the
//! part is unknown or the vendor's answer is unusable.
//!
//! The adapter's state machine, its request construction, and the mapping
//! of a vendor response into the normalized record are verified. JSON text
//! is turned into a value tree by `serde_json` behind one trusted
//! function; the HTTP round trip is left to the caller, who feeds the raw
//! response body back in.

pub mod distributor;
pub mod distributors;
pub mod json;
pub mod text;

pub use distributor::DistributorConfig;
pub use distributor::ProductInfo;
pub use distributors::mouser::MouserApiResponse;
pub use distributors::mouser::MouserDistributor;
pub use distributors::mouser::QueryRequest;
pub use distributors::mouser::product_from_response;
