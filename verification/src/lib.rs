//! A typed, verified builder for Elasticsearch query-DSL and aggregation-DSL
//! documents.
//!
//! Each DSL kind is a typed value: a constructor sets the required
//! parameters, chained modifiers set the optional ones, and a serializer
//! renders the value to the exact nested JSON shape the Elasticsearch HTTP
//! API expects, omitting absent optional fields and flattening pairs whose
//! key is user data.

pub mod aggregations;
pub mod geo;
pub mod json;
pub mod number;
pub mod queries;

pub use aggregations::Aggregation;
pub use aggregations::Aggregations;
pub use aggregations::NestedAggregation;
pub use aggregations::ReverseNestedAggregation;
pub use geo::GeoBoundingBox;
pub use geo::GeoPoint;
pub use json::Json;
pub use json::render;
pub use number::Number;
pub use queries::GeoBoundingBoxQuery;
pub use queries::Query;
pub use queries::ValidationMethod;
pub use queries::queries_json;

use vstd::prelude::*;

verus! {

/// True when a dynamic key is considered empty, which suppresses
/// serialization of the value it gates.
pub open spec fn key_is_empty(k: Seq<char>) -> bool {
    k.len() == 0
}

} // verus!
