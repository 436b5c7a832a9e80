//! A cross-runtime schema bridge: builds, for one native type at a time, a
//! descriptor that a foreign dynamic-language validation engine can use to
//! accept, validate, and serialize values of that type.
//!
//! Validation dispatches over two input shapes: a fast path for values that
//! already carry the native type's identity, and a generic path that
//! reconstructs the native type from an untyped string-keyed tree. Errors
//! from deep within the codec are translated into a single foreign-visible
//! error kind whose message names the failing phase and embeds the
//! underlying diagnostic verbatim.

mod adapter;
mod codec;
mod errors;
mod point;
mod schema;
mod tree;
mod value;

pub use adapter::extract_diagnostic;
pub use adapter::lemma_fast_path;
pub use adapter::lemma_generic_round_trip;
pub use adapter::lemma_round_trip_fidelity;
pub use adapter::serialize_spec;
pub use adapter::validate_spec;
pub use codec::NativeType;
pub use errors::deserialize_failure_message;
pub use errors::extract_failure_message;
pub use errors::serialize_failure_message;
pub use errors::translate_decode_failure;
pub use errors::translate_encode_failure;
pub use errors::translate_extract_failure;
pub use errors::CodecError;
pub use errors::SerializationError;
pub use errors::ValidationError;
pub use point::Point;
pub use schema::descriptor_schema;
pub use schema::lemma_instance_precedence;
pub use schema::lemma_union_prefers_first;
pub use schema::register;
pub use schema::sub_matches;
pub use schema::union_route;
pub use schema::ItemSchema;
pub use schema::SchemaDescriptor;
pub use schema::SubSchema;
pub use schema::UnionSchema;
pub use tree::lookup;
pub use tree::GenericValue;
pub use tree::Tree;
pub use value::shape_name;
pub use value::ForeignVal;
pub use value::ForeignValue;
