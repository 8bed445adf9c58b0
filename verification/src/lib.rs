//! The geoarrow-c type vocabulary, the type codes of geoarrow data types,
//! and the checks behind reading the geoarrow type of an Arrow C Data
//! Interface schema.
//!
//! - `types`: the geoarrow-c constants and their `int32_t` values.
//! - `data_type`: geoarrow data types and the codes that describe them.
//! - `error`: why reading a schema's type fails, with codes and messages.
//! - `schema`: the checks on a raw schema tree, as a walk that asks its
//!   caller for one read at a time.
//! - `query`: the whole decision of reading a schema's type.
pub mod data_type;
pub mod error;
pub mod query;
pub mod schema;
pub mod types;
