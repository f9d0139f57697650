//! Client-side logic for the French national address geocoding service:
//! query URLs, the error taxonomy, and the decoding of response bodies into
//! typed address records.

pub mod address;
pub mod client;
pub mod decode;
pub mod encode;
pub mod error;
pub mod escape;
pub mod json;
pub mod parse;
pub mod url;

pub use address::{AddressResult, Coordinates, Decimal, Feature, Geometry, Properties};
pub use client::{decode, get_data, Fetched};
pub use error::Error;
pub use json::{Json, Member};
pub use url::{reverse_url, search_url};
