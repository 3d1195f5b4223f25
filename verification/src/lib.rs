//! A client for MeiliSearch servers, with its decisions verified: the
//! requests that each operation sends, what each answer means, the error
//! descriptions of the server, and the plan of the `#[meilisearch_test]`
//! attribute.
use vstd::prelude::*;

pub mod client;
pub mod errors;
pub mod indexes;
pub mod request;
mod support;
pub mod test_macro;
