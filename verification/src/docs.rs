//! The OpenAPI description of the service.
use vstd::prelude::*;

verus! {

/// The OpenAPI document of the service: its paths, schemas and the bearer
/// security scheme. The application derives the document from its copy of
/// this type.
pub struct ApiDoc;

} // verus!
