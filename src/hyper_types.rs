//! hyper's types that pass through the library's logic. Values of them are
//! opaque here: the library carries them and never looks inside.

use vstd::prelude::*;

verus! {

/// A failure of hyper's client or server machinery.
#[verifier::external_type_specification]
#[verifier::external_body]
pub struct ExHyperError(hyper::Error);

/// A failure to assemble an HTTP request or URI from its parts.
#[verifier::external_type_specification]
#[verifier::external_body]
pub struct ExHttpError(hyper::http::Error);

/// A parsed URI, as hyper's client takes it.
#[verifier::external_type_specification]
#[verifier::external_body]
pub struct ExUri(hyper::Uri);

} // verus!
