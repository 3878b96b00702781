//! Types of other crates that the library's values carry without looking inside.
use vstd::prelude::*;

verus! {

/// An absolute URL (camera device, stream address, webhook).
#[verifier::external_type_specification]
#[verifier::external_body]
pub struct ExUrl(url::Url);

/// An identifier of a camera, stream, model or deployment.
#[verifier::external_type_specification]
#[verifier::external_body]
pub struct ExUuid(uuid::Uuid);

/// A path on the machine that runs the pipeline.
#[verifier::external_type_specification]
#[verifier::external_body]
pub struct ExPathBuf(std::path::PathBuf);

/// Relies on the `Clone` that `uuid::Uuid` derives: the copy holds the same bytes.
pub assume_specification[ <uuid::Uuid as Clone>::clone ](u: &uuid::Uuid) -> (r: uuid::Uuid)
    ensures
        r == *u,
;

/// Relies on the `Clone` that `url::Url` derives: the copy holds the same
/// serialization and offsets.
pub assume_specification[ <url::Url as Clone>::clone ](u: &url::Url) -> (r: url::Url)
    ensures
        r == *u,
;

/// Relies on `Clone` for `std::path::PathBuf`, documented as a copy of the path.
pub assume_specification[ <std::path::PathBuf as Clone>::clone ](p: &std::path::PathBuf) -> (r:
    std::path::PathBuf)
    ensures
        r == *p,
;

} // verus!
