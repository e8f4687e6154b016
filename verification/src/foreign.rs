//! The types of other crates that values of this library carry. The library
//! hands them on and never looks into them.

use vstd::prelude::*;

verus! {

/// A UUID.
#[verifier::external_type_specification]
#[verifier::external_body]
pub struct ExUuid(uuid::Uuid);

/// A moment in time, as ISO 8601 writes it.
#[verifier::external_type_specification]
#[verifier::external_body]
pub struct ExTimestamp(iso8601_timestamp::Timestamp);

/// A parsed URL.
#[verifier::external_type_specification]
#[verifier::external_body]
pub struct ExUrl(url::Url);

/// A JSON value of any shape.
#[verifier::external_type_specification]
#[verifier::external_body]
pub struct ExValue(serde_json::Value);

/// `Uuid` is `Copy`: its clone is the same UUID.
pub assume_specification[ <uuid::Uuid as Clone>::clone ](id: &uuid::Uuid) -> (copy: uuid::Uuid)
    ensures
        copy == *id,
;

/// `Timestamp` is `Copy`: its clone is the same moment.
pub assume_specification[ <iso8601_timestamp::Timestamp as Clone>::clone ](
    time: &iso8601_timestamp::Timestamp,
) -> (copy: iso8601_timestamp::Timestamp)
    ensures
        copy == *time,
;

/// The clone of a `Url`, which `derive` wrote: a URL of the same parts.
pub assume_specification[ <url::Url as Clone>::clone ](link: &url::Url) -> (copy: url::Url);

/// The clone of a `Value`, which `derive` wrote: a value of the same shape
/// and content.
pub assume_specification[ <serde_json::Value as Clone>::clone ](value: &serde_json::Value) -> (copy:
    serde_json::Value);

} // verus!
