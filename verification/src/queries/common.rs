//! Scalars, enums and input objects shared by the operations.
use vstd::prelude::*;

use crate::json::JsonValue;

verus! {

/// A `DateTime` scalar, as its RFC 3339 text.
#[derive(Debug, Clone, PartialEq, Eq)]
pub struct DateTime(pub String);

/// A `NaiveDate` scalar, as its text.
#[derive(Debug, Clone, PartialEq, Eq)]
pub struct NaiveDate(pub String);

/// A `JSON` scalar.
#[derive(Debug)]
pub struct Json(pub JsonValue);

/// The direction of an ordering.
#[derive(Debug, Clone, Copy, PartialEq, Eq, Structural)]
pub enum OrderDirection {
    Asc,
    Desc,
}

/// The role of a channel member.
#[derive(Debug, Clone, Copy, PartialEq, Eq, Structural)]
pub enum ChannelMemberRole {
    Owner,
    Contributor,
    Viewer,
    Member,
}

/// What a scoped credential may do on a channel.
#[derive(Debug, Clone, Copy, PartialEq, Eq, Structural)]
pub enum ChannelAccessMode {
    All,
    Read,
    ReadWrite,
    ReadWriteDelete,
}

/// The fields channels can be ordered by.
#[derive(Debug, Clone, Copy, PartialEq, Eq, Structural)]
pub enum ChannelOrderByFieldField {
    Name,
    BillingOwner,
    Namespace,
    Size,
    CreatedAt,
    PackageCount,
}

/// The fields channels can be ranked by similarity on.
#[derive(Debug, Clone, Copy, PartialEq, Eq, Structural)]
pub enum ChannelOrderBySimilarityField {
    Name,
}

/// The fields packages can be ordered by.
#[derive(Debug, Clone, Copy, PartialEq, Eq, Structural)]
pub enum PackageOrderByFieldField {
    Name,
    LastCreatedDate,
    TotalSize,
}

/// The fields packages can be ranked by similarity on.
#[derive(Debug, Clone, Copy, PartialEq, Eq, Structural)]
pub enum PackageOrderBySimilarityField {
    Name,
}

/// The kinds of package URLs.
#[derive(Debug, Clone, Copy, PartialEq, Eq, Structural)]
pub enum UrlKind {
    Dev,
    Doc,
    Home,
    Source,
    Feedstock,
}

/// A filter on a string field.
#[derive(Debug, Clone)]
pub struct StringFilter {
    pub eq: Option<String>,
    pub ne: Option<String>,
    pub is_in: Option<Vec<String>>,
    pub is_not_in: Option<Vec<String>>,
    pub starts_with: Option<String>,
    pub ends_with: Option<String>,
    pub contains: Option<String>,
}

/// A filter on channels.
#[derive(Debug)]
pub struct ChannelFilter {
    pub or: Option<Vec<ChannelFilter>>,
    pub and: Option<Vec<ChannelFilter>>,
    pub name: Option<StringFilter>,
    pub owner: Option<StringFilter>,
    pub namespace: Option<StringFilter>,
    pub is_public: Option<bool>,
    pub has_owner: Option<bool>,
    pub has_mirror: Option<bool>,
}

/// An ordering of channels: by a field or by similarity to a text.
#[derive(Debug, Clone)]
pub struct ChannelOrderBy {
    pub by_field: Option<ChannelOrderByField>,
    pub by_similarity: Option<ChannelOrderBySimilarity>,
}

/// An ordering of channels by a field.
#[derive(Debug, Clone)]
pub struct ChannelOrderByField {
    pub direction: OrderDirection,
    pub field: ChannelOrderByFieldField,
}

/// An ordering of channels by similarity to a text.
#[derive(Debug, Clone)]
pub struct ChannelOrderBySimilarity {
    pub direction: OrderDirection,
    pub field: ChannelOrderBySimilarityField,
    pub matches: String,
}

/// A filter on packages.
#[derive(Debug)]
pub struct PackageFilter {
    pub or: Option<Vec<PackageFilter>>,
    pub and: Option<Vec<PackageFilter>>,
    pub name: Option<StringFilter>,
}

/// An ordering of packages: by a field or by similarity to a text.
#[derive(Debug, Clone)]
pub struct PackageOrderBy {
    pub by_field: Option<PackageOrderByField>,
    pub by_similarity: Option<PackageOrderBySimilarity>,
}

/// An ordering of packages by a field.
#[derive(Debug, Clone)]
pub struct PackageOrderByField {
    pub direction: OrderDirection,
    pub field: PackageOrderByFieldField,
}

/// An ordering of packages by similarity to a text.
#[derive(Debug, Clone)]
pub struct PackageOrderBySimilarity {
    pub direction: OrderDirection,
    pub field: PackageOrderBySimilarityField,
    pub matches: String,
}

/// One package variant of a channel: its platform subdir and file name.
#[derive(Debug, Clone)]
pub struct PackageVariantInput {
    pub subdir: String,
    pub filename: String,
}

} // verus!
