//! Variables, operations and response shapes about packages and jobs.
use vstd::prelude::*;

use super::common::{PackageFilter, PackageOrderBy, PackageVariantInput};

verus! {

/// Variables of the package detail query.
#[derive(Debug)]
pub struct PackageGetVars {
    pub channel_name: String,
    pub name: String,
    pub variants_limit: Option<i32>,
    pub variants_page: Option<i32>,
}

/// Variables of the package search query.
#[derive(Debug)]
pub struct PackageSearchVars {
    pub order_by: Option<PackageOrderBy>,
    pub limit: Option<i32>,
    pub page: Option<i32>,
}

/// Variables of the package list query.
#[derive(Debug)]
pub struct PackageListVars {
    pub filters: Option<PackageFilter>,
    pub order_by: Option<PackageOrderBy>,
    pub limit: Option<i32>,
    pub page: Option<i32>,
}

/// Variables of the matchspec query.
#[derive(Debug)]
pub struct PackageMatchspecVars {
    pub match_spec: String,
    pub channels: Vec<String>,
}

/// Variables naming one variant.
#[derive(Debug)]
pub struct VariantGetVars {
    pub channel_name: String,
    pub package_name: String,
    pub platform_name: String,
    pub file_name: String,
}

/// Variables of the package versions query.
#[derive(Debug)]
pub struct PackageVersionsVars {
    pub channel_name: String,
    pub name: String,
    pub limit: Option<i32>,
    pub page: Option<i32>,
}

/// The channel of a package to copy from: where its files are served.
#[derive(Debug)]
pub struct CopySourceChannel {
    pub base_url: String,
}

/// A variant of a package to copy.
#[derive(Debug)]
pub struct CopySourceVariant {
    pub filename: String,
    pub platform: String,
    pub sha256: Option<String>,
}

/// A page of variants of a package to copy.
#[derive(Debug)]
pub struct CopySourceVariantPage {
    pub page: Vec<CopySourceVariant>,
    pub pages: i32,
}

/// A package to copy: its channel and a page of its variants.
#[derive(Debug)]
pub struct CopySourcePackage {
    pub channel: CopySourceChannel,
    pub variants: CopySourceVariantPage,
}

/// Variables of the query for a page of variants to copy.
#[derive(Debug)]
pub struct CopySourcePackageVars {
    pub channel_name: String,
    pub package_name: String,
    pub limit: Option<i32>,
    pub page: Option<i32>,
    pub version: Option<String>,
    pub platform: Option<String>,
}

/// Variables of the mutation that yanks variants.
#[derive(Debug)]
pub struct YankVars {
    pub channel_name: String,
    pub entries: Vec<PackageVariantInput>,
    pub reason: String,
    pub also_hide: Option<bool>,
}

/// Variables of the mutation that unyanks variants.
#[derive(Debug)]
pub struct UnyankVars {
    pub channel_name: String,
    pub entries: Vec<PackageVariantInput>,
    pub also_unhide: Option<bool>,
}

/// Variables of the mutation that deletes variants.
#[derive(Debug)]
pub struct BatchDeleteVars {
    pub channel_name: String,
    pub entries: Vec<PackageVariantInput>,
}

/// One package file to copy: its URL and its SHA-256 digest.
#[derive(Debug, Clone)]
pub struct CopyPackageUrlInput {
    pub url: String,
    pub sha256: String,
}

/// The state of a background job.
#[derive(Debug, Clone, Copy, PartialEq, Eq, Structural)]
pub enum BackgroundJobStatus {
    Pending,
    InProgress,
    Completed,
    CompletedWithErrors,
    Failed,
}

/// The kinds of background jobs.
#[derive(Debug, Clone, Copy, PartialEq, Eq, Structural)]
pub enum BackgroundJobType {
    BatchDeletePackages,
    CopyPackagesFromUrl,
}

/// Variables of the mutation that copies package files into a channel.
#[derive(Debug)]
pub struct CopyPackagesVars {
    pub channel_name: String,
    pub packages: Vec<CopyPackageUrlInput>,
}

/// Variables naming a background job.
#[derive(Debug)]
pub struct BackgroundJobVars {
    pub id: String,
}

/// Variables of the query for a channel's active job.
#[derive(Debug)]
pub struct ActiveCopyJobVars {
    pub channel_name: String,
    pub job_type: Option<BackgroundJobType>,
}

/// The operations about packages and jobs, with their variables.
#[derive(Debug)]
pub enum PackageOperation {
    PackageGetQuery(PackageGetVars),
    PackageSearchQuery(PackageSearchVars),
    PackageListQuery(PackageListVars),
    PackageMatchspecQuery(PackageMatchspecVars),
    VariantGetQuery(VariantGetVars),
    PackageVersionsQuery(PackageVersionsVars),
    CopySourcePackageQuery(CopySourcePackageVars),
    YankMutation(YankVars),
    UnyankMutation(UnyankVars),
    BatchDeleteMutation(BatchDeleteVars),
    CopyPackagesMutation(CopyPackagesVars),
    BackgroundJobQuery(BackgroundJobVars),
    ActiveCopyJobQuery(ActiveCopyJobVars),
}

} // verus!
