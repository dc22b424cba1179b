//! The package commands: which operation each one sends, the checks on
//! package files to copy, and the search of a source channel for them.
use vstd::prelude::*;

use crate::cli::{PackageCommand, PackageOrderField, SortDirection};
use crate::commands::channel::{direction_of, order_direction};
use crate::error::PfxError;
use crate::queries::common::{
    OrderDirection, PackageFilter, PackageOrderBy, PackageOrderByField, PackageOrderByFieldField,
    PackageOrderBySimilarity, PackageOrderBySimilarityField, PackageVariantInput, StringFilter,
};
use crate::queries::package::{
    ActiveCopyJobVars, BackgroundJobType, BackgroundJobVars, BatchDeleteVars, CopyPackageUrlInput,
    CopyPackagesVars, PackageGetVars, PackageListVars, PackageMatchspecVars, PackageOperation,
    PackageSearchVars, PackageVersionsVars, UnyankVars, VariantGetVars, YankVars,
};
use crate::response::path1;
use crate::text::{chars_of, clone_strings, int_text, str_texts, u128_to_string};
use crate::urls::{parse_url, url_parse};

verus! {

/// Whether a character is an ASCII hexadecimal digit.
pub open spec fn is_hex_digit(c: char) -> bool {
    ('0' <= c && c <= '9') || ('a' <= c && c <= 'f') || ('A' <= c && c <= 'F')
}

/// Whether a text is a SHA-256 digest in hex: exactly 64 hex digits.
pub open spec fn is_sha256_hex(s: Seq<char>) -> bool {
    s.len() == 64 && forall|i: int| 0 <= i < s.len() ==> is_hex_digit(#[trigger] s[i])
}

/// A package file to copy as texts: its URL and its digest.
pub open spec fn entry_text(p: CopyPackageUrlInput) -> (Seq<char>, Seq<char>) {
    (p.url@, p.sha256@)
}

/// The package files to copy as texts.
pub open spec fn entry_texts(ps: Seq<CopyPackageUrlInput>) -> Seq<(Seq<char>, Seq<char>)> {
    ps.map_values(|p: CopyPackageUrlInput| entry_text(p))
}

/// What is wrong with package file `index` (URL and digest), if anything:
/// a URL that does not parse, a URL that is not HTTP(S), or a digest that
/// is not 64 hex digits.
pub open spec fn entry_problem(e: (Seq<char>, Seq<char>), index: int) -> Option<Seq<char>> {
    match url_parse(e.0) {
        Err(msg) => Some("packages["@ + int_text(index) + "].url is invalid: "@ + msg),
        Ok(parsed) => if !(parsed.1 == "http"@ || parsed.1 == "https"@) {
            Some("packages["@ + int_text(index) + "].url must use HTTP or HTTPS"@)
        } else if !is_sha256_hex(e.1) {
            Some("packages["@ + int_text(index) + "].sha256 must be exactly 64 hexadecimal characters"@)
        } else {
            None
        },
    }
}

/// The problem of the first faulty package file at or after `i`.
pub open spec fn problem_from(es: Seq<(Seq<char>, Seq<char>)>, i: int) -> Option<Seq<char>>
    decreases es.len() - i,
{
    if i < 0 || i >= es.len() {
        None
    } else {
        match entry_problem(es[i], i) {
            Some(m) => Some(m),
            None => problem_from(es, i + 1),
        }
    }
}

/// Whether package files (URLs and digests) may be copied: there is at
/// least one, and none has a problem.
pub open spec fn entries_valid(es: Seq<(Seq<char>, Seq<char>)>) -> bool {
    es.len() > 0 && problem_from(es, 0) is None
}

/// Why package files (URLs and digests) may not be copied.
pub open spec fn entries_error(es: Seq<(Seq<char>, Seq<char>)>) -> Seq<char> {
    if es.len() == 0 {
        "packages must contain at least one item"@
    } else {
        match problem_from(es, 0) {
            Some(m) => m,
            None => Seq::empty(),
        }
    }
}

/// Whether a list of package files may be copied.
pub open spec fn copy_packages_valid(ps: Seq<CopyPackageUrlInput>) -> bool {
    entries_valid(entry_texts(ps))
}

/// Why a list of package files may not be copied.
pub open spec fn copy_packages_error(ps: Seq<CopyPackageUrlInput>) -> Seq<char> {
    entries_error(entry_texts(ps))
}

/// Whether a digest is 64 hexadecimal digits.
fn sha256_is_hex(s: &str) -> (r: bool)
    ensures
        r == is_sha256_hex(s@),
{
    let chars = chars_of(s);
    if chars.len() != 64 {
        return false;
    }
    let mut i: usize = 0;
    while i < chars.len()
        invariant
            i <= chars.len(),
            chars@ == s@,
            forall|j: int| 0 <= j < i ==> is_hex_digit(#[trigger] chars@[j]),
        decreases chars.len() - i,
    {
        let c = chars[i];
        if !(('0' <= c && c <= '9') || ('a' <= c && c <= 'f') || ('A' <= c && c <= 'F')) {
            return false;
        }
        i = i + 1;
    }
    true
}

/// `packages[<index>]` followed by `rest`.
fn indexed_message(index: usize, rest: &str) -> (r: String)
    ensures
        r@ == "packages["@ + int_text(index as int) + rest@,
{
    let mut out = String::from_str("packages[");
    out.append(u128_to_string(index as u128).as_str());
    out.append(rest);
    out
}

/// Checks package files before they are copied: there is at least one,
/// and each has an HTTP(S) URL and a 64-digit hex SHA-256. The error names
/// the first file at fault.
pub fn validate_copy_packages(packages: &[CopyPackageUrlInput]) -> (r: Result<(), PfxError>)
    ensures
        match r {
            Ok(()) => copy_packages_valid(packages@),
            Err(e) => !copy_packages_valid(packages@)
                && (e matches PfxError::InvalidArgument(m) && m@ == copy_packages_error(packages@)),
        },
{
    if packages.len() == 0 {
        return Err(PfxError::InvalidArgument(String::from_str("packages must contain at least one item")));
    }
    let mut index: usize = 0;
    while index < packages.len()
        invariant
            index <= packages.len(),
            packages.len() > 0,
            problem_from(entry_texts(packages@), 0) == problem_from(entry_texts(packages@), index as int),
        decreases packages.len() - index,
    {
        let package = &packages[index];
        let ghost p = entry_texts(packages@)[index as int];
        proof {
            assert(packages@.len() <= usize::MAX);
        }
        match parse_url(package.url.as_str()) {
            Err(error) => {
                let mut m = indexed_message(index, "].url is invalid: ");
                m.append(error.as_str());
                proof {
                    assert(entry_problem(p, index as int) == Some(m@));
                }
                return Err(PfxError::InvalidArgument(m));
            },
            Ok((_, scheme)) => {
                let is_http = scheme == String::from_str("http") || scheme == String::from_str("https");
                if !is_http {
                    let m = indexed_message(index, "].url must use HTTP or HTTPS");
                    proof {
                        assert(entry_problem(p, index as int) == Some(m@));
                    }
                    return Err(PfxError::InvalidArgument(m));
                }
                if !sha256_is_hex(package.sha256.as_str()) {
                    let m = indexed_message(index, "].sha256 must be exactly 64 hexadecimal characters");
                    proof {
                        assert(entry_problem(p, index as int) == Some(m@));
                    }
                    return Err(PfxError::InvalidArgument(m));
                }
                proof {
                    assert(entry_problem(p, index as int) is None);
                }
            },
        }
        index = index + 1;
    }
    Ok(())
}

/// The package field the API is sent for a command-line order field.
pub open spec fn package_field_of(f: PackageOrderField) -> PackageOrderByFieldField {
    match f {
        PackageOrderField::Name => PackageOrderByFieldField::Name,
        PackageOrderField::LastCreatedDate => PackageOrderByFieldField::LastCreatedDate,
        PackageOrderField::TotalSize => PackageOrderByFieldField::TotalSize,
    }
}

/// The ordering of a package search: by similarity of the name to the
/// query, most similar first.
pub open spec fn search_order(query: String) -> PackageOrderBy {
    PackageOrderBy {
        by_field: None,
        by_similarity: Some(PackageOrderBySimilarity {
            field: PackageOrderBySimilarityField::Name,
            direction: OrderDirection::Desc,
            matches: query,
        }),
    }
}

/// The filter of a package list: on names containing a text, if asked for.
pub open spec fn package_list_filter(name_contains: Option<String>) -> Option<PackageFilter> {
    match name_contains {
        Some(name) => Some(PackageFilter {
            or: None,
            and: None,
            name: Some(StringFilter {
                eq: None,
                ne: None,
                is_in: None,
                is_not_in: None,
                starts_with: None,
                ends_with: None,
                contains: Some(name),
            }),
        }),
        None => None,
    }
}

/// The ordering of a package list: by the field asked for, if any.
pub open spec fn package_list_order(order_by: Option<PackageOrderField>, direction: SortDirection) -> Option<PackageOrderBy> {
    match order_by {
        Some(f) => Some(PackageOrderBy {
            by_field: Some(PackageOrderByField { field: package_field_of(f), direction: direction_of(direction) }),
            by_similarity: None,
        }),
        None => None,
    }
}

/// Whether the commands that copy or delete files read from JSON or
/// another channel: these have no operation of their own until their
/// input is parsed or resolved.
pub open spec fn needs_input(c: PackageCommand) -> bool {
    c is Copy || c is CopyFromChannel || c is BatchDelete
}

/// Whether `op` is the operation a package command sends (for the
/// commands that need no input first).
pub open spec fn package_operation_for(c: PackageCommand, op: PackageOperation) -> bool {
    match c {
        PackageCommand::Get { channel, name, variants_page, variants_limit } =>
            op == PackageOperation::PackageGetQuery(PackageGetVars {
                channel_name: channel,
                name,
                variants_limit: Some(variants_limit),
                variants_page: Some(variants_page),
            }),
        PackageCommand::Search { query, limit, page } =>
            op == PackageOperation::PackageSearchQuery(PackageSearchVars {
                order_by: Some(search_order(query)),
                limit: Some(limit),
                page: Some(page),
            }),
        PackageCommand::List { name_contains, limit, page, order_by, direction } =>
            op == PackageOperation::PackageListQuery(PackageListVars {
                filters: package_list_filter(name_contains),
                order_by: package_list_order(order_by, direction),
                limit: Some(limit),
                page: Some(page),
            }),
        PackageCommand::Matchspec { spec, channels } =>
            op matches PackageOperation::PackageMatchspecQuery(v)
                && v.match_spec == spec && v.channels@ == channels@,
        PackageCommand::Variant { channel, package, platform, filename } =>
            op == PackageOperation::VariantGetQuery(VariantGetVars {
                channel_name: channel,
                package_name: package,
                platform_name: platform,
                file_name: filename,
            }),
        PackageCommand::Versions { channel, name, limit, page } =>
            op == PackageOperation::PackageVersionsQuery(PackageVersionsVars {
                channel_name: channel,
                name,
                limit: Some(limit),
                page: Some(page),
            }),
        PackageCommand::Yank { channel, subdir, filename, reason } =>
            op matches PackageOperation::YankMutation(v)
                && v.channel_name == channel
                && v.entries@ == seq![PackageVariantInput { subdir, filename }]
                && v.reason == reason
                && v.also_hide is None,
        PackageCommand::Unyank { channel, subdir, filename } =>
            op matches PackageOperation::UnyankMutation(v)
                && v.channel_name == channel
                && v.entries@ == seq![PackageVariantInput { subdir, filename }]
                && v.also_unhide is None,
        PackageCommand::CopyStatus { id } =>
            op == PackageOperation::BackgroundJobQuery(BackgroundJobVars { id }),
        PackageCommand::ActiveCopy { channel } =>
            op == PackageOperation::ActiveCopyJobQuery(ActiveCopyJobVars {
                channel_name: channel,
                job_type: Some(BackgroundJobType::CopyPackagesFromUrl),
            }),
        _ => false,
    }
}

/// One variant entry, as a list.
fn single_entry(subdir: &String, filename: &String) -> (r: Vec<PackageVariantInput>)
    ensures
        r@ == seq![PackageVariantInput { subdir: *subdir, filename: *filename }],
{
    let mut v: Vec<PackageVariantInput> = Vec::new();
    v.push(PackageVariantInput { subdir: subdir.clone(), filename: filename.clone() });
    v
}

/// The operation a package command sends, with its variables. The
/// commands that copy or delete files first need their input parsed or
/// resolved: for them there is none yet.
pub fn package_operation(command: &PackageCommand) -> (r: Option<PackageOperation>)
    ensures
        r is None <==> needs_input(*command),
        r matches Some(op) ==> package_operation_for(*command, op),
{
    match command {
        PackageCommand::Get { channel, name, variants_page, variants_limit } =>
            Some(PackageOperation::PackageGetQuery(PackageGetVars {
                channel_name: channel.clone(),
                name: name.clone(),
                variants_limit: Some(*variants_limit),
                variants_page: Some(*variants_page),
            })),
        PackageCommand::Search { query, limit, page } =>
            Some(PackageOperation::PackageSearchQuery(PackageSearchVars {
                order_by: Some(PackageOrderBy {
                    by_field: None,
                    by_similarity: Some(PackageOrderBySimilarity {
                        field: PackageOrderBySimilarityField::Name,
                        direction: OrderDirection::Desc,
                        matches: query.clone(),
                    }),
                }),
                limit: Some(*limit),
                page: Some(*page),
            })),
        PackageCommand::List { name_contains, limit, page, order_by, direction } => {
            let filters = match name_contains {
                Some(name) => Some(PackageFilter {
                    or: None,
                    and: None,
                    name: Some(StringFilter {
                        eq: None,
                        ne: None,
                        is_in: None,
                        is_not_in: None,
                        starts_with: None,
                        ends_with: None,
                        contains: Some(name.clone()),
                    }),
                }),
                None => None,
            };
            let order = match order_by {
                Some(f) => Some(PackageOrderBy {
                    by_field: Some(PackageOrderByField {
                        field: match f {
                            PackageOrderField::Name => PackageOrderByFieldField::Name,
                            PackageOrderField::LastCreatedDate => PackageOrderByFieldField::LastCreatedDate,
                            PackageOrderField::TotalSize => PackageOrderByFieldField::TotalSize,
                        },
                        direction: order_direction(*direction),
                    }),
                    by_similarity: None,
                }),
                None => None,
            };
            Some(PackageOperation::PackageListQuery(PackageListVars {
                filters,
                order_by: order,
                limit: Some(*limit),
                page: Some(*page),
            }))
        },
        PackageCommand::Matchspec { spec, channels } =>
            Some(PackageOperation::PackageMatchspecQuery(PackageMatchspecVars {
                match_spec: spec.clone(),
                channels: clone_strings(channels),
            })),
        PackageCommand::Variant { channel, package, platform, filename } =>
            Some(PackageOperation::VariantGetQuery(VariantGetVars {
                channel_name: channel.clone(),
                package_name: package.clone(),
                platform_name: platform.clone(),
                file_name: filename.clone(),
            })),
        PackageCommand::Versions { channel, name, limit, page } =>
            Some(PackageOperation::PackageVersionsQuery(PackageVersionsVars {
                channel_name: channel.clone(),
                name: name.clone(),
                limit: Some(*limit),
                page: Some(*page),
            })),
        PackageCommand::Yank { channel, subdir, filename, reason } =>
            Some(PackageOperation::YankMutation(YankVars {
                channel_name: channel.clone(),
                entries: single_entry(subdir, filename),
                reason: reason.clone(),
                also_hide: None,
            })),
        PackageCommand::Unyank { channel, subdir, filename } =>
            Some(PackageOperation::UnyankMutation(UnyankVars {
                channel_name: channel.clone(),
                entries: single_entry(subdir, filename),
                also_unhide: None,
            })),
        PackageCommand::CopyStatus { id } =>
            Some(PackageOperation::BackgroundJobQuery(BackgroundJobVars { id: id.clone() })),
        PackageCommand::ActiveCopy { channel } =>
            Some(PackageOperation::ActiveCopyJobQuery(ActiveCopyJobVars {
                channel_name: channel.clone(),
                job_type: Some(BackgroundJobType::CopyPackagesFromUrl),
            })),
        PackageCommand::Copy { .. } => None,
        PackageCommand::CopyFromChannel { .. } => None,
        PackageCommand::BatchDelete { .. } => None,
    }
}

/// The mutation that copies package files into a channel, once they are
/// checked; the error of the check otherwise.
pub fn copy_packages_operation(channel: &str, packages: Vec<CopyPackageUrlInput>) -> (r: Result<PackageOperation, PfxError>)
    ensures
        match r {
            Ok(op) => copy_packages_valid(packages@)
                && (op matches PackageOperation::CopyPackagesMutation(v)
                    && v.channel_name@ == channel@ && v.packages@ == packages@),
            Err(e) => !copy_packages_valid(packages@)
                && (e matches PfxError::InvalidArgument(m) && m@ == copy_packages_error(packages@)),
        },
{
    match validate_copy_packages(packages.as_slice()) {
        Err(e) => Err(e),
        Ok(()) => Ok(PackageOperation::CopyPackagesMutation(CopyPackagesVars {
            channel_name: String::from_str(channel),
            packages,
        })),
    }
}

/// The mutation that deletes the given variants of a channel.
pub fn batch_delete_operation(channel: &str, entries: Vec<PackageVariantInput>) -> (r: PackageOperation)
    ensures
        r matches PackageOperation::BatchDeleteMutation(v) && v.channel_name@ == channel@ && v.entries@ == entries@,
{
    PackageOperation::BatchDeleteMutation(BatchDeleteVars { channel_name: String::from_str(channel), entries })
}

/// Whether a package file (URL and digest) passes the checks: its URL
/// parses and is HTTP(S), and its digest is 64 hex digits.
pub open spec fn entry_pinned(e: (Seq<char>, Seq<char>)) -> bool {
    &&& url_parse(e.0) matches Ok(parsed) && (parsed.1 == "http"@ || parsed.1 == "https"@)
    &&& is_sha256_hex(e.1)
}

/// No file at or after `i` has a problem exactly when each passes the
/// checks.
proof fn lemma_problem_from_none(es: Seq<(Seq<char>, Seq<char>)>, i: int)
    requires
        0 <= i <= es.len(),
    ensures
        problem_from(es, i) is None <==> forall|j: int| i <= j < es.len() ==> entry_pinned(#[trigger] es[j]),
    decreases es.len() - i,
{
    if i < es.len() {
        lemma_problem_from_none(es, i + 1);
        if problem_from(es, i) is None {
            assert forall|j: int| i <= j < es.len() implies entry_pinned(#[trigger] es[j]) by {
                if j > i {
                    assert(i + 1 <= j);
                }
            }
        }
    }
}

/// Law: a list of package files is accepted for copying exactly when it
/// is not empty and every file in it passes the checks on its own: an
/// HTTP(S) URL and a 64-digit hex SHA-256.
pub proof fn copy_check_is_per_file(ps: Seq<CopyPackageUrlInput>)
    ensures
        copy_packages_valid(ps) <==> (ps.len() > 0 && forall|j: int| 0 <= j < ps.len() ==> entry_pinned(#[trigger] entry_texts(ps)[j])),
{
    lemma_problem_from_none(entry_texts(ps), 0);
}

/// Where in the data of its answer the result of a package operation lies: the
/// member it asks for, and for the mutations that answer with a wrapper,
/// the `channel` inside it.
pub open spec fn package_result_path_of(op: PackageOperation) -> Seq<Seq<char>> {
    match op {
        PackageOperation::PackageGetQuery(_) => seq!["package"@],
        PackageOperation::PackageSearchQuery(_) => seq!["packages"@],
        PackageOperation::PackageListQuery(_) => seq!["packages"@],
        PackageOperation::PackageMatchspecQuery(_) => seq!["packageByMatchspec"@],
        PackageOperation::VariantGetQuery(_) => seq!["variant"@],
        PackageOperation::PackageVersionsQuery(_) => seq!["package"@],
        PackageOperation::CopySourcePackageQuery(_) => seq!["package"@],
        PackageOperation::YankMutation(_) => seq!["batchYankPackageVariants"@],
        PackageOperation::UnyankMutation(_) => seq!["batchUnyankPackageVariants"@],
        PackageOperation::BatchDeleteMutation(_) => seq!["batchDeletePackageVariants"@],
        PackageOperation::CopyPackagesMutation(_) => seq!["copyPackagesFromUrls"@],
        PackageOperation::BackgroundJobQuery(_) => seq!["backgroundJob"@],
        PackageOperation::ActiveCopyJobQuery(_) => seq!["activeBackgroundJob"@],
    }
}

/// Where in the data of its answer the result of a package operation lies.
pub fn package_result_path(op: &PackageOperation) -> (r: Vec<&'static str>)
    ensures
        str_texts(r@) == package_result_path_of(*op),
{
    match op {
        PackageOperation::PackageGetQuery(_) => path1("package"),
        PackageOperation::PackageSearchQuery(_) => path1("packages"),
        PackageOperation::PackageListQuery(_) => path1("packages"),
        PackageOperation::PackageMatchspecQuery(_) => path1("packageByMatchspec"),
        PackageOperation::VariantGetQuery(_) => path1("variant"),
        PackageOperation::PackageVersionsQuery(_) => path1("package"),
        PackageOperation::CopySourcePackageQuery(_) => path1("package"),
        PackageOperation::YankMutation(_) => path1("batchYankPackageVariants"),
        PackageOperation::UnyankMutation(_) => path1("batchUnyankPackageVariants"),
        PackageOperation::BatchDeleteMutation(_) => path1("batchDeletePackageVariants"),
        PackageOperation::CopyPackagesMutation(_) => path1("copyPackagesFromUrls"),
        PackageOperation::BackgroundJobQuery(_) => path1("backgroundJob"),
        PackageOperation::ActiveCopyJobQuery(_) => path1("activeBackgroundJob"),
    }
}

} // verus!
