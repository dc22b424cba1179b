use pixi_pfx::cli::{PackageCommand, PackageOrderField, SortDirection};
use pixi_pfx::commands::package::{
    batch_delete_operation, copy_packages_operation, package_operation, validate_copy_packages,
};
use pixi_pfx::error::PfxError;
use pixi_pfx::queries::common::{OrderDirection, PackageOrderByFieldField, PackageVariantInput};
use pixi_pfx::queries::package::{BackgroundJobType, CopyPackageUrlInput, PackageOperation};

fn file(url: &str, sha256: &str) -> CopyPackageUrlInput {
    CopyPackageUrlInput { url: url.to_string(), sha256: sha256.to_string() }
}

fn invalid_message(r: Result<(), PfxError>) -> String {
    match r {
        Err(PfxError::InvalidArgument(m)) => m,
        other => panic!("expected an invalid argument, got {:?}", other),
    }
}

#[test]
fn validates_copy_package_inputs() {
    let valid = vec![CopyPackageUrlInput {
        url: "https://prefix.dev/conda-forge/linux-64/example-1.0.conda".to_string(),
        sha256: "a".repeat(64),
    }];
    assert!(validate_copy_packages(&valid).is_ok());

    let invalid_hash = vec![CopyPackageUrlInput {
        url: "https://prefix.dev/example.conda".to_string(),
        sha256: "not-a-sha256".to_string(),
    }];
    assert!(validate_copy_packages(&invalid_hash).is_err());

    let invalid_scheme = vec![CopyPackageUrlInput {
        url: "file:///tmp/example.conda".to_string(),
        sha256: "a".repeat(64),
    }];
    assert!(validate_copy_packages(&invalid_scheme).is_err());
}

#[test]
fn empty_copy_list_is_refused() {
    assert_eq!(invalid_message(validate_copy_packages(&[])), "packages must contain at least one item");
}

#[test]
fn copy_errors_name_the_first_faulty_file() {
    let sha = "0123456789abcdefABCDEF0123456789abcdef0123456789abcdef0123456789";
    assert_eq!(sha.len(), 64);
    let files = vec![
        file("http://example.com/a.conda", sha),
        file("ftp://example.com/b.conda", sha),
        file("not a url", "short"),
    ];
    assert_eq!(invalid_message(validate_copy_packages(&files)), "packages[1].url must use HTTP or HTTPS");

    let files = vec![file("https://example.com/a.conda", sha), file("relative/path.conda", sha)];
    assert_eq!(
        invalid_message(validate_copy_packages(&files)),
        "packages[1].url is invalid: relative URL without a base"
    );

    let files = vec![file("https://example.com/a.conda", &"g".repeat(64))];
    assert_eq!(
        invalid_message(validate_copy_packages(&files)),
        "packages[0].sha256 must be exactly 64 hexadecimal characters"
    );

    let files = vec![file("https://example.com/a.conda", &"a".repeat(65))];
    assert_eq!(
        invalid_message(validate_copy_packages(&files)),
        "packages[0].sha256 must be exactly 64 hexadecimal characters"
    );
}

#[test]
fn copy_operation_carries_checked_files() {
    let files = vec![file("https://example.com/linux-64/pkg.conda", &"a".repeat(64))];
    match copy_packages_operation("destination", files) {
        Ok(PackageOperation::CopyPackagesMutation(v)) => {
            assert_eq!(v.channel_name, "destination");
            assert_eq!(v.packages.len(), 1);
            assert_eq!(v.packages[0].url, "https://example.com/linux-64/pkg.conda");
            assert_eq!(v.packages[0].sha256, "a".repeat(64));
        }
        other => panic!("unexpected {:?}", other),
    }
    match copy_packages_operation("destination", vec![]) {
        Err(PfxError::InvalidArgument(m)) => assert_eq!(m, "packages must contain at least one item"),
        other => panic!("unexpected {:?}", other),
    }
}

#[test]
fn batch_delete_operation_keeps_entries() {
    let entries = vec![PackageVariantInput { subdir: "linux-64".to_string(), filename: "pkg-1.0.conda".to_string() }];
    match batch_delete_operation("my-channel", entries) {
        PackageOperation::BatchDeleteMutation(v) => {
            assert_eq!(v.channel_name, "my-channel");
            assert_eq!(v.entries.len(), 1);
            assert_eq!(v.entries[0].subdir, "linux-64");
            assert_eq!(v.entries[0].filename, "pkg-1.0.conda");
        }
        other => panic!("unexpected {:?}", other),
    }
}

#[test]
fn package_search_orders_by_name_similarity() {
    let op = package_operation(&PackageCommand::Search { query: "numpy".to_string(), limit: 10, page: 2 });
    match op {
        Some(PackageOperation::PackageSearchQuery(v)) => {
            assert_eq!(v.limit, Some(10));
            assert_eq!(v.page, Some(2));
            let order = v.order_by.unwrap();
            assert!(order.by_field.is_none());
            let sim = order.by_similarity.unwrap();
            assert_eq!(sim.matches, "numpy");
            assert_eq!(sim.direction, OrderDirection::Desc);
        }
        other => panic!("unexpected {:?}", other),
    }
}

#[test]
fn package_list_filters_and_orders() {
    let op = package_operation(&PackageCommand::List {
        name_contains: Some("scipy".to_string()),
        limit: 5,
        page: 0,
        order_by: Some(PackageOrderField::TotalSize),
        direction: SortDirection::Asc,
    });
    match op {
        Some(PackageOperation::PackageListQuery(v)) => {
            let filter = v.filters.unwrap();
            assert_eq!(filter.name.unwrap().contains, Some("scipy".to_string()));
            let field = v.order_by.unwrap().by_field.unwrap();
            assert_eq!(field.field, PackageOrderByFieldField::TotalSize);
            assert_eq!(field.direction, OrderDirection::Asc);
        }
        other => panic!("unexpected {:?}", other),
    }
    let op = package_operation(&PackageCommand::List {
        name_contains: None,
        limit: 5,
        page: 0,
        order_by: None,
        direction: SortDirection::Desc,
    });
    match op {
        Some(PackageOperation::PackageListQuery(v)) => {
            assert!(v.filters.is_none());
            assert!(v.order_by.is_none());
        }
        other => panic!("unexpected {:?}", other),
    }
}

#[test]
fn yank_sends_one_entry() {
    let op = package_operation(&PackageCommand::Yank {
        channel: "my-channel".to_string(),
        subdir: "linux-64".to_string(),
        filename: "pkg-1.0.conda".to_string(),
        reason: "broken build".to_string(),
    });
    match op {
        Some(PackageOperation::YankMutation(v)) => {
            assert_eq!(v.channel_name, "my-channel");
            assert_eq!(v.entries.len(), 1);
            assert_eq!(v.entries[0].subdir, "linux-64");
            assert_eq!(v.entries[0].filename, "pkg-1.0.conda");
            assert_eq!(v.reason, "broken build");
            assert_eq!(v.also_hide, None);
        }
        other => panic!("unexpected {:?}", other),
    }
}

#[test]
fn matchspec_and_active_copy_operations() {
    let op = package_operation(&PackageCommand::Matchspec {
        spec: "numpy>=2.0".to_string(),
        channels: vec!["conda-forge".to_string(), "bioconda".to_string()],
    });
    match op {
        Some(PackageOperation::PackageMatchspecQuery(v)) => {
            assert_eq!(v.match_spec, "numpy>=2.0");
            assert_eq!(v.channels, vec!["conda-forge".to_string(), "bioconda".to_string()]);
        }
        other => panic!("unexpected {:?}", other),
    }
    match package_operation(&PackageCommand::ActiveCopy { channel: "c".to_string() }) {
        Some(PackageOperation::ActiveCopyJobQuery(v)) => {
            assert_eq!(v.channel_name, "c");
            assert_eq!(v.job_type, Some(BackgroundJobType::CopyPackagesFromUrl));
        }
        other => panic!("unexpected {:?}", other),
    }
}

#[test]
fn commands_with_input_have_no_operation_yet() {
    assert!(package_operation(&PackageCommand::Copy { channel: "c".to_string(), packages: "[]".to_string() }).is_none());
    assert!(package_operation(&PackageCommand::BatchDelete { channel: "c".to_string(), entries: "[]".to_string() }).is_none());
    assert!(package_operation(&PackageCommand::CopyFromChannel {
        destination: "d".to_string(),
        source: "s".to_string(),
        packages: vec!["numpy".to_string()],
        version: None,
        platform: None,
    })
    .is_none());
}
