use pixi_pfx::commands::resolve::{start, CopyResolver, ResolveStep, PAGE_SIZE};
use pixi_pfx::error::PfxError;
use pixi_pfx::queries::package::{
    CopyPackageUrlInput, CopySourceChannel, CopySourcePackage, CopySourcePackageVars, CopySourceVariant,
    CopySourceVariantPage,
};

fn variant(platform: &str, filename: &str, sha: Option<&str>) -> CopySourceVariant {
    CopySourceVariant {
        filename: filename.to_string(),
        platform: platform.to_string(),
        sha256: sha.map(|s| s.to_string()),
    }
}

fn answer(base_url: &str, variants: Vec<CopySourceVariant>, pages: i32) -> Option<CopySourcePackage> {
    Some(CopySourcePackage {
        channel: CopySourceChannel { base_url: base_url.to_string() },
        variants: CopySourceVariantPage { page: variants, pages },
    })
}

fn expect_query(step: ResolveStep) -> (CopyResolver, CopySourcePackageVars) {
    match step {
        ResolveStep::Query(next, vars) => (next, vars),
        other => panic!("expected a query, got {:?}", other),
    }
}

fn expect_failure(step: ResolveStep) -> String {
    match step {
        ResolveStep::Failed(PfxError::InvalidArgument(m)) => m,
        other => panic!("expected a failure, got {:?}", other),
    }
}

fn expect_done(step: ResolveStep) -> Vec<CopyPackageUrlInput> {
    match step {
        ResolveStep::Done(files) => files,
        other => panic!("expected files, got {:?}", other),
    }
}

fn names(list: &[&str]) -> Vec<String> {
    list.iter().map(|s| s.to_string()).collect()
}

#[test]
fn no_package_names_find_nothing() {
    let step = start("source", &vec![], &None, &None);
    assert_eq!(expect_failure(step), "no package variants matched in source channel 'source'");
}

#[test]
fn first_query_asks_for_first_page() {
    let step = start("source", &names(&["numpy"]), &Some("2.3.0".to_string()), &Some("linux-64".to_string()));
    let (_, vars) = expect_query(step);
    assert_eq!(vars.channel_name, "source");
    assert_eq!(vars.package_name, "numpy");
    assert_eq!(vars.limit, Some(PAGE_SIZE));
    assert_eq!(vars.limit, Some(100));
    assert_eq!(vars.page, Some(0));
    assert_eq!(vars.version, Some("2.3.0".to_string()));
    assert_eq!(vars.platform, Some("linux-64".to_string()));
}

#[test]
fn missing_package_fails() {
    let (resolver, _) = expect_query(start("source", &names(&["numpy"]), &None, &None));
    assert_eq!(
        expect_failure(resolver.step(None)),
        "package 'numpy' was not found in source channel 'source'"
    );
}

#[test]
fn pages_and_packages_are_walked_in_order() {
    let sha = "a".repeat(64);
    let (r, _) = expect_query(start("source", &names(&["numpy", "scipy"]), &None, &None));
    let (r, vars) = expect_query(r.step(answer(
        "https://prefix.dev/source///",
        vec![variant("linux-64", "numpy-2.3.0-0.conda", Some(&sha))],
        2,
    )));
    assert_eq!(vars.package_name, "numpy");
    assert_eq!(vars.page, Some(1));
    let (r, vars) = expect_query(r.step(answer(
        "https://prefix.dev/source",
        vec![variant("noarch", "numpy-docs-2.3.0-0.conda", Some(&sha))],
        2,
    )));
    assert_eq!(vars.package_name, "scipy");
    assert_eq!(vars.page, Some(0));
    let files = expect_done(r.step(answer(
        "https://prefix.dev/source/",
        vec![variant("osx-arm64", "scipy-1.0-0.conda", Some(&sha))],
        1,
    )));
    let urls: Vec<&str> = files.iter().map(|f| f.url.as_str()).collect();
    assert_eq!(
        urls,
        vec![
            "https://prefix.dev/source/linux-64/numpy-2.3.0-0.conda",
            "https://prefix.dev/source/noarch/numpy-docs-2.3.0-0.conda",
            "https://prefix.dev/source/osx-arm64/scipy-1.0-0.conda",
        ]
    );
    assert!(files.iter().all(|f| f.sha256 == sha));
}

#[test]
fn variant_without_digest_fails() {
    let (r, _) = expect_query(start("source", &names(&["numpy"]), &None, &None));
    let step = r.step(answer("https://prefix.dev/source", vec![variant("linux-64", "numpy.conda", None)], 1));
    assert_eq!(expect_failure(step), "source variant 'linux-64/numpy.conda' has no SHA-256 digest");
}

#[test]
fn invalid_base_url_fails() {
    let (r, _) = expect_query(start("source", &names(&["numpy"]), &None, &None));
    let step = r.step(answer("not a url", vec![], 1));
    assert_eq!(expect_failure(step), "source channel returned an invalid base URL: relative URL without a base");
}

#[test]
fn search_without_files_fails() {
    let (r, _) = expect_query(start("source", &names(&["numpy"]), &None, &None));
    let step = r.step(answer("https://prefix.dev/source", vec![], 0));
    assert_eq!(expect_failure(step), "no package variants matched in source channel 'source'");
}

#[test]
fn found_files_are_checked() {
    let (r, _) = expect_query(start("source", &names(&["numpy"]), &None, &None));
    let step = r.step(answer("https://prefix.dev/source", vec![variant("linux-64", "numpy.conda", Some("abc"))], 1));
    assert_eq!(expect_failure(step), "packages[0].sha256 must be exactly 64 hexadecimal characters");
}

#[test]
fn found_files_can_be_copied() {
    let sha = "0123456789abcdef".repeat(4);
    let (r, _) = expect_query(start("source", &names(&["numpy"]), &None, &None));
    let files = expect_done(r.step(answer(
        "https://prefix.dev/source",
        vec![variant("linux-64", "a.conda", Some(&sha)), variant("noarch", "b.conda", Some(&sha))],
        1,
    )));
    assert_eq!(files.len(), 2);
    assert!(pixi_pfx::commands::package::validate_copy_packages(&files).is_ok());
    assert!(pixi_pfx::commands::package::copy_packages_operation("destination", files).is_ok());
}
