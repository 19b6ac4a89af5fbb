use ghcr_prune::decimal::i64_to_decimal;
use ghcr_prune::decimal::u64_to_decimal;
use ghcr_prune::github_package_versions::GithubPackageVersions;
use ghcr_prune::github_package_versions::GithubPackageVersionsItem;
use ghcr_prune::github_package_versions::GithubPackageVersionsItemMetadata;
use ghcr_prune::github_package_versions::GithubPackageVersionsItemMetadataContainer;
use ghcr_prune::github_packages::distinct_package_names;
use ghcr_prune::github_packages::GithubPackagesItem;
use ghcr_prune::run_options::RunOptions;

fn container_metadata(tags: Vec<&str>) -> GithubPackageVersionsItemMetadata {
    GithubPackageVersionsItemMetadata {
        container: Some(GithubPackageVersionsItemMetadataContainer {
            tags: tags.into_iter().map(|t| t.to_string()).collect(),
        }),
        docker: None,
        package_type: "container".to_string(),
    }
}

fn version_item(
    id: i64,
    metadata: Option<GithubPackageVersionsItemMetadata>,
) -> GithubPackageVersionsItem {
    GithubPackageVersionsItem {
        created_at: String::new(),
        deleted_at: None,
        description: None,
        html_url: None,
        id,
        license: None,
        metadata,
        name: String::new(),
        package_html_url: String::new(),
        updated_at: String::new(),
        url: String::new(),
    }
}

fn package_item(id: i64, name: &str) -> GithubPackagesItem {
    GithubPackagesItem {
        created_at: String::new(),
        html_url: String::new(),
        id,
        name: name.to_string(),
        package_type: "container".to_string(),
        updated_at: String::new(),
        url: String::new(),
        version_count: None,
        visibility: "private".to_string(),
    }
}

fn options() -> RunOptions {
    RunOptions::new("myorg".to_string(), "token".to_string())
}

#[test]
fn container_with_no_tags_is_dangling() {
    let c = GithubPackageVersionsItemMetadataContainer { tags: vec![] };
    assert!(c.is_dangling());
    let c = GithubPackageVersionsItemMetadataContainer { tags: vec!["v1".to_string()] };
    assert!(!c.is_dangling());
}

#[test]
fn metadata_without_container_is_not_dangling() {
    let m = GithubPackageVersionsItemMetadata {
        container: None,
        docker: None,
        package_type: "npm".to_string(),
    };
    assert!(!m.is_dangling());
    assert!(container_metadata(vec![]).is_dangling());
    assert!(!container_metadata(vec!["latest"]).is_dangling());
}

#[test]
fn version_without_metadata_is_not_dangling() {
    let v = version_item(5, None);
    assert_eq!(v.get_id_if_dangling(), None);
}

#[test]
fn dangling_version_yields_its_id() {
    let v = version_item(17, Some(container_metadata(vec![])));
    assert_eq!(v.get_id_if_dangling(), Some(17));
    let v = version_item(17, Some(container_metadata(vec!["v2"])));
    assert_eq!(v.get_id_if_dangling(), None);
}

#[test]
fn dangling_ids_of_empty_listing_are_empty() {
    let listing = GithubPackageVersions(vec![]);
    assert_eq!(listing.get_all_dangling_indices(), Vec::<i64>::new());
}

#[test]
fn dangling_ids_of_fully_tagged_listing_are_empty() {
    let listing = GithubPackageVersions(vec![
        version_item(1, Some(container_metadata(vec!["a"]))),
        version_item(2, None),
        version_item(3, Some(container_metadata(vec!["b", "c"]))),
    ]);
    assert_eq!(listing.get_all_dangling_indices(), Vec::<i64>::new());
}

#[test]
fn dangling_ids_keep_listing_order() {
    let listing = GithubPackageVersions(vec![
        version_item(7, Some(container_metadata(vec![]))),
        version_item(2, Some(container_metadata(vec!["v1"]))),
        version_item(9, Some(container_metadata(vec![]))),
        version_item(4, None),
        version_item(11, Some(container_metadata(vec![]))),
    ]);
    assert_eq!(listing.get_all_dangling_indices(), vec![7, 9, 11]);
}

#[test]
fn untagged_and_tagged_pair_yields_only_untagged_id() {
    let listing = GithubPackageVersions(vec![
        version_item(1, Some(container_metadata(vec![]))),
        version_item(2, Some(container_metadata(vec!["v1"]))),
    ]);
    assert_eq!(listing.get_all_dangling_indices(), vec![1]);
}

#[test]
fn version_with_null_metadata_is_kept() {
    let listing = GithubPackageVersions(vec![version_item(5, None)]);
    assert_eq!(listing.get_all_dangling_indices(), Vec::<i64>::new());
}

#[test]
fn repeated_package_names_are_deduplicated() {
    let items = vec![package_item(1, "app"), package_item(2, "app"), package_item(3, "lib")];
    let names = distinct_package_names(&items);
    assert_eq!(names.len(), 2);
    assert!(names.iter().any(|n| n == "app"));
    assert!(names.iter().any(|n| n == "lib"));
    assert_eq!(names.iter().filter(|n| *n == "app").count(), 1);
}

#[test]
fn no_packages_yield_no_names() {
    let names = distinct_package_names(&vec![]);
    assert!(names.is_empty());
}

#[test]
fn package_listing_url() {
    assert_eq!(
        options().get_url_org_list_packages(),
        "https://api.github.com/orgs/myorg/packages?package_type=container"
    );
}

#[test]
fn version_listing_url() {
    assert_eq!(
        options().get_url_org_list_package_versions("app"),
        "https://api.github.com/orgs/myorg/packages/container/app/versions"
    );
}

#[test]
fn version_deletion_url() {
    assert_eq!(
        options().get_url_org_delete_package_version("app", 42),
        "https://api.github.com/orgs/myorg/packages/container/app/versions/42"
    );
}

#[test]
fn decimal_rendering_of_unsigned_values() {
    assert_eq!(u64_to_decimal(0), "0");
    assert_eq!(u64_to_decimal(7), "7");
    assert_eq!(u64_to_decimal(10), "10");
    assert_eq!(u64_to_decimal(1203), "1203");
    assert_eq!(u64_to_decimal(u64::MAX), "18446744073709551615");
}

#[test]
fn decimal_rendering_of_signed_values() {
    assert_eq!(i64_to_decimal(0), "0");
    assert_eq!(i64_to_decimal(42), "42");
    assert_eq!(i64_to_decimal(-1), "-1");
    assert_eq!(i64_to_decimal(-120), "-120");
    assert_eq!(i64_to_decimal(i64::MAX), "9223372036854775807");
    assert_eq!(i64_to_decimal(i64::MIN), "-9223372036854775808");
}
