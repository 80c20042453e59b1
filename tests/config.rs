use buckle::config::{
    ArchiveConfig, BinaryChoice, BinaryConfig, BuckleConfig, BuckleSource, ConfigError, GithubRelease,
    PackageType,
};

fn archive(owner: &str, repo: &str) -> ArchiveConfig {
    ArchiveConfig {
        source: BuckleSource::Github(GithubRelease {
            owner: owner.to_string(),
            repo: repo.to_string(),
            version: "latest".to_string(),
        }),
        package_type: PackageType::SingleFile,
        artifact_pattern: "tool-%os%".to_string(),
    }
}

fn binary(provider: &str) -> BinaryConfig {
    BinaryConfig { provided_by: provider.to_string() }
}

#[test]
fn config_test_buck2_latest() {
    let buckle_config: BuckleConfig = BuckleConfig::buck2_latest();
    assert_eq!(buckle_config.archives.len(), 1);
    assert_eq!(buckle_config.binaries.len(), 1);
}

#[test]
fn buck2_latest_contents() {
    let c = BuckleConfig::buck2_latest();
    let (name, a) = &c.archives[0];
    assert_eq!(name, "buck2");
    assert_eq!(a.source, BuckleSource::Github(GithubRelease {
        owner: "facebook".to_string(),
        repo: "buck2".to_string(),
        version: "latest".to_string(),
    }));
    assert_eq!(a.artifact_pattern, "buck2-%target%.zst");
    assert_eq!(a.package_type, PackageType::ZstdSingleFile);
    assert_eq!(c.binaries[0].0, "buck2");
    assert_eq!(c.binaries[0].1.provided_by, "buck2");
    assert!(c.has_unique_names());
}

#[test]
fn single_binary_is_the_implicit_default() {
    let c = BuckleConfig::buck2_latest();
    assert_eq!(c.resolve_binary(None), Ok(BinaryChoice { binary: 0, archive: 0 }));
    assert_eq!(c.resolve_binary(Some("buck2")), Ok(BinaryChoice { binary: 0, archive: 0 }));
}

#[test]
fn requested_binary_is_found_by_name() {
    let c = BuckleConfig {
        archives: vec![("bazel".to_string(), archive("bazelbuild", "bazel")), ("buck2".to_string(), archive("facebook", "buck2"))],
        binaries: vec![("buck2".to_string(), binary("buck2")), ("bazel".to_string(), binary("bazel"))],
    };
    assert!(c.has_unique_names());
    assert_eq!(c.resolve_binary(Some("bazel")), Ok(BinaryChoice { binary: 1, archive: 0 }));
    assert_eq!(c.resolve_binary(Some("buck2")), Ok(BinaryChoice { binary: 0, archive: 1 }));
    assert_eq!(c.resolve_binary(None), Err(ConfigError::NoBinarySelected));
    assert_eq!(c.resolve_binary(Some("cargo")), Err(ConfigError::UnknownBinary));
}

#[test]
fn binary_of_an_undeclared_archive_fails() {
    let c = BuckleConfig {
        archives: vec![("bazel".to_string(), archive("bazelbuild", "bazel"))],
        binaries: vec![("buck2".to_string(), binary("buck2"))],
    };
    assert_eq!(c.resolve_binary(None), Err(ConfigError::UnknownArchive));
}

#[test]
fn empty_configuration_selects_nothing() {
    let c = BuckleConfig { archives: vec![], binaries: vec![] };
    assert!(c.has_unique_names());
    assert_eq!(c.resolve_binary(None), Err(ConfigError::NoBinarySelected));
}

#[test]
fn duplicate_names_are_detected() {
    let c = BuckleConfig {
        archives: vec![("a".to_string(), archive("o", "r")), ("a".to_string(), archive("o", "s"))],
        binaries: vec![],
    };
    assert!(!c.has_unique_names());
    let d = BuckleConfig {
        archives: vec![],
        binaries: vec![("b".to_string(), binary("x")), ("b".to_string(), binary("y"))],
    };
    assert!(!d.has_unique_names());
}
