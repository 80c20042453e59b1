use buckle::cache::{decode_payload, entry_dir, entry_file, plan_materialize, Fetch, InstallError, Materialize};
use buckle::config::{BuckleConfig, PackageType};
use buckle::install::{first_install_step, next_install_step, InstallStep, StepOutcome};
use buckle::platform::Platform;
use buckle::resolve::{resolve_release, Asset, Release, Resolution};

fn buck2_listing() -> Vec<Release> {
    let asset = |n: &str| Asset {
        name: n.to_string(),
        browser_download_url: format!("https://github.com/facebook/buck2/releases/download/latest/{}", n),
    };
    vec![Release {
        name: Some("latest".to_string()),
        tag_name: "latest".to_string(),
        target_commitish: "abc123".to_string(),
        assets: vec![
            asset("buck2-aarch64-apple-darwin.zst"),
            asset("buck2-x86_64-unknown-linux-musl.zst"),
            asset("prelude_hash"),
        ],
    }]
}

#[test]
fn single_file_is_taken_verbatim() {
    assert_eq!(decode_payload(PackageType::SingleFile, vec![1, 2, 3]), Ok(vec![1, 2, 3]));
    assert_eq!(decode_payload(PackageType::SingleFile, vec![]), Ok(vec![]));
}

#[test]
fn compressed_file_is_decompressed() {
    let original = b"#!/bin/sh\necho buck2\n".to_vec();
    let compressed = zstd::encode_all(&original[..], 3).unwrap();
    assert_ne!(compressed, original);
    assert_eq!(decode_payload(PackageType::ZstdSingleFile, compressed), Ok(original));
}

#[test]
fn invalid_compressed_payload_fails_to_decode() {
    assert_eq!(decode_payload(PackageType::ZstdSingleFile, b"not zstd at all".to_vec()), Err(InstallError::DecodeFailed));
}

#[test]
fn cache_layout() {
    assert_eq!(entry_dir("buck2", "abc123"), "buck2/abc123");
    assert_eq!(entry_file("buck2", "abc123", "buck2"), "buck2/abc123/buck2");
    assert_eq!(entry_file("buck2", "abc123", "prelude_hash"), "buck2/abc123/prelude_hash");
}

#[test]
fn buck2_latest_into_an_empty_cache() {
    let config = BuckleConfig::buck2_latest();
    let (archive_name, archive) = &config.archives[0];
    let platform = Platform::new("x86_64", "linux").unwrap();
    let listing = buck2_listing();
    let res = resolve_release(&listing, "latest", &archive.artifact_pattern, &platform).unwrap();
    assert_eq!(res, Resolution { release: 0, asset: 1, verbatim: vec![2] });
    let release = &listing[res.release];
    let plan = plan_materialize(false, release, &res, None, archive.package_type);
    assert_eq!(
        plan,
        Materialize::Download {
            verbatim: vec![Fetch {
                file_name: "prelude_hash".to_string(),
                url: "https://github.com/facebook/buck2/releases/download/latest/prelude_hash".to_string(),
            }],
            payload_url: "https://github.com/facebook/buck2/releases/download/latest/buck2-x86_64-unknown-linux-musl.zst"
                .to_string(),
            package_type: PackageType::ZstdSingleFile,
        }
    );
    let identity = release.cache_identity();
    assert_eq!(entry_file(archive_name, identity, "buck2"), "buck2/abc123/buck2");
    assert_eq!(entry_file(archive_name, identity, "prelude_hash"), "buck2/abc123/prelude_hash");

    // The side artifact first, then the payload through a temporary file.
    let mut steps = vec![first_install_step(1)];
    while !matches!(steps.last(), Some(InstallStep::Done) | Some(InstallStep::Abort(_))) {
        let s = *steps.last().unwrap();
        steps.push(next_install_step(1, s, StepOutcome::Succeeded));
    }
    assert_eq!(
        steps,
        vec![
            InstallStep::WriteVerbatim(0),
            InstallStep::DecodeToTemp,
            InstallStep::MarkExecutable,
            InstallStep::RenameIntoPlace,
            InstallStep::Done,
        ]
    );
}

#[test]
fn second_resolution_uses_the_cache() {
    let platform = Platform::new("x86_64", "linux").unwrap();
    let listing = buck2_listing();
    let first = resolve_release(&listing, "latest", "buck2-%target%.zst", &platform).unwrap();
    let second = resolve_release(&listing, "latest", "buck2-%target%.zst", &platform).unwrap();
    assert_eq!(first, second);
    let plan = plan_materialize(true, &listing[second.release], &second, None, PackageType::ZstdSingleFile);
    assert_eq!(plan, Materialize::UseCached);
}

#[test]
fn mirror_replaces_download_urls() {
    let platform = Platform::new("aarch64", "macos").unwrap();
    let listing = buck2_listing();
    let res = resolve_release(&listing, "latest", "buck2-%target%.zst", &platform).unwrap();
    assert_eq!(res.asset, 0);
    match plan_materialize(false, &listing[0], &res, Some("https://mirror.example/buck2"), PackageType::ZstdSingleFile) {
        Materialize::Download { verbatim, payload_url, .. } => {
            assert_eq!(payload_url, "https://mirror.example/buck2/latest/buck2-aarch64-apple-darwin.zst");
            assert_eq!(verbatim[0].url, "https://mirror.example/buck2/latest/prelude_hash");
        },
        Materialize::UseCached => panic!("expected a download"),
    }
}
