use kapsule::layers::platform::{host_platform, select_manifest_digest, ManifestDescriptor, PlatformError};
use kapsule::layers::reference::{extraction_dir, ImageReference};
use kapsule::layers::retry::{after_attempt, LayerStep, MAX_RETRIES};
use kapsule::sys::arch::{Arch, Variant};

fn entry(digest: &str, arch: &str, variant: Option<&str>, rtype: Option<&str>) -> ManifestDescriptor {
    ManifestDescriptor {
        digest: Some(digest.to_string()),
        architecture: Some(arch.to_string()),
        variant: variant.map(|v| v.to_string()),
        reference_type: rtype.map(|v| v.to_string()),
    }
}

#[test]
fn image_references() {
    let r = ImageReference::parse("ubuntu");
    assert_eq!((r.repository.as_str(), r.name.as_str(), r.tag.as_str()), ("library", "ubuntu", "latest"));
    let r = ImageReference::parse("ubuntu:22.04");
    assert_eq!((r.repository.as_str(), r.name.as_str(), r.tag.as_str()), ("library", "ubuntu", "22.04"));
    let r = ImageReference::parse("bitnami/redis");
    assert_eq!((r.repository.as_str(), r.name.as_str(), r.tag.as_str()), ("bitnami", "redis", "latest"));
    // The name is cut at the first ':' of the whole reference.
    let r = ImageReference::parse("bitnami/redis:7");
    assert_eq!((r.repository.as_str(), r.name.as_str(), r.tag.as_str()), ("bitnami", "bitnami/redis", "7"));
}

#[test]
fn registry_locations() {
    let r = ImageReference::parse("ubuntu");
    assert_eq!(r.token_scope(), "repository:library/ubuntu:pull");
    assert_eq!(
        r.manifest_url("latest"),
        "https://registry-1.docker.io/v2/library/ubuntu/manifests/latest"
    );
    assert_eq!(
        r.blob_url("sha256:ab"),
        "https://registry-1.docker.io/v2/library/ubuntu/blobs/sha256:ab"
    );
    assert_eq!(extraction_dir("sha256:ab"), "./extracted_layers/sha256:ab");
}

#[test]
fn host_platforms() {
    assert_eq!(host_platform(&Arch::AMD64), Ok(("amd64", None)));
    assert_eq!(host_platform(&Arch::ARM32(Variant::V7)), Ok(("arm", Some(Variant::V7))));
    assert_eq!(host_platform(&Arch::UNKNOWN), Err(PlatformError::UnknownHostPlatform));
    assert_eq!(host_platform(&Arch::AMD32(Variant::V6)), Err(PlatformError::UnknownHostPlatform));
    assert_eq!(
        PlatformError::UnknownHostPlatform.message(),
        "Cannot determine the platform of the host system."
    );
}

#[test]
fn single_manifest_for_the_arch() {
    let index = vec![
        entry("sha256:amd", "amd64", None, None),
        entry("sha256:att", "amd64", None, Some("attestation-manifest")),
        entry("sha256:arm", "arm64", Some("v8"), None),
    ];
    assert_eq!(select_manifest_digest(&index, "amd64", None), Ok("sha256:amd".to_string()));
    assert_eq!(select_manifest_digest(&index, "arm64", Some(Variant::V8)), Ok("sha256:arm".to_string()));
    // With one candidate the variant is not looked at.
    assert_eq!(select_manifest_digest(&index, "arm64", Some(Variant::V5)), Ok("sha256:arm".to_string()));
    assert_eq!(
        select_manifest_digest(&index, "386", None),
        Err(PlatformError::NoManifestForArch)
    );
}

#[test]
fn several_manifests_choose_by_variant() {
    let index = vec![
        entry("sha256:v5", "arm", Some("v5"), None),
        entry("sha256:v7", "arm", Some("v7"), None),
        entry("sha256:v7b", "arm", Some("v7"), None),
        entry("sha256:att", "arm", Some("v6"), Some("attestation-manifest")),
    ];
    assert_eq!(select_manifest_digest(&index, "arm", Some(Variant::V7)), Ok("sha256:v7".to_string()));
    assert_eq!(
        select_manifest_digest(&index, "arm", Some(Variant::V6)),
        Err(PlatformError::NoManifestForVariant)
    );
    assert_eq!(
        select_manifest_digest(&index, "arm", None),
        Err(PlatformError::NoManifestForVariant)
    );
}

#[test]
fn unknown_variants_match_a_host_without_one() {
    let index = vec![
        entry("sha256:a", "amd64", Some("v9"), None),
        entry("sha256:b", "amd64", None, None),
    ];
    assert_eq!(select_manifest_digest(&index, "amd64", None), Ok("sha256:a".to_string()));
}

#[test]
fn missing_digest() {
    let index = vec![ManifestDescriptor {
        digest: None,
        architecture: Some("amd64".to_string()),
        variant: None,
        reference_type: None,
    }];
    assert_eq!(select_manifest_digest(&index, "amd64", None), Err(PlatformError::MissingDigest));
    assert_eq!(PlatformError::MissingDigest.message(), "Cannot extract manifest from digest");
    assert_eq!(PlatformError::NoManifestForArch.message(), "No manifest found for the host arch.");
    assert_eq!(
        PlatformError::NoManifestForVariant.message(),
        "No manifest found for host arch and variant."
    );
}

#[test]
fn layer_attempts() {
    assert_eq!(MAX_RETRIES, 3);
    assert_eq!(after_attempt(1, true), LayerStep::Finished);
    assert_eq!(after_attempt(1, false), LayerStep::Retry(2));
    assert_eq!(after_attempt(2, false), LayerStep::Retry(3));
    assert_eq!(after_attempt(3, false), LayerStep::GiveUp);
    assert_eq!(after_attempt(3, true), LayerStep::Finished);
}
