//! The image manifests that a registry serves, as the fetcher reads them.
use vstd::prelude::*;

verus! {

/// A blob of an image: its media type, digest and size in bytes.
#[derive(Debug)]
pub struct ImageMedia {
    pub media_type: String,
    pub digest: String,
    pub size: u64,
}

/// The manifest of an image for one platform: its config blob and its layers.
#[derive(Debug)]
pub struct ImageManifest {
    pub schema_version: u32,
    pub media_type: String,
    pub config: ImageMedia,
    pub layers: Vec<ImageMedia>,
}

/// One step in the history of an image.
#[derive(Debug)]
pub struct HistoryEntry {
    pub comment: Option<String>,
    pub created: String,
    pub created_by: Option<String>,
    pub empty_layer: Option<bool>,
}

/// The layers that make up an image's root filesystem.
#[derive(Debug)]
pub struct RootFs {
    pub diff_ids: Vec<String>,
    pub fs_type: String,
}

} // verus!
