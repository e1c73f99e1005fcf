//! Image references and the registry locations derived from them.
use vstd::prelude::*;
use vstd::string::*;
use crate::text::{
    lemma_split_at_first, lemma_split_once, split_once, spec_split_once, path_join, spec_path_join,
};

verus! {

/// An image reference, split into repository, image name and tag.
#[derive(Debug)]
pub struct ImageReference {
    pub repository: String,
    pub name: String,
    pub tag: String,
}

/// How a reference is split: the repository is what comes before the first
/// `/` (`library` if none); the name is what comes before the first `:` of
/// the whole reference, or, without a `:`, what follows the first `/`; the
/// tag is what follows the first `:` (`latest` if none).
pub open spec fn spec_image_reference(image: Seq<char>) -> (Seq<char>, Seq<char>, Seq<char>) {
    let (repository, rest) = match spec_split_once(image, '/') {
        Some((a, b)) => (a, b),
        None => ("library"@, image),
    };
    let (name, tag) = match spec_split_once(image, ':') {
        Some((a, b)) => (a, b),
        None => (rest, "latest"@),
    };
    (repository, name, tag)
}

/// The registry host that images are fetched from.
pub open spec fn registry_base() -> Seq<char> {
    "https://registry-1.docker.io/v2/"@
}

impl ImageReference {
    /// Splits an image reference.
    pub fn parse(image: &str) -> (r: ImageReference)
        ensures
            (r.repository@, r.name@, r.tag@) == spec_image_reference(image@),
    {
        let (repository, rest) = match split_once(image, '/') {
            Some((a, b)) => (a, b),
            None => ("library", image),
        };
        let (name, tag) = match split_once(image, ':') {
            Some((a, b)) => (a, b),
            None => (rest, "latest"),
        };
        ImageReference {
            repository: String::from_str(repository),
            name: String::from_str(name),
            tag: String::from_str(tag),
        }
    }

    /// The scope of the pull token for this image.
    pub fn token_scope(&self) -> (r: String)
        ensures
            r@ == "repository:"@ + self.repository@ + "/"@ + self.name@ + ":pull"@,
    {
        let mut r = String::from_str("repository:");
        r.append(self.repository.as_str());
        r.append("/");
        r.append(self.name.as_str());
        r.append(":pull");
        r
    }

    /// Where the manifest of this image with the given tag or digest is served.
    pub fn manifest_url(&self, reference: &str) -> (r: String)
        ensures
            r@ == registry_base() + self.repository@ + "/"@ + self.name@ + "/manifests/"@
                + reference@,
    {
        let mut r = String::from_str("https://registry-1.docker.io/v2/");
        r.append(self.repository.as_str());
        r.append("/");
        r.append(self.name.as_str());
        r.append("/manifests/");
        r.append(reference);
        r
    }

    /// Where the blob of this image with the given digest is served.
    pub fn blob_url(&self, digest: &str) -> (r: String)
        ensures
            r@ == registry_base() + self.repository@ + "/"@ + self.name@ + "/blobs/"@ + digest@,
    {
        let mut r = String::from_str("https://registry-1.docker.io/v2/");
        r.append(self.repository.as_str());
        r.append("/");
        r.append(self.name.as_str());
        r.append("/blobs/");
        r.append(digest);
        r
    }
}

/// The directory into which the layer with the given digest is extracted.
pub fn extraction_dir(digest: &str) -> (r: String)
    ensures
        r@ == spec_path_join("./extracted_layers"@, digest@),
{
    path_join("./extracted_layers", digest)
}

/// A bare image name, with neither repository nor tag, is the `latest` tag
/// of that image in the `library` repository.
pub proof fn lemma_bare_image_reference(image: Seq<char>)
    requires
        !image.contains('/'),
        !image.contains(':'),
    ensures
        spec_image_reference(image) == ("library"@, image, "latest"@),
{
    assert(!exists|i: int| crate::text::is_first_index(image, '/', i));
    assert(!exists|i: int| crate::text::is_first_index(image, ':', i));
}

/// The three written forms of a reference, with parts that hold neither `/`
/// nor `:`: `repo/name` is the `latest` tag of `name` in `repo`; `name:tag` is
/// that tag of `name` in `library`; and in `repo/name:tag` the name is taken
/// as everything before the `:`, repository included.
pub proof fn lemma_image_reference_forms(repo: Seq<char>, name: Seq<char>, tag: Seq<char>)
    requires
        !repo.contains('/'),
        !repo.contains(':'),
        !name.contains('/'),
        !name.contains(':'),
        !tag.contains('/'),
        !tag.contains(':'),
    ensures
        spec_image_reference(repo + "/"@ + name) == (repo, name, "latest"@),
        spec_image_reference(name + ":"@ + tag) == ("library"@, name, tag),
        spec_image_reference(repo + "/"@ + name + ":"@ + tag) == (repo, repo + "/"@ + name, tag),
{
    reveal_strlit("/");
    reveal_strlit(":");
    let slash = seq!['/'];
    let colon = seq![':'];
    assert("/"@ =~= slash);
    assert(":"@ =~= colon);
    // repo/name
    let a = repo + slash + name;
    lemma_split_at_first(repo, '/', name);
    assert(!a.contains(':')) by {
        if a.contains(':') {
            let i = choose|i: int| 0 <= i < a.len() && a[i] == ':';
            if i < repo.len() {
                assert(repo[i] == ':');
            } else if i > repo.len() {
                assert(name[i - repo.len() - 1] == ':');
            }
        }
    }
    lemma_split_once(a, ':');
    // name:tag
    let b = name + colon + tag;
    lemma_split_at_first(name, ':', tag);
    assert(!b.contains('/')) by {
        if b.contains('/') {
            let i = choose|i: int| 0 <= i < b.len() && b[i] == '/';
            if i < name.len() {
                assert(name[i] == '/');
            } else if i > name.len() {
                assert(tag[i - name.len() - 1] == '/');
            }
        }
    }
    lemma_split_once(b, '/');
    // repo/name:tag
    let c = a + colon + tag;
    assert(c =~= repo + slash + b);
    lemma_split_at_first(repo, '/', b);
    lemma_split_at_first(a, ':', tag);
}

} // verus!
