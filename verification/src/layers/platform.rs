//! Choosing, from a multi-platform image index, the manifest for the host.
use vstd::prelude::*;
use vstd::string::*;
use crate::sys::arch::{Arch, Variant, arch_name, arch_variant, parse_variant};
use crate::text::str_eq;
use crate::runtime::spec::opt_string_view;

verus! {

/// What the selection reads of one entry of an image index; a field that the
/// entry lacks, or that is not a string, is `None`.
#[derive(Debug)]
pub struct ManifestDescriptor {
    pub digest: Option<String>,
    pub architecture: Option<String>,
    pub variant: Option<String>,
    /// The `vnd.docker.reference.type` annotation.
    pub reference_type: Option<String>,
}

/// The mathematical model of an index entry.
pub struct DescriptorView {
    pub digest: Option<Seq<char>>,
    pub architecture: Option<Seq<char>>,
    pub variant: Option<Seq<char>>,
    pub reference_type: Option<Seq<char>>,
}

impl View for ManifestDescriptor {
    type V = DescriptorView;

    open spec fn view(&self) -> DescriptorView {
        DescriptorView {
            digest: opt_string_view(self.digest),
            architecture: opt_string_view(self.architecture),
            variant: opt_string_view(self.variant),
            reference_type: opt_string_view(self.reference_type),
        }
    }
}

/// The models of the entries of an index.
pub open spec fn descriptors_view(ds: Seq<ManifestDescriptor>) -> Seq<DescriptorView> {
    ds.map_values(|d: ManifestDescriptor| d@)
}

/// Why no manifest was chosen.
#[derive(Debug, Clone, Copy, PartialEq, Eq, Structural)]
pub enum PlatformError {
    UnknownHostPlatform,
    NoManifestForArch,
    NoManifestForVariant,
    MissingDigest,
}

/// The text that reports a failed choice.
pub open spec fn platform_error_text(e: PlatformError) -> Seq<char> {
    match e {
        PlatformError::UnknownHostPlatform => "Cannot determine the platform of the host system."@,
        PlatformError::NoManifestForArch => "No manifest found for the host arch."@,
        PlatformError::NoManifestForVariant => "No manifest found for host arch and variant."@,
        PlatformError::MissingDigest => "Cannot extract manifest from digest"@,
    }
}

impl PlatformError {
    pub fn message(&self) -> (r: &'static str)
        ensures
            r@ == platform_error_text(*self),
    {
        match self {
            PlatformError::UnknownHostPlatform => "Cannot determine the platform of the host system.",
            PlatformError::NoManifestForArch => "No manifest found for the host arch.",
            PlatformError::NoManifestForVariant => "No manifest found for host arch and variant.",
            PlatformError::MissingDigest => "Cannot extract manifest from digest",
        }
    }
}

/// The registry name and the variant of the host's architecture.
pub fn host_platform(machine: &Arch) -> (r: Result<(&'static str, Option<Variant>), PlatformError>)
    ensures
        match arch_name(*machine) {
            Some(n) => (r matches Ok(p) && p.0@ == n && p.1 == arch_variant(*machine)),
            None => r == Err::<(&'static str, Option<Variant>), PlatformError>(
                PlatformError::UnknownHostPlatform,
            ),
        },
{
    match machine.to_string() {
        Some(name) => Ok((name, machine.get_variant())),
        None => Err(PlatformError::UnknownHostPlatform),
    }
}

/// An entry is an image for the architecture, not an attestation.
pub open spec fn is_candidate(d: DescriptorView, arch: Seq<char>) -> bool {
    &&& d.reference_type != Some("attestation-manifest"@)
    &&& d.architecture == Some(arch)
}

/// The entries that are images for the architecture, in index order.
pub open spec fn candidates(ds: Seq<DescriptorView>, arch: Seq<char>) -> Seq<DescriptorView>
    decreases ds.len(),
{
    if ds.len() == 0 {
        Seq::empty()
    } else {
        let rest = candidates(ds.drop_last(), arch);
        if is_candidate(ds.last(), arch) {
            rest.push(ds.last())
        } else {
            rest
        }
    }
}

/// The variant that an entry names, if it names a known one.
pub open spec fn entry_variant(d: DescriptorView) -> Option<Variant> {
    match d.variant {
        Some(s) => parse_variant(s),
        None => None,
    }
}

/// `i` is the first of the entries whose variant is `v`.
pub open spec fn is_first_with_variant(cs: Seq<DescriptorView>, v: Option<Variant>, i: int) -> bool {
    &&& 0 <= i < cs.len()
    &&& entry_variant(cs[i]) == v
    &&& forall|j: int| 0 <= j < i ==> entry_variant(#[trigger] cs[j]) != v
}

/// The digest of an entry.
pub open spec fn digest_of(d: DescriptorView) -> Result<Seq<char>, PlatformError> {
    match d.digest {
        Some(x) => Ok(x),
        None => Err(PlatformError::MissingDigest),
    }
}

/// The digest of the manifest for a host of architecture `arch` and variant
/// `v`: the only entry for the architecture or, if there are several, the
/// first of them with the host's variant.
pub open spec fn spec_select(ds: Seq<DescriptorView>, arch: Seq<char>, v: Option<Variant>) -> Result<
    Seq<char>,
    PlatformError,
> {
    let cs = candidates(ds, arch);
    if cs.len() == 0 {
        Err(PlatformError::NoManifestForArch)
    } else if cs.len() == 1 {
        digest_of(cs[0])
    } else if exists|i: int| is_first_with_variant(cs, v, i) {
        digest_of(cs[choose|i: int| is_first_with_variant(cs, v, i)])
    } else {
        Err(PlatformError::NoManifestForVariant)
    }
}

/// The model of a selection result.
pub open spec fn selection_view(r: Result<String, PlatformError>) -> Result<Seq<char>, PlatformError> {
    match r {
        Ok(s) => Ok(s@),
        Err(e) => Err(e),
    }
}

fn opt_str_eq(o: &Option<String>, s: &str) -> (r: bool)
    ensures
        r == (opt_string_view(*o) == Some(s@)),
{
    match o {
        Some(x) => str_eq(x.as_str(), s),
        None => false,
    }
}

fn descriptor_variant(d: &ManifestDescriptor) -> (r: Option<Variant>)
    ensures
        r == entry_variant(d@),
{
    match &d.variant {
        Some(s) => Variant::from_str(s.as_str()),
        None => None,
    }
}

fn digest_result(d: &ManifestDescriptor) -> (r: Result<String, PlatformError>)
    ensures
        selection_view(r) == digest_of(d@),
{
    match &d.digest {
        Some(x) => Ok(x.clone()),
        None => Err(PlatformError::MissingDigest),
    }
}

/// Chooses from the entries of an image index the manifest for a host of
/// architecture `arch` and variant `variant`, and gives its digest.
pub fn select_manifest_digest(
    manifests: &Vec<ManifestDescriptor>,
    arch: &str,
    variant: Option<Variant>,
) -> (r: Result<String, PlatformError>)
    ensures
        selection_view(r) == spec_select(descriptors_view(manifests@), arch@, variant),
{
    let ghost ds = descriptors_view(manifests@);
    let n = manifests.len();
    let mut picked: Vec<usize> = Vec::new();
    let mut i: usize = 0;
    while i < n
        invariant
            n == manifests@.len(),
            ds == descriptors_view(manifests@),
            i <= n,
            picked@.len() == candidates(ds.take(i as int), arch@).len(),
            forall|k: int|
                0 <= k < picked@.len() ==> #[trigger] picked@[k] < n && ds[picked@[k] as int]
                    == candidates(ds.take(i as int), arch@)[k],
        decreases n - i,
    {
        let d = &manifests[i];
        assert(ds.take(i + 1).drop_last() =~= ds.take(i as int));
        assert(ds.take(i + 1).last() == ds[i as int]);
        assert(ds[i as int] == d@);
        proof {
            reveal_strlit("attestation-manifest");
        }
        let attestation = opt_str_eq(&d.reference_type, "attestation-manifest");
        let same_arch = opt_str_eq(&d.architecture, arch);
        if !attestation && same_arch {
            picked.push(i);
        }
        i += 1;
    }
    assert(ds.take(n as int) =~= ds);
    let ghost cs = candidates(ds, arch@);
    if picked.len() == 0 {
        return Err(PlatformError::NoManifestForArch);
    }
    if picked.len() == 1 {
        return digest_result(&manifests[picked[0]]);
    }
    let m = picked.len();
    let mut j: usize = 0;
    while j < m
        invariant
            m == picked@.len(),
            m == cs.len(),
            n == manifests@.len(),
            ds == descriptors_view(manifests@),
            cs == candidates(ds, arch@),
            j <= m,
            forall|k: int|
                0 <= k < m ==> #[trigger] picked@[k] < n && ds[picked@[k] as int] == cs[k],
            forall|k: int| 0 <= k < j ==> entry_variant(#[trigger] cs[k]) != variant,
        decreases m - j,
    {
        let d = &manifests[picked[j]];
        assert(cs[j as int] == d@);
        if descriptor_variant(d) == variant {
            proof {
                assert(is_first_with_variant(cs, variant, j as int));
                let k = choose|k: int| is_first_with_variant(cs, variant, k);
                if k < j {
                    assert(entry_variant(cs[k]) != variant);
                } else if j < k {
                    assert(entry_variant(cs[j as int]) != variant);
                }
            }
            return digest_result(d);
        }
        j += 1;
    }
    assert(!exists|k: int| is_first_with_variant(cs, variant, k));
    Err(PlatformError::NoManifestForVariant)
}

/// Every entry chosen as a candidate is an entry of the index, and a candidate.
pub proof fn lemma_candidates_from_index(ds: Seq<DescriptorView>, arch: Seq<char>, k: int)
    requires
        0 <= k < candidates(ds, arch).len(),
    ensures
        ds.contains(candidates(ds, arch)[k]),
        is_candidate(candidates(ds, arch)[k], arch),
    decreases ds.len(),
{
    let rest = candidates(ds.drop_last(), arch);
    if k < rest.len() {
        lemma_candidates_from_index(ds.drop_last(), arch, k);
        let x = rest[k];
        let w = choose|w: int| 0 <= w < ds.drop_last().len() && ds.drop_last()[w] == x;
        assert(ds[w] == x);
    } else {
        assert(ds[ds.len() - 1] == ds.last());
    }
}

/// The manifest chosen for the host is an image of the index for the host's
/// architecture, never an attestation.
pub proof fn lemma_selected_manifest_fits_host(
    ds: Seq<DescriptorView>,
    arch: Seq<char>,
    v: Option<Variant>,
)
    requires
        spec_select(ds, arch, v) is Ok,
    ensures
        exists|i: int|
            0 <= i < ds.len() && #[trigger] ds[i].digest == Some(spec_select(ds, arch, v)->Ok_0)
                && ds[i].architecture == Some(arch) && ds[i].reference_type != Some(
                "attestation-manifest"@,
            ),
{
    let cs = candidates(ds, arch);
    let k = if cs.len() == 1 {
        0
    } else {
        choose|i: int| is_first_with_variant(cs, v, i)
    };
    lemma_candidates_from_index(ds, arch, k);
    let i = choose|i: int| 0 <= i < ds.len() && ds[i] == cs[k];
    assert(ds[i].digest == Some(spec_select(ds, arch, v)->Ok_0));
}

/// The entries of two parts of an index that are images for the
/// architecture are those of the first part, then those of the second.
proof fn lemma_candidates_append(a: Seq<DescriptorView>, b: Seq<DescriptorView>, arch: Seq<char>)
    ensures
        candidates(a + b, arch) == candidates(a, arch) + candidates(b, arch),
    decreases b.len(),
{
    if b.len() == 0 {
        assert(a + b =~= a);
        assert(candidates(a, arch) + candidates(b, arch) =~= candidates(a, arch));
    } else {
        assert((a + b).drop_last() =~= a + b.drop_last());
        assert((a + b).last() == b.last());
        lemma_candidates_append(a, b.drop_last(), arch);
        if is_candidate(b.last(), arch) {
            assert(candidates(a, arch) + candidates(b.drop_last(), arch).push(b.last())
                =~= (candidates(a, arch) + candidates(b.drop_last(), arch)).push(b.last()));
        }
    }
}

/// An entry for the architecture stands among the candidates after those
/// that come before it in the index and before those that come after it.
proof fn lemma_candidate_kept(ds: Seq<DescriptorView>, arch: Seq<char>, k: int)
    requires
        0 <= k < ds.len(),
        is_candidate(ds[k], arch),
    ensures
        candidates(ds, arch) == candidates(ds.take(k), arch) + seq![ds[k]] + candidates(
            ds.skip(k + 1),
            arch,
        ),
{
    let one = seq![ds[k]];
    assert(ds =~= ds.take(k) + one + ds.skip(k + 1));
    lemma_candidates_append(ds.take(k) + one, ds.skip(k + 1), arch);
    lemma_candidates_append(ds.take(k), one, arch);
    assert(one.drop_last() =~= Seq::<DescriptorView>::empty());
    assert(candidates(one.drop_last(), arch) =~= Seq::<DescriptorView>::empty());
    assert(candidates(one, arch) =~= one);
}

/// There are no candidates exactly when no entry is for the architecture.
proof fn lemma_no_candidates(ds: Seq<DescriptorView>, arch: Seq<char>)
    ensures
        (candidates(ds, arch).len() == 0) <==> (forall|i: int|
            0 <= i < ds.len() ==> !is_candidate(#[trigger] ds[i], arch)),
    decreases ds.len(),
{
    if exists|i: int| 0 <= i < ds.len() && is_candidate(#[trigger] ds[i], arch) {
        let i = choose|i: int| 0 <= i < ds.len() && is_candidate(#[trigger] ds[i], arch);
        lemma_candidate_kept(ds, arch, i);
    } else if ds.len() > 0 {
        lemma_no_candidates(ds.drop_last(), arch);
        assert forall|i: int| 0 <= i < ds.drop_last().len() implies !is_candidate(
            #[trigger] ds.drop_last()[i],
            arch,
        ) by {
            assert(ds.drop_last()[i] == ds[i]);
        }
        assert(!is_candidate(ds[ds.len() - 1], arch));
    }
}

/// Where some candidate has the variant, a first one has it.
proof fn lemma_first_with_variant_exists(cs: Seq<DescriptorView>, v: Option<Variant>, k: int)
    requires
        0 <= k < cs.len(),
        entry_variant(cs[k]) == v,
    ensures
        exists|i: int| is_first_with_variant(cs, v, i),
    decreases k,
{
    if exists|j: int| 0 <= j < k && entry_variant(#[trigger] cs[j]) == v {
        let j = choose|j: int| 0 <= j < k && entry_variant(#[trigger] cs[j]) == v;
        lemma_first_with_variant_exists(cs, v, j);
    } else {
        assert(is_first_with_variant(cs, v, k));
    }
}

/// Two entries for the architecture make at least two candidates.
proof fn lemma_two_candidates(ds: Seq<DescriptorView>, arch: Seq<char>, i: int, j: int)
    requires
        0 <= i < j < ds.len(),
        is_candidate(ds[i], arch),
        is_candidate(ds[j], arch),
    ensures
        candidates(ds, arch).len() >= 2,
{
    lemma_candidate_kept(ds, arch, i);
    let rest = ds.skip(i + 1);
    assert(rest[j - i - 1] == ds[j]);
    lemma_no_candidates(rest, arch);
}

/// No manifest is found for the architecture exactly when no entry of the
/// index, attestations aside, is for the host's architecture.
pub proof fn lemma_no_entry_for_arch(ds: Seq<DescriptorView>, arch: Seq<char>, v: Option<Variant>)
    ensures
        (spec_select(ds, arch, v) == Err::<Seq<char>, PlatformError>(
            PlatformError::NoManifestForArch,
        )) <==> (forall|i: int| 0 <= i < ds.len() ==> !is_candidate(#[trigger] ds[i], arch)),
{
    lemma_no_candidates(ds, arch);
}

/// Where exactly one entry is for the host's architecture, its digest is
/// chosen, whatever its variant.
pub proof fn lemma_single_entry_for_arch(
    ds: Seq<DescriptorView>,
    arch: Seq<char>,
    v: Option<Variant>,
    i: int,
)
    requires
        0 <= i < ds.len(),
        is_candidate(ds[i], arch),
        forall|j: int| 0 <= j < ds.len() && j != i ==> !is_candidate(#[trigger] ds[j], arch),
    ensures
        spec_select(ds, arch, v) == match ds[i].digest {
            Some(x) => Ok(x),
            None => Err(PlatformError::MissingDigest),
        },
{
    lemma_candidate_kept(ds, arch, i);
    let before = ds.take(i);
    let after = ds.skip(i + 1);
    assert forall|j: int| 0 <= j < before.len() implies !is_candidate(#[trigger] before[j], arch) by {
        assert(before[j] == ds[j]);
    }
    assert forall|j: int| 0 <= j < after.len() implies !is_candidate(#[trigger] after[j], arch) by {
        assert(after[j] == ds[j + i + 1]);
    }
    lemma_no_candidates(before, arch);
    lemma_no_candidates(after, arch);
    assert(candidates(ds, arch) =~= seq![ds[i]]);
}

/// Where several entries are for the host's architecture, the digest of the
/// first of them with the host's variant is chosen.
pub proof fn lemma_first_entry_with_variant(
    ds: Seq<DescriptorView>,
    arch: Seq<char>,
    v: Option<Variant>,
    i: int,
    j: int,
    k: int,
)
    requires
        0 <= i < j < ds.len(),
        is_candidate(ds[i], arch),
        is_candidate(ds[j], arch),
        0 <= k < ds.len(),
        is_candidate(ds[k], arch),
        entry_variant(ds[k]) == v,
        forall|l: int| 0 <= l < k && is_candidate(#[trigger] ds[l], arch) ==> entry_variant(ds[l]) != v,
    ensures
        spec_select(ds, arch, v) == match ds[k].digest {
            Some(x) => Ok(x),
            None => Err(PlatformError::MissingDigest),
        },
{
    lemma_two_candidates(ds, arch, i, j);
    lemma_candidate_kept(ds, arch, k);
    let cs = candidates(ds, arch);
    let before = ds.take(k);
    let pre = candidates(before, arch);
    let m = pre.len() as int;
    assert(cs[m] == ds[k]);
    assert forall|l: int| 0 <= l < m implies entry_variant(#[trigger] cs[l]) != v by {
        assert(cs[l] == pre[l]);
        lemma_candidates_from_index(before, arch, l);
        let w = choose|w: int| 0 <= w < before.len() && before[w] == pre[l];
        assert(ds[w] == before[w]);
    }
    assert(is_first_with_variant(cs, v, m));
    let c = choose|c: int| is_first_with_variant(cs, v, c);
    if c < m {
        assert(entry_variant(cs[c]) != v);
    } else if m < c {
        assert(entry_variant(cs[m]) != v);
    }
}

/// Where several entries are for the host's architecture, no manifest is
/// found for the variant exactly when none of them has the host's variant.
pub proof fn lemma_no_entry_with_variant(
    ds: Seq<DescriptorView>,
    arch: Seq<char>,
    v: Option<Variant>,
    i: int,
    j: int,
)
    requires
        0 <= i < j < ds.len(),
        is_candidate(ds[i], arch),
        is_candidate(ds[j], arch),
    ensures
        (spec_select(ds, arch, v) == Err::<Seq<char>, PlatformError>(
            PlatformError::NoManifestForVariant,
        )) <==> (forall|k: int|
            0 <= k < ds.len() && is_candidate(#[trigger] ds[k], arch) ==> entry_variant(ds[k])
                != v),
{
    lemma_two_candidates(ds, arch, i, j);
    let cs = candidates(ds, arch);
    if exists|k: int| 0 <= k < ds.len() && is_candidate(#[trigger] ds[k], arch) && entry_variant(ds[k]) == v {
        let k = choose|k: int|
            0 <= k < ds.len() && is_candidate(#[trigger] ds[k], arch) && entry_variant(ds[k]) == v;
        lemma_candidate_kept(ds, arch, k);
        let m = candidates(ds.take(k), arch).len() as int;
        assert(cs[m] == ds[k]);
        lemma_first_with_variant_exists(cs, v, m);
    } else {
        if exists|c: int| is_first_with_variant(cs, v, c) {
            let c = choose|c: int| is_first_with_variant(cs, v, c);
            lemma_candidates_from_index(ds, arch, c);
            let w = choose|w: int| 0 <= w < ds.len() && ds[w] == cs[c];
            assert(is_candidate(ds[w], arch));
        }
    }
}

} // verus!
