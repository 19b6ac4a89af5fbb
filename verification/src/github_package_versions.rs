//! Package versions as the version-listing endpoint reports them, the
//! predicate that classifies a version as dangling (no image tags left),
//! and the filter that collects the identifiers of dangling versions.

use vstd::prelude::*;

verus! {

/// Container-specific metadata of one package version: the image tags
/// currently attached to it.
#[derive(Clone, Debug, PartialEq)]
pub struct GithubPackageVersionsItemMetadataContainer {
    pub tags: Vec<String>,
}

impl GithubPackageVersionsItemMetadataContainer {
    /// Container metadata is dangling exactly when it carries no tags.
    pub fn is_dangling(&self) -> (r: bool)
        ensures
            r == (self.tags@.len() == 0),
    {
        self.tags.len() == 0
    }
}

/// Docker-specific metadata of one package version. Carried through the
/// listing but never consulted by the dangling rule.
#[derive(Clone, Debug, PartialEq)]
pub struct GithubPackageVersionsItemMetadataDocker {
    pub tag: Option<Vec<String>>,
}

/// The optional metadata record of one package version.
#[derive(Clone, Debug, PartialEq)]
pub struct GithubPackageVersionsItemMetadata {
    pub container: Option<GithubPackageVersionsItemMetadataContainer>,
    pub docker: Option<GithubPackageVersionsItemMetadataDocker>,
    pub package_type: String,
}

/// A metadata record is dangling exactly when it has a container
/// sub-record whose tag list is empty. A missing container sub-record is
/// not dangling, whatever the package type says.
pub open spec fn spec_metadata_is_dangling(m: GithubPackageVersionsItemMetadata) -> bool {
    match m.container {
        Some(c) => c.tags@.len() == 0,
        None => false,
    }
}

impl GithubPackageVersionsItemMetadata {
    pub fn is_dangling(&self) -> (r: bool)
        ensures
            r == spec_metadata_is_dangling(*self),
    {
        if let Some(container_metadata) = &self.container {
            container_metadata.is_dangling()
        } else {
            false
        }
    }
}

/// One version record of the version-listing endpoint.
#[derive(Clone, Debug, PartialEq)]
pub struct GithubPackageVersionsItem {
    pub created_at: String,
    pub deleted_at: Option<String>,
    pub description: Option<String>,
    pub html_url: Option<String>,
    /// Unique identifier of the package version; the one field a
    /// deletion needs.
    pub id: i64,
    pub license: Option<String>,
    pub metadata: Option<GithubPackageVersionsItemMetadata>,
    /// The name of the package version.
    pub name: String,
    pub package_html_url: String,
    pub updated_at: String,
    pub url: String,
}

/// The dangling predicate: a version is dangling exactly when its
/// metadata is present, the container sub-record is present, and the
/// tag list is empty. Every other shape is kept, never deleted.
pub open spec fn spec_version_is_dangling(v: GithubPackageVersionsItem) -> bool {
    match v.metadata {
        Some(m) => spec_metadata_is_dangling(m),
        None => false,
    }
}

impl GithubPackageVersionsItem {
    /// The version's identifier when the dangling predicate holds of it,
    /// nothing otherwise.
    pub fn get_id_if_dangling(&self) -> (r: Option<i64>)
        ensures
            r == if spec_version_is_dangling(*self) {
                Some(self.id)
            } else {
                None::<i64>
            },
    {
        if let Some(metadata) = &self.metadata {
            if metadata.is_dangling() {
                Some(self.id)
            } else {
                None
            }
        } else {
            None
        }
    }
}

/// A version is dangling iff all three conditions hold at once: the
/// metadata is present, its container sub-record is present, and that
/// sub-record's tag list is empty.
pub proof fn lemma_dangling_characterization(v: GithubPackageVersionsItem)
    ensures
        spec_version_is_dangling(v) <==> {
            &&& v.metadata is Some
            &&& v.metadata->0.container is Some
            &&& v.metadata->0.container->0.tags@.len() == 0
        },
{
}

/// The identifiers of the dangling versions of a listing, in listing
/// order, with no deduplication.
pub open spec fn spec_dangling_ids(vs: Seq<GithubPackageVersionsItem>) -> Seq<i64> {
    vs.filter(|v: GithubPackageVersionsItem| spec_version_is_dangling(v)).map_values(
        |v: GithubPackageVersionsItem| v.id,
    )
}

proof fn lemma_dangling_ids_push(vs: Seq<GithubPackageVersionsItem>, v: GithubPackageVersionsItem)
    ensures
        spec_dangling_ids(vs.push(v)) == if spec_version_is_dangling(v) {
            spec_dangling_ids(vs).push(v.id)
        } else {
            spec_dangling_ids(vs)
        },
{
    reveal(Seq::filter);
    let pred = |x: GithubPackageVersionsItem| spec_version_is_dangling(x);
    assert(vs.push(v).drop_last() =~= vs);
    assert(vs.push(v).last() == v);
    if spec_version_is_dangling(v) {
        assert(vs.push(v).filter(pred) =~= vs.filter(pred).push(v));
        assert(spec_dangling_ids(vs.push(v)) =~= spec_dangling_ids(vs).push(v.id));
    } else {
        assert(vs.push(v).filter(pred) =~= vs.filter(pred));
        assert(spec_dangling_ids(vs.push(v)) =~= spec_dangling_ids(vs));
    }
}

/// One decoded version listing.
#[derive(Clone, Debug, PartialEq)]
pub struct GithubPackageVersions(pub Vec<GithubPackageVersionsItem>);

impl GithubPackageVersions {
    /// The identifiers of all dangling versions, in the order the
    /// listing gave them.
    pub fn get_all_dangling_indices(self) -> (ids: Vec<i64>)
        ensures
            ids@ == spec_dangling_ids(self.0@),
    {
        let mut dangling_indices: Vec<i64> = Vec::new();
        let mut k: usize = 0;
        while k < self.0.len()
            invariant
                k <= self.0@.len(),
                dangling_indices@ == spec_dangling_ids(self.0@.take(k as int)),
            decreases self.0@.len() - k,
        {
            proof {
                assert(self.0@.take(k + 1) =~= self.0@.take(k as int).push(self.0@[k as int]));
                lemma_dangling_ids_push(self.0@.take(k as int), self.0@[k as int]);
            }
            if let Some(id) = self.0[k].get_id_if_dangling() {
                dangling_indices.push(id);
            }
            k = k + 1;
        }
        proof {
            assert(self.0@.take(self.0@.len() as int) =~= self.0@);
        }
        dangling_indices
    }
}

/// An empty listing, and a listing none of whose versions is dangling,
/// both yield no identifiers.
pub proof fn lemma_dangling_ids_empty(vs: Seq<GithubPackageVersionsItem>)
    requires
        forall|i: int| 0 <= i < vs.len() ==> !spec_version_is_dangling(vs[i]),
    ensures
        spec_dangling_ids(vs).len() == 0,
    decreases vs.len(),
{
    reveal(Seq::filter);
    if vs.len() > 0 {
        assert(vs.drop_last() =~= vs.take(vs.len() - 1));
        assert(forall|i: int|
            0 <= i < vs.drop_last().len() ==> !spec_version_is_dangling(#[trigger] vs.drop_last()[i]));
        lemma_dangling_ids_empty(vs.drop_last());
    }
}

/// The filter keeps the relative order of the dangling identifiers: the
/// identifiers of a listing split anywhere are the identifiers of the
/// first part followed by those of the second.
pub proof fn lemma_dangling_ids_concat(
    a: Seq<GithubPackageVersionsItem>,
    b: Seq<GithubPackageVersionsItem>,
)
    ensures
        spec_dangling_ids(a + b) == spec_dangling_ids(a) + spec_dangling_ids(b),
{
    let pred = |x: GithubPackageVersionsItem| spec_version_is_dangling(x);
    let ids = |v: GithubPackageVersionsItem| v.id;
    Seq::filter_distributes_over_add(a, b, pred);
    assert((a.filter(pred) + b.filter(pred)).map_values(ids) =~= a.filter(pred).map_values(ids)
        + b.filter(pred).map_values(ids));
    assert(spec_dangling_ids(a + b) =~= spec_dangling_ids(a) + spec_dangling_ids(b));
}

} // verus!
