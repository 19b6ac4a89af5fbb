//! Package summaries as the organization package-listing endpoint
//! reports them, and the deduplication of package names.

use vstd::prelude::*;

verus! {

/// One package record of the organization listing. Only `name` feeds
/// the cleaning run; the rest is display and audit data.
#[derive(Clone, Debug, PartialEq)]
pub struct GithubPackagesItem {
    pub created_at: String,
    pub html_url: String,
    /// Unique identifier of the package.
    pub id: i64,
    /// The name of the package.
    pub name: String,
    pub package_type: String,
    pub updated_at: String,
    pub url: String,
    /// The number of versions of the package.
    pub version_count: Option<i64>,
    pub visibility: String,
}

/// Some record of the listing carries this package name.
pub open spec fn spec_listing_has_name(items: Seq<GithubPackagesItem>, n: Seq<char>) -> bool {
    exists|j: int| 0 <= j < items.len() && items[j].name@ == n
}

/// Some entry of the name collection equals this name.
pub open spec fn spec_names_contain(names: Seq<String>, n: Seq<char>) -> bool {
    exists|i: int| 0 <= i < names.len() && names[i]@ == n
}

/// No two entries of the name collection are equal.
pub open spec fn spec_names_distinct(names: Seq<String>) -> bool {
    forall|i: int, k: int| 0 <= i < k < names.len() ==> names[i]@ != names[k]@
}

proof fn lemma_contain_after_push(names: Seq<String>, x: String, n: Seq<char>)
    requires
        spec_names_contain(names, n),
    ensures
        spec_names_contain(names.push(x), n),
{
    let i = choose|i: int| 0 <= i < names.len() && names[i]@ == n;
    assert(names.push(x)[i]@ == n);
}

fn names_contain(names: &Vec<String>, n: &String) -> (b: bool)
    ensures
        b == spec_names_contain(names@, n@),
{
    let mut i: usize = 0;
    while i < names.len()
        invariant
            i <= names@.len(),
            forall|k: int| 0 <= k < i ==> names@[k]@ != n@,
        decreases names@.len() - i,
    {
        if names[i] == *n {
            return true;
        }
        i = i + 1;
    }
    false
}

/// The distinct package names of a listing: every name of the listing
/// occurs in the result, nothing else does, and no name occurs twice.
/// The order of the result is not part of the contract.
pub fn distinct_package_names(items: &Vec<GithubPackagesItem>) -> (names: Vec<String>)
    ensures
        spec_names_distinct(names@),
        forall|i: int| 0 <= i < names@.len() ==> spec_listing_has_name(items@, names@[i]@),
        forall|j: int| 0 <= j < items@.len() ==> spec_names_contain(names@, items@[j].name@),
{
    let mut names: Vec<String> = Vec::new();
    let mut j: usize = 0;
    while j < items.len()
        invariant
            j <= items@.len(),
            spec_names_distinct(names@),
            forall|i: int| 0 <= i < names@.len() ==> spec_listing_has_name(items@, names@[i]@),
            forall|j2: int| 0 <= j2 < j ==> spec_names_contain(names@, items@[j2].name@),
        decreases items@.len() - j,
    {
        let item = &items[j];
        let ghost pre = names@;
        if !names_contain(&names, &item.name) {
            names.push(item.name.clone());
            proof {
                assert(names@.last()@ == items@[j as int].name@);
                assert forall|j2: int| 0 <= j2 < j implies spec_names_contain(
                    names@,
                    items@[j2].name@,
                ) by {
                    lemma_contain_after_push(pre, names@.last(), items@[j2].name@);
                }
            }
        }
        j = j + 1;
    }
    names
}

/// How often a name occurs in a collection of names.
pub open spec fn spec_name_count(names: Seq<String>, n: Seq<char>) -> nat
    decreases names.len(),
{
    if names.len() == 0 {
        0
    } else {
        spec_name_count(names.drop_last(), n) + if names.last()@ == n {
            1nat
        } else {
            0nat
        }
    }
}

proof fn lemma_absent_name_count_zero(names: Seq<String>, n: Seq<char>)
    requires
        !spec_names_contain(names, n),
    ensures
        spec_name_count(names, n) == 0,
    decreases names.len(),
{
    if names.len() > 0 {
        assert(!spec_names_contain(names.drop_last(), n));
        lemma_absent_name_count_zero(names.drop_last(), n);
    }
}

proof fn lemma_distinct_name_count_one(names: Seq<String>, n: Seq<char>)
    requires
        spec_names_distinct(names),
        spec_names_contain(names, n),
    ensures
        spec_name_count(names, n) == 1,
    decreases names.len(),
{
    let last = names.len() - 1;
    if names.last()@ == n {
        assert(forall|k: int| 0 <= k < last ==> names[k]@ != names[last]@);
        assert(!spec_names_contain(names.drop_last(), n));
        lemma_absent_name_count_zero(names.drop_last(), n);
    } else {
        let i = choose|i: int| 0 <= i < names.len() && names[i]@ == n;
        assert(names.drop_last()[i] == names[i]);
        assert(spec_names_contain(names.drop_last(), n));
        assert(spec_names_distinct(names.drop_last()));
        lemma_distinct_name_count_one(names.drop_last(), n);
    }
}

/// Deduplication law: a name collection that is distinct and covers a
/// listing — as `distinct_package_names` returns — holds the name of
/// each record of the listing exactly once, however often the listing
/// repeats it.
pub proof fn lemma_names_deduplicated(names: Seq<String>, items: Seq<GithubPackagesItem>, j: int)
    requires
        spec_names_distinct(names),
        forall|j2: int| 0 <= j2 < items.len() ==> spec_names_contain(names, items[j2].name@),
        0 <= j < items.len(),
    ensures
        spec_name_count(names, items[j].name@) == 1,
{
    lemma_distinct_name_count_one(names, items[j].name@);
}

} // verus!
