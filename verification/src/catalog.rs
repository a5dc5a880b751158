//! The catalog: a fixed, ordered registry of selectable islets.
//!
//! Each entry carries a display label, a display glyph and a remote-lookup
//! policy: either the remote system's opaque key for the islet's page, or
//! "no remote data" for islets whose backing content no longer exists
//! upstream. The registry is built once from a declarative source list and
//! never mutated; insertion order is the display order. Item identity is by
//! label.

use vstd::prelude::*;
use vstd::string::*;

verus! {

/// How an item's screenshot page is looked up remotely.
pub enum RemotePolicy {
    /// The remote system's stable identifier for the item's page.
    RemoteKey(String),
    /// The backing content no longer exists upstream; there is nothing to
    /// fetch.
    NoRemoteData,
}

impl RemotePolicy {
    /// The carried remote key, if any.
    pub open spec fn spec_key(self) -> Option<Seq<char>> {
        match self {
            RemotePolicy::RemoteKey(k) => Some(k@),
            RemotePolicy::NoRemoteData => None,
        }
    }

    /// A carried key is non-empty; beyond that it is opaque and never
    /// parsed.
    pub open spec fn wf(self) -> bool {
        match self.spec_key() {
            Some(k) => k.len() > 0,
            None => true,
        }
    }
}

/// One selectable entry of the catalog.
pub struct CatalogItem {
    /// Display label; identity is by label.
    pub label: String,
    /// Display glyph shown beside the label.
    pub glyph: String,
    /// Remote-lookup policy for the item's screenshot page.
    pub policy: RemotePolicy,
}

impl CatalogItem {
    /// The item's policy is well formed.
    pub open spec fn wf(self) -> bool {
        self.policy.wf()
    }
}

/// A well-formed table: every item's policy is well formed and labels are
/// pairwise distinct, so a label identifies one item.
pub open spec fn table_wf(items: Seq<CatalogItem>) -> bool {
    &&& forall|i: int| 0 <= i < items.len() ==> (#[trigger] items[i]).wf()
    &&& forall|i: int, j: int|
        0 <= i < j < items.len() ==> (#[trigger] items[i].label@) != (#[trigger] items[j].label@)
}

/// The lowercase form of a label, as std's case folding computes it.
pub uninterp spec fn lowercase_of(s: Seq<char>) -> Seq<char>;

/// Relies on `str::to_lowercase` of std: the result is the lowercase
/// equivalent of the input, a function of its characters alone.
#[verifier::external_body]
fn to_lowercase(s: &str) -> (r: String)
    ensures
        r@ == lowercase_of(s@),
{
    s.to_lowercase()
}

/// The fixed ordered registry of items. Built once at startup by
/// `Catalog::new`, read everywhere else.
pub struct Catalog {
    items: Vec<CatalogItem>,
}

impl Catalog {
    /// The items, in display order.
    pub closed spec fn spec_items(self) -> Seq<CatalogItem> {
        self.items@
    }

    /// The catalog's table is well formed.
    pub open spec fn wf(self) -> bool {
        table_wf(self.spec_items())
    }

    /// Load and validate the declarative source list: the catalog is built
    /// exactly when every carried key is non-empty and the labels are
    /// pairwise distinct, and it then holds the given items unchanged, in
    /// the given order.
    pub fn new(items: Vec<CatalogItem>) -> (r: Option<Catalog>)
        ensures
            r is Some <==> table_wf(items@),
            r is Some ==> r->0.spec_items() == items@ && r->0.wf(),
    {
        let n = items.len();
        let mut i: usize = 0;
        while i < n
            invariant
                i <= n,
                n == items@.len(),
                forall|k: int| 0 <= k < i ==> (#[trigger] items@[k]).wf(),
            decreases n - i,
        {
            match &items[i].policy {
                RemotePolicy::RemoteKey(key) => {
                    if key.as_str().unicode_len() == 0 {
                        proof {
                            assert(!items@[i as int].wf());
                        }
                        return None;
                    }
                },
                RemotePolicy::NoRemoteData => {},
            }
            i += 1;
        }
        let mut a: usize = 0;
        while a < n
            invariant
                a <= n,
                n == items@.len(),
                forall|p: int, q: int|
                    0 <= p < q < items@.len() && p < a ==> (#[trigger] items@[p].label@) != (
                    #[trigger] items@[q].label@),
            decreases n - a,
        {
            let mut b: usize = a + 1;
            while b < n
                invariant
                    a < b,
                    a < n,
                    n == items@.len(),
                    forall|q: int|
                        a < q < b ==> items@[a as int].label@ != (#[trigger] items@[q].label@),
                decreases n - b,
            {
                if items[a].label.eq(&items[b].label) {
                    proof {
                        assert(items@[a as int].label@ == items@[b as int].label@);
                    }
                    return None;
                }
                b += 1;
            }
            a += 1;
        }
        Some(Catalog { items })
    }

    /// Number of items.
    pub fn len(&self) -> (n: usize)
        ensures
            n == self.spec_items().len(),
    {
        self.items.len()
    }

    /// The item at display position `i`.
    pub fn get(&self, i: usize) -> (item: &CatalogItem)
        requires
            i < self.spec_items().len(),
        ensures
            *item == self.spec_items()[i as int],
    {
        &self.items[i]
    }

    /// The glyph of the item at display position `i`: exactly the table
    /// entry's glyph.
    pub fn resolve_glyph(&self, i: usize) -> (glyph: &String)
        requires
            i < self.spec_items().len(),
        ensures
            glyph@ == self.spec_items()[i as int].glyph@,
    {
        &self.items[i].glyph
    }

    /// The remote-lookup policy of the item at display position `i`: exactly
    /// the table entry's policy. Absence of remote data is a valid outcome,
    /// not an error.
    pub fn resolve(&self, i: usize) -> (policy: &RemotePolicy)
        requires
            i < self.spec_items().len(),
        ensures
            *policy == self.spec_items()[i as int].policy,
    {
        &self.items[i].policy
    }

    /// The sidebar rows, in display order: each item's glyph beside its label
    /// in lowercase, as the list presents them.
    pub fn sidebar_rows(&self) -> (rows: Vec<(String, String)>)
        ensures
            rows@.len() == self.spec_items().len(),
            forall|i: int|
                0 <= i < rows@.len() ==> (#[trigger] rows@[i]).0@ == self.spec_items()[i].glyph@
                    && rows@[i].1@ == lowercase_of(self.spec_items()[i].label@),
    {
        let mut rows: Vec<(String, String)> = Vec::new();
        let mut i: usize = 0;
        while i < self.items.len()
            invariant
                i <= self.items@.len(),
                rows@.len() == i,
                forall|k: int|
                    0 <= k < i ==> (#[trigger] rows@[k]).0@ == self.items@[k].glyph@
                        && rows@[k].1@ == lowercase_of(self.items@[k].label@),
            decreases self.items@.len() - i,
        {
            let glyph = self.items[i].glyph.clone();
            let label = to_lowercase(self.items[i].label.as_str());
            rows.push((glyph, label));
            i += 1;
        }
        rows
    }
}

} // verus!
