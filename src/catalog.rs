use vstd::prelude::*;

verus! {

/// One topic as discovery reports it: its name and its declared message types.
pub struct TopicEntry {
    pub name: String,
    pub types: Vec<String>,
}

impl View for TopicEntry {
    type V = (Seq<char>, Seq<Seq<char>>);

    open spec fn view(&self) -> (Seq<char>, Seq<Seq<char>>) {
        (self.name@, self.types.deep_view())
    }
}

/// Why a refresh of the topic catalog failed. The stored catalog is kept either way.
#[derive(Clone, Copy, Debug, PartialEq, Eq, Structural)]
pub enum DiscoveryError {
    /// The middleware client could not be queried.
    Unreachable,
    /// Discovery reported the same topic name twice.
    DuplicateTopic,
}

/// The mathematical form of a catalog: (name, types) pairs in listing order.
pub type CatalogView = Seq<(Seq<char>, Seq<Seq<char>>)>;

/// No topic name occurs twice.
pub open spec fn names_unique(c: CatalogView) -> bool {
    forall|i: int, j: int|
        0 <= i < c.len() && 0 <= j < c.len() && i != j ==> #[trigger] c[i].0 != #[trigger] c[j].0
}

/// Some entry of the catalog carries this name.
pub open spec fn has_topic(c: CatalogView, name: Seq<char>) -> bool {
    exists|i: int| 0 <= i < c.len() && #[trigger] c[i].0 == name
}

/// The declared types of the entry named `name` (meaningful when `has_topic`).
pub open spec fn listed_types(c: CatalogView, name: Seq<char>) -> Seq<Seq<char>> {
    c[choose|i: int| 0 <= i < c.len() && #[trigger] c[i].0 == name].1
}

/// With unique names, the entry found at `i` is the one `listed_types` speaks of.
pub proof fn lemma_listed_types_at(c: CatalogView, i: int)
    requires
        names_unique(c),
        0 <= i < c.len(),
    ensures
        has_topic(c, c[i].0),
        listed_types(c, c[i].0) == c[i].1,
{
    let name = c[i].0;
    assert(has_topic(c, name));
    let j = choose|j: int| 0 <= j < c.len() && #[trigger] c[j].0 == name;
    assert(c[j].0 == c[i].0);
}

/// The catalog view of a listing.
pub open spec fn listing_view(entries: Seq<TopicEntry>) -> CatalogView {
    entries.map_values(|e: TopicEntry| e@)
}

/// The topics known from the last successful discovery, names unique.
pub struct TopicCatalog {
    entries: Vec<TopicEntry>,
}

impl View for TopicCatalog {
    type V = CatalogView;

    closed spec fn view(&self) -> CatalogView {
        listing_view(self.entries@)
    }
}

impl TopicCatalog {
    /// The catalog's invariant: no name occurs twice.
    pub open spec fn wf(&self) -> bool {
        names_unique(self@)
    }

    /// A catalog with no topics.
    pub fn new() -> (r: TopicCatalog)
        ensures
            r@ == Seq::<(Seq<char>, Seq<Seq<char>>)>::empty(),
            r.wf(),
    {
        let r = TopicCatalog { entries: Vec::new() };
        assert(r@ =~= Seq::<(Seq<char>, Seq<Seq<char>>)>::empty());
        r
    }

    /// Builds a catalog from a discovery listing, kept in its order; a listing
    /// that names a topic twice is refused.
    pub fn from_listing(entries: Vec<TopicEntry>) -> (r: Result<TopicCatalog, DiscoveryError>)
        ensures
            r is Ok <==> names_unique(listing_view(entries@)),
            r matches Ok(c) ==> c@ == listing_view(entries@) && c.wf(),
            r matches Err(e) ==> e == DiscoveryError::DuplicateTopic,
    {
        let ghost v = listing_view(entries@);
        let n = entries.len();
        let mut i: usize = 0;
        while i < n
            invariant
                n == entries@.len(),
                v == listing_view(entries@),
                v.len() == n,
                0 <= i <= n,
                forall|a: int, b: int|
                    0 <= a < i && 0 <= b < i && a != b ==> #[trigger] v[a].0 != #[trigger] v[b].0,
            decreases n - i,
        {
            let mut j: usize = 0;
            while j < i
                invariant
                    n == entries@.len(),
                    v == listing_view(entries@),
                    v.len() == n,
                    0 <= j <= i < n,
                    forall|b: int| 0 <= b < j ==> #[trigger] v[b].0 != v[i as int].0,
                decreases i - j,
            {
                if entries[i].name == entries[j].name {
                    assert(v[i as int].0 == v[j as int].0);
                    return Err(DiscoveryError::DuplicateTopic);
                }
                j = j + 1;
            }
            i = i + 1;
        }
        let r = TopicCatalog { entries };
        assert(names_unique(v)) by {
            assert forall|a: int, b: int|
                0 <= a < v.len() && 0 <= b < v.len() && a != b implies #[trigger] v[a].0
                != #[trigger] v[b].0 by {
                if a < b {
                    assert(v[a].0 != v[b].0);
                } else {
                    assert(v[b].0 != v[a].0);
                }
            }
        }
        Ok(r)
    }

    /// Number of topics.
    pub fn len(&self) -> (r: usize)
        ensures
            r == self@.len(),
    {
        self.entries.len()
    }

    /// The entry at position `i` in listing order.
    pub fn entry(&self, i: usize) -> (r: &TopicEntry)
        requires
            i < self@.len(),
        ensures
            r@ == self@[i as int],
    {
        &self.entries[i]
    }

    /// Position of the entry named `name`, if any.
    pub fn find(&self, name: &String) -> (r: Option<usize>)
        ensures
            r matches Some(i) ==> i < self@.len() && self@[i as int].0 == name@,
            r is None <==> !has_topic(self@, name@),
    {
        let n = self.entries.len();
        let mut i: usize = 0;
        while i < n
            invariant
                n == self@.len(),
                0 <= i <= n,
                forall|k: int| 0 <= k < i ==> #[trigger] self@[k].0 != name@,
            decreases n - i,
        {
            if self.entries[i].name == *name {
                assert(self@[i as int].0 == name@);
                return Some(i);
            }
            i = i + 1;
        }
        None
    }
}

} // verus!
