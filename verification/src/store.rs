//! The link store: the record of every discovered link, its depth, and its
//! parent link.
//!
//! Ids are issued monotonically at insert time, starting at 1; the root row
//! carries depth 0 and the parent sentinel 0. Every later row names as parent
//! a row inserted strictly before it, at exactly one hop less depth, so the
//! rows always form a tree rooted at the first row.

use vstd::prelude::*;

use crate::errors::CrawlError;

verus! {

/// One persisted record of a discovered URL.
pub struct Link {
    /// Unique handle, issued at insert time; the first row gets id 1.
    pub id: i64,
    /// The URL exactly as discovered; never normalized.
    pub url: String,
    /// Fetch hops from the root link, which has depth 0.
    pub depth: usize,
    /// Id of the link on whose page this URL was found; 0 for the root.
    pub parent_id: i64,
}

/// Largest number of rows the store accepts: ids must stay within `i64`,
/// the handle type a relational medium offers for generated row ids.
pub const STORE_CAP: u64 = 0x7fff_ffff_ffff_fffe;

/// Append-only record of links, with ids equal to one plus the row's
/// position in insertion order.
pub struct LinkStore {
    pub links: Vec<Link>,
}

impl LinkStore {
    /// Row `i` holds id `i + 1`; the first row is the root (depth 0, parent
    /// sentinel 0); every later row names an earlier row as parent and sits
    /// one hop deeper than it.
    pub open spec fn wf(self) -> bool {
        &&& forall|i: int|
            0 <= i < self.links@.len() ==> (#[trigger] self.links@[i].id) == i + 1
        &&& self.links@.len() > 0 ==> self.links@[0].depth == 0 && self.links@[0].parent_id == 0
        &&& forall|i: int|
            1 <= i < self.links@.len() ==> 1 <= (#[trigger] self.links@[i].parent_id) <= i
                && self.links@[i].depth == self.links@[self.links@[i].parent_id - 1].depth + 1
    }

    /// Creates an empty store.
    pub fn new() -> (s: LinkStore)
        ensures
            s.wf(),
            s.links@.len() == 0,
    {
        LinkStore { links: Vec::new() }
    }

    pub fn len(&self) -> (n: usize)
        ensures
            n == self.links@.len(),
    {
        self.links.len()
    }

    /// Durably appends one link row and returns its newly assigned id, which
    /// is one past the previous row count. The first row must be the root
    /// (depth 0, parent 0); every later row must name an existing parent row
    /// and sit exactly one hop deeper than it. The only rejected insert is an
    /// exhausted id space.
    pub fn insert_link(&mut self, url: String, depth: usize, parent_id: i64) -> (r: Result<
        i64,
        CrawlError,
    >)
        requires
            old(self).wf(),
            old(self).links@.len() == 0 ==> depth == 0 && parent_id == 0,
            old(self).links@.len() > 0 ==> 1 <= parent_id <= old(self).links@.len() && depth
                == old(self).links@[parent_id - 1].depth + 1,
        ensures
            final(self).wf(),
            r is Ok <==> old(self).links@.len() < STORE_CAP,
            r matches Ok(id) ==> id == old(self).links@.len() + 1 && final(self).links@ == old(
                self,
            ).links@.push(
                Link { id: (old(self).links@.len() + 1) as i64, url, depth, parent_id },
            ),
            r is Err ==> final(self).links@ == old(self).links@ && r == Err::<i64, CrawlError>(
                CrawlError::Persistence,
            ),
    {
        let n = self.links.len();
        if n as u64 >= STORE_CAP {
            return Err(CrawlError::Persistence);
        }
        let id = (n as i64) + 1;
        self.links.push(Link { id, url, depth, parent_id });
        Ok(id)
    }
}

/// The row reached from row `i` by following `parent_id` for `k` steps.
pub open spec fn ancestor(rows: Seq<Link>, i: int, k: nat) -> int
    decreases k,
{
    if k == 0 {
        i
    } else {
        rows[ancestor(rows, i, (k - 1) as nat)].parent_id - 1
    }
}

/// Parentage well-formedness: every non-root row names as parent a row
/// inserted strictly before it — its parent's id is smaller than its own —
/// and sits exactly one hop deeper than that parent.
pub proof fn lemma_parentage(s: LinkStore, i: int)
    requires
        s.wf(),
        1 <= i < s.links@.len(),
    ensures
        1 <= s.links@[i].parent_id <= i,
        s.links@[s.links@[i].parent_id - 1].id < s.links@[i].id,
        s.links@[i].depth == s.links@[s.links@[i].parent_id - 1].depth + 1,
{
}

/// Ids are assigned exactly once: two distinct rows never share an id.
pub proof fn lemma_ids_unique(s: LinkStore, i: int, j: int)
    requires
        s.wf(),
        0 <= i < j < s.links@.len(),
    ensures
        s.links@[i].id != s.links@[j].id,
{
}

/// Each step along the parent chain stays within the store, moves strictly
/// toward earlier rows, and lowers the depth by exactly one.
pub proof fn lemma_ancestor_chain(s: LinkStore, i: int, k: nat)
    requires
        s.wf(),
        0 <= i < s.links@.len(),
        k <= s.links@[i].depth,
    ensures
        0 <= ancestor(s.links@, i, k) <= i,
        s.links@[ancestor(s.links@, i, k)].depth == s.links@[i].depth - k,
    decreases k,
{
    if k > 0 {
        lemma_ancestor_chain(s, i, (k - 1) as nat);
        let j = ancestor(s.links@, i, (k - 1) as nat);
        assert(s.links@[j].depth > 0);
        assert(j != 0);
    }
}

/// Acyclicity: following `parent_id` from any row reaches the root in
/// exactly as many steps as the row's depth.
pub proof fn lemma_acyclic(s: LinkStore, i: int)
    requires
        s.wf(),
        0 <= i < s.links@.len(),
    ensures
        ancestor(s.links@, i, s.links@[i].depth as nat) == 0,
        s.links@[ancestor(s.links@, i, s.links@[i].depth as nat)].id == 1,
{
    lemma_ancestor_chain(s, i, s.links@[i].depth as nat);
    let r = ancestor(s.links@, i, s.links@[i].depth as nat);
    assert(s.links@[r].depth == 0);
    if r != 0 {
        assert(1 <= s.links@[r].parent_id);
        assert(s.links@[r].depth > 0);
    }
}

} // verus!
