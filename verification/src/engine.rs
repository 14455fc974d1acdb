//! The traversal engine: depth-bounded, lineage-tracking, deduplicating
//! graph expansion over a worklist.
//!
//! One worklist entry stands for one link whose page is still to be fetched.
//! The engine performs no I/O itself: the caller pops a node with
//! [`Crawler::next_node`], fetches its URL, and hands the outcome to
//! [`Crawler::expand`], which records the page's candidates in the link
//! store — each at one hop more depth, with the expanded node as parent —
//! and schedules those still within the depth bound. A transport failure
//! abandons that node's subtree only: nothing is recorded and every other
//! scheduled node is untouched.

use vstd::prelude::*;

use crate::errors::CrawlError;
use crate::page::anchor_hrefs_of;
use crate::page::candidates_of;
use crate::page::collect_candidates;
use crate::page::extract_anchor_hrefs;
use crate::store::Link;
use crate::store::LinkStore;
use crate::store::STORE_CAP;
use crate::url::is_absolute_spec;
use crate::url::is_absolute_url;

verus! {

/// One unit of work: a persisted link whose page has not been fetched yet.
pub struct Node {
    /// The URL to fetch.
    pub url: String,
    /// Depth of this link; its children will sit one hop deeper.
    pub depth: usize,
    /// Id of this link's own store row, the parent id for its children.
    pub link_id: i64,
}

/// What the caller's fetch of a page produced.
pub enum FetchOutcome {
    /// The page was retrieved; the payload is the full response body.
    Success(String),
    /// Network failure, timeout, or a non-success status.
    Failure,
}

/// The candidates a fetch outcome yields: the page's absolute anchor URLs,
/// first occurrence only, in document order; a failed fetch yields none.
pub open spec fn outcome_candidates(outcome: FetchOutcome) -> Seq<Seq<char>> {
    match outcome {
        FetchOutcome::Success(body) => candidates_of(anchor_hrefs_of(body@)),
        FetchOutcome::Failure => Seq::empty(),
    }
}

/// The depth-bounded traversal: a link store plus the worklist of links
/// whose pages are still to be fetched.
pub struct Crawler {
    pub store: LinkStore,
    /// No link is ever recorded deeper than this.
    pub depth_max: usize,
    /// Pending nodes; the last entry is expanded next (depth-first).
    pub worklist: Vec<Node>,
}

/// `post`'s store is `pre`'s with exactly one row per candidate appended, in
/// candidate order, each one hop deeper than `node` and naming it as parent.
pub open spec fn children_appended(pre: Crawler, post: Crawler, node: Node, cands: Seq<Seq<char>>) -> bool {
    let n0 = pre.store.links@.len() as int;
    &&& post.store.links@.len() == n0 + cands.len()
    &&& forall|i: int| 0 <= i < n0 ==> post.store.links@[i] == pre.store.links@[i]
    &&& forall|j: int|
        0 <= j < cands.len() ==> ((#[trigger] post.store.links@[n0 + j]).id == n0 + j + 1
            && post.store.links@[n0 + j].url@ == cands[j] && post.store.links@[n0 + j].depth
            == node.depth + 1 && post.store.links@[n0 + j].parent_id == node.link_id)
}

/// If the children still sit strictly within the depth bound, `post`'s
/// worklist is `pre`'s with one node per candidate appended in reverse
/// candidate order — so the first-discovered child is popped first;
/// otherwise the worklist is untouched.
pub open spec fn children_scheduled(pre: Crawler, post: Crawler, node: Node, cands: Seq<Seq<char>>) -> bool {
    let n0 = pre.store.links@.len() as int;
    let w0 = pre.worklist@.len() as int;
    if node.depth + 1 < pre.depth_max {
        &&& post.worklist@.len() == w0 + cands.len()
        &&& forall|i: int| 0 <= i < w0 ==> post.worklist@[i] == pre.worklist@[i]
        &&& forall|j: int|
            0 <= j < cands.len() ==> ((#[trigger] post.worklist@[w0 + j]).url@ == cands[cands.len()
                - 1 - j] && post.worklist@[w0 + j].depth == node.depth + 1 && post.worklist@[w0
                + j].link_id == n0 + (cands.len() - 1 - j) + 1)
    } else {
        post.worklist == pre.worklist
    }
}

impl Crawler {
    /// A pending node stands for an existing store row — same URL, same
    /// depth — and still has room for children within the depth bound.
    pub open spec fn node_wf(self, n: Node) -> bool {
        &&& 1 <= n.link_id <= self.store.links@.len()
        &&& self.store.links@[n.link_id - 1].depth == n.depth
        &&& self.store.links@[n.link_id - 1].url@ == n.url@
        &&& n.depth < self.depth_max
    }

    /// The traversal invariant: a well-formed, rooted store in which no row
    /// exceeds the depth bound, and a worklist of nodes that each stand for
    /// a store row shallower than the bound.
    pub open spec fn wf(self) -> bool {
        &&& self.store.wf()
        &&& self.store.links@.len() >= 1
        &&& forall|i: int|
            0 <= i < self.store.links@.len() ==> (#[trigger] self.store.links@[i].depth)
                <= self.depth_max
        &&& forall|i: int|
            0 <= i < self.worklist@.len() ==> self.node_wf(#[trigger] self.worklist@[i])
    }

    /// Starts a traversal: rejects a seed that is not an absolute URL;
    /// otherwise records the root link (id 1, depth 0, no parent) and, when
    /// the depth bound allows children at all, schedules the root for
    /// fetching.
    pub fn new(seed_url: String, depth_max: usize) -> (r: Result<Crawler, CrawlError>)
        ensures
            r is Ok <==> is_absolute_spec(seed_url@),
            r matches Ok(c) ==> c.wf() && c.depth_max == depth_max && c.store.links@ =~= seq![
                Link { id: 1, url: seed_url, depth: 0, parent_id: 0 },
            ] && (depth_max > 0 ==> c.worklist@.len() == 1 && c.worklist@[0].url == seed_url
                && c.worklist@[0].depth == 0 && c.worklist@[0].link_id == 1) && (depth_max == 0
                ==> c.worklist@.len() == 0),
            r is Err ==> r == Err::<Crawler, CrawlError>(CrawlError::Configuration),
    {
        if !is_absolute_url(seed_url.as_str()) {
            return Err(CrawlError::Configuration);
        }
        let pending_url = seed_url.clone();
        let mut store = LinkStore::new();
        let root_id: i64 = match store.insert_link(seed_url, 0, 0) {
            Ok(id) => id,
            Err(_) => {
                proof {
                    assert(false);
                }
                return Err(CrawlError::Configuration);
            },
        };
        let mut worklist: Vec<Node> = Vec::new();
        if depth_max > 0 {
            worklist.push(Node { url: pending_url, depth: 0, link_id: root_id });
        }
        Ok(Crawler { store, depth_max, worklist })
    }

    /// Hands out the next link to fetch, most recently scheduled first
    /// (depth-first order), or `None` when the traversal is complete. The
    /// store is untouched.
    pub fn next_node(&mut self) -> (r: Option<Node>)
        requires
            old(self).wf(),
        ensures
            final(self).wf(),
            final(self).store == old(self).store,
            final(self).depth_max == old(self).depth_max,
            old(self).worklist@.len() == 0 ==> r is None && final(self).worklist@
                == old(self).worklist@,
            old(self).worklist@.len() > 0 ==> r == Some(old(self).worklist@.last())
                && final(self).worklist@ == old(self).worklist@.drop_last()
                && old(self).node_wf(old(self).worklist@.last()),
    {
        self.worklist.pop()
    }

    /// True once no scheduled node remains.
    pub fn done(&self) -> (r: bool)
        ensures
            r == (self.worklist@.len() == 0),
    {
        self.worklist.len() == 0
    }

    /// Number of links recorded so far.
    pub fn link_count(&self) -> (n: usize)
        ensures
            n == self.store.links@.len(),
    {
        self.store.len()
    }

    /// Expands one fetched node. On success, the page's candidates — its
    /// absolute anchor URLs, deduplicated within the page, in document
    /// order — are each recorded at one hop more depth with `node` as
    /// parent, eagerly, before any of them is scheduled; those still
    /// strictly within the depth bound are then scheduled depth-first. A
    /// transport failure records and schedules nothing, leaving every other
    /// node's work intact. The only rejected expansion is one whose page
    /// would exhaust the store's id space; nothing is recorded then either.
    pub fn expand(&mut self, node: Node, outcome: FetchOutcome) -> (r: Result<(), CrawlError>)
        requires
            old(self).wf(),
            old(self).node_wf(node),
        ensures
            final(self).wf(),
            final(self).depth_max == old(self).depth_max,
            r is Ok <==> (outcome is Failure || old(self).store.links@.len() + outcome_candidates(
                outcome,
            ).len() <= STORE_CAP),
            outcome is Failure ==> *final(self) == *old(self),
            r is Err ==> *final(self) == *old(self) && r == Err::<(), CrawlError>(
                CrawlError::Persistence,
            ),
            r is Ok ==> children_appended(*old(self), *final(self), node, outcome_candidates(outcome))
                && children_scheduled(*old(self), *final(self), node, outcome_candidates(outcome)),
    {
        let body = match outcome {
            FetchOutcome::Success(b) => b,
            FetchOutcome::Failure => {
                return Ok(());
            },
        };
        let anchors = extract_anchor_hrefs(body.as_str());
        let cands = collect_candidates(&anchors);
        let ghost cspec = candidates_of(anchor_hrefs_of(body@));
        let n0 = self.store.len();
        if (n0 as u64) > STORE_CAP || (cands.len() as u64) > STORE_CAP - (n0 as u64) {
            return Err(CrawlError::Persistence);
        }
        let child_depth = node.depth + 1;
        let mut j: usize = 0;
        while j < cands.len()
            invariant
                old(self).wf(),
                old(self).node_wf(node),
                self.depth_max == old(self).depth_max,
                self.worklist == old(self).worklist,
                cands.deep_view() == cspec,
                j <= cands@.len(),
                n0 == old(self).store.links@.len(),
                n0 + cands@.len() <= STORE_CAP,
                child_depth == node.depth + 1,
                self.store.wf(),
                self.store.links@.len() == n0 + j,
                forall|i: int| 0 <= i < n0 ==> self.store.links@[i] == old(self).store.links@[i],
                forall|jj: int|
                    0 <= jj < j ==> ((#[trigger] self.store.links@[n0 + jj]).id == n0 + jj + 1
                        && self.store.links@[n0 + jj].url@ == cspec[jj] && self.store.links@[n0
                        + jj].depth == node.depth + 1 && self.store.links@[n0 + jj].parent_id
                        == node.link_id),
            decreases cands@.len() - j,
        {
            proof {
                assert(cands.deep_view()[j as int] == cands@[j as int]@);
            }
            let u = cands[j].clone();
            match self.store.insert_link(u, child_depth, node.link_id) {
                Ok(_) => {},
                Err(_) => {
                    proof {
                        assert(false);
                    }
                    return Err(CrawlError::Persistence);
                },
            }
            j += 1;
        }
        let ghost mid = *self;
        if child_depth < self.depth_max {
            let mut k: usize = cands.len();
            while k > 0
                invariant
                    old(self).wf(),
                    old(self).node_wf(node),
                    self.store == mid.store,
                    self.depth_max == mid.depth_max,
                    mid.store.wf(),
                    mid.depth_max == old(self).depth_max,
                    mid.worklist == old(self).worklist,
                    cands.deep_view() == cspec,
                    k <= cands@.len(),
                    n0 == old(self).store.links@.len(),
                    n0 + cands@.len() <= STORE_CAP,
                    child_depth == node.depth + 1,
                    child_depth < mid.depth_max,
                    mid.store.links@.len() == n0 + cands@.len(),
                    forall|i: int| 0 <= i < n0 ==> mid.store.links@[i] == old(self).store.links@[i],
                    forall|jj: int|
                        0 <= jj < cands@.len() ==> ((#[trigger] mid.store.links@[n0 + jj]).id == n0
                            + jj + 1 && mid.store.links@[n0 + jj].url@ == cspec[jj]
                            && mid.store.links@[n0 + jj].depth == node.depth + 1
                            && mid.store.links@[n0 + jj].parent_id == node.link_id),
                    self.worklist@.len() == old(self).worklist@.len() + (cands@.len() - k),
                    forall|i: int|
                        0 <= i < old(self).worklist@.len() ==> self.worklist@[i]
                            == old(self).worklist@[i],
                    forall|jj: int|
                        0 <= jj < cands@.len() - k ==> ((#[trigger] self.worklist@[old(
                            self,
                        ).worklist@.len() + jj]).url@ == cspec[cands@.len() - 1 - jj]
                            && self.worklist@[old(self).worklist@.len() + jj].depth == node.depth
                            + 1 && self.worklist@[old(self).worklist@.len() + jj].link_id == n0 + (
                        cands@.len() - 1 - jj) + 1),
                decreases k,
            {
                k -= 1;
                proof {
                    assert(cands.deep_view()[k as int] == cands@[k as int]@);
                }
                let u = cands[k].clone();
                let child_id: i64 = ((n0 as u64 + k as u64 + 1) as i64);
                self.worklist.push(Node { url: u, depth: child_depth, link_id: child_id });
            }
        }
        proof {
            let n0i = old(self).store.links@.len() as int;
            let w0 = old(self).worklist@.len() as int;
            assert(children_appended(*old(self), *self, node, cspec));
            assert(children_scheduled(*old(self), *self, node, cspec));
            assert forall|i: int| 0 <= i < self.store.links@.len() implies (
            #[trigger] self.store.links@[i].depth) <= self.depth_max by {
                if i < n0i {
                    assert(self.store.links@[i] == old(self).store.links@[i]);
                    assert(old(self).store.links@[i].depth <= old(self).depth_max);
                } else {
                    assert(self.store.links@[n0i + (i - n0i)].depth == node.depth + 1);
                }
            }
            assert forall|i: int| 0 <= i < self.worklist@.len() implies self.node_wf(
                #[trigger] self.worklist@[i],
            ) by {
                if i < w0 {
                    assert(self.worklist@[i] == old(self).worklist@[i]);
                    assert(old(self).node_wf(old(self).worklist@[i]));
                    let lid = old(self).worklist@[i].link_id as int;
                    assert(self.store.links@[lid - 1] == old(self).store.links@[lid - 1]);
                } else {
                    let jj = i - w0;
                    let c = cspec.len() - 1 - jj;
                    assert((#[trigger] self.worklist@[w0 + jj]).url@ == cspec[c]);
                    assert(self.store.links@[n0i + c].url@ == cspec[c]);
                }
            }
        }
        Ok(())
    }
}

/// Depth bound: no link is ever recorded deeper than `depth_max`, and the
/// root always has depth 0, whatever the bound.
pub proof fn lemma_depth_bound(c: Crawler, i: int)
    requires
        c.wf(),
        0 <= i < c.store.links@.len(),
    ensures
        c.store.links@[i].depth <= c.depth_max,
        c.store.links@[0].depth == 0,
{
}

/// Bounded lineage: following `parent_id` from any recorded link reaches
/// the root in exactly `depth` steps, hence within `depth_max` steps.
pub proof fn lemma_lineage_bounded(c: Crawler, i: int)
    requires
        c.wf(),
        0 <= i < c.store.links@.len(),
    ensures
        c.store.links@[i].depth <= c.depth_max,
        crate::store::ancestor(c.store.links@, i, c.store.links@[i].depth as nat) == 0,
{
    crate::store::lemma_acyclic(c.store, i);
}

} // verus!
