//! Page analysis: extracting the anchor targets of a fetched document and
//! reducing them to the traversal candidates — the absolute URLs, first
//! occurrence only, in document order.

use vstd::prelude::*;

use crate::url::is_absolute_spec;
use crate::url::is_absolute_url;

verus! {

/// The anchor-element `href` values of a document, in document order.
pub uninterp spec fn anchor_hrefs_of(body: Seq<char>) -> Seq<Seq<char>>;

/// Relies on scraper: `Html::parse_document` parses the document (malformed
/// markup degrades to whatever anchors are parseable), selecting `a` elements
/// and reading each `href` attribute lists the anchor targets in document
/// order. The result depends on the document text alone.
#[verifier::external_body]
pub(crate) fn extract_anchor_hrefs(body: &str) -> (r: Vec<String>)
    ensures
        r.deep_view() == anchor_hrefs_of(body@),
{
    let document = scraper::Html::parse_document(body);
    let selector = scraper::Selector::parse("a").unwrap();
    let mut hrefs = Vec::new();
    for element in document.select(&selector) {
        if let Some(target) = element.attr("href") {
            hrefs.push(target.to_string());
        }
    }
    hrefs
}

/// The candidates of an anchor list: the absolute URLs among the anchors,
/// keeping only the first occurrence of each, in order of first discovery.
pub open spec fn candidates_of(anchors: Seq<Seq<char>>) -> Seq<Seq<char>>
    decreases anchors.len(),
{
    if anchors.len() == 0 {
        Seq::empty()
    } else {
        let prefix = candidates_of(anchors.drop_last());
        let last = anchors.last();
        if is_absolute_spec(last) && !prefix.contains(last) {
            prefix.push(last)
        } else {
            prefix
        }
    }
}

/// Whether some earlier candidate already carries this URL.
fn contains_url(seen: &Vec<String>, url: &String) -> (r: bool)
    ensures
        r == seen.deep_view().contains(url@),
{
    let mut i: usize = 0;
    while i < seen.len()
        invariant
            i <= seen@.len(),
            seen.deep_view().len() == seen@.len(),
            forall|j: int| 0 <= j < i ==> seen.deep_view()[j] != url@,
        decreases seen@.len() - i,
    {
        assert(seen.deep_view()[i as int] == seen@[i as int]@);
        if seen[i].eq(url) {
            return true;
        }
        i += 1;
    }
    false
}

/// Reduces a page's anchor list to its traversal candidates: the absolute
/// URLs, deduplicated within this list only, in first-seen order.
pub fn collect_candidates(anchors: &Vec<String>) -> (r: Vec<String>)
    ensures
        r.deep_view() == candidates_of(anchors.deep_view()),
{
    let mut out: Vec<String> = Vec::new();
    let mut i: usize = 0;
    while i < anchors.len()
        invariant
            i <= anchors@.len(),
            anchors.deep_view().len() == anchors@.len(),
            out.deep_view() == candidates_of(anchors.deep_view().take(i as int)),
        decreases anchors@.len() - i,
    {
        proof {
            assert(anchors.deep_view().take(i + 1).drop_last() =~= anchors.deep_view().take(
                i as int,
            ));
            assert(anchors.deep_view().take(i + 1).last() == anchors.deep_view()[i as int]);
            assert(anchors.deep_view()[i as int] == anchors@[i as int]@);
        }
        let a = &anchors[i];
        if is_absolute_url(a.as_str()) && !contains_url(&out, a) {
            out.push(a.clone());
            assert(out.deep_view() =~= candidates_of(anchors.deep_view().take(i + 1)));
        }
        i += 1;
    }
    proof {
        assert(anchors.deep_view().take(anchors.deep_view().len() as int) =~= anchors.deep_view());
    }
    out
}

/// Every candidate is an absolute URL drawn from the anchor list.
pub proof fn lemma_candidates_absolute(anchors: Seq<Seq<char>>)
    ensures
        forall|k: int|
            0 <= k < candidates_of(anchors).len() ==> is_absolute_spec(
                #[trigger] candidates_of(anchors)[k],
            ) && anchors.contains(candidates_of(anchors)[k]),
    decreases anchors.len(),
{
    if anchors.len() > 0 {
        lemma_candidates_absolute(anchors.drop_last());
        assert forall|k: int| 0 <= k < candidates_of(anchors).len() implies is_absolute_spec(
            #[trigger] candidates_of(anchors)[k],
        ) && anchors.contains(candidates_of(anchors)[k]) by {
            let prefix = candidates_of(anchors.drop_last());
            if k < prefix.len() {
                let j = choose|j: int|
                    0 <= j < anchors.drop_last().len() && anchors.drop_last()[j] == prefix[k];
                assert(anchors[j] == prefix[k]);
            } else {
                assert(candidates_of(anchors)[k] == anchors.last());
                assert(anchors[anchors.len() - 1] == anchors.last());
            }
        }
    }
}

/// Every absolute URL in the anchor list appears among the candidates.
pub proof fn lemma_candidates_complete(anchors: Seq<Seq<char>>, j: int)
    requires
        0 <= j < anchors.len(),
        is_absolute_spec(anchors[j]),
    ensures
        candidates_of(anchors).contains(anchors[j]),
    decreases anchors.len(),
{
    let prefix = candidates_of(anchors.drop_last());
    if j == anchors.len() - 1 {
        if !prefix.contains(anchors.last()) {
            assert(candidates_of(anchors).last() == anchors.last());
        } else {
            let k = choose|k: int| 0 <= k < prefix.len() && prefix[k] == anchors.last();
            assert(candidates_of(anchors)[k] == anchors[j]);
        }
    } else {
        lemma_candidates_complete(anchors.drop_last(), j);
        let k = choose|k: int| 0 <= k < prefix.len() && prefix[k] == anchors[j];
        assert(candidates_of(anchors)[k] == anchors[j]);
    }
}

/// No URL appears twice among a page's candidates.
pub proof fn lemma_candidates_no_duplicates(anchors: Seq<Seq<char>>)
    ensures
        forall|k1: int, k2: int|
            0 <= k1 < k2 < candidates_of(anchors).len() ==> #[trigger] candidates_of(anchors)[k1]
                != #[trigger] candidates_of(anchors)[k2],
    decreases anchors.len(),
{
    if anchors.len() > 0 {
        lemma_candidates_no_duplicates(anchors.drop_last());
        let prefix = candidates_of(anchors.drop_last());
        assert forall|k1: int, k2: int|
            0 <= k1 < k2 < candidates_of(anchors).len() implies #[trigger] candidates_of(anchors)[k1]
            != #[trigger] candidates_of(anchors)[k2] by {
            if k2 == prefix.len() && candidates_of(anchors).len() > prefix.len() {
                assert(!prefix.contains(anchors.last()));
                assert(prefix[k1] != anchors.last());
            }
        }
    }
}

} // verus!
