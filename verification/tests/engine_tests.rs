use seaker::engine::{Crawler, FetchOutcome};
use seaker::errors::CrawlError;

fn page(anchors: &[&str]) -> String {
    let mut body = String::from("<html><body>");
    for a in anchors {
        body.push_str("<a href=\"");
        body.push_str(a);
        body.push_str("\">link</a>");
    }
    body.push_str("</body></html>");
    body
}

#[test]
fn invalid_seed_is_rejected() {
    let r = Crawler::new("not a url".to_string(), 3);
    assert!(matches!(r, Err(CrawlError::Configuration)));
    let r = Crawler::new("mailto:x@y.com".to_string(), 0);
    assert!(matches!(r, Err(CrawlError::Configuration)));
}

#[test]
fn root_is_recorded_at_depth_zero() {
    let c = Crawler::new("https://root.test".to_string(), 5).unwrap();
    assert_eq!(c.store.links.len(), 1);
    assert_eq!(c.store.links[0].id, 1);
    assert_eq!(c.store.links[0].url, "https://root.test");
    assert_eq!(c.store.links[0].depth, 0);
    assert_eq!(c.store.links[0].parent_id, 0);
}

#[test]
fn depth_zero_traversal_fetches_nothing() {
    let mut c = Crawler::new("https://root.test".to_string(), 0).unwrap();
    assert!(c.done());
    assert!(c.next_node().is_none());
    assert_eq!(c.link_count(), 1);
    assert_eq!(c.store.links[0].depth, 0);
}

#[test]
fn end_to_end_depth_one_scenario() {
    // Seed https://root.test with depthMax = 1: the root page links to
    // a.test and b.test; a.test's own page links to c.test but is never
    // expanded, because its children would sit at depth 2.
    let mut c = Crawler::new("https://root.test".to_string(), 1).unwrap();
    let root = c.next_node().unwrap();
    assert_eq!(root.url, "https://root.test");
    c.expand(root, FetchOutcome::Success(page(&["https://a.test", "https://b.test"])))
        .unwrap();
    assert!(c.next_node().is_none());
    assert_eq!(c.link_count(), 3);
    assert_eq!(c.store.links[1].url, "https://a.test");
    assert_eq!(c.store.links[1].depth, 1);
    assert_eq!(c.store.links[1].parent_id, 1);
    assert_eq!(c.store.links[2].url, "https://b.test");
    assert_eq!(c.store.links[2].depth, 1);
    assert_eq!(c.store.links[2].parent_id, 1);
    assert!(!c.store.links.iter().any(|l| l.url == "https://c.test"));
}

#[test]
fn failed_sibling_is_isolated() {
    // Siblings x.test and y.test at depth 1: fetching x fails, y still
    // expands normally; x stays recorded with no children.
    let mut c = Crawler::new("https://root.test".to_string(), 2).unwrap();
    let root = c.next_node().unwrap();
    c.expand(root, FetchOutcome::Success(page(&["https://x.test", "https://y.test"])))
        .unwrap();

    let x = c.next_node().unwrap();
    assert_eq!(x.url, "https://x.test");
    let x_id = x.link_id;
    c.expand(x, FetchOutcome::Failure).unwrap();

    let y = c.next_node().unwrap();
    assert_eq!(y.url, "https://y.test");
    let y_id = y.link_id;
    c.expand(y, FetchOutcome::Success(page(&["https://z.test"])))
        .unwrap();

    assert!(c.next_node().is_none());
    assert_eq!(c.link_count(), 4);
    assert!(!c.store.links.iter().any(|l| l.parent_id == x_id));
    let z = &c.store.links[3];
    assert_eq!(z.url, "https://z.test");
    assert_eq!(z.depth, 2);
    assert_eq!(z.parent_id, y_id);
}

#[test]
fn failed_root_leaves_only_the_root() {
    let mut c = Crawler::new("https://root.test".to_string(), 3).unwrap();
    let root = c.next_node().unwrap();
    c.expand(root, FetchOutcome::Failure).unwrap();
    assert!(c.done());
    assert_eq!(c.link_count(), 1);
}

#[test]
fn duplicate_anchors_yield_one_link_each() {
    let mut c = Crawler::new("https://root.test".to_string(), 1).unwrap();
    let root = c.next_node().unwrap();
    c.expand(
        root,
        FetchOutcome::Success(page(&[
            "https://a.test",
            "https://b.test",
            "https://a.test",
            "https://c.test",
            "https://b.test",
        ])),
    )
    .unwrap();
    assert_eq!(c.link_count(), 4);
    assert_eq!(c.store.links[1].url, "https://a.test");
    assert_eq!(c.store.links[2].url, "https://b.test");
    assert_eq!(c.store.links[3].url, "https://c.test");
}

#[test]
fn relative_anchors_are_not_recorded() {
    let mut c = Crawler::new("https://root.test".to_string(), 1).unwrap();
    let root = c.next_node().unwrap();
    c.expand(
        root,
        FetchOutcome::Success(page(&["/relative", "mailto:x@y.com", "https://ok.test"])),
    )
    .unwrap();
    assert_eq!(c.link_count(), 2);
    assert_eq!(c.store.links[1].url, "https://ok.test");
    assert_eq!(c.store.links[1].depth, 1);
    assert_eq!(c.store.links[1].parent_id, 1);
}

#[test]
fn anchors_without_href_are_ignored() {
    let mut c = Crawler::new("https://root.test".to_string(), 1).unwrap();
    let root = c.next_node().unwrap();
    let body = "<html><body><a>no target</a><a href=\"https://a.test\">a</a></body></html>";
    c.expand(root, FetchOutcome::Success(body.to_string())).unwrap();
    assert_eq!(c.link_count(), 2);
    assert_eq!(c.store.links[1].url, "https://a.test");
}

#[test]
fn malformed_markup_degrades_gracefully() {
    let mut c = Crawler::new("https://root.test".to_string(), 1).unwrap();
    let root = c.next_node().unwrap();
    let body = "<<<not <a href=\"https://kept.test\" markup at all";
    c.expand(root, FetchOutcome::Success(body.to_string())).unwrap();
    // Whatever anchors are parseable are kept; the page never aborts the
    // traversal.
    assert!(c.store.links.len() >= 1);
    assert!(c.next_node().is_none() || c.link_count() > 1);
}

#[test]
fn plain_text_page_yields_no_links() {
    let mut c = Crawler::new("https://root.test".to_string(), 1).unwrap();
    let root = c.next_node().unwrap();
    c.expand(root, FetchOutcome::Success("just words, no markup".to_string()))
        .unwrap();
    assert_eq!(c.link_count(), 1);
}

#[test]
fn siblings_expand_in_discovery_order() {
    let mut c = Crawler::new("https://root.test".to_string(), 2).unwrap();
    let root = c.next_node().unwrap();
    c.expand(
        root,
        FetchOutcome::Success(page(&["https://first.test", "https://second.test"])),
    )
    .unwrap();
    let n1 = c.next_node().unwrap();
    assert_eq!(n1.url, "https://first.test");
    c.expand(n1, FetchOutcome::Failure).unwrap();
    let n2 = c.next_node().unwrap();
    assert_eq!(n2.url, "https://second.test");
}

#[test]
fn depth_first_expansion_before_siblings() {
    let mut c = Crawler::new("https://root.test".to_string(), 3).unwrap();
    let root = c.next_node().unwrap();
    c.expand(
        root,
        FetchOutcome::Success(page(&["https://a.test", "https://b.test"])),
    )
    .unwrap();
    let a = c.next_node().unwrap();
    assert_eq!(a.url, "https://a.test");
    c.expand(a, FetchOutcome::Success(page(&["https://a1.test"]))).unwrap();
    // a's child comes before a's sibling b.
    let a1 = c.next_node().unwrap();
    assert_eq!(a1.url, "https://a1.test");
    c.expand(a1, FetchOutcome::Failure).unwrap();
    let b = c.next_node().unwrap();
    assert_eq!(b.url, "https://b.test");
}

#[test]
fn no_link_exceeds_depth_max() {
    let mut c = Crawler::new("https://root.test".to_string(), 2).unwrap();
    let mut fan = 0usize;
    while let Some(node) = c.next_node() {
        fan += 1;
        let child = format!("https://d{}.test", fan);
        c.expand(node, FetchOutcome::Success(page(&[&child, "https://common.test"])))
            .unwrap();
    }
    for l in &c.store.links {
        assert!(l.depth <= 2);
    }
    assert_eq!(c.store.links[0].depth, 0);
}

#[test]
fn parentage_is_well_formed_across_a_crawl() {
    let mut c = Crawler::new("https://root.test".to_string(), 3).unwrap();
    let mut fan = 0usize;
    while let Some(node) = c.next_node() {
        fan += 1;
        let child_a = format!("https://p{}a.test", fan);
        let child_b = format!("https://p{}b.test", fan);
        c.expand(node, FetchOutcome::Success(page(&[&child_a, &child_b])))
            .unwrap();
    }
    for (i, l) in c.store.links.iter().enumerate() {
        assert_eq!(l.id, i as i64 + 1);
        if i == 0 {
            assert_eq!(l.depth, 0);
            assert_eq!(l.parent_id, 0);
        } else {
            assert!(l.parent_id >= 1 && l.parent_id <= i as i64);
            let parent = &c.store.links[(l.parent_id - 1) as usize];
            assert_eq!(l.depth, parent.depth + 1);
        }
    }
}

#[test]
fn parent_chain_reaches_root_within_depth_max_steps() {
    let depth_max = 3usize;
    let mut c = Crawler::new("https://root.test".to_string(), depth_max).unwrap();
    let mut fan = 0usize;
    while let Some(node) = c.next_node() {
        fan += 1;
        let child = format!("https://q{}.test", fan);
        c.expand(node, FetchOutcome::Success(page(&[&child]))).unwrap();
    }
    for l in &c.store.links {
        let mut id = l.id;
        let mut steps = 0usize;
        while id != 1 {
            id = c.store.links[(id - 1) as usize].parent_id;
            steps += 1;
            assert!(steps <= depth_max);
        }
    }
}
