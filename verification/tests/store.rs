use relation_service::store::walk::UNREACHED;
use relation_service::store::{EdgeKind, GraphStore, Link};
use relation_service::tigergraph::identity::Identity;
use relation_service::upstream::{DataSource, Platform};

fn identity(platform: Platform, key: &str, updated_at: i64) -> Identity {
    Identity {
        uuid: Some(updated_at as u128),
        platform,
        identity: key.to_string(),
        uid: None,
        display_name: None,
        profile_url: None,
        avatar_url: None,
        created_at: Some(updated_at),
        added_at: updated_at,
        updated_at,
        expired_at: None,
        reverse: None,
    }
}

fn link(from: usize, to: usize, kind: EdgeKind, reverse: bool) -> Link {
    Link {
        from,
        to,
        kind,
        source: DataSource::TheGraph,
        discriminator: String::new(),
        uuid: 1,
        updated_at: 10,
        reverse,
    }
}

fn named(from: usize, to: usize, name: &str, uuid: u128, updated_at: i64) -> Link {
    Link {
        from,
        to,
        kind: EdgeKind::Resolve,
        source: DataSource::TheGraph,
        discriminator: name.to_string(),
        uuid,
        updated_at,
        reverse: false,
    }
}

fn snapshot(store: &GraphStore) -> Vec<String> {
    store.vertices.iter().map(|v| format!("{:?}", v)).collect()
}

/// wallet 0, primary ENS 1, other ENS 2, twitter 3 (proof with wallet),
/// lens 4 (held by twitter), far 5 (reverse-resolved from the primary ENS)
fn sample() -> GraphStore {
    let mut s = GraphStore::new();
    s.upsert(identity(Platform::Ethereum, "0xwallet", 1));
    s.upsert(identity(Platform::ENS, "primary.eth", 2));
    s.upsert(identity(Platform::ENS, "other.eth", 3));
    s.upsert(identity(Platform::Twitter, "handle", 4));
    s.upsert(identity(Platform::Lens, "handle.lens", 5));
    s.upsert(identity(Platform::Dotbit, "far.bit", 6));
    s.connect(link(0, 1, EdgeKind::Resolve, true));
    s.connect(link(2, 0, EdgeKind::Resolve, false));
    s.connect(link(0, 3, EdgeKind::Proof, false));
    s.connect(link(3, 4, EdgeKind::Hold, false));
    s.connect(link(1, 5, EdgeKind::Resolve, true));
    s
}

#[test]
fn test_upsert_twice_is_upsert_once() {
    let mut once = GraphStore::new();
    once.upsert(identity(Platform::Twitter, "other", 3));
    once.upsert(identity(Platform::Ethereum, "0xabc", 10));
    let mut twice = GraphStore::new();
    twice.upsert(identity(Platform::Twitter, "other", 3));
    twice.upsert(identity(Platform::Ethereum, "0xabc", 10));
    twice.upsert(identity(Platform::Ethereum, "0xabc", 10));
    assert_eq!(snapshot(&once), snapshot(&twice));
    assert_eq!(twice.vertices.len(), 2);
}

#[test]
fn test_upsert_over_an_existing_row_twice_is_once() {
    let mut incoming = identity(Platform::Ethereum, "0xabc", 20);
    incoming.display_name = Some("name".to_string());
    let mut once = GraphStore::new();
    once.upsert(identity(Platform::Ethereum, "0xabc", 10));
    once.upsert(incoming.duplicate());
    let mut twice = GraphStore::new();
    twice.upsert(identity(Platform::Ethereum, "0xabc", 10));
    twice.upsert(incoming.duplicate());
    twice.upsert(incoming);
    assert_eq!(snapshot(&once), snapshot(&twice));
}

#[test]
fn test_updated_at_is_the_max_of_all_upserts() {
    let mut s = GraphStore::new();
    for t in [50i64, 20, 90, 70, 90, 10] {
        s.upsert(identity(Platform::Ethereum, "0xabc", t));
    }
    let row = s.find_by_platform_identity(Platform::Ethereum, "0xabc").expect("stored");
    assert_eq!(row.updated_at, 90);
    assert_eq!(row.added_at, 50);
    assert_eq!(row.uuid, Some(50));
    assert_eq!(row.created_at, Some(50));
    assert_eq!(s.vertices.len(), 1);
}

#[test]
fn test_upsert_never_changes_platform_or_identity() {
    let mut s = sample();
    let before: Vec<(Platform, String)> =
        s.vertices.iter().map(|v| (v.platform, v.identity.clone())).collect();
    s.upsert(identity(Platform::ENS, "other.eth", 99));
    s.upsert(identity(Platform::Solana, "new", 99));
    let after: Vec<(Platform, String)> =
        s.vertices.iter().map(|v| (v.platform, v.identity.clone())).collect();
    assert_eq!(&after[..before.len()], &before[..]);
    assert_eq!(after.len(), before.len() + 1);
    assert_eq!(s.links.len(), 5);
}

#[test]
fn test_record_is_fresh_right_after_upsert() {
    let now = 1_700_000_000;
    let mut s = GraphStore::new();
    s.upsert(identity(Platform::Ethereum, "0xabc", now - 7200));
    let stale = s.find_by_platform_identity(Platform::Ethereum, "0xabc").expect("stored");
    assert!(stale.is_outdated(now));
    s.upsert(identity(Platform::Ethereum, "0xabc", now));
    let fresh = s.find_by_platform_identity(Platform::Ethereum, "0xabc").expect("stored");
    assert!(!fresh.is_outdated(now));
}

#[test]
fn test_find_reports_position_or_length() {
    let s = sample();
    assert_eq!(s.find(Platform::ENS, "other.eth"), 2);
    assert_eq!(s.find(Platform::Ethereum, "other.eth"), 6);
    assert_eq!(s.find(Platform::ENS, "OTHER.eth"), 6);
    assert!(s.find_by_platform_identity(Platform::Twitter, "nobody").is_none());
}

#[test]
fn test_connect_is_idempotent() {
    let mut s = sample();
    let before = s.links.clone();
    s.connect(link(0, 1, EdgeKind::Resolve, true));
    assert_eq!(s.links, before);
    s.connect(named(0, 1, "primary.eth", 5, 20));
    assert_eq!(s.links.len(), 6);
    let once = s.links.clone();
    s.connect(named(0, 1, "primary.eth", 5, 20));
    assert_eq!(s.links, once);
}

#[test]
fn test_connect_over_the_same_edge_keeps_uuid_and_takes_the_later_time() {
    let mut s = sample();
    s.connect(named(0, 1, "primary.eth", 5, 20));
    s.connect(named(0, 1, "primary.eth", 6, 30));
    s.connect(named(0, 1, "primary.eth", 7, 25));
    assert_eq!(s.links.len(), 6);
    assert_eq!(s.links[5].uuid, 5);
    assert_eq!(s.links[5].updated_at, 30);
    let mut primary = named(0, 1, "primary.eth", 8, 1);
    primary.reverse = true;
    s.connect(primary);
    assert!(s.links[5].reverse);
    assert_eq!(s.links[5].updated_at, 30);
    s.connect(named(0, 1, "second.eth", 9, 1));
    s.connect(named(1, 0, "primary.eth", 9, 1));
    let mut other_source = named(0, 1, "primary.eth", 9, 1);
    other_source.source = DataSource::Knn3;
    s.connect(other_source);
    assert_eq!(s.links.len(), 9);
}

#[test]
fn test_neighbors_by_depth() {
    let s = sample();
    assert_eq!(s.neighbors(0, 0, None), Vec::<usize>::new());
    assert_eq!(s.neighbors(0, 1, None), vec![1, 2, 3]);
    assert_eq!(s.neighbors(0, 2, None), vec![1, 2, 3, 4, 5]);
    assert_eq!(s.neighbors(0, 9, None), vec![1, 2, 3, 4, 5]);
    assert_eq!(s.neighbors(4, 1, None), vec![3]);
    assert_eq!(s.neighbors(4, 2, None), vec![0, 3]);
    assert_eq!(s.neighbors(4, 3, None), vec![0, 1, 2, 3]);
}

#[test]
fn test_neighbors_never_return_the_origin() {
    let s = sample();
    for origin in 0..6usize {
        for depth in 0..5u16 {
            for reverse in [None, Some(true), Some(false)] {
                assert!(!s.neighbors(origin, depth, reverse).contains(&origin));
            }
        }
    }
}

#[test]
fn test_reverse_true_returns_only_primary_domains() {
    let s = sample();
    assert_eq!(s.neighbors(0, 1, Some(true)), vec![1]);
    assert_eq!(s.neighbors(0, 2, Some(true)), vec![1, 5]);
    assert_eq!(s.neighbors(0, 2, Some(false)), vec![2, 3, 4]);
}

#[test]
fn test_filtered_neighbors_are_a_subset_of_all_neighbors() {
    let s = sample();
    for origin in 0..6usize {
        for depth in 0..5u16 {
            let all = s.neighbors(origin, depth, None);
            for reverse in [Some(true), Some(false)] {
                for v in s.neighbors(origin, depth, reverse) {
                    assert!(all.contains(&v));
                }
            }
        }
    }
}

#[test]
fn test_direct_neighbors_are_split_by_the_filter() {
    let s = sample();
    for origin in 0..6usize {
        let primary = s.neighbors(origin, 1, Some(true));
        let others = s.neighbors(origin, 1, Some(false));
        for v in s.neighbors(origin, 1, None) {
            assert!(primary.contains(&v) || others.contains(&v));
        }
    }
}

#[test]
fn test_a_mixed_path_is_in_neither_filtered_result() {
    let s = sample();
    // far.bit is reached from twitter by a plain edge and then two primary ones
    assert!(s.neighbors(3, 3, None).contains(&5));
    assert!(!s.neighbors(3, 3, Some(true)).contains(&5));
    assert!(!s.neighbors(3, 3, Some(false)).contains(&5));
}

#[test]
fn test_neighbors_on_a_store_without_links() {
    let mut s = GraphStore::new();
    s.upsert(identity(Platform::Ethereum, "0xabc", 1));
    assert_eq!(s.neighbors(0, u16::MAX, None), Vec::<usize>::new());
}

#[test]
fn test_upsert_graph_is_a_sequence_of_upserts() {
    let mut batch = GraphStore::new();
    batch.upsert_graph(vec![
        identity(Platform::Ethereum, "0xabc", 5),
        identity(Platform::Twitter, "v", 6),
        identity(Platform::Ethereum, "0xabc", 9),
    ]);
    let mut single = GraphStore::new();
    single.upsert(identity(Platform::Ethereum, "0xabc", 5));
    single.upsert(identity(Platform::Twitter, "v", 6));
    single.upsert(identity(Platform::Ethereum, "0xabc", 9));
    assert_eq!(snapshot(&batch), snapshot(&single));
    assert_eq!(batch.vertices.len(), 2);
    assert_eq!(batch.vertices[0].updated_at, 9);
}

#[test]
fn test_delete_vertex_takes_its_edges_along() {
    let mut s = sample();
    s.delete_vertex_and_incident_edges(1);
    let keys: Vec<&str> = s.vertices.iter().map(|v| v.identity.as_str()).collect();
    assert_eq!(keys, vec!["0xwallet", "other.eth", "handle", "handle.lens", "far.bit"]);
    assert_eq!(
        s.links,
        vec![
            link(1, 0, EdgeKind::Resolve, false),
            link(0, 2, EdgeKind::Proof, false),
            link(2, 3, EdgeKind::Hold, false),
        ]
    );
    assert_eq!(s.neighbors(0, 5, None), vec![1, 2, 3]);
    assert!(s.find_by_platform_identity(Platform::ENS, "primary.eth").is_none());
}

#[test]
fn test_delete_then_upsert_gives_a_fresh_record() {
    let now = 1_700_000_000;
    let mut s = GraphStore::new();
    s.upsert(identity(Platform::Ethereum, "0xabc", now - 7200));
    let k = s.find(Platform::Ethereum, "0xabc");
    s.delete_vertex_and_incident_edges(k);
    assert!(s.vertices.is_empty());
    s.upsert(identity(Platform::Ethereum, "0xabc", now));
    let row = s.find_by_platform_identity(Platform::Ethereum, "0xabc").expect("stored");
    assert!(!row.is_outdated(now));
    assert_eq!(row.added_at, now);
}

fn sourced(from: usize, to: usize, source: DataSource) -> Link {
    Link {
        from,
        to,
        kind: EdgeKind::Proof,
        source,
        discriminator: String::new(),
        uuid: 1,
        updated_at: 10,
        reverse: false,
    }
}

/// 0-1 by the list, 1-2 by RSS3, 0-2 by The Graph, 2-3 by KNN3
fn sources_sample() -> GraphStore {
    let mut s = GraphStore::new();
    for key in ["a", "b", "c", "d"] {
        s.upsert(identity(Platform::Twitter, key, 1));
    }
    s.connect(sourced(0, 1, DataSource::SybilList));
    s.connect(sourced(1, 2, DataSource::Rss3));
    s.connect(sourced(0, 2, DataSource::TheGraph));
    s.connect(sourced(2, 3, DataSource::Knn3));
    s
}

#[test]
fn test_distances_count_the_fewest_edges() {
    let s = sample();
    let none = UNREACHED;
    assert_eq!(s.distances(0, 0, None), vec![0, none, none, none, none, none]);
    assert_eq!(s.distances(0, 1, None), vec![0, 1, 1, 1, none, none]);
    assert_eq!(s.distances(0, 2, None), vec![0, 1, 1, 1, 2, 2]);
    assert_eq!(s.distances(4, 9, None), vec![2, 3, 3, 1, 0, 4]);
    assert_eq!(s.distances(0, 9, Some(true)), vec![0, 1, none, none, none, 2]);
}

#[test]
fn test_sources_toward_are_those_of_the_edges_on_the_walks() {
    let s = sources_sample();
    assert_eq!(s.sources_toward(0, 2, 0, None), vec![]);
    assert_eq!(s.sources_toward(0, 2, 1, None), vec![DataSource::TheGraph]);
    assert_eq!(
        s.sources_toward(0, 2, 2, None),
        vec![DataSource::SybilList, DataSource::Rss3, DataSource::TheGraph]
    );
    assert_eq!(
        s.sources_toward(0, 2, 3, None),
        vec![DataSource::SybilList, DataSource::Rss3, DataSource::TheGraph, DataSource::Knn3]
    );
    assert_eq!(s.sources_toward(0, 3, 2, None), vec![DataSource::TheGraph, DataSource::Knn3]);
    assert_eq!(s.sources_toward(0, 3, 1, None), vec![]);
    assert_eq!(s.sources_toward(0, 1, 1, Some(true)), vec![]);
}

#[test]
fn test_sources_are_listed_once() {
    let mut s = sources_sample();
    let mut hold = sourced(2, 0, DataSource::TheGraph);
    hold.kind = EdgeKind::Hold;
    s.connect(hold);
    assert_eq!(s.sources_toward(0, 2, 1, None), vec![DataSource::TheGraph]);
}

#[test]
fn test_neighbors_with_source() {
    let s = sources_sample();
    let got: Vec<(usize, Vec<DataSource>)> =
        s.neighbors_with_source(0, 2, None).into_iter().map(|r| (r.vertex, r.sources)).collect();
    assert_eq!(
        got,
        vec![
            (1, vec![DataSource::SybilList, DataSource::Rss3, DataSource::TheGraph]),
            (2, vec![DataSource::SybilList, DataSource::Rss3, DataSource::TheGraph]),
            (3, vec![DataSource::TheGraph, DataSource::Knn3]),
        ]
    );
    let positions: Vec<usize> =
        s.neighbors_with_source(0, 1, None).into_iter().map(|r| r.vertex).collect();
    assert_eq!(positions, s.neighbors(0, 1, None));
}
