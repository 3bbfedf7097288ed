use relation_service::controller::graphql::{
    BatchPlan, IdentityQuery as KeepingIdentityQuery, ResolveQuery,
};
use relation_service::controller::tigergraphql::{
    nft_categories, nft_page, target_for, traversal_depth, IdentityQuery, ProofQuery,
};
use relation_service::controller::{
    cold_answer, vec_string_to_vec_platform, ReadPlan, REFRESH_DELAY,
};
use relation_service::upstream::dispatch::Failure;
use relation_service::upstream::target::Upstream;
use relation_service::error::Error;
use relation_service::graph::resolve::{DomainNameSystem, Resolve, ResolveEdge};
use relation_service::tigergraph::edge::{Proof, ProofRecord};
use relation_service::tigergraph::identity::{Identity, IdentityRecord};
use relation_service::upstream::target::Target;
use relation_service::upstream::{
    Chain, ContractCategory, DataFetcher, DataSource, Platform,
};

fn record(platform: Platform, key: &str, updated_at: i64) -> IdentityRecord {
    let identity = Identity {
        uuid: None,
        platform,
        identity: key.to_string(),
        uid: None,
        display_name: None,
        profile_url: None,
        avatar_url: None,
        created_at: None,
        added_at: 0,
        updated_at,
        expired_at: None,
        reverse: None,
    };
    let v_id = identity.primary_key();
    IdentityRecord::from_with_params("Identities".to_string(), v_id, identity)
}

fn edge(updated_at: i64) -> ResolveEdge {
    ResolveEdge {
        record: Resolve {
            uuid: 1,
            source: DataSource::TheGraph,
            system: DomainNameSystem::ENS,
            name: "vitalik.eth".to_string(),
            fetcher: DataFetcher::RelationService,
            updated_at,
        },
        resolved: None,
        owner: None,
    }
}

fn ens_target(name: &str) -> Target {
    Target::NFT(
        Chain::Ethereum,
        ContractCategory::ENS,
        "0x57f1887a8bf19b14fc0df6fd9b2acc9af147ea85".to_string(),
        name.to_string(),
    )
}

fn one(targets: &[Target], wanted: &Target) -> bool {
    targets.len() == 1 && targets[0].same(wanted)
}

#[test]
fn test_available_lists() {
    let q = IdentityQuery;
    assert_eq!(q.available_platforms(), Platform::all());
    assert_eq!(q.available_upstreams(), DataSource::all());
    let first = KeepingIdentityQuery;
    assert_eq!(first.available_platforms().len(), 13);
    assert_eq!(first.available_upstreams().len(), 5);
    assert_eq!(
        ResolveQuery {}.available_name_system(),
        vec!["ENS", "dotbit", "lens", "unstoppabledomains", "space_id", "unknown"]
    );
}

#[test]
fn test_query_target_reads_the_platform_in_any_case() {
    let q = IdentityQuery;
    let (p, t) = q.target("Ethereum", "0xAbC").expect("a platform");
    assert_eq!(p, Platform::Ethereum);
    assert!(t.same(&Target::Identity(Platform::Ethereum, "0xAbC".to_string())));
    let (p, _) = q.target("TWITTER", "v").expect("a platform");
    assert_eq!(p, Platform::Twitter);
    assert!(matches!(q.target("myspace", "v"), Err(Error::ParamError(_))));
    assert!(matches!(q.target("", "v"), Err(Error::ParamError(_))));
}

#[test]
fn test_query_target_routes_ens_as_an_nft() {
    let q = IdentityQuery;
    let (p, t) = q.target("ENS", "vitalik.eth").expect("a platform");
    assert_eq!(p, Platform::ENS);
    assert!(t.same(&ens_target("vitalik.eth")));
    assert!(target_for(Platform::ENS, "a.eth").same(&ens_target("a.eth")));
    assert!(target_for(Platform::Lens, "a.lens")
        .same(&Target::Identity(Platform::Lens, "a.lens".to_string())));
}

#[test]
fn test_cold_identity_query_fetches_then_rereads() {
    let q = IdentityQuery;
    let target = Target::Identity(Platform::Ethereum, "0xabc".to_string());
    match q.identity(None, target.duplicate(), 1000) {
        ReadPlan::ColdFetch { targets, depth } => {
            assert!(one(&targets, &target));
            assert_eq!(depth, 3);
        }
        other => panic!("expected a cold fetch, got {:?}", other),
    }
}

#[test]
fn test_stale_identity_is_served_and_refreshed_in_the_background() {
    let q = IdentityQuery;
    let target = Target::Identity(Platform::Ethereum, "0xabc".to_string());
    let now = 1_700_000_000;
    let found = record(Platform::Ethereum, "0xabc", now - 7200);
    match q.identity(Some(found), target.duplicate(), now) {
        ReadPlan::ServeStale { record, delay, delete, targets, depth } => {
            assert_eq!(record.v_id, "ethereum,0xabc");
            assert_eq!(delay, 10);
            assert_eq!(delay, REFRESH_DELAY);
            assert_eq!(delete, "ethereum,0xabc");
            assert!(one(&targets, &target));
            assert_eq!(depth, 3);
        }
        other => panic!("expected a stale serve, got {:?}", other),
    }
}

#[test]
fn test_fresh_identity_is_served_without_fetching() {
    let q = IdentityQuery;
    let target = Target::Identity(Platform::Ethereum, "0xabc".to_string());
    let now = 1_700_000_000;
    for age in [0i64, 1, 3600] {
        let found = record(Platform::Ethereum, "0xabc", now - age);
        match q.identity(Some(found), target.duplicate(), now) {
            ReadPlan::Serve { record } => assert_eq!(record.v_id, "ethereum,0xabc"),
            other => panic!("expected a serve, got {:?}", other),
        }
    }
    let found = record(Platform::Ethereum, "0xabc", now - 3601);
    assert!(matches!(q.identity(Some(found), target, now), ReadPlan::ServeStale { .. }));
}

#[test]
fn test_identity_query_by_platform_refreshes_with_delay_and_delete() {
    let q = KeepingIdentityQuery;
    let target = Target::Identity(Platform::Twitter, "v".to_string());
    assert!(matches!(
        q.identity(None, Platform::Twitter, "v", 10),
        ReadPlan::ColdFetch { depth: 3, .. }
    ));
    match q.identity(Some(record(Platform::Twitter, "v", 0)), Platform::Twitter, "v", 4000) {
        ReadPlan::ServeStale { delay, delete, targets, depth, .. } => {
            assert_eq!(delay, 10);
            assert_eq!(delete, "twitter,v");
            assert!(one(&targets, &target));
            assert_eq!(depth, 3);
        }
        other => panic!("expected a stale serve, got {:?}", other),
    }
    assert!(matches!(
        q.identity(Some(record(Platform::Twitter, "v", 0)), Platform::Twitter, "v", 3600),
        ReadPlan::Serve { .. }
    ));
}

#[test]
fn test_identities_fetches_every_platform_when_nothing_is_stored() {
    let q = KeepingIdentityQuery;
    let platforms = vec!["twitter".to_string(), "ethereum".to_string()];
    let plan: BatchPlan = q.identities(&platforms, "vitalik", vec![], 0).expect("a plan");
    assert_eq!(plan.depth, 3);
    assert_eq!(plan.delay, 10);
    assert!(plan.records.is_empty());
    assert!(plan.refresh.is_empty());
    assert_eq!(plan.cold.len(), 2);
    assert!(plan.cold[0].same(&Target::Identity(Platform::Twitter, "vitalik".to_string())));
    assert!(plan.cold[1].same(&Target::Identity(Platform::Ethereum, "vitalik".to_string())));
    let bad = vec!["twitter".to_string(), "nowhere".to_string()];
    assert!(matches!(q.identities(&bad, "vitalik", vec![], 0), Err(Error::ParamError(_))));
}

#[test]
fn test_identities_refreshes_the_outdated_records() {
    let q = KeepingIdentityQuery;
    let platforms = vec!["twitter".to_string(), "ethereum".to_string()];
    let found = vec![
        record(Platform::Twitter, "vitalik", 0),
        record(Platform::Ethereum, "vitalik", 9000),
    ];
    let plan = q.identities(&platforms, "vitalik", found, 10_000).expect("a plan");
    assert_eq!(plan.records.len(), 2);
    assert!(plan.cold.is_empty());
    assert_eq!(plan.refresh.len(), 1);
    assert_eq!(plan.refresh[0].delete, "twitter,vitalik");
    assert!(plan.refresh[0]
        .target
        .same(&Target::Identity(Platform::Twitter, "vitalik".to_string())));
    assert_eq!(plan.delay, 10);
}

#[test]
fn test_identities_treats_each_platform_by_itself() {
    let q = KeepingIdentityQuery;
    let platforms = vec![
        "lens".to_string(),
        "twitter".to_string(),
        "ethereum".to_string(),
        "farcaster".to_string(),
    ];
    let found = vec![
        record(Platform::Ethereum, "vitalik", 9000),
        record(Platform::Twitter, "vitalik", 0),
    ];
    let plan = q.identities(&platforms, "vitalik", found, 10_000).expect("a plan");
    assert_eq!(plan.records.len(), 2);
    assert_eq!(plan.records[0].v_id, "ethereum,vitalik");
    assert_eq!(plan.cold.len(), 2);
    assert!(plan.cold[0].same(&Target::Identity(Platform::Lens, "vitalik".to_string())));
    assert!(plan.cold[1].same(&Target::Identity(Platform::Farcaster, "vitalik".to_string())));
    assert_eq!(plan.refresh.len(), 1);
    assert_eq!(plan.refresh[0].delete, "twitter,vitalik");
    assert_eq!(plan.depth, 3);
}

#[test]
fn test_cold_answer_is_the_second_lookup() {
    let failure = Failure {
        target: Target::Identity(Platform::Ethereum, "0xabc".to_string()),
        upstream: Upstream::TheGraph,
        error: Error::General("upstream down".to_string(), 502),
    };
    let none: Result<Option<IdentityRecord>, Error> = Ok(None);
    assert!(matches!(cold_answer(Err(vec![failure]), none), Ok(None)));
    let some = Ok(Some(record(Platform::Ethereum, "0xabc", 0)));
    assert_eq!(
        cold_answer(Ok(()), some).expect("the second lookup").map(|r| r.v_id),
        Some("ethereum,0xabc".to_string())
    );
    let store_down: Result<Option<IdentityRecord>, Error> =
        Err(Error::ArangoDBError("pool".to_string()));
    assert!(matches!(cold_answer(Ok(()), store_down), Err(Error::ArangoDBError(_))));
}

#[test]
fn test_platforms_from_text() {
    let texts = vec!["lens".to_string(), "ENS".to_string(), "space_id".to_string()];
    assert_eq!(
        vec_string_to_vec_platform(&texts).expect("platforms"),
        vec![Platform::Lens, Platform::ENS, Platform::SpaceId]
    );
    assert!(matches!(
        vec_string_to_vec_platform(&vec!["Lens".to_string()]),
        Err(Error::ParamError(_))
    ));
}

#[test]
fn test_ens_query_plans() {
    let q = ResolveQuery {};
    match q.ens(None, "vitalik.eth", 0) {
        ReadPlan::ColdFetch { targets, depth } => {
            assert!(one(&targets, &ens_target("vitalik.eth")));
            assert_eq!(depth, 3);
        }
        other => panic!("expected a cold fetch, got {:?}", other),
    }
    assert!(matches!(q.ens(Some(edge(0)), "vitalik.eth", 86_400), ReadPlan::Serve { .. }));
    match q.ens(Some(edge(0)), "vitalik.eth", 86_401) {
        ReadPlan::ServeStale { record, delay, delete, targets, depth } => {
            assert_eq!(record.record.name, "vitalik.eth");
            assert_eq!(delay, 10);
            assert_eq!(delete, "ENS,vitalik.eth");
            assert!(one(&targets, &ens_target("vitalik.eth")));
            assert_eq!(depth, 3);
        }
        other => panic!("expected a stale serve, got {:?}", other),
    }
}

#[test]
fn test_dotbit_query_plans() {
    let q = ResolveQuery {};
    let target = Target::Identity(Platform::Dotbit, "thefuzezhong.bit".to_string());
    match q.dotbit(None, "thefuzezhong.bit", 0) {
        ReadPlan::ColdFetch { targets, .. } => assert!(one(&targets, &target)),
        other => panic!("expected a cold fetch, got {:?}", other),
    }
    match q.dotbit(Some(edge(5)), "thefuzezhong.bit", 100_000) {
        ReadPlan::ServeStale { delay, delete, targets, depth, .. } => {
            assert_eq!(delay, 10);
            assert_eq!(delete, "dotbit,thefuzezhong.bit");
            assert!(one(&targets, &target));
            assert_eq!(depth, 3);
        }
        other => panic!("expected a stale serve, got {:?}", other),
    }
    assert!(matches!(q.dotbit(Some(edge(5)), "thefuzezhong.bit", 5), ReadPlan::Serve { .. }));
}

#[test]
fn test_resolved_and_owner_of_an_edge() {
    let mut e = edge(0);
    e.owner = Some(record(Platform::Ethereum, "0xowner", 0));
    assert_eq!(e.owner().expect("an owner").v_id, "ethereum,0xowner");
    assert!(matches!(edge(0).owner(), Err(Error::GraphQLError(_))));
    assert!(matches!(edge(0).resolved(), Err(Error::GraphQLError(_))));
    let mut e = edge(0);
    e.resolved = Some(record(Platform::Ethereum, "0xresolved", 0));
    assert_eq!(e.resolved().expect("resolved").v_id, "ethereum,0xresolved");
}

#[test]
fn test_proof_query_reads_a_uuid() {
    let q = ProofQuery;
    assert_eq!(q.proof_by_uuid(&None).expect("nothing to look up"), None);
    assert_eq!(
        q.proof_by_uuid(&Some("550e8400-e29b-41d4-a716-446655440000".to_string()))
            .expect("a uuid"),
        Some(0x550e8400e29b41d4a716446655440000u128)
    );
    assert_eq!(
        q.proof_by_uuid(&Some("550E8400E29B41D4A716446655440000".to_string())).expect("a uuid"),
        Some(0x550e8400e29b41d4a716446655440000u128)
    );
    assert!(matches!(
        q.proof_by_uuid(&Some("not-a-uuid".to_string())),
        Err(Error::ParamError(_))
    ));
    assert!(matches!(q.proof_by_uuid(&Some(String::new())), Err(Error::ParamError(_))));
    assert_eq!(q.prefetch_proof(), "Fetching");
}

#[test]
fn test_proof_ends_come_from_the_loader() {
    let p = ProofRecord {
        from_id: "twitter,a".to_string(),
        to_id: "ethereum,0xb".to_string(),
        attributes: Proof {
            uuid: 1,
            source: DataSource::SybilList,
            record_id: None,
            created_at: None,
            updated_at: 0,
            fetcher: DataFetcher::RelationService,
        },
    };
    assert_eq!(
        p.from(Some(record(Platform::Twitter, "a", 0))).expect("found").v_id,
        "twitter,a"
    );
    match p.from(None) {
        Err(Error::GraphQLError(text)) => assert_eq!(text, "record from no found."),
        other => panic!("expected an error, got {:?}", other),
    }
    match p.to(None) {
        Err(Error::GraphQLError(text)) => assert_eq!(text, "record to no found."),
        other => panic!("expected an error, got {:?}", other),
    }
    assert!(p.to(Some(record(Platform::Ethereum, "0xb", 0))).is_ok());
}

#[test]
fn test_query_defaults() {
    assert_eq!(traversal_depth(None), 1);
    assert_eq!(traversal_depth(Some(4)), 4);
    assert_eq!(nft_page(None, None), (100, 0));
    assert_eq!(nft_page(Some(10), Some(20)), (10, 20));
}

#[test]
fn test_nft_categories_are_read_in_any_case() {
    assert_eq!(nft_categories(&None).expect("none"), None);
    assert_eq!(
        nft_categories(&Some(vec!["ENS".to_string(), "erc721".to_string(), "Poap".to_string()]))
            .expect("categories"),
        Some(vec![ContractCategory::ENS, ContractCategory::ERC721, ContractCategory::POAP])
    );
    assert!(matches!(
        nft_categories(&Some(vec!["ens".to_string(), "erc20".to_string()])),
        Err(Error::ParamError(_))
    ));
}

#[test]
fn test_identity_graph_fetch_target() {
    let (targets, depth) = record(Platform::ENS, "a.eth", 0).identity_graph();
    assert_eq!(depth, 3);
    assert!(one(&targets, &ens_target("a.eth")));
    let (targets, _) = record(Platform::Farcaster, "dwr", 0).identity_graph();
    assert!(one(&targets, &Target::Identity(Platform::Farcaster, "dwr".to_string())));
}
