use relation_service::controller::DataStatus;
use relation_service::error::Error;
use relation_service::graph::resolve::{DomainNameSystem, HoldEdge, Resolve, ResolveEdge, ResolveRecord};
use relation_service::graph::Contract;
use relation_service::text::{push_decimal, same_text};
use relation_service::tigergraph::edge::{Hold, HoldRecord, NamedAttribute};
use relation_service::tigergraph::identity::{
    AttrValue, Identity, IdentityField, IdentityRecord, Loaded,
};
use relation_service::tigergraph::OpCode;
use relation_service::upstream::{
    Chain, ContractCategory, DataFetcher, DataSource, Platform, TempIdentity, TempProof,
};

fn wallet(identity: &str, updated_at: i64) -> Identity {
    Identity {
        uuid: Some(7),
        platform: Platform::Ethereum,
        identity: identity.to_string(),
        uid: None,
        display_name: Some("vitalik.eth".to_string()),
        profile_url: None,
        avatar_url: None,
        created_at: None,
        added_at: 100,
        updated_at,
        expired_at: None,
        reverse: None,
    }
}

fn record(identity: Identity) -> IdentityRecord {
    let v_id = identity.primary_key();
    IdentityRecord::from_with_params("Identities".to_string(), v_id, identity)
}

#[test]
fn test_push_decimal_writes_digits() {
    let mut s = String::from("n=");
    push_decimal(&mut s, 1205);
    assert_eq!(s, "n=1205");
    let mut z = String::new();
    push_decimal(&mut z, 0);
    assert_eq!(z, "0");
    let mut m = String::new();
    push_decimal(&mut m, u64::MAX);
    assert_eq!(m, "18446744073709551615");
}

#[test]
fn test_same_text_compares_characters() {
    assert!(same_text("ENS", "ENS"));
    assert!(!same_text("ENS", "ens"));
    assert!(!same_text("", "a"));
}

#[test]
fn test_platform_names_round_trip() {
    let all = Platform::all();
    assert_eq!(all.len(), 13);
    for p in all {
        assert_eq!(Platform::from_text(p.name()), Some(p));
    }
    assert_eq!(Platform::Ethereum.name(), "ethereum");
    assert_eq!(Platform::ENS.name(), "ENS");
    assert_eq!(Platform::SNS.name(), "SNS");
    assert_eq!(Platform::SpaceId.name(), "space_id");
    assert_eq!(Platform::UnstoppableDomains.name(), "unstoppabledomains");
}

#[test]
fn test_platform_from_text_accepts_lower_case_of_capital_names() {
    assert_eq!(Platform::from_text("ens"), Some(Platform::ENS));
    assert_eq!(Platform::from_text("sns"), Some(Platform::SNS));
    assert_eq!(Platform::from_text("Twitter"), None);
    assert_eq!(Platform::from_text(""), None);
    assert_eq!(Platform::from_text("github"), None);
}

#[test]
fn test_other_enums_round_trip() {
    for s in DataSource::all() {
        assert_eq!(DataSource::from_text(s.name()), Some(s));
    }
    for c in Chain::all() {
        assert_eq!(Chain::from_text(c.name()), Some(c));
    }
    for c in ContractCategory::all() {
        assert_eq!(ContractCategory::from_text(c.name()), Some(c));
    }
    for f in DataFetcher::all() {
        assert_eq!(DataFetcher::from_text(f.name()), Some(f));
    }
    for d in DomainNameSystem::all() {
        assert_eq!(DomainNameSystem::from_text(d.name()), Some(d));
    }
    assert_eq!(DataSource::SybilList.name(), "SybilList");
    assert_eq!(DataSource::TheGraph.name(), "the_graph");
    assert_eq!(ContractCategory::from_text("ens"), Some(ContractCategory::ENS));
    assert_eq!(ContractCategory::from_text("erc721"), Some(ContractCategory::ERC721));
    assert_eq!(DomainNameSystem::DotBit.name(), "dotbit");
}

#[test]
fn test_platform_sets() {
    assert!(Platform::Ethereum.in_domain_systems());
    assert!(Platform::Solana.in_domain_systems());
    assert!(!Platform::Twitter.in_domain_systems());
    assert!(!Platform::Farcaster.in_domain_systems());
    assert!(Platform::Farcaster.is_ownable_domain());
    assert!(Platform::Lens.is_ownable_domain());
    assert!(!Platform::Ethereum.is_ownable_domain());
    assert!(!Platform::Solana.is_ownable_domain());
    assert!(Platform::Dotbit.has_expiry());
    assert!(Platform::ENS.has_expiry());
    assert!(Platform::Genome.has_expiry());
    assert!(!Platform::Lens.has_expiry());
}

#[test]
fn test_platform_from_domain_name_system() {
    assert_eq!(Platform::from(DomainNameSystem::DotBit), Platform::Dotbit);
    assert_eq!(Platform::from(DomainNameSystem::Lens), Platform::Lens);
    assert_eq!(Platform::from(DomainNameSystem::SpaceId), Platform::SpaceId);
    assert_eq!(
        Platform::from(DomainNameSystem::UnstoppableDomains),
        Platform::UnstoppableDomains
    );
    assert_eq!(Platform::from(DomainNameSystem::ENS), Platform::Unknown);
    assert_eq!(Platform::from(DomainNameSystem::Unknown), Platform::Unknown);
}

#[test]
fn test_default_contract_address() {
    assert_eq!(
        ContractCategory::ENS.default_contract_address(),
        Some("0x57f1887a8bf19b14fc0df6fd9b2acc9af147ea85".to_string())
    );
    assert_eq!(ContractCategory::ERC721.default_contract_address(), None);
    assert_eq!(ContractCategory::Unknown.default_contract_address(), None);
}

#[test]
fn test_contract_primary_key() {
    let c = Contract {
        uuid: 1,
        category: ContractCategory::ENS,
        address: "0x57f1".to_string(),
        chain: Chain::Ethereum,
        symbol: None,
        updated_at: 0,
    };
    assert_eq!(c.primary_key(), "ethereum,0x57f1");
}

#[test]
fn test_error_http_status() {
    assert_eq!(Error::General("x".to_string(), 418).http_status(), 418);
    assert_eq!(Error::ParamMissing("x".to_string()).http_status(), 400);
    assert_eq!(Error::ParamError("x".to_string()).http_status(), 400);
    assert_eq!(Error::BodyMissing.http_status(), 400);
    assert_eq!(Error::NoResult.http_status(), 400);
    assert_eq!(Error::ParseError("x".to_string()).http_status(), 400);
    assert_eq!(Error::SignatureValidationError("x".to_string()).http_status(), 400);
    assert_eq!(Error::HttpError("x".to_string()).http_status(), 500);
    assert_eq!(Error::ConfigError("x".to_string()).http_status(), 500);
    assert_eq!(Error::HttpClientError("x".to_string()).http_status(), 500);
    assert_eq!(Error::ManualHttpClientError("x".to_string()).http_status(), 500);
    assert_eq!(Error::ArangoDBError("x".to_string()).http_status(), 500);
    assert_eq!(Error::PoolError("x".to_string()).http_status(), 500);
    assert_eq!(Error::GraphQLError("x".to_string()).http_status(), 500);
}

#[test]
fn test_identity_primary_key_and_vertex_type() {
    let i = wallet("0xd8da6bf26964af9d7eed9e03e53415d37aa96045", 0);
    assert_eq!(i.primary_key(), "ethereum,0xd8da6bf26964af9d7eed9e03e53415d37aa96045");
    assert_eq!(i.vertex_type(), "Identities");
    let mut ens = wallet("vitalik.eth", 0);
    ens.platform = Platform::ENS;
    assert_eq!(ens.primary_key(), "ENS,vitalik.eth");
}

#[test]
fn test_identity_is_outdated_after_one_hour() {
    let i = wallet("0xabc", 1_000_000);
    assert!(!i.is_outdated(1_000_000));
    assert!(!i.is_outdated(1_003_600));
    assert!(i.is_outdated(1_003_601));
    assert!(i.is_outdated(1_007_200));
    assert!(!i.is_outdated(0));
}

#[test]
fn test_identity_is_outdated_at_the_ends_of_the_range() {
    let old = wallet("0xabc", i64::MIN);
    assert!(old.is_outdated(i64::MAX));
    let young = wallet("0xabc", i64::MAX);
    assert!(!young.is_outdated(i64::MIN));
}

#[test]
fn test_identity_default_at() {
    let i = Identity::default_at(42);
    assert_eq!(i.platform, Platform::Twitter);
    assert_eq!(i.identity, "");
    assert_eq!(i.uuid(), None);
    assert_eq!(i.added_at, 42);
    assert_eq!(i.updated_at, 42);
    assert_eq!(i.display_name, None);
}

#[test]
fn test_identity_eq_goes_by_uuid() {
    let a = wallet("0xabc", 1);
    let mut b = wallet("0xdef", 2);
    assert!(a.eq(&b));
    b.uuid = Some(8);
    assert!(!a.eq(&b));
    b.uuid = None;
    assert!(!a.eq(&b));
    assert!(!b.eq(&b));
}

#[test]
fn test_to_attributes_map_of_a_full_identity() {
    let mut i = wallet("0xabc", 500);
    i.uid = Some("u1".to_string());
    i.profile_url = Some("https://p".to_string());
    i.avatar_url = Some("https://a".to_string());
    i.created_at = Some(50);
    let attrs = i.to_attributes_map().0;
    let fields: Vec<IdentityField> = attrs.iter().map(|a| a.field).collect();
    assert_eq!(
        fields,
        vec![
            IdentityField::Id,
            IdentityField::Uuid,
            IdentityField::Platform,
            IdentityField::Identity,
            IdentityField::Uid,
            IdentityField::DisplayName,
            IdentityField::ProfileUrl,
            IdentityField::AvatarUrl,
            IdentityField::CreatedAt,
            IdentityField::AddedAt,
            IdentityField::UpdatedAt,
        ]
    );
    let ops: Vec<Option<OpCode>> = attrs.iter().map(|a| a.op).collect();
    assert_eq!(
        ops,
        vec![
            Some(OpCode::IgnoreIfExists),
            Some(OpCode::IgnoreIfExists),
            Some(OpCode::IgnoreIfExists),
            Some(OpCode::IgnoreIfExists),
            None,
            None,
            None,
            None,
            Some(OpCode::IgnoreIfExists),
            Some(OpCode::IgnoreIfExists),
            Some(OpCode::Max),
        ]
    );
    assert!(matches!(&attrs[0].value, AttrValue::Text(t) if t == "ethereum,0xabc"));
    assert!(matches!(&attrs[1].value, AttrValue::Uuid(7)));
    assert!(matches!(&attrs[2].value, AttrValue::Text(t) if t == "ethereum"));
    assert!(matches!(&attrs[3].value, AttrValue::Text(t) if t == "0xabc"));
    assert!(matches!(&attrs[5].value, AttrValue::Text(t) if t == "vitalik.eth"));
    assert!(matches!(&attrs[8].value, AttrValue::Time(50)));
    assert!(matches!(&attrs[9].value, AttrValue::Time(100)));
    assert!(matches!(&attrs[10].value, AttrValue::Time(500)));
}

#[test]
fn test_to_attributes_map_leaves_out_what_is_absent() {
    let mut i = wallet("0xabc", 500);
    i.uuid = None;
    i.display_name = None;
    let attrs = i.to_attributes_map().0;
    let fields: Vec<IdentityField> = attrs.iter().map(|a| a.field).collect();
    assert_eq!(
        fields,
        vec![
            IdentityField::Id,
            IdentityField::Platform,
            IdentityField::Identity,
            IdentityField::AddedAt,
            IdentityField::UpdatedAt,
        ]
    );
}

#[test]
fn test_create_or_update_payload() {
    let i = wallet("0xabc", 500);
    let v = i.create_or_update();
    assert_eq!(v.v_type, "Identities");
    assert_eq!(v.v_id, "ethereum,0xabc");
    assert_eq!(v.attributes.0.len(), 7);
}

#[test]
fn test_upserted_combines_attribute_by_attribute() {
    let mut stored = wallet("0xabc", 500);
    stored.created_at = Some(5);
    stored.avatar_url = Some("old-avatar".to_string());
    stored.reverse = Some(true);
    let mut incoming = wallet("0xabc", 400);
    incoming.uuid = Some(99);
    incoming.created_at = Some(6);
    incoming.display_name = Some("new-name".to_string());
    incoming.avatar_url = None;
    incoming.added_at = 777;
    let merged = stored.upserted(&incoming);
    assert_eq!(merged.uuid, Some(7));
    assert_eq!(merged.platform, Platform::Ethereum);
    assert_eq!(merged.identity, "0xabc");
    assert_eq!(merged.created_at, Some(5));
    assert_eq!(merged.display_name, Some("new-name".to_string()));
    assert_eq!(merged.avatar_url, Some("old-avatar".to_string()));
    assert_eq!(merged.added_at, 100);
    assert_eq!(merged.updated_at, 500);
    assert_eq!(merged.reverse, Some(true));
    let mut later = wallet("0xabc", 900);
    later.display_name = None;
    let merged = merged.upserted(&later);
    assert_eq!(merged.updated_at, 900);
    assert_eq!(merged.display_name, Some("new-name".to_string()));
}

#[test]
fn test_record_status_flags() {
    let fresh = record(wallet("0xabc", 1000));
    assert_eq!(fresh.status(1000), vec![DataStatus::Cached]);
    assert_eq!(fresh.status(4600), vec![DataStatus::Cached]);
    assert_eq!(fresh.status(4601), vec![DataStatus::Cached, DataStatus::Outdated]);
    let unsaved =
        IdentityRecord::from_with_params("Identities".to_string(), String::new(), wallet("0xabc", 0));
    assert_eq!(unsaved.status(999_999), vec![DataStatus::Fetching]);
}

#[test]
fn test_record_projections_depend_on_platform() {
    let mut eth = wallet("0xabc", 0);
    eth.reverse = Some(true);
    eth.expired_at = Some(9);
    let eth = record(eth);
    assert_eq!(eth.reverse(), Some(true));
    assert_eq!(eth.expired_at(), None);
    assert_eq!(eth.v_id(), "ethereum,0xabc");
    assert_eq!(eth.v_type(), "Identities");
    let mut tw = wallet("vitalik", 0);
    tw.platform = Platform::Twitter;
    tw.reverse = Some(true);
    tw.expired_at = Some(9);
    let tw = record(tw);
    assert_eq!(tw.reverse(), None);
    assert_eq!(tw.expired_at(), None);
    let mut ens = wallet("vitalik.eth", 0);
    ens.platform = Platform::ENS;
    ens.reverse = Some(false);
    ens.expired_at = Some(9);
    let ens = record(ens);
    assert_eq!(ens.reverse(), Some(false));
    assert_eq!(ens.expired_at(), Some(9));
}

#[test]
fn test_owned_by_only_for_ownable_domains() {
    let owner = record(wallet("0xowner", 0));
    let mut lens = wallet("stani.lens", 0);
    lens.platform = Platform::Lens;
    let lens = record(lens);
    let got = lens.owned_by(Loaded::Found(Some(owner.duplicate()))).expect("loaded");
    assert_eq!(got.map(|r| r.v_id), Some("ethereum,0xowner".to_string()));
    assert!(lens.owned_by(Loaded::Found(None)).expect("loaded").is_none());
    assert!(lens.owned_by(Loaded::NotFound).expect("not found is no error").is_none());
    match lens.owned_by(Loaded::Failed("loader closed".to_string())) {
        Err(Error::GraphQLError(text)) => assert_eq!(text, "loader closed"),
        other => panic!("expected an error of the query layer, got {:?}", other),
    }
    let eth = record(wallet("0xabc", 0));
    assert!(eth.owned_by(Loaded::Found(Some(owner))).expect("no owner").is_none());
    assert!(eth.owned_by(Loaded::Failed("loader closed".to_string())).expect("no owner").is_none());
}

#[test]
fn test_upsert_field_and_operator_names() {
    let names: Vec<&str> = [
        IdentityField::Id,
        IdentityField::Uuid,
        IdentityField::Platform,
        IdentityField::Identity,
        IdentityField::Uid,
        IdentityField::DisplayName,
        IdentityField::ProfileUrl,
        IdentityField::AvatarUrl,
        IdentityField::CreatedAt,
        IdentityField::AddedAt,
        IdentityField::UpdatedAt,
    ]
    .iter()
    .map(|f| f.name())
    .collect();
    assert_eq!(
        names,
        vec![
            "id",
            "uuid",
            "platform",
            "identity",
            "uid",
            "display_name",
            "profile_url",
            "avatar_url",
            "created_at",
            "added_at",
            "updated_at",
        ]
    );
    assert_eq!(OpCode::IgnoreIfExists.name(), "ignore_if_exists");
    assert_eq!(OpCode::Max.name(), "max");
}

#[test]
fn test_refetch_changes_only_what_may_change() {
    let mut stored = wallet("0xabc", 500);
    stored.created_at = Some(5);
    stored.expired_at = Some(9);
    let mut incoming = wallet("0xabc", 900);
    incoming.uuid = Some(1234);
    incoming.created_at = Some(6);
    incoming.added_at = 899;
    incoming.expired_at = None;
    incoming.reverse = Some(false);
    let merged = stored.upserted(&incoming);
    assert_eq!(merged.uuid, stored.uuid);
    assert_eq!(merged.created_at, stored.created_at);
    assert_eq!(merged.added_at, stored.added_at);
    assert_eq!(merged.expired_at, stored.expired_at);
    assert_eq!(merged.reverse, stored.reverse);
    assert_eq!(merged.updated_at, 900);
}

#[test]
fn test_name_systems_are_read_letter_for_letter() {
    assert_eq!(DomainNameSystem::from_text("ENS"), Some(DomainNameSystem::ENS));
    assert_eq!(DomainNameSystem::from_text("ens"), None);
    assert_eq!(DomainNameSystem::from_text("space_id"), Some(DomainNameSystem::SpaceId));
}

#[test]
fn test_find_by_domain_platform_name_without_an_owner_finds_nothing() {
    assert!(Resolve::find_by_domain_platform_name(vec![], vec![hold_edge(None)]).is_none());
}

fn resolve(updated_at: i64) -> Resolve {
    Resolve {
        uuid: 3,
        source: DataSource::TheGraph,
        system: DomainNameSystem::ENS,
        name: "vitalik.eth".to_string(),
        fetcher: DataFetcher::RelationService,
        updated_at,
    }
}

fn hold_edge(owner: Option<IdentityRecord>) -> HoldEdge {
    HoldEdge {
        record: HoldRecord {
            from_id: "a".to_string(),
            to_id: "b".to_string(),
            attributes: Hold {
                uuid: 11,
                source: DataSource::Knn3,
                id: "zzfzz.eth".to_string(),
                transaction: None,
                created_at: None,
                updated_at: 77,
                fetcher: DataFetcher::AggregationService,
                expired_at: None,
            },
        },
        owner,
    }
}

#[test]
fn test_resolve_is_outdated_after_one_day() {
    let r = resolve(1_000_000);
    assert!(!r.is_outdated(1_000_000));
    assert!(!r.is_outdated(1_086_400));
    assert!(r.is_outdated(1_086_401));
    assert_eq!(r.uuid(), Some(3));
}

#[test]
fn test_resolve_default_at() {
    let r = Resolve::default_at(5);
    assert_eq!(r.system, DomainNameSystem::Unknown);
    assert_eq!(r.source, DataSource::Unknown);
    assert_eq!(r.name, "");
    assert_eq!(r.updated_at, 5);
}

#[test]
fn test_find_by_ens_name_prefers_the_resolve_edge() {
    let edge = ResolveEdge { record: resolve(1), resolved: None, owner: None };
    let second = ResolveEdge { record: resolve(2), resolved: None, owner: None };
    let got = Resolve::find_by_ens_name("vitalik.eth", vec![edge, second], vec![hold_edge(None)]);
    assert_eq!(got.map(|e| e.record.updated_at), Some(1));
}

#[test]
fn test_find_by_ens_name_falls_back_to_the_hold_edge() {
    let owner = record(wallet("0xowner", 0));
    let got = Resolve::find_by_ens_name("zzfzz.eth", vec![], vec![hold_edge(Some(owner))])
        .expect("a resolve from the hold edge");
    assert_eq!(got.record.uuid, 11);
    assert_eq!(got.record.source, DataSource::Knn3);
    assert_eq!(got.record.system, DomainNameSystem::ENS);
    assert_eq!(got.record.name, "zzfzz.eth");
    assert_eq!(got.record.fetcher, DataFetcher::AggregationService);
    assert_eq!(got.record.updated_at, 77);
    assert!(got.resolved.is_none());
    assert_eq!(got.owner.map(|o| o.v_id), Some("ethereum,0xowner".to_string()));
    assert!(Resolve::find_by_ens_name("zzfzz.eth", vec![], vec![]).is_none());
}

#[test]
fn test_find_by_domain_platform_name_names_the_edge_after_the_owner() {
    let mut bit = wallet("thefuzezhong.bit", 0);
    bit.platform = Platform::Dotbit;
    let got = Resolve::find_by_domain_platform_name(vec![], vec![hold_edge(Some(record(bit)))])
        .expect("a resolve from the hold edge");
    assert_eq!(got.record.system, DomainNameSystem::DotBit);
    assert_eq!(got.record.name, "thefuzezhong.bit");
    assert_eq!(got.record.uuid, 11);
    assert!(got.resolved.is_none());
    assert!(got.owner.is_some());
    assert!(Resolve::find_by_domain_platform_name(vec![], vec![]).is_none());
    let edge = ResolveEdge { record: resolve(5), resolved: None, owner: None };
    let got = Resolve::find_by_domain_platform_name(vec![edge], vec![]);
    assert_eq!(got.map(|e| e.record.updated_at), Some(5));
}

#[test]
fn test_resolve_connect_keeps_an_existing_edge() {
    let existing = ResolveRecord {
        from_id: "f".to_string(),
        to_id: "t".to_string(),
        attributes: resolve(1),
    };
    let (kept, created) = resolve(2).connect(vec![existing], "x".to_string(), "y".to_string());
    assert!(!created);
    assert_eq!(kept.from_id, "f");
    assert_eq!(kept.attributes.updated_at, 1);
    let (made, created) = resolve(2).connect(vec![], "x".to_string(), "y".to_string());
    assert!(created);
    assert_eq!(made.from_id, "x");
    assert_eq!(made.to_id, "y");
    assert_eq!(made.attributes.updated_at, 2);
}

#[test]
fn test_resolve_lookups_take_the_first() {
    let a = ResolveRecord { from_id: "1".to_string(), to_id: "t".to_string(), attributes: resolve(1) };
    let b = ResolveRecord { from_id: "2".to_string(), to_id: "t".to_string(), attributes: resolve(2) };
    assert_eq!(Resolve::find_by_name_system(vec![a, b]).map(|r| r.from_id), Some("1".to_string()));
    assert!(Resolve::find_by_uuid(vec![]).is_none());
    let edge = resolve(9).into_edge();
    assert!(edge.resolved.is_none() && edge.owner.is_none());
    assert_eq!(edge.record.updated_at, 9);
}

#[test]
fn test_error_message() {
    assert_eq!(Error::General("boom".to_string(), 500).message(), "boom");
    assert_eq!(Error::ParamMissing("name".to_string()).message(), "Param missing: name");
    assert_eq!(Error::ParamError("uuid".to_string()).message(), "Param error: uuid");
    assert_eq!(Error::BodyMissing.message(), "no body provided");
    assert_eq!(Error::NoResult.message(), "No result");
    assert_eq!(Error::ParseError("eof".to_string()).message(), "JSON parse error: eof");
    assert_eq!(Error::ArangoDBError("down".to_string()).message(), "Database error: down");
    assert_eq!(Error::PoolError("full".to_string()).message(), "Pool error: full");
    assert_eq!(Error::GraphQLError("x".to_string()).message(), "GraphQL error: x");
}

fn shown(list: &[NamedAttribute]) -> Vec<(String, String, Option<OpCode>)> {
    list.iter()
        .map(|a| {
            let value = match &a.value {
                AttrValue::Text(t) => t.clone(),
                AttrValue::Uuid(u) => format!("uuid {}", u),
                AttrValue::Time(t) => format!("time {}", t),
            };
            (a.name.clone(), value, a.op)
        })
        .collect()
}

fn row(name: &str, value: &str, op: Option<OpCode>) -> (String, String, Option<OpCode>) {
    (name.to_string(), value.to_string(), op)
}

#[test]
fn test_contract_upsert_attributes() {
    let once = Some(OpCode::IgnoreIfExists);
    let mut c = Contract {
        uuid: 4,
        category: ContractCategory::ENS,
        address: "0x57f1".to_string(),
        chain: Chain::Ethereum,
        symbol: None,
        updated_at: 9,
    };
    assert_eq!(
        shown(&c.to_attributes()),
        vec![
            row("id", "ethereum,0x57f1", once),
            row("uuid", "uuid 4", once),
            row("category", "ENS", once),
            row("chain", "ethereum", once),
            row("address", "0x57f1", once),
            row("updated_at", "time 9", Some(OpCode::Max)),
        ]
    );
    c.symbol = Some("ENS".to_string());
    let with_symbol = shown(&c.to_attributes());
    assert_eq!(with_symbol.len(), 7);
    assert_eq!(with_symbol[5], row("symbol", "ENS", None));
}

#[test]
fn test_hold_upsert_attributes() {
    let once = Some(OpCode::IgnoreIfExists);
    let mut h = hold_edge(None).record.attributes;
    assert_eq!(
        shown(&h.to_attributes()),
        vec![
            row("uuid", "uuid 11", once),
            row("source", "knn3", once),
            row("id", "zzfzz.eth", once),
            row("updated_at", "time 77", Some(OpCode::Max)),
            row("fetcher", "aggregation_service", None),
        ]
    );
    h.transaction = Some("0xtx".to_string());
    h.created_at = Some(3);
    h.expired_at = Some(99);
    assert_eq!(
        shown(&h.to_attributes()),
        vec![
            row("uuid", "uuid 11", once),
            row("source", "knn3", once),
            row("id", "zzfzz.eth", once),
            row("transaction", "0xtx", None),
            row("created_at", "time 3", once),
            row("updated_at", "time 77", Some(OpCode::Max)),
            row("fetcher", "aggregation_service", None),
            row("expired_at", "time 99", None),
        ]
    );
}

#[test]
fn test_temp_records_become_stored_records() {
    let t = TempIdentity {
        uuid: 21,
        platform: Platform::Twitter,
        identity: "vitalik".to_string(),
        created_at: Some(5),
        display_name: Some("Vitalik".to_string()),
    };
    let i = t.to_identity(1000);
    assert_eq!(i.uuid, Some(21));
    assert_eq!(i.platform, Platform::Twitter);
    assert_eq!(i.identity, "vitalik");
    assert_eq!(i.display_name, Some("Vitalik".to_string()));
    assert_eq!(i.created_at, Some(5));
    assert_eq!(i.added_at, 1000);
    assert_eq!(i.updated_at, 1000);
    assert_eq!(i.uid, None);
    assert_eq!(i.reverse, None);
    assert_eq!(i.expired_at, None);
    let p = TempProof {
        uuid: 22,
        method: DataSource::SybilList,
        upstream: None,
        record_id: Some("r".to_string()),
        created_at: Some(6),
        last_verified_at: 7,
    }
    .to_proof();
    let once = Some(OpCode::IgnoreIfExists);
    assert_eq!(
        shown(&p.to_attributes()),
        vec![
            row("uuid", "uuid 22", once),
            row("source", "SybilList", once),
            row("record_id", "r", None),
            row("created_at", "time 6", once),
            row("updated_at", "time 7", Some(OpCode::Max)),
            row("fetcher", "relation_service", None),
        ]
    );
}
