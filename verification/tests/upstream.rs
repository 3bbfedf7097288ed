use relation_service::error::Error;
use relation_service::upstream::rss3::{
    ErrorResponse as Rss3ErrorResponse, Item, MetaData, Rss3, Rss3Response,
};
use relation_service::upstream::sybil_list::{
    ErrorResponse as SybilErrorResponse, SybilList, SybilListItem, TwitterItem, VerfiedItem,
};
use relation_service::upstream::target::Target;
use relation_service::upstream::the_graph::{
    Domain, EthQueryResponse, EthQueryResponseDomains, EthQueryResponseTransfers, ResolvedAddress,
    TheGraph,
};
use relation_service::upstream::{
    Chain, ContractCategory, DataFetcher, DataSource, Platform,
};

const REGISTRAR: &str = "0x57f1887a8bf19b14fc0df6fd9b2acc9af147ea85";

fn item(to: &str, collection: &str, created: &str, updated: &str) -> Item {
    Item {
        date_created: created.to_string(),
        date_updated: updated.to_string(),
        related_urls: vec![],
        title: String::new(),
        source: "Ethereum NFT".to_string(),
        metadata: MetaData {
            collection_address: collection.to_string(),
            collection_name: String::new(),
            contract_type: String::new(),
            from: "0x0".to_string(),
            log_index: String::new(),
            network: "polygon".to_string(),
            proof: format!("{}-proof", collection),
            to: to.to_string(),
            token_id: "1".to_string(),
            token_standard: "ERC-721".to_string(),
            token_symbol: "T".to_string(),
        },
    }
}

fn notes(total: i64, list: Vec<Item>) -> Rss3Response {
    Rss3Response {
        version: "v0.4.0".to_string(),
        date_updated: String::new(),
        identifier: String::new(),
        total,
        list,
    }
}

fn rss3() -> Rss3 {
    Rss3 {
        network: "ethereum".to_string(),
        account: "0x6875e13A6301040388F61f5DBa5045E1bE01c657".to_string(),
        tags: "NFT".to_string(),
    }
}

#[test]
fn test_rss3_request_text() {
    assert_eq!(
        rss3().request().expect("a uri"),
        "https://pregod.rss3.dev/v0.4.0/account:0x6875e13A6301040388F61f5DBa5045E1bE01c657@ethereum/notes?tags=NFT"
    );
}

#[test]
fn test_rss3_keeps_what_the_account_received() {
    let mine = "0x6875e13a6301040388f61f5dba5045e1be01c657";
    let response = notes(
        3,
        vec![
            item(mine, "0x8f9772d0ed34bd0293098a439912f0f6d6e78e3f", "2022-01-01T00:00:00Z", "2022-01-02T00:00:00+00:00"),
            item("0xsomeoneelse", "0xother", "2022-01-01T00:00:00Z", "2022-01-01T00:00:00Z"),
            item(mine, "0xthird", "1970-01-01T01:00:00+01:00", "1970-01-01T00:00:10Z"),
        ],
    );
    let got = rss3().connections(200, &response).expect("connections");
    assert_eq!(got.len(), 2);
    assert_eq!(got[0].from.platform, Platform::Ethereum);
    assert_eq!(got[0].from.identity, mine);
    assert_eq!(got[0].from.display_name, Some(mine.to_string()));
    assert_eq!(got[0].from.created_at, None);
    assert_eq!(got[0].to.identity, "0x8f9772d0ed34bd0293098a439912f0f6d6e78e3f");
    assert_eq!(got[0].to.created_at, Some(1_640_995_200));
    assert_eq!(got[0].proof.method, DataSource::Rss3);
    assert_eq!(
        got[0].proof.record_id,
        Some("0x8f9772d0ed34bd0293098a439912f0f6d6e78e3f-proof".to_string())
    );
    assert_eq!(got[0].proof.created_at, Some(1_640_995_200));
    assert_eq!(got[0].proof.last_verified_at, 1_641_081_600);
    assert_eq!(got[0].proof.upstream, None);
    assert_eq!(got[1].to.identity, "0xthird");
    assert_eq!(got[1].to.created_at, Some(0));
    assert_eq!(got[1].proof.last_verified_at, 10);
}

#[test]
fn test_rss3_without_notes_is_an_error() {
    match rss3().connections(204, &notes(0, vec![])) {
        Err(Error::General(text, 204)) => assert_eq!(text, "rss3 Result Get Error"),
        other => panic!("expected a general error, got {:?}", other),
    }
}

#[test]
fn test_rss3_with_an_unreadable_date_is_a_parse_error() {
    let mine = "0x6875e13a6301040388f61f5dba5045e1be01c657";
    let response = notes(1, vec![item(mine, "0xc", "yesterday", "2022-01-01T00:00:00Z")]);
    assert!(matches!(rss3().connections(200, &response), Err(Error::ParseError(_))));
    let response = notes(1, vec![item(mine, "0xc", "2022-01-01T00:00:00Z", "2022-13-01T00:00:00Z")]);
    assert!(matches!(rss3().connections(200, &response), Err(Error::ParseError(_))));
    let ignored = notes(1, vec![item("0xother", "0xc", "yesterday", "never")]);
    assert!(rss3().connections(200, &ignored).expect("nothing kept").is_empty());
    assert!(Rss3::save_item(&item(mine, "0xc", "yesterday", "never")).is_none());
}

#[test]
fn test_sybil_list_connections() {
    let items = vec![
        SybilListItem {
            twitter_name: "VitalikButerin".to_string(),
            eth_addr: "0xd8dA6BF26964aF9D7eEd9e03E53415D37aA96045".to_string(),
            timestamp: 1_610_000_000,
        },
        VerfiedItem {
            twitter: TwitterItem {
                timestamp: 5,
                tweet_id: "1".to_string(),
                handle: "someone".to_string(),
            },
        }
        .into_item("0x2".to_string()),
    ];
    let got = SybilList::connections(&items, 1_700_000_000);
    assert_eq!(got.len(), 2);
    assert_eq!(got[0].from.platform, Platform::Ethereum);
    assert_eq!(got[0].from.identity, "0xd8dA6BF26964aF9D7eEd9e03E53415D37aA96045");
    assert_eq!(got[0].from.created_at, Some(1_610_000_000));
    assert_eq!(got[0].to.platform, Platform::Twitter);
    assert_eq!(got[0].to.identity, "VitalikButerin");
    assert_eq!(got[0].to.display_name, Some("VitalikButerin".to_string()));
    assert_eq!(got[0].proof.method, DataSource::SybilList);
    assert_eq!(got[0].proof.upstream, Some(" ".to_string()));
    assert_eq!(got[0].proof.record_id, Some(" ".to_string()));
    assert_eq!(got[0].proof.created_at, Some(1_700_000_000));
    assert_eq!(got[0].proof.last_verified_at, 1_700_000_000);
    assert_eq!(got[1].from.identity, "0x2");
    assert_eq!(got[1].to.identity, "someone");
    assert_eq!(got[1].to.created_at, Some(5));
    assert!(SybilList::connections(&vec![], 0).is_empty());
}

#[test]
fn test_fresh_identifiers_are_version_four_and_differ() {
    let items = vec![SybilListItem {
        twitter_name: "a".to_string(),
        eth_addr: "0x1".to_string(),
        timestamp: 0,
    }];
    let got = SybilList::connections(&items, 0);
    let ids = [got[0].from.uuid, got[0].to.uuid, got[0].proof.uuid];
    for id in ids {
        assert_eq!((id >> 76) & 0xF, 4);
        assert_eq!((id >> 62) & 0x3, 2);
    }
    assert_ne!(ids[0], ids[1]);
    assert_ne!(ids[1], ids[2]);
}

fn domain(name: &str, resolved: Option<&str>) -> EthQueryResponseDomains {
    EthQueryResponseDomains {
        id: "id".to_string(),
        name: name.to_string(),
        label_name: String::new(),
        labelhash: String::new(),
        resolved_address: resolved.map(|id| ResolvedAddress { id: id.to_string() }),
    }
}

#[test]
fn test_the_graph_query_variables() {
    assert_eq!(TheGraph::owner_vars("0xAbC").addr, "0xabc");
    assert_eq!(TheGraph::name_vars("Vitalik.eth").ens, "Vitalik.eth");
}

#[test]
fn test_ens_names_of_a_wallet() {
    let response = EthQueryResponse {
        domains: vec![
            domain("vitalik.eth", Some("0xD8DA")),
            domain("unresolved.eth", None),
            domain("elsewhere.eth", Some("0xffff")),
            domain("second.eth", Some("0xD8DA")),
        ],
        transfers: None,
    };
    let (holdings, targets) = TheGraph::fetch_ens_by_eth_wallet("0xD8DA", &response, 77);
    assert_eq!(holdings.len(), 2);
    assert_eq!(targets.len(), 2);
    let names: Vec<&str> = holdings.iter().map(|h| h.hold.id.as_str()).collect();
    assert_eq!(names, vec!["vitalik.eth", "second.eth"]);
    let h = &holdings[0];
    assert_eq!(h.from.platform, Platform::Ethereum);
    assert_eq!(h.from.identity, "0xd8da");
    assert_eq!(h.from.display_name, Some("0xd8da".to_string()));
    assert!(h.from.uuid.is_some());
    assert_eq!(h.from.added_at, 77);
    assert_eq!(h.from.updated_at, 77);
    assert_eq!(h.from.reverse, None);
    assert_eq!(h.from.expired_at, None);
    assert_eq!(h.hold.expired_at, None);
    assert_eq!(h.to.category, ContractCategory::ENS);
    assert_eq!(h.to.chain, Chain::Ethereum);
    assert_eq!(h.to.address, REGISTRAR);
    assert_eq!(h.to.updated_at, 77);
    assert_eq!(h.hold.source, DataSource::TheGraph);
    assert_eq!(h.hold.fetcher, DataFetcher::RelationService);
    assert_eq!(h.hold.transaction, None);
    assert_eq!(h.hold.updated_at, 77);
    assert!(targets[0].same(&Target::NFT(
        Chain::Ethereum,
        ContractCategory::ENS,
        REGISTRAR.to_string(),
        "vitalik.eth".to_string()
    )));
    assert!(targets[1].same(&Target::NFT(
        Chain::Ethereum,
        ContractCategory::ENS,
        REGISTRAR.to_string(),
        "second.eth".to_string()
    )));
    let empty = EthQueryResponse { domains: vec![], transfers: None };
    let (holdings, targets) = TheGraph::fetch_ens_by_eth_wallet("0xD8DA", &empty, 77);
    assert!(holdings.is_empty() && targets.is_empty());
}

#[test]
fn test_wallet_of_an_ens_name() {
    let response = EthQueryResponse {
        domains: vec![domain("vitalik.eth", Some("0xd8da")), domain("vitalik.eth", Some("0x2"))],
        transfers: Some(vec![
            EthQueryResponseTransfers {
                domain: Domain { name: "vitalik.eth".to_string() },
                transaction_id: "0xtx1".to_string(),
            },
            EthQueryResponseTransfers {
                domain: Domain { name: "vitalik.eth".to_string() },
                transaction_id: "0xtx2".to_string(),
            },
        ]),
    };
    let (h, target) =
        TheGraph::fetch_eth_wallet_by_ens("vitalik.eth", &response, 5).expect("a holding");
    assert_eq!(h.from.identity, "0xd8da");
    assert_eq!(h.hold.id, "vitalik.eth");
    assert_eq!(h.hold.transaction, Some("0xtx1".to_string()));
    assert_eq!(h.to.address, REGISTRAR);
    assert!(target.same(&Target::Identity(Platform::Ethereum, "0xd8da".to_string())));
    let no_transfers = EthQueryResponse {
        domains: vec![domain("vitalik.eth", Some("0xd8da"))],
        transfers: Some(vec![]),
    };
    let (h, _) =
        TheGraph::fetch_eth_wallet_by_ens("vitalik.eth", &no_transfers, 5).expect("a holding");
    assert_eq!(h.hold.transaction, None);
    let nothing = EthQueryResponse { domains: vec![], transfers: None };
    assert!(TheGraph::fetch_eth_wallet_by_ens("vitalik.eth", &nothing, 5).is_none());
    let unresolved =
        EthQueryResponse { domains: vec![domain("vitalik.eth", None)], transfers: None };
    assert!(TheGraph::fetch_eth_wallet_by_ens("vitalik.eth", &unresolved, 5).is_none());
}

#[test]
fn test_refused_requests_become_general_errors() {
    let body = Rss3ErrorResponse { message: "rate limited".to_string() };
    match Rss3::refused(429, &body) {
        Error::General(text, 429) => assert_eq!(text, "Rss3 Result Get Error: rate limited"),
        other => panic!("expected a general error, got {:?}", other),
    }
    let body = SybilErrorResponse { message: "gone".to_string() };
    match SybilList::refused(410, &body) {
        Error::General(text, 410) => assert_eq!(text, "SybilList Get error: gone"),
        other => panic!("expected a general error, got {:?}", other),
    }
}

#[test]
fn test_rss3_request_for_an_account_that_is_no_uri_part() {
    let adapter = Rss3 {
        network: "ethereum".to_string(),
        account: "two words".to_string(),
        tags: "NFT".to_string(),
    };
    match adapter.request() {
        Err(Error::ParamError(text)) => assert!(text.starts_with("Uri format Error: "), "{}", text),
        other => panic!("expected a parameter error, got {:?}", other),
    }
}
