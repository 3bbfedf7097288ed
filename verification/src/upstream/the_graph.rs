//! ENS names and the wallets behind them, from The Graph.

use crate::graph::Contract;
use crate::outside::fresh_uuid;
use crate::text::{lowercase_of, to_lowercase};
use crate::tigergraph::edge::Hold;
use crate::store::rows::{lemma_fresh_after_upsert, position, upsert_rows};
use crate::tigergraph::identity::{Identity, IdentityView};
use crate::upstream::target::{Target, TargetKey, Upstream};
use crate::upstream::{Chain, ContractCategory, DataFetcher, DataSource, Platform};
use vstd::prelude::*;
use vstd::string::*;

verus! {

/// The address that a name resolves to.
#[derive(Debug)]
pub struct ResolvedAddress {
    pub id: String,
}

/// One domain of a response.
#[derive(Debug)]
pub struct EthQueryResponseDomains {
    pub id: String,
    pub name: String,
    pub label_name: String,
    pub labelhash: String,
    pub resolved_address: Option<ResolvedAddress>,
}

/// The domain of a transfer.
#[derive(Debug)]
pub struct Domain {
    pub name: String,
}

/// One transfer of a response.
#[derive(Debug)]
pub struct EthQueryResponseTransfers {
    pub domain: Domain,
    pub transaction_id: String,
}

/// The response to either query.
#[derive(Debug)]
pub struct EthQueryResponse {
    pub domains: Vec<EthQueryResponseDomains>,
    pub transfers: Option<Vec<EthQueryResponseTransfers>>,
}

/// The variables of the query by owner.
#[derive(Debug)]
pub struct EthQueryVars {
    pub addr: String,
}

/// The variables of the query by name.
#[derive(Debug)]
pub struct ENSQueryVars {
    pub ens: String,
}

/// The adapter of The Graph.
#[derive(Clone, Copy, Debug, Default)]
pub struct TheGraph {}

/// A wallet, the ENS registrar, and the name that the wallet holds there.
#[derive(Debug)]
pub struct Holding {
    pub from: Identity,
    pub to: Contract,
    pub hold: Hold,
}

/// Whether a holding says, as seen at `now`, that the wallet holds the name
/// at the ENS registrar, by the given transaction.
pub open spec fn is_holding_of(
    h: Holding,
    wallet: Seq<char>,
    name: Seq<char>,
    transaction: Option<Seq<char>>,
    now: i64,
) -> bool {
    &&& h.from@.uuid is Some
    &&& h.from@.platform == Platform::Ethereum
    &&& h.from@.identity == wallet
    &&& h.from@.display_name == Some(wallet)
    &&& h.from@.uid is None
    &&& h.from@.profile_url is None
    &&& h.from@.avatar_url is None
    &&& h.from@.created_at is None
    &&& h.from@.added_at == now
    &&& h.from@.updated_at == now
    &&& h.from@.expired_at is None
    &&& h.from@.reverse is None
    &&& h.to.category == ContractCategory::ENS
    &&& Some(h.to.address@) == ContractCategory::ENS.spec_default_contract_address()
    &&& h.to.chain == Chain::Ethereum
    &&& h.to.symbol is None
    &&& h.to.updated_at == now
    &&& h.hold.id@ == name
    &&& crate::tigergraph::identity::opt_text(h.hold.transaction) == transaction
    &&& h.hold.source == DataSource::TheGraph
    &&& h.hold.created_at is None
    &&& h.hold.updated_at == now
    &&& h.hold.expired_at is None
    &&& h.hold.fetcher == DataFetcher::RelationService
}

/// Whether a domain resolves to the wallet.
pub open spec fn resolves_to(domain: EthQueryResponseDomains, wallet: Seq<char>) -> bool {
    domain.resolved_address is Some && domain.resolved_address->0.id@ == wallet
}

/// The target of an ENS name.
pub open spec fn name_target(name: Seq<char>) -> TargetKey {
    TargetKey::NFT(
        Chain::Ethereum,
        ContractCategory::ENS,
        ContractCategory::ENS.spec_default_contract_address()->0,
        name,
    )
}

fn registrar_address() -> (a: String)
    ensures
        Some(a@) == ContractCategory::ENS.spec_default_contract_address(),
{
    match ContractCategory::ENS.default_contract_address() {
        Some(a) => a,
        None => String::new(),
    }
}

fn holding(wallet: String, name: &str, transaction: Option<String>, now: i64) -> (h: Holding)
    ensures
        is_holding_of(h, wallet@, name@, crate::tigergraph::identity::opt_text(transaction), now),
{
    let from = Identity {
        uuid: Some(fresh_uuid()),
        platform: Platform::Ethereum,
        identity: wallet.clone(),
        uid: None,
        display_name: Some(wallet),
        profile_url: None,
        avatar_url: None,
        created_at: None,
        added_at: now,
        updated_at: now,
        expired_at: None,
        reverse: None,
    };
    let to = Contract {
        uuid: fresh_uuid(),
        category: ContractCategory::ENS,
        address: registrar_address(),
        chain: Chain::Ethereum,
        symbol: None,
        updated_at: now,
    };
    let hold = Hold {
        uuid: fresh_uuid(),
        source: DataSource::TheGraph,
        id: name.to_owned(),
        transaction,
        created_at: None,
        updated_at: now,
        fetcher: DataFetcher::RelationService,
        expired_at: None,
    };
    Holding { from, to, hold }
}

impl TheGraph {
    /// Whether the adapter takes the target: a wallet on Ethereum, or an ENS
    /// name on Ethereum.
    pub fn can_fetch(target: &Target) -> (r: bool)
        ensures
            r == Upstream::TheGraph.spec_can_fetch(target@),
    {
        Upstream::TheGraph.can_fetch(target)
    }

    /// The variables of the query by owner: the wallet in lower case.
    pub fn owner_vars(identity: &str) -> (vars: EthQueryVars)
        ensures
            vars.addr@ == lowercase_of(identity@),
    {
        EthQueryVars { addr: to_lowercase(identity) }
    }

    /// The variables of the query by name.
    pub fn name_vars(ens: &str) -> (vars: ENSQueryVars)
        ensures
            vars.ens@ == ens@,
    {
        ENSQueryVars { ens: ens.to_owned() }
    }

    /// What the names of a wallet give, seen at `now`: for every domain of
    /// the response that resolves to the wallet, in order, a holding of the
    /// name by the wallet in lower case, and the name as a follow-up target.
    pub fn fetch_ens_by_eth_wallet(identity: &str, response: &EthQueryResponse, now: i64) -> (r: (
        Vec<Holding>,
        Vec<Target>,
    ))
        ensures
            ({
                let kept = response.domains@.filter(
                    |d: EthQueryResponseDomains| resolves_to(d, identity@),
                );
                &&& r.0@.len() == kept.len()
                &&& r.1@.len() == kept.len()
                &&& forall|i: int|
                    0 <= i < kept.len() ==> is_holding_of(
                        #[trigger] r.0@[i],
                        lowercase_of(identity@),
                        kept[i].name@,
                        None,
                        now,
                    )
                &&& forall|i: int|
                    0 <= i < kept.len() ==> (#[trigger] r.1@[i])@ == name_target(kept[i].name@)
            }),
    {
        let wanted = identity.to_owned();
        let ghost keep = |d: EthQueryResponseDomains| resolves_to(d, identity@);
        let mut holdings: Vec<Holding> = Vec::new();
        let mut targets: Vec<Target> = Vec::new();
        let mut i: usize = 0;
        assert(response.domains@.take(0).filter(keep).len() == 0) by {
            reveal(Seq::filter);
        }
        while i < response.domains.len()
            invariant
                i <= response.domains.len(),
                wanted@ == identity@,
                keep == |d: EthQueryResponseDomains| resolves_to(d, identity@),
                holdings@.len() == response.domains@.take(i as int).filter(keep).len(),
                targets@.len() == holdings@.len(),
                forall|j: int|
                    0 <= j < holdings@.len() ==> is_holding_of(
                        #[trigger] holdings@[j],
                        lowercase_of(identity@),
                        response.domains@.take(i as int).filter(keep)[j].name@,
                        None,
                        now,
                    ),
                forall|j: int|
                    0 <= j < targets@.len() ==> (#[trigger] targets@[j])@ == name_target(
                        response.domains@.take(i as int).filter(keep)[j].name@,
                    ),
            decreases response.domains.len() - i,
        {
            let ghost before = response.domains@.take(i as int).filter(keep);
            let ghost after = response.domains@.take(i + 1).filter(keep);
            proof {
                reveal(Seq::filter);
                assert(response.domains@.take(i + 1).drop_last() =~= response.domains@.take(
                    i as int,
                ));
                assert(response.domains@.take(i + 1).last() == response.domains@[i as int]);
            }
            let domain = &response.domains[i];
            let resolves = match &domain.resolved_address {
                Some(address) => address.id == wanted,
                None => false,
            };
            if resolves {
                assert(after == before.push(response.domains@[i as int]));
                holdings.push(holding(to_lowercase(identity), domain.name.as_str(), None, now));
                targets.push(
                    Target::NFT(
                        Chain::Ethereum,
                        ContractCategory::ENS,
                        registrar_address(),
                        domain.name.clone(),
                    ),
                );
            } else {
                assert(after == before);
            }
            i += 1;
        }
        assert(response.domains@.take(response.domains@.len() as int) =~= response.domains@);
        (holdings, targets)
    }

    /// What an ENS name gives, seen at `now`: nothing where the response has
    /// no domain or its first domain resolves to nothing; else a holding of
    /// the name by the wallet that the first domain resolves to, by the
    /// first transfer where there is one, and that wallet as the follow-up
    /// target.
    pub fn fetch_eth_wallet_by_ens(ens: &str, response: &EthQueryResponse, now: i64) -> (r: Option<
        (Holding, Target),
    >)
        ensures
            match r {
                None => response.domains@.len() == 0 || response.domains@[0].resolved_address
                    is None,
                Some(found) => response.domains@.len() > 0 && response.domains@[0].resolved_address
                    is Some && is_holding_of(
                    found.0,
                    response.domains@[0].resolved_address->0.id@,
                    ens@,
                    first_transaction(response.transfers),
                    now,
                ) && found.1@ == TargetKey::Identity(
                    Platform::Ethereum,
                    response.domains@[0].resolved_address->0.id@,
                ),
            },
    {
        if response.domains.len() == 0 {
            return None;
        }
        let address = match &response.domains[0].resolved_address {
            Some(address) => address.id.clone(),
            None => {
                return None;
            },
        };
        let transaction = match &response.transfers {
            Some(list) => if list.len() > 0 {
                Some(list[0].transaction_id.clone())
            } else {
                None
            },
            None => None,
        };
        let target = Target::Identity(Platform::Ethereum, address.clone());
        Some((holding(address, ens, transaction, now), target))
    }
}

/// Right after the wallet of a holding that was fetched at `now` is
/// upserted, the stored record of that wallet is not outdated at `now`.
pub proof fn lemma_fetched_wallet_is_fresh(
    rows: Seq<IdentityView>,
    h: Holding,
    wallet: Seq<char>,
    name: Seq<char>,
    transaction: Option<Seq<char>>,
    now: i64,
)
    requires
        is_holding_of(h, wallet, name, transaction, now),
    ensures
        position(rows, Platform::Ethereum, wallet) < upsert_rows(rows, h.from@).len(),
        !upsert_rows(rows, h.from@)[position(
            upsert_rows(rows, h.from@),
            Platform::Ethereum,
            wallet,
        )].is_outdated(now),
{
    lemma_fresh_after_upsert(rows, h.from@, now);
}

/// The transaction of the first transfer, where there is one.
pub open spec fn first_transaction(transfers: Option<Vec<EthQueryResponseTransfers>>) -> Option<
    Seq<char>,
> {
    match transfers {
        Some(list) => if list@.len() > 0 {
            Some(list@[0].transaction_id@)
        } else {
            None
        },
        None => None,
    }
}

} // verus!
