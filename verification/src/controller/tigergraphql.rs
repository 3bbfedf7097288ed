//! The queries on identities and proofs: their parameters and their read
//! policy.

use crate::controller::{ReadPlan, REFRESH_DELAY};
use crate::error::Error;
use crate::outside::{parse_uuid, uuid_of};
use crate::text::{lowercase_of, to_lowercase};
use crate::tigergraph::edge::ProofRecord;
use crate::tigergraph::identity::IdentityRecord;
use crate::upstream::dispatch::{keys, DEFAULT_DEPTH};
use crate::upstream::target::{Target, TargetKey};
use crate::upstream::{Chain, ContractCategory, DataSource, Platform};
use vstd::prelude::*;
use vstd::string::*;

verus! {

/// The depth of a traversal where the query names none.
pub const DEFAULT_TRAVERSAL_DEPTH: u16 = 1;

/// The page size of an NFT listing where the query names none.
pub const DEFAULT_NFT_LIMIT: u16 = 100;

/// The queries on identities.
#[derive(Clone, Copy, Debug, Default)]
pub struct IdentityQuery;

/// The queries on proofs.
#[derive(Clone, Copy, Debug, Default)]
pub struct ProofQuery;

/// The target that a query for an identity fetches: an ENS name is fetched as
/// the NFT of that name at the ENS registrar, anything else as the identity.
pub open spec fn target_of(platform: Platform, identity: Seq<char>) -> TargetKey {
    if platform == Platform::ENS {
        TargetKey::NFT(
            Chain::Ethereum,
            ContractCategory::ENS,
            ContractCategory::ENS.spec_default_contract_address()->0,
            identity,
        )
    } else {
        TargetKey::Identity(platform, identity)
    }
}

/// The depth of a traversal: what the query names, else one.
pub fn traversal_depth(depth: Option<u16>) -> (r: u16)
    ensures
        r == (match depth {
            Some(d) => d,
            None => DEFAULT_TRAVERSAL_DEPTH,
        }),
{
    match depth {
        Some(d) => d,
        None => DEFAULT_TRAVERSAL_DEPTH,
    }
}

/// The page of an NFT listing: the size that the query names, else a
/// hundred, and the offset that it names, else none.
pub fn nft_page(limit: Option<u16>, offset: Option<u16>) -> (r: (u16, u16))
    ensures
        r.0 == (match limit {
            Some(l) => l,
            None => DEFAULT_NFT_LIMIT,
        }),
        r.1 == (match offset {
            Some(o) => o,
            None => 0u16,
        }),
{
    (
        match limit {
            Some(l) => l,
            None => DEFAULT_NFT_LIMIT,
        },
        match offset {
            Some(o) => o,
            None => 0,
        },
    )
}

/// Whether the text at `i` is the first that, in lower case, is no category.
pub open spec fn is_first_unknown_category(texts: Seq<String>, i: int) -> bool {
    &&& 0 <= i < texts.len()
    &&& ContractCategory::spec_from_text(lowercase_of(texts[i]@)) is None
    &&& forall|j: int|
        0 <= j < i ==> ContractCategory::spec_from_text(lowercase_of(#[trigger] texts[j]@))
            is Some
}

/// Reads the categories of an NFT listing from their text forms, whatever
/// their case. Fails with a parameter error exactly where one of the texts,
/// in lower case, is no category.
pub fn nft_categories(texts: &Option<Vec<String>>) -> (r: Result<
    Option<Vec<ContractCategory>>,
    Error,
>)
    ensures
        *texts is None ==> r is Ok && r->Ok_0 is None,
        *texts is Some ==> match r {
            Ok(list) => list is Some && list->0@.len() == texts->0@.len() && forall|i: int|
                0 <= i < texts->0@.len() ==> ContractCategory::spec_from_text(
                    lowercase_of(texts->0@[i]@),
                ) == Some(#[trigger] list->0@[i]),
            Err(e) => e is ParamError && exists|i: int|
                #[trigger] is_first_unknown_category(texts->0@, i) && e->ParamError_0@
                    == "Unknown contract category: "@ + texts->0@[i]@,
        },
{
    match texts {
        None => Ok(None),
        Some(given) => {
            let mut list: Vec<ContractCategory> = Vec::new();
            let mut i: usize = 0;
            while i < given.len()
                invariant
                    *texts == Some(*given),
                    i <= given.len(),
                    list@.len() == i,
                    forall|j: int|
                        0 <= j < i ==> ContractCategory::spec_from_text(lowercase_of(given@[j]@))
                            == Some(#[trigger] list@[j]),
                decreases given.len() - i,
            {
                let lower = to_lowercase(given[i].as_str());
                match ContractCategory::from_text(lower.as_str()) {
                    Some(category) => {
                        list.push(category);
                    },
                    None => {
                        assert forall|j: int| 0 <= j < i implies ContractCategory::spec_from_text(
                            lowercase_of(#[trigger] given@[j]@),
                        ) is Some by {
                            assert(ContractCategory::spec_from_text(lowercase_of(given@[j]@))
                                == Some(list@[j]));
                        }
                        let mut message = String::from_str("Unknown contract category: ");
                        message.append(given[i].as_str());
                        assert(is_first_unknown_category(given@, i as int));
                        return Err(Error::ParamError(message));
                    },
                }
                i += 1;
            }
            Ok(Some(list))
        },
    }
}

impl IdentityQuery {
    /// All platforms that the service knows.
    pub fn available_platforms(&self) -> (r: Vec<Platform>)
        ensures
            r@ == Platform::spec_all(),
    {
        Platform::all()
    }

    /// All sources that the service knows.
    pub fn available_upstreams(&self) -> (r: Vec<DataSource>)
        ensures
            r@ == DataSource::spec_all(),
    {
        DataSource::all()
    }

    /// Reads the parameters of a query for an identity: the platform from
    /// its text form, whatever its case, and the target to fetch. Fails with
    /// a parameter error exactly where the text, in lower case, is no
    /// platform.
    pub fn target(&self, platform: &str, identity: &str) -> (r: Result<(Platform, Target), Error>)
        ensures
            match r {
                Ok(found) => Platform::spec_from_text(lowercase_of(platform@)) == Some(found.0)
                    && found.1@ == target_of(found.0, identity@),
                Err(e) => e is ParamError && e->ParamError_0@ == "Unknown platform: "@ + platform@
                    && Platform::spec_from_text(lowercase_of(platform@)) is None,
            },
    {
        let lower = to_lowercase(platform);
        match Platform::from_text(lower.as_str()) {
            None => {
                let mut message = String::from_str("Unknown platform: ");
                message.append(platform);
                Err(Error::ParamError(message))
            },
            Some(found) => Ok((found, target_for(found, identity))),
        }
    }

    /// The read policy of a query for an identity, after the lookup. Nothing
    /// found: fetch the target now, three layers deep, and look again. Found
    /// but outdated at `now`: answer with the record, and in the background
    /// wait ten seconds, delete the vertex with its edges and fetch the
    /// target. Found and fresh: answer with the record.
    pub fn identity(&self, found: Option<IdentityRecord>, target: Target, now: i64) -> (plan:
        ReadPlan<IdentityRecord>)
        ensures
            found is None ==> plan is ColdFetch && keys(plan->ColdFetch_targets@) == seq![target@]
                && plan->ColdFetch_depth == DEFAULT_DEPTH,
            found is Some && found->0@.attributes.is_outdated(now) ==> plan is ServeStale
                && plan->ServeStale_record == found->0 && plan->ServeStale_delay == REFRESH_DELAY
                && plan->ServeStale_delete@ == found->0.v_id@
                && keys(plan->ServeStale_targets@) == seq![target@] && plan->ServeStale_depth
                == DEFAULT_DEPTH,
            found is Some && !found->0@.attributes.is_outdated(now) ==> plan is Serve
                && plan->Serve_record == found->0,
    {
        let mut targets: Vec<Target> = Vec::new();
        let ghost wanted = target@;
        targets.push(target);
        assert(keys(targets@) =~= seq![wanted]);
        match found {
            None => ReadPlan::ColdFetch { targets, depth: DEFAULT_DEPTH },
            Some(record) => {
                if record.attributes.is_outdated(now) {
                    let delete = record.v_id.clone();
                    ReadPlan::ServeStale {
                        record,
                        delay: REFRESH_DELAY,
                        delete,
                        targets,
                        depth: DEFAULT_DEPTH,
                    }
                } else {
                    ReadPlan::Serve { record }
                }
            },
        }
    }
}

/// The target that a query for an identity fetches.
pub fn target_for(platform: Platform, identity: &str) -> (r: Target)
    ensures
        r@ == target_of(platform, identity@),
{
    match platform {
        Platform::ENS => {
            let address = match ContractCategory::ENS.default_contract_address() {
                Some(a) => a,
                None => String::new(),
            };
            Target::NFT(Chain::Ethereum, ContractCategory::ENS, address, identity.to_owned())
        },
        _ => Target::Identity(platform, identity.to_owned()),
    }
}

impl IdentityRecord {
    /// What a query for the graph around this identity fetches where the
    /// store holds no graph of it: its target, three layers deep.
    pub fn identity_graph(&self) -> (r: (Vec<Target>, u32))
        ensures
            keys(r.0@) == seq![target_of(self.attributes.platform, self.attributes.identity@)],
            r.1 == DEFAULT_DEPTH,
    {
        let mut targets: Vec<Target> = Vec::new();
        let target = target_for(self.attributes.platform, self.attributes.identity.as_str());
        let ghost wanted = target@;
        targets.push(target);
        assert(keys(targets@) =~= seq![wanted]);
        (targets, DEFAULT_DEPTH)
    }
}

impl ProofRecord {
    /// The identity at the start of the proof, as the batch loader found it;
    /// an error of the query layer where it found none.
    pub fn from(&self, loaded: Option<IdentityRecord>) -> (r: Result<IdentityRecord, Error>)
        ensures
            loaded is Some ==> r is Ok && r->Ok_0 == loaded->0,
            loaded is None ==> r is Err && r->Err_0 is GraphQLError && r->Err_0->GraphQLError_0@
                == "record from no found."@,
    {
        match loaded {
            Some(value) => Ok(value),
            None => Err(Error::GraphQLError(String::from_str("record from no found."))),
        }
    }

    /// The identity at the end of the proof, as the batch loader found it;
    /// an error of the query layer where it found none.
    pub fn to(&self, loaded: Option<IdentityRecord>) -> (r: Result<IdentityRecord, Error>)
        ensures
            loaded is Some ==> r is Ok && r->Ok_0 == loaded->0,
            loaded is None ==> r is Err && r->Err_0 is GraphQLError && r->Err_0->GraphQLError_0@
                == "record to no found."@,
    {
        match loaded {
            Some(value) => Ok(value),
            None => Err(Error::GraphQLError(String::from_str("record to no found."))),
        }
    }
}

impl ProofQuery {
    /// Reads the parameter of a query for a proof: without an identifier
    /// nothing is looked up; with one, the value to look up, or a parameter
    /// error exactly where the text is no UUID.
    pub fn proof_by_uuid(&self, uuid: &Option<String>) -> (r: Result<Option<u128>, Error>)
        ensures
            *uuid is None ==> r is Ok && r->Ok_0 is None,
            *uuid is Some && uuid_of(uuid->0@) is Some ==> r is Ok && r->Ok_0 == uuid_of(
                uuid->0@,
            ),
            *uuid is Some && uuid_of(uuid->0@) is None ==> r is Err && r->Err_0 is ParamError
                && r->Err_0->ParamError_0@ == "Uuid format error: "@ + uuid->0@,
    {
        match uuid {
            None => Ok(None),
            Some(text) => match parse_uuid(text.as_str()) {
                Some(value) => Ok(Some(value)),
                None => {
                    let mut message = String::from_str("Uuid format error: ");
                    message.append(text.as_str());
                    Err(Error::ParamError(message))
                },
            },
        }
    }

    /// The answer to a request to prefetch proofs: the fetch runs in the
    /// background, and the caller is told so.
    pub fn prefetch_proof(&self) -> (r: String)
        ensures
            r@ == "Fetching"@,
    {
        String::from_str("Fetching")
    }
}

} // verus!
