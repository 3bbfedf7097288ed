//! Fetch targets, their canonical form and the registry of upstream adapters.

use crate::error::Error;
use crate::text::{lowercase_of, to_lowercase};
use crate::upstream::{Chain, ContractCategory, Platform};
use vstd::prelude::*;
use vstd::string::*;

verus! {

/// What an adapter is asked to fetch.
#[derive(Debug)]
pub enum Target {
    /// An identity: its metadata and its links across platforms.
    Identity(Platform, String),
    /// An NFT: chain, category, contract address and token id. An ENS name is
    /// such a target, with the name as token id.
    NFT(Chain, ContractCategory, String, String),
}

/// A target as a plain value.
pub enum TargetKey {
    /// An identity.
    Identity(Platform, Seq<char>),
    /// An NFT.
    NFT(Chain, ContractCategory, Seq<char>, Seq<char>),
}

impl View for Target {
    type V = TargetKey;

    open spec fn view(&self) -> TargetKey {
        match self {
            Target::Identity(p, id) => TargetKey::Identity(*p, id@),
            Target::NFT(c, cat, addr, tok) => TargetKey::NFT(*c, *cat, addr@, tok@),
        }
    }
}

impl TargetKey {
    /// The form under which a target counts as visited: an identity with its
    /// key in lower case, an NFT as it is.
    pub open spec fn canonical(self) -> TargetKey {
        match self {
            TargetKey::Identity(p, id) => TargetKey::Identity(p, lowercase_of(id)),
            TargetKey::NFT(c, cat, addr, tok) => TargetKey::NFT(c, cat, addr, tok),
        }
    }
}

impl Target {
    /// A copy of the target.
    pub fn duplicate(&self) -> (r: Target)
        ensures
            r@ == self@,
    {
        match self {
            Target::Identity(p, id) => Target::Identity(*p, id.clone()),
            Target::NFT(c, cat, addr, tok) => Target::NFT(*c, *cat, addr.clone(), tok.clone()),
        }
    }

    /// Whether two targets are the same value.
    pub fn same(&self, other: &Target) -> (r: bool)
        ensures
            r == (self@ == other@),
    {
        match (self, other) {
            (Target::Identity(p, id), Target::Identity(q, jd)) => *p == *q && *id == *jd,
            (Target::NFT(c, cat, addr, tok), Target::NFT(d, dat, bddr, uok)) => *c == *d && *cat
                == *dat && *addr == *bddr && *tok == *uok,
            _ => false,
        }
    }

    /// The target in the form under which it counts as visited.
    pub fn canonical_form(&self) -> (r: Target)
        ensures
            r@ == self@.canonical(),
    {
        match self {
            Target::Identity(p, id) => Target::Identity(*p, to_lowercase(id.as_str())),
            Target::NFT(c, cat, addr, tok) => Target::NFT(*c, *cat, addr.clone(), tok.clone()),
        }
    }

    /// Whether the target is an identity on one of the given platforms.
    pub fn in_platform_supported(&self, platforms: &Vec<Platform>) -> (r: bool)
        ensures
            r == match self@ {
                TargetKey::Identity(p, _) => platforms@.contains(p),
                TargetKey::NFT(_, _, _, _) => false,
            },
    {
        match self {
            Target::Identity(p, _) => has_platform(platforms, *p),
            Target::NFT(_, _, _, _) => false,
        }
    }

    /// Whether the target is an NFT of one of the given categories on one of
    /// the given chains.
    pub fn in_nft_supported(&self, categories: &Vec<ContractCategory>, chains: &Vec<Chain>) -> (r:
        bool)
        ensures
            r == match self@ {
                TargetKey::Identity(_, _) => false,
                TargetKey::NFT(c, cat, _, _) => categories@.contains(cat) && chains@.contains(c),
            },
    {
        match self {
            Target::Identity(_, _) => false,
            Target::NFT(c, cat, _, _) => has_category(categories, *cat) && has_chain(chains, *c),
        }
    }

    /// The platform of an identity target; an NFT target has none.
    pub fn platform(&self) -> (r: Result<Platform, Error>)
        ensures
            match self@ {
                TargetKey::Identity(p, _) => r == Ok::<Platform, Error>(p),
                TargetKey::NFT(_, _, _, _) => r is Err && r->Err_0 is General && r->Err_0->General_1
                    == crate::error::INTERNAL_SERVER_ERROR && r->Err_0->General_0@
                    == "Target: Get platform error: Not an Identity"@,
            },
    {
        match self {
            Target::Identity(p, _) => Ok(*p),
            Target::NFT(_, _, _, _) => Err(
                Error::General(
                    String::from_str("Target: Get platform error: Not an Identity"),
                    crate::error::INTERNAL_SERVER_ERROR,
                ),
            ),
        }
    }

    /// The key of an identity target; an NFT target has none.
    pub fn identity(&self) -> (r: Result<String, Error>)
        ensures
            match self@ {
                TargetKey::Identity(_, id) => r is Ok && r->Ok_0@ == id,
                TargetKey::NFT(_, _, _, _) => r is Err && r->Err_0 is General && r->Err_0->General_1
                    == crate::error::INTERNAL_SERVER_ERROR && r->Err_0->General_0@
                    == "Target: Get identity error: Not an Identity"@,
            },
    {
        match self {
            Target::Identity(_, id) => Ok(id.clone()),
            Target::NFT(_, _, _, _) => Err(
                Error::General(
                    String::from_str("Target: Get identity error: Not an Identity"),
                    crate::error::INTERNAL_SERVER_ERROR,
                ),
            ),
        }
    }
}

/// Whether a list of platforms holds a value.
pub fn has_platform(list: &Vec<Platform>, value: Platform) -> (r: bool)
    ensures
        r == list@.contains(value),
{
    let mut i: usize = 0;
    while i < list.len()
        invariant
            i <= list.len(),
            forall|j: int| 0 <= j < i ==> list@[j] != value,
        decreases list.len() - i,
    {
        if list[i] == value {
            return true;
        }
        i += 1;
    }
    false
}

/// Whether a list of categories holds a value.
pub fn has_category(list: &Vec<ContractCategory>, value: ContractCategory) -> (r: bool)
    ensures
        r == list@.contains(value),
{
    let mut i: usize = 0;
    while i < list.len()
        invariant
            i <= list.len(),
            forall|j: int| 0 <= j < i ==> list@[j] != value,
        decreases list.len() - i,
    {
        if list[i] == value {
            return true;
        }
        i += 1;
    }
    false
}

/// Whether a list of chains holds a value.
pub fn has_chain(list: &Vec<Chain>, value: Chain) -> (r: bool)
    ensures
        r == list@.contains(value),
{
    let mut i: usize = 0;
    while i < list.len()
        invariant
            i <= list.len(),
            forall|j: int| 0 <= j < i ==> list@[j] != value,
        decreases list.len() - i,
    {
        if list[i] == value {
            return true;
        }
        i += 1;
    }
    false
}

/// The adapters that the dispatch engine knows.
#[derive(Clone, Copy, Debug, PartialEq, Eq, Structural, Hash)]
pub enum Upstream {
    /// ENS names and their wallets, from The Graph.
    TheGraph,
    /// NFT transfers of a wallet, from RSS3.
    Rss3,
    /// Wallets and their Twitter handles, from the verified list.
    SybilList,
}

impl Upstream {
    /// All adapters, in the order in which they are asked.
    pub open spec fn spec_registry() -> Seq<Upstream> {
        seq![Upstream::TheGraph, Upstream::Rss3, Upstream::SybilList]
    }

    /// Which targets an adapter takes.
    pub open spec fn spec_can_fetch(self, target: TargetKey) -> bool {
        match self {
            Upstream::TheGraph => match target {
                TargetKey::Identity(p, _) => p == Platform::Ethereum,
                TargetKey::NFT(c, cat, _, _) => cat == ContractCategory::ENS && c
                    == Chain::Ethereum,
            },
            Upstream::Rss3 => match target {
                TargetKey::Identity(p, _) => p == Platform::Ethereum,
                TargetKey::NFT(_, _, _, _) => false,
            },
            Upstream::SybilList => match target {
                TargetKey::Identity(p, _) => p == Platform::Ethereum || p == Platform::Twitter,
                TargetKey::NFT(_, _, _, _) => false,
            },
        }
    }

    /// All adapters, in the order in which they are asked.
    pub fn registry() -> (r: Vec<Upstream>)
        ensures
            r@ == Upstream::spec_registry(),
    {
        let r = vec![Upstream::TheGraph, Upstream::Rss3, Upstream::SybilList];
        assert(r@ =~= Upstream::spec_registry());
        r
    }

    /// Whether the adapter takes the target: a test on the target's platform,
    /// or on its chain and category.
    pub fn can_fetch(&self, target: &Target) -> (r: bool)
        ensures
            r == self.spec_can_fetch(target@),
    {
        match self {
            Upstream::TheGraph => match target {
                Target::Identity(p, _) => *p == Platform::Ethereum,
                Target::NFT(c, cat, _, _) => *cat == ContractCategory::ENS && *c
                    == Chain::Ethereum,
            },
            Upstream::Rss3 => match target {
                Target::Identity(p, _) => *p == Platform::Ethereum,
                Target::NFT(_, _, _, _) => false,
            },
            Upstream::SybilList => match target {
                Target::Identity(p, _) => *p == Platform::Ethereum || *p == Platform::Twitter,
                Target::NFT(_, _, _, _) => false,
            },
        }
    }
}

} // verus!
