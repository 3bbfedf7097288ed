//! The enumerations of the domain model, fetch targets and the registry of
//! upstream adapters.

pub mod dispatch;
pub mod rss3;
pub mod sybil_list;
pub mod target;
pub mod the_graph;

use crate::text::same_text;
use crate::tigergraph::edge::Proof;
use crate::tigergraph::identity::{copy_opt_text, opt_text, Identity, IdentityView};
use vstd::prelude::*;
use vstd::string::*;

verus! {

/// Kinds of vertex that an upstream reports.
#[derive(Clone, Copy, Debug, PartialEq, Eq, Structural, Hash)]
pub enum VertexType {
    /// An account on a platform.
    Identity,
    /// A public key.
    CryptoIdentity,
}

/// Kinds of edge that an upstream reports.
#[derive(Clone, Copy, Debug, PartialEq, Eq, Structural, Hash)]
pub enum EdgeType {
    /// Two identities of one owner.
    Proof,
    /// A public key in serialised form.
    PubkeySerialize,
}

/// Signature algorithms.
#[derive(Clone, Copy, Debug, PartialEq, Eq, Structural, Hash)]
pub enum Algorithm {
    /// Elliptic-curve signatures.
    EllipticCurve,
}

/// Curves.
#[derive(Clone, Copy, Debug, PartialEq, Eq, Structural, Hash)]
pub enum Curve {
    /// secp256k1.
    Secp256K1,
}

/// All identity platforms.
#[derive(Clone, Copy, Debug, PartialEq, Eq, Structural, Hash)]
pub enum Platform {
    /// Twitter.
    Twitter,
    /// Ethereum wallet, `0x` and forty hex digits.
    Ethereum,
    /// ENS name.
    ENS,
    /// Lens handle.
    Lens,
    /// .bit account.
    Dotbit,
    /// Farcaster account.
    Farcaster,
    /// Unstoppable Domains name.
    UnstoppableDomains,
    /// SPACE ID name.
    SpaceId,
    /// Solana wallet.
    Solana,
    /// Solana name service name.
    SNS,
    /// Crossbell character.
    Crossbell,
    /// Genome name.
    Genome,
    /// Anything else.
    Unknown,
}

impl Platform {
    /// The text form of the value.
    pub open spec fn spec_name(self) -> Seq<char> {
        match self {
            Platform::Twitter => "twitter"@,
            Platform::Ethereum => "ethereum"@,
            Platform::ENS => "ENS"@,
            Platform::Lens => "lens"@,
            Platform::Dotbit => "dotbit"@,
            Platform::Farcaster => "farcaster"@,
            Platform::UnstoppableDomains => "unstoppabledomains"@,
            Platform::SpaceId => "space_id"@,
            Platform::Solana => "solana"@,
            Platform::SNS => "SNS"@,
            Platform::Crossbell => "crossbell"@,
            Platform::Genome => "genome"@,
            Platform::Unknown => "unknown"@,
        }
    }

    /// The value that a text stands for: its text form, or that form in lower case.
    pub open spec fn spec_from_text(s: Seq<char>) -> Option<Platform> {
        if s == "twitter"@ {
            Some(Platform::Twitter)
        } else if s == "ethereum"@ {
            Some(Platform::Ethereum)
        } else if s == "ENS"@ || s == "ens"@ {
            Some(Platform::ENS)
        } else if s == "lens"@ {
            Some(Platform::Lens)
        } else if s == "dotbit"@ {
            Some(Platform::Dotbit)
        } else if s == "farcaster"@ {
            Some(Platform::Farcaster)
        } else if s == "unstoppabledomains"@ {
            Some(Platform::UnstoppableDomains)
        } else if s == "space_id"@ {
            Some(Platform::SpaceId)
        } else if s == "solana"@ {
            Some(Platform::Solana)
        } else if s == "SNS"@ || s == "sns"@ {
            Some(Platform::SNS)
        } else if s == "crossbell"@ {
            Some(Platform::Crossbell)
        } else if s == "genome"@ {
            Some(Platform::Genome)
        } else if s == "unknown"@ {
            Some(Platform::Unknown)
        } else {
            None
        }
    }

    /// All values, in declaration order.
    pub open spec fn spec_all() -> Seq<Platform> {
        seq![Platform::Twitter, Platform::Ethereum, Platform::ENS, Platform::Lens, Platform::Dotbit, Platform::Farcaster, Platform::UnstoppableDomains, Platform::SpaceId, Platform::Solana, Platform::SNS, Platform::Crossbell, Platform::Genome, Platform::Unknown]
    }

    /// The text form of the value.
    pub fn name(&self) -> (s: &'static str)
        ensures
            s@ == self.spec_name(),
    {
        match self {
            Platform::Twitter => "twitter",
            Platform::Ethereum => "ethereum",
            Platform::ENS => "ENS",
            Platform::Lens => "lens",
            Platform::Dotbit => "dotbit",
            Platform::Farcaster => "farcaster",
            Platform::UnstoppableDomains => "unstoppabledomains",
            Platform::SpaceId => "space_id",
            Platform::Solana => "solana",
            Platform::SNS => "SNS",
            Platform::Crossbell => "crossbell",
            Platform::Genome => "genome",
            Platform::Unknown => "unknown",
        }
    }

    /// Reads a value from its text form; `None` where no value has that form.
    pub fn from_text(s: &str) -> (r: Option<Platform>)
        ensures
            r == Platform::spec_from_text(s@),
    {
        if same_text(s, "twitter") {
            Some(Platform::Twitter)
        } else if same_text(s, "ethereum") {
            Some(Platform::Ethereum)
        } else if same_text(s, "ENS") || same_text(s, "ens") {
            Some(Platform::ENS)
        } else if same_text(s, "lens") {
            Some(Platform::Lens)
        } else if same_text(s, "dotbit") {
            Some(Platform::Dotbit)
        } else if same_text(s, "farcaster") {
            Some(Platform::Farcaster)
        } else if same_text(s, "unstoppabledomains") {
            Some(Platform::UnstoppableDomains)
        } else if same_text(s, "space_id") {
            Some(Platform::SpaceId)
        } else if same_text(s, "solana") {
            Some(Platform::Solana)
        } else if same_text(s, "SNS") || same_text(s, "sns") {
            Some(Platform::SNS)
        } else if same_text(s, "crossbell") {
            Some(Platform::Crossbell)
        } else if same_text(s, "genome") {
            Some(Platform::Genome)
        } else if same_text(s, "unknown") {
            Some(Platform::Unknown)
        } else {
            None
        }
    }

    /// All values, in declaration order.
    pub fn all() -> (r: Vec<Platform>)
        ensures
            r@ == Platform::spec_all(),
    {
        let r = vec![Platform::Twitter, Platform::Ethereum, Platform::ENS, Platform::Lens, Platform::Dotbit, Platform::Farcaster, Platform::UnstoppableDomains, Platform::SpaceId, Platform::Solana, Platform::SNS, Platform::Crossbell, Platform::Genome, Platform::Unknown];
        assert(r@ =~= Platform::spec_all());
        r
    }

    /// Reading back the text form of a value gives that value.
    pub proof fn lemma_name_round_trip(v: Platform)
        ensures
            Platform::spec_from_text(v.spec_name()) == Some(v),
    {
        reveal_strlit("twitter");
        assert("twitter"@.len() == 7 && "twitter"@[0] == 't');
        reveal_strlit("ethereum");
        assert("ethereum"@.len() == 8 && "ethereum"@[0] == 'e');
        reveal_strlit("ENS");
        assert("ENS"@.len() == 3 && "ENS"@[0] == 'E');
        reveal_strlit("ens");
        assert("ens"@.len() == 3 && "ens"@[0] == 'e');
        reveal_strlit("lens");
        assert("lens"@.len() == 4 && "lens"@[0] == 'l');
        reveal_strlit("dotbit");
        assert("dotbit"@.len() == 6 && "dotbit"@[0] == 'd');
        reveal_strlit("farcaster");
        assert("farcaster"@.len() == 9 && "farcaster"@[0] == 'f');
        reveal_strlit("unstoppabledomains");
        assert("unstoppabledomains"@.len() == 18 && "unstoppabledomains"@[0] == 'u');
        reveal_strlit("space_id");
        assert("space_id"@.len() == 8 && "space_id"@[0] == 's');
        reveal_strlit("solana");
        assert("solana"@.len() == 6 && "solana"@[0] == 's');
        reveal_strlit("SNS");
        assert("SNS"@.len() == 3 && "SNS"@[0] == 'S');
        reveal_strlit("sns");
        assert("sns"@.len() == 3 && "sns"@[0] == 's');
        reveal_strlit("crossbell");
        assert("crossbell"@.len() == 9 && "crossbell"@[0] == 'c');
        reveal_strlit("genome");
        assert("genome"@.len() == 6 && "genome"@[0] == 'g');
        reveal_strlit("unknown");
        assert("unknown"@.len() == 7 && "unknown"@[0] == 'u');
    }
}

/// Where a claim comes from.
#[derive(Clone, Copy, Debug, PartialEq, Eq, Structural, Hash)]
pub enum DataSource {
    /// The verified list kept by Uniswap.
    SybilList,
    /// RSS3.
    Rss3,
    /// The Graph.
    TheGraph,
    /// KNN3.
    Knn3,
    /// Anything else.
    Unknown,
}

impl DataSource {
    /// The text form of the value.
    pub open spec fn spec_name(self) -> Seq<char> {
        match self {
            DataSource::SybilList => "SybilList"@,
            DataSource::Rss3 => "rss3"@,
            DataSource::TheGraph => "the_graph"@,
            DataSource::Knn3 => "knn3"@,
            DataSource::Unknown => "unknown"@,
        }
    }

    /// The value that a text stands for: its text form, or that form in lower case.
    pub open spec fn spec_from_text(s: Seq<char>) -> Option<DataSource> {
        if s == "SybilList"@ || s == "sybillist"@ {
            Some(DataSource::SybilList)
        } else if s == "rss3"@ {
            Some(DataSource::Rss3)
        } else if s == "the_graph"@ {
            Some(DataSource::TheGraph)
        } else if s == "knn3"@ {
            Some(DataSource::Knn3)
        } else if s == "unknown"@ {
            Some(DataSource::Unknown)
        } else {
            None
        }
    }

    /// All values, in declaration order.
    pub open spec fn spec_all() -> Seq<DataSource> {
        seq![DataSource::SybilList, DataSource::Rss3, DataSource::TheGraph, DataSource::Knn3, DataSource::Unknown]
    }

    /// The text form of the value.
    pub fn name(&self) -> (s: &'static str)
        ensures
            s@ == self.spec_name(),
    {
        match self {
            DataSource::SybilList => "SybilList",
            DataSource::Rss3 => "rss3",
            DataSource::TheGraph => "the_graph",
            DataSource::Knn3 => "knn3",
            DataSource::Unknown => "unknown",
        }
    }

    /// Reads a value from its text form; `None` where no value has that form.
    pub fn from_text(s: &str) -> (r: Option<DataSource>)
        ensures
            r == DataSource::spec_from_text(s@),
    {
        if same_text(s, "SybilList") || same_text(s, "sybillist") {
            Some(DataSource::SybilList)
        } else if same_text(s, "rss3") {
            Some(DataSource::Rss3)
        } else if same_text(s, "the_graph") {
            Some(DataSource::TheGraph)
        } else if same_text(s, "knn3") {
            Some(DataSource::Knn3)
        } else if same_text(s, "unknown") {
            Some(DataSource::Unknown)
        } else {
            None
        }
    }

    /// All values, in declaration order.
    pub fn all() -> (r: Vec<DataSource>)
        ensures
            r@ == DataSource::spec_all(),
    {
        let r = vec![DataSource::SybilList, DataSource::Rss3, DataSource::TheGraph, DataSource::Knn3, DataSource::Unknown];
        assert(r@ =~= DataSource::spec_all());
        r
    }

    /// Reading back the text form of a value gives that value.
    pub proof fn lemma_name_round_trip(v: DataSource)
        ensures
            DataSource::spec_from_text(v.spec_name()) == Some(v),
    {
        reveal_strlit("SybilList");
        assert("SybilList"@.len() == 9 && "SybilList"@[0] == 'S');
        reveal_strlit("sybillist");
        assert("sybillist"@.len() == 9 && "sybillist"@[0] == 's');
        reveal_strlit("rss3");
        assert("rss3"@.len() == 4 && "rss3"@[0] == 'r');
        reveal_strlit("the_graph");
        assert("the_graph"@.len() == 9 && "the_graph"@[0] == 't');
        reveal_strlit("knn3");
        assert("knn3"@.len() == 4 && "knn3"@[0] == 'k');
        reveal_strlit("unknown");
        assert("unknown"@.len() == 7 && "unknown"@[0] == 'u');
    }
}

/// Which service extracted a claim.
#[derive(Clone, Copy, Debug, PartialEq, Eq, Structural, Hash)]
pub enum DataFetcher {
    /// This service.
    RelationService,
    /// An aggregator in front of several sources.
    AggregationService,
}

impl DataFetcher {
    /// The text form of the value.
    pub open spec fn spec_name(self) -> Seq<char> {
        match self {
            DataFetcher::RelationService => "relation_service"@,
            DataFetcher::AggregationService => "aggregation_service"@,
        }
    }

    /// The value that a text stands for: its text form, or that form in lower case.
    pub open spec fn spec_from_text(s: Seq<char>) -> Option<DataFetcher> {
        if s == "relation_service"@ {
            Some(DataFetcher::RelationService)
        } else if s == "aggregation_service"@ {
            Some(DataFetcher::AggregationService)
        } else {
            None
        }
    }

    /// All values, in declaration order.
    pub open spec fn spec_all() -> Seq<DataFetcher> {
        seq![DataFetcher::RelationService, DataFetcher::AggregationService]
    }

    /// The text form of the value.
    pub fn name(&self) -> (s: &'static str)
        ensures
            s@ == self.spec_name(),
    {
        match self {
            DataFetcher::RelationService => "relation_service",
            DataFetcher::AggregationService => "aggregation_service",
        }
    }

    /// Reads a value from its text form; `None` where no value has that form.
    pub fn from_text(s: &str) -> (r: Option<DataFetcher>)
        ensures
            r == DataFetcher::spec_from_text(s@),
    {
        if same_text(s, "relation_service") {
            Some(DataFetcher::RelationService)
        } else if same_text(s, "aggregation_service") {
            Some(DataFetcher::AggregationService)
        } else {
            None
        }
    }

    /// All values, in declaration order.
    pub fn all() -> (r: Vec<DataFetcher>)
        ensures
            r@ == DataFetcher::spec_all(),
    {
        let r = vec![DataFetcher::RelationService, DataFetcher::AggregationService];
        assert(r@ =~= DataFetcher::spec_all());
        r
    }

    /// Reading back the text form of a value gives that value.
    pub proof fn lemma_name_round_trip(v: DataFetcher)
        ensures
            DataFetcher::spec_from_text(v.spec_name()) == Some(v),
    {
        reveal_strlit("relation_service");
        assert("relation_service"@.len() == 16 && "relation_service"@[0] == 'r');
        reveal_strlit("aggregation_service");
        assert("aggregation_service"@.len() == 19 && "aggregation_service"@[0] == 'a');
    }
}

/// Chains that contracts live on.
#[derive(Clone, Copy, Debug, PartialEq, Eq, Structural, Hash)]
pub enum Chain {
    /// Ethereum main net.
    Ethereum,
    /// Polygon.
    Polygon,
    /// Anything else.
    Unknown,
}

impl Chain {
    /// The text form of the value.
    pub open spec fn spec_name(self) -> Seq<char> {
        match self {
            Chain::Ethereum => "ethereum"@,
            Chain::Polygon => "polygon"@,
            Chain::Unknown => "unknown"@,
        }
    }

    /// The value that a text stands for: its text form, or that form in lower case.
    pub open spec fn spec_from_text(s: Seq<char>) -> Option<Chain> {
        if s == "ethereum"@ {
            Some(Chain::Ethereum)
        } else if s == "polygon"@ {
            Some(Chain::Polygon)
        } else if s == "unknown"@ {
            Some(Chain::Unknown)
        } else {
            None
        }
    }

    /// All values, in declaration order.
    pub open spec fn spec_all() -> Seq<Chain> {
        seq![Chain::Ethereum, Chain::Polygon, Chain::Unknown]
    }

    /// The text form of the value.
    pub fn name(&self) -> (s: &'static str)
        ensures
            s@ == self.spec_name(),
    {
        match self {
            Chain::Ethereum => "ethereum",
            Chain::Polygon => "polygon",
            Chain::Unknown => "unknown",
        }
    }

    /// Reads a value from its text form; `None` where no value has that form.
    pub fn from_text(s: &str) -> (r: Option<Chain>)
        ensures
            r == Chain::spec_from_text(s@),
    {
        if same_text(s, "ethereum") {
            Some(Chain::Ethereum)
        } else if same_text(s, "polygon") {
            Some(Chain::Polygon)
        } else if same_text(s, "unknown") {
            Some(Chain::Unknown)
        } else {
            None
        }
    }

    /// All values, in declaration order.
    pub fn all() -> (r: Vec<Chain>)
        ensures
            r@ == Chain::spec_all(),
    {
        let r = vec![Chain::Ethereum, Chain::Polygon, Chain::Unknown];
        assert(r@ =~= Chain::spec_all());
        r
    }

    /// Reading back the text form of a value gives that value.
    pub proof fn lemma_name_round_trip(v: Chain)
        ensures
            Chain::spec_from_text(v.spec_name()) == Some(v),
    {
        reveal_strlit("ethereum");
        assert("ethereum"@.len() == 8 && "ethereum"@[0] == 'e');
        reveal_strlit("polygon");
        assert("polygon"@.len() == 7 && "polygon"@[0] == 'p');
        reveal_strlit("unknown");
        assert("unknown"@.len() == 7 && "unknown"@[0] == 'u');
    }
}

/// Kinds of contract.
#[derive(Clone, Copy, Debug, PartialEq, Eq, Structural, Hash)]
pub enum ContractCategory {
    /// ENS registrar.
    ENS,
    /// ERC-721 collection.
    ERC721,
    /// ERC-1155 collection.
    ERC1155,
    /// POAP.
    POAP,
    /// Anything else.
    Unknown,
}

impl ContractCategory {
    /// The text form of the value.
    pub open spec fn spec_name(self) -> Seq<char> {
        match self {
            ContractCategory::ENS => "ENS"@,
            ContractCategory::ERC721 => "ERC721"@,
            ContractCategory::ERC1155 => "ERC1155"@,
            ContractCategory::POAP => "POAP"@,
            ContractCategory::Unknown => "unknown"@,
        }
    }

    /// The value that a text stands for: its text form, or that form in lower case.
    pub open spec fn spec_from_text(s: Seq<char>) -> Option<ContractCategory> {
        if s == "ENS"@ || s == "ens"@ {
            Some(ContractCategory::ENS)
        } else if s == "ERC721"@ || s == "erc721"@ {
            Some(ContractCategory::ERC721)
        } else if s == "ERC1155"@ || s == "erc1155"@ {
            Some(ContractCategory::ERC1155)
        } else if s == "POAP"@ || s == "poap"@ {
            Some(ContractCategory::POAP)
        } else if s == "unknown"@ {
            Some(ContractCategory::Unknown)
        } else {
            None
        }
    }

    /// All values, in declaration order.
    pub open spec fn spec_all() -> Seq<ContractCategory> {
        seq![ContractCategory::ENS, ContractCategory::ERC721, ContractCategory::ERC1155, ContractCategory::POAP, ContractCategory::Unknown]
    }

    /// The text form of the value.
    pub fn name(&self) -> (s: &'static str)
        ensures
            s@ == self.spec_name(),
    {
        match self {
            ContractCategory::ENS => "ENS",
            ContractCategory::ERC721 => "ERC721",
            ContractCategory::ERC1155 => "ERC1155",
            ContractCategory::POAP => "POAP",
            ContractCategory::Unknown => "unknown",
        }
    }

    /// Reads a value from its text form; `None` where no value has that form.
    pub fn from_text(s: &str) -> (r: Option<ContractCategory>)
        ensures
            r == ContractCategory::spec_from_text(s@),
    {
        if same_text(s, "ENS") || same_text(s, "ens") {
            Some(ContractCategory::ENS)
        } else if same_text(s, "ERC721") || same_text(s, "erc721") {
            Some(ContractCategory::ERC721)
        } else if same_text(s, "ERC1155") || same_text(s, "erc1155") {
            Some(ContractCategory::ERC1155)
        } else if same_text(s, "POAP") || same_text(s, "poap") {
            Some(ContractCategory::POAP)
        } else if same_text(s, "unknown") {
            Some(ContractCategory::Unknown)
        } else {
            None
        }
    }

    /// All values, in declaration order.
    pub fn all() -> (r: Vec<ContractCategory>)
        ensures
            r@ == ContractCategory::spec_all(),
    {
        let r = vec![ContractCategory::ENS, ContractCategory::ERC721, ContractCategory::ERC1155, ContractCategory::POAP, ContractCategory::Unknown];
        assert(r@ =~= ContractCategory::spec_all());
        r
    }

    /// Reading back the text form of a value gives that value.
    pub proof fn lemma_name_round_trip(v: ContractCategory)
        ensures
            ContractCategory::spec_from_text(v.spec_name()) == Some(v),
    {
        reveal_strlit("ENS");
        assert("ENS"@.len() == 3 && "ENS"@[0] == 'E');
        reveal_strlit("ens");
        assert("ens"@.len() == 3 && "ens"@[0] == 'e');
        reveal_strlit("ERC721");
        assert("ERC721"@.len() == 6 && "ERC721"@[0] == 'E');
        reveal_strlit("erc721");
        assert("erc721"@.len() == 6 && "erc721"@[0] == 'e');
        reveal_strlit("ERC1155");
        assert("ERC1155"@.len() == 7 && "ERC1155"@[0] == 'E');
        reveal_strlit("erc1155");
        assert("erc1155"@.len() == 7 && "erc1155"@[0] == 'e');
        reveal_strlit("POAP");
        assert("POAP"@.len() == 4 && "POAP"@[0] == 'P');
        reveal_strlit("poap");
        assert("poap"@.len() == 4 && "poap"@[0] == 'p');
        reveal_strlit("unknown");
        assert("unknown"@.len() == 7 && "unknown"@[0] == 'u');
    }
}

impl Platform {
    /// Platforms on which the primary-domain flag of an identity means something.
    pub open spec fn spec_in_domain_systems(self) -> bool {
        self == Platform::Lens || self == Platform::Dotbit || self == Platform::UnstoppableDomains
            || self == Platform::SpaceId || self == Platform::Crossbell || self
            == Platform::Ethereum || self == Platform::ENS || self == Platform::Solana || self
            == Platform::SNS || self == Platform::Genome
    }

    /// Platforms whose identities are domains or handles that a wallet owns.
    pub open spec fn spec_is_ownable_domain(self) -> bool {
        self == Platform::Lens || self == Platform::Dotbit || self == Platform::UnstoppableDomains
            || self == Platform::Farcaster || self == Platform::SpaceId || self
            == Platform::Crossbell || self == Platform::ENS || self == Platform::SNS || self
            == Platform::Genome
    }

    /// Platforms whose names expire.
    pub open spec fn spec_has_expiry(self) -> bool {
        self == Platform::Dotbit || self == Platform::ENS || self == Platform::Genome
    }

    /// Whether the primary-domain flag means something on this platform.
    pub fn in_domain_systems(&self) -> (r: bool)
        ensures
            r == self.spec_in_domain_systems(),
    {
        match self {
            Platform::Lens
            | Platform::Dotbit
            | Platform::UnstoppableDomains
            | Platform::SpaceId
            | Platform::Crossbell
            | Platform::Ethereum
            | Platform::ENS
            | Platform::Solana
            | Platform::SNS
            | Platform::Genome => true,
            _ => false,
        }
    }

    /// Whether identities of this platform have an owning wallet.
    pub fn is_ownable_domain(&self) -> (r: bool)
        ensures
            r == self.spec_is_ownable_domain(),
    {
        match self {
            Platform::Lens
            | Platform::Dotbit
            | Platform::UnstoppableDomains
            | Platform::Farcaster
            | Platform::SpaceId
            | Platform::Crossbell
            | Platform::ENS
            | Platform::SNS
            | Platform::Genome => true,
            _ => false,
        }
    }

    /// Whether names of this platform expire.
    pub fn has_expiry(&self) -> (r: bool)
        ensures
            r == self.spec_has_expiry(),
    {
        match self {
            Platform::Dotbit | Platform::ENS | Platform::Genome => true,
            _ => false,
        }
    }
}

impl ContractCategory {
    /// The address of the one contract of a category that has one.
    pub open spec fn spec_default_contract_address(self) -> Option<Seq<char>> {
        match self {
            ContractCategory::ENS => Some("0x57f1887a8bf19b14fc0df6fd9b2acc9af147ea85"@),
            _ => None,
        }
    }

    /// The address of the category's contract: ENS has one registrar, the
    /// other categories have many contracts and so no default.
    pub fn default_contract_address(&self) -> (r: Option<String>)
        ensures
            match r {
                Some(a) => self.spec_default_contract_address() == Some(a@),
                None => self.spec_default_contract_address().is_none(),
            },
    {
        match self {
            ContractCategory::ENS => Some(
                String::from_str("0x57f1887a8bf19b14fc0df6fd9b2acc9af147ea85"),
            ),
            _ => None,
        }
    }
}

/// An identity as an upstream reports it, before it is stored.
#[derive(Debug)]
pub struct TempIdentity {
    /// Identifier generated for the record.
    pub uuid: u128,
    /// Platform of the account.
    pub platform: Platform,
    /// The account's key on the platform.
    pub identity: String,
    /// When the account was created on the platform, in Unix seconds.
    pub created_at: Option<i64>,
    /// Screen name.
    pub display_name: Option<String>,
}

/// A public key as an upstream reports it.
#[derive(Debug)]
pub struct TempCryptoIdentity {
    /// Identifier generated for the record.
    pub uuid: u128,
    /// The key, `0x` and hex digits, uncompressed.
    pub public_key: String,
    /// Signature algorithm.
    pub algorithm: Algorithm,
    /// Curve of the key.
    pub curve: Curve,
}

/// A proof as an upstream reports it.
#[derive(Debug)]
pub struct TempProof {
    /// Identifier generated for the record.
    pub uuid: u128,
    /// The source that witnessed the binding.
    pub method: DataSource,
    /// Where the source was read, usually a URL.
    pub upstream: Option<String>,
    /// The record's id at the source.
    pub record_id: Option<String>,
    /// When the source recorded the binding, in Unix seconds.
    pub created_at: Option<i64>,
    /// When the binding was last seen, in Unix seconds.
    pub last_verified_at: i64,
}

/// A serialised public key as an upstream reports it.
#[derive(Debug)]
pub struct TempPubkeySerialize {
    /// Identifier generated for the record.
    pub uuid: u128,
}

/// A complete binding: two identities and the proof that joins them.
#[derive(Debug)]
pub struct Connection {
    /// Where the binding starts.
    pub from: TempIdentity,
    /// Where it ends.
    pub to: TempIdentity,
    /// The proof.
    pub proof: TempProof,
}

impl TempIdentity {
    /// The identity to store for what an upstream reported, first seen and
    /// last fetched at `now`.
    pub fn to_identity(&self, now: i64) -> (r: Identity)
        ensures
            r@ == (IdentityView {
                uuid: Some(self.uuid),
                platform: self.platform,
                identity: self.identity@,
                uid: None,
                display_name: opt_text(self.display_name),
                profile_url: None,
                avatar_url: None,
                created_at: self.created_at,
                added_at: now,
                updated_at: now,
                expired_at: None,
                reverse: None,
            }),
    {
        Identity {
            uuid: Some(self.uuid),
            platform: self.platform,
            identity: self.identity.clone(),
            uid: None,
            display_name: copy_opt_text(&self.display_name),
            profile_url: None,
            avatar_url: None,
            created_at: self.created_at,
            added_at: now,
            updated_at: now,
            expired_at: None,
            reverse: None,
        }
    }
}

impl TempProof {
    /// The proof edge to store for what an upstream reported, extracted by
    /// this service.
    pub fn to_proof(&self) -> (r: Proof)
        ensures
            r.uuid == self.uuid,
            r.source == self.method,
            opt_text(r.record_id) == opt_text(self.record_id),
            r.created_at == self.created_at,
            r.updated_at == self.last_verified_at,
            r.fetcher == DataFetcher::RelationService,
    {
        Proof {
            uuid: self.uuid,
            source: self.method,
            record_id: copy_opt_text(&self.record_id),
            created_at: self.created_at,
            updated_at: self.last_verified_at,
            fetcher: DataFetcher::RelationService,
        }
    }
}

} // verus!
