//! Name resolution: the domain name systems, the resolve edge, its freshness,
//! and what a lookup by name answers with.

use crate::text::same_text;
use crate::tigergraph::edge::HoldRecord;
use crate::tigergraph::identity::IdentityRecord;
use crate::upstream::{DataFetcher, DataSource, Platform};
use vstd::prelude::*;
use vstd::std_specs::convert::FromSpecImpl;
use vstd::string::*;

verus! {

/// Seconds after which a resolve edge counts as outdated: one day.
pub const RESOLVE_TTL: i64 = 86400;

/// Domain name systems.
#[derive(Clone, Copy, Debug, PartialEq, Eq, Structural, Hash)]
pub enum DomainNameSystem {
    /// ENS, on Ethereum.
    ENS,
    /// .bit.
    DotBit,
    /// Lens.
    Lens,
    /// Unstoppable Domains.
    UnstoppableDomains,
    /// SPACE ID.
    SpaceId,
    /// Anything else.
    Unknown,
}

impl DomainNameSystem {
    /// The text form of the value.
    pub open spec fn spec_name(self) -> Seq<char> {
        match self {
            DomainNameSystem::ENS => "ENS"@,
            DomainNameSystem::DotBit => "dotbit"@,
            DomainNameSystem::Lens => "lens"@,
            DomainNameSystem::UnstoppableDomains => "unstoppabledomains"@,
            DomainNameSystem::SpaceId => "space_id"@,
            DomainNameSystem::Unknown => "unknown"@,
        }
    }

    /// The value that a text stands for: its text form, letter for letter.
    pub open spec fn spec_from_text(s: Seq<char>) -> Option<DomainNameSystem> {
        if s == "ENS"@ {
            Some(DomainNameSystem::ENS)
        } else if s == "dotbit"@ {
            Some(DomainNameSystem::DotBit)
        } else if s == "lens"@ {
            Some(DomainNameSystem::Lens)
        } else if s == "unstoppabledomains"@ {
            Some(DomainNameSystem::UnstoppableDomains)
        } else if s == "space_id"@ {
            Some(DomainNameSystem::SpaceId)
        } else if s == "unknown"@ {
            Some(DomainNameSystem::Unknown)
        } else {
            None
        }
    }

    /// All values, in declaration order.
    pub open spec fn spec_all() -> Seq<DomainNameSystem> {
        seq![DomainNameSystem::ENS, DomainNameSystem::DotBit, DomainNameSystem::Lens, DomainNameSystem::UnstoppableDomains, DomainNameSystem::SpaceId, DomainNameSystem::Unknown]
    }

    /// The text form of the value.
    pub fn name(&self) -> (s: &'static str)
        ensures
            s@ == self.spec_name(),
    {
        match self {
            DomainNameSystem::ENS => "ENS",
            DomainNameSystem::DotBit => "dotbit",
            DomainNameSystem::Lens => "lens",
            DomainNameSystem::UnstoppableDomains => "unstoppabledomains",
            DomainNameSystem::SpaceId => "space_id",
            DomainNameSystem::Unknown => "unknown",
        }
    }

    /// Reads a value from its text form; `None` where no value has that form.
    pub fn from_text(s: &str) -> (r: Option<DomainNameSystem>)
        ensures
            r == DomainNameSystem::spec_from_text(s@),
    {
        if same_text(s, "ENS") {
            Some(DomainNameSystem::ENS)
        } else if same_text(s, "dotbit") {
            Some(DomainNameSystem::DotBit)
        } else if same_text(s, "lens") {
            Some(DomainNameSystem::Lens)
        } else if same_text(s, "unstoppabledomains") {
            Some(DomainNameSystem::UnstoppableDomains)
        } else if same_text(s, "space_id") {
            Some(DomainNameSystem::SpaceId)
        } else if same_text(s, "unknown") {
            Some(DomainNameSystem::Unknown)
        } else {
            None
        }
    }

    /// All values, in declaration order.
    pub fn all() -> (r: Vec<DomainNameSystem>)
        ensures
            r@ == DomainNameSystem::spec_all(),
    {
        let r = vec![DomainNameSystem::ENS, DomainNameSystem::DotBit, DomainNameSystem::Lens, DomainNameSystem::UnstoppableDomains, DomainNameSystem::SpaceId, DomainNameSystem::Unknown];
        assert(r@ =~= DomainNameSystem::spec_all());
        r
    }

    /// Reading back the text form of a value gives that value.
    pub proof fn lemma_name_round_trip(v: DomainNameSystem)
        ensures
            DomainNameSystem::spec_from_text(v.spec_name()) == Some(v),
    {
        reveal_strlit("ENS");
        assert("ENS"@.len() == 3 && "ENS"@[0] == 'E');
        reveal_strlit("dotbit");
        assert("dotbit"@.len() == 6 && "dotbit"@[0] == 'd');
        reveal_strlit("lens");
        assert("lens"@.len() == 4 && "lens"@[0] == 'l');
        reveal_strlit("unstoppabledomains");
        assert("unstoppabledomains"@.len() == 18 && "unstoppabledomains"@[0] == 'u');
        reveal_strlit("space_id");
        assert("space_id"@.len() == 8 && "space_id"@[0] == 's');
        reveal_strlit("unknown");
        assert("unknown"@.len() == 7 && "unknown"@[0] == 'u');
    }
}

impl DomainNameSystem {
    /// The platform whose identities are the names of a system. ENS names
    /// are contracts, not identities, so ENS has no such platform.
    pub open spec fn spec_platform(self) -> Platform {
        match self {
            DomainNameSystem::DotBit => Platform::Dotbit,
            DomainNameSystem::UnstoppableDomains => Platform::UnstoppableDomains,
            DomainNameSystem::Lens => Platform::Lens,
            DomainNameSystem::SpaceId => Platform::SpaceId,
            _ => Platform::Unknown,
        }
    }
}

impl From<DomainNameSystem> for Platform {
    fn from(domain: DomainNameSystem) -> (platform: Platform) {
        match domain {
            DomainNameSystem::DotBit => Platform::Dotbit,
            DomainNameSystem::UnstoppableDomains => Platform::UnstoppableDomains,
            DomainNameSystem::Lens => Platform::Lens,
            DomainNameSystem::SpaceId => Platform::SpaceId,
            _ => Platform::Unknown,
        }
    }
}

impl FromSpecImpl<DomainNameSystem> for Platform {
    open spec fn obeys_from_spec() -> bool {
        true
    }

    open spec fn from_spec(domain: DomainNameSystem) -> Platform {
        domain.spec_platform()
    }
}

/// A name that resolves to an identity.
#[derive(Debug)]
pub struct Resolve {
    /// Identifier generated when the record is created.
    pub uuid: u128,
    /// The source of the claim.
    pub source: DataSource,
    /// The name system.
    pub system: DomainNameSystem,
    /// The name, such as `vitalik.eth`.
    pub name: String,
    /// Which service extracted the claim.
    pub fetcher: DataFetcher,
    /// When the claim was last fetched, in Unix seconds.
    pub updated_at: i64,
}

/// A resolve edge with the identities at its ends.
#[derive(Debug)]
pub struct ResolveEdge {
    pub record: Resolve,
    /// What the name resolves to.
    pub resolved: Option<IdentityRecord>,
    /// Who owns the name.
    pub owner: Option<IdentityRecord>,
}

/// A hold edge with the identity that holds.
#[derive(Debug)]
pub struct HoldEdge {
    pub record: HoldRecord,
    pub owner: Option<IdentityRecord>,
}

/// A stored resolve edge: the edge and the keys of its ends.
#[derive(Debug)]
pub struct ResolveRecord {
    pub from_id: String,
    pub to_id: String,
    pub attributes: Resolve,
}

impl Resolve {
    /// A resolve of an unknown system with an empty name, fetched at `now`.
    pub fn default_at(now: i64) -> (r: Resolve)
        ensures
            r.uuid == 0,
            r.source == DataSource::Unknown,
            r.system == DomainNameSystem::Unknown,
            r.name@ == Seq::<char>::empty(),
            r.fetcher == DataFetcher::RelationService,
            r.updated_at == now,
    {
        Resolve {
            uuid: 0,
            source: DataSource::Unknown,
            system: DomainNameSystem::Unknown,
            name: String::new(),
            fetcher: DataFetcher::RelationService,
            updated_at: now,
        }
    }

    /// The identifier of the edge.
    pub fn uuid(&self) -> (r: Option<u128>)
        ensures
            r == Some(self.uuid),
    {
        Some(self.uuid)
    }

    /// Outdated: more than a day has passed since the last fetch.
    pub open spec fn spec_is_outdated(&self, now: i64) -> bool {
        now - self.updated_at > RESOLVE_TTL
    }

    /// Whether the edge should be fetched again: more than a day has passed
    /// between its last fetch and `now`.
    pub fn is_outdated(&self, now: i64) -> (r: bool)
        ensures
            r == self.spec_is_outdated(now),
    {
        (now as i128) - (self.updated_at as i128) > (RESOLVE_TTL as i128)
    }

    /// The edge without the identities at its ends.
    pub fn into_edge(self) -> (edge: ResolveEdge)
        ensures
            edge.record == self,
            edge.resolved is None,
            edge.owner is None,
    {
        ResolveEdge { record: self, resolved: None, owner: None }
    }

    /// What a lookup by name and system answers with: the first of the
    /// edges that the store returned.
    pub fn find_by_name_system(found: Vec<ResolveRecord>) -> (r: Option<ResolveRecord>)
        ensures
            r == first_of(found@),
    {
        first_record(found)
    }

    /// What a lookup by identifier answers with: the first of the edges that
    /// the store returned.
    pub fn find_by_uuid(found: Vec<ResolveRecord>) -> (r: Option<ResolveRecord>)
        ensures
            r == first_of(found@),
    {
        first_record(found)
    }

    /// Connecting two vertices by this edge. `existing` are the edges that
    /// the store holds of the same ends, source, system and name: where
    /// there is one, that edge is kept; else this edge
    /// is to be stored between `from_id` and `to_id`. The second part of the
    /// result says whether the edge is new.
    pub fn connect(self, existing: Vec<ResolveRecord>, from_id: String, to_id: String) -> (r: (
        ResolveRecord,
        bool,
    ))
        ensures
            existing@.len() > 0 ==> r.0 == existing@[0] && !r.1,
            existing@.len() == 0 ==> r.0 == (ResolveRecord { from_id, to_id, attributes: self })
                && r.1,
    {
        match first_record(existing) {
            Some(kept) => (kept, false),
            None => (ResolveRecord { from_id, to_id, attributes: self }, true),
        }
    }

    /// What a lookup of an ENS name answers with. `resolves` are the resolve
    /// edges of the name with both ends, `holds` the hold edges of the name,
    /// which are asked for where there is no resolve edge. The first resolve
    /// edge wins; without one, the first hold edge is shown as a resolve edge
    /// of the name with its owner and nothing resolved; without either,
    /// nothing is found.
    pub fn find_by_ens_name(name: &str, resolves: Vec<ResolveEdge>, holds: Vec<HoldEdge>) -> (r:
        Option<ResolveEdge>)
        ensures
            resolves@.len() > 0 ==> r == Some(resolves@[0]),
            resolves@.len() == 0 && holds@.len() == 0 ==> r is None,
            resolves@.len() == 0 && holds@.len() > 0 ==> r is Some && r->0.owner
                == holds@[0].owner && r->0.resolved is None && r->0.record.uuid
                == holds@[0].record.attributes.uuid && r->0.record.source
                == holds@[0].record.attributes.source && r->0.record.system
                == DomainNameSystem::ENS && r->0.record.name@ == name@ && r->0.record.fetcher
                == holds@[0].record.attributes.fetcher && r->0.record.updated_at
                == holds@[0].record.attributes.updated_at,
    {
        let mut resolves = resolves;
        if resolves.len() > 0 {
            return Some(resolves.remove(0));
        }
        let mut holds = holds;
        if holds.len() > 0 {
            let first = holds.remove(0);
            Some(
                ResolveEdge {
                    record: Resolve {
                        uuid: first.record.attributes.uuid,
                        source: first.record.attributes.source,
                        system: DomainNameSystem::ENS,
                        name: name.to_owned(),
                        fetcher: first.record.attributes.fetcher,
                        updated_at: first.record.attributes.updated_at,
                    },
                    resolved: None,
                    owner: first.owner,
                },
            )
        } else {
            None
        }
    }

    /// What a lookup of a name of another system answers with. `resolves`
    /// are the resolve edges of the name, `holds` the hold edges of the
    /// identity of that name, which are asked for where there is no resolve
    /// edge. The first resolve edge wins; without one, the first hold edge is
    /// shown as a .bit resolve edge named after its owner, with nothing
    /// resolved; without either, or where that hold edge has no owner to
    /// name it after, nothing is found.
    pub fn find_by_domain_platform_name(resolves: Vec<ResolveEdge>, holds: Vec<HoldEdge>) -> (r:
        Option<ResolveEdge>)
        ensures
            resolves@.len() > 0 ==> r == Some(resolves@[0]),
            resolves@.len() == 0 && holds@.len() == 0 ==> r is None,
            resolves@.len() == 0 && holds@.len() > 0 && holds@[0].owner is None ==> r is None,
            resolves@.len() == 0 && holds@.len() > 0 && holds@[0].owner is Some ==> r is Some
                && r->0.owner
                == holds@[0].owner && r->0.resolved is None && r->0.record.uuid
                == holds@[0].record.attributes.uuid && r->0.record.source
                == holds@[0].record.attributes.source && r->0.record.system
                == DomainNameSystem::DotBit && r->0.record.name@
                == holds@[0].owner->0.attributes.identity@ && r->0.record.fetcher
                == holds@[0].record.attributes.fetcher && r->0.record.updated_at
                == holds@[0].record.attributes.updated_at,
    {
        let mut resolves = resolves;
        if resolves.len() > 0 {
            return Some(resolves.remove(0));
        }
        let mut holds = holds;
        if holds.len() > 0 {
            let first = holds.remove(0);
            let name = match &first.owner {
                Some(owner) => owner.attributes.identity.clone(),
                None => {
                    return None;
                },
            };
            Some(
                ResolveEdge {
                    record: Resolve {
                        uuid: first.record.attributes.uuid,
                        source: first.record.attributes.source,
                        system: DomainNameSystem::DotBit,
                        name,
                        fetcher: first.record.attributes.fetcher,
                        updated_at: first.record.attributes.updated_at,
                    },
                    resolved: None,
                    owner: first.owner,
                },
            )
        } else {
            None
        }
    }
}

/// The first of a list of stored edges.
pub open spec fn first_of(found: Seq<ResolveRecord>) -> Option<ResolveRecord> {
    if found.len() > 0 {
        Some(found[0])
    } else {
        None
    }
}

fn first_record(found: Vec<ResolveRecord>) -> (r: Option<ResolveRecord>)
    ensures
        r == first_of(found@),
{
    let mut found = found;
    if found.len() > 0 {
        Some(found.remove(0))
    } else {
        None
    }
}

} // verus!
