//! The queries by name and the queries on identities of one or several
//! platforms: what each does after its lookup.

use crate::controller::{
    is_first_unknown_platform, vec_string_to_vec_platform, ReadPlan, REFRESH_DELAY,
};
use crate::error::Error;
use crate::graph::resolve::{DomainNameSystem, ResolveEdge};
use crate::tigergraph::identity::IdentityRecord;
use crate::upstream::dispatch::{keys, DEFAULT_DEPTH};
use crate::upstream::target::{Target, TargetKey};
use crate::upstream::{Chain, ContractCategory, DataSource, Platform};
use vstd::prelude::*;
use vstd::string::*;

verus! {

/// The queries on identities.
#[derive(Clone, Copy, Debug, Default)]
pub struct IdentityQuery;

/// The queries by name.
#[derive(Clone, Copy, Debug, Default)]
pub struct ResolveQuery {}

/// One background refresh: the vertex to delete with its edges, and the
/// target to fetch afterwards.
#[derive(Debug)]
pub struct Refresh {
    pub delete: String,
    pub target: Target,
}

/// What a read of one identity on several platforms does after it has looked
/// the records up. Each platform is treated by itself: one without a record
/// is fetched now, one with an outdated record is refreshed in the
/// background, one with a fresh record needs nothing.
#[derive(Debug)]
pub struct BatchPlan {
    /// The records that the lookup found. They are the answer where nothing
    /// is fetched now; else the answer is a second lookup after the fetch.
    pub records: Vec<IdentityRecord>,
    /// The targets to fetch now: the platforms without a record.
    pub cold: Vec<Target>,
    /// The refreshes to run in the background, after `delay` seconds: the
    /// records that are outdated.
    pub refresh: Vec<Refresh>,
    /// Seconds that the background refreshes wait.
    pub delay: u64,
    /// The depth of every fetch.
    pub depth: u32,
}

/// The target of an ENS name: the NFT of that name at the ENS registrar.
pub open spec fn ens_target(name: Seq<char>) -> TargetKey {
    TargetKey::NFT(
        Chain::Ethereum,
        ContractCategory::ENS,
        ContractCategory::ENS.spec_default_contract_address()->0,
        name,
    )
}

/// The key of the vertex of a name on its platform: platform name, a comma,
/// the name.
pub open spec fn name_key(platform: Platform, name: Seq<char>) -> Seq<char> {
    platform.spec_name() + seq![','] + name
}

/// The platforms that a list of texts stands for.
pub open spec fn platforms_of(texts: Seq<String>) -> Seq<Platform> {
    texts.map_values(|t: String| Platform::spec_from_text(t@)->0)
}

/// Whether the lookup found a record on the platform.
pub open spec fn has_record(found: Seq<IdentityRecord>, platform: Platform) -> bool {
    exists|i: int| 0 <= i < found.len() && (#[trigger] found[i]).attributes.platform == platform
}

/// The identity targets of the platforms on which the lookup found no
/// record, in the order of the platforms.
pub open spec fn missing_targets(
    platforms: Seq<Platform>,
    found: Seq<IdentityRecord>,
    identity: Seq<char>,
) -> Seq<TargetKey>
    decreases platforms.len(),
{
    if platforms.len() == 0 {
        Seq::<TargetKey>::empty()
    } else {
        let head = missing_targets(platforms.drop_last(), found, identity);
        if has_record(found, platforms.last()) {
            head
        } else {
            head.push(TargetKey::Identity(platforms.last(), identity))
        }
    }
}

/// The refreshes of the records that are outdated at `now`, in order: each
/// deletes the record's vertex and fetches the record's identity.
pub open spec fn outdated_refreshes(records: Seq<IdentityRecord>, now: i64) -> Seq<
    (Seq<char>, TargetKey),
>
    decreases records.len(),
{
    if records.len() == 0 {
        Seq::<(Seq<char>, TargetKey)>::empty()
    } else {
        let head = outdated_refreshes(records.drop_last(), now);
        let last = records.last();
        if last@.attributes.is_outdated(now) {
            head.push(
                (
                    last.v_id@,
                    TargetKey::Identity(last.attributes.platform, last.attributes.identity@),
                ),
            )
        } else {
            head
        }
    }
}

/// A list of refreshes as plain values.
pub open spec fn refresh_views(list: Seq<Refresh>) -> Seq<(Seq<char>, TargetKey)> {
    list.map_values(|r: Refresh| (r.delete@, r.target@))
}

fn one_target(target: Target) -> (targets: Vec<Target>)
    ensures
        keys(targets@) == seq![target@],
{
    let mut targets: Vec<Target> = Vec::new();
    targets.push(target);
    assert(keys(targets@) =~= seq![target@]);
    targets
}

fn name_vertex(platform: Platform, name: &str) -> (key: String)
    ensures
        key@ == name_key(platform, name@),
{
    proof {
        reveal_strlit(",");
    }
    let mut key = String::from_str(platform.name());
    key.append(",");
    key.append(name);
    assert(key@ =~= name_key(platform, name@));
    key
}

/// Whether the lookup found a record on the platform.
pub fn found_on(found: &Vec<IdentityRecord>, platform: Platform) -> (r: bool)
    ensures
        r == has_record(found@, platform),
{
    let mut i: usize = 0;
    while i < found.len()
        invariant
            i <= found.len(),
            forall|j: int| 0 <= j < i ==> (#[trigger] found@[j]).attributes.platform != platform,
        decreases found.len() - i,
    {
        if found[i].attributes.platform == platform {
            return true;
        }
        i += 1;
    }
    false
}

impl IdentityQuery {
    /// All platforms that the service knows.
    pub fn available_platforms(&self) -> (r: Vec<Platform>)
        ensures
            r@ == Platform::spec_all(),
    {
        Platform::all()
    }

    /// All sources that the service knows.
    pub fn available_upstreams(&self) -> (r: Vec<DataSource>)
        ensures
            r@ == DataSource::spec_all(),
    {
        DataSource::all()
    }

    /// The read policy of a query for an identity, after the lookup. Nothing
    /// found: fetch the identity now, three layers deep, and look again.
    /// Found but outdated at `now`: answer with the record, and in the
    /// background wait ten seconds, delete the vertex with its edges and
    /// fetch the identity. Found and fresh: answer with the record.
    pub fn identity(
        &self,
        found: Option<IdentityRecord>,
        platform: Platform,
        identity: &str,
        now: i64,
    ) -> (plan: ReadPlan<IdentityRecord>)
        ensures
            found is None ==> plan is ColdFetch && keys(plan->ColdFetch_targets@) == seq![
                TargetKey::Identity(platform, identity@),
            ] && plan->ColdFetch_depth == DEFAULT_DEPTH,
            found is Some && found->0@.attributes.is_outdated(now) ==> plan is ServeStale
                && plan->ServeStale_record == found->0 && plan->ServeStale_delay == REFRESH_DELAY
                && plan->ServeStale_delete@ == found->0.v_id@
                && keys(plan->ServeStale_targets@) == seq![
                TargetKey::Identity(platform, identity@),
            ] && plan->ServeStale_depth == DEFAULT_DEPTH,
            found is Some && !found->0@.attributes.is_outdated(now) ==> plan is Serve
                && plan->Serve_record == found->0,
    {
        let targets = one_target(Target::Identity(platform, identity.to_owned()));
        match found {
            None => ReadPlan::ColdFetch { targets, depth: DEFAULT_DEPTH },
            Some(record) => {
                if record.attributes.is_outdated(now) {
                    let delete = record.v_id.clone();
                    ReadPlan::ServeStale {
                        record,
                        delay: REFRESH_DELAY,
                        delete,
                        targets,
                        depth: DEFAULT_DEPTH,
                    }
                } else {
                    ReadPlan::Serve { record }
                }
            },
        }
    }

    /// The read policy of a query for one identity on several platforms,
    /// after the lookup. The platforms are read from their text forms; one
    /// that is no platform is a parameter error. Else the policy is applied
    /// platform by platform: the identity is fetched now, three layers deep,
    /// on every platform without a record; every record that is outdated at
    /// `now` is refreshed in the background, after ten seconds, by deleting
    /// its vertex and fetching its identity; a fresh record needs nothing.
    pub fn identities(
        &self,
        platforms: &Vec<String>,
        identity: &str,
        found: Vec<IdentityRecord>,
        now: i64,
    ) -> (r: Result<BatchPlan, Error>)
        ensures
            match r {
                Err(e) => e is ParamError && exists|i: int|
                    #[trigger] is_first_unknown_platform(platforms@, i) && e->ParamError_0@
                        == "Unknown platform: "@ + platforms@[i]@,
                Ok(plan) => {
                    &&& forall|i: int|
                        0 <= i < platforms@.len() ==> Platform::spec_from_text(
                            #[trigger] platforms@[i]@,
                        ) is Some
                    &&& plan.records == found
                    &&& keys(plan.cold@) == missing_targets(
                        platforms_of(platforms@),
                        found@,
                        identity@,
                    )
                    &&& refresh_views(plan.refresh@) == outdated_refreshes(found@, now)
                    &&& plan.delay == REFRESH_DELAY
                    &&& plan.depth == DEFAULT_DEPTH
                },
            },
    {
        let list = match vec_string_to_vec_platform(platforms) {
            Ok(list) => list,
            Err(e) => {
                return Err(e);
            },
        };
        assert forall|i: int| 0 <= i < platforms@.len() implies Platform::spec_from_text(
            #[trigger] platforms@[i]@,
        ) == Some(list@[i]) by {
            assert(Platform::spec_from_text(platforms@[i]@) == Some(list@[i]));
        }
        assert(list@ =~= platforms_of(platforms@));
        let mut cold: Vec<Target> = Vec::new();
        let mut i: usize = 0;
        assert(list@.take(0) =~= Seq::<Platform>::empty());
        assert(keys(cold@) =~= missing_targets(list@.take(0), found@, identity@));
        while i < list.len()
            invariant
                i <= list.len(),
                keys(cold@) == missing_targets(list@.take(i as int), found@, identity@),
            decreases list.len() - i,
        {
            let ghost before = keys(cold@);
            proof {
                assert(list@.take(i + 1).drop_last() =~= list@.take(i as int));
            }
            if !found_on(&found, list[i]) {
                cold.push(Target::Identity(list[i], identity.to_owned()));
                assert(keys(cold@) =~= before.push(
                    TargetKey::Identity(list@[i as int], identity@),
                ));
            }
            i += 1;
        }
        assert(list@.take(list@.len() as int) =~= list@);
        let mut refresh: Vec<Refresh> = Vec::new();
        let mut i: usize = 0;
        assert(found@.take(0) =~= Seq::<IdentityRecord>::empty());
        assert(refresh_views(refresh@) =~= outdated_refreshes(found@.take(0), now));
        while i < found.len()
            invariant
                i <= found.len(),
                refresh_views(refresh@) == outdated_refreshes(found@.take(i as int), now),
            decreases found.len() - i,
        {
            let ghost before = refresh_views(refresh@);
            proof {
                assert(found@.take(i + 1).drop_last() =~= found@.take(i as int));
            }
            if found[i].attributes.is_outdated(now) {
                refresh.push(
                    Refresh {
                        delete: found[i].v_id.clone(),
                        target: Target::Identity(
                            found[i].attributes.platform,
                            found[i].attributes.identity.clone(),
                        ),
                    },
                );
                assert(refresh_views(refresh@) =~= before.push(
                    (
                        found@[i as int].v_id@,
                        TargetKey::Identity(
                            found@[i as int].attributes.platform,
                            found@[i as int].attributes.identity@,
                        ),
                    ),
                ));
            }
            i += 1;
        }
        assert(found@.take(found@.len() as int) =~= found@);
        Ok(BatchPlan { records: found, cold, refresh, delay: REFRESH_DELAY, depth: DEFAULT_DEPTH })
    }
}

impl ResolveEdge {
    /// What the name resolves to; an error of the query layer where the
    /// store knows nothing.
    pub fn resolved(self) -> (r: Result<IdentityRecord, Error>)
        ensures
            self.resolved is Some ==> r is Ok && r->Ok_0 == self.resolved->0,
            self.resolved is None ==> r is Err && r->Err_0 is GraphQLError
                && r->Err_0->GraphQLError_0@ == "resolved no found."@,
    {
        match self.resolved {
            Some(resolved) => Ok(resolved),
            None => Err(Error::GraphQLError(String::from_str("resolved no found."))),
        }
    }

    /// Who owns the name; an error of the query layer where the store knows
    /// nothing.
    pub fn owner(self) -> (r: Result<IdentityRecord, Error>)
        ensures
            self.owner is Some ==> r is Ok && r->Ok_0 == self.owner->0,
            self.owner is None ==> r is Err && r->Err_0 is GraphQLError
                && r->Err_0->GraphQLError_0@ == "owner no found."@,
    {
        match self.owner {
            Some(owner) => Ok(owner),
            None => Err(Error::GraphQLError(String::from_str("owner no found."))),
        }
    }
}

impl ResolveQuery {
    /// The names of all name systems that the service knows.
    pub fn available_name_system(&self) -> (names: Vec<String>)
        ensures
            names@.len() == DomainNameSystem::spec_all().len(),
            forall|i: int|
                0 <= i < names@.len() ==> (#[trigger] names@[i])@
                    == DomainNameSystem::spec_all()[i].spec_name(),
    {
        let all = DomainNameSystem::all();
        let mut names: Vec<String> = Vec::new();
        let mut i: usize = 0;
        while i < all.len()
            invariant
                i <= all.len(),
                all@ == DomainNameSystem::spec_all(),
                names@.len() == i,
                forall|j: int| 0 <= j < i ==> (#[trigger] names@[j])@ == all@[j].spec_name(),
            decreases all.len() - i,
        {
            names.push(String::from_str(all[i].name()));
            i += 1;
        }
        names
    }

    /// The read policy of a query for an ENS name, after the lookup. Nothing
    /// found: fetch the name now, three layers deep, and look again. Found
    /// but outdated at `now`: answer with it, and in the background wait ten
    /// seconds, delete the vertex of the name with its edges and fetch the
    /// name. Found and fresh: answer with it.
    pub fn ens(&self, found: Option<ResolveEdge>, name: &str, now: i64) -> (plan: ReadPlan<
        ResolveEdge,
    >)
        ensures
            found is None ==> plan is ColdFetch && keys(plan->ColdFetch_targets@) == seq![
                ens_target(name@),
            ] && plan->ColdFetch_depth == DEFAULT_DEPTH,
            found is Some && found->0.record.spec_is_outdated(now) ==> plan is ServeStale
                && plan->ServeStale_record == found->0 && plan->ServeStale_delay == REFRESH_DELAY
                && plan->ServeStale_delete@ == name_key(
                Platform::ENS,
                name@,
            ) && keys(plan->ServeStale_targets@) == seq![ens_target(name@)]
                && plan->ServeStale_depth == DEFAULT_DEPTH,
            found is Some && !found->0.record.spec_is_outdated(now) ==> plan is Serve
                && plan->Serve_record == found->0,
    {
        let address = match ContractCategory::ENS.default_contract_address() {
            Some(a) => a,
            None => String::new(),
        };
        let targets = one_target(
            Target::NFT(Chain::Ethereum, ContractCategory::ENS, address, name.to_owned()),
        );
        ResolveQuery::plan(found, targets, name_vertex(Platform::ENS, name), now)
    }

    /// The read policy of a query for a .bit name, after the lookup: as for
    /// an ENS name, with the .bit identity of that name as target.
    pub fn dotbit(&self, found: Option<ResolveEdge>, name: &str, now: i64) -> (plan: ReadPlan<
        ResolveEdge,
    >)
        ensures
            found is None ==> plan is ColdFetch && keys(plan->ColdFetch_targets@) == seq![
                TargetKey::Identity(Platform::Dotbit, name@),
            ] && plan->ColdFetch_depth == DEFAULT_DEPTH,
            found is Some && found->0.record.spec_is_outdated(now) ==> plan is ServeStale
                && plan->ServeStale_record == found->0 && plan->ServeStale_delay == REFRESH_DELAY
                && plan->ServeStale_delete@ == name_key(
                Platform::Dotbit,
                name@,
            ) && keys(plan->ServeStale_targets@) == seq![
                TargetKey::Identity(Platform::Dotbit, name@),
            ] && plan->ServeStale_depth == DEFAULT_DEPTH,
            found is Some && !found->0.record.spec_is_outdated(now) ==> plan is Serve
                && plan->Serve_record == found->0,
    {
        let targets = one_target(Target::Identity(Platform::Dotbit, name.to_owned()));
        ResolveQuery::plan(found, targets, name_vertex(Platform::Dotbit, name), now)
    }

    fn plan(found: Option<ResolveEdge>, targets: Vec<Target>, vertex: String, now: i64) -> (plan:
        ReadPlan<ResolveEdge>)
        ensures
            found is None ==> plan is ColdFetch && plan->ColdFetch_targets == targets
                && plan->ColdFetch_depth == DEFAULT_DEPTH,
            found is Some && found->0.record.spec_is_outdated(now) ==> plan is ServeStale
                && plan->ServeStale_record == found->0 && plan->ServeStale_delay == REFRESH_DELAY
                && plan->ServeStale_delete == vertex && plan->ServeStale_targets == targets
                && plan->ServeStale_depth == DEFAULT_DEPTH,
            found is Some && !found->0.record.spec_is_outdated(now) ==> plan is Serve
                && plan->Serve_record == found->0,
    {
        match found {
            None => ReadPlan::ColdFetch { targets, depth: DEFAULT_DEPTH },
            Some(record) => {
                if record.record.is_outdated(now) {
                    ReadPlan::ServeStale {
                        record,
                        delay: REFRESH_DELAY,
                        delete: vertex,
                        targets,
                        depth: DEFAULT_DEPTH,
                    }
                } else {
                    ReadPlan::Serve { record }
                }
            },
        }
    }
}

} // verus!
