//! The store's queries: the text of each request and what is read from each
//! response.

use crate::error::Error;
use crate::graph::resolve::ResolveRecord;
use crate::outside::{uri_accepts, uuid_text, uuid_text_of};
use crate::text::{decimal, push_decimal};
use crate::tigergraph::edge::{EdgeUnion, HoldRecord, ResolveReverse};
use crate::tigergraph::identity::{
    attribute_views, Identity, IdentityAttribute, IdentityRecord, IdentityRecordView,
};
use crate::tigergraph::{
    checked_uri, checked_uri_as, is_checked_as, take_first, uri_error_prefix, BaseResponse,
    Endpoint,
};
use crate::upstream::{ContractCategory, DataSource, Platform};
use vstd::prelude::*;
use vstd::string::*;

verus! {

/// An identity that a traversal reached, the sources of the edges that led
/// to it, and whether it is a primary domain.
#[derive(Debug)]
pub struct IdentityWithSource {
    pub identity: IdentityRecord,
    pub sources: Vec<DataSource>,
    pub reverse: Option<bool>,
}

/// A reached identity as a plain value.
pub struct IdentityWithSourceView {
    pub identity: IdentityRecordView,
    pub sources: Seq<DataSource>,
    pub reverse: Option<bool>,
}

impl View for IdentityWithSource {
    type V = IdentityWithSourceView;

    open spec fn view(&self) -> IdentityWithSourceView {
        IdentityWithSourceView {
            identity: self.identity@,
            sources: self.sources@,
            reverse: self.reverse,
        }
    }
}

/// One batch of reached identities.
#[derive(Debug)]
pub struct VertexWithSource {
    pub vertices: Vec<IdentityWithSource>,
}

/// The response of the neighbour traversal.
#[derive(Debug)]
pub struct NeighborsWithSource {
    pub base: BaseResponse,
    pub results: Option<Vec<VertexWithSource>>,
}

/// One batch of edges.
#[derive(Debug)]
pub struct EdgeUnions {
    pub edges: Vec<EdgeUnion>,
}

/// The response of the traversal that returns edges.
#[derive(Debug)]
pub struct NeighborsResponse {
    pub base: BaseResponse,
    pub results: Option<Vec<EdgeUnions>>,
}

/// One batch of primary-domain edges.
#[derive(Debug)]
pub struct ReverseRecords {
    pub reverse_records: Vec<ResolveRecord>,
}

/// The response of the primary-domain query.
#[derive(Debug)]
pub struct ReverseDomainsResponse {
    pub base: BaseResponse,
    pub results: Option<Vec<ReverseRecords>>,
}

/// One batch of owners.
#[derive(Debug)]
pub struct Owner {
    pub owner: Vec<IdentityRecord>,
}

/// The response of the owner query.
#[derive(Debug)]
pub struct OwnedByResponse {
    pub base: BaseResponse,
    pub results: Option<Vec<Owner>>,
}

/// One batch of hold edges.
#[derive(Debug)]
pub struct Nfts {
    pub edges: Vec<HoldRecord>,
}

/// The response of the NFT query.
#[derive(Debug)]
pub struct QueryNftsResponse {
    pub base: BaseResponse,
    pub results: Option<Vec<Nfts>>,
}

/// One batch of identities.
#[derive(Debug)]
pub struct Identities {
    pub vertices: Vec<IdentityRecord>,
}

/// The response of the query by source.
#[derive(Debug)]
pub struct IdentityBySourceResponse {
    pub base: BaseResponse,
    pub results: Option<Vec<Identities>>,
}

/// The response of a vertex lookup.
#[derive(Debug)]
pub struct VertexResponse {
    pub base: BaseResponse,
    pub results: Option<Vec<IdentityRecord>>,
}

/// The number that the store takes for a traversal filter: 0 for none, 1 for
/// primary domains only, 2 for all but primary domains.
pub open spec fn reverse_flag(reverse: Option<bool>) -> nat {
    match reverse {
        None => 0,
        Some(true) => 1,
        Some(false) => 2,
    }
}

/// Whether `r` is the outcome of checking a request text: the text where it
/// is a URI, a parameter error where it is not.
pub open spec fn is_checked(r: Result<String, Error>, text: Seq<char>) -> bool {
    is_checked_as(r, text, uri_error_prefix())
}

/// How the message of a refused lookup by platform and identity begins.
pub open spec fn by_platform_identity_error_prefix(platform: Platform, identity: Seq<char>)
    -> Seq<char> {
    "QUERY filter=platform=%22"@ + platform.spec_name() + "%22,identity=%22"@ + identity
        + "%22 Uri format Error | "@
}

/// How the message of a refused traversal that returns edges begins.
pub open spec fn traversal_error_prefix(v_id: Seq<char>, depth: u16) -> Seq<char> {
    "QUERY neighbors_with_traversal("@ + v_id + ","@ + decimal(depth as nat)
        + ") Uri format Error "@
}

/// The page that holds the record at `offset`, pages of `limit` records
/// counted from zero; the first page where a page holds nothing.
pub open spec fn page_of(limit: u16, offset: u16) -> nat {
    if limit == 0 {
        0
    } else {
        (offset / limit) as nat
    }
}

/// The address of a named query of the graph.
pub open spec fn query_address(host: Seq<char>, graph: Seq<char>, name: Seq<char>) -> Seq<char> {
    host + "/query/"@ + graph + "/"@ + name
}

/// The address of the vertices of the graph, up to the filter.
pub open spec fn vertices_address(host: Seq<char>, graph: Seq<char>) -> Seq<char> {
    host + "/graph/"@ + graph + "/vertices/"@ + crate::tigergraph::VERTEX_NAME@ + "?filter="@
}

/// The request of the neighbour traversal.
pub open spec fn neighbors_text(
    host: Seq<char>,
    graph: Seq<char>,
    v_id: Seq<char>,
    depth: u16,
    reverse: Option<bool>,
) -> Seq<char> {
    query_address(host, graph, "neighbors_with_source_reverse"@) + "?p="@ + v_id + "&depth="@
        + decimal(depth as nat) + "&reverse_flag="@ + decimal(reverse_flag(reverse))
}

/// The request of the traversal that returns edges.
pub open spec fn traversal_text(host: Seq<char>, graph: Seq<char>, v_id: Seq<char>, depth: u16)
    -> Seq<char> {
    query_address(host, graph, "neighbors"@) + "?p="@ + v_id + "&depth="@ + decimal(depth as nat)
}

/// The request of the query by source.
pub open spec fn by_source_text(
    host: Seq<char>,
    graph: Seq<char>,
    v_id: Seq<char>,
    source: DataSource,
) -> Seq<char> {
    query_address(host, graph, "identity_by_source"@) + "?p="@ + v_id + "&source="@
        + source.spec_name()
}

/// The request of the primary-domain query.
pub open spec fn reverse_domains_text(host: Seq<char>, graph: Seq<char>, v_id: Seq<char>) -> Seq<
    char,
> {
    query_address(host, graph, "reverse_domains"@) + "?p="@ + v_id
}

/// The request of the owner query.
pub open spec fn owned_by_text(
    host: Seq<char>,
    graph: Seq<char>,
    v_id: Seq<char>,
    platform: Platform,
) -> Seq<char> {
    query_address(host, graph, "identity_owned_by"@) + "?p="@ + v_id + "&platform="@
        + platform.spec_name()
}

/// The category parameters of the NFT query, each followed by `&`.
pub open spec fn categories_text(categories: Seq<ContractCategory>) -> Seq<char>
    decreases categories.len(),
{
    if categories.len() == 0 {
        Seq::<char>::empty()
    } else {
        categories_text(categories.drop_last()) + "categories="@ + categories.last().spec_name()
            + "&"@
    }
}

/// The request of the NFT query: the categories where some are given, then
/// the page size and the page that holds the record at `offset`.
pub open spec fn nfts_text(
    host: Seq<char>,
    graph: Seq<char>,
    v_id: Seq<char>,
    categories: Seq<ContractCategory>,
    limit: u16,
    offset: u16,
) -> Seq<char> {
    query_address(host, graph, "nfts"@) + "?p="@ + v_id + "&"@ + categories_text(categories)
        + "numPerPage="@ + decimal(limit as nat) + "&pageNum="@ + decimal(page_of(limit, offset))
}

/// The request of the lookup by identifier.
pub open spec fn by_uuid_text(host: Seq<char>, graph: Seq<char>, uuid: u128) -> Seq<char> {
    vertices_address(host, graph) + "uuid=%22"@ + uuid_text_of(uuid) + "%22"@
}

/// The request of the lookup by platform and identity.
pub open spec fn by_platform_identity_text(
    host: Seq<char>,
    graph: Seq<char>,
    platform: Platform,
    identity: Seq<char>,
) -> Seq<char> {
    vertices_address(host, graph) + "platform=%22"@ + platform.spec_name() + "%22,identity=%22"@
        + identity + "%22"@
}

/// The request of the batch lookup by key.
pub open spec fn by_ids_text(host: Seq<char>, graph: Seq<char>) -> Seq<char> {
    query_address(host, graph, "identities_by_ids"@)
}

impl Endpoint {
    /// The address of a named query of the graph.
    pub fn query_address(&self, name: &str) -> (text: String)
        ensures
            text@ == query_address(self.host@, self.graph@, name@),
    {
        let mut text = self.host.clone();
        text.append("/query/");
        text.append(self.graph.as_str());
        text.append("/");
        text.append(name);
        text
    }

    /// The address of the vertices of the graph, up to the filter.
    pub fn vertices_address(&self) -> (text: String)
        ensures
            text@ == vertices_address(self.host@, self.graph@),
    {
        let mut text = self.host.clone();
        text.append("/graph/");
        text.append(self.graph.as_str());
        text.append("/vertices/");
        text.append(crate::tigergraph::VERTEX_NAME);
        text.append("?filter=");
        text
    }

    /// The request of the batch lookup by key; the keys go in its body.
    pub fn identities_by_ids_request(&self) -> (r: Result<String, Error>)
        ensures
            is_checked(r, by_ids_text(self.host@, self.graph@)),
    {
        checked_uri(self.query_address("identities_by_ids"))
    }
}

/// The views of a list of reached identities.
pub open spec fn reached_views(list: Seq<IdentityWithSource>) -> Seq<IdentityWithSourceView> {
    list.map_values(|x: IdentityWithSource| x@)
}

/// The first batch of a traversal's results; empty where there is none.
pub open spec fn first_vertices(results: Option<Vec<VertexWithSource>>) -> Seq<
    IdentityWithSource,
> {
    match results {
        Some(batches) => if batches@.len() > 0 {
            batches@[0].vertices@
        } else {
            Seq::<IdentityWithSource>::empty()
        },
        None => Seq::<IdentityWithSource>::empty(),
    }
}

/// A copy of a list of sources.
pub fn copy_sources(list: &Vec<DataSource>) -> (r: Vec<DataSource>)
    ensures
        r@ == list@,
{
    let mut r: Vec<DataSource> = Vec::new();
    let mut i: usize = 0;
    while i < list.len()
        invariant
            i <= list.len(),
            r@ == list@.take(i as int),
        decreases list.len() - i,
    {
        r.push(list[i]);
        assert(r@ =~= list@.take(i + 1));
        i += 1;
    }
    assert(list@.take(list@.len() as int) =~= list@);
    r
}

/// Whether the text at `i` is the first that is no source.
pub open spec fn is_first_unknown_source(texts: Seq<String>, i: int) -> bool {
    &&& 0 <= i < texts.len()
    &&& DataSource::spec_from_text(texts[i]@) is None
    &&& forall|j: int| 0 <= j < i ==> DataSource::spec_from_text(#[trigger] texts[j]@) is Some
}

/// Reads a list of sources from their text forms. Fails with a parameter
/// error exactly where one of the texts is no source.
pub fn vec_string_to_vec_datasource(texts: &Vec<String>) -> (r: Result<Vec<DataSource>, Error>)
    ensures
        match r {
            Ok(list) => list@.len() == texts@.len() && forall|i: int|
                0 <= i < texts@.len() ==> DataSource::spec_from_text(texts@[i]@) == Some(
                    #[trigger] list@[i],
                ),
            Err(e) => e is ParamError && exists|i: int|
                #[trigger] is_first_unknown_source(texts@, i) && e->ParamError_0@
                    == "Unknown data source: "@ + texts@[i]@,
        },
{
    let mut list: Vec<DataSource> = Vec::new();
    let mut i: usize = 0;
    while i < texts.len()
        invariant
            i <= texts.len(),
            list@.len() == i,
            forall|j: int|
                0 <= j < i ==> DataSource::spec_from_text(texts@[j]@) == Some(
                    #[trigger] list@[j],
                ),
        decreases texts.len() - i,
    {
        match DataSource::from_text(texts[i].as_str()) {
            Some(source) => {
                list.push(source);
            },
            None => {
                assert forall|j: int| 0 <= j < i implies DataSource::spec_from_text(
                    #[trigger] texts@[j]@,
                ) is Some by {
                    assert(DataSource::spec_from_text(texts@[j]@) == Some(list@[j]));
                }
                let mut message = String::from_str("Unknown data source: ");
                message.append(texts[i].as_str());
                assert(is_first_unknown_source(texts@, i as int));
                return Err(Error::ParamError(message));
            },
        }
        i += 1;
    }
    Ok(list)
}

impl IdentityWithSource {
    /// A reached identity from the parts of its stored form. The sources are
    /// read from their text forms, and the primary-domain flag is kept only
    /// on the platforms where it means something. Fails exactly where one of
    /// the texts is no source.
    pub fn from_parts(
        v_type: String,
        v_id: String,
        attributes: Identity,
        source_list: &Vec<String>,
        domain_reverse: Option<bool>,
    ) -> (r: Result<IdentityWithSource, Error>)
        ensures
            match r {
                Ok(found) => found.identity.v_type == v_type && found.identity.v_id == v_id
                    && found.identity.attributes == attributes && found.sources@.len()
                    == source_list@.len() && (forall|i: int|
                    0 <= i < source_list@.len() ==> DataSource::spec_from_text(source_list@[i]@)
                        == Some(#[trigger] found.sources@[i])) && found.reverse == (
                if attributes.platform.spec_in_domain_systems() {
                    domain_reverse
                } else {
                    None
                }),
                Err(e) => e is ParamError && exists|i: int|
                    #[trigger] is_first_unknown_source(source_list@, i) && e->ParamError_0@
                        == "Unknown data source: "@ + source_list@[i]@,
            },
    {
        match vec_string_to_vec_datasource(source_list) {
            Ok(sources) => {
                let reverse = if attributes.platform.in_domain_systems() {
                    domain_reverse
                } else {
                    None
                };
                Ok(
                    IdentityWithSource {
                        identity: IdentityRecord { v_type, v_id, attributes },
                        sources,
                        reverse,
                    },
                )
            },
            Err(e) => Err(e),
        }
    }

    /// A copy of the reached identity.
    pub fn duplicate(&self) -> (r: IdentityWithSource)
        ensures
            r@ == self@,
    {
        IdentityWithSource {
            identity: self.identity.duplicate(),
            sources: copy_sources(&self.sources),
            reverse: self.reverse,
        }
    }
}

/// The first batch of edges; empty where there is none.
pub open spec fn first_edges(results: Option<Vec<EdgeUnions>>) -> Seq<EdgeUnion> {
    match results {
        Some(batches) => if batches@.len() > 0 {
            batches@[0].edges@
        } else {
            Seq::<EdgeUnion>::empty()
        },
        None => Seq::<EdgeUnion>::empty(),
    }
}

/// The first batch of identities; empty where there is none.
pub open spec fn first_identities(results: Option<Vec<Identities>>) -> Seq<IdentityRecord> {
    match results {
        Some(batches) => if batches@.len() > 0 {
            batches@[0].vertices@
        } else {
            Seq::<IdentityRecord>::empty()
        },
        None => Seq::<IdentityRecord>::empty(),
    }
}

/// The first batch of primary-domain edges; empty where there is none.
pub open spec fn first_reverse_records(results: Option<Vec<ReverseRecords>>) -> Seq<
    ResolveRecord,
> {
    match results {
        Some(batches) => if batches@.len() > 0 {
            batches@[0].reverse_records@
        } else {
            Seq::<ResolveRecord>::empty()
        },
        None => Seq::<ResolveRecord>::empty(),
    }
}

/// The first batch of hold edges; empty where there is none.
pub open spec fn first_holds(results: Option<Vec<Nfts>>) -> Seq<HoldRecord> {
    match results {
        Some(batches) => if batches@.len() > 0 {
            batches@[0].edges@
        } else {
            Seq::<HoldRecord>::empty()
        },
        None => Seq::<HoldRecord>::empty(),
    }
}

/// The first owner of the first batch, where there is one.
pub open spec fn first_owner(results: Option<Vec<Owner>>) -> Option<IdentityRecord> {
    match results {
        Some(batches) => if batches@.len() > 0 && batches@[0].owner@.len() > 0 {
            Some(batches@[0].owner@[0])
        } else {
            None
        },
        None => None,
    }
}

/// The first of the vertices of a lookup, where there is one.
pub open spec fn first_vertex(results: Option<Vec<IdentityRecord>>) -> Option<IdentityRecord> {
    match results {
        Some(list) => if list@.len() > 0 {
            Some(list@[0])
        } else {
            None
        },
        None => None,
    }
}

/// Whether `r` reports the failure of what was asked as the response states
/// it.
pub open spec fn is_query_error<T>(
    r: Result<T, Error>,
    base: BaseResponse,
    query: Seq<char>,
    status: u16,
) -> bool {
    r is Err && r->Err_0 is General && r->Err_0->General_1 == status && r->Err_0->General_0@
        == crate::tigergraph::query_error_text(
        query,
        crate::tigergraph::identity::opt_text(base.code),
        crate::tigergraph::identity::opt_text(base.message),
    )
}

impl Identity {
    /// The request that looks an identity up by its identifier.
    pub fn find_by_uuid_request(endpoint: &Endpoint, uuid: u128) -> (r: Result<String, Error>)
        ensures
            is_checked(r, by_uuid_text(endpoint.host@, endpoint.graph@, uuid)),
    {
        let mut text = endpoint.vertices_address();
        text.append("uuid=%22");
        let shown = uuid_text(uuid);
        text.append(shown.as_str());
        text.append("%22");
        checked_uri(text)
    }

    /// What a lookup by identifier answers with: the error that the store
    /// reports, else the first vertex of the response.
    pub fn find_by_uuid(status: u16, response: VertexResponse) -> (r: Result<
        Option<IdentityRecord>,
        Error,
    >)
        ensures
            response.base.error ==> is_query_error(r, response.base, "query filter"@, status),
            !response.base.error ==> r is Ok && r->Ok_0 == first_vertex(response.results),
    {
        match response.base.check("query filter", status) {
            Err(e) => Err(e),
            Ok(_) => Ok(take_first(response.results)),
        }
    }

    /// The request that looks an identity up by platform and identity.
    pub fn find_by_platform_identity_request(
        endpoint: &Endpoint,
        platform: &Platform,
        identity: &str,
    ) -> (r: Result<String, Error>)
        ensures
            is_checked_as(
                r,
                by_platform_identity_text(endpoint.host@, endpoint.graph@, *platform, identity@),
                by_platform_identity_error_prefix(*platform, identity@),
            ),
    {
        let mut text = endpoint.vertices_address();
        text.append("platform=%22");
        text.append(platform.name());
        text.append("%22,identity=%22");
        text.append(identity);
        text.append("%22");
        let mut prefix = String::from_str("QUERY filter=platform=%22");
        prefix.append(platform.name());
        prefix.append("%22,identity=%22");
        prefix.append(identity);
        prefix.append("%22 Uri format Error | ");
        checked_uri_as(text, prefix.as_str())
    }

    /// What a lookup by platform and identity answers with: the error that
    /// the store reports, else the first vertex of the response.
    pub fn find_by_platform_identity(status: u16, response: VertexResponse) -> (r: Result<
        Option<IdentityRecord>,
        Error,
    >)
        ensures
            response.base.error ==> is_query_error(r, response.base, "query filter"@, status),
            !response.base.error ==> r is Ok && r->Ok_0 == first_vertex(response.results),
    {
        match response.base.check("query filter", status) {
            Err(e) => Err(e),
            Ok(_) => Ok(take_first(response.results)),
        }
    }
}

impl IdentityRecord {
    /// The request of the neighbour traversal from this identity.
    pub fn neighbors_request(&self, endpoint: &Endpoint, depth: u16, reverse: Option<bool>) -> (r:
        Result<String, Error>)
        ensures
            is_checked(
                r,
                neighbors_text(endpoint.host@, endpoint.graph@, self.v_id@, depth, reverse),
            ),
    {
        let flag: u64 = match reverse {
            None => 0,
            Some(true) => 1,
            Some(false) => 2,
        };
        let mut text = endpoint.query_address("neighbors_with_source_reverse");
        text.append("?p=");
        text.append(self.v_id.as_str());
        text.append("&depth=");
        push_decimal(&mut text, depth as u64);
        text.append("&reverse_flag=");
        push_decimal(&mut text, flag);
        checked_uri(text)
    }

    /// The neighbours of this identity as the traversal's response gives
    /// them: the error that the store reports, else the first batch of the
    /// response in its order, without this identity itself.
    pub fn neighbors(&self, status: u16, response: NeighborsWithSource) -> (r: Result<
        Vec<IdentityWithSource>,
        Error,
    >)
        ensures
            response.base.error ==> is_query_error(
                r,
                response.base,
                "query neighbors_with_source"@,
                status,
            ),
            !response.base.error ==> r is Ok && reached_views(r->Ok_0@) == reached_views(
                first_vertices(response.results),
            ).filter(|x: IdentityWithSourceView| x.identity.v_id != self.v_id@),
            r is Ok ==> forall|i: int|
                0 <= i < r->Ok_0@.len() ==> (#[trigger] r->Ok_0@[i]).identity.v_id@ != self.v_id@,
    {
        match response.base.check("query neighbors_with_source", status) {
            Err(e) => Err(e),
            Ok(_) => {
                let ghost keep = |x: IdentityWithSourceView| x.identity.v_id != self.v_id@;
                match take_first(response.results) {
                    None => {
                        let found: Vec<IdentityWithSource> = Vec::new();
                        assert(reached_views(found@) =~= reached_views(
                            first_vertices(response.results),
                        ).filter(keep)) by {
                            reveal(Seq::filter);
                            assert(reached_views(first_vertices(response.results)).len() == 0);
                        }
                        Ok(found)
                    },
                    Some(batch) => {
                        let ghost all = reached_views(batch.vertices@);
                        let mut found: Vec<IdentityWithSource> = Vec::new();
                        let mut i: usize = 0;
                        assert(reached_views(found@) =~= all.take(0).filter(keep)) by {
                            reveal(Seq::filter);
                        }
                        while i < batch.vertices.len()
                            invariant
                                i <= batch.vertices@.len(),
                                all == reached_views(batch.vertices@),
                                keep == |x: IdentityWithSourceView|
                                    x.identity.v_id != self.v_id@,
                                reached_views(found@) == all.take(i as int).filter(keep),
                                forall|j: int|
                                    0 <= j < found@.len() ==> (
                                    #[trigger] found@[j]).identity.v_id@ != self.v_id@,
                            decreases batch.vertices@.len() - i,
                        {
                            let ghost before = reached_views(found@);
                            proof {
                                reveal(Seq::filter);
                                assert(all.take(i + 1).drop_last() =~= all.take(i as int));
                                assert(all.take(i + 1).last() == batch.vertices@[i as int]@);
                            }
                            if !(batch.vertices[i].identity.v_id == self.v_id) {
                                found.push(batch.vertices[i].duplicate());
                                assert(reached_views(found@) =~= before.push(
                                    batch.vertices@[i as int]@,
                                ));
                            }
                            i += 1;
                        }
                        assert(all.take(batch.vertices@.len() as int) =~= all);
                        Ok(found)
                    },
                }
            },
        }
    }

    /// The request of the traversal that returns edges.
    pub fn neighbors_with_traversal_request(&self, endpoint: &Endpoint, depth: u16) -> (r: Result<
        String,
        Error,
    >)
        ensures
            is_checked_as(
                r,
                traversal_text(endpoint.host@, endpoint.graph@, self.v_id@, depth),
                traversal_error_prefix(self.v_id@, depth),
            ),
    {
        let mut text = endpoint.query_address("neighbors");
        text.append("?p=");
        text.append(self.v_id.as_str());
        text.append("&depth=");
        push_decimal(&mut text, depth as u64);
        let mut prefix = String::from_str("QUERY neighbors_with_traversal(");
        prefix.append(self.v_id.as_str());
        prefix.append(",");
        push_decimal(&mut prefix, depth as u64);
        prefix.append(") Uri format Error ");
        checked_uri_as(text, prefix.as_str())
    }

    /// The edges around this identity as the response gives them: the error
    /// that the store reports, else the first batch of the response.
    pub fn neighbors_with_traversal(&self, status: u16, response: NeighborsResponse) -> (r: Result<
        Vec<EdgeUnion>,
        Error,
    >)
        ensures
            response.base.error ==> is_query_error(
                r,
                response.base,
                "query neighbors_with_traversal"@,
                status,
            ),
            !response.base.error ==> r is Ok && r->Ok_0@ == first_edges(response.results),
    {
        match response.base.check("query neighbors_with_traversal", status) {
            Err(e) => Err(e),
            Ok(_) => match take_first(response.results) {
                Some(batch) => Ok(batch.edges),
                None => Ok(Vec::new()),
            },
        }
    }

    /// The request of the query by source.
    pub fn find_identity_by_source_request(&self, endpoint: &Endpoint, source: &DataSource) -> (r:
        Result<String, Error>)
        ensures
            is_checked(r, by_source_text(endpoint.host@, endpoint.graph@, self.v_id@, *source)),
    {
        let mut text = endpoint.query_address("identity_by_source");
        text.append("?p=");
        text.append(self.v_id.as_str());
        text.append("&source=");
        text.append(source.name());
        checked_uri(text)
    }

    /// The identities joined to this one by edges of a source, as the
    /// response gives them: the error that the store reports, else the first
    /// batch of the response.
    pub fn find_identity_by_source(&self, status: u16, response: IdentityBySourceResponse) -> (r:
        Result<Vec<IdentityRecord>, Error>)
        ensures
            response.base.error ==> is_query_error(
                r,
                response.base,
                "query identity_by_source"@,
                status,
            ),
            !response.base.error ==> r is Ok && r->Ok_0@ == first_identities(response.results),
    {
        match response.base.check("query identity_by_source", status) {
            Err(e) => Err(e),
            Ok(_) => match take_first(response.results) {
                Some(batch) => Ok(batch.vertices),
                None => Ok(Vec::new()),
            },
        }
    }

    /// The request of the primary-domain query.
    pub fn resolve_reverse_domains_request(&self, endpoint: &Endpoint) -> (r: Result<
        String,
        Error,
    >)
        ensures
            is_checked(r, reverse_domains_text(endpoint.host@, endpoint.graph@, self.v_id@)),
    {
        let mut text = endpoint.query_address("reverse_domains");
        text.append("?p=");
        text.append(self.v_id.as_str());
        checked_uri(text)
    }

    /// The primary domains of this identity as the response gives them: the
    /// error that the store reports, else each edge of the first batch, in
    /// order, marked as primary.
    pub fn resolve_reverse_domains(&self, status: u16, response: ReverseDomainsResponse) -> (r:
        Result<Vec<ResolveReverse>, Error>)
        ensures
            response.base.error ==> is_query_error(r, response.base, "query reverse_domains"@, status),
            !response.base.error ==> r is Ok && r->Ok_0@.len() == first_reverse_records(
                response.results,
            ).len() && forall|i: int|
                0 <= i < r->Ok_0@.len() ==> (#[trigger] r->Ok_0@[i]).is_primary_of(
                    first_reverse_records(response.results)[i].attributes,
                ),
    {
        match response.base.check("query reverse_domains", status) {
            Err(e) => Err(e),
            Ok(_) => match take_first(response.results) {
                None => Ok(Vec::new()),
                Some(batch) => {
                    let mut found: Vec<ResolveReverse> = Vec::new();
                    let mut i: usize = 0;
                    while i < batch.reverse_records.len()
                        invariant
                            i <= batch.reverse_records@.len(),
                            found@.len() == i,
                            forall|j: int|
                                0 <= j < i ==> (#[trigger] found@[j]).is_primary_of(
                                    batch.reverse_records@[j].attributes,
                                ),
                        decreases batch.reverse_records@.len() - i,
                    {
                        found.push(ResolveReverse::primary(&batch.reverse_records[i].attributes));
                        i += 1;
                    }
                    Ok(found)
                },
            },
        }
    }

    /// The request of the owner query.
    pub fn domain_owned_by_request(&self, endpoint: &Endpoint) -> (r: Result<String, Error>)
        ensures
            is_checked(
                r,
                owned_by_text(
                    endpoint.host@,
                    endpoint.graph@,
                    self.v_id@,
                    self.attributes.platform,
                ),
            ),
    {
        let mut text = endpoint.query_address("identity_owned_by");
        text.append("?p=");
        text.append(self.v_id.as_str());
        text.append("&platform=");
        text.append(self.attributes.platform.name());
        checked_uri(text)
    }

    /// The wallet that owns this domain as the response gives it: the error
    /// that the store reports, else the first owner of the first batch.
    pub fn domain_owned_by(&self, status: u16, response: OwnedByResponse) -> (r: Result<
        Option<IdentityRecord>,
        Error,
    >)
        ensures
            response.base.error ==> is_query_error(r, response.base, "query owned_by"@, status),
            !response.base.error ==> r is Ok && r->Ok_0 == first_owner(response.results),
    {
        match response.base.check("query owned_by", status) {
            Err(e) => Err(e),
            Ok(_) => match take_first(response.results) {
                Some(batch) => Ok(take_first(Some(batch.owner))),
                None => Ok(None),
            },
        }
    }

    /// The request of the NFT query, or `None` where this identity is not on
    /// Ethereum: only wallets there hold NFTs, and the store is not asked.
    /// Categories are sent only where some are given.
    pub fn nfts_request(
        &self,
        endpoint: &Endpoint,
        category: &Option<Vec<ContractCategory>>,
        limit: u16,
        offset: u16,
    ) -> (r: Result<Option<String>, Error>)
        ensures
            self.attributes.platform != Platform::Ethereum ==> r is Ok && r->Ok_0 is None,
            self.attributes.platform == Platform::Ethereum ==> {
                let text = nfts_text(
                    endpoint.host@,
                    endpoint.graph@,
                    self.v_id@,
                    match *category {
                        Some(list) => list@,
                        None => Seq::<ContractCategory>::empty(),
                    },
                    limit,
                    offset,
                );
                &&& uri_accepts(text) ==> r is Ok && r->Ok_0 is Some && r->Ok_0->0@ == text
                &&& !uri_accepts(text) ==> r is Err && r->Err_0 is ParamError
                    && r->Err_0->ParamError_0@.len() >= uri_error_prefix().len()
                    && r->Err_0->ParamError_0@.subrange(0, uri_error_prefix().len() as int)
                    == uri_error_prefix()
            },
    {
        if self.attributes.platform != Platform::Ethereum {
            return Ok(None);
        }
        let mut text = endpoint.query_address("nfts");
        text.append("?p=");
        text.append(self.v_id.as_str());
        text.append("&");
        let ghost head = text@;
        match category {
            Some(list) => {
                let mut i: usize = 0;
                while i < list.len()
                    invariant
                        i <= list.len(),
                        text@ == head + categories_text(list@.take(i as int)),
                    decreases list.len() - i,
                {
                    proof {
                        assert(list@.take(i + 1).drop_last() =~= list@.take(i as int));
                    }
                    text.append("categories=");
                    text.append(list[i].name());
                    text.append("&");
                    assert(text@ =~= head + categories_text(list@.take(i + 1)));
                    i += 1;
                }
                assert(list@.take(list@.len() as int) =~= list@);
            },
            None => {
                assert(text@ =~= head + categories_text(Seq::<ContractCategory>::empty()));
            },
        }
        text.append("numPerPage=");
        push_decimal(&mut text, limit as u64);
        text.append("&pageNum=");
        let page: u16 = if limit == 0 {
            0
        } else {
            offset / limit
        };
        push_decimal(&mut text, page as u64);
        match checked_uri(text) {
            Ok(text) => Ok(Some(text)),
            Err(e) => Err(e),
        }
    }

    /// The NFTs that this identity holds as the response gives them: nothing
    /// where the identity is not on Ethereum; else the error that the store
    /// reports, else the first batch of the response.
    pub fn nfts(&self, status: u16, response: QueryNftsResponse) -> (r: Result<
        Vec<HoldRecord>,
        Error,
    >)
        ensures
            self.attributes.platform != Platform::Ethereum ==> r is Ok && r->Ok_0@.len() == 0,
            self.attributes.platform == Platform::Ethereum && response.base.error
                ==> is_query_error(r, response.base, "query nfts"@, status),
            self.attributes.platform == Platform::Ethereum && !response.base.error ==> r is Ok
                && r->Ok_0@ == first_holds(response.results),
    {
        if self.attributes.platform != Platform::Ethereum {
            return Ok(Vec::new());
        }
        match response.base.check("query nfts", status) {
            Err(e) => Err(e),
            Ok(_) => match take_first(response.results) {
                Some(batch) => Ok(batch.edges),
                None => Ok(Vec::new()),
            },
        }
    }
}

/// The keys of a batch lookup.
#[derive(Debug)]
pub struct VertexIds {
    pub ids: Vec<String>,
}

/// One batch of looked-up identities.
#[derive(Debug)]
pub struct VertexIdsResult {
    pub vertices: Vec<IdentityRecord>,
}

/// The response of the batch lookup by key.
#[derive(Debug)]
pub struct VertexIdsResponse {
    pub base: BaseResponse,
    pub results: Option<Vec<VertexIdsResult>>,
}

/// The batch loader of identities: many keys, one request.
#[derive(Clone, Copy, Debug, Default)]
pub struct IdentityLoadFn {}

/// The first batch of looked-up identities; empty where there is none.
pub open spec fn first_loaded(results: Option<Vec<VertexIdsResult>>) -> Seq<IdentityRecord> {
    match results {
        Some(batches) => if batches@.len() > 0 {
            batches@[0].vertices@
        } else {
            Seq::<IdentityRecord>::empty()
        },
        None => Seq::<IdentityRecord>::empty(),
    }
}

/// The identities of a batch lookup as the response gives them: the error
/// that the store reports, else the first batch of the response.
pub fn get_identities_by_ids(status: u16, response: VertexIdsResponse) -> (r: Result<
    Vec<IdentityRecord>,
    Error,
>)
    ensures
        response.base.error ==> is_query_error(r, response.base, "identities_by_ids"@, status),
        !response.base.error ==> r is Ok && r->Ok_0@ == first_loaded(response.results),
{
    match response.base.check("identities_by_ids", status) {
        Err(e) => Err(e),
        Ok(_) => match take_first(response.results) {
            Some(batch) => Ok(batch.vertices),
            None => Ok(Vec::new()),
        },
    }
}

impl IdentityLoadFn {
    /// What one batch answers with. Where the lookup succeeded: every
    /// identity found, under its key, in order. Where it failed: nothing
    /// under each key that was asked for, in order.
    pub fn load(&self, ids: &Vec<String>, fetched: Result<Vec<IdentityRecord>, Error>) -> (r: Vec<
        (String, Option<IdentityRecord>),
    >)
        ensures
            match fetched {
                Ok(records) => r@.len() == records@.len() && forall|i: int|
                    0 <= i < r@.len() ==> (#[trigger] r@[i]).0@ == records@[i].v_id@ && r@[i].1
                        == Some(records@[i]),
                Err(_) => r@.len() == ids@.len() && forall|i: int|
                    0 <= i < r@.len() ==> (#[trigger] r@[i]).0@ == ids@[i]@ && r@[i].1 is None,
            },
    {
        let mut entries: Vec<(String, Option<IdentityRecord>)> = Vec::new();
        match fetched {
            Ok(records) => {
                let mut rest = records;
                let ghost all = rest@;
                while rest.len() > 0
                    invariant
                        entries@.len() + rest@.len() == all.len(),
                        rest@ == all.skip(entries@.len() as int),
                        forall|i: int|
                            0 <= i < entries@.len() ==> (#[trigger] entries@[i]).0@ == all[i].v_id@
                                && entries@[i].1 == Some(all[i]),
                    decreases rest.len(),
                {
                    let ghost done = entries@.len() as int;
                    let record = rest.remove(0);
                    assert(record == all[done]);
                    let key = record.v_id.clone();
                    entries.push((key, Some(record)));
                    assert(rest@ =~= all.skip(done + 1));
                }
            },
            Err(_) => {
                let mut i: usize = 0;
                while i < ids.len()
                    invariant
                        i <= ids.len(),
                        entries@.len() == i,
                        forall|j: int|
                            0 <= j < i ==> (#[trigger] entries@[j]).0@ == ids@[j]@ && entries@[j].1
                                is None,
                    decreases ids.len() - i,
                {
                    entries.push((ids[i].clone(), None));
                    i += 1;
                }
            },
        }
        entries
    }
}

/// One vertex of an upsert.
#[derive(Debug)]
pub struct UpsertVertex {
    pub v_type: String,
    pub v_id: String,
    pub attributes: IdentityAttribute,
}

impl Identity {
    /// The upsert that creates or updates this identity: the vertex type,
    /// the key of the row, and the attributes with their operators.
    pub fn create_or_update(&self) -> (vertex: UpsertVertex)
        ensures
            vertex.v_type@ == crate::tigergraph::VERTEX_NAME@,
            vertex.v_id@ == self@.primary_key(),
            attribute_views(vertex.attributes.0@) == self@.attributes(),
    {
        UpsertVertex {
            v_type: self.vertex_type(),
            v_id: self.primary_key(),
            attributes: self.to_attributes_map(),
        }
    }
}

} // verus!
