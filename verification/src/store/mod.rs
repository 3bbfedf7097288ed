//! A graph store in memory that honours the per-attribute rules of an upsert
//! and answers the bounded neighbour traversal.

pub mod rows;
pub mod traversal;
pub mod walk;

use crate::store::rows::{
    is_row_of, lemma_first_match, lemma_remove_keeps_unique, lemma_upsert_keeps_unique, position,
    unique_keys, upsert_all, upsert_rows,
};
use crate::tigergraph::identity::{Identity, IdentityView};
use crate::upstream::{DataSource, Platform};
use vstd::prelude::*;

verus! {

/// Kinds of edge between identities.
#[derive(Clone, Copy, Debug, PartialEq, Eq, Structural, Hash)]
pub enum EdgeKind {
    /// Two identities of one owner.
    Proof,
    /// An identity owns a domain or a handle.
    Hold,
    /// A name resolves to an identity.
    Resolve,
}

/// An edge between two stored identities, each given by its position. An
/// edge is known by its ends, its kind, its source and its discriminator:
/// the name of a resolve edge, what is held of a hold edge, nothing of a
/// proof. Only a resolve edge can carry `reverse`: it marks the primary
/// domain of a wallet.
#[derive(Clone, Debug, PartialEq, Eq)]
pub struct Link {
    pub from: usize,
    pub to: usize,
    pub kind: EdgeKind,
    pub source: DataSource,
    pub discriminator: String,
    /// Identifier generated when the edge is created.
    pub uuid: u128,
    /// When the edge was last fetched, in Unix seconds.
    pub updated_at: i64,
    pub reverse: bool,
}

/// Whether two edges are the same edge: same ends, kind, source and
/// discriminator.
pub open spec fn same_edge(a: Link, b: Link) -> bool {
    a.from == b.from && a.to == b.to && a.kind == b.kind && a.source == b.source
        && a.discriminator@ == b.discriminator@
}

/// The edge that the store holds after `incoming` is upserted over the
/// stored edge: the identifier is written once, `updated_at` is the greater
/// of both, and the primary-domain flag is overwritten.
pub open spec fn upserted_link(stored: Link, incoming: Link) -> Link {
    Link {
        updated_at: if incoming.updated_at > stored.updated_at {
            incoming.updated_at
        } else {
            stored.updated_at
        },
        reverse: incoming.reverse,
        ..stored
    }
}

/// The position of the first edge that is the same edge as `link`, at or
/// after `from`; the number of edges where there is none.
pub open spec fn first_edge(links: Seq<Link>, link: Link, from: int) -> int
    decreases links.len() - from,
{
    if from < 0 || from >= links.len() {
        links.len() as int
    } else if same_edge(links[from], link) {
        from
    } else {
        first_edge(links, link, from + 1)
    }
}

/// The edges after an upsert of `incoming`: a new edge is appended as it
/// comes, a stored one is combined with it.
pub open spec fn upsert_links(links: Seq<Link>, incoming: Link) -> Seq<Link> {
    let k = first_edge(links, incoming, 0);
    if k < links.len() {
        links.update(k, upserted_link(links[k], incoming))
    } else {
        links.push(incoming)
    }
}

/// `first_edge` is the one position with no same edge before it and, unless
/// it is the end, a same edge at it.
pub proof fn lemma_first_edge(links: Seq<Link>, link: Link, from: int, k: int)
    requires
        0 <= from <= k <= links.len(),
        forall|j: int| from <= j < k ==> !same_edge(#[trigger] links[j], link),
        k < links.len() ==> same_edge(links[k], link),
    ensures
        first_edge(links, link, from) == k,
    decreases k - from,
{
    if from < k {
        lemma_first_edge(links, link, from + 1, k);
    }
}

/// What `first_edge` returns: a position in range or the end, with no same
/// edge before it.
pub proof fn lemma_first_edge_is_first(links: Seq<Link>, link: Link, from: int)
    requires
        0 <= from <= links.len(),
    ensures
        from <= first_edge(links, link, from) <= links.len(),
        forall|j: int|
            from <= j < first_edge(links, link, from) ==> !same_edge(#[trigger] links[j], link),
        first_edge(links, link, from) < links.len() ==> same_edge(
            links[first_edge(links, link, from)],
            link,
        ),
    decreases links.len() - from,
{
    if from < links.len() && !same_edge(links[from], link) {
        lemma_first_edge_is_first(links, link, from + 1);
    }
}

/// Upserting an edge twice leaves the edges as upserting it once.
pub proof fn lemma_upsert_link_idempotent(links: Seq<Link>, incoming: Link)
    ensures
        upsert_links(upsert_links(links, incoming), incoming) == upsert_links(links, incoming),
{
    let once = upsert_links(links, incoming);
    let k = first_edge(links, incoming, 0);
    lemma_first_edge_is_first(links, incoming, 0);
    lemma_first_edge(once, incoming, 0, k);
    if k < links.len() {
        assert(once[k] == upserted_link(links[k], incoming));
    } else {
        assert(once[k] == incoming);
    }
    assert(upserted_link(once[k], incoming) == once[k]);
    assert(upsert_links(once, incoming) =~= once);
}

/// The position of a vertex after the vertex at `k` has left.
pub open spec fn shifted(i: usize, k: int) -> usize {
    if i > k {
        (i - 1) as usize
    } else {
        i
    }
}

/// An edge after the vertex at `k` has left.
pub open spec fn moved(link: Link, k: int) -> Link {
    Link { from: shifted(link.from, k), to: shifted(link.to, k), ..link }
}

/// The edges after the vertex at `k` has left: those at `k` are gone, the
/// others stay in order, between the same vertices at their new positions.
pub open spec fn links_without(links: Seq<Link>, k: int) -> Seq<Link> {
    links.filter(|l: Link| l.from != k && l.to != k).map_values(|l: Link| moved(l, k))
}

/// The identities of a list as plain values.
pub open spec fn identity_views(list: Seq<Identity>) -> Seq<IdentityView> {
    list.map_values(|i: Identity| i@)
}

/// Identities and the edges among them, held in memory.
#[derive(Debug)]
pub struct GraphStore {
    /// The rows of the identities, each at its position.
    pub vertices: Vec<Identity>,
    /// The edges.
    pub links: Vec<Link>,
}

impl GraphStore {
    /// The rows as plain values.
    pub open spec fn rows(&self) -> Seq<IdentityView> {
        self.vertices@.map_values(|i: Identity| i@)
    }

    /// The store holds one row per `(platform, identity)`, and every edge
    /// joins two stored identities.
    pub open spec fn wf(&self) -> bool {
        &&& unique_keys(self.rows())
        &&& forall|k: int|
            0 <= k < self.links@.len() ==> (#[trigger] self.links@[k]).from
                < self.vertices@.len() && self.links@[k].to < self.vertices@.len()
    }

    /// An empty store.
    pub fn new() -> (store: GraphStore)
        ensures
            store.wf(),
            store.rows() == Seq::<IdentityView>::empty(),
            store.links@ == Seq::<Link>::empty(),
    {
        let store = GraphStore { vertices: Vec::new(), links: Vec::new() };
        assert(store.rows() =~= Seq::<IdentityView>::empty());
        store
    }

    /// The position of the row of `(platform, identity)`, or the number of
    /// rows where the store has none.
    pub fn find(&self, platform: Platform, identity: &str) -> (k: usize)
        ensures
            k == position(self.rows(), platform, identity@),
            k <= self.vertices@.len(),
    {
        let wanted = identity.to_owned();
        let mut i: usize = 0;
        while i < self.vertices.len()
            invariant
                i <= self.vertices@.len(),
                wanted@ == identity@,
                forall|j: int|
                    0 <= j < i ==> !is_row_of(#[trigger] self.rows()[j], platform, identity@),
            decreases self.vertices@.len() - i,
        {
            if self.vertices[i].platform == platform && self.vertices[i].identity == wanted {
                proof {
                    assert(is_row_of(self.rows()[i as int], platform, identity@));
                    lemma_first_match(self.rows(), platform, identity@, 0, i as int);
                }
                return i;
            }
            i += 1;
        }
        proof {
            lemma_first_match(self.rows(), platform, identity@, 0, i as int);
        }
        i
    }

    /// The stored record of `(platform, identity)`, where there is one.
    pub fn find_by_platform_identity(&self, platform: Platform, identity: &str) -> (r: Option<
        Identity,
    >)
        ensures
            match r {
                Some(found) => position(self.rows(), platform, identity@) < self.rows().len()
                    && found@ == self.rows()[position(self.rows(), platform, identity@)],
                None => position(self.rows(), platform, identity@) == self.rows().len(),
            },
    {
        let k = self.find(platform, identity);
        if k < self.vertices.len() {
            Some(self.vertices[k].duplicate())
        } else {
            None
        }
    }

    /// Upserts an identity: a new one is stored as it comes; over an existing
    /// row, what is written once stays, what overwrites is replaced, and
    /// `updated_at` becomes the greater of both.
    pub fn upsert(&mut self, incoming: Identity)
        requires
            old(self).wf(),
        ensures
            final(self).wf(),
            final(self).rows() == upsert_rows(old(self).rows(), incoming@),
            final(self).links@ == old(self).links@,
    {
        let k = self.find(incoming.platform, incoming.identity.as_str());
        if k < self.vertices.len() {
            let merged = self.vertices[k].upserted(&incoming);
            self.vertices.set(k, merged);
        } else {
            self.vertices.push(incoming);
        }
        assert(self.rows() =~= upsert_rows(old(self).rows(), incoming@));
        proof {
            lemma_upsert_keeps_unique(old(self).rows(), incoming@);
        }
    }

    /// Upserts a batch of identities, first to last.
    pub fn upsert_graph(&mut self, vertices: Vec<Identity>)
        requires
            old(self).wf(),
        ensures
            final(self).wf(),
            final(self).rows() == upsert_all(old(self).rows(), identity_views(vertices@)),
            final(self).links@ == old(self).links@,
    {
        let mut rest = vertices;
        let ghost all = identity_views(rest@);
        let ghost mut done: Seq<IdentityView> = Seq::empty();
        assert(done + identity_views(rest@) =~= all);
        while rest.len() > 0
            invariant
                self.wf(),
                self.links@ == old(self).links@,
                done + identity_views(rest@) == all,
                self.rows() == upsert_all(old(self).rows(), done),
            decreases rest.len(),
        {
            let ghost before = identity_views(rest@);
            let incoming = rest.remove(0);
            proof {
                assert(identity_views(rest@) =~= before.drop_first());
                assert(done.push(incoming@).drop_last() =~= done);
                assert(done.push(incoming@) + identity_views(rest@) =~= done + before);
                done = done.push(incoming@);
            }
            self.upsert(incoming);
        }
        assert(done =~= all);
    }

    /// Deletes the identity at `k` and the edges at it. The identities after
    /// it move up by one place, and the edges that stay follow them.
    pub fn delete_vertex_and_incident_edges(&mut self, k: usize)
        requires
            old(self).wf(),
            k < old(self).vertices@.len(),
        ensures
            final(self).wf(),
            final(self).rows() == old(self).rows().remove(k as int),
            final(self).links@ == links_without(old(self).links@, k as int),
    {
        let ghost stays = |l: Link| l.from != k && l.to != k;
        let ghost moves = |l: Link| moved(l, k as int);
        let n = self.vertices.len();
        self.vertices.remove(k);
        assert(self.rows() =~= old(self).rows().remove(k as int));
        proof {
            lemma_remove_keeps_unique(old(self).rows(), k as int);
        }
        let mut kept: Vec<Link> = Vec::new();
        let mut i: usize = 0;
        assert(kept@ =~= self.links@.take(0).filter(stays).map_values(moves)) by {
            reveal(Seq::filter);
        }
        while i < self.links.len()
            invariant
                i <= self.links@.len(),
                k < n,
                n == self.vertices@.len() + 1,
                self.links@ == old(self).links@,
                self.rows() == old(self).rows().remove(k as int),
                stays == |l: Link| l.from != k && l.to != k,
                moves == |l: Link| moved(l, k as int),
                forall|j: int|
                    0 <= j < self.links@.len() ==> (#[trigger] self.links@[j]).from < n
                        && self.links@[j].to < n,
                kept@ == self.links@.take(i as int).filter(stays).map_values(moves),
                forall|j: int|
                    0 <= j < kept@.len() ==> (#[trigger] kept@[j]).from < n - 1 && kept@[j].to < n
                        - 1,
            decreases self.links@.len() - i,
        {
            let ghost before = self.links@.take(i as int).filter(stays);
            proof {
                reveal(Seq::filter);
                assert(self.links@.take(i + 1).drop_last() =~= self.links@.take(i as int));
                assert(self.links@.take(i + 1).last() == self.links@[i as int]);
            }
            let link = &self.links[i];
            if link.from != k && link.to != k {
                let from = if link.from > k {
                    link.from - 1
                } else {
                    link.from
                };
                let to = if link.to > k {
                    link.to - 1
                } else {
                    link.to
                };
                let moved_link = Link {
                    from,
                    to,
                    kind: link.kind,
                    source: link.source,
                    discriminator: link.discriminator.clone(),
                    uuid: link.uuid,
                    updated_at: link.updated_at,
                    reverse: link.reverse,
                };
                assert(moved_link == moved(self.links@[i as int], k as int));
                kept.push(moved_link);
                assert(self.links@.take(i + 1).filter(stays) == before.push(self.links@[i as int]));
                assert(kept@ =~= before.push(self.links@[i as int]).map_values(moves));
            }
            i += 1;
        }
        assert(self.links@.take(self.links@.len() as int) =~= self.links@);
        self.links = kept;
    }

    /// Upserts an edge between two stored identities: a new edge is stored
    /// as it comes; over the same edge, the identifier stays, `updated_at`
    /// becomes the greater of both, and the primary-domain flag is
    /// overwritten.
    pub fn connect(&mut self, link: Link)
        requires
            old(self).wf(),
            link.from < old(self).vertices@.len(),
            link.to < old(self).vertices@.len(),
        ensures
            final(self).wf(),
            final(self).rows() == old(self).rows(),
            final(self).links@ == upsert_links(old(self).links@, link),
    {
        let mut i: usize = 0;
        while i < self.links.len()
            invariant
                i <= self.links@.len(),
                *self == *old(self),
                self.wf(),
                forall|j: int| 0 <= j < i ==> !same_edge(#[trigger] self.links@[j], link),
            decreases self.links@.len() - i,
        {
            let stored = &self.links[i];
            if stored.from == link.from && stored.to == link.to && stored.kind == link.kind
                && stored.source == link.source && stored.discriminator == link.discriminator {
                proof {
                    lemma_first_edge(self.links@, link, 0, i as int);
                }
                let merged = Link {
                    from: stored.from,
                    to: stored.to,
                    kind: stored.kind,
                    source: stored.source,
                    discriminator: stored.discriminator.clone(),
                    uuid: stored.uuid,
                    updated_at: if link.updated_at > stored.updated_at {
                        link.updated_at
                    } else {
                        stored.updated_at
                    },
                    reverse: link.reverse,
                };
                assert(merged == upserted_link(self.links@[i as int], link));
                self.links.set(i, merged);
                return ;
            }
            i += 1;
        }
        proof {
            lemma_first_edge(self.links@, link, 0, i as int);
        }
        self.links.push(link);
    }
}

} // verus!
