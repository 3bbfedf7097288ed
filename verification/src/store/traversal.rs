//! The traversals: the neighbours of an identity within a depth, their
//! distances, and the sources of the edges that lead to them.

use crate::store::{GraphStore, Link};
use crate::store::walk::{
    UNREACHED,
    is_distance,
    is_distance_table,
    is_source_toward,
    is_walk,
    joined,
    joins,
    lemma_filtered_walk_is_walk,
    lemma_lies_on_by_distance,
    lemma_reach_is_within,
    lies_on,
    passes,
    reach,
    within,
};
use crate::upstream::DataSource;
use vstd::prelude::*;

verus! {

/// Whether `marked` holds the vertex `u`.
pub open spec fn holds_at(marked: Seq<bool>, u: int) -> bool {
    0 <= u < marked.len() && marked[u]
}

/// Whether the edge, followed under the filter, leads into `v` from a vertex
/// that `marked` holds.
pub open spec fn feeds(link: Link, reverse: Option<bool>, marked: Seq<bool>, v: int) -> bool {
    passes(link, reverse) && ((link.from == v && holds_at(marked, link.to as int)) || (link.to == v
        && holds_at(marked, link.from as int)))
}

/// Whether one of the first `k` edges feeds `v`.
pub open spec fn fed(
    links: Seq<Link>,
    reverse: Option<bool>,
    marked: Seq<bool>,
    v: int,
    k: int,
) -> bool
    decreases k,
{
    if k <= 0 {
        false
    } else {
        fed(links, reverse, marked, v, k - 1) || feeds(links[k - 1], reverse, marked, v)
    }
}

proof fn lemma_fed_has_link(
    links: Seq<Link>,
    reverse: Option<bool>,
    marked: Seq<bool>,
    v: int,
    k: int,
)
    requires
        0 <= k <= links.len(),
    ensures
        fed(links, reverse, marked, v, k) == exists|j: int|
            0 <= j < k && feeds(#[trigger] links[j], reverse, marked, v),
    decreases k,
{
    if k > 0 {
        lemma_fed_has_link(links, reverse, marked, v, k - 1);
        if fed(links, reverse, marked, v, k) {
            if feeds(links[k - 1], reverse, marked, v) {
                assert(0 <= k - 1 < k && feeds(links[k - 1], reverse, marked, v));
            } else {
                let j = choose|j: int|
                    0 <= j < k - 1 && feeds(#[trigger] links[j], reverse, marked, v);
                assert(0 <= j < k && feeds(links[j], reverse, marked, v));
            }
        }
    }
}

/// One more round: where `marked` holds what `round` rounds find, a vertex
/// is found in `round + 1` rounds exactly if it is marked or fed by an edge.
proof fn lemma_next_round(
    links: Seq<Link>,
    reverse: Option<bool>,
    origin: int,
    marked: Seq<bool>,
    round: nat,
    v: int,
)
    requires
        0 <= v < marked.len(),
        forall|k: int|
            0 <= k < links.len() ==> (#[trigger] links[k]).from < marked.len() && links[k].to
                < marked.len(),
        forall|u: int|
            0 <= u < marked.len() ==> marked[u] == reach(links, reverse, origin, u, round),
    ensures
        reach(links, reverse, origin, v, round + 1) == (marked[v] || fed(
            links,
            reverse,
            marked,
            v,
            links.len() as int,
        )),
{
    lemma_fed_has_link(links, reverse, marked, v, links.len() as int);
    if fed(links, reverse, marked, v, links.len() as int) {
        let j = choose|j: int|
            0 <= j < links.len() && feeds(#[trigger] links[j], reverse, marked, v);
        let u: int = if links[j].from == v {
            links[j].to as int
        } else {
            links[j].from as int
        };
        assert(passes(links[j], reverse) && joins(links[j], u, v));
        assert(joined(links, reverse, u, v));
        assert(reach(links, reverse, origin, u, round));
    }
    if reach(links, reverse, origin, v, round + 1) && !marked[v] {
        let u = choose|u: int|
            reach(links, reverse, origin, u, round) && #[trigger] joined(links, reverse, u, v);
        let k = choose|k: int|
            0 <= k < links.len() && passes(#[trigger] links[k], reverse) && joins(links[k], u, v);
        assert(feeds(links[k], reverse, marked, v));
    }
}

/// A traversal never returns the identity it starts from.
pub proof fn lemma_neighbors_exclude_origin(
    store: &GraphStore,
    origin: int,
    depth: nat,
    reverse: Option<bool>,
)
    ensures
        !store.is_neighbor(origin, origin, depth, reverse),
{
}

/// What a filtered traversal returns, the unfiltered traversal of the same
/// depth returns too.
pub proof fn lemma_filtered_neighbors_are_neighbors(
    store: &GraphStore,
    origin: int,
    v: int,
    depth: nat,
    reverse: Option<bool>,
)
    requires
        store.is_neighbor(origin, v, depth, reverse),
    ensures
        store.is_neighbor(origin, v, depth, None),
{
    let path = choose|path: Seq<int>|
        #[trigger] is_walk(store.links@, reverse, path) && path.first() == origin && path.last()
            == v && path.len() <= depth + 1;
    lemma_filtered_walk_is_walk(store.links@, reverse, path);
}

/// At depth one, every identity that the unfiltered traversal returns is
/// returned under `Some(true)` or under `Some(false)`.
pub proof fn lemma_direct_neighbors_are_split(store: &GraphStore, origin: int, v: int)
    requires
        store.is_neighbor(origin, v, 1, None),
    ensures
        store.is_neighbor(origin, v, 1, Some(true)) || store.is_neighbor(
            origin,
            v,
            1,
            Some(false),
        ),
{
    let links = store.links@;
    let path = choose|path: Seq<int>|
        #[trigger] is_walk(links, None, path) && path.first() == origin && path.last() == v
            && path.len() <= 2;
    assert(path.len() == 2);
    assert(joined(links, None, path[0], path[0int + 1]));
    let k = choose|k: int|
        0 <= k < links.len() && passes(#[trigger] links[k], None) && joins(links[k], origin, v);
    let side = Some(links[k].reverse);
    assert(passes(links[k], side));
    assert(joined(links, side, origin, v));
    assert forall|i: int| 0 <= i < path.len() - 1 implies joined(
        links,
        side,
        #[trigger] path[i],
        path[i + 1],
    ) by {
        assert(i == 0);
    }
    assert(is_walk(links, side, path));
    assert(within(links, side, origin, v, 1));
}

/// No identity that a traversal returns is farther from the origin than
/// `depth`: a walk of at most `depth` edges of the whole graph leads to it.
pub proof fn lemma_neighbors_within_depth(
    store: &GraphStore,
    origin: int,
    v: int,
    depth: nat,
    reverse: Option<bool>,
)
    requires
        store.is_neighbor(origin, v, depth, reverse),
    ensures
        exists|path: Seq<int>|
            #[trigger] is_walk(store.links@, None, path) && path.first() == origin && path.last()
                == v && path.len() - 1 <= depth,
{
    lemma_filtered_neighbors_are_neighbors(store, origin, v, depth, reverse);
    let path = choose|path: Seq<int>|
        #[trigger] is_walk(store.links@, None, path) && path.first() == origin && path.last() == v
            && path.len() <= depth + 1;
    assert(is_walk(store.links@, None, path) && path.len() - 1 <= depth);
}

/// Whether a list of sources holds a value.
pub fn has_source(list: &Vec<DataSource>, value: DataSource) -> (r: bool)
    ensures
        r == list@.contains(value),
{
    let mut i: usize = 0;
    while i < list.len()
        invariant
            i <= list.len(),
            forall|j: int| 0 <= j < i ==> list@[j] != value,
        decreases list.len() - i,
    {
        if list[i] == value {
            return true;
        }
        i += 1;
    }
    false
}

/// An identity that a traversal reached, by its position, with the sources
/// of the edges on the walks that lead to it.
#[derive(Debug)]
pub struct Reached {
    pub vertex: usize,
    pub sources: Vec<DataSource>,
}

impl Reached {
    /// Whether the sources are those of the edges that lie on a walk of at
    /// most `depth` edges from `origin` to the vertex.
    pub open spec fn has_sources_toward(
        self,
        links: Seq<Link>,
        reverse: Option<bool>,
        origin: int,
        depth: nat,
    ) -> bool {
        forall|s: DataSource|
            self.sources@.contains(s) == is_source_toward(
                links,
                reverse,
                origin,
                self.vertex as int,
                depth,
                s,
            )
    }
}

impl GraphStore {
    /// Whether the traversal from `origin` returns `v`: `v` is another stored
    /// identity than `origin`, and a walk of at most `depth` edges that the
    /// filter follows leads to it.
    pub open spec fn is_neighbor(&self, origin: int, v: int, depth: nat, reverse: Option<bool>)
        -> bool {
        0 <= v < self.vertices@.len() && v != origin && within(
            self.links@,
            reverse,
            origin,
            v,
            depth,
        )
    }

    /// The positions, in ascending order, of the identities within `depth`
    /// edges of `origin`, the origin itself left out. `reverse` filters the
    /// edges that are followed: `None` follows all, `Some(true)` only the
    /// primary-domain edges, `Some(false)` only the others.
    pub fn neighbors(&self, origin: usize, depth: u16, reverse: Option<bool>) -> (found: Vec<
        usize,
    >)
        requires
            self.wf(),
            origin < self.vertices@.len(),
        ensures
            forall|i: int|
                0 <= i < found@.len() ==> self.is_neighbor(
                    origin as int,
                    (#[trigger] found@[i]) as int,
                    depth as nat,
                    reverse,
                ),
            forall|v: int|
                self.is_neighbor(origin as int, v, depth as nat, reverse) ==> found@.contains(
                    v as usize,
                ),
            forall|i: int, j: int| 0 <= i < j < found@.len() ==> found@[i] < found@[j],
    {
        let n = self.vertices.len();
        let mut marked: Vec<bool> = Vec::new();
        let mut v: usize = 0;
        while v < n
            invariant
                v <= n,
                marked@.len() == v,
                forall|u: int| 0 <= u < v ==> marked@[u] == (u == origin),
            decreases n - v,
        {
            marked.push(v == origin);
            v += 1;
        }
        let mut round: u16 = 0;
        while round < depth
            invariant
                round <= depth,
                n == self.vertices@.len(),
                origin < n,
                self.wf(),
                marked@.len() == n,
                forall|u: int|
                    0 <= u < n ==> marked@[u] == reach(
                        self.links@,
                        reverse,
                        origin as int,
                        u,
                        round as nat,
                    ),
            decreases depth - round,
        {
            let mut next = marked.clone();
            let mut k: usize = 0;
            while k < self.links.len()
                invariant
                    k <= self.links@.len(),
                    n == self.vertices@.len(),
                    self.wf(),
                    marked@.len() == n,
                    next@.len() == n,
                    forall|u: int|
                        0 <= u < n ==> next@[u] == (marked@[u] || fed(
                            self.links@,
                            reverse,
                            marked@,
                            u,
                            k as int,
                        )),
                decreases self.links@.len() - k,
            {
                let link = &self.links[k];
                let follow = match reverse {
                    None => true,
                    Some(r) => link.reverse == r,
                };
                if follow {
                    if marked[link.from] {
                        next.set(link.to, true);
                    }
                    if marked[link.to] {
                        next.set(link.from, true);
                    }
                }
                k += 1;
            }
            proof {
                assert forall|u: int| 0 <= u < n implies next@[u] == reach(
                    self.links@,
                    reverse,
                    origin as int,
                    u,
                    (round + 1) as nat,
                ) by {
                    lemma_next_round(self.links@, reverse, origin as int, marked@, round as nat, u);
                }
            }
            marked = next;
            round += 1;
        }
        let mut found: Vec<usize> = Vec::new();
        let mut v: usize = 0;
        while v < n
            invariant
                v <= n,
                n == self.vertices@.len(),
                marked@.len() == n,
                forall|u: int|
                    0 <= u < n ==> marked@[u] == reach(
                        self.links@,
                        reverse,
                        origin as int,
                        u,
                        depth as nat,
                    ),
                forall|i: int|
                    0 <= i < found@.len() ==> (#[trigger] found@[i]) < v && self.is_neighbor(
                        origin as int,
                        found@[i] as int,
                        depth as nat,
                        reverse,
                    ),
                forall|u: int|
                    0 <= u < v && self.is_neighbor(origin as int, u, depth as nat, reverse)
                        ==> found@.contains(u as usize),
                forall|i: int, j: int| 0 <= i < j < found@.len() ==> found@[i] < found@[j],
            decreases n - v,
        {
            proof {
                lemma_reach_is_within(self.links@, reverse, origin as int, v as int, depth as nat);
            }
            if marked[v] && v != origin {
                let ghost before = found@;
                found.push(v);
                assert(found@[before.len() as int] == v);
                assert forall|u: int|
                    0 <= u < v + 1 && self.is_neighbor(
                        origin as int,
                        u,
                        depth as nat,
                        reverse,
                    ) implies found@.contains(u as usize) by {
                    if u < v {
                        let i = choose|i: int| 0 <= i < before.len() && before[i] == u as usize;
                        assert(found@[i] == u as usize);
                    }
                }
            }
            v += 1;
        }
        found
    }

    /// The distance from `origin` of every identity within `depth` edges of
    /// it, by position; the others are marked unreached.
    pub fn distances(&self, origin: usize, depth: u16, reverse: Option<bool>) -> (table: Vec<u32>)
        requires
            self.wf(),
            origin < self.vertices@.len(),
        ensures
            table@.len() == self.vertices@.len(),
            is_distance_table(self.links@, reverse, origin as int, depth as nat, table@),
    {
        let n = self.vertices.len();
        let mut marked: Vec<bool> = Vec::new();
        let mut table: Vec<u32> = Vec::new();
        let mut v: usize = 0;
        while v < n
            invariant
                v <= n,
                marked@.len() == v,
                table@.len() == v,
                forall|u: int| 0 <= u < v ==> marked@[u] == (u == origin),
                forall|u: int|
                    0 <= u < v ==> (#[trigger] table@[u]) == (if u == origin {
                        0u32
                    } else {
                        UNREACHED
                    }),
            decreases n - v,
        {
            marked.push(v == origin);
            table.push(
                if v == origin {
                    0
                } else {
                    UNREACHED
                },
            );
            v += 1;
        }
        let mut round: u16 = 0;
        while round < depth
            invariant
                round <= depth,
                n == self.vertices@.len(),
                origin < n,
                self.wf(),
                marked@.len() == n,
                table@.len() == n,
                forall|u: int|
                    0 <= u < n ==> marked@[u] == reach(
                        self.links@,
                        reverse,
                        origin as int,
                        u,
                        round as nat,
                    ),
                forall|u: int|
                    0 <= u < n ==> if marked@[u] {
                        (#[trigger] table@[u]) <= round && reach(
                            self.links@,
                            reverse,
                            origin as int,
                            u,
                            table@[u] as nat,
                        ) && (table@[u] == 0 || !reach(
                            self.links@,
                            reverse,
                            origin as int,
                            u,
                            (table@[u] - 1) as nat,
                        ))
                    } else {
                        table@[u] == UNREACHED
                    },
            decreases depth - round,
        {
            let mut next = marked.clone();
            let mut k: usize = 0;
            while k < self.links.len()
                invariant
                    k <= self.links@.len(),
                    n == self.vertices@.len(),
                    self.wf(),
                    marked@.len() == n,
                    next@.len() == n,
                    forall|u: int|
                        0 <= u < n ==> next@[u] == (marked@[u] || fed(
                            self.links@,
                            reverse,
                            marked@,
                            u,
                            k as int,
                        )),
                decreases self.links@.len() - k,
            {
                let link = &self.links[k];
                let follow = match reverse {
                    None => true,
                    Some(r) => link.reverse == r,
                };
                if follow {
                    if marked[link.from] {
                        next.set(link.to, true);
                    }
                    if marked[link.to] {
                        next.set(link.from, true);
                    }
                }
                k += 1;
            }
            proof {
                assert forall|u: int| 0 <= u < n implies next@[u] == reach(
                    self.links@,
                    reverse,
                    origin as int,
                    u,
                    (round + 1) as nat,
                ) by {
                    lemma_next_round(self.links@, reverse, origin as int, marked@, round as nat, u);
                }
            }
            let mut u: usize = 0;
            while u < n
                invariant
                    u <= n,
                    round < depth,
                    marked@.len() == n,
                    next@.len() == n,
                    table@.len() == n,
                    forall|w: int|
                        0 <= w < n ==> marked@[w] == reach(
                            self.links@,
                            reverse,
                            origin as int,
                            w,
                            round as nat,
                        ),
                    forall|w: int|
                        0 <= w < n ==> next@[w] == reach(
                            self.links@,
                            reverse,
                            origin as int,
                            w,
                            (round + 1) as nat,
                        ),
                    forall|w: int|
                        0 <= w < u ==> if next@[w] {
                            (#[trigger] table@[w]) <= round + 1 && reach(
                                self.links@,
                                reverse,
                                origin as int,
                                w,
                                table@[w] as nat,
                            ) && (table@[w] == 0 || !reach(
                                self.links@,
                                reverse,
                                origin as int,
                                w,
                                (table@[w] - 1) as nat,
                            ))
                        } else {
                            table@[w] == UNREACHED
                        },
                    forall|w: int|
                        u <= w < n ==> if marked@[w] {
                            (#[trigger] table@[w]) <= round && reach(
                                self.links@,
                                reverse,
                                origin as int,
                                w,
                                table@[w] as nat,
                            ) && (table@[w] == 0 || !reach(
                                self.links@,
                                reverse,
                                origin as int,
                                w,
                                (table@[w] - 1) as nat,
                            ))
                        } else {
                            table@[w] == UNREACHED
                        },
                decreases n - u,
            {
                if next[u] && !marked[u] {
                    table.set(u, round as u32 + 1);
                }
                u += 1;
            }
            marked = next;
            round += 1;
        }
        proof {
            assert forall|u: int| 0 <= u < table@.len() implies if within(
                self.links@,
                reverse,
                origin as int,
                u,
                depth as nat,
            ) {
                (#[trigger] table@[u]) <= depth && is_distance(
                    self.links@,
                    reverse,
                    origin as int,
                    u,
                    table@[u] as nat,
                )
            } else {
                table@[u] == UNREACHED
            } by {
                lemma_reach_is_within(self.links@, reverse, origin as int, u, depth as nat);
                if marked@[u] {
                    lemma_reach_is_within(
                        self.links@,
                        reverse,
                        origin as int,
                        u,
                        table@[u] as nat,
                    );
                    if table@[u] != 0 {
                        lemma_reach_is_within(
                            self.links@,
                            reverse,
                            origin as int,
                            u,
                            (table@[u] - 1) as nat,
                        );
                    }
                }
            }
        }
        table
    }

    /// The sources of the edges that lie on a walk of at most `depth` edges
    /// from `origin` to `v`, each once, in the order of their first edge.
    pub fn sources_toward(&self, origin: usize, v: usize, depth: u16, reverse: Option<bool>) -> (found:
        Vec<DataSource>)
        requires
            self.wf(),
            origin < self.vertices@.len(),
            v < self.vertices@.len(),
        ensures
            forall|s: DataSource|
                found@.contains(s) == is_source_toward(
                    self.links@,
                    reverse,
                    origin as int,
                    v as int,
                    depth as nat,
                    s,
                ),
            forall|i: int, j: int| 0 <= i < j < found@.len() ==> found@[i] != found@[j],
    {
        let from_origin = self.distances(origin, depth, reverse);
        let from_end = self.distances(v, depth, reverse);
        let mut found: Vec<DataSource> = Vec::new();
        let mut k: usize = 0;
        while k < self.links.len()
            invariant
                k <= self.links@.len(),
                self.wf(),
                from_origin@.len() == self.vertices@.len(),
                from_end@.len() == self.vertices@.len(),
                is_distance_table(
                    self.links@,
                    reverse,
                    origin as int,
                    depth as nat,
                    from_origin@,
                ),
                is_distance_table(self.links@, reverse, v as int, depth as nat, from_end@),
                forall|s: DataSource|
                    found@.contains(s) == exists|j: int|
                        0 <= j < k && #[trigger] lies_on(
                            self.links@,
                            reverse,
                            origin as int,
                            v as int,
                            depth as nat,
                            j,
                        ) && self.links@[j].source == s,
                forall|i: int, j: int| 0 <= i < j < found@.len() ==> found@[i] != found@[j],
            decreases self.links@.len() - k,
        {
            let link = &self.links[k];
            let follow = match reverse {
                None => true,
                Some(r) => link.reverse == r,
            };
            let a = from_origin[link.from];
            let b = from_end[link.to];
            let c = from_origin[link.to];
            let d = from_end[link.from];
            let limit = depth as u32;
            let fits_forth = a <= limit && b <= limit && a + 1 + b <= limit;
            let fits_back = c <= limit && d <= limit && c + 1 + d <= limit;
            let ghost before = found@;
            proof {
                lemma_lies_on_by_distance(
                    self.links@,
                    reverse,
                    origin as int,
                    v as int,
                    depth as nat,
                    k as int,
                    from_origin@,
                    from_end@,
                );
            }
            let lies = follow && (fits_forth || fits_back);
            assert(lies == lies_on(
                self.links@,
                reverse,
                origin as int,
                v as int,
                depth as nat,
                k as int,
            ));
            let known = has_source(&found, link.source);
            if lies && !known {
                found.push(link.source);
            }
            proof {
                assert forall|s: DataSource|
                    found@.contains(s) == exists|j: int|
                        0 <= j < k + 1 && #[trigger] lies_on(
                            self.links@,
                            reverse,
                            origin as int,
                            v as int,
                            depth as nat,
                            j,
                        ) && self.links@[j].source == s by {
                    let old_has = exists|j: int|
                        0 <= j < k && #[trigger] lies_on(
                            self.links@,
                            reverse,
                            origin as int,
                            v as int,
                            depth as nat,
                            j,
                        ) && self.links@[j].source == s;
                    assert(before.contains(s) == old_has);
                    if found@.contains(s) {
                        let i = choose|i: int| 0 <= i < found@.len() && found@[i] == s;
                        if i < before.len() {
                            assert(before[i] == s);
                            assert(before.contains(s));
                        } else {
                            assert(s == link.source && lies);
                            assert(lies_on(
                                self.links@,
                                reverse,
                                origin as int,
                                v as int,
                                depth as nat,
                                k as int,
                            ) && self.links@[k as int].source == s);
                        }
                    }
                    if exists|j: int|
                        0 <= j < k + 1 && #[trigger] lies_on(
                            self.links@,
                            reverse,
                            origin as int,
                            v as int,
                            depth as nat,
                            j,
                        ) && self.links@[j].source == s {
                        let j = choose|j: int|
                            0 <= j < k + 1 && #[trigger] lies_on(
                                self.links@,
                                reverse,
                                origin as int,
                                v as int,
                                depth as nat,
                                j,
                            ) && self.links@[j].source == s;
                        if j < k {
                            assert(before.contains(s));
                            let i = choose|i: int| 0 <= i < before.len() && before[i] == s;
                            assert(found@[i] == s);
                        } else {
                            assert(lies && s == link.source);
                            if known {
                                assert(before.contains(s));
                                let i = choose|i: int| 0 <= i < before.len() && before[i] == s;
                                assert(found@[i] == s);
                            } else {
                                assert(found@[before.len() as int] == s);
                            }
                        }
                    }
                }
            }
            k += 1;
        }
        proof {
            assert forall|s: DataSource|
                found@.contains(s) == is_source_toward(
                    self.links@,
                    reverse,
                    origin as int,
                    v as int,
                    depth as nat,
                    s,
                ) by {
                if is_source_toward(self.links@, reverse, origin as int, v as int, depth as nat, s) {
                    let j = choose|j: int|
                        #[trigger] lies_on(
                            self.links@,
                            reverse,
                            origin as int,
                            v as int,
                            depth as nat,
                            j,
                        ) && self.links@[j].source == s;
                    assert(0 <= j < k);
                }
            }
        }
        found
    }

    /// The identities within `depth` edges of `origin`, in ascending order
    /// of position and without the origin, each with the sources of the
    /// edges on the walks of at most `depth` edges that lead to it.
    pub fn neighbors_with_source(&self, origin: usize, depth: u16, reverse: Option<bool>) -> (found:
        Vec<Reached>)
        requires
            self.wf(),
            origin < self.vertices@.len(),
        ensures
            forall|i: int|
                0 <= i < found@.len() ==> self.is_neighbor(
                    origin as int,
                    (#[trigger] found@[i]).vertex as int,
                    depth as nat,
                    reverse,
                ),
            forall|v: int|
                self.is_neighbor(origin as int, v, depth as nat, reverse) ==> exists|i: int|
                    0 <= i < found@.len() && (#[trigger] found@[i]).vertex == v,
            forall|i: int, j: int|
                0 <= i < j < found@.len() ==> found@[i].vertex < found@[j].vertex,
            forall|i: int|
                0 <= i < found@.len() ==> (#[trigger] found@[i]).has_sources_toward(
                    self.links@,
                    reverse,
                    origin as int,
                    depth as nat,
                ),
    {
        let positions = self.neighbors(origin, depth, reverse);
        let found = self.with_sources(origin, &positions, depth, reverse);
        let n = self.vertices.len();
        proof {
            assert forall|i: int| 0 <= i < found@.len() implies self.is_neighbor(
                origin as int,
                (#[trigger] found@[i]).vertex as int,
                depth as nat,
                reverse,
            ) by {
                assert(found@[i].vertex == positions@[i]);
            }
            assert forall|i: int, j: int| 0 <= i < j < found@.len() implies found@[i].vertex
                < found@[j].vertex by {
                assert(found@[i].vertex == positions@[i] && found@[j].vertex == positions@[j]);
            }
            assert forall|v: int|
                self.is_neighbor(origin as int, v, depth as nat, reverse) implies exists|i: int|
                0 <= i < found@.len() && (#[trigger] found@[i]).vertex == v by {
                assert(0 <= v < n);
                let at = v as usize;
                assert(positions@.contains(at));
                let i = choose|i: int| 0 <= i < positions@.len() && positions@[i] == at;
                assert(found@[i].vertex == positions@[i]);
                assert(0 <= i < found@.len() && found@[i].vertex == v);
            }
        }
        found
    }

    /// The given positions, each with the sources of the edges on the walks
    /// of at most `depth` edges that lead to it from `origin`.
    fn with_sources(
        &self,
        origin: usize,
        positions: &Vec<usize>,
        depth: u16,
        reverse: Option<bool>,
    ) -> (found: Vec<Reached>)
        requires
            self.wf(),
            origin < self.vertices@.len(),
            forall|j: int|
                0 <= j < positions@.len() ==> (#[trigger] positions@[j]) < self.vertices@.len(),
        ensures
            found@.len() == positions@.len(),
            forall|j: int|
                0 <= j < found@.len() ==> (#[trigger] found@[j]).vertex == positions@[j]
                    && found@[j].has_sources_toward(
                    self.links@,
                    reverse,
                    origin as int,
                    depth as nat,
                ),
    {
        let mut found: Vec<Reached> = Vec::new();
        let mut i: usize = 0;
        while i < positions.len()
            invariant
                i <= positions.len(),
                self.wf(),
                origin < self.vertices@.len(),
                found@.len() == i,
                forall|j: int|
                    0 <= j < positions@.len() ==> (#[trigger] positions@[j])
                        < self.vertices@.len(),
                forall|j: int| 0 <= j < i ==> (#[trigger] found@[j]).vertex == positions@[j],
                forall|j: int|
                    0 <= j < i ==> (#[trigger] found@[j]).has_sources_toward(
                        self.links@,
                        reverse,
                        origin as int,
                        depth as nat,
                    ),
            decreases positions.len() - i,
        {
            let vertex = positions[i];
            let sources = self.sources_toward(origin, vertex, depth, reverse);
            let reached = Reached { vertex, sources };
            assert(reached.has_sources_toward(
                self.links@,
                reverse,
                origin as int,
                depth as nat,
            ));
            found.push(reached);
            i += 1;
        }
        found
    }
}

} // verus!
