//! Walks over the edges: what it means that an identity lies within some
//! number of edges of another, at what distance, and which edges lie on the
//! way.

use crate::store::Link;
use crate::upstream::DataSource;
use vstd::prelude::*;

verus! {

/// Whether a traversal with the given filter follows the edge: no filter
/// follows every edge, `Some(r)` those whose `reverse` is `r`.
pub open spec fn passes(link: Link, reverse: Option<bool>) -> bool {
    match reverse {
        None => true,
        Some(r) => link.reverse == r,
    }
}

/// Whether the edge joins `a` and `b`, in either direction.
pub open spec fn joins(link: Link, a: int, b: int) -> bool {
    (link.from == a && link.to == b) || (link.from == b && link.to == a)
}

/// Whether some edge that the filter follows joins `a` and `b`.
pub open spec fn joined(links: Seq<Link>, reverse: Option<bool>, a: int, b: int) -> bool {
    exists|k: int| 0 <= k < links.len() && passes(#[trigger] links[k], reverse) && joins(links[k], a, b)
}

/// A walk: at least one vertex, each joined to the next.
pub open spec fn is_walk(links: Seq<Link>, reverse: Option<bool>, path: Seq<int>) -> bool {
    path.len() >= 1 && forall|i: int|
        0 <= i < path.len() - 1 ==> joined(links, reverse, #[trigger] path[i], path[i + 1])
}

/// Whether a walk of at most `depth` edges leads from `origin` to `v`.
pub open spec fn within(
    links: Seq<Link>,
    reverse: Option<bool>,
    origin: int,
    v: int,
    depth: nat,
) -> bool {
    exists|path: Seq<int>|
        #[trigger] is_walk(links, reverse, path) && path.first() == origin && path.last() == v
            && path.len() <= depth + 1
}

/// Whether `v` is found in at most `depth` rounds of widening from `origin`.
pub open spec fn reach(
    links: Seq<Link>,
    reverse: Option<bool>,
    origin: int,
    v: int,
    depth: nat,
) -> bool
    decreases depth,
{
    if depth == 0 {
        v == origin
    } else {
        reach(links, reverse, origin, v, (depth - 1) as nat) || exists|u: int|
            reach(links, reverse, origin, u, (depth - 1) as nat) && #[trigger] joined(
                links,
                reverse,
                u,
                v,
            )
    }
}

/// What is found in `depth` rounds has a walk of at most `depth` edges.
pub proof fn lemma_reach_has_walk(
    links: Seq<Link>,
    reverse: Option<bool>,
    origin: int,
    v: int,
    depth: nat,
)
    requires
        reach(links, reverse, origin, v, depth),
    ensures
        within(links, reverse, origin, v, depth),
    decreases depth,
{
    if depth == 0 {
        let path = seq![origin];
        assert(is_walk(links, reverse, path));
    } else if reach(links, reverse, origin, v, (depth - 1) as nat) {
        lemma_reach_has_walk(links, reverse, origin, v, (depth - 1) as nat);
        let path = choose|path: Seq<int>|
            #[trigger] is_walk(links, reverse, path) && path.first() == origin && path.last() == v
                && path.len() <= depth;
        assert(is_walk(links, reverse, path) && path.len() <= depth + 1);
    } else {
        let u = choose|u: int|
            reach(links, reverse, origin, u, (depth - 1) as nat) && #[trigger] joined(
                links,
                reverse,
                u,
                v,
            );
        lemma_reach_has_walk(links, reverse, origin, u, (depth - 1) as nat);
        let head = choose|path: Seq<int>|
            #[trigger] is_walk(links, reverse, path) && path.first() == origin && path.last() == u
                && path.len() <= depth;
        let path = head.push(v);
        assert forall|i: int| 0 <= i < path.len() - 1 implies joined(
            links,
            reverse,
            #[trigger] path[i],
            path[i + 1],
        ) by {
            if i < head.len() - 1 {
                assert(path[i] == head[i] && path[i + 1] == head[i + 1]);
            } else {
                assert(path[i] == u && path[i + 1] == v);
            }
        }
        assert(is_walk(links, reverse, path));
    }
}

/// What is found in some rounds is found in more.
pub proof fn lemma_reach_grows(
    links: Seq<Link>,
    reverse: Option<bool>,
    origin: int,
    v: int,
    depth: nat,
    more: nat,
)
    requires
        reach(links, reverse, origin, v, depth),
        depth <= more,
    ensures
        reach(links, reverse, origin, v, more),
    decreases more,
{
    if depth < more {
        lemma_reach_grows(links, reverse, origin, v, depth, (more - 1) as nat);
    }
}

/// The end of a walk of at most `depth` edges is found in `depth` rounds.
pub proof fn lemma_walk_is_reached(
    links: Seq<Link>,
    reverse: Option<bool>,
    path: Seq<int>,
    depth: nat,
)
    requires
        is_walk(links, reverse, path),
        path.len() <= depth + 1,
    ensures
        reach(links, reverse, path.first(), path.last(), depth),
    decreases path.len(),
{
    if path.len() == 1 {
        lemma_reach_grows(links, reverse, path.first(), path.last(), 0, depth);
    } else {
        let head = path.drop_last();
        assert forall|i: int| 0 <= i < head.len() - 1 implies joined(
            links,
            reverse,
            #[trigger] head[i],
            head[i + 1],
        ) by {
            assert(head[i] == path[i] && head[i + 1] == path[i + 1]);
        }
        lemma_walk_is_reached(links, reverse, head, (depth - 1) as nat);
        let i = path.len() - 2;
        assert(joined(links, reverse, path[i], path[i + 1]));
        assert(head.last() == path[i]);
        assert(head.first() == path.first());
    }
}

/// Widening by rounds finds exactly the vertices within `depth` edges.
pub proof fn lemma_reach_is_within(
    links: Seq<Link>,
    reverse: Option<bool>,
    origin: int,
    v: int,
    depth: nat,
)
    ensures
        reach(links, reverse, origin, v, depth) == within(links, reverse, origin, v, depth),
{
    if reach(links, reverse, origin, v, depth) {
        lemma_reach_has_walk(links, reverse, origin, v, depth);
    }
    if within(links, reverse, origin, v, depth) {
        let path = choose|path: Seq<int>|
            #[trigger] is_walk(links, reverse, path) && path.first() == origin && path.last() == v
                && path.len() <= depth + 1;
        lemma_walk_is_reached(links, reverse, path, depth);
    }
}

/// A walk that a filter follows is a walk when nothing is filtered.
pub proof fn lemma_filtered_walk_is_walk(links: Seq<Link>, reverse: Option<bool>, path: Seq<int>)
    requires
        is_walk(links, reverse, path),
    ensures
        is_walk(links, None, path),
{
    assert forall|i: int| 0 <= i < path.len() - 1 implies joined(
        links,
        None,
        #[trigger] path[i],
        path[i + 1],
    ) by {
        assert(joined(links, reverse, path[i], path[i + 1]));
        let k = choose|k: int|
            0 <= k < links.len() && passes(#[trigger] links[k], reverse) && joins(
                links[k],
                path[i],
                path[i + 1],
            );
        assert(passes(links[k], None));
    }
}

/// The mark of an unreached vertex in a table of distances.
pub const UNREACHED: u32 = 0xffff_ffff;

/// Whether `r` is the least number of edges of a walk from `origin` to `v`.
pub open spec fn is_distance(
    links: Seq<Link>,
    reverse: Option<bool>,
    origin: int,
    v: int,
    r: nat,
) -> bool {
    within(links, reverse, origin, v, r) && (r == 0 || !within(
        links,
        reverse,
        origin,
        v,
        (r - 1) as nat,
    ))
}

/// Whether `table` gives, for every vertex within `depth` edges of `origin`,
/// its distance from `origin`, and marks the others unreached.
pub open spec fn is_distance_table(
    links: Seq<Link>,
    reverse: Option<bool>,
    origin: int,
    depth: nat,
    table: Seq<u32>,
) -> bool {
    forall|u: int|
        0 <= u < table.len() ==> if within(links, reverse, origin, u, depth) {
            (#[trigger] table[u]) <= depth && is_distance(
                links,
                reverse,
                origin,
                u,
                table[u] as nat,
            )
        } else {
            table[u] == UNREACHED
        }
}

/// Whether the walk steps over the edge `k` from its place `i` to the next.
pub open spec fn walk_uses(
    links: Seq<Link>,
    reverse: Option<bool>,
    path: Seq<int>,
    i: int,
    k: int,
) -> bool {
    is_walk(links, reverse, path) && 0 <= i < path.len() - 1 && joins(
        links[k],
        path[i],
        path[i + 1],
    )
}

/// Whether the edge `k` lies on a walk of at most `depth` edges, all followed
/// by the filter, from `origin` to `v`.
pub open spec fn lies_on(
    links: Seq<Link>,
    reverse: Option<bool>,
    origin: int,
    v: int,
    depth: nat,
    k: int,
) -> bool {
    0 <= k < links.len() && passes(links[k], reverse) && exists|path: Seq<int>, i: int|
        #[trigger] walk_uses(links, reverse, path, i, k) && path.first() == origin && path.last()
            == v && path.len() <= depth + 1
}

/// Whether `s` is the source of an edge on a walk of at most `depth` edges
/// from `origin` to `v`.
pub open spec fn is_source_toward(
    links: Seq<Link>,
    reverse: Option<bool>,
    origin: int,
    v: int,
    depth: nat,
    s: DataSource,
) -> bool {
    exists|k: int| #[trigger] lies_on(links, reverse, origin, v, depth, k) && links[k].source == s
}

/// Whether the distances allow a walk of at most `depth` edges that comes to
/// `a` from the origin, steps to `b`, and goes on to the end.
pub open spec fn fits(from_origin: Seq<u32>, to_end: Seq<u32>, depth: nat, a: int, b: int) -> bool {
    0 <= a < from_origin.len() && 0 <= b < to_end.len() && from_origin[a] <= depth && to_end[b]
        <= depth && from_origin[a] + 1 + to_end[b] <= depth
}

/// A walk within some number of edges is within any greater number.
pub proof fn lemma_within_grows(
    links: Seq<Link>,
    reverse: Option<bool>,
    a: int,
    b: int,
    r: nat,
    more: nat,
)
    requires
        within(links, reverse, a, b, r),
        r <= more,
    ensures
        within(links, reverse, a, b, more),
{
    let path = choose|path: Seq<int>|
        #[trigger] is_walk(links, reverse, path) && path.first() == a && path.last() == b
            && path.len() <= r + 1;
    assert(is_walk(links, reverse, path) && path.len() <= more + 1);
}

/// A walk read backwards is a walk.
pub proof fn lemma_within_symmetric(
    links: Seq<Link>,
    reverse: Option<bool>,
    a: int,
    b: int,
    r: nat,
)
    requires
        within(links, reverse, a, b, r),
    ensures
        within(links, reverse, b, a, r),
{
    let path = choose|path: Seq<int>|
        #[trigger] is_walk(links, reverse, path) && path.first() == a && path.last() == b
            && path.len() <= r + 1;
    let back = Seq::new(path.len(), |i: int| path[path.len() - 1 - i]);
    assert forall|i: int| 0 <= i < back.len() - 1 implies joined(
        links,
        reverse,
        #[trigger] back[i],
        back[i + 1],
    ) by {
        let j = path.len() - 2 - i;
        assert(joined(links, reverse, path[j], path[j + 1]));
        let k = choose|k: int|
            0 <= k < links.len() && passes(#[trigger] links[k], reverse) && joins(
                links[k],
                path[j],
                path[j + 1],
            );
        assert(joins(links[k], back[i], back[i + 1]));
    }
    assert(is_walk(links, reverse, back));
    assert(back.first() == b && back.last() == a);
}

/// The least number of edges is at most any number of edges that suffices.
pub proof fn lemma_distance_is_least(
    links: Seq<Link>,
    reverse: Option<bool>,
    a: int,
    b: int,
    d: nat,
    r: nat,
)
    requires
        is_distance(links, reverse, a, b, d),
        within(links, reverse, a, b, r),
    ensures
        d <= r,
{
    if d > r {
        lemma_within_grows(links, reverse, a, b, r, (d - 1) as nat);
    }
}

/// Two walks and a step between them make one walk over that step.
proof fn lemma_walks_join(
    links: Seq<Link>,
    reverse: Option<bool>,
    k: int,
    head: Seq<int>,
    tail: Seq<int>,
)
    requires
        0 <= k < links.len(),
        passes(links[k], reverse),
        is_walk(links, reverse, head),
        is_walk(links, reverse, tail),
        joins(links[k], head.last(), tail.first()),
    ensures
        walk_uses(links, reverse, head + tail, head.len() - 1, k),
        (head + tail).first() == head.first(),
        (head + tail).last() == tail.last(),
{
    let path = head + tail;
    assert forall|i: int| 0 <= i < path.len() - 1 implies joined(
        links,
        reverse,
        #[trigger] path[i],
        path[i + 1],
    ) by {
        if i < head.len() - 1 {
            assert(path[i] == head[i] && path[i + 1] == head[i + 1]);
        } else if i == head.len() - 1 {
            assert(path[i] == head.last() && path[i + 1] == tail.first());
            assert(passes(links[k], reverse) && joins(links[k], path[i], path[i + 1]));
        } else {
            let j = i - head.len();
            assert(path[i] == tail[j] && path[i + 1] == tail[j + 1]);
        }
    }
    assert(path[head.len() - 1] == head.last());
    assert(path[head.len() - 1 + 1] == tail.first());
}

/// A walk over a step falls into the walk up to the step and the walk after
/// it.
proof fn lemma_walk_splits(links: Seq<Link>, reverse: Option<bool>, path: Seq<int>, i: int)
    requires
        is_walk(links, reverse, path),
        0 <= i < path.len() - 1,
    ensures
        within(links, reverse, path.first(), path[i], i as nat),
        within(links, reverse, path[i + 1], path.last(), (path.len() - 2 - i) as nat),
{
    let head = path.take(i + 1);
    let tail = path.skip(i + 1);
    assert forall|j: int| 0 <= j < head.len() - 1 implies joined(
        links,
        reverse,
        #[trigger] head[j],
        head[j + 1],
    ) by {
        assert(head[j] == path[j] && head[j + 1] == path[j + 1]);
    }
    assert forall|j: int| 0 <= j < tail.len() - 1 implies joined(
        links,
        reverse,
        #[trigger] tail[j],
        tail[j + 1],
    ) by {
        assert(tail[j] == path[i + 1 + j] && tail[j + 1] == path[i + 1 + j + 1]);
    }
    assert(is_walk(links, reverse, head) && head.first() == path.first() && head.last()
        == path[i]);
    assert(is_walk(links, reverse, tail) && tail.first() == path[i + 1] && tail.last()
        == path.last());
}

/// An edge lies on a walk of at most `depth` edges from `origin` to `v`
/// exactly if the filter follows it and the distances of its ends, one from
/// `origin` and the other from `v`, leave room for it.
pub proof fn lemma_lies_on_by_distance(
    links: Seq<Link>,
    reverse: Option<bool>,
    origin: int,
    v: int,
    depth: nat,
    k: int,
    from_origin: Seq<u32>,
    from_end: Seq<u32>,
)
    requires
        0 <= k < links.len(),
        links[k].from < from_origin.len(),
        links[k].to < from_origin.len(),
        from_origin.len() == from_end.len(),
        depth < UNREACHED,
        is_distance_table(links, reverse, origin, depth, from_origin),
        is_distance_table(links, reverse, v, depth, from_end),
    ensures
        lies_on(links, reverse, origin, v, depth, k) == (passes(links[k], reverse) && (fits(
            from_origin,
            from_end,
            depth,
            links[k].from as int,
            links[k].to as int,
        ) || fits(from_origin, from_end, depth, links[k].to as int, links[k].from as int))),
{
    let link = links[k];
    if lies_on(links, reverse, origin, v, depth, k) {
        let (path, i) = choose|path: Seq<int>, i: int|
            #[trigger] walk_uses(links, reverse, path, i, k) && path.first() == origin
                && path.last() == v && path.len() <= depth + 1;
        let a = path[i];
        let b = path[i + 1];
        lemma_walk_splits(links, reverse, path, i);
        let j = (path.len() - 2 - i) as nat;
        lemma_within_symmetric(links, reverse, b, v, j);
        lemma_within_grows(links, reverse, origin, a, i as nat, depth);
        lemma_within_grows(links, reverse, v, b, j, depth);
        assert(from_origin[a] <= depth);
        assert(from_end[b] <= depth);
        lemma_distance_is_least(links, reverse, origin, a, from_origin[a] as nat, i as nat);
        lemma_distance_is_least(links, reverse, v, b, from_end[b] as nat, j);
        assert(fits(from_origin, from_end, depth, a, b));
    }
    if passes(link, reverse) {
        if fits(from_origin, from_end, depth, link.from as int, link.to as int) {
            lemma_fitting_edge_lies_on(
                links,
                reverse,
                origin,
                v,
                depth,
                k,
                from_origin,
                from_end,
                link.from as int,
                link.to as int,
            );
        }
        if fits(from_origin, from_end, depth, link.to as int, link.from as int) {
            lemma_fitting_edge_lies_on(
                links,
                reverse,
                origin,
                v,
                depth,
                k,
                from_origin,
                from_end,
                link.to as int,
                link.from as int,
            );
        }
    }
}

proof fn lemma_fitting_edge_lies_on(
    links: Seq<Link>,
    reverse: Option<bool>,
    origin: int,
    v: int,
    depth: nat,
    k: int,
    from_origin: Seq<u32>,
    from_end: Seq<u32>,
    a: int,
    b: int,
)
    requires
        0 <= k < links.len(),
        passes(links[k], reverse),
        joins(links[k], a, b),
        depth < UNREACHED,
        is_distance_table(links, reverse, origin, depth, from_origin),
        is_distance_table(links, reverse, v, depth, from_end),
        fits(from_origin, from_end, depth, a, b),
    ensures
        lies_on(links, reverse, origin, v, depth, k),
{
    let i = from_origin[a] as nat;
    let j = from_end[b] as nat;
    assert(within(links, reverse, origin, a, depth));
    assert(within(links, reverse, v, b, depth));
    assert(within(links, reverse, origin, a, i));
    assert(within(links, reverse, v, b, j));
    lemma_within_symmetric(links, reverse, v, b, j);
    let head = choose|path: Seq<int>|
        #[trigger] is_walk(links, reverse, path) && path.first() == origin && path.last() == a
            && path.len() <= i + 1;
    let tail = choose|path: Seq<int>|
        #[trigger] is_walk(links, reverse, path) && path.first() == b && path.last() == v
            && path.len() <= j + 1;
    lemma_walks_join(links, reverse, k, head, tail);
    let path = head + tail;
    assert(walk_uses(links, reverse, path, head.len() - 1, k) && path.first() == origin
        && path.last() == v && path.len() <= depth + 1);
}

} // verus!
