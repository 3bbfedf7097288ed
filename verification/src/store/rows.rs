//! The rows of the identities: where a row is found, what an upsert makes of
//! the rows, and what holds of every upsert.

use crate::tigergraph::identity::IdentityView;
use crate::upstream::Platform;
use vstd::prelude::*;

verus! {

/// Whether a row is the row of `(platform, identity)`.
pub open spec fn is_row_of(row: IdentityView, platform: Platform, identity: Seq<char>) -> bool {
    row.platform == platform && row.identity == identity
}

/// The position of the first row of `(platform, identity)` at or after `from`;
/// the number of rows where there is none.
pub open spec fn first_match(
    rows: Seq<IdentityView>,
    platform: Platform,
    identity: Seq<char>,
    from: int,
) -> int
    decreases rows.len() - from,
{
    if from < 0 || from >= rows.len() {
        rows.len() as int
    } else if is_row_of(rows[from], platform, identity) {
        from
    } else {
        first_match(rows, platform, identity, from + 1)
    }
}

/// The position of the row of `(platform, identity)`; the number of rows
/// where the store has none.
pub open spec fn position(rows: Seq<IdentityView>, platform: Platform, identity: Seq<char>)
    -> int {
    first_match(rows, platform, identity, 0)
}

/// The rows after an upsert of `incoming`: a new identity is appended as it
/// comes, an existing row is combined with it attribute by attribute.
pub open spec fn upsert_rows(rows: Seq<IdentityView>, incoming: IdentityView) -> Seq<
    IdentityView,
> {
    let k = position(rows, incoming.platform, incoming.identity);
    if k < rows.len() {
        rows.update(k, rows[k].upserted(incoming))
    } else {
        rows.push(incoming)
    }
}

/// The rows after a sequence of upserts, first to last.
pub open spec fn upsert_all(rows: Seq<IdentityView>, incoming: Seq<IdentityView>) -> Seq<
    IdentityView,
>
    decreases incoming.len(),
{
    if incoming.len() == 0 {
        rows
    } else {
        upsert_rows(upsert_all(rows, incoming.drop_last()), incoming.last())
    }
}

/// The greatest `updated_at` among `base` and a sequence of identities.
pub open spec fn max_updated_at(base: i64, incoming: Seq<IdentityView>) -> i64
    decreases incoming.len(),
{
    if incoming.len() == 0 {
        base
    } else {
        let m = max_updated_at(base, incoming.drop_last());
        if incoming.last().updated_at > m {
            incoming.last().updated_at
        } else {
            m
        }
    }
}

/// `first_match` is the one position with no row of the key before it and,
/// unless it is the end, a row of the key at it.
pub proof fn lemma_first_match(
    rows: Seq<IdentityView>,
    platform: Platform,
    identity: Seq<char>,
    from: int,
    k: int,
)
    requires
        0 <= from <= k <= rows.len(),
        forall|j: int| from <= j < k ==> !is_row_of(#[trigger] rows[j], platform, identity),
        k < rows.len() ==> is_row_of(rows[k], platform, identity),
    ensures
        first_match(rows, platform, identity, from) == k,
    decreases k - from,
{
    if from < k {
        lemma_first_match(rows, platform, identity, from + 1, k);
    }
}

/// What `first_match` returns: a position in range or the end, with no row
/// of the key before it.
pub proof fn lemma_first_match_is_first(
    rows: Seq<IdentityView>,
    platform: Platform,
    identity: Seq<char>,
    from: int,
)
    requires
        0 <= from <= rows.len(),
    ensures
        from <= first_match(rows, platform, identity, from) <= rows.len(),
        forall|j: int|
            from <= j < first_match(rows, platform, identity, from) ==> !is_row_of(
                #[trigger] rows[j],
                platform,
                identity,
            ),
        first_match(rows, platform, identity, from) < rows.len() ==> is_row_of(
            rows[first_match(rows, platform, identity, from)],
            platform,
            identity,
        ),
    decreases rows.len() - from,
{
    if from < rows.len() && !is_row_of(rows[from], platform, identity) {
        lemma_first_match_is_first(rows, platform, identity, from + 1);
    }
}

/// An upsert keeps every row in its place with its platform and identity, and
/// leaves the row of the incoming key at the position it reports.
pub proof fn lemma_upsert_rows_shape(rows: Seq<IdentityView>, incoming: IdentityView)
    ensures
        upsert_rows(rows, incoming).len() >= rows.len(),
        forall|j: int|
            0 <= j < rows.len() ==> (#[trigger] upsert_rows(rows, incoming)[j]).platform
                == rows[j].platform && upsert_rows(rows, incoming)[j].identity
                == rows[j].identity,
        position(upsert_rows(rows, incoming), incoming.platform, incoming.identity) == position(
            rows,
            incoming.platform,
            incoming.identity,
        ),
        position(rows, incoming.platform, incoming.identity) < upsert_rows(rows, incoming).len(),
{
    let k = position(rows, incoming.platform, incoming.identity);
    lemma_first_match_is_first(rows, incoming.platform, incoming.identity, 0);
    let after = upsert_rows(rows, incoming);
    lemma_first_match(after, incoming.platform, incoming.identity, 0, k);
}

/// Upserting an identity twice leaves the store as upserting it once.
pub proof fn lemma_upsert_idempotent(rows: Seq<IdentityView>, incoming: IdentityView)
    ensures
        upsert_rows(upsert_rows(rows, incoming), incoming) == upsert_rows(rows, incoming),
{
    let once = upsert_rows(rows, incoming);
    let k = position(rows, incoming.platform, incoming.identity);
    lemma_upsert_rows_shape(rows, incoming);
    lemma_first_match_is_first(rows, incoming.platform, incoming.identity, 0);
    if k < rows.len() {
        assert(once == rows.update(k, rows[k].upserted(incoming)));
        assert(once[k] == rows[k].upserted(incoming));
        assert(is_row_of(rows[k], incoming.platform, incoming.identity));
    } else {
        assert(once == rows.push(incoming));
        assert(once[k] == incoming);
    }
    assert(once[k].upserted(incoming) == once[k]);
    assert(upsert_rows(once, incoming) =~= once);
}

/// After any sequence of upserts of one row, the stored `updated_at` is the
/// greatest of all that were sent, and of the one stored before where the row
/// existed.
pub proof fn lemma_updated_at_is_max(
    rows: Seq<IdentityView>,
    incoming: Seq<IdentityView>,
    platform: Platform,
    identity: Seq<char>,
)
    requires
        incoming.len() > 0,
        forall|i: int|
            0 <= i < incoming.len() ==> is_row_of(#[trigger] incoming[i], platform, identity),
    ensures
        position(upsert_all(rows, incoming), platform, identity) == position(
            rows,
            platform,
            identity,
        ),
        position(rows, platform, identity) < upsert_all(rows, incoming).len(),
        upsert_all(rows, incoming)[position(rows, platform, identity)].updated_at == (if position(
            rows,
            platform,
            identity,
        ) < rows.len() {
            max_updated_at(rows[position(rows, platform, identity)].updated_at, incoming)
        } else {
            max_updated_at(incoming[0].updated_at, incoming)
        }),
    decreases incoming.len(),
{
    let k = position(rows, platform, identity);
    let head = incoming.drop_last();
    let last = incoming.last();
    lemma_first_match_is_first(rows, platform, identity, 0);
    if head.len() == 0 {
        assert(upsert_all(rows, head) == rows);
        lemma_upsert_rows_shape(rows, last);
        assert(max_updated_at(incoming[0].updated_at, head) == incoming[0].updated_at);
        if k < rows.len() {
            assert(max_updated_at(rows[k].updated_at, head) == rows[k].updated_at);
        }
    } else {
        assert(head[0] == incoming[0]);
        lemma_updated_at_is_max(rows, head, platform, identity);
        lemma_upsert_rows_shape(upsert_all(rows, head), last);
    }
}

/// An upsert never changes the platform or the identity of a stored record.
pub proof fn lemma_primary_key_stable(rows: Seq<IdentityView>, incoming: IdentityView, j: int)
    requires
        0 <= j < rows.len(),
    ensures
        j < upsert_rows(rows, incoming).len(),
        upsert_rows(rows, incoming)[j].platform == rows[j].platform,
        upsert_rows(rows, incoming)[j].identity == rows[j].identity,
        upsert_rows(rows, incoming)[j].primary_key() == rows[j].primary_key(),
{
    lemma_upsert_rows_shape(rows, incoming);
}

/// An upsert changes nothing of a stored record but its `uid`, its
/// `display_name`, its `profile_url`, its `avatar_url` and its `updated_at`:
/// the identifier, the platform, the identity, the creation time, the time
/// it was first seen, the expiry and the primary-domain flag stay.
pub proof fn lemma_upsert_keeps_written_once(
    rows: Seq<IdentityView>,
    incoming: IdentityView,
    j: int,
)
    requires
        0 <= j < rows.len(),
    ensures
        j < upsert_rows(rows, incoming).len(),
        upsert_rows(rows, incoming)[j].uuid == rows[j].uuid,
        upsert_rows(rows, incoming)[j].platform == rows[j].platform,
        upsert_rows(rows, incoming)[j].identity == rows[j].identity,
        upsert_rows(rows, incoming)[j].created_at == rows[j].created_at,
        upsert_rows(rows, incoming)[j].added_at == rows[j].added_at,
        upsert_rows(rows, incoming)[j].expired_at == rows[j].expired_at,
        upsert_rows(rows, incoming)[j].reverse == rows[j].reverse,
{
    lemma_first_match_is_first(rows, incoming.platform, incoming.identity, 0);
}

/// Right after an upsert of an identity that is fresh at `now`, the stored
/// record of its key is not outdated at `now`.
pub proof fn lemma_fresh_after_upsert(rows: Seq<IdentityView>, incoming: IdentityView, now: i64)
    requires
        !incoming.is_outdated(now),
    ensures
        position(rows, incoming.platform, incoming.identity) < upsert_rows(rows, incoming).len(),
        !upsert_rows(rows, incoming)[position(
            upsert_rows(rows, incoming),
            incoming.platform,
            incoming.identity,
        )].is_outdated(now),
{
    lemma_upsert_rows_shape(rows, incoming);
    lemma_first_match_is_first(rows, incoming.platform, incoming.identity, 0);
    let k = position(rows, incoming.platform, incoming.identity);
    if k < rows.len() {
        assert(upsert_rows(rows, incoming)[k] == rows[k].upserted(incoming));
    } else {
        assert(upsert_rows(rows, incoming)[k] == incoming);
    }
}

/// No two rows are rows of one `(platform, identity)`.
pub open spec fn unique_keys(rows: Seq<IdentityView>) -> bool {
    forall|i: int, j: int|
        0 <= i < j < rows.len() ==> !is_row_of(
            #[trigger] rows[i],
            (#[trigger] rows[j]).platform,
            rows[j].identity,
        )
}

/// An upsert keeps the store at one row per key.
pub proof fn lemma_upsert_keeps_unique(rows: Seq<IdentityView>, incoming: IdentityView)
    requires
        unique_keys(rows),
    ensures
        unique_keys(upsert_rows(rows, incoming)),
{
    let k = position(rows, incoming.platform, incoming.identity);
    let after = upsert_rows(rows, incoming);
    lemma_first_match_is_first(rows, incoming.platform, incoming.identity, 0);
    assert forall|i: int, j: int| 0 <= i < j < after.len() implies !is_row_of(
        #[trigger] after[i],
        (#[trigger] after[j]).platform,
        after[j].identity,
    ) by {
        if k < rows.len() {
            assert(after[i].platform == rows[i].platform && after[i].identity == rows[i].identity);
            assert(after[j].platform == rows[j].platform && after[j].identity == rows[j].identity);
        } else if j < rows.len() {
            assert(after[i] == rows[i] && after[j] == rows[j]);
        } else {
            assert(after[i] == rows[i] && after[j] == incoming);
        }
    }
}

/// Taking a row out keeps the store at one row per key.
pub proof fn lemma_remove_keeps_unique(rows: Seq<IdentityView>, k: int)
    requires
        unique_keys(rows),
        0 <= k < rows.len(),
    ensures
        unique_keys(rows.remove(k)),
{
    let after = rows.remove(k);
    assert forall|i: int, j: int| 0 <= i < j < after.len() implies !is_row_of(
        #[trigger] after[i],
        (#[trigger] after[j]).platform,
        after[j].identity,
    ) by {
        let a = if i < k {
            i
        } else {
            i + 1
        };
        let b = if j < k {
            j
        } else {
            j + 1
        };
        assert(after[i] == rows[a] && after[j] == rows[b]);
    }
}

} // verus!
