//! The read path: what a query answers with and what it sets in motion.

pub mod graphql;
pub mod tigergraphql;

use crate::error::Error;
use crate::upstream::dispatch::Failure;
use crate::upstream::target::Target;
use crate::upstream::Platform;
use vstd::prelude::*;
use vstd::string::*;

verus! {

/// One flag of a record's status. A record can carry several at once: a stale
/// record is cached and outdated.
#[derive(Clone, Copy, Debug, PartialEq, Eq, Structural, Hash)]
pub enum DataStatus {
    /// The record is in the store.
    Cached,
    /// The record is older than its time to live.
    Outdated,
    /// The record has no persisted id yet and is being fetched.
    Fetching,
}

/// Seconds that a background refresh waits before it deletes and fetches, so
/// that a burst of stale hits ends in one refresh.
pub const REFRESH_DELAY: u64 = 10;

/// What a read does after it has looked the record up.
#[derive(Debug)]
pub enum ReadPlan<R> {
    /// Nothing is stored: fetch the targets now, to the given depth, then
    /// look the record up again and answer as `cold_answer` says.
    ColdFetch { targets: Vec<Target>, depth: u32 },
    /// The record is stored and fresh: answer with it.
    Serve { record: R },
    /// The record is stored but outdated: answer with it now, and in the
    /// background wait `delay` seconds, delete the vertex `delete` with its
    /// edges, and fetch the targets to the given depth.
    ServeStale { record: R, delay: u64, delete: String, targets: Vec<Target>, depth: u32 },
}

/// What a cold read answers with: the second lookup, whatever came of the
/// fetch. A fetch that failed fails no read; only the store's own error, in
/// the second lookup, reaches the client.
pub fn cold_answer<T>(fetched: Result<(), Vec<Failure>>, second: Result<T, Error>) -> (r: Result<
    T,
    Error,
>)
    ensures
        r == second,
{
    second
}

/// Whether the text at `i` is the first that is no platform.
pub open spec fn is_first_unknown_platform(texts: Seq<String>, i: int) -> bool {
    &&& 0 <= i < texts.len()
    &&& Platform::spec_from_text(texts[i]@) is None
    &&& forall|j: int| 0 <= j < i ==> Platform::spec_from_text(#[trigger] texts[j]@) is Some
}

/// Reads a list of platforms from their text forms. Fails with a parameter
/// error exactly where one of the texts is no platform.
pub fn vec_string_to_vec_platform(texts: &Vec<String>) -> (r: Result<Vec<Platform>, Error>)
    ensures
        match r {
            Ok(list) => list@.len() == texts@.len() && forall|i: int|
                0 <= i < texts@.len() ==> Platform::spec_from_text(texts@[i]@) == Some(
                    #[trigger] list@[i],
                ),
            Err(e) => e is ParamError && exists|i: int|
                #[trigger] is_first_unknown_platform(texts@, i) && e->ParamError_0@
                    == "Unknown platform: "@ + texts@[i]@,
        },
{
    let mut list: Vec<Platform> = Vec::new();
    let mut i: usize = 0;
    while i < texts.len()
        invariant
            i <= texts.len(),
            list@.len() == i,
            forall|j: int|
                0 <= j < i ==> Platform::spec_from_text(texts@[j]@) == Some(#[trigger] list@[j]),
        decreases texts.len() - i,
    {
        match Platform::from_text(texts[i].as_str()) {
            Some(platform) => {
                list.push(platform);
            },
            None => {
                assert forall|j: int| 0 <= j < i implies Platform::spec_from_text(
                    #[trigger] texts@[j]@,
                ) is Some by {
                    assert(Platform::spec_from_text(texts@[j]@) == Some(list@[j]));
                }
                let mut message = String::from_str("Unknown platform: ");
                message.append(texts[i].as_str());
                assert(is_first_unknown_platform(texts@, i as int));
                return Err(Error::ParamError(message));
            },
        }
        i += 1;
    }
    Ok(list)
}

} // verus!
