//! The notes of a wallet at RSS3: which collections it received tokens of.

use crate::error::Error;
use crate::outside::{fresh_uuid, rfc3339_seconds, rfc3339_seconds_of};
use crate::text::{lowercase_of, to_lowercase};
use crate::upstream::target::{Target, Upstream};
use crate::upstream::{Connection, DataSource, Platform, TempIdentity, TempProof};
use vstd::prelude::*;
use vstd::string::*;

verus! {

/// The notes of an account.
#[derive(Debug)]
pub struct Rss3Response {
    pub version: String,
    pub date_updated: String,
    pub identifier: String,
    pub total: i64,
    pub list: Vec<Item>,
}

/// One note.
#[derive(Debug)]
pub struct Item {
    pub date_created: String,
    pub date_updated: String,
    pub related_urls: Vec<String>,
    pub title: String,
    pub source: String,
    pub metadata: MetaData,
}

/// What a note says of a transfer.
#[derive(Debug)]
pub struct MetaData {
    pub collection_address: String,
    pub collection_name: String,
    pub contract_type: String,
    pub from: String,
    pub log_index: String,
    pub network: String,
    pub proof: String,
    pub to: String,
    pub token_id: String,
    pub token_standard: String,
    pub token_symbol: String,
}

/// The body of a refused request.
#[derive(Debug)]
pub struct ErrorResponse {
    pub message: String,
}

/// The adapter of RSS3, set up for one account.
#[derive(Debug)]
pub struct Rss3 {
    pub network: String,
    pub account: String,
    pub tags: String,
}

/// The address of the notes of an account.
pub open spec fn notes_text(account: Seq<char>, network: Seq<char>, tags: Seq<char>) -> Seq<
    char,
> {
    "https://pregod.rss3.dev/v0.4.0/account:"@ + account + "@"@ + network + "/notes?tags="@ + tags
}

/// Whether a note is kept: it says that the account received something.
pub open spec fn is_received(item: Item, account: Seq<char>) -> bool {
    item.metadata.to@ == lowercase_of(account)
}

/// Whether both dates of a note can be read.
pub open spec fn is_dated(item: Item) -> bool {
    rfc3339_seconds_of(item.date_created@) is Some && rfc3339_seconds_of(item.date_updated@)
        is Some
}

/// Whether a connection is the one of a note: from the receiving wallet to
/// the collection, both on Ethereum and shown under their own keys, the
/// collection created when the note was, witnessed by RSS3 under the proof
/// of the note and last seen when the note was updated.
pub open spec fn is_connection_of(c: Connection, item: Item) -> bool {
    &&& c.from.platform == Platform::Ethereum
    &&& c.from.identity@ == item.metadata.to@
    &&& c.from.created_at is None
    &&& c.from.display_name is Some
    &&& c.from.display_name->0@ == item.metadata.to@
    &&& c.to.platform == Platform::Ethereum
    &&& c.to.identity@ == item.metadata.collection_address@
    &&& c.to.created_at == rfc3339_seconds_of(item.date_created@)
    &&& c.to.display_name is Some
    &&& c.to.display_name->0@ == item.metadata.collection_address@
    &&& c.proof.method == DataSource::Rss3
    &&& c.proof.upstream is None
    &&& c.proof.record_id is Some
    &&& c.proof.record_id->0@ == item.metadata.proof@
    &&& c.proof.created_at == rfc3339_seconds_of(item.date_created@)
    &&& Some(c.proof.last_verified_at) == rfc3339_seconds_of(item.date_updated@)
}

impl Rss3 {
    /// Whether the adapter takes the target.
    pub fn can_fetch(target: &Target) -> (r: bool)
        ensures
            r == Upstream::Rss3.spec_can_fetch(target@),
    {
        Upstream::Rss3.can_fetch(target)
    }

    /// The address of the notes of the account.
    pub fn request(&self) -> (r: Result<String, Error>)
        ensures
            crate::tigergraph::is_checked_as(
                r,
                notes_text(self.account@, self.network@, self.tags@),
                "Uri format Error: "@,
            ),
    {
        let mut text = String::from_str("https://pregod.rss3.dev/v0.4.0/account:");
        text.append(self.account.as_str());
        text.append("@");
        text.append(self.network.as_str());
        text.append("/notes?tags=");
        text.append(self.tags.as_str());
        crate::tigergraph::checked_uri_as(text, "Uri format Error: ")
    }

    /// The error of a request that RSS3 refused: a general error under the
    /// status of the response, with the message of its body.
    pub fn refused(status: u16, body: &ErrorResponse) -> (e: Error)
        ensures
            e is General,
            e->General_1 == status,
            e->General_0@ == "Rss3 Result Get Error: "@ + body.message@,
    {
        let mut text = String::from_str("Rss3 Result Get Error: ");
        text.append(body.message.as_str());
        Error::General(text, status)
    }

    /// The connection of a note with readable dates, with fresh identifiers.
    pub fn save_item(item: &Item) -> (r: Option<Connection>)
        ensures
            is_dated(*item) ==> r is Some && is_connection_of(r->0, *item),
            !is_dated(*item) ==> r is None,
    {
        let created = match rfc3339_seconds(item.date_created.as_str()) {
            Some(t) => t,
            None => {
                return None;
            },
        };
        let updated = match rfc3339_seconds(item.date_updated.as_str()) {
            Some(t) => t,
            None => {
                return None;
            },
        };
        let from = TempIdentity {
            uuid: fresh_uuid(),
            platform: Platform::Ethereum,
            identity: item.metadata.to.clone(),
            created_at: None,
            display_name: Some(item.metadata.to.clone()),
        };
        let to = TempIdentity {
            uuid: fresh_uuid(),
            platform: Platform::Ethereum,
            identity: item.metadata.collection_address.clone(),
            created_at: Some(created),
            display_name: Some(item.metadata.collection_address.clone()),
        };
        let proof = TempProof {
            uuid: fresh_uuid(),
            method: DataSource::Rss3,
            upstream: None,
            record_id: Some(item.metadata.proof.clone()),
            created_at: Some(created),
            last_verified_at: updated,
        };
        Some(Connection { from, to, proof })
    }

    /// The connections that the notes of the account give. Without any note
    /// the fetch fails with a general error under the status of the
    /// response. Else every note that says that the account received
    /// something gives a connection, in order; a note whose dates cannot be
    /// read fails the fetch with a parse error.
    pub fn connections(&self, status: u16, response: &Rss3Response) -> (r: Result<
        Vec<Connection>,
        Error,
    >)
        ensures
            response.total == 0 ==> r is Err && r->Err_0 is General && r->Err_0->General_1
                == status && r->Err_0->General_0@ == "rss3 Result Get Error"@,
            response.total != 0 ==> {
                let kept = response.list@.filter(|item: Item| is_received(item, self.account@));
                &&& (forall|i: int| 0 <= i < kept.len() ==> is_dated(#[trigger] kept[i])) ==> r
                    is Ok && r->Ok_0@.len() == kept.len() && forall|i: int|
                    0 <= i < kept.len() ==> is_connection_of(#[trigger] r->Ok_0@[i], kept[i])
                &&& (exists|i: int| 0 <= i < kept.len() && !is_dated(#[trigger] kept[i])) ==> r
                    is Err && r->Err_0 is ParseError && r->Err_0->ParseError_0@
                    == "rss3 date is not RFC 3339"@
            },
    {
        if response.total == 0 {
            return Err(Error::General(String::from_str("rss3 Result Get Error"), status));
        }
        let wanted = to_lowercase(self.account.as_str());
        let ghost keep = |item: Item| is_received(item, self.account@);
        let mut found: Vec<Connection> = Vec::new();
        let mut i: usize = 0;
        assert(response.list@.take(0).filter(keep).len() == 0) by {
            reveal(Seq::filter);
        }
        while i < response.list.len()
            invariant
                i <= response.list.len(),
                response.total != 0,
                wanted@ == lowercase_of(self.account@),
                keep == |item: Item| is_received(item, self.account@),
                found@.len() == response.list@.take(i as int).filter(keep).len(),
                forall|j: int|
                    0 <= j < found@.len() ==> is_connection_of(
                        #[trigger] found@[j],
                        response.list@.take(i as int).filter(keep)[j],
                    ) && is_dated(response.list@.take(i as int).filter(keep)[j]),
            decreases response.list.len() - i,
        {
            let ghost before = response.list@.take(i as int).filter(keep);
            let ghost after = response.list@.take(i + 1).filter(keep);
            proof {
                reveal(Seq::filter);
                assert(response.list@.take(i + 1).drop_last() =~= response.list@.take(i as int));
                assert(response.list@.take(i + 1).last() == response.list@[i as int]);
            }
            if response.list[i].metadata.to == wanted {
                assert(after == before.push(response.list@[i as int]));
                match Rss3::save_item(&response.list[i]) {
                    Some(c) => {
                        found.push(c);
                    },
                    None => {
                        proof {
                            let all = response.list@.filter(keep);
                            lemma_filter_keeps(response.list@, keep, i as int, before.len() as int);
                            assert(!is_dated(all[before.len() as int]));
                        }
                        return Err(
                            Error::ParseError(String::from_str("rss3 date is not RFC 3339")),
                        );
                    },
                }
            } else {
                assert(after == before);
            }
            i += 1;
        }
        assert(response.list@.take(response.list@.len() as int) =~= response.list@);
        proof {
            let kept = response.list@.filter(keep);
            assert forall|j: int| 0 <= j < kept.len() implies is_dated(#[trigger] kept[j]) by {
                assert(is_connection_of(found@[j], kept[j]) && is_dated(kept[j]));
            }
        }
        Ok(found)
    }
}

/// What a filter keeps of the first `i + 1` elements, it keeps of the whole
/// list, at the same place.
proof fn lemma_filter_keeps(list: Seq<Item>, keep: spec_fn(Item) -> bool, i: int, k: int)
    requires
        0 <= i < list.len(),
        keep(list[i]),
        k == list.take(i).filter(keep).len(),
    ensures
        k < list.filter(keep).len(),
        list.filter(keep)[k] == list[i],
    decreases list.len(),
{
    reveal(Seq::filter);
    if i == list.len() - 1 {
        assert(list.drop_last() =~= list.take(i));
    } else {
        assert(list.drop_last().take(i) =~= list.take(i));
        lemma_filter_keeps(list.drop_last(), keep, i, k);
    }
}

} // verus!
