//! The verified list of wallets and their Twitter handles.

use crate::error::Error;
use crate::outside::fresh_uuid;
use crate::upstream::target::{Target, Upstream};
use crate::upstream::{Connection, DataSource, Platform, TempIdentity, TempProof};
use vstd::prelude::*;
use vstd::string::*;

verus! {

/// One entry of the list: a wallet, its handle, and when it was verified.
#[derive(Debug)]
pub struct SybilListItem {
    pub twitter_name: String,
    pub eth_addr: String,
    pub timestamp: i64,
}

/// The entry of a wallet as the list holds it.
#[derive(Debug)]
pub struct VerfiedItem {
    pub twitter: TwitterItem,
}

/// The Twitter part of an entry.
#[derive(Debug)]
pub struct TwitterItem {
    pub timestamp: i64,
    pub tweet_id: String,
    pub handle: String,
}

/// The body of a refused request.
#[derive(Debug)]
pub struct ErrorResponse {
    pub message: String,
}

/// The adapter of the verified list.
#[derive(Clone, Copy, Debug, Default)]
pub struct SybilList {}

/// Whether a connection is the one of an entry, seen at `now`: from the
/// wallet on Ethereum to the handle on Twitter, both created when the entry
/// was verified and shown under their own keys, witnessed by the list.
pub open spec fn is_connection_of(c: Connection, item: SybilListItem, now: i64) -> bool {
    &&& c.from.platform == Platform::Ethereum
    &&& c.from.identity@ == item.eth_addr@
    &&& c.from.created_at == Some(item.timestamp)
    &&& c.from.display_name is Some
    &&& c.from.display_name->0@ == item.eth_addr@
    &&& c.to.platform == Platform::Twitter
    &&& c.to.identity@ == item.twitter_name@
    &&& c.to.created_at == Some(item.timestamp)
    &&& c.to.display_name is Some
    &&& c.to.display_name->0@ == item.twitter_name@
    &&& c.proof.method == DataSource::SybilList
    &&& c.proof.upstream is Some
    &&& c.proof.upstream->0@ == " "@
    &&& c.proof.record_id is Some
    &&& c.proof.record_id->0@ == " "@
    &&& c.proof.created_at == Some(now)
    &&& c.proof.last_verified_at == now
}

impl VerfiedItem {
    /// The entry of a wallet as a list item.
    pub fn into_item(self, eth_addr: String) -> (item: SybilListItem)
        ensures
            item.eth_addr == eth_addr,
            item.twitter_name == self.twitter.handle,
            item.timestamp == self.twitter.timestamp,
    {
        SybilListItem {
            twitter_name: self.twitter.handle,
            eth_addr,
            timestamp: self.twitter.timestamp,
        }
    }
}

impl SybilList {
    /// Whether the adapter takes the target.
    pub fn can_fetch(target: &Target) -> (r: bool)
        ensures
            r == Upstream::SybilList.spec_can_fetch(target@),
    {
        Upstream::SybilList.can_fetch(target)
    }

    /// The error of a request for the list that was refused: a general error
    /// under the status of the response, with the message of its body.
    pub fn refused(status: u16, body: &ErrorResponse) -> (e: Error)
        ensures
            e is General,
            e->General_1 == status,
            e->General_0@ == "SybilList Get error: "@ + body.message@,
    {
        let mut text = String::from_str("SybilList Get error: ");
        text.append(body.message.as_str());
        Error::General(text, status)
    }

    /// The connections of the list, seen at `now`: one for every entry, in
    /// order, each with fresh identifiers.
    pub fn connections(items: &Vec<SybilListItem>, now: i64) -> (found: Vec<Connection>)
        ensures
            found@.len() == items@.len(),
            forall|i: int|
                0 <= i < found@.len() ==> is_connection_of(#[trigger] found@[i], items@[i], now),
    {
        let mut found: Vec<Connection> = Vec::new();
        let mut i: usize = 0;
        while i < items.len()
            invariant
                i <= items.len(),
                found@.len() == i,
                forall|j: int|
                    0 <= j < i ==> is_connection_of(#[trigger] found@[j], items@[j], now),
            decreases items.len() - i,
        {
            let item = &items[i];
            let from = TempIdentity {
                uuid: fresh_uuid(),
                platform: Platform::Ethereum,
                identity: item.eth_addr.clone(),
                created_at: Some(item.timestamp),
                display_name: Some(item.eth_addr.clone()),
            };
            let to = TempIdentity {
                uuid: fresh_uuid(),
                platform: Platform::Twitter,
                identity: item.twitter_name.clone(),
                created_at: Some(item.timestamp),
                display_name: Some(item.twitter_name.clone()),
            };
            let proof = TempProof {
                uuid: fresh_uuid(),
                method: DataSource::SybilList,
                upstream: Some(String::from_str(" ")),
                record_id: Some(String::from_str(" ")),
                created_at: Some(now),
                last_verified_at: now,
            };
            found.push(Connection { from, to, proof });
            i += 1;
        }
        found
    }
}

} // verus!
