//! Contracts and edges of the identity graph, and the rules for reading
//! them.

pub mod resolve;

use crate::tigergraph::edge::{
    named_text, named_time, named_uuid, named_views, optional_named_text,
    push_optional_named_text, push_text, push_time, push_uuid, NamedAttribute,
    NamedAttributeView,
};
use crate::tigergraph::OpCode;
use crate::upstream::{Chain, ContractCategory};
use vstd::prelude::*;
use vstd::string::*;

verus! {

/// A contract on a chain.
#[derive(Debug)]
pub struct Contract {
    /// Identifier generated when the record is created.
    pub uuid: u128,
    /// Kind of contract.
    pub category: ContractCategory,
    /// Address on the chain.
    pub address: String,
    /// The chain.
    pub chain: Chain,
    /// Token symbol, where the contract has one.
    pub symbol: Option<String>,
    /// When the record was last fetched, in Unix seconds.
    pub updated_at: i64,
}

impl Contract {
    /// The key of the row in the store: chain name, a comma, the address.
    pub open spec fn spec_primary_key(&self) -> Seq<char> {
        self.chain.spec_name() + seq![','] + self.address@
    }

    /// The key of the row in the store.
    pub fn primary_key(&self) -> (key: String)
        ensures
            key@ == self.spec_primary_key(),
    {
        proof {
            reveal_strlit(",");
        }
        let mut key = String::from_str(self.chain.name());
        key.append(",");
        key.append(self.address.as_str());
        assert(key@ =~= self.spec_primary_key());
        key
    }

    /// The attributes of an upsert of this contract, in the order in which
    /// they are sent. The key, the identifier, the category, the chain and
    /// the address are written once; the symbol overwrites; `updated_at`
    /// keeps the greater value. A symbol that is `None` is not sent.
    pub open spec fn spec_attributes(&self) -> Seq<NamedAttributeView> {
        seq![
            named_text("id"@, self.spec_primary_key(), Some(OpCode::IgnoreIfExists)),
            named_uuid(self.uuid),
            named_text("category"@, self.category.spec_name(), Some(OpCode::IgnoreIfExists)),
            named_text("chain"@, self.chain.spec_name(), Some(OpCode::IgnoreIfExists)),
            named_text("address"@, self.address@, Some(OpCode::IgnoreIfExists)),
        ] + optional_named_text(
            "symbol"@,
            crate::tigergraph::identity::opt_text(self.symbol),
            None,
        ) + seq![named_time("updated_at"@, self.updated_at, Some(OpCode::Max))]
    }

    /// The attributes of an upsert of this contract.
    pub fn to_attributes(&self) -> (out: Vec<NamedAttribute>)
        ensures
            named_views(out@) == self.spec_attributes(),
    {
        let mut out: Vec<NamedAttribute> = Vec::new();
        assert(named_views(out@) =~= Seq::<NamedAttributeView>::empty());
        let key = self.primary_key();
        push_text(&mut out, "id", key.as_str(), Some(OpCode::IgnoreIfExists));
        push_uuid(&mut out, self.uuid);
        push_text(&mut out, "category", self.category.name(), Some(OpCode::IgnoreIfExists));
        push_text(&mut out, "chain", self.chain.name(), Some(OpCode::IgnoreIfExists));
        push_text(&mut out, "address", self.address.as_str(), Some(OpCode::IgnoreIfExists));
        assert(named_views(out@) =~= seq![
            named_text("id"@, self.spec_primary_key(), Some(OpCode::IgnoreIfExists)),
            named_uuid(self.uuid),
            named_text("category"@, self.category.spec_name(), Some(OpCode::IgnoreIfExists)),
            named_text("chain"@, self.chain.spec_name(), Some(OpCode::IgnoreIfExists)),
            named_text("address"@, self.address@, Some(OpCode::IgnoreIfExists)),
        ]);
        push_optional_named_text(&mut out, "symbol", &self.symbol, None);
        let ghost head = named_views(out@);
        push_time(&mut out, "updated_at", self.updated_at, Some(OpCode::Max));
        assert(named_views(out@) =~= head + seq![
            named_time("updated_at"@, self.updated_at, Some(OpCode::Max)),
        ]);
        out
    }
}

} // verus!
