//! The edges that the store returns.

use crate::graph::resolve::{DomainNameSystem, Resolve, ResolveRecord};
use crate::tigergraph::identity::{AttrValue, AttrValueView};
use crate::tigergraph::OpCode;
use crate::upstream::{DataFetcher, DataSource};
use vstd::prelude::*;
use vstd::string::*;

verus! {

/// An identity owns an asset: an NFT, a domain, a handle.
#[derive(Debug)]
pub struct Hold {
    /// Identifier generated when the record is created.
    pub uuid: u128,
    /// The source of the claim.
    pub source: DataSource,
    /// What is held: an ENS name, a token id.
    pub id: String,
    /// The transaction that gave it.
    pub transaction: Option<String>,
    /// When the source recorded the claim, in Unix seconds.
    pub created_at: Option<i64>,
    /// When the claim was last fetched, in Unix seconds.
    pub updated_at: i64,
    /// Which service extracted the claim.
    pub fetcher: DataFetcher,
    /// When the holding expires, in Unix seconds.
    pub expired_at: Option<i64>,
}

/// A stored hold edge: the edge and the keys of its ends.
#[derive(Debug)]
pub struct HoldRecord {
    pub from_id: String,
    pub to_id: String,
    pub attributes: Hold,
}

/// Two identities belong to one owner, as a source witnessed.
#[derive(Debug)]
pub struct Proof {
    /// Identifier generated when the record is created.
    pub uuid: u128,
    /// The source of the claim.
    pub source: DataSource,
    /// The record's id at the source.
    pub record_id: Option<String>,
    /// When the source recorded the claim, in Unix seconds.
    pub created_at: Option<i64>,
    /// When the claim was last fetched, in Unix seconds.
    pub updated_at: i64,
    /// Which service extracted the claim.
    pub fetcher: DataFetcher,
}

/// A stored proof edge: the edge and the keys of its ends.
#[derive(Debug)]
pub struct ProofRecord {
    pub from_id: String,
    pub to_id: String,
    pub attributes: Proof,
}

/// Any stored edge.
#[derive(Debug)]
pub enum EdgeUnion {
    Hold(HoldRecord),
    Proof(ProofRecord),
    Resolve(ResolveRecord),
}

/// A resolve edge as a traversal of primary domains returns it.
#[derive(Debug)]
pub struct ResolveReverse {
    pub uuid: u128,
    pub source: DataSource,
    pub system: DomainNameSystem,
    pub name: String,
    pub fetcher: DataFetcher,
    pub updated_at: i64,
    /// Whether this is the primary domain of the identity.
    pub reverse: bool,
}

impl ResolveReverse {
    /// Whether it shows the given edge as a primary domain.
    pub open spec fn is_primary_of(self, edge: Resolve) -> bool {
        self.uuid == edge.uuid && self.source == edge.source && self.system == edge.system
            && self.name@ == edge.name@ && self.fetcher == edge.fetcher && self.updated_at
            == edge.updated_at && self.reverse
    }

    /// The edge, shown as a primary domain.
    pub fn primary(edge: &Resolve) -> (r: ResolveReverse)
        ensures
            r.is_primary_of(*edge),
    {
        ResolveReverse {
            uuid: edge.uuid,
            source: edge.source,
            system: edge.system,
            name: edge.name.clone(),
            fetcher: edge.fetcher,
            updated_at: edge.updated_at,
            reverse: true,
        }
    }
}

/// One attribute of an upsert of a contract or an edge: its name, its value,
/// and how the store is to combine it with the stored value (`None`:
/// overwrite).
#[derive(Debug)]
pub struct NamedAttribute {
    pub name: String,
    pub value: AttrValue,
    pub op: Option<OpCode>,
}

/// A named attribute as a plain value.
pub struct NamedAttributeView {
    pub name: Seq<char>,
    pub value: AttrValueView,
    pub op: Option<OpCode>,
}

impl View for NamedAttribute {
    type V = NamedAttributeView;

    open spec fn view(&self) -> NamedAttributeView {
        NamedAttributeView {
            name: self.name@,
            value: match self.value {
                AttrValue::Text(s) => AttrValueView::Text(s@),
                AttrValue::Uuid(u) => AttrValueView::Uuid(u),
                AttrValue::Time(t) => AttrValueView::Time(t),
            },
            op: self.op,
        }
    }
}

/// The views of a list of named attributes.
pub open spec fn named_views(list: Seq<NamedAttribute>) -> Seq<NamedAttributeView> {
    list.map_values(|a: NamedAttribute| a@)
}

/// A text attribute.
pub open spec fn named_text(name: Seq<char>, text: Seq<char>, op: Option<OpCode>)
    -> NamedAttributeView {
    NamedAttributeView { name, value: AttrValueView::Text(text), op }
}

/// A time attribute.
pub open spec fn named_time(name: Seq<char>, time: i64, op: Option<OpCode>) -> NamedAttributeView {
    NamedAttributeView { name, value: AttrValueView::Time(time), op }
}

/// An identifier attribute, written once.
pub open spec fn named_uuid(uuid: u128) -> NamedAttributeView {
    NamedAttributeView {
        name: "uuid"@,
        value: AttrValueView::Uuid(uuid),
        op: Some(OpCode::IgnoreIfExists),
    }
}

/// An optional text attribute: present only where the text is.
pub open spec fn optional_named_text(
    name: Seq<char>,
    text: Option<Seq<char>>,
    op: Option<OpCode>,
) -> Seq<NamedAttributeView> {
    match text {
        Some(t) => seq![named_text(name, t, op)],
        None => seq![],
    }
}

/// An optional time attribute: present only where the time is.
pub open spec fn optional_named_time(name: Seq<char>, time: Option<i64>, op: Option<OpCode>)
    -> Seq<NamedAttributeView> {
    match time {
        Some(t) => seq![named_time(name, t, op)],
        None => seq![],
    }
}

/// Appends a text attribute.
pub fn push_text(out: &mut Vec<NamedAttribute>, name: &str, text: &str, op: Option<OpCode>)
    ensures
        named_views(final(out)@) == named_views(old(out)@).push(named_text(name@, text@, op)),
{
    out.push(
        NamedAttribute { name: name.to_owned(), value: AttrValue::Text(text.to_owned()), op },
    );
    assert(named_views(out@) =~= named_views(old(out)@).push(named_text(name@, text@, op)));
}

/// Appends a time attribute.
pub fn push_time(out: &mut Vec<NamedAttribute>, name: &str, time: i64, op: Option<OpCode>)
    ensures
        named_views(final(out)@) == named_views(old(out)@).push(named_time(name@, time, op)),
{
    out.push(NamedAttribute { name: name.to_owned(), value: AttrValue::Time(time), op });
    assert(named_views(out@) =~= named_views(old(out)@).push(named_time(name@, time, op)));
}

/// Appends an identifier attribute, written once.
pub fn push_uuid(out: &mut Vec<NamedAttribute>, uuid: u128)
    ensures
        named_views(final(out)@) == named_views(old(out)@).push(named_uuid(uuid)),
{
    out.push(
        NamedAttribute {
            name: String::from_str("uuid"),
            value: AttrValue::Uuid(uuid),
            op: Some(OpCode::IgnoreIfExists),
        },
    );
    assert(named_views(out@) =~= named_views(old(out)@).push(named_uuid(uuid)));
}

/// Appends a text attribute where there is a text.
pub fn push_optional_named_text(
    out: &mut Vec<NamedAttribute>,
    name: &str,
    text: &Option<String>,
    op: Option<OpCode>,
)
    ensures
        named_views(final(out)@) == named_views(old(out)@) + optional_named_text(
            name@,
            crate::tigergraph::identity::opt_text(*text),
            op,
        ),
{
    match text {
        Some(t) => {
            push_text(out, name, t.as_str(), op);
            assert(named_views(out@) =~= named_views(old(out)@) + optional_named_text(
                name@,
                crate::tigergraph::identity::opt_text(*text),
                op,
            ));
        },
        None => {
            assert(named_views(out@) =~= named_views(old(out)@) + optional_named_text(
                name@,
                crate::tigergraph::identity::opt_text(*text),
                op,
            ));
        },
    }
}

/// Appends a time attribute where there is a time.
pub fn push_optional_named_time(
    out: &mut Vec<NamedAttribute>,
    name: &str,
    time: Option<i64>,
    op: Option<OpCode>,
)
    ensures
        named_views(final(out)@) == named_views(old(out)@) + optional_named_time(name@, time, op),
{
    match time {
        Some(t) => {
            push_time(out, name, t, op);
            assert(named_views(out@) =~= named_views(old(out)@) + optional_named_time(
                name@,
                time,
                op,
            ));
        },
        None => {
            assert(named_views(out@) =~= named_views(old(out)@) + optional_named_time(
                name@,
                time,
                op,
            ));
        },
    }
}

impl Hold {
    /// The attributes of an upsert of this edge, in the order in which they
    /// are sent. The identifier, the source, what is held and the creation
    /// time are written once; the transaction, the fetcher and the expiry
    /// overwrite; `updated_at` keeps the greater value. A field that is
    /// `None` is not sent.
    pub open spec fn spec_attributes(&self) -> Seq<NamedAttributeView> {
        seq![
            named_uuid(self.uuid),
            named_text("source"@, self.source.spec_name(), Some(OpCode::IgnoreIfExists)),
            named_text("id"@, self.id@, Some(OpCode::IgnoreIfExists)),
        ] + optional_named_text(
            "transaction"@,
            crate::tigergraph::identity::opt_text(self.transaction),
            None,
        ) + optional_named_time("created_at"@, self.created_at, Some(OpCode::IgnoreIfExists))
            + seq![
            named_time("updated_at"@, self.updated_at, Some(OpCode::Max)),
            named_text("fetcher"@, self.fetcher.spec_name(), None),
        ] + optional_named_time("expired_at"@, self.expired_at, None)
    }

    /// The attributes of an upsert of this edge.
    pub fn to_attributes(&self) -> (out: Vec<NamedAttribute>)
        ensures
            named_views(out@) == self.spec_attributes(),
    {
        let mut out: Vec<NamedAttribute> = Vec::new();
        assert(named_views(out@) =~= Seq::<NamedAttributeView>::empty());
        push_uuid(&mut out, self.uuid);
        push_text(&mut out, "source", self.source.name(), Some(OpCode::IgnoreIfExists));
        push_text(&mut out, "id", self.id.as_str(), Some(OpCode::IgnoreIfExists));
        assert(named_views(out@) =~= seq![
            named_uuid(self.uuid),
            named_text("source"@, self.source.spec_name(), Some(OpCode::IgnoreIfExists)),
            named_text("id"@, self.id@, Some(OpCode::IgnoreIfExists)),
        ]);
        push_optional_named_text(&mut out, "transaction", &self.transaction, None);
        push_optional_named_time(
            &mut out,
            "created_at",
            self.created_at,
            Some(OpCode::IgnoreIfExists),
        );
        let ghost head = named_views(out@);
        push_time(&mut out, "updated_at", self.updated_at, Some(OpCode::Max));
        push_text(&mut out, "fetcher", self.fetcher.name(), None);
        assert(named_views(out@) =~= head + seq![
            named_time("updated_at"@, self.updated_at, Some(OpCode::Max)),
            named_text("fetcher"@, self.fetcher.spec_name(), None),
        ]);
        push_optional_named_time(&mut out, "expired_at", self.expired_at, None);
        out
    }
}

impl Proof {
    /// The attributes of an upsert of this edge, in the order in which they
    /// are sent. The identifier, the source and the creation time are
    /// written once; the record id and the fetcher overwrite; `updated_at`
    /// keeps the greater value. A field that is `None` is not sent.
    pub open spec fn spec_attributes(&self) -> Seq<NamedAttributeView> {
        seq![
            named_uuid(self.uuid),
            named_text("source"@, self.source.spec_name(), Some(OpCode::IgnoreIfExists)),
        ] + optional_named_text(
            "record_id"@,
            crate::tigergraph::identity::opt_text(self.record_id),
            None,
        ) + optional_named_time("created_at"@, self.created_at, Some(OpCode::IgnoreIfExists))
            + seq![
            named_time("updated_at"@, self.updated_at, Some(OpCode::Max)),
            named_text("fetcher"@, self.fetcher.spec_name(), None),
        ]
    }

    /// The attributes of an upsert of this edge.
    pub fn to_attributes(&self) -> (out: Vec<NamedAttribute>)
        ensures
            named_views(out@) == self.spec_attributes(),
    {
        let mut out: Vec<NamedAttribute> = Vec::new();
        assert(named_views(out@) =~= Seq::<NamedAttributeView>::empty());
        push_uuid(&mut out, self.uuid);
        push_text(&mut out, "source", self.source.name(), Some(OpCode::IgnoreIfExists));
        assert(named_views(out@) =~= seq![
            named_uuid(self.uuid),
            named_text("source"@, self.source.spec_name(), Some(OpCode::IgnoreIfExists)),
        ]);
        push_optional_named_text(&mut out, "record_id", &self.record_id, None);
        push_optional_named_time(
            &mut out,
            "created_at",
            self.created_at,
            Some(OpCode::IgnoreIfExists),
        );
        let ghost head = named_views(out@);
        push_time(&mut out, "updated_at", self.updated_at, Some(OpCode::Max));
        push_text(&mut out, "fetcher", self.fetcher.name(), None);
        assert(named_views(out@) =~= head + seq![
            named_time("updated_at"@, self.updated_at, Some(OpCode::Max)),
            named_text("fetcher"@, self.fetcher.spec_name(), None),
        ]);
        out
    }
}

} // verus!
