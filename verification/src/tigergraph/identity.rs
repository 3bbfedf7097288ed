//! The identity vertex: its key, its freshness, its upsert attributes and how
//! an upsert combines it with the stored row.

use crate::controller::DataStatus;
use crate::error::Error;
use crate::tigergraph::{OpCode, VERTEX_NAME};
use crate::upstream::Platform;
use vstd::prelude::*;
use vstd::string::*;

verus! {

/// Seconds after which an identity counts as outdated: one hour.
pub const IDENTITY_TTL: i64 = 3600;

/// An account or address on one platform.
#[derive(Debug)]
pub struct Identity {
    /// Identifier generated when the record is created.
    pub uuid: Option<u128>,
    /// Platform of the account.
    pub platform: Platform,
    /// The account's key on the platform: an address, a numeric id, a handle
    /// or a domain.
    pub identity: String,
    /// A second key on the platform, where it has one.
    pub uid: Option<String>,
    /// Screen name.
    pub display_name: Option<String>,
    /// Address of the profile page.
    pub profile_url: Option<String>,
    /// Address of the avatar.
    pub avatar_url: Option<String>,
    /// When the account was created on the platform, in Unix seconds.
    pub created_at: Option<i64>,
    /// When the record was first stored, in Unix seconds.
    pub added_at: i64,
    /// When the record was last fetched, in Unix seconds.
    pub updated_at: i64,
    /// When the name expires, in Unix seconds, where it does.
    pub expired_at: Option<i64>,
    /// Whether this is the primary domain of its owner.
    pub reverse: Option<bool>,
}

/// An identity as a plain value.
pub struct IdentityView {
    pub uuid: Option<u128>,
    pub platform: Platform,
    pub identity: Seq<char>,
    pub uid: Option<Seq<char>>,
    pub display_name: Option<Seq<char>>,
    pub profile_url: Option<Seq<char>>,
    pub avatar_url: Option<Seq<char>>,
    pub created_at: Option<i64>,
    pub added_at: i64,
    pub updated_at: i64,
    pub expired_at: Option<i64>,
    pub reverse: Option<bool>,
}

/// The characters of an optional text.
pub open spec fn opt_text(t: Option<String>) -> Option<Seq<char>> {
    match t {
        Some(s) => Some(s@),
        None => None,
    }
}

impl View for Identity {
    type V = IdentityView;

    open spec fn view(&self) -> IdentityView {
        IdentityView {
            uuid: self.uuid,
            platform: self.platform,
            identity: self.identity@,
            uid: opt_text(self.uid),
            display_name: opt_text(self.display_name),
            profile_url: opt_text(self.profile_url),
            avatar_url: opt_text(self.avatar_url),
            created_at: self.created_at,
            added_at: self.added_at,
            updated_at: self.updated_at,
            expired_at: self.expired_at,
            reverse: self.reverse,
        }
    }
}

/// The fields of an identity that an upsert sends.
#[derive(Clone, Copy, Debug, PartialEq, Eq, Structural, Hash)]
pub enum IdentityField {
    Id,
    Uuid,
    Platform,
    Identity,
    Uid,
    DisplayName,
    ProfileUrl,
    AvatarUrl,
    CreatedAt,
    AddedAt,
    UpdatedAt,
}

/// The value of an attribute.
#[derive(Debug)]
pub enum AttrValue {
    /// A text.
    Text(String),
    /// An identifier.
    Uuid(u128),
    /// A time in Unix seconds.
    Time(i64),
}

/// The value of an attribute as a plain value.
pub enum AttrValueView {
    Text(Seq<char>),
    Uuid(u128),
    Time(i64),
}

/// One attribute of an upsert: the field, its value, and how the store is to
/// combine it with the stored value (`None`: overwrite).
#[derive(Debug)]
pub struct Attribute {
    pub field: IdentityField,
    pub value: AttrValue,
    pub op: Option<OpCode>,
}

/// An attribute as a plain value.
pub struct AttributeView {
    pub field: IdentityField,
    pub value: AttrValueView,
    pub op: Option<OpCode>,
}

impl View for Attribute {
    type V = AttributeView;

    open spec fn view(&self) -> AttributeView {
        AttributeView {
            field: self.field,
            value: match self.value {
                AttrValue::Text(s) => AttrValueView::Text(s@),
                AttrValue::Uuid(u) => AttrValueView::Uuid(u),
                AttrValue::Time(t) => AttrValueView::Time(t),
            },
            op: self.op,
        }
    }
}

/// The attributes of one identity, as an upsert sends them.
#[derive(Debug)]
pub struct IdentityAttribute(pub Vec<Attribute>);

/// The views of a list of attributes.
pub open spec fn attribute_views(list: Seq<Attribute>) -> Seq<AttributeView> {
    list.map_values(|a: Attribute| a@)
}

/// A text attribute.
pub open spec fn text_attr(field: IdentityField, text: Seq<char>, op: Option<OpCode>)
    -> AttributeView {
    AttributeView { field, value: AttrValueView::Text(text), op }
}

/// A time attribute.
pub open spec fn time_attr(field: IdentityField, time: i64, op: Option<OpCode>) -> AttributeView {
    AttributeView { field, value: AttrValueView::Time(time), op }
}

/// An optional text attribute that overwrites: present only where the text is.
pub open spec fn optional_text_attr(field: IdentityField, text: Option<Seq<char>>) -> Seq<
    AttributeView,
> {
    match text {
        Some(t) => seq![text_attr(field, t, None)],
        None => seq![],
    }
}

impl IdentityView {
    /// The key of the row in the store: platform name, a comma, the identity.
    pub open spec fn primary_key(self) -> Seq<char> {
        self.platform.spec_name() + seq![','] + self.identity
    }

    /// Outdated: more than the time to live has passed since the last fetch.
    pub open spec fn is_outdated(self, now: i64) -> bool {
        now - self.updated_at > IDENTITY_TTL
    }

    /// The attributes of an upsert of this identity, in the order in which
    /// they are sent. Key, uuid, platform, identity, the creation time and
    /// `added_at` are written once; the optional texts overwrite;
    /// `updated_at` keeps the greater value. A field that is `None` is not
    /// sent.
    pub open spec fn attributes(self) -> Seq<AttributeView> {
        seq![text_attr(IdentityField::Id, self.primary_key(), Some(OpCode::IgnoreIfExists))] + (
        match self.uuid {
            Some(u) => seq![
                AttributeView {
                    field: IdentityField::Uuid,
                    value: AttrValueView::Uuid(u),
                    op: Some(OpCode::IgnoreIfExists),
                },
            ],
            None => seq![],
        }) + seq![
            text_attr(
                IdentityField::Platform,
                self.platform.spec_name(),
                Some(OpCode::IgnoreIfExists),
            ),
            text_attr(IdentityField::Identity, self.identity, Some(OpCode::IgnoreIfExists)),
        ] + optional_text_attr(IdentityField::Uid, self.uid) + optional_text_attr(
            IdentityField::DisplayName,
            self.display_name,
        ) + optional_text_attr(IdentityField::ProfileUrl, self.profile_url) + optional_text_attr(
            IdentityField::AvatarUrl,
            self.avatar_url,
        ) + (match self.created_at {
            Some(t) => seq![time_attr(IdentityField::CreatedAt, t, Some(OpCode::IgnoreIfExists))],
            None => seq![],
        }) + seq![
            time_attr(IdentityField::AddedAt, self.added_at, Some(OpCode::IgnoreIfExists)),
            time_attr(IdentityField::UpdatedAt, self.updated_at, Some(OpCode::Max)),
        ]
    }

    /// The row that the store holds after `incoming` is upserted over the
    /// existing row `self`: what is written once stays, `added_at` with it;
    /// what overwrites is replaced where the upsert sends it; and
    /// `updated_at` is the greater of both. The fields that an upsert never
    /// sends stay. So only `uid`, `display_name`, `profile_url`, `avatar_url`
    /// and `updated_at` can change.
    pub open spec fn upserted(self, incoming: IdentityView) -> IdentityView {
        IdentityView {
            uuid: self.uuid,
            platform: self.platform,
            identity: self.identity,
            uid: if incoming.uid is Some {
                incoming.uid
            } else {
                self.uid
            },
            display_name: if incoming.display_name is Some {
                incoming.display_name
            } else {
                self.display_name
            },
            profile_url: if incoming.profile_url is Some {
                incoming.profile_url
            } else {
                self.profile_url
            },
            avatar_url: if incoming.avatar_url is Some {
                incoming.avatar_url
            } else {
                self.avatar_url
            },
            created_at: self.created_at,
            added_at: self.added_at,
            updated_at: if incoming.updated_at > self.updated_at {
                incoming.updated_at
            } else {
                self.updated_at
            },
            expired_at: self.expired_at,
            reverse: self.reverse,
        }
    }
}

/// A copy of an optional text.
pub fn copy_opt_text(t: &Option<String>) -> (r: Option<String>)
    ensures
        opt_text(r) == opt_text(*t),
{
    match t {
        Some(s) => Some(s.clone()),
        None => None,
    }
}

/// The incoming text where there is one, else the stored one.
fn overwrite_text(stored: &Option<String>, incoming: &Option<String>) -> (r: Option<String>)
    ensures
        opt_text(r) == if opt_text(*incoming) is Some {
            opt_text(*incoming)
        } else {
            opt_text(*stored)
        },
{
    match incoming {
        Some(s) => Some(s.clone()),
        None => copy_opt_text(stored),
    }
}

fn push_optional_text(out: &mut Vec<Attribute>, field: IdentityField, text: &Option<String>)
    ensures
        attribute_views(final(out)@) == attribute_views(old(out)@) + optional_text_attr(
            field,
            opt_text(*text),
        ),
{
    match text {
        Some(t) => {
            out.push(Attribute { field, value: AttrValue::Text(t.clone()), op: None });
            assert(attribute_views(out@) =~= attribute_views(old(out)@) + optional_text_attr(
                field,
                opt_text(*text),
            ));
        },
        None => {
            assert(attribute_views(out@) =~= attribute_views(old(out)@) + optional_text_attr(
                field,
                opt_text(*text),
            ));
        },
    }
}

impl Identity {
    /// An identity on Twitter with an empty key and no profile, first seen and
    /// last fetched at `now`.
    pub fn default_at(now: i64) -> (r: Identity)
        ensures
            r@ == (IdentityView {
                uuid: None,
                platform: Platform::Twitter,
                identity: Seq::<char>::empty(),
                uid: None,
                display_name: None,
                profile_url: None,
                avatar_url: None,
                created_at: None,
                added_at: now,
                updated_at: now,
                expired_at: None,
                reverse: None,
            }),
    {
        Identity {
            uuid: None,
            platform: Platform::Twitter,
            identity: String::new(),
            uid: None,
            display_name: None,
            profile_url: None,
            avatar_url: None,
            created_at: None,
            added_at: now,
            updated_at: now,
            expired_at: None,
            reverse: None,
        }
    }

    /// A copy of the identity.
    pub fn duplicate(&self) -> (r: Identity)
        ensures
            r@ == self@,
    {
        Identity {
            uuid: self.uuid,
            platform: self.platform,
            identity: self.identity.clone(),
            uid: copy_opt_text(&self.uid),
            display_name: copy_opt_text(&self.display_name),
            profile_url: copy_opt_text(&self.profile_url),
            avatar_url: copy_opt_text(&self.avatar_url),
            created_at: self.created_at,
            added_at: self.added_at,
            updated_at: self.updated_at,
            expired_at: self.expired_at,
            reverse: self.reverse,
        }
    }

    /// The identifier of the record.
    pub fn uuid(&self) -> (r: Option<u128>)
        ensures
            r == self@.uuid,
    {
        self.uuid
    }

    /// Whether both records carry an identifier and it is the same one.
    pub fn eq(&self, other: &Identity) -> (r: bool)
        ensures
            r == (self@.uuid is Some && self@.uuid == other@.uuid),
    {
        match (self.uuid, other.uuid) {
            (Some(a), Some(b)) => a == b,
            _ => false,
        }
    }

    /// The key of the row in the store.
    pub fn primary_key(&self) -> (key: String)
        ensures
            key@ == self@.primary_key(),
    {
        proof {
            reveal_strlit(",");
        }
        let mut key = String::from_str(self.platform.name());
        key.append(",");
        key.append(self.identity.as_str());
        assert(key@ =~= self@.primary_key());
        key
    }

    /// The name of the vertex type.
    pub fn vertex_type(&self) -> (name: String)
        ensures
            name@ == VERTEX_NAME@,
    {
        String::from_str(VERTEX_NAME)
    }

    /// Whether the record should be fetched again: more than an hour has
    /// passed between its last fetch and `now`.
    pub fn is_outdated(&self, now: i64) -> (r: bool)
        ensures
            r == self@.is_outdated(now),
    {
        (now as i128) - (self.updated_at as i128) > (IDENTITY_TTL as i128)
    }

    /// The attributes of an upsert of this identity.
    pub fn to_attributes_map(&self) -> (r: IdentityAttribute)
        ensures
            attribute_views(r.0@) == self@.attributes(),
    {
        let mut out: Vec<Attribute> = Vec::new();
        out.push(
            Attribute {
                field: IdentityField::Id,
                value: AttrValue::Text(self.primary_key()),
                op: Some(OpCode::IgnoreIfExists),
            },
        );
        if let Some(u) = self.uuid {
            out.push(
                Attribute {
                    field: IdentityField::Uuid,
                    value: AttrValue::Uuid(u),
                    op: Some(OpCode::IgnoreIfExists),
                },
            );
        }
        out.push(
            Attribute {
                field: IdentityField::Platform,
                value: AttrValue::Text(String::from_str(self.platform.name())),
                op: Some(OpCode::IgnoreIfExists),
            },
        );
        out.push(
            Attribute {
                field: IdentityField::Identity,
                value: AttrValue::Text(self.identity.clone()),
                op: Some(OpCode::IgnoreIfExists),
            },
        );
        let ghost head = attribute_views(out@);
        assert(head =~= seq![
            text_attr(IdentityField::Id, self@.primary_key(), Some(OpCode::IgnoreIfExists)),
        ] + (match self@.uuid {
            Some(u) => seq![
                AttributeView {
                    field: IdentityField::Uuid,
                    value: AttrValueView::Uuid(u),
                    op: Some(OpCode::IgnoreIfExists),
                },
            ],
            None => seq![],
        }) + seq![
            text_attr(
                IdentityField::Platform,
                self@.platform.spec_name(),
                Some(OpCode::IgnoreIfExists),
            ),
            text_attr(IdentityField::Identity, self@.identity, Some(OpCode::IgnoreIfExists)),
        ]);
        push_optional_text(&mut out, IdentityField::Uid, &self.uid);
        push_optional_text(&mut out, IdentityField::DisplayName, &self.display_name);
        push_optional_text(&mut out, IdentityField::ProfileUrl, &self.profile_url);
        push_optional_text(&mut out, IdentityField::AvatarUrl, &self.avatar_url);
        let ghost texts = attribute_views(out@);
        if let Some(t) = self.created_at {
            out.push(
                Attribute {
                    field: IdentityField::CreatedAt,
                    value: AttrValue::Time(t),
                    op: Some(OpCode::IgnoreIfExists),
                },
            );
        }
        assert(attribute_views(out@) =~= texts + (match self@.created_at {
            Some(t) => seq![time_attr(IdentityField::CreatedAt, t, Some(OpCode::IgnoreIfExists))],
            None => seq![],
        }));
        let ghost created = attribute_views(out@);
        out.push(
            Attribute {
                field: IdentityField::AddedAt,
                value: AttrValue::Time(self.added_at),
                op: Some(OpCode::IgnoreIfExists),
            },
        );
        out.push(
            Attribute {
                field: IdentityField::UpdatedAt,
                value: AttrValue::Time(self.updated_at),
                op: Some(OpCode::Max),
            },
        );
        assert(attribute_views(out@) =~= created + seq![
            time_attr(IdentityField::AddedAt, self@.added_at, Some(OpCode::IgnoreIfExists)),
            time_attr(IdentityField::UpdatedAt, self@.updated_at, Some(OpCode::Max)),
        ]);
        IdentityAttribute(out)
    }

    /// The row that the store holds after `incoming` is upserted over this one.
    pub fn upserted(&self, incoming: &Identity) -> (r: Identity)
        ensures
            r@ == self@.upserted(incoming@),
    {
        Identity {
            uuid: self.uuid,
            platform: self.platform,
            identity: self.identity.clone(),
            uid: overwrite_text(&self.uid, &incoming.uid),
            display_name: overwrite_text(&self.display_name, &incoming.display_name),
            profile_url: overwrite_text(&self.profile_url, &incoming.profile_url),
            avatar_url: overwrite_text(&self.avatar_url, &incoming.avatar_url),
            created_at: self.created_at,
            added_at: self.added_at,
            updated_at: if incoming.updated_at > self.updated_at {
                incoming.updated_at
            } else {
                self.updated_at
            },
            expired_at: self.expired_at,
            reverse: self.reverse,
        }
    }
}

/// A stored identity: the vertex type, the key of the row, and the identity.
#[derive(Debug)]
pub struct IdentityRecord {
    pub v_type: String,
    pub v_id: String,
    pub attributes: Identity,
}

/// A stored identity as a plain value.
pub struct IdentityRecordView {
    pub v_type: Seq<char>,
    pub v_id: Seq<char>,
    pub attributes: IdentityView,
}

impl View for IdentityRecord {
    type V = IdentityRecordView;

    open spec fn view(&self) -> IdentityRecordView {
        IdentityRecordView {
            v_type: self.v_type@,
            v_id: self.v_id@,
            attributes: self.attributes@,
        }
    }
}

impl IdentityRecordView {
    /// The flags that a client sees: a record with a key is cached, and
    /// outdated too where its identity is; a record without a key is being
    /// fetched.
    pub open spec fn status(self, now: i64) -> Seq<DataStatus> {
        if self.v_id.len() == 0 {
            seq![DataStatus::Fetching]
        } else if self.attributes.is_outdated(now) {
            seq![DataStatus::Cached, DataStatus::Outdated]
        } else {
            seq![DataStatus::Cached]
        }
    }

    /// The primary-domain flag as a client sees it: the stored flag on the
    /// platforms where it means something, nothing elsewhere.
    pub open spec fn reverse(self) -> Option<bool> {
        if self.attributes.platform.spec_in_domain_systems() {
            self.attributes.reverse
        } else {
            None
        }
    }

    /// The expiry as a client sees it: the stored time on the platforms
    /// whose names expire, nothing elsewhere.
    pub open spec fn expired_at(self) -> Option<i64> {
        if self.attributes.platform.spec_has_expiry() {
            self.attributes.expired_at
        } else {
            None
        }
    }
}

impl IdentityRecord {
    /// A record from its parts.
    pub fn from_with_params(v_type: String, v_id: String, attributes: Identity) -> (r:
        IdentityRecord)
        ensures
            r.v_type == v_type,
            r.v_id == v_id,
            r.attributes == attributes,
    {
        IdentityRecord { v_type, v_id, attributes }
    }

    /// A copy of the record.
    pub fn duplicate(&self) -> (r: IdentityRecord)
        ensures
            r@ == self@,
    {
        IdentityRecord {
            v_type: self.v_type.clone(),
            v_id: self.v_id.clone(),
            attributes: self.attributes.duplicate(),
        }
    }

    /// The key of the row.
    pub fn v_id(&self) -> (r: String)
        ensures
            r@ == self@.v_id,
    {
        self.v_id.clone()
    }

    /// The vertex type.
    pub fn v_type(&self) -> (r: String)
        ensures
            r@ == self@.v_type,
    {
        self.v_type.clone()
    }

    /// The status flags of the record at `now`.
    pub fn status(&self, now: i64) -> (flags: Vec<DataStatus>)
        ensures
            flags@ == self@.status(now),
    {
        let mut flags: Vec<DataStatus> = Vec::new();
        if self.v_id.as_str().unicode_len() != 0 {
            flags.push(DataStatus::Cached);
            if self.attributes.is_outdated(now) {
                flags.push(DataStatus::Outdated);
            }
        } else {
            flags.push(DataStatus::Fetching);
        }
        assert(flags@ =~= self@.status(now));
        flags
    }

    /// The primary-domain flag as a client sees it.
    pub fn reverse(&self) -> (r: Option<bool>)
        ensures
            r == self@.reverse(),
    {
        if self.attributes.platform.in_domain_systems() {
            self.attributes.reverse
        } else {
            None
        }
    }

    /// The expiry as a client sees it.
    pub fn expired_at(&self) -> (r: Option<i64>)
        ensures
            r == self@.expired_at(),
    {
        if self.attributes.platform.has_expiry() {
            self.attributes.expired_at
        } else {
            None
        }
    }

    /// The owner as a client sees it. On a platform whose identities have no
    /// owner: nothing, whatever the batch loader answered. Elsewhere: what
    /// the loader found for the record's key; nothing where it reports the
    /// key as not found; an error of the query layer, with the loader's
    /// message, where it failed otherwise.
    pub fn owned_by(&self, loaded: Loaded) -> (r: Result<Option<IdentityRecord>, Error>)
        ensures
            !self@.attributes.platform.spec_is_ownable_domain() ==> r is Ok && r->Ok_0 is None,
            self@.attributes.platform.spec_is_ownable_domain() ==> match loaded {
                Loaded::Found(value) => r is Ok && r->Ok_0 == value,
                Loaded::NotFound => r is Ok && r->Ok_0 is None,
                Loaded::Failed(message) => r is Err && r->Err_0 is GraphQLError
                    && r->Err_0->GraphQLError_0 == message,
            },
    {
        if !self.attributes.platform.is_ownable_domain() {
            return Ok(None);
        }
        match loaded {
            Loaded::Found(value) => Ok(value),
            Loaded::NotFound => Ok(None),
            Loaded::Failed(message) => Err(Error::GraphQLError(message)),
        }
    }
}

/// What the batch loader answered for one key.
#[derive(Debug)]
pub enum Loaded {
    /// The load ran: the record under the key, where there is one.
    Found(Option<IdentityRecord>),
    /// The loader reports the key as not found.
    NotFound,
    /// The loader failed otherwise, with this message.
    Failed(String),
}

impl IdentityField {
    /// The name of the field in an upsert.
    pub open spec fn spec_name(self) -> Seq<char> {
        match self {
            IdentityField::Id => "id"@,
            IdentityField::Uuid => "uuid"@,
            IdentityField::Platform => "platform"@,
            IdentityField::Identity => "identity"@,
            IdentityField::Uid => "uid"@,
            IdentityField::DisplayName => "display_name"@,
            IdentityField::ProfileUrl => "profile_url"@,
            IdentityField::AvatarUrl => "avatar_url"@,
            IdentityField::CreatedAt => "created_at"@,
            IdentityField::AddedAt => "added_at"@,
            IdentityField::UpdatedAt => "updated_at"@,
        }
    }

    /// The name of the field in an upsert.
    pub fn name(&self) -> (s: &'static str)
        ensures
            s@ == self.spec_name(),
    {
        match self {
            IdentityField::Id => "id",
            IdentityField::Uuid => "uuid",
            IdentityField::Platform => "platform",
            IdentityField::Identity => "identity",
            IdentityField::Uid => "uid",
            IdentityField::DisplayName => "display_name",
            IdentityField::ProfileUrl => "profile_url",
            IdentityField::AvatarUrl => "avatar_url",
            IdentityField::CreatedAt => "created_at",
            IdentityField::AddedAt => "added_at",
            IdentityField::UpdatedAt => "updated_at",
        }
    }
}

} // verus!
