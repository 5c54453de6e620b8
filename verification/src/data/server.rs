//! Servers and their members.

use crate::data::autumn::{Attachment, AttachmentView};
use crate::json::{Json, JsonView};
use crate::wire::{
    lemma_lookup_with, lemma_lookup_with_optional, lemma_optional_of_written,
    lemma_required_of_written, optional, put, put_optional, read, read_optional, required, with,
    with_optional, written, Field, Members, Table, Wire,
};
use vstd::prelude::*;

verus! {

/// A group of channels of a server.
#[derive(Debug, PartialEq)]
pub struct Category {
    pub id: String,
    pub title: String,
    pub channels: Vec<String>,
}

/// The model of a [`Category`].
pub struct CategoryView {
    pub id: Seq<char>,
    pub title: Seq<char>,
    pub channels: Seq<Seq<char>>,
}

impl DeepView for Category {
    type V = CategoryView;

    open spec fn deep_view(&self) -> CategoryView {
        CategoryView {
            id: self.id.deep_view(),
            title: self.title.deep_view(),
            channels: self.channels.deep_view(),
        }
    }
}

impl Category {
    /// The members that the value is written with. A field that is missing adds
    /// none.
    pub open spec fn members(v: CategoryView) -> Members {
        let m: Members = Map::empty();
        let m = with::<String>(m, "id"@, v.id);
        let m = with::<String>(m, "title"@, v.title);
        let m = with::<Vec<String>>(m, "channels"@, v.channels);
        m
    }

    /// The keys, by their lengths and the characters that tell them apart.
    proof fn lemma_keys()
        ensures
            "id"@.len() == 2,
            "title"@.len() == 5,
            "channels"@.len() == 8,
    {
        reveal_strlit("id");
        reveal_strlit("title");
        reveal_strlit("channels");
    }

    /// Each field is written under its own key, a field that is missing is
    /// written as no member at all, and no other key is written.
    pub proof fn lemma_encoded_members(v: CategoryView)
        ensures
            <Category as Wire>::encode(v) is Object,
            <Category as Wire>::encode(v).member("id"@) == Some(<String as Wire>::encode(v.id)),
            <Category as Wire>::encode(v).member("title"@) == Some(<String as Wire>::encode(v.title)),
            <Category as Wire>::encode(v).member("channels"@) == Some(<Vec<String> as Wire>::encode(v.channels)),
            forall|k: Seq<char>|
                (#[trigger] <Category as Wire>::encode(v).member(k)) is Some ==> {
                    ||| k == "id"@
                    ||| k == "title"@
                    ||| k == "channels"@
                },
    {
        broadcast use lemma_lookup_with;

        Self::lemma_keys();
    }
}

impl Wire for Category {
    open spec fn encode(v: CategoryView) -> JsonView {
        JsonView::Object(Self::members(v))
    }

    open spec fn decode(j: JsonView) -> Option<CategoryView> {
        let id = required::<String>(j, "id"@);
        let title = required::<String>(j, "title"@);
        let channels = required::<Vec<String>>(j, "channels"@);
        if j is Object && id is Some && title is Some && channels is Some {
            Some(
                CategoryView {
                    id: id.unwrap(),
                    title: title.unwrap(),
                    channels: channels.unwrap(),
                },
            )
        } else {
            None
        }
    }

    proof fn lemma_decode_encode(v: CategoryView) {
        Self::lemma_encoded_members(v);
        let j = Self::encode(v);
        lemma_required_of_written::<String>(j, "id"@, v.id);
        lemma_required_of_written::<String>(j, "title"@, v.title);
        lemma_required_of_written::<Vec<String>>(j, "channels"@, v.channels);
    }

    fn to_json(&self) -> (j: Json) {
        let mut members: Vec<(String, Json)> = Vec::new();
        put::<String>(&mut members, "id", &self.id);
        put::<String>(&mut members, "title", &self.title);
        put::<Vec<String>>(&mut members, "channels", &self.channels);
        Json::Object(members)
    }

    fn from_json(j: &Json) -> (r: Option<Category>) {
        if !j.is_object() {
            return None;
        }
        let id = read::<String>(j, "id")?;
        let title = read::<String>(j, "title")?;
        let channels = read::<Vec<String>>(j, "channels")?;
        Some(Category { id, title, channels })
    }
}

/// The channels that a server reports its events to.
#[derive(Debug, PartialEq)]
pub struct SystemMessages {
    pub user_joined: Field<String>,
    pub user_left: Field<String>,
    pub user_kicked: Field<String>,
    pub user_banned: Field<String>,
}

/// The model of a [`SystemMessages`].
pub struct SystemMessagesView {
    pub user_joined: Field<Seq<char>>,
    pub user_left: Field<Seq<char>>,
    pub user_kicked: Field<Seq<char>>,
    pub user_banned: Field<Seq<char>>,
}

impl DeepView for SystemMessages {
    type V = SystemMessagesView;

    open spec fn deep_view(&self) -> SystemMessagesView {
        SystemMessagesView {
            user_joined: self.user_joined.deep_view(),
            user_left: self.user_left.deep_view(),
            user_kicked: self.user_kicked.deep_view(),
            user_banned: self.user_banned.deep_view(),
        }
    }
}

impl SystemMessages {
    /// The members that the value is written with. A field that is missing adds
    /// none.
    pub open spec fn members(v: SystemMessagesView) -> Members {
        let m: Members = Map::empty();
        let m = with_optional::<String>(m, "user_joined"@, v.user_joined);
        let m = with_optional::<String>(m, "user_left"@, v.user_left);
        let m = with_optional::<String>(m, "user_kicked"@, v.user_kicked);
        let m = with_optional::<String>(m, "user_banned"@, v.user_banned);
        m
    }

    /// The keys, by their lengths and the characters that tell them apart.
    proof fn lemma_keys()
        ensures
            "user_joined"@.len() == 11 && "user_joined"@[5] == 'j',
            "user_left"@.len() == 9,
            "user_kicked"@.len() == 11 && "user_kicked"@[5] == 'k',
            "user_banned"@.len() == 11 && "user_banned"@[5] == 'b',
    {
        reveal_strlit("user_joined");
        reveal_strlit("user_left");
        reveal_strlit("user_kicked");
        reveal_strlit("user_banned");
    }

    /// Each field is written under its own key, a field that is missing is
    /// written as no member at all, and no other key is written.
    pub proof fn lemma_encoded_members(v: SystemMessagesView)
        ensures
            <SystemMessages as Wire>::encode(v) is Object,
            <SystemMessages as Wire>::encode(v).member("user_joined"@) == written::<String>(v.user_joined),
            <SystemMessages as Wire>::encode(v).member("user_left"@) == written::<String>(v.user_left),
            <SystemMessages as Wire>::encode(v).member("user_kicked"@) == written::<String>(v.user_kicked),
            <SystemMessages as Wire>::encode(v).member("user_banned"@) == written::<String>(v.user_banned),
            forall|k: Seq<char>|
                (#[trigger] <SystemMessages as Wire>::encode(v).member(k)) is Some ==> {
                    ||| k == "user_joined"@
                    ||| k == "user_left"@
                    ||| k == "user_kicked"@
                    ||| k == "user_banned"@
                },
    {
        broadcast use lemma_lookup_with_optional;

        Self::lemma_keys();
    }

    /// A document that is read and lacks the key of an optional field gives a
    /// missing field, and only such a document does. A member that is `null`
    /// gives the null field, and only such a member does.
    pub proof fn lemma_decoded_missing(j: JsonView)
        requires
            <SystemMessages as Wire>::decode(j) is Some,
        ensures
            <SystemMessages as Wire>::decode(j).unwrap().user_joined is Missing <==> j.member("user_joined"@) is None,
            <SystemMessages as Wire>::decode(j).unwrap().user_joined is Null <==> j.member("user_joined"@) == Some(JsonView::Null),
            <SystemMessages as Wire>::decode(j).unwrap().user_left is Missing <==> j.member("user_left"@) is None,
            <SystemMessages as Wire>::decode(j).unwrap().user_left is Null <==> j.member("user_left"@) == Some(JsonView::Null),
            <SystemMessages as Wire>::decode(j).unwrap().user_kicked is Missing <==> j.member("user_kicked"@) is None,
            <SystemMessages as Wire>::decode(j).unwrap().user_kicked is Null <==> j.member("user_kicked"@) == Some(JsonView::Null),
            <SystemMessages as Wire>::decode(j).unwrap().user_banned is Missing <==> j.member("user_banned"@) is None,
            <SystemMessages as Wire>::decode(j).unwrap().user_banned is Null <==> j.member("user_banned"@) == Some(JsonView::Null),
    {
    }

    /// What a document leaves out, the value read from it leaves out again
    /// when it is written, and nothing else; and what is `null` in the document
    /// is written as `null` again, and nothing else.
    pub proof fn lemma_omitted_stays_omitted(j: JsonView)
        requires
            <SystemMessages as Wire>::decode(j) is Some,
        ensures
            j.member("user_joined"@) is None <==> <SystemMessages as Wire>::encode(<SystemMessages as Wire>::decode(j).unwrap()).member(
                "user_joined"@,
            ) is None,
            j.member("user_joined"@) == Some(JsonView::Null) <==> <SystemMessages as Wire>::encode(
                <SystemMessages as Wire>::decode(j).unwrap(),
            ).member("user_joined"@) == Some(JsonView::Null),
            j.member("user_left"@) is None <==> <SystemMessages as Wire>::encode(<SystemMessages as Wire>::decode(j).unwrap()).member(
                "user_left"@,
            ) is None,
            j.member("user_left"@) == Some(JsonView::Null) <==> <SystemMessages as Wire>::encode(
                <SystemMessages as Wire>::decode(j).unwrap(),
            ).member("user_left"@) == Some(JsonView::Null),
            j.member("user_kicked"@) is None <==> <SystemMessages as Wire>::encode(<SystemMessages as Wire>::decode(j).unwrap()).member(
                "user_kicked"@,
            ) is None,
            j.member("user_kicked"@) == Some(JsonView::Null) <==> <SystemMessages as Wire>::encode(
                <SystemMessages as Wire>::decode(j).unwrap(),
            ).member("user_kicked"@) == Some(JsonView::Null),
            j.member("user_banned"@) is None <==> <SystemMessages as Wire>::encode(<SystemMessages as Wire>::decode(j).unwrap()).member(
                "user_banned"@,
            ) is None,
            j.member("user_banned"@) == Some(JsonView::Null) <==> <SystemMessages as Wire>::encode(
                <SystemMessages as Wire>::decode(j).unwrap(),
            ).member("user_banned"@) == Some(JsonView::Null),
    {
        Self::lemma_decoded_missing(j);
        Self::lemma_encoded_members(<SystemMessages as Wire>::decode(j).unwrap());
    }
}

impl Wire for SystemMessages {
    open spec fn encode(v: SystemMessagesView) -> JsonView {
        JsonView::Object(Self::members(v))
    }

    open spec fn decode(j: JsonView) -> Option<SystemMessagesView> {
        let user_joined = optional::<String>(j, "user_joined"@);
        let user_left = optional::<String>(j, "user_left"@);
        let user_kicked = optional::<String>(j, "user_kicked"@);
        let user_banned = optional::<String>(j, "user_banned"@);
        if j is Object && user_joined is Some && user_left is Some && user_kicked is Some && user_banned is Some {
            Some(
                SystemMessagesView {
                    user_joined: user_joined.unwrap(),
                    user_left: user_left.unwrap(),
                    user_kicked: user_kicked.unwrap(),
                    user_banned: user_banned.unwrap(),
                },
            )
        } else {
            None
        }
    }

    proof fn lemma_decode_encode(v: SystemMessagesView) {
        Self::lemma_encoded_members(v);
        let j = Self::encode(v);
        lemma_optional_of_written::<String>(j, "user_joined"@, v.user_joined);
        lemma_optional_of_written::<String>(j, "user_left"@, v.user_left);
        lemma_optional_of_written::<String>(j, "user_kicked"@, v.user_kicked);
        lemma_optional_of_written::<String>(j, "user_banned"@, v.user_banned);
    }

    fn to_json(&self) -> (j: Json) {
        let mut members: Vec<(String, Json)> = Vec::new();
        put_optional::<String>(&mut members, "user_joined", &self.user_joined);
        put_optional::<String>(&mut members, "user_left", &self.user_left);
        put_optional::<String>(&mut members, "user_kicked", &self.user_kicked);
        put_optional::<String>(&mut members, "user_banned", &self.user_banned);
        Json::Object(members)
    }

    fn from_json(j: &Json) -> (r: Option<SystemMessages>) {
        if !j.is_object() {
            return None;
        }
        let user_joined = read_optional::<String>(j, "user_joined")?;
        let user_left = read_optional::<String>(j, "user_left")?;
        let user_kicked = read_optional::<String>(j, "user_kicked")?;
        let user_banned = read_optional::<String>(j, "user_banned")?;
        Some(SystemMessages { user_joined, user_left, user_kicked, user_banned })
    }
}

/// A role of a server.
#[derive(Debug, PartialEq)]
pub struct Role {
    pub name: String,
    /// Two bit masks: what the role allows, and what it denies.
    pub permissions: (i32, i32),
    pub colour: Field<String>,
    pub hoist: Field<bool>,
    pub rank: Field<i32>,
}

/// The model of a [`Role`].
pub struct RoleView {
    pub name: Seq<char>,
    pub permissions: (i32, i32),
    pub colour: Field<Seq<char>>,
    pub hoist: Field<bool>,
    pub rank: Field<i32>,
}

impl DeepView for Role {
    type V = RoleView;

    open spec fn deep_view(&self) -> RoleView {
        RoleView {
            name: self.name.deep_view(),
            permissions: self.permissions.deep_view(),
            colour: self.colour.deep_view(),
            hoist: self.hoist.deep_view(),
            rank: self.rank.deep_view(),
        }
    }
}

impl Role {
    /// The members that the value is written with. A field that is missing adds
    /// none.
    pub open spec fn members(v: RoleView) -> Members {
        let m: Members = Map::empty();
        let m = with::<String>(m, "name"@, v.name);
        let m = with::<(i32, i32)>(m, "permissions"@, v.permissions);
        let m = with_optional::<String>(m, "colour"@, v.colour);
        let m = with_optional::<bool>(m, "hoist"@, v.hoist);
        let m = with_optional::<i32>(m, "rank"@, v.rank);
        m
    }

    /// The keys, by their lengths and the characters that tell them apart.
    proof fn lemma_keys()
        ensures
            "name"@.len() == 4 && "name"@[0] == 'n',
            "permissions"@.len() == 11,
            "colour"@.len() == 6,
            "hoist"@.len() == 5,
            "rank"@.len() == 4 && "rank"@[0] == 'r',
    {
        reveal_strlit("name");
        reveal_strlit("permissions");
        reveal_strlit("colour");
        reveal_strlit("hoist");
        reveal_strlit("rank");
    }

    /// Each field is written under its own key, a field that is missing is
    /// written as no member at all, and no other key is written.
    pub proof fn lemma_encoded_members(v: RoleView)
        ensures
            <Role as Wire>::encode(v) is Object,
            <Role as Wire>::encode(v).member("name"@) == Some(<String as Wire>::encode(v.name)),
            <Role as Wire>::encode(v).member("permissions"@) == Some(<(i32, i32) as Wire>::encode(v.permissions)),
            <Role as Wire>::encode(v).member("colour"@) == written::<String>(v.colour),
            <Role as Wire>::encode(v).member("hoist"@) == written::<bool>(v.hoist),
            <Role as Wire>::encode(v).member("rank"@) == written::<i32>(v.rank),
            forall|k: Seq<char>|
                (#[trigger] <Role as Wire>::encode(v).member(k)) is Some ==> {
                    ||| k == "name"@
                    ||| k == "permissions"@
                    ||| k == "colour"@
                    ||| k == "hoist"@
                    ||| k == "rank"@
                },
    {
        broadcast use {lemma_lookup_with, lemma_lookup_with_optional};

        Self::lemma_keys();
    }

    /// A document that is read and lacks the key of an optional field gives a
    /// missing field, and only such a document does. A member that is `null`
    /// gives the null field, and only such a member does.
    pub proof fn lemma_decoded_missing(j: JsonView)
        requires
            <Role as Wire>::decode(j) is Some,
        ensures
            <Role as Wire>::decode(j).unwrap().colour is Missing <==> j.member("colour"@) is None,
            <Role as Wire>::decode(j).unwrap().colour is Null <==> j.member("colour"@) == Some(JsonView::Null),
            <Role as Wire>::decode(j).unwrap().hoist is Missing <==> j.member("hoist"@) is None,
            <Role as Wire>::decode(j).unwrap().hoist is Null <==> j.member("hoist"@) == Some(JsonView::Null),
            <Role as Wire>::decode(j).unwrap().rank is Missing <==> j.member("rank"@) is None,
            <Role as Wire>::decode(j).unwrap().rank is Null <==> j.member("rank"@) == Some(JsonView::Null),
    {
    }

    /// What a document leaves out, the value read from it leaves out again
    /// when it is written, and nothing else; and what is `null` in the document
    /// is written as `null` again, and nothing else.
    pub proof fn lemma_omitted_stays_omitted(j: JsonView)
        requires
            <Role as Wire>::decode(j) is Some,
        ensures
            j.member("colour"@) is None <==> <Role as Wire>::encode(<Role as Wire>::decode(j).unwrap()).member(
                "colour"@,
            ) is None,
            j.member("colour"@) == Some(JsonView::Null) <==> <Role as Wire>::encode(
                <Role as Wire>::decode(j).unwrap(),
            ).member("colour"@) == Some(JsonView::Null),
            j.member("hoist"@) is None <==> <Role as Wire>::encode(<Role as Wire>::decode(j).unwrap()).member(
                "hoist"@,
            ) is None,
            j.member("hoist"@) == Some(JsonView::Null) <==> <Role as Wire>::encode(
                <Role as Wire>::decode(j).unwrap(),
            ).member("hoist"@) == Some(JsonView::Null),
            j.member("rank"@) is None <==> <Role as Wire>::encode(<Role as Wire>::decode(j).unwrap()).member(
                "rank"@,
            ) is None,
            j.member("rank"@) == Some(JsonView::Null) <==> <Role as Wire>::encode(
                <Role as Wire>::decode(j).unwrap(),
            ).member("rank"@) == Some(JsonView::Null),
    {
        Self::lemma_decoded_missing(j);
        Self::lemma_encoded_members(<Role as Wire>::decode(j).unwrap());
    }
}

impl Wire for Role {
    open spec fn encode(v: RoleView) -> JsonView {
        JsonView::Object(Self::members(v))
    }

    open spec fn decode(j: JsonView) -> Option<RoleView> {
        let name = required::<String>(j, "name"@);
        let permissions = required::<(i32, i32)>(j, "permissions"@);
        let colour = optional::<String>(j, "colour"@);
        let hoist = optional::<bool>(j, "hoist"@);
        let rank = optional::<i32>(j, "rank"@);
        if j is Object && name is Some && permissions is Some && colour is Some && hoist is Some && rank is Some {
            Some(
                RoleView {
                    name: name.unwrap(),
                    permissions: permissions.unwrap(),
                    colour: colour.unwrap(),
                    hoist: hoist.unwrap(),
                    rank: rank.unwrap(),
                },
            )
        } else {
            None
        }
    }

    proof fn lemma_decode_encode(v: RoleView) {
        Self::lemma_encoded_members(v);
        let j = Self::encode(v);
        lemma_required_of_written::<String>(j, "name"@, v.name);
        lemma_required_of_written::<(i32, i32)>(j, "permissions"@, v.permissions);
        lemma_optional_of_written::<String>(j, "colour"@, v.colour);
        lemma_optional_of_written::<bool>(j, "hoist"@, v.hoist);
        lemma_optional_of_written::<i32>(j, "rank"@, v.rank);
    }

    fn to_json(&self) -> (j: Json) {
        let mut members: Vec<(String, Json)> = Vec::new();
        put::<String>(&mut members, "name", &self.name);
        put::<(i32, i32)>(&mut members, "permissions", &self.permissions);
        put_optional::<String>(&mut members, "colour", &self.colour);
        put_optional::<bool>(&mut members, "hoist", &self.hoist);
        put_optional::<i32>(&mut members, "rank", &self.rank);
        Json::Object(members)
    }

    fn from_json(j: &Json) -> (r: Option<Role>) {
        if !j.is_object() {
            return None;
        }
        let name = read::<String>(j, "name")?;
        let permissions = read::<(i32, i32)>(j, "permissions")?;
        let colour = read_optional::<String>(j, "colour")?;
        let hoist = read_optional::<bool>(j, "hoist")?;
        let rank = read_optional::<i32>(j, "rank")?;
        Some(Role { name, permissions, colour, hoist, rank })
    }
}

/// A community with its channels.
#[derive(Debug, PartialEq)]
pub struct Server {
    pub id: String,
    pub nonce: Field<String>,
    pub owner: String,
    pub name: String,
    pub description: Field<String>,
    /// The ids of the channels, in the order in which they are shown.
    pub channels: Vec<String>,
    pub categories: Field<Vec<Category>>,
    pub system_messages: Field<SystemMessages>,
    /// The roles, each under its id.
    pub roles: Field<Table<Role>>,
    /// Two bit masks: what is allowed to every member, and what is denied.
    pub default_permissions: (i32, i32),
    pub icon: Field<Attachment>,
    pub banner: Field<Attachment>,
}

/// The model of a [`Server`].
pub struct ServerView {
    pub id: Seq<char>,
    pub nonce: Field<Seq<char>>,
    pub owner: Seq<char>,
    pub name: Seq<char>,
    pub description: Field<Seq<char>>,
    pub channels: Seq<Seq<char>>,
    pub categories: Field<Seq<CategoryView>>,
    pub system_messages: Field<SystemMessagesView>,
    pub roles: Field<Map<Seq<char>, RoleView>>,
    pub default_permissions: (i32, i32),
    pub icon: Field<AttachmentView>,
    pub banner: Field<AttachmentView>,
}

impl DeepView for Server {
    type V = ServerView;

    open spec fn deep_view(&self) -> ServerView {
        ServerView {
            id: self.id.deep_view(),
            nonce: self.nonce.deep_view(),
            owner: self.owner.deep_view(),
            name: self.name.deep_view(),
            description: self.description.deep_view(),
            channels: self.channels.deep_view(),
            categories: self.categories.deep_view(),
            system_messages: self.system_messages.deep_view(),
            roles: self.roles.deep_view(),
            default_permissions: self.default_permissions.deep_view(),
            icon: self.icon.deep_view(),
            banner: self.banner.deep_view(),
        }
    }
}

impl Server {
    /// The members that the value is written with. A field that is missing adds
    /// none.
    pub open spec fn members(v: ServerView) -> Members {
        let m: Members = Map::empty();
        let m = with::<String>(m, "_id"@, v.id);
        let m = with_optional::<String>(m, "nonce"@, v.nonce);
        let m = with::<String>(m, "owner"@, v.owner);
        let m = with::<String>(m, "name"@, v.name);
        let m = with_optional::<String>(m, "description"@, v.description);
        let m = with::<Vec<String>>(m, "channels"@, v.channels);
        let m = with_optional::<Vec<Category>>(m, "categories"@, v.categories);
        let m = with_optional::<SystemMessages>(m, "system_messages"@, v.system_messages);
        let m = with_optional::<Table<Role>>(m, "roles"@, v.roles);
        let m = with::<(i32, i32)>(m, "default_permissions"@, v.default_permissions);
        let m = with_optional::<Attachment>(m, "icon"@, v.icon);
        let m = with_optional::<Attachment>(m, "banner"@, v.banner);
        m
    }

    /// The keys, by their lengths and the characters that tell them apart.
    proof fn lemma_keys()
        ensures
            "_id"@.len() == 3,
            "nonce"@.len() == 5 && "nonce"@[0] == 'n',
            "owner"@.len() == 5 && "owner"@[0] == 'o',
            "name"@.len() == 4 && "name"@[0] == 'n',
            "description"@.len() == 11,
            "channels"@.len() == 8,
            "categories"@.len() == 10,
            "system_messages"@.len() == 15,
            "roles"@.len() == 5 && "roles"@[0] == 'r',
            "default_permissions"@.len() == 19,
            "icon"@.len() == 4 && "icon"@[0] == 'i',
            "banner"@.len() == 6,
    {
        reveal_strlit("_id");
        reveal_strlit("nonce");
        reveal_strlit("owner");
        reveal_strlit("name");
        reveal_strlit("description");
        reveal_strlit("channels");
        reveal_strlit("categories");
        reveal_strlit("system_messages");
        reveal_strlit("roles");
        reveal_strlit("default_permissions");
        reveal_strlit("icon");
        reveal_strlit("banner");
    }

    /// Each field is written under its own key, a field that is missing is
    /// written as no member at all, and no other key is written.
    pub proof fn lemma_encoded_members(v: ServerView)
        ensures
            <Server as Wire>::encode(v) is Object,
            <Server as Wire>::encode(v).member("_id"@) == Some(<String as Wire>::encode(v.id)),
            <Server as Wire>::encode(v).member("nonce"@) == written::<String>(v.nonce),
            <Server as Wire>::encode(v).member("owner"@) == Some(<String as Wire>::encode(v.owner)),
            <Server as Wire>::encode(v).member("name"@) == Some(<String as Wire>::encode(v.name)),
            <Server as Wire>::encode(v).member("description"@) == written::<String>(v.description),
            <Server as Wire>::encode(v).member("channels"@) == Some(<Vec<String> as Wire>::encode(v.channels)),
            <Server as Wire>::encode(v).member("categories"@) == written::<Vec<Category>>(v.categories),
            <Server as Wire>::encode(v).member("system_messages"@) == written::<SystemMessages>(v.system_messages),
            <Server as Wire>::encode(v).member("roles"@) == written::<Table<Role>>(v.roles),
            <Server as Wire>::encode(v).member("default_permissions"@) == Some(<(i32, i32) as Wire>::encode(v.default_permissions)),
            <Server as Wire>::encode(v).member("icon"@) == written::<Attachment>(v.icon),
            <Server as Wire>::encode(v).member("banner"@) == written::<Attachment>(v.banner),
            forall|k: Seq<char>|
                (#[trigger] <Server as Wire>::encode(v).member(k)) is Some ==> {
                    ||| k == "_id"@
                    ||| k == "nonce"@
                    ||| k == "owner"@
                    ||| k == "name"@
                    ||| k == "description"@
                    ||| k == "channels"@
                    ||| k == "categories"@
                    ||| k == "system_messages"@
                    ||| k == "roles"@
                    ||| k == "default_permissions"@
                    ||| k == "icon"@
                    ||| k == "banner"@
                },
    {
        broadcast use {lemma_lookup_with, lemma_lookup_with_optional};

        Self::lemma_keys();
    }

    /// A document that is read and lacks the key of an optional field gives a
    /// missing field, and only such a document does. A member that is `null`
    /// gives the null field, and only such a member does.
    pub proof fn lemma_decoded_missing(j: JsonView)
        requires
            <Server as Wire>::decode(j) is Some,
        ensures
            <Server as Wire>::decode(j).unwrap().nonce is Missing <==> j.member("nonce"@) is None,
            <Server as Wire>::decode(j).unwrap().nonce is Null <==> j.member("nonce"@) == Some(JsonView::Null),
            <Server as Wire>::decode(j).unwrap().description is Missing <==> j.member("description"@) is None,
            <Server as Wire>::decode(j).unwrap().description is Null <==> j.member("description"@) == Some(JsonView::Null),
            <Server as Wire>::decode(j).unwrap().categories is Missing <==> j.member("categories"@) is None,
            <Server as Wire>::decode(j).unwrap().categories is Null <==> j.member("categories"@) == Some(JsonView::Null),
            <Server as Wire>::decode(j).unwrap().system_messages is Missing <==> j.member("system_messages"@) is None,
            <Server as Wire>::decode(j).unwrap().system_messages is Null <==> j.member("system_messages"@) == Some(JsonView::Null),
            <Server as Wire>::decode(j).unwrap().roles is Missing <==> j.member("roles"@) is None,
            <Server as Wire>::decode(j).unwrap().roles is Null <==> j.member("roles"@) == Some(JsonView::Null),
            <Server as Wire>::decode(j).unwrap().icon is Missing <==> j.member("icon"@) is None,
            <Server as Wire>::decode(j).unwrap().icon is Null <==> j.member("icon"@) == Some(JsonView::Null),
            <Server as Wire>::decode(j).unwrap().banner is Missing <==> j.member("banner"@) is None,
            <Server as Wire>::decode(j).unwrap().banner is Null <==> j.member("banner"@) == Some(JsonView::Null),
    {
    }

    /// What a document leaves out, the value read from it leaves out again
    /// when it is written, and nothing else; and what is `null` in the document
    /// is written as `null` again, and nothing else.
    pub proof fn lemma_omitted_stays_omitted(j: JsonView)
        requires
            <Server as Wire>::decode(j) is Some,
        ensures
            j.member("nonce"@) is None <==> <Server as Wire>::encode(<Server as Wire>::decode(j).unwrap()).member(
                "nonce"@,
            ) is None,
            j.member("nonce"@) == Some(JsonView::Null) <==> <Server as Wire>::encode(
                <Server as Wire>::decode(j).unwrap(),
            ).member("nonce"@) == Some(JsonView::Null),
            j.member("description"@) is None <==> <Server as Wire>::encode(<Server as Wire>::decode(j).unwrap()).member(
                "description"@,
            ) is None,
            j.member("description"@) == Some(JsonView::Null) <==> <Server as Wire>::encode(
                <Server as Wire>::decode(j).unwrap(),
            ).member("description"@) == Some(JsonView::Null),
            j.member("categories"@) is None <==> <Server as Wire>::encode(<Server as Wire>::decode(j).unwrap()).member(
                "categories"@,
            ) is None,
            j.member("categories"@) == Some(JsonView::Null) <==> <Server as Wire>::encode(
                <Server as Wire>::decode(j).unwrap(),
            ).member("categories"@) == Some(JsonView::Null),
            j.member("system_messages"@) is None <==> <Server as Wire>::encode(<Server as Wire>::decode(j).unwrap()).member(
                "system_messages"@,
            ) is None,
            j.member("system_messages"@) == Some(JsonView::Null) <==> <Server as Wire>::encode(
                <Server as Wire>::decode(j).unwrap(),
            ).member("system_messages"@) == Some(JsonView::Null),
            j.member("roles"@) is None <==> <Server as Wire>::encode(<Server as Wire>::decode(j).unwrap()).member(
                "roles"@,
            ) is None,
            j.member("roles"@) == Some(JsonView::Null) <==> <Server as Wire>::encode(
                <Server as Wire>::decode(j).unwrap(),
            ).member("roles"@) == Some(JsonView::Null),
            j.member("icon"@) is None <==> <Server as Wire>::encode(<Server as Wire>::decode(j).unwrap()).member(
                "icon"@,
            ) is None,
            j.member("icon"@) == Some(JsonView::Null) <==> <Server as Wire>::encode(
                <Server as Wire>::decode(j).unwrap(),
            ).member("icon"@) == Some(JsonView::Null),
            j.member("banner"@) is None <==> <Server as Wire>::encode(<Server as Wire>::decode(j).unwrap()).member(
                "banner"@,
            ) is None,
            j.member("banner"@) == Some(JsonView::Null) <==> <Server as Wire>::encode(
                <Server as Wire>::decode(j).unwrap(),
            ).member("banner"@) == Some(JsonView::Null),
    {
        Self::lemma_decoded_missing(j);
        Self::lemma_encoded_members(<Server as Wire>::decode(j).unwrap());
    }
}

impl Wire for Server {
    open spec fn encode(v: ServerView) -> JsonView {
        JsonView::Object(Self::members(v))
    }

    open spec fn decode(j: JsonView) -> Option<ServerView> {
        let id = required::<String>(j, "_id"@);
        let nonce = optional::<String>(j, "nonce"@);
        let owner = required::<String>(j, "owner"@);
        let name = required::<String>(j, "name"@);
        let description = optional::<String>(j, "description"@);
        let channels = required::<Vec<String>>(j, "channels"@);
        let categories = optional::<Vec<Category>>(j, "categories"@);
        let system_messages = optional::<SystemMessages>(j, "system_messages"@);
        let roles = optional::<Table<Role>>(j, "roles"@);
        let default_permissions = required::<(i32, i32)>(j, "default_permissions"@);
        let icon = optional::<Attachment>(j, "icon"@);
        let banner = optional::<Attachment>(j, "banner"@);
        if j is Object && id is Some && nonce is Some && owner is Some && name is Some && description is Some && channels is Some && categories is Some && system_messages is Some && roles is Some && default_permissions is Some && icon is Some && banner is Some {
            Some(
                ServerView {
                    id: id.unwrap(),
                    nonce: nonce.unwrap(),
                    owner: owner.unwrap(),
                    name: name.unwrap(),
                    description: description.unwrap(),
                    channels: channels.unwrap(),
                    categories: categories.unwrap(),
                    system_messages: system_messages.unwrap(),
                    roles: roles.unwrap(),
                    default_permissions: default_permissions.unwrap(),
                    icon: icon.unwrap(),
                    banner: banner.unwrap(),
                },
            )
        } else {
            None
        }
    }

    proof fn lemma_decode_encode(v: ServerView) {
        Self::lemma_encoded_members(v);
        let j = Self::encode(v);
        lemma_required_of_written::<String>(j, "_id"@, v.id);
        lemma_optional_of_written::<String>(j, "nonce"@, v.nonce);
        lemma_required_of_written::<String>(j, "owner"@, v.owner);
        lemma_required_of_written::<String>(j, "name"@, v.name);
        lemma_optional_of_written::<String>(j, "description"@, v.description);
        lemma_required_of_written::<Vec<String>>(j, "channels"@, v.channels);
        lemma_optional_of_written::<Vec<Category>>(j, "categories"@, v.categories);
        lemma_optional_of_written::<SystemMessages>(j, "system_messages"@, v.system_messages);
        lemma_optional_of_written::<Table<Role>>(j, "roles"@, v.roles);
        lemma_required_of_written::<(i32, i32)>(j, "default_permissions"@, v.default_permissions);
        lemma_optional_of_written::<Attachment>(j, "icon"@, v.icon);
        lemma_optional_of_written::<Attachment>(j, "banner"@, v.banner);
    }

    fn to_json(&self) -> (j: Json) {
        let mut members: Vec<(String, Json)> = Vec::new();
        put::<String>(&mut members, "_id", &self.id);
        put_optional::<String>(&mut members, "nonce", &self.nonce);
        put::<String>(&mut members, "owner", &self.owner);
        put::<String>(&mut members, "name", &self.name);
        put_optional::<String>(&mut members, "description", &self.description);
        put::<Vec<String>>(&mut members, "channels", &self.channels);
        put_optional::<Vec<Category>>(&mut members, "categories", &self.categories);
        put_optional::<SystemMessages>(&mut members, "system_messages", &self.system_messages);
        put_optional::<Table<Role>>(&mut members, "roles", &self.roles);
        put::<(i32, i32)>(&mut members, "default_permissions", &self.default_permissions);
        put_optional::<Attachment>(&mut members, "icon", &self.icon);
        put_optional::<Attachment>(&mut members, "banner", &self.banner);
        Json::Object(members)
    }

    fn from_json(j: &Json) -> (r: Option<Server>) {
        if !j.is_object() {
            return None;
        }
        let id = read::<String>(j, "_id")?;
        let nonce = read_optional::<String>(j, "nonce")?;
        let owner = read::<String>(j, "owner")?;
        let name = read::<String>(j, "name")?;
        let description = read_optional::<String>(j, "description")?;
        let channels = read::<Vec<String>>(j, "channels")?;
        let categories = read_optional::<Vec<Category>>(j, "categories")?;
        let system_messages = read_optional::<SystemMessages>(j, "system_messages")?;
        let roles = read_optional::<Table<Role>>(j, "roles")?;
        let default_permissions = read::<(i32, i32)>(j, "default_permissions")?;
        let icon = read_optional::<Attachment>(j, "icon")?;
        let banner = read_optional::<Attachment>(j, "banner")?;
        Some(Server { id, nonce, owner, name, description, channels, categories, system_messages, roles, default_permissions, icon, banner })
    }
}

/// The two ids that together name one membership.
#[derive(Debug, PartialEq)]
pub struct MemberId {
    pub server: String,
    pub user: String,
}

/// The model of a [`MemberId`].
pub struct MemberIdView {
    pub server: Seq<char>,
    pub user: Seq<char>,
}

impl DeepView for MemberId {
    type V = MemberIdView;

    open spec fn deep_view(&self) -> MemberIdView {
        MemberIdView {
            server: self.server.deep_view(),
            user: self.user.deep_view(),
        }
    }
}

impl MemberId {
    /// The members that the value is written with. A field that is missing adds
    /// none.
    pub open spec fn members(v: MemberIdView) -> Members {
        let m: Members = Map::empty();
        let m = with::<String>(m, "server"@, v.server);
        let m = with::<String>(m, "user"@, v.user);
        m
    }

    /// The keys, by their lengths and the characters that tell them apart.
    proof fn lemma_keys()
        ensures
            "server"@.len() == 6,
            "user"@.len() == 4,
    {
        reveal_strlit("server");
        reveal_strlit("user");
    }

    /// Each field is written under its own key, a field that is missing is
    /// written as no member at all, and no other key is written.
    pub proof fn lemma_encoded_members(v: MemberIdView)
        ensures
            <MemberId as Wire>::encode(v) is Object,
            <MemberId as Wire>::encode(v).member("server"@) == Some(<String as Wire>::encode(v.server)),
            <MemberId as Wire>::encode(v).member("user"@) == Some(<String as Wire>::encode(v.user)),
            forall|k: Seq<char>|
                (#[trigger] <MemberId as Wire>::encode(v).member(k)) is Some ==> {
                    ||| k == "server"@
                    ||| k == "user"@
                },
    {
        broadcast use lemma_lookup_with;

        Self::lemma_keys();
    }
}

impl Wire for MemberId {
    open spec fn encode(v: MemberIdView) -> JsonView {
        JsonView::Object(Self::members(v))
    }

    open spec fn decode(j: JsonView) -> Option<MemberIdView> {
        let server = required::<String>(j, "server"@);
        let user = required::<String>(j, "user"@);
        if j is Object && server is Some && user is Some {
            Some(
                MemberIdView {
                    server: server.unwrap(),
                    user: user.unwrap(),
                },
            )
        } else {
            None
        }
    }

    proof fn lemma_decode_encode(v: MemberIdView) {
        Self::lemma_encoded_members(v);
        let j = Self::encode(v);
        lemma_required_of_written::<String>(j, "server"@, v.server);
        lemma_required_of_written::<String>(j, "user"@, v.user);
    }

    fn to_json(&self) -> (j: Json) {
        let mut members: Vec<(String, Json)> = Vec::new();
        put::<String>(&mut members, "server", &self.server);
        put::<String>(&mut members, "user", &self.user);
        Json::Object(members)
    }

    fn from_json(j: &Json) -> (r: Option<MemberId>) {
        if !j.is_object() {
            return None;
        }
        let server = read::<String>(j, "server")?;
        let user = read::<String>(j, "user")?;
        Some(MemberId { server, user })
    }
}

/// The membership of a user in a server.
#[derive(Debug, PartialEq)]
pub struct Member {
    pub id: MemberId,
    pub nickname: Field<String>,
    pub avatar: Field<Attachment>,
    pub roles: Field<Vec<String>>,
}

/// The model of a [`Member`].
pub struct MemberView {
    pub id: MemberIdView,
    pub nickname: Field<Seq<char>>,
    pub avatar: Field<AttachmentView>,
    pub roles: Field<Seq<Seq<char>>>,
}

impl DeepView for Member {
    type V = MemberView;

    open spec fn deep_view(&self) -> MemberView {
        MemberView {
            id: self.id.deep_view(),
            nickname: self.nickname.deep_view(),
            avatar: self.avatar.deep_view(),
            roles: self.roles.deep_view(),
        }
    }
}

impl Member {
    /// The members that the value is written with. A field that is missing adds
    /// none.
    pub open spec fn members(v: MemberView) -> Members {
        let m: Members = Map::empty();
        let m = with::<MemberId>(m, "_id"@, v.id);
        let m = with_optional::<String>(m, "nickname"@, v.nickname);
        let m = with_optional::<Attachment>(m, "avatar"@, v.avatar);
        let m = with_optional::<Vec<String>>(m, "roles"@, v.roles);
        m
    }

    /// The keys, by their lengths and the characters that tell them apart.
    proof fn lemma_keys()
        ensures
            "_id"@.len() == 3,
            "nickname"@.len() == 8,
            "avatar"@.len() == 6,
            "roles"@.len() == 5,
    {
        reveal_strlit("_id");
        reveal_strlit("nickname");
        reveal_strlit("avatar");
        reveal_strlit("roles");
    }

    /// Each field is written under its own key, a field that is missing is
    /// written as no member at all, and no other key is written.
    pub proof fn lemma_encoded_members(v: MemberView)
        ensures
            <Member as Wire>::encode(v) is Object,
            <Member as Wire>::encode(v).member("_id"@) == Some(<MemberId as Wire>::encode(v.id)),
            <Member as Wire>::encode(v).member("nickname"@) == written::<String>(v.nickname),
            <Member as Wire>::encode(v).member("avatar"@) == written::<Attachment>(v.avatar),
            <Member as Wire>::encode(v).member("roles"@) == written::<Vec<String>>(v.roles),
            forall|k: Seq<char>|
                (#[trigger] <Member as Wire>::encode(v).member(k)) is Some ==> {
                    ||| k == "_id"@
                    ||| k == "nickname"@
                    ||| k == "avatar"@
                    ||| k == "roles"@
                },
    {
        broadcast use {lemma_lookup_with, lemma_lookup_with_optional};

        Self::lemma_keys();
    }

    /// A document that is read and lacks the key of an optional field gives a
    /// missing field, and only such a document does. A member that is `null`
    /// gives the null field, and only such a member does.
    pub proof fn lemma_decoded_missing(j: JsonView)
        requires
            <Member as Wire>::decode(j) is Some,
        ensures
            <Member as Wire>::decode(j).unwrap().nickname is Missing <==> j.member("nickname"@) is None,
            <Member as Wire>::decode(j).unwrap().nickname is Null <==> j.member("nickname"@) == Some(JsonView::Null),
            <Member as Wire>::decode(j).unwrap().avatar is Missing <==> j.member("avatar"@) is None,
            <Member as Wire>::decode(j).unwrap().avatar is Null <==> j.member("avatar"@) == Some(JsonView::Null),
            <Member as Wire>::decode(j).unwrap().roles is Missing <==> j.member("roles"@) is None,
            <Member as Wire>::decode(j).unwrap().roles is Null <==> j.member("roles"@) == Some(JsonView::Null),
    {
    }

    /// What a document leaves out, the value read from it leaves out again
    /// when it is written, and nothing else; and what is `null` in the document
    /// is written as `null` again, and nothing else.
    pub proof fn lemma_omitted_stays_omitted(j: JsonView)
        requires
            <Member as Wire>::decode(j) is Some,
        ensures
            j.member("nickname"@) is None <==> <Member as Wire>::encode(<Member as Wire>::decode(j).unwrap()).member(
                "nickname"@,
            ) is None,
            j.member("nickname"@) == Some(JsonView::Null) <==> <Member as Wire>::encode(
                <Member as Wire>::decode(j).unwrap(),
            ).member("nickname"@) == Some(JsonView::Null),
            j.member("avatar"@) is None <==> <Member as Wire>::encode(<Member as Wire>::decode(j).unwrap()).member(
                "avatar"@,
            ) is None,
            j.member("avatar"@) == Some(JsonView::Null) <==> <Member as Wire>::encode(
                <Member as Wire>::decode(j).unwrap(),
            ).member("avatar"@) == Some(JsonView::Null),
            j.member("roles"@) is None <==> <Member as Wire>::encode(<Member as Wire>::decode(j).unwrap()).member(
                "roles"@,
            ) is None,
            j.member("roles"@) == Some(JsonView::Null) <==> <Member as Wire>::encode(
                <Member as Wire>::decode(j).unwrap(),
            ).member("roles"@) == Some(JsonView::Null),
    {
        Self::lemma_decoded_missing(j);
        Self::lemma_encoded_members(<Member as Wire>::decode(j).unwrap());
    }
}

impl Wire for Member {
    open spec fn encode(v: MemberView) -> JsonView {
        JsonView::Object(Self::members(v))
    }

    open spec fn decode(j: JsonView) -> Option<MemberView> {
        let id = required::<MemberId>(j, "_id"@);
        let nickname = optional::<String>(j, "nickname"@);
        let avatar = optional::<Attachment>(j, "avatar"@);
        let roles = optional::<Vec<String>>(j, "roles"@);
        if j is Object && id is Some && nickname is Some && avatar is Some && roles is Some {
            Some(
                MemberView {
                    id: id.unwrap(),
                    nickname: nickname.unwrap(),
                    avatar: avatar.unwrap(),
                    roles: roles.unwrap(),
                },
            )
        } else {
            None
        }
    }

    proof fn lemma_decode_encode(v: MemberView) {
        Self::lemma_encoded_members(v);
        let j = Self::encode(v);
        lemma_required_of_written::<MemberId>(j, "_id"@, v.id);
        lemma_optional_of_written::<String>(j, "nickname"@, v.nickname);
        lemma_optional_of_written::<Attachment>(j, "avatar"@, v.avatar);
        lemma_optional_of_written::<Vec<String>>(j, "roles"@, v.roles);
    }

    fn to_json(&self) -> (j: Json) {
        let mut members: Vec<(String, Json)> = Vec::new();
        put::<MemberId>(&mut members, "_id", &self.id);
        put_optional::<String>(&mut members, "nickname", &self.nickname);
        put_optional::<Attachment>(&mut members, "avatar", &self.avatar);
        put_optional::<Vec<String>>(&mut members, "roles", &self.roles);
        Json::Object(members)
    }

    fn from_json(j: &Json) -> (r: Option<Member>) {
        if !j.is_object() {
            return None;
        }
        let id = read::<MemberId>(j, "_id")?;
        let nickname = read_optional::<String>(j, "nickname")?;
        let avatar = read_optional::<Attachment>(j, "avatar")?;
        let roles = read_optional::<Vec<String>>(j, "roles")?;
        Some(Member { id, nickname, avatar, roles })
    }
}

} // verus!
