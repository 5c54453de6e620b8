//! Channels.

use crate::data::autumn::{Attachment, AttachmentView};
use crate::data::message::{LastMessage, LastMessageType, LastMessageTypeView, LastMessageView};
use crate::text::same_text;
use crate::error::{CodecError, RevoltRsError};
use crate::json::{parsed, Json, JsonView};
use crate::wire::{
    decoded, lemma_lookup_with, lemma_lookup_with_optional, lemma_optional_of_written,
    lemma_required_of_written, optional, put, put_optional, read, read_optional, required, with,
    with_optional, written, Field, Members, Table, Wire,
};
use vstd::prelude::*;

verus! {

/// A conversation between users, outside any server.
#[derive(Debug, PartialEq)]
pub struct DMChannel {
    pub id: String,
    pub channel_type: ChannelTypes,
    pub active: Field<bool>,
    pub recipients: Vec<String>,
    pub name: Field<String>,
    pub owner: Field<String>,
    pub description: Field<String>,
    pub last_message: LastMessage,
    pub icon: Field<Attachment>,
    pub permissions: Field<i32>,
}

/// The model of a [`DMChannel`].
pub struct DMChannelView {
    pub id: Seq<char>,
    pub channel_type: ChannelTypes,
    pub active: Field<bool>,
    pub recipients: Seq<Seq<char>>,
    pub name: Field<Seq<char>>,
    pub owner: Field<Seq<char>>,
    pub description: Field<Seq<char>>,
    pub last_message: LastMessageView,
    pub icon: Field<AttachmentView>,
    pub permissions: Field<i32>,
}

impl DeepView for DMChannel {
    type V = DMChannelView;

    open spec fn deep_view(&self) -> DMChannelView {
        DMChannelView {
            id: self.id.deep_view(),
            channel_type: self.channel_type.deep_view(),
            active: self.active.deep_view(),
            recipients: self.recipients.deep_view(),
            name: self.name.deep_view(),
            owner: self.owner.deep_view(),
            description: self.description.deep_view(),
            last_message: self.last_message.deep_view(),
            icon: self.icon.deep_view(),
            permissions: self.permissions.deep_view(),
        }
    }
}

impl DMChannel {
    /// The members that the value is written with. A field that is missing adds
    /// none.
    pub open spec fn members(v: DMChannelView) -> Members {
        let m: Members = Map::empty();
        let m = with::<String>(m, "_id"@, v.id);
        let m = with::<ChannelTypes>(m, "channel_type"@, v.channel_type);
        let m = with_optional::<bool>(m, "active"@, v.active);
        let m = with::<Vec<String>>(m, "recipients"@, v.recipients);
        let m = with_optional::<String>(m, "name"@, v.name);
        let m = with_optional::<String>(m, "owner"@, v.owner);
        let m = with_optional::<String>(m, "description"@, v.description);
        let m = with::<LastMessage>(m, "last_message"@, v.last_message);
        let m = with_optional::<Attachment>(m, "icon"@, v.icon);
        let m = with_optional::<i32>(m, "permissions"@, v.permissions);
        m
    }

    /// The keys, by their lengths and the characters that tell them apart.
    proof fn lemma_keys()
        ensures
            "_id"@.len() == 3,
            "channel_type"@.len() == 12 && "channel_type"@[0] == 'c',
            "active"@.len() == 6,
            "recipients"@.len() == 10,
            "name"@.len() == 4 && "name"@[0] == 'n',
            "owner"@.len() == 5,
            "description"@.len() == 11 && "description"@[0] == 'd',
            "last_message"@.len() == 12 && "last_message"@[0] == 'l',
            "icon"@.len() == 4 && "icon"@[0] == 'i',
            "permissions"@.len() == 11 && "permissions"@[0] == 'p',
    {
        reveal_strlit("_id");
        reveal_strlit("channel_type");
        reveal_strlit("active");
        reveal_strlit("recipients");
        reveal_strlit("name");
        reveal_strlit("owner");
        reveal_strlit("description");
        reveal_strlit("last_message");
        reveal_strlit("icon");
        reveal_strlit("permissions");
    }

    /// Each field is written under its own key, a field that is missing is
    /// written as no member at all, and no other key is written.
    pub proof fn lemma_encoded_members(v: DMChannelView)
        ensures
            <DMChannel as Wire>::encode(v) is Object,
            <DMChannel as Wire>::encode(v).member("_id"@) == Some(<String as Wire>::encode(v.id)),
            <DMChannel as Wire>::encode(v).member("channel_type"@) == Some(<ChannelTypes as Wire>::encode(v.channel_type)),
            <DMChannel as Wire>::encode(v).member("active"@) == written::<bool>(v.active),
            <DMChannel as Wire>::encode(v).member("recipients"@) == Some(<Vec<String> as Wire>::encode(v.recipients)),
            <DMChannel as Wire>::encode(v).member("name"@) == written::<String>(v.name),
            <DMChannel as Wire>::encode(v).member("owner"@) == written::<String>(v.owner),
            <DMChannel as Wire>::encode(v).member("description"@) == written::<String>(v.description),
            <DMChannel as Wire>::encode(v).member("last_message"@) == Some(<LastMessage as Wire>::encode(v.last_message)),
            <DMChannel as Wire>::encode(v).member("icon"@) == written::<Attachment>(v.icon),
            <DMChannel as Wire>::encode(v).member("permissions"@) == written::<i32>(v.permissions),
            forall|k: Seq<char>|
                (#[trigger] <DMChannel as Wire>::encode(v).member(k)) is Some ==> {
                    ||| k == "_id"@
                    ||| k == "channel_type"@
                    ||| k == "active"@
                    ||| k == "recipients"@
                    ||| k == "name"@
                    ||| k == "owner"@
                    ||| k == "description"@
                    ||| k == "last_message"@
                    ||| k == "icon"@
                    ||| k == "permissions"@
                },
    {
        broadcast use {lemma_lookup_with, lemma_lookup_with_optional};

        Self::lemma_keys();
    }

    /// A document that is read and lacks the key of an optional field gives a
    /// missing field, and only such a document does. A member that is `null`
    /// gives the null field, and only such a member does.
    pub proof fn lemma_decoded_missing(j: JsonView)
        requires
            <DMChannel as Wire>::decode(j) is Some,
        ensures
            <DMChannel as Wire>::decode(j).unwrap().active is Missing <==> j.member("active"@) is None,
            <DMChannel as Wire>::decode(j).unwrap().active is Null <==> j.member("active"@) == Some(JsonView::Null),
            <DMChannel as Wire>::decode(j).unwrap().name is Missing <==> j.member("name"@) is None,
            <DMChannel as Wire>::decode(j).unwrap().name is Null <==> j.member("name"@) == Some(JsonView::Null),
            <DMChannel as Wire>::decode(j).unwrap().owner is Missing <==> j.member("owner"@) is None,
            <DMChannel as Wire>::decode(j).unwrap().owner is Null <==> j.member("owner"@) == Some(JsonView::Null),
            <DMChannel as Wire>::decode(j).unwrap().description is Missing <==> j.member("description"@) is None,
            <DMChannel as Wire>::decode(j).unwrap().description is Null <==> j.member("description"@) == Some(JsonView::Null),
            <DMChannel as Wire>::decode(j).unwrap().icon is Missing <==> j.member("icon"@) is None,
            <DMChannel as Wire>::decode(j).unwrap().icon is Null <==> j.member("icon"@) == Some(JsonView::Null),
            <DMChannel as Wire>::decode(j).unwrap().permissions is Missing <==> j.member("permissions"@) is None,
            <DMChannel as Wire>::decode(j).unwrap().permissions is Null <==> j.member("permissions"@) == Some(JsonView::Null),
    {
    }

    /// What a document leaves out, the value read from it leaves out again
    /// when it is written, and nothing else; and what is `null` in the document
    /// is written as `null` again, and nothing else.
    pub proof fn lemma_omitted_stays_omitted(j: JsonView)
        requires
            <DMChannel as Wire>::decode(j) is Some,
        ensures
            j.member("active"@) is None <==> <DMChannel as Wire>::encode(<DMChannel as Wire>::decode(j).unwrap()).member(
                "active"@,
            ) is None,
            j.member("active"@) == Some(JsonView::Null) <==> <DMChannel as Wire>::encode(
                <DMChannel as Wire>::decode(j).unwrap(),
            ).member("active"@) == Some(JsonView::Null),
            j.member("name"@) is None <==> <DMChannel as Wire>::encode(<DMChannel as Wire>::decode(j).unwrap()).member(
                "name"@,
            ) is None,
            j.member("name"@) == Some(JsonView::Null) <==> <DMChannel as Wire>::encode(
                <DMChannel as Wire>::decode(j).unwrap(),
            ).member("name"@) == Some(JsonView::Null),
            j.member("owner"@) is None <==> <DMChannel as Wire>::encode(<DMChannel as Wire>::decode(j).unwrap()).member(
                "owner"@,
            ) is None,
            j.member("owner"@) == Some(JsonView::Null) <==> <DMChannel as Wire>::encode(
                <DMChannel as Wire>::decode(j).unwrap(),
            ).member("owner"@) == Some(JsonView::Null),
            j.member("description"@) is None <==> <DMChannel as Wire>::encode(<DMChannel as Wire>::decode(j).unwrap()).member(
                "description"@,
            ) is None,
            j.member("description"@) == Some(JsonView::Null) <==> <DMChannel as Wire>::encode(
                <DMChannel as Wire>::decode(j).unwrap(),
            ).member("description"@) == Some(JsonView::Null),
            j.member("icon"@) is None <==> <DMChannel as Wire>::encode(<DMChannel as Wire>::decode(j).unwrap()).member(
                "icon"@,
            ) is None,
            j.member("icon"@) == Some(JsonView::Null) <==> <DMChannel as Wire>::encode(
                <DMChannel as Wire>::decode(j).unwrap(),
            ).member("icon"@) == Some(JsonView::Null),
            j.member("permissions"@) is None <==> <DMChannel as Wire>::encode(<DMChannel as Wire>::decode(j).unwrap()).member(
                "permissions"@,
            ) is None,
            j.member("permissions"@) == Some(JsonView::Null) <==> <DMChannel as Wire>::encode(
                <DMChannel as Wire>::decode(j).unwrap(),
            ).member("permissions"@) == Some(JsonView::Null),
    {
        Self::lemma_decoded_missing(j);
        Self::lemma_encoded_members(<DMChannel as Wire>::decode(j).unwrap());
    }
}

impl Wire for DMChannel {
    open spec fn encode(v: DMChannelView) -> JsonView {
        JsonView::Object(Self::members(v))
    }

    open spec fn decode(j: JsonView) -> Option<DMChannelView> {
        let id = required::<String>(j, "_id"@);
        let channel_type = required::<ChannelTypes>(j, "channel_type"@);
        let active = optional::<bool>(j, "active"@);
        let recipients = required::<Vec<String>>(j, "recipients"@);
        let name = optional::<String>(j, "name"@);
        let owner = optional::<String>(j, "owner"@);
        let description = optional::<String>(j, "description"@);
        let last_message = required::<LastMessage>(j, "last_message"@);
        let icon = optional::<Attachment>(j, "icon"@);
        let permissions = optional::<i32>(j, "permissions"@);
        if j is Object && id is Some && channel_type is Some && active is Some && recipients is Some && name is Some && owner is Some && description is Some && last_message is Some && icon is Some && permissions is Some {
            Some(
                DMChannelView {
                    id: id.unwrap(),
                    channel_type: channel_type.unwrap(),
                    active: active.unwrap(),
                    recipients: recipients.unwrap(),
                    name: name.unwrap(),
                    owner: owner.unwrap(),
                    description: description.unwrap(),
                    last_message: last_message.unwrap(),
                    icon: icon.unwrap(),
                    permissions: permissions.unwrap(),
                },
            )
        } else {
            None
        }
    }

    proof fn lemma_decode_encode(v: DMChannelView) {
        Self::lemma_encoded_members(v);
        let j = Self::encode(v);
        lemma_required_of_written::<String>(j, "_id"@, v.id);
        lemma_required_of_written::<ChannelTypes>(j, "channel_type"@, v.channel_type);
        lemma_optional_of_written::<bool>(j, "active"@, v.active);
        lemma_required_of_written::<Vec<String>>(j, "recipients"@, v.recipients);
        lemma_optional_of_written::<String>(j, "name"@, v.name);
        lemma_optional_of_written::<String>(j, "owner"@, v.owner);
        lemma_optional_of_written::<String>(j, "description"@, v.description);
        lemma_required_of_written::<LastMessage>(j, "last_message"@, v.last_message);
        lemma_optional_of_written::<Attachment>(j, "icon"@, v.icon);
        lemma_optional_of_written::<i32>(j, "permissions"@, v.permissions);
    }

    fn to_json(&self) -> (j: Json) {
        let mut members: Vec<(String, Json)> = Vec::new();
        put::<String>(&mut members, "_id", &self.id);
        put::<ChannelTypes>(&mut members, "channel_type", &self.channel_type);
        put_optional::<bool>(&mut members, "active", &self.active);
        put::<Vec<String>>(&mut members, "recipients", &self.recipients);
        put_optional::<String>(&mut members, "name", &self.name);
        put_optional::<String>(&mut members, "owner", &self.owner);
        put_optional::<String>(&mut members, "description", &self.description);
        put::<LastMessage>(&mut members, "last_message", &self.last_message);
        put_optional::<Attachment>(&mut members, "icon", &self.icon);
        put_optional::<i32>(&mut members, "permissions", &self.permissions);
        Json::Object(members)
    }

    fn from_json(j: &Json) -> (r: Option<DMChannel>) {
        if !j.is_object() {
            return None;
        }
        let id = read::<String>(j, "_id")?;
        let channel_type = read::<ChannelTypes>(j, "channel_type")?;
        let active = read_optional::<bool>(j, "active")?;
        let recipients = read::<Vec<String>>(j, "recipients")?;
        let name = read_optional::<String>(j, "name")?;
        let owner = read_optional::<String>(j, "owner")?;
        let description = read_optional::<String>(j, "description")?;
        let last_message = read::<LastMessage>(j, "last_message")?;
        let icon = read_optional::<Attachment>(j, "icon")?;
        let permissions = read_optional::<i32>(j, "permissions")?;
        Some(DMChannel { id, channel_type, active, recipients, name, owner, description, last_message, icon, permissions })
    }
}

/// The permissions of one role in a channel.
#[derive(Debug, PartialEq)]
pub struct RolePermissions {
    pub role_permissions: String,
}

/// The model of a [`RolePermissions`].
pub struct RolePermissionsView {
    pub role_permissions: Seq<char>,
}

impl DeepView for RolePermissions {
    type V = RolePermissionsView;

    open spec fn deep_view(&self) -> RolePermissionsView {
        RolePermissionsView {
            role_permissions: self.role_permissions.deep_view(),
        }
    }
}

impl RolePermissions {
    /// The members that the value is written with. A field that is missing adds
    /// none.
    pub open spec fn members(v: RolePermissionsView) -> Members {
        let m: Members = Map::empty();
        let m = with::<String>(m, "role_permissions"@, v.role_permissions);
        m
    }

    /// The keys, by their lengths and the characters that tell them apart.
    proof fn lemma_keys()
        ensures
            "role_permissions"@.len() == 16,
    {
        reveal_strlit("role_permissions");
    }

    /// Each field is written under its own key, a field that is missing is
    /// written as no member at all, and no other key is written.
    pub proof fn lemma_encoded_members(v: RolePermissionsView)
        ensures
            <RolePermissions as Wire>::encode(v) is Object,
            <RolePermissions as Wire>::encode(v).member("role_permissions"@) == Some(<String as Wire>::encode(v.role_permissions)),
            forall|k: Seq<char>|
                (#[trigger] <RolePermissions as Wire>::encode(v).member(k)) is Some ==> {
                    ||| k == "role_permissions"@
                },
    {
        broadcast use lemma_lookup_with;

        Self::lemma_keys();
    }
}

impl Wire for RolePermissions {
    open spec fn encode(v: RolePermissionsView) -> JsonView {
        JsonView::Object(Self::members(v))
    }

    open spec fn decode(j: JsonView) -> Option<RolePermissionsView> {
        let role_permissions = required::<String>(j, "role_permissions"@);
        if j is Object && role_permissions is Some {
            Some(
                RolePermissionsView {
                    role_permissions: role_permissions.unwrap(),
                },
            )
        } else {
            None
        }
    }

    proof fn lemma_decode_encode(v: RolePermissionsView) {
        Self::lemma_encoded_members(v);
        let j = Self::encode(v);
        lemma_required_of_written::<String>(j, "role_permissions"@, v.role_permissions);
    }

    fn to_json(&self) -> (j: Json) {
        let mut members: Vec<(String, Json)> = Vec::new();
        put::<String>(&mut members, "role_permissions", &self.role_permissions);
        Json::Object(members)
    }

    fn from_json(j: &Json) -> (r: Option<RolePermissions>) {
        if !j.is_object() {
            return None;
        }
        let role_permissions = read::<String>(j, "role_permissions")?;
        Some(RolePermissions { role_permissions })
    }
}

/// The kinds of channel.
#[derive(Clone, Copy, Debug, PartialEq, Eq)]
pub enum ChannelTypes {
    SavedMessages,
    DirectMessage,
    Group,
    TextChannel,
    VoiceChannel,
}

impl DeepView for ChannelTypes {
    type V = ChannelTypes;

    open spec fn deep_view(&self) -> ChannelTypes {
        *self
    }
}

impl ChannelTypes {
    /// The name that stands for the value on the wire.
    pub open spec fn name(self) -> Seq<char> {
        match self {
            ChannelTypes::SavedMessages => "SavedMessages"@,
            ChannelTypes::DirectMessage => "DirectMessage"@,
            ChannelTypes::Group => "Group"@,
            ChannelTypes::TextChannel => "TextChannel"@,
            ChannelTypes::VoiceChannel => "VoiceChannel"@,
        }
    }

    /// The value that a name stands for; `None` for any other text.
    pub open spec fn named(s: Seq<char>) -> Option<ChannelTypes> {
        if s == "SavedMessages"@ {
            Some(ChannelTypes::SavedMessages)
        } else if s == "DirectMessage"@ {
            Some(ChannelTypes::DirectMessage)
        } else if s == "Group"@ {
            Some(ChannelTypes::Group)
        } else if s == "TextChannel"@ {
            Some(ChannelTypes::TextChannel)
        } else if s == "VoiceChannel"@ {
            Some(ChannelTypes::VoiceChannel)
        } else {
            None
        }
    }

    /// The names, by their lengths and the characters that tell them apart.
    proof fn lemma_names()
        ensures
            "SavedMessages"@.len() == 13 && "SavedMessages"@[0] == 'S',
            "DirectMessage"@.len() == 13 && "DirectMessage"@[0] == 'D',
            "Group"@.len() == 5,
            "TextChannel"@.len() == 11,
            "VoiceChannel"@.len() == 12,
    {
        reveal_strlit("SavedMessages");
        reveal_strlit("DirectMessage");
        reveal_strlit("Group");
        reveal_strlit("TextChannel");
        reveal_strlit("VoiceChannel");
    }

    /// A text that is the name of no value is not read: the set of values is
    /// closed.
    pub proof fn lemma_unknown_name(s: Seq<char>)
        requires
            forall|v: ChannelTypes| v.name() != s,
        ensures
            <ChannelTypes as Wire>::decode(JsonView::Text(s)) is None,
    {
        assert(ChannelTypes::SavedMessages.name() != s);
        assert(ChannelTypes::DirectMessage.name() != s);
        assert(ChannelTypes::Group.name() != s);
        assert(ChannelTypes::TextChannel.name() != s);
        assert(ChannelTypes::VoiceChannel.name() != s);
    }
}

impl Wire for ChannelTypes {
    open spec fn encode(v: ChannelTypes) -> JsonView {
        JsonView::Text(v.name())
    }

    open spec fn decode(j: JsonView) -> Option<ChannelTypes> {
        match j {
            JsonView::Text(s) => Self::named(s),
            _ => None,
        }
    }

    proof fn lemma_decode_encode(v: ChannelTypes) {
        Self::lemma_names();
    }

    fn to_json(&self) -> (j: Json) {
        match self {
            ChannelTypes::SavedMessages => Json::Text("SavedMessages".to_owned()),
            ChannelTypes::DirectMessage => Json::Text("DirectMessage".to_owned()),
            ChannelTypes::Group => Json::Text("Group".to_owned()),
            ChannelTypes::TextChannel => Json::Text("TextChannel".to_owned()),
            ChannelTypes::VoiceChannel => Json::Text("VoiceChannel".to_owned()),
        }
    }

    fn from_json(j: &Json) -> (r: Option<ChannelTypes>) {
        match j {
            Json::Text(s) => {
                if same_text(s.as_str(), "SavedMessages") {
                    Some(ChannelTypes::SavedMessages)
                } else if same_text(s.as_str(), "DirectMessage") {
                    Some(ChannelTypes::DirectMessage)
                } else if same_text(s.as_str(), "Group") {
                    Some(ChannelTypes::Group)
                } else if same_text(s.as_str(), "TextChannel") {
                    Some(ChannelTypes::TextChannel)
                } else if same_text(s.as_str(), "VoiceChannel") {
                    Some(ChannelTypes::VoiceChannel)
                } else {
                    None
                }
            },
            _ => None,
        }
    }
}

/// A channel of any kind. Which fields are there depends on the kind: a
/// server, for one, only for the channels of a server.
#[derive(Debug, PartialEq)]
pub struct Channel {
    pub id: String,
    pub server: Field<String>,
    pub channel_type: ChannelTypes,
    pub active: Field<bool>,
    pub recipients: Field<Vec<String>>,
    pub name: Field<String>,
    pub owner: Field<String>,
    pub description: Field<String>,
    pub last_message: Field<LastMessageType>,
    pub user: Field<String>,
    pub icon: Field<Attachment>,
    pub default_permissions: Field<i32>,
    /// The permissions of each role, under the id of the role.
    pub role_permissions: Field<Table<i32>>,
    pub permissions: Field<i32>,
    pub nonce: Field<String>,
}

/// The model of a [`Channel`].
pub struct ChannelView {
    pub id: Seq<char>,
    pub server: Field<Seq<char>>,
    pub channel_type: ChannelTypes,
    pub active: Field<bool>,
    pub recipients: Field<Seq<Seq<char>>>,
    pub name: Field<Seq<char>>,
    pub owner: Field<Seq<char>>,
    pub description: Field<Seq<char>>,
    pub last_message: Field<LastMessageTypeView>,
    pub user: Field<Seq<char>>,
    pub icon: Field<AttachmentView>,
    pub default_permissions: Field<i32>,
    pub role_permissions: Field<Map<Seq<char>, i32>>,
    pub permissions: Field<i32>,
    pub nonce: Field<Seq<char>>,
}

impl DeepView for Channel {
    type V = ChannelView;

    open spec fn deep_view(&self) -> ChannelView {
        ChannelView {
            id: self.id.deep_view(),
            server: self.server.deep_view(),
            channel_type: self.channel_type.deep_view(),
            active: self.active.deep_view(),
            recipients: self.recipients.deep_view(),
            name: self.name.deep_view(),
            owner: self.owner.deep_view(),
            description: self.description.deep_view(),
            last_message: self.last_message.deep_view(),
            user: self.user.deep_view(),
            icon: self.icon.deep_view(),
            default_permissions: self.default_permissions.deep_view(),
            role_permissions: self.role_permissions.deep_view(),
            permissions: self.permissions.deep_view(),
            nonce: self.nonce.deep_view(),
        }
    }
}

impl Channel {
    /// The members that the value is written with. A field that is missing adds
    /// none.
    pub open spec fn members(v: ChannelView) -> Members {
        let m: Members = Map::empty();
        let m = with::<String>(m, "_id"@, v.id);
        let m = with_optional::<String>(m, "server"@, v.server);
        let m = with::<ChannelTypes>(m, "channel_type"@, v.channel_type);
        let m = with_optional::<bool>(m, "active"@, v.active);
        let m = with_optional::<Vec<String>>(m, "recipients"@, v.recipients);
        let m = with_optional::<String>(m, "name"@, v.name);
        let m = with_optional::<String>(m, "owner"@, v.owner);
        let m = with_optional::<String>(m, "description"@, v.description);
        let m = with_optional::<LastMessageType>(m, "last_message"@, v.last_message);
        let m = with_optional::<String>(m, "user"@, v.user);
        let m = with_optional::<Attachment>(m, "icon"@, v.icon);
        let m = with_optional::<i32>(m, "default_permissions"@, v.default_permissions);
        let m = with_optional::<Table<i32>>(m, "role_permissions"@, v.role_permissions);
        let m = with_optional::<i32>(m, "permissions"@, v.permissions);
        let m = with_optional::<String>(m, "nonce"@, v.nonce);
        m
    }

    /// The keys, by their lengths and the characters that tell them apart.
    proof fn lemma_keys()
        ensures
            "_id"@.len() == 3,
            "server"@.len() == 6 && "server"@[0] == 's',
            "channel_type"@.len() == 12 && "channel_type"@[0] == 'c',
            "active"@.len() == 6 && "active"@[0] == 'a',
            "recipients"@.len() == 10,
            "name"@.len() == 4 && "name"@[0] == 'n',
            "owner"@.len() == 5 && "owner"@[0] == 'o',
            "description"@.len() == 11 && "description"@[0] == 'd',
            "last_message"@.len() == 12 && "last_message"@[0] == 'l',
            "user"@.len() == 4 && "user"@[0] == 'u',
            "icon"@.len() == 4 && "icon"@[0] == 'i',
            "default_permissions"@.len() == 19,
            "role_permissions"@.len() == 16,
            "permissions"@.len() == 11 && "permissions"@[0] == 'p',
            "nonce"@.len() == 5 && "nonce"@[0] == 'n',
    {
        reveal_strlit("_id");
        reveal_strlit("server");
        reveal_strlit("channel_type");
        reveal_strlit("active");
        reveal_strlit("recipients");
        reveal_strlit("name");
        reveal_strlit("owner");
        reveal_strlit("description");
        reveal_strlit("last_message");
        reveal_strlit("user");
        reveal_strlit("icon");
        reveal_strlit("default_permissions");
        reveal_strlit("role_permissions");
        reveal_strlit("permissions");
        reveal_strlit("nonce");
    }

    /// Each field is written under its own key, a field that is missing is
    /// written as no member at all, and no other key is written.
    pub proof fn lemma_encoded_members(v: ChannelView)
        ensures
            <Channel as Wire>::encode(v) is Object,
            <Channel as Wire>::encode(v).member("_id"@) == Some(<String as Wire>::encode(v.id)),
            <Channel as Wire>::encode(v).member("server"@) == written::<String>(v.server),
            <Channel as Wire>::encode(v).member("channel_type"@) == Some(<ChannelTypes as Wire>::encode(v.channel_type)),
            <Channel as Wire>::encode(v).member("active"@) == written::<bool>(v.active),
            <Channel as Wire>::encode(v).member("recipients"@) == written::<Vec<String>>(v.recipients),
            <Channel as Wire>::encode(v).member("name"@) == written::<String>(v.name),
            <Channel as Wire>::encode(v).member("owner"@) == written::<String>(v.owner),
            <Channel as Wire>::encode(v).member("description"@) == written::<String>(v.description),
            <Channel as Wire>::encode(v).member("last_message"@) == written::<LastMessageType>(v.last_message),
            <Channel as Wire>::encode(v).member("user"@) == written::<String>(v.user),
            <Channel as Wire>::encode(v).member("icon"@) == written::<Attachment>(v.icon),
            <Channel as Wire>::encode(v).member("default_permissions"@) == written::<i32>(v.default_permissions),
            <Channel as Wire>::encode(v).member("role_permissions"@) == written::<Table<i32>>(v.role_permissions),
            <Channel as Wire>::encode(v).member("permissions"@) == written::<i32>(v.permissions),
            <Channel as Wire>::encode(v).member("nonce"@) == written::<String>(v.nonce),
            forall|k: Seq<char>|
                (#[trigger] <Channel as Wire>::encode(v).member(k)) is Some ==> {
                    ||| k == "_id"@
                    ||| k == "server"@
                    ||| k == "channel_type"@
                    ||| k == "active"@
                    ||| k == "recipients"@
                    ||| k == "name"@
                    ||| k == "owner"@
                    ||| k == "description"@
                    ||| k == "last_message"@
                    ||| k == "user"@
                    ||| k == "icon"@
                    ||| k == "default_permissions"@
                    ||| k == "role_permissions"@
                    ||| k == "permissions"@
                    ||| k == "nonce"@
                },
    {
        broadcast use {lemma_lookup_with, lemma_lookup_with_optional};

        Self::lemma_keys();
    }

    /// A document that is read and lacks the key of an optional field gives a
    /// missing field, and only such a document does. A member that is `null`
    /// gives the null field, and only such a member does.
    pub proof fn lemma_decoded_missing(j: JsonView)
        requires
            <Channel as Wire>::decode(j) is Some,
        ensures
            <Channel as Wire>::decode(j).unwrap().server is Missing <==> j.member("server"@) is None,
            <Channel as Wire>::decode(j).unwrap().server is Null <==> j.member("server"@) == Some(JsonView::Null),
            <Channel as Wire>::decode(j).unwrap().active is Missing <==> j.member("active"@) is None,
            <Channel as Wire>::decode(j).unwrap().active is Null <==> j.member("active"@) == Some(JsonView::Null),
            <Channel as Wire>::decode(j).unwrap().recipients is Missing <==> j.member("recipients"@) is None,
            <Channel as Wire>::decode(j).unwrap().recipients is Null <==> j.member("recipients"@) == Some(JsonView::Null),
            <Channel as Wire>::decode(j).unwrap().name is Missing <==> j.member("name"@) is None,
            <Channel as Wire>::decode(j).unwrap().name is Null <==> j.member("name"@) == Some(JsonView::Null),
            <Channel as Wire>::decode(j).unwrap().owner is Missing <==> j.member("owner"@) is None,
            <Channel as Wire>::decode(j).unwrap().owner is Null <==> j.member("owner"@) == Some(JsonView::Null),
            <Channel as Wire>::decode(j).unwrap().description is Missing <==> j.member("description"@) is None,
            <Channel as Wire>::decode(j).unwrap().description is Null <==> j.member("description"@) == Some(JsonView::Null),
            <Channel as Wire>::decode(j).unwrap().last_message is Missing <==> j.member("last_message"@) is None,
            <Channel as Wire>::decode(j).unwrap().last_message is Null <==> j.member("last_message"@) == Some(JsonView::Null),
            <Channel as Wire>::decode(j).unwrap().user is Missing <==> j.member("user"@) is None,
            <Channel as Wire>::decode(j).unwrap().user is Null <==> j.member("user"@) == Some(JsonView::Null),
            <Channel as Wire>::decode(j).unwrap().icon is Missing <==> j.member("icon"@) is None,
            <Channel as Wire>::decode(j).unwrap().icon is Null <==> j.member("icon"@) == Some(JsonView::Null),
            <Channel as Wire>::decode(j).unwrap().default_permissions is Missing <==> j.member("default_permissions"@) is None,
            <Channel as Wire>::decode(j).unwrap().default_permissions is Null <==> j.member("default_permissions"@) == Some(JsonView::Null),
            <Channel as Wire>::decode(j).unwrap().role_permissions is Missing <==> j.member("role_permissions"@) is None,
            <Channel as Wire>::decode(j).unwrap().role_permissions is Null <==> j.member("role_permissions"@) == Some(JsonView::Null),
            <Channel as Wire>::decode(j).unwrap().permissions is Missing <==> j.member("permissions"@) is None,
            <Channel as Wire>::decode(j).unwrap().permissions is Null <==> j.member("permissions"@) == Some(JsonView::Null),
            <Channel as Wire>::decode(j).unwrap().nonce is Missing <==> j.member("nonce"@) is None,
            <Channel as Wire>::decode(j).unwrap().nonce is Null <==> j.member("nonce"@) == Some(JsonView::Null),
    {
    }

    /// What a document leaves out, the value read from it leaves out again
    /// when it is written, and nothing else; and what is `null` in the document
    /// is written as `null` again, and nothing else.
    pub proof fn lemma_omitted_stays_omitted(j: JsonView)
        requires
            <Channel as Wire>::decode(j) is Some,
        ensures
            j.member("server"@) is None <==> <Channel as Wire>::encode(<Channel as Wire>::decode(j).unwrap()).member(
                "server"@,
            ) is None,
            j.member("server"@) == Some(JsonView::Null) <==> <Channel as Wire>::encode(
                <Channel as Wire>::decode(j).unwrap(),
            ).member("server"@) == Some(JsonView::Null),
            j.member("active"@) is None <==> <Channel as Wire>::encode(<Channel as Wire>::decode(j).unwrap()).member(
                "active"@,
            ) is None,
            j.member("active"@) == Some(JsonView::Null) <==> <Channel as Wire>::encode(
                <Channel as Wire>::decode(j).unwrap(),
            ).member("active"@) == Some(JsonView::Null),
            j.member("recipients"@) is None <==> <Channel as Wire>::encode(<Channel as Wire>::decode(j).unwrap()).member(
                "recipients"@,
            ) is None,
            j.member("recipients"@) == Some(JsonView::Null) <==> <Channel as Wire>::encode(
                <Channel as Wire>::decode(j).unwrap(),
            ).member("recipients"@) == Some(JsonView::Null),
            j.member("name"@) is None <==> <Channel as Wire>::encode(<Channel as Wire>::decode(j).unwrap()).member(
                "name"@,
            ) is None,
            j.member("name"@) == Some(JsonView::Null) <==> <Channel as Wire>::encode(
                <Channel as Wire>::decode(j).unwrap(),
            ).member("name"@) == Some(JsonView::Null),
            j.member("owner"@) is None <==> <Channel as Wire>::encode(<Channel as Wire>::decode(j).unwrap()).member(
                "owner"@,
            ) is None,
            j.member("owner"@) == Some(JsonView::Null) <==> <Channel as Wire>::encode(
                <Channel as Wire>::decode(j).unwrap(),
            ).member("owner"@) == Some(JsonView::Null),
            j.member("description"@) is None <==> <Channel as Wire>::encode(<Channel as Wire>::decode(j).unwrap()).member(
                "description"@,
            ) is None,
            j.member("description"@) == Some(JsonView::Null) <==> <Channel as Wire>::encode(
                <Channel as Wire>::decode(j).unwrap(),
            ).member("description"@) == Some(JsonView::Null),
            j.member("last_message"@) is None <==> <Channel as Wire>::encode(<Channel as Wire>::decode(j).unwrap()).member(
                "last_message"@,
            ) is None,
            j.member("last_message"@) == Some(JsonView::Null) <==> <Channel as Wire>::encode(
                <Channel as Wire>::decode(j).unwrap(),
            ).member("last_message"@) == Some(JsonView::Null),
            j.member("user"@) is None <==> <Channel as Wire>::encode(<Channel as Wire>::decode(j).unwrap()).member(
                "user"@,
            ) is None,
            j.member("user"@) == Some(JsonView::Null) <==> <Channel as Wire>::encode(
                <Channel as Wire>::decode(j).unwrap(),
            ).member("user"@) == Some(JsonView::Null),
            j.member("icon"@) is None <==> <Channel as Wire>::encode(<Channel as Wire>::decode(j).unwrap()).member(
                "icon"@,
            ) is None,
            j.member("icon"@) == Some(JsonView::Null) <==> <Channel as Wire>::encode(
                <Channel as Wire>::decode(j).unwrap(),
            ).member("icon"@) == Some(JsonView::Null),
            j.member("default_permissions"@) is None <==> <Channel as Wire>::encode(<Channel as Wire>::decode(j).unwrap()).member(
                "default_permissions"@,
            ) is None,
            j.member("default_permissions"@) == Some(JsonView::Null) <==> <Channel as Wire>::encode(
                <Channel as Wire>::decode(j).unwrap(),
            ).member("default_permissions"@) == Some(JsonView::Null),
            j.member("role_permissions"@) is None <==> <Channel as Wire>::encode(<Channel as Wire>::decode(j).unwrap()).member(
                "role_permissions"@,
            ) is None,
            j.member("role_permissions"@) == Some(JsonView::Null) <==> <Channel as Wire>::encode(
                <Channel as Wire>::decode(j).unwrap(),
            ).member("role_permissions"@) == Some(JsonView::Null),
            j.member("permissions"@) is None <==> <Channel as Wire>::encode(<Channel as Wire>::decode(j).unwrap()).member(
                "permissions"@,
            ) is None,
            j.member("permissions"@) == Some(JsonView::Null) <==> <Channel as Wire>::encode(
                <Channel as Wire>::decode(j).unwrap(),
            ).member("permissions"@) == Some(JsonView::Null),
            j.member("nonce"@) is None <==> <Channel as Wire>::encode(<Channel as Wire>::decode(j).unwrap()).member(
                "nonce"@,
            ) is None,
            j.member("nonce"@) == Some(JsonView::Null) <==> <Channel as Wire>::encode(
                <Channel as Wire>::decode(j).unwrap(),
            ).member("nonce"@) == Some(JsonView::Null),
    {
        Self::lemma_decoded_missing(j);
        Self::lemma_encoded_members(<Channel as Wire>::decode(j).unwrap());
    }
}

impl Wire for Channel {
    open spec fn encode(v: ChannelView) -> JsonView {
        JsonView::Object(Self::members(v))
    }

    open spec fn decode(j: JsonView) -> Option<ChannelView> {
        let id = required::<String>(j, "_id"@);
        let server = optional::<String>(j, "server"@);
        let channel_type = required::<ChannelTypes>(j, "channel_type"@);
        let active = optional::<bool>(j, "active"@);
        let recipients = optional::<Vec<String>>(j, "recipients"@);
        let name = optional::<String>(j, "name"@);
        let owner = optional::<String>(j, "owner"@);
        let description = optional::<String>(j, "description"@);
        let last_message = optional::<LastMessageType>(j, "last_message"@);
        let user = optional::<String>(j, "user"@);
        let icon = optional::<Attachment>(j, "icon"@);
        let default_permissions = optional::<i32>(j, "default_permissions"@);
        let role_permissions = optional::<Table<i32>>(j, "role_permissions"@);
        let permissions = optional::<i32>(j, "permissions"@);
        let nonce = optional::<String>(j, "nonce"@);
        if j is Object && id is Some && server is Some && channel_type is Some && active is Some && recipients is Some && name is Some && owner is Some && description is Some && last_message is Some && user is Some && icon is Some && default_permissions is Some && role_permissions is Some && permissions is Some && nonce is Some {
            Some(
                ChannelView {
                    id: id.unwrap(),
                    server: server.unwrap(),
                    channel_type: channel_type.unwrap(),
                    active: active.unwrap(),
                    recipients: recipients.unwrap(),
                    name: name.unwrap(),
                    owner: owner.unwrap(),
                    description: description.unwrap(),
                    last_message: last_message.unwrap(),
                    user: user.unwrap(),
                    icon: icon.unwrap(),
                    default_permissions: default_permissions.unwrap(),
                    role_permissions: role_permissions.unwrap(),
                    permissions: permissions.unwrap(),
                    nonce: nonce.unwrap(),
                },
            )
        } else {
            None
        }
    }

    proof fn lemma_decode_encode(v: ChannelView) {
        Self::lemma_encoded_members(v);
        let j = Self::encode(v);
        lemma_required_of_written::<String>(j, "_id"@, v.id);
        lemma_optional_of_written::<String>(j, "server"@, v.server);
        lemma_required_of_written::<ChannelTypes>(j, "channel_type"@, v.channel_type);
        lemma_optional_of_written::<bool>(j, "active"@, v.active);
        lemma_optional_of_written::<Vec<String>>(j, "recipients"@, v.recipients);
        lemma_optional_of_written::<String>(j, "name"@, v.name);
        lemma_optional_of_written::<String>(j, "owner"@, v.owner);
        lemma_optional_of_written::<String>(j, "description"@, v.description);
        lemma_optional_of_written::<LastMessageType>(j, "last_message"@, v.last_message);
        lemma_optional_of_written::<String>(j, "user"@, v.user);
        lemma_optional_of_written::<Attachment>(j, "icon"@, v.icon);
        lemma_optional_of_written::<i32>(j, "default_permissions"@, v.default_permissions);
        lemma_optional_of_written::<Table<i32>>(j, "role_permissions"@, v.role_permissions);
        lemma_optional_of_written::<i32>(j, "permissions"@, v.permissions);
        lemma_optional_of_written::<String>(j, "nonce"@, v.nonce);
    }

    fn to_json(&self) -> (j: Json) {
        let mut members: Vec<(String, Json)> = Vec::new();
        put::<String>(&mut members, "_id", &self.id);
        put_optional::<String>(&mut members, "server", &self.server);
        put::<ChannelTypes>(&mut members, "channel_type", &self.channel_type);
        put_optional::<bool>(&mut members, "active", &self.active);
        put_optional::<Vec<String>>(&mut members, "recipients", &self.recipients);
        put_optional::<String>(&mut members, "name", &self.name);
        put_optional::<String>(&mut members, "owner", &self.owner);
        put_optional::<String>(&mut members, "description", &self.description);
        put_optional::<LastMessageType>(&mut members, "last_message", &self.last_message);
        put_optional::<String>(&mut members, "user", &self.user);
        put_optional::<Attachment>(&mut members, "icon", &self.icon);
        put_optional::<i32>(&mut members, "default_permissions", &self.default_permissions);
        put_optional::<Table<i32>>(&mut members, "role_permissions", &self.role_permissions);
        put_optional::<i32>(&mut members, "permissions", &self.permissions);
        put_optional::<String>(&mut members, "nonce", &self.nonce);
        Json::Object(members)
    }

    fn from_json(j: &Json) -> (r: Option<Channel>) {
        if !j.is_object() {
            return None;
        }
        let id = read::<String>(j, "_id")?;
        let server = read_optional::<String>(j, "server")?;
        let channel_type = read::<ChannelTypes>(j, "channel_type")?;
        let active = read_optional::<bool>(j, "active")?;
        let recipients = read_optional::<Vec<String>>(j, "recipients")?;
        let name = read_optional::<String>(j, "name")?;
        let owner = read_optional::<String>(j, "owner")?;
        let description = read_optional::<String>(j, "description")?;
        let last_message = read_optional::<LastMessageType>(j, "last_message")?;
        let user = read_optional::<String>(j, "user")?;
        let icon = read_optional::<Attachment>(j, "icon")?;
        let default_permissions = read_optional::<i32>(j, "default_permissions")?;
        let role_permissions = read_optional::<Table<i32>>(j, "role_permissions")?;
        let permissions = read_optional::<i32>(j, "permissions")?;
        let nonce = read_optional::<String>(j, "nonce")?;
        Some(Channel { id, server, channel_type, active, recipients, name, owner, description, last_message, user, icon, default_permissions, role_permissions, permissions, nonce })
    }
}

impl Channel {
    /// A channel whose kind is a text outside the closed set is not read,
    /// whatever else its document holds: the text that holds it gives the
    /// error of schema, and no value.
    pub proof fn lemma_unknown_kind_is_refused(text: Seq<char>, j: JsonView, kind: Seq<char>)
        requires
            parsed(text) == Some(j),
            j.member("channel_type"@) == Some(JsonView::Text(kind)),
            forall|v: ChannelTypes| v.name() != kind,
        ensures
            <Channel as Wire>::decode(j) is None,
            decoded::<Channel>(text) == Err::<ChannelView, RevoltRsError>(
                RevoltRsError::Serde { source: CodecError::Schema },
            ),
    {
        ChannelTypes::lemma_unknown_name(kind);
    }
}

} // verus!
