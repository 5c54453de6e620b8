//! The payloads of the requests.

use crate::data::message::{Reply, ReplyView, SearchSort};
use crate::data::user::{Profile, ProfileView, Status, StatusView};
use crate::text::same_text;
use crate::json::{Json, JsonView};
use crate::wire::{
    lemma_lookup_with, lemma_lookup_with_optional, lemma_optional_of_written,
    lemma_required_of_written, optional, put, put_optional, read, read_optional, required, with,
    with_optional, written, Field, Members, Wire,
};
use vstd::prelude::*;

verus! {

/// A field of the own user that an edit can clear.
#[derive(Clone, Copy, Debug, PartialEq, Eq)]
pub enum RemoveField {
    Avatar,
    ProfileBackground,
    ProfileContent,
    StatusText,
}

impl DeepView for RemoveField {
    type V = RemoveField;

    open spec fn deep_view(&self) -> RemoveField {
        *self
    }
}

impl RemoveField {
    /// The name that stands for the value on the wire.
    pub open spec fn name(self) -> Seq<char> {
        match self {
            RemoveField::Avatar => "avatar"@,
            RemoveField::ProfileBackground => "profile_background"@,
            RemoveField::ProfileContent => "profile_content"@,
            RemoveField::StatusText => "status_text"@,
        }
    }

    /// The value that a name stands for; `None` for any other text.
    pub open spec fn named(s: Seq<char>) -> Option<RemoveField> {
        if s == "avatar"@ {
            Some(RemoveField::Avatar)
        } else if s == "profile_background"@ {
            Some(RemoveField::ProfileBackground)
        } else if s == "profile_content"@ {
            Some(RemoveField::ProfileContent)
        } else if s == "status_text"@ {
            Some(RemoveField::StatusText)
        } else {
            None
        }
    }

    /// The names, by their lengths and the characters that tell them apart.
    proof fn lemma_names()
        ensures
            "avatar"@.len() == 6,
            "profile_background"@.len() == 18,
            "profile_content"@.len() == 15,
            "status_text"@.len() == 11,
    {
        reveal_strlit("avatar");
        reveal_strlit("profile_background");
        reveal_strlit("profile_content");
        reveal_strlit("status_text");
    }

    /// A text that is the name of no value is not read: the set of values is
    /// closed.
    pub proof fn lemma_unknown_name(s: Seq<char>)
        requires
            forall|v: RemoveField| v.name() != s,
        ensures
            <RemoveField as Wire>::decode(JsonView::Text(s)) is None,
    {
        assert(RemoveField::Avatar.name() != s);
        assert(RemoveField::ProfileBackground.name() != s);
        assert(RemoveField::ProfileContent.name() != s);
        assert(RemoveField::StatusText.name() != s);
    }
}

impl Wire for RemoveField {
    open spec fn encode(v: RemoveField) -> JsonView {
        JsonView::Text(v.name())
    }

    open spec fn decode(j: JsonView) -> Option<RemoveField> {
        match j {
            JsonView::Text(s) => Self::named(s),
            _ => None,
        }
    }

    proof fn lemma_decode_encode(v: RemoveField) {
        Self::lemma_names();
    }

    fn to_json(&self) -> (j: Json) {
        match self {
            RemoveField::Avatar => Json::Text("avatar".to_owned()),
            RemoveField::ProfileBackground => Json::Text("profile_background".to_owned()),
            RemoveField::ProfileContent => Json::Text("profile_content".to_owned()),
            RemoveField::StatusText => Json::Text("status_text".to_owned()),
        }
    }

    fn from_json(j: &Json) -> (r: Option<RemoveField>) {
        match j {
            Json::Text(s) => {
                if same_text(s.as_str(), "avatar") {
                    Some(RemoveField::Avatar)
                } else if same_text(s.as_str(), "profile_background") {
                    Some(RemoveField::ProfileBackground)
                } else if same_text(s.as_str(), "profile_content") {
                    Some(RemoveField::ProfileContent)
                } else if same_text(s.as_str(), "status_text") {
                    Some(RemoveField::StatusText)
                } else {
                    None
                }
            },
            _ => None,
        }
    }
}

/// The payload of an edit of the own user. A field that is missing is left
/// as it is.
#[derive(Debug, PartialEq)]
pub struct EditUser {
    pub status: Field<Status>,
    pub profile: Field<Profile>,
    /// The id of the uploaded file.
    pub avatar: Field<String>,
    /// The field to clear.
    pub remove: Field<RemoveField>,
}

/// The model of a [`EditUser`].
pub struct EditUserView {
    pub status: Field<StatusView>,
    pub profile: Field<ProfileView>,
    pub avatar: Field<Seq<char>>,
    pub remove: Field<RemoveField>,
}

impl DeepView for EditUser {
    type V = EditUserView;

    open spec fn deep_view(&self) -> EditUserView {
        EditUserView {
            status: self.status.deep_view(),
            profile: self.profile.deep_view(),
            avatar: self.avatar.deep_view(),
            remove: self.remove.deep_view(),
        }
    }
}

impl EditUser {
    /// The members that the value is written with. A field that is missing adds
    /// none.
    pub open spec fn members(v: EditUserView) -> Members {
        let m: Members = Map::empty();
        let m = with_optional::<Status>(m, "status"@, v.status);
        let m = with_optional::<Profile>(m, "profile"@, v.profile);
        let m = with_optional::<String>(m, "avatar"@, v.avatar);
        let m = with_optional::<RemoveField>(m, "remove"@, v.remove);
        m
    }

    /// The keys, by their lengths and the characters that tell them apart.
    proof fn lemma_keys()
        ensures
            "status"@.len() == 6 && "status"@[0] == 's',
            "profile"@.len() == 7,
            "avatar"@.len() == 6 && "avatar"@[0] == 'a',
            "remove"@.len() == 6 && "remove"@[0] == 'r',
    {
        reveal_strlit("status");
        reveal_strlit("profile");
        reveal_strlit("avatar");
        reveal_strlit("remove");
    }

    /// Each field is written under its own key, a field that is missing is
    /// written as no member at all, and no other key is written.
    pub proof fn lemma_encoded_members(v: EditUserView)
        ensures
            <EditUser as Wire>::encode(v) is Object,
            <EditUser as Wire>::encode(v).member("status"@) == written::<Status>(v.status),
            <EditUser as Wire>::encode(v).member("profile"@) == written::<Profile>(v.profile),
            <EditUser as Wire>::encode(v).member("avatar"@) == written::<String>(v.avatar),
            <EditUser as Wire>::encode(v).member("remove"@) == written::<RemoveField>(v.remove),
            forall|k: Seq<char>|
                (#[trigger] <EditUser as Wire>::encode(v).member(k)) is Some ==> {
                    ||| k == "status"@
                    ||| k == "profile"@
                    ||| k == "avatar"@
                    ||| k == "remove"@
                },
    {
        broadcast use lemma_lookup_with_optional;

        Self::lemma_keys();
    }

    /// A document that is read and lacks the key of an optional field gives a
    /// missing field, and only such a document does. A member that is `null`
    /// gives the null field, and only such a member does.
    pub proof fn lemma_decoded_missing(j: JsonView)
        requires
            <EditUser as Wire>::decode(j) is Some,
        ensures
            <EditUser as Wire>::decode(j).unwrap().status is Missing <==> j.member("status"@) is None,
            <EditUser as Wire>::decode(j).unwrap().status is Null <==> j.member("status"@) == Some(JsonView::Null),
            <EditUser as Wire>::decode(j).unwrap().profile is Missing <==> j.member("profile"@) is None,
            <EditUser as Wire>::decode(j).unwrap().profile is Null <==> j.member("profile"@) == Some(JsonView::Null),
            <EditUser as Wire>::decode(j).unwrap().avatar is Missing <==> j.member("avatar"@) is None,
            <EditUser as Wire>::decode(j).unwrap().avatar is Null <==> j.member("avatar"@) == Some(JsonView::Null),
            <EditUser as Wire>::decode(j).unwrap().remove is Missing <==> j.member("remove"@) is None,
            <EditUser as Wire>::decode(j).unwrap().remove is Null <==> j.member("remove"@) == Some(JsonView::Null),
    {
    }

    /// What a document leaves out, the value read from it leaves out again
    /// when it is written, and nothing else; and what is `null` in the document
    /// is written as `null` again, and nothing else.
    pub proof fn lemma_omitted_stays_omitted(j: JsonView)
        requires
            <EditUser as Wire>::decode(j) is Some,
        ensures
            j.member("status"@) is None <==> <EditUser as Wire>::encode(<EditUser as Wire>::decode(j).unwrap()).member(
                "status"@,
            ) is None,
            j.member("status"@) == Some(JsonView::Null) <==> <EditUser as Wire>::encode(
                <EditUser as Wire>::decode(j).unwrap(),
            ).member("status"@) == Some(JsonView::Null),
            j.member("profile"@) is None <==> <EditUser as Wire>::encode(<EditUser as Wire>::decode(j).unwrap()).member(
                "profile"@,
            ) is None,
            j.member("profile"@) == Some(JsonView::Null) <==> <EditUser as Wire>::encode(
                <EditUser as Wire>::decode(j).unwrap(),
            ).member("profile"@) == Some(JsonView::Null),
            j.member("avatar"@) is None <==> <EditUser as Wire>::encode(<EditUser as Wire>::decode(j).unwrap()).member(
                "avatar"@,
            ) is None,
            j.member("avatar"@) == Some(JsonView::Null) <==> <EditUser as Wire>::encode(
                <EditUser as Wire>::decode(j).unwrap(),
            ).member("avatar"@) == Some(JsonView::Null),
            j.member("remove"@) is None <==> <EditUser as Wire>::encode(<EditUser as Wire>::decode(j).unwrap()).member(
                "remove"@,
            ) is None,
            j.member("remove"@) == Some(JsonView::Null) <==> <EditUser as Wire>::encode(
                <EditUser as Wire>::decode(j).unwrap(),
            ).member("remove"@) == Some(JsonView::Null),
    {
        Self::lemma_decoded_missing(j);
        Self::lemma_encoded_members(<EditUser as Wire>::decode(j).unwrap());
    }
}

impl Wire for EditUser {
    open spec fn encode(v: EditUserView) -> JsonView {
        JsonView::Object(Self::members(v))
    }

    open spec fn decode(j: JsonView) -> Option<EditUserView> {
        let status = optional::<Status>(j, "status"@);
        let profile = optional::<Profile>(j, "profile"@);
        let avatar = optional::<String>(j, "avatar"@);
        let remove = optional::<RemoveField>(j, "remove"@);
        if j is Object && status is Some && profile is Some && avatar is Some && remove is Some {
            Some(
                EditUserView {
                    status: status.unwrap(),
                    profile: profile.unwrap(),
                    avatar: avatar.unwrap(),
                    remove: remove.unwrap(),
                },
            )
        } else {
            None
        }
    }

    proof fn lemma_decode_encode(v: EditUserView) {
        Self::lemma_encoded_members(v);
        let j = Self::encode(v);
        lemma_optional_of_written::<Status>(j, "status"@, v.status);
        lemma_optional_of_written::<Profile>(j, "profile"@, v.profile);
        lemma_optional_of_written::<String>(j, "avatar"@, v.avatar);
        lemma_optional_of_written::<RemoveField>(j, "remove"@, v.remove);
    }

    fn to_json(&self) -> (j: Json) {
        let mut members: Vec<(String, Json)> = Vec::new();
        put_optional::<Status>(&mut members, "status", &self.status);
        put_optional::<Profile>(&mut members, "profile", &self.profile);
        put_optional::<String>(&mut members, "avatar", &self.avatar);
        put_optional::<RemoveField>(&mut members, "remove", &self.remove);
        Json::Object(members)
    }

    fn from_json(j: &Json) -> (r: Option<EditUser>) {
        if !j.is_object() {
            return None;
        }
        let status = read_optional::<Status>(j, "status")?;
        let profile = read_optional::<Profile>(j, "profile")?;
        let avatar = read_optional::<String>(j, "avatar")?;
        let remove = read_optional::<RemoveField>(j, "remove")?;
        Some(EditUser { status, profile, avatar, remove })
    }
}

/// The payload of an edit of a channel. A field that is missing is left as
/// it is.
#[derive(Debug, PartialEq)]
pub struct EditAutumn {
    pub name: Field<String>,
    pub description: Field<String>,
    /// The id of the uploaded file.
    pub icon: Field<String>,
    /// The field to clear. The service names the fields, so this takes any
    /// text.
    pub remove: Field<String>,
}

/// The model of a [`EditAutumn`].
pub struct EditAutumnView {
    pub name: Field<Seq<char>>,
    pub description: Field<Seq<char>>,
    pub icon: Field<Seq<char>>,
    pub remove: Field<Seq<char>>,
}

impl DeepView for EditAutumn {
    type V = EditAutumnView;

    open spec fn deep_view(&self) -> EditAutumnView {
        EditAutumnView {
            name: self.name.deep_view(),
            description: self.description.deep_view(),
            icon: self.icon.deep_view(),
            remove: self.remove.deep_view(),
        }
    }
}

impl EditAutumn {
    /// The members that the value is written with. A field that is missing adds
    /// none.
    pub open spec fn members(v: EditAutumnView) -> Members {
        let m: Members = Map::empty();
        let m = with_optional::<String>(m, "name"@, v.name);
        let m = with_optional::<String>(m, "description"@, v.description);
        let m = with_optional::<String>(m, "icon"@, v.icon);
        let m = with_optional::<String>(m, "remove"@, v.remove);
        m
    }

    /// The keys, by their lengths and the characters that tell them apart.
    proof fn lemma_keys()
        ensures
            "name"@.len() == 4 && "name"@[0] == 'n',
            "description"@.len() == 11,
            "icon"@.len() == 4 && "icon"@[0] == 'i',
            "remove"@.len() == 6,
    {
        reveal_strlit("name");
        reveal_strlit("description");
        reveal_strlit("icon");
        reveal_strlit("remove");
    }

    /// Each field is written under its own key, a field that is missing is
    /// written as no member at all, and no other key is written.
    pub proof fn lemma_encoded_members(v: EditAutumnView)
        ensures
            <EditAutumn as Wire>::encode(v) is Object,
            <EditAutumn as Wire>::encode(v).member("name"@) == written::<String>(v.name),
            <EditAutumn as Wire>::encode(v).member("description"@) == written::<String>(v.description),
            <EditAutumn as Wire>::encode(v).member("icon"@) == written::<String>(v.icon),
            <EditAutumn as Wire>::encode(v).member("remove"@) == written::<String>(v.remove),
            forall|k: Seq<char>|
                (#[trigger] <EditAutumn as Wire>::encode(v).member(k)) is Some ==> {
                    ||| k == "name"@
                    ||| k == "description"@
                    ||| k == "icon"@
                    ||| k == "remove"@
                },
    {
        broadcast use lemma_lookup_with_optional;

        Self::lemma_keys();
    }

    /// A document that is read and lacks the key of an optional field gives a
    /// missing field, and only such a document does. A member that is `null`
    /// gives the null field, and only such a member does.
    pub proof fn lemma_decoded_missing(j: JsonView)
        requires
            <EditAutumn as Wire>::decode(j) is Some,
        ensures
            <EditAutumn as Wire>::decode(j).unwrap().name is Missing <==> j.member("name"@) is None,
            <EditAutumn as Wire>::decode(j).unwrap().name is Null <==> j.member("name"@) == Some(JsonView::Null),
            <EditAutumn as Wire>::decode(j).unwrap().description is Missing <==> j.member("description"@) is None,
            <EditAutumn as Wire>::decode(j).unwrap().description is Null <==> j.member("description"@) == Some(JsonView::Null),
            <EditAutumn as Wire>::decode(j).unwrap().icon is Missing <==> j.member("icon"@) is None,
            <EditAutumn as Wire>::decode(j).unwrap().icon is Null <==> j.member("icon"@) == Some(JsonView::Null),
            <EditAutumn as Wire>::decode(j).unwrap().remove is Missing <==> j.member("remove"@) is None,
            <EditAutumn as Wire>::decode(j).unwrap().remove is Null <==> j.member("remove"@) == Some(JsonView::Null),
    {
    }

    /// What a document leaves out, the value read from it leaves out again
    /// when it is written, and nothing else; and what is `null` in the document
    /// is written as `null` again, and nothing else.
    pub proof fn lemma_omitted_stays_omitted(j: JsonView)
        requires
            <EditAutumn as Wire>::decode(j) is Some,
        ensures
            j.member("name"@) is None <==> <EditAutumn as Wire>::encode(<EditAutumn as Wire>::decode(j).unwrap()).member(
                "name"@,
            ) is None,
            j.member("name"@) == Some(JsonView::Null) <==> <EditAutumn as Wire>::encode(
                <EditAutumn as Wire>::decode(j).unwrap(),
            ).member("name"@) == Some(JsonView::Null),
            j.member("description"@) is None <==> <EditAutumn as Wire>::encode(<EditAutumn as Wire>::decode(j).unwrap()).member(
                "description"@,
            ) is None,
            j.member("description"@) == Some(JsonView::Null) <==> <EditAutumn as Wire>::encode(
                <EditAutumn as Wire>::decode(j).unwrap(),
            ).member("description"@) == Some(JsonView::Null),
            j.member("icon"@) is None <==> <EditAutumn as Wire>::encode(<EditAutumn as Wire>::decode(j).unwrap()).member(
                "icon"@,
            ) is None,
            j.member("icon"@) == Some(JsonView::Null) <==> <EditAutumn as Wire>::encode(
                <EditAutumn as Wire>::decode(j).unwrap(),
            ).member("icon"@) == Some(JsonView::Null),
            j.member("remove"@) is None <==> <EditAutumn as Wire>::encode(<EditAutumn as Wire>::decode(j).unwrap()).member(
                "remove"@,
            ) is None,
            j.member("remove"@) == Some(JsonView::Null) <==> <EditAutumn as Wire>::encode(
                <EditAutumn as Wire>::decode(j).unwrap(),
            ).member("remove"@) == Some(JsonView::Null),
    {
        Self::lemma_decoded_missing(j);
        Self::lemma_encoded_members(<EditAutumn as Wire>::decode(j).unwrap());
    }
}

impl Wire for EditAutumn {
    open spec fn encode(v: EditAutumnView) -> JsonView {
        JsonView::Object(Self::members(v))
    }

    open spec fn decode(j: JsonView) -> Option<EditAutumnView> {
        let name = optional::<String>(j, "name"@);
        let description = optional::<String>(j, "description"@);
        let icon = optional::<String>(j, "icon"@);
        let remove = optional::<String>(j, "remove"@);
        if j is Object && name is Some && description is Some && icon is Some && remove is Some {
            Some(
                EditAutumnView {
                    name: name.unwrap(),
                    description: description.unwrap(),
                    icon: icon.unwrap(),
                    remove: remove.unwrap(),
                },
            )
        } else {
            None
        }
    }

    proof fn lemma_decode_encode(v: EditAutumnView) {
        Self::lemma_encoded_members(v);
        let j = Self::encode(v);
        lemma_optional_of_written::<String>(j, "name"@, v.name);
        lemma_optional_of_written::<String>(j, "description"@, v.description);
        lemma_optional_of_written::<String>(j, "icon"@, v.icon);
        lemma_optional_of_written::<String>(j, "remove"@, v.remove);
    }

    fn to_json(&self) -> (j: Json) {
        let mut members: Vec<(String, Json)> = Vec::new();
        put_optional::<String>(&mut members, "name", &self.name);
        put_optional::<String>(&mut members, "description", &self.description);
        put_optional::<String>(&mut members, "icon", &self.icon);
        put_optional::<String>(&mut members, "remove", &self.remove);
        Json::Object(members)
    }

    fn from_json(j: &Json) -> (r: Option<EditAutumn>) {
        if !j.is_object() {
            return None;
        }
        let name = read_optional::<String>(j, "name")?;
        let description = read_optional::<String>(j, "description")?;
        let icon = read_optional::<String>(j, "icon")?;
        let remove = read_optional::<String>(j, "remove")?;
        Some(EditAutumn { name, description, icon, remove })
    }
}

/// The payload that sets permissions: a bit mask.
#[derive(Clone, Copy, Debug, PartialEq, Eq)]
pub struct Permissions {
    pub permissions: i32,
}

/// The model of a [`Permissions`].
pub struct PermissionsView {
    pub permissions: i32,
}

impl DeepView for Permissions {
    type V = PermissionsView;

    open spec fn deep_view(&self) -> PermissionsView {
        PermissionsView {
            permissions: self.permissions.deep_view(),
        }
    }
}

impl Permissions {
    /// The members that the value is written with. A field that is missing adds
    /// none.
    pub open spec fn members(v: PermissionsView) -> Members {
        let m: Members = Map::empty();
        let m = with::<i32>(m, "permissions"@, v.permissions);
        m
    }

    /// The keys, by their lengths and the characters that tell them apart.
    proof fn lemma_keys()
        ensures
            "permissions"@.len() == 11,
    {
        reveal_strlit("permissions");
    }

    /// Each field is written under its own key, a field that is missing is
    /// written as no member at all, and no other key is written.
    pub proof fn lemma_encoded_members(v: PermissionsView)
        ensures
            <Permissions as Wire>::encode(v) is Object,
            <Permissions as Wire>::encode(v).member("permissions"@) == Some(<i32 as Wire>::encode(v.permissions)),
            forall|k: Seq<char>|
                (#[trigger] <Permissions as Wire>::encode(v).member(k)) is Some ==> {
                    ||| k == "permissions"@
                },
    {
        broadcast use lemma_lookup_with;

        Self::lemma_keys();
    }
}

impl Wire for Permissions {
    open spec fn encode(v: PermissionsView) -> JsonView {
        JsonView::Object(Self::members(v))
    }

    open spec fn decode(j: JsonView) -> Option<PermissionsView> {
        let permissions = required::<i32>(j, "permissions"@);
        if j is Object && permissions is Some {
            Some(
                PermissionsView {
                    permissions: permissions.unwrap(),
                },
            )
        } else {
            None
        }
    }

    proof fn lemma_decode_encode(v: PermissionsView) {
        Self::lemma_encoded_members(v);
        let j = Self::encode(v);
        lemma_required_of_written::<i32>(j, "permissions"@, v.permissions);
    }

    fn to_json(&self) -> (j: Json) {
        let mut members: Vec<(String, Json)> = Vec::new();
        put::<i32>(&mut members, "permissions", &self.permissions);
        Json::Object(members)
    }

    fn from_json(j: &Json) -> (r: Option<Permissions>) {
        if !j.is_object() {
            return None;
        }
        let permissions = read::<i32>(j, "permissions")?;
        Some(Permissions { permissions })
    }
}

/// The answer to the creation of an invite.
#[derive(Debug, PartialEq)]
pub struct Invite {
    pub code: String,
}

/// The model of a [`Invite`].
pub struct InviteView {
    pub code: Seq<char>,
}

impl DeepView for Invite {
    type V = InviteView;

    open spec fn deep_view(&self) -> InviteView {
        InviteView {
            code: self.code.deep_view(),
        }
    }
}

impl Invite {
    /// The members that the value is written with. A field that is missing adds
    /// none.
    pub open spec fn members(v: InviteView) -> Members {
        let m: Members = Map::empty();
        let m = with::<String>(m, "code"@, v.code);
        m
    }

    /// The keys, by their lengths and the characters that tell them apart.
    proof fn lemma_keys()
        ensures
            "code"@.len() == 4,
    {
        reveal_strlit("code");
    }

    /// Each field is written under its own key, a field that is missing is
    /// written as no member at all, and no other key is written.
    pub proof fn lemma_encoded_members(v: InviteView)
        ensures
            <Invite as Wire>::encode(v) is Object,
            <Invite as Wire>::encode(v).member("code"@) == Some(<String as Wire>::encode(v.code)),
            forall|k: Seq<char>|
                (#[trigger] <Invite as Wire>::encode(v).member(k)) is Some ==> {
                    ||| k == "code"@
                },
    {
        broadcast use lemma_lookup_with;

        Self::lemma_keys();
    }
}

impl Wire for Invite {
    open spec fn encode(v: InviteView) -> JsonView {
        JsonView::Object(Self::members(v))
    }

    open spec fn decode(j: JsonView) -> Option<InviteView> {
        let code = required::<String>(j, "code"@);
        if j is Object && code is Some {
            Some(
                InviteView {
                    code: code.unwrap(),
                },
            )
        } else {
            None
        }
    }

    proof fn lemma_decode_encode(v: InviteView) {
        Self::lemma_encoded_members(v);
        let j = Self::encode(v);
        lemma_required_of_written::<String>(j, "code"@, v.code);
    }

    fn to_json(&self) -> (j: Json) {
        let mut members: Vec<(String, Json)> = Vec::new();
        put::<String>(&mut members, "code", &self.code);
        Json::Object(members)
    }

    fn from_json(j: &Json) -> (r: Option<Invite>) {
        if !j.is_object() {
            return None;
        }
        let code = read::<String>(j, "code")?;
        Some(Invite { code })
    }
}

/// The payload of a new message.
#[derive(Debug, PartialEq)]
pub struct SendMessage {
    pub content: String,
    /// A token made for this one message, by which the service tells a
    /// repeated sending from a new message.
    pub nonce: String,
    pub attachments: Field<Vec<String>>,
    pub replies: Field<Reply>,
}

/// The model of a [`SendMessage`].
pub struct SendMessageView {
    pub content: Seq<char>,
    pub nonce: Seq<char>,
    pub attachments: Field<Seq<Seq<char>>>,
    pub replies: Field<ReplyView>,
}

impl DeepView for SendMessage {
    type V = SendMessageView;

    open spec fn deep_view(&self) -> SendMessageView {
        SendMessageView {
            content: self.content.deep_view(),
            nonce: self.nonce.deep_view(),
            attachments: self.attachments.deep_view(),
            replies: self.replies.deep_view(),
        }
    }
}

impl SendMessage {
    /// The members that the value is written with. A field that is missing adds
    /// none.
    pub open spec fn members(v: SendMessageView) -> Members {
        let m: Members = Map::empty();
        let m = with::<String>(m, "content"@, v.content);
        let m = with::<String>(m, "nonce"@, v.nonce);
        let m = with_optional::<Vec<String>>(m, "attachments"@, v.attachments);
        let m = with_optional::<Reply>(m, "replies"@, v.replies);
        m
    }

    /// The keys, by their lengths and the characters that tell them apart.
    proof fn lemma_keys()
        ensures
            "content"@.len() == 7 && "content"@[0] == 'c',
            "nonce"@.len() == 5,
            "attachments"@.len() == 11,
            "replies"@.len() == 7 && "replies"@[0] == 'r',
    {
        reveal_strlit("content");
        reveal_strlit("nonce");
        reveal_strlit("attachments");
        reveal_strlit("replies");
    }

    /// Each field is written under its own key, a field that is missing is
    /// written as no member at all, and no other key is written.
    pub proof fn lemma_encoded_members(v: SendMessageView)
        ensures
            <SendMessage as Wire>::encode(v) is Object,
            <SendMessage as Wire>::encode(v).member("content"@) == Some(<String as Wire>::encode(v.content)),
            <SendMessage as Wire>::encode(v).member("nonce"@) == Some(<String as Wire>::encode(v.nonce)),
            <SendMessage as Wire>::encode(v).member("attachments"@) == written::<Vec<String>>(v.attachments),
            <SendMessage as Wire>::encode(v).member("replies"@) == written::<Reply>(v.replies),
            forall|k: Seq<char>|
                (#[trigger] <SendMessage as Wire>::encode(v).member(k)) is Some ==> {
                    ||| k == "content"@
                    ||| k == "nonce"@
                    ||| k == "attachments"@
                    ||| k == "replies"@
                },
    {
        broadcast use {lemma_lookup_with, lemma_lookup_with_optional};

        Self::lemma_keys();
    }

    /// A document that is read and lacks the key of an optional field gives a
    /// missing field, and only such a document does. A member that is `null`
    /// gives the null field, and only such a member does.
    pub proof fn lemma_decoded_missing(j: JsonView)
        requires
            <SendMessage as Wire>::decode(j) is Some,
        ensures
            <SendMessage as Wire>::decode(j).unwrap().attachments is Missing <==> j.member("attachments"@) is None,
            <SendMessage as Wire>::decode(j).unwrap().attachments is Null <==> j.member("attachments"@) == Some(JsonView::Null),
            <SendMessage as Wire>::decode(j).unwrap().replies is Missing <==> j.member("replies"@) is None,
            <SendMessage as Wire>::decode(j).unwrap().replies is Null <==> j.member("replies"@) == Some(JsonView::Null),
    {
    }

    /// What a document leaves out, the value read from it leaves out again
    /// when it is written, and nothing else; and what is `null` in the document
    /// is written as `null` again, and nothing else.
    pub proof fn lemma_omitted_stays_omitted(j: JsonView)
        requires
            <SendMessage as Wire>::decode(j) is Some,
        ensures
            j.member("attachments"@) is None <==> <SendMessage as Wire>::encode(<SendMessage as Wire>::decode(j).unwrap()).member(
                "attachments"@,
            ) is None,
            j.member("attachments"@) == Some(JsonView::Null) <==> <SendMessage as Wire>::encode(
                <SendMessage as Wire>::decode(j).unwrap(),
            ).member("attachments"@) == Some(JsonView::Null),
            j.member("replies"@) is None <==> <SendMessage as Wire>::encode(<SendMessage as Wire>::decode(j).unwrap()).member(
                "replies"@,
            ) is None,
            j.member("replies"@) == Some(JsonView::Null) <==> <SendMessage as Wire>::encode(
                <SendMessage as Wire>::decode(j).unwrap(),
            ).member("replies"@) == Some(JsonView::Null),
    {
        Self::lemma_decoded_missing(j);
        Self::lemma_encoded_members(<SendMessage as Wire>::decode(j).unwrap());
    }
}

impl Wire for SendMessage {
    open spec fn encode(v: SendMessageView) -> JsonView {
        JsonView::Object(Self::members(v))
    }

    open spec fn decode(j: JsonView) -> Option<SendMessageView> {
        let content = required::<String>(j, "content"@);
        let nonce = required::<String>(j, "nonce"@);
        let attachments = optional::<Vec<String>>(j, "attachments"@);
        let replies = optional::<Reply>(j, "replies"@);
        if j is Object && content is Some && nonce is Some && attachments is Some && replies is Some {
            Some(
                SendMessageView {
                    content: content.unwrap(),
                    nonce: nonce.unwrap(),
                    attachments: attachments.unwrap(),
                    replies: replies.unwrap(),
                },
            )
        } else {
            None
        }
    }

    proof fn lemma_decode_encode(v: SendMessageView) {
        Self::lemma_encoded_members(v);
        let j = Self::encode(v);
        lemma_required_of_written::<String>(j, "content"@, v.content);
        lemma_required_of_written::<String>(j, "nonce"@, v.nonce);
        lemma_optional_of_written::<Vec<String>>(j, "attachments"@, v.attachments);
        lemma_optional_of_written::<Reply>(j, "replies"@, v.replies);
    }

    fn to_json(&self) -> (j: Json) {
        let mut members: Vec<(String, Json)> = Vec::new();
        put::<String>(&mut members, "content", &self.content);
        put::<String>(&mut members, "nonce", &self.nonce);
        put_optional::<Vec<String>>(&mut members, "attachments", &self.attachments);
        put_optional::<Reply>(&mut members, "replies", &self.replies);
        Json::Object(members)
    }

    fn from_json(j: &Json) -> (r: Option<SendMessage>) {
        if !j.is_object() {
            return None;
        }
        let content = read::<String>(j, "content")?;
        let nonce = read::<String>(j, "nonce")?;
        let attachments = read_optional::<Vec<String>>(j, "attachments")?;
        let replies = read_optional::<Reply>(j, "replies")?;
        Some(SendMessage { content, nonce, attachments, replies })
    }
}

/// The payload that asks for messages of a channel.
#[derive(Debug, PartialEq)]
pub struct SearchMessages {
    pub query: Field<String>,
    pub limit: Field<i32>,
    pub before: Field<String>,
    pub after: Field<String>,
    pub sort: SearchSort,
    pub nearby: Field<String>,
    pub include_users: Field<bool>,
}

/// The model of a [`SearchMessages`].
pub struct SearchMessagesView {
    pub query: Field<Seq<char>>,
    pub limit: Field<i32>,
    pub before: Field<Seq<char>>,
    pub after: Field<Seq<char>>,
    pub sort: SearchSort,
    pub nearby: Field<Seq<char>>,
    pub include_users: Field<bool>,
}

impl DeepView for SearchMessages {
    type V = SearchMessagesView;

    open spec fn deep_view(&self) -> SearchMessagesView {
        SearchMessagesView {
            query: self.query.deep_view(),
            limit: self.limit.deep_view(),
            before: self.before.deep_view(),
            after: self.after.deep_view(),
            sort: self.sort.deep_view(),
            nearby: self.nearby.deep_view(),
            include_users: self.include_users.deep_view(),
        }
    }
}

impl SearchMessages {
    /// The members that the value is written with. A field that is missing adds
    /// none.
    pub open spec fn members(v: SearchMessagesView) -> Members {
        let m: Members = Map::empty();
        let m = with_optional::<String>(m, "query"@, v.query);
        let m = with_optional::<i32>(m, "limit"@, v.limit);
        let m = with_optional::<String>(m, "before"@, v.before);
        let m = with_optional::<String>(m, "after"@, v.after);
        let m = with::<SearchSort>(m, "sort"@, v.sort);
        let m = with_optional::<String>(m, "nearby"@, v.nearby);
        let m = with_optional::<bool>(m, "include_users"@, v.include_users);
        m
    }

    /// The keys, by their lengths and the characters that tell them apart.
    proof fn lemma_keys()
        ensures
            "query"@.len() == 5 && "query"@[0] == 'q',
            "limit"@.len() == 5 && "limit"@[0] == 'l',
            "before"@.len() == 6 && "before"@[0] == 'b',
            "after"@.len() == 5 && "after"@[0] == 'a',
            "sort"@.len() == 4,
            "nearby"@.len() == 6 && "nearby"@[0] == 'n',
            "include_users"@.len() == 13,
    {
        reveal_strlit("query");
        reveal_strlit("limit");
        reveal_strlit("before");
        reveal_strlit("after");
        reveal_strlit("sort");
        reveal_strlit("nearby");
        reveal_strlit("include_users");
    }

    /// Each field is written under its own key, a field that is missing is
    /// written as no member at all, and no other key is written.
    pub proof fn lemma_encoded_members(v: SearchMessagesView)
        ensures
            <SearchMessages as Wire>::encode(v) is Object,
            <SearchMessages as Wire>::encode(v).member("query"@) == written::<String>(v.query),
            <SearchMessages as Wire>::encode(v).member("limit"@) == written::<i32>(v.limit),
            <SearchMessages as Wire>::encode(v).member("before"@) == written::<String>(v.before),
            <SearchMessages as Wire>::encode(v).member("after"@) == written::<String>(v.after),
            <SearchMessages as Wire>::encode(v).member("sort"@) == Some(<SearchSort as Wire>::encode(v.sort)),
            <SearchMessages as Wire>::encode(v).member("nearby"@) == written::<String>(v.nearby),
            <SearchMessages as Wire>::encode(v).member("include_users"@) == written::<bool>(v.include_users),
            forall|k: Seq<char>|
                (#[trigger] <SearchMessages as Wire>::encode(v).member(k)) is Some ==> {
                    ||| k == "query"@
                    ||| k == "limit"@
                    ||| k == "before"@
                    ||| k == "after"@
                    ||| k == "sort"@
                    ||| k == "nearby"@
                    ||| k == "include_users"@
                },
    {
        broadcast use {lemma_lookup_with, lemma_lookup_with_optional};

        Self::lemma_keys();
    }

    /// A document that is read and lacks the key of an optional field gives a
    /// missing field, and only such a document does. A member that is `null`
    /// gives the null field, and only such a member does.
    pub proof fn lemma_decoded_missing(j: JsonView)
        requires
            <SearchMessages as Wire>::decode(j) is Some,
        ensures
            <SearchMessages as Wire>::decode(j).unwrap().query is Missing <==> j.member("query"@) is None,
            <SearchMessages as Wire>::decode(j).unwrap().query is Null <==> j.member("query"@) == Some(JsonView::Null),
            <SearchMessages as Wire>::decode(j).unwrap().limit is Missing <==> j.member("limit"@) is None,
            <SearchMessages as Wire>::decode(j).unwrap().limit is Null <==> j.member("limit"@) == Some(JsonView::Null),
            <SearchMessages as Wire>::decode(j).unwrap().before is Missing <==> j.member("before"@) is None,
            <SearchMessages as Wire>::decode(j).unwrap().before is Null <==> j.member("before"@) == Some(JsonView::Null),
            <SearchMessages as Wire>::decode(j).unwrap().after is Missing <==> j.member("after"@) is None,
            <SearchMessages as Wire>::decode(j).unwrap().after is Null <==> j.member("after"@) == Some(JsonView::Null),
            <SearchMessages as Wire>::decode(j).unwrap().nearby is Missing <==> j.member("nearby"@) is None,
            <SearchMessages as Wire>::decode(j).unwrap().nearby is Null <==> j.member("nearby"@) == Some(JsonView::Null),
            <SearchMessages as Wire>::decode(j).unwrap().include_users is Missing <==> j.member("include_users"@) is None,
            <SearchMessages as Wire>::decode(j).unwrap().include_users is Null <==> j.member("include_users"@) == Some(JsonView::Null),
    {
    }

    /// What a document leaves out, the value read from it leaves out again
    /// when it is written, and nothing else; and what is `null` in the document
    /// is written as `null` again, and nothing else.
    pub proof fn lemma_omitted_stays_omitted(j: JsonView)
        requires
            <SearchMessages as Wire>::decode(j) is Some,
        ensures
            j.member("query"@) is None <==> <SearchMessages as Wire>::encode(<SearchMessages as Wire>::decode(j).unwrap()).member(
                "query"@,
            ) is None,
            j.member("query"@) == Some(JsonView::Null) <==> <SearchMessages as Wire>::encode(
                <SearchMessages as Wire>::decode(j).unwrap(),
            ).member("query"@) == Some(JsonView::Null),
            j.member("limit"@) is None <==> <SearchMessages as Wire>::encode(<SearchMessages as Wire>::decode(j).unwrap()).member(
                "limit"@,
            ) is None,
            j.member("limit"@) == Some(JsonView::Null) <==> <SearchMessages as Wire>::encode(
                <SearchMessages as Wire>::decode(j).unwrap(),
            ).member("limit"@) == Some(JsonView::Null),
            j.member("before"@) is None <==> <SearchMessages as Wire>::encode(<SearchMessages as Wire>::decode(j).unwrap()).member(
                "before"@,
            ) is None,
            j.member("before"@) == Some(JsonView::Null) <==> <SearchMessages as Wire>::encode(
                <SearchMessages as Wire>::decode(j).unwrap(),
            ).member("before"@) == Some(JsonView::Null),
            j.member("after"@) is None <==> <SearchMessages as Wire>::encode(<SearchMessages as Wire>::decode(j).unwrap()).member(
                "after"@,
            ) is None,
            j.member("after"@) == Some(JsonView::Null) <==> <SearchMessages as Wire>::encode(
                <SearchMessages as Wire>::decode(j).unwrap(),
            ).member("after"@) == Some(JsonView::Null),
            j.member("nearby"@) is None <==> <SearchMessages as Wire>::encode(<SearchMessages as Wire>::decode(j).unwrap()).member(
                "nearby"@,
            ) is None,
            j.member("nearby"@) == Some(JsonView::Null) <==> <SearchMessages as Wire>::encode(
                <SearchMessages as Wire>::decode(j).unwrap(),
            ).member("nearby"@) == Some(JsonView::Null),
            j.member("include_users"@) is None <==> <SearchMessages as Wire>::encode(<SearchMessages as Wire>::decode(j).unwrap()).member(
                "include_users"@,
            ) is None,
            j.member("include_users"@) == Some(JsonView::Null) <==> <SearchMessages as Wire>::encode(
                <SearchMessages as Wire>::decode(j).unwrap(),
            ).member("include_users"@) == Some(JsonView::Null),
    {
        Self::lemma_decoded_missing(j);
        Self::lemma_encoded_members(<SearchMessages as Wire>::decode(j).unwrap());
    }
}

impl Wire for SearchMessages {
    open spec fn encode(v: SearchMessagesView) -> JsonView {
        JsonView::Object(Self::members(v))
    }

    open spec fn decode(j: JsonView) -> Option<SearchMessagesView> {
        let query = optional::<String>(j, "query"@);
        let limit = optional::<i32>(j, "limit"@);
        let before = optional::<String>(j, "before"@);
        let after = optional::<String>(j, "after"@);
        let sort = required::<SearchSort>(j, "sort"@);
        let nearby = optional::<String>(j, "nearby"@);
        let include_users = optional::<bool>(j, "include_users"@);
        if j is Object && query is Some && limit is Some && before is Some && after is Some && sort is Some && nearby is Some && include_users is Some {
            Some(
                SearchMessagesView {
                    query: query.unwrap(),
                    limit: limit.unwrap(),
                    before: before.unwrap(),
                    after: after.unwrap(),
                    sort: sort.unwrap(),
                    nearby: nearby.unwrap(),
                    include_users: include_users.unwrap(),
                },
            )
        } else {
            None
        }
    }

    proof fn lemma_decode_encode(v: SearchMessagesView) {
        Self::lemma_encoded_members(v);
        let j = Self::encode(v);
        lemma_optional_of_written::<String>(j, "query"@, v.query);
        lemma_optional_of_written::<i32>(j, "limit"@, v.limit);
        lemma_optional_of_written::<String>(j, "before"@, v.before);
        lemma_optional_of_written::<String>(j, "after"@, v.after);
        lemma_required_of_written::<SearchSort>(j, "sort"@, v.sort);
        lemma_optional_of_written::<String>(j, "nearby"@, v.nearby);
        lemma_optional_of_written::<bool>(j, "include_users"@, v.include_users);
    }

    fn to_json(&self) -> (j: Json) {
        let mut members: Vec<(String, Json)> = Vec::new();
        put_optional::<String>(&mut members, "query", &self.query);
        put_optional::<i32>(&mut members, "limit", &self.limit);
        put_optional::<String>(&mut members, "before", &self.before);
        put_optional::<String>(&mut members, "after", &self.after);
        put::<SearchSort>(&mut members, "sort", &self.sort);
        put_optional::<String>(&mut members, "nearby", &self.nearby);
        put_optional::<bool>(&mut members, "include_users", &self.include_users);
        Json::Object(members)
    }

    fn from_json(j: &Json) -> (r: Option<SearchMessages>) {
        if !j.is_object() {
            return None;
        }
        let query = read_optional::<String>(j, "query")?;
        let limit = read_optional::<i32>(j, "limit")?;
        let before = read_optional::<String>(j, "before")?;
        let after = read_optional::<String>(j, "after")?;
        let sort = read::<SearchSort>(j, "sort")?;
        let nearby = read_optional::<String>(j, "nearby")?;
        let include_users = read_optional::<bool>(j, "include_users")?;
        Some(SearchMessages { query, limit, before, after, sort, nearby, include_users })
    }
}

/// The payload of an edit of a message.
#[derive(Debug, PartialEq)]
pub struct EditMessage {
    pub content: String,
}

/// The model of a [`EditMessage`].
pub struct EditMessageView {
    pub content: Seq<char>,
}

impl DeepView for EditMessage {
    type V = EditMessageView;

    open spec fn deep_view(&self) -> EditMessageView {
        EditMessageView {
            content: self.content.deep_view(),
        }
    }
}

impl EditMessage {
    /// The members that the value is written with. A field that is missing adds
    /// none.
    pub open spec fn members(v: EditMessageView) -> Members {
        let m: Members = Map::empty();
        let m = with::<String>(m, "content"@, v.content);
        m
    }

    /// The keys, by their lengths and the characters that tell them apart.
    proof fn lemma_keys()
        ensures
            "content"@.len() == 7,
    {
        reveal_strlit("content");
    }

    /// Each field is written under its own key, a field that is missing is
    /// written as no member at all, and no other key is written.
    pub proof fn lemma_encoded_members(v: EditMessageView)
        ensures
            <EditMessage as Wire>::encode(v) is Object,
            <EditMessage as Wire>::encode(v).member("content"@) == Some(<String as Wire>::encode(v.content)),
            forall|k: Seq<char>|
                (#[trigger] <EditMessage as Wire>::encode(v).member(k)) is Some ==> {
                    ||| k == "content"@
                },
    {
        broadcast use lemma_lookup_with;

        Self::lemma_keys();
    }
}

impl Wire for EditMessage {
    open spec fn encode(v: EditMessageView) -> JsonView {
        JsonView::Object(Self::members(v))
    }

    open spec fn decode(j: JsonView) -> Option<EditMessageView> {
        let content = required::<String>(j, "content"@);
        if j is Object && content is Some {
            Some(
                EditMessageView {
                    content: content.unwrap(),
                },
            )
        } else {
            None
        }
    }

    proof fn lemma_decode_encode(v: EditMessageView) {
        Self::lemma_encoded_members(v);
        let j = Self::encode(v);
        lemma_required_of_written::<String>(j, "content"@, v.content);
    }

    fn to_json(&self) -> (j: Json) {
        let mut members: Vec<(String, Json)> = Vec::new();
        put::<String>(&mut members, "content", &self.content);
        Json::Object(members)
    }

    fn from_json(j: &Json) -> (r: Option<EditMessage>) {
        if !j.is_object() {
            return None;
        }
        let content = read::<String>(j, "content")?;
        Some(EditMessage { content })
    }
}

} // verus!
