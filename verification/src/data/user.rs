//! Users, their status and their relationships.

use crate::data::autumn::{Attachment, AttachmentView};
use crate::text::same_text;
use crate::json::{Json, JsonView};
use crate::wire::{
    lemma_lookup_with, lemma_lookup_with_optional, lemma_optional_of_written,
    lemma_required_of_written, optional, put, put_optional, read, read_optional, required, with,
    with_optional, written, Field, Members, Wire,
};
use vstd::prelude::*;

verus! {

/// How the caller and another user stand to each other.
#[derive(Clone, Copy, Debug, PartialEq, Eq)]
pub enum RelationshipStatus {
    Blocked,
    BlockedOther,
    Friend,
    Incoming,
    Nothing,
    Outgoing,
    User,
}

impl DeepView for RelationshipStatus {
    type V = RelationshipStatus;

    open spec fn deep_view(&self) -> RelationshipStatus {
        *self
    }
}

impl RelationshipStatus {
    /// The name that stands for the value on the wire.
    pub open spec fn name(self) -> Seq<char> {
        match self {
            RelationshipStatus::Blocked => "Blocked"@,
            RelationshipStatus::BlockedOther => "BlockedOther"@,
            RelationshipStatus::Friend => "Friend"@,
            RelationshipStatus::Incoming => "Incoming"@,
            RelationshipStatus::Nothing => "None"@,
            RelationshipStatus::Outgoing => "Outgoing"@,
            RelationshipStatus::User => "User"@,
        }
    }

    /// The value that a name stands for; `None` for any other text.
    pub open spec fn named(s: Seq<char>) -> Option<RelationshipStatus> {
        if s == "Blocked"@ {
            Some(RelationshipStatus::Blocked)
        } else if s == "BlockedOther"@ {
            Some(RelationshipStatus::BlockedOther)
        } else if s == "Friend"@ {
            Some(RelationshipStatus::Friend)
        } else if s == "Incoming"@ {
            Some(RelationshipStatus::Incoming)
        } else if s == "None"@ {
            Some(RelationshipStatus::Nothing)
        } else if s == "Outgoing"@ {
            Some(RelationshipStatus::Outgoing)
        } else if s == "User"@ {
            Some(RelationshipStatus::User)
        } else {
            None
        }
    }

    /// The names, by their lengths and the characters that tell them apart.
    proof fn lemma_names()
        ensures
            "Blocked"@.len() == 7,
            "BlockedOther"@.len() == 12,
            "Friend"@.len() == 6,
            "Incoming"@.len() == 8 && "Incoming"@[0] == 'I',
            "None"@.len() == 4 && "None"@[0] == 'N',
            "Outgoing"@.len() == 8 && "Outgoing"@[0] == 'O',
            "User"@.len() == 4 && "User"@[0] == 'U',
    {
        reveal_strlit("Blocked");
        reveal_strlit("BlockedOther");
        reveal_strlit("Friend");
        reveal_strlit("Incoming");
        reveal_strlit("None");
        reveal_strlit("Outgoing");
        reveal_strlit("User");
    }

    /// A text that is the name of no value is not read: the set of values is
    /// closed.
    pub proof fn lemma_unknown_name(s: Seq<char>)
        requires
            forall|v: RelationshipStatus| v.name() != s,
        ensures
            <RelationshipStatus as Wire>::decode(JsonView::Text(s)) is None,
    {
        assert(RelationshipStatus::Blocked.name() != s);
        assert(RelationshipStatus::BlockedOther.name() != s);
        assert(RelationshipStatus::Friend.name() != s);
        assert(RelationshipStatus::Incoming.name() != s);
        assert(RelationshipStatus::Nothing.name() != s);
        assert(RelationshipStatus::Outgoing.name() != s);
        assert(RelationshipStatus::User.name() != s);
    }
}

impl Wire for RelationshipStatus {
    open spec fn encode(v: RelationshipStatus) -> JsonView {
        JsonView::Text(v.name())
    }

    open spec fn decode(j: JsonView) -> Option<RelationshipStatus> {
        match j {
            JsonView::Text(s) => Self::named(s),
            _ => None,
        }
    }

    proof fn lemma_decode_encode(v: RelationshipStatus) {
        Self::lemma_names();
    }

    fn to_json(&self) -> (j: Json) {
        match self {
            RelationshipStatus::Blocked => Json::Text("Blocked".to_owned()),
            RelationshipStatus::BlockedOther => Json::Text("BlockedOther".to_owned()),
            RelationshipStatus::Friend => Json::Text("Friend".to_owned()),
            RelationshipStatus::Incoming => Json::Text("Incoming".to_owned()),
            RelationshipStatus::Nothing => Json::Text("None".to_owned()),
            RelationshipStatus::Outgoing => Json::Text("Outgoing".to_owned()),
            RelationshipStatus::User => Json::Text("User".to_owned()),
        }
    }

    fn from_json(j: &Json) -> (r: Option<RelationshipStatus>) {
        match j {
            Json::Text(s) => {
                if same_text(s.as_str(), "Blocked") {
                    Some(RelationshipStatus::Blocked)
                } else if same_text(s.as_str(), "BlockedOther") {
                    Some(RelationshipStatus::BlockedOther)
                } else if same_text(s.as_str(), "Friend") {
                    Some(RelationshipStatus::Friend)
                } else if same_text(s.as_str(), "Incoming") {
                    Some(RelationshipStatus::Incoming)
                } else if same_text(s.as_str(), "None") {
                    Some(RelationshipStatus::Nothing)
                } else if same_text(s.as_str(), "Outgoing") {
                    Some(RelationshipStatus::Outgoing)
                } else if same_text(s.as_str(), "User") {
                    Some(RelationshipStatus::User)
                } else {
                    None
                }
            },
            _ => None,
        }
    }
}

/// The relationship between the caller and one other user.
#[derive(Debug, PartialEq)]
pub struct Relationship {
    pub status: RelationshipStatus,
    /// The other user.
    pub id: Field<String>,
}

/// The model of a [`Relationship`].
pub struct RelationshipView {
    pub status: RelationshipStatus,
    pub id: Field<Seq<char>>,
}

impl DeepView for Relationship {
    type V = RelationshipView;

    open spec fn deep_view(&self) -> RelationshipView {
        RelationshipView {
            status: self.status.deep_view(),
            id: self.id.deep_view(),
        }
    }
}

impl Relationship {
    /// The members that the value is written with. A field that is missing adds
    /// none.
    pub open spec fn members(v: RelationshipView) -> Members {
        let m: Members = Map::empty();
        let m = with::<RelationshipStatus>(m, "status"@, v.status);
        let m = with_optional::<String>(m, "_id"@, v.id);
        m
    }

    /// The keys, by their lengths and the characters that tell them apart.
    proof fn lemma_keys()
        ensures
            "status"@.len() == 6,
            "_id"@.len() == 3,
    {
        reveal_strlit("status");
        reveal_strlit("_id");
    }

    /// Each field is written under its own key, a field that is missing is
    /// written as no member at all, and no other key is written.
    pub proof fn lemma_encoded_members(v: RelationshipView)
        ensures
            <Relationship as Wire>::encode(v) is Object,
            <Relationship as Wire>::encode(v).member("status"@) == Some(<RelationshipStatus as Wire>::encode(v.status)),
            <Relationship as Wire>::encode(v).member("_id"@) == written::<String>(v.id),
            forall|k: Seq<char>|
                (#[trigger] <Relationship as Wire>::encode(v).member(k)) is Some ==> {
                    ||| k == "status"@
                    ||| k == "_id"@
                },
    {
        broadcast use {lemma_lookup_with, lemma_lookup_with_optional};

        Self::lemma_keys();
    }

    /// A document that is read and lacks the key of an optional field gives a
    /// missing field, and only such a document does. A member that is `null`
    /// gives the null field, and only such a member does.
    pub proof fn lemma_decoded_missing(j: JsonView)
        requires
            <Relationship as Wire>::decode(j) is Some,
        ensures
            <Relationship as Wire>::decode(j).unwrap().id is Missing <==> j.member("_id"@) is None,
            <Relationship as Wire>::decode(j).unwrap().id is Null <==> j.member("_id"@) == Some(JsonView::Null),
    {
    }

    /// What a document leaves out, the value read from it leaves out again
    /// when it is written, and nothing else; and what is `null` in the document
    /// is written as `null` again, and nothing else.
    pub proof fn lemma_omitted_stays_omitted(j: JsonView)
        requires
            <Relationship as Wire>::decode(j) is Some,
        ensures
            j.member("_id"@) is None <==> <Relationship as Wire>::encode(<Relationship as Wire>::decode(j).unwrap()).member(
                "_id"@,
            ) is None,
            j.member("_id"@) == Some(JsonView::Null) <==> <Relationship as Wire>::encode(
                <Relationship as Wire>::decode(j).unwrap(),
            ).member("_id"@) == Some(JsonView::Null),
    {
        Self::lemma_decoded_missing(j);
        Self::lemma_encoded_members(<Relationship as Wire>::decode(j).unwrap());
    }
}

impl Wire for Relationship {
    open spec fn encode(v: RelationshipView) -> JsonView {
        JsonView::Object(Self::members(v))
    }

    open spec fn decode(j: JsonView) -> Option<RelationshipView> {
        let status = required::<RelationshipStatus>(j, "status"@);
        let id = optional::<String>(j, "_id"@);
        if j is Object && status is Some && id is Some {
            Some(
                RelationshipView {
                    status: status.unwrap(),
                    id: id.unwrap(),
                },
            )
        } else {
            None
        }
    }

    proof fn lemma_decode_encode(v: RelationshipView) {
        Self::lemma_encoded_members(v);
        let j = Self::encode(v);
        lemma_required_of_written::<RelationshipStatus>(j, "status"@, v.status);
        lemma_optional_of_written::<String>(j, "_id"@, v.id);
    }

    fn to_json(&self) -> (j: Json) {
        let mut members: Vec<(String, Json)> = Vec::new();
        put::<RelationshipStatus>(&mut members, "status", &self.status);
        put_optional::<String>(&mut members, "_id", &self.id);
        Json::Object(members)
    }

    fn from_json(j: &Json) -> (r: Option<Relationship>) {
        if !j.is_object() {
            return None;
        }
        let status = read::<RelationshipStatus>(j, "status")?;
        let id = read_optional::<String>(j, "_id")?;
        Some(Relationship { status, id })
    }
}

/// Whether a user shows as present.
#[derive(Clone, Copy, Debug, PartialEq, Eq)]
pub enum StatusPresence {
    Busy,
    Idle,
    Invisible,
    Online,
}

impl DeepView for StatusPresence {
    type V = StatusPresence;

    open spec fn deep_view(&self) -> StatusPresence {
        *self
    }
}

impl StatusPresence {
    /// The name that stands for the value on the wire.
    pub open spec fn name(self) -> Seq<char> {
        match self {
            StatusPresence::Busy => "Busy"@,
            StatusPresence::Idle => "Idle"@,
            StatusPresence::Invisible => "Invisible"@,
            StatusPresence::Online => "Online"@,
        }
    }

    /// The value that a name stands for; `None` for any other text.
    pub open spec fn named(s: Seq<char>) -> Option<StatusPresence> {
        if s == "Busy"@ {
            Some(StatusPresence::Busy)
        } else if s == "Idle"@ {
            Some(StatusPresence::Idle)
        } else if s == "Invisible"@ {
            Some(StatusPresence::Invisible)
        } else if s == "Online"@ {
            Some(StatusPresence::Online)
        } else {
            None
        }
    }

    /// The names, by their lengths and the characters that tell them apart.
    proof fn lemma_names()
        ensures
            "Busy"@.len() == 4 && "Busy"@[0] == 'B',
            "Idle"@.len() == 4 && "Idle"@[0] == 'I',
            "Invisible"@.len() == 9,
            "Online"@.len() == 6,
    {
        reveal_strlit("Busy");
        reveal_strlit("Idle");
        reveal_strlit("Invisible");
        reveal_strlit("Online");
    }

    /// A text that is the name of no value is not read: the set of values is
    /// closed.
    pub proof fn lemma_unknown_name(s: Seq<char>)
        requires
            forall|v: StatusPresence| v.name() != s,
        ensures
            <StatusPresence as Wire>::decode(JsonView::Text(s)) is None,
    {
        assert(StatusPresence::Busy.name() != s);
        assert(StatusPresence::Idle.name() != s);
        assert(StatusPresence::Invisible.name() != s);
        assert(StatusPresence::Online.name() != s);
    }
}

impl Wire for StatusPresence {
    open spec fn encode(v: StatusPresence) -> JsonView {
        JsonView::Text(v.name())
    }

    open spec fn decode(j: JsonView) -> Option<StatusPresence> {
        match j {
            JsonView::Text(s) => Self::named(s),
            _ => None,
        }
    }

    proof fn lemma_decode_encode(v: StatusPresence) {
        Self::lemma_names();
    }

    fn to_json(&self) -> (j: Json) {
        match self {
            StatusPresence::Busy => Json::Text("Busy".to_owned()),
            StatusPresence::Idle => Json::Text("Idle".to_owned()),
            StatusPresence::Invisible => Json::Text("Invisible".to_owned()),
            StatusPresence::Online => Json::Text("Online".to_owned()),
        }
    }

    fn from_json(j: &Json) -> (r: Option<StatusPresence>) {
        match j {
            Json::Text(s) => {
                if same_text(s.as_str(), "Busy") {
                    Some(StatusPresence::Busy)
                } else if same_text(s.as_str(), "Idle") {
                    Some(StatusPresence::Idle)
                } else if same_text(s.as_str(), "Invisible") {
                    Some(StatusPresence::Invisible)
                } else if same_text(s.as_str(), "Online") {
                    Some(StatusPresence::Online)
                } else {
                    None
                }
            },
            _ => None,
        }
    }
}

/// What a user says of themselves.
#[derive(Debug, PartialEq)]
pub struct Status {
    pub text: Field<String>,
    pub presence: Field<StatusPresence>,
}

/// The model of a [`Status`].
pub struct StatusView {
    pub text: Field<Seq<char>>,
    pub presence: Field<StatusPresence>,
}

impl DeepView for Status {
    type V = StatusView;

    open spec fn deep_view(&self) -> StatusView {
        StatusView {
            text: self.text.deep_view(),
            presence: self.presence.deep_view(),
        }
    }
}

impl Status {
    /// The members that the value is written with. A field that is missing adds
    /// none.
    pub open spec fn members(v: StatusView) -> Members {
        let m: Members = Map::empty();
        let m = with_optional::<String>(m, "text"@, v.text);
        let m = with_optional::<StatusPresence>(m, "presence"@, v.presence);
        m
    }

    /// The keys, by their lengths and the characters that tell them apart.
    proof fn lemma_keys()
        ensures
            "text"@.len() == 4,
            "presence"@.len() == 8,
    {
        reveal_strlit("text");
        reveal_strlit("presence");
    }

    /// Each field is written under its own key, a field that is missing is
    /// written as no member at all, and no other key is written.
    pub proof fn lemma_encoded_members(v: StatusView)
        ensures
            <Status as Wire>::encode(v) is Object,
            <Status as Wire>::encode(v).member("text"@) == written::<String>(v.text),
            <Status as Wire>::encode(v).member("presence"@) == written::<StatusPresence>(v.presence),
            forall|k: Seq<char>|
                (#[trigger] <Status as Wire>::encode(v).member(k)) is Some ==> {
                    ||| k == "text"@
                    ||| k == "presence"@
                },
    {
        broadcast use lemma_lookup_with_optional;

        Self::lemma_keys();
    }

    /// A document that is read and lacks the key of an optional field gives a
    /// missing field, and only such a document does. A member that is `null`
    /// gives the null field, and only such a member does.
    pub proof fn lemma_decoded_missing(j: JsonView)
        requires
            <Status as Wire>::decode(j) is Some,
        ensures
            <Status as Wire>::decode(j).unwrap().text is Missing <==> j.member("text"@) is None,
            <Status as Wire>::decode(j).unwrap().text is Null <==> j.member("text"@) == Some(JsonView::Null),
            <Status as Wire>::decode(j).unwrap().presence is Missing <==> j.member("presence"@) is None,
            <Status as Wire>::decode(j).unwrap().presence is Null <==> j.member("presence"@) == Some(JsonView::Null),
    {
    }

    /// What a document leaves out, the value read from it leaves out again
    /// when it is written, and nothing else; and what is `null` in the document
    /// is written as `null` again, and nothing else.
    pub proof fn lemma_omitted_stays_omitted(j: JsonView)
        requires
            <Status as Wire>::decode(j) is Some,
        ensures
            j.member("text"@) is None <==> <Status as Wire>::encode(<Status as Wire>::decode(j).unwrap()).member(
                "text"@,
            ) is None,
            j.member("text"@) == Some(JsonView::Null) <==> <Status as Wire>::encode(
                <Status as Wire>::decode(j).unwrap(),
            ).member("text"@) == Some(JsonView::Null),
            j.member("presence"@) is None <==> <Status as Wire>::encode(<Status as Wire>::decode(j).unwrap()).member(
                "presence"@,
            ) is None,
            j.member("presence"@) == Some(JsonView::Null) <==> <Status as Wire>::encode(
                <Status as Wire>::decode(j).unwrap(),
            ).member("presence"@) == Some(JsonView::Null),
    {
        Self::lemma_decoded_missing(j);
        Self::lemma_encoded_members(<Status as Wire>::decode(j).unwrap());
    }
}

impl Wire for Status {
    open spec fn encode(v: StatusView) -> JsonView {
        JsonView::Object(Self::members(v))
    }

    open spec fn decode(j: JsonView) -> Option<StatusView> {
        let text = optional::<String>(j, "text"@);
        let presence = optional::<StatusPresence>(j, "presence"@);
        if j is Object && text is Some && presence is Some {
            Some(
                StatusView {
                    text: text.unwrap(),
                    presence: presence.unwrap(),
                },
            )
        } else {
            None
        }
    }

    proof fn lemma_decode_encode(v: StatusView) {
        Self::lemma_encoded_members(v);
        let j = Self::encode(v);
        lemma_optional_of_written::<String>(j, "text"@, v.text);
        lemma_optional_of_written::<StatusPresence>(j, "presence"@, v.presence);
    }

    fn to_json(&self) -> (j: Json) {
        let mut members: Vec<(String, Json)> = Vec::new();
        put_optional::<String>(&mut members, "text", &self.text);
        put_optional::<StatusPresence>(&mut members, "presence", &self.presence);
        Json::Object(members)
    }

    fn from_json(j: &Json) -> (r: Option<Status>) {
        if !j.is_object() {
            return None;
        }
        let text = read_optional::<String>(j, "text")?;
        let presence = read_optional::<StatusPresence>(j, "presence")?;
        Some(Status { text, presence })
    }
}

/// An account.
#[derive(Debug, PartialEq)]
pub struct User {
    pub id: String,
    pub username: String,
    pub avatar: Field<Attachment>,
    pub relations: Field<Vec<Relationship>>,
    /// The badges of the account, as a bit mask.
    pub badges: Field<i32>,
    pub status: Field<Status>,
    /// How the caller stands to this user.
    pub relationship: Field<RelationshipStatus>,
    pub online: Field<bool>,
    pub flags: Field<i32>,
    pub bot: Field<String>,
}

/// The model of a [`User`].
pub struct UserView {
    pub id: Seq<char>,
    pub username: Seq<char>,
    pub avatar: Field<AttachmentView>,
    pub relations: Field<Seq<RelationshipView>>,
    pub badges: Field<i32>,
    pub status: Field<StatusView>,
    pub relationship: Field<RelationshipStatus>,
    pub online: Field<bool>,
    pub flags: Field<i32>,
    pub bot: Field<Seq<char>>,
}

impl DeepView for User {
    type V = UserView;

    open spec fn deep_view(&self) -> UserView {
        UserView {
            id: self.id.deep_view(),
            username: self.username.deep_view(),
            avatar: self.avatar.deep_view(),
            relations: self.relations.deep_view(),
            badges: self.badges.deep_view(),
            status: self.status.deep_view(),
            relationship: self.relationship.deep_view(),
            online: self.online.deep_view(),
            flags: self.flags.deep_view(),
            bot: self.bot.deep_view(),
        }
    }
}

impl User {
    /// The members that the value is written with. A field that is missing adds
    /// none.
    pub open spec fn members(v: UserView) -> Members {
        let m: Members = Map::empty();
        let m = with::<String>(m, "_id"@, v.id);
        let m = with::<String>(m, "username"@, v.username);
        let m = with_optional::<Attachment>(m, "avatar"@, v.avatar);
        let m = with_optional::<Vec<Relationship>>(m, "relations"@, v.relations);
        let m = with_optional::<i32>(m, "badges"@, v.badges);
        let m = with_optional::<Status>(m, "status"@, v.status);
        let m = with_optional::<RelationshipStatus>(m, "relationship"@, v.relationship);
        let m = with_optional::<bool>(m, "online"@, v.online);
        let m = with_optional::<i32>(m, "flags"@, v.flags);
        let m = with_optional::<String>(m, "bot"@, v.bot);
        m
    }

    /// The keys, by their lengths and the characters that tell them apart.
    proof fn lemma_keys()
        ensures
            "_id"@.len() == 3 && "_id"@[0] == '_',
            "username"@.len() == 8,
            "avatar"@.len() == 6 && "avatar"@[0] == 'a',
            "relations"@.len() == 9,
            "badges"@.len() == 6 && "badges"@[0] == 'b',
            "status"@.len() == 6 && "status"@[0] == 's',
            "relationship"@.len() == 12,
            "online"@.len() == 6 && "online"@[0] == 'o',
            "flags"@.len() == 5,
            "bot"@.len() == 3 && "bot"@[0] == 'b',
    {
        reveal_strlit("_id");
        reveal_strlit("username");
        reveal_strlit("avatar");
        reveal_strlit("relations");
        reveal_strlit("badges");
        reveal_strlit("status");
        reveal_strlit("relationship");
        reveal_strlit("online");
        reveal_strlit("flags");
        reveal_strlit("bot");
    }

    /// Each field is written under its own key, a field that is missing is
    /// written as no member at all, and no other key is written.
    pub proof fn lemma_encoded_members(v: UserView)
        ensures
            <User as Wire>::encode(v) is Object,
            <User as Wire>::encode(v).member("_id"@) == Some(<String as Wire>::encode(v.id)),
            <User as Wire>::encode(v).member("username"@) == Some(<String as Wire>::encode(v.username)),
            <User as Wire>::encode(v).member("avatar"@) == written::<Attachment>(v.avatar),
            <User as Wire>::encode(v).member("relations"@) == written::<Vec<Relationship>>(v.relations),
            <User as Wire>::encode(v).member("badges"@) == written::<i32>(v.badges),
            <User as Wire>::encode(v).member("status"@) == written::<Status>(v.status),
            <User as Wire>::encode(v).member("relationship"@) == written::<RelationshipStatus>(v.relationship),
            <User as Wire>::encode(v).member("online"@) == written::<bool>(v.online),
            <User as Wire>::encode(v).member("flags"@) == written::<i32>(v.flags),
            <User as Wire>::encode(v).member("bot"@) == written::<String>(v.bot),
            forall|k: Seq<char>|
                (#[trigger] <User as Wire>::encode(v).member(k)) is Some ==> {
                    ||| k == "_id"@
                    ||| k == "username"@
                    ||| k == "avatar"@
                    ||| k == "relations"@
                    ||| k == "badges"@
                    ||| k == "status"@
                    ||| k == "relationship"@
                    ||| k == "online"@
                    ||| k == "flags"@
                    ||| k == "bot"@
                },
    {
        broadcast use {lemma_lookup_with, lemma_lookup_with_optional};

        Self::lemma_keys();
    }

    /// A document that is read and lacks the key of an optional field gives a
    /// missing field, and only such a document does. A member that is `null`
    /// gives the null field, and only such a member does.
    pub proof fn lemma_decoded_missing(j: JsonView)
        requires
            <User as Wire>::decode(j) is Some,
        ensures
            <User as Wire>::decode(j).unwrap().avatar is Missing <==> j.member("avatar"@) is None,
            <User as Wire>::decode(j).unwrap().avatar is Null <==> j.member("avatar"@) == Some(JsonView::Null),
            <User as Wire>::decode(j).unwrap().relations is Missing <==> j.member("relations"@) is None,
            <User as Wire>::decode(j).unwrap().relations is Null <==> j.member("relations"@) == Some(JsonView::Null),
            <User as Wire>::decode(j).unwrap().badges is Missing <==> j.member("badges"@) is None,
            <User as Wire>::decode(j).unwrap().badges is Null <==> j.member("badges"@) == Some(JsonView::Null),
            <User as Wire>::decode(j).unwrap().status is Missing <==> j.member("status"@) is None,
            <User as Wire>::decode(j).unwrap().status is Null <==> j.member("status"@) == Some(JsonView::Null),
            <User as Wire>::decode(j).unwrap().relationship is Missing <==> j.member("relationship"@) is None,
            <User as Wire>::decode(j).unwrap().relationship is Null <==> j.member("relationship"@) == Some(JsonView::Null),
            <User as Wire>::decode(j).unwrap().online is Missing <==> j.member("online"@) is None,
            <User as Wire>::decode(j).unwrap().online is Null <==> j.member("online"@) == Some(JsonView::Null),
            <User as Wire>::decode(j).unwrap().flags is Missing <==> j.member("flags"@) is None,
            <User as Wire>::decode(j).unwrap().flags is Null <==> j.member("flags"@) == Some(JsonView::Null),
            <User as Wire>::decode(j).unwrap().bot is Missing <==> j.member("bot"@) is None,
            <User as Wire>::decode(j).unwrap().bot is Null <==> j.member("bot"@) == Some(JsonView::Null),
    {
    }

    /// What a document leaves out, the value read from it leaves out again
    /// when it is written, and nothing else; and what is `null` in the document
    /// is written as `null` again, and nothing else.
    pub proof fn lemma_omitted_stays_omitted(j: JsonView)
        requires
            <User as Wire>::decode(j) is Some,
        ensures
            j.member("avatar"@) is None <==> <User as Wire>::encode(<User as Wire>::decode(j).unwrap()).member(
                "avatar"@,
            ) is None,
            j.member("avatar"@) == Some(JsonView::Null) <==> <User as Wire>::encode(
                <User as Wire>::decode(j).unwrap(),
            ).member("avatar"@) == Some(JsonView::Null),
            j.member("relations"@) is None <==> <User as Wire>::encode(<User as Wire>::decode(j).unwrap()).member(
                "relations"@,
            ) is None,
            j.member("relations"@) == Some(JsonView::Null) <==> <User as Wire>::encode(
                <User as Wire>::decode(j).unwrap(),
            ).member("relations"@) == Some(JsonView::Null),
            j.member("badges"@) is None <==> <User as Wire>::encode(<User as Wire>::decode(j).unwrap()).member(
                "badges"@,
            ) is None,
            j.member("badges"@) == Some(JsonView::Null) <==> <User as Wire>::encode(
                <User as Wire>::decode(j).unwrap(),
            ).member("badges"@) == Some(JsonView::Null),
            j.member("status"@) is None <==> <User as Wire>::encode(<User as Wire>::decode(j).unwrap()).member(
                "status"@,
            ) is None,
            j.member("status"@) == Some(JsonView::Null) <==> <User as Wire>::encode(
                <User as Wire>::decode(j).unwrap(),
            ).member("status"@) == Some(JsonView::Null),
            j.member("relationship"@) is None <==> <User as Wire>::encode(<User as Wire>::decode(j).unwrap()).member(
                "relationship"@,
            ) is None,
            j.member("relationship"@) == Some(JsonView::Null) <==> <User as Wire>::encode(
                <User as Wire>::decode(j).unwrap(),
            ).member("relationship"@) == Some(JsonView::Null),
            j.member("online"@) is None <==> <User as Wire>::encode(<User as Wire>::decode(j).unwrap()).member(
                "online"@,
            ) is None,
            j.member("online"@) == Some(JsonView::Null) <==> <User as Wire>::encode(
                <User as Wire>::decode(j).unwrap(),
            ).member("online"@) == Some(JsonView::Null),
            j.member("flags"@) is None <==> <User as Wire>::encode(<User as Wire>::decode(j).unwrap()).member(
                "flags"@,
            ) is None,
            j.member("flags"@) == Some(JsonView::Null) <==> <User as Wire>::encode(
                <User as Wire>::decode(j).unwrap(),
            ).member("flags"@) == Some(JsonView::Null),
            j.member("bot"@) is None <==> <User as Wire>::encode(<User as Wire>::decode(j).unwrap()).member(
                "bot"@,
            ) is None,
            j.member("bot"@) == Some(JsonView::Null) <==> <User as Wire>::encode(
                <User as Wire>::decode(j).unwrap(),
            ).member("bot"@) == Some(JsonView::Null),
    {
        Self::lemma_decoded_missing(j);
        Self::lemma_encoded_members(<User as Wire>::decode(j).unwrap());
    }
}

impl Wire for User {
    open spec fn encode(v: UserView) -> JsonView {
        JsonView::Object(Self::members(v))
    }

    open spec fn decode(j: JsonView) -> Option<UserView> {
        let id = required::<String>(j, "_id"@);
        let username = required::<String>(j, "username"@);
        let avatar = optional::<Attachment>(j, "avatar"@);
        let relations = optional::<Vec<Relationship>>(j, "relations"@);
        let badges = optional::<i32>(j, "badges"@);
        let status = optional::<Status>(j, "status"@);
        let relationship = optional::<RelationshipStatus>(j, "relationship"@);
        let online = optional::<bool>(j, "online"@);
        let flags = optional::<i32>(j, "flags"@);
        let bot = optional::<String>(j, "bot"@);
        if j is Object && id is Some && username is Some && avatar is Some && relations is Some && badges is Some && status is Some && relationship is Some && online is Some && flags is Some && bot is Some {
            Some(
                UserView {
                    id: id.unwrap(),
                    username: username.unwrap(),
                    avatar: avatar.unwrap(),
                    relations: relations.unwrap(),
                    badges: badges.unwrap(),
                    status: status.unwrap(),
                    relationship: relationship.unwrap(),
                    online: online.unwrap(),
                    flags: flags.unwrap(),
                    bot: bot.unwrap(),
                },
            )
        } else {
            None
        }
    }

    proof fn lemma_decode_encode(v: UserView) {
        Self::lemma_encoded_members(v);
        let j = Self::encode(v);
        lemma_required_of_written::<String>(j, "_id"@, v.id);
        lemma_required_of_written::<String>(j, "username"@, v.username);
        lemma_optional_of_written::<Attachment>(j, "avatar"@, v.avatar);
        lemma_optional_of_written::<Vec<Relationship>>(j, "relations"@, v.relations);
        lemma_optional_of_written::<i32>(j, "badges"@, v.badges);
        lemma_optional_of_written::<Status>(j, "status"@, v.status);
        lemma_optional_of_written::<RelationshipStatus>(j, "relationship"@, v.relationship);
        lemma_optional_of_written::<bool>(j, "online"@, v.online);
        lemma_optional_of_written::<i32>(j, "flags"@, v.flags);
        lemma_optional_of_written::<String>(j, "bot"@, v.bot);
    }

    fn to_json(&self) -> (j: Json) {
        let mut members: Vec<(String, Json)> = Vec::new();
        put::<String>(&mut members, "_id", &self.id);
        put::<String>(&mut members, "username", &self.username);
        put_optional::<Attachment>(&mut members, "avatar", &self.avatar);
        put_optional::<Vec<Relationship>>(&mut members, "relations", &self.relations);
        put_optional::<i32>(&mut members, "badges", &self.badges);
        put_optional::<Status>(&mut members, "status", &self.status);
        put_optional::<RelationshipStatus>(&mut members, "relationship", &self.relationship);
        put_optional::<bool>(&mut members, "online", &self.online);
        put_optional::<i32>(&mut members, "flags", &self.flags);
        put_optional::<String>(&mut members, "bot", &self.bot);
        Json::Object(members)
    }

    fn from_json(j: &Json) -> (r: Option<User>) {
        if !j.is_object() {
            return None;
        }
        let id = read::<String>(j, "_id")?;
        let username = read::<String>(j, "username")?;
        let avatar = read_optional::<Attachment>(j, "avatar")?;
        let relations = read_optional::<Vec<Relationship>>(j, "relations")?;
        let badges = read_optional::<i32>(j, "badges")?;
        let status = read_optional::<Status>(j, "status")?;
        let relationship = read_optional::<RelationshipStatus>(j, "relationship")?;
        let online = read_optional::<bool>(j, "online")?;
        let flags = read_optional::<i32>(j, "flags")?;
        let bot = read_optional::<String>(j, "bot")?;
        Some(User { id, username, avatar, relations, badges, status, relationship, online, flags, bot })
    }
}

/// The background of a profile: the id of an uploaded file, or the file
/// itself.
#[derive(Debug, PartialEq)]
pub enum ProfileTypes {
    /// The id alone.
    A(String),
    /// The whole reference.
    B(Attachment),
}

/// The model of a [`ProfileTypes`].
pub enum ProfileTypesView {
    A(Seq<char>),
    B(AttachmentView),
}

impl DeepView for ProfileTypes {
    type V = ProfileTypesView;

    open spec fn deep_view(&self) -> ProfileTypesView {
        match self {
            ProfileTypes::A(x) => ProfileTypesView::A(x.deep_view()),
            ProfileTypes::B(x) => ProfileTypesView::B(x.deep_view()),
        }
    }
}

impl Wire for ProfileTypes {
    /// Either form is written as it is, with nothing that says which it is.
    open spec fn encode(v: ProfileTypesView) -> JsonView {
        match v {
            ProfileTypesView::A(x) => <String as Wire>::encode(x),
            ProfileTypesView::B(x) => <Attachment as Wire>::encode(x),
        }
    }

    /// The forms are tried in the order of their declaration, and the first
    /// that reads the document is taken.
    open spec fn decode(j: JsonView) -> Option<ProfileTypesView> {
        match <String as Wire>::decode(j) {
            Some(x) => Some(ProfileTypesView::A(x)),
            None => match <Attachment as Wire>::decode(j) {
                Some(x) => Some(ProfileTypesView::B(x)),
                None => None,
            },
        }
    }

    proof fn lemma_decode_encode(v: ProfileTypesView) {
        match v {
            ProfileTypesView::A(x) => {
                <String as Wire>::lemma_decode_encode(x);
            },
            ProfileTypesView::B(x) => {
                <Attachment as Wire>::lemma_decode_encode(x);
                Attachment::lemma_encoded_members(x);
            },
        }
    }

    fn to_json(&self) -> (j: Json) {
        match self {
            ProfileTypes::A(x) => x.to_json(),
            ProfileTypes::B(x) => x.to_json(),
        }
    }

    fn from_json(j: &Json) -> (r: Option<ProfileTypes>) {
        match <String as Wire>::from_json(j) {
            Some(x) => Some(ProfileTypes::A(x)),
            None => match <Attachment as Wire>::from_json(j) {
                Some(x) => Some(ProfileTypes::B(x)),
                None => None,
            },
        }
    }
}

impl ProfileTypes {
    /// A bare text is read as the text form, whatever it holds.
    pub proof fn lemma_text_reads_as_text(s: Seq<char>)
        ensures
            <ProfileTypes as Wire>::decode(JsonView::Text(s)) == Some(ProfileTypesView::A(s)),
    {
    }

    /// An object is read as the structured form, or not at all.
    pub proof fn lemma_object_reads_as_structured(j: JsonView)
        requires
            j is Object,
        ensures
            <ProfileTypes as Wire>::decode(j) == match <Attachment as Wire>::decode(j) {
                Some(x) => Some(ProfileTypesView::B(x)),
                None => None,
            },
    {
    }
}

/// The profile of a user.
#[derive(Debug, PartialEq)]
pub struct Profile {
    pub content: Field<String>,
    pub background: Field<ProfileTypes>,
}

/// The model of a [`Profile`].
pub struct ProfileView {
    pub content: Field<Seq<char>>,
    pub background: Field<ProfileTypesView>,
}

impl DeepView for Profile {
    type V = ProfileView;

    open spec fn deep_view(&self) -> ProfileView {
        ProfileView {
            content: self.content.deep_view(),
            background: self.background.deep_view(),
        }
    }
}

impl Profile {
    /// The members that the value is written with. A field that is missing adds
    /// none.
    pub open spec fn members(v: ProfileView) -> Members {
        let m: Members = Map::empty();
        let m = with_optional::<String>(m, "content"@, v.content);
        let m = with_optional::<ProfileTypes>(m, "background"@, v.background);
        m
    }

    /// The keys, by their lengths and the characters that tell them apart.
    proof fn lemma_keys()
        ensures
            "content"@.len() == 7,
            "background"@.len() == 10,
    {
        reveal_strlit("content");
        reveal_strlit("background");
    }

    /// Each field is written under its own key, a field that is missing is
    /// written as no member at all, and no other key is written.
    pub proof fn lemma_encoded_members(v: ProfileView)
        ensures
            <Profile as Wire>::encode(v) is Object,
            <Profile as Wire>::encode(v).member("content"@) == written::<String>(v.content),
            <Profile as Wire>::encode(v).member("background"@) == written::<ProfileTypes>(v.background),
            forall|k: Seq<char>|
                (#[trigger] <Profile as Wire>::encode(v).member(k)) is Some ==> {
                    ||| k == "content"@
                    ||| k == "background"@
                },
    {
        broadcast use lemma_lookup_with_optional;

        Self::lemma_keys();
    }

    /// A document that is read and lacks the key of an optional field gives a
    /// missing field, and only such a document does. A member that is `null`
    /// gives the null field, and only such a member does.
    pub proof fn lemma_decoded_missing(j: JsonView)
        requires
            <Profile as Wire>::decode(j) is Some,
        ensures
            <Profile as Wire>::decode(j).unwrap().content is Missing <==> j.member("content"@) is None,
            <Profile as Wire>::decode(j).unwrap().content is Null <==> j.member("content"@) == Some(JsonView::Null),
            <Profile as Wire>::decode(j).unwrap().background is Missing <==> j.member("background"@) is None,
            <Profile as Wire>::decode(j).unwrap().background is Null <==> j.member("background"@) == Some(JsonView::Null),
    {
    }

    /// What a document leaves out, the value read from it leaves out again
    /// when it is written, and nothing else; and what is `null` in the document
    /// is written as `null` again, and nothing else.
    pub proof fn lemma_omitted_stays_omitted(j: JsonView)
        requires
            <Profile as Wire>::decode(j) is Some,
        ensures
            j.member("content"@) is None <==> <Profile as Wire>::encode(<Profile as Wire>::decode(j).unwrap()).member(
                "content"@,
            ) is None,
            j.member("content"@) == Some(JsonView::Null) <==> <Profile as Wire>::encode(
                <Profile as Wire>::decode(j).unwrap(),
            ).member("content"@) == Some(JsonView::Null),
            j.member("background"@) is None <==> <Profile as Wire>::encode(<Profile as Wire>::decode(j).unwrap()).member(
                "background"@,
            ) is None,
            j.member("background"@) == Some(JsonView::Null) <==> <Profile as Wire>::encode(
                <Profile as Wire>::decode(j).unwrap(),
            ).member("background"@) == Some(JsonView::Null),
    {
        Self::lemma_decoded_missing(j);
        Self::lemma_encoded_members(<Profile as Wire>::decode(j).unwrap());
    }
}

impl Wire for Profile {
    open spec fn encode(v: ProfileView) -> JsonView {
        JsonView::Object(Self::members(v))
    }

    open spec fn decode(j: JsonView) -> Option<ProfileView> {
        let content = optional::<String>(j, "content"@);
        let background = optional::<ProfileTypes>(j, "background"@);
        if j is Object && content is Some && background is Some {
            Some(
                ProfileView {
                    content: content.unwrap(),
                    background: background.unwrap(),
                },
            )
        } else {
            None
        }
    }

    proof fn lemma_decode_encode(v: ProfileView) {
        Self::lemma_encoded_members(v);
        let j = Self::encode(v);
        lemma_optional_of_written::<String>(j, "content"@, v.content);
        lemma_optional_of_written::<ProfileTypes>(j, "background"@, v.background);
    }

    fn to_json(&self) -> (j: Json) {
        let mut members: Vec<(String, Json)> = Vec::new();
        put_optional::<String>(&mut members, "content", &self.content);
        put_optional::<ProfileTypes>(&mut members, "background", &self.background);
        Json::Object(members)
    }

    fn from_json(j: &Json) -> (r: Option<Profile>) {
        if !j.is_object() {
            return None;
        }
        let content = read_optional::<String>(j, "content")?;
        let background = read_optional::<ProfileTypes>(j, "background")?;
        Some(Profile { content, background })
    }
}

} // verus!
