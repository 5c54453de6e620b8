//! Messages and what they carry.

use crate::data::autumn::{Attachment, AttachmentView};
use crate::data::server::{Member, MemberView};
use crate::data::user::{User, UserView};
use crate::text::same_text;
use crate::json::{lemma_last_at, view_of_members, Json, JsonView};
use crate::wire::{
    lemma_lookup_with, lemma_lookup_with_optional, lemma_optional_of_written,
    lemma_required_of_written, optional, put, put_optional, read, read_optional, required, with,
    with_optional, written, Field, Members, Wire,
};
use vstd::prelude::*;

verus! {

/// A preview of the last message of a channel.
#[derive(Debug, PartialEq)]
pub struct LastMessage {
    pub id: String,
    pub author: String,
    /// The beginning of the text.
    pub short: String,
}

/// The model of a [`LastMessage`].
pub struct LastMessageView {
    pub id: Seq<char>,
    pub author: Seq<char>,
    pub short: Seq<char>,
}

impl DeepView for LastMessage {
    type V = LastMessageView;

    open spec fn deep_view(&self) -> LastMessageView {
        LastMessageView {
            id: self.id.deep_view(),
            author: self.author.deep_view(),
            short: self.short.deep_view(),
        }
    }
}

impl LastMessage {
    /// The members that the value is written with. A field that is missing adds
    /// none.
    pub open spec fn members(v: LastMessageView) -> Members {
        let m: Members = Map::empty();
        let m = with::<String>(m, "_id"@, v.id);
        let m = with::<String>(m, "author"@, v.author);
        let m = with::<String>(m, "short"@, v.short);
        m
    }

    /// The keys, by their lengths and the characters that tell them apart.
    proof fn lemma_keys()
        ensures
            "_id"@.len() == 3,
            "author"@.len() == 6,
            "short"@.len() == 5,
    {
        reveal_strlit("_id");
        reveal_strlit("author");
        reveal_strlit("short");
    }

    /// Each field is written under its own key, a field that is missing is
    /// written as no member at all, and no other key is written.
    pub proof fn lemma_encoded_members(v: LastMessageView)
        ensures
            <LastMessage as Wire>::encode(v) is Object,
            <LastMessage as Wire>::encode(v).member("_id"@) == Some(<String as Wire>::encode(v.id)),
            <LastMessage as Wire>::encode(v).member("author"@) == Some(<String as Wire>::encode(v.author)),
            <LastMessage as Wire>::encode(v).member("short"@) == Some(<String as Wire>::encode(v.short)),
            forall|k: Seq<char>|
                (#[trigger] <LastMessage as Wire>::encode(v).member(k)) is Some ==> {
                    ||| k == "_id"@
                    ||| k == "author"@
                    ||| k == "short"@
                },
    {
        broadcast use lemma_lookup_with;

        Self::lemma_keys();
    }
}

impl Wire for LastMessage {
    open spec fn encode(v: LastMessageView) -> JsonView {
        JsonView::Object(Self::members(v))
    }

    open spec fn decode(j: JsonView) -> Option<LastMessageView> {
        let id = required::<String>(j, "_id"@);
        let author = required::<String>(j, "author"@);
        let short = required::<String>(j, "short"@);
        if j is Object && id is Some && author is Some && short is Some {
            Some(
                LastMessageView {
                    id: id.unwrap(),
                    author: author.unwrap(),
                    short: short.unwrap(),
                },
            )
        } else {
            None
        }
    }

    proof fn lemma_decode_encode(v: LastMessageView) {
        Self::lemma_encoded_members(v);
        let j = Self::encode(v);
        lemma_required_of_written::<String>(j, "_id"@, v.id);
        lemma_required_of_written::<String>(j, "author"@, v.author);
        lemma_required_of_written::<String>(j, "short"@, v.short);
    }

    fn to_json(&self) -> (j: Json) {
        let mut members: Vec<(String, Json)> = Vec::new();
        put::<String>(&mut members, "_id", &self.id);
        put::<String>(&mut members, "author", &self.author);
        put::<String>(&mut members, "short", &self.short);
        Json::Object(members)
    }

    fn from_json(j: &Json) -> (r: Option<LastMessage>) {
        if !j.is_object() {
            return None;
        }
        let id = read::<String>(j, "_id")?;
        let author = read::<String>(j, "author")?;
        let short = read::<String>(j, "short")?;
        Some(LastMessage { id, author, short })
    }
}

/// The last message of a channel: a preview, or the id of the message.
#[derive(Debug, PartialEq)]
pub enum LastMessageType {
    /// The preview.
    A(LastMessage),
    /// The id alone.
    B(String),
}

/// The model of a [`LastMessageType`].
pub enum LastMessageTypeView {
    A(LastMessageView),
    B(Seq<char>),
}

impl DeepView for LastMessageType {
    type V = LastMessageTypeView;

    open spec fn deep_view(&self) -> LastMessageTypeView {
        match self {
            LastMessageType::A(x) => LastMessageTypeView::A(x.deep_view()),
            LastMessageType::B(x) => LastMessageTypeView::B(x.deep_view()),
        }
    }
}

impl Wire for LastMessageType {
    /// Either form is written as it is, with nothing that says which it is.
    open spec fn encode(v: LastMessageTypeView) -> JsonView {
        match v {
            LastMessageTypeView::A(x) => <LastMessage as Wire>::encode(x),
            LastMessageTypeView::B(x) => <String as Wire>::encode(x),
        }
    }

    /// The forms are tried in the order of their declaration, and the first
    /// that reads the document is taken.
    open spec fn decode(j: JsonView) -> Option<LastMessageTypeView> {
        match <LastMessage as Wire>::decode(j) {
            Some(x) => Some(LastMessageTypeView::A(x)),
            None => match <String as Wire>::decode(j) {
                Some(x) => Some(LastMessageTypeView::B(x)),
                None => None,
            },
        }
    }

    proof fn lemma_decode_encode(v: LastMessageTypeView) {
        match v {
            LastMessageTypeView::A(x) => {
                <LastMessage as Wire>::lemma_decode_encode(x);
            },
            LastMessageTypeView::B(x) => {
                <String as Wire>::lemma_decode_encode(x);
            },
        }
    }

    fn to_json(&self) -> (j: Json) {
        match self {
            LastMessageType::A(x) => x.to_json(),
            LastMessageType::B(x) => x.to_json(),
        }
    }

    fn from_json(j: &Json) -> (r: Option<LastMessageType>) {
        match <LastMessage as Wire>::from_json(j) {
            Some(x) => Some(LastMessageType::A(x)),
            None => match <String as Wire>::from_json(j) {
                Some(x) => Some(LastMessageType::B(x)),
                None => None,
            },
        }
    }
}

impl LastMessageType {
    /// A bare text is read as the text form, whatever it holds.
    pub proof fn lemma_text_reads_as_text(s: Seq<char>)
        ensures
            <LastMessageType as Wire>::decode(JsonView::Text(s)) == Some(LastMessageTypeView::B(s)),
    {
    }

    /// An object is read as the structured form, or not at all.
    pub proof fn lemma_object_reads_as_structured(j: JsonView)
        requires
            j is Object,
        ensures
            <LastMessageType as Wire>::decode(j) == match <LastMessage as Wire>::decode(j) {
                Some(x) => Some(LastMessageTypeView::A(x)),
                None => None,
            },
    {
    }
}

/// What a message of the system says: the kind of the event and whom it is
/// about.
#[derive(Debug, PartialEq)]
pub struct MessageContent {
    /// The kind of the event. The service adds kinds over time, so the field
    /// takes any text.
    pub message_type: String,
    pub name: Field<String>,
    pub id: Field<String>,
    pub by: Field<String>,
    pub content: Field<String>,
}

/// The model of a [`MessageContent`].
pub struct MessageContentView {
    pub message_type: Seq<char>,
    pub name: Field<Seq<char>>,
    pub id: Field<Seq<char>>,
    pub by: Field<Seq<char>>,
    pub content: Field<Seq<char>>,
}

impl DeepView for MessageContent {
    type V = MessageContentView;

    open spec fn deep_view(&self) -> MessageContentView {
        MessageContentView {
            message_type: self.message_type.deep_view(),
            name: self.name.deep_view(),
            id: self.id.deep_view(),
            by: self.by.deep_view(),
            content: self.content.deep_view(),
        }
    }
}

impl MessageContent {
    /// The members that the value is written with. A field that is missing adds
    /// none.
    pub open spec fn members(v: MessageContentView) -> Members {
        let m: Members = Map::empty();
        let m = with::<String>(m, "type"@, v.message_type);
        let m = with_optional::<String>(m, "name"@, v.name);
        let m = with_optional::<String>(m, "id"@, v.id);
        let m = with_optional::<String>(m, "by"@, v.by);
        let m = with_optional::<String>(m, "content"@, v.content);
        m
    }

    /// The keys, by their lengths and the characters that tell them apart.
    proof fn lemma_keys()
        ensures
            "type"@.len() == 4 && "type"@[0] == 't',
            "name"@.len() == 4 && "name"@[0] == 'n',
            "id"@.len() == 2 && "id"@[0] == 'i',
            "by"@.len() == 2 && "by"@[0] == 'b',
            "content"@.len() == 7,
    {
        reveal_strlit("type");
        reveal_strlit("name");
        reveal_strlit("id");
        reveal_strlit("by");
        reveal_strlit("content");
    }

    /// Each field is written under its own key, a field that is missing is
    /// written as no member at all, and no other key is written.
    pub proof fn lemma_encoded_members(v: MessageContentView)
        ensures
            <MessageContent as Wire>::encode(v) is Object,
            <MessageContent as Wire>::encode(v).member("type"@) == Some(<String as Wire>::encode(v.message_type)),
            <MessageContent as Wire>::encode(v).member("name"@) == written::<String>(v.name),
            <MessageContent as Wire>::encode(v).member("id"@) == written::<String>(v.id),
            <MessageContent as Wire>::encode(v).member("by"@) == written::<String>(v.by),
            <MessageContent as Wire>::encode(v).member("content"@) == written::<String>(v.content),
            forall|k: Seq<char>|
                (#[trigger] <MessageContent as Wire>::encode(v).member(k)) is Some ==> {
                    ||| k == "type"@
                    ||| k == "name"@
                    ||| k == "id"@
                    ||| k == "by"@
                    ||| k == "content"@
                },
    {
        broadcast use {lemma_lookup_with, lemma_lookup_with_optional};

        Self::lemma_keys();
    }

    /// A document that is read and lacks the key of an optional field gives a
    /// missing field, and only such a document does. A member that is `null`
    /// gives the null field, and only such a member does.
    pub proof fn lemma_decoded_missing(j: JsonView)
        requires
            <MessageContent as Wire>::decode(j) is Some,
        ensures
            <MessageContent as Wire>::decode(j).unwrap().name is Missing <==> j.member("name"@) is None,
            <MessageContent as Wire>::decode(j).unwrap().name is Null <==> j.member("name"@) == Some(JsonView::Null),
            <MessageContent as Wire>::decode(j).unwrap().id is Missing <==> j.member("id"@) is None,
            <MessageContent as Wire>::decode(j).unwrap().id is Null <==> j.member("id"@) == Some(JsonView::Null),
            <MessageContent as Wire>::decode(j).unwrap().by is Missing <==> j.member("by"@) is None,
            <MessageContent as Wire>::decode(j).unwrap().by is Null <==> j.member("by"@) == Some(JsonView::Null),
            <MessageContent as Wire>::decode(j).unwrap().content is Missing <==> j.member("content"@) is None,
            <MessageContent as Wire>::decode(j).unwrap().content is Null <==> j.member("content"@) == Some(JsonView::Null),
    {
    }

    /// What a document leaves out, the value read from it leaves out again
    /// when it is written, and nothing else; and what is `null` in the document
    /// is written as `null` again, and nothing else.
    pub proof fn lemma_omitted_stays_omitted(j: JsonView)
        requires
            <MessageContent as Wire>::decode(j) is Some,
        ensures
            j.member("name"@) is None <==> <MessageContent as Wire>::encode(<MessageContent as Wire>::decode(j).unwrap()).member(
                "name"@,
            ) is None,
            j.member("name"@) == Some(JsonView::Null) <==> <MessageContent as Wire>::encode(
                <MessageContent as Wire>::decode(j).unwrap(),
            ).member("name"@) == Some(JsonView::Null),
            j.member("id"@) is None <==> <MessageContent as Wire>::encode(<MessageContent as Wire>::decode(j).unwrap()).member(
                "id"@,
            ) is None,
            j.member("id"@) == Some(JsonView::Null) <==> <MessageContent as Wire>::encode(
                <MessageContent as Wire>::decode(j).unwrap(),
            ).member("id"@) == Some(JsonView::Null),
            j.member("by"@) is None <==> <MessageContent as Wire>::encode(<MessageContent as Wire>::decode(j).unwrap()).member(
                "by"@,
            ) is None,
            j.member("by"@) == Some(JsonView::Null) <==> <MessageContent as Wire>::encode(
                <MessageContent as Wire>::decode(j).unwrap(),
            ).member("by"@) == Some(JsonView::Null),
            j.member("content"@) is None <==> <MessageContent as Wire>::encode(<MessageContent as Wire>::decode(j).unwrap()).member(
                "content"@,
            ) is None,
            j.member("content"@) == Some(JsonView::Null) <==> <MessageContent as Wire>::encode(
                <MessageContent as Wire>::decode(j).unwrap(),
            ).member("content"@) == Some(JsonView::Null),
    {
        Self::lemma_decoded_missing(j);
        Self::lemma_encoded_members(<MessageContent as Wire>::decode(j).unwrap());
    }
}

impl Wire for MessageContent {
    open spec fn encode(v: MessageContentView) -> JsonView {
        JsonView::Object(Self::members(v))
    }

    open spec fn decode(j: JsonView) -> Option<MessageContentView> {
        let message_type = required::<String>(j, "type"@);
        let name = optional::<String>(j, "name"@);
        let id = optional::<String>(j, "id"@);
        let by = optional::<String>(j, "by"@);
        let content = optional::<String>(j, "content"@);
        if j is Object && message_type is Some && name is Some && id is Some && by is Some && content is Some {
            Some(
                MessageContentView {
                    message_type: message_type.unwrap(),
                    name: name.unwrap(),
                    id: id.unwrap(),
                    by: by.unwrap(),
                    content: content.unwrap(),
                },
            )
        } else {
            None
        }
    }

    proof fn lemma_decode_encode(v: MessageContentView) {
        Self::lemma_encoded_members(v);
        let j = Self::encode(v);
        lemma_required_of_written::<String>(j, "type"@, v.message_type);
        lemma_optional_of_written::<String>(j, "name"@, v.name);
        lemma_optional_of_written::<String>(j, "id"@, v.id);
        lemma_optional_of_written::<String>(j, "by"@, v.by);
        lemma_optional_of_written::<String>(j, "content"@, v.content);
    }

    fn to_json(&self) -> (j: Json) {
        let mut members: Vec<(String, Json)> = Vec::new();
        put::<String>(&mut members, "type", &self.message_type);
        put_optional::<String>(&mut members, "name", &self.name);
        put_optional::<String>(&mut members, "id", &self.id);
        put_optional::<String>(&mut members, "by", &self.by);
        put_optional::<String>(&mut members, "content", &self.content);
        Json::Object(members)
    }

    fn from_json(j: &Json) -> (r: Option<MessageContent>) {
        if !j.is_object() {
            return None;
        }
        let message_type = read::<String>(j, "type")?;
        let name = read_optional::<String>(j, "name")?;
        let id = read_optional::<String>(j, "id")?;
        let by = read_optional::<String>(j, "by")?;
        let content = read_optional::<String>(j, "content")?;
        Some(MessageContent { message_type, name, id, by, content })
    }
}

/// The content of a message: what the system says, or the text of a user.
#[derive(Debug, PartialEq)]
pub enum ContentType {
    /// A message of the system.
    A(MessageContent),
    /// Plain text.
    B(String),
}

/// The model of a [`ContentType`].
pub enum ContentTypeView {
    A(MessageContentView),
    B(Seq<char>),
}

impl DeepView for ContentType {
    type V = ContentTypeView;

    open spec fn deep_view(&self) -> ContentTypeView {
        match self {
            ContentType::A(x) => ContentTypeView::A(x.deep_view()),
            ContentType::B(x) => ContentTypeView::B(x.deep_view()),
        }
    }
}

impl Wire for ContentType {
    /// Either form is written as it is, with nothing that says which it is.
    open spec fn encode(v: ContentTypeView) -> JsonView {
        match v {
            ContentTypeView::A(x) => <MessageContent as Wire>::encode(x),
            ContentTypeView::B(x) => <String as Wire>::encode(x),
        }
    }

    /// The forms are tried in the order of their declaration, and the first
    /// that reads the document is taken.
    open spec fn decode(j: JsonView) -> Option<ContentTypeView> {
        match <MessageContent as Wire>::decode(j) {
            Some(x) => Some(ContentTypeView::A(x)),
            None => match <String as Wire>::decode(j) {
                Some(x) => Some(ContentTypeView::B(x)),
                None => None,
            },
        }
    }

    proof fn lemma_decode_encode(v: ContentTypeView) {
        match v {
            ContentTypeView::A(x) => {
                <MessageContent as Wire>::lemma_decode_encode(x);
            },
            ContentTypeView::B(x) => {
                <String as Wire>::lemma_decode_encode(x);
            },
        }
    }

    fn to_json(&self) -> (j: Json) {
        match self {
            ContentType::A(x) => x.to_json(),
            ContentType::B(x) => x.to_json(),
        }
    }

    fn from_json(j: &Json) -> (r: Option<ContentType>) {
        match <MessageContent as Wire>::from_json(j) {
            Some(x) => Some(ContentType::A(x)),
            None => match <String as Wire>::from_json(j) {
                Some(x) => Some(ContentType::B(x)),
                None => None,
            },
        }
    }
}

impl ContentType {
    /// A bare text is read as the text form, whatever it holds.
    pub proof fn lemma_text_reads_as_text(s: Seq<char>)
        ensures
            <ContentType as Wire>::decode(JsonView::Text(s)) == Some(ContentTypeView::B(s)),
    {
    }

    /// An object is read as the structured form, or not at all.
    pub proof fn lemma_object_reads_as_structured(j: JsonView)
        requires
            j is Object,
        ensures
            <ContentType as Wire>::decode(j) == match <MessageContent as Wire>::decode(j) {
                Some(x) => Some(ContentTypeView::A(x)),
                None => None,
            },
    {
    }
}

/// When a message was last edited.
#[derive(Debug, PartialEq)]
pub struct MessageEdited {
    pub date: String,
}

/// The model of a [`MessageEdited`].
pub struct MessageEditedView {
    pub date: Seq<char>,
}

impl DeepView for MessageEdited {
    type V = MessageEditedView;

    open spec fn deep_view(&self) -> MessageEditedView {
        MessageEditedView {
            date: self.date.deep_view(),
        }
    }
}

impl MessageEdited {
    /// The members that the value is written with. A field that is missing adds
    /// none.
    pub open spec fn members(v: MessageEditedView) -> Members {
        let m: Members = Map::empty();
        let m = with::<String>(m, "$date"@, v.date);
        m
    }

    /// The keys, by their lengths and the characters that tell them apart.
    proof fn lemma_keys()
        ensures
            "$date"@.len() == 5,
    {
        reveal_strlit("$date");
    }

    /// Each field is written under its own key, a field that is missing is
    /// written as no member at all, and no other key is written.
    pub proof fn lemma_encoded_members(v: MessageEditedView)
        ensures
            <MessageEdited as Wire>::encode(v) is Object,
            <MessageEdited as Wire>::encode(v).member("$date"@) == Some(<String as Wire>::encode(v.date)),
            forall|k: Seq<char>|
                (#[trigger] <MessageEdited as Wire>::encode(v).member(k)) is Some ==> {
                    ||| k == "$date"@
                },
    {
        broadcast use lemma_lookup_with;

        Self::lemma_keys();
    }
}

impl Wire for MessageEdited {
    open spec fn encode(v: MessageEditedView) -> JsonView {
        JsonView::Object(Self::members(v))
    }

    open spec fn decode(j: JsonView) -> Option<MessageEditedView> {
        let date = required::<String>(j, "$date"@);
        if j is Object && date is Some {
            Some(
                MessageEditedView {
                    date: date.unwrap(),
                },
            )
        } else {
            None
        }
    }

    proof fn lemma_decode_encode(v: MessageEditedView) {
        Self::lemma_encoded_members(v);
        let j = Self::encode(v);
        lemma_required_of_written::<String>(j, "$date"@, v.date);
    }

    fn to_json(&self) -> (j: Json) {
        let mut members: Vec<(String, Json)> = Vec::new();
        put::<String>(&mut members, "$date", &self.date);
        Json::Object(members)
    }

    fn from_json(j: &Json) -> (r: Option<MessageEdited>) {
        if !j.is_object() {
            return None;
        }
        let date = read::<String>(j, "$date")?;
        Some(MessageEdited { date })
    }
}

/// The kinds of preview.
#[derive(Clone, Copy, Debug, PartialEq, Eq)]
pub enum EmbedTypes {
    Nothing,
    Website,
    Image,
}

impl DeepView for EmbedTypes {
    type V = EmbedTypes;

    open spec fn deep_view(&self) -> EmbedTypes {
        *self
    }
}

impl EmbedTypes {
    /// The name that stands for the value on the wire.
    pub open spec fn name(self) -> Seq<char> {
        match self {
            EmbedTypes::Nothing => "None"@,
            EmbedTypes::Website => "Website"@,
            EmbedTypes::Image => "Image"@,
        }
    }

    /// The value that a name stands for; `None` for any other text.
    pub open spec fn named(s: Seq<char>) -> Option<EmbedTypes> {
        if s == "None"@ {
            Some(EmbedTypes::Nothing)
        } else if s == "Website"@ {
            Some(EmbedTypes::Website)
        } else if s == "Image"@ {
            Some(EmbedTypes::Image)
        } else {
            None
        }
    }

    /// The names, by their lengths and the characters that tell them apart.
    proof fn lemma_names()
        ensures
            "None"@.len() == 4,
            "Website"@.len() == 7,
            "Image"@.len() == 5,
    {
        reveal_strlit("None");
        reveal_strlit("Website");
        reveal_strlit("Image");
    }

    /// A text that is the name of no value is not read: the set of values is
    /// closed.
    pub proof fn lemma_unknown_name(s: Seq<char>)
        requires
            forall|v: EmbedTypes| v.name() != s,
        ensures
            <EmbedTypes as Wire>::decode(JsonView::Text(s)) is None,
    {
        assert(EmbedTypes::Nothing.name() != s);
        assert(EmbedTypes::Website.name() != s);
        assert(EmbedTypes::Image.name() != s);
    }
}

impl Wire for EmbedTypes {
    open spec fn encode(v: EmbedTypes) -> JsonView {
        JsonView::Text(v.name())
    }

    open spec fn decode(j: JsonView) -> Option<EmbedTypes> {
        match j {
            JsonView::Text(s) => Self::named(s),
            _ => None,
        }
    }

    proof fn lemma_decode_encode(v: EmbedTypes) {
        Self::lemma_names();
    }

    fn to_json(&self) -> (j: Json) {
        match self {
            EmbedTypes::Nothing => Json::Text("None".to_owned()),
            EmbedTypes::Website => Json::Text("Website".to_owned()),
            EmbedTypes::Image => Json::Text("Image".to_owned()),
        }
    }

    fn from_json(j: &Json) -> (r: Option<EmbedTypes>) {
        match j {
            Json::Text(s) => {
                if same_text(s.as_str(), "None") {
                    Some(EmbedTypes::Nothing)
                } else if same_text(s.as_str(), "Website") {
                    Some(EmbedTypes::Website)
                } else if same_text(s.as_str(), "Image") {
                    Some(EmbedTypes::Image)
                } else {
                    None
                }
            },
            _ => None,
        }
    }
}

/// The sites that a preview has a form of its own for.
#[derive(Clone, Copy, Debug, PartialEq, Eq)]
pub enum SpecialEmbedTypes {
    Nothing,
    YouTube,
    Twitch,
    Spotify,
    Soundcloud,
    Bandcamp,
}

impl DeepView for SpecialEmbedTypes {
    type V = SpecialEmbedTypes;

    open spec fn deep_view(&self) -> SpecialEmbedTypes {
        *self
    }
}

impl SpecialEmbedTypes {
    /// The name that stands for the value on the wire.
    pub open spec fn name(self) -> Seq<char> {
        match self {
            SpecialEmbedTypes::Nothing => "None"@,
            SpecialEmbedTypes::YouTube => "YouTube"@,
            SpecialEmbedTypes::Twitch => "Twitch"@,
            SpecialEmbedTypes::Spotify => "Spotify"@,
            SpecialEmbedTypes::Soundcloud => "Soundcloud"@,
            SpecialEmbedTypes::Bandcamp => "Bandcamp"@,
        }
    }

    /// The value that a name stands for; `None` for any other text.
    pub open spec fn named(s: Seq<char>) -> Option<SpecialEmbedTypes> {
        if s == "None"@ {
            Some(SpecialEmbedTypes::Nothing)
        } else if s == "YouTube"@ {
            Some(SpecialEmbedTypes::YouTube)
        } else if s == "Twitch"@ {
            Some(SpecialEmbedTypes::Twitch)
        } else if s == "Spotify"@ {
            Some(SpecialEmbedTypes::Spotify)
        } else if s == "Soundcloud"@ {
            Some(SpecialEmbedTypes::Soundcloud)
        } else if s == "Bandcamp"@ {
            Some(SpecialEmbedTypes::Bandcamp)
        } else {
            None
        }
    }

    /// The names, by their lengths and the characters that tell them apart.
    proof fn lemma_names()
        ensures
            "None"@.len() == 4,
            "YouTube"@.len() == 7 && "YouTube"@[0] == 'Y',
            "Twitch"@.len() == 6,
            "Spotify"@.len() == 7 && "Spotify"@[0] == 'S',
            "Soundcloud"@.len() == 10,
            "Bandcamp"@.len() == 8,
    {
        reveal_strlit("None");
        reveal_strlit("YouTube");
        reveal_strlit("Twitch");
        reveal_strlit("Spotify");
        reveal_strlit("Soundcloud");
        reveal_strlit("Bandcamp");
    }

    /// A text that is the name of no value is not read: the set of values is
    /// closed.
    pub proof fn lemma_unknown_name(s: Seq<char>)
        requires
            forall|v: SpecialEmbedTypes| v.name() != s,
        ensures
            <SpecialEmbedTypes as Wire>::decode(JsonView::Text(s)) is None,
    {
        assert(SpecialEmbedTypes::Nothing.name() != s);
        assert(SpecialEmbedTypes::YouTube.name() != s);
        assert(SpecialEmbedTypes::Twitch.name() != s);
        assert(SpecialEmbedTypes::Spotify.name() != s);
        assert(SpecialEmbedTypes::Soundcloud.name() != s);
        assert(SpecialEmbedTypes::Bandcamp.name() != s);
    }
}

impl Wire for SpecialEmbedTypes {
    open spec fn encode(v: SpecialEmbedTypes) -> JsonView {
        JsonView::Text(v.name())
    }

    open spec fn decode(j: JsonView) -> Option<SpecialEmbedTypes> {
        match j {
            JsonView::Text(s) => Self::named(s),
            _ => None,
        }
    }

    proof fn lemma_decode_encode(v: SpecialEmbedTypes) {
        Self::lemma_names();
    }

    fn to_json(&self) -> (j: Json) {
        match self {
            SpecialEmbedTypes::Nothing => Json::Text("None".to_owned()),
            SpecialEmbedTypes::YouTube => Json::Text("YouTube".to_owned()),
            SpecialEmbedTypes::Twitch => Json::Text("Twitch".to_owned()),
            SpecialEmbedTypes::Spotify => Json::Text("Spotify".to_owned()),
            SpecialEmbedTypes::Soundcloud => Json::Text("Soundcloud".to_owned()),
            SpecialEmbedTypes::Bandcamp => Json::Text("Bandcamp".to_owned()),
        }
    }

    fn from_json(j: &Json) -> (r: Option<SpecialEmbedTypes>) {
        match j {
            Json::Text(s) => {
                if same_text(s.as_str(), "None") {
                    Some(SpecialEmbedTypes::Nothing)
                } else if same_text(s.as_str(), "YouTube") {
                    Some(SpecialEmbedTypes::YouTube)
                } else if same_text(s.as_str(), "Twitch") {
                    Some(SpecialEmbedTypes::Twitch)
                } else if same_text(s.as_str(), "Spotify") {
                    Some(SpecialEmbedTypes::Spotify)
                } else if same_text(s.as_str(), "Soundcloud") {
                    Some(SpecialEmbedTypes::Soundcloud)
                } else if same_text(s.as_str(), "Bandcamp") {
                    Some(SpecialEmbedTypes::Bandcamp)
                } else {
                    None
                }
            },
            _ => None,
        }
    }
}

/// What a preview of such a site shows.
#[derive(Clone, Copy, Debug, PartialEq, Eq)]
pub enum SEContentTypes {
    Channel,
    Clip,
    Video,
    Album,
    Track,
}

impl DeepView for SEContentTypes {
    type V = SEContentTypes;

    open spec fn deep_view(&self) -> SEContentTypes {
        *self
    }
}

impl SEContentTypes {
    /// The name that stands for the value on the wire.
    pub open spec fn name(self) -> Seq<char> {
        match self {
            SEContentTypes::Channel => "Channel"@,
            SEContentTypes::Clip => "Clip"@,
            SEContentTypes::Video => "Video"@,
            SEContentTypes::Album => "Album"@,
            SEContentTypes::Track => "Track"@,
        }
    }

    /// The value that a name stands for; `None` for any other text.
    pub open spec fn named(s: Seq<char>) -> Option<SEContentTypes> {
        if s == "Channel"@ {
            Some(SEContentTypes::Channel)
        } else if s == "Clip"@ {
            Some(SEContentTypes::Clip)
        } else if s == "Video"@ {
            Some(SEContentTypes::Video)
        } else if s == "Album"@ {
            Some(SEContentTypes::Album)
        } else if s == "Track"@ {
            Some(SEContentTypes::Track)
        } else {
            None
        }
    }

    /// The names, by their lengths and the characters that tell them apart.
    proof fn lemma_names()
        ensures
            "Channel"@.len() == 7,
            "Clip"@.len() == 4,
            "Video"@.len() == 5 && "Video"@[0] == 'V',
            "Album"@.len() == 5 && "Album"@[0] == 'A',
            "Track"@.len() == 5 && "Track"@[0] == 'T',
    {
        reveal_strlit("Channel");
        reveal_strlit("Clip");
        reveal_strlit("Video");
        reveal_strlit("Album");
        reveal_strlit("Track");
    }

    /// A text that is the name of no value is not read: the set of values is
    /// closed.
    pub proof fn lemma_unknown_name(s: Seq<char>)
        requires
            forall|v: SEContentTypes| v.name() != s,
        ensures
            <SEContentTypes as Wire>::decode(JsonView::Text(s)) is None,
    {
        assert(SEContentTypes::Channel.name() != s);
        assert(SEContentTypes::Clip.name() != s);
        assert(SEContentTypes::Video.name() != s);
        assert(SEContentTypes::Album.name() != s);
        assert(SEContentTypes::Track.name() != s);
    }
}

impl Wire for SEContentTypes {
    open spec fn encode(v: SEContentTypes) -> JsonView {
        JsonView::Text(v.name())
    }

    open spec fn decode(j: JsonView) -> Option<SEContentTypes> {
        match j {
            JsonView::Text(s) => Self::named(s),
            _ => None,
        }
    }

    proof fn lemma_decode_encode(v: SEContentTypes) {
        Self::lemma_names();
    }

    fn to_json(&self) -> (j: Json) {
        match self {
            SEContentTypes::Channel => Json::Text("Channel".to_owned()),
            SEContentTypes::Clip => Json::Text("Clip".to_owned()),
            SEContentTypes::Video => Json::Text("Video".to_owned()),
            SEContentTypes::Album => Json::Text("Album".to_owned()),
            SEContentTypes::Track => Json::Text("Track".to_owned()),
        }
    }

    fn from_json(j: &Json) -> (r: Option<SEContentTypes>) {
        match j {
            Json::Text(s) => {
                if same_text(s.as_str(), "Channel") {
                    Some(SEContentTypes::Channel)
                } else if same_text(s.as_str(), "Clip") {
                    Some(SEContentTypes::Clip)
                } else if same_text(s.as_str(), "Video") {
                    Some(SEContentTypes::Video)
                } else if same_text(s.as_str(), "Album") {
                    Some(SEContentTypes::Album)
                } else if same_text(s.as_str(), "Track") {
                    Some(SEContentTypes::Track)
                } else {
                    None
                }
            },
            _ => None,
        }
    }
}

/// What a preview of such a site shows: one of the known kinds, or a text.
///
/// On the wire it is an object with one member, whose key says which of the
/// two it is: `A` for a known kind, `B` for a text.
#[derive(Debug, PartialEq)]
pub enum SEContentType {
    /// One of the known kinds.
    A(SEContentTypes),
    /// Any other text.
    B(String),
}

/// The model of a [`SEContentType`].
pub enum SEContentTypeView {
    A(SEContentTypes),
    B(Seq<char>),
}

impl DeepView for SEContentType {
    type V = SEContentTypeView;

    open spec fn deep_view(&self) -> SEContentTypeView {
        match self {
            SEContentType::A(x) => SEContentTypeView::A(x.deep_view()),
            SEContentType::B(x) => SEContentTypeView::B(x.deep_view()),
        }
    }
}

/// Whether `key` is the one key of the object `j`.
pub open spec fn only_key(j: JsonView, key: Seq<char>) -> bool {
    match j {
        JsonView::Object(members) => members.contains_key(key) && forall|k: Seq<char>|
            members.contains_key(k) ==> k == key,
        _ => false,
    }
}

/// Whether `key` is the one key of the object `j`.
fn has_only_key(j: &Json, key: &str) -> (r: bool)
    ensures
        r == only_key(j@, key@),
{
    match j {
        Json::Object(members) => {
            let mut i: usize = 0;
            while i < members.len()
                invariant
                    i <= members.len(),
                    j@ == JsonView::Object(view_of_members(members@)),
                    forall|n: int| 0 <= n < i ==> (#[trigger] members@[n]).0@ == key@,
                decreases members.len() - i,
            {
                if !same_text(members[i].0.as_str(), key) {
                    proof {
                        let other = members@[i as int].0@;
                        lemma_last_at(members@, other);
                    }
                    return false;
                }
                i += 1;
            }
            proof {
                lemma_last_at(members@, key@);
                assert forall|k: Seq<char>| view_of_members(members@).contains_key(k) implies k == key@ by {
                    lemma_last_at(members@, k);
                }
            }
            members.len() > 0
        },
        _ => false,
    }
}

impl SEContentType {
    /// The two keys, by their lengths and first characters.
    proof fn lemma_keys()
        ensures
            "A"@.len() == 1 && "A"@[0] == 'A',
            "B"@.len() == 1 && "B"@[0] == 'B',
    {
        reveal_strlit("A");
        reveal_strlit("B");
    }
}

impl Wire for SEContentType {
    open spec fn encode(v: SEContentTypeView) -> JsonView {
        match v {
            SEContentTypeView::A(x) => JsonView::Object(with::<SEContentTypes>(Map::empty(), "A"@, x)),
            SEContentTypeView::B(x) => JsonView::Object(with::<String>(Map::empty(), "B"@, x)),
        }
    }

    /// The object must have exactly one key, and that one of the two.
    open spec fn decode(j: JsonView) -> Option<SEContentTypeView> {
        if only_key(j, "A"@) {
            match required::<SEContentTypes>(j, "A"@) {
                Some(x) => Some(SEContentTypeView::A(x)),
                None => None,
            }
        } else if only_key(j, "B"@) {
            match required::<String>(j, "B"@) {
                Some(x) => Some(SEContentTypeView::B(x)),
                None => None,
            }
        } else {
            None
        }
    }

    proof fn lemma_decode_encode(v: SEContentTypeView) {
        reveal(with);
        Self::lemma_keys();
        match v {
            SEContentTypeView::A(x) => {
                <SEContentTypes as Wire>::lemma_decode_encode(x);
            },
            SEContentTypeView::B(x) => {},
        }
    }

    fn to_json(&self) -> (j: Json) {
        let mut members: Vec<(String, Json)> = Vec::new();
        match self {
            SEContentType::A(x) => {
                put::<SEContentTypes>(&mut members, "A", x);
            },
            SEContentType::B(x) => {
                put::<String>(&mut members, "B", x);
            },
        }
        Json::Object(members)
    }

    fn from_json(j: &Json) -> (r: Option<SEContentType>) {
        if has_only_key(j, "A") {
            match read::<SEContentTypes>(j, "A") {
                Some(x) => Some(SEContentType::A(x)),
                None => None,
            }
        } else if has_only_key(j, "B") {
            match read::<String>(j, "B") {
                Some(x) => Some(SEContentType::B(x)),
                None => None,
            }
        } else {
            None
        }
    }
}

/// The part of a preview that is particular to one site.
#[derive(Debug, PartialEq)]
pub struct SpecialEmbed {
    pub se_type: SpecialEmbedTypes,
    pub content_type: Field<SEContentType>,
    pub id: Field<String>,
}

/// The model of a [`SpecialEmbed`].
pub struct SpecialEmbedView {
    pub se_type: SpecialEmbedTypes,
    pub content_type: Field<SEContentTypeView>,
    pub id: Field<Seq<char>>,
}

impl DeepView for SpecialEmbed {
    type V = SpecialEmbedView;

    open spec fn deep_view(&self) -> SpecialEmbedView {
        SpecialEmbedView {
            se_type: self.se_type.deep_view(),
            content_type: self.content_type.deep_view(),
            id: self.id.deep_view(),
        }
    }
}

impl SpecialEmbed {
    /// The members that the value is written with. A field that is missing adds
    /// none.
    pub open spec fn members(v: SpecialEmbedView) -> Members {
        let m: Members = Map::empty();
        let m = with::<SpecialEmbedTypes>(m, "type"@, v.se_type);
        let m = with_optional::<SEContentType>(m, "content_type"@, v.content_type);
        let m = with_optional::<String>(m, "id"@, v.id);
        m
    }

    /// The keys, by their lengths and the characters that tell them apart.
    proof fn lemma_keys()
        ensures
            "type"@.len() == 4,
            "content_type"@.len() == 12,
            "id"@.len() == 2,
    {
        reveal_strlit("type");
        reveal_strlit("content_type");
        reveal_strlit("id");
    }

    /// Each field is written under its own key, a field that is missing is
    /// written as no member at all, and no other key is written.
    pub proof fn lemma_encoded_members(v: SpecialEmbedView)
        ensures
            <SpecialEmbed as Wire>::encode(v) is Object,
            <SpecialEmbed as Wire>::encode(v).member("type"@) == Some(<SpecialEmbedTypes as Wire>::encode(v.se_type)),
            <SpecialEmbed as Wire>::encode(v).member("content_type"@) == written::<SEContentType>(v.content_type),
            <SpecialEmbed as Wire>::encode(v).member("id"@) == written::<String>(v.id),
            forall|k: Seq<char>|
                (#[trigger] <SpecialEmbed as Wire>::encode(v).member(k)) is Some ==> {
                    ||| k == "type"@
                    ||| k == "content_type"@
                    ||| k == "id"@
                },
    {
        broadcast use {lemma_lookup_with, lemma_lookup_with_optional};

        Self::lemma_keys();
    }

    /// A document that is read and lacks the key of an optional field gives a
    /// missing field, and only such a document does. A member that is `null`
    /// gives the null field, and only such a member does.
    pub proof fn lemma_decoded_missing(j: JsonView)
        requires
            <SpecialEmbed as Wire>::decode(j) is Some,
        ensures
            <SpecialEmbed as Wire>::decode(j).unwrap().content_type is Missing <==> j.member("content_type"@) is None,
            <SpecialEmbed as Wire>::decode(j).unwrap().content_type is Null <==> j.member("content_type"@) == Some(JsonView::Null),
            <SpecialEmbed as Wire>::decode(j).unwrap().id is Missing <==> j.member("id"@) is None,
            <SpecialEmbed as Wire>::decode(j).unwrap().id is Null <==> j.member("id"@) == Some(JsonView::Null),
    {
    }

    /// What a document leaves out, the value read from it leaves out again
    /// when it is written, and nothing else; and what is `null` in the document
    /// is written as `null` again, and nothing else.
    pub proof fn lemma_omitted_stays_omitted(j: JsonView)
        requires
            <SpecialEmbed as Wire>::decode(j) is Some,
        ensures
            j.member("content_type"@) is None <==> <SpecialEmbed as Wire>::encode(<SpecialEmbed as Wire>::decode(j).unwrap()).member(
                "content_type"@,
            ) is None,
            j.member("content_type"@) == Some(JsonView::Null) <==> <SpecialEmbed as Wire>::encode(
                <SpecialEmbed as Wire>::decode(j).unwrap(),
            ).member("content_type"@) == Some(JsonView::Null),
            j.member("id"@) is None <==> <SpecialEmbed as Wire>::encode(<SpecialEmbed as Wire>::decode(j).unwrap()).member(
                "id"@,
            ) is None,
            j.member("id"@) == Some(JsonView::Null) <==> <SpecialEmbed as Wire>::encode(
                <SpecialEmbed as Wire>::decode(j).unwrap(),
            ).member("id"@) == Some(JsonView::Null),
    {
        Self::lemma_decoded_missing(j);
        Self::lemma_encoded_members(<SpecialEmbed as Wire>::decode(j).unwrap());
    }
}

impl Wire for SpecialEmbed {
    open spec fn encode(v: SpecialEmbedView) -> JsonView {
        JsonView::Object(Self::members(v))
    }

    open spec fn decode(j: JsonView) -> Option<SpecialEmbedView> {
        let se_type = required::<SpecialEmbedTypes>(j, "type"@);
        let content_type = optional::<SEContentType>(j, "content_type"@);
        let id = optional::<String>(j, "id"@);
        if j is Object && se_type is Some && content_type is Some && id is Some {
            Some(
                SpecialEmbedView {
                    se_type: se_type.unwrap(),
                    content_type: content_type.unwrap(),
                    id: id.unwrap(),
                },
            )
        } else {
            None
        }
    }

    proof fn lemma_decode_encode(v: SpecialEmbedView) {
        Self::lemma_encoded_members(v);
        let j = Self::encode(v);
        lemma_required_of_written::<SpecialEmbedTypes>(j, "type"@, v.se_type);
        lemma_optional_of_written::<SEContentType>(j, "content_type"@, v.content_type);
        lemma_optional_of_written::<String>(j, "id"@, v.id);
    }

    fn to_json(&self) -> (j: Json) {
        let mut members: Vec<(String, Json)> = Vec::new();
        put::<SpecialEmbedTypes>(&mut members, "type", &self.se_type);
        put_optional::<SEContentType>(&mut members, "content_type", &self.content_type);
        put_optional::<String>(&mut members, "id", &self.id);
        Json::Object(members)
    }

    fn from_json(j: &Json) -> (r: Option<SpecialEmbed>) {
        if !j.is_object() {
            return None;
        }
        let se_type = read::<SpecialEmbedTypes>(j, "type")?;
        let content_type = read_optional::<SEContentType>(j, "content_type")?;
        let id = read_optional::<String>(j, "id")?;
        Some(SpecialEmbed { se_type, content_type, id })
    }
}

/// How large a picture is shown.
#[derive(Clone, Copy, Debug, PartialEq, Eq)]
pub enum ImageSize {
    Large,
    Preview,
}

impl DeepView for ImageSize {
    type V = ImageSize;

    open spec fn deep_view(&self) -> ImageSize {
        *self
    }
}

impl ImageSize {
    /// The name that stands for the value on the wire.
    pub open spec fn name(self) -> Seq<char> {
        match self {
            ImageSize::Large => "Large"@,
            ImageSize::Preview => "Preview"@,
        }
    }

    /// The value that a name stands for; `None` for any other text.
    pub open spec fn named(s: Seq<char>) -> Option<ImageSize> {
        if s == "Large"@ {
            Some(ImageSize::Large)
        } else if s == "Preview"@ {
            Some(ImageSize::Preview)
        } else {
            None
        }
    }

    /// The names, by their lengths and the characters that tell them apart.
    proof fn lemma_names()
        ensures
            "Large"@.len() == 5,
            "Preview"@.len() == 7,
    {
        reveal_strlit("Large");
        reveal_strlit("Preview");
    }

    /// A text that is the name of no value is not read: the set of values is
    /// closed.
    pub proof fn lemma_unknown_name(s: Seq<char>)
        requires
            forall|v: ImageSize| v.name() != s,
        ensures
            <ImageSize as Wire>::decode(JsonView::Text(s)) is None,
    {
        assert(ImageSize::Large.name() != s);
        assert(ImageSize::Preview.name() != s);
    }
}

impl Wire for ImageSize {
    open spec fn encode(v: ImageSize) -> JsonView {
        JsonView::Text(v.name())
    }

    open spec fn decode(j: JsonView) -> Option<ImageSize> {
        match j {
            JsonView::Text(s) => Self::named(s),
            _ => None,
        }
    }

    proof fn lemma_decode_encode(v: ImageSize) {
        Self::lemma_names();
    }

    fn to_json(&self) -> (j: Json) {
        match self {
            ImageSize::Large => Json::Text("Large".to_owned()),
            ImageSize::Preview => Json::Text("Preview".to_owned()),
        }
    }

    fn from_json(j: &Json) -> (r: Option<ImageSize>) {
        match j {
            Json::Text(s) => {
                if same_text(s.as_str(), "Large") {
                    Some(ImageSize::Large)
                } else if same_text(s.as_str(), "Preview") {
                    Some(ImageSize::Preview)
                } else {
                    None
                }
            },
            _ => None,
        }
    }
}

/// A picture in a preview.
#[derive(Debug, PartialEq)]
pub struct Image {
    pub url: String,
    pub width: i32,
    pub height: i32,
    pub size: ImageSize,
}

/// The model of a [`Image`].
pub struct ImageView {
    pub url: Seq<char>,
    pub width: i32,
    pub height: i32,
    pub size: ImageSize,
}

impl DeepView for Image {
    type V = ImageView;

    open spec fn deep_view(&self) -> ImageView {
        ImageView {
            url: self.url.deep_view(),
            width: self.width.deep_view(),
            height: self.height.deep_view(),
            size: self.size.deep_view(),
        }
    }
}

impl Image {
    /// The members that the value is written with. A field that is missing adds
    /// none.
    pub open spec fn members(v: ImageView) -> Members {
        let m: Members = Map::empty();
        let m = with::<String>(m, "url"@, v.url);
        let m = with::<i32>(m, "width"@, v.width);
        let m = with::<i32>(m, "height"@, v.height);
        let m = with::<ImageSize>(m, "size"@, v.size);
        m
    }

    /// The keys, by their lengths and the characters that tell them apart.
    proof fn lemma_keys()
        ensures
            "url"@.len() == 3,
            "width"@.len() == 5,
            "height"@.len() == 6,
            "size"@.len() == 4,
    {
        reveal_strlit("url");
        reveal_strlit("width");
        reveal_strlit("height");
        reveal_strlit("size");
    }

    /// Each field is written under its own key, a field that is missing is
    /// written as no member at all, and no other key is written.
    pub proof fn lemma_encoded_members(v: ImageView)
        ensures
            <Image as Wire>::encode(v) is Object,
            <Image as Wire>::encode(v).member("url"@) == Some(<String as Wire>::encode(v.url)),
            <Image as Wire>::encode(v).member("width"@) == Some(<i32 as Wire>::encode(v.width)),
            <Image as Wire>::encode(v).member("height"@) == Some(<i32 as Wire>::encode(v.height)),
            <Image as Wire>::encode(v).member("size"@) == Some(<ImageSize as Wire>::encode(v.size)),
            forall|k: Seq<char>|
                (#[trigger] <Image as Wire>::encode(v).member(k)) is Some ==> {
                    ||| k == "url"@
                    ||| k == "width"@
                    ||| k == "height"@
                    ||| k == "size"@
                },
    {
        broadcast use lemma_lookup_with;

        Self::lemma_keys();
    }
}

impl Wire for Image {
    open spec fn encode(v: ImageView) -> JsonView {
        JsonView::Object(Self::members(v))
    }

    open spec fn decode(j: JsonView) -> Option<ImageView> {
        let url = required::<String>(j, "url"@);
        let width = required::<i32>(j, "width"@);
        let height = required::<i32>(j, "height"@);
        let size = required::<ImageSize>(j, "size"@);
        if j is Object && url is Some && width is Some && height is Some && size is Some {
            Some(
                ImageView {
                    url: url.unwrap(),
                    width: width.unwrap(),
                    height: height.unwrap(),
                    size: size.unwrap(),
                },
            )
        } else {
            None
        }
    }

    proof fn lemma_decode_encode(v: ImageView) {
        Self::lemma_encoded_members(v);
        let j = Self::encode(v);
        lemma_required_of_written::<String>(j, "url"@, v.url);
        lemma_required_of_written::<i32>(j, "width"@, v.width);
        lemma_required_of_written::<i32>(j, "height"@, v.height);
        lemma_required_of_written::<ImageSize>(j, "size"@, v.size);
    }

    fn to_json(&self) -> (j: Json) {
        let mut members: Vec<(String, Json)> = Vec::new();
        put::<String>(&mut members, "url", &self.url);
        put::<i32>(&mut members, "width", &self.width);
        put::<i32>(&mut members, "height", &self.height);
        put::<ImageSize>(&mut members, "size", &self.size);
        Json::Object(members)
    }

    fn from_json(j: &Json) -> (r: Option<Image>) {
        if !j.is_object() {
            return None;
        }
        let url = read::<String>(j, "url")?;
        let width = read::<i32>(j, "width")?;
        let height = read::<i32>(j, "height")?;
        let size = read::<ImageSize>(j, "size")?;
        Some(Image { url, width, height, size })
    }
}

/// A film in a preview.
#[derive(Debug, PartialEq)]
pub struct Video {
    pub url: String,
    pub width: i32,
    pub height: i32,
}

/// The model of a [`Video`].
pub struct VideoView {
    pub url: Seq<char>,
    pub width: i32,
    pub height: i32,
}

impl DeepView for Video {
    type V = VideoView;

    open spec fn deep_view(&self) -> VideoView {
        VideoView {
            url: self.url.deep_view(),
            width: self.width.deep_view(),
            height: self.height.deep_view(),
        }
    }
}

impl Video {
    /// The members that the value is written with. A field that is missing adds
    /// none.
    pub open spec fn members(v: VideoView) -> Members {
        let m: Members = Map::empty();
        let m = with::<String>(m, "url"@, v.url);
        let m = with::<i32>(m, "width"@, v.width);
        let m = with::<i32>(m, "height"@, v.height);
        m
    }

    /// The keys, by their lengths and the characters that tell them apart.
    proof fn lemma_keys()
        ensures
            "url"@.len() == 3,
            "width"@.len() == 5,
            "height"@.len() == 6,
    {
        reveal_strlit("url");
        reveal_strlit("width");
        reveal_strlit("height");
    }

    /// Each field is written under its own key, a field that is missing is
    /// written as no member at all, and no other key is written.
    pub proof fn lemma_encoded_members(v: VideoView)
        ensures
            <Video as Wire>::encode(v) is Object,
            <Video as Wire>::encode(v).member("url"@) == Some(<String as Wire>::encode(v.url)),
            <Video as Wire>::encode(v).member("width"@) == Some(<i32 as Wire>::encode(v.width)),
            <Video as Wire>::encode(v).member("height"@) == Some(<i32 as Wire>::encode(v.height)),
            forall|k: Seq<char>|
                (#[trigger] <Video as Wire>::encode(v).member(k)) is Some ==> {
                    ||| k == "url"@
                    ||| k == "width"@
                    ||| k == "height"@
                },
    {
        broadcast use lemma_lookup_with;

        Self::lemma_keys();
    }
}

impl Wire for Video {
    open spec fn encode(v: VideoView) -> JsonView {
        JsonView::Object(Self::members(v))
    }

    open spec fn decode(j: JsonView) -> Option<VideoView> {
        let url = required::<String>(j, "url"@);
        let width = required::<i32>(j, "width"@);
        let height = required::<i32>(j, "height"@);
        if j is Object && url is Some && width is Some && height is Some {
            Some(
                VideoView {
                    url: url.unwrap(),
                    width: width.unwrap(),
                    height: height.unwrap(),
                },
            )
        } else {
            None
        }
    }

    proof fn lemma_decode_encode(v: VideoView) {
        Self::lemma_encoded_members(v);
        let j = Self::encode(v);
        lemma_required_of_written::<String>(j, "url"@, v.url);
        lemma_required_of_written::<i32>(j, "width"@, v.width);
        lemma_required_of_written::<i32>(j, "height"@, v.height);
    }

    fn to_json(&self) -> (j: Json) {
        let mut members: Vec<(String, Json)> = Vec::new();
        put::<String>(&mut members, "url", &self.url);
        put::<i32>(&mut members, "width", &self.width);
        put::<i32>(&mut members, "height", &self.height);
        Json::Object(members)
    }

    fn from_json(j: &Json) -> (r: Option<Video>) {
        if !j.is_object() {
            return None;
        }
        let url = read::<String>(j, "url")?;
        let width = read::<i32>(j, "width")?;
        let height = read::<i32>(j, "height")?;
        Some(Video { url, width, height })
    }
}

/// A preview of a link in a message. Which fields are there depends on the
/// kind of preview.
#[derive(Debug, PartialEq)]
pub struct Embed {
    pub embed_type: SpecialEmbedTypes,
    pub url: Field<String>,
    pub width: Field<i32>,
    pub height: Field<i32>,
    pub size: Field<ImageSize>,
    pub special: Field<SpecialEmbed>,
    pub title: Field<String>,
    pub description: Field<String>,
    pub image: Field<Image>,
    pub video: Field<Video>,
    pub site_name: Field<String>,
    pub icon_url: Field<String>,
    pub color: Field<String>,
}

/// The model of a [`Embed`].
pub struct EmbedView {
    pub embed_type: SpecialEmbedTypes,
    pub url: Field<Seq<char>>,
    pub width: Field<i32>,
    pub height: Field<i32>,
    pub size: Field<ImageSize>,
    pub special: Field<SpecialEmbedView>,
    pub title: Field<Seq<char>>,
    pub description: Field<Seq<char>>,
    pub image: Field<ImageView>,
    pub video: Field<VideoView>,
    pub site_name: Field<Seq<char>>,
    pub icon_url: Field<Seq<char>>,
    pub color: Field<Seq<char>>,
}

impl DeepView for Embed {
    type V = EmbedView;

    open spec fn deep_view(&self) -> EmbedView {
        EmbedView {
            embed_type: self.embed_type.deep_view(),
            url: self.url.deep_view(),
            width: self.width.deep_view(),
            height: self.height.deep_view(),
            size: self.size.deep_view(),
            special: self.special.deep_view(),
            title: self.title.deep_view(),
            description: self.description.deep_view(),
            image: self.image.deep_view(),
            video: self.video.deep_view(),
            site_name: self.site_name.deep_view(),
            icon_url: self.icon_url.deep_view(),
            color: self.color.deep_view(),
        }
    }
}

impl Embed {
    /// The members that the value is written with. A field that is missing adds
    /// none.
    pub open spec fn members(v: EmbedView) -> Members {
        let m: Members = Map::empty();
        let m = with::<SpecialEmbedTypes>(m, "type"@, v.embed_type);
        let m = with_optional::<String>(m, "url"@, v.url);
        let m = with_optional::<i32>(m, "width"@, v.width);
        let m = with_optional::<i32>(m, "height"@, v.height);
        let m = with_optional::<ImageSize>(m, "size"@, v.size);
        let m = with_optional::<SpecialEmbed>(m, "special"@, v.special);
        let m = with_optional::<String>(m, "title"@, v.title);
        let m = with_optional::<String>(m, "description"@, v.description);
        let m = with_optional::<Image>(m, "image"@, v.image);
        let m = with_optional::<Video>(m, "video"@, v.video);
        let m = with_optional::<String>(m, "site_name"@, v.site_name);
        let m = with_optional::<String>(m, "icon_url"@, v.icon_url);
        let m = with_optional::<String>(m, "color"@, v.color);
        m
    }

    /// The keys, by their lengths and the characters that tell them apart.
    proof fn lemma_keys()
        ensures
            "type"@.len() == 4 && "type"@[0] == 't',
            "url"@.len() == 3,
            "width"@.len() == 5 && "width"@[0] == 'w',
            "height"@.len() == 6,
            "size"@.len() == 4 && "size"@[0] == 's',
            "special"@.len() == 7,
            "title"@.len() == 5 && "title"@[0] == 't',
            "description"@.len() == 11,
            "image"@.len() == 5 && "image"@[0] == 'i',
            "video"@.len() == 5 && "video"@[0] == 'v',
            "site_name"@.len() == 9,
            "icon_url"@.len() == 8,
            "color"@.len() == 5 && "color"@[0] == 'c',
    {
        reveal_strlit("type");
        reveal_strlit("url");
        reveal_strlit("width");
        reveal_strlit("height");
        reveal_strlit("size");
        reveal_strlit("special");
        reveal_strlit("title");
        reveal_strlit("description");
        reveal_strlit("image");
        reveal_strlit("video");
        reveal_strlit("site_name");
        reveal_strlit("icon_url");
        reveal_strlit("color");
    }

    /// Each field is written under its own key, a field that is missing is
    /// written as no member at all, and no other key is written.
    pub proof fn lemma_encoded_members(v: EmbedView)
        ensures
            <Embed as Wire>::encode(v) is Object,
            <Embed as Wire>::encode(v).member("type"@) == Some(<SpecialEmbedTypes as Wire>::encode(v.embed_type)),
            <Embed as Wire>::encode(v).member("url"@) == written::<String>(v.url),
            <Embed as Wire>::encode(v).member("width"@) == written::<i32>(v.width),
            <Embed as Wire>::encode(v).member("height"@) == written::<i32>(v.height),
            <Embed as Wire>::encode(v).member("size"@) == written::<ImageSize>(v.size),
            <Embed as Wire>::encode(v).member("special"@) == written::<SpecialEmbed>(v.special),
            <Embed as Wire>::encode(v).member("title"@) == written::<String>(v.title),
            <Embed as Wire>::encode(v).member("description"@) == written::<String>(v.description),
            <Embed as Wire>::encode(v).member("image"@) == written::<Image>(v.image),
            <Embed as Wire>::encode(v).member("video"@) == written::<Video>(v.video),
            <Embed as Wire>::encode(v).member("site_name"@) == written::<String>(v.site_name),
            <Embed as Wire>::encode(v).member("icon_url"@) == written::<String>(v.icon_url),
            <Embed as Wire>::encode(v).member("color"@) == written::<String>(v.color),
            forall|k: Seq<char>|
                (#[trigger] <Embed as Wire>::encode(v).member(k)) is Some ==> {
                    ||| k == "type"@
                    ||| k == "url"@
                    ||| k == "width"@
                    ||| k == "height"@
                    ||| k == "size"@
                    ||| k == "special"@
                    ||| k == "title"@
                    ||| k == "description"@
                    ||| k == "image"@
                    ||| k == "video"@
                    ||| k == "site_name"@
                    ||| k == "icon_url"@
                    ||| k == "color"@
                },
    {
        broadcast use {lemma_lookup_with, lemma_lookup_with_optional};

        Self::lemma_keys();
    }

    /// A document that is read and lacks the key of an optional field gives a
    /// missing field, and only such a document does. A member that is `null`
    /// gives the null field, and only such a member does.
    pub proof fn lemma_decoded_missing(j: JsonView)
        requires
            <Embed as Wire>::decode(j) is Some,
        ensures
            <Embed as Wire>::decode(j).unwrap().url is Missing <==> j.member("url"@) is None,
            <Embed as Wire>::decode(j).unwrap().url is Null <==> j.member("url"@) == Some(JsonView::Null),
            <Embed as Wire>::decode(j).unwrap().width is Missing <==> j.member("width"@) is None,
            <Embed as Wire>::decode(j).unwrap().width is Null <==> j.member("width"@) == Some(JsonView::Null),
            <Embed as Wire>::decode(j).unwrap().height is Missing <==> j.member("height"@) is None,
            <Embed as Wire>::decode(j).unwrap().height is Null <==> j.member("height"@) == Some(JsonView::Null),
            <Embed as Wire>::decode(j).unwrap().size is Missing <==> j.member("size"@) is None,
            <Embed as Wire>::decode(j).unwrap().size is Null <==> j.member("size"@) == Some(JsonView::Null),
            <Embed as Wire>::decode(j).unwrap().special is Missing <==> j.member("special"@) is None,
            <Embed as Wire>::decode(j).unwrap().special is Null <==> j.member("special"@) == Some(JsonView::Null),
            <Embed as Wire>::decode(j).unwrap().title is Missing <==> j.member("title"@) is None,
            <Embed as Wire>::decode(j).unwrap().title is Null <==> j.member("title"@) == Some(JsonView::Null),
            <Embed as Wire>::decode(j).unwrap().description is Missing <==> j.member("description"@) is None,
            <Embed as Wire>::decode(j).unwrap().description is Null <==> j.member("description"@) == Some(JsonView::Null),
            <Embed as Wire>::decode(j).unwrap().image is Missing <==> j.member("image"@) is None,
            <Embed as Wire>::decode(j).unwrap().image is Null <==> j.member("image"@) == Some(JsonView::Null),
            <Embed as Wire>::decode(j).unwrap().video is Missing <==> j.member("video"@) is None,
            <Embed as Wire>::decode(j).unwrap().video is Null <==> j.member("video"@) == Some(JsonView::Null),
            <Embed as Wire>::decode(j).unwrap().site_name is Missing <==> j.member("site_name"@) is None,
            <Embed as Wire>::decode(j).unwrap().site_name is Null <==> j.member("site_name"@) == Some(JsonView::Null),
            <Embed as Wire>::decode(j).unwrap().icon_url is Missing <==> j.member("icon_url"@) is None,
            <Embed as Wire>::decode(j).unwrap().icon_url is Null <==> j.member("icon_url"@) == Some(JsonView::Null),
            <Embed as Wire>::decode(j).unwrap().color is Missing <==> j.member("color"@) is None,
            <Embed as Wire>::decode(j).unwrap().color is Null <==> j.member("color"@) == Some(JsonView::Null),
    {
    }

    /// What a document leaves out, the value read from it leaves out again
    /// when it is written, and nothing else; and what is `null` in the document
    /// is written as `null` again, and nothing else.
    pub proof fn lemma_omitted_stays_omitted(j: JsonView)
        requires
            <Embed as Wire>::decode(j) is Some,
        ensures
            j.member("url"@) is None <==> <Embed as Wire>::encode(<Embed as Wire>::decode(j).unwrap()).member(
                "url"@,
            ) is None,
            j.member("url"@) == Some(JsonView::Null) <==> <Embed as Wire>::encode(
                <Embed as Wire>::decode(j).unwrap(),
            ).member("url"@) == Some(JsonView::Null),
            j.member("width"@) is None <==> <Embed as Wire>::encode(<Embed as Wire>::decode(j).unwrap()).member(
                "width"@,
            ) is None,
            j.member("width"@) == Some(JsonView::Null) <==> <Embed as Wire>::encode(
                <Embed as Wire>::decode(j).unwrap(),
            ).member("width"@) == Some(JsonView::Null),
            j.member("height"@) is None <==> <Embed as Wire>::encode(<Embed as Wire>::decode(j).unwrap()).member(
                "height"@,
            ) is None,
            j.member("height"@) == Some(JsonView::Null) <==> <Embed as Wire>::encode(
                <Embed as Wire>::decode(j).unwrap(),
            ).member("height"@) == Some(JsonView::Null),
            j.member("size"@) is None <==> <Embed as Wire>::encode(<Embed as Wire>::decode(j).unwrap()).member(
                "size"@,
            ) is None,
            j.member("size"@) == Some(JsonView::Null) <==> <Embed as Wire>::encode(
                <Embed as Wire>::decode(j).unwrap(),
            ).member("size"@) == Some(JsonView::Null),
            j.member("special"@) is None <==> <Embed as Wire>::encode(<Embed as Wire>::decode(j).unwrap()).member(
                "special"@,
            ) is None,
            j.member("special"@) == Some(JsonView::Null) <==> <Embed as Wire>::encode(
                <Embed as Wire>::decode(j).unwrap(),
            ).member("special"@) == Some(JsonView::Null),
            j.member("title"@) is None <==> <Embed as Wire>::encode(<Embed as Wire>::decode(j).unwrap()).member(
                "title"@,
            ) is None,
            j.member("title"@) == Some(JsonView::Null) <==> <Embed as Wire>::encode(
                <Embed as Wire>::decode(j).unwrap(),
            ).member("title"@) == Some(JsonView::Null),
            j.member("description"@) is None <==> <Embed as Wire>::encode(<Embed as Wire>::decode(j).unwrap()).member(
                "description"@,
            ) is None,
            j.member("description"@) == Some(JsonView::Null) <==> <Embed as Wire>::encode(
                <Embed as Wire>::decode(j).unwrap(),
            ).member("description"@) == Some(JsonView::Null),
            j.member("image"@) is None <==> <Embed as Wire>::encode(<Embed as Wire>::decode(j).unwrap()).member(
                "image"@,
            ) is None,
            j.member("image"@) == Some(JsonView::Null) <==> <Embed as Wire>::encode(
                <Embed as Wire>::decode(j).unwrap(),
            ).member("image"@) == Some(JsonView::Null),
            j.member("video"@) is None <==> <Embed as Wire>::encode(<Embed as Wire>::decode(j).unwrap()).member(
                "video"@,
            ) is None,
            j.member("video"@) == Some(JsonView::Null) <==> <Embed as Wire>::encode(
                <Embed as Wire>::decode(j).unwrap(),
            ).member("video"@) == Some(JsonView::Null),
            j.member("site_name"@) is None <==> <Embed as Wire>::encode(<Embed as Wire>::decode(j).unwrap()).member(
                "site_name"@,
            ) is None,
            j.member("site_name"@) == Some(JsonView::Null) <==> <Embed as Wire>::encode(
                <Embed as Wire>::decode(j).unwrap(),
            ).member("site_name"@) == Some(JsonView::Null),
            j.member("icon_url"@) is None <==> <Embed as Wire>::encode(<Embed as Wire>::decode(j).unwrap()).member(
                "icon_url"@,
            ) is None,
            j.member("icon_url"@) == Some(JsonView::Null) <==> <Embed as Wire>::encode(
                <Embed as Wire>::decode(j).unwrap(),
            ).member("icon_url"@) == Some(JsonView::Null),
            j.member("color"@) is None <==> <Embed as Wire>::encode(<Embed as Wire>::decode(j).unwrap()).member(
                "color"@,
            ) is None,
            j.member("color"@) == Some(JsonView::Null) <==> <Embed as Wire>::encode(
                <Embed as Wire>::decode(j).unwrap(),
            ).member("color"@) == Some(JsonView::Null),
    {
        Self::lemma_decoded_missing(j);
        Self::lemma_encoded_members(<Embed as Wire>::decode(j).unwrap());
    }
}

impl Wire for Embed {
    open spec fn encode(v: EmbedView) -> JsonView {
        JsonView::Object(Self::members(v))
    }

    open spec fn decode(j: JsonView) -> Option<EmbedView> {
        let embed_type = required::<SpecialEmbedTypes>(j, "type"@);
        let url = optional::<String>(j, "url"@);
        let width = optional::<i32>(j, "width"@);
        let height = optional::<i32>(j, "height"@);
        let size = optional::<ImageSize>(j, "size"@);
        let special = optional::<SpecialEmbed>(j, "special"@);
        let title = optional::<String>(j, "title"@);
        let description = optional::<String>(j, "description"@);
        let image = optional::<Image>(j, "image"@);
        let video = optional::<Video>(j, "video"@);
        let site_name = optional::<String>(j, "site_name"@);
        let icon_url = optional::<String>(j, "icon_url"@);
        let color = optional::<String>(j, "color"@);
        if j is Object && embed_type is Some && url is Some && width is Some && height is Some && size is Some && special is Some && title is Some && description is Some && image is Some && video is Some && site_name is Some && icon_url is Some && color is Some {
            Some(
                EmbedView {
                    embed_type: embed_type.unwrap(),
                    url: url.unwrap(),
                    width: width.unwrap(),
                    height: height.unwrap(),
                    size: size.unwrap(),
                    special: special.unwrap(),
                    title: title.unwrap(),
                    description: description.unwrap(),
                    image: image.unwrap(),
                    video: video.unwrap(),
                    site_name: site_name.unwrap(),
                    icon_url: icon_url.unwrap(),
                    color: color.unwrap(),
                },
            )
        } else {
            None
        }
    }

    proof fn lemma_decode_encode(v: EmbedView) {
        Self::lemma_encoded_members(v);
        let j = Self::encode(v);
        lemma_required_of_written::<SpecialEmbedTypes>(j, "type"@, v.embed_type);
        lemma_optional_of_written::<String>(j, "url"@, v.url);
        lemma_optional_of_written::<i32>(j, "width"@, v.width);
        lemma_optional_of_written::<i32>(j, "height"@, v.height);
        lemma_optional_of_written::<ImageSize>(j, "size"@, v.size);
        lemma_optional_of_written::<SpecialEmbed>(j, "special"@, v.special);
        lemma_optional_of_written::<String>(j, "title"@, v.title);
        lemma_optional_of_written::<String>(j, "description"@, v.description);
        lemma_optional_of_written::<Image>(j, "image"@, v.image);
        lemma_optional_of_written::<Video>(j, "video"@, v.video);
        lemma_optional_of_written::<String>(j, "site_name"@, v.site_name);
        lemma_optional_of_written::<String>(j, "icon_url"@, v.icon_url);
        lemma_optional_of_written::<String>(j, "color"@, v.color);
    }

    fn to_json(&self) -> (j: Json) {
        let mut members: Vec<(String, Json)> = Vec::new();
        put::<SpecialEmbedTypes>(&mut members, "type", &self.embed_type);
        put_optional::<String>(&mut members, "url", &self.url);
        put_optional::<i32>(&mut members, "width", &self.width);
        put_optional::<i32>(&mut members, "height", &self.height);
        put_optional::<ImageSize>(&mut members, "size", &self.size);
        put_optional::<SpecialEmbed>(&mut members, "special", &self.special);
        put_optional::<String>(&mut members, "title", &self.title);
        put_optional::<String>(&mut members, "description", &self.description);
        put_optional::<Image>(&mut members, "image", &self.image);
        put_optional::<Video>(&mut members, "video", &self.video);
        put_optional::<String>(&mut members, "site_name", &self.site_name);
        put_optional::<String>(&mut members, "icon_url", &self.icon_url);
        put_optional::<String>(&mut members, "color", &self.color);
        Json::Object(members)
    }

    fn from_json(j: &Json) -> (r: Option<Embed>) {
        if !j.is_object() {
            return None;
        }
        let embed_type = read::<SpecialEmbedTypes>(j, "type")?;
        let url = read_optional::<String>(j, "url")?;
        let width = read_optional::<i32>(j, "width")?;
        let height = read_optional::<i32>(j, "height")?;
        let size = read_optional::<ImageSize>(j, "size")?;
        let special = read_optional::<SpecialEmbed>(j, "special")?;
        let title = read_optional::<String>(j, "title")?;
        let description = read_optional::<String>(j, "description")?;
        let image = read_optional::<Image>(j, "image")?;
        let video = read_optional::<Video>(j, "video")?;
        let site_name = read_optional::<String>(j, "site_name")?;
        let icon_url = read_optional::<String>(j, "icon_url")?;
        let color = read_optional::<String>(j, "color")?;
        Some(Embed { embed_type, url, width, height, size, special, title, description, image, video, site_name, icon_url, color })
    }
}

/// A message in a channel.
#[derive(Debug, PartialEq)]
pub struct Message {
    /// The id, which the service gives out in the order of sending.
    pub id: String,
    pub nonce: Field<String>,
    pub channel: String,
    pub author: String,
    pub content: Field<ContentType>,
    pub attachments: Field<Vec<Attachment>>,
    pub edited: Field<MessageEdited>,
    pub embeds: Field<Vec<Embed>>,
    pub mentions: Field<Vec<String>>,
    pub replies: Field<Vec<String>>,
}

/// The model of a [`Message`].
pub struct MessageView {
    pub id: Seq<char>,
    pub nonce: Field<Seq<char>>,
    pub channel: Seq<char>,
    pub author: Seq<char>,
    pub content: Field<ContentTypeView>,
    pub attachments: Field<Seq<AttachmentView>>,
    pub edited: Field<MessageEditedView>,
    pub embeds: Field<Seq<EmbedView>>,
    pub mentions: Field<Seq<Seq<char>>>,
    pub replies: Field<Seq<Seq<char>>>,
}

impl DeepView for Message {
    type V = MessageView;

    open spec fn deep_view(&self) -> MessageView {
        MessageView {
            id: self.id.deep_view(),
            nonce: self.nonce.deep_view(),
            channel: self.channel.deep_view(),
            author: self.author.deep_view(),
            content: self.content.deep_view(),
            attachments: self.attachments.deep_view(),
            edited: self.edited.deep_view(),
            embeds: self.embeds.deep_view(),
            mentions: self.mentions.deep_view(),
            replies: self.replies.deep_view(),
        }
    }
}

impl Message {
    /// The members that the value is written with. A field that is missing adds
    /// none.
    pub open spec fn members(v: MessageView) -> Members {
        let m: Members = Map::empty();
        let m = with::<String>(m, "_id"@, v.id);
        let m = with_optional::<String>(m, "nonce"@, v.nonce);
        let m = with::<String>(m, "channel"@, v.channel);
        let m = with::<String>(m, "author"@, v.author);
        let m = with_optional::<ContentType>(m, "content"@, v.content);
        let m = with_optional::<Vec<Attachment>>(m, "attachments"@, v.attachments);
        let m = with_optional::<MessageEdited>(m, "edited"@, v.edited);
        let m = with_optional::<Vec<Embed>>(m, "embeds"@, v.embeds);
        let m = with_optional::<Vec<String>>(m, "mentions"@, v.mentions);
        let m = with_optional::<Vec<String>>(m, "replies"@, v.replies);
        m
    }

    /// The keys, by their lengths and the characters that tell them apart.
    proof fn lemma_keys()
        ensures
            "_id"@.len() == 3,
            "nonce"@.len() == 5,
            "channel"@.len() == 7 && "channel"@[1] == 'h',
            "author"@.len() == 6 && "author"@[0] == 'a' && "author"@[1] == 'u',
            "content"@.len() == 7 && "content"@[1] == 'o',
            "attachments"@.len() == 11,
            "edited"@.len() == 6 && "edited"@[0] == 'e' && "edited"@[1] == 'd',
            "embeds"@.len() == 6 && "embeds"@[0] == 'e' && "embeds"@[1] == 'm',
            "mentions"@.len() == 8,
            "replies"@.len() == 7 && "replies"@[1] == 'e',
    {
        reveal_strlit("_id");
        reveal_strlit("nonce");
        reveal_strlit("channel");
        reveal_strlit("author");
        reveal_strlit("content");
        reveal_strlit("attachments");
        reveal_strlit("edited");
        reveal_strlit("embeds");
        reveal_strlit("mentions");
        reveal_strlit("replies");
    }

    /// Each field is written under its own key, a field that is missing is
    /// written as no member at all, and no other key is written.
    pub proof fn lemma_encoded_members(v: MessageView)
        ensures
            <Message as Wire>::encode(v) is Object,
            <Message as Wire>::encode(v).member("_id"@) == Some(<String as Wire>::encode(v.id)),
            <Message as Wire>::encode(v).member("nonce"@) == written::<String>(v.nonce),
            <Message as Wire>::encode(v).member("channel"@) == Some(<String as Wire>::encode(v.channel)),
            <Message as Wire>::encode(v).member("author"@) == Some(<String as Wire>::encode(v.author)),
            <Message as Wire>::encode(v).member("content"@) == written::<ContentType>(v.content),
            <Message as Wire>::encode(v).member("attachments"@) == written::<Vec<Attachment>>(v.attachments),
            <Message as Wire>::encode(v).member("edited"@) == written::<MessageEdited>(v.edited),
            <Message as Wire>::encode(v).member("embeds"@) == written::<Vec<Embed>>(v.embeds),
            <Message as Wire>::encode(v).member("mentions"@) == written::<Vec<String>>(v.mentions),
            <Message as Wire>::encode(v).member("replies"@) == written::<Vec<String>>(v.replies),
            forall|k: Seq<char>|
                (#[trigger] <Message as Wire>::encode(v).member(k)) is Some ==> {
                    ||| k == "_id"@
                    ||| k == "nonce"@
                    ||| k == "channel"@
                    ||| k == "author"@
                    ||| k == "content"@
                    ||| k == "attachments"@
                    ||| k == "edited"@
                    ||| k == "embeds"@
                    ||| k == "mentions"@
                    ||| k == "replies"@
                },
    {
        broadcast use {lemma_lookup_with, lemma_lookup_with_optional};

        Self::lemma_keys();
    }

    /// A document that is read and lacks the key of an optional field gives a
    /// missing field, and only such a document does. A member that is `null`
    /// gives the null field, and only such a member does.
    pub proof fn lemma_decoded_missing(j: JsonView)
        requires
            <Message as Wire>::decode(j) is Some,
        ensures
            <Message as Wire>::decode(j).unwrap().nonce is Missing <==> j.member("nonce"@) is None,
            <Message as Wire>::decode(j).unwrap().nonce is Null <==> j.member("nonce"@) == Some(JsonView::Null),
            <Message as Wire>::decode(j).unwrap().content is Missing <==> j.member("content"@) is None,
            <Message as Wire>::decode(j).unwrap().content is Null <==> j.member("content"@) == Some(JsonView::Null),
            <Message as Wire>::decode(j).unwrap().attachments is Missing <==> j.member("attachments"@) is None,
            <Message as Wire>::decode(j).unwrap().attachments is Null <==> j.member("attachments"@) == Some(JsonView::Null),
            <Message as Wire>::decode(j).unwrap().edited is Missing <==> j.member("edited"@) is None,
            <Message as Wire>::decode(j).unwrap().edited is Null <==> j.member("edited"@) == Some(JsonView::Null),
            <Message as Wire>::decode(j).unwrap().embeds is Missing <==> j.member("embeds"@) is None,
            <Message as Wire>::decode(j).unwrap().embeds is Null <==> j.member("embeds"@) == Some(JsonView::Null),
            <Message as Wire>::decode(j).unwrap().mentions is Missing <==> j.member("mentions"@) is None,
            <Message as Wire>::decode(j).unwrap().mentions is Null <==> j.member("mentions"@) == Some(JsonView::Null),
            <Message as Wire>::decode(j).unwrap().replies is Missing <==> j.member("replies"@) is None,
            <Message as Wire>::decode(j).unwrap().replies is Null <==> j.member("replies"@) == Some(JsonView::Null),
    {
    }

    /// What a document leaves out, the value read from it leaves out again
    /// when it is written, and nothing else; and what is `null` in the document
    /// is written as `null` again, and nothing else.
    pub proof fn lemma_omitted_stays_omitted(j: JsonView)
        requires
            <Message as Wire>::decode(j) is Some,
        ensures
            j.member("nonce"@) is None <==> <Message as Wire>::encode(<Message as Wire>::decode(j).unwrap()).member(
                "nonce"@,
            ) is None,
            j.member("nonce"@) == Some(JsonView::Null) <==> <Message as Wire>::encode(
                <Message as Wire>::decode(j).unwrap(),
            ).member("nonce"@) == Some(JsonView::Null),
            j.member("content"@) is None <==> <Message as Wire>::encode(<Message as Wire>::decode(j).unwrap()).member(
                "content"@,
            ) is None,
            j.member("content"@) == Some(JsonView::Null) <==> <Message as Wire>::encode(
                <Message as Wire>::decode(j).unwrap(),
            ).member("content"@) == Some(JsonView::Null),
            j.member("attachments"@) is None <==> <Message as Wire>::encode(<Message as Wire>::decode(j).unwrap()).member(
                "attachments"@,
            ) is None,
            j.member("attachments"@) == Some(JsonView::Null) <==> <Message as Wire>::encode(
                <Message as Wire>::decode(j).unwrap(),
            ).member("attachments"@) == Some(JsonView::Null),
            j.member("edited"@) is None <==> <Message as Wire>::encode(<Message as Wire>::decode(j).unwrap()).member(
                "edited"@,
            ) is None,
            j.member("edited"@) == Some(JsonView::Null) <==> <Message as Wire>::encode(
                <Message as Wire>::decode(j).unwrap(),
            ).member("edited"@) == Some(JsonView::Null),
            j.member("embeds"@) is None <==> <Message as Wire>::encode(<Message as Wire>::decode(j).unwrap()).member(
                "embeds"@,
            ) is None,
            j.member("embeds"@) == Some(JsonView::Null) <==> <Message as Wire>::encode(
                <Message as Wire>::decode(j).unwrap(),
            ).member("embeds"@) == Some(JsonView::Null),
            j.member("mentions"@) is None <==> <Message as Wire>::encode(<Message as Wire>::decode(j).unwrap()).member(
                "mentions"@,
            ) is None,
            j.member("mentions"@) == Some(JsonView::Null) <==> <Message as Wire>::encode(
                <Message as Wire>::decode(j).unwrap(),
            ).member("mentions"@) == Some(JsonView::Null),
            j.member("replies"@) is None <==> <Message as Wire>::encode(<Message as Wire>::decode(j).unwrap()).member(
                "replies"@,
            ) is None,
            j.member("replies"@) == Some(JsonView::Null) <==> <Message as Wire>::encode(
                <Message as Wire>::decode(j).unwrap(),
            ).member("replies"@) == Some(JsonView::Null),
    {
        Self::lemma_decoded_missing(j);
        Self::lemma_encoded_members(<Message as Wire>::decode(j).unwrap());
    }
}

impl Wire for Message {
    open spec fn encode(v: MessageView) -> JsonView {
        JsonView::Object(Self::members(v))
    }

    open spec fn decode(j: JsonView) -> Option<MessageView> {
        let id = required::<String>(j, "_id"@);
        let nonce = optional::<String>(j, "nonce"@);
        let channel = required::<String>(j, "channel"@);
        let author = required::<String>(j, "author"@);
        let content = optional::<ContentType>(j, "content"@);
        let attachments = optional::<Vec<Attachment>>(j, "attachments"@);
        let edited = optional::<MessageEdited>(j, "edited"@);
        let embeds = optional::<Vec<Embed>>(j, "embeds"@);
        let mentions = optional::<Vec<String>>(j, "mentions"@);
        let replies = optional::<Vec<String>>(j, "replies"@);
        if j is Object && id is Some && nonce is Some && channel is Some && author is Some && content is Some && attachments is Some && edited is Some && embeds is Some && mentions is Some && replies is Some {
            Some(
                MessageView {
                    id: id.unwrap(),
                    nonce: nonce.unwrap(),
                    channel: channel.unwrap(),
                    author: author.unwrap(),
                    content: content.unwrap(),
                    attachments: attachments.unwrap(),
                    edited: edited.unwrap(),
                    embeds: embeds.unwrap(),
                    mentions: mentions.unwrap(),
                    replies: replies.unwrap(),
                },
            )
        } else {
            None
        }
    }

    proof fn lemma_decode_encode(v: MessageView) {
        Self::lemma_encoded_members(v);
        let j = Self::encode(v);
        lemma_required_of_written::<String>(j, "_id"@, v.id);
        lemma_optional_of_written::<String>(j, "nonce"@, v.nonce);
        lemma_required_of_written::<String>(j, "channel"@, v.channel);
        lemma_required_of_written::<String>(j, "author"@, v.author);
        lemma_optional_of_written::<ContentType>(j, "content"@, v.content);
        lemma_optional_of_written::<Vec<Attachment>>(j, "attachments"@, v.attachments);
        lemma_optional_of_written::<MessageEdited>(j, "edited"@, v.edited);
        lemma_optional_of_written::<Vec<Embed>>(j, "embeds"@, v.embeds);
        lemma_optional_of_written::<Vec<String>>(j, "mentions"@, v.mentions);
        lemma_optional_of_written::<Vec<String>>(j, "replies"@, v.replies);
    }

    fn to_json(&self) -> (j: Json) {
        let mut members: Vec<(String, Json)> = Vec::new();
        put::<String>(&mut members, "_id", &self.id);
        put_optional::<String>(&mut members, "nonce", &self.nonce);
        put::<String>(&mut members, "channel", &self.channel);
        put::<String>(&mut members, "author", &self.author);
        put_optional::<ContentType>(&mut members, "content", &self.content);
        put_optional::<Vec<Attachment>>(&mut members, "attachments", &self.attachments);
        put_optional::<MessageEdited>(&mut members, "edited", &self.edited);
        put_optional::<Vec<Embed>>(&mut members, "embeds", &self.embeds);
        put_optional::<Vec<String>>(&mut members, "mentions", &self.mentions);
        put_optional::<Vec<String>>(&mut members, "replies", &self.replies);
        Json::Object(members)
    }

    fn from_json(j: &Json) -> (r: Option<Message>) {
        if !j.is_object() {
            return None;
        }
        let id = read::<String>(j, "_id")?;
        let nonce = read_optional::<String>(j, "nonce")?;
        let channel = read::<String>(j, "channel")?;
        let author = read::<String>(j, "author")?;
        let content = read_optional::<ContentType>(j, "content")?;
        let attachments = read_optional::<Vec<Attachment>>(j, "attachments")?;
        let edited = read_optional::<MessageEdited>(j, "edited")?;
        let embeds = read_optional::<Vec<Embed>>(j, "embeds")?;
        let mentions = read_optional::<Vec<String>>(j, "mentions")?;
        let replies = read_optional::<Vec<String>>(j, "replies")?;
        Some(Message { id, nonce, channel, author, content, attachments, edited, embeds, mentions, replies })
    }
}

/// Messages of a channel, with their authors where the request asked for
/// them.
#[derive(Debug, PartialEq)]
pub struct Messages {
    pub messages: Field<Vec<Message>>,
    pub users: Field<Vec<User>>,
    pub members: Field<Vec<Member>>,
}

/// The model of a [`Messages`].
pub struct MessagesView {
    pub messages: Field<Seq<MessageView>>,
    pub users: Field<Seq<UserView>>,
    pub members: Field<Seq<MemberView>>,
}

impl DeepView for Messages {
    type V = MessagesView;

    open spec fn deep_view(&self) -> MessagesView {
        MessagesView {
            messages: self.messages.deep_view(),
            users: self.users.deep_view(),
            members: self.members.deep_view(),
        }
    }
}

impl Messages {
    /// The members that the value is written with. A field that is missing adds
    /// none.
    pub open spec fn members(v: MessagesView) -> Members {
        let m: Members = Map::empty();
        let m = with_optional::<Vec<Message>>(m, "messages"@, v.messages);
        let m = with_optional::<Vec<User>>(m, "users"@, v.users);
        let m = with_optional::<Vec<Member>>(m, "members"@, v.members);
        m
    }

    /// The keys, by their lengths and the characters that tell them apart.
    proof fn lemma_keys()
        ensures
            "messages"@.len() == 8,
            "users"@.len() == 5,
            "members"@.len() == 7,
    {
        reveal_strlit("messages");
        reveal_strlit("users");
        reveal_strlit("members");
    }

    /// Each field is written under its own key, a field that is missing is
    /// written as no member at all, and no other key is written.
    pub proof fn lemma_encoded_members(v: MessagesView)
        ensures
            <Messages as Wire>::encode(v) is Object,
            <Messages as Wire>::encode(v).member("messages"@) == written::<Vec<Message>>(v.messages),
            <Messages as Wire>::encode(v).member("users"@) == written::<Vec<User>>(v.users),
            <Messages as Wire>::encode(v).member("members"@) == written::<Vec<Member>>(v.members),
            forall|k: Seq<char>|
                (#[trigger] <Messages as Wire>::encode(v).member(k)) is Some ==> {
                    ||| k == "messages"@
                    ||| k == "users"@
                    ||| k == "members"@
                },
    {
        broadcast use lemma_lookup_with_optional;

        Self::lemma_keys();
    }

    /// A document that is read and lacks the key of an optional field gives a
    /// missing field, and only such a document does. A member that is `null`
    /// gives the null field, and only such a member does.
    pub proof fn lemma_decoded_missing(j: JsonView)
        requires
            <Messages as Wire>::decode(j) is Some,
        ensures
            <Messages as Wire>::decode(j).unwrap().messages is Missing <==> j.member("messages"@) is None,
            <Messages as Wire>::decode(j).unwrap().messages is Null <==> j.member("messages"@) == Some(JsonView::Null),
            <Messages as Wire>::decode(j).unwrap().users is Missing <==> j.member("users"@) is None,
            <Messages as Wire>::decode(j).unwrap().users is Null <==> j.member("users"@) == Some(JsonView::Null),
            <Messages as Wire>::decode(j).unwrap().members is Missing <==> j.member("members"@) is None,
            <Messages as Wire>::decode(j).unwrap().members is Null <==> j.member("members"@) == Some(JsonView::Null),
    {
    }

    /// What a document leaves out, the value read from it leaves out again
    /// when it is written, and nothing else; and what is `null` in the document
    /// is written as `null` again, and nothing else.
    pub proof fn lemma_omitted_stays_omitted(j: JsonView)
        requires
            <Messages as Wire>::decode(j) is Some,
        ensures
            j.member("messages"@) is None <==> <Messages as Wire>::encode(<Messages as Wire>::decode(j).unwrap()).member(
                "messages"@,
            ) is None,
            j.member("messages"@) == Some(JsonView::Null) <==> <Messages as Wire>::encode(
                <Messages as Wire>::decode(j).unwrap(),
            ).member("messages"@) == Some(JsonView::Null),
            j.member("users"@) is None <==> <Messages as Wire>::encode(<Messages as Wire>::decode(j).unwrap()).member(
                "users"@,
            ) is None,
            j.member("users"@) == Some(JsonView::Null) <==> <Messages as Wire>::encode(
                <Messages as Wire>::decode(j).unwrap(),
            ).member("users"@) == Some(JsonView::Null),
            j.member("members"@) is None <==> <Messages as Wire>::encode(<Messages as Wire>::decode(j).unwrap()).member(
                "members"@,
            ) is None,
            j.member("members"@) == Some(JsonView::Null) <==> <Messages as Wire>::encode(
                <Messages as Wire>::decode(j).unwrap(),
            ).member("members"@) == Some(JsonView::Null),
    {
        Self::lemma_decoded_missing(j);
        Self::lemma_encoded_members(<Messages as Wire>::decode(j).unwrap());
    }
}

impl Wire for Messages {
    open spec fn encode(v: MessagesView) -> JsonView {
        JsonView::Object(Self::members(v))
    }

    open spec fn decode(j: JsonView) -> Option<MessagesView> {
        let messages = optional::<Vec<Message>>(j, "messages"@);
        let users = optional::<Vec<User>>(j, "users"@);
        let members = optional::<Vec<Member>>(j, "members"@);
        if j is Object && messages is Some && users is Some && members is Some {
            Some(
                MessagesView {
                    messages: messages.unwrap(),
                    users: users.unwrap(),
                    members: members.unwrap(),
                },
            )
        } else {
            None
        }
    }

    proof fn lemma_decode_encode(v: MessagesView) {
        Self::lemma_encoded_members(v);
        let j = Self::encode(v);
        lemma_optional_of_written::<Vec<Message>>(j, "messages"@, v.messages);
        lemma_optional_of_written::<Vec<User>>(j, "users"@, v.users);
        lemma_optional_of_written::<Vec<Member>>(j, "members"@, v.members);
    }

    fn to_json(&self) -> (j: Json) {
        let mut members: Vec<(String, Json)> = Vec::new();
        put_optional::<Vec<Message>>(&mut members, "messages", &self.messages);
        put_optional::<Vec<User>>(&mut members, "users", &self.users);
        put_optional::<Vec<Member>>(&mut members, "members", &self.members);
        Json::Object(members)
    }

    fn from_json(j: &Json) -> (r: Option<Messages>) {
        if !j.is_object() {
            return None;
        }
        let messages = read_optional::<Vec<Message>>(j, "messages")?;
        let users = read_optional::<Vec<User>>(j, "users")?;
        let members = read_optional::<Vec<Member>>(j, "members")?;
        Some(Messages { messages, users, members })
    }
}

/// The message that a new message answers.
#[derive(Debug, PartialEq)]
pub struct Reply {
    pub id: String,
    /// Whether the author of that message is notified.
    pub mention: bool,
}

/// The model of a [`Reply`].
pub struct ReplyView {
    pub id: Seq<char>,
    pub mention: bool,
}

impl DeepView for Reply {
    type V = ReplyView;

    open spec fn deep_view(&self) -> ReplyView {
        ReplyView {
            id: self.id.deep_view(),
            mention: self.mention.deep_view(),
        }
    }
}

impl Reply {
    /// The members that the value is written with. A field that is missing adds
    /// none.
    pub open spec fn members(v: ReplyView) -> Members {
        let m: Members = Map::empty();
        let m = with::<String>(m, "id"@, v.id);
        let m = with::<bool>(m, "mention"@, v.mention);
        m
    }

    /// The keys, by their lengths and the characters that tell them apart.
    proof fn lemma_keys()
        ensures
            "id"@.len() == 2,
            "mention"@.len() == 7,
    {
        reveal_strlit("id");
        reveal_strlit("mention");
    }

    /// Each field is written under its own key, a field that is missing is
    /// written as no member at all, and no other key is written.
    pub proof fn lemma_encoded_members(v: ReplyView)
        ensures
            <Reply as Wire>::encode(v) is Object,
            <Reply as Wire>::encode(v).member("id"@) == Some(<String as Wire>::encode(v.id)),
            <Reply as Wire>::encode(v).member("mention"@) == Some(<bool as Wire>::encode(v.mention)),
            forall|k: Seq<char>|
                (#[trigger] <Reply as Wire>::encode(v).member(k)) is Some ==> {
                    ||| k == "id"@
                    ||| k == "mention"@
                },
    {
        broadcast use lemma_lookup_with;

        Self::lemma_keys();
    }
}

impl Wire for Reply {
    open spec fn encode(v: ReplyView) -> JsonView {
        JsonView::Object(Self::members(v))
    }

    open spec fn decode(j: JsonView) -> Option<ReplyView> {
        let id = required::<String>(j, "id"@);
        let mention = required::<bool>(j, "mention"@);
        if j is Object && id is Some && mention is Some {
            Some(
                ReplyView {
                    id: id.unwrap(),
                    mention: mention.unwrap(),
                },
            )
        } else {
            None
        }
    }

    proof fn lemma_decode_encode(v: ReplyView) {
        Self::lemma_encoded_members(v);
        let j = Self::encode(v);
        lemma_required_of_written::<String>(j, "id"@, v.id);
        lemma_required_of_written::<bool>(j, "mention"@, v.mention);
    }

    fn to_json(&self) -> (j: Json) {
        let mut members: Vec<(String, Json)> = Vec::new();
        put::<String>(&mut members, "id", &self.id);
        put::<bool>(&mut members, "mention", &self.mention);
        Json::Object(members)
    }

    fn from_json(j: &Json) -> (r: Option<Reply>) {
        if !j.is_object() {
            return None;
        }
        let id = read::<String>(j, "id")?;
        let mention = read::<bool>(j, "mention")?;
        Some(Reply { id, mention })
    }
}

/// The order in which messages are asked for.
#[derive(Clone, Copy, Debug, PartialEq, Eq)]
pub enum SearchSort {
    Latest,
    Oldest,
    Relevance,
}

impl DeepView for SearchSort {
    type V = SearchSort;

    open spec fn deep_view(&self) -> SearchSort {
        *self
    }
}

impl SearchSort {
    /// The name that stands for the value on the wire.
    pub open spec fn name(self) -> Seq<char> {
        match self {
            SearchSort::Latest => "Latest"@,
            SearchSort::Oldest => "Oldest"@,
            SearchSort::Relevance => "Relevance"@,
        }
    }

    /// The value that a name stands for; `None` for any other text.
    pub open spec fn named(s: Seq<char>) -> Option<SearchSort> {
        if s == "Latest"@ {
            Some(SearchSort::Latest)
        } else if s == "Oldest"@ {
            Some(SearchSort::Oldest)
        } else if s == "Relevance"@ {
            Some(SearchSort::Relevance)
        } else {
            None
        }
    }

    /// The names, by their lengths and the characters that tell them apart.
    proof fn lemma_names()
        ensures
            "Latest"@.len() == 6 && "Latest"@[0] == 'L',
            "Oldest"@.len() == 6 && "Oldest"@[0] == 'O',
            "Relevance"@.len() == 9,
    {
        reveal_strlit("Latest");
        reveal_strlit("Oldest");
        reveal_strlit("Relevance");
    }

    /// A text that is the name of no value is not read: the set of values is
    /// closed.
    pub proof fn lemma_unknown_name(s: Seq<char>)
        requires
            forall|v: SearchSort| v.name() != s,
        ensures
            <SearchSort as Wire>::decode(JsonView::Text(s)) is None,
    {
        assert(SearchSort::Latest.name() != s);
        assert(SearchSort::Oldest.name() != s);
        assert(SearchSort::Relevance.name() != s);
    }
}

impl Wire for SearchSort {
    open spec fn encode(v: SearchSort) -> JsonView {
        JsonView::Text(v.name())
    }

    open spec fn decode(j: JsonView) -> Option<SearchSort> {
        match j {
            JsonView::Text(s) => Self::named(s),
            _ => None,
        }
    }

    proof fn lemma_decode_encode(v: SearchSort) {
        Self::lemma_names();
    }

    fn to_json(&self) -> (j: Json) {
        match self {
            SearchSort::Latest => Json::Text("Latest".to_owned()),
            SearchSort::Oldest => Json::Text("Oldest".to_owned()),
            SearchSort::Relevance => Json::Text("Relevance".to_owned()),
        }
    }

    fn from_json(j: &Json) -> (r: Option<SearchSort>) {
        match j {
            Json::Text(s) => {
                if same_text(s.as_str(), "Latest") {
                    Some(SearchSort::Latest)
                } else if same_text(s.as_str(), "Oldest") {
                    Some(SearchSort::Oldest)
                } else if same_text(s.as_str(), "Relevance") {
                    Some(SearchSort::Relevance)
                } else {
                    None
                }
            },
            _ => None,
        }
    }
}

} // verus!
