//! Uploaded files.

use crate::text::same_text;
use crate::json::{Json, JsonView};
use crate::wire::{
    lemma_lookup_with, lemma_required_of_written, put, read, required, with, written, Members, Wire,
};
use vstd::prelude::*;

verus! {

/// What kind of file an attachment is, with the size of a picture or a film.
///
/// On the wire it is an object whose member `type` names the kind; `Image`
/// and `Video` also carry `width` and `height`.
#[derive(Clone, Copy, Debug, PartialEq, Eq)]
pub enum Metadata {
    File,
    Text,
    Audio,
    Image { width: i32, height: i32 },
    Video { width: i32, height: i32 },
}

impl DeepView for Metadata {
    type V = Metadata;

    open spec fn deep_view(&self) -> Metadata {
        *self
    }
}

impl Metadata {
    /// The name of the kind, as the member `type` holds it.
    pub open spec fn kind(self) -> Seq<char> {
        match self {
            Metadata::File => "File"@,
            Metadata::Text => "Text"@,
            Metadata::Audio => "Audio"@,
            Metadata::Image { .. } => "Image"@,
            Metadata::Video { .. } => "Video"@,
        }
    }
}

impl Metadata {
    /// The keys and the names of the kinds, by their lengths and first
    /// characters: enough to tell each from the others.
    proof fn lemma_keys()
        ensures
            "type"@.len() == 4,
            "width"@.len() == 5,
            "height"@.len() == 6,
            "File"@.len() == 4 && "File"@[0] == 'F',
            "Text"@.len() == 4 && "Text"@[0] == 'T',
            "Audio"@.len() == 5 && "Audio"@[0] == 'A',
            "Image"@.len() == 5 && "Image"@[0] == 'I',
            "Video"@.len() == 5 && "Video"@[0] == 'V',
    {
        reveal_strlit("type");
        reveal_strlit("width");
        reveal_strlit("height");
        reveal_strlit("File");
        reveal_strlit("Text");
        reveal_strlit("Audio");
        reveal_strlit("Image");
        reveal_strlit("Video");
    }
}

impl Wire for Metadata {
    open spec fn encode(v: Metadata) -> JsonView {
        let m: Members = with::<String>(Map::empty(), "type"@, v.kind());
        match v {
            Metadata::Image { width, height } => JsonView::Object(
                with::<i32>(with::<i32>(m, "width"@, width), "height"@, height),
            ),
            Metadata::Video { width, height } => JsonView::Object(
                with::<i32>(with::<i32>(m, "width"@, width), "height"@, height),
            ),
            _ => JsonView::Object(m),
        }
    }

    /// The member `type` must name one of the five kinds; for a picture and
    /// a film both sizes must be there.
    open spec fn decode(j: JsonView) -> Option<Metadata> {
        match required::<String>(j, "type"@) {
            Some(kind) => if kind == "File"@ {
                Some(Metadata::File)
            } else if kind == "Text"@ {
                Some(Metadata::Text)
            } else if kind == "Audio"@ {
                Some(Metadata::Audio)
            } else if kind == "Image"@ || kind == "Video"@ {
                match (required::<i32>(j, "width"@), required::<i32>(j, "height"@)) {
                    (Some(width), Some(height)) => if kind == "Image"@ {
                        Some(Metadata::Image { width, height })
                    } else {
                        Some(Metadata::Video { width, height })
                    },
                    _ => None,
                }
            } else {
                None
            },
            None => None,
        }
    }

    proof fn lemma_decode_encode(v: Metadata) {
        broadcast use lemma_lookup_with;

        Self::lemma_keys();
    }

    fn to_json(&self) -> (j: Json) {
        let mut members: Vec<(String, Json)> = Vec::new();
        match self {
            Metadata::File => {
                put::<String>(&mut members, "type", &"File".to_owned());
            },
            Metadata::Text => {
                put::<String>(&mut members, "type", &"Text".to_owned());
            },
            Metadata::Audio => {
                put::<String>(&mut members, "type", &"Audio".to_owned());
            },
            Metadata::Image { width, height } => {
                put::<String>(&mut members, "type", &"Image".to_owned());
                put::<i32>(&mut members, "width", width);
                put::<i32>(&mut members, "height", height);
            },
            Metadata::Video { width, height } => {
                put::<String>(&mut members, "type", &"Video".to_owned());
                put::<i32>(&mut members, "width", width);
                put::<i32>(&mut members, "height", height);
            },
        }
        Json::Object(members)
    }

    fn from_json(j: &Json) -> (r: Option<Metadata>) {
        let kind = read::<String>(j, "type")?;
        if same_text(kind.as_str(), "File") {
            Some(Metadata::File)
        } else if same_text(kind.as_str(), "Text") {
            Some(Metadata::Text)
        } else if same_text(kind.as_str(), "Audio") {
            Some(Metadata::Audio)
        } else if same_text(kind.as_str(), "Image") {
            let width = read::<i32>(j, "width")?;
            let height = read::<i32>(j, "height")?;
            Some(Metadata::Image { width, height })
        } else if same_text(kind.as_str(), "Video") {
            let width = read::<i32>(j, "width")?;
            let height = read::<i32>(j, "height")?;
            Some(Metadata::Video { width, height })
        } else {
            None
        }
    }
}

/// The place that an uploaded file was uploaded for.
#[derive(Clone, Copy, Debug, PartialEq, Eq)]
pub enum AttachmentTag {
    Attachments,
    Avatars,
    Backgrounds,
    Banners,
    Icons,
}

impl DeepView for AttachmentTag {
    type V = AttachmentTag;

    open spec fn deep_view(&self) -> AttachmentTag {
        *self
    }
}

impl AttachmentTag {
    /// The name that stands for the value on the wire.
    pub open spec fn name(self) -> Seq<char> {
        match self {
            AttachmentTag::Attachments => "attachments"@,
            AttachmentTag::Avatars => "avatars"@,
            AttachmentTag::Backgrounds => "backgrounds"@,
            AttachmentTag::Banners => "banners"@,
            AttachmentTag::Icons => "icons"@,
        }
    }

    /// The value that a name stands for; `None` for any other text.
    pub open spec fn named(s: Seq<char>) -> Option<AttachmentTag> {
        if s == "attachments"@ {
            Some(AttachmentTag::Attachments)
        } else if s == "avatars"@ {
            Some(AttachmentTag::Avatars)
        } else if s == "backgrounds"@ {
            Some(AttachmentTag::Backgrounds)
        } else if s == "banners"@ {
            Some(AttachmentTag::Banners)
        } else if s == "icons"@ {
            Some(AttachmentTag::Icons)
        } else {
            None
        }
    }

    /// The names, by their lengths and the characters that tell them apart.
    proof fn lemma_names()
        ensures
            "attachments"@.len() == 11 && "attachments"@[0] == 'a',
            "avatars"@.len() == 7 && "avatars"@[0] == 'a',
            "backgrounds"@.len() == 11 && "backgrounds"@[0] == 'b',
            "banners"@.len() == 7 && "banners"@[0] == 'b',
            "icons"@.len() == 5,
    {
        reveal_strlit("attachments");
        reveal_strlit("avatars");
        reveal_strlit("backgrounds");
        reveal_strlit("banners");
        reveal_strlit("icons");
    }

    /// A text that is the name of no value is not read: the set of values is
    /// closed.
    pub proof fn lemma_unknown_name(s: Seq<char>)
        requires
            forall|v: AttachmentTag| v.name() != s,
        ensures
            <AttachmentTag as Wire>::decode(JsonView::Text(s)) is None,
    {
        assert(AttachmentTag::Attachments.name() != s);
        assert(AttachmentTag::Avatars.name() != s);
        assert(AttachmentTag::Backgrounds.name() != s);
        assert(AttachmentTag::Banners.name() != s);
        assert(AttachmentTag::Icons.name() != s);
    }
}

impl Wire for AttachmentTag {
    open spec fn encode(v: AttachmentTag) -> JsonView {
        JsonView::Text(v.name())
    }

    open spec fn decode(j: JsonView) -> Option<AttachmentTag> {
        match j {
            JsonView::Text(s) => Self::named(s),
            _ => None,
        }
    }

    proof fn lemma_decode_encode(v: AttachmentTag) {
        Self::lemma_names();
    }

    fn to_json(&self) -> (j: Json) {
        match self {
            AttachmentTag::Attachments => Json::Text("attachments".to_owned()),
            AttachmentTag::Avatars => Json::Text("avatars".to_owned()),
            AttachmentTag::Backgrounds => Json::Text("backgrounds".to_owned()),
            AttachmentTag::Banners => Json::Text("banners".to_owned()),
            AttachmentTag::Icons => Json::Text("icons".to_owned()),
        }
    }

    fn from_json(j: &Json) -> (r: Option<AttachmentTag>) {
        match j {
            Json::Text(s) => {
                if same_text(s.as_str(), "attachments") {
                    Some(AttachmentTag::Attachments)
                } else if same_text(s.as_str(), "avatars") {
                    Some(AttachmentTag::Avatars)
                } else if same_text(s.as_str(), "backgrounds") {
                    Some(AttachmentTag::Backgrounds)
                } else if same_text(s.as_str(), "banners") {
                    Some(AttachmentTag::Banners)
                } else if same_text(s.as_str(), "icons") {
                    Some(AttachmentTag::Icons)
                } else {
                    None
                }
            },
            _ => None,
        }
    }
}

/// A reference to an uploaded file.
#[derive(Debug, PartialEq)]
pub struct Attachment {
    pub id: String,
    pub tag: AttachmentTag,
    /// The size of the file in bytes.
    pub size: i32,
    pub filename: String,
    pub metadata: Metadata,
    pub content_type: String,
}

/// The model of a [`Attachment`].
pub struct AttachmentView {
    pub id: Seq<char>,
    pub tag: AttachmentTag,
    pub size: i32,
    pub filename: Seq<char>,
    pub metadata: Metadata,
    pub content_type: Seq<char>,
}

impl DeepView for Attachment {
    type V = AttachmentView;

    open spec fn deep_view(&self) -> AttachmentView {
        AttachmentView {
            id: self.id.deep_view(),
            tag: self.tag.deep_view(),
            size: self.size.deep_view(),
            filename: self.filename.deep_view(),
            metadata: self.metadata.deep_view(),
            content_type: self.content_type.deep_view(),
        }
    }
}

impl Attachment {
    /// The members that the value is written with. A field that is missing adds
    /// none.
    pub open spec fn members(v: AttachmentView) -> Members {
        let m: Members = Map::empty();
        let m = with::<String>(m, "_id"@, v.id);
        let m = with::<AttachmentTag>(m, "tag"@, v.tag);
        let m = with::<i32>(m, "size"@, v.size);
        let m = with::<String>(m, "filename"@, v.filename);
        let m = with::<Metadata>(m, "metadata"@, v.metadata);
        let m = with::<String>(m, "content_type"@, v.content_type);
        m
    }

    /// The keys, by their lengths and the characters that tell them apart.
    proof fn lemma_keys()
        ensures
            "_id"@.len() == 3 && "_id"@[0] == '_',
            "tag"@.len() == 3 && "tag"@[0] == 't',
            "size"@.len() == 4,
            "filename"@.len() == 8 && "filename"@[0] == 'f',
            "metadata"@.len() == 8 && "metadata"@[0] == 'm',
            "content_type"@.len() == 12,
    {
        reveal_strlit("_id");
        reveal_strlit("tag");
        reveal_strlit("size");
        reveal_strlit("filename");
        reveal_strlit("metadata");
        reveal_strlit("content_type");
    }

    /// Each field is written under its own key, a field that is missing is
    /// written as no member at all, and no other key is written.
    pub proof fn lemma_encoded_members(v: AttachmentView)
        ensures
            <Attachment as Wire>::encode(v) is Object,
            <Attachment as Wire>::encode(v).member("_id"@) == Some(<String as Wire>::encode(v.id)),
            <Attachment as Wire>::encode(v).member("tag"@) == Some(<AttachmentTag as Wire>::encode(v.tag)),
            <Attachment as Wire>::encode(v).member("size"@) == Some(<i32 as Wire>::encode(v.size)),
            <Attachment as Wire>::encode(v).member("filename"@) == Some(<String as Wire>::encode(v.filename)),
            <Attachment as Wire>::encode(v).member("metadata"@) == Some(<Metadata as Wire>::encode(v.metadata)),
            <Attachment as Wire>::encode(v).member("content_type"@) == Some(<String as Wire>::encode(v.content_type)),
            forall|k: Seq<char>|
                (#[trigger] <Attachment as Wire>::encode(v).member(k)) is Some ==> {
                    ||| k == "_id"@
                    ||| k == "tag"@
                    ||| k == "size"@
                    ||| k == "filename"@
                    ||| k == "metadata"@
                    ||| k == "content_type"@
                },
    {
        broadcast use lemma_lookup_with;

        Self::lemma_keys();
    }
}

impl Wire for Attachment {
    open spec fn encode(v: AttachmentView) -> JsonView {
        JsonView::Object(Self::members(v))
    }

    open spec fn decode(j: JsonView) -> Option<AttachmentView> {
        let id = required::<String>(j, "_id"@);
        let tag = required::<AttachmentTag>(j, "tag"@);
        let size = required::<i32>(j, "size"@);
        let filename = required::<String>(j, "filename"@);
        let metadata = required::<Metadata>(j, "metadata"@);
        let content_type = required::<String>(j, "content_type"@);
        if j is Object && id is Some && tag is Some && size is Some && filename is Some && metadata is Some && content_type is Some {
            Some(
                AttachmentView {
                    id: id.unwrap(),
                    tag: tag.unwrap(),
                    size: size.unwrap(),
                    filename: filename.unwrap(),
                    metadata: metadata.unwrap(),
                    content_type: content_type.unwrap(),
                },
            )
        } else {
            None
        }
    }

    proof fn lemma_decode_encode(v: AttachmentView) {
        Self::lemma_encoded_members(v);
        let j = Self::encode(v);
        lemma_required_of_written::<String>(j, "_id"@, v.id);
        lemma_required_of_written::<AttachmentTag>(j, "tag"@, v.tag);
        lemma_required_of_written::<i32>(j, "size"@, v.size);
        lemma_required_of_written::<String>(j, "filename"@, v.filename);
        lemma_required_of_written::<Metadata>(j, "metadata"@, v.metadata);
        lemma_required_of_written::<String>(j, "content_type"@, v.content_type);
    }

    fn to_json(&self) -> (j: Json) {
        let mut members: Vec<(String, Json)> = Vec::new();
        put::<String>(&mut members, "_id", &self.id);
        put::<AttachmentTag>(&mut members, "tag", &self.tag);
        put::<i32>(&mut members, "size", &self.size);
        put::<String>(&mut members, "filename", &self.filename);
        put::<Metadata>(&mut members, "metadata", &self.metadata);
        put::<String>(&mut members, "content_type", &self.content_type);
        Json::Object(members)
    }

    fn from_json(j: &Json) -> (r: Option<Attachment>) {
        if !j.is_object() {
            return None;
        }
        let id = read::<String>(j, "_id")?;
        let tag = read::<AttachmentTag>(j, "tag")?;
        let size = read::<i32>(j, "size")?;
        let filename = read::<String>(j, "filename")?;
        let metadata = read::<Metadata>(j, "metadata")?;
        let content_type = read::<String>(j, "content_type")?;
        Some(Attachment { id, tag, size, filename, metadata, content_type })
    }
}

} // verus!
