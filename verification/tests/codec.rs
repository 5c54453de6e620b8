use revolt_rs::data::autumn::{Attachment, AttachmentTag, Metadata};
use revolt_rs::data::channel::{Channel, ChannelTypes, DMChannel, RolePermissions};
use revolt_rs::data::internal::{
    EditAutumn, EditMessage, EditUser, Invite, Permissions, RemoveField, SearchMessages, SendMessage,
};
use revolt_rs::data::message::{
    ContentType, Embed, EmbedTypes, Image, ImageSize, LastMessage, LastMessageType, Message, MessageContent,
    MessageEdited, Messages, Reply, SEContentType, SEContentTypes, SearchSort, SpecialEmbed,
    SpecialEmbedTypes, Video,
};
use revolt_rs::data::server::{Category, Member, MemberId, Role, Server, SystemMessages};
use revolt_rs::data::user::{
    Profile, ProfileTypes, Relationship, RelationshipStatus, Status, StatusPresence, User,
};
use revolt_rs::error::{CodecError, RevoltRsError};
use revolt_rs::json::Json;
use revolt_rs::text::same_text;
use revolt_rs::wire::{
    from_text, read, read_document, read_optional, to_text, written_text, Field, Table, Wire,
};

const SCHEMA: RevoltRsError = RevoltRsError::Serde { source: CodecError::Schema };
const SYNTAX: RevoltRsError = RevoltRsError::Serde { source: CodecError::Syntax };

fn text(s: &str) -> Json {
    Json::Text(s.to_string())
}

fn object(members: Vec<(&str, Json)>) -> Json {
    Json::Object(members.into_iter().map(|(k, v)| (k.to_string(), v)).collect())
}

fn attachment() -> Attachment {
    Attachment {
        id: "A1".to_string(),
        tag: AttachmentTag::Avatars,
        size: 1024,
        filename: "me.png".to_string(),
        metadata: Metadata::Image { width: 64, height: 32 },
        content_type: "image/png".to_string(),
    }
}

const ATTACHMENT: &str = r#"{"_id":"A1","tag":"avatars","size":1024,"filename":"me.png","metadata":{"type":"Image","width":64,"height":32},"content_type":"image/png"}"#;

#[test]
fn a_channel_without_icon_has_no_icon() {
    let channel: Channel = from_text(r#"{"_id":"C1","channel_type":"TextChannel","server":"S1"}"#).unwrap();
    assert_eq!(channel.id, "C1");
    assert_eq!(channel.channel_type, ChannelTypes::TextChannel);
    assert_eq!(channel.server, Field::Present("S1".to_string()));
    assert_eq!(channel.icon, Field::Missing);
    assert_eq!(channel.active, Field::Missing);
    assert_eq!(channel.recipients, Field::Missing);
    assert_eq!(channel.name, Field::Missing);
    assert_eq!(channel.owner, Field::Missing);
    assert_eq!(channel.description, Field::Missing);
    assert_eq!(channel.last_message, Field::Missing);
    assert_eq!(channel.user, Field::Missing);
    assert_eq!(channel.default_permissions, Field::Missing);
    assert_eq!(channel.role_permissions, Field::Missing);
    assert_eq!(channel.permissions, Field::Missing);
    assert_eq!(channel.nonce, Field::Missing);
}

#[test]
fn a_missing_field_is_written_as_no_member() {
    let channel: Channel = from_text(r#"{"_id":"C1","channel_type":"TextChannel","server":"S1"}"#).unwrap();
    let written = to_text(&channel).unwrap();
    assert_eq!(written, r#"{"_id":"C1","channel_type":"TextChannel","server":"S1"}"#);
    assert!(!written.contains("null"));
    assert!(!written.contains("icon"));
}

#[test]
fn an_unknown_kind_of_channel_is_refused() {
    let r: Result<Channel, RevoltRsError> = from_text(r#"{"_id":"C1","channel_type":"Carrier"}"#);
    assert_eq!(r, Err(SCHEMA));
    let r: Result<Channel, RevoltRsError> = from_text(r#"{"_id":"C1","channel_type":"textchannel"}"#);
    assert_eq!(r, Err(SCHEMA));
    let r: Result<Channel, RevoltRsError> = from_text(r#"{"_id":"C1","channel_type":""}"#);
    assert_eq!(r, Err(SCHEMA));
    let r: Result<Channel, RevoltRsError> = from_text(r#"{"_id":"C1","channel_type":{"type":"Group"}}"#);
    assert_eq!(r, Err(SCHEMA));
    let r: Result<Channel, RevoltRsError> = from_text(r#"{"_id":"C1"}"#);
    assert_eq!(r, Err(SCHEMA));
}

#[test]
fn every_kind_of_channel_is_read_and_written() {
    let kinds = [
        (ChannelTypes::SavedMessages, "SavedMessages"),
        (ChannelTypes::DirectMessage, "DirectMessage"),
        (ChannelTypes::Group, "Group"),
        (ChannelTypes::TextChannel, "TextChannel"),
        (ChannelTypes::VoiceChannel, "VoiceChannel"),
    ];
    for (kind, name) in kinds {
        assert_eq!(ChannelTypes::from_json(&text(name)), Some(kind));
        assert_eq!(kind.to_json(), text(name));
    }
    assert_eq!(ChannelTypes::from_json(&text("Text")), None);
    assert_eq!(ChannelTypes::from_json(&Json::Null), None);
    assert_eq!(ChannelTypes::from_json(&Json::Number(Some(0))), None);
}

#[test]
fn the_names_of_the_closed_sets() {
    assert_eq!(to_text(&AttachmentTag::Attachments).unwrap(), r#""attachments""#);
    assert_eq!(to_text(&AttachmentTag::Avatars).unwrap(), r#""avatars""#);
    assert_eq!(to_text(&AttachmentTag::Backgrounds).unwrap(), r#""backgrounds""#);
    assert_eq!(to_text(&AttachmentTag::Banners).unwrap(), r#""banners""#);
    assert_eq!(to_text(&AttachmentTag::Icons).unwrap(), r#""icons""#);
    assert_eq!(from_text::<AttachmentTag>(r#""Icons""#), Err(SCHEMA));
    for (status, name) in [
        (RelationshipStatus::Blocked, "Blocked"),
        (RelationshipStatus::BlockedOther, "BlockedOther"),
        (RelationshipStatus::Friend, "Friend"),
        (RelationshipStatus::Incoming, "Incoming"),
        (RelationshipStatus::Nothing, "None"),
        (RelationshipStatus::Outgoing, "Outgoing"),
        (RelationshipStatus::User, "User"),
    ] {
        assert_eq!(RelationshipStatus::from_json(&text(name)), Some(status));
        assert_eq!(status.to_json(), text(name));
    }
    assert_eq!(RelationshipStatus::from_json(&text("Nothing")), None);
    for (presence, name) in [
        (StatusPresence::Busy, "Busy"),
        (StatusPresence::Idle, "Idle"),
        (StatusPresence::Invisible, "Invisible"),
        (StatusPresence::Online, "Online"),
    ] {
        assert_eq!(StatusPresence::from_json(&text(name)), Some(presence));
        assert_eq!(presence.to_json(), text(name));
    }
    for (kind, name) in [(EmbedTypes::Nothing, "None"), (EmbedTypes::Website, "Website"), (EmbedTypes::Image, "Image")]
    {
        assert_eq!(EmbedTypes::from_json(&text(name)), Some(kind));
        assert_eq!(kind.to_json(), text(name));
    }
    for (kind, name) in [
        (SpecialEmbedTypes::Nothing, "None"),
        (SpecialEmbedTypes::YouTube, "YouTube"),
        (SpecialEmbedTypes::Twitch, "Twitch"),
        (SpecialEmbedTypes::Spotify, "Spotify"),
        (SpecialEmbedTypes::Soundcloud, "Soundcloud"),
        (SpecialEmbedTypes::Bandcamp, "Bandcamp"),
    ] {
        assert_eq!(SpecialEmbedTypes::from_json(&text(name)), Some(kind));
        assert_eq!(kind.to_json(), text(name));
    }
    for (kind, name) in [
        (SEContentTypes::Channel, "Channel"),
        (SEContentTypes::Clip, "Clip"),
        (SEContentTypes::Video, "Video"),
        (SEContentTypes::Album, "Album"),
        (SEContentTypes::Track, "Track"),
    ] {
        assert_eq!(SEContentTypes::from_json(&text(name)), Some(kind));
        assert_eq!(kind.to_json(), text(name));
    }
    for (size, name) in [(ImageSize::Large, "Large"), (ImageSize::Preview, "Preview")] {
        assert_eq!(ImageSize::from_json(&text(name)), Some(size));
        assert_eq!(size.to_json(), text(name));
    }
    for (sort, name) in
        [(SearchSort::Latest, "Latest"), (SearchSort::Oldest, "Oldest"), (SearchSort::Relevance, "Relevance")]
    {
        assert_eq!(SearchSort::from_json(&text(name)), Some(sort));
        assert_eq!(sort.to_json(), text(name));
    }
    for (field, name) in [
        (RemoveField::Avatar, "avatar"),
        (RemoveField::ProfileBackground, "profile_background"),
        (RemoveField::ProfileContent, "profile_content"),
        (RemoveField::StatusText, "status_text"),
    ] {
        assert_eq!(RemoveField::from_json(&text(name)), Some(field));
        assert_eq!(field.to_json(), text(name));
    }
    assert_eq!(RemoveField::from_json(&text("Avatar")), None);
}

#[test]
fn metadata_names_its_kind_under_type() {
    assert_eq!(to_text(&Metadata::File).unwrap(), r#"{"type":"File"}"#);
    assert_eq!(to_text(&Metadata::Text).unwrap(), r#"{"type":"Text"}"#);
    assert_eq!(to_text(&Metadata::Audio).unwrap(), r#"{"type":"Audio"}"#);
    assert_eq!(
        to_text(&Metadata::Image { width: 3, height: 4 }).unwrap(),
        r#"{"height":4,"type":"Image","width":3}"#
    );
    assert_eq!(
        to_text(&Metadata::Video { width: 3, height: 4 }).unwrap(),
        r#"{"height":4,"type":"Video","width":3}"#
    );
    assert_eq!(from_text::<Metadata>(r#"{"type":"File"}"#), Ok(Metadata::File));
    assert_eq!(from_text::<Metadata>(r#"{"type":"Text","width":1}"#), Ok(Metadata::Text));
    assert_eq!(
        from_text::<Metadata>(r#"{"width":640,"type":"Video","height":480}"#),
        Ok(Metadata::Video { width: 640, height: 480 })
    );
    assert_eq!(
        from_text::<Metadata>(r#"{"type":"Image","width":1,"height":2}"#),
        Ok(Metadata::Image { width: 1, height: 2 })
    );
    assert_eq!(from_text::<Metadata>(r#"{"type":"Image","width":1}"#), Err(SCHEMA));
    assert_eq!(from_text::<Metadata>(r#"{"type":"Video","height":1}"#), Err(SCHEMA));
    assert_eq!(from_text::<Metadata>(r#"{"type":"Picture"}"#), Err(SCHEMA));
    assert_eq!(from_text::<Metadata>(r#"{"type":"file"}"#), Err(SCHEMA));
    assert_eq!(from_text::<Metadata>(r#"{}"#), Err(SCHEMA));
    assert_eq!(from_text::<Metadata>(r#""File""#), Err(SCHEMA));
}

#[test]
fn an_attachment_is_read_and_written() {
    assert_eq!(from_text::<Attachment>(ATTACHMENT), Ok(attachment()));
    let again: Attachment = from_text(&to_text(&attachment()).unwrap()).unwrap();
    assert_eq!(again, attachment());
    assert_eq!(
        attachment().to_json(),
        object(vec![
            ("_id", text("A1")),
            ("tag", text("avatars")),
            ("size", Json::Number(Some(1024))),
            ("filename", text("me.png")),
            (
                "metadata",
                object(vec![
                    ("type", text("Image")),
                    ("width", Json::Number(Some(64))),
                    ("height", Json::Number(Some(32)))
                ])
            ),
            ("content_type", text("image/png")),
        ])
    );
}

#[test]
fn a_required_member_must_be_there() {
    let without_filename = r#"{"_id":"A1","tag":"avatars","size":1,"metadata":{"type":"File"},"content_type":"x"}"#;
    assert_eq!(from_text::<Attachment>(without_filename), Err(SCHEMA));
    let id_under_another_key =
        r#"{"id":"A1","tag":"avatars","size":1,"filename":"f","metadata":{"type":"File"},"content_type":"x"}"#;
    assert_eq!(from_text::<Attachment>(id_under_another_key), Err(SCHEMA));
    assert_eq!(from_text::<Invite>(r#"{}"#), Err(SCHEMA));
    assert_eq!(from_text::<Reply>(r#"{"id":"M1"}"#), Err(SCHEMA));
}

#[test]
fn a_member_of_the_wrong_type_is_refused() {
    assert_eq!(from_text::<Invite>(r#"{"code":5}"#), Err(SCHEMA));
    assert_eq!(from_text::<Permissions>(r#"{"permissions":"5"}"#), Err(SCHEMA));
    assert_eq!(from_text::<Reply>(r#"{"id":"M1","mention":"yes"}"#), Err(SCHEMA));
    assert_eq!(from_text::<Reply>(r#"{"id":"M1","mention":1}"#), Err(SCHEMA));
    assert_eq!(from_text::<Status>(r#"{"text":5}"#), Err(SCHEMA));
    assert_eq!(from_text::<User>(r#"{"_id":"U1","username":"ann","online":"true"}"#), Err(SCHEMA));
    assert_eq!(from_text::<Category>(r#"{"id":"K","title":"t","channels":"C1"}"#), Err(SCHEMA));
}

#[test]
fn a_null_member_is_a_state_of_its_own() {
    assert_eq!(from_text::<Status>(r#"{"text":null}"#), Ok(Status { text: Field::Null, presence: Field::Missing }));
    assert_eq!(from_text::<Status>(r#"{}"#), Ok(Status { text: Field::Missing, presence: Field::Missing }));
    assert_eq!(
        from_text::<Status>(r#"{"text":""}"#),
        Ok(Status { text: Field::Present(String::new()), presence: Field::Missing })
    );
    let cleared = Status { text: Field::Null, presence: Field::Present(StatusPresence::Busy) };
    assert_eq!(to_text(&cleared).unwrap(), r#"{"presence":"Busy","text":null}"#);
    assert_eq!(from_text::<Status>(&to_text(&cleared).unwrap()), Ok(cleared));
    assert_eq!(from_text::<Invite>(r#"{"code":null}"#), Err(SCHEMA));
    assert_eq!(from_text::<Status>(r#"{"text":5}"#), Err(SCHEMA));
}

#[test]
fn a_channel_with_a_null_description_differs_from_one_without() {
    let without: Channel = from_text(r#"{"_id":"C1","channel_type":"Group"}"#).unwrap();
    let with_null: Channel = from_text(r#"{"_id":"C1","channel_type":"Group","description":null}"#).unwrap();
    assert_eq!(without.description, Field::Missing);
    assert_eq!(with_null.description, Field::Null);
    assert!(without.description.is_missing());
    assert!(with_null.description.is_null());
    assert!(!with_null.description.is_missing());
    assert_eq!(with_null.description.value(), None);
    assert_ne!(without, with_null);
    assert_eq!(without.id, with_null.id);
    assert_eq!(without.channel_type, with_null.channel_type);
    assert_eq!(without.server, with_null.server);
    assert_eq!(without.icon, with_null.icon);
    assert_eq!(to_text(&without).unwrap(), r#"{"_id":"C1","channel_type":"Group"}"#);
    assert_eq!(to_text(&with_null).unwrap(), r#"{"_id":"C1","channel_type":"Group","description":null}"#);
}

#[test]
fn a_field_from_an_optional_argument() {
    assert_eq!(Field::from_option(Some(5)), Field::Present(5));
    assert_eq!(Field::<i32>::from_option(None), Field::Missing);
    assert_eq!(Field::Present(5).value(), Some(&5));
    assert_eq!(Field::<i32>::Missing.value(), None);
    assert_eq!(Field::<i32>::Null.value(), None);
    assert!(!Field::Present(5).is_missing());
    assert!(!Field::Present(5).is_null());
}

#[test]
fn members_that_the_type_does_not_know_are_passed_over() {
    assert_eq!(
        from_text::<Invite>(r#"{"code":"abcd","uses":3,"more":{"a":[1,2.5,null]}}"#),
        Ok(Invite { code: "abcd".to_string() })
    );
}

#[test]
fn a_document_that_is_no_object_is_no_struct() {
    assert_eq!(from_text::<Status>("[]"), Err(SCHEMA));
    assert_eq!(from_text::<Status>("null"), Err(SCHEMA));
    assert_eq!(from_text::<Status>(r#""""#), Err(SCHEMA));
    assert_eq!(from_text::<Status>("5"), Err(SCHEMA));
    assert_eq!(from_text::<Profile>("true"), Err(SCHEMA));
    assert_eq!(Status::from_json(&Json::Array(vec![])), None);
}

#[test]
fn a_text_that_is_no_json_is_an_error_of_syntax() {
    assert_eq!(from_text::<Status>(""), Err(SYNTAX));
    assert_eq!(from_text::<Status>("{"), Err(SYNTAX));
    assert_eq!(from_text::<Status>(r#"{"text":"a",}"#), Err(SYNTAX));
    assert_eq!(from_text::<Status>("{} {}"), Err(SYNTAX));
    assert_eq!(from_text::<String>("abc"), Err(SYNTAX));
}

#[test]
fn numbers_must_be_integers_of_32_bits() {
    assert_eq!(from_text::<i32>("0"), Ok(0));
    assert_eq!(from_text::<i32>("-7"), Ok(-7));
    assert_eq!(from_text::<i32>("2147483647"), Ok(i32::MAX));
    assert_eq!(from_text::<i32>("-2147483648"), Ok(i32::MIN));
    assert_eq!(from_text::<i32>("2147483648"), Err(SCHEMA));
    assert_eq!(from_text::<i32>("-2147483649"), Err(SCHEMA));
    assert_eq!(from_text::<i32>("9223372036854775808"), Err(SCHEMA));
    assert_eq!(from_text::<i32>("1.5"), Err(SCHEMA));
    assert_eq!(from_text::<i32>("1.0"), Err(SCHEMA));
    assert_eq!(from_text::<i32>("1e2"), Err(SCHEMA));
    assert_eq!(from_text::<i32>(r#""1""#), Err(SCHEMA));
    assert_eq!(i32::from_json(&Json::Number(None)), None);
    assert_eq!(i32::from_json(&Json::Number(Some(2147483648))), None);
    assert_eq!(i32::from_json(&Json::Number(Some(-5))), Some(-5));
    assert_eq!(5i32.to_json(), Json::Number(Some(5)));
}

#[test]
fn texts_and_truth_values() {
    assert_eq!(from_text::<String>(r#""a\nbé""#), Ok("a\nb\u{e9}".to_string()));
    assert_eq!(to_text(&"a\"b\\c\n".to_string()).unwrap(), r#""a\"b\\c\n""#);
    assert_eq!(from_text::<bool>("true"), Ok(true));
    assert_eq!(from_text::<bool>("false"), Ok(false));
    assert_eq!(from_text::<bool>("0"), Err(SCHEMA));
    assert_eq!(to_text(&true).unwrap(), "true");
    assert_eq!(String::from_json(&Json::Null), None);
    assert_eq!(bool::from_json(&text("true")), None);
}

#[test]
fn lists_are_read_item_by_item() {
    assert_eq!(from_text::<Vec<i32>>("[1,2,3]"), Ok(vec![1, 2, 3]));
    assert_eq!(from_text::<Vec<i32>>("[]"), Ok(vec![]));
    assert_eq!(from_text::<Vec<i32>>("[1,\"2\",3]"), Err(SCHEMA));
    assert_eq!(from_text::<Vec<i32>>("{}"), Err(SCHEMA));
    assert_eq!(from_text::<Vec<Vec<String>>>(r#"[["a"],[]]"#), Ok(vec![vec!["a".to_string()], vec![]]));
    assert_eq!(to_text(&vec![1, 2, 3]).unwrap(), "[1,2,3]");
    assert_eq!(to_text(&Vec::<String>::new()).unwrap(), "[]");
}

#[test]
fn a_pair_of_masks_is_an_array_of_two_numbers() {
    assert_eq!(from_text::<(i32, i32)>("[1,2]"), Ok((1, 2)));
    assert_eq!(from_text::<(i32, i32)>("[1]"), Err(SCHEMA));
    assert_eq!(from_text::<(i32, i32)>("[1,2,3]"), Err(SCHEMA));
    assert_eq!(from_text::<(i32, i32)>("[1,\"2\"]"), Err(SCHEMA));
    assert_eq!(from_text::<(i32, i32)>("{}"), Err(SCHEMA));
    assert_eq!(to_text(&(7, -1)).unwrap(), "[7,-1]");
}

#[test]
fn a_table_is_an_object_with_any_keys() {
    let table: Table<i32> = from_text(r#"{"R1":1,"R2":2}"#).unwrap();
    assert_eq!(table.entries, vec![("R1".to_string(), 1), ("R2".to_string(), 2)]);
    assert_eq!(table.get("R1"), Some(&1));
    assert_eq!(table.get("R2"), Some(&2));
    assert_eq!(table.get("R3"), None);
    assert_eq!(table.get(""), None);
    assert_eq!(to_text(&table).unwrap(), r#"{"R1":1,"R2":2}"#);
    assert_eq!(from_text::<Table<i32>>(r#"{}"#), Ok(Table { entries: vec![] }));
    assert_eq!(from_text::<Table<i32>>(r#"{"R1":"1"}"#), Err(SCHEMA));
    assert_eq!(from_text::<Table<i32>>(r#"[]"#), Err(SCHEMA));
}

#[test]
fn in_a_table_the_last_entry_of_a_key_counts() {
    let twice = Table { entries: vec![("R".to_string(), 1), ("S".to_string(), 5), ("R".to_string(), 2)] };
    assert_eq!(twice.get("R"), Some(&2));
    assert_eq!(twice.get("S"), Some(&5));
    assert_eq!(to_text(&twice).unwrap(), r#"{"R":2,"S":5}"#);
    let doc = object(vec![("R", text("no number")), ("S", Json::Number(Some(5))), ("R", Json::Number(Some(2)))]);
    let table = Table::<i32>::from_json(&doc).unwrap();
    assert_eq!(table.entries, vec![("S".to_string(), 5), ("R".to_string(), 2)]);
    let doc = object(vec![("R", Json::Number(Some(2))), ("R", text("no number"))]);
    assert_eq!(Table::<i32>::from_json(&doc), None);
}

#[test]
fn a_bare_text_is_the_text_form_and_an_object_the_structured_form() {
    assert_eq!(from_text::<ContentType>(r#""hello""#), Ok(ContentType::B("hello".to_string())));
    assert_eq!(from_text::<ContentType>(r#""""#), Ok(ContentType::B(String::new())));
    assert_eq!(
        from_text::<ContentType>(r#"{"type":"user_added","id":"U1","by":"U2"}"#),
        Ok(ContentType::A(MessageContent {
            message_type: "user_added".to_string(),
            name: Field::Missing,
            id: Field::Present("U1".to_string()),
            by: Field::Present("U2".to_string()),
            content: Field::Missing,
        }))
    );
    assert_eq!(from_text::<ContentType>(r#"{"id":"U1"}"#), Err(SCHEMA));
    assert_eq!(from_text::<ContentType>("5"), Err(SCHEMA));
    assert_eq!(from_text::<ContentType>("null"), Err(SCHEMA));

    assert_eq!(from_text::<LastMessageType>(r#""M1""#), Ok(LastMessageType::B("M1".to_string())));
    assert_eq!(
        from_text::<LastMessageType>(r#"{"_id":"M1","author":"U1","short":"hi"}"#),
        Ok(LastMessageType::A(LastMessage {
            id: "M1".to_string(),
            author: "U1".to_string(),
            short: "hi".to_string()
        }))
    );
    assert_eq!(from_text::<LastMessageType>(r#"{"_id":"M1"}"#), Err(SCHEMA));

    assert_eq!(from_text::<ProfileTypes>(r#""F1""#), Ok(ProfileTypes::A("F1".to_string())));
    assert_eq!(from_text::<ProfileTypes>(ATTACHMENT), Ok(ProfileTypes::B(attachment())));
    assert_eq!(from_text::<ProfileTypes>("[]"), Err(SCHEMA));
}

#[test]
fn either_form_is_written_as_it_is() {
    assert_eq!(to_text(&ContentType::B("hello".to_string())).unwrap(), r#""hello""#);
    let system = MessageContent {
        message_type: "text".to_string(),
        name: Field::Missing,
        id: Field::Missing,
        by: Field::Missing,
        content: Field::Present("c".to_string()),
    };
    assert_eq!(to_text(&ContentType::A(system)).unwrap(), r#"{"content":"c","type":"text"}"#);
    assert_eq!(to_text(&LastMessageType::B("M1".to_string())).unwrap(), r#""M1""#);
    assert_eq!(to_text(&ProfileTypes::A("F1".to_string())).unwrap(), r#""F1""#);
    let back: ProfileTypes = from_text(&to_text(&ProfileTypes::B(attachment())).unwrap()).unwrap();
    assert_eq!(back, ProfileTypes::B(attachment()));
}

#[test]
fn the_content_of_a_special_embed_says_which_form_it_is() {
    assert_eq!(from_text::<SEContentType>(r#"{"A":"Clip"}"#), Ok(SEContentType::A(SEContentTypes::Clip)));
    assert_eq!(from_text::<SEContentType>(r#"{"B":"other"}"#), Ok(SEContentType::B("other".to_string())));
    assert_eq!(from_text::<SEContentType>(r#"{"A":"other"}"#), Err(SCHEMA));
    assert_eq!(from_text::<SEContentType>(r#"{"B":5}"#), Err(SCHEMA));
    assert_eq!(from_text::<SEContentType>(r#"{"C":"Clip"}"#), Err(SCHEMA));
    assert_eq!(from_text::<SEContentType>(r#"{}"#), Err(SCHEMA));
    assert_eq!(from_text::<SEContentType>(r#"{"A":"Clip","B":"x"}"#), Err(SCHEMA));
    assert_eq!(from_text::<SEContentType>(r#""Clip""#), Err(SCHEMA));
    let twice = object(vec![("A", text("no kind")), ("A", text("Clip"))]);
    assert_eq!(SEContentType::from_json(&twice), Some(SEContentType::A(SEContentTypes::Clip)));
    let mixed = object(vec![("B", text("x")), ("A", text("Clip"))]);
    assert_eq!(SEContentType::from_json(&mixed), None);
    assert_eq!(SEContentType::from_json(&Json::Array(vec![])), None);
    assert_eq!(to_text(&SEContentType::A(SEContentTypes::Album)).unwrap(), r#"{"A":"Album"}"#);
    assert_eq!(to_text(&SEContentType::B("x".to_string())).unwrap(), r#"{"B":"x"}"#);
}

#[test]
fn a_user_with_all_its_fields() {
    let body = format!(
        r#"{{"_id":"U1","username":"ann","avatar":{},"relations":[{{"status":"Friend","_id":"U2"}}],"badges":3,"status":{{"text":"hi","presence":"Idle"}},"relationship":"User","online":true,"flags":0,"bot":"B"}}"#,
        ATTACHMENT
    );
    let user: User = from_text(&body).unwrap();
    let wanted = User {
        id: "U1".to_string(),
        username: "ann".to_string(),
        avatar: Field::Present(attachment()),
        relations: Field::Present(vec![Relationship { status: RelationshipStatus::Friend, id: Field::Present("U2".to_string()) }]),
        badges: Field::Present(3),
        status: Field::Present(Status { text: Field::Present("hi".to_string()), presence: Field::Present(StatusPresence::Idle) }),
        relationship: Field::Present(RelationshipStatus::User),
        online: Field::Present(true),
        flags: Field::Present(0),
        bot: Field::Present("B".to_string()),
    };
    assert_eq!(user, wanted);
    let again: User = from_text(&to_text(&user).unwrap()).unwrap();
    assert_eq!(again, wanted);
}

#[test]
fn a_profile_without_fields_is_an_empty_object() {
    let profile: Profile = from_text("{}").unwrap();
    assert_eq!(profile, Profile { content: Field::Missing, background: Field::Missing });
    assert_eq!(to_text(&profile).unwrap(), "{}");
    let profile: Profile = from_text(r#"{"background":"F1"}"#).unwrap();
    assert_eq!(profile, Profile { content: Field::Missing, background: Field::Present(ProfileTypes::A("F1".to_string())) });
}

#[test]
fn a_direct_conversation_is_read_and_written() {
    let body = r#"{"_id":"C1","channel_type":"DirectMessage","active":true,"recipients":["U1","U2"],"last_message":{"_id":"M1","author":"U1","short":"hi"},"permissions":5}"#;
    let dm: DMChannel = from_text(body).unwrap();
    assert_eq!(dm.id, "C1");
    assert_eq!(dm.channel_type, ChannelTypes::DirectMessage);
    assert_eq!(dm.active, Field::Present(true));
    assert_eq!(dm.recipients, vec!["U1".to_string(), "U2".to_string()]);
    assert_eq!(dm.name, Field::Missing);
    assert_eq!(dm.last_message.short, "hi");
    assert_eq!(dm.icon, Field::Missing);
    assert_eq!(dm.permissions, Field::Present(5));
    let again: DMChannel = from_text(&to_text(&dm).unwrap()).unwrap();
    assert_eq!(again, dm);
    let without_recipients = r#"{"_id":"C1","channel_type":"DirectMessage","last_message":{"_id":"M1","author":"U1","short":"hi"}}"#;
    assert_eq!(from_text::<DMChannel>(without_recipients), Err(SCHEMA));
}

#[test]
fn a_channel_with_all_its_fields() {
    let body = format!(
        r#"{{"_id":"C1","server":"S1","channel_type":"Group","active":false,"recipients":["U1"],"name":"n","owner":"U1","description":"d","last_message":"M1","user":"U1","icon":{},"default_permissions":1,"role_permissions":{{"R1":2}},"permissions":3,"nonce":"N"}}"#,
        ATTACHMENT
    );
    let channel: Channel = from_text(&body).unwrap();
    let wanted = Channel {
        id: "C1".to_string(),
        server: Field::Present("S1".to_string()),
        channel_type: ChannelTypes::Group,
        active: Field::Present(false),
        recipients: Field::Present(vec!["U1".to_string()]),
        name: Field::Present("n".to_string()),
        owner: Field::Present("U1".to_string()),
        description: Field::Present("d".to_string()),
        last_message: Field::Present(LastMessageType::B("M1".to_string())),
        user: Field::Present("U1".to_string()),
        icon: Field::Present(attachment()),
        default_permissions: Field::Present(1),
        role_permissions: Field::Present(Table { entries: vec![("R1".to_string(), 2)] }),
        permissions: Field::Present(3),
        nonce: Field::Present("N".to_string()),
    };
    assert_eq!(channel, wanted);
    let again: Channel = from_text(&to_text(&channel).unwrap()).unwrap();
    assert_eq!(again, wanted);
    assert_eq!(
        from_text::<RolePermissions>(r#"{"role_permissions":"x"}"#),
        Ok(RolePermissions { role_permissions: "x".to_string() })
    );
}

#[test]
fn a_message_with_what_it_carries() {
    let body = format!(
        r#"{{"_id":"M1","nonce":"N","channel":"C1","author":"U1","content":"hi","attachments":[{}],"edited":{{"$date":"2021-01-01"}},"embeds":[{{"type":"YouTube","url":"u","special":{{"type":"YouTube","content_type":{{"A":"Video"}},"id":"v"}},"image":{{"url":"i","width":1,"height":2,"size":"Large"}},"video":{{"url":"v","width":3,"height":4}}}}],"mentions":["U2"],"replies":[]}}"#,
        ATTACHMENT
    );
    let message: Message = from_text(&body).unwrap();
    assert_eq!(message.id, "M1");
    assert_eq!(message.content, Field::Present(ContentType::B("hi".to_string())));
    assert_eq!(message.attachments, Field::Present(vec![attachment()]));
    assert_eq!(message.edited, Field::Present(MessageEdited { date: "2021-01-01".to_string() }));
    assert_eq!(message.mentions, Field::Present(vec!["U2".to_string()]));
    assert_eq!(message.replies, Field::Present(vec![]));
    let embeds = message.embeds.value().unwrap();
    assert_eq!(embeds.len(), 1);
    let wanted = Embed {
        embed_type: SpecialEmbedTypes::YouTube,
        url: Field::Present("u".to_string()),
        width: Field::Missing,
        height: Field::Missing,
        size: Field::Missing,
        special: Field::Present(SpecialEmbed {
            se_type: SpecialEmbedTypes::YouTube,
            content_type: Field::Present(SEContentType::A(SEContentTypes::Video)),
            id: Field::Present("v".to_string()),
        }),
        title: Field::Missing,
        description: Field::Missing,
        image: Field::Present(Image { url: "i".to_string(), width: 1, height: 2, size: ImageSize::Large }),
        video: Field::Present(Video { url: "v".to_string(), width: 3, height: 4 }),
        site_name: Field::Missing,
        icon_url: Field::Missing,
        color: Field::Missing,
    };
    assert_eq!(embeds[0], wanted);
    let again: Message = from_text(&to_text(&message).unwrap()).unwrap();
    assert_eq!(again, message);
    let bad_embed = r#"{"_id":"M1","channel":"C1","author":"U1","embeds":[{"type":"Vimeo"}]}"#;
    assert_eq!(from_text::<Message>(bad_embed), Err(SCHEMA));
}

#[test]
fn messages_with_their_authors() {
    let body = r#"{"messages":[],"members":[{"_id":{"server":"S1","user":"U1"},"nickname":"a","roles":["R1"]}]}"#;
    let messages: Messages = from_text(body).unwrap();
    assert_eq!(messages.messages, Field::Present(vec![]));
    assert_eq!(messages.users, Field::Missing);
    assert_eq!(
        messages.members,
        Field::Present(vec![Member {
            id: MemberId { server: "S1".to_string(), user: "U1".to_string() },
            nickname: Field::Present("a".to_string()),
            avatar: Field::Missing,
            roles: Field::Present(vec!["R1".to_string()]),
        }])
    );
    assert_eq!(
        to_text(&messages).unwrap(),
        r#"{"members":[{"_id":{"server":"S1","user":"U1"},"nickname":"a","roles":["R1"]}],"messages":[]}"#
    );
}

#[test]
fn a_server_is_read_and_written() {
    let body = r#"{"_id":"S1","owner":"U1","name":"s","channels":["C2","C1"],"categories":[{"id":"K","title":"t","channels":["C1"]}],"system_messages":{"user_joined":"C1"},"roles":{"R1":{"name":"mod","permissions":[1,2],"hoist":true,"rank":1}},"default_permissions":[3,4]}"#;
    let server: Server = from_text(body).unwrap();
    let wanted = Server {
        id: "S1".to_string(),
        nonce: Field::Missing,
        owner: "U1".to_string(),
        name: "s".to_string(),
        description: Field::Missing,
        channels: vec!["C2".to_string(), "C1".to_string()],
        categories: Field::Present(vec![Category {
            id: "K".to_string(),
            title: "t".to_string(),
            channels: vec!["C1".to_string()],
        }]),
        system_messages: Field::Present(SystemMessages {
            user_joined: Field::Present("C1".to_string()),
            user_left: Field::Missing,
            user_kicked: Field::Missing,
            user_banned: Field::Missing,
        }),
        roles: Field::Present(Table {
            entries: vec![(
                "R1".to_string(),
                Role {
                    name: "mod".to_string(),
                    permissions: (1, 2),
                    colour: Field::Missing,
                    hoist: Field::Present(true),
                    rank: Field::Present(1),
                },
            )],
        }),
        default_permissions: (3, 4),
        icon: Field::Missing,
        banner: Field::Missing,
    };
    assert_eq!(server, wanted);
    let again: Server = from_text(&to_text(&server).unwrap()).unwrap();
    assert_eq!(again, wanted);
    let without_masks = r#"{"_id":"S1","owner":"U1","name":"s","channels":[]}"#;
    assert_eq!(from_text::<Server>(without_masks), Err(SCHEMA));
}

#[test]
fn the_payloads_leave_out_what_is_missing() {
    let nothing = EditUser { status: Field::Missing, profile: Field::Missing, avatar: Field::Missing, remove: Field::Missing };
    assert_eq!(to_text(&nothing).unwrap(), "{}");
    assert_eq!(nothing.to_json(), Json::Object(vec![]));
    assert_eq!(from_text::<EditUser>("{}"), Ok(nothing));
    let only_remove = EditUser { status: Field::Missing, profile: Field::Missing, avatar: Field::Missing, remove: Field::Present(RemoveField::Avatar) };
    assert_eq!(to_text(&only_remove).unwrap(), r#"{"remove":"avatar"}"#);
    let channel = EditAutumn { name: Field::Missing, description: Field::Present("d".to_string()), icon: Field::Missing, remove: Field::Missing };
    assert_eq!(to_text(&channel).unwrap(), r#"{"description":"d"}"#);
    assert_eq!(from_text::<EditAutumn>(r#"{"description":"d"}"#), Ok(channel));
    let search = SearchMessages {
        query: Field::Missing,
        limit: Field::Present(1),
        before: Field::Missing,
        after: Field::Missing,
        sort: SearchSort::Latest,
        nearby: Field::Missing,
        include_users: Field::Missing,
    };
    assert_eq!(to_text(&search).unwrap(), r#"{"limit":1,"sort":"Latest"}"#);
    assert_eq!(from_text::<SearchMessages>(r#"{"limit":1}"#), Err(SCHEMA));
    let message = SendMessage { content: "c".to_string(), nonce: "n".to_string(), attachments: Field::Missing, replies: Field::Missing };
    assert_eq!(
        message.to_json(),
        object(vec![("content", text("c")), ("nonce", text("n"))])
    );
    assert_eq!(to_text(&EditMessage { content: "c".to_string() }).unwrap(), r#"{"content":"c"}"#);
    assert_eq!(to_text(&Permissions { permissions: 9 }).unwrap(), r#"{"permissions":9}"#);
}

#[test]
fn the_last_member_of_a_key_counts() {
    let doc = object(vec![("a", Json::Number(Some(1))), ("b", text("x")), ("a", Json::Number(Some(2)))]);
    assert_eq!(doc.get("a"), Some(&Json::Number(Some(2))));
    assert_eq!(doc.get("b"), Some(&text("x")));
    assert_eq!(doc.get("c"), None);
    assert_eq!(doc.get(""), None);
    assert_eq!(text("a").get("a"), None);
    assert_eq!(Json::Array(vec![text("a")]).get("a"), None);
    assert!(doc.is_object());
    assert!(!Json::Null.is_object());
    assert_eq!(read::<i32>(&doc, "a"), Some(2));
    assert_eq!(read::<i32>(&doc, "b"), None);
    assert_eq!(read::<i32>(&doc, "c"), None);
    assert_eq!(read_optional::<i32>(&doc, "a"), Some(Field::Present(2)));
    assert_eq!(read_optional::<i32>(&doc, "b"), None);
    assert_eq!(read_optional::<i32>(&doc, "c"), Some(Field::Missing));
    let with_null = object(vec![("a", Json::Null)]);
    assert_eq!(read_optional::<i32>(&with_null, "a"), Some(Field::Null));
    assert_eq!(read::<i32>(&with_null, "a"), None);
}

#[test]
fn texts_are_compared_by_their_characters() {
    assert!(same_text("", ""));
    assert!(same_text("abc", "abc"));
    assert!(same_text("\u{e9}", "\u{e9}"));
    assert!(!same_text("abc", "abd"));
    assert!(!same_text("abc", "ab"));
    assert!(!same_text("", "a"));
    assert!(!same_text("e\u{301}", "\u{e9}"));
}

#[test]
fn what_came_back_from_the_parser_decides() {
    let failed = serde_json::from_str::<serde_json::Value>("{").unwrap_err();
    assert_eq!(read_document::<Status>(Err(failed)), Err(SYNTAX));
    assert_eq!(read_document::<Status>(Ok(Json::Null)), Err(SCHEMA));
    assert_eq!(
        read_document::<Status>(Ok(object(vec![("text", text("t"))]))),
        Ok(Status { text: Field::Present("t".to_string()), presence: Field::Missing })
    );
    let failed = serde_json::from_str::<serde_json::Value>("{").unwrap_err();
    assert_eq!(
        written_text(Err(failed)),
        Err(RevoltRsError::Serde { source: CodecError::Encode })
    );
    assert_eq!(written_text(Ok("{}".to_string())), Ok("{}".to_string()));
}

#[test]
fn a_text_is_parsed_and_not_handed_back() {
    assert_eq!(from_text::<String>(r#"  "a"  "#), Ok("a".to_string()));
    assert_eq!(from_text::<Vec<i32>>(" [ 1 , 2 ] "), Ok(vec![1, 2]));
    assert_eq!(to_text(&"a".to_string()).unwrap(), r#""a""#);
    assert_eq!(
        from_text::<Invite>("{\n  \"code\": \"abcd\"\n}"),
        Ok(Invite { code: "abcd".to_string() })
    );
    assert_eq!(
        from_text::<Invite>(r#"{"code":"first","code":"last"}"#),
        Ok(Invite { code: "last".to_string() })
    );
}
