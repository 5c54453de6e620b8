use revolt_rs::client::{interpret, read_answer, read_answer_text, Answer, Expect, Response};
use revolt_rs::data::channel::ChannelTypes;
use revolt_rs::data::user::RelationshipStatus;
use revolt_rs::error::{CodecError, RevoltRsError, TransportError};
use revolt_rs::wire::Field;

fn ok(body: &str) -> Result<Response, TransportError> {
    Ok(Response { status: 200, body: bytes(body) })
}

fn bytes(body: &str) -> Vec<u8> {
    body.as_bytes().to_vec()
}

const USER: &str = r#"{"_id":"U1","username":"ann"}"#;

#[test]
fn a_status_of_404_is_a_transport_error_and_the_body_is_not_read() {
    let outcome = Ok(Response { status: 404, body: Vec::new() });
    assert_eq!(
        interpret(Expect::User, outcome),
        Err(RevoltRsError::Reqwest { source: TransportError::Status(404) })
    );
    let outcome = Ok(Response { status: 404, body: bytes(r#"{"type":"NotFound"}"#) });
    assert_eq!(
        interpret(Expect::User, outcome),
        Err(RevoltRsError::Reqwest { source: TransportError::Status(404) })
    );
    let outcome = Ok(Response { status: 404, body: bytes(USER) });
    assert_eq!(
        interpret(Expect::User, outcome),
        Err(RevoltRsError::Reqwest { source: TransportError::Status(404) })
    );
}

#[test]
fn the_statuses_from_200_to_299_are_the_successes() {
    for status in [200u16, 201, 204, 299] {
        let outcome = Ok(Response { status, body: bytes("done") });
        assert_eq!(interpret(Expect::Raw, outcome), Ok(Answer::Raw("done".to_string())));
    }
    for status in [0u16, 100, 199, 300, 403, 500, u16::MAX] {
        let outcome = Ok(Response { status, body: bytes("done") });
        assert_eq!(
            interpret(Expect::Raw, outcome),
            Err(RevoltRsError::Reqwest { source: TransportError::Status(status) })
        );
    }
}

#[test]
fn a_failure_of_the_transport_is_handed_on() {
    let outcome = Err(TransportError::Failed("connection refused".to_string()));
    assert_eq!(
        interpret(Expect::Channel, outcome),
        Err(RevoltRsError::Reqwest { source: TransportError::Failed("connection refused".to_string()) })
    );
}

#[test]
fn a_user_is_read_from_a_success() {
    match interpret(Expect::User, ok(USER)) {
        Ok(Answer::User(user)) => {
            assert_eq!(user.id, "U1");
            assert_eq!(user.username, "ann");
            assert_eq!(user.avatar, Field::Missing);
            assert_eq!(user.bot, Field::Missing);
        }
        other => panic!("{:?}", other),
    }
}

#[test]
fn a_body_that_is_no_json_is_an_error_of_syntax() {
    assert_eq!(interpret(Expect::User, ok("")), Err(RevoltRsError::Serde { source: CodecError::Syntax }));
    assert_eq!(
        interpret(Expect::User, ok("{\"_id\":")),
        Err(RevoltRsError::Serde { source: CodecError::Syntax })
    );
    assert_eq!(
        interpret(Expect::Ids, ok("not json")),
        Err(RevoltRsError::Serde { source: CodecError::Syntax })
    );
}

#[test]
fn a_body_of_another_shape_is_an_error_of_schema() {
    assert_eq!(
        interpret(Expect::User, ok(r#"{"_id":"U1"}"#)),
        Err(RevoltRsError::Serde { source: CodecError::Schema })
    );
    assert_eq!(interpret(Expect::User, ok("[]")), Err(RevoltRsError::Serde { source: CodecError::Schema }));
    assert_eq!(
        interpret(Expect::Ids, ok(r#"["a",1]"#)),
        Err(RevoltRsError::Serde { source: CodecError::Schema })
    );
}

#[test]
fn a_channel_is_read_from_a_success() {
    let body = r#"{"_id":"C1","channel_type":"TextChannel","server":"S1"}"#;
    match interpret(Expect::Channel, ok(body)) {
        Ok(Answer::Channel(channel)) => {
            assert_eq!(channel.channel_type, ChannelTypes::TextChannel);
            assert_eq!(channel.server, Field::Present("S1".to_string()));
            assert_eq!(channel.icon, Field::Missing);
        }
        other => panic!("{:?}", other),
    }
}

#[test]
fn the_bytes_of_a_body_are_handed_on() {
    assert_eq!(read_answer(Expect::Bytes, bytes("a\u{e9}")), Ok(Answer::Bytes(vec![0x61, 0xc3, 0xa9])));
    assert_eq!(read_answer(Expect::Bytes, Vec::new()), Ok(Answer::Bytes(vec![])));
    let picture = vec![0x89, 0x50, 0x4e, 0x47, 0xff, 0x00, 0xfe];
    assert_eq!(read_answer(Expect::Bytes, picture.clone()), Ok(Answer::Bytes(picture.clone())));
    assert_eq!(
        interpret(Expect::Bytes, Ok(Response { status: 200, body: picture.clone() })),
        Ok(Answer::Bytes(picture))
    );
    assert_eq!(read_answer_text(Expect::Bytes, "a\u{e9}".to_string()), Ok(Answer::Bytes(vec![0x61, 0xc3, 0xa9])));
}

#[test]
fn a_confirmation_is_handed_on_as_it_is() {
    assert_eq!(read_answer(Expect::Raw, Vec::new()), Ok(Answer::Raw(String::new())));
    assert_eq!(read_answer(Expect::Raw, bytes("not json")), Ok(Answer::Raw("not json".to_string())));
    assert_eq!(read_answer_text(Expect::Raw, "done".to_string()), Ok(Answer::Raw("done".to_string())));
}

#[test]
fn the_code_of_an_invite_is_taken_out() {
    assert_eq!(
        read_answer(Expect::Invite, bytes(r#"{"code":"abcd"}"#)),
        Ok(Answer::Invite("abcd".to_string()))
    );
    assert_eq!(
        read_answer(Expect::Invite, bytes(r#"{"cod":"abcd"}"#)),
        Err(RevoltRsError::Serde { source: CodecError::Schema })
    );
}

#[test]
fn lists_are_read() {
    assert_eq!(
        read_answer(Expect::Ids, bytes(r#"["U1","U2"]"#)),
        Ok(Answer::Ids(vec!["U1".to_string(), "U2".to_string()]))
    );
    assert_eq!(read_answer(Expect::Ids, bytes("[]")), Ok(Answer::Ids(vec![])));
    match read_answer(Expect::Relationships, bytes(r#"[{"status":"Friend","_id":"U2"},{"status":"None"}]"#))
    {
        Ok(Answer::Relationships(list)) => {
            assert_eq!(list.len(), 2);
            assert_eq!(list[0].status, RelationshipStatus::Friend);
            assert_eq!(list[0].id, Field::Present("U2".to_string()));
            assert_eq!(list[1].status, RelationshipStatus::Nothing);
            assert_eq!(list[1].id, Field::Missing);
        }
        other => panic!("{:?}", other),
    }
}

#[test]
fn each_kind_of_answer_is_read_as_its_own_type() {
    let last = r#"{"_id":"M1","author":"U1","short":"hi"}"#;
    let dm = format!(
        r#"{{"_id":"C1","channel_type":"DirectMessage","recipients":["U1","U2"],"last_message":{}}}"#,
        last
    );
    assert!(matches!(read_answer(Expect::DmChannel, bytes(&dm)), Ok(Answer::DmChannel(_))));
    assert!(matches!(read_answer(Expect::Profile, bytes("{}")), Ok(Answer::Profile(_))));
    assert!(matches!(
        read_answer(Expect::Relationship, bytes(r#"{"status":"Blocked"}"#)),
        Ok(Answer::Relationship(_))
    ));
    let message = r#"{"_id":"M1","channel":"C1","author":"U1","content":"hi"}"#;
    assert!(matches!(read_answer(Expect::Message, bytes(message)), Ok(Answer::Message(_))));
    let messages = format!(r#"{{"messages":[{}],"users":[{}]}}"#, message, USER);
    match read_answer(Expect::Messages, bytes(&messages)) {
        Ok(Answer::Messages(m)) => {
            assert_eq!(m.messages.value().map(|v| v.len()), Some(1));
            assert_eq!(m.users.value().map(|v| v.len()), Some(1));
            assert_eq!(m.members, Field::Missing);
        }
        other => panic!("{:?}", other),
    }
    assert_eq!(
        read_answer(Expect::Message, bytes(USER)),
        Err(RevoltRsError::Serde { source: CodecError::Schema })
    );
}

#[test]
fn the_list_of_direct_conversations_may_be_empty() {
    assert_eq!(interpret(Expect::DmChannels, ok("[]")), Ok(Answer::DmChannels(vec![])));
    let last = r#"{"_id":"M1","author":"U1","short":"hi"}"#;
    let dm = format!(
        r#"{{"_id":"C1","channel_type":"DirectMessage","recipients":["U1","U2"],"last_message":{}}}"#,
        last
    );
    match interpret(Expect::DmChannels, ok(&format!("[{},{}]", dm, dm))) {
        Ok(Answer::DmChannels(list)) => {
            assert_eq!(list.len(), 2);
            assert_eq!(list[0].id, "C1");
            assert_eq!(list[1].recipients, vec!["U1".to_string(), "U2".to_string()]);
        }
        other => panic!("{:?}", other),
    }
    assert_eq!(
        interpret(Expect::DmChannels, ok(&dm)),
        Err(RevoltRsError::Serde { source: CodecError::Schema })
    );
    assert_eq!(
        interpret(Expect::DmChannel, ok("[]")),
        Err(RevoltRsError::Serde { source: CodecError::Schema })
    );
}

#[test]
fn a_body_that_is_no_text_is_an_error_of_syntax_where_text_is_read() {
    let no_text = vec![0x22, 0xff, 0x22];
    assert_eq!(
        read_answer(Expect::Raw, no_text.clone()),
        Err(RevoltRsError::Serde { source: CodecError::Syntax })
    );
    assert_eq!(
        read_answer(Expect::Ids, no_text.clone()),
        Err(RevoltRsError::Serde { source: CodecError::Syntax })
    );
    assert_eq!(read_answer(Expect::Bytes, no_text.clone()), Ok(Answer::Bytes(no_text)));
}

#[test]
fn a_message_is_read_from_the_answer_to_its_sending() {
    let body = r#"{"_id":"M1","channel":"C1","author":"U1","content":"hello"}"#;
    match interpret(Expect::Message, ok(body)) {
        Ok(Answer::Message(m)) => {
            assert_eq!(m.id, "M1");
            assert_eq!(m.channel, "C1");
            assert_eq!(m.author, "U1");
            assert_eq!(m.content, Field::Present(revolt_rs::data::message::ContentType::B("hello".to_string())));
            assert_eq!(m.attachments, Field::Missing);
        }
        other => panic!("{:?}", other),
    }
}
