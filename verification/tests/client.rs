use revolt_rs::client::{Expect, Method, Request, API_URL, AUTH_HEADER};
use revolt_rs::data::internal::{RemoveField, SendMessage};
use revolt_rs::data::message::{Reply, SearchSort};
use revolt_rs::data::user::{Profile, ProfileTypes, Status, StatusPresence};
use revolt_rs::wire::{from_text, Field};
use revolt_rs::{RevoltRs, RevoltRsError};

fn client() -> RevoltRs {
    RevoltRs::new("token-123").unwrap()
}

fn check(request: &Request, method: Method, path: &str, expects: Expect) {
    assert_eq!(request.method, method);
    assert_eq!(request.url, format!("https://api.revolt.chat{}", path));
    assert_eq!(request.header, "X-String-TOKEN");
    assert_eq!(request.token, "token-123");
    assert_eq!(request.expects, expects);
}

#[test]
fn new_accepts_a_plain_token() {
    let client = RevoltRs::new("abc-DEF_123").unwrap();
    assert_eq!(client.token(), "abc-DEF_123");
}

#[test]
fn new_accepts_tab_space_and_letters_beyond_ascii() {
    assert!(RevoltRs::new("a\tb c").is_ok());
    assert!(RevoltRs::new("schlüssel-鍵").is_ok());
    assert!(RevoltRs::new("").is_ok());
}

#[test]
fn new_refuses_a_newline() {
    assert!(matches!(RevoltRs::new("abc\ndef"), Err(RevoltRsError::Header)));
}

#[test]
fn new_refuses_control_characters_and_delete() {
    assert!(matches!(RevoltRs::new("abc\r"), Err(RevoltRsError::Header)));
    assert!(matches!(RevoltRs::new("\u{0}"), Err(RevoltRsError::Header)));
    assert!(matches!(RevoltRs::new("a\u{1f}b"), Err(RevoltRsError::Header)));
    assert!(matches!(RevoltRs::new("a\u{7f}b"), Err(RevoltRsError::Header)));
}

#[test]
fn the_service_and_the_header_are_fixed() {
    assert_eq!(API_URL, "https://api.revolt.chat");
    assert_eq!(AUTH_HEADER, "X-String-TOKEN");
}

#[test]
fn error_messages() {
    assert_eq!(RevoltRsError::Header.message(), "got an invalid header value");
    let codec = RevoltRsError::Serde { source: revolt_rs::error::CodecError::Schema };
    assert_eq!(codec.message(), "parsing JSON into a struct failed");
    let transport = RevoltRsError::Reqwest { source: revolt_rs::error::TransportError::Status(404) };
    assert_eq!(transport.message(), "HTTP request failed");
}

#[test]
fn user_endpoints() {
    let c = client();
    let r = c.fetch_user("U1");
    check(&r, Method::Get, "/users/U1", Expect::User);
    assert_eq!(r.body, None);
    let r = c.fetch_user_profile("U1");
    check(&r, Method::Get, "/users/U1/profile", Expect::Profile);
    assert_eq!(r.body, None);
    let r = c.fetch_default_avatar("U1");
    check(&r, Method::Get, "/users/U1/default_avatar", Expect::Bytes);
    let r = c.fetch_mutual_friends("U1");
    check(&r, Method::Get, "/users/U1/mutual", Expect::Ids);
    let r = c.fetch_direct_message_channels();
    check(&r, Method::Get, "/users/dms", Expect::DmChannels);
    assert_eq!(r.body, None);
    let r = c.open_direct_message("U1");
    check(&r, Method::Get, "/users/U1/dm", Expect::DmChannel);
}

#[test]
fn relationship_endpoints() {
    let c = client();
    let r = c.fetch_relationships();
    check(&r, Method::Get, "/users/relationships", Expect::Relationships);
    let r = c.fetch_relationship("U1");
    check(&r, Method::Get, "/users/U1/relationship", Expect::Relationship);
    let r = c.send_accept_friend_request("ann");
    check(&r, Method::Put, "/users/ann/friend", Expect::Relationship);
    let r = c.deny_remove_friend("ann");
    check(&r, Method::Delete, "/users/ann/friend", Expect::Relationship);
    let r = c.block_user("U1");
    check(&r, Method::Put, "/users/U1/block", Expect::Relationship);
    let r = c.unblock_user("U1");
    check(&r, Method::Delete, "/users/U1/block", Expect::Relationship);
    assert_eq!(r.body, None);
}

#[test]
fn channel_endpoints_without_payload() {
    let c = client();
    let r = c.fetch_channel("C1");
    check(&r, Method::Get, "/channels/C1", Expect::Channel);
    let r = c.close_channel("C1");
    check(&r, Method::Delete, "/channels/C1", Expect::Raw);
    let r = c.create_invite("C1");
    check(&r, Method::Post, "/channels/C1/invites", Expect::Invite);
    let r = c.fetch_message("C1", "M1");
    check(&r, Method::Get, "/channels/C1/messages/M1", Expect::Message);
    let r = c.delete_message("C1", "M1");
    check(&r, Method::Delete, "/channels/C1/messages/M1", Expect::Raw);
    assert_eq!(r.body, None);
}

#[test]
fn ids_go_into_the_address_as_they_are() {
    let r = client().fetch_user("a b/c");
    assert_eq!(r.url, "https://api.revolt.chat/users/a b/c");
    let r = client().fetch_user("");
    assert_eq!(r.url, "https://api.revolt.chat/users/");
}

#[test]
fn edit_user_with_nothing_to_change_sends_an_empty_object() {
    let r = client().edit_user(None, None, None, None).unwrap();
    check(&r, Method::Patch, "/users/@me", Expect::Raw);
    assert_eq!(r.body.as_deref(), Some("{}"));
}

#[test]
fn edit_user_sends_only_the_fields_that_are_there() {
    let status = Status { text: Field::Present("hi".to_string()), presence: Field::Present(StatusPresence::Busy) };
    let r = client().edit_user(Some(status), None, Some("A1".to_string()), None).unwrap();
    assert_eq!(r.body.as_deref(), Some(r#"{"avatar":"A1","status":{"presence":"Busy","text":"hi"}}"#));
    let profile = Profile { content: Field::Missing, background: Field::Present(ProfileTypes::A("F1".to_string())) };
    let r = client().edit_user(None, Some(profile), None, Some(RemoveField::StatusText)).unwrap();
    assert_eq!(r.body.as_deref(), Some(r#"{"profile":{"background":"F1"},"remove":"status_text"}"#));
}

#[test]
fn edit_channel_sends_only_the_fields_that_are_there() {
    let c = client();
    let r = c.edit_channel("C1", Some("general".to_string()), None, None, None).unwrap();
    check(&r, Method::Patch, "/channels/C1", Expect::Raw);
    assert_eq!(r.body.as_deref(), Some(r#"{"name":"general"}"#));
    let r = c
        .edit_channel("C1", None, Some("".to_string()), Some("I1".to_string()), Some("Icon".to_string()))
        .unwrap();
    assert_eq!(r.body.as_deref(), Some(r#"{"description":"","icon":"I1","remove":"Icon"}"#));
}

#[test]
fn permission_endpoints() {
    let c = client();
    let r = c.set_role_permission("C1", "R1", 7).unwrap();
    check(&r, Method::Post, "/channels/C1/permissions/R1", Expect::Raw);
    assert_eq!(r.body.as_deref(), Some(r#"{"permissions":7}"#));
    let r = c.set_default_permission("C1", -1).unwrap();
    check(&r, Method::Post, "/channels/C1/permissions/default", Expect::Raw);
    assert_eq!(r.body.as_deref(), Some(r#"{"permissions":-1}"#));
    let r = c.set_default_permission("C1", i32::MAX).unwrap();
    assert_eq!(r.body.as_deref(), Some(r#"{"permissions":2147483647}"#));
    let r = c.set_default_permission("C1", i32::MIN).unwrap();
    assert_eq!(r.body.as_deref(), Some(r#"{"permissions":-2147483648}"#));
}

#[test]
fn send_message_with_nonce_sends_content_and_nonce_alone() {
    let r = client()
        .send_message_with_nonce("C1", "hello", "01ARZ3NDEKTSV4RRFFQ69G5FAV".to_string(), None, None)
        .unwrap();
    check(&r, Method::Post, "/channels/C1/messages", Expect::Message);
    assert_eq!(r.body.as_deref(), Some(r#"{"content":"hello","nonce":"01ARZ3NDEKTSV4RRFFQ69G5FAV"}"#));
}

#[test]
fn send_message_with_nonce_sends_attachments_and_reply_where_there_are_any() {
    let reply = Reply { id: "M0".to_string(), mention: true };
    let r = client()
        .send_message_with_nonce(
            "C1",
            "say \"hi\"",
            "N".to_string(),
            Some(vec!["A1".to_string(), "A2".to_string()]),
            Some(reply),
        )
        .unwrap();
    assert_eq!(
        r.body.as_deref(),
        Some(
            r#"{"attachments":["A1","A2"],"content":"say \"hi\"","nonce":"N","replies":{"id":"M0","mention":true}}"#
        )
    );
}

fn is_ulid(text: &str) -> bool {
    text.len() == 26 && text.chars().all(|c| "0123456789ABCDEFGHJKMNPQRSTVWXYZ".contains(c))
}

#[test]
fn send_message_sends_hello_with_a_nonce_and_nothing_else() {
    let r = client().send_message("C1", "hello", None, None).unwrap();
    check(&r, Method::Post, "/channels/C1/messages", Expect::Message);
    let body = r.body.unwrap();
    let sent: SendMessage = from_text(&body).unwrap();
    assert_eq!(sent.content, "hello");
    assert!(is_ulid(&sent.nonce));
    assert_eq!(sent.attachments, Field::Missing);
    assert_eq!(sent.replies, Field::Missing);
    assert_eq!(body, format!(r#"{{"content":"hello","nonce":"{}"}}"#, sent.nonce));
    assert!(!body.contains("attachments"));
    assert!(!body.contains("replies"));
    assert!(!body.contains("null"));
}

#[test]
fn send_message_makes_a_new_nonce_for_each_call() {
    let c = client();
    let mut seen: Vec<String> = Vec::new();
    for _ in 0..50 {
        let r = c.send_message("C1", "hello", None, None).unwrap();
        let sent: SendMessage = from_text(&r.body.unwrap()).unwrap();
        assert!(is_ulid(&sent.nonce));
        assert!(!seen.contains(&sent.nonce));
        seen.push(sent.nonce);
    }
}

#[test]
fn fetch_messages_sends_the_order_and_what_else_is_there() {
    let c = client();
    let r = c.fetch_messages("C1", None, None, None, SearchSort::Latest, None, None).unwrap();
    check(&r, Method::Get, "/channels/C1/messages", Expect::Messages);
    assert_eq!(r.body.as_deref(), Some(r#"{"sort":"Latest"}"#));
    let r = c
        .fetch_messages(
            "C1",
            Some(50),
            Some("M9".to_string()),
            Some("M1".to_string()),
            SearchSort::Oldest,
            Some("M5".to_string()),
            Some(false),
        )
        .unwrap();
    assert_eq!(
        r.body.as_deref(),
        Some(r#"{"after":"M1","before":"M9","include_users":false,"limit":50,"nearby":"M5","sort":"Oldest"}"#)
    );
    let r = c.fetch_messages("C1", None, None, None, SearchSort::Relevance, None, Some(true)).unwrap();
    assert_eq!(r.body.as_deref(), Some(r#"{"include_users":true,"sort":"Relevance"}"#));
}

#[test]
fn a_profile_read_with_content_alone_is_sent_with_content_alone() {
    let profile: Profile = from_text(r#"{"content":"x"}"#).unwrap();
    assert_eq!(profile, Profile { content: Field::Present("x".to_string()), background: Field::Missing });
    let r = client().edit_user(None, Some(profile), None, None).unwrap();
    assert_eq!(r.body.as_deref(), Some(r#"{"profile":{"content":"x"}}"#));
    let r = client().edit_user(None, None, Some("A1".to_string()), None).unwrap();
    assert_eq!(r.body.as_deref(), Some(r#"{"avatar":"A1"}"#));
}

#[test]
fn attachments_are_sent_in_the_given_order() {
    let r = client()
        .send_message_with_nonce("C1", "hi", "N".to_string(), Some(vec!["A2".to_string(), "A1".to_string()]), None)
        .unwrap();
    assert_eq!(r.body.as_deref(), Some(r#"{"attachments":["A2","A1"],"content":"hi","nonce":"N"}"#));
}

#[test]
fn edit_message_sends_the_new_text() {
    let r = client().edit_message("C1", "M1", "new text").unwrap();
    check(&r, Method::Patch, "/channels/C1/messages/M1", Expect::Raw);
    assert_eq!(r.body.as_deref(), Some(r#"{"content":"new text"}"#));
}
