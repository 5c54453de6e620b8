//! The client: one request for each endpoint of the service, and the reading
//! of what comes back.

use crate::data::channel::{Channel, ChannelView, DMChannel, DMChannelView};
use crate::data::internal::{
    EditAutumn, EditAutumnView, EditMessage, EditMessageView, EditUser, EditUserView, Invite, InviteView,
    Permissions,
    PermissionsView, RemoveField, SearchMessages, SearchMessagesView, SendMessage, SendMessageView,
};
use crate::data::message::{Message, MessageView, Messages, MessagesView, Reply, ReplyView, SearchSort};
use crate::data::user::{
    Profile, ProfileView, Relationship, RelationshipView, Status, StatusView, User, UserView,
};
use crate::error::{CodecError, RevoltRsError, TransportError};
use crate::json::printed;
use crate::wire::{decoded, field_of, from_text, gives, to_text, Field, Wire};
use reqwest::header::{HeaderValue, InvalidHeaderValue};
use vstd::prelude::*;
use vstd::string::{StrSliceExecFns, StringExecFns};

verus! {

/// `reqwest::header::HeaderValue`: what `HeaderValue::from_str` gives for a
/// text that it takes. Nothing is known of what it holds.
#[verifier::external_type_specification]
#[verifier::external_body]
pub struct ExHeaderValue(HeaderValue);

/// `reqwest::header::InvalidHeaderValue`: what `HeaderValue::from_str` gives
/// for a text that it refuses. Nothing is known of what it holds.
#[verifier::external_type_specification]
#[verifier::external_body]
pub struct ExInvalidHeaderValue(InvalidHeaderValue);

/// Whether a character may stand in the value of a header: the tab, and
/// every character from the space on but the delete character.
pub open spec fn header_char(c: char) -> bool {
    c == '\t' || (c as u32 >= 32 && c as u32 != 127)
}

/// Whether a text may stand as the value of a header.
pub open spec fn header_text(s: Seq<char>) -> bool {
    forall|i: int| 0 <= i < s.len() ==> header_char(#[trigger] s[i])
}

/// `HeaderValue::from_str` goes through the bytes of the text and refuses it
/// at the first byte below 32 that is no tab, or that is 127. The bytes of a
/// character above 127 are all above 127, so the text is taken exactly where
/// each of its characters may stand in a header.
pub assume_specification[ HeaderValue::from_str ](src: &str) -> (r: Result<HeaderValue, InvalidHeaderValue>)
    ensures
        r is Ok <==> header_text(src@),
;

/// `std::string::FromUtf8Error`: what `String::from_utf8` gives for bytes that
/// are no UTF-8. Nothing is known of what it holds.
#[verifier::external_type_specification]
#[verifier::external_body]
pub struct ExFromUtf8Error(std::string::FromUtf8Error);

/// `String::from_utf8` takes the bytes as a text where they are UTF-8, and
/// refuses them where they are not. The text that it gives has those bytes.
pub assume_specification[ String::from_utf8 ](vec: Vec<u8>) -> (r: Result<String, std::string::FromUtf8Error>)
    ensures
        r is Ok <==> vstd::utf8::valid_utf8(vec@),
        r is Ok ==> r->Ok_0@ == vstd::utf8::decode_utf8(vec@),
;

/// Whether a character is one of the 32 digits that a ULID is written with:
/// the ten digits and the capital letters without I, L, O and U.
pub open spec fn ulid_digit(c: char) -> bool {
    ('0' <= c && c <= '9') || ('A' <= c && c <= 'Z' && c != 'I' && c != 'L' && c != 'O' && c != 'U')
}

/// Whether a text has the shape of a ULID: 26 of its digits.
pub open spec fn ulid_text(s: Seq<char>) -> bool {
    s.len() == 26 && forall|i: int| 0 <= i < 26 ==> ulid_digit(#[trigger] s[i])
}

/// `generate_ulid_string` makes a ULID from the time and a random number and
/// writes it out. The contract claims the shape of the text, which every
/// ULID has, and nothing of its value. The call reads the clock of the
/// machine and does not return where that clock stands before 1970 or after
/// the year 10889; no caller can rule that out, and the contract leaves it
/// aside.
pub assume_specification[ rusty_ulid::generate_ulid_string ]() -> (r: String)
    ensures
        ulid_text(r@),
;

/// The verb of a request.
#[derive(Clone, Copy, Debug, PartialEq, Eq)]
pub enum Method {
    Get,
    Post,
    Patch,
    Put,
    Delete,
}

/// What the body of an answer is read as.
#[derive(Clone, Copy, Debug, PartialEq, Eq)]
pub enum Expect {
    /// A user.
    User,
    /// A profile.
    Profile,
    /// The bytes of the body as they are.
    Bytes,
    /// A list of ids.
    Ids,
    /// A direct conversation.
    DmChannel,
    /// A list of direct conversations.
    DmChannels,
    /// A list of relationships.
    Relationships,
    /// One relationship.
    Relationship,
    /// A channel.
    Channel,
    /// The text of the body as it is: a confirmation that has no shape.
    Raw,
    /// The code of an invite.
    Invite,
    /// A message.
    Message,
    /// Messages, with their authors where the request asked for them.
    Messages,
}

/// A request, ready to be sent.
#[derive(Debug, PartialEq)]
pub struct Request {
    pub method: Method,
    pub url: String,
    /// The name of the header that carries the token.
    pub header: String,
    /// The token of the client.
    pub token: String,
    /// The JSON text to send, where the request has a payload.
    pub body: Option<String>,
    /// What to read the body of the answer as.
    pub expects: Expect,
}

impl Request {
    /// Whether the request goes to `url` with the verb `method`, carries the
    /// token `token`, which may stand in a header, in the header of the fixed
    /// name, and has its answer read as `expects`.
    pub open spec fn goes(self, token: Seq<char>, method: Method, url: Seq<char>, expects: Expect) -> bool {
        &&& self.method == method
        &&& self.url@ == url
        &&& self.header@ == "X-String-TOKEN"@
        &&& self.token@ == token
        &&& header_text(self.token@)
        &&& self.expects == expects
    }

    /// Whether the body of the request is the printed document of `payload`.
    pub open spec fn carries<T: Wire>(self, payload: <T as DeepView>::V) -> bool {
        self.body is Some && self.body->0@ == printed(T::encode(payload))
    }
}

/// What came back for a request.
#[derive(Debug, PartialEq)]
pub struct Response {
    pub status: u16,
    /// The bytes of the body as they came.
    pub body: Vec<u8>,
}

/// The result of a call, by the kind of the endpoint.
#[derive(Debug, PartialEq)]
pub enum Answer {
    User(User),
    Profile(Profile),
    Bytes(Vec<u8>),
    Ids(Vec<String>),
    DmChannel(DMChannel),
    DmChannels(Vec<DMChannel>),
    Relationships(Vec<Relationship>),
    Relationship(Relationship),
    Channel(Channel),
    Raw(String),
    Invite(String),
    Message(Message),
    Messages(Messages),
}

/// The model of an [`Answer`].
pub enum AnswerView {
    User(UserView),
    Profile(ProfileView),
    Bytes(Seq<u8>),
    Ids(Seq<Seq<char>>),
    DmChannel(DMChannelView),
    DmChannels(Seq<DMChannelView>),
    Relationships(Seq<RelationshipView>),
    Relationship(RelationshipView),
    Channel(ChannelView),
    Raw(Seq<char>),
    Invite(Seq<char>),
    Message(MessageView),
    Messages(MessagesView),
}

impl DeepView for Answer {
    type V = AnswerView;

    open spec fn deep_view(&self) -> AnswerView {
        match self {
            Answer::User(x) => AnswerView::User(x.deep_view()),
            Answer::Profile(x) => AnswerView::Profile(x.deep_view()),
            Answer::Bytes(x) => AnswerView::Bytes(x@),
            Answer::Ids(x) => AnswerView::Ids(x.deep_view()),
            Answer::DmChannel(x) => AnswerView::DmChannel(x.deep_view()),
            Answer::DmChannels(x) => AnswerView::DmChannels(x.deep_view()),
            Answer::Relationships(x) => AnswerView::Relationships(x.deep_view()),
            Answer::Relationship(x) => AnswerView::Relationship(x.deep_view()),
            Answer::Channel(x) => AnswerView::Channel(x.deep_view()),
            Answer::Raw(x) => AnswerView::Raw(x@),
            Answer::Invite(x) => AnswerView::Invite(x@),
            Answer::Message(x) => AnswerView::Message(x.deep_view()),
            Answer::Messages(x) => AnswerView::Messages(x.deep_view()),
        }
    }
}

/// The name of the header that carries the token.
pub const AUTH_HEADER: &'static str = "X-String-TOKEN";

/// Where the service is reached.
pub const API_URL: &'static str = "https://api.revolt.chat";

/// Where the service is reached: every address begins with this.
pub open spec fn base() -> Seq<char> {
    "https://api.revolt.chat"@
}

/// Whether a status says that the request succeeded.
pub open spec fn success(status: u16) -> bool {
    200 <= status <= 299
}

/// A text read as a value of `T` and made an answer by `wrap`.
pub open spec fn read_as<T: Wire>(
    body: Seq<char>,
    wrap: spec_fn(<T as DeepView>::V) -> AnswerView,
) -> Result<AnswerView, RevoltRsError> {
    match decoded::<T>(body) {
        Ok(v) => Ok(wrap(v)),
        Err(e) => Err(e),
    }
}

/// The text that bytes hold, where they are UTF-8.
pub open spec fn text_of(bytes: Seq<u8>) -> Option<Seq<char>> {
    if vstd::utf8::valid_utf8(bytes) {
        Some(vstd::utf8::decode_utf8(bytes))
    } else {
        None
    }
}

/// What the text of a successful answer is read as, by the kind of the
/// endpoint.
pub open spec fn read_text(expects: Expect, body: Seq<char>) -> Result<AnswerView, RevoltRsError> {
    match expects {
        Expect::User => read_as::<User>(body, |v: UserView| AnswerView::User(v)),
        Expect::Profile => read_as::<Profile>(body, |v: ProfileView| AnswerView::Profile(v)),
        Expect::Bytes => Ok(AnswerView::Bytes(vstd::utf8::encode_utf8(body))),
        Expect::Ids => read_as::<Vec<String>>(body, |v: Seq<Seq<char>>| AnswerView::Ids(v)),
        Expect::DmChannel => read_as::<DMChannel>(body, |v: DMChannelView| AnswerView::DmChannel(v)),
        Expect::DmChannels => read_as::<Vec<DMChannel>>(body, |v: Seq<DMChannelView>| AnswerView::DmChannels(v)),
        Expect::Relationships => read_as::<Vec<Relationship>>(
            body,
            |v: Seq<RelationshipView>| AnswerView::Relationships(v),
        ),
        Expect::Relationship => read_as::<Relationship>(body, |v: RelationshipView| AnswerView::Relationship(v)),
        Expect::Channel => read_as::<Channel>(body, |v: ChannelView| AnswerView::Channel(v)),
        Expect::Raw => Ok(AnswerView::Raw(body)),
        Expect::Invite => read_as::<Invite>(body, |v: InviteView| AnswerView::Invite(v.code)),
        Expect::Message => read_as::<Message>(body, |v: MessageView| AnswerView::Message(v)),
        Expect::Messages => read_as::<Messages>(body, |v: MessagesView| AnswerView::Messages(v)),
    }
}

/// What the body of a successful answer is read as, by the kind of the
/// endpoint: its bytes as they are where the endpoint gives bytes, and else
/// its text. A body that is to be read as text and is no UTF-8 gives the error
/// of syntax.
pub open spec fn read_body(expects: Expect, body: Seq<u8>) -> Result<AnswerView, RevoltRsError> {
    if expects == Expect::Bytes {
        Ok(AnswerView::Bytes(body))
    } else {
        match text_of(body) {
            Some(text) => read_text(expects, text),
            None => Err(RevoltRsError::Serde { source: CodecError::Syntax }),
        }
    }
}

/// The result of a call: a failure of the transport as it is, an answer with
/// a status that is no success as the error of that status, whatever its
/// body holds, and the body of any other answer as it is read.
pub open spec fn answer(expects: Expect, outcome: Result<Response, TransportError>) -> Result<
    AnswerView,
    RevoltRsError,
> {
    match outcome {
        Ok(response) => if success(response.status) {
            read_body(expects, response.body@)
        } else {
            Err(RevoltRsError::Reqwest { source: TransportError::Status(response.status) })
        },
        Err(cause) => Err(RevoltRsError::Reqwest { source: cause }),
    }
}

/// An answer with a status that is no success is never read: the error is
/// that of the transport, for every kind of endpoint and every body.
pub proof fn lemma_failure_is_not_read(expects: Expect, response: Response)
    requires
        !success(response.status),
    ensures
        answer(expects, Ok(response)) == Err::<AnswerView, RevoltRsError>(
            RevoltRsError::Reqwest { source: TransportError::Status(response.status) },
        ),
{
}

/// Reads the text of a successful answer.
pub fn read_answer_text(expects: Expect, body: String) -> (r: Result<Answer, RevoltRsError>)
    ensures
        gives(r, read_text(expects, body@)),
{
    match expects {
        Expect::User => match from_text::<User>(body.as_str()) {
            Ok(x) => Ok(Answer::User(x)),
            Err(e) => Err(e),
        },
        Expect::Profile => match from_text::<Profile>(body.as_str()) {
            Ok(x) => Ok(Answer::Profile(x)),
            Err(e) => Err(e),
        },
        Expect::Bytes => Ok(Answer::Bytes(body.as_str().as_bytes_vec())),
        Expect::Ids => match from_text::<Vec<String>>(body.as_str()) {
            Ok(x) => Ok(Answer::Ids(x)),
            Err(e) => Err(e),
        },
        Expect::DmChannel => match from_text::<DMChannel>(body.as_str()) {
            Ok(x) => Ok(Answer::DmChannel(x)),
            Err(e) => Err(e),
        },
        Expect::DmChannels => match from_text::<Vec<DMChannel>>(body.as_str()) {
            Ok(x) => Ok(Answer::DmChannels(x)),
            Err(e) => Err(e),
        },
        Expect::Relationships => match from_text::<Vec<Relationship>>(body.as_str()) {
            Ok(x) => Ok(Answer::Relationships(x)),
            Err(e) => Err(e),
        },
        Expect::Relationship => match from_text::<Relationship>(body.as_str()) {
            Ok(x) => Ok(Answer::Relationship(x)),
            Err(e) => Err(e),
        },
        Expect::Channel => match from_text::<Channel>(body.as_str()) {
            Ok(x) => Ok(Answer::Channel(x)),
            Err(e) => Err(e),
        },
        Expect::Raw => Ok(Answer::Raw(body)),
        Expect::Invite => match from_text::<Invite>(body.as_str()) {
            Ok(x) => Ok(Answer::Invite(x.code)),
            Err(e) => Err(e),
        },
        Expect::Message => match from_text::<Message>(body.as_str()) {
            Ok(x) => Ok(Answer::Message(x)),
            Err(e) => Err(e),
        },
        Expect::Messages => match from_text::<Messages>(body.as_str()) {
            Ok(x) => Ok(Answer::Messages(x)),
            Err(e) => Err(e),
        },
    }
}

/// Reads the body of a successful answer.
pub fn read_answer(expects: Expect, body: Vec<u8>) -> (r: Result<Answer, RevoltRsError>)
    ensures
        gives(r, read_body(expects, body@)),
{
    match expects {
        Expect::Bytes => Ok(Answer::Bytes(body)),
        _ => match String::from_utf8(body) {
            Ok(text) => read_answer_text(expects, text),
            Err(_) => Err(RevoltRsError::Serde { source: CodecError::Syntax }),
        },
    }
}

/// Turns what came back for a request into the result of the call.
pub fn interpret(expects: Expect, outcome: Result<Response, TransportError>) -> (r: Result<Answer, RevoltRsError>)
    ensures
        gives(r, answer(expects, outcome)),
{
    match outcome {
        Ok(response) => if 200 <= response.status && response.status <= 299 {
            read_answer(expects, response.body)
        } else {
            Err(RevoltRsError::Reqwest { source: TransportError::Status(response.status) })
        },
        Err(cause) => Err(RevoltRsError::Reqwest { source: cause }),
    }
}

/// The client: it holds the token that every request carries.
pub struct RevoltRs {
    token: String,
}

impl View for RevoltRs {
    type V = Seq<char>;

    /// The token of the client.
    closed spec fn view(&self) -> Seq<char> {
        self.token@
    }
}

impl RevoltRs {
    #[verifier::type_invariant]
    spec fn fits(self) -> bool {
        header_text(self.token@)
    }

    /// Makes a client for a token. A token with a character that cannot
    /// stand in a header is refused.
    pub fn new(token: &str) -> (r: Result<RevoltRs, RevoltRsError>)
        ensures
            match r {
                Ok(client) => header_text(token@) && client@ == token@,
                Err(e) => !header_text(token@) && e == RevoltRsError::Header,
            },
    {
        match HeaderValue::from_str(token) {
            Ok(_) => Ok(RevoltRs { token: token.to_owned() }),
            Err(_) => Err(RevoltRsError::Header),
        }
    }

    /// The token of the client.
    pub fn token(&self) -> (r: &str)
        ensures
            r@ == self@,
            header_text(r@),
    {
        proof {
            use_type_invariant(self);
        }
        self.token.as_str()
    }

    /// Builds a request of this client.
    fn request(&self, method: Method, url: String, body: Option<String>, expects: Expect) -> (r: Request)
        ensures
            r.goes(self@, method, url@, expects),
            r.body == body,
    {
        proof {
            use_type_invariant(self);
        }
        Request { method, url, header: AUTH_HEADER.to_owned(), token: self.token.clone(), body, expects }
    }

    /// Builds a request of this client with a payload, which is printed.
    fn request_with<T: Wire>(&self, method: Method, url: String, payload: &T, expects: Expect) -> (r: Result<
        Request,
        RevoltRsError,
    >)
        ensures
            r is Ok,
            r->Ok_0.goes(self@, method, url@, expects),
            r->Ok_0.carries::<T>(payload.deep_view()),
    {
        match to_text::<T>(payload) {
            Ok(text) => Ok(self.request(method, url, Some(text), expects)),
            Err(e) => Err(e),
        }
    }

    /// Fetches a user.
    pub fn fetch_user(&self, user_id: &str) -> (r: Request)
        ensures
            r.goes(self@, Method::Get, base() + "/users/"@ + user_id@, Expect::User),
            r.body is None,
    {
        let mut url = String::from_str(API_URL);
        url.append("/users/");
        url.append(user_id);
        self.request(Method::Get, url, None, Expect::User)
    }

    /// Edits the own user. A field that is `None` is left out of the payload,
    /// and the service leaves it as it is.
    pub fn edit_user(
        &self,
        status: Option<Status>,
        profile: Option<Profile>,
        avatar: Option<String>,
        remove: Option<RemoveField>,
    ) -> (r: Result<Request, RevoltRsError>)
        ensures
            r is Ok,
            r->Ok_0.goes(self@, Method::Patch, base() + "/users/@me"@, Expect::Raw),
            r->Ok_0.carries::<EditUser>(
                (EditUserView {
                    status: field_of(status.deep_view()),
                    profile: field_of(profile.deep_view()),
                    avatar: field_of(avatar.deep_view()),
                    remove: field_of(remove.deep_view()),
                }),
            ),
    {
        let mut url = String::from_str(API_URL);
        url.append("/users/@me");
        let payload = EditUser {
            status: Field::from_option(status),
            profile: Field::from_option(profile),
            avatar: Field::from_option(avatar),
            remove: Field::from_option(remove),
        };
        self.request_with::<EditUser>(Method::Patch, url, &payload, Expect::Raw)
    }

    /// Fetches the profile of a user.
    pub fn fetch_user_profile(&self, user_id: &str) -> (r: Request)
        ensures
            r.goes(self@, Method::Get, base() + "/users/"@ + user_id@ + "/profile"@, Expect::Profile),
            r.body is None,
    {
        let mut url = String::from_str(API_URL);
        url.append("/users/");
        url.append(user_id);
        url.append("/profile");
        self.request(Method::Get, url, None, Expect::Profile)
    }

    /// Fetches the picture that stands for a user who has set none. The answer
    /// is the bytes of the picture.
    pub fn fetch_default_avatar(&self, user_id: &str) -> (r: Request)
        ensures
            r.goes(self@, Method::Get, base() + "/users/"@ + user_id@ + "/default_avatar"@, Expect::Bytes),
            r.body is None,
    {
        let mut url = String::from_str(API_URL);
        url.append("/users/");
        url.append(user_id);
        url.append("/default_avatar");
        self.request(Method::Get, url, None, Expect::Bytes)
    }

    /// Fetches the ids of the friends that the caller and a user share.
    pub fn fetch_mutual_friends(&self, user_id: &str) -> (r: Request)
        ensures
            r.goes(self@, Method::Get, base() + "/users/"@ + user_id@ + "/mutual"@, Expect::Ids),
            r.body is None,
    {
        let mut url = String::from_str(API_URL);
        url.append("/users/");
        url.append(user_id);
        url.append("/mutual");
        self.request(Method::Get, url, None, Expect::Ids)
    }

    /// Fetches the direct conversations of the caller.
    pub fn fetch_direct_message_channels(&self) -> (r: Request)
        ensures
            r.goes(self@, Method::Get, base() + "/users/dms"@, Expect::DmChannels),
            r.body is None,
    {
        let mut url = String::from_str(API_URL);
        url.append("/users/dms");
        self.request(Method::Get, url, None, Expect::DmChannels)
    }

    /// Opens the direct conversation with a user, or fetches it if there is
    /// one.
    pub fn open_direct_message(&self, user_id: &str) -> (r: Request)
        ensures
            r.goes(self@, Method::Get, base() + "/users/"@ + user_id@ + "/dm"@, Expect::DmChannel),
            r.body is None,
    {
        let mut url = String::from_str(API_URL);
        url.append("/users/");
        url.append(user_id);
        url.append("/dm");
        self.request(Method::Get, url, None, Expect::DmChannel)
    }

    /// Fetches the relationships of the caller.
    pub fn fetch_relationships(&self) -> (r: Request)
        ensures
            r.goes(self@, Method::Get, base() + "/users/relationships"@, Expect::Relationships),
            r.body is None,
    {
        let mut url = String::from_str(API_URL);
        url.append("/users/relationships");
        self.request(Method::Get, url, None, Expect::Relationships)
    }

    /// Fetches the relationship of the caller with a user.
    pub fn fetch_relationship(&self, user_id: &str) -> (r: Request)
        ensures
            r.goes(self@, Method::Get, base() + "/users/"@ + user_id@ + "/relationship"@, Expect::Relationship),
            r.body is None,
    {
        let mut url = String::from_str(API_URL);
        url.append("/users/");
        url.append(user_id);
        url.append("/relationship");
        self.request(Method::Get, url, None, Expect::Relationship)
    }

    /// Asks a user to be a friend, or accepts what that user asked.
    pub fn send_accept_friend_request(&self, username: &str) -> (r: Request)
        ensures
            r.goes(self@, Method::Put, base() + "/users/"@ + username@ + "/friend"@, Expect::Relationship),
            r.body is None,
    {
        let mut url = String::from_str(API_URL);
        url.append("/users/");
        url.append(username);
        url.append("/friend");
        self.request(Method::Put, url, None, Expect::Relationship)
    }

    /// Denies what a user asked, or ends the friendship.
    pub fn deny_remove_friend(&self, username: &str) -> (r: Request)
        ensures
            r.goes(self@, Method::Delete, base() + "/users/"@ + username@ + "/friend"@, Expect::Relationship),
            r.body is None,
    {
        let mut url = String::from_str(API_URL);
        url.append("/users/");
        url.append(username);
        url.append("/friend");
        self.request(Method::Delete, url, None, Expect::Relationship)
    }

    /// Blocks a user.
    pub fn block_user(&self, user_id: &str) -> (r: Request)
        ensures
            r.goes(self@, Method::Put, base() + "/users/"@ + user_id@ + "/block"@, Expect::Relationship),
            r.body is None,
    {
        let mut url = String::from_str(API_URL);
        url.append("/users/");
        url.append(user_id);
        url.append("/block");
        self.request(Method::Put, url, None, Expect::Relationship)
    }

    /// Takes the block off a user.
    pub fn unblock_user(&self, user_id: &str) -> (r: Request)
        ensures
            r.goes(self@, Method::Delete, base() + "/users/"@ + user_id@ + "/block"@, Expect::Relationship),
            r.body is None,
    {
        let mut url = String::from_str(API_URL);
        url.append("/users/");
        url.append(user_id);
        url.append("/block");
        self.request(Method::Delete, url, None, Expect::Relationship)
    }

    /// Fetches a channel.
    pub fn fetch_channel(&self, channel_id: &str) -> (r: Request)
        ensures
            r.goes(self@, Method::Get, base() + "/channels/"@ + channel_id@, Expect::Channel),
            r.body is None,
    {
        let mut url = String::from_str(API_URL);
        url.append("/channels/");
        url.append(channel_id);
        self.request(Method::Get, url, None, Expect::Channel)
    }

    /// Edits a channel. A field that is `None` is left out of the payload, and
    /// the service leaves it as it is.
    pub fn edit_channel(
        &self,
        channel_id: &str,
        name: Option<String>,
        description: Option<String>,
        icon: Option<String>,
        remove: Option<String>,
    ) -> (r: Result<Request, RevoltRsError>)
        ensures
            r is Ok,
            r->Ok_0.goes(self@, Method::Patch, base() + "/channels/"@ + channel_id@, Expect::Raw),
            r->Ok_0.carries::<EditAutumn>(
                (EditAutumnView {
                    name: field_of(name.deep_view()),
                    description: field_of(description.deep_view()),
                    icon: field_of(icon.deep_view()),
                    remove: field_of(remove.deep_view()),
                }),
            ),
    {
        let mut url = String::from_str(API_URL);
        url.append("/channels/");
        url.append(channel_id);
        let payload = EditAutumn {
            name: Field::from_option(name),
            description: Field::from_option(description),
            icon: Field::from_option(icon),
            remove: Field::from_option(remove),
        };
        self.request_with::<EditAutumn>(Method::Patch, url, &payload, Expect::Raw)
    }

    /// Closes a direct conversation, leaves a group or deletes a channel of a
    /// server.
    pub fn close_channel(&self, channel_id: &str) -> (r: Request)
        ensures
            r.goes(self@, Method::Delete, base() + "/channels/"@ + channel_id@, Expect::Raw),
            r.body is None,
    {
        let mut url = String::from_str(API_URL);
        url.append("/channels/");
        url.append(channel_id);
        self.request(Method::Delete, url, None, Expect::Raw)
    }

    /// Creates an invite to a channel. The answer is the code of the invite.
    pub fn create_invite(&self, channel_id: &str) -> (r: Request)
        ensures
            r.goes(self@, Method::Post, base() + "/channels/"@ + channel_id@ + "/invites"@, Expect::Invite),
            r.body is None,
    {
        let mut url = String::from_str(API_URL);
        url.append("/channels/");
        url.append(channel_id);
        url.append("/invites");
        self.request(Method::Post, url, None, Expect::Invite)
    }

    /// Sets what a role may do in a channel.
    pub fn set_role_permission(&self, channel_id: &str, role_id: &str, permissions: i32) -> (r: Result<
        Request,
        RevoltRsError,
    >)
        ensures
            r is Ok,
            r->Ok_0.goes(
                self@,
                Method::Post,
                base() + "/channels/"@ + channel_id@ + "/permissions/"@ + role_id@,
                Expect::Raw,
            ),
            r->Ok_0.carries::<Permissions>((PermissionsView { permissions })),
    {
        let mut url = String::from_str(API_URL);
        url.append("/channels/");
        url.append(channel_id);
        url.append("/permissions/");
        url.append(role_id);
        let payload = Permissions { permissions };
        self.request_with::<Permissions>(Method::Post, url, &payload, Expect::Raw)
    }

    /// Sets what everyone may do in a channel.
    pub fn set_default_permission(&self, channel_id: &str, permissions: i32) -> (r: Result<Request, RevoltRsError>)
        ensures
            r is Ok,
            r->Ok_0.goes(
                self@,
                Method::Post,
                base() + "/channels/"@ + channel_id@ + "/permissions/default"@,
                Expect::Raw,
            ),
            r->Ok_0.carries::<Permissions>((PermissionsView { permissions })),
    {
        let mut url = String::from_str(API_URL);
        url.append("/channels/");
        url.append(channel_id);
        url.append("/permissions/default");
        let payload = Permissions { permissions };
        self.request_with::<Permissions>(Method::Post, url, &payload, Expect::Raw)
    }

    /// Whether a request sends a message with the given content and nonce:
    /// the payload holds both, and the attachments and the reply only where
    /// there are any.
    pub open spec fn sends(
        req: Request,
        token: Seq<char>,
        channel_id: Seq<char>,
        content: Seq<char>,
        nonce: Seq<char>,
        attachments: Option<Seq<Seq<char>>>,
        replies: Option<ReplyView>,
    ) -> bool {
        req.goes(token, Method::Post, base() + "/channels/"@ + channel_id + "/messages"@, Expect::Message)
            && req.carries::<SendMessage>(
            SendMessageView { content, nonce, attachments: field_of(attachments), replies: field_of(replies) },
        )
    }

    /// Sends a message with a nonce that the caller has made.
    pub fn send_message_with_nonce(
        &self,
        channel_id: &str,
        content: &str,
        nonce: String,
        attachments: Option<Vec<String>>,
        replies: Option<Reply>,
    ) -> (r: Result<Request, RevoltRsError>)
        ensures
            r is Ok,
            Self::sends(
                r->Ok_0,
                self@,
                channel_id@,
                content@,
                nonce@,
                attachments.deep_view(),
                replies.deep_view(),
            ),
    {
        let mut url = String::from_str(API_URL);
        url.append("/channels/");
        url.append(channel_id);
        url.append("/messages");
        let payload = SendMessage {
            content: content.to_owned(),
            nonce,
            attachments: Field::from_option(attachments),
            replies: Field::from_option(replies),
        };
        self.request_with::<SendMessage>(Method::Post, url, &payload, Expect::Message)
    }

    /// Sends a message. Each call makes a nonce of its own, a ULID, by which
    /// the service tells a repeated sending from a new message.
    pub fn send_message(
        &self,
        channel_id: &str,
        content: &str,
        attachments: Option<Vec<String>>,
        replies: Option<Reply>,
    ) -> (r: Result<Request, RevoltRsError>)
        ensures
            r is Ok,
            exists|nonce: Seq<char>|
                ulid_text(nonce) && #[trigger] Self::sends(
                    r->Ok_0,
                    self@,
                    channel_id@,
                    content@,
                    nonce,
                    attachments.deep_view(),
                    replies.deep_view(),
                ),
    {
        let nonce = rusty_ulid::generate_ulid_string();
        self.send_message_with_nonce(channel_id, content, nonce, attachments, replies)
    }

    /// Fetches messages of a channel. A field that is `None` is left out of
    /// the payload.
    pub fn fetch_messages(
        &self,
        channel_id: &str,
        limit: Option<i32>,
        before: Option<String>,
        after: Option<String>,
        sort: SearchSort,
        nearby: Option<String>,
        include_users: Option<bool>,
    ) -> (r: Result<Request, RevoltRsError>)
        ensures
            r is Ok,
            r->Ok_0.goes(
                self@,
                Method::Get,
                base() + "/channels/"@ + channel_id@ + "/messages"@,
                Expect::Messages,
            ),
            r->Ok_0.carries::<SearchMessages>(
                (SearchMessagesView {
                    query: Field::Missing,
                    limit: field_of(limit),
                    before: field_of(before.deep_view()),
                    after: field_of(after.deep_view()),
                    sort,
                    nearby: field_of(nearby.deep_view()),
                    include_users: field_of(include_users),
                }),
            ),
    {
        let mut url = String::from_str(API_URL);
        url.append("/channels/");
        url.append(channel_id);
        url.append("/messages");
        let payload = SearchMessages {
            query: Field::Missing,
            limit: Field::from_option(limit),
            before: Field::from_option(before),
            after: Field::from_option(after),
            sort,
            nearby: Field::from_option(nearby),
            include_users: Field::from_option(include_users),
        };
        self.request_with::<SearchMessages>(Method::Get, url, &payload, Expect::Messages)
    }

    /// Fetches one message.
    pub fn fetch_message(&self, channel_id: &str, message_id: &str) -> (r: Request)
        ensures
            r.goes(self@, Method::Get, base() + "/channels/"@ + channel_id@ + "/messages/"@ + message_id@, Expect::Message),
            r.body is None,
    {
        let mut url = String::from_str(API_URL);
        url.append("/channels/");
        url.append(channel_id);
        url.append("/messages/");
        url.append(message_id);
        self.request(Method::Get, url, None, Expect::Message)
    }

    /// Edits the text of a message.
    pub fn edit_message(&self, channel_id: &str, message_id: &str, content: &str) -> (r: Result<
        Request,
        RevoltRsError,
    >)
        ensures
            r is Ok,
            r->Ok_0.goes(
                self@,
                Method::Patch,
                base() + "/channels/"@ + channel_id@ + "/messages/"@ + message_id@,
                Expect::Raw,
            ),
            r->Ok_0.carries::<EditMessage>((EditMessageView { content: content@ })),
    {
        let mut url = String::from_str(API_URL);
        url.append("/channels/");
        url.append(channel_id);
        url.append("/messages/");
        url.append(message_id);
        let payload = EditMessage { content: content.to_owned() };
        self.request_with::<EditMessage>(Method::Patch, url, &payload, Expect::Raw)
    }

    /// Deletes a message.
    pub fn delete_message(&self, channel_id: &str, message_id: &str) -> (r: Request)
        ensures
            r.goes(self@, Method::Delete, base() + "/channels/"@ + channel_id@ + "/messages/"@ + message_id@, Expect::Raw),
            r.body is None,
    {
        let mut url = String::from_str(API_URL);
        url.append("/channels/");
        url.append(channel_id);
        url.append("/messages/");
        url.append(message_id);
        self.request(Method::Delete, url, None, Expect::Raw)
    }
}

} // verus!
