//! Requests to Kick's web interface, and what its replies say.

use crate::json;
use crate::json::{Json, JsonView};
use crate::text;
use vstd::prelude::*;
use vstd::string::*;

verus! {

/// What the adapter says that it is when it asks for a channel.
pub const USER_AGENT: &'static str =
    "Mozilla/5.0 (Windows NT 10.0; Win64; x64) AppleWebKit/537.36";

/// The address that grants access tokens.
pub const TOKEN_URL: &'static str = "https://id.kick.com/oauth/token";

/// `name` as Kick writes it in addresses: trimmed, and without one `@` sign in front.
pub open spec fn clean_name(name: Seq<char>) -> Seq<char> {
    let t = text::trimmed(name);
    if t.len() > 0 && t[0] == '@' {
        t.skip(1)
    } else {
        t
    }
}

/// `name` as Kick writes it in addresses: trimmed, and without one `@` sign in front.
pub fn clean_channel_name(name: &str) -> (r: String)
    ensures
        r@ == clean_name(name@),
{
    let t = text::trim(name);
    let cs = text::chars_of(t);
    if cs.len() > 0 && cs[0] == '@' {
        assert(t@.subrange(1, t@.len() as int) =~= t@.skip(1));
        t.substring_char(1, cs.len()).to_string()
    } else {
        t.to_string()
    }
}

/// The address that tells of a channel.
pub open spec fn channel_url(name: Seq<char>) -> Seq<char> {
    "https://kick.com/api/v2/channels/"@ + clean_name(name)
}

/// The address that tells of a channel.
pub fn chatroom_url(name: &str) -> (r: String)
    ensures
        r@ == channel_url(name@),
{
    "https://kick.com/api/v2/channels/".to_string().concat(clean_channel_name(name).as_str())
}

/// Why no chatroom is known for a channel.
#[derive(Debug, PartialEq)]
pub enum ChatroomError {
    /// The reply is no JSON document.
    InvalidJson,
    /// The reply does not name a chatroom of the channel.
    NotFound { channel: String },
}

impl ChatroomError {
    /// The error in words.
    pub fn message(&self) -> (r: String)
        ensures
            r@ == match *self {
                ChatroomError::InvalidJson => "error decoding response body"@,
                ChatroomError::NotFound { channel } =>
                    "Could not find chatroom ID for Kick channel: "@ + channel@,
            },
    {
        match self {
            ChatroomError::InvalidJson => "error decoding response body".to_string(),
            ChatroomError::NotFound { channel } =>
                "Could not find chatroom ID for Kick channel: ".to_string().concat(
                    channel.as_str(),
                ),
        }
    }
}

/// The chatroom that the reply about a channel names.
pub open spec fn chatroom_in(reply: JsonView) -> Option<u64> {
    match json::member(reply, "chatroom"@) {
        Some(chatroom) => json::unsigned_member(chatroom, "id"@),
        None => None,
    }
}

/// The chatroom that the reply about a channel names.
pub fn read_chatroom_id(name: &str, reply: &Json) -> (r: Result<u64, ChatroomError>)
    ensures
        match r {
            Ok(id) => chatroom_in(reply@) == Some(id),
            Err(ChatroomError::NotFound { channel }) => chatroom_in(reply@) is None && channel@
                == clean_name(name@),
            Err(ChatroomError::InvalidJson) => false,
        },
{
    if let Some(chatroom) = reply.get("chatroom") {
        if let Some(id) = chatroom.unsigned_at("id") {
            return Ok(id);
        }
    }
    Err(ChatroomError::NotFound { channel: clean_channel_name(name) })
}

/// The chatroom that the body of the reply about a channel names.
pub fn fetch_chatroom_id(name: &str, body: &[u8]) -> (r: Result<u64, ChatroomError>)
    ensures
        match json::json_of_bytes(body@) {
            Some(reply) => match chatroom_in(reply) {
                Some(id) => r == Ok::<u64, ChatroomError>(id),
                None => r matches Err(ChatroomError::NotFound { channel }) && channel@
                    == clean_name(name@),
            },
            None => r == Err::<u64, ChatroomError>(ChatroomError::InvalidJson),
        },
{
    match json::parse_bytes(body) {
        Some(reply) => read_chatroom_id(name, &reply),
        None => Err(ChatroomError::InvalidJson),
    }
}

/// The fields of the request for an access token.
pub open spec fn token_form(client_id: Seq<char>, client_secret: Seq<char>) -> Seq<
    (Seq<char>, Seq<char>),
> {
    seq![
        ("grant_type"@, "client_credentials"@),
        ("client_id"@, client_id),
        ("client_secret"@, client_secret),
    ]
}

/// The fields of the request for an access token.
pub fn token_params(client_id: &str, client_secret: &str) -> (r: Vec<(String, String)>)
    ensures
        text::pairs_view(r@) == token_form(client_id@, client_secret@),
{
    let mut r: Vec<(String, String)> = Vec::new();
    r.push(("grant_type".to_string(), "client_credentials".to_string()));
    r.push(("client_id".to_string(), client_id.to_string()));
    r.push(("client_secret".to_string(), client_secret.to_string()));
    assert(text::pairs_view(r@) =~= token_form(client_id@, client_secret@));
    r
}

/// The reply to the request for an access token.
#[derive(Debug, PartialEq)]
pub enum TokenReply {
    /// The status says success; the bytes are the body.
    Success(Vec<u8>),
    /// The status says otherwise; the text is the body.
    Refused(String),
}

/// Why there is no access token.
#[derive(Debug, PartialEq)]
pub enum TokenError {
    /// The reply is no JSON document.
    InvalidJson,
    /// The reply holds no token.
    InvalidStructure,
    /// Kick refused the request.
    Refused { body: String },
}

impl TokenError {
    /// The error in words.
    pub fn message(&self) -> (r: String)
        ensures
            r@ == match *self {
                TokenError::InvalidJson => "error decoding response body"@,
                TokenError::InvalidStructure =>
                    "Invalid response structure from Kick OAuth server"@,
                TokenError::Refused { body } => "Failed to obtain OAuth token from Kick: "@ + body@,
            },
    {
        match self {
            TokenError::InvalidJson => "error decoding response body".to_string(),
            TokenError::InvalidStructure =>
                "Invalid response structure from Kick OAuth server".to_string(),
            TokenError::Refused { body } =>
                "Failed to obtain OAuth token from Kick: ".to_string().concat(body.as_str()),
        }
    }
}

/// The access token that a successful reply holds.
pub fn read_access_token(reply: &Json) -> (r: Result<String, TokenError>)
    ensures
        match r {
            Ok(token) => json::text_member(reply@, "access_token"@) == Some(token@),
            Err(e) => e is InvalidStructure && json::text_member(reply@, "access_token"@) is None,
        },
{
    match reply.text_at("access_token") {
        Some(token) => Ok(token.to_string()),
        None => Err(TokenError::InvalidStructure),
    }
}

/// The access token that a reply grants.
pub fn fetch_app_access_token(reply: TokenReply) -> (r: Result<String, TokenError>)
    ensures
        match reply {
            TokenReply::Refused(body) => r == Err::<String, TokenError>(
                TokenError::Refused { body },
            ),
            TokenReply::Success(body) => match json::json_of_bytes(body@) {
                None => r == Err::<String, TokenError>(TokenError::InvalidJson),
                Some(document) => match json::text_member(document, "access_token"@) {
                    Some(token) => r is Ok && r->Ok_0@ == token,
                    None => r == Err::<String, TokenError>(TokenError::InvalidStructure),
                },
            },
        },
{
    match reply {
        TokenReply::Refused(body) => Err(TokenError::Refused { body }),
        TokenReply::Success(body) => match json::parse_bytes(body.as_slice()) {
            Some(document) => read_access_token(&document),
            None => Err(TokenError::InvalidJson),
        },
    }
}

/// A request that puts a text into the chat.
#[derive(Debug, PartialEq)]
pub struct ChatRequest {
    pub url: String,
    pub authorization: String,
    pub content_type: String,
    pub body: String,
}

/// What a request that puts `message` into the chat says.
pub open spec fn chat_request_body(message: Seq<char>) -> JsonView {
    JsonView::Object(
        map![
            "content"@ => JsonView::Text(message),
            "type"@ => JsonView::Text("user"@),
        ],
    )
}

/// The request that puts `message` into the chat; without a token there is none.
pub fn send_kick_message(oauth_token: &str, message: &str) -> (r: Option<ChatRequest>)
    ensures
        r is None <==> oauth_token@.len() == 0,
        match r {
            Some(q) => {
                &&& q.url@ == "https://api.kick.com/public/v1/chat"@
                &&& q.authorization@ == "Bearer "@ + oauth_token@
                &&& q.content_type@ == "application/json"@
                &&& q.body@ == json::compact_text(chat_request_body(message@))
                &&& json::json_of_text(q.body@) == Some(chat_request_body(message@))
            },
            None => true,
        },
{
    if oauth_token.is_empty() {
        return None;
    }
    let mut m: Vec<(String, Json)> = Vec::new();
    json::put(&mut m, "content", json::text(message));
    json::put(&mut m, "type", json::text("user"));
    proof {
        reveal_with_fuel(json::without_reals, 2);
        assert(json::entries_within(m@, (json::max_depth() - 1) as nat));
        assert(json::without_reals(chat_request_body(message@)));
    }
    Some(
        ChatRequest {
            url: "https://api.kick.com/public/v1/chat".to_string(),
            authorization: "Bearer ".to_string().concat(oauth_token),
            content_type: "application/json".to_string(),
            body: json::compact(Json::Object(m)),
        },
    )
}

/// White space around a channel name and an `@` sign in front of it do not change its address.
pub proof fn law_channel_address(l: Seq<char>, name: Seq<char>, r: Seq<char>)
    requires
        text::is_blank(l),
        text::is_blank(r),
        text::is_trim(name),
        name.len() > 0,
        name[0] != '@',
    ensures
        channel_url(l + (seq!['@'] + name) + r) == channel_url(name),
        channel_url(l + name + r) == channel_url(name),
{
    let at = seq!['@'] + name;
    text::lemma_trimmed_padded(l, at, r);
    text::lemma_trimmed_padded(l, name, r);
    text::lemma_trimmed(name);
    assert(at.last() == name.last());
    text::lemma_trimmed(at);
    assert(at.skip(1) =~= name);
}

/// A channel is asked for under its name, without the white space around it and without one `@`
/// sign in front of it; everything else of the name stays.
pub proof fn law_channel_is_asked_for_by_name(
    name: &str,
    l: Seq<char>,
    inner: Seq<char>,
    r: Seq<char>,
    url: String,
    clean: String,
)
    requires
        call_ensures(chatroom_url, (name,), url),
        call_ensures(clean_channel_name, (name,), clean),
        name@ == l + inner + r,
        text::is_blank(l),
        text::is_blank(r),
        text::is_trim(inner),
    ensures
        inner.len() == 0 || inner[0] != '@' ==> clean@ == inner,
        inner.len() > 0 && inner[0] == '@' ==> clean@ == inner.skip(1),
        url@ == "https://kick.com/api/v2/channels/"@ + clean@,
{
    text::lemma_trimmed_padded(l, inner, r);
    text::lemma_trimmed(inner);
}

/// Whether `v` names `id` as the chatroom: under `id` of what stands under `chatroom`.
pub open spec fn names_chatroom(v: JsonView, id: u64) -> bool {
    v matches JsonView::Object(m) && {
        &&& m.dom().contains("chatroom"@)
        &&& m["chatroom"@] matches JsonView::Object(c) && c.contains_pair(
            "id"@,
            JsonView::Integer(id as int),
        )
    }
}

/// The chatroom is the integer that the reply holds under `id` of its member `chatroom`, whatever
/// other members the two have. Where there is no such integer the error names the channel as it
/// was asked for, and where the reply is no document the error says so.
pub proof fn law_chatroom_of_a_reply(
    name: &str,
    body: &[u8],
    id: u64,
    clean: String,
    out: Result<u64, ChatroomError>,
)
    requires
        call_ensures(fetch_chatroom_id, (name, body), out),
        call_ensures(clean_channel_name, (name,), clean),
    ensures
        json::json_of_bytes(body@) matches Some(reply) ==> {
            &&& names_chatroom(reply, id) ==> out == Ok::<u64, ChatroomError>(id)
            &&& out == Ok::<u64, ChatroomError>(id) ==> names_chatroom(reply, id)
            &&& out matches Err(e) ==> (e matches ChatroomError::NotFound { channel } && channel@
                == clean@)
        },
        json::json_of_bytes(body@) is None ==> out == Err::<u64, ChatroomError>(
            ChatroomError::InvalidJson,
        ),
{
}

/// The same holds of a reply that is read already.
pub proof fn law_chatroom_of_a_document(
    name: &str,
    reply: Json,
    id: u64,
    out: Result<u64, ChatroomError>,
)
    requires
        call_ensures(read_chatroom_id, (name, &reply), out),
    ensures
        out == Ok::<u64, ChatroomError>(id) <==> names_chatroom(reply@, id),
        out matches Err(e) ==> e is NotFound,
{
}

/// Whether `v` grants `token`: under `access_token`.
pub open spec fn grants(v: JsonView, token: Seq<char>) -> bool {
    v matches JsonView::Object(m) && m.contains_pair("access_token"@, JsonView::Text(token))
}

/// The token is the text that a successful reply holds under `access_token`, whatever its other
/// members; a refused request is answered with the body of the refusal.
pub proof fn law_token_of_a_reply(
    body: Vec<u8>,
    refusal: String,
    token: Seq<char>,
    out: Result<String, TokenError>,
    refused: Result<String, TokenError>,
)
    requires
        call_ensures(fetch_app_access_token, (TokenReply::Success(body),), out),
        call_ensures(fetch_app_access_token, (TokenReply::Refused(refusal),), refused),
    ensures
        json::json_of_bytes(body@) matches Some(reply) ==> {
            &&& grants(reply, token) ==> (out matches Ok(t) && t@ == token)
            &&& out matches Ok(t) ==> grants(reply, t@)
            &&& out matches Err(e) ==> e is InvalidStructure
        },
        json::json_of_bytes(body@) is None ==> (out matches Err(e) && e is InvalidJson),
        refused matches Err(TokenError::Refused { body: told }) && told@ == refusal@,
{
}

/// The same holds of a reply that is read already.
pub proof fn law_token_of_a_document(
    reply: Json,
    token: Seq<char>,
    out: Result<String, TokenError>,
)
    requires
        call_ensures(read_access_token, (&reply,), out),
    ensures
        grants(reply@, token) ==> (out matches Ok(t) && t@ == token),
        out matches Ok(t) ==> grants(reply@, t@),
        out matches Err(e) ==> e is InvalidStructure,
{
}

/// The request for a token names the client by its own id and secret, and asks for the
/// credentials of a client.
pub proof fn law_token_request(client_id: &str, client_secret: &str, out: Vec<(String, String)>)
    requires
        call_ensures(token_params, (client_id, client_secret), out),
    ensures
        out@.len() == 3,
        out@[0].0@ == "grant_type"@ && out@[0].1@ == "client_credentials"@,
        out@[1].0@ == "client_id"@ && out@[1].1@ == client_id@,
        out@[2].0@ == "client_secret"@ && out@[2].1@ == client_secret@,
        TOKEN_URL@ == "https://id.kick.com/oauth/token"@,
        USER_AGENT@ == "Mozilla/5.0 (Windows NT 10.0; Win64; x64) AppleWebKit/537.36"@,
{
    let v = text::pairs_view(out@);
    assert(v.len() == 3);
    assert(v[0] == (out@[0].0@, out@[0].1@));
    assert(v[1] == (out@[1].0@, out@[1].1@));
    assert(v[2] == (out@[2].0@, out@[2].1@));
}

/// A text goes into the chat as it is, from the user, and under the token; the body of the request
/// reads as that and nothing else. Without a token there is no request.
pub proof fn law_text_goes_into_the_chat(token: &str, message: &str, out: Option<ChatRequest>)
    requires
        call_ensures(send_kick_message, (token, message), out),
    ensures
        token@.len() == 0 ==> out is None,
        token@.len() > 0 ==> (out matches Some(q) && {
            &&& q.url@ == "https://api.kick.com/public/v1/chat"@
            &&& q.authorization@ == "Bearer "@ + token@
            &&& q.content_type@ == "application/json"@
            &&& json::json_of_text(q.body@) matches Some(JsonView::Object(m)) && {
                &&& m.dom() =~= set!["content"@, "type"@]
                &&& m["content"@] == JsonView::Text(message@)
                &&& m["type"@] == JsonView::Text("user"@)
            }
        }),
{
    reveal_strlit("content");
    reveal_strlit("type");
    assert("content"@.len() == 7);
    assert("type"@.len() == 4);
}

/// Every error says in words what went wrong, and names the channel or what the refusal said.
pub proof fn law_errors_in_words(
    no_chatroom: ChatroomError,
    no_token: TokenError,
    about_chatroom: String,
    about_token: String,
)
    requires
        call_ensures(ChatroomError::message, (&no_chatroom,), about_chatroom),
        call_ensures(TokenError::message, (&no_token,), about_token),
    ensures
        no_chatroom matches ChatroomError::NotFound { channel } ==> about_chatroom@
            == "Could not find chatroom ID for Kick channel: "@ + channel@,
        no_chatroom is InvalidJson ==> about_chatroom@ == "error decoding response body"@,
        no_token matches TokenError::Refused { body } ==> about_token@
            == "Failed to obtain OAuth token from Kick: "@ + body@,
        no_token is InvalidStructure ==> about_token@
            == "Invalid response structure from Kick OAuth server"@,
        no_token is InvalidJson ==> about_token@ == "error decoding response body"@,
{
}

} // verus!
