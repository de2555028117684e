//! The stream of a chatroom: Kick's Pusher frames, and what the adapter does about them.

use crate::decimal;
use crate::json;
use crate::json::{Json, JsonView};
use crate::messages;
use crate::messages::{ChatMessage, ChatMessageView, Container, ContainerView};
use crate::messages::{Identity, IdentityView, Payload, PayloadView};
use crate::moderation;
use crate::text;
use vstd::prelude::*;
use vstd::string::*;

verus! {

/// The address of the stream.
pub const PUSHER_URL: &'static str =
    "wss://ws-us2.pusher.com/app/32cbd69e4b950bf97679?protocol=7&client=js&version=7.6.0&flash=false";

/// Where the adapter says that it comes from.
pub const ORIGIN: &'static str = "https://kick.com";

/// What the adapter says that it is.
pub const USER_AGENT: &'static str =
    "Mozilla/5.0 (Windows NT 10.0; Win64; x64) AppleWebKit/537.36 (KHTML, like Gecko) Chrome/122.0.0.0 Safari/537.36";

/// How many seconds the adapter waits before it connects again.
pub const RECONNECT_SECS: u64 = 5;

/// How many seconds lie between two ticks.
pub const TICK_SECS: u64 = 30;

/// What a frame tells.
#[derive(Debug, PartialEq)]
pub enum Frame {
    /// The connection stands.
    ConnectionEstablished,
    /// The chatroom is subscribed to.
    SubscriptionSucceeded,
    /// Somebody wrote into the chat; the data are a JSON document of their own.
    ChatMessage { data: String },
    /// The other side asks for a sign of life.
    Ping,
    /// Anything else.
    Other,
}

/// `Frame` as text.
pub enum FrameView {
    ConnectionEstablished,
    SubscriptionSucceeded,
    ChatMessage { data: Seq<char> },
    Ping,
    Other,
}

impl View for Frame {
    type V = FrameView;

    open spec fn view(&self) -> FrameView {
        match *self {
            Frame::ConnectionEstablished => FrameView::ConnectionEstablished,
            Frame::SubscriptionSucceeded => FrameView::SubscriptionSucceeded,
            Frame::ChatMessage { data } => FrameView::ChatMessage { data: data@ },
            Frame::Ping => FrameView::Ping,
            Frame::Other => FrameView::Other,
        }
    }
}

/// What a frame tells.
pub open spec fn frame_of(document: JsonView) -> FrameView {
    match json::text_member(document, "event"@) {
        Some(event) => if event == "pusher:connection_established"@ {
            FrameView::ConnectionEstablished
        } else if event == "pusher_internal:subscription_succeeded"@ {
            FrameView::SubscriptionSucceeded
        } else if event == "App\\Events\\ChatMessageEvent"@ {
            match json::text_member(document, "data"@) {
                Some(data) => FrameView::ChatMessage { data },
                None => FrameView::Other,
            }
        } else if event == "pusher:ping"@ {
            FrameView::Ping
        } else {
            FrameView::Other
        },
        None => FrameView::Other,
    }
}

/// What a frame tells.
pub fn read_frame(document: &Json) -> (r: Frame)
    ensures
        r@ == frame_of(document@),
{
    match document.text_at("event") {
        Some(event) => if text::same_text(event, "pusher:connection_established") {
            Frame::ConnectionEstablished
        } else if text::same_text(event, "pusher_internal:subscription_succeeded") {
            Frame::SubscriptionSucceeded
        } else if text::same_text(event, "App\\Events\\ChatMessageEvent") {
            match document.text_at("data") {
                Some(data) => Frame::ChatMessage { data: data.to_string() },
                None => Frame::Other,
            }
        } else if text::same_text(event, "pusher:ping") {
            Frame::Ping
        } else {
            Frame::Other
        },
        None => Frame::Other,
    }
}

/// The name of a chatroom's channel.
pub open spec fn channel_of(chatroom_id: u64) -> Seq<char> {
    "chatrooms."@ + decimal::decimal_text(chatroom_id as nat) + ".v2"@
}

/// The frame that subscribes to a chatroom.
pub open spec fn subscribe_document(chatroom_id: u64) -> JsonView {
    JsonView::Object(
        map![
            "event"@ => JsonView::Text("pusher:subscribe"@),
            "data"@ => JsonView::Object(
                map![
                    "auth"@ => JsonView::Text(""@),
                    "channel"@ => JsonView::Text(channel_of(chatroom_id)),
                ],
            ),
        ],
    )
}

/// The frame that gives a sign of life.
pub open spec fn pong_document() -> JsonView {
    JsonView::Object(
        map![
            "event"@ => JsonView::Text("pusher:pong"@),
            "data"@ => JsonView::Object(Map::empty()),
        ],
    )
}

/// The text of the frame that subscribes to a chatroom.
pub fn subscribe_text(chatroom_id: u64) -> (r: String)
    ensures
        r@ == json::compact_text(subscribe_document(chatroom_id)),
        json::json_of_text(r@) == Some(subscribe_document(chatroom_id)),
{
    let channel = "chatrooms.".to_string().concat(decimal::u64_text(chatroom_id).as_str()).concat(
        ".v2",
    );
    let mut data: Vec<(String, Json)> = Vec::new();
    json::put(&mut data, "auth", json::text(""));
    json::put(&mut data, "channel", json::text(channel.as_str()));
    assert(json::entries_within(data@, (json::max_depth() - 2) as nat));
    let mut m: Vec<(String, Json)> = Vec::new();
    json::put(&mut m, "event", json::text("pusher:subscribe"));
    json::put(&mut m, "data", Json::Object(data));
    let document = Json::Object(m);
    proof {
        assert(document@ == subscribe_document(chatroom_id));
        assert(json::entries_within(m@, (json::max_depth() - 1) as nat));
        reveal_with_fuel(json::without_reals, 3);
        assert(json::without_reals(subscribe_document(chatroom_id)));
    }
    json::compact(document)
}

/// The text of the frame that gives a sign of life.
pub fn pong_text() -> (r: String)
    ensures
        r@ == json::compact_text(pong_document()),
        json::json_of_text(r@) == Some(pong_document()),
{
    let mut m: Vec<(String, Json)> = Vec::new();
    json::put(&mut m, "event", json::text("pusher:pong"));
    json::put(&mut m, "data", Json::Object(Vec::new()));
    let document = Json::Object(m);
    proof {
        assert(json::members_view(Seq::empty()) =~= Map::empty());
        assert(document@ == pong_document());
        assert(json::entries_within(m@, (json::max_depth() - 1) as nat));
        reveal_with_fuel(json::without_reals, 3);
        assert(json::without_reals(pong_document()));
    }
    json::compact(document)
}

/// The name of whoever wrote a chat message.
pub open spec fn sender_in(data: JsonView) -> Seq<char> {
    match json::member(data, "sender"@) {
        Some(sender) => match json::text_member(sender, "username"@) {
            Some(name) => name,
            None => "Unknown"@,
        },
        None => "Unknown"@,
    }
}

/// The text of a chat message; where there is none it is empty.
pub open spec fn content_in(data: JsonView) -> Seq<char> {
    match json::text_member(data, "content"@) {
        Some(content) => content,
        None => Seq::empty(),
    }
}

/// The name of whoever wrote a chat message.
pub fn read_sender(data: &Json) -> (r: String)
    ensures
        r@ == sender_in(data@),
{
    match data.get("sender") {
        Some(sender) => match sender.text_at("username") {
            Some(name) => name.to_string(),
            None => "Unknown".to_string(),
        },
        None => "Unknown".to_string(),
    }
}

/// The text of a chat message; where there is none it is empty.
pub fn read_content(data: &Json) -> (r: String)
    ensures
        r@ == content_in(data@),
{
    match data.text_at("content") {
        Some(content) => content.to_string(),
        None => String::new(),
    }
}

/// What a chat message means to the moderation.
#[derive(Debug, PartialEq)]
pub enum Moderation {
    /// Nothing.
    Nothing,
    /// It holds a command, which the engine is told of.
    Query(Container),
    /// It begins with a command word that nothing readable follows.
    Unreadable,
}

/// `Moderation` as text.
pub enum ModerationView {
    Nothing,
    Query(ContainerView),
    Unreadable,
}

impl View for Moderation {
    type V = ModerationView;

    open spec fn view(&self) -> ModerationView {
        match *self {
            Moderation::Nothing => ModerationView::Nothing,
            Moderation::Query(c) => ModerationView::Query(c@),
            Moderation::Unreadable => ModerationView::Unreadable,
        }
    }
}

/// What a chat message means to the moderation.
pub open spec fn moderation_of(
    identity: IdentityView,
    content: Seq<char>,
    sender: Seq<char>,
) -> ModerationView {
    if !moderation::is_readable(content) {
        ModerationView::Unreadable
    } else {
        match moderation::mod_command(content) {
            Some(c) => ModerationView::Query(
                messages::sent_by(
                    identity,
                    PayloadView::DatabaseQuery {
                        query_id: moderation::query_id(c),
                        sql: json::compact_text(moderation::payload(c, sender)),
                        params: Seq::empty(),
                    },
                ),
            ),
            None => ModerationView::Nothing,
        }
    }
}

/// Whether the text of a query, where there is one, reads as what the engine is told of the
/// command in `content`.
pub open spec fn query_reads_back(
    content: Seq<char>,
    sender: Seq<char>,
    m: ModerationView,
) -> bool {
    m matches ModerationView::Query(c) ==> {
        &&& c.payload is DatabaseQuery
        &&& json::json_of_text(c.payload->sql) == Some(
            moderation::payload(moderation::mod_command(content)->0, sender),
        )
    }
}

/// What a chat message means to the moderation.
pub fn moderate(identity: &Identity, content: &str, sender: &str) -> (r: Moderation)
    ensures
        r@ == moderation_of(identity@, content@, sender@),
        query_reads_back(content@, sender@, r@),
{
    if !moderation::readable(content) {
        return Moderation::Unreadable;
    }
    match moderation::parse_mod_command(content, sender) {
        Some((query_id, payload)) => {
            proof {
                moderation::lemma_payload_is_plain(
                    moderation::mod_command(content@)->0,
                    sender@,
                );
            }
            let sql = json::compact(payload);
            let query = Payload::DatabaseQuery { query_id, sql, params: Vec::new() };
            assert(query@->params =~= Seq::empty());
            Moderation::Query(messages::wrap(identity, query))
        },
        None => Moderation::Nothing,
    }
}

/// What becomes of a chat message: the line for the engine, and what the moderation makes of it.
#[derive(Debug, PartialEq)]
pub struct Relay {
    pub line: Container,
    pub moderation: Moderation,
}

/// `Relay` as text and bytes.
pub struct RelayView {
    pub line: ContainerView,
    pub moderation: ModerationView,
}

impl View for Relay {
    type V = RelayView;

    open spec fn view(&self) -> RelayView {
        RelayView { line: self.line@, moderation: self.moderation@ }
    }
}

/// The line of chat that the data of a chat message are.
pub open spec fn chat_line(data: JsonView) -> ChatMessageView {
    ChatMessageView {
        platform: "kick"@,
        raw_data: vstd::utf8::encode_utf8(json::compact_text(data)),
        raw_message: content_in(data),
        user_uuid7: sender_in(data),
    }
}

/// What becomes of a chat message; one without text is passed over.
pub open spec fn relay_of(identity: IdentityView, data: JsonView) -> Option<RelayView> {
    if content_in(data).len() == 0 {
        None
    } else {
        Some(
            RelayView {
                line: messages::sent_by(
                    identity,
                    PayloadView::MessagePreProcess {
                        audio: Seq::empty(),
                        audio_type: Seq::empty(),
                        message_uuid7: Seq::empty(),
                        raw_message: chat_line(data),
                    },
                ),
                moderation: moderation_of(identity, content_in(data), sender_in(data)),
            },
        )
    }
}

/// Whether the text of the raw data of a line reads as the data. Where they hold a real number,
/// what is read is the same up to the real numbers.
pub open spec fn line_reads_back(data: JsonView) -> bool {
    json::reads_as(json::compact_text(data), data)
}

/// What becomes of a chat message; one without text is passed over.
pub fn relay_chat(identity: &Identity, data: Json) -> (r: Option<Relay>)
    requires
        json::built_within(data, json::max_depth()),
    ensures
        match r {
            Some(relay) => relay_of(identity@, data@) == Some(relay@) && query_reads_back(
                content_in(data@),
                sender_in(data@),
                relay.moderation@,
            ) && line_reads_back(data@),
            None => relay_of(identity@, data@) is None,
        },
{
    let sender = read_sender(&data);
    let content = read_content(&data);
    if content.as_str().is_empty() {
        return None;
    }
    let moderation = moderate(identity, content.as_str(), sender.as_str());
    let raw_data = json::compact(data).as_str().as_bytes_vec();
    let raw_message = ChatMessage {
        platform: "kick".to_string(),
        raw_data,
        raw_message: content,
        user_uuid7: sender,
    };
    let line = messages::wrap(
        identity,
        Payload::MessagePreProcess {
            audio: Vec::new(),
            audio_type: String::new(),
            message_uuid7: String::new(),
            raw_message,
        },
    );
    Some(Relay { line, moderation })
}

/// What the adapter does about a frame.
#[derive(Debug, PartialEq)]
pub enum Reaction {
    /// Nothing.
    Ignore,
    /// Note that the chatroom is subscribed to.
    Subscribed,
    /// Send a frame that subscribes to the chatroom.
    Subscribe(String),
    /// Send a frame that gives a sign of life.
    Pong(String),
    /// Pass a chat message on.
    Relay(Relay),
}

/// `Reaction` as text and bytes.
pub enum ReactionView {
    Ignore,
    Subscribed,
    Subscribe(Seq<char>),
    Pong(Seq<char>),
    Relay(RelayView),
}

impl View for Reaction {
    type V = ReactionView;

    open spec fn view(&self) -> ReactionView {
        match *self {
            Reaction::Ignore => ReactionView::Ignore,
            Reaction::Subscribed => ReactionView::Subscribed,
            Reaction::Subscribe(s) => ReactionView::Subscribe(s@),
            Reaction::Pong(s) => ReactionView::Pong(s@),
            Reaction::Relay(r) => ReactionView::Relay(r@),
        }
    }
}

/// What the adapter does about a frame, where `data` are the data of a chat message as a document
/// of their own.
pub open spec fn reaction_to(
    identity: IdentityView,
    chatroom_id: u64,
    frame: FrameView,
    data: Option<JsonView>,
) -> ReactionView {
    match frame {
        FrameView::ConnectionEstablished => ReactionView::Subscribe(
            json::compact_text(subscribe_document(chatroom_id)),
        ),
        FrameView::SubscriptionSucceeded => ReactionView::Subscribed,
        FrameView::ChatMessage { .. } => match data {
            Some(d) => match relay_of(identity, d) {
                Some(relay) => ReactionView::Relay(relay),
                None => ReactionView::Ignore,
            },
            None => ReactionView::Ignore,
        },
        FrameView::Ping => ReactionView::Pong(json::compact_text(pong_document())),
        FrameView::Other => ReactionView::Ignore,
    }
}

/// Whether what a reaction sends reads as it should.
pub open spec fn reaction_reads_back(
    chatroom_id: u64,
    data: Option<JsonView>,
    r: ReactionView,
) -> bool {
    match r {
        ReactionView::Subscribe(s) => json::json_of_text(s) == Some(
            subscribe_document(chatroom_id),
        ),
        ReactionView::Pong(s) => json::json_of_text(s) == Some(pong_document()),
        ReactionView::Relay(relay) => data is Some && query_reads_back(
            content_in(data->0),
            sender_in(data->0),
            relay.moderation,
        ) && line_reads_back(data->0),
        _ => true,
    }
}

/// The view of an optional document.
pub open spec fn opt_json_view(j: Option<Json>) -> Option<JsonView> {
    match j {
        Some(j) => Some(j@),
        None => None,
    }
}

/// What the adapter does about a frame, where `data` are the data of a chat message as a document
/// of their own.
pub fn react(identity: &Identity, chatroom_id: u64, frame: Frame, data: Option<Json>) -> (r:
    Reaction)
    requires
        data is Some ==> json::built_within(data->0, json::max_depth()),
    ensures
        r@ == reaction_to(identity@, chatroom_id, frame@, opt_json_view(data)),
        reaction_reads_back(chatroom_id, opt_json_view(data), r@),
{
    match frame {
        Frame::ConnectionEstablished => Reaction::Subscribe(subscribe_text(chatroom_id)),
        Frame::SubscriptionSucceeded => Reaction::Subscribed,
        Frame::ChatMessage { .. } => match data {
            Some(d) => match relay_chat(identity, d) {
                Some(relay) => Reaction::Relay(relay),
                None => Reaction::Ignore,
            },
            None => Reaction::Ignore,
        },
        Frame::Ping => Reaction::Pong(pong_text()),
        Frame::Other => Reaction::Ignore,
    }
}

/// The data of a chat message as a document of their own.
pub open spec fn data_of(frame: FrameView) -> Option<JsonView> {
    match frame {
        FrameView::ChatMessage { data } => json::json_of_text(data),
        _ => None,
    }
}

/// What the adapter does about the text of a frame.
pub open spec fn reaction_to_text(
    identity: IdentityView,
    chatroom_id: u64,
    frame_text: Seq<char>,
) -> ReactionView {
    match json::json_of_text(frame_text) {
        Some(document) => reaction_to(
            identity,
            chatroom_id,
            frame_of(document),
            data_of(frame_of(document)),
        ),
        None => ReactionView::Ignore,
    }
}

/// What the adapter does about the text of a frame.
pub fn handle_frame(identity: &Identity, chatroom_id: u64, frame_text: &str) -> (r: Reaction)
    ensures
        r@ == reaction_to_text(identity@, chatroom_id, frame_text@),
        json::json_of_text(frame_text@) matches Some(document) ==> reaction_reads_back(
            chatroom_id,
            data_of(frame_of(document)),
            r@,
        ),
{
    match json::parse(frame_text) {
        Some(document) => {
            let frame = read_frame(&document);
            let data: Option<Json> = match &frame {
                Frame::ChatMessage { data } => json::parse(data.as_str()),
                _ => None,
            };
            react(identity, chatroom_id, frame, data)
        },
        None => Reaction::Ignore,
    }
}

/// What happens to the stream.
#[derive(Debug, PartialEq)]
pub enum StreamEvent {
    /// The request to connect could not be built.
    RequestRejected,
    /// The connection could not be made.
    ConnectFailed,
    /// The frame that subscribes could not be sent.
    SubscribeFailed,
    /// A tick passed.
    Tick,
    /// A text frame came.
    Text(String),
    /// A ping frame came.
    Ping(Vec<u8>),
    /// A frame of another kind came.
    OtherFrame,
    /// The connection failed.
    Failed,
    /// The connection was closed.
    Closed,
}

/// `StreamEvent` as text and bytes.
pub enum StreamEventView {
    RequestRejected,
    ConnectFailed,
    SubscribeFailed,
    Tick,
    Text(Seq<char>),
    Ping(Seq<u8>),
    OtherFrame,
    Failed,
    Closed,
}

impl View for StreamEvent {
    type V = StreamEventView;

    open spec fn view(&self) -> StreamEventView {
        match *self {
            StreamEvent::RequestRejected => StreamEventView::RequestRejected,
            StreamEvent::ConnectFailed => StreamEventView::ConnectFailed,
            StreamEvent::SubscribeFailed => StreamEventView::SubscribeFailed,
            StreamEvent::Tick => StreamEventView::Tick,
            StreamEvent::Text(s) => StreamEventView::Text(s@),
            StreamEvent::Ping(p) => StreamEventView::Ping(p@),
            StreamEvent::OtherFrame => StreamEventView::OtherFrame,
            StreamEvent::Failed => StreamEventView::Failed,
            StreamEvent::Closed => StreamEventView::Closed,
        }
    }
}

/// What the adapter does about an event of the stream.
#[derive(Debug, PartialEq)]
pub enum StreamAction {
    /// Go on reading.
    Continue,
    /// React to a frame and go on reading.
    React(Reaction),
    /// Send a pong frame and go on reading.
    Pong(Vec<u8>),
    /// Connect again after some seconds.
    Reconnect { after_secs: u64 },
}

/// `StreamAction` as text and bytes.
pub enum StreamActionView {
    Continue,
    React(ReactionView),
    Pong(Seq<u8>),
    Reconnect { after_secs: int },
}

impl View for StreamAction {
    type V = StreamActionView;

    open spec fn view(&self) -> StreamActionView {
        match *self {
            StreamAction::Continue => StreamActionView::Continue,
            StreamAction::React(r) => StreamActionView::React(r@),
            StreamAction::Pong(p) => StreamActionView::Pong(p@),
            StreamAction::Reconnect { after_secs } => StreamActionView::Reconnect {
                after_secs: after_secs as int,
            },
        }
    }
}

/// What the adapter does about an event of the stream.
pub open spec fn stream_action(
    identity: IdentityView,
    chatroom_id: u64,
    event: StreamEventView,
) -> StreamActionView {
    match event {
        StreamEventView::Tick => StreamActionView::Continue,
        StreamEventView::OtherFrame => StreamActionView::Continue,
        StreamEventView::Text(s) => StreamActionView::React(
            reaction_to_text(identity, chatroom_id, s),
        ),
        StreamEventView::Ping(p) => StreamActionView::Pong(p),
        _ => StreamActionView::Reconnect { after_secs: RECONNECT_SECS as int },
    }
}

/// What the adapter does about an event of the stream.
pub fn handle_stream_event(identity: &Identity, chatroom_id: u64, event: StreamEvent) -> (r:
    StreamAction)
    ensures
        r@ == stream_action(identity@, chatroom_id, event@),
        event@ matches StreamEventView::Text(s) ==> json::json_of_text(s) matches Some(document)
            ==> r@ matches StreamActionView::React(x) && reaction_reads_back(
            chatroom_id,
            data_of(frame_of(document)),
            x,
        ),
{
    match event {
        StreamEvent::Tick => StreamAction::Continue,
        StreamEvent::OtherFrame => StreamAction::Continue,
        StreamEvent::Text(s) => StreamAction::React(
            handle_frame(identity, chatroom_id, s.as_str()),
        ),
        StreamEvent::Ping(p) => StreamAction::Pong(p),
        _ => StreamAction::Reconnect { after_secs: RECONNECT_SECS },
    }
}

/// Different chatrooms have different channels, so a subscription names one chatroom.
pub proof fn law_subscription_names_the_chatroom(a: u64, b: u64)
    requires
        subscribe_document(a) == subscribe_document(b),
    ensures
        a == b,
{
    let da = json::member(subscribe_document(a), "data"@)->0;
    let db = json::member(subscribe_document(b), "data"@)->0;
    assert(json::text_member(da, "channel"@) == Some(channel_of(a)));
    assert(json::text_member(db, "channel"@) == Some(channel_of(b)));
    let p = "chatrooms."@;
    let q = ".v2"@;
    let ta = decimal::decimal_text(a as nat);
    let tb = decimal::decimal_text(b as nat);
    assert(channel_of(a).len() == p.len() + ta.len() + q.len());
    assert(channel_of(b).len() == p.len() + tb.len() + q.len());
    assert(ta =~= channel_of(a).subrange(p.len() as int, (p.len() + ta.len()) as int));
    assert(tb =~= channel_of(b).subrange(p.len() as int, (p.len() + tb.len()) as int));
    decimal::lemma_decimal_text_injective(a as nat, b as nat);
}

/// Every chat message with a text goes to the engine as it was written, under the name of whoever
/// wrote it, whether or not it holds a command.
pub proof fn law_every_line_is_relayed(
    identity: IdentityView,
    chatroom_id: u64,
    frame: FrameView,
    data: JsonView,
)
    requires
        frame is ChatMessage,
        content_in(data).len() > 0,
    ensures
        reaction_to(identity, chatroom_id, frame, Some(data)) matches ReactionView::Relay(r)
            && r.line.payload matches PayloadView::MessagePreProcess { raw_message, .. }
            && raw_message.raw_message == content_in(data) && raw_message.user_uuid7 == sender_in(
            data,
        ) && raw_message.platform == "kick"@,
{
}

/// A query goes to the engine exactly for messages that hold a command.
pub proof fn law_queries_are_for_commands(
    identity: IdentityView,
    content: Seq<char>,
    sender: Seq<char>,
)
    ensures
        moderation_of(identity, content, sender) is Query <==> moderation::is_readable(content)
            && moderation::mod_command(content) is Some,
        moderation_of(identity, content, sender) is Unreadable <==> !moderation::is_readable(
            content,
        ),
{
}

/// Whatever breaks the stream, the adapter connects again; no frame makes it do so.
pub proof fn law_stream_is_taken_up_again(
    identity: IdentityView,
    chatroom_id: u64,
    event: StreamEventView,
)
    ensures
        stream_action(identity, chatroom_id, event) is Reconnect <==> event is RequestRejected
            || event is ConnectFailed || event is SubscribeFailed || event is Failed
            || event is Closed,
        stream_action(identity, chatroom_id, event) matches StreamActionView::Reconnect {
            after_secs,
        } ==> after_secs == RECONNECT_SECS,
{
}

/// Whether `v` holds the text `t` under `key`.
pub open spec fn holds_text(v: JsonView, key: Seq<char>, t: Seq<char>) -> bool {
    v matches JsonView::Object(m) && m.contains_pair(key, JsonView::Text(t))
}

/// Whether `v` holds no text under `key`.
pub open spec fn holds_no_text(v: JsonView, key: Seq<char>) -> bool {
    !(v matches JsonView::Object(m) && m.dom().contains(key) && m[key] is Text)
}

/// The event alone tells what a frame is, whatever other members the frame has; a chat message
/// besides has its data as a text. Any other document is a frame that the adapter does not know.
pub proof fn law_event_tells_the_frame(document: Json, data: Seq<char>, out: Frame)
    requires
        call_ensures(read_frame, (&document,), out),
    ensures
        out is ConnectionEstablished <==> holds_text(
            document@,
            "event"@,
            "pusher:connection_established"@,
        ),
        out is SubscriptionSucceeded <==> holds_text(
            document@,
            "event"@,
            "pusher_internal:subscription_succeeded"@,
        ),
        out is Ping <==> holds_text(document@, "event"@, "pusher:ping"@),
        (out matches Frame::ChatMessage { data: d } && d@ == data) <==> holds_text(
            document@,
            "event"@,
            "App\\Events\\ChatMessageEvent"@,
        ) && holds_text(document@, "data"@, data),
{
    reveal_strlit("pusher:connection_established");
    reveal_strlit("pusher_internal:subscription_succeeded");
    reveal_strlit("App\\Events\\ChatMessageEvent");
    reveal_strlit("pusher:ping");
    assert("pusher:connection_established"@.len() == 29);
    assert("pusher_internal:subscription_succeeded"@.len() == 38);
    assert("App\\Events\\ChatMessageEvent"@.len() == 27);
    assert("pusher:ping"@.len() == 11);
}

/// Whether `v` asks for the lines of a chatroom by its number in digits, and says nothing else.
pub open spec fn subscribes_to(v: JsonView, digits: Seq<char>) -> bool {
    v matches JsonView::Object(m) && {
        &&& m.dom() =~= set!["event"@, "data"@]
        &&& m["event"@] == JsonView::Text("pusher:subscribe"@)
        &&& m["data"@] matches JsonView::Object(d) && {
            &&& d.dom() =~= set!["auth"@, "channel"@]
            &&& d["auth"@] matches JsonView::Text(a) && a.len() == 0
            &&& d["channel"@] == JsonView::Text("chatrooms."@ + digits + ".v2"@)
        }
    }
}

/// Whether `v` is a sign of life, and says nothing else.
pub open spec fn is_pong(v: JsonView) -> bool {
    v matches JsonView::Object(m) && {
        &&& m.dom() =~= set!["event"@, "data"@]
        &&& m["event"@] == JsonView::Text("pusher:pong"@)
        &&& m["data"@] matches JsonView::Object(d) && d.dom() =~= Set::empty()
    }
}

proof fn lemma_frames_that_are_sent(chatroom_id: u64)
    ensures
        subscribes_to(
            subscribe_document(chatroom_id),
            decimal::decimal_text(chatroom_id as nat),
        ),
        is_pong(pong_document()),
{
    reveal_strlit("event");
    reveal_strlit("data");
    reveal_strlit("auth");
    reveal_strlit("channel");
    reveal_strlit("");
    assert("event"@.len() == 5);
    assert("data"@.len() == 4);
    assert("auth"@.len() == 4);
    assert("channel"@.len() == 7);
}

/// The frames that are sent read as a subscription to the chatroom and as a sign of life.
pub proof fn law_frames_that_are_sent(
    chatroom_id: u64,
    digits: String,
    subscription: String,
    pong: String,
)
    requires
        call_ensures(decimal::u64_text, (chatroom_id,), digits),
        call_ensures(subscribe_text, (chatroom_id,), subscription),
        call_ensures(pong_text, (), pong),
    ensures
        json::json_of_text(subscription@) matches Some(v) && subscribes_to(v, digits@),
        json::json_of_text(pong@) matches Some(v) && is_pong(v),
{
    lemma_frames_that_are_sent(chatroom_id);
}

/// Whether `user` is the name under which the data of a chat message were written: the text under
/// `username` of what stands under `sender`, and `Unknown` where there is no such text.
pub open spec fn is_written_by(data: JsonView, user: Seq<char>) -> bool {
    let sender = match data {
        JsonView::Object(m) => if m.dom().contains("sender"@) {
            m["sender"@]
        } else {
            JsonView::Null
        },
        _ => JsonView::Null,
    };
    holds_text(sender, "username"@, user) || holds_no_text(sender, "username"@) && user
        == "Unknown"@
}

/// The sender is the one under `username` of `sender`, whatever other members the two have, and the
/// content is the text under `content`.
pub proof fn law_who_wrote_what(
    data: Json,
    content: Seq<char>,
    user: Seq<char>,
    who: String,
    what: String,
)
    requires
        call_ensures(read_sender, (&data,), who),
        call_ensures(read_content, (&data,), what),
    ensures
        is_written_by(data@, user) <==> who@ == user,
        holds_text(data@, "content"@, content) ==> what@ == content,
        holds_no_text(data@, "content"@) ==> what@.len() == 0,
{
}

/// Whether `c` carries a payload of the adapter itself.
pub open spec fn is_from(c: Container, identity: Identity) -> bool {
    &&& c.version == 1
    &&& c.auth_token@ == identity.auth_token@
    &&& c.module_name@ == identity.module_name@
    &&& c.module_instance_uuid7@ == identity.instance_uuid@
}

/// Whether `line` hands a chat message on: its text and its sender as they are, its data as text,
/// and nothing besides.
pub open spec fn hands_on(
    line: Container,
    data: JsonView,
    content: Seq<char>,
    user: Seq<char>,
) -> bool {
    line.payload matches Payload::MessagePreProcess {
        audio,
        audio_type,
        message_uuid7,
        raw_message,
    } && {
        &&& audio@.len() == 0
        &&& audio_type@.len() == 0
        &&& message_uuid7@.len() == 0
        &&& raw_message.platform@ == "kick"@
        &&& raw_message.raw_message@ == content
        &&& raw_message.user_uuid7@ == user
        &&& raw_message.raw_data@ == vstd::utf8::encode_utf8(json::compact_text(data))
        &&& json::reads_as(json::compact_text(data), data)
    }
}

/// Whether `m` is what the moderation makes of a message in which `command` was read.
pub open spec fn is_moderation_of(
    m: Moderation,
    identity: Identity,
    readable: bool,
    command: Option<(String, Json)>,
) -> bool {
    if !readable {
        m is Unreadable
    } else {
        match command {
            None => m is Nothing,
            Some(q) => m matches Moderation::Query(c) && {
                &&& is_from(c, identity)
                &&& c.payload matches Payload::DatabaseQuery { query_id, sql, params } && {
                    &&& query_id@ == q.0@
                    &&& params@.len() == 0
                    &&& sql@ == json::compact_text(q.1@)
                    &&& json::json_of_text(sql@) == Some(q.1@)
                }
            },
        }
    }
}

/// A command goes to the engine under the name and with the content that were read from the
/// message; without a command nothing goes there.
pub proof fn law_moderation(
    identity: Identity,
    content: &str,
    sender: &str,
    readable: bool,
    command: Option<(String, Json)>,
    out: Moderation,
)
    requires
        call_ensures(moderate, (&identity, content, sender), out),
        call_ensures(moderation::readable, (content,), readable),
        readable ==> call_ensures(moderation::parse_mod_command, (content, sender), command),
    ensures
        is_moderation_of(out, identity, readable, command),
{
}

/// A chat message with a text is handed on to the engine, under the name of whoever wrote it, and
/// what the moderation makes of it goes with it; one without a text is passed over.
pub proof fn law_chat_message_is_handed_on(
    identity: Identity,
    data: Json,
    content: &str,
    user: &str,
    readable: bool,
    command: Option<(String, Json)>,
    out: Option<Relay>,
)
    requires
        json::built_within(data, json::max_depth()),
        is_written_by(data@, user@),
        call_ensures(relay_chat, (&identity, data), out),
        call_ensures(moderation::readable, (content,), readable),
        readable ==> call_ensures(moderation::parse_mod_command, (content, user), command),
    ensures
        holds_text(data@, "content"@, content@) && content@.len() > 0 ==> (out matches Some(relay)
            && is_from(relay.line, identity) && hands_on(
            relay.line,
            data@,
            content@,
            user@,
        ) && is_moderation_of(relay.moderation, identity, readable, command)),
        holds_no_text(data@, "content"@) || holds_text(data@, "content"@, content@)
            && content@.len() == 0 ==> out is None,
{
}

/// Every handshake is answered with a subscription to the chatroom, every ping with a sign of life,
/// and a frame that subscribed is noted, whatever else the frame holds.
pub proof fn law_frames_are_answered(
    identity: Identity,
    chatroom_id: u64,
    frame: &str,
    document: JsonView,
    digits: String,
    out: Reaction,
)
    requires
        call_ensures(handle_frame, (&identity, chatroom_id, frame), out),
        call_ensures(decimal::u64_text, (chatroom_id,), digits),
        json::json_of_text(frame@) == Some(document),
    ensures
        holds_text(document, "event"@, "pusher:connection_established"@) ==> (
        out matches Reaction::Subscribe(s) && json::json_of_text(s@) matches Some(v)
            && subscribes_to(v, digits@)),
        holds_text(document, "event"@, "pusher:ping"@) ==> (out matches Reaction::Pong(s)
            && json::json_of_text(s@) matches Some(v) && is_pong(v)),
        holds_text(document, "event"@, "pusher_internal:subscription_succeeded"@) ==> out
            is Subscribed,
        out is Subscribe ==> holds_text(document, "event"@, "pusher:connection_established"@),
        out is Pong ==> holds_text(document, "event"@, "pusher:ping"@),
        out is Relay ==> holds_text(document, "event"@, "App\\Events\\ChatMessageEvent"@),
{
    lemma_frames_that_are_sent(chatroom_id);
    reveal_strlit("pusher:connection_established");
    reveal_strlit("pusher_internal:subscription_succeeded");
    reveal_strlit("App\\Events\\ChatMessageEvent");
    reveal_strlit("pusher:ping");
    assert("pusher:connection_established"@.len() == 29);
    assert("pusher_internal:subscription_succeeded"@.len() == 38);
    assert("App\\Events\\ChatMessageEvent"@.len() == 27);
    assert("pusher:ping"@.len() == 11);
}

/// Every frame with a chat message leads to the line and to what the moderation makes of it,
/// whatever else the frame and the data of the message hold. It is passed over only where the frame
/// or its data are no document, or where the message has no text.
pub proof fn law_chat_frames_are_handed_on(
    identity: Identity,
    chatroom_id: u64,
    frame: &str,
    document: JsonView,
    data_text: Seq<char>,
    data: JsonView,
    content: &str,
    user: &str,
    readable: bool,
    command: Option<(String, Json)>,
    out: Reaction,
)
    requires
        call_ensures(handle_frame, (&identity, chatroom_id, frame), out),
        json::json_of_text(frame@) == Some(document),
        holds_text(document, "event"@, "App\\Events\\ChatMessageEvent"@),
        holds_text(document, "data"@, data_text),
        json::json_of_text(data_text) == Some(data),
        is_written_by(data, user@),
        call_ensures(moderation::readable, (content,), readable),
        readable ==> call_ensures(moderation::parse_mod_command, (content, user), command),
    ensures
        holds_text(data, "content"@, content@) && content@.len() > 0 ==> (
        out matches Reaction::Relay(relay) && is_from(relay.line, identity) && hands_on(
            relay.line,
            data,
            content@,
            user@,
        ) && is_moderation_of(relay.moderation, identity, readable, command)),
        holds_no_text(data, "content"@) || holds_text(data, "content"@, content@) && content@.len()
            == 0 ==> out is Ignore,
{
    reveal_strlit("pusher:connection_established");
    reveal_strlit("pusher_internal:subscription_succeeded");
    reveal_strlit("App\\Events\\ChatMessageEvent");
    assert("pusher:connection_established"@.len() == 29);
    assert("pusher_internal:subscription_succeeded"@.len() == 38);
    assert("App\\Events\\ChatMessageEvent"@.len() == 27);
}

/// A text that is no document, a document without an event that the adapter knows, and a chat
/// message without data that are a document are passed over.
pub proof fn law_other_frames_are_passed_over(
    identity: Identity,
    chatroom_id: u64,
    frame: &str,
    data_text: Seq<char>,
    out: Reaction,
)
    requires
        call_ensures(handle_frame, (&identity, chatroom_id, frame), out),
        match json::json_of_text(frame@) {
            None => true,
            Some(document) => holds_no_text(document, "event"@) || {
                &&& !holds_text(document, "event"@, "pusher:connection_established"@)
                &&& !holds_text(document, "event"@, "pusher_internal:subscription_succeeded"@)
                &&& !holds_text(document, "event"@, "pusher:ping"@)
                &&& holds_text(document, "event"@, "App\\Events\\ChatMessageEvent"@)
                    ==> holds_no_text(document, "data"@) || holds_text(
                    document,
                    "data"@,
                    data_text,
                ) && json::json_of_text(data_text) is None
            },
        },
    ensures
        out is Ignore,
{
}

/// The same answer comes of a frame and data that are read already.
pub proof fn law_reaction_to_what_is_read(
    identity: Identity,
    chatroom_id: u64,
    frame: Frame,
    data: Option<Json>,
    relay: Option<Relay>,
    subscription: String,
    pong: String,
    out: Reaction,
)
    requires
        data is Some ==> json::built_within(data->0, json::max_depth()),
        call_ensures(react, (&identity, chatroom_id, frame, data), out),
        data matches Some(d) ==> call_ensures(relay_chat, (&identity, d), relay),
        call_ensures(subscribe_text, (chatroom_id,), subscription),
        call_ensures(pong_text, (), pong),
    ensures
        match frame {
            Frame::ConnectionEstablished => out matches Reaction::Subscribe(s) && s@
                == subscription@,
            Frame::SubscriptionSucceeded => out is Subscribed,
            Frame::Ping => out matches Reaction::Pong(s) && s@ == pong@,
            Frame::ChatMessage { .. } => if data is Some && relay is Some {
                out matches Reaction::Relay(x) && x@ == relay->0@
            } else {
                out is Ignore
            },
            Frame::Other => out is Ignore,
        },
{
}

/// A text frame is reacted to, a ping frame is answered with its own bytes, and ticks and frames of
/// other kinds change nothing. Whatever breaks the stream, the adapter connects again after five
/// seconds.
pub proof fn law_events_of_the_stream(
    identity: Identity,
    chatroom_id: u64,
    event: StreamEvent,
    frame: &str,
    reaction: Reaction,
    out: StreamAction,
)
    requires
        call_ensures(handle_stream_event, (&identity, chatroom_id, event), out),
        event matches StreamEvent::Text(t) ==> frame@ == t@,
        call_ensures(handle_frame, (&identity, chatroom_id, frame), reaction),
    ensures
        match event {
            StreamEvent::Text(_) => out matches StreamAction::React(x) && x@ == reaction@,
            StreamEvent::Ping(p) => out matches StreamAction::Pong(q) && q@ == p@,
            StreamEvent::Tick => out is Continue,
            StreamEvent::OtherFrame => out is Continue,
            _ => out == (StreamAction::Reconnect { after_secs: 5 }),
        },
{
}

/// The stream is Kick's own, and is asked for as a browser on Kick's site asks for it.
pub proof fn law_address_of_the_stream()
    ensures
        PUSHER_URL@
            == "wss://ws-us2.pusher.com/app/32cbd69e4b950bf97679?protocol=7&client=js&version=7.6.0&flash=false"@,
        ORIGIN@ == "https://kick.com"@,
        USER_AGENT@
            == "Mozilla/5.0 (Windows NT 10.0; Win64; x64) AppleWebKit/537.36 (KHTML, like Gecko) Chrome/122.0.0.0 Safari/537.36"@,
        TICK_SECS == 30,
{
}

} // verus!
