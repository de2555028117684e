//! What the adapter does about the engine's messages.

use crate::messages;
use crate::messages::{Container, ContainerView, Identity, IdentityView, Payload, PayloadView};
use crate::prompt::{PromptResponse, PromptResponseView};
use vstd::prelude::*;

verus! {

/// What a message of the engine carries, as far as the adapter is concerned.
#[derive(Debug, PartialEq)]
pub enum EnginePayload {
    /// A liveness probe.
    AuthVerify,
    /// A text for the chat.
    SendToPlatforms { msg: String },
    /// The operator's answer to a question.
    PromptResponse(PromptResponse),
    /// Anything else, or nothing.
    Other,
}

/// `EnginePayload` as text.
pub enum EnginePayloadView {
    AuthVerify,
    SendToPlatforms { msg: Seq<char> },
    PromptResponse(PromptResponseView),
    Other,
}

impl View for EnginePayload {
    type V = EnginePayloadView;

    open spec fn view(&self) -> EnginePayloadView {
        match *self {
            EnginePayload::AuthVerify => EnginePayloadView::AuthVerify,
            EnginePayload::SendToPlatforms { msg } => EnginePayloadView::SendToPlatforms {
                msg: msg@,
            },
            EnginePayload::PromptResponse(r) => EnginePayloadView::PromptResponse(r@),
            EnginePayload::Other => EnginePayloadView::Other,
        }
    }
}

/// What comes over the connection to the engine.
#[derive(Debug, PartialEq)]
pub enum EngineEvent {
    /// A binary frame that holds a message.
    Message(EnginePayload),
    /// A binary frame that holds no message.
    Undecodable,
    /// The engine closed the connection.
    Closed,
    /// The connection failed.
    Failed,
    /// A frame of another kind.
    OtherFrame,
}

/// `EngineEvent` as text.
pub enum EngineEventView {
    Message(EnginePayloadView),
    Undecodable,
    Closed,
    Failed,
    OtherFrame,
}

impl View for EngineEvent {
    type V = EngineEventView;

    open spec fn view(&self) -> EngineEventView {
        match *self {
            EngineEvent::Message(p) => EngineEventView::Message(p@),
            EngineEvent::Undecodable => EngineEventView::Undecodable,
            EngineEvent::Closed => EngineEventView::Closed,
            EngineEvent::Failed => EngineEventView::Failed,
            EngineEvent::OtherFrame => EngineEventView::OtherFrame,
        }
    }
}

/// What the adapter does about an event.
#[derive(Debug, PartialEq)]
pub enum EngineAction {
    /// Send a message to the engine.
    Reply(Container),
    /// Send a text to the chat.
    SendToChat(String),
    /// Hand an answer to whoever awaits it.
    Deliver(PromptResponse),
    /// Nothing.
    Ignore,
    /// Stop reading.
    Stop,
}

/// `EngineAction` as text.
pub enum EngineActionView {
    Reply(ContainerView),
    SendToChat(Seq<char>),
    Deliver(PromptResponseView),
    Ignore,
    Stop,
}

impl View for EngineAction {
    type V = EngineActionView;

    open spec fn view(&self) -> EngineActionView {
        match *self {
            EngineAction::Reply(c) => EngineActionView::Reply(c@),
            EngineAction::SendToChat(s) => EngineActionView::SendToChat(s@),
            EngineAction::Deliver(r) => EngineActionView::Deliver(r@),
            EngineAction::Ignore => EngineActionView::Ignore,
            EngineAction::Stop => EngineActionView::Stop,
        }
    }
}

/// The answer to a liveness probe: the adapter's own authentication token.
pub open spec fn alive_message(identity: IdentityView) -> ContainerView {
    messages::sent_by(identity, PayloadView::AuthVerify { cur_auth: identity.auth_token })
}

/// What the adapter does about an event.
pub open spec fn engine_action(identity: IdentityView, event: EngineEventView) -> EngineActionView {
    match event {
        EngineEventView::Message(EnginePayloadView::AuthVerify) => EngineActionView::Reply(
            alive_message(identity),
        ),
        EngineEventView::Message(
            EnginePayloadView::SendToPlatforms { msg },
        ) => EngineActionView::SendToChat(msg),
        EngineEventView::Message(EnginePayloadView::PromptResponse(r)) => EngineActionView::Deliver(
            r,
        ),
        EngineEventView::Message(EnginePayloadView::Other) => EngineActionView::Ignore,
        EngineEventView::Undecodable => EngineActionView::Ignore,
        EngineEventView::OtherFrame => EngineActionView::Ignore,
        EngineEventView::Closed => EngineActionView::Stop,
        EngineEventView::Failed => EngineActionView::Stop,
    }
}

/// What the adapter does about an event.
pub fn handle_engine_event(identity: &Identity, event: EngineEvent) -> (r: EngineAction)
    ensures
        r@ == engine_action(identity@, event@),
{
    match event {
        EngineEvent::Message(EnginePayload::AuthVerify) => EngineAction::Reply(
            messages::wrap(
                identity,
                Payload::AuthVerify { cur_auth: identity.auth_token.clone() },
            ),
        ),
        EngineEvent::Message(EnginePayload::SendToPlatforms { msg }) => EngineAction::SendToChat(
            msg,
        ),
        EngineEvent::Message(EnginePayload::PromptResponse(r)) => EngineAction::Deliver(r),
        EngineEvent::Message(EnginePayload::Other) => EngineAction::Ignore,
        EngineEvent::Undecodable => EngineAction::Ignore,
        EngineEvent::OtherFrame => EngineAction::Ignore,
        EngineEvent::Closed => EngineAction::Stop,
        EngineEvent::Failed => EngineAction::Stop,
    }
}

/// A liveness probe is always answered, and with the adapter's own token.
pub proof fn law_probe_is_answered(identity: IdentityView)
    ensures
        engine_action(identity, EngineEventView::Message(EnginePayloadView::AuthVerify))
            matches EngineActionView::Reply(c) && c.auth_token == identity.auth_token && c.payload
            == (PayloadView::AuthVerify { cur_auth: identity.auth_token }),
{
}

/// Reading stops only when the connection is closed or fails: no message ends it.
pub proof fn law_messages_do_not_stop_reading(identity: IdentityView, event: EngineEventView)
    ensures
        engine_action(identity, event) is Stop <==> event is Closed || event is Failed,
{
}

/// A probe is answered from the adapter's own identity, a text goes to the chat as it came, and an
/// answer of the operator is handed on as it came.
pub proof fn law_messages_of_the_engine(
    identity: Identity,
    msg: String,
    response: PromptResponse,
    to_probe: EngineAction,
    to_text: EngineAction,
    to_response: EngineAction,
)
    requires
        call_ensures(
            handle_engine_event,
            (&identity, EngineEvent::Message(EnginePayload::AuthVerify)),
            to_probe,
        ),
        call_ensures(
            handle_engine_event,
            (&identity, EngineEvent::Message(EnginePayload::SendToPlatforms { msg })),
            to_text,
        ),
        call_ensures(
            handle_engine_event,
            (&identity, EngineEvent::Message(EnginePayload::PromptResponse(response))),
            to_response,
        ),
    ensures
        to_probe matches EngineAction::Reply(c) && {
            &&& c.version == 1
            &&& c.auth_token@ == identity.auth_token@
            &&& c.module_name@ == identity.module_name@
            &&& c.module_instance_uuid7@ == identity.instance_uuid@
            &&& c.payload matches Payload::AuthVerify { cur_auth } && cur_auth@
                == identity.auth_token@
        },
        to_text matches EngineAction::SendToChat(t) && t@ == msg@,
        to_response matches EngineAction::Deliver(d) && {
            &&& d.prompt_id_uuid7@ == response.prompt_id_uuid7@
            &&& d.accepted == response.accepted
            &&& d.reason@ == response.reason@
        },
{
}

/// The end of the connection stops the reading; anything else that the adapter does not know is
/// passed over.
pub proof fn law_other_events_of_the_engine(
    identity: Identity,
    event: EngineEvent,
    action: EngineAction,
)
    requires
        call_ensures(handle_engine_event, (&identity, event), action),
    ensures
        action is Stop <==> event is Closed || event is Failed,
        action is Ignore <==> event is Undecodable || event is OtherFrame || event
            == EngineEvent::Message(EnginePayload::Other),
{
}

} // verus!
