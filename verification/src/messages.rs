//! The messages that the adapter sends to the engine.

use vstd::prelude::*;

verus! {

/// The version of the message format.
pub const CONTAINER_VERSION: u32 = 1;

/// How the adapter makes itself known to the engine.
#[derive(Debug, PartialEq)]
pub struct Identity {
    pub auth_token: String,
    pub module_name: String,
    pub instance_uuid: String,
}

/// `Identity` as text.
pub struct IdentityView {
    pub auth_token: Seq<char>,
    pub module_name: Seq<char>,
    pub instance_uuid: Seq<char>,
}

impl View for Identity {
    type V = IdentityView;

    open spec fn view(&self) -> IdentityView {
        IdentityView {
            auth_token: self.auth_token@,
            module_name: self.module_name@,
            instance_uuid: self.instance_uuid@,
        }
    }
}

/// What kind of answer a prompt asks for.
#[derive(Clone, Copy, Debug, PartialEq, Eq)]
pub enum PromptKind {
    Boolean,
    String,
    Credential,
}

/// A question to the operator.
#[derive(Debug, PartialEq)]
pub struct Prompt {
    pub prompt_id_uuid7: String,
    pub prompt: String,
    pub details: String,
    pub yes_dialog: String,
    pub no_dialog: String,
    pub timeout: u32,
    pub origin: String,
    pub origin_uuid7: String,
    pub instructions: String,
    pub link: String,
    pub input_label: String,
    pub prompt_type: PromptKind,
}

/// `Prompt` as text and numbers.
pub struct PromptView {
    pub prompt_id_uuid7: Seq<char>,
    pub prompt: Seq<char>,
    pub details: Seq<char>,
    pub yes_dialog: Seq<char>,
    pub no_dialog: Seq<char>,
    pub timeout: int,
    pub origin: Seq<char>,
    pub origin_uuid7: Seq<char>,
    pub instructions: Seq<char>,
    pub link: Seq<char>,
    pub input_label: Seq<char>,
    pub prompt_type: PromptKind,
}

impl View for Prompt {
    type V = PromptView;

    open spec fn view(&self) -> PromptView {
        PromptView {
            prompt_id_uuid7: self.prompt_id_uuid7@,
            prompt: self.prompt@,
            details: self.details@,
            yes_dialog: self.yes_dialog@,
            no_dialog: self.no_dialog@,
            timeout: self.timeout as int,
            origin: self.origin@,
            origin_uuid7: self.origin_uuid7@,
            instructions: self.instructions@,
            link: self.link@,
            input_label: self.input_label@,
            prompt_type: self.prompt_type,
        }
    }
}

/// A line of chat, with neither a command nor data on its user attached.
#[derive(Debug, PartialEq)]
pub struct ChatMessage {
    pub platform: String,
    pub raw_data: Vec<u8>,
    pub raw_message: String,
    pub user_uuid7: String,
}

/// `ChatMessage` as text and bytes.
pub struct ChatMessageView {
    pub platform: Seq<char>,
    pub raw_data: Seq<u8>,
    pub raw_message: Seq<char>,
    pub user_uuid7: Seq<char>,
}

impl View for ChatMessage {
    type V = ChatMessageView;

    open spec fn view(&self) -> ChatMessageView {
        ChatMessageView {
            platform: self.platform@,
            raw_data: self.raw_data@,
            raw_message: self.raw_message@,
            user_uuid7: self.user_uuid7@,
        }
    }
}

/// What a container carries to the engine.
#[derive(Debug, PartialEq)]
pub enum Payload {
    /// A question to the operator.
    Prompt(Prompt),
    /// The answer to a liveness probe.
    AuthVerify { cur_auth: String },
    /// A line of chat that is not yet processed.
    MessagePreProcess {
        audio: Vec<u8>,
        audio_type: String,
        message_uuid7: String,
        raw_message: ChatMessage,
    },
    /// A query, with its parameters.
    DatabaseQuery { query_id: String, sql: String, params: Vec<String> },
}

/// `Payload` as text, numbers and bytes.
pub enum PayloadView {
    Prompt(PromptView),
    AuthVerify { cur_auth: Seq<char> },
    MessagePreProcess {
        audio: Seq<u8>,
        audio_type: Seq<char>,
        message_uuid7: Seq<char>,
        raw_message: ChatMessageView,
    },
    DatabaseQuery { query_id: Seq<char>, sql: Seq<char>, params: Seq<Seq<char>> },
}

impl View for Payload {
    type V = PayloadView;

    open spec fn view(&self) -> PayloadView {
        match *self {
            Payload::Prompt(p) => PayloadView::Prompt(p@),
            Payload::AuthVerify { cur_auth } => PayloadView::AuthVerify { cur_auth: cur_auth@ },
            Payload::MessagePreProcess {
                audio,
                audio_type,
                message_uuid7,
                raw_message,
            } => PayloadView::MessagePreProcess {
                audio: audio@,
                audio_type: audio_type@,
                message_uuid7: message_uuid7@,
                raw_message: raw_message@,
            },
            Payload::DatabaseQuery { query_id, sql, params } => PayloadView::DatabaseQuery {
                query_id: query_id@,
                sql: sql@,
                params: params@.map_values(|p: String| p@),
            },
        }
    }
}

/// A message to the engine.
#[derive(Debug, PartialEq)]
pub struct Container {
    pub version: u32,
    pub auth_token: String,
    pub module_name: String,
    pub module_instance_uuid7: String,
    pub payload: Payload,
}

/// `Container` as text, numbers and bytes.
pub struct ContainerView {
    pub version: int,
    pub auth_token: Seq<char>,
    pub module_name: Seq<char>,
    pub module_instance_uuid7: Seq<char>,
    pub payload: PayloadView,
}

impl View for Container {
    type V = ContainerView;

    open spec fn view(&self) -> ContainerView {
        ContainerView {
            version: self.version as int,
            auth_token: self.auth_token@,
            module_name: self.module_name@,
            module_instance_uuid7: self.module_instance_uuid7@,
            payload: self.payload@,
        }
    }
}

/// The message that carries `payload` from `identity`.
pub open spec fn sent_by(identity: IdentityView, payload: PayloadView) -> ContainerView {
    ContainerView {
        version: CONTAINER_VERSION as int,
        auth_token: identity.auth_token,
        module_name: identity.module_name,
        module_instance_uuid7: identity.instance_uuid,
        payload,
    }
}

/// The message that carries `payload` from `identity`.
pub fn wrap(identity: &Identity, payload: Payload) -> (c: Container)
    ensures
        c@ == sent_by(identity@, payload@),
{
    Container {
        version: CONTAINER_VERSION,
        auth_token: identity.auth_token.clone(),
        module_name: identity.module_name.clone(),
        module_instance_uuid7: identity.instance_uuid.clone(),
        payload,
    }
}

/// A message carries its payload as it is, under the adapter's own token, name and instance, in
/// the first version of the format.
pub proof fn law_messages_carry_the_identity(identity: Identity, payload: Payload, c: Container)
    requires
        call_ensures(wrap, (&identity, payload), c),
    ensures
        c.version == 1,
        c.auth_token@ == identity.auth_token@,
        c.module_name@ == identity.module_name@,
        c.module_instance_uuid7@ == identity.instance_uuid@,
        c.payload@ == payload@,
{
}

} // verus!
