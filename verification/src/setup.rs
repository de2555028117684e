//! How the adapter comes by its credentials, step by step, until Kick knows the channel.

use crate::config;
use crate::config::{AdapterEnv, KickAdapterConfig, SettingsView};
use crate::messages::PromptKind;
use crate::prompt::{Question, QuestionView};
use crate::text;
use vstd::prelude::*;
use vstd::string::*;

verus! {

/// How many seconds the adapter rests after Kick did not know the channel.
pub const REST_SECS: u64 = 2;

/// How many seconds the operator is given to confirm.
pub const CONFIRM_TIMEOUT: u32 = 120;

/// How many seconds the operator is given to type something in.
pub const INPUT_TIMEOUT: u32 = 300;

/// What the adapter needs to run. A text that is missing is empty.
#[derive(Debug, PartialEq)]
pub struct Credentials {
    pub channel_name: String,
    pub client_id: String,
    pub client_secret: String,
    pub oauth_token: String,
}

/// `Credentials` as text.
pub struct CredentialsView {
    pub channel_name: Seq<char>,
    pub client_id: Seq<char>,
    pub client_secret: Seq<char>,
    pub oauth_token: Seq<char>,
}

impl View for Credentials {
    type V = CredentialsView;

    open spec fn view(&self) -> CredentialsView {
        CredentialsView {
            channel_name: self.channel_name@,
            client_id: self.client_id@,
            client_secret: self.client_secret@,
            oauth_token: self.oauth_token@,
        }
    }
}

impl Credentials {
    /// The same credentials again.
    pub fn copy(&self) -> (r: Credentials)
        ensures
            r@ == self@,
    {
        Credentials {
            channel_name: self.channel_name.clone(),
            client_id: self.client_id.clone(),
            client_secret: self.client_secret.clone(),
            oauth_token: self.oauth_token.clone(),
        }
    }

    /// No credentials.
    pub fn none() -> (r: Credentials)
        ensures
            r@ == no_credentials(),
    {
        Credentials {
            channel_name: String::new(),
            client_id: String::new(),
            client_secret: String::new(),
            oauth_token: String::new(),
        }
    }
}

/// No credentials.
pub open spec fn no_credentials() -> CredentialsView {
    CredentialsView {
        channel_name: Seq::empty(),
        client_id: Seq::empty(),
        client_secret: Seq::empty(),
        oauth_token: Seq::empty(),
    }
}

/// The credentials that saved settings give.
pub open spec fn from_settings(s: SettingsView) -> CredentialsView {
    CredentialsView {
        channel_name: text::or_empty(s.channel_name),
        client_id: text::or_empty(s.client_id),
        client_secret: text::or_empty(s.client_secret),
        oauth_token: text::or_empty(s.oauth_token),
    }
}

/// The credentials that saved settings give.
pub fn credentials_from(s: KickAdapterConfig) -> (r: Credentials)
    ensures
        r@ == from_settings(s@),
{
    Credentials {
        channel_name: text::unwrap_text(s.channel_name),
        client_id: text::unwrap_text(s.client_id),
        client_secret: text::unwrap_text(s.client_secret),
        oauth_token: text::unwrap_text(s.oauth_token),
    }
}

/// The credentials to begin with: the channel that comes first of those that the environment and
/// the configuration name, and the secrets of the environment.
pub open spec fn first_credentials(
    env: SettingsView,
    configured: Option<Seq<char>>,
) -> CredentialsView {
    CredentialsView {
        channel_name: config::first_channel(env.channel_name, configured),
        client_id: text::or_empty(env.client_id),
        client_secret: text::or_empty(env.client_secret),
        oauth_token: text::or_empty(env.oauth_token),
    }
}

/// The credentials to begin with, for the text of the configuration file.
pub fn startup_credentials(env: AdapterEnv, config_text: Option<&str>) -> (r: Credentials)
    ensures
        r@ == first_credentials(
            env@,
            config::configured_channel(text::opt_str_view(config_text)),
        ),
{
    Credentials {
        channel_name: config::startup_channel(env.channel_name, config_text),
        client_id: text::unwrap_text(env.client_id),
        client_secret: text::unwrap_text(env.client_secret),
        oauth_token: text::unwrap_text(env.oauth_token),
    }
}

/// What the adapter is waiting for.
#[derive(Debug, PartialEq)]
pub enum Stage {
    /// The saved settings, to be used without a question.
    LoadQuietly,
    /// The saved settings, to be offered to the operator.
    LoadToOffer,
    /// The operator's word on the saved settings.
    Confirm { saved: Credentials },
    /// The operator's word on the channel name.
    AskChannel,
    /// The operator's word on the client id.
    AskClientId,
    /// The operator's word on the client secret.
    AskClientSecret,
    /// An access token for what the operator typed in.
    FetchTokenForInput,
    /// That what the operator typed in is saved.
    Save,
    /// An access token for credentials that came without a question.
    FetchToken,
    /// The chatroom of the channel.
    Resolve,
    /// That the rest after a failure is over.
    Rest,
    /// Nothing: the chatroom is known.
    Ready { chatroom_id: u64 },
}

/// `Stage` as text and numbers.
pub enum StageView {
    LoadQuietly,
    LoadToOffer,
    Confirm { saved: CredentialsView },
    AskChannel,
    AskClientId,
    AskClientSecret,
    FetchTokenForInput,
    Save,
    FetchToken,
    Resolve,
    Rest,
    Ready { chatroom_id: u64 },
}

impl View for Stage {
    type V = StageView;

    open spec fn view(&self) -> StageView {
        match *self {
            Stage::LoadQuietly => StageView::LoadQuietly,
            Stage::LoadToOffer => StageView::LoadToOffer,
            Stage::Confirm { saved } => StageView::Confirm { saved: saved@ },
            Stage::AskChannel => StageView::AskChannel,
            Stage::AskClientId => StageView::AskClientId,
            Stage::AskClientSecret => StageView::AskClientSecret,
            Stage::FetchTokenForInput => StageView::FetchTokenForInput,
            Stage::Save => StageView::Save,
            Stage::FetchToken => StageView::FetchToken,
            Stage::Resolve => StageView::Resolve,
            Stage::Rest => StageView::Rest,
            Stage::Ready { chatroom_id } => StageView::Ready { chatroom_id },
        }
    }
}

/// The state of the search for credentials.
#[derive(Debug, PartialEq)]
pub struct Setup {
    /// Whether saved settings are passed over because Kick did not know a channel before.
    pub force_prompt: bool,
    /// The credentials so far.
    pub creds: Credentials,
    /// The token that messages to the chat are sent with.
    pub published_token: String,
    pub stage: Stage,
}

/// `Setup` as text and numbers.
pub struct SetupView {
    pub force_prompt: bool,
    pub creds: CredentialsView,
    pub published_token: Seq<char>,
    pub stage: StageView,
}

impl View for Setup {
    type V = SetupView;

    open spec fn view(&self) -> SetupView {
        SetupView {
            force_prompt: self.force_prompt,
            creds: self.creds@,
            published_token: self.published_token@,
            stage: self.stage@,
        }
    }
}

/// What the adapter waited for, when it comes.
#[derive(Debug, PartialEq)]
pub enum SetupEvent {
    /// The saved settings, if there are any to run on.
    Loaded(Option<KickAdapterConfig>),
    /// The operator's answer, if there is one.
    Answer(Option<String>),
    /// An access token, if one was granted.
    Token(Option<String>),
    /// The credentials were saved.
    Saved,
    /// The chatroom of the channel, if Kick knows one.
    Chatroom(Option<u64>),
    /// The rest is over.
    Rested,
}

/// `SetupEvent` as text and numbers.
pub enum SetupEventView {
    Loaded(Option<SettingsView>),
    Answer(Option<Seq<char>>),
    Token(Option<Seq<char>>),
    Saved,
    Chatroom(Option<u64>),
    Rested,
}

impl View for SetupEvent {
    type V = SetupEventView;

    open spec fn view(&self) -> SetupEventView {
        match *self {
            SetupEvent::Loaded(s) => SetupEventView::Loaded(
                match s {
                    Some(s) => Some(s@),
                    None => None,
                },
            ),
            SetupEvent::Answer(a) => SetupEventView::Answer(text::opt_view(a)),
            SetupEvent::Token(t) => SetupEventView::Token(text::opt_view(t)),
            SetupEvent::Saved => SetupEventView::Saved,
            SetupEvent::Chatroom(id) => SetupEventView::Chatroom(id),
            SetupEvent::Rested => SetupEventView::Rested,
        }
    }
}

/// What the adapter has to do next.
#[derive(Debug, PartialEq)]
pub enum SetupAction {
    /// Load the saved settings.
    Load,
    /// Put a question to the operator.
    Ask(Question),
    /// Ask Kick for an access token.
    FetchToken { client_id: String, client_secret: String },
    /// Save the credentials.
    Save(Credentials),
    /// Ask Kick for the chatroom of a channel.
    Resolve { channel_name: String },
    /// Rest for some seconds.
    Rest { secs: u64 },
    /// Follow a chatroom.
    Follow { chatroom_id: u64 },
}

/// `SetupAction` as text and numbers.
pub enum SetupActionView {
    Load,
    Ask(QuestionView),
    FetchToken { client_id: Seq<char>, client_secret: Seq<char> },
    Save(CredentialsView),
    Resolve { channel_name: Seq<char> },
    Rest { secs: int },
    Follow { chatroom_id: u64 },
}

impl View for SetupAction {
    type V = SetupActionView;

    open spec fn view(&self) -> SetupActionView {
        match *self {
            SetupAction::Load => SetupActionView::Load,
            SetupAction::Ask(q) => SetupActionView::Ask(q@),
            SetupAction::FetchToken {
                client_id,
                client_secret,
            } => SetupActionView::FetchToken {
                client_id: client_id@,
                client_secret: client_secret@,
            },
            SetupAction::Save(c) => SetupActionView::Save(c@),
            SetupAction::Resolve { channel_name } => SetupActionView::Resolve {
                channel_name: channel_name@,
            },
            SetupAction::Rest { secs } => SetupActionView::Rest { secs: secs as int },
            SetupAction::Follow { chatroom_id } => SetupActionView::Follow { chatroom_id },
        }
    }
}

/// Whether `event` is what the stage waits for.
pub open spec fn expects(stage: StageView, event: SetupEventView) -> bool {
    match stage {
        StageView::LoadQuietly => event is Loaded,
        StageView::LoadToOffer => event is Loaded,
        StageView::Confirm { .. } => event is Answer,
        StageView::AskChannel => event is Answer,
        StageView::AskClientId => event is Answer,
        StageView::AskClientSecret => event is Answer,
        StageView::FetchTokenForInput => event is Token,
        StageView::Save => event is Saved,
        StageView::FetchToken => event is Token,
        StageView::Resolve => event is Chatroom,
        StageView::Rest => event is Rested,
        StageView::Ready { .. } => false,
    }
}

/// `answer`, trimmed, or what was there before if there is none.
pub open spec fn typed_in(answer: Option<Seq<char>>, before: Seq<char>) -> Seq<char> {
    match answer {
        Some(a) => text::trimmed(a),
        None => before,
    }
}

/// On to the chatroom, with the token that was found.
pub open spec fn to_resolve(s: SetupView) -> SetupView {
    SetupView { published_token: s.creds.oauth_token, stage: StageView::Resolve, ..s }
}

/// On from the saved settings: to the operator where no channel is known, else to Kick.
pub open spec fn after_saved_settings(s: SetupView) -> SetupView {
    if s.creds.channel_name.len() == 0 {
        SetupView { stage: StageView::AskChannel, ..s }
    } else if s.creds.oauth_token.len() == 0 && s.creds.client_id.len() > 0
        && s.creds.client_secret.len() > 0 {
        SetupView { stage: StageView::FetchToken, ..s }
    } else {
        to_resolve(s)
    }
}

/// On from the quiet look at the saved settings.
pub open spec fn after_quiet_load(s: SetupView) -> SetupView {
    if s.creds.channel_name.len() == 0 && !s.force_prompt {
        SetupView { stage: StageView::LoadToOffer, ..s }
    } else {
        after_saved_settings(s)
    }
}

/// The beginning of a round with the credentials at hand; no token is published.
pub open spec fn begin(creds: CredentialsView, force_prompt: bool) -> SetupView {
    let s = SetupView {
        force_prompt,
        creds,
        published_token: Seq::empty(),
        stage: StageView::LoadQuietly,
    };
    if !force_prompt && creds == no_credentials() {
        s
    } else {
        after_quiet_load(s)
    }
}

/// The state after an event.
pub open spec fn setup_step(s: SetupView, event: SetupEventView) -> SetupView
    recommends
        expects(s.stage, event),
{
    match (s.stage, event) {
        (StageView::LoadQuietly, SetupEventView::Loaded(saved)) => {
            let usable = saved is Some && from_settings(saved->0).channel_name.len() > 0
                && from_settings(saved->0).client_id.len() > 0 && from_settings(
                saved->0,
            ).client_secret.len() > 0;
            if usable {
                after_quiet_load(SetupView { creds: from_settings(saved->0), ..s })
            } else {
                after_quiet_load(s)
            }
        },
        (StageView::LoadToOffer, SetupEventView::Loaded(saved)) => if saved is Some
            && saved->0.channel_name is Some {
            SetupView { stage: StageView::Confirm { saved: from_settings(saved->0) }, ..s }
        } else {
            after_saved_settings(s)
        },
        (StageView::Confirm { saved }, SetupEventView::Answer(answer)) => if answer is Some {
            after_saved_settings(SetupView { creds: saved, ..s })
        } else {
            after_saved_settings(s)
        },
        (StageView::AskChannel, SetupEventView::Answer(answer)) => SetupView {
            creds: CredentialsView {
                channel_name: typed_in(answer, s.creds.channel_name),
                ..s.creds
            },
            stage: StageView::AskClientId,
            ..s
        },
        (StageView::AskClientId, SetupEventView::Answer(answer)) => {
            let client_id = typed_in(answer, s.creds.client_id);
            SetupView {
                creds: CredentialsView { client_id, ..s.creds },
                stage: if client_id.len() > 0 {
                    StageView::AskClientSecret
                } else {
                    StageView::Save
                },
                ..s
            }
        },
        (StageView::AskClientSecret, SetupEventView::Answer(answer)) => {
            let client_secret = typed_in(answer, s.creds.client_secret);
            SetupView {
                creds: CredentialsView { client_secret, ..s.creds },
                stage: if client_secret.len() > 0 {
                    StageView::FetchTokenForInput
                } else {
                    StageView::Save
                },
                ..s
            }
        },
        (StageView::FetchTokenForInput, SetupEventView::Token(token)) => SetupView {
            creds: CredentialsView {
                oauth_token: match token {
                    Some(t) => t,
                    None => s.creds.oauth_token,
                },
                ..s.creds
            },
            stage: StageView::Save,
            ..s
        },
        (StageView::Save, SetupEventView::Saved) => to_resolve(s),
        (StageView::FetchToken, SetupEventView::Token(token)) => to_resolve(
            SetupView {
                creds: CredentialsView {
                    oauth_token: match token {
                        Some(t) => t,
                        None => s.creds.oauth_token,
                    },
                    ..s.creds
                },
                ..s
            },
        ),
        (StageView::Resolve, SetupEventView::Chatroom(Some(id))) => SetupView {
            stage: StageView::Ready { chatroom_id: id },
            ..s
        },
        (StageView::Resolve, SetupEventView::Chatroom(None)) => SetupView {
            force_prompt: true,
            creds: no_credentials(),
            stage: StageView::Rest,
            ..s
        },
        (StageView::Rest, SetupEventView::Rested) => begin(s.creds, s.force_prompt),
        _ => s,
    }
}

/// The title of the question whether to use the saved settings.
pub const CONFIRM_TITLE: &'static str = "Use Saved Kick Configuration?";

/// The title of the question for the channel name.
pub const CHANNEL_TITLE: &'static str = "Kick Live Chat Configuration Required";

/// What is said with the question for the channel name.
pub const CHANNEL_DETAILS: &'static str = "Enter your Kick Channel Name / Username (e.g. vulbyte).";

/// The title of the question for the client id.
pub const CLIENT_ID_TITLE: &'static str = "Kick Application Setup";

/// What is said with the question for the client id.
pub const CLIENT_ID_DETAILS: &'static str = "Kick Application Setup (Required for bot replies/moderation):\n\n1. Go to: https://kick.com/settings/developer\n2. Click 'Create new' with these exact settings:\n- Application Name:  tielbot\n- App Description:   Stream chat adapter for Cockatiel\n- Redirect URL:      http://localhost\n- Enable webhooks:   Off (Disabled)\n- Scopes Requested:  Check **ALL** permissions\n3. Copy your Client ID when prompted below.\n\nNote: If you only want read-only monitoring, press Cancel to skip\ncredentials.";

/// The title of the question for the client secret.
pub const CLIENT_SECRET_TITLE: &'static str = "Kick Client Secret";

/// What is said with the question for the client secret.
pub const CLIENT_SECRET_DETAILS: &'static str =
    "Enter the Client Secret for the Kick application above.";

/// The question whether to use the saved settings of a channel.
pub open spec fn confirm_question(channel: Seq<char>) -> QuestionView {
    QuestionView {
        title: CONFIRM_TITLE@,
        details: "A saved configuration was found for channel '"@ + channel
            + "'.\n\nUse this configuration?"@,
        input_label: ""@,
        kind: PromptKind::Boolean,
        timeout: CONFIRM_TIMEOUT as int,
    }
}

/// The question for the channel name.
pub open spec fn channel_question() -> QuestionView {
    QuestionView {
        title: CHANNEL_TITLE@,
        details: CHANNEL_DETAILS@,
        input_label: "Kick Channel Name"@,
        kind: PromptKind::String,
        timeout: INPUT_TIMEOUT as int,
    }
}

/// The question for the client id.
pub open spec fn client_id_question() -> QuestionView {
    QuestionView {
        title: CLIENT_ID_TITLE@,
        details: CLIENT_ID_DETAILS@,
        input_label: "Client ID"@,
        kind: PromptKind::String,
        timeout: INPUT_TIMEOUT as int,
    }
}

/// The question for the client secret.
pub open spec fn client_secret_question() -> QuestionView {
    QuestionView {
        title: CLIENT_SECRET_TITLE@,
        details: CLIENT_SECRET_DETAILS@,
        input_label: "Client Secret"@,
        kind: PromptKind::Credential,
        timeout: INPUT_TIMEOUT as int,
    }
}

/// What the adapter has to do in a state.
pub open spec fn setup_action(s: SetupView) -> SetupActionView {
    match s.stage {
        StageView::LoadQuietly => SetupActionView::Load,
        StageView::LoadToOffer => SetupActionView::Load,
        StageView::Confirm { saved } => SetupActionView::Ask(confirm_question(saved.channel_name)),
        StageView::AskChannel => SetupActionView::Ask(channel_question()),
        StageView::AskClientId => SetupActionView::Ask(client_id_question()),
        StageView::AskClientSecret => SetupActionView::Ask(client_secret_question()),
        StageView::FetchTokenForInput => SetupActionView::FetchToken {
            client_id: s.creds.client_id,
            client_secret: s.creds.client_secret,
        },
        StageView::FetchToken => SetupActionView::FetchToken {
            client_id: s.creds.client_id,
            client_secret: s.creds.client_secret,
        },
        StageView::Save => SetupActionView::Save(s.creds),
        StageView::Resolve => SetupActionView::Resolve { channel_name: s.creds.channel_name },
        StageView::Rest => SetupActionView::Rest { secs: REST_SECS as int },
        StageView::Ready { chatroom_id } => SetupActionView::Follow { chatroom_id },
    }
}

/// What holds of every state of the search.
pub open spec fn is_valid(s: SetupView) -> bool {
    // Saved settings are passed over once Kick did not know a channel.
    &&& s.force_prompt ==> !(s.stage is LoadQuietly || s.stage is LoadToOffer
        || s.stage is Confirm)
    // A token is asked for only with a client id and a client secret.
    &&& s.stage is FetchToken || s.stage is FetchTokenForInput ==> s.creds.client_id.len() > 0
        && s.creds.client_secret.len() > 0
    // Credentials that came without a question keep their token.
    &&& s.stage is FetchToken ==> s.creds.oauth_token.len() == 0
    // Without a client id the secret is not asked for.
    &&& s.stage is AskClientSecret ==> s.creds.client_id.len() > 0
    // The published token is that of the credentials, from the look for the chatroom on.
    &&& s.stage is Resolve || s.stage is Ready ==> s.published_token == s.creds.oauth_token
    &&& !(s.stage is Resolve || s.stage is Ready || s.stage is Rest) ==> s.published_token.len()
        == 0
    // What Kick did not know is forgotten.
    &&& s.stage is Rest ==> s.force_prompt && s.creds == no_credentials()
}

fn type_in(answer: Option<String>, before: String) -> (r: String)
    ensures
        r@ == typed_in(text::opt_view(answer), before@),
{
    match answer {
        Some(a) => text::trim(a.as_str()).to_string(),
        None => before,
    }
}

impl Setup {
    /// The beginning of the search, with what the environment gives.
    pub fn new(env: Credentials) -> (r: Setup)
        ensures
            r@ == begin(env@, false),
            is_valid(r@),
    {
        Setup::begin(env, false)
    }

    fn begin(creds: Credentials, force_prompt: bool) -> (r: Setup)
        ensures
            r@ == begin(creds@, force_prompt),
            is_valid(r@),
    {
        let empty: bool = creds.channel_name.as_str().is_empty()
            && creds.client_id.as_str().is_empty() && creds.client_secret.as_str().is_empty()
            && creds.oauth_token.as_str().is_empty();
        proof {
            lemma_no_credentials(creds@);
        }
        let s = Setup {
            force_prompt,
            creds,
            published_token: String::new(),
            stage: Stage::LoadQuietly,
        };
        if !force_prompt && empty {
            s
        } else {
            s.after_quiet_load()
        }
    }

    fn after_quiet_load(self) -> (r: Setup)
        ensures
            r@ == after_quiet_load(self@),
    {
        if self.creds.channel_name.as_str().is_empty() && !self.force_prompt {
            Setup { stage: Stage::LoadToOffer, ..self }
        } else {
            self.after_saved_settings()
        }
    }

    fn after_saved_settings(self) -> (r: Setup)
        ensures
            r@ == after_saved_settings(self@),
    {
        if self.creds.channel_name.as_str().is_empty() {
            Setup { stage: Stage::AskChannel, ..self }
        } else if self.creds.oauth_token.as_str().is_empty()
            && !self.creds.client_id.as_str().is_empty()
            && !self.creds.client_secret.as_str().is_empty() {
            Setup { stage: Stage::FetchToken, ..self }
        } else {
            self.to_resolve()
        }
    }

    fn to_resolve(self) -> (r: Setup)
        ensures
            r@ == to_resolve(self@),
    {
        let token = self.creds.oauth_token.clone();
        Setup { published_token: token, stage: Stage::Resolve, ..self }
    }

    /// Whether `event` is what the state waits for.
    pub fn accepts(&self, event: &SetupEvent) -> (r: bool)
        ensures
            r == expects(self@.stage, event@),
    {
        match (&self.stage, event) {
            (Stage::LoadQuietly, SetupEvent::Loaded(_)) => true,
            (Stage::LoadToOffer, SetupEvent::Loaded(_)) => true,
            (Stage::Confirm { .. }, SetupEvent::Answer(_)) => true,
            (Stage::AskChannel, SetupEvent::Answer(_)) => true,
            (Stage::AskClientId, SetupEvent::Answer(_)) => true,
            (Stage::AskClientSecret, SetupEvent::Answer(_)) => true,
            (Stage::FetchTokenForInput, SetupEvent::Token(_)) => true,
            (Stage::Save, SetupEvent::Saved) => true,
            (Stage::FetchToken, SetupEvent::Token(_)) => true,
            (Stage::Resolve, SetupEvent::Chatroom(_)) => true,
            (Stage::Rest, SetupEvent::Rested) => true,
            _ => false,
        }
    }

    /// What the adapter has to do in the state.
    pub fn action(&self) -> (r: SetupAction)
        ensures
            r@ == setup_action(self@),
    {
        match &self.stage {
            Stage::LoadQuietly => SetupAction::Load,
            Stage::LoadToOffer => SetupAction::Load,
            Stage::Confirm { saved } => SetupAction::Ask(
                Question {
                    title: CONFIRM_TITLE.to_string(),
                    details: "A saved configuration was found for channel '".to_string().concat(
                        saved.channel_name.as_str(),
                    ).concat("'.\n\nUse this configuration?"),
                    input_label: "".to_string(),
                    kind: PromptKind::Boolean,
                    timeout: CONFIRM_TIMEOUT,
                },
            ),
            Stage::AskChannel => SetupAction::Ask(
                Question {
                    title: CHANNEL_TITLE.to_string(),
                    details: CHANNEL_DETAILS.to_string(),
                    input_label: "Kick Channel Name".to_string(),
                    kind: PromptKind::String,
                    timeout: INPUT_TIMEOUT,
                },
            ),
            Stage::AskClientId => SetupAction::Ask(
                Question {
                    title: CLIENT_ID_TITLE.to_string(),
                    details: CLIENT_ID_DETAILS.to_string(),
                    input_label: "Client ID".to_string(),
                    kind: PromptKind::String,
                    timeout: INPUT_TIMEOUT,
                },
            ),
            Stage::AskClientSecret => SetupAction::Ask(
                Question {
                    title: CLIENT_SECRET_TITLE.to_string(),
                    details: CLIENT_SECRET_DETAILS.to_string(),
                    input_label: "Client Secret".to_string(),
                    kind: PromptKind::Credential,
                    timeout: INPUT_TIMEOUT,
                },
            ),
            Stage::FetchTokenForInput => SetupAction::FetchToken {
                client_id: self.creds.client_id.clone(),
                client_secret: self.creds.client_secret.clone(),
            },
            Stage::FetchToken => SetupAction::FetchToken {
                client_id: self.creds.client_id.clone(),
                client_secret: self.creds.client_secret.clone(),
            },
            Stage::Save => SetupAction::Save(self.creds.copy()),
            Stage::Resolve => SetupAction::Resolve {
                channel_name: self.creds.channel_name.clone(),
            },
            Stage::Rest => SetupAction::Rest { secs: REST_SECS },
            Stage::Ready { chatroom_id } => SetupAction::Follow { chatroom_id: *chatroom_id },
        }
    }

    /// The state after an event.
    pub fn step(self, event: SetupEvent) -> (r: Setup)
        requires
            expects(self@.stage, event@),
            is_valid(self@),
        ensures
            r@ == setup_step(self@, event@),
            is_valid(r@),
    {
        proof {
            law_step_keeps_validity(self@, event@);
        }
        let Setup { force_prompt, creds, published_token, stage } = self;
        match (stage, event) {
            (Stage::LoadQuietly, SetupEvent::Loaded(saved)) => {
                let mut creds = creds;
                if let Some(saved) = saved {
                    let c = credentials_from(saved);
                    if !c.channel_name.as_str().is_empty() && !c.client_id.as_str().is_empty()
                        && !c.client_secret.as_str().is_empty() {
                        creds = c;
                    }
                }
                Setup {
                    force_prompt,
                    creds,
                    published_token,
                    stage: Stage::LoadQuietly,
                }.after_quiet_load()
            },
            (Stage::LoadToOffer, SetupEvent::Loaded(saved)) => {
                match saved {
                    Some(saved) => if saved.channel_name.is_some() {
                        return Setup {
                            force_prompt,
                            creds,
                            published_token,
                            stage: Stage::Confirm { saved: credentials_from(saved) },
                        };
                    },
                    None => {},
                }
                Setup {
                    force_prompt,
                    creds,
                    published_token,
                    stage: Stage::LoadToOffer,
                }.after_saved_settings()
            },
            (Stage::Confirm { saved }, SetupEvent::Answer(answer)) => {
                let chosen = if answer.is_some() {
                    saved
                } else {
                    creds
                };
                Setup {
                    force_prompt,
                    creds: chosen,
                    published_token,
                    stage: Stage::LoadToOffer,
                }.after_saved_settings()
            },
            (Stage::AskChannel, SetupEvent::Answer(answer)) => {
                let channel_name = type_in(answer, creds.channel_name);
                Setup {
                    force_prompt,
                    creds: Credentials {
                        channel_name,
                        client_id: creds.client_id,
                        client_secret: creds.client_secret,
                        oauth_token: creds.oauth_token,
                    },
                    published_token,
                    stage: Stage::AskClientId,
                }
            },
            (Stage::AskClientId, SetupEvent::Answer(answer)) => {
                let client_id = type_in(answer, creds.client_id);
                let stage = if client_id.as_str().is_empty() {
                    Stage::Save
                } else {
                    Stage::AskClientSecret
                };
                Setup {
                    force_prompt,
                    creds: Credentials {
                        channel_name: creds.channel_name,
                        client_id,
                        client_secret: creds.client_secret,
                        oauth_token: creds.oauth_token,
                    },
                    published_token,
                    stage,
                }
            },
            (Stage::AskClientSecret, SetupEvent::Answer(answer)) => {
                let client_secret = type_in(answer, creds.client_secret);
                let stage = if client_secret.as_str().is_empty() {
                    Stage::Save
                } else {
                    Stage::FetchTokenForInput
                };
                Setup {
                    force_prompt,
                    creds: Credentials {
                        channel_name: creds.channel_name,
                        client_id: creds.client_id,
                        client_secret,
                        oauth_token: creds.oauth_token,
                    },
                    published_token,
                    stage,
                }
            },
            (Stage::FetchTokenForInput, SetupEvent::Token(token)) => {
                Setup {
                    force_prompt,
                    creds: with_token(creds, token),
                    published_token,
                    stage: Stage::Save,
                }
            },
            (Stage::Save, SetupEvent::Saved) => {
                Setup {
                    force_prompt,
                    creds,
                    published_token,
                    stage: Stage::Save,
                }.to_resolve()
            },
            (Stage::FetchToken, SetupEvent::Token(token)) => {
                Setup {
                    force_prompt,
                    creds: with_token(creds, token),
                    published_token,
                    stage: Stage::FetchToken,
                }.to_resolve()
            },
            (Stage::Resolve, SetupEvent::Chatroom(id)) => {
                match id {
                    Some(chatroom_id) => Setup {
                        force_prompt,
                        creds,
                        published_token,
                        stage: Stage::Ready { chatroom_id },
                    },
                    None => Setup {
                        force_prompt: true,
                        creds: Credentials::none(),
                        published_token,
                        stage: Stage::Rest,
                    },
                }
            },
            (Stage::Rest, SetupEvent::Rested) => Setup::begin(creds, force_prompt),
            (stage, _) => Setup { force_prompt, creds, published_token, stage },
        }
    }
}

fn with_token(creds: Credentials, token: Option<String>) -> (r: Credentials)
    ensures
        r@ == (CredentialsView {
            oauth_token: match text::opt_view(token) {
                Some(t) => t,
                None => creds@.oauth_token,
            },
            ..creds@
        }),
{
    match token {
        Some(t) => Credentials {
            channel_name: creds.channel_name,
            client_id: creds.client_id,
            client_secret: creds.client_secret,
            oauth_token: t,
        },
        None => creds,
    }
}

proof fn lemma_no_credentials(c: CredentialsView)
    ensures
        c == no_credentials() <==> c.channel_name.len() == 0 && c.client_id.len() == 0
            && c.client_secret.len() == 0 && c.oauth_token.len() == 0,
{
    if c.channel_name.len() == 0 && c.client_id.len() == 0 && c.client_secret.len() == 0
        && c.oauth_token.len() == 0 {
        assert(c.channel_name =~= Seq::empty());
        assert(c.client_id =~= Seq::empty());
        assert(c.client_secret =~= Seq::empty());
        assert(c.oauth_token =~= Seq::empty());
    }
}

/// What holds of every state holds at the beginning of a round.
pub proof fn law_begin_is_valid(env: CredentialsView, force_prompt: bool)
    ensures
        is_valid(begin(env, force_prompt)),
{
}

/// What holds of every state is kept by every step.
pub proof fn law_step_keeps_validity(s: SetupView, event: SetupEventView)
    requires
        is_valid(s),
        expects(s.stage, event),
    ensures
        is_valid(setup_step(s, event)),
{
}

/// The state after several events.
pub open spec fn setup_run(s: SetupView, events: Seq<SetupEventView>) -> SetupView
    decreases events.len(),
{
    if events.len() == 0 {
        s
    } else {
        setup_run(setup_step(s, events[0]), events.skip(1))
    }
}

/// Whether every one of several events is what the state waits for when it comes.
pub open spec fn expects_all(s: SetupView, events: Seq<SetupEventView>) -> bool
    decreases events.len(),
{
    events.len() > 0 ==> expects(s.stage, events[0]) && expects_all(
        setup_step(s, events[0]),
        events.skip(1),
    )
}

/// Whatever happens, what holds of every state holds.
pub proof fn law_every_state_is_valid(s: SetupView, events: Seq<SetupEventView>)
    requires
        is_valid(s),
        expects_all(s, events),
    ensures
        is_valid(setup_run(s, events)),
    decreases events.len(),
{
    if events.len() > 0 {
        law_step_keeps_validity(s, events[0]);
        law_every_state_is_valid(setup_step(s, events[0]), events.skip(1));
    }
}

/// Once saved settings are passed over, they stay passed over.
pub proof fn law_force_prompt_stays(s: SetupView, events: Seq<SetupEventView>)
    requires
        s.force_prompt,
    ensures
        setup_run(s, events).force_prompt,
    decreases events.len(),
{
    if events.len() > 0 {
        law_force_prompt_stays(setup_step(s, events[0]), events.skip(1));
    }
}

/// A channel that Kick does not know is asked for anew, wherever it came from: after the rest the
/// operator is asked for the channel name at once, without a look at the saved settings. Nothing
/// is left of the credentials so far, and no token is published.
pub proof fn law_unknown_channel_is_asked_for(s: SetupView)
    requires
        s.stage is Resolve,
    ensures
        ({
            let rest = setup_step(s, SetupEventView::Chatroom(None));
            let again = setup_step(rest, SetupEventView::Rested);
            &&& setup_action(rest) == (SetupActionView::Rest { secs: REST_SECS as int })
            &&& setup_action(again) == SetupActionView::Ask(channel_question())
            &&& again.force_prompt
            &&& again.creds == no_credentials()
            &&& again.published_token.len() == 0
        }),
{
}

/// Whether the search runs on the channel, the client id and the client secret of `env`, unless
/// Kick did not know a channel before.
pub open spec fn runs_on(s: SetupView, env: CredentialsView) -> bool {
    !s.force_prompt ==> {
        &&& s.stage is FetchToken || s.stage is Resolve || s.stage is Ready
        &&& s.creds.channel_name == env.channel_name
        &&& s.creds.client_id == env.client_id
        &&& s.creds.client_secret == env.client_secret
    }
}

proof fn lemma_runs_on(s: SetupView, env: CredentialsView, events: Seq<SetupEventView>)
    requires
        runs_on(s, env),
        expects_all(s, events),
    ensures
        runs_on(setup_run(s, events), env),
    decreases events.len(),
{
    if events.len() > 0 {
        lemma_runs_on(setup_step(s, events[0]), env, events.skip(1));
    }
}

/// With a channel in the environment the search runs on the environment's channel, client id and
/// client secret, and does not ask the operator, until Kick does not know the channel.
pub proof fn law_channel_of_environment(env: CredentialsView, events: Seq<SetupEventView>)
    requires
        env.channel_name.len() > 0,
        expects_all(begin(env, false), events),
    ensures
        ({
            let s = setup_run(begin(env, false), events);
            &&& runs_on(s, env)
            &&& !s.force_prompt ==> !(setup_action(s) is Ask) && !(setup_action(s) is Load) && !(
            setup_action(s) is Save)
        }),
{
    lemma_runs_on(begin(env, false), env, events);
}

/// A saved channel, client id and client secret are enough: they are used without a question, and
/// a missing token is asked for with them.
pub proof fn law_saved_settings_are_enough(s: SetupView, saved: SettingsView)
    requires
        s.stage is LoadQuietly,
        from_settings(saved).channel_name.len() > 0,
        from_settings(saved).client_id.len() > 0,
        from_settings(saved).client_secret.len() > 0,
    ensures
        ({
            let next = setup_step(s, SetupEventView::Loaded(Some(saved)));
            &&& next.creds == from_settings(saved)
            &&& setup_action(next) == if from_settings(saved).oauth_token.len() == 0 {
                SetupActionView::FetchToken {
                    client_id: from_settings(saved).client_id,
                    client_secret: from_settings(saved).client_secret,
                }
            } else {
                SetupActionView::Resolve { channel_name: from_settings(saved).channel_name }
            }
        }),
{
}

/// The question whether to use the saved settings is one of yes or no: any answer is a yes,
/// whatever its text, and the saved settings are used; a cancelled question is a no, and the
/// operator is asked for the channel name unless one is known.
pub proof fn law_any_answer_takes_the_offer(
    s: SetupView,
    saved: CredentialsView,
    answer: Option<Seq<char>>,
)
    requires
        s.stage == (StageView::Confirm { saved }),
    ensures
        ({
            let next = setup_step(s, SetupEventView::Answer(answer));
            &&& answer is Some ==> next.creds == saved
            &&& answer is None ==> next.creds == s.creds
            &&& setup_action(next) == SetupActionView::Ask(channel_question())
                <==> next.creds.channel_name.len() == 0
        }),
{
}

/// How far a state is from the look for the chatroom.
pub open spec fn distance(stage: StageView) -> nat {
    match stage {
        StageView::LoadQuietly => 9,
        StageView::LoadToOffer => 8,
        StageView::Confirm { .. } => 7,
        StageView::AskChannel => 6,
        StageView::AskClientId => 5,
        StageView::AskClientSecret => 4,
        StageView::FetchTokenForInput => 3,
        StageView::Save => 2,
        StageView::FetchToken => 1,
        _ => 0,
    }
}

/// Every step of a round leads nearer to the look for the chatroom, so no round goes on for ever.
pub proof fn law_rounds_end(s: SetupView, event: SetupEventView)
    requires
        expects(s.stage, event),
        distance(s.stage) > 0,
    ensures
        distance(setup_step(s, event).stage) < distance(s.stage),
        distance(setup_step(s, event).stage) == 0 ==> setup_step(s, event).stage is Resolve,
{
}

/// The credentials that the operator's answers and Kick's reply make of what was there before. A
/// cancelled question leaves a text as it was. The secret is asked for only with a client id, and
/// a token only with both.
pub open spec fn asked_for(
    before: CredentialsView,
    channel: Option<Seq<char>>,
    client_id: Option<Seq<char>>,
    client_secret: Option<Seq<char>>,
    token: Option<Seq<char>>,
) -> CredentialsView {
    let id = typed_in(client_id, before.client_id);
    let secret = if id.len() > 0 {
        typed_in(client_secret, before.client_secret)
    } else {
        before.client_secret
    };
    CredentialsView {
        channel_name: typed_in(channel, before.channel_name),
        client_id: id,
        client_secret: secret,
        oauth_token: if id.len() > 0 && secret.len() > 0 && token is Some {
            token->0
        } else {
            before.oauth_token
        },
    }
}

/// What happens from the question for the channel name until the credentials are to be saved.
pub open spec fn asking(
    before: CredentialsView,
    channel: Option<Seq<char>>,
    client_id: Option<Seq<char>>,
    client_secret: Option<Seq<char>>,
    token: Option<Seq<char>>,
) -> Seq<SetupEventView> {
    let id = typed_in(client_id, before.client_id);
    let first = seq![SetupEventView::Answer(channel), SetupEventView::Answer(client_id)];
    if id.len() == 0 {
        first
    } else if typed_in(client_secret, before.client_secret).len() == 0 {
        first.push(SetupEventView::Answer(client_secret))
    } else {
        first.push(SetupEventView::Answer(client_secret)).push(SetupEventView::Token(token))
    }
}

/// The operator's answers become the credentials, and those are what is saved.
pub proof fn law_answers_become_credentials(
    s: SetupView,
    channel: Option<Seq<char>>,
    client_id: Option<Seq<char>>,
    client_secret: Option<Seq<char>>,
    token: Option<Seq<char>>,
)
    requires
        s.stage is AskChannel,
    ensures
        ({
            let events = asking(s.creds, channel, client_id, client_secret, token);
            let creds = asked_for(s.creds, channel, client_id, client_secret, token);
            &&& expects_all(s, events)
            &&& setup_run(s, events).creds == creds
            &&& setup_action(setup_run(s, events)) == SetupActionView::Save(creds)
        }),
{
    let events = asking(s.creds, channel, client_id, client_secret, token);
    reveal_with_fuel(setup_run, 5);
    reveal_with_fuel(expects_all, 5);
    let e1 = events.skip(1);
    let e2 = e1.skip(1);
    let e3 = e2.skip(1);
    let e4 = e3.skip(1);
    assert(e1[0] == events[1]);
    if events.len() > 2 {
        assert(e2[0] == events[2]);
    }
    if events.len() > 3 {
        assert(e3[0] == events[3]);
    }
}

/// The token that messages to the chat are sent with is the one of the credentials that the
/// chatroom was looked for with.
pub proof fn law_published_token(s: SetupView)
    requires
        is_valid(s),
    ensures
        setup_action(s) is Resolve || setup_action(s) is Follow ==> s.published_token
            == s.creds.oauth_token,
        setup_action(s) is Load || setup_action(s) is Ask || setup_action(s) is FetchToken
            || setup_action(s) is Save ==> s.published_token.len() == 0,
{
}

/// Whether `c` holds exactly these texts.
pub open spec fn holds(
    c: Credentials,
    channel: Seq<char>,
    id: Seq<char>,
    secret: Seq<char>,
    token: Seq<char>,
) -> bool {
    &&& c.channel_name@ == channel
    &&& c.client_id@ == id
    &&& c.client_secret@ == secret
    &&& c.oauth_token@ == token
}

/// Credentials are copied as they are, there are none to begin with, and saved settings give each
/// text that they hold.
pub proof fn law_credentials_are_kept_apart(
    c: Credentials,
    settings: KickAdapterConfig,
    copied: Credentials,
    none: Credentials,
    loaded: Credentials,
)
    requires
        call_ensures(Credentials::copy, (&c,), copied),
        call_ensures(Credentials::none, (), none),
        call_ensures(credentials_from, (settings,), loaded),
    ensures
        holds(copied, c.channel_name@, c.client_id@, c.client_secret@, c.oauth_token@),
        none.channel_name@.len() == 0 && none.client_id@.len() == 0,
        none.client_secret@.len() == 0 && none.oauth_token@.len() == 0,
        settings.channel_name matches Some(t) ==> loaded.channel_name@ == t@,
        settings.client_id matches Some(t) ==> loaded.client_id@ == t@,
        settings.client_secret matches Some(t) ==> loaded.client_secret@ == t@,
        settings.oauth_token matches Some(t) ==> loaded.oauth_token@ == t@,
        settings.channel_name is None ==> loaded.channel_name@.len() == 0,
        settings.client_id is None ==> loaded.client_id@.len() == 0,
        settings.client_secret is None ==> loaded.client_secret@.len() == 0,
        settings.oauth_token is None ==> loaded.oauth_token@.len() == 0,
{
}

/// The search begins with each secret that the environment sets, as it is set, and with the channel
/// to begin with; a secret that is not set is empty.
pub proof fn law_credentials_to_begin_with(
    env: AdapterEnv,
    config_text: Option<&str>,
    channel: String,
    out: Credentials,
)
    requires
        call_ensures(startup_credentials, (env, config_text), out),
        call_ensures(config::startup_channel, (env.channel_name, config_text), channel),
    ensures
        out.channel_name@ == channel@,
        env.client_id matches Some(t) ==> out.client_id@ == t@,
        env.client_secret matches Some(t) ==> out.client_secret@ == t@,
        env.oauth_token matches Some(t) ==> out.oauth_token@ == t@,
        env.client_id is None ==> out.client_id@.len() == 0,
        env.client_secret is None ==> out.client_secret@.len() == 0,
        env.oauth_token is None ==> out.oauth_token@.len() == 0,
{
}

/// Whether the search goes on to the chatroom with these credentials: by way of a token that is
/// asked for with the client id and the secret where the token alone is missing, else at once and
/// with the token published.
pub open spec fn heads_for_chatroom(
    s: Setup,
    action: SetupAction,
    channel: Seq<char>,
    id: Seq<char>,
    secret: Seq<char>,
    token: Seq<char>,
) -> bool {
    &&& holds(s.creds, channel, id, secret, token)
    &&& if token.len() == 0 && id.len() > 0 && secret.len() > 0 {
        &&& action matches SetupAction::FetchToken { client_id, client_secret } && client_id@ == id
            && client_secret@ == secret
        &&& s.published_token@.len() == 0
    } else {
        &&& action matches SetupAction::Resolve { channel_name } && channel_name@ == channel
        &&& s.published_token@ == token
    }
}

/// Whether `action` puts this question.
pub open spec fn puts(
    action: SetupAction,
    title: Seq<char>,
    details: Seq<char>,
    label: Seq<char>,
    kind: PromptKind,
    timeout: u32,
) -> bool {
    action matches SetupAction::Ask(q) && {
        &&& q.title@ == title
        &&& q.details@ == details
        &&& q.input_label@ == label
        &&& q.kind == kind
        &&& q.timeout == timeout
    }
}

/// Whether `action` asks for the channel name.
pub open spec fn asks_for_channel(action: SetupAction) -> bool {
    puts(
        action,
        "Kick Live Chat Configuration Required"@,
        "Enter your Kick Channel Name / Username (e.g. vulbyte)."@,
        "Kick Channel Name"@,
        PromptKind::String,
        300,
    )
}

/// Whether `action` asks for the client id.
pub open spec fn asks_for_client_id(action: SetupAction) -> bool {
    puts(
        action,
        "Kick Application Setup"@,
        "Kick Application Setup (Required for bot replies/moderation):\n\n1. Go to: https://kick.com/settings/developer\n2. Click 'Create new' with these exact settings:\n- Application Name:  tielbot\n- App Description:   Stream chat adapter for Cockatiel\n- Redirect URL:      http://localhost\n- Enable webhooks:   Off (Disabled)\n- Scopes Requested:  Check **ALL** permissions\n3. Copy your Client ID when prompted below.\n\nNote: If you only want read-only monitoring, press Cancel to skip\ncredentials."@,
        "Client ID"@,
        PromptKind::String,
        300,
    )
}

/// Whether `action` asks for the client secret.
pub open spec fn asks_for_client_secret(action: SetupAction) -> bool {
    puts(
        action,
        "Kick Client Secret"@,
        "Enter the Client Secret for the Kick application above."@,
        "Client Secret"@,
        PromptKind::Credential,
        300,
    )
}

/// Whether `action` offers the saved settings of `channel`.
pub open spec fn offers(action: SetupAction, channel: Seq<char>) -> bool {
    puts(
        action,
        "Use Saved Kick Configuration?"@,
        "A saved configuration was found for channel '"@ + channel
            + "'.\n\nUse this configuration?"@,
        ""@,
        PromptKind::Boolean,
        120,
    )
}

/// With a channel the search goes on to the chatroom at once, with what the environment gives: the
/// token of the environment is the one that is published. Without a channel the saved settings are
/// looked at, quietly only where the environment gives nothing at all.
pub proof fn law_first_action(env: Credentials, s: Setup, action: SetupAction)
    requires
        call_ensures(Setup::new, (env,), s),
        call_ensures(Setup::action, (&s,), action),
    ensures
        !s.force_prompt,
        env.channel_name@.len() > 0 ==> heads_for_chatroom(
            s,
            action,
            env.channel_name@,
            env.client_id@,
            env.client_secret@,
            env.oauth_token@,
        ),
        env.channel_name@.len() == 0 ==> {
            &&& action is Load
            &&& s.published_token@.len() == 0
            &&& holds(
                s.creds,
                env.channel_name@,
                env.client_id@,
                env.client_secret@,
                env.oauth_token@,
            )
            &&& s.stage is LoadQuietly || s.stage is LoadToOffer
            &&& s.stage is LoadQuietly <==> env.client_id@.len() == 0 && env.client_secret@.len()
                == 0 && env.oauth_token@.len() == 0
        },
{
    lemma_no_credentials(env@);
}

/// With a channel and a token in the environment the first action is to look for the chatroom of
/// that channel, and the published token is that of the environment, whatever the configuration
/// file holds.
pub proof fn law_environment_is_enough(
    env: AdapterEnv,
    config_text: Option<&str>,
    first: Credentials,
    s: Setup,
    action: SetupAction,
)
    requires
        env.channel_name matches Some(c) && !text::is_blank(c@),
        env.oauth_token matches Some(t) && t@.len() > 0,
        call_ensures(startup_credentials, (env, config_text), first),
        call_ensures(Setup::new, (first,), s),
        call_ensures(Setup::action, (&s,), action),
    ensures
        action matches SetupAction::Resolve { channel_name } && channel_name@
            == env.channel_name->0@,
        s.published_token@ == env.oauth_token->0@,
{
    let c = env.channel_name->0@;
    text::lemma_trimmed_start(c);
    let t = text::trimmed_start(c);
    text::lemma_trimmed_end(t);
    if text::trimmed(c).len() == 0 {
        if t.len() > 0 {
            assert(text::is_white_space(t[0]));
        }
        assert(text::is_blank(c));
    }
    lemma_no_credentials(first@);
}

/// Saved settings with a channel, a client id and a client secret are used at once, each as it was
/// saved; any others are offered, and until then nothing changes.
pub proof fn law_quiet_look(
    s: Setup,
    saved: Option<KickAdapterConfig>,
    loaded: Credentials,
    t: Setup,
    action: SetupAction,
)
    requires
        is_valid(s@),
        s.stage is LoadQuietly,
        s.creds.channel_name@.len() == 0,
        saved matches Some(settings) ==> call_ensures(credentials_from, (settings,), loaded),
        call_ensures(Setup::step, (s, SetupEvent::Loaded(saved)), t),
        call_ensures(Setup::action, (&t,), action),
    ensures
        t.force_prompt == s.force_prompt,
        saved is Some && loaded.channel_name@.len() > 0 && loaded.client_id@.len() > 0
            && loaded.client_secret@.len() > 0 ==> heads_for_chatroom(
            t,
            action,
            loaded.channel_name@,
            loaded.client_id@,
            loaded.client_secret@,
            loaded.oauth_token@,
        ),
        saved is None || loaded.channel_name@.len() == 0 || loaded.client_id@.len() == 0
            || loaded.client_secret@.len() == 0 ==> t.stage is LoadToOffer && action is Load
            && t.creds@ == s.creds@ && t.published_token@ == s.published_token@,
{
}

/// Saved settings that name a channel are offered by that name; where there are none the operator
/// is asked for the channel.
pub proof fn law_look_for_an_offer(
    s: Setup,
    saved: Option<KickAdapterConfig>,
    loaded: Credentials,
    t: Setup,
    action: SetupAction,
)
    requires
        is_valid(s@),
        s.stage is LoadToOffer,
        s.creds.channel_name@.len() == 0,
        saved matches Some(settings) ==> call_ensures(credentials_from, (settings,), loaded),
        call_ensures(Setup::step, (s, SetupEvent::Loaded(saved)), t),
        call_ensures(Setup::action, (&t,), action),
    ensures
        t.force_prompt == s.force_prompt,
        t.creds@ == s.creds@,
        t.published_token@.len() == 0,
        saved is Some && saved->0.channel_name is Some ==> offers(
            action,
            saved->0.channel_name->0@,
        ) && (t.stage matches Stage::Confirm { saved: offered } && holds(
            offered,
            loaded.channel_name@,
            loaded.client_id@,
            loaded.client_secret@,
            loaded.oauth_token@,
        )),
        saved is None || saved->0.channel_name is None ==> asks_for_channel(action),
{
}

/// Any answer takes the offer, and the offered settings are used as they are; a cancelled question
/// declines it, and the search goes on with what it had.
pub proof fn law_answer_to_the_offer(
    s: Setup,
    offered: Credentials,
    answer: Option<String>,
    t: Setup,
    action: SetupAction,
)
    requires
        is_valid(s@),
        s.stage == (Stage::Confirm { saved: offered }),
        call_ensures(Setup::step, (s, SetupEvent::Answer(answer)), t),
        call_ensures(Setup::action, (&t,), action),
    ensures
        t.force_prompt == s.force_prompt,
        ({
            let used = if answer is Some {
                offered
            } else {
                s.creds
            };
            if used.channel_name@.len() == 0 {
                &&& asks_for_channel(action)
                &&& t.creds@ == used@
                &&& t.published_token@.len() == 0
            } else {
                heads_for_chatroom(
                    t,
                    action,
                    used.channel_name@,
                    used.client_id@,
                    used.client_secret@,
                    used.oauth_token@,
                )
            }
        }),
{
}

/// Whether `now` is what the operator typed in, without the white space around it, or what was
/// there before where the question was cancelled.
pub open spec fn is_typed(answer: Option<String>, before: Seq<char>, now: Seq<char>) -> bool {
    match answer {
        Some(typed) => text::is_trim(now) && exists|l: Seq<char>, r: Seq<char>|
            text::is_blank(l) && text::is_blank(r) && typed@ == #[trigger] (l + now + r),
        None => now == before,
    }
}

proof fn lemma_typed_in(answer: Option<String>, before: Seq<char>)
    ensures
        is_typed(answer, before, typed_in(text::opt_view(answer), before)),
{
    if let Some(typed) = answer {
        let s = typed@;
        text::lemma_trimmed(s);
        text::lemma_trimmed_start(s);
        let t = text::trimmed_start(s);
        text::lemma_trimmed_end(t);
        let e = text::trimmed_end(t);
        let k = s.len() - t.len();
        let l = s.take(k);
        let r = t.skip(e.len() as int);
        assert forall|i: int| 0 <= i < l.len() implies text::is_white_space(#[trigger] l[i]) by {
            assert(l[i] == s[i]);
        }
        assert forall|i: int| 0 <= i < r.len() implies text::is_white_space(#[trigger] r[i]) by {
            assert(r[i] == t[i + e.len()]);
        }
        assert(s =~= l + e + r);
    }
}

/// The answer to the question for the channel becomes the channel, and the client id is asked for;
/// nothing else changes.
pub proof fn law_channel_is_typed_in(
    s: Setup,
    answer: Option<String>,
    t: Setup,
    action: SetupAction,
)
    requires
        is_valid(s@),
        s.stage is AskChannel,
        call_ensures(Setup::step, (s, SetupEvent::Answer(answer)), t),
        call_ensures(Setup::action, (&t,), action),
    ensures
        t.force_prompt == s.force_prompt,
        t.published_token@ == s.published_token@,
        is_typed(answer, s.creds.channel_name@, t.creds.channel_name@),
        holds(
            t.creds,
            t.creds.channel_name@,
            s.creds.client_id@,
            s.creds.client_secret@,
            s.creds.oauth_token@,
        ),
        asks_for_client_id(action),
{
    lemma_typed_in(answer, s.creds.channel_name@);
}

/// The answer to the question for the client id becomes the client id. With one the secret is asked
/// for; without one the credentials are saved as they are. Nothing else changes.
pub proof fn law_client_id_is_typed_in(
    s: Setup,
    answer: Option<String>,
    t: Setup,
    action: SetupAction,
)
    requires
        is_valid(s@),
        s.stage is AskClientId,
        call_ensures(Setup::step, (s, SetupEvent::Answer(answer)), t),
        call_ensures(Setup::action, (&t,), action),
    ensures
        t.force_prompt == s.force_prompt,
        t.published_token@ == s.published_token@,
        is_typed(answer, s.creds.client_id@, t.creds.client_id@),
        holds(
            t.creds,
            s.creds.channel_name@,
            t.creds.client_id@,
            s.creds.client_secret@,
            s.creds.oauth_token@,
        ),
        t.creds.client_id@.len() > 0 ==> asks_for_client_secret(action),
        t.creds.client_id@.len() == 0 ==> saves(action, t.creds),
{
    lemma_typed_in(answer, s.creds.client_id@);
}

/// The answer to the question for the client secret becomes the secret. With one a token is asked
/// for, with the client id and that secret; without one the credentials are saved as they are.
/// Nothing else changes.
pub proof fn law_client_secret_is_typed_in(
    s: Setup,
    answer: Option<String>,
    t: Setup,
    action: SetupAction,
)
    requires
        is_valid(s@),
        s.stage is AskClientSecret,
        call_ensures(Setup::step, (s, SetupEvent::Answer(answer)), t),
        call_ensures(Setup::action, (&t,), action),
    ensures
        t.force_prompt == s.force_prompt,
        t.published_token@ == s.published_token@,
        is_typed(answer, s.creds.client_secret@, t.creds.client_secret@),
        holds(
            t.creds,
            s.creds.channel_name@,
            s.creds.client_id@,
            t.creds.client_secret@,
            s.creds.oauth_token@,
        ),
        t.creds.client_secret@.len() > 0 ==> (action matches SetupAction::FetchToken {
            client_id,
            client_secret,
        } && client_id@ == s.creds.client_id@ && client_secret@ == t.creds.client_secret@),
        t.creds.client_secret@.len() == 0 ==> saves(action, t.creds),
{
    lemma_typed_in(answer, s.creds.client_secret@);
}

/// Whether `action` saves these credentials.
pub open spec fn saves(action: SetupAction, c: Credentials) -> bool {
    action matches SetupAction::Save(saved) && holds(
        saved,
        c.channel_name@,
        c.client_id@,
        c.client_secret@,
        c.oauth_token@,
    )
}

/// A token that is granted becomes the token, and without one the token stays as it was; nothing
/// else of the credentials changes. What the operator typed in is saved then; else the chatroom is
/// looked for, and the token is published.
pub proof fn law_token_is_taken(
    s: Setup,
    granted: Option<String>,
    t: Setup,
    action: SetupAction,
)
    requires
        is_valid(s@),
        s.stage is FetchToken || s.stage is FetchTokenForInput,
        call_ensures(Setup::step, (s, SetupEvent::Token(granted)), t),
        call_ensures(Setup::action, (&t,), action),
    ensures
        t.force_prompt == s.force_prompt,
        granted matches Some(token) ==> t.creds.oauth_token@ == token@,
        granted is None ==> t.creds.oauth_token@ == s.creds.oauth_token@,
        holds(
            t.creds,
            s.creds.channel_name@,
            s.creds.client_id@,
            s.creds.client_secret@,
            t.creds.oauth_token@,
        ),
        s.stage is FetchTokenForInput ==> saves(action, t.creds) && t.published_token@.len() == 0,
        s.stage is FetchToken ==> (action matches SetupAction::Resolve { channel_name }
            && channel_name@ == s.creds.channel_name@) && t.published_token@
            == t.creds.oauth_token@,
{
}

/// Once the credentials are saved the chatroom of their channel is looked for, and their token is
/// published.
pub proof fn law_saved_credentials_are_used(s: Setup, t: Setup, action: SetupAction)
    requires
        is_valid(s@),
        s.stage is Save,
        call_ensures(Setup::step, (s, SetupEvent::Saved), t),
        call_ensures(Setup::action, (&t,), action),
    ensures
        t.force_prompt == s.force_prompt,
        t.creds@ == s.creds@,
        action matches SetupAction::Resolve { channel_name } && channel_name@
            == s.creds.channel_name@,
        t.published_token@ == s.creds.oauth_token@,
{
}

/// A chatroom that Kick knows is followed, with credentials and token as they are. For a channel
/// that Kick does not know the adapter rests two seconds, and then asks for a channel, with nothing
/// left of the credentials and no token published.
pub proof fn law_what_kick_knows(
    s: Setup,
    id: u64,
    known: Setup,
    follow: SetupAction,
    unknown: Setup,
    rest: SetupAction,
    again: Setup,
    ask: SetupAction,
)
    requires
        is_valid(s@),
        s.stage is Resolve,
        call_ensures(Setup::step, (s, SetupEvent::Chatroom(Some(id))), known),
        call_ensures(Setup::action, (&known,), follow),
        call_ensures(Setup::step, (s, SetupEvent::Chatroom(None)), unknown),
        call_ensures(Setup::action, (&unknown,), rest),
        call_ensures(Setup::step, (unknown, SetupEvent::Rested), again),
        call_ensures(Setup::action, (&again,), ask),
    ensures
        follow == (SetupAction::Follow { chatroom_id: id }),
        known.creds@ == s.creds@ && known.published_token@ == s.published_token@,
        known.force_prompt == s.force_prompt,
        rest == (SetupAction::Rest { secs: 2 }),
        unknown.force_prompt && again.force_prompt,
        unknown.published_token@ == s.published_token@,
        asks_for_channel(ask),
        again.creds.channel_name@.len() == 0 && again.creds.client_id@.len() == 0,
        again.creds.client_secret@.len() == 0 && again.creds.oauth_token@.len() == 0,
        again.published_token@.len() == 0,
{
    lemma_no_credentials(unknown.creds@);
    lemma_no_credentials(again.creds@);
}

/// Settings are awaited while they are looked for, an answer while a question is put, a token while
/// one is asked for, and so on; nothing else is accepted, and nothing at all once a chatroom is
/// followed.
pub proof fn law_what_is_accepted(s: Setup, event: SetupEvent, action: SetupAction, out: bool)
    requires
        call_ensures(Setup::accepts, (&s, &event), out),
        call_ensures(Setup::action, (&s,), action),
    ensures
        out == match action {
            SetupAction::Load => event is Loaded,
            SetupAction::Ask(_) => event is Answer,
            SetupAction::FetchToken { .. } => event is Token,
            SetupAction::Save(_) => event is Saved,
            SetupAction::Resolve { .. } => event is Chatroom,
            SetupAction::Rest { .. } => event is Rested,
            SetupAction::Follow { .. } => false,
        },
{
}

} // verus!
