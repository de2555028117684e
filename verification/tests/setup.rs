use kick_adapter::config::{AdapterEnv, KickAdapterConfig};
use kick_adapter::messages::PromptKind;
use kick_adapter::setup::{
    startup_credentials, Credentials, Setup, SetupAction, SetupEvent, Stage,
};

fn creds(channel: &str, id: &str, secret: &str, oauth: &str) -> Credentials {
    Credentials {
        channel_name: channel.to_string(),
        client_id: id.to_string(),
        client_secret: secret.to_string(),
        oauth_token: oauth.to_string(),
    }
}

fn saved(channel: &str, id: &str, secret: &str, oauth: &str) -> SetupEvent {
    SetupEvent::Loaded(Some(KickAdapterConfig {
        channel_name: Some(channel.to_string()),
        client_id: Some(id.to_string()),
        client_secret: Some(secret.to_string()),
        oauth_token: Some(oauth.to_string()),
    }))
}

fn answer(s: &str) -> SetupEvent {
    SetupEvent::Answer(Some(s.to_string()))
}

fn step(s: Setup, e: SetupEvent) -> Setup {
    assert!(s.accepts(&e));
    s.step(e)
}

fn resolve(channel: &str) -> SetupAction {
    SetupAction::Resolve { channel_name: channel.to_string() }
}

fn fetch(id: &str, secret: &str) -> SetupAction {
    SetupAction::FetchToken { client_id: id.to_string(), client_secret: secret.to_string() }
}

fn title(a: SetupAction) -> String {
    match a {
        SetupAction::Ask(q) => q.title,
        _ => panic!("no question"),
    }
}

#[test]
fn a_full_environment_needs_no_question() {
    let s = Setup::new(creds("c", "i", "s", "t"));
    assert_eq!(s.action(), resolve("c"));
    assert_eq!(s.published_token, "t");
    let s = step(s, SetupEvent::Chatroom(Some(7)));
    assert_eq!(s.action(), SetupAction::Follow { chatroom_id: 7 });
    assert_eq!(s.published_token, "t");
}

#[test]
fn a_missing_token_is_fetched() {
    let s = Setup::new(creds("c", "i", "s", ""));
    assert_eq!(s.action(), fetch("i", "s"));
    assert_eq!(s.published_token, "");
    let granted = step(s, SetupEvent::Token(Some("t".to_string())));
    assert_eq!(granted.action(), resolve("c"));
    assert_eq!(granted.published_token, "t");
    let refused = step(Setup::new(creds("c", "i", "s", "")), SetupEvent::Token(None));
    assert_eq!(refused.action(), resolve("c"));
    assert_eq!(refused.published_token, "");
    assert_eq!(Setup::new(creds("c", "i", "", "")).action(), resolve("c"));
}

#[test]
fn saved_settings_are_used_without_a_question() {
    let s = Setup::new(creds("", "", "", ""));
    assert_eq!(s.action(), SetupAction::Load);
    let s = step(s, saved("c", "i", "s", "t"));
    assert_eq!(s.action(), resolve("c"));
    assert_eq!(s.published_token, "t");
    let tokenless = step(Setup::new(creds("", "", "", "")), saved("c", "i", "s", ""));
    assert_eq!(tokenless.action(), fetch("i", "s"));
    let incomplete = step(Setup::new(creds("", "", "", "")), saved("c", "i", "", "t"));
    assert_eq!(incomplete.stage, Stage::LoadToOffer);
}

#[test]
fn saved_settings_are_offered() {
    let offered = || {
        let s = Setup::new(creds("", "i", "", ""));
        assert_eq!(s.action(), SetupAction::Load);
        step(s, saved("c", "j", "s", "t"))
    };
    match offered().action() {
        SetupAction::Ask(q) => {
            assert_eq!(q.title, "Use Saved Kick Configuration?");
            assert_eq!(
                q.details,
                "A saved configuration was found for channel 'c'.\n\nUse this configuration?"
            );
            assert_eq!(q.input_label, "");
            assert_eq!(q.kind, PromptKind::Boolean);
            assert_eq!(q.timeout, 120);
        }
        _ => panic!("no question"),
    }
    for yes in ["y", "Y", " yes\n", "", "n"] {
        let s = step(offered(), answer(yes));
        assert_eq!(s.action(), resolve("c"));
        assert_eq!(s.creds, creds("c", "j", "s", "t"));
    }
    let s = step(offered(), SetupEvent::Answer(None));
    assert_eq!(s.stage, Stage::AskChannel);
    assert_eq!(s.creds, creds("", "i", "", ""));
}

#[test]
fn the_operator_is_asked() {
    let s = step(Setup::new(creds("", "", "", "")), SetupEvent::Loaded(None));
    let s = step(s, SetupEvent::Loaded(None));
    match s.action() {
        SetupAction::Ask(q) => {
            assert_eq!(q.title, "Kick Live Chat Configuration Required");
            assert_eq!(q.details, "Enter your Kick Channel Name / Username (e.g. vulbyte).");
            assert_eq!(q.input_label, "Kick Channel Name");
            assert_eq!(q.kind, PromptKind::String);
            assert_eq!(q.timeout, 300);
        }
        _ => panic!("no question"),
    }
    let s = step(s, answer(" c "));
    match s.action() {
        SetupAction::Ask(q) => {
            assert_eq!(q.title, "Kick Application Setup");
            assert_eq!(q.input_label, "Client ID");
            assert_eq!(q.kind, PromptKind::String);
            assert_eq!(q.timeout, 300);
            assert!(q.details.starts_with(
                "Kick Application Setup (Required for bot replies/moderation):\n\n1. Go to: https://kick.com/settings/developer\n2. Click 'Create new' with these exact settings:\n- Application Name:  tielbot\n"
            ));
            assert!(q.details.ends_with("press Cancel to skip\ncredentials."));
        }
        _ => panic!("no question"),
    }
    let s = step(s, answer("i\n"));
    match s.action() {
        SetupAction::Ask(q) => {
            assert_eq!(q.title, "Kick Client Secret");
            assert_eq!(q.details, "Enter the Client Secret for the Kick application above.");
            assert_eq!(q.input_label, "Client Secret");
            assert_eq!(q.kind, PromptKind::Credential);
            assert_eq!(q.timeout, 300);
        }
        _ => panic!("no question"),
    }
    let s = step(s, answer("s"));
    assert_eq!(s.action(), fetch("i", "s"));
    let s = step(s, SetupEvent::Token(Some("t".to_string())));
    assert_eq!(s.action(), SetupAction::Save(creds("c", "i", "s", "t")));
    assert_eq!(s.published_token, "");
    let s = step(s, SetupEvent::Saved);
    assert_eq!(s.action(), resolve("c"));
    assert_eq!(s.published_token, "t");
}

#[test]
fn cancelled_questions_keep_what_was_there() {
    let asked = |env: Credentials| {
        let s = step(Setup::new(env), SetupEvent::Loaded(None));
        step(s, SetupEvent::Answer(None))
    };
    let s = step(asked(creds("", "", "s", "")), SetupEvent::Answer(None));
    assert_eq!(s.action(), SetupAction::Save(creds("", "", "s", "")));
    let s = step(asked(creds("", "i", "s", "")), SetupEvent::Answer(None));
    let s = step(s, SetupEvent::Answer(None));
    assert_eq!(s.action(), fetch("i", "s"));
    let s = step(s, SetupEvent::Token(None));
    assert_eq!(s.action(), SetupAction::Save(creds("", "i", "s", "")));
    let s = step(asked(creds("", "i", "", "t")), answer("j"));
    let s = step(s, answer(" "));
    assert_eq!(s.action(), SetupAction::Save(creds("", "j", "", "t")));
}

#[test]
fn an_unknown_channel_is_asked_for_anew() {
    let s = step(Setup::new(creds("", "", "", "")), saved("c", "i", "s", "t"));
    let s = step(s, SetupEvent::Chatroom(None));
    assert_eq!(s.action(), SetupAction::Rest { secs: 2 });
    assert_eq!(s.published_token, "t");
    let s = step(s, SetupEvent::Rested);
    assert_eq!(title(s.action()), "Kick Live Chat Configuration Required");
    assert_eq!(s.published_token, "");
    assert!(s.force_prompt);
}

#[test]
fn an_unknown_channel_of_the_environment_is_asked_for_anew() {
    let s = step(Setup::new(creds("c", "i", "s", "t")), SetupEvent::Chatroom(None));
    assert_eq!(s.action(), SetupAction::Rest { secs: 2 });
    assert_eq!(s.creds, creds("", "", "", ""));
    let s = step(s, SetupEvent::Rested);
    assert_eq!(title(s.action()), "Kick Live Chat Configuration Required");
    assert_eq!(s.creds, creds("", "", "", ""));
    assert_eq!(s.published_token, "");
    assert!(s.force_prompt);
    let s = step(s, answer("d"));
    let s = step(s, SetupEvent::Answer(None));
    assert_eq!(s.action(), SetupAction::Save(creds("d", "", "", "")));
    let s = step(s, SetupEvent::Saved);
    assert_eq!(s.action(), resolve("d"));
}

#[test]
fn the_search_begins_with_the_environment_and_the_configuration() {
    let env = |channel: Option<&str>, secret: Option<&str>| AdapterEnv {
        channel_name: channel.map(|s| s.to_string()),
        client_id: Some("i".to_string()),
        client_secret: secret.map(|s| s.to_string()),
        oauth_token: None,
    };
    let config = "{\"module_specific\":{\"channel_name\":\"c\"}}";
    assert_eq!(startup_credentials(env(Some("e"), Some("s")), Some(config)), creds("e", "i", "s", ""));
    assert_eq!(startup_credentials(env(Some(" "), None), Some(config)), creds("c", "i", "", ""));
    assert_eq!(startup_credentials(env(None, None), None), creds("", "i", "", ""));
}

#[test]
fn only_what_is_awaited_is_accepted() {
    let s = Setup::new(creds("c", "i", "s", "t"));
    assert!(!s.accepts(&SetupEvent::Rested));
    assert!(!s.accepts(&answer("x")));
    let s = step(s, SetupEvent::Chatroom(Some(1)));
    assert!(!s.accepts(&SetupEvent::Chatroom(Some(1))));
}
