use kick_adapter::engine::{handle_engine_event, EngineAction, EngineEvent, EnginePayload};
use kick_adapter::messages::{Identity, Payload};
use kick_adapter::prompt::PromptResponse;

fn identity() -> Identity {
    Identity {
        auth_token: "auth".to_string(),
        module_name: "kick".to_string(),
        instance_uuid: "instance".to_string(),
    }
}

#[test]
fn a_probe_is_answered_with_the_own_token() {
    match handle_engine_event(&identity(), EngineEvent::Message(EnginePayload::AuthVerify)) {
        EngineAction::Reply(c) => {
            assert_eq!(c.version, 1);
            assert_eq!(c.auth_token, "auth");
            assert_eq!(c.module_name, "kick");
            assert_eq!(c.module_instance_uuid7, "instance");
            assert_eq!(c.payload, Payload::AuthVerify { cur_auth: "auth".to_string() });
        }
        _ => panic!("no reply"),
    }
}

#[test]
fn texts_and_answers_are_handed_on() {
    let send = EnginePayload::SendToPlatforms { msg: "hi".to_string() };
    assert_eq!(
        handle_engine_event(&identity(), EngineEvent::Message(send)),
        EngineAction::SendToChat("hi".to_string())
    );
    let response = || PromptResponse {
        prompt_id_uuid7: "id".to_string(),
        accepted: true,
        reason: "y".to_string(),
    };
    assert_eq!(
        handle_engine_event(
            &identity(),
            EngineEvent::Message(EnginePayload::PromptResponse(response()))
        ),
        EngineAction::Deliver(response())
    );
}

#[test]
fn only_the_end_of_the_connection_stops_the_reading() {
    let other = EngineEvent::Message(EnginePayload::Other);
    assert_eq!(handle_engine_event(&identity(), other), EngineAction::Ignore);
    assert_eq!(handle_engine_event(&identity(), EngineEvent::Undecodable), EngineAction::Ignore);
    assert_eq!(handle_engine_event(&identity(), EngineEvent::OtherFrame), EngineAction::Ignore);
    assert_eq!(handle_engine_event(&identity(), EngineEvent::Closed), EngineAction::Stop);
    assert_eq!(handle_engine_event(&identity(), EngineEvent::Failed), EngineAction::Stop);
}
