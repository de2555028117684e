use kick_adapter::messages::{Identity, Payload, PromptKind};
use kick_adapter::prompt::{
    new_prompt, prompt_for_input, PromptResponse, PromptWait, Question, WaitEvent, WaitStep,
};

fn identity() -> Identity {
    Identity {
        auth_token: "auth".to_string(),
        module_name: "kick".to_string(),
        instance_uuid: "instance".to_string(),
    }
}

fn question() -> Question {
    Question {
        title: "Title".to_string(),
        details: "Details".to_string(),
        input_label: "Label".to_string(),
        kind: PromptKind::Credential,
        timeout: 120,
    }
}

fn response(id: &str, accepted: bool) -> WaitEvent {
    WaitEvent::Response(PromptResponse {
        prompt_id_uuid7: id.to_string(),
        accepted,
        reason: "answer".to_string(),
    })
}

#[test]
fn a_question_is_put() {
    let c = new_prompt(&identity(), &question(), "id");
    assert_eq!(c.version, 1);
    assert_eq!(c.auth_token, "auth");
    assert_eq!(c.module_name, "kick");
    assert_eq!(c.module_instance_uuid7, "instance");
    match c.payload {
        Payload::Prompt(p) => {
            assert_eq!(p.prompt_id_uuid7, "id");
            assert_eq!(p.prompt, "Title");
            assert_eq!(p.details, "Details");
            assert_eq!(p.yes_dialog, "Submit");
            assert_eq!(p.no_dialog, "Cancel");
            assert_eq!(p.timeout, 120);
            assert_eq!(p.origin, "kick");
            assert_eq!(p.origin_uuid7, "");
            assert_eq!(p.instructions, "");
            assert_eq!(p.link, "");
            assert_eq!(p.input_label, "Label");
            assert_eq!(p.prompt_type, PromptKind::Credential);
        }
        _ => panic!("no prompt"),
    }
}

#[test]
fn every_question_has_an_id_of_its_own() {
    let (c, wait) = prompt_for_input(&identity(), &question());
    let (_, other) = prompt_for_input(&identity(), &question());
    assert_eq!(c, new_prompt(&identity(), &question(), &wait.prompt_id));
    assert_eq!(wait.timeout, 120);
    assert_ne!(wait.prompt_id, other.prompt_id);
    let id = uuid::Uuid::parse_str(&wait.prompt_id).unwrap();
    assert_eq!(id.get_version_num(), 7);
    assert_eq!(id.to_string(), wait.prompt_id);
}

#[test]
fn only_the_own_answer_counts() {
    let wait = PromptWait { prompt_id: "mine".to_string(), timeout: 5 };
    assert_eq!(wait.on_event(response("mine", true)), WaitStep::Done(Some("answer".to_string())));
    assert_eq!(wait.on_event(response("mine", false)), WaitStep::Done(None));
    assert_eq!(wait.on_event(response("other", true)), WaitStep::Continue);
    assert_eq!(wait.on_event(response("other", false)), WaitStep::Continue);
}

#[test]
fn an_empty_look_does_not_cancel() {
    let wait = PromptWait { prompt_id: "mine".to_string(), timeout: 300 };
    assert_eq!(wait.on_event(WaitEvent::PollElapsed), WaitStep::Continue);
    assert_eq!(wait.on_event(WaitEvent::ChannelClosed), WaitStep::Done(None));
    assert_eq!(wait.on_event(WaitEvent::SendFailed), WaitStep::Done(None));
}

#[test]
fn a_wait_lasts_ten_seconds_longer_than_the_operator_is_given() {
    let wait = PromptWait { prompt_id: "mine".to_string(), timeout: 300 };
    assert!(wait.keeps_waiting(0));
    assert!(wait.keeps_waiting(309_999_999_999));
    assert!(!wait.keeps_waiting(310_000_000_000));
    let longest = PromptWait { prompt_id: "mine".to_string(), timeout: u32::MAX };
    assert!(longest.keeps_waiting(4_294_967_304_999_999_999));
    assert!(!longest.keeps_waiting(4_294_967_305_000_000_000));
}

#[test]
fn the_first_own_answer_decides() {
    let wait = PromptWait { prompt_id: "mine".to_string(), timeout: 5 };
    let rounds = vec![
        (0, WaitEvent::PollElapsed),
        (10_000_000_000, response("other", true)),
        (14_000_000_000, response("mine", true)),
        (14_500_000_000, response("mine", false)),
    ];
    let mut outcome: Option<Option<String>> = None;
    for (elapsed, event) in rounds {
        if outcome.is_some() {
            break;
        }
        if !wait.keeps_waiting(elapsed) {
            outcome = Some(None);
        } else if let WaitStep::Done(answer) = wait.on_event(event) {
            outcome = Some(answer);
        }
    }
    assert_eq!(outcome, Some(Some("answer".to_string())));
    assert!(!wait.keeps_waiting(15_000_000_000));
}
