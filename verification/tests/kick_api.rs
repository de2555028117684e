use kick_adapter::json::parse;
use kick_adapter::kick_api::{
    chatroom_url, clean_channel_name, fetch_app_access_token, fetch_chatroom_id, read_access_token,
    read_chatroom_id, send_kick_message, token_params, ChatroomError, TokenError, TokenReply,
};

#[test]
fn channel_names_are_cleaned() {
    assert_eq!(clean_channel_name(" @vulbyte "), "vulbyte");
    assert_eq!(clean_channel_name("vulbyte"), "vulbyte");
    assert_eq!(clean_channel_name("@@vulbyte"), "@vulbyte");
    assert_eq!(clean_channel_name("@ x"), " x");
    assert_eq!(clean_channel_name(" "), "");
    assert_eq!(chatroom_url("\t@vulbyte"), "https://kick.com/api/v2/channels/vulbyte");
    assert_eq!(chatroom_url("vulbyte"), chatroom_url("@vulbyte"));
}

#[test]
fn the_chatroom_is_found() {
    let body = b"{\"id\":1,\"chatroom\":{\"id\":4242}}";
    assert_eq!(fetch_chatroom_id("x", body), Ok(4242));
    let max = parse("{\"chatroom\":{\"id\":18446744073709551615}}").unwrap();
    assert_eq!(read_chatroom_id("x", &max), Ok(u64::MAX));
}

#[test]
fn a_missing_chatroom_is_an_error() {
    for body in [
        "{}", "[]", "{\"chatroom\":null}", "{\"chatroom\":{}}", "{\"chatroom\":{\"id\":-1}}",
        "{\"chatroom\":{\"id\":\"1\"}}", "{\"chatroom\":{\"id\":1.0}}",
    ] {
        let e = fetch_chatroom_id(" @x ", body.as_bytes()).unwrap_err();
        assert_eq!(e, ChatroomError::NotFound { channel: "x".to_string() });
        assert_eq!(e.message(), "Could not find chatroom ID for Kick channel: x");
    }
    let e = fetch_chatroom_id("x", b"<html>").unwrap_err();
    assert_eq!(e, ChatroomError::InvalidJson);
    assert_eq!(e.message(), "error decoding response body");
}

#[test]
fn a_token_is_asked_for() {
    let params: Vec<(String, String)> = [
        ("grant_type", "client_credentials"),
        ("client_id", "id"),
        ("client_secret", "secret"),
    ]
    .iter()
    .map(|(k, v)| (k.to_string(), v.to_string()))
    .collect();
    assert_eq!(token_params("id", "secret"), params);
}

#[test]
fn a_token_is_granted_or_refused() {
    let granted = TokenReply::Success(b"{\"access_token\":\"t\",\"expires_in\":1}".to_vec());
    assert_eq!(fetch_app_access_token(granted), Ok("t".to_string()));

    let refused = fetch_app_access_token(TokenReply::Refused("no".to_string())).unwrap_err();
    assert_eq!(refused, TokenError::Refused { body: "no".to_string() });
    assert_eq!(refused.message(), "Failed to obtain OAuth token from Kick: no");

    let strange = fetch_app_access_token(TokenReply::Success(b"{\"token\":\"t\"}".to_vec()));
    assert_eq!(strange, Err(TokenError::InvalidStructure));
    assert_eq!(
        TokenError::InvalidStructure.message(),
        "Invalid response structure from Kick OAuth server"
    );
    assert_eq!(
        read_access_token(&parse("{\"access_token\":1}").unwrap()),
        Err(TokenError::InvalidStructure)
    );

    let broken = fetch_app_access_token(TokenReply::Success(b"".to_vec())).unwrap_err();
    assert_eq!(broken, TokenError::InvalidJson);
    assert_eq!(broken.message(), "error decoding response body");
}

#[test]
fn a_text_is_put_into_the_chat_with_a_token_only() {
    assert_eq!(send_kick_message("", "hi"), None);
    let q = send_kick_message("tok", "say \"hi\"").unwrap();
    assert_eq!(q.url, "https://api.kick.com/public/v1/chat");
    assert_eq!(q.authorization, "Bearer tok");
    assert_eq!(q.content_type, "application/json");
    assert_eq!(q.body, "{\"content\":\"say \\\"hi\\\"\",\"type\":\"user\"}");
    assert_eq!(parse(&q.body).unwrap().text_at("content"), Some("say \"hi\""));
}
