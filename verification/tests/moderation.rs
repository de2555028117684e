use kick_adapter::json::{compact, text, Json};
use kick_adapter::moderation::{parse_mod_command, readable, recognize, ModCommand};

fn ban(handle: &str, reason: &str) -> Option<ModCommand> {
    Some(ModCommand::Ban { handle: handle.to_string(), reason: reason.to_string() })
}

fn timeout(handle: &str, duration_secs: i64, reason: &str) -> Option<ModCommand> {
    Some(ModCommand::Timeout {
        handle: handle.to_string(),
        duration_secs,
        reason: reason.to_string(),
    })
}

#[test]
fn bans_are_read() {
    assert_eq!(recognize("!ban troll"), ban("troll", ""));
    assert_eq!(recognize("!ban @troll being  rude "), ban("troll", "being  rude"));
    assert_eq!(recognize("  !BAN\t@@troll\u{a0}x"), ban("troll", "x"));
    assert_eq!(recognize("!ban  troll  a b"), ban("troll", "a b"));
    assert_eq!(recognize("!ban @"), None);
    assert_eq!(recognize("!ban @ troll"), None);
    assert_eq!(recognize("!ban caf\u{e9} \u{1f600}"), ban("caf\u{e9}", "\u{1f600}"));
}

#[test]
fn the_character_behind_the_word_is_passed_over() {
    assert_eq!(recognize("!banana split"), ban("na", "split"));
    assert_eq!(recognize("!bank robber"), ban("robber", ""));
    assert_eq!(recognize("!bans"), None);
    assert_eq!(recognize("!timeouts @x 5"), timeout("x", 5, ""));
}

#[test]
fn timeouts_are_read() {
    assert_eq!(recognize("!timeout troll"), timeout("troll", 300, ""));
    assert_eq!(recognize("!timeout @troll 60"), timeout("troll", 60, ""));
    assert_eq!(recognize("!TimeOut @troll 60 too  many\tlinks"), timeout("troll", 60, "too many links"));
    assert_eq!(recognize("!timeout troll for spam"), timeout("troll", 300, "for spam"));
    assert_eq!(recognize("!timeout troll spam"), timeout("troll", 300, "spam"));
    assert_eq!(recognize("!timeout troll -5 x"), timeout("troll", -5, "x"));
    assert_eq!(
        recognize("!timeout troll 9223372036854775808 x"),
        timeout("troll", 300, "9223372036854775808 x")
    );
    assert_eq!(recognize("!timeout @@@ 60"), None);
}

#[test]
fn other_messages_are_no_commands() {
    for m in ["", "hello", "ban x", "! ban x", "hello !ban x", "!time x", "!ba", "!ti\u{307}meout x"] {
        assert!(readable(m));
        assert_eq!(recognize(m), None);
        assert_eq!(parse_mod_command(m, "mod"), None);
    }
}

#[test]
fn a_command_word_without_a_separator_is_unreadable() {
    for m in ["!ban", " !ban ", "!Ban\u{e9} x", "!ban\u{a0}x", "!timeout", "!timeout\u{3000}x"] {
        assert!(!readable(m), "{:?}", m);
    }
    for m in ["!ban x", "!ban\tx", "!ban@x", "!timeout x", "!timeout@x", "!timeou"] {
        assert!(readable(m), "{:?}", m);
    }
}

#[test]
fn a_ban_is_told_to_the_engine() {
    let (id, payload) = parse_mod_command("!ban @troll being \"rude\"", "mod").unwrap();
    assert_eq!(id, "mod_ban");
    assert_eq!(payload.text_at("handle"), Some("troll"));
    assert_eq!(payload.get("actor").unwrap().text_at("platform"), Some("kick"));
    assert_eq!(
        compact(payload),
        "{\"actor\":{\"handle\":\"mod\",\"platform\":\"kick\"},\"handle\":\"troll\",\"platform\":\"kick\",\"reason\":\"being \\\"rude\\\"\"}"
    );
}

#[test]
fn a_timeout_is_told_to_the_engine() {
    let (id, payload) = parse_mod_command("!timeout troll 90 links", "mod").unwrap();
    assert_eq!(id, "mod_timeout");
    assert_eq!(payload.get("duration_secs"), Some(&Json::Signed(90)));
    assert_eq!(payload.get("reason"), Some(&text("links")));
    assert_eq!(
        compact(payload),
        "{\"actor\":{\"handle\":\"mod\",\"platform\":\"kick\"},\"duration_secs\":90,\"handle\":\"troll\",\"platform\":\"kick\",\"reason\":\"links\"}"
    );
}

#[test]
fn surrounding_space_and_case_change_nothing() {
    let plain = recognize("!timeout @x 5 y");
    assert_eq!(recognize("\u{2003}!timeout @x 5 y \n"), plain);
    assert_eq!(recognize("!TIMEOUT @x 5 y"), plain);
    assert_eq!(recognize("!Ban @x 5 y"), recognize("!bAN @x 5 y"));
}

#[test]
fn handles_are_bare_words() {
    for m in ["!ban @@a@ b", "!timeout\u{20}\u{2003}@b\u{2003}c", "!ban \t@c"] {
        let handle = match recognize(m).unwrap() {
            ModCommand::Ban { handle, .. } => handle,
            ModCommand::Timeout { handle, .. } => handle,
        };
        assert!(!handle.is_empty() && !handle.starts_with('@'));
        assert!(!handle.contains(char::is_whitespace));
    }
}
