//! Moderator commands in chat messages.

use crate::decimal;
use crate::json;
use crate::json::{Json, JsonView};
use crate::text;
use vstd::prelude::*;
use vstd::string::*;

verus! {

/// How long a timeout lasts where the message gives no number of seconds.
pub const DEFAULT_TIMEOUT_SECS: i64 = 300;

/// What a moderator asks for.
#[derive(Debug, PartialEq)]
pub enum ModCommand {
    Ban { handle: String, reason: String },
    Timeout { handle: String, duration_secs: i64, reason: String },
}

/// What a moderator asks for, as text and numbers.
pub enum ModCommandView {
    Ban { handle: Seq<char>, reason: Seq<char> },
    Timeout { handle: Seq<char>, duration_secs: int, reason: Seq<char> },
}

impl View for ModCommand {
    type V = ModCommandView;

    open spec fn view(&self) -> ModCommandView {
        match *self {
            ModCommand::Ban { handle, reason } => ModCommandView::Ban {
                handle: handle@,
                reason: reason@,
            },
            ModCommand::Timeout { handle, duration_secs, reason } => ModCommandView::Timeout {
                handle: handle@,
                duration_secs: duration_secs as int,
                reason: reason@,
            },
        }
    }
}

/// Whether a command word of `n` characters is followed in `t` by a character of one byte, which
/// parts it from its arguments.
pub open spec fn has_separator(t: Seq<char>, n: int) -> bool {
    t.len() > n && text::is_ascii_char(t[n])
}

/// Whether `message` can be read: a command word in it is followed by a separator.
pub open spec fn is_readable(message: Seq<char>) -> bool {
    let t = text::trimmed(message);
    if text::has_command_word(t, "!ban"@) {
        has_separator(t, 4)
    } else if text::has_command_word(t, "!timeout"@) {
        has_separator(t, 8)
    } else {
        true
    }
}

/// The ban that the arguments of `!ban` ask for: a handle, and all that follows it as the reason.
pub open spec fn ban_of(args: Seq<char>) -> Option<ModCommandView> {
    let n = text::word_len(args) as int;
    let handle = text::without_ats(args.take(n));
    let rest = if n < args.len() {
        args.skip(n + 1)
    } else {
        Seq::empty()
    };
    if handle.len() == 0 {
        None
    } else {
        Some(ModCommandView::Ban { handle, reason: text::trimmed(rest) })
    }
}

/// The timeout that the words behind `!timeout` ask for: a handle, then the seconds if the next
/// word is a number, then the reason.
pub open spec fn timeout_of(args: Seq<Seq<char>>) -> Option<ModCommandView> {
    let handle = if args.len() > 0 {
        text::without_ats(args[0])
    } else {
        Seq::empty()
    };
    if handle.len() == 0 {
        None
    } else if args.len() > 1 && decimal::i64_value(args[1]) is Some {
        Some(
            ModCommandView::Timeout {
                handle,
                duration_secs: decimal::i64_value(args[1])->0 as int,
                reason: text::joined(args.skip(2)),
            },
        )
    } else {
        Some(
            ModCommandView::Timeout {
                handle,
                duration_secs: DEFAULT_TIMEOUT_SECS as int,
                reason: text::joined(args.skip(1)),
            },
        )
    }
}

/// The command that `message` gives.
pub open spec fn mod_command(message: Seq<char>) -> Option<ModCommandView> {
    let t = text::trimmed(message);
    if text::has_command_word(t, "!ban"@) {
        ban_of(text::trimmed(t.skip(5)))
    } else if text::has_command_word(t, "!timeout"@) {
        timeout_of(text::words(text::trimmed(t.skip(9))))
    } else {
        None
    }
}

/// The name of the engine's query for a command.
pub open spec fn query_id(c: ModCommandView) -> Seq<char> {
    match c {
        ModCommandView::Ban { .. } => "mod_ban"@,
        ModCommandView::Timeout { .. } => "mod_timeout"@,
    }
}

/// A user of Kick as the engine names one.
pub open spec fn kick_user(handle: Seq<char>) -> JsonView {
    JsonView::Object(
        map![
            "platform"@ => JsonView::Text("kick"@),
            "handle"@ => JsonView::Text(handle),
        ],
    )
}

/// What the engine is told of a command that `author` gave.
pub open spec fn payload(c: ModCommandView, author: Seq<char>) -> JsonView {
    match c {
        ModCommandView::Ban { handle, reason } => JsonView::Object(
            map![
                "platform"@ => JsonView::Text("kick"@),
                "handle"@ => JsonView::Text(handle),
                "reason"@ => JsonView::Text(reason),
                "actor"@ => kick_user(author),
            ],
        ),
        ModCommandView::Timeout { handle, duration_secs, reason } => JsonView::Object(
            map![
                "platform"@ => JsonView::Text("kick"@),
                "handle"@ => JsonView::Text(handle),
                "duration_secs"@ => JsonView::Integer(duration_secs),
                "reason"@ => JsonView::Text(reason),
                "actor"@ => kick_user(author),
            ],
        ),
    }
}

fn ends_with_separator(t: &str, n: usize) -> (r: bool)
    ensures
        r == has_separator(t@, n as int),
{
    let cs = text::chars_of(t);
    cs.len() > n && (cs[n] as u32) < 128
}

/// Whether `message` can be read: a command word in it is followed by a separator.
pub fn readable(message: &str) -> (r: bool)
    ensures
        r == is_readable(message@),
{
    let t = text::trim(message);
    if text::starts_with_command(t, "!ban") {
        ends_with_separator(t, 4)
    } else if text::starts_with_command(t, "!timeout") {
        ends_with_separator(t, 8)
    } else {
        true
    }
}

fn skip_chars(t: &str, n: usize) -> (r: &str)
    requires
        n <= t@.len(),
    ensures
        r@ == t@.skip(n as int),
{
    let len = t.unicode_len();
    assert(t@.subrange(n as int, t@.len() as int) =~= t@.skip(n as int));
    t.substring_char(n, len)
}

fn parse_ban(args: &str) -> (r: Option<ModCommand>)
    ensures
        match r {
            Some(c) => ban_of(args@) == Some(c@),
            None => ban_of(args@) is None,
        },
{
    let (first, rest) = text::split_first_word(args);
    let handle = text::trim_ats(first);
    if handle.is_empty() {
        return None;
    }
    Some(ModCommand::Ban { handle: handle.to_string(), reason: text::trim(rest).to_string() })
}

fn parse_timeout(args: &str) -> (r: Option<ModCommand>)
    ensures
        match r {
            Some(c) => timeout_of(text::words(args@)) == Some(c@),
            None => timeout_of(text::words(args@)) is None,
        },
{
    let parts = text::split_words(args);
    let ghost ws = text::words(args@);
    assert(parts@.len() == ws.len());
    assert(forall|i: int| 0 <= i < ws.len() ==> ws[i] == (#[trigger] parts@[i])@);
    if parts.len() == 0 {
        return None;
    }
    let handle = text::trim_ats(parts[0].as_str());
    if handle.is_empty() {
        return None;
    }
    if parts.len() > 1 {
        if let Some(secs) = decimal::parse_i64(parts[1].as_str()) {
            return Some(
                ModCommand::Timeout {
                    handle: handle.to_string(),
                    duration_secs: secs,
                    reason: text::join_words(&parts, 2),
                },
            );
        }
    }
    Some(
        ModCommand::Timeout {
            handle: handle.to_string(),
            duration_secs: DEFAULT_TIMEOUT_SECS,
            reason: text::join_words(&parts, 1),
        },
    )
}

/// Reads a moderator command from a chat message.
pub fn recognize(message: &str) -> (r: Option<ModCommand>)
    requires
        is_readable(message@),
    ensures
        match r {
            Some(c) => mod_command(message@) == Some(c@),
            None => mod_command(message@) is None,
        },
{
    let t = text::trim(message);
    if text::starts_with_command(t, "!ban") {
        parse_ban(text::trim(skip_chars(t, 5)))
    } else if text::starts_with_command(t, "!timeout") {
        parse_timeout(text::trim(skip_chars(t, 9)))
    } else {
        None
    }
}

fn kick_user_json(handle: &str) -> (j: Json)
    ensures
        j@ == kick_user(handle@),
        forall|depth: nat| depth > 0 ==> #[trigger] json::built_within(j, depth),
{
    let mut m: Vec<(String, Json)> = Vec::new();
    json::put(&mut m, "platform", json::text("kick"));
    json::put(&mut m, "handle", json::text(handle));
    proof {
        assert forall|depth: nat| depth > 0 implies #[trigger] json::built_within(
            Json::Object(m),
            depth,
        ) by {
            assert(json::entries_within(m@, (depth - 1) as nat));
        }
    }
    Json::Object(m)
}

impl ModCommand {
    /// The name of the engine's query for the command.
    pub fn query_id(&self) -> (r: String)
        ensures
            r@ == query_id(self@),
    {
        match self {
            ModCommand::Ban { .. } => "mod_ban".to_string(),
            ModCommand::Timeout { .. } => "mod_timeout".to_string(),
        }
    }

    /// What the engine is told of the command that `author` gave.
    pub fn payload(&self, author: &str) -> (j: Json)
        ensures
            j@ == payload(self@, author@),
            json::built_within(j, json::max_depth()),
    {
        let mut m: Vec<(String, Json)> = Vec::new();
        json::put(&mut m, "platform", json::text("kick"));
        match self {
            ModCommand::Ban { handle, reason } => {
                json::put(&mut m, "handle", json::text(handle.as_str()));
                json::put(&mut m, "reason", json::text(reason.as_str()));
            },
            ModCommand::Timeout { handle, duration_secs, reason } => {
                json::put(&mut m, "handle", json::text(handle.as_str()));
                json::put(&mut m, "duration_secs", Json::Signed(*duration_secs));
                json::put(&mut m, "reason", json::text(reason.as_str()));
            },
        }
        json::put(&mut m, "actor", kick_user_json(author));
        assert(json::entries_within(m@, (json::max_depth() - 1) as nat));
        Json::Object(m)
    }
}

/// Reads a moderator command (`!ban` or `!timeout`) that `author` gave in a chat message: the
/// name of the engine's query for it, and what the query carries.
pub fn parse_mod_command(message: &str, author: &str) -> (r: Option<(String, Json)>)
    requires
        is_readable(message@),
    ensures
        match r {
            Some(q) => mod_command(message@) is Some && q.0@ == query_id(mod_command(message@)->0)
                && q.1@ == payload(mod_command(message@)->0, author@) && json::built_within(
                q.1,
                json::max_depth(),
            ),
            None => mod_command(message@) is None,
        },
{
    match recognize(message) {
        Some(c) => Some((c.query_id(), c.payload(author))),
        None => None,
    }
}

/// The handle that a command is aimed at.
pub open spec fn handle_of(c: ModCommandView) -> Seq<char> {
    match c {
        ModCommandView::Ban { handle, .. } => handle,
        ModCommandView::Timeout { handle, .. } => handle,
    }
}

/// A command is always aimed at one word that does not begin with an `@` sign.
pub proof fn law_handle_is_bare(message: Seq<char>)
    requires
        mod_command(message) is Some,
    ensures
        text::is_word(handle_of(mod_command(message)->0)),
        handle_of(mod_command(message)->0)[0] != '@',
{
    let t = text::trimmed(message);
    let first = if text::has_command_word(t, "!ban"@) {
        let args = text::trimmed(t.skip(5));
        text::lemma_word_len(args);
        let w = args.take(text::word_len(args) as int);
        assert forall|i: int| 0 <= i < w.len() implies !text::is_white_space(#[trigger] w[i]) by {
            assert(w[i] == args[i]);
        }
        w
    } else {
        let args = text::trimmed(t.skip(9));
        let rest = text::trimmed_start(args);
        text::lemma_word_len(rest);
        let w = rest.take(text::word_len(rest) as int);
        assert(text::words(args)[0] == w);
        assert forall|i: int| 0 <= i < w.len() implies !text::is_white_space(#[trigger] w[i]) by {
            assert(w[i] == rest[i]);
        }
        w
    };
    text::lemma_without_ats(first);
    let handle = text::without_ats(first);
    let k = first.len() - handle.len();
    assert forall|i: int| 0 <= i < handle.len() implies !text::is_white_space(
        #[trigger] handle[i],
    ) by {
        assert(handle[i] == first[i + k]);
    }
}

/// White space around a message changes nothing.
pub proof fn law_surrounding_space(l: Seq<char>, message: Seq<char>, r: Seq<char>)
    requires
        text::is_blank(l),
        text::is_blank(r),
    ensures
        is_readable(l + message + r) == is_readable(message),
        mod_command(l + message + r) == mod_command(message),
{
    text::lemma_trimmed_padded(l, message, r);
}

/// A message that does not begin with `!` is readable and gives no command.
pub proof fn law_plain_message(message: Seq<char>)
    requires
        text::trimmed(message).len() == 0 || text::trimmed(message)[0] != '!',
    ensures
        is_readable(message),
        mod_command(message) is None,
{
    reveal_strlit("!ban");
    reveal_strlit("!timeout");
    let t = text::trimmed(message);
    if text::has_command_word(t, "!ban"@) || text::has_command_word(t, "!timeout"@) {
        assert(text::ascii_lower(t[0]) == '!');
    }
}

proof fn lemma_trimmed_behind_word(w: Seq<char>, rest: Seq<char>)
    requires
        text::is_word(w),
    ensures
        text::trimmed(w + rest) == w + text::trimmed_end(rest),
{
    let s = w + rest;
    assert(s[0] == w[0]);
    assert(text::trimmed_start(s) == s);
    text::lemma_trimmed_end(rest);
    let k = text::trimmed_end(rest).len() as int;
    let b = w.len() + k;
    assert forall|i: int| b <= i < s.len() implies text::is_white_space(#[trigger] s[i]) by {
        assert(s[i] == rest[i - w.len()]);
    }
    if k == 0 {
        assert(s[b - 1] == w.last());
    } else {
        assert(s[b - 1] == text::trimmed_end(rest).last());
    }
    text::lemma_trimmed_end_at(s, b);
    assert(s.take(b) =~= w + text::trimmed_end(rest));
}

/// The case of the letters of a command word does not matter.
pub proof fn law_command_word_case(word: Seq<char>, other: Seq<char>, rest: Seq<char>)
    requires
        text::same_ignoring_case(word, "!ban"@) || text::same_ignoring_case(word, "!timeout"@),
        text::same_ignoring_case(word, other),
    ensures
        is_readable(word + rest) == is_readable(other + rest),
        is_readable(word + rest) ==> mod_command(word + rest) == mod_command(other + rest),
{
    reveal_strlit("!ban");
    reveal_strlit("!timeout");
    assert(text::is_word(word)) by {
        assert forall|i: int| 0 <= i < word.len() implies !text::is_white_space(
            #[trigger] word[i],
        ) by {
            assert(text::ascii_lower(word[i]) != ' ');
        }
    }
    assert(text::is_word(other)) by {
        assert forall|i: int| 0 <= i < other.len() implies !text::is_white_space(
            #[trigger] other[i],
        ) by {
            assert(text::ascii_lower(word[i]) == text::ascii_lower(other[i]));
        }
    }
    lemma_trimmed_behind_word(word, rest);
    lemma_trimmed_behind_word(other, rest);
    let e = text::trimmed_end(rest);
    let n = word.len() as int;
    let s = word + e;
    let t = other + e;
    assert forall|i: int| 0 <= i < s.len() implies text::ascii_lower(#[trigger] s[i])
        == text::ascii_lower(t[i]) by {
        if i < n {
            assert(text::ascii_lower(word[i]) == text::ascii_lower(other[i]));
        } else {
            assert(s[i] == e[i - n]);
        }
    }
    assert(text::has_command_word(s, "!ban"@) == text::has_command_word(t, "!ban"@)) by {
        if text::has_command_word(s, "!ban"@) {
            assert forall|i: int| 0 <= i < 4 implies text::ascii_lower(#[trigger] t[i])
                == "!ban"@[i] by {
                assert(text::ascii_lower(s[i]) == "!ban"@[i]);
            }
        }
    }
    assert(text::has_command_word(s, "!timeout"@) == text::has_command_word(t, "!timeout"@)) by {
        if text::has_command_word(s, "!timeout"@) {
            assert forall|i: int| 0 <= i < 8 implies text::ascii_lower(#[trigger] t[i])
                == "!timeout"@[i] by {
                assert(text::ascii_lower(s[i]) == "!timeout"@[i]);
            }
        }
    }
    if text::same_ignoring_case(word, "!ban"@) {
        assert(n == 4);
        assert forall|i: int| 0 <= i < 4 implies text::ascii_lower(#[trigger] s[i])
            == "!ban"@[i] by {
            assert(s[i] == word[i]);
            assert(text::ascii_lower("!ban"@[i]) == "!ban"@[i]);
        }
        assert(text::has_command_word(s, "!ban"@));
        if s.len() > 4 {
            assert(s.skip(5) =~= t.skip(5));
            assert(s[4] == e[0]);
            assert(t[4] == e[0]);
        }
    } else {
        assert(n == 8);
        assert(text::ascii_lower(s[1]) == text::ascii_lower(word[1]));
        assert(!text::has_command_word(s, "!ban"@));
        if s.len() > 8 {
            assert(s.skip(9) =~= t.skip(9));
            assert(s[8] == e[0]);
            assert(t[8] == e[0]);
        }
    }
}

/// A ban written as `!ban @handle reason` is read as a ban of that handle for that reason.
pub proof fn law_ban_is_read(handle: Seq<char>, reason: Seq<char>)
    requires
        text::is_word(handle),
        handle[0] != '@',
        text::is_trim(reason),
    ensures
        is_readable("!ban @"@ + handle + seq![' '] + reason),
        mod_command("!ban @"@ + handle + seq![' '] + reason) == Some(
            ModCommandView::Ban { handle, reason },
        ),
{
    reveal_strlit("!ban @");
    reveal_strlit("!ban");
    let m = "!ban @"@ + handle + seq![' '] + reason;
    let w = seq!['@'] + handle;
    let t = if reason.len() > 0 {
        m
    } else {
        m.drop_last()
    };
    assert(text::trimmed(m) == t) by {
        if reason.len() > 0 {
            assert(m[0] == '!');
            assert(m.last() == reason.last());
            text::lemma_trimmed(m);
        } else {
            assert(t.last() == handle.last());
            assert(t[0] == '!');
            text::lemma_trimmed(t);
            assert(m =~= Seq::<char>::empty() + t + seq![' ']);
            text::lemma_trimmed_padded(Seq::empty(), t, seq![' ']);
        }
    }
    assert(text::has_command_word(t, "!ban"@)) by {
        assert forall|i: int| 0 <= i < 4 implies text::ascii_lower(#[trigger] t[i])
            == "!ban"@[i] by {
            assert(t[i] == "!ban @"@[i]);
        }
    }
    assert(t[4] == ' ');
    let args = t.skip(5);
    assert(args =~= if reason.len() > 0 {
        w + seq![' '] + reason
    } else {
        w
    });
    assert(args[0] == '@');
    assert(text::is_trim(args)) by {
        if reason.len() > 0 {
            assert(args.last() == reason.last());
        } else {
            assert(args.last() == handle.last());
        }
    }
    text::lemma_trimmed(args);
    let n = w.len() as int;
    assert forall|i: int| 0 <= i < n implies !text::is_white_space(#[trigger] args[i]) by {
        if i > 0 {
            assert(args[i] == handle[i - 1]);
        }
    }
    if reason.len() > 0 {
        assert(args[n] == ' ');
    }
    text::lemma_word_len_at(args, n);
    assert(args.take(n) =~= w);
    assert(w[1] == handle[0]);
    text::lemma_without_ats_at(w, 1);
    assert(w.skip(1) =~= handle);
    text::lemma_trimmed(reason);
    if reason.len() > 0 {
        assert(args.skip(n + 1) =~= reason);
    } else {
        assert(reason =~= Seq::empty());
    }
}

proof fn lemma_timeout_is_read(args: Seq<Seq<char>>)
    requires
        args.len() > 0,
        forall|i: int| 0 <= i < args.len() ==> text::is_word(#[trigger] args[i]),
    ensures
        is_readable("!timeout "@ + text::joined(args)),
        mod_command("!timeout "@ + text::joined(args)) == timeout_of(args),
{
    reveal_strlit("!timeout ");
    reveal_strlit("!timeout");
    reveal_strlit("!ban");
    text::lemma_words_joined(args);
    let body = text::joined(args);
    let t = "!timeout "@ + body;
    assert(t[0] == '!');
    assert(t.last() == body.last());
    text::lemma_trimmed(t);
    assert(text::has_command_word(t, "!timeout"@)) by {
        assert forall|i: int| 0 <= i < 8 implies text::ascii_lower(#[trigger] t[i])
            == "!timeout"@[i] by {
            assert(t[i] == "!timeout "@[i]);
        }
    }
    assert(!text::has_command_word(t, "!ban"@)) by {
        assert(text::ascii_lower(t[1]) == 't');
    }
    assert(t[8] == ' ');
    assert(t.skip(9) =~= body);
    text::lemma_trimmed(body);
}

proof fn lemma_handle_word(handle: Seq<char>)
    requires
        text::is_word(handle),
        handle[0] != '@',
    ensures
        text::is_word(seq!['@'] + handle),
        text::without_ats(seq!['@'] + handle) == handle,
{
    let w = seq!['@'] + handle;
    assert forall|i: int| 0 <= i < w.len() implies !text::is_white_space(#[trigger] w[i]) by {
        if i > 0 {
            assert(w[i] == handle[i - 1]);
        }
    }
    assert(w[1] == handle[0]);
    text::lemma_without_ats_at(w, 1);
    assert(w.skip(1) =~= handle);
}

/// A timeout written as `!timeout @handle seconds reason` is read as a timeout of that handle for
/// that long and for that reason.
pub proof fn law_timeout_is_read(handle: Seq<char>, secs: i64, reason: Seq<Seq<char>>)
    requires
        text::is_word(handle),
        handle[0] != '@',
        forall|i: int| 0 <= i < reason.len() ==> text::is_word(#[trigger] reason[i]),
    ensures
        ({
            let m = "!timeout "@ + text::joined(
                seq![seq!['@'] + handle, decimal::signed_text(secs as int)] + reason,
            );
            is_readable(m) && mod_command(m) == Some(
                ModCommandView::Timeout {
                    handle,
                    duration_secs: secs as int,
                    reason: text::joined(reason),
                },
            )
        }),
{
    let number = decimal::signed_text(secs as int);
    let args = seq![seq!['@'] + handle, number] + reason;
    lemma_handle_word(handle);
    decimal::lemma_signed_text(secs);
    lemma_number_is_word(secs);
    assert forall|i: int| 0 <= i < args.len() implies text::is_word(#[trigger] args[i]) by {
        if i >= 2 {
            assert(args[i] == reason[i - 2]);
        }
    }
    lemma_timeout_is_read(args);
    assert(args.skip(2) =~= reason);
}

/// A timeout without a number of seconds lasts as long as a timeout lasts by default.
pub proof fn law_timeout_by_default(handle: Seq<char>, reason: Seq<Seq<char>>)
    requires
        text::is_word(handle),
        handle[0] != '@',
        forall|i: int| 0 <= i < reason.len() ==> text::is_word(#[trigger] reason[i]),
        reason.len() > 0 ==> decimal::i64_value(reason[0]) is None,
    ensures
        ({
            let m = "!timeout "@ + text::joined(seq![seq!['@'] + handle] + reason);
            is_readable(m) && mod_command(m) == Some(
                ModCommandView::Timeout {
                    handle,
                    duration_secs: DEFAULT_TIMEOUT_SECS as int,
                    reason: text::joined(reason),
                },
            )
        }),
{
    let args = seq![seq!['@'] + handle] + reason;
    lemma_handle_word(handle);
    assert forall|i: int| 0 <= i < args.len() implies text::is_word(#[trigger] args[i]) by {
        if i >= 1 {
            assert(args[i] == reason[i - 1]);
        }
    }
    lemma_timeout_is_read(args);
    assert(args.skip(1) =~= reason);
}

proof fn lemma_number_is_word(n: i64)
    ensures
        text::is_word(decimal::signed_text(n as int)),
{
    let s = decimal::signed_text(n as int);
    let d = decimal::decimal_text(if n < 0 {
        (-(n as int)) as nat
    } else {
        n as nat
    });
    decimal::lemma_decimal_text(
        if n < 0 {
            (-(n as int)) as nat
        } else {
            n as nat
        },
    );
    assert forall|i: int| 0 <= i < s.len() implies !text::is_white_space(#[trigger] s[i]) by {
        if n < 0 {
            if i > 0 {
                assert(s[i] == d[i - 1]);
                assert(decimal::is_digit(d[i - 1]));
            }
        } else {
            assert(decimal::is_digit(d[i]));
        }
    }
}

/// What the engine is told of a command holds no number but integers, so it reads back as it was
/// written.
pub proof fn lemma_payload_is_plain(c: ModCommandView, author: Seq<char>)
    ensures
        json::without_reals(payload(c, author)),
{
    reveal_with_fuel(json::without_reals, 3);
}

/// The reason that a command gives.
pub open spec fn reason_of(c: ModCommandView) -> Seq<char> {
    match c {
        ModCommandView::Ban { reason, .. } => reason,
        ModCommandView::Timeout { reason, .. } => reason,
    }
}

/// What the engine is told of a command names the handle, the reason and, as the actor, whoever
/// gave the command; of a timeout it says how long it lasts.
pub proof fn law_payload_tells_the_command(c: ModCommandView, author: Seq<char>)
    ensures
        json::text_member(payload(c, author), "platform"@) == Some("kick"@),
        json::text_member(payload(c, author), "handle"@) == Some(handle_of(c)),
        json::text_member(payload(c, author), "reason"@) == Some(reason_of(c)),
        json::member(payload(c, author), "actor"@) == Some(kick_user(author)),
        json::text_member(kick_user(author), "platform"@) == Some("kick"@),
        json::text_member(kick_user(author), "handle"@) == Some(author),
        c matches ModCommandView::Timeout { duration_secs, .. } ==> json::member(
            payload(c, author),
            "duration_secs"@,
        ) == Some(JsonView::Integer(duration_secs)),
{
    reveal_strlit("platform");
    reveal_strlit("handle");
    reveal_strlit("reason");
    reveal_strlit("actor");
    reveal_strlit("duration_secs");
    assert("handle"@[0] != "reason"@[0]);
    assert("platform"@.len() == 8);
    assert("actor"@.len() == 5);
    assert("duration_secs"@.len() == 13);
}

proof fn lemma_small_words()
    ensures
        text::is_small("!ban"@),
        text::is_small("!timeout"@),
        "!ban"@.len() == 4,
        "!timeout"@.len() == 8,
        "!ban"@[0] == '!',
        "!timeout"@[0] == '!',
        "!ban"@[1] == 'b',
        "!timeout"@[1] == 't',
{
    reveal_strlit("!ban");
    reveal_strlit("!timeout");
}

/// A message is readable unless it begins with a command word, in small letters or capitals, that
/// nothing or a character of more than one byte follows; without a command word it gives no
/// command.
pub proof fn law_readable(
    message: &str,
    author: &str,
    l: Seq<char>,
    t: Seq<char>,
    r: Seq<char>,
    out: bool,
    command: Option<(String, Json)>,
)
    requires
        call_ensures(readable, (message,), out),
        message@ == l + t + r,
        text::is_blank(l),
        text::is_blank(r),
        text::is_trim(t),
        out ==> call_ensures(parse_mod_command, (message, author), command),
    ensures
        text::begins_with(t, "!ban"@) ==> out == (t.len() > 4 && (t[4] as u32) < 128),
        text::begins_with(t, "!timeout"@) ==> out == (t.len() > 8 && (t[8] as u32) < 128),
        !text::begins_with(t, "!ban"@) && !text::begins_with(t, "!timeout"@) ==> out && command
            is None,
{
    lemma_small_words();
    text::lemma_trimmed_padded(l, t, r);
    text::lemma_trimmed(t);
    text::lemma_command_word(t, "!ban"@);
    text::lemma_command_word(t, "!timeout"@);
    if text::begins_with(t, "!timeout"@) {
        assert(text::spells(t[1], "!timeout"@[1]));
        if text::begins_with(t, "!ban"@) {
            assert(text::spells(t[1], "!ban"@[1]));
        }
    }
}

/// Whether `v` tells of a ban: of whom, why, and who asked for it; and nothing else.
pub open spec fn tells_ban(
    v: JsonView,
    handle: Seq<char>,
    reason: Seq<char>,
    author: Seq<char>,
) -> bool {
    v matches JsonView::Object(m) && {
        &&& m.dom() =~= set!["platform"@, "handle"@, "reason"@, "actor"@]
        &&& m["platform"@] == JsonView::Text("kick"@)
        &&& m["handle"@] == JsonView::Text(handle)
        &&& m["reason"@] == JsonView::Text(reason)
        &&& tells_actor(m["actor"@], author)
    }
}

/// Whether `v` tells of a timeout: of whom, for how long, why, and who asked for it; and nothing
/// else.
pub open spec fn tells_timeout(
    v: JsonView,
    handle: Seq<char>,
    secs: int,
    reason: Seq<char>,
    author: Seq<char>,
) -> bool {
    v matches JsonView::Object(m) && {
        &&& m.dom() =~= set!["platform"@, "handle"@, "duration_secs"@, "reason"@, "actor"@]
        &&& m["platform"@] == JsonView::Text("kick"@)
        &&& m["handle"@] == JsonView::Text(handle)
        &&& m["duration_secs"@] == JsonView::Integer(secs)
        &&& m["reason"@] == JsonView::Text(reason)
        &&& tells_actor(m["actor"@], author)
    }
}

/// Whether `v` names a user of Kick, and nothing else.
pub open spec fn tells_actor(v: JsonView, author: Seq<char>) -> bool {
    v matches JsonView::Object(m) && {
        &&& m.dom() =~= set!["platform"@, "handle"@]
        &&& m["platform"@] == JsonView::Text("kick"@)
        &&& m["handle"@] == JsonView::Text(author)
    }
}

proof fn lemma_payload_tells(handle: Seq<char>, secs: int, reason: Seq<char>, author: Seq<char>)
    ensures
        tells_ban(payload(ModCommandView::Ban { handle, reason }, author), handle, reason, author),
        tells_timeout(
            payload(ModCommandView::Timeout { handle, duration_secs: secs, reason }, author),
            handle,
            secs,
            reason,
            author,
        ),
{
    reveal_strlit("platform");
    reveal_strlit("handle");
    reveal_strlit("reason");
    reveal_strlit("actor");
    reveal_strlit("duration_secs");
    assert("handle"@[0] != "reason"@[0]);
    assert("platform"@.len() == 8);
    assert("actor"@.len() == 5);
    assert("duration_secs"@.len() == 13);
}

/// Whatever a command says, the engine's query for a ban is named `mod_ban` and that for a timeout
/// `mod_timeout`, and the query tells all of the command.
pub proof fn law_query_of_a_command(c: ModCommand, author: &str, name: String, told: Json)
    requires
        call_ensures(ModCommand::query_id, (&c,), name),
        call_ensures(ModCommand::payload, (&c, author), told),
    ensures
        match c {
            ModCommand::Ban { handle, reason } => name@ == "mod_ban"@ && tells_ban(
                told@,
                handle@,
                reason@,
                author@,
            ),
            ModCommand::Timeout { handle, duration_secs, reason } => name@ == "mod_timeout"@
                && tells_timeout(told@, handle@, duration_secs as int, reason@, author@),
        },
{
    match c {
        ModCommand::Ban { handle, reason } => {
            lemma_payload_tells(handle@, 0, reason@, author@);
        },
        ModCommand::Timeout { handle, duration_secs, reason } => {
            lemma_payload_tells(handle@, duration_secs as int, reason@, author@);
        },
    }
}

/// Whether `ats` is `@` signs only.
pub open spec fn are_ats(ats: Seq<char>) -> bool {
    forall|i: int| 0 <= i < ats.len() ==> #[trigger] ats[i] == '@'
}

proof fn lemma_first_argument(ats: Seq<char>, handle: Seq<char>)
    requires
        are_ats(ats),
        text::is_word(handle),
        handle[0] != '@',
    ensures
        text::is_word(ats + handle),
        text::without_ats(ats + handle) == handle,
{
    let w = ats + handle;
    let n = ats.len() as int;
    assert forall|i: int| 0 <= i < w.len() implies !text::is_white_space(#[trigger] w[i]) by {
        if i < n {
            assert(w[i] == ats[i]);
        } else {
            assert(w[i] == handle[i - n]);
        }
    }
    assert(w[n] == handle[0]);
    assert forall|i: int| 0 <= i < n implies #[trigger] w[i] == '@' by {
        assert(w[i] == ats[i]);
    }
    text::lemma_without_ats_at(w, n);
    assert(w.skip(n) =~= handle);
}

proof fn lemma_behind_command_word(word: Seq<char>, name: Seq<char>, c: char, rest: Seq<char>)
    requires
        name == "!ban"@ || name == "!timeout"@,
        word.len() == name.len(),
        text::begins_with(word, name),
        rest.len() > 0 ==> !text::is_white_space(rest.last()),
        rest.len() == 0 ==> !text::is_white_space(c),
        (c as u32) < 128,
    ensures
        ({
            let t = word + seq![c] + rest;
            &&& text::is_trim(t)
            &&& text::has_command_word(t, "!ban"@) == (name == "!ban"@)
            &&& text::has_command_word(t, "!timeout"@) == (name == "!timeout"@)
            &&& t.skip(name.len() as int + 1) == rest
            &&& has_separator(t, name.len() as int)
        }),
{
    lemma_small_words();
    let t = word + seq![c] + rest;
    assert(text::spells(word[0], name[0]));
    assert(t[0] == '!');
    if rest.len() > 0 {
        assert(t.last() == rest.last());
    } else {
        assert(t.last() == c);
    }
    assert(t.skip(name.len() as int + 1) =~= rest);
    assert(t[name.len() as int] == c);
    assert forall|i: int| 0 <= i < name.len() implies text::spells(#[trigger] t[i], name[i]) by {
        assert(t[i] == word[i]);
    }
    text::lemma_command_word(t, "!ban"@);
    text::lemma_command_word(t, "!timeout"@);
    assert(text::spells(t[1], name[1]));
    if text::begins_with(t, "!ban"@) {
        assert(text::spells(t[1], "!ban"@[1]));
    }
    if text::begins_with(t, "!timeout"@) {
        assert(text::spells(t[1], "!timeout"@[1]));
    }
}

/// A ban is read, however it is written: white space around it, the command word in small letters
/// or capitals, a separator of one byte, any number of `@` signs in front of the handle, and any
/// white space in front of the reason. The engine's query for it is `mod_ban`, and tells the handle
/// without its `@` signs, the reason as it is written, and the author.
pub proof fn law_ban_in_any_form(
    message: &str,
    author: &str,
    l: Seq<char>,
    word: Seq<char>,
    c: char,
    gap: Seq<char>,
    ats: Seq<char>,
    handle: Seq<char>,
    space: Seq<char>,
    reason: Seq<char>,
    r: Seq<char>,
    out: bool,
    command: Option<(String, Json)>,
)
    requires
        message@ == l + (word + seq![c] + gap + ats + handle + space + reason) + r,
        text::is_blank(l),
        text::is_blank(r),
        word.len() == 4,
        text::begins_with(word, "!ban"@),
        (c as u32) < 128,
        text::is_blank(gap),
        are_ats(ats),
        text::is_word(handle),
        handle[0] != '@',
        text::is_blank(space),
        text::is_trim(reason),
        reason.len() > 0 ==> space.len() > 0,
        call_ensures(readable, (message,), out),
        out ==> call_ensures(parse_mod_command, (message, author), command),
    ensures
        out,
        command matches Some(q) && q.0@ == "mod_ban"@ && tells_ban(q.1@, handle, reason, author@),
{
    lemma_small_words();
    lemma_payload_tells(handle, 0, reason, author@);
    lemma_first_argument(ats, handle);
    let w = ats + handle;
    let n = w.len() as int;
    let inner = if reason.len() > 0 {
        w + space + reason
    } else {
        w
    };
    let rest = gap + inner;
    let t = word + seq![c] + rest;
    let after = if reason.len() > 0 {
        r
    } else {
        space + r
    };
    assert(inner[0] == w[0]);
    assert(w.last() == handle.last());
    assert(inner.last() == if reason.len() > 0 {
        reason.last()
    } else {
        handle.last()
    });
    assert(rest.last() == inner.last());
    lemma_behind_command_word(word, "!ban"@, c, rest);
    assert forall|i: int| 0 <= i < after.len() implies text::is_white_space(#[trigger] after[i]) by {
        if reason.len() == 0 {
            if i < space.len() {
                assert(after[i] == space[i]);
            } else {
                assert(after[i] == r[i - space.len()]);
            }
        }
    }
    assert(reason.len() == 0 ==> reason =~= Seq::empty());
    assert(message@ =~= l + t + after);
    text::lemma_trimmed_padded(l, t, after);
    text::lemma_trimmed(t);
    assert(text::is_trim(inner));
    assert(rest =~= gap + inner + Seq::<char>::empty());
    text::lemma_trimmed_padded(gap, inner, Seq::empty());
    text::lemma_trimmed(inner);
    assert forall|i: int| 0 <= i < n implies !text::is_white_space(#[trigger] inner[i]) by {
        assert(inner[i] == w[i]);
    }
    if reason.len() > 0 {
        assert(inner[n] == space[0]);
        let s = space.skip(1);
        assert forall|i: int| 0 <= i < s.len() implies text::is_white_space(#[trigger] s[i]) by {
            assert(s[i] == space[i + 1]);
        }
        assert(inner.skip(n + 1) =~= s + reason + Seq::<char>::empty());
        text::lemma_trimmed_padded(s, reason, Seq::empty());
        text::lemma_trimmed(reason);
    } else {
        text::lemma_trimmed(Seq::<char>::empty());
    }
    text::lemma_word_len_at(inner, n);
    assert(inner.take(n) =~= w);
    assert(mod_command(message@) == Some(ModCommandView::Ban { handle, reason }));
}

proof fn lemma_spaced_last(gaps: Seq<Seq<char>>, list: Seq<Seq<char>>)
    requires
        gaps.len() == list.len(),
        list.len() > 0,
        forall|i: int| 0 <= i < list.len() ==> text::is_word(#[trigger] list[i]),
    ensures
        text::spaced(gaps, list, Seq::empty()).len() > 0,
        !text::is_white_space(text::spaced(gaps, list, Seq::empty()).last()),
    decreases list.len(),
{
    let s = text::spaced(gaps, list, Seq::empty());
    let rest = text::spaced(gaps.skip(1), list.skip(1), Seq::empty());
    assert(text::is_word(list[0]));
    if list.len() > 1 {
        assert forall|i: int| 0 <= i < list.skip(1).len() implies text::is_word(
            #[trigger] list.skip(1)[i],
        ) by {
            assert(list.skip(1)[i] == list[i + 1]);
        }
        lemma_spaced_last(gaps.skip(1), list.skip(1));
        assert(s.last() == rest.last());
    } else {
        assert(rest.len() == 0);
        assert(s =~= gaps[0] + list[0]);
        assert(s.last() == list[0].last());
    }
}

proof fn lemma_timeout_words(
    message: Seq<char>,
    l: Seq<char>,
    word: Seq<char>,
    c: char,
    gaps: Seq<Seq<char>>,
    list: Seq<Seq<char>>,
    r: Seq<char>,
)
    requires
        message == l + (word + seq![c] + text::spaced(gaps, list, Seq::empty())) + r,
        text::is_blank(l),
        text::is_blank(r),
        word.len() == 8,
        text::begins_with(word, "!timeout"@),
        (c as u32) < 128,
        gaps.len() == list.len(),
        list.len() > 0,
        text::are_gaps(gaps),
        forall|i: int| 0 <= i < list.len() ==> text::is_word(#[trigger] list[i]),
    ensures
        is_readable(message),
        mod_command(message) == timeout_of(list),
{
    lemma_small_words();
    let rest = text::spaced(gaps, list, Seq::empty());
    lemma_spaced_last(gaps, list);
    lemma_behind_command_word(word, "!timeout"@, c, rest);
    let t = word + seq![c] + rest;
    text::lemma_trimmed_padded(l, t, r);
    text::lemma_trimmed(t);
    let bare = seq![Seq::<char>::empty()] + gaps.skip(1);
    let inner = text::spaced(bare, list, Seq::empty());
    assert(bare.skip(1) =~= gaps.skip(1));
    assert(bare[0] == Seq::<char>::empty());
    assert(rest =~= gaps[0] + inner + Seq::<char>::empty());
    assert(text::is_word(list[0]));
    assert(inner[0] == list[0][0]);
    lemma_spaced_last(bare, list);
    assert(text::is_blank(gaps[0]));
    text::lemma_trimmed_padded(gaps[0], inner, Seq::empty());
    text::lemma_trimmed(inner);
    assert forall|i: int| 0 <= i < bare.len() implies text::is_blank(#[trigger] bare[i]) && (i > 0
        ==> bare[i].len() > 0) by {
        if i > 0 {
            assert(bare[i] == gaps[i]);
        }
    }
    text::lemma_words_spaced_out(bare, list, Seq::empty());
}

/// A timeout is read, however it is written: white space around it and between its words, the
/// command word in small letters or capitals, a separator of one byte, and any number of `@` signs
/// in front of the handle. A number behind the handle is the number of seconds, else they are 300;
/// the words that are left are the reason, one space apart. The engine's query for it is
/// `mod_timeout`, and tells all that and the author.
pub proof fn law_timeout_in_any_form(
    message: &str,
    author: &str,
    l: Seq<char>,
    word: Seq<char>,
    c: char,
    gaps: Seq<Seq<char>>,
    list: Seq<Seq<char>>,
    ats: Seq<char>,
    handle: Seq<char>,
    r: Seq<char>,
    out: bool,
    command: Option<(String, Json)>,
)
    requires
        message@ == l + (word + seq![c] + text::spaced(gaps, list, Seq::empty())) + r,
        text::is_blank(l),
        text::is_blank(r),
        word.len() == 8,
        text::begins_with(word, "!timeout"@),
        (c as u32) < 128,
        gaps.len() == list.len(),
        list.len() > 0,
        text::are_gaps(gaps),
        forall|i: int| 0 <= i < list.len() ==> text::is_word(#[trigger] list[i]),
        list[0] == ats + handle,
        are_ats(ats),
        text::is_word(handle),
        handle[0] != '@',
        call_ensures(readable, (message,), out),
        out ==> call_ensures(parse_mod_command, (message, author), command),
    ensures
        out,
        command matches Some(q) && q.0@ == "mod_timeout"@ && (if list.len() > 1
            && decimal::i64_value(list[1]) is Some {
            tells_timeout(
                q.1@,
                handle,
                decimal::i64_value(list[1])->0 as int,
                text::joined(list.skip(2)),
                author@,
            )
        } else {
            tells_timeout(q.1@, handle, 300, text::joined(list.skip(1)), author@)
        }),
{
    lemma_timeout_words(message@, l, word, c, gaps, list, r);
    lemma_first_argument(ats, handle);
    if list.len() > 1 && decimal::i64_value(list[1]) is Some {
        lemma_payload_tells(
            handle,
            decimal::i64_value(list[1])->0 as int,
            text::joined(list.skip(2)),
            author@,
        );
    } else {
        lemma_payload_tells(handle, 300, text::joined(list.skip(1)), author@);
    }
}

/// A command word with nothing but `@` signs where the handle should stand gives no command.
pub proof fn law_no_handle_no_command(
    message: &str,
    author: &str,
    l: Seq<char>,
    word: Seq<char>,
    c: char,
    gaps: Seq<Seq<char>>,
    list: Seq<Seq<char>>,
    r: Seq<char>,
    command: Option<(String, Json)>,
)
    requires
        message@ == l + (word + seq![c] + text::spaced(gaps, list, Seq::empty())) + r,
        text::is_blank(l),
        text::is_blank(r),
        word.len() == 8 && text::begins_with(word, "!timeout"@) || word.len() == 4
            && text::begins_with(word, "!ban"@),
        (c as u32) < 128,
        gaps.len() == list.len(),
        text::are_gaps(gaps),
        forall|i: int| 0 <= i < list.len() ==> text::is_word(#[trigger] list[i]),
        list.len() > 0 ==> are_ats(list[0]),
        list.len() == 0 ==> !text::is_white_space(c),
        call_ensures(parse_mod_command, (message, author), command),
    ensures
        command is None,
{
    lemma_small_words();
    let rest = text::spaced(gaps, list, Seq::empty());
    let name = if word.len() == 4 {
        "!ban"@
    } else {
        "!timeout"@
    };
    if list.len() > 0 {
        lemma_spaced_last(gaps, list);
        text::lemma_without_ats_at(list[0], list[0].len() as int);
    }
    lemma_behind_command_word(word, name, c, rest);
    let t = word + seq![c] + rest;
    text::lemma_trimmed_padded(l, t, r);
    text::lemma_trimmed(t);
    if word.len() == 8 {
        if list.len() > 0 {
            lemma_timeout_words(message@, l, word, c, gaps, list, r);
        } else {
            text::lemma_trimmed(rest);
            text::lemma_words_blank(rest, Seq::empty());
        }
    } else if list.len() > 0 {
        let behind = text::spaced(gaps.skip(1), list.skip(1), Seq::empty());
        let inner = list[0] + behind;
        assert(rest =~= gaps[0] + inner + Seq::<char>::empty());
        assert(text::is_word(list[0]));
        assert(text::is_blank(gaps[0]));
        assert(inner[0] == list[0][0]);
        assert(inner.last() == rest.last());
        text::lemma_trimmed_padded(gaps[0], inner, Seq::empty());
        text::lemma_trimmed(inner);
        let n = list[0].len() as int;
        assert forall|i: int| 0 <= i < n implies !text::is_white_space(#[trigger] inner[i]) by {
            assert(inner[i] == list[0][i]);
        }
        if inner.len() > n {
            assert(gaps[1].len() > 0);
            assert(inner[n] == behind[0]);
            assert(gaps.skip(1)[0] == gaps[1]);
            assert(behind[0] == gaps[1][0]);
            assert(text::is_white_space(gaps[1][0]));
        }
        text::lemma_word_len_at(inner, n);
        assert(inner.take(n) =~= list[0]);
    } else {
        text::lemma_trimmed(rest);
    }
}

} // verus!
