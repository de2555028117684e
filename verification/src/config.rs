//! The adapter's settings: where they are read from and where they are kept.
//!
//! The channel name is public and stands in the configuration file; the client id, the client
//! secret and the OAuth token are secrets and stand in the environment.

use crate::json;
use crate::json::{Json, JsonView};
use crate::text;
use vstd::prelude::*;

verus! {

/// The settings of the adapter.
#[derive(Debug, PartialEq)]
pub struct KickAdapterConfig {
    pub channel_name: Option<String>,
    pub client_id: Option<String>,
    pub client_secret: Option<String>,
    pub oauth_token: Option<String>,
}

/// The settings that the environment holds: `KICK_CHANNEL_NAME`, `KICK_CLIENT_ID`,
/// `KICK_CLIENT_SECRET` and `KICK_OAUTH_TOKEN`, as far as they are set.
#[derive(Debug, PartialEq)]
pub struct AdapterEnv {
    pub channel_name: Option<String>,
    pub client_id: Option<String>,
    pub client_secret: Option<String>,
    pub oauth_token: Option<String>,
}

/// Four optional settings as text.
pub struct SettingsView {
    pub channel_name: Option<Seq<char>>,
    pub client_id: Option<Seq<char>>,
    pub client_secret: Option<Seq<char>>,
    pub oauth_token: Option<Seq<char>>,
}

impl View for KickAdapterConfig {
    type V = SettingsView;

    open spec fn view(&self) -> SettingsView {
        SettingsView {
            channel_name: text::opt_view(self.channel_name),
            client_id: text::opt_view(self.client_id),
            client_secret: text::opt_view(self.client_secret),
            oauth_token: text::opt_view(self.oauth_token),
        }
    }
}

impl View for AdapterEnv {
    type V = SettingsView;

    open spec fn view(&self) -> SettingsView {
        SettingsView {
            channel_name: text::opt_view(self.channel_name),
            client_id: text::opt_view(self.client_id),
            client_secret: text::opt_view(self.client_secret),
            oauth_token: text::opt_view(self.oauth_token),
        }
    }
}

/// The channel name that a configuration document holds.
pub open spec fn channel_in(root: JsonView) -> Option<Seq<char>> {
    match json::member(root, "module_specific"@) {
        Some(section) => json::text_member(section, "channel_name"@),
        None => None,
    }
}

/// The channel name that the text of a configuration file holds, if there is such a file.
pub open spec fn configured_channel(config_text: Option<Seq<char>>) -> Option<Seq<char>> {
    match config_text {
        Some(t) => match json::json_of_text(t) {
            Some(root) => channel_in(root),
            None => None,
        },
        None => None,
    }
}

/// The settings that a configured channel name and the environment give together, if they are
/// enough to run on: a channel, a client id and a client secret.
pub open spec fn settings(configured: Option<Seq<char>>, env: SettingsView) -> Option<
    SettingsView,
> {
    let channel = match configured {
        Some(c) => c,
        None => text::or_empty(env.channel_name),
    };
    let client_id = text::or_empty(env.client_id);
    let client_secret = text::or_empty(env.client_secret);
    if channel.len() > 0 && client_id.len() > 0 && client_secret.len() > 0 {
        Some(
            SettingsView {
                channel_name: Some(channel),
                client_id: Some(client_id),
                client_secret: Some(client_secret),
                oauth_token: Some(text::or_empty(env.oauth_token)),
            },
        )
    } else {
        None
    }
}

/// The channel to begin with: that of the environment unless it is blank, else the configured one.
pub open spec fn first_channel(
    env_channel: Option<Seq<char>>,
    configured: Option<Seq<char>>,
) -> Seq<char> {
    if env_channel is Some && text::trimmed(env_channel->0).len() > 0 {
        env_channel->0
    } else {
        text::or_empty(configured)
    }
}

/// Whether a configuration document can take a setting.
pub open spec fn is_extensible(root: JsonView) -> bool {
    root is Object || root is Null
}

/// The section of the configuration that holds the channel name.
pub open spec fn channel_section(channel: Seq<char>) -> JsonView {
    JsonView::Object(map!["channel_name"@ => JsonView::Text(channel)])
}

/// A configuration document with another channel name; the rest of it stays as it is.
pub open spec fn with_channel(root: JsonView, channel: Seq<char>) -> JsonView {
    let members = match root {
        JsonView::Object(members) => members,
        _ => Map::empty(),
    };
    JsonView::Object(members.insert("module_specific"@, channel_section(channel)))
}

/// The configuration document that a new setting goes into: what the file holds, or an empty one.
pub open spec fn config_root(existing: Option<Seq<char>>) -> JsonView {
    match existing {
        Some(t) => match json::json_of_text(t) {
            Some(root) => root,
            None => JsonView::Object(Map::empty()),
        },
        None => JsonView::Object(Map::empty()),
    }
}

/// What is written when the settings are saved.
#[derive(Debug, PartialEq)]
pub struct SavedConfig {
    /// The new text of the configuration file.
    pub config_text: String,
    /// The names and values that go into the environment file.
    pub env_entries: Vec<(String, String)>,
}

/// The names and values that go into the environment file.
pub open spec fn env_file_entries(
    client_id: Seq<char>,
    client_secret: Seq<char>,
    oauth_token: Seq<char>,
) -> Seq<(Seq<char>, Seq<char>)> {
    seq![
        ("KICK_CLIENT_ID"@, client_id),
        ("KICK_CLIENT_SECRET"@, client_secret),
        ("KICK_OAUTH_TOKEN"@, oauth_token),
    ]
}

/// The channel name that a configuration document holds.
pub fn channel_from_config(root: &Json) -> (r: Option<String>)
    ensures
        text::opt_view(r) == channel_in(root@),
{
    match root.get("module_specific") {
        Some(section) => match section.text_at("channel_name") {
            Some(s) => Some(s.to_string()),
            None => None,
        },
        None => None,
    }
}

/// The channel name that the text of a configuration file holds, if there is such a file.
pub fn read_channel(config_text: Option<&str>) -> (r: Option<String>)
    ensures
        text::opt_view(r) == configured_channel(text::opt_str_view(config_text)),
{
    match config_text {
        Some(t) => match json::parse(t) {
            Some(root) => channel_from_config(&root),
            None => None,
        },
        None => None,
    }
}

/// The settings that a configured channel name and the environment give together, if they are
/// enough to run on.
pub fn combine_settings(configured: Option<String>, env: AdapterEnv) -> (r: Option<
    KickAdapterConfig,
>)
    ensures
        match r {
            Some(c) => settings(text::opt_view(configured), env@) == Some(c@),
            None => settings(text::opt_view(configured), env@) is None,
        },
{
    let channel = match configured {
        Some(c) => c,
        None => text::unwrap_text(env.channel_name),
    };
    let client_id = text::unwrap_text(env.client_id);
    let client_secret = text::unwrap_text(env.client_secret);
    if channel.as_str().is_empty() || client_id.as_str().is_empty()
        || client_secret.as_str().is_empty() {
        return None;
    }
    Some(
        KickAdapterConfig {
            channel_name: Some(channel),
            client_id: Some(client_id),
            client_secret: Some(client_secret),
            oauth_token: Some(text::unwrap_text(env.oauth_token)),
        },
    )
}

/// Loads the settings from the text of the configuration file and from the environment.
pub fn load_adapter_config(config_text: Option<&str>, env: AdapterEnv) -> (r: Option<
    KickAdapterConfig,
>)
    ensures
        match r {
            Some(c) => settings(configured_channel(text::opt_str_view(config_text)), env@) == Some(c@),
            None => settings(configured_channel(text::opt_str_view(config_text)), env@) is None,
        },
{
    combine_settings(read_channel(config_text), env)
}

/// The channel to begin with, for a configured channel name.
pub fn choose_channel(env_channel: Option<String>, configured: Option<String>) -> (r: String)
    ensures
        r@ == first_channel(text::opt_view(env_channel), text::opt_view(configured)),
{
    match env_channel {
        Some(c) => if !text::trim(c.as_str()).is_empty() {
            c
        } else {
            text::unwrap_text(configured)
        },
        None => text::unwrap_text(configured),
    }
}

/// The channel to begin with, for the text of the configuration file.
pub fn startup_channel(env_channel: Option<String>, config_text: Option<&str>) -> (r: String)
    ensures
        r@ == first_channel(
            text::opt_view(env_channel),
            configured_channel(text::opt_str_view(config_text)),
        ),
{
    choose_channel(env_channel, read_channel(config_text))
}

/// A configuration document with another channel name.
pub fn set_channel(root: Json, channel_name: &str) -> (r: Json)
    requires
        is_extensible(root@),
    ensures
        r@ == with_channel(root@, channel_name@),
        json::built_within(root, json::max_depth()) ==> json::built_within(r, json::max_depth()),
{
    let ghost before = root;
    let mut section: Vec<(String, Json)> = Vec::new();
    json::put(&mut section, "channel_name", json::text(channel_name));
    assert(json::entries_within(section@, (json::max_depth() - 2) as nat));
    let mut members: Vec<(String, Json)> = match root {
        Json::Object(entries) => entries,
        _ => Vec::new(),
    };
    assert(json::built_within(before, json::max_depth()) ==> json::entries_within(
        members@,
        (json::max_depth() - 1) as nat,
    ));
    json::put(&mut members, "module_specific", Json::Object(section));
    assert(json::built_within(before, json::max_depth()) ==> json::entries_within(
        members@,
        (json::max_depth() - 1) as nat,
    ));
    Json::Object(members)
}

/// Saves the settings: the channel name into the configuration file, whose text so far is
/// `existing`, and the secrets into the environment file. Nothing is saved where the
/// configuration file holds a document that is no object.
pub fn save_adapter_config(
    existing: Option<&str>,
    channel_name: &str,
    client_id: &str,
    client_secret: &str,
    oauth_token: &str,
) -> (r: Option<SavedConfig>)
    ensures
        r is Some <==> is_extensible(config_root(text::opt_str_view(existing))),
        match r {
            Some(saved) => {
                let root = config_root(text::opt_str_view(existing));
                &&& saved.config_text@ == json::pretty_text(with_channel(root, channel_name@))
                &&& json::reads_as(saved.config_text@, with_channel(root, channel_name@))
                &&& text::pairs_view(saved.env_entries@) == env_file_entries(
                    client_id@,
                    client_secret@,
                    oauth_token@,
                )
            },
            None => true,
        },
{
    let parsed: Option<Json> = match existing {
        Some(t) => json::parse(t),
        None => None,
    };
    let root: Json = match parsed {
        Some(root) => root,
        None => Json::Object(Vec::new()),
    };
    proof {
        assert(json::members_view(Seq::empty()) =~= Map::empty());
        assert(root@ == config_root(text::opt_str_view(existing)));
        assert(json::built_within(root, json::max_depth()));
    }
    let extensible: bool = match root {
        Json::Object(_) => true,
        Json::Null => true,
        _ => false,
    };
    if !extensible {
        return None;
    }
    let config_text = json::pretty(set_channel(root, channel_name));
    let mut env_entries: Vec<(String, String)> = Vec::new();
    env_entries.push(("KICK_CLIENT_ID".to_string(), client_id.to_string()));
    env_entries.push(("KICK_CLIENT_SECRET".to_string(), client_secret.to_string()));
    env_entries.push(("KICK_OAUTH_TOKEN".to_string(), oauth_token.to_string()));
    assert(text::pairs_view(env_entries@) =~= env_file_entries(client_id@, client_secret@, oauth_token@));
    Some(SavedConfig { config_text, env_entries })
}

/// Settings that are loaded always name a channel, a client id and a client secret.
pub proof fn law_settings_are_usable(configured: Option<Seq<char>>, env: SettingsView)
    ensures
        settings(configured, env) matches Some(s) ==> {
            &&& s.channel_name is Some && s.channel_name->0.len() > 0
            &&& s.client_id is Some && s.client_id->0.len() > 0
            &&& s.client_secret is Some && s.client_secret->0.len() > 0
            &&& s.oauth_token is Some
        },
{
}

/// A configuration without real numbers stays so when a channel name is saved in it.
pub proof fn lemma_with_channel_without_reals(root: JsonView, channel: Seq<char>)
    requires
        json::without_reals(root),
    ensures
        json::without_reals(with_channel(root, channel)),
{
    reveal_with_fuel(json::without_reals, 3);
    assert(json::without_reals(channel_section(channel)));
}

/// A saved channel name is the one that is read, whatever else the configuration holds.
pub proof fn law_saved_channel_is_loaded(
    saved_text: Seq<char>,
    root: JsonView,
    channel: Seq<char>,
)
    requires
        json::reads_as(saved_text, with_channel(root, channel)),
    ensures
        configured_channel(Some(saved_text)) == Some(channel),
{
    reveal_with_fuel(json::same_but_reals, 3);
    let w = json::json_of_text(saved_text)->0;
    let section = channel_section(channel);
    let m = with_channel(root, channel)->Object_0;
    let n = w->Object_0;
    assert(m.dom().contains("module_specific"@));
    assert(json::same_but_reals(m["module_specific"@], n["module_specific"@]));
    let read = n["module_specific"@];
    assert(section->Object_0.dom().contains("channel_name"@));
    assert(json::same_but_reals(
        section->Object_0["channel_name"@],
        read->Object_0["channel_name"@],
    ));
}

/// The environment as it is once the entries of the environment file are in it.
pub open spec fn with_env_entries(
    env: SettingsView,
    client_id: Seq<char>,
    client_secret: Seq<char>,
    oauth_token: Seq<char>,
) -> SettingsView {
    SettingsView {
        client_id: Some(client_id),
        client_secret: Some(client_secret),
        oauth_token: Some(oauth_token),
        ..env
    }
}

/// What was saved is what is loaded: the channel of the configuration file, and the secrets of the
/// environment file once they are in the environment, whatever channel the environment
/// names and whatever else the configuration holds.
pub proof fn law_saved_settings_are_loaded(
    saved_text: Seq<char>,
    root: JsonView,
    env: SettingsView,
    channel: Seq<char>,
    client_id: Seq<char>,
    client_secret: Seq<char>,
    oauth_token: Seq<char>,
)
    requires
        json::reads_as(saved_text, with_channel(root, channel)),
        channel.len() > 0,
        client_id.len() > 0,
        client_secret.len() > 0,
    ensures
        settings(
            configured_channel(Some(saved_text)),
            with_env_entries(env, client_id, client_secret, oauth_token),
        ) == Some(
            SettingsView {
                channel_name: Some(channel),
                client_id: Some(client_id),
                client_secret: Some(client_secret),
                oauth_token: Some(oauth_token),
            },
        ),
{
    law_saved_channel_is_loaded(saved_text, root, channel);
}

/// Saving a channel name leaves every other setting of the configuration as it is.
pub proof fn law_saving_keeps_other_settings(root: JsonView, channel: Seq<char>, key: Seq<char>)
    requires
        is_extensible(root),
        key != "module_specific"@,
    ensures
        json::member(with_channel(root, channel), key) == json::member(root, key),
{
}

/// Only the channel name that was saved last counts.
pub proof fn law_last_saved_channel_counts(root: JsonView, first: Seq<char>, second: Seq<char>)
    ensures
        with_channel(with_channel(root, first), second) == with_channel(root, second),
{
    let m = match root {
        JsonView::Object(members) => members,
        _ => Map::empty(),
    };
    assert(m.insert("module_specific"@, channel_section(first)).insert(
        "module_specific"@,
        channel_section(second),
    ) =~= m.insert("module_specific"@, channel_section(second)));
}

/// Whether `v` names `channel`: under `channel_name` of what stands under `module_specific`.
pub open spec fn names_channel(v: JsonView, channel: Seq<char>) -> bool {
    v matches JsonView::Object(m) && {
        &&& m.dom().contains("module_specific"@)
        &&& m["module_specific"@] matches JsonView::Object(s) && s.contains_pair(
            "channel_name"@,
            JsonView::Text(channel),
        )
    }
}

/// Whether the text of a configuration file names `channel`.
pub open spec fn file_names_channel(config_text: Option<&str>, channel: Seq<char>) -> bool {
    config_text matches Some(t) && json::json_of_text(t@) matches Some(root) && names_channel(
        root,
        channel,
    )
}

/// Whether the text of a configuration file names no channel.
pub open spec fn file_names_none(config_text: Option<&str>) -> bool {
    forall|channel: Seq<char>| !#[trigger] file_names_channel(config_text, channel)
}

proof fn lemma_configured(config_text: Option<&str>, channel: Seq<char>)
    ensures
        configured_channel(text::opt_str_view(config_text)) == Some(channel) <==> file_names_channel(
            config_text,
            channel,
        ),
        configured_channel(text::opt_str_view(config_text)) is None <==> file_names_none(
            config_text,
        ),
{
    let found = configured_channel(text::opt_str_view(config_text));
    assert forall|c: Seq<char>| found == Some(c) <==> #[trigger] file_names_channel(
        config_text,
        c,
    ) by {}
    if found is Some {
        assert(file_names_channel(config_text, found->0));
    }
}

/// The channel is read from `channel_name` under `module_specific` of the configuration file,
/// whatever else the file holds, and from nowhere else in it.
pub proof fn law_channel_is_read(
    config_text: Option<&str>,
    root: Json,
    channel: Seq<char>,
    from_text: Option<String>,
    from_root: Option<String>,
)
    requires
        call_ensures(read_channel, (config_text,), from_text),
        call_ensures(channel_from_config, (&root,), from_root),
    ensures
        file_names_channel(config_text, channel) ==> (from_text matches Some(c) && c@ == channel),
        from_text matches Some(c) ==> file_names_channel(config_text, c@),
        names_channel(root@, channel) ==> (from_root matches Some(c) && c@ == channel),
        from_root matches Some(c) ==> names_channel(root@, c@),
{
    lemma_configured(config_text, channel);
    if from_text is Some {
        lemma_configured(config_text, from_text->0@);
    }
}

/// Whether an optional text is there and not empty.
pub open spec fn is_set(s: Option<String>) -> bool {
    s matches Some(t) && t@.len() > 0
}

/// The settings are the channel of the configuration file and the secrets of the environment, each
/// as it is; the channel of the environment stands in where the file names none, and a missing
/// token is empty. There are none without a channel, a client id or a client secret.
pub proof fn law_settings_come_from_file_and_environment(
    config_text: Option<&str>,
    env: AdapterEnv,
    channel: Seq<char>,
    out: Option<KickAdapterConfig>,
)
    requires
        call_ensures(load_adapter_config, (config_text, env), out),
        file_names_channel(config_text, channel) || file_names_none(config_text) && match env.channel_name {
            Some(c) => channel == c@,
            None => channel.len() == 0,
        },
    ensures
        out is Some <==> channel.len() > 0 && is_set(env.client_id) && is_set(env.client_secret),
        out matches Some(s) ==> {
            &&& s.channel_name matches Some(c) && c@ == channel
            &&& s.client_id matches Some(c) && c@ == env.client_id->0@
            &&& s.client_secret matches Some(c) && c@ == env.client_secret->0@
            &&& s.oauth_token matches Some(c) && (env.oauth_token matches Some(t) ==> c@ == t@)
                && (env.oauth_token is None ==> c@.len() == 0)
        },
{
    lemma_configured(config_text, channel);
}

/// The same settings come of a channel name that is read already.
pub proof fn law_settings_come_from_both(
    configured: Option<String>,
    env: AdapterEnv,
    channel: Seq<char>,
    out: Option<KickAdapterConfig>,
)
    requires
        call_ensures(combine_settings, (configured, env), out),
        match (configured, env.channel_name) {
            (Some(c), _) => channel == c@,
            (None, Some(c)) => channel == c@,
            (None, None) => channel.len() == 0,
        },
    ensures
        out is Some <==> channel.len() > 0 && is_set(env.client_id) && is_set(env.client_secret),
        out matches Some(s) ==> {
            &&& s.channel_name matches Some(c) && c@ == channel
            &&& s.client_id matches Some(c) && c@ == env.client_id->0@
            &&& s.client_secret matches Some(c) && c@ == env.client_secret->0@
            &&& s.oauth_token matches Some(c) && (env.oauth_token matches Some(t) ==> c@ == t@)
                && (env.oauth_token is None ==> c@.len() == 0)
        },
{
}

/// The channel to begin with is that of the environment, as it is, unless it is white space only
/// or missing; then it is that of the configuration file, and where the file names none it is
/// empty.
pub proof fn law_channel_to_begin_with(
    env_channel: Option<String>,
    config_text: Option<&str>,
    configured: Option<String>,
    channel: Seq<char>,
    out: String,
    chosen: String,
)
    requires
        call_ensures(startup_channel, (env_channel, config_text), out),
        call_ensures(choose_channel, (env_channel, configured), chosen),
    ensures
        env_channel matches Some(c) && !text::is_blank(c@) ==> out@ == env_channel->0@ && chosen@
            == env_channel->0@,
        env_channel is None || text::is_blank(env_channel->0@) ==> {
            &&& file_names_channel(config_text, channel) ==> out@ == channel
            &&& file_names_none(config_text) ==> out@.len() == 0
            &&& configured matches Some(c) ==> chosen@ == c@
            &&& configured is None ==> chosen@.len() == 0
        },
{
    lemma_configured(config_text, channel);
    if env_channel is Some {
        let c = env_channel->0@;
        if text::is_blank(c) {
            text::lemma_trimmed_padded(c, Seq::empty(), Seq::empty());
            assert(c + Seq::<char>::empty() + Seq::<char>::empty() =~= c);
            text::lemma_trimmed(Seq::<char>::empty());
        } else if text::trimmed(c).len() == 0 {
            text::lemma_trimmed_start(c);
            let t = text::trimmed_start(c);
            text::lemma_trimmed_end(t);
            if t.len() > 0 {
                assert(text::is_white_space(t[0]));
            }
            assert(text::is_blank(c));
        }
    }
}

/// Whether `v` is the configuration `root` with the section of the adapter replaced by one that
/// names `channel` and holds nothing else; every other member is as it was.
pub open spec fn is_with_channel(root: JsonView, channel: Seq<char>, v: JsonView) -> bool {
    v matches JsonView::Object(m) && {
        &&& m.dom().contains("module_specific"@)
        &&& m["module_specific"@] matches JsonView::Object(s) && s.dom() =~= set![
            "channel_name"@,
        ] && s["channel_name"@] == JsonView::Text(channel)
        &&& forall|k: Seq<char>|
            k != "module_specific"@ ==> (#[trigger] m.dom().contains(k) <==> (root
                matches JsonView::Object(before) && before.dom().contains(k)))
        &&& forall|k: Seq<char>|
            k != "module_specific"@ && #[trigger] m.dom().contains(k) ==> m[k] == root->Object_0[k]
    }
}

/// A channel is saved under `channel_name` in the section `module_specific`, and the rest of the
/// configuration stays.
pub proof fn law_channel_is_set(root: Json, channel: &str, out: Json)
    requires
        root is Object || root is Null,
        call_ensures(set_channel, (root, channel), out),
    ensures
        is_with_channel(root@, channel@, out@),
{
}

/// Saving writes the configuration with the new channel: what the file held, where it held an
/// object, and else a document of the channel alone; nothing is saved where it held a document of
/// another kind. The secrets, each under its own name, are all that goes into the environment file.
pub proof fn law_what_is_saved(
    existing: Option<&str>,
    channel: &str,
    client_id: &str,
    client_secret: &str,
    oauth_token: &str,
    out: Option<SavedConfig>,
)
    requires
        call_ensures(
            save_adapter_config,
            (existing, channel, client_id, client_secret, oauth_token),
            out,
        ),
    ensures
        ({
            let held = match existing {
                Some(t) => json::json_of_text(t@),
                None => None,
            };
            &&& out is None <==> held is Some && !(held->0 is Object) && !(held->0 is Null)
            &&& out matches Some(saved) ==> exists|document: JsonView| {
                &&& #[trigger] json::pretty_text(document) == saved.config_text@
                &&& json::reads_as(saved.config_text@, document)
                &&& held matches Some(root) ==> is_with_channel(root, channel@, document)
                &&& held is None ==> is_with_channel(JsonView::Null, channel@, document)
            }
        }),
        out matches Some(saved) ==> {
            &&& saved.env_entries@.len() == 3
            &&& saved.env_entries@[0].0@ == "KICK_CLIENT_ID"@
            &&& saved.env_entries@[0].1@ == client_id@
            &&& saved.env_entries@[1].0@ == "KICK_CLIENT_SECRET"@
            &&& saved.env_entries@[1].1@ == client_secret@
            &&& saved.env_entries@[2].0@ == "KICK_OAUTH_TOKEN"@
            &&& saved.env_entries@[2].1@ == oauth_token@
        },
{
    if let Some(saved) = out {
        let root = config_root(text::opt_str_view(existing));
        let document = with_channel(root, channel@);
        assert(json::pretty_text(document) == saved.config_text@);
        let v = text::pairs_view(saved.env_entries@);
        assert(v.len() == 3);
        assert(v[0] == (saved.env_entries@[0].0@, saved.env_entries@[0].1@));
        assert(v[1] == (saved.env_entries@[1].0@, saved.env_entries@[1].1@));
        assert(v[2] == (saved.env_entries@[2].0@, saved.env_entries@[2].1@));
    }
}

/// What was saved is what is loaded, from the text that was saved and an environment that holds the
/// secrets that were saved, whatever channel the environment names.
pub proof fn law_saving_and_loading(
    existing: Option<&str>,
    channel: &str,
    client_id: &str,
    client_secret: &str,
    oauth_token: &str,
    saved: SavedConfig,
    saved_text: &str,
    env: AdapterEnv,
    out: Option<KickAdapterConfig>,
)
    requires
        call_ensures(
            save_adapter_config,
            (existing, channel, client_id, client_secret, oauth_token),
            Some(saved),
        ),
        saved_text@ == saved.config_text@,
        env.client_id matches Some(t) && t@ == client_id@,
        env.client_secret matches Some(t) && t@ == client_secret@,
        env.oauth_token matches Some(t) && t@ == oauth_token@,
        channel@.len() > 0,
        client_id@.len() > 0,
        client_secret@.len() > 0,
        call_ensures(load_adapter_config, (Some(saved_text), env), out),
    ensures
        out matches Some(s) && {
            &&& s.channel_name matches Some(t) && t@ == channel@
            &&& s.client_id matches Some(t) && t@ == client_id@
            &&& s.client_secret matches Some(t) && t@ == client_secret@
            &&& s.oauth_token matches Some(t) && t@ == oauth_token@
        },
{
    law_saved_channel_is_loaded(
        saved_text@,
        config_root(text::opt_str_view(existing)),
        channel@,
    );
}

} // verus!
