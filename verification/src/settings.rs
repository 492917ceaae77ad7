use vstd::prelude::*;

use crate::decimal::{signed_decimal_text, spec_signed_decimal};
use crate::designs::{codex_design, codex_id};
use crate::rotation::opt_texts;

verus! {

/// The characters of an optional string.
pub open spec fn opt_text(o: Option<String>) -> Option<Seq<char>> {
    match o {
        Some(s) => Some(s@),
        None => None,
    }
}

/// The settings record that the widget reads, as stored in
/// `widget-settings.json`. A field left out of the file is `None`.
pub struct WidgetSettings {
    pub active_design: String,
    pub enabled: Option<bool>,
    pub refresh_interval_secs: Option<u32>,
    pub widget_offset_px: Option<u32>,
    pub rotation_enabled: Option<bool>,
    pub rotation_interval_secs: Option<u32>,
    pub rotation_designs: Option<Vec<String>>,
    pub codex_api_endpoint: Option<String>,
    pub codex_project_filter: Option<String>,
    pub weather_city: Option<String>,
    pub weather_temp_unit: Option<String>,
    pub discord_enabled: Option<bool>,
    pub discord_background_enabled: Option<bool>,
    pub media_dark_mode: Option<bool>,
    pub discord_client_id: Option<String>,
    pub discord_client_secret: Option<String>,
    pub discord_redirect_uri: Option<String>,
}

/// What a settings record holds, as plain values.
pub struct WidgetSettingsView {
    pub active_design: Seq<char>,
    pub enabled: Option<bool>,
    pub refresh_interval_secs: Option<u32>,
    pub widget_offset_px: Option<u32>,
    pub rotation_enabled: Option<bool>,
    pub rotation_interval_secs: Option<u32>,
    pub rotation_designs: Option<Seq<Seq<char>>>,
    pub codex_api_endpoint: Option<Seq<char>>,
    pub codex_project_filter: Option<Seq<char>>,
    pub weather_city: Option<Seq<char>>,
    pub weather_temp_unit: Option<Seq<char>>,
    pub discord_enabled: Option<bool>,
    pub discord_background_enabled: Option<bool>,
    pub media_dark_mode: Option<bool>,
    pub discord_client_id: Option<Seq<char>>,
    pub discord_client_secret: Option<Seq<char>>,
    pub discord_redirect_uri: Option<Seq<char>>,
}

impl View for WidgetSettings {
    type V = WidgetSettingsView;

    open spec fn view(&self) -> WidgetSettingsView {
        WidgetSettingsView {
            active_design: self.active_design@,
            enabled: self.enabled,
            refresh_interval_secs: self.refresh_interval_secs,
            widget_offset_px: self.widget_offset_px,
            rotation_enabled: self.rotation_enabled,
            rotation_interval_secs: self.rotation_interval_secs,
            rotation_designs: opt_texts(self.rotation_designs),
            codex_api_endpoint: opt_text(self.codex_api_endpoint),
            codex_project_filter: opt_text(self.codex_project_filter),
            weather_city: opt_text(self.weather_city),
            weather_temp_unit: opt_text(self.weather_temp_unit),
            discord_enabled: self.discord_enabled,
            discord_background_enabled: self.discord_background_enabled,
            media_dark_mode: self.media_dark_mode,
            discord_client_id: opt_text(self.discord_client_id),
            discord_client_secret: opt_text(self.discord_client_secret),
            discord_redirect_uri: opt_text(self.discord_redirect_uri),
        }
    }
}

/// The record used when no settings file can be read: the Codex widget and
/// nothing else.
pub open spec fn fallback_settings_view() -> WidgetSettingsView {
    WidgetSettingsView {
        active_design: codex_id(),
        enabled: None,
        refresh_interval_secs: None,
        widget_offset_px: None,
        rotation_enabled: None,
        rotation_interval_secs: None,
        rotation_designs: None,
        codex_api_endpoint: None,
        codex_project_filter: None,
        weather_city: None,
        weather_temp_unit: None,
        discord_enabled: None,
        discord_background_enabled: None,
        media_dark_mode: None,
        discord_client_id: None,
        discord_client_secret: None,
        discord_redirect_uri: None,
    }
}

/// The JSON text written when the settings record cannot be serialised.
pub open spec fn fallback_json() -> Seq<char> {
    "{\"activeDesign\":\""@ + codex_id() + "\"}"@
}

/// The contents of `widget-settings.json`: the serialised record, or the
/// fallback JSON when serialising failed, then a line break.
pub open spec fn spec_settings_file_text(serialized: Option<Seq<char>>) -> Seq<char> {
    match serialized {
        Some(data) => data + "\n"@,
        None => fallback_json() + "\n"@,
    }
}

impl WidgetSettings {
    /// The record used when no settings file can be read.
    pub fn fallback() -> (s: WidgetSettings)
        ensures
            s@ == fallback_settings_view(),
    {
        WidgetSettings {
            active_design: codex_design().to_owned(),
            enabled: None,
            refresh_interval_secs: None,
            widget_offset_px: None,
            rotation_enabled: None,
            rotation_interval_secs: None,
            rotation_designs: None,
            codex_api_endpoint: None,
            codex_project_filter: None,
            weather_city: None,
            weather_temp_unit: None,
            discord_enabled: None,
            discord_background_enabled: None,
            media_dark_mode: None,
            discord_client_id: None,
            discord_client_secret: None,
            discord_redirect_uri: None,
        }
    }
}

/// The record read from the settings file: what could be parsed, or the
/// fallback record when the file was missing or did not parse.
pub fn settings_or_fallback(parsed: Option<WidgetSettings>) -> (s: WidgetSettings)
    ensures
        s@ == match parsed {
            Some(p) => p@,
            None => fallback_settings_view(),
        },
{
    match parsed {
        Some(p) => p,
        None => WidgetSettings::fallback(),
    }
}

/// The text to write to the settings file, given what serialising the record
/// gave (`None` when it failed).
pub fn settings_file_text(serialized: Option<String>) -> (text: String)
    ensures
        text@ == spec_settings_file_text(opt_text(serialized)),
        serialized matches Some(data) ==> text@ == data@.push('\n'),
        serialized is None ==> text@ == fallback_json().push('\n'),
{
    match serialized {
        Some(data) => {
            proof {
                reveal_strlit("\n");
            }
            let text = data.concat("\n");
            assert(text@ =~= data@.push('\n'));
            text
        },
        None => {
            let mut text = String::new();
            text.append("{\"activeDesign\":\"");
            text.append(codex_design());
            text.append("\"}");
            text.append("\n");
            assert(text@ =~= fallback_json() + "\n"@);
            proof {
                reveal_strlit("\n");
            }
            assert(text@ =~= fallback_json().push('\n'));
            text
        },
    }
}

/// What `update-status.json` reports about the last update check. A field
/// left out of the file is `None`.
pub struct UpdateStatus {
    pub state: Option<String>,
    pub current_version: Option<String>,
    pub latest_version: Option<String>,
    pub update_available: Option<bool>,
    pub message: Option<String>,
    pub updated_at_unix: Option<i64>,
}

impl UpdateStatus {
    /// The report used when the status file is missing or does not parse.
    pub fn unknown() -> (u: UpdateStatus)
        ensures
            u.state is None,
            u.current_version is None,
            u.latest_version is None,
            u.update_available is None,
            u.message is None,
            u.updated_at_unix is None,
    {
        UpdateStatus {
            state: None,
            current_version: None,
            latest_version: None,
            update_available: None,
            message: None,
            updated_at_unix: None,
        }
    }
}

/// The lines the updates page shows for a status report.
pub struct UpdateSummary {
    pub current_version: String,
    pub latest_release: String,
    pub state: String,
    pub message: String,
    pub updated_at: Option<String>,
    pub can_install: bool,
}

/// The text of `o`, or `default` when there is none.
pub open spec fn text_or(o: Option<Seq<char>>, default: Seq<char>) -> Seq<char> {
    match o {
        Some(t) => t,
        None => default,
    }
}

/// The text of `o`, or `default` when there is none or it is empty.
pub open spec fn nonempty_text_or(o: Option<Seq<char>>, default: Seq<char>) -> Seq<char> {
    match o {
        Some(t) => if t.len() > 0 {
            t
        } else {
            default
        },
        None => default,
    }
}

/// The line that tells when the status was written.
pub open spec fn updated_at_line(ts: i64) -> Seq<char> {
    "Updated at Unix time "@ + spec_signed_decimal(ts as int)
}

/// A copy of `o`, or `default` when there is none.
fn text_or_default(o: &Option<String>, default: &str) -> (t: String)
    ensures
        t@ == text_or(opt_text(*o), default@),
{
    match o {
        Some(v) => v.clone(),
        None => default.to_owned(),
    }
}

/// A copy of `o`, or `default` when there is none or it is empty.
fn nonempty_text_or_default(o: &Option<String>, default: &str) -> (t: String)
    ensures
        t@ == nonempty_text_or(opt_text(*o), default@),
        o matches Some(v) ==> (v@.len() > 0 ==> t@ == v@),
        (o is None || o->0@.len() == 0) ==> t@ == default@,
{
    match o {
        Some(v) => if v.as_str().is_empty() {
            default.to_owned()
        } else {
            v.clone()
        },
        None => default.to_owned(),
    }
}

/// The lines of the updates page: the installed version (`0.1.0` when
/// unknown), the latest release (`Not checked` when unknown or empty), the
/// updater state (`idle` when unknown), the message (a prompt to run a check
/// when unknown or empty), when the status was written, and whether an
/// update can be installed.
pub fn summarize_update(u: &UpdateStatus) -> (s: UpdateSummary)
    ensures
        s.current_version@ == text_or(opt_text(u.current_version), "0.1.0"@),
        s.latest_release@ == nonempty_text_or(opt_text(u.latest_version), "Not checked"@),
        s.state@ == text_or(opt_text(u.state), "idle"@),
        s.message@ == nonempty_text_or(
            opt_text(u.message),
            "Run a check to refresh update status."@,
        ),
        u.message matches Some(m) ==> (m@.len() > 0 ==> s.message@ == m@),
        (u.message is None || u.message->0@.len() == 0) ==> s.message@
            == "Run a check to refresh update status."@,
        u.latest_version matches Some(l) ==> (l@.len() > 0 ==> s.latest_release@ == l@),
        (u.latest_version is None || u.latest_version->0@.len() == 0) ==> s.latest_release@
            == "Not checked"@,
        s.updated_at is Some <==> u.updated_at_unix is Some,
        u.updated_at_unix matches Some(ts) ==> s.updated_at->0@ == updated_at_line(ts),
        s.can_install == (u.update_available == Some(true)),
{
    let updated_at = match u.updated_at_unix {
        Some(ts) => {
            let line = String::from_str("Updated at Unix time ").concat(
                signed_decimal_text(ts).as_str(),
            );
            Some(line)
        },
        None => None,
    };
    UpdateSummary {
        current_version: text_or_default(&u.current_version, "0.1.0"),
        latest_release: nonempty_text_or_default(&u.latest_version, "Not checked"),
        state: text_or_default(&u.state, "idle"),
        message: nonempty_text_or_default(&u.message, "Run a check to refresh update status."),
        updated_at,
        can_install: match u.update_available {
            Some(b) => b,
            None => false,
        },
    }
}

/// The status report read from the status file, or the unknown report when
/// the file was missing or did not parse.
pub fn status_or_unknown(parsed: Option<UpdateStatus>) -> (u: UpdateStatus)
    ensures
        parsed matches Some(p) ==> u == p,
        parsed is None ==> u.state is None && u.current_version is None && u.latest_version is None
            && u.update_available is None && u.message is None && u.updated_at_unix is None,
{
    match parsed {
        Some(p) => p,
        None => UpdateStatus::unknown(),
    }
}

/// The settings file holds the serialised record followed by one line
/// break, whatever its length, so it starts with the record; the fallback
/// JSON is written only when serialising failed.
pub proof fn law_settings_file_keeps_record(data: Seq<char>)
    ensures
        spec_settings_file_text(Some(data)).len() == data.len() + 1,
        spec_settings_file_text(Some(data)).take(data.len() as int) == data,
        spec_settings_file_text(Some(data)).last() == '\n',
        spec_settings_file_text(None) == fallback_json().push('\n'),
        data != fallback_json() ==> spec_settings_file_text(Some(data)) != spec_settings_file_text(
            None,
        ),
{
    reveal_strlit("\n");
    assert(spec_settings_file_text(Some(data)) =~= data.push('\n'));
    assert(data.push('\n').take(data.len() as int) =~= data);
    assert(spec_settings_file_text(None) =~= fallback_json().push('\n'));
    if data != fallback_json() && spec_settings_file_text(Some(data)) == spec_settings_file_text(None) {
        assert(data.push('\n').drop_last() =~= data);
        assert(fallback_json().push('\n').drop_last() =~= fallback_json());
    }
}

/// A reported text that is not empty is shown as it is, whatever its
/// length; the default stands in only for a missing or empty text.
pub proof fn law_nonempty_text_shown(t: Seq<char>, default: Seq<char>)
    ensures
        t.len() > 0 ==> nonempty_text_or(Some(t), default) == t,
        t.len() == 0 ==> nonempty_text_or(Some(t), default) == default,
        nonempty_text_or(None, default) == default,
        text_or(Some(t), default) == t,
        text_or(None, default) == default,
{
}

} // verus!
