use taskbar_stats_settings::settings::{
    settings_file_text, settings_or_fallback, status_or_unknown, summarize_update, UpdateStatus,
    WidgetSettings,
};
use taskbar_stats_settings::state::{FolderOutcome, SettingsApp, SettingsPage, StatusTone};

fn strings(ids: &[&str]) -> Vec<String> {
    ids.iter().map(|s| s.to_string()).collect()
}

fn stored() -> WidgetSettings {
    let mut s = WidgetSettings::fallback();
    s.active_design = "btc-fees".to_string();
    s.enabled = Some(false);
    s.refresh_interval_secs = Some(45);
    s.widget_offset_px = Some(120);
    s.rotation_enabled = Some(true);
    s.rotation_interval_secs = Some(60);
    s.rotation_designs = Some(strings(&["media-player", "btc-fees"]));
    s.codex_api_endpoint = Some("http://localhost:8080".to_string());
    s.weather_city = Some("Ankara".to_string());
    s.weather_temp_unit = Some("F".to_string());
    s.discord_enabled = Some(true);
    s.discord_redirect_uri = Some("http://127.0.0.1/cb".to_string());
    s
}

#[test]
fn fallback_settings_load_defaults() {
    let app = SettingsApp::from_settings(settings_or_fallback(None));
    assert_eq!(app.active_design, "codex-status");
    assert_eq!(app.selected_idx, 0);
    assert_eq!(app.selected_page, SettingsPage::Library);
    assert_eq!(app.status, "");
    assert!(!app.dirty);
    assert!(app.widget_enabled);
    assert_eq!(app.refresh_interval, "30");
    assert_eq!(app.widget_offset_px, 0);
    assert!(!app.rotation_enabled);
    assert_eq!(app.rotation_interval, "30");
    assert_eq!(
        app.rotation_designs,
        strings(&["codex-status", "weather-static", "discord-voice", "btc-fees", "media-player"])
    );
    assert_eq!(app.codex_endpoint, "");
    assert_eq!(app.codex_filter, "");
    assert_eq!(app.weather_city, "Istanbul");
    assert_eq!(app.weather_unit_idx, 0);
    assert!(!app.discord_enabled);
    assert!(app.discord_background_enabled);
    assert!(app.media_dark_mode);
    assert_eq!(app.discord_client_id, "");
    assert_eq!(app.discord_client_secret, "");
    assert_eq!(app.discord_redirect_uri, "http://127.0.0.1/callback");
}

#[test]
fn stored_settings_load() {
    let app = SettingsApp::from_settings(stored());
    assert_eq!(app.active_design, "btc-fees");
    assert_eq!(app.selected_idx, 3);
    assert!(!app.widget_enabled);
    assert_eq!(app.refresh_interval, "45");
    assert_eq!(app.widget_offset_px, 120);
    assert!(app.rotation_enabled);
    assert_eq!(app.rotation_interval, "60");
    assert_eq!(app.rotation_designs, strings(&["media-player", "btc-fees"]));
    assert_eq!(app.codex_endpoint, "http://localhost:8080");
    assert_eq!(app.weather_city, "Ankara");
    assert_eq!(app.weather_unit_idx, 1);
    assert!(app.discord_enabled);
    assert_eq!(app.discord_redirect_uri, "http://127.0.0.1/cb");
}

#[test]
fn load_clamps_offset_and_normalizes_design() {
    let mut s = WidgetSettings::fallback();
    s.active_design = "retro".to_string();
    s.widget_offset_px = Some(9000);
    s.weather_temp_unit = Some("K".to_string());
    let app = SettingsApp::from_settings(s);
    assert_eq!(app.active_design, "codex-status");
    assert_eq!(app.selected_idx, 0);
    assert_eq!(app.widget_offset_px, 480);
    assert_eq!(app.weather_unit_idx, 0);
}

#[test]
fn save_writes_every_option() {
    let mut app = SettingsApp::from_settings(stored());
    app.refresh_interval = "abc".to_string();
    app.rotation_interval = "2".to_string();
    app.widget_offset_px = 700;
    app.codex_filter = String::new();
    app.discord_client_secret = "SECRET-REDACTED".to_string();
    app.weather_unit_idx = 7;
    let s = app.settings_for_save();
    assert_eq!(s.active_design, "btc-fees");
    assert_eq!(s.enabled, Some(false));
    assert_eq!(s.refresh_interval_secs, Some(30));
    assert_eq!(s.widget_offset_px, Some(480));
    assert_eq!(s.rotation_enabled, Some(true));
    assert_eq!(s.rotation_interval_secs, Some(5));
    assert_eq!(s.rotation_designs, Some(strings(&["media-player", "btc-fees"])));
    assert_eq!(s.codex_api_endpoint, Some("http://localhost:8080".to_string()));
    assert_eq!(s.codex_project_filter, None);
    assert_eq!(s.weather_city, Some("Ankara".to_string()));
    assert_eq!(s.weather_temp_unit, Some("C".to_string()));
    assert_eq!(s.discord_enabled, Some(true));
    assert_eq!(s.discord_background_enabled, Some(true));
    assert_eq!(s.media_dark_mode, Some(true));
    assert_eq!(s.discord_client_id, None);
    assert_eq!(s.discord_client_secret, Some("SECRET-REDACTED".to_string()));
    assert_eq!(s.discord_redirect_uri, Some("http://127.0.0.1/cb".to_string()));
}

#[test]
fn rotation_interval_saved_within_bounds() {
    let mut app = SettingsApp::from_settings(WidgetSettings::fallback());
    app.rotation_interval = "99999".to_string();
    assert_eq!(app.settings_for_save().rotation_interval_secs, Some(3600));
    app.rotation_interval = "+120".to_string();
    assert_eq!(app.settings_for_save().rotation_interval_secs, Some(120));
}

#[test]
fn save_then_load_gives_same_options() {
    let app = SettingsApp::from_settings(stored());
    let reloaded = SettingsApp::from_settings(app.settings_for_save());
    assert_eq!(reloaded.active_design, app.active_design);
    assert_eq!(reloaded.selected_idx, app.selected_idx);
    assert_eq!(reloaded.refresh_interval, app.refresh_interval);
    assert_eq!(reloaded.rotation_interval, app.rotation_interval);
    assert_eq!(reloaded.rotation_designs, app.rotation_designs);
    assert_eq!(reloaded.weather_unit_idx, app.weather_unit_idx);
    assert_eq!(reloaded.weather_city, app.weather_city);
    assert_eq!(reloaded.codex_endpoint, app.codex_endpoint);
    assert_eq!(reloaded.discord_redirect_uri, app.discord_redirect_uri);
    assert_eq!(reloaded.widget_offset_px, app.widget_offset_px);
}

#[test]
fn empty_redirect_address_does_not_survive_a_round_trip() {
    let mut app = SettingsApp::from_settings(WidgetSettings::fallback());
    app.discord_redirect_uri = String::new();
    let reloaded = SettingsApp::from_settings(app.settings_for_save());
    assert_eq!(reloaded.discord_redirect_uri, "http://127.0.0.1/callback");
}

#[test]
fn save_outcomes() {
    let mut app = SettingsApp::from_settings(WidgetSettings::fallback());
    app.mark_changed();
    app.save(Err("disk full".to_string()));
    assert_eq!(app.status, "✗ Save failed: disk full");
    assert!(app.dirty);
    assert_eq!(app.status_tone(), StatusTone::Failure);
    app.save(Ok(()));
    assert_eq!(app.status, "✓ Settings saved successfully");
    assert!(!app.dirty);
    assert_eq!(app.status_tone(), StatusTone::Success);
}

#[test]
fn select_widget_sets_active_design() {
    let mut app = SettingsApp::from_settings(WidgetSettings::fallback());
    app.status = "old".to_string();
    app.select_widget(2);
    assert_eq!(app.selected_idx, 2);
    assert_eq!(app.active_design, "discord-voice");
    assert!(app.dirty);
    assert_eq!(app.status, "");
    assert_eq!(app.selected_def().title, "Discord Voice");
}

#[test]
fn select_widget_outside_catalogue_keeps_design() {
    let mut app = SettingsApp::from_settings(WidgetSettings::fallback());
    app.select_widget(9);
    assert_eq!(app.selected_idx, 9);
    assert_eq!(app.active_design, "codex-status");
    assert!(!app.dirty);
    assert_eq!(app.selected_def().id, "codex-status");
}

#[test]
fn reset_restores_stored_options() {
    let mut app = SettingsApp::from_settings(stored());
    app.select_widget(4);
    app.weather_city = "Paris".to_string();
    app.selected_page = SettingsPage::Updates;
    app.set_rotation_included("weather-static", true);
    app.reset(stored());
    assert_eq!(app.active_design, "btc-fees");
    assert_eq!(app.selected_idx, 3);
    assert_eq!(app.selected_page, SettingsPage::Library);
    assert_eq!(app.weather_city, "Ankara");
    assert_eq!(app.rotation_designs, strings(&["media-player", "btc-fees"]));
    assert!(!app.dirty);
    assert_eq!(app.status, "↺ Settings reset");
    assert_eq!(app.status_tone(), StatusTone::Neutral);
}

#[test]
fn update_launch_outcomes() {
    let mut app = SettingsApp::from_settings(WidgetSettings::fallback());
    app.check_updates(Ok(()));
    assert_eq!(app.status, "Checking for updates...");
    app.check_updates(Err("not found".to_string()));
    assert_eq!(app.status, "✗ Update check failed to start: not found");
    app.install_update(Ok(()));
    assert_eq!(app.status, "Downloading update...");
    app.install_update(Err("denied".to_string()));
    assert_eq!(app.status, "✗ Update install failed to start: denied");
    assert!(!app.dirty);
}

#[test]
fn widget_library_outcomes() {
    let mut app = SettingsApp::from_settings(WidgetSettings::fallback());
    app.open_widget_libraries(FolderOutcome::Opened);
    assert_eq!(app.status, "WidgetLibraries opened");
    app.open_widget_libraries(FolderOutcome::FolderFailed("read-only".to_string()));
    assert_eq!(app.status, "Folder error: read-only");
    app.open_widget_libraries(FolderOutcome::OpenFailed("no shell".to_string()));
    assert_eq!(app.status, "Open failed: no shell");
}

#[test]
fn rotation_toggling() {
    let mut app = SettingsApp::from_settings(stored());
    app.set_rotation_included("codex-status", true);
    assert_eq!(app.rotation_designs, strings(&["media-player", "btc-fees", "codex-status"]));
    app.set_rotation_included("btc-fees", true);
    assert_eq!(app.rotation_designs, strings(&["media-player", "btc-fees", "codex-status"]));
    app.set_rotation_included("media-player", false);
    assert_eq!(app.rotation_designs, strings(&["btc-fees", "codex-status"]));
    assert!(app.rotation_includes("btc-fees"));
    assert!(!app.rotation_includes("media-player"));
    assert!(app.dirty);
}

#[test]
fn unticking_the_last_design_keeps_it() {
    let mut s = WidgetSettings::fallback();
    s.rotation_designs = Some(strings(&["weather-static"]));
    let mut app = SettingsApp::from_settings(s);
    app.set_rotation_included("weather-static", false);
    assert_eq!(app.rotation_designs, strings(&["weather-static"]));
}

#[test]
fn moving_queue_entries() {
    let mut app = SettingsApp::from_settings(WidgetSettings::fallback());
    assert_eq!(app.rotation_position("btc-fees"), 3);
    app.move_rotation_design_down(3);
    assert_eq!(app.rotation_position("btc-fees"), 4);
    assert_eq!(app.rotation_position("media-player"), 3);
    app.move_rotation_design_up(4);
    assert_eq!(
        app.rotation_designs,
        strings(&["codex-status", "weather-static", "discord-voice", "btc-fees", "media-player"])
    );
    assert_eq!(app.rotation_position("missing"), 0);
}

#[test]
fn rotation_slider_values() {
    let mut app = SettingsApp::from_settings(WidgetSettings::fallback());
    assert_eq!(app.rotation_slider_seconds(), 30);
    app.rotation_interval = "1".to_string();
    assert_eq!(app.rotation_slider_seconds(), 5);
    app.rotation_interval = "900".to_string();
    assert_eq!(app.rotation_slider_seconds(), 300);
    app.rotation_interval = "soon".to_string();
    assert_eq!(app.rotation_slider_seconds(), 30);
    app.set_rotation_interval_seconds(125);
    assert_eq!(app.rotation_interval, "125");
    assert!(app.dirty);
}

#[test]
fn rotation_summary_text() {
    let mut s = WidgetSettings::fallback();
    s.rotation_designs = Some(strings(&["media-player", "codex-status", "weather-static"]));
    let app = SettingsApp::from_settings(s);
    assert_eq!(app.rotation_summary(), "Media Player  →  Codex Status  →  Static Weather");
}

#[test]
fn status_tone_of_plain_text() {
    let mut app = SettingsApp::from_settings(WidgetSettings::fallback());
    assert_eq!(app.status_tone(), StatusTone::Neutral);
    app.status = "hello".to_string();
    assert_eq!(app.status_tone(), StatusTone::Neutral);
}

#[test]
fn settings_file_text_with_and_without_json() {
    assert_eq!(settings_file_text(Some("{}".to_string())), "{}\n");
    assert_eq!(settings_file_text(None), "{\"activeDesign\":\"codex-status\"}\n");
}

#[test]
fn parsed_settings_are_kept() {
    let s = settings_or_fallback(Some(stored()));
    assert_eq!(s.active_design, "btc-fees");
    assert_eq!(s.refresh_interval_secs, Some(45));
}

#[test]
fn update_summary_defaults() {
    let summary = summarize_update(&status_or_unknown(None));
    assert_eq!(summary.current_version, "0.1.0");
    assert_eq!(summary.latest_release, "Not checked");
    assert_eq!(summary.state, "idle");
    assert_eq!(summary.message, "Run a check to refresh update status.");
    assert_eq!(summary.updated_at, None);
    assert!(!summary.can_install);
}

#[test]
fn update_summary_from_report() {
    let report = UpdateStatus {
        state: Some("ready".to_string()),
        current_version: Some("0.1.0".to_string()),
        latest_version: Some("0.2.0".to_string()),
        update_available: Some(true),
        message: Some(String::new()),
        updated_at_unix: Some(1783785846),
    };
    let summary = summarize_update(&status_or_unknown(Some(report)));
    assert_eq!(summary.latest_release, "0.2.0");
    assert_eq!(summary.state, "ready");
    assert_eq!(summary.message, "Run a check to refresh update status.");
    assert_eq!(summary.updated_at, Some("Updated at Unix time 1783785846".to_string()));
    assert!(summary.can_install);
    let empty_latest = UpdateStatus { latest_version: Some(String::new()), ..status_or_unknown(None) };
    assert_eq!(summarize_update(&empty_latest).latest_release, "Not checked");
}

#[test]
fn update_failures_read_as_failures() {
    let mut app = SettingsApp::from_settings(WidgetSettings::fallback());
    app.check_updates(Err("x".to_string()));
    assert_eq!(app.status_tone(), StatusTone::Failure);
    app.install_update(Err("x".to_string()));
    assert_eq!(app.status_tone(), StatusTone::Failure);
    app.install_update(Ok(()));
    assert_eq!(app.status_tone(), StatusTone::Neutral);
    app.open_widget_libraries(FolderOutcome::OpenFailed("x".to_string()));
    assert_eq!(app.status_tone(), StatusTone::Neutral);
}

#[test]
fn loading_the_same_record_twice_agrees() {
    let a = SettingsApp::from_settings(stored());
    let b = SettingsApp::from_settings(stored());
    assert_eq!(a.rotation_designs, b.rotation_designs);
    assert_eq!(a.active_design, b.active_design);
    assert_eq!(a.refresh_interval, b.refresh_interval);
}
