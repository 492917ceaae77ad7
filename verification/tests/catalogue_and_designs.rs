use taskbar_stats_settings::catalogue::{
    design_position, settings_section_for, widget_def_by_id, widget_defs, Rgb, SettingsSection,
};
use taskbar_stats_settings::designs::normalize_design;
use taskbar_stats_settings::rotation::normalize_rotation_designs;

fn strings(ids: &[&str]) -> Vec<String> {
    ids.iter().map(|s| s.to_string()).collect()
}

#[test]
fn known_designs_normalize_to_themselves() {
    for id in ["codex-status", "weather-static", "discord-voice", "btc-fees", "media-player"] {
        assert_eq!(normalize_design(id), id);
    }
}

#[test]
fn unknown_designs_fall_back_to_codex() {
    assert_eq!(normalize_design(""), "codex-status");
    assert_eq!(normalize_design("weather"), "codex-status");
    assert_eq!(normalize_design("BTC-FEES"), "codex-status");
    assert_eq!(normalize_design(" media-player"), "codex-status");
}

#[test]
fn normalizing_twice_changes_nothing() {
    for id in ["", "x", "btc-fees", "codex-status", "media-player2"] {
        let once = normalize_design(id);
        assert_eq!(normalize_design(once), once);
    }
}

#[test]
fn missing_rotation_list_gives_all_designs_in_order() {
    assert_eq!(
        normalize_rotation_designs(None),
        strings(&["codex-status", "weather-static", "discord-voice", "btc-fees", "media-player"])
    );
}

#[test]
fn empty_rotation_list_gives_codex_alone() {
    assert_eq!(normalize_rotation_designs(Some(Vec::new())), strings(&["codex-status"]));
}

#[test]
fn rotation_list_drops_repeats_and_keeps_first_order() {
    let saved = strings(&["btc-fees", "media-player", "btc-fees", "weather-static", "media-player"]);
    assert_eq!(
        normalize_rotation_designs(Some(saved)),
        strings(&["btc-fees", "media-player", "weather-static"])
    );
}

#[test]
fn unknown_rotation_entries_become_codex_once() {
    let saved = strings(&["bogus", "discord-voice", "other", "codex-status"]);
    assert_eq!(normalize_rotation_designs(Some(saved)), strings(&["codex-status", "discord-voice"]));
}

#[test]
fn rotation_normalization_is_idempotent() {
    let saved = strings(&["x", "media-player", "x", "btc-fees", "media-player"]);
    let once = normalize_rotation_designs(Some(saved));
    let twice = normalize_rotation_designs(Some(once.clone()));
    assert_eq!(once, twice);
}

#[test]
fn catalogue_entries_in_gallery_order() {
    let defs = widget_defs();
    let ids: Vec<&str> = defs.iter().map(|d| d.id).collect();
    assert_eq!(ids, vec!["codex-status", "weather-static", "discord-voice", "btc-fees", "media-player"]);
    assert_eq!(defs[0].title, "Codex Status");
    assert_eq!(defs[1].subtitle, "Weather Capsule");
    assert_eq!(defs[3].title, "Crypto Fees");
    assert_eq!(defs[4].accent, Rgb { r: 125, g: 200, b: 226 });
    assert!(defs[2].description.starts_with("Displays users in your selected Discord voice channel."));
}

#[test]
fn lookup_by_id_and_fallback() {
    assert_eq!(widget_def_by_id("btc-fees").title, "Crypto Fees");
    assert_eq!(widget_def_by_id("media-player").accent, Rgb { r: 125, g: 200, b: 226 });
    assert_eq!(widget_def_by_id("missing").id, "codex-status");
}

#[test]
fn design_positions() {
    assert_eq!(design_position("codex-status"), 0);
    assert_eq!(design_position("weather-static"), 1);
    assert_eq!(design_position("discord-voice"), 2);
    assert_eq!(design_position("btc-fees"), 3);
    assert_eq!(design_position("media-player"), 4);
    assert_eq!(design_position("unknown"), 0);
}

#[test]
fn settings_sections() {
    assert_eq!(settings_section_for("codex-status"), SettingsSection::Codex);
    assert_eq!(settings_section_for("weather-static"), SettingsSection::Weather);
    assert_eq!(settings_section_for("discord-voice"), SettingsSection::Discord);
    assert_eq!(settings_section_for("media-player"), SettingsSection::Media);
    assert_eq!(settings_section_for("btc-fees"), SettingsSection::NoOptions);
}

#[test]
fn valid_queue_is_left_as_is() {
    let queue = strings(&["media-player", "codex-status", "btc-fees"]);
    assert_eq!(normalize_rotation_designs(Some(queue.clone())), queue);
}
