use vstd::prelude::*;

use crate::catalogue::{
    catalogue_entry, catalogue_entry_for, catalogue_len, design_index, design_position,
    widget_def_by_id, widget_defs, WidgetDef,
};
use crate::decimal::{decimal_text, parse_or, parse_u32, spec_decimal};
use crate::designs::{
    catalogue_ids, is_known_design, normalize_design, same_text, spec_normalize_design,
};
use crate::rotation::{
    contains_text, copy_designs, exclude_design, include_design, is_valid_queue,
    normalize_rotation_designs, position_of, position_or_zero, spec_exclude, spec_include,
    spec_normalize_rotation, spec_swap, swap_adjacent, texts,
};
use crate::settings::{opt_text, text_or, WidgetSettings, WidgetSettingsView};

verus! {

/// The page that the settings window shows.
#[derive(Clone, Copy, Debug, PartialEq, Eq, Structural)]
pub enum SettingsPage {
    Library,
    Rotation,
    Updates,
}

/// How the status line reads: a failure, a success, or plain information.
#[derive(Clone, Copy, Debug, PartialEq, Eq, Structural)]
pub enum StatusTone {
    Failure,
    Success,
    Neutral,
}

/// `o`'s value, or `default` when there is none.
pub open spec fn or_default<T>(o: Option<T>, default: T) -> T {
    match o {
        Some(v) => v,
        None => default,
    }
}

/// The smaller of `a` and `b`.
pub open spec fn min_u32(a: u32, b: u32) -> u32 {
    if a <= b {
        a
    } else {
        b
    }
}

/// `v` held within `lo..=hi`.
pub open spec fn clamp_u32(v: u32, lo: u32, hi: u32) -> u32 {
    if v < lo {
        lo
    } else if v > hi {
        hi
    } else {
        v
    }
}

/// `t` when it is not empty, `None` otherwise.
pub open spec fn nonempty_or_none(t: Seq<char>) -> Option<Seq<char>> {
    if t.len() == 0 {
        None
    } else {
        Some(t)
    }
}

/// Widest offset, in pixels, that the widget may be moved by.
pub open spec fn max_offset_px() -> u32 {
    480
}

/// The default redirect address of the Discord application.
pub open spec fn default_redirect_uri() -> Seq<char> {
    "http://127.0.0.1/callback"@
}

/// Status line after the settings file was written.
pub open spec fn saved_message() -> Seq<char> {
    "✓ Settings saved successfully"@
}

/// Status line after writing the settings file failed with `e`.
pub open spec fn save_failed_message(e: Seq<char>) -> Seq<char> {
    "✗ Save failed: "@ + e
}

/// Status line after the settings were read again.
pub open spec fn reset_message() -> Seq<char> {
    "↺ Settings reset"@
}

/// Status line after the update check was started.
pub open spec fn checking_message() -> Seq<char> {
    "Checking for updates..."@
}

/// Status line after starting the update check failed with `e`.
pub open spec fn check_failed_message(e: Seq<char>) -> Seq<char> {
    "✗ Update check failed to start: "@ + e
}

/// Status line after the update download was started.
pub open spec fn downloading_message() -> Seq<char> {
    "Downloading update..."@
}

/// Status line after starting the update download failed with `e`.
pub open spec fn install_failed_message(e: Seq<char>) -> Seq<char> {
    "✗ Update install failed to start: "@ + e
}

/// Status line after the widget library folder was opened.
pub open spec fn libraries_opened_message() -> Seq<char> {
    "WidgetLibraries opened"@
}

/// Status line after creating the widget library folder failed with `e`.
pub open spec fn folder_failed_message(e: Seq<char>) -> Seq<char> {
    "Folder error: "@ + e
}

/// Status line after showing the widget library folder failed with `e`.
pub open spec fn open_failed_message(e: Seq<char>) -> Seq<char> {
    "Open failed: "@ + e
}

/// How opening the widget library folder went: opened, or the folder could
/// not be created, or it could not be shown; the failures carry the error.
pub enum FolderOutcome {
    Opened,
    FolderFailed(String),
    OpenFailed(String),
}

/// The tone of a status line: by its first character.
pub open spec fn spec_status_tone(status: Seq<char>) -> StatusTone {
    if status.len() > 0 && status[0] == '✗' {
        StatusTone::Failure
    } else if status.len() > 0 && status[0] == '✓' {
        StatusTone::Success
    } else {
        StatusTone::Neutral
    }
}

/// The editing state of the settings window.
pub struct SettingsApp {
    pub active_design: String,
    pub selected_idx: usize,
    pub selected_page: SettingsPage,
    pub status: String,
    pub dirty: bool,
    pub widget_enabled: bool,
    pub refresh_interval: String,
    pub widget_offset_px: u32,
    pub rotation_enabled: bool,
    pub rotation_interval: String,
    pub rotation_designs: Vec<String>,
    pub codex_endpoint: String,
    pub codex_filter: String,
    pub weather_city: String,
    pub weather_unit_idx: usize,
    pub discord_enabled: bool,
    pub discord_background_enabled: bool,
    pub media_dark_mode: bool,
    pub discord_client_id: String,
    pub discord_client_secret: String,
    pub discord_redirect_uri: String,
}

impl SettingsApp {
    /// The rotation queue, as plain values.
    pub open spec fn queue(self) -> Seq<Seq<char>> {
        texts(self.rotation_designs@)
    }

    /// The state holds what the settings record `s` gives: the design
    /// normalised and selected in the gallery, the library page, and each
    /// option as stored or its default.
    pub open spec fn loaded_from(self, s: WidgetSettingsView) -> bool {
        &&& self.active_design@ == spec_normalize_design(s.active_design)
        &&& self.selected_idx == design_index(self.active_design@)
        &&& self.selected_page == SettingsPage::Library
        &&& self.widget_enabled == or_default(s.enabled, true)
        &&& self.refresh_interval@ == spec_decimal(or_default(s.refresh_interval_secs, 30) as nat)
        &&& self.widget_offset_px == min_u32(or_default(s.widget_offset_px, 0), max_offset_px())
        &&& self.rotation_enabled == or_default(s.rotation_enabled, false)
        &&& self.rotation_interval@ == spec_decimal(
            or_default(s.rotation_interval_secs, 30) as nat,
        )
        &&& self.queue() == spec_normalize_rotation(s.rotation_designs)
        &&& self.codex_endpoint@ == text_or(s.codex_api_endpoint, Seq::empty())
        &&& self.codex_filter@ == text_or(s.codex_project_filter, Seq::empty())
        &&& self.weather_city@ == text_or(s.weather_city, "Istanbul"@)
        &&& self.weather_unit_idx == if s.weather_temp_unit == Some("F"@) {
            1usize
        } else {
            0usize
        }
        &&& self.discord_enabled == or_default(s.discord_enabled, false)
        &&& self.discord_background_enabled == or_default(s.discord_background_enabled, true)
        &&& self.media_dark_mode == or_default(s.media_dark_mode, true)
        &&& self.discord_client_id@ == text_or(s.discord_client_id, Seq::empty())
        &&& self.discord_client_secret@ == text_or(s.discord_client_secret, Seq::empty())
        &&& self.discord_redirect_uri@ == text_or(s.discord_redirect_uri, default_redirect_uri())
    }

    /// The settings record that saving this state writes.
    pub open spec fn saved_view(self) -> WidgetSettingsView {
        WidgetSettingsView {
            active_design: self.active_design@,
            enabled: Some(self.widget_enabled),
            refresh_interval_secs: Some(parse_or(self.refresh_interval@, 30)),
            widget_offset_px: Some(min_u32(self.widget_offset_px, max_offset_px())),
            rotation_enabled: Some(self.rotation_enabled),
            rotation_interval_secs: Some(
                clamp_u32(parse_or(self.rotation_interval@, 30), 5, 3600),
            ),
            rotation_designs: Some(spec_normalize_rotation(Some(self.queue()))),
            codex_api_endpoint: nonempty_or_none(self.codex_endpoint@),
            codex_project_filter: nonempty_or_none(self.codex_filter@),
            weather_city: Some(self.weather_city@),
            weather_temp_unit: Some(
                if self.weather_unit_idx == 1 {
                    "F"@
                } else {
                    "C"@
                },
            ),
            discord_enabled: Some(self.discord_enabled),
            discord_background_enabled: Some(self.discord_background_enabled),
            media_dark_mode: Some(self.media_dark_mode),
            discord_client_id: nonempty_or_none(self.discord_client_id@),
            discord_client_secret: nonempty_or_none(self.discord_client_secret@),
            discord_redirect_uri: nonempty_or_none(self.discord_redirect_uri@),
        }
    }

    /// The two states hold the same values in everything that the settings
    /// file keeps, and select the same gallery entry.
    pub open spec fn same_persisted(self, other: SettingsApp) -> bool {
        &&& self.active_design@ == other.active_design@
        &&& self.selected_idx == other.selected_idx
        &&& self.widget_enabled == other.widget_enabled
        &&& self.refresh_interval@ == other.refresh_interval@
        &&& self.widget_offset_px == other.widget_offset_px
        &&& self.rotation_enabled == other.rotation_enabled
        &&& self.rotation_interval@ == other.rotation_interval@
        &&& self.queue() == other.queue()
        &&& self.codex_endpoint@ == other.codex_endpoint@
        &&& self.codex_filter@ == other.codex_filter@
        &&& self.weather_city@ == other.weather_city@
        &&& self.weather_unit_idx == other.weather_unit_idx
        &&& self.discord_enabled == other.discord_enabled
        &&& self.discord_background_enabled == other.discord_background_enabled
        &&& self.media_dark_mode == other.media_dark_mode
        &&& self.discord_client_id@ == other.discord_client_id@
        &&& self.discord_client_secret@ == other.discord_client_secret@
        &&& self.discord_redirect_uri@ == other.discord_redirect_uri@
    }

    /// Every option is already in the form that saving writes and loading
    /// reads back: a design of the catalogue is active and selected, the
    /// intervals are plain decimal numbers (the rotation one within
    /// 5..=3600), the offset is at most 480, the queue is valid, the
    /// temperature unit is one of the two and the redirect address is set.
    pub open spec fn is_canonical(self) -> bool {
        &&& is_known_design(self.active_design@)
        &&& self.selected_idx == design_index(self.active_design@)
        &&& spec_decimal(parse_or(self.refresh_interval@, 30) as nat) == self.refresh_interval@
        &&& self.widget_offset_px <= max_offset_px()
        &&& spec_decimal(parse_or(self.rotation_interval@, 30) as nat) == self.rotation_interval@
        &&& 5 <= parse_or(self.rotation_interval@, 30) <= 3600
        &&& is_valid_queue(self.queue())
        &&& self.weather_unit_idx <= 1
        &&& self.discord_redirect_uri@.len() > 0
    }

    /// The two states agree on every option other than the design
    /// selection, the rotation queue, the page, the status line and the
    /// unsaved-changes flag.
    pub open spec fn same_options(self, other: SettingsApp) -> bool {
        &&& self.widget_enabled == other.widget_enabled
        &&& self.refresh_interval == other.refresh_interval
        &&& self.widget_offset_px == other.widget_offset_px
        &&& self.rotation_enabled == other.rotation_enabled
        &&& self.rotation_interval == other.rotation_interval
        &&& self.codex_endpoint == other.codex_endpoint
        &&& self.codex_filter == other.codex_filter
        &&& self.weather_city == other.weather_city
        &&& self.weather_unit_idx == other.weather_unit_idx
        &&& self.discord_enabled == other.discord_enabled
        &&& self.discord_background_enabled == other.discord_background_enabled
        &&& self.media_dark_mode == other.media_dark_mode
        &&& self.discord_client_id == other.discord_client_id
        &&& self.discord_client_secret == other.discord_client_secret
        &&& self.discord_redirect_uri == other.discord_redirect_uri
    }

    /// The two states agree on everything but the status line and the
    /// unsaved-changes flag.
    pub open spec fn same_editing(self, other: SettingsApp) -> bool {
        &&& self.same_options(other)
        &&& self.active_design == other.active_design
        &&& self.selected_idx == other.selected_idx
        &&& self.selected_page == other.selected_page
        &&& self.rotation_designs == other.rotation_designs
    }

    /// The editing state for the settings record `s`, with an empty status
    /// line and no unsaved changes.
    pub fn from_settings(s: WidgetSettings) -> (app: SettingsApp)
        ensures
            app.loaded_from(s@),
            app.status@ == Seq::<char>::empty(),
            !app.dirty,
    {
        let ghost v = s@;
        let design = normalize_design(s.active_design.as_str()).to_owned();
        let selected_idx = design_position(design.as_str());
        let rotation_designs = normalize_rotation_designs(s.rotation_designs);
        let weather_unit_idx: usize = match &s.weather_temp_unit {
            Some(u) => if same_text(u.as_str(), "F") {
                1
            } else {
                0
            },
            None => 0,
        };
        let offset: u32 = match s.widget_offset_px {
            Some(px) => if px > 480 {
                480
            } else {
                px
            },
            None => 0,
        };
        let refresh: u32 = match s.refresh_interval_secs {
            Some(secs) => secs,
            None => 30,
        };
        let rotation: u32 = match s.rotation_interval_secs {
            Some(secs) => secs,
            None => 30,
        };
        SettingsApp {
            active_design: design,
            selected_idx,
            selected_page: SettingsPage::Library,
            status: String::new(),
            dirty: false,
            widget_enabled: match s.enabled {
                Some(b) => b,
                None => true,
            },
            refresh_interval: decimal_text(refresh as u64),
            widget_offset_px: offset,
            rotation_enabled: match s.rotation_enabled {
                Some(b) => b,
                None => false,
            },
            rotation_interval: decimal_text(rotation as u64),
            rotation_designs,
            codex_endpoint: match s.codex_api_endpoint {
                Some(t) => t,
                None => String::new(),
            },
            codex_filter: match s.codex_project_filter {
                Some(t) => t,
                None => String::new(),
            },
            weather_city: match s.weather_city {
                Some(t) => t,
                None => "Istanbul".to_owned(),
            },
            weather_unit_idx,
            discord_enabled: match s.discord_enabled {
                Some(b) => b,
                None => false,
            },
            discord_background_enabled: match s.discord_background_enabled {
                Some(b) => b,
                None => true,
            },
            media_dark_mode: match s.media_dark_mode {
                Some(b) => b,
                None => true,
            },
            discord_client_id: match s.discord_client_id {
                Some(t) => t,
                None => String::new(),
            },
            discord_client_secret: match s.discord_client_secret {
                Some(t) => t,
                None => String::new(),
            },
            discord_redirect_uri: match s.discord_redirect_uri {
                Some(t) => t,
                None => "http://127.0.0.1/callback".to_owned(),
            },
        }
    }

    /// The settings record to write for this state: every option present,
    /// the refresh interval read as a number (30 when it is not one), the
    /// offset at most 480, the rotation interval read the same way and held
    /// within 5..=3600 seconds, the rotation queue normalised, and the
    /// optional texts left out when empty.
    pub fn settings_for_save(&self) -> (s: WidgetSettings)
        ensures
            s@ == self.saved_view(),
    {
        let interval: u32 = match parse_u32(self.refresh_interval.as_str()) {
            Some(v) => v,
            None => 30,
        };
        let parsed_rotation: u32 = match parse_u32(self.rotation_interval.as_str()) {
            Some(v) => v,
            None => 30,
        };
        let rotation_interval: u32 = if parsed_rotation < 5 {
            5
        } else if parsed_rotation > 3600 {
            3600
        } else {
            parsed_rotation
        };
        let offset: u32 = if self.widget_offset_px > 480 {
            480
        } else {
            self.widget_offset_px
        };
        let designs = normalize_rotation_designs(Some(copy_designs(&self.rotation_designs)));
        let unit: String = if self.weather_unit_idx == 1 {
            "F".to_owned()
        } else {
            "C".to_owned()
        };
        WidgetSettings {
            active_design: self.active_design.clone(),
            enabled: Some(self.widget_enabled),
            refresh_interval_secs: Some(interval),
            widget_offset_px: Some(offset),
            rotation_enabled: Some(self.rotation_enabled),
            rotation_interval_secs: Some(rotation_interval),
            rotation_designs: Some(designs),
            codex_api_endpoint: text_if_nonempty(&self.codex_endpoint),
            codex_project_filter: text_if_nonempty(&self.codex_filter),
            weather_city: Some(self.weather_city.clone()),
            weather_temp_unit: Some(unit),
            discord_enabled: Some(self.discord_enabled),
            discord_background_enabled: Some(self.discord_background_enabled),
            media_dark_mode: Some(self.media_dark_mode),
            discord_client_id: text_if_nonempty(&self.discord_client_id),
            discord_client_secret: text_if_nonempty(&self.discord_client_secret),
            discord_redirect_uri: text_if_nonempty(&self.discord_redirect_uri),
        }
    }

    /// Records how writing the settings file went: on success the status
    /// line says so and nothing is left unsaved; on failure the status line
    /// gives the error and the changes stay unsaved.
    pub fn save(&mut self, outcome: Result<(), String>)
        ensures
            final(self).same_editing(*old(self)),
            outcome is Ok ==> final(self).status@ == saved_message() && !final(self).dirty,
            outcome matches Err(e) ==> final(self).status@ == save_failed_message(e@)
                && final(self).dirty == old(self).dirty,
    {
        match outcome {
            Ok(()) => {
                self.status = "✓ Settings saved successfully".to_owned();
                self.dirty = false;
            },
            Err(e) => {
                self.status = "✗ Save failed: ".to_owned().concat(e.as_str());
            },
        }
    }

    /// Selects the gallery entry `idx`; when the catalogue has such an
    /// entry its design becomes the active one and the change is unsaved.
    pub fn select_widget(&mut self, idx: usize)
        ensures
            final(self).selected_idx == idx,
            final(self).same_options(*old(self)),
            final(self).selected_page == old(self).selected_page,
            final(self).rotation_designs == old(self).rotation_designs,
            idx < catalogue_len() ==> {
                &&& final(self).active_design@ == catalogue_ids()[idx as int]
                &&& final(self).dirty
                &&& final(self).status@ == Seq::<char>::empty()
            },
            idx >= catalogue_len() ==> {
                &&& final(self).active_design == old(self).active_design
                &&& final(self).dirty == old(self).dirty
                &&& final(self).status == old(self).status
            },
    {
        self.selected_idx = idx;
        let defs = widget_defs();
        if idx < 5 {
            proof {
                assert(defs@[idx as int]@ == catalogue_entry(idx as int));
            }
            self.active_design = defs[idx].id.to_owned();
            self.dirty = true;
            self.status = String::new();
        }
    }

    /// Puts back the options of the settings record `s` (read again from
    /// the settings file), with nothing left unsaved and a status line that
    /// says so.
    pub fn reset(&mut self, s: WidgetSettings)
        ensures
            final(self).loaded_from(s@),
            !final(self).dirty,
            final(self).status@ == reset_message(),
    {
        let fresh = SettingsApp::from_settings(s);
        self.active_design = fresh.active_design;
        self.selected_idx = fresh.selected_idx;
        self.selected_page = fresh.selected_page;
        self.widget_enabled = fresh.widget_enabled;
        self.refresh_interval = fresh.refresh_interval;
        self.widget_offset_px = fresh.widget_offset_px;
        self.rotation_enabled = fresh.rotation_enabled;
        self.rotation_interval = fresh.rotation_interval;
        self.rotation_designs = fresh.rotation_designs;
        self.codex_endpoint = fresh.codex_endpoint;
        self.codex_filter = fresh.codex_filter;
        self.weather_city = fresh.weather_city;
        self.weather_unit_idx = fresh.weather_unit_idx;
        self.discord_enabled = fresh.discord_enabled;
        self.discord_background_enabled = fresh.discord_background_enabled;
        self.media_dark_mode = fresh.media_dark_mode;
        self.discord_client_id = fresh.discord_client_id;
        self.discord_client_secret = fresh.discord_client_secret;
        self.discord_redirect_uri = fresh.discord_redirect_uri;
        self.dirty = false;
        self.status = "↺ Settings reset".to_owned();
    }

    /// Records how starting the update check went.
    pub fn check_updates(&mut self, launch: Result<(), String>)
        ensures
            final(self).same_editing(*old(self)),
            final(self).dirty == old(self).dirty,
            launch is Ok ==> final(self).status@ == checking_message(),
            launch matches Err(e) ==> final(self).status@ == check_failed_message(e@),
    {
        match launch {
            Ok(()) => {
                self.status = "Checking for updates...".to_owned();
            },
            Err(e) => {
                self.status = "✗ Update check failed to start: ".to_owned().concat(e.as_str());
            },
        }
    }

    /// Records how starting the update download went.
    pub fn install_update(&mut self, launch: Result<(), String>)
        ensures
            final(self).same_editing(*old(self)),
            final(self).dirty == old(self).dirty,
            launch is Ok ==> final(self).status@ == downloading_message(),
            launch matches Err(e) ==> final(self).status@ == install_failed_message(e@),
    {
        match launch {
            Ok(()) => {
                self.status = "Downloading update...".to_owned();
            },
            Err(e) => {
                self.status = "✗ Update install failed to start: ".to_owned().concat(e.as_str());
            },
        }
    }

    /// Records how opening the widget library folder went.
    pub fn open_widget_libraries(&mut self, outcome: FolderOutcome)
        ensures
            final(self).same_editing(*old(self)),
            final(self).dirty == old(self).dirty,
            final(self).status@ == match outcome {
                FolderOutcome::Opened => libraries_opened_message(),
                FolderOutcome::FolderFailed(e) => folder_failed_message(e@),
                FolderOutcome::OpenFailed(e) => open_failed_message(e@),
            },
    {
        match outcome {
            FolderOutcome::Opened => {
                self.status = "WidgetLibraries opened".to_owned();
            },
            FolderOutcome::FolderFailed(e) => {
                self.status = "Folder error: ".to_owned().concat(e.as_str());
            },
            FolderOutcome::OpenFailed(e) => {
                self.status = "Open failed: ".to_owned().concat(e.as_str());
            },
        }
    }

    /// Marks an edit: the changes are unsaved and the status line is cleared.
    pub fn mark_changed(&mut self)
        ensures
            final(self).same_editing(*old(self)),
            final(self).dirty,
            final(self).status@ == Seq::<char>::empty(),
    {
        self.dirty = true;
        self.status = String::new();
    }

    /// Whether the design `id` is in the rotation queue.
    pub fn rotation_includes(&self, id: &str) -> (r: bool)
        ensures
            r == self.queue().contains(id@),
    {
        contains_text(&self.rotation_designs, id)
    }

    /// Ticks or unticks the design `id` in the rotation queue: a ticked
    /// design joins the end of the queue unless it is queued already; an
    /// unticked one leaves it, except that the queue is never left empty.
    /// The change is unsaved.
    pub fn set_rotation_included(&mut self, id: &str, included: bool)
        ensures
            included ==> final(self).queue() == spec_include(old(self).queue(), id@),
            !included ==> final(self).queue() == spec_exclude(old(self).queue(), id@),
            final(self).same_options(*old(self)),
            final(self).active_design == old(self).active_design,
            final(self).selected_idx == old(self).selected_idx,
            final(self).selected_page == old(self).selected_page,
            final(self).dirty,
            final(self).status@ == Seq::<char>::empty(),
    {
        if included {
            include_design(&mut self.rotation_designs, id);
        } else {
            exclude_design(&mut self.rotation_designs, id);
        }
        self.mark_changed();
    }

    /// Where the design `id` stands in the rotation queue (0 when it is not
    /// queued).
    pub fn rotation_position(&self, id: &str) -> (p: usize)
        ensures
            p as int == position_or_zero(self.queue(), id@),
    {
        position_of(&self.rotation_designs, id)
    }

    /// Moves the queue entry at `index` one place later. The change is unsaved.
    pub fn move_rotation_design_down(&mut self, index: usize)
        requires
            index + 1 < old(self).rotation_designs.len(),
        ensures
            final(self).queue() == spec_swap(old(self).queue(), index as int, index + 1),
            final(self).same_options(*old(self)),
            final(self).active_design == old(self).active_design,
            final(self).selected_idx == old(self).selected_idx,
            final(self).selected_page == old(self).selected_page,
            final(self).dirty,
            final(self).status@ == Seq::<char>::empty(),
    {
        swap_adjacent(&mut self.rotation_designs, index);
        self.mark_changed();
    }

    /// Moves the queue entry at `index` one place earlier. The change is unsaved.
    pub fn move_rotation_design_up(&mut self, index: usize)
        requires
            0 < index < old(self).rotation_designs.len(),
        ensures
            final(self).queue() == spec_swap(old(self).queue(), index as int, index - 1),
            final(self).same_options(*old(self)),
            final(self).active_design == old(self).active_design,
            final(self).selected_idx == old(self).selected_idx,
            final(self).selected_page == old(self).selected_page,
            final(self).dirty,
            final(self).status@ == Seq::<char>::empty(),
    {
        let ghost before = self.queue();
        swap_adjacent(&mut self.rotation_designs, index - 1);
        assert(spec_swap(before, index - 1, index as int) =~= spec_swap(
            before,
            index as int,
            index - 1,
        ));
        self.mark_changed();
    }

    /// The rotation interval shown on the slider: the stored text read as a
    /// number (30 when it is not one), held within 5..=300 seconds.
    pub fn rotation_slider_seconds(&self) -> (secs: u32)
        ensures
            secs == clamp_u32(parse_or(self.rotation_interval@, 30), 5, 300),
            5 <= secs <= 300,
    {
        let parsed: u32 = match parse_u32(self.rotation_interval.as_str()) {
            Some(v) => v,
            None => 30,
        };
        if parsed < 5 {
            5
        } else if parsed > 300 {
            300
        } else {
            parsed
        }
    }

    /// Sets the rotation interval from the slider. The change is unsaved.
    pub fn set_rotation_interval_seconds(&mut self, secs: u32)
        ensures
            final(self).rotation_interval@ == spec_decimal(secs as nat),
            final(self).widget_enabled == old(self).widget_enabled,
            final(self).refresh_interval == old(self).refresh_interval,
            final(self).widget_offset_px == old(self).widget_offset_px,
            final(self).rotation_enabled == old(self).rotation_enabled,
            final(self).codex_endpoint == old(self).codex_endpoint,
            final(self).codex_filter == old(self).codex_filter,
            final(self).weather_city == old(self).weather_city,
            final(self).weather_unit_idx == old(self).weather_unit_idx,
            final(self).discord_enabled == old(self).discord_enabled,
            final(self).discord_background_enabled == old(self).discord_background_enabled,
            final(self).media_dark_mode == old(self).media_dark_mode,
            final(self).discord_client_id == old(self).discord_client_id,
            final(self).discord_client_secret == old(self).discord_client_secret,
            final(self).discord_redirect_uri == old(self).discord_redirect_uri,
            final(self).active_design == old(self).active_design,
            final(self).selected_idx == old(self).selected_idx,
            final(self).selected_page == old(self).selected_page,
            final(self).rotation_designs == old(self).rotation_designs,
            final(self).dirty,
            final(self).status@ == Seq::<char>::empty(),
    {
        self.rotation_interval = decimal_text(secs as u64);
        self.dirty = true;
        self.status = String::new();
    }

    /// How the status line reads, by its first character.
    pub fn status_tone(&self) -> (tone: StatusTone)
        ensures
            tone == spec_status_tone(self.status@),
    {
        let s = self.status.as_str();
        if s.unicode_len() == 0 {
            StatusTone::Neutral
        } else {
            let first = s.get_char(0);
            if first == '✗' {
                StatusTone::Failure
            } else if first == '✓' {
                StatusTone::Success
            } else {
                StatusTone::Neutral
            }
        }
    }

    /// The catalogue entry shown on the library page: the selected one, or
    /// the first when the selection is outside the catalogue.
    pub fn selected_def(&self) -> (def: WidgetDef)
        ensures
            self.selected_idx < catalogue_len() ==> def@ == catalogue_entry(
                self.selected_idx as int,
            ),
            self.selected_idx >= catalogue_len() ==> def@ == catalogue_entry(0),
    {
        let defs = widget_defs();
        if self.selected_idx < 5 {
            proof {
                assert(defs@[self.selected_idx as int]@ == catalogue_entry(self.selected_idx as int));
            }
            defs[self.selected_idx]
        } else {
            proof {
                assert(defs@[0]@ == catalogue_entry(0));
            }
            defs[0]
        }
    }

    /// The rotation sequence as the rotation page spells it: the title of
    /// each queued design, in queue order, joined by arrows.
    pub fn rotation_summary(&self) -> (text: String)
        ensures
            text@ == joined_titles(self.queue()),
    {
        let ghost q = self.queue();
        let mut text = String::new();
        let mut i: usize = 0;
        assert(q.take(0) =~= Seq::<Seq<char>>::empty());
        while i < self.rotation_designs.len()
            invariant
                0 <= i <= self.rotation_designs.len(),
                q == self.queue(),
                text@ == joined_titles(q.take(i as int)),
            decreases self.rotation_designs.len() - i,
        {
            let def = widget_def_by_id(self.rotation_designs[i].as_str());
            proof {
                assert(q.take(i + 1).drop_last() =~= q.take(i as int));
                assert(q.take(i + 1).last() == q[i as int]);
            }
            if i > 0 {
                text.append("  →  ");
            }
            text.append(def.title);
            i = i + 1;
        }
        assert(q.take(self.rotation_designs.len() as int) =~= q);
        text
    }
}

/// The separator between titles in the rotation sequence.
pub open spec fn title_separator() -> Seq<char> {
    "  →  "@
}

/// The titles of the designs of `q`, in order, joined by the separator.
pub open spec fn joined_titles(q: Seq<Seq<char>>) -> Seq<char>
    decreases q.len(),
{
    if q.len() == 0 {
        Seq::empty()
    } else if q.len() == 1 {
        catalogue_entry_for(q[0]).title
    } else {
        joined_titles(q.drop_last()) + title_separator() + catalogue_entry_for(q.last()).title
    }
}

/// A copy of `t`, or `None` when it is empty.
fn text_if_nonempty(t: &String) -> (o: Option<String>)
    ensures
        opt_text(o) == nonempty_or_none(t@),
{
    if t.as_str().is_empty() {
        None
    } else {
        Some(t.clone())
    }
}

} // verus!
