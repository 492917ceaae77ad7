use vstd::prelude::*;

use crate::designs::{
    codex_id, lemma_design_ids_distinct, same_text,
    btc_design, btc_id, catalogue_ids, codex_design, discord_design, discord_id, is_known_design,
    media_design, media_id, weather_design, weather_id,
};

verus! {

/// An sRGB colour, one byte per channel.
#[derive(Clone, Copy, Debug, PartialEq, Eq, Structural)]
pub struct Rgb {
    pub r: u8,
    pub g: u8,
    pub b: u8,
}

/// One entry of the widget catalogue.
#[derive(Clone, Copy, Debug)]
pub struct WidgetDef {
    pub id: &'static str,
    pub title: &'static str,
    pub subtitle: &'static str,
    pub description: &'static str,
    pub accent: Rgb,
}

/// What a catalogue entry holds, as plain values.
pub struct WidgetDefView {
    pub id: Seq<char>,
    pub title: Seq<char>,
    pub subtitle: Seq<char>,
    pub description: Seq<char>,
    pub accent: Rgb,
}

impl View for WidgetDef {
    type V = WidgetDefView;

    open spec fn view(&self) -> WidgetDefView {
        WidgetDefView {
            id: self.id@,
            title: self.title@,
            subtitle: self.subtitle@,
            description: self.description@,
            accent: self.accent,
        }
    }
}

/// Number of widgets in the catalogue.
pub open spec fn catalogue_len() -> int {
    5
}

/// Title of the catalogue entry at `i`.
pub open spec fn catalogue_title(i: int) -> Seq<char> {
    if i == 0 {
        "Codex Status"@
    } else if i == 1 {
        "Static Weather"@
    } else if i == 2 {
        "Discord Voice"@
    } else if i == 3 {
        "Crypto Fees"@
    } else {
        "Media Player"@
    }
}

/// Subtitle of the catalogue entry at `i`.
pub open spec fn catalogue_subtitle(i: int) -> Seq<char> {
    if i == 0 {
        "API Quota Monitor"@
    } else if i == 1 {
        "Weather Capsule"@
    } else if i == 2 {
        "Live Voice Avatars"@
    } else if i == 3 {
        "ETH Fee Capsule"@
    } else {
        "Now Playing Control"@
    }
}

/// Description of the catalogue entry at `i`.
pub open spec fn catalogue_description(i: int) -> Seq<char> {
    if i == 0 {
        "Displays real-time Codex API quota and project status directly on \
         your taskbar with a compact status capsule. Tracks active projects, \
         usage metrics, and connection state at a glance."@
    } else if i == 1 {
        "Shows current weather conditions and temperature for your selected \
         city in a beautiful taskbar capsule. Displays location, condition \
         summary, and temperature in your preferred unit."@
    } else if i == 2 {
        "Displays users in your selected Discord voice channel. Speaking users \
         get a bright green frame while inactive users are dimmed, matching the \
         voice activity feel from Discord."@
    } else if i == 3 {
        "A dark crypto-style taskbar card matching the supplied BTC/Fee visual. \
         The current first version is a static design surface for the selected \
         layout."@
    } else {
        "A compact audio widget matching the supplied sound visual. It can toggle \
         the current Windows media session when a playable session is available."@
    }
}

/// Accent colour of the catalogue entry at `i`.
pub open spec fn catalogue_accent(i: int) -> Rgb {
    if i == 0 {
        Rgb { r: 56, g: 189, b: 248 }
    } else if i == 1 {
        Rgb { r: 245, g: 158, b: 11 }
    } else if i == 2 {
        Rgb { r: 34, g: 197, b: 94 }
    } else if i == 3 {
        Rgb { r: 198, g: 105, b: 255 }
    } else {
        Rgb { r: 125, g: 200, b: 226 }
    }
}

/// The catalogue entry at `i`, for `0 <= i < catalogue_len()`.
pub open spec fn catalogue_entry(i: int) -> WidgetDefView {
    WidgetDefView {
        id: catalogue_ids()[i],
        title: catalogue_title(i),
        subtitle: catalogue_subtitle(i),
        description: catalogue_description(i),
        accent: catalogue_accent(i),
    }
}

/// Position in the catalogue of the design `id`; unknown designs sit at 0.
pub open spec fn design_index(id: Seq<char>) -> int {
    if id == weather_id() {
        1
    } else if id == discord_id() {
        2
    } else if id == btc_id() {
        3
    } else if id == media_id() {
        4
    } else {
        0
    }
}

/// Index of the first entry of `ids` equal to `id`, or `ids.len()` when there is none.
pub open spec fn first_index_of(ids: Seq<Seq<char>>, id: Seq<char>) -> int
    decreases ids.len(),
{
    if ids.len() == 0 {
        0
    } else if ids[0] == id {
        0
    } else {
        1 + first_index_of(ids.drop_first(), id)
    }
}

/// The catalogue entry whose identifier is `id`, or the first entry when none is.
pub open spec fn catalogue_entry_for(id: Seq<char>) -> WidgetDefView {
    if is_known_design(id) {
        catalogue_entry(design_index(id))
    } else {
        catalogue_entry(0)
    }
}

/// The catalogue of widgets, in the order the gallery shows them.
pub fn widget_defs() -> (defs: [WidgetDef; 5])
    ensures
        forall|i: int| 0 <= i < catalogue_len() ==> #[trigger] defs@[i]@ == catalogue_entry(i),
        defs@[0].id@ == "codex-status"@,
        defs@[0].title@ == "Codex Status"@,
        defs@[0].subtitle@ == "API Quota Monitor"@,
        defs@[0].description@ == "Displays real-time Codex API quota and project status directly on \
                          your taskbar with a compact status capsule. Tracks active projects, \
                          usage metrics, and connection state at a glance."@,
        defs@[0].accent == (Rgb { r: 56, g: 189, b: 248 }),
        defs@[1].id@ == "weather-static"@,
        defs@[1].title@ == "Static Weather"@,
        defs@[1].subtitle@ == "Weather Capsule"@,
        defs@[1].description@ == "Shows current weather conditions and temperature for your selected \
                          city in a beautiful taskbar capsule. Displays location, condition \
                          summary, and temperature in your preferred unit."@,
        defs@[1].accent == (Rgb { r: 245, g: 158, b: 11 }),
        defs@[2].id@ == "discord-voice"@,
        defs@[2].title@ == "Discord Voice"@,
        defs@[2].subtitle@ == "Live Voice Avatars"@,
        defs@[2].description@ == "Displays users in your selected Discord voice channel. Speaking users \
                          get a bright green frame while inactive users are dimmed, matching the \
                          voice activity feel from Discord."@,
        defs@[2].accent == (Rgb { r: 34, g: 197, b: 94 }),
        defs@[3].id@ == "btc-fees"@,
        defs@[3].title@ == "Crypto Fees"@,
        defs@[3].subtitle@ == "ETH Fee Capsule"@,
        defs@[3].description@ == "A dark crypto-style taskbar card matching the supplied BTC/Fee visual. \
                          The current first version is a static design surface for the selected \
                          layout."@,
        defs@[3].accent == (Rgb { r: 198, g: 105, b: 255 }),
        defs@[4].id@ == "media-player"@,
        defs@[4].title@ == "Media Player"@,
        defs@[4].subtitle@ == "Now Playing Control"@,
        defs@[4].description@ == "A compact audio widget matching the supplied sound visual. It can toggle \
                          the current Windows media session when a playable session is available."@,
        defs@[4].accent == (Rgb { r: 125, g: 200, b: 226 }),
{
    [
        WidgetDef {
            id: codex_design(),
            title: "Codex Status",
            subtitle: "API Quota Monitor",
            description: "Displays real-time Codex API quota and project status directly on \
                          your taskbar with a compact status capsule. Tracks active projects, \
                          usage metrics, and connection state at a glance.",
            accent: Rgb { r: 56, g: 189, b: 248 },
        },
        WidgetDef {
            id: weather_design(),
            title: "Static Weather",
            subtitle: "Weather Capsule",
            description: "Shows current weather conditions and temperature for your selected \
                          city in a beautiful taskbar capsule. Displays location, condition \
                          summary, and temperature in your preferred unit.",
            accent: Rgb { r: 245, g: 158, b: 11 },
        },
        WidgetDef {
            id: discord_design(),
            title: "Discord Voice",
            subtitle: "Live Voice Avatars",
            description: "Displays users in your selected Discord voice channel. Speaking users \
                          get a bright green frame while inactive users are dimmed, matching the \
                          voice activity feel from Discord.",
            accent: Rgb { r: 34, g: 197, b: 94 },
        },
        WidgetDef {
            id: btc_design(),
            title: "Crypto Fees",
            subtitle: "ETH Fee Capsule",
            description: "A dark crypto-style taskbar card matching the supplied BTC/Fee visual. \
                          The current first version is a static design surface for the selected \
                          layout.",
            accent: Rgb { r: 198, g: 105, b: 255 },
        },
        WidgetDef {
            id: media_design(),
            title: "Media Player",
            subtitle: "Now Playing Control",
            description: "A compact audio widget matching the supplied sound visual. It can toggle \
                          the current Windows media session when a playable session is available.",
            accent: Rgb { r: 125, g: 200, b: 226 },
        },
    ]
}

/// The identifiers of the catalogue, entry by entry.
pub proof fn lemma_catalogue_ids()
    ensures
        catalogue_ids().len() == catalogue_len(),
        catalogue_ids()[0] == codex_id(),
        catalogue_ids()[1] == weather_id(),
        catalogue_ids()[2] == discord_id(),
        catalogue_ids()[3] == btc_id(),
        catalogue_ids()[4] == media_id(),
{
}

/// The catalogue entry whose identifier is `id`; the first entry when no
/// entry has that identifier.
pub fn widget_def_by_id(id: &str) -> (def: WidgetDef)
    ensures
        def@ == catalogue_entry_for(id@),
{
    let defs = widget_defs();
    proof {
        lemma_catalogue_ids();
    }
    let mut i: usize = 0;
    while i < 5
        invariant
            0 <= i <= 5,
            forall|k: int| 0 <= k < catalogue_len() ==> #[trigger] defs@[k]@ == catalogue_entry(k),
            forall|k: int| 0 <= k < i ==> catalogue_ids()[k] != id@,
        decreases 5 - i,
    {
        if same_text(defs[i].id, id) {
            proof {
                assert(defs@[i as int]@ == catalogue_entry(i as int));
                assert(catalogue_ids()[i as int] == id@);
                assert(is_known_design(id@));
                lemma_design_ids_distinct();
                if i == 0 {
                    assert(id@ == codex_id());
                } else if i == 1 {
                    assert(id@ == weather_id());
                } else if i == 2 {
                    assert(id@ == discord_id());
                } else if i == 3 {
                    assert(id@ == btc_id());
                } else {
                    assert(id@ == media_id());
                }
                assert(design_index(id@) == i as int);
            }
            return defs[i];
        }
        proof {
            assert(defs@[i as int]@ == catalogue_entry(i as int));
        }
        i = i + 1;
    }
    proof {
        assert(defs@[0]@ == catalogue_entry(0));
        assert forall|k: int| 0 <= k < catalogue_ids().len() implies catalogue_ids()[k] != id@ by {}
        assert(!is_known_design(id@));
    }
    defs[0]
}

/// Position in the catalogue of the design `id`; unknown designs sit at 0.
pub fn design_position(id: &str) -> (i: usize)
    ensures
        i as int == design_index(id@),
        i < catalogue_len(),
{
    if same_text(id, weather_design()) {
        1
    } else if same_text(id, discord_design()) {
        2
    } else if same_text(id, btc_design()) {
        3
    } else if same_text(id, media_design()) {
        4
    } else {
        0
    }
}

/// The block of widget-specific settings that the settings page shows.
#[derive(Clone, Copy, Debug, PartialEq, Eq, Structural)]
pub enum SettingsSection {
    Codex,
    Weather,
    Discord,
    Media,
    NoOptions,
}

/// The settings block shown for the design `id`.
pub open spec fn spec_settings_section(id: Seq<char>) -> SettingsSection {
    if id == codex_id() {
        SettingsSection::Codex
    } else if id == weather_id() {
        SettingsSection::Weather
    } else if id == discord_id() {
        SettingsSection::Discord
    } else if id == media_id() {
        SettingsSection::Media
    } else {
        SettingsSection::NoOptions
    }
}

/// Which settings block belongs to the design `id`: the crypto fee widget
/// and unknown designs have none.
pub fn settings_section_for(id: &str) -> (s: SettingsSection)
    ensures
        s == spec_settings_section(id@),
{
    if same_text(id, codex_design()) {
        SettingsSection::Codex
    } else if same_text(id, weather_design()) {
        SettingsSection::Weather
    } else if same_text(id, discord_design()) {
        SettingsSection::Discord
    } else if same_text(id, media_design()) {
        SettingsSection::Media
    } else {
        SettingsSection::NoOptions
    }
}

/// The catalogue entry looked up for any design identifier: each design
/// carries its own title, subtitle, description and accent, and an unknown
/// identifier gets the Codex entry.
pub proof fn law_catalogue_entry_texts(id: Seq<char>)
    ensures
        id == "codex-status"@ ==> {
            &&& catalogue_entry_for(id).id == "codex-status"@
            &&& catalogue_entry_for(id).title == "Codex Status"@
            &&& catalogue_entry_for(id).subtitle == "API Quota Monitor"@
            &&& catalogue_entry_for(id).description == "Displays real-time Codex API quota and project status directly on \
                          your taskbar with a compact status capsule. Tracks active projects, \
                          usage metrics, and connection state at a glance."@
            &&& catalogue_entry_for(id).accent == (Rgb { r: 56, g: 189, b: 248 })
        },
        id == "weather-static"@ ==> {
            &&& catalogue_entry_for(id).id == "weather-static"@
            &&& catalogue_entry_for(id).title == "Static Weather"@
            &&& catalogue_entry_for(id).subtitle == "Weather Capsule"@
            &&& catalogue_entry_for(id).description == "Shows current weather conditions and temperature for your selected \
                          city in a beautiful taskbar capsule. Displays location, condition \
                          summary, and temperature in your preferred unit."@
            &&& catalogue_entry_for(id).accent == (Rgb { r: 245, g: 158, b: 11 })
        },
        id == "discord-voice"@ ==> {
            &&& catalogue_entry_for(id).id == "discord-voice"@
            &&& catalogue_entry_for(id).title == "Discord Voice"@
            &&& catalogue_entry_for(id).subtitle == "Live Voice Avatars"@
            &&& catalogue_entry_for(id).description == "Displays users in your selected Discord voice channel. Speaking users \
                          get a bright green frame while inactive users are dimmed, matching the \
                          voice activity feel from Discord."@
            &&& catalogue_entry_for(id).accent == (Rgb { r: 34, g: 197, b: 94 })
        },
        id == "btc-fees"@ ==> {
            &&& catalogue_entry_for(id).id == "btc-fees"@
            &&& catalogue_entry_for(id).title == "Crypto Fees"@
            &&& catalogue_entry_for(id).subtitle == "ETH Fee Capsule"@
            &&& catalogue_entry_for(id).description == "A dark crypto-style taskbar card matching the supplied BTC/Fee visual. \
                          The current first version is a static design surface for the selected \
                          layout."@
            &&& catalogue_entry_for(id).accent == (Rgb { r: 198, g: 105, b: 255 })
        },
        id == "media-player"@ ==> {
            &&& catalogue_entry_for(id).id == "media-player"@
            &&& catalogue_entry_for(id).title == "Media Player"@
            &&& catalogue_entry_for(id).subtitle == "Now Playing Control"@
            &&& catalogue_entry_for(id).description == "A compact audio widget matching the supplied sound visual. It can toggle \
                          the current Windows media session when a playable session is available."@
            &&& catalogue_entry_for(id).accent == (Rgb { r: 125, g: 200, b: 226 })
        },
        !is_known_design(id) ==> {
            &&& catalogue_entry_for(id).id == "codex-status"@
            &&& catalogue_entry_for(id).title == "Codex Status"@
            &&& catalogue_entry_for(id).subtitle == "API Quota Monitor"@
            &&& catalogue_entry_for(id).description == "Displays real-time Codex API quota and project status directly on \
                          your taskbar with a compact status capsule. Tracks active projects, \
                          usage metrics, and connection state at a glance."@
            &&& catalogue_entry_for(id).accent == (Rgb { r: 56, g: 189, b: 248 })
        },
{
    lemma_catalogue_ids();
    lemma_design_ids_distinct();
    if is_known_design(id) {
        let k = choose|k: int| 0 <= k < catalogue_ids().len() && catalogue_ids()[k] == id;
        assert(k == 0 || k == 1 || k == 2 || k == 3 || k == 4);
        assert(design_index(id) == k);
    }
    assert(is_known_design(codex_id())) by {
        assert(catalogue_ids()[0] == codex_id());
    }
    assert(is_known_design(weather_id())) by {
        assert(catalogue_ids()[1] == weather_id());
    }
    assert(is_known_design(discord_id())) by {
        assert(catalogue_ids()[2] == discord_id());
    }
    assert(is_known_design(btc_id())) by {
        assert(catalogue_ids()[3] == btc_id());
    }
    assert(is_known_design(media_id())) by {
        assert(catalogue_ids()[4] == media_id());
    }
}

} // verus!
