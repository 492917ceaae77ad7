use vstd::prelude::*;

verus! {

/// Identifier of the Codex status widget, the default design.
pub open spec fn codex_id() -> Seq<char> {
    "codex-status"@
}

/// Identifier of the static weather widget.
pub open spec fn weather_id() -> Seq<char> {
    "weather-static"@
}

/// Identifier of the Discord voice widget.
pub open spec fn discord_id() -> Seq<char> {
    "discord-voice"@
}

/// Identifier of the crypto fee widget.
pub open spec fn btc_id() -> Seq<char> {
    "btc-fees"@
}

/// Identifier of the media player widget.
pub open spec fn media_id() -> Seq<char> {
    "media-player"@
}

/// The design identifiers in catalogue order.
pub open spec fn catalogue_ids() -> Seq<Seq<char>> {
    seq![codex_id(), weather_id(), discord_id(), btc_id(), media_id()]
}

/// Whether `id` names one of the catalogue's designs.
pub open spec fn is_known_design(id: Seq<char>) -> bool {
    catalogue_ids().contains(id)
}

/// The design that a stored identifier stands for: a known identifier
/// stands for itself, anything else for the Codex widget.
pub open spec fn spec_normalize_design(id: Seq<char>) -> Seq<char> {
    if id == btc_id() || id == media_id() || id == discord_id() || id == weather_id() {
        id
    } else {
        codex_id()
    }
}

/// The identifiers of the catalogue are pairwise distinct.
pub proof fn lemma_design_ids_distinct()
    ensures
        codex_id() != weather_id(),
        codex_id() != discord_id(),
        codex_id() != btc_id(),
        codex_id() != media_id(),
        weather_id() != discord_id(),
        weather_id() != btc_id(),
        weather_id() != media_id(),
        discord_id() != btc_id(),
        discord_id() != media_id(),
        btc_id() != media_id(),
{
    reveal_strlit("codex-status");
    reveal_strlit("weather-static");
    reveal_strlit("discord-voice");
    reveal_strlit("btc-fees");
    reveal_strlit("media-player");
    assert(codex_id()[0] != weather_id()[0]);
    assert(codex_id()[0] != discord_id()[0]);
    assert(codex_id()[0] != btc_id()[0]);
    assert(codex_id()[0] != media_id()[0]);
    assert(weather_id()[0] != discord_id()[0]);
    assert(weather_id()[0] != btc_id()[0]);
    assert(weather_id()[0] != media_id()[0]);
    assert(discord_id()[0] != btc_id()[0]);
    assert(discord_id()[0] != media_id()[0]);
    assert(btc_id()[0] != media_id()[0]);
}

/// Whether two strings hold the same characters.
pub fn same_text(a: &str, b: &str) -> (r: bool)
    ensures
        r == (a@ == b@),
{
    let x = a.to_owned();
    let y = b.to_owned();
    x == y
}

/// Identifier of the Codex status widget.
pub fn codex_design() -> (r: &'static str)
    ensures
        r@ == codex_id(),
{
    "codex-status"
}

/// Identifier of the static weather widget.
pub fn weather_design() -> (r: &'static str)
    ensures
        r@ == weather_id(),
{
    "weather-static"
}

/// Identifier of the Discord voice widget.
pub fn discord_design() -> (r: &'static str)
    ensures
        r@ == discord_id(),
{
    "discord-voice"
}

/// Identifier of the crypto fee widget.
pub fn btc_design() -> (r: &'static str)
    ensures
        r@ == btc_id(),
{
    "btc-fees"
}

/// Identifier of the media player widget.
pub fn media_design() -> (r: &'static str)
    ensures
        r@ == media_id(),
{
    "media-player"
}

/// Maps a stored design identifier to the design it stands for: known
/// identifiers are kept, anything else falls back to the Codex widget.
pub fn normalize_design(id: &str) -> (r: &'static str)
    ensures
        r@ == spec_normalize_design(id@),
        is_known_design(r@),
        is_known_design(id@) ==> r@ == id@,
{
    proof {
        assert(catalogue_ids()[0] == codex_id());
        assert(catalogue_ids()[1] == weather_id());
        assert(catalogue_ids()[2] == discord_id());
        assert(catalogue_ids()[3] == btc_id());
        assert(catalogue_ids()[4] == media_id());
    }
    if same_text(id, btc_design()) {
        btc_design()
    } else if same_text(id, media_design()) {
        media_design()
    } else if same_text(id, discord_design()) {
        discord_design()
    } else if same_text(id, weather_design()) {
        weather_design()
    } else {
        codex_design()
    }
}

} // verus!
