# TaskbarStats settings

The logic behind the TaskbarStats settings window ("Widget Studio"), verified
with Verus, and the egui window around it.

- `src/designs.rs`: the design identifiers and how a stored identifier is
  normalised.
- `src/catalogue.rs`: the widget catalogue (titles, descriptions, accent
  colours), lookup by identifier, and which settings block a design has.
- `src/rotation.rs`: the rotation queue: normalising a stored list, ticking
  and unticking designs, moving entries.
- `src/decimal.rs`: reading and writing the interval numbers as decimal text.
- `src/settings.rs`: the stored settings record, the settings file text, and
  the update report shown on the updates page.
- `src/state.rs`: the editing state of the window: loading, saving,
  selecting, resetting, and the status line.
- `src/laws.rs`: properties that span several operations, such as loading
  what saving writes.
- `app/main.rs`: the window itself (eframe/egui), file access, the JSON
  layout (serde), and starting the loader for updates.
