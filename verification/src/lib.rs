//! Settings logic of the TaskbarStats widget studio: the widget catalogue,
//! normalisation of the stored design choices, the settings record that is
//! persisted, and the editing state behind the settings window.

pub mod designs;
pub mod catalogue;
pub mod rotation;
pub mod decimal;
pub mod settings;
pub mod state;
pub mod laws;
