//! Localised interface text and the keybinding help overlay's content.
pub mod i18n;
pub mod text;
pub mod keybind_help;
