//! Window tracking, hotkey dispatch and input sequencing for several
//! windows of one game client running side by side.

pub mod model;
pub mod store;
pub mod registry;
pub mod text;
pub mod hotkey;
pub mod sequencer;
pub mod desktop;
