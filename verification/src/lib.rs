//! A minimal in-engine scene editor, structured as a plugin for a host
//! game engine. The host owns rendering, input picking and the reactive
//! UI runtime; this crate holds the editor's own state and decisions:
//! which entities are listed, under which display label, which row is
//! highlighted, and what each panel shows.

use vstd::prelude::*;

mod entity_id;
mod label;
mod panels;
mod scene;

pub use entity_id::EntityId;
pub use label::dec_str;
pub use label::digit_char;
pub use label::entity_label;
pub use label::fallback_label;
pub use label::u32_to_decimal;
pub use panels::EditorRoot;
pub use panels::RowBackground;
pub use panels::SceneRow;
pub use panels::TreePanel;
pub use panels::apply_click;
pub use panels::editor_root;
pub use panels::entity_inspector_panel;
pub use panels::initial_selection;
pub use panels::inspector_shows;
pub use panels::row_background;
pub use panels::row_shows;
pub use panels::scene_tree_panel;
pub use panels::tree_panel_shows;
pub use scene::LiveEntity;
pub use scene::SceneEntities;
pub use scene::SceneEntry;
pub use scene::entry_shows;
pub use scene::update_scene_entities;

verus! {

/// Marker for the editor as a whole. The host-facing shell registers it
/// with the engine's plugin system and wires its systems to the engine's
/// startup and update schedules.
pub struct EditorPlugin {}

} // verus!
