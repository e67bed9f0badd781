//! What each editor panel shows, decided from the editor's own state:
//! the scene tree either reports that no entities exist or lists one row
//! per entry, the selected row highlighted; the inspector either invites
//! a selection or stands ready for the selected entity's components.

use vstd::prelude::*;

use crate::entity_id::EntityId;
use crate::scene::SceneEntities;
use crate::scene::SceneEntry;

verus! {

/// The background a scene tree row is drawn with: the selected row in
/// purple, every other row in midnight blue.
#[derive(PartialEq, Eq, Structural, Clone, Copy, Debug)]
pub enum RowBackground {
    Purple,
    MidnightBlue,
}

/// One row of the scene tree as it is to be drawn: which entity it
/// stands for, the label on it, and its background. Clicking the row
/// selects its entity.
pub struct SceneRow {
    pub id: EntityId,
    pub label: String,
    pub background: RowBackground,
}

/// What the scene tree panel shows: a message while no entities exist,
/// otherwise one row per listed entity.
pub enum TreePanel {
    Message(&'static str),
    Rows(Vec<SceneRow>),
}

/// A drawn row renders one list entry under the current selection: same
/// entity, same label, and a purple background exactly on the selected
/// entity's row.
pub open spec fn row_shows(row: SceneRow, entry: SceneEntry, selected: Option<EntityId>) -> bool {
    &&& row.id == entry.id
    &&& row.label@ == entry.label@
    &&& (row.background == RowBackground::Purple) <==> (selected == Some(entry.id))
}

/// The scene tree panel renders the entity list under the current
/// selection: the empty-scene message exactly while the list is empty,
/// otherwise one row per entry, in order.
pub open spec fn tree_panel_shows(
    r: TreePanel,
    entries: Seq<SceneEntry>,
    selected: Option<EntityId>,
) -> bool {
    if entries.len() == 0 {
        r matches TreePanel::Message(m) && m@ == "No entities exist"@
    } else {
        r matches TreePanel::Rows(rows) && rows@.len() == entries.len() && (forall|i: int|
            #![trigger rows@[i]]
            0 <= i < entries.len() ==> row_shows(rows@[i], entries[i], selected))
    }
}

/// The inspector panel's text under the current selection: a placeholder
/// for the selected entity's component widgets while something is
/// selected, otherwise an invitation to select an entity.
pub open spec fn inspector_shows(text: Seq<char>, selected: Option<EntityId>) -> bool {
    match selected {
        Some(_) => text == "TODO: Component widgets"@,
        None => text == "Select an entity to view its components"@,
    }
}

/// The background for the row of entity `id` while `selected` is the
/// current selection: purple exactly when that row is the selected one.
pub fn row_background(selected: Option<EntityId>, id: EntityId) -> (r: RowBackground)
    ensures
        (r == RowBackground::Purple) <==> (selected == Some(id)),
{
    match selected {
        Some(s) => {
            if s == id {
                RowBackground::Purple
            } else {
                RowBackground::MidnightBlue
            }
        },
        None => RowBackground::MidnightBlue,
    }
}

/// Decides what the scene tree panel shows. While the list is empty, a
/// message saying so; otherwise one row per entry, in order, each under
/// the entry's label and with the selected row highlighted.
pub fn scene_tree_panel(scene: &SceneEntities, selected: Option<EntityId>) -> (r: TreePanel)
    ensures
        tree_panel_shows(r, scene.0@, selected),
{
    if scene.0.is_empty() {
        TreePanel::Message("No entities exist")
    } else {
        let mut rows: Vec<SceneRow> = Vec::new();
        let mut i: usize = 0;
        while i < scene.0.len()
            invariant
                i <= scene.0@.len(),
                rows@.len() == i,
                forall|j: int| #![trigger rows@[j]]
                    0 <= j < i ==> row_shows(rows@[j], scene.0@[j], selected),
            decreases scene.0@.len() - i,
        {
            let entry = &scene.0[i];
            let row = SceneRow {
                id: entry.id,
                label: entry.label.clone(),
                background: row_background(selected, entry.id),
            };
            let ghost pre = rows@;
            rows.push(row);
            proof {
                assert(forall|j: int| 0 <= j < i ==> rows@[j] == pre[j]);
            }
            i += 1;
        }
        TreePanel::Rows(rows)
    }
}

/// Decides what the inspector panel shows for the current selection.
pub fn entity_inspector_panel(selected: Option<EntityId>) -> (r: &'static str)
    ensures
        inspector_shows(r@, selected),
{
    if selected.is_some() {
        "TODO: Component widgets"
    } else {
        "Select an entity to view its components"
    }
}

/// The editor's root view: the scene tree panel beside the inspector
/// panel, both decided from the same state.
pub struct EditorRoot {
    pub tree: TreePanel,
    pub inspector: &'static str,
}

/// Decides the whole editor view from the entity list and the current
/// selection.
pub fn editor_root(scene: &SceneEntities, selected: Option<EntityId>) -> (r: EditorRoot)
    ensures
        tree_panel_shows(r.tree, scene.0@, selected),
        inspector_shows(r.inspector@, selected),
{
    EditorRoot {
        tree: scene_tree_panel(scene, selected),
        inspector: entity_inspector_panel(selected),
    }
}

/// The selection an editor starts with: nothing selected.
pub fn initial_selection() -> (r: Option<EntityId>)
    ensures
        r is None,
{
    None
}

/// Applies a click to the selection: a click on a row hands the row's
/// entity as the target, a click on the panel's background hands none,
/// and the selection becomes exactly that target.
pub fn apply_click(selected: &mut Option<EntityId>, target: Option<EntityId>)
    ensures
        *final(selected) == target,
{
    *selected = target;
}

} // verus!
