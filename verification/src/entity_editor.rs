//! Editing an entity's attributes in its details window and in the
//! create-entity modal.

use vstd::prelude::*;

use crate::listing::{find_index, index_of, remove_id, renumber, renumbered, without_id};
use crate::text::{decimal_int, push_decimal_i64, push_str, to_string};
use crate::types::{Entity, EntityAttribute};

verus! {

/// Tabs of an entity window.
#[derive(Clone, Copy, PartialEq, Eq, Structural, Debug)]
pub enum EntityTab {
    Attributes,
    Links,
    Inlinks,
}

/// State of an entity details window. Its place and size on screen are
/// kept by the user interface.
#[derive(Clone, Debug)]
pub struct EntityDetailsWindow {
    pub id: String,
    pub entity_id: String,
    pub entity: Option<Entity>,
    pub active_tab: EntityTab,
    pub error: Option<String>,
    pub is_loading: bool,
    pub is_delete_confirm_open: bool,
    pub is_info_open: bool,
    pub is_owner_open: bool,
    pub is_edit_mode: bool,
    pub z_index: u32,
    pub edit_attributes: Vec<EntityAttribute>,
    pub edit_error: Option<String>,
    pub is_saving: bool,
    pub revealed_attribute_ids: Vec<String>,
    pub edit_open_access_level_menu_id: Option<String>,
    pub edit_open_value_type_menu_id: Option<String>,
    pub edit_listing_attribute_id: String,
    pub dragged_edit_attribute_id: Option<String>,
}

/// Where a new entity starts from.
#[derive(Clone, Copy, PartialEq, Eq, Structural, Debug)]
pub enum CreateEntitySource {
    Template,
    Scratch,
}

/// State of the create-entity modal.
#[derive(Clone, Debug)]
pub struct CreateEntityState {
    pub source: CreateEntitySource,
    pub entity_template_id: String,
    pub attributes: Vec<EntityAttribute>,
    pub listing_attribute_id: String,
    pub error: Option<String>,
    pub is_saving: bool,
    pub active_tab: EntityTab,
    pub open_access_level_menu_id: Option<String>,
    pub open_value_type_menu_id: Option<String>,
    pub is_listing_attribute_menu_open: bool,
}

/// A new, empty attribute with the given id, access level and listing index.
pub open spec fn blank_attribute(
    id: String,
    access_level_id: u32,
    listing_index: i32,
    a: EntityAttribute,
) -> bool {
    &&& a.access_level_id == access_level_id
    &&& a.description@ == Seq::<char>::empty()
    &&& a.id == id
    &&& !a.is_required
    &&& a.listing_index == listing_index
    &&& a.name@ == Seq::<char>::empty()
    &&& a.value@ == Seq::<char>::empty()
    &&& a.value_type@ == "text"@
}

fn blank(id: String, access_level_id: u32, listing_index: i32) -> (a: EntityAttribute)
    ensures
        blank_attribute(id, access_level_id, listing_index, a),
{
    EntityAttribute {
        access_level_id,
        description: String::new(),
        id,
        is_required: false,
        listing_index,
        name: String::new(),
        value: String::new(),
        value_type: "text".to_owned(),
    }
}

/// Gives every attribute its position as listing index.
pub fn renumber_entity_attributes(attributes: &mut Vec<EntityAttribute>)
    ensures
        final(attributes)@ == renumbered(old(attributes)@),
{
    renumber(attributes);
}

/// Adds an empty text attribute with id `id` at the end of the edited
/// attributes; it becomes the listing attribute when there is none. The
/// window shows the attributes tab, the error clears, menus close and any
/// drag ends.
pub fn add_edit_entity_attribute(window: &mut EntityDetailsWindow, default_access_level_id: u32, id: String)
    ensures
        ({
            let w = *old(window);
            let r = *final(window);
            &&& r.edit_attributes@.drop_last() == w.edit_attributes@
            &&& r.edit_attributes@.len() == w.edit_attributes@.len() + 1
            &&& blank_attribute(
                id,
                default_access_level_id,
                w.edit_attributes@.len() as i32,
                r.edit_attributes@.last(),
            )
            &&& r == EntityDetailsWindow {
                edit_attributes: r.edit_attributes,
                edit_listing_attribute_id: if w.edit_listing_attribute_id@.len() == 0 {
                    id
                } else {
                    w.edit_listing_attribute_id
                },
                active_tab: EntityTab::Attributes,
                edit_error: None,
                edit_open_access_level_menu_id: None,
                edit_open_value_type_menu_id: None,
                dragged_edit_attribute_id: None,
                ..w
            }
        }),
{
    #[verifier::truncate]
    let idx = window.edit_attributes.len() as i32;
    let listing = id.clone();
    let ghost before = window.edit_attributes@;
    window.edit_attributes.push(blank(id, default_access_level_id, idx));
    assert(window.edit_attributes@.drop_last() =~= before);
    if window.edit_listing_attribute_id.as_str().is_empty() {
        window.edit_listing_attribute_id = listing;
    }
    window.active_tab = EntityTab::Attributes;
    window.edit_error = None;
    window.edit_open_access_level_menu_id = None;
    window.edit_open_value_type_menu_id = None;
    window.dragged_edit_attribute_id = None;
}

/// The id of the first attribute, or the empty id.
pub open spec fn first_id(s: Seq<EntityAttribute>) -> Seq<char> {
    if s.len() == 0 {
        Seq::empty()
    } else {
        s[0].id@
    }
}

/// Removes an edited attribute, unless it is the only one. The remaining
/// attributes are renumbered; when the removed one was the listing
/// attribute, or there was none, the first remaining one becomes it. The
/// error clears, menus close and any drag ends.
pub fn remove_edit_entity_attribute(window: &mut EntityDetailsWindow, attribute_id: &str)
    ensures
        old(window).edit_attributes@.len() <= 1 ==> *final(window) == *old(window),
        old(window).edit_attributes@.len() > 1 ==> ({
            let w = *old(window);
            let r = *final(window);
            let kept = without_id(w.edit_attributes@, attribute_id@);
            &&& r.edit_attributes@ == renumbered(kept)
            &&& r.edit_listing_attribute_id@ == (if w.edit_listing_attribute_id@ == attribute_id@
                || w.edit_listing_attribute_id@.len() == 0 {
                first_id(kept)
            } else {
                w.edit_listing_attribute_id@
            })
            &&& r == EntityDetailsWindow {
                edit_attributes: r.edit_attributes,
                edit_listing_attribute_id: r.edit_listing_attribute_id,
                edit_error: None,
                edit_open_access_level_menu_id: None,
                edit_open_value_type_menu_id: None,
                dragged_edit_attribute_id: None,
                ..w
            }
        }),
{
    if window.edit_attributes.len() <= 1 {
        return ;
    }
    let id = attribute_id.to_owned();
    remove_id(&mut window.edit_attributes, &id);
    renumber(&mut window.edit_attributes);
    if window.edit_listing_attribute_id == id || window.edit_listing_attribute_id.as_str().is_empty() {
        window.edit_listing_attribute_id = if window.edit_attributes.len() > 0 {
            window.edit_attributes[0].id.clone()
        } else {
            String::new()
        };
    }
    window.edit_error = None;
    window.edit_open_access_level_menu_id = None;
    window.edit_open_value_type_menu_id = None;
    window.dragged_edit_attribute_id = None;
}

/// What dragging the dragged attribute of `w` onto `target` leaves in `r`:
/// the dragged attribute takes the target's position among the edited
/// attributes and all are renumbered; otherwise nothing changes.
pub open spec fn edit_reorder_outcome(w: EntityDetailsWindow, target: Seq<char>, r: EntityDetailsWindow) -> bool {
    match w.dragged_edit_attribute_id {
        None => r == w,
        Some(d) => {
            let s = w.edit_attributes@;
            let f = index_of(s, d@);
            let t = index_of(s, target);
            if d@ == target || f < 0 || t < 0 {
                r == w
            } else {
                let rest = s.remove(f);
                let at = if t < rest.len() {
                    t
                } else {
                    rest.len() as int
                };
                &&& r.edit_attributes@ == renumbered(rest.insert(at, s[f]))
                &&& r == EntityDetailsWindow { edit_attributes: r.edit_attributes, ..w }
            }
        },
    }
}

/// Moves the dragged edited attribute to the position of
/// `target_attribute_id` and renumbers the attributes.
pub fn reorder_dragged_edit_entity_attribute(window: &mut EntityDetailsWindow, target_attribute_id: &str)
    ensures
        edit_reorder_outcome(*old(window), target_attribute_id@, *final(window)),
{
    let dragged = match &window.dragged_edit_attribute_id {
        Some(d) => d.clone(),
        None => {
            return ;
        },
    };
    let target = target_attribute_id.to_owned();
    if dragged == target {
        return ;
    }
    let from = match find_index(&window.edit_attributes, &dragged) {
        Some(i) => i,
        None => {
            return ;
        },
    };
    let to = match find_index(&window.edit_attributes, &target) {
        Some(i) => i,
        None => {
            return ;
        },
    };
    let item = window.edit_attributes.remove(from);
    let at = if to < window.edit_attributes.len() {
        to
    } else {
        window.edit_attributes.len()
    };
    window.edit_attributes.insert(at, item);
    renumber(&mut window.edit_attributes);
}

/// The id a new scratch attribute gets at position `i`.
pub open spec fn scratch_attribute_id(i: i32) -> Seq<char> {
    "new-"@ + decimal_int(i as int)
}

/// Adds an empty text attribute with id `new-<position>` at the end; it
/// becomes the listing attribute when there is none. The attributes tab
/// shows and all menus close.
pub fn add_create_entity_attribute(state: &mut CreateEntityState, default_access_level_id: u32)
    ensures
        ({
            let s = *old(state);
            let r = *final(state);
            let idx = s.attributes@.len() as i32;
            let new_id = r.attributes@.last().id;
            &&& new_id@ == scratch_attribute_id(idx)
            &&& r.attributes@.drop_last() == s.attributes@
            &&& r.attributes@.len() == s.attributes@.len() + 1
            &&& blank_attribute(new_id, default_access_level_id, idx, r.attributes@.last())
            &&& r == CreateEntityState {
                attributes: r.attributes,
                listing_attribute_id: if s.listing_attribute_id@.len() == 0 {
                    new_id
                } else {
                    s.listing_attribute_id
                },
                active_tab: EntityTab::Attributes,
                open_access_level_menu_id: None,
                open_value_type_menu_id: None,
                is_listing_attribute_menu_open: false,
                ..s
            }
        }),
{
    #[verifier::truncate]
    let idx = state.attributes.len() as i32;
    let mut id: Vec<char> = Vec::new();
    push_str(&mut id, "new-");
    push_decimal_i64(&mut id, idx as i64);
    assert(id@ =~= scratch_attribute_id(idx));
    let id = to_string(&id);
    let listing = id.clone();
    let ghost before = state.attributes@;
    state.attributes.push(blank(id, default_access_level_id, idx));
    assert(state.attributes@.drop_last() =~= before);
    if state.listing_attribute_id.as_str().is_empty() {
        state.listing_attribute_id = listing;
    }
    state.active_tab = EntityTab::Attributes;
    state.open_access_level_menu_id = None;
    state.open_value_type_menu_id = None;
    state.is_listing_attribute_menu_open = false;
}

/// Removes an attribute and renumbers the rest; when it was the listing
/// attribute, the first remaining one (or none) takes its place. All menus
/// close.
pub fn remove_create_entity_attribute(state: &mut CreateEntityState, attribute_id: &str)
    ensures
        ({
            let s = *old(state);
            let r = *final(state);
            let kept = without_id(s.attributes@, attribute_id@);
            &&& r.attributes@ == renumbered(kept)
            &&& r.listing_attribute_id@ == (if s.listing_attribute_id@ == attribute_id@ {
                first_id(kept)
            } else {
                s.listing_attribute_id@
            })
            &&& r == CreateEntityState {
                attributes: r.attributes,
                listing_attribute_id: r.listing_attribute_id,
                open_access_level_menu_id: None,
                open_value_type_menu_id: None,
                is_listing_attribute_menu_open: false,
                ..s
            }
        }),
{
    let id = attribute_id.to_owned();
    remove_id(&mut state.attributes, &id);
    renumber(&mut state.attributes);
    if state.listing_attribute_id == id {
        state.listing_attribute_id = if state.attributes.len() > 0 {
            state.attributes[0].id.clone()
        } else {
            String::new()
        };
    }
    state.open_access_level_menu_id = None;
    state.open_value_type_menu_id = None;
    state.is_listing_attribute_menu_open = false;
}

} // verus!
