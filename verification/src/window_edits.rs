//! The edits of an entity details window: its titlebar buttons, its tabs,
//! and the changes to the attributes while editing.

use vstd::prelude::*;

use crate::entity_editor::{EntityDetailsWindow, EntityTab};
use crate::entity_flows::windows_except;
use crate::explorer::has_window_id;
use crate::listing::{find_index, first_where, index_of, lemma_first_where_prefix, lemma_index_of_facts};
use crate::text::{parse_u32, parsed_u32, trim, trim_str};
use crate::text_std::str_eq;
use crate::types::{dup_vec, EntityAttribute};

verus! {

/// An edit of an entity window.
#[derive(Clone, Debug)]
pub enum WindowEdit {
    /// The edit button: editing starts from the entity as loaded.
    StartEdit,
    /// The cancel button: the edits are dropped.
    CancelEdit,
    ToggleInfo,
    OpenDeleteConfirm,
    CancelDeleteConfirm,
    ToggleOwner,
    /// A click in the window closes its popovers and menus.
    CloseMenus,
    Tab(EntityTab),
    AttributeName(String, String),
    AttributeValue(String, String),
    /// Shows or hides the value of a restricted attribute.
    ToggleReveal(String),
    ToggleValueTypeMenu(String),
    /// A new value type, which clears the value.
    AttributeValueType(String, String),
    ToggleAccessLevelMenu(String),
    /// The access-level menu chose the level whose id is this text.
    AttributeAccessLevel(String, String),
    StartDrag(String),
    EndDrag,
}

/// `b` is `a` with the attribute `id` (the first with that id) replaced by
/// one satisfying `f` with the old one; unchanged when there is none.
pub open spec fn attribute_changed(
    a: Seq<EntityAttribute>,
    b: Seq<EntityAttribute>,
    id: Seq<char>,
    f: spec_fn(EntityAttribute, EntityAttribute) -> bool,
) -> bool {
    let k = index_of(a, id);
    &&& k < 0 ==> b == a
    &&& k >= 0 ==> {
        &&& b.len() == a.len()
        &&& forall|j: int| 0 <= j < a.len() && j != k ==> #[trigger] b[j] == a[j]
        &&& f(a[k], b[k])
    }
}

/// The texts of strings.
pub open spec fn texts(s: Seq<String>) -> Seq<Seq<char>> {
    s.map_values(|x: String| x@)
}

/// Holds of the strings other than `t`.
pub open spec fn other_text(t: Seq<char>) -> spec_fn(String) -> bool {
    |x: String| x@ != t
}

/// The menu id after toggling the menu of `id`.
pub open spec fn toggled_menu(current: Option<String>, id: String) -> Option<String> {
    match current {
        Some(c) => if c@ == id@ {
            None
        } else {
            Some(id)
        },
        None => Some(id),
    }
}

/// `r` is the window `w` after the edit `e`.
pub open spec fn window_edited(w: EntityDetailsWindow, e: WindowEdit, r: EntityDetailsWindow) -> bool {
    match e {
        WindowEdit::StartEdit => {
            &&& r == EntityDetailsWindow {
                is_edit_mode: true,
                active_tab: if w.active_tab == EntityTab::Inlinks {
                    EntityTab::Attributes
                } else {
                    w.active_tab
                },
                is_info_open: false,
                is_delete_confirm_open: false,
                edit_open_access_level_menu_id: None,
                edit_open_value_type_menu_id: None,
                dragged_edit_attribute_id: None,
                edit_attributes: r.edit_attributes,
                edit_listing_attribute_id: r.edit_listing_attribute_id,
                ..w
            }
            &&& match w.entity {
                Some(en) => r.edit_attributes@ == en.attributes@ && r.edit_listing_attribute_id
                    == en.listing_attribute_id,
                None => r.edit_attributes == w.edit_attributes && r.edit_listing_attribute_id
                    == w.edit_listing_attribute_id,
            }
        },
        WindowEdit::CancelEdit => {
            &&& r == EntityDetailsWindow {
                is_edit_mode: false,
                edit_error: None,
                edit_open_access_level_menu_id: None,
                edit_open_value_type_menu_id: None,
                dragged_edit_attribute_id: None,
                edit_attributes: r.edit_attributes,
                edit_listing_attribute_id: r.edit_listing_attribute_id,
                ..w
            }
            &&& match w.entity {
                Some(en) => r.edit_attributes@ == en.attributes@ && r.edit_listing_attribute_id
                    == en.listing_attribute_id,
                None => r.edit_attributes == w.edit_attributes && r.edit_listing_attribute_id
                    == w.edit_listing_attribute_id,
            }
        },
        WindowEdit::ToggleInfo => r == EntityDetailsWindow {
            is_info_open: !w.is_info_open,
            is_delete_confirm_open: false,
            is_owner_open: false,
            ..w
        },
        WindowEdit::OpenDeleteConfirm => r == EntityDetailsWindow {
            is_delete_confirm_open: true,
            is_info_open: false,
            is_owner_open: false,
            ..w
        },
        WindowEdit::CancelDeleteConfirm => r == EntityDetailsWindow {
            is_delete_confirm_open: false,
            ..w
        },
        WindowEdit::ToggleOwner => r == EntityDetailsWindow {
            is_owner_open: !w.is_owner_open,
            is_info_open: false,
            is_delete_confirm_open: false,
            ..w
        },
        WindowEdit::CloseMenus => r == EntityDetailsWindow {
            is_info_open: false,
            is_delete_confirm_open: false,
            is_owner_open: false,
            edit_open_access_level_menu_id: None,
            edit_open_value_type_menu_id: None,
            dragged_edit_attribute_id: None,
            ..w
        },
        WindowEdit::Tab(tab) => r == EntityDetailsWindow { active_tab: tab, ..w },
        WindowEdit::AttributeName(id, v) => {
            &&& r == EntityDetailsWindow { edit_attributes: r.edit_attributes, ..w }
            &&& attribute_changed(
                w.edit_attributes@,
                r.edit_attributes@,
                id@,
                |x: EntityAttribute, y: EntityAttribute| y == EntityAttribute { name: v, ..x },
            )
        },
        WindowEdit::AttributeValue(id, v) => {
            &&& r == EntityDetailsWindow { edit_attributes: r.edit_attributes, ..w }
            &&& attribute_changed(
                w.edit_attributes@,
                r.edit_attributes@,
                id@,
                |x: EntityAttribute, y: EntityAttribute| y == EntityAttribute { value: v, ..x },
            )
        },
        WindowEdit::ToggleReveal(id) => {
            &&& r == EntityDetailsWindow { revealed_attribute_ids: r.revealed_attribute_ids, ..w }
            &&& if texts(w.revealed_attribute_ids@).contains(id@) {
                r.revealed_attribute_ids@ == w.revealed_attribute_ids@.filter(other_text(id@))
            } else {
                r.revealed_attribute_ids@ == w.revealed_attribute_ids@.push(id)
            }
        },
        WindowEdit::ToggleValueTypeMenu(id) => r == EntityDetailsWindow {
            edit_open_value_type_menu_id: toggled_menu(w.edit_open_value_type_menu_id, id),
            edit_open_access_level_menu_id: None,
            ..w
        },
        WindowEdit::AttributeValueType(id, v) => {
            &&& r == EntityDetailsWindow {
                edit_attributes: r.edit_attributes,
                edit_open_value_type_menu_id: None,
                ..w
            }
            &&& attribute_changed(
                w.edit_attributes@,
                r.edit_attributes@,
                id@,
                |x: EntityAttribute, y: EntityAttribute|
                    y == EntityAttribute { value_type: v, value: y.value, ..x } && y.value@.len()
                        == 0,
            )
        },
        WindowEdit::ToggleAccessLevelMenu(id) => r == EntityDetailsWindow {
            edit_open_access_level_menu_id: toggled_menu(w.edit_open_access_level_menu_id, id),
            edit_open_value_type_menu_id: None,
            ..w
        },
        WindowEdit::AttributeAccessLevel(id, text) => match parsed_u32(text@) {
            Some(level) => {
                &&& r == EntityDetailsWindow {
                    edit_attributes: r.edit_attributes,
                    edit_open_access_level_menu_id: None,
                    ..w
                }
                &&& attribute_changed(
                    w.edit_attributes@,
                    r.edit_attributes@,
                    id@,
                    |x: EntityAttribute, y: EntityAttribute|
                        y == EntityAttribute { access_level_id: level, ..x },
                )
            },
            None => r == w,
        },
        WindowEdit::StartDrag(id) => r == EntityDetailsWindow {
            dragged_edit_attribute_id: Some(id),
            edit_open_access_level_menu_id: None,
            edit_open_value_type_menu_id: None,
            ..w
        },
        WindowEdit::EndDrag => r == EntityDetailsWindow { dragged_edit_attribute_id: None, ..w },
    }
}

fn start_edit(w: &mut EntityDetailsWindow)
    ensures
        window_edited(*old(w), WindowEdit::StartEdit, *final(w)),
{
    w.is_edit_mode = true;
    if w.active_tab == EntityTab::Inlinks {
        w.active_tab = EntityTab::Attributes;
    }
    w.is_info_open = false;
    w.is_delete_confirm_open = false;
    w.edit_open_access_level_menu_id = None;
    w.edit_open_value_type_menu_id = None;
    w.dragged_edit_attribute_id = None;
    match &w.entity {
        Some(en) => {
            let attributes = dup_vec(&en.attributes);
            let listing = en.listing_attribute_id.clone();
            w.edit_attributes = attributes;
            w.edit_listing_attribute_id = listing;
        },
        None => {},
    }
}

fn cancel_edit(w: &mut EntityDetailsWindow)
    ensures
        window_edited(*old(w), WindowEdit::CancelEdit, *final(w)),
{
    w.is_edit_mode = false;
    w.edit_error = None;
    w.edit_open_access_level_menu_id = None;
    w.edit_open_value_type_menu_id = None;
    w.dragged_edit_attribute_id = None;
    match &w.entity {
        Some(en) => {
            let attributes = dup_vec(&en.attributes);
            let listing = en.listing_attribute_id.clone();
            w.edit_attributes = attributes;
            w.edit_listing_attribute_id = listing;
        },
        None => {},
    }
}

fn popover_edit(w: &mut EntityDetailsWindow, e: WindowEdit)
    requires
        e is ToggleInfo || e is OpenDeleteConfirm || e is CancelDeleteConfirm || e is ToggleOwner
            || e is CloseMenus || e is Tab || e is StartDrag || e is EndDrag,
    ensures
        window_edited(*old(w), e, *final(w)),
{
    match e {
        WindowEdit::ToggleInfo => {
            w.is_info_open = !w.is_info_open;
            w.is_delete_confirm_open = false;
            w.is_owner_open = false;
        },
        WindowEdit::OpenDeleteConfirm => {
            w.is_delete_confirm_open = true;
            w.is_info_open = false;
            w.is_owner_open = false;
        },
        WindowEdit::CancelDeleteConfirm => {
            w.is_delete_confirm_open = false;
        },
        WindowEdit::ToggleOwner => {
            w.is_owner_open = !w.is_owner_open;
            w.is_info_open = false;
            w.is_delete_confirm_open = false;
        },
        WindowEdit::CloseMenus => {
            w.is_info_open = false;
            w.is_delete_confirm_open = false;
            w.is_owner_open = false;
            w.edit_open_access_level_menu_id = None;
            w.edit_open_value_type_menu_id = None;
            w.dragged_edit_attribute_id = None;
        },
        WindowEdit::Tab(tab) => {
            w.active_tab = tab;
        },
        WindowEdit::StartDrag(id) => {
            w.dragged_edit_attribute_id = Some(id);
            w.edit_open_access_level_menu_id = None;
            w.edit_open_value_type_menu_id = None;
        },
        WindowEdit::EndDrag => {
            w.dragged_edit_attribute_id = None;
        },
        _ => {},
    }
}

fn toggle_menu(current: &Option<String>, id: String) -> (r: Option<String>)
    ensures
        r == toggled_menu(*current, id),
{
    match current {
        Some(c) => if str_eq(c.as_str(), id.as_str()) {
            None
        } else {
            Some(id)
        },
        None => Some(id),
    }
}

fn menu_edit(w: &mut EntityDetailsWindow, e: WindowEdit)
    requires
        e is ToggleValueTypeMenu || e is ToggleAccessLevelMenu,
    ensures
        window_edited(*old(w), e, *final(w)),
{
    match e {
        WindowEdit::ToggleValueTypeMenu(id) => {
            w.edit_open_value_type_menu_id = toggle_menu(&w.edit_open_value_type_menu_id, id);
            w.edit_open_access_level_menu_id = None;
        },
        WindowEdit::ToggleAccessLevelMenu(id) => {
            w.edit_open_access_level_menu_id = toggle_menu(&w.edit_open_access_level_menu_id, id);
            w.edit_open_value_type_menu_id = None;
        },
        _ => {},
    }
}

pub(crate) fn contains_text(ids: &Vec<String>, id: &String) -> (r: bool)
    ensures
        r == texts(ids@).contains(id@),
{
    let mut i: usize = 0;
    while i < ids.len()
        invariant
            i <= ids@.len(),
            forall|k: int| 0 <= k < i ==> (#[trigger] ids@[k])@ != id@,
        decreases ids@.len() - i,
    {
        if str_eq(ids[i].as_str(), id.as_str()) {
            assert(texts(ids@)[i as int] == id@);
            return true;
        }
        i = i + 1;
    }
    assert(!texts(ids@).contains(id@)) by {
        if texts(ids@).contains(id@) {
            let k = choose|k: int| 0 <= k < texts(ids@).len() && texts(ids@)[k] == id@;
            assert(ids@[k]@ == id@);
        }
    }
    false
}

fn toggle_text(ids: &mut Vec<String>, id: String)
    ensures
        texts(old(ids)@).contains(id@) ==> final(ids)@ == old(ids)@.filter(other_text(id@)),
        !texts(old(ids)@).contains(id@) ==> final(ids)@ == old(ids)@.push(id),
{
    if !contains_text(ids, &id) {
        ids.push(id);
        return ;
    }
    let ghost start = ids@;
    let mut kept: Vec<String> = Vec::new();
    let mut j: usize = 0;
    while j < ids.len()
        invariant
            j <= ids@.len(),
            ids@ == start,
            kept@ == start.take(j as int).filter(other_text(id@)),
        decreases ids@.len() - j,
    {
        assert(start.take(j as int + 1).drop_last() =~= start.take(j as int));
        reveal_with_fuel(Seq::filter, 1);
        if !str_eq(ids[j].as_str(), id.as_str()) {
            kept.push(ids[j].clone());
        }
        j = j + 1;
    }
    assert(start.take(j as int) =~= start);
    *ids = kept;
}

fn attribute_edit(w: &mut EntityDetailsWindow, e: WindowEdit)
    requires
        e is AttributeName || e is AttributeValue || e is AttributeValueType
            || e is AttributeAccessLevel,
    ensures
        window_edited(*old(w), e, *final(w)),
{
    let (id, level) = match &e {
        WindowEdit::AttributeName(id, _) => (id.clone(), None),
        WindowEdit::AttributeValue(id, _) => (id.clone(), None),
        WindowEdit::AttributeValueType(id, _) => (id.clone(), None),
        WindowEdit::AttributeAccessLevel(id, text) => match parse_u32(text.as_str()) {
            Some(level) => (id.clone(), Some(level)),
            None => return ,
        },
        _ => return ,
    };
    proof {
        lemma_index_of_facts(w.edit_attributes@, id@);
    }
    let found = find_index(&w.edit_attributes, &id);
    match e {
        WindowEdit::AttributeValueType(_, _) => {
            w.edit_open_value_type_menu_id = None;
        },
        WindowEdit::AttributeAccessLevel(_, _) => {
            w.edit_open_access_level_menu_id = None;
        },
        _ => {},
    }
    match found {
        Some(k) => {
            let mut a = w.edit_attributes.remove(k);
            match e {
                WindowEdit::AttributeName(_, v) => {
                    a.name = v;
                },
                WindowEdit::AttributeValue(_, v) => {
                    a.value = v;
                },
                WindowEdit::AttributeValueType(_, v) => {
                    a.value_type = v;
                    a.value = String::new();
                },
                WindowEdit::AttributeAccessLevel(_, _) => {
                    match level {
                        Some(l) => {
                            a.access_level_id = l;
                        },
                        None => {},
                    }
                },
                _ => {},
            }
            w.edit_attributes.insert(k, a);
        },
        None => {},
    }
}

/// Applies an edit to a window.
pub fn apply_window_edit(w: &mut EntityDetailsWindow, e: WindowEdit)
    ensures
        window_edited(*old(w), e, *final(w)),
{
    match e {
        WindowEdit::StartEdit => start_edit(w),
        WindowEdit::CancelEdit => cancel_edit(w),
        WindowEdit::ToggleReveal(id) => toggle_text(&mut w.revealed_attribute_ids, id),
        WindowEdit::ToggleValueTypeMenu(_) | WindowEdit::ToggleAccessLevelMenu(_) => menu_edit(w, e),
        WindowEdit::AttributeName(_, _) | WindowEdit::AttributeValue(_, _)
        | WindowEdit::AttributeValueType(_, _) | WindowEdit::AttributeAccessLevel(_, _) => attribute_edit(
            w,
            e,
        ),
        _ => popover_edit(w, e),
    }
}

/// Applies an edit to the window with the given id; nothing happens when it
/// is not open.
pub fn edit_entity_window(windows: &mut Vec<EntityDetailsWindow>, window_id: &str, e: WindowEdit)
    ensures
        ({
            let k = first_where(old(windows)@, has_window_id(window_id@));
            &&& k < 0 ==> final(windows)@ == old(windows)@
            &&& k >= 0 ==> windows_except(old(windows)@, final(windows)@, k) && window_edited(
                old(windows)@[k],
                e,
                final(windows)@[k],
            )
        }),
{
    let ghost p = has_window_id(window_id@);
    let mut i: usize = 0;
    while i < windows.len()
        invariant
            i <= windows@.len(),
            windows@ == old(windows)@,
            p == has_window_id(window_id@),
            first_where(windows@.take(i as int), p) == -1,
        decreases windows@.len() - i,
    {
        assert(windows@.take(i as int + 1).drop_last() =~= windows@.take(i as int));
        if str_eq(windows[i].id.as_str(), window_id) {
            proof {
                lemma_first_where_prefix(windows@, p, i as int, windows@.len() as int);
                assert(windows@.take(windows@.len() as int) =~= windows@);
            }
            let mut w = windows.remove(i);
            apply_window_edit(&mut w, e);
            windows.insert(i, w);
            return ;
        }
        i = i + 1;
    }
    assert(windows@.take(i as int) =~= windows@);
}

/// The window's edits may be saved: it is in edit mode and every attribute
/// has a name. (The save button's tooltip follows this; the button itself
/// is `is_entity_window_save_enabled`.)
pub fn can_save_entity_window(w: &EntityDetailsWindow) -> (r: bool)
    ensures
        r == (w.is_edit_mode && forall|i: int|
            0 <= i < w.edit_attributes@.len() ==> trim((#[trigger] w.edit_attributes@[i]).name@).len()
                > 0),
{
    if !w.is_edit_mode {
        return false;
    }
    let mut i: usize = 0;
    while i < w.edit_attributes.len()
        invariant
            i <= w.edit_attributes@.len(),
            forall|k: int| 0 <= k < i ==> trim((#[trigger] w.edit_attributes@[k]).name@).len() > 0,
        decreases w.edit_attributes@.len() - i,
    {
        if trim_str(w.edit_attributes[i].name.as_str()).len() == 0 {
            return false;
        }
        i = i + 1;
    }
    true
}

/// The save button of a window is enabled when its edits may be saved and
/// no save is under way.
pub fn is_entity_window_save_enabled(w: &EntityDetailsWindow) -> (r: bool)
    ensures
        r == (w.is_edit_mode && !w.is_saving && forall|i: int|
            0 <= i < w.edit_attributes@.len() ==> trim((#[trigger] w.edit_attributes@[i]).name@).len()
                > 0),
{
    can_save_entity_window(w) && !w.is_saving
}

/// The remove button of an edited attribute is disabled while saving and
/// when only one attribute is left.
pub fn is_remove_edit_attribute_disabled(w: &EntityDetailsWindow) -> (r: bool)
    ensures
        r == (w.is_saving || w.edit_attributes@.len() <= 1),
{
    w.is_saving || w.edit_attributes.len() <= 1
}

/// The window's title.
pub fn entity_window_title(w: &EntityDetailsWindow) -> (r: &'static str)
    ensures
        w.is_edit_mode ==> r@ == "Entity :: Edit"@,
        !w.is_edit_mode ==> r@ == "Entity"@,
{
    if w.is_edit_mode {
        "Entity :: Edit"
    } else {
        "Entity"
    }
}

} // verus!
