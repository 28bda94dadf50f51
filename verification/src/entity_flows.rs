//! Saving entities: the edits of an entity window and a new entity from the
//! create modal go to the server, and its answer updates the windows, the
//! modal and the explorer's list.

use vstd::prelude::*;

use crate::entity_editor::{CreateEntityState, EntityDetailsWindow};
use crate::explorer::has_window_id;
use crate::listing::{first_where, lemma_first_where_prefix};
use crate::requests::{build_entity_create_body, build_entity_update_body, entity_create_json, entity_update_json};
use crate::text::{eq_ignore_ascii_case, eq_ignore_case, trim, trim_str};
use crate::text_std::str_eq;
use crate::types::{dup_vec, AccessLevel, Entity, EntityAttribute, EntityLink};

verus! {

/// Holds of the access level named "public" in any ASCII case.
pub open spec fn named_public() -> spec_fn(AccessLevel) -> bool {
    |l: AccessLevel| eq_ignore_ascii_case(l.name@, "public"@)
}

/// The access level of a new entity attribute: the public level, else the
/// first level, else 1.
pub open spec fn default_entity_level(levels: Seq<AccessLevel>) -> u32 {
    let k = first_where(levels, named_public());
    if k >= 0 {
        levels[k].id
    } else if levels.len() > 0 {
        levels[0].id
    } else {
        1
    }
}

pub fn default_entity_attribute_access_level_id(access_levels: &Vec<AccessLevel>) -> (r: u32)
    ensures
        r == default_entity_level(access_levels@),
{
    let ghost p = named_public();
    let mut i: usize = 0;
    while i < access_levels.len()
        invariant
            i <= access_levels@.len(),
            p == named_public(),
            first_where(access_levels@.take(i as int), p) == -1,
        decreases access_levels@.len() - i,
    {
        assert(access_levels@.take(i as int + 1).drop_last() =~= access_levels@.take(i as int));
        if eq_ignore_case(access_levels[i].name.as_str(), "public") {
            proof {
                lemma_first_where_prefix(access_levels@, p, i as int, access_levels@.len() as int);
                assert(access_levels@.take(access_levels@.len() as int) =~= access_levels@);
            }
            return access_levels[i].id;
        }
        i = i + 1;
    }
    assert(access_levels@.take(i as int) =~= access_levels@);
    if access_levels.len() > 0 {
        access_levels[0].id
    } else {
        1
    }
}

fn find_window_by_id(windows: &Vec<EntityDetailsWindow>, id: &str) -> (r: Option<usize>)
    ensures
        match r {
            Some(i) => i as int == first_where(windows@, has_window_id(id@)) && i < windows@.len(),
            None => first_where(windows@, has_window_id(id@)) == -1,
        },
{
    let ghost p = has_window_id(id@);
    let mut i: usize = 0;
    while i < windows.len()
        invariant
            i <= windows@.len(),
            p == has_window_id(id@),
            first_where(windows@.take(i as int), p) == -1,
        decreases windows@.len() - i,
    {
        assert(windows@.take(i as int + 1).drop_last() =~= windows@.take(i as int));
        if str_eq(windows[i].id.as_str(), id) {
            proof {
                lemma_first_where_prefix(windows@, p, i as int, windows@.len() as int);
                assert(windows@.take(windows@.len() as int) =~= windows@);
            }
            return Some(i);
        }
        i = i + 1;
    }
    assert(windows@.take(i as int) =~= windows@);
    None
}

/// The windows are the same but for the one at `k`.
pub open spec fn windows_except(a: Seq<EntityDetailsWindow>, b: Seq<EntityDetailsWindow>, k: int) -> bool {
    &&& a.len() == b.len()
    &&& forall|j: int| 0 <= j < a.len() && j != k ==> #[trigger] b[j] == a[j]
}

/// The body that saves a window's edits: its edited attributes, its edited
/// listing attribute (else the entity's), and the entity's links; empty
/// when the window shows no entity.
pub open spec fn window_update_json(w: Option<EntityDetailsWindow>) -> Seq<char> {
    match w {
        Some(w) => match w.entity {
            Some(e) => entity_update_json(
                w.edit_attributes@,
                if w.edit_listing_attribute_id@.len() == 0 {
                    e.listing_attribute_id@
                } else {
                    w.edit_listing_attribute_id@
                },
                e.links@,
            ),
            None => entity_update_json(Seq::empty(), Seq::empty(), Seq::empty()),
        },
        None => entity_update_json(Seq::empty(), Seq::empty(), Seq::empty()),
    }
}

/// Saves the edits of an entity window: the window shows that it is saving
/// and the body of the update request is returned.
pub fn save_entity_window(windows: &mut Vec<EntityDetailsWindow>, window_id: &str) -> (body: String)
    ensures
        ({
            let k = first_where(old(windows)@, has_window_id(window_id@));
            &&& k < 0 ==> final(windows)@ == old(windows)@ && body@ == window_update_json(None)
            &&& k >= 0 ==> {
                &&& windows_except(old(windows)@, final(windows)@, k)
                &&& final(windows)@[k] == (EntityDetailsWindow {
                    is_saving: true,
                    edit_error: None,
                    ..old(windows)@[k]
                })
                &&& body@ == window_update_json(Some(old(windows)@[k]))
            }
        }),
{
    let empty_attributes: Vec<EntityAttribute> = Vec::new();
    let empty_links: Vec<EntityLink> = Vec::new();
    proof {
        reveal_strlit("");
    }
    match find_window_by_id(windows, window_id) {
        Some(k) => {
            let mut w = windows.remove(k);
            w.is_saving = true;
            w.edit_error = None;
            let body = match &w.entity {
                Some(e) => {
                    let listing = if w.edit_listing_attribute_id.as_str().is_empty() {
                        e.listing_attribute_id.as_str()
                    } else {
                        w.edit_listing_attribute_id.as_str()
                    };
                    build_entity_update_body(&w.edit_attributes, listing, &e.links)
                },
                None => build_entity_update_body(&empty_attributes, "", &empty_links),
            };
            windows.insert(k, w);
            body
        },
        None => build_entity_update_body(&empty_attributes, "", &empty_links),
    }
}

/// Holds of the entity with the given id.
pub open spec fn entity_with_id(id: Seq<char>) -> spec_fn(Entity) -> bool {
    |e: Entity| e.id@ == id
}

fn find_entity(entities: &Vec<Entity>, id: &str) -> (r: Option<usize>)
    ensures
        match r {
            Some(i) => i as int == first_where(entities@, entity_with_id(id@)) && i < entities@.len(),
            None => first_where(entities@, entity_with_id(id@)) == -1,
        },
{
    let ghost p = entity_with_id(id@);
    let mut i: usize = 0;
    while i < entities.len()
        invariant
            i <= entities@.len(),
            p == entity_with_id(id@),
            first_where(entities@.take(i as int), p) == -1,
        decreases entities@.len() - i,
    {
        assert(entities@.take(i as int + 1).drop_last() =~= entities@.take(i as int));
        if str_eq(entities[i].id.as_str(), id) {
            proof {
                lemma_first_where_prefix(entities@, p, i as int, entities@.len() as int);
                assert(entities@.take(entities@.len() as int) =~= entities@);
            }
            return Some(i);
        }
        i = i + 1;
    }
    assert(entities@.take(i as int) =~= entities@);
    None
}

/// The server answered a window's save. On success the first listed entity
/// with that id is replaced by the saved one, and the window shows it and
/// leaves edit mode; on failure the window shows the message. Either way
/// saving ends.
pub fn entity_window_saved(
    windows: &mut Vec<EntityDetailsWindow>,
    window_id: &str,
    entities: &mut Vec<Entity>,
    entity_id: &str,
    outcome: Result<Entity, String>,
)
    ensures
        ({
            let k = first_where(old(windows)@, has_window_id(window_id@));
            let j = first_where(old(entities)@, entity_with_id(entity_id@));
            &&& outcome matches Ok(saved) ==> {
                &&& j >= 0 ==> final(entities)@.len() == old(entities)@.len() && (forall|i: int|
                    0 <= i < old(entities)@.len() && i != j ==> #[trigger] final(entities)@[i]
                        == old(entities)@[i]) && final(entities)@[j]@ == saved@
                &&& j < 0 ==> final(entities)@ == old(entities)@
                &&& k < 0 ==> final(windows)@ == old(windows)@
                &&& k >= 0 ==> {
                    &&& windows_except(old(windows)@, final(windows)@, k)
                    &&& final(windows)@[k] == (EntityDetailsWindow {
                        entity: final(windows)@[k].entity,
                        is_saving: false,
                        is_edit_mode: false,
                        edit_error: None,
                        edit_open_access_level_menu_id: None,
                        edit_open_value_type_menu_id: None,
                        edit_listing_attribute_id: final(windows)@[k].edit_listing_attribute_id,
                        dragged_edit_attribute_id: None,
                        ..old(windows)@[k]
                    })
                    &&& final(windows)@[k].edit_listing_attribute_id@ == Seq::<char>::empty()
                    &&& final(windows)@[k].entity matches Some(e) && e == saved
                }
            }
            &&& outcome matches Err(message) ==> {
                &&& final(entities)@ == old(entities)@
                &&& k < 0 ==> final(windows)@ == old(windows)@
                &&& k >= 0 ==> windows_except(old(windows)@, final(windows)@, k)
                    && final(windows)@[k] == (EntityDetailsWindow {
                    is_saving: false,
                    edit_error: Some(message),
                    ..old(windows)@[k]
                })
            }
        }),
{
    match outcome {
        Ok(saved) => {
            let found = find_entity(entities, entity_id);
            match found {
                Some(j) => {
                    let copy = crate::sort::Duplicate::duplicate(&saved);
                    entities.set(j, copy);
                },
                None => {},
            }
            match find_window_by_id(windows, window_id) {
                Some(k) => {
                    let mut w = windows.remove(k);
                    w.entity = Some(saved);
                    w.is_saving = false;
                    w.is_edit_mode = false;
                    w.edit_error = None;
                    w.edit_open_access_level_menu_id = None;
                    w.edit_open_value_type_menu_id = None;
                    w.edit_listing_attribute_id = String::new();
                    w.dragged_edit_attribute_id = None;
                    windows.insert(k, w);
                },
                None => {},
            }
        },
        Err(message) => {
            match find_window_by_id(windows, window_id) {
                Some(k) => {
                    let mut w = windows.remove(k);
                    w.is_saving = false;
                    w.edit_error = Some(message);
                    windows.insert(k, w);
                },
                None => {},
            }
        },
    }
}

/// Saves the new entity of the create modal, owned by the given user: the
/// modal shows that it is saving and the body of the create request is
/// returned (an empty entity when no modal is open).
pub fn save_new_entity(state: &mut Option<CreateEntityState>, owner_user_id: &str) -> (body: String)
    ensures
        match *old(state) {
            Some(s) => {
                &&& *final(state) == Some(CreateEntityState { is_saving: true, error: None, ..s })
                &&& body@ == entity_create_json(
                    s.attributes@,
                    owner_user_id@,
                    s.entity_template_id@,
                    s.listing_attribute_id@,
                )
            },
            None => {
                &&& *final(state) is None
                &&& body@ == entity_create_json(
                    Seq::empty(),
                    owner_user_id@,
                    Seq::empty(),
                    Seq::empty(),
                )
            },
        },
{
    proof {
        reveal_strlit("");
    }
    match state {
        Some(s) => {
            s.is_saving = true;
            s.error = None;
            build_entity_create_body(
                &s.attributes,
                owner_user_id,
                s.entity_template_id.as_str(),
                s.listing_attribute_id.as_str(),
            )
        },
        None => {
            let empty: Vec<EntityAttribute> = Vec::new();
            build_entity_create_body(&empty, owner_user_id, "", "")
        },
    }
}

/// The server answered the creation of an entity: on success the entity
/// joins the list and the modal closes; on failure the modal shows the
/// message.
pub fn new_entity_saved(
    state: &mut Option<CreateEntityState>,
    entities: &mut Vec<Entity>,
    outcome: Result<Entity, String>,
)
    ensures
        outcome matches Ok(e) ==> final(entities)@ == old(entities)@.push(e) && *final(state)
            is None,
        outcome matches Err(message) ==> {
            &&& final(entities)@ == old(entities)@
            &&& match *old(state) {
                Some(s) => *final(state) == Some(
                    CreateEntityState { is_saving: false, error: Some(message), ..s },
                ),
                None => *final(state) is None,
            }
        },
{
    match outcome {
        Ok(e) => {
            entities.push(e);
            *state = None;
        },
        Err(message) => {
            match state {
                Some(s) => {
                    s.is_saving = false;
                    s.error = Some(message);
                },
                None => {},
            }
        },
    }
}

/// Every attribute has a name that is not blank.
pub open spec fn all_named(attributes: Seq<EntityAttribute>) -> bool {
    forall|i: int| 0 <= i < attributes.len() ==> trim((#[trigger] attributes[i]).name@).len() > 0
}

/// The new entity is complete: at least one attribute, a listing attribute
/// chosen, and every attribute named. (The save button's tooltip follows
/// this.)
pub open spec fn create_entity_complete(state: CreateEntityState) -> bool {
    &&& state.attributes@.len() > 0
    &&& state.listing_attribute_id@.len() > 0
    &&& all_named(state.attributes@)
}

pub fn is_create_entity_complete(state: &CreateEntityState) -> (r: bool)
    ensures
        r == create_entity_complete(*state),
{
    if state.attributes.len() == 0 || state.listing_attribute_id.as_str().is_empty() {
        return false;
    }
    let mut i: usize = 0;
    while i < state.attributes.len()
        invariant
            i <= state.attributes@.len(),
            forall|k: int| 0 <= k < i ==> trim((#[trigger] state.attributes@[k]).name@).len() > 0,
        decreases state.attributes@.len() - i,
    {
        if trim_str(state.attributes[i].name.as_str()).len() == 0 {
            return false;
        }
        i = i + 1;
    }
    true
}

/// The save button of the create-entity modal is enabled when no save is
/// under way and the new entity is complete.
pub fn can_save_create_entity(state: &CreateEntityState) -> (r: bool)
    ensures
        r == (!state.is_saving && create_entity_complete(*state)),
{
    !state.is_saving && is_create_entity_complete(state)
}

/// The access level of an attribute added in the create-entity modal: the
/// first level, else 4.
pub fn create_entity_default_access_level_id(access_levels: &Vec<AccessLevel>) -> (r: u32)
    ensures
        r == (if access_levels@.len() > 0 {
            access_levels@[0].id
        } else {
            4
        }),
{
    if access_levels.len() > 0 {
        access_levels[0].id
    } else {
        4
    }
}

} // verus!
