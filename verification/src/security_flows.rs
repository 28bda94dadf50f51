//! The access-level and user modals of the security section: opening them,
//! the edits of their forms, and the save and delete round trips with the
//! server. Each step changes the open modals and may ask for one request;
//! the user interface sends it and reports the answer back.

use vstd::prelude::*;

use crate::listing::{first_where, lemma_first_where, lemma_first_where_prefix};
use crate::modals::{
    access_level_title, is_built_in_access_level, is_user_valid, toggle_id, toggled_ids,
    user_error_message, user_is_valid, user_title, user_validation_message,
};
use crate::modals::{access_level_modal_title, user_modal_title};
use crate::requests::{access_level_body, access_level_json, opt_view, user_json, user_json_body};
use crate::sort::Duplicate;
use crate::stack::{
    close_modal, find_modal, highest, lemma_modal_index, modal_index, next_modal_z_index,
    other_modal, OpenModal,
};
use crate::text::{to_string, trim, trim_str};
use crate::text_std::str_eq;
use crate::types::{
    dup_vec, AccessLevel, AccessLevelModal, ModalContent, Permission, SecurityModalMode, User,
    UserModal,
};

verus! {

/// The modals are the same but for the one at `k`.
pub open spec fn same_except(a: Seq<OpenModal>, b: Seq<OpenModal>, k: int) -> bool {
    &&& a.len() == b.len()
    &&& forall|j: int| 0 <= j < a.len() && j != k ==> #[trigger] b[j] == a[j]
}

/// A request of the security section.
#[derive(Clone, Debug)]
pub enum SecurityRequest {
    CreateAccessLevel { session_key: String, body: String },
    UpdateAccessLevel { id: u32, session_key: String, body: String },
    DeleteAccessLevel { id: u32, session_key: String },
    CreateUser { session_key: String, body: String },
    UpdateUser { id: String, session_key: String, body: String },
    DeleteUser { id: String, session_key: String },
}

/// An edit of the access-level form.
#[derive(Clone, Debug)]
pub enum AccessLevelEdit {
    Mode(SecurityModalMode),
    Name(String),
    Description(String),
    ToggleInfo,
    DeleteConfirm(bool),
    Status(bool, Option<String>),
}

/// The access-level form after an edit.
pub open spec fn level_edited(m: AccessLevelModal, e: AccessLevelEdit) -> AccessLevelModal {
    match e {
        AccessLevelEdit::Mode(mode) => AccessLevelModal { mode, ..m },
        AccessLevelEdit::Name(name) => AccessLevelModal { name, ..m },
        AccessLevelEdit::Description(description) => AccessLevelModal { description, ..m },
        AccessLevelEdit::ToggleInfo => AccessLevelModal {
            is_info_open: !m.is_info_open,
            is_delete_confirm_open: if !m.is_info_open {
                false
            } else {
                m.is_delete_confirm_open
            },
            ..m
        },
        AccessLevelEdit::DeleteConfirm(is_open) => AccessLevelModal {
            is_delete_confirm_open: is_open,
            is_info_open: if is_open {
                false
            } else {
                m.is_info_open
            },
            ..m
        },
        AccessLevelEdit::Status(is_saving, error) => AccessLevelModal { is_saving, error, ..m },
    }
}

/// Position of the access-level modal with the given id, or -1 when that
/// modal is not open or shows something else.
pub open spec fn level_modal_index(modals: Seq<OpenModal>, modal_id: u32) -> int {
    let k = modal_index(modals, modal_id);
    if k >= 0 && modals[k].content is AccessLevel {
        k
    } else {
        -1
    }
}

/// The form of the access-level modal at `k`.
pub open spec fn level_form(modals: Seq<OpenModal>, k: int) -> AccessLevelModal {
    modals[k].content->AccessLevel_0
}

/// `b` is `a` with the access-level modal at `k` showing `m`, and its title
/// set to the mode's title when `retitle` holds.
pub open spec fn level_replaced(
    a: Seq<OpenModal>,
    b: Seq<OpenModal>,
    k: int,
    m: AccessLevelModal,
    retitle: bool,
) -> bool {
    &&& same_except(a, b, k)
    &&& b[k] == OpenModal { content: ModalContent::AccessLevel(m), title: b[k].title, ..a[k] }
    &&& retitle ==> b[k].title@ == access_level_title(m.mode)
    &&& !retitle ==> b[k].title == a[k].title
}

fn apply_level_edit(m: &mut AccessLevelModal, e: AccessLevelEdit)
    ensures
        *final(m) == level_edited(*old(m), e),
{
    match e {
        AccessLevelEdit::Mode(mode) => {
            m.mode = mode;
        },
        AccessLevelEdit::Name(name) => {
            m.name = name;
        },
        AccessLevelEdit::Description(description) => {
            m.description = description;
        },
        AccessLevelEdit::ToggleInfo => m.toggle_info(),
        AccessLevelEdit::DeleteConfirm(is_open) => m.set_delete_confirm(is_open),
        AccessLevelEdit::Status(is_saving, error) => m.set_status(is_saving, error),
    }
}

/// Applies an edit to the access-level modal with the given id; a change of
/// mode also changes its title. Nothing happens when no such modal is open.
pub fn edit_access_level_modal(modals: &mut Vec<OpenModal>, modal_id: u32, edit: AccessLevelEdit)
    ensures
        level_modal_index(old(modals)@, modal_id) < 0 ==> final(modals)@ == old(modals)@,
        level_modal_index(old(modals)@, modal_id) >= 0 ==> level_replaced(
            old(modals)@,
            final(modals)@,
            level_modal_index(old(modals)@, modal_id),
            level_edited(level_form(old(modals)@, level_modal_index(old(modals)@, modal_id)), edit),
            edit is Mode,
        ),
{
    proof {
        lemma_modal_index(modals@, modal_id);
    }
    let k = match find_modal(modals, modal_id) {
        Some(k) => k,
        None => return ,
    };
    if !matches!(modals[k].content, ModalContent::AccessLevel(_)) {
        return ;
    }
    let is_mode = matches!(edit, AccessLevelEdit::Mode(_));
    let mut open = modals.remove(k);
    match &mut open.content {
        ModalContent::AccessLevel(m) => {
            apply_level_edit(m, edit);
            if is_mode {
                open.title = access_level_modal_title(m.mode).to_owned();
            }
        },
        _ => {},
    }
    modals.insert(k, open);
}

/// Switches the mode of an access-level modal. Returns the element to focus:
/// the name field, when the form becomes editable.
pub fn set_access_level_mode(modals: &mut Vec<OpenModal>, modal_id: u32, mode: SecurityModalMode) -> (r:
    bool)
    ensures
        r == (mode == SecurityModalMode::Edit),
        level_modal_index(old(modals)@, modal_id) < 0 ==> final(modals)@ == old(modals)@,
        level_modal_index(old(modals)@, modal_id) >= 0 ==> level_replaced(
            old(modals)@,
            final(modals)@,
            level_modal_index(old(modals)@, modal_id),
            AccessLevelModal {
                mode,
                ..level_form(old(modals)@, level_modal_index(old(modals)@, modal_id))
            },
            true,
        ),
{
    edit_access_level_modal(modals, modal_id, AccessLevelEdit::Mode(mode));
    mode == SecurityModalMode::Edit
}

/// Holds of an open modal that shows the access level `target` (`None`: a
/// new access level).
pub open spec fn shows_level(target: Option<u32>) -> spec_fn(OpenModal) -> bool {
    |m: OpenModal| m.content is AccessLevel && m.content->AccessLevel_0.id == target
}

/// The form of a new access-level modal: the level's details, or an empty
/// form to create one.
pub open spec fn new_level_form(session_key: String, level: Option<AccessLevel>, m: AccessLevelModal) -> bool {
    &&& m.error is None
    &&& !m.is_delete_confirm_open
    &&& !m.is_info_open
    &&& !m.is_saving
    &&& m.session_key == session_key
    &&& match level {
        Some(l) => {
            &&& m.id == Some(l.id)
            &&& m.name == l.name
            &&& m.description == l.description
            &&& m.mode == SecurityModalMode::Details
        },
        None => {
            &&& m.id is None
            &&& m.name@ == Seq::<char>::empty()
            &&& m.description@ == Seq::<char>::empty()
            &&& m.mode == SecurityModalMode::Create
        },
    }
}

/// Opens the modal of an access level, or of a new one. When such a modal
/// is open already it is brought to the front instead. Returns the modal's
/// id.
pub fn open_access_level_modal(
    modals: &mut Vec<OpenModal>,
    next_modal_id: &mut u32,
    session_key: String,
    access_level: Option<AccessLevel>,
) -> (r: u32)
    requires
        highest(old(modals)@) < u32::MAX,
        *old(next_modal_id) < u32::MAX,
    ensures
        ({
            let target = match access_level {
                Some(l) => Some(l.id),
                None => None,
            };
            let k = first_where(old(modals)@, shows_level(target));
            &&& k >= 0 ==> {
                &&& r == old(modals)@[k].id
                &&& *final(next_modal_id) == *old(next_modal_id)
                &&& final(modals)@ == old(modals)@.update(
                    k,
                    OpenModal { z_index: (highest(old(modals)@) + 1) as u32, ..old(modals)@[k] },
                )
            }
            &&& k < 0 ==> {
                let n = old(modals)@.len();
                &&& r == *old(next_modal_id)
                &&& *final(next_modal_id) == *old(next_modal_id) + 1
                &&& final(modals)@.len() == n + 1
                &&& final(modals)@.take(n as int) == old(modals)@
                &&& final(modals)@[n as int].id == r
                &&& final(modals)@[n as int].z_index == highest(old(modals)@) + 1
                &&& final(modals)@[n as int].content is AccessLevel
                &&& new_level_form(
                    session_key,
                    access_level,
                    final(modals)@[n as int].content->AccessLevel_0,
                )
                &&& final(modals)@[n as int].title@ == access_level_title(
                    final(modals)@[n as int].content->AccessLevel_0.mode,
                )
            }
        }),
{
    let target = match &access_level {
        Some(l) => Some(l.id),
        None => None,
    };
    let ghost p = shows_level(target);
    let z_index = next_modal_z_index(modals);
    let mut i: usize = 0;
    while i < modals.len()
        invariant
            i <= modals@.len(),
            modals@ == old(modals)@,
            p == shows_level(target),
            target == match access_level {
                Some(l) => Some(l.id),
                None => None,
            },
            z_index == highest(old(modals)@) + 1,
            first_where(modals@.take(i as int), p) == -1,
        decreases modals@.len() - i,
    {
        assert(modals@.take(i as int + 1).drop_last() =~= modals@.take(i as int));
        let hit = match &modals[i].content {
            ModalContent::AccessLevel(m) => match (m.id, target) {
                (Some(a), Some(b)) => a == b,
                (None, None) => true,
                _ => false,
            },
            _ => false,
        };
        if hit {
            proof {
                assert(p(modals@[i as int]));
                assert(modals@.take(i as int + 1).last() == modals@[i as int]);
                lemma_first_where_prefix(modals@, p, i as int, modals@.len() as int);
                assert(modals@.take(modals@.len() as int) =~= modals@);
                assert(first_where(old(modals)@, p) == i as int);
            }
            let mut open = modals.remove(i);
            let id = open.id;
            open.z_index = z_index;
            modals.insert(i, open);
            return id;
        }
        i = i + 1;
    }
    assert(modals@.take(i as int) =~= modals@);
    let id = *next_modal_id;
    let content = match access_level {
        Some(l) => AccessLevelModal {
            description: l.description,
            error: None,
            id: Some(l.id),
            is_delete_confirm_open: false,
            is_info_open: false,
            is_saving: false,
            mode: SecurityModalMode::Details,
            name: l.name,
            session_key,
        },
        None => AccessLevelModal {
            description: String::new(),
            error: None,
            id: None,
            is_delete_confirm_open: false,
            is_info_open: false,
            is_saving: false,
            mode: SecurityModalMode::Create,
            name: String::new(),
            session_key,
        },
    };
    let title = access_level_modal_title(content.mode).to_owned();
    *next_modal_id = id + 1;
    let n = modals.len();
    modals.push(OpenModal { content: ModalContent::AccessLevel(content), id, title, z_index });
    assert(modals@.take(n as int) =~= old(modals)@);
    id
}

/// Saves the access-level form: the trimmed name must not be empty. The
/// form then shows that it is saving, and the create or update request is
/// returned.
pub fn save_access_level_modal(modals: &mut Vec<OpenModal>, modal_id: u32) -> (r: Option<
    SecurityRequest,
>)
    ensures
        ({
            let k = level_modal_index(old(modals)@, modal_id);
            &&& k < 0 ==> final(modals)@ == old(modals)@ && r is None
            &&& k >= 0 ==> {
                let m = level_form(old(modals)@, k);
                let name = trim(m.name@);
                let description = trim(m.description@);
                &&& name.len() == 0 ==> {
                    &&& r is None
                    &&& exists|e: String|
                        e@ == "Name is required"@ && level_replaced(
                            old(modals)@,
                            final(modals)@,
                            k,
                            AccessLevelModal { is_saving: false, error: Some(e), ..m },
                            false,
                        )
                }
                &&& name.len() > 0 ==> {
                    &&& level_replaced(
                        old(modals)@,
                        final(modals)@,
                        k,
                        AccessLevelModal { is_saving: true, error: None, ..m },
                        false,
                    )
                    &&& match m.id {
                        Some(id) => r matches Some(
                            SecurityRequest::UpdateAccessLevel { id: rid, session_key, body },
                        ) && rid == id && session_key == m.session_key && body@ == access_level_json(
                            name,
                            description,
                        ),
                        None => r matches Some(
                            SecurityRequest::CreateAccessLevel { session_key, body },
                        ) && session_key == m.session_key && body@ == access_level_json(
                            name,
                            description,
                        ),
                    }
                }
            }
        }),
{
    proof {
        lemma_modal_index(modals@, modal_id);
    }
    let k = match find_modal(modals, modal_id) {
        Some(k) => k,
        None => return None,
    };
    let (name, description, id, session_key) = match &modals[k].content {
        ModalContent::AccessLevel(m) => (
            to_string(&trim_str(m.name.as_str())),
            to_string(&trim_str(m.description.as_str())),
            m.id,
            m.session_key.clone(),
        ),
        _ => return None,
    };
    if name.as_str().is_empty() {
        let error = "Name is required".to_owned();
        let ghost e = error;
        edit_access_level_modal(modals, modal_id, AccessLevelEdit::Status(false, Some(error)));
        assert(level_replaced(
            old(modals)@,
            modals@,
            k as int,
            AccessLevelModal { is_saving: false, error: Some(e), ..level_form(old(modals)@, k as int) },
            false,
        ));
        return None;
    }
    edit_access_level_modal(modals, modal_id, AccessLevelEdit::Status(true, None));
    let body = access_level_body(name.as_str(), description.as_str());
    match id {
        Some(id) => Some(SecurityRequest::UpdateAccessLevel { id, session_key, body }),
        None => Some(SecurityRequest::CreateAccessLevel { session_key, body }),
    }
}

/// The access levels after one was saved: an update replaces every level
/// with its id, a creation adds it at the end.
pub open spec fn levels_after_save(
    levels: Seq<AccessLevel>,
    saved: AccessLevel,
    was_update: bool,
) -> Seq<AccessLevel> {
    if was_update {
        levels.map_values(|l: AccessLevel| if l.id == saved.id { saved } else { l })
    } else {
        levels.push(saved)
    }
}

/// The server answered a save: on success the list of access levels takes
/// the saved level and the modal closes; on failure the form shows the
/// message.
pub fn access_level_saved(
    modals: &mut Vec<OpenModal>,
    modal_id: u32,
    levels: &mut Vec<AccessLevel>,
    was_update: bool,
    outcome: Result<AccessLevel, String>,
)
    ensures
        outcome matches Ok(saved) ==> {
            &&& final(levels)@ == levels_after_save(old(levels)@, saved, was_update)
            &&& final(modals)@ == old(modals)@.filter(other_modal(modal_id))
        },
        outcome matches Err(message) ==> {
            let k = level_modal_index(old(modals)@, modal_id);
            &&& final(levels)@ == old(levels)@
            &&& k < 0 ==> final(modals)@ == old(modals)@
            &&& k >= 0 ==> level_replaced(
                old(modals)@,
                final(modals)@,
                k,
                AccessLevelModal { is_saving: false, error: Some(message), ..level_form(old(modals)@, k) },
                false,
            )
        },
{
    match outcome {
        Ok(saved) => {
            if was_update {
                let mut i: usize = 0;
                while i < levels.len()
                    invariant
                        i <= levels@.len(),
                        levels@.len() == old(levels)@.len(),
                        forall|j: int|
                            0 <= j < levels@.len() ==> #[trigger] levels@[j] == (if j < i {
                                if old(levels)@[j].id == saved.id {
                                    saved
                                } else {
                                    old(levels)@[j]
                                }
                            } else {
                                old(levels)@[j]
                            }),
                    decreases levels@.len() - i,
                {
                    if levels[i].id == saved.id {
                        let copy = saved.duplicate();
                        levels.set(i, copy);
                    }
                    i = i + 1;
                }
                assert(levels@ =~= levels_after_save(old(levels)@, saved, was_update));
            } else {
                levels.push(saved);
            }
            close_modal(modals, modal_id);
        },
        Err(message) => {
            edit_access_level_modal(modals, modal_id, AccessLevelEdit::Status(false, Some(message)));
        },
    }
}

/// Deletes the access level of the modal: only one that exists and is not
/// built in. A built-in level shows why it cannot go; otherwise the form
/// shows that it is working and the delete request is returned.
pub fn delete_access_level_modal(modals: &mut Vec<OpenModal>, modal_id: u32) -> (r: Option<
    SecurityRequest,
>)
    ensures
        ({
            let k = level_modal_index(old(modals)@, modal_id);
            &&& (k < 0 || level_form(old(modals)@, k).id is None) ==> final(modals)@ == old(
                modals,
            )@ && r is None
            &&& (k >= 0 && level_form(old(modals)@, k).id is Some) ==> {
                let m = level_form(old(modals)@, k);
                let id = m.id->0;
                &&& id <= 4 ==> {
                    &&& r is None
                    &&& exists|e: String|
                        e@ == "Built-in access levels cannot be deleted"@ && level_replaced(
                            old(modals)@,
                            final(modals)@,
                            k,
                            AccessLevelModal { is_saving: false, error: Some(e), ..m },
                            false,
                        )
                }
                &&& id > 4 ==> {
                    &&& level_replaced(
                        old(modals)@,
                        final(modals)@,
                        k,
                        AccessLevelModal { is_saving: true, error: None, ..m },
                        false,
                    )
                    &&& r matches Some(SecurityRequest::DeleteAccessLevel { id: rid, session_key })
                        && rid == id && session_key == m.session_key
                }
            }
        }),
{
    proof {
        lemma_modal_index(modals@, modal_id);
    }
    let k = match find_modal(modals, modal_id) {
        Some(k) => k,
        None => return None,
    };
    let (id, built_in, session_key) = match &modals[k].content {
        ModalContent::AccessLevel(m) => match m.id {
            Some(id) => (id, is_built_in_access_level(m), m.session_key.clone()),
            None => return None,
        },
        _ => return None,
    };
    if built_in {
        let error = "Built-in access levels cannot be deleted".to_owned();
        let ghost e = error;
        edit_access_level_modal(modals, modal_id, AccessLevelEdit::Status(false, Some(error)));
        assert(level_replaced(
            old(modals)@,
            modals@,
            k as int,
            AccessLevelModal { is_saving: false, error: Some(e), ..level_form(old(modals)@, k as int) },
            false,
        ));
        return None;
    }
    edit_access_level_modal(modals, modal_id, AccessLevelEdit::Status(true, None));
    Some(SecurityRequest::DeleteAccessLevel { id, session_key })
}

/// Holds of the access levels other than `id`.
pub open spec fn other_level(id: u32) -> spec_fn(AccessLevel) -> bool {
    |l: AccessLevel| l.id != id
}

/// The server answered a delete: on success the level leaves the list and
/// the modal closes; on failure the form shows the message.
pub fn access_level_deleted(
    modals: &mut Vec<OpenModal>,
    modal_id: u32,
    levels: &mut Vec<AccessLevel>,
    level_id: u32,
    outcome: Result<(), String>,
)
    ensures
        outcome is Ok ==> {
            &&& final(levels)@ == old(levels)@.filter(other_level(level_id))
            &&& final(modals)@ == old(modals)@.filter(other_modal(modal_id))
        },
        outcome matches Err(message) ==> {
            let k = level_modal_index(old(modals)@, modal_id);
            &&& final(levels)@ == old(levels)@
            &&& k < 0 ==> final(modals)@ == old(modals)@
            &&& k >= 0 ==> level_replaced(
                old(modals)@,
                final(modals)@,
                k,
                AccessLevelModal { is_saving: false, error: Some(message), ..level_form(old(modals)@, k) },
                false,
            )
        },
{
    match outcome {
        Ok(()) => {
            let ghost start = levels@;
            let mut kept: Vec<AccessLevel> = Vec::new();
            let mut i: usize = 0;
            while i < levels.len()
                invariant
                    i <= levels@.len(),
                    levels@ == start,
                    start == old(levels)@,
                    kept@ == start.take(i as int).filter(other_level(level_id)),
                decreases levels@.len() - i,
            {
                assert(start.take(i as int + 1).drop_last() =~= start.take(i as int));
                reveal_with_fuel(Seq::filter, 1);
                if levels[i].id != level_id {
                    kept.push(levels[i].duplicate());
                }
                i = i + 1;
            }
            assert(start.take(i as int) =~= start);
            *levels = kept;
            close_modal(modals, modal_id);
        },
        Err(message) => {
            edit_access_level_modal(modals, modal_id, AccessLevelEdit::Status(false, Some(message)));
        },
    }
}

/// An edit of the user form.
#[derive(Clone, Debug)]
pub enum UserEdit {
    Mode(SecurityModalMode),
    FirstName(String),
    LastName(String),
    Email(String),
    Username(String),
    Password(String),
    TogglePasswordVisible,
    TogglePermissionMenu,
    ToggleAccessLevelMenu,
    TogglePermission(u32),
    ToggleAccessLevel(u32),
    ToggleInfo,
    DeleteConfirm(bool),
    Status(bool, Option<String>),
}

/// `r` is the user form `m` after the edit `e`.
pub open spec fn user_edited(m: UserModal, e: UserEdit, r: UserModal) -> bool {
    match e {
        UserEdit::Mode(mode) => r == UserModal { mode, ..m },
        UserEdit::FirstName(v) => r == UserModal { first_name: v, ..m },
        UserEdit::LastName(v) => r == UserModal { last_name: v, ..m },
        UserEdit::Email(v) => r == UserModal { email: v, ..m },
        UserEdit::Username(v) => r == UserModal { username: v, ..m },
        UserEdit::Password(v) => r == UserModal { password: v, ..m },
        UserEdit::TogglePasswordVisible => r == UserModal {
            is_password_visible: !m.is_password_visible,
            ..m
        },
        UserEdit::TogglePermissionMenu => r == UserModal {
            is_permission_menu_open: !m.is_permission_menu_open,
            is_access_level_menu_open: false,
            ..m
        },
        UserEdit::ToggleAccessLevelMenu => r == UserModal {
            is_access_level_menu_open: !m.is_access_level_menu_open,
            is_permission_menu_open: false,
            ..m
        },
        UserEdit::TogglePermission(id) => {
            &&& r == UserModal { permission_ids: r.permission_ids, ..m }
            &&& r.permission_ids@ == toggled_ids(m.permission_ids@, id)
        },
        UserEdit::ToggleAccessLevel(id) => {
            &&& r == UserModal { access_level_ids: r.access_level_ids, ..m }
            &&& r.access_level_ids@ == toggled_ids(m.access_level_ids@, id)
        },
        UserEdit::ToggleInfo => r == UserModal {
            is_info_open: !m.is_info_open,
            is_delete_confirm_open: if !m.is_info_open {
                false
            } else {
                m.is_delete_confirm_open
            },
            ..m
        },
        UserEdit::DeleteConfirm(is_open) => r == UserModal {
            is_delete_confirm_open: is_open,
            is_info_open: if is_open {
                false
            } else {
                m.is_info_open
            },
            ..m
        },
        UserEdit::Status(is_saving, error) => r == UserModal { is_saving, error, ..m },
    }
}

fn apply_user_edit(m: &mut UserModal, e: UserEdit)
    ensures
        user_edited(*old(m), e, *final(m)),
{
    match e {
        UserEdit::Mode(mode) => {
            m.mode = mode;
        },
        UserEdit::FirstName(v) => {
            m.first_name = v;
        },
        UserEdit::LastName(v) => {
            m.last_name = v;
        },
        UserEdit::Email(v) => {
            m.email = v;
        },
        UserEdit::Username(v) => {
            m.username = v;
        },
        UserEdit::Password(v) => {
            m.password = v;
        },
        UserEdit::TogglePasswordVisible => {
            m.is_password_visible = !m.is_password_visible;
        },
        UserEdit::TogglePermissionMenu => {
            m.is_permission_menu_open = !m.is_permission_menu_open;
            m.is_access_level_menu_open = false;
        },
        UserEdit::ToggleAccessLevelMenu => {
            m.is_access_level_menu_open = !m.is_access_level_menu_open;
            m.is_permission_menu_open = false;
        },
        UserEdit::TogglePermission(id) => toggle_id(&mut m.permission_ids, id),
        UserEdit::ToggleAccessLevel(id) => toggle_id(&mut m.access_level_ids, id),
        UserEdit::ToggleInfo => {
            m.is_info_open = !m.is_info_open;
            if m.is_info_open {
                m.is_delete_confirm_open = false;
            }
        },
        UserEdit::DeleteConfirm(is_open) => {
            m.is_delete_confirm_open = is_open;
            if is_open {
                m.is_info_open = false;
            }
        },
        UserEdit::Status(is_saving, error) => {
            m.is_saving = is_saving;
            m.error = error;
        },
    }
}

/// Position of the user modal with the given id, or -1.
pub open spec fn user_modal_index(modals: Seq<OpenModal>, modal_id: u32) -> int {
    let k = modal_index(modals, modal_id);
    if k >= 0 && modals[k].content is User {
        k
    } else {
        -1
    }
}

/// The form of the user modal at `k`.
pub open spec fn user_form(modals: Seq<OpenModal>, k: int) -> UserModal {
    modals[k].content->User_0
}

/// `b` is `a` with the user modal at `k` showing `m`, retitled when asked.
pub open spec fn user_replaced(
    a: Seq<OpenModal>,
    b: Seq<OpenModal>,
    k: int,
    m: UserModal,
    retitle: bool,
) -> bool {
    &&& same_except(a, b, k)
    &&& b[k] == OpenModal { content: ModalContent::User(m), title: b[k].title, ..a[k] }
    &&& retitle ==> b[k].title@ == user_title(m.mode)
    &&& !retitle ==> b[k].title == a[k].title
}

/// Applies an edit to the user modal with the given id; a change of mode
/// also changes its title. Nothing happens when no such modal is open.
pub fn edit_user_modal(modals: &mut Vec<OpenModal>, modal_id: u32, edit: UserEdit)
    ensures
        user_modal_index(old(modals)@, modal_id) < 0 ==> final(modals)@ == old(modals)@,
        user_modal_index(old(modals)@, modal_id) >= 0 ==> {
            let k = user_modal_index(old(modals)@, modal_id);
            &&& final(modals)@[k].content is User
            &&& user_edited(user_form(old(modals)@, k), edit, user_form(final(modals)@, k))
            &&& user_replaced(old(modals)@, final(modals)@, k, user_form(final(modals)@, k), edit is Mode)
        },
{
    proof {
        lemma_modal_index(modals@, modal_id);
    }
    let k = match find_modal(modals, modal_id) {
        Some(k) => k,
        None => return ,
    };
    if !matches!(modals[k].content, ModalContent::User(_)) {
        return ;
    }
    let is_mode = matches!(edit, UserEdit::Mode(_));
    let mut open = modals.remove(k);
    match &mut open.content {
        ModalContent::User(m) => {
            apply_user_edit(m, edit);
            if is_mode {
                open.title = user_modal_title(m.mode).to_owned();
            }
        },
        _ => {},
    }
    modals.insert(k, open);
}

/// Switches the mode of a user modal. Returns whether the first-name field
/// must take the focus (when the form becomes editable).
pub fn set_user_mode(modals: &mut Vec<OpenModal>, modal_id: u32, mode: SecurityModalMode) -> (r: bool)
    ensures
        r == (mode == SecurityModalMode::Edit),
        user_modal_index(old(modals)@, modal_id) < 0 ==> final(modals)@ == old(modals)@,
        user_modal_index(old(modals)@, modal_id) >= 0 ==> {
            let k = user_modal_index(old(modals)@, modal_id);
            user_replaced(
                old(modals)@,
                final(modals)@,
                k,
                UserModal { mode, ..user_form(old(modals)@, k) },
                true,
            )
        },
{
    edit_user_modal(modals, modal_id, UserEdit::Mode(mode));
    mode == SecurityModalMode::Edit
}

/// Holds of an open modal that shows the user `target` (`None`: a new user).
pub open spec fn shows_user(target: Option<Seq<char>>) -> spec_fn(OpenModal) -> bool {
    |m: OpenModal| m.content is User && opt_view(m.content->User_0.id) == target
}

/// Holds of the permission with the given name.
pub open spec fn permission_named(name: Seq<char>) -> spec_fn(Permission) -> bool {
    |p: Permission| p.name@ == name
}

/// Holds of the access level with the given name.
pub open spec fn level_named(name: Seq<char>) -> spec_fn(AccessLevel) -> bool {
    |l: AccessLevel| l.name@ == name
}

/// The permission a new user starts with: "Viewer", else the first one.
pub open spec fn default_permission_ids(ps: Seq<Permission>) -> Seq<u32> {
    let k = first_where(ps, permission_named("Viewer"@));
    if k >= 0 {
        seq![ps[k].id]
    } else if ps.len() > 0 {
        seq![ps[0].id]
    } else {
        Seq::empty()
    }
}

/// The access level a new user starts with: "Public", else the first one.
pub open spec fn default_access_level_ids(ls: Seq<AccessLevel>) -> Seq<u32> {
    let k = first_where(ls, level_named("Public"@));
    if k >= 0 {
        seq![ls[k].id]
    } else if ls.len() > 0 {
        seq![ls[0].id]
    } else {
        Seq::empty()
    }
}

fn default_permission(ps: &Vec<Permission>) -> (r: Vec<u32>)
    ensures
        r@ == default_permission_ids(ps@),
{
    let ghost p = permission_named("Viewer"@);
    let mut i: usize = 0;
    while i < ps.len()
        invariant
            i <= ps@.len(),
            p == permission_named("Viewer"@),
            first_where(ps@.take(i as int), p) == -1,
        decreases ps@.len() - i,
    {
        assert(ps@.take(i as int + 1).drop_last() =~= ps@.take(i as int));
        if str_eq(ps[i].name.as_str(), "Viewer") {
            proof {
                lemma_first_where_prefix(ps@, p, i as int, ps@.len() as int);
                assert(ps@.take(ps@.len() as int) =~= ps@);
            }
            let mut r: Vec<u32> = Vec::new();
            r.push(ps[i].id);
            return r;
        }
        i = i + 1;
    }
    assert(ps@.take(i as int) =~= ps@);
    let mut r: Vec<u32> = Vec::new();
    if ps.len() > 0 {
        r.push(ps[0].id);
    }
    r
}

fn default_access_level(ls: &Vec<AccessLevel>) -> (r: Vec<u32>)
    ensures
        r@ == default_access_level_ids(ls@),
{
    let ghost p = level_named("Public"@);
    let mut i: usize = 0;
    while i < ls.len()
        invariant
            i <= ls@.len(),
            p == level_named("Public"@),
            first_where(ls@.take(i as int), p) == -1,
        decreases ls@.len() - i,
    {
        assert(ls@.take(i as int + 1).drop_last() =~= ls@.take(i as int));
        if str_eq(ls[i].name.as_str(), "Public") {
            proof {
                lemma_first_where_prefix(ls@, p, i as int, ls@.len() as int);
                assert(ls@.take(ls@.len() as int) =~= ls@);
            }
            let mut r: Vec<u32> = Vec::new();
            r.push(ls[i].id);
            return r;
        }
        i = i + 1;
    }
    assert(ls@.take(i as int) =~= ls@);
    let mut r: Vec<u32> = Vec::new();
    if ls.len() > 0 {
        r.push(ls[0].id);
    }
    r
}

fn permission_ids_of(ps: &Vec<Permission>) -> (r: Vec<u32>)
    ensures
        r@ == ps@.map_values(|p: Permission| p.id),
{
    let mut r: Vec<u32> = Vec::new();
    let mut i: usize = 0;
    while i < ps.len()
        invariant
            i <= ps@.len(),
            r@ == ps@.take(i as int).map_values(|p: Permission| p.id),
        decreases ps@.len() - i,
    {
        r.push(ps[i].id);
        assert(ps@.take(i as int + 1).map_values(|p: Permission| p.id) =~= ps@.take(
            i as int,
        ).map_values(|p: Permission| p.id).push(ps@[i as int].id));
        i = i + 1;
    }
    assert(ps@.take(i as int) =~= ps@);
    r
}

fn level_ids_of(ls: &Vec<AccessLevel>) -> (r: Vec<u32>)
    ensures
        r@ == ls@.map_values(|l: AccessLevel| l.id),
{
    let mut r: Vec<u32> = Vec::new();
    let mut i: usize = 0;
    while i < ls.len()
        invariant
            i <= ls@.len(),
            r@ == ls@.take(i as int).map_values(|l: AccessLevel| l.id),
        decreases ls@.len() - i,
    {
        r.push(ls[i].id);
        assert(ls@.take(i as int + 1).map_values(|l: AccessLevel| l.id) =~= ls@.take(
            i as int,
        ).map_values(|l: AccessLevel| l.id).push(ls@[i as int].id));
        i = i + 1;
    }
    assert(ls@.take(i as int) =~= ls@);
    r
}

/// The form of a new user modal: the user's details with the ids of their
/// permissions and access levels, or an empty form to create a user with
/// the default permission and access level.
pub open spec fn new_user_form(
    session_key: String,
    permissions: Seq<Permission>,
    access_levels: Seq<AccessLevel>,
    user: Option<User>,
    m: UserModal,
) -> bool {
    &&& m.error is None
    &&& !m.is_access_level_menu_open
    &&& !m.is_delete_confirm_open
    &&& !m.is_info_open
    &&& !m.is_password_visible
    &&& !m.is_permission_menu_open
    &&& !m.is_saving
    &&& m.password@ == Seq::<char>::empty()
    &&& m.permissions@ == permissions
    &&& m.access_levels@ == access_levels
    &&& m.session_key == session_key
    &&& match user {
        Some(u) => {
            &&& m.id == Some(u.id)
            &&& m.email == u.email
            &&& m.first_name == u.first_name
            &&& m.last_name == u.last_name
            &&& m.username == u.username
            &&& m.mode == SecurityModalMode::Details
            &&& m.permission_ids@ == u.permissions@.map_values(|p: Permission| p.id)
            &&& m.access_level_ids@ == u.access_levels@.map_values(|l: AccessLevel| l.id)
        },
        None => {
            &&& m.id is None
            &&& m.email@ == Seq::<char>::empty()
            &&& m.first_name@ == Seq::<char>::empty()
            &&& m.last_name@ == Seq::<char>::empty()
            &&& m.username@ == Seq::<char>::empty()
            &&& m.mode == SecurityModalMode::Create
            &&& m.permission_ids@ == default_permission_ids(permissions)
            &&& m.access_level_ids@ == default_access_level_ids(access_levels)
        },
    }
}

/// Opens the modal of a user, or of a new user. When such a modal is open
/// already it is brought to the front instead. Returns the modal's id.
pub fn open_user_modal(
    modals: &mut Vec<OpenModal>,
    next_modal_id: &mut u32,
    session_key: String,
    permissions: &Vec<Permission>,
    access_levels: &Vec<AccessLevel>,
    user: Option<User>,
) -> (r: u32)
    requires
        highest(old(modals)@) < u32::MAX,
        *old(next_modal_id) < u32::MAX,
    ensures
        ({
            let k = first_where(
                old(modals)@,
                shows_user(
                    match user {
                        Some(u) => Some(u.id@),
                        None => None,
                    },
                ),
            );
            &&& k >= 0 ==> {
                &&& r == old(modals)@[k].id
                &&& *final(next_modal_id) == *old(next_modal_id)
                &&& final(modals)@ == old(modals)@.update(
                    k,
                    OpenModal { z_index: (highest(old(modals)@) + 1) as u32, ..old(modals)@[k] },
                )
            }
            &&& k < 0 ==> {
                let n = old(modals)@.len();
                &&& r == *old(next_modal_id)
                &&& *final(next_modal_id) == *old(next_modal_id) + 1
                &&& final(modals)@.len() == n + 1
                &&& final(modals)@.take(n as int) == old(modals)@
                &&& final(modals)@[n as int].id == r
                &&& final(modals)@[n as int].z_index == highest(old(modals)@) + 1
                &&& final(modals)@[n as int].content is User
                &&& new_user_form(
                    session_key,
                    permissions@,
                    access_levels@,
                    user,
                    final(modals)@[n as int].content->User_0,
                )
                &&& final(modals)@[n as int].title@ == user_title(
                    final(modals)@[n as int].content->User_0.mode,
                )
            }
        }),
{
    let target: Option<String> = match &user {
        Some(u) => Some(u.id.clone()),
        None => None,
    };
    let ghost t = match &user {
        Some(u) => Some(u.id@),
        None => None,
    };
    let ghost p = shows_user(t);
    let z_index = next_modal_z_index(modals);
    let mut i: usize = 0;
    while i < modals.len()
        invariant
            i <= modals@.len(),
            modals@ == old(modals)@,
            p == shows_user(t),
            opt_view(target) == t,
            t == match user {
                Some(u) => Some(u.id@),
                None => None,
            },
            z_index == highest(old(modals)@) + 1,
            first_where(modals@.take(i as int), p) == -1,
        decreases modals@.len() - i,
    {
        assert(modals@.take(i as int + 1).drop_last() =~= modals@.take(i as int));
        let hit = match &modals[i].content {
            ModalContent::User(m) => match (&m.id, &target) {
                (Some(a), Some(b)) => str_eq(a.as_str(), b.as_str()),
                (None, None) => true,
                _ => false,
            },
            _ => false,
        };
        if hit {
            proof {
                assert(p(modals@[i as int]));
                assert(modals@.take(i as int + 1).last() == modals@[i as int]);
                lemma_first_where_prefix(modals@, p, i as int, modals@.len() as int);
                assert(modals@.take(modals@.len() as int) =~= modals@);
            }
            let mut open = modals.remove(i);
            let id = open.id;
            open.z_index = z_index;
            modals.insert(i, open);
            return id;
        }
        i = i + 1;
    }
    assert(modals@.take(i as int) =~= modals@);
    let id = *next_modal_id;
    let content = match user {
        Some(u) => UserModal {
            access_level_ids: level_ids_of(&u.access_levels),
            access_levels: dup_vec(access_levels),
            email: u.email,
            error: None,
            first_name: u.first_name,
            id: Some(u.id),
            is_access_level_menu_open: false,
            is_delete_confirm_open: false,
            is_info_open: false,
            is_password_visible: false,
            is_permission_menu_open: false,
            is_saving: false,
            last_name: u.last_name,
            mode: SecurityModalMode::Details,
            password: String::new(),
            permission_ids: permission_ids_of(&u.permissions),
            permissions: dup_vec(permissions),
            session_key,
            username: u.username,
        },
        None => UserModal {
            access_level_ids: default_access_level(access_levels),
            access_levels: dup_vec(access_levels),
            email: String::new(),
            error: None,
            first_name: String::new(),
            id: None,
            is_access_level_menu_open: false,
            is_delete_confirm_open: false,
            is_info_open: false,
            is_password_visible: false,
            is_permission_menu_open: false,
            is_saving: false,
            last_name: String::new(),
            mode: SecurityModalMode::Create,
            password: String::new(),
            permission_ids: default_permission(permissions),
            permissions: dup_vec(permissions),
            session_key,
            username: String::new(),
        },
    };
    let title = user_modal_title(content.mode).to_owned();
    *next_modal_id = id + 1;
    let n = modals.len();
    modals.push(OpenModal { content: ModalContent::User(content), id, title, z_index });
    assert(modals@.take(n as int) =~= old(modals)@);
    id
}

/// Saves the user form. An invalid form shows why; a valid one shows that
/// it is saving, and the create request (with the password) or the update
/// request (without it) is returned.
pub fn save_user_modal(modals: &mut Vec<OpenModal>, modal_id: u32) -> (r: Option<SecurityRequest>)
    ensures
        ({
            let k = user_modal_index(old(modals)@, modal_id);
            &&& k < 0 ==> final(modals)@ == old(modals)@ && r is None
            &&& k >= 0 ==> {
                let m = user_form(old(modals)@, k);
                &&& !user_is_valid(m) ==> {
                    &&& r is None
                    &&& exists|e: String|
                        e@ == user_error_message(m) && user_replaced(
                            old(modals)@,
                            final(modals)@,
                            k,
                            UserModal { is_saving: false, error: Some(e), ..m },
                            false,
                        )
                }
                &&& user_is_valid(m) ==> {
                    &&& user_replaced(
                        old(modals)@,
                        final(modals)@,
                        k,
                        UserModal { is_saving: true, error: None, ..m },
                        false,
                    )
                    &&& match m.id {
                        Some(id) => r matches Some(
                            SecurityRequest::UpdateUser { id: rid, session_key, body },
                        ) && rid == id && session_key == m.session_key && body@ == user_json(m, false),
                        None => r matches Some(SecurityRequest::CreateUser { session_key, body })
                            && session_key == m.session_key && body@ == user_json(m, true),
                    }
                }
            }
        }),
{
    proof {
        lemma_modal_index(modals@, modal_id);
    }
    let k = match find_modal(modals, modal_id) {
        Some(k) => k,
        None => return None,
    };
    let (valid, message, request) = match &modals[k].content {
        ModalContent::User(m) => {
            let valid = is_user_valid(m);
            let message = user_validation_message(m);
            let request = match &m.id {
                Some(id) => SecurityRequest::UpdateUser {
                    id: id.clone(),
                    session_key: m.session_key.clone(),
                    body: user_json_body(m, false),
                },
                None => SecurityRequest::CreateUser {
                    session_key: m.session_key.clone(),
                    body: user_json_body(m, true),
                },
            };
            (valid, message, request)
        },
        _ => return None,
    };
    if !valid {
        let error = message.to_owned();
        let ghost e = error;
        edit_user_modal(modals, modal_id, UserEdit::Status(false, Some(error)));
        assert(user_replaced(
            old(modals)@,
            modals@,
            k as int,
            UserModal { is_saving: false, error: Some(e), ..user_form(old(modals)@, k as int) },
            false,
        ));
        return None;
    }
    edit_user_modal(modals, modal_id, UserEdit::Status(true, None));
    Some(request)
}

/// The users after one was saved (by views): an update replaces every user
/// with its id, a creation adds it at the end.
pub open spec fn users_after_save(
    before: Seq<User>,
    after: Seq<User>,
    saved: User,
    was_update: bool,
) -> bool {
    if was_update {
        &&& after.len() == before.len()
        &&& forall|j: int|
            0 <= j < before.len() ==> (#[trigger] after[j])@ == (if before[j].id@ == saved.id@ {
                saved@
            } else {
                before[j]@
            })
    } else {
        after == before.push(saved)
    }
}

/// The server answered a save of a user: on success the list takes the
/// saved user and the modal closes; on failure the form shows the message.
pub fn user_saved(
    modals: &mut Vec<OpenModal>,
    modal_id: u32,
    users: &mut Vec<User>,
    was_update: bool,
    outcome: Result<User, String>,
)
    ensures
        outcome matches Ok(saved) ==> {
            &&& users_after_save(old(users)@, final(users)@, saved, was_update)
            &&& final(modals)@ == old(modals)@.filter(other_modal(modal_id))
        },
        outcome matches Err(message) ==> {
            let k = user_modal_index(old(modals)@, modal_id);
            &&& final(users)@ == old(users)@
            &&& k < 0 ==> final(modals)@ == old(modals)@
            &&& k >= 0 ==> user_replaced(
                old(modals)@,
                final(modals)@,
                k,
                UserModal { is_saving: false, error: Some(message), ..user_form(old(modals)@, k) },
                false,
            )
        },
{
    match outcome {
        Ok(saved) => {
            if was_update {
                let mut i: usize = 0;
                while i < users.len()
                    invariant
                        i <= users@.len(),
                        users@.len() == old(users)@.len(),
                        forall|j: int|
                            0 <= j < users@.len() ==> (#[trigger] users@[j])@ == (if j < i
                                && old(users)@[j].id@ == saved.id@ {
                                saved@
                            } else {
                                old(users)@[j]@
                            }),
                    decreases users@.len() - i,
                {
                    if str_eq(users[i].id.as_str(), saved.id.as_str()) {
                        let copy = saved.duplicate();
                        users.set(i, copy);
                    }
                    i = i + 1;
                }
            } else {
                users.push(saved);
            }
            close_modal(modals, modal_id);
        },
        Err(message) => {
            edit_user_modal(modals, modal_id, UserEdit::Status(false, Some(message)));
        },
    }
}

/// Deletes the user of the modal, when it is an existing user: the form
/// shows that it is working and the delete request is returned.
pub fn delete_user_modal(modals: &mut Vec<OpenModal>, modal_id: u32) -> (r: Option<SecurityRequest>)
    ensures
        ({
            let k = user_modal_index(old(modals)@, modal_id);
            &&& (k < 0 || user_form(old(modals)@, k).id is None) ==> final(modals)@ == old(modals)@
                && r is None
            &&& (k >= 0 && user_form(old(modals)@, k).id is Some) ==> {
                let m = user_form(old(modals)@, k);
                &&& user_replaced(
                    old(modals)@,
                    final(modals)@,
                    k,
                    UserModal { is_saving: true, error: None, ..m },
                    false,
                )
                &&& r matches Some(SecurityRequest::DeleteUser { id, session_key }) && id
                    == m.id->0 && session_key == m.session_key
            }
        }),
{
    proof {
        lemma_modal_index(modals@, modal_id);
    }
    let k = match find_modal(modals, modal_id) {
        Some(k) => k,
        None => return None,
    };
    let request = match &modals[k].content {
        ModalContent::User(m) => match &m.id {
            Some(id) => SecurityRequest::DeleteUser {
                id: id.clone(),
                session_key: m.session_key.clone(),
            },
            None => return None,
        },
        _ => return None,
    };
    edit_user_modal(modals, modal_id, UserEdit::Status(true, None));
    Some(request)
}

/// Holds of the users whose id is not `id`.
pub open spec fn other_user(id: Seq<char>) -> spec_fn(User) -> bool {
    |u: User| u.id@ != id
}

/// The server answered a delete of a user: on success the user leaves the
/// list and the modal closes; on failure the form shows the message.
pub fn user_deleted(
    modals: &mut Vec<OpenModal>,
    modal_id: u32,
    users: &mut Vec<User>,
    user_id: &str,
    outcome: Result<(), String>,
)
    ensures
        outcome is Ok ==> {
            &&& final(users)@ == old(users)@.filter(other_user(user_id@))
            &&& final(modals)@ == old(modals)@.filter(other_modal(modal_id))
        },
        outcome matches Err(message) ==> {
            let k = user_modal_index(old(modals)@, modal_id);
            &&& final(users)@ == old(users)@
            &&& k < 0 ==> final(modals)@ == old(modals)@
            &&& k >= 0 ==> user_replaced(
                old(modals)@,
                final(modals)@,
                k,
                UserModal { is_saving: false, error: Some(message), ..user_form(old(modals)@, k) },
                false,
            )
        },
{
    match outcome {
        Ok(()) => {
            let ghost start = users@;
            let ghost mut j: int = 0;
            let mut i: usize = 0;
            while i < users.len()
                invariant
                    0 <= i <= users@.len(),
                    0 <= j <= start.len(),
                    start == old(users)@,
                    users@.take(i as int) == start.take(j).filter(other_user(user_id@)),
                    users@.skip(i as int) == start.skip(j),
                decreases users@.len() - i,
            {
                assert(users@.skip(i as int).len() > 0);
                assert(j < start.len());
                assert(start.take(j + 1).drop_last() =~= start.take(j));
                assert(users@.skip(i as int)[0] == users@[i as int]);
                assert(start.skip(j)[0] == start[j]);
                reveal_with_fuel(Seq::filter, 1);
                let ghost before = users@;
                let ghost i0 = i as int;
                assert(before.skip(i0 + 1) =~= before.skip(i0).skip(1));
                if str_eq(users[i].id.as_str(), user_id) {
                    users.remove(i);
                    assert(users@.take(i as int) =~= before.take(i as int));
                    assert(users@.skip(i as int) =~= before.skip(i as int + 1));
                } else {
                    assert(users@.take(i as int + 1) =~= before.take(i as int).push(before[i as int]));
                    i = i + 1;
                }
                assert(start.skip(j + 1) =~= start.skip(j).skip(1));
                proof {
                    j = j + 1;
                }
            }
            assert(users@.take(i as int) =~= users@);
            assert(start.take(j) =~= start) by {
                assert(start.skip(j).len() == 0);
            }
            close_modal(modals, modal_id);
        },
        Err(message) => {
            edit_user_modal(modals, modal_id, UserEdit::Status(false, Some(message)));
        },
    }
}

} // verus!
