//! The attribute-template modal: its pickers and ownership popover, the
//! edits of its form, and the save and delete round trips.

use vstd::prelude::*;

use crate::listing::{first_where, lemma_first_where_prefix};
use crate::modals::{attribute_template_closed, attribute_template_modal_title, attribute_template_title};
use crate::pickers::SingleSelectOption;
use crate::requests::{attribute_template_body, attribute_template_json, opt_view};
use crate::security_flows::same_except;
use crate::sort::{sort_items, sorted_by, Caseless, Duplicate};
use crate::stack::{
    close_modal, find_modal, highest, lemma_modal_index, modal_index, next_modal_z_index,
    other_modal, OpenModal,
};
use crate::text::{decimal, parse_u32, parsed_u32, push_decimal, to_string, trim, trim_str, u32_to_string};
use crate::text_std::str_eq;
use crate::types::{
    dup_vec, AccessLevel, AttributeTemplate, AttributeTemplateModal, ModalContent,
    SecurityModalMode, User,
};

verus! {

/// The value types an attribute may have, in menu order.
pub open spec fn value_types() -> Seq<Seq<char>> {
    seq!["text"@, "number"@, "boolean"@, "date"@, "datetime"@]
}

/// The value-type menu: one option per value type, labelled by itself.
pub fn value_type_options() -> (r: Vec<SingleSelectOption>)
    ensures
        r@.len() == value_types().len(),
        forall|i: int|
            0 <= i < r@.len() ==> (#[trigger] r@[i]).label@ == value_types()[i] && r@[i].value@
                == value_types()[i],
{
    let names: [&str; 5] = ["text", "number", "boolean", "date", "datetime"];
    let mut r: Vec<SingleSelectOption> = Vec::new();
    let mut i: usize = 0;
    while i < 5
        invariant
            i <= 5,
            names@.len() == 5,
            forall|k: int| 0 <= k < 5 ==> (#[trigger] names@[k])@ == value_types()[k],
            r@.len() == i,
            forall|k: int|
                0 <= k < i ==> (#[trigger] r@[k]).label@ == value_types()[k] && r@[k].value@
                    == value_types()[k],
        decreases 5 - i,
    {
        r.push(SingleSelectOption { label: names[i].to_owned(), value: names[i].to_owned() });
        i = i + 1;
    }
    r
}

/// The access levels offered: the known ones, or, when none is known, a
/// level named by the current id.
pub open spec fn level_options(levels: Seq<AccessLevel>, current: u32, r: Seq<AccessLevel>) -> bool {
    if levels.len() == 0 {
        &&& r.len() == 1
        &&& r[0].id == current
        &&& r[0].name@ == decimal(current as nat)
        &&& r[0].description@ == Seq::<char>::empty()
    } else {
        r == levels
    }
}

pub fn access_level_options(access_levels: &Vec<AccessLevel>, current_access_level_id: u32) -> (r: Vec<
    AccessLevel,
>)
    ensures
        level_options(access_levels@, current_access_level_id, r@),
{
    if access_levels.len() == 0 {
        let mut r: Vec<AccessLevel> = Vec::new();
        r.push(
            AccessLevel {
                description: String::new(),
                id: current_access_level_id,
                name: u32_to_string(current_access_level_id),
            },
        );
        r
    } else {
        dup_vec(access_levels)
    }
}

/// The access-level menu: each level by name, with its id as value.
pub fn access_level_picker_options(options: &Vec<AccessLevel>) -> (r: Vec<SingleSelectOption>)
    ensures
        r@.len() == options@.len(),
        forall|i: int|
            0 <= i < r@.len() ==> (#[trigger] r@[i]).label@ == options@[i].name@ && r@[i].value@
                == decimal(options@[i].id as nat),
{
    let mut r: Vec<SingleSelectOption> = Vec::new();
    let mut i: usize = 0;
    while i < options.len()
        invariant
            i <= options@.len(),
            r@.len() == i,
            forall|k: int|
                0 <= k < i ==> (#[trigger] r@[k]).label@ == options@[k].name@ && r@[k].value@
                    == decimal(options@[k].id as nat),
        decreases options@.len() - i,
    {
        r.push(
            SingleSelectOption {
                label: options[i].name.clone(),
                value: u32_to_string(options[i].id),
            },
        );
        i = i + 1;
    }
    r
}

/// Holds of the access level with the given id.
pub open spec fn level_with_id(id: u32) -> spec_fn(AccessLevel) -> bool {
    |l: AccessLevel| l.id == id
}

/// The name of the current access level among the options, else its id.
pub fn access_level_summary(options: &Vec<AccessLevel>, current: u32) -> (r: String)
    ensures
        first_where(options@, level_with_id(current)) >= 0 ==> r@ == options@[first_where(
            options@,
            level_with_id(current),
        )].name@,
        first_where(options@, level_with_id(current)) < 0 ==> r@ == decimal(current as nat),
{
    let ghost p = level_with_id(current);
    let mut i: usize = 0;
    while i < options.len()
        invariant
            i <= options@.len(),
            p == level_with_id(current),
            first_where(options@.take(i as int), p) == -1,
        decreases options@.len() - i,
    {
        assert(options@.take(i as int + 1).drop_last() =~= options@.take(i as int));
        if options[i].id == current {
            proof {
                lemma_first_where_prefix(options@, p, i as int, options@.len() as int);
                assert(options@.take(options@.len() as int) =~= options@);
            }
            return options[i].name.clone();
        }
        i = i + 1;
    }
    assert(options@.take(i as int) =~= options@);
    u32_to_string(current)
}

/// Holds of the user with the given id.
pub open spec fn user_with_id(id: Seq<char>) -> spec_fn(User) -> bool {
    |u: User| u.id@ == id
}

/// The username of the user with the given id, if one is listed.
pub open spec fn username_of(users: Seq<User>, id: Seq<char>) -> Option<Seq<char>> {
    let k = first_where(users, user_with_id(id));
    if k >= 0 {
        Some(users[k].username@)
    } else {
        None
    }
}

fn find_user(users: &Vec<User>, id: &str) -> (r: Option<usize>)
    ensures
        match r {
            Some(i) => i as int == first_where(users@, user_with_id(id@)) && i < users@.len(),
            None => first_where(users@, user_with_id(id@)) == -1,
        },
{
    let ghost p = user_with_id(id@);
    let mut i: usize = 0;
    while i < users.len()
        invariant
            i <= users@.len(),
            p == user_with_id(id@),
            first_where(users@.take(i as int), p) == -1,
        decreases users@.len() - i,
    {
        assert(users@.take(i as int + 1).drop_last() =~= users@.take(i as int));
        if str_eq(users[i].id.as_str(), id) {
            proof {
                lemma_first_where_prefix(users@, p, i as int, users@.len() as int);
                assert(users@.take(users@.len() as int) =~= users@);
            }
            return Some(i);
        }
        i = i + 1;
    }
    assert(users@.take(i as int) =~= users@);
    None
}

/// The username of the listed user with the given id.
pub fn owner_username_from_id(owner_users: &Vec<User>, owner_user_id: &str) -> (r: Option<String>)
    ensures
        opt_view(r) == username_of(owner_users@, owner_user_id@),
{
    match find_user(owner_users, owner_user_id) {
        Some(k) => Some(owner_users[k].username.clone()),
        None => None,
    }
}

/// Who owns an attribute template, as shown: the owner's username, else
/// the username of the listed owner, else the owner's id, else "Unknown".
pub open spec fn owner_text(m: AttributeTemplateModal) -> Seq<char> {
    match m.owner_username {
        Some(n) => n@,
        None => match m.owner_user_id {
            Some(o) => match username_of(m.owner_users@, o@) {
                Some(n) => n,
                None => o@,
            },
            None => "Unknown"@,
        },
    }
}

pub fn owner_label(attribute_template: &AttributeTemplateModal) -> (r: String)
    ensures
        r@ == owner_text(*attribute_template),
{
    match &attribute_template.owner_username {
        Some(n) => n.clone(),
        None => match &attribute_template.owner_user_id {
            Some(o) => match owner_username_from_id(&attribute_template.owner_users, o.as_str()) {
                Some(n) => n,
                None => o.clone(),
            },
            None => "Unknown".to_owned(),
        },
    }
}

/// The owner menu: each user by username, with the id as value.
pub fn owner_options(owner_users: &Vec<User>) -> (r: Vec<SingleSelectOption>)
    ensures
        r@.len() == owner_users@.len(),
        forall|i: int|
            0 <= i < r@.len() ==> (#[trigger] r@[i]).label@ == owner_users@[i].username@
                && r@[i].value@ == owner_users@[i].id@,
{
    let mut r: Vec<SingleSelectOption> = Vec::new();
    let mut i: usize = 0;
    while i < owner_users.len()
        invariant
            i <= owner_users@.len(),
            r@.len() == i,
            forall|k: int|
                0 <= k < i ==> (#[trigger] r@[k]).label@ == owner_users@[k].username@ && r@[k].value@
                    == owner_users@[k].id@,
        decreases owner_users@.len() - i,
    {
        r.push(
            SingleSelectOption {
                label: owner_users[i].username.clone(),
                value: owner_users[i].id.clone(),
            },
        );
        i = i + 1;
    }
    r
}

/// The owner picker's summary: the chosen user's name, else the label.
pub fn owner_summary(owner_users: &Vec<User>, owner_user_id: &str, owner_label: &str) -> (r: String)
    ensures
        r@ == match username_of(owner_users@, owner_user_id@) {
            Some(n) => n,
            None => owner_label@,
        },
{
    match owner_username_from_id(owner_users, owner_user_id) {
        Some(n) => n,
        None => owner_label.to_owned(),
    }
}

/// The form lacks its name while creating or editing. (The save button's
/// tooltip follows this; the button itself is
/// `is_attribute_template_save_button_disabled`.)
pub fn is_attribute_template_save_disabled(m: &AttributeTemplateModal) -> (r: bool)
    ensures
        r == (m.mode != SecurityModalMode::Details && trim(m.name@).len() == 0),
{
    m.mode != SecurityModalMode::Details && trim_str(m.name.as_str()).len() == 0
}

/// The save button is disabled while a name is missing and while a save is
/// under way.
pub fn is_attribute_template_save_button_disabled(m: &AttributeTemplateModal) -> (r: bool)
    ensures
        r == ((m.mode != SecurityModalMode::Details && trim(m.name@).len() == 0) || m.is_saving),
{
    is_attribute_template_save_disabled(m) || m.is_saving
}

/// An edit of the attribute-template form.
#[derive(Clone, Debug)]
pub enum AttributeTemplateEdit {
    Mode(SecurityModalMode),
    Name(String),
    Description(String),
    DefaultValue(String),
    Required(bool),
    ValueType(String),
    ToggleValueTypeMenu,
    ToggleAccessLevelMenu,
    /// The access-level menu chose the level whose id is this text.
    AccessLevel(String),
    ToggleInfo,
    DeleteConfirm(bool),
    ToggleOwnership,
    Owner(String),
    Status(bool, Option<String>),
}

/// `r` is the attribute-template form `m` after the edit `e`.
pub open spec fn attribute_template_edited(
    m: AttributeTemplateModal,
    e: AttributeTemplateEdit,
    r: AttributeTemplateModal,
) -> bool {
    match e {
        AttributeTemplateEdit::Mode(mode) => r == attribute_template_closed(
            AttributeTemplateModal { mode, ..m },
        ),
        AttributeTemplateEdit::Name(v) => r == AttributeTemplateModal { name: v, ..m },
        AttributeTemplateEdit::Description(v) => r == AttributeTemplateModal { description: v, ..m },
        AttributeTemplateEdit::DefaultValue(v) => r == AttributeTemplateModal {
            default_value: v,
            ..m
        },
        AttributeTemplateEdit::Required(v) => r == AttributeTemplateModal { is_required: v, ..m },
        AttributeTemplateEdit::ValueType(v) => r == AttributeTemplateModal {
            value_type: v,
            is_value_type_menu_open: false,
            ..m
        },
        AttributeTemplateEdit::ToggleValueTypeMenu => r == AttributeTemplateModal {
            is_value_type_menu_open: !m.is_value_type_menu_open,
            is_access_level_menu_open: false,
            ..m
        },
        AttributeTemplateEdit::ToggleAccessLevelMenu => r == AttributeTemplateModal {
            is_access_level_menu_open: !m.is_access_level_menu_open,
            is_value_type_menu_open: false,
            ..m
        },
        AttributeTemplateEdit::AccessLevel(text) => match parsed_u32(text@) {
            Some(id) => r == AttributeTemplateModal {
                access_level_id: id,
                is_access_level_menu_open: false,
                ..m
            },
            None => r == m,
        },
        AttributeTemplateEdit::ToggleInfo => r == AttributeTemplateModal {
            is_info_open: !m.is_info_open,
            is_delete_confirm_open: false,
            ..m
        },
        AttributeTemplateEdit::DeleteConfirm(is_open) => r == AttributeTemplateModal {
            is_delete_confirm_open: is_open,
            is_info_open: if is_open && m.mode == SecurityModalMode::Details {
                false
            } else {
                m.is_info_open
            },
            ..m
        },
        AttributeTemplateEdit::ToggleOwnership => r == AttributeTemplateModal {
            is_ownership_open: !m.is_ownership_open,
            is_info_open: false,
            is_delete_confirm_open: false,
            ..m
        },
        AttributeTemplateEdit::Owner(id) => {
            &&& r == AttributeTemplateModal {
                owner_user_id: Some(id),
                owner_username: r.owner_username,
                ..m
            }
            &&& opt_view(r.owner_username) == username_of(m.owner_users@, id@)
        },
        AttributeTemplateEdit::Status(is_saving, error) => r == AttributeTemplateModal {
            is_saving,
            error,
            ..m
        },
    }
}

#[verifier::spinoff_prover]
#[verifier::rlimit(60)]
fn apply_attribute_template_edit(m: &mut AttributeTemplateModal, e: AttributeTemplateEdit)
    ensures
        attribute_template_edited(*old(m), e, *final(m)),
{
    match e {
        AttributeTemplateEdit::Mode(mode) => {
            m.mode = mode;
            m.close_popovers();
        },
        AttributeTemplateEdit::Name(v) => {
            m.name = v;
        },
        AttributeTemplateEdit::Description(v) => {
            m.description = v;
        },
        AttributeTemplateEdit::DefaultValue(v) => {
            m.default_value = v;
        },
        AttributeTemplateEdit::Required(v) => {
            m.is_required = v;
        },
        AttributeTemplateEdit::ValueType(v) => {
            m.value_type = v;
            m.is_value_type_menu_open = false;
        },
        AttributeTemplateEdit::ToggleValueTypeMenu => {
            m.is_value_type_menu_open = !m.is_value_type_menu_open;
            m.is_access_level_menu_open = false;
        },
        AttributeTemplateEdit::ToggleAccessLevelMenu => {
            m.is_access_level_menu_open = !m.is_access_level_menu_open;
            m.is_value_type_menu_open = false;
        },
        AttributeTemplateEdit::AccessLevel(text) => {
            match parse_u32(text.as_str()) {
                Some(id) => {
                    m.access_level_id = id;
                    m.is_access_level_menu_open = false;
                },
                None => {},
            }
        },
        AttributeTemplateEdit::ToggleInfo => {
            m.is_info_open = !m.is_info_open;
            m.is_delete_confirm_open = false;
        },
        AttributeTemplateEdit::DeleteConfirm(is_open) => {
            m.is_delete_confirm_open = is_open;
            if is_open && m.mode == SecurityModalMode::Details {
                m.is_info_open = false;
            }
        },
        AttributeTemplateEdit::ToggleOwnership => {
            m.is_ownership_open = !m.is_ownership_open;
            m.is_info_open = false;
            m.is_delete_confirm_open = false;
        },
        AttributeTemplateEdit::Owner(id) => {
            let username = owner_username_from_id(&m.owner_users, id.as_str());
            m.owner_user_id = Some(id);
            m.owner_username = username;
        },
        AttributeTemplateEdit::Status(is_saving, error) => {
            m.is_saving = is_saving;
            m.error = error;
        },
    }
}

/// Position of the attribute-template modal with the given id, or -1.
pub open spec fn template_modal_index(modals: Seq<OpenModal>, modal_id: u32) -> int {
    let k = modal_index(modals, modal_id);
    if k >= 0 && modals[k].content is AttributeTemplate {
        k
    } else {
        -1
    }
}

/// The form of the attribute-template modal at `k`.
pub open spec fn template_form(modals: Seq<OpenModal>, k: int) -> AttributeTemplateModal {
    modals[k].content->AttributeTemplate_0
}

/// `b` is `a` with the attribute-template modal at `k` showing `m`,
/// retitled when asked.
pub open spec fn template_replaced(
    a: Seq<OpenModal>,
    b: Seq<OpenModal>,
    k: int,
    m: AttributeTemplateModal,
    retitle: bool,
) -> bool {
    &&& same_except(a, b, k)
    &&& b[k] == OpenModal { content: ModalContent::AttributeTemplate(m), title: b[k].title, ..a[k] }
    &&& retitle ==> b[k].title@ == attribute_template_title(m.mode)
    &&& !retitle ==> b[k].title == a[k].title
}

/// Applies an edit to the attribute-template modal with the given id; a
/// change of mode also changes its title. Nothing happens when no such
/// modal is open.
pub fn edit_attribute_template_modal(
    modals: &mut Vec<OpenModal>,
    modal_id: u32,
    edit: AttributeTemplateEdit,
)
    ensures
        template_modal_index(old(modals)@, modal_id) < 0 ==> final(modals)@ == old(modals)@,
        template_modal_index(old(modals)@, modal_id) >= 0 ==> {
            let k = template_modal_index(old(modals)@, modal_id);
            &&& final(modals)@[k].content is AttributeTemplate
            &&& attribute_template_edited(
                template_form(old(modals)@, k),
                edit,
                template_form(final(modals)@, k),
            )
            &&& template_replaced(
                old(modals)@,
                final(modals)@,
                k,
                template_form(final(modals)@, k),
                edit is Mode,
            )
        },
{
    proof {
        lemma_modal_index(modals@, modal_id);
    }
    let k = match find_modal(modals, modal_id) {
        Some(k) => k,
        None => return ,
    };
    if !matches!(modals[k].content, ModalContent::AttributeTemplate(_)) {
        return ;
    }
    let is_mode = matches!(edit, AttributeTemplateEdit::Mode(_));
    let mut open = modals.remove(k);
    match &mut open.content {
        ModalContent::AttributeTemplate(m) => {
            apply_attribute_template_edit(m, edit);
            if is_mode {
                open.title = attribute_template_modal_title(m.mode).to_owned();
            }
        },
        _ => {},
    }
    modals.insert(k, open);
}

/// Switches the mode of an attribute-template modal, closing its popovers.
/// Returns whether the name field must take the focus.
pub fn set_attribute_template_mode(
    modals: &mut Vec<OpenModal>,
    modal_id: u32,
    mode: SecurityModalMode,
) -> (r: bool)
    ensures
        r == (mode == SecurityModalMode::Edit),
        template_modal_index(old(modals)@, modal_id) < 0 ==> final(modals)@ == old(modals)@,
        template_modal_index(old(modals)@, modal_id) >= 0 ==> {
            let k = template_modal_index(old(modals)@, modal_id);
            template_replaced(
                old(modals)@,
                final(modals)@,
                k,
                attribute_template_closed(
                    AttributeTemplateModal { mode, ..template_form(old(modals)@, k) },
                ),
                true,
            )
        },
{
    edit_attribute_template_modal(modals, modal_id, AttributeTemplateEdit::Mode(mode));
    mode == SecurityModalMode::Edit
}

/// A request about attribute templates.
#[derive(Clone, Debug)]
pub enum AttributeTemplateRequest {
    /// Creates (no id) or updates a template.
    Save { id: Option<String>, session_key: String, body: String },
    Delete { id: String, session_key: String },
}

/// Holds of an open modal that shows the attribute template `target`
/// (`None`: a new one).
pub open spec fn shows_template(target: Option<Seq<char>>) -> spec_fn(OpenModal) -> bool {
    |m: OpenModal| m.content is AttributeTemplate && opt_view(m.content->AttributeTemplate_0.id)
        == target
}

/// The form of a new attribute-template modal.
pub open spec fn new_template_form(
    session_key: String,
    access_levels: Seq<AccessLevel>,
    owner_users: Seq<User>,
    template: Option<AttributeTemplate>,
    can_assign_owner: bool,
    can_edit: bool,
    m: AttributeTemplateModal,
) -> bool {
    &&& m.access_levels@ == access_levels
    &&& m.owner_users@ == owner_users
    &&& m.session_key == session_key
    &&& m.can_assign_owner == can_assign_owner
    &&& m.error is None
    &&& !m.is_access_level_menu_open
    &&& !m.is_delete_confirm_open
    &&& !m.is_info_open
    &&& !m.is_ownership_open
    &&& !m.is_saving
    &&& !m.is_value_type_menu_open
    &&& match template {
        Some(t) => {
            &&& m.access_level_id == t.access_level_id
            &&& m.can_edit == can_edit
            &&& m.default_value@ == (match t.default_value {
                Some(d) => d@,
                None => Seq::<char>::empty(),
            })
            &&& m.description == t.description
            &&& m.id == Some(t.id)
            &&& m.is_required == t.is_required
            &&& m.mode == SecurityModalMode::Details
            &&& m.name == t.name
            &&& m.owner_user_id == Some(t.owner_user_id)
            &&& m.owner_username == t.owner_username
            &&& m.value_type == t.value_type
        },
        None => {
            &&& m.access_level_id == (if access_levels.len() > 0 {
                access_levels[0].id
            } else {
                4
            })
            &&& m.can_edit
            &&& m.default_value@ == Seq::<char>::empty()
            &&& m.description@ == Seq::<char>::empty()
            &&& m.id is None
            &&& !m.is_required
            &&& m.mode == SecurityModalMode::Create
            &&& m.name@ == Seq::<char>::empty()
            &&& m.owner_user_id is None
            &&& m.owner_username is None
            &&& m.value_type@ == "text"@
        },
    }
}

/// Opens the modal of an attribute template, or of a new one. When such a
/// modal is open already it is brought to the front instead. Returns the
/// modal's id.
pub fn open_attribute_template_modal(
    modals: &mut Vec<OpenModal>,
    next_modal_id: &mut u32,
    session_key: String,
    access_levels: Vec<AccessLevel>,
    owner_users: Vec<User>,
    attribute_template: Option<AttributeTemplate>,
    can_assign_owner: bool,
    can_edit: bool,
) -> (r: u32)
    requires
        highest(old(modals)@) < u32::MAX,
        *old(next_modal_id) < u32::MAX,
    ensures
        ({
            let k = first_where(
                old(modals)@,
                shows_template(
                    match attribute_template {
                        Some(t) => Some(t.id@),
                        None => None,
                    },
                ),
            );
            &&& k >= 0 ==> {
                &&& r == old(modals)@[k].id
                &&& *final(next_modal_id) == *old(next_modal_id)
                &&& final(modals)@ == old(modals)@.update(
                    k,
                    OpenModal { z_index: (highest(old(modals)@) + 1) as u32, ..old(modals)@[k] },
                )
            }
            &&& k < 0 ==> {
                let n = old(modals)@.len();
                &&& r == *old(next_modal_id)
                &&& *final(next_modal_id) == *old(next_modal_id) + 1
                &&& final(modals)@.len() == n + 1
                &&& final(modals)@.take(n as int) == old(modals)@
                &&& final(modals)@[n as int].id == r
                &&& final(modals)@[n as int].z_index == highest(old(modals)@) + 1
                &&& final(modals)@[n as int].content is AttributeTemplate
                &&& new_template_form(
                    session_key,
                    access_levels@,
                    owner_users@,
                    attribute_template,
                    can_assign_owner,
                    can_edit,
                    final(modals)@[n as int].content->AttributeTemplate_0,
                )
                &&& final(modals)@[n as int].title@ == attribute_template_title(
                    final(modals)@[n as int].content->AttributeTemplate_0.mode,
                )
            }
        }),
{
    let target: Option<String> = match &attribute_template {
        Some(t) => Some(t.id.clone()),
        None => None,
    };
    let ghost t = match &attribute_template {
        Some(t) => Some(t.id@),
        None => None,
    };
    let ghost p = shows_template(t);
    let z_index = next_modal_z_index(modals);
    let mut i: usize = 0;
    while i < modals.len()
        invariant
            i <= modals@.len(),
            modals@ == old(modals)@,
            p == shows_template(t),
            opt_view(target) == t,
            t == match attribute_template {
                Some(t) => Some(t.id@),
                None => None,
            },
            z_index == highest(old(modals)@) + 1,
            first_where(modals@.take(i as int), p) == -1,
        decreases modals@.len() - i,
    {
        assert(modals@.take(i as int + 1).drop_last() =~= modals@.take(i as int));
        let hit = match &modals[i].content {
            ModalContent::AttributeTemplate(m) => match (&m.id, &target) {
                (Some(a), Some(b)) => str_eq(a.as_str(), b.as_str()),
                (None, None) => true,
                _ => false,
            },
            _ => false,
        };
        if hit {
            proof {
                assert(p(modals@[i as int]));
                assert(modals@.take(i as int + 1).last() == modals@[i as int]);
                lemma_first_where_prefix(modals@, p, i as int, modals@.len() as int);
                assert(modals@.take(modals@.len() as int) =~= modals@);
            }
            let mut open = modals.remove(i);
            let id = open.id;
            open.z_index = z_index;
            modals.insert(i, open);
            return id;
        }
        i = i + 1;
    }
    assert(modals@.take(i as int) =~= modals@);
    let id = *next_modal_id;
    let fallback_access_level_id = if access_levels.len() > 0 {
        access_levels[0].id
    } else {
        4
    };
    let content = match attribute_template {
        Some(t) => AttributeTemplateModal {
            access_level_id: t.access_level_id,
            access_levels,
            can_assign_owner,
            can_edit,
            default_value: match t.default_value {
                Some(d) => d,
                None => String::new(),
            },
            description: t.description,
            error: None,
            id: Some(t.id),
            is_access_level_menu_open: false,
            is_delete_confirm_open: false,
            is_info_open: false,
            is_ownership_open: false,
            is_required: t.is_required,
            is_saving: false,
            is_value_type_menu_open: false,
            mode: SecurityModalMode::Details,
            name: t.name,
            owner_user_id: Some(t.owner_user_id),
            owner_username: t.owner_username,
            owner_users,
            session_key,
            value_type: t.value_type,
        },
        None => AttributeTemplateModal {
            access_level_id: fallback_access_level_id,
            access_levels,
            can_assign_owner,
            can_edit: true,
            default_value: String::new(),
            description: String::new(),
            error: None,
            id: None,
            is_access_level_menu_open: false,
            is_delete_confirm_open: false,
            is_info_open: false,
            is_ownership_open: false,
            is_required: false,
            is_saving: false,
            is_value_type_menu_open: false,
            mode: SecurityModalMode::Create,
            name: String::new(),
            owner_user_id: None,
            owner_username: None,
            owner_users,
            session_key,
            value_type: "text".to_owned(),
        },
    };
    let title = attribute_template_modal_title(content.mode).to_owned();
    *next_modal_id = id + 1;
    let n = modals.len();
    modals.push(OpenModal { content: ModalContent::AttributeTemplate(content), id, title, z_index });
    assert(modals@.take(n as int) =~= old(modals)@);
    id
}

/// The body saved for an attribute-template form: trimmed texts, the
/// chosen owner.
pub open spec fn template_save_body(m: AttributeTemplateModal) -> Seq<char> {
    attribute_template_json(
        trim(m.name@),
        trim(m.description@),
        m.value_type@,
        m.access_level_id,
        trim(m.default_value@),
        m.is_required,
        opt_view(m.owner_user_id),
    )
}

/// Saves the attribute-template form: the trimmed name must not be empty.
/// The form then shows that it is saving, and the request is returned.
pub fn save_attribute_template_modal(modals: &mut Vec<OpenModal>, modal_id: u32) -> (r: Option<
    AttributeTemplateRequest,
>)
    ensures
        ({
            let k = template_modal_index(old(modals)@, modal_id);
            &&& k < 0 ==> final(modals)@ == old(modals)@ && r is None
            &&& k >= 0 ==> {
                let m = template_form(old(modals)@, k);
                &&& trim(m.name@).len() == 0 ==> {
                    &&& r is None
                    &&& exists|e: String|
                        e@ == "Name is required"@ && template_replaced(
                            old(modals)@,
                            final(modals)@,
                            k,
                            AttributeTemplateModal { is_saving: false, error: Some(e), ..m },
                            false,
                        )
                }
                &&& trim(m.name@).len() > 0 ==> {
                    &&& template_replaced(
                        old(modals)@,
                        final(modals)@,
                        k,
                        AttributeTemplateModal { is_saving: true, error: None, ..m },
                        false,
                    )
                    &&& r matches Some(AttributeTemplateRequest::Save { id, session_key, body })
                        && id == m.id && session_key == m.session_key && body@ == template_save_body(
                        m,
                    )
                }
            }
        }),
{
    proof {
        lemma_modal_index(modals@, modal_id);
    }
    let k = match find_modal(modals, modal_id) {
        Some(k) => k,
        None => return None,
    };
    let (name, request) = match &modals[k].content {
        ModalContent::AttributeTemplate(m) => {
            let name = to_string(&trim_str(m.name.as_str()));
            let description = to_string(&trim_str(m.description.as_str()));
            let default_value = to_string(&trim_str(m.default_value.as_str()));
            let owner: Option<&str> = match &m.owner_user_id {
                Some(o) => Some(o.as_str()),
                None => None,
            };
            let body = attribute_template_body(
                name.as_str(),
                description.as_str(),
                m.value_type.as_str(),
                m.access_level_id,
                default_value.as_str(),
                m.is_required,
                owner,
            );
            let id = match &m.id {
                Some(i) => Some(i.clone()),
                None => None,
            };
            (name, AttributeTemplateRequest::Save { id, session_key: m.session_key.clone(), body })
        },
        _ => return None,
    };
    if name.as_str().is_empty() {
        let error = "Name is required".to_owned();
        let ghost e = error;
        edit_attribute_template_modal(
            modals,
            modal_id,
            AttributeTemplateEdit::Status(false, Some(error)),
        );
        assert(template_replaced(
            old(modals)@,
            modals@,
            k as int,
            AttributeTemplateModal {
                is_saving: false,
                error: Some(e),
                ..template_form(old(modals)@, k as int)
            },
            false,
        ));
        return None;
    }
    edit_attribute_template_modal(modals, modal_id, AttributeTemplateEdit::Status(true, None));
    Some(request)
}

/// A template's name, compared without regard to ASCII case.
pub open spec fn caseless_name() -> spec_fn(AttributeTemplate) -> Caseless {
    |t: AttributeTemplate| Caseless { text: t.name }
}

/// The saved template in place of any with its id.
pub open spec fn replaced_by(saved: AttributeTemplate) -> spec_fn(AttributeTemplate) -> AttributeTemplate {
    |t: AttributeTemplate| if t.id@ == saved.id@ {
        saved
    } else {
        t
    }
}

/// The attribute templates after one was saved: an update replaces every
/// template with its id, a creation adds it; then the list is ordered by
/// name without regard to ASCII case (a stable sort).
pub open spec fn templates_after_save(
    templates: Seq<AttributeTemplate>,
    saved: AttributeTemplate,
    was_update: bool,
) -> Seq<AttributeTemplate> {
    let changed = if was_update {
        templates.map_values(replaced_by(saved))
    } else {
        templates.push(saved)
    };
    sorted_by(changed, caseless_name())
}

/// The server answered a save: on success the list takes the saved
/// template, is reordered by name, and the modal closes; on failure the
/// form shows the message.
pub fn attribute_template_saved(
    modals: &mut Vec<OpenModal>,
    modal_id: u32,
    attribute_templates: &mut Vec<AttributeTemplate>,
    was_update: bool,
    outcome: Result<AttributeTemplate, String>,
)
    ensures
        outcome matches Ok(saved) ==> {
            &&& final(attribute_templates)@ == templates_after_save(
                old(attribute_templates)@,
                saved,
                was_update,
            )
            &&& final(modals)@ == old(modals)@.filter(other_modal(modal_id))
        },
        outcome matches Err(message) ==> {
            let k = template_modal_index(old(modals)@, modal_id);
            &&& final(attribute_templates)@ == old(attribute_templates)@
            &&& k < 0 ==> final(modals)@ == old(modals)@
            &&& k >= 0 ==> template_replaced(
                old(modals)@,
                final(modals)@,
                k,
                AttributeTemplateModal {
                    is_saving: false,
                    error: Some(message),
                    ..template_form(old(modals)@, k)
                },
                false,
            )
        },
{
    match outcome {
        Ok(saved) => {
            let ghost start = attribute_templates@;
            let ghost changed = if was_update {
                start.map_values(replaced_by(saved))
            } else {
                start.push(saved)
            };
            if was_update {
                let mut i: usize = 0;
                while i < attribute_templates.len()
                    invariant
                        i <= attribute_templates@.len(),
                        attribute_templates@.len() == start.len(),
                        forall|j: int|
                            0 <= j < start.len() ==> #[trigger] attribute_templates@[j] == (if j < i
                                && start[j].id@ == saved.id@ {
                                saved
                            } else {
                                start[j]
                            }),
                    decreases attribute_templates@.len() - i,
                {
                    if str_eq(attribute_templates[i].id.as_str(), saved.id.as_str()) {
                        let copy = saved.duplicate();
                        attribute_templates.set(i, copy);
                    }
                    i = i + 1;
                }
            } else {
                attribute_templates.push(saved);
            }
            assert(attribute_templates@ =~= changed);
            let mut keys: Vec<Caseless> = Vec::new();
            let mut i: usize = 0;
            while i < attribute_templates.len()
                invariant
                    i <= attribute_templates@.len(),
                    keys@ == attribute_templates@.take(i as int).map_values(caseless_name()),
                decreases attribute_templates@.len() - i,
            {
                keys.push(Caseless { text: attribute_templates[i].name.clone() });
                assert(attribute_templates@.take(i as int + 1).map_values(caseless_name())
                    =~= attribute_templates@.take(i as int).map_values(caseless_name()).push(
                    Caseless { text: attribute_templates@[i as int].name },
                ));
                i = i + 1;
            }
            assert(attribute_templates@.take(i as int) =~= attribute_templates@);
            let sorted = sort_items(attribute_templates, &keys, Ghost(caseless_name()));
            *attribute_templates = sorted;
            close_modal(modals, modal_id);
        },
        Err(message) => {
            edit_attribute_template_modal(
                modals,
                modal_id,
                AttributeTemplateEdit::Status(false, Some(message)),
            );
        },
    }
}

/// Deletes the attribute template of the modal, when it exists: the form
/// shows that it is working and the delete request is returned.
pub fn delete_attribute_template_modal(modals: &mut Vec<OpenModal>, modal_id: u32) -> (r: Option<
    AttributeTemplateRequest,
>)
    ensures
        ({
            let k = template_modal_index(old(modals)@, modal_id);
            &&& (k < 0 || template_form(old(modals)@, k).id is None) ==> final(modals)@ == old(
                modals,
            )@ && r is None
            &&& (k >= 0 && template_form(old(modals)@, k).id is Some) ==> {
                let m = template_form(old(modals)@, k);
                &&& template_replaced(
                    old(modals)@,
                    final(modals)@,
                    k,
                    AttributeTemplateModal { is_saving: true, error: None, ..m },
                    false,
                )
                &&& r matches Some(AttributeTemplateRequest::Delete { id, session_key }) && id
                    == m.id->0 && session_key == m.session_key
            }
        }),
{
    proof {
        lemma_modal_index(modals@, modal_id);
    }
    let k = match find_modal(modals, modal_id) {
        Some(k) => k,
        None => return None,
    };
    let request = match &modals[k].content {
        ModalContent::AttributeTemplate(m) => match &m.id {
            Some(id) => AttributeTemplateRequest::Delete {
                id: id.clone(),
                session_key: m.session_key.clone(),
            },
            None => return None,
        },
        _ => return None,
    };
    edit_attribute_template_modal(modals, modal_id, AttributeTemplateEdit::Status(true, None));
    Some(request)
}

/// Holds of the attribute templates whose id is not `id`.
pub open spec fn other_template(id: Seq<char>) -> spec_fn(AttributeTemplate) -> bool {
    |t: AttributeTemplate| t.id@ != id
}

/// The server answered a delete: on success the template leaves the list
/// and the modal closes; on failure the form shows the message.
pub fn attribute_template_deleted(
    modals: &mut Vec<OpenModal>,
    modal_id: u32,
    attribute_templates: &mut Vec<AttributeTemplate>,
    template_id: &str,
    outcome: Result<(), String>,
)
    ensures
        outcome is Ok ==> {
            &&& final(attribute_templates)@ == old(attribute_templates)@.filter(
                other_template(template_id@),
            )
            &&& final(modals)@ == old(modals)@.filter(other_modal(modal_id))
        },
        outcome matches Err(message) ==> {
            let k = template_modal_index(old(modals)@, modal_id);
            &&& final(attribute_templates)@ == old(attribute_templates)@
            &&& k < 0 ==> final(modals)@ == old(modals)@
            &&& k >= 0 ==> template_replaced(
                old(modals)@,
                final(modals)@,
                k,
                AttributeTemplateModal {
                    is_saving: false,
                    error: Some(message),
                    ..template_form(old(modals)@, k)
                },
                false,
            )
        },
{
    match outcome {
        Ok(()) => {
            let ghost start = attribute_templates@;
            let mut kept: Vec<AttributeTemplate> = Vec::new();
            let mut i: usize = 0;
            while i < attribute_templates.len()
                invariant
                    i <= attribute_templates@.len(),
                    attribute_templates@ == start,
                    start == old(attribute_templates)@,
                    kept@ == start.take(i as int).filter(other_template(template_id@)),
                decreases attribute_templates@.len() - i,
            {
                assert(start.take(i as int + 1).drop_last() =~= start.take(i as int));
                reveal_with_fuel(Seq::filter, 1);
                if !str_eq(attribute_templates[i].id.as_str(), template_id) {
                    kept.push(attribute_templates[i].duplicate());
                }
                i = i + 1;
            }
            assert(start.take(i as int) =~= start);
            *attribute_templates = kept;
            close_modal(modals, modal_id);
        },
        Err(message) => {
            edit_attribute_template_modal(
                modals,
                modal_id,
                AttributeTemplateEdit::Status(false, Some(message)),
            );
        },
    }
}

} // verus!
