//! Behaviour of the security and template modals that does not depend on
//! the screen: titles, popovers, validity and option lists.

use vstd::prelude::*;

use crate::json::comma_joined;
use crate::permissions::{find_level, level_index};
use crate::text::{byte_len, push_str, str_byte_len, to_string, trim, trim_str};
use crate::text_std::{chars_of, str_eq};
use crate::types::{
    AccessLevel, AccessLevelModal, ApiErrorPayload, ApiErrorValue, AttributeTemplateModal, EntityTemplateModal, ModalContent,
    Permission, SecurityModalMode, User, UserModal,
};

verus! {

/// Title of the access-level modal in each mode.
pub open spec fn access_level_title(mode: SecurityModalMode) -> Seq<char> {
    match mode {
        SecurityModalMode::Create => "Access Level :: New"@,
        SecurityModalMode::Details => "Access Level"@,
        SecurityModalMode::Edit => "Access Level :: Edit"@,
    }
}

pub fn access_level_modal_title(mode: SecurityModalMode) -> (r: &'static str)
    ensures
        r@ == access_level_title(mode),
{
    match mode {
        SecurityModalMode::Create => "Access Level :: New",
        SecurityModalMode::Details => "Access Level",
        SecurityModalMode::Edit => "Access Level :: Edit",
    }
}

/// Title of the attribute-template modal in each mode.
pub open spec fn attribute_template_title(mode: SecurityModalMode) -> Seq<char> {
    match mode {
        SecurityModalMode::Create => "Attribute Template :: New"@,
        SecurityModalMode::Details => "Attribute Template"@,
        SecurityModalMode::Edit => "Attribute Template :: Edit"@,
    }
}

pub fn attribute_template_modal_title(mode: SecurityModalMode) -> (r: &'static str)
    ensures
        r@ == attribute_template_title(mode),
{
    match mode {
        SecurityModalMode::Create => "Attribute Template :: New",
        SecurityModalMode::Details => "Attribute Template",
        SecurityModalMode::Edit => "Attribute Template :: Edit",
    }
}

/// Title of the user modal in each mode.
pub open spec fn user_title(mode: SecurityModalMode) -> Seq<char> {
    match mode {
        SecurityModalMode::Create => "User :: New"@,
        SecurityModalMode::Details => "User"@,
        SecurityModalMode::Edit => "User :: Edit"@,
    }
}

pub fn user_modal_title(mode: SecurityModalMode) -> (r: &'static str)
    ensures
        r@ == user_title(mode),
{
    match mode {
        SecurityModalMode::Create => "User :: New",
        SecurityModalMode::Details => "User",
        SecurityModalMode::Edit => "User :: Edit",
    }
}

/// The first four access levels come with the system and cannot be
/// changed or deleted.
pub fn is_built_in_access_level(access_level: &AccessLevelModal) -> (r: bool)
    ensures
        r == (access_level.id matches Some(id) && id <= 4),
{
    match access_level.id {
        Some(id) => id <= 4,
        None => false,
    }
}

/// The access-level modal with its popovers closed.
pub open spec fn access_level_closed(m: AccessLevelModal) -> AccessLevelModal {
    AccessLevelModal { is_delete_confirm_open: false, is_info_open: false, ..m }
}

/// The user modal with its popovers closed.
pub open spec fn user_closed(m: UserModal) -> UserModal {
    UserModal { is_delete_confirm_open: false, is_info_open: false, ..m }
}

/// The attribute-template modal with its popovers and menus closed.
pub open spec fn attribute_template_closed(m: AttributeTemplateModal) -> AttributeTemplateModal {
    AttributeTemplateModal {
        is_delete_confirm_open: false,
        is_info_open: false,
        is_ownership_open: false,
        is_access_level_menu_open: false,
        is_value_type_menu_open: false,
        ..m
    }
}

/// The entity-template modal with its popovers and menus closed.
pub open spec fn entity_template_closed(m: EntityTemplateModal) -> EntityTemplateModal {
    EntityTemplateModal {
        is_attribute_popover_open: false,
        is_attribute_template_menu_open: false,
        is_delete_confirm_open: false,
        is_info_open: false,
        is_listing_attribute_menu_open: false,
        is_new_attribute_value_type_menu_open: false,
        is_ownership_open: false,
        open_attribute_access_level_menu_id: None,
        open_attribute_value_type_menu_id: None,
        open_link_target_menu_id: None,
        ..m
    }
}

/// A modal's content with its popovers and menus closed.
pub open spec fn without_popovers(c: ModalContent) -> ModalContent {
    match c {
        ModalContent::AccessLevel(m) => ModalContent::AccessLevel(access_level_closed(m)),
        ModalContent::AttributeTemplate(m) => ModalContent::AttributeTemplate(
            attribute_template_closed(m),
        ),
        ModalContent::EntityTemplate(m) => ModalContent::EntityTemplate(entity_template_closed(m)),
        ModalContent::Generic => ModalContent::Generic,
        ModalContent::User(m) => ModalContent::User(user_closed(m)),
    }
}

/// Closes the popovers and menus of whatever the modal shows.
pub fn close_popovers_of(content: &mut ModalContent)
    ensures
        *final(content) == without_popovers(*old(content)),
{
    match content {
        ModalContent::AccessLevel(m) => m.close_popovers(),
        ModalContent::AttributeTemplate(m) => m.close_popovers(),
        ModalContent::EntityTemplate(m) => m.close_popovers(),
        ModalContent::Generic => {},
        ModalContent::User(m) => m.close_popovers(),
    }
}

impl AccessLevelModal {
    /// Closes the delete confirmation and the id popover.
    pub fn close_popovers(&mut self)
        ensures
            *final(self) == access_level_closed(*old(self)),
    {
        self.is_delete_confirm_open = false;
        self.is_info_open = false;
    }

    /// Shows or hides the id popover; showing it closes the delete confirmation.
    pub fn toggle_info(&mut self)
        ensures
            final(self).is_info_open == !old(self).is_info_open,
            *final(self) == (AccessLevelModal {
                is_info_open: !old(self).is_info_open,
                is_delete_confirm_open: if !old(self).is_info_open {
                    false
                } else {
                    old(self).is_delete_confirm_open
                },
                ..*old(self)
            }),
    {
        self.is_info_open = !self.is_info_open;
        if self.is_info_open {
            self.is_delete_confirm_open = false;
        }
    }

    /// Opens or closes the delete confirmation; opening it closes the id popover.
    pub fn set_delete_confirm(&mut self, is_open: bool)
        ensures
            *final(self) == (AccessLevelModal {
                is_delete_confirm_open: is_open,
                is_info_open: if is_open {
                    false
                } else {
                    old(self).is_info_open
                },
                ..*old(self)
            }),
    {
        self.is_delete_confirm_open = is_open;
        if is_open {
            self.is_info_open = false;
        }
    }

    /// Records the outcome of a save or delete attempt.
    pub fn set_status(&mut self, is_saving: bool, error: Option<String>)
        ensures
            *final(self) == (AccessLevelModal { is_saving, error, ..*old(self) }),
    {
        self.is_saving = is_saving;
        self.error = error;
    }
}

impl UserModal {
    /// Closes the delete confirmation and the id popover.
    pub fn close_popovers(&mut self)
        ensures
            *final(self) == user_closed(*old(self)),
    {
        self.is_delete_confirm_open = false;
        self.is_info_open = false;
    }
}

impl AttributeTemplateModal {
    /// Closes every popover and menu of the modal.
    pub fn close_popovers(&mut self)
        ensures
            *final(self) == attribute_template_closed(*old(self)),
    {
        self.is_delete_confirm_open = false;
        self.is_info_open = false;
        self.is_ownership_open = false;
        self.is_access_level_menu_open = false;
        self.is_value_type_menu_open = false;
    }

    /// Switches mode; every popover and menu closes.
    pub fn set_mode(&mut self, mode: SecurityModalMode)
        ensures
            *final(self) == (AttributeTemplateModal {
                mode,
                is_delete_confirm_open: false,
                is_info_open: false,
                is_ownership_open: false,
                is_access_level_menu_open: false,
                is_value_type_menu_open: false,
                ..*old(self)
            }),
    {
        self.mode = mode;
        self.close_popovers();
    }
}

impl EntityTemplateModal {
    /// Closes every popover and menu of the modal.
    pub fn close_popovers(&mut self)
        ensures
            *final(self) == entity_template_closed(*old(self)),
    {
        self.is_attribute_popover_open = false;
        self.is_attribute_template_menu_open = false;
        self.is_delete_confirm_open = false;
        self.is_info_open = false;
        self.is_listing_attribute_menu_open = false;
        self.is_new_attribute_value_type_menu_open = false;
        self.is_ownership_open = false;
        self.open_attribute_access_level_menu_id = None;
        self.open_attribute_value_type_menu_id = None;
        self.open_link_target_menu_id = None;
    }
}

/// The user form can be saved: names, email and username are not blank, at
/// least one permission is chosen, a new user has a password of at least 8
/// bytes, and a typed password has at least 8 bytes.
pub open spec fn user_is_valid(user: UserModal) -> bool {
    &&& trim(user.email@).len() > 0
    &&& trim(user.first_name@).len() > 0
    &&& trim(user.last_name@).len() > 0
    &&& trim(user.username@).len() > 0
    &&& user.permission_ids@.len() > 0
    &&& (user.mode != SecurityModalMode::Create || byte_len(user.password@) >= 8)
    &&& (user.password@.len() == 0 || byte_len(user.password@) >= 8)
}

pub fn is_user_valid(user: &UserModal) -> (r: bool)
    ensures
        r == user_is_valid(*user),
{
    trim_str(user.email.as_str()).len() > 0 && trim_str(user.first_name.as_str()).len() > 0
        && trim_str(user.last_name.as_str()).len() > 0 && trim_str(user.username.as_str()).len() > 0
        && user.permission_ids.len() > 0 && (user.mode != SecurityModalMode::Create
        || str_byte_len(user.password.as_str()) >= 8) && (user.password.as_str().is_empty()
        || str_byte_len(user.password.as_str()) >= 8)
}

/// The message shown when saving an invalid user form.
pub open spec fn user_error_message(user: UserModal) -> Seq<char> {
    if user.password@.len() > 0 && byte_len(user.password@) < 8 {
        "Password must be at least 8 characters"@
    } else {
        "Required fields must be filled"@
    }
}

pub fn user_validation_message(user: &UserModal) -> (r: &'static str)
    ensures
        r@ == user_error_message(*user),
{
    if !user.password.as_str().is_empty() && str_byte_len(user.password.as_str()) < 8 {
        "Password must be at least 8 characters"
    } else {
        "Required fields must be filled"
    }
}

/// Holds of every id but `id`.
pub open spec fn other_than(id: u32) -> spec_fn(u32) -> bool {
    |x: u32| x != id
}

/// `ids` with `id` removed when present, else with `id` added at the end.
pub open spec fn toggled_ids(ids: Seq<u32>, id: u32) -> Seq<u32> {
    if ids.contains(id) {
        ids.filter(other_than(id))
    } else {
        ids.push(id)
    }
}

pub fn toggle_id(ids: &mut Vec<u32>, id: u32)
    ensures
        final(ids)@ == toggled_ids(old(ids)@, id),
{
    let found = contains_id(ids, id);
    if found {
        let mut kept: Vec<u32> = Vec::new();
        let mut j: usize = 0;
        while j < ids.len()
            invariant
                j <= ids@.len(),
                ids@ == old(ids)@,
                kept@ == ids@.take(j as int).filter(other_than(id)),
            decreases ids@.len() - j,
        {
            assert(ids@.take(j as int + 1).drop_last() =~= ids@.take(j as int));
            reveal_with_fuel(Seq::filter, 1);
            if ids[j] != id {
                kept.push(ids[j]);
            }
            j = j + 1;
        }
        assert(ids@.take(j as int) =~= ids@);
        *ids = kept;
    } else {
        ids.push(id);
    }
}

/// Items with an id and a name, listed in pickers.
pub trait NamedItem {
    spec fn spec_id(&self) -> u32;

    spec fn spec_name(&self) -> Seq<char>;

    fn item_id(&self) -> (r: u32)
        ensures
            r == self.spec_id(),
    ;

    fn item_name(&self) -> (r: &str)
        ensures
            r@ == self.spec_name(),
    ;
}

impl NamedItem for AccessLevel {
    open spec fn spec_id(&self) -> u32 {
        self.id
    }

    open spec fn spec_name(&self) -> Seq<char> {
        self.name@
    }

    fn item_id(&self) -> (r: u32) {
        self.id
    }

    fn item_name(&self) -> (r: &str) {
        self.name.as_str()
    }
}

impl NamedItem for Permission {
    open spec fn spec_id(&self) -> u32 {
        self.id
    }

    open spec fn spec_name(&self) -> Seq<char> {
        self.name@
    }

    fn item_id(&self) -> (r: u32) {
        self.id
    }

    fn item_name(&self) -> (r: &str) {
        self.name.as_str()
    }
}

/// The parts separated by `, `.
pub open spec fn list_joined(parts: Seq<Seq<char>>) -> Seq<char>
    decreases parts.len(),
{
    if parts.len() == 0 {
        seq![]
    } else if parts.len() == 1 {
        parts[0]
    } else {
        list_joined(parts.drop_last()) + seq![',', ' '] + parts.last()
    }
}

/// The names of the items whose id is among `ids`, in item order.
pub open spec fn names_of<T: NamedItem>(ids: Seq<u32>, items: Seq<T>) -> Seq<Seq<char>> {
    items.filter(|x: T| ids.contains(x.spec_id())).map_values(|x: T| x.spec_name())
}

fn push_list_part(out: &mut Vec<char>, count: usize, part: &str)
    ensures
        final(out)@ == old(out)@ + (if count == 0 {
            part@
        } else {
            seq![',', ' '] + part@
        }),
{
    if count > 0 {
        out.push(',');
        out.push(' ');
    }
    let ghost mid = out@;
    push_str(out, part);
    assert(out@ =~= old(out)@ + (if count == 0 {
        part@
    } else {
        seq![',', ' '] + part@
    }));
}

fn contains_id(ids: &Vec<u32>, id: u32) -> (r: bool)
    ensures
        r == ids@.contains(id),
{
    let mut i: usize = 0;
    while i < ids.len()
        invariant
            i <= ids@.len(),
            forall|k: int| 0 <= k < i ==> ids@[k] != id,
        decreases ids@.len() - i,
    {
        if ids[i] == id {
            assert(ids@[i as int] == id);
            return true;
        }
        i = i + 1;
    }
    false
}

/// The names of the chosen items, separated by `, ` (a picker's summary).
pub fn names_from_ids<T: NamedItem>(ids: &Vec<u32>, items: &Vec<T>) -> (r: String)
    ensures
        r@ == list_joined(names_of(ids@, items@)),
{
    let ghost pred = |x: T| ids@.contains(x.spec_id());
    let ghost name = |x: T| x.spec_name();
    let mut out: Vec<char> = Vec::new();
    let mut count: usize = 0;
    let mut i: usize = 0;
    while i < items.len()
        invariant
            i <= items@.len(),
            pred == (|x: T| ids@.contains(x.spec_id())),
            name == (|x: T| x.spec_name()),
            count == items@.take(i as int).filter(pred).len(),
            out@ == list_joined(items@.take(i as int).filter(pred).map_values(name)),
        decreases items@.len() - i,
    {
        assert(items@.take(i as int + 1).drop_last() =~= items@.take(i as int));
        reveal_with_fuel(Seq::filter, 1);
        let ghost before = items@.take(i as int).filter(pred);
        if contains_id(ids, items[i].item_id()) {
            push_list_part(&mut out, count, items[i].item_name());
            assert(before.push(items@[i as int]).map_values(name) =~= before.map_values(name).push(
                items@[i as int].spec_name(),
            ));
            assert(before.map_values(name).push(items@[i as int].spec_name()).drop_last()
                =~= before.map_values(name));
            count = count + 1;
        }
        i = i + 1;
    }
    assert(items@.take(i as int) =~= items@);
    to_string(&out)
}

/// The message of a refused request: the one in the server's error body,
/// else the fallback.
pub open spec fn error_text(payload: Option<ApiErrorPayload>, fallback: Seq<char>) -> Seq<char> {
    match payload {
        Some(p) => match p.error {
            ApiErrorValue::Message(m) => m@,
            ApiErrorValue::Details { message } => message@,
        },
        None => fallback,
    }
}

/// Chooses the message of a refused request once its body was read as an
/// error payload (`None` when it was not one).
pub fn api_error_message(payload: Option<ApiErrorPayload>, fallback: &str) -> (r: String)
    ensures
        r@ == error_text(payload, fallback@),
{
    match payload {
        Some(p) => match p.error {
            ApiErrorValue::Message(m) => m,
            ApiErrorValue::Details { message } => message,
        },
        None => fallback.to_owned(),
    }
}

} // verus!
