//! The entity-template modal: opening it, the edits of its titlebar and
//! form, the checks before saving, the save round trip, and including a
//! newly described attribute (saved as an attribute template on request).

use vstd::prelude::*;

use crate::attribute_template_flows::{caseless_name, level_with_id, user_with_id, username_of};
use crate::listing::{first_where, lemma_first_where_prefix, max_listing};
use crate::modals::entity_template_closed;
use crate::requests::{
    entity_template_create_body, entity_template_json, new_attribute_template_body,
    new_attribute_template_json, opt_view,
};
use crate::security_flows::same_except;
use crate::sort::{sort_items, sort_views, sorted_by, Caseless, Duplicate};
use crate::stack::{
    close_modal, find_modal, highest, lemma_modal_index, modal_index, next_modal_z_index,
    other_modal, OpenModal,
};
use crate::template_editor::{add_new_attribute_from_values, new_attribute_added, template_views};
use crate::text::{decimal, to_string, trim, trim_str, u32_to_string};
use crate::text_std::str_eq;
use crate::types::{
    AccessLevel, AttributeTemplate, EntityTemplate, EntityTemplateAttribute,
    EntityTemplateAttributeSourceTab, EntityTemplateLink, EntityTemplateModal, EntityTemplateTab,
    EntityTemplateView, ModalContent, SecurityModalMode, User,
};

verus! {

/// The name of the access level with the given id, else the id.
pub fn access_level_name(access_levels: &Vec<AccessLevel>, access_level_id: u32) -> (r: String)
    ensures
        first_where(access_levels@, level_with_id(access_level_id)) >= 0 ==> r@
            == access_levels@[first_where(access_levels@, level_with_id(access_level_id))].name@,
        first_where(access_levels@, level_with_id(access_level_id)) < 0 ==> r@ == decimal(
            access_level_id as nat,
        ),
{
    crate::attribute_template_flows::access_level_summary(access_levels, access_level_id)
}

/// The access level of a new attribute: the first level, else 4.
pub fn default_attribute_access_level_id(access_levels: &Vec<AccessLevel>) -> (r: u32)
    ensures
        r == (if access_levels@.len() > 0 {
            access_levels@[0].id
        } else {
            4
        }),
{
    if access_levels.len() > 0 {
        access_levels[0].id
    } else {
        4
    }
}

/// Holds of the template with the given id.
pub open spec fn template_with_id(id: Seq<char>) -> spec_fn(EntityTemplate) -> bool {
    |t: EntityTemplate| t.id@ == id
}

fn find_entity_template(templates: &Vec<EntityTemplate>, id: &str) -> (r: Option<usize>)
    ensures
        match r {
            Some(i) => i as int == first_where(templates@, template_with_id(id@)) && i
                < templates@.len(),
            None => first_where(templates@, template_with_id(id@)) == -1,
        },
{
    let ghost p = template_with_id(id@);
    let mut i: usize = 0;
    while i < templates.len()
        invariant
            i <= templates@.len(),
            p == template_with_id(id@),
            first_where(templates@.take(i as int), p) == -1,
        decreases templates@.len() - i,
    {
        assert(templates@.take(i as int + 1).drop_last() =~= templates@.take(i as int));
        if str_eq(templates[i].id.as_str(), id) {
            proof {
                lemma_first_where_prefix(templates@, p, i as int, templates@.len() as int);
                assert(templates@.take(templates@.len() as int) =~= templates@);
            }
            return Some(i);
        }
        i = i + 1;
    }
    assert(templates@.take(i as int) =~= templates@);
    None
}

/// The template a link points to, if the target is known.
pub fn linked_entity_template(
    entity_templates: &Vec<EntityTemplate>,
    target_entity_template_id: Option<&str>,
) -> (r: Option<EntityTemplate>)
    ensures
        match target_entity_template_id {
            Some(target) => {
                let k = first_where(entity_templates@, template_with_id(target@));
                &&& k >= 0 ==> (r matches Some(t) && t@ == entity_templates@[k]@)
                &&& k < 0 ==> r is None
            },
            None => r is None,
        },
{
    match target_entity_template_id {
        Some(target) => match find_entity_template(entity_templates, target) {
            Some(k) => Some(entity_templates[k].duplicate()),
            None => None,
        },
        None => None,
    }
}

/// Who owns an entity template, as shown: the owner's username, else the
/// username of the listed owner, else the owner's id.
pub open spec fn template_owner_text(m: EntityTemplateModal) -> Seq<char> {
    match m.entity_template.owner_username {
        Some(n) => n@,
        None => match username_of(m.owner_users@, m.entity_template.owner_user_id@) {
            Some(n) => n,
            None => m.entity_template.owner_user_id@,
        },
    }
}

pub fn owner_label(entity_template: &EntityTemplateModal) -> (r: String)
    ensures
        r@ == template_owner_text(*entity_template),
{
    match &entity_template.entity_template.owner_username {
        Some(n) => n.clone(),
        None => match crate::attribute_template_flows::owner_username_from_id(
            &entity_template.owner_users,
            entity_template.entity_template.owner_user_id.as_str(),
        ) {
            Some(n) => n,
            None => entity_template.entity_template.owner_user_id.clone(),
        },
    }
}

/// Every included attribute has a name.
pub open spec fn attributes_named(attrs: Seq<EntityTemplateAttribute>) -> bool {
    forall|i: int| 0 <= i < attrs.len() ==> trim((#[trigger] attrs[i]).name@).len() > 0
}

/// Every link has a name and a target (an empty target counts as none when
/// saving).
pub open spec fn links_complete(links: Seq<EntityTemplateLink>, empty_target_counts: bool) -> bool {
    forall|i: int|
        0 <= i < links.len() ==> trim((#[trigger] links[i]).name@).len() > 0 && match links[i].target_entity_template_id {
            Some(t) => empty_target_counts || t@.len() > 0,
            None => false,
        }
}

fn all_attributes_named(attrs: &Vec<EntityTemplateAttribute>) -> (r: bool)
    ensures
        r == attributes_named(attrs@),
{
    let mut i: usize = 0;
    while i < attrs.len()
        invariant
            i <= attrs@.len(),
            forall|k: int| 0 <= k < i ==> trim((#[trigger] attrs@[k]).name@).len() > 0,
        decreases attrs@.len() - i,
    {
        if trim_str(attrs[i].name.as_str()).len() == 0 {
            return false;
        }
        i = i + 1;
    }
    true
}

fn all_links_complete(links: &Vec<EntityTemplateLink>, empty_target_counts: bool) -> (r: bool)
    ensures
        r == links_complete(links@, empty_target_counts),
{
    let mut i: usize = 0;
    while i < links.len()
        invariant
            i <= links@.len(),
            forall|k: int|
                0 <= k < i ==> trim((#[trigger] links@[k]).name@).len() > 0 && match links@[k].target_entity_template_id {
                    Some(t) => empty_target_counts || t@.len() > 0,
                    None => false,
                },
        decreases links@.len() - i,
    {
        let l = &links[i];
        if trim_str(l.name.as_str()).len() == 0 {
            return false;
        }
        match &l.target_entity_template_id {
            Some(t) => {
                if !empty_target_counts && t.as_str().is_empty() {
                    return false;
                }
            },
            None => {
                return false;
            },
        }
        i = i + 1;
    }
    true
}

/// The template may be saved: it is being created or edited and is
/// complete: a name, at least one attribute, a listing attribute, named
/// attributes, and links with names and targets. (The save button's
/// tooltip follows this; the button itself is `is_entity_template_save_enabled`.)
pub open spec fn template_can_save(m: EntityTemplateModal) -> bool {
    &&& m.mode != SecurityModalMode::Details
    &&& trim(m.entity_template.name@).len() > 0
    &&& m.entity_template.attributes@.len() > 0
    &&& m.entity_template.listing_attribute_id@.len() > 0
    &&& attributes_named(m.entity_template.attributes@)
    &&& links_complete(m.entity_template.links@, true)
}

pub fn can_save_entity_template(m: &EntityTemplateModal) -> (r: bool)
    ensures
        r == template_can_save(*m),
{
    m.mode != SecurityModalMode::Details && trim_str(m.entity_template.name.as_str()).len() > 0
        && m.entity_template.attributes.len() > 0
        && !m.entity_template.listing_attribute_id.as_str().is_empty() && all_attributes_named(
        &m.entity_template.attributes,
    ) && all_links_complete(&m.entity_template.links, true)
}

/// The save button is enabled when the template may be saved and no save
/// is under way.
pub fn is_entity_template_save_enabled(m: &EntityTemplateModal) -> (r: bool)
    ensures
        r == (template_can_save(*m) && !m.is_saving),
{
    can_save_entity_template(m) && !m.is_saving
}

/// Why a template cannot be saved, checked in this order; `None` when it
/// can.
pub open spec fn template_save_error(t: EntityTemplate) -> Option<Seq<char>> {
    if trim(t.name@).len() == 0 {
        Some("Name is required"@)
    } else if t.attributes@.len() == 0 {
        Some("Include at least one attribute"@)
    } else if t.listing_attribute_id@.len() == 0 {
        Some("Select a listing attribute"@)
    } else if !attributes_named(t.attributes@) {
        Some("Included attributes must have names"@)
    } else if !links_complete(t.links@, false) {
        Some("Links must have names and targets"@)
    } else {
        None
    }
}

fn template_error_message(t: &EntityTemplate) -> (r: Option<&'static str>)
    ensures
        match r {
            Some(m) => template_save_error(*t) == Some(m@),
            None => template_save_error(*t) is None,
        },
{
    if trim_str(t.name.as_str()).len() == 0 {
        Some("Name is required")
    } else if t.attributes.len() == 0 {
        Some("Include at least one attribute")
    } else if t.listing_attribute_id.as_str().is_empty() {
        Some("Select a listing attribute")
    } else if !all_attributes_named(&t.attributes) {
        Some("Included attributes must have names")
    } else if !all_links_complete(&t.links, false) {
        Some("Links must have names and targets")
    } else {
        None
    }
}

/// An edit of the entity-template modal.
#[derive(Clone, Debug)]
pub enum EntityTemplateEdit {
    ToggleInfo,
    OpenDeleteConfirm,
    CancelDeleteConfirm,
    ToggleOwnership,
    /// The ownership popover chose a new owner.
    Owner(String),
    Name(String),
    Description(String),
    Tab(EntityTemplateTab),
    ToggleListingMenu,
    ListingAttribute(String),
    ToggleAttributePopover,
    SourceTab(EntityTemplateAttributeSourceTab),
    NewAttributeName(String),
    NewAttributeDescription(String),
    NewAttributeValueType(String),
    SaveAsTemplate(bool),
    Status(bool, Option<String>),
}

/// `r` is the entity-template form `m` after the edit `e`.
pub open spec fn entity_template_edited(
    m: EntityTemplateModal,
    e: EntityTemplateEdit,
    r: EntityTemplateModal,
) -> bool {
    match e {
        EntityTemplateEdit::ToggleInfo => r == EntityTemplateModal {
            is_info_open: !m.is_info_open,
            is_attribute_popover_open: false,
            is_attribute_template_menu_open: false,
            is_delete_confirm_open: false,
            is_ownership_open: false,
            ..m
        },
        EntityTemplateEdit::OpenDeleteConfirm => r == EntityTemplateModal {
            is_delete_confirm_open: true,
            is_attribute_popover_open: false,
            is_attribute_template_menu_open: false,
            is_info_open: false,
            is_ownership_open: false,
            ..m
        },
        EntityTemplateEdit::CancelDeleteConfirm => r == EntityTemplateModal {
            is_delete_confirm_open: false,
            ..m
        },
        EntityTemplateEdit::ToggleOwnership => r == EntityTemplateModal {
            is_ownership_open: !m.is_ownership_open,
            is_attribute_popover_open: false,
            is_attribute_template_menu_open: false,
            is_info_open: false,
            is_delete_confirm_open: false,
            ..m
        },
        EntityTemplateEdit::Owner(id) => {
            &&& r == EntityTemplateModal {
                entity_template: EntityTemplate {
                    owner_user_id: id,
                    owner_username: r.entity_template.owner_username,
                    ..m.entity_template
                },
                ..m
            }
            &&& opt_view(r.entity_template.owner_username) == username_of(m.owner_users@, id@)
        },
        EntityTemplateEdit::Name(v) => r == EntityTemplateModal {
            entity_template: EntityTemplate { name: v, ..m.entity_template },
            ..m
        },
        EntityTemplateEdit::Description(v) => r == EntityTemplateModal {
            entity_template: EntityTemplate { description: v, ..m.entity_template },
            ..m
        },
        EntityTemplateEdit::Tab(tab) => r == EntityTemplateModal { active_tab: tab, ..m },
        EntityTemplateEdit::ToggleListingMenu => if m.mode != SecurityModalMode::Details {
            r == EntityTemplateModal {
                is_listing_attribute_menu_open: !m.is_listing_attribute_menu_open,
                is_attribute_popover_open: false,
                is_attribute_template_menu_open: false,
                open_attribute_access_level_menu_id: None,
                open_attribute_value_type_menu_id: None,
                ..m
            }
        } else {
            r == m
        },
        EntityTemplateEdit::ListingAttribute(id) => r == EntityTemplateModal {
            entity_template: EntityTemplate { listing_attribute_id: id, ..m.entity_template },
            is_listing_attribute_menu_open: false,
            ..m
        },
        EntityTemplateEdit::ToggleAttributePopover => {
            &&& r == EntityTemplateModal {
                is_attribute_popover_open: !m.is_attribute_popover_open,
                is_attribute_template_menu_open: false,
                is_listing_attribute_menu_open: false,
                is_info_open: false,
                is_delete_confirm_open: false,
                is_ownership_open: false,
                selected_attribute_template_id: r.selected_attribute_template_id,
                ..m
            }
            &&& m.selected_attribute_template_id is Some ==> r.selected_attribute_template_id
                == m.selected_attribute_template_id
            &&& m.selected_attribute_template_id is None ==> opt_view(
                r.selected_attribute_template_id,
            ) == (if m.attribute_templates@.len() > 0 {
                Some(m.attribute_templates@[0].id@)
            } else {
                None
            })
        },
        EntityTemplateEdit::SourceTab(tab) => r == EntityTemplateModal {
            attribute_source_tab: tab,
            is_attribute_template_menu_open: false,
            is_new_attribute_value_type_menu_open: false,
            ..m
        },
        EntityTemplateEdit::NewAttributeName(v) => r == EntityTemplateModal {
            new_attribute_name: v,
            ..m
        },
        EntityTemplateEdit::NewAttributeDescription(v) => r == EntityTemplateModal {
            new_attribute_description: v,
            ..m
        },
        EntityTemplateEdit::NewAttributeValueType(v) => r == EntityTemplateModal {
            new_attribute_value_type: v,
            is_new_attribute_value_type_menu_open: false,
            ..m
        },
        EntityTemplateEdit::SaveAsTemplate(v) => r == EntityTemplateModal {
            new_attribute_save_as_template: v,
            ..m
        },
        EntityTemplateEdit::Status(is_saving, error) => r == EntityTemplateModal {
            is_saving,
            error,
            ..m
        },
    }
}

fn et_toggle_info(m: &mut EntityTemplateModal)
    ensures
        entity_template_edited(*old(m), EntityTemplateEdit::ToggleInfo, *final(m)),
{
    m.is_info_open = !m.is_info_open;
    m.is_attribute_popover_open = false;
    m.is_attribute_template_menu_open = false;
    m.is_delete_confirm_open = false;
    m.is_ownership_open = false;
}

fn et_open_delete(m: &mut EntityTemplateModal)
    ensures
        entity_template_edited(*old(m), EntityTemplateEdit::OpenDeleteConfirm, *final(m)),
{
    m.is_delete_confirm_open = true;
    m.is_attribute_popover_open = false;
    m.is_attribute_template_menu_open = false;
    m.is_info_open = false;
    m.is_ownership_open = false;
}

fn et_toggle_ownership(m: &mut EntityTemplateModal)
    ensures
        entity_template_edited(*old(m), EntityTemplateEdit::ToggleOwnership, *final(m)),
{
    m.is_ownership_open = !m.is_ownership_open;
    m.is_attribute_popover_open = false;
    m.is_attribute_template_menu_open = false;
    m.is_info_open = false;
    m.is_delete_confirm_open = false;
}

fn et_owner(m: &mut EntityTemplateModal, id: String)
    ensures
        entity_template_edited(*old(m), EntityTemplateEdit::Owner(id), *final(m)),
{
    let username = crate::attribute_template_flows::owner_username_from_id(
        &m.owner_users,
        id.as_str(),
    );
    m.entity_template.owner_username = username;
    m.entity_template.owner_user_id = id;
}

fn et_toggle_listing(m: &mut EntityTemplateModal)
    ensures
        entity_template_edited(*old(m), EntityTemplateEdit::ToggleListingMenu, *final(m)),
{
    if m.mode != SecurityModalMode::Details {
        m.is_listing_attribute_menu_open = !m.is_listing_attribute_menu_open;
        m.is_attribute_popover_open = false;
        m.is_attribute_template_menu_open = false;
        m.open_attribute_access_level_menu_id = None;
        m.open_attribute_value_type_menu_id = None;
    }
}

fn et_toggle_popover(m: &mut EntityTemplateModal)
    ensures
        entity_template_edited(*old(m), EntityTemplateEdit::ToggleAttributePopover, *final(m)),
{
    m.is_attribute_popover_open = !m.is_attribute_popover_open;
    m.is_attribute_template_menu_open = false;
    m.is_listing_attribute_menu_open = false;
    m.is_info_open = false;
    m.is_delete_confirm_open = false;
    m.is_ownership_open = false;
    if m.selected_attribute_template_id.is_none() {
        if m.attribute_templates.len() > 0 {
            m.selected_attribute_template_id = Some(m.attribute_templates[0].id.clone());
        }
    }
}

fn et_source_tab(m: &mut EntityTemplateModal, tab: EntityTemplateAttributeSourceTab)
    ensures
        entity_template_edited(*old(m), EntityTemplateEdit::SourceTab(tab), *final(m)),
{
    m.attribute_source_tab = tab;
    m.is_attribute_template_menu_open = false;
    m.is_new_attribute_value_type_menu_open = false;
}

fn et_fields(m: &mut EntityTemplateModal, e: EntityTemplateEdit)
    requires
        e is Name || e is Description || e is ListingAttribute,
    ensures
        entity_template_edited(*old(m), e, *final(m)),
{
    match e {
        EntityTemplateEdit::Name(v) => {
            m.entity_template.name = v;
        },
        EntityTemplateEdit::Description(v) => {
            m.entity_template.description = v;
        },
        EntityTemplateEdit::ListingAttribute(id) => {
            m.entity_template.listing_attribute_id = id;
            m.is_listing_attribute_menu_open = false;
        },
        _ => {},
    }
}

fn et_form_fields(m: &mut EntityTemplateModal, e: EntityTemplateEdit)
    requires
        e is NewAttributeName || e is NewAttributeDescription || e is NewAttributeValueType
            || e is SaveAsTemplate || e is Status || e is Tab || e is CancelDeleteConfirm,
    ensures
        entity_template_edited(*old(m), e, *final(m)),
{
    match e {
        EntityTemplateEdit::NewAttributeName(v) => {
            m.new_attribute_name = v;
        },
        EntityTemplateEdit::NewAttributeDescription(v) => {
            m.new_attribute_description = v;
        },
        EntityTemplateEdit::NewAttributeValueType(v) => {
            m.new_attribute_value_type = v;
            m.is_new_attribute_value_type_menu_open = false;
        },
        EntityTemplateEdit::SaveAsTemplate(v) => {
            m.new_attribute_save_as_template = v;
        },
        EntityTemplateEdit::Status(is_saving, error) => {
            m.is_saving = is_saving;
            m.error = error;
        },
        EntityTemplateEdit::Tab(tab) => {
            m.active_tab = tab;
        },
        EntityTemplateEdit::CancelDeleteConfirm => {
            m.is_delete_confirm_open = false;
        },
        _ => {},
    }
}

fn apply_entity_template_edit(m: &mut EntityTemplateModal, e: EntityTemplateEdit)
    ensures
        entity_template_edited(*old(m), e, *final(m)),
{
    match e {
        EntityTemplateEdit::ToggleInfo => et_toggle_info(m),
        EntityTemplateEdit::OpenDeleteConfirm => et_open_delete(m),
        EntityTemplateEdit::ToggleOwnership => et_toggle_ownership(m),
        EntityTemplateEdit::Owner(id) => et_owner(m, id),
        EntityTemplateEdit::ToggleListingMenu => et_toggle_listing(m),
        EntityTemplateEdit::ToggleAttributePopover => et_toggle_popover(m),
        EntityTemplateEdit::SourceTab(tab) => et_source_tab(m, tab),
        EntityTemplateEdit::Name(_) | EntityTemplateEdit::Description(_)
        | EntityTemplateEdit::ListingAttribute(_) => et_fields(m, e),
        _ => et_form_fields(m, e),
    }
}

/// Position of the entity-template modal with the given id, or -1.
pub open spec fn et_modal_index(modals: Seq<OpenModal>, modal_id: u32) -> int {
    let k = modal_index(modals, modal_id);
    if k >= 0 && modals[k].content is EntityTemplate {
        k
    } else {
        -1
    }
}

/// The form of the entity-template modal at `k`.
pub open spec fn et_form(modals: Seq<OpenModal>, k: int) -> EntityTemplateModal {
    modals[k].content->EntityTemplate_0
}

/// `b` is `a` with the entity-template modal at `k` showing `m`.
pub open spec fn et_replaced(a: Seq<OpenModal>, b: Seq<OpenModal>, k: int, m: EntityTemplateModal) -> bool {
    &&& same_except(a, b, k)
    &&& b[k] == OpenModal { content: ModalContent::EntityTemplate(m), ..a[k] }
}

/// Applies an edit to the entity-template modal with the given id. Nothing
/// happens when no such modal is open.
pub fn edit_entity_template_modal(modals: &mut Vec<OpenModal>, modal_id: u32, edit: EntityTemplateEdit)
    ensures
        et_modal_index(old(modals)@, modal_id) < 0 ==> final(modals)@ == old(modals)@,
        et_modal_index(old(modals)@, modal_id) >= 0 ==> {
            let k = et_modal_index(old(modals)@, modal_id);
            &&& final(modals)@[k].content is EntityTemplate
            &&& entity_template_edited(et_form(old(modals)@, k), edit, et_form(final(modals)@, k))
            &&& et_replaced(old(modals)@, final(modals)@, k, et_form(final(modals)@, k))
        },
{
    proof {
        lemma_modal_index(modals@, modal_id);
    }
    let k = match find_modal(modals, modal_id) {
        Some(k) => k,
        None => return ,
    };
    if !matches!(modals[k].content, ModalContent::EntityTemplate(_)) {
        return ;
    }
    let mut open = modals.remove(k);
    match &mut open.content {
        ModalContent::EntityTemplate(m) => apply_entity_template_edit(m, edit),
        _ => {},
    }
    modals.insert(k, open);
}

/// Starts editing: the mode becomes Edit, the popovers close and the title
/// says so.
pub fn start_entity_template_edit(modals: &mut Vec<OpenModal>, modal_id: u32)
    ensures
        modal_index(old(modals)@, modal_id) < 0 ==> final(modals)@ == old(modals)@,
        modal_index(old(modals)@, modal_id) >= 0 ==> {
            let k = modal_index(old(modals)@, modal_id);
            let o = old(modals)@[k];
            &&& same_except(old(modals)@, final(modals)@, k)
            &&& final(modals)@[k].title@ == "Entity Template :: Edit"@
            &&& final(modals)@[k] == OpenModal {
                title: final(modals)@[k].title,
                content: if o.content is EntityTemplate {
                    ModalContent::EntityTemplate(
                        EntityTemplateModal {
                            mode: SecurityModalMode::Edit,
                            is_attribute_popover_open: false,
                            is_attribute_template_menu_open: false,
                            is_info_open: false,
                            is_delete_confirm_open: false,
                            is_ownership_open: false,
                            ..o.content->EntityTemplate_0
                        },
                    )
                } else {
                    o.content
                },
                ..o
            }
        },
{
    proof {
        lemma_modal_index(modals@, modal_id);
    }
    let k = match find_modal(modals, modal_id) {
        Some(k) => k,
        None => return ,
    };
    let mut open = modals.remove(k);
    open.title = "Entity Template :: Edit".to_owned();
    match &mut open.content {
        ModalContent::EntityTemplate(m) => {
            m.mode = SecurityModalMode::Edit;
            m.is_attribute_popover_open = false;
            m.is_attribute_template_menu_open = false;
            m.is_info_open = false;
            m.is_delete_confirm_open = false;
            m.is_ownership_open = false;
        },
        _ => {},
    }
    modals.insert(k, open);
}

/// Cancels editing: the template as last saved comes back (when it is in
/// the list), the mode returns to Details, the error clears and the title
/// says so.
pub fn cancel_entity_template_edit(
    modals: &mut Vec<OpenModal>,
    modal_id: u32,
    entity_templates: &Vec<EntityTemplate>,
)
    ensures
        modal_index(old(modals)@, modal_id) < 0 ==> final(modals)@ == old(modals)@,
        modal_index(old(modals)@, modal_id) >= 0 ==> {
            let k = modal_index(old(modals)@, modal_id);
            let o = old(modals)@[k];
            &&& same_except(old(modals)@, final(modals)@, k)
            &&& final(modals)@[k].title@ == "Entity Template"@
            &&& final(modals)@[k].id == o.id
            &&& final(modals)@[k].z_index == o.z_index
            &&& !(o.content is EntityTemplate) ==> final(modals)@[k].content == o.content
            &&& o.content is EntityTemplate ==> {
                let m = o.content->EntityTemplate_0;
                let j = first_where(entity_templates@, template_with_id(m.entity_template.id@));
                &&& final(modals)@[k].content is EntityTemplate
                &&& {
                    let r = final(modals)@[k].content->EntityTemplate_0;
                    &&& r == EntityTemplateModal {
                        entity_template: r.entity_template,
                        mode: SecurityModalMode::Details,
                        error: None,
                        ..m
                    }
                    &&& j >= 0 ==> r.entity_template@ == entity_templates@[j]@
                    &&& j < 0 ==> r.entity_template == m.entity_template
                }
            }
        },
{
    proof {
        lemma_modal_index(modals@, modal_id);
    }
    let k = match find_modal(modals, modal_id) {
        Some(k) => k,
        None => return ,
    };
    let mut open = modals.remove(k);
    open.title = "Entity Template".to_owned();
    match &mut open.content {
        ModalContent::EntityTemplate(m) => {
            match find_entity_template(entity_templates, m.entity_template.id.as_str()) {
                Some(j) => {
                    m.entity_template = entity_templates[j].duplicate();
                },
                None => {},
            }
            m.mode = SecurityModalMode::Details;
            m.error = None;
        },
        _ => {},
    }
    modals.insert(k, open);
}

/// A request about entity templates or the attribute templates they
/// include.
#[derive(Clone, Debug)]
pub enum TemplateRequest {
    /// Creates (no id) or updates an entity template.
    SaveEntityTemplate { id: Option<String>, session_key: String, body: String },
    DeleteEntityTemplate { id: String, session_key: String },
    /// Creates the attribute template behind a new included attribute.
    CreateAttributeTemplate { session_key: String, body: String },
}

/// Holds of an open modal that shows the entity template with id `id`.
pub open spec fn shows_entity_template(id: Seq<char>) -> spec_fn(OpenModal) -> bool {
    |m: OpenModal| m.content is EntityTemplate && m.content->EntityTemplate_0.entity_template.id@ == id
}

/// A fresh entity-template form: nothing open, nothing being added, on the
/// attributes tab.
pub open spec fn fresh_template_form(m: EntityTemplateModal) -> bool {
    &&& m.active_tab == EntityTemplateTab::Attributes
    &&& m.attribute_source_tab == EntityTemplateAttributeSourceTab::Existing
    &&& m.dragging_attribute_id is None
    &&& m.error is None
    &&& m.open_attribute_access_level_menu_id is None
    &&& m.open_attribute_value_type_menu_id is None
    &&& m.open_link_target_menu_id is None
    &&& !m.is_attribute_template_menu_open
    &&& !m.is_attribute_popover_open
    &&& !m.is_delete_confirm_open
    &&& !m.is_info_open
    &&& !m.is_listing_attribute_menu_open
    &&& !m.is_new_attribute_value_type_menu_open
    &&& !m.is_ownership_open
    &&& !m.is_saving
    &&& m.new_attribute_description@ == Seq::<char>::empty()
    &&& m.new_attribute_name@ == Seq::<char>::empty()
    &&& !m.new_attribute_save_as_template
    &&& m.new_attribute_value_type@ == "text"@
    &&& m.selected_attribute_template_id is None
}

fn fresh_form(
    session_key: String,
    attribute_templates: Vec<AttributeTemplate>,
    entity_templates: Vec<EntityTemplate>,
    access_levels: Vec<AccessLevel>,
    owner_users: Vec<User>,
    entity_template: EntityTemplate,
    can_edit: bool,
    mode: SecurityModalMode,
) -> (r: EntityTemplateModal)
    ensures
        fresh_template_form(r),
        r.session_key == session_key,
        r.attribute_templates == attribute_templates,
        r.entity_templates == entity_templates,
        r.access_levels == access_levels,
        r.owner_users == owner_users,
        r.entity_template == entity_template,
        r.can_edit == can_edit,
        r.mode == mode,
{
    EntityTemplateModal {
        access_levels,
        active_tab: EntityTemplateTab::Attributes,
        attribute_source_tab: EntityTemplateAttributeSourceTab::Existing,
        attribute_templates,
        can_edit,
        dragging_attribute_id: None,
        entity_template,
        entity_templates,
        error: None,
        open_attribute_access_level_menu_id: None,
        open_attribute_value_type_menu_id: None,
        open_link_target_menu_id: None,
        is_attribute_template_menu_open: false,
        is_attribute_popover_open: false,
        is_delete_confirm_open: false,
        is_info_open: false,
        is_listing_attribute_menu_open: false,
        is_new_attribute_value_type_menu_open: false,
        is_ownership_open: false,
        is_saving: false,
        mode,
        new_attribute_description: String::new(),
        new_attribute_name: String::new(),
        new_attribute_save_as_template: false,
        new_attribute_value_type: "text".to_owned(),
        owner_users,
        selected_attribute_template_id: None,
        session_key,
    }
}

/// Opens the modal of an entity template in details mode; when one is open
/// for that template already it is brought to the front instead. Returns
/// the modal's id.
pub fn open_entity_template_modal(
    modals: &mut Vec<OpenModal>,
    next_modal_id: &mut u32,
    session_key: String,
    attribute_templates: Vec<AttributeTemplate>,
    entity_templates: Vec<EntityTemplate>,
    access_levels: Vec<AccessLevel>,
    owner_users: Vec<User>,
    entity_template: EntityTemplate,
    can_edit: bool,
) -> (r: u32)
    requires
        highest(old(modals)@) < u32::MAX,
        *old(next_modal_id) < u32::MAX,
    ensures
        ({
            let k = first_where(old(modals)@, shows_entity_template(entity_template.id@));
            &&& k >= 0 ==> {
                &&& r == old(modals)@[k].id
                &&& *final(next_modal_id) == *old(next_modal_id)
                &&& final(modals)@ == old(modals)@.update(
                    k,
                    OpenModal { z_index: (highest(old(modals)@) + 1) as u32, ..old(modals)@[k] },
                )
            }
            &&& k < 0 ==> {
                let n = old(modals)@.len();
                &&& r == *old(next_modal_id)
                &&& *final(next_modal_id) == *old(next_modal_id) + 1
                &&& final(modals)@.len() == n + 1
                &&& final(modals)@.take(n as int) == old(modals)@
                &&& final(modals)@[n as int].id == r
                &&& final(modals)@[n as int].z_index == highest(old(modals)@) + 1
                &&& final(modals)@[n as int].title@ == "Entity Template"@
                &&& final(modals)@[n as int].content is EntityTemplate
                &&& {
                    let m = final(modals)@[n as int].content->EntityTemplate_0;
                    &&& fresh_template_form(m)
                    &&& m.mode == SecurityModalMode::Details
                    &&& m.entity_template == entity_template
                    &&& m.can_edit == can_edit
                    &&& m.session_key == session_key
                    &&& m.attribute_templates == attribute_templates
                    &&& m.entity_templates == entity_templates
                    &&& m.access_levels == access_levels
                    &&& m.owner_users == owner_users
                }
            }
        }),
{
    let ghost p = shows_entity_template(entity_template.id@);
    let z_index = next_modal_z_index(modals);
    let mut i: usize = 0;
    while i < modals.len()
        invariant
            i <= modals@.len(),
            modals@ == old(modals)@,
            p == shows_entity_template(entity_template.id@),
            z_index == highest(old(modals)@) + 1,
            first_where(modals@.take(i as int), p) == -1,
        decreases modals@.len() - i,
    {
        assert(modals@.take(i as int + 1).drop_last() =~= modals@.take(i as int));
        let hit = match &modals[i].content {
            ModalContent::EntityTemplate(m) => str_eq(
                m.entity_template.id.as_str(),
                entity_template.id.as_str(),
            ),
            _ => false,
        };
        if hit {
            proof {
                assert(p(modals@[i as int]));
                assert(modals@.take(i as int + 1).last() == modals@[i as int]);
                lemma_first_where_prefix(modals@, p, i as int, modals@.len() as int);
                assert(modals@.take(modals@.len() as int) =~= modals@);
            }
            let mut open = modals.remove(i);
            let id = open.id;
            open.z_index = z_index;
            modals.insert(i, open);
            return id;
        }
        i = i + 1;
    }
    assert(modals@.take(i as int) =~= modals@);
    let id = *next_modal_id;
    let content = fresh_form(
        session_key,
        attribute_templates,
        entity_templates,
        access_levels,
        owner_users,
        entity_template,
        can_edit,
        SecurityModalMode::Details,
    );
    *next_modal_id = id + 1;
    let n = modals.len();
    modals.push(
        OpenModal {
            content: ModalContent::EntityTemplate(content),
            id,
            title: "Entity Template".to_owned(),
            z_index,
        },
    );
    assert(modals@.take(n as int) =~= old(modals)@);
    id
}

/// Opens a modal to create an entity template, owned by the given user.
/// Returns the modal's id.
pub fn open_create_entity_template_modal(
    modals: &mut Vec<OpenModal>,
    next_modal_id: &mut u32,
    session_key: String,
    attribute_templates: Vec<AttributeTemplate>,
    entity_templates: Vec<EntityTemplate>,
    access_levels: Vec<AccessLevel>,
    owner_users: Vec<User>,
    owner_user_id: Option<String>,
) -> (r: u32)
    requires
        highest(old(modals)@) < u32::MAX,
        *old(next_modal_id) < u32::MAX,
    ensures
        ({
            let n = old(modals)@.len();
            &&& r == *old(next_modal_id)
            &&& *final(next_modal_id) == *old(next_modal_id) + 1
            &&& final(modals)@.len() == n + 1
            &&& final(modals)@.take(n as int) == old(modals)@
            &&& final(modals)@[n as int].id == r
            &&& final(modals)@[n as int].z_index == highest(old(modals)@) + 1
            &&& final(modals)@[n as int].title@ == "Entity Template :: New"@
            &&& final(modals)@[n as int].content is EntityTemplate
            &&& {
                let m = final(modals)@[n as int].content->EntityTemplate_0;
                let t = m.entity_template;
                &&& fresh_template_form(m)
                &&& m.mode == SecurityModalMode::Create
                &&& m.can_edit
                &&& m.session_key == session_key
                &&& m.attribute_templates == attribute_templates
                &&& m.entity_templates == entity_templates
                &&& m.access_levels == access_levels
                &&& m.owner_users == owner_users
                &&& t.attributes@.len() == 0
                &&& t.links@.len() == 0
                &&& t.description@ == Seq::<char>::empty()
                &&& t.id@ == Seq::<char>::empty()
                &&& t.listing_attribute_id@ == Seq::<char>::empty()
                &&& t.name@ == Seq::<char>::empty()
                &&& t.owner_user_id@ == (match owner_user_id {
                    Some(o) => o@,
                    None => Seq::<char>::empty(),
                })
                &&& t.owner_username is None
            }
        }),
{
    let id = *next_modal_id;
    let z_index = next_modal_z_index(modals);
    let template = EntityTemplate {
        attributes: Vec::new(),
        description: String::new(),
        id: String::new(),
        links: Vec::new(),
        listing_attribute_id: String::new(),
        name: String::new(),
        owner_user_id: match owner_user_id {
            Some(o) => o,
            None => String::new(),
        },
        owner_username: None,
    };
    let content = fresh_form(
        session_key,
        attribute_templates,
        entity_templates,
        access_levels,
        owner_users,
        template,
        true,
        SecurityModalMode::Create,
    );
    *next_modal_id = id + 1;
    let n = modals.len();
    modals.push(
        OpenModal {
            content: ModalContent::EntityTemplate(content),
            id,
            title: "Entity Template :: New".to_owned(),
            z_index,
        },
    );
    assert(modals@.take(n as int) =~= old(modals)@);
    id
}

/// Saves the entity-template form. A template that cannot be saved shows
/// why; otherwise the form shows that it is saving and the create (no id)
/// or update request is returned.
pub fn save_entity_template_modal(modals: &mut Vec<OpenModal>, modal_id: u32) -> (r: Option<
    TemplateRequest,
>)
    ensures
        ({
            let k = et_modal_index(old(modals)@, modal_id);
            &&& k < 0 ==> final(modals)@ == old(modals)@ && r is None
            &&& k >= 0 ==> {
                let m = et_form(old(modals)@, k);
                let t = m.entity_template;
                &&& template_save_error(t) matches Some(msg) ==> {
                    &&& r is None
                    &&& exists|e: String|
                        e@ == msg && et_replaced(
                            old(modals)@,
                            final(modals)@,
                            k,
                            EntityTemplateModal { is_saving: false, error: Some(e), ..m },
                        )
                }
                &&& template_save_error(t) is None ==> {
                    &&& et_replaced(
                        old(modals)@,
                        final(modals)@,
                        k,
                        EntityTemplateModal { is_saving: true, error: None, ..m },
                    )
                    &&& r matches Some(TemplateRequest::SaveEntityTemplate { id, session_key, body })
                        && session_key == m.session_key && body@ == entity_template_json(t) && opt_view(
                        id,
                    ) == (if t.id@.len() == 0 {
                        None
                    } else {
                        Some(t.id@)
                    })
                }
            }
        }),
{
    proof {
        lemma_modal_index(modals@, modal_id);
    }
    let k = match find_modal(modals, modal_id) {
        Some(k) => k,
        None => return None,
    };
    let (message, request) = match &modals[k].content {
        ModalContent::EntityTemplate(m) => {
            let t = &m.entity_template;
            let id = if t.id.as_str().is_empty() {
                None
            } else {
                Some(t.id.clone())
            };
            (
                template_error_message(t),
                TemplateRequest::SaveEntityTemplate {
                    id,
                    session_key: m.session_key.clone(),
                    body: entity_template_create_body(t),
                },
            )
        },
        _ => return None,
    };
    match message {
        Some(text) => {
            let error = text.to_owned();
            let ghost e = error;
            edit_entity_template_modal(modals, modal_id, EntityTemplateEdit::Status(false, Some(error)));
            assert(et_replaced(
                old(modals)@,
                modals@,
                k as int,
                EntityTemplateModal { is_saving: false, error: Some(e), ..et_form(old(modals)@, k as int) },
            ));
            None
        },
        None => {
            edit_entity_template_modal(modals, modal_id, EntityTemplateEdit::Status(true, None));
            Some(request)
        },
    }
}

/// A template's name without regard to ASCII case, on views.
pub open spec fn caseless_view_name() -> spec_fn(EntityTemplateView) -> Caseless {
    |t: EntityTemplateView| Caseless { text: t.name }
}

/// The server answered a save of an entity template: on success the first
/// template with its id is replaced (or the template added), the list is
/// reordered by name without regard to ASCII case, and the modal closes; on
/// failure the form shows the message.
pub fn entity_template_saved(
    modals: &mut Vec<OpenModal>,
    modal_id: u32,
    entity_templates: &mut Vec<EntityTemplate>,
    outcome: Result<EntityTemplate, String>,
)
    ensures
        outcome matches Ok(saved) ==> {
            let k = first_where(old(entity_templates)@, template_with_id(saved.id@));
            let before = template_views(old(entity_templates)@);
            let changed = if k >= 0 {
                before.update(k, saved@)
            } else {
                before.push(saved@)
            };
            &&& template_views(final(entity_templates)@) == sorted_by(changed, caseless_view_name())
            &&& final(modals)@ == old(modals)@.filter(other_modal(modal_id))
        },
        outcome matches Err(message) ==> {
            let k = et_modal_index(old(modals)@, modal_id);
            &&& final(entity_templates)@ == old(entity_templates)@
            &&& k < 0 ==> final(modals)@ == old(modals)@
            &&& k >= 0 ==> et_replaced(
                old(modals)@,
                final(modals)@,
                k,
                EntityTemplateModal { is_saving: false, error: Some(message), ..et_form(old(modals)@, k) },
            )
        },
{
    match outcome {
        Ok(saved) => {
            let ghost k = first_where(entity_templates@, template_with_id(saved.id@));
            let ghost before = template_views(entity_templates@);
            match find_entity_template(entity_templates, saved.id.as_str()) {
                Some(j) => {
                    entity_templates.set(j, saved);
                    assert(template_views(entity_templates@) =~= before.update(k, entity_templates@[j as int]@));
                },
                None => {
                    entity_templates.push(saved);
                    assert(template_views(entity_templates@) =~= before.push(entity_templates@.last()@));
                },
            }
            let ghost changed = template_views(entity_templates@);
            let mut keys: Vec<Caseless> = Vec::new();
            let mut i: usize = 0;
            while i < entity_templates.len()
                invariant
                    i <= entity_templates@.len(),
                    keys@ == entity_templates@.take(i as int).map_values(|x: EntityTemplate| x@).map_values(
                        caseless_view_name(),
                    ),
                decreases entity_templates@.len() - i,
            {
                keys.push(Caseless { text: entity_templates[i].name.clone() });
                assert(entity_templates@.take(i as int + 1).map_values(|x: EntityTemplate| x@).map_values(
                    caseless_view_name(),
                ) =~= entity_templates@.take(i as int).map_values(|x: EntityTemplate| x@).map_values(
                    caseless_view_name(),
                ).push(Caseless { text: entity_templates@[i as int]@.name }));
                i = i + 1;
            }
            assert(entity_templates@.take(i as int) =~= entity_templates@);
            let sorted = sort_views(entity_templates, &keys, Ghost(caseless_view_name()));
            assert(template_views(sorted@) =~= sorted@.map_values(|x: EntityTemplate| x@));
            assert(changed =~= entity_templates@.map_values(|x: EntityTemplate| x@));
            *entity_templates = sorted;
            close_modal(modals, modal_id);
        },
        Err(message) => {
            edit_entity_template_modal(modals, modal_id, EntityTemplateEdit::Status(false, Some(message)));
        },
    }
}

/// The delete request of the template shown by the modal.
pub fn delete_entity_template_request(m: &EntityTemplateModal) -> (r: TemplateRequest)
    ensures
        r matches TemplateRequest::DeleteEntityTemplate { id, session_key } && id
            == m.entity_template.id && session_key == m.session_key,
{
    TemplateRequest::DeleteEntityTemplate {
        id: m.entity_template.id.clone(),
        session_key: m.session_key.clone(),
    }
}

/// Holds of the templates whose id is not `id`.
pub open spec fn other_entity_template(id: Seq<char>) -> spec_fn(EntityTemplateView) -> bool {
    |t: EntityTemplateView| t.id@ != id
}

/// The server answered a delete: when it succeeded the template leaves the
/// list and the modal closes; otherwise nothing changes.
pub fn entity_template_deleted(
    modals: &mut Vec<OpenModal>,
    modal_id: u32,
    entity_templates: &mut Vec<EntityTemplate>,
    template_id: &str,
    succeeded: bool,
)
    ensures
        succeeded ==> {
            &&& template_views(final(entity_templates)@) == template_views(
                old(entity_templates)@,
            ).filter(other_entity_template(template_id@))
            &&& final(modals)@ == old(modals)@.filter(other_modal(modal_id))
        },
        !succeeded ==> final(modals)@ == old(modals)@ && final(entity_templates)@ == old(
            entity_templates,
        )@,
{
    if !succeeded {
        return ;
    }
    let ghost start = template_views(entity_templates@);
    let mut kept: Vec<EntityTemplate> = Vec::new();
    let mut i: usize = 0;
    while i < entity_templates.len()
        invariant
            i <= entity_templates@.len(),
            start == template_views(entity_templates@),
            template_views(kept@) == start.take(i as int).filter(other_entity_template(template_id@)),
        decreases entity_templates@.len() - i,
    {
        assert(start.take(i as int + 1).drop_last() =~= start.take(i as int));
        reveal_with_fuel(Seq::filter, 1);
        if !str_eq(entity_templates[i].id.as_str(), template_id) {
            let d = entity_templates[i].duplicate();
            let ghost before = kept@;
            kept.push(d);
            assert(template_views(kept@) =~= template_views(before).push(d@));
        }
        i = i + 1;
    }
    assert(start.take(i as int) =~= start);
    *entity_templates = kept;
    close_modal(modals, modal_id);
}

/// Adds an attribute template to a list kept in order of names without
/// regard to ASCII case.
pub fn add_sorted_attribute_template(list: &mut Vec<AttributeTemplate>, t: AttributeTemplate)
    ensures
        final(list)@ == sorted_by(old(list)@.push(t), caseless_name()),
{
    list.push(t);
    let mut keys: Vec<Caseless> = Vec::new();
    let mut i: usize = 0;
    while i < list.len()
        invariant
            i <= list@.len(),
            keys@ == list@.take(i as int).map_values(caseless_name()),
        decreases list@.len() - i,
    {
        keys.push(Caseless { text: list[i].name.clone() });
        assert(list@.take(i as int + 1).map_values(caseless_name()) =~= list@.take(
            i as int,
        ).map_values(caseless_name()).push(Caseless { text: list@[i as int].name }));
        i = i + 1;
    }
    assert(list@.take(i as int) =~= list@);
    let sorted = sort_items(list, &keys, Ghost(caseless_name()));
    *list = sorted;
}

/// The value type of a new attribute: the chosen one, else `text`.
pub open spec fn new_value_type(chosen: Seq<char>) -> Seq<char> {
    if chosen.len() == 0 {
        "text"@
    } else {
        chosen
    }
}

/// Includes the attribute described in the new-attribute form, under the
/// fresh id. Its name must not be blank. When the form asks to save it as
/// an attribute template, the form shows that it is saving and the request
/// creating the template is returned; the attribute is included once the
/// template exists. Otherwise it is included at once.
pub fn include_new_attribute(modals: &mut Vec<OpenModal>, modal_id: u32, fresh_id: String) -> (r:
    Option<TemplateRequest>)
    requires
        et_modal_index(old(modals)@, modal_id) >= 0 ==> max_listing(
            et_form(old(modals)@, et_modal_index(old(modals)@, modal_id)).entity_template.attributes@,
        ) < i32::MAX,
    ensures
        ({
            let k = et_modal_index(old(modals)@, modal_id);
            &&& k < 0 ==> final(modals)@ == old(modals)@ && r is None
            &&& k >= 0 ==> {
                let m = et_form(old(modals)@, k);
                let name = trim(m.new_attribute_name@);
                let description = trim(m.new_attribute_description@);
                let value_type = new_value_type(m.new_attribute_value_type@);
                let level = if m.access_levels@.len() > 0 {
                    m.access_levels@[0].id
                } else {
                    4
                };
                &&& name.len() == 0 ==> {
                    &&& r is None
                    &&& exists|e: String|
                        e@ == "Attribute name is required"@ && et_replaced(
                            old(modals)@,
                            final(modals)@,
                            k,
                            EntityTemplateModal { error: Some(e), ..m },
                        )
                }
                &&& name.len() > 0 && m.new_attribute_save_as_template ==> {
                    &&& et_replaced(
                        old(modals)@,
                        final(modals)@,
                        k,
                        EntityTemplateModal { error: None, is_saving: true, ..m },
                    )
                    &&& r matches Some(TemplateRequest::CreateAttributeTemplate { session_key, body })
                        && session_key == m.session_key && body@ == new_attribute_template_json(
                        name,
                        description,
                        value_type,
                        level,
                    )
                }
                &&& name.len() > 0 && !m.new_attribute_save_as_template ==> {
                    &&& r is None
                    &&& final(modals)@[k].content is EntityTemplate
                    &&& et_replaced(old(modals)@, final(modals)@, k, et_form(final(modals)@, k))
                    &&& new_attribute_added(
                        EntityTemplateModal { error: None, is_saving: false, ..m },
                        name,
                        description,
                        value_type,
                        level,
                        false,
                        fresh_id@,
                        et_form(final(modals)@, k),
                    )
                }
            }
        }),
{
    proof {
        lemma_modal_index(modals@, modal_id);
    }
    let k = match find_modal(modals, modal_id) {
        Some(k) => k,
        None => return None,
    };
    if !matches!(modals[k].content, ModalContent::EntityTemplate(_)) {
        return None;
    }
    let (name, description, value_type, level) = match &modals[k].content {
        ModalContent::EntityTemplate(m) => (
            to_string(&trim_str(m.new_attribute_name.as_str())),
            to_string(&trim_str(m.new_attribute_description.as_str())),
            if m.new_attribute_value_type.as_str().is_empty() {
                "text".to_owned()
            } else {
                m.new_attribute_value_type.clone()
            },
            default_attribute_access_level_id(&m.access_levels),
        ),
        _ => return None,
    };
    let ghost m0 = et_form(modals@, k as int);
    let ghost n = name;
    let ghost d = description;
    let ghost v = value_type;
    let ghost e = "Attribute name is required"@;
    let mut open = modals.remove(k);
    let mut request: Option<TemplateRequest> = None;
    let mut error_text: Option<String> = None;
    match &mut open.content {
        ModalContent::EntityTemplate(m) => {
            if name.as_str().is_empty() {
                let error = "Attribute name is required".to_owned();
                m.error = Some(error);
            } else {
                m.error = None;
                m.is_saving = m.new_attribute_save_as_template;
                if m.new_attribute_save_as_template {
                    let body = new_attribute_template_body(
                        name.as_str(),
                        description.as_str(),
                        value_type.as_str(),
                        level,
                    );
                    request = Some(
                        TemplateRequest::CreateAttributeTemplate {
                            session_key: m.session_key.clone(),
                            body,
                        },
                    );
                } else {
                    add_new_attribute_from_values(m, name, description, value_type, level, false, fresh_id);
                }
            }
        },
        _ => {},
    }
    let ghost after = open;
    modals.insert(k, open);
    proof {
        if n@.len() == 0 {
            let err = after.content->EntityTemplate_0.error->0;
            assert(et_replaced(old(modals)@, modals@, k as int, EntityTemplateModal { error: Some(err), ..m0 }));
        } else if !m0.new_attribute_save_as_template {
            assert(new_attribute_added(
                EntityTemplateModal { error: None, is_saving: false, ..m0 },
                n@,
                d@,
                v@,
                level,
                false,
                fresh_id@,
                et_form(modals@, k as int),
            ));
        }
    }
    request
}

/// The server answered the creation of the attribute template behind a new
/// attribute: on success the template joins the lists (kept by name) and
/// the attribute is included with the template's values under the fresh
/// id; on failure the form shows the message. Either way saving ends.
pub fn new_attribute_template_created(
    modals: &mut Vec<OpenModal>,
    modal_id: u32,
    attribute_templates: &mut Vec<AttributeTemplate>,
    fresh_id: String,
    outcome: Result<AttributeTemplate, String>,
)
    requires
        et_modal_index(old(modals)@, modal_id) >= 0 ==> max_listing(
            et_form(old(modals)@, et_modal_index(old(modals)@, modal_id)).entity_template.attributes@,
        ) < i32::MAX,
    ensures
        ({
            let k = et_modal_index(old(modals)@, modal_id);
            &&& outcome matches Ok(saved) ==> {
                &&& final(attribute_templates)@ == sorted_by(
                    old(attribute_templates)@.push(saved),
                    caseless_name(),
                )
                &&& k < 0 ==> final(modals)@ == old(modals)@
                &&& k >= 0 ==> {
                    let m = et_form(old(modals)@, k);
                    &&& final(modals)@[k].content is EntityTemplate
                    &&& et_replaced(old(modals)@, final(modals)@, k, et_form(final(modals)@, k))
                    &&& exists|with_list: EntityTemplateModal|
                        with_list == (EntityTemplateModal {
                            attribute_templates: with_list.attribute_templates,
                            ..m
                        }) && with_list.attribute_templates@ == sorted_by(
                            m.attribute_templates@.push(saved),
                            caseless_name(),
                        ) && new_attribute_added(
                            with_list,
                            saved.name@,
                            saved.description@,
                            saved.value_type@,
                            saved.access_level_id,
                            saved.is_required,
                            fresh_id@,
                            EntityTemplateModal { is_saving: with_list.is_saving, ..et_form(final(modals)@, k) },
                        ) && !et_form(final(modals)@, k).is_saving
                }
            }
            &&& outcome matches Err(message) ==> {
                &&& final(attribute_templates)@ == old(attribute_templates)@
                &&& k < 0 ==> final(modals)@ == old(modals)@
                &&& k >= 0 ==> et_replaced(
                    old(modals)@,
                    final(modals)@,
                    k,
                    EntityTemplateModal {
                        is_saving: false,
                        error: Some(message),
                        ..et_form(old(modals)@, k)
                    },
                )
            }
        }),
{
    match outcome {
        Ok(saved) => {
            proof {
                lemma_modal_index(modals@, modal_id);
            }
            let copy = saved.duplicate();
            add_sorted_attribute_template(attribute_templates, copy);
            let k = match find_modal(modals, modal_id) {
                Some(k) => k,
                None => return ,
            };
            if !matches!(modals[k].content, ModalContent::EntityTemplate(_)) {
                return ;
            }
            let mut open = modals.remove(k);
            match &mut open.content {
                ModalContent::EntityTemplate(m) => {
                    let keep = saved.duplicate();
                    add_sorted_attribute_template(&mut m.attribute_templates, keep);
                    let ghost with_list = *m;
                    add_new_attribute_from_values(
                        m,
                        saved.name,
                        saved.description,
                        saved.value_type,
                        saved.access_level_id,
                        saved.is_required,
                        fresh_id,
                    );
                    let ghost added = *m;
                    m.is_saving = false;
                    assert(added == EntityTemplateModal { is_saving: with_list.is_saving, ..*m });
                },
                _ => {},
            }
            modals.insert(k, open);
        },
        Err(message) => {
            edit_entity_template_modal(modals, modal_id, EntityTemplateEdit::Status(false, Some(message)));
        },
    }
}

} // verus!
