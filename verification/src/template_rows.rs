//! The rows of the entity-template modal's tables: the edits of an included
//! attribute (its name, value type and access level, their menus, and
//! dragging it) and of a link (its name, description and target).

use vstd::prelude::*;

use crate::entity_template_flows::{
    et_form, et_modal_index, et_replaced, linked_entity_template, template_with_id,
};
use crate::listing::{find_index, first_where, index_of, lemma_index_of_facts, Identified};
use crate::requests::opt_view;
use crate::stack::{find_modal, lemma_modal_index, OpenModal};
use crate::template_editor::{with_attributes, with_links};
use crate::text::{parse_u32, parsed_u32};
use crate::text_std::str_eq;
use crate::types::{EntityTemplate, EntityTemplateAttribute, EntityTemplateLink, EntityTemplateModal, ModalContent};

verus! {

/// `b` is `a` with the first item whose id is `id` replaced by one that
/// `f` relates to it; `b` is `a` when there is no such item.
pub open spec fn item_changed<T: Identified>(
    a: Seq<T>,
    b: Seq<T>,
    id: Seq<char>,
    f: spec_fn(T, T) -> bool,
) -> bool {
    let k = index_of(a, id);
    &&& k < 0 ==> b == a
    &&& k >= 0 ==> {
        &&& b.len() == a.len()
        &&& forall|j: int| 0 <= j < a.len() && j != k ==> #[trigger] b[j] == a[j]
        &&& f(a[k], b[k])
    }
}

/// The open menu after the menu of `id` was toggled: closed when it was
/// the open one, else that menu.
pub open spec fn toggled_id(current: Option<String>, id: Seq<char>) -> Option<Seq<char>> {
    match current {
        Some(c) => if c@ == id {
            None
        } else {
            Some(id)
        },
        None => Some(id),
    }
}

fn toggle_menu_id(current: &Option<String>, id: &str) -> (r: Option<String>)
    ensures
        opt_view(r) == toggled_id(*current, id@),
{
    match current {
        Some(c) => if str_eq(c.as_str(), id) {
            None
        } else {
            Some(id.to_owned())
        },
        None => Some(id.to_owned()),
    }
}

/// An edit made in the row of an included attribute.
#[derive(Clone, Debug)]
pub enum IncludedAttributeEdit {
    Name(String),
    /// Opens or closes the row's value-type menu; the other menus close.
    ToggleValueTypeMenu,
    ValueType(String),
    /// Opens or closes the row's access-level menu; the other menus close.
    ToggleAccessLevelMenu,
    /// The access-level menu chose the level whose id is this text.
    AccessLevel(String),
    /// The drag handle was pressed; the menus close.
    StartDrag,
    /// The pointer was released.
    EndDrag,
}

/// `r` is the form `m` after the edit `e` in the row of the attribute `id`.
pub open spec fn included_attribute_edited(
    m: EntityTemplateModal,
    id: Seq<char>,
    e: IncludedAttributeEdit,
    r: EntityTemplateModal,
) -> bool {
    let a = m.entity_template.attributes@;
    let b = r.entity_template.attributes@;
    match e {
        IncludedAttributeEdit::Name(v) => {
            &&& r == with_attributes(m, r.entity_template.attributes)
            &&& item_changed(
                a,
                b,
                id,
                |x: EntityTemplateAttribute, y: EntityTemplateAttribute|
                    y == EntityTemplateAttribute { name: v, ..x },
            )
        },
        IncludedAttributeEdit::ValueType(v) => {
            &&& r == EntityTemplateModal {
                open_attribute_value_type_menu_id: None,
                ..with_attributes(m, r.entity_template.attributes)
            }
            &&& item_changed(
                a,
                b,
                id,
                |x: EntityTemplateAttribute, y: EntityTemplateAttribute|
                    y == EntityTemplateAttribute { value_type: v, ..x },
            )
        },
        IncludedAttributeEdit::AccessLevel(text) => match parsed_u32(text@) {
            Some(level) => {
                &&& r == EntityTemplateModal {
                    open_attribute_access_level_menu_id: None,
                    ..with_attributes(m, r.entity_template.attributes)
                }
                &&& item_changed(
                    a,
                    b,
                    id,
                    |x: EntityTemplateAttribute, y: EntityTemplateAttribute|
                        y == EntityTemplateAttribute { access_level_id: level, ..x },
                )
            },
            None => r == EntityTemplateModal { open_attribute_access_level_menu_id: None, ..m },
        },
        IncludedAttributeEdit::ToggleValueTypeMenu => {
            &&& r == EntityTemplateModal {
                open_attribute_value_type_menu_id: r.open_attribute_value_type_menu_id,
                open_attribute_access_level_menu_id: None,
                is_listing_attribute_menu_open: false,
                is_attribute_popover_open: false,
                is_attribute_template_menu_open: false,
                ..m
            }
            &&& opt_view(r.open_attribute_value_type_menu_id) == toggled_id(
                m.open_attribute_value_type_menu_id,
                id,
            )
        },
        IncludedAttributeEdit::ToggleAccessLevelMenu => {
            &&& r == EntityTemplateModal {
                open_attribute_access_level_menu_id: r.open_attribute_access_level_menu_id,
                open_attribute_value_type_menu_id: None,
                is_listing_attribute_menu_open: false,
                is_attribute_popover_open: false,
                is_attribute_template_menu_open: false,
                ..m
            }
            &&& opt_view(r.open_attribute_access_level_menu_id) == toggled_id(
                m.open_attribute_access_level_menu_id,
                id,
            )
        },
        IncludedAttributeEdit::StartDrag => {
            &&& r == EntityTemplateModal {
                dragging_attribute_id: r.dragging_attribute_id,
                open_attribute_access_level_menu_id: None,
                open_attribute_value_type_menu_id: None,
                is_listing_attribute_menu_open: false,
                is_attribute_popover_open: false,
                is_attribute_template_menu_open: false,
                ..m
            }
            &&& opt_view(r.dragging_attribute_id) == Some(id)
        },
        IncludedAttributeEdit::EndDrag => r == EntityTemplateModal { dragging_attribute_id: None, ..m },
    }
}

fn set_attribute_name(attrs: &mut Vec<EntityTemplateAttribute>, key: &String, v: String)
    ensures
        item_changed(
            old(attrs)@,
            final(attrs)@,
            key@,
            |x: EntityTemplateAttribute, y: EntityTemplateAttribute|
                y == EntityTemplateAttribute { name: v, ..x },
        ),
{
    proof {
        lemma_index_of_facts(attrs@, key@);
    }
    match find_index(attrs, key) {
        Some(k) => {
            let mut a = attrs.remove(k);
            a.name = v;
            attrs.insert(k, a);
        },
        None => {},
    }
}

fn set_attribute_value_type(attrs: &mut Vec<EntityTemplateAttribute>, key: &String, v: String)
    ensures
        item_changed(
            old(attrs)@,
            final(attrs)@,
            key@,
            |x: EntityTemplateAttribute, y: EntityTemplateAttribute|
                y == EntityTemplateAttribute { value_type: v, ..x },
        ),
{
    proof {
        lemma_index_of_facts(attrs@, key@);
    }
    match find_index(attrs, key) {
        Some(k) => {
            let mut a = attrs.remove(k);
            a.value_type = v;
            attrs.insert(k, a);
        },
        None => {},
    }
}

fn set_attribute_level(attrs: &mut Vec<EntityTemplateAttribute>, key: &String, level: u32)
    ensures
        item_changed(
            old(attrs)@,
            final(attrs)@,
            key@,
            |x: EntityTemplateAttribute, y: EntityTemplateAttribute|
                y == EntityTemplateAttribute { access_level_id: level, ..x },
        ),
{
    proof {
        lemma_index_of_facts(attrs@, key@);
    }
    match find_index(attrs, key) {
        Some(k) => {
            let mut a = attrs.remove(k);
            a.access_level_id = level;
            attrs.insert(k, a);
        },
        None => {},
    }
}

fn attribute_menus(m: &mut EntityTemplateModal, attribute_id: &str, e: IncludedAttributeEdit)
    requires
        e is ToggleValueTypeMenu || e is ToggleAccessLevelMenu || e is StartDrag || e is EndDrag,
    ensures
        included_attribute_edited(*old(m), attribute_id@, e, *final(m)),
{
    match e {
        IncludedAttributeEdit::ToggleValueTypeMenu => {
            m.open_attribute_value_type_menu_id = toggle_menu_id(
                &m.open_attribute_value_type_menu_id,
                attribute_id,
            );
            m.open_attribute_access_level_menu_id = None;
        },
        IncludedAttributeEdit::ToggleAccessLevelMenu => {
            m.open_attribute_access_level_menu_id = toggle_menu_id(
                &m.open_attribute_access_level_menu_id,
                attribute_id,
            );
            m.open_attribute_value_type_menu_id = None;
        },
        IncludedAttributeEdit::StartDrag => {
            m.dragging_attribute_id = Some(attribute_id.to_owned());
            m.open_attribute_access_level_menu_id = None;
            m.open_attribute_value_type_menu_id = None;
        },
        _ => {
            m.dragging_attribute_id = None;
            return ;
        },
    }
    m.is_listing_attribute_menu_open = false;
    m.is_attribute_popover_open = false;
    m.is_attribute_template_menu_open = false;
}

fn attribute_fields(m: &mut EntityTemplateModal, attribute_id: &str, e: IncludedAttributeEdit)
    requires
        e is Name || e is ValueType || e is AccessLevel,
    ensures
        included_attribute_edited(*old(m), attribute_id@, e, *final(m)),
{
    let key = attribute_id.to_owned();
    match e {
        IncludedAttributeEdit::Name(v) => {
            set_attribute_name(&mut m.entity_template.attributes, &key, v);
        },
        IncludedAttributeEdit::ValueType(v) => {
            set_attribute_value_type(&mut m.entity_template.attributes, &key, v);
            m.open_attribute_value_type_menu_id = None;
        },
        IncludedAttributeEdit::AccessLevel(text) => {
            match parse_u32(text.as_str()) {
                Some(level) => set_attribute_level(&mut m.entity_template.attributes, &key, level),
                None => {},
            }
            m.open_attribute_access_level_menu_id = None;
        },
        _ => {},
    }
}

/// Applies an edit of the row of the attribute `attribute_id` to a form.
pub fn apply_included_attribute_edit(
    m: &mut EntityTemplateModal,
    attribute_id: &str,
    e: IncludedAttributeEdit,
)
    ensures
        included_attribute_edited(*old(m), attribute_id@, e, *final(m)),
{
    match e {
        IncludedAttributeEdit::Name(_) | IncludedAttributeEdit::ValueType(_)
        | IncludedAttributeEdit::AccessLevel(_) => attribute_fields(m, attribute_id, e),
        _ => attribute_menus(m, attribute_id, e),
    }
}

/// Applies an edit of the row of the attribute `attribute_id` to the
/// entity-template modal with the given id. Nothing happens when no such
/// modal is open.
pub fn edit_included_attribute(
    modals: &mut Vec<OpenModal>,
    modal_id: u32,
    attribute_id: &str,
    edit: IncludedAttributeEdit,
)
    ensures
        et_modal_index(old(modals)@, modal_id) < 0 ==> final(modals)@ == old(modals)@,
        et_modal_index(old(modals)@, modal_id) >= 0 ==> {
            let k = et_modal_index(old(modals)@, modal_id);
            &&& final(modals)@[k].content is EntityTemplate
            &&& included_attribute_edited(
                et_form(old(modals)@, k),
                attribute_id@,
                edit,
                et_form(final(modals)@, k),
            )
            &&& et_replaced(old(modals)@, final(modals)@, k, et_form(final(modals)@, k))
        },
{
    proof {
        lemma_modal_index(modals@, modal_id);
    }
    let k = match find_modal(modals, modal_id) {
        Some(k) => k,
        None => return ,
    };
    if !matches!(modals[k].content, ModalContent::EntityTemplate(_)) {
        return ;
    }
    let mut open = modals.remove(k);
    match &mut open.content {
        ModalContent::EntityTemplate(m) => apply_included_attribute_edit(m, attribute_id, edit),
        _ => {},
    }
    modals.insert(k, open);
}

/// An edit made in the row of a link.
#[derive(Clone, Debug)]
pub enum TemplateLinkEdit {
    Name(String),
    /// A new description; an empty one means none.
    Description(String),
    /// Opens or closes the row's target menu; the other menus close.
    ToggleTargetMenu,
    /// The target menu chose the template with this id.
    Target(String),
}

/// The description a link keeps after `v` was typed: none when empty.
pub open spec fn typed_description(v: String) -> Option<String> {
    if v@.len() == 0 {
        None
    } else {
        Some(v)
    }
}

/// `r` is the form `m` after the edit `e` in the row of the link `id`.
pub open spec fn template_link_edited(
    m: EntityTemplateModal,
    id: Seq<char>,
    e: TemplateLinkEdit,
    r: EntityTemplateModal,
) -> bool {
    let a = m.entity_template.links@;
    let b = r.entity_template.links@;
    match e {
        TemplateLinkEdit::Name(v) => {
            &&& r == with_links(m, r.entity_template.links)
            &&& item_changed(
                a,
                b,
                id,
                |x: EntityTemplateLink, y: EntityTemplateLink| y == EntityTemplateLink { name: v, ..x },
            )
        },
        TemplateLinkEdit::Description(v) => {
            &&& r == with_links(m, r.entity_template.links)
            &&& item_changed(
                a,
                b,
                id,
                |x: EntityTemplateLink, y: EntityTemplateLink|
                    y == EntityTemplateLink { description: typed_description(v), ..x },
            )
        },
        TemplateLinkEdit::ToggleTargetMenu => {
            &&& r == EntityTemplateModal {
                open_link_target_menu_id: r.open_link_target_menu_id,
                open_attribute_access_level_menu_id: None,
                open_attribute_value_type_menu_id: None,
                is_attribute_popover_open: false,
                is_attribute_template_menu_open: false,
                is_listing_attribute_menu_open: false,
                ..m
            }
            &&& opt_view(r.open_link_target_menu_id) == toggled_id(m.open_link_target_menu_id, id)
        },
        TemplateLinkEdit::Target(t) => {
            &&& r == EntityTemplateModal {
                open_link_target_menu_id: None,
                ..with_links(m, r.entity_template.links)
            }
            &&& item_changed(
                a,
                b,
                id,
                |x: EntityTemplateLink, y: EntityTemplateLink|
                    y == EntityTemplateLink { target_entity_template_id: Some(t), ..x },
            )
        },
    }
}

fn set_link_name(links: &mut Vec<EntityTemplateLink>, key: &String, v: String)
    ensures
        item_changed(
            old(links)@,
            final(links)@,
            key@,
            |x: EntityTemplateLink, y: EntityTemplateLink| y == EntityTemplateLink { name: v, ..x },
        ),
{
    proof {
        lemma_index_of_facts(links@, key@);
    }
    match find_index(links, key) {
        Some(k) => {
            let mut l = links.remove(k);
            l.name = v;
            links.insert(k, l);
        },
        None => {},
    }
}

fn set_link_description(links: &mut Vec<EntityTemplateLink>, key: &String, v: String)
    ensures
        item_changed(
            old(links)@,
            final(links)@,
            key@,
            |x: EntityTemplateLink, y: EntityTemplateLink|
                y == EntityTemplateLink { description: typed_description(v), ..x },
        ),
{
    proof {
        lemma_index_of_facts(links@, key@);
    }
    match find_index(links, key) {
        Some(k) => {
            let mut l = links.remove(k);
            l.description = if v.as_str().is_empty() {
                None
            } else {
                Some(v)
            };
            links.insert(k, l);
        },
        None => {},
    }
}

fn set_link_target(links: &mut Vec<EntityTemplateLink>, key: &String, t: String)
    ensures
        item_changed(
            old(links)@,
            final(links)@,
            key@,
            |x: EntityTemplateLink, y: EntityTemplateLink|
                y == EntityTemplateLink { target_entity_template_id: Some(t), ..x },
        ),
{
    proof {
        lemma_index_of_facts(links@, key@);
    }
    match find_index(links, key) {
        Some(k) => {
            let mut l = links.remove(k);
            l.target_entity_template_id = Some(t);
            links.insert(k, l);
        },
        None => {},
    }
}

/// Applies an edit of the row of the link `link_id` to a form.
pub fn apply_template_link_edit(m: &mut EntityTemplateModal, link_id: &str, e: TemplateLinkEdit)
    ensures
        template_link_edited(*old(m), link_id@, e, *final(m)),
{
    let key = link_id.to_owned();
    match e {
        TemplateLinkEdit::ToggleTargetMenu => {
            m.open_link_target_menu_id = toggle_menu_id(&m.open_link_target_menu_id, link_id);
            m.open_attribute_access_level_menu_id = None;
            m.open_attribute_value_type_menu_id = None;
            m.is_attribute_popover_open = false;
            m.is_attribute_template_menu_open = false;
            m.is_listing_attribute_menu_open = false;
        },
        TemplateLinkEdit::Name(v) => set_link_name(&mut m.entity_template.links, &key, v),
        TemplateLinkEdit::Description(v) => set_link_description(&mut m.entity_template.links, &key, v),
        TemplateLinkEdit::Target(t) => {
            set_link_target(&mut m.entity_template.links, &key, t);
            m.open_link_target_menu_id = None;
        },
    }
}

/// Applies an edit of the row of the link `link_id` to the entity-template
/// modal with the given id. Nothing happens when no such modal is open.
pub fn edit_template_link(modals: &mut Vec<OpenModal>, modal_id: u32, link_id: &str, edit: TemplateLinkEdit)
    ensures
        et_modal_index(old(modals)@, modal_id) < 0 ==> final(modals)@ == old(modals)@,
        et_modal_index(old(modals)@, modal_id) >= 0 ==> {
            let k = et_modal_index(old(modals)@, modal_id);
            &&& final(modals)@[k].content is EntityTemplate
            &&& template_link_edited(
                et_form(old(modals)@, k),
                link_id@,
                edit,
                et_form(final(modals)@, k),
            )
            &&& et_replaced(old(modals)@, final(modals)@, k, et_form(final(modals)@, k))
        },
{
    proof {
        lemma_modal_index(modals@, modal_id);
    }
    let k = match find_modal(modals, modal_id) {
        Some(k) => k,
        None => return ,
    };
    if !matches!(modals[k].content, ModalContent::EntityTemplate(_)) {
        return ;
    }
    let mut open = modals.remove(k);
    match &mut open.content {
        ModalContent::EntityTemplate(m) => apply_template_link_edit(m, link_id, edit),
        _ => {},
    }
    modals.insert(k, open);
}

/// What a link's target menu shows: the name of the chosen target among
/// the candidates, else nothing.
pub fn link_target_summary(target_candidates: &Vec<EntityTemplate>, target: Option<&str>) -> (r: String)
    ensures
        ({
            let k = match target {
                Some(t) => first_where(target_candidates@, template_with_id(t@)),
                None => -1,
            };
            &&& k >= 0 ==> r@ == target_candidates@[k].name@
            &&& k < 0 ==> r@ == Seq::<char>::empty()
        }),
{
    match linked_entity_template(target_candidates, target) {
        Some(t) => t.name,
        None => String::new(),
    }
}

} // verus!
