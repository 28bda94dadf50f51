use rebirth::entity_editor::{
    add_create_entity_attribute, add_edit_entity_attribute, remove_create_entity_attribute,
    remove_edit_entity_attribute, renumber_entity_attributes, reorder_dragged_edit_entity_attribute,
    CreateEntitySource, CreateEntityState, EntityDetailsWindow, EntityTab,
};
use rebirth::modals::{api_error_message, is_built_in_access_level, names_from_ids, toggle_id};
use rebirth::template_editor::{
    add_selected_attribute_template, exclude_attribute, exclude_link, incoming_links,
    link_target_candidates, normalize_attribute_listing_indexes, reorder_dragged_attribute,
};
use rebirth::types::{
    AccessLevel, AccessLevelModal, ApiErrorPayload, ApiErrorValue, AttributeTemplate,
    EntityAttribute, EntityTemplate, EntityTemplateAttribute, EntityTemplateAttributeSourceTab,
    EntityTemplateLink, EntityTemplateModal, EntityTemplateTab, SecurityModalMode,
};

fn t_attr(id: &str, listing_index: i32) -> EntityTemplateAttribute {
    EntityTemplateAttribute {
        access_level_id: 1,
        default_value: None,
        description: String::new(),
        id: id.to_string(),
        is_required: false,
        listing_index,
        name: id.to_uppercase(),
        value_type: "text".to_string(),
    }
}

fn t_link(id: &str, listing_index: i32, target: Option<&str>) -> EntityTemplateLink {
    EntityTemplateLink {
        description: None,
        entity_template_id: "e1".to_string(),
        id: id.to_string(),
        listing_index,
        name: id.to_string(),
        target_entity_template_id: target.map(|t| t.to_string()),
    }
}

fn template(id: &str, name: &str) -> EntityTemplate {
    EntityTemplate {
        attributes: vec![],
        description: String::new(),
        id: id.to_string(),
        links: vec![],
        listing_attribute_id: String::new(),
        name: name.to_string(),
        owner_user_id: String::new(),
        owner_username: None,
    }
}

fn attribute_template(id: &str) -> AttributeTemplate {
    AttributeTemplate {
        access_level_id: 3,
        default_value: Some("d".to_string()),
        description: "desc".to_string(),
        id: id.to_string(),
        is_required: true,
        name: format!("{id} name"),
        owner_user_id: String::new(),
        owner_username: None,
        value_type: "number".to_string(),
    }
}

fn editor(attributes: Vec<EntityTemplateAttribute>, listing: &str) -> EntityTemplateModal {
    let mut t = template("e1", "Person");
    t.attributes = attributes;
    t.listing_attribute_id = listing.to_string();
    EntityTemplateModal {
        access_levels: vec![],
        active_tab: EntityTemplateTab::Attributes,
        attribute_source_tab: EntityTemplateAttributeSourceTab::Existing,
        attribute_templates: vec![attribute_template("x1"), attribute_template("x2")],
        can_edit: true,
        dragging_attribute_id: None,
        entity_template: t,
        entity_templates: vec![],
        error: None,
        open_attribute_access_level_menu_id: Some("a".to_string()),
        open_attribute_value_type_menu_id: None,
        open_link_target_menu_id: Some("l".to_string()),
        is_attribute_template_menu_open: true,
        is_attribute_popover_open: true,
        is_delete_confirm_open: false,
        is_info_open: false,
        is_listing_attribute_menu_open: false,
        is_new_attribute_value_type_menu_open: false,
        is_ownership_open: false,
        is_saving: false,
        mode: SecurityModalMode::Edit,
        new_attribute_description: String::new(),
        new_attribute_name: String::new(),
        new_attribute_save_as_template: false,
        new_attribute_value_type: "text".to_string(),
        owner_users: vec![],
        selected_attribute_template_id: None,
        session_key: "key".to_string(),
    }
}

fn ids(attributes: &[EntityTemplateAttribute]) -> Vec<(String, i32)> {
    attributes.iter().map(|a| (a.id.clone(), a.listing_index)).collect()
}

fn e_attr(id: &str, listing_index: i32) -> EntityAttribute {
    EntityAttribute {
        access_level_id: 1,
        description: String::new(),
        id: id.to_string(),
        is_required: false,
        listing_index,
        name: id.to_string(),
        value: String::new(),
        value_type: "text".to_string(),
    }
}

fn e_ids(attributes: &[EntityAttribute]) -> Vec<(String, i32)> {
    attributes.iter().map(|a| (a.id.clone(), a.listing_index)).collect()
}

fn window(attributes: Vec<EntityAttribute>, listing: &str) -> EntityDetailsWindow {
    EntityDetailsWindow {
        id: "w1".to_string(),
        entity_id: "e1".to_string(),
        entity: None,
        active_tab: EntityTab::Links,
        error: None,
        is_loading: false,
        is_delete_confirm_open: false,
        is_info_open: false,
        is_owner_open: false,
        is_edit_mode: true,
        z_index: 1,
        edit_attributes: attributes,
        edit_error: Some("old".to_string()),
        is_saving: false,
        revealed_attribute_ids: vec![],
        edit_open_access_level_menu_id: None,
        edit_open_value_type_menu_id: None,
        edit_listing_attribute_id: listing.to_string(),
        dragged_edit_attribute_id: None,
    }
}

#[test]
fn normalizing_orders_and_numbers_attributes() {
    let mut m = editor(vec![t_attr("b", 7), t_attr("a", 2), t_attr("c", 7)], "a");
    normalize_attribute_listing_indexes(&mut m);
    assert_eq!(
        ids(&m.entity_template.attributes),
        vec![("a".to_string(), 0), ("b".to_string(), 1), ("c".to_string(), 2)]
    );
}

#[test]
fn excluding_the_listing_attribute_picks_the_first_listed() {
    let mut m = editor(vec![t_attr("a", 0), t_attr("b", 5), t_attr("c", 3)], "a");
    exclude_attribute(&mut m, "a");
    assert_eq!(ids(&m.entity_template.attributes), vec![("c".to_string(), 0), ("b".to_string(), 1)]);
    assert_eq!(m.entity_template.listing_attribute_id, "c");
    assert!(m.open_attribute_access_level_menu_id.is_none());

    let mut m = editor(vec![t_attr("a", 0)], "a");
    exclude_attribute(&mut m, "a");
    assert!(m.entity_template.attributes.is_empty());
    assert_eq!(m.entity_template.listing_attribute_id, "");

    let mut m = editor(vec![t_attr("a", 0), t_attr("b", 1)], "b");
    exclude_attribute(&mut m, "a");
    assert_eq!(m.entity_template.listing_attribute_id, "b");
}

#[test]
fn excluding_a_link_renumbers_the_rest() {
    let mut m = editor(vec![], "");
    m.entity_template.links = vec![t_link("l1", 4, None), t_link("l2", 9, None), t_link("l3", 1, None)];
    exclude_link(&mut m, "l2");
    let links: Vec<(String, i32)> =
        m.entity_template.links.iter().map(|l| (l.id.clone(), l.listing_index)).collect();
    assert_eq!(links, vec![("l3".to_string(), 0), ("l1".to_string(), 1)]);
    assert!(m.open_link_target_menu_id.is_none());
}

#[test]
fn dragging_an_attribute_moves_it_to_the_target() {
    let mut m = editor(vec![t_attr("a", 0), t_attr("b", 1), t_attr("c", 2)], "a");
    m.dragging_attribute_id = Some("c".to_string());
    reorder_dragged_attribute(&mut m, "a");
    assert_eq!(
        ids(&m.entity_template.attributes),
        vec![("c".to_string(), 0), ("a".to_string(), 1), ("b".to_string(), 2)]
    );
    m.dragging_attribute_id = Some("zz".to_string());
    reorder_dragged_attribute(&mut m, "a");
    assert!(m.dragging_attribute_id.is_none());
    assert_eq!(m.entity_template.attributes[0].id, "c");
}

#[test]
fn including_an_attribute_template() {
    let mut m = editor(vec![t_attr("a", 4)], "");
    add_selected_attribute_template(&mut m);
    let added = &m.entity_template.attributes[1];
    assert_eq!((added.id.as_str(), added.listing_index), ("x1", 5));
    assert_eq!((added.access_level_id, added.is_required), (3, true));
    assert_eq!(added.default_value.as_deref(), Some("d"));
    assert_eq!(m.entity_template.listing_attribute_id, "x1");
    assert!(!m.is_attribute_popover_open && !m.is_attribute_template_menu_open);

    m.is_attribute_popover_open = true;
    m.selected_attribute_template_id = Some("x1".to_string());
    add_selected_attribute_template(&mut m);
    assert_eq!(m.entity_template.attributes.len(), 2);
    assert!(!m.is_attribute_popover_open);

    m.selected_attribute_template_id = Some("x2".to_string());
    add_selected_attribute_template(&mut m);
    assert_eq!(m.entity_template.attributes[2].id, "x2");
    assert_eq!(m.entity_template.listing_attribute_id, "x1");
}

#[test]
fn link_targets_and_incoming_links() {
    let mut person = template("p", "Person");
    person.links = vec![t_link("knows", 1, Some("p")), t_link("lives", 0, Some("c"))];
    let mut company = template("c", "Company");
    company.links = vec![t_link("owner", 0, Some("p"))];
    let all = vec![person.clone(), company.clone(), template("b", "Building")];

    let targets = link_target_candidates(&all, "p");
    let names: Vec<&str> = targets.iter().map(|t| t.name.as_str()).collect();
    assert_eq!(names, vec!["Building", "Company"]);
    assert_eq!(link_target_candidates(&all, "").len(), 3);

    let incoming = incoming_links(&person, &all);
    let pairs: Vec<(&str, &str)> = incoming.iter().map(|(l, s)| (l.id.as_str(), s.name.as_str())).collect();
    assert_eq!(pairs, vec![("owner", "Company"), ("knows", "Person")]);
}

#[test]
fn entity_attributes_are_added_and_removed_while_editing() {
    let mut w = window(vec![e_attr("a", 0)], "");
    add_edit_entity_attribute(&mut w, 5, "n1".to_string());
    assert_eq!(e_ids(&w.edit_attributes), vec![("a".to_string(), 0), ("n1".to_string(), 1)]);
    assert_eq!(w.edit_attributes[1].access_level_id, 5);
    assert_eq!(w.edit_listing_attribute_id, "n1");
    assert_eq!(w.active_tab, EntityTab::Attributes);
    assert!(w.edit_error.is_none());

    remove_edit_entity_attribute(&mut w, "n1");
    assert_eq!(e_ids(&w.edit_attributes), vec![("a".to_string(), 0)]);
    assert_eq!(w.edit_listing_attribute_id, "a");
    remove_edit_entity_attribute(&mut w, "a");
    assert_eq!(w.edit_attributes.len(), 1);
}

#[test]
fn edited_attributes_can_be_dragged() {
    let mut w = window(vec![e_attr("a", 0), e_attr("b", 1), e_attr("c", 2)], "a");
    w.dragged_edit_attribute_id = Some("a".to_string());
    reorder_dragged_edit_entity_attribute(&mut w, "c");
    assert_eq!(
        e_ids(&w.edit_attributes),
        vec![("b".to_string(), 0), ("c".to_string(), 1), ("a".to_string(), 2)]
    );
    let mut list = vec![e_attr("x", 9), e_attr("y", 3)];
    renumber_entity_attributes(&mut list);
    assert_eq!(e_ids(&list), vec![("x".to_string(), 0), ("y".to_string(), 1)]);
}

#[test]
fn scratch_attributes_are_numbered() {
    let mut state = CreateEntityState {
        source: CreateEntitySource::Scratch,
        entity_template_id: String::new(),
        attributes: vec![],
        listing_attribute_id: String::new(),
        error: None,
        is_saving: false,
        active_tab: EntityTab::Links,
        open_access_level_menu_id: None,
        open_value_type_menu_id: None,
        is_listing_attribute_menu_open: true,
    };
    add_create_entity_attribute(&mut state, 2);
    add_create_entity_attribute(&mut state, 2);
    assert_eq!(e_ids(&state.attributes), vec![("new-0".to_string(), 0), ("new-1".to_string(), 1)]);
    assert_eq!(state.listing_attribute_id, "new-0");
    assert!(!state.is_listing_attribute_menu_open);
    remove_create_entity_attribute(&mut state, "new-0");
    assert_eq!(e_ids(&state.attributes), vec![("new-1".to_string(), 0)]);
    assert_eq!(state.listing_attribute_id, "new-1");
}

#[test]
fn picker_selections_toggle_and_show_names() {
    let mut chosen = vec![1u32, 3];
    toggle_id(&mut chosen, 2);
    assert_eq!(chosen, vec![1, 3, 2]);
    toggle_id(&mut chosen, 3);
    assert_eq!(chosen, vec![1, 2]);
    let levels = vec![
        AccessLevel { description: String::new(), id: 2, name: "Team".to_string() },
        AccessLevel { description: String::new(), id: 1, name: "Public".to_string() },
        AccessLevel { description: String::new(), id: 9, name: "Other".to_string() },
    ];
    assert_eq!(names_from_ids(&chosen, &levels), "Team, Public");
}

#[test]
fn built_in_levels_and_error_messages() {
    let mut m = AccessLevelModal {
        description: String::new(),
        error: None,
        id: Some(4),
        is_delete_confirm_open: false,
        is_info_open: false,
        is_saving: false,
        mode: SecurityModalMode::Details,
        name: "Owner View".to_string(),
        session_key: String::new(),
    };
    assert!(is_built_in_access_level(&m));
    m.id = Some(5);
    assert!(!is_built_in_access_level(&m));
    m.id = None;
    assert!(!is_built_in_access_level(&m));

    let details = ApiErrorPayload { error: ApiErrorValue::Details { message: "taken".to_string() } };
    assert_eq!(api_error_message(Some(details), "fallback"), "taken");
    let plain = ApiErrorPayload { error: ApiErrorValue::Message("nope".to_string()) };
    assert_eq!(api_error_message(Some(plain), "fallback"), "nope");
    assert_eq!(api_error_message(None, "fallback"), "fallback");
}
