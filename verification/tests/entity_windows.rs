use rebirth::entity_editor::{CreateEntitySource, CreateEntityState, EntityDetailsWindow, EntityTab};
use rebirth::entity_flows::{
    default_entity_attribute_access_level_id, entity_window_saved, new_entity_saved,
    save_entity_window, save_new_entity,
};
use rebirth::types::{AccessLevel, Entity, EntityAttribute, EntityLink};
use rebirth::window_edits::{
    apply_window_edit, can_save_entity_window, edit_entity_window, entity_window_title, WindowEdit,
};

fn level(id: u32, name: &str) -> AccessLevel {
    AccessLevel { description: String::new(), id, name: name.to_string() }
}

fn attribute(id: &str, name: &str, value: &str) -> EntityAttribute {
    EntityAttribute {
        access_level_id: 1,
        description: String::new(),
        id: id.to_string(),
        is_required: false,
        listing_index: 0,
        name: name.to_string(),
        value: value.to_string(),
        value_type: "text".to_string(),
    }
}

fn entity(id: &str) -> Entity {
    Entity {
        id: id.to_string(),
        owner_user_id: "u1".to_string(),
        owner_username: None,
        attributes: vec![attribute("a1", "Name", "Ada")],
        listing_attribute_id: "a1".to_string(),
        links: vec![EntityLink {
            id: "l1".to_string(),
            entity_id: id.to_string(),
            target_entity_id: None,
            target_entity_label: None,
            name: " knows ".to_string(),
            description: None,
            listing_index: 2,
        }],
        incoming_links: None,
        incoming_links_count: None,
        outgoing_links_count: None,
    }
}

fn window(id: &str, entity_id: &str) -> EntityDetailsWindow {
    EntityDetailsWindow {
        id: id.to_string(),
        entity_id: entity_id.to_string(),
        entity: Some(entity(entity_id)),
        active_tab: EntityTab::Inlinks,
        error: None,
        is_loading: false,
        is_delete_confirm_open: false,
        is_info_open: true,
        is_owner_open: false,
        is_edit_mode: false,
        z_index: 30,
        edit_attributes: vec![],
        edit_error: None,
        is_saving: false,
        revealed_attribute_ids: vec![],
        edit_open_access_level_menu_id: None,
        edit_open_value_type_menu_id: None,
        edit_listing_attribute_id: String::new(),
        dragged_edit_attribute_id: None,
    }
}

fn create_state() -> CreateEntityState {
    CreateEntityState {
        source: CreateEntitySource::Template,
        entity_template_id: "t1".to_string(),
        attributes: vec![attribute("a1", " Name ", "Ada")],
        listing_attribute_id: "a1".to_string(),
        error: None,
        is_saving: false,
        active_tab: EntityTab::Attributes,
        open_access_level_menu_id: None,
        open_value_type_menu_id: None,
        is_listing_attribute_menu_open: false,
    }
}

#[test]
fn new_attributes_default_to_the_public_level() {
    assert_eq!(default_entity_attribute_access_level_id(&vec![level(3, "Team"), level(7, "PUBLIC")]), 7);
    assert_eq!(default_entity_attribute_access_level_id(&vec![level(3, "Team")]), 3);
    assert_eq!(default_entity_attribute_access_level_id(&vec![]), 1);
}

#[test]
fn editing_starts_from_the_loaded_entity() {
    let mut w = window("w1", "e1");
    assert_eq!(entity_window_title(&w), "Entity");
    assert!(!can_save_entity_window(&w));
    apply_window_edit(&mut w, WindowEdit::StartEdit);
    assert!(w.is_edit_mode);
    assert_eq!(w.active_tab, EntityTab::Attributes);
    assert!(!w.is_info_open);
    assert_eq!(w.edit_attributes.len(), 1);
    assert_eq!(w.edit_listing_attribute_id, "a1");
    assert_eq!(entity_window_title(&w), "Entity :: Edit");
    assert!(can_save_entity_window(&w));

    apply_window_edit(&mut w, WindowEdit::AttributeName("a1".to_string(), "  ".to_string()));
    assert!(!can_save_entity_window(&w));
    apply_window_edit(&mut w, WindowEdit::AttributeName("zz".to_string(), "x".to_string()));
    assert_eq!(w.edit_attributes[0].name, "  ");
    apply_window_edit(&mut w, WindowEdit::AttributeValueType("a1".to_string(), "number".to_string()));
    assert_eq!(w.edit_attributes[0].value_type, "number");
    assert_eq!(w.edit_attributes[0].value, "");
    apply_window_edit(&mut w, WindowEdit::AttributeAccessLevel("a1".to_string(), "12".to_string()));
    assert_eq!(w.edit_attributes[0].access_level_id, 12);
    apply_window_edit(&mut w, WindowEdit::AttributeAccessLevel("a1".to_string(), "x".to_string()));
    assert_eq!(w.edit_attributes[0].access_level_id, 12);
    apply_window_edit(&mut w, WindowEdit::CancelEdit);
    assert!(!w.is_edit_mode);
}

#[test]
fn menus_and_reveals_toggle() {
    let mut w = window("w1", "e1");
    apply_window_edit(&mut w, WindowEdit::ToggleValueTypeMenu("a1".to_string()));
    assert_eq!(w.edit_open_value_type_menu_id.as_deref(), Some("a1"));
    apply_window_edit(&mut w, WindowEdit::ToggleAccessLevelMenu("a1".to_string()));
    assert_eq!(w.edit_open_value_type_menu_id, None);
    assert_eq!(w.edit_open_access_level_menu_id.as_deref(), Some("a1"));
    apply_window_edit(&mut w, WindowEdit::ToggleAccessLevelMenu("a1".to_string()));
    assert_eq!(w.edit_open_access_level_menu_id, None);
    apply_window_edit(&mut w, WindowEdit::ToggleReveal("a1".to_string()));
    assert_eq!(w.revealed_attribute_ids, vec!["a1".to_string()]);
    apply_window_edit(&mut w, WindowEdit::ToggleReveal("a1".to_string()));
    assert!(w.revealed_attribute_ids.is_empty());
    apply_window_edit(&mut w, WindowEdit::Tab(EntityTab::Links));
    assert_eq!(w.active_tab, EntityTab::Links);
}

#[test]
fn edits_reach_only_the_named_window() {
    let mut windows = vec![window("w1", "e1"), window("w2", "e2")];
    edit_entity_window(&mut windows, "w2", WindowEdit::ToggleInfo);
    assert!(windows[0].is_info_open);
    assert!(!windows[1].is_info_open);
    edit_entity_window(&mut windows, "w9", WindowEdit::ToggleInfo);
    assert!(!windows[1].is_info_open);
}

#[test]
fn saving_a_window_sends_its_edits() {
    let mut windows = vec![window("w1", "e1")];
    edit_entity_window(&mut windows, "w1", WindowEdit::StartEdit);
    edit_entity_window(&mut windows, "w1", WindowEdit::AttributeValue("a1".to_string(), "Grace".to_string()));
    let body = save_entity_window(&mut windows, "w1");
    assert!(windows[0].is_saving);
    assert_eq!(
        body,
        "{\"attributes\":[{\"accessLevelId\":1,\"description\":\"\",\"id\":\"a1\",\"isRequired\":false,\"listingIndex\":0,\"name\":\"Name\",\"value\":\"Grace\",\"valueType\":\"text\"}],\"listingAttributeId\":\"a1\",\"links\":[{\"description\":null,\"listingIndex\":2,\"name\":\"knows\",\"targetEntityId\":null}]}"
    );
    assert_eq!(
        save_entity_window(&mut windows, "none"),
        "{\"attributes\":[],\"listingAttributeId\":\"\",\"links\":[]}"
    );
}

#[test]
fn a_saved_window_shows_the_saved_entity() {
    let mut windows = vec![window("w1", "e1")];
    edit_entity_window(&mut windows, "w1", WindowEdit::StartEdit);
    save_entity_window(&mut windows, "w1");
    let mut entities = vec![entity("e0"), entity("e1")];
    let mut saved = entity("e1");
    saved.attributes[0].value = "Grace".to_string();
    entity_window_saved(&mut windows, "w1", &mut entities, "e1", Ok(saved));
    assert_eq!(entities[1].attributes[0].value, "Grace");
    assert_eq!(entities[0].attributes[0].value, "Ada");
    assert!(!windows[0].is_saving && !windows[0].is_edit_mode);
    assert_eq!(windows[0].entity.as_ref().map(|e| e.attributes[0].value.as_str()), Some("Grace"));

    edit_entity_window(&mut windows, "w1", WindowEdit::StartEdit);
    save_entity_window(&mut windows, "w1");
    entity_window_saved(&mut windows, "w1", &mut entities, "e1", Err("rejected".to_string()));
    assert_eq!(windows[0].edit_error.as_deref(), Some("rejected"));
    assert!(windows[0].is_edit_mode && !windows[0].is_saving);
}

#[test]
fn a_new_entity_is_created_and_listed() {
    let mut state = Some(create_state());
    let body = save_new_entity(&mut state, "u1");
    assert_eq!(
        body,
        "{\"attributes\":[{\"name\":\"Name\",\"value\":\"Ada\",\"valueType\":\"text\",\"accessLevelId\":1,\"isRequired\":false,\"description\":\"\",\"listingIndex\":0}],\"entityTemplateId\":\"t1\",\"ownerUserId\":\"u1\",\"listingAttributeId\":\"a1\"}"
    );
    assert!(state.as_ref().map(|s| s.is_saving).unwrap_or(false));
    let mut entities = vec![];
    new_entity_saved(&mut state, &mut entities, Err("invalid".to_string()));
    assert_eq!(state.as_ref().and_then(|s| s.error.clone()).as_deref(), Some("invalid"));
    new_entity_saved(&mut state, &mut entities, Ok(entity("e5")));
    assert!(state.is_none());
    assert_eq!(entities.len(), 1);

    let mut none: Option<CreateEntityState> = None;
    assert_eq!(save_new_entity(&mut none, ""), "{\"attributes\":[]}");
}
