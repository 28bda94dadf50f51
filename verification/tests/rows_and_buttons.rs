use rebirth::attribute_template_flows::{
    is_attribute_template_save_button_disabled, is_attribute_template_save_disabled,
    open_attribute_template_modal,
};
use rebirth::entity_editor::{CreateEntitySource, CreateEntityState, EntityDetailsWindow, EntityTab};
use rebirth::entity_flows::{can_save_create_entity, create_entity_default_access_level_id, is_create_entity_complete};
use rebirth::entity_template_flows::{
    can_save_entity_template, edit_entity_template_modal, is_entity_template_save_enabled,
    open_create_entity_template_modal, EntityTemplateEdit,
};
use rebirth::explorer::{is_next_page_disabled, is_pager_shown, is_previous_page_disabled};
use rebirth::permissions::can_use_restricted_actions;
use rebirth::stack::OpenModal;
use rebirth::template_rows::{
    edit_included_attribute, edit_template_link, link_target_summary, IncludedAttributeEdit,
    TemplateLinkEdit,
};
use rebirth::types::{
    AccessLevel, AuthSession, Entity, EntityAttribute, EntityIncomingLink, EntityLink,
    EntityTemplate, EntityTemplateAttribute, EntityTemplateLink, EntityTemplateModal, ModalContent,
    Permission, User,
};
use rebirth::window_content::{entity_window_body, EntityWindowBody};
use rebirth::window_edits::{can_save_entity_window, is_entity_window_save_enabled, is_remove_edit_attribute_disabled};

fn level(id: u32, name: &str) -> AccessLevel {
    AccessLevel { description: String::new(), id, name: name.to_string() }
}

fn e_attr(id: &str, name: &str, level_id: u32, listing_index: i32) -> EntityAttribute {
    EntityAttribute {
        access_level_id: level_id,
        description: String::new(),
        id: id.to_string(),
        is_required: false,
        listing_index,
        name: name.to_string(),
        value: format!("{id}-value"),
        value_type: "text".to_string(),
    }
}

fn window() -> EntityDetailsWindow {
    EntityDetailsWindow {
        id: "w1".to_string(),
        entity_id: "e1".to_string(),
        entity: None,
        active_tab: EntityTab::Attributes,
        error: None,
        is_loading: false,
        is_delete_confirm_open: false,
        is_info_open: false,
        is_owner_open: false,
        is_edit_mode: true,
        z_index: 1,
        edit_attributes: vec![e_attr("a", "A", 1, 0), e_attr("b", "B", 1, 1)],
        edit_error: None,
        is_saving: false,
        revealed_attribute_ids: vec![],
        edit_open_access_level_menu_id: None,
        edit_open_value_type_menu_id: None,
        edit_listing_attribute_id: "a".to_string(),
        dragged_edit_attribute_id: None,
    }
}

fn form(modals: &[OpenModal]) -> &EntityTemplateModal {
    match &modals[0].content {
        ModalContent::EntityTemplate(m) => m,
        _ => panic!("not an entity template modal"),
    }
}

fn template_form() -> (Vec<OpenModal>, u32) {
    let mut modals = vec![];
    let mut next = 1u32;
    let id = open_create_entity_template_modal(
        &mut modals,
        &mut next,
        "key".to_string(),
        vec![],
        vec![],
        vec![],
        vec![],
        Some("u1".to_string()),
    );
    edit_entity_template_modal(&mut modals, id, EntityTemplateEdit::Name("Person".to_string()));
    if let ModalContent::EntityTemplate(m) = &mut modals[0].content {
        m.entity_template.attributes = vec![
            EntityTemplateAttribute {
                access_level_id: 1,
                default_value: None,
                description: String::new(),
                id: "a1".to_string(),
                is_required: false,
                listing_index: 0,
                name: "Name".to_string(),
                value_type: "text".to_string(),
            },
        ];
        m.entity_template.listing_attribute_id = "a1".to_string();
        m.entity_template.links = vec![EntityTemplateLink {
            description: Some("old".to_string()),
            entity_template_id: String::new(),
            id: "l1".to_string(),
            listing_index: 0,
            name: "knows".to_string(),
            target_entity_template_id: Some("t1".to_string()),
        }];
    }
    (modals, id)
}

#[test]
fn save_buttons_wait_for_the_running_save() {
    let (mut modals, id) = template_form();
    assert!(can_save_entity_template(form(&modals)));
    assert!(is_entity_template_save_enabled(form(&modals)));
    edit_entity_template_modal(&mut modals, id, EntityTemplateEdit::Status(true, None));
    assert!(can_save_entity_template(form(&modals)));
    assert!(!is_entity_template_save_enabled(form(&modals)));

    let mut w = window();
    assert!(can_save_entity_window(&w) && is_entity_window_save_enabled(&w));
    w.is_saving = true;
    assert!(can_save_entity_window(&w) && !is_entity_window_save_enabled(&w));

    let mut modals = vec![];
    let mut next = 1u32;
    open_attribute_template_modal(&mut modals, &mut next, "key".to_string(), vec![], vec![], None, true, true);
    let mut m = match &modals[0].content {
        ModalContent::AttributeTemplate(m) => m.clone(),
        _ => panic!("not an attribute template modal"),
    };
    assert!(is_attribute_template_save_disabled(&m) && is_attribute_template_save_button_disabled(&m));
    m.name = "Colour".to_string();
    assert!(!is_attribute_template_save_button_disabled(&m));
    m.is_saving = true;
    assert!(!is_attribute_template_save_disabled(&m) && is_attribute_template_save_button_disabled(&m));
}

#[test]
fn remove_button_keeps_the_last_attribute() {
    let mut w = window();
    assert!(!is_remove_edit_attribute_disabled(&w));
    w.is_saving = true;
    assert!(is_remove_edit_attribute_disabled(&w));
    w.is_saving = false;
    w.edit_attributes.truncate(1);
    assert!(is_remove_edit_attribute_disabled(&w));
}

#[test]
fn pager_shows_beyond_ten_entities() {
    assert!(!is_pager_shown(10));
    assert!(is_pager_shown(11));
    assert!(is_previous_page_disabled(1));
    assert!(!is_previous_page_disabled(2));
    assert!(is_next_page_disabled(2, 11));
    assert!(!is_next_page_disabled(1, 11));
}

#[test]
fn create_entity_save_and_default_level() {
    let mut state = CreateEntityState {
        source: CreateEntitySource::Scratch,
        entity_template_id: String::new(),
        attributes: vec![],
        listing_attribute_id: String::new(),
        error: None,
        is_saving: false,
        active_tab: EntityTab::Attributes,
        open_access_level_menu_id: None,
        open_value_type_menu_id: None,
        is_listing_attribute_menu_open: false,
    };
    assert!(!can_save_create_entity(&state));
    state.attributes = vec![e_attr("a", " ", 1, 0)];
    state.listing_attribute_id = "a".to_string();
    assert!(!is_create_entity_complete(&state));
    state.attributes[0].name = "Name".to_string();
    assert!(can_save_create_entity(&state));
    state.is_saving = true;
    assert!(is_create_entity_complete(&state) && !can_save_create_entity(&state));
    assert_eq!(create_entity_default_access_level_id(&vec![level(7, "Team"), level(1, "Public")]), 7);
    assert_eq!(create_entity_default_access_level_id(&vec![]), 4);
}

#[test]
fn included_attribute_rows_edit_their_attribute() {
    let (mut modals, id) = template_form();
    edit_included_attribute(&mut modals, id, "a1", IncludedAttributeEdit::Name("Full name".to_string()));
    assert_eq!(form(&modals).entity_template.attributes[0].name, "Full name");
    edit_included_attribute(&mut modals, id, "a1", IncludedAttributeEdit::ToggleValueTypeMenu);
    assert_eq!(form(&modals).open_attribute_value_type_menu_id.as_deref(), Some("a1"));
    edit_included_attribute(&mut modals, id, "a1", IncludedAttributeEdit::ValueType("number".to_string()));
    assert_eq!(form(&modals).entity_template.attributes[0].value_type, "number");
    assert!(form(&modals).open_attribute_value_type_menu_id.is_none());
    edit_included_attribute(&mut modals, id, "a1", IncludedAttributeEdit::ToggleAccessLevelMenu);
    edit_included_attribute(&mut modals, id, "a1", IncludedAttributeEdit::AccessLevel("x".to_string()));
    assert_eq!(form(&modals).entity_template.attributes[0].access_level_id, 1);
    assert!(form(&modals).open_attribute_access_level_menu_id.is_none());
    edit_included_attribute(&mut modals, id, "a1", IncludedAttributeEdit::AccessLevel("9".to_string()));
    assert_eq!(form(&modals).entity_template.attributes[0].access_level_id, 9);
    edit_included_attribute(&mut modals, id, "a1", IncludedAttributeEdit::StartDrag);
    assert_eq!(form(&modals).dragging_attribute_id.as_deref(), Some("a1"));
    edit_included_attribute(&mut modals, id, "a1", IncludedAttributeEdit::EndDrag);
    assert!(form(&modals).dragging_attribute_id.is_none());
    edit_included_attribute(&mut modals, id, "zz", IncludedAttributeEdit::Name("x".to_string()));
    assert_eq!(form(&modals).entity_template.attributes[0].name, "Full name");
}

#[test]
fn link_rows_edit_their_link() {
    let (mut modals, id) = template_form();
    edit_template_link(&mut modals, id, "l1", TemplateLinkEdit::Name("works at".to_string()));
    edit_template_link(&mut modals, id, "l1", TemplateLinkEdit::Description(String::new()));
    assert_eq!(form(&modals).entity_template.links[0].name, "works at");
    assert!(form(&modals).entity_template.links[0].description.is_none());
    edit_template_link(&mut modals, id, "l1", TemplateLinkEdit::ToggleTargetMenu);
    assert_eq!(form(&modals).open_link_target_menu_id.as_deref(), Some("l1"));
    edit_template_link(&mut modals, id, "l1", TemplateLinkEdit::Target("t2".to_string()));
    assert_eq!(form(&modals).entity_template.links[0].target_entity_template_id.as_deref(), Some("t2"));
    assert!(form(&modals).open_link_target_menu_id.is_none());

    let candidate = EntityTemplate {
        attributes: vec![],
        description: String::new(),
        id: "t2".to_string(),
        links: vec![],
        listing_attribute_id: String::new(),
        name: "Company".to_string(),
        owner_user_id: String::new(),
        owner_username: None,
    };
    assert_eq!(link_target_summary(&vec![candidate.clone()], Some("t2")), "Company");
    assert_eq!(link_target_summary(&vec![candidate], Some("t9")), "");
}

#[test]
fn entity_window_body_follows_the_window_state() {
    let levels = vec![level(1, "Public"), level(2, "Team")];
    let mut w = window();
    w.is_loading = true;
    assert!(matches!(entity_window_body(&w, None, &levels), EntityWindowBody::Loading));
    w.is_loading = false;
    w.error = Some("gone".to_string());
    assert!(matches!(entity_window_body(&w, None, &levels), EntityWindowBody::Failed(m) if m == "gone"));
    w.error = None;
    assert!(matches!(entity_window_body(&w, None, &levels), EntityWindowBody::NoData));

    w.entity = Some(Entity {
        id: "e1".to_string(),
        owner_user_id: "u9".to_string(),
        owner_username: None,
        attributes: vec![e_attr("x", "Secret", 2, 5), e_attr("y", "Open", 1, 1)],
        listing_attribute_id: "x".to_string(),
        links: vec![
            EntityLink {
                id: "l2".to_string(),
                entity_id: "e1".to_string(),
                target_entity_id: None,
                target_entity_label: None,
                name: "b".to_string(),
                description: None,
                listing_index: 3,
            },
            EntityLink {
                id: "l1".to_string(),
                entity_id: "e1".to_string(),
                target_entity_id: None,
                target_entity_label: None,
                name: "a".to_string(),
                description: None,
                listing_index: 0,
            },
        ],
        incoming_links: Some(vec![EntityIncomingLink {
            id: "i1".to_string(),
            description: None,
            listing_index: 0,
            name: "from".to_string(),
            source_entity_id: "e2".to_string(),
            source_entity_label: "E2".to_string(),
        }]),
        incoming_links_count: None,
        outgoing_links_count: None,
    });
    w.is_edit_mode = false;
    let viewer = AuthSession {
        session_key: "key".to_string(),
        user: User {
            access_levels: vec![level(2, "Team")],
            email: String::new(),
            first_name: String::new(),
            id: "u1".to_string(),
            last_name: String::new(),
            permissions: vec![Permission { description: String::new(), id: 1, name: "Viewer".to_string() }],
            username: "ada".to_string(),
        },
    };
    match entity_window_body(&w, Some(&viewer), &levels) {
        EntityWindowBody::Content(c) => {
            assert_eq!(c.listing_attribute_name, "Secret");
            assert_eq!(c.listing_attribute_value, "******");
            let ids: Vec<&str> = c.attributes.iter().map(|a| a.id.as_str()).collect();
            assert_eq!(ids, vec!["y", "x"]);
            let links: Vec<&str> = c.links.iter().map(|l| l.id.as_str()).collect();
            assert_eq!(links, vec!["l1", "l2"]);
            assert_eq!(c.incoming_links.len(), 1);
            assert!(c.shows_inlinks_tab);
            assert_eq!(c.default_access_level_id, 1);
        }
        other => panic!("unexpected {other:?}"),
    }
    w.revealed_attribute_ids = vec!["x".to_string()];
    w.is_edit_mode = true;
    match entity_window_body(&w, Some(&viewer), &levels) {
        EntityWindowBody::Content(c) => {
            assert_eq!(c.listing_attribute_value, "x-value");
            let ids: Vec<&str> = c.attributes.iter().map(|a| a.id.as_str()).collect();
            assert_eq!(ids, vec!["a", "b"]);
            assert!(!c.shows_inlinks_tab);
        }
        other => panic!("unexpected {other:?}"),
    }
}

#[test]
fn restricted_actions_need_a_restricted_visible_value() {
    let levels = vec![level(1, "Public"), level(2, "Team")];
    let viewer = AuthSession {
        session_key: "key".to_string(),
        user: User {
            access_levels: vec![level(2, "Team")],
            email: String::new(),
            first_name: String::new(),
            id: "u1".to_string(),
            last_name: String::new(),
            permissions: vec![],
            username: "ada".to_string(),
        },
    };
    let entity = Entity {
        id: "e1".to_string(),
        owner_user_id: "u9".to_string(),
        owner_username: None,
        attributes: vec![],
        listing_attribute_id: String::new(),
        links: vec![],
        incoming_links: None,
        incoming_links_count: None,
        outgoing_links_count: None,
    };
    assert!(can_use_restricted_actions(Some(&viewer), &entity, &e_attr("x", "X", 2, 0), &levels));
    assert!(!can_use_restricted_actions(Some(&viewer), &entity, &e_attr("x", "X", 1, 0), &levels));
    assert!(!can_use_restricted_actions(None, &entity, &e_attr("x", "X", 2, 0), &levels));
}
