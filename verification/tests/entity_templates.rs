use rebirth::entity_template_flows::{
    access_level_name, add_sorted_attribute_template, can_save_entity_template,
    default_attribute_access_level_id, delete_entity_template_request, edit_entity_template_modal,
    entity_template_deleted, entity_template_saved, include_new_attribute, linked_entity_template,
    new_attribute_template_created, open_create_entity_template_modal, open_entity_template_modal,
    owner_label, save_entity_template_modal, EntityTemplateEdit, TemplateRequest,
};
use rebirth::stack::OpenModal;
use rebirth::template_editor::add_entity_template_link;
use rebirth::types::{
    AccessLevel, AttributeTemplate, EntityTemplate, EntityTemplateAttribute, EntityTemplateLink,
    EntityTemplateModal, ModalContent, SecurityModalMode, User,
};

fn level(id: u32, name: &str) -> AccessLevel {
    AccessLevel { description: String::new(), id, name: name.to_string() }
}

fn user(id: &str, username: &str) -> User {
    User {
        access_levels: vec![],
        email: String::new(),
        first_name: String::new(),
        id: id.to_string(),
        last_name: String::new(),
        permissions: vec![],
        username: username.to_string(),
    }
}

fn entity_template(id: &str, name: &str) -> EntityTemplate {
    EntityTemplate {
        attributes: vec![],
        description: String::new(),
        id: id.to_string(),
        links: vec![],
        listing_attribute_id: String::new(),
        name: name.to_string(),
        owner_user_id: "u1".to_string(),
        owner_username: None,
    }
}

fn attribute(id: &str, name: &str, listing_index: i32) -> EntityTemplateAttribute {
    EntityTemplateAttribute {
        access_level_id: 1,
        default_value: None,
        description: String::new(),
        id: id.to_string(),
        is_required: false,
        listing_index,
        name: name.to_string(),
        value_type: "text".to_string(),
    }
}

fn attribute_template(id: &str, name: &str) -> AttributeTemplate {
    AttributeTemplate {
        access_level_id: 1,
        default_value: None,
        description: String::new(),
        id: id.to_string(),
        is_required: false,
        name: name.to_string(),
        owner_user_id: "u1".to_string(),
        owner_username: None,
        value_type: "text".to_string(),
    }
}

fn form(modals: &[OpenModal], k: usize) -> &EntityTemplateModal {
    match &modals[k].content {
        ModalContent::EntityTemplate(m) => m,
        _ => panic!("not an entity template modal"),
    }
}

fn new_form(modals: &mut Vec<OpenModal>, levels: Vec<AccessLevel>) -> u32 {
    let mut next = 1u32;
    open_create_entity_template_modal(
        modals,
        &mut next,
        "key".to_string(),
        vec![],
        vec![entity_template("e9", "Place")],
        levels,
        vec![],
        Some("u1".to_string()),
    )
}

#[test]
fn access_level_names_and_default_level() {
    let levels = vec![level(2, "Team"), level(5, "Public")];
    assert_eq!(access_level_name(&levels, 5), "Public");
    assert_eq!(access_level_name(&levels, 8), "8");
    assert_eq!(default_attribute_access_level_id(&levels), 2);
    assert_eq!(default_attribute_access_level_id(&vec![]), 4);
}

#[test]
fn linked_template_is_found_by_id() {
    let list = vec![entity_template("a", "Person"), entity_template("b", "Place")];
    assert_eq!(linked_entity_template(&list, Some("b")).map(|t| t.name), Some("Place".to_string()));
    assert!(linked_entity_template(&list, Some("z")).is_none());
    assert!(linked_entity_template(&list, None).is_none());
}

#[test]
fn owner_of_a_template_is_shown_by_name() {
    let mut modals = vec![];
    let mut next = 1u32;
    open_entity_template_modal(
        &mut modals,
        &mut next,
        "key".to_string(),
        vec![],
        vec![],
        vec![],
        vec![user("u1", "ada")],
        entity_template("e1", "Person"),
        true,
    );
    assert_eq!(form(&modals, 0).mode, SecurityModalMode::Details);
    assert_eq!(owner_label(form(&modals, 0)), "ada");
    let mut other = form(&modals, 0).clone();
    other.entity_template.owner_user_id = "u4".to_string();
    assert_eq!(owner_label(&other), "u4");
}

#[test]
fn save_errors_come_in_order() {
    let mut modals = vec![];
    let id = new_form(&mut modals, vec![level(3, "Public")]);
    assert_eq!(modals[0].title, "Entity Template :: New");
    assert!(!can_save_entity_template(form(&modals, 0)));
    assert!(save_entity_template_modal(&mut modals, id).is_none());
    assert_eq!(form(&modals, 0).error.as_deref(), Some("Name is required"));

    edit_entity_template_modal(&mut modals, id, EntityTemplateEdit::Name(" Person ".to_string()));
    save_entity_template_modal(&mut modals, id);
    assert_eq!(form(&modals, 0).error.as_deref(), Some("Include at least one attribute"));

    edit_entity_template_modal(&mut modals, id, EntityTemplateEdit::NewAttributeName("  ".to_string()));
    assert!(include_new_attribute(&mut modals, id, "a1".to_string()).is_none());
    assert_eq!(form(&modals, 0).error.as_deref(), Some("Attribute name is required"));
}

#[test]
fn new_attribute_is_included_and_becomes_the_listing_attribute() {
    let mut modals = vec![];
    let id = new_form(&mut modals, vec![level(3, "Public")]);
    edit_entity_template_modal(&mut modals, id, EntityTemplateEdit::Name("Person".to_string()));
    edit_entity_template_modal(
        &mut modals,
        id,
        EntityTemplateEdit::NewAttributeName(" Full name ".to_string()),
    );
    assert!(include_new_attribute(&mut modals, id, "a1".to_string()).is_none());
    let t = &form(&modals, 0).entity_template;
    assert_eq!(t.attributes.len(), 1);
    assert_eq!(t.attributes[0].name, "Full name");
    assert_eq!(t.attributes[0].id, "a1");
    assert_eq!(t.attributes[0].listing_index, 0);
    assert_eq!(t.attributes[0].access_level_id, 3);
    assert_eq!(t.attributes[0].value_type, "text");
    assert_eq!(t.listing_attribute_id, "a1");
    assert!(form(&modals, 0).new_attribute_name.is_empty());
    assert!(can_save_entity_template(form(&modals, 0)));

    match save_entity_template_modal(&mut modals, id) {
        Some(TemplateRequest::SaveEntityTemplate { id, session_key, body }) => {
            assert_eq!(id, None);
            assert_eq!(session_key, "key");
            assert_eq!(
                body,
                "{\"attributes\":[{\"accessLevelId\":3,\"description\":\"\",\"id\":\"a1\",\"isRequired\":false,\"listingIndex\":0,\"name\":\"Full name\",\"valueType\":\"text\"}],\"description\":\"\",\"links\":[],\"listingAttributeId\":\"a1\",\"name\":\"Person\",\"ownerUserId\":\"u1\" }"
            );
        }
        other => panic!("unexpected {other:?}"),
    }
    assert!(form(&modals, 0).is_saving);
}

#[test]
fn links_need_names_before_saving() {
    let mut modals = vec![];
    let id = new_form(&mut modals, vec![]);
    edit_entity_template_modal(&mut modals, id, EntityTemplateEdit::Name("Person".to_string()));
    edit_entity_template_modal(&mut modals, id, EntityTemplateEdit::NewAttributeName("Name".to_string()));
    include_new_attribute(&mut modals, id, "a1".to_string());
    let mut m = form(&modals, 0).clone();
    add_entity_template_link(&mut m);
    assert_eq!(m.entity_template.links.len(), 1);
    assert_eq!(m.entity_template.links[0].id, "draft-link-0");
    assert_eq!(m.entity_template.links[0].target_entity_template_id.as_deref(), Some("e9"));
    assert!(!can_save_entity_template(&m));
    m.entity_template.links[0].name = "lives in".to_string();
    assert!(can_save_entity_template(&m));
}

#[test]
fn saving_as_template_asks_for_the_template_first() {
    let mut modals = vec![];
    let id = new_form(&mut modals, vec![level(6, "Team")]);
    edit_entity_template_modal(&mut modals, id, EntityTemplateEdit::NewAttributeName("Age".to_string()));
    edit_entity_template_modal(
        &mut modals,
        id,
        EntityTemplateEdit::NewAttributeValueType("number".to_string()),
    );
    edit_entity_template_modal(&mut modals, id, EntityTemplateEdit::SaveAsTemplate(true));
    match include_new_attribute(&mut modals, id, "a7".to_string()) {
        Some(TemplateRequest::CreateAttributeTemplate { session_key, body }) => {
            assert_eq!(session_key, "key");
            assert_eq!(
                body,
                "{\"accessLevelId\":6,\"defaultValue\":null,\"description\":\"\",\"isRequired\":false,\"name\":\"Age\",\"valueType\":\"number\"}"
            );
        }
        other => panic!("unexpected {other:?}"),
    }
    assert!(form(&modals, 0).is_saving);
    assert!(form(&modals, 0).entity_template.attributes.is_empty());

    let mut templates = vec![attribute_template("x", "zeta")];
    let mut created = attribute_template("t5", "Age");
    created.value_type = "number".to_string();
    new_attribute_template_created(&mut modals, id, &mut templates, "a7".to_string(), Ok(created));
    assert_eq!(templates[0].name, "Age");
    assert_eq!(templates[1].name, "zeta");
    let m = form(&modals, 0);
    assert!(!m.is_saving);
    assert_eq!(m.entity_template.attributes.len(), 1);
    assert_eq!(m.entity_template.attributes[0].id, "a7");
    assert_eq!(m.entity_template.attributes[0].value_type, "number");
}

#[test]
fn attribute_templates_stay_ordered_by_name() {
    let mut list = vec![attribute_template("1", "apple"), attribute_template("2", "Cherry")];
    add_sorted_attribute_template(&mut list, attribute_template("3", "Banana"));
    let names: Vec<&str> = list.iter().map(|t| t.name.as_str()).collect();
    assert_eq!(names, vec!["apple", "Banana", "Cherry"]);
}

#[test]
fn saved_entity_templates_replace_and_reorder() {
    let mut modals = vec![];
    let id = new_form(&mut modals, vec![]);
    let mut list = vec![entity_template("a", "Person"), entity_template("b", "place")];
    entity_template_saved(&mut modals, id, &mut list, Ok(entity_template("a", "zoo")));
    let names: Vec<&str> = list.iter().map(|t| t.name.as_str()).collect();
    assert_eq!(names, vec!["place", "zoo"]);
    assert!(modals.is_empty());

    let mut modals = vec![];
    let id = new_form(&mut modals, vec![]);
    entity_template_saved(&mut modals, id, &mut list, Ok(entity_template("c", "Apple")));
    assert_eq!(list[0].id, "c");
    assert_eq!(list.len(), 3);

    let mut modals = vec![];
    let id = new_form(&mut modals, vec![]);
    entity_template_saved(&mut modals, id, &mut list, Err("bad".to_string()));
    assert_eq!(form(&modals, 0).error.as_deref(), Some("bad"));
    assert_eq!(list.len(), 3);
}

#[test]
fn deleting_an_entity_template() {
    let mut modals = vec![];
    let mut next = 1u32;
    let id = open_entity_template_modal(
        &mut modals,
        &mut next,
        "key".to_string(),
        vec![],
        vec![],
        vec![],
        vec![],
        entity_template("e1", "Person"),
        true,
    );
    match delete_entity_template_request(form(&modals, 0)) {
        TemplateRequest::DeleteEntityTemplate { id, session_key } => {
            assert_eq!((id.as_str(), session_key.as_str()), ("e1", "key"));
        }
        other => panic!("unexpected {other:?}"),
    }
    let mut list = vec![entity_template("e1", "Person"), entity_template("e2", "Place")];
    entity_template_deleted(&mut modals, id, &mut list, "e1", true);
    assert_eq!(list.len(), 1);
    assert!(modals.is_empty());
}

#[test]
fn template_link_has_description_and_draft_id_rules() {
    let mut t = entity_template("e1", "Person");
    t.attributes = vec![attribute("a2", "B", 5), attribute("a1", "A", 1)];
    t.listing_attribute_id = "a1".to_string();
    t.owner_user_id = "  ".to_string();
    t.links = vec![EntityTemplateLink {
        description: Some("  ".to_string()),
        entity_template_id: "e1".to_string(),
        id: "l1".to_string(),
        listing_index: 0,
        name: "knows".to_string(),
        target_entity_template_id: None,
    }];
    let body = rebirth::requests::entity_template_create_body(&t);
    assert_eq!(
        body,
        "{\"attributes\":[{\"accessLevelId\":1,\"description\":\"\",\"id\":\"a1\",\"isRequired\":false,\"listingIndex\":0,\"name\":\"A\",\"valueType\":\"text\"},{\"accessLevelId\":1,\"description\":\"\",\"id\":\"a2\",\"isRequired\":false,\"listingIndex\":1,\"name\":\"B\",\"valueType\":\"text\"}],\"description\":\"\",\"links\":[{\"id\":\"l1\",\"description\":null,\"listingIndex\":0,\"name\":\"knows\",\"targetEntityTemplateId\":null}],\"listingAttributeId\":\"a1\",\"name\":\"Person\" }"
    );
}
