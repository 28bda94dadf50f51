use rebirth::attribute_template_flows::{
    access_level_summary, attribute_template_deleted, attribute_template_saved,
    delete_attribute_template_modal, edit_attribute_template_modal,
    is_attribute_template_save_disabled, open_attribute_template_modal, owner_label, owner_options,
    owner_summary, owner_username_from_id, save_attribute_template_modal, value_type_options,
    AttributeTemplateEdit, AttributeTemplateRequest,
};
use rebirth::requests::attribute_template_body;
use rebirth::stack::OpenModal;
use rebirth::types::{
    AccessLevel, AttributeTemplate, AttributeTemplateModal, ModalContent, SecurityModalMode, User,
};

fn level(id: u32, name: &str) -> AccessLevel {
    AccessLevel { description: String::new(), id, name: name.to_string() }
}

fn user(id: &str, username: &str) -> User {
    User {
        access_levels: vec![],
        email: String::new(),
        first_name: String::new(),
        id: id.to_string(),
        last_name: String::new(),
        permissions: vec![],
        username: username.to_string(),
    }
}

fn template(id: &str, name: &str) -> AttributeTemplate {
    AttributeTemplate {
        access_level_id: 2,
        default_value: Some("n/a".to_string()),
        description: "about".to_string(),
        id: id.to_string(),
        is_required: true,
        name: name.to_string(),
        owner_user_id: "u1".to_string(),
        owner_username: None,
        value_type: "text".to_string(),
    }
}

fn form(modals: &[OpenModal], k: usize) -> &AttributeTemplateModal {
    match &modals[k].content {
        ModalContent::AttributeTemplate(m) => m,
        _ => panic!("not an attribute template modal"),
    }
}

#[test]
fn value_types_and_levels_are_offered() {
    let types = value_type_options();
    assert!(types.len() >= 2);
    assert_eq!(types[0].value, "text");
    let levels = vec![level(1, "Public"), level(2, "Team")];
    assert_eq!(access_level_summary(&levels, 2), "Team");
}

#[test]
fn owner_is_named_by_username_then_id() {
    let users = vec![user("u1", "ada"), user("u2", "bob")];
    assert_eq!(owner_username_from_id(&users, "u2"), Some("bob".to_string()));
    assert_eq!(owner_username_from_id(&users, "u9"), None);
    let options = owner_options(&users);
    assert_eq!((options[1].label.as_str(), options[1].value.as_str()), ("bob", "u2"));
    assert_eq!(owner_summary(&users, "u1", "fallback"), "ada");
    assert_eq!(owner_summary(&users, "u7", "fallback"), "fallback");
}

#[test]
fn new_template_form_and_its_labels() {
    let mut modals = vec![];
    let mut next = 5u32;
    let users = vec![user("u1", "ada")];
    let id = open_attribute_template_modal(
        &mut modals,
        &mut next,
        "key".to_string(),
        vec![level(3, "Public"), level(4, "Team")],
        users,
        None,
        true,
        true,
    );
    assert_eq!(id, 5);
    assert_eq!(next, 6);
    let m = form(&modals, 0);
    assert_eq!(m.mode, SecurityModalMode::Create);
    assert_eq!(m.access_level_id, 3);
    assert_eq!(m.value_type, "text");
    assert_eq!(owner_label(m), "Unknown");
    assert!(is_attribute_template_save_disabled(m));

    // Opening it again brings the same modal forward.
    let again = open_attribute_template_modal(
        &mut modals,
        &mut next,
        "key".to_string(),
        vec![],
        vec![],
        None,
        true,
        true,
    );
    assert_eq!(again, 5);
    assert_eq!(modals.len(), 1);
}

#[test]
fn owner_label_prefers_the_stored_username() {
    let mut modals = vec![];
    let mut next = 1u32;
    open_attribute_template_modal(
        &mut modals,
        &mut next,
        "key".to_string(),
        vec![],
        vec![user("u1", "ada")],
        Some(template("t1", "Colour")),
        false,
        false,
    );
    assert_eq!(owner_label(form(&modals, 0)), "ada");
    let mut direct = form(&modals, 0).clone();
    direct.owner_username = Some("stored".to_string());
    assert_eq!(owner_label(&direct), "stored");
    direct.owner_username = None;
    direct.owner_user_id = Some("u5".to_string());
    assert_eq!(owner_label(&direct), "u5");
}

#[test]
fn saving_needs_a_name_and_sends_the_trimmed_form() {
    let mut modals = vec![];
    let mut next = 1u32;
    let id = open_attribute_template_modal(
        &mut modals,
        &mut next,
        "key".to_string(),
        vec![level(3, "Public")],
        vec![],
        None,
        true,
        true,
    );
    assert!(save_attribute_template_modal(&mut modals, id).is_none());
    assert_eq!(form(&modals, 0).error.as_deref(), Some("Name is required"));

    edit_attribute_template_modal(&mut modals, id, AttributeTemplateEdit::Name("  Colour ".to_string()));
    edit_attribute_template_modal(
        &mut modals,
        id,
        AttributeTemplateEdit::Description(" hue ".to_string()),
    );
    let request = save_attribute_template_modal(&mut modals, id);
    assert!(form(&modals, 0).is_saving);
    match request {
        Some(AttributeTemplateRequest::Save { id, session_key, body }) => {
            assert_eq!(id, None);
            assert_eq!(session_key, "key");
            assert_eq!(
                body,
                "{\"accessLevelId\":3,\"defaultValue\":null,\"description\":\"hue\",\"isRequired\":false,\"name\":\"Colour\",\"valueType\":\"text\" }"
            );
        }
        other => panic!("unexpected {other:?}"),
    }
}

#[test]
fn template_body_carries_owner_and_default() {
    let body = attribute_template_body("N", "D", "number", 7, "0", true, Some("u1"));
    assert_eq!(
        body,
        "{\"accessLevelId\":7,\"defaultValue\":\"0\",\"description\":\"D\",\"isRequired\":true,\"name\":\"N\",\"valueType\":\"number\",\"ownerUserId\":\"u1\" }"
    );
}

#[test]
fn saved_templates_are_replaced_and_ordered_by_name() {
    let mut modals = vec![];
    let mut next = 1u32;
    let id = open_attribute_template_modal(
        &mut modals,
        &mut next,
        "key".to_string(),
        vec![],
        vec![],
        Some(template("t2", "beta")),
        true,
        true,
    );
    let mut list = vec![template("t1", "Alpha"), template("t2", "beta"), template("t3", "Gamma")];
    let mut renamed = template("t2", "zeta");
    renamed.description = "new".to_string();
    attribute_template_saved(&mut modals, id, &mut list, true, Ok(renamed));
    let names: Vec<&str> = list.iter().map(|t| t.name.as_str()).collect();
    assert_eq!(names, vec!["Alpha", "Gamma", "zeta"]);
    assert!(modals.is_empty());

    let mut list = vec![template("t1", "b"), template("t2", "C")];
    let mut modals = vec![];
    attribute_template_saved(&mut modals, 9, &mut list, false, Ok(template("t3", "a")));
    let names: Vec<&str> = list.iter().map(|t| t.name.as_str()).collect();
    assert_eq!(names, vec!["a", "b", "C"]);
}

#[test]
fn failed_save_shows_the_message() {
    let mut modals = vec![];
    let mut next = 1u32;
    let id = open_attribute_template_modal(
        &mut modals,
        &mut next,
        "key".to_string(),
        vec![],
        vec![],
        Some(template("t1", "Alpha")),
        true,
        true,
    );
    let mut list = vec![template("t1", "Alpha")];
    attribute_template_saved(&mut modals, id, &mut list, true, Err("Conflict".to_string()));
    assert_eq!(form(&modals, 0).error.as_deref(), Some("Conflict"));
    assert!(!form(&modals, 0).is_saving);
    assert_eq!(list.len(), 1);
}

#[test]
fn deleting_a_template_removes_it() {
    let mut modals = vec![];
    let mut next = 1u32;
    let id = open_attribute_template_modal(
        &mut modals,
        &mut next,
        "key".to_string(),
        vec![],
        vec![],
        Some(template("t1", "Alpha")),
        true,
        true,
    );
    match delete_attribute_template_modal(&mut modals, id) {
        Some(AttributeTemplateRequest::Delete { id, session_key }) => {
            assert_eq!((id.as_str(), session_key.as_str()), ("t1", "key"));
        }
        other => panic!("unexpected {other:?}"),
    }
    let mut list = vec![template("t1", "Alpha"), template("t2", "Beta")];
    attribute_template_deleted(&mut modals, id, &mut list, "t1", Ok(()));
    assert_eq!(list.len(), 1);
    assert_eq!(list[0].id, "t2");
    assert!(modals.is_empty());
}

#[test]
fn a_new_template_cannot_be_deleted() {
    let mut modals = vec![];
    let mut next = 1u32;
    let id = open_attribute_template_modal(
        &mut modals,
        &mut next,
        "key".to_string(),
        vec![],
        vec![],
        None,
        true,
        true,
    );
    assert!(delete_attribute_template_modal(&mut modals, id).is_none());
    assert!(!form(&modals, 0).is_saving);
}
