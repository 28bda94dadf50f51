use rebirth::account::{is_username_readonly, login_result, profile_unavailable_notice, LoginForm, LoginReply, ProfileForm};
use rebirth::audit::{audit_content_text, audit_row, AuditBody, AuditState};
use rebirth::permissions::{
    can_access_attribute_value, can_edit_entity, entity_attribute_visible_value,
    has_any_permission, is_owner_view_access_level, is_public_access_level,
};
use rebirth::views::{
    access_level_names, can_edit_template, description_cell, order_attribute_templates,
    order_entity_templates, permission_names, table_body, templates_access,
    users_failure_message, without_admin, SecurityState, TableBody,
};
use rebirth::types::{
    AccessLevel, AttributeTemplate, AuditEvent, AuthSession, Entity, EntityAttribute,
    EntityTemplate, Permission, User,
};

fn level(id: u32, name: &str) -> AccessLevel {
    AccessLevel { description: String::new(), id, name: name.to_string() }
}

fn permission(name: &str) -> Permission {
    Permission { description: String::new(), id: 1, name: name.to_string() }
}

fn user(id: &str, username: &str, permissions: &[&str], levels: Vec<AccessLevel>) -> User {
    User {
        access_levels: levels,
        email: " ada@example.com ".to_string(),
        first_name: "Ada".to_string(),
        id: id.to_string(),
        last_name: "Lovelace".to_string(),
        permissions: permissions.iter().map(|p| permission(p)).collect(),
        username: username.to_string(),
    }
}

fn session(permissions: &[&str]) -> AuthSession {
    AuthSession { session_key: "key".to_string(), user: user("u1", "ada", permissions, vec![level(9, "Team")]) }
}

fn entity(owner: &str) -> Entity {
    Entity {
        id: "e1".to_string(),
        owner_user_id: owner.to_string(),
        owner_username: None,
        attributes: vec![],
        listing_attribute_id: String::new(),
        links: vec![],
        incoming_links: None,
        incoming_links_count: None,
        outgoing_links_count: None,
    }
}

fn attribute(level_id: u32, value: &str) -> EntityAttribute {
    EntityAttribute {
        access_level_id: level_id,
        description: String::new(),
        id: "a1".to_string(),
        is_required: false,
        listing_index: 0,
        name: "secret".to_string(),
        value: value.to_string(),
        value_type: "text".to_string(),
    }
}

#[test]
fn permissions_are_matched_by_name() {
    let s = session(&["Viewer", "Audit"]);
    assert!(has_any_permission(Some(&s), &["Admin", "Audit"]));
    assert!(!has_any_permission(Some(&s), &["Admin"]));
    assert!(!has_any_permission(None, &["Viewer"]));
}

#[test]
fn editors_and_owners_edit_entities() {
    let editor = session(&["Editor"]);
    let owner = session(&["ManageOwnData"]);
    let viewer = session(&["Viewer"]);
    assert!(can_edit_entity(Some(&editor), &entity("someone")));
    assert!(can_edit_entity(Some(&owner), &entity("u1")));
    assert!(!can_edit_entity(Some(&owner), &entity("u2")));
    assert!(!can_edit_entity(Some(&viewer), &entity("u1")));
    assert!(!can_edit_entity(None, &entity("u1")));
}

#[test]
fn public_and_owner_view_levels_by_name_or_id() {
    let levels = vec![level(3, "PUBLIC"), level(8, "Owner View")];
    assert!(is_public_access_level(&levels, 3));
    assert!(is_public_access_level(&levels, 1));
    assert!(!is_public_access_level(&levels, 2));
    assert!(is_public_access_level(&vec![], 1));
    assert!(is_owner_view_access_level(&levels, 8));
    assert!(is_owner_view_access_level(&vec![], 4));
    assert!(!is_owner_view_access_level(&vec![], 5));
}

#[test]
fn attribute_values_are_shown_to_those_allowed() {
    let levels = vec![level(1, "Public"), level(4, "Owner View"), level(9, "Team")];
    let viewer = session(&["Viewer"]);
    assert!(can_access_attribute_value(Some(&viewer), &entity("u2"), &attribute(1, "x"), &levels));
    assert!(can_access_attribute_value(Some(&viewer), &entity("u2"), &attribute(9, "x"), &levels));
    assert!(!can_access_attribute_value(Some(&viewer), &entity("u2"), &attribute(4, "x"), &levels));
    assert!(can_access_attribute_value(Some(&viewer), &entity("u1"), &attribute(4, "x"), &levels));
    assert!(!can_access_attribute_value(None, &entity("u1"), &attribute(7, "x"), &levels));

    assert_eq!(entity_attribute_visible_value(&attribute(1, "open"), &levels, false, false), "open");
    assert_eq!(entity_attribute_visible_value(&attribute(9, "hidden"), &levels, false, true), "******");
    assert_eq!(entity_attribute_visible_value(&attribute(9, "hidden"), &levels, true, false), "******");
    assert_eq!(entity_attribute_visible_value(&attribute(9, "hidden"), &levels, true, true), "hidden");
}

#[test]
fn security_page_is_for_admins() {
    let (state, asked) = SecurityState::new(Some(&session(&["Admin"])));
    assert!(asked && state.is_authorized && state.is_users_loading);
    let (mut state, asked) = SecurityState::new(Some(&session(&["Editor"])));
    assert!(!asked && state.is_authenticated && !state.is_authorized);
    assert!(!state.refresh_users());
    let (state, asked) = SecurityState::new(None);
    assert!(!asked && !state.is_authenticated);
}

#[test]
fn users_load_without_the_admin() {
    let (mut state, _) = SecurityState::new(Some(&session(&["Admin"])));
    let mut users = vec![];
    let mut permissions = vec![];
    state.users_loaded(
        &mut users,
        &mut permissions,
        Ok((
            vec![user("1", "admin", &[], vec![]), user("2", "ada", &[], vec![]), user("3", "bob", &[], vec![])],
            vec![permission("Admin")],
        )),
    );
    let names: Vec<&str> = users.iter().map(|u| u.username.as_str()).collect();
    assert_eq!(names, vec!["ada", "bob"]);
    assert_eq!(permissions.len(), 1);
    assert!(!state.is_users_loading);
    state.users_loaded(&mut users, &mut permissions, Err(users_failure_message(403).to_string()));
    assert_eq!(state.users_error.as_deref(), Some("Admin permission is required to manage users"));
    assert_eq!(users.len(), 2);
    assert_eq!(users_failure_message(500), "Unable to load users");
    assert_eq!(without_admin(vec![user("1", "admin", &[], vec![])]).len(), 0);
}

#[test]
fn access_levels_load_or_show_the_error() {
    let (mut state, _) = SecurityState::new(Some(&session(&["Admin"])));
    let mut levels = vec![];
    state.access_levels_loaded(&mut levels, Ok(vec![level(1, "Public")]));
    assert_eq!(levels.len(), 1);
    assert!(!state.is_access_levels_loading);
    assert!(state.refresh_access_levels());
    state.access_levels_loaded(&mut levels, Err("down".to_string()));
    assert_eq!(state.access_levels_error.as_deref(), Some("down"));
    assert_eq!(levels.len(), 1);
}

#[test]
fn user_rows_list_names() {
    let u = user("1", "ada", &["Admin", "Viewer"], vec![level(1, "Public"), level(2, "Team")]);
    assert_eq!(permission_names(&u), "Admin, Viewer");
    assert_eq!(access_level_names(&u), "Public, Team");
    assert_eq!(permission_names(&user("2", "bob", &[], vec![])), "");
}

#[test]
fn table_bodies() {
    assert_eq!(table_body(true, true), TableBody::Loading);
    assert_eq!(table_body(false, true), TableBody::Empty);
    assert_eq!(table_body(false, false), TableBody::Rows);
}

#[test]
fn templates_page_rights() {
    let viewer = templates_access(Some(&session(&["Viewer"])));
    assert!(viewer.is_authorized && !viewer.can_create_managed_data && !viewer.can_manage_templates);
    let own = templates_access(Some(&session(&["Manage Own Data"])));
    assert!(own.can_create_managed_data && own.can_manage_own_data && !own.can_manage_templates);
    assert!(can_edit_template(&own, Some("u1"), "u1"));
    assert!(!can_edit_template(&own, Some("u1"), "u2"));
    assert!(!can_edit_template(&own, None, "u1"));
    let editor = templates_access(Some(&session(&["Editor"])));
    assert!(can_edit_template(&editor, None, "u9"));
    let guest = templates_access(None);
    assert!(!guest.is_authenticated && !guest.is_authorized);
}

#[test]
fn long_descriptions_get_a_tooltip() {
    assert_eq!(description_cell("  short  "), ("short".to_string(), None));
    let long = "x".repeat(43);
    assert_eq!(description_cell(&long), (long.clone(), Some(long.clone())));
    let edge = "y".repeat(42);
    assert_eq!(description_cell(&edge), (edge.clone(), None));
}

#[test]
fn template_lists_are_ordered_by_name() {
    let at = |name: &str| AttributeTemplate {
        access_level_id: 1,
        default_value: None,
        description: String::new(),
        id: name.to_string(),
        is_required: false,
        name: name.to_string(),
        owner_user_id: String::new(),
        owner_username: None,
        value_type: "text".to_string(),
    };
    let ordered = order_attribute_templates(vec![at("b"), at("A"), at("c")]);
    let names: Vec<&str> = ordered.iter().map(|t| t.name.as_str()).collect();
    assert_eq!(names, vec!["A", "b", "c"]);
    let et = |name: &str| EntityTemplate {
        attributes: vec![],
        description: String::new(),
        id: name.to_string(),
        links: vec![],
        listing_attribute_id: String::new(),
        name: name.to_string(),
        owner_user_id: String::new(),
        owner_username: None,
    };
    let ordered = order_entity_templates(vec![et("Zoo"), et("apple")]);
    assert_eq!(ordered[0].name, "apple");
}

#[test]
fn login_needs_both_fields() {
    let mut form = LoginForm::new();
    form.identifier = "  ada ".to_string();
    assert!(form.submit().is_none());
    assert_eq!(form.error.as_deref(), Some("Username and password are required."));
    form.password = "pw".to_string();
    let input = form.submit().expect("a request");
    assert_eq!((input.identifier.as_str(), input.password.as_str()), ("ada", "pw"));
    assert!(form.is_submitting && form.error.is_none());
    assert!(form.finished(Err("Invalid credentials".to_string())).is_none());
    assert!(!form.is_submitting);
    assert_eq!(form.error.as_deref(), Some("Invalid credentials"));
    let s = form.finished(Ok(session(&[]))).expect("a session");
    assert_eq!(s.session_key, "key");
}

#[test]
fn profile_form_updates_user_info() {
    let u = user("u1", "ada", &[], vec![]);
    let mut form = ProfileForm::new(&u);
    assert!(!form.can_update_password());
    form.current_password = "old".to_string();
    form.new_password = "new".to_string();
    assert!(form.can_update_password());
    let input = form.submit_info();
    assert_eq!(input.email, "ada@example.com");
    assert!(form.is_submitting);
    let mut renamed = u.clone();
    renamed.first_name = "Augusta".to_string();
    let s = form.info_updated("key".to_string(), Ok(renamed)).expect("a session");
    assert_eq!(s.user.first_name, "Augusta");
    assert_eq!(form.first_name, "Augusta");
    assert_eq!(form.status.as_deref(), Some("User info updated."));
    assert!(form.info_updated("key".to_string(), Err("taken".to_string())).is_none());
    assert_eq!(form.error.as_deref(), Some("taken"));
    assert!(is_username_readonly(&user("1", "admin", &[], vec![])));
    assert!(!is_username_readonly(&u));
    assert_eq!(profile_unavailable_notice(), "You need to be authenticated to access this section.");
}

#[test]
fn audit_log_for_admins_and_auditors() {
    let (state, asked) = AuditState::new(Some(&session(&["Audit"])));
    assert!(asked && state.is_loading);
    assert_eq!(state.body(), AuditBody::Loading);
    let (mut state, asked) = AuditState::new(Some(&session(&["Viewer"])));
    assert!(!asked && !state.is_authorized);
    assert!(!state.on_refresh());

    let (mut state, _) = AuditState::new(Some(&session(&["Admin"])));
    state.on_loaded(Ok(vec![]));
    assert_eq!(state.body(), AuditBody::Empty);
    let event = AuditEvent {
        id: "1".to_string(),
        name: "login".to_string(),
        content: "{\"a\":1}".to_string(),
        created_at: "2024-05-01T10:20:30.123Z".to_string(),
    };
    state.on_loaded(Ok(vec![event.clone()]));
    assert_eq!(state.body(), AuditBody::Rows);
    state.open_event(event.clone());
    assert!(state.selected.is_some());
    state.close_event();
    assert!(state.selected.is_none());
    state.on_loaded(Err("nope".to_string()));
    assert_eq!(state.error.as_deref(), Some("nope"));
    assert_eq!(state.events.len(), 1);

    let row = audit_row(&event);
    assert_eq!(row.name, "login");
    assert_eq!(row.content, "{\n  \"a\": 1\n}");
    assert_eq!(row.created_at, "2024-05-01 10:20:30");
    assert_eq!(audit_content_text("raw", None), "raw");
    assert_eq!(audit_content_text("raw", Some("pretty".to_string())), "pretty");
}

#[test]
fn login_replies_become_sessions_or_messages() {
    assert_eq!(login_result(LoginReply::NotBuilt).unwrap_err(), "Unable to build login request.");
    assert_eq!(login_result(LoginReply::NotSent).unwrap_err(), "Unable to login.");
    assert_eq!(login_result(LoginReply::Refused).unwrap_err(), "Invalid username or password.");
    assert_eq!(login_result(LoginReply::Accepted(None)).unwrap_err(), "Unable to read login response.");
    let s = login_result(LoginReply::Accepted(Some(session(&["Viewer"])))).expect("a session");
    assert_eq!(s.session_key, "key");
    let mut form = LoginForm::new();
    assert!(form.finished(login_result(LoginReply::Refused)).is_none());
    assert_eq!(form.error.as_deref(), Some("Invalid username or password."));
}
