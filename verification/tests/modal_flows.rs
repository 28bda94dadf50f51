use rebirth::security_flows::{
    access_level_deleted, access_level_saved, delete_access_level_modal, delete_user_modal,
    edit_access_level_modal, edit_user_modal, open_access_level_modal, open_user_modal,
    save_access_level_modal, save_user_modal, set_access_level_mode, set_user_mode, user_deleted,
    user_saved, AccessLevelEdit, SecurityRequest, UserEdit,
};
use rebirth::stack::{cascade_step, close_modal, close_modal_popovers, next_modal_z_index, open_modal, raise_modal};
use rebirth::types::{AccessLevel, ModalContent, Permission, SecurityModalMode, User};

fn level(id: u32, name: &str) -> AccessLevel {
    AccessLevel { description: format!("{name} level"), id, name: name.to_string() }
}

fn permission(id: u32, name: &str) -> Permission {
    Permission { description: String::new(), id, name: name.to_string() }
}

fn user(id: &str, username: &str) -> User {
    User {
        access_levels: vec![level(1, "Public"), level(7, "Team")],
        email: "ada@example.com".to_string(),
        first_name: "Ada".to_string(),
        id: id.to_string(),
        last_name: "Lovelace".to_string(),
        permissions: vec![permission(3, "Editor")],
        username: username.to_string(),
    }
}

fn access_form(modals: &[rebirth::stack::OpenModal], k: usize) -> &rebirth::types::AccessLevelModal {
    match &modals[k].content {
        ModalContent::AccessLevel(m) => m,
        _ => panic!("not an access level modal"),
    }
}

fn user_form(modals: &[rebirth::stack::OpenModal], k: usize) -> &rebirth::types::UserModal {
    match &modals[k].content {
        ModalContent::User(m) => m,
        _ => panic!("not a user modal"),
    }
}

#[test]
fn modals_stack_above_each_other() {
    let mut modals = vec![];
    let mut next_id = 1u32;
    assert_eq!(next_modal_z_index(&modals), 21);
    open_modal(&mut modals, &mut next_id, "One".to_string(), ModalContent::Generic);
    open_modal(&mut modals, &mut next_id, "Two".to_string(), ModalContent::Generic);
    assert_eq!((modals[0].id, modals[0].z_index), (1, 21));
    assert_eq!((modals[1].id, modals[1].z_index), (2, 22));
    raise_modal(&mut modals, 1);
    assert_eq!(modals[0].z_index, 23);
    assert!(modals[0].z_index > modals[1].z_index);
    raise_modal(&mut modals, 99);
    assert_eq!(modals[0].z_index, 23);
    close_modal(&mut modals, 1);
    assert_eq!(modals.len(), 1);
    assert_eq!(modals[0].title, "Two");
    assert_eq!(cascade_step(0), 0);
    assert_eq!(cascade_step(1), 0);
    assert_eq!(cascade_step(7), 0);
    assert_eq!(cascade_step(6), 5);
}

#[test]
fn access_level_modal_opens_once_per_level() {
    let mut modals = vec![];
    let mut next_id = 1u32;
    let first = open_access_level_modal(&mut modals, &mut next_id, "k".to_string(), Some(level(5, "Team")));
    assert_eq!(first, 1);
    assert_eq!(modals[0].title, "Access Level");
    assert_eq!(access_form(&modals, 0).mode, SecurityModalMode::Details);
    assert_eq!(access_form(&modals, 0).name, "Team");
    let new = open_access_level_modal(&mut modals, &mut next_id, "k".to_string(), None);
    assert_eq!(new, 2);
    assert_eq!(modals[1].title, "Access Level :: New");
    let again = open_access_level_modal(&mut modals, &mut next_id, "k".to_string(), Some(level(5, "Team")));
    assert_eq!(again, 1);
    assert_eq!(modals.len(), 2);
    assert_eq!(modals[0].z_index, 23);
    assert_eq!(next_id, 3);
}

#[test]
fn access_level_form_saves_trimmed_values() {
    let mut modals = vec![];
    let mut next_id = 1u32;
    open_access_level_modal(&mut modals, &mut next_id, "k".to_string(), Some(level(5, "Team")));
    assert!(set_access_level_mode(&mut modals, 1, SecurityModalMode::Edit));
    assert_eq!(modals[0].title, "Access Level :: Edit");
    edit_access_level_modal(&mut modals, 1, AccessLevelEdit::Name("   ".to_string()));
    assert!(save_access_level_modal(&mut modals, 1).is_none());
    assert_eq!(access_form(&modals, 0).error.as_deref(), Some("Name is required"));
    edit_access_level_modal(&mut modals, 1, AccessLevelEdit::Name(" Crew ".to_string()));
    edit_access_level_modal(&mut modals, 1, AccessLevelEdit::Description(" ours ".to_string()));
    match save_access_level_modal(&mut modals, 1) {
        Some(SecurityRequest::UpdateAccessLevel { id, session_key, body }) => {
            assert_eq!(id, 5);
            assert_eq!(session_key, "k");
            assert_eq!(body, "{\"name\":\"Crew\",\"description\":\"ours\"}");
        }
        other => panic!("unexpected {other:?}"),
    }
    assert!(access_form(&modals, 0).is_saving);
    let mut levels = vec![level(1, "Public"), level(5, "Team")];
    access_level_saved(&mut modals, 1, &mut levels, true, Err("Unable to save access level".to_string()));
    assert_eq!(access_form(&modals, 0).error.as_deref(), Some("Unable to save access level"));
    assert!(!access_form(&modals, 0).is_saving);
    access_level_saved(&mut modals, 1, &mut levels, true, Ok(level(5, "Crew")));
    assert!(modals.is_empty());
    assert_eq!(levels[1].name, "Crew");
    assert_eq!(levels.len(), 2);
}

#[test]
fn access_level_popovers_exclude_each_other() {
    let mut modals = vec![];
    let mut next_id = 1u32;
    open_access_level_modal(&mut modals, &mut next_id, "k".to_string(), Some(level(5, "Team")));
    edit_access_level_modal(&mut modals, 1, AccessLevelEdit::DeleteConfirm(true));
    edit_access_level_modal(&mut modals, 1, AccessLevelEdit::ToggleInfo);
    assert!(access_form(&modals, 0).is_info_open);
    assert!(!access_form(&modals, 0).is_delete_confirm_open);
    close_modal_popovers(&mut modals, 1);
    assert!(!access_form(&modals, 0).is_info_open);
}

#[test]
fn built_in_access_levels_cannot_be_deleted() {
    let mut modals = vec![];
    let mut next_id = 1u32;
    open_access_level_modal(&mut modals, &mut next_id, "k".to_string(), Some(level(3, "Private")));
    assert!(delete_access_level_modal(&mut modals, 1).is_none());
    assert_eq!(access_form(&modals, 0).error.as_deref(), Some("Built-in access levels cannot be deleted"));
    open_access_level_modal(&mut modals, &mut next_id, "k".to_string(), Some(level(9, "Crew")));
    match delete_access_level_modal(&mut modals, 2) {
        Some(SecurityRequest::DeleteAccessLevel { id, .. }) => assert_eq!(id, 9),
        other => panic!("unexpected {other:?}"),
    }
    let mut levels = vec![level(3, "Private"), level(9, "Crew")];
    access_level_deleted(&mut modals, 2, &mut levels, 9, Ok(()));
    assert_eq!(levels.len(), 1);
    assert_eq!(modals.len(), 1);
    let new = open_access_level_modal(&mut modals, &mut next_id, "k".to_string(), None);
    assert!(delete_access_level_modal(&mut modals, new).is_none());
}

#[test]
fn new_user_form_defaults_to_viewer_and_public() {
    let permissions = vec![permission(1, "Admin"), permission(2, "Viewer")];
    let levels = vec![level(4, "Owner View"), level(1, "Public")];
    let mut modals = vec![];
    let mut next_id = 1u32;
    open_user_modal(&mut modals, &mut next_id, "k".to_string(), &permissions, &levels, None);
    let form = user_form(&modals, 0);
    assert_eq!(form.permission_ids, vec![2]);
    assert_eq!(form.access_level_ids, vec![1]);
    assert_eq!(form.mode, SecurityModalMode::Create);
    assert_eq!(modals[0].title, "User :: New");
    let mut modals2 = vec![];
    open_user_modal(&mut modals2, &mut next_id, "k".to_string(), &vec![permission(8, "Editor")], &vec![], None);
    assert_eq!(user_form(&modals2, 0).permission_ids, vec![8]);
    assert!(user_form(&modals2, 0).access_level_ids.is_empty());
}

#[test]
fn user_form_validates_before_saving() {
    let mut modals = vec![];
    let mut next_id = 1u32;
    open_user_modal(&mut modals, &mut next_id, "k".to_string(), &vec![permission(2, "Viewer")], &vec![], None);
    assert!(save_user_modal(&mut modals, 1).is_none());
    assert_eq!(user_form(&modals, 0).error.as_deref(), Some("Required fields must be filled"));
    edit_user_modal(&mut modals, 1, UserEdit::FirstName("Ada".to_string()));
    edit_user_modal(&mut modals, 1, UserEdit::LastName("Lovelace".to_string()));
    edit_user_modal(&mut modals, 1, UserEdit::Email(" ada@example.com ".to_string()));
    edit_user_modal(&mut modals, 1, UserEdit::Username("ada".to_string()));
    edit_user_modal(&mut modals, 1, UserEdit::Password("short".to_string()));
    assert!(save_user_modal(&mut modals, 1).is_none());
    assert_eq!(user_form(&modals, 0).error.as_deref(), Some("Password must be at least 8 characters"));
    edit_user_modal(&mut modals, 1, UserEdit::Password("long enough".to_string()));
    match save_user_modal(&mut modals, 1) {
        Some(SecurityRequest::CreateUser { body, .. }) => {
            assert!(body.starts_with("{\"email\":\"ada@example.com\""));
            assert!(body.contains("\"permissionIds\":[2]"));
            assert!(body.contains("\"password\":\"long enough\""));
        }
        other => panic!("unexpected {other:?}"),
    }
}

#[test]
fn user_details_open_and_update() {
    let mut modals = vec![];
    let mut next_id = 1u32;
    open_user_modal(&mut modals, &mut next_id, "k".to_string(), &vec![], &vec![], Some(user("u9", "ada")));
    let form = user_form(&modals, 0);
    assert_eq!(form.permission_ids, vec![3]);
    assert_eq!(form.access_level_ids, vec![1, 7]);
    assert_eq!(form.mode, SecurityModalMode::Details);
    assert!(set_user_mode(&mut modals, 1, SecurityModalMode::Edit));
    assert_eq!(modals[0].title, "User :: Edit");
    edit_user_modal(&mut modals, 1, UserEdit::TogglePermission(3));
    edit_user_modal(&mut modals, 1, UserEdit::TogglePermission(5));
    assert_eq!(user_form(&modals, 0).permission_ids, vec![5]);
    edit_user_modal(&mut modals, 1, UserEdit::TogglePermissionMenu);
    edit_user_modal(&mut modals, 1, UserEdit::ToggleAccessLevelMenu);
    assert!(user_form(&modals, 0).is_access_level_menu_open);
    assert!(!user_form(&modals, 0).is_permission_menu_open);
    match save_user_modal(&mut modals, 1) {
        Some(SecurityRequest::UpdateUser { id, body, .. }) => {
            assert_eq!(id, "u9");
            assert!(!body.contains("password"));
        }
        other => panic!("unexpected {other:?}"),
    }
    let mut users = vec![user("u1", "bob"), user("u9", "ada")];
    let mut saved = user("u9", "ada2");
    saved.first_name = "Augusta".to_string();
    user_saved(&mut modals, 1, &mut users, true, Ok(saved));
    assert_eq!(users[1].username, "ada2");
    assert!(modals.is_empty());
}

#[test]
fn deleting_a_user_removes_it() {
    let mut modals = vec![];
    let mut next_id = 1u32;
    open_user_modal(&mut modals, &mut next_id, "k".to_string(), &vec![], &vec![], Some(user("u9", "ada")));
    match delete_user_modal(&mut modals, 1) {
        Some(SecurityRequest::DeleteUser { id, session_key }) => {
            assert_eq!(id, "u9");
            assert_eq!(session_key, "k");
        }
        other => panic!("unexpected {other:?}"),
    }
    let mut users = vec![user("u1", "bob"), user("u9", "ada")];
    user_deleted(&mut modals, 1, &mut users, "u9", Err("Unable to delete user".to_string()));
    assert_eq!(users.len(), 2);
    assert_eq!(user_form(&modals, 0).error.as_deref(), Some("Unable to delete user"));
    user_deleted(&mut modals, 1, &mut users, "u9", Ok(()));
    assert_eq!(users.len(), 1);
    assert!(modals.is_empty());
}
