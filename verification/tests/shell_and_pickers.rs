use rebirth::app_state::{
    header_nav, load_initial_route, load_stored_theme, theme_toggle_title, user_menu, App,
    AppAction, AppEvent, MenuEntry,
};
use rebirth::pickers::{
    HomeView, MultiSelectOption, MultiSelectPicker, SingleSelectOption, SingleSelectPicker,
};
use rebirth::types::{AccessLevel, AuthSession, Entity, Permission, Route, Theme, User};

fn user(id: &str, username: &str, permissions: &[&str]) -> User {
    User {
        access_levels: vec![],
        email: format!("{username}@example.com"),
        first_name: "Ada".to_string(),
        id: id.to_string(),
        last_name: "Lovelace".to_string(),
        permissions: permissions
            .iter()
            .enumerate()
            .map(|(i, name)| Permission {
                description: String::new(),
                id: i as u32 + 1,
                name: name.to_string(),
            })
            .collect(),
        username: username.to_string(),
    }
}

fn session(permissions: &[&str]) -> AuthSession {
    AuthSession { session_key: "key-1".to_string(), user: user("u1", "ada", permissions) }
}

#[test]
fn shell_starts_from_stored_values() {
    let state = App(Some("dark"), Some("/security"), None);
    assert_eq!(state.theme, Theme::Dark);
    assert_eq!(state.route, Route::Security);
    assert!(!state.menu_open);
    assert!(state.auth_session.is_none());
    assert_eq!(state.next_modal_id, 1);
    assert_eq!(state.next_window_id, 1);
    let fresh = App(Some("purple"), Some(""), None);
    assert_eq!(fresh.theme, Theme::Light);
    assert_eq!(fresh.route, Route::Home);
    assert_eq!(load_stored_theme(None), Theme::Light);
    assert_eq!(load_initial_route(Some("/types")), Route::Templates);
    assert_eq!(load_initial_route(None), Route::Home);
}

#[test]
fn theme_toggle_twice_restores_theme() {
    let mut state = App(None, None, None);
    let first = state.handle(AppEvent::ToggleTheme);
    assert_eq!(state.theme, Theme::Dark);
    assert!(matches!(first.as_slice(), [AppAction::StoreTheme(Theme::Dark)]));
    let second = state.handle(AppEvent::ToggleTheme);
    assert_eq!(state.theme, Theme::Light);
    assert!(matches!(second.as_slice(), [AppAction::StoreTheme(Theme::Light)]));
}

#[test]
fn navigation_closes_the_menu_and_pushes_the_path() {
    let mut state = App(None, None, None);
    state.handle(AppEvent::ToggleMenu);
    assert!(state.menu_open);
    let actions = state.handle(AppEvent::Navigate(Route::Audit));
    assert_eq!(state.route, Route::Audit);
    assert!(!state.menu_open);
    assert!(matches!(actions.as_slice(), [AppAction::PushPath(Route::Audit)]));
}

#[test]
fn login_then_logout_clears_user_data() {
    let mut state = App(None, Some("/login"), None);
    let actions = state.handle(AppEvent::LoggedIn(session(&["Admin"])));
    assert_eq!(state.route, Route::Home);
    assert_eq!(state.auth_session.as_ref().unwrap().session_key, "key-1");
    assert!(matches!(actions.as_slice(), [AppAction::StoreSession(_), AppAction::PushPath(Route::Home)]));
    state.entities.push(Entity {
        id: "e1".to_string(),
        owner_user_id: "u1".to_string(),
        owner_username: None,
        attributes: vec![],
        listing_attribute_id: String::new(),
        links: vec![],
        incoming_links: None,
        incoming_links_count: None,
        outgoing_links_count: None,
    });
    state.access_levels.push(AccessLevel { description: String::new(), id: 1, name: "Public".to_string() });
    state.route = Route::DataExplorer;
    let actions = state.handle(AppEvent::Logout);
    assert!(state.auth_session.is_none());
    assert!(state.entities.is_empty());
    assert!(state.access_levels.is_empty());
    assert_eq!(state.route, Route::Home);
    assert!(matches!(actions.as_slice(), [AppAction::ClearSession, AppAction::PushPath(Route::Home)]));
}

#[test]
fn profile_update_keeps_the_route() {
    let mut state = App(None, Some("/user-profile"), Some(session(&["Viewer"])));
    let actions = state.handle(AppEvent::SessionUpdated(session(&["Editor"])));
    assert_eq!(state.route, Route::Profile);
    assert_eq!(state.auth_session.as_ref().unwrap().user.permissions[0].name, "Editor");
    assert_eq!(actions.len(), 1);
}

#[test]
fn header_lists_the_main_routes() {
    let nav = header_nav(Route::Templates);
    let routes: Vec<Route> = nav.iter().map(|n| n.route).collect();
    assert_eq!(
        routes,
        vec![Route::Home, Route::DataExplorer, Route::Templates, Route::Security, Route::Audit]
    );
    assert_eq!(nav.iter().filter(|n| n.is_active).count(), 1);
    assert!(nav[2].is_active);
    assert_eq!(nav[1].label, "Data Explorer");
    assert_eq!(user_menu(true), vec![MenuEntry::Profile, MenuEntry::Logout, MenuEntry::ToggleTheme]);
    assert_eq!(user_menu(false), vec![MenuEntry::Login, MenuEntry::ToggleTheme]);
    assert_eq!(theme_toggle_title(Theme::Light), "Switch to dark theme");
    assert_eq!(theme_toggle_title(Theme::Dark), "Switch to light theme");
}

#[test]
fn single_select_picker_marks_the_selected_option() {
    let options = vec![
        SingleSelectOption { label: "Views".to_string(), value: String::new() },
        SingleSelectOption { label: "Cars".to_string(), value: "sv-1".to_string() },
    ];
    let view = SingleSelectPicker(false, "Views", true, &options, "sv-1", "Cars");
    assert_eq!(view.trigger_text, "Cars");
    assert_eq!(view.tooltip.as_deref(), Some("Cars"));
    assert!(!view.is_empty);
    assert_eq!(view.rows.len(), 2);
    assert!(!view.rows[0].is_selected);
    assert!(view.rows[1].is_selected);
    let closed = SingleSelectPicker(true, "Select owner", false, &options, "", "");
    assert_eq!(closed.trigger_text, "Select owner");
    assert!(closed.tooltip.is_none());
    assert!(closed.is_empty);
    assert!(closed.rows.is_empty());
}

#[test]
fn multi_select_picker_checks_chosen_ids() {
    let options = vec![
        MultiSelectOption { id: 1, label: "Admin".to_string(), tooltip: Some("All rights".to_string()) },
        MultiSelectOption { id: 2, label: "Viewer".to_string(), tooltip: None },
    ];
    let view = MultiSelectPicker(false, "No permissions", true, &options, &vec![2], "Viewer");
    assert_eq!(view.trigger_text, "Viewer");
    assert!(!view.rows[0].is_checked);
    assert!(view.rows[1].is_checked);
    assert_eq!(view.rows[0].tooltip, "All rights");
    assert_eq!(view.rows[1].tooltip, "");
    let empty = MultiSelectPicker(false, "No permissions", false, &options, &vec![], "");
    assert_eq!(empty.trigger_text, "No permissions");
    assert!(empty.rows.is_empty());
}

#[test]
fn home_page_names_the_product() {
    let home = HomeView();
    assert_eq!(home.title, "Rebirth");
    assert_eq!(home.tagline, "An ontology simplified knowledge system");
}
