use rebirth::entity_editor::{CreateEntitySource, EntityTab};
use rebirth::explorer::{
    access_denied_notice, attribute_ids_needed, can_open_create, effective_create_source,
    effective_search, entity_row_summary, entity_window_loaded, explorer_access,
    open_create_entity, open_entity_details_window, saved_view_options, saved_views_key,
    selected_view_summary, selected_view_tooltip, template_options, template_summary,
    total_pages, ExplorerState, ViewsEditor,
};
use rebirth::types::{
    AuthSession, Entity, EntityAttribute, EntityLink, EntityTemplate, EntityTemplateAttribute,
    Permission, SavedView, User,
};

fn session(permissions: &[&str]) -> AuthSession {
    AuthSession {
        session_key: "key".to_string(),
        user: User {
            access_levels: vec![],
            email: "a@b.c".to_string(),
            first_name: "A".to_string(),
            id: "u1".to_string(),
            last_name: "B".to_string(),
            permissions: permissions
                .iter()
                .enumerate()
                .map(|(i, n)| Permission { description: String::new(), id: i as u32, name: n.to_string() })
                .collect(),
            username: "ab".to_string(),
        },
    }
}

fn view(id: &str, name: &str, description: &str, search: &str) -> SavedView {
    SavedView {
        description: description.to_string(),
        id: id.to_string(),
        name: name.to_string(),
        search_text: search.to_string(),
    }
}

fn attribute(id: &str, name: &str, value: &str, listing_index: i32) -> EntityAttribute {
    EntityAttribute {
        access_level_id: 1,
        description: String::new(),
        id: id.to_string(),
        is_required: false,
        listing_index,
        name: name.to_string(),
        value: value.to_string(),
        value_type: "text".to_string(),
    }
}

fn entity(id: &str) -> Entity {
    Entity {
        id: id.to_string(),
        owner_user_id: "u1".to_string(),
        owner_username: None,
        attributes: vec![attribute("a1", "Name", "Blue car", 0), attribute("a2", "Color", "blue", 1)],
        listing_attribute_id: "a1".to_string(),
        links: vec![EntityLink {
            id: "l1".to_string(),
            entity_id: id.to_string(),
            target_entity_id: None,
            target_entity_label: None,
            name: "owner".to_string(),
            description: None,
            listing_index: 0,
        }],
        incoming_links: None,
        incoming_links_count: None,
        outgoing_links_count: None,
    }
}

fn template_attribute(id: &str, name: &str, listing_index: i32) -> EntityTemplateAttribute {
    EntityTemplateAttribute {
        access_level_id: 2,
        default_value: None,
        description: format!("{name} of it"),
        id: id.to_string(),
        is_required: true,
        listing_index,
        name: name.to_string(),
        value_type: "text".to_string(),
    }
}

fn template(id: &str, name: &str) -> EntityTemplate {
    EntityTemplate {
        attributes: vec![
            template_attribute("t-b", "Brand", 1),
            template_attribute("t-a", "Model", 0),
        ],
        description: String::new(),
        id: id.to_string(),
        links: vec![],
        listing_attribute_id: "t-b".to_string(),
        name: name.to_string(),
        owner_user_id: "u1".to_string(),
        owner_username: None,
    }
}

#[test]
fn explorer_rights_follow_permissions() {
    let viewer = explorer_access(Some(&session(&["Viewer"])));
    assert!(viewer.is_authorized && !viewer.can_create && !viewer.can_assign_owner);
    let own = explorer_access(Some(&session(&["Manage Own Data"])));
    assert!(own.is_authorized && own.can_create && !own.can_assign_owner);
    let admin = explorer_access(Some(&session(&["Admin"])));
    assert!(admin.is_authorized && admin.can_create && admin.can_assign_owner);
    let guest = explorer_access(None);
    assert!(!guest.is_authenticated && !guest.is_authorized);
    assert_eq!(access_denied_notice(false), "You must be authenticated to access this section.");
    assert_eq!(access_denied_notice(true), "You are not authorized to access this section.");
}

#[test]
fn searches_need_three_bytes() {
    assert_eq!(effective_search("ab"), "");
    assert_eq!(effective_search("abc"), "abc");
    assert_eq!(effective_search("añ"), "añ");
    assert_eq!(total_pages(0), 1);
    assert_eq!(total_pages(10), 1);
    assert_eq!(total_pages(11), 2);
    assert_eq!(total_pages(u32::MAX), 429496730);
}

#[test]
fn typing_a_search_requests_the_first_page() {
    let (mut state, first) = ExplorerState::new(true);
    let first = first.unwrap();
    assert_eq!((first.search.as_str(), first.page), ("", 1));
    assert!(state.is_loading);
    state.on_page_loaded(Ok(35));
    assert!(!state.is_loading);
    assert_eq!(state.total, 35);
    let next = state.on_next_page().unwrap();
    assert_eq!(next.page, 2);
    state.on_page_loaded(Ok(35));
    state.page = 4;
    assert!(state.on_next_page().is_none());
    let request = state.on_search_input("bl".to_string());
    assert_eq!(request.search, "");
    assert_eq!(request.page, 1);
    assert_eq!(state.search_term, "bl");
    assert!(state.on_previous_page().is_none());
    state.on_page_loaded(Err("Data is unavailable".to_string()));
    assert_eq!(state.error.as_deref(), Some("Data is unavailable"));
    let retry = state.on_retry();
    assert!(state.error.is_none());
    assert_eq!(retry.page, 1);
    let (guest, none) = ExplorerState::new(false);
    assert!(none.is_none());
    assert!(!guest.is_loading);
}

#[test]
fn choosing_a_saved_view_applies_its_search() {
    let views = vec![view("sv-1", "Cars", "", "car"), view("sv-2", "Blue", "Blue things", "bl")];
    let (mut state, _) = ExplorerState::new(true);
    state.is_saved_views_menu_open = true;
    let request = state.on_select_saved_view(&views, &"sv-2".to_string()).unwrap();
    assert_eq!(request.search, "bl");
    assert_eq!(state.search_term, "bl");
    assert_eq!(state.selected_view_id, "sv-2");
    assert!(!state.is_saved_views_menu_open);
    assert!(state.on_select_saved_view(&views, &"sv-9".to_string()).is_none());
    assert_eq!(state.selected_view_id, "");
    assert_eq!(state.search_term, "bl");
    let cleared = state.on_select_saved_view(&views, &String::new()).unwrap();
    assert_eq!(cleared.search, "");
    assert_eq!(state.search_term, "");
}

#[test]
fn saved_view_menu_and_tooltips() {
    let views = vec![view("sv-1", "Cars", "", "car"), view("sv-2", "Blue", "Blue things", "bl")];
    let options = saved_view_options(&views);
    assert_eq!(options.len(), 3);
    assert_eq!((options[0].label.as_str(), options[0].value.as_str()), ("Views", ""));
    assert_eq!((options[2].label.as_str(), options[2].value.as_str()), ("Blue", "sv-2"));
    assert_eq!(selected_view_summary(&views, &"sv-1".to_string()), "Cars");
    assert_eq!(selected_view_summary(&views, &"x".to_string()), "");
    assert_eq!(selected_view_tooltip(&views, &"sv-1".to_string()), "View filter: car");
    assert_eq!(selected_view_tooltip(&views, &"sv-2".to_string()), "Blue things");
    assert_eq!(
        selected_view_tooltip(&views, &String::new()),
        "Search through entities' attributes and links names and values"
    );
    assert_eq!(saved_views_key("u7"), "rebirth.data-explorer.views.u7");
}

#[test]
fn saving_views_checks_name_and_search() {
    let mut views: Vec<SavedView> = vec![];
    let mut editor = ViewsEditor::new();
    editor.set_name("   ".to_string());
    assert!(!editor.can_save());
    assert!(!editor.save(&mut views));
    assert_eq!(editor.form_error.as_deref(), Some("Name is required"));
    editor.set_name(" Cars ".to_string());
    assert!(editor.form_error.is_none());
    assert!(!editor.save(&mut views));
    assert_eq!(editor.form_error.as_deref(), Some("Search filter is required"));
    editor.use_current_search(" car ");
    editor.set_description(" mine ".to_string());
    assert!(editor.save(&mut views));
    assert_eq!(views.len(), 1);
    assert_eq!(views[0].id, "sv-1");
    assert_eq!(views[0].name, "Cars");
    assert_eq!(views[0].description, "mine");
    assert_eq!(views[0].search_text, "car");
    assert_eq!(editor.selected_id.as_deref(), Some("sv-1"));
    editor.set_name("Autos".to_string());
    assert!(editor.save(&mut views));
    assert_eq!(views.len(), 1);
    assert_eq!(views[0].name, "Autos");
    editor.start_new_view("bike");
    editor.set_name("Bikes".to_string());
    assert!(editor.save(&mut views));
    assert_eq!(views[1].id, "sv-2");
    assert_eq!(views[1].search_text, "bike");
}

#[test]
fn deleting_a_view_clears_the_editor() {
    let mut views = vec![view("sv-1", "Cars", "", "car"), view("sv-2", "Blue", "", "bl")];
    let mut editor = ViewsEditor::new();
    editor.pick_view(&views[0]);
    editor.ask_delete_from_editor();
    assert!(editor.is_editor_confirm_open());
    assert_eq!(editor.delete_confirm_target.as_deref(), Some("editor:sv-1"));
    editor.confirm_delete(&mut views, &"sv-1".to_string());
    assert!(editor.delete_confirm_target.is_none());
    assert!(editor.selected_id.is_none());
    assert_eq!(editor.name_input, "");
    assert_eq!(views.len(), 1);
    assert_eq!(views[0].id, "sv-2");
    editor.ask_delete_from_list("sv-2");
    assert!(editor.is_list_confirm_open("sv-2"));
    assert!(!editor.is_list_confirm_open("sv-1"));
    editor.cancel_delete();
    assert!(editor.delete_confirm_target.is_none());
}

#[test]
fn new_entity_copies_template_attributes_in_listing_order() {
    let templates = vec![template("t1", "Car"), template("t2", "Bike")];
    assert_eq!(effective_create_source(false, CreateEntitySource::Template), CreateEntitySource::Scratch);
    assert!(!can_open_create(true, CreateEntitySource::Template, ""));
    assert!(can_open_create(true, CreateEntitySource::Template, "t1"));
    assert!(can_open_create(false, CreateEntitySource::Template, ""));
    let options = template_options(&templates);
    assert_eq!(options[1].label, "Bike");
    assert_eq!(template_summary(&templates, "t2"), "Bike");
    assert_eq!(attribute_ids_needed(&templates, CreateEntitySource::Template, "t1"), 2);
    assert_eq!(attribute_ids_needed(&templates, CreateEntitySource::Scratch, "t1"), 0);
    let ids = vec!["n-1".to_string(), "n-2".to_string()];
    let state = open_create_entity(&templates, CreateEntitySource::Template, &"t1".to_string(), &ids);
    assert_eq!(state.source, CreateEntitySource::Template);
    assert_eq!(state.attributes.len(), 2);
    assert_eq!(state.attributes[0].name, "Model");
    assert_eq!(state.attributes[0].id, "n-1");
    assert_eq!(state.attributes[1].name, "Brand");
    assert_eq!(state.attributes[1].value, "");
    assert!(state.attributes[1].is_required);
    assert_eq!(state.listing_attribute_id, "n-2");
    assert_eq!(state.active_tab, EntityTab::Attributes);
    let scratch = open_create_entity(&templates, CreateEntitySource::Scratch, &"t1".to_string(), &vec![]);
    assert!(scratch.attributes.is_empty());
    assert_eq!(scratch.listing_attribute_id, "");
}

#[test]
fn entity_rows_show_listing_value_and_links() {
    let mut e = entity("e1");
    let row = entity_row_summary(&e);
    assert_eq!(row.listing_name, "Name");
    assert_eq!(row.listing_value, "Blue car");
    assert_eq!(row.outgoing, 1);
    assert_eq!(row.incoming, 0);
    assert_eq!(row.outgoing_tooltip, "1 outgoing link");
    assert_eq!(row.incoming_tooltip, "0 incoming links");
    e.incoming_links_count = Some(3);
    e.listing_attribute_id = "missing".to_string();
    let row = entity_row_summary(&e);
    assert_eq!(row.incoming_tooltip, "3 incoming links");
    assert_eq!(row.listing_value, "");
}

#[test]
fn opening_an_entity_twice_raises_its_window() {
    let mut windows = vec![];
    let mut next_id = 1u32;
    let id = open_entity_details_window(&mut windows, &mut next_id, "e1").unwrap();
    assert_eq!(id, "entity-window-1");
    assert_eq!(windows[0].z_index, 21);
    assert!(windows[0].is_loading);
    let second = open_entity_details_window(&mut windows, &mut next_id, "e2").unwrap();
    assert_eq!(second, "entity-window-2");
    assert_eq!(windows[1].z_index, 22);
    assert!(open_entity_details_window(&mut windows, &mut next_id, "e1").is_none());
    assert_eq!(windows.len(), 2);
    assert_eq!(windows[0].z_index, 23);
    assert_eq!(next_id, 3);
    entity_window_loaded(&mut windows, "entity-window-1", Ok(entity("e1")));
    assert!(!windows[0].is_loading);
    assert_eq!(windows[0].edit_attributes.len(), 2);
    assert!(windows[0].entity.is_some());
    entity_window_loaded(&mut windows, "entity-window-2", Err("Data is unavailable".to_string()));
    assert_eq!(windows[1].error.as_deref(), Some("Data is unavailable"));
}
