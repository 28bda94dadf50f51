use rebirth::types::{Route, Theme};

#[test]
fn theme_names_round_trip() {
    assert_eq!(Theme::Light.as_str(), "light");
    assert_eq!(Theme::Dark.as_str(), "dark");
    assert_eq!(Theme::from_str("dark"), Some(Theme::Dark));
    assert_eq!(Theme::from_str("light"), Some(Theme::Light));
    assert_eq!(Theme::from_str("Dark"), None);
}

#[test]
fn route_paths_and_labels() {
    assert_eq!(Route::from_path("/data-explorer"), Route::DataExplorer);
    assert_eq!(Route::from_path("/types"), Route::Templates);
    assert_eq!(Route::from_path("/profile"), Route::Profile);
    assert_eq!(Route::from_path("/nowhere"), Route::Home);
    assert_eq!(Route::Profile.path(), "/user-profile");
    assert_eq!(Route::DataExplorer.label(), "Data Explorer");
}
