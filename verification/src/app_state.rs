//! The application shell: its state, the events of the header and the
//! login, and what must be written to the browser in answer. The user
//! interface performs those writes and draws the state.

use vstd::prelude::*;

use crate::entity_editor::EntityDetailsWindow;
use crate::sort::Duplicate;
use crate::stack::OpenModal;
use crate::types::{
    AccessLevel, AuthSession, Entity, EntityTemplate, Permission, Route, Theme, User,
};

verus! {

/// Everything the application shell keeps.
#[derive(Clone, Debug)]
pub struct AppState {
    pub theme: Theme,
    pub route: Route,
    pub menu_open: bool,
    pub auth_session: Option<AuthSession>,
    pub modals: Vec<OpenModal>,
    pub next_modal_id: u32,
    pub entities: Vec<Entity>,
    pub entity_templates: Vec<EntityTemplate>,
    pub access_levels: Vec<AccessLevel>,
    pub owner_users: Vec<User>,
    pub entity_windows: Vec<EntityDetailsWindow>,
    pub next_window_id: u32,
    pub security_access_levels: Vec<AccessLevel>,
    pub security_users: Vec<User>,
    pub security_permissions: Vec<Permission>,
}

/// What happens in the shell.
#[derive(Clone, Debug)]
pub enum AppEvent {
    /// A navigation button or menu entry was used.
    Navigate(Route),
    ToggleMenu,
    ToggleTheme,
    Logout,
    /// The login form signed a user in.
    LoggedIn(AuthSession),
    /// The profile page changed the signed-in user.
    SessionUpdated(AuthSession),
}

/// What the shell asks the browser to do.
#[derive(Clone, Debug)]
pub enum AppAction {
    StoreTheme(Theme),
    StoreSession(AuthSession),
    ClearSession,
    /// Show the route's path in the address bar.
    PushPath(Route),
}

/// The theme stored in the browser, or the light theme.
pub open spec fn stored_theme(stored: Option<Seq<char>>) -> Theme {
    match stored {
        Some(s) => if s == "light"@ {
            Theme::Light
        } else if s == "dark"@ {
            Theme::Dark
        } else {
            Theme::Light
        },
        None => Theme::Light,
    }
}

pub fn load_stored_theme(stored: Option<&str>) -> (r: Theme)
    ensures
        r == stored_theme(
            match stored {
                Some(s) => Some(s@),
                None => None,
            },
        ),
{
    match stored {
        Some(s) => match Theme::from_str(s) {
            Some(t) => t,
            None => Theme::Light,
        },
        None => Theme::Light,
    }
}

/// The route of the page the browser opened; an empty or unknown path is
/// the home page.
pub open spec fn initial_route(path: Option<Seq<char>>) -> Route {
    match path {
        Some(p) => if p.len() > 0 {
            Route::spec_from_path(p)
        } else {
            Route::Home
        },
        None => Route::Home,
    }
}

pub fn load_initial_route(path: Option<&str>) -> (r: Route)
    ensures
        r == initial_route(
            match path {
                Some(p) => Some(p@),
                None => None,
            },
        ),
{
    match path {
        Some(p) => if p.is_empty() {
            Route::Home
        } else {
            Route::from_path(p)
        },
        None => Route::Home,
    }
}

/// The shell holds no data of a signed-in user.
pub open spec fn holds_no_user_data(s: AppState) -> bool {
    &&& s.auth_session is None
    &&& s.entities@.len() == 0
    &&& s.entity_templates@.len() == 0
    &&& s.access_levels@.len() == 0
    &&& s.owner_users@.len() == 0
    &&& s.entity_windows@.len() == 0
    &&& s.security_access_levels@.len() == 0
    &&& s.security_users@.len() == 0
    &&& s.security_permissions@.len() == 0
}

#[allow(non_snake_case)]
/// The shell as the application starts: the stored theme, the route of the
/// browser's path, the stored session, nothing loaded and no window open.
pub fn App(
    stored_theme_name: Option<&str>,
    path: Option<&str>,
    stored_session: Option<AuthSession>,
) -> (r: AppState)
    ensures
        r.theme == stored_theme(
            match stored_theme_name {
                Some(s) => Some(s@),
                None => None,
            },
        ),
        r.route == initial_route(
            match path {
                Some(p) => Some(p@),
                None => None,
            },
        ),
        !r.menu_open,
        r.auth_session == stored_session,
        r.modals@.len() == 0,
        r.next_modal_id == 1,
        r.next_window_id == 1,
        holds_no_user_data(AppState { auth_session: None, ..r }),
{
    AppState {
        theme: load_stored_theme(stored_theme_name),
        route: load_initial_route(path),
        menu_open: false,
        auth_session: stored_session,
        modals: Vec::new(),
        next_modal_id: 1,
        entities: Vec::new(),
        entity_templates: Vec::new(),
        access_levels: Vec::new(),
        owner_users: Vec::new(),
        entity_windows: Vec::new(),
        next_window_id: 1,
        security_access_levels: Vec::new(),
        security_users: Vec::new(),
        security_permissions: Vec::new(),
    }
}

impl AppState {
    /// Handles one event and returns the writes the browser must perform,
    /// in order.
    pub fn handle(&mut self, event: AppEvent) -> (actions: Vec<AppAction>)
        ensures
            match event {
                AppEvent::Navigate(route) => {
                    &&& *final(self) == (AppState { route, menu_open: false, ..*old(self) })
                    &&& actions@ == seq![AppAction::PushPath(route)]
                },
                AppEvent::ToggleMenu => {
                    &&& *final(self) == (AppState { menu_open: !old(self).menu_open, ..*old(self) })
                    &&& actions@.len() == 0
                },
                AppEvent::ToggleTheme => {
                    let next = if old(self).theme == Theme::Light {
                        Theme::Dark
                    } else {
                        Theme::Light
                    };
                    &&& *final(self) == (AppState { theme: next, menu_open: false, ..*old(self) })
                    &&& actions@ == seq![AppAction::StoreTheme(next)]
                },
                AppEvent::Logout => {
                    &&& holds_no_user_data(*final(self))
                    &&& final(self).route == Route::Home
                    &&& !final(self).menu_open
                    &&& final(self).theme == old(self).theme
                    &&& final(self).modals == old(self).modals
                    &&& final(self).next_modal_id == old(self).next_modal_id
                    &&& final(self).next_window_id == old(self).next_window_id
                    &&& actions@ == seq![AppAction::ClearSession, AppAction::PushPath(Route::Home)]
                },
                AppEvent::LoggedIn(session) => {
                    &&& final(self).auth_session matches Some(s) && s@ == session@
                    &&& *final(self) == (AppState {
                        auth_session: final(self).auth_session,
                        route: Route::Home,
                        ..*old(self)
                    })
                    &&& actions@.len() == 2
                    &&& actions@[0] matches AppAction::StoreSession(s) && s@ == session@
                    &&& actions@[1] == AppAction::PushPath(Route::Home)
                },
                AppEvent::SessionUpdated(session) => {
                    &&& final(self).auth_session matches Some(s) && s@ == session@
                    &&& *final(self) == (AppState {
                        auth_session: final(self).auth_session,
                        ..*old(self)
                    })
                    &&& actions@.len() == 1
                    &&& actions@[0] matches AppAction::StoreSession(s) && s@ == session@
                },
            },
    {
        let mut actions: Vec<AppAction> = Vec::new();
        match event {
            AppEvent::Navigate(route) => {
                self.route = route;
                actions.push(AppAction::PushPath(route));
                self.menu_open = false;
            },
            AppEvent::ToggleMenu => {
                self.menu_open = !self.menu_open;
            },
            AppEvent::ToggleTheme => {
                let next = self.theme.toggled();
                self.theme = next;
                actions.push(AppAction::StoreTheme(next));
                self.menu_open = false;
            },
            AppEvent::Logout => {
                self.auth_session = None;
                self.security_access_levels = Vec::new();
                self.security_users = Vec::new();
                self.security_permissions = Vec::new();
                self.entities = Vec::new();
                self.entity_templates = Vec::new();
                self.access_levels = Vec::new();
                self.owner_users = Vec::new();
                self.entity_windows = Vec::new();
                actions.push(AppAction::ClearSession);
                self.route = Route::Home;
                actions.push(AppAction::PushPath(Route::Home));
                self.menu_open = false;
            },
            AppEvent::LoggedIn(session) => {
                actions.push(AppAction::StoreSession(session.duplicate()));
                self.auth_session = Some(session);
                self.route = Route::Home;
                actions.push(AppAction::PushPath(Route::Home));
            },
            AppEvent::SessionUpdated(session) => {
                actions.push(AppAction::StoreSession(session.duplicate()));
                self.auth_session = Some(session);
            },
        }
        actions
    }
}

/// A button of the header's navigation.
#[derive(Clone, Copy, Debug)]
pub struct NavItem {
    pub route: Route,
    pub label: &'static str,
    pub is_active: bool,
}

/// The routes the header's navigation offers, in order.
pub open spec fn nav_routes() -> Seq<Route> {
    seq![Route::Home, Route::DataExplorer, Route::Templates, Route::Security, Route::Audit]
}

/// The header's navigation; the current route's button is active.
pub fn header_nav(current: Route) -> (r: Vec<NavItem>)
    ensures
        r@.len() == nav_routes().len(),
        forall|i: int|
            0 <= i < r@.len() ==> (#[trigger] r@[i]).route == nav_routes()[i] && r@[i].label@
                == nav_routes()[i].spec_label() && r@[i].is_active == (nav_routes()[i] == current),
{
    let routes: [Route; 5] = [
        Route::Home,
        Route::DataExplorer,
        Route::Templates,
        Route::Security,
        Route::Audit,
    ];
    let mut r: Vec<NavItem> = Vec::new();
    let mut i: usize = 0;
    while i < 5
        invariant
            i <= 5,
            routes@ == nav_routes(),
            r@.len() == i,
            forall|k: int|
                0 <= k < i ==> (#[trigger] r@[k]).route == nav_routes()[k] && r@[k].label@
                    == nav_routes()[k].spec_label() && r@[k].is_active == (nav_routes()[k]
                    == current),
        decreases 5 - i,
    {
        let route = routes[i];
        r.push(NavItem { route, label: route.label(), is_active: route == current });
        i = i + 1;
    }
    r
}

/// An entry of the user menu.
#[derive(Clone, Copy, PartialEq, Eq, Structural, Debug)]
pub enum MenuEntry {
    Profile,
    Logout,
    Login,
    ToggleTheme,
}

/// The user menu: profile and logout for a signed-in user, login otherwise,
/// then the theme toggle.
pub fn user_menu(logged_in: bool) -> (r: Vec<MenuEntry>)
    ensures
        logged_in ==> r@ == seq![MenuEntry::Profile, MenuEntry::Logout, MenuEntry::ToggleTheme],
        !logged_in ==> r@ == seq![MenuEntry::Login, MenuEntry::ToggleTheme],
{
    let mut r: Vec<MenuEntry> = Vec::new();
    if logged_in {
        r.push(MenuEntry::Profile);
        r.push(MenuEntry::Logout);
    } else {
        r.push(MenuEntry::Login);
    }
    r.push(MenuEntry::ToggleTheme);
    r
}

/// The title of the theme toggle.
pub fn theme_toggle_title(theme: Theme) -> (r: &'static str)
    ensures
        theme == Theme::Light ==> r@ == "Switch to dark theme"@,
        theme == Theme::Dark ==> r@ == "Switch to light theme"@,
{
    if theme == Theme::Light {
        "Switch to dark theme"
    } else {
        "Switch to light theme"
    }
}

} // verus!
