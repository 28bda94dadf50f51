//! Domain types shared by the views and the request encoders.

use vstd::prelude::*;

use crate::sort::Duplicate;
use crate::text_std::str_eq;

verus! {

/// Copy of an optional string.
pub fn dup_opt(o: &Option<String>) -> (r: Option<String>)
    ensures
        r == *o,
{
    match o {
        Some(s) => Some(s.clone()),
        None => None,
    }
}

/// Copy of a list whose items are their own views.
pub fn dup_vec<T: Duplicate<V = T>>(v: &Vec<T>) -> (r: Vec<T>)
    requires
        forall|x: T| #[trigger] x@ == x,
    ensures
        r@ == v@,
{
    let mut r: Vec<T> = Vec::new();
    let mut i: usize = 0;
    while i < v.len()
        invariant
            i <= v@.len(),
            forall|x: T| #[trigger] x@ == x,
            r@ == v@.take(i as int),
        decreases v@.len() - i,
    {
        let x = v[i].duplicate();
        assert(x == v@[i as int]);
        r.push(x);
        assert(v@.take(i as int + 1) =~= v@.take(i as int).push(v@[i as int]));
        i = i + 1;
    }
    assert(v@.take(i as int) =~= v@);
    r
}

impl Duplicate for u32 {
    fn duplicate(&self) -> (r: Self) {
        *self
    }
}

impl Duplicate for String {
    fn duplicate(&self) -> (r: Self) {
        self.clone()
    }
}

/// Colour theme of the interface.
#[derive(Clone, Copy, PartialEq, Eq, Structural, Debug)]
pub enum Theme {
    Light,
    Dark,
}

/// Top-level page of the application.
#[derive(Clone, Copy, PartialEq, Eq, Structural, Debug)]
pub enum Route {
    Home,
    DataExplorer,
    Templates,
    Security,
    Audit,
    Profile,
    Login,
}

impl Theme {
    /// Name under which the theme is stored and set on the document.
    pub open spec fn spec_name(self) -> Seq<char> {
        match self {
            Theme::Light => "light"@,
            Theme::Dark => "dark"@,
        }
    }

    pub fn as_str(self) -> (r: &'static str)
        ensures
            r@ == self.spec_name(),
    {
        match self {
            Theme::Light => "light",
            Theme::Dark => "dark",
        }
    }

    /// The theme stored under `value`, if any.
    pub fn from_str(value: &str) -> (r: Option<Theme>)
        ensures
            r == (if value@ == "light"@ {
                Some(Theme::Light)
            } else if value@ == "dark"@ {
                Some(Theme::Dark)
            } else {
                None
            }),
    {
        if str_eq(value, "light") {
            Some(Theme::Light)
        } else if str_eq(value, "dark") {
            Some(Theme::Dark)
        } else {
            None
        }
    }

    /// The other theme, as the theme toggle switches.
    pub fn toggled(self) -> (r: Theme)
        ensures
            r == (if self == Theme::Light {
                Theme::Dark
            } else {
                Theme::Light
            }),
    {
        if self == Theme::Light {
            Theme::Dark
        } else {
            Theme::Light
        }
    }
}

impl Route {
    /// The route a location path opens; unknown paths open the home page.
    pub open spec fn spec_from_path(path: Seq<char>) -> Route {
        if path == "/data-explorer"@ {
            Route::DataExplorer
        } else if path == "/templates"@ || path == "/types"@ {
            Route::Templates
        } else if path == "/security"@ {
            Route::Security
        } else if path == "/audit"@ {
            Route::Audit
        } else if path == "/user-profile"@ || path == "/profile"@ {
            Route::Profile
        } else if path == "/login"@ {
            Route::Login
        } else {
            Route::Home
        }
    }

    /// The canonical location path of the route.
    pub open spec fn spec_path(self) -> Seq<char> {
        match self {
            Route::Home => "/"@,
            Route::DataExplorer => "/data-explorer"@,
            Route::Templates => "/templates"@,
            Route::Security => "/security"@,
            Route::Audit => "/audit"@,
            Route::Profile => "/user-profile"@,
            Route::Login => "/login"@,
        }
    }

    /// The navigation label of the route.
    pub open spec fn spec_label(self) -> Seq<char> {
        match self {
            Route::Home => "Home"@,
            Route::DataExplorer => "Data Explorer"@,
            Route::Templates => "Templates"@,
            Route::Security => "Security"@,
            Route::Audit => "Audit"@,
            Route::Profile => "Profile"@,
            Route::Login => "Login"@,
        }
    }

    pub fn from_path(path: &str) -> (r: Route)
        ensures
            r == Route::spec_from_path(path@),
    {
        if str_eq(path, "/data-explorer") {
            Route::DataExplorer
        } else if str_eq(path, "/templates") || str_eq(path, "/types") {
            Route::Templates
        } else if str_eq(path, "/security") {
            Route::Security
        } else if str_eq(path, "/audit") {
            Route::Audit
        } else if str_eq(path, "/user-profile") || str_eq(path, "/profile") {
            Route::Profile
        } else if str_eq(path, "/login") {
            Route::Login
        } else {
            Route::Home
        }
    }

    pub fn label(self) -> (r: &'static str)
        ensures
            r@ == self.spec_label(),
    {
        match self {
            Route::Home => "Home",
            Route::DataExplorer => "Data Explorer",
            Route::Templates => "Templates",
            Route::Security => "Security",
            Route::Audit => "Audit",
            Route::Profile => "Profile",
            Route::Login => "Login",
        }
    }

    pub fn path(self) -> (r: &'static str)
        ensures
            r@ == self.spec_path(),
    {
        match self {
            Route::Home => "/",
            Route::DataExplorer => "/data-explorer",
            Route::Templates => "/templates",
            Route::Security => "/security",
            Route::Audit => "/audit",
            Route::Profile => "/user-profile",
            Route::Login => "/login",
        }
    }
}

/// What a security-style modal currently shows.
#[derive(Clone, Copy, PartialEq, Eq, Structural, Debug)]
pub enum SecurityModalMode {
    Create,
    Details,
    Edit,
}

/// Tabs of the entity-template modal.
#[derive(Clone, Copy, PartialEq, Eq, Structural, Debug)]
pub enum EntityTemplateTab {
    Attributes,
    Links,
    Inlinks,
}

/// Where a new entity-template attribute comes from.
#[derive(Clone, Copy, PartialEq, Eq, Structural, Debug)]
pub enum EntityTemplateAttributeSourceTab {
    Existing,
    New,
}

#[derive(Clone, Debug)]
pub struct AccessLevel {
    pub description: String,
    pub id: u32,
    pub name: String,
}

impl View for AccessLevel {
    type V = AccessLevel;

    open spec fn view(&self) -> AccessLevel {
        *self
    }
}

impl Duplicate for AccessLevel {
    fn duplicate(&self) -> (r: Self) {
        AccessLevel { description: self.description.clone(), id: self.id, name: self.name.clone() }
    }
}

#[derive(Clone, Debug)]
pub struct Permission {
    pub description: String,
    pub id: u32,
    pub name: String,
}

impl View for Permission {
    type V = Permission;

    open spec fn view(&self) -> Permission {
        *self
    }
}

impl Duplicate for Permission {
    fn duplicate(&self) -> (r: Self) {
        Permission { description: self.description.clone(), id: self.id, name: self.name.clone() }
    }
}

#[derive(Clone, Debug)]
pub struct User {
    pub access_levels: Vec<AccessLevel>,
    pub email: String,
    pub first_name: String,
    pub id: String,
    pub last_name: String,
    pub permissions: Vec<Permission>,
    pub username: String,
}

/// A user with its lists as sequences.
pub struct UserView {
    pub access_levels: Seq<AccessLevel>,
    pub email: String,
    pub first_name: String,
    pub id: String,
    pub last_name: String,
    pub permissions: Seq<Permission>,
    pub username: String,
}

impl View for User {
    type V = UserView;

    open spec fn view(&self) -> UserView {
        UserView {
            access_levels: self.access_levels@,
            email: self.email,
            first_name: self.first_name,
            id: self.id,
            last_name: self.last_name,
            permissions: self.permissions@,
            username: self.username,
        }
    }
}

impl Duplicate for User {
    fn duplicate(&self) -> (r: Self) {
        User {
            access_levels: dup_vec(&self.access_levels),
            email: self.email.clone(),
            first_name: self.first_name.clone(),
            id: self.id.clone(),
            last_name: self.last_name.clone(),
            permissions: dup_vec(&self.permissions),
            username: self.username.clone(),
        }
    }
}

#[derive(Clone, Debug)]
pub struct AuthSession {
    pub session_key: String,
    pub user: User,
}

/// A session with its user as a view.
pub struct AuthSessionView {
    pub session_key: String,
    pub user: UserView,
}

impl View for AuthSession {
    type V = AuthSessionView;

    open spec fn view(&self) -> AuthSessionView {
        AuthSessionView { session_key: self.session_key, user: self.user@ }
    }
}

impl Duplicate for AuthSession {
    fn duplicate(&self) -> (r: Self) {
        AuthSession { session_key: self.session_key.clone(), user: self.user.duplicate() }
    }
}

#[derive(Clone, Debug)]
pub struct LoginInput {
    pub identifier: String,
    pub password: String,
}

#[derive(Clone, Debug)]
pub struct LoginResponse {
    pub data: AuthSession,
}

#[derive(Clone, Debug)]
pub struct AuditEvent {
    pub id: String,
    pub name: String,
    pub content: String,
    pub created_at: String,
}

#[derive(Clone, Debug)]
pub struct AuditEventsResponse {
    pub data: Vec<AuditEvent>,
}

#[derive(Clone, Debug)]
pub struct AccessLevelsResponse {
    pub data: Vec<AccessLevel>,
}

#[derive(Clone, Debug)]
pub struct AccessLevelResponse {
    pub data: AccessLevel,
}

#[derive(Clone, Debug)]
pub struct AttributeTemplate {
    pub access_level_id: u32,
    pub default_value: Option<String>,
    pub description: String,
    pub id: String,
    pub is_required: bool,
    pub name: String,
    pub owner_user_id: String,
    pub owner_username: Option<String>,
    pub value_type: String,
}

impl View for AttributeTemplate {
    type V = AttributeTemplate;

    open spec fn view(&self) -> AttributeTemplate {
        *self
    }
}

impl Duplicate for AttributeTemplate {
    fn duplicate(&self) -> (r: Self) {
        AttributeTemplate {
            access_level_id: self.access_level_id,
            default_value: dup_opt(&self.default_value),
            description: self.description.clone(),
            id: self.id.clone(),
            is_required: self.is_required,
            name: self.name.clone(),
            owner_user_id: self.owner_user_id.clone(),
            owner_username: dup_opt(&self.owner_username),
            value_type: self.value_type.clone(),
        }
    }
}

#[derive(Clone, Debug)]
pub struct AttributeTemplatesResponse {
    pub data: Vec<AttributeTemplate>,
}

#[derive(Clone, Debug)]
pub struct AttributeTemplateResponse {
    pub data: AttributeTemplate,
}

#[derive(Clone, Debug)]
pub struct EntityTemplateAttribute {
    pub access_level_id: u32,
    pub default_value: Option<String>,
    pub description: String,
    pub id: String,
    pub is_required: bool,
    pub listing_index: i32,
    pub name: String,
    pub value_type: String,
}

impl View for EntityTemplateAttribute {
    type V = EntityTemplateAttribute;

    open spec fn view(&self) -> EntityTemplateAttribute {
        *self
    }
}

impl Duplicate for EntityTemplateAttribute {
    fn duplicate(&self) -> (r: Self) {
        EntityTemplateAttribute {
            access_level_id: self.access_level_id,
            default_value: dup_opt(&self.default_value),
            description: self.description.clone(),
            id: self.id.clone(),
            is_required: self.is_required,
            listing_index: self.listing_index,
            name: self.name.clone(),
            value_type: self.value_type.clone(),
        }
    }
}

#[derive(Clone, Debug)]
pub struct EntityTemplateLink {
    pub description: Option<String>,
    pub entity_template_id: String,
    pub id: String,
    pub listing_index: i32,
    pub name: String,
    pub target_entity_template_id: Option<String>,
}

impl View for EntityTemplateLink {
    type V = EntityTemplateLink;

    open spec fn view(&self) -> EntityTemplateLink {
        *self
    }
}

impl Duplicate for EntityTemplateLink {
    fn duplicate(&self) -> (r: Self) {
        EntityTemplateLink {
            description: dup_opt(&self.description),
            entity_template_id: self.entity_template_id.clone(),
            id: self.id.clone(),
            listing_index: self.listing_index,
            name: self.name.clone(),
            target_entity_template_id: dup_opt(&self.target_entity_template_id),
        }
    }
}

#[derive(Clone, Debug)]
pub struct EntityTemplate {
    pub attributes: Vec<EntityTemplateAttribute>,
    pub description: String,
    pub id: String,
    pub links: Vec<EntityTemplateLink>,
    pub listing_attribute_id: String,
    pub name: String,
    pub owner_user_id: String,
    pub owner_username: Option<String>,
}

/// An entity template with its lists as sequences.
pub struct EntityTemplateView {
    pub attributes: Seq<EntityTemplateAttribute>,
    pub description: String,
    pub id: String,
    pub links: Seq<EntityTemplateLink>,
    pub listing_attribute_id: String,
    pub name: String,
    pub owner_user_id: String,
    pub owner_username: Option<String>,
}

impl View for EntityTemplate {
    type V = EntityTemplateView;

    open spec fn view(&self) -> EntityTemplateView {
        EntityTemplateView {
            attributes: self.attributes@,
            description: self.description,
            id: self.id,
            links: self.links@,
            listing_attribute_id: self.listing_attribute_id,
            name: self.name,
            owner_user_id: self.owner_user_id,
            owner_username: self.owner_username,
        }
    }
}

impl Duplicate for EntityTemplate {
    fn duplicate(&self) -> (r: Self) {
        EntityTemplate {
            attributes: dup_vec(&self.attributes),
            description: self.description.clone(),
            id: self.id.clone(),
            links: dup_vec(&self.links),
            listing_attribute_id: self.listing_attribute_id.clone(),
            name: self.name.clone(),
            owner_user_id: self.owner_user_id.clone(),
            owner_username: dup_opt(&self.owner_username),
        }
    }
}

#[derive(Clone, Debug)]
pub struct EntityTemplatesResponse {
    pub data: Vec<EntityTemplate>,
}

#[derive(Clone, Debug)]
pub struct EntityTemplateResponse {
    pub data: EntityTemplate,
}

/// Error body of a failed API call.
#[derive(Clone, Debug)]
pub struct ApiErrorPayload {
    pub error: ApiErrorValue,
}

/// The two shapes the API uses for an error.
#[derive(Clone, Debug)]
pub enum ApiErrorValue {
    Message(String),
    Details { message: String },
}

#[derive(Clone, Debug)]
pub struct PermissionsResponse {
    pub data: Vec<Permission>,
}

#[derive(Clone, Debug)]
pub struct UsersResponse {
    pub data: Vec<User>,
}

#[derive(Clone, Debug)]
pub struct UserResponse {
    pub data: User,
}

#[derive(Clone, Debug)]
pub struct UpdateUserInfoInput {
    pub email: String,
    pub first_name: String,
    pub last_name: String,
    pub username: String,
}

#[derive(Clone, Debug)]
pub struct UpdatePasswordInput {
    pub current_password: String,
    pub new_password: String,
}

#[derive(Clone, Debug)]
pub struct EntityAttribute {
    pub access_level_id: u32,
    pub description: String,
    pub id: String,
    pub is_required: bool,
    pub listing_index: i32,
    pub name: String,
    pub value: String,
    pub value_type: String,
}

impl View for EntityAttribute {
    type V = EntityAttribute;

    open spec fn view(&self) -> EntityAttribute {
        *self
    }
}

impl Duplicate for EntityAttribute {
    fn duplicate(&self) -> (r: Self) {
        EntityAttribute {
            access_level_id: self.access_level_id,
            description: self.description.clone(),
            id: self.id.clone(),
            is_required: self.is_required,
            listing_index: self.listing_index,
            name: self.name.clone(),
            value: self.value.clone(),
            value_type: self.value_type.clone(),
        }
    }
}

#[derive(Clone, Debug)]
pub struct EntityLink {
    pub id: String,
    pub entity_id: String,
    pub target_entity_id: Option<String>,
    pub target_entity_label: Option<String>,
    pub name: String,
    pub description: Option<String>,
    pub listing_index: i32,
}

impl View for EntityLink {
    type V = EntityLink;

    open spec fn view(&self) -> EntityLink {
        *self
    }
}

impl Duplicate for EntityLink {
    fn duplicate(&self) -> (r: Self) {
        EntityLink {
            id: self.id.clone(),
            entity_id: self.entity_id.clone(),
            target_entity_id: dup_opt(&self.target_entity_id),
            target_entity_label: dup_opt(&self.target_entity_label),
            name: self.name.clone(),
            description: dup_opt(&self.description),
            listing_index: self.listing_index,
        }
    }
}

#[derive(Clone, Debug)]
pub struct EntityIncomingLink {
    pub id: String,
    pub description: Option<String>,
    pub listing_index: i32,
    pub name: String,
    pub source_entity_id: String,
    pub source_entity_label: String,
}

impl View for EntityIncomingLink {
    type V = EntityIncomingLink;

    open spec fn view(&self) -> EntityIncomingLink {
        *self
    }
}

impl Duplicate for EntityIncomingLink {
    fn duplicate(&self) -> (r: Self) {
        EntityIncomingLink {
            id: self.id.clone(),
            description: dup_opt(&self.description),
            listing_index: self.listing_index,
            name: self.name.clone(),
            source_entity_id: self.source_entity_id.clone(),
            source_entity_label: self.source_entity_label.clone(),
        }
    }
}

#[derive(Clone, Debug)]
pub struct Entity {
    pub id: String,
    pub owner_user_id: String,
    pub owner_username: Option<String>,
    pub attributes: Vec<EntityAttribute>,
    pub listing_attribute_id: String,
    pub links: Vec<EntityLink>,
    pub incoming_links: Option<Vec<EntityIncomingLink>>,
    pub incoming_links_count: Option<u32>,
    pub outgoing_links_count: Option<u32>,
}

/// An entity with its lists as sequences.
pub struct EntityView {
    pub id: String,
    pub owner_user_id: String,
    pub owner_username: Option<String>,
    pub attributes: Seq<EntityAttribute>,
    pub listing_attribute_id: String,
    pub links: Seq<EntityLink>,
    pub incoming_links: Option<Seq<EntityIncomingLink>>,
    pub incoming_links_count: Option<u32>,
    pub outgoing_links_count: Option<u32>,
}

impl View for Entity {
    type V = EntityView;

    open spec fn view(&self) -> EntityView {
        EntityView {
            id: self.id,
            owner_user_id: self.owner_user_id,
            owner_username: self.owner_username,
            attributes: self.attributes@,
            listing_attribute_id: self.listing_attribute_id,
            links: self.links@,
            incoming_links: match self.incoming_links {
                Some(l) => Some(l@),
                None => None,
            },
            incoming_links_count: self.incoming_links_count,
            outgoing_links_count: self.outgoing_links_count,
        }
    }
}

impl Duplicate for Entity {
    fn duplicate(&self) -> (r: Self) {
        Entity {
            id: self.id.clone(),
            owner_user_id: self.owner_user_id.clone(),
            owner_username: dup_opt(&self.owner_username),
            attributes: dup_vec(&self.attributes),
            listing_attribute_id: self.listing_attribute_id.clone(),
            links: dup_vec(&self.links),
            incoming_links: match &self.incoming_links {
                Some(l) => Some(dup_vec(l)),
                None => None,
            },
            incoming_links_count: self.incoming_links_count,
            outgoing_links_count: self.outgoing_links_count,
        }
    }
}

#[derive(Clone, Copy, Debug)]
pub struct Pagination {
    pub page: u32,
    pub page_size: u32,
    pub total: u32,
}

#[derive(Clone, Debug)]
pub struct EntitiesResponse {
    pub data: Vec<Entity>,
    pub pagination: Pagination,
}

#[derive(Clone, Debug)]
pub struct EntityResponse {
    pub data: Entity,
}

/// A named search of the data explorer, kept per user in the browser.
#[derive(Clone, Debug)]
pub struct SavedView {
    pub description: String,
    pub id: String,
    pub name: String,
    pub search_text: String,
}

impl View for SavedView {
    type V = SavedView;

    open spec fn view(&self) -> SavedView {
        *self
    }
}

impl Duplicate for SavedView {
    fn duplicate(&self) -> (r: Self) {
        SavedView {
            description: self.description.clone(),
            id: self.id.clone(),
            name: self.name.clone(),
            search_text: self.search_text.clone(),
        }
    }
}

/// State of the access-level modal.
#[derive(Clone, Debug)]
pub struct AccessLevelModal {
    pub description: String,
    pub error: Option<String>,
    pub id: Option<u32>,
    pub is_delete_confirm_open: bool,
    pub is_info_open: bool,
    pub is_saving: bool,
    pub mode: SecurityModalMode,
    pub name: String,
    pub session_key: String,
}

/// State of the user modal.
#[derive(Clone, Debug)]
pub struct UserModal {
    pub access_level_ids: Vec<u32>,
    pub access_levels: Vec<AccessLevel>,
    pub email: String,
    pub error: Option<String>,
    pub first_name: String,
    pub id: Option<String>,
    pub is_access_level_menu_open: bool,
    pub is_delete_confirm_open: bool,
    pub is_info_open: bool,
    pub is_password_visible: bool,
    pub is_permission_menu_open: bool,
    pub is_saving: bool,
    pub last_name: String,
    pub mode: SecurityModalMode,
    pub password: String,
    pub permission_ids: Vec<u32>,
    pub permissions: Vec<Permission>,
    pub session_key: String,
    pub username: String,
}

/// State of the attribute-template modal.
#[derive(Clone, Debug)]
pub struct AttributeTemplateModal {
    pub access_level_id: u32,
    pub access_levels: Vec<AccessLevel>,
    pub can_assign_owner: bool,
    pub can_edit: bool,
    pub default_value: String,
    pub description: String,
    pub error: Option<String>,
    pub id: Option<String>,
    pub is_access_level_menu_open: bool,
    pub is_delete_confirm_open: bool,
    pub is_info_open: bool,
    pub is_ownership_open: bool,
    pub is_required: bool,
    pub is_saving: bool,
    pub is_value_type_menu_open: bool,
    pub mode: SecurityModalMode,
    pub name: String,
    pub owner_user_id: Option<String>,
    pub owner_username: Option<String>,
    pub owner_users: Vec<User>,
    pub session_key: String,
    pub value_type: String,
}

/// State of the entity-template modal; `attribute_templates` and
/// `entity_templates` hold the lists the modal picks from.
#[derive(Clone, Debug)]
pub struct EntityTemplateModal {
    pub access_levels: Vec<AccessLevel>,
    pub active_tab: EntityTemplateTab,
    pub attribute_source_tab: EntityTemplateAttributeSourceTab,
    pub attribute_templates: Vec<AttributeTemplate>,
    pub can_edit: bool,
    pub dragging_attribute_id: Option<String>,
    pub entity_template: EntityTemplate,
    pub entity_templates: Vec<EntityTemplate>,
    pub error: Option<String>,
    pub open_attribute_access_level_menu_id: Option<String>,
    pub open_attribute_value_type_menu_id: Option<String>,
    pub open_link_target_menu_id: Option<String>,
    pub is_attribute_template_menu_open: bool,
    pub is_attribute_popover_open: bool,
    pub is_delete_confirm_open: bool,
    pub is_info_open: bool,
    pub is_listing_attribute_menu_open: bool,
    pub is_new_attribute_value_type_menu_open: bool,
    pub is_ownership_open: bool,
    pub is_saving: bool,
    pub mode: SecurityModalMode,
    pub new_attribute_description: String,
    pub new_attribute_name: String,
    pub new_attribute_save_as_template: bool,
    pub new_attribute_value_type: String,
    pub owner_users: Vec<User>,
    pub selected_attribute_template_id: Option<String>,
    pub session_key: String,
}

/// What a modal window holds.
#[derive(Clone, Debug)]
pub enum ModalContent {
    AccessLevel(AccessLevelModal),
    AttributeTemplate(AttributeTemplateModal),
    EntityTemplate(EntityTemplateModal),
    Generic,
    User(UserModal),
}

} // verus!
