//! The security and templates pages: who may use them, their loading
//! states, how their lists are ordered and filtered, and what their rows
//! show.

use vstd::prelude::*;

use crate::attribute_template_flows::caseless_name;
use crate::entity_template_flows::caseless_view_name;
use crate::modals::{list_joined, NamedItem};
use crate::permissions::{has_admin_permission, has_any_permission, holds_any, holds_named, opt_session};
use crate::sort::{sort_items, sort_views, sorted_by, Caseless};
use crate::template_editor::template_views;
use crate::text::{byte_len, push_str, str_byte_len, to_string, trim, trim_str};
use crate::text_std::str_eq;
use crate::types::{AccessLevel, AttributeTemplate, AuthSession, EntityTemplate, Permission, User};

verus! {

/// What a list's table body shows.
#[derive(Clone, Copy, PartialEq, Eq, Structural, Debug)]
pub enum TableBody {
    Loading,
    Empty,
    Rows,
}

pub fn table_body(is_loading: bool, is_empty: bool) -> (r: TableBody)
    ensures
        r == (if is_loading {
            TableBody::Loading
        } else if is_empty {
            TableBody::Empty
        } else {
            TableBody::Rows
        }),
{
    if is_loading {
        TableBody::Loading
    } else if is_empty {
        TableBody::Empty
    } else {
        TableBody::Rows
    }
}

/// The loading state of the security page.
#[derive(Clone, Debug)]
pub struct SecurityState {
    pub is_authenticated: bool,
    pub is_authorized: bool,
    pub access_levels_error: Option<String>,
    pub users_error: Option<String>,
    pub is_access_levels_loading: bool,
    pub is_users_loading: bool,
}

impl SecurityState {
    /// The security page as it opens: only admins may use it, and their
    /// access levels, users and permissions are requested at once (the
    /// result says whether).
    pub fn new(session: Option<&AuthSession>) -> (r: (SecurityState, bool))
        ensures
            r.0.is_authenticated == session is Some,
            r.0.is_authorized == (opt_session(session) matches Some(s) && holds_named(s, "Admin"@)),
            r.0.access_levels_error is None,
            r.0.users_error is None,
            r.0.is_access_levels_loading == r.0.is_authorized,
            r.0.is_users_loading == r.0.is_authorized,
            r.1 == r.0.is_authorized,
    {
        let is_authorized = match session {
            Some(s) => has_admin_permission(s),
            None => false,
        };
        (
            SecurityState {
                is_authenticated: session.is_some(),
                is_authorized,
                access_levels_error: None,
                users_error: None,
                is_access_levels_loading: is_authorized,
                is_users_loading: is_authorized,
            },
            is_authorized,
        )
    }

    /// Asks for the access levels again (when authorized).
    pub fn refresh_access_levels(&mut self) -> (request: bool)
        ensures
            request == old(self).is_authorized,
            request ==> *final(self) == (SecurityState {
                is_access_levels_loading: true,
                ..*old(self)
            }),
            !request ==> *final(self) == *old(self),
    {
        if self.is_authorized {
            self.is_access_levels_loading = true;
            true
        } else {
            false
        }
    }

    /// Asks for the users and permissions again (when authorized).
    pub fn refresh_users(&mut self) -> (request: bool)
        ensures
            request == old(self).is_authorized,
            request ==> *final(self) == (SecurityState { is_users_loading: true, ..*old(self) }),
            !request ==> *final(self) == *old(self),
    {
        if self.is_authorized {
            self.is_users_loading = true;
            true
        } else {
            false
        }
    }

    /// The access levels arrived, or their request failed.
    pub fn access_levels_loaded(
        &mut self,
        access_levels: &mut Vec<AccessLevel>,
        outcome: Result<Vec<AccessLevel>, String>,
    )
        ensures
            outcome matches Ok(l) ==> final(access_levels)@ == l@ && *final(self) == (
            SecurityState {
                access_levels_error: None,
                is_access_levels_loading: false,
                ..*old(self)
            }),
            outcome matches Err(m) ==> final(access_levels)@ == old(access_levels)@ && *final(self)
                == (SecurityState {
                access_levels_error: Some(m),
                is_access_levels_loading: false,
                ..*old(self)
            }),
    {
        match outcome {
            Ok(l) => {
                *access_levels = l;
                self.access_levels_error = None;
            },
            Err(m) => {
                self.access_levels_error = Some(m);
            },
        }
        self.is_access_levels_loading = false;
    }

    /// The users and permissions arrived, or their requests failed. The
    /// built-in admin user is not listed.
    pub fn users_loaded(
        &mut self,
        users: &mut Vec<User>,
        permissions: &mut Vec<Permission>,
        outcome: Result<(Vec<User>, Vec<Permission>), String>,
    )
        ensures
            outcome matches Ok((u, p)) ==> {
                &&& final(users)@ == u@.filter(not_admin())
                &&& final(permissions)@ == p@
                &&& *final(self) == (SecurityState {
                    users_error: None,
                    is_users_loading: false,
                    ..*old(self)
                })
            },
            outcome matches Err(m) ==> {
                &&& final(users)@ == old(users)@
                &&& final(permissions)@ == old(permissions)@
                &&& *final(self) == (SecurityState {
                    users_error: Some(m),
                    is_users_loading: false,
                    ..*old(self)
                })
            },
    {
        match outcome {
            Ok((u, p)) => {
                *users = without_admin(u);
                *permissions = p;
                self.users_error = None;
            },
            Err(m) => {
                self.users_error = Some(m);
            },
        }
        self.is_users_loading = false;
    }
}

/// Holds of every user but the built-in admin.
pub open spec fn not_admin() -> spec_fn(User) -> bool {
    |u: User| u.username@ != "admin"@
}

/// The users other than the built-in admin, in order.
pub fn without_admin(users: Vec<User>) -> (r: Vec<User>)
    ensures
        r@ == users@.filter(not_admin()),
{
    let mut users = users;
    let ghost start = users@;
    let ghost mut j: int = 0;
    let mut i: usize = 0;
    while i < users.len()
        invariant
            0 <= i <= users@.len(),
            0 <= j <= start.len(),
            users@.take(i as int) == start.take(j).filter(not_admin()),
            users@.skip(i as int) == start.skip(j),
        decreases users@.len() - i,
    {
        assert(users@.skip(i as int).len() > 0);
        assert(j < start.len());
        assert(start.take(j + 1).drop_last() =~= start.take(j));
        assert(users@.skip(i as int)[0] == users@[i as int]);
        assert(start.skip(j)[0] == start[j]);
        reveal_with_fuel(Seq::filter, 1);
        let ghost before = users@;
        let ghost i0 = i as int;
        assert(before.skip(i0 + 1) =~= before.skip(i0).skip(1));
        if str_eq(users[i].username.as_str(), "admin") {
            users.remove(i);
            assert(users@.take(i as int) =~= before.take(i as int));
            assert(users@.skip(i as int) =~= before.skip(i as int + 1));
        } else {
            assert(users@.take(i as int + 1) =~= before.take(i as int).push(before[i as int]));
            i = i + 1;
        }
        assert(start.skip(j + 1) =~= start.skip(j).skip(1));
        proof {
            j = j + 1;
        }
    }
    assert(users@.take(i as int) =~= users@);
    assert(start.take(j) =~= start) by {
        assert(start.skip(j).len() == 0);
    }
    users
}

/// The message for a refused request for the users: the server's status
/// tells whether admin rights were missing.
pub fn users_failure_message(status: u16) -> (r: &'static str)
    ensures
        (status == 401 || status == 403) ==> r@ == "Admin permission is required to manage users"@,
        !(status == 401 || status == 403) ==> r@ == "Unable to load users"@,
{
    if status == 401 || status == 403 {
        "Admin permission is required to manage users"
    } else {
        "Unable to load users"
    }
}

/// The names of items, separated by `, `.
fn names_joined<T: NamedItem>(items: &Vec<T>) -> (r: String)
    ensures
        r@ == list_joined(items@.map_values(|x: T| x.spec_name())),
{
    let ghost name = |x: T| x.spec_name();
    let mut out: Vec<char> = Vec::new();
    let mut i: usize = 0;
    while i < items.len()
        invariant
            i <= items@.len(),
            name == (|x: T| x.spec_name()),
            out@ == list_joined(items@.take(i as int).map_values(name)),
        decreases items@.len() - i,
    {
        let ghost before = items@.take(i as int).map_values(name);
        if i > 0 {
            out.push(',');
            out.push(' ');
        }
        push_str(&mut out, items[i].item_name());
        assert(items@.take(i as int + 1).map_values(name) =~= before.push(items@[i as int].spec_name()));
        assert(items@.take(i as int + 1).map_values(name).drop_last() =~= before);
        i = i + 1;
    }
    assert(items@.take(i as int) =~= items@);
    to_string(&out)
}

/// A user's permissions, by name, separated by `, `.
pub fn permission_names(user: &User) -> (r: String)
    ensures
        r@ == list_joined(user.permissions@.map_values(|p: Permission| p.spec_name())),
{
    names_joined(&user.permissions)
}

/// A user's access levels, by name, separated by `, `.
pub fn access_level_names(user: &User) -> (r: String)
    ensures
        r@ == list_joined(user.access_levels@.map_values(|l: AccessLevel| l.spec_name())),
{
    names_joined(&user.access_levels)
}

/// What the signed-in user may do on the templates page.
#[derive(Clone, Copy, Debug)]
pub struct TemplatesAccess {
    pub is_authenticated: bool,
    pub is_authorized: bool,
    pub can_create_managed_data: bool,
    pub can_manage_templates: bool,
    pub can_manage_own_data: bool,
}

/// Everyone but guests may browse templates; admins and editors manage all
/// of them; users who manage their own data manage the ones they own.
pub fn templates_access(session: Option<&AuthSession>) -> (r: TemplatesAccess)
    ensures
        r.is_authenticated == session is Some,
        r.is_authorized == holds_any(
            opt_session(session),
            seq!["Admin", "Editor", "Manage Own Data", "Viewer"],
        ),
        r.can_create_managed_data == holds_any(
            opt_session(session),
            seq!["Admin", "Editor", "Manage Own Data"],
        ),
        r.can_manage_templates == holds_any(opt_session(session), seq!["Admin", "Editor"]),
        r.can_manage_own_data == holds_any(opt_session(session), seq!["Manage Own Data"]),
{
    let browse: [&str; 4] = ["Admin", "Editor", "Manage Own Data", "Viewer"];
    let create: [&str; 3] = ["Admin", "Editor", "Manage Own Data"];
    let manage: [&str; 2] = ["Admin", "Editor"];
    let own: [&str; 1] = ["Manage Own Data"];
    let r = TemplatesAccess {
        is_authenticated: session.is_some(),
        is_authorized: has_any_permission(session, browse.as_slice()),
        can_create_managed_data: has_any_permission(session, create.as_slice()),
        can_manage_templates: has_any_permission(session, manage.as_slice()),
        can_manage_own_data: has_any_permission(session, own.as_slice()),
    };
    proof {
        assert(browse@ =~= seq!["Admin", "Editor", "Manage Own Data", "Viewer"]);
        assert(create@ =~= seq!["Admin", "Editor", "Manage Own Data"]);
        assert(manage@ =~= seq!["Admin", "Editor"]);
        assert(own@ =~= seq!["Manage Own Data"]);
    }
    r
}

/// A template may be edited by those who manage all templates, and by its
/// owner when they manage their own data.
pub fn can_edit_template(access: &TemplatesAccess, current_user_id: Option<&str>, owner_user_id: &str) -> (r:
    bool)
    ensures
        r == (access.can_manage_templates || (access.can_manage_own_data && (current_user_id matches Some(
            u,
        ) && u@ == owner_user_id@))),
{
    access.can_manage_templates || (access.can_manage_own_data && match current_user_id {
        Some(u) => str_eq(u, owner_user_id),
        None => false,
    })
}

/// How a template's description is shown: trimmed, with a tooltip holding
/// it when it is longer than 42 bytes.
pub fn description_cell(description: &str) -> (r: (String, Option<String>))
    ensures
        r.0@ == trim(description@),
        byte_len(trim(description@)) > 42 ==> (r.1 matches Some(t) && t@ == trim(description@)),
        byte_len(trim(description@)) <= 42 ==> r.1 is None,
{
    let trimmed = to_string(&trim_str(description));
    let tooltip = if str_byte_len(trimmed.as_str()) > 42 {
        Some(trimmed.clone())
    } else {
        None
    };
    (trimmed, tooltip)
}

/// Orders attribute templates by name without regard to ASCII case (a
/// stable sort).
pub fn order_attribute_templates(list: Vec<AttributeTemplate>) -> (r: Vec<AttributeTemplate>)
    ensures
        r@ == sorted_by(list@, caseless_name()),
{
    let mut keys: Vec<Caseless> = Vec::new();
    let mut i: usize = 0;
    while i < list.len()
        invariant
            i <= list@.len(),
            keys@ == list@.take(i as int).map_values(caseless_name()),
        decreases list@.len() - i,
    {
        keys.push(Caseless { text: list[i].name.clone() });
        assert(list@.take(i as int + 1).map_values(caseless_name()) =~= list@.take(
            i as int,
        ).map_values(caseless_name()).push(Caseless { text: list@[i as int].name }));
        i = i + 1;
    }
    assert(list@.take(i as int) =~= list@);
    sort_items(&list, &keys, Ghost(caseless_name()))
}

/// Orders entity templates by name without regard to ASCII case (a stable
/// sort); the result is given by views.
pub fn order_entity_templates(list: Vec<EntityTemplate>) -> (r: Vec<EntityTemplate>)
    ensures
        template_views(r@) == sorted_by(template_views(list@), caseless_view_name()),
{
    let mut keys: Vec<Caseless> = Vec::new();
    let mut i: usize = 0;
    while i < list.len()
        invariant
            i <= list@.len(),
            keys@ == list@.take(i as int).map_values(|x: EntityTemplate| x@).map_values(
                caseless_view_name(),
            ),
        decreases list@.len() - i,
    {
        keys.push(Caseless { text: list[i].name.clone() });
        assert(list@.take(i as int + 1).map_values(|x: EntityTemplate| x@).map_values(
            caseless_view_name(),
        ) =~= list@.take(i as int).map_values(|x: EntityTemplate| x@).map_values(
            caseless_view_name(),
        ).push(Caseless { text: list@[i as int]@.name }));
        i = i + 1;
    }
    assert(list@.take(i as int) =~= list@);
    let r = sort_views(&list, &keys, Ghost(caseless_view_name()));
    assert(template_views(r@) =~= r@.map_values(|x: EntityTemplate| x@));
    assert(template_views(list@) =~= list@.map_values(|x: EntityTemplate| x@));
    r
}

/// The loading state of the templates page.
#[derive(Clone, Debug)]
pub struct TemplatesState {
    pub error: Option<String>,
    pub is_entity_templates_loading: bool,
    pub is_attribute_templates_loading: bool,
}

/// Everything the templates page loads at once; owners come only for those
/// who manage all templates.
#[derive(Clone, Debug)]
pub struct TemplatesData {
    pub attribute_templates: Vec<AttributeTemplate>,
    pub entity_templates: Vec<EntityTemplate>,
    pub access_levels: Vec<AccessLevel>,
    pub owner_users: Vec<User>,
}

impl TemplatesState {
    /// The page as it opens; an authorized user's data is requested at once.
    pub fn new(is_authorized: bool) -> (r: TemplatesState)
        ensures
            r.error is None,
            r.is_entity_templates_loading == is_authorized,
            r.is_attribute_templates_loading == is_authorized,
    {
        TemplatesState {
            error: None,
            is_entity_templates_loading: is_authorized,
            is_attribute_templates_loading: is_authorized,
        }
    }

    /// Both lists are being loaded.
    pub fn start_loading(&mut self)
        ensures
            *final(self) == (TemplatesState {
                is_entity_templates_loading: true,
                is_attribute_templates_loading: true,
                ..*old(self)
            }),
    {
        self.is_entity_templates_loading = true;
        self.is_attribute_templates_loading = true;
    }

    /// The page's data arrived (both template lists ordered by name), or its
    /// request failed.
    pub fn data_loaded(&mut self, data: &mut TemplatesData, outcome: Result<TemplatesData, String>)
        ensures
            !final(self).is_entity_templates_loading,
            !final(self).is_attribute_templates_loading,
            outcome matches Ok(d) ==> {
                &&& final(self).error is None
                &&& final(data).attribute_templates@ == sorted_by(
                    d.attribute_templates@,
                    caseless_name(),
                )
                &&& template_views(final(data).entity_templates@) == sorted_by(
                    template_views(d.entity_templates@),
                    caseless_view_name(),
                )
                &&& final(data).access_levels == d.access_levels
                &&& final(data).owner_users == d.owner_users
            },
            outcome matches Err(m) ==> final(self).error == Some(m) && *final(data) == *old(data),
    {
        match outcome {
            Ok(d) => {
                data.attribute_templates = order_attribute_templates(d.attribute_templates);
                data.entity_templates = order_entity_templates(d.entity_templates);
                data.access_levels = d.access_levels;
                data.owner_users = d.owner_users;
                self.error = None;
            },
            Err(m) => {
                self.error = Some(m);
            },
        }
        self.is_entity_templates_loading = false;
        self.is_attribute_templates_loading = false;
    }
}

} // verus!
