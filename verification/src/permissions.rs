//! Who may see and change what.

use vstd::prelude::*;

use crate::text::{ascii_lower_seq, eq_ignore_ascii_case, eq_ignore_case};
use crate::text_std::str_eq;
use crate::types::{AccessLevel, AuthSession, Entity, EntityAttribute, Permission};

verus! {

/// Position of the first access level with id `id`, or -1.
pub open spec fn level_index(levels: Seq<AccessLevel>, id: u32) -> int
    decreases levels.len(),
{
    if levels.len() == 0 {
        -1
    } else {
        let k = level_index(levels.drop_last(), id);
        if k >= 0 {
            k
        } else if levels.last().id == id {
            levels.len() - 1
        } else {
            -1
        }
    }
}

proof fn lemma_level_index_prefix(s: Seq<AccessLevel>, id: u32, k: int, m: int)
    requires
        0 <= k < m <= s.len(),
        level_index(s.take(k + 1), id) == k,
    ensures
        level_index(s.take(m), id) == k,
    decreases m - k,
{
    if m > k + 1 {
        lemma_level_index_prefix(s, id, k, m - 1);
        assert(s.take(m).drop_last() =~= s.take(m - 1));
    }
}

/// Position of the first access level with id `id`.
pub fn find_level(levels: &Vec<AccessLevel>, id: u32) -> (r: Option<usize>)
    ensures
        match r {
            Some(i) => i as int == level_index(levels@, id) && i < levels@.len(),
            None => level_index(levels@, id) == -1,
        },
{
    let mut i: usize = 0;
    while i < levels.len()
        invariant
            i <= levels@.len(),
            level_index(levels@.take(i as int), id) == -1,
        decreases levels@.len() - i,
    {
        assert(levels@.take(i as int + 1).drop_last() =~= levels@.take(i as int));
        if levels[i].id == id {
            proof {
                lemma_level_index_prefix(levels@, id, i as int, levels@.len() as int);
                assert(levels@.take(levels@.len() as int) =~= levels@);
            }
            return Some(i);
        }
        i = i + 1;
    }
    assert(levels@.take(i as int) =~= levels@);
    None
}

/// The access level with id `id` is the public one: by its name when it is
/// known, else when it has the built-in public id 1.
pub open spec fn is_public_level(levels: Seq<AccessLevel>, id: u32) -> bool {
    let k = level_index(levels, id);
    if k >= 0 {
        eq_ignore_ascii_case(levels[k].name@, "public"@)
    } else {
        id == 1
    }
}

/// The access level with id `id` is the owner-only one: by its name when
/// it is known, else when it has the built-in owner-view id 4.
pub open spec fn is_owner_view_level(levels: Seq<AccessLevel>, id: u32) -> bool {
    let k = level_index(levels, id);
    if k >= 0 {
        eq_ignore_ascii_case(levels[k].name@, "owner view"@)
    } else {
        id == 4
    }
}

pub fn is_public_access_level(access_levels: &Vec<AccessLevel>, access_level_id: u32) -> (r: bool)
    ensures
        r == is_public_level(access_levels@, access_level_id),
{
    match find_level(access_levels, access_level_id) {
        Some(k) => eq_ignore_case(access_levels[k].name.as_str(), "public"),
        None => access_level_id == 1,
    }
}

pub fn is_owner_view_access_level(access_levels: &Vec<AccessLevel>, access_level_id: u32) -> (r: bool)
    ensures
        r == is_owner_view_level(access_levels@, access_level_id),
{
    match find_level(access_levels, access_level_id) {
        Some(k) => eq_ignore_case(access_levels[k].name.as_str(), "owner view"),
        None => access_level_id == 4,
    }
}

/// The user of `s` holds a permission whose name is among `names`.
pub open spec fn user_has_any(s: AuthSession, names: Seq<&str>) -> bool {
    exists|i: int, j: int|
        #![trigger s.user.permissions@[i], names[j]]
        0 <= i < s.user.permissions@.len() && 0 <= j < names.len() && names[j]@
            == s.user.permissions@[i].name@
}

/// There is a session, and its user holds a permission named in `names`.
pub open spec fn holds_any(session: Option<AuthSession>, names: Seq<&str>) -> bool {
    session is Some && user_has_any(session->0, names)
}

fn names_contain(names: &[&str], name: &str) -> (r: bool)
    ensures
        r == exists|j: int| 0 <= j < names@.len() && #[trigger] names@[j]@ == name@,
{
    let mut j: usize = 0;
    while j < names.len()
        invariant
            j <= names@.len(),
            forall|k: int| 0 <= k < j ==> #[trigger] names@[k]@ != name@,
        decreases names@.len() - j,
    {
        if str_eq(names[j], name) {
            return true;
        }
        j = j + 1;
    }
    false
}

fn user_holds_any(s: &AuthSession, names: &[&str]) -> (r: bool)
    ensures
        r == user_has_any(*s, names@),
{
    let perms = &s.user.permissions;
    let mut i: usize = 0;
    while i < perms.len()
        invariant
            i <= perms@.len(),
            perms@ == s.user.permissions@,
            forall|k: int, j: int|
                #![trigger perms@[k], names@[j]]
                0 <= k < i && 0 <= j < names@.len() ==> names@[j]@ != perms@[k].name@,
        decreases perms@.len() - i,
    {
        if names_contain(names, perms[i].name.as_str()) {
            let ghost j = choose|j: int| 0 <= j < names@.len() && #[trigger] names@[j]@ == perms@[i as int].name@;
            assert(names@[j]@ == s.user.permissions@[i as int].name@);
            return true;
        }
        i = i + 1;
    }
    false
}

/// The session's user holds one of the named permissions.
pub fn has_any_permission(session: Option<&AuthSession>, names: &[&str]) -> (r: bool)
    ensures
        r == holds_any(opt_session(session), names@),
{
    match session {
        Some(s) => user_holds_any(s, names),
        None => false,
    }
}

/// The session's user is the entity's owner.
pub open spec fn is_owner(session: Option<AuthSession>, entity: Entity) -> bool {
    match session {
        Some(s) => s.user.id@ == entity.owner_user_id@,
        None => false,
    }
}

/// Admins and editors may edit any entity; users who manage their own data
/// may edit the entities they own.
pub open spec fn may_edit_entity(session: Option<AuthSession>, entity: Entity) -> bool {
    holds_any(session, seq!["Admin", "Editor"]) || (holds_any(session, seq!["ManageOwnData"])
        && is_owner(session, entity))
}

/// `Some` of the referenced session.
pub open spec fn opt_session(session: Option<&AuthSession>) -> Option<AuthSession> {
    match session {
        Some(s) => Some(*s),
        None => None,
    }
}

fn session_is_owner(session: Option<&AuthSession>, entity: &Entity) -> (r: bool)
    ensures
        r == is_owner(opt_session(session), *entity),
{
    match session {
        Some(s) => s.user.id == entity.owner_user_id,
        None => false,
    }
}

pub fn can_edit_entity(session: Option<&AuthSession>, entity: &Entity) -> (r: bool)
    ensures
        r == may_edit_entity(opt_session(session), *entity),
{
    let editors: [&str; 2] = ["Admin", "Editor"];
    let own: [&str; 1] = ["ManageOwnData"];
    assert(editors@ =~= seq!["Admin", "Editor"]);
    assert(own@ =~= seq!["ManageOwnData"]);
    has_any_permission(session, &editors) || (has_any_permission(session, &own) && session_is_owner(
        session,
        entity,
    ))
}

/// The user of `s` holds the access level `id`.
pub open spec fn user_has_level(s: AuthSession, id: u32) -> bool {
    exists|i: int| 0 <= i < s.user.access_levels@.len() && #[trigger] s.user.access_levels@[i].id == id
}

/// There is a session, and its user holds the access level `id`.
pub open spec fn holds_level(session: Option<AuthSession>, id: u32) -> bool {
    session is Some && user_has_level(session->0, id)
}

/// Whether the session may see an attribute's value: editors of the entity
/// and public attributes always; owner-view attributes only the owner;
/// other attributes the holders of their access level.
pub open spec fn may_access_value(
    session: Option<AuthSession>,
    entity: Entity,
    attribute: EntityAttribute,
    levels: Seq<AccessLevel>,
) -> bool {
    ||| may_edit_entity(session, entity)
    ||| is_public_level(levels, attribute.access_level_id)
    ||| if is_owner_view_level(levels, attribute.access_level_id) {
        is_owner(session, entity)
    } else {
        holds_level(session, attribute.access_level_id)
    }
}

fn user_holds_level(s: &AuthSession, id: u32) -> (r: bool)
    ensures
        r == user_has_level(*s, id),
{
    let levels = &s.user.access_levels;
    let mut i: usize = 0;
    while i < levels.len()
        invariant
            i <= levels@.len(),
            levels@ == s.user.access_levels@,
            forall|k: int| 0 <= k < i ==> #[trigger] levels@[k].id != id,
        decreases levels@.len() - i,
    {
        if levels[i].id == id {
            assert(s.user.access_levels@[i as int].id == id);
            return true;
        }
        i = i + 1;
    }
    false
}

fn session_holds_level(session: Option<&AuthSession>, id: u32) -> (r: bool)
    ensures
        r == holds_level(opt_session(session), id),
{
    match session {
        Some(s) => user_holds_level(s, id),
        None => false,
    }
}

pub fn can_access_attribute_value(
    session: Option<&AuthSession>,
    entity: &Entity,
    attribute: &EntityAttribute,
    access_levels: &Vec<AccessLevel>,
) -> (r: bool)
    ensures
        r == may_access_value(opt_session(session), *entity, *attribute, access_levels@),
{
    can_edit_entity(session, entity) || is_public_access_level(
        access_levels,
        attribute.access_level_id,
    ) || if is_owner_view_access_level(access_levels, attribute.access_level_id) {
        session_is_owner(session, entity)
    } else {
        session_holds_level(session, attribute.access_level_id)
    }
}

/// The restricted actions of an attribute row (showing or hiding its value,
/// copying it) are offered when the value is not public and the session
/// may see it.
pub fn can_use_restricted_actions(
    session: Option<&AuthSession>,
    entity: &Entity,
    attribute: &EntityAttribute,
    access_levels: &Vec<AccessLevel>,
) -> (r: bool)
    ensures
        r == (!is_public_level(access_levels@, attribute.access_level_id) && may_access_value(
            opt_session(session),
            *entity,
            *attribute,
            access_levels@,
        )),
{
    !is_public_access_level(access_levels, attribute.access_level_id) && can_access_attribute_value(
        session,
        entity,
        attribute,
        access_levels,
    )
}

/// The text shown for an attribute value: restricted (not public) values
/// are masked unless revealed by a user allowed to see them.
pub open spec fn visible_value(
    attribute: EntityAttribute,
    levels: Seq<AccessLevel>,
    is_revealed: bool,
    can_use_restricted_actions: bool,
) -> Seq<char> {
    if !is_public_level(levels, attribute.access_level_id) && (!is_revealed
        || !can_use_restricted_actions) {
        "******"@
    } else {
        attribute.value@
    }
}

pub fn entity_attribute_visible_value(
    attribute: &EntityAttribute,
    access_levels: &Vec<AccessLevel>,
    is_revealed: bool,
    can_use_restricted_actions: bool,
) -> (r: String)
    ensures
        r@ == visible_value(*attribute, access_levels@, is_revealed, can_use_restricted_actions),
{
    let should_mask = !is_public_access_level(access_levels, attribute.access_level_id);
    if should_mask && (!is_revealed || !can_use_restricted_actions) {
        "******".to_owned()
    } else {
        attribute.value.clone()
    }
}

/// The user holds a permission with the given name.
pub open spec fn holds_named(session: AuthSession, name: Seq<char>) -> bool {
    exists|i: int|
        0 <= i < session.user.permissions@.len() && #[trigger] session.user.permissions@[i].name@
            == name
}

fn holds_permission(session: &AuthSession, name: &str) -> (r: bool)
    ensures
        r == holds_named(*session, name@),
{
    let perms = &session.user.permissions;
    let mut i: usize = 0;
    while i < perms.len()
        invariant
            i <= perms@.len(),
            perms@ == session.user.permissions@,
            forall|k: int| 0 <= k < i ==> #[trigger] perms@[k].name@ != name@,
        decreases perms@.len() - i,
    {
        if str_eq(perms[i].name.as_str(), name) {
            return true;
        }
        i = i + 1;
    }
    false
}

/// Admins and auditors may see the audit log.
pub fn has_audit_access(session: &AuthSession) -> (r: bool)
    ensures
        r == (holds_named(*session, "Admin"@) || holds_named(*session, "Audit"@)),
{
    holds_permission(session, "Admin") || holds_permission(session, "Audit")
}

/// Only admins manage security.
pub fn has_admin_permission(session: &AuthSession) -> (r: bool)
    ensures
        r == holds_named(*session, "Admin"@),
{
    holds_permission(session, "Admin")
}

} // verus!
