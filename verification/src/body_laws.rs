//! What the request bodies carry of their inputs, and who may edit an
//! entity, stated over every input.

use vstd::prelude::*;

use crate::json::{comma_joined, quoted};
use crate::listing::by_listing;
use crate::permissions::{holds_named, may_access_value, may_edit_entity};
use crate::requests::{
    attribute_create_json, entity_create_json, entity_template_json, entity_update_json,
    ids_text, link_update_json, template_link_json, user_json,
};
use crate::text::{decimal, trim};
use crate::types::{
    AccessLevel, AuthSession, Entity, EntityAttribute, EntityLink, EntityTemplate, UserModal,
};

verus! {

/// `x` occurs in `s` as a contiguous piece.
pub open spec fn has_part(s: Seq<char>, x: Seq<char>) -> bool {
    exists|pre: Seq<char>, post: Seq<char>| s == pre + x + post
}

proof fn lemma_part_here(pre: Seq<char>, x: Seq<char>, post: Seq<char>)
    ensures
        has_part(pre + x + post, x),
{
}

proof fn lemma_part_of_part(s: Seq<char>, x: Seq<char>, y: Seq<char>)
    requires
        has_part(s, x),
        has_part(x, y),
    ensures
        has_part(s, y),
{
    let (p1, q1) = choose|pre: Seq<char>, post: Seq<char>| s == pre + x + post;
    let (p2, q2) = choose|pre: Seq<char>, post: Seq<char>| x == pre + y + post;
    assert(s =~= (p1 + p2) + y + (q2 + q1));
    lemma_part_here(p1 + p2, y, q2 + q1);
}

/// Each part of a comma-joined list occurs in it.
proof fn lemma_joined_has_part(parts: Seq<Seq<char>>, j: int)
    requires
        0 <= j < parts.len(),
    ensures
        has_part(comma_joined(parts), parts[j]),
    decreases parts.len(),
{
    if parts.len() == 1 {
        assert(comma_joined(parts) =~= Seq::<char>::empty() + parts[0] + Seq::<char>::empty());
        lemma_part_here(Seq::empty(), parts[0], Seq::empty());
    } else if j == parts.len() - 1 {
        let pre = comma_joined(parts.drop_last()) + seq![','];
        assert(comma_joined(parts) =~= pre + parts[j] + Seq::<char>::empty());
        lemma_part_here(pre, parts[j], Seq::empty());
    } else {
        let rest = parts.drop_last();
        lemma_joined_has_part(rest, j);
        assert(rest[j] == parts[j]);
        let (p, q) = choose|pre: Seq<char>, post: Seq<char>| comma_joined(rest) == pre + parts[j] + post;
        assert(comma_joined(parts) =~= p + parts[j] + (q + seq![','] + parts.last()));
        lemma_part_here(p, parts[j], q + seq![','] + parts.last());
    }
}

/// The JSON value of an optional text: its string literal, or `null`.
pub open spec fn text_or_null(o: Option<String>) -> Seq<char> {
    match o {
        Some(t) => quoted(t@),
        None => "null"@,
    }
}

/// Saving an edited entity sends every one of its links with its name and
/// its target: the target entity's id as a JSON string when the link has
/// one, `null` only when it has none.
pub proof fn law_update_body_keeps_link_targets(
    attributes: Seq<EntityAttribute>,
    listing_attribute_id: Seq<char>,
    links: Seq<EntityLink>,
    j: int,
)
    requires
        0 <= j < links.len(),
    ensures
        has_part(
            entity_update_json(attributes, listing_attribute_id, links),
            ",\"name\":"@ + quoted(trim(links[j].name@)) + ",\"targetEntityId\":"@ + text_or_null(
                links[j].target_entity_id,
            ) + "}"@,
        ),
{
    let l = links[j];
    let x = ",\"name\":"@ + quoted(trim(l.name@)) + ",\"targetEntityId\":"@ + text_or_null(
        l.target_entity_id,
    ) + "}"@;
    let part = link_update_json(l);
    let head = "{\"description\":"@ + (match l.description {
        Some(d) => quoted(d@),
        None => "null"@,
    }) + ",\"listingIndex\":"@ + crate::text::decimal_int(l.listing_index as int);
    assert(part =~= head + x + Seq::<char>::empty());
    lemma_part_here(head, x, Seq::empty());
    let parts = links.map_values(|k: EntityLink| link_update_json(k));
    assert(parts[j] == part);
    lemma_joined_has_part(parts, j);
    lemma_part_of_part(comma_joined(parts), part, x);
    let body = entity_update_json(attributes, listing_attribute_id, links);
    let pre = "{\"attributes\":["@ + comma_joined(
        attributes.map_values(|a: EntityAttribute| crate::requests::attribute_update_json(a)),
    ) + "],\"listingAttributeId\":"@ + quoted(listing_attribute_id) + ",\"links\":["@;
    assert(body =~= pre + comma_joined(parts) + "]}"@);
    lemma_part_here(pre, comma_joined(parts), "]}"@);
    lemma_part_of_part(body, comma_joined(parts), x);
}

/// `true` or `false`, as JSON writes a flag.
pub open spec fn flag_text(b: bool) -> Seq<char> {
    if b {
        "true"@
    } else {
        "false"@
    }
}

/// Creating an entity sends every attribute at position `i` with its own
/// required flag and description, numbered `i`.
pub proof fn law_create_body_keeps_required_flags(
    attributes: Seq<EntityAttribute>,
    owner_user_id: Seq<char>,
    entity_template_id: Seq<char>,
    listing_attribute_id: Seq<char>,
    i: int,
)
    requires
        0 <= i < attributes.len(),
    ensures
        has_part(
            entity_create_json(attributes, owner_user_id, entity_template_id, listing_attribute_id),
            ",\"isRequired\":"@ + flag_text(attributes[i].is_required) + ",\"description\":"@
                + quoted(attributes[i].description@) + ",\"listingIndex\":"@ + decimal(i as nat)
                + "}"@,
        ),
{
    let a = attributes[i];
    let x = ",\"isRequired\":"@ + flag_text(a.is_required) + ",\"description\":"@ + quoted(
        a.description@,
    ) + ",\"listingIndex\":"@ + decimal(i as nat) + "}"@;
    let part = attribute_create_json(a, i);
    let head = "{\"name\":"@ + quoted(trim(a.name@)) + ",\"value\":"@ + quoted(a.value@)
        + ",\"valueType\":"@ + quoted(a.value_type@) + ",\"accessLevelId\":"@ + decimal(
        a.access_level_id as nat,
    );
    assert(part =~= head + x + Seq::<char>::empty());
    lemma_part_here(head, x, Seq::empty());
    let parts = Seq::new(attributes.len(), |k: int| attribute_create_json(attributes[k], k));
    assert(parts[i] == part);
    lemma_joined_has_part(parts, i);
    lemma_part_of_part(comma_joined(parts), part, x);
    let body = entity_create_json(attributes, owner_user_id, entity_template_id, listing_attribute_id);
    let pre = "{\"attributes\":["@;
    let post = body.subrange((pre.len() + comma_joined(parts).len()) as int, body.len() as int);
    assert(body =~= pre + comma_joined(parts) + post);
    lemma_part_here(pre, comma_joined(parts), post);
    lemma_part_of_part(body, comma_joined(parts), x);
}

/// Saving an entity template sends every link, in listing order at
/// position `i`, with its name and its target: the target template's id as
/// a JSON string when the link has one, `null` only when it has none.
pub proof fn law_template_body_keeps_link_targets(t: EntityTemplate, i: int)
    requires
        0 <= i < by_listing(t.links@).len(),
    ensures
        has_part(
            entity_template_json(t),
            ",\"listingIndex\":"@ + decimal(i as nat) + ",\"name\":"@ + quoted(
                trim(by_listing(t.links@)[i].name@),
            ) + ",\"targetEntityTemplateId\":"@ + text_or_null(
                by_listing(t.links@)[i].target_entity_template_id,
            ) + "}"@,
        ),
{
    let links = by_listing(t.links@);
    let attrs = by_listing(t.attributes@);
    let l = links[i];
    let x = ",\"listingIndex\":"@ + decimal(i as nat) + ",\"name\":"@ + quoted(trim(l.name@))
        + ",\"targetEntityTemplateId\":"@ + text_or_null(l.target_entity_template_id) + "}"@;
    let part = template_link_json(l, i);
    let head = "{"@ + crate::requests::link_id_member(l.id@) + "\"description\":"@
        + crate::requests::link_description_text(l.description);
    assert(part =~= head + x + Seq::<char>::empty());
    lemma_part_here(head, x, Seq::empty());
    let parts = Seq::new(links.len(), |k: int| template_link_json(links[k], k));
    assert(parts[i] == part);
    lemma_joined_has_part(parts, i);
    lemma_part_of_part(comma_joined(parts), part, x);
    let body = entity_template_json(t);
    let pre = "{\"attributes\":["@ + comma_joined(
        Seq::new(attrs.len(), |k: int| crate::requests::template_attribute_json(attrs[k], k)),
    ) + "],\"description\":"@ + quoted(trim(t.description@)) + ",\"links\":["@;
    let post = body.subrange((pre.len() + comma_joined(parts).len()) as int, body.len() as int);
    assert(body =~= pre + comma_joined(parts) + post);
    lemma_part_here(pre, comma_joined(parts), post);
    lemma_part_of_part(body, comma_joined(parts), x);
}

/// A user body carries the password exactly when one is to be sent: on
/// creation, and whenever a password was typed. Its last member is then the
/// typed password; otherwise the body ends with the access-level ids.
pub proof fn law_user_body_sends_typed_password(u: UserModal, include_password: bool)
    ensures
        (include_password || u.password@.len() > 0) ==> exists|pre: Seq<char>|
            user_json(u, include_password) == pre + ",\"password\":"@ + quoted(u.password@) + "}"@,
        !(include_password || u.password@.len() > 0) ==> exists|pre: Seq<char>|
            user_json(u, include_password) == pre + ",\"accessLevelIds\":"@ + ids_text(
                u.access_level_ids@,
            ) + "}"@,
{
    let body = user_json(u, include_password);
    let pre = "{\"email\":"@ + quoted(trim(u.email@)) + ",\"firstName\":"@ + quoted(
        trim(u.first_name@),
    ) + ",\"lastName\":"@ + quoted(trim(u.last_name@)) + ",\"username\":"@ + quoted(
        trim(u.username@),
    ) + ",\"permissionIds\":"@ + ids_text(u.permission_ids@);
    let ids = ",\"accessLevelIds\":"@ + ids_text(u.access_level_ids@);
    if include_password || u.password@.len() > 0 {
        assert(body =~= (pre + ids) + ",\"password\":"@ + quoted(u.password@) + "}"@);
    } else {
        assert(body =~= pre + ids + "}"@);
    }
}

/// Admins and editors may edit every entity and see every attribute value;
/// anyone else may edit exactly the entities they own, and only when they
/// manage their own data; without a session nobody may edit.
pub proof fn law_who_edits_entities(
    session: Option<AuthSession>,
    e: Entity,
    a: EntityAttribute,
    levels: Seq<AccessLevel>,
)
    ensures
        session matches Some(s) && (holds_named(s, "Admin"@) || holds_named(s, "Editor"@)) ==> {
            &&& may_edit_entity(session, e)
            &&& may_access_value(session, e, a, levels)
        },
        may_edit_entity(session, e) <==> (session matches Some(s) && (holds_named(s, "Admin"@)
            || holds_named(s, "Editor"@) || (holds_named(s, "ManageOwnData"@) && s.user.id@
            == e.owner_user_id@))),
{
    match session {
        Some(s) => {
            let editors = seq!["Admin", "Editor"];
            let own = seq!["ManageOwnData"];
            let perms = s.user.permissions@;
            if holds_named(s, "Admin"@) {
                let i = choose|i: int| 0 <= i < perms.len() && #[trigger] perms[i].name@ == "Admin"@;
                assert(editors[0] == "Admin");
                assert(editors[0]@ == perms[i].name@);
            }
            if holds_named(s, "Editor"@) {
                let i = choose|i: int| 0 <= i < perms.len() && #[trigger] perms[i].name@ == "Editor"@;
                assert(editors[1] == "Editor");
                assert(editors[1]@ == perms[i].name@);
            }
            if holds_named(s, "ManageOwnData"@) {
                let i = choose|i: int|
                    0 <= i < perms.len() && #[trigger] perms[i].name@ == "ManageOwnData"@;
                assert(own[0] == "ManageOwnData");
                assert(own[0]@ == perms[i].name@);
            }
            if crate::permissions::user_has_any(s, editors) {
                let (i, j) = choose|i: int, j: int|
                    #![trigger perms[i], editors[j]]
                    0 <= i < perms.len() && 0 <= j < editors.len() && editors[j]@ == perms[i].name@;
                if j == 0 {
                    assert(editors[0] == "Admin");
                    assert(holds_named(s, "Admin"@));
                } else {
                    assert(editors[1] == "Editor");
                    assert(holds_named(s, "Editor"@));
                }
            }
            if crate::permissions::user_has_any(s, own) {
                let (i, j) = choose|i: int, j: int|
                    #![trigger perms[i], own[j]]
                    0 <= i < perms.len() && 0 <= j < own.len() && own[j]@ == perms[i].name@;
                assert(own[0] == "ManageOwnData");
                assert(holds_named(s, "ManageOwnData"@));
            }
        },
        None => {},
    }
}

} // verus!
