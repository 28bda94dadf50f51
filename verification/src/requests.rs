//! Request bodies sent to the API, as JSON text.

use vstd::prelude::*;

use crate::json::{
    bool_text, comma_joined, push_bool, push_comma_joined, push_quoted, push_quoted_or_null,
    push_quoted_str, quoted, quoted_or_null, views,
};
use crate::listing::by_listing;
use crate::template_editor::{ordered_attributes, ordered_links};
use crate::text::{
    decimal, decimal_int, push_decimal, push_decimal_i64, push_str, starts_with, to_string, trim,
    trim_str,
};
use crate::text_std::chars_of;
use crate::types::{EntityAttribute, EntityLink, EntityTemplate, EntityTemplateAttribute, EntityTemplateLink, UserModal};

verus! {

/// `{"name":…,"description":…}`.
pub open spec fn access_level_json(name: Seq<char>, description: Seq<char>) -> Seq<char> {
    "{\"name\":"@ + quoted(name) + ",\"description\":"@ + quoted(description) + "}"@
}

/// Body that creates or renames an access level.
pub fn access_level_body(name: &str, description: &str) -> (r: String)
    ensures
        r@ == access_level_json(name@, description@),
{
    let mut out: Vec<char> = Vec::new();
    push_str(&mut out, "{\"name\":");
    push_quoted_str(&mut out, name);
    push_str(&mut out, ",\"description\":");
    push_quoted_str(&mut out, description);
    push_str(&mut out, "}");
    assert(out@ =~= access_level_json(name@, description@));
    to_string(&out)
}

/// `[1,2,3]`: the ids as a JSON array.
pub open spec fn ids_text(ids: Seq<u32>) -> Seq<char> {
    "["@ + comma_joined(ids.map_values(|x: u32| decimal(x as nat))) + "]"@
}

/// The ids as a JSON array.
pub fn ids_json(ids: &Vec<u32>) -> (r: String)
    ensures
        r@ == ids_text(ids@),
{
    let mut out: Vec<char> = Vec::new();
    push_ids(&mut out, ids);
    assert(out@ =~= ids_text(ids@));
    to_string(&out)
}

fn push_ids(out: &mut Vec<char>, ids: &Vec<u32>)
    ensures
        final(out)@ == old(out)@ + ids_text(ids@),
{
    let mut parts: Vec<Vec<char>> = Vec::new();
    let mut i: usize = 0;
    while i < ids.len()
        invariant
            i <= ids@.len(),
            views(parts@) == ids@.take(i as int).map_values(|x: u32| decimal(x as nat)),
        decreases ids@.len() - i,
    {
        let mut d: Vec<char> = Vec::new();
        push_decimal(&mut d, ids[i] as u64);
        assert(d@ =~= decimal(ids@[i as int] as nat));
        let ghost before = views(parts@);
        parts.push(d);
        assert(views(parts@) =~= before.push(d@));
        assert(views(parts@) =~= ids@.take(i as int + 1).map_values(|x: u32| decimal(x as nat)));
        i = i + 1;
    }
    assert(ids@.take(i as int) =~= ids@);
    push_str(out, "[");
    push_comma_joined(out, &parts);
    push_str(out, "]");
    assert(out@ =~= old(out)@ + ids_text(ids@));
}

/// The password member of a user body: present when a password is to be
/// sent (always on creation, else when one was typed).
pub open spec fn password_part(password: Seq<char>, include_password: bool) -> Seq<char> {
    if include_password || password.len() > 0 {
        ",\"password\":"@ + quoted(password)
    } else {
        Seq::empty()
    }
}

/// Body that creates or updates a user: trimmed names and email, the
/// selected permission and access-level ids, and the password when due.
pub open spec fn user_json(user: UserModal, include_password: bool) -> Seq<char> {
    "{\"email\":"@ + quoted(trim(user.email@)) + ",\"firstName\":"@ + quoted(trim(user.first_name@))
        + ",\"lastName\":"@ + quoted(trim(user.last_name@)) + ",\"username\":"@ + quoted(
        trim(user.username@),
    ) + ",\"permissionIds\":"@ + ids_text(user.permission_ids@) + ",\"accessLevelIds\":"@ + ids_text(
        user.access_level_ids@,
    ) + password_part(user.password@, include_password) + "}"@
}

pub fn user_json_body(user: &UserModal, include_password: bool) -> (r: String)
    ensures
        r@ == user_json(*user, include_password),
{
    let mut out: Vec<char> = Vec::new();
    push_str(&mut out, "{\"email\":");
    push_quoted(&mut out, &trim_str(user.email.as_str()));
    push_str(&mut out, ",\"firstName\":");
    push_quoted(&mut out, &trim_str(user.first_name.as_str()));
    push_str(&mut out, ",\"lastName\":");
    push_quoted(&mut out, &trim_str(user.last_name.as_str()));
    push_str(&mut out, ",\"username\":");
    push_quoted(&mut out, &trim_str(user.username.as_str()));
    push_str(&mut out, ",\"permissionIds\":");
    push_ids(&mut out, &user.permission_ids);
    push_str(&mut out, ",\"accessLevelIds\":");
    push_ids(&mut out, &user.access_level_ids);
    let ghost before = out@;
    if include_password || !user.password.as_str().is_empty() {
        push_str(&mut out, ",\"password\":");
        push_quoted_str(&mut out, user.password.as_str());
    }
    assert(out@ =~= before + password_part(user.password@, include_password));
    push_str(&mut out, "}");
    assert(out@ =~= user_json(*user, include_password));
    to_string(&out)
}

/// The `defaultValue` member: `null` for an empty default.
pub open spec fn default_value_text(default_value: Seq<char>) -> Seq<char> {
    if default_value.len() == 0 {
        "null"@
    } else {
        quoted(default_value)
    }
}

/// The `ownerUserId` member, present when an owner is given.
pub open spec fn owner_part(owner_user_id: Option<Seq<char>>) -> Seq<char> {
    match owner_user_id {
        Some(o) => ",\"ownerUserId\":"@ + quoted(o),
        None => Seq::empty(),
    }
}

/// Body that creates or updates an attribute template.
pub open spec fn attribute_template_json(
    name: Seq<char>,
    description: Seq<char>,
    value_type: Seq<char>,
    access_level_id: u32,
    default_value: Seq<char>,
    is_required: bool,
    owner_user_id: Option<Seq<char>>,
) -> Seq<char> {
    "{\"accessLevelId\":"@ + decimal(access_level_id as nat) + ",\"defaultValue\":"@
        + default_value_text(default_value) + ",\"description\":"@ + quoted(description)
        + ",\"isRequired\":"@ + bool_text(is_required) + ",\"name\":"@ + quoted(name)
        + ",\"valueType\":"@ + quoted(value_type) + owner_part(owner_user_id) + " }"@
}

pub fn attribute_template_body(
    name: &str,
    description: &str,
    value_type: &str,
    access_level_id: u32,
    default_value: &str,
    is_required: bool,
    owner_user_id: Option<&str>,
) -> (r: String)
    ensures
        r@ == attribute_template_json(
            name@,
            description@,
            value_type@,
            access_level_id,
            default_value@,
            is_required,
            match owner_user_id {
                Some(o) => Some(o@),
                None => None,
            },
        ),
{
    let mut out: Vec<char> = Vec::new();
    push_str(&mut out, "{\"accessLevelId\":");
    push_decimal(&mut out, access_level_id as u64);
    push_str(&mut out, ",\"defaultValue\":");
    if default_value.is_empty() {
        push_str(&mut out, "null");
    } else {
        push_quoted_str(&mut out, default_value);
    }
    push_str(&mut out, ",\"description\":");
    push_quoted_str(&mut out, description);
    push_str(&mut out, ",\"isRequired\":");
    push_bool(&mut out, is_required);
    push_str(&mut out, ",\"name\":");
    push_quoted_str(&mut out, name);
    push_str(&mut out, ",\"valueType\":");
    push_quoted_str(&mut out, value_type);
    let ghost before = out@;
    match owner_user_id {
        Some(o) => {
            push_str(&mut out, ",\"ownerUserId\":");
            push_quoted_str(&mut out, o);
        },
        None => {},
    }
    push_str(&mut out, " }");
    let ghost o = match owner_user_id {
        Some(o) => Some(o@),
        None => None,
    };
    assert(out@ =~= attribute_template_json(
        name@,
        description@,
        value_type@,
        access_level_id,
        default_value@,
        is_required,
        o,
    ));
    to_string(&out)
}

/// Body that creates the attribute template behind a new template
/// attribute: no default value, not required.
pub open spec fn new_attribute_template_json(
    name: Seq<char>,
    description: Seq<char>,
    value_type: Seq<char>,
    access_level_id: u32,
) -> Seq<char> {
    "{\"accessLevelId\":"@ + decimal(access_level_id as nat)
        + ",\"defaultValue\":null,\"description\":"@ + quoted(description)
        + ",\"isRequired\":false,\"name\":"@ + quoted(name) + ",\"valueType\":"@ + quoted(value_type)
        + "}"@
}

pub fn new_attribute_template_body(
    name: &str,
    description: &str,
    value_type: &str,
    access_level_id: u32,
) -> (r: String)
    ensures
        r@ == new_attribute_template_json(name@, description@, value_type@, access_level_id),
{
    let mut out: Vec<char> = Vec::new();
    push_str(&mut out, "{\"accessLevelId\":");
    push_decimal(&mut out, access_level_id as u64);
    push_str(&mut out, ",\"defaultValue\":null,\"description\":");
    push_quoted_str(&mut out, description);
    push_str(&mut out, ",\"isRequired\":false,\"name\":");
    push_quoted_str(&mut out, name);
    push_str(&mut out, ",\"valueType\":");
    push_quoted_str(&mut out, value_type);
    push_str(&mut out, "}");
    assert(out@ =~= new_attribute_template_json(name@, description@, value_type@, access_level_id));
    to_string(&out)
}

/// The characters of an optional string.
pub open spec fn opt_view(o: Option<String>) -> Option<Seq<char>> {
    match o {
        Some(s) => Some(s@),
        None => None,
    }
}

/// One attribute of an entity update body.
pub open spec fn attribute_update_json(a: EntityAttribute) -> Seq<char> {
    "{\"accessLevelId\":"@ + decimal(a.access_level_id as nat) + ",\"description\":"@ + quoted(
        a.description@,
    ) + ",\"id\":"@ + quoted(a.id@) + ",\"isRequired\":"@ + bool_text(a.is_required)
        + ",\"listingIndex\":"@ + decimal_int(a.listing_index as int) + ",\"name\":"@ + quoted(
        trim(a.name@),
    ) + ",\"value\":"@ + quoted(a.value@) + ",\"valueType\":"@ + quoted(a.value_type@) + "}"@
}

/// One link of an entity update body.
pub open spec fn link_update_json(l: EntityLink) -> Seq<char> {
    "{\"description\":"@ + quoted_or_null(opt_view(l.description)) + ",\"listingIndex\":"@
        + decimal_int(l.listing_index as int) + ",\"name\":"@ + quoted(trim(l.name@))
        + ",\"targetEntityId\":"@ + quoted_or_null(opt_view(l.target_entity_id)) + "}"@
}

/// Body that replaces an entity's attributes, listing attribute and links.
pub open spec fn entity_update_json(
    attributes: Seq<EntityAttribute>,
    listing_attribute_id: Seq<char>,
    links: Seq<EntityLink>,
) -> Seq<char> {
    "{\"attributes\":["@ + comma_joined(attributes.map_values(|a: EntityAttribute| attribute_update_json(a)))
        + "],\"listingAttributeId\":"@ + quoted(listing_attribute_id) + ",\"links\":["@
        + comma_joined(links.map_values(|l: EntityLink| link_update_json(l))) + "]}"@
}

fn attribute_update_part(a: &EntityAttribute) -> (r: Vec<char>)
    ensures
        r@ == attribute_update_json(*a),
{
    let mut out: Vec<char> = Vec::new();
    push_str(&mut out, "{\"accessLevelId\":");
    push_decimal(&mut out, a.access_level_id as u64);
    push_str(&mut out, ",\"description\":");
    push_quoted_str(&mut out, a.description.as_str());
    push_str(&mut out, ",\"id\":");
    push_quoted_str(&mut out, a.id.as_str());
    push_str(&mut out, ",\"isRequired\":");
    push_bool(&mut out, a.is_required);
    push_str(&mut out, ",\"listingIndex\":");
    push_decimal_i64(&mut out, a.listing_index as i64);
    push_str(&mut out, ",\"name\":");
    push_quoted(&mut out, &trim_str(a.name.as_str()));
    push_str(&mut out, ",\"value\":");
    push_quoted_str(&mut out, a.value.as_str());
    push_str(&mut out, ",\"valueType\":");
    push_quoted_str(&mut out, a.value_type.as_str());
    push_str(&mut out, "}");
    assert(out@ =~= attribute_update_json(*a));
    out
}

fn link_update_part(l: &EntityLink) -> (r: Vec<char>)
    ensures
        r@ == link_update_json(*l),
{
    let mut out: Vec<char> = Vec::new();
    push_str(&mut out, "{\"description\":");
    push_quoted_or_null(&mut out, &l.description);
    push_str(&mut out, ",\"listingIndex\":");
    push_decimal_i64(&mut out, l.listing_index as i64);
    push_str(&mut out, ",\"name\":");
    push_quoted(&mut out, &trim_str(l.name.as_str()));
    push_str(&mut out, ",\"targetEntityId\":");
    push_quoted_or_null(&mut out, &l.target_entity_id);
    push_str(&mut out, "}");
    assert(out@ =~= link_update_json(*l));
    out
}

pub fn build_entity_update_body(
    attributes: &Vec<EntityAttribute>,
    listing_attribute_id: &str,
    links: &Vec<EntityLink>,
) -> (r: String)
    ensures
        r@ == entity_update_json(attributes@, listing_attribute_id@, links@),
{
    let mut attribute_parts: Vec<Vec<char>> = Vec::new();
    let mut i: usize = 0;
    while i < attributes.len()
        invariant
            i <= attributes@.len(),
            views(attribute_parts@) == attributes@.take(i as int).map_values(
                |a: EntityAttribute| attribute_update_json(a),
            ),
        decreases attributes@.len() - i,
    {
        let part = attribute_update_part(&attributes[i]);
        let ghost before = views(attribute_parts@);
        attribute_parts.push(part);
        assert(views(attribute_parts@) =~= before.push(part@));
        assert(attributes@.take(i as int + 1).map_values(|a: EntityAttribute| attribute_update_json(a))
            =~= before.push(part@));
        i = i + 1;
    }
    assert(attributes@.take(i as int) =~= attributes@);
    let mut link_parts: Vec<Vec<char>> = Vec::new();
    let mut j: usize = 0;
    while j < links.len()
        invariant
            j <= links@.len(),
            views(link_parts@) == links@.take(j as int).map_values(|l: EntityLink| link_update_json(l)),
        decreases links@.len() - j,
    {
        let part = link_update_part(&links[j]);
        let ghost before = views(link_parts@);
        link_parts.push(part);
        assert(views(link_parts@) =~= before.push(part@));
        assert(links@.take(j as int + 1).map_values(|l: EntityLink| link_update_json(l)) =~= before.push(
            part@,
        ));
        j = j + 1;
    }
    assert(links@.take(j as int) =~= links@);
    let mut out: Vec<char> = Vec::new();
    push_str(&mut out, "{\"attributes\":[");
    push_comma_joined(&mut out, &attribute_parts);
    push_str(&mut out, "],\"listingAttributeId\":");
    push_quoted_str(&mut out, listing_attribute_id);
    push_str(&mut out, ",\"links\":[");
    push_comma_joined(&mut out, &link_parts);
    push_str(&mut out, "]}");
    assert(out@ =~= entity_update_json(attributes@, listing_attribute_id@, links@));
    to_string(&out)
}

/// One attribute of an entity creation body, at position `i`.
pub open spec fn attribute_create_json(a: EntityAttribute, i: int) -> Seq<char> {
    "{\"name\":"@ + quoted(trim(a.name@)) + ",\"value\":"@ + quoted(a.value@) + ",\"valueType\":"@
        + quoted(a.value_type@) + ",\"accessLevelId\":"@ + decimal(a.access_level_id as nat)
        + ",\"isRequired\":"@ + bool_text(a.is_required) + ",\"description\":"@ + quoted(
        a.description@,
    ) + ",\"listingIndex\":"@ + decimal(i as nat) + "}"@
}

/// `,"<name>":"<value>"` when the value is not empty.
pub open spec fn member_if_set(member: Seq<char>, value: Seq<char>) -> Seq<char> {
    if value.len() == 0 {
        Seq::empty()
    } else {
        member + quoted(value)
    }
}

/// Body that creates an entity: its attributes numbered by position, and
/// the template, owner and listing attribute when given.
pub open spec fn entity_create_json(
    attributes: Seq<EntityAttribute>,
    owner_user_id: Seq<char>,
    entity_template_id: Seq<char>,
    listing_attribute_id: Seq<char>,
) -> Seq<char> {
    "{\"attributes\":["@ + comma_joined(
        Seq::new(attributes.len(), |i: int| attribute_create_json(attributes[i], i)),
    ) + "]"@ + member_if_set(",\"entityTemplateId\":"@, entity_template_id) + member_if_set(
        ",\"ownerUserId\":"@,
        owner_user_id,
    ) + member_if_set(",\"listingAttributeId\":"@, listing_attribute_id) + "}"@
}

fn attribute_create_part(a: &EntityAttribute, i: usize) -> (r: Vec<char>)
    ensures
        r@ == attribute_create_json(*a, i as int),
{
    let mut out: Vec<char> = Vec::new();
    push_str(&mut out, "{\"name\":");
    push_quoted(&mut out, &trim_str(a.name.as_str()));
    push_str(&mut out, ",\"value\":");
    push_quoted_str(&mut out, a.value.as_str());
    push_str(&mut out, ",\"valueType\":");
    push_quoted_str(&mut out, a.value_type.as_str());
    push_str(&mut out, ",\"accessLevelId\":");
    push_decimal(&mut out, a.access_level_id as u64);
    push_str(&mut out, ",\"isRequired\":");
    push_bool(&mut out, a.is_required);
    push_str(&mut out, ",\"description\":");
    push_quoted_str(&mut out, a.description.as_str());
    push_str(&mut out, ",\"listingIndex\":");
    push_decimal(&mut out, i as u64);
    push_str(&mut out, "}");
    assert(out@ =~= attribute_create_json(*a, i as int));
    out
}

fn push_member_if_set(out: &mut Vec<char>, member: &str, value: &str)
    ensures
        final(out)@ == old(out)@ + member_if_set(member@, value@),
{
    if !value.is_empty() {
        push_str(out, member);
        push_quoted_str(out, value);
    }
    assert(out@ =~= old(out)@ + member_if_set(member@, value@));
}

pub fn build_entity_create_body(
    attributes: &Vec<EntityAttribute>,
    owner_user_id: &str,
    entity_template_id: &str,
    listing_attribute_id: &str,
) -> (r: String)
    ensures
        r@ == entity_create_json(attributes@, owner_user_id@, entity_template_id@, listing_attribute_id@),
{
    let ghost all = Seq::new(attributes@.len(), |i: int| attribute_create_json(attributes@[i], i));
    let mut parts: Vec<Vec<char>> = Vec::new();
    let mut i: usize = 0;
    while i < attributes.len()
        invariant
            i <= attributes@.len(),
            all == Seq::new(attributes@.len(), |i: int| attribute_create_json(attributes@[i], i)),
            views(parts@) == all.take(i as int),
        decreases attributes@.len() - i,
    {
        let part = attribute_create_part(&attributes[i], i);
        let ghost before = views(parts@);
        parts.push(part);
        assert(views(parts@) =~= before.push(part@));
        assert(all.take(i as int + 1) =~= before.push(part@));
        i = i + 1;
    }
    assert(all.take(i as int) =~= all);
    let mut out: Vec<char> = Vec::new();
    push_str(&mut out, "{\"attributes\":[");
    push_comma_joined(&mut out, &parts);
    push_str(&mut out, "]");
    push_member_if_set(&mut out, ",\"entityTemplateId\":", entity_template_id);
    push_member_if_set(&mut out, ",\"ownerUserId\":", owner_user_id);
    push_member_if_set(&mut out, ",\"listingAttributeId\":", listing_attribute_id);
    push_str(&mut out, "}");
    assert(out@ =~= entity_create_json(
        attributes@,
        owner_user_id@,
        entity_template_id@,
        listing_attribute_id@,
    ));
    to_string(&out)
}

/// One attribute of an entity template body, at position `i`.
pub open spec fn template_attribute_json(a: EntityTemplateAttribute, i: int) -> Seq<char> {
    "{\"accessLevelId\":"@ + decimal(a.access_level_id as nat) + ",\"description\":"@ + quoted(
        a.description@,
    ) + ",\"id\":"@ + quoted(a.id@) + ",\"isRequired\":"@ + bool_text(a.is_required)
        + ",\"listingIndex\":"@ + decimal(i as nat) + ",\"name\":"@ + quoted(trim(a.name@))
        + ",\"valueType\":"@ + quoted(a.value_type@) + "}"@
}

/// The `description` value of a template link: the trimmed text, or
/// `null` when there is none or it is blank.
pub open spec fn link_description_text(d: Option<String>) -> Seq<char> {
    match d {
        Some(s) => if trim(s@).len() > 0 {
            quoted(trim(s@))
        } else {
            "null"@
        },
        None => "null"@,
    }
}

/// The `id` member of a template link; draft links (not saved yet) have none.
pub open spec fn link_id_member(id: Seq<char>) -> Seq<char> {
    if "draft-link-"@.is_prefix_of(id) {
        Seq::empty()
    } else {
        "\"id\":"@ + quoted(id) + ","@
    }
}

/// One link of an entity template body, at position `i`.
pub open spec fn template_link_json(l: EntityTemplateLink, i: int) -> Seq<char> {
    "{"@ + link_id_member(l.id@) + "\"description\":"@ + link_description_text(l.description)
        + ",\"listingIndex\":"@ + decimal(i as nat) + ",\"name\":"@ + quoted(trim(l.name@))
        + ",\"targetEntityTemplateId\":"@ + quoted_or_null(opt_view(l.target_entity_template_id))
        + "}"@
}

/// Body that creates or updates an entity template: attributes and links in
/// listing order, numbered by position; trimmed texts; the owner when set.
pub open spec fn entity_template_json(t: EntityTemplate) -> Seq<char> {
    let attrs = by_listing(t.attributes@);
    let links = by_listing(t.links@);
    "{\"attributes\":["@ + comma_joined(
        Seq::new(attrs.len(), |i: int| template_attribute_json(attrs[i], i)),
    ) + "],\"description\":"@ + quoted(trim(t.description@)) + ",\"links\":["@ + comma_joined(
        Seq::new(links.len(), |i: int| template_link_json(links[i], i)),
    ) + "],\"listingAttributeId\":"@ + quoted(t.listing_attribute_id@) + ",\"name\":"@ + quoted(
        trim(t.name@),
    ) + (if trim(t.owner_user_id@).len() == 0 {
        Seq::empty()
    } else {
        ",\"ownerUserId\":"@ + quoted(trim(t.owner_user_id@))
    }) + " }"@
}

fn template_attribute_part(a: &EntityTemplateAttribute, i: usize) -> (r: Vec<char>)
    ensures
        r@ == template_attribute_json(*a, i as int),
{
    let mut out: Vec<char> = Vec::new();
    push_str(&mut out, "{\"accessLevelId\":");
    push_decimal(&mut out, a.access_level_id as u64);
    push_str(&mut out, ",\"description\":");
    push_quoted_str(&mut out, a.description.as_str());
    push_str(&mut out, ",\"id\":");
    push_quoted_str(&mut out, a.id.as_str());
    push_str(&mut out, ",\"isRequired\":");
    push_bool(&mut out, a.is_required);
    push_str(&mut out, ",\"listingIndex\":");
    push_decimal(&mut out, i as u64);
    push_str(&mut out, ",\"name\":");
    push_quoted(&mut out, &trim_str(a.name.as_str()));
    push_str(&mut out, ",\"valueType\":");
    push_quoted_str(&mut out, a.value_type.as_str());
    push_str(&mut out, "}");
    assert(out@ =~= template_attribute_json(*a, i as int));
    out
}

fn template_link_part(l: &EntityTemplateLink, i: usize) -> (r: Vec<char>)
    ensures
        r@ == template_link_json(*l, i as int),
{
    let mut out: Vec<char> = Vec::new();
    push_str(&mut out, "{");
    let ghost before = out@;
    if !starts_with(l.id.as_str(), "draft-link-") {
        push_str(&mut out, "\"id\":");
        push_quoted_str(&mut out, l.id.as_str());
        push_str(&mut out, ",");
    }
    assert(out@ =~= before + link_id_member(l.id@));
    push_str(&mut out, "\"description\":");
    let ghost before2 = out@;
    match &l.description {
        Some(d) => {
            let t = trim_str(d.as_str());
            if t.len() > 0 {
                push_quoted(&mut out, &t);
            } else {
                push_str(&mut out, "null");
            }
        },
        None => push_str(&mut out, "null"),
    }
    assert(out@ =~= before2 + link_description_text(l.description));
    push_str(&mut out, ",\"listingIndex\":");
    push_decimal(&mut out, i as u64);
    push_str(&mut out, ",\"name\":");
    push_quoted(&mut out, &trim_str(l.name.as_str()));
    push_str(&mut out, ",\"targetEntityTemplateId\":");
    push_quoted_or_null(&mut out, &l.target_entity_template_id);
    push_str(&mut out, "}");
    assert(out@ =~= template_link_json(*l, i as int));
    out
}

pub fn entity_template_create_body(entity_template: &EntityTemplate) -> (r: String)
    ensures
        r@ == entity_template_json(*entity_template),
{
    let attrs = ordered_attributes(entity_template);
    let links = ordered_links(entity_template);
    let ghost all_attrs = Seq::new(attrs@.len(), |i: int| template_attribute_json(attrs@[i], i));
    let ghost all_links = Seq::new(links@.len(), |i: int| template_link_json(links@[i], i));
    let mut attribute_parts: Vec<Vec<char>> = Vec::new();
    let mut i: usize = 0;
    while i < attrs.len()
        invariant
            i <= attrs@.len(),
            all_attrs == Seq::new(attrs@.len(), |i: int| template_attribute_json(attrs@[i], i)),
            views(attribute_parts@) == all_attrs.take(i as int),
        decreases attrs@.len() - i,
    {
        let part = template_attribute_part(&attrs[i], i);
        let ghost before = views(attribute_parts@);
        attribute_parts.push(part);
        assert(views(attribute_parts@) =~= before.push(part@));
        assert(all_attrs.take(i as int + 1) =~= before.push(part@));
        i = i + 1;
    }
    assert(all_attrs.take(i as int) =~= all_attrs);
    let mut link_parts: Vec<Vec<char>> = Vec::new();
    let mut j: usize = 0;
    while j < links.len()
        invariant
            j <= links@.len(),
            all_links == Seq::new(links@.len(), |i: int| template_link_json(links@[i], i)),
            views(link_parts@) == all_links.take(j as int),
        decreases links@.len() - j,
    {
        let part = template_link_part(&links[j], j);
        let ghost before = views(link_parts@);
        link_parts.push(part);
        assert(views(link_parts@) =~= before.push(part@));
        assert(all_links.take(j as int + 1) =~= before.push(part@));
        j = j + 1;
    }
    assert(all_links.take(j as int) =~= all_links);
    let mut out: Vec<char> = Vec::new();
    push_str(&mut out, "{\"attributes\":[");
    push_comma_joined(&mut out, &attribute_parts);
    push_str(&mut out, "],\"description\":");
    push_quoted(&mut out, &trim_str(entity_template.description.as_str()));
    push_str(&mut out, ",\"links\":[");
    push_comma_joined(&mut out, &link_parts);
    push_str(&mut out, "],\"listingAttributeId\":");
    push_quoted_str(&mut out, entity_template.listing_attribute_id.as_str());
    push_str(&mut out, ",\"name\":");
    push_quoted(&mut out, &trim_str(entity_template.name.as_str()));
    let ghost before = out@;
    let owner = trim_str(entity_template.owner_user_id.as_str());
    if owner.len() > 0 {
        push_str(&mut out, ",\"ownerUserId\":");
        push_quoted(&mut out, &owner);
    }
    push_str(&mut out, " }");
    assert(out@ =~= entity_template_json(*entity_template));
    to_string(&out)
}

} // verus!
