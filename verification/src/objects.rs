//! What is read out of the objects that Notion sends.
use vstd::prelude::*;
use vstd::string::StringExecFns;

use crate::json::{Json, JsonObject, JsonView};
use crate::names::{first_of, is_first, lists, only_one_is_first};
use crate::text::{owned, same, view_of};

verus! {

/// The kind of object that a document describes.
pub fn object_kind(value: &Json) -> (r: &str)
    ensures
        r@ == match value@.text_field("object"@) {
            Some(kind) => kind,
            None => "unknown"@,
        },
{
    match value.get_str("object") {
        Some(kind) => kind,
        None => "unknown",
    }
}

/// The properties of a page or a data source.
pub open spec fn properties(value: JsonView) -> Map<Seq<char>, JsonView> {
    match value.field("properties"@) {
        Some(JsonView::Object(fields)) => fields,
        _ => Map::empty(),
    }
}

/// A property is of the type `title`.
pub open spec fn is_title_property(property: JsonView) -> bool {
    property.text_field("type"@) == Some("title"@)
}

/// The names of the properties of the type `title`.
pub open spec fn title_properties(value: JsonView) -> Set<Seq<char>> {
    properties(value).dom().filter(|name: Seq<char>| is_title_property(properties(value)[name]))
}

/// The name of the title property: the first one of the type `title`.
pub open spec fn title_property(value: JsonView) -> Option<Seq<char>> {
    if title_properties(value) == Set::<Seq<char>>::empty() {
        None
    } else {
        Some(first_of(title_properties(value)))
    }
}

/// Whether a property is of the type `title`.
fn has_title_type(property: &Json) -> (r: bool)
    ensures
        r == is_title_property(property@),
{
    match property.get_str("type") {
        Some(kind) => same(kind, "title"),
        None => false,
    }
}

/// The properties of a page or a data source, where it has them.
fn property_fields(value: &Json) -> (r: Option<&JsonObject>)
    ensures
        match r {
            Some(fields) => fields@ == properties(value@),
            None => properties(value@) == Map::<Seq<char>, JsonView>::empty(),
        },
{
    match value.get("properties") {
        Some(found) => found.as_object(),
        None => None,
    }
}

/// The name of the title property of a data source: the first one of the type `title`.
pub fn data_source_title_property_name(value: &Json) -> (r: Option<String>)
    ensures
        view_of(r) == title_property(value@),
        match r {
            Some(name) => is_first(name@, title_properties(value@)),
            None => title_properties(value@) == Set::<Seq<char>>::empty(),
        },
{
    let ghost titles = title_properties(value@);
    let fields = match property_fields(value) {
        Some(fields) => fields,
        None => {
            assert(titles =~= Set::<Seq<char>>::empty());
            return None;
        },
    };
    let count = fields.len();
    let ghost names = fields.names();
    let mut i: usize = 0;
    while i < count
        invariant
            i <= count,
            count == names.len(),
            names == fields.names(),
            fields@ == properties(value@),
            lists(names, fields@.dom()),
            titles == title_properties(value@),
            forall|k: int| 0 <= k < i ==> !titles.contains(#[trigger] names[k]),
        decreases count - i,
    {
        assert(names.contains(names[i as int]));
        if has_title_type(fields.value_at(i)) {
            let name = fields.name_at(i);
            proof {
                assert forall|other: Seq<char>| #[trigger] titles.contains(other) implies other
                    == name@ || crate::names::before(name@, other) by {
                    let k = choose|k: int| 0 <= k < names.len() && names[k] == other;
                    assert(k >= i);
                }
                assert(titles.contains(name@));
                only_one_is_first(name@, titles);
            }
            return Some(name.clone());
        }
        i = i + 1;
    }
    proof {
        assert forall|name: Seq<char>| !titles.contains(name) by {
            if titles.contains(name) {
                let k = choose|k: int| 0 <= k < names.len() && names[k] == name;
                assert(!titles.contains(names[k]));
            }
        }
        assert(titles =~= Set::<Seq<char>>::empty());
    }
    None
}

/// The plain text of a run of rich text items, one after the other.
pub open spec fn joined_plain_text(items: Seq<JsonView>) -> Seq<char>
    decreases items.len(),
{
    if items.len() == 0 {
        Seq::empty()
    } else {
        joined_plain_text(items.drop_last()) + match items.last().text_field("plain_text"@) {
            Some(text) => text,
            None => Seq::empty(),
        }
    }
}

/// The plain text of a rich text value, where there is any.
pub open spec fn plain_text(value: JsonView) -> Option<Seq<char>> {
    match value {
        JsonView::Array(items) => if joined_plain_text(items).len() > 0 {
            Some(joined_plain_text(items))
        } else {
            None
        },
        _ => None,
    }
}

/// The plain text of a rich text value, where there is any.
pub fn rich_text_to_plain_text(value: &Json) -> (r: Option<String>)
    ensures
        match r {
            Some(text) => plain_text(value@) == Some(text@),
            None => plain_text(value@) is None,
        },
{
    let items = match value.as_array() {
        Some(items) => items,
        None => {
            return None;
        },
    };
    let ghost views = items@.map_values(|j: Json| j@);
    let mut title = String::new();
    let mut i: usize = 0;
    assert(views.take(0) =~= Seq::empty());
    while i < items.len()
        invariant
            i <= items.len(),
            views == items@.map_values(|j: Json| j@),
            title@ == joined_plain_text(views.take(i as int)),
        decreases items.len() - i,
    {
        assert(views.take(i + 1).drop_last() =~= views.take(i as int));
        if let Some(text) = items[i].get_str("plain_text") {
            title.append(text);
        } else {
            assert(joined_plain_text(views.take(i + 1)) =~= joined_plain_text(views.take(i as int)));
        }
        i = i + 1;
    }
    assert(views.take(i as int) =~= views);
    if title.as_str().is_empty() {
        None
    } else {
        Some(title)
    }
}

/// The title that a property gives, where it is of the type `title` and has any text.
pub open spec fn property_title(property: JsonView) -> Option<Seq<char>> {
    if is_title_property(property) {
        plain_text(property.inside("title"@))
    } else {
        None
    }
}

/// The names of the properties that give a title.
pub open spec fn titled_properties(value: JsonView) -> Set<Seq<char>> {
    properties(value).dom().filter(|name: Seq<char>| property_title(properties(value)[name]) is Some)
}

/// The title of an object: that of its first property that gives one, or else its own title, its
/// name, or its id, whichever has text first.
pub open spec fn title_of(value: JsonView) -> Seq<char> {
    if titled_properties(value) != Set::<Seq<char>>::empty() {
        property_title(properties(value)[first_of(titled_properties(value))])->0
    } else {
        match plain_text(value.inside("title"@)) {
            Some(title) => title,
            None => match value.text_field("name"@) {
                Some(name) if name.len() > 0 => name,
                _ => match value.text_field("id"@) {
                    Some(id) => id,
                    None => "<untitled>"@,
                },
            },
        }
    }
}

/// The title that a property gives.
fn title_of_property(property: &Json) -> (r: Option<String>)
    ensures
        match r {
            Some(title) => property_title(property@) == Some(title@),
            None => property_title(property@) is None,
        },
{
    if has_title_type(property) {
        match property.get("title") {
            Some(title) => rich_text_to_plain_text(title),
            None => None,
        }
    } else {
        None
    }
}

/// The title of the first property that gives one.
fn title_from_properties(value: &Json) -> (r: Option<String>)
    ensures
        match r {
            Some(title) => titled_properties(value@) != Set::<Seq<char>>::empty() && title@ == property_title(
                properties(value@)[first_of(titled_properties(value@))],
            )->0,
            None => titled_properties(value@) == Set::<Seq<char>>::empty(),
        },
{
    let ghost titled = titled_properties(value@);
    let fields = match property_fields(value) {
        Some(fields) => fields,
        None => {
            assert(titled =~= Set::<Seq<char>>::empty());
            return None;
        },
    };
    let count = fields.len();
    let ghost names = fields.names();
    let mut i: usize = 0;
    while i < count
        invariant
            i <= count,
            count == names.len(),
            names == fields.names(),
            fields@ == properties(value@),
            lists(names, fields@.dom()),
            titled == titled_properties(value@),
            forall|k: int| 0 <= k < i ==> !titled.contains(#[trigger] names[k]),
        decreases count - i,
    {
        assert(names.contains(names[i as int]));
        if let Some(title) = title_of_property(fields.value_at(i)) {
            proof {
                let name = names[i as int];
                assert forall|other: Seq<char>| #[trigger] titled.contains(other) implies other
                    == name || crate::names::before(name, other) by {
                    let k = choose|k: int| 0 <= k < names.len() && names[k] == other;
                    assert(k >= i);
                }
                only_one_is_first(name, titled);
                assert(titled.contains(name));
            }
            return Some(title);
        }
        i = i + 1;
    }
    proof {
        assert forall|name: Seq<char>| !titled.contains(name) by {
            if titled.contains(name) {
                let k = choose|k: int| 0 <= k < names.len() && names[k] == name;
                assert(!titled.contains(names[k]));
            }
        }
        assert(titled =~= Set::<Seq<char>>::empty());
    }
    None
}

/// The title of a page, a data source or a database.
pub fn extract_title(value: &Json) -> (r: String)
    ensures
        r@ == title_of(value@),
{
    if let Some(title) = title_from_properties(value) {
        return title;
    }
    if let Some(found) = value.get("title") {
        if let Some(title) = rich_text_to_plain_text(found) {
            return title;
        }
    }
    if let Some(name) = value.get_str("name") {
        if !name.is_empty() {
            return name.to_owned();
        }
    }
    match value.get_str("id") {
        Some(id) => id.to_owned(),
        None => "<untitled>".to_owned(),
    }
}

/// The user who owns the bot, as the bot's own user object tells it.
fn owning_user(value: &Json) -> (r: Option<&Json>)
    ensures
        match r {
            Some(user) => user@ == value@.inside("owner"@).inside("user"@),
            None => value@.inside("owner"@).inside("user"@) == JsonView::Null,
        },
{
    match value.get("owner") {
        Some(owner) => owner.get("user"),
        None => None,
    }
}

/// The name of the owner: that of the user who owns the bot, or else the bot's own.
pub open spec fn owner_name(value: JsonView) -> Option<Seq<char>> {
    match value.inside("owner"@).inside("user"@).text_field("name"@) {
        Some(name) => Some(name),
        None => value.text_field("name"@),
    }
}

/// The e-mail address of the owner: that of the user who owns the bot, or else the bot's own.
pub open spec fn owner_email(value: JsonView) -> Option<Seq<char>> {
    match value.inside("owner"@).inside("user"@).inside("person"@).text_field("email"@) {
        Some(email) => Some(email),
        None => value.inside("person"@).text_field("email"@),
    }
}

/// The name of the owner, out of the user object of the bot.
pub fn owner_name_from_user_me(value: &Json) -> (r: Option<String>)
    ensures
        match r {
            Some(name) => owner_name(value@) == Some(name@),
            None => owner_name(value@) is None,
        },
{
    if let Some(user) = owning_user(value) {
        if let Some(name) = user.get_str("name") {
            return Some(name.to_owned());
        }
    }
    owned(value.get_str("name"))
}

/// The e-mail address of a user object.
fn person_email(user: &Json) -> (r: Option<&str>)
    ensures
        match r {
            Some(email) => user@.inside("person"@).text_field("email"@) == Some(email@),
            None => user@.inside("person"@).text_field("email"@) is None,
        },
{
    match user.get("person") {
        Some(person) => person.get_str("email"),
        None => None,
    }
}

/// The e-mail address of the owner, out of the user object of the bot.
pub fn owner_email_from_user_me(value: &Json) -> (r: Option<String>)
    ensures
        match r {
            Some(email) => owner_email(value@) == Some(email@),
            None => owner_email(value@) is None,
        },
{
    if let Some(user) = owning_user(value) {
        if let Some(email) = person_email(user) {
            return Some(email.to_owned());
        }
    }
    owned(person_email(value))
}

/// The id of the bot, out of its user object.
pub fn bot_id_from_user_me(value: &Json) -> (r: Option<String>)
    ensures
        match r {
            Some(id) => value@.text_field("id"@) == Some(id@),
            None => value@.text_field("id"@) is None,
        },
{
    owned(value.get_str("id"))
}

} // verus!
