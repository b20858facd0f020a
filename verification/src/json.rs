//! JSON documents.
use vstd::prelude::*;

use crate::names::{entry_map, lists, view_of_entries, NameMap};

verus! {

/// A JSON document. A number is kept as its text.
#[derive(Debug)]
pub enum Json {
    Null,
    Bool(bool),
    Number(String),
    Text(String),
    Array(Vec<Json>),
    Object(JsonObject),
}

/// The fields of a JSON object, walked in the order of their names.
#[derive(Debug)]
pub struct JsonObject {
    pub(crate) fields: NameMap<Json>,
}

/// What a JSON document says.
pub enum JsonView {
    Null,
    Bool(bool),
    Number(Seq<char>),
    Text(Seq<char>),
    Array(Seq<JsonView>),
    Object(Map<Seq<char>, JsonView>),
}

impl JsonView {
    /// The value of the field `name`, where the document is an object that has it.
    pub open spec fn field(self, name: Seq<char>) -> Option<JsonView> {
        match self {
            JsonView::Object(fields) => if fields.dom().contains(name) {
                Some(fields[name])
            } else {
                None
            },
            _ => None,
        }
    }

    /// The text, where the document is a string.
    pub open spec fn text(self) -> Option<Seq<char>> {
        match self {
            JsonView::Text(s) => Some(s),
            _ => None,
        }
    }

    /// The value of the field `name`, and `null` where there is none.
    pub open spec fn inside(self, name: Seq<char>) -> JsonView {
        match self.field(name) {
            Some(value) => value,
            None => JsonView::Null,
        }
    }

    /// The text of the field `name`, where the document is an object that has it as a string.
    pub open spec fn text_field(self, name: Seq<char>) -> Option<Seq<char>> {
        match self.field(name) {
            Some(value) => value.text(),
            None => None,
        }
    }
}

pub(crate) closed spec fn tree(j: Json) -> JsonView
    decreases j,
{
    match j {
        Json::Null => JsonView::Null,
        Json::Bool(b) => JsonView::Bool(b),
        Json::Number(s) => JsonView::Number(s@),
        Json::Text(s) => JsonView::Text(s@),
        Json::Array(items) => JsonView::Array(trees(items@)),
        Json::Object(object) => JsonView::Object(tree_map(object.fields.entries@)),
    }
}

pub(crate) closed spec fn trees(items: Seq<Json>) -> Seq<JsonView>
    decreases items,
{
    if items.len() == 0 {
        Seq::empty()
    } else {
        trees(items.drop_last()).push(tree(items.last()))
    }
}

pub(crate) closed spec fn tree_map(entries: Seq<(String, Json)>) -> Map<Seq<char>, JsonView>
    decreases entries,
{
    if entries.len() == 0 {
        Map::empty()
    } else {
        tree_map(entries.drop_last()).insert(entries.last().0@, tree(entries.last().1))
    }
}

/// Every item of an array is viewed by itself.
proof fn trees_index(items: Seq<Json>)
    ensures
        trees(items).len() == items.len(),
        forall|i: int| 0 <= i < items.len() ==> #[trigger] trees(items)[i] == tree(items[i]),
    decreases items.len(),
{
    if items.len() > 0 {
        trees_index(items.drop_last());
        assert forall|i: int| 0 <= i < items.len() implies #[trigger] trees(items)[i] == tree(
            items[i],
        ) by {
            if i < items.len() - 1 {
                assert(items.drop_last()[i] == items[i]);
            }
        }
    }
}

/// Every value of an object is viewed by itself.
proof fn tree_map_values(entries: Seq<(String, Json)>)
    ensures
        tree_map(entries) == entry_map(entries).map_values(|j: Json| tree(j)),
    decreases entries.len(),
{
    if entries.len() > 0 {
        tree_map_values(entries.drop_last());
    }
    assert(tree_map(entries) =~= entry_map(entries).map_values(|j: Json| tree(j)));
}

/// An object holds what its fields hold, each viewed by itself.
proof fn object_values(object: JsonObject)
    ensures
        object@ == object.fields@.map_values(|j: Json| tree(j)),
        object@.dom() == object.fields@.dom(),
{
    view_of_entries(object.fields);
    tree_map_values(object.fields.entries@);
    assert(object@.dom() =~= object.fields@.dom());
}

impl View for Json {
    type V = JsonView;

    closed spec fn view(&self) -> JsonView {
        tree(*self)
    }
}

impl View for JsonObject {
    type V = Map<Seq<char>, JsonView>;

    closed spec fn view(&self) -> Map<Seq<char>, JsonView> {
        tree_map(self.fields.entries@)
    }
}

impl JsonObject {
    /// The names of the fields, in order.
    pub closed spec fn names(self) -> Seq<Seq<char>> {
        self.fields.keys()
    }

    /// The object without fields.
    pub fn new() -> (r: Self)
        ensures
            r@ == Map::<Seq<char>, JsonView>::empty(),
    {
        let r = JsonObject { fields: NameMap::new() };
        proof {
            object_values(r);
            assert(r@ =~= Map::<Seq<char>, JsonView>::empty());
        }
        r
    }

    /// Gives the field `name` the value `value`.
    pub fn insert(&mut self, name: &str, value: Json)
        ensures
            final(self)@ == old(self)@.insert(name@, value@),
    {
        proof {
            object_values(*self);
        }
        self.fields.insert(name.to_owned(), value);
        proof {
            object_values(*self);
            assert(self@ =~= old(self)@.insert(name@, value@));
        }
    }

    /// The value of the field `name`, if the object has it.
    pub fn get(&self, name: &str) -> (r: Option<&Json>)
        ensures
            match r {
                Some(value) => self@.dom().contains(name@) && value@ == self@[name@],
                None => !self@.dom().contains(name@),
            },
    {
        proof {
            object_values(*self);
        }
        self.fields.get(name)
    }

    /// How many fields the object has.
    pub fn len(&self) -> (r: usize)
        ensures
            r == self.names().len(),
            lists(self.names(), self@.dom()),
    {
        proof {
            object_values(*self);
        }
        self.fields.len()
    }

    /// The name of the field at position `i` in the order of the names.
    pub fn name_at(&self, i: usize) -> (r: &String)
        requires
            i < self.names().len(),
        ensures
            r@ == self.names()[i as int],
    {
        self.fields.key_at(i)
    }

    /// The value of the field at position `i` in the order of the names.
    pub fn value_at(&self, i: usize) -> (r: &Json)
        requires
            i < self.names().len(),
        ensures
            self@.dom().contains(self.names()[i as int]),
            r@ == self@[self.names()[i as int]],
    {
        proof {
            object_values(*self);
        }
        self.fields.value_at(i)
    }

    /// The object with these fields, as a document.
    pub fn document(self) -> (r: Json)
        ensures
            r@ == JsonView::Object(self@),
    {
        Json::Object(self)
    }
}

impl Json {
    /// The JSON `null`.
    pub fn null() -> (r: Json)
        ensures
            r@ == JsonView::Null,
    {
        Json::Null
    }

    /// The JSON `true` or `false`.
    pub fn boolean(b: bool) -> (r: Json)
        ensures
            r@ == JsonView::Bool(b),
    {
        Json::Bool(b)
    }

    /// The JSON number with the text `numeral`.
    pub fn numeral(numeral: String) -> (r: Json)
        ensures
            r@ == JsonView::Number(numeral@),
    {
        Json::Number(numeral)
    }

    /// The JSON string `s`.
    pub fn string(s: &str) -> (r: Json)
        ensures
            r@ == JsonView::Text(s@),
    {
        Json::Text(s.to_owned())
    }

    /// The JSON array of `items`.
    pub fn array(items: Vec<Json>) -> (r: Json)
        ensures
            r@ == JsonView::Array(items@.map_values(|j: Json| j@)),
    {
        proof {
            trees_index(items@);
            assert(trees(items@) =~= items@.map_values(|j: Json| j@));
        }
        Json::Array(items)
    }

    /// The value of the field `name`, where the document is an object that has it.
    pub fn get(&self, name: &str) -> (r: Option<&Json>)
        ensures
            match r {
                Some(value) => self@.field(name@) == Some(value@),
                None => self@.field(name@) is None,
            },
    {
        match self {
            Json::Object(object) => object.get(name),
            _ => None,
        }
    }

    /// The text, where the document is a string.
    pub fn as_str(&self) -> (r: Option<&str>)
        ensures
            match r {
                Some(s) => self@.text() == Some(s@),
                None => self@.text() is None,
            },
    {
        match self {
            Json::Text(s) => Some(s.as_str()),
            _ => None,
        }
    }

    /// The fields, where the document is an object.
    pub fn as_object(&self) -> (r: Option<&JsonObject>)
        ensures
            match r {
                Some(object) => self@ == JsonView::Object(object@),
                None => !(self@ is Object),
            },
    {
        match self {
            Json::Object(object) => Some(object),
            _ => None,
        }
    }

    /// The items, where the document is an array.
    pub fn as_array(&self) -> (r: Option<&Vec<Json>>)
        ensures
            match r {
                Some(items) => self@ == JsonView::Array(items@.map_values(|j: Json| j@)),
                None => !(self@ is Array),
            },
    {
        match self {
            Json::Array(items) => {
                proof {
                    trees_index(items@);
                    assert(trees(items@) =~= items@.map_values(|j: Json| j@));
                }
                Some(items)
            },
            _ => None,
        }
    }

    /// The text of the field `name`, where the document is an object that has it as a string.
    pub fn get_str(&self, name: &str) -> (r: Option<&str>)
        ensures
            match r {
                Some(s) => self@.text_field(name@) == Some(s@),
                None => self@.text_field(name@) is None,
            },
    {
        match self.get(name) {
            Some(value) => value.as_str(),
            None => None,
        }
    }

    /// A document that says the same.
    fn copy(&self) -> (r: Json)
        ensures
            r@ == self@,
        decreases self,
    {
        match self {
            Json::Null => Json::Null,
            Json::Bool(b) => Json::Bool(*b),
            Json::Number(s) => Json::Number(s.clone()),
            Json::Text(s) => Json::Text(s.clone()),
            Json::Array(items) => {
                let mut copies: Vec<Json> = Vec::new();
                let mut i: usize = 0;
                while i < items.len()
                    invariant
                        i <= items.len(),
                        *self == Json::Array(*items),
                        copies.len() == i,
                        forall|k: int| 0 <= k < i ==> (#[trigger] copies@[k])@ == items@[k]@,
                    decreases items.len() - i,
                {
                    assert(decreases_to!(*self => self->Array_0));
                    assert(decreases_to!(*items => items@[i as int]));
                    copies.push(items[i].copy());
                    i = i + 1;
                }
                proof {
                    trees_index(items@);
                    trees_index(copies@);
                    assert(trees(items@) =~= trees(copies@));
                }
                Json::Array(copies)
            },
            Json::Object(object) => {
                let mut copies = JsonObject::new();
                let mut i: usize = 0;
                let ghost entries = object.fields.entries@;
                assert(entries.take(0) =~= Seq::empty());
                while i < object.fields.entries.len()
                    invariant
                        i <= object.fields.entries.len(),
                        entries == object.fields.entries@,
                        *self == Json::Object(*object),
                        copies@ == tree_map(entries.take(i as int)),
                    decreases object.fields.entries.len() - i,
                {
                    let entry = &object.fields.entries[i];
                    assert(decreases_to!(*self => self->Object_0));
                    assert(decreases_to!(object.fields.entries => entries[i as int]));
                    copies.insert(entry.0.as_str(), entry.1.copy());
                    assert(entries.take(i + 1).drop_last() =~= entries.take(i as int));
                    i = i + 1;
                }
                assert(entries.take(i as int) =~= entries);
                Json::Object(copies)
            },
        }
    }
}

impl Clone for Json {
    fn clone(&self) -> (r: Self)
        ensures
            r@ == self@,
    {
        self.copy()
    }
}

impl Clone for JsonObject {
    fn clone(&self) -> (r: Self)
        ensures
            r@ == self@,
    {
        let mut copies = JsonObject::new();
        let mut i: usize = 0;
        let ghost entries = self.fields.entries@;
        assert(entries.take(0) =~= Seq::empty());
        while i < self.fields.entries.len()
            invariant
                i <= self.fields.entries.len(),
                entries == self.fields.entries@,
                copies@ == tree_map(entries.take(i as int)),
            decreases self.fields.entries.len() - i,
        {
            let entry = &self.fields.entries[i];
            copies.insert(entry.0.as_str(), entry.1.copy());
            assert(entries.take(i + 1).drop_last() =~= entries.take(i as int));
            i = i + 1;
        }
        assert(entries.take(i as int) =~= entries);
        copies
    }
}

} // verus!
