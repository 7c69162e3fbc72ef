//! Reading the fields of a structure from a JSON document.
//!
//! A structure is an object with named fields, or a list with the fields in
//! declaration order. Unknown members of an object are skipped.
use crate::json;
use crate::json::{Json, JsonView};
use crate::text;
use vstd::prelude::*;

verus! {

/// A field of a structure, as it was found.
pub enum Field {
    /// The document has no such field.
    Absent,
    /// The field's document.
    Value(JsonView),
    /// The field is given under both of its names.
    Twice,
}

/// Whether `j` can hold a structure of at most `count` fields.
pub open spec fn is_structure(j: JsonView, count: int) -> bool {
    match j {
        JsonView::Object(_) => true,
        JsonView::Array(s) => s.len() <= count,
        _ => false,
    }
}

/// The field at position `index`, called `name` or `alias`.
pub open spec fn field(j: JsonView, index: int, name: Seq<char>, alias: Seq<char>) -> Field {
    match j {
        JsonView::Object(m) => if m.contains_key(name) && m.contains_key(alias) && name != alias {
            Field::Twice
        } else if m.contains_key(name) {
            Field::Value(m[name])
        } else if m.contains_key(alias) {
            Field::Value(m[alias])
        } else {
            Field::Absent
        },
        JsonView::Array(s) => if 0 <= index < s.len() {
            Field::Value(s[index])
        } else {
            Field::Absent
        },
        _ => Field::Absent,
    }
}

/// A text that has to be there.
pub open spec fn required_text(f: Field) -> Option<Seq<char>> {
    match f {
        Field::Value(JsonView::Str(s)) => Some(s),
        _ => None,
    }
}

/// A signed number that has to be there.
pub open spec fn required_int(f: Field) -> Option<i64> {
    match f {
        Field::Value(v) => json::as_int(v),
        _ => None,
    }
}

/// A 16-bit number; an absent field counts as 0.
pub open spec fn short_or_zero(f: Field) -> Option<u16> {
    match f {
        Field::Absent => Some(0),
        Field::Value(JsonView::Int(n)) if 0 <= n <= 0xffff => Some(n as u16),
        _ => None,
    }
}

/// The strings of a list of strings.
pub open spec fn all_texts(s: Seq<JsonView>) -> Option<Seq<Seq<char>>> {
    if forall|i: int| 0 <= i < s.len() ==> #[trigger] s[i] is Str {
        Some(s.map_values(|v: JsonView| v->Str_0))
    } else {
        None
    }
}

/// A list of strings; an absent field counts as the empty list.
pub open spec fn texts_or_none(f: Field) -> Option<Seq<Seq<char>>> {
    match f {
        Field::Absent => Some(Seq::empty()),
        Field::Value(JsonView::Array(s)) => all_texts(s),
        _ => None,
    }
}

/// A field found in a document.
pub enum Found<'a> {
    /// The document has no such field.
    Absent,
    /// The field's document.
    Value(&'a Json),
    /// The field is given under both of its names.
    Twice,
}

impl<'a> View for Found<'a> {
    type V = Field;

    open spec fn view(&self) -> Field {
        match self {
            Found::Absent => Field::Absent,
            Found::Value(v) => Field::Value(v@),
            Found::Twice => Field::Twice,
        }
    }
}

/// Whether `j` can hold a structure of at most `count` fields.
pub fn holds_structure(j: &Json, count: usize) -> (r: bool)
    ensures
        r == is_structure(j@, count as int),
{
    match j {
        Json::Object(_) => true,
        Json::Array(items) => {
            proof {
                json::lemma_list_view(items@);
            }
            items.len() <= count
        },
        _ => false,
    }
}

/// Finds the field at position `index`, called `name` or `alias`.
pub fn find<'a>(j: &'a Json, index: usize, name: &str, alias: &str) -> (r: Found<'a>)
    ensures
        r@ == field(j@, index as int, name@, alias@),
{
    match j {
        Json::Object(_) => {
            let under_name = j.get(name);
            let under_alias = j.get(alias);
            match (under_name, under_alias) {
                (Some(v), Some(_)) => if text::same(name, alias) {
                    Found::Value(v)
                } else {
                    Found::Twice
                },
                (Some(v), None) => Found::Value(v),
                (None, Some(v)) => Found::Value(v),
                (None, None) => Found::Absent,
            }
        },
        Json::Array(items) => {
            proof {
                json::lemma_list_view(items@);
            }
            if index < items.len() {
                Found::Value(&items[index])
            } else {
                Found::Absent
            }
        },
        _ => Found::Absent,
    }
}

impl<'a> Found<'a> {
    /// Reads a text that has to be there.
    pub fn required_text(&self) -> (r: Option<String>)
        ensures
            match r {
                Some(s) => required_text(self@) == Some(s@),
                None => required_text(self@) is None,
            },
    {
        match self {
            Found::Value(v) => match v.as_str() {
                Some(s) => Some(s.to_owned()),
                None => None,
            },
            _ => None,
        }
    }

    /// Reads a signed number that has to be there.
    pub fn required_int(&self) -> (r: Option<i64>)
        ensures
            r == required_int(self@),
    {
        match self {
            Found::Value(v) => v.as_i64(),
            _ => None,
        }
    }

    /// Reads a 16-bit number; an absent field counts as 0.
    pub fn short_or_zero(&self) -> (r: Option<u16>)
        ensures
            r == short_or_zero(self@),
    {
        match self {
            Found::Absent => Some(0),
            Found::Value(v) => match v.as_u64() {
                Some(n) => if n <= 0xffff {
                    Some(n as u16)
                } else {
                    None
                },
                None => None,
            },
            Found::Twice => None,
        }
    }

    /// Reads a list of strings; an absent field counts as the empty list.
    pub fn texts_or_none(&self) -> (r: Option<Vec<String>>)
        ensures
            match r {
                Some(v) => texts_or_none(self@) == Some(text::texts(v@)),
                None => texts_or_none(self@) is None,
            },
    {
        match self {
            Found::Absent => {
                let r: Vec<String> = Vec::new();
                assert(text::texts(r@) =~= Seq::empty());
                Some(r)
            },
            Found::Value(v) => match v.as_array() {
                Some(items) => read_texts(items),
                None => None,
            },
            Found::Twice => None,
        }
    }
}

fn read_texts(items: &Vec<Json>) -> (r: Option<Vec<String>>)
    ensures
        match r {
            Some(v) => all_texts(json::list_view(items@)) == Some(text::texts(v@)),
            None => all_texts(json::list_view(items@)) is None,
        },
{
    let ghost list = json::list_view(items@);
    proof {
        json::lemma_list_view(items@);
    }
    let mut out: Vec<String> = Vec::new();
    let mut i: usize = 0;
    while i < items.len()
        invariant
            i <= items@.len(),
            list == json::list_view(items@),
            list.len() == items@.len(),
            forall|j: int| 0 <= j < items@.len() ==> #[trigger] list[j] == items@[j]@,
            out@.len() == i,
            forall|j: int| 0 <= j < i ==> #[trigger] list[j] == JsonView::Str(out@[j]@),
        decreases items@.len() - i,
    {
        match items[i].as_str() {
            Some(s) => {
                out.push(s.to_owned());
            },
            None => {
                assert(!(list[i as int] is Str));
                return None;
            },
        }
        i += 1;
    }
    proof {
        assert(list.map_values(|v: JsonView| v->Str_0) =~= text::texts(out@));
    }
    Some(out)
}

} // verus!
