//! JSON documents: the value type that packets and messages carry, its
//! accessors, and the way to and from bytes through `serde_json`.
use crate::text;
use bytes::Buf;
use serde_json::Value;
use vstd::prelude::*;

verus! {

/// A finite double-precision number, held by its bit pattern.
#[derive(Debug, Clone, Copy, PartialEq, Eq)]
pub struct Float {
    bits: u64,
}

/// Whether `bits` are the pattern of a finite number: the exponent field is
/// not all ones.
pub open spec fn finite(bits: u64) -> bool {
    (bits / 0x10_0000_0000_0000) % 0x800 != 0x7ff
}

impl Float {
    #[verifier::type_invariant]
    spec fn is_finite(self) -> bool {
        finite(self.bits)
    }

    /// The bit pattern.
    pub closed spec fn pattern(self) -> u64 {
        self.bits
    }

    /// The number with the bit pattern `bits`, if that is finite.
    pub fn from_bits(bits: u64) -> (r: Option<Float>)
        ensures
            match r {
                Some(f) => finite(bits) && f.pattern() == bits,
                None => !finite(bits),
            },
    {
        if (bits / 0x10_0000_0000_0000) % 0x800 != 0x7ff {
            Some(Float { bits })
        } else {
            None
        }
    }

    /// The bit pattern, which is that of a finite number.
    pub fn bits(self) -> (r: u64)
        ensures
            r == self.pattern(),
            finite(r),
    {
        proof {
            use_type_invariant(self);
        }
        self.bits
    }
}

/// A JSON document. Where an object lists a key more than once, the last
/// entry counts.
#[derive(Debug, PartialEq, Eq)]
pub enum Json {
    /// `null`
    Null,
    /// `true` or `false`
    Bool(bool),
    /// A number without fraction that is not negative.
    Uint(u64),
    /// A number without fraction.
    Int(i64),
    /// Any other number.
    Float(Float),
    /// A string.
    Str(String),
    /// A list.
    Array(Vec<Json>),
    /// An object.
    Object(Vec<(String, Json)>),
}

/// What a JSON document says.
pub enum JsonView {
    /// `null`
    Null,
    /// `true` or `false`
    Bool(bool),
    /// A number without fraction.
    Int(int),
    /// Any other number, by its bit pattern.
    Float(u64),
    /// A string.
    Str(Seq<char>),
    /// A list.
    Array(Seq<JsonView>),
    /// An object.
    Object(Map<Seq<char>, JsonView>),
}

/// What `j` says.
pub open spec fn json_view(j: Json) -> JsonView
    decreases j, 0nat,
{
    match j {
        Json::Null => JsonView::Null,
        Json::Bool(b) => JsonView::Bool(b),
        Json::Uint(n) => JsonView::Int(n as int),
        Json::Int(n) => JsonView::Int(n as int),
        Json::Float(f) => JsonView::Float(f.pattern()),
        Json::Str(s) => JsonView::Str(s@),
        Json::Array(v) => JsonView::Array(list_view(v@)),
        Json::Object(v) => JsonView::Object(entries_view(v@)),
    }
}

/// What the items of a list say.
pub open spec fn list_view(s: Seq<Json>) -> Seq<JsonView>
    decreases s, s.len(),
{
    if s.len() == 0 {
        Seq::empty()
    } else {
        list_view(s.drop_last()).push(json_view(s.last()))
    }
}

/// What the entries of an object say; a later entry replaces an earlier one
/// of the same key.
pub open spec fn entries_view(s: Seq<(String, Json)>) -> Map<Seq<char>, JsonView>
    decreases s, s.len(),
{
    if s.len() == 0 {
        Map::empty()
    } else {
        entries_view(s.drop_last()).insert(s.last().0@, json_view(s.last().1))
    }
}

impl View for Json {
    type V = JsonView;

    open spec fn view(&self) -> JsonView {
        json_view(*self)
    }
}

/// The items of a list, one by one.
pub proof fn lemma_list_view(s: Seq<Json>)
    ensures
        list_view(s).len() == s.len(),
        forall|i: int| 0 <= i < s.len() ==> #[trigger] list_view(s)[i] == s[i]@,
    decreases s.len(),
{
    if s.len() > 0 {
        lemma_list_view(s.drop_last());
        assert forall|i: int| 0 <= i < s.len() implies #[trigger] list_view(s)[i] == s[i]@ by {
            if i < s.len() - 1 {
                assert(list_view(s)[i] == list_view(s.drop_last())[i]);
                assert(s.drop_last()[i] == s[i]);
            }
        }
    }
}

/// Every listed key is a key of the object.
pub proof fn lemma_entries_keys(s: Seq<(String, Json)>, i: int)
    requires
        0 <= i < s.len(),
    ensures
        entries_view(s).contains_key(s[i].0@),
    decreases s.len(),
{
    if i < s.len() - 1 {
        lemma_entries_keys(s.drop_last(), i);
        assert(s.drop_last()[i] == s[i]);
    }
}

/// An object that lists one key only has no other.
pub proof fn lemma_entries_one_key(s: Seq<(String, Json)>, k: Seq<char>)
    requires
        forall|i: int| 0 <= i < s.len() ==> (#[trigger] s[i]).0@ == k,
    ensures
        forall|q: Seq<char>| #[trigger] entries_view(s).contains_key(q) ==> q == k,
    decreases s.len(),
{
    if s.len() > 0 {
        assert forall|i: int| 0 <= i < s.drop_last().len() implies (#[trigger] s.drop_last()[i]).0@
            == k by {
            assert(s.drop_last()[i] == s[i]);
        }
        lemma_entries_one_key(s.drop_last(), k);
        assert(s.last() == s[s.len() - 1]);
        assert forall|q: Seq<char>| #[trigger] entries_view(s).contains_key(q) implies q == k by {
            if q != k {
                assert(entries_view(s.drop_last()).contains_key(q));
            }
        }
    }
}

/// The last entry of a key is the one that counts.
proof fn lemma_entries_at(s: Seq<(String, Json)>, k: Seq<char>, i: int)
    requires
        -1 <= i < s.len(),
        i >= 0 ==> s[i].0@ == k,
        forall|j: int| i < j < s.len() ==> (#[trigger] s[j]).0@ != k,
    ensures
        entries_view(s).contains_key(k) == (i >= 0),
        i >= 0 ==> entries_view(s)[k] == s[i].1@,
    decreases s.len(),
{
    if s.len() > 0 && i < s.len() - 1 {
        assert(s.last() == s[s.len() - 1]);
        assert forall|j: int| i < j < s.drop_last().len() implies (#[trigger] s.drop_last()[j]).0@
            != k by {
            assert(s.drop_last()[j] == s[j]);
        }
        lemma_entries_at(s.drop_last(), k, i);
    }
}

/// What `j` holds under `key`, if it is an object with that key.
pub open spec fn member(j: JsonView, key: Seq<char>) -> Option<JsonView> {
    match j {
        JsonView::Object(m) if m.contains_key(key) => Some(m[key]),
        _ => None,
    }
}

/// The string that `j` holds under `key`, if it holds one there.
pub open spec fn text_at(j: JsonView, key: Seq<char>) -> Option<Seq<char>> {
    match member(j, key) {
        Some(JsonView::Str(s)) => Some(s),
        _ => None,
    }
}

/// The truth value that `j` holds under `key`, if it holds one there.
pub open spec fn flag_at(j: JsonView, key: Seq<char>) -> Option<bool> {
    match member(j, key) {
        Some(JsonView::Bool(b)) => Some(b),
        _ => None,
    }
}

/// The number that `j` stands for, if it is an integer that an unsigned
/// 64-bit number holds.
pub open spec fn as_uint(j: JsonView) -> Option<u64> {
    match j {
        JsonView::Int(n) if 0 <= n <= u64::MAX => Some(n as u64),
        _ => None,
    }
}

/// The number that `j` stands for, if it is an integer that a signed 64-bit
/// number holds.
pub open spec fn as_int(j: JsonView) -> Option<i64> {
    match j {
        JsonView::Int(n) if i64::MIN <= n <= i64::MAX => Some(n as i64),
        _ => None,
    }
}

/// The unsigned number that `j` holds under `key`, if it holds one there.
pub open spec fn count_at(j: JsonView, key: Seq<char>) -> Option<u64> {
    match member(j, key) {
        Some(v) => as_uint(v),
        None => None,
    }
}

/// The list that `j` holds under `key`, if it holds one there.
pub open spec fn list_at(j: JsonView, key: Seq<char>) -> Option<Seq<JsonView>> {
    match member(j, key) {
        Some(JsonView::Array(s)) => Some(s),
        _ => None,
    }
}

impl Json {
    /// A string.
    pub fn text(s: &str) -> (r: Json)
        ensures
            r@ == JsonView::Str(s@),
    {
        Json::Str(s.to_owned())
    }

    /// A list of strings.
    pub fn texts(items: &Vec<String>) -> (r: Json)
        ensures
            r@ == JsonView::Array(text::texts(items@).map_values(|s: Seq<char>| JsonView::Str(s))),
    {
        let mut out: Vec<Json> = Vec::new();
        let mut i: usize = 0;
        while i < items.len()
            invariant
                i <= items@.len(),
                out@.len() == i,
                forall|j: int| 0 <= j < i ==> (#[trigger] out@[j])@ == JsonView::Str(items@[j]@),
            decreases items@.len() - i,
        {
            out.push(Json::text(items[i].as_str()));
            i += 1;
        }
        proof {
            lemma_list_view(out@);
            assert(list_view(out@) =~= text::texts(items@).map_values(
                |s: Seq<char>| JsonView::Str(s),
            ));
        }
        Json::Array(out)
    }

    /// The string, if the document is one.
    pub fn as_str(&self) -> (r: Option<&str>)
        ensures
            match r {
                Some(s) => self@ == JsonView::Str(s@),
                None => !(self@ is Str),
            },
    {
        match self {
            Json::Str(s) => Some(s.as_str()),
            _ => None,
        }
    }

    /// The truth value, if the document is one.
    pub fn as_bool(&self) -> (r: Option<bool>)
        ensures
            match r {
                Some(b) => self@ == JsonView::Bool(b),
                None => !(self@ is Bool),
            },
    {
        match self {
            Json::Bool(b) => Some(*b),
            _ => None,
        }
    }

    /// The number, if the document is an integer that fits.
    pub fn as_u64(&self) -> (r: Option<u64>)
        ensures
            r == as_uint(self@),
    {
        match self {
            Json::Uint(n) => Some(*n),
            Json::Int(n) => if *n >= 0 {
                Some(*n as u64)
            } else {
                None
            },
            _ => None,
        }
    }

    /// The number, if the document is an integer that fits.
    pub fn as_i64(&self) -> (r: Option<i64>)
        ensures
            r == as_int(self@),
    {
        match self {
            Json::Uint(n) => if *n <= 0x7fff_ffff_ffff_ffff {
                Some(*n as i64)
            } else {
                None
            },
            Json::Int(n) => Some(*n),
            _ => None,
        }
    }

    /// The items, if the document is a list.
    pub fn as_array(&self) -> (r: Option<&Vec<Json>>)
        ensures
            match r {
                Some(v) => self@ == JsonView::Array(list_view(v@)),
                None => !(self@ is Array),
            },
    {
        match self {
            Json::Array(v) => Some(v),
            _ => None,
        }
    }

    /// What the document holds under `key`, if it is an object with that key.
    pub fn get(&self, key: &str) -> (r: Option<&Json>)
        ensures
            match r {
                Some(v) => member(self@, key@) == Some(v@),
                None => member(self@, key@) is None,
            },
    {
        match self {
            Json::Object(entries) => lookup(entries, key),
            _ => None,
        }
    }

    /// The string under `key`.
    pub fn str_member(&self, key: &str) -> (r: Option<&str>)
        ensures
            match r {
                Some(s) => text_at(self@, key@) == Some(s@),
                None => text_at(self@, key@) is None,
            },
    {
        match self.get(key) {
            Some(v) => v.as_str(),
            None => None,
        }
    }

    /// The truth value under `key`.
    pub fn bool_member(&self, key: &str) -> (r: Option<bool>)
        ensures
            r == flag_at(self@, key@),
    {
        match self.get(key) {
            Some(v) => v.as_bool(),
            None => None,
        }
    }

    /// The unsigned number under `key`.
    pub fn u64_member(&self, key: &str) -> (r: Option<u64>)
        ensures
            r == count_at(self@, key@),
    {
        match self.get(key) {
            Some(v) => v.as_u64(),
            None => None,
        }
    }

    /// The list under `key`.
    pub fn array_member(&self, key: &str) -> (r: Option<&Vec<Json>>)
        ensures
            match r {
                Some(v) => list_at(self@, key@) == Some(list_view(v@)),
                None => list_at(self@, key@) is None,
            },
    {
        match self.get(key) {
            Some(v) => v.as_array(),
            None => None,
        }
    }
}

/// What `entries` hold under `key`.
pub fn lookup<'a>(entries: &'a Vec<(String, Json)>, key: &str) -> (r: Option<&'a Json>)
    ensures
        match r {
            Some(v) => entries_view(entries@).contains_key(key@) && entries_view(entries@)[key@]
                == v@,
            None => !entries_view(entries@).contains_key(key@),
        },
{
    let mut i: usize = entries.len();
    while i > 0
        invariant
            i <= entries@.len(),
            forall|j: int| i <= j < entries@.len() ==> (#[trigger] entries@[j]).0@ != key@,
        decreases i,
    {
        i -= 1;
        if text::same(entries[i].0.as_str(), key) {
            proof {
                lemma_entries_at(entries@, key@, i as int);
            }
            return Some(&entries[i].1);
        }
    }
    proof {
        lemma_entries_at(entries@, key@, -1);
    }
    None
}

impl Clone for Json {
    fn clone(&self) -> (r: Json)
        ensures
            r@ == self@,
        decreases self,
    {
        match self {
            Json::Null => Json::Null,
            Json::Bool(b) => Json::Bool(*b),
            Json::Uint(n) => Json::Uint(*n),
            Json::Int(n) => Json::Int(*n),
            Json::Float(f) => Json::Float(*f),
            Json::Str(s) => Json::Str(s.clone()),
            Json::Array(items) => {
                let mut out: Vec<Json> = Vec::new();
                let mut i: usize = 0;
                while i < items.len()
                    invariant
                        i <= items@.len(),
                        *self == Json::Array(*items),
                        out@.len() == i,
                        list_view(out@) == list_view(items@.take(i as int)),
                    decreases items@.len() - i,
                {
                    assert(decreases_to!(*self => self->Array_0));
                    assert(decreases_to!(self->Array_0 => items@));
                    assert(decreases_to!(items@ => items@[i as int]));
                    let item = items[i].clone();
                    proof {
                        assert(items@.take(i + 1).drop_last() =~= items@.take(i as int));
                        assert(out@.push(item).drop_last() =~= out@);
                    }
                    out.push(item);
                    i += 1;
                }
                assert(items@.take(i as int) =~= items@);
                Json::Array(out)
            },
            Json::Object(entries) => {
                let mut out: Vec<(String, Json)> = Vec::new();
                let mut i: usize = 0;
                while i < entries.len()
                    invariant
                        i <= entries@.len(),
                        *self == Json::Object(*entries),
                        out@.len() == i,
                        entries_view(out@) == entries_view(entries@.take(i as int)),
                    decreases entries@.len() - i,
                {
                    let e = &entries[i];
                    assert(decreases_to!(*self => self->Object_0));
                    assert(decreases_to!(self->Object_0 => entries@));
                    assert(decreases_to!(entries@ => entries@[i as int]));
                    assert(decreases_to!(entries@[i as int] => entries@[i as int].1));
                    let entry = (e.0.clone(), e.1.clone());
                    proof {
                        assert(entries@.take(i + 1).drop_last() =~= entries@.take(i as int));
                        assert(out@.push(entry).drop_last() =~= out@);
                    }
                    out.push(entry);
                    i += 1;
                }
                assert(entries@.take(i as int) =~= entries@);
                Json::Object(out)
            },
        }
    }
}

/// A copy of an object's entries.
pub fn clone_entries(entries: &Vec<(String, Json)>) -> (r: Vec<(String, Json)>)
    ensures
        entries_view(r@) == entries_view(entries@),
{
    let mut out: Vec<(String, Json)> = Vec::new();
    let mut i: usize = 0;
    while i < entries.len()
        invariant
            i <= entries@.len(),
            out@.len() == i,
            entries_view(out@) == entries_view(entries@.take(i as int)),
        decreases entries@.len() - i,
    {
        let e = &entries[i];
        let entry = (e.0.clone(), e.1.clone());
        proof {
            assert(entries@.take(i + 1).drop_last() =~= entries@.take(i as int));
            assert(out@.push(entry).drop_last() =~= out@);
        }
        out.push(entry);
        i += 1;
    }
    assert(entries@.take(i as int) =~= entries@);
    out
}

/// An object under construction.
pub struct Record {
    entries: Vec<(String, Json)>,
}

impl View for Record {
    type V = Map<Seq<char>, JsonView>;

    closed spec fn view(&self) -> Map<Seq<char>, JsonView> {
        entries_view(self.entries@)
    }
}

impl Record {
    /// The object without members.
    pub fn new() -> (r: Record)
        ensures
            r@ == Map::<Seq<char>, JsonView>::empty(),
    {
        Record { entries: Vec::new() }
    }

    /// The object with `value` under `key`.
    pub fn with(self, key: &str, value: Json) -> (r: Record)
        ensures
            r@ == self@.insert(key@, value@),
    {
        let mut entries = self.entries;
        let ghost before = entries@;
        entries.push((key.to_owned(), value));
        assert(entries@.drop_last() =~= before);
        Record { entries }
    }

    /// The finished document.
    pub fn done(self) -> (r: Json)
        ensures
            r@ == JsonView::Object(self@),
    {
        Json::Object(self.entries)
    }

    /// The finished entries.
    pub fn into_entries(self) -> (r: Vec<(String, Json)>)
        ensures
            entries_view(r@) == self@,
    {
        self.entries
    }
}

/// `serde_json`'s own document type, carried between its functions.
#[verifier::external_type_specification]
#[verifier::external_body]
pub struct ExValue(serde_json::Value);

/// What a `serde_json::Value` holds.
pub uninterp spec fn value_view(value: serde_json::Value) -> JsonView;

/// What `serde_json::from_slice` makes of `bytes`: a document, or the text of
/// its error. Of a member that an object gives more than once, the document
/// holds the value given last; that it was repeated is not to be seen in the
/// document, and no contract speaks of it.
pub uninterp spec fn parsed(bytes: Seq<u8>) -> Result<JsonView, Seq<char>>;

/// The bytes that `serde_json::to_vec` gives for a document.
pub uninterp spec fn rendered(json: JsonView) -> Seq<u8>;

/// Whether `json` nests lists and objects at most `levels` deep and holds no
/// number with a fraction or an exponent.
pub open spec fn fits(json: JsonView, levels: nat) -> bool
    decreases levels,
{
    match json {
        JsonView::Float(_) => false,
        JsonView::Array(s) => levels > 0 && forall|i: int|
            0 <= i < s.len() ==> #[trigger] fits(s[i], (levels - 1) as nat),
        JsonView::Object(m) => levels > 0 && forall|k: Seq<char>|
            m.contains_key(k) ==> #[trigger] fits(m[k], (levels - 1) as nat),
        _ => true,
    }
}

/// The deepest nesting that `serde_json` reads.
pub open spec fn max_levels() -> nat {
    127
}

/// Turns a document of this crate into a `serde_json::Value`, item by item;
/// the result holds what the document says.
#[verifier::external_body]
fn to_value(json: &Json) -> (value: Value)
    ensures
        value_view(value) == json@,
{
    match json {
        Json::Null => Value::Null,
        Json::Bool(b) => Value::Bool(*b),
        Json::Uint(n) => Value::from(*n),
        Json::Int(n) => Value::from(*n),
        Json::Float(f) => Value::from((&f.bits.to_be_bytes()[..]).get_f64()),
        Json::Str(s) => Value::from(s.as_str()),
        Json::Array(items) => Value::Array(items.iter().map(to_value).collect()),
        Json::Object(entries) => {
            entries.iter().map(|(key, item)| (key.clone(), to_value(item))).collect()
        },
    }
}

/// Turns a `serde_json::Value` into a document of this crate, item by item;
/// the document says what the value holds.
#[verifier::external_body]
fn from_value(value: Value) -> (json: Json)
    ensures
        json@ == value_view(value),
{
    match value {
        Value::Null => Json::Null,
        Value::Bool(b) => Json::Bool(b),
        Value::Number(n) => match (n.as_u64(), n.as_i64()) {
            (Some(u), _) => Json::Uint(u),
            (None, Some(i)) => Json::Int(i),
            _ => Json::Float(Float { bits: n.as_f64().unwrap_or_default().to_bits() }),
        },
        Value::String(s) => Json::Str(s),
        Value::Array(items) => Json::Array(items.into_iter().map(from_value).collect()),
        Value::Object(map) => {
            Json::Object(map.into_iter().map(|(key, item)| (key, from_value(item))).collect())
        },
    }
}

/// Calls `serde_json::from_slice` for a document; its outcome, document or
/// error text, is named [`parsed`].
#[verifier::external_body]
fn parse_value(bytes: &[u8]) -> (r: Result<serde_json::Value, String>)
    ensures
        match r {
            Ok(value) => parsed(bytes@) == Ok::<JsonView, Seq<char>>(value_view(value)),
            Err(message) => parsed(bytes@) == Err::<JsonView, Seq<char>>(message@),
        },
{
    serde_json::from_slice::<serde_json::Value>(bytes).map_err(|err| err.to_string())
}

/// Calls `serde_json::to_vec` on a document, which does not fail there; the
/// bytes are named [`rendered`]. They are compact: no line feed occurs in
/// them, since line feeds inside strings are escaped. An object begins with
/// `{`. Reading them gives the document back, as far as `serde_json` reads:
/// it refuses deeper nesting than [`max_levels`], and may round a number that
/// has a fraction.
#[verifier::external_body]
fn render_value(value: &serde_json::Value) -> (r: Result<Vec<u8>, String>)
    ensures
        match r {
            Ok(bytes) => {
                &&& bytes@ == rendered(value_view(*value))
                &&& forall|i: int| 0 <= i < bytes@.len() ==> bytes@[i] != 10
                &&& value_view(*value) is Object ==> bytes@.len() > 0 && bytes@[0] == 123
                &&& fits(value_view(*value), max_levels()) ==> parsed(bytes@) == Ok::<
                    JsonView,
                    Seq<char>,
                >(value_view(*value))
            },
            Err(_) => false,
        },
{
    serde_json::to_vec(value).map_err(|err| err.to_string())
}

impl Json {
    /// Reads a document from its bytes; the error is the reader's own text. A
    /// member that is given more than once has the value given last.
    pub fn parse(bytes: &[u8]) -> (r: Result<Json, String>)
        ensures
            match r {
                Ok(json) => parsed(bytes@) == Ok::<JsonView, Seq<char>>(json@),
                Err(message) => parsed(bytes@) == Err::<JsonView, Seq<char>>(message@),
            },
    {
        match parse_value(bytes) {
            Ok(value) => Ok(from_value(value)),
            Err(message) => Err(message),
        }
    }

    /// The compact bytes of the document: free of line feeds, and read back
    /// as the same document.
    pub fn render(&self) -> (r: Vec<u8>)
        ensures
            r@ == rendered(self@),
            forall|i: int| 0 <= i < r@.len() ==> r@[i] != 10,
            self@ is Object ==> r@.len() > 0 && r@[0] == 123,
            fits(self@, max_levels()) ==> parsed(r@) == Ok::<JsonView, Seq<char>>(self@),
    {
        let value = to_value(self);
        match render_value(&value) {
            Ok(bytes) => bytes,
            Err(_) => Vec::new(),
        }
    }
}

/// A member is read exactly where an object holds something under the key,
/// and as what it is: a string as that string, a truth value as that value, a
/// number as that number, a list as its items.
pub proof fn law_members_are_read_as_they_are(m: Map<Seq<char>, JsonView>, key: Seq<char>, j: JsonView)
    ensures
        m.contains_key(key) ==> member(JsonView::Object(m), key) == Some(m[key]),
        !m.contains_key(key) ==> member(JsonView::Object(m), key) is None,
        !(j is Object) ==> member(j, key) is None,
        forall|s: Seq<char>|
            (text_at(JsonView::Object(m), key) == Some(s)) == (m.contains_key(key) && m[key]
                == JsonView::Str(s)),
        forall|b: bool|
            (flag_at(JsonView::Object(m), key) == Some(b)) == (m.contains_key(key) && m[key]
                == JsonView::Bool(b)),
        forall|n: u64|
            (count_at(JsonView::Object(m), key) == Some(n)) == (m.contains_key(key) && m[key]
                == JsonView::Int(n as int)),
        forall|l: Seq<JsonView>|
            (list_at(JsonView::Object(m), key) == Some(l)) == (m.contains_key(key) && m[key]
                == JsonView::Array(l)),
        forall|n: i64| (as_int(j) == Some(n)) == (j == JsonView::Int(n as int)),
        forall|n: u64| (as_uint(j) == Some(n)) == (j == JsonView::Int(n as int)),
{
}

} // verus!
