//! JSON documents as plain values, and their text form.

use vstd::prelude::*;

use crate::named::{self, Named};

verus! {

/// A number of the `serde_json` crate.
#[verifier::external_type_specification]
#[verifier::external_body]
pub struct ExNumber(serde_json::Number);

/// A document of the `serde_json` crate, in which text is parsed and written.
#[verifier::external_type_specification]
#[verifier::external_body]
pub struct ExValue(serde_json::Value);

/// What a JSON number is: an integer from zero up, an integer below zero, or
/// any other number, given by its text.
pub enum NumberView {
    Unsigned(u64),
    Negative(i64),
    Real(Seq<char>),
}

/// What a JSON document is. An object is a map: it has no order, and a name
/// occurs in it once.
pub enum JsonView {
    Null,
    Bool(bool),
    Number(NumberView),
    Text(Seq<char>),
    Array(Seq<JsonView>),
    Object(Map<Seq<char>, JsonView>),
}

/// A JSON document. Where a name occurs more than once in an object, the last
/// occurrence counts.
#[derive(Debug)]
pub enum Json {
    Null,
    Bool(bool),
    Number(serde_json::Number),
    Text(String),
    Array(Vec<Json>),
    Object(Vec<(String, Json)>),
}

/// What a number of `serde_json` is.
pub uninterp spec fn number_view(n: serde_json::Number) -> NumberView;

/// What a document of `serde_json` holds.
pub uninterp spec fn value_view(v: serde_json::Value) -> JsonView;

/// The document that a text is read as, or the message of the refusal.
pub uninterp spec fn json_parse(text: Seq<char>) -> Result<JsonView, Seq<char>>;

/// The compact text of a document.
pub uninterp spec fn json_text(v: JsonView) -> Seq<char>;

/// What a document holds.
pub open spec fn json_view(j: Json) -> JsonView
    decreases j,
{
    match j {
        Json::Null => JsonView::Null,
        Json::Bool(b) => JsonView::Bool(b),
        Json::Number(n) => JsonView::Number(number_view(n)),
        Json::Text(s) => JsonView::Text(s@),
        Json::Array(items) => JsonView::Array(items_view(items@)),
        Json::Object(fields) => JsonView::Object(fields_view(fields@)),
    }
}

/// What the items of an array hold.
pub open spec fn items_view(items: Seq<Json>) -> Seq<JsonView>
    decreases items,
{
    Seq::new(
        items.len(),
        |i: int|
            if 0 <= i < items.len() {
                json_view(items[i])
            } else {
                JsonView::Null
            },
    )
}

/// The map that the fields of an object make.
pub open spec fn fields_view(fields: Seq<(String, Json)>) -> Map<Seq<char>, JsonView>
    decreases fields,
{
    if fields.len() == 0 {
        Map::empty()
    } else {
        fields_view(fields.drop_last()).insert(fields.last().0@, json_view(fields.last().1))
    }
}

impl View for Json {
    type V = JsonView;

    open spec fn view(&self) -> JsonView {
        json_view(*self)
    }
}

impl DeepView for Json {
    type V = JsonView;

    open spec fn deep_view(&self) -> JsonView {
        json_view(*self)
    }
}

impl JsonView {
    /// The field `key` of an object.
    pub open spec fn get(self, key: Seq<char>) -> Option<JsonView> {
        match self {
            JsonView::Object(m) => if m.dom().contains(key) {
                Some(m[key])
            } else {
                None
            },
            _ => None,
        }
    }

    /// The text of a text.
    pub open spec fn as_text(self) -> Option<Seq<char>> {
        match self {
            JsonView::Text(s) => Some(s),
            _ => None,
        }
    }

    /// The value of a boolean.
    pub open spec fn as_bool(self) -> Option<bool> {
        match self {
            JsonView::Bool(b) => Some(b),
            _ => None,
        }
    }

    /// The value of an integer from zero up.
    pub open spec fn as_u64(self) -> Option<u64> {
        match self {
            JsonView::Number(NumberView::Unsigned(u)) => Some(u),
            _ => None,
        }
    }

    /// The items of an array.
    pub open spec fn as_array(self) -> Option<Seq<JsonView>> {
        match self {
            JsonView::Array(items) => Some(items),
            _ => None,
        }
    }

    /// The field `key`, where it is a text.
    pub open spec fn text_at(self, key: Seq<char>) -> Option<Seq<char>> {
        match self.get(key) {
            Some(v) => v.as_text(),
            None => None,
        }
    }

    /// The field `key`, where it is a boolean.
    pub open spec fn bool_at(self, key: Seq<char>) -> Option<bool> {
        match self.get(key) {
            Some(v) => v.as_bool(),
            None => None,
        }
    }

    /// The field `key`, where it is an integer from zero up.
    pub open spec fn u64_at(self, key: Seq<char>) -> Option<u64> {
        match self.get(key) {
            Some(v) => v.as_u64(),
            None => None,
        }
    }

    /// The items of the field `key`, where it is an array.
    pub open spec fn array_at(self, key: Seq<char>) -> Option<Seq<JsonView>> {
        match self.get(key) {
            Some(v) => v.as_array(),
            None => None,
        }
    }
}

/// The integer `n` as a document.
pub open spec fn uint_view(n: u64) -> JsonView {
    JsonView::Number(NumberView::Unsigned(n))
}

/// A text, or null.
pub open spec fn opt_text_view(s: Option<Seq<char>>) -> JsonView {
    match s {
        Some(s) => JsonView::Text(s),
        None => JsonView::Null,
    }
}

/// The texts as an array.
pub open spec fn texts_view(s: Seq<Seq<char>>) -> JsonView {
    JsonView::Array(Seq::new(s.len(), |i: int| JsonView::Text(s[i])))
}

/// A field whose name is not `key` does not change what stands under `key`.
proof fn other_field(fields: Seq<(String, Json)>, key: Seq<char>)
    requires
        fields.len() > 0,
        fields.last().0@ != key,
    ensures
        JsonView::Object(fields_view(fields)).get(key) == JsonView::Object(
            fields_view(fields.drop_last()),
        ).get(key),
{
}

/// `serde_json::Number::as_u64`: an integer from zero up gives its value,
/// every other number gives nothing.
pub assume_specification[ serde_json::Number::as_u64 ](n: &serde_json::Number) -> (r: Option<u64>)
    ensures
        r == (match number_view(*n) {
            NumberView::Unsigned(u) => Some(u),
            _ => None,
        }),
;

/// `serde_json::Number::from` on an unsigned integer: the number is that integer.
#[verifier::external_body]
fn number_from(n: u64) -> (r: serde_json::Number)
    ensures
        number_view(r) == NumberView::Unsigned(n),
{
    serde_json::Number::from(n)
}

/// `serde_json::Number::clone`: the copy is the same number.
#[verifier::external_body]
fn number_copy(n: &serde_json::Number) -> (r: serde_json::Number)
    ensures
        number_view(r) == number_view(*n),
{
    n.clone()
}

impl Json {
    /// The document that holds the integer `n`.
    pub fn uint(n: u64) -> (r: Json)
        ensures
            r@ == uint_view(n),
    {
        Json::Number(number_from(n))
    }

    /// The document that holds the text `s`.
    pub fn text(s: &str) -> (r: Json)
        ensures
            r@ == JsonView::Text(s@),
    {
        Json::Text(s.to_owned())
    }

    /// The document that holds the text `s`, or null.
    pub fn opt_text(s: Option<&str>) -> (r: Json)
        ensures
            r@ == opt_text_view(s.deep_view()),
    {
        match s {
            Some(s) => Json::text(s),
            None => Json::Null,
        }
    }

    /// The array of the given texts.
    pub fn texts(items: &Vec<String>) -> (r: Json)
        ensures
            r@ == texts_view(items.deep_view()),
    {
        let mut out: Vec<Json> = Vec::new();
        let mut i: usize = 0;
        while i < items.len()
            invariant
                0 <= i <= items@.len(),
                out@.len() == i,
                forall|k: int| 0 <= k < i ==> json_view(#[trigger] out@[k]) == JsonView::Text(items@[k]@),
            decreases items@.len() - i,
        {
            out.push(Json::text(items[i].as_str()));
            i = i + 1;
        }
        assert(items_view(out@) =~= Seq::new(
            items.deep_view().len(),
            |i: int| JsonView::Text(items.deep_view()[i]),
        ));
        Json::Array(out)
    }

    /// The field `key` of an object.
    pub fn get(&self, key: &str) -> (r: Option<&Json>)
        ensures
            r.deep_view() == self@.get(key@),
    {
        match self {
            Json::Object(fields) => {
                let mut i: usize = fields.len();
                assert(fields@.take(i as int) == fields@);
                while i > 0
                    invariant
                        *self == Json::Object(*fields),
                        0 <= i <= fields@.len(),
                        JsonView::Object(fields_view(fields@)).get(key@) == JsonView::Object(
                            fields_view(fields@.take(i as int)),
                        ).get(key@),
                    decreases i,
                {
                    assert(fields@.take(i as int).drop_last() == fields@.take(i - 1));
                    if crate::text::same(fields[i - 1].0.as_str(), key) {
                        return Some(&fields[i - 1].1);
                    }
                    proof {
                        other_field(fields@.take(i as int), key@);
                    }
                    i = i - 1;
                }
                None
            },
            _ => None,
        }
    }

    /// The text of a text.
    pub fn as_str(&self) -> (r: Option<&str>)
        ensures
            r.deep_view() == self@.as_text(),
    {
        match self {
            Json::Text(s) => Some(s.as_str()),
            _ => None,
        }
    }

    /// The value of a boolean.
    pub fn as_bool(&self) -> (r: Option<bool>)
        ensures
            r == self@.as_bool(),
    {
        match self {
            Json::Bool(b) => Some(*b),
            _ => None,
        }
    }

    /// The value of an integer from zero up.
    pub fn as_u64(&self) -> (r: Option<u64>)
        ensures
            r == self@.as_u64(),
    {
        match self {
            Json::Number(n) => n.as_u64(),
            _ => None,
        }
    }

    /// The items of an array.
    pub fn as_array(&self) -> (r: Option<&Vec<Json>>)
        ensures
            r.deep_view() == self@.as_array(),
    {
        match self {
            Json::Array(items) => {
                assert(items.deep_view() =~= items_view(items@));
                Some(items)
            },
            _ => None,
        }
    }

    /// The field `key`, where it is a text.
    pub fn text_at(&self, key: &str) -> (r: Option<&str>)
        ensures
            r.deep_view() == self@.text_at(key@),
    {
        match self.get(key) {
            Some(v) => v.as_str(),
            None => None,
        }
    }

    /// The field `key`, where it is a boolean.
    pub fn bool_at(&self, key: &str) -> (r: Option<bool>)
        ensures
            r == self@.bool_at(key@),
    {
        match self.get(key) {
            Some(v) => v.as_bool(),
            None => None,
        }
    }

    /// The field `key`, where it is an integer from zero up.
    pub fn u64_at(&self, key: &str) -> (r: Option<u64>)
        ensures
            r == self@.u64_at(key@),
    {
        match self.get(key) {
            Some(v) => v.as_u64(),
            None => None,
        }
    }

    /// The items of the field `key`, where it is an array.
    pub fn array_at(&self, key: &str) -> (r: Option<&Vec<Json>>)
        ensures
            r.deep_view() == self@.array_at(key@),
    {
        match self.get(key) {
            Some(v) => v.as_array(),
            None => None,
        }
    }

    /// The compact text of the document.
    pub fn to_text(&self) -> (r: String)
        ensures
            r@ == json_text(self@),
    {
        value_text(&to_value(self))
    }
}

impl Clone for Json {
    fn clone(&self) -> (r: Self)
        ensures
            r@ == self@,
        decreases self,
    {
        match self {
            Json::Null => Json::Null,
            Json::Bool(b) => Json::Bool(*b),
            Json::Number(n) => Json::Number(number_copy(n)),
            Json::Text(s) => Json::Text(s.clone()),
            Json::Array(items) => {
                let mut out: Vec<Json> = Vec::new();
                let mut i: usize = 0;
                while i < items.len()
                    invariant
                        *self == Json::Array(*items),
                        0 <= i <= items@.len(),
                        out@.len() == i,
                        forall|k: int| 0 <= k < i ==> json_view(#[trigger] out@[k]) == json_view(items@[k]),
                    decreases items@.len() - i,
                {
                    assert(decreases_to!(*self => self->Array_0));
                    assert(decreases_to!(*items => items@));
                    assert(decreases_to!(items@ => items@[i as int]));
                    out.push(items[i].clone());
                    i = i + 1;
                }
                assert(items_view(out@) =~= items_view(items@));
                Json::Array(out)
            },
            Json::Object(fields) => {
                let mut out: Vec<(String, Json)> = Vec::new();
                let mut i: usize = 0;
                while i < fields.len()
                    invariant
                        *self == Json::Object(*fields),
                        0 <= i <= fields@.len(),
                        out@.len() == i,
                        fields_view(out@) == fields_view(fields@.take(i as int)),
                    decreases fields@.len() - i,
                {
                    let ghost before = out@;
                    assert(fields@.take(i + 1).drop_last() == fields@.take(i as int));
                    let key = fields[i].0.clone();
                    assert(decreases_to!(*self => self->Object_0));
                    assert(decreases_to!(*fields => fields@));
                    assert(decreases_to!(fields@ => fields@[i as int]));
                    out.push((key, fields[i].1.clone()));
                    assert(out@.drop_last() == before);
                    i = i + 1;
                }
                assert(fields@.take(i as int) == fields@);
                Json::Object(out)
            },
        }
    }
}

/// The documents under their names.
pub open spec fn documents(m: Map<Seq<char>, Json>) -> Map<Seq<char>, JsonView> {
    m.map_values(|j: Json| json_view(j))
}

/// The map that fields make is that of the documents under their names.
proof fn fields_are_documents(fields: Seq<(String, Json)>)
    ensures
        fields_view(fields) == documents(named::by_name(fields)),
    decreases fields.len(),
{
    if fields.len() > 0 {
        fields_are_documents(fields.drop_last());
    }
    assert(fields_view(fields) =~= documents(named::by_name(fields)));
}

/// The fields of an object that is being put together; a name occurs among them
/// once.
pub struct Fields {
    list: Named<Json>,
}

impl View for Fields {
    type V = Map<Seq<char>, JsonView>;

    closed spec fn view(&self) -> Map<Seq<char>, JsonView> {
        documents(self.list@)
    }
}

impl Fields {
    /// No field yet.
    pub fn new() -> (r: Fields)
        ensures
            r@ == Map::<Seq<char>, JsonView>::empty(),
    {
        let r = Fields { list: Named::new() };
        assert(r@ =~= Map::empty());
        r
    }

    /// One field more; one of the same name is replaced.
    pub fn with(self, key: &str, value: Json) -> (r: Fields)
        ensures
            r@ == self@.insert(key@, value@),
    {
        let r = Fields { list: self.list.put(key.to_owned(), value) };
        assert(r@ =~= self@.insert(key@, value@));
        r
    }

    /// The object that has these fields.
    pub fn done(self) -> (r: Json)
        ensures
            r@ == JsonView::Object(self@),
    {
        let fields = self.list.into_entries();
        proof {
            fields_are_documents(fields@);
        }
        Json::Object(fields)
    }
}

/// The items of an array that is being put together.
pub struct Items {
    list: Vec<Json>,
}

impl View for Items {
    type V = Seq<JsonView>;

    closed spec fn view(&self) -> Seq<JsonView> {
        items_view(self.list@)
    }
}

impl Items {
    /// No item yet.
    pub fn new() -> (r: Items)
        ensures
            r@ == Seq::<JsonView>::empty(),
    {
        Items { list: Vec::new() }
    }

    /// One item more, at the end.
    pub fn with(self, item: Json) -> (r: Items)
        ensures
            r@ == self@.push(item@),
    {
        let mut list = self.list;
        let ghost before = list@;
        list.push(item);
        assert(items_view(list@) =~= items_view(before).push(item@));
        Items { list }
    }

    /// The array that has these items.
    pub fn done(self) -> (r: Json)
        ensures
            r@ == JsonView::Array(self@),
    {
        Json::Array(self.list)
    }
}

/// One level of a `serde_json` document.
enum Layer {
    Null,
    Bool(bool),
    Number(serde_json::Number),
    Text(String),
    Array(Vec<serde_json::Value>),
    Object(Vec<(String, serde_json::Value)>),
}

/// What `serde_json` documents under names hold.
spec fn held(m: Map<Seq<char>, serde_json::Value>) -> Map<Seq<char>, JsonView> {
    m.map_values(|v: serde_json::Value| value_view(v))
}

/// What the items of a `serde_json` array hold.
spec fn values_view(items: Seq<serde_json::Value>) -> Seq<JsonView> {
    Seq::new(items.len(), |i: int| value_view(items[i]))
}

/// What the level holds.
spec fn layer_view(l: Layer) -> JsonView {
    match l {
        Layer::Null => JsonView::Null,
        Layer::Bool(b) => JsonView::Bool(b),
        Layer::Number(n) => JsonView::Number(number_view(n)),
        Layer::Text(s) => JsonView::Text(s@),
        Layer::Array(items) => JsonView::Array(values_view(items@)),
        Layer::Object(fields) => JsonView::Object(held(named::by_name(fields@))),
    }
}

/// The variants of `serde_json::Value`, taken apart: the level holds what the
/// document holds, and an object gives out each of its names once.
#[verifier::external_body]
fn open_value(v: serde_json::Value) -> (r: Layer)
    ensures
        layer_view(r) == value_view(v),
        r matches Layer::Object(fields) ==> named::distinct(fields@),
{
    match v {
        serde_json::Value::Null => Layer::Null,
        serde_json::Value::Bool(b) => Layer::Bool(b),
        serde_json::Value::Number(n) => Layer::Number(n),
        serde_json::Value::String(s) => Layer::Text(s),
        serde_json::Value::Array(items) => Layer::Array(items),
        serde_json::Value::Object(fields) => Layer::Object(fields.into_iter().collect()),
    }
}

/// The variants of `serde_json::Value`, put together: the document holds what
/// the level holds, in which a name occurs once.
#[verifier::external_body]
fn close_value(l: Layer) -> (r: serde_json::Value)
    requires
        l matches Layer::Object(fields) ==> named::distinct(fields@),
    ensures
        value_view(r) == layer_view(l),
{
    match l {
        Layer::Null => serde_json::Value::Null,
        Layer::Bool(b) => serde_json::Value::Bool(b),
        Layer::Number(n) => serde_json::Value::Number(n),
        Layer::Text(s) => serde_json::Value::String(s),
        Layer::Array(items) => serde_json::Value::Array(items),
        Layer::Object(fields) => serde_json::Value::Object(fields.into_iter().collect()),
    }
}

/// `serde_json::from_str` into a `serde_json::Value`: the document that the
/// text is, or the message of the error.
#[verifier::external_body]
fn parse_value(text: &str) -> (r: Result<serde_json::Value, String>)
    ensures
        (match r {
            Ok(v) => Ok(value_view(v)),
            Err(e) => Err(e@),
        }) == json_parse(text@),
{
    serde_json::from_str(text).map_err(|e: serde_json::Error| e.to_string())
}

/// `serde_json::Value::to_string`: the compact text, which depends on what the
/// document holds alone.
#[verifier::external_body]
fn value_text(v: &serde_json::Value) -> (r: String)
    ensures
        r@ == json_text(value_view(*v)),
{
    v.to_string()
}

/// The maps of entries and fields that hold the same are the same.
proof fn fields_match(entries: Seq<(String, serde_json::Value)>, fields: Seq<(String, Json)>)
    requires
        entries.len() == fields.len(),
        forall|i: int|
            0 <= i < fields.len() ==> (#[trigger] fields[i]).0@ == entries[i].0@ && json_view(
                fields[i].1,
            ) == value_view(entries[i].1),
    ensures
        held(named::by_name(entries)) == fields_view(fields),
    decreases fields.len(),
{
    if fields.len() > 0 {
        let e = entries.drop_last();
        let f = fields.drop_last();
        assert forall|i: int| 0 <= i < f.len() implies (#[trigger] f[i]).0@ == e[i].0@ && json_view(
            f[i].1,
        ) == value_view(e[i].1) by {
            assert(f[i] == fields[i]);
        }
        fields_match(e, f);
        assert(fields.last() == fields[fields.len() - 1]);
    }
    assert(held(named::by_name(entries)) =~= fields_view(fields));
}

/// The document that a `serde_json` document holds.
pub fn from_value(v: serde_json::Value) -> (r: Json)
    ensures
        r@ == value_view(v),
    decreases value_view(v),
{
    match open_value(v) {
        Layer::Null => Json::Null,
        Layer::Bool(b) => Json::Bool(b),
        Layer::Number(n) => Json::Number(n),
        Layer::Text(s) => Json::Text(s),
        Layer::Array(items) => {
            let ghost all = items@;
            let mut out: Vec<Json> = Vec::new();
            for item in it: items
                invariant
                    it.seq() == all,
                    value_view(v) == JsonView::Array(values_view(all)),
                    it.index() == out@.len(),
                    forall|i: int| 0 <= i < out@.len() ==> json_view(#[trigger] out@[i]) == value_view(all[i]),
            {
                proof {
                    assert(value_view(v)->Array_0[out@.len() as int] == value_view(item));
                }
                out.push(from_value(item));
            }
            assert(items_view(out@) =~= values_view(all));
            Json::Array(out)
        },
        Layer::Object(fields) => {
            let ghost all = fields@;
            let mut out: Vec<(String, Json)> = Vec::new();
            for field in it: fields
                invariant
                    it.seq() == all,
                    named::distinct(all),
                    value_view(v) == JsonView::Object(held(named::by_name(all))),
                    it.index() == out@.len(),
                    forall|i: int|
                        0 <= i < out@.len() ==> (#[trigger] out@[i]).0@ == all[i].0@ && json_view(
                            out@[i].1,
                        ) == value_view(all[i].1),
            {
                let (key, value) = field;
                proof {
                    named::entry_stands(all, out@.len() as int);
                    assert(decreases_to!(value_view(v) => value_view(v)->Object_0));
                    assert(value_view(v)->Object_0[key@] == value_view(value));
                }
                out.push((key, from_value(value)));
            }
            proof {
                fields_match(all, out@);
            }
            Json::Object(out)
        },
    }
}

/// The `serde_json` document that holds the same.
pub fn to_value(j: &Json) -> (r: serde_json::Value)
    ensures
        value_view(r) == j@,
    decreases j,
{
    match j {
        Json::Null => close_value(Layer::Null),
        Json::Bool(b) => close_value(Layer::Bool(*b)),
        Json::Number(n) => close_value(Layer::Number(number_copy(n))),
        Json::Text(s) => close_value(Layer::Text(s.clone())),
        Json::Array(items) => {
            let mut out: Vec<serde_json::Value> = Vec::new();
            let mut i: usize = 0;
            while i < items.len()
                invariant
                    *j == Json::Array(*items),
                    0 <= i <= items@.len(),
                    out@.len() == i,
                    forall|k: int| 0 <= k < i ==> value_view(#[trigger] out@[k]) == json_view(items@[k]),
                decreases items@.len() - i,
            {
                assert(decreases_to!(*j => j->Array_0));
                assert(decreases_to!(*items => items@));
                assert(decreases_to!(items@ => items@[i as int]));
                out.push(to_value(&items[i]));
                i = i + 1;
            }
            assert(items_view(items@) =~= values_view(out@));
            close_value(Layer::Array(out))
        },
        Json::Object(fields) => {
            // Of the fields with one name, the last counts.
            let mut out: Named<serde_json::Value> = Named::new();
            let mut i: usize = 0;
            assert(held(out@) =~= fields_view(fields@.take(0)));
            while i < fields.len()
                invariant
                    *j == Json::Object(*fields),
                    0 <= i <= fields@.len(),
                    held(out@) == fields_view(fields@.take(i as int)),
                decreases fields@.len() - i,
            {
                let key = fields[i].0.clone();
                assert(decreases_to!(*j => j->Object_0));
                assert(decreases_to!(*fields => fields@));
                assert(decreases_to!(fields@ => fields@[i as int]));
                assert(fields@.take(i + 1).drop_last() == fields@.take(i as int));
                out = out.put(key, to_value(&fields[i].1));
                assert(held(out@) =~= fields_view(fields@.take(i + 1)));
                i = i + 1;
            }
            assert(fields@.take(i as int) == fields@);
            close_value(Layer::Object(out.into_entries()))
        },
    }
}

/// Reads a document from its text.
pub fn parse_json(text: &str) -> (r: Result<Json, String>)
    ensures
        result_view(r) == json_parse(text@),
{
    match parse_value(text) {
        Ok(v) => Ok(from_value(v)),
        Err(e) => Err(e),
    }
}

/// A result in which the message is taken by its characters.
pub open spec fn result_view<T: DeepView>(r: Result<T, String>) -> Result<T::V, Seq<char>> {
    match r {
        Ok(v) => Ok(v.deep_view()),
        Err(e) => Err(e@),
    }
}

} // verus!
