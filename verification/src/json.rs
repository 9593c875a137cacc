//! JSON values, read and written by serde_json.

use vstd::prelude::*;

use crate::text::{opt_text, same_text, text, texts};
use crate::time::{iso_instant, to_iso_instant, Timestamp};

verus! {

/// A JSON value. A number that is no `u64` is kept as serde_json has it.
#[derive(Debug)]
pub enum JsonValue {
    Null,
    Bool(bool),
    Number(u64),
    OtherNumber(serde_json::Number),
    Text(String),
    Array(Vec<JsonValue>),
    Object(Vec<JsonField>),
}

#[derive(Debug)]
pub struct JsonField {
    pub name: String,
    pub value: JsonValue,
}

#[verifier::external_type_specification]
#[verifier::external_body]
pub struct ExSerdeJsonNumber(serde_json::Number);

#[verifier::external_type_specification]
#[verifier::external_body]
pub struct ExSerdeJsonValue(serde_json::Value);

pub enum JsonModel {
    Null,
    Bool(bool),
    Number(u64),
    OtherNumber(serde_json::Number),
    Text(Seq<char>),
    Array(Seq<JsonModel>),
    Object(Map<Seq<char>, JsonModel>),
}

/// The fields by their names; of two with one name, the later counts.
pub open spec fn fields_map(fields: Seq<(Seq<char>, JsonModel)>) -> Map<Seq<char>, JsonModel>
    decreases fields.len(),
{
    if fields.len() == 0 {
        Map::empty()
    } else {
        fields_map(fields.drop_last()).insert(fields.last().0, fields.last().1)
    }
}

/// The object with these fields.
pub open spec fn object(fields: Seq<(Seq<char>, JsonModel)>) -> JsonModel {
    JsonModel::Object(fields_map(fields))
}

/// What `serde_json::Number::as_u64` makes of a number.
pub uninterp spec fn whole_number(n: serde_json::Number) -> Option<u64>;

/// The number as a model.
pub open spec fn number_model(n: serde_json::Number) -> JsonModel {
    match whole_number(n) {
        Some(k) => JsonModel::Number(k),
        None => JsonModel::OtherNumber(n),
    }
}

impl JsonValue {
    pub open spec fn model(self) -> JsonModel
        decreases self,
    {
        match self {
            JsonValue::Null => JsonModel::Null,
            JsonValue::Bool(b) => JsonModel::Bool(b),
            JsonValue::Number(n) => JsonModel::Number(n),
            JsonValue::OtherNumber(n) => number_model(n),
            JsonValue::Text(s) => JsonModel::Text(s@),
            JsonValue::Array(items) => JsonModel::Array(
                Seq::new(
                    items@.len(),
                    |i: int|
                        if 0 <= i < items@.len() {
                            items@[i].model()
                        } else {
                            JsonModel::Null
                        },
                ),
            ),
            JsonValue::Object(fields) => object(field_models(fields@)),
        }
    }
}

/// The fields with their models.
pub open spec fn field_models(fields: Seq<JsonField>) -> Seq<(Seq<char>, JsonModel)>
    decreases fields,
{
    Seq::new(
        fields.len(),
        |i: int|
            if 0 <= i < fields.len() {
                (fields[i].name@, fields[i].value.model())
            } else {
                (Seq::empty(), JsonModel::Null)
            },
    )
}

impl View for JsonValue {
    type V = JsonModel;

    open spec fn view(&self) -> JsonModel {
        self.model()
    }
}

impl JsonModel {
    /// The value of a field, where the value is an object that has it.
    pub open spec fn get(self, name: Seq<char>) -> Option<JsonModel> {
        match self {
            JsonModel::Object(fields) => if fields.dom().contains(name) {
                Some(fields[name])
            } else {
                None
            },
            _ => None,
        }
    }

    /// The text, where the value is one.
    pub open spec fn as_text(self) -> Option<Seq<char>> {
        match self {
            JsonModel::Text(s) => Some(s),
            _ => None,
        }
    }

    /// The number, where the value is a whole number from zero up.
    pub open spec fn as_number(self) -> Option<u64> {
        match self {
            JsonModel::Number(n) => Some(n),
            _ => None,
        }
    }

    /// The text of a field, where the value is an object whose field is a text.
    pub open spec fn text_at(self, name: Seq<char>) -> Option<Seq<char>> {
        match self.get(name) {
            Some(v) => v.as_text(),
            None => None,
        }
    }
}

impl JsonValue {
    pub fn get(&self, name: &str) -> (r: Option<&JsonValue>)
        ensures
            r is Some == self@.get(name@) is Some,
            r matches Some(v) ==> self@.get(name@) == Some(v@),
    {
        match self {
            JsonValue::Object(fields) => {
                let ghost all = field_models(fields@);
                let mut n: usize = fields.len();
                assert(all.take(n as int) =~= all);
                while n > 0
                    invariant
                        n <= fields.len(),
                        all == field_models(fields@),
                        self@ == object(all),
                        object(all.take(n as int)).get(name@) == object(all).get(name@),
                    decreases n,
                {
                    let field = &fields[n - 1];
                    proof {
                        assert(all.take(n as int).last() == (field.name@, field.value@));
                        assert(all.take(n as int).drop_last() =~= all.take(n - 1));
                    }
                    if same_text(field.name.as_str(), name) {
                        return Some(&field.value);
                    }
                    n -= 1;
                }
                None
            },
            _ => None,
        }
    }

    pub fn as_text(&self) -> (r: Option<&str>)
        ensures
            r is Some == self@.as_text() is Some,
            r matches Some(s) ==> self@.as_text() == Some(s@),
    {
        match self {
            JsonValue::Text(s) => Some(s.as_str()),
            _ => None,
        }
    }

    pub fn as_number(&self) -> (r: Option<u64>)
        ensures
            r == self@.as_number(),
    {
        match self {
            JsonValue::Number(n) => Some(*n),
            JsonValue::OtherNumber(n) => as_whole_number(n),
            _ => None,
        }
    }

    /// The text of a field.
    pub fn text_at(&self, name: &str) -> (r: Option<String>)
        ensures
            opt_text(r) == self@.text_at(name@),
    {
        match self.get(name) {
            Some(v) => match v.as_text() {
                Some(s) => Some(text(s)),
                None => None,
            },
            None => None,
        }
    }
}

/// The text, or null where there is none.
pub open spec fn json_opt(o: Option<Seq<char>>) -> JsonModel {
    match o {
        Some(s) => JsonModel::Text(s),
        None => JsonModel::Null,
    }
}

/// The number, or null where there is none.
pub open spec fn json_opt_number(o: Option<u32>) -> JsonModel {
    match o {
        Some(n) => JsonModel::Number(n as u64),
        None => JsonModel::Null,
    }
}

/// The instant as serde writes it, or null where there is none.
pub open spec fn json_opt_time(o: Option<Timestamp>) -> JsonModel {
    match o {
        Some(t) => JsonModel::Text(iso_instant(t)),
        None => JsonModel::Null,
    }
}

/// The texts as an array.
pub open spec fn json_texts(v: Seq<Seq<char>>) -> JsonModel {
    JsonModel::Array(v.map_values(|s: Seq<char>| JsonModel::Text(s)))
}

/// An object's fields, before the first is put in.
pub open spec fn no_fields() -> Seq<(Seq<char>, JsonModel)> {
    Seq::empty()
}

/// The text of the object with these fields.
pub open spec fn object_text(fields: Seq<(Seq<char>, JsonModel)>) -> Seq<char> {
    json_text(object(fields))
}

/// The fields of an object that is being put together.
pub struct JsonObject {
    pub fields: Vec<JsonField>,
}

impl View for JsonObject {
    type V = Seq<(Seq<char>, JsonModel)>;

    open spec fn view(&self) -> Seq<(Seq<char>, JsonModel)> {
        field_models(self.fields@)
    }
}

impl JsonObject {
    pub fn new() -> (r: JsonObject)
        ensures
            r@ == no_fields(),
    {
        let r = JsonObject { fields: Vec::new() };
        assert(r@ =~= no_fields());
        r
    }

    pub fn value(self, name: &str, value: JsonValue) -> (r: JsonObject)
        ensures
            r@ == self@.push((name@, value@)),
    {
        let mut fields = self.fields;
        fields.push(JsonField { name: text(name), value });
        let r = JsonObject { fields };
        assert(r@ =~= self@.push((name@, value@)));
        r
    }

    pub fn text(self, name: &str, value: &str) -> (r: JsonObject)
        ensures
            r@ == self@.push((name@, JsonModel::Text(value@))),
    {
        self.value(name, JsonValue::Text(text(value)))
    }

    pub fn opt_text(self, name: &str, value: &Option<String>) -> (r: JsonObject)
        ensures
            r@ == self@.push((name@, json_opt(opt_text(*value)))),
    {
        match value {
            Some(s) => self.text(name, s.as_str()),
            None => self.value(name, JsonValue::Null),
        }
    }

    pub fn number(self, name: &str, value: u64) -> (r: JsonObject)
        ensures
            r@ == self@.push((name@, JsonModel::Number(value))),
    {
        self.value(name, JsonValue::Number(value))
    }

    pub fn opt_number(self, name: &str, value: Option<u32>) -> (r: JsonObject)
        ensures
            r@ == self@.push((name@, json_opt_number(value))),
    {
        match value {
            Some(n) => self.number(name, n as u64),
            None => self.value(name, JsonValue::Null),
        }
    }

    pub fn flag(self, name: &str, value: bool) -> (r: JsonObject)
        ensures
            r@ == self@.push((name@, JsonModel::Bool(value))),
    {
        self.value(name, JsonValue::Bool(value))
    }

    pub fn time(self, name: &str, value: Timestamp) -> (r: JsonObject)
        ensures
            r@ == self@.push((name@, JsonModel::Text(iso_instant(value)))),
    {
        self.value(name, JsonValue::Text(to_iso_instant(value)))
    }

    pub fn opt_time(self, name: &str, value: Option<Timestamp>) -> (r: JsonObject)
        ensures
            r@ == self@.push((name@, json_opt_time(value))),
    {
        match value {
            Some(t) => self.time(name, t),
            None => self.value(name, JsonValue::Null),
        }
    }

    pub fn texts(self, name: &str, value: &Vec<String>) -> (r: JsonObject)
        ensures
            r@ == self@.push((name@, json_texts(texts(value@)))),
    {
        let mut items: Vec<JsonValue> = Vec::new();
        let mut i: usize = 0;
        while i < value.len()
            invariant
                i <= value.len(),
                items.len() == i,
                forall|j: int|
                    0 <= j < i ==> (#[trigger] items@[j])@ == JsonModel::Text(value@[j]@),
            decreases value.len() - i,
        {
            items.push(JsonValue::Text(value[i].clone()));
            i += 1;
        }
        let list = JsonValue::Array(items);
        assert(list@->Array_0 =~= json_texts(texts(value@))->Array_0);
        self.value(name, list)
    }

    pub fn done(self) -> (r: JsonValue)
        ensures
            r@ == object(self@),
    {
        JsonValue::Object(self.fields)
    }

    pub fn render(self) -> (r: String)
        ensures
            r@ == object_text(self@),
    {
        render_json(&self.done())
    }
}

/// The compact text that serde_json writes for a value.
pub uninterp spec fn json_text(v: JsonModel) -> Seq<char>;

/// What `serde_json::from_str` reads from a text: a value, or the error's message.
pub uninterp spec fn read_json(s: Seq<char>) -> Result<JsonModel, Seq<char>>;

/// What reading gave: the value's model, or the message.
pub open spec fn json_outcome(r: Result<JsonValue, String>) -> Result<JsonModel, Seq<char>> {
    match r {
        Ok(v) => Ok(v@),
        Err(e) => Err(e@),
    }
}

/// What a `serde_json::Value` holds.
pub uninterp spec fn held(v: serde_json::Value) -> JsonModel;

/// A `serde_json::Value` with its outermost layer taken off.
pub enum JsonParts {
    Null,
    Bool(bool),
    Number(serde_json::Number),
    Text(String),
    Array(Vec<serde_json::Value>),
    Object(Vec<(String, serde_json::Value)>),
}

/// The names and contents of the fields.
pub open spec fn held_fields(fields: Seq<(String, serde_json::Value)>) -> Seq<
    (Seq<char>, JsonModel),
> {
    fields.map_values(|f: (String, serde_json::Value)| (f.0@, held(f.1)))
}

/// The value that the layer is the outermost one of.
pub open spec fn closed(parts: JsonParts) -> JsonModel {
    match parts {
        JsonParts::Null => JsonModel::Null,
        JsonParts::Bool(b) => JsonModel::Bool(b),
        JsonParts::Number(n) => number_model(n),
        JsonParts::Text(s) => JsonModel::Text(s@),
        JsonParts::Array(items) => JsonModel::Array(
            items@.map_values(|v: serde_json::Value| held(v)),
        ),
        JsonParts::Object(fields) => object(held_fields(fields@)),
    }
}

/// Whether no two of the fields have one name.
pub open spec fn names_apart(parts: JsonParts) -> bool {
    parts matches JsonParts::Object(fields) ==> forall|i: int, j: int|
        0 <= i < j < fields@.len() ==> (#[trigger] fields@[i]).0@ != (#[trigger] fields@[j]).0@
}

/// `serde_json::Number::from` on the number, which `as_u64` then gives back.
#[verifier::external_body]
fn to_number(n: u64) -> (r: serde_json::Number)
    ensures
        whole_number(r) == Some(n),
{
    serde_json::Number::from(n)
}

/// `serde_json::Number::as_u64`. What it gives depends on the number alone.
#[verifier::external_body]
fn as_whole_number(n: &serde_json::Number) -> (r: Option<u64>)
    ensures
        r == whole_number(*n),
{
    n.as_u64()
}

/// `serde_json::Number::clone`.
#[verifier::external_body]
fn copy_number(n: &serde_json::Number) -> (r: serde_json::Number)
    ensures
        r == *n,
{
    n.clone()
}

/// The variants of `serde_json::Value`, one for one. An object is made with
/// `serde_json::Map::from_iter`, which keeps every field where the names are all
/// different.
#[verifier::external_body]
fn close_value(parts: JsonParts) -> (r: serde_json::Value)
    requires
        names_apart(parts),
    ensures
        held(r) == closed(parts),
{
    match parts {
        JsonParts::Null => serde_json::Value::Null,
        JsonParts::Bool(b) => serde_json::Value::Bool(b),
        JsonParts::Number(n) => serde_json::Value::Number(n),
        JsonParts::Text(s) => serde_json::Value::String(s),
        JsonParts::Array(items) => serde_json::Value::Array(items),
        JsonParts::Object(fields) => serde_json::Value::Object(fields.into_iter().collect()),
    }
}

/// The variants of `serde_json::Value`, one for one. The names in a
/// `serde_json::Map` are all different.
#[verifier::external_body]
fn open_value(v: serde_json::Value) -> (r: JsonParts)
    ensures
        closed(r) == held(v),
        names_apart(r),
{
    match v {
        serde_json::Value::Null => JsonParts::Null,
        serde_json::Value::Bool(b) => JsonParts::Bool(b),
        serde_json::Value::Number(n) => JsonParts::Number(n),
        serde_json::Value::String(s) => JsonParts::Text(s),
        serde_json::Value::Array(items) => JsonParts::Array(items),
        serde_json::Value::Object(fields) => JsonParts::Object(fields.into_iter().collect()),
    }
}

/// The value as serde_json has it.
fn to_outside(v: &JsonValue) -> (r: serde_json::Value)
    ensures
        held(r) == v@,
    decreases v,
{
    match v {
        JsonValue::Null => close_value(JsonParts::Null),
        JsonValue::Bool(b) => close_value(JsonParts::Bool(*b)),
        JsonValue::Number(n) => close_value(JsonParts::Number(to_number(*n))),
        JsonValue::OtherNumber(n) => close_value(JsonParts::Number(copy_number(n))),
        JsonValue::Text(s) => close_value(JsonParts::Text(s.clone())),
        JsonValue::Array(items) => {
            let mut out: Vec<serde_json::Value> = Vec::new();
            let mut i: usize = 0;
            while i < items.len()
                invariant
                    i <= items.len(),
                    *v == JsonValue::Array(*items),
                    out@.len() == i,
                    forall|j: int| 0 <= j < i ==> held(#[trigger] out@[j]) == items@[j]@,
                decreases items.len() - i,
            {
                proof {
                    assert(decreases_to!(*v => v->Array_0));
                    assert(decreases_to!(items => items@));
                    assert(decreases_to!(items@ => items@[i as int]));
                }
                out.push(to_outside(&items[i]));
                i += 1;
            }
            let r = close_value(JsonParts::Array(out));
            assert(held(r)->Array_0 =~= v@->Array_0);
            r
        },
        JsonValue::Object(fields) => {
            let ghost all = field_models(fields@);
            let mut out: Vec<(String, serde_json::Value)> = Vec::new();
            let mut i: usize = 0;
            assert(held_fields(out@) + all.skip(0) =~= all);
            while i < fields.len()
                invariant
                    i <= fields.len(),
                    *v == JsonValue::Object(*fields),
                    all == field_models(fields@),
                    fields_map(held_fields(out@) + all.skip(i as int)) == fields_map(all),
                    forall|j: int, k: int|
                        0 <= j < k < out@.len() ==> (#[trigger] out@[j]).0@ != (
                        #[trigger] out@[k]).0@,
                    forall|j: int, k: int|
                        0 <= j < out@.len() && i <= k < fields.len() ==> (#[trigger] out@[j]).0@
                            != (#[trigger] fields@[k]).name@,
                decreases fields.len() - i,
            {
                let field = &fields[i];
                let ghost before = held_fields(out@);
                let ghost rest = all.skip(i + 1);
                let ghost model = (field.name@, field.value@);
                proof {
                    assert(decreases_to!(*v => v->Object_0));
                    assert(decreases_to!(fields => fields@));
                    assert(decreases_to!(fields@ => fields@[i as int]));
                    assert(all.skip(i as int) =~= seq![model] + rest);
                }
                if comes_again(fields, i) {
                    proof {
                        let j = choose|j: int|
                            i < j < fields@.len() && (#[trigger] fields@[j]).name@ == field.name@;
                        assert(rest[j - i - 1].0 == model.0);
                        lemma_later_field_counts(before, model, rest);
                    }
                } else {
                    out.push((field.name.clone(), to_outside(&field.value)));
                    proof {
                        assert(held_fields(out@) =~= before.push(model));
                        assert(before.push(model) + rest =~= before + (seq![model] + rest));
                    }
                }
                i += 1;
            }
            assert(held_fields(out@) + all.skip(i as int) =~= held_fields(out@));
            close_value(JsonParts::Object(out))
        },
    }
}

/// Whether a later field has the name of this one.
fn comes_again(fields: &Vec<JsonField>, i: usize) -> (r: bool)
    requires
        i < fields.len(),
    ensures
        r == exists|j: int|
            i < j < fields@.len() && (#[trigger] fields@[j]).name@ == fields@[i as int].name@,
{
    let mut j: usize = i + 1;
    while j < fields.len()
        invariant
            i < j <= fields.len(),
            forall|k: int|
                i < k < j ==> (#[trigger] fields@[k]).name@ != fields@[i as int].name@,
        decreases fields.len() - j,
    {
        if same_text(fields[j].name.as_str(), fields[i].name.as_str()) {
            return true;
        }
        j += 1;
    }
    false
}

/// A field whose name comes again later adds nothing.
proof fn lemma_later_field_counts(
    head: Seq<(Seq<char>, JsonModel)>,
    field: (Seq<char>, JsonModel),
    rest: Seq<(Seq<char>, JsonModel)>,
)
    requires
        exists|j: int| 0 <= j < rest.len() && (#[trigger] rest[j]).0 == field.0,
    ensures
        fields_map(head + (seq![field] + rest)) == fields_map(head + rest),
{
    let a = fields_map(head + (seq![field] + rest));
    let b = fields_map(head + rest);
    assert forall|k: Seq<char>| #[trigger]
        a.dom().contains(k) == b.dom().contains(k) && (a.dom().contains(k) ==> a[k] == b[k]) by {
        lemma_same_elsewhere(head, field, rest, k);
    }
    assert(a =~= b);
}

proof fn lemma_same_elsewhere(
    head: Seq<(Seq<char>, JsonModel)>,
    field: (Seq<char>, JsonModel),
    rest: Seq<(Seq<char>, JsonModel)>,
    k: Seq<char>,
)
    requires
        k != field.0 || exists|j: int| 0 <= j < rest.len() && (#[trigger] rest[j]).0 == k,
    ensures
        ({
            let a = fields_map(head + (seq![field] + rest));
            let b = fields_map(head + rest);
            a.dom().contains(k) == b.dom().contains(k) && (a.dom().contains(k) ==> a[k] == b[k])
        }),
    decreases rest.len(),
{
    let long = head + (seq![field] + rest);
    let short = head + rest;
    if rest.len() == 0 {
        assert(long.drop_last() =~= head);
        assert(short =~= head);
        assert(long.last() == field);
    } else {
        let fewer = rest.drop_last();
        assert(long.drop_last() =~= head + (seq![field] + fewer));
        assert(short.drop_last() =~= head + fewer);
        assert(long.last() == rest.last() && short.last() == rest.last());
        if k != rest.last().0 {
            if k == field.0 {
                let j = choose|j: int| 0 <= j < rest.len() && (#[trigger] rest[j]).0 == k;
                assert(fewer[j].0 == k);
            }
            lemma_same_elsewhere(head, field, fewer, k);
        }
    }
}

/// The value that serde_json has.
fn from_outside(v: serde_json::Value) -> (r: JsonValue)
    ensures
        r@ == held(v),
    decreases held(v),
{
    let ghost whole = held(v);
    match open_value(v) {
        JsonParts::Null => JsonValue::Null,
        JsonParts::Bool(b) => JsonValue::Bool(b),
        JsonParts::Number(n) => match as_whole_number(&n) {
            Some(k) => JsonValue::Number(k),
            None => JsonValue::OtherNumber(n),
        },
        JsonParts::Text(s) => JsonValue::Text(s),
        JsonParts::Array(items) => {
            let ghost all = items@;
            let mut left = items;
            let mut back: Vec<JsonValue> = Vec::new();
            while left.len() > 0
                invariant
                    whole == held(v),
                    whole == JsonModel::Array(all.map_values(|v: serde_json::Value| held(v))),
                    left@ == all.take(left@.len() as int),
                    left@.len() + back@.len() == all.len(),
                    forall|j: int|
                        0 <= j < back@.len() ==> (#[trigger] back@[j])@ == held(
                            all[all.len() - 1 - j],
                        ),
                decreases left.len(),
            {
                let ghost n = left@.len() - 1;
                if let Some(item) = left.pop() {
                    proof {
                        let models = whole->Array_0;
                        assert(models[n] == held(all[n]));
                        assert(decreases_to!(whole => models));
                        assert(decreases_to!(models => models[n]));
                    }
                    back.push(from_outside(item));
                    assert(left@ =~= all.take(n));
                }
            }
            let mut out: Vec<JsonValue> = Vec::new();
            while back.len() > 0
                invariant
                    out@.len() + back@.len() == all.len(),
                    forall|j: int|
                        0 <= j < back@.len() ==> (#[trigger] back@[j])@ == held(
                            all[all.len() - 1 - j],
                        ),
                    forall|j: int| 0 <= j < out@.len() ==> (#[trigger] out@[j])@ == held(all[j]),
                decreases back.len(),
            {
                if let Some(item) = back.pop() {
                    out.push(item);
                }
            }
            let r = JsonValue::Array(out);
            assert(r@->Array_0 =~= whole->Array_0);
            r
        },
        JsonParts::Object(fields) => {
            let ghost all = fields@;
            let mut left = fields;
            let mut back: Vec<JsonField> = Vec::new();
            while left.len() > 0
                invariant
                    whole == held(v),
                    whole == object(held_fields(all)),
                    forall|i: int, j: int|
                        0 <= i < j < all.len() ==> (#[trigger] all[i]).0@ != (#[trigger] all[j]).0@,
                    left@ == all.take(left@.len() as int),
                    left@.len() + back@.len() == all.len(),
                    forall|j: int|
                        0 <= j < back@.len() ==> (#[trigger] back@[j]).name@ == all[all.len() - 1
                            - j].0@ && back@[j].value@ == held(all[all.len() - 1 - j].1),
                decreases left.len(),
            {
                let ghost n = left@.len() - 1;
                if let Some(field) = left.pop() {
                    proof {
                        let models = whole->Object_0;
                        lemma_field_is_there(held_fields(all), n);
                        assert(models[all[n].0@] == held(all[n].1));
                        assert(decreases_to!(whole => models));
                        assert(decreases_to!(models => models[all[n].0@]));
                    }
                    back.push(JsonField { name: field.0, value: from_outside(field.1) });
                    assert(left@ =~= all.take(n));
                }
            }
            let mut out: Vec<JsonField> = Vec::new();
            while back.len() > 0
                invariant
                    out@.len() + back@.len() == all.len(),
                    forall|j: int|
                        0 <= j < back@.len() ==> (#[trigger] back@[j]).name@ == all[all.len() - 1
                            - j].0@ && back@[j].value@ == held(all[all.len() - 1 - j].1),
                    forall|j: int|
                        0 <= j < out@.len() ==> (#[trigger] out@[j]).name@ == all[j].0@
                            && out@[j].value@ == held(all[j].1),
                decreases back.len(),
            {
                if let Some(field) = back.pop() {
                    out.push(field);
                }
            }
            assert(field_models(out@) =~= held_fields(all));
            JsonValue::Object(out)
        },
    }
}

/// Where the names are all different, each field is found under its own.
proof fn lemma_field_is_there(fields: Seq<(Seq<char>, JsonModel)>, n: int)
    requires
        0 <= n < fields.len(),
        forall|i: int, j: int|
            0 <= i < j < fields.len() ==> (#[trigger] fields[i]).0 != (#[trigger] fields[j]).0,
    ensures
        fields_map(fields).dom().contains(fields[n].0),
        fields_map(fields)[fields[n].0] == fields[n].1,
        fields_map(fields).dom().finite(),
    decreases fields.len(),
{
    let head = fields.drop_last();
    if n < head.len() {
        lemma_field_is_there(head, n);
        assert(head[n] == fields[n]);
    } else {
        lemma_fields_are_finite(head);
    }
}

proof fn lemma_fields_are_finite(fields: Seq<(Seq<char>, JsonModel)>)
    ensures
        fields_map(fields).dom().finite(),
    decreases fields.len(),
{
    if fields.len() > 0 {
        lemma_fields_are_finite(fields.drop_last());
    }
}

/// Whether the text is read as that value.
pub open spec fn reads_as(s: Seq<char>, v: JsonModel) -> bool {
    read_json(s) == Ok::<JsonModel, Seq<char>>(v)
}

/// Whether the value is an array of texts.
pub open spec fn is_text_list(v: JsonModel) -> bool {
    match v {
        JsonModel::Array(items) => forall|i: int|
            0 <= i < items.len() ==> #[trigger] items[i] is Text,
        _ => false,
    }
}

/// `serde_json::Value::to_string`. The text depends on what the value holds alone,
/// and `serde_json::from_str` reads an array of texts back unchanged.
#[verifier::external_body]
fn value_to_text(v: &serde_json::Value) -> (r: String)
    ensures
        r@ == json_text(held(*v)),
        is_text_list(held(*v)) ==> reads_as(r@, held(*v)),
{
    v.to_string()
}

/// What reading gave: what the value holds, or the message.
pub open spec fn value_outcome(r: Result<serde_json::Value, String>) -> Result<
    JsonModel,
    Seq<char>,
> {
    match r {
        Ok(v) => Ok(held(v)),
        Err(e) => Err(e@),
    }
}

/// `serde_json::from_str` into a `serde_json::Value`. What it reads, or the
/// message of its error, depends on the text alone.
#[verifier::external_body]
fn text_to_value(s: &str) -> (r: Result<serde_json::Value, String>)
    ensures
        value_outcome(r) == read_json(s@),
{
    match serde_json::from_str(s) {
        Ok(v) => Ok(v),
        Err(e) => Err(e.to_string()),
    }
}

/// The compact text of the value.
pub fn render_json(v: &JsonValue) -> (r: String)
    ensures
        r@ == json_text(v@),
        is_text_list(v@) ==> reads_as(r@, v@),
{
    value_to_text(&to_outside(v))
}

/// The value that a text writes down, or why it writes none.
pub fn parse_json(s: &str) -> (r: Result<JsonValue, String>)
    ensures
        json_outcome(r) == read_json(s@),
{
    match text_to_value(s) {
        Ok(v) => Ok(from_outside(v)),
        Err(e) => Err(e),
    }
}

} // verus!
