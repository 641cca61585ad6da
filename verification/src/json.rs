//! JSON documents as plain values, read and written by `serde_json`.
use crate::text::same_text;
use vstd::prelude::*;

verus! {

/// A JSON number, carried from one document to another and never looked into.
#[verifier::external_type_specification]
#[verifier::external_body]
pub struct ExNumber(serde_json::Number);

/// A document as `serde_json` holds it.
#[verifier::external_type_specification]
#[verifier::external_body]
pub struct ExValue(serde_json::Value);

/// The failure of `serde_json` to read a document.
#[verifier::external_type_specification]
#[verifier::external_body]
pub struct ExJsonError(serde_json::Error);

/// What a JSON document says.
pub enum JsonModel {
    Null,
    Bool(bool),
    Number(serde_json::Number),
    Text(Seq<char>),
    Array(Seq<JsonModel>),
    Object(Map<Seq<char>, JsonModel>),
}

impl JsonModel {
    /// The value under a key, where the document is an object that has the key.
    pub open spec fn get(self, key: Seq<char>) -> Option<JsonModel> {
        match self {
            JsonModel::Object(m) => if m.contains_key(key) {
                Some(m[key])
            } else {
                None
            },
            _ => None,
        }
    }

    /// The text, where the document is a text.
    pub open spec fn as_text(self) -> Option<Seq<char>> {
        match self {
            JsonModel::Text(s) => Some(s),
            _ => None,
        }
    }
}

/// A JSON document. Where an object names a key twice, the later value counts.
#[derive(Debug)]
pub enum Json {
    Null,
    Bool(bool),
    Number(serde_json::Number),
    Text(String),
    Array(Vec<Json>),
    Object(Vec<(String, Json)>),
}

/// What the entries of an object say.
pub open spec fn fields_model(fields: Seq<(String, Json)>) -> Map<Seq<char>, JsonModel>
    decreases fields,
{
    if fields.len() == 0 {
        Map::empty()
    } else {
        fields_model(fields.drop_last()).insert(fields.last().0@, fields.last().1.model())
    }
}

/// An object with no entries says nothing, and an entry more is one insertion more.
pub(crate) proof fn field_added(fields: Seq<(String, Json)>, field: (String, Json))
    ensures
        fields_model(Seq::empty()) == Map::<Seq<char>, JsonModel>::empty(),
        fields_model(fields.push(field)) == fields_model(fields).insert(
            field.0@,
            field.1.model(),
        ),
{
    assert(fields.push(field).drop_last() =~= fields);
}

/// What the elements of an array say.
pub open spec fn items_model(items: Seq<Json>) -> Seq<JsonModel>
    decreases items,
{
    if items.len() == 0 {
        Seq::empty()
    } else {
        items_model(items.drop_last()).push(items.last().model())
    }
}

/// The first element of an array says what the first of its items says, and there are as many.
pub(crate) proof fn first_item(items: Seq<Json>)
    ensures
        items_model(items).len() == items.len(),
        items.len() > 0 ==> items_model(items)[0] == items[0].model(),
    decreases items.len(),
{
    if items.len() > 0 {
        first_item(items.drop_last());
    }
}

impl Json {
    /// What the document says.
    pub open spec fn model(self) -> JsonModel
        decreases self,
    {
        match self {
            Json::Null => JsonModel::Null,
            Json::Bool(b) => JsonModel::Bool(b),
            Json::Number(n) => JsonModel::Number(n),
            Json::Text(s) => JsonModel::Text(s@),
            Json::Array(items) => JsonModel::Array(items_model(items@)),
            Json::Object(fields) => JsonModel::Object(fields_model(fields@)),
        }
    }

    /// The value under a key, where the document is an object that has the key.
    pub fn get(&self, key: &str) -> (r: Option<&Json>)
        ensures
            match r {
                Some(v) => self.model().get(key@) == Some(v.model()),
                None => self.model().get(key@) is None,
            },
    {
        match self {
            Json::Object(fields) => {
                let mut n: usize = fields.len();
                assert(fields@.take(n as int) =~= fields@);
                while n > 0
                    invariant
                        n <= fields.len(),
                        self.model() == JsonModel::Object(fields_model(fields@)),
                        self.model().get(key@) == JsonModel::Object(
                            fields_model(fields@.take(n as int)),
                        ).get(key@),
                    decreases n,
                {
                    let ghost t = fields@.take(n as int);
                    assert(t.drop_last() =~= fields@.take(n - 1));
                    if same_text(fields[n - 1].0.as_str(), key) {
                        return Some(&fields[n - 1].1);
                    }
                    n -= 1;
                }
                None
            },
            _ => None,
        }
    }

    /// The text, where the document is a text.
    pub fn as_str(&self) -> (r: Option<&str>)
        ensures
            match r {
                Some(t) => self.model().as_text() == Some(t@),
                None => self.model().as_text() is None,
            },
    {
        match self {
            Json::Text(s) => Some(s.as_str()),
            _ => None,
        }
    }

    /// The same document in the form in which `serde_json` holds it.
    pub fn into_value(self) -> (r: serde_json::Value)
        ensures
            value_model(r) == self.model(),
        decreases self,
    {
        let parts = match self {
            Json::Null => Parts::Null,
            Json::Bool(b) => Parts::Bool(b),
            Json::Number(n) => Parts::Number(n),
            Json::Text(s) => Parts::Text(s),
            Json::Array(items) => {
                let ghost given = items;
                let mut values: Vec<serde_json::Value> = Vec::new();
                for item in it: items
                    invariant
                        it.seq() == given@,
                        self == Json::Array(given),
                        value_items(values@) == items_model(given@.take(it.index())),
                {
                    proof {
                        let k = it.index();
                        assert(decreases_to!(given@ => given@[k]));
                        assert(decreases_to!(given => given@));
                        assert(decreases_to!(self => self->Array_0));
                        assert(given@.take(k + 1).drop_last() =~= given@.take(k));
                    }
                    let ghost before = values@;
                    values.push(item.into_value());
                    assert(value_items(values@) =~= value_items(before).push(
                        value_model(values@.last()),
                    ));
                }
                assert(given@.take(given@.len() as int) =~= given@);
                Parts::List(values)
            },
            Json::Object(fields) => {
                let ghost given = fields;
                let mut values: Vec<(String, serde_json::Value)> = Vec::new();
                for field in it: fields
                    invariant
                        it.seq() == given@,
                        self == Json::Object(given),
                        value_fields(values@) == fields_model(given@.take(it.index())),
                {
                    let ghost before = values@;
                    proof {
                        let k = it.index();
                        assert(decreases_to!(given@ => given@[k]));
                        assert(decreases_to!(given => given@));
                        assert(decreases_to!(self => self->Object_0));
                        assert(decreases_to!(given@[k] => given@[k].1));
                        assert(given@.take(k + 1).drop_last() =~= given@.take(k));
                    }
                    values.push((field.0, field.1.into_value()));
                    assert(values@.drop_last() =~= before);
                }
                assert(given@.take(given@.len() as int) =~= given@);
                Parts::Fields(values)
            },
        };
        value_of_parts(parts)
    }

    /// The document that `serde_json` holds, as plain values.
    pub fn from_value(v: serde_json::Value) -> (r: Json)
        ensures
            r.model() == value_model(v),
        decreases value_model(v),
    {
        let ghost m = value_model(v);
        match parts_of_value(v) {
            Parts::Null => Json::Null,
            Parts::Bool(b) => Json::Bool(b),
            Parts::Number(n) => Json::Number(n),
            Parts::Text(s) => Json::Text(s),
            Parts::List(values) => {
                let ghost given = values@;
                let mut items: Vec<Json> = Vec::new();
                for value in it: values
                    invariant
                        it.seq() == given,
                        m == value_model(v),
                        m == JsonModel::Array(value_items(given)),
                        items_model(items@) == value_items(given.take(it.index())),
                {
                    let ghost before = items@;
                    proof {
                        let k = it.index();
                        assert(decreases_to!(m => m->Array_0));
                        assert(decreases_to!(m->Array_0 => m->Array_0[k]));
                        assert(value_items(given.take(k + 1)) =~= value_items(given.take(k)).push(
                            value_model(given[k]),
                        ));
                    }
                    items.push(Json::from_value(value));
                    assert(items@.drop_last() =~= before);
                }
                assert(given.take(given.len() as int) =~= given);
                Json::Array(items)
            },
            Parts::Fields(values) => {
                let ghost given = values@;
                let mut fields: Vec<(String, Json)> = Vec::new();
                for value in it: values
                    invariant
                        it.seq() == given,
                        m == value_model(v),
                        m == JsonModel::Object(value_fields(given)),
                        distinct_keys(given),
                        fields_model(fields@) == value_fields(given.take(it.index())),
                {
                    let ghost before = fields@;
                    proof {
                        let k = it.index();
                        distinct_entry(given, k);
                        assert(decreases_to!(m => m->Object_0));
                        assert(decreases_to!(m->Object_0 => m->Object_0[given[k].0@]));
                        assert(given.take(k + 1).drop_last() =~= given.take(k));
                    }
                    fields.push((value.0, Json::from_value(value.1)));
                    assert(fields@.drop_last() =~= before);
                }
                assert(given.take(given.len() as int) =~= given);
                Json::Object(fields)
            },
        }
    }
}

/// One level of a document, with what lies below it in the form in which `serde_json` holds it.
pub enum Parts {
    Null,
    Bool(bool),
    Number(serde_json::Number),
    Text(String),
    List(Vec<serde_json::Value>),
    Fields(Vec<(String, serde_json::Value)>),
}

/// What a `serde_json` document says.
pub uninterp spec fn value_model(v: serde_json::Value) -> JsonModel;

/// What a list of `serde_json` documents says.
pub open spec fn value_items(v: Seq<serde_json::Value>) -> Seq<JsonModel> {
    v.map_values(|x: serde_json::Value| value_model(x))
}

/// What a list of keys and `serde_json` documents says as the entries of an object.
pub open spec fn value_fields(v: Seq<(String, serde_json::Value)>) -> Map<Seq<char>, JsonModel>
    decreases v.len(),
{
    if v.len() == 0 {
        Map::empty()
    } else {
        value_fields(v.drop_last()).insert(v.last().0@, value_model(v.last().1))
    }
}

/// No key stands twice among the entries.
pub open spec fn distinct_keys(v: Seq<(String, serde_json::Value)>) -> bool {
    forall|i: int, j: int|
        0 <= i < j < v.len() ==> (#[trigger] v[i]).0@ != (#[trigger] v[j]).0@
}

proof fn distinct_entry(v: Seq<(String, serde_json::Value)>, k: int)
    requires
        distinct_keys(v),
        0 <= k < v.len(),
    ensures
        value_fields(v).dom().finite(),
        value_fields(v).contains_key(v[k].0@),
        value_fields(v)[v[k].0@] == value_model(v[k].1),
    decreases v.len(),
{
    if k < v.len() - 1 {
        distinct_entry(v.drop_last(), k);
    } else if k > 0 {
        distinct_entry(v.drop_last(), k - 1);
    } else {
        assert(value_fields(v.drop_last()) == Map::<Seq<char>, JsonModel>::empty());
    }
}

impl Parts {
    /// What the document says of which these are the parts.
    pub open spec fn model(self) -> JsonModel {
        match self {
            Parts::Null => JsonModel::Null,
            Parts::Bool(b) => JsonModel::Bool(b),
            Parts::Number(n) => JsonModel::Number(n),
            Parts::Text(s) => JsonModel::Text(s@),
            Parts::List(items) => JsonModel::Array(value_items(items@)),
            Parts::Fields(fields) => JsonModel::Object(value_fields(fields@)),
        }
    }
}

/// The variants of `serde_json::Value`, built from their fields: the value says what its parts
/// say, and of the entries of an object with the same key the last one counts.
#[verifier::external_body]
fn value_of_parts(parts: Parts) -> (r: serde_json::Value)
    ensures
        value_model(r) == parts.model(),
{
    match parts {
        Parts::Null => serde_json::Value::Null,
        Parts::Bool(b) => serde_json::Value::Bool(b),
        Parts::Number(n) => serde_json::Value::Number(n),
        Parts::Text(s) => serde_json::Value::String(s),
        Parts::List(items) => serde_json::Value::Array(items),
        Parts::Fields(fields) => {
            let mut m = serde_json::Map::new();
            m.extend(fields);
            serde_json::Value::Object(m)
        },
    }
}

/// The variants of `serde_json::Value`, taken apart: the parts say what the value says, and
/// the entries of an object come each with a key of its own.
#[verifier::external_body]
fn parts_of_value(v: serde_json::Value) -> (r: Parts)
    ensures
        r.model() == value_model(v),
        r matches Parts::Fields(fields) ==> distinct_keys(fields@),
{
    match v {
        serde_json::Value::Null => Parts::Null,
        serde_json::Value::Bool(b) => Parts::Bool(b),
        serde_json::Value::Number(n) => Parts::Number(n),
        serde_json::Value::String(s) => Parts::Text(s),
        serde_json::Value::Array(items) => Parts::List(items),
        serde_json::Value::Object(fields) => Parts::Fields(fields.into_iter().collect()),
    }
}

/// The number that `serde_json` makes of an unsigned integer.
pub uninterp spec fn unsigned_number(n: u64) -> serde_json::Number;

/// `serde_json::Number::from` makes a JSON number of an unsigned integer.
#[verifier::external_body]
pub(crate) fn number_from_u64(n: u64) -> (r: serde_json::Number)
    ensures
        r == unsigned_number(n),
{
    serde_json::Number::from(n)
}

/// What `serde_json` reads from the bytes of a JSON text: the document, or nothing where the
/// bytes are no JSON text.
pub uninterp spec fn json_read(bytes: Seq<u8>) -> Option<JsonModel>;

/// `serde_json::from_slice` reads a document from the bytes of a JSON text, or fails. What it
/// reads depends on the bytes alone.
#[verifier::external_body]
fn value_from_slice(bytes: &[u8]) -> (r: Result<serde_json::Value, serde_json::Error>)
    ensures
        match r {
            Ok(v) => json_read(bytes@) == Some(value_model(v)),
            Err(_) => json_read(bytes@) is None,
        },
{
    serde_json::from_slice::<serde_json::Value>(bytes)
}

/// Reads a document from the bytes of a JSON text; nothing where the bytes are no JSON text.
pub fn read_json(bytes: &[u8]) -> (r: Option<Json>)
    ensures
        match r {
            Some(j) => json_read(bytes@) == Some(j.model()),
            None => json_read(bytes@) is None,
        },
{
    match value_from_slice(bytes) {
        Ok(v) => Some(Json::from_value(v)),
        Err(_) => None,
    }
}

/// What `serde_json` writes of a document over several lines: the text, or the message of the
/// failure.
pub uninterp spec fn json_pretty(m: JsonModel) -> Result<Seq<char>, Seq<char>>;

/// `serde_json::to_string_pretty` writes a document over several lines. What it writes depends
/// on what the document says alone: the entries of an object come in the order of their keys.
#[verifier::external_body]
fn value_to_string_pretty(v: &serde_json::Value) -> (r: Result<String, String>)
    ensures
        match r {
            Ok(s) => json_pretty(value_model(*v)) == Ok::<Seq<char>, Seq<char>>(s@),
            Err(e) => json_pretty(value_model(*v)) == Err::<Seq<char>, Seq<char>>(e@),
        },
{
    serde_json::to_string_pretty(v).map_err(|e| e.to_string())
}

/// Writes a document over several lines.
pub fn write_pretty(j: Json) -> (r: Result<String, String>)
    ensures
        match r {
            Ok(s) => json_pretty(j.model()) == Ok::<Seq<char>, Seq<char>>(s@),
            Err(e) => json_pretty(j.model()) == Err::<Seq<char>, Seq<char>>(e@),
        },
{
    let v = j.into_value();
    value_to_string_pretty(&v)
}

} // verus!
