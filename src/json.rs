use vstd::prelude::*;

verus! {

/// A JSON document as the library handles it.
///
/// Numbers that fit an `i64` are held as integers; any other number is held
/// as the text it was written with, so that no value is lost.
#[derive(Debug, PartialEq)]
pub enum Json {
    Null,
    Bool(bool),
    Int(i64),
    Number(String),
    Str(String),
    Array(Vec<Json>),
    Object(Vec<(String, Json)>),
}

/// The mathematical value of a JSON document.
pub enum JsonV {
    Null,
    Bool(bool),
    Int(int),
    Number(Seq<char>),
    Str(Seq<char>),
    Array(Seq<JsonV>),
    Object(Seq<(Seq<char>, JsonV)>),
}

pub open spec fn json_view(j: Json) -> JsonV
    decreases j,
{
    match j {
        Json::Null => JsonV::Null,
        Json::Bool(b) => JsonV::Bool(b),
        Json::Int(n) => JsonV::Int(n as int),
        Json::Number(s) => JsonV::Number(s@),
        Json::Str(s) => JsonV::Str(s@),
        Json::Array(items) => JsonV::Array(
            Seq::new(
                items@.len(),
                |i: int|
                    if 0 <= i < items@.len() {
                        json_view(items@[i])
                    } else {
                        JsonV::Null
                    },
            ),
        ),
        Json::Object(fields) => JsonV::Object(
            Seq::new(
                fields@.len(),
                |i: int|
                    if 0 <= i < fields@.len() {
                        (fields@[i].0@, json_view(fields@[i].1))
                    } else {
                        (Seq::empty(), JsonV::Null)
                    },
            ),
        ),
    }
}

impl View for Json {
    type V = JsonV;

    open spec fn view(&self) -> JsonV {
        json_view(*self)
    }
}

/// The view of the fields of an object, in order.
pub open spec fn fields_view(fields: Seq<(String, Json)>) -> Seq<(Seq<char>, JsonV)> {
    Seq::new(fields.len(), |i: int| (fields[i].0@, fields[i].1@))
}

/// The view of the items of an array, in order.
pub open spec fn items_view(items: Seq<Json>) -> Seq<JsonV> {
    Seq::new(items.len(), |i: int| items[i]@)
}

pub proof fn lemma_object_view(fields: Vec<(String, Json)>)
    ensures
        Json::Object(fields)@ == JsonV::Object(fields_view(fields@)),
{
    assert(fields_view(fields@) =~= match Json::Object(fields)@ {
        JsonV::Object(fs) => fs,
        _ => Seq::empty(),
    });
}

pub proof fn lemma_array_view(items: Vec<Json>)
    ensures
        Json::Array(items)@ == JsonV::Array(items_view(items@)),
{
    assert(items_view(items@) =~= match Json::Array(items)@ {
        JsonV::Array(xs) => xs,
        _ => Seq::empty(),
    });
}

/// The value that an object holds under `key`: that of its first field of
/// that name.
pub open spec fn field_of(fields: Seq<(Seq<char>, JsonV)>, key: Seq<char>) -> Option<JsonV>
    decreases fields.len(),
{
    if fields.len() == 0 {
        None
    } else if fields[0].0 == key {
        Some(fields[0].1)
    } else {
        field_of(fields.drop_first(), key)
    }
}

/// Whether `j` is an object with a field named `key`.
pub open spec fn has_key(j: JsonV, key: Seq<char>) -> bool {
    match j {
        JsonV::Object(fields) => exists|i: int| 0 <= i < fields.len() && #[trigger] fields[i].0 == key,
        _ => false,
    }
}

proof fn lemma_field_of_skip(fields: Seq<(Seq<char>, JsonV)>, key: Seq<char>, i: int)
    requires
        0 <= i <= fields.len(),
        forall|k: int| 0 <= k < i ==> #[trigger] fields[k].0 != key,
    ensures
        field_of(fields, key) == field_of(fields.subrange(i, fields.len() as int), key),
    decreases i,
{
    if i > 0 {
        assert(fields.subrange(1, fields.len() as int) =~= fields.drop_first());
        lemma_field_of_skip(fields.drop_first(), key, i - 1);
        assert(fields.drop_first().subrange(i - 1, fields.drop_first().len() as int)
            =~= fields.subrange(i, fields.len() as int));
    } else {
        assert(fields.subrange(0, fields.len() as int) =~= fields);
    }
}

/// The index of the first field named `key`, if there is one.
fn find_field(fields: &Vec<(String, Json)>, key: &str) -> (r: Option<usize>)
    ensures
        match r {
            Some(i) => i < fields@.len() && field_of(fields_view(fields@), key@) == Some(
                fields@[i as int].1@,
            ),
            None => field_of(fields_view(fields@), key@) is None,
        },
{
    let ghost fs = fields_view(fields@);
    let name = key.to_owned();
    let mut i: usize = 0;
    while i < fields.len()
        invariant
            i <= fields@.len(),
            fs == fields_view(fields@),
            name@ == key@,
            forall|k: int| 0 <= k < i ==> #[trigger] fs[k].0 != key@,
        decreases fields@.len() - i,
    {
        if fields[i].0 == name {
            proof {
                lemma_field_of_skip(fs, key@, i as int);
            }
            return Some(i);
        }
        i = i + 1;
    }
    proof {
        lemma_field_of_skip(fs, key@, i as int);
    }
    None
}

/// The text held by an optional value, where it is a string.
pub open spec fn as_str(v: Option<JsonV>) -> Option<Seq<char>> {
    match v {
        Some(JsonV::Str(s)) => Some(s),
        _ => None,
    }
}

/// The integer held by an optional value, where it is one that fits an `i32`.
pub open spec fn as_i32(v: Option<JsonV>) -> Option<i32> {
    match v {
        Some(JsonV::Int(n)) => if i32::MIN <= n <= i32::MAX {
            Some(n as i32)
        } else {
            None
        },
        _ => None,
    }
}

/// An optional integer field: absent or `null` reads as `None`; an `i32` as
/// that value; anything else does not read.
pub open spec fn as_opt_i32(v: Option<JsonV>) -> Option<Option<i32>> {
    match v {
        None => Some(None),
        Some(JsonV::Null) => Some(None),
        _ => match as_i32(v) {
            Some(n) => Some(Some(n)),
            None => None,
        },
    }
}

/// The boolean held by an optional value, where it is one.
pub open spec fn as_bool(v: Option<JsonV>) -> Option<bool> {
    match v {
        Some(JsonV::Bool(b)) => Some(b),
        _ => None,
    }
}

/// The texts of a sequence of strings.
pub open spec fn strings_view(v: Seq<String>) -> Seq<Seq<char>> {
    v.map_values(|s: String| s@)
}

/// The texts of a sequence of sequences of strings.
pub open spec fn string_rows_view(v: Seq<Vec<String>>) -> Seq<Seq<Seq<char>>> {
    v.map_values(|row: Vec<String>| strings_view(row@))
}

/// An array of strings.
pub open spec fn str_array_view(texts: Seq<Seq<char>>) -> JsonV {
    JsonV::Array(texts.map_values(|t: Seq<char>| JsonV::Str(t)))
}

/// An array of arrays of strings.
pub open spec fn str_rows_view(rows: Seq<Seq<Seq<char>>>) -> JsonV {
    JsonV::Array(rows.map_values(|row: Seq<Seq<char>>| str_array_view(row)))
}

/// The texts of an array of strings; nothing for any other value.
pub open spec fn read_str_array(j: JsonV) -> Option<Seq<Seq<char>>> {
    match j {
        JsonV::Array(xs) => if forall|i: int| 0 <= i < xs.len() ==> #[trigger] xs[i] is Str {
            Some(xs.map_values(|x: JsonV| x->Str_0))
        } else {
            None
        },
        _ => None,
    }
}

/// The texts of an array of arrays of strings; nothing for any other value.
pub open spec fn read_str_rows(j: JsonV) -> Option<Seq<Seq<Seq<char>>>> {
    match j {
        JsonV::Array(xs) => if forall|i: int|
            0 <= i < xs.len() ==> #[trigger] read_str_array(xs[i]) is Some {
            Some(xs.map_values(|x: JsonV| read_str_array(x)->0))
        } else {
            None
        },
        _ => None,
    }
}

/// `read_str_array` of an optional value.
pub open spec fn as_str_array(v: Option<JsonV>) -> Option<Seq<Seq<char>>> {
    match v {
        Some(j) => read_str_array(j),
        None => None,
    }
}

/// `read_str_rows` of an optional value.
pub open spec fn as_str_rows(v: Option<JsonV>) -> Option<Seq<Seq<Seq<char>>>> {
    match v {
        Some(j) => read_str_rows(j),
        None => None,
    }
}

pub proof fn lemma_str_array_round_trip(texts: Seq<Seq<char>>)
    ensures
        read_str_array(str_array_view(texts)) == Some(texts),
{
    let xs = texts.map_values(|t: Seq<char>| JsonV::Str(t));
    assert(xs.map_values(|x: JsonV| x->Str_0) =~= texts);
}

pub proof fn lemma_str_rows_round_trip(rows: Seq<Seq<Seq<char>>>)
    ensures
        read_str_rows(str_rows_view(rows)) == Some(rows),
{
    let xs = rows.map_values(|row: Seq<Seq<char>>| str_array_view(row));
    assert forall|i: int| 0 <= i < xs.len() implies #[trigger] read_str_array(xs[i]) == Some(
        rows[i],
    ) by {
        lemma_str_array_round_trip(rows[i]);
    }
    assert(xs.map_values(|x: JsonV| read_str_array(x)->0) =~= rows);
}

/// An array of the given strings.
pub fn str_array(texts: &Vec<String>) -> (r: Json)
    ensures
        r@ == str_array_view(strings_view(texts@)),
{
    let mut items: Vec<Json> = Vec::new();
    let mut i: usize = 0;
    while i < texts.len()
        invariant
            i <= texts@.len(),
            items@.len() == i,
            forall|k: int| 0 <= k < i ==> #[trigger] items@[k]@ == JsonV::Str(texts@[k]@),
        decreases texts@.len() - i,
    {
        items.push(Json::Str(texts[i].clone()));
        i = i + 1;
    }
    proof {
        lemma_array_view(items);
        assert(items_view(items@) =~= strings_view(texts@).map_values(|t: Seq<char>| JsonV::Str(t)));
    }
    Json::Array(items)
}

/// An array of arrays of the given strings.
pub fn str_rows(rows: &Vec<Vec<String>>) -> (r: Json)
    ensures
        r@ == str_rows_view(string_rows_view(rows@)),
{
    let mut items: Vec<Json> = Vec::new();
    let mut i: usize = 0;
    while i < rows.len()
        invariant
            i <= rows@.len(),
            items@.len() == i,
            forall|k: int|
                0 <= k < i ==> #[trigger] items@[k]@ == str_array_view(strings_view(rows@[k]@)),
        decreases rows@.len() - i,
    {
        items.push(str_array(&rows[i]));
        i = i + 1;
    }
    proof {
        lemma_array_view(items);
        assert(items_view(items@) =~= string_rows_view(rows@).map_values(
            |row: Seq<Seq<char>>| str_array_view(row),
        ));
    }
    Json::Array(items)
}

/// The strings of an array of strings.
pub fn to_str_array(j: &Json) -> (r: Option<Vec<String>>)
    ensures
        r is Some <==> read_str_array(j@) is Some,
        r is Some ==> read_str_array(j@) == Some(strings_view(r->0@)),
{
    match j {
        Json::Array(items) => {
            proof {
                lemma_array_view(*items);
            }
            let ghost xs = items_view(items@);
            let mut out: Vec<String> = Vec::new();
            let mut i: usize = 0;
            while i < items.len()
                invariant
                    i <= items@.len(),
                    xs == items_view(items@),
                    j@ == JsonV::Array(xs),
                    forall|k: int| 0 <= k < i ==> #[trigger] xs[k] is Str,
                    out@.len() == i,
                    forall|k: int| 0 <= k < i ==> #[trigger] out@[k]@ == xs[k]->Str_0,
                decreases items@.len() - i,
            {
                match &items[i] {
                    Json::Str(s) => out.push(s.clone()),
                    _ => {
                        assert(xs[i as int] == items@[i as int]@);
                        assert(!(xs[i as int] is Str));
                        return None;
                    },
                }
                i = i + 1;
            }
            assert(strings_view(out@) =~= xs.map_values(|x: JsonV| x->Str_0));
            Some(out)
        },
        _ => None,
    }
}

/// The rows of an array of arrays of strings.
pub fn to_str_rows(j: &Json) -> (r: Option<Vec<Vec<String>>>)
    ensures
        r is Some <==> read_str_rows(j@) is Some,
        r is Some ==> read_str_rows(j@) == Some(string_rows_view(r->0@)),
{
    match j {
        Json::Array(items) => {
            proof {
                lemma_array_view(*items);
            }
            let ghost xs = items_view(items@);
            let mut out: Vec<Vec<String>> = Vec::new();
            let mut i: usize = 0;
            while i < items.len()
                invariant
                    i <= items@.len(),
                    xs == items_view(items@),
                    j@ == JsonV::Array(xs),
                    forall|k: int| 0 <= k < i ==> #[trigger] read_str_array(xs[k]) is Some,
                    out@.len() == i,
                    forall|k: int|
                        0 <= k < i ==> #[trigger] strings_view(out@[k]@) == read_str_array(xs[k])->0,
                decreases items@.len() - i,
            {
                match to_str_array(&items[i]) {
                    Some(row) => out.push(row),
                    None => {
                        assert(xs[i as int] == items@[i as int]@);
                        assert(read_str_array(xs[i as int]) is None);
                        return None;
                    },
                }
                i = i + 1;
            }
            assert(string_rows_view(out@) =~= xs.map_values(|x: JsonV| read_str_array(x)->0));
            Some(out)
        },
        _ => None,
    }
}

/// Field `key` of an object, if it has one.
pub fn get_field<'a>(fields: &'a Vec<(String, Json)>, key: &str) -> (r: Option<&'a Json>)
    ensures
        r is Some <==> field_of(fields_view(fields@), key@) is Some,
        r is Some ==> field_of(fields_view(fields@), key@) == Some(r->0@),
{
    match find_field(fields, key) {
        Some(i) => Some(&fields[i].1),
        None => None,
    }
}

/// The text of field `key` of an object, where it is a string.
pub fn get_str(fields: &Vec<(String, Json)>, key: &str) -> (r: Option<String>)
    ensures
        r is Some <==> as_str(field_of(fields_view(fields@), key@)) is Some,
        r is Some ==> as_str(field_of(fields_view(fields@), key@)) == Some(r->0@),
{
    match find_field(fields, key) {
        Some(i) => match &fields[i].1 {
            Json::Str(s) => Some(s.clone()),
            _ => None,
        },
        None => None,
    }
}

/// Field `key` of an object, where it is an integer that fits an `i32`.
pub fn get_i32(fields: &Vec<(String, Json)>, key: &str) -> (r: Option<i32>)
    ensures
        r == as_i32(field_of(fields_view(fields@), key@)),
{
    match find_field(fields, key) {
        Some(i) => match &fields[i].1 {
            Json::Int(n) => if i32::MIN as i64 <= *n && *n <= i32::MAX as i64 {
                Some(*n as i32)
            } else {
                None
            },
            _ => None,
        },
        None => None,
    }
}

/// Optional integer field `key` of an object; see `as_opt_i32`.
pub fn get_opt_i32(fields: &Vec<(String, Json)>, key: &str) -> (r: Option<Option<i32>>)
    ensures
        r == as_opt_i32(field_of(fields_view(fields@), key@)),
{
    match find_field(fields, key) {
        Some(i) => match &fields[i].1 {
            Json::Null => Some(None),
            Json::Int(n) => if i32::MIN as i64 <= *n && *n <= i32::MAX as i64 {
                Some(Some(*n as i32))
            } else {
                None
            },
            _ => None,
        },
        None => Some(None),
    }
}

/// Field `key` of an object, where it is a boolean.
pub fn get_bool(fields: &Vec<(String, Json)>, key: &str) -> (r: Option<bool>)
    ensures
        r == as_bool(field_of(fields_view(fields@), key@)),
{
    match find_field(fields, key) {
        Some(i) => match &fields[i].1 {
            Json::Bool(b) => Some(*b),
            _ => None,
        },
        None => None,
    }
}

} // verus!
