use vstd::prelude::*;

use crate::json::{
    field_of, fields_view, has_key, items_view, lemma_array_view, lemma_object_view, Json, JsonV,
};

verus! {

/// One field of a record's document: its name, and its value, or `None` for
/// an optional field that is absent.
pub type Entry = (Seq<char>, Option<JsonV>);

/// The fields of a document: the entries that have a value, in order.
pub open spec fn present(entries: Seq<Entry>) -> Seq<(Seq<char>, JsonV)>
    decreases entries.len(),
{
    if entries.len() == 0 {
        seq![]
    } else {
        let last = entries.last();
        let rest = present(entries.drop_last());
        match last.1 {
            Some(x) => rest.push((last.0, x)),
            None => rest,
        }
    }
}

/// Whether no two entries share a name.
pub open spec fn distinct_names(entries: Seq<Entry>) -> bool {
    forall|i: int, j: int|
        0 <= i < j < entries.len() ==> #[trigger] entries[i].0 != #[trigger] entries[j].0
}

/// A record with a declared JSON form.
///
/// `entries` lists the fields of a record's document; `decode_view` is the
/// record that a document reads as, if any.
pub trait JsonRecord: View + Sized {
    spec fn entries(v: Self::V) -> Seq<Entry>;

    spec fn decode_view(j: JsonV) -> Option<Self::V>;

    /// No two fields of the document share a name.
    proof fn lemma_distinct_names(v: Self::V)
        ensures
            distinct_names(Self::entries(v)),
    ;

    /// Decoding the document of a record gives the record back.
    proof fn lemma_round_trip(v: Self::V)
        ensures
            Self::decode_view(JsonV::Object(present(Self::entries(v)))) == Some(v),
    ;

    fn to_json(&self) -> (r: Json)
        ensures
            r@ == JsonV::Object(present(Self::entries(self@))),
    ;

    fn from_json(j: &Json) -> (r: Option<Self>)
        ensures
            r is Some <==> Self::decode_view(j@) is Some,
            r is Some ==> Self::decode_view(j@) == Some(r->0@),
    ;
}

/// The document that a record is written as.
pub open spec fn encode_view<T: JsonRecord>(v: T::V) -> JsonV {
    JsonV::Object(present(T::entries(v)))
}

proof fn lemma_present_names(entries: Seq<Entry>, k: int)
    requires
        0 <= k < present(entries).len(),
    ensures
        exists|i: int|
            0 <= i < entries.len() && #[trigger] entries[i].0 == present(entries)[k].0
                && entries[i].1 == Some(present(entries)[k].1),
    decreases entries.len(),
{
    let rest = present(entries.drop_last());
    if k < rest.len() {
        lemma_present_names(entries.drop_last(), k);
        let i = choose|i: int|
            0 <= i < entries.drop_last().len() && #[trigger] entries.drop_last()[i].0 == rest[k].0
                && entries.drop_last()[i].1 == Some(rest[k].1);
        assert(entries[i] == entries.drop_last()[i]);
    } else {
        assert(entries[entries.len() - 1] == entries.last());
    }
}

/// In a document whose names are distinct, each entry is found by its name:
/// with its value where it has one, and not at all where it has none.
pub proof fn lemma_present_field(entries: Seq<Entry>, i: int)
    requires
        distinct_names(entries),
        0 <= i < entries.len(),
    ensures
        field_of(present(entries), entries[i].0) == entries[i].1,
    decreases entries.len(),
{
    let key = entries[i].0;
    let init = entries.drop_last();
    let rest = present(init);
    assert(distinct_names(init));
    if i < entries.len() - 1 {
        lemma_present_field(init, i);
        assert(init[i] == entries[i]);
        lemma_field_of_append(rest, key, entries.last());
    } else {
        assert forall|k: int| 0 <= k < rest.len() implies #[trigger] rest[k].0 != key by {
            lemma_present_names(init, k);
        }
        lemma_field_of_none(rest, key);
        match entries.last().1 {
            Some(x) => lemma_field_of_append_found(rest, key, x),
            None => {},
        }
    }
}

/// A name that no entry carries is found nowhere in the document.
pub proof fn lemma_absent_name(entries: Seq<Entry>, key: Seq<char>)
    requires
        forall|i: int| 0 <= i < entries.len() ==> #[trigger] entries[i].0 != key,
    ensures
        field_of(present(entries), key) is None,
{
    let fields = present(entries);
    assert forall|k: int| 0 <= k < fields.len() implies #[trigger] fields[k].0 != key by {
        lemma_present_names(entries, k);
    }
    lemma_field_of_none(fields, key);
}

proof fn lemma_field_of_none(fields: Seq<(Seq<char>, JsonV)>, key: Seq<char>)
    requires
        forall|k: int| 0 <= k < fields.len() ==> #[trigger] fields[k].0 != key,
    ensures
        field_of(fields, key) is None,
    decreases fields.len(),
{
    if fields.len() > 0 {
        assert(fields[0].0 != key);
        lemma_field_of_none(fields.drop_first(), key);
    }
}

proof fn lemma_field_of_append_found(fields: Seq<(Seq<char>, JsonV)>, key: Seq<char>, x: JsonV)
    requires
        field_of(fields, key) is None,
    ensures
        field_of(fields.push((key, x)), key) == Some(x),
    decreases fields.len(),
{
    if fields.len() > 0 {
        assert(fields.push((key, x)).drop_first() =~= fields.drop_first().push((key, x)));
        lemma_field_of_append_found(fields.drop_first(), key, x);
    }
}

/// A field appended under another name does not change what a name finds;
/// nor does one appended under the same name, where the name is found already.
proof fn lemma_field_of_append(fields: Seq<(Seq<char>, JsonV)>, key: Seq<char>, last: Entry)
    requires
        last.0 != key || field_of(fields, key) is Some,
    ensures
        field_of(
            match last.1 {
                Some(x) => fields.push((last.0, x)),
                None => fields,
            },
            key,
        ) == field_of(fields, key),
    decreases fields.len(),
{
    match last.1 {
        Some(x) => {
            if fields.len() == 0 {
                assert(fields.push((last.0, x)).drop_first() =~= fields);
            } else {
                assert(fields.push((last.0, x)).drop_first() =~= fields.drop_first().push((last.0, x)));
                if fields[0].0 != key {
                    lemma_field_of_append(fields.drop_first(), key, last);
                }
            }
        },
        None => {},
    }
}

/// The document of a record holds no key for an optional field that is
/// absent: no `null` is written for it.
pub proof fn lemma_absent_omitted<T: JsonRecord>(v: T::V, i: int)
    requires
        0 <= i < T::entries(v).len(),
        T::entries(v)[i].1 is None,
    ensures
        !has_key(encode_view::<T>(v), T::entries(v)[i].0),
{
    let entries = T::entries(v);
    let fs = present(entries);
    T::lemma_distinct_names(v);
    if has_key(encode_view::<T>(v), entries[i].0) {
        let k = choose|k: int| 0 <= k < fs.len() && #[trigger] fs[k].0 == entries[i].0;
        lemma_present_names(entries, k);
    }
}

/// The record that an optional value reads as, if any.
pub open spec fn as_record<T: JsonRecord>(v: Option<JsonV>) -> Option<T::V> {
    match v {
        Some(j) => T::decode_view(j),
        None => None,
    }
}

/// The views of a sequence of values.
pub open spec fn views<T: View>(s: Seq<T>) -> Seq<T::V> {
    s.map_values(|x: T| x@)
}

/// The document of a sequence of records: an array of their documents.
pub open spec fn encode_list_view<T: JsonRecord>(vs: Seq<T::V>) -> JsonV {
    JsonV::Array(vs.map_values(|v: T::V| encode_view::<T>(v)))
}

/// The records that a document reads as: an array each of whose items reads
/// as a record.
pub open spec fn decode_list_view<T: JsonRecord>(j: JsonV) -> Option<Seq<T::V>> {
    match j {
        JsonV::Array(xs) => if forall|i: int|
            0 <= i < xs.len() ==> #[trigger] T::decode_view(xs[i]) is Some {
            Some(xs.map_values(|x: JsonV| T::decode_view(x)->0))
        } else {
            None
        },
        _ => None,
    }
}

/// Decoding the document of a sequence of records gives the sequence back.
pub proof fn lemma_list_round_trip<T: JsonRecord>(vs: Seq<T::V>)
    ensures
        decode_list_view::<T>(encode_list_view::<T>(vs)) == Some(vs),
{
    let xs = vs.map_values(|v: T::V| encode_view::<T>(v));
    assert forall|i: int| 0 <= i < xs.len() implies #[trigger] T::decode_view(xs[i]) == Some(
        vs[i],
    ) by {
        T::lemma_round_trip(vs[i]);
    }
    assert(xs.map_values(|x: JsonV| T::decode_view(x)->0) =~= vs);
}

/// The document of a sequence of records.
pub fn encode_list<T: JsonRecord>(records: &Vec<T>) -> (r: Json)
    ensures
        r@ == encode_list_view::<T>(views(records@)),
{
    let mut items: Vec<Json> = Vec::new();
    let mut i: usize = 0;
    while i < records.len()
        invariant
            i <= records@.len(),
            items@.len() == i,
            forall|k: int| 0 <= k < i ==> #[trigger] items@[k]@ == encode_view::<T>(records@[k]@),
        decreases records@.len() - i,
    {
        items.push(records[i].to_json());
        i = i + 1;
    }
    proof {
        lemma_array_view(items);
        assert(items_view(items@) =~= views(records@).map_values(|v: T::V| encode_view::<T>(v)));
    }
    Json::Array(items)
}

/// The records that a document reads as, if it is an array of records.
pub fn decode_list<T: JsonRecord>(j: &Json) -> (r: Option<Vec<T>>)
    ensures
        r is Some <==> decode_list_view::<T>(j@) is Some,
        r is Some ==> decode_list_view::<T>(j@) == Some(views(r->0@)),
{
    match j {
        Json::Array(items) => {
            proof {
                lemma_array_view(*items);
            }
            let ghost xs = items_view(items@);
            let mut out: Vec<T> = Vec::new();
            let mut i: usize = 0;
            while i < items.len()
                invariant
                    i <= items@.len(),
                    xs == items_view(items@),
                    j@ == JsonV::Array(xs),
                    forall|k: int| 0 <= k < i ==> #[trigger] T::decode_view(xs[k]) is Some,
                    out@.len() == i,
                    forall|k: int| 0 <= k < i ==> T::decode_view(xs[k]) == Some(#[trigger] out@[k]@),
                decreases items@.len() - i,
            {
                match T::from_json(&items[i]) {
                    Some(record) => out.push(record),
                    None => {
                        assert(xs[i as int] == items@[i as int]@);
                        assert(T::decode_view(xs[i as int]) is None);
                        return None;
                    },
                }
                i = i + 1;
            }
            assert(views(out@) =~= xs.map_values(|x: JsonV| T::decode_view(x)->0));
            Some(out)
        },
        _ => None,
    }
}

/// An object under construction, with the entries it was given.
pub struct ObjectBuilder {
    fields: Vec<(String, Json)>,
    entries: Ghost<Seq<Entry>>,
}

impl ObjectBuilder {
    pub closed spec fn entries(&self) -> Seq<Entry> {
        self.entries@
    }

    pub closed spec fn wf(&self) -> bool {
        fields_view(self.fields@) == present(self.entries@)
    }

    pub fn new() -> (r: Self)
        ensures
            r.wf(),
            r.entries() == Seq::<Entry>::empty(),
    {
        let r = ObjectBuilder { fields: Vec::new(), entries: Ghost(Seq::empty()) };
        assert(fields_view(r.fields@) =~= present(r.entries@));
        r
    }

    /// Adds a field that is always written.
    pub fn field(&mut self, key: &str, value: Json)
        requires
            old(self).wf(),
        ensures
            final(self).wf(),
            final(self).entries() == old(self).entries().push((key@, Some(value@))),
    {
        self.opt_field(key, Some(value));
    }

    /// Adds an optional field, written only when it has a value.
    pub fn opt_field(&mut self, key: &str, value: Option<Json>)
        requires
            old(self).wf(),
        ensures
            final(self).wf(),
            final(self).entries() == old(self).entries().push((key@, opt_view(value))),
    {
        let ghost e = self.entries@.push((key@, opt_view(value)));
        assert(e.drop_last() =~= self.entries@);
        match value {
            Some(v) => {
                self.fields.push((key.to_owned(), v));
            },
            None => {},
        }
        self.entries = Ghost(e);
        assert(fields_view(self.fields@) =~= present(self.entries@));
    }

    pub fn finish(self) -> (r: Json)
        requires
            self.wf(),
        ensures
            r@ == JsonV::Object(present(self.entries())),
    {
        proof {
            lemma_object_view(self.fields);
        }
        Json::Object(self.fields)
    }
}

pub open spec fn opt_view(value: Option<Json>) -> Option<JsonV> {
    match value {
        Some(j) => Some(j@),
        None => None,
    }
}

/// The optional entry of an integer.
pub open spec fn opt_int_view(value: Option<i32>) -> Option<JsonV> {
    match value {
        Some(n) => Some(JsonV::Int(n as int)),
        None => None,
    }
}

pub fn opt_int(value: Option<i32>) -> (r: Option<Json>)
    ensures
        opt_view(r) == opt_int_view(value),
{
    match value {
        Some(n) => Some(Json::Int(n as i64)),
        None => None,
    }
}

} // verus!
