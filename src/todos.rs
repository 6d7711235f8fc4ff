//! Todos of the placeholder data set.

use vstd::prelude::*;

use crate::codec::{
    decode_list, decode_list_view, distinct_names, lemma_present_field, opt_int, opt_int_view,
    views, Entry, JsonRecord, ObjectBuilder,
};
use crate::fixtures::{has_id, is_last_with_id, last_with_id, Identified};
use crate::json::{
    as_bool, as_i32, as_opt_i32, as_str, field_of, get_bool, get_i32, get_opt_i32, get_str,
    lemma_object_view, Json, JsonV,
};

verus! {

/// A task of a user.
#[derive(Debug, Clone, PartialEq)]
pub struct Todo {
    pub user_id: i32,
    pub id: Option<i32>,
    pub title: String,
    pub completed: bool,
}

/// The value of a `Todo`, its texts as sequences of characters.
pub struct TodoV {
    pub user_id: i32,
    pub id: Option<i32>,
    pub title: Seq<char>,
    pub completed: bool,
}

impl View for Todo {
    type V = TodoV;

    open spec fn view(&self) -> TodoV {
        TodoV {
            user_id: self.user_id,
            id: self.id,
            title: self.title@,
            completed: self.completed,
        }
    }
}

impl JsonRecord for Todo {
    open spec fn entries(v: TodoV) -> Seq<Entry> {
        seq![
            ("userId"@, Some(JsonV::Int(v.user_id as int))),
            ("id"@, opt_int_view(v.id)),
            ("title"@, Some(JsonV::Str(v.title))),
            ("completed"@, Some(JsonV::Bool(v.completed))),
        ]
    }

    open spec fn decode_view(j: JsonV) -> Option<TodoV> {
        match j {
            JsonV::Object(fs) => {
                let user_id = as_i32(field_of(fs, "userId"@));
                let id = as_opt_i32(field_of(fs, "id"@));
                let title = as_str(field_of(fs, "title"@));
                let completed = as_bool(field_of(fs, "completed"@));
                if user_id is Some && id is Some && title is Some && completed is Some {
                    Some(TodoV {
                        user_id: user_id->0,
                        id: id->0,
                        title: title->0,
                        completed: completed->0,
                    })
                } else {
                    None
                }
            },
            _ => None,
        }
    }

    proof fn lemma_distinct_names(v: TodoV) {
        reveal_strlit("userId");
        reveal_strlit("id");
        reveal_strlit("title");
        reveal_strlit("completed");
        assert("userId"@.len() == 6 && "id"@.len() == 2 && "title"@.len() == 5 && "completed"@.len() == 9);
        assert(distinct_names(Self::entries(v)));
    }

    proof fn lemma_round_trip(v: TodoV) {
        Self::lemma_distinct_names(v);
        lemma_present_field(Self::entries(v), 0);
        lemma_present_field(Self::entries(v), 1);
        lemma_present_field(Self::entries(v), 2);
        lemma_present_field(Self::entries(v), 3);
    }

    fn to_json(&self) -> (r: Json) {
        let mut o = ObjectBuilder::new();
        o.field("userId", Json::Int(self.user_id as i64));
        o.opt_field("id", opt_int(self.id));
        o.field("title", Json::Str(self.title.clone()));
        o.field("completed", Json::Bool(self.completed));
        assert(o.entries() =~= Self::entries(self@));
        o.finish()
    }

    fn from_json(j: &Json) -> (r: Option<Todo>) {
        match j {
            Json::Object(fields) => {
                proof {
                    lemma_object_view(*fields);
                }
                let user_id = get_i32(fields, "userId")?;
                let id = get_opt_i32(fields, "id")?;
                let title = get_str(fields, "title")?;
                let completed = get_bool(fields, "completed")?;
                Some(Todo { user_id, id, title, completed })
            },
            _ => None,
        }
    }
}

impl Identified for Todo {
    open spec fn spec_id(&self) -> Option<i32> {
        self.id
    }

    fn record_id(&self) -> (r: Option<i32>) {
        self.id
    }
}

/// The todos of a fixture document, in document order. A document that
/// is no array of todos is a broken fixture, which callers rule out.
pub fn get_all(document: &Json) -> (r: Vec<Todo>)
    requires
        decode_list_view::<Todo>(document@) is Some,
    ensures
        decode_list_view::<Todo>(document@) == Some(views(r@)),
{
    decode_list(document).unwrap()
}

/// The todo of `todos` whose identifier is `id`: the last such one, where
/// several carry it. A fixture set without it is a broken fixture, which
/// callers rule out.
pub fn get(todos: &Vec<Todo>, id: i32) -> (r: &Todo)
    requires
        has_id(todos@, id),
    ensures
        exists|i: int| is_last_with_id(todos@, id, i) && todos@[i] == *r,
{
    let i = last_with_id(todos, id).unwrap();
    &todos[i]
}

} // verus!
