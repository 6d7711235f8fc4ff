//! Comments of the placeholder data set.

use vstd::prelude::*;

use crate::codec::{
    decode_list, decode_list_view, distinct_names, lemma_present_field, opt_int, opt_int_view,
    views, Entry, JsonRecord, ObjectBuilder,
};
use crate::fixtures::{has_id, is_last_with_id, last_with_id, Identified};
use crate::json::{
    as_i32, as_opt_i32, as_str, field_of, get_i32, get_opt_i32, get_str, lemma_object_view, Json,
    JsonV,
};

verus! {

/// A comment on a post.
#[derive(Debug, Clone, PartialEq)]
pub struct Comment {
    pub post_id: i32,
    pub id: Option<i32>,
    pub name: String,
    pub email: String,
    pub body: String,
}

/// The value of a `Comment`, its texts as sequences of characters.
pub struct CommentV {
    pub post_id: i32,
    pub id: Option<i32>,
    pub name: Seq<char>,
    pub email: Seq<char>,
    pub body: Seq<char>,
}

impl View for Comment {
    type V = CommentV;

    open spec fn view(&self) -> CommentV {
        CommentV {
            post_id: self.post_id,
            id: self.id,
            name: self.name@,
            email: self.email@,
            body: self.body@,
        }
    }
}

impl JsonRecord for Comment {
    open spec fn entries(v: CommentV) -> Seq<Entry> {
        seq![
            ("postId"@, Some(JsonV::Int(v.post_id as int))),
            ("id"@, opt_int_view(v.id)),
            ("name"@, Some(JsonV::Str(v.name))),
            ("email"@, Some(JsonV::Str(v.email))),
            ("body"@, Some(JsonV::Str(v.body))),
        ]
    }

    open spec fn decode_view(j: JsonV) -> Option<CommentV> {
        match j {
            JsonV::Object(fs) => {
                let post_id = as_i32(field_of(fs, "postId"@));
                let id = as_opt_i32(field_of(fs, "id"@));
                let name = as_str(field_of(fs, "name"@));
                let email = as_str(field_of(fs, "email"@));
                let body = as_str(field_of(fs, "body"@));
                if post_id is Some && id is Some && name is Some && email is Some && body is Some {
                    Some(CommentV {
                        post_id: post_id->0,
                        id: id->0,
                        name: name->0,
                        email: email->0,
                        body: body->0,
                    })
                } else {
                    None
                }
            },
            _ => None,
        }
    }

    proof fn lemma_distinct_names(v: CommentV) {
        reveal_strlit("postId");
        reveal_strlit("id");
        reveal_strlit("name");
        reveal_strlit("email");
        reveal_strlit("body");
        assert("postId"@.len() == 6 && "id"@.len() == 2 && "name"@.len() == 4 && "email"@.len() == 5 && "body"@.len() == 4);
        assert("name"@[0] == 'n' && "body"@[0] == 'b');
        assert(distinct_names(Self::entries(v)));
    }

    proof fn lemma_round_trip(v: CommentV) {
        Self::lemma_distinct_names(v);
        lemma_present_field(Self::entries(v), 0);
        lemma_present_field(Self::entries(v), 1);
        lemma_present_field(Self::entries(v), 2);
        lemma_present_field(Self::entries(v), 3);
        lemma_present_field(Self::entries(v), 4);
    }

    fn to_json(&self) -> (r: Json) {
        let mut o = ObjectBuilder::new();
        o.field("postId", Json::Int(self.post_id as i64));
        o.opt_field("id", opt_int(self.id));
        o.field("name", Json::Str(self.name.clone()));
        o.field("email", Json::Str(self.email.clone()));
        o.field("body", Json::Str(self.body.clone()));
        assert(o.entries() =~= Self::entries(self@));
        o.finish()
    }

    fn from_json(j: &Json) -> (r: Option<Comment>) {
        match j {
            Json::Object(fields) => {
                proof {
                    lemma_object_view(*fields);
                }
                let post_id = get_i32(fields, "postId")?;
                let id = get_opt_i32(fields, "id")?;
                let name = get_str(fields, "name")?;
                let email = get_str(fields, "email")?;
                let body = get_str(fields, "body")?;
                Some(Comment { post_id, id, name, email, body })
            },
            _ => None,
        }
    }
}

impl Identified for Comment {
    open spec fn spec_id(&self) -> Option<i32> {
        self.id
    }

    fn record_id(&self) -> (r: Option<i32>) {
        self.id
    }
}

/// The comments of a fixture document, in document order. A document that
/// is no array of comments is a broken fixture, which callers rule out.
pub fn get_all(document: &Json) -> (r: Vec<Comment>)
    requires
        decode_list_view::<Comment>(document@) is Some,
    ensures
        decode_list_view::<Comment>(document@) == Some(views(r@)),
{
    decode_list(document).unwrap()
}

/// The comment of `comments` whose identifier is `id`: the last such one, where
/// several carry it. A fixture set without it is a broken fixture, which
/// callers rule out.
pub fn get(comments: &Vec<Comment>, id: i32) -> (r: &Comment)
    requires
        has_id(comments@, id),
    ensures
        exists|i: int| is_last_with_id(comments@, id, i) && comments@[i] == *r,
{
    let i = last_with_id(comments, id).unwrap();
    &comments[i]
}

} // verus!
