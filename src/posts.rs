//! Posts of the placeholder data set.

use vstd::prelude::*;

use crate::codec::{
    decode_list, decode_list_view, distinct_names, lemma_present_field, opt_int, opt_int_view,
    views, Entry, JsonRecord, ObjectBuilder,
};
use crate::fixtures::{has_id, is_last_with_id, last_with_id, Identified};
use crate::json::{
    as_opt_i32, as_str, field_of, get_opt_i32, get_str, lemma_object_view, Json, JsonV,
};

verus! {

/// A post: its identifier and author are absent on a post not yet stored.
#[derive(Debug, Clone, PartialEq)]
pub struct Post {
    pub id: Option<i32>,
    pub title: String,
    pub body: String,
    pub user_id: Option<i32>,
}

/// The value of a `Post`, its texts as sequences of characters.
pub struct PostV {
    pub id: Option<i32>,
    pub title: Seq<char>,
    pub body: Seq<char>,
    pub user_id: Option<i32>,
}

impl View for Post {
    type V = PostV;

    open spec fn view(&self) -> PostV {
        PostV {
            id: self.id,
            title: self.title@,
            body: self.body@,
            user_id: self.user_id,
        }
    }
}

impl JsonRecord for Post {
    open spec fn entries(v: PostV) -> Seq<Entry> {
        seq![
            ("id"@, opt_int_view(v.id)),
            ("title"@, Some(JsonV::Str(v.title))),
            ("body"@, Some(JsonV::Str(v.body))),
            ("userId"@, opt_int_view(v.user_id)),
        ]
    }

    open spec fn decode_view(j: JsonV) -> Option<PostV> {
        match j {
            JsonV::Object(fs) => {
                let id = as_opt_i32(field_of(fs, "id"@));
                let title = as_str(field_of(fs, "title"@));
                let body = as_str(field_of(fs, "body"@));
                let user_id = as_opt_i32(field_of(fs, "userId"@));
                if id is Some && title is Some && body is Some && user_id is Some {
                    Some(PostV {
                        id: id->0,
                        title: title->0,
                        body: body->0,
                        user_id: user_id->0,
                    })
                } else {
                    None
                }
            },
            _ => None,
        }
    }

    proof fn lemma_distinct_names(v: PostV) {
        reveal_strlit("id");
        reveal_strlit("title");
        reveal_strlit("body");
        reveal_strlit("userId");
        assert("id"@.len() == 2 && "title"@.len() == 5 && "body"@.len() == 4 && "userId"@.len() == 6);
        assert(distinct_names(Self::entries(v)));
    }

    proof fn lemma_round_trip(v: PostV) {
        Self::lemma_distinct_names(v);
        lemma_present_field(Self::entries(v), 0);
        lemma_present_field(Self::entries(v), 1);
        lemma_present_field(Self::entries(v), 2);
        lemma_present_field(Self::entries(v), 3);
    }

    fn to_json(&self) -> (r: Json) {
        let mut o = ObjectBuilder::new();
        o.opt_field("id", opt_int(self.id));
        o.field("title", Json::Str(self.title.clone()));
        o.field("body", Json::Str(self.body.clone()));
        o.opt_field("userId", opt_int(self.user_id));
        assert(o.entries() =~= Self::entries(self@));
        o.finish()
    }

    fn from_json(j: &Json) -> (r: Option<Post>) {
        match j {
            Json::Object(fields) => {
                proof {
                    lemma_object_view(*fields);
                }
                let id = get_opt_i32(fields, "id")?;
                let title = get_str(fields, "title")?;
                let body = get_str(fields, "body")?;
                let user_id = get_opt_i32(fields, "userId")?;
                Some(Post { id, title, body, user_id })
            },
            _ => None,
        }
    }
}

impl Identified for Post {
    open spec fn spec_id(&self) -> Option<i32> {
        self.id
    }

    fn record_id(&self) -> (r: Option<i32>) {
        self.id
    }
}

impl Post {
    /// The post as shown to a reader: `Post: title = ` and its title.
    pub fn display_text(&self) -> (r: String)
        ensures
            r@ == "Post: title = "@ + self.title@,
    {
        "Post: title = ".to_owned().concat(self.title.as_str())
    }
}

/// The posts of a fixture document, in document order. A document that
/// is no array of posts is a broken fixture, which callers rule out.
pub fn get_all(document: &Json) -> (r: Vec<Post>)
    requires
        decode_list_view::<Post>(document@) is Some,
    ensures
        decode_list_view::<Post>(document@) == Some(views(r@)),
{
    decode_list(document).unwrap()
}

/// The post of `posts` whose identifier is `id`: the last such one, where
/// several carry it. A fixture set without it is a broken fixture, which
/// callers rule out.
pub fn get(posts: &Vec<Post>, id: i32) -> (r: &Post)
    requires
        has_id(posts@, id),
    ensures
        exists|i: int| is_last_with_id(posts@, id, i) && posts@[i] == *r,
{
    let i = last_with_id(posts, id).unwrap();
    &posts[i]
}

} // verus!
