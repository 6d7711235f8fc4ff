//! Albums of the placeholder data set.

use vstd::prelude::*;

use crate::codec::{
    decode_list, decode_list_view, distinct_names, lemma_present_field, opt_int, opt_int_view,
    views, Entry, JsonRecord, ObjectBuilder,
};
use crate::fixtures::{has_id, is_last_with_id, last_with_id, Identified};
use crate::json::{
    as_i32, as_opt_i32, as_str, field_of, get_i32, get_opt_i32, get_str, lemma_object_view, Json,
    JsonV,
};

verus! {

/// An album: its owner, its identifier where it has one, and its title.
#[derive(Debug, Clone, PartialEq)]
pub struct Album {
    pub user_id: i32,
    pub id: Option<i32>,
    pub title: String,
}

/// The value of a `Album`, its texts as sequences of characters.
pub struct AlbumV {
    pub user_id: i32,
    pub id: Option<i32>,
    pub title: Seq<char>,
}

impl View for Album {
    type V = AlbumV;

    open spec fn view(&self) -> AlbumV {
        AlbumV {
            user_id: self.user_id,
            id: self.id,
            title: self.title@,
        }
    }
}

impl JsonRecord for Album {
    open spec fn entries(v: AlbumV) -> Seq<Entry> {
        seq![
            ("userId"@, Some(JsonV::Int(v.user_id as int))),
            ("id"@, opt_int_view(v.id)),
            ("title"@, Some(JsonV::Str(v.title))),
        ]
    }

    open spec fn decode_view(j: JsonV) -> Option<AlbumV> {
        match j {
            JsonV::Object(fs) => {
                let user_id = as_i32(field_of(fs, "userId"@));
                let id = as_opt_i32(field_of(fs, "id"@));
                let title = as_str(field_of(fs, "title"@));
                if user_id is Some && id is Some && title is Some {
                    Some(AlbumV {
                        user_id: user_id->0,
                        id: id->0,
                        title: title->0,
                    })
                } else {
                    None
                }
            },
            _ => None,
        }
    }

    proof fn lemma_distinct_names(v: AlbumV) {
        reveal_strlit("userId");
        reveal_strlit("id");
        reveal_strlit("title");
        assert("userId"@.len() == 6 && "id"@.len() == 2 && "title"@.len() == 5);
        assert(distinct_names(Self::entries(v)));
    }

    proof fn lemma_round_trip(v: AlbumV) {
        Self::lemma_distinct_names(v);
        lemma_present_field(Self::entries(v), 0);
        lemma_present_field(Self::entries(v), 1);
        lemma_present_field(Self::entries(v), 2);
    }

    fn to_json(&self) -> (r: Json) {
        let mut o = ObjectBuilder::new();
        o.field("userId", Json::Int(self.user_id as i64));
        o.opt_field("id", opt_int(self.id));
        o.field("title", Json::Str(self.title.clone()));
        assert(o.entries() =~= Self::entries(self@));
        o.finish()
    }

    fn from_json(j: &Json) -> (r: Option<Album>) {
        match j {
            Json::Object(fields) => {
                proof {
                    lemma_object_view(*fields);
                }
                let user_id = get_i32(fields, "userId")?;
                let id = get_opt_i32(fields, "id")?;
                let title = get_str(fields, "title")?;
                Some(Album { user_id, id, title })
            },
            _ => None,
        }
    }
}

impl Identified for Album {
    open spec fn spec_id(&self) -> Option<i32> {
        self.id
    }

    fn record_id(&self) -> (r: Option<i32>) {
        self.id
    }
}

/// The albums of a fixture document, in document order. A document that
/// is no array of albums is a broken fixture, which callers rule out.
pub fn get_all(document: &Json) -> (r: Vec<Album>)
    requires
        decode_list_view::<Album>(document@) is Some,
    ensures
        decode_list_view::<Album>(document@) == Some(views(r@)),
{
    decode_list(document).unwrap()
}

/// The album of `albums` whose identifier is `id`: the last such one, where
/// several carry it. A fixture set without it is a broken fixture, which
/// callers rule out.
pub fn get(albums: &Vec<Album>, id: i32) -> (r: &Album)
    requires
        has_id(albums@, id),
    ensures
        exists|i: int| is_last_with_id(albums@, id, i) && albums@[i] == *r,
{
    let i = last_with_id(albums, id).unwrap();
    &albums[i]
}

} // verus!
