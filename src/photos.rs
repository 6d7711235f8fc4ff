//! Photos of the placeholder data set.

use vstd::prelude::*;

use crate::codec::{
    decode_list, decode_list_view, distinct_names, lemma_present_field, opt_int, opt_int_view,
    views, Entry, JsonRecord, ObjectBuilder,
};
use crate::fixtures::{has_id, is_last_with_id, last_with_id, Identified};
use crate::json::{
    as_i32, as_opt_i32, as_str, field_of, get_i32, get_opt_i32, get_str, lemma_object_view, Json,
    JsonV,
};

verus! {

/// A photo of an album.
#[derive(Debug, Clone, PartialEq)]
pub struct Photo {
    pub album_id: i32,
    pub id: Option<i32>,
    pub title: String,
    pub url: String,
    pub thumbnail_url: String,
}

/// The value of a `Photo`, its texts as sequences of characters.
pub struct PhotoV {
    pub album_id: i32,
    pub id: Option<i32>,
    pub title: Seq<char>,
    pub url: Seq<char>,
    pub thumbnail_url: Seq<char>,
}

impl View for Photo {
    type V = PhotoV;

    open spec fn view(&self) -> PhotoV {
        PhotoV {
            album_id: self.album_id,
            id: self.id,
            title: self.title@,
            url: self.url@,
            thumbnail_url: self.thumbnail_url@,
        }
    }
}

impl JsonRecord for Photo {
    open spec fn entries(v: PhotoV) -> Seq<Entry> {
        seq![
            ("albumId"@, Some(JsonV::Int(v.album_id as int))),
            ("id"@, opt_int_view(v.id)),
            ("title"@, Some(JsonV::Str(v.title))),
            ("url"@, Some(JsonV::Str(v.url))),
            ("thumbnailUrl"@, Some(JsonV::Str(v.thumbnail_url))),
        ]
    }

    open spec fn decode_view(j: JsonV) -> Option<PhotoV> {
        match j {
            JsonV::Object(fs) => {
                let album_id = as_i32(field_of(fs, "albumId"@));
                let id = as_opt_i32(field_of(fs, "id"@));
                let title = as_str(field_of(fs, "title"@));
                let url = as_str(field_of(fs, "url"@));
                let thumbnail_url = as_str(field_of(fs, "thumbnailUrl"@));
                if album_id is Some && id is Some && title is Some && url is Some && thumbnail_url is Some {
                    Some(PhotoV {
                        album_id: album_id->0,
                        id: id->0,
                        title: title->0,
                        url: url->0,
                        thumbnail_url: thumbnail_url->0,
                    })
                } else {
                    None
                }
            },
            _ => None,
        }
    }

    proof fn lemma_distinct_names(v: PhotoV) {
        reveal_strlit("albumId");
        reveal_strlit("id");
        reveal_strlit("title");
        reveal_strlit("url");
        reveal_strlit("thumbnailUrl");
        assert("albumId"@.len() == 7 && "id"@.len() == 2 && "title"@.len() == 5 && "url"@.len() == 3 && "thumbnailUrl"@.len() == 12);
        assert(distinct_names(Self::entries(v)));
    }

    proof fn lemma_round_trip(v: PhotoV) {
        Self::lemma_distinct_names(v);
        lemma_present_field(Self::entries(v), 0);
        lemma_present_field(Self::entries(v), 1);
        lemma_present_field(Self::entries(v), 2);
        lemma_present_field(Self::entries(v), 3);
        lemma_present_field(Self::entries(v), 4);
    }

    fn to_json(&self) -> (r: Json) {
        let mut o = ObjectBuilder::new();
        o.field("albumId", Json::Int(self.album_id as i64));
        o.opt_field("id", opt_int(self.id));
        o.field("title", Json::Str(self.title.clone()));
        o.field("url", Json::Str(self.url.clone()));
        o.field("thumbnailUrl", Json::Str(self.thumbnail_url.clone()));
        assert(o.entries() =~= Self::entries(self@));
        o.finish()
    }

    fn from_json(j: &Json) -> (r: Option<Photo>) {
        match j {
            Json::Object(fields) => {
                proof {
                    lemma_object_view(*fields);
                }
                let album_id = get_i32(fields, "albumId")?;
                let id = get_opt_i32(fields, "id")?;
                let title = get_str(fields, "title")?;
                let url = get_str(fields, "url")?;
                let thumbnail_url = get_str(fields, "thumbnailUrl")?;
                Some(Photo { album_id, id, title, url, thumbnail_url })
            },
            _ => None,
        }
    }
}

impl Identified for Photo {
    open spec fn spec_id(&self) -> Option<i32> {
        self.id
    }

    fn record_id(&self) -> (r: Option<i32>) {
        self.id
    }
}

/// The photos of a fixture document, in document order. A document that
/// is no array of photos is a broken fixture, which callers rule out.
pub fn get_all(document: &Json) -> (r: Vec<Photo>)
    requires
        decode_list_view::<Photo>(document@) is Some,
    ensures
        decode_list_view::<Photo>(document@) == Some(views(r@)),
{
    decode_list(document).unwrap()
}

/// The photo of `photos` whose identifier is `id`: the last such one, where
/// several carry it. A fixture set without it is a broken fixture, which
/// callers rule out.
pub fn get(photos: &Vec<Photo>, id: i32) -> (r: &Photo)
    requires
        has_id(photos@, id),
    ensures
        exists|i: int| is_last_with_id(photos@, id, i) && photos@[i] == *r,
{
    let i = last_with_id(photos, id).unwrap();
    &photos[i]
}

} // verus!
