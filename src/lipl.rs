//! The lyrics service: its records, and a client that fixes its paths.

use vstd::prelude::*;

use crate::api_client::{
    is_success, ApiClient, ApiClientBuilder, Method, Request, BUILDER_USER_AGENT,
};
use crate::auth::Authentication;
use crate::codec::{
    distinct_names, encode_view, lemma_absent_name, lemma_present_field, opt_view, Entry,
    JsonRecord, ObjectBuilder,
};
use crate::error::Error;
use crate::json::{
    as_str, as_str_array, as_str_rows, field_of, get_field, get_str, lemma_object_view,
    lemma_str_array_round_trip, lemma_str_rows_round_trip, str_array, str_array_view, str_rows,
    str_rows_view, string_rows_view, strings_view, to_str_array, to_str_rows, Json, JsonV,
};

verus! {

/// The abbreviated form of a lyric or a playlist: its identifier and title.
#[derive(Debug, Clone, PartialEq)]
pub struct Summary {
    pub id: String,
    pub title: String,
}

/// The value of a `Summary`, its texts as sequences of characters.
pub struct SummaryV {
    pub id: Seq<char>,
    pub title: Seq<char>,
}

impl View for Summary {
    type V = SummaryV;

    open spec fn view(&self) -> SummaryV {
        SummaryV {
            id: self.id@,
            title: self.title@,
        }
    }
}

impl JsonRecord for Summary {
    open spec fn entries(v: SummaryV) -> Seq<Entry> {
        seq![
            ("id"@, Some(JsonV::Str(v.id))),
            ("title"@, Some(JsonV::Str(v.title))),
        ]
    }

    open spec fn decode_view(j: JsonV) -> Option<SummaryV> {
        match j {
            JsonV::Object(fs) => {
                let id = as_str(field_of(fs, "id"@));
                let title = as_str(field_of(fs, "title"@));
                if id is Some && title is Some {
                    Some(SummaryV {
                        id: id->0,
                        title: title->0,
                    })
                } else {
                    None
                }
            },
            _ => None,
        }
    }

    proof fn lemma_distinct_names(v: SummaryV) {
        reveal_strlit("id");
        reveal_strlit("title");
        assert("id"@.len() == 2 && "title"@.len() == 5);
        assert(distinct_names(Self::entries(v)));
    }

    proof fn lemma_round_trip(v: SummaryV) {
        Self::lemma_distinct_names(v);
        lemma_present_field(Self::entries(v), 0);
        lemma_present_field(Self::entries(v), 1);
    }

    fn to_json(&self) -> (r: Json) {
        let mut o = ObjectBuilder::new();
        o.field("id", Json::Str(self.id.clone()));
        o.field("title", Json::Str(self.title.clone()));
        assert(o.entries() =~= Self::entries(self@));
        o.finish()
    }

    fn from_json(j: &Json) -> (r: Option<Summary>) {
        match j {
            Json::Object(fields) => {
                proof {
                    lemma_object_view(*fields);
                }
                let id = get_str(fields, "id")?;
                let title = get_str(fields, "title")?;
                Some(Summary { id, title })
            },
            _ => None,
        }
    }
}

/// A lyric: identifier, title, and its parts, each a sequence of lines.
#[derive(Debug, Clone, PartialEq)]
pub struct Lyric {
    pub id: String,
    pub title: String,
    pub parts: Vec<Vec<String>>,
}

/// The value of a `Lyric`, its texts as sequences of characters.
pub struct LyricV {
    pub id: Seq<char>,
    pub title: Seq<char>,
    pub parts: Seq<Seq<Seq<char>>>,
}

impl View for Lyric {
    type V = LyricV;

    open spec fn view(&self) -> LyricV {
        LyricV {
            id: self.id@,
            title: self.title@,
            parts: string_rows_view(self.parts@),
        }
    }
}

impl JsonRecord for Lyric {
    open spec fn entries(v: LyricV) -> Seq<Entry> {
        seq![
            ("id"@, Some(JsonV::Str(v.id))),
            ("title"@, Some(JsonV::Str(v.title))),
            ("parts"@, Some(str_rows_view(v.parts))),
        ]
    }

    open spec fn decode_view(j: JsonV) -> Option<LyricV> {
        match j {
            JsonV::Object(fs) => {
                let id = as_str(field_of(fs, "id"@));
                let title = as_str(field_of(fs, "title"@));
                let parts = as_str_rows(field_of(fs, "parts"@));
                if id is Some && title is Some && parts is Some {
                    Some(LyricV {
                        id: id->0,
                        title: title->0,
                        parts: parts->0,
                    })
                } else {
                    None
                }
            },
            _ => None,
        }
    }

    proof fn lemma_distinct_names(v: LyricV) {
        reveal_strlit("id");
        reveal_strlit("title");
        reveal_strlit("parts");
        assert("id"@.len() == 2 && "title"@.len() == 5 && "parts"@.len() == 5);
        assert("title"@[0] == 't' && "parts"@[0] == 'p');
        assert(distinct_names(Self::entries(v)));
    }

    proof fn lemma_round_trip(v: LyricV) {
        Self::lemma_distinct_names(v);
        lemma_present_field(Self::entries(v), 0);
        lemma_present_field(Self::entries(v), 1);
        lemma_present_field(Self::entries(v), 2);
        lemma_str_rows_round_trip(v.parts);
    }

    fn to_json(&self) -> (r: Json) {
        let mut o = ObjectBuilder::new();
        o.field("id", Json::Str(self.id.clone()));
        o.field("title", Json::Str(self.title.clone()));
        o.field("parts", str_rows(&self.parts));
        assert(o.entries() =~= Self::entries(self@));
        o.finish()
    }

    fn from_json(j: &Json) -> (r: Option<Lyric>) {
        match j {
            Json::Object(fields) => {
                proof {
                    lemma_object_view(*fields);
                }
                let id = get_str(fields, "id")?;
                let title = get_str(fields, "title")?;
                let parts = to_str_rows(get_field(fields, "parts")?)?;
                Some(Lyric { id, title, parts })
            },
            _ => None,
        }
    }
}

/// The writable projection of a lyric: all but its identifier.
#[derive(Debug, Clone, PartialEq)]
pub struct LyricPost {
    pub title: String,
    pub parts: Vec<Vec<String>>,
}

/// The value of a `LyricPost`, its texts as sequences of characters.
pub struct LyricPostV {
    pub title: Seq<char>,
    pub parts: Seq<Seq<Seq<char>>>,
}

impl View for LyricPost {
    type V = LyricPostV;

    open spec fn view(&self) -> LyricPostV {
        LyricPostV {
            title: self.title@,
            parts: string_rows_view(self.parts@),
        }
    }
}

impl JsonRecord for LyricPost {
    open spec fn entries(v: LyricPostV) -> Seq<Entry> {
        seq![
            ("title"@, Some(JsonV::Str(v.title))),
            ("parts"@, Some(str_rows_view(v.parts))),
        ]
    }

    open spec fn decode_view(j: JsonV) -> Option<LyricPostV> {
        match j {
            JsonV::Object(fs) => {
                let title = as_str(field_of(fs, "title"@));
                let parts = as_str_rows(field_of(fs, "parts"@));
                if title is Some && parts is Some {
                    Some(LyricPostV {
                        title: title->0,
                        parts: parts->0,
                    })
                } else {
                    None
                }
            },
            _ => None,
        }
    }

    proof fn lemma_distinct_names(v: LyricPostV) {
        reveal_strlit("title");
        reveal_strlit("parts");
        assert("title"@.len() == 5 && "parts"@.len() == 5);
        assert("title"@[0] == 't' && "parts"@[0] == 'p');
        assert(distinct_names(Self::entries(v)));
    }

    proof fn lemma_round_trip(v: LyricPostV) {
        Self::lemma_distinct_names(v);
        lemma_present_field(Self::entries(v), 0);
        lemma_present_field(Self::entries(v), 1);
        lemma_str_rows_round_trip(v.parts);
    }

    fn to_json(&self) -> (r: Json) {
        let mut o = ObjectBuilder::new();
        o.field("title", Json::Str(self.title.clone()));
        o.field("parts", str_rows(&self.parts));
        assert(o.entries() =~= Self::entries(self@));
        o.finish()
    }

    fn from_json(j: &Json) -> (r: Option<LyricPost>) {
        match j {
            Json::Object(fields) => {
                proof {
                    lemma_object_view(*fields);
                }
                let title = get_str(fields, "title")?;
                let parts = to_str_rows(get_field(fields, "parts")?)?;
                Some(LyricPost { title, parts })
            },
            _ => None,
        }
    }
}

/// A playlist: identifier, title, and the identifiers of its lyrics in order.
#[derive(Debug, Clone, PartialEq)]
pub struct Playlist {
    pub id: String,
    pub title: String,
    pub members: Vec<String>,
}

/// The value of a `Playlist`, its texts as sequences of characters.
pub struct PlaylistV {
    pub id: Seq<char>,
    pub title: Seq<char>,
    pub members: Seq<Seq<char>>,
}

impl View for Playlist {
    type V = PlaylistV;

    open spec fn view(&self) -> PlaylistV {
        PlaylistV {
            id: self.id@,
            title: self.title@,
            members: strings_view(self.members@),
        }
    }
}

impl JsonRecord for Playlist {
    open spec fn entries(v: PlaylistV) -> Seq<Entry> {
        seq![
            ("id"@, Some(JsonV::Str(v.id))),
            ("title"@, Some(JsonV::Str(v.title))),
            ("members"@, Some(str_array_view(v.members))),
        ]
    }

    open spec fn decode_view(j: JsonV) -> Option<PlaylistV> {
        match j {
            JsonV::Object(fs) => {
                let id = as_str(field_of(fs, "id"@));
                let title = as_str(field_of(fs, "title"@));
                let members = as_str_array(field_of(fs, "members"@));
                if id is Some && title is Some && members is Some {
                    Some(PlaylistV {
                        id: id->0,
                        title: title->0,
                        members: members->0,
                    })
                } else {
                    None
                }
            },
            _ => None,
        }
    }

    proof fn lemma_distinct_names(v: PlaylistV) {
        reveal_strlit("id");
        reveal_strlit("title");
        reveal_strlit("members");
        assert("id"@.len() == 2 && "title"@.len() == 5 && "members"@.len() == 7);
        assert(distinct_names(Self::entries(v)));
    }

    proof fn lemma_round_trip(v: PlaylistV) {
        Self::lemma_distinct_names(v);
        lemma_present_field(Self::entries(v), 0);
        lemma_present_field(Self::entries(v), 1);
        lemma_present_field(Self::entries(v), 2);
        lemma_str_array_round_trip(v.members);
    }

    fn to_json(&self) -> (r: Json) {
        let mut o = ObjectBuilder::new();
        o.field("id", Json::Str(self.id.clone()));
        o.field("title", Json::Str(self.title.clone()));
        o.field("members", str_array(&self.members));
        assert(o.entries() =~= Self::entries(self@));
        o.finish()
    }

    fn from_json(j: &Json) -> (r: Option<Playlist>) {
        match j {
            Json::Object(fields) => {
                proof {
                    lemma_object_view(*fields);
                }
                let id = get_str(fields, "id")?;
                let title = get_str(fields, "title")?;
                let members = to_str_array(get_field(fields, "members")?)?;
                Some(Playlist { id, title, members })
            },
            _ => None,
        }
    }
}

/// The writable projection of a playlist: all but its identifier.
#[derive(Debug, Clone, PartialEq)]
pub struct PlaylistPost {
    pub title: String,
    pub members: Vec<String>,
}

/// The value of a `PlaylistPost`, its texts as sequences of characters.
pub struct PlaylistPostV {
    pub title: Seq<char>,
    pub members: Seq<Seq<char>>,
}

impl View for PlaylistPost {
    type V = PlaylistPostV;

    open spec fn view(&self) -> PlaylistPostV {
        PlaylistPostV {
            title: self.title@,
            members: strings_view(self.members@),
        }
    }
}

impl JsonRecord for PlaylistPost {
    open spec fn entries(v: PlaylistPostV) -> Seq<Entry> {
        seq![
            ("title"@, Some(JsonV::Str(v.title))),
            ("members"@, Some(str_array_view(v.members))),
        ]
    }

    open spec fn decode_view(j: JsonV) -> Option<PlaylistPostV> {
        match j {
            JsonV::Object(fs) => {
                let title = as_str(field_of(fs, "title"@));
                let members = as_str_array(field_of(fs, "members"@));
                if title is Some && members is Some {
                    Some(PlaylistPostV {
                        title: title->0,
                        members: members->0,
                    })
                } else {
                    None
                }
            },
            _ => None,
        }
    }

    proof fn lemma_distinct_names(v: PlaylistPostV) {
        reveal_strlit("title");
        reveal_strlit("members");
        assert("title"@.len() == 5 && "members"@.len() == 7);
        assert(distinct_names(Self::entries(v)));
    }

    proof fn lemma_round_trip(v: PlaylistPostV) {
        Self::lemma_distinct_names(v);
        lemma_present_field(Self::entries(v), 0);
        lemma_present_field(Self::entries(v), 1);
        lemma_str_array_round_trip(v.members);
    }

    fn to_json(&self) -> (r: Json) {
        let mut o = ObjectBuilder::new();
        o.field("title", Json::Str(self.title.clone()));
        o.field("members", str_array(&self.members));
        assert(o.entries() =~= Self::entries(self@));
        o.finish()
    }

    fn from_json(j: &Json) -> (r: Option<PlaylistPost>) {
        match j {
            Json::Object(fields) => {
                proof {
                    lemma_object_view(*fields);
                }
                let title = get_str(fields, "title")?;
                let members = to_str_array(get_field(fields, "members")?)?;
                Some(PlaylistPost { title, members })
            },
            _ => None,
        }
    }
}

impl Lyric {
    /// The writable projection of this lyric.
    pub fn into_post(self) -> (r: LyricPost)
        ensures
            r@ == (LyricPostV { title: self@.title, parts: self@.parts }),
    {
        LyricPost { title: self.title, parts: self.parts }
    }
}

impl Playlist {
    /// The writable projection of this playlist.
    pub fn into_post(self) -> (r: PlaylistPost)
        ensures
            r@ == (PlaylistPostV { title: self@.title, members: self@.members }),
    {
        PlaylistPost { title: self.title, members: self.members }
    }
}

/// The lyric with identifier `id` and the content of `post`.
pub open spec fn lyric_with_id(id: Seq<char>, post: LyricPostV) -> LyricV {
    LyricV { id, title: post.title, parts: post.parts }
}

/// The playlist with identifier `id` and the content of `post`.
pub open spec fn playlist_with_id(id: Seq<char>, post: PlaylistPostV) -> PlaylistV {
    PlaylistV { id, title: post.title, members: post.members }
}

impl LyricPost {
    /// The lyric with identifier `id` and this content.
    pub fn with_id(self, id: String) -> (r: Lyric)
        ensures
            r@ == lyric_with_id(id@, self@),
    {
        Lyric { id, title: self.title, parts: self.parts }
    }
}

impl PlaylistPost {
    /// The playlist with identifier `id` and this content.
    pub fn with_id(self, id: String) -> (r: Playlist)
        ensures
            r@ == playlist_with_id(id@, self@),
    {
        Playlist { id, title: self.title, members: self.members }
    }
}

/// The lyric that the answer to an upsert of lyric `id` gives back. A body
/// that reads as a full lyric is returned as it is; one that reads only as
/// the writable projection (the body sent, echoed) is returned under the
/// identifier it was sent for. A status other than 2xx fails with
/// `HttpStatus`; a body that is neither with `Decode`.
pub fn upsert_lyric_answer(id: &str, status: u16, body: Option<Json>) -> (r: Result<Lyric, Error>)
    ensures
        !is_success(status) ==> r is Err && r->Err_0 == Error::HttpStatus(status),
        is_success(status) ==> match opt_view(body) {
            Some(j) => match Lyric::decode_view(j) {
                Some(full) => r is Ok && r->Ok_0@ == full,
                None => match LyricPost::decode_view(j) {
                    Some(post) => r is Ok && r->Ok_0@ == lyric_with_id(id@, post),
                    None => r is Err && r->Err_0 == Error::Decode,
                },
            },
            None => r is Err && r->Err_0 == Error::Decode,
        },
{
    if !(200 <= status && status < 300) {
        return Err(Error::HttpStatus(status));
    }
    match body {
        Some(j) => match Lyric::from_json(&j) {
            Some(full) => Ok(full),
            None => match LyricPost::from_json(&j) {
                Some(post) => Ok(post.with_id(id.to_owned())),
                None => Err(Error::Decode),
            },
        },
        None => Err(Error::Decode),
    }
}

/// The playlist that the answer to an upsert of playlist `id` gives back. A body
/// that reads as a full playlist is returned as it is; one that reads only as
/// the writable projection (the body sent, echoed) is returned under the
/// identifier it was sent for. A status other than 2xx fails with
/// `HttpStatus`; a body that is neither with `Decode`.
pub fn upsert_playlist_answer(id: &str, status: u16, body: Option<Json>) -> (r: Result<Playlist, Error>)
    ensures
        !is_success(status) ==> r is Err && r->Err_0 == Error::HttpStatus(status),
        is_success(status) ==> match opt_view(body) {
            Some(j) => match Playlist::decode_view(j) {
                Some(full) => r is Ok && r->Ok_0@ == full,
                None => match PlaylistPost::decode_view(j) {
                    Some(post) => r is Ok && r->Ok_0@ == playlist_with_id(id@, post),
                    None => r is Err && r->Err_0 == Error::Decode,
                },
            },
            None => r is Err && r->Err_0 == Error::Decode,
        },
{
    if !(200 <= status && status < 300) {
        return Err(Error::HttpStatus(status));
    }
    match body {
        Some(j) => match Playlist::from_json(&j) {
            Some(full) => Ok(full),
            None => match PlaylistPost::from_json(&j) {
                Some(post) => Ok(post.with_id(id.to_owned())),
                None => Err(Error::Decode),
            },
        },
        None => Err(Error::Decode),
    }
}

/// An upsert whose body the server echoes back gives back the lyric that was
/// sent: the body sent carries no identifier, so it reads not as a full
/// lyric but as the lyric's projection, and that projection under the
/// lyric's identifier is the lyric.
pub proof fn lemma_upsert_lyric_echo(lyric: LyricV)
    ensures
        Lyric::decode_view(
            encode_view::<LyricPost>(LyricPostV { title: lyric.title, parts: lyric.parts }),
        ) is None,
        LyricPost::decode_view(
            encode_view::<LyricPost>(LyricPostV { title: lyric.title, parts: lyric.parts }),
        ) == Some(LyricPostV { title: lyric.title, parts: lyric.parts }),
        lyric_with_id(lyric.id, LyricPostV { title: lyric.title, parts: lyric.parts }) == lyric,
{
    let post = LyricPostV { title: lyric.title, parts: lyric.parts };
    reveal_strlit("id");
    reveal_strlit("title");
    reveal_strlit("parts");
    assert("id"@.len() == 2 && "title"@.len() == 5 && "parts"@.len() == 5);
    lemma_absent_name(LyricPost::entries(post), "id"@);
    LyricPost::lemma_round_trip(post);
}

/// An upsert whose body the server echoes back gives back the playlist that
/// was sent, as for a lyric.
pub proof fn lemma_upsert_playlist_echo(playlist: PlaylistV)
    ensures
        Playlist::decode_view(
            encode_view::<PlaylistPost>(
                PlaylistPostV { title: playlist.title, members: playlist.members },
            ),
        ) is None,
        PlaylistPost::decode_view(
            encode_view::<PlaylistPost>(
                PlaylistPostV { title: playlist.title, members: playlist.members },
            ),
        ) == Some(PlaylistPostV { title: playlist.title, members: playlist.members }),
        playlist_with_id(
            playlist.id,
            PlaylistPostV { title: playlist.title, members: playlist.members },
        ) == playlist,
{
    let post = PlaylistPostV { title: playlist.title, members: playlist.members };
    reveal_strlit("id");
    reveal_strlit("title");
    reveal_strlit("members");
    assert("id"@.len() == 2 && "title"@.len() == 5 && "members"@.len() == 7);
    lemma_absent_name(PlaylistPost::entries(post), "id"@);
    PlaylistPost::lemma_round_trip(post);
}

/// The two collections of the service.
#[derive(Debug, Clone, Copy, PartialEq, Eq)]
pub enum Collection {
    Lyric,
    Playlist,
}

impl Collection {
    pub open spec fn spec_name(&self) -> Seq<char> {
        match self {
            Collection::Lyric => "lyric"@,
            Collection::Playlist => "playlist"@,
        }
    }

    /// The path of the collection, relative to the client's prefix.
    pub fn name(&self) -> (r: &'static str)
        ensures
            r@ == self.spec_name(),
    {
        match self {
            Collection::Lyric => "lyric",
            Collection::Playlist => "playlist",
        }
    }
}

/// A client of the lyrics service: it plans the requests of each operation
/// on a collection, and leaves the rest to its `ApiClient`.
pub struct LiplApiClient {
    api_client: ApiClient,
}

impl From<ApiClient> for LiplApiClient {
    fn from(api_client: ApiClient) -> (r: Self) {
        LiplApiClient { api_client }
    }
}

impl vstd::std_specs::convert::FromSpecImpl<ApiClient> for LiplApiClient {
    open spec fn obeys_from_spec() -> bool {
        true
    }

    closed spec fn from_spec(api_client: ApiClient) -> Self {
        LiplApiClient { api_client }
    }
}

impl LiplApiClient {
    pub closed spec fn spec_api_client(&self) -> ApiClient {
        self.api_client
    }

    /// A client for the service at `prefix`, with `auth` and
    /// `BUILDER_USER_AGENT`. Fails with
    /// `Transport` where no transport handle can be made.
    pub fn try_new(prefix: &str, auth: Authentication) -> (r: Result<Self, Error>)
        ensures
            r is Ok ==> r->Ok_0.spec_api_client().spec_prefix() == prefix@
                && r->Ok_0.spec_api_client().spec_authentication() == auth
                && r->Ok_0.spec_api_client().spec_user_agent() == BUILDER_USER_AGENT@,
            r is Err ==> r->Err_0 is Transport,
    {
        let mut builder = ApiClientBuilder::new(prefix);
        builder.authentication(auth);
        match builder.build() {
            Ok(api_client) => Ok(LiplApiClient { api_client }),
            Err(e) => Err(e),
        }
    }

    /// The client that the requests are planned and sent with.
    pub fn api_client(&self) -> (r: &ApiClient)
        ensures
            *r == self.spec_api_client(),
    {
        &self.api_client
    }

    /// All records of a collection in full: `GET {collection}?full=true`.
    pub fn get_all_request(&self, collection: Collection) -> (r: Request)
        ensures
            r@ == self.spec_api_client().planned(
                Method::Get,
                collection.spec_name() + "?full=true"@,
                None,
            ),
    {
        let path = collection.name().to_owned().concat("?full=true");
        self.api_client.get_request(path.as_str())
    }

    /// The summaries of a collection: `GET {collection}`.
    pub fn get_summaries_request(&self, collection: Collection) -> (r: Request)
        ensures
            r@ == self.spec_api_client().planned(Method::Get, collection.spec_name(), None),
    {
        self.api_client.get_request(collection.name())
    }

    /// One record of a collection: `GET {collection}/{id}`.
    pub fn get_by_id_request(&self, collection: Collection, id: &str) -> (r: Request)
        ensures
            r@ == self.spec_api_client().planned(
                Method::Get,
                collection.spec_name() + "/"@ + id@,
                None,
            ),
    {
        let path = collection.name().to_owned().concat("/").concat(id);
        self.api_client.get_request(path.as_str())
    }

    /// Removing one record of a collection: `DELETE {collection}/{id}`.
    pub fn delete_request(&self, collection: Collection, id: &str) -> (r: Request)
        ensures
            r@ == self.spec_api_client().planned(
                Method::Delete,
                collection.spec_name() + "/"@ + id@,
                None,
            ),
    {
        let path = collection.name().to_owned().concat("/").concat(id);
        self.api_client.delete_request(path.as_str())
    }

    /// Creating or replacing a lyric: `POST lyric/{id}` with the lyric's
    /// writable projection as body.
    pub fn upsert_lyric_request(&self, lyric: Lyric) -> (r: Request)
        ensures
            r@ == self.spec_api_client().planned(
                Method::Post,
                "lyric/"@ + lyric@.id,
                Some(
                    encode_view::<LyricPost>(
                        LyricPostV { title: lyric@.title, parts: lyric@.parts },
                    ),
                ),
            ),
    {
        let path = "lyric/".to_owned().concat(lyric.id.as_str());
        let body = lyric.into_post().to_json();
        self.api_client.post_request(path.as_str(), body)
    }

    /// Creating or replacing a playlist: `POST playlist/{id}` with the
    /// playlist's writable projection as body.
    pub fn upsert_playlist_request(&self, playlist: Playlist) -> (r: Request)
        ensures
            r@ == self.spec_api_client().planned(
                Method::Post,
                "playlist/"@ + playlist@.id,
                Some(
                    encode_view::<PlaylistPost>(
                        PlaylistPostV { title: playlist@.title, members: playlist@.members },
                    ),
                ),
            ),
    {
        let path = "playlist/".to_owned().concat(playlist.id.as_str());
        let body = playlist.into_post().to_json();
        self.api_client.post_request(path.as_str(), body)
    }

    /// Ends the use of the client. It holds nothing to release, so this
    /// always succeeds.
    pub fn stop(&self) -> (r: Result<(), Error>)
        ensures
            r is Ok,
    {
        Ok(())
    }
}

} // verus!
