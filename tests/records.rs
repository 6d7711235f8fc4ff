use json_api_client::albums::Album;
use json_api_client::codec::JsonRecord;
use json_api_client::comments::Comment;
use json_api_client::json::Json;
use json_api_client::lipl::{Lyric, LyricPost, Playlist, PlaylistPost, Summary};
use json_api_client::photos::Photo;
use json_api_client::posts::Post;
use json_api_client::todos::Todo;
use json_api_client::users::{Address, Company, Geo, User};

fn s(text: &str) -> Json {
    Json::Str(text.to_string())
}

fn keys(j: &Json) -> Vec<String> {
    match j {
        Json::Object(fields) => fields.iter().map(|(k, _)| k.clone()).collect(),
        _ => panic!("not an object"),
    }
}

fn field<'a>(j: &'a Json, key: &str) -> Option<&'a Json> {
    match j {
        Json::Object(fields) => fields.iter().find(|(k, _)| k == key).map(|(_, v)| v),
        _ => None,
    }
}

fn user() -> User {
    User {
        id: Some(1),
        name: "Leanne Graham".to_string(),
        username: "Bret".to_string(),
        email: "Sincere@april.biz".to_string(),
        address: Address {
            street: "Kulas Light".to_string(),
            suite: "Apt. 556".to_string(),
            city: "Gwenborough".to_string(),
            zipcode: "92998-3874".to_string(),
            geo: Geo { lat: "-37.3159".to_string(), lng: "81.1496".to_string() },
        },
        phone: "1-770-736-8031 x56442".to_string(),
        website: "hildegard.org".to_string(),
        company: Company {
            name: "Romaguera-Crona".to_string(),
            catch_phrase: "Multi-layered client-server neural-net".to_string(),
            bs: "harness real-time e-markets".to_string(),
        },
    }
}

#[test]
fn album_round_trip_and_renamed_key() {
    let a = Album { user_id: 10, id: Some(100), title: "enim repellat iste".to_string() };
    let j = a.to_json();
    assert_eq!(keys(&j), vec!["userId", "id", "title"]);
    assert_eq!(field(&j, "userId"), Some(&Json::Int(10)));
    assert_eq!(Album::from_json(&j), Some(a));
}

#[test]
fn album_without_id_omits_key() {
    let a = Album { user_id: 1, id: None, title: "t".to_string() };
    let j = a.to_json();
    assert_eq!(keys(&j), vec!["userId", "title"]);
    assert_eq!(Album::from_json(&j), Some(a));
}

#[test]
fn comment_round_trip() {
    let c = Comment {
        post_id: 8,
        id: Some(37),
        name: "n".to_string(),
        email: "Jacky@victoria.net".to_string(),
        body: "b".to_string(),
    };
    let j = c.to_json();
    assert_eq!(keys(&j), vec!["postId", "id", "name", "email", "body"]);
    assert_eq!(Comment::from_json(&j), Some(c));
}

#[test]
fn photo_round_trip() {
    let p = Photo {
        album_id: 69,
        id: Some(3421),
        title: "t".to_string(),
        url: "https://via.placeholder.com/600/b13cb8".to_string(),
        thumbnail_url: "https://via.placeholder.com/150/b13cb8".to_string(),
    };
    let j = p.to_json();
    assert_eq!(keys(&j), vec!["albumId", "id", "title", "url", "thumbnailUrl"]);
    assert_eq!(Photo::from_json(&j), Some(p));
}

#[test]
fn post_without_id_and_user_omits_both_keys() {
    let p = Post { id: None, title: "Hallo".to_string(), body: "Hallo".to_string(), user_id: None };
    let j = p.to_json();
    assert_eq!(keys(&j), vec!["title", "body"]);
    assert_eq!(Post::from_json(&j), Some(p));
}

#[test]
fn post_round_trip_with_user() {
    let p = Post { id: Some(1), title: "Hallo".to_string(), body: "Hallo".to_string(), user_id: Some(34) };
    let j = p.to_json();
    assert_eq!(keys(&j), vec!["id", "title", "body", "userId"]);
    assert_eq!(field(&j, "userId"), Some(&Json::Int(34)));
    assert_eq!(Post::from_json(&j), Some(p));
}

#[test]
fn post_reads_null_as_absent() {
    let j = Json::Object(vec![
        ("id".to_string(), Json::Null),
        ("title".to_string(), s("a")),
        ("body".to_string(), s("b")),
    ]);
    let p = Post::from_json(&j).unwrap();
    assert_eq!(p.id, None);
    assert_eq!(p.user_id, None);
}

#[test]
fn todo_round_trip() {
    let t = Todo { user_id: 4, id: Some(67), title: "quia".to_string(), completed: true };
    let j = t.to_json();
    assert_eq!(field(&j, "completed"), Some(&Json::Bool(true)));
    assert_eq!(Todo::from_json(&j), Some(t));
}

#[test]
fn user_round_trip_nested() {
    let u = user();
    let j = u.to_json();
    let company = field(&j, "company").unwrap();
    assert_eq!(keys(company), vec!["name", "catchPhrase", "bs"]);
    let address = field(&j, "address").unwrap();
    assert_eq!(field(address, "geo").map(keys), Some(vec!["lat".to_string(), "lng".to_string()]));
    assert_eq!(User::from_json(&j), Some(u));
}

#[test]
fn decode_rejects_wrong_shapes() {
    // a required field missing
    let j = Json::Object(vec![("id".to_string(), Json::Int(1)), ("title".to_string(), s("t"))]);
    assert_eq!(Album::from_json(&j), None);
    // a field of the wrong type
    let j = Json::Object(vec![("userId".to_string(), s("1")), ("title".to_string(), s("t"))]);
    assert_eq!(Album::from_json(&j), None);
    // an integer out of range
    let j = Json::Object(vec![
        ("userId".to_string(), Json::Int(1i64 << 40)),
        ("title".to_string(), s("t")),
    ]);
    assert_eq!(Album::from_json(&j), None);
    // not an object
    assert_eq!(Album::from_json(&Json::Array(vec![])), None);
}

#[test]
fn decode_ignores_unknown_fields() {
    let j = Json::Object(vec![
        ("extra".to_string(), Json::Number("1.5".to_string())),
        ("id".to_string(), s("a1")),
        ("title".to_string(), s("Song")),
    ]);
    assert_eq!(Summary::from_json(&j), Some(Summary { id: "a1".to_string(), title: "Song".to_string() }));
}

#[test]
fn lyric_and_playlist_round_trip() {
    let lyric = Lyric {
        id: "x1".to_string(),
        title: "Song".to_string(),
        parts: vec![vec!["line 1".to_string(), "line 2".to_string()], vec![], vec!["refrain".to_string()]],
    };
    let j = lyric.to_json();
    assert_eq!(
        field(&j, "parts"),
        Some(&Json::Array(vec![
            Json::Array(vec![s("line 1"), s("line 2")]),
            Json::Array(vec![]),
            Json::Array(vec![s("refrain")]),
        ]))
    );
    assert_eq!(Lyric::from_json(&j), Some(lyric.clone()));
    let post = lyric.into_post();
    assert_eq!(keys(&post.to_json()), vec!["title", "parts"]);
    assert_eq!(LyricPost::from_json(&post.to_json()), Some(post));

    let playlist = Playlist {
        id: "p1".to_string(),
        title: "Set".to_string(),
        members: vec!["x1".to_string(), "x2".to_string()],
    };
    let j = playlist.to_json();
    assert_eq!(field(&j, "members"), Some(&Json::Array(vec![s("x1"), s("x2")])));
    assert_eq!(Playlist::from_json(&j), Some(playlist.clone()));
    let post = playlist.into_post();
    assert_eq!(PlaylistPost::from_json(&post.to_json()), Some(post));
}

#[test]
fn lyric_parts_must_be_strings() {
    let j = Json::Object(vec![
        ("id".to_string(), s("x1")),
        ("title".to_string(), s("Song")),
        ("parts".to_string(), Json::Array(vec![Json::Array(vec![Json::Int(3)])])),
    ]);
    assert_eq!(Lyric::from_json(&j), None);
}
