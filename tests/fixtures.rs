use json_api_client::codec::{decode_list, encode_list};
use json_api_client::fixtures::last_with_id;
use json_api_client::todos::Todo;
use json_api_client::json::Json;
use json_api_client::posts::{self, Post};
use json_api_client::{albums, todos};

fn post(id: Option<i32>, title: &str) -> Post {
    Post { id, title: title.to_string(), body: String::new(), user_id: Some(1) }
}

#[test]
fn get_finds_the_unique_match() {
    let all = vec![post(Some(1), "one"), post(Some(2), "two"), post(Some(3), "three")];
    assert_eq!(posts::get(&all, 2).title, "two");
}

#[test]
fn get_takes_the_last_of_duplicates() {
    let all = vec![post(Some(7), "first"), post(None, "none"), post(Some(7), "second"), post(Some(8), "x")];
    assert_eq!(posts::get(&all, 7).title, "second");
}

#[test]
fn get_without_match() {
    let all = vec![post(None, "none"), post(Some(1), "one")];
    assert_eq!(last_with_id(&all, 5), None);
    assert_eq!(last_with_id::<Post>(&Vec::new(), 1), None);
    assert_eq!(last_with_id(&all, 1), Some(1));
}

#[test]
fn get_all_reads_a_document() {
    let doc = Json::Array(vec![
        Json::Object(vec![
            ("userId".to_string(), Json::Int(1)),
            ("id".to_string(), Json::Int(1)),
            ("title".to_string(), Json::Str("quidem molestiae enim".to_string())),
        ]),
        Json::Object(vec![
            ("userId".to_string(), Json::Int(10)),
            ("id".to_string(), Json::Int(100)),
            ("title".to_string(), Json::Str("enim repellat iste".to_string())),
        ]),
    ]);
    let all = albums::get_all(&doc);
    assert_eq!(all.len(), 2);
    assert_eq!(all[0].title, "quidem molestiae enim");
    assert_eq!(albums::get(&all, 100).title, "enim repellat iste");
}

#[test]
fn get_all_rejects_a_bad_item() {
    let doc = Json::Array(vec![Json::Object(vec![("id".to_string(), Json::Int(1))])]);
    assert!(decode_list::<Todo>(&doc).is_none());
    assert!(decode_list::<Todo>(&Json::Null).is_none());
    assert_eq!(todos::get_all(&Json::Array(vec![])).len(), 0);
}

#[test]
fn list_round_trip() {
    let all = vec![post(Some(1), "one"), post(None, "two")];
    let doc = encode_list(&all);
    assert_eq!(decode_list::<Post>(&doc), Some(all));
}

#[test]
fn post_display_text() {
    assert_eq!(post(Some(1), "Hallo").display_text(), "Post: title = Hallo");
    assert_eq!(json_api_client::PLACEHOLDER_BASE, "https://jsonplaceholder.typicode.com/");
}
