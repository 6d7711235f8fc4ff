use base64::Engine;
use json_api_client::api_client::{
    check_status, chosen_user_agent, decode_list_response, decode_response, ApiClient,
    ApiClientBuilder, Method, BUILDER_USER_AGENT, DEFAULT_USER_AGENT,
};
use json_api_client::auth::{Authentication, BasicAuthentication};
use json_api_client::codec::JsonRecord;
use json_api_client::error::Error;
use json_api_client::json::Json;
use json_api_client::lipl::{
    upsert_lyric_answer, upsert_playlist_answer, Collection, LiplApiClient, Lyric, LyricPost, Playlist,
    Summary,
};
use json_api_client::posts::Post;

const MOCK: &str = "http://mock/api/v1/";

fn authorization(headers: &[(String, String)]) -> Vec<&str> {
    headers.iter().filter(|(k, _)| k == "Authorization").map(|(_, v)| v.as_str()).collect()
}

#[test]
fn basic_header_decodes_to_user_and_password() {
    let client = ApiClient::try_new(MOCK, Authentication::new_basic("paul", "secret:x"), None).unwrap();
    for request in [client.get_request("a"), client.post_request("b", Json::Null), client.delete_request("c")] {
        let values = authorization(&request.headers);
        assert_eq!(values.len(), 1);
        let encoded = values[0].strip_prefix("Basic ").unwrap();
        let decoded = base64::engine::general_purpose::STANDARD.decode(encoded).unwrap();
        assert_eq!(String::from_utf8(decoded).unwrap(), "paul:secret:x");
    }
    assert_eq!(
        Authentication::new_basic("Aladdin", "open sesame").authorization(),
        Some("Basic QWxhZGRpbjpvcGVuIHNlc2FtZQ==".to_string())
    );
}

#[test]
fn bearer_header_carries_token() {
    let client = ApiClient::try_new(MOCK, Authentication::new_bearer("tok123"), Some("agent")).unwrap();
    for request in [client.get_request("a"), client.put_request("b", Json::Null)] {
        assert_eq!(authorization(&request.headers), vec!["Bearer tok123"]);
    }
}

#[test]
fn no_authentication_no_header() {
    let client = ApiClient::try_new(MOCK, Authentication::default(), None).unwrap();
    assert!(client.get_request("x").headers.is_empty());
    assert_eq!(Authentication::Anonymous.authorization(), None);
    let basic = Authentication::Basic(BasicAuthentication::new("u", "p"));
    assert_eq!(basic.authorization(), Some("Basic dTpw".to_string()));
}

#[test]
fn uri_is_prefix_and_path_concatenated() {
    let client = ApiClientBuilder::new("https://jsonplaceholder.typicode.com/").build().unwrap();
    let request = client.get_request("posts/1");
    assert_eq!(request.method, Method::Get);
    assert_eq!(request.uri, "https://jsonplaceholder.typicode.com/posts/1");
    assert_eq!(request.body, None);
    // no slash is added or removed
    let client = ApiClient::try_new("http://h/api", Authentication::Anonymous, None).unwrap();
    assert_eq!(client.get_request("posts").uri, "http://h/apiposts");
}

#[test]
fn post_carries_the_json_body() {
    let client = ApiClientBuilder::new(MOCK).build().unwrap();
    let new_post = Post { id: None, title: "Hallo".to_string(), body: "Hallo".to_string(), user_id: Some(34) };
    let request = client.post_request("posts", new_post.to_json());
    assert_eq!(request.method, Method::Post);
    assert_eq!(request.body, Some(new_post.to_json()));
    assert_eq!(request.headers, vec![("Content-Type".to_string(), "application/json".to_string())]);
    assert!(client.get_request("posts").headers.is_empty());
    let request = client.put_request("posts/1", new_post.to_json());
    assert_eq!(request.method, Method::Put);
    assert_eq!(request.uri, "http://mock/api/v1/posts/1");
}

#[test]
fn builder_sets_authentication_and_user_agent() {
    let mut builder = ApiClientBuilder::new(MOCK);
    builder.authentication(Authentication::new_bearer("t")).user_agent("my agent");
    let client = builder.build().unwrap();
    assert_eq!(client.prefix(), MOCK);
    assert_eq!(client.authentication(), &Authentication::new_bearer("t"));
}

#[test]
fn invalid_user_agent_is_a_transport_error() {
    let result = ApiClient::try_new(MOCK, Authentication::Anonymous, Some("bad\nagent"));
    assert!(matches!(result, Err(Error::Transport(_))));
}

#[test]
fn delete_status_204_and_404() {
    assert_eq!(check_status(204), Ok(()));
    assert_eq!(check_status(200), Ok(()));
    assert_eq!(check_status(404), Err(Error::HttpStatus(404)));
    assert_eq!(check_status(199), Err(Error::HttpStatus(199)));
    assert_eq!(check_status(300), Err(Error::HttpStatus(300)));
    let lipl = LiplApiClient::try_new(MOCK, Authentication::Anonymous).unwrap();
    let request = lipl.delete_request(Collection::Lyric, "x1");
    assert_eq!(request.method, Method::Delete);
    assert_eq!(request.uri, "http://mock/api/v1/lyric/x1");
}

#[test]
fn responses_map_to_errors() {
    let body = Json::Object(vec![("id".to_string(), Json::Str("a1".to_string()))]);
    assert_eq!(decode_response::<Summary>(500, None), Err(Error::HttpStatus(500)));
    assert_eq!(decode_response::<Summary>(404, Some(Json::Null)), Err(Error::HttpStatus(404)));
    assert_eq!(decode_response::<Summary>(200, None), Err(Error::Decode));
    assert_eq!(decode_response::<Summary>(200, Some(body)), Err(Error::Decode));
    assert_eq!(decode_list_response::<Summary>(200, Some(Json::Null)), Err(Error::Decode));
}

#[test]
fn summaries_scenario() {
    let lipl = LiplApiClient::try_new(MOCK, Authentication::Anonymous).unwrap();
    let request = lipl.get_summaries_request(Collection::Lyric);
    assert_eq!(request.method, Method::Get);
    assert_eq!(request.uri, "http://mock/api/v1/lyric");
    assert!(request.headers.is_empty());
    let body = Json::Array(vec![Json::Object(vec![
        ("id".to_string(), Json::Str("a1".to_string())),
        ("title".to_string(), Json::Str("Song".to_string())),
    ])]);
    let summaries = decode_list_response::<Summary>(200, Some(body)).unwrap();
    assert_eq!(summaries.len(), 1);
    assert_eq!(summaries[0].title, "Song");
}

#[test]
fn upsert_scenario() {
    let lipl = LiplApiClient::try_new(MOCK, Authentication::Anonymous).unwrap();
    let lyric = Lyric {
        id: "x1".to_string(),
        title: "Song".to_string(),
        parts: vec![vec!["la".to_string()]],
    };
    let request = lipl.upsert_lyric_request(lyric.clone());
    assert_eq!(request.method, Method::Post);
    assert_eq!(request.uri, "http://mock/api/v1/lyric/x1");
    let projection = LyricPost { title: "Song".to_string(), parts: vec![vec!["la".to_string()]] };
    assert_eq!(request.body, Some(projection.to_json()));
    // the server echoes the body it was sent
    let echoed = upsert_lyric_answer("x1", 200, request.body).unwrap();
    assert_eq!(echoed, lyric);
    // a full record as answer is returned as the server sent it
    assert_eq!(upsert_lyric_answer("x1", 200, Some(lyric.to_json())), Ok(lyric.clone()));
    let stored = Lyric { id: "y7".to_string(), ..lyric.clone() };
    assert_eq!(upsert_lyric_answer("x1", 200, Some(stored.to_json())), Ok(stored));
    assert_eq!(upsert_lyric_answer("x1", 404, None), Err(Error::HttpStatus(404)));
    assert_eq!(upsert_lyric_answer("x1", 200, Some(Json::Null)), Err(Error::Decode));

    let playlist = Playlist { id: "p1".to_string(), title: "Set".to_string(), members: vec!["x1".to_string()] };
    let request = lipl.upsert_playlist_request(playlist.clone());
    assert_eq!(request.uri, "http://mock/api/v1/playlist/p1");
    assert_eq!(upsert_playlist_answer("p1", 200, request.body), Ok(playlist));
}

#[test]
fn lipl_paths() {
    let lipl = LiplApiClient::try_new(MOCK, Authentication::new_basic("u", "p")).unwrap();
    assert_eq!(lipl.get_all_request(Collection::Playlist).uri, "http://mock/api/v1/playlist?full=true");
    assert_eq!(lipl.get_by_id_request(Collection::Playlist, "p9").uri, "http://mock/api/v1/playlist/p9");
    assert_eq!(authorization(&lipl.get_all_request(Collection::Lyric).headers), vec!["Basic dTpw"]);
    assert_eq!(lipl.stop(), Ok(()));
    let wrapped = LiplApiClient::from(ApiClientBuilder::new(MOCK).build().unwrap());
    assert_eq!(wrapped.api_client().prefix(), MOCK);
}

#[test]
fn token_request_then_bearer() {
    let mut client = ApiClient::try_new(MOCK, Authentication::new_basic("u", "p"), None).unwrap();
    let request = client.token_request("token", "sig", Json::Null);
    assert_eq!(request.method, Method::Post);
    assert_eq!(request.headers.last(), Some(&("Signature".to_string(), "sig".to_string())));
    assert_eq!(client.accept_token_response(401, "denied".to_string()), Err(Error::HttpStatus(401)));
    assert_eq!(authorization(&client.get_request("x").headers), vec!["Basic dTpw"]);
    assert_eq!(client.accept_token_response(200, "abc".to_string()), Ok(()));
    assert_eq!(authorization(&client.get_request("x").headers), vec!["Bearer abc"]);
}

#[test]
fn user_agent_choice() {
    assert_eq!(chosen_user_agent(Some("agent 1"), DEFAULT_USER_AGENT), "agent 1");
    assert_eq!(chosen_user_agent(None, DEFAULT_USER_AGENT), "Rest json api client");
    assert_eq!(chosen_user_agent(None, BUILDER_USER_AGENT), "rest-json-client 0.1.0");
}
