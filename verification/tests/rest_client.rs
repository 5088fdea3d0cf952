use genre_gateway::rest_client::{Header, Request, RestClient, AUTHORIZATION};

fn client(base_url: &str, auth_token: &str) -> RestClient {
    RestClient::try_new_auth(base_url.to_string(), auth_token.to_string())
        .expect("the base URL parses")
}

#[test]
fn new_auth_keeps_base_url_and_token() {
    let client = RestClient::new_auth(
        "https://api.themoviedb.org/3".to_string(),
        "secret".to_string(),
    );
    assert_eq!(client.base_url(), "https://api.themoviedb.org/3");
    assert_eq!(client.auth_token(), "secret");
}

#[test]
fn try_new_auth_accepts_an_absolute_url() {
    let client = RestClient::try_new_auth("http://localhost:3000/v1".to_string(), "t".to_string());
    let client = client.expect("an absolute URL is accepted");
    assert_eq!(client.base_url(), "http://localhost:3000/v1");
    assert_eq!(client.auth_token(), "t");
}

#[test]
fn try_new_auth_rejects_text_that_is_no_absolute_url() {
    assert!(RestClient::try_new_auth("not a url".to_string(), "t".to_string()).is_none());
    assert!(RestClient::try_new_auth("".to_string(), "t".to_string()).is_none());
    assert!(RestClient::try_new_auth("/3".to_string(), "t".to_string()).is_none());
    assert!(RestClient::try_new_auth("https://".to_string(), "t".to_string()).is_none());
}

#[test]
fn concat_url_appends_the_path_to_the_base() {
    let client = client("https://api.themoviedb.org/3", "secret");
    assert_eq!(
        client.concat_url("/genre/movie/list".to_string()),
        "https://api.themoviedb.org/3/genre/movie/list"
    );
    assert_eq!(client.concat_url("".to_string()), "https://api.themoviedb.org/3");
}

#[test]
fn concat_url_leaves_separators_as_they_are() {
    let doubled = client("http://example.com/", "t");
    assert_eq!(doubled.concat_url("/a".to_string()), "http://example.com//a");
    let missing = client("http://example.com/api", "t");
    assert_eq!(missing.concat_url("v1".to_string()), "http://example.com/apiv1");
}

#[test]
fn get_builds_the_absolute_url() {
    let request = client("https://api.themoviedb.org/3", "secret").get("/genre/tv/list".to_string());
    assert_eq!(request.url, "https://api.themoviedb.org/3/genre/tv/list");
}

#[test]
fn get_attaches_the_token_as_the_only_header() {
    let request = client("https://api.themoviedb.org/3", "secret").get("/x".to_string());
    assert_eq!(
        request.headers,
        vec![Header { name: "Authorization".to_string(), value: "secret".to_string() }]
    );
    assert_eq!(AUTHORIZATION, "Authorization");
}

#[test]
fn get_sends_the_token_without_a_scheme_prefix() {
    let plain = client("https://api.themoviedb.org/3", "abc123").get("/x".to_string());
    assert_eq!(plain.headers[0].value, "abc123");
    let prefixed = client("https://api.themoviedb.org/3", "Bearer abc123").get("/x".to_string());
    assert_eq!(prefixed.headers[0].value, "Bearer abc123");
}

#[test]
fn get_gives_the_same_request_for_the_same_path() {
    let client = client("http://example.com", "t");
    let first = client.get("/a".to_string());
    let second = client.get("/a".to_string());
    assert_eq!(first, second);
    assert_eq!(
        first,
        Request {
            url: "http://example.com/a".to_string(),
            headers: vec![Header { name: "Authorization".to_string(), value: "t".to_string() }],
        }
    );
}
