use recommend_server::error::OAuthError;
use recommend_server::oauth::{
    check_token_response, home_redirect_uri, home_uri_text, judge_token_response, oauth_code,
    session_cookie, token_request_form, JsonShape, TokenResponse,
};
use recommend_server::query::Query;

#[test]
fn code_is_taken_from_the_query() {
    let mut q = Query::new();
    q.insert("code".to_string(), "4/abc".to_string());
    assert_eq!(oauth_code(&q), Ok("4/abc".to_string()));
}

#[test]
fn missing_code_is_refused() {
    let q = Query::new();
    assert_eq!(oauth_code(&q), Err(OAuthError::CodeIsNotFound));
}

#[test]
fn token_request_holds_all_fields() {
    let form = token_request_form(
        "id".to_string(),
        "secret".to_string(),
        "https://example.com/cb".to_string(),
        "c0de".to_string(),
    );
    assert_eq!(form.get("client_id"), Some(&"id".to_string()));
    assert_eq!(form.get("client_secret"), Some(&"secret".to_string()));
    assert_eq!(form.get("redirect_uri"), Some(&"https://example.com/cb".to_string()));
    assert_eq!(form.get("code"), Some(&"c0de".to_string()));
    assert_eq!(form.get("grant_type"), Some(&"authorization_code".to_string()));
    assert_eq!(form.get("scope"), None);
}

#[test]
fn token_response_is_judged_by_its_json() {
    assert_eq!(check_token_response("{\"access_token\": \"x\"}"), Ok(TokenResponse::Object));
    assert_eq!(check_token_response("{}"), Ok(TokenResponse::Object));
    assert_eq!(check_token_response("[1, 2]"), Ok(TokenResponse::NotAnObject));
    assert_eq!(check_token_response("\"text\""), Ok(TokenResponse::NotAnObject));
    assert_eq!(check_token_response("null"), Ok(TokenResponse::NotAnObject));
    assert_eq!(check_token_response("not json"), Err(OAuthError::GoogleResponseIsInvalid));
    assert_eq!(check_token_response(""), Err(OAuthError::GoogleResponseIsInvalid));
}

#[test]
fn judging_each_shape() {
    assert_eq!(judge_token_response(JsonShape::Object), Ok(TokenResponse::Object));
    assert_eq!(judge_token_response(JsonShape::OtherValue), Ok(TokenResponse::NotAnObject));
    assert_eq!(judge_token_response(JsonShape::Malformed), Err(OAuthError::GoogleResponseIsInvalid));
}

#[test]
fn home_page_address() {
    assert_eq!(home_uri_text("https://example.com"), "https://example.com/home");
    assert_eq!(home_uri_text(""), "/home");
}

#[test]
fn home_page_uri() {
    let uri = home_redirect_uri("https://example.com").expect("valid uri");
    assert_eq!(uri.to_string(), "https://example.com/home");
    assert_eq!(uri.path(), "/home");
    assert!(home_redirect_uri("https://exa mple.com").is_none());
}

#[test]
fn cookie_holds_the_key() {
    assert_eq!(session_cookie("abc"), "key=abc");
    assert_eq!(session_cookie(""), "key=");
}
