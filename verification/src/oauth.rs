use vstd::prelude::*;
use vstd::string::*;
use http::uri::InvalidUri;
use http::Uri;
use serde_json::Value;

use crate::error::OAuthError;
use crate::query::Query;

verus! {

/// `http::Uri`, carried through opaquely.
#[verifier::external_type_specification]
#[verifier::external_body]
pub struct ExUri(Uri);

/// `http::uri::InvalidUri`, the error of parsing a `Uri`.
#[verifier::external_type_specification]
#[verifier::external_body]
pub struct ExInvalidUri(InvalidUri);

/// What `Uri::from_maybe_shared` makes of a text.
pub uninterp spec fn parsed_uri(text: Seq<char>) -> Result<Uri, InvalidUri>;

/// Calls `http::Uri::from_maybe_shared` on the text. The source parses the
/// text's bytes and nothing else, so the result is named as a function of the
/// text; which texts it accepts is not stated here.
#[verifier::external_body]
fn parse_uri(text: String) -> (r: Result<Uri, InvalidUri>)
    ensures
        r == parsed_uri(text@),
{
    Uri::from_maybe_shared(text)
}

/// How a text reads as JSON.
#[derive(Clone, Copy, Debug, PartialEq, Eq, Structural)]
pub enum JsonShape {
    /// A JSON object.
    Object,
    /// A JSON value that is no object.
    OtherValue,
    /// No JSON value.
    Malformed,
}

/// How `serde_json::from_str::<serde_json::Value>` reads a text.
pub uninterp spec fn json_shape_of(text: Seq<char>) -> JsonShape;

/// Calls `serde_json::from_str::<serde_json::Value>` and tells whether it
/// failed, gave an object or gave another value. The parse depends on the
/// text alone; which texts are objects is not stated here.
#[verifier::external_body]
fn json_shape(text: &str) -> (r: JsonShape)
    ensures
        r == json_shape_of(text@),
{
    match serde_json::from_str::<Value>(text) {
        Ok(Value::Object(_)) => JsonShape::Object,
        Ok(Value::Null) => JsonShape::OtherValue,
        Ok(Value::Bool(_)) => JsonShape::OtherValue,
        Ok(Value::Number(_)) => JsonShape::OtherValue,
        Ok(Value::String(_)) => JsonShape::OtherValue,
        Ok(Value::Array(_)) => JsonShape::OtherValue,
        Err(_) => JsonShape::Malformed,
    }
}

/// The authorization code that Google sends back: the `code` parameter.
pub fn oauth_code(query: &Query) -> (r: Result<String, OAuthError>)
    ensures
        query@.contains_key("code"@) ==> (r matches Ok(code) && code@ == query@["code"@]),
        !query@.contains_key("code"@) ==> r == Err::<String, OAuthError>(OAuthError::CodeIsNotFound),
{
    match query.get("code") {
        Some(code) => Ok(code.clone()),
        None => Err(OAuthError::CodeIsNotFound),
    }
}

/// The fields of the request that trades an authorization code for tokens.
pub open spec fn token_request_fields(
    client_id: Seq<char>,
    client_secret: Seq<char>,
    redirect_uri: Seq<char>,
    code: Seq<char>,
) -> Map<Seq<char>, Seq<char>> {
    Map::empty().insert("client_id"@, client_id).insert("client_secret"@, client_secret).insert(
        "redirect_uri"@,
        redirect_uri,
    ).insert("code"@, code).insert("grant_type"@, "authorization_code"@)
}

/// The body of the token request: the client's id, secret and redirect URI,
/// the code, and the grant type `authorization_code`.
pub fn token_request_form(
    client_id: String,
    client_secret: String,
    redirect_uri: String,
    code: String,
) -> (form: Query)
    ensures
        form@ == token_request_fields(client_id@, client_secret@, redirect_uri@, code@),
{
    let mut form = Query::new();
    form.insert(String::from_str("client_id"), client_id);
    form.insert(String::from_str("client_secret"), client_secret);
    form.insert(String::from_str("redirect_uri"), redirect_uri);
    form.insert(String::from_str("code"), code);
    form.insert(String::from_str("grant_type"), String::from_str("authorization_code"));
    form
}

/// What becomes of Google's answer to the token request.
#[derive(Clone, Copy, Debug, PartialEq, Eq, Structural)]
pub enum TokenResponse {
    /// The answer is a JSON object.
    Object,
    /// The answer is JSON but no object; the exchange cannot go on.
    NotAnObject,
}

pub open spec fn token_outcome(shape: JsonShape) -> Result<TokenResponse, OAuthError> {
    match shape {
        JsonShape::Object => Ok(TokenResponse::Object),
        JsonShape::OtherValue => Ok(TokenResponse::NotAnObject),
        JsonShape::Malformed => Err(OAuthError::GoogleResponseIsInvalid),
    }
}

/// Google's answer is refused as `GoogleResponseIsInvalid` exactly when it is
/// no JSON; a JSON object lets the exchange go on, and other JSON does not.
pub proof fn law_token_outcome(shape: JsonShape)
    ensures
        (token_outcome(shape) == Err::<TokenResponse, OAuthError>(OAuthError::GoogleResponseIsInvalid))
            <==> shape == JsonShape::Malformed,
        token_outcome(shape) is Err ==> shape == JsonShape::Malformed,
        (token_outcome(shape) == Ok::<TokenResponse, OAuthError>(TokenResponse::Object)) <==> shape
            == JsonShape::Object,
        (token_outcome(shape) == Ok::<TokenResponse, OAuthError>(TokenResponse::NotAnObject))
            <==> shape == JsonShape::OtherValue,
{
}

/// Judges Google's answer by how it reads as JSON: no JSON is
/// `GoogleResponseIsInvalid`.
pub fn judge_token_response(shape: JsonShape) -> (r: Result<TokenResponse, OAuthError>)
    ensures
        r == token_outcome(shape),
{
    match shape {
        JsonShape::Object => Ok(TokenResponse::Object),
        JsonShape::OtherValue => Ok(TokenResponse::NotAnObject),
        JsonShape::Malformed => Err(OAuthError::GoogleResponseIsInvalid),
    }
}

/// Reads Google's answer to the token request as JSON and judges it.
pub fn check_token_response(body: &str) -> (r: Result<TokenResponse, OAuthError>)
    ensures
        r == token_outcome(json_shape_of(body@)),
{
    judge_token_response(json_shape(body))
}

/// The address of the client's home page.
pub open spec fn home_text(client_url: Seq<char>) -> Seq<char> {
    client_url + "/home"@
}

/// The token request holds exactly five fields, each with the value it was
/// given unchanged: the client's id, secret and redirect URI, the code, and
/// the grant type `authorization_code`.
pub proof fn law_token_request_fields(
    client_id: Seq<char>,
    client_secret: Seq<char>,
    redirect_uri: Seq<char>,
    code: Seq<char>,
)
    ensures
        ({
            let form = token_request_fields(client_id, client_secret, redirect_uri, code);
            &&& form.dom() =~= set![
                "client_id"@,
                "client_secret"@,
                "redirect_uri"@,
                "code"@,
                "grant_type"@,
            ]
            &&& form["client_id"@] == client_id
            &&& form["client_secret"@] == client_secret
            &&& form["redirect_uri"@] == redirect_uri
            &&& form["code"@] == code
            &&& form["grant_type"@] == "authorization_code"@
        }),
{
    reveal_strlit("client_id");
    reveal_strlit("client_secret");
    reveal_strlit("redirect_uri");
    reveal_strlit("code");
    reveal_strlit("grant_type");
    let form = token_request_fields(client_id, client_secret, redirect_uri, code);
    assert("client_id"@.len() != "code"@.len());
    assert("client_secret"@.len() != "code"@.len());
    assert("redirect_uri"@.len() != "code"@.len());
    assert("grant_type"@.len() != "code"@.len());
    assert("client_id"@.len() != "grant_type"@.len());
    assert("client_secret"@.len() != "grant_type"@.len());
    assert("redirect_uri"@[0] != "grant_type"@[0]);
    assert("client_id"@.len() != "client_secret"@.len());
    assert("client_id"@.len() != "redirect_uri"@.len());
    assert("client_secret"@.len() != "redirect_uri"@.len());
}

/// The home address is the client's address followed by `/home`: it starts
/// with the client's address, and what follows is exactly the five characters
/// `/home`.
pub proof fn law_home_address(client_url: Seq<char>)
    ensures
        home_text(client_url).len() == client_url.len() + 5,
        home_text(client_url).subrange(0, client_url.len() as int) == client_url,
        home_text(client_url).subrange(client_url.len() as int, client_url.len() + 5int) == seq![
            '/',
            'h',
            'o',
            'm',
            'e',
        ],
{
    reveal_strlit("/home");
    assert(home_text(client_url).subrange(0, client_url.len() as int) =~= client_url);
    assert(home_text(client_url).subrange(client_url.len() as int, client_url.len() + 5int) =~= seq![
        '/',
        'h',
        'o',
        'm',
        'e',
    ]);
}

/// The address that a signed-in user is sent to: the client's home page.
pub fn home_uri_text(client_url: &str) -> (r: String)
    ensures
        r@ == home_text(client_url@),
{
    let mut text = String::from_str(client_url);
    text.append("/home");
    text
}

/// The home page as a `Uri`, or `None` where the address is no valid URI.
pub fn home_redirect_uri(client_url: &str) -> (r: Option<Uri>)
    ensures
        r == (match parsed_uri(home_text(client_url@)) {
            Ok(u) => Some(u),
            Err(_) => None,
        }),
{
    match parse_uri(home_uri_text(client_url)) {
        Ok(u) => Some(u),
        Err(_) => None,
    }
}

/// The cookie that holds the session key.
pub fn session_cookie(key: &str) -> (r: String)
    ensures
        r@ == "key="@ + key@,
{
    let mut cookie = String::from_str("key=");
    cookie.append(key);
    cookie
}

} // verus!
