use rustc_serialize::json;
use rustc_serialize::{Decodable, Decoder};
use sota_client::datatype::{AccessToken, Error, Method, Url};
use sota_client::http_client::{HttpClient, TestHttpClient};
use sota_client::oauth2::authenticate;
use sota_client::ota_plus::Body;

struct TokenOnWire(AccessToken);

impl Decodable for TokenOnWire {
    fn decode<D: Decoder>(d: &mut D) -> Result<TokenOnWire, D::Error> {
        d.read_struct("AccessToken", 4, |d| {
            let access_token = d.read_struct_field("access_token", 0, |d| d.read_str())?;
            let token_type = d.read_struct_field("token_type", 1, |d| d.read_str())?;
            let expires_in = d.read_struct_field("expires_in", 2, |d| d.read_i32())?;
            let scope = d.read_struct_field("scope", 3, |d| {
                d.read_seq(|d, len| {
                    let mut scope = Vec::new();
                    for i in 0..len {
                        scope.push(d.read_seq_elt(i, |d| d.read_str())?);
                    }
                    Ok(scope)
                })
            })?;
            Ok(TokenOnWire(AccessToken { access_token, token_type, expires_in, scope }))
        })
    }
}

fn test_server() -> Url {
    Url::new("http://localhost:8000")
}

fn obtain_token(server: Url, client: &mut TestHttpClient) -> Result<AccessToken, Error> {
    let data = client.send_request(authenticate(server).into_http(None))?;
    let body = String::from_utf8(data).map_err(|e| Error::ParseError(format!("{}", e)))?;
    json::decode::<TokenOnWire>(&body)
        .map(|token| token.0)
        .map_err(|e| Error::JsonDecoderError(format!("{:?}", e)))
}

#[test]
fn test_authenticate() {
    let token  = r#"{"access_token": "token", "token_type": "type", "expires_in": 10, "scope": ["scope"]}"#;
    let mut client = TestHttpClient::from(vec![token.to_string()]);
    let expect = AccessToken {
        access_token: "token".to_string(),
        token_type:   "type".to_string(),
        expires_in:   10,
        scope:        vec!["scope".to_string()]
    };
    assert_eq!(expect, obtain_token(test_server(), &mut client).unwrap());
}

#[test]
fn test_authenticate_no_token() {
    let mut client = TestHttpClient::from(vec!["".to_string()]);
    let expect = r#"Failed to decode JSON: ParseError(SyntaxError("EOF While parsing value", 1, 1))"#;
    assert_eq!(expect, obtain_token(test_server(), &mut client).unwrap_err().to_string());
}

#[test]
fn test_authenticate_bad_json() {
    let mut client = TestHttpClient::from(vec![r#"{"apa": 1}"#.to_string()]);
    let expect = r#"Failed to decode JSON: MissingFieldError("access_token")"#;
    assert_eq!(expect, obtain_token(test_server(), &mut client).unwrap_err().to_string());
}

#[test]
fn the_token_request_is_a_post_without_a_body() {
    let request = authenticate(test_server().join("/token"));
    assert_eq!(request.method, Method::Post);
    assert_eq!(request.url, Url("http://localhost:8000/token".to_string()));
    assert_eq!(request.body, Body::Empty);
}

#[test]
fn the_test_client_gives_its_last_reply_first() {
    let mut client = TestHttpClient::from(vec!["first".to_string(), "last".to_string()]);
    assert!(client.is_testing());
    assert_eq!(client.remaining(), 2);
    let request = || authenticate(test_server()).into_http(None);
    assert_eq!(client.send_request(request()), Ok(b"last".to_vec()));
    assert_eq!(client.send_request(request()), Ok(b"first".to_vec()));
    assert_eq!(client.remaining(), 0);
    assert_eq!(
        client.send_request(request()),
        Err(Error::ClientError("http://localhost:8000".to_string()))
    );
    assert_eq!(
        TestHttpClient::new().send_request(request()),
        Err(Error::ClientError("http://localhost:8000".to_string()))
    );
}
