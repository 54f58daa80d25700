use backend::device::{Auth, BasicAuth, CustomAuth, Device, Oauth2};
use backend::json::JsonValue;
use backend::Error;

fn obj(fields: Vec<(&str, JsonValue)>) -> JsonValue {
    JsonValue::Object(
        fields
            .into_iter()
            .map(|(k, v)| (k.to_string(), v))
            .collect(),
    )
}

fn s(text: &str) -> JsonValue {
    JsonValue::Str(text.to_string())
}

fn err_msg(r: Result<impl std::fmt::Debug, Error>) -> String {
    match r {
        Err(Error::Custom(msg)) => msg,
        Ok(v) => panic!("expected an error, got {:?}", v),
    }
}

#[test]
fn test_basic_auth_scenario() {
    let input = obj(vec![("username", s("u")), ("password", s("p"))]);
    match Auth::from_value(&input) {
        Ok(Auth::BasicAuth(b)) => {
            assert_eq!(b.username, "u");
            assert_eq!(b.password, "p");
        }
        other => panic!("expected BasicAuth, got {:?}", other),
    }
}

#[test]
fn test_oauth2_selected_despite_missing_fields() {
    // `grant_type` present selects OAuth2; the missing `password` fails that
    // variant outright instead of falling back to another one.
    let input = obj(vec![("grant_type", s("client_credentials")), ("username", s("u"))]);
    assert_eq!(
        err_msg(Auth::from_value(&input)),
        "Password for OAuth2 authentication not found"
    );
}

#[test]
fn test_oauth2_wins_over_basic() {
    // All BasicAuth keys are present, but `grant_type` has precedence.
    let input = obj(vec![
        ("username", s("u")),
        ("password", s("p")),
        ("grant_type", s("password")),
        ("auth_url", s("https://auth.example/token")),
    ]);
    match Auth::from_value(&input) {
        Ok(Auth::Oauth2(o)) => {
            assert_eq!(o.username, "u");
            assert_eq!(o.password, "p");
            assert_eq!(o.grant_type, "password");
            assert_eq!(o.auth_url, "https://auth.example/token");
        }
        other => panic!("expected Oauth2, got {:?}", other),
    }
}

#[test]
fn test_custom_auth() {
    let body = obj(vec![("kind", s("session")), ("retries", JsonValue::Int(3))]);
    let input = obj(vec![
        ("auth_body", body.clone()),
        ("auth_url", s("https://auth.example/custom")),
    ]);
    match Auth::from_value(&input) {
        Ok(Auth::Custom(c)) => {
            assert_eq!(c.auth_body, body);
            assert_eq!(c.auth_url, "https://auth.example/custom");
        }
        other => panic!("expected Custom, got {:?}", other),
    }
}

#[test]
fn test_auth_error_messages() {
    assert_eq!(err_msg(Auth::from_value(&s("no object"))), "Auth body not valid");
    assert_eq!(
        err_msg(Auth::from_value(&obj(vec![("something", s("else"))]))),
        "Not recognizable authentication type"
    );
    assert_eq!(
        err_msg(Auth::from_value(&obj(vec![("username", s("u"))]))),
        "Not recognizable authentication type"
    );
    assert_eq!(
        err_msg(Auth::from_value(&obj(vec![
            ("username", s("u")),
            ("password", JsonValue::Int(5)),
        ]))),
        "Password for Basic authentication not found"
    );
    assert_eq!(
        err_msg(Auth::from_value(&obj(vec![("auth_body", JsonValue::Null)]))),
        "Authentication URL for Custom authentication not found"
    );
    assert_eq!(
        err_msg(Auth::from_value(&obj(vec![
            ("grant_type", s("client_credentials")),
            ("username", s("u")),
            ("password", s("p")),
            ("auth_url", JsonValue::Int(7)),
        ]))),
        "Authentication URL for OAuth2 authentication not found"
    );
}

#[test]
fn test_variant_parsers_report_each_missing_field() {
    assert_eq!(
        err_msg(BasicAuth::from_value(&obj(vec![("password", s("p"))]))),
        "Username for Basic authentication not found"
    );
    assert_eq!(
        err_msg(CustomAuth::from_value(&obj(vec![("auth_url", s("https://auth.example"))]))),
        "Authentication body for Custom authentication not found"
    );
    assert_eq!(
        err_msg(Oauth2::from_value(&obj(vec![
            ("username", s("u")),
            ("password", s("p")),
            ("grant_type", JsonValue::Int(1)),
        ]))),
        "Grant type for OAuth2 authentication not found"
    );
}

#[test]
fn test_device_record() {
    let input = obj(vec![
        ("host", s("device.example")),
        ("port", JsonValue::Int(8443)),
        ("auth", obj(vec![("username", s("u")), ("password", s("p"))])),
    ]);
    let device = Device::from_value(&input).unwrap();
    assert_eq!(device.host, "device.example");
    assert_eq!(device.port, Some(8443));
    match device.auth {
        Auth::BasicAuth(b) => assert_eq!(b.username, "u"),
        other => panic!("expected BasicAuth, got {:?}", other),
    }
}

#[test]
fn test_device_port_silently_absent() {
    let input = obj(vec![
        ("host", s("device.example")),
        ("port", s("not a number")),
        ("auth", obj(vec![("username", s("u")), ("password", s("p"))])),
    ]);
    let device = Device::from_value(&input).unwrap();
    assert_eq!(device.port, None);
}

#[test]
fn test_device_error_messages() {
    assert_eq!(err_msg(Device::from_value(&obj(vec![]))), "Host not found");
    assert_eq!(
        err_msg(Device::from_value(&obj(vec![("host", s("device.example"))]))),
        "Auth body not found"
    );
    // A nested descriptor error propagates verbatim.
    assert_eq!(
        err_msg(Device::from_value(&obj(vec![
            ("host", s("device.example")),
            ("auth", obj(vec![("grant_type", s("g"))])),
        ]))),
        "Username for OAuth2 authentication not found"
    );
}

#[test]
fn test_duplicate_keys_first_wins() {
    let input = obj(vec![
        ("username", s("first")),
        ("username", s("second")),
        ("password", s("p")),
    ]);
    match Auth::from_value(&input) {
        Ok(Auth::BasicAuth(b)) => assert_eq!(b.username, "first"),
        other => panic!("expected BasicAuth, got {:?}", other),
    }
}
