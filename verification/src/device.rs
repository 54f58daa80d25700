//! Device records and the discriminated parsing of authentication descriptors.
//!
//! An authentication descriptor is one of three variants, selected by which
//! disambiguating keys the input object carries, in a fixed precedence order:
//! `grant_type` selects OAuth2, else `auth_body` selects Custom, else
//! `username` together with `password` selects Basic. Selection is final: once
//! a branch is chosen, a missing field of that variant fails the parse with a
//! field-specific message — it is never reinterpreted as another variant.

use crate::json::{
    spec_as_i64, spec_get, spec_has_key, spec_str_field, JsonModel, JsonValue,
};
use crate::Error;
use vstd::prelude::*;

verus! {

/// Basic authentication: a username and a password.
#[derive(Debug, PartialEq)]
pub struct BasicAuth {
    pub username: String,
    pub password: String,
}

/// The specification-level shape of a [`BasicAuth`].
pub struct BasicAuthModel {
    pub username: Seq<char>,
    pub password: Seq<char>,
}

impl View for BasicAuth {
    type V = BasicAuthModel;

    open spec fn view(&self) -> BasicAuthModel {
        BasicAuthModel { username: self.username@, password: self.password@ }
    }
}

/// OAuth2 authentication: credentials, a grant type, and the token URL.
#[derive(Debug, PartialEq)]
pub struct Oauth2 {
    pub username: String,
    pub password: String,
    pub grant_type: String,
    pub auth_url: String,
}

/// The specification-level shape of an [`Oauth2`].
pub struct Oauth2Model {
    pub username: Seq<char>,
    pub password: Seq<char>,
    pub grant_type: Seq<char>,
    pub auth_url: Seq<char>,
}

impl View for Oauth2 {
    type V = Oauth2Model;

    open spec fn view(&self) -> Oauth2Model {
        Oauth2Model {
            username: self.username@,
            password: self.password@,
            grant_type: self.grant_type@,
            auth_url: self.auth_url@,
        }
    }
}

/// Custom authentication: an arbitrary structured body and a URL. The body's
/// shape is intentionally unconstrained, so it stays an untyped value.
#[derive(Debug, PartialEq)]
pub struct CustomAuth {
    pub auth_body: JsonValue,
    pub auth_url: String,
}

/// The specification-level shape of a [`CustomAuth`].
pub struct CustomAuthModel {
    pub auth_body: JsonModel,
    pub auth_url: Seq<char>,
}

impl View for CustomAuth {
    type V = CustomAuthModel;

    open spec fn view(&self) -> CustomAuthModel {
        CustomAuthModel { auth_body: self.auth_body@, auth_url: self.auth_url@ }
    }
}

/// An authentication descriptor: exactly one of the three variants.
#[derive(Debug, PartialEq)]
pub enum Auth {
    BasicAuth(BasicAuth),
    Oauth2(Oauth2),
    Custom(CustomAuth),
}

/// The specification-level shape of an [`Auth`].
pub enum AuthModel {
    BasicAuth(BasicAuthModel),
    Oauth2(Oauth2Model),
    Custom(CustomAuthModel),
}

impl View for Auth {
    type V = AuthModel;

    open spec fn view(&self) -> AuthModel {
        match self {
            Auth::BasicAuth(a) => AuthModel::BasicAuth(a@),
            Auth::Oauth2(a) => AuthModel::Oauth2(a@),
            Auth::Custom(a) => AuthModel::Custom(a@),
        }
    }
}

/// A device: a host, an optional port, and an authentication descriptor.
#[derive(Debug, PartialEq)]
pub struct Device {
    pub host: String,
    pub port: Option<i64>,
    pub auth: Auth,
}

/// The specification-level shape of a [`Device`].
pub struct DeviceModel {
    pub host: Seq<char>,
    pub port: Option<i64>,
    pub auth: AuthModel,
}

impl View for Device {
    type V = DeviceModel;

    open spec fn view(&self) -> DeviceModel {
        DeviceModel { host: self.host@, port: self.port, auth: self.auth@ }
    }
}

/// The parse of a Basic descriptor: `username` and `password` must be present
/// and string-typed.
pub open spec fn spec_parse_basic_auth(v: JsonModel) -> Result<BasicAuthModel, Seq<char>> {
    match spec_str_field(v, "username"@) {
        None => Err("Username for Basic authentication not found"@),
        Some(username) => match spec_str_field(v, "password"@) {
            None => Err("Password for Basic authentication not found"@),
            Some(password) => Ok(BasicAuthModel { username, password }),
        },
    }
}

/// The parse of an OAuth2 descriptor: `username`, `password`, `grant_type` and
/// `auth_url` must all be present and string-typed, checked in that order.
pub open spec fn spec_parse_oauth2(v: JsonModel) -> Result<Oauth2Model, Seq<char>> {
    match spec_str_field(v, "username"@) {
        None => Err("Username for OAuth2 authentication not found"@),
        Some(username) => match spec_str_field(v, "password"@) {
            None => Err("Password for OAuth2 authentication not found"@),
            Some(password) => match spec_str_field(v, "grant_type"@) {
                None => Err("Grant type for OAuth2 authentication not found"@),
                Some(grant_type) => match spec_str_field(v, "auth_url"@) {
                    None => Err("Authentication URL for OAuth2 authentication not found"@),
                    Some(auth_url) => Ok(Oauth2Model { username, password, grant_type, auth_url }),
                },
            },
        },
    }
}

/// The parse of a Custom descriptor: `auth_body` may hold any value but must
/// be present; `auth_url` must be present and string-typed.
pub open spec fn spec_parse_custom_auth(v: JsonModel) -> Result<CustomAuthModel, Seq<char>> {
    match spec_get(v, "auth_body"@) {
        None => Err("Authentication body for Custom authentication not found"@),
        Some(auth_body) => match spec_str_field(v, "auth_url"@) {
            None => Err("Authentication URL for Custom authentication not found"@),
            Some(auth_url) => Ok(CustomAuthModel { auth_body, auth_url }),
        },
    }
}

/// The discriminated parse of an authentication descriptor. The input must be
/// object-shaped; the first matching rule — `grant_type`, then `auth_body`,
/// then `username` with `password` — selects the variant, and the selected
/// variant's own parse decides, with no fallback to a later rule.
pub open spec fn spec_parse_auth(v: JsonModel) -> Result<AuthModel, Seq<char>> {
    if !(v is Object) {
        Err("Auth body not valid"@)
    } else if spec_has_key(v, "grant_type"@) {
        match spec_parse_oauth2(v) {
            Ok(a) => Ok(AuthModel::Oauth2(a)),
            Err(m) => Err(m),
        }
    } else if spec_has_key(v, "auth_body"@) {
        match spec_parse_custom_auth(v) {
            Ok(a) => Ok(AuthModel::Custom(a)),
            Err(m) => Err(m),
        }
    } else if spec_has_key(v, "username"@) && spec_has_key(v, "password"@) {
        match spec_parse_basic_auth(v) {
            Ok(a) => Ok(AuthModel::BasicAuth(a)),
            Err(m) => Err(m),
        }
    } else {
        Err("Not recognizable authentication type"@)
    }
}

/// The parse of a device: `host` must be present and string-typed, `port` is
/// optional and silently absent unless it is an integer that fits, and `auth`
/// must be present and parse as a descriptor, whose error propagates verbatim.
pub open spec fn spec_parse_device(v: JsonModel) -> Result<DeviceModel, Seq<char>> {
    match spec_str_field(v, "host"@) {
        None => Err("Host not found"@),
        Some(host) => {
            let port = match spec_get(v, "port"@) {
                Some(f) => spec_as_i64(f),
                None => None,
            };
            match spec_get(v, "auth"@) {
                None => Err("Auth body not found"@),
                Some(auth_value) => match spec_parse_auth(auth_value) {
                    Ok(auth) => Ok(DeviceModel { host, port, auth }),
                    Err(m) => Err(m),
                },
            }
        },
    }
}

impl BasicAuth {
    /// Parses a Basic descriptor out of an untyped value.
    pub fn from_value(value: &JsonValue) -> (r: Result<BasicAuth, Error>)
        ensures
            match r {
                Ok(a) => spec_parse_basic_auth(value@) == Ok::<BasicAuthModel, Seq<char>>(a@),
                Err(e) => spec_parse_basic_auth(value@) == Err::<BasicAuthModel, Seq<char>>(e@),
            },
    {
        let username = match value.get_str("username") {
            Some(s) => s.to_owned(),
            None => {
                return Err(Error::custom("Username for Basic authentication not found"));
            },
        };
        let password = match value.get_str("password") {
            Some(s) => s.to_owned(),
            None => {
                return Err(Error::custom("Password for Basic authentication not found"));
            },
        };
        Ok(BasicAuth { username, password })
    }
}

impl Oauth2 {
    /// Parses an OAuth2 descriptor out of an untyped value.
    pub fn from_value(value: &JsonValue) -> (r: Result<Oauth2, Error>)
        ensures
            match r {
                Ok(a) => spec_parse_oauth2(value@) == Ok::<Oauth2Model, Seq<char>>(a@),
                Err(e) => spec_parse_oauth2(value@) == Err::<Oauth2Model, Seq<char>>(e@),
            },
    {
        let username = match value.get_str("username") {
            Some(s) => s.to_owned(),
            None => {
                return Err(Error::custom("Username for OAuth2 authentication not found"));
            },
        };
        let password = match value.get_str("password") {
            Some(s) => s.to_owned(),
            None => {
                return Err(Error::custom("Password for OAuth2 authentication not found"));
            },
        };
        let grant_type = match value.get_str("grant_type") {
            Some(s) => s.to_owned(),
            None => {
                return Err(Error::custom("Grant type for OAuth2 authentication not found"));
            },
        };
        let auth_url = match value.get_str("auth_url") {
            Some(s) => s.to_owned(),
            None => {
                return Err(
                    Error::custom("Authentication URL for OAuth2 authentication not found"),
                );
            },
        };
        Ok(Oauth2 { username, password, grant_type, auth_url })
    }
}

impl CustomAuth {
    /// Parses a Custom descriptor out of an untyped value. The body is kept as
    /// it stands, whatever its shape.
    pub fn from_value(value: &JsonValue) -> (r: Result<CustomAuth, Error>)
        ensures
            match r {
                Ok(a) => spec_parse_custom_auth(value@) == Ok::<CustomAuthModel, Seq<char>>(a@),
                Err(e) => spec_parse_custom_auth(value@) == Err::<CustomAuthModel, Seq<char>>(
                    e@,
                ),
            },
    {
        let auth_body = match value.get("auth_body") {
            Some(body) => body.clone(),
            None => {
                return Err(
                    Error::custom("Authentication body for Custom authentication not found"),
                );
            },
        };
        let auth_url = match value.get_str("auth_url") {
            Some(s) => s.to_owned(),
            None => {
                return Err(
                    Error::custom("Authentication URL for Custom authentication not found"),
                );
            },
        };
        Ok(CustomAuth { auth_body, auth_url })
    }
}

impl Auth {
    /// Parses an authentication descriptor, discriminating the variant by key
    /// presence in the fixed precedence order.
    pub fn from_value(value: &JsonValue) -> (r: Result<Auth, Error>)
        ensures
            match r {
                Ok(a) => spec_parse_auth(value@) == Ok::<AuthModel, Seq<char>>(a@),
                Err(e) => spec_parse_auth(value@) == Err::<AuthModel, Seq<char>>(e@),
            },
    {
        if !value.is_object() {
            return Err(Error::custom("Auth body not valid"));
        }
        if value.contains_key("grant_type") {
            match Oauth2::from_value(value) {
                Ok(a) => Ok(Auth::Oauth2(a)),
                Err(e) => Err(e),
            }
        } else if value.contains_key("auth_body") {
            match CustomAuth::from_value(value) {
                Ok(a) => Ok(Auth::Custom(a)),
                Err(e) => Err(e),
            }
        } else if value.contains_key("username") && value.contains_key("password") {
            match BasicAuth::from_value(value) {
                Ok(a) => Ok(Auth::BasicAuth(a)),
                Err(e) => Err(e),
            }
        } else {
            Err(Error::custom("Not recognizable authentication type"))
        }
    }
}

impl Device {
    /// Parses a device record out of an untyped value. A missing or mistyped
    /// `port` is silently absent; a nested descriptor error propagates
    /// verbatim.
    pub fn from_value(value: &JsonValue) -> (r: Result<Device, Error>)
        ensures
            match r {
                Ok(d) => spec_parse_device(value@) == Ok::<DeviceModel, Seq<char>>(d@),
                Err(e) => spec_parse_device(value@) == Err::<DeviceModel, Seq<char>>(e@),
            },
    {
        let host = match value.get_str("host") {
            Some(s) => s.to_owned(),
            None => {
                return Err(Error::custom("Host not found"));
            },
        };
        let port = match value.get("port") {
            Some(f) => f.as_i64(),
            None => None,
        };
        let auth_value = match value.get("auth") {
            Some(a) => a,
            None => {
                return Err(Error::custom("Auth body not found"));
            },
        };
        let auth = match Auth::from_value(auth_value) {
            Ok(a) => a,
            Err(e) => {
                return Err(e);
            },
        };
        Ok(Device { host, port, auth })
    }
}

/// Discrimination precedence: an object carrying `grant_type` resolves by the
/// OAuth2 rules alone — never as Basic — whatever other keys it carries.
pub proof fn lemma_auth_precedence(v: JsonModel)
    requires
        v is Object,
        spec_has_key(v, "grant_type"@),
    ensures
        spec_parse_auth(v) == (match spec_parse_oauth2(v) {
            Ok(a) => Ok::<AuthModel, Seq<char>>(AuthModel::Oauth2(a)),
            Err(m) => Err::<AuthModel, Seq<char>>(m),
        }),
        forall|b: BasicAuthModel|
            spec_parse_auth(v) != Ok::<AuthModel, Seq<char>>(AuthModel::BasicAuth(b)),
{
}

} // verus!
