//! The guard of the internal routes: a request passes where its
//! authorization header is a basic authorization that carries the password
//! as the user name, and no password.

use crate::text::{optional_str, optional_text};
use actix_web_httpauth::headers::authorization::{Basic, Scheme};
use vstd::prelude::*;
use vstd::utf8::encode_utf8_decode_utf8;

verus! {

/// What a basic authorization header carries.
pub struct Credentials {
    user_id: String,
    password: Option<String>,
}

/// [`Credentials`] in contracts.
pub struct CredentialsView {
    pub user_id: Seq<char>,
    pub password: Option<Seq<char>>,
}

impl View for Credentials {
    type V = CredentialsView;

    closed spec fn view(&self) -> CredentialsView {
        CredentialsView {
            user_id: self.user_id@,
            password: optional_text(self.password),
        }
    }
}

impl Credentials {
    /// The credentials of the user `user_id`, with `password` where there is
    /// one.
    pub fn new(user_id: &str, password: Option<&str>) -> (credentials: Credentials)
        ensures
            credentials@.user_id == user_id@,
            credentials@.password == optional_str(password),
    {
        let password = match password {
            Some(password) => Some(String::from_str(password)),
            None => None,
        };
        Credentials { user_id: String::from_str(user_id), password }
    }

    /// The user name.
    pub fn user_id(&self) -> (user_id: &str)
        ensures
            user_id@ == self@.user_id,
    {
        self.user_id.as_str()
    }

    /// The password, where there is one.
    pub fn password(&self) -> (password: Option<&str>)
        ensures
            optional_str(password) == self@.password,
    {
        match &self.password {
            Some(password) => Some(password.as_str()),
            None => None,
        }
    }
}

/// What `Basic::parse` of `actix_web_httpauth` reads from an authorization
/// header with the bytes `header`; `None` where it refuses the header.
pub uninterp spec fn basic_credentials(header: Seq<u8>) -> Option<CredentialsView>;

/// `Basic::parse` of `actix_web_httpauth`, on the header value that
/// `HeaderValue::from_bytes` makes of `header`: the user name and the
/// password that the header carries, and `None` where the bytes are no header
/// value or no basic authorization.
#[verifier::external_body]
fn parse_basic(header: &[u8]) -> (credentials: Option<Credentials>)
    ensures
        parsed_view(credentials) == basic_credentials(header@),
{
    let value = actix_web::http::HeaderValue::from_bytes(header).ok()?;
    let basic = <Basic as Scheme>::parse(&value).ok()?;
    Some(
        Credentials {
            user_id: basic.user_id().to_string(),
            password: basic.password().map(|password| password.to_string()),
        },
    )
}

/// `constant_time_eq::constant_time_eq`: whether the two byte strings are
/// equal.
#[verifier::external_body]
fn bytes_equal(a: &[u8], b: &[u8]) -> (equal: bool)
    ensures
        equal == (a@ == b@),
{
    constant_time_eq::constant_time_eq(a, b)
}

/// Whether credentials open what `password` guards: there are some, they
/// carry no password, and their user name is `password`.
pub open spec fn opens(password: Seq<char>, credentials: Option<CredentialsView>) -> bool {
    match credentials {
        Some(credentials) => credentials.password is None && credentials.user_id == password,
        None => false,
    }
}

/// Credentials, where a request carries some, in contracts.
pub open spec fn carried_view(credentials: Option<&Credentials>) -> Option<CredentialsView> {
    match credentials {
        Some(credentials) => Some(credentials@),
        None => None,
    }
}

/// Credentials, where a header was read as some, in contracts.
pub open spec fn parsed_view(credentials: Option<Credentials>) -> Option<CredentialsView> {
    match credentials {
        Some(credentials) => Some(credentials@),
        None => None,
    }
}

/// What a request carries whose authorization header has the bytes `header`,
/// `None` where it has no such header.
pub open spec fn header_credentials(header: Option<Seq<u8>>) -> Option<CredentialsView> {
    match header {
        Some(header) => basic_credentials(header),
        None => None,
    }
}

/// The bytes of a header, where there is one, in contracts.
pub open spec fn header_view(header: Option<&[u8]>) -> Option<Seq<u8>> {
    match header {
        Some(header) => Some(header@),
        None => None,
    }
}

/// The guard of the internal routes.
pub struct BasicAuthGuard {
    password: String,
}

impl View for BasicAuthGuard {
    type V = Seq<char>;

    closed spec fn view(&self) -> Seq<char> {
        self.password@
    }
}

impl BasicAuthGuard {
    /// The guard that `password` opens.
    pub fn new(password: &str) -> (guard: BasicAuthGuard)
        ensures
            guard@ == password@,
    {
        BasicAuthGuard { password: String::from_str(password) }
    }

    /// Whether a request passes whose authorization header has the bytes
    /// `header`, `None` where it has no such header.
    pub fn check(&self, header: Option<&[u8]>) -> (passes: bool)
        ensures
            passes == opens(self@, header_credentials(header_view(header))),
    {
        match header {
            Some(header) => {
                let credentials = parse_basic(header);
                self.allows(credentials.as_ref())
            },
            None => false,
        }
    }

    /// Whether a request passes that carries `credentials`, `None` where it
    /// carries none.
    pub fn allows(&self, credentials: Option<&Credentials>) -> (passes: bool)
        ensures
            passes == opens(self@, carried_view(credentials)),
    {
        match credentials {
            Some(credentials) => {
                let no_password = credentials.password().is_none();
                let same = bytes_equal(
                    self.password.as_str().as_bytes(),
                    credentials.user_id().as_bytes(),
                );
                proof {
                    encode_utf8_decode_utf8(self.password@);
                    encode_utf8_decode_utf8(credentials@.user_id);
                }
                no_password && same
            },
            None => false,
        }
    }
}

} // verus!
