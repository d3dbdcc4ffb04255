//! The profile lookup of the game's account service: where to ask, and what
//! an answer that is not a profile means.
use vstd::prelude::*;

verus! {

/// Error built from an erroneous answer of the account service.
#[derive(Debug, Clone)]
pub struct APIError {
    status_code: u16,
    status: String,
    message: String,
}

/// The body of an erroneous answer.
pub struct ErrorResponse {
    pub error: String,
    pub error_message: String,
}

pub open spec fn text_of(e: APIError) -> Seq<char> {
    crate::text::decimal(e.spec_status_code() as int) + " ("@ + e.spec_status() + "): "@
        + e.spec_message()
}

impl APIError {
    pub closed spec fn spec_status_code(&self) -> u16 {
        self.status_code
    }

    pub closed spec fn spec_status(&self) -> Seq<char> {
        self.status@
    }

    pub closed spec fn spec_message(&self) -> Seq<char> {
        self.message@
    }

    /// The HTTP status code of the answer.
    pub fn status_code(&self) -> (r: u16)
        ensures
            r == self.spec_status_code(),
    {
        self.status_code
    }

    /// The error status.
    pub fn status(&self) -> (r: &str)
        ensures
            r@ == self.spec_status(),
    {
        self.status.as_str()
    }

    /// The error message with the details.
    pub fn message(&self) -> (r: &str)
        ensures
            r@ == self.spec_message(),
    {
        self.message.as_str()
    }

    pub fn new(status_code: u16, status: &str, message: &str) -> (r: Self)
        ensures
            r.spec_status_code() == status_code,
            r.spec_status() == status@,
            r.spec_message() == message@,
    {
        APIError { status_code, status: String::from_str(status), message: String::from_str(message) }
    }

    pub fn set_status_code(&mut self, status_code: u16)
        ensures
            final(self).spec_status_code() == status_code,
            final(self).spec_status() == old(self).spec_status(),
            final(self).spec_message() == old(self).spec_message(),
    {
        self.status_code = status_code;
    }

    /// `code (status): message`.
    pub fn to_text(&self) -> (r: String)
        ensures
            r@ == text_of(*self),
    {
        let mut s = crate::text::decimal_of(self.status_code as i128);
        s.append(" (");
        s.append(self.status.as_str());
        s.append("): ");
        s.append(self.message.as_str());
        s
    }
}

impl From<ErrorResponse> for APIError {
    fn from(resp: ErrorResponse) -> (r: Self) {
        APIError { status_code: 0, message: resp.error_message, status: resp.error }
    }
}

impl vstd::std_specs::convert::FromSpecImpl<ErrorResponse> for APIError {
    open spec fn obeys_from_spec() -> bool {
        true
    }

    closed spec fn from_spec(resp: ErrorResponse) -> APIError {
        APIError { status_code: 0, message: resp.error_message, status: resp.error }
    }
}

/// The service's root address.
pub open spec fn api_root() -> Seq<char> {
    "https://api.mojang.com"@
}

/// Where the profile of `username` is asked for.
pub fn usernames(username: &str) -> (r: String)
    ensures
        r@ == api_root() + "/users/profiles/minecraft/"@ + username@,
{
    let mut s = String::from_str("https://api.mojang.com");
    s.append("/users/profiles/minecraft/");
    s.append(username);
    s
}

/// Where the profile of account `uuid` is asked for.
pub fn uids(uuid: &str) -> (r: String)
    ensures
        r@ == api_root() + "/user/profile/"@ + uuid@,
{
    let mut s = String::from_str("https://api.mojang.com");
    s.append("/user/profile/");
    s.append(uuid);
    s
}

/// How an answer of the service is to be read, by its status code.
#[derive(Clone, Copy, Debug, PartialEq, Eq, Structural)]
pub enum Reading {
    /// No content: the account does not exist.
    Missing,
    /// The body is an `ErrorResponse`.
    Failure,
    /// The body is the profile.
    Profile,
}

pub open spec fn spec_reading(status: u16) -> Reading {
    if status == 204 {
        Reading::Missing
    } else if status > 399 {
        Reading::Failure
    } else {
        Reading::Profile
    }
}

/// How to read an answer with this status code.
pub fn reading(status: u16) -> (r: Reading)
    ensures
        r == spec_reading(status),
{
    if status == 204 {
        Reading::Missing
    } else if status > 399 {
        Reading::Failure
    } else {
        Reading::Profile
    }
}

/// The error for an account that does not exist.
pub fn not_found() -> (r: APIError)
    ensures
        r.spec_status_code() == 404,
        r.spec_status() == "NotFound"@,
        r.spec_message() == "This user does not exist."@,
{
    APIError::new(404, "NotFound", "This user does not exist.")
}

/// The error for an erroneous answer with status `status` and body `body`.
pub fn failure(status: u16, body: ErrorResponse) -> (r: APIError)
    ensures
        r.spec_status_code() == status,
        r.spec_status() == body.error@,
        r.spec_message() == body.error_message@,
{
    let mut err = APIError::from(body);
    err.set_status_code(status);
    err
}


/// The account id that `s` spells, in hyphenated lower-case form, if `s` is
/// an account id in any of the accepted spellings.
pub uninterp spec fn hyphenated_uuid(s: Seq<char>) -> Option<Seq<char>>;

/// Relies on uuid::Uuid::parse_str, which accepts the simple, hyphenated,
/// braced and URN spellings, and on the `Display` of uuid::Uuid, which
/// writes the 36-character hyphenated lower-case form.
#[verifier::external_body]
fn parse_uuid(s: &str) -> (r: Option<String>)
    ensures
        r matches Some(u) ==> hyphenated_uuid(s@) == Some(u@) && u@.len() == 36,
        r is None ==> hyphenated_uuid(s@) is None,
{
    match uuid::Uuid::parse_str(s) {
        Ok(u) => Some(u.to_string()),
        Err(_) => None,
    }
}

/// Which way a profile is looked up.
#[derive(Debug)]
pub enum Lookup {
    /// Ask for the name of the account with this id.
    NameOf(String),
    /// Ask for the id of the account with this name.
    UuidOf(String),
}

/// The lookup for `arg`, given what it parsed to as an account id.
pub fn lookup_from(arg: &str, parsed: Option<String>) -> (r: Lookup)
    ensures
        parsed matches Some(u) ==> (r matches Lookup::NameOf(id) && id@ == u@),
        parsed is None ==> (r matches Lookup::UuidOf(name) && name@ == arg@),
{
    match parsed {
        Some(u) => Lookup::NameOf(u),
        None => Lookup::UuidOf(String::from_str(arg)),
    }
}

/// An argument that is an account id asks for the account's name; any other
/// argument is taken for a name whose id is asked for.
pub fn lookup_for(arg: &str) -> (r: Lookup)
    ensures
        hyphenated_uuid(arg@) matches Some(u) ==> (r matches Lookup::NameOf(id) && id@ == u),
        hyphenated_uuid(arg@) is None ==> (r matches Lookup::UuidOf(name) && name@ == arg@),
{
    let parsed = parse_uuid(arg);
    lookup_from(arg, parsed)
}

} // verus!
