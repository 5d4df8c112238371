//! User-facing credential payloads and the user-info payload the server
//! returns on register/login, together with the parser for its JSON body.

use vstd::prelude::*;
use vstd::string::*;

verus! {

/// Credentials sent to the registration endpoint.
#[derive(Debug)]
pub struct RegisterUser {
    pub username: String,
    pub pass: String,
    pub email: String,
}

/// Credentials sent to the login endpoint.
#[derive(Debug)]
pub struct LoginUser {
    pub username: String,
    pub pass: String,
}

/// The new credential sent to the keyed password-reset endpoint.
#[derive(Debug)]
pub struct ResetUser {
    pub pass: String,
}

/// The user description the server returns on a successful register or
/// login: `{uuid, is_admin}`.
#[derive(Debug)]
pub struct UserInfo {
    pub uuid: String,
    pub is_admin: bool,
}

impl UserInfo {
    /// The blank user: no identity, no privileges.
    pub fn new() -> (u: UserInfo)
        ensures
            u.uuid@ == Seq::<char>::empty(),
            u.is_admin == false,
    {
        UserInfo { uuid: String::new(), is_admin: false }
    }

    /// Whether this user carries an identity at all: route guards send
    /// anonymous visitors back to the login page.
    pub fn has_identity(&self) -> (r: bool)
        ensures
            r == (self.uuid@.len() > 0),
    {
        self.uuid.as_str().unicode_len() > 0
    }

    /// Whether an admin-only route may show itself to this user: an
    /// identified administrator, nobody else.
    pub fn admin_allowed(&self) -> (r: bool)
        ensures
            r == (self.uuid@.len() > 0 && self.is_admin),
    {
        self.has_identity() && self.is_admin
    }
}

/// What parsing a JSON user-info body yields: the `uuid` string and
/// `is_admin` boolean fields when the text is a JSON object carrying both,
/// `None` otherwise.
pub uninterp spec fn json_user_of(s: Seq<char>) -> Option<(Seq<char>, bool)>;

/// Relies on serde_json::from_str and serde_json::Value's accessors: parses
/// `s` as JSON and extracts the `uuid` string and `is_admin` boolean
/// fields. The result depends on the characters of `s` alone.
#[verifier::external_body]
fn parse_user_fields(s: &str) -> (r: Option<(String, bool)>)
    ensures
        match r {
            Some(p) => json_user_of(s@) == Some((p.0@, p.1)),
            None => json_user_of(s@) is None,
        },
{
    let v: serde_json::Value = serde_json::from_str(s).ok()?;
    let uuid = v.get("uuid")?.as_str()?.to_string();
    let is_admin = v.get("is_admin")?.as_bool()?;
    Some((uuid, is_admin))
}

/// Decode a response body into a `UserInfo`, or `None` when the body does
/// not carry one.
pub fn user_info_from_json(s: &str) -> (r: Option<UserInfo>)
    ensures
        match r {
            Some(u) => json_user_of(s@) == Some((u.uuid@, u.is_admin)),
            None => json_user_of(s@) is None,
        },
{
    match parse_user_fields(s) {
        Some(p) => Some(UserInfo { uuid: p.0, is_admin: p.1 }),
        None => None,
    }
}

/// What parsing a JSON user-list body yields: the `uuid` and `is_admin`
/// fields of each element when the text is a JSON array of objects
/// carrying both, `None` otherwise.
pub uninterp spec fn json_user_list_of(s: Seq<char>) -> Option<Seq<(Seq<char>, bool)>>;

/// Relies on serde_json::from_str and serde_json::Value's accessors:
/// parses `s` as a JSON array and extracts each element's `uuid` string
/// and `is_admin` boolean. The result depends on the characters of `s`
/// alone.
#[verifier::external_body]
fn parse_user_list_fields(s: &str) -> (r: Option<Vec<(String, bool)>>)
    ensures
        match r {
            Some(v) => json_user_list_of(s@) matches Some(l) && l.len() == v@.len() && (forall|
                i: int,
            |
                0 <= i < l.len() ==> l[i].0 == v@[i].0@ && l[i].1 == v@[i].1),
            None => json_user_list_of(s@) is None,
        },
{
    let v: serde_json::Value = serde_json::from_str(s).ok()?;
    let arr = v.as_array()?;
    let mut out: Vec<(String, bool)> = Vec::new();
    for item in arr {
        let uuid = item.get("uuid")?.as_str()?.to_string();
        let is_admin = item.get("is_admin")?.as_bool()?;
        out.push((uuid, is_admin));
    }
    Some(out)
}

/// Decode a response body into the list of users it describes, or `None`
/// when the body does not carry one.
pub fn user_list_from_json(s: &str) -> (r: Option<Vec<UserInfo>>)
    ensures
        match r {
            Some(v) => json_user_list_of(s@) matches Some(l) && l.len() == v@.len() && (forall|
                i: int,
            |
                0 <= i < l.len() ==> v@[i].uuid@ == l[i].0 && v@[i].is_admin == l[i].1),
            None => json_user_list_of(s@) is None,
        },
{
    match parse_user_list_fields(s) {
        Some(fields) => {
            let n = fields.len();
            let mut out: Vec<UserInfo> = Vec::new();
            let mut i: usize = 0;
            while i < n
                invariant
                    i <= n,
                    n == fields@.len(),
                    out@.len() == i,
                    forall|j: int|
                        0 <= j < i ==> out@[j].uuid@ == fields@[j].0@ && out@[j].is_admin
                            == fields@[j].1,
                decreases n - i,
            {
                let entry = &fields[i];
                out.push(UserInfo { uuid: entry.0.clone(), is_admin: entry.1 });
                i = i + 1;
            }
            Some(out)
        },
        None => None,
    }
}

} // verus!
