//! Authentication and access decisions of the HTTP API: reading the bearer
//! token, turning verified token claims into the request's user, role
//! requirements of the owner/client endpoints, the setup lock, and the
//! check that keeps an uninitialized server closed.

use vstd::prelude::*;
use crate::text::str_eq;
use crate::records::{UserRole, roles_from_names, roles_of_texts};

verus! {

broadcast use vstd::string::group_string_axioms;

/// A user account's identifier (a UUID, as its 128-bit value).
#[derive(Debug, Clone, Copy, PartialEq, Eq, Structural)]
pub struct UserId {
    pub value: u128,
}

impl UserId {
    /// The identifier with the given 128-bit UUID value.
    pub fn from_u128(value: u128) -> (r: UserId)
        ensures
            r.value == value,
    {
        UserId { value }
    }
}

/// The UUID value `uuid::Uuid::parse_str` reads from a text, if it reads one.
pub uninterp spec fn parsed_uuid(text: Seq<char>) -> Option<u128>;

/// `uuid::Uuid::parse_str`, with the UUID given as its 128-bit value
/// (`Uuid::as_u128`) and a failed parse as `None`. The parse depends on
/// the text alone; the contract names its result.
#[verifier::external_body]
fn parse_uuid(text: &str) -> (r: Option<u128>)
    ensures
        r == parsed_uuid(text@),
{
    uuid::Uuid::parse_str(text).ok().map(|u| u.as_u128())
}

/// Parses a user identifier (any UUID form the `uuid` crate accepts).
pub fn parse_user_id(text: &str) -> (r: Option<UserId>)
    ensures
        r == (match parsed_uuid(text@) {
            Some(v) => Some(UserId { value: v }),
            None => None,
        }),
{
    match parse_uuid(text) {
        Some(v) => Some(UserId::from_u128(v)),
        None => None,
    }
}

/// The user a request is made by, as its access token states.
#[derive(Debug)]
pub struct AuthenticatedUser {
    pub id: UserId,
    pub email: String,
    pub roles: Vec<UserRole>,
}

/// The claims of a verified access token.
#[derive(Debug)]
pub struct JwtClaims {
    pub sub: String,
    pub email: String,
    pub roles: Vec<String>,
    pub exp: usize,
}

/// An HTTP rejection: status code and message.
#[derive(Debug)]
pub struct Rejection {
    pub status: u16,
    pub message: String,
}

/// Whether a rejection has the given status and message.
pub open spec fn is_rejection(r: Rejection, status: u16, message: Seq<char>) -> bool {
    r.status == status && r.message@ == message
}

/// The token of an `Authorization` header value: what follows the
/// `Bearer ` prefix.
pub open spec fn bearer_of(h: Seq<char>) -> Option<Seq<char>> {
    if h.len() >= 7 && h.subrange(0, 7) == "Bearer "@ {
        Some(h.subrange(7, h.len() as int))
    } else {
        None
    }
}

/// Reads the bearer token of a request's `Authorization` header (`None`
/// when the header is missing or not text). Without a `Bearer ` token the
/// request is rejected with 401.
pub fn bearer_token<'a>(header: Option<&'a str>) -> (r: Result<&'a str, Rejection>)
    ensures
        match header {
            Some(h) => match bearer_of(h@) {
                Some(t) => r matches Ok(tok) && tok@ == t,
                None => r matches Err(e)
                    && is_rejection(e, 401, "Missing or invalid Authorization header"@),
            },
            None => r matches Err(e)
                && is_rejection(e, 401, "Missing or invalid Authorization header"@),
        },
{
    match header {
        Some(h) => {
            let len = h.unicode_len();
            if len >= 7 && str_eq(h.substring_char(0, 7), "Bearer ") {
                Ok(h.substring_char(7, len))
            } else {
                Err(Rejection {
                    status: 401,
                    message: String::from_str("Missing or invalid Authorization header"),
                })
            }
        },
        None => Err(Rejection {
            status: 401,
            message: String::from_str("Missing or invalid Authorization header"),
        }),
    }
}

/// The request's user from the claims of its access token (`None` when the
/// token did not verify): the subject must be a UUID; roles keep the known
/// role names, in order.
pub fn user_from_claims(claims: Option<JwtClaims>) -> (r: Result<AuthenticatedUser, Rejection>)
    ensures
        match claims {
            None => r matches Err(e) && is_rejection(e, 401, "Invalid token"@),
            Some(c) => match parsed_uuid(c.sub@) {
                None => r matches Err(e) && is_rejection(e, 401, "Invalid user id in token"@),
                Some(v) => r matches Ok(u)
                    && u.id == (UserId { value: v })
                    && u.email@ == c.email@
                    && u.roles@ == roles_of_texts(c.roles@.map_values(|s: String| s@)),
            },
        },
{
    match claims {
        None => Err(Rejection { status: 401, message: String::from_str("Invalid token") }),
        Some(c) => {
            match parse_user_id(c.sub.as_str()) {
                None => Err(Rejection {
                    status: 401,
                    message: String::from_str("Invalid user id in token"),
                }),
                Some(id) => {
                    let roles = roles_from_names(&c.roles);
                    Ok(AuthenticatedUser { id, email: c.email, roles })
                },
            }
        },
    }
}

/// Whether a role list holds a role.
pub fn has_role(roles: &Vec<UserRole>, role: UserRole) -> (r: bool)
    ensures
        r == roles@.contains(role),
{
    let mut i: usize = 0;
    while i < roles.len()
        invariant
            0 <= i <= roles@.len(),
            forall|j: int| 0 <= j < i ==> roles@[j] != role,
        decreases roles@.len() - i,
    {
        if roles[i] == role {
            assert(roles@[i as int] == role);
            return true;
        }
        i += 1;
    }
    false
}

/// Owner endpoints: a user without the owner role is rejected with 403.
pub fn require_owner(user: &AuthenticatedUser) -> (r: Result<(), Rejection>)
    ensures
        user.roles@.contains(UserRole::Owner) <==> r is Ok,
        r matches Err(e) ==> is_rejection(e, 403, "Not an owner"@),
{
    if has_role(&user.roles, UserRole::Owner) {
        Ok(())
    } else {
        Err(Rejection { status: 403, message: String::from_str("Not an owner") })
    }
}

/// Client endpoints: a user without the client role is rejected with 403.
pub fn require_client(user: &AuthenticatedUser) -> (r: Result<(), Rejection>)
    ensures
        user.roles@.contains(UserRole::Client) <==> r is Ok,
        r matches Err(e) ==> is_rejection(e, 403, "Not a client"@),
{
    if has_role(&user.roles, UserRole::Client) {
        Ok(())
    } else {
        Err(Rejection { status: 403, message: String::from_str("Not a client") })
    }
}

/// The number of super administrators as the setup checks read it: a
/// failed count reads as none.
pub open spec fn count_or_zero(count: Result<u64, String>) -> u64 {
    match count {
        Ok(n) => n,
        Err(_) => 0,
    }
}

/// Answer of the setup status endpoint.
#[derive(Debug, Clone, Copy)]
pub struct SetupStatusResponse {
    pub initialized: bool,
}

/// The server is initialized once a super administrator exists.
pub fn setup_status(super_admin_count: Result<u64, String>) -> (r: SetupStatusResponse)
    ensures
        r.initialized == (count_or_zero(super_admin_count) > 0),
{
    let count = match super_admin_count {
        Ok(n) => n,
        Err(_) => 0,
    };
    SetupStatusResponse { initialized: count > 0 }
}

/// The setup registration endpoints are locked (403) once a super
/// administrator exists.
pub fn check_setup_unlocked(super_admin_count: Result<u64, String>) -> (r: Result<(), Rejection>)
    ensures
        r is Ok <==> count_or_zero(super_admin_count) == 0,
        r matches Err(e) ==> is_rejection(e, 403, "Setup is locked: SuperAdmin already exists"@),
{
    let count = match super_admin_count {
        Ok(n) => n,
        Err(_) => 0,
    };
    if count > 0 {
        Err(Rejection {
            status: 403,
            message: String::from_str("Setup is locked: SuperAdmin already exists"),
        })
    } else {
        Ok(())
    }
}

/// Whether `s` begins with `prefix`.
pub open spec fn starts_with(s: Seq<char>, prefix: Seq<char>) -> bool {
    s.len() >= prefix.len() && s.subrange(0, prefix.len() as int) == prefix
}

/// Paths that are reachable before the server is initialized: the setup
/// endpoints and the health check.
pub open spec fn is_open_path_spec(path: Seq<char>) -> bool {
    starts_with(path, "/api/setup/"@) || path == "/api/setup/status"@ || path == "/health"@
}

fn str_starts_with(s: &str, prefix: &str) -> (r: bool)
    ensures
        r == starts_with(s@, prefix@),
{
    let n = prefix.unicode_len();
    let len = s.unicode_len();
    if len >= n {
        str_eq(s.substring_char(0, n), prefix)
    } else {
        false
    }
}

/// Whether a request path is reachable before the server is initialized.
pub fn is_open_path(path: &str) -> (r: bool)
    ensures
        r == is_open_path_spec(path@),
{
    str_starts_with(path, "/api/setup/") || str_eq(path, "/api/setup/status") || str_eq(path, "/health")
}

/// The rejection of a request to a closed path, given the super
/// administrator count (`None` when the server state is not available,
/// and then the request is let through): 503 while no super
/// administrator exists.
pub fn initialization_rejection(super_admin_count: Option<Result<u64, String>>) -> (r: Option<Rejection>)
    ensures
        match super_admin_count {
            None => r is None,
            Some(c) => (r is Some <==> count_or_zero(c) == 0)
                && (r matches Some(e) ==> is_rejection(e, 503, "Service unavailable: system not initialized"@)),
        },
{
    match super_admin_count {
        None => None,
        Some(c) => {
            let count = match c {
                Ok(n) => n,
                Err(_) => 0,
            };
            if count == 0 {
                Some(Rejection {
                    status: 503,
                    message: String::from_str("Service unavailable: system not initialized"),
                })
            } else {
                None
            }
        },
    }
}

/// Whether `t` occurs in `s`.
pub open spec fn contains_text(s: Seq<char>, t: Seq<char>) -> bool {
    exists|i: int| 0 <= i && i + t.len() <= s.len() && #[trigger] s.subrange(i, i + t.len()) == t
}

fn str_contains(s: &str, t: &str) -> (r: bool)
    ensures
        r == contains_text(s@, t@),
{
    let n = t.unicode_len();
    let len = s.unicode_len();
    if n > len {
        return false;
    }
    let last = len - n;
    let mut i: usize = 0;
    loop
        invariant
            n == t@.len(),
            len == s@.len(),
            n <= len,
            last == len - n,
            0 <= i <= last,
            forall|j: int| 0 <= j < i ==> #[trigger] s@.subrange(j, j + n) != t@,
        decreases last - i,
    {
        if str_eq(s.substring_char(i, i + n), t) {
            return true;
        }
        if i == last {
            assert forall|j: int| 0 <= j && j + t@.len() <= s@.len() implies #[trigger] s@.subrange(j, j + t@.len()) != t@ by {
                assert(j <= i);
            }
            return false;
        }
        i += 1;
    }
}

/// Status of a failed invitation lookup: 404 when the error says the
/// invitation was not found, 400 otherwise.
pub fn invitation_view_error_status(error: &str) -> (r: u16)
    ensures
        r == (if contains_text(error@, "not found"@) { 404u16 } else { 400u16 }),
{
    if str_contains(error, "not found") { 404 } else { 400 }
}

/// Setup: first super administrator registration request.
#[derive(Debug)]
pub struct InitiateRegistrationRequest {
    pub email: String,
    pub display_name: String,
}

/// Login request.
#[derive(Debug)]
pub struct InitiateLoginRequest {
    pub email: String,
}

/// The user part of a login answer.
#[derive(Debug)]
pub struct UserInfo {
    pub id: String,
    pub email: String,
    pub display_name: String,
    pub roles: Vec<String>,
}

/// Login answer: the access token and the user.
#[derive(Debug)]
pub struct LoginResponse {
    pub token: String,
    pub user: UserInfo,
}

/// An owner's request to invite a client: the invitee's email, the paths
/// the client is to be granted, and how many hours the invitation stays
/// valid (none: no expiry).
#[derive(Debug)]
pub struct InvitationRequest {
    pub invitee_email: String,
    pub granted_paths: Vec<String>,
    pub expires_in_hours: Option<i64>,
}

/// Query of the owner's permission listing: an optional client filter.
#[derive(Debug)]
pub struct ListPermissionsQuery {
    pub client_id: Option<String>,
}

impl ListPermissionsQuery {
    /// The client filter: the client id when it parses as a UUID, otherwise
    /// no filter.
    pub fn client_filter(&self) -> (r: Option<UserId>)
        ensures
            r == (match self.client_id {
                Some(s) => match parsed_uuid(s@) {
                    Some(v) => Some(UserId { value: v }),
                    None => None,
                },
                None => None,
            }),
    {
        match &self.client_id {
            Some(s) => parse_user_id(s.as_str()),
            None => None,
        }
    }
}

} // verus!
