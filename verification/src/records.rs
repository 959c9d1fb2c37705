//! The enumerations of the account and invitation model and their text
//! forms in the database (and in access tokens).

use vstd::prelude::*;
use crate::text::str_eq;

verus! {

broadcast use vstd::string::group_string_axioms;

/// A role a user account holds.
#[derive(Debug, Clone, Copy, PartialEq, Eq, Structural)]
pub enum UserRole {
    SuperAdmin,
    Owner,
    Client,
}

/// The lifecycle state of a user account.
#[derive(Debug, Clone, Copy, PartialEq, Eq, Structural)]
pub enum UserStatus {
    Active,
    Suspended,
    Deleted,
}

/// The lifecycle state of an invitation.
#[derive(Debug, Clone, Copy, PartialEq, Eq, Structural)]
pub enum InvitationStatus {
    Pending,
    Accepted,
    Revoked,
    Expired,
}

/// Severity of a log message sent by a sandbox application.
#[derive(Debug, Clone, Copy, PartialEq, Eq, Structural)]
pub enum LogLevel {
    Debug,
    Info,
    Warn,
    Error,
}

/// Database text of a role.
pub open spec fn role_text(r: UserRole) -> Seq<char> {
    match r {
        UserRole::SuperAdmin => "super_admin"@,
        UserRole::Owner => "owner"@,
        UserRole::Client => "client"@,
    }
}

/// The role a database (or token) text names, if any.
pub open spec fn role_of_text(s: Seq<char>) -> Option<UserRole> {
    if s == "super_admin"@ { Some(UserRole::SuperAdmin) }
    else if s == "owner"@ { Some(UserRole::Owner) }
    else if s == "client"@ { Some(UserRole::Client) }
    else { None }
}

/// Database text of an account status.
pub open spec fn status_text(s: UserStatus) -> Seq<char> {
    match s {
        UserStatus::Active => "active"@,
        UserStatus::Suspended => "suspended"@,
        UserStatus::Deleted => "deleted"@,
    }
}

/// The account status of a database text; anything unknown reads as active.
pub open spec fn status_of_text(s: Seq<char>) -> UserStatus {
    if s == "suspended"@ { UserStatus::Suspended }
    else if s == "deleted"@ { UserStatus::Deleted }
    else { UserStatus::Active }
}

/// Database text of an invitation status (the variant's name).
pub open spec fn invitation_status_text(s: InvitationStatus) -> Seq<char> {
    match s {
        InvitationStatus::Pending => "Pending"@,
        InvitationStatus::Accepted => "Accepted"@,
        InvitationStatus::Revoked => "Revoked"@,
        InvitationStatus::Expired => "Expired"@,
    }
}

/// The invitation status of a database text; anything unknown reads as pending.
pub open spec fn invitation_status_of_text(s: Seq<char>) -> InvitationStatus {
    if s == "Accepted"@ { InvitationStatus::Accepted }
    else if s == "Revoked"@ { InvitationStatus::Revoked }
    else if s == "Expired"@ { InvitationStatus::Expired }
    else { InvitationStatus::Pending }
}

/// The roles named in a list of texts, in order, skipping unknown names.
pub open spec fn roles_of_texts(names: Seq<Seq<char>>) -> Seq<UserRole>
    decreases names.len(),
{
    if names.len() == 0 {
        seq![]
    } else {
        let rest = roles_of_texts(names.drop_last());
        match role_of_text(names.last()) {
            Some(r) => rest.push(r),
            None => rest,
        }
    }
}

/// The texts of a list of roles, in order.
pub open spec fn role_texts(roles: Seq<UserRole>) -> Seq<Seq<char>> {
    roles.map_values(|r: UserRole| role_text(r))
}

impl UserRole {
    /// The role's database text.
    pub fn as_db_str(&self) -> (s: &'static str)
        ensures
            s@ == role_text(*self),
    {
        match self {
            UserRole::SuperAdmin => "super_admin",
            UserRole::Owner => "owner",
            UserRole::Client => "client",
        }
    }

    /// The role a database (or token) text names, if any.
    pub fn from_db_str(s: &str) -> (r: Option<UserRole>)
        ensures
            r == role_of_text(s@),
    {
        if str_eq(s, "super_admin") { Some(UserRole::SuperAdmin) }
        else if str_eq(s, "owner") { Some(UserRole::Owner) }
        else if str_eq(s, "client") { Some(UserRole::Client) }
        else { None }
    }
}

impl UserStatus {
    /// The status's database text.
    pub fn as_db_str(&self) -> (s: &'static str)
        ensures
            s@ == status_text(*self),
    {
        match self {
            UserStatus::Active => "active",
            UserStatus::Suspended => "suspended",
            UserStatus::Deleted => "deleted",
        }
    }

    /// The status of a database text; unknown texts read as active.
    pub fn from_db_str(s: &str) -> (r: UserStatus)
        ensures
            r == status_of_text(s@),
    {
        if str_eq(s, "suspended") { UserStatus::Suspended }
        else if str_eq(s, "deleted") { UserStatus::Deleted }
        else { UserStatus::Active }
    }
}

impl InvitationStatus {
    /// The status's database text (its variant name).
    pub fn as_db_str(&self) -> (s: &'static str)
        ensures
            s@ == invitation_status_text(*self),
    {
        match self {
            InvitationStatus::Pending => "Pending",
            InvitationStatus::Accepted => "Accepted",
            InvitationStatus::Revoked => "Revoked",
            InvitationStatus::Expired => "Expired",
        }
    }

    /// The status of a database text; unknown texts read as pending.
    pub fn from_db_str(s: &str) -> (r: InvitationStatus)
        ensures
            r == invitation_status_of_text(s@),
    {
        if str_eq(s, "Accepted") { InvitationStatus::Accepted }
        else if str_eq(s, "Revoked") { InvitationStatus::Revoked }
        else if str_eq(s, "Expired") { InvitationStatus::Expired }
        else { InvitationStatus::Pending }
    }
}

/// The role of a single-role column: the role the text names, client
/// for any other text.
pub open spec fn column_role(s: Seq<char>) -> UserRole {
    match role_of_text(s) {
        Some(r) => r,
        None => UserRole::Client,
    }
}

/// Reads a single-role column.
pub fn role_from_column(s: &str) -> (r: UserRole)
    ensures
        r == column_role(s@),
{
    match UserRole::from_db_str(s) {
        Some(r) => r,
        None => UserRole::Client,
    }
}

/// The roles named in a list of texts, in order; unknown names are skipped.
pub fn roles_from_names(names: &Vec<String>) -> (r: Vec<UserRole>)
    ensures
        r@ == roles_of_texts(names@.map_values(|s: String| s@)),
{
    let ghost texts = names@.map_values(|s: String| s@);
    let mut roles: Vec<UserRole> = Vec::new();
    let mut i: usize = 0;
    while i < names.len()
        invariant
            texts == names@.map_values(|s: String| s@),
            0 <= i <= names@.len(),
            roles@ == roles_of_texts(texts.subrange(0, i as int)),
        decreases names@.len() - i,
    {
        let r = UserRole::from_db_str(names[i].as_str());
        proof {
            assert(texts.subrange(0, i + 1).drop_last() =~= texts.subrange(0, i as int));
            assert(texts.subrange(0, i + 1).last() == names@[i as int]@);
        }
        match r {
            Some(role) => roles.push(role),
            None => {},
        }
        i += 1;
    }
    assert(texts.subrange(0, names@.len() as int) =~= texts);
    roles
}

/// The texts of a list of roles, in order.
pub fn role_names(roles: &Vec<UserRole>) -> (r: Vec<&'static str>)
    ensures
        r@.len() == roles@.len(),
        forall|i: int| 0 <= i < r@.len() ==> (#[trigger] r@[i])@ == role_text(roles@[i]),
{
    let mut names: Vec<&'static str> = Vec::new();
    let mut i: usize = 0;
    while i < roles.len()
        invariant
            0 <= i <= roles@.len(),
            names@.len() == i,
            forall|j: int| 0 <= j < i ==> (#[trigger] names@[j])@ == role_text(roles@[j]),
        decreases roles@.len() - i,
    {
        names.push(roles[i].as_db_str());
        i += 1;
    }
    names
}

/// The stored texts: the roles are stored as `super_admin`, `owner` and
/// `client`, the account statuses as `active`, `suspended` and `deleted`,
/// the invitation statuses by their names; and each text reads back as the
/// role or status it names.
pub proof fn lemma_stored_texts()
    ensures
        role_text(UserRole::SuperAdmin) == "super_admin"@,
        role_text(UserRole::Owner) == "owner"@,
        role_text(UserRole::Client) == "client"@,
        role_of_text("super_admin"@) == Some(UserRole::SuperAdmin),
        role_of_text("owner"@) == Some(UserRole::Owner),
        role_of_text("client"@) == Some(UserRole::Client),
        status_text(UserStatus::Active) == "active"@,
        status_text(UserStatus::Suspended) == "suspended"@,
        status_text(UserStatus::Deleted) == "deleted"@,
        status_of_text("suspended"@) == UserStatus::Suspended,
        status_of_text("deleted"@) == UserStatus::Deleted,
        status_of_text("active"@) == UserStatus::Active,
        invitation_status_text(InvitationStatus::Pending) == "Pending"@,
        invitation_status_text(InvitationStatus::Accepted) == "Accepted"@,
        invitation_status_text(InvitationStatus::Revoked) == "Revoked"@,
        invitation_status_text(InvitationStatus::Expired) == "Expired"@,
{
    lemma_role_text_roundtrip(UserRole::SuperAdmin);
    lemma_role_text_roundtrip(UserRole::Owner);
    lemma_role_text_roundtrip(UserRole::Client);
    lemma_status_text_roundtrip(UserStatus::Active);
    lemma_status_text_roundtrip(UserStatus::Suspended);
    lemma_status_text_roundtrip(UserStatus::Deleted);
}

/// Reading a role back from its text gives the same role.
pub proof fn lemma_role_text_roundtrip(r: UserRole)
    ensures
        role_of_text(role_text(r)) == Some(r),
{
    reveal_strlit("super_admin");
    reveal_strlit("owner");
    reveal_strlit("client");
    assert("super_admin"@.len() == 11 && "owner"@.len() == 5 && "client"@.len() == 6);
}

/// Reading an account status back from its text gives the same status.
pub proof fn lemma_status_text_roundtrip(s: UserStatus)
    ensures
        status_of_text(status_text(s)) == s,
{
    reveal_strlit("active");
    reveal_strlit("suspended");
    reveal_strlit("deleted");
    assert("active"@.len() == 6 && "suspended"@.len() == 9 && "deleted"@.len() == 7);
}

/// Reading an invitation status back from its text gives the same status.
pub proof fn lemma_invitation_status_text_roundtrip(s: InvitationStatus)
    ensures
        invitation_status_of_text(invitation_status_text(s)) == s,
{
    reveal_strlit("Pending");
    reveal_strlit("Accepted");
    reveal_strlit("Revoked");
    reveal_strlit("Expired");
    assert("Pending"@[0] == 'P' && "Accepted"@.len() == 8 && "Revoked"@[0] == 'R' && "Expired"@[0] == 'E');
    assert("Pending"@.len() == 7 && "Revoked"@.len() == 7 && "Expired"@.len() == 7);
}

/// Reading a role list back from its texts gives the same list.
pub proof fn lemma_role_texts_roundtrip(roles: Seq<UserRole>)
    ensures
        roles_of_texts(role_texts(roles)) == roles,
    decreases roles.len(),
{
    if roles.len() > 0 {
        let init = roles.drop_last();
        lemma_role_texts_roundtrip(init);
        lemma_role_text_roundtrip(roles.last());
        assert(role_texts(roles).drop_last() =~= role_texts(init));
        assert(init.push(roles.last()) =~= roles);
    } else {
        assert(role_texts(roles) =~= Seq::<Seq<char>>::empty());
    }
}

/// The JSON text `serde_json` writes for a list of strings.
pub uninterp spec fn json_string_list(items: Seq<Seq<char>>) -> Seq<char>;

/// The list of strings `serde_json` reads from a JSON text, or `None` when
/// the text is not a JSON array of strings.
pub uninterp spec fn parsed_json_string_list(text: Seq<char>) -> Option<Seq<Seq<char>>>;

/// `serde_json::to_string` on a list of string slices. The contract names
/// the text it writes, and says that `serde_json` reads that text back as
/// the same list (every string is written as a JSON string literal,
/// escaped, inside one array). It succeeds: by the function's
/// documentation it fails only where a `Serialize` impl fails or a map has
/// non-string keys, and a list of strings has neither.
#[verifier::external_body]
fn json_encode_strings(items: &Vec<&'static str>) -> (r: Result<String, String>)
    ensures
        r is Ok,
        r matches Ok(s) ==> s@ == json_string_list(items@.map_values(|x: &str| x@)),
        r matches Ok(s) ==> parsed_json_string_list(s@) == Some(items@.map_values(|x: &str| x@)),
{
    serde_json::to_string(items).map_err(|e| e.to_string())
}

/// `serde_json::from_str::<Vec<String>>`, with a failed parse as `None`.
/// The contract names the list it reads; it depends on the text alone.
#[verifier::external_body]
fn json_decode_strings(text: &str) -> (r: Option<Vec<String>>)
    ensures
        match parsed_json_string_list(text@) {
            Some(l) => r matches Some(v) && v@.map_values(|s: String| s@) == l,
            None => r is None,
        },
{
    serde_json::from_str::<Vec<String>>(text).ok()
}

/// The roles a stored role-list text stands for: the known role names of
/// the JSON array, in order; a text that is not an array of strings stands
/// for no roles.
pub open spec fn stored_roles(text: Seq<char>) -> Seq<UserRole> {
    roles_of_texts(
        match parsed_json_string_list(text) {
            Some(l) => l,
            None => Seq::<Seq<char>>::empty(),
        },
    )
}

/// The stored text of a role list: a JSON array of the role texts. Reading
/// it back gives the same roles.
pub fn roles_to_db_text(roles: &Vec<UserRole>) -> (r: Result<String, String>)
    ensures
        r matches Ok(s) && s@ == json_string_list(role_texts(roles@)),
        r matches Ok(s) ==> stored_roles(s@) == roles@,
{
    let names = role_names(roles);
    assert(names@.map_values(|x: &str| x@) =~= role_texts(roles@));
    proof {
        lemma_role_texts_roundtrip(roles@);
    }
    json_encode_strings(&names)
}

/// The roles of a stored role-list text: the known role names of the JSON
/// array, in order; a text that is not an array of strings gives no roles.
pub fn roles_from_db_text(text: &str) -> (r: Vec<UserRole>)
    ensures
        r@ == stored_roles(text@),
{
    match json_decode_strings(text) {
        Some(names) => roles_from_names(&names),
        None => {
            assert(roles_of_texts(Seq::<Seq<char>>::empty()) =~= Seq::<UserRole>::empty());
            Vec::new()
        },
    }
}

} // verus!
