use vstd::prelude::*;
use crate::error::ArcaneVaultError;
use crate::retry::{MAX_RETRIES, retry_run, lemma_all_attempts_fail};

verus! {

/// A point in time: whole seconds since the Unix epoch, and the nanoseconds
/// past that second.
#[derive(Debug, Clone, Copy, PartialEq, Eq, Structural)]
pub struct Timestamp {
    pub seconds: i64,
    pub nanos: i32,
}

/// The columns of one user record as the store returns them.
#[derive(Debug, Clone, PartialEq, Eq)]
pub struct UserRecord {
    pub id: u128,
    pub email_account: String,
    pub created_at: Timestamp,
    pub updated_at: Timestamp,
    pub last_login_at: Option<Timestamp>,
    pub status: i32,
    pub role: i32,
    pub firstname: String,
    pub lastname: String,
    pub gender: i32,
    pub locale: i32,
    pub avatar: String,
    pub signature: String,
}

/// A user as handed to callers.
#[derive(Debug, Clone, PartialEq, Eq)]
pub struct User {
    pub id: String,
    pub email_account: String,
    pub created_at: Option<Timestamp>,
    pub updated_at: Option<Timestamp>,
    pub last_login_at: Option<Timestamp>,
    pub status: i32,
    pub role: i32,
    pub firstname: String,
    pub lastname: String,
    pub gender: i32,
    pub locale: i32,
    pub avatar: String,
    pub signature: String,
}

/// The columns of a user record whose profile is kept as one opaque,
/// encrypted payload.
#[derive(Debug, Clone, PartialEq, Eq)]
pub struct EncryptedUserRecord {
    pub id: u128,
    pub created_at: Timestamp,
    pub updated_at: Timestamp,
    pub status: i32,
    pub role: i32,
    pub encryption_data: Vec<u8>,
}

/// A user whose profile is handed on as its encrypted payload.
#[derive(Debug, Clone, PartialEq, Eq)]
pub struct EncryptedUser {
    pub id: String,
    pub created_at: Option<Timestamp>,
    pub updated_at: Option<Timestamp>,
    pub status: i32,
    pub role: i32,
    pub encryption_data: Vec<u8>,
}

/// The lowercase hexadecimal digit for `d < 16`.
pub open spec fn hex_digit(d: nat) -> char {
    seq!['0', '1', '2', '3', '4', '5', '6', '7', '8', '9', 'a', 'b', 'c', 'd', 'e', 'f'][d as int]
}

/// The last `n` hexadecimal digits of `v`, most significant first.
pub open spec fn hex_digits(v: nat, n: nat) -> Seq<char>
    decreases n,
{
    if n == 0 {
        Seq::empty()
    } else {
        hex_digits(v / 16, (n - 1) as nat).push(hex_digit(v % 16))
    }
}

/// The hyphenated form of an identity: its 32 hexadecimal digits in groups
/// of 8, 4, 4, 4 and 12.
pub open spec fn uuid_text(id: u128) -> Seq<char> {
    let d = hex_digits(id as nat, 32);
    d.subrange(0, 8) + seq!['-'] + d.subrange(8, 12) + seq!['-'] + d.subrange(12, 16) + seq!['-']
        + d.subrange(16, 20) + seq!['-'] + d.subrange(20, 32)
}

/// Relies on uuid::Uuid::from_u128, which takes the value's bytes most
/// significant first, and on Uuid's Display, which writes them as
/// lowercase hyphenated hexadecimal.
#[verifier::external_body]
fn uuid_to_text(id: u128) -> (r: String)
    ensures
        r@ == uuid_text(id),
{
    uuid::Uuid::from_u128(id).to_string()
}

/// The hyphenated text of an identity.
pub fn identity_text(id: u128) -> (r: String)
    ensures
        r@ == uuid_text(id),
{
    uuid_to_text(id)
}

/// `u` is the user that the record `rec` describes.
pub open spec fn user_of_record(rec: UserRecord, u: User) -> bool {
    &&& u.id@ == uuid_text(rec.id)
    &&& u.email_account == rec.email_account
    &&& u.created_at == Some(rec.created_at)
    &&& u.updated_at == Some(rec.updated_at)
    &&& u.last_login_at == rec.last_login_at
    &&& u.status == rec.status
    &&& u.role == rec.role
    &&& u.firstname == rec.firstname
    &&& u.lastname == rec.lastname
    &&& u.gender == rec.gender
    &&& u.locale == rec.locale
    &&& u.avatar == rec.avatar
    &&& u.signature == rec.signature
}

/// Builds the user that a fetched record describes.
pub fn get_user_from_row(rec: UserRecord) -> (u: User)
    ensures
        user_of_record(rec, u),
{
    User {
        id: uuid_to_text(rec.id),
        email_account: rec.email_account,
        created_at: Some(rec.created_at),
        updated_at: Some(rec.updated_at),
        last_login_at: rec.last_login_at,
        status: rec.status,
        role: rec.role,
        firstname: rec.firstname,
        lastname: rec.lastname,
        gender: rec.gender,
        locale: rec.locale,
        avatar: rec.avatar,
        signature: rec.signature,
    }
}

/// `u` is the user that the payload record `rec` describes.
pub open spec fn encrypted_user_of_record(rec: EncryptedUserRecord, u: EncryptedUser) -> bool {
    &&& u.id@ == uuid_text(rec.id)
    &&& u.created_at == Some(rec.created_at)
    &&& u.updated_at == Some(rec.updated_at)
    &&& u.status == rec.status
    &&& u.role == rec.role
    &&& u.encryption_data@ == rec.encryption_data@
}

/// Builds the user that a fetched payload record describes.
pub fn get_encrypted_user_from_row(rec: EncryptedUserRecord) -> (u: EncryptedUser)
    ensures
        encrypted_user_of_record(rec, u),
{
    EncryptedUser {
        id: uuid_to_text(rec.id),
        created_at: Some(rec.created_at),
        updated_at: Some(rec.updated_at),
        status: rec.status,
        role: rec.role,
        encryption_data: rec.encryption_data,
    }
}

/// A record without a last login gives a user without one, and a record
/// with one gives a user with that same time: an absent value never turns
/// into a zero timestamp.
pub proof fn lemma_last_login_round_trip(rec: UserRecord, u: User)
    requires
        user_of_record(rec, u),
    ensures
        rec.last_login_at is None <==> u.last_login_at is None,
        rec.last_login_at matches Some(t) ==> u.last_login_at == Some(t),
{
}

/// `r` is what a query for one user answers, given how the store's
/// statement ended: the user, nothing where no record matched, or the
/// error unchanged.
pub open spec fn query_answer(outcome: Result<UserRecord, ArcaneVaultError>, r: Result<Option<User>, ArcaneVaultError>) -> bool {
    match outcome {
        Ok(rec) => r matches Ok(Some(u)) && user_of_record(rec, u),
        Err(e) => if e.is_no_data_spec() {
            r == Ok::<Option<User>, ArcaneVaultError>(None)
        } else {
            r == Err::<Option<User>, ArcaneVaultError>(e)
        },
    }
}

/// Answers a query for one user (by identity or by email account) from the
/// outcome of its statement: no matching record is an empty answer, not an
/// error.
pub fn query_user_answer(outcome: Result<UserRecord, ArcaneVaultError>) -> (r: Result<Option<User>, ArcaneVaultError>)
    ensures
        query_answer(outcome, r),
{
    match outcome {
        Ok(rec) => Ok(Some(get_user_from_row(rec))),
        Err(e) => {
            if e.is_no_data() {
                Ok(None)
            } else {
                Err(e)
            }
        },
    }
}

/// Answers a request to create a user from the outcome of its statement:
/// the text of the identity that the store assigned, or the error unchanged.
pub fn create_user_answer(outcome: Result<u128, ArcaneVaultError>) -> (r: Result<String, ArcaneVaultError>)
    ensures
        match outcome {
            Ok(id) => r matches Ok(s) && s@ == uuid_text(id),
            Err(e) => r == Err::<String, ArcaneVaultError>(e),
        },
{
    match outcome {
        Ok(id) => Ok(uuid_to_text(id)),
        Err(e) => Err(e),
    }
}


/// When the store reports zero rows on every attempt, the retried statement
/// followed by the query answer gives an empty result, never an error.
pub proof fn lemma_zero_rows_answer_empty(
    outcomes: Seq<Result<UserRecord, ArcaneVaultError>>,
    r: Result<Option<User>, ArcaneVaultError>,
)
    requires
        outcomes.len() >= MAX_RETRIES,
        forall|i: int| 0 <= i < MAX_RETRIES ==> (#[trigger] outcomes[i] matches Err(e) && e.is_no_data_spec()),
        query_answer(retry_run(outcomes).0, r),
    ensures
        r == Ok::<Option<User>, ArcaneVaultError>(None),
{
    lemma_all_attempts_fail(outcomes);
    assert(outcomes[2] matches Err(e) && e.is_no_data_spec());
}

/// Creates a user from its profile fields and yields the assigned identity.
pub const CREATE_USER_STATEMENT: &'static str = "SELECT func_create_user($1, $2, $3, $4, $5, $6, $7, $8) AS user_id";

/// Yields the user with the given identity, if there is one.
pub const QUERY_USER_BY_ID_STATEMENT: &'static str = "SELECT * FROM func_query_user_by_id($1)";

/// Yields the user with the given email account, if there is one.
pub const QUERY_USER_BY_EMAIL_STATEMENT: &'static str = "SELECT * FROM func_query_user_by_email_account($1)";

/// A value bound to one positional placeholder of a statement.
#[derive(Debug, Clone, PartialEq, Eq)]
pub enum StoreParam {
    Text(String),
    Integer(i32),
    Id(u128),
}

/// A statement and the values bound to its placeholders, in order.
#[derive(Debug, Clone, PartialEq, Eq)]
pub struct StoreRequest {
    pub statement: String,
    pub params: Vec<StoreParam>,
}

pub open spec fn is_text_param(p: StoreParam, s: Seq<char>) -> bool {
    p matches StoreParam::Text(t) && t@ == s
}

/// The statement that creates a user, bound to its eight fields.
pub fn create_user_request(
    email: &str,
    password: &str,
    firstname: &str,
    lastname: &str,
    gender: i32,
    locale: i32,
    avatar: &str,
    signature: &str,
) -> (r: StoreRequest)
    ensures
        r.statement@ == CREATE_USER_STATEMENT@,
        r.params@.len() == 8,
        is_text_param(r.params@[0], email@),
        is_text_param(r.params@[1], password@),
        is_text_param(r.params@[2], firstname@),
        is_text_param(r.params@[3], lastname@),
        r.params@[4] == StoreParam::Integer(gender),
        r.params@[5] == StoreParam::Integer(locale),
        is_text_param(r.params@[6], avatar@),
        is_text_param(r.params@[7], signature@),
{
    let mut params: Vec<StoreParam> = Vec::new();
    params.push(StoreParam::Text(String::from_str(email)));
    params.push(StoreParam::Text(String::from_str(password)));
    params.push(StoreParam::Text(String::from_str(firstname)));
    params.push(StoreParam::Text(String::from_str(lastname)));
    params.push(StoreParam::Integer(gender));
    params.push(StoreParam::Integer(locale));
    params.push(StoreParam::Text(String::from_str(avatar)));
    params.push(StoreParam::Text(String::from_str(signature)));
    StoreRequest { statement: String::from_str(CREATE_USER_STATEMENT), params }
}

/// Yields the stored payload of the user with the given identity, if any.
pub const QUERY_ENCRYPTED_USER_BY_ID_STATEMENT: &'static str = "SELECT id, created_at, updated_at, status, role, encryption_data FROM \"user\" where id = $1 LIMIT 1";

/// Yields the identity of the user whose email, password and verification
/// code match.
pub const VERIFY_USER_STATEMENT: &'static str = "SELECT func_verify_user($1, $2, $3) AS user_id";

/// The statement that checks a user's verification code.
pub fn verify_user_request(email: &str, password: &str, verification_code: &str) -> (r: StoreRequest)
    ensures
        r.statement@ == VERIFY_USER_STATEMENT@,
        r.params@.len() == 3,
        is_text_param(r.params@[0], email@),
        is_text_param(r.params@[1], password@),
        is_text_param(r.params@[2], verification_code@),
{
    let mut params: Vec<StoreParam> = Vec::new();
    params.push(StoreParam::Text(String::from_str(email)));
    params.push(StoreParam::Text(String::from_str(password)));
    params.push(StoreParam::Text(String::from_str(verification_code)));
    StoreRequest { statement: String::from_str(VERIFY_USER_STATEMENT), params }
}

/// The statement that fetches a user's stored payload by identity.
pub fn query_encrypted_user_by_id_request(id: u128) -> (r: StoreRequest)
    ensures
        r.statement@ == QUERY_ENCRYPTED_USER_BY_ID_STATEMENT@,
        r.params@ == seq![StoreParam::Id(id)],
{
    let mut params: Vec<StoreParam> = Vec::new();
    params.push(StoreParam::Id(id));
    StoreRequest { statement: String::from_str(QUERY_ENCRYPTED_USER_BY_ID_STATEMENT), params }
}

/// The statement that looks a user up by identity.
pub fn query_user_by_id_request(id: u128) -> (r: StoreRequest)
    ensures
        r.statement@ == QUERY_USER_BY_ID_STATEMENT@,
        r.params@ == seq![StoreParam::Id(id)],
{
    let mut params: Vec<StoreParam> = Vec::new();
    params.push(StoreParam::Id(id));
    StoreRequest { statement: String::from_str(QUERY_USER_BY_ID_STATEMENT), params }
}

/// The statement that looks a user up by email account.
pub fn query_user_by_email_request(email_account: &str) -> (r: StoreRequest)
    ensures
        r.statement@ == QUERY_USER_BY_EMAIL_STATEMENT@,
        r.params@.len() == 1,
        is_text_param(r.params@[0], email_account@),
{
    let mut params: Vec<StoreParam> = Vec::new();
    params.push(StoreParam::Text(String::from_str(email_account)));
    StoreRequest { statement: String::from_str(QUERY_USER_BY_EMAIL_STATEMENT), params }
}


/// What uuid's parser makes of a text: the identity it spells, if any.
pub uninterp spec fn parsed_uuid(s: Seq<char>) -> Option<u128>;

/// Relies on uuid::Uuid::parse_str, which reads the hyphenated form (also
/// the simple, braced and URN forms) and rejects anything else, and on
/// Uuid::as_u128, which reads the bytes most significant first; the
/// hyphenated text of an identity therefore reads back as that identity.
#[verifier::external_body]
fn parse_uuid(s: &str) -> (r: Option<u128>)
    ensures
        r == parsed_uuid(s@),
        forall|v: u128| s@ == uuid_text(v) ==> r == Some(v),
{
    match uuid::Uuid::parse_str(s) {
        Ok(id) => Some(id.as_u128()),
        Err(_) => None,
    }
}

/// How a caller names the user it asks for.
#[derive(Debug, Clone, PartialEq, Eq)]
pub enum Identity {
    Id(String),
    Email(String),
}

/// The query that answers a request for a user.
#[derive(Debug, Clone, PartialEq, Eq)]
pub enum UserLookup {
    ById(u128),
    ByEmail(String),
    /// The request named nobody: the answer is empty.
    Nobody,
    /// The identity given is not a valid identity text.
    InvalidId,
}

/// The query for an identity text, given what the parser made of it.
pub fn lookup_by_parsed_id(parsed: Option<u128>) -> (r: UserLookup)
    ensures
        match parsed {
            Some(v) => r == UserLookup::ById(v),
            None => r == UserLookup::InvalidId,
        },
{
    match parsed {
        Some(v) => UserLookup::ById(v),
        None => UserLookup::InvalidId,
    }
}

/// The query that answers a request naming `identity`.
pub fn resolve_identity(identity: Option<Identity>) -> (r: UserLookup)
    ensures
        match identity {
            Some(Identity::Id(s)) => match parsed_uuid(s@) {
                Some(v) => r == UserLookup::ById(v),
                None => r == UserLookup::InvalidId,
            },
            Some(Identity::Email(e)) => r == UserLookup::ByEmail(e),
            None => r == UserLookup::Nobody,
        },
        forall|v: u128| (identity matches Some(Identity::Id(s)) && s@ == uuid_text(v)) ==> r == UserLookup::ById(v),
{
    match identity {
        Some(Identity::Id(s)) => lookup_by_parsed_id(parse_uuid(s.as_str())),
        Some(Identity::Email(e)) => UserLookup::ByEmail(e),
        None => UserLookup::Nobody,
    }
}

} // verus!
