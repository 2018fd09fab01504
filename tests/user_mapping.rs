use arcane_vault::error::ArcaneVaultError;
use arcane_vault::user::{
    get_encrypted_user_from_row, query_encrypted_user_by_id_request, verify_user_request, EncryptedUserRecord,
    QUERY_ENCRYPTED_USER_BY_ID_STATEMENT, VERIFY_USER_STATEMENT,
};
use arcane_vault::user::{
    create_user_answer, create_user_request, get_user_from_row, identity_text, lookup_by_parsed_id,
    query_user_answer, query_user_by_email_request, query_user_by_id_request, resolve_identity, Identity,
    StoreParam, Timestamp, UserLookup, UserRecord, CREATE_USER_STATEMENT, QUERY_USER_BY_EMAIL_STATEMENT,
    QUERY_USER_BY_ID_STATEMENT,
};

const SAMPLE_ID: u128 = 0x550e8400_e29b_41d4_a716_446655440000;

fn record(id: u128, last_login_at: Option<Timestamp>) -> UserRecord {
    UserRecord {
        id,
        email_account: String::from("ada@example.com"),
        created_at: Timestamp { seconds: 1_700_000_000, nanos: 5 },
        updated_at: Timestamp { seconds: 1_700_000_100, nanos: 0 },
        last_login_at,
        status: 1,
        role: 2,
        firstname: String::from("Ada"),
        lastname: String::from("Lovelace"),
        gender: 2,
        locale: 44,
        avatar: String::from("https://example.com/ada.png"),
        signature: String::from("Analytical"),
    }
}

#[test]
fn identity_text_is_lowercase_hyphenated() {
    assert_eq!(identity_text(SAMPLE_ID), "550e8400-e29b-41d4-a716-446655440000");
    assert_eq!(identity_text(0), "00000000-0000-0000-0000-000000000000");
    assert_eq!(identity_text(u128::MAX), "ffffffff-ffff-ffff-ffff-ffffffffffff");
}

#[test]
fn row_maps_to_user() {
    let u = get_user_from_row(record(SAMPLE_ID, Some(Timestamp { seconds: 1_700_000_200, nanos: 9 })));
    assert_eq!(u.id, "550e8400-e29b-41d4-a716-446655440000");
    assert_eq!(u.email_account, "ada@example.com");
    assert_eq!(u.created_at, Some(Timestamp { seconds: 1_700_000_000, nanos: 5 }));
    assert_eq!(u.updated_at, Some(Timestamp { seconds: 1_700_000_100, nanos: 0 }));
    assert_eq!(u.last_login_at, Some(Timestamp { seconds: 1_700_000_200, nanos: 9 }));
    assert_eq!((u.status, u.role, u.gender, u.locale), (1, 2, 2, 44));
    assert_eq!(u.firstname, "Ada");
    assert_eq!(u.lastname, "Lovelace");
    assert_eq!(u.avatar, "https://example.com/ada.png");
    assert_eq!(u.signature, "Analytical");
}

#[test]
fn absent_last_login_stays_absent() {
    let u = get_user_from_row(record(SAMPLE_ID, None));
    assert_eq!(u.last_login_at, None);
    assert_ne!(u.last_login_at, Some(Timestamp { seconds: 0, nanos: 0 }));
}

#[test]
fn query_by_id_with_no_match_is_empty() {
    let r = query_user_answer(Err(ArcaneVaultError::no_data()));
    assert_eq!(r, Ok(None));
}

#[test]
fn query_by_id_with_match_returns_that_identity() {
    let r = query_user_answer(Ok(record(SAMPLE_ID, None))).unwrap().unwrap();
    assert_eq!(r.id, identity_text(SAMPLE_ID));
}

#[test]
fn query_failure_propagates_unchanged() {
    let e = ArcaneVaultError::from_store_fault(Some(String::from("57P01")), String::from("shutdown"));
    assert_eq!(query_user_answer(Err(e.clone())), Err(e));
}

#[test]
fn create_returns_assigned_identity() {
    let first = create_user_answer(Ok(SAMPLE_ID)).unwrap();
    let second = create_user_answer(Ok(SAMPLE_ID + 1)).unwrap();
    assert_eq!(first, "550e8400-e29b-41d4-a716-446655440000");
    assert_eq!(second, "550e8400-e29b-41d4-a716-446655440001");
    assert_ne!(first, second);
}

#[test]
fn create_failure_propagates_even_when_no_data() {
    let e = ArcaneVaultError::no_data();
    assert_eq!(create_user_answer(Err(e.clone())), Err(e));
}

#[test]
fn create_request_binds_fields_in_order() {
    let r = create_user_request("ada@example.com", "pw", "Ada", "Lovelace", 2, 44, "a.png", "sig");
    assert_eq!(r.statement, CREATE_USER_STATEMENT);
    assert_eq!(
        r.params,
        vec![
            StoreParam::Text(String::from("ada@example.com")),
            StoreParam::Text(String::from("pw")),
            StoreParam::Text(String::from("Ada")),
            StoreParam::Text(String::from("Lovelace")),
            StoreParam::Integer(2),
            StoreParam::Integer(44),
            StoreParam::Text(String::from("a.png")),
            StoreParam::Text(String::from("sig")),
        ]
    );
}

#[test]
fn query_requests_bind_their_key() {
    let by_id = query_user_by_id_request(SAMPLE_ID);
    assert_eq!(by_id.statement, QUERY_USER_BY_ID_STATEMENT);
    assert_eq!(by_id.params, vec![StoreParam::Id(SAMPLE_ID)]);
    let by_email = query_user_by_email_request("ada@example.com");
    assert_eq!(by_email.statement, QUERY_USER_BY_EMAIL_STATEMENT);
    assert_eq!(by_email.params, vec![StoreParam::Text(String::from("ada@example.com"))]);
}

#[test]
fn identity_resolution() {
    let text = String::from("550e8400-e29b-41d4-a716-446655440000");
    assert_eq!(resolve_identity(Some(Identity::Id(text))), UserLookup::ById(SAMPLE_ID));
    let braced = String::from("{550e8400-e29b-41d4-a716-446655440000}");
    assert_eq!(resolve_identity(Some(Identity::Id(braced))), UserLookup::ById(SAMPLE_ID));
    assert_eq!(resolve_identity(Some(Identity::Id(String::from("not-an-id")))), UserLookup::InvalidId);
    assert_eq!(
        resolve_identity(Some(Identity::Email(String::from("ada@example.com")))),
        UserLookup::ByEmail(String::from("ada@example.com"))
    );
    assert_eq!(resolve_identity(None), UserLookup::Nobody);
}

#[test]
fn identity_text_reads_back() {
    let text = identity_text(SAMPLE_ID + 77);
    assert_eq!(resolve_identity(Some(Identity::Id(text))), UserLookup::ById(SAMPLE_ID + 77));
}

#[test]
fn parsed_identity_lookup() {
    assert_eq!(lookup_by_parsed_id(Some(3)), UserLookup::ById(3));
    assert_eq!(lookup_by_parsed_id(None), UserLookup::InvalidId);
}

#[test]
fn encrypted_row_maps_to_user() {
    let u = get_encrypted_user_from_row(EncryptedUserRecord {
        id: SAMPLE_ID,
        created_at: Timestamp { seconds: 10, nanos: 1 },
        updated_at: Timestamp { seconds: 20, nanos: 2 },
        status: 3,
        role: 4,
        encryption_data: vec![0xde, 0xad, 0xbe, 0xef],
    });
    assert_eq!(u.id, "550e8400-e29b-41d4-a716-446655440000");
    assert_eq!(u.created_at, Some(Timestamp { seconds: 10, nanos: 1 }));
    assert_eq!(u.updated_at, Some(Timestamp { seconds: 20, nanos: 2 }));
    assert_eq!((u.status, u.role), (3, 4));
    assert_eq!(u.encryption_data, vec![0xde, 0xad, 0xbe, 0xef]);
    let r = query_encrypted_user_by_id_request(SAMPLE_ID);
    assert_eq!(r.statement, QUERY_ENCRYPTED_USER_BY_ID_STATEMENT);
    assert_eq!(r.params, vec![StoreParam::Id(SAMPLE_ID)]);
}

#[test]
fn verify_request_binds_three_texts() {
    let r = verify_user_request("ada@example.com", "pw", "123456");
    assert_eq!(r.statement, VERIFY_USER_STATEMENT);
    assert_eq!(
        r.params,
        vec![
            StoreParam::Text(String::from("ada@example.com")),
            StoreParam::Text(String::from("pw")),
            StoreParam::Text(String::from("123456")),
        ]
    );
}
