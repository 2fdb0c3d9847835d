use bookstore::claims::AuthenticatedUser;
use bookstore::config::AppConfig;
use bookstore::credentials::{
    acknowledge, credential_of, insert_outcome, judge_credentials, me, own_record, sign_in,
    sign_in_at, sign_in_with_clock, sign_up, CredentialRecord, InsertOutcome, Lookup,
    NewCredential, ReqSignIn, ReqSignUp,
};
use bookstore::error::AuthError;
use bookstore::gate::authenticate;
use bookstore::password::{check_password, hash_of, hash_password, judge_verdict};

const SECRET: &str = "a-shared-signing-secret";

/// A bcrypt hash of "hunter2", made at the lowest cost so that checks are quick.
fn quick_hash(password: &str) -> String {
    bcrypt::hash(password, 4).unwrap()
}

fn record(id: i32, email: &str, hash: String) -> CredentialRecord {
    CredentialRecord {
        id,
        email: email.to_string(),
        password: hash,
        firstname: Some("Ada".to_string()),
        lastname: None,
    }
}

fn stored(id: i32, credential: NewCredential) -> CredentialRecord {
    CredentialRecord {
        id,
        email: credential.email,
        password: credential.password,
        firstname: credential.firstname,
        lastname: credential.lastname,
    }
}

fn sign_in_request(email: &str, password: &str) -> ReqSignIn {
    ReqSignIn { email: email.to_string(), password: password.to_string() }
}

fn sign_up_request(email: &str, password: &str) -> ReqSignUp {
    ReqSignUp {
        email: email.to_string(),
        password: password.to_string(),
        firstname: Some("Ada".to_string()),
        lastname: Some("Lovelace".to_string()),
    }
}

fn failure<T>(r: Result<T, AuthError>) -> Option<AuthError> {
    r.err()
}

#[test]
fn sign_in_token_resolves_to_the_record() {
    let found = Lookup::Found(record(17, "ada@example.com", quick_hash("hunter2")));
    let res = sign_in_at(&sign_in_request("ada@example.com", "hunter2"), &found, SECRET, 5_000)
        .unwrap();
    let user = AuthenticatedUser { id: 17 };
    assert_eq!(authenticate(Some(&res.token), SECRET, 5_000), Ok(user));
    assert_eq!(authenticate(Some(&res.token), SECRET, 5_000 + 14_400), Ok(user));
    assert_eq!(
        authenticate(Some(&res.token), SECRET, 5_000 + 14_401),
        Err(AuthError::InvalidToken)
    );
    assert_eq!(
        authenticate(Some(&res.token), "another secret", 5_000),
        Err(AuthError::InvalidToken)
    );
}

#[test]
fn sign_in_with_unknown_email_is_invalid_credentials() {
    let r = sign_in_at(&sign_in_request("nobody@example.com", "hunter2"), &Lookup::Missing, SECRET, 0);
    assert_eq!(failure(r), Some(AuthError::InvalidCredentials));
}

#[test]
fn sign_in_with_wrong_password_is_invalid_credentials() {
    let found = Lookup::Found(record(17, "ada@example.com", quick_hash("hunter2")));
    for wrong in ["", "hunter", "hunter22", "Hunter2", "hunter2 "] {
        let r = sign_in_at(&sign_in_request("ada@example.com", wrong), &found, SECRET, 0);
        assert_eq!(failure(r), Some(AuthError::InvalidCredentials), "{wrong:?}");
    }
}

#[test]
fn sign_in_reports_a_failed_store() {
    let r = sign_in_at(&sign_in_request("ada@example.com", "hunter2"), &Lookup::Failed, SECRET, 0);
    assert_eq!(failure(r), Some(AuthError::StorageError));
}

#[test]
fn sign_in_reports_an_unreadable_hash_as_storage_error() {
    for broken in ["", "hunter2", "$2b$12$tooshort", "$9z$04$abcdefghijklmnopqrstuuabcdefghijklmnopqrstuvwxyz01234"] {
        let found = Lookup::Found(record(17, "ada@example.com", broken.to_string()));
        let r = sign_in_at(&sign_in_request("ada@example.com", "hunter2"), &found, SECRET, 0);
        assert_eq!(failure(r), Some(AuthError::StorageError), "{broken:?}");
    }
}

#[test]
fn sign_in_does_not_issue_a_session_without_an_end() {
    let found = Lookup::Found(record(17, "ada@example.com", quick_hash("hunter2")));
    let req = sign_in_request("ada@example.com", "hunter2");
    assert!(sign_in_at(&req, &found, SECRET, u64::MAX - 14_400).is_ok());
    assert_eq!(
        failure(sign_in_at(&req, &found, SECRET, u64::MAX - 14_399)),
        Some(AuthError::InvalidToken)
    );
    assert_eq!(failure(sign_in_at(&req, &found, SECRET, u64::MAX)), Some(AuthError::InvalidToken));
}

#[test]
fn sign_in_by_the_clock_resolves_now() {
    let config = AppConfig::from_values(None, None, None, None, None, SECRET.to_string());
    let found = Lookup::Found(record(3, "ada@example.com", quick_hash("hunter2")));
    let res = sign_in(&sign_in_request("ada@example.com", "hunter2"), &found, &config).unwrap();
    assert_eq!(
        AuthenticatedUser::from_request(Some(&res.token), &config),
        Ok(AuthenticatedUser { id: 3 })
    );
    let missing = sign_in(&sign_in_request("ada@example.com", "hunter2"), &Lookup::Missing, &config);
    assert_eq!(failure(missing), Some(AuthError::InvalidCredentials));
    let failed = sign_in(&sign_in_request("ada@example.com", "hunter2"), &Lookup::Failed, &config);
    assert_eq!(failure(failed), Some(AuthError::StorageError));
}

#[test]
fn sign_up_with_a_taken_email_yields_nothing_to_insert() {
    let found = Lookup::Found(record(17, "ada@example.com", quick_hash("hunter2")));
    let r = sign_up(sign_up_request("ada@example.com", "another password"), &found);
    assert_eq!(failure(r), Some(AuthError::EmailTaken));
}

#[test]
fn sign_up_reports_a_failed_store() {
    let r = sign_up(sign_up_request("ada@example.com", "hunter2"), &Lookup::Failed);
    assert_eq!(failure(r), Some(AuthError::StorageError));
}

#[test]
fn sign_up_yields_the_request_with_a_hash_for_the_password() {
    let credential = sign_up(sign_up_request("ada@example.com", "hunter2"), &Lookup::Missing).unwrap();
    assert_eq!(credential.email, "ada@example.com");
    assert_eq!(credential.firstname.as_deref(), Some("Ada"));
    assert_eq!(credential.lastname.as_deref(), Some("Lovelace"));
    assert_ne!(credential.password, "hunter2");
    assert!(!credential.password.contains("hunter2"));
    assert!(credential.password.starts_with("$2b$12$"));
    assert_eq!(credential.password.len(), 60);
    assert_eq!(check_password("hunter2", &credential.password), Some(true));
}

#[test]
fn sign_up_then_sign_in_succeeds() {
    let credential = sign_up(sign_up_request("ada@example.com", "hunter2"), &Lookup::Missing).unwrap();
    let found = Lookup::Found(stored(8, credential));
    let res = sign_in_at(&sign_in_request("ada@example.com", "hunter2"), &found, SECRET, 100).unwrap();
    assert_eq!(authenticate(Some(&res.token), SECRET, 100), Ok(AuthenticatedUser { id: 8 }));
    let wrong = sign_in_at(&sign_in_request("ada@example.com", "hunter3"), &found, SECRET, 100);
    assert_eq!(failure(wrong), Some(AuthError::InvalidCredentials));
}

#[test]
fn two_hashes_of_one_password_differ_and_both_match() {
    let first = hash_password("correct horse").unwrap();
    let second = hash_password("correct horse").unwrap();
    assert_ne!(first, second);
    assert_ne!(first, "correct horse");
    assert_eq!(check_password("correct horse", &first), Some(true));
    assert_eq!(check_password("correct horse", &second), Some(true));
    assert_eq!(check_password("correct horses", &first), Some(false));
}

#[test]
fn check_password_tells_match_mismatch_and_unreadable_apart() {
    let known = "$2y$04$L6Bc/AlTQHyd9liGgGEZyO";
    let hash = quick_hash("hunter2");
    assert_eq!(check_password("hunter2", &hash), Some(true));
    assert_eq!(check_password("hunter3", &hash), Some(false));
    assert_eq!(check_password("hunter2", known), None);
    assert_eq!(check_password("hunter2", "hunter2"), None);
    assert_eq!(check_password(&hash, &hash), Some(false));
}

#[test]
fn verdicts_map_to_sign_in_decisions() {
    assert_eq!(judge_verdict(Some(true)), Ok(()));
    assert_eq!(judge_verdict(Some(false)), Err(AuthError::InvalidCredentials));
    assert_eq!(judge_verdict(None), Err(AuthError::StorageError));
}

#[test]
fn acknowledgment_follows_the_insert() {
    assert_eq!(acknowledge(InsertOutcome::Inserted), Ok("Account created!".to_string()));
    assert_eq!(acknowledge(InsertOutcome::Duplicate), Err(AuthError::EmailTaken));
    assert_eq!(acknowledge(InsertOutcome::Failed), Err(AuthError::StorageError));
}

#[test]
fn me_shows_the_record_without_its_hash() {
    let res = me(record(17, "ada@example.com", quick_hash("hunter2")));
    assert_eq!(res.id, 17);
    assert_eq!(res.email, "ada@example.com");
    assert_eq!(res.firstname.as_deref(), Some("Ada"));
    assert_eq!(res.lastname, None);
}

#[test]
fn outcome_of_hashing_is_kept_or_dropped() {
    let hash = quick_hash("hunter2");
    assert_eq!(hash_of(Ok(hash.clone())), Some(hash));
    assert_eq!(hash_of(Ok(String::new())), Some(String::new()));
    assert_eq!(hash_of(Err(bcrypt::BcryptError::CostNotAllowed(3))), None);
    assert_eq!(hash_of(Err(bcrypt::BcryptError::InvalidHash("x".to_string()))), None);
    assert_eq!(hash_of(bcrypt::hash("hunter2", 3)), None);
}

#[test]
fn hashing_a_password_succeeds_where_randomness_is_to_be_had() {
    for password in ["", "p\u{e4}ssw\u{f6}rd"] {
        let hash = hash_password(password).unwrap();
        assert_eq!(check_password(password, &hash), Some(true), "{password:?}");
    }
}

#[test]
fn credentials_are_judged_against_the_store_answer() {
    let found = Lookup::Found(record(17, "ada@example.com", quick_hash("hunter2")));
    assert_eq!(judge_credentials(&sign_in_request("ada@example.com", "hunter2"), &found), Ok(17));
    assert_eq!(
        judge_credentials(&sign_in_request("ada@example.com", "hunter3"), &found),
        Err(AuthError::InvalidCredentials)
    );
    assert_eq!(
        judge_credentials(&sign_in_request("ada@example.com", "hunter2"), &Lookup::Missing),
        Err(AuthError::InvalidCredentials)
    );
    assert_eq!(
        judge_credentials(&sign_in_request("ada@example.com", "hunter2"), &Lookup::Failed),
        Err(AuthError::StorageError)
    );
    let unreadable = Lookup::Found(record(17, "ada@example.com", "no hash".to_string()));
    assert_eq!(
        judge_credentials(&sign_in_request("ada@example.com", "hunter2"), &unreadable),
        Err(AuthError::StorageError)
    );
}

#[test]
fn sign_in_with_a_clock_reading_is_the_sign_in_at_that_time() {
    let found = Lookup::Found(record(17, "ada@example.com", quick_hash("hunter2")));
    let req = sign_in_request("ada@example.com", "hunter2");
    let by_clock = sign_in_with_clock(&req, &found, SECRET, Some(5_000)).unwrap();
    let at_time = sign_in_at(&req, &found, SECRET, 5_000).unwrap();
    assert_eq!(by_clock.token, at_time.token);
    assert_eq!(
        authenticate(Some(&by_clock.token), SECRET, 19_400),
        Ok(AuthenticatedUser { id: 17 })
    );
    assert_eq!(
        failure(sign_in_with_clock(&req, &found, SECRET, Some(u64::MAX))),
        Some(AuthError::InvalidToken)
    );
}

#[test]
fn sign_in_without_a_clock_reading_issues_no_session() {
    let found = Lookup::Found(record(17, "ada@example.com", quick_hash("hunter2")));
    let right = sign_in_request("ada@example.com", "hunter2");
    let wrong = sign_in_request("ada@example.com", "hunter3");
    assert_eq!(
        failure(sign_in_with_clock(&right, &found, SECRET, None)),
        Some(AuthError::InvalidToken)
    );
    assert_eq!(
        failure(sign_in_with_clock(&wrong, &found, SECRET, None)),
        Some(AuthError::InvalidCredentials)
    );
    assert_eq!(
        failure(sign_in_with_clock(&right, &Lookup::Missing, SECRET, None)),
        Some(AuthError::InvalidCredentials)
    );
    assert_eq!(
        failure(sign_in_with_clock(&right, &Lookup::Failed, SECRET, None)),
        Some(AuthError::StorageError)
    );
}

#[test]
fn sign_in_token_carries_the_minted_claims() {
    let found = Lookup::Found(record(-3, "ada@example.com", quick_hash("hunter2")));
    let res = sign_in_at(&sign_in_request("ada@example.com", "hunter2"), &found, SECRET, 7).unwrap();
    let fields = bookstore::token::read(&res.token, SECRET).unwrap();
    assert_eq!(fields.sub, Some(-3));
    assert_eq!(fields.role.as_deref(), Some("user"));
    assert_eq!(fields.exp, Some(14_407));
}

#[test]
fn record_to_insert_is_the_request_with_the_hash() {
    let credential = credential_of(
        sign_up_request("ada@example.com", "hunter2"),
        Some("a-hash".to_string()),
    )
    .unwrap();
    assert_eq!(credential.email, "ada@example.com");
    assert_eq!(credential.password, "a-hash");
    assert_eq!(credential.firstname.as_deref(), Some("Ada"));
    assert_eq!(credential.lastname.as_deref(), Some("Lovelace"));
    let bare = ReqSignUp {
        email: String::new(),
        password: "hunter2".to_string(),
        firstname: None,
        lastname: None,
    };
    let credential = credential_of(bare, Some(String::new())).unwrap();
    assert_eq!(credential.email, "");
    assert_eq!(credential.password, "");
    assert_eq!(credential.firstname, None);
    assert_eq!(credential.lastname, None);
    assert_eq!(
        failure(credential_of(sign_up_request("ada@example.com", "hunter2"), None)),
        Some(AuthError::StorageError)
    );
}

#[test]
fn insert_outcome_tells_a_duplicate_apart() {
    assert_eq!(insert_outcome(None), InsertOutcome::Inserted);
    assert_eq!(
        insert_outcome(Some(
            "Execution Error: error returned from database: 1062 (23000): \
             Duplicate entry 'ada@example.com' for key 'user.email'"
        )),
        InsertOutcome::Duplicate
    );
    assert_eq!(insert_outcome(Some("Duplicate entry")), InsertOutcome::Duplicate);
    assert_eq!(insert_outcome(Some("Connection refused")), InsertOutcome::Failed);
    assert_eq!(insert_outcome(Some("")), InsertOutcome::Failed);
    assert_eq!(insert_outcome(Some("duplicate entry")), InsertOutcome::Failed);
    assert_eq!(insert_outcome(Some("Duplicate entr")), InsertOutcome::Failed);
    assert_eq!(insert_outcome(Some("Duplicate  entry")), InsertOutcome::Failed);
    assert_eq!(acknowledge(insert_outcome(Some("Duplicate entry 'x'"))), Err(AuthError::EmailTaken));
}

#[test]
fn own_record_is_shown_or_the_request_fails() {
    let res = own_record(Lookup::Found(record(17, "ada@example.com", quick_hash("hunter2"))))
        .unwrap();
    assert_eq!(res.id, 17);
    assert_eq!(res.email, "ada@example.com");
    assert_eq!(res.firstname.as_deref(), Some("Ada"));
    assert_eq!(res.lastname, None);
    assert_eq!(failure(own_record(Lookup::Missing)), Some(AuthError::StorageError));
    assert_eq!(failure(own_record(Lookup::Failed)), Some(AuthError::StorageError));
}
