use time_block_planner::auth::{
    create_session, get_user_from_session, hash_password, open_session, verify_password, AuthRejection, AuthUser, AuthUserFlow, CreateSessionFlow, DeleteSessionFlow,
    PasswordError, SessionLookupFlow, SESSION_LIFETIME_SECS,
};
use time_block_planner::clock::Timestamp;
use time_block_planner::db::{Query, Reply, Step};
use time_block_planner::handlers::auth::{
    login, logout, me, register, removal_cookie, session_cookie, AppError, LoginFlow, LogoutFlow, RegisterFlow, SameSite,
};
use time_block_planner::models::{LoginRequest, RegisterRequest, Session, User, UserResponse};

fn ts(secs: i64) -> Timestamp {
    Timestamp { secs, nanos: 0 }
}

fn user(id: i64, name: &str, hash: &str) -> User {
    User { id, username: name.to_string(), password_hash: hash.to_string(), created_at: ts(0) }
}

fn system_now_secs() -> i64 {
    std::time::SystemTime::now().duration_since(std::time::UNIX_EPOCH).unwrap().as_secs() as i64
}

fn is_uuid_text(s: &str) -> bool {
    s.len() == 36
        && s.as_bytes()[14] == b'4'
        && matches!(s.as_bytes()[19], b'8' | b'9' | b'a' | b'b')
        && s.chars().enumerate().all(|(i, c)| {
            if i == 8 || i == 13 || i == 18 || i == 23 {
                c == '-'
            } else {
                c.is_ascii_digit() || ('a'..='f').contains(&c)
            }
        })
}

#[test]
fn hashed_password_is_accepted() {
    let hash = hash_password("correct horse").unwrap();
    assert_ne!(hash, "correct horse");
    assert!(hash.starts_with("$argon2id$v=19$"));
    assert_eq!(verify_password("correct horse", &hash), Ok(true));
}

#[test]
fn wrong_password_is_rejected() {
    let hash = hash_password("correct horse").unwrap();
    assert_eq!(verify_password("battery staple", &hash), Ok(false));
}

#[test]
fn malformed_hash_is_an_error() {
    assert_eq!(verify_password("anything", "not a hash"), Err(PasswordError));
    assert_eq!(verify_password("anything", ""), Err(PasswordError));
}

#[test]
fn two_hashes_of_one_password_differ_by_salt() {
    let a = hash_password("secret1").unwrap();
    let b = hash_password("secret1").unwrap();
    assert_ne!(a, b);
    assert_eq!(verify_password("secret1", &a), Ok(true));
    assert_eq!(verify_password("secret1", &b), Ok(true));
}

#[test]
fn new_session_expires_one_week_after_now() {
    let before = system_now_secs();
    match create_session(42) {
        Step::Run(CreateSessionFlow::AwaitInsert { session_id, issued_at }, q) => {
            assert!(is_uuid_text(&session_id));
            assert!(issued_at.secs >= before && issued_at.secs <= system_now_secs());
            assert_eq!(
                q,
                Query::InsertSession {
                    id: session_id.clone(),
                    user_id: 42,
                    expires_at: Timestamp { secs: issued_at.secs + 604800, nanos: issued_at.nanos },
                }
            );
            let flow = CreateSessionFlow::AwaitInsert { session_id: session_id.clone(), issued_at };
            match flow.resume(Reply::Executed { rows_affected: 1, last_insert_id: 7 }) {
                Step::Done(Ok(id)) => assert_eq!(id, session_id),
                _ => panic!("expected the session id"),
            }
        }
        _ => panic!("expected an insert"),
    }
    assert_eq!(SESSION_LIFETIME_SECS, 7 * 24 * 3600);
}

#[test]
fn session_ids_are_fresh() {
    let a = match create_session(1) {
        Step::Run(CreateSessionFlow::AwaitInsert { session_id, .. }, _) => session_id,
        _ => panic!(),
    };
    let b = match create_session(1) {
        Step::Run(CreateSessionFlow::AwaitInsert { session_id, .. }, _) => session_id,
        _ => panic!(),
    };
    assert_ne!(a, b);
}

#[test]
fn session_insert_failure_is_a_database_error() {
    let flow = CreateSessionFlow::AwaitInsert { session_id: "x".to_string(), issued_at: ts(0) };
    match flow.resume(Reply::Failed("disk full".to_string())) {
        Step::Done(Err(AppError::Database(d))) => assert_eq!(d, "disk full"),
        _ => panic!(),
    }
}

fn session(user_id: i64, expires: i64) -> Session {
    Session { id: "s".to_string(), user_id, expires_at: ts(expires), created_at: ts(0) }
}

#[test]
fn live_session_leads_to_its_user() {
    let step = get_user_from_session("abc".to_string());
    let flow = match step {
        Step::Run(flow, q) => {
            assert_eq!(q, Query::FindSession { id: "abc".to_string() });
            flow
        }
        _ => panic!(),
    };
    let far_future = system_now_secs() + 1000;
    let flow = match flow.resume(Reply::MaybeSession(Some(session(5, far_future)))) {
        Step::Run(flow, q) => {
            assert_eq!(q, Query::FindUser { id: 5 });
            flow
        }
        _ => panic!("a live session must look up its user"),
    };
    match flow.resume(Reply::MaybeUser(Some(user(5, "ann", "h")))) {
        Step::Done(Ok(Some(u))) => assert_eq!(u.username, "ann"),
        _ => panic!(),
    }
}

#[test]
fn expired_or_unknown_session_has_no_user() {
    let flow = SessionLookupFlow::AwaitSession { now: ts(1000) };
    assert!(matches!(flow.resume(Reply::MaybeSession(Some(session(5, 1000)))), Step::Done(Ok(None))));
    let flow = SessionLookupFlow::AwaitSession { now: ts(1000) };
    assert!(matches!(flow.resume(Reply::MaybeSession(Some(session(5, 999)))), Step::Done(Ok(None))));
    let flow = SessionLookupFlow::AwaitSession { now: ts(1000) };
    assert!(matches!(flow.resume(Reply::MaybeSession(Some(session(5, 1001)))), Step::Run(_, Query::FindUser { id: 5 })));
    let flow = SessionLookupFlow::AwaitSession { now: ts(1000) };
    assert!(matches!(flow.resume(Reply::MaybeSession(None)), Step::Done(Ok(None))));
    let flow = SessionLookupFlow::AwaitUser;
    assert!(matches!(flow.resume(Reply::MaybeUser(None)), Step::Done(Ok(None))));
}

#[test]
fn session_one_week_old_is_refused() {
    let issued = ts(1_700_000_000);
    let expires = Timestamp { secs: issued.secs + SESSION_LIFETIME_SECS, nanos: 0 };
    let live = || Session { id: "s".to_string(), user_id: 1, expires_at: expires, created_at: issued };
    let just_before = SessionLookupFlow::AwaitSession { now: Timestamp { secs: expires.secs - 1, nanos: 999_999_999 } };
    assert!(matches!(just_before.resume(Reply::MaybeSession(Some(live()))), Step::Run(_, _)));
    let at_expiry = SessionLookupFlow::AwaitSession { now: expires };
    assert!(matches!(at_expiry.resume(Reply::MaybeSession(Some(live()))), Step::Done(Ok(None))));
}

#[test]
fn missing_cookie_is_not_authenticated() {
    match AuthUser::from_request_parts(None) {
        Step::Done(Err(AuthRejection { status, message })) => {
            assert_eq!(status, 401);
            assert_eq!(message, "Not authenticated");
        }
        _ => panic!(),
    }
}

#[test]
fn invalid_session_is_refused() {
    let flow = match AuthUser::from_request_parts(Some("tok".to_string())) {
        Step::Run(flow, q) => {
            assert_eq!(q, Query::FindSession { id: "tok".to_string() });
            flow
        }
        _ => panic!(),
    };
    match flow.resume(Reply::MaybeSession(None)) {
        Step::Done(Err(r)) => assert_eq!(r, AuthRejection { status: 401, message: "Invalid session".to_string() }),
        _ => panic!(),
    }
}

#[test]
fn database_failure_while_authenticating_is_500() {
    let flow = AuthUserFlow { lookup: SessionLookupFlow::AwaitSession { now: ts(0) } };
    match flow.resume(Reply::Failed("boom".to_string())) {
        Step::Done(Err(r)) => assert_eq!(r, AuthRejection { status: 500, message: "Database error".to_string() }),
        _ => panic!(),
    }
}

#[test]
fn authenticated_user_is_found() {
    let flow = AuthUserFlow { lookup: SessionLookupFlow::AwaitUser };
    match flow.resume(Reply::MaybeUser(Some(user(3, "bo", "h")))) {
        Step::Done(Ok(AuthUser(u))) => assert_eq!(u.id, 3),
        _ => panic!(),
    }
    let flow = AuthUserFlow { lookup: SessionLookupFlow::AwaitUser };
    assert!(matches!(flow.resume(Reply::MaybeUser(None)), Step::Done(Err(AuthRejection { status: 401, .. }))));
}

fn register_req(name: &str, password: &str) -> RegisterRequest {
    RegisterRequest { username: name.to_string(), password: password.to_string() }
}

fn bad_request(step: Step<RegisterFlow, time_block_planner::handlers::auth::AuthOutcome, AppError>) -> bool {
    match step {
        Step::Done(Err(AppError::BadRequest(m))) => {
            m == "Username cannot be empty and password must be at least 6 characters"
        }
        _ => false,
    }
}

#[test]
fn registration_input_is_checked() {
    assert!(bad_request(register(register_req("", "longenough"))));
    assert!(bad_request(register(register_req("ann", "12345"))));
    assert!(!bad_request(register(register_req("ann", "123456"))));
    // the length is counted in bytes: three two-byte letters are enough
    assert!(!bad_request(register(register_req("ann", "ééé"))));
    assert!(bad_request(register(register_req("ann", "éé"))));
}

#[test]
fn taken_name_is_a_conflict() {
    let flow = match register(register_req("ann", "secret1")) {
        Step::Run(flow, q) => {
            assert_eq!(q, Query::FindUserIdByName { username: "ann".to_string() });
            flow
        }
        _ => panic!(),
    };
    match flow.resume(Reply::MaybeId(Some(1))) {
        Step::Done(Err(AppError::Conflict(m))) => assert_eq!(m, "Username already exists"),
        _ => panic!(),
    }
}

#[test]
fn registration_stores_hashed_password_and_signs_in() {
    let flow = match register(register_req("ann", "secret1")) {
        Step::Run(flow, _) => flow,
        _ => panic!(),
    };
    let (flow, hash) = match flow.resume(Reply::MaybeId(None)) {
        Step::Run(flow, Query::InsertUser { username, password_hash }) => {
            assert_eq!(username, "ann");
            assert_ne!(password_hash, "secret1");
            assert_eq!(verify_password("secret1", &password_hash), Ok(true));
            (flow, password_hash)
        }
        _ => panic!("expected the account to be inserted"),
    };
    let flow = match flow.resume(Reply::Executed { rows_affected: 1, last_insert_id: 9 }) {
        Step::Run(flow, q) => {
            assert_eq!(q, Query::FetchUser { id: 9 });
            flow
        }
        _ => panic!(),
    };
    let (flow, session_id) = match flow.resume(Reply::UserRow(user(9, "ann", &hash))) {
        Step::Run(flow, Query::InsertSession { id, user_id, .. }) => {
            assert_eq!(user_id, 9);
            (flow, id)
        }
        _ => panic!(),
    };
    match flow.resume(Reply::Executed { rows_affected: 1, last_insert_id: 1 }) {
        Step::Done(Ok(out)) => {
            assert_eq!(out.response.user, UserResponse { id: 9, username: "ann".to_string() });
            assert_eq!(out.response.session_id, session_id);
            assert_eq!(out.cookie, session_cookie(session_id));
        }
        _ => panic!(),
    }
}

#[test]
fn session_cookie_attributes() {
    let c = session_cookie("abc".to_string());
    assert_eq!(c.name, "session_id");
    assert_eq!(c.value, "abc");
    assert_eq!(c.path, "/");
    assert_eq!(c.max_age_secs, 604800);
    assert!(c.http_only);
    assert_eq!(c.same_site, Some(SameSite::Lax));
    let r = removal_cookie();
    assert_eq!(r.name, "session_id");
    assert_eq!(r.value, "");
    assert_eq!(r.path, "/");
    assert_eq!(r.max_age_secs, 0);
    assert!(!r.http_only);
    assert_eq!(r.same_site, None);
}

fn login_flow(name: &str, password: &str) -> LoginFlow {
    match login(LoginRequest { username: name.to_string(), password: password.to_string() }) {
        Step::Run(flow, q) => {
            assert_eq!(q, Query::FindUserByName { username: name.to_string() });
            flow
        }
        _ => panic!(),
    }
}

#[test]
fn unknown_user_and_wrong_password_get_the_same_answer() {
    let unknown = login_flow("nobody", "whatever").resume(Reply::MaybeUser(None));
    let hash = hash_password("right-password").unwrap();
    let wrong = login_flow("ann", "wrong-password").resume(Reply::MaybeUser(Some(user(1, "ann", &hash))));
    for step in [unknown, wrong] {
        match step {
            Step::Done(Err(AppError::Unauthorized(m))) => assert_eq!(m, "Invalid credentials"),
            _ => panic!(),
        }
    }
}

#[test]
fn unreadable_stored_hash_is_internal() {
    match login_flow("ann", "pw").resume(Reply::MaybeUser(Some(user(1, "ann", "garbage")))) {
        Step::Done(Err(AppError::Internal(m))) => assert_eq!(m, "Failed to verify password"),
        _ => panic!(),
    }
}

#[test]
fn right_password_opens_a_session() {
    let hash = hash_password("right-password").unwrap();
    let flow = match login_flow("ann", "right-password").resume(Reply::MaybeUser(Some(user(4, "ann", &hash)))) {
        Step::Run(flow, Query::InsertSession { user_id, .. }) => {
            assert_eq!(user_id, 4);
            flow
        }
        _ => panic!(),
    };
    match flow.resume(Reply::Executed { rows_affected: 1, last_insert_id: 1 }) {
        Step::Done(Ok(out)) => {
            assert_eq!(out.response.user.username, "ann");
            assert_eq!(out.cookie.value, out.response.session_id);
        }
        _ => panic!(),
    }
}

#[test]
fn logout_clears_the_cookie() {
    match logout(None) {
        Step::Done(Ok(c)) => assert_eq!(c, removal_cookie()),
        _ => panic!(),
    }
    let flow = match logout(Some("tok".to_string())) {
        Step::Run(flow, q) => {
            assert_eq!(q, Query::DeleteSession { id: "tok".to_string() });
            flow
        }
        _ => panic!(),
    };
    match flow.resume(Reply::Executed { rows_affected: 0, last_insert_id: 0 }) {
        Step::Done(Ok(c)) => assert_eq!(c, removal_cookie()),
        _ => panic!(),
    }
    let flow = LogoutFlow::Deleting(DeleteSessionFlow::AwaitDelete);
    assert!(matches!(flow.resume(Reply::Failed("x".to_string())), Step::Done(Err(AppError::Database(_)))));
}

#[test]
fn me_shows_id_and_name() {
    let r = me(AuthUser(user(8, "cy", "secret-hash")));
    assert_eq!(r, UserResponse { id: 8, username: "cy".to_string() });
}

#[test]
fn error_answers() {
    let cases = [
        (AppError::Database("disk I/O error".to_string()), 500, "Database error"),
        (AppError::BadRequest("b".to_string()), 400, "b"),
        (AppError::Unauthorized("u".to_string()), 401, "u"),
        (AppError::NotFound("n".to_string()), 404, "n"),
        (AppError::Conflict("c".to_string()), 409, "c"),
        (AppError::Internal("i".to_string()), 500, "i"),
    ];
    for (e, status, message) in cases {
        let r = e.into_response();
        assert_eq!(r.status, status);
        assert_eq!(r.message, message);
    }
}

#[test]
fn session_opened_at_a_reading_expires_a_week_later() {
    let now = Timestamp { secs: 1_000, nanos: 5 };
    match open_session(3, "id-1".to_string(), now) {
        Step::Run(CreateSessionFlow::AwaitInsert { session_id, issued_at }, q) => {
            assert_eq!(session_id, "id-1");
            assert_eq!(issued_at, now);
            assert_eq!(
                q,
                Query::InsertSession {
                    id: "id-1".to_string(),
                    user_id: 3,
                    expires_at: Timestamp { secs: 1_000 + 604_800, nanos: 5 },
                }
            );
        }
        _ => panic!("expected an insert"),
    }
}

#[test]
fn session_at_the_end_of_the_calendar_is_refused() {
    let latest = time_block_planner::clock::MAX_TIMESTAMP_SECS - SESSION_LIFETIME_SECS;
    assert!(matches!(open_session(3, "a".to_string(), ts(latest)), Step::Run(_, _)));
    match open_session(3, "a".to_string(), ts(latest + 1)) {
        Step::Done(Err(AppError::Internal(m))) => assert_eq!(m, "session expiry out of range"),
        _ => panic!(),
    }
}

#[test]
fn empty_password_still_hashes() {
    let hash = hash_password("").unwrap();
    assert_eq!(verify_password("", &hash), Ok(true));
    assert_eq!(verify_password("x", &hash), Ok(false));
}
