//! Registration, login and logout, the session cookie, and the error answers of
//! every handler.

use vstd::prelude::*;
use vstd::utf8::encode_utf8;
use crate::auth::{
    create_session, delete_session, fresh_reading, hash_of, hash_password, is_argon2id_phc, latest_session_start,
    session_expiry, session_opening, verify_outcome, verify_password, AuthUser, CreateSessionFlow,
    DeleteSessionFlow, MAX_PASSWORD_BYTES, SESSION_LIFETIME_SECS,
};
use crate::clock::Timestamp;
use crate::db::{Query, Reply, ReplyKind, Step};
use crate::models::{AuthResponse, LoginRequest, RegisterRequest, User, UserResponse};

verus! {

/// The text of a string literal as an owned string.
pub(crate) fn text(s: &str) -> (r: String)
    ensures
        r@ == s@,
{
    String::from_str(s)
}

/// Why a request failed.
#[derive(Debug, PartialEq)]
pub enum AppError {
    /// The database failed; the text describes the failure and is not shown
    /// to the client.
    Database(String),
    BadRequest(String),
    Unauthorized(String),
    NotFound(String),
    Conflict(String),
    Internal(String),
}

/// The kinds of failure, without their messages.
#[derive(Debug, Clone, Copy, PartialEq, Eq, Structural)]
pub enum ErrorKind {
    Database,
    BadRequest,
    Unauthorized,
    NotFound,
    Conflict,
    Internal,
}

/// The answer sent for a failed request: an HTTP status code and the message
/// put in the body's `error` field.
#[derive(Debug, PartialEq)]
pub struct ErrorResponse {
    pub status: u16,
    pub message: String,
}

impl AppError {
    /// The kind of failure.
    pub open spec fn kind(self) -> ErrorKind {
        match self {
            AppError::Database(_) => ErrorKind::Database,
            AppError::BadRequest(_) => ErrorKind::BadRequest,
            AppError::Unauthorized(_) => ErrorKind::Unauthorized,
            AppError::NotFound(_) => ErrorKind::NotFound,
            AppError::Conflict(_) => ErrorKind::Conflict,
            AppError::Internal(_) => ErrorKind::Internal,
        }
    }

    /// The text the failure carries.
    pub open spec fn text(self) -> Seq<char> {
        match self {
            AppError::Database(m) => m@,
            AppError::BadRequest(m) => m@,
            AppError::Unauthorized(m) => m@,
            AppError::NotFound(m) => m@,
            AppError::Conflict(m) => m@,
            AppError::Internal(m) => m@,
        }
    }

    /// The HTTP status code of each kind of failure.
    pub open spec fn status_of(kind: ErrorKind) -> u16 {
        match kind {
            ErrorKind::Database => 500,
            ErrorKind::BadRequest => 400,
            ErrorKind::Unauthorized => 401,
            ErrorKind::NotFound => 404,
            ErrorKind::Conflict => 409,
            ErrorKind::Internal => 500,
        }
    }

    /// The answer for this failure. A database failure is answered with a
    /// fixed message, so that its details stay on the server; every other
    /// failure shows its own message.
    pub fn into_response(self) -> (r: ErrorResponse)
        ensures
            r.status == AppError::status_of(self.kind()),
            self is Database ==> r.message@ == "Database error"@,
            !(self is Database) ==> r.message@ == self.text(),
    {
        match self {
            AppError::Database(_) => ErrorResponse { status: 500, message: text("Database error") },
            AppError::BadRequest(m) => ErrorResponse { status: 400, message: m },
            AppError::Unauthorized(m) => ErrorResponse { status: 401, message: m },
            AppError::NotFound(m) => ErrorResponse { status: 404, message: m },
            AppError::Conflict(m) => ErrorResponse { status: 409, message: m },
            AppError::Internal(m) => ErrorResponse { status: 500, message: m },
        }
    }
}

/// Whether the step finishes with a failure of this kind and text.
pub open spec fn fails_as<S, T>(step: Step<S, T, AppError>, kind: ErrorKind, msg: Seq<char>) -> bool {
    step matches Step::Done(Err(e)) && e.kind() == kind && e.text() == msg
}

/// The `SameSite` attribute of a cookie.
#[derive(Debug, Clone, Copy, PartialEq, Eq, Structural)]
pub enum SameSite {
    Lax,
}

/// A cookie to set on the client. `http_only` false and `same_site` `None`
/// leave those attributes out.
#[derive(Debug, PartialEq)]
pub struct CookieSpec {
    pub name: String,
    pub value: String,
    pub path: String,
    pub max_age_secs: i64,
    pub http_only: bool,
    pub same_site: Option<SameSite>,
}

/// The cookie that carries a session: named `session_id`, sent for every
/// path, kept as long as the session lasts, hidden from scripts and withheld
/// from cross-site requests.
pub open spec fn is_session_cookie(c: CookieSpec, session_id: String) -> bool {
    &&& c.name@ == "session_id"@
    &&& c.value == session_id
    &&& c.path@ == "/"@
    &&& c.max_age_secs == SESSION_LIFETIME_SECS
    &&& c.http_only
    &&& c.same_site == Some(SameSite::Lax)
}

/// The cookie that clears the session cookie: empty, for every path, expiring
/// at once.
pub open spec fn is_removal_cookie(c: CookieSpec) -> bool {
    &&& c.name@ == "session_id"@
    &&& c.value@.len() == 0
    &&& c.path@ == "/"@
    &&& c.max_age_secs == 0
    &&& !c.http_only
    &&& c.same_site is None
}

/// The cookie that carries `session_id`.
pub fn session_cookie(session_id: String) -> (c: CookieSpec)
    ensures
        is_session_cookie(c, session_id),
{
    CookieSpec {
        name: text("session_id"),
        value: session_id,
        path: text("/"),
        max_age_secs: SESSION_LIFETIME_SECS,
        http_only: true,
        same_site: Some(SameSite::Lax),
    }
}

/// The cookie that clears the session cookie.
pub fn removal_cookie() -> (c: CookieSpec)
    ensures
        is_removal_cookie(c),
{
    proof {
        reveal_strlit("");
    }
    CookieSpec {
        name: text("session_id"),
        value: text(""),
        path: text("/"),
        max_age_secs: 0,
        http_only: false,
        same_site: None,
    }
}

/// The cookie that signing out sets clears the one that signing in set: it
/// has the same name and path, carries nothing and expires at once.
pub proof fn removal_cookie_clears_session_cookie(set: CookieSpec, session_id: String, removal: CookieSpec)
    requires
        is_session_cookie(set, session_id),
        is_removal_cookie(removal),
    ensures
        removal.name@ == set.name@,
        removal.path@ == set.path@,
        removal.value@.len() == 0,
        removal.max_age_secs == 0,
        set.value == session_id,
        set.max_age_secs > 0,
{
}

/// The session cookie is kept exactly as long as the session it carries is
/// stored to last: a session opened at `now` expires `max_age_secs` seconds
/// later.
pub proof fn session_cookie_lasts_as_long_as_session(c: CookieSpec, session_id: String, now: Timestamp)
    requires
        is_session_cookie(c, session_id),
        0 <= now.secs <= latest_session_start(),
    ensures
        session_expiry(now).secs == now.secs + c.max_age_secs,
        session_expiry(now).nanos == now.nanos,
{
}

/// The answer to a successful registration or login: the session cookie to set
/// and the body.
#[derive(Debug, PartialEq)]
pub struct AuthOutcome {
    pub cookie: CookieSpec,
    pub response: AuthResponse,
}

/// Whether `out` answers a sign-in of `user` with session `session_id`.
pub open spec fn signs_in(out: AuthOutcome, user: User, session_id: String) -> bool {
    &&& out.response == AuthResponse {
        user: UserResponse { id: user.id, username: user.username },
        session_id,
    }
    &&& is_session_cookie(out.cookie, session_id)
}

/// A sign-in answers the user it signed in and the session it opened, and
/// the cookie it sets carries exactly the session named in the answer.
pub proof fn sign_in_cookie_carries_answered_session(out: AuthOutcome, user: User, session_id: String)
    requires
        signs_in(out, user, session_id),
    ensures
        out.cookie.value == out.response.session_id,
        out.response.session_id == session_id,
        out.response.user.id == user.id,
        out.response.user.username == user.username,
        out.cookie.name@ == "session_id"@,
{
}

/// Whether `step` opens a session for `user_id` inside a sign-in flow, with
/// the session flow placed in the sign-in flow by `wrap`: for some fresh
/// session identifier and clock reading, the session is inserted, expiring one
/// week after the reading; only a reading so late that the expiry would pass
/// the last representable date-time gives an internal error instead.
pub open spec fn opens_session_for<S>(
    step: Step<S, AuthOutcome, AppError>,
    user_id: i64,
    wrap: spec_fn(CreateSessionFlow) -> S,
) -> bool {
    exists|sid: String, now: Timestamp|
        #![trigger fresh_reading(sid, now)]
        fresh_reading(sid, now) && if now.secs <= latest_session_start() {
            step == Step::<S, AuthOutcome, AppError>::Run(
                wrap(CreateSessionFlow::AwaitInsert { session_id: sid, issued_at: now }),
                Query::InsertSession { id: sid, user_id, expires_at: session_expiry(now) },
            )
        } else {
            fails_as(step, ErrorKind::Internal, "session expiry out of range"@)
        }
}

/// The message for a registration with an empty name or a short password.
pub open spec fn invalid_registration_message() -> Seq<char> {
    "Username cannot be empty and password must be at least 6 characters"@
}

/// Whether a registration request may proceed: the name is not empty and the
/// password takes at least six bytes in UTF-8.
pub open spec fn valid_registration(payload: RegisterRequest) -> bool {
    payload.username@.len() > 0 && encode_utf8(payload.password@).len() >= 6
}

/// A registration is refused as a bad request exactly when the name is empty
/// or the password takes fewer than six bytes: every non-empty name with a
/// password of six bytes or more, however long, may proceed, and lengthening
/// the password of a registration that may proceed keeps it so.
pub proof fn registration_accepts_every_long_enough_password(payload: RegisterRequest, longer: RegisterRequest)
    ensures
        payload.username@.len() > 0 && encode_utf8(payload.password@).len() >= 6 ==> valid_registration(payload),
        payload.username@.len() == 0 || encode_utf8(payload.password@).len() < 6 ==> !valid_registration(payload),
        valid_registration(payload) && longer.username@ == payload.username@
            && encode_utf8(longer.password@).len() >= encode_utf8(payload.password@).len() ==> valid_registration(longer),
{
}

/// Answers a sign-in of `user` with session `session_id`.
fn signed_in(user: User, session_id: String) -> (out: AuthOutcome)
    ensures
        signs_in(out, user, session_id),
{
    let cookie = session_cookie(session_id.clone());
    AuthOutcome {
        cookie,
        response: AuthResponse {
            user: UserResponse { id: user.id, username: user.username },
            session_id,
        },
    }
}

/// The registration flow.
pub enum RegisterFlow {
    /// Looking for an account with the requested name.
    AwaitExisting { username: String, password: String },
    /// Inserting the new account.
    AwaitInsert,
    /// Reading back the new account.
    AwaitUser { user_id: i64 },
    /// Opening a session for the new account.
    AwaitSession { user: User, session: CreateSessionFlow },
}

impl RegisterFlow {
    /// The shape of reply the flow waits for.
    pub open spec fn awaiting(self) -> ReplyKind {
        match self {
            RegisterFlow::AwaitExisting { .. } => ReplyKind::MaybeId,
            RegisterFlow::AwaitInsert => ReplyKind::Executed,
            RegisterFlow::AwaitUser { .. } => ReplyKind::UserRow,
            RegisterFlow::AwaitSession { session, .. } => session.awaiting(),
        }
    }

    /// Takes the database's answer and moves the registration on: a taken name
    /// is refused; a free one is stored with its password hashed; the stored
    /// account is read back and signed in.
    pub fn resume(self, reply: Reply) -> (step: Step<RegisterFlow, AuthOutcome, AppError>)
        requires
            reply.fits(self.awaiting()),
        ensures
            reply matches Reply::Failed(d) ==> step == Step::<RegisterFlow, AuthOutcome, AppError>::Done(Err(AppError::Database(d))),
            self matches RegisterFlow::AwaitExisting { username, password } ==> {
                &&& reply matches Reply::MaybeId(Some(_)) ==> fails_as(step, ErrorKind::Conflict, "Username already exists"@)
                &&& reply matches Reply::MaybeId(None) ==> if encode_utf8(password@).len() <= MAX_PASSWORD_BYTES {
                    step matches Step::Run(RegisterFlow::AwaitInsert, Query::InsertUser { username: u, password_hash: h })
                        && u == username && hash_of(password@, h@) && is_argon2id_phc(h@)
                } else {
                    fails_as(step, ErrorKind::Internal, "Failed to hash password"@)
                }
            },
            self is AwaitInsert ==> (reply matches Reply::Executed { last_insert_id, .. } ==>
                step == Step::<RegisterFlow, AuthOutcome, AppError>::Run(
                    RegisterFlow::AwaitUser { user_id: last_insert_id },
                    Query::FetchUser { id: last_insert_id },
                )),
            self matches RegisterFlow::AwaitUser { user_id } ==> (reply matches Reply::UserRow(user) ==>
                opens_session_for(step, user_id, |s: CreateSessionFlow| RegisterFlow::AwaitSession { user, session: s })),
            self matches RegisterFlow::AwaitSession { user, session } ==> (reply is Executed ==>
                (step matches Step::Done(Ok(out)) && signs_in(out, user, session.session_id()))),
            step matches Step::Run(s, q) ==> s.awaiting() == q.reply_kind(),
    {
        match self {
            RegisterFlow::AwaitExisting { username, password } => match reply {
                Reply::MaybeId(Some(_)) => Step::Done(Err(AppError::Conflict(text("Username already exists")))),
                Reply::MaybeId(None) => match hash_password(password.as_str()) {
                    Err(_) => Step::Done(Err(AppError::Internal(text("Failed to hash password")))),
                    Ok(password_hash) => Step::Run(
                        RegisterFlow::AwaitInsert,
                        Query::InsertUser { username, password_hash },
                    ),
                },
                Reply::Failed(d) => Step::Done(Err(AppError::Database(d))),
                _ => {
                    proof {
                        assert(false);
                    }
                    Step::Done(Err(AppError::Internal(text(""))))
                },
            },
            RegisterFlow::AwaitInsert => match reply {
                Reply::Executed { last_insert_id, .. } => Step::Run(
                    RegisterFlow::AwaitUser { user_id: last_insert_id },
                    Query::FetchUser { id: last_insert_id },
                ),
                Reply::Failed(d) => Step::Done(Err(AppError::Database(d))),
                _ => {
                    proof {
                        assert(false);
                    }
                    Step::Done(Err(AppError::Internal(text(""))))
                },
            },
            RegisterFlow::AwaitUser { user_id } => match reply {
                Reply::UserRow(user) => {
                    let opening = create_session(user_id);
                    let ghost g = opening;
                    let ghost u = user;
                    let step = match opening {
                        Step::Run(session, q) => Step::Run(RegisterFlow::AwaitSession { user, session }, q),
                        Step::Done(r) => Step::Done(match r {
                            Ok(_) => Err(AppError::Internal(text(""))),
                            Err(e) => Err(e),
                        }),
                    };
                    proof {
                        let (sid, now) = choose|sid: String, now: Timestamp|
                            fresh_reading(sid, now) && #[trigger] session_opening(g, user_id, sid, now);
                        assert(fresh_reading(sid, now));
                        assert(opens_session_for(step, user_id, |s: CreateSessionFlow| RegisterFlow::AwaitSession { user: u, session: s }));
                    }
                    step
                },
                Reply::Failed(d) => Step::Done(Err(AppError::Database(d))),
                _ => {
                    proof {
                        assert(false);
                    }
                    Step::Done(Err(AppError::Internal(text(""))))
                },
            },
            RegisterFlow::AwaitSession { user, session } => match session.resume(reply) {
                Step::Done(Ok(session_id)) => Step::Done(Ok(signed_in(user, session_id))),
                Step::Done(Err(e)) => Step::Done(Err(e)),
                Step::Run(session, q) => Step::Run(RegisterFlow::AwaitSession { user, session }, q),
            },
        }
    }
}

/// Starts a registration: an empty name or a password shorter than six
/// bytes is refused, else the name is looked up.
pub fn register(payload: RegisterRequest) -> (step: Step<RegisterFlow, AuthOutcome, AppError>)
    ensures
        !valid_registration(payload) ==> fails_as(step, ErrorKind::BadRequest, invalid_registration_message()),
        payload.username@.len() == 0 || encode_utf8(payload.password@).len() < 6 ==>
            fails_as(step, ErrorKind::BadRequest, invalid_registration_message()),
        payload.username@.len() > 0 && encode_utf8(payload.password@).len() >= 6 ==> step == Step::<RegisterFlow, AuthOutcome, AppError>::Run(
            RegisterFlow::AwaitExisting { username: payload.username, password: payload.password },
            Query::FindUserIdByName { username: payload.username },
        ),
        valid_registration(payload) ==> step == Step::<RegisterFlow, AuthOutcome, AppError>::Run(
            RegisterFlow::AwaitExisting { username: payload.username, password: payload.password },
            Query::FindUserIdByName { username: payload.username },
        ),
{
    if payload.username.as_str().is_empty() || payload.password.as_str().as_bytes().len() < 6 {
        return Step::Done(Err(AppError::BadRequest(text(
            "Username cannot be empty and password must be at least 6 characters",
        ))));
    }
    let username = payload.username.clone();
    Step::Run(
        RegisterFlow::AwaitExisting { username: payload.username, password: payload.password },
        Query::FindUserIdByName { username },
    )
}

/// The login flow.
pub enum LoginFlow {
    /// Looking up the account by name.
    AwaitUser { password: String },
    /// Opening a session for the account.
    AwaitSession { user: User, session: CreateSessionFlow },
}

impl LoginFlow {
    /// The shape of reply the flow waits for.
    pub open spec fn awaiting(self) -> ReplyKind {
        match self {
            LoginFlow::AwaitUser { .. } => ReplyKind::MaybeUser,
            LoginFlow::AwaitSession { session, .. } => session.awaiting(),
        }
    }

    /// Takes the database's answer: an unknown name and a wrong password get the
    /// same refusal; a stored hash that does not parse is an internal error; a
    /// matching password opens a session.
    pub fn resume(self, reply: Reply) -> (step: Step<LoginFlow, AuthOutcome, AppError>)
        requires
            reply.fits(self.awaiting()),
        ensures
            reply matches Reply::Failed(d) ==> step == Step::<LoginFlow, AuthOutcome, AppError>::Done(Err(AppError::Database(d))),
            self matches LoginFlow::AwaitUser { password } ==> {
                &&& reply matches Reply::MaybeUser(None) ==> fails_as(step, ErrorKind::Unauthorized, "Invalid credentials"@)
                &&& reply matches Reply::MaybeUser(Some(user)) ==> match verify_outcome(password@, user.password_hash@) {
                    None => fails_as(step, ErrorKind::Internal, "Failed to verify password"@),
                    Some(false) => fails_as(step, ErrorKind::Unauthorized, "Invalid credentials"@),
                    Some(true) => opens_session_for(step, user.id, |s: CreateSessionFlow| LoginFlow::AwaitSession { user, session: s }),
                }
            },
            self matches LoginFlow::AwaitSession { user, session } ==> (reply is Executed ==>
                (step matches Step::Done(Ok(out)) && signs_in(out, user, session.session_id()))),
            step matches Step::Run(s, q) ==> s.awaiting() == q.reply_kind(),
    {
        match self {
            LoginFlow::AwaitUser { password } => match reply {
                Reply::MaybeUser(None) => Step::Done(Err(AppError::Unauthorized(text("Invalid credentials")))),
                Reply::MaybeUser(Some(user)) => match verify_password(password.as_str(), user.password_hash.as_str()) {
                    Err(_) => Step::Done(Err(AppError::Internal(text("Failed to verify password")))),
                    Ok(false) => Step::Done(Err(AppError::Unauthorized(text("Invalid credentials")))),
                    Ok(true) => {
                        let user_id = user.id;
                        let opening = create_session(user_id);
                        let ghost g = opening;
                        let ghost u = user;
                        let step = match opening {
                            Step::Run(session, q) => Step::Run(LoginFlow::AwaitSession { user, session }, q),
                            Step::Done(r) => Step::Done(match r {
                                Ok(_) => Err(AppError::Internal(text(""))),
                                Err(e) => Err(e),
                            }),
                        };
                        proof {
                            let (sid, now) = choose|sid: String, now: Timestamp|
                                fresh_reading(sid, now) && #[trigger] session_opening(g, user_id, sid, now);
                            assert(fresh_reading(sid, now));
                            assert(opens_session_for(step, user_id, |s: CreateSessionFlow| LoginFlow::AwaitSession { user: u, session: s }));
                        }
                        step
                    },
                },
                Reply::Failed(d) => Step::Done(Err(AppError::Database(d))),
                _ => {
                    proof {
                        assert(false);
                    }
                    Step::Done(Err(AppError::Internal(text(""))))
                },
            },
            LoginFlow::AwaitSession { user, session } => match session.resume(reply) {
                Step::Done(Ok(session_id)) => Step::Done(Ok(signed_in(user, session_id))),
                Step::Done(Err(e)) => Step::Done(Err(e)),
                Step::Run(session, q) => Step::Run(LoginFlow::AwaitSession { user, session }, q),
            },
        }
    }
}

/// Starts a login by looking up the account with the given name.
pub fn login(payload: LoginRequest) -> (step: Step<LoginFlow, AuthOutcome, AppError>)
    ensures
        step == Step::<LoginFlow, AuthOutcome, AppError>::Run(
            LoginFlow::AwaitUser { password: payload.password },
            Query::FindUserByName { username: payload.username },
        ),
{
    Step::Run(LoginFlow::AwaitUser { password: payload.password }, Query::FindUserByName { username: payload.username })
}

/// The logout flow.
pub enum LogoutFlow {
    /// Removing the session.
    Deleting(DeleteSessionFlow),
}

impl LogoutFlow {
    /// The shape of reply the flow waits for.
    pub open spec fn awaiting(self) -> ReplyKind {
        ReplyKind::Executed
    }

    /// Takes the database's answer to the removal.
    pub fn resume(self, reply: Reply) -> (step: Step<LogoutFlow, CookieSpec, AppError>)
        requires
            reply.fits(self.awaiting()),
        ensures
            reply matches Reply::Failed(d) ==> step == Step::<LogoutFlow, CookieSpec, AppError>::Done(Err(AppError::Database(d))),
            reply is Executed ==> (step matches Step::Done(Ok(c)) && is_removal_cookie(c)),
    {
        match self {
            LogoutFlow::Deleting(flow) => match flow.resume(reply) {
                Step::Done(Ok(())) => Step::Done(Ok(removal_cookie())),
                Step::Done(Err(e)) => Step::Done(Err(e)),
                Step::Run(flow, q) => Step::Run(LogoutFlow::Deleting(flow), q),
            },
        }
    }
}

/// Starts a logout from the value of the `session_id` cookie: a session
/// is removed if the cookie names one; either way the answer clears the
/// cookie.
pub fn logout(session_cookie: Option<String>) -> (step: Step<LogoutFlow, CookieSpec, AppError>)
    ensures
        session_cookie is None ==> (step matches Step::Done(Ok(c)) && is_removal_cookie(c)),
        session_cookie matches Some(id) ==> step == Step::<LogoutFlow, CookieSpec, AppError>::Run(
            LogoutFlow::Deleting(DeleteSessionFlow::AwaitDelete),
            Query::DeleteSession { id },
        ),
{
    match session_cookie {
        None => Step::Done(Ok(removal_cookie())),
        Some(id) => match delete_session(id) {
            Step::Run(flow, q) => Step::Run(LogoutFlow::Deleting(flow), q),
            Step::Done(_) => {
                proof {
                    assert(false);
                }
                Step::Done(Ok(removal_cookie()))
            },
        },
    }
}

/// The public part of the signed-in account.
pub fn me(auth_user: AuthUser) -> (r: UserResponse)
    ensures
        r == (UserResponse { id: auth_user.0.id, username: auth_user.0.username }),
{
    UserResponse { id: auth_user.0.id, username: auth_user.0.username }
}

} // verus!
