//! Passwords, login sessions and the check that turns a session cookie into a
//! signed-in user.

use vstd::prelude::*;
use vstd::utf8::encode_utf8;
use argon2::password_hash::{
    rand_core::{OsRng, RngCore}, PasswordHash, PasswordHasher, PasswordVerifier, SaltString,
};
use argon2::Argon2;
use crate::clock::{utc_now, Timestamp, MAX_TIMESTAMP_SECS, NANOS_PER_SEC};
use crate::db::{Query, Reply, ReplyKind, Step};
use crate::handlers::auth::{fails_as, text, AppError, ErrorKind};
use crate::models::User;

verus! {

// ---------------------------------------------------------------------------
// Passwords
// ---------------------------------------------------------------------------

#[verifier::external_type_specification]
#[verifier::external_body]
pub struct ExPasswordHashError(argon2::password_hash::Error);

/// Whether `PasswordHash::new` accepts this text as a PHC password-hash string.
pub uninterp spec fn phc_string_parses(hash: Seq<char>) -> bool;

/// Whether `Argon2::default().verify_password` accepts this password against the
/// parsed PHC string `hash`.
pub uninterp spec fn argon2_accepts(password: Seq<char>, hash: Seq<char>) -> bool;

/// The password hashing library failed (a malformed hash string, or a
/// password or parameter outside what Argon2 accepts).
#[derive(Debug, Clone, Copy, PartialEq, Eq, Structural)]
pub struct PasswordError;

/// What checking `password` against the stored `hash` gives: `None` when the
/// hash string does not parse, else whether the password matches.
pub open spec fn verify_outcome(password: Seq<char>, hash: Seq<char>) -> Option<bool> {
    if phc_string_parses(hash) {
        Some(argon2_accepts(password, hash))
    } else {
        None
    }
}

/// Whether `hash` is a stored hash of `password`: it parses and Argon2 accepts
/// the password against it.
pub open spec fn hash_of(password: Seq<char>, hash: Seq<char>) -> bool {
    phc_string_parses(hash) && argon2_accepts(password, hash)
}

/// The number of random bytes in a fresh salt (the recommended salt length of
/// the PHC string format).
pub const SALT_LEN: usize = 16;

/// The largest password, in bytes, that Argon2 hashes.
pub const MAX_PASSWORD_BYTES: usize = 0xFFFF_FFFF;

/// The beginning of every PHC string that `Argon2::default()` writes: the
/// algorithm Argon2id, version 19.
pub open spec fn argon2id_prefix() -> Seq<char> {
    "$argon2id$v=19$"@
}

/// Whether `h` begins as an Argon2id, version 19, PHC string does.
pub open spec fn is_argon2id_phc(h: Seq<char>) -> bool {
    h.len() >= argon2id_prefix().len() && h.subrange(0, argon2id_prefix().len() as int) == argon2id_prefix()
}

/// Sixteen fresh random bytes for a salt, drawn from the operating system's
/// random source (`OsRng::fill_bytes`), as `SaltString::generate` draws them.
/// What is stated: there are sixteen. Their values depend on chance.
#[verifier::external_body]
fn random_salt() -> (salt: [u8; 16])
    ensures
        salt@.len() == SALT_LEN,
{
    let mut bytes = [0u8; 16];
    OsRng.fill_bytes(&mut bytes);
    bytes
}

/// Encodes `salt` with `SaltString::encode_b64`, hashes `password` under it
/// with `Argon2::default().hash_password`, and renders the result as a PHC
/// string. What is stated: for a salt of 8 to 48 bytes (what Argon2 and the
/// salt encoding accept) hashing fails exactly when the password is longer
/// than `MAX_PASSWORD_BYTES` bytes; a returned string begins with
/// `$argon2id$v=19$`, parses again, and Argon2 accepts the same password
/// against it (checking reads the algorithm, parameters and salt back from the
/// string). The string also depends on the salt, which carries no name here.
#[verifier::external_body]
fn argon2_hash(password: &str, salt: &[u8]) -> (r: Result<String, argon2::password_hash::Error>)
    ensures
        8 <= salt@.len() <= 48 ==> (r is Ok <==> encode_utf8(password@).len() <= MAX_PASSWORD_BYTES),
        r matches Ok(h) ==> hash_of(password@, h@) && is_argon2id_phc(h@),
{
    let salt = SaltString::encode_b64(salt)?;
    Argon2::default().hash_password(password.as_bytes(), &salt).map(|h| h.to_string())
}

/// Parses `hash` with `PasswordHash::new` and checks `password` against it with
/// `Argon2::default().verify_password`. What is stated: the parse fails exactly
/// when `phc_string_parses` is false, and the check result is `argon2_accepts`.
#[verifier::external_body]
fn argon2_verify(password: &str, hash: &str) -> (r: Result<bool, argon2::password_hash::Error>)
    ensures
        r is Ok == phc_string_parses(hash@),
        r matches Ok(b) ==> b == argon2_accepts(password@, hash@),
        (hash@.len() == 0 || hash@[0] != '$') ==> r is Err,
{
    let parsed = PasswordHash::new(hash)?;
    Ok(Argon2::default().verify_password(password.as_bytes(), &parsed).is_ok())
}

/// Hashes a password under a fresh random salt for storage: it succeeds for
/// every password of at most `MAX_PASSWORD_BYTES` bytes, and the stored string
/// is an Argon2id PHC string that accepts the password.
pub fn hash_password(password: &str) -> (r: Result<String, PasswordError>)
    ensures
        r is Ok <==> encode_utf8(password@).len() <= MAX_PASSWORD_BYTES,
        r matches Ok(h) ==> hash_of(password@, h@) && is_argon2id_phc(h@),
{
    let salt = random_salt();
    match argon2_hash(password, salt.as_slice()) {
        Ok(h) => Ok(h),
        Err(_) => Err(PasswordError),
    }
}

/// Checks a password against a stored hash: an error when the hash does not
/// parse, else whether the password matches.
pub fn verify_password(password: &str, hash: &str) -> (r: Result<bool, PasswordError>)
    ensures
        r is Err <==> verify_outcome(password@, hash@) is None,
        r matches Ok(b) ==> verify_outcome(password@, hash@) == Some(b),
        (hash@.len() == 0 || hash@[0] != '$') ==> r is Err,
{
    match argon2_verify(password, hash) {
        Ok(b) => Ok(b),
        Err(_) => Err(PasswordError),
    }
}

/// A password that was hashed for storage is accepted when checked against
/// that hash.
pub proof fn hashed_password_verifies(password: Seq<char>, hash: Seq<char>)
    requires
        hash_of(password, hash),
    ensures
        verify_outcome(password, hash) == Some(true),
{
}

// ---------------------------------------------------------------------------
// Sessions
// ---------------------------------------------------------------------------

/// How long a session lasts: seven days, in seconds.
pub const SESSION_LIFETIME_SECS: i64 = 604800;

/// Whether `s` is a version-4 UUID in its lower-case hyphenated text form.
pub open spec fn is_hyphenated_uuid(s: Seq<char>) -> bool {
    &&& s.len() == 36
    &&& s[14] == '4'
    &&& (s[19] == '8' || s[19] == '9' || s[19] == 'a' || s[19] == 'b')
    &&& forall|i: int|
        0 <= i < 36 ==> if i == 8 || i == 13 || i == 18 || i == 23 {
            s[i] == '-'
        } else {
            ('0' <= #[trigger] s[i] <= '9') || ('a' <= s[i] <= 'f')
        }
}

/// A fresh random session identifier: `uuid::Uuid::new_v4()` rendered with
/// `Display`. What is stated: the text is a lower-case hyphenated UUID with
/// the version digit 4 and the RFC 4122 variant digit. Which UUID it is
/// depends on chance.
#[verifier::external_body]
fn new_session_token() -> (id: String)
    ensures
        is_hyphenated_uuid(id@),
{
    format!("{}", uuid::Uuid::new_v4())
}

/// When a session opened at `issued_at` expires: one week later.
pub open spec fn session_expiry(issued_at: Timestamp) -> Timestamp {
    Timestamp { secs: (issued_at.secs + SESSION_LIFETIME_SECS) as i64, nanos: issued_at.nanos }
}

/// Whether a session that expires at `expires_at` still admits its user at `now`.
pub open spec fn session_is_live(expires_at: Timestamp, now: Timestamp) -> bool {
    now.before(expires_at)
}

/// A session opened at `issued_at` admits its user at `now` exactly while less
/// than one week has passed since it was opened.
pub proof fn session_lasts_one_week(issued_at: Timestamp, now: Timestamp)
    requires
        issued_at.secs <= MAX_TIMESTAMP_SECS - SESSION_LIFETIME_SECS,
        issued_at.nanos < NANOS_PER_SEC,
    ensures
        session_is_live(session_expiry(issued_at), now) <==> ({
            ||| now.secs - issued_at.secs < SESSION_LIFETIME_SECS
            ||| (now.secs - issued_at.secs == SESSION_LIFETIME_SECS && now.nanos < issued_at.nanos)
        }),
{
}

/// The flow that stores a new session.
pub enum CreateSessionFlow {
    /// The session row is being inserted.
    AwaitInsert { session_id: String, issued_at: Timestamp },
}

impl CreateSessionFlow {
    /// The shape of reply the flow waits for.
    pub open spec fn awaiting(self) -> ReplyKind {
        ReplyKind::Executed
    }

    /// The identifier of the session being stored.
    pub open spec fn session_id(self) -> String {
        match self {
            CreateSessionFlow::AwaitInsert { session_id, .. } => session_id,
        }
    }

    /// When the session being stored was opened.
    pub open spec fn issued_at(self) -> Timestamp {
        match self {
            CreateSessionFlow::AwaitInsert { issued_at, .. } => issued_at,
        }
    }

    /// Takes the database's answer to the insert: the session identifier, or
    /// the database failure.
    pub fn resume(self, reply: Reply) -> (step: Step<CreateSessionFlow, String, AppError>)
        requires
            reply.fits(self.awaiting()),
        ensures
            reply matches Reply::Failed(d) ==> step == Step::<CreateSessionFlow, String, AppError>::Done(Err(AppError::Database(d))),
            reply is Executed ==> step == Step::<CreateSessionFlow, String, AppError>::Done(Ok(self.session_id())),
    {
        match self {
            CreateSessionFlow::AwaitInsert { session_id, .. } => match reply {
                Reply::Failed(d) => Step::Done(Err(AppError::Database(d))),
                _ => Step::Done(Ok(session_id)),
            },
        }
    }
}

/// The latest clock reading at which a session can still be opened: its
/// expiry must stay within the range of calendar date-times.
pub open spec fn latest_session_start() -> int {
    MAX_TIMESTAMP_SECS - SESSION_LIFETIME_SECS
}

/// Whether `sid` and `now` could be a fresh session identifier and a clock
/// reading.
pub open spec fn fresh_reading(sid: String, now: Timestamp) -> bool {
    &&& is_hyphenated_uuid(sid@)
    &&& 0 <= now.secs <= MAX_TIMESTAMP_SECS
    &&& now.nanos < NANOS_PER_SEC
}

/// What opening a session for `user_id` with identifier `session_id` at clock
/// reading `now` gives: the insert of the session, expiring one week later; or,
/// when the expiry would pass the last representable date-time, an internal
/// error.
pub open spec fn session_opening(
    step: Step<CreateSessionFlow, String, AppError>,
    user_id: i64,
    session_id: String,
    now: Timestamp,
) -> bool {
    if now.secs <= latest_session_start() {
        step == Step::<CreateSessionFlow, String, AppError>::Run(
            CreateSessionFlow::AwaitInsert { session_id, issued_at: now },
            Query::InsertSession { id: session_id, user_id, expires_at: session_expiry(now) },
        )
    } else {
        fails_as(step, ErrorKind::Internal, "session expiry out of range"@)
    }
}

/// Opening a session stores it under the given identifier for the given
/// user, expiring exactly one week (to the nanosecond) after the clock reading;
/// only a reading too late for that expiry to be a date-time is refused, as an
/// internal error.
pub proof fn opened_session_expires_in_a_week(
    step: Step<CreateSessionFlow, String, AppError>,
    user_id: i64,
    session_id: String,
    now: Timestamp,
)
    requires
        session_opening(step, user_id, session_id, now),
    ensures
        now.secs <= MAX_TIMESTAMP_SECS - SESSION_LIFETIME_SECS ==> (step matches Step::Run(_, Query::InsertSession { id, user_id: u, expires_at })
            && id == session_id && u == user_id
            && expires_at.secs == now.secs + 7 * 24 * 3600 && expires_at.nanos == now.nanos),
        now.secs > MAX_TIMESTAMP_SECS - SESSION_LIFETIME_SECS ==> (step matches Step::Done(Err(e)) && e is Internal),
{
}

/// Opens a session for `user_id` with identifier `session_id` at clock reading
/// `now`.
pub fn open_session(user_id: i64, session_id: String, now: Timestamp) -> (step: Step<CreateSessionFlow, String, AppError>)
    ensures
        session_opening(step, user_id, session_id, now),
{
    if now.secs > MAX_TIMESTAMP_SECS - SESSION_LIFETIME_SECS {
        return Step::Done(Err(AppError::Internal(text("session expiry out of range"))));
    }
    let expires_at = Timestamp { secs: now.secs + SESSION_LIFETIME_SECS, nanos: now.nanos };
    let id = session_id.clone();
    Step::Run(
        CreateSessionFlow::AwaitInsert { session_id, issued_at: now },
        Query::InsertSession { id, user_id, expires_at },
    )
}

/// Opens a session for `user_id`: a fresh random identifier, expiring one
/// week after the current time, is inserted. Only a clock so late that the
/// expiry would pass the last representable date-time gives an internal
/// error.
pub fn create_session(user_id: i64) -> (step: Step<CreateSessionFlow, String, AppError>)
    ensures
        exists|sid: String, now: Timestamp|
            #![trigger session_opening(step, user_id, sid, now)]
            fresh_reading(sid, now) && session_opening(step, user_id, sid, now),
        step matches Step::Run(s, q) ==> s.awaiting() == q.reply_kind(),
{
    let session_id = new_session_token();
    let now = utc_now();
    let ghost sid = session_id;
    let step = open_session(user_id, session_id, now);
    assert(fresh_reading(sid, now) && session_opening(step, user_id, sid, now));
    step
}

/// The flow that finds the user signed in by a session identifier.
pub enum SessionLookupFlow {
    /// The session row is being looked up; `now` is when the lookup began.
    AwaitSession { now: Timestamp },
    /// The session is live and its user is being looked up.
    AwaitUser,
}

impl SessionLookupFlow {
    /// The shape of reply the flow waits for.
    pub open spec fn awaiting(self) -> ReplyKind {
        match self {
            SessionLookupFlow::AwaitSession { .. } => ReplyKind::MaybeSession,
            SessionLookupFlow::AwaitUser => ReplyKind::MaybeUser,
        }
    }

    /// Takes the database's answer: no user when the session is unknown or has
    /// expired, else the user that the session names (if that account is still
    /// there).
    pub fn resume(self, reply: Reply) -> (step: Step<SessionLookupFlow, Option<User>, AppError>)
        requires
            reply.fits(self.awaiting()),
        ensures
            reply matches Reply::Failed(d) ==> step == Step::<SessionLookupFlow, Option<User>, AppError>::Done(Err(AppError::Database(d))),
            self matches SessionLookupFlow::AwaitSession { now } ==> {
                &&& reply matches Reply::MaybeSession(None) ==> step == Step::<SessionLookupFlow, Option<User>, AppError>::Done(Ok(None))
                &&& reply matches Reply::MaybeSession(Some(s)) ==> if session_is_live(s.expires_at, now) {
                    step == Step::<SessionLookupFlow, Option<User>, AppError>::Run(
                        SessionLookupFlow::AwaitUser,
                        Query::FindUser { id: s.user_id },
                    )
                } else {
                    step == Step::<SessionLookupFlow, Option<User>, AppError>::Done(Ok(None))
                }
            },
            self is AwaitUser ==> (reply matches Reply::MaybeUser(u) ==> step == Step::<SessionLookupFlow, Option<User>, AppError>::Done(Ok(u))),
            step matches Step::Run(s, q) ==> s.awaiting() == q.reply_kind(),
    {
        match reply {
            Reply::Failed(d) => Step::Done(Err(AppError::Database(d))),
            Reply::MaybeSession(found) => {
                let now = match self {
                    SessionLookupFlow::AwaitSession { now } => now,
                    SessionLookupFlow::AwaitUser => {
                        proof {
                            assert(false);
                        }
                        return Step::Done(Ok(None));
                    },
                };
                match found {
                    None => Step::Done(Ok(None)),
                    Some(session) => {
                        if now.is_before(&session.expires_at) {
                            Step::Run(SessionLookupFlow::AwaitUser, Query::FindUser { id: session.user_id })
                        } else {
                            Step::Done(Ok(None))
                        }
                    },
                }
            },
            Reply::MaybeUser(user) => Step::Done(Ok(user)),
            _ => {
                proof {
                    assert(false);
                }
                Step::Done(Ok(None))
            },
        }
    }
}

/// Starts looking up the user of `session_id`, reading the current time.
pub fn get_user_from_session(session_id: String) -> (step: Step<SessionLookupFlow, Option<User>, AppError>)
    ensures
        step matches Step::Run(SessionLookupFlow::AwaitSession { now }, q)
            && q == (Query::FindSession { id: session_id })
            && 0 <= now.secs && now.nanos < NANOS_PER_SEC,
{
    let now = utc_now();
    Step::Run(SessionLookupFlow::AwaitSession { now }, Query::FindSession { id: session_id })
}

/// The flow that removes a session.
pub enum DeleteSessionFlow {
    AwaitDelete,
}

impl DeleteSessionFlow {
    /// The shape of reply the flow waits for.
    pub open spec fn awaiting(self) -> ReplyKind {
        ReplyKind::Executed
    }

    /// Takes the database's answer to the removal.
    pub fn resume(self, reply: Reply) -> (step: Step<DeleteSessionFlow, (), AppError>)
        requires
            reply.fits(self.awaiting()),
        ensures
            reply matches Reply::Failed(d) ==> step == Step::<DeleteSessionFlow, (), AppError>::Done(Err(AppError::Database(d))),
            reply is Executed ==> step == Step::<DeleteSessionFlow, (), AppError>::Done(Ok(())),
    {
        match reply {
            Reply::Failed(d) => Step::Done(Err(AppError::Database(d))),
            _ => Step::Done(Ok(())),
        }
    }
}

/// Starts removing the session `session_id`.
pub fn delete_session(session_id: String) -> (step: Step<DeleteSessionFlow, (), AppError>)
    ensures
        step == Step::<DeleteSessionFlow, (), AppError>::Run(
            DeleteSessionFlow::AwaitDelete,
            Query::DeleteSession { id: session_id },
        ),
{
    Step::Run(DeleteSessionFlow::AwaitDelete, Query::DeleteSession { id: session_id })
}

/// A request made by a signed-in user.
#[derive(Debug, PartialEq)]
pub struct AuthUser(pub User);

/// Why a request could not be tied to a signed-in user: an HTTP status code and
/// a message.
#[derive(Debug, PartialEq)]
pub struct AuthRejection {
    pub status: u16,
    pub message: String,
}

/// Whether the step refuses the request with this status and message.
pub open spec fn rejects<S, T>(step: Step<S, T, AuthRejection>, status: u16, message: Seq<char>) -> bool {
    step matches Step::Done(Err(r)) && r.status == status && r.message@ == message
}

/// The flow that finds the signed-in user of a request from its session cookie.
pub struct AuthUserFlow {
    pub lookup: SessionLookupFlow,
}

impl AuthUserFlow {
    /// The shape of reply the flow waits for.
    pub open spec fn awaiting(self) -> ReplyKind {
        self.lookup.awaiting()
    }

    /// Takes the database's answer: a database failure refuses with 500, an
    /// unknown, expired or orphaned session with 401, else the user.
    pub fn resume(self, reply: Reply) -> (step: Step<AuthUserFlow, AuthUser, AuthRejection>)
        requires
            reply.fits(self.awaiting()),
        ensures
            reply is Failed ==> rejects(step, 500, "Database error"@),
            self.lookup matches SessionLookupFlow::AwaitSession { now } ==> {
                &&& reply matches Reply::MaybeSession(None) ==> rejects(step, 401, "Invalid session"@)
                &&& reply matches Reply::MaybeSession(Some(s)) ==> if session_is_live(s.expires_at, now) {
                    step == Step::<AuthUserFlow, AuthUser, AuthRejection>::Run(
                        AuthUserFlow { lookup: SessionLookupFlow::AwaitUser },
                        Query::FindUser { id: s.user_id },
                    )
                } else {
                    rejects(step, 401, "Invalid session"@)
                }
            },
            self.lookup is AwaitUser ==> {
                &&& reply matches Reply::MaybeUser(None) ==> rejects(step, 401, "Invalid session"@)
                &&& reply matches Reply::MaybeUser(Some(u)) ==> step == Step::<AuthUserFlow, AuthUser, AuthRejection>::Done(Ok(AuthUser(u)))
            },
            step matches Step::Run(s, q) ==> s.awaiting() == q.reply_kind(),
    {
        match self.lookup.resume(reply) {
            Step::Run(lookup, q) => Step::Run(AuthUserFlow { lookup }, q),
            Step::Done(Err(_)) => Step::Done(Err(AuthRejection { status: 500, message: text("Database error") })),
            Step::Done(Ok(None)) => Step::Done(Err(AuthRejection { status: 401, message: text("Invalid session") })),
            Step::Done(Ok(Some(user))) => Step::Done(Ok(AuthUser(user))),
        }
    }
}

impl AuthUser {
    /// Starts finding the signed-in user from the value of the `session_id`
    /// cookie: without one the request is refused with 401.
    pub fn from_request_parts(session_cookie: Option<String>) -> (step: Step<AuthUserFlow, AuthUser, AuthRejection>)
        ensures
            session_cookie is None ==> rejects(step, 401, "Not authenticated"@),
            session_cookie matches Some(id) ==> step matches Step::Run(s, q)
                && q == (Query::FindSession { id }) && s.lookup is AwaitSession,
            step matches Step::Run(s, q) ==> s.awaiting() == q.reply_kind(),
    {
        match session_cookie {
            None => Step::Done(Err(AuthRejection { status: 401, message: text("Not authenticated") })),
            Some(id) => match get_user_from_session(id) {
                Step::Run(lookup, q) => Step::Run(AuthUserFlow { lookup }, q),
                Step::Done(_) => {
                    proof {
                        assert(false);
                    }
                    Step::Done(Err(AuthRejection { status: 500, message: text("Database error") }))
                },
            },
        }
    }
}

} // verus!
