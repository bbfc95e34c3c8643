//! The session guard: a token and an expiry, kept in two entries of a session
//! container, and the rules by which a session starts, ends and is judged.

use vstd::prelude::*;
use crate::clock::{add_minutes, current_time};
use crate::fields::{expiry_after, fields_of, keys_differ, Answer, Fields};
use crate::instant::Timestamp;
use crate::store::{
    describe, encoding_failure, get_instant, get_text, insert_instant, insert_text, instant_json,
    purged, stored, text_json,
};

verus! {

/// The key under which the token is kept.
pub const SESSION_TOKEN: &'static str = "session";

/// The key under which the expiry is kept.
pub const SESSION_EXPIRY: &'static str = "expires";

/// How long a session lasts from its start: 24 hours.
pub const SESSION_LENGTH_IN_MINUTES: i64 = 60 * 24;

/// What can go wrong with a session.
#[derive(Debug)]
pub enum SessionError {
    /// Stands for no failure of the library; it exists to be compared against.
    Empty,
    /// A value could not be written as JSON, or an entry could not be read as
    /// the value it should hold.
    SerializationFailure(serde_json::Error),
    /// The container has no entry under the key named: the session was never
    /// given that field.
    KeyNotFound(String),
}

impl From<serde_json::Error> for SessionError {
    fn from(cause: serde_json::Error) -> (e: SessionError) {
        SessionError::SerializationFailure(cause)
    }
}

impl vstd::std_specs::convert::FromSpecImpl<serde_json::Error> for SessionError {
    open spec fn obeys_from_spec() -> bool {
        true
    }

    open spec fn from_spec(cause: serde_json::Error) -> SessionError {
        SessionError::SerializationFailure(cause)
    }
}

impl SessionError {
    /// The error in words.
    pub fn message(&self) -> (text: String)
        ensures
            self is Empty ==> text@ == "Test err"@,
            self is SerializationFailure ==> exists|detail: Seq<char>|
                text@ == "Serialization error: "@ + detail,
            self matches SessionError::KeyNotFound(name) ==> text@
                == "Session missing parameter "@ + name@,
    {
        match self {
            SessionError::Empty => "Test err".to_owned(),
            SessionError::SerializationFailure(cause) => {
                let detail = describe(cause);
                "Serialization error: ".to_owned().concat(detail.as_str())
            },
            SessionError::KeyNotFound(name) => "Session missing parameter ".to_owned().concat(
                name.as_str(),
            ),
        }
    }
}

/// Whether `outcome` is what writing `target` owes: on success the fields are
/// `target`, or still `before` where the container is sealed; on failure the
/// value had no JSON text and the fields are still `before`.
pub open spec fn written(
    before: Fields,
    sealed: bool,
    target: Fields,
    after: Fields,
    outcome: Result<(), SessionError>,
) -> bool {
    match outcome {
        Ok(_) => after == if sealed {
            before
        } else {
            target
        },
        Err(e) => e is SerializationFailure && after == before,
    }
}

/// Whether `outcome` is what setting the token to `id` owes.
pub open spec fn token_set(
    before: Fields,
    sealed: bool,
    id: Seq<char>,
    after: Fields,
    outcome: Result<(), SessionError>,
) -> bool {
    written(before, sealed, before.with_token(id), after, outcome)
}

/// Whether `outcome` is what starting the session at `now` owes: the expiry
/// becomes the end of the window that opens at `now`, and where the calendar
/// cannot name that end the start fails.
pub open spec fn started_at(
    before: Fields,
    sealed: bool,
    now: Timestamp,
    after: Fields,
    outcome: Result<(), SessionError>,
) -> bool {
    match expiry_after(now) {
        Some(end) => written(before, sealed, before.with_expiry(end), after, outcome),
        None => outcome matches Err(e) && e is SerializationFailure && after == before,
    }
}

/// Whether `outcome` is what ending the session at `now` owes: the expiry
/// becomes `now` itself, and where the calendar cannot name `now` the call
/// fails.
pub open spec fn expired_at(
    before: Fields,
    sealed: bool,
    now: Timestamp,
    after: Fields,
    outcome: Result<(), SessionError>,
) -> bool {
    if now.is_calendar() {
        written(before, sealed, before.with_expiry(now), after, outcome)
    } else {
        outcome matches Err(e) && e is SerializationFailure && after == before
    }
}

/// Whether `outcome` hands the caller the token that `answer` tells of, or the
/// error that stands for what it tells.
pub open spec fn tells_token(outcome: Result<String, SessionError>, answer: Answer<Seq<char>>) -> bool {
    match answer {
        Answer::Value(id) => outcome matches Ok(token) && token@ == id,
        Answer::Missing(key) => outcome matches Err(SessionError::KeyNotFound(name)) && name@ == key,
        Answer::Unreadable => outcome matches Err(e) && e is SerializationFailure,
    }
}

/// Whether `outcome` hands the caller the verdict that `answer` tells of, or
/// the error that stands for what it tells.
pub open spec fn tells_validity(outcome: Result<bool, SessionError>, answer: Answer<bool>) -> bool {
    match answer {
        Answer::Value(good) => outcome == Ok::<bool, SessionError>(good),
        Answer::Missing(key) => outcome matches Err(SessionError::KeyNotFound(name)) && name@ == key,
        Answer::Unreadable => outcome matches Err(e) && e is SerializationFailure,
    }
}

/// A session container that keeps a token and an expiry.
///
/// The token names the user; it is set at login and read on each later
/// request. The expiry is set by `start`, moved on by a later `start` and
/// brought to the present by `expire`. The two fields are kept apart: neither
/// is written when the other is.
pub trait SessionGuard {
    /// The two fields as the container holds them.
    spec fn fields(&self) -> Fields;

    /// Whether the container lets writes pass without keeping them.
    spec fn sealed(&self) -> bool;

    /// Writes `id` as the token, over any token held before.
    fn set_token(&mut self, id: String) -> (outcome: Result<(), SessionError>)
        ensures
            final(self).sealed() == old(self).sealed(),
            token_set(old(self).fields(), old(self).sealed(), id@, final(self).fields(), outcome),
    ;

    /// The token, or the error that says why there is none to give.
    fn get_token(&self) -> (outcome: Result<String, SessionError>)
        ensures
            tells_token(outcome, self.fields().token_of()),
    ;

    /// Starts or renews the session at `now`: it ends
    /// `SESSION_LENGTH_IN_MINUTES` later, whatever expiry was held before.
    fn start_at(&mut self, now: Timestamp) -> (outcome: Result<(), SessionError>)
        ensures
            final(self).sealed() == old(self).sealed(),
            started_at(old(self).fields(), old(self).sealed(), now, final(self).fields(), outcome),
    ;

    /// Ends the session at `now`, whatever expiry was held before.
    fn expire_at(&mut self, now: Timestamp) -> (outcome: Result<(), SessionError>)
        ensures
            final(self).sealed() == old(self).sealed(),
            expired_at(old(self).fields(), old(self).sealed(), now, final(self).fields(), outcome),
    ;

    /// Whether the session is still good at `now`. Changes nothing.
    fn validate_at(&self, now: Timestamp) -> (outcome: Result<bool, SessionError>)
        ensures
            tells_validity(outcome, self.fields().validity(now)),
    ;

    /// `start_at` the reading of the wall clock, which is an instant of the
    /// calendar.
    fn start(&mut self) -> (outcome: Result<(), SessionError>)
        ensures
            final(self).sealed() == old(self).sealed(),
            exists|now: Timestamp|
                now.is_calendar() && #[trigger] started_at(
                    old(self).fields(),
                    old(self).sealed(),
                    now,
                    final(self).fields(),
                    outcome,
                ),
    ;

    /// `expire_at` the reading of the wall clock, which is an instant of the
    /// calendar.
    fn expire(&mut self) -> (outcome: Result<(), SessionError>)
        ensures
            final(self).sealed() == old(self).sealed(),
            exists|now: Timestamp|
                now.is_calendar() && #[trigger] expired_at(
                    old(self).fields(),
                    old(self).sealed(),
                    now,
                    final(self).fields(),
                    outcome,
                ),
    ;

    /// `validate_at` the reading of the wall clock, which is an instant of
    /// the calendar.
    fn validate(&self) -> (outcome: Result<bool, SessionError>)
        ensures
            exists|now: Timestamp|
                now.is_calendar() && tells_validity(
                    outcome,
                    #[trigger] self.fields().validity(now),
                ),
    ;
}

/// Computes `expiry_after`.
pub fn expiry_from(now: Timestamp) -> (end: Option<Timestamp>)
    ensures
        end == expiry_after(now),
{
    if now.in_calendar() {
        add_minutes(now, SESSION_LENGTH_IN_MINUTES)
    } else {
        None
    }
}

/// Turns what the container said of a write into the guard's own result.
pub fn write_result(said: Result<(), serde_json::Error>) -> (outcome: Result<(), SessionError>)
    ensures
        match said {
            Ok(_) => outcome is Ok,
            Err(cause) => outcome == Err::<(), SessionError>(
                SessionError::SerializationFailure(cause),
            ),
        },
{
    match said {
        Ok(_) => Ok(()),
        Err(cause) => Err(SessionError::from(cause)),
    }
}

/// Turns what the container found under the token key into the token, or
/// into the error that says why there is none.
pub fn token_from(found: Result<Option<String>, serde_json::Error>) -> (outcome: Result<
    String,
    SessionError,
>)
    ensures
        match found {
            Ok(Some(token)) => outcome == Ok::<String, SessionError>(token),
            Ok(None) => outcome matches Err(SessionError::KeyNotFound(name)) && name@
                == SESSION_TOKEN@,
            Err(cause) => outcome == Err::<String, SessionError>(
                SessionError::SerializationFailure(cause),
            ),
        },
{
    match found {
        Ok(Some(token)) => Ok(token),
        Ok(None) => Err(SessionError::KeyNotFound(SESSION_TOKEN.to_owned())),
        Err(cause) => Err(SessionError::from(cause)),
    }
}

/// Turns what the container found under the expiry key into the verdict at
/// `now`, or into the error that says why there is none.
pub fn validity_from(found: Result<Option<Timestamp>, serde_json::Error>, now: Timestamp) -> (outcome:
    Result<bool, SessionError>)
    ensures
        match found {
            Ok(Some(end)) => outcome == Ok::<bool, SessionError>(end.after(now)),
            Ok(None) => outcome matches Err(SessionError::KeyNotFound(name)) && name@
                == SESSION_EXPIRY@,
            Err(cause) => outcome == Err::<bool, SessionError>(
                SessionError::SerializationFailure(cause),
            ),
        },
{
    match found {
        Ok(Some(end)) => Ok(end.is_after(&now)),
        Ok(None) => Err(SessionError::KeyNotFound(SESSION_EXPIRY.to_owned())),
        Err(cause) => Err(SessionError::from(cause)),
    }
}

/// Whether `after` and `outcome` are what writing the expiry into the entries
/// `before` owes: with an instant to write the call succeeds, and a container
/// that is not purged then holds the JSON text of that instant under the
/// expiry key and every other entry as before; with none the call fails and
/// the entries are as before.
pub open spec fn expiry_entry_written(
    before: Map<Seq<char>, Seq<char>>,
    purged: bool,
    at: Option<Timestamp>,
    after: Map<Seq<char>, Seq<char>>,
    outcome: Result<(), SessionError>,
) -> bool {
    match at {
        Some(end) => outcome is Ok && after == if purged {
            before
        } else {
            before.insert(SESSION_EXPIRY@, instant_json(end))
        },
        None => outcome matches Err(e) && e is SerializationFailure && after == before,
    }
}

/// The instant that ending a session at `now` writes, if the calendar can
/// name it.
pub open spec fn expiry_at(now: Timestamp) -> Option<Timestamp> {
    if now.is_calendar() {
        Some(now)
    } else {
        None
    }
}

impl SessionGuard for actix_session::Session {
    open spec fn fields(&self) -> Fields {
        fields_of(stored(*self))
    }

    open spec fn sealed(&self) -> bool {
        purged(*self)
    }

    fn set_token(&mut self, id: String) -> (outcome: Result<(), SessionError>)
        ensures
            outcome is Ok,
            stored(*final(self)) == if purged(*old(self)) {
                stored(*old(self))
            } else {
                stored(*old(self)).insert(SESSION_TOKEN@, text_json(id@))
            },
    {
        proof {
            keys_differ();
        }
        write_result(insert_text(self, SESSION_TOKEN, id))
    }

    fn get_token(&self) -> (outcome: Result<String, SessionError>) {
        token_from(get_text(self, SESSION_TOKEN))
    }

    fn start_at(&mut self, now: Timestamp) -> (outcome: Result<(), SessionError>)
        ensures
            expiry_entry_written(
                stored(*old(self)),
                purged(*old(self)),
                expiry_after(now),
                stored(*final(self)),
                outcome,
            ),
    {
        proof {
            keys_differ();
        }
        match expiry_from(now) {
            Some(end) => write_result(insert_instant(self, SESSION_EXPIRY, end)),
            None => Err(
                SessionError::from(encoding_failure("the end of the session is not a date and a time")),
            ),
        }
    }

    fn expire_at(&mut self, now: Timestamp) -> (outcome: Result<(), SessionError>)
        ensures
            expiry_entry_written(
                stored(*old(self)),
                purged(*old(self)),
                expiry_at(now),
                stored(*final(self)),
                outcome,
            ),
    {
        proof {
            keys_differ();
        }
        if now.in_calendar() {
            write_result(insert_instant(self, SESSION_EXPIRY, now))
        } else {
            Err(SessionError::from(encoding_failure("the end of the session is not a date and a time")))
        }
    }

    fn validate_at(&self, now: Timestamp) -> (outcome: Result<bool, SessionError>) {
        validity_from(get_instant(self, SESSION_EXPIRY), now)
    }

    fn start(&mut self) -> (outcome: Result<(), SessionError>)
        ensures
            exists|now: Timestamp|
                now.is_calendar() && #[trigger] expiry_entry_written(
                    stored(*old(self)),
                    purged(*old(self)),
                    expiry_after(now),
                    stored(*final(self)),
                    outcome,
                ),
    {
        let now = current_time();
        self.start_at(now)
    }

    fn expire(&mut self) -> (outcome: Result<(), SessionError>)
        ensures
            outcome is Ok,
            exists|now: Timestamp|
                now.is_calendar() && #[trigger] expiry_entry_written(
                    stored(*old(self)),
                    purged(*old(self)),
                    expiry_at(now),
                    stored(*final(self)),
                    outcome,
                ),
    {
        let now = current_time();
        self.expire_at(now)
    }

    fn validate(&self) -> (outcome: Result<bool, SessionError>) {
        let now = current_time();
        self.validate_at(now)
    }
}

} // verus!
