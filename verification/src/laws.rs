//! What holds of a session whatever its container: the laws that follow from
//! what the operations of the guard owe.
//!
//! A law takes the fields before and after each call as the call's contract
//! relates them, and speaks, unless it says otherwise, of a container that
//! keeps what is written to it.

use vstd::prelude::*;
use crate::instant::{Timestamp, NANOS_PER_SECOND};
use crate::fields::{fields_of, keys_differ, Answer, Fields, Slot};
use crate::session::{
    expired_at, started_at, tells_token, tells_validity, token_set, SessionError, SESSION_EXPIRY,
    SESSION_LENGTH_IN_MINUTES, SESSION_TOKEN,
};

verus! {

/// Ending a session that was already ended leaves it ended: after each of
/// the two calls the session is bad at every instant from that call on, and
/// what the first call wrote leaves no trace once the second has run.
pub proof fn expire_twice_stays_expired(
    before: Fields,
    first: Timestamp,
    between: Fields,
    first_outcome: Result<(), SessionError>,
    second: Timestamp,
    after: Fields,
    second_outcome: Result<(), SessionError>,
    later: Timestamp,
)
    requires
        expired_at(before, false, first, between, first_outcome),
        expired_at(between, false, second, after, second_outcome),
        first_outcome is Ok,
        second_outcome is Ok,
    ensures
        !first.after(later) ==> between.validity(later) == Answer::Value(false),
        !second.after(later) ==> after.validity(later) == Answer::Value(false),
        after == before.with_expiry(second),
{
}

/// Whether ending a session succeeds rests on the instant alone: an end that
/// succeeds on one session is owed to every other session too, and leaves
/// both with the same expiry.
pub proof fn expire_ignores_the_past(
    one: Fields,
    other: Fields,
    now: Timestamp,
    after: Fields,
    outcome: Result<(), SessionError>,
)
    requires
        expired_at(one, false, now, after, outcome),
        outcome is Ok,
    ensures
        expired_at(other, false, now, other.with_expiry(now), outcome),
        after.expiry == other.with_expiry(now).expiry,
{
}

/// Starting a session puts its expiry one session's length after the instant
/// of the start, and so strictly after it: at that instant the session is
/// good. The token is as it was.
pub proof fn start_opens_the_window(
    before: Fields,
    now: Timestamp,
    after: Fields,
    outcome: Result<(), SessionError>,
)
    requires
        started_at(before, false, now, after, outcome),
        outcome is Ok,
    ensures
        after.expiry matches Slot::Held(end) && end.after(now) && end.secs == now.secs
            + SESSION_LENGTH_IN_MINUTES * 60 && end.nanos == now.nanos % NANOS_PER_SECOND,
        after.validity(now) == Answer::Value(true),
        after.token == before.token,
{
}

/// A started session is good at exactly the instants before the end of its
/// window.
pub proof fn window_ends_on_time(
    before: Fields,
    now: Timestamp,
    after: Fields,
    outcome: Result<(), SessionError>,
    later: Timestamp,
)
    requires
        started_at(before, false, now, after, outcome),
        outcome is Ok,
    ensures
        after.validity(later) == Answer::Value(
            later.secs < now.secs + SESSION_LENGTH_IN_MINUTES * 60 || (later.secs == now.secs
                + SESSION_LENGTH_IN_MINUTES * 60 && later.nanos < now.nanos % NANOS_PER_SECOND),
        ),
{
}

/// A session whose expiry is the present instant is bad: the expiry has to
/// lie strictly after the instant of the question.
pub proof fn expiry_is_strict(fields: Fields, now: Timestamp)
    ensures
        fields.with_expiry(now).validity(now) == Answer::Value(false),
{
}

/// A container without entries has neither field, and each question names
/// the key it missed. The answer is never that an entry could not be read.
pub proof fn unset_fields_are_missing(now: Timestamp)
    ensures
        fields_of(Map::empty()) == Fields::unset(),
        Fields::unset().token_of() == Answer::<Seq<char>>::Missing("session"@),
        Fields::unset().validity(now) == Answer::<bool>::Missing("expires"@),
{
}

/// The error that a caller gets for a field never set is `KeyNotFound` with
/// the field's key, for the token and for the expiry alike.
pub proof fn missing_fields_are_told_apart(
    token: Result<String, SessionError>,
    verdict: Result<bool, SessionError>,
    now: Timestamp,
)
    requires
        tells_token(token, Fields::unset().token_of()),
        tells_validity(verdict, Fields::unset().validity(now)),
    ensures
        token matches Err(SessionError::KeyNotFound(name)) && name@ == "session"@,
        verdict matches Err(SessionError::KeyNotFound(name)) && name@ == "expires"@,
{
}

/// The token that was set is the token that is read, whatever was held
/// before; the expiry is as it was.
pub proof fn token_round_trip(
    before: Fields,
    id: Seq<char>,
    after: Fields,
    outcome: Result<(), SessionError>,
    read: Result<String, SessionError>,
)
    requires
        token_set(before, false, id, after, outcome),
        outcome is Ok,
        tells_token(read, after.token_of()),
    ensures
        read matches Ok(token) && token@ == id,
        after.expiry == before.expiry,
{
}

/// A session that was started, ended and started again is good at the
/// instant of the second start, and holds what one start alone would have
/// written.
pub proof fn restart_after_expiry(
    before: Fields,
    first: Timestamp,
    opened: Fields,
    first_outcome: Result<(), SessionError>,
    second: Timestamp,
    closed: Fields,
    second_outcome: Result<(), SessionError>,
    third: Timestamp,
    after: Fields,
    third_outcome: Result<(), SessionError>,
)
    requires
        started_at(before, false, first, opened, first_outcome),
        expired_at(opened, false, second, closed, second_outcome),
        started_at(closed, false, third, after, third_outcome),
        first_outcome is Ok,
        second_outcome is Ok,
        third_outcome is Ok,
    ensures
        after.validity(third) == Answer::Value(true),
        started_at(before, false, third, after, third_outcome),
{
}

/// An expiry that was written reads as an instant of the calendar: a start
/// or an end that succeeds never leaves the field unreadable.
pub proof fn written_expiry_is_an_instant(
    before: Fields,
    now: Timestamp,
    after: Fields,
    outcome: Result<(), SessionError>,
)
    requires
        started_at(before, false, now, after, outcome) || expired_at(
            before,
            false,
            now,
            after,
            outcome,
        ),
        outcome is Ok,
    ensures
        after.expiry matches Slot::Held(end) && end.is_calendar(),
{
}

/// Writing one field leaves the other as it was.
pub proof fn fields_are_kept_apart(entries: Map<Seq<char>, Seq<char>>, text: Seq<char>)
    ensures
        fields_of(entries.insert(SESSION_TOKEN@, text)).expiry == fields_of(entries).expiry,
        fields_of(entries.insert(SESSION_EXPIRY@, text)).token == fields_of(entries).token,
{
    keys_differ();
}

/// A sealed container keeps no write: whatever succeeds on it leaves the
/// fields as they were.
pub proof fn sealed_container_keeps_nothing(
    before: Fields,
    id: Seq<char>,
    now: Timestamp,
    after: Fields,
    outcome: Result<(), SessionError>,
)
    requires
        token_set(before, true, id, after, outcome) || started_at(before, true, now, after, outcome)
            || expired_at(before, true, now, after, outcome),
    ensures
        after == before,
{
}

} // verus!
