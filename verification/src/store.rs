//! The session container of the web framework, and the JSON text it keeps.
//!
//! The container maps a key to the JSON text of a value. Nothing in this file
//! is proved: each function hands one call to the container, and its contract
//! says what that call is known to do.

use vstd::prelude::*;
use crate::instant::Timestamp;

verus! {

/// `actix_session::Session`, the container of one request's session. It is
/// a handle: what the contracts below say of a container, they say of it as
/// seen through the one handle that the call was given, with no second
/// handle to the same request's session at work and none of its entries on
/// loan.
#[verifier::external_type_specification]
#[verifier::external_body]
pub struct ExSession(actix_session::Session);

/// `serde_json::Error`, the cause that the container gives for a value it
/// could not write or an entry it could not read. Nothing is known of it.
#[verifier::external_type_specification]
#[verifier::external_body]
pub struct ExJsonError(serde_json::Error);

/// The entries of the container: under each key the JSON text of its value.
pub uninterp spec fn stored(session: actix_session::Session) -> Map<Seq<char>, Seq<char>>;

/// Whether the container was marked for removal: it then drops what is
/// written to it.
pub uninterp spec fn purged(session: actix_session::Session) -> bool;

/// The JSON text `serde_json::to_string` writes for a string.
pub uninterp spec fn text_json(text: Seq<char>) -> Seq<char>;

/// The string `serde_json::from_str` reads from a JSON text, if it reads one.
pub uninterp spec fn json_text(json: Seq<char>) -> Option<Seq<char>>;

/// The JSON text `serde_json::to_string` writes for a UTC date and time.
pub uninterp spec fn instant_json(at: Timestamp) -> Seq<char>;

/// The instant `serde_json::from_str` reads from the JSON text of a date and
/// time, if it reads one.
pub uninterp spec fn json_instant(json: Seq<char>) -> Option<Timestamp>;

/// `actix_session::Session::insert` with a string for the value.
///
/// Claims: the call succeeds, since it fails only where `serde_json` has no
/// text for the value, and it has one for every string; a purged container
/// stays purged and holds what it held; any other stays unpurged and gets the
/// JSON text of `value` under `key`, all other entries untouched; and that
/// text reads back as `value`.
#[verifier::external_body]
pub(crate) fn insert_text(session: &mut actix_session::Session, key: &str, value: String) -> (outcome:
    Result<(), serde_json::Error>)
    ensures
        outcome is Ok,
        purged(*final(session)) == purged(*old(session)),
        stored(*final(session)) == if purged(*old(session)) {
            stored(*old(session))
        } else {
            stored(*old(session)).insert(key@, text_json(value@))
        },
        !purged(*old(session)) ==> json_text(stored(*final(session))[key@]) == Some(value@),
{
    session.insert(key, value)
}

/// `actix_session::Session::insert` with a UTC date and time for the value,
/// which `chrono::DateTime::from_timestamp` makes of `at`; it makes one of
/// every instant of the calendar.
///
/// Claims: the call succeeds, since `chrono` writes a date and time as one
/// string, for which `serde_json` always has a text; a purged container stays
/// purged and holds what it held; any other stays unpurged and gets the JSON
/// text of `at` under `key`, all other entries untouched; and that text reads
/// back as `at`.
#[verifier::external_body]
pub(crate) fn insert_instant(session: &mut actix_session::Session, key: &str, at: Timestamp) -> (outcome:
    Result<(), serde_json::Error>)
    requires
        at.is_calendar(),
    ensures
        outcome is Ok,
        purged(*final(session)) == purged(*old(session)),
        stored(*final(session)) == if purged(*old(session)) {
            stored(*old(session))
        } else {
            stored(*old(session)).insert(key@, instant_json(at))
        },
        !purged(*old(session)) ==> json_instant(stored(*final(session))[key@]) == Some(at),
{
    session.insert(key, chrono::DateTime::from_timestamp(at.secs, at.nanos).unwrap())
}

/// `actix_session::Session::get`, asked for a string.
///
/// Claims: no entry under `key` gives `Ok(None)`; an entry whose text reads as
/// a JSON string gives that string; any other entry gives the error.
#[verifier::external_body]
pub(crate) fn get_text(session: &actix_session::Session, key: &str) -> (found: Result<
    Option<String>,
    serde_json::Error,
>)
    ensures
        match found {
            Ok(Some(text)) => stored(*session).contains_key(key@) && json_text(
                stored(*session)[key@],
            ) == Some(text@),
            Ok(None) => !stored(*session).contains_key(key@),
            Err(_) => stored(*session).contains_key(key@) && json_text(stored(*session)[key@])
                is None,
        },
{
    session.get::<String>(key)
}

/// `actix_session::Session::get`, asked for a UTC date and time, which is
/// handed on as seconds and nanoseconds.
///
/// Claims: no entry under `key` gives `Ok(None)`; an entry whose text reads as
/// a date and time gives its instant; any other entry gives the error.
#[verifier::external_body]
pub(crate) fn get_instant(session: &actix_session::Session, key: &str) -> (found: Result<
    Option<Timestamp>,
    serde_json::Error,
>)
    ensures
        match found {
            Ok(Some(at)) => stored(*session).contains_key(key@) && json_instant(
                stored(*session)[key@],
            ) == Some(at),
            Ok(None) => !stored(*session).contains_key(key@),
            Err(_) => stored(*session).contains_key(key@) && json_instant(stored(*session)[key@])
                is None,
        },
{
    match session.get::<chrono::DateTime<chrono::Utc>>(key) {
        Ok(Some(moment)) => Ok(Some(Timestamp::new(moment.timestamp(), moment.timestamp_subsec_nanos()))),
        Ok(None) => Ok(None),
        Err(cause) => Err(cause),
    }
}

/// `serde::ser::Error::custom` of `serde_json::Error`: the error with which a
/// value reports that it has no JSON text.
///
/// Claims nothing of the error.
#[verifier::external_body]
pub(crate) fn encoding_failure(reason: &str) -> serde_json::Error {
    <serde_json::Error as serde::ser::Error>::custom(reason)
}

/// The text that `serde_json::Error` shows for itself.
///
/// Claims nothing of the text.
#[verifier::external_body]
pub(crate) fn describe(cause: &serde_json::Error) -> String {
    format!("{}", cause)
}

} // verus!
