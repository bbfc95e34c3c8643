//! The two fields of a session as a value of their own: what a container
//! holds for each, and what a question about each is answered with.

use vstd::prelude::*;
use crate::instant::Timestamp;
use crate::session::{SESSION_EXPIRY, SESSION_LENGTH_IN_MINUTES, SESSION_TOKEN};
use crate::store::{json_instant, json_text};

verus! {

/// What a container holds for one field.
pub enum Slot<T> {
    /// No entry under the field's key.
    Absent,
    /// An entry that reads as this value.
    Held(T),
    /// An entry that does not read as a value of the field's kind.
    Corrupt,
}

/// What reading a field tells the caller.
pub enum Answer<T> {
    /// The field's value, or what was computed from it.
    Value(T),
    /// The field was never set; the key is named.
    Missing(Seq<char>),
    /// The entry is there and cannot be read.
    Unreadable,
}

/// The two fields of a session, as its container holds them.
pub struct Fields {
    pub token: Slot<Seq<char>>,
    pub expiry: Slot<Timestamp>,
}

/// The instant at which a session started at `now` ends: the calendar's sum
/// of `now` and the length of a session, if `now` is an instant of the
/// calendar and the sum is one.
pub open spec fn expiry_after(now: Timestamp) -> Option<Timestamp> {
    if now.is_calendar() {
        now.later_by(SESSION_LENGTH_IN_MINUTES as int)
    } else {
        None
    }
}

impl Fields {
    /// A session of which nothing was ever set.
    pub open spec fn unset() -> Fields {
        Fields { token: Slot::Absent, expiry: Slot::Absent }
    }

    /// The fields once `id` is written as the token.
    pub open spec fn with_token(self, id: Seq<char>) -> Fields {
        Fields { token: Slot::Held(id), expiry: self.expiry }
    }

    /// The fields once `at` is written as the expiry.
    pub open spec fn with_expiry(self, at: Timestamp) -> Fields {
        Fields { token: self.token, expiry: Slot::Held(at) }
    }

    /// What asking for the token tells.
    pub open spec fn token_of(self) -> Answer<Seq<char>> {
        match self.token {
            Slot::Held(id) => Answer::Value(id),
            Slot::Absent => Answer::Missing(SESSION_TOKEN@),
            Slot::Corrupt => Answer::Unreadable,
        }
    }

    /// What asking at `now` whether the session is still good tells: it is
    /// good while its expiry lies strictly after `now`.
    pub open spec fn validity(self, now: Timestamp) -> Answer<bool> {
        match self.expiry {
            Slot::Held(end) => Answer::Value(end.after(now)),
            Slot::Absent => Answer::Missing(SESSION_EXPIRY@),
            Slot::Corrupt => Answer::Unreadable,
        }
    }
}

/// The two keys are different keys.
pub proof fn keys_differ()
    ensures
        SESSION_TOKEN@ != SESSION_EXPIRY@,
{
    reveal_strlit("session");
    reveal_strlit("expires");
    assert(SESSION_TOKEN@[0] == 's');
    assert(SESSION_EXPIRY@[0] == 'e');
}

/// The entries of a container, read as the two fields.
pub open spec fn fields_of(entries: Map<Seq<char>, Seq<char>>) -> Fields {
    Fields {
        token: if entries.contains_key(SESSION_TOKEN@) {
            match json_text(entries[SESSION_TOKEN@]) {
                Some(id) => Slot::Held(id),
                None => Slot::Corrupt,
            }
        } else {
            Slot::Absent
        },
        expiry: if entries.contains_key(SESSION_EXPIRY@) {
            match json_instant(entries[SESSION_EXPIRY@]) {
                Some(end) => Slot::Held(end),
                None => Slot::Corrupt,
            }
        } else {
            Slot::Absent
        },
    }
}

} // verus!
