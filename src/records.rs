use vstd::prelude::*;
use crate::monster::{Monster, Timestamp};

verus! {

/// Whether `c` is a lowercase hexadecimal digit.
pub open spec fn is_lower_hex(c: char) -> bool {
    ('0' <= c && c <= '9') || ('a' <= c && c <= 'f')
}

/// Whether `s` is the text of a random (version 4) UUID in hyphenated
/// lowercase form: 8-4-4-4-12 hex digits, with the version digit `4`.
pub open spec fn is_uuid_v4_text(s: Seq<char>) -> bool {
    &&& s.len() == 36
    &&& forall|i: int|
        0 <= i < 36 ==> if i == 8 || i == 13 || i == 18 || i == 23 {
            #[trigger] s[i] == '-'
        } else {
            is_lower_hex(s[i])
        }
    &&& s[14] == '4'
}

/// Relies on uuid::Uuid::new_v4 and its `Display` impl: a random version 4
/// UUID, written hyphenated in lowercase hex.
#[verifier::external_body]
pub(crate) fn new_id() -> (r: String)
    ensures
        is_uuid_v4_text(r@),
{
    uuid::Uuid::new_v4().to_string()
}

/// Relies on chrono::Utc::now, read as microseconds since the Unix epoch.
#[verifier::external_body]
fn now() -> (t: Timestamp) {
    Timestamp { micros: chrono::Utc::now().naive_utc().and_utc().timestamp_micros() }
}

impl Monster {
    /// The same record under another identifier.
    pub open spec fn with_id(self, id: String) -> Monster {
        Monster {
            id: id,
            image_url: self.image_url,
            attack: self.attack,
            defense: self.defense,
            hp: self.hp,
            speed: self.speed,
            created_at: self.created_at,
            updated_at: self.updated_at,
            name: self.name,
        }
    }

    /// The same record with another modification time.
    pub open spec fn with_updated_at(self, t: Option<Timestamp>) -> Monster {
        Monster {
            id: self.id,
            image_url: self.image_url,
            attack: self.attack,
            defense: self.defense,
            hp: self.hp,
            speed: self.speed,
            created_at: self.created_at,
            updated_at: t,
            name: self.name,
        }
    }

    /// A field-by-field copy of the record.
    pub fn duplicate(&self) -> (r: Monster)
        ensures
            r == *self,
    {
        Monster {
            id: self.id.clone(),
            image_url: self.image_url.clone(),
            attack: self.attack,
            defense: self.defense,
            hp: self.hp,
            speed: self.speed,
            created_at: self.created_at,
            updated_at: self.updated_at,
            name: self.name.clone(),
        }
    }

    /// The record as the store creates it: every field kept but the
    /// identifier, which is replaced by a freshly generated one.
    pub fn with_fresh_id(self) -> (r: Monster)
        ensures
            r == self.with_id(r.id),
            is_uuid_v4_text(r.id@),
    {
        let mut r = self;
        r.id = new_id();
        r
    }

    /// The record as an update stores it: modification time set to `now`,
    /// every other field kept.
    pub fn stamped(self, now: Timestamp) -> (r: Monster)
        ensures
            r == self.with_updated_at(Some(now)),
    {
        let mut r = self;
        r.updated_at = Some(now);
        r
    }

    /// The record as an update stores it, stamped with the current time.
    pub fn touched(self) -> (r: Monster)
        ensures
            r.updated_at.is_some(),
            r == self.with_updated_at(r.updated_at),
    {
        let t = now();
        self.stamped(t)
    }
}

} // verus!
