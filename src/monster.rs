use vstd::prelude::*;

verus! {

/// A point in time, as microseconds since the Unix epoch (UTC).
#[derive(Clone, Copy, Debug, PartialEq, Eq, Structural)]
pub struct Timestamp {
    pub micros: i64,
}

/// A fighter record: identity, display data and the four combat stats.
#[derive(Clone, Debug)]
pub struct Monster {
    pub id: String,
    pub image_url: String,
    pub attack: i32,
    pub defense: i32,
    pub hp: i32,
    pub speed: i32,
    pub created_at: Option<Timestamp>,
    pub updated_at: Option<Timestamp>,
    pub name: String,
}

impl Monster {
    /// The same record with its hit points replaced.
    pub open spec fn with_hp(self, hp: i32) -> Monster {
        Monster {
            id: self.id,
            image_url: self.image_url,
            attack: self.attack,
            defense: self.defense,
            hp: hp,
            speed: self.speed,
            created_at: self.created_at,
            updated_at: self.updated_at,
            name: self.name,
        }
    }
}

} // verus!
