use vstd::prelude::*;
use crate::monster::{Monster, Timestamp};
use crate::combat::{battle_result, simulate_battle};
use crate::records::is_uuid_v4_text;

verus! {

/// A resolved contest: the two fighters and the one that won.
#[derive(Clone, Debug)]
pub struct Battle {
    pub id: String,
    pub monster_a: String,
    pub monster_b: String,
    pub winner: String,
    pub created_at: Option<Timestamp>,
    pub updated_at: Option<Timestamp>,
}

/// A request to stage a contest between two stored fighters.
#[derive(Clone, Debug)]
pub struct CreateBattleRequest {
    pub monster_a: Option<String>,
    pub monster_b: Option<String>,
}

/// Why a contest could not be staged.
#[derive(Clone, Copy, Debug, PartialEq, Eq, Structural)]
pub enum BattleError {
    /// The request names no first fighter.
    MissingMonsterA,
    /// The request names no second fighter.
    MissingMonsterB,
    /// No stored fighter has the first identifier.
    MonsterANotFound,
    /// No stored fighter has the second identifier.
    MonsterBNotFound,
    /// The first fighter has no hit points left to fight with.
    MonsterADown,
    /// The second fighter has no hit points left to fight with.
    MonsterBDown,
}

impl CreateBattleRequest {
    pub fn new(monster_a: Option<String>, monster_b: Option<String>) -> (r: CreateBattleRequest)
        ensures
            r.monster_a == monster_a,
            r.monster_b == monster_b,
    {
        CreateBattleRequest { monster_a, monster_b }
    }

    /// The two fighter identifiers, both of which the request must name.
    pub fn monster_ids(&self) -> (r: Result<(String, String), BattleError>)
        ensures
            self.monster_a.is_none() ==> r == Err::<(String, String), BattleError>(
                BattleError::MissingMonsterA,
            ),
            self.monster_a.is_some() && self.monster_b.is_none() ==> r == Err::<
                (String, String),
                BattleError,
            >(BattleError::MissingMonsterB),
            self.monster_a.is_some() && self.monster_b.is_some() ==> r == Ok::<
                (String, String),
                BattleError,
            >((self.monster_a.unwrap(), self.monster_b.unwrap())),
    {
        match (&self.monster_a, &self.monster_b) {
            (None, _) => Err(BattleError::MissingMonsterA),
            (Some(_), None) => Err(BattleError::MissingMonsterB),
            (Some(a), Some(b)) => Ok((a.clone(), b.clone())),
        }
    }
}

impl Battle {
    /// The same record under another identifier.
    pub open spec fn with_id(self, id: String) -> Battle {
        Battle {
            id: id,
            monster_a: self.monster_a,
            monster_b: self.monster_b,
            winner: self.winner,
            created_at: self.created_at,
            updated_at: self.updated_at,
        }
    }

    /// The record as the store creates it: every field kept but the
    /// identifier, which is replaced by a freshly generated one.
    pub fn with_fresh_id(self) -> (r: Battle)
        ensures
            r == self.with_id(r.id),
            is_uuid_v4_text(r.id@),
    {
        let mut r = self;
        r.id = crate::records::new_id();
        r
    }
}

/// Whether `battle` is a freshly created record of the contest between `a`
/// and `b`, requested under the identifiers `a_id` and `b_id`.
pub open spec fn is_contest_record(
    battle: Battle,
    a_id: String,
    b_id: String,
    a: Monster,
    b: Monster,
) -> bool {
    &&& battle.monster_a == a_id
    &&& battle.monster_b == b_id
    &&& battle.winner == battle_result(a, b).id
    &&& battle.created_at.is_none()
    &&& battle.updated_at.is_none()
    &&& is_uuid_v4_text(battle.id@)
}

/// The contest record for two looked-up fighters, `None` standing for an
/// identifier that matched no stored fighter. Both must be found and have hit
/// points left; the winner is then decided by [`simulate_battle`].
pub fn create_battle(
    monster_a_id: String,
    monster_b_id: String,
    monster_a: Option<Monster>,
    monster_b: Option<Monster>,
) -> (r: Result<Battle, BattleError>)
    ensures
        monster_a.is_none() ==> r == Err::<Battle, BattleError>(BattleError::MonsterANotFound),
        monster_a.is_some() && monster_b.is_none() ==> r == Err::<Battle, BattleError>(
            BattleError::MonsterBNotFound,
        ),
        monster_a.is_some() && monster_b.is_some() ==> {
            let (a, b) = (monster_a.unwrap(), monster_b.unwrap());
            &&& a.hp <= 0 ==> r == Err::<Battle, BattleError>(BattleError::MonsterADown)
            &&& a.hp > 0 && b.hp <= 0 ==> r == Err::<Battle, BattleError>(
                BattleError::MonsterBDown,
            )
            &&& a.hp > 0 && b.hp > 0 ==> r.is_ok() && is_contest_record(
                r.unwrap(),
                monster_a_id,
                monster_b_id,
                a,
                b,
            )
        },
{
    let a = match monster_a {
        Some(m) => m,
        None => return Err(BattleError::MonsterANotFound),
    };
    let b = match monster_b {
        Some(m) => m,
        None => return Err(BattleError::MonsterBNotFound),
    };
    if a.hp <= 0 {
        return Err(BattleError::MonsterADown);
    }
    if b.hp <= 0 {
        return Err(BattleError::MonsterBDown);
    }
    let winner = simulate_battle(a, b);
    Ok(Battle {
        id: crate::records::new_id(),
        monster_a: monster_a_id,
        monster_b: monster_b_id,
        winner: winner.id,
        created_at: None,
        updated_at: None,
    })
}

} // verus!
