use vstd::prelude::*;
use crate::monster::Monster;
use vstd::arithmetic::div_mod::{lemma_div_plus_one, lemma_div_pos_is_pos, lemma_basic_div_specific_divisor};

verus! {

/// Damage of one hit: attack minus defense, but never less than 1.
pub open spec fn hit(attack: int, defense: int) -> int {
    if attack > defense {
        attack - defense
    } else {
        1
    }
}

/// Whether `a` strikes first against `b`: strictly faster, or equally fast and
/// strictly stronger. On equal speed and attack, `b` strikes first.
pub open spec fn strikes_first(a: Monster, b: Monster) -> bool {
    a.speed > b.speed || (a.speed == b.speed && a.attack > b.attack)
}

/// The hit points `(hp_a, hp_b)` left when the exchange between `a` and `b`
/// ends, starting from `hp_a` and `hp_b` with `a` to strike when `a_turn`.
/// The one who is struck down ends at exactly 0.
pub open spec fn exchange(a: Monster, b: Monster, hp_a: int, hp_b: int, a_turn: bool) -> (int, int)
    decreases hp_a + hp_b,
{
    if hp_a <= 0 || hp_b <= 0 {
        (hp_a, hp_b)
    } else if a_turn {
        let d = hit(a.attack as int, b.defense as int);
        if hp_b > d {
            exchange(a, b, hp_a, hp_b - d, false)
        } else {
            (hp_a, 0)
        }
    } else {
        let d = hit(b.attack as int, a.defense as int);
        if hp_a > d {
            exchange(a, b, hp_a - d, hp_b, true)
        } else {
            (0, hp_b)
        }
    }
}

/// The end of the contest between `a` and `b` from their full hit points.
pub open spec fn final_hp(a: Monster, b: Monster) -> (int, int) {
    exchange(a, b, a.hp as int, b.hp as int, strikes_first(a, b))
}

/// Whether `a` wins the contest against `b`.
pub open spec fn a_wins(a: Monster, b: Monster) -> bool {
    final_hp(a, b).1 == 0
}

/// The winner of the contest, with the hit points it has left.
pub open spec fn battle_result(a: Monster, b: Monster) -> Monster {
    if a_wins(a, b) {
        a.with_hp(final_hp(a, b).0 as i32)
    } else {
        b.with_hp(final_hp(a, b).1 as i32)
    }
}

/// How many hits of damage `d` it takes to bring `hp` hit points down to 0.
pub open spec fn hits_needed(hp: int, d: int) -> int {
    (hp + d - 1) / d
}

proof fn lemma_hits_needed(hp: int, d: int)
    requires
        hp >= 1,
        d >= 1,
    ensures
        hits_needed(hp, d) >= 1,
        hp <= d ==> hits_needed(hp, d) == 1,
        hp > d ==> hits_needed(hp - d, d) == hits_needed(hp, d) - 1,
{
    lemma_div_plus_one(hp - 1, d);
    lemma_div_pos_is_pos(hp - 1, d);
    lemma_basic_div_specific_divisor(d);
    assert(hits_needed(hp, d) == 1 + (hp - 1) / d);
    assert(hits_needed(hp - d, d) == (hp - 1) / d);
}

/// The exchange always ends with exactly one side at 0 hit points; the other
/// keeps a positive amount, no more than it started with.
pub proof fn lemma_exchange_ends(a: Monster, b: Monster, hp_a: int, hp_b: int, a_turn: bool)
    requires
        hp_a > 0,
        hp_b > 0,
    ensures
        ({
            let (fa, fb) = exchange(a, b, hp_a, hp_b, a_turn);
            (fa == 0 && 0 < fb <= hp_b) || (fb == 0 && 0 < fa <= hp_a)
        }),
    decreases hp_a + hp_b,
{
    if a_turn {
        let d = hit(a.attack as int, b.defense as int);
        if hp_b > d {
            lemma_exchange_ends(a, b, hp_a, hp_b - d, false);
        }
    } else {
        let d = hit(b.attack as int, a.defense as int);
        if hp_a > d {
            lemma_exchange_ends(a, b, hp_a - d, hp_b, true);
        }
    }
}

/// The exchange in closed form: the side to strike wins exactly when it needs
/// no more hits than its opponent; the other side wins only when it needs
/// strictly fewer.
pub proof fn lemma_exchange_by_hits(a: Monster, b: Monster, hp_a: int, hp_b: int, a_turn: bool)
    requires
        hp_a > 0,
        hp_b > 0,
    ensures
        ({
            let need_a = hits_needed(hp_b, hit(a.attack as int, b.defense as int));
            let need_b = hits_needed(hp_a, hit(b.attack as int, a.defense as int));
            (exchange(a, b, hp_a, hp_b, a_turn).1 == 0) == (if a_turn {
                need_a <= need_b
            } else {
                need_a < need_b
            })
        }),
    decreases hp_a + hp_b,
{
    let da = hit(a.attack as int, b.defense as int);
    let db = hit(b.attack as int, a.defense as int);
    lemma_hits_needed(hp_b, da);
    lemma_hits_needed(hp_a, db);
    lemma_exchange_ends(a, b, hp_a, hp_b, a_turn);
    if a_turn {
        if hp_b > da {
            lemma_exchange_by_hits(a, b, hp_a, hp_b - da, false);
        }
    } else {
        if hp_a > db {
            lemma_exchange_by_hits(a, b, hp_a - db, hp_b, true);
        }
    }
}

/// The winner is one of the two fighters, keeps its identity and stats, and
/// has hit points left; the loser was brought down to exactly 0.
pub proof fn lemma_winner_is_participant(a: Monster, b: Monster)
    requires
        a.hp > 0,
        b.hp > 0,
    ensures
        battle_result(a, b).id == a.id || battle_result(a, b).id == b.id,
        a_wins(a, b) ==> battle_result(a, b) == a.with_hp(battle_result(a, b).hp)
            && final_hp(a, b).1 == 0,
        !a_wins(a, b) ==> battle_result(a, b) == b.with_hp(battle_result(a, b).hp)
            && final_hp(a, b).0 == 0,
        0 < battle_result(a, b).hp,
        a_wins(a, b) ==> battle_result(a, b).hp <= a.hp,
        !a_wins(a, b) ==> battle_result(a, b).hp <= b.hp,
{
    lemma_exchange_ends(a, b, a.hp as int, b.hp as int, strikes_first(a, b));
}

/// A strictly faster fighter strikes first, whatever the other stats.
pub proof fn lemma_faster_strikes_first(a: Monster, b: Monster)
    requires
        a.speed > b.speed,
    ensures
        strikes_first(a, b),
        !strikes_first(b, a),
{
}

/// On equal speed, the fighter with strictly greater attack strikes first.
pub proof fn lemma_stronger_strikes_first_on_equal_speed(a: Monster, b: Monster)
    requires
        a.speed == b.speed,
        a.attack > b.attack,
    ensures
        strikes_first(a, b),
        !strikes_first(b, a),
{
}

/// On equal speed and equal attack, the second fighter named strikes first.
pub proof fn lemma_full_tie_favours_second(a: Monster, b: Monster)
    requires
        a.speed == b.speed,
        a.attack == b.attack,
    ensures
        !strikes_first(a, b),
{
}

/// Each hit deals `max(attack - defense, 1)`: never zero, never negative.
pub proof fn lemma_hit_is_clamped(attack: int, defense: int)
    ensures
        hit(attack, defense) == if attack - defense > 1 { attack - defense } else { 1 },
        hit(attack, defense) >= 1,
{
}

/// The winner of the contest is decided by hit counts: the first striker wins
/// exactly when it needs no more hits than the second one.
pub proof fn lemma_winner_by_hits(a: Monster, b: Monster)
    requires
        a.hp > 0,
        b.hp > 0,
    ensures
        ({
            let need_a = hits_needed(b.hp as int, hit(a.attack as int, b.defense as int));
            let need_b = hits_needed(a.hp as int, hit(b.attack as int, a.defense as int));
            a_wins(a, b) == if strikes_first(a, b) {
                need_a <= need_b
            } else {
                need_a < need_b
            }
        }),
{
    lemma_exchange_by_hits(a, b, a.hp as int, b.hp as int, strikes_first(a, b));
}

/// A fighter that strikes second with 1 hit point falls to the first hit: the
/// first striker wins with its hit points untouched.
pub proof fn lemma_one_hp_second_falls_at_once(a: Monster, b: Monster)
    requires
        a.hp > 0,
        b.hp > 0,
    ensures
        strikes_first(a, b) && b.hp == 1 ==> battle_result(a, b) == a,
        !strikes_first(a, b) && a.hp == 1 ==> battle_result(a, b) == b,
{
}

/// The result depends on the two snapshots alone: equal inputs give the same
/// winner, with the same hit points left.
pub proof fn lemma_result_repeatable(a1: Monster, b1: Monster, a2: Monster, b2: Monster)
    requires
        a1 == a2,
        b1 == b2,
    ensures
        battle_result(a1, b1) == battle_result(a2, b2),
{
}

/// Whether `a` strikes first against `b`.
pub fn attacks_first(a: &Monster, b: &Monster) -> (r: bool)
    ensures
        r == strikes_first(*a, *b),
{
    a.speed > b.speed || (a.speed == b.speed && a.attack > b.attack)
}

/// The damage that one hit of `attacker` deals to `defender`.
pub fn damage(attacker: &Monster, defender: &Monster) -> (d: i64)
    ensures
        d == hit(attacker.attack as int, defender.defense as int),
        d >= 1,
{
    if attacker.attack > defender.defense {
        attacker.attack as i64 - defender.defense as i64
    } else {
        1
    }
}

/// Runs the whole exchange between two fighters and returns the winner, with
/// the hit points it has left.
pub fn simulate_battle(monster_a: Monster, monster_b: Monster) -> (winner: Monster)
    requires
        monster_a.hp > 0,
        monster_b.hp > 0,
    ensures
        winner == battle_result(monster_a, monster_b),
        winner.id == monster_a.id || winner.id == monster_b.id,
        winner.hp > 0,
{
    proof {
        lemma_winner_is_participant(monster_a, monster_b);
    }
    let mut a_turn = attacks_first(&monster_a, &monster_b);
    let mut hp_a: i32 = monster_a.hp;
    let mut hp_b: i32 = monster_b.hp;
    loop
        invariant
            0 < hp_a <= monster_a.hp,
            0 < hp_b <= monster_b.hp,
            exchange(monster_a, monster_b, hp_a as int, hp_b as int, a_turn)
                == final_hp(monster_a, monster_b),
        decreases hp_a + hp_b,
    {
        if a_turn {
            let d = damage(&monster_a, &monster_b);
            if hp_b as i64 > d {
                hp_b = (hp_b as i64 - d) as i32;
            } else {
                let mut winner = monster_a;
                winner.hp = hp_a;
                return winner;
            }
        } else {
            let d = damage(&monster_b, &monster_a);
            if hp_a as i64 > d {
                hp_a = (hp_a as i64 - d) as i32;
            } else {
                let mut winner = monster_b;
                winner.hp = hp_b;
                return winner;
            }
        }
        a_turn = !a_turn;
    }
}

} // verus!
