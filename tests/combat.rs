use monster_battles::combat::{attacks_first, damage, simulate_battle};
use monster_battles::monster::Monster;

fn fighter(id: &str, attack: i32, defense: i32, speed: i32, hp: i32) -> Monster {
    Monster {
        id: id.to_string(),
        image_url: format!("https://example.com/{}.png", id),
        attack,
        defense,
        hp,
        speed,
        created_at: None,
        updated_at: None,
        name: format!("Fighter {}", id),
    }
}

#[test]
fn faster_fighter_wins_scenario_a() {
    let a = fighter("a", 50, 10, 20, 100);
    let b = fighter("b", 30, 5, 15, 100);
    assert!(attacks_first(&a, &b));
    assert_eq!(damage(&a, &b), 45);
    assert_eq!(damage(&b, &a), 20);
    let w = simulate_battle(a, b);
    assert_eq!(w.id, "a");
    assert_eq!(w.hp, 60);
    assert_eq!(w.attack, 50);
    assert_eq!(w.name, "Fighter a");
}

#[test]
fn equal_speed_higher_attack_strikes_first_scenario_b() {
    let a = fighter("a", 20, 10, 10, 100);
    let b = fighter("b", 25, 10, 10, 100);
    assert!(!attacks_first(&a, &b));
    assert!(attacks_first(&b, &a));
    assert_eq!(damage(&b, &a), 15);
    assert_eq!(damage(&a, &b), 10);
    let w = simulate_battle(a, b);
    assert_eq!(w.id, "b");
    assert_eq!(w.hp, 40);
}

#[test]
fn weak_attack_deals_one_damage_scenario_c() {
    let a = fighter("a", 5, 10, 5, 3);
    let b = fighter("b", 5, 10, 1, 3);
    assert_eq!(damage(&a, &b), 1);
    assert_eq!(damage(&b, &a), 1);
    let w = simulate_battle(a, b);
    assert_eq!(w.id, "a");
    assert_eq!(w.hp, 1);
}

#[test]
fn one_damage_against_large_hp_still_ends() {
    let a = fighter("a", 0, 1000, 2, 5000);
    let b = fighter("b", -7, 1000, 1, 4000);
    assert_eq!(damage(&a, &b), 1);
    let w = simulate_battle(a, b);
    assert_eq!(w.id, "a");
    assert_eq!(w.hp, 1001);
}

#[test]
fn second_striker_with_one_hp_falls_at_once_scenario_d() {
    let a = fighter("a", 1, 0, 9, 5);
    let b = fighter("b", 100, 100, 1, 1);
    let w = simulate_battle(a, b);
    assert_eq!(w.id, "a");
    assert_eq!(w.hp, 5);

    let a = fighter("a", 100, 100, 1, 1);
    let b = fighter("b", 1, 0, 9, 5);
    let w = simulate_battle(a, b);
    assert_eq!(w.id, "b");
    assert_eq!(w.hp, 5);
}

#[test]
fn faster_strikes_first_whatever_the_attack() {
    let a = fighter("a", 1, 0, 11, 10);
    let b = fighter("b", 1000, 0, 10, 10);
    assert!(attacks_first(&a, &b));
    assert!(!attacks_first(&b, &a));
}

#[test]
fn full_tie_lets_second_fighter_strike_first() {
    let a = fighter("a", 10, 0, 5, 10);
    let b = fighter("b", 10, 0, 5, 10);
    assert!(!attacks_first(&a, &b));
    assert!(!attacks_first(&b, &a));
    let w = simulate_battle(a, b);
    assert_eq!(w.id, "b");
    assert_eq!(w.hp, 10);
}

#[test]
fn damage_is_clamped_to_one() {
    assert_eq!(damage(&fighter("a", 10, 0, 0, 1), &fighter("b", 0, 10, 0, 1)), 1);
    assert_eq!(damage(&fighter("a", 11, 0, 0, 1), &fighter("b", 0, 10, 0, 1)), 1);
    assert_eq!(damage(&fighter("a", 12, 0, 0, 1), &fighter("b", 0, 10, 0, 1)), 2);
    assert_eq!(damage(&fighter("a", -5, 0, 0, 1), &fighter("b", 0, -20, 0, 1)), 15);
    assert_eq!(damage(&fighter("a", i32::MAX, 0, 0, 1), &fighter("b", 0, i32::MIN, 0, 1)), 4294967295);
}

#[test]
fn negative_stats_are_handled() {
    let a = fighter("a", -3, -3, -1, 4);
    let b = fighter("b", -2, -9, -1, 4);
    assert!(!attacks_first(&a, &b));
    let w = simulate_battle(a, b);
    assert_eq!(w.id, "a");
    assert_eq!(w.hp, 3);
}

#[test]
fn equal_inputs_give_equal_results() {
    let a = fighter("a", 20, 10, 10, 100);
    let b = fighter("b", 25, 10, 10, 100);
    let first = simulate_battle(a.clone(), b.clone());
    let second = simulate_battle(a.clone(), b.clone());
    assert_eq!(first.id, second.id);
    assert_eq!(first.hp, second.hp);
    assert_eq!(a.hp, 100);
    assert_eq!(b.hp, 100);
}

#[test]
fn winner_is_always_a_participant() {
    for sa in 1..4 {
        for ab in 1..6 {
            for hb in 1..6 {
                let a = fighter("a", 3, 1, sa, 4);
                let b = fighter("b", ab, 2, 2, hb);
                let w = simulate_battle(a, b);
                assert!(w.id == "a" || w.id == "b");
                assert!(w.hp > 0);
            }
        }
    }
}

#[test]
fn huge_hit_points_with_minimum_damage() {
    let a = fighter("a", 0, 0, 1, i32::MAX);
    let b = fighter("b", 0, 0, 0, 3);
    let w = simulate_battle(a, b);
    assert_eq!(w.id, "a");
    assert_eq!(w.hp, i32::MAX - 2);
}
