use match_engine::engine::SimulationEngine;
use match_engine::lineup::{default_positions, parse_formation_positions};
use match_engine::model::{Formation, FormationPosition, Player, Side, Team};
use std::collections::HashMap;

fn squad_of(base: i64, n: usize) -> Vec<Player> {
    (0..n)
        .map(|i| Player {
            id: base + i as i64,
            first_name: format!("F{}", i),
            last_name: format!("L{}", i),
            shirt_number: if i % 2 == 0 { Some(30 + i as i64) } else { None },
            position_short: if i % 3 == 0 { None } else { Some(format!("R{}", i)) },
        })
        .collect()
}

fn formation(positions: Option<Vec<FormationPosition>>) -> Formation {
    Formation {
        id: 4,
        name: "4-3-3".to_string(),
        display_name: None,
        description: None,
        positions,
        style: None,
        defenders_count: 4,
        midfielders_count: 3,
        forwards_count: 3,
        is_active: true,
    }
}

fn at(position: &str, x: i64, y: i64) -> FormationPosition {
    FormationPosition { position: position.to_string(), x, y }
}

fn engine(home: Option<Formation>, away: Option<Formation>) -> SimulationEngine {
    SimulationEngine::new(
        Team { id: 1, name: "H".to_string() },
        Team { id: 2, name: "A".to_string() },
        squad_of(1, 14),
        squad_of(101, 11),
        HashMap::new(),
        HashMap::new(),
        home,
        away,
        0,
    )
    .unwrap()
}

#[test]
fn lineup_without_formation_is_four_four_two() {
    let lineup = engine(None, None).get_lineup_data();
    assert_eq!(lineup.home.len(), 11);
    assert_eq!(lineup.away.len(), 11);
    let spots: Vec<(i64, i64)> = lineup.home.iter().map(|p| (p.x, p.y)).collect();
    assert_eq!(
        spots,
        vec![
            (5_000, 34_000),
            (20_000, 8_000),
            (20_000, 24_000),
            (20_000, 44_000),
            (20_000, 60_000),
            (45_000, 8_000),
            (45_000, 24_000),
            (45_000, 44_000),
            (45_000, 60_000),
            (75_000, 24_000),
            (75_000, 44_000),
        ]
    );
    let mirrored: Vec<(i64, i64)> = lineup.away.iter().map(|p| (p.x, p.y)).collect();
    assert_eq!(mirrored[0], (95_000, 34_000));
    assert_eq!(mirrored[1], (80_000, 8_000));
    assert_eq!(mirrored[8], (55_000, 60_000));
    assert_eq!(mirrored[10], (25_000, 44_000));
    assert!(lineup.home.iter().all(|p| p.team == Side::Home));
    assert!(lineup.away.iter().all(|p| p.team == Side::Away));
}

#[test]
fn lineup_names_numbers_and_positions_fall_back() {
    let lineup = engine(None, None).get_lineup_data();
    let first = &lineup.home[0];
    assert_eq!(first.id, 1);
    assert_eq!(first.name, "F0 L0");
    assert_eq!(first.shirt_number, 30);
    assert_eq!(first.position, "CM");
    let second = &lineup.home[1];
    assert_eq!(second.name, "F1 L1");
    // No number on record: the place in the squad, counted from one.
    assert_eq!(second.shirt_number, 2);
    assert_eq!(second.position, "R1");
    let last = &lineup.away[10];
    assert_eq!(last.id, 111);
    assert_eq!(last.shirt_number, 40);
    assert_eq!(last.position, "R10");
    assert_eq!(lineup.away[9].shirt_number, 10);
    assert_eq!(lineup.away[9].position, "CM");
}

#[test]
fn lineup_follows_the_formation() {
    let slots = vec![at("GK", 4_500, 34_000), at("SW", 12_250, 30_000), at("ST", 88_000, 1_000)];
    let lineup = engine(Some(formation(Some(slots.clone()))), Some(formation(Some(slots)))).get_lineup_data();
    assert_eq!((lineup.home[0].x, lineup.home[0].y), (4_500, 34_000));
    assert_eq!((lineup.home[1].x, lineup.home[1].y), (12_250, 30_000));
    assert_eq!((lineup.home[2].x, lineup.home[2].y), (88_000, 1_000));
    // Starters beyond the formation's slots stand in the middle.
    assert_eq!((lineup.home[3].x, lineup.home[3].y), (50_000, 50_000));
    assert_eq!((lineup.home[10].x, lineup.home[10].y), (50_000, 50_000));
    assert_eq!((lineup.away[0].x, lineup.away[0].y), (95_500, 34_000));
    assert_eq!((lineup.away[1].x, lineup.away[1].y), (87_750, 30_000));
    assert_eq!((lineup.away[2].x, lineup.away[2].y), (12_000, 1_000));
    assert_eq!((lineup.away[3].x, lineup.away[3].y), (50_000, 50_000));
    // The role of a slot does not change what the player is listed as.
    assert_eq!(lineup.home[1].position, "R1");
}

#[test]
fn lineup_with_unreadable_formation_is_four_four_two() {
    let lineup = engine(Some(formation(None)), Some(formation(Some(Vec::new())))).get_lineup_data();
    assert_eq!((lineup.home[9].x, lineup.home[9].y), (75_000, 24_000));
    // A formation without slots is not unreadable: everybody stands in the middle.
    assert!(lineup.away.iter().all(|p| (p.x, p.y) == (50_000, 50_000)));
}

#[test]
fn lineup_copes_with_slots_far_off_the_pitch() {
    let slots = vec![at("X", i64::MIN, -5), at("Y", i64::MAX, 7), at("Z", -100, 68_001)];
    let lineup = engine(None, Some(formation(Some(slots)))).get_lineup_data();
    assert_eq!((lineup.away[0].x, lineup.away[0].y), (i64::MAX, -5));
    assert_eq!((lineup.away[1].x, lineup.away[1].y), (100_000 - i64::MAX, 7));
    assert_eq!((lineup.away[2].x, lineup.away[2].y), (100_100, 68_001));
}

#[test]
fn formation_positions_are_read_or_defaulted() {
    let default = default_positions();
    assert_eq!(default.len(), 11);
    let roles: Vec<&str> = default.iter().map(|p| p.position.as_str()).collect();
    assert_eq!(roles, vec!["GK", "LB", "CB", "CB", "RB", "LM", "CM", "CM", "RM", "ST", "ST"]);
    assert_eq!(default[0], at("GK", 5_000, 34_000));
    assert_eq!(default[10], at("ST", 75_000, 44_000));
    assert_eq!(parse_formation_positions(&None), default);
    assert_eq!(parse_formation_positions(&Some(formation(None))), default);
    let slots = vec![at("GK", 1, 2), at("CB", 3, 4)];
    assert_eq!(parse_formation_positions(&Some(formation(Some(slots.clone())))), slots);
}
