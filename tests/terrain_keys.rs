use elder_god::terrain::{to_condition, to_terrain, Terrain, TerrainStatus};

const TERRAINS: [Terrain; 10] = [
    Terrain::Road,
    Terrain::Plain,
    Terrain::Forest,
    Terrain::Mountain,
    Terrain::City,
    Terrain::Wall,
    Terrain::Pit,
    Terrain::Spikes,
    Terrain::Destroyed,
    Terrain::Empty,
];

const CONDITIONS: [TerrainStatus; 5] = [
    TerrainStatus::Normal,
    TerrainStatus::Burning,
    TerrainStatus::Frozen,
    TerrainStatus::Shielded,
    TerrainStatus::Impassable,
];

#[test]
fn terrain_keys_match_the_level_alphabet() {
    assert_eq!(Terrain::Road.key(), Some("R"));
    assert_eq!(Terrain::Plain.key(), Some("#"));
    assert_eq!(Terrain::Forest.key(), Some("F"));
    assert_eq!(Terrain::Mountain.key(), Some("A"));
    assert_eq!(Terrain::City.key(), Some("C"));
    assert_eq!(Terrain::Wall.key(), Some("W"));
    assert_eq!(Terrain::Pit.key(), Some("O"));
    assert_eq!(Terrain::Spikes.key(), Some("M"));
    assert_eq!(Terrain::Destroyed.key(), Some("X"));
    assert_eq!(Terrain::Empty.key(), Some("-"));
}

#[test]
fn terrain_keys_round_trip_and_are_distinct() {
    for (i, t) in TERRAINS.iter().enumerate() {
        let k = t.key().unwrap();
        assert_eq!(to_terrain(k), Some(*t));
        for u in TERRAINS.iter().skip(i + 1) {
            assert_ne!(u.key().unwrap(), k);
        }
    }
}

#[test]
fn unknown_terrain_keys_are_refused() {
    assert_eq!(to_terrain("Z"), None);
    assert_eq!(to_terrain(""), None);
    assert_eq!(to_terrain("##"), None);
    assert_eq!(to_terrain("r"), None);
}

#[test]
fn condition_keys_match_the_level_alphabet() {
    assert_eq!(TerrainStatus::Normal.key(), Some("N"));
    assert_eq!(TerrainStatus::Burning.key(), Some("B"));
    assert_eq!(TerrainStatus::Frozen.key(), Some("F"));
    assert_eq!(TerrainStatus::Shielded.key(), Some("S"));
    assert_eq!(TerrainStatus::Impassable.key(), Some("-"));
}

#[test]
fn condition_keys_round_trip_and_are_distinct() {
    for (i, c) in CONDITIONS.iter().enumerate() {
        let k = c.key().unwrap();
        assert_eq!(to_condition(k), Some(*c));
        for d in CONDITIONS.iter().skip(i + 1) {
            assert_ne!(d.key().unwrap(), k);
        }
    }
}

#[test]
fn unknown_condition_keys_are_refused() {
    assert_eq!(to_condition("X"), None);
    assert_eq!(to_condition(""), None);
    assert_eq!(to_condition("NN"), None);
}

#[test]
fn initial_strength_of_conditions() {
    assert_eq!(TerrainStatus::Burning.initial_counter(), 5);
    assert_eq!(TerrainStatus::Frozen.initial_counter(), 6);
    assert_eq!(TerrainStatus::Shielded.initial_counter(), 1);
    assert_eq!(TerrainStatus::Normal.initial_counter(), 0);
    assert_eq!(TerrainStatus::Impassable.initial_counter(), 1);
}

#[test]
fn only_frozen_shielded_and_impassable_block_movement() {
    assert!(!TerrainStatus::Normal.blocks_movement());
    assert!(!TerrainStatus::Burning.blocks_movement());
    assert!(TerrainStatus::Frozen.blocks_movement());
    assert!(TerrainStatus::Shielded.blocks_movement());
    assert!(TerrainStatus::Impassable.blocks_movement());
}
