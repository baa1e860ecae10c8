//! Land types, land conditions, and the one-character keys that levels are
//! authored with.

use vstd::prelude::*;
use vstd::string::*;

verus! {

/// The kinds of land a cell can hold. `Empty` is void space outside the
/// playable area.
#[derive(Debug, PartialEq, Eq, Clone, Copy, Structural)]
pub enum Terrain {
    Road,
    Plain,
    Forest,
    Mountain,
    City,
    Wall,
    Pit,
    Spikes,
    Destroyed,
    Empty,
}

/// The conditions a cell can be in, on top of its land.
#[derive(Debug, PartialEq, Eq, Clone, Copy, Structural)]
pub enum TerrainStatus {
    Normal,
    Burning,
    Frozen,
    Shielded,
    Impassable,
}

/// The level key of each land type.
pub open spec fn terrain_char(t: Terrain) -> char {
    match t {
        Terrain::Road => 'R',
        Terrain::Plain => '#',
        Terrain::Forest => 'F',
        Terrain::Mountain => 'A',
        Terrain::City => 'C',
        Terrain::Wall => 'W',
        Terrain::Pit => 'O',
        Terrain::Spikes => 'M',
        Terrain::Destroyed => 'X',
        Terrain::Empty => '-',
    }
}

/// The land type that the level key `s` stands for, if any.
pub open spec fn terrain_of_key(s: Seq<char>) -> Option<Terrain> {
    if s.len() != 1 {
        None
    } else if s[0] == 'R' {
        Some(Terrain::Road)
    } else if s[0] == '#' {
        Some(Terrain::Plain)
    } else if s[0] == 'F' {
        Some(Terrain::Forest)
    } else if s[0] == 'A' {
        Some(Terrain::Mountain)
    } else if s[0] == 'C' {
        Some(Terrain::City)
    } else if s[0] == 'W' {
        Some(Terrain::Wall)
    } else if s[0] == 'O' {
        Some(Terrain::Pit)
    } else if s[0] == 'M' {
        Some(Terrain::Spikes)
    } else if s[0] == 'X' {
        Some(Terrain::Destroyed)
    } else if s[0] == '-' {
        Some(Terrain::Empty)
    } else {
        None
    }
}

/// The level key of each condition.
pub open spec fn condition_char(c: TerrainStatus) -> char {
    match c {
        TerrainStatus::Normal => 'N',
        TerrainStatus::Burning => 'B',
        TerrainStatus::Frozen => 'F',
        TerrainStatus::Shielded => 'S',
        TerrainStatus::Impassable => '-',
    }
}

/// The condition that the level key `s` stands for, if any.
pub open spec fn condition_of_key(s: Seq<char>) -> Option<TerrainStatus> {
    if s.len() != 1 {
        None
    } else if s[0] == 'N' {
        Some(TerrainStatus::Normal)
    } else if s[0] == 'B' {
        Some(TerrainStatus::Burning)
    } else if s[0] == 'F' {
        Some(TerrainStatus::Frozen)
    } else if s[0] == 'S' {
        Some(TerrainStatus::Shielded)
    } else if s[0] == '-' {
        Some(TerrainStatus::Impassable)
    } else {
        None
    }
}

/// The counter a condition starts with when it is applied to a cell: the
/// turns a burning or frozen cell lasts (the board's decay counts only
/// those down), and 1 for the lasting shielded and impassable conditions.
pub open spec fn initial_counter_of(c: TerrainStatus) -> u32 {
    match c {
        TerrainStatus::Burning => 5,
        TerrainStatus::Frozen => 6,
        TerrainStatus::Shielded => 1,
        TerrainStatus::Impassable => 1,
        TerrainStatus::Normal => 0,
    }
}

/// Whether a condition keeps tangible actors out of the cell.
pub open spec fn blocks_movement(c: TerrainStatus) -> bool {
    c == TerrainStatus::Frozen || c == TerrainStatus::Shielded || c == TerrainStatus::Impassable
}

impl Terrain {
    /// The level key of this land type.
    pub fn key(&self) -> (r: Option<&str>)
        ensures
            r is Some,
            r.unwrap()@ == seq![terrain_char(*self)],
    {
        let k = match self {
            Terrain::Road => "R",
            Terrain::Plain => "#",
            Terrain::Forest => "F",
            Terrain::Mountain => "A",
            Terrain::City => "C",
            Terrain::Wall => "W",
            Terrain::Pit => "O",
            Terrain::Spikes => "M",
            Terrain::Destroyed => "X",
            Terrain::Empty => "-",
        };
        proof {
            reveal_strlit("R");
            reveal_strlit("#");
            reveal_strlit("F");
            reveal_strlit("A");
            reveal_strlit("C");
            reveal_strlit("W");
            reveal_strlit("O");
            reveal_strlit("M");
            reveal_strlit("X");
            reveal_strlit("-");
        }
        assert(k@ =~= seq![terrain_char(*self)]);
        Some(k)
    }
}

/// Reads a land type from its level key; `None` for a string that is no key.
pub fn to_terrain(key: &str) -> (r: Option<Terrain>)
    ensures
        r == terrain_of_key(key@),
{
    if key.unicode_len() != 1 {
        return None;
    }
    let c = key.get_char(0);
    if c == 'R' {
        Some(Terrain::Road)
    } else if c == '#' {
        Some(Terrain::Plain)
    } else if c == 'F' {
        Some(Terrain::Forest)
    } else if c == 'A' {
        Some(Terrain::Mountain)
    } else if c == 'C' {
        Some(Terrain::City)
    } else if c == 'W' {
        Some(Terrain::Wall)
    } else if c == 'O' {
        Some(Terrain::Pit)
    } else if c == 'M' {
        Some(Terrain::Spikes)
    } else if c == 'X' {
        Some(Terrain::Destroyed)
    } else if c == '-' {
        Some(Terrain::Empty)
    } else {
        None
    }
}

impl TerrainStatus {
    /// The level key of this condition.
    pub fn key(&self) -> (r: Option<&str>)
        ensures
            r is Some,
            r.unwrap()@ == seq![condition_char(*self)],
    {
        let k = match self {
            TerrainStatus::Normal => "N",
            TerrainStatus::Burning => "B",
            TerrainStatus::Frozen => "F",
            TerrainStatus::Shielded => "S",
            TerrainStatus::Impassable => "-",
        };
        proof {
            reveal_strlit("N");
            reveal_strlit("B");
            reveal_strlit("F");
            reveal_strlit("S");
            reveal_strlit("-");
        }
        assert(k@ =~= seq![condition_char(*self)]);
        Some(k)
    }

    /// The counter this condition starts with (see `initial_counter_of`).
    pub fn initial_counter(&self) -> (r: u32)
        ensures
            r == initial_counter_of(*self),
    {
        match self {
            TerrainStatus::Burning => 5,
            TerrainStatus::Frozen => 6,
            TerrainStatus::Shielded => 1,
            TerrainStatus::Impassable => 1,
            TerrainStatus::Normal => 0,
        }
    }

    /// Whether this condition keeps tangible actors out of a cell.
    pub fn blocks_movement(&self) -> (r: bool)
        ensures
            r == blocks_movement(*self),
    {
        match self {
            TerrainStatus::Frozen | TerrainStatus::Shielded | TerrainStatus::Impassable => true,
            _ => false,
        }
    }
}

/// Reads a condition from its level key; `None` for a string that is no key.
pub fn to_condition(key: &str) -> (r: Option<TerrainStatus>)
    ensures
        r == condition_of_key(key@),
{
    if key.unicode_len() != 1 {
        return None;
    }
    let c = key.get_char(0);
    if c == 'N' {
        Some(TerrainStatus::Normal)
    } else if c == 'B' {
        Some(TerrainStatus::Burning)
    } else if c == 'F' {
        Some(TerrainStatus::Frozen)
    } else if c == 'S' {
        Some(TerrainStatus::Shielded)
    } else if c == '-' {
        Some(TerrainStatus::Impassable)
    } else {
        None
    }
}

/// Every land type's key reads back as that land type.
pub proof fn lemma_terrain_key_round_trip(t: Terrain)
    ensures
        terrain_of_key(seq![terrain_char(t)]) == Some(t),
{
}

/// A key reads as a land type only if it is that land type's own key, so no
/// two land types share a key.
pub proof fn lemma_terrain_key_unique(s: Seq<char>, t: Terrain)
    requires
        terrain_of_key(s) == Some(t),
    ensures
        s =~= seq![terrain_char(t)],
{
}

/// Every condition's key reads back as that condition.
pub proof fn lemma_condition_key_round_trip(c: TerrainStatus)
    ensures
        condition_of_key(seq![condition_char(c)]) == Some(c),
{
}

/// A key reads as a condition only if it is that condition's own key, so no
/// two conditions share a key.
pub proof fn lemma_condition_key_unique(s: Seq<char>, c: TerrainStatus)
    requires
        condition_of_key(s) == Some(c),
    ensures
        s =~= seq![condition_char(c)],
{
}

} // verus!
