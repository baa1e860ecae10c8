//! The level layouts that boards are generated from.

use vstd::prelude::*;
use vstd::string::*;
use crate::terrain::{condition_of_key, terrain_of_key};

verus! {

/// Whether `c` is the key of a land type.
pub open spec fn is_terrain_char(c: char) -> bool {
    terrain_of_key(seq![c]) is Some
}

/// Whether `c` is the key of a condition.
pub open spec fn is_condition_char(c: char) -> bool {
    condition_of_key(seq![c]) is Some
}

/// The land keys of the first level, 19 to a board row.
pub open spec fn level_one_land() -> Seq<char> {
    Seq::<char>::empty()
        + "---------------"@
        + "---------------"@
        + "---------------"@
        + "-----#####-----"@
        + "---#########---"@
        + "--#######MM##--"@
        + "--##M####MM##--"@
        + "-#############-"@
        + "-######C##MMM#-"@
        + "-##M##CCC#MMM#-"@
        + "-######C##MMM#-"@
        + "-#############-"@
        + "--##M########--"@
        + "--#######M###--"@
        + "---#########---"@
        + "-----#####-----"@
        + "---------------"@
        + "---------------"@
        + "---------------"@
}

/// The condition keys of the first level, 19 to a board row.
pub open spec fn level_one_conditions() -> Seq<char> {
    Seq::<char>::empty()
        + "---------------"@
        + "---------------"@
        + "---------------"@
        + "-----NNNNN-----"@
        + "---NNNNNNNNN---"@
        + "--NNNNNNNNNNN--"@
        + "--NNNNNNNNNNN--"@
        + "-NNNNNNNNNNNNN-"@
        + "-NNNNNNNNNNNNN-"@
        + "-NNNNNNNNNNNNN-"@
        + "-NNNNNNNNNNNNN-"@
        + "-NNNNNNNNNNNNN-"@
        + "--NNNNNNNNNNN--"@
        + "--NNNNNNNNNNN--"@
        + "---NNNNNNNNN---"@
        + "-----NNNNN-----"@
        + "---------------"@
        + "---------------"@
        + "---------------"@
}

/// The characters of single-character keys.
pub open spec fn key_chars(keys: Seq<String>) -> Seq<char> {
    keys.map_values(|k: String| k@[0])
}

/// Every character of a row of 15 passes `valid` when each one does.
proof fn lemma_row_chars(row: Seq<char>, valid: spec_fn(char) -> bool)
    requires
        row.len() == 15,
        valid(row[0]),
        valid(row[1]),
        valid(row[2]),
        valid(row[3]),
        valid(row[4]),
        valid(row[5]),
        valid(row[6]),
        valid(row[7]),
        valid(row[8]),
        valid(row[9]),
        valid(row[10]),
        valid(row[11]),
        valid(row[12]),
        valid(row[13]),
        valid(row[14]),
    ensures
        forall|j: int| 0 <= j < 15 ==> valid(#[trigger] row[j]),
{
    assert forall|j: int| 0 <= j < 15 implies valid(#[trigger] row[j]) by {
        assert(j == 0 || j == 1 || j == 2 || j == 3 || j == 4 || j == 5 || j == 6 || j == 7 || j == 8 || j == 9 || j == 10 || j == 11 || j == 12 || j == 13 || j == 14);
    }
}

/// Whether every key is a single character that `valid` accepts.
spec fn all_keys(keys: Seq<String>, valid: spec_fn(char) -> bool) -> bool {
    forall|i: int| 0 <= i < keys.len() ==> (#[trigger] keys[i])@.len() == 1 && valid(keys[i]@[0])
}

/// Appends one key per character of `row`.
fn push_keys(keys: &mut Vec<String>, row: &str, Ghost(valid): Ghost<spec_fn(char) -> bool>)
    requires
        old(keys)@.len() + row@.len() <= usize::MAX,
        all_keys(old(keys)@, valid),
        forall|j: int| 0 <= j < row@.len() ==> valid(#[trigger] row@[j]),
    ensures
        all_keys(final(keys)@, valid),
        final(keys)@.len() == old(keys)@.len() + row@.len(),
        key_chars(final(keys)@) == key_chars(old(keys)@) + row@,
{
    let n = row.unicode_len();
    let mut j: usize = 0;
    while j < n
        invariant
            n == row@.len(),
            j <= n,
            keys@.len() == old(keys)@.len() + j,
            all_keys(keys@, valid),
            forall|k: int| 0 <= k < row@.len() ==> valid(#[trigger] row@[k]),
            key_chars(keys@) == key_chars(old(keys)@) + row@.subrange(0, j as int),
        decreases n - j,
    {
        let key = row.substring_char(j, j + 1).to_owned();
        assert(key@ =~= seq![row@[j as int]]);
        let ghost before = keys@;
        keys.push(key);
        assert(key_chars(keys@) =~= key_chars(before) + seq![row@[j as int]]);
        assert(row@.subrange(0, j + 1) =~= row@.subrange(0, j as int) + seq![row@[j as int]]);
        j = j + 1;
    }
    assert(row@.subrange(0, n as int) =~= row@);
}

/// The level layouts, each as two key grids of equal length: one land key
/// and one condition key per cell, read row by row.
#[derive(Debug, PartialEq, Clone)]
pub struct Levels {
    level1: Vec<String>,
    level1_conditions: Vec<String>,
}

impl Levels {
    /// The land keys of the first level.
    pub closed spec fn level1_keys(&self) -> Seq<String> {
        self.level1@
    }

    /// The condition keys of the first level.
    pub closed spec fn level1_condition_keys(&self) -> Seq<String> {
        self.level1_conditions@
    }

    /// The layouts: the first level has 285 cells (19 columns by 15 rows),
    /// each given by one known land key and one known condition key.
    pub fn new() -> (r: Self)
        ensures
            key_chars(r.level1_keys()) == level_one_land(),
            key_chars(r.level1_condition_keys()) == level_one_conditions(),
            forall|i: int| 0 <= i < 285 ==> (#[trigger] r.level1_keys()[i])@.len() == 1,
            forall|i: int| 0 <= i < 285 ==> (#[trigger] r.level1_condition_keys()[i])@.len() == 1,
            r.level1_keys().len() == 285,
            r.level1_condition_keys().len() == 285,
            forall|i: int| 0 <= i < 285 ==> terrain_of_key((#[trigger] r.level1_keys()[i])@) is Some,
            forall|i: int| 0 <= i < 285 ==> condition_of_key((#[trigger] r.level1_condition_keys()[i])@) is Some,
    {
        proof {
            reveal_strlit("---------------");
            lemma_row_chars("---------------"@, |c: char| is_terrain_char(c));
            reveal_strlit("-----#####-----");
            lemma_row_chars("-----#####-----"@, |c: char| is_terrain_char(c));
            reveal_strlit("---#########---");
            lemma_row_chars("---#########---"@, |c: char| is_terrain_char(c));
            reveal_strlit("--#######MM##--");
            lemma_row_chars("--#######MM##--"@, |c: char| is_terrain_char(c));
            reveal_strlit("--##M####MM##--");
            lemma_row_chars("--##M####MM##--"@, |c: char| is_terrain_char(c));
            reveal_strlit("-#############-");
            lemma_row_chars("-#############-"@, |c: char| is_terrain_char(c));
            reveal_strlit("-######C##MMM#-");
            lemma_row_chars("-######C##MMM#-"@, |c: char| is_terrain_char(c));
            reveal_strlit("-##M##CCC#MMM#-");
            lemma_row_chars("-##M##CCC#MMM#-"@, |c: char| is_terrain_char(c));
            reveal_strlit("--##M########--");
            lemma_row_chars("--##M########--"@, |c: char| is_terrain_char(c));
            reveal_strlit("--#######M###--");
            lemma_row_chars("--#######M###--"@, |c: char| is_terrain_char(c));
            reveal_strlit("---------------");
            lemma_row_chars("---------------"@, |c: char| is_condition_char(c));
            reveal_strlit("-----NNNNN-----");
            lemma_row_chars("-----NNNNN-----"@, |c: char| is_condition_char(c));
            reveal_strlit("---NNNNNNNNN---");
            lemma_row_chars("---NNNNNNNNN---"@, |c: char| is_condition_char(c));
            reveal_strlit("--NNNNNNNNNNN--");
            lemma_row_chars("--NNNNNNNNNNN--"@, |c: char| is_condition_char(c));
            reveal_strlit("-NNNNNNNNNNNNN-");
            lemma_row_chars("-NNNNNNNNNNNNN-"@, |c: char| is_condition_char(c));
        }
        let mut level1: Vec<String> = Vec::new();
        assert(key_chars(level1@) =~= Seq::<char>::empty());
        push_keys(&mut level1, "---------------", Ghost(|c: char| is_terrain_char(c)));
        push_keys(&mut level1, "---------------", Ghost(|c: char| is_terrain_char(c)));
        push_keys(&mut level1, "---------------", Ghost(|c: char| is_terrain_char(c)));
        push_keys(&mut level1, "-----#####-----", Ghost(|c: char| is_terrain_char(c)));
        push_keys(&mut level1, "---#########---", Ghost(|c: char| is_terrain_char(c)));
        push_keys(&mut level1, "--#######MM##--", Ghost(|c: char| is_terrain_char(c)));
        push_keys(&mut level1, "--##M####MM##--", Ghost(|c: char| is_terrain_char(c)));
        push_keys(&mut level1, "-#############-", Ghost(|c: char| is_terrain_char(c)));
        push_keys(&mut level1, "-######C##MMM#-", Ghost(|c: char| is_terrain_char(c)));
        push_keys(&mut level1, "-##M##CCC#MMM#-", Ghost(|c: char| is_terrain_char(c)));
        push_keys(&mut level1, "-######C##MMM#-", Ghost(|c: char| is_terrain_char(c)));
        push_keys(&mut level1, "-#############-", Ghost(|c: char| is_terrain_char(c)));
        push_keys(&mut level1, "--##M########--", Ghost(|c: char| is_terrain_char(c)));
        push_keys(&mut level1, "--#######M###--", Ghost(|c: char| is_terrain_char(c)));
        push_keys(&mut level1, "---#########---", Ghost(|c: char| is_terrain_char(c)));
        push_keys(&mut level1, "-----#####-----", Ghost(|c: char| is_terrain_char(c)));
        push_keys(&mut level1, "---------------", Ghost(|c: char| is_terrain_char(c)));
        push_keys(&mut level1, "---------------", Ghost(|c: char| is_terrain_char(c)));
        push_keys(&mut level1, "---------------", Ghost(|c: char| is_terrain_char(c)));
        let mut level1_conditions: Vec<String> = Vec::new();
        assert(key_chars(level1_conditions@) =~= Seq::<char>::empty());
        push_keys(&mut level1_conditions, "---------------", Ghost(|c: char| is_condition_char(c)));
        push_keys(&mut level1_conditions, "---------------", Ghost(|c: char| is_condition_char(c)));
        push_keys(&mut level1_conditions, "---------------", Ghost(|c: char| is_condition_char(c)));
        push_keys(&mut level1_conditions, "-----NNNNN-----", Ghost(|c: char| is_condition_char(c)));
        push_keys(&mut level1_conditions, "---NNNNNNNNN---", Ghost(|c: char| is_condition_char(c)));
        push_keys(&mut level1_conditions, "--NNNNNNNNNNN--", Ghost(|c: char| is_condition_char(c)));
        push_keys(&mut level1_conditions, "--NNNNNNNNNNN--", Ghost(|c: char| is_condition_char(c)));
        push_keys(&mut level1_conditions, "-NNNNNNNNNNNNN-", Ghost(|c: char| is_condition_char(c)));
        push_keys(&mut level1_conditions, "-NNNNNNNNNNNNN-", Ghost(|c: char| is_condition_char(c)));
        push_keys(&mut level1_conditions, "-NNNNNNNNNNNNN-", Ghost(|c: char| is_condition_char(c)));
        push_keys(&mut level1_conditions, "-NNNNNNNNNNNNN-", Ghost(|c: char| is_condition_char(c)));
        push_keys(&mut level1_conditions, "-NNNNNNNNNNNNN-", Ghost(|c: char| is_condition_char(c)));
        push_keys(&mut level1_conditions, "--NNNNNNNNNNN--", Ghost(|c: char| is_condition_char(c)));
        push_keys(&mut level1_conditions, "--NNNNNNNNNNN--", Ghost(|c: char| is_condition_char(c)));
        push_keys(&mut level1_conditions, "---NNNNNNNNN---", Ghost(|c: char| is_condition_char(c)));
        push_keys(&mut level1_conditions, "-----NNNNN-----", Ghost(|c: char| is_condition_char(c)));
        push_keys(&mut level1_conditions, "---------------", Ghost(|c: char| is_condition_char(c)));
        push_keys(&mut level1_conditions, "---------------", Ghost(|c: char| is_condition_char(c)));
        push_keys(&mut level1_conditions, "---------------", Ghost(|c: char| is_condition_char(c)));
        assert forall|i: int| 0 <= i < 285 implies terrain_of_key((#[trigger] level1@[i])@) is Some by {
            assert(level1@[i]@ =~= seq![level1@[i]@[0]]);
        }
        assert forall|i: int| 0 <= i < 285 implies condition_of_key((#[trigger] level1_conditions@[i])@) is Some by {
            assert(level1_conditions@[i]@ =~= seq![level1_conditions@[i]@[0]]);
        }
        Levels { level1, level1_conditions }
    }

    /// A copy of the key grids of level `level`: the land keys and the
    /// condition keys. Only level 1 exists.
    pub fn get_level(&self, level: usize) -> (r: Option<(Vec<String>, Vec<String>)>)
        ensures
            level == 1 ==> r is Some && r->Some_0.0@ == self.level1_keys() && r->Some_0.1@
                == self.level1_condition_keys(),
            level != 1 ==> r is None,
    {
        if level == 1 {
            let a = self.level1.clone();
            let b = self.level1_conditions.clone();
            assert(a@ =~= self.level1@);
            assert(b@ =~= self.level1_conditions@);
            Some((a, b))
        } else {
            None
        }
    }
}

} // verus!
