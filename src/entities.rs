//! The actors on the board: their side, class, attributes, and the hit point
//! arithmetic of damage and healing.

use vstd::prelude::*;
use crate::board::Pos;

verus! {

/// The abilities, three per combat class.
#[derive(Debug, PartialEq, Eq, Clone, Copy, Structural)]
pub enum ActionAbility {
    Bio,
    Shield,
    Renew,
    Pierce,
    Grenade,
    Airraid,
    Caltrop,
    Spear,
    Cage,
    Drain,
    Decoy,
    Rend,
}

/// The two sides, and the marker for a match without a winner.
#[derive(Debug, PartialEq, Eq, Clone, Copy, Structural)]
pub enum PlayerType {
    Player1,
    Player2,
    Undetermined,
}

/// The classes an actor can belong to. `Support`, `Assault` and `Trapper`
/// are the satellites, `Wraith` is the monster, `NPC` marks decoys.
#[derive(Debug, PartialEq, Eq, Clone, Copy, Structural)]
pub enum ClassType {
    Support,
    Assault,
    Trapper,
    Wraith,
    Kraken,
    Elder,
    NPC,
}

/// The name under which each class is drawn.
pub open spec fn class_key(c: ClassType) -> Seq<char> {
    match c {
        ClassType::Support => "Support"@,
        ClassType::Assault => "Assault"@,
        ClassType::Trapper => "Trapper"@,
        ClassType::Wraith => "Wraith"@,
        ClassType::Kraken => "Kraken"@,
        ClassType::Elder => "Elder"@,
        ClassType::NPC => "-"@,
    }
}

impl ClassType {
    /// The name under which this class is drawn; decoys map to the blank key.
    pub fn key(&self) -> (r: &str)
        ensures
            r@ == class_key(*self),
    {
        match self {
            ClassType::Support => "Support",
            ClassType::Assault => "Assault",
            ClassType::Trapper => "Trapper",
            ClassType::Wraith => "Wraith",
            ClassType::Kraken => "Kraken",
            ClassType::Elder => "Elder",
            ClassType::NPC => "-",
        }
    }
}

/// The combat attributes of an actor: hit points, moves per turn, armor
/// (damage reduction in tenths), power, actions per turn and experience.
#[derive(Debug, PartialEq, Eq, Clone, Copy, Structural)]
pub struct Attributes {
    pub hp: u32,
    pub speed: u32,
    pub armor: u32,
    pub power: u32,
    pub actions: u32,
    pub exp: u32,
}

/// The base attributes of each class.
pub open spec fn class_stats(c: ClassType) -> Attributes {
    match c {
        ClassType::Support => Attributes { hp: 100, speed: 3, armor: 2, power: 2, actions: 1, exp: 0 },
        ClassType::Assault => Attributes { hp: 90, speed: 4, armor: 1, power: 4, actions: 1, exp: 0 },
        ClassType::Trapper => Attributes { hp: 100, speed: 3, armor: 2, power: 2, actions: 1, exp: 0 },
        ClassType::Wraith => Attributes { hp: 200, speed: 6, armor: 2, power: 2, actions: 1, exp: 0 },
        ClassType::Kraken => Attributes { hp: 200, speed: 4, armor: 3, power: 4, actions: 1, exp: 0 },
        ClassType::Elder => Attributes { hp: 500, speed: 4, armor: 5, power: 6, actions: 2, exp: 0 },
        ClassType::NPC => Attributes { hp: 1, speed: 1, armor: 1, power: 1, actions: 1, exp: 0 },
    }
}

/// Damage `dmg` after armor takes `armor` tenths of it, rounded down; no
/// damage comes through negative input or armor of 10 or more.
pub open spec fn armor_reduced(dmg: int, armor: int) -> int {
    if dmg < 0 || armor >= 10 {
        0
    } else {
        (dmg * (10 - armor)) / 10
    }
}

/// `v` held to the range `[lo, hi]`.
pub open spec fn clamp(v: int, lo: int, hi: int) -> int {
    if v < lo {
        lo
    } else if v > hi {
        hi
    } else {
        v
    }
}

impl Attributes {
    /// The attributes every actor starts from before a class is set.
    pub fn new() -> (r: Self)
        ensures
            r == (Attributes { hp: 1, speed: 0, armor: 1, power: 1, actions: 0, exp: 0 }),
    {
        Attributes { hp: 1, speed: 0, armor: 1, power: 1, actions: 0, exp: 0 }
    }

    /// The base attributes of `class`; these attributes are left as they are.
    pub fn set_class(&mut self, class: &ClassType) -> (r: Self)
        ensures
            r == class_stats(*class),
            *final(self) == *old(self),
    {
        match class {
            ClassType::Support => Attributes { hp: 100, speed: 3, armor: 2, power: 2, actions: 1, exp: 0 },
            ClassType::Assault => Attributes { hp: 90, speed: 4, armor: 1, power: 4, actions: 1, exp: 0 },
            ClassType::Trapper => Attributes { hp: 100, speed: 3, armor: 2, power: 2, actions: 1, exp: 0 },
            ClassType::Wraith => Attributes { hp: 200, speed: 6, armor: 2, power: 2, actions: 1, exp: 0 },
            ClassType::Kraken => Attributes { hp: 200, speed: 4, armor: 3, power: 4, actions: 1, exp: 0 },
            ClassType::Elder => Attributes { hp: 500, speed: 4, armor: 5, power: 6, actions: 2, exp: 0 },
            ClassType::NPC => Attributes { hp: 1, speed: 1, armor: 1, power: 1, actions: 1, exp: 0 },
        }
    }

    pub fn new_custom_stats(hp: u32, speed: u32, armor: u32, power: u32, actions: u32, exp: u32) -> (r: Self)
        ensures
            r == (Attributes { hp, speed, armor, power, actions, exp }),
    {
        Attributes { hp, speed, armor, power, actions, exp }
    }

    pub fn get_hp(&self) -> (r: u32)
        ensures
            r == self.hp,
    {
        self.hp
    }

    pub fn get_speed(&self) -> (r: u32)
        ensures
            r == self.speed,
    {
        self.speed
    }

    pub fn get_armor(&self) -> (r: u32)
        ensures
            r == self.armor,
    {
        self.armor
    }

    pub fn get_power(&self) -> (r: u32)
        ensures
            r == self.power,
    {
        self.power
    }

    pub fn get_actions(&self) -> (r: u32)
        ensures
            r == self.actions,
    {
        self.actions
    }

    pub fn get_exp(&self) -> (r: u32)
        ensures
            r == self.exp,
    {
        self.exp
    }

    /// Adds `hp` (negative to subtract). A result below 0 is set to 0 and
    /// reported with `false`; a result beyond `u32::MAX` is ignored and
    /// reported with `false`.
    fn add_hp(&mut self, hp: i64) -> (r: bool)
        ensures
            old(self).hp + hp > u32::MAX ==> *final(self) == *old(self) && !r,
            old(self).hp + hp < 0 ==> *final(self) == (Attributes { hp: 0, ..*old(self) }) && !r,
            0 <= old(self).hp + hp <= u32::MAX ==> *final(self) == (Attributes {
                hp: (old(self).hp + hp) as u32,
                ..*old(self)
            }) && r,
    {
        match (self.hp as i64).checked_add(hp) {
            None => false,
            Some(sum) => {
                if sum > u32::MAX as i64 {
                    false
                } else if sum < 0 {
                    self.hp = 0;
                    false
                } else {
                    self.hp = sum as u32;
                    true
                }
            },
        }
    }

    /// Damage `dmg` after this armor: `dmg * (1 - armor / 10)`, rounded down;
    /// negative damage counts as none.
    pub fn armor_reduce(&self, dmg: i64) -> (r: i64)
        ensures
            r == armor_reduced(dmg as int, self.armor as int),
            0 <= r,
            dmg >= 0 ==> r <= dmg,
    {
        if dmg < 0 || self.armor >= 10 {
            0
        } else {
            let kept = (10 - self.armor) as i128;
            proof {
                assert(0 <= dmg * kept <= dmg * 10) by (nonlinear_arith)
                    requires
                        0 <= dmg,
                        1 <= kept <= 10,
                ;
            }
            let total = (dmg as i128) * kept;
            proof {
                assert(0 <= total <= dmg * 10) by (nonlinear_arith)
                    requires
                        total == dmg * kept,
                        0 <= dmg,
                        1 <= kept <= 10,
                ;
            }
            (total / 10) as i64
        }
    }
}

/// Status effects an actor can carry.
#[derive(Debug, PartialEq, Eq, Clone, Copy, Structural)]
pub enum Status {
    Normal,
    Crippled,
}

/// What an actor holds, as plain values.
pub struct EntityView {
    pub player: PlayerType,
    pub class: ClassType,
    /// The base attributes; `stats.hp` is the actor's maximum.
    pub stats: Attributes,
    /// The attributes as they stand now.
    pub curr_stats: Attributes,
    pub level: u32,
    pub pos: Pos,
    pub invincible: bool,
    pub status: Status,
    pub status_timer: u32,
    /// Whether the actor blocks the cell it stands on.
    pub tangible: bool,
}

/// An actor's hit points never exceed its maximum.
pub open spec fn hp_within_max(v: EntityView) -> bool {
    v.curr_stats.hp <= v.stats.hp
}

/// A tangible actor of `class` at full health, with the class's base
/// attributes and no status effect.
pub open spec fn fresh_entity(class: ClassType, player: PlayerType, level: u32, pos: Pos, invincible: bool) -> EntityView {
    EntityView {
        player,
        class,
        stats: class_stats(class),
        curr_stats: class_stats(class),
        level,
        pos,
        invincible,
        status: Status::Normal,
        status_timer: 0,
        tangible: true,
    }
}

/// One actor on the board.
#[derive(Debug, Clone, Copy)]
pub struct Entity {
    player: PlayerType,
    class: ClassType,
    stats: Attributes,
    curr_stats: Attributes,
    level: u32,
    pos: Pos,
    invincible: bool,
    status: Status,
    status_timer: u32,
    tangible: bool,
}

impl View for Entity {
    type V = EntityView;

    closed spec fn view(&self) -> EntityView {
        EntityView {
            player: self.player,
            class: self.class,
            stats: self.stats,
            curr_stats: self.curr_stats,
            level: self.level,
            pos: self.pos,
            invincible: self.invincible,
            status: self.status,
            status_timer: self.status_timer,
            tangible: self.tangible,
        }
    }
}

impl Entity {
    #[verifier::type_invariant]
    spec fn inv(self) -> bool {
        hp_within_max(self@)
    }

    /// A tangible actor of `class` at full health, with the class's base
    /// attributes and no status effect.
    pub fn new_char(class: ClassType, player: PlayerType, level: u32, pos: Pos, invincible: bool) -> (r: Self)
        ensures
            r@ == fresh_entity(class, player, level, pos, invincible),
    {
        let mut base = Attributes::new();
        let stats = base.set_class(&class);
        Entity {
            player,
            class,
            stats,
            curr_stats: stats,
            level,
            pos,
            invincible,
            status: Status::Normal,
            status_timer: 0,
            tangible: true,
        }
    }

    pub fn get_player(&self) -> (r: PlayerType)
        ensures
            r == self@.player,
    {
        self.player
    }

    pub fn get_class(&self) -> (r: ClassType)
        ensures
            r == self@.class,
    {
        self.class
    }

    pub fn get_tangible(&self) -> (r: bool)
        ensures
            r == self@.tangible,
    {
        self.tangible
    }

    pub fn get_pos(&self) -> (r: Pos)
        ensures
            r == self@.pos,
    {
        self.pos
    }

    pub fn get_level(&self) -> (r: u32)
        ensures
            r == self@.level,
    {
        self.level
    }

    pub fn get_status(&self) -> (r: Status)
        ensures
            r == self@.status,
    {
        self.status
    }

    pub fn get_status_timer(&self) -> (r: u32)
        ensures
            r == self@.status_timer,
    {
        self.status_timer
    }

    pub fn get_invincible(&self) -> (r: bool)
        ensures
            r == self@.invincible,
    {
        self.invincible
    }

    /// The base attributes; their `hp` is the actor's maximum.
    pub fn get_stats(&self) -> (r: Attributes)
        ensures
            r == self@.stats,
            hp_within_max(self@),
    {
        proof {
            use_type_invariant(self);
        }
        self.stats
    }

    /// The attributes as they stand now; their `hp` never exceeds the
    /// maximum.
    pub fn get_curr_stats(&self) -> (r: Attributes)
        ensures
            r == self@.curr_stats,
            r.hp <= self@.stats.hp,
    {
        proof {
            use_type_invariant(self);
        }
        self.curr_stats
    }

    pub fn set_pos(&mut self, new_loc: Pos)
        ensures
            final(self)@ == (EntityView { pos: new_loc, ..old(self)@ }),
        no_unwind
    {
        proof {
            use_type_invariant(&*self);
        }
        *self = Entity { pos: new_loc, ..*self };
    }

    /// Makes the actor block its cell, or lets others pass through it.
    pub fn set_tangible(&mut self, tangible: bool)
        ensures
            final(self)@ == (EntityView { tangible, ..old(self)@ }),
    {
        proof {
            use_type_invariant(&*self);
        }
        *self = Entity { tangible, ..*self };
    }

    /// Replaces the base attributes; current hit points above the new
    /// maximum come down to it.
    pub fn set_stats(&mut self, hp: u32, speed: u32, armor: u32, power: u32, actions: u32, exp: u32)
        ensures
            final(self)@ == (EntityView {
                stats: Attributes { hp, speed, armor, power, actions, exp },
                curr_stats: Attributes {
                    hp: if old(self)@.curr_stats.hp <= hp {
                        old(self)@.curr_stats.hp
                    } else {
                        hp
                    },
                    ..old(self)@.curr_stats
                },
                ..old(self)@
            }),
    {
        let stats = Attributes::new_custom_stats(hp, speed, armor, power, actions, exp);
        let curr_hp = if self.curr_stats.hp <= hp {
            self.curr_stats.hp
        } else {
            hp
        };
        *self = Entity { stats, curr_stats: Attributes { hp: curr_hp, ..self.curr_stats }, ..*self };
    }

    /// Applies a status effect for `duration` turns.
    pub fn set_status(&mut self, new_status: Status, duration: u32)
        ensures
            final(self)@ == (EntityView { status: new_status, status_timer: duration, ..old(self)@ }),
    {
        proof {
            use_type_invariant(&*self);
        }
        *self = Entity { status: new_status, status_timer: duration, ..*self };
    }

    /// Takes one turn off a running status timer; when it reaches 0 the
    /// status returns to `Normal`.
    pub fn decrement_timer(&mut self)
        ensures
            old(self)@.status_timer == 0 ==> final(self)@ == old(self)@,
            old(self)@.status_timer == 1 ==> final(self)@ == (EntityView {
                status: Status::Normal,
                status_timer: 0,
                ..old(self)@
            }),
            old(self)@.status_timer > 1 ==> final(self)@ == (EntityView {
                status_timer: (old(self)@.status_timer - 1) as u32,
                ..old(self)@
            }),
    {
        proof {
            use_type_invariant(&*self);
        }
        if self.status_timer > 0 {
            if self.status_timer == 1 {
                *self = Entity { status: Status::Normal, status_timer: 0, ..*self };
            } else {
                *self = Entity { status_timer: self.status_timer - 1, ..*self };
            }
        }
    }

    /// Adds `new_hp` to the current hit points (negative to subtract),
    /// holding the result between 0 and the maximum. Returns `true` when the
    /// full amount applied, `false` when the result had to be held.
    pub fn add_checked_hp(&mut self, new_hp: i64) -> (r: bool)
        ensures
            final(self)@ == (EntityView {
                curr_stats: Attributes {
                    hp: clamp(old(self)@.curr_stats.hp + new_hp, 0, old(self)@.stats.hp as int) as u32,
                    ..old(self)@.curr_stats
                },
                ..old(self)@
            }),
            r == (0 <= old(self)@.curr_stats.hp + new_hp <= old(self)@.stats.hp),
    {
        proof {
            use_type_invariant(&*self);
        }
        let diff = self.stats.hp - self.curr_stats.hp;
        let mut curr = self.curr_stats;
        let r;
        if new_hp > diff as i64 {
            curr.add_hp(diff as i64);
            r = false;
        } else {
            r = curr.add_hp(new_hp);
        }
        *self = Entity { curr_stats: curr, ..*self };
        r
    }

    /// Takes `raw` damage, reduced by the current armor (see
    /// `armor_reduce`). Hit points stop at 0; returns `false` when they had
    /// to.
    pub fn apply_damage(&mut self, raw: i64) -> (r: bool)
        ensures
            final(self)@ == (EntityView {
                curr_stats: Attributes {
                    hp: clamp(
                        old(self)@.curr_stats.hp - armor_reduced(raw as int, old(self)@.curr_stats.armor as int),
                        0,
                        old(self)@.stats.hp as int,
                    ) as u32,
                    ..old(self)@.curr_stats
                },
                ..old(self)@
            }),
            r == (armor_reduced(raw as int, old(self)@.curr_stats.armor as int) <= old(self)@.curr_stats.hp),
    {
        proof {
            use_type_invariant(&*self);
        }
        let dealt = self.curr_stats.armor_reduce(raw);
        self.add_checked_hp(-dealt)
    }
}

} // verus!
