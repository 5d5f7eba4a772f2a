//! Entities and their components.
//!
//! Everything that lives on the map — the player, monsters, items, corpses —
//! is an `Object`: a position, an appearance token, a display name and flags,
//! plus optional components.  A `Fighter` grants combat statistics and a
//! death role; an `Ai` drives autonomous behavior; an `Item` makes the entity
//! usable from the inventory.  Death is a component-stripping transition, not
//! destruction: a dead monster stays in the collection as its remains.

use vstd::prelude::*;
use vstd::string::StringExecFns;

use crate::color::ColorCode;
use crate::game::Game;
use crate::geometry::dist_sq;
use crate::geometry::distance_sq;
use crate::geometry::COORD_LIMIT;
use crate::log::pushed;
use crate::log::Message;
use crate::text::i32_to_dec;
use crate::text::spec_dec;
use crate::STAT_LIMIT;

verus! {

/// What an entity does when used from the inventory.
#[derive(Clone, Copy, Debug, PartialEq, Eq, Structural)]
pub enum Item {
    Heal,
    Lightning,
    Fireball,
    Confusion,
}

/// Which death transition runs when a fighter's hit points reach zero.
#[derive(Clone, Copy, Debug, PartialEq, Eq, Structural)]
pub enum DeathCallback {
    Player,
    Monster,
}

/// Combat statistics for the player, monsters and NPCs.
#[derive(Clone, Copy, Debug, PartialEq, Eq, Structural)]
pub struct Fighter {
    pub max_hp: i32,
    pub hp: i32,
    pub defense: i32,
    pub power: i32,
    pub on_death: DeathCallback,
}

/// Statistics stay within generous machine bounds and hit points never pass
/// the maximum nor drop below zero outside a single damage resolution.
pub open spec fn fighter_wf(f: Fighter) -> bool {
    &&& 0 <= f.hp <= f.max_hp <= STAT_LIMIT
    &&& 0 <= f.defense <= STAT_LIMIT
    &&& 0 <= f.power <= STAT_LIMIT
}

/// Autonomous behavior: either the basic chase-and-attack routine, or a
/// temporary confusion that wraps — and later restores — the prior state.
#[derive(Debug)]
pub enum Ai {
    Basic,
    Confused { previous_ai: Box<Ai>, num_turns: i32 },
}

/// Confusion counters never sit at the very bottom of `i32`, so one more
/// countdown step always fits; this holds of every state the engine builds,
/// wrapped states included.
pub open spec fn ai_wf(a: Ai) -> bool
    decreases a,
{
    match a {
        Ai::Basic => true,
        Ai::Confused { previous_ai, num_turns } => num_turns > i32::MIN && ai_wf(*previous_ai),
    }
}

impl Clone for Ai {
    /// A clone restores the value exactly, wrapped state included.
    fn clone(&self) -> (r: Ai)
        ensures
            r == *self,
        decreases *self,
    {
        match self {
            Ai::Basic => Ai::Basic,
            Ai::Confused { previous_ai, num_turns } => Ai::Confused {
                previous_ai: Box::new((**previous_ai).clone()),
                num_turns: *num_turns,
            },
        }
    }
}

/// A generic entity: player, monster, item or corpse.
#[derive(Debug)]
pub struct Object {
    pub name: String,
    pub blocks: bool,
    pub alive: bool,
    pub x: i32,
    pub y: i32,
    pub glyph: char,
    pub color: ColorCode,
    pub fighter: Option<Fighter>,
    pub ai: Option<Ai>,
    pub item: Option<Item>,
}

impl Clone for Object {
    /// A clone restores the entity exactly, name and components included.
    fn clone(&self) -> (r: Object)
        ensures
            r == *self,
    {
        Object {
            name: self.name.clone(),
            blocks: self.blocks,
            alive: self.alive,
            x: self.x,
            y: self.y,
            glyph: self.glyph,
            color: self.color,
            fighter: self.fighter,
            ai: match &self.ai {
                Some(a) => Some(a.clone()),
                None => None,
            },
            item: self.item,
        }
    }
}

/// `o1` is what is left of `o0` after the monster death transition: a corpse
/// that neither blocks nor fights nor acts, renamed to its remains.
pub open spec fn monster_corpse_of(o1: Object, o0: Object) -> bool {
    &&& o1.glyph == '%'
    &&& o1.color == ColorCode::DarkRed
    &&& !o1.blocks
    &&& !o1.alive
    &&& o1.fighter is None
    &&& o1.ai is None
    &&& o1.item == o0.item
    &&& o1.x == o0.x
    &&& o1.y == o0.y
    &&& o1.name@ == "remains of "@ + o0.name@
}

/// What one damage application leaves of the stricken entity: positive
/// damage subtracts from hit points; an entity whose hit points reach zero
/// dies by its death role.  An entity without a fighter shrugs it off.
pub open spec fn damaged_obj(o0: Object, damage: int, o1: Object) -> bool {
    if o0.fighter is Some {
        let f = o0.fighter.unwrap();
        let hp1: int = if damage > 0 {
            f.hp - damage
        } else {
            f.hp as int
        };
        if hp1 > 0 {
            o1 == (Object { fighter: Some(Fighter { hp: hp1 as i32, ..f }), ..o0 })
        } else {
            match f.on_death {
                DeathCallback::Player => o1 == (Object {
                    glyph: '%',
                    color: ColorCode::DarkRed,
                    alive: false,
                    fighter: Some(Fighter { hp: 0, ..f }),
                    ..o0
                }),
                DeathCallback::Monster => monster_corpse_of(o1, o0),
            }
        }
    } else {
        o1 == o0
    }
}

/// What one damage application reports: only a death writes to the log.
pub open spec fn damage_log(
    o0: Object,
    damage: int,
    log0: Seq<Message>,
    log1: Seq<Message>,
) -> bool {
    if o0.fighter is Some {
        let f = o0.fighter.unwrap();
        let hp1: int = if damage > 0 {
            f.hp - damage
        } else {
            f.hp as int
        };
        if hp1 > 0 {
            log1 == log0
        } else {
            match f.on_death {
                DeathCallback::Player => pushed(log0, log1, "You died!"@, ColorCode::White),
                DeathCallback::Monster => pushed(
                    log0,
                    log1,
                    o0.name@ + " is dead!"@,
                    ColorCode::Green,
                ),
            }
        }
    } else {
        log1 == log0
    }
}

/// Everything one damage application leaves behind on the stricken entity
/// and the log.
pub open spec fn take_damage_post(
    o0: Object,
    damage: int,
    o1: Object,
    log0: Seq<Message>,
    log1: Seq<Message>,
) -> bool {
    damaged_obj(o0, damage, o1) && damage_log(o0, damage, log0, log1)
}

/// The raw attack balance: the attacker's power less the defender's defense,
/// a missing fighter component counting as zero on either side.
pub open spec fn attack_damage(a: Object, t: Object) -> int {
    (if a.fighter is Some {
        a.fighter.unwrap().power as int
    } else {
        0
    }) - (if t.fighter is Some {
        t.fighter.unwrap().defense as int
    } else {
        0
    })
}

/// Everything one attack leaves behind: when the balance is positive the log
/// reports the blow and the defender takes that much damage; otherwise the
/// log reports that the attack had no effect and the defender is untouched.
pub open spec fn attack_post(
    a: Object,
    t0: Object,
    t1: Object,
    log0: Seq<Message>,
    log1: Seq<Message>,
) -> bool {
    let damage = attack_damage(a, t0);
    if damage > 0 {
        exists|mid: Seq<Message>|
            #![auto]
            pushed(
                log0,
                mid,
                a.name@ + " attacks "@ + t0.name@ + " for "@ + spec_dec(damage) + " hit points."@,
                ColorCode::White,
            ) && take_damage_post(t0, damage, t1, mid, log1)
    } else {
        &&& t1 == t0
        &&& pushed(
            log0,
            log1,
            a.name@ + " attacks "@ + t0.name@ + " but it has no effect!"@,
            ColorCode::White,
        )
    }
}

impl Object {
    /// A fighter component, if present, has well-formed statistics.
    pub open spec fn stats_wf(self) -> bool {
        self.fighter matches Some(f) ==> fighter_wf(f)
    }

    /// Every component the entity carries is well-formed; this is what an
    /// entity keeps wherever it lives, in the world or in the inventory.
    pub open spec fn components_wf(self) -> bool {
        &&& self.stats_wf()
        &&& (self.ai matches Some(a) ==> ai_wf(a))
    }

    pub fn pos(&self) -> (p: (i32, i32))
        ensures
            p == (self.x, self.y),
    {
        (self.x, self.y)
    }

    pub fn set_pos(&mut self, x: i32, y: i32)
        ensures
            *final(self) == (Object { x, y, ..*old(self) }),
    {
        self.x = x;
        self.y = y;
    }

    /// A plain entity at a position: not yet alive, with no components.
    pub fn new(x: i32, y: i32, glyph: char, name: &str, color: ColorCode, blocks: bool) -> (o:
        Object)
        ensures
            o.x == x,
            o.y == y,
            o.glyph == glyph,
            o.name@ == name@,
            o.color == color,
            o.blocks == blocks,
            !o.alive,
            o.fighter is None,
            o.ai is None,
            o.item is None,
    {
        Object {
            x,
            y,
            glyph,
            name: name.to_owned(),
            color,
            blocks,
            alive: false,
            fighter: None,
            ai: None,
            item: None,
        }
    }

    /// The squared Euclidean distance to another entity.
    pub fn distance_sq_to(&self, other: &Object) -> (d: i64)
        requires
            -COORD_LIMIT <= self.x <= COORD_LIMIT,
            -COORD_LIMIT <= self.y <= COORD_LIMIT,
            -COORD_LIMIT <= other.x <= COORD_LIMIT,
            -COORD_LIMIT <= other.y <= COORD_LIMIT,
        ensures
            d == dist_sq(self.x as int, self.y as int, other.x as int, other.y as int),
            0 <= d,
    {
        distance_sq(self.x, self.y, other.x, other.y)
    }

    /// The squared Euclidean distance from this entity to a tile, each axis
    /// measured against its own coordinate.
    pub fn distance_sq_from(&self, x: i32, y: i32) -> (d: i64)
        requires
            -COORD_LIMIT <= self.x <= COORD_LIMIT,
            -COORD_LIMIT <= self.y <= COORD_LIMIT,
            -COORD_LIMIT <= x <= COORD_LIMIT,
            -COORD_LIMIT <= y <= COORD_LIMIT,
        ensures
            d == dist_sq(self.x as int, self.y as int, x as int, y as int),
            0 <= d,
    {
        distance_sq(self.x, self.y, x, y)
    }

    /// Applies damage to this entity, running the death transition keyed by
    /// its death role once its hit points are exhausted.  Once dead, the
    /// outward-visible hit points of a fallen player clamp to zero.
    pub fn take_damage(&mut self, damage: i32, game: &mut Game)
        requires
            damage <= STAT_LIMIT,
            old(self).stats_wf(),
            old(game).log.wf(),
        ensures
            final(self).stats_wf(),
            final(game).log.wf(),
            final(game).map == old(game).map,
            final(game).inventory == old(game).inventory,
            take_damage_post(
                *old(self),
                damage as int,
                *final(self),
                old(game).log@,
                final(game).log@,
            ),
    {
        // apply damage if possible
        if damage > 0 {
            if let Some(f) = self.fighter {
                self.fighter = Some(Fighter { hp: f.hp - damage, ..f });
            }
        }
        // check for death
        if let Some(f) = self.fighter {
            if f.hp <= 0 {
                self.alive = false;
                f.on_death.callback(self, game);
            }
        }
    }

    /// Strikes another entity: the damage is the attacker's power less the
    /// defender's defense, floored at zero; zero damage only logs that the
    /// attack had no effect.
    pub fn attack(&self, target: &mut Object, game: &mut Game)
        requires
            self.stats_wf(),
            old(target).stats_wf(),
            old(game).log.wf(),
        ensures
            final(target).stats_wf(),
            final(game).log.wf(),
            final(game).map == old(game).map,
            final(game).inventory == old(game).inventory,
            attack_post(*self, *old(target), *final(target), old(game).log@, final(game).log@),
    {
        // simple attack formula
        let power = match self.fighter {
            Some(f) => f.power,
            None => 0,
        };
        let defense = match target.fighter {
            Some(f) => f.defense,
            None => 0,
        };
        let damage = power - defense;
        if damage > 0 {
            // make the target take some damage
            let amount = i32_to_dec(damage);
            let text = self.name.clone().concat(" attacks ").concat(target.name.as_str()).concat(
                " for ",
            ).concat(amount.as_str()).concat(" hit points.");
            crate::log::message(&mut game.log, text, ColorCode::White);
            let ghost mid = game.log@;
            target.take_damage(damage, game);
            proof {
                assert(pushed(
                    old(game).log@,
                    mid,
                    self.name@ + " attacks "@ + old(target).name@ + " for "@ + spec_dec(
                        damage as int,
                    ) + " hit points."@,
                    ColorCode::White,
                ));
            }
        } else {
            let text = self.name.clone().concat(" attacks ").concat(target.name.as_str()).concat(
                " but it has no effect!",
            );
            crate::log::message(&mut game.log, text, ColorCode::White);
        }
    }

    /// Restores hit points, never past the maximum.
    pub fn heal(&mut self, amount: i32)
        requires
            0 <= amount <= STAT_LIMIT,
            old(self).stats_wf(),
        ensures
            final(self).stats_wf(),
            old(self).fighter matches Some(f) ==> *final(self) == (Object {
                fighter: Some(
                    Fighter {
                        hp: (if f.hp + amount > f.max_hp {
                            f.max_hp as int
                        } else {
                            f.hp + amount
                        }) as i32,
                        ..f
                    },
                ),
                ..*old(self)
            }),
            old(self).fighter is None ==> *final(self) == *old(self),
    {
        if let Some(f) = self.fighter {
            let mut hp = f.hp + amount;
            if hp > f.max_hp {
                hp = f.max_hp;
            }
            self.fighter = Some(Fighter { hp, ..f });
        }
    }
}

impl DeathCallback {
    /// Runs the death transition for this role.
    pub fn callback(self, object: &mut Object, game: &mut Game)
        requires
            old(object).fighter matches Some(f) && f.hp <= 0 && 0 <= f.max_hp <= STAT_LIMIT && 0
                <= f.defense <= STAT_LIMIT && 0 <= f.power <= STAT_LIMIT,
            !old(object).alive,
            old(game).log.wf(),
        ensures
            final(object).stats_wf(),
            final(game).log.wf(),
            final(game).map == old(game).map,
            final(game).inventory == old(game).inventory,
            self == DeathCallback::Player ==> *final(object) == (Object {
                glyph: '%',
                color: ColorCode::DarkRed,
                fighter: Some(Fighter { hp: 0, ..old(object).fighter.unwrap() }),
                ..*old(object)
            }) && pushed(old(game).log@, final(game).log@, "You died!"@, ColorCode::White),
            self == DeathCallback::Monster ==> monster_corpse_of(*final(object), *old(object))
                && pushed(
                old(game).log@,
                final(game).log@,
                old(object).name@ + " is dead!"@,
                ColorCode::Green,
            ),
    {
        match self {
            DeathCallback::Player => player_death(object, game),
            DeathCallback::Monster => monster_death(object, game),
        }
    }
}

/// The player's death: the game reports it and the entity turns into a
/// corpse; ending the session is the front end's concern.
pub fn player_death(player: &mut Object, game: &mut Game)
    requires
        old(player).fighter matches Some(f) && f.hp <= 0,
        old(game).log.wf(),
    ensures
        final(game).log.wf(),
        final(game).map == old(game).map,
        final(game).inventory == old(game).inventory,
        *final(player) == (Object {
            glyph: '%',
            color: ColorCode::DarkRed,
            fighter: Some(Fighter { hp: 0, ..old(player).fighter.unwrap() }),
            ..*old(player)
        }),
        pushed(old(game).log@, final(game).log@, "You died!"@, ColorCode::White),
{
    // the game has ended!
    crate::log::message(&mut game.log, "You died!".to_owned(), ColorCode::White);

    // transform player into a corpse!
    player.glyph = '%';
    player.color = ColorCode::DarkRed;
    if let Some(f) = player.fighter {
        player.fighter = Some(Fighter { hp: 0, ..f });
    }
}

/// A monster's death: it turns into remains that neither block, fight nor
/// act, and can no longer be attacked.
pub fn monster_death(monster: &mut Object, game: &mut Game)
    requires
        !old(monster).alive,
        old(game).log.wf(),
    ensures
        final(game).log.wf(),
        final(game).map == old(game).map,
        final(game).inventory == old(game).inventory,
        monster_corpse_of(*final(monster), *old(monster)),
        pushed(
            old(game).log@,
            final(game).log@,
            old(monster).name@ + " is dead!"@,
            ColorCode::Green,
        ),
{
    let text = monster.name.clone().concat(" is dead!");
    crate::log::message(&mut game.log, text, ColorCode::Green);
    monster.glyph = '%';
    monster.color = ColorCode::DarkRed;
    monster.blocks = false;
    monster.fighter = None;
    monster.ai = None;
    monster.name = "remains of ".to_owned().concat(monster.name.as_str());
}

} // verus!
