//! The per-turn AI controller.
//!
//! Once per completed player turn, every AI-bearing entity acts, in
//! collection order.  A basic monster that the player can see steps toward
//! the player while far, and attacks while adjacent (diagonals included); a
//! confused monster wanders randomly while its counter runs and then reverts
//! to its wrapped prior state.  `spec_ai_next` is the state machine those
//! turns follow.

use vstd::prelude::*;
use vstd::string::StringExecFns;

use crate::color::ColorCode;
use crate::fov::FovData;
use crate::game::Game;
use crate::geometry::dist_sq;
use crate::log::pushed;
use crate::log::Message;
use crate::map::GameMap;
use crate::object::ai_wf;
use crate::object::attack_post;
use crate::object::Ai;
use crate::object::Object;
use crate::rng::fixed_advance;
use crate::rng::fixed_draw;
use crate::rng::RandomSource;
use crate::world::move_by;
use crate::world::move_by_post;
use crate::world::move_towards;
use crate::world::objects_wf;
use crate::world::obj_wf;
use crate::world::step_toward;
use crate::PLAYER;

verus! {

/// One turn of the AI state machine: basic behavior is terminal, a confusion
/// counts down while its counter is non-negative and reverts to the wrapped
/// prior state — restored verbatim — once it has gone negative.
pub open spec fn spec_ai_next(a: Ai) -> Ai {
    match a {
        Ai::Basic => Ai::Basic,
        Ai::Confused { previous_ai, num_turns } => if num_turns >= 0 {
            Ai::Confused { previous_ai, num_turns: (num_turns - 1) as i32 }
        } else {
            *previous_ai
        },
    }
}

/// The AI state after `k` turns.
pub open spec fn spec_ai_iter(a: Ai, k: nat) -> Ai
    decreases k,
{
    if k == 0 {
        a
    } else {
        spec_ai_iter(spec_ai_next(a), (k - 1) as nat)
    }
}

/// A confusion with `num_turns` remaining, advanced turn by turn with no
/// re-application, stays confused through the turn on which its counter
/// first goes negative, and reverts to its wrapped prior state exactly once,
/// on the turn after that.
pub proof fn lemma_confusion_reverts_once(a: Ai, k: nat)
    requires
        a matches Ai::Confused { previous_ai, num_turns } && 0 <= num_turns,
    ensures
        a matches Ai::Confused { previous_ai, num_turns } ==> {
            &&& k <= num_turns + 1 ==> spec_ai_iter(a, k) == (Ai::Confused {
                previous_ai,
                num_turns: (num_turns - k) as i32,
            })
            &&& k == num_turns + 2 ==> spec_ai_iter(a, k) == *previous_ai
        },
    decreases k,
{
    if let Ai::Confused { previous_ai, num_turns } = a {
        if k > 0 {
            let next = spec_ai_next(a);
            if num_turns >= 1 {
                lemma_confusion_reverts_once(next, (k - 1) as nat);
            } else {
                // one turn left on the counter: the next state carries -1,
                // and the turn after that restores the wrapped state
                assert(next == (Ai::Confused { previous_ai, num_turns: -1 as i32 }));
                if k == 2 {
                    assert(spec_ai_iter(a, 2) == spec_ai_iter(next, 1));
                    assert(spec_ai_iter(next, 1) == spec_ai_iter(spec_ai_next(next), 0));
                    assert(spec_ai_next(next) == *previous_ai);
                }
            }
        }
    }
}

/// Everything one basic turn leaves behind: a monster the player can see
/// steps toward the player while two or more tiles away, attacks while
/// adjacent and the player still has hit points, and otherwise — unseen
/// included — holds still.
pub open spec fn basic_turn_post(
    map: GameMap,
    fov: FovData,
    id: int,
    objs0: Seq<Object>,
    objs1: Seq<Object>,
    log0: Seq<Message>,
    log1: Seq<Message>,
) -> bool {
    let m = objs0[id];
    let p = objs0[PLAYER as int];
    let d = dist_sq(m.x as int, m.y as int, p.x as int, p.y as int);
    if !fov.vis_at(m.x as int, m.y as int) {
        objs1 == objs0 && log1 == log0
    } else if d >= 4 {
        move_by_post(
            map,
            objs0,
            objs1,
            id,
            step_toward(p.x - m.x, p.y - m.y),
            step_toward(p.y - m.y, p.x - m.x),
        ) && log1 == log0
    } else if p.fighter matches Some(f) && f.hp > 0 {
        objs1 == objs0.update(PLAYER as int, objs1[PLAYER as int]) && attack_post(
            m,
            p,
            objs1[PLAYER as int],
            log0,
            log1,
        )
    } else {
        objs1 == objs0 && log1 == log0
    }
}

/// The two draws behind one confused wander, folded into unit offsets: a
/// fixed source determines both offsets and advances its cursor twice, while
/// of the process-wide source only its kind is known.
pub open spec fn draws_give(rng0: RandomSource, rng1: RandomSource, dx: int, dy: int) -> bool {
    match rng0 {
        RandomSource::System => rng1 is System,
        RandomSource::Fixed { values, next } => {
            &&& dx == -1 + fixed_draw(values@, next as int) % 3
            &&& dy == -1 + fixed_draw(values@, fixed_advance(next as int)) % 3
            &&& rng1 == (RandomSource::Fixed {
                values,
                next: fixed_advance(fixed_advance(next as int)) as usize,
            })
        },
    }
}

/// Everything one confused turn leaves behind: while the counter is
/// non-negative the monster moves by the offsets its two random draws give;
/// once the counter has gone negative nothing moves, the source is not
/// consulted, and the log reports the recovery.
pub open spec fn confused_turn_post(
    map: GameMap,
    id: int,
    objs0: Seq<Object>,
    objs1: Seq<Object>,
    log0: Seq<Message>,
    log1: Seq<Message>,
    num_turns: int,
    rng0: RandomSource,
    rng1: RandomSource,
) -> bool {
    if num_turns >= 0 {
        (exists|dx: int, dy: int|
            #![auto]
            -1 <= dx <= 1 && -1 <= dy <= 1 && move_by_post(map, objs0, objs1, id, dx, dy)
                && draws_give(rng0, rng1, dx, dy)) && log1 == log0
    } else {
        &&& objs1 == objs0
        &&& rng1 == rng0
        &&& pushed(
            log0,
            log1,
            "The "@ + objs0[id].name@ + " is no longer confused!"@,
            ColorCode::Red,
        )
    }
}

/// One turn of a basic monster: while the player can see it and it is two or
/// more tiles away it steps toward the player; while adjacent and the player
/// still has hit points it attacks; unseen, it holds still.
pub fn ai_basic(monster_id: usize, game: &mut Game, objects: &mut Vec<Object>, fov: &FovData) -> (r:
    Ai)
    requires
        monster_id < old(objects)@.len(),
        monster_id != PLAYER,
        old(objects)@.len() >= 1,
        old(game).map.wf(),
        old(game).log.wf(),
        objects_wf(old(objects)@, old(game).map),
        fov.wf(),
    ensures
        r == Ai::Basic,
        final(game).map == old(game).map,
        final(game).inventory == old(game).inventory,
        final(game).log.wf(),
        objects_wf(final(objects)@, final(game).map),
        final(objects)@.len() == old(objects)@.len(),
        basic_turn_post(
            old(game).map,
            *fov,
            monster_id as int,
            old(objects)@,
            final(objects)@,
            old(game).log@,
            final(game).log@,
        ),
{
    // a basic monster takes its turn: if you can see it, it can see you
    let mx = objects[monster_id].x;
    let my = objects[monster_id].y;
    if fov.is_visible(mx, my) {
        proof {
            assert(obj_wf(objects@[monster_id as int], game.map));
            assert(obj_wf(objects@[PLAYER as int], game.map));
        }
        let d = objects[monster_id].distance_sq_to(&objects[PLAYER]);
        if d >= 4 {
            // move toward the player while two or more tiles away
            let px = objects[PLAYER].x;
            let py = objects[PLAYER].y;
            move_towards(monster_id, px, py, game, objects);
        } else {
            let player_up = match objects[PLAYER].fighter {
                Some(f) => f.hp > 0,
                None => false,
            };
            if player_up {
                // close enough to attack, and the player is still alive
                let monster = objects[monster_id].clone();
                let player = &mut objects[PLAYER];
                monster.attack(player, game);
            }
        }
    }
    Ai::Basic
}

/// One turn of a confused monster: while the counter is non-negative it
/// moves by a random offset in `-1..=1` on each axis and counts down; once
/// the counter has gone negative it reports the recovery and restores the
/// wrapped prior state verbatim.
pub fn ai_confused(
    monster_id: usize,
    game: &mut Game,
    objects: &mut Vec<Object>,
    previous_ai: Box<Ai>,
    num_turns: i32,
    rng: &mut RandomSource,
) -> (r: Ai)
    requires
        monster_id < old(objects)@.len(),
        old(game).map.wf(),
        old(game).log.wf(),
        objects_wf(old(objects)@, old(game).map),
        ai_wf(Ai::Confused { previous_ai, num_turns }),
    ensures
        final(game).map == old(game).map,
        final(game).inventory == old(game).inventory,
        final(game).log.wf(),
        objects_wf(final(objects)@, final(game).map),
        final(objects)@.len() == old(objects)@.len(),
        r == spec_ai_next(Ai::Confused { previous_ai, num_turns }),
        ai_wf(r),
        confused_turn_post(
            old(game).map,
            monster_id as int,
            old(objects)@,
            final(objects)@,
            old(game).log@,
            final(game).log@,
            num_turns as int,
            *old(rng),
            *final(rng),
        ),
{
    if num_turns >= 0 {
        // still confused: move in a random direction and count down
        proof {
            assert(obj_wf(objects@[monster_id as int], game.map));
        }
        let dx = rng.range(-1, 2);
        let dy = rng.range(-1, 2);
        move_by(monster_id, dx, dy, game, objects);
        proof {
            assert(-1 <= dx as int <= 1 && -1 <= dy as int <= 1 && move_by_post(
                old(game).map,
                old(objects)@,
                objects@,
                monster_id as int,
                dx as int,
                dy as int,
            ) && draws_give(*old(rng), *rng, dx as int, dy as int));
        }
        Ai::Confused { previous_ai, num_turns: num_turns - 1 }
    } else {
        // restore the previous AI and report the recovery
        let text = "The ".to_owned().concat(objects[monster_id].name.as_str()).concat(
            " is no longer confused!",
        );
        crate::log::message(&mut game.log, text, ColorCode::Red);
        *previous_ai
    }
}

/// The collection with one entity's AI component taken out; the state every
/// turn acts on while its bearer's state is in hand.
pub open spec fn ai_stripped(objs: Seq<Object>, id: int) -> Seq<Object> {
    objs.update(id, Object { ai: None, ..objs[id] })
}

/// Everything one entity's turn leaves behind: its AI state is taken out,
/// the matching turn — basic or confused — runs on the stripped collection,
/// and one step of the state machine is put back.  A basic turn never
/// consults the randomness source.
pub open spec fn take_turn_post(
    map: GameMap,
    fov: FovData,
    id: int,
    objs0: Seq<Object>,
    objs1: Seq<Object>,
    log0: Seq<Message>,
    log1: Seq<Message>,
    rng0: RandomSource,
    rng1: RandomSource,
) -> bool {
    &&& objs1.len() == objs0.len()
    &&& (objs0[id].ai is None ==> objs1 == objs0 && log1 == log0 && rng1 == rng0)
    &&& (objs0[id].ai matches Some(a) ==> objs1[id].ai == Some(spec_ai_next(a)))
    &&& (objs0[id].ai == Some(Ai::Basic) ==> rng1 == rng0 && exists|mid: Seq<Object>|
        #![auto]
        basic_turn_post(map, fov, id, ai_stripped(objs0, id), mid, log0, log1) && objs1
            == mid.update(id, Object { ai: Some(Ai::Basic), ..mid[id] }))
    &&& (objs0[id].ai matches Some(Ai::Confused { previous_ai, num_turns }) ==> exists|
        mid: Seq<Object>,
    |
        #![auto]
        confused_turn_post(
            map,
            id,
            ai_stripped(objs0, id),
            mid,
            log0,
            log1,
            num_turns as int,
            rng0,
            rng1,
        ) && objs1 == mid.update(
            id,
            Object {
                ai: Some(spec_ai_next(Ai::Confused { previous_ai, num_turns })),
                ..mid[id]
            },
        ))
    &&& forall|k: int| 0 <= k < objs0.len() && k != id && k != PLAYER ==> objs1[k] == objs0[k]
}

/// Runs one entity's AI turn: its current state decides the behavior — the
/// basic or the confused turn, acting on the collection with the state taken
/// out — and the state left behind is exactly one step of the AI state
/// machine.
pub fn ai_take_turn(
    monster_id: usize,
    game: &mut Game,
    objects: &mut Vec<Object>,
    fov: &FovData,
    rng: &mut RandomSource,
)
    requires
        monster_id < old(objects)@.len(),
        monster_id != PLAYER,
        old(objects)@.len() >= 1,
        old(game).map.wf(),
        old(game).log.wf(),
        objects_wf(old(objects)@, old(game).map),
        fov.wf(),
    ensures
        final(game).map == old(game).map,
        final(game).inventory == old(game).inventory,
        final(game).log.wf(),
        objects_wf(final(objects)@, final(game).map),
        final(objects)@.len() == old(objects)@.len(),
        take_turn_post(
            old(game).map,
            *fov,
            monster_id as int,
            old(objects)@,
            final(objects)@,
            old(game).log@,
            final(game).log@,
            *old(rng),
            *final(rng),
        ),
{
    let e = &mut objects[monster_id];
    let ai_opt = e.ai.take();
    match ai_opt {
        None => {
            proof {
                assert(objects@ =~= old(objects)@);
            }
        },
        Some(ai) => {
            proof {
                assert(objects@ == ai_stripped(old(objects)@, monster_id as int));
            }
            let new_ai = match ai {
                Ai::Basic => ai_basic(monster_id, game, objects, fov),
                Ai::Confused { previous_ai, num_turns } => {
                    proof {
                        assert(obj_wf(old(objects)@[monster_id as int], old(game).map));
                    }
                    ai_confused(monster_id, game, objects, previous_ai, num_turns, rng)
                },
            };
            let ghost mid = objects@;
            let e2 = &mut objects[monster_id];
            e2.ai = Some(new_ai);
            proof {
                assert(objects@ == mid.update(
                    monster_id as int,
                    Object { ai: Some(new_ai), ..mid[monster_id as int] },
                ));
            }
        },
    }
}

/// One slot of the AI phase: the player's slot and slots without an AI
/// state pass the world through unchanged; every other slot takes its turn.
pub open spec fn ai_turn_step(
    map: GameMap,
    fov: FovData,
    id: int,
    objs0: Seq<Object>,
    objs1: Seq<Object>,
    log0: Seq<Message>,
    log1: Seq<Message>,
    rng0: RandomSource,
    rng1: RandomSource,
) -> bool {
    if id == PLAYER || objs0[id].ai is None {
        objs1 == objs0 && log1 == log0 && rng1 == rng0
    } else {
        take_turn_post(map, fov, id, objs0, objs1, log0, log1, rng0, rng1)
    }
}

/// The net effect of slots `0..k` of the AI phase, in collection order: a
/// chain of intermediate world states, each consecutive pair related by one
/// slot's step.
pub open spec fn ai_phase_upto(
    map: GameMap,
    fov: FovData,
    k: int,
    objs0: Seq<Object>,
    objs1: Seq<Object>,
    log0: Seq<Message>,
    log1: Seq<Message>,
    rng0: RandomSource,
    rng1: RandomSource,
) -> bool
    decreases k,
{
    if k <= 0 {
        objs1 == objs0 && log1 == log0 && rng1 == rng0
    } else {
        exists|objs_m: Seq<Object>, log_m: Seq<Message>, rng_m: RandomSource|
            ai_phase_upto(map, fov, k - 1, objs0, objs_m, log0, log_m, rng0, rng_m) && #[trigger]
            ai_turn_step(map, fov, k - 1, objs_m, objs1, log_m, log1, rng_m, rng1)
    }
}

/// Drives the AI phase of one turn: every AI-bearing entity acts once, in
/// collection order — the phase is the fold of the per-slot steps.  The grid
/// and the inventory are untouched; only the actors themselves and the
/// player can change.
pub fn run_ai_phase(game: &mut Game, objects: &mut Vec<Object>, fov: &FovData, rng: &mut RandomSource)
    requires
        old(objects)@.len() >= 1,
        old(game).map.wf(),
        old(game).log.wf(),
        objects_wf(old(objects)@, old(game).map),
        fov.wf(),
    ensures
        final(game).map == old(game).map,
        final(game).inventory == old(game).inventory,
        final(game).log.wf(),
        objects_wf(final(objects)@, final(game).map),
        final(objects)@.len() == old(objects)@.len(),
        forall|k: int|
            0 <= k < old(objects)@.len() && k != PLAYER ==> final(objects)@[k].ai == (match old(
                objects,
            )@[k].ai {
                Some(a) => Some(spec_ai_next(a)),
                None => None,
            }),
        ai_phase_upto(
            old(game).map,
            *fov,
            old(objects)@.len() as int,
            old(objects)@,
            final(objects)@,
            old(game).log@,
            final(game).log@,
            *old(rng),
            *final(rng),
        ),
{
    let mut id: usize = 0;
    while id < objects.len()
        invariant
            0 <= id <= objects@.len(),
            game.map == old(game).map,
            game.inventory == old(game).inventory,
            game.log.wf(),
            objects_wf(objects@, game.map),
            objects@.len() == old(objects)@.len(),
            objects@.len() >= 1,
            forall|k: int|
                0 <= k < id && k != PLAYER ==> objects@[k].ai == (match old(objects)@[k].ai {
                    Some(a) => Some(spec_ai_next(a)),
                    None => None,
                }),
            forall|k: int|
                id <= k < objects@.len() && k != PLAYER ==> objects@[k] == old(objects)@[k],
            ai_phase_upto(
                old(game).map,
                *fov,
                id as int,
                old(objects)@,
                objects@,
                old(game).log@,
                game.log@,
                *old(rng),
                *rng,
            ),
        decreases objects@.len() - id,
    {
        let ghost objs_pre = objects@;
        let ghost log_pre = game.log@;
        let ghost rng_pre = *rng;
        // the player's slot never carries an AI component; everything else
        // with one acts now
        if id != PLAYER && objects[id].ai.is_some() {
            ai_take_turn(id, game, objects, fov, rng);
        }
        proof {
            let k1: int = id as int + 1;
            assert(ai_turn_step(
                old(game).map,
                *fov,
                k1 - 1,
                objs_pre,
                objects@,
                log_pre,
                game.log@,
                rng_pre,
                *rng,
            ));
            assert(ai_phase_upto(
                old(game).map,
                *fov,
                k1 - 1,
                old(objects)@,
                objs_pre,
                old(game).log@,
                log_pre,
                *old(rng),
                rng_pre,
            ));
            assert(ai_phase_upto(
                old(game).map,
                *fov,
                k1,
                old(objects)@,
                objects@,
                old(game).log@,
                game.log@,
                *old(rng),
                *rng,
            ));
        }
        id = id + 1;
    }
}

} // verus!
