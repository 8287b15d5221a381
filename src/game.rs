use vstd::prelude::*;

use crate::config::{
    valid_offset, FIELD_LENGTH, FLAP_VELOCITY, GRAVITY_ACCEL, HALF_OBSTACLE_HEIGHT, HALF_OBSTACLE_WIDTH, LENGTH_SCALE,
    PAIR_COUNT, SCROLL_VELOCITY, SPACING_SCALED,
};
use crate::flyer::{velocity_after, Flyer};
use crate::obstacles::{
    is_scroll_of, is_spawn_of, scroll_fits, spawn_obstacles, spawn_x, Field, Obstacle,
};

verus! {

pub open spec fn abs(a: int) -> int {
    if a < 0 {
        -a
    } else {
        a
    }
}

/// The flyer has reached the lower edge of a viewport `height` units tall.
pub open spec fn below_boundary(y: int, height: int) -> bool {
    y <= -(height * LENGTH_SCALE / 2)
}

/// The flyer's centre lies inside the obstacle's box.
pub open spec fn collides(o: Obstacle, f: Flyer) -> bool {
    abs(o.y - f.y) < HALF_OBSTACLE_HEIGHT && abs(o.x - f.x) < HALF_OBSTACLE_WIDTH
}

/// The flyer is dead: it left the viewport downward or hit an obstacle.
pub open spec fn is_dead(f: Flyer, obs: Seq<Obstacle>, height: int) -> bool {
    below_boundary(f.y as int, height) || exists|k: int|
        0 <= k < obs.len() && collides(#[trigger] obs[k], f)
}

/// The flyer after `Flyer::step`.
pub open spec fn moved_flyer(f: Flyer, dt: int, flap: bool) -> Flyer {
    let v = velocity_after(f.velocity as int, dt, flap);
    Flyer { x: f.x, y: (f.y + v * dt) as i64, velocity: v as i64 }
}

/// Offsets for a fresh field: one valid offset per pair.
pub open spec fn valid_offsets(offsets: Seq<i64>) -> bool {
    offsets.len() == PAIR_COUNT && forall|i: int|
        0 <= i < offsets.len() ==> valid_offset(#[trigger] offsets[i] as int)
}

/// `after` is `before` once a death has been handled with `offsets`: the
/// flyer at rest at the origin and a field freshly spawned for the viewport.
pub open spec fn is_death_handling(after: Game, before: Game, offsets: Seq<i64>) -> bool {
    &&& after.flyer.is_reset()
    &&& is_spawn_of(after.field@, before.viewport.width as int, offsets)
    &&& after.viewport == before.viewport
}

/// `after` and `r` are what the flyer's part of a step makes of `before`
/// (see `update_bird`).
pub open spec fn is_bird_update(
    after: Game,
    before: Game,
    dt: int,
    flap: bool,
    respawn_offsets: Seq<i64>,
    r: Verdict,
) -> bool {
    let moved = moved_flyer(before.flyer, dt, flap);
    let dead = is_dead(moved, before.field@, before.viewport.height as int);
    &&& r == (if dead {
        Verdict::Dead
    } else {
        Verdict::Alive
    })
    &&& after.viewport == before.viewport
    &&& dead ==> after.flyer.is_reset() && is_spawn_of(
        after.field@,
        before.viewport.width as int,
        respawn_offsets,
    ) && after.field.wf()
    &&& !dead ==> after.flyer == moved && after.field@ == before.field@
}

/// Outcome of a simulation step.
#[derive(Clone, Copy, Debug, PartialEq, Eq, Structural)]
pub enum Verdict {
    Alive,
    Dead,
}

/// Why a level could not be set up.
#[derive(Clone, Copy, Debug, PartialEq, Eq, Structural)]
pub enum LevelError {
    /// The viewport has no area.
    EmptyViewport,
}

/// Visible field dimensions, in world units.
#[derive(Clone, Copy, Debug, PartialEq, Eq, Structural)]
pub struct Viewport {
    pub width: u32,
    pub height: u32,
}

/// The whole simulation state: the flyer, the obstacle field and the viewport.
#[derive(Clone, Debug)]
pub struct Game {
    pub flyer: Flyer,
    pub field: Field,
    pub viewport: Viewport,
}

/// Whether the flyer is at or below the lower edge of the viewport.
pub fn hits_boundary(flyer: &Flyer, height: u32) -> (r: bool)
    ensures
        r == below_boundary(flyer.y as int, height as int),
{
    flyer.y <= -(height as i64 * LENGTH_SCALE / 2)
}

/// Whether the flyer overlaps one obstacle.
pub fn collides_with(o: &Obstacle, flyer: &Flyer) -> (r: bool)
    ensures
        r == collides(*o, *flyer),
{
    let dy: i128 = o.y as i128 - flyer.y as i128;
    let dx: i128 = o.x as i128 - flyer.x as i128;
    let ady: i128 = if dy < 0 {
        -dy
    } else {
        dy
    };
    let adx: i128 = if dx < 0 {
        -dx
    } else {
        dx
    };
    ady < HALF_OBSTACLE_HEIGHT as i128 && adx < HALF_OBSTACLE_WIDTH as i128
}

/// Whether the flyer is dead against a set of obstacles and a viewport height.
pub fn check_death(flyer: &Flyer, obstacles: &Vec<Obstacle>, height: u32) -> (r: bool)
    ensures
        r == is_dead(*flyer, obstacles@, height as int),
{
    if hits_boundary(flyer, height) {
        return true;
    }
    let mut k: usize = 0;
    while k < obstacles.len()
        invariant
            0 <= k <= obstacles@.len(),
            forall|j: int| 0 <= j < k ==> !collides(#[trigger] obstacles@[j], *flyer),
        decreases obstacles@.len() - k,
    {
        if collides_with(&obstacles[k], flyer) {
            assert(collides(obstacles@[k as int], *flyer));
            return true;
        }
        k = k + 1;
    }
    false
}

impl Game {
    /// A new level: the flyer at rest at the origin and a fresh field.
    pub fn new(width: u32, height: u32, offsets: &Vec<i64>) -> (r: Result<Game, LevelError>)
        requires
            valid_offsets(offsets@),
        ensures
            r is Err <==> (width == 0 || height == 0),
            r is Err ==> r == Err::<Game, LevelError>(LevelError::EmptyViewport),
            r matches Ok(g) ==> {
                &&& g.flyer.is_reset()
                &&& is_spawn_of(g.field@, width as int, offsets@)
                &&& g.field.wf()
                &&& g.viewport == (Viewport { width, height })
            },
    {
        if width == 0 || height == 0 {
            return Err(LevelError::EmptyViewport);
        }
        Ok(Game {
            flyer: Flyer::new(),
            field: spawn_obstacles(width, offsets),
            viewport: Viewport { width, height },
        })
    }

    /// Whether the flyer is dead in the current state.
    pub fn is_dead(&self) -> (r: bool)
        ensures
            r == is_dead(self.flyer, self.field@, self.viewport.height as int),
    {
        check_death(&self.flyer, &self.field.obstacles, self.viewport.height)
    }

    /// Handles a death: the flyer goes back to the origin at rest and the
    /// field is replaced by a fresh one for the current viewport width.
    pub fn handle_death(&mut self, offsets: &Vec<i64>)
        requires
            valid_offsets(offsets@),
        ensures
            is_death_handling(*final(self), *old(self), offsets@),
            final(self).field.wf(),
    {
        self.flyer.reset();
        self.field = spawn_obstacles(self.viewport.width, offsets);
    }
}

/// The flyer's part of a step: moves the flyer by `dt` milliseconds, then
/// checks it against the viewport and the field; on death resets the flyer
/// and respawns the field with `respawn_offsets`.
pub fn update_bird(game: &mut Game, dt: u32, flap: bool, respawn_offsets: &Vec<i64>) -> (r:
    Verdict)
    requires
        old(game).flyer.step_fits(dt as int, flap),
        valid_offsets(respawn_offsets@),
    ensures
        is_bird_update(*final(game), *old(game), dt as int, flap, respawn_offsets@, r),
        old(game).field.wf() ==> final(game).field.wf(),
{
    game.flyer.step(dt, flap);
    if game.is_dead() {
        game.handle_death(respawn_offsets);
        Verdict::Dead
    } else {
        Verdict::Alive
    }
}

/// The field's part of a step: scrolls and recycles every obstacle.
pub fn update_obstacles(game: &mut Game, dt: u32, offset: i64)
    requires
        scroll_fits(old(game).field@, dt as int),
        valid_offset(offset as int),
    ensures
        final(game).flyer == old(game).flyer,
        final(game).viewport == old(game).viewport,
        is_scroll_of(
            final(game).field@,
            old(game).field@,
            dt as int,
            old(game).viewport.width as int,
            offset as int,
        ),
        old(game).field.wf() ==> final(game).field.wf(),
{
    let width = game.viewport.width;
    game.field.scroll(dt, width, offset);
}

/// A freshly spawned field can always take one scroll step.
pub(crate) proof fn lemma_fresh_field_scrolls(obs: Seq<Obstacle>, width: u32, offsets: Seq<i64>, dt: u32)
    requires
        is_spawn_of(obs, width as int, offsets),
    ensures
        scroll_fits(obs, dt as int),
{
    assert(0 <= width * LENGTH_SCALE / 2 <= 4_294_967_295 * LENGTH_SCALE / 2) by (nonlinear_arith)
        requires
            0 <= width <= 4_294_967_295,
    ;
    assert(0 <= SCROLL_VELOCITY * dt <= SCROLL_VELOCITY * 4_294_967_295) by (nonlinear_arith)
        requires
            0 <= dt <= 4_294_967_295,
    ;
    assert forall|k: int| 0 <= k < obs.len() implies i64::MIN <= (#[trigger] obs[k]).x
        - SCROLL_VELOCITY * dt && obs[k].x - SCROLL_VELOCITY * dt + FIELD_LENGTH
        <= i64::MAX by {
        let p = k / 2;
        assert(0 <= p <= 40);
        assert(0 <= p * SPACING_SCALED <= 40 * SPACING_SCALED) by (nonlinear_arith)
            requires
                0 <= p <= 40,
        ;
        assert(obs[k].x == spawn_x(width as int, p));
    }
}

/// Every position and velocity after a whole step still fits in `i64`.
pub open spec fn step_fits(game: Game, dt: int, flap: bool) -> bool {
    game.flyer.step_fits(dt, flap) && scroll_fits(game.field@, dt)
}

impl Game {
    /// One whole simulation step of `dt` milliseconds, in this order: the
    /// flyer moves; if it is then dead, it is reset and the field is
    /// respawned with `respawn_offsets`; finally the field, fresh or not,
    /// scrolls with `scroll_offset`.
    #[verifier::rlimit(50)]
    pub fn step(
        &mut self,
        dt: u32,
        flap: bool,
        respawn_offsets: &Vec<i64>,
        scroll_offset: i64,
    ) -> (r: Verdict)
        requires
            step_fits(*old(self), dt as int, flap),
            valid_offsets(respawn_offsets@),
            valid_offset(scroll_offset as int),
        ensures
            ({
                let moved = moved_flyer(old(self).flyer, dt as int, flap);
                let dead = is_dead(moved, old(self).field@, old(self).viewport.height as int);
                let width = old(self).viewport.width as int;
                &&& r == (if dead {
                    Verdict::Dead
                } else {
                    Verdict::Alive
                })
                &&& final(self).viewport == old(self).viewport
                &&& final(self).flyer == (if dead {
                    Flyer { x: 0, y: 0, velocity: 0 }
                } else {
                    moved
                })
                &&& dead ==> exists|fresh: Seq<Obstacle>|
                    is_spawn_of(fresh, width, respawn_offsets@) && is_scroll_of(
                        final(self).field@,
                        fresh,
                        dt as int,
                        width,
                        scroll_offset as int,
                    )
                &&& !dead ==> is_scroll_of(
                    final(self).field@,
                    old(self).field@,
                    dt as int,
                    width,
                    scroll_offset as int,
                )
            }),
            old(self).field.wf() ==> final(self).field.wf(),
    {
        let ghost start = *self;
        let r = update_bird(self, dt, flap, respawn_offsets);
        proof {
            if r == Verdict::Dead {
                lemma_fresh_field_scrolls(self.field@, self.viewport.width, respawn_offsets@, dt);
            }
        }
        let ghost mid = self.field@;
        update_obstacles(self, dt, scroll_offset);
        proof {
            if r == Verdict::Dead {
                assert(is_spawn_of(mid, start.viewport.width as int, respawn_offsets@));
                assert(is_scroll_of(
                    self.field@,
                    mid,
                    dt as int,
                    start.viewport.width as int,
                    scroll_offset as int,
                ));
            }
        }
        r
    }
}

impl Game {
    /// Whether a step of `dt` milliseconds keeps every value within `i64`.
    pub fn can_step(&self, dt: u32, flap: bool) -> (r: bool)
        ensures
            r == step_fits(*self, dt as int, flap),
    {
        let base: i128 = if flap {
            FLAP_VELOCITY as i128
        } else {
            self.flyer.velocity as i128
        };
        assert(0 <= GRAVITY_ACCEL * dt <= GRAVITY_ACCEL * 4_294_967_295) by (nonlinear_arith)
            requires
                0 <= dt <= 4_294_967_295,
                GRAVITY_ACCEL == 2000,
        ;
        let v: i128 = base - GRAVITY_ACCEL as i128 * dt as i128;
        if v < i64::MIN as i128 || v > i64::MAX as i128 {
            return false;
        }
        assert(-9_223_372_036_854_775_808 <= v <= 9_223_372_036_854_775_807);
        assert(-39_614_081_257_132_168_796_771_975_168 <= v * dt <= 39_614_081_257_132_168_796_771_975_168)
            by (nonlinear_arith)
            requires
                -9_223_372_036_854_775_808 <= v <= 9_223_372_036_854_775_807,
                0 <= dt <= 4_294_967_295,
        ;
        let y: i128 = self.flyer.y as i128 + v * dt as i128;
        if y < i64::MIN as i128 || y > i64::MAX as i128 {
            return false;
        }
        let distance: i128 = SCROLL_VELOCITY as i128 * dt as i128;
        let mut k: usize = 0;
        while k < self.field.obstacles.len()
            invariant
                0 <= k <= self.field@.len(),
                distance == SCROLL_VELOCITY * dt,
                forall|j: int|
                    0 <= j < k ==> i64::MIN <= (#[trigger] self.field@[j]).x - SCROLL_VELOCITY * dt
                        && self.field@[j].x - SCROLL_VELOCITY * dt + FIELD_LENGTH <= i64::MAX,
            decreases self.field@.len() - k,
        {
            let x: i128 = self.field.obstacles[k].x as i128 - distance;
            if x < i64::MIN as i128 || x + FIELD_LENGTH as i128 > i64::MAX as i128 {
                return false;
            }
            k = k + 1;
        }
        true
    }
}

} // verus!
