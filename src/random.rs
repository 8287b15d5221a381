use vstd::prelude::*;

use rand::rngs::StdRng;
use rand::Rng;

use crate::config::{
    valid_offset, LENGTH_SCALE, OBSTACLE_VERTICAL_OFFSET, PAIR_COUNT, PIXEL_RATIO,
};
use crate::flyer::Flyer;
use crate::game::{
    is_dead, moved_flyer, step_fits, update_obstacles, valid_offsets, Game, LevelError, Verdict,
};
use crate::obstacles::{is_scroll_of, is_spawn_of, Obstacle};

verus! {

#[verifier::external_type_specification]
#[verifier::external_body]
pub struct ExStdRng(StdRng);

/// Relies on `rand::Rng::random_range` over an inclusive integer range: the
/// value drawn lies within both bounds (it panics only on an empty range).
#[verifier::external_body]
fn random_in(rng: &mut StdRng, lo: i64, hi: i64) -> (r: i64)
    requires
        lo <= hi,
    ensures
        lo <= r <= hi,
{
    rng.random_range(lo..=hi)
}

/// Scaled vertical offset, in micro-units, for a draw of `d` whole units.
pub open spec fn offset_of(d: int) -> int {
    d * PIXEL_RATIO * LENGTH_SCALE
}

/// A draw that a pair's offset may come from.
pub open spec fn valid_draw(d: int) -> bool {
    -OBSTACLE_VERTICAL_OFFSET <= d <= OBSTACLE_VERTICAL_OFFSET
}

/// An offset that some valid draw scales to.
pub open spec fn is_drawn_offset(o: int) -> bool {
    exists|d: int| valid_draw(d) && o == #[trigger] offset_of(d)
}

/// Scales a draw of whole units to a vertical offset in micro-units.
pub fn offset_of_draw(d: i64) -> (r: i64)
    requires
        valid_draw(d as int),
    ensures
        r == offset_of(d as int),
        valid_offset(r as int),
        (r as int) % (PIXEL_RATIO * LENGTH_SCALE) == 0,
{
    assert(-120_000_000 <= d * 4_000_000 <= 120_000_000) by (nonlinear_arith)
        requires
            -30 <= d <= 30,
    ;
    let r: i64 = d * (PIXEL_RATIO * LENGTH_SCALE);
    proof {
        vstd::arithmetic::div_mod::lemma_mod_multiples_basic(d as int, PIXEL_RATIO * LENGTH_SCALE);
    }
    r
}

/// Draws a vertical offset for a pair: one draw of whole units within
/// `OBSTACLE_VERTICAL_OFFSET` either way, scaled by `offset_of_draw`.
pub fn generate_offset(rng: &mut StdRng) -> (r: i64)
    ensures
        is_drawn_offset(r as int),
        valid_offset(r as int),
        (r as int) % (PIXEL_RATIO * LENGTH_SCALE) == 0,
{
    let d: i64 = random_in(rng, -OBSTACLE_VERTICAL_OFFSET, OBSTACLE_VERTICAL_OFFSET);
    offset_of_draw(d)
}

/// Draws one offset for each pair of a field.
pub fn generate_offsets(rng: &mut StdRng) -> (r: Vec<i64>)
    ensures
        valid_offsets(r@),
        forall|i: int| 0 <= i < r@.len() ==> is_drawn_offset(#[trigger] r@[i] as int),
{
    let mut r: Vec<i64> = Vec::new();
    let mut i: usize = 0;
    while i < PAIR_COUNT as usize
        invariant
            0 <= i <= PAIR_COUNT,
            r@.len() == i,
            forall|j: int| 0 <= j < r@.len() ==> valid_offset(#[trigger] r@[j] as int),
            forall|j: int| 0 <= j < r@.len() ==> is_drawn_offset(#[trigger] r@[j] as int),
        decreases PAIR_COUNT - i,
    {
        let o = generate_offset(rng);
        r.push(o);
        i = i + 1;
    }
    r
}

/// Sets up a level with a field placed by `rng`; fails, without drawing,
/// on a viewport without area.
pub fn setup_level(width: u32, height: u32, rng: &mut StdRng) -> (r: Result<Game, LevelError>)
    ensures
        r is Err <==> (width == 0 || height == 0),
        r is Err ==> r == Err::<Game, LevelError>(LevelError::EmptyViewport),
        r matches Ok(g) ==> {
            &&& g.flyer.is_reset()
            &&& exists|offsets: Seq<i64>|
                valid_offsets(offsets) && is_spawn_of(g.field@, width as int, offsets)
            &&& g.field.wf()
            &&& g.viewport.width == width && g.viewport.height == height
        },
{
    if width == 0 || height == 0 {
        return Err(LevelError::EmptyViewport);
    }
    let offsets = generate_offsets(rng);
    let r = Game::new(width, height, &offsets);
    proof {
        if r is Ok {
            let g = r->Ok_0;
            assert(valid_offsets(offsets@) && is_spawn_of(g.field@, width as int, offsets@));
        }
    }
    r
}

impl Game {
    /// One whole step (see `Game::step`) with its offsets drawn from `rng`:
    /// a fresh field's offsets only when the flyer dies, and one scroll
    /// offset in every step.
    #[verifier::rlimit(50)]
    pub fn step_with_rng(&mut self, rng: &mut StdRng, dt: u32, flap: bool) -> (r: Verdict)
        requires
            step_fits(*old(self), dt as int, flap),
        ensures
            ({
                let moved = moved_flyer(old(self).flyer, dt as int, flap);
                let dead = is_dead(moved, old(self).field@, old(self).viewport.height as int);
                let width = old(self).viewport.width as int;
                &&& r == (if dead {
                    Verdict::Dead
                } else {
                    Verdict::Alive
                })
                &&& final(self).viewport == old(self).viewport
                &&& final(self).flyer == (if dead {
                    Flyer { x: 0, y: 0, velocity: 0 }
                } else {
                    moved
                })
                &&& exists|offset: i64|
                    valid_offset(offset as int) && {
                        &&& dead ==> exists|fresh: Seq<Obstacle>, offsets: Seq<i64>|
                            valid_offsets(offsets) && is_spawn_of(fresh, width, offsets)
                                && is_scroll_of(
                                final(self).field@,
                                fresh,
                                dt as int,
                                width,
                                offset as int,
                            )
                        &&& !dead ==> is_scroll_of(
                            final(self).field@,
                            old(self).field@,
                            dt as int,
                            width,
                            offset as int,
                        )
                    }
            }),
            old(self).field.wf() ==> final(self).field.wf(),
    {
        let ghost width = old(self).viewport.width as int;
        self.flyer.step(dt, flap);
        let dead = self.is_dead();
        if dead {
            let respawn_offsets = generate_offsets(rng);
            self.handle_death(&respawn_offsets);
            proof {
                crate::game::lemma_fresh_field_scrolls(
                    self.field@,
                    self.viewport.width,
                    respawn_offsets@,
                    dt,
                );
            }
        }
        let ghost fresh = self.field@;
        let offset = generate_offset(rng);
        update_obstacles(self, dt, offset);
        proof {
            if dead {
                let offsets = choose|offsets: Seq<i64>|
                    valid_offsets(offsets) && is_spawn_of(fresh, width, offsets);
                assert(valid_offsets(offsets) && is_spawn_of(fresh, width, offsets) && is_scroll_of(
                    self.field@,
                    fresh,
                    dt as int,
                    width,
                    offset as int,
                ));
            }
        }
        if dead {
            Verdict::Dead
        } else {
            Verdict::Alive
        }
    }
}

} // verus!
