//! Properties that relate several calls of the simulation.
use vstd::prelude::*;

use crate::config::{
    CENTERED_GAP_POSITION, FIELD_LENGTH, FLAP_VELOCITY, GRAVITY_ACCEL, MAX_ROTATION, OBSTACLE_COUNT,
    PAIR_COUNT, SCROLL_VELOCITY,
};
use crate::flyer::{raw_rotation, rotation_of};
use crate::game::{is_bird_update, is_death_handling, Game, Verdict};
use crate::obstacles::{is_scroll_of, is_spawn_of, scroll_x, spawn_x, Obstacle};

verus! {

/// Horizontal position of an obstacle after scroll steps of `dts` milliseconds each.
pub open spec fn scroll_x_run(x: int, dts: Seq<u32>, width: int) -> int
    decreases dts.len(),
{
    if dts.len() == 0 {
        x
    } else {
        scroll_x_run(scroll_x(x, dts[0] as int, width), dts.drop_first(), width)
    }
}

/// Distance scrolled over steps of `dts` milliseconds each.
pub open spec fn total_scroll(dts: Seq<u32>) -> int
    decreases dts.len(),
{
    if dts.len() == 0 {
        0
    } else {
        SCROLL_VELOCITY * dts[0] + total_scroll(dts.drop_first())
    }
}

proof fn lemma_run_shift(x: int, dts: Seq<u32>, width: int) -> (n: int)
    ensures
        scroll_x_run(x, dts, width) == x - total_scroll(dts) + n * FIELD_LENGTH,
    decreases dts.len(),
{
    if dts.len() == 0 {
        0
    } else {
        let next = scroll_x(x, dts[0] as int, width);
        let m: int = if next == x - SCROLL_VELOCITY * dts[0] {
            0
        } else {
            1
        };
        let rest = lemma_run_shift(next, dts.drop_first(), width);
        assert((m + rest) * FIELD_LENGTH == m * FIELD_LENGTH + rest * FIELD_LENGTH) by (
        nonlinear_arith);
        m + rest
    }
}

/// Recycling never changes where an obstacle stands modulo the field length:
/// after any run of scroll steps, its position is congruent to its start
/// minus the distance scrolled. So after scrolling exactly one field length
/// it is back at a position congruent to its start.
pub proof fn lemma_recycle_round_trip(x: int, dts: Seq<u32>, width: int)
    ensures
        (scroll_x_run(x, dts, width) - (x - total_scroll(dts))) % (FIELD_LENGTH as int) == 0,
        total_scroll(dts) == FIELD_LENGTH ==> (scroll_x_run(x, dts, width) - x) % (FIELD_LENGTH as int)
            == 0,
{
    let n = lemma_run_shift(x, dts, width);
    vstd::arithmetic::div_mod::lemma_mod_multiples_basic(n, FIELD_LENGTH as int);
    if total_scroll(dts) == FIELD_LENGTH {
        assert(n * FIELD_LENGTH - FIELD_LENGTH == (n - 1) * FIELD_LENGTH) by (nonlinear_arith);
        vstd::arithmetic::div_mod::lemma_mod_multiples_basic(n - 1, FIELD_LENGTH as int);
    }
}

/// In a freshly spawned field the two obstacles of each pair stand at the
/// same position, mirror each other around the pair's offset and are
/// `2 * CENTERED_GAP_POSITION` apart.
pub proof fn lemma_pair_symmetry(obs: Seq<Obstacle>, width: int, offsets: Seq<i64>, i: int)
    requires
        is_spawn_of(obs, width, offsets),
        0 <= i < PAIR_COUNT,
    ensures
        obs[2 * i].y - offsets[i] == -(obs[2 * i + 1].y - offsets[i]),
        obs[2 * i].y - obs[2 * i + 1].y == 2 * CENTERED_GAP_POSITION,
        obs[2 * i].x == obs[2 * i + 1].x,
{
    assert((2 * i) / 2 == i);
    assert((2 * i + 1) / 2 == i);
    assert(obs[2 * i] == obs[2 * i]);
    assert(obs[2 * i + 1] == obs[2 * i + 1]);
}

/// A spawn is determined by the width and the offsets.
proof fn lemma_spawn_unique(a: Seq<Obstacle>, b: Seq<Obstacle>, width: int, offsets: Seq<i64>)
    requires
        is_spawn_of(a, width, offsets),
        is_spawn_of(b, width, offsets),
    ensures
        a == b,
{
    assert forall|k: int| 0 <= k < a.len() implies a[k] == b[k] by {
        assert(a[k] == a[k]);
        assert(b[k] == b[k]);
    }
    assert(a =~= b);
}

/// Handling a death twice in a row leaves the flyer in the one reset
/// state, not a compounded one; the field is the fresh one of the second
/// handling, and with the same offsets the very same as after the first.
pub proof fn lemma_reset_idempotent(
    g0: Game,
    g1: Game,
    g2: Game,
    first: Seq<i64>,
    second: Seq<i64>,
)
    requires
        is_death_handling(g1, g0, first),
        is_death_handling(g2, g1, second),
    ensures
        g2.flyer == g1.flyer,
        g2.flyer.is_reset(),
        g2.viewport == g0.viewport,
        is_spawn_of(g2.field@, g0.viewport.width as int, second),
        first == second ==> g2.field@ == g1.field@,
{
    if first == second {
        lemma_spawn_unique(g2.field@, g1.field@, g0.viewport.width as int, first);
    }
}

/// Without a flap, a step the flyer survives lowers its velocity by exactly
/// `GRAVITY_ACCEL * dt`, whatever the velocity was, and moves it by the new
/// velocity.
pub proof fn lemma_gravity_step(
    after: Game,
    before: Game,
    dt: u32,
    respawn_offsets: Seq<i64>,
    r: Verdict,
)
    requires
        before.flyer.step_fits(dt as int, false),
        is_bird_update(after, before, dt as int, false, respawn_offsets, r),
        r == Verdict::Alive,
    ensures
        after.flyer.velocity == before.flyer.velocity - GRAVITY_ACCEL * dt,
        after.flyer.y == before.flyer.y + after.flyer.velocity * dt,
        after.flyer.x == before.flyer.x,
{
}

/// A flap replaces the velocity before gravity acts: a step the flyer
/// survives ends at `FLAP_VELOCITY - GRAVITY_ACCEL * dt`, whatever the
/// velocity was.
pub proof fn lemma_flap_step(
    after: Game,
    before: Game,
    dt: u32,
    respawn_offsets: Seq<i64>,
    r: Verdict,
)
    requires
        before.flyer.step_fits(dt as int, true),
        is_bird_update(after, before, dt as int, true, respawn_offsets, r),
        r == Verdict::Alive,
    ensures
        after.flyer.velocity == FLAP_VELOCITY - GRAVITY_ACCEL * dt,
        after.flyer.y == before.flyer.y + after.flyer.velocity * dt,
{
}

/// The shown rotation never leaves a quarter turn either way, and inside
/// that range it is the rotation the velocity implies.
pub proof fn lemma_rotation_clamp(velocity: int)
    ensures
        -MAX_ROTATION <= rotation_of(velocity) <= MAX_ROTATION,
        -MAX_ROTATION < raw_rotation(velocity) < MAX_ROTATION ==> rotation_of(velocity)
            == raw_rotation(velocity),
{
}

/// However many causes of death a step has, the flyer ends in the one reset
/// state and the field is a single fresh spawn of `OBSTACLE_COUNT` obstacles.
pub proof fn lemma_death_resets_once(
    after: Game,
    before: Game,
    dt: int,
    flap: bool,
    respawn_offsets: Seq<i64>,
    r: Verdict,
)
    requires
        is_bird_update(after, before, dt, flap, respawn_offsets, r),
        r == Verdict::Dead,
    ensures
        after.flyer.is_reset(),
        after.field@.len() == OBSTACLE_COUNT,
        is_spawn_of(after.field@, before.viewport.width as int, respawn_offsets),
{
}

/// Positions along the runs of scroll steps that `fields` records.
pub open spec fn is_scroll_run(
    fields: Seq<Seq<Obstacle>>,
    dts: Seq<u32>,
    width: int,
    offsets: Seq<i64>,
) -> bool {
    &&& fields.len() == dts.len() + 1
    &&& offsets.len() == dts.len()
    &&& forall|i: int|
        0 <= i < dts.len() ==> is_scroll_of(
            fields[i + 1],
            #[trigger] fields[i],
            dts[i] as int,
            width,
            offsets[i] as int,
        )
}

proof fn lemma_scroll_run_follows_x(
    fields: Seq<Seq<Obstacle>>,
    dts: Seq<u32>,
    width: int,
    offsets: Seq<i64>,
    k: int,
)
    requires
        is_scroll_run(fields, dts, width, offsets),
        0 <= k < fields[0].len(),
    ensures
        fields.last().len() == fields[0].len(),
        fields.last()[k].x == scroll_x_run(fields[0][k].x as int, dts, width),
    decreases dts.len(),
{
    if dts.len() > 0 {
        let rest = fields.drop_first();
        assert(fields[0] == fields[0]);
        assert forall|i: int| 0 <= i < dts.drop_first().len() implies is_scroll_of(
            rest[i + 1],
            #[trigger] rest[i],
            dts.drop_first()[i] as int,
            width,
            offsets.drop_first()[i] as int,
        ) by {
            assert(is_scroll_of(
                fields[i + 2],
                fields[i + 1],
                dts[i + 1] as int,
                width,
                offsets[i + 1] as int,
            ));
        }
        assert(fields[1][k] == fields[1][k]);
        lemma_scroll_run_follows_x(rest, dts.drop_first(), width, offsets.drop_first(), k);
    }
}

/// Over any run of scroll steps of a whole field (each as `Field::scroll`
/// makes it), every obstacle ends congruent, modulo the field length, to
/// its start minus the distance scrolled; after exactly one field length,
/// congruent to its start.
pub proof fn lemma_field_round_trip(
    fields: Seq<Seq<Obstacle>>,
    dts: Seq<u32>,
    width: int,
    offsets: Seq<i64>,
    k: int,
)
    requires
        is_scroll_run(fields, dts, width, offsets),
        0 <= k < fields[0].len(),
    ensures
        (fields.last()[k].x - (fields[0][k].x - total_scroll(dts))) % (FIELD_LENGTH as int) == 0,
        total_scroll(dts) == FIELD_LENGTH ==> (fields.last()[k].x - fields[0][k].x) % (
        FIELD_LENGTH as int) == 0,
{
    lemma_scroll_run_follows_x(fields, dts, width, offsets, k);
    lemma_recycle_round_trip(fields[0][k].x as int, dts, width);
}

/// A respawned field stands where the first one stood: for the same width,
/// two spawns agree on every obstacle's position and direction, with the
/// leading pair at half the width; only the heights follow the offsets.
pub proof fn lemma_respawn_layout(
    first: Seq<Obstacle>,
    again: Seq<Obstacle>,
    width: int,
    first_offsets: Seq<i64>,
    again_offsets: Seq<i64>,
)
    requires
        is_spawn_of(first, width, first_offsets),
        is_spawn_of(again, width, again_offsets),
    ensures
        again.len() == first.len(),
        again[0].x == spawn_x(width, 0),
        forall|k: int|
            0 <= k < first.len() ==> (#[trigger] again[k]).x == first[k].x && again[k].direction
                == first[k].direction,
{
    assert(again[0] == again[0]);
    assert forall|k: int| 0 <= k < first.len() implies (#[trigger] again[k]).x == first[k].x
        && again[k].direction == first[k].direction by {
        assert(first[k] == first[k]);
    }
}

} // verus!
