use vstd::prelude::*;

use crate::config::{
    valid_offset, CENTERED_GAP_POSITION, FIELD_LENGTH, HALF_OBSTACLE_WIDTH, LENGTH_SCALE,
    OBSTACLE_COUNT, PAIR_COUNT, SCROLL_VELOCITY, SPACING_SCALED,
};

verus! {

/// Whether an obstacle is the top or the bottom member of its pair.
#[derive(Clone, Copy, Debug, PartialEq, Eq, Structural)]
pub enum PipeDirection {
    Top,
    Bottom,
}

impl PipeDirection {
    pub open spec fn sign_spec(self) -> int {
        match self {
            PipeDirection::Top => 1,
            PipeDirection::Bottom => -1,
        }
    }

    /// `1` for the top obstacle, `-1` for the bottom one.
    pub fn sign(&self) -> (r: i64)
        ensures
            r == self.sign_spec(),
    {
        match self {
            PipeDirection::Top => 1,
            PipeDirection::Bottom => -1,
        }
    }
}

/// One obstacle of the field.
#[derive(Clone, Copy, Debug, PartialEq, Eq, Structural)]
pub struct Obstacle {
    pub x: i64,
    pub y: i64,
    pub direction: PipeDirection,
}

/// Direction of the obstacle in a given slot of a field: top members stand
/// at even slots, bottom members right after them.
pub open spec fn slot_direction(k: int) -> PipeDirection {
    if k % 2 == 0 {
        PipeDirection::Top
    } else {
        PipeDirection::Bottom
    }
}

/// Horizontal position of pair `pair` in a field spawned for `width`.
pub open spec fn spawn_x(width: int, pair: int) -> int {
    width * LENGTH_SCALE / 2 + pair * SPACING_SCALED
}

/// Vertical position of an obstacle of a direction in a pair with `offset`.
pub open spec fn placed_y(direction: PipeDirection, offset: int) -> int {
    CENTERED_GAP_POSITION * direction.sign_spec() + offset
}

/// `obs` is the field spawned for `width` with one offset per pair.
pub open spec fn is_spawn_of(obs: Seq<Obstacle>, width: int, offsets: Seq<i64>) -> bool {
    &&& obs.len() == OBSTACLE_COUNT
    &&& offsets.len() == PAIR_COUNT
    &&& forall|k: int|
        0 <= k < obs.len() ==> {
            &&& (#[trigger] obs[k]).x == spawn_x(width, k / 2)
            &&& obs[k].direction == slot_direction(k)
            &&& obs[k].y == placed_y(slot_direction(k), offsets[k / 2] as int)
        }
}

/// Each obstacle at an odd slot is the bottom partner of the one before it:
/// same horizontal position, and both placed around one shared offset.
pub open spec fn is_paired(obs: Seq<Obstacle>) -> bool {
    &&& obs.len() == OBSTACLE_COUNT
    &&& forall|k: int| 0 <= k < obs.len() ==> (#[trigger] obs[k]).direction == slot_direction(k)
    &&& forall|k: int|
        0 <= k < obs.len() && k % 2 == 1 ==> {
            &&& (#[trigger] obs[k]).x == obs[k - 1].x
            &&& obs[k - 1].y - CENTERED_GAP_POSITION == obs[k].y + CENTERED_GAP_POSITION
            &&& valid_offset(obs[k].y + CENTERED_GAP_POSITION)
        }
}

/// Whether an obstacle that has scrolled to `x` lies fully left of the viewport.
pub open spec fn off_screen(x: int, width: int) -> bool {
    x + HALF_OBSTACLE_WIDTH < -(width * LENGTH_SCALE / 2)
}

/// Horizontal position after one scroll step of `dt` milliseconds.
pub open spec fn scroll_x(x: int, dt: int, width: int) -> int {
    let moved = x - SCROLL_VELOCITY * dt;
    if off_screen(moved, width) {
        moved + FIELD_LENGTH
    } else {
        moved
    }
}

/// Vertical position after one scroll step with the step's fresh `offset`.
pub open spec fn scroll_y(o: Obstacle, dt: int, width: int, offset: int) -> int {
    if off_screen(o.x - SCROLL_VELOCITY * dt, width) {
        placed_y(o.direction, offset)
    } else {
        o.y as int
    }
}

/// `after` is `before` after one scroll step with the step's `offset`.
pub open spec fn is_scroll_of(
    after: Seq<Obstacle>,
    before: Seq<Obstacle>,
    dt: int,
    width: int,
    offset: int,
) -> bool {
    &&& after.len() == before.len()
    &&& forall|k: int|
        0 <= k < before.len() ==> {
            &&& (#[trigger] after[k]).x == scroll_x(before[k].x as int, dt, width)
            &&& after[k].y == scroll_y(before[k], dt, width, offset)
            &&& after[k].direction == before[k].direction
        }
}

/// Whether one scroll step of `dt` milliseconds keeps every position within `i64`.
pub open spec fn scroll_fits(obs: Seq<Obstacle>, dt: int) -> bool {
    forall|k: int|
        0 <= k < obs.len() ==> i64::MIN <= (#[trigger] obs[k]).x - SCROLL_VELOCITY * dt
            && obs[k].x - SCROLL_VELOCITY * dt + FIELD_LENGTH <= i64::MAX
}

/// The set of obstacles currently in play.
#[derive(Clone, Debug)]
pub struct Field {
    pub obstacles: Vec<Obstacle>,
}

impl Field {
    pub open spec fn view(&self) -> Seq<Obstacle> {
        self.obstacles@
    }

    /// The field is made of direction-paired obstacles.
    pub open spec fn wf(&self) -> bool {
        is_paired(self@)
    }
}

/// Distance from a pair's centre line to the centre of each of its obstacles.
pub fn calc_centered_pipe_position() -> (r: i64)
    ensures
        r == CENTERED_GAP_POSITION,
{
    CENTERED_GAP_POSITION
}

/// One obstacle at the given place.
pub fn spawn_obstacle(x: i64, y: i64, direction: PipeDirection) -> (r: Obstacle)
    ensures
        r == (Obstacle { x, y, direction }),
{
    Obstacle { x, y, direction }
}

/// A fresh field for a viewport `width` units wide: pair `i` stands at
/// `width / 2 + i * SPACING_SCALED`, its top obstacle at
/// `CENTERED_GAP_POSITION + offsets[i]` and its bottom one at
/// `-CENTERED_GAP_POSITION + offsets[i]`.
pub fn spawn_obstacles(width: u32, offsets: &Vec<i64>) -> (r: Field)
    requires
        offsets.len() == PAIR_COUNT,
        forall|i: int| 0 <= i < offsets.len() ==> valid_offset(#[trigger] offsets[i] as int),
    ensures
        is_spawn_of(r@, width as int, offsets@),
        r.wf(),
{
    let mut obstacles: Vec<Obstacle> = Vec::new();
    let half_width: i64 = width as i64 * LENGTH_SCALE / 2;
    let mut i: usize = 0;
    while i < PAIR_COUNT as usize
        invariant
            0 <= i <= PAIR_COUNT,
            offsets.len() == PAIR_COUNT,
            forall|j: int| 0 <= j < offsets.len() ==> valid_offset(#[trigger] offsets[j] as int),
            half_width == width * LENGTH_SCALE / 2,
            obstacles@.len() == 2 * i,
            forall|k: int|
                0 <= k < obstacles@.len() ==> {
                    &&& (#[trigger] obstacles@[k]).x == spawn_x(width as int, k / 2)
                    &&& obstacles@[k].direction == slot_direction(k)
                    &&& obstacles@[k].y == placed_y(slot_direction(k), offsets[k / 2] as int)
                },
        decreases PAIR_COUNT - i,
    {
        let offset: i64 = offsets[i];
        let x: i64 = half_width + i as i64 * SPACING_SCALED;
        let top: i64 = calc_centered_pipe_position() + offset;
        let bottom: i64 = -calc_centered_pipe_position() + offset;
        obstacles.push(spawn_obstacle(x, top, PipeDirection::Top));
        obstacles.push(spawn_obstacle(x, bottom, PipeDirection::Bottom));
        i = i + 1;
    }
    let r = Field { obstacles };
    assert forall|k: int| 0 <= k < r@.len() && k % 2 == 1 implies {
        &&& (#[trigger] r@[k]).x == r@[k - 1].x
        &&& r@[k - 1].y - CENTERED_GAP_POSITION == r@[k].y + CENTERED_GAP_POSITION
        &&& valid_offset(r@[k].y + CENTERED_GAP_POSITION)
    } by {
        assert(r@[k - 1] == r@[k - 1]);
        assert((k - 1) / 2 == k / 2);
    }
    r
}

/// One obstacle after a scroll step; see `scroll_x` and `scroll_y`.
fn scroll_obstacle(o: Obstacle, dt: u32, width: u32, offset: i64) -> (r: Obstacle)
    requires
        i64::MIN <= o.x - SCROLL_VELOCITY * dt,
        o.x - SCROLL_VELOCITY * dt + FIELD_LENGTH <= i64::MAX,
        valid_offset(offset as int),
    ensures
        r.x == scroll_x(o.x as int, dt as int, width as int),
        r.y == scroll_y(o, dt as int, width as int, offset as int),
        r.direction == o.direction,
{
    let moved: i64 = o.x - SCROLL_VELOCITY * dt as i64;
    let left_edge: i64 = -(width as i64 * LENGTH_SCALE / 2);
    if moved + HALF_OBSTACLE_WIDTH < left_edge {
        let y: i64 = match o.direction {
            PipeDirection::Top => calc_centered_pipe_position() + offset,
            PipeDirection::Bottom => -calc_centered_pipe_position() + offset,
        };
        Obstacle { x: moved + FIELD_LENGTH, y, direction: o.direction }
    } else {
        Obstacle { x: moved, y: o.y, direction: o.direction }
    }
}

/// Scrolling a paired field obstacle by obstacle keeps it paired: partners
/// share their position, so they are recycled together and around the same
/// offset.
proof fn lemma_scroll_keeps_pairs(
    start: Seq<Obstacle>,
    end: Seq<Obstacle>,
    dt: int,
    width: int,
    offset: int,
)
    requires
        is_paired(start),
        valid_offset(offset),
        end.len() == start.len(),
        forall|k: int|
            0 <= k < start.len() ==> {
                &&& (#[trigger] end[k]).x == scroll_x(start[k].x as int, dt, width)
                &&& end[k].y == scroll_y(start[k], dt, width, offset)
                &&& end[k].direction == start[k].direction
            },
    ensures
        is_paired(end),
{
    assert forall|j: int| 0 <= j < end.len() && j % 2 == 1 implies {
        &&& (#[trigger] end[j]).x == end[j - 1].x
        &&& end[j - 1].y - CENTERED_GAP_POSITION == end[j].y + CENTERED_GAP_POSITION
        &&& valid_offset(end[j].y + CENTERED_GAP_POSITION)
    } by {
        assert(start[j].x == start[j - 1].x);
        assert(end[j - 1] == end[j - 1]);
        assert(start[j - 1] == start[j - 1]);
        assert(slot_direction(j - 1) == PipeDirection::Top);
    }
    assert forall|j: int| 0 <= j < end.len() implies (#[trigger] end[j]).direction
        == slot_direction(j) by {
        assert(start[j].direction == slot_direction(j));
    }
}

impl Field {
    /// Scrolls every obstacle left by `SCROLL_VELOCITY * dt`. An obstacle
    /// that ends fully left of the viewport jumps forward by `FIELD_LENGTH`
    /// and is placed anew around `offset`, drawn once for the whole step.
    pub fn scroll(&mut self, dt: u32, width: u32, offset: i64)
        requires
            scroll_fits(old(self)@, dt as int),
            valid_offset(offset as int),
        ensures
            is_scroll_of(final(self)@, old(self)@, dt as int, width as int, offset as int),
            old(self).wf() ==> final(self).wf(),
    {
        let ghost start = self@;
        let mut k: usize = 0;
        while k < self.obstacles.len()
            invariant
                0 <= k <= self@.len(),
                self@.len() == start.len(),
                scroll_fits(start, dt as int),
                valid_offset(offset as int),
                forall|j: int|
                    0 <= j < k ==> {
                        &&& (#[trigger] self@[j]).x == scroll_x(
                            start[j].x as int,
                            dt as int,
                            width as int,
                        )
                        &&& self@[j].y == scroll_y(start[j], dt as int, width as int, offset as int)
                        &&& self@[j].direction == start[j].direction
                    },
                forall|j: int| k <= j < self@.len() ==> #[trigger] self@[j] == start[j],
            decreases self@.len() - k,
        {
            let o: Obstacle = self.obstacles[k];
            assert(o == start[k as int]);
            let moved = scroll_obstacle(o, dt, width, offset);
            self.obstacles.set(k, moved);
            k = k + 1;
        }
        proof {
            if is_paired(start) {
                lemma_scroll_keeps_pairs(start, self@, dt as int, width as int, offset as int);
            }
        }
    }
}

} // verus!
