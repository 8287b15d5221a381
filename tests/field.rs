use birdy::config::{
    CENTERED_GAP_POSITION, FIELD_LENGTH, OBSTACLE_COUNT, PAIR_COUNT, SPACING_SCALED,
};
use birdy::obstacles::{
    calc_centered_pipe_position, spawn_obstacle, spawn_obstacles, Obstacle, PipeDirection,
};

fn offsets(pattern: &[i64]) -> Vec<i64> {
    (0..PAIR_COUNT as usize).map(|i| pattern[i % pattern.len()] * 4_000_000).collect()
}

#[test]
fn centered_position_value() {
    assert_eq!(calc_centered_pipe_position(), 348_000_000);
    assert_eq!(CENTERED_GAP_POSITION, (144 / 2 + 15) * 4 * 1_000_000);
}

#[test]
fn spawn_obstacle_keeps_values() {
    let o = spawn_obstacle(3, -4, PipeDirection::Bottom);
    assert_eq!(o, Obstacle { x: 3, y: -4, direction: PipeDirection::Bottom });
    assert_eq!(PipeDirection::Top.sign(), 1);
    assert_eq!(PipeDirection::Bottom.sign(), -1);
}

#[test]
fn spawn_layout() {
    let offs = offsets(&[5, -3, 2]);
    let field = spawn_obstacles(512, &offs);
    assert_eq!(field.obstacles.len() as i64, OBSTACLE_COUNT);
    assert_eq!(field.obstacles[0], Obstacle { x: 256_000_000, y: 368_000_000, direction: PipeDirection::Top });
    assert_eq!(field.obstacles[1], Obstacle { x: 256_000_000, y: -328_000_000, direction: PipeDirection::Bottom });
    assert_eq!(field.obstacles[2].x, 256_000_000 + SPACING_SCALED);
    assert_eq!(field.obstacles[3].y, -348_000_000 - 12_000_000);
    assert_eq!(field.obstacles[81].x, 256_000_000 + 40 * 240_000_000);
}

#[test]
fn spawned_pairs_are_symmetric() {
    let offs = offsets(&[30, -30, 0, 7]);
    let field = spawn_obstacles(640, &offs);
    for i in 0..PAIR_COUNT as usize {
        let top = field.obstacles[2 * i];
        let bottom = field.obstacles[2 * i + 1];
        let o = offs[i];
        assert_eq!(top.y - o, -(bottom.y - o));
        assert_eq!(top.y - bottom.y, 2 * CENTERED_GAP_POSITION);
        assert_eq!(top.x, bottom.x);
        assert_eq!(top.direction, PipeDirection::Top);
        assert_eq!(bottom.direction, PipeDirection::Bottom);
    }
}

#[test]
fn scroll_moves_every_obstacle() {
    let offs = offsets(&[0]);
    let mut field = spawn_obstacles(512, &offs);
    let before = field.clone();
    field.scroll(16, 512, 8_000_000);
    for k in 0..field.obstacles.len() {
        assert_eq!(field.obstacles[k].x, before.obstacles[k].x - 2_400_000);
        assert_eq!(field.obstacles[k].y, before.obstacles[k].y);
    }
}

#[test]
fn scroll_recycles_off_screen_pair() {
    let mut field = spawn_obstacles(512, &offsets(&[1]));
    // leftmost pair just past the recycle threshold after the step
    field.obstacles[0].x = -320_000_000 + 2_400_000 - 1;
    field.obstacles[1].x = -320_000_000 + 2_400_000 - 1;
    // a pair exactly at the threshold is kept
    field.obstacles[2].x = -320_000_000 + 2_400_000;
    field.obstacles[3].x = -320_000_000 + 2_400_000;
    let y2 = field.obstacles[2].y;
    field.scroll(16, 512, -40_000_000);
    assert_eq!(field.obstacles[0].x, -320_000_000 - 1 + FIELD_LENGTH);
    assert_eq!(field.obstacles[1].x, -320_000_000 - 1 + FIELD_LENGTH);
    assert_eq!(field.obstacles[0].y, 348_000_000 - 40_000_000);
    assert_eq!(field.obstacles[1].y, -348_000_000 - 40_000_000);
    assert_eq!(field.obstacles[2].x, -320_000_000);
    assert_eq!(field.obstacles[2].y, y2);
}

#[test]
fn scrolling_one_field_length_keeps_positions_modulo_field_length() {
    let mut field = spawn_obstacles(512, &offsets(&[2, -1]));
    let start: Vec<i64> = field.obstacles.iter().map(|o| o.x).collect();
    // 164 steps of 400 ms scroll 164 * 60 units = one field length
    for _ in 0..164 {
        field.scroll(400, 512, 0);
    }
    let mut recycled = 0;
    for k in 0..field.obstacles.len() {
        let d = field.obstacles[k].x - start[k];
        assert_eq!(d.rem_euclid(FIELD_LENGTH), 0);
        if d == 0 {
            recycled += 1;
        }
    }
    assert!(recycled > 0);
    for k in (1..field.obstacles.len()).step_by(2) {
        assert_eq!(field.obstacles[k].x, field.obstacles[k - 1].x);
        assert_eq!(field.obstacles[k - 1].y - field.obstacles[k].y, 2 * CENTERED_GAP_POSITION);
    }
}
