use birdy::config::PAIR_COUNT;
use birdy::flyer::Flyer;
use birdy::game::{
    check_death, collides_with, hits_boundary, update_bird, update_obstacles, Game, LevelError,
    Verdict, Viewport,
};
use birdy::obstacles::{spawn_obstacles, Obstacle, PipeDirection};
use birdy::random::{generate_offset, generate_offsets, offset_of_draw, setup_level};
use birdy::window::{create_window, PresentMode};
use rand::rngs::StdRng;
use rand::SeedableRng;

fn offsets(pattern: &[i64]) -> Vec<i64> {
    (0..PAIR_COUNT as usize).map(|i| pattern[i % pattern.len()] * 4_000_000).collect()
}

fn at(y: i64) -> Flyer {
    Flyer { x: 0, y, velocity: 0 }
}

#[test]
fn death_boundary_concrete_case() {
    let none: Vec<Obstacle> = Vec::new();
    assert!(check_death(&at(-257_000_000), &none, 512));
    assert!(!check_death(&at(-255_000_000), &none, 512));
    assert!(check_death(&at(-256_000_000), &none, 512));
    assert!(hits_boundary(&at(-256_000_000), 512));
    assert!(!hits_boundary(&at(-255_999_999), 512));
    assert!(!check_death(&at(1_000_000_000_000), &none, 512));
}

#[test]
fn collision_boundary_concrete_case() {
    let o = Obstacle { x: 0, y: 0, direction: PipeDirection::Top };
    let fl = |x: i64, y: i64| Flyer { x, y, velocity: 0 };
    assert!(collides_with(&o, &fl(63_000_000, 0)));
    assert!(!collides_with(&o, &fl(64_000_000, 0)));
    assert!(!collides_with(&o, &fl(65_000_000, 0)));
    assert!(collides_with(&o, &fl(-63_000_000, 0)));
    assert!(collides_with(&o, &fl(0, 287_000_000)));
    assert!(collides_with(&o, &fl(0, 287_900_000)));
    assert!(!collides_with(&o, &fl(0, 288_000_000)));
    assert!(!collides_with(&o, &fl(0, -289_000_000)));
    let bottom = Obstacle { x: 0, y: 0, direction: PipeDirection::Bottom };
    assert!(collides_with(&bottom, &fl(63_000_000, 0)));
    assert!(check_death(&fl(63_000_000, 0), &vec![o], 512));
    assert!(!check_death(&fl(65_000_000, 0), &vec![o], 512));
}

#[test]
fn new_game_and_empty_viewport() {
    let offs = offsets(&[5, -3, 2]);
    let g = Game::new(512, 512, &offs).unwrap();
    assert_eq!(g.flyer, Flyer { x: 0, y: 0, velocity: 0 });
    assert_eq!(g.viewport, Viewport { width: 512, height: 512 });
    assert_eq!(g.field.obstacles.len(), 82);
    assert!(matches!(Game::new(0, 512, &offs), Err(LevelError::EmptyViewport)));
    assert!(matches!(Game::new(512, 0, &offs), Err(LevelError::EmptyViewport)));
}

#[test]
fn reset_idempotence() {
    let mut g = Game::new(512, 512, &offsets(&[1])).unwrap();
    g.flyer = Flyer { x: 0, y: -400_000_000, velocity: -90_000 };
    let second = offsets(&[-4, 9]);
    g.handle_death(&second);
    let once = g.clone();
    g.handle_death(&second);
    assert_eq!(g.flyer, Flyer { x: 0, y: 0, velocity: 0 });
    assert_eq!(g.flyer, once.flyer);
    assert_eq!(g.field.obstacles, once.field.obstacles);
    assert_eq!(g.field.obstacles, spawn_obstacles(512, &second).obstacles);
}

#[test]
fn update_bird_reports_death_and_respawns() {
    let mut g = Game::new(512, 512, &offsets(&[0])).unwrap();
    g.flyer = Flyer { x: 0, y: -255_900_000, velocity: 0 };
    let fresh = offsets(&[3]);
    assert_eq!(update_bird(&mut g, 16, false, &fresh), Verdict::Dead);
    assert_eq!(g.flyer, Flyer { x: 0, y: 0, velocity: 0 });
    assert_eq!(g.field.obstacles[0].y, 348_000_000 + 12_000_000);
    assert!(!g.is_dead());
    assert_eq!(update_bird(&mut g, 16, true, &fresh), Verdict::Alive);
    assert_eq!(g.flyer.velocity, 468_000);
}

#[test]
fn collision_with_obstacle_kills() {
    let mut g = Game::new(512, 512, &offsets(&[0])).unwrap();
    g.field.obstacles[1].x = 10_000_000;
    g.field.obstacles[1].y = -20_000_000;
    assert!(g.is_dead());
    let fresh = offsets(&[1]);
    assert_eq!(update_bird(&mut g, 0, false, &fresh), Verdict::Dead);
    assert_eq!(g.field.obstacles[1].x, 256_000_000);
}

#[test]
fn update_obstacles_scrolls_field_only() {
    let mut g = Game::new(512, 512, &offsets(&[0])).unwrap();
    g.flyer.velocity = 5;
    update_obstacles(&mut g, 16, 0);
    assert_eq!(g.field.obstacles[0].x, 256_000_000 - 2_400_000);
    assert_eq!(g.flyer.velocity, 5);
}

#[test]
fn end_to_end_scenario() {
    let mut g = Game::new(512, 512, &offsets(&[5, -3, 2])).unwrap();
    let respawn = offsets(&[-7, 4]);
    let mut died_at = 0;
    for step in 1..=200 {
        let mut probe = g.clone();
        let verdict_bird = update_bird(&mut probe, 16, false, &respawn);
        let verdict = g.step(16, false, &respawn, 0);
        assert_eq!(verdict, verdict_bird);
        if verdict == Verdict::Dead {
            died_at = step;
            // right after the death check the field is a fresh spawn
            assert_eq!(probe.field.obstacles[0].x, 256_000_000);
            assert_eq!(probe.field.obstacles[0].y, 348_000_000 - 28_000_000);
            assert_eq!(probe.field.obstacles[1].y, -348_000_000 - 28_000_000);
            break;
        }
    }
    // y after n steps is -512_000 * n * (n + 1) / 2; 32 is the first n at or below -256 units
    assert_eq!(died_at, 32);
    assert_eq!(g.flyer, Flyer { x: 0, y: 0, velocity: 0 });
    // the step's scroll runs after the respawn
    assert_eq!(g.field.obstacles[0].x, 256_000_000 - 2_400_000);
    assert_eq!(g.field.obstacles[2].y, 348_000_000 + 16_000_000);
}

#[test]
fn generated_offsets_are_in_range_and_vary() {
    let mut rng = StdRng::seed_from_u64(7);
    let mut seen_other = false;
    for _ in 0..200 {
        let o = generate_offset(&mut rng);
        assert!((-120_000_000..=120_000_000).contains(&o));
        assert_eq!(o % 4_000_000, 0);
        if o != -120_000_000 {
            seen_other = true;
        }
    }
    assert!(seen_other);
    let all = generate_offsets(&mut rng);
    assert_eq!(all.len(), 41);
}

#[test]
fn setup_level_with_rng() {
    let mut rng = StdRng::seed_from_u64(1);
    let g = setup_level(512, 384, &mut rng).unwrap();
    assert_eq!(g.flyer, Flyer { x: 0, y: 0, velocity: 0 });
    assert_eq!(g.field.obstacles[4].x, 256_000_000 + 2 * 240_000_000);
    let top = g.field.obstacles[4];
    let bottom = g.field.obstacles[5];
    assert_eq!(top.y - bottom.y, 696_000_000);
    assert!(matches!(setup_level(0, 10, &mut rng), Err(LevelError::EmptyViewport)));
}

#[test]
fn step_with_rng_runs_until_death() {
    let mut rng = StdRng::seed_from_u64(3);
    let mut g = setup_level(512, 512, &mut rng).unwrap();
    let mut deaths = 0;
    for _ in 0..64 {
        if g.step_with_rng(&mut rng, 16, false) == Verdict::Dead {
            deaths += 1;
        }
    }
    assert_eq!(deaths, 2);
    for k in (1..g.field.obstacles.len()).step_by(2) {
        assert_eq!(g.field.obstacles[k].x, g.field.obstacles[k - 1].x);
    }
}

#[test]
fn window_settings() {
    let w = create_window();
    assert_eq!(w.side, 512);
    assert!(w.resizable);
    assert!(w.centered);
    assert_eq!(w.title, "Birdy");
    assert_eq!(w.present_mode, PresentMode::AutoNoVsync);
}

#[test]
fn offset_of_draw_scales() {
    assert_eq!(offset_of_draw(30), 120_000_000);
    assert_eq!(offset_of_draw(-30), -120_000_000);
    assert_eq!(offset_of_draw(0), 0);
    assert_eq!(offset_of_draw(5), 20_000_000);
}

#[test]
fn failed_setup_draws_nothing() {
    let mut a = StdRng::seed_from_u64(11);
    let mut b = StdRng::seed_from_u64(11);
    assert!(matches!(setup_level(512, 0, &mut a), Err(LevelError::EmptyViewport)));
    assert_eq!(generate_offset(&mut a), generate_offset(&mut b));
}

#[test]
fn surviving_step_draws_one_offset() {
    let mut a = StdRng::seed_from_u64(5);
    let mut b = StdRng::seed_from_u64(5);
    let mut g = Game::new(512, 512, &offsets(&[0])).unwrap();
    assert_eq!(g.step_with_rng(&mut a, 16, false), Verdict::Alive);
    generate_offset(&mut b);
    assert_eq!(generate_offset(&mut a), generate_offset(&mut b));
}
