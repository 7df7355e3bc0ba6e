use space_shooter::geometry::{heading, isqrt, rescale, within, Point};
use space_shooter::loader::{rotate_bullet_on_startup, BulletLoad, BulletLoadAction};
use space_shooter::image::RgbaImage;
use space_shooter::movement::PlayerController;
use space_shooter::spawn::{
    asteroid_from_draws, spawn_coordinate, EXCLUSION_HALF_X, EXCLUSION_HALF_Y,
};
use space_shooter::state::{initialize_game_state, GameState};
use space_shooter::timer::RepeatTimer;
use space_shooter::world::{
    Asteroid, Bullet, GameEntity, Player, World, FIRE_PERIOD_US, HIT_RADIUS, PLAYER_HP, SPAWN_PERIOD_US,
};

fn p(x: i64, y: i64) -> Point {
    Point { x, y }
}

fn rock(x: i64, y: i64) -> Asteroid {
    Asteroid { position: p(x, y), vel: p(0, 0), angular_velocity: 0 }
}

fn shot(x: i64, y: i64) -> Bullet {
    Bullet { position: p(x, y), facing: p(0, 1000), speed: 500 }
}

fn pad() -> PlayerController {
    PlayerController {
        right_x: 0,
        right_y: 0,
        left_x: 0,
        left_y: 0,
        fire_held: false,
        restart_pressed: false,
    }
}

fn entity_count(w: &World) -> usize {
    w.game_entities().len()
}

#[test]
fn new_world_is_playing_with_a_fresh_player() {
    let w = World::new();
    assert_eq!(w.state, GameState::Playing);
    let pl = w.player.unwrap();
    assert_eq!(pl.hp, PLAYER_HP);
    assert_eq!(pl.hp, 4);
    assert_eq!(pl.position, p(0, 0));
    assert!(w.bullets.is_empty() && w.asteroids.is_empty());
    assert_eq!(w.spawn_timer.0, RepeatTimer { period_us: 1_000_000, elapsed_us: 0 });
    assert_eq!(w.fire_rate.0, RepeatTimer { period_us: 150_000, elapsed_us: 0 });
}

#[test]
fn collision_boundary_is_strict_at_thirty_units() {
    assert!(within(p(0, 0), p(29_900, 0), HIT_RADIUS));
    assert!(!within(p(0, 0), p(30_100, 0), HIT_RADIUS));
    assert!(!within(p(0, 0), p(30_000, 0), HIT_RADIUS));
    assert!(within(p(0, 0), p(21_000, 21_000), HIT_RADIUS));
    assert!(!within(p(0, 0), p(21_300, 21_300), HIT_RADIUS));
    assert!(!within(p(i64::MIN, 0), p(i64::MAX, 0), HIT_RADIUS));
}

#[test]
fn bullet_and_asteroid_in_reach_destroy_each_other() {
    let mut w = World::new();
    w.asteroids = vec![rock(0, 100_000), rock(500_000, 0)];
    w.bullets = vec![shot(29_900, 100_000), shot(-400_000, 0)];
    w.bullet_hits_asteroid();
    assert_eq!(w.asteroids, vec![rock(500_000, 0)]);
    assert_eq!(w.bullets, vec![shot(-400_000, 0)]);
}

#[test]
fn bullet_and_asteroid_just_out_of_reach_survive() {
    let mut w = World::new();
    w.asteroids = vec![rock(0, 100_000)];
    w.bullets = vec![shot(30_100, 100_000)];
    w.bullet_hits_asteroid();
    assert_eq!(w.asteroids.len(), 1);
    assert_eq!(w.bullets.len(), 1);
}

#[test]
fn one_bullet_destroys_every_asteroid_in_reach() {
    let mut w = World::new();
    w.asteroids = vec![rock(0, 0), rock(10_000, 0), rock(100_000, 0)];
    w.bullets = vec![shot(5_000, 0)];
    w.bullet_hits_asteroid();
    assert_eq!(w.asteroids, vec![rock(100_000, 0)]);
    assert!(w.bullets.is_empty());
}

#[test]
fn player_with_one_hp_dies_on_first_hit() {
    let mut w = World::new();
    w.player = Some(Player { hp: 1, ..w.player.unwrap() });
    w.asteroids = vec![rock(29_900, 0)];
    assert_eq!(w.despawn_asteroid(), Some(0));
    assert_eq!(w.state, GameState::GameOver);
    assert!(w.player.is_none());
    assert!(w.asteroids.is_empty());
    assert!(w.game_over_text);
}

#[test]
fn player_with_four_hp_needs_four_hits() {
    let mut w = World::new();
    for hit in 1..=4 {
        w.asteroids.push(rock(0, 10_000));
        assert_eq!(w.despawn_asteroid(), Some(0));
        if hit < 4 {
            assert_eq!(w.state, GameState::Playing);
            assert_eq!(w.player.unwrap().hp, 4 - hit);
        } else {
            assert_eq!(w.state, GameState::GameOver);
            assert!(w.player.is_none());
        }
    }
}

#[test]
fn only_the_first_asteroid_in_reach_is_taken_per_frame() {
    let mut w = World::new();
    w.asteroids = vec![rock(200_000, 0), rock(0, 20_000), rock(0, -20_000)];
    assert_eq!(w.despawn_asteroid(), Some(1));
    assert_eq!(w.asteroids, vec![rock(200_000, 0), rock(0, -20_000)]);
    assert_eq!(w.player.unwrap().hp, 3);
}

#[test]
fn asteroid_out_of_reach_does_no_harm() {
    let mut w = World::new();
    w.asteroids = vec![rock(30_100, 0)];
    assert_eq!(w.despawn_asteroid(), None);
    assert_eq!(w.asteroids.len(), 1);
    assert_eq!(w.player.unwrap().hp, 4);
    let mut empty = World::new();
    empty.player = None;
    empty.asteroids = vec![rock(0, 0)];
    assert_eq!(empty.despawn_asteroid(), None);
    assert_eq!(empty.asteroids.len(), 1);
}

#[test]
fn restart_from_game_over_starts_a_clean_game() {
    let mut w = World::new();
    w.state = GameState::GameOver;
    w.player = None;
    w.game_over_text = true;
    w.asteroids = vec![rock(1, 2), rock(3, 4)];
    w.bullets = vec![shot(5, 6)];
    w.spawn_timer.0.tick(400_000);
    w.fire_rate.0.tick(100_000);
    w.restart_on_o(true);
    assert_eq!(w.state, GameState::Playing);
    assert!(w.asteroids.is_empty() && w.bullets.is_empty() && !w.game_over_text);
    assert_eq!(w.player.unwrap().hp, 4);
    assert_eq!(w.spawn_timer.0.elapsed_us, 0);
    assert_eq!(w.fire_rate.0.elapsed_us, 0);
}

#[test]
fn restart_needs_game_over_and_the_button() {
    let mut w = World::new();
    w.state = GameState::GameOver;
    w.asteroids = vec![rock(1, 2)];
    w.restart_on_o(false);
    assert_eq!(w.state, GameState::GameOver);
    assert_eq!(w.asteroids.len(), 1);
    let mut playing = World::new();
    playing.asteroids = vec![rock(1, 2)];
    playing.restart_on_o(true);
    assert_eq!(playing.asteroids.len(), 1);
}

#[test]
fn cleanup_twice_leaves_nothing_both_times() {
    let mut w = World::new();
    w.asteroids = vec![rock(1, 2)];
    w.bullets = vec![shot(5, 6), shot(7, 8)];
    w.game_over_text = true;
    w.spawn_timer.0.tick(300);
    w.cleanup_game();
    assert_eq!(entity_count(&w), 0);
    assert_eq!(w.spawn_timer.0.elapsed_us, 0);
    w.cleanup_game();
    assert_eq!(entity_count(&w), 0);
    assert_eq!(w.spawn_timer.0, RepeatTimer { period_us: SPAWN_PERIOD_US, elapsed_us: 0 });
    assert_eq!(w.fire_rate.0, RepeatTimer { period_us: FIRE_PERIOD_US, elapsed_us: 0 });
}

#[test]
fn game_entities_lists_every_tagged_entity() {
    let mut w = World::new();
    w.bullets = vec![shot(5, 6), shot(7, 8)];
    w.asteroids = vec![rock(1, 2)];
    w.game_over_text = true;
    assert_eq!(
        w.game_entities(),
        vec![
            GameEntity::Player,
            GameEntity::Bullet(0),
            GameEntity::Bullet(1),
            GameEntity::Asteroid(0),
            GameEntity::GameOverText,
        ]
    );
    w.player = None;
    w.game_over_text = false;
    assert_eq!(w.game_entities(), vec![GameEntity::Bullet(0), GameEntity::Bullet(1), GameEntity::Asteroid(0)]);
}

#[test]
fn repeating_timer_carries_the_remainder() {
    let mut t = RepeatTimer::from_micros(1_000_000);
    assert!(!t.tick(400_000));
    assert_eq!(t.elapsed_us, 400_000);
    assert!(t.tick(700_000));
    assert_eq!(t.elapsed_us, 100_000);
    assert!(t.tick(2_950_000));
    assert_eq!(t.elapsed_us, 50_000);
    assert!(t.tick(u64::MAX));
    assert_eq!(t.elapsed_us, 601_615);
    t.reset();
    assert_eq!(t.elapsed_us, 0);
}

#[test]
fn right_stick_moves_three_units_per_tick() {
    let mut w = World::new();
    w.move_player(Some(PlayerController { right_x: 1000, right_y: -500, ..pad() }));
    assert_eq!(w.player.unwrap().position, p(3_000, -1_500));
    w.move_player(None);
    assert_eq!(w.player.unwrap().position, p(3_000, -1_500));
}

#[test]
fn left_stick_turns_the_ship_past_the_dead_zone() {
    let mut w = World::new();
    w.aim(Some(PlayerController { left_x: 1000, left_y: 1000, ..pad() }));
    assert_eq!(w.player.unwrap().facing, p(707, 707));
    w.aim(Some(PlayerController { left_x: -100, left_y: 0, ..pad() }));
    assert_eq!(w.player.unwrap().facing, p(707, 707));
    w.aim(Some(PlayerController { left_x: -101, left_y: 0, ..pad() }));
    assert_eq!(w.player.unwrap().facing, p(-1000, 0));
}

#[test]
fn bullets_fly_along_their_facing() {
    let mut w = World::new();
    w.bullets = vec![shot(0, 0), Bullet { position: p(0, 0), facing: p(-707, 707), speed: 500 }];
    w.move_bullet(1_000_000);
    assert_eq!(w.bullets[0].position, p(0, 500_000));
    assert_eq!(w.bullets[1].position, p(-353_500, 353_500));
    w.move_bullet(16_667);
    assert_eq!(w.bullets[0].position, p(0, 508_333));
}

#[test]
fn asteroids_home_in_on_the_player() {
    let mut w = World::new();
    w.asteroids = vec![rock(100_000, 0), rock(300_000, 150_000)];
    w.move_asteroids(500_000);
    assert_eq!(w.asteroids[0].position, p(50_000, 0));
    assert_eq!(w.asteroids[1].position, p(300_000 - 44_721, 150_000 - 22_360));
    w.player = None;
    w.move_asteroids(500_000);
    assert_eq!(w.asteroids[0].position, p(50_000, 0));
}

#[test]
fn firing_is_gated_by_the_fire_rate() {
    let mut w = World::new();
    let trigger = PlayerController { fire_held: true, ..pad() };
    assert!(!w.shoot(Some(trigger), 150_000, false));
    assert!(w.bullets.is_empty());
    assert!(!w.shoot(Some(trigger), 100_000, true));
    assert!(w.shoot(Some(trigger), 50_000, true));
    assert_eq!(w.bullets, vec![Bullet { position: p(0, 0), facing: p(0, 1000), speed: 500 }]);
    assert!(!w.shoot(Some(pad()), 150_000, true));
    assert_eq!(w.bullets.len(), 1);
    assert_eq!(w.fire_rate.0.elapsed_us, 0);
}

#[test]
fn spawn_coordinate_pushes_out_by_the_offset_side() {
    assert_eq!(spawn_coordinate(100_000, 0, 200_000), 300_000);
    assert_eq!(spawn_coordinate(-100_000, 0, 200_000), -300_000);
    assert_eq!(spawn_coordinate(0, 0, 200_000), 200_000);
    assert_eq!(spawn_coordinate(250_000, 0, 200_000), 250_000);
    assert_eq!(spawn_coordinate(100_000, 150_000, 200_000), -100_000);
}

#[test]
fn asteroid_from_draws_is_placed_and_aimed() {
    let a = asteroid_from_draws(p(0, 0), 100_000, 0, -1500);
    assert_eq!(a.position, p(300_000, 150_000));
    assert_eq!(a.vel, p(-89_442, -44_721));
    assert_eq!(a.angular_velocity, -1500);
}

#[test]
fn spawned_asteroids_never_land_in_the_exclusion_box() {
    let mut w = World::new();
    let player = p(123_000, -45_000);
    w.player = Some(Player { position: player, ..w.player.unwrap() });
    for _ in 0..10_000 {
        w.asteroids.clear();
        assert!(w.spawn_asteroids(SPAWN_PERIOD_US));
        let a = w.asteroids[0];
        let inside = (a.position.x - player.x).abs() < EXCLUSION_HALF_X
            && (a.position.y - player.y).abs() < EXCLUSION_HALF_Y;
        assert!(!inside);
        assert!((-2000..2000).contains(&a.angular_velocity));
    }
}

#[test]
fn spawning_draws_varied_positions() {
    let mut w = World::new();
    for _ in 0..50 {
        w.spawn_asteroids(SPAWN_PERIOD_US);
    }
    assert_eq!(w.asteroids.len(), 50);
    let first = w.asteroids[0].position;
    assert!(w.asteroids.iter().any(|a| a.position != first));
}

#[test]
fn spawning_waits_for_the_timer_and_a_player() {
    let mut w = World::new();
    assert!(!w.spawn_asteroids(999_999));
    assert!(w.asteroids.is_empty());
    assert!(w.spawn_asteroids(1));
    assert_eq!(w.asteroids.len(), 1);
    w.player = None;
    assert!(!w.spawn_asteroids(SPAWN_PERIOD_US));
    assert_eq!(w.asteroids.len(), 1);
}

#[test]
fn integer_geometry_helpers() {
    assert_eq!(isqrt(0), 0);
    assert_eq!(isqrt(15), 3);
    assert_eq!(isqrt(16), 4);
    assert_eq!(isqrt(u64::MAX), 4_294_967_295);
    assert_eq!(rescale(-2, 10, 3), -6);
    assert_eq!(rescale(2, 10, 3), 6);
    assert_eq!(heading(p(0, 0), p(0, 0), 1000), p(0, 0));
    assert_eq!(heading(p(0, 0), p(3_000, 4_000), 1000), p(600, 800));
}

#[test]
fn bullet_sprite_is_prepared_once() {
    let mut stage = BulletLoad::NotRequested;
    assert!(matches!(rotate_bullet_on_startup(&mut stage, None), BulletLoadAction::RequestLoad));
    assert!(matches!(rotate_bullet_on_startup(&mut stage, None), BulletLoadAction::Wait));
    let sprite = RgbaImage::new(2, 1, vec![1, 2, 3, 4, 5, 6, 7, 8]).unwrap();
    match rotate_bullet_on_startup(&mut stage, Some(&sprite)) {
        BulletLoadAction::Publish(img) => {
            assert_eq!((img.0.width, img.0.height), (1, 2));
            assert_eq!(img.0.data, vec![5, 6, 7, 8, 1, 2, 3, 4]);
        }
        _ => panic!("expected the turned sprite"),
    }
    assert_eq!(stage, BulletLoad::Done);
    assert!(matches!(rotate_bullet_on_startup(&mut stage, Some(&sprite)), BulletLoadAction::Wait));
}

#[test]
fn initial_state_request_is_loading() {
    let mut s = GameState::Playing;
    initialize_game_state(&mut s);
    assert_eq!(s, GameState::Loading);
}

#[test]
fn last_hit_point_ends_the_game_within_the_frame() {
    let mut w = World::new();
    w.player = Some(Player { hp: 1, ..w.player.unwrap() });
    w.asteroids = vec![rock(0, 29_000)];
    w.frame(None, 16_000, false);
    assert_eq!(w.state, GameState::GameOver);
    assert!(w.player.is_none());
    assert!(w.game_over_text);
}

#[test]
fn a_playing_frame_runs_the_rules_in_order() {
    let mut w = World::new();
    w.asteroids = vec![rock(100_000, 0)];
    w.bullets = vec![shot(0, 60_000)];
    let trigger = PlayerController { fire_held: true, right_x: 1000, ..pad() };
    w.frame(Some(trigger), 150_000, true);
    assert_eq!(w.player.unwrap().position, p(3_000, 0));
    assert_eq!(w.asteroids, vec![rock(85_000, 0)]);
    assert_eq!(w.bullets, vec![shot(0, 135_000), shot(3_000, 75_000)]);
    assert_eq!(w.fire_rate.0.elapsed_us, 0);
    assert_eq!(w.spawn_timer.0.elapsed_us, 150_000);
}

#[test]
fn a_game_over_frame_waits_for_the_restart_button() {
    let mut w = World::new();
    w.state = GameState::GameOver;
    w.player = None;
    w.asteroids = vec![rock(0, 0)];
    w.frame(Some(pad()), 1_000_000, true);
    assert_eq!(w.state, GameState::GameOver);
    assert_eq!(w.asteroids.len(), 1);
    w.frame(Some(PlayerController { restart_pressed: true, ..pad() }), 1_000_000, true);
    assert_eq!(w.state, GameState::Playing);
    assert!(w.asteroids.is_empty());
    assert_eq!(w.player.unwrap().hp, 4);
}
