use topdown_core::collision::{collide, resolve, resolve_one, Collision};
use topdown_core::geometry::{Pos, Size};
use topdown_core::health::{apply_damage_input, damage_yourself, GameState, Health};
use topdown_core::movement::{move_and_collide, Intent};
use topdown_core::player::{
    begin_frame, camera_follow, end_frame, player_movement, Camera, FrameInput, Player, PlayerBundle, TILE_SIZE,
};
use topdown_core::settings::Settings;
use topdown_core::ui::{update_ui, HealthBar, PlayerUi};
use topdown_core::weapon::{
    aim_offset, complete_shot, plan_shot, shot_direction, Cooldown, ShotEffects, ShotPlan, Window, WEAPON_RANGE,
};

const PX: i64 = 1_000_000;

fn right() -> Intent {
    Intent { up: false, down: false, left: false, right: true }
}

fn window() -> Window {
    Window { width: 1000 * PX, height: 800 * PX, scale: 1000 }
}

fn tile() -> Size {
    Size { w: TILE_SIZE, h: TILE_SIZE }
}

#[test]
fn damage_above_zero_keeps_playing() {
    let mut h = Health::new(100_000);
    let mut state = GameState::Game;
    let switched = apply_damage_input(&mut h, &mut state, true, 15_000);
    assert_eq!(h.current, 85_000);
    assert!(!switched);
    assert_eq!(state, GameState::Game);
}

#[test]
fn lethal_damage_clamps_and_ends_game_once() {
    let mut h = Health { current: 5_000, max: 100_000 };
    let mut state = GameState::Game;
    assert!(apply_damage_input(&mut h, &mut state, true, 10_000));
    assert_eq!(h.current, 0);
    assert_eq!(state, GameState::GameOver);
    assert!(!apply_damage_input(&mut h, &mut state, true, 10_000));
    assert_eq!(state, GameState::GameOver);
}

#[test]
fn take_damage_reports_death() {
    let mut h = Health::new(100_000);
    assert!(!h.take_damage(99_999));
    assert_eq!(h.get_health(), 1);
    assert!(h.take_damage(50_000));
    assert_eq!(h.get_health(), 0);
    assert_eq!(h.get_max_health(), 100_000);
}

#[test]
fn damage_key_not_pressed_changes_nothing() {
    let mut h = Health::new(100_000);
    let mut state = GameState::Game;
    assert!(!damage_yourself(&mut h, &mut state, false));
    assert_eq!(h.current, 100_000);
}

#[test]
fn self_damage_is_between_ten_and_twenty_points() {
    for _ in 0..50 {
        let mut h = Health::new(100_000);
        let mut state = GameState::Game;
        assert!(!damage_yourself(&mut h, &mut state, true));
        assert!(h.current > 80_000 && h.current <= 90_000, "{}", h.current);
    }
}

#[test]
fn self_damage_ignored_after_game_over() {
    let mut h = Health { current: 0, max: 100_000 };
    let mut state = GameState::GameOver;
    assert!(!damage_yourself(&mut h, &mut state, true));
    assert_eq!(state, GameState::GameOver);
}

#[test]
fn cooldown_blocks_until_elapsed_reaches_duration() {
    let mut c = Cooldown::new(500_000);
    let pointer = Some(Pos { x: 600 * PX, y: 400 * PX });
    for _ in 0..4 {
        let r = plan_shot(&mut c, 100_000, Pos { x: 0, y: 0 }, pointer, window(), true);
        assert_eq!(r, None);
    }
    assert_eq!(c.elapsed, 400_000);
    let r = plan_shot(&mut c, 100_000, Pos { x: 0, y: 0 }, pointer, window(), true);
    assert!(r.is_some());
    assert_eq!(c.elapsed, 500_000);
}

#[test]
fn cooldown_tick_stops_at_duration() {
    let mut c = Cooldown::new(500_000);
    c.tick(2_000_000);
    assert_eq!(c.elapsed, 500_000);
    assert!(c.finished());
    c.reset();
    assert_eq!(c.elapsed, 0);
    assert!(!c.finished());
}

#[test]
fn move_right_one_frame() {
    let p = move_and_collide(Pos { x: 0, y: 0 }, tile(), right(), 10, TILE_SIZE, 16_000, &vec![]);
    assert_eq!(p, Pos { x: 5_120_000, y: 0 });
}

#[test]
fn move_each_single_direction() {
    let dirs = [
        (Intent { up: true, down: false, left: false, right: false }, (0, 5_120_000)),
        (Intent { up: false, down: true, left: false, right: false }, (0, -5_120_000)),
        (Intent { up: false, down: false, left: true, right: false }, (-5_120_000, 0)),
        (right(), (5_120_000, 0)),
    ];
    for (intent, (dx, dy)) in dirs {
        let p = move_and_collide(Pos { x: 7, y: -3 }, tile(), intent, 10, TILE_SIZE, 16_000, &vec![]);
        assert_eq!(p, Pos { x: 7 + dx, y: -3 + dy });
    }
}

#[test]
fn move_diagonal_is_normalised() {
    let intent = Intent { up: true, down: false, left: false, right: true };
    let p = move_and_collide(Pos { x: 0, y: 0 }, tile(), intent, 10, TILE_SIZE, 16_000, &vec![]);
    assert_eq!(p, Pos { x: 3_620_386, y: 3_620_386 });
}

#[test]
fn opposite_keys_cancel() {
    let intent = Intent { up: true, down: true, left: true, right: true };
    let walls = vec![Pos { x: 0, y: 0 }];
    let p = move_and_collide(Pos { x: 0, y: 0 }, tile(), intent, 10, TILE_SIZE, 16_000, &walls);
    assert_eq!(p, Pos { x: 0, y: 0 });
}

#[test]
fn collide_sides() {
    let t = tile();
    let wall = Pos { x: 0, y: 0 };
    assert_eq!(collide(Pos { x: -20 * PX, y: 0 }, t, wall, t), Some(Collision::Left));
    assert_eq!(collide(Pos { x: 20 * PX, y: 0 }, t, wall, t), Some(Collision::Right));
    assert_eq!(collide(Pos { x: 0, y: 20 * PX }, t, wall, t), Some(Collision::Top));
    assert_eq!(collide(Pos { x: 0, y: -20 * PX }, t, wall, t), Some(Collision::Bottom));
    assert_eq!(collide(Pos { x: 0, y: 0 }, Size { w: 10 * PX, h: 10 * PX }, wall, t), Some(Collision::Inside));
    assert_eq!(collide(Pos { x: 40 * PX, y: 0 }, t, wall, t), None);
    assert_eq!(collide(Pos { x: 32 * PX, y: 0 }, t, wall, t), None);
}

#[test]
fn collide_picks_shallower_axis() {
    let t = tile();
    let wall = Pos { x: 0, y: 0 };
    assert_eq!(collide(Pos { x: 30 * PX, y: 20 * PX }, t, wall, t), Some(Collision::Right));
    assert_eq!(collide(Pos { x: 20 * PX, y: 30 * PX }, t, wall, t), Some(Collision::Top));
    assert_eq!(collide(Pos { x: 20 * PX, y: 20 * PX }, t, wall, t), Some(Collision::Right));
}

#[test]
fn push_out_each_side() {
    let t = tile();
    let wall = Pos { x: 0, y: 0 };
    assert_eq!(resolve_one(Pos { x: -20 * PX, y: 3 }, t, wall, TILE_SIZE), Pos { x: -32 * PX, y: 3 });
    assert_eq!(resolve_one(Pos { x: 20 * PX, y: 3 }, t, wall, TILE_SIZE), Pos { x: 32 * PX, y: 3 });
    assert_eq!(resolve_one(Pos { x: 3, y: 20 * PX }, t, wall, TILE_SIZE), Pos { x: 3, y: 32 * PX });
    assert_eq!(resolve_one(Pos { x: 3, y: -20 * PX }, t, wall, TILE_SIZE), Pos { x: 3, y: -32 * PX });
}

#[test]
fn fully_inside_is_left_alone() {
    let small = Size { w: 10 * PX, h: 10 * PX };
    let p = resolve_one(Pos { x: PX, y: PX }, small, Pos { x: 0, y: 0 }, TILE_SIZE);
    assert_eq!(p, Pos { x: PX, y: PX });
}

#[test]
fn walking_into_wall_stops_at_its_face() {
    let walls = vec![Pos { x: 40 * PX, y: 0 }];
    let p = move_and_collide(Pos { x: 6 * PX, y: 0 }, tile(), right(), 10, TILE_SIZE, 16_000, &walls);
    assert_eq!(p, Pos { x: 8 * PX, y: 0 });
}

#[test]
fn corrections_apply_in_order() {
    let walls = vec![Pos { x: 0, y: 0 }, Pos { x: 64 * PX, y: 0 }];
    let p = resolve(Pos { x: 20 * PX, y: 0 }, tile(), &walls, TILE_SIZE);
    assert_eq!(p, Pos { x: 32 * PX, y: 0 });
    let p = resolve(Pos { x: 44 * PX, y: 0 }, tile(), &walls, TILE_SIZE);
    assert_eq!(p, Pos { x: 32 * PX, y: 0 });
}

#[test]
fn shot_at_non_target_removes_nothing() {
    let mut c = Cooldown { elapsed: 500_000, duration: 500_000 };
    let e = complete_shot(&mut c, Some(7), &vec![1, 2]);
    assert_eq!(e, ShotEffects { despawn: None, sound_volume: 15 });
    assert_eq!(c.elapsed, 0);
}

#[test]
fn shot_at_target_removes_it() {
    let mut c = Cooldown { elapsed: 500_000, duration: 500_000 };
    let e = complete_shot(&mut c, Some(2), &vec![1, 2, 3]);
    assert_eq!(e, ShotEffects { despawn: Some(2), sound_volume: 15 });
    assert_eq!(c.elapsed, 0);
}

#[test]
fn shot_into_nothing_still_sounds() {
    let mut c = Cooldown { elapsed: 500_000, duration: 500_000 };
    let e = complete_shot(&mut c, None, &vec![1]);
    assert_eq!(e, ShotEffects { despawn: None, sound_volume: 15 });
    assert_eq!(c.elapsed, 0);
}

#[test]
fn fire_not_ready_has_no_effect() {
    let mut c = Cooldown { elapsed: 100_000, duration: 500_000 };
    let r = plan_shot(&mut c, 16_000, Pos { x: 0, y: 0 }, Some(Pos { x: 0, y: 0 }), window(), true);
    assert_eq!(r, None);
    assert_eq!(c.elapsed, 116_000);
}

#[test]
fn fire_needs_pointer_and_fresh_press() {
    let mut c = Cooldown { elapsed: 500_000, duration: 500_000 };
    assert_eq!(plan_shot(&mut c, 16_000, Pos { x: 0, y: 0 }, None, window(), true), None);
    assert_eq!(plan_shot(&mut c, 16_000, Pos { x: 0, y: 0 }, Some(Pos { x: 0, y: 0 }), window(), false), None);
    assert_eq!(c.elapsed, 500_000);
}

#[test]
fn fire_ready_plans_ray_from_player() {
    let mut c = Cooldown { elapsed: 500_000, duration: 500_000 };
    let origin = Pos { x: 5, y: 6 };
    let r = plan_shot(&mut c, 0, origin, Some(Pos { x: 600 * PX, y: 400 * PX }), window(), true);
    assert_eq!(
        r,
        Some(ShotPlan { origin, direction: Pos { x: 200_000 * PX, y: 0 }, max_distance: WEAPON_RANGE })
    );
}

#[test]
fn shot_direction_uses_scale_factor() {
    let w = Window { width: 1000 * PX, height: 800 * PX, scale: 2000 };
    let d = shot_direction(Pos { x: 300 * PX, y: 200 * PX }, w);
    assert_eq!(d, Pos { x: 200_000 * PX, y: 0 });
}

#[test]
fn aim_is_relative_to_window_centre() {
    let d = aim_offset(Pos { x: 500 * PX, y: 500 * PX }, window());
    assert_eq!(d, Pos { x: 0, y: 200 * PX });
    let w = Window { width: 1000 * PX, height: 800 * PX, scale: 2000 };
    assert_eq!(aim_offset(Pos { x: 500 * PX, y: 500 * PX }, w), Pos { x: 0, y: 200 * PX });
}

#[test]
fn health_bar_width_tracks_health() {
    let mut bar = PlayerUi::ui_setup().health_bar;
    assert_eq!(bar.width, 100_000);
    update_ui(&mut bar, &Health { current: 100_000, max: 100_000 });
    assert_eq!(bar.width, 100_000);
    update_ui(&mut bar, &Health { current: 85_000, max: 100_000 });
    assert_eq!(bar.width, 85_000);
    update_ui(&mut bar, &Health { current: 1, max: 3 });
    assert_eq!(bar.width, 33_333);
    update_ui(&mut bar, &Health { current: 0, max: 100_000 });
    assert_eq!(bar, HealthBar { width: 0 });
}

#[test]
fn camera_copies_player_position() {
    let mut cam = Camera { x: 1, y: 2, z: 999 };
    let player = PlayerBundle::spawn(Pos { x: 40, y: -50 }, false, true).player;
    camera_follow(&mut cam, &player);
    assert_eq!(cam, Camera { x: 40, y: -50, z: 999 });
}

#[test]
fn player_bundle_defaults() {
    let b = PlayerBundle::default();
    assert_eq!(b.player.speed, 10);
    assert_eq!(b.player.health, Health { current: 100_000, max: 100_000 });
    assert_eq!(b.player.cooldown, Cooldown { elapsed: 0, duration: 500_000 });
    assert_eq!(b.player.size, tile());
    let s = PlayerBundle::spawn(Pos { x: 3, y: 4 }, true, false);
    assert_eq!(s.player.pos, Pos { x: 3, y: 4 });
    assert!(s.flip_x && !s.flip_y);
}

#[test]
fn settings_default_to_full_volume() {
    let s = Settings::default();
    assert_eq!((s.sfx_volume, s.music_volume), (100, 100));
}

#[test]
fn player_movement_moves_only_position() {
    let mut p: Player = PlayerBundle::default().player;
    let before = p;
    player_movement(&mut p, right(), TILE_SIZE, 16_000, &vec![]);
    assert_eq!(p.pos, Pos { x: 5_120_000, y: 0 });
    assert_eq!(p.health, before.health);
}

#[test]
fn full_frame_keeps_camera_on_player_and_fires() {
    let mut p = PlayerBundle::default().player;
    p.cooldown.elapsed = 500_000;
    let mut cam = Camera { x: 0, y: 0, z: 7 };
    let input = FrameInput {
        intent: right(),
        dt: 16_000,
        pointer: Some(Pos { x: 600 * PX, y: 400 * PX }),
        fire_pressed: true,
        damage_pressed: false,
    };
    let req = begin_frame(&mut p, &mut cam, &input, TILE_SIZE, &vec![], window());
    assert_eq!((cam.x, cam.y), (p.pos.x, p.pos.y));
    assert_eq!(req.aim, Some(Pos { x: 200 * PX, y: 0 }));
    let shot = req.shot.unwrap();
    assert_eq!(shot.origin, p.pos);
    let mut state = GameState::Game;
    let mut bar = HealthBar { width: 100_000 };
    let out = end_frame(&mut p, &mut state, &mut bar, Some(Some(9)), &vec![9], false);
    assert_eq!(out.shot, Some(ShotEffects { despawn: Some(9), sound_volume: 15 }));
    assert!(!out.game_over);
    assert_eq!(p.cooldown.elapsed, 0);
    assert_eq!((cam.x, cam.y), (p.pos.x, p.pos.y));
}
