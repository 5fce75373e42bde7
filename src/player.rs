use vstd::prelude::*;

use crate::collision::walls_wf;
use crate::geometry::{in_box, Pos, Size, COORD_LIMIT, REACH_LIMIT, SIZE_LIMIT};
use crate::health::{damage_step_spec, damage_yourself, GameState, Health, HEALTH_UNITS, SELF_DAMAGE_END, SELF_DAMAGE_MIN};
use crate::movement::{move_and_collide, movement_spec, Intent, DT_LIMIT, SPEED_LIMIT};
use crate::ui::{bar_width, update_ui, HealthBar};
use crate::weapon::{
    complete_shot, effects_spec, plan_shot, plan_spec, aim_offset, aim_vector, Cooldown, ShotEffects, ShotPlan,
    Window, SCREEN_LIMIT, WEAPON_COOLDOWN,
};

verus! {

/// Edge of one grid cell, in length units (32 pixels).
pub const TILE_SIZE: i64 = 32_000_000;

/// Movement speed of a new player, in tiles per second.
pub const PLAYER_SPEED: u64 = 10;

/// Maximum health of a new player (100 points).
pub const PLAYER_MAX_HEALTH: u64 = 100 * HEALTH_UNITS;

/// The player-controlled entity's simulation state.
#[derive(Clone, Copy, Debug, PartialEq, Eq, Structural)]
pub struct Player {
    pub pos: Pos,
    pub size: Size,
    pub speed: u64,
    pub health: Health,
    pub cooldown: Cooldown,
}

/// Everything a player entity is spawned with: its state and how its sprite is flipped.
#[derive(Clone, Copy, Debug, PartialEq, Eq, Structural)]
pub struct PlayerBundle {
    pub player: Player,
    pub flip_x: bool,
    pub flip_y: bool,
}

/// The camera's translation.
#[derive(Clone, Copy, Debug, PartialEq, Eq, Structural)]
pub struct Camera {
    pub x: i64,
    pub y: i64,
    pub z: i64,
}

/// The inputs of one frame.
#[derive(Clone, Copy, Debug, PartialEq, Eq, Structural)]
pub struct FrameInput {
    pub intent: Intent,
    /// Frame time in microseconds.
    pub dt: u64,
    /// The pointer in window coordinates, when it is inside the window.
    pub pointer: Option<Pos>,
    /// The fire button went down this frame.
    pub fire_pressed: bool,
    /// The self-damage key went down this frame.
    pub damage_pressed: bool,
}

/// What the first half of a frame asks of the scene: a facing vector, when the
/// pointer is in the window, and a ray to cast, when a shot is fired.
#[derive(Clone, Copy, Debug, PartialEq, Eq, Structural)]
pub struct FrameRequests {
    pub aim: Option<Pos>,
    pub shot: Option<ShotPlan>,
}

/// What the second half of a frame did: the effects of a completed shot, and whether
/// the switch to game over was requested.
#[derive(Clone, Copy, Debug, PartialEq, Eq, Structural)]
pub struct FrameEffects {
    pub shot: Option<ShotEffects>,
    pub game_over: bool,
}

impl Player {
    pub open spec fn wf(self) -> bool {
        &&& in_box(self.pos, COORD_LIMIT as int)
        &&& self.size.wf()
        &&& self.speed <= SPEED_LIMIT
        &&& self.health.wf()
        &&& self.cooldown.wf()
    }
}

impl Default for PlayerBundle {
    /// A player at the origin, one tile in size, at full health, with its weapon
    /// cooling down.
    fn default() -> (r: PlayerBundle)
        ensures
            r.player.wf(),
            r.player.pos == (Pos { x: 0, y: 0 }),
            r.player.size == (Size { w: TILE_SIZE, h: TILE_SIZE }),
            r.player.speed == PLAYER_SPEED,
            r.player.health == (Health { current: PLAYER_MAX_HEALTH, max: PLAYER_MAX_HEALTH }),
            r.player.cooldown == (Cooldown { elapsed: 0, duration: WEAPON_COOLDOWN }),
            !r.flip_x && !r.flip_y,
    {
        PlayerBundle {
            player: Player {
                pos: Pos { x: 0, y: 0 },
                size: Size::square(TILE_SIZE),
                speed: PLAYER_SPEED,
                health: Health::new(PLAYER_MAX_HEALTH),
                cooldown: Cooldown::new(WEAPON_COOLDOWN),
            },
            flip_x: false,
            flip_y: false,
        }
    }
}

impl PlayerBundle {
    /// The default player placed at `position`, its sprite flipped as given.
    pub fn spawn(position: Pos, flip_x: bool, flip_y: bool) -> (r: PlayerBundle)
        requires
            in_box(position, COORD_LIMIT as int),
        ensures
            r.player.wf(),
            r.player == (Player { pos: position, ..PlayerBundle::default_spec().player }),
            r.flip_x == flip_x,
            r.flip_y == flip_y,
    {
        let base = PlayerBundle::default();
        PlayerBundle { player: Player { pos: position, ..base.player }, flip_x, flip_y }
    }

    pub open spec fn default_spec() -> PlayerBundle {
        PlayerBundle {
            player: Player {
                pos: Pos { x: 0, y: 0 },
                size: Size { w: TILE_SIZE, h: TILE_SIZE },
                speed: PLAYER_SPEED,
                health: Health { current: PLAYER_MAX_HEALTH, max: PLAYER_MAX_HEALTH },
                cooldown: Cooldown { elapsed: 0, duration: WEAPON_COOLDOWN },
            },
            flip_x: false,
            flip_y: false,
        }
    }
}

/// Moves the player one frame against the obstacles, each a square of edge `tile`.
pub fn player_movement(player: &mut Player, intent: Intent, tile: i64, dt: u64, walls: &Vec<Pos>)
    requires
        old(player).wf(),
        0 <= tile <= SIZE_LIMIT,
        dt <= DT_LIMIT,
        walls_wf(walls@),
    ensures
        *final(player) == (Player {
            pos: movement_spec(
                old(player).pos,
                old(player).size,
                intent,
                old(player).speed as int,
                tile,
                dt as int,
                walls@,
            ),
            ..*old(player)
        }),
        in_box(final(player).pos, REACH_LIMIT as int),
{
    player.pos = move_and_collide(player.pos, player.size, intent, player.speed, tile, dt, walls);
}

/// Puts the camera over the player, keeping its depth.
pub fn camera_follow(camera: &mut Camera, player: &Player)
    ensures
        final(camera).x == player.pos.x,
        final(camera).y == player.pos.y,
        final(camera).z == old(camera).z,
{
    camera.x = player.pos.x;
    camera.y = player.pos.y;
}

/// The first half of a frame, in order: movement, camera, aim, then the weapon's
/// timer and trigger. Returns the facing vector and the ray to cast, if any.
pub fn begin_frame(
    player: &mut Player,
    camera: &mut Camera,
    input: &FrameInput,
    tile: i64,
    walls: &Vec<Pos>,
    window: Window,
) -> (r: FrameRequests)
    requires
        old(player).wf(),
        0 <= tile <= SIZE_LIMIT,
        input.dt <= DT_LIMIT,
        walls_wf(walls@),
        window.wf(),
        input.pointer matches Some(p) ==> in_box(p, SCREEN_LIMIT as int),
    ensures
        final(player).pos == movement_spec(
            old(player).pos,
            old(player).size,
            input.intent,
            old(player).speed as int,
            tile,
            input.dt as int,
            walls@,
        ),
        final(player).cooldown == old(player).cooldown.ticked(input.dt as int),
        final(player).size == old(player).size,
        final(player).speed == old(player).speed,
        final(player).health == old(player).health,
        final(camera).x == final(player).pos.x,
        final(camera).y == final(player).pos.y,
        final(camera).z == old(camera).z,
        r.aim == (match input.pointer {
            Some(p) => Some(aim_vector(p, window)),
            None => None,
        }),
        r.shot == plan_spec(
            old(player).cooldown,
            input.dt as int,
            final(player).pos,
            input.pointer,
            window,
            input.fire_pressed,
        ),
{
    player_movement(player, input.intent, tile, input.dt, walls);
    camera_follow(camera, player);
    let aim = match input.pointer {
        Some(p) => Some(aim_offset(p, window)),
        None => None,
    };
    let shot = plan_shot(&mut player.cooldown, input.dt, player.pos, input.pointer, window, input.fire_pressed);
    FrameRequests { aim, shot }
}

} // verus!

verus! {

/// The second half of a frame, in order: the fired shot's outcome from the ray's
/// result (`shot_hit` is `Some` exactly when a ray was cast), the self-damage input,
/// and the health bar.
pub fn end_frame(
    player: &mut Player,
    state: &mut GameState,
    bar: &mut HealthBar,
    shot_hit: Option<Option<u64>>,
    targets: &Vec<u64>,
    damage_pressed: bool,
) -> (r: FrameEffects)
    requires
        old(player).health.wf(),
    ensures
        final(player).pos == old(player).pos,
        final(player).size == old(player).size,
        final(player).speed == old(player).speed,
        final(player).health.wf(),
        final(player).cooldown.duration == old(player).cooldown.duration,
        match shot_hit {
            Some(hit) => r.shot == Some(effects_spec(hit, targets@)) && final(player).cooldown.elapsed == 0,
            None => r.shot is None && final(player).cooldown == old(player).cooldown,
        },
        exists|amount: int|
            SELF_DAMAGE_MIN <= amount < SELF_DAMAGE_END && (final(player).health, *final(state), r.game_over)
                == damage_step_spec(old(player).health, *old(state), damage_pressed, amount),
        final(bar).width == bar_width(final(player).health),
{
    let shot = match shot_hit {
        Some(hit) => Some(complete_shot(&mut player.cooldown, hit, targets)),
        None => None,
    };
    let game_over = damage_yourself(&mut player.health, state, damage_pressed);
    update_ui(bar, &player.health);
    FrameEffects { shot, game_over }
}

} // verus!
