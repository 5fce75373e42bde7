use vstd::prelude::*;

use crate::geometry::{in_box, Pos, COORD_LIMIT};

verus! {

/// Time between shots, in microseconds.
pub const WEAPON_COOLDOWN: u64 = 500_000;

/// Reach of a shot, in length units.
pub const WEAPON_RANGE: i64 = 400_000_000;

/// Volume of the shot sound, in percent of full volume.
pub const SHOT_VOLUME_PERCENT: u32 = 15;

/// Display scale factors are given in thousandths.
pub const SCALE_UNITS: i64 = 1000;

/// Largest display scale factor, in thousandths.
pub const SCALE_LIMIT: i64 = 65_536;

/// Largest pointer coordinate or window dimension, in length units.
pub const SCREEN_LIMIT: i64 = 1_099_511_627_776;

/// A one-shot timer: elapsed time runs up to the duration and stays there until reset.
#[derive(Clone, Copy, Debug, PartialEq, Eq, Structural)]
pub struct Cooldown {
    pub elapsed: u64,
    pub duration: u64,
}

/// The window a pointer is read in: logical size and display scale factor.
#[derive(Clone, Copy, Debug, PartialEq, Eq, Structural)]
pub struct Window {
    pub width: i64,
    pub height: i64,
    pub scale: i64,
}

/// A ray to cast: from `origin` along `direction` (any non-zero length) for
/// `max_distance` length units, skipping the shooter's own collider.
#[derive(Clone, Copy, Debug, PartialEq, Eq, Structural)]
pub struct ShotPlan {
    pub origin: Pos,
    pub direction: Pos,
    pub max_distance: i64,
}

/// What a fired shot does: the entity to remove with its dependents, if any, and the
/// one sound to play, at the given volume in percent.
#[derive(Clone, Copy, Debug, PartialEq, Eq, Structural)]
pub struct ShotEffects {
    pub despawn: Option<u64>,
    pub sound_volume: u32,
}

impl Window {
    pub open spec fn wf(self) -> bool {
        &&& 0 <= self.width <= SCREEN_LIMIT
        &&& 0 <= self.height <= SCREEN_LIMIT
        &&& 0 < self.scale <= SCALE_LIMIT
    }
}

impl Cooldown {
    pub open spec fn wf(self) -> bool {
        self.elapsed <= self.duration
    }

    pub open spec fn is_ready(self) -> bool {
        self.elapsed >= self.duration
    }

    /// The timer after `dt` more microseconds.
    pub open spec fn ticked(self, dt: int) -> Cooldown {
        Cooldown {
            elapsed: if self.elapsed + dt >= self.duration { self.duration } else { (self.elapsed + dt) as u64 },
            ..self
        }
    }

    /// A timer of `duration` that has just started.
    pub fn new(duration: u64) -> (r: Cooldown)
        ensures
            r.wf(),
            r.elapsed == 0,
            r.duration == duration,
    {
        Cooldown { elapsed: 0, duration }
    }

    pub fn tick(&mut self, dt: u64)
        requires
            old(self).wf(),
        ensures
            *final(self) == old(self).ticked(dt as int),
            final(self).wf(),
    {
        if dt >= self.duration - self.elapsed {
            self.elapsed = self.duration;
        } else {
            self.elapsed = self.elapsed + dt;
        }
    }

    pub fn finished(&self) -> (r: bool)
        ensures
            r == self.is_ready(),
    {
        self.elapsed >= self.duration
    }

    pub fn reset(&mut self)
        ensures
            final(self).elapsed == 0,
            final(self).duration == old(self).duration,
    {
        self.elapsed = 0;
    }
}

/// A vector along the pointer's offset from the window centre, twice that offset so
/// that half sizes stay exact.
pub open spec fn aim_vector(pointer: Pos, window: Window) -> Pos {
    Pos { x: (2 * pointer.x - window.width) as i64, y: (2 * pointer.y - window.height) as i64 }
}

/// A vector along the pointer's offset from the window centre after the pointer is
/// scaled by the display scale factor (`2 * SCALE_UNITS` times that offset).
pub open spec fn shot_vector(pointer: Pos, window: Window) -> Pos {
    Pos {
        x: (2 * (pointer.x * window.scale) - SCALE_UNITS * window.width) as i64,
        y: (2 * (pointer.y * window.scale) - SCALE_UNITS * window.height) as i64,
    }
}

/// The facing direction for a pointer read in `window`.
pub fn aim_offset(pointer: Pos, window: Window) -> (r: Pos)
    requires
        in_box(pointer, SCREEN_LIMIT as int),
        window.wf(),
    ensures
        r == aim_vector(pointer, window),
{
    Pos { x: 2 * pointer.x - window.width, y: 2 * pointer.y - window.height }
}

/// The direction a shot takes for a pointer read in `window`.
pub fn shot_direction(pointer: Pos, window: Window) -> (r: Pos)
    requires
        in_box(pointer, SCREEN_LIMIT as int),
        window.wf(),
    ensures
        r == shot_vector(pointer, window),
{
    proof {
        assert(-0x100_0000_0000_0000 <= pointer.x * window.scale <= 0x100_0000_0000_0000) by (nonlinear_arith)
            requires -0x100_0000_0000 <= pointer.x <= 0x100_0000_0000, 0 < window.scale <= 0x1_0000;
        assert(-0x100_0000_0000_0000 <= pointer.y * window.scale <= 0x100_0000_0000_0000) by (nonlinear_arith)
            requires -0x100_0000_0000 <= pointer.y <= 0x100_0000_0000, 0 < window.scale <= 0x1_0000;
    }
    let px = pointer.x * window.scale;
    let py = pointer.y * window.scale;
    Pos { x: 2 * px - SCALE_UNITS * window.width, y: 2 * py - SCALE_UNITS * window.height }
}

/// The shot fired this frame, if any, after the timer has run for `dt`: only with the
/// timer ready, the pointer in the window and the trigger freshly pressed.
pub open spec fn plan_spec(c: Cooldown, dt: int, origin: Pos, pointer: Option<Pos>, window: Window, pressed: bool)
    -> Option<ShotPlan>
{
    match pointer {
        Some(p) => if c.ticked(dt).is_ready() && pressed {
            Some(ShotPlan { origin, direction: shot_vector(p, window), max_distance: WEAPON_RANGE })
        } else {
            None
        },
        None => None,
    }
}

/// What a shot does once the ray came back with `hit`: the hit entity goes only if
/// it is targetable; the sound plays either way.
pub open spec fn effects_spec(hit: Option<u64>, targets: Seq<u64>) -> ShotEffects {
    ShotEffects {
        despawn: match hit {
            Some(e) => if targets.contains(e) { Some(e) } else { None },
            None => None,
        },
        sound_volume: SHOT_VOLUME_PERCENT,
    }
}

/// Runs the timer for the frame and decides whether a shot is fired, and along which ray.
pub fn plan_shot(
    cooldown: &mut Cooldown,
    dt: u64,
    origin: Pos,
    pointer: Option<Pos>,
    window: Window,
    pressed: bool,
) -> (r: Option<ShotPlan>)
    requires
        old(cooldown).wf(),
        window.wf(),
        pointer matches Some(p) ==> in_box(p, SCREEN_LIMIT as int),
    ensures
        *final(cooldown) == old(cooldown).ticked(dt as int),
        final(cooldown).wf(),
        r == plan_spec(*old(cooldown), dt as int, origin, pointer, window, pressed),
{
    cooldown.tick(dt);
    if !cooldown.finished() {
        return None;
    }
    match pointer {
        Some(p) => {
            if pressed {
                Some(ShotPlan { origin, direction: shot_direction(p, window), max_distance: WEAPON_RANGE })
            } else {
                None
            }
        },
        None => None,
    }
}

/// `e` is one of `targets`.
fn is_target(e: u64, targets: &Vec<u64>) -> (r: bool)
    ensures
        r == targets@.contains(e),
{
    let mut i: usize = 0;
    while i < targets.len()
        invariant
            0 <= i <= targets@.len(),
            forall|j: int| 0 <= j < i ==> targets@[j] != e,
        decreases targets@.len() - i,
    {
        if targets[i] == e {
            return true;
        }
        i = i + 1;
    }
    false
}

/// Completes a fired shot from the ray's result: decides what is removed, requests the
/// sound, and restarts the timer.
pub fn complete_shot(cooldown: &mut Cooldown, hit: Option<u64>, targets: &Vec<u64>) -> (r: ShotEffects)
    ensures
        final(cooldown).elapsed == 0,
        final(cooldown).duration == old(cooldown).duration,
        r == effects_spec(hit, targets@),
{
    let despawn = match hit {
        Some(e) => if is_target(e, targets) {
            Some(e)
        } else {
            None
        },
        None => None,
    };
    cooldown.reset();
    ShotEffects { despawn, sound_volume: SHOT_VOLUME_PERCENT }
}

/// A trigger pulled before the timer is ready fires nothing: no ray, hence no sound
/// and no removal, and the timer only runs on.
pub proof fn lemma_not_ready_fires_nothing(
    c: Cooldown,
    dt: int,
    origin: Pos,
    pointer: Option<Pos>,
    window: Window,
    pressed: bool,
)
    requires
        c.wf(),
        dt >= 0,
        !c.ticked(dt).is_ready(),
    ensures
        plan_spec(c, dt, origin, pointer, window, pressed) is None,
        c.ticked(dt).elapsed == c.elapsed + dt,
        c.ticked(dt).duration == c.duration,
{
}

/// A shot fired with the timer ready and a targetable entity first on the ray removes
/// exactly that entity, plays one sound, and the timer restarts.
pub proof fn lemma_ready_shot_hits_target(
    c: Cooldown,
    dt: int,
    origin: Pos,
    pointer: Pos,
    window: Window,
    target: u64,
    targets: Seq<u64>,
)
    requires
        c.wf(),
        c.ticked(dt).is_ready(),
        targets.contains(target),
    ensures
        plan_spec(c, dt, origin, Some(pointer), window, true) == Some(
            ShotPlan { origin, direction: shot_vector(pointer, window), max_distance: WEAPON_RANGE },
        ),
        effects_spec(Some(target), targets) == (ShotEffects {
            despawn: Some(target),
            sound_volume: SHOT_VOLUME_PERCENT,
        }),
{
}

/// A shot fired with the timer ready whose ray meets nothing, or meets an entity that
/// is not targetable, removes nothing and still plays its one sound.
pub proof fn lemma_ready_shot_misses(
    c: Cooldown,
    dt: int,
    origin: Pos,
    pointer: Pos,
    window: Window,
    hit: Option<u64>,
    targets: Seq<u64>,
)
    requires
        c.wf(),
        c.ticked(dt).is_ready(),
        hit matches Some(e) ==> !targets.contains(e),
    ensures
        plan_spec(c, dt, origin, Some(pointer), window, true) is Some,
        effects_spec(hit, targets) == (ShotEffects { despawn: None, sound_volume: SHOT_VOLUME_PERCENT }),
{
}

} // verus!
