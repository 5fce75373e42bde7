use vstd::prelude::*;

use rand::Rng;

verus! {

/// Health is counted in thousandths of a point.
pub const HEALTH_UNITS: u64 = 1000;

/// Smallest self-inflicted damage (inclusive).
pub const SELF_DAMAGE_MIN: u64 = 10_000;

/// Bound of self-inflicted damage (exclusive).
pub const SELF_DAMAGE_END: u64 = 20_000;

/// The health-bar width of a full bar, in thousandths of a percent.
pub const FULL_BAR: u64 = 100_000;

/// Largest maximum health.
pub const HEALTH_LIMIT: u64 = 0x1_0000_0000_0000;

/// Current and maximum health of an entity.
#[derive(Clone, Copy, Debug, PartialEq, Eq, Structural)]
pub struct Health {
    pub current: u64,
    pub max: u64,
}

/// The global state of play.
#[derive(Clone, Copy, Debug, PartialEq, Eq, Structural)]
pub enum GameState {
    Game,
    GameOver,
}

/// `v` held within `[lo, hi]`.
pub open spec fn clamp_spec(v: int, lo: int, hi: int) -> int {
    if v < lo {
        lo
    } else if v > hi {
        hi
    } else {
        v
    }
}

impl Health {
    pub open spec fn wf(self) -> bool {
        0 < self.max <= HEALTH_LIMIT && self.current <= self.max
    }

    /// Full health of `max`.
    pub fn new(max: u64) -> (r: Health)
        requires
            0 < max <= HEALTH_LIMIT,
        ensures
            r.wf(),
            r.current == max,
            r.max == max,
    {
        Health { current: max, max }
    }

    pub fn get_health(&self) -> (r: u64)
        ensures
            r == self.current,
    {
        self.current
    }

    pub fn get_max_health(&self) -> (r: u64)
        ensures
            r == self.max,
    {
        self.max
    }

    /// Subtracts `amount`, holding the result within `[0, max]`; reports whether
    /// the entity is now dead (no health left).
    pub fn take_damage(&mut self, amount: u64) -> (dead: bool)
        requires
            old(self).wf(),
        ensures
            final(self).wf(),
            final(self).max == old(self).max,
            final(self).current == clamp_spec(
                old(self).current - amount,
                0,
                old(self).max as int,
            ),
            dead == (final(self).current == 0),
    {
        if amount >= self.current {
            self.current = 0;
        } else {
            self.current = self.current - amount;
        }
        self.current == 0
    }
}

/// The outcome of the damage input in one frame: health after it, state after it,
/// and whether a switch to game over was requested.
pub open spec fn damage_step_spec(h: Health, state: GameState, pressed: bool, amount: int) -> (
    Health,
    GameState,
    bool,
) {
    if state == GameState::Game && pressed {
        let hit = Health { current: clamp_spec(h.current - amount, 0, h.max as int) as u64, ..h };
        if hit.current == 0 {
            (hit, GameState::GameOver, true)
        } else {
            (hit, state, false)
        }
    } else {
        (h, state, false)
    }
}

/// Applies a freshly pressed damage input of `amount` during play; on death switches
/// the state to game over and reports that the switch was requested.
pub fn apply_damage_input(health: &mut Health, state: &mut GameState, pressed: bool, amount: u64) -> (switched:
    bool)
    requires
        old(health).wf(),
    ensures
        final(health).wf(),
        (*final(health), *final(state), switched) == damage_step_spec(
            *old(health),
            *old(state),
            pressed,
            amount as int,
        ),
{
    if *state == GameState::Game && pressed {
        if health.take_damage(amount) {
            *state = GameState::GameOver;
            return true;
        }
    }
    false
}

/// Relies on rand's `Rng::gen_range` over the thread-local generator: a value drawn
/// from the half-open range, which is not empty here.
#[verifier::external_body]
fn draw_self_damage() -> (r: u64)
    ensures
        SELF_DAMAGE_MIN <= r < SELF_DAMAGE_END,
{
    rand::thread_rng().gen_range(SELF_DAMAGE_MIN..SELF_DAMAGE_END)
}

/// The self-damage input: when freshly pressed during play, draws an amount in
/// `[10, 20)` points and applies it as `apply_damage_input` does.
pub fn damage_yourself(health: &mut Health, state: &mut GameState, pressed: bool) -> (switched: bool)
    requires
        old(health).wf(),
    ensures
        final(health).wf(),
        exists|amount: int|
            SELF_DAMAGE_MIN <= amount < SELF_DAMAGE_END && (*final(health), *final(state), switched)
                == damage_step_spec(*old(health), *old(state), pressed, amount),
        !(*old(state) == GameState::Game && pressed) ==> *final(health) == *old(health) && *final(state)
            == *old(state) && !switched,
{
    if *state == GameState::Game && pressed {
        let amount = draw_self_damage();
        apply_damage_input(health, state, pressed, amount)
    } else {
        let ghost amount = SELF_DAMAGE_MIN as int;
        assert(damage_step_spec(*health, *state, pressed, amount) == (*health, *state, false));
        false
    }
}

/// Health never leaves `[0, max]` under damage; damage reaching zero leaves exactly
/// zero and requests the switch to game over, which happens once: from game over no
/// further damage input requests it again.
pub proof fn lemma_damage_clamps_and_ends_once(h: Health, pressed: bool, amount: int, again: bool, more: int)
    requires
        h.wf(),
        amount >= 0,
    ensures
        ({
            let (h1, s1, switched) = damage_step_spec(h, GameState::Game, pressed, amount);
            &&& 0 <= h1.current <= h1.max
            &&& h1.max == h.max
            &&& (pressed && amount >= h.current) ==> (h1.current == 0 && switched && s1 == GameState::GameOver)
            &&& switched == (pressed && h1.current == 0)
            &&& !damage_step_spec(h1, s1, again, more).2 || !switched
        }),
{
}

} // verus!
