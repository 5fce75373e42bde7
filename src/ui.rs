use vstd::prelude::*;

use crate::health::{Health, FULL_BAR};

verus! {

/// The on-screen health bar: its width in thousandths of a percent of its container.
#[derive(Clone, Copy, Debug, PartialEq, Eq, Structural)]
pub struct HealthBar {
    pub width: u64,
}

/// The gameplay overlay, built on entering play and torn down on leaving it.
#[derive(Clone, Copy, Debug, PartialEq, Eq, Structural)]
pub struct PlayerUi {
    pub health_bar: HealthBar,
}

/// Width of the bar for `h`: `current / max` of the full bar, rounded down.
pub open spec fn bar_width(h: Health) -> int {
    h.current * FULL_BAR / (h.max as int)
}

impl PlayerUi {
    /// The overlay as built on entering play: the bar starts full.
    pub fn ui_setup() -> (r: PlayerUi)
        ensures
            r.health_bar.width == FULL_BAR,
    {
        PlayerUi { health_bar: HealthBar { width: FULL_BAR } }
    }
}

/// Sets the bar to reflect `health`.
pub fn update_ui(bar: &mut HealthBar, health: &Health)
    requires
        health.wf(),
    ensures
        final(bar).width == bar_width(*health),
{
    proof {
        vstd::arithmetic::div_mod::lemma_div_is_ordered(
            health.current * FULL_BAR,
            health.max * FULL_BAR,
            health.max as int,
        );
        vstd::arithmetic::div_mod::lemma_div_by_multiple(FULL_BAR as int, health.max as int);
        assert(health.current * FULL_BAR <= health.max * FULL_BAR) by (nonlinear_arith)
            requires health.current <= health.max;
        assert(health.max * FULL_BAR == FULL_BAR * health.max);
    }
    let w: u128 = (health.current as u128) * (FULL_BAR as u128) / (health.max as u128);
    bar.width = w as u64;
}

/// The bar width is a monotonic, linear function of current health, up to rounding
/// down: full at maximum health and empty at zero.
pub proof fn lemma_bar_width_linear(h: Health, g: Health)
    requires
        h.wf(),
        g.wf(),
        g.max == h.max,
    ensures
        h.current == h.max ==> bar_width(h) == FULL_BAR,
        h.current == 0 ==> bar_width(h) == 0,
        h.current <= g.current ==> bar_width(h) <= bar_width(g),
        bar_width(h) * h.max <= h.current * FULL_BAR < (bar_width(h) + 1) * h.max,
{
    let m = h.max as int;
    vstd::arithmetic::div_mod::lemma_fundamental_div_mod(h.current * FULL_BAR, m);
    vstd::arithmetic::div_mod::lemma_mod_bound(h.current * FULL_BAR, m);
    if h.current <= g.current {
        assert(h.current * FULL_BAR <= g.current * FULL_BAR) by (nonlinear_arith)
            requires h.current <= g.current;
        vstd::arithmetic::div_mod::lemma_div_is_ordered(h.current * FULL_BAR, g.current * FULL_BAR, m);
    }
    if h.current == h.max {
        vstd::arithmetic::div_mod::lemma_div_by_multiple(FULL_BAR as int, m);
        assert(h.current * FULL_BAR == FULL_BAR * m);
    }
    assert(m * bar_width(h) + (h.current * FULL_BAR) % m == h.current * FULL_BAR);
    assert(m * bar_width(h) == bar_width(h) * m) by (nonlinear_arith);
    assert((bar_width(h) + 1) * m == bar_width(h) * m + m) by (nonlinear_arith);
}

} // verus!
