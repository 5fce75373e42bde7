use vstd::prelude::*;

verus! {

/// Full volume, in percent.
pub const FULL_VOLUME: u32 = 100;

/// Audio preferences: volumes in percent of full volume.
#[derive(Clone, Copy, Debug, PartialEq, Eq, Structural)]
pub struct Settings {
    pub sfx_volume: u32,
    pub music_volume: u32,
}

impl Default for Settings {
    /// Both volumes at full.
    fn default() -> (r: Settings)
        ensures
            r.sfx_volume == FULL_VOLUME,
            r.music_volume == FULL_VOLUME,
    {
        Settings { sfx_volume: FULL_VOLUME, music_volume: FULL_VOLUME }
    }
}

} // verus!
