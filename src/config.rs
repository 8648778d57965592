use vstd::prelude::*;

verus! {

/// When the display sleeps: from `sleep_hour` to `wakeup_hour`, local time.
#[derive(Clone, Copy, Debug, PartialEq, Eq, Structural)]
pub struct Sleep {
    pub sleep_hour: u32,
    pub wakeup_hour: u32,
}

/// Night-mode settings.
#[derive(Clone, Copy, Debug, PartialEq, Eq, Structural)]
pub struct Night {
    pub move_secs: u64,
    pub night_tap_cooldown: u64,
    pub brightness: u8,
}

/// Day-mode settings.
#[derive(Clone, Copy, Debug, PartialEq, Eq, Structural)]
pub struct Day {
    pub background_secs: u64,
    pub subtitle_secs: u64,
    pub brightness: u8,
}

} // verus!
