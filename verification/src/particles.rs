//! Modes of the decorative background animation.

use vstd::prelude::*;

verus! {

/// Which background animation is shown.
#[derive(Debug, Clone, Copy, PartialEq, Eq, Structural)]
pub enum ParticleMode {
    /// Falling columns of glyphs.
    DigitalRain,
    /// Drifting stars.
    Starfield,
    /// No animation.
    Off,
}

impl ParticleMode {
    /// The mode that follows `self` in the cycle rain, stars, none.
    pub open spec fn next_spec(self) -> ParticleMode {
        match self {
            ParticleMode::DigitalRain => ParticleMode::Starfield,
            ParticleMode::Starfield => ParticleMode::Off,
            ParticleMode::Off => ParticleMode::DigitalRain,
        }
    }

    /// The display name of the mode.
    pub open spec fn name_spec(self) -> Seq<char> {
        match self {
            ParticleMode::DigitalRain => "Digital Rain"@,
            ParticleMode::Starfield => "Starfield"@,
            ParticleMode::Off => "None"@,
        }
    }

    /// Cycles to the next mode.
    pub fn next(&self) -> (r: ParticleMode)
        ensures
            r == self.next_spec(),
    {
        match self {
            ParticleMode::DigitalRain => ParticleMode::Starfield,
            ParticleMode::Starfield => ParticleMode::Off,
            ParticleMode::Off => ParticleMode::DigitalRain,
        }
    }

    /// The display name of the mode.
    pub fn name(&self) -> (r: &'static str)
        ensures
            r@ == self.name_spec(),
    {
        match self {
            ParticleMode::DigitalRain => "Digital Rain",
            ParticleMode::Starfield => "Starfield",
            ParticleMode::Off => "None",
        }
    }
}

impl Default for ParticleMode {
    fn default() -> (r: ParticleMode)
        ensures
            r == ParticleMode::DigitalRain,
    {
        ParticleMode::DigitalRain
    }
}

/// The bookkeeping of the background animation over particles of any kind:
/// the particles that are alive, the mode, the capacity, and a frame counter.
#[derive(Debug, Clone)]
pub struct ParticleSystem<P> {
    /// The particles that are alive.
    pub particles: Vec<P>,
    /// The mode of the animation.
    pub mode: ParticleMode,
    /// The largest number of particles.
    pub max_particles: usize,
    /// Frames seen so far, wrapping round.
    pub frame_count: u64,
}

impl<P> ParticleSystem<P> {
    /// A system without particles.
    pub fn new(mode: ParticleMode, max_particles: usize) -> (r: ParticleSystem<P>)
        ensures
            r.particles@.len() == 0,
            r.mode == mode,
            r.max_particles == max_particles,
            r.frame_count == 0,
    {
        ParticleSystem { particles: Vec::new(), mode, max_particles, frame_count: 0 }
    }

    /// Changes the mode. A change removes all particles; setting the mode
    /// that is already set changes nothing.
    pub fn set_mode(&mut self, mode: ParticleMode)
        ensures
            final(self).mode == mode,
            final(self).max_particles == old(self).max_particles,
            final(self).frame_count == old(self).frame_count,
            old(self).mode == mode ==> final(self).particles == old(self).particles,
            old(self).mode != mode ==> final(self).particles@.len() == 0,
    {
        if self.mode != mode {
            self.mode = mode;
            self.particles.clear();
        }
    }

    /// The mode of the animation.
    pub fn mode(&self) -> (r: ParticleMode)
        ensures
            r == self.mode,
    {
        self.mode
    }

    /// Goes on to the next mode and removes all particles.
    pub fn toggle_mode(&mut self)
        ensures
            final(self).mode == old(self).mode.next_spec(),
            final(self).max_particles == old(self).max_particles,
            final(self).frame_count == old(self).frame_count,
            final(self).particles@.len() == 0,
    {
        let next = self.mode.next();
        self.set_mode(next);
    }

    /// Counts a frame, and says whether particles move in this mode.
    pub fn begin_frame(&mut self) -> (active: bool)
        ensures
            active == (old(self).mode != ParticleMode::Off),
            final(self).frame_count == if old(self).frame_count == u64::MAX {
                0
            } else {
                old(self).frame_count + 1
            },
            *final(self) == (ParticleSystem { frame_count: final(self).frame_count, ..*old(self) }),
    {
        self.frame_count = if self.frame_count == u64::MAX {
            0
        } else {
            self.frame_count + 1
        };
        self.mode != ParticleMode::Off
    }
}

/// Frames between two bursts of rain.
pub const RAIN_PERIOD: u64 = 3;

/// The number of rain drops to add in a frame, given what the dice rolled:
/// none outside every third frame or when the system is full, else the roll,
/// but no more than there is room for.
pub open spec fn rain_spawn_spec(frame_count: u64, alive: usize, max: usize, roll: usize) -> int {
    if frame_count % RAIN_PERIOD == 0 && alive < max {
        if roll <= max - alive {
            roll as int
        } else {
            max - alive
        }
    } else {
        0
    }
}

/// The number of rain drops to add in a frame, given what the dice rolled.
pub fn rain_spawn_count(frame_count: u64, alive: usize, max: usize, roll: usize) -> (r: usize)
    ensures
        r == rain_spawn_spec(frame_count, alive, max, roll),
{
    if frame_count % RAIN_PERIOD == 0 && alive < max {
        if roll <= max - alive {
            roll
        } else {
            max - alive
        }
    } else {
        0
    }
}

/// The number of stars to add so that half of the system's capacity is
/// alive.
pub fn star_spawn_count(alive: usize, max: usize) -> (r: usize)
    ensures
        r == if alive < max / 2 {
            max / 2 - alive
        } else {
            0
        },
{
    if alive < max / 2 {
        max / 2 - alive
    } else {
        0
    }
}

/// Cycling three times returns to the mode one started from.
pub proof fn lemma_mode_cycle(m: ParticleMode)
    ensures
        m.next_spec().next_spec().next_spec() == m,
{
}

} // verus!
