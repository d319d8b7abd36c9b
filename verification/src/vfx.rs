use vstd::prelude::*;

use crate::weather::Weather;

verus! {

/// A visual-effects amount in hundredths (`15` stands for 0.15), either fixed or
/// multiplied by the weather's intensity (clamped to [0, 1]).
#[derive(Debug, Clone, Copy, PartialEq, Eq, Structural)]
pub enum Strength {
    Constant(u32),
    PerIntensity(u32),
}

/// What a weather type looks like at full intensity: the renderer's particle
/// count (always multiplied by the intensity and rounded down), the particle
/// colour as red, green and blue in hundredths, the wind speed and the chance of
/// lightning.
#[derive(Debug, Clone, Copy)]
pub struct VfxProfile {
    pub particles: u32,
    pub color: (u32, u32, u32),
    pub wind: Strength,
    pub lightning: Strength,
}

/// How the effects of a room are drawn: from one weather type, or blended from
/// the weather being left into the current one.
#[derive(Debug, Clone, Copy, PartialEq, Eq, Structural)]
pub enum VfxPlan {
    Steady(Weather),
    Blend { from: Weather, to: Weather },
}

/// The effects profile of each weather type.
pub open spec fn profile_of(w: Weather) -> VfxProfile {
    match w {
        Weather::Sunny => VfxProfile {
            particles: 50,
            color: (100, 95, 60),
            wind: Strength::Constant(10),
            lightning: Strength::Constant(0),
        },
        Weather::Cloudy => VfxProfile {
            particles: 20,
            color: (70, 70, 75),
            wind: Strength::Constant(30),
            lightning: Strength::Constant(0),
        },
        Weather::Rainy => VfxProfile {
            particles: 300,
            color: (50, 60, 90),
            wind: Strength::Constant(50),
            lightning: Strength::PerIntensity(2),
        },
        Weather::Stormy => VfxProfile {
            particles: 500,
            color: (30, 35, 70),
            wind: Strength::PerIntensity(100),
            lightning: Strength::PerIntensity(15),
        },
        Weather::Snowy => VfxProfile {
            particles: 200,
            color: (95, 97, 100),
            wind: Strength::Constant(20),
            lightning: Strength::Constant(0),
        },
        Weather::Aurora => VfxProfile {
            particles: 100,
            color: (20, 90, 50),
            wind: Strength::Constant(5),
            lightning: Strength::Constant(0),
        },
        Weather::Foggy => VfxProfile {
            particles: 80,
            color: (80, 80, 82),
            wind: Strength::Constant(5),
            lightning: Strength::Constant(0),
        },
        Weather::MeteorShower => VfxProfile {
            particles: 40,
            color: (100, 60, 20),
            wind: Strength::Constant(80),
            lightning: Strength::Constant(0),
        },
        Weather::CrystalRain => VfxProfile {
            particles: 250,
            color: (70, 30, 100),
            wind: Strength::Constant(15),
            lightning: Strength::Constant(0),
        },
        Weather::GoldenHour => VfxProfile {
            particles: 60,
            color: (100, 75, 30),
            wind: Strength::Constant(8),
            lightning: Strength::Constant(0),
        },
    }
}

impl Weather {
    /// The visual-effects profile of this weather type.
    pub fn vfx_profile(&self) -> (p: VfxProfile)
        ensures
            p == profile_of(*self),
    {
        match self {
            Weather::Sunny => VfxProfile {
                particles: 50,
                color: (100, 95, 60),
                wind: Strength::Constant(10),
                lightning: Strength::Constant(0),
            },
            Weather::Cloudy => VfxProfile {
                particles: 20,
                color: (70, 70, 75),
                wind: Strength::Constant(30),
                lightning: Strength::Constant(0),
            },
            Weather::Rainy => VfxProfile {
                particles: 300,
                color: (50, 60, 90),
                wind: Strength::Constant(50),
                lightning: Strength::PerIntensity(2),
            },
            Weather::Stormy => VfxProfile {
                particles: 500,
                color: (30, 35, 70),
                wind: Strength::PerIntensity(100),
                lightning: Strength::PerIntensity(15),
            },
            Weather::Snowy => VfxProfile {
                particles: 200,
                color: (95, 97, 100),
                wind: Strength::Constant(20),
                lightning: Strength::Constant(0),
            },
            Weather::Aurora => VfxProfile {
                particles: 100,
                color: (20, 90, 50),
                wind: Strength::Constant(5),
                lightning: Strength::Constant(0),
            },
            Weather::Foggy => VfxProfile {
                particles: 80,
                color: (80, 80, 82),
                wind: Strength::Constant(5),
                lightning: Strength::Constant(0),
            },
            Weather::MeteorShower => VfxProfile {
                particles: 40,
                color: (100, 60, 20),
                wind: Strength::Constant(80),
                lightning: Strength::Constant(0),
            },
            Weather::CrystalRain => VfxProfile {
                particles: 250,
                color: (70, 30, 100),
                wind: Strength::Constant(15),
                lightning: Strength::Constant(0),
            },
            Weather::GoldenHour => VfxProfile {
                particles: 60,
                color: (100, 75, 30),
                wind: Strength::Constant(8),
                lightning: Strength::Constant(0),
            },
        }
    }
}

/// Only rain and storms can bring lightning, only a storm's wind grows with the
/// intensity, and every weather type shows some particles.
pub proof fn lemma_lightning_and_wind(w: Weather)
    ensures
        (w != Weather::Rainy && w != Weather::Stormy) ==> profile_of(w).lightning
            == Strength::Constant(0),
        (profile_of(w).wind is PerIntensity) <==> w == Weather::Stormy,
        profile_of(w).particles > 0,
{
}

} // verus!
