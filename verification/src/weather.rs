use vstd::prelude::*;

verus! {

/// Weather types available in the Lau world.
#[derive(Debug, Clone, Copy, PartialEq, Eq, Hash, Structural)]
pub enum Weather {
    Sunny,
    Cloudy,
    Rainy,
    Stormy,
    Snowy,
    Aurora,
    Foggy,
    MeteorShower,
    CrystalRain,
    GoldenHour,
}

/// The human-readable label of a weather type.
pub open spec fn label_of(w: Weather) -> Seq<char> {
    match w {
        Weather::Sunny => "Sunny"@,
        Weather::Cloudy => "Cloudy"@,
        Weather::Rainy => "Rainy"@,
        Weather::Stormy => "Stormy"@,
        Weather::Snowy => "Snowy"@,
        Weather::Aurora => "Aurora"@,
        Weather::Foggy => "Foggy"@,
        Weather::MeteorShower => "Meteor Shower"@,
        Weather::CrystalRain => "Crystal Rain"@,
        Weather::GoldenHour => "Golden Hour"@,
    }
}

impl Weather {
    /// Returns a human-readable label for the weather variant.
    pub fn label(&self) -> (s: &'static str)
        ensures
            s@ == label_of(*self),
    {
        match self {
            Weather::Sunny => "Sunny",
            Weather::Cloudy => "Cloudy",
            Weather::Rainy => "Rainy",
            Weather::Stormy => "Stormy",
            Weather::Snowy => "Snowy",
            Weather::Aurora => "Aurora",
            Weather::Foggy => "Foggy",
            Weather::MeteorShower => "Meteor Shower",
            Weather::CrystalRain => "Crystal Rain",
            Weather::GoldenHour => "Golden Hour",
        }
    }
}

} // verus!
