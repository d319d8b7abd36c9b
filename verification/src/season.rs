use vstd::prelude::*;

use crate::weather::Weather;

verus! {

/// Seasons affect base weather probabilities.
#[derive(Debug, Clone, Copy, PartialEq, Eq, Hash, Structural)]
pub enum Season {
    Spring,
    Summer,
    Autumn,
    Winter,
}

/// The relative weight of each weather type in a season, in tenths (a weight of
/// `25` stands for 2.5), heaviest first.
pub open spec fn weights_of(season: Season) -> Seq<(Weather, u32)> {
    match season {
        Season::Spring => seq![
            (Weather::Sunny, 30u32),
            (Weather::Cloudy, 25u32),
            (Weather::Rainy, 20u32),
            (Weather::GoldenHour, 15u32),
            (Weather::Foggy, 10u32),
            (Weather::Stormy, 5u32),
            (Weather::Snowy, 2u32),
            (Weather::Aurora, 1u32),
            (Weather::MeteorShower, 1u32),
            (Weather::CrystalRain, 1u32),
        ],
        Season::Summer => seq![
            (Weather::Sunny, 40u32),
            (Weather::GoldenHour, 20u32),
            (Weather::Cloudy, 15u32),
            (Weather::Stormy, 10u32),
            (Weather::MeteorShower, 10u32),
            (Weather::Rainy, 5u32),
            (Weather::Foggy, 3u32),
            (Weather::Aurora, 1u32),
            (Weather::CrystalRain, 1u32),
            (Weather::Snowy, 0u32),
        ],
        Season::Autumn => seq![
            (Weather::Cloudy, 30u32),
            (Weather::Rainy, 25u32),
            (Weather::Foggy, 20u32),
            (Weather::GoldenHour, 20u32),
            (Weather::Stormy, 15u32),
            (Weather::Sunny, 10u32),
            (Weather::CrystalRain, 5u32),
            (Weather::Snowy, 5u32),
            (Weather::Aurora, 3u32),
            (Weather::MeteorShower, 2u32),
        ],
        Season::Winter => seq![
            (Weather::Snowy, 40u32),
            (Weather::Cloudy, 25u32),
            (Weather::Aurora, 20u32),
            (Weather::Foggy, 15u32),
            (Weather::Stormy, 10u32),
            (Weather::CrystalRain, 10u32),
            (Weather::Rainy, 5u32),
            (Weather::Sunny, 5u32),
            (Weather::GoldenHour, 3u32),
            (Weather::MeteorShower, 2u32),
        ],
    }
}

impl Season {
    /// Returns how likely each weather type is during this season, as relative
    /// weights in tenths (they are not probabilities; callers normalise them).
    pub fn weather_weights(&self) -> (ws: Vec<(Weather, u32)>)
        ensures
            ws@ == weights_of(*self),
    {
        let ws = match self {
            Season::Spring => vec![
                (Weather::Sunny, 30),
                (Weather::Cloudy, 25),
                (Weather::Rainy, 20),
                (Weather::GoldenHour, 15),
                (Weather::Foggy, 10),
                (Weather::Stormy, 5),
                (Weather::Snowy, 2),
                (Weather::Aurora, 1),
                (Weather::MeteorShower, 1),
                (Weather::CrystalRain, 1),
            ],
            Season::Summer => vec![
                (Weather::Sunny, 40),
                (Weather::GoldenHour, 20),
                (Weather::Cloudy, 15),
                (Weather::Stormy, 10),
                (Weather::MeteorShower, 10),
                (Weather::Rainy, 5),
                (Weather::Foggy, 3),
                (Weather::Aurora, 1),
                (Weather::CrystalRain, 1),
                (Weather::Snowy, 0),
            ],
            Season::Autumn => vec![
                (Weather::Cloudy, 30),
                (Weather::Rainy, 25),
                (Weather::Foggy, 20),
                (Weather::GoldenHour, 20),
                (Weather::Stormy, 15),
                (Weather::Sunny, 10),
                (Weather::CrystalRain, 5),
                (Weather::Snowy, 5),
                (Weather::Aurora, 3),
                (Weather::MeteorShower, 2),
            ],
            Season::Winter => vec![
                (Weather::Snowy, 40),
                (Weather::Cloudy, 25),
                (Weather::Aurora, 20),
                (Weather::Foggy, 15),
                (Weather::Stormy, 10),
                (Weather::CrystalRain, 10),
                (Weather::Rainy, 5),
                (Weather::Sunny, 5),
                (Weather::GoldenHour, 3),
                (Weather::MeteorShower, 2),
            ],
        };
        proof {
            assert(ws@ =~= weights_of(*self));
        }
        ws
    }
}

/// The weather types of a weight list, in order.
pub open spec fn kinds(ws: Seq<(Weather, u32)>) -> Seq<Weather> {
    ws.map_values(|p: (Weather, u32)| p.0)
}

/// The sum of the weights in a list.
pub open spec fn total(ws: Seq<(Weather, u32)>) -> int
    decreases ws.len(),
{
    if ws.len() == 0 {
        0
    } else {
        total(ws.drop_last()) + ws.last().1
    }
}

/// Every season weighs every weather type exactly once.
pub proof fn lemma_each_weather_weighed_once(season: Season, w: Weather)
    ensures
        kinds(weights_of(season)).no_duplicates(),
        kinds(weights_of(season)).contains(w),
{
    let ks = kinds(weights_of(season));
    assert(ks.len() == 10);
    assert(ks[0] == weights_of(season)[0].0);
    assert(ks[1] == weights_of(season)[1].0);
    assert(ks[2] == weights_of(season)[2].0);
    assert(ks[3] == weights_of(season)[3].0);
    assert(ks[4] == weights_of(season)[4].0);
    assert(ks[5] == weights_of(season)[5].0);
    assert(ks[6] == weights_of(season)[6].0);
    assert(ks[7] == weights_of(season)[7].0);
    assert(ks[8] == weights_of(season)[8].0);
    assert(ks[9] == weights_of(season)[9].0);
    match w {
        Weather::Sunny => {},
        _ => {},
    }
}

/// The weather type that weighs most in a season.
pub open spec fn dominant_weather(season: Season) -> Weather {
    match season {
        Season::Spring => Weather::Sunny,
        Season::Summer => Weather::Sunny,
        Season::Autumn => Weather::Cloudy,
        Season::Winter => Weather::Snowy,
    }
}

/// The weights of every season are listed heaviest first, the first being the
/// season's dominant weather, and they add up to more than zero.
pub proof fn lemma_weights_ordered_and_positive(season: Season)
    ensures
        weights_of(season).len() == 10,
        weights_of(season)[0].0 == dominant_weather(season),
        forall|i: int, j: int|
            0 <= i <= j < 10 ==> weights_of(season)[j].1 <= weights_of(season)[i].1,
        total(weights_of(season)) > 0,
{
    reveal_with_fuel(total, 11);
    let ws = weights_of(season);
    assert(total(ws) == ws[0].1 + ws[1].1 + ws[2].1 + ws[3].1 + ws[4].1 + ws[5].1 + ws[6].1
        + ws[7].1 + ws[8].1 + ws[9].1) by {
        assert(ws.drop_last().drop_last().drop_last().drop_last().drop_last().drop_last(
        ).drop_last().drop_last().drop_last().drop_last() =~= Seq::<(Weather, u32)>::empty());
    }
}

/// There is no snow in summer.
pub proof fn lemma_no_snow_in_summer()
    ensures
        weights_of(Season::Summer)[9] == (Weather::Snowy, 0u32),
        forall|i: int|
            0 <= i < 9 ==> weights_of(Season::Summer)[i].0 != Weather::Snowy,
{
}

/// The list `ws` pairs weather `w` with weight `x` (in tenths).
pub open spec fn weighs(ws: Seq<(Weather, u32)>, w: Weather, x: u32) -> bool {
    exists|i: int| 0 <= i < ws.len() && ws[i] == (w, x)
}

/// The weight of each weather type in spring (in tenths): Sunny 3, Cloudy 2.5, Rainy 2, Stormy 0.5, Snowy 0.2, Aurora 0.1, Foggy 1, MeteorShower 0.1, CrystalRain 0.1, GoldenHour 1.5.
/// With `lemma_each_weather_weighed_once`, each weather type has exactly this
/// weight.
pub proof fn lemma_spring_weights()
    ensures
        weighs(weights_of(Season::Spring), Weather::Sunny, 30u32),
        weighs(weights_of(Season::Spring), Weather::Cloudy, 25u32),
        weighs(weights_of(Season::Spring), Weather::Rainy, 20u32),
        weighs(weights_of(Season::Spring), Weather::Stormy, 5u32),
        weighs(weights_of(Season::Spring), Weather::Snowy, 2u32),
        weighs(weights_of(Season::Spring), Weather::Aurora, 1u32),
        weighs(weights_of(Season::Spring), Weather::Foggy, 10u32),
        weighs(weights_of(Season::Spring), Weather::MeteorShower, 1u32),
        weighs(weights_of(Season::Spring), Weather::CrystalRain, 1u32),
        weighs(weights_of(Season::Spring), Weather::GoldenHour, 15u32),
{
    assert(weights_of(Season::Spring)[0] == (Weather::Sunny, 30u32));
    assert(weights_of(Season::Spring)[1] == (Weather::Cloudy, 25u32));
    assert(weights_of(Season::Spring)[2] == (Weather::Rainy, 20u32));
    assert(weights_of(Season::Spring)[3] == (Weather::GoldenHour, 15u32));
    assert(weights_of(Season::Spring)[4] == (Weather::Foggy, 10u32));
    assert(weights_of(Season::Spring)[5] == (Weather::Stormy, 5u32));
    assert(weights_of(Season::Spring)[6] == (Weather::Snowy, 2u32));
    assert(weights_of(Season::Spring)[7] == (Weather::Aurora, 1u32));
    assert(weights_of(Season::Spring)[8] == (Weather::MeteorShower, 1u32));
    assert(weights_of(Season::Spring)[9] == (Weather::CrystalRain, 1u32));
}

/// The weight of each weather type in summer (in tenths): Sunny 4, Cloudy 1.5, Rainy 0.5, Stormy 1, Snowy 0, Aurora 0.1, Foggy 0.3, MeteorShower 1, CrystalRain 0.1, GoldenHour 2.
/// With `lemma_each_weather_weighed_once`, each weather type has exactly this
/// weight.
pub proof fn lemma_summer_weights()
    ensures
        weighs(weights_of(Season::Summer), Weather::Sunny, 40u32),
        weighs(weights_of(Season::Summer), Weather::Cloudy, 15u32),
        weighs(weights_of(Season::Summer), Weather::Rainy, 5u32),
        weighs(weights_of(Season::Summer), Weather::Stormy, 10u32),
        weighs(weights_of(Season::Summer), Weather::Snowy, 0u32),
        weighs(weights_of(Season::Summer), Weather::Aurora, 1u32),
        weighs(weights_of(Season::Summer), Weather::Foggy, 3u32),
        weighs(weights_of(Season::Summer), Weather::MeteorShower, 10u32),
        weighs(weights_of(Season::Summer), Weather::CrystalRain, 1u32),
        weighs(weights_of(Season::Summer), Weather::GoldenHour, 20u32),
{
    assert(weights_of(Season::Summer)[0] == (Weather::Sunny, 40u32));
    assert(weights_of(Season::Summer)[1] == (Weather::GoldenHour, 20u32));
    assert(weights_of(Season::Summer)[2] == (Weather::Cloudy, 15u32));
    assert(weights_of(Season::Summer)[3] == (Weather::Stormy, 10u32));
    assert(weights_of(Season::Summer)[4] == (Weather::MeteorShower, 10u32));
    assert(weights_of(Season::Summer)[5] == (Weather::Rainy, 5u32));
    assert(weights_of(Season::Summer)[6] == (Weather::Foggy, 3u32));
    assert(weights_of(Season::Summer)[7] == (Weather::Aurora, 1u32));
    assert(weights_of(Season::Summer)[8] == (Weather::CrystalRain, 1u32));
    assert(weights_of(Season::Summer)[9] == (Weather::Snowy, 0u32));
}

/// The weight of each weather type in autumn (in tenths): Sunny 1, Cloudy 3, Rainy 2.5, Stormy 1.5, Snowy 0.5, Aurora 0.3, Foggy 2, MeteorShower 0.2, CrystalRain 0.5, GoldenHour 2.
/// With `lemma_each_weather_weighed_once`, each weather type has exactly this
/// weight.
pub proof fn lemma_autumn_weights()
    ensures
        weighs(weights_of(Season::Autumn), Weather::Sunny, 10u32),
        weighs(weights_of(Season::Autumn), Weather::Cloudy, 30u32),
        weighs(weights_of(Season::Autumn), Weather::Rainy, 25u32),
        weighs(weights_of(Season::Autumn), Weather::Stormy, 15u32),
        weighs(weights_of(Season::Autumn), Weather::Snowy, 5u32),
        weighs(weights_of(Season::Autumn), Weather::Aurora, 3u32),
        weighs(weights_of(Season::Autumn), Weather::Foggy, 20u32),
        weighs(weights_of(Season::Autumn), Weather::MeteorShower, 2u32),
        weighs(weights_of(Season::Autumn), Weather::CrystalRain, 5u32),
        weighs(weights_of(Season::Autumn), Weather::GoldenHour, 20u32),
{
    assert(weights_of(Season::Autumn)[0] == (Weather::Cloudy, 30u32));
    assert(weights_of(Season::Autumn)[1] == (Weather::Rainy, 25u32));
    assert(weights_of(Season::Autumn)[2] == (Weather::Foggy, 20u32));
    assert(weights_of(Season::Autumn)[3] == (Weather::GoldenHour, 20u32));
    assert(weights_of(Season::Autumn)[4] == (Weather::Stormy, 15u32));
    assert(weights_of(Season::Autumn)[5] == (Weather::Sunny, 10u32));
    assert(weights_of(Season::Autumn)[6] == (Weather::CrystalRain, 5u32));
    assert(weights_of(Season::Autumn)[7] == (Weather::Snowy, 5u32));
    assert(weights_of(Season::Autumn)[8] == (Weather::Aurora, 3u32));
    assert(weights_of(Season::Autumn)[9] == (Weather::MeteorShower, 2u32));
}

/// The weight of each weather type in winter (in tenths): Sunny 0.5, Cloudy 2.5, Rainy 0.5, Stormy 1, Snowy 4, Aurora 2, Foggy 1.5, MeteorShower 0.2, CrystalRain 1, GoldenHour 0.3.
/// With `lemma_each_weather_weighed_once`, each weather type has exactly this
/// weight.
pub proof fn lemma_winter_weights()
    ensures
        weighs(weights_of(Season::Winter), Weather::Sunny, 5u32),
        weighs(weights_of(Season::Winter), Weather::Cloudy, 25u32),
        weighs(weights_of(Season::Winter), Weather::Rainy, 5u32),
        weighs(weights_of(Season::Winter), Weather::Stormy, 10u32),
        weighs(weights_of(Season::Winter), Weather::Snowy, 40u32),
        weighs(weights_of(Season::Winter), Weather::Aurora, 20u32),
        weighs(weights_of(Season::Winter), Weather::Foggy, 15u32),
        weighs(weights_of(Season::Winter), Weather::MeteorShower, 2u32),
        weighs(weights_of(Season::Winter), Weather::CrystalRain, 10u32),
        weighs(weights_of(Season::Winter), Weather::GoldenHour, 3u32),
{
    assert(weights_of(Season::Winter)[0] == (Weather::Snowy, 40u32));
    assert(weights_of(Season::Winter)[1] == (Weather::Cloudy, 25u32));
    assert(weights_of(Season::Winter)[2] == (Weather::Aurora, 20u32));
    assert(weights_of(Season::Winter)[3] == (Weather::Foggy, 15u32));
    assert(weights_of(Season::Winter)[4] == (Weather::Stormy, 10u32));
    assert(weights_of(Season::Winter)[5] == (Weather::CrystalRain, 10u32));
    assert(weights_of(Season::Winter)[6] == (Weather::Rainy, 5u32));
    assert(weights_of(Season::Winter)[7] == (Weather::Sunny, 5u32));
    assert(weights_of(Season::Winter)[8] == (Weather::GoldenHour, 3u32));
    assert(weights_of(Season::Winter)[9] == (Weather::MeteorShower, 2u32));
}

} // verus!
