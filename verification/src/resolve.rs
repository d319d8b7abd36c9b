use vstd::prelude::*;

use crate::text::{chars_of, contains_str, has_substring};
use crate::weather::Weather;

verus! {

/// Where an emotional valence (from -1.0, very negative, to 1.0, very positive)
/// falls relative to the thresholds that decide the weather.
#[derive(Debug, Clone, Copy, PartialEq, Eq, Hash, Structural)]
pub enum VibeBand {
    /// Above 0.7.
    Radiant,
    /// Above 0.3, at most 0.7.
    Bright,
    /// Above -0.1, at most 0.3.
    Mild,
    /// Above -0.5, at most -0.1.
    Gloomy,
    /// At most -0.5 (a valence that is not a number also lands here:
    /// it exceeds no threshold).
    Bleak,
}

impl VibeBand {
    /// The valence is above 0.7.
    pub open spec fn above_seven_tenths(self) -> bool {
        self is Radiant
    }

    /// The valence is above 0.3.
    pub open spec fn above_three_tenths(self) -> bool {
        self is Radiant || self is Bright
    }
}

/// The weather chosen by valence alone, when no emotion rule applies.
pub open spec fn vibe_weather(vibe: VibeBand) -> Weather {
    match vibe {
        VibeBand::Radiant => Weather::Sunny,
        VibeBand::Bright => Weather::GoldenHour,
        VibeBand::Mild => Weather::Cloudy,
        VibeBand::Gloomy => Weather::Rainy,
        VibeBand::Bleak => Weather::Stormy,
    }
}

/// The emotion mentions dissolving.
pub open spec fn mentions_dissolving(e: Seq<char>) -> bool {
    has_substring(e, "dissolv"@) || has_substring(e, "dissolve"@)
}

/// The emotion mentions confusion or uncertainty.
pub open spec fn mentions_confusion(e: Seq<char>) -> bool {
    has_substring(e, "confus"@) || has_substring(e, "uncertain"@)
}

/// The emotion mentions accuracy, stability or clarity.
pub open spec fn mentions_clarity(e: Seq<char>) -> bool {
    has_substring(e, "accurate"@) || has_substring(e, "stable"@) || has_substring(e, "clarity"@)
}

/// The emotion mentions joy.
pub open spec fn mentions_joy(e: Seq<char>) -> bool {
    has_substring(e, "joy"@)
}

/// The emotion mentions wonder or awe.
pub open spec fn mentions_wonder(e: Seq<char>) -> bool {
    has_substring(e, "wonder"@) || has_substring(e, "awe"@)
}

/// The emotion mentions fear or anger.
pub open spec fn mentions_fear(e: Seq<char>) -> bool {
    has_substring(e, "fear"@) || has_substring(e, "anger"@)
}

/// The emotion mentions sadness or grief.
pub open spec fn mentions_sadness(e: Seq<char>) -> bool {
    has_substring(e, "sad"@) || has_substring(e, "grief"@)
}

/// The emotion mentions nostalgia or memory.
pub open spec fn mentions_nostalgia(e: Seq<char>) -> bool {
    has_substring(e, "nostalg"@) || has_substring(e, "memory"@)
}

/// The weather for a (lower-case) emotion label and a valence band: the emotion
/// rules in priority order, then the valence thresholds.
pub open spec fn weather_rule(e: Seq<char>, vibe: VibeBand) -> Weather {
    if mentions_dissolving(e) {
        Weather::CrystalRain
    } else if mentions_confusion(e) {
        Weather::Foggy
    } else if mentions_clarity(e) && vibe.above_three_tenths() {
        Weather::Aurora
    } else if mentions_joy(e) && vibe.above_seven_tenths() {
        Weather::Sunny
    } else if mentions_wonder(e) {
        Weather::GoldenHour
    } else if mentions_fear(e) {
        Weather::Stormy
    } else if mentions_sadness(e) {
        Weather::Rainy
    } else if mentions_nostalgia(e) {
        Weather::Snowy
    } else {
        vibe_weather(vibe)
    }
}

/// Resolves an emotion label that is already in lower case, and a valence band,
/// to a weather type.
pub fn resolve_weather_lowercased(vibe: VibeBand, lowered: &str) -> (w: Weather)
    ensures
        w == weather_rule(lowered@, vibe),
{
    let e = chars_of(lowered);
    if contains_str(&e, "dissolv") || contains_str(&e, "dissolve") {
        return Weather::CrystalRain;
    }
    if contains_str(&e, "confus") || contains_str(&e, "uncertain") {
        return Weather::Foggy;
    }
    if (contains_str(&e, "accurate") || contains_str(&e, "stable") || contains_str(&e, "clarity"))
        && (vibe == VibeBand::Radiant || vibe == VibeBand::Bright) {
        return Weather::Aurora;
    }
    if contains_str(&e, "joy") && vibe == VibeBand::Radiant {
        return Weather::Sunny;
    }
    if contains_str(&e, "wonder") || contains_str(&e, "awe") {
        return Weather::GoldenHour;
    }
    if contains_str(&e, "fear") || contains_str(&e, "anger") {
        return Weather::Stormy;
    }
    if contains_str(&e, "sad") || contains_str(&e, "grief") {
        return Weather::Rainy;
    }
    if contains_str(&e, "nostalg") || contains_str(&e, "memory") {
        return Weather::Snowy;
    }
    match vibe {
        VibeBand::Radiant => Weather::Sunny,
        VibeBand::Bright => Weather::GoldenHour,
        VibeBand::Mild => Weather::Cloudy,
        VibeBand::Gloomy => Weather::Rainy,
        VibeBand::Bleak => Weather::Stormy,
    }
}

/// The emotion mentions one of the keywords whose weather does not depend on the
/// valence.
pub open spec fn mentions_unconditional(e: Seq<char>) -> bool {
    mentions_dissolving(e) || mentions_confusion(e) || mentions_wonder(e) || mentions_fear(e)
        || mentions_sadness(e) || mentions_nostalgia(e)
}

/// An emotion that mentions dissolving always brings crystal rain, whatever the
/// valence.
pub proof fn lemma_dissolving_brings_crystal_rain(e: Seq<char>, vibe: VibeBand)
    requires
        mentions_dissolving(e),
    ensures
        weather_rule(e, vibe) == Weather::CrystalRain,
{
}

/// When the emotion mentions neither clarity nor joy (the two rules gated by the
/// valence) but does mention another keyword, the valence does not matter.
pub proof fn lemma_emotion_rules_ignore_vibe(e: Seq<char>, v1: VibeBand, v2: VibeBand)
    requires
        !mentions_clarity(e),
        !mentions_joy(e),
        mentions_unconditional(e),
    ensures
        weather_rule(e, v1) == weather_rule(e, v2),
{
}

/// When no emotion keyword appears, the valence alone decides the weather.
pub proof fn lemma_vibe_fallback(e: Seq<char>, vibe: VibeBand)
    requires
        !mentions_unconditional(e),
        !mentions_clarity(e),
        !mentions_joy(e),
    ensures
        weather_rule(e, vibe) == vibe_weather(vibe),
{
}

/// The sun only comes out for a valence above 0.7, and the aurora only for a
/// valence above 0.3.
pub proof fn lemma_bright_weather_needs_high_vibe(e: Seq<char>, vibe: VibeBand)
    ensures
        weather_rule(e, vibe) == Weather::Sunny ==> vibe.above_seven_tenths(),
        weather_rule(e, vibe) == Weather::Aurora ==> vibe.above_three_tenths(),
{
}

/// An emotion that mentions accuracy, stability or clarity, but neither
/// dissolving nor confusion, brings the aurora for every valence above 0.3,
/// whichever band above 0.3 it falls in and whatever else it mentions.
pub proof fn lemma_clarity_brings_aurora(e: Seq<char>, vibe: VibeBand)
    requires
        has_substring(e, "accurate"@) || has_substring(e, "stable"@) || has_substring(
            e,
            "clarity"@,
        ),
        !has_substring(e, "dissolv"@),
        !has_substring(e, "dissolve"@),
        !has_substring(e, "confus"@),
        !has_substring(e, "uncertain"@),
        vibe == VibeBand::Radiant || vibe == VibeBand::Bright,
    ensures
        weather_rule(e, vibe) == Weather::Aurora,
        weather_rule(e, VibeBand::Radiant) == weather_rule(e, VibeBand::Bright),
{
}

} // verus!
