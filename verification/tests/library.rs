use lau_weather::{
    resolve_weather_lowercased, RoomChange, RoomTable, Season, Strength, VfxPlan, VibeBand,
    Weather, WeatherEngine, WeatherState,
};

const ALL: [Weather; 10] = [
    Weather::Sunny,
    Weather::Cloudy,
    Weather::Rainy,
    Weather::Stormy,
    Weather::Snowy,
    Weather::Aurora,
    Weather::Foggy,
    Weather::MeteorShower,
    Weather::CrystalRain,
    Weather::GoldenHour,
];

const BANDS: [VibeBand; 5] =
    [VibeBand::Radiant, VibeBand::Bright, VibeBand::Mild, VibeBand::Gloomy, VibeBand::Bleak];

#[test]
fn all_labels() {
    let labels: Vec<&str> = ALL.iter().map(|w| w.label()).collect();
    assert_eq!(
        labels,
        vec![
            "Sunny",
            "Cloudy",
            "Rainy",
            "Stormy",
            "Snowy",
            "Aurora",
            "Foggy",
            "Meteor Shower",
            "Crystal Rain",
            "Golden Hour"
        ]
    );
}

#[test]
fn emotion_rules_in_priority_order() {
    let r = resolve_weather_lowercased;
    assert_eq!(r(VibeBand::Radiant, "dissolving joy"), Weather::CrystalRain);
    assert_eq!(r(VibeBand::Bleak, "dissolve"), Weather::CrystalRain);
    assert_eq!(r(VibeBand::Radiant, "confused"), Weather::Foggy);
    assert_eq!(r(VibeBand::Radiant, "uncertain fear"), Weather::Foggy);
    assert_eq!(r(VibeBand::Bright, "clarity"), Weather::Aurora);
    assert_eq!(r(VibeBand::Radiant, "accurate joy"), Weather::Aurora);
    assert_eq!(r(VibeBand::Radiant, "joy"), Weather::Sunny);
    assert_eq!(r(VibeBand::Bright, "wonder"), Weather::GoldenHour);
    assert_eq!(r(VibeBand::Bleak, "awesome"), Weather::GoldenHour);
    assert_eq!(r(VibeBand::Radiant, "anger"), Weather::Stormy);
    assert_eq!(r(VibeBand::Radiant, "fear"), Weather::Stormy);
    assert_eq!(r(VibeBand::Radiant, "grief"), Weather::Rainy);
    assert_eq!(r(VibeBand::Radiant, "sadness"), Weather::Rainy);
    assert_eq!(r(VibeBand::Radiant, "nostalgic"), Weather::Snowy);
    assert_eq!(r(VibeBand::Bleak, "a memory"), Weather::Snowy);
}

#[test]
fn vibe_gated_rules_fall_back_below_threshold() {
    let r = resolve_weather_lowercased;
    // clarity needs a valence above 0.3
    assert_eq!(r(VibeBand::Mild, "stable"), Weather::Cloudy);
    // joy needs a valence above 0.7
    assert_eq!(r(VibeBand::Bright, "joy"), Weather::GoldenHour);
    assert_eq!(r(VibeBand::Gloomy, "joy"), Weather::Rainy);
    // a gated rule that does not fire lets a later keyword decide
    assert_eq!(r(VibeBand::Mild, "stable fear"), Weather::Stormy);
}

#[test]
fn vibe_fallback_table() {
    let expected = [
        Weather::Sunny,
        Weather::GoldenHour,
        Weather::Cloudy,
        Weather::Rainy,
        Weather::Stormy,
    ];
    for (band, w) in BANDS.iter().zip(expected.iter()) {
        assert_eq!(resolve_weather_lowercased(*band, ""), *w);
        assert_eq!(resolve_weather_lowercased(*band, "calm"), *w);
    }
}

#[test]
fn matching_is_on_lower_case_after_lowering() {
    let engine = WeatherEngine::new(Season::Spring);
    // The engine lowers the label first; the lowered-label rule sees it as is.
    assert_eq!(engine.resolve_weather(VibeBand::Radiant, "FEAR"), Weather::Stormy);
    assert_eq!(engine.resolve_weather(VibeBand::Mild, "Dissolving"), Weather::CrystalRain);
    assert_eq!(resolve_weather_lowercased(VibeBand::Radiant, "JOY"), Weather::Sunny);
    assert_eq!(resolve_weather_lowercased(VibeBand::Mild, "Dissolving"), Weather::Cloudy);
}

#[test]
fn transition_while_transitioning_restarts() {
    let mut ws = WeatherState::new(Weather::Sunny);
    assert!(ws.transition_to(Weather::Rainy));
    ws.tick(false);
    assert_eq!(ws.duration_ticks, 1);
    // Asking again for the current weather restarts the transition from it.
    assert!(ws.transition_to(Weather::Rainy));
    assert_eq!(ws.previous_weather(), Weather::Rainy);
    assert_eq!(ws.duration_ticks, 0);
    assert!(ws.is_transitioning());
}

#[test]
fn completion_flag_without_transition_only_counts() {
    let mut ws = WeatherState::new(Weather::Foggy);
    ws.tick(true);
    assert_eq!(ws.duration_ticks, 1);
    assert!(!ws.is_transitioning());
    assert_eq!(ws.previous_weather(), Weather::Foggy);
}

#[test]
fn update_room_reports_changes() {
    let mut engine = WeatherEngine::new(Season::Autumn);
    assert_eq!(engine.update_room("r", VibeBand::Radiant, "joy"), RoomChange::Created);
    assert_eq!(engine.update_room("r", VibeBand::Radiant, "joy"), RoomChange::Kept);
    assert_eq!(engine.update_room("r", VibeBand::Bleak, "grief"), RoomChange::TransitionStarted);
    let ws = engine.get_room_weather("r").unwrap();
    assert_eq!(ws.current, Weather::Rainy);
    assert_eq!(ws.previous_weather(), Weather::Sunny);
    // Same weather while transitioning: nothing changes.
    assert_eq!(engine.update_room("r", VibeBand::Radiant, "sad"), RoomChange::Kept);
    assert!(engine.get_room_weather("r").unwrap().is_transitioning());
}

#[test]
fn tick_all_ends_listed_transitions() {
    let mut engine = WeatherEngine::new(Season::Spring);
    engine.update_room("a", VibeBand::Radiant, "joy");
    engine.update_room("a", VibeBand::Bleak, "");
    engine.update_room("b", VibeBand::Radiant, "joy");
    engine.update_room("b", VibeBand::Bleak, "");
    engine.tick_all(&vec!["a".to_string()]);
    assert!(!engine.get_room_weather("a").unwrap().is_transitioning());
    assert!(engine.get_room_weather("b").unwrap().is_transitioning());
    assert_eq!(engine.get_room_weather("a").unwrap().duration_ticks, 1);
    assert_eq!(engine.get_room_vfx("a"), Some(VfxPlan::Steady(Weather::Stormy)));
    assert_eq!(
        engine.get_room_vfx("b"),
        Some(VfxPlan::Blend { from: Weather::Sunny, to: Weather::Stormy })
    );
    assert_eq!(engine.get_room_vfx("c"), None);
}

#[test]
fn room_table_operations() {
    let mut t = RoomTable::new();
    assert!(t.is_empty());
    assert_eq!(t.len(), 0);
    t.insert("a".to_string(), WeatherState::new(Weather::Sunny));
    t.insert("b".to_string(), WeatherState::new(Weather::Snowy));
    t.insert("a".to_string(), WeatherState::new(Weather::Foggy));
    assert_eq!(t.len(), 2);
    assert!(t.contains_key("a"));
    assert_eq!(t.get("a").unwrap().current, Weather::Foggy);
    assert_eq!(t.get("b").unwrap().current, Weather::Snowy);
    let mut ids = t.room_ids();
    ids.sort();
    assert_eq!(ids, vec!["a".to_string(), "b".to_string()]);
    t.remove("a");
    t.remove("zzz");
    assert_eq!(t.len(), 1);
    assert!(!t.contains_key("a"));
    assert!(t.get("a").is_none());
    assert!(!t.is_empty());
}

#[test]
fn season_weights_tables() {
    let spring = Season::Spring.weather_weights();
    assert_eq!(spring[0], (Weather::Sunny, 30));
    assert_eq!(spring.len(), 10);
    let summer = Season::Summer.weather_weights();
    assert_eq!(summer[0], (Weather::Sunny, 40));
    assert!(summer.contains(&(Weather::Snowy, 0)));
    assert!(summer.contains(&(Weather::MeteorShower, 10)));
    let autumn = Season::Autumn.weather_weights();
    assert_eq!(autumn[0], (Weather::Cloudy, 30));
    assert!(autumn.contains(&(Weather::Foggy, 20)));
    assert!(autumn.contains(&(Weather::GoldenHour, 20)));
    let winter = Season::Winter.weather_weights();
    assert_eq!(winter[0], (Weather::Snowy, 40));
    assert!(winter.contains(&(Weather::Aurora, 20)));
    assert!(winter.contains(&(Weather::CrystalRain, 10)));
    for season in [Season::Spring, Season::Summer, Season::Autumn, Season::Winter] {
        let ws = season.weather_weights();
        for w in ALL.iter() {
            assert_eq!(ws.iter().filter(|(k, _)| k == w).count(), 1);
        }
    }
}

#[test]
fn vfx_profile_table() {
    let expected: [(u32, (u32, u32, u32), Strength, Strength); 10] = [
        (50, (100, 95, 60), Strength::Constant(10), Strength::Constant(0)),
        (20, (70, 70, 75), Strength::Constant(30), Strength::Constant(0)),
        (300, (50, 60, 90), Strength::Constant(50), Strength::PerIntensity(2)),
        (500, (30, 35, 70), Strength::PerIntensity(100), Strength::PerIntensity(15)),
        (200, (95, 97, 100), Strength::Constant(20), Strength::Constant(0)),
        (100, (20, 90, 50), Strength::Constant(5), Strength::Constant(0)),
        (80, (80, 80, 82), Strength::Constant(5), Strength::Constant(0)),
        (40, (100, 60, 20), Strength::Constant(80), Strength::Constant(0)),
        (250, (70, 30, 100), Strength::Constant(15), Strength::Constant(0)),
        (60, (100, 75, 30), Strength::Constant(8), Strength::Constant(0)),
    ];
    for (w, e) in ALL.iter().zip(expected.iter()) {
        let p = w.vfx_profile();
        assert_eq!((p.particles, p.color, p.wind, p.lightning), *e);
    }
}
