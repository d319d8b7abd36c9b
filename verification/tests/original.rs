use lau_weather::{Season, Strength, VfxPlan, VibeBand, Weather, WeatherEngine, WeatherState};

#[test]
fn weather_label() {
    assert_eq!(Weather::Sunny.label(), "Sunny");
    assert_eq!(Weather::MeteorShower.label(), "Meteor Shower");
    assert_eq!(Weather::CrystalRain.label(), "Crystal Rain");
}

#[test]
fn weather_state_new() {
    let ws = WeatherState::new(Weather::Rainy);
    assert_eq!(ws.current, Weather::Rainy);
    assert_eq!(ws.duration_ticks, 0);
    assert!(!ws.is_transitioning());
}

#[test]
fn weather_state_tick_increments() {
    let mut ws = WeatherState::new(Weather::Sunny);
    ws.tick(false);
    ws.tick(false);
    ws.tick(false);
    assert_eq!(ws.duration_ticks, 3);
}

#[test]
fn transition_to_starts_transition() {
    let mut ws = WeatherState::new(Weather::Sunny);
    assert!(ws.transition_to(Weather::Stormy));
    assert!(ws.is_transitioning());
    assert_eq!(ws.current, Weather::Stormy);
    assert_eq!(ws.previous_weather(), Weather::Sunny);
    assert_eq!(ws.duration_ticks, 0);
}

#[test]
fn transition_completes_after_enough_ticks() {
    // The blend progress is kept by the caller: speed 0.25 per tick.
    let speed: f64 = 0.25;
    let mut progress: f64 = 0.0;
    let mut ws = WeatherState::new(Weather::Sunny);
    assert!(ws.transition_to(Weather::Rainy));
    assert!(ws.is_transitioning());
    let mut step = |ws: &mut WeatherState| {
        let mut complete = false;
        if ws.is_transitioning() {
            progress += speed;
            complete = progress >= 1.0;
        }
        ws.tick(complete);
    };
    step(&mut ws); // 0.25
    assert!(ws.is_transitioning());
    step(&mut ws); // 0.50
    step(&mut ws); // 0.75
    assert!(ws.is_transitioning());
    step(&mut ws); // 1.0
    assert!(!ws.is_transitioning());
}

#[test]
fn transition_to_same_weather_noop() {
    let mut ws = WeatherState::new(Weather::Sunny);
    assert!(!ws.transition_to(Weather::Sunny));
    assert!(!ws.is_transitioning());
}

#[test]
fn vfx_from_sunny() {
    let p = Weather::Sunny.vfx_profile();
    // At intensity 1.0 the particle count is the full base count.
    assert_eq!((p.particles as f64 * 1.0) as usize, 50);
    assert_eq!(p.lightning, Strength::Constant(0));
}

#[test]
fn vfx_from_stormy_with_intensity() {
    let p = Weather::Stormy.vfx_profile();
    let i: f64 = 0.5;
    assert_eq!((p.particles as f64 * i) as usize, 250);
    match p.wind {
        Strength::PerIntensity(h) => assert!(((h as f64 / 100.0) * i - 0.5).abs() < f64::EPSILON),
        Strength::Constant(_) => panic!("storm wind grows with intensity"),
    }
    match p.lightning {
        Strength::PerIntensity(h) => assert!((h as f64 / 100.0) * i > 0.0),
        Strength::Constant(_) => panic!("storm lightning grows with intensity"),
    }
}

#[test]
fn vfx_from_aurora() {
    let p = Weather::Aurora.vfx_profile();
    assert_eq!(p.particles, 100);
    assert_eq!(p.color.1, 90);
}

#[test]
fn engine_new() {
    let engine = WeatherEngine::new(Season::Summer);
    assert_eq!(engine.season, Season::Summer);
    assert!(engine.room_weathers.is_empty());
}

#[test]
fn engine_update_room_vibe_joy() {
    let mut engine = WeatherEngine::new(Season::Spring);
    engine.update_room("room_1", VibeBand::Radiant, "joy"); // 0.8
    let ws = engine.get_room_weather("room_1").unwrap();
    assert_eq!(ws.current, Weather::Sunny);
}

#[test]
fn engine_update_room_negative_vibe() {
    let mut engine = WeatherEngine::new(Season::Winter);
    engine.update_room("room_2", VibeBand::Bleak, ""); // -0.7
    let ws = engine.get_room_weather("room_2").unwrap();
    assert_eq!(ws.current, Weather::Stormy);
}

#[test]
fn engine_update_room_confusion() {
    let mut engine = WeatherEngine::new(Season::Summer);
    engine.update_room("room_3", VibeBand::Mild, "confusion"); // 0.1
    let ws = engine.get_room_weather("room_3").unwrap();
    assert_eq!(ws.current, Weather::Foggy);
}

#[test]
fn engine_update_room_stable_aurora() {
    let mut engine = WeatherEngine::new(Season::Winter);
    engine.update_room("room_4", VibeBand::Bright, "stable and accurate"); // 0.5
    let ws = engine.get_room_weather("room_4").unwrap();
    assert_eq!(ws.current, Weather::Aurora);
}

#[test]
fn engine_update_room_dissolving() {
    let mut engine = WeatherEngine::new(Season::Autumn);
    engine.update_room("room_5", VibeBand::Mild, "dissolving"); // 0.0
    let ws = engine.get_room_weather("room_5").unwrap();
    assert_eq!(ws.current, Weather::CrystalRain);
}

#[test]
fn engine_transition_on_weather_change() {
    let mut engine = WeatherEngine::new(Season::Spring);
    engine.update_room("room_6", VibeBand::Radiant, "joy"); // 0.8
    assert_eq!(engine.get_room_weather("room_6").unwrap().current, Weather::Sunny);

    engine.update_room("room_6", VibeBand::Bleak, "fear"); // -0.6
    let ws = engine.get_room_weather("room_6").unwrap();
    assert_eq!(ws.current, Weather::Stormy);
    assert!(ws.is_transitioning());
}

#[test]
fn engine_tick_all() {
    let mut engine = WeatherEngine::new(Season::Spring);
    engine.update_room("a", VibeBand::Bright, ""); // 0.5
    engine.update_room("b", VibeBand::Gloomy, ""); // -0.3
    engine.tick_all(&Vec::new());
    assert_eq!(engine.get_room_weather("a").unwrap().duration_ticks, 1);
    assert_eq!(engine.get_room_weather("b").unwrap().duration_ticks, 1);
}

#[test]
fn engine_remove_room() {
    let mut engine = WeatherEngine::new(Season::Spring);
    engine.update_room("x", VibeBand::Bright, ""); // 0.5
    assert!(engine.get_room_weather("x").is_some());
    engine.remove_room("x");
    assert!(engine.get_room_weather("x").is_none());
}

#[test]
fn engine_get_room_vfx_no_transition() {
    let mut engine = WeatherEngine::new(Season::Spring);
    engine.update_room("vfx_room", VibeBand::Radiant, "joy"); // 0.8
    let plan = engine.get_room_vfx("vfx_room").unwrap();
    assert_eq!(plan, VfxPlan::Steady(Weather::Sunny));
    // intensity = 0.8*0.6 + 0.4 = 0.88, so particles = 50*0.88 = 44
    let intensity: f64 = (0.8f64.abs() * 0.6 + 0.4).clamp(0.0, 1.0);
    let p = Weather::Sunny.vfx_profile();
    assert_eq!((p.particles as f64 * intensity) as usize, 44);
}

#[test]
fn engine_get_room_vfx_during_transition() {
    let mut engine = WeatherEngine::new(Season::Spring);
    engine.update_room("vfx_room2", VibeBand::Radiant, "joy"); // 0.8
    engine.update_room("vfx_room2", VibeBand::Bleak, "fear"); // -0.6
    let plan = engine.get_room_vfx("vfx_room2").unwrap();
    assert_eq!(plan, VfxPlan::Blend { from: Weather::Sunny, to: Weather::Stormy });
    // At t=0 the blend is all from the previous weather (sunny, wind 0.1).
    assert_eq!(Weather::Sunny.vfx_profile().wind, Strength::Constant(10));
}

#[test]
fn season_weather_weights_sum_positive() {
    for season in [Season::Spring, Season::Summer, Season::Autumn, Season::Winter] {
        let weights = season.weather_weights();
        assert!(!weights.is_empty());
        let sum: u32 = weights.iter().map(|(_, w)| w).sum();
        assert!(sum > 0);
    }
}
