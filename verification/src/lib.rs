//! Weather for the rooms of the Lau world, as a mirror of their emotional state:
//! emotion labels and valence resolve to a weather type, each room's weather
//! changes through transitions, and each weather type has a visual-effects
//! profile and a seasonal weight.

pub mod engine;
pub mod resolve;
pub mod rooms;
pub mod season;
pub mod state;
pub mod text;
pub mod vfx;
pub mod weather;

pub use engine::{RoomChange, WeatherEngine};
pub use resolve::{resolve_weather_lowercased, VibeBand};
pub use rooms::RoomTable;
pub use season::Season;
pub use state::WeatherState;
pub use vfx::{Strength, VfxPlan, VfxProfile};
pub use weather::Weather;
