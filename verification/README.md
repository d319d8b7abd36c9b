# lau-weather

Weather for the rooms of the Lau world, driven by each room's emotional state.

- `src/` is the verified library (Verus). It decides which weather an emotion
  label and a valence band resolve to (`resolve`), how a room's weather state
  moves through transitions (`state`), which rooms hold which state (`rooms`,
  `engine`), the seasonal weights in tenths (`season`) and the visual-effects
  profile of each weather type (`vfx`). Laws about these are proof functions
  beside the definitions they speak of.
- `app/` holds what is real-valued: the valence thresholds and the intensity
  formula, the blend progress of transitions, the visual effects as `f64`, and
  serde support with the same JSON shape as the library's types.
