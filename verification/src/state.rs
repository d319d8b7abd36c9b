use vstd::prelude::*;

use crate::weather::Weather;

verus! {

/// The weather of a single weather system (for example one room): what it is now,
/// how many ticks it has lasted, and the weather it is blending away from while a
/// transition runs.
///
/// The intensity, the transition speed and the blend progress are real numbers
/// that this type does not hold; a caller that keeps them tells `tick` whether
/// the progress reached its end.
#[derive(Debug, Clone, Copy)]
pub struct WeatherState {
    pub current: Weather,
    pub duration_ticks: u64,
    pub transitioning_from: Option<Weather>,
}

impl WeatherState {
    /// A fresh state: the given weather, no ticks elapsed, no transition.
    pub open spec fn spec_new(weather: Weather) -> WeatherState {
        WeatherState { current: weather, duration_ticks: 0, transitioning_from: None }
    }

    /// A transition is in progress.
    pub open spec fn spec_is_transitioning(self) -> bool {
        self.transitioning_from is Some
    }

    /// The weather being left while transitioning, otherwise the current one.
    pub open spec fn spec_previous(self) -> Weather {
        match self.transitioning_from {
            Some(w) => w,
            None => self.current,
        }
    }

    /// Asking for `weather` starts a transition unless it is already the
    /// current weather with no transition running.
    pub open spec fn starts_transition(self, weather: Weather) -> bool {
        !(weather == self.current && self.transitioning_from is None)
    }

    /// The state after asking for a transition to `weather`.
    pub open spec fn after_transition(self, weather: Weather) -> WeatherState {
        if self.starts_transition(weather) {
            WeatherState {
                current: weather,
                duration_ticks: 0,
                transitioning_from: Some(self.current),
            }
        } else {
            self
        }
    }

    /// The state after one tick; `progress_complete` says whether the blend
    /// progress of a running transition reached its end on this tick.
    pub open spec fn after_tick(self, progress_complete: bool) -> WeatherState
        recommends
            self.duration_ticks < u64::MAX,
    {
        WeatherState {
            current: self.current,
            duration_ticks: (self.duration_ticks + 1) as u64,
            transitioning_from: if progress_complete {
                None
            } else {
                self.transitioning_from
            },
        }
    }

    /// Create a new weather state with the given weather.
    pub fn new(weather: Weather) -> (s: WeatherState)
        ensures
            s == WeatherState::spec_new(weather),
    {
        WeatherState { current: weather, duration_ticks: 0, transitioning_from: None }
    }

    /// Advance the weather by one tick. `progress_complete` says whether the blend
    /// progress of a running transition reached its end on this tick; it ends the
    /// transition then, and has no effect when no transition runs.
    pub fn tick(&mut self, progress_complete: bool)
        requires
            old(self).duration_ticks < u64::MAX,
        ensures
            *final(self) == old(self).after_tick(progress_complete),
    {
        self.duration_ticks = self.duration_ticks + 1;
        if self.transitioning_from.is_some() && progress_complete {
            self.transitioning_from = None;
        }
    }

    /// Begin a transition to a new weather type. Returns whether a transition
    /// started; when it did, the blend progress starts again from zero.
    pub fn transition_to(&mut self, weather: Weather) -> (started: bool)
        ensures
            started == old(self).starts_transition(weather),
            *final(self) == old(self).after_transition(weather),
    {
        if weather == self.current && self.transitioning_from.is_none() {
            return false;
        }
        self.transitioning_from = Some(self.current);
        self.current = weather;
        self.duration_ticks = 0;
        true
    }

    /// Whether a transition is currently in progress.
    pub fn is_transitioning(&self) -> (b: bool)
        ensures
            b == self.spec_is_transitioning(),
    {
        self.transitioning_from.is_some()
    }

    /// Returns the previous weather if transitioning, otherwise the current.
    pub fn previous_weather(&self) -> (w: Weather)
        ensures
            w == self.spec_previous(),
    {
        match self.transitioning_from {
            Some(w) => w,
            None => self.current,
        }
    }
}

/// A fresh state holds its weather steadily: no transition runs and the previous
/// weather is the current one.
pub proof fn lemma_new_state_is_steady(weather: Weather)
    ensures
        !WeatherState::spec_new(weather).spec_is_transitioning(),
        WeatherState::spec_new(weather).spec_previous() == weather,
        WeatherState::spec_new(weather).duration_ticks == 0,
{
}

/// A transition that starts makes the requested weather current, remembers the
/// weather it leaves as the previous one, and restarts the tick count.
pub proof fn lemma_transition_starts(s: WeatherState, weather: Weather)
    requires
        s.starts_transition(weather),
    ensures
        s.after_transition(weather).spec_is_transitioning(),
        s.after_transition(weather).current == weather,
        s.after_transition(weather).spec_previous() == s.current,
        s.after_transition(weather).duration_ticks == 0,
{
}

/// Asking for the weather already in place, with no transition running, changes
/// nothing; asking for any other weather starts a transition.
pub proof fn lemma_when_transition_starts(s: WeatherState, weather: Weather)
    ensures
        (weather == s.current && !s.spec_is_transitioning()) ==> s.after_transition(weather) == s,
        weather != s.current ==> s.starts_transition(weather),
{
}

/// A tick counts one more tick and keeps the current weather; it never starts a
/// transition, and it ends a running one exactly when the progress completes.
pub proof fn lemma_tick(s: WeatherState, progress_complete: bool)
    requires
        s.duration_ticks < u64::MAX,
    ensures
        s.after_tick(progress_complete).duration_ticks == s.duration_ticks + 1,
        s.after_tick(progress_complete).current == s.current,
        s.after_tick(progress_complete).spec_is_transitioning() <==> (s.spec_is_transitioning()
            && !progress_complete),
        s.after_tick(progress_complete).spec_is_transitioning() ==> s.after_tick(
            progress_complete,
        ).spec_previous() == s.spec_previous(),
        !s.after_tick(progress_complete).spec_is_transitioning() ==> s.after_tick(
            progress_complete,
        ).spec_previous() == s.current,
{
}

} // verus!
