use vstd::prelude::*;

use crate::resolve::{resolve_weather_lowercased, weather_rule, VibeBand};
use crate::rooms::{names, RoomTable};
use crate::season::Season;
use crate::state::WeatherState;
use crate::text::{lowercase, to_lowercase};
use crate::vfx::VfxPlan;
use crate::weather::Weather;

verus! {

/// What an update did to a room.
#[derive(Debug, Clone, Copy, PartialEq, Eq, Structural)]
pub enum RoomChange {
    /// The room had no weather yet; it now has the resolved weather.
    Created,
    /// The room's weather differed from the resolved one; a transition to it began.
    TransitionStarted,
    /// The room already had the resolved weather.
    Kept,
}

/// The weather that a valence band and an emotion label resolve to.
pub open spec fn resolved_weather(vibe: VibeBand, emotion: Seq<char>) -> Weather {
    weather_rule(lowercase(emotion), vibe)
}

/// The state of a room after it is given `weather`.
pub open spec fn room_after(rooms: Map<Seq<char>, WeatherState>, id: Seq<char>, weather: Weather) -> WeatherState {
    if !rooms.contains_key(id) {
        WeatherState::spec_new(weather)
    } else if rooms[id].current != weather {
        rooms[id].after_transition(weather)
    } else {
        rooms[id]
    }
}

/// What giving `weather` to room `id` does to it.
pub open spec fn change_of(rooms: Map<Seq<char>, WeatherState>, id: Seq<char>, weather: Weather) -> RoomChange {
    if !rooms.contains_key(id) {
        RoomChange::Created
    } else if rooms[id].current != weather {
        RoomChange::TransitionStarted
    } else {
        RoomChange::Kept
    }
}

/// How the effects of a room in this state are drawn.
pub open spec fn plan_of(s: WeatherState) -> VfxPlan {
    if s.spec_is_transitioning() {
        VfxPlan::Blend { from: s.spec_previous(), to: s.current }
    } else {
        VfxPlan::Steady(s.current)
    }
}

/// Manages weather for the whole world. Each room has its own weather state.
pub struct WeatherEngine {
    pub room_weathers: RoomTable,
    pub season: Season,
}

impl WeatherEngine {
    /// An engine with no rooms, in the given season.
    pub fn new(season: Season) -> (e: WeatherEngine)
        ensures
            e.room_weathers@ == Map::<Seq<char>, WeatherState>::empty(),
            e.season == season,
    {
        WeatherEngine { room_weathers: RoomTable::new(), season }
    }

    /// Resolve a valence band and an emotion label to a weather type: the label
    /// is put in lower case, then the emotion rules apply in priority order,
    /// then the valence thresholds.
    pub fn resolve_weather(&self, vibe: VibeBand, emotion: &str) -> (w: Weather)
        ensures
            w == resolved_weather(vibe, emotion@),
    {
        let lowered = to_lowercase(emotion);
        resolve_weather_lowercased(vibe, lowered.as_str())
    }

    /// Give room `room_id` the weather `weather`: a room without weather starts
    /// with it, a room with another weather begins a transition to it, and a room
    /// that has it already keeps its state.
    pub fn apply_weather(&mut self, room_id: &str, weather: Weather) -> (change: RoomChange)
        ensures
            final(self).room_weathers@ == old(self).room_weathers@.insert(
                room_id@,
                room_after(old(self).room_weathers@, room_id@, weather),
            ),
            final(self).season == old(self).season,
            change == change_of(old(self).room_weathers@, room_id@, weather),
    {
        match self.room_weathers.get(room_id) {
            None => {
                let key: String = room_id.to_owned();
                self.room_weathers.insert(key, WeatherState::new(weather));
                RoomChange::Created
            },
            Some(found) => {
                let mut state = *found;
                if state.current != weather {
                    state.transition_to(weather);
                    let key: String = room_id.to_owned();
                    self.room_weathers.insert(key, state);
                    RoomChange::TransitionStarted
                } else {
                    proof {
                        assert(self.room_weathers@.insert(room_id@, state) =~= self.room_weathers@);
                    }
                    RoomChange::Kept
                }
            },
        }
    }

    /// Update a room's weather from its emotional state: `vibe` is the band of
    /// its valence and `emotion` a label like "joy", "fear" or "confusion".
    /// The intensity that the valence gives is kept by the caller.
    pub fn update_room(&mut self, room_id: &str, vibe: VibeBand, emotion: &str) -> (change: RoomChange)
        ensures
            final(self).room_weathers@ == old(self).room_weathers@.insert(
                room_id@,
                room_after(old(self).room_weathers@, room_id@, resolved_weather(vibe, emotion@)),
            ),
            final(self).season == old(self).season,
            change == change_of(old(self).room_weathers@, room_id@, resolved_weather(vibe, emotion@)),
    {
        let weather = self.resolve_weather(vibe, emotion);
        self.apply_weather(room_id, weather)
    }

    /// Tick all rooms forward; the transition of a room ends when its id is
    /// listed in `finished` (its blend progress reached its end on this tick).
    pub fn tick_all(&mut self, finished: &Vec<String>)
        requires
            forall|k: Seq<char>| #[trigger]
                old(self).room_weathers@.contains_key(k)
                    ==> old(self).room_weathers@[k].duration_ticks < u64::MAX,
        ensures
            final(self).room_weathers@.dom() == old(self).room_weathers@.dom(),
            forall|k: Seq<char>| #[trigger]
                final(self).room_weathers@.contains_key(k) ==> final(self).room_weathers@[k]
                    == old(self).room_weathers@[k].after_tick(names(finished@).contains(k)),
            final(self).season == old(self).season,
    {
        self.room_weathers.tick_all(finished);
    }

    /// Get the weather for a room, if it exists.
    pub fn get_room_weather(&self, room_id: &str) -> (r: Option<&WeatherState>)
        ensures
            match r {
                Some(s) => self.room_weathers@.contains_key(room_id@) && *s
                    == self.room_weathers@[room_id@],
                None => !self.room_weathers@.contains_key(room_id@),
            },
    {
        self.room_weathers.get(room_id)
    }

    /// How to draw a room's effects, taking transitions into account: blended
    /// from the previous weather while a transition runs, otherwise from the
    /// current weather alone.
    pub fn get_room_vfx(&self, room_id: &str) -> (r: Option<VfxPlan>)
        ensures
            r == (if self.room_weathers@.contains_key(room_id@) {
                Some(plan_of(self.room_weathers@[room_id@]))
            } else {
                None
            }),
    {
        match self.room_weathers.get(room_id) {
            None => None,
            Some(state) => {
                if state.is_transitioning() {
                    Some(VfxPlan::Blend { from: state.previous_weather(), to: state.current })
                } else {
                    Some(VfxPlan::Steady(state.current))
                }
            },
        }
    }

    /// Remove a room's weather data.
    pub fn remove_room(&mut self, room_id: &str)
        ensures
            final(self).room_weathers@ == old(self).room_weathers@.remove(room_id@),
            final(self).season == old(self).season,
    {
        self.room_weathers.remove(room_id);
    }
}

/// After a room is given a weather, that weather is the room's current one, and
/// no other room changed.
pub proof fn lemma_update_then_get(
    rooms: Map<Seq<char>, WeatherState>,
    id: Seq<char>,
    other: Seq<char>,
    weather: Weather,
)
    ensures
        rooms.insert(id, room_after(rooms, id, weather)).contains_key(id),
        rooms.insert(id, room_after(rooms, id, weather))[id].current == weather,
        other != id ==> (rooms.insert(id, room_after(rooms, id, weather)).contains_key(other)
            == rooms.contains_key(other)),
        (other != id && rooms.contains_key(other)) ==> rooms.insert(
            id,
            room_after(rooms, id, weather),
        )[other] == rooms[other],
{
}

/// A new room starts steadily in its weather; a room whose weather changes is
/// transitioning from its old weather to the new one, with its tick count reset.
pub proof fn lemma_update_transitions(
    rooms: Map<Seq<char>, WeatherState>,
    id: Seq<char>,
    weather: Weather,
)
    ensures
        !rooms.contains_key(id) ==> room_after(rooms, id, weather) == WeatherState::spec_new(
            weather,
        ),
        (rooms.contains_key(id) && rooms[id].current != weather) ==> {
            &&& room_after(rooms, id, weather).spec_is_transitioning()
            &&& room_after(rooms, id, weather).spec_previous() == rooms[id].current
            &&& room_after(rooms, id, weather).duration_ticks == 0
        },
{
}

/// Giving a room the same weather twice in a row changes nothing the second time.
pub proof fn lemma_update_idempotent(
    rooms: Map<Seq<char>, WeatherState>,
    id: Seq<char>,
    weather: Weather,
)
    ensures
        ({
            let once = rooms.insert(id, room_after(rooms, id, weather));
            &&& change_of(once, id, weather) == RoomChange::Kept
            &&& once.insert(id, room_after(once, id, weather)) == once
        }),
{
    let once = rooms.insert(id, room_after(rooms, id, weather));
    assert(once.insert(id, room_after(once, id, weather)) =~= once);
}

/// A removed room has no weather left, and the other rooms keep theirs.
pub proof fn lemma_remove_room(rooms: Map<Seq<char>, WeatherState>, id: Seq<char>, other: Seq<char>)
    ensures
        !rooms.remove(id).contains_key(id),
        other != id ==> rooms.remove(id).contains_key(other) == rooms.contains_key(other),
        (other != id && rooms.contains_key(other)) ==> rooms.remove(id)[other] == rooms[other],
{
}

/// While a transition runs, the effects blend from the weather being left into
/// the current one; otherwise they come from the current weather alone.
pub proof fn lemma_vfx_plan(s: WeatherState)
    ensures
        s.spec_is_transitioning() ==> plan_of(s) == (VfxPlan::Blend {
            from: s.spec_previous(),
            to: s.current,
        }),
        !s.spec_is_transitioning() ==> plan_of(s) == VfxPlan::Steady(s.current),
{
}

/// Giving a room the weather it already has leaves its whole state as it was:
/// the tick count goes on, and a running transition keeps running from the same
/// previous weather. The room table is unchanged and the change is reported as
/// kept.
pub proof fn lemma_same_weather_keeps_state(
    rooms: Map<Seq<char>, WeatherState>,
    id: Seq<char>,
    weather: Weather,
)
    requires
        rooms.contains_key(id),
        rooms[id].current == weather,
    ensures
        room_after(rooms, id, weather) == rooms[id],
        room_after(rooms, id, weather).duration_ticks == rooms[id].duration_ticks,
        room_after(rooms, id, weather).transitioning_from == rooms[id].transitioning_from,
        rooms.insert(id, room_after(rooms, id, weather)) == rooms,
        change_of(rooms, id, weather) == RoomChange::Kept,
{
    assert(rooms.insert(id, room_after(rooms, id, weather)) =~= rooms);
}

} // verus!
