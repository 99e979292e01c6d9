//! Application state, and the merge that keeps the selected journey across
//! refreshes.
use vstd::prelude::*;
use crate::clock::unix_seconds_now;
use crate::journey::{find_key, first_match, lemma_first_match_exists, Journey, JourneyKey, Place};
use crate::refresh::{Phase, RefreshAction, RefreshProducer};
use crate::chars::{chars_of, string_from_chars};
use crate::search::{fetch_due, same_chars, suggestion_lines, InputState, MIN_QUERY_LEN, SUGGESTION_DEBOUNCE_MS};
use crate::timer::{remaining_of, remaining_spec, timer_toward, TimerState};

verus! {

/// Countdown length, in milliseconds, before any journey is known.
pub const INITIAL_TIMER_MS: u64 = 3_600_000;

/// A place kept in the configuration.
#[derive(Clone)]
pub struct SavedPlace {
    pub id: String,
    pub name: String,
}

/// The persisted origin and destination.
#[derive(Clone)]
pub struct AppConfig {
    pub start: SavedPlace,
    pub destination: SavedPlace,
}

/// What the user is doing: choosing the start, choosing the destination, or
/// watching the countdown.
#[derive(Clone, Copy, Debug, PartialEq, Eq, Structural)]
pub enum Mode {
    InputStart,
    InputDest,
    Timer,
}

/// Everything the interface shows, owned by the interface loop. Instants are
/// monotonic milliseconds.
pub struct App {
    pub mode: Mode,
    pub input: InputState,
    pub timer: TimerState,
    pub refresh_running: bool,
    pub chosen_start: Option<Place>,
    pub chosen_dest: Option<Place>,
    pub config: Option<AppConfig>,
    pub journeys: Vec<Journey>,
    pub journeys_selected: usize,
    pub journeys_loading: bool,
}

/// `min(sel, len - 1)`, the selection clamped into a non-empty list.
pub open spec fn clamp_index(sel: int, len: int) -> int {
    if sel < len - 1 {
        sel
    } else {
        len - 1
    }
}

/// Key of the journey selected in `journeys`, if any is displayed.
pub open spec fn selected_key_of(journeys: Seq<Journey>, sel: int) -> Option<JourneyKey> {
    if journeys.len() == 0 {
        None
    } else {
        Some(journeys[clamp_index(sel, journeys.len() as int)].key_spec())
    }
}

/// Selection after `old` (selected at `old_sel`) is replaced by `new`: the
/// first journey of `new` with the selected key; else the old index clamped
/// into `new`; zero when either list is empty.
pub open spec fn merged_selection(old: Seq<Journey>, old_sel: int, new: Seq<Journey>) -> int {
    if new.len() == 0 {
        0
    } else {
        match selected_key_of(old, old_sel) {
            None => 0,
            Some(k) => match first_match(new, k) {
                Some(i) => i,
                None => clamp_index(old_sel, new.len() as int),
            },
        }
    }
}

/// Title of the input box in mode `m`.
pub open spec fn title_of(m: Mode) -> Seq<char> {
    match m {
        Mode::InputStart => "Start station"@,
        Mode::InputDest => "Destination station"@,
        Mode::Timer => ""@,
    }
}

/// The place a saved entry stands for, as a stop area.
pub open spec fn is_saved_place(p: Place, s: SavedPlace) -> bool {
    &&& p.id@ == s.id@
    &&& p.name@ == s.name@
    &&& p.embedded_type matches Some(t) && t@ == "stop_area"@
}

/// An input with nothing typed, last edited at `now_ms`.
pub open spec fn is_blank_input(s: InputState, now_ms: u64) -> bool {
    &&& s.text@.len() == 0
    &&& s.cursor == 0
    &&& s.suggestions@.len() == 0
    &&& s.selected == 0
    &&& s.last_edit_at == now_ms
    &&& s.last_queried@.len() == 0
    &&& !s.loading
    &&& s.error is None
}

fn saved_to_place(s: &SavedPlace) -> (p: Place)
    ensures
        is_saved_place(p, *s),
{
    Place { id: s.id.clone(), name: s.name.clone(), embedded_type: Some(String::from_str("stop_area")) }
}

impl App {
    /// A fresh state at monotonic `now_ms`, with the configuration `loaded`
    /// at startup if there was one: then the countdown is shown, else the
    /// start station is asked for.
    pub fn new(loaded: Option<AppConfig>, now_ms: u64) -> (r: App)
        ensures
            r.mode == (if loaded is Some { Mode::Timer } else { Mode::InputStart }),
            is_blank_input(r.input, now_ms),
            r.timer == (TimerState { start: now_ms, duration: INITIAL_TIMER_MS, notified: false, zero_at: None }),
            !r.refresh_running,
            loaded matches Some(c) ==> r.chosen_start matches Some(p) && is_saved_place(p, c.start),
            loaded matches Some(c) ==> r.chosen_dest matches Some(p) && is_saved_place(p, c.destination),
            loaded is None ==> r.chosen_start is None && r.chosen_dest is None,
            r.config == loaded,
            r.journeys@.len() == 0,
            r.journeys_selected == 0,
            r.journeys_loading,
    {
        let (chosen_start, chosen_dest) = match &loaded {
            Some(c) => (Some(saved_to_place(&c.start)), Some(saved_to_place(&c.destination))),
            None => (None, None),
        };
        App {
            mode: if loaded.is_some() { Mode::Timer } else { Mode::InputStart },
            input: InputState {
                text: Vec::new(),
                cursor: 0,
                suggestions: Vec::new(),
                selected: 0,
                last_edit_at: now_ms,
                last_queried: Vec::new(),
                loading: false,
                error: None,
            },
            timer: TimerState { start: now_ms, duration: INITIAL_TIMER_MS, notified: false, zero_at: None },
            refresh_running: false,
            chosen_start,
            chosen_dest,
            config: loaded,
            journeys: Vec::new(),
            journeys_selected: 0,
            journeys_loading: true,
        }
    }

    /// Title of the input box.
    pub fn input_title(&self) -> (r: &'static str)
        ensures
            r@ == title_of(self.mode),
    {
        match self.mode {
            Mode::InputStart => "Start station",
            Mode::InputDest => "Destination station",
            Mode::Timer => "",
        }
    }

    /// Lines shown under the input box.
    pub fn suggestion_items(&self) -> (r: Vec<String>)
        ensures
            r@.len() == suggestion_lines(self.input).len(),
            forall|i: int| 0 <= i < r@.len() ==> #[trigger] r@[i]@ == suggestion_lines(self.input)[i],
    {
        let mut out: Vec<String> = Vec::new();
        if self.input.loading {
            out.push(String::from_str("Loading..."));
        } else if let Some(err) = &self.input.error {
            let mut line = String::from_str("Error: ");
            line.append(err.as_str());
            out.push(line);
        } else if self.input.suggestions.len() == 0 && self.input.text.len() >= MIN_QUERY_LEN {
            out.push(String::from_str("No results"));
        } else {
            let mut i: usize = 0;
            while i < self.input.suggestions.len()
                invariant
                    i <= self.input.suggestions@.len(),
                    out@.len() == i,
                    forall|j: int| 0 <= j < i ==> #[trigger] out@[j]@ == self.input.suggestions@[j].name@,
                decreases self.input.suggestions@.len() - i,
            {
                out.push(self.input.suggestions[i].name.clone());
                i = i + 1;
            }
        }
        out
    }

    /// Starts a lookup if one is due at monotonic `now_ms` (see `fetch_due`):
    /// marks it in flight and returns the query to send.
    pub fn maybe_fetch_suggestions(&mut self, now_ms: u64) -> (r: Option<String>)
        ensures
            r is Some <==> fetch_due(old(self).input, now_ms),
            r matches Some(q) ==> q@ == old(self).input.text@ && *final(self) == (App {
                input: InputState { loading: true, ..old(self).input },
                ..*old(self)
            }),
            r is None ==> *final(self) == *old(self),
    {
        if self.input.text.len() >= MIN_QUERY_LEN && !same_chars(&self.input.text, &self.input.last_queried)
            && !self.input.loading && now_ms >= self.input.last_edit_at
            && now_ms - self.input.last_edit_at >= SUGGESTION_DEBOUNCE_MS {
            self.input.loading = true;
            Some(string_from_chars(&self.input.text))
        } else {
            None
        }
    }

    /// Applies the outcome of the lookup issued for `query`: on success the
    /// suggestions are replaced and `query` is recorded as served; on failure
    /// the error is shown and the suggestions kept. Either way the lookup is
    /// no longer in flight.
    pub fn apply_suggestions(&mut self, query: &str, result: Result<Vec<Place>, String>)
        ensures
            result matches Ok(list) ==> *final(self) == (App {
                input: InputState {
                    suggestions: list,
                    selected: 0,
                    error: None,
                    loading: false,
                    last_queried: final(self).input.last_queried,
                    ..old(self).input
                },
                ..*old(self)
            }) && final(self).input.last_queried@ == query@,
            result matches Err(e) ==> *final(self) == (App {
                input: InputState { error: Some(e), loading: false, ..old(self).input },
                ..*old(self)
            }),
    {
        match result {
            Ok(list) => {
                self.input.suggestions = list;
                self.input.selected = 0;
                self.input.error = None;
                self.input.last_queried = chars_of(query);
            },
            Err(e) => {
                self.input.error = Some(e);
            },
        }
        self.input.loading = false;
    }

    /// Clears the input after a station is confirmed.
    pub fn reset_input(&mut self)
        ensures
            *final(self) == (App {
                input: InputState {
                    text: final(self).input.text,
                    cursor: 0,
                    suggestions: final(self).input.suggestions,
                    selected: 0,
                    last_queried: final(self).input.last_queried,
                    error: None,
                    ..old(self).input
                },
                ..*old(self)
            }),
            final(self).input.text@.len() == 0,
            final(self).input.suggestions@.len() == 0,
            final(self).input.last_queried@.len() == 0,
    {
        self.input.text.clear();
        self.input.cursor = 0;
        self.input.suggestions.clear();
        self.input.selected = 0;
        self.input.last_queried.clear();
        self.input.error = None;
    }

    /// Starts the background refresh if a configuration is set and none is
    /// running: returns a producer bound to the configured origin and
    /// destination, copied now, with its first action. A second start while
    /// one runs does nothing.
    pub fn start_refresh_task(&mut self) -> (r: Option<(RefreshProducer, RefreshAction)>)
        ensures
            old(self).config is None || old(self).refresh_running ==> r is None && *final(self) == *old(self),
            !old(self).refresh_running ==> (old(self).config matches Some(c) ==> (r matches Some(
                (p, a),
            ) && p.phase == Phase::Fetching && a is Fetch && p.start_id@ == c.start.id@
                && p.destination_id@ == c.destination.id@ && *final(self) == (App {
                refresh_running: true,
                ..*old(self)
            }))),
    {
        if self.refresh_running {
            return None;
        }
        match &self.config {
            None => None,
            Some(c) => {
                let started = RefreshProducer::new(c.start.id.clone(), c.destination.id.clone());
                self.refresh_running = true;
                Some(started)
            },
        }
    }

    /// Records that the background refresh has ended (its receiver was
    /// dropped), so that a later start may run a new one.
    pub fn stop_refresh_task(&mut self)
        ensures
            *final(self) == (App { refresh_running: false, ..*old(self) }),
    {
        self.refresh_running = false;
    }

    /// Time left on the countdown after `elapsed` ms, never below zero.
    pub fn remaining_time(&self, elapsed: u64) -> (r: u64)
        ensures
            r == remaining_spec(self.timer.duration, elapsed),
            elapsed >= self.timer.duration ==> r == 0,
            elapsed < self.timer.duration ==> r == self.timer.duration - elapsed,
    {
        remaining_of(self.timer.duration, elapsed)
    }

    /// Restarts the countdown toward the selected journey's departure, the wall
    /// clock reading `now` seconds and the monotonic clock `now_ms`. Nothing
    /// changes while no journey is displayed.
    pub fn update_timer_from_selection(&mut self, now: i64, now_ms: u64)
        ensures
            old(self).journeys@.len() == 0 ==> *final(self) == *old(self),
            old(self).journeys@.len() > 0 ==> *final(self) == (App {
                timer: timer_toward(
                    old(self).journeys@[clamp_index(old(self).journeys_selected as int, old(self).journeys@.len() as int)].dep,
                    now,
                    now_ms,
                ),
                ..*old(self)
            }),
    {
        if self.journeys.len() == 0 {
            return;
        }
        let sel = if self.journeys_selected < self.journeys.len() - 1 {
            self.journeys_selected
        } else {
            self.journeys.len() - 1
        };
        self.timer = TimerState::toward(self.journeys[sel].dep, now, now_ms);
    }

    /// Key of the selected journey, if any journey is displayed.
    pub fn selected_journey_key(&self) -> (r: Option<JourneyKey>)
        ensures
            r == selected_key_of(self.journeys@, self.journeys_selected as int),
    {
        if self.journeys.len() == 0 {
            return None;
        }
        let sel = if self.journeys_selected < self.journeys.len() - 1 {
            self.journeys_selected
        } else {
            self.journeys.len() - 1
        };
        Some(self.journeys[sel].key())
    }

    /// Replaces the displayed journeys with a fresh batch, keeping the
    /// selection on the same journey where the batch still holds it, and
    /// restarts the countdown toward the journey then selected (wall clock
    /// `now`, monotonic clock `now_ms`).
    pub fn replace_journeys_at(&mut self, data: Vec<Journey>, now: i64, now_ms: u64)
        ensures
            final(self).journeys == data,
            final(self).journeys_selected == merged_selection(
                old(self).journeys@,
                old(self).journeys_selected as int,
                data@,
            ),
            data@.len() > 0 ==> 0 <= final(self).journeys_selected < data@.len(),
            data@.len() == 0 ==> final(self).timer == old(self).timer,
            data@.len() > 0 ==> final(self).timer == timer_toward(
                data@[final(self).journeys_selected as int].dep,
                now,
                now_ms,
            ),
            *final(self) == (App {
                journeys: data,
                journeys_selected: final(self).journeys_selected,
                journeys_loading: false,
                timer: final(self).timer,
                ..*old(self)
            }),
    {
        let selected_key = self.selected_journey_key();
        let old_selected = self.journeys_selected;
        self.journeys = data;
        self.journeys_loading = false;
        if self.journeys.len() == 0 {
            self.journeys_selected = 0;
            return;
        }
        let last = self.journeys.len() - 1;
        match selected_key {
            Some(key) => match find_key(&self.journeys, key) {
                Some(idx) => {
                    self.journeys_selected = idx;
                },
                None => {
                    self.journeys_selected = if old_selected < last { old_selected } else { last };
                },
            },
            None => {
                self.journeys_selected = 0;
            },
        }
        self.update_timer_from_selection(now, now_ms);
    }

    /// As `replace_journeys_at`, reading the wall clock now.
    pub fn replace_journeys(&mut self, data: Vec<Journey>, now_ms: u64)
        ensures
            final(self).journeys == data,
            final(self).journeys_selected == merged_selection(
                old(self).journeys@,
                old(self).journeys_selected as int,
                data@,
            ),
            data@.len() == 0 ==> final(self).timer == old(self).timer,
            data@.len() > 0 ==> exists|now: i64| final(self).timer == #[trigger] timer_toward(
                data@[final(self).journeys_selected as int].dep,
                now,
                now_ms,
            ),
            *final(self) == (App {
                journeys: data,
                journeys_selected: final(self).journeys_selected,
                journeys_loading: false,
                timer: final(self).timer,
                ..*old(self)
            }),
    {
        let now = unix_seconds_now();
        self.replace_journeys_at(data, now, now_ms);
    }
}

/// Replacing the displayed journeys with a reordering of the same journeys
/// (the same composite keys, as a multiset) keeps the same journey selected,
/// wherever it now stands.
pub proof fn lemma_merge_keeps_selected_journey(old: Seq<Journey>, old_sel: int, new: Seq<Journey>)
    requires
        0 <= old_sel < old.len(),
        new.map_values(|j: Journey| j.key_spec()).to_multiset() =~= old.map_values(
            |j: Journey| j.key_spec(),
        ).to_multiset(),
    ensures
        0 <= merged_selection(old, old_sel, new) < new.len(),
        new[merged_selection(old, old_sel, new)].key_spec() == old[old_sel].key_spec(),
{
    let ko = old.map_values(|j: Journey| j.key_spec());
    let kn = new.map_values(|j: Journey| j.key_spec());
    let k = old[old_sel].key_spec();
    assert(ko[old_sel] == k);
    assert(ko.contains(k));
    vstd::seq_lib::to_multiset_contains(ko, k);
    vstd::seq_lib::to_multiset_contains(kn, k);
    assert(kn.contains(k));
    let j = choose|j: int| 0 <= j < kn.len() && kn[j] == k;
    assert(new[j].key_spec() == k);
    lemma_first_match_exists(new, k, j);
    assert(clamp_index(old_sel, old.len() as int) == old_sel);
}

/// Replacing the displayed journeys with a batch that lacks the selected
/// journey's key moves the selection to `min(old_sel, new.len() - 1)`.
pub proof fn lemma_merge_falls_back_to_position(old: Seq<Journey>, old_sel: int, new: Seq<Journey>)
    requires
        0 <= old_sel < old.len(),
        new.len() > 0,
        forall|j: int| 0 <= j < new.len() ==> #[trigger] new[j].key_spec() != old[old_sel].key_spec(),
    ensures
        merged_selection(old, old_sel, new) == (if old_sel < new.len() - 1 { old_sel } else { new.len() - 1 }),
{
    let k = old[old_sel].key_spec();
    assert(clamp_index(old_sel, old.len() as int) == old_sel);
    assert(!exists|i: int| crate::journey::is_first_match(new, k, i));
}

} // verus!
