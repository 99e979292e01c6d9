//! Keys typed while a station is being chosen, and what they change.
use vstd::prelude::*;
use crate::app::{App, AppConfig, Mode, SavedPlace};
use crate::journey::Place;
use crate::search::InputState;

verus! {

/// A decoded key press.
#[derive(Clone, Copy, PartialEq, Eq, Structural)]
pub enum Key {
    Char(char),
    Enter,
    Esc,
    Backspace,
    Left,
    Right,
    Up,
    Down,
    Other,
}

/// Whether the interface should end.
#[derive(Clone, Copy, Debug, PartialEq, Eq, Structural)]
pub enum QuitApp {
    Yes,
    No,
}

/// Result of a key press: whether to quit, and whether the configuration
/// was just set and should be persisted.
#[derive(Clone, Copy, Debug, PartialEq, Eq, Structural)]
pub struct KeyOutcome {
    pub quit: QuitApp,
    pub save_config: bool,
}

/// `b` is `a` cleared after a confirmed station.
pub open spec fn is_reset_of(b: InputState, a: InputState) -> bool {
    &&& b.text@.len() == 0
    &&& b.cursor == 0
    &&& b.suggestions@.len() == 0
    &&& b.selected == 0
    &&& b.last_queried@.len() == 0
    &&& b.error is None
    &&& b.loading == a.loading
    &&& b.last_edit_at == a.last_edit_at
}

/// The saved form of a place.
pub open spec fn saved_of(p: Place) -> SavedPlace {
    SavedPlace { id: p.id, name: p.name }
}

/// Effect of Enter: the highlighted suggestion becomes the start station
/// (then the destination is asked for) or the destination (then, with a
/// start chosen, the configuration is set, to be saved, and the interface
/// ends). Without a highlighted suggestion, or while the countdown is shown,
/// nothing happens.
pub open spec fn enter_effect(a: App, b: App, r: KeyOutcome) -> bool {
    let sel = a.input.selected as int;
    if sel < a.input.suggestions@.len() && a.mode != Mode::Timer {
        let place = a.input.suggestions@[sel];
        &&& is_reset_of(b.input, a.input)
        &&& b.timer == a.timer
        &&& b.refresh_running == a.refresh_running
        &&& b.journeys == a.journeys
        &&& b.journeys_selected == a.journeys_selected
        &&& b.journeys_loading == a.journeys_loading
        &&& if a.mode == Mode::InputStart {
            &&& b.mode == Mode::InputDest
            &&& b.chosen_start == Some(place)
            &&& b.chosen_dest == a.chosen_dest
            &&& b.config == a.config
            &&& r == KeyOutcome { quit: QuitApp::No, save_config: false }
        } else {
            &&& b.mode == a.mode
            &&& b.chosen_start == a.chosen_start
            &&& b.chosen_dest == Some(place)
            &&& match a.chosen_start {
                Some(s) => {
                    &&& b.config == Some(
                        AppConfig { start: saved_of(s), destination: saved_of(place) },
                    )
                    &&& r == KeyOutcome { quit: QuitApp::Yes, save_config: true }
                },
                None => {
                    &&& b.config == a.config
                    &&& r == KeyOutcome { quit: QuitApp::No, save_config: false }
                },
            }
        }
    } else {
        b == a && r == KeyOutcome { quit: QuitApp::No, save_config: false }
    }
}

/// `b` is `a` with only the input changed, to `i`.
pub open spec fn with_input(a: App, b: App, i: InputState) -> bool {
    b == App { input: i, ..a }
}

/// Effect of any key but Enter, with `now` the monotonic instant of the
/// press. Typing and erasing edit the text at the cursor and record the
/// edit's instant.
pub open spec fn edit_effect(a: App, key: Key, now: u64, b: App, r: KeyOutcome) -> bool {
    let s = a.input;
    let stay = KeyOutcome { quit: QuitApp::No, save_config: false };
    match key {
        Key::Esc => b == a && r == KeyOutcome { quit: QuitApp::Yes, save_config: false },
        Key::Char(c) => if c == 'q' {
            b == a && r == KeyOutcome { quit: QuitApp::Yes, save_config: false }
        } else {
            let pos = if s.cursor <= s.text@.len() { s.cursor as int } else { s.text@.len() as int };
            &&& r == stay
            &&& b.input.text@ == s.text@.take(pos) + seq![c] + s.text@.skip(pos)
            &&& with_input(a, b, InputState {
                text: b.input.text,
                cursor: (pos + 1) as usize,
                last_edit_at: now,
                ..s
            })
        },
        Key::Backspace => r == stay && if 0 < s.cursor <= s.text@.len() {
            &&& b.input.text@ == s.text@.remove(s.cursor - 1)
            &&& with_input(a, b, InputState {
                text: b.input.text,
                cursor: (s.cursor - 1) as usize,
                last_edit_at: now,
                ..s
            })
        } else {
            b == a
        },
        Key::Left => r == stay && if s.cursor > 0 {
            with_input(a, b, InputState { cursor: (s.cursor - 1) as usize, ..s })
        } else {
            b == a
        },
        Key::Right => r == stay && if s.cursor < s.text@.len() {
            with_input(a, b, InputState { cursor: (s.cursor + 1) as usize, ..s })
        } else {
            b == a
        },
        Key::Up => r == stay && if s.selected > 0 {
            with_input(a, b, InputState { selected: (s.selected - 1) as usize, ..s })
        } else {
            b == a
        },
        Key::Down => r == stay && if s.selected + 1 < s.suggestions@.len() {
            with_input(a, b, InputState { selected: (s.selected + 1) as usize, ..s })
        } else {
            b == a
        },
        _ => b == a && r == stay,
    }
}

fn saved_from(p: &Place) -> (r: SavedPlace)
    ensures
        r == saved_of(*p),
{
    SavedPlace { id: p.id.clone(), name: p.name.clone() }
}

/// Applies a key pressed while a station is chosen, at monotonic `now_ms`.
pub fn handle_station_keys(app: &mut App, key: Key, now_ms: u64) -> (r: KeyOutcome)
    ensures
        key is Enter ==> enter_effect(*old(app), *final(app), r),
        !(key is Enter) ==> edit_effect(*old(app), key, now_ms, *final(app), r),
{
    let stay = KeyOutcome { quit: QuitApp::No, save_config: false };
    match key {
        Key::Esc => KeyOutcome { quit: QuitApp::Yes, save_config: false },
        Key::Enter => {
            if app.input.selected >= app.input.suggestions.len() {
                return stay;
            }
            match app.mode {
                Mode::Timer => stay,
                Mode::InputStart => {
                    let place = app.input.suggestions.remove(app.input.selected);
                    app.chosen_start = Some(place);
                    app.reset_input();
                    app.mode = Mode::InputDest;
                    stay
                },
                Mode::InputDest => {
                    let place = app.input.suggestions.remove(app.input.selected);
                    let destination = saved_from(&place);
                    app.chosen_dest = Some(place);
                    app.reset_input();
                    match &app.chosen_start {
                        Some(start) => {
                            let conf = AppConfig { start: saved_from(start), destination };
                            app.config = Some(conf);
                            KeyOutcome { quit: QuitApp::Yes, save_config: true }
                        },
                        None => stay,
                    }
                },
            }
        },
        Key::Backspace => {
            if app.input.cursor > 0 && app.input.cursor <= app.input.text.len() {
                app.input.text.remove(app.input.cursor - 1);
                app.input.cursor = app.input.cursor - 1;
                app.input.last_edit_at = now_ms;
            }
            stay
        },
        Key::Left => {
            if app.input.cursor > 0 {
                app.input.cursor = app.input.cursor - 1;
            }
            stay
        },
        Key::Right => {
            if app.input.cursor < app.input.text.len() {
                app.input.cursor = app.input.cursor + 1;
            }
            stay
        },
        Key::Up => {
            if app.input.selected > 0 {
                app.input.selected = app.input.selected - 1;
            }
            stay
        },
        Key::Down => {
            if app.input.selected < app.input.suggestions.len() && app.input.selected + 1 < app.input.suggestions.len() {
                app.input.selected = app.input.selected + 1;
            }
            stay
        },
        Key::Char(c) => {
            if c == 'q' {
                return KeyOutcome { quit: QuitApp::Yes, save_config: false };
            }
            let pos = if app.input.cursor <= app.input.text.len() {
                app.input.cursor
            } else {
                app.input.text.len()
            };
            let ghost before = app.input.text@;
            app.input.text.insert(pos, c);
            proof {
                assert(app.input.text@ =~= before.take(pos as int) + seq![c] + before.skip(pos as int));
            }
            if pos < app.input.text.len() {
                app.input.cursor = pos + 1;
            }
            app.input.last_edit_at = now_ms;
            stay
        },
        Key::Other => stay,
    }
}

/// Applies a key pressed in any mode, at monotonic `now_ms`: while the
/// countdown is shown only Esc and `q` act, and end the interface; otherwise
/// the key goes to the station input.
pub fn handle_keys(app: &mut App, key: Key, now_ms: u64) -> (r: KeyOutcome)
    ensures
        old(app).mode == Mode::Timer ==> *final(app) == *old(app) && r == (KeyOutcome {
            quit: if key == Key::Esc || key == Key::Char('q') { QuitApp::Yes } else { QuitApp::No },
            save_config: false,
        }),
        old(app).mode != Mode::Timer && key is Enter ==> enter_effect(*old(app), *final(app), r),
        old(app).mode != Mode::Timer && !(key is Enter) ==> edit_effect(*old(app), key, now_ms, *final(app), r),
{
    match app.mode {
        Mode::Timer => {
            let quit = match key {
                Key::Esc => QuitApp::Yes,
                Key::Char(c) => if c == 'q' { QuitApp::Yes } else { QuitApp::No },
                _ => QuitApp::No,
            };
            KeyOutcome { quit, save_config: false }
        },
        Mode::InputStart | Mode::InputDest => handle_station_keys(app, key, now_ms),
    }
}

} // verus!
