use async_rust_tui::app::App;
use async_rust_tui::journey::Journey;

/// 2026-01-03T00:00:00Z in seconds since the Unix epoch.
const DAY: i64 = 1_767_398_400;

fn at(hour: i64, minute: i64) -> i64 {
    DAY + hour * 3600 + minute * 60
}

fn make_journey(dep: i64, arr: i64) -> Journey {
    Journey {
        dep,
        arr,
        date_str: "2026-01-03".to_string(),
        duration_secs: 3600,
        nb_transfers: 0,
    }
}

#[test]
fn replace_journeys_sorts_and_preserves_selection() {
    let mut app = App::new(None, 0);
    let j1 = make_journey(at(8, 0), at(9, 0));
    let j2 = make_journey(at(10, 0), at(11, 0));
    let j3 = make_journey(at(12, 0), at(13, 0));

    app.journeys = vec![j1.clone(), j2.clone(), j3.clone()];
    app.journeys_selected = 2;

    app.replace_journeys(vec![j3.clone(), j1.clone(), j2.clone()], 0);

    // The batch is kept as delivered; the selection follows the journey.
    assert_eq!(app.journeys_selected, 0);
    let selected = &app.journeys[app.journeys_selected];
    assert_eq!(selected.dep, j3.dep);
    assert_eq!(selected.arr, j3.arr);
}

#[test]
fn reordered_batch_restarts_timer_toward_selected_departure() {
    let mut app = App::new(None, 0);
    let j1 = make_journey(at(8, 0), at(9, 0));
    let j2 = make_journey(at(10, 0), at(11, 0));
    let j3 = make_journey(at(12, 0), at(13, 0));
    app.journeys = vec![j1.clone(), j2.clone(), j3.clone()];
    app.journeys_selected = 2;

    app.replace_journeys_at(vec![j3.clone(), j1, j2], at(11, 0), 5_000);

    assert_eq!(app.journeys_selected, 0);
    assert!(!app.journeys_loading);
    assert_eq!(app.timer.start, 5_000);
    assert_eq!(app.timer.duration, 3_600_000);
    assert!(!app.timer.notified);
    assert_eq!(app.timer.zero_at, None);
}

#[test]
fn empty_refresh_of_empty_list_keeps_selection_zero() {
    let mut app = App::new(None, 0);
    let before = app.timer;
    app.replace_journeys(vec![], 1_000);
    assert_eq!(app.journeys_selected, 0);
    assert!(app.journeys.is_empty());
    assert_eq!(app.timer, before);
    assert!(!app.journeys_loading);
}

#[test]
fn permuted_batch_keeps_selected_journey() {
    let mut app = App::new(None, 0);
    let a = make_journey(at(7, 0), at(8, 0));
    let b = make_journey(at(9, 0), at(10, 0));
    let c = make_journey(at(11, 0), at(12, 0));
    let d = make_journey(at(13, 0), at(14, 0));
    app.journeys = vec![a.clone(), b.clone(), c.clone(), d.clone()];
    app.journeys_selected = 1;

    app.replace_journeys(vec![d, c, a, b.clone()], 0);

    assert_eq!(app.journeys_selected, 3);
    assert_eq!(app.journeys[3].key(), b.key());
}

#[test]
fn missing_journey_clamps_selection() {
    let mut app = App::new(None, 0);
    let a = make_journey(at(7, 0), at(8, 0));
    let b = make_journey(at(9, 0), at(10, 0));
    let c = make_journey(at(11, 0), at(12, 0));
    app.journeys = vec![a.clone(), b.clone(), c.clone()];
    app.journeys_selected = 2;

    app.replace_journeys(vec![a.clone(), b.clone()], 0);
    assert_eq!(app.journeys_selected, 1);

    app.journeys = vec![a.clone(), b.clone(), c.clone()];
    app.journeys_selected = 1;
    let e = make_journey(at(15, 0), at(16, 0));
    app.replace_journeys(vec![c, e, a], 0);
    assert_eq!(app.journeys_selected, 1);
}

#[test]
fn first_of_duplicate_keys_wins() {
    let mut app = App::new(None, 0);
    let a = make_journey(at(7, 0), at(8, 0));
    let b = make_journey(at(9, 0), at(10, 0));
    app.journeys = vec![a.clone(), b.clone()];
    app.journeys_selected = 1;
    app.replace_journeys(vec![a.clone(), b.clone(), b.clone()], 0);
    assert_eq!(app.journeys_selected, 1);
}

#[test]
fn key_differs_by_transfers() {
    let mut app = App::new(None, 0);
    let a = make_journey(at(7, 0), at(8, 0));
    let mut a2 = a.clone();
    a2.nb_transfers = 1;
    app.journeys = vec![a.clone()];
    app.journeys_selected = 0;
    app.replace_journeys(vec![a2, a.clone()], 0);
    assert_eq!(app.journeys_selected, 1);
}

#[test]
fn first_batch_selects_first_journey() {
    let mut app = App::new(None, 0);
    app.journeys_selected = 4;
    let a = make_journey(at(7, 0), at(8, 0));
    let b = make_journey(at(9, 0), at(10, 0));
    app.replace_journeys_at(vec![b, a], at(9, 30), 0);
    assert_eq!(app.journeys_selected, 0);
    assert_eq!(app.timer.duration, 0);
}

#[test]
fn selected_key_clamps_index() {
    let mut app = App::new(None, 0);
    assert_eq!(app.selected_journey_key(), None);
    let a = make_journey(at(7, 0), at(8, 0));
    let b = make_journey(at(9, 0), at(10, 0));
    app.journeys = vec![a, b.clone()];
    app.journeys_selected = 9;
    assert_eq!(app.selected_journey_key(), Some(b.key()));
}

#[test]
fn update_timer_without_journeys_changes_nothing() {
    let mut app = App::new(None, 0);
    let before = app.timer;
    app.update_timer_from_selection(at(8, 0), 10);
    assert_eq!(app.timer, before);

    app.journeys = vec![make_journey(at(8, 0), at(9, 0))];
    app.update_timer_from_selection(at(7, 59), 10);
    assert_eq!(app.timer.duration, 60_000);
    assert_eq!(app.timer.start, 10);
}

#[test]
fn duration_in_whole_minutes() {
    let mut j = make_journey(at(8, 0), at(9, 0));
    assert_eq!(j.duration_minutes(), 60);
    j.duration_secs = 119;
    assert_eq!(j.duration_minutes(), 1);
    j.duration_secs = -120;
    assert_eq!(j.duration_minutes(), 0);
}
