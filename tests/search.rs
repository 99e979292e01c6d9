use async_rust_tui::app::{App, Mode};
use async_rust_tui::journey::Place;
use async_rust_tui::search::same_chars;

fn place(id: &str, name: &str) -> Place {
    Place {
        id: id.to_string(),
        name: name.to_string(),
        embedded_type: Some("stop_area".to_string()),
    }
}

fn type_text(app: &mut App, s: &str, at: u64) {
    app.input.text = s.chars().collect();
    app.input.cursor = app.input.text.len();
    app.input.last_edit_at = at;
}

#[test]
fn short_text_never_fetches() {
    let mut app = App::new(None, 0);
    type_text(&mut app, "G", 0);
    assert_eq!(app.maybe_fetch_suggestions(10_000), None);
    type_text(&mut app, "", 0);
    assert_eq!(app.maybe_fetch_suggestions(10_000), None);
    assert!(!app.input.loading);
}

#[test]
fn burst_of_edits_fetches_once_for_final_text() {
    let mut app = App::new(None, 0);
    type_text(&mut app, "Gr", 1_000);
    assert_eq!(app.maybe_fetch_suggestions(1_200), None);
    type_text(&mut app, "Gre", 1_300);
    assert_eq!(app.maybe_fetch_suggestions(1_600), None);
    type_text(&mut app, "Gren", 1_640);
    assert_eq!(app.maybe_fetch_suggestions(1_989), None);
    let q = app.maybe_fetch_suggestions(1_990).expect("lookup due");
    assert_eq!(q, "Gren");
    assert!(app.input.loading);
    // single flight while the lookup is out
    assert_eq!(app.maybe_fetch_suggestions(5_000), None);
    app.apply_suggestions(&q, Ok(vec![place("stop_area:SNCF:1", "Grenoble")]));
    assert!(!app.input.loading);
    assert_eq!(app.input.last_queried, vec!['G', 'r', 'e', 'n']);
    assert_eq!(app.maybe_fetch_suggestions(9_000), None);
}

#[test]
fn failed_lookup_keeps_suggestions_and_retries() {
    let mut app = App::new(None, 0);
    app.input.suggestions = vec![place("a", "Alpha")];
    app.input.selected = 0;
    type_text(&mut app, "Ly", 0);
    let q = app.maybe_fetch_suggestions(400).expect("lookup due");
    app.apply_suggestions(&q, Err("network down".to_string()));
    assert!(!app.input.loading);
    assert_eq!(app.input.error.as_deref(), Some("network down"));
    assert_eq!(app.input.suggestions.len(), 1);
    assert!(app.input.last_queried.is_empty());
    assert_eq!(app.suggestion_items(), vec!["Error: network down".to_string()]);
    assert_eq!(app.maybe_fetch_suggestions(800), Some("Ly".to_string()));
}

#[test]
fn success_replaces_suggestions_and_clears_error() {
    let mut app = App::new(None, 0);
    app.input.error = Some("old".to_string());
    app.input.selected = 2;
    app.apply_suggestions("Lyon", Ok(vec![place("a", "Lyon Part Dieu"), place("b", "Lyon Perrache")]));
    assert_eq!(app.input.error, None);
    assert_eq!(app.input.selected, 0);
    assert_eq!(app.input.last_queried, vec!['L', 'y', 'o', 'n']);
    assert_eq!(
        app.suggestion_items(),
        vec!["Lyon Part Dieu".to_string(), "Lyon Perrache".to_string()]
    );
}

#[test]
fn suggestion_lines_for_each_state() {
    let mut app = App::new(None, 0);
    assert!(app.suggestion_items().is_empty());
    type_text(&mut app, "Xy", 0);
    assert_eq!(app.suggestion_items(), vec!["No results".to_string()]);
    app.input.loading = true;
    assert_eq!(app.suggestion_items(), vec!["Loading...".to_string()]);
}

#[test]
fn reset_clears_input() {
    let mut app = App::new(None, 0);
    type_text(&mut app, "Gre", 50);
    app.input.suggestions = vec![place("a", "Alpha")];
    app.input.selected = 0;
    app.input.last_queried = vec!['G', 'r'];
    app.input.error = Some("e".to_string());
    app.reset_input();
    assert!(app.input.text.is_empty());
    assert_eq!(app.input.cursor, 0);
    assert!(app.input.suggestions.is_empty());
    assert!(app.input.last_queried.is_empty());
    assert_eq!(app.input.error, None);
    assert_eq!(app.input.last_edit_at, 50);
}

#[test]
fn chars_compare_by_content() {
    assert!(same_chars(&vec!['a', 'b'], &vec!['a', 'b']));
    assert!(!same_chars(&vec!['a', 'b'], &vec!['a', 'c']));
    assert!(!same_chars(&vec!['a'], &vec!['a', 'b']));
}

#[test]
fn titles_follow_mode() {
    let mut app = App::new(None, 0);
    assert_eq!(app.input_title(), "Start station");
    app.mode = Mode::InputDest;
    assert_eq!(app.input_title(), "Destination station");
    app.mode = Mode::Timer;
    assert_eq!(app.input_title(), "");
}
