use proxyfor_tui::actions::Message;
use proxyfor_tui::app::App;
use proxyfor_tui::keys::{Event, KeyCode, KeyEvent, KeyEventKind};
use proxyfor_tui::traffic::TrafficHead;

fn head(id: usize, method: &str, uri: &str) -> TrafficHead {
    TrafficHead {
        id,
        method: method.to_string(),
        uri: uri.to_string(),
        status: None,
        size: None,
        time: None,
        mime: String::new(),
    }
}

fn fits(head: &TrafficHead, word: &str) -> bool {
    head.method == word || head.uri.contains(word)
}

fn press(app: &mut App, code: KeyCode, modifiers: u8) {
    let event = Event::Key(KeyEvent { code, modifiers, kind: KeyEventKind::Press });
    assert!(app.handle_events(event, fits).is_none());
}

fn type_text(app: &mut App, text: &str) {
    for c in text.chars() {
        press(app, KeyCode::Char(c), 0);
    }
}

fn ids(app: &App) -> Vec<usize> {
    app.filtered_traffics().iter().map(|h| h.id).collect()
}

fn sample() -> App {
    let mut app = App::new("");
    for head in [
        head(7, "GET", "/api/users"),
        head(8, "POST", "/api/users"),
        head(9, "GET", "/index"),
        head(10, "GET", "/api/items"),
    ] {
        app.handle_message(Message::TrafficHead(head));
    }
    app
}

#[test]
fn every_word_has_to_fit() {
    let mut app = sample();
    press(&mut app, KeyCode::Char('/'), 0);
    assert!(app.input_mode);
    type_text(&mut app, "/api");
    assert_eq!(ids(&app), [7, 8, 10]);
    type_text(&mut app, " GET");
    assert_eq!(app.search_input.value, "/api GET");
    assert_eq!(ids(&app), [7, 10]);
    press(&mut app, KeyCode::Enter, 0);
    assert!(!app.input_mode);
    assert_eq!(ids(&app), [7, 10]);
}

#[test]
fn the_selection_stays_on_its_exchange() {
    let mut app = sample();
    for _ in 0..3 {
        press(&mut app, KeyCode::Down, 0);
    }
    assert_eq!(app.selected_traffic().unwrap().id, 10);
    press(&mut app, KeyCode::Char('/'), 0);
    type_text(&mut app, "api");
    assert_eq!(ids(&app), [7, 8, 10]);
    assert_eq!(app.selected_traffic_index, 2);
    press(&mut app, KeyCode::Esc, 0);
    assert_eq!(ids(&app), [7, 8, 9, 10]);
    assert_eq!(app.selected_traffic_index, 3);
    assert_eq!(app.search_input.value, "");
    assert!(!app.input_mode);
    press(&mut app, KeyCode::Char('/'), 0);
    type_text(&mut app, "index");
    assert_eq!(ids(&app), [9]);
    assert_eq!(app.selected_traffic_index, 0);
    press(&mut app, KeyCode::Esc, 0);
    assert_eq!(app.selected_traffic().unwrap().id, 9);
}

#[test]
fn blanks_are_no_words() {
    let mut app = sample();
    press(&mut app, KeyCode::Char('/'), 0);
    type_text(&mut app, " \u{3000}");
    assert!(app.filtered_traffic_indices.is_none());
    assert_eq!(ids(&app), [7, 8, 9, 10]);
}

#[test]
fn nothing_fits() {
    let mut app = sample();
    press(&mut app, KeyCode::Char('/'), 0);
    type_text(&mut app, "zzz");
    assert!(ids(&app).is_empty());
    assert!(app.selected_traffic().is_none());
    press(&mut app, KeyCode::Enter, 0);
    press(&mut app, KeyCode::Enter, 0);
    assert_eq!(app.current_view, proxyfor_tui::model::Screen::Main);
    press(&mut app, KeyCode::Char('c'), 0);
    assert_eq!(app.current_notifier.as_ref().unwrap().message, "No traffic selected");
}

#[test]
fn keys_edit_the_query_while_it_is_typed() {
    let mut app = sample();
    press(&mut app, KeyCode::Char('/'), 0);
    type_text(&mut app, "abc");
    press(&mut app, KeyCode::Left, 0);
    press(&mut app, KeyCode::Backspace, 0);
    assert_eq!((app.search_input.value.as_str(), app.search_input.cursor), ("ac", 1));
    press(&mut app, KeyCode::Char('X'), 1);
    assert_eq!((app.search_input.value.as_str(), app.search_input.cursor), ("aXc", 2));
    press(&mut app, KeyCode::Home, 0);
    press(&mut app, KeyCode::Delete, 0);
    assert_eq!((app.search_input.value.as_str(), app.search_input.cursor), ("Xc", 0));
    press(&mut app, KeyCode::End, 0);
    assert_eq!(app.search_input.cursor, 2);
    press(&mut app, KeyCode::Right, 0);
    press(&mut app, KeyCode::Down, 0);
    press(&mut app, KeyCode::Tab, 0);
    press(&mut app, KeyCode::Up, 4);
    press(&mut app, KeyCode::Other, 0);
    assert_eq!((app.search_input.value.as_str(), app.search_input.cursor), ("Xc", 2));
    assert_eq!(app.selected_traffic_index, 0);
    press(&mut app, KeyCode::Char('u'), 2);
    assert_eq!((app.search_input.value.as_str(), app.search_input.cursor), ("", 0));
    press(&mut app, KeyCode::Backspace, 0);
    press(&mut app, KeyCode::Delete, 0);
    press(&mut app, KeyCode::Left, 0);
    assert!(app.input_mode);
    press(&mut app, KeyCode::Char('q'), 0);
    assert_eq!(app.search_input.value, "q");
    assert!(app.current_confirm.is_none());
}

#[test]
fn words_are_edited_with_control() {
    let mut app = sample();
    press(&mut app, KeyCode::Char('/'), 0);
    type_text(&mut app, "one two");
    press(&mut app, KeyCode::Char('w'), 2);
    assert_eq!(app.search_input.value, "one ");
    press(&mut app, KeyCode::Left, 2);
    assert_eq!(app.search_input.cursor, 0);
    press(&mut app, KeyCode::Char('k'), 2);
    assert_eq!(app.search_input.value, "");
}

#[test]
fn new_exchanges_wait_for_the_next_search() {
    let mut app = sample();
    press(&mut app, KeyCode::Char('/'), 0);
    type_text(&mut app, "GET");
    app.handle_message(Message::TrafficHead(head(11, "GET", "/late")));
    assert_eq!(ids(&app), [7, 9, 10]);
    press(&mut app, KeyCode::Enter, 0);
    assert_eq!(ids(&app), [7, 9, 10, 11]);
}

#[test]
fn the_selection_counts_over_all_traffic() {
    let mut app = sample();
    press(&mut app, KeyCode::Char('/'), 0);
    type_text(&mut app, "index");
    press(&mut app, KeyCode::Enter, 0);
    press(&mut app, KeyCode::Down, 0);
    assert_eq!(app.selected_traffic_index, 1);
    assert!(app.selected_traffic().is_none());
}

#[test]
fn answers_decide_what_is_listed() {
    let mut app = sample();
    app.selected_traffic_index = 2;
    app.show_hits(Some(vec![false, true, true, false]));
    assert_eq!(app.filtered_traffic_indices, Some(vec![1, 2]));
    assert_eq!(app.selected_traffic_index, 1);
    app.show_hits(None);
    assert_eq!(app.filtered_traffic_indices, None);
    assert_eq!(app.selected_traffic_index, 2);
}

#[test]
fn search_asks_the_filter() {
    let mut app = sample();
    app.search_input.value = "users POST".to_string();
    app.search(fits);
    assert_eq!(app.filtered_traffic_indices, Some(vec![1]));
}

#[test]
fn a_repeated_search_changes_nothing() {
    let mut app = sample();
    app.selected_traffic_index = 3;
    app.show_hits(Some(vec![true, false, true, false]));
    assert_eq!(app.selected_traffic_index, 0);
    app.selected_traffic_index = 1;
    app.show_hits(Some(vec![true, false, true, false]));
    assert_eq!(app.filtered_traffic_indices, Some(vec![0, 2]));
    assert_eq!(app.selected_traffic_index, 1);
}

#[test]
fn a_blank_query_shows_everything() {
    let mut app = App::new("a");
    app.search_input.value = "   ".to_string();
    app.filtered_traffic_indices = Some(vec![]);
    app.selected_traffic_index = 4;
    app.search(fits);
    assert_eq!(app.filtered_traffic_indices, None);
    assert_eq!(app.selected_traffic_index, 0);
    assert_eq!(app.search_input.value, "   ");
}

#[test]
fn a_search_on_the_details_is_stable() {
    let mut app = sample();
    app.current_view = proxyfor_tui::model::Screen::Details;
    app.search_input.value = "zzz".to_string();
    app.search(fits);
    app.search(fits);
    assert_eq!(app.filtered_traffic_indices, Some(vec![]));
    assert_eq!(app.selected_traffic_index, 0);
}

#[test]
fn an_id_that_is_listed_twice_is_found_at_its_ends() {
    let mut app = App::new("");
    app.traffics = vec![head(1, "GET", "/a"), head(2, "GET", "/b"), head(1, "GET", "/c")];
    app.show_hits(Some(vec![true, true, true]));
    assert_eq!(app.selected_traffic_index, 2);
    app.show_hits(None);
    assert_eq!(app.selected_traffic_index, 0);
}
