use proxyfor_tui::actions::{Message, Request};
use proxyfor_tui::app::{App, Turn};
use proxyfor_tui::keys::{Event, KeyCode, KeyEvent, KeyEventKind};
use proxyfor_tui::model::{Confirm, Popup, Screen};
use proxyfor_tui::nav::{next_idx, prev_idx};
use proxyfor_tui::traffic::{Traffic, TrafficDetails, TrafficHead};

fn head(id: usize, uri: &str) -> TrafficHead {
    TrafficHead {
        id,
        method: "GET".to_string(),
        uri: uri.to_string(),
        status: Some(200),
        size: Some(12),
        time: Some(3),
        mime: "text/html".to_string(),
    }
}

fn details() -> TrafficDetails {
    TrafficDetails {
        traffic: Traffic { req_headers: None, res_headers: None, error: None },
        req_body: None,
        res_body: None,
    }
}

fn contains(head: &TrafficHead, word: &str) -> bool {
    head.uri.contains(word)
}

fn key(app: &mut App, code: KeyCode) -> Option<Request> {
    let event = Event::Key(KeyEvent { code, modifiers: 0, kind: KeyEventKind::Press });
    app.handle_events(event, contains)
}

fn three() -> App {
    let mut app = App::new("127.0.0.1:8080");
    for (id, uri) in [(10, "/a"), (11, "/b"), (12, "/c")] {
        assert!(app.handle_message(Message::TrafficHead(head(id, uri))).is_none());
    }
    app
}

fn is_fetch(request: Option<Request>, id: usize) -> bool {
    matches!(request, Some(Request::Fetch(found)) if found == id)
}

#[test]
fn indices_wrap_at_both_ends() {
    assert_eq!(next_idx(3, 0), 1);
    assert_eq!(next_idx(3, 2), 0);
    assert_eq!(prev_idx(3, 2), 1);
    assert_eq!(prev_idx(3, 0), 2);
    assert_eq!(next_idx(0, 0), 0);
    assert_eq!(prev_idx(0, 0), 0);
    assert_eq!(next_idx(1, 0), 0);
    assert_eq!(prev_idx(1, 0), 0);
}

#[test]
fn a_new_interface_is_empty() {
    let app = App::new("127.0.0.1:8080");
    assert_eq!(app.addr, "127.0.0.1:8080");
    assert_eq!(app.current_view, Screen::Main);
    assert!(app.filtered_traffics().is_empty());
    assert!(app.selected_traffic().is_none());
    assert!(!app.should_quit);
    assert_eq!(app.step, 0);
}

#[test]
fn down_and_up_move_through_the_list() {
    let mut app = three();
    key(&mut app, KeyCode::Down);
    assert_eq!(app.selected_traffic().unwrap().id, 11);
    key(&mut app, KeyCode::Char('j'));
    assert_eq!(app.selected_traffic().unwrap().id, 12);
    key(&mut app, KeyCode::Down);
    assert_eq!(app.selected_traffic().unwrap().id, 10);
    key(&mut app, KeyCode::Up);
    assert_eq!(app.selected_traffic().unwrap().id, 12);
    key(&mut app, KeyCode::Char('k'));
    assert_eq!(app.selected_traffic().unwrap().id, 11);
}

#[test]
fn a_full_turn_down_comes_back() {
    let mut app = three();
    key(&mut app, KeyCode::Down);
    for _ in 0..3 {
        key(&mut app, KeyCode::Down);
    }
    assert_eq!(app.selected_traffic_index, 1);
}

#[test]
fn down_and_up_undo_each_other() {
    let mut app = three();
    for start in 0..3 {
        app.selected_traffic_index = start;
        key(&mut app, KeyCode::Down);
        key(&mut app, KeyCode::Up);
        assert_eq!(app.selected_traffic_index, start);
        key(&mut app, KeyCode::Up);
        key(&mut app, KeyCode::Down);
        assert_eq!(app.selected_traffic_index, start);
    }
}

#[test]
fn keys_that_are_not_pressed_do_nothing() {
    let mut app = three();
    for kind in [KeyEventKind::Release, KeyEventKind::Repeat] {
        let event = Event::Key(KeyEvent { code: KeyCode::Down, modifiers: 0, kind });
        assert!(app.handle_events(event, contains).is_none());
    }
    assert!(app.handle_events(Event::Other, contains).is_none());
    assert_eq!(app.selected_traffic_index, 0);
}

#[test]
fn enter_opens_the_details_and_asks_for_them() {
    let mut app = three();
    key(&mut app, KeyCode::Down);
    assert!(is_fetch(key(&mut app, KeyCode::Enter), 11));
    assert_eq!(app.current_view, Screen::Details);
    assert!(app.handle_message(Message::TrafficDetails(details())).is_none());
    assert!(app.current_traffic.is_some());
    key(&mut app, KeyCode::Esc);
    assert_eq!(app.current_view, Screen::Main);
    assert!(app.current_traffic.is_none());
    assert_eq!(app.selected_traffic_index, 1);
}

#[test]
fn enter_on_an_empty_list_does_nothing() {
    let mut app = App::new("");
    assert!(key(&mut app, KeyCode::Enter).is_none());
    assert_eq!(app.current_view, Screen::Main);
}

#[test]
fn space_opens_the_next_details() {
    let mut app = three();
    assert!(key(&mut app, KeyCode::Char(' ')).is_none());
    assert_eq!(app.selected_traffic_index, 0);
    key(&mut app, KeyCode::Enter);
    assert!(is_fetch(key(&mut app, KeyCode::Char(' ')), 11));
    assert!(is_fetch(key(&mut app, KeyCode::Char(' ')), 12));
    assert!(is_fetch(key(&mut app, KeyCode::Char(' ')), 10));
}

#[test]
fn tabs_switch_and_scroll_to_the_start() {
    let mut app = three();
    key(&mut app, KeyCode::Tab);
    assert_eq!(app.details_tab_index, 0);
    key(&mut app, KeyCode::Enter);
    app.details_scroll_size = Some(4);
    app.details_scroll_offset = 2;
    key(&mut app, KeyCode::Tab);
    assert_eq!(app.details_tab_index, 1);
    assert_eq!(app.details_scroll_offset, 0);
    assert_eq!(app.details_scroll_size, None);
    key(&mut app, KeyCode::Left);
    assert_eq!(app.details_tab_index, 0);
    key(&mut app, KeyCode::Right);
    assert_eq!(app.details_tab_index, 1);
}

#[test]
fn details_scroll_and_wrap() {
    let mut app = three();
    key(&mut app, KeyCode::Enter);
    key(&mut app, KeyCode::Down);
    assert_eq!(app.details_scroll_offset, 0);
    app.details_scroll_size = Some(2);
    for expected in [1, 2, 0] {
        key(&mut app, KeyCode::Down);
        assert_eq!(app.details_scroll_offset, expected);
    }
    for expected in [2, 1, 0] {
        key(&mut app, KeyCode::Up);
        assert_eq!(app.details_scroll_offset, expected);
    }
    app.details_scroll_size = Some(0);
    key(&mut app, KeyCode::Up);
    assert_eq!(app.details_scroll_offset, 0);
}

#[test]
fn quitting_asks_first() {
    let mut app = three();
    key(&mut app, KeyCode::Char('y'));
    assert!(!app.should_quit);
    key(&mut app, KeyCode::Char('q'));
    assert_eq!(app.current_confirm, Some(Confirm::Quit));
    key(&mut app, KeyCode::Char('n'));
    assert_eq!(app.current_confirm, None);
    key(&mut app, KeyCode::Char('y'));
    assert!(!app.should_quit);
    key(&mut app, KeyCode::Esc);
    key(&mut app, KeyCode::Char('y'));
    assert!(app.should_quit);
    assert_eq!(app.finish_turn(0), Turn::Quit);
    assert_eq!(app.step, 0);
}

#[test]
fn the_copy_popup_runs_its_action() {
    let mut app = three();
    key(&mut app, KeyCode::Down);
    key(&mut app, KeyCode::Char('c'));
    assert_eq!(app.current_popup, Some(Popup::Copy(0)));
    key(&mut app, KeyCode::Down);
    key(&mut app, KeyCode::Char('e'));
    assert_eq!(app.current_popup, Some(Popup::Copy(1)));
    assert_eq!(app.selected_traffic_index, 1);
    match key(&mut app, KeyCode::Enter) {
        Some(Request::Copy(id, format)) => assert_eq!((id, format), (11, "curl")),
        _ => panic!("no copy"),
    }
    assert_eq!(app.current_popup, None);
    assert_eq!(app.current_view, Screen::Main);
    key(&mut app, KeyCode::Char('c'));
    key(&mut app, KeyCode::Up);
    assert_eq!(app.current_popup, Some(Popup::Copy(4)));
    key(&mut app, KeyCode::Down);
    assert_eq!(app.current_popup, Some(Popup::Copy(0)));
    key(&mut app, KeyCode::Char('q'));
    assert_eq!(app.current_popup, None);
    assert_eq!(app.current_confirm, None);
}

#[test]
fn the_export_popup_runs_its_action() {
    let mut app = three();
    key(&mut app, KeyCode::Char('e'));
    assert_eq!(app.current_popup, Some(Popup::Export(0)));
    key(&mut app, KeyCode::Up);
    assert_eq!(app.current_popup, Some(Popup::Export(2)));
    match key(&mut app, KeyCode::Enter) {
        Some(Request::Export(format)) => assert_eq!(format, "har"),
        _ => panic!("no export"),
    }
    assert!(app.run_export_command(3).is_none());
    assert!(app.run_copy_command(5).is_none());
}

#[test]
fn popups_need_traffic() {
    let mut app = App::new("");
    key(&mut app, KeyCode::Char('c'));
    assert_eq!(app.current_popup, None);
    let notice = app.current_notifier.as_ref().unwrap();
    assert_eq!((notice.message.as_str(), notice.is_error), ("No traffic selected", true));
    key(&mut app, KeyCode::Char('e'));
    let notice = app.current_notifier.as_ref().unwrap();
    assert_eq!((notice.message.as_str(), notice.is_error), ("No traffics", true));
    assert!(app.run_copy_command(0).is_none());
}

#[test]
fn known_exchanges_are_replaced_in_place() {
    let mut app = three();
    assert!(app.handle_message(Message::TrafficHead(head(11, "/new"))).is_none());
    let uris: Vec<&str> = app.filtered_traffics().iter().map(|h| h.uri.as_str()).collect();
    assert_eq!(uris, ["/a", "/new", "/c"]);
    assert!(app.handle_message(Message::TrafficHead(head(11, "/new"))).is_none());
    assert_eq!(app.traffics.len(), 3);
}

#[test]
fn an_update_of_the_open_exchange_is_read_again() {
    let mut app = three();
    key(&mut app, KeyCode::Enter);
    app.details_scroll_size = Some(3);
    app.details_scroll_offset = 3;
    assert!(app.handle_message(Message::TrafficHead(head(12, "/c2"))).is_none());
    assert_eq!(app.details_scroll_offset, 3);
    assert!(is_fetch(app.handle_message(Message::TrafficHead(head(10, "/a2"))), 10));
    assert_eq!(app.details_scroll_offset, 0);
    assert_eq!(app.details_scroll_size, None);
}

#[test]
fn a_notice_stays_for_its_time() {
    let mut app = three();
    app.handle_message(Message::Info("Copied".to_string()));
    assert_eq!(app.current_notifier.as_ref().unwrap().timeout_step, 20);
    assert!(!app.current_notifier.as_ref().unwrap().is_error);
    for _ in 0..21 {
        assert_eq!(app.finish_turn(0), Turn::Continue { new_tick: false });
        assert!(app.current_notifier.is_some());
    }
    assert_eq!(app.finish_turn(250_000_000), Turn::Continue { new_tick: true });
    assert!(app.current_notifier.is_none());
    assert_eq!(app.step, 22);
    app.handle_message(Message::Error("broken".to_string()));
    assert!(app.current_notifier.as_ref().unwrap().is_error);
    app.notify("later", false);
    assert_eq!(app.current_notifier.as_ref().unwrap().message, "later");
}

#[test]
fn waiting_ends_with_the_tick() {
    assert_eq!(App::poll_timeout(0), 250_000_000);
    assert_eq!(App::poll_timeout(249_999_999), 1);
    assert_eq!(App::poll_timeout(250_000_000), 0);
    assert_eq!(App::poll_timeout(u128::MAX), 0);
}

#[test]
fn details_scroll_without_traffic_too() {
    let mut app = App::new("a");
    app.current_view = Screen::Details;
    app.details_scroll_size = Some(3);
    app.details_scroll_offset = 2;
    key(&mut app, KeyCode::Down);
    assert_eq!(app.details_scroll_offset, 3);
    assert_eq!(app.details_scroll_size, Some(3));
    assert_eq!(app.selected_traffic_index, 0);
    key(&mut app, KeyCode::Down);
    assert_eq!(app.details_scroll_offset, 0);
}

#[test]
fn events_that_count_too_far_are_found() {
    let down = Event::Key(KeyEvent { code: KeyCode::Down, modifiers: 0, kind: KeyEventKind::Press });
    let copy = Event::Key(KeyEvent { code: KeyCode::Char('c'), modifiers: 0, kind: KeyEventKind::Press });
    let released = Event::Key(KeyEvent { code: KeyCode::Char('c'), modifiers: 0, kind: KeyEventKind::Release });
    let mut app = App::new("a");
    assert!(app.can_handle(copy));
    app.step = u64::MAX - 20;
    assert!(app.can_handle(copy));
    app.step = u64::MAX - 19;
    assert!(!app.can_handle(copy));
    assert!(app.can_handle(released));
    assert!(app.can_handle(down));
    assert!(app.can_handle(Event::Other));
    app.input_mode = true;
    assert!(app.can_handle(copy));
    app.input_mode = false;
    app.current_view = Screen::Details;
    app.details_scroll_size = Some(3);
    app.details_scroll_offset = u16::MAX;
    assert!(!app.can_handle(down));
    app.details_scroll_size = Some(u16::MAX);
    assert!(app.can_handle(down));
}
