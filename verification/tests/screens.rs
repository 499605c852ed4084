use proxyfor_tui::actions::Message;
use proxyfor_tui::app::App;
use proxyfor_tui::chrome::Footer;
use proxyfor_tui::keys::{Event, KeyCode, KeyEvent, KeyEventKind};
use proxyfor_tui::layout::{popup_absolute_area, Constraint, Rect};
use proxyfor_tui::list::{generate_title, title_lines, wide_row, Cut, Figures, Rows, Scroll};
use proxyfor_tui::scene::{Content, Scene};
use proxyfor_tui::traffic::{Body, Header, Traffic, TrafficDetails, TrafficHead};

fn head(id: usize) -> TrafficHead {
    TrafficHead {
        id,
        method: "GET".to_string(),
        uri: "http://example.com/".to_string(),
        status: Some(200),
        size: Some(12),
        time: Some(3),
        mime: "text/html".to_string(),
    }
}

fn figures() -> Figures {
    Figures { size: "12b".to_string(), time: "3ms".to_string() }
}

fn rect(x: u16, y: u16, width: u16, height: u16) -> Rect {
    Rect { x, y, width, height }
}

fn press(app: &mut App, code: KeyCode) {
    let event = Event::Key(KeyEvent { code, modifiers: 0, kind: KeyEventKind::Press });
    app.handle_events(event, |head, word| head.uri.contains(word));
}

fn app_with(count: usize) -> App {
    let mut app = App::new("0.0.0.0:80");
    for id in 0..count {
        app.handle_message(Message::TrafficHead(head(id)));
    }
    app
}

fn draw(app: &mut App, area: Rect) -> Scene {
    assert!(app.drawable(area));
    let rows: Vec<Figures> = app.filtered_traffics().iter().map(|_| figures()).collect();
    app.draw(area, &rows)
}

fn text_body(value: &str) -> Option<Body> {
    Some(Body { value: value.to_string(), utf8: true })
}

fn header(name: &str, value: &str) -> Header {
    Header { name: name.to_string(), value: value.to_string() }
}

fn response(req_body: Option<Body>, res_body: Option<Body>, error: Option<String>) -> Message {
    Message::TrafficDetails(TrafficDetails {
        traffic: Traffic {
            req_headers: Some(vec![header("accept", "*/*"), header("host", "x")]),
            res_headers: Some(vec![header("server", "y")]),
            error,
        },
        req_body,
        res_body,
    })
}

#[test]
fn popups_are_centered_and_cut() {
    assert_eq!(popup_absolute_area(rect(0, 0, 80, 24), 24, 7), rect(28, 8, 24, 7));
    assert_eq!(popup_absolute_area(rect(0, 0, 81, 25), 30, 5), rect(25, 10, 30, 5));
    assert_eq!(popup_absolute_area(rect(3, 2, 80, 24), 24, 7), rect(31, 10, 24, 7));
    assert_eq!(popup_absolute_area(rect(0, 0, 20, 5), 24, 7), rect(0, 0, 20, 5));
    assert_eq!(popup_absolute_area(rect(0, 0, 0, 0), 24, 7), rect(0, 0, 0, 0));
}

#[test]
fn popups_are_centered_in_every_size() {
    for width in 0..64u16 {
        for height in 0..20u16 {
            let popup = popup_absolute_area(rect(1, 2, width, height), 24, 7);
            let x = 1 + width.saturating_sub(24) / 2;
            let y = 2 + height.saturating_sub(7) / 2;
            assert_eq!(popup, rect(x, y, width.min(24), height.min(7)));
        }
    }
}

#[test]
fn popups_stay_inside_at_the_end_of_the_coordinates() {
    let popup = popup_absolute_area(rect(65530, 65530, 100, 100), 24, 7);
    assert!(popup.x >= 65530 && popup.y >= 65530);
}

#[test]
fn the_footer_has_the_last_row() {
    for height in 0..40u16 {
        let mut app = app_with(1);
        let scene = draw(&mut app, rect(0, 0, 80, height));
        let content = if height > 5 { height - 1 } else { height };
        assert_eq!(scene.content_area, rect(0, 0, 80, content));
        assert_eq!(scene.footer_area, rect(0, content, 80, height - content));
    }
}

#[test]
fn a_title_has_two_lines() {
    let lines = title_lines(&head(1), 40, &figures());
    assert_eq!(lines.title.text, "GET http://example.com/");
    assert_eq!(lines.description.text, "    ← 200 text/html 12b 3ms");
    assert_eq!((lines.title.width, lines.title.cut), (40, Cut::Tail));
    assert_eq!((lines.description.width, lines.description.cut), (40, Cut::Tail));
}

fn tail(text: &str, width: u16) -> String {
    if text.chars().count() > width as usize {
        let kept: String = text.chars().take(width as usize - 1).collect();
        kept + ">"
    } else {
        text.to_string()
    }
}

fn start(text: &str, width: u16) -> String {
    let len = text.chars().count();
    if len > width as usize {
        let kept: String = text.chars().skip(len + 1 - width as usize).collect();
        "<".to_string() + &kept
    } else {
        text.to_string()
    }
}

#[test]
fn the_lines_of_a_title_are_cut_at_their_ends() {
    let lines = title_lines(&head(1), 10, &figures());
    assert_eq!(generate_title(&lines, &tail), "GET http:>\n    ← 200>");
    let lines = title_lines(&head(1), 40, &figures());
    let text = "GET http://example.com/\n    ← 200 text/html 12b 3ms";
    assert_eq!(generate_title(&lines, &tail), text);
}

#[test]
fn the_cells_of_a_row_are_cut() {
    let mut long = head(1);
    long.method = "OPTIONS".to_string();
    long.mime = "application/octet-stream".to_string();
    let row = wide_row(&long, 101, &figures());
    let expected = ["OPT>", "http://example.com/", "200", "<on/octet-stream", "12b", "3ms"];
    assert_eq!(row.cells(&start, &tail), expected);
    assert_eq!(row.method.fit(&start, &tail), "OPT>");
}

#[test]
fn figures_come_from_the_helpers() {
    let app = app_with(2);
    let rows = app.figures(|size| format!("{size:?}"), |time| format!("t{time:?}"));
    assert_eq!(rows.len(), 2);
    assert_eq!((rows[1].size.as_str(), rows[1].time.as_str()), ("Some(12)", "tSome(3)"));
}

#[test]
fn lines_that_cannot_be_counted_cannot_be_drawn() {
    let mut app = app_with(1);
    press(&mut app, KeyCode::Enter);
    app.handle_message(response(text_body(&"x".repeat(65536)), None, None));
    assert!(!app.drawable(rect(0, 0, 65535, 24)));
    assert!(!app.details_fit(rect(0, 0, 16386, 24)));
    assert!(app.drawable(rect(0, 0, 16385, 24)));
    draw(&mut app, rect(0, 0, 16385, 24));
    // two headers, the rule, five rows, two borders on 21 rows
    assert_eq!(app.details_scroll_size, Some(0));
    assert!(app.drawable(rect(0, 0, 65535, 24)));
    press(&mut app, KeyCode::Tab);
    assert!(app.drawable(rect(0, 0, 65535, 24)));
}

#[test]
fn lines_of_every_length_are_counted_at_the_largest_small_width() {
    for wide in ["x", " ", "世", "\u{17d8}", "x ", "世 "] {
        let mut app = app_with(1);
        press(&mut app, KeyCode::Enter);
        app.handle_message(response(text_body(&wide.repeat(70000)), None, None));
        draw(&mut app, rect(0, 0, 16385, 24));
    }
}

#[test]
fn a_title_without_status_has_no_description() {
    let mut open = head(1);
    open.status = None;
    assert_eq!(title_lines(&open, 40, &figures()).description.text, "");
}

#[test]
fn descriptions_are_indented_by_the_bytes_of_the_method() {
    let mut odd = head(1);
    odd.method = "é".to_string();
    let lines = title_lines(&odd, 40, &figures());
    assert_eq!(lines.description.text, "   ← 200 text/html 12b 3ms");
}

#[test]
fn an_empty_list_is_drawn() {
    let mut app = App::new("0.0.0.0:80");
    let scene = draw(&mut app, rect(0, 0, 80, 24));
    let Content::Main(view) = scene.content else { panic!("no list") };
    assert_eq!(view.title, "Proxyfor (0.0.0.0:80)");
    assert_eq!(view.pagination, None);
    assert_eq!(view.selected, None);
    assert_eq!(view.scrollbar, None);
    assert!(matches!(view.rows, Rows::Narrow(rows) if rows.is_empty()));
}

#[test]
fn a_narrow_list_has_titles() {
    let mut app = app_with(3);
    press(&mut app, KeyCode::Down);
    let scene = draw(&mut app, rect(0, 0, 100, 8));
    let Content::Main(view) = scene.content else { panic!("no list") };
    assert_eq!(view.pagination, Some("[2/3]".to_string()));
    assert_eq!(view.selected, Some(1));
    assert_eq!(view.columns, vec![Constraint::Percentage(100)]);
    assert_eq!(view.scrollbar, None);
    let Rows::Narrow(rows) = view.rows else { panic!("wide") };
    assert_eq!(rows.len(), 3);
    assert_eq!(rows[2].title.width, 96);
    assert_eq!(rows[2].title.text, "GET http://example.com/");
}

#[test]
fn a_wide_list_has_columns() {
    let mut app = app_with(2);
    let scene = draw(&mut app, rect(0, 0, 101, 24));
    let Content::Main(view) = scene.content else { panic!("no list") };
    assert_eq!(
        view.columns,
        vec![
            Constraint::Length(4),
            Constraint::Min(48),
            Constraint::Length(3),
            Constraint::Length(16),
            Constraint::Length(7),
            Constraint::Length(5),
        ]
    );
    let Rows::Wide(rows) = view.rows else { panic!("narrow") };
    let row = &rows[0];
    assert_eq!((row.method.text.as_str(), row.method.width, row.method.cut), ("GET", 4, Cut::Tail));
    assert_eq!((row.uri.text.as_str(), row.uri.width), ("http://example.com/", 57));
    assert_eq!(row.status, "200");
    assert_eq!((row.mime.text.as_str(), row.mime.width, row.mime.cut), ("text/html", 16, Cut::Head));
    assert_eq!((row.size.as_str(), row.time.as_str()), ("12b", "3ms"));
}

#[test]
fn long_lists_have_a_scrollbar() {
    let mut app = app_with(4);
    let Content::Main(view) = draw(&mut app, rect(0, 0, 80, 9)).content else { panic!("no list") };
    assert_eq!(view.scrollbar, Some(Scroll { len: 4, position: 0 }));
    let Content::Main(view) = draw(&mut app, rect(0, 0, 80, 10)).content else { panic!("no list") };
    assert_eq!(view.scrollbar, None);
    let mut app = app_with(5);
    press(&mut app, KeyCode::Up);
    let Content::Main(view) = draw(&mut app, rect(0, 0, 120, 7)).content else { panic!("no list") };
    assert_eq!(view.scrollbar, Some(Scroll { len: 5, position: 4 }));
    let Content::Main(view) = draw(&mut app, rect(0, 0, 120, 8)).content else { panic!("no list") };
    assert_eq!(view.scrollbar, None);
}

#[test]
fn details_show_their_title_first() {
    let mut app = app_with(1);
    press(&mut app, KeyCode::Enter);
    let Content::Details(view) = draw(&mut app, rect(0, 0, 80, 24)).content else { panic!("list") };
    let view = view.unwrap();
    assert_eq!(view.title_area, rect(0, 0, 80, 2));
    assert_eq!(view.body_area, rect(0, 2, 80, 21));
    assert_eq!(view.title.title.width, 80);
    assert!(view.body.is_none());
    assert_eq!(app.details_scroll_size, None);
}

#[test]
fn details_show_headers_and_body() {
    let mut app = app_with(2);
    press(&mut app, KeyCode::Enter);
    app.handle_message(response(text_body("a\r\nb\n"), None, None));
    let Content::Details(view) = draw(&mut app, rect(0, 0, 12, 24)).content else { panic!("list") };
    let body = view.unwrap().body.unwrap();
    assert!(body.is_req);
    assert_eq!(body.second_tab, "Response");
    assert_eq!(body.pagination, "[1/2]");
    assert_eq!(body.lines, ["accept: */*", "host: x", "——————————", "a", "b"]);
    assert!(!body.underline_last);
    assert_eq!(body.scrollbar, None);
    assert_eq!(app.details_scroll_size, Some(0));
    press(&mut app, KeyCode::Tab);
    let Content::Details(view) = draw(&mut app, rect(0, 0, 12, 24)).content else { panic!("list") };
    let body = view.unwrap().body.unwrap();
    assert!(!body.is_req);
    assert_eq!(body.lines, ["server: y"]);
}

#[test]
fn an_error_stands_for_the_response() {
    let mut app = app_with(1);
    press(&mut app, KeyCode::Enter);
    app.handle_message(response(None, text_body("x"), Some("refused".to_string())));
    press(&mut app, KeyCode::Tab);
    let Content::Details(view) = draw(&mut app, rect(0, 0, 80, 24)).content else { panic!("list") };
    let body = view.unwrap().body.unwrap();
    assert_eq!(body.second_tab, "Error");
    assert_eq!(body.lines, ["refused"]);
}

#[test]
fn a_body_that_is_no_text_is_one_marked_line() {
    let mut app = app_with(1);
    press(&mut app, KeyCode::Enter);
    let file = Body { value: "/tmp/a\nb".to_string(), utf8: false };
    app.handle_message(response(None, Some(file), None));
    press(&mut app, KeyCode::Right);
    let Content::Details(view) = draw(&mut app, rect(0, 0, 5, 24)).content else { panic!("list") };
    let body = view.unwrap().body.unwrap();
    assert_eq!(body.lines, ["server: y", "———", "/tmp/a\nb"]);
    assert!(body.underline_last);
}

#[test]
fn long_details_scroll() {
    let mut app = app_with(1);
    press(&mut app, KeyCode::Enter);
    app.handle_message(response(text_body(&"line\n".repeat(30)), None, None));
    let area = rect(0, 0, 80, 24);
    let Content::Details(view) = draw(&mut app, area).content else { panic!("list") };
    let body = view.unwrap().body.unwrap();
    // 33 lines and two borders on 21 rows
    assert_eq!(body.scrollbar, Some(Scroll { len: 14, position: 0 }));
    assert_eq!(app.details_scroll_size, Some(14));
    press(&mut app, KeyCode::Up);
    let Content::Details(view) = draw(&mut app, rect(0, 0, 40, 10)).content else { panic!("list") };
    let body = view.unwrap().body.unwrap();
    assert_eq!(body.scroll_offset, 14);
    assert_eq!(body.scrollbar, Some(Scroll { len: 14, position: 14 }));
}

#[test]
fn long_lines_are_counted_as_they_wrap() {
    let mut app = app_with(1);
    press(&mut app, KeyCode::Enter);
    app.handle_message(response(text_body(&"x".repeat(100)), None, None));
    draw(&mut app, rect(0, 0, 12, 10));
    // two headers (one of them on two rows), the rule, ten rows, two borders on seven rows
    assert_eq!(app.details_scroll_size, Some(9));
}

#[test]
fn a_row_that_does_not_exist_has_no_details() {
    let mut app = app_with(2);
    app.handle_message(Message::TrafficHead(TrafficHead { uri: "only".to_string(), ..head(5) }));
    press(&mut app, KeyCode::Char('/'));
    for c in "only".chars() {
        press(&mut app, KeyCode::Char(c));
    }
    press(&mut app, KeyCode::Enter);
    press(&mut app, KeyCode::Down);
    press(&mut app, KeyCode::Enter);
    let Content::Details(view) = draw(&mut app, rect(0, 0, 80, 24)).content else { panic!("list") };
    assert!(view.is_none());
}

#[test]
fn the_footer_shows_the_keys() {
    let mut app = app_with(1);
    let Footer::Help(items) = app.render_footer() else { panic!("no help") };
    let keys: Vec<(&str, &str, &str)> =
        items.iter().map(|i| (i.key, i.description, i.separator)).collect();
    assert_eq!(
        keys,
        [
            ("↵", "Select", " | "),
            ("⇅", "Navigate", " | "),
            ("/", "Search", " | "),
            ("c", "Copy", " | "),
            ("e", "Export", " | "),
            ("q", "Quit", ""),
        ]
    );
    press(&mut app, KeyCode::Enter);
    let keys = app.current_view.keybindings();
    assert_eq!(keys[0], ("↹", "Switch"));
    assert_eq!(keys[1], ("⇅", "Scroll"));
    assert_eq!(keys[2], ("␣", "Next"));
    assert_eq!(keys[5], ("q", "Back"));
}

#[test]
fn the_footer_shows_notices_and_questions() {
    let mut app = app_with(1);
    app.handle_message(Message::Info("Copied".to_string()));
    assert!(matches!(app.render_footer(), Footer::Notice(text, false) if text == "✓ Copied"));
    app.handle_message(Message::Error("no".to_string()));
    assert!(matches!(app.render_footer(), Footer::Notice(text, true) if text == "Error: no"));
    press(&mut app, KeyCode::Char('q'));
    let Footer::Confirm(pieces) = app.render_footer() else { panic!("no question") };
    let text: String = pieces.iter().map(|p| p.0).collect();
    assert_eq!(text, "Quit (yes,no)?");
    let marked: Vec<&str> = pieces.iter().filter(|p| p.1).map(|p| p.0).collect();
    assert_eq!(marked, ["y", "n"]);
}

#[test]
fn popups_list_their_actions() {
    let mut app = app_with(1);
    let area = rect(0, 0, 80, 24);
    assert!(draw(&mut app, area).popup.is_none());
    press(&mut app, KeyCode::Char('c'));
    press(&mut app, KeyCode::Down);
    let popup = draw(&mut app, area).popup.unwrap();
    assert_eq!(popup.area, rect(28, 8, 24, 7));
    assert_eq!(popup.selected, 1);
    assert_eq!(popup.labels.len(), 5);
    assert_eq!(popup.labels[4], "Copy Response Body");
    press(&mut app, KeyCode::Esc);
    press(&mut app, KeyCode::Char('e'));
    let popup = draw(&mut app, area).popup.unwrap();
    assert_eq!(popup.area, rect(25, 9, 30, 5));
    assert_eq!(popup.labels[0], "Export all as Markdown");
}

#[test]
fn the_search_line_shows_the_query() {
    let mut app = app_with(1);
    let area = rect(0, 0, 80, 24);
    assert!(draw(&mut app, area).search.is_none());
    press(&mut app, KeyCode::Char('/'));
    let line = draw(&mut app, area).search.unwrap();
    assert_eq!(line.text, "|search:  |");
    assert_eq!(line.area, rect(1, 22, 11, 1));
    assert_eq!(line.cursor, (10, 22));
    press(&mut app, KeyCode::Char('世'));
    press(&mut app, KeyCode::Enter);
    let line = draw(&mut app, area).search.unwrap();
    assert_eq!(line.text, "|search: 世|");
    assert_eq!(line.area.width, 12);
}

#[test]
fn small_terminals_cannot_be_drawn() {
    let mut app = app_with(1);
    assert!(app.drawable(rect(0, 0, 4, 0)));
    assert!(!app.drawable(rect(0, 0, 3, 24)));
    press(&mut app, KeyCode::Char('/'));
    assert!(!app.drawable(rect(0, 0, 80, 1)));
    press(&mut app, KeyCode::Esc);
    press(&mut app, KeyCode::Enter);
    assert!(app.drawable(rect(0, 0, 1, 24)));
    app.handle_message(response(None, None, None));
    assert!(!app.drawable(rect(0, 0, 1, 24)));
    assert!(app.drawable(rect(0, 0, 2, 24)));
}
