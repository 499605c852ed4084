//! What the screens tell of the state that they show.
use vstd::prelude::*;
use crate::actions::{Request, COPY_ACTIONS, EXPORT_ACTIONS};
use crate::chrome::{
    is_help, is_popup_of, is_search_line_of, line_width, notice_text, ActionPopup, Footer,
    HelpItem, SearchLine, DETAILS_KEYBINDINGS, MAIN_KEYBINDINGS, QUIT_QUESTION,
};
use crate::details::{
    body_area_of, detail_lines, scroll_size_of, title_area_of, wrapped_line_count, DetailsBody,
    DetailsView,
};
use crate::key_laws::enter_asks_for_the_highlighted_row;
use crate::keys::KeyCode;
use crate::layout::{centered, Constraint, Rect};
use crate::list::{pagination_of, Figures, Fitted, MainView, Rows, TitleLines, WideRow};
use crate::model::{AppState, Popup, Screen};
use crate::scene::{content_area_of, footer_area_of, Content, Scene};
use crate::text::{byte_len, decimal_stands_for_the_number, lines_of, texts, value_of};
use crate::traffic::{Body, Header, Traffic, TrafficDetails, TrafficHead};

verus! {

/// The text of a list of strings is that of each string, in order.
pub proof fn texts_are_those_of_the_strings(strings: Seq<String>)
    ensures
        texts(strings).len() == strings.len(),
        forall|i: int| 0 <= i < strings.len() ==> #[trigger] texts(strings)[i] == strings[i]@,
{
}

/// The status cell tells the status: read as a decimal number it is the status of the
/// exchange, and it is empty exactly if there is none.
pub proof fn status_cell_tells_the_status(
    row: WideRow,
    head: TrafficHead,
    width: u16,
    figures: Figures,
)
    requires
        row.shows(head, width, figures),
    ensures
        head.status is None <==> row.status@.len() == 0,
        head.status matches Some(status) ==> value_of(row.status@) == status && forall|i: int|
            0 <= i < row.status@.len() ==> '0' <= #[trigger] row.status@[i] <= '9',
{
    reveal_strlit("");
    if let Some(status) = head.status {
        decimal_stands_for_the_number(status as nat);
    }
}

/// Exchanges that are shown by the same cells have the same method, address, status
/// and type.
pub proof fn cells_tell_exchanges_apart(
    row: WideRow,
    head: TrafficHead,
    figures: Figures,
    other: TrafficHead,
    other_figures: Figures,
    width: u16,
)
    requires
        row.shows(head, width, figures),
        row.shows(other, width, other_figures),
    ensures
        head.method@ == other.method@,
        head.uri@ == other.uri@,
        head.status == other.status,
        head.mime@ == other.mime@,
        figures.size@ == other_figures.size@,
        figures.time@ == other_figures.time@,
{
    status_cell_tells_the_status(row, head, width, figures);
    status_cell_tells_the_status(row, other, width, other_figures);
}

/// The other cells hold the fields as they are. The widths of the columns, with nine
/// columns of borders and gaps, add up to the width of the screen; the type is cut at
/// its head, the method and the address at their tails.
pub proof fn cells_hold_the_fields(row: WideRow, head: TrafficHead, width: u16, figures: Figures)
    requires
        row.shows(head, width, figures),
        width > 100,
    ensures
        row.method.text@ == head.method@,
        row.uri.text@ == head.uri@,
        row.mime.text@ == head.mime@,
        row.size@ == figures.size@,
        row.time@ == figures.time@,
        row.method.width == 4,
        row.mime.width == 16,
        9 + row.method.width + row.uri.width + 3 + row.mime.width + 7 + 5 == width,
        row.method.cut is Tail,
        row.uri.cut is Tail,
        row.mime.cut is Head,
{
}

/// The upper line holds the method, a space and the address.
pub proof fn title_holds_method_and_address(
    lines: TitleLines,
    head: TrafficHead,
    width: u16,
    figures: Figures,
)
    requires
        lines.shows(head, width, figures),
    ensures
        ({
            let title = lines.title.text@;
            let end = head.method@.len() as int;
            &&& title.len() == end + 1 + head.uri@.len()
            &&& title.take(end) == head.method@
            &&& title[end] == ' '
            &&& title.skip(end + 1) == head.uri@
        }),
        lines.title.width == width && lines.title.cut is Tail,
        lines.description.width == width && lines.description.cut is Tail,
{
    reveal_strlit(" ");
    let title = lines.title.text@;
    let end = head.method@.len() as int;
    assert(title.take(end) =~= head.method@);
    assert(title.skip(end + 1) =~= head.uri@);
}

/// The lower line is empty exactly without a status. Else an arrow stands in it under
/// the address, that is after as many spaces as the method has bytes and one more, and
/// behind it, each after a space, the status in decimal, the type, the size and the
/// time.
pub proof fn description_holds_status_and_figures(
    lines: TitleLines,
    head: TrafficHead,
    width: u16,
    figures: Figures,
) -> (digits: Seq<char>)
    requires
        lines.shows(head, width, figures),
    ensures
        head.status is None <==> lines.description.text@.len() == 0,
        head.status matches Some(status) ==> {
            let d = lines.description.text@;
            let indent = byte_len(head.method@) as int;
            let rest = d.skip(indent + 3);
            &&& value_of(digits) == status
            &&& digits.len() > 0
            &&& forall|i: int| 0 <= i < digits.len() ==> '0' <= #[trigger] digits[i] <= '9'
            &&& d.len() > indent + 3
            &&& forall|i: int| 0 <= i <= indent ==> #[trigger] d[i] == ' '
            &&& d[indent + 1] == '←'
            &&& d[indent + 2] == ' '
            &&& rest == digits + seq![' '] + head.mime@ + seq![' '] + figures.size@ + seq![' ']
                + figures.time@
        },
        byte_len(head.method@) == vstd::utf8::encode_utf8(head.method@).len() as usize,
{
    reveal_strlit("");
    reveal_strlit(" ");
    reveal_strlit(" ← ");
    match head.status {
        Some(status) => {
            let d = lines.description.text@;
            let indent = byte_len(head.method@) as int;
            let digits = crate::text::decimal_of(status as nat);
            decimal_stands_for_the_number(status as nat);
            assert(" "@ =~= seq![' ']);
            assert(d.skip(indent + 3) =~= digits + seq![' '] + head.mime@ + seq![' ']
                + figures.size@ + seq![' '] + figures.time@);
            digits
        },
        None => Seq::empty(),
    }
}

/// The pagination tells the selected row, counted from one, and the number of rows,
/// both in decimal, between brackets and divided by a slash.
pub proof fn pagination_tells_row_and_rows(s: AppState) -> (parts: (Seq<char>, Seq<char>))
    ensures
        pagination_of(s) == seq!['['] + parts.0 + seq!['/'] + parts.1 + seq![']'],
        value_of(parts.0) == s.selected + 1,
        value_of(parts.1) == s.shown().len(),
        parts.0.len() > 0 && parts.1.len() > 0,
        forall|i: int| 0 <= i < parts.0.len() ==> '0' <= #[trigger] parts.0[i] <= '9',
        forall|i: int| 0 <= i < parts.1.len() ==> '0' <= #[trigger] parts.1[i] <= '9',
{
    reveal_strlit("[");
    reveal_strlit("/");
    reveal_strlit("]");
    assert("["@ =~= seq!['[']);
    assert("/"@ =~= seq!['/']);
    assert("]"@ =~= seq![']']);
    decimal_stands_for_the_number((s.selected + 1) as nat);
    decimal_stands_for_the_number(s.shown().len());
    (
        crate::text::decimal_of((s.selected + 1) as nat),
        crate::text::decimal_of(s.shown().len()),
    )
}

/// The main screen has a row for each exchange of the list, in order: of one line with
/// a cell for each field where it is wider than a hundred columns, else of two lines
/// that leave four columns. With a list it marks the selected row and tells the
/// pagination; without one it does neither.
pub proof fn main_screen_has_every_row(
    view: MainView,
    s: AppState,
    area: Rect,
    figures: Seq<Figures>,
    i: int,
)
    requires
        view.shows(s, area, figures),
    ensures
        view.rows is Wide <==> area.width > 100,
        view.rows matches Rows::Wide(rows) ==> rows@.len() == s.shown().len() && (0 <= i
            < rows@.len() ==> rows@[i].shows(s.shown()[i], area.width, figures[i])),
        view.rows matches Rows::Narrow(rows) ==> rows@.len() == s.shown().len() && (0 <= i
            < rows@.len() && area.width >= 4 ==> rows@[i].shows(
            s.shown()[i],
            (area.width - 4) as u16,
            figures[i],
        )),
        s.shown().len() == 0 ==> view.selected is None && view.pagination is None,
        s.shown().len() > 0 ==> view.selected == Some(s.selected) && (view.pagination matches Some(
            text,
        ) && text@ == pagination_of(s)),
        view.title@ == "Proxyfor ("@ + s.addr + ")"@,
{
}

/// The columns are as wide as the cells that stand in them; the address has what is
/// left, and a narrow screen has one column.
pub proof fn columns_fit_the_cells(view: MainView, s: AppState, area: Rect, figures: Seq<Figures>)
    requires
        view.shows(s, area, figures),
    ensures
        area.width <= 100 ==> view.columns@ == seq![Constraint::Percentage(100)],
        area.width > 100 ==> view.columns@ == seq![
            Constraint::Length(4),
            Constraint::Min(48),
            Constraint::Length(3),
            Constraint::Length(16),
            Constraint::Length(7),
            Constraint::Length(5),
        ],
{
}

/// The list has a scrollbar exactly if its rows do not fit: rows of one line beside
/// two border lines, or rows of two lines beside one. The bar tells the number of rows
/// and the selected one.
pub proof fn scrollbar_is_there_if_rows_do_not_fit(
    view: MainView,
    s: AppState,
    area: Rect,
    figures: Seq<Figures>,
)
    requires
        view.shows(s, area, figures),
    ensures
        ({
            let rows = s.shown().len();
            let lines = if area.width > 100 {
                rows + 2
            } else {
                2 * rows + 1
            };
            &&& view.scrollbar is Some <==> rows > 0 && lines > area.height
            &&& view.scrollbar matches Some(bar) ==> bar.position == s.selected && (rows
                <= usize::MAX ==> bar.len == rows)
        }),
{
}

/// Where cutting at the tail follows a rule, the two lines are shown as the rule makes
/// them, one under the other.
pub proof fn lines_are_cut_by_the_rule<E: Fn(&str, u16) -> String>(
    lines: TitleLines,
    ellipsis_tail: E,
    rule: spec_fn(Seq<char>, u16) -> Seq<char>,
    text: Seq<char>,
)
    requires
        forall|t: &str, width: u16, shown: String| #[trigger]
            call_ensures(ellipsis_tail, (t, width), shown) ==> shown@ == rule(t@, width),
        lines.shown_as(ellipsis_tail, text),
    ensures
        text == rule(lines.title.text@, lines.title.width) + seq!['\n'] + rule(
            lines.description.text@,
            lines.description.width,
        ),
{
    reveal_strlit("\n");
    assert("\n"@ =~= seq!['\n']);
}

/// Where cutting follows rules, one for the head and one for the tail, the cells are
/// shown in the order of the columns: method and address cut at their tails, the type
/// at its head, status, size and time uncut.
pub proof fn cells_are_cut_by_the_rules<H: Fn(&str, u16) -> String, T: Fn(&str, u16) -> String>(
    row: WideRow,
    head: TrafficHead,
    width: u16,
    figures: Figures,
    ellipsis_head: H,
    ellipsis_tail: T,
    head_rule: spec_fn(Seq<char>, u16) -> Seq<char>,
    tail_rule: spec_fn(Seq<char>, u16) -> Seq<char>,
    cells: Seq<String>,
)
    requires
        width > 100,
        row.shows(head, width, figures),
        forall|t: &str, width: u16, shown: String| #[trigger]
            call_ensures(ellipsis_head, (t, width), shown) ==> shown@ == head_rule(t@, width),
        forall|t: &str, width: u16, shown: String| #[trigger]
            call_ensures(ellipsis_tail, (t, width), shown) ==> shown@ == tail_rule(t@, width),
        row.shown_as(ellipsis_head, ellipsis_tail, cells),
    ensures
        cells.len() == 6,
        cells[0]@ == tail_rule(head.method@, 4),
        cells[1]@ == tail_rule(head.uri@, (width - 44) as u16),
        head.status is None <==> cells[2]@.len() == 0,
        head.status matches Some(status) ==> value_of(cells[2]@) == status,
        cells[3]@ == head_rule(head.mime@, 16),
        cells[4]@ == figures.size@,
        cells[5]@ == figures.time@,
{
    status_cell_tells_the_status(row, head, width, figures);
}

/// A text is cut by the rule for its end, to its width.
pub proof fn texts_are_cut_by_the_rules<H: Fn(&str, u16) -> String, T: Fn(&str, u16) -> String>(
    fitted: Fitted,
    ellipsis_head: H,
    ellipsis_tail: T,
    head_rule: spec_fn(Seq<char>, u16) -> Seq<char>,
    tail_rule: spec_fn(Seq<char>, u16) -> Seq<char>,
    shown: Seq<char>,
)
    requires
        forall|t: &str, width: u16, shown: String| #[trigger]
            call_ensures(ellipsis_head, (t, width), shown) ==> shown@ == head_rule(t@, width),
        forall|t: &str, width: u16, shown: String| #[trigger]
            call_ensures(ellipsis_tail, (t, width), shown) ==> shown@ == tail_rule(t@, width),
        fitted.shown_as(ellipsis_head, ellipsis_tail, shown),
    ensures
        fitted.cut is Head ==> shown == head_rule(fitted.text@, fitted.width),
        fitted.cut is Tail ==> shown == tail_rule(fitted.text@, fitted.width),
{
}

/// The figures of an exchange are what the helpers make of its size and of its time.
pub proof fn figures_are_size_and_time<
    S: Fn(Option<u64>) -> String,
    T: Fn(Option<u64>) -> String,
>(
    figures: Figures,
    format_size: S,
    format_time_delta: T,
    size_rule: spec_fn(Option<u64>) -> Seq<char>,
    time_rule: spec_fn(Option<u64>) -> Seq<char>,
    head: TrafficHead,
)
    requires
        forall|size: Option<u64>, text: String| #[trigger]
            call_ensures(format_size, (size,), text) ==> text@ == size_rule(size),
        forall|time: Option<u64>, text: String| #[trigger]
            call_ensures(format_time_delta, (time,), text) ==> text@ == time_rule(time),
        figures.shows(format_size, format_time_delta, head),
    ensures
        figures.size@ == size_rule(head.size),
        figures.time@ == time_rule(head.time),
{
}

/// The number of headers; there are none without a list.
pub open spec fn header_count(headers: Option<Vec<Header>>) -> int {
    match headers {
        Some(headers) => headers@.len() as int,
        None => 0,
    }
}

/// A tab shows these headers and this body: a line for each header, its name and its
/// value divided by a colon and a space, and where there is a body a line of as many
/// dashes as the tab is wide and then the lines of the body, or the one line that
/// stands for a body that is no text. There is nothing else.
pub open spec fn tells(
    lines: Seq<Seq<char>>,
    headers: Option<Vec<Header>>,
    body: Option<Body>,
    width: u16,
) -> bool {
    let count = header_count(headers);
    &&& count <= lines.len()
    &&& forall|i: int|
        0 <= i < count ==> #[trigger] lines[i] == (headers->0)@[i].name@ + seq![':', ' '] + (
        headers->0)@[i].value@
    &&& body is None ==> lines.len() == count
    &&& body matches Some(body) ==> {
        &&& lines.len() > count
        &&& lines[count].len() == width
        &&& forall|k: int| 0 <= k < width ==> #[trigger] lines[count][k] == '—'
        &&& body.utf8 ==> lines.skip(count + 1) == lines_of(body.value@)
        &&& !body.utf8 ==> lines.skip(count + 1) == seq![body.value@]
    }
}

/// The first tab tells the headers and the body of the request, whether or not the
/// exchange ended with an error. The second tells those of the response, or nothing
/// but the error.
pub proof fn tabs_tell_headers_and_body(details: TrafficDetails, width: u16)
    ensures
        tells(
            detail_lines(details, true, width),
            details.traffic.req_headers,
            details.req_body,
            width,
        ),
        details.traffic.error is None ==> tells(
            detail_lines(details, false, width),
            details.traffic.res_headers,
            details.res_body,
            width,
        ),
        details.traffic.error matches Some(error) ==> detail_lines(details, false, width) == seq![
            error@,
        ],
{
    reveal_strlit(": ");
    assert(": "@ =~= seq![':', ' ']);
    let requests = detail_lines(details, true, width);
    let responses = detail_lines(details, false, width);
    let asked = header_count(details.traffic.req_headers);
    let answered = header_count(details.traffic.res_headers);
    if let Some(body) = details.req_body {
        assert(requests.skip(asked + 1) =~= if body.utf8 {
            lines_of(body.value@)
        } else {
            seq![body.value@]
        });
    }
    if details.traffic.error is None {
        if let Some(body) = details.res_body {
            assert(responses.skip(answered + 1) =~= if body.utf8 {
                lines_of(body.value@)
            } else {
                seq![body.value@]
            });
        }
    }
}

/// On the second tab of an exchange without error whose response has a text for its
/// body, the last lines are those of the text, and before them stand a rule and a line
/// for each header of the response.
pub proof fn response_ends_with_its_body(details: TrafficDetails, body: Body, width: u16)
    requires
        details.traffic.error is None,
        details.res_body == Some(body),
        body.utf8,
    ensures
        ({
            let lines = detail_lines(details, false, width);
            let text = lines_of(body.value@);
            &&& lines.len() == header_count(details.traffic.res_headers) + 1 + text.len()
            &&& lines.skip(lines.len() - text.len()) == text
        }),
{
    tabs_tell_headers_and_body(details, width);
    let lines = detail_lines(details, false, width);
    let count = header_count(details.traffic.res_headers);
    assert(lines.skip(count + 1).len() == lines.len() - count - 1);
}

/// The two tabs treat headers and bodies alike: with the parts of request and response
/// exchanged, in an exchange without error, each tab shows what the other showed.
pub proof fn tabs_treat_both_sides_alike(details: TrafficDetails, width: u16)
    requires
        details.traffic.error is None,
    ensures
        ({
            let swapped = TrafficDetails {
                traffic: Traffic {
                    req_headers: details.traffic.res_headers,
                    res_headers: details.traffic.req_headers,
                    error: None,
                },
                req_body: details.res_body,
                res_body: details.req_body,
            };
            &&& detail_lines(swapped, true, width) == detail_lines(details, false, width)
            &&& detail_lines(swapped, false, width) == detail_lines(details, true, width)
        }),
{
}

/// The screen with the details tells of the open tab what there is to tell: the first
/// one for tab zero, else the second, titled for a response or for an error. The lines
/// are those of the tab in the width inside the border, the last one marked exactly if
/// it stands for a body that is no text; the offset is that of the state, and a bar is
/// there exactly if the details scroll.
pub proof fn details_tell_the_open_tab(
    body: DetailsBody,
    s: AppState,
    details: TrafficDetails,
    area: Rect,
)
    requires
        body.shows(s, details, area),
        area.width >= 2,
    ensures
        body.is_req <==> s.tab == 0,
        details.traffic.error is None <==> body.second_tab@ == "Response"@,
        details.traffic.error is Some <==> body.second_tab@ == "Error"@,
        texts(body.lines@) == detail_lines(details, s.tab == 0, (area.width - 2) as u16),
        s.tab == 0 ==> (body.underline_last <==> details.req_body is Some
            && !details.req_body->0.utf8),
        s.tab != 0 ==> (body.underline_last <==> details.traffic.error is None && details.res_body
            is Some && !details.res_body->0.utf8),
        body.pagination@ == pagination_of(s),
        body.scroll_offset == s.scroll_offset,
        body.scrollbar is Some <==> s.scroll_size is Some && s.scroll_size->0 > 0,
        body.scrollbar matches Some(bar) ==> bar.len == s.scroll_size->0 && bar.position
            == s.scroll_offset,
{
    reveal_strlit("Response");
    reveal_strlit("Error");
    assert("Response"@.len() == 8);
    assert("Error"@.len() == 5);
}

/// The title of the details is that of the selected exchange; the body is there
/// exactly if the exchange has been read.
pub proof fn details_have_title_and_body(view: DetailsView, s: AppState, area: Rect, figures: Figures)
    requires
        view.shows(s, area, figures),
    ensures
        s.selected < s.shown().len(),
        view.title.shows(s.shown()[s.selected as int], area.width, figures),
        view.body is Some <==> s.traffic is Some,
        view.body matches Some(body) ==> body.shows(s, s.traffic->0, area),
        view.title_area == title_area_of(area),
        view.body_area == body_area_of(area),
{
}

/// How far a tab scrolls: the rows of its area and the lines that it scrolls by hold
/// all lines, and where it scrolls no fewer would do. Lines are those that the
/// paragraph counts in the width inside the border.
pub proof fn scrolling_reaches_the_last_line(details: TrafficDetails, is_req: bool, area: Rect)
    requires
        area.width >= 2,
    ensures
        ({
            let width = (area.width - 2) as u16;
            let count = wrapped_line_count(detail_lines(details, is_req, width), width) as u16;
            let height = body_area_of(area).height;
            let size = scroll_size_of(details, is_req, area);
            &&& count <= height + size
            &&& size > 0 ==> count == height + size
        }),
{
}

/// Details that are shown and have not been measured are measured in their area, and
/// nothing else changes.
pub proof fn open_tab_is_measured_once(s: AppState, area: Rect)
    ensures
        ({
            let after = s.measured(area);
            let unmeasured = s.selected < s.shown().len() && s.traffic is Some && s.scroll_size
                is None;
            &&& after == (AppState { scroll_size: after.scroll_size, ..s })
            &&& !unmeasured ==> after == s
            &&& unmeasured ==> after.scroll_size == Some(
                scroll_size_of(s.traffic->0, s.tab == 0, area),
            )
        }),
        s.view is Main ==> s.drawn(area) == s,
        s.view is Details ==> s.drawn(area) == s.measured(content_area_of(area)),
{
}

/// The rows of an area; coordinates end at the largest `u16`.
pub open spec fn rows_of(area: Rect) -> int {
    if area.y + area.height <= u16::MAX {
        area.height as int
    } else {
        u16::MAX - area.y
    }
}

/// The footer is the last row where there are six or more, and empty else; the
/// content has the rows above it. Both are as wide as the screen.
pub proof fn footer_is_the_last_row(area: Rect)
    ensures
        ({
            let content = content_area_of(area);
            let footer = footer_area_of(area);
            &&& content.x == area.x && content.y == area.y && content.width == area.width
            &&& footer.x == area.x && footer.width == area.width
            &&& footer.height == if rows_of(area) >= 6 {
                1int
            } else {
                0
            }
            &&& content.height + footer.height == rows_of(area)
            &&& footer.y + footer.height == area.y + rows_of(area)
        }),
{
}

/// The title of the details has the upper two rows, as far as there are so many, and
/// the body has the rest. Both are as wide as the area.
pub proof fn title_has_the_upper_rows(area: Rect)
    ensures
        ({
            let title = title_area_of(area);
            let body = body_area_of(area);
            &&& title.x == area.x && title.y == area.y && title.width == area.width
            &&& body.x == area.x && body.width == area.width
            &&& rows_of(area) >= 2 ==> title.height == 2
            &&& rows_of(area) < 2 ==> body.height == 0
            &&& title.height + body.height == rows_of(area)
            &&& body.y == area.y + title.height
        }),
{
}

/// A popup is as large as it asks for, as far as the area is, and lies in its middle:
/// what is left beside it differs by at most one cell from side to side, and the
/// smaller part is to the left or above.
pub proof fn popup_lies_in_the_middle(area: Rect, width: u16, height: u16)
    requires
        area.fits(),
    ensures
        ({
            let popup = centered(area, width, height);
            let left = popup.x - area.x;
            let right = area.x + area.width - popup.x - popup.width;
            let above = popup.y - area.y;
            let below = area.y + area.height - popup.y - popup.height;
            &&& width <= area.width ==> popup.width == width
            &&& width > area.width ==> popup.width == area.width
            &&& height <= area.height ==> popup.height == height
            &&& height > area.height ==> popup.height == area.height
            &&& 0 <= left <= right <= left + 1
            &&& 0 <= above <= below <= above + 1
        }),
{
}

/// The footer asks whether to quit while that is a question; else it tells the notice,
/// marked as an error or not, while there is one; else it helps with the keys.
pub proof fn footer_tells_the_most_urgent(footer: Footer, s: AppState)
    requires
        footer.shows(s),
    ensures
        footer is Confirm <==> s.confirm is Some,
        footer is Notice <==> s.confirm is None && s.notifier is Some,
        footer is Help <==> s.confirm is None && s.notifier is None,
        footer matches Footer::Notice(text, is_error) ==> {
            &&& is_error == s.notifier->0.is_error
            &&& is_error ==> text@ == "Error: "@ + s.notifier->0.message
            &&& !is_error ==> text@ == "✓ "@ + s.notifier->0.message
        },
        footer matches Footer::Confirm(pieces) ==> {
            &&& pieces@.len() == 6
            &&& pieces@[0].0@ == "Quit"@ && !pieces@[0].1
            &&& pieces@[1].0@ == " ("@ && !pieces@[1].1
            &&& pieces@[2].0@ == "y"@ && pieces@[2].1
            &&& pieces@[3].0@ == "es,"@ && !pieces@[3].1
            &&& pieces@[4].0@ == "n"@ && pieces@[4].1
            &&& pieces@[5].0@ == "o)?"@ && !pieces@[5].1
        },
{
    assert(QUIT_QUESTION@.len() == 6);
}

/// Notices of different texts, or of different kinds, are shown differently.
pub proof fn notices_are_told_apart(
    message: Seq<char>,
    is_error: bool,
    other: Seq<char>,
    other_is_error: bool,
)
    requires
        notice_text(message, is_error) == notice_text(other, other_is_error),
    ensures
        message == other,
        is_error == other_is_error,
{
    reveal_strlit("Error: ");
    reveal_strlit("✓ ");
    let text = notice_text(message, is_error);
    assert(text[0] == if is_error {
        'E'
    } else {
        '✓'
    });
    assert(text[0] == if other_is_error {
        'E'
    } else {
        '✓'
    });
    let start: int = if is_error {
        7
    } else {
        2
    };
    assert(text.skip(start) =~= message);
    assert(text.skip(start) =~= other);
}

/// The keys that each screen helps with, and what they do there. A bar stands between
/// them.
pub proof fn help_names_the_keys(items: Seq<HelpItem>, screen: Screen)
    requires
        is_help(items, screen),
    ensures
        items.len() == 6,
        forall|i: int| 0 <= i < 5 ==> (#[trigger] items[i]).separator@ == " | "@,
        items[5].separator@ == ""@,
        screen is Main ==> {
            &&& items[0].key@ == "↵"@ && items[0].description@ == "Select"@
            &&& items[1].key@ == "⇅"@ && items[1].description@ == "Navigate"@
            &&& items[2].key@ == "/"@ && items[2].description@ == "Search"@
            &&& items[3].key@ == "c"@ && items[3].description@ == "Copy"@
            &&& items[4].key@ == "e"@ && items[4].description@ == "Export"@
            &&& items[5].key@ == "q"@ && items[5].description@ == "Quit"@
        },
        screen is Details ==> {
            &&& items[0].key@ == "↹"@ && items[0].description@ == "Switch"@
            &&& items[1].key@ == "⇅"@ && items[1].description@ == "Scroll"@
            &&& items[2].key@ == "␣"@ && items[2].description@ == "Next"@
            &&& items[3].key@ == "c"@ && items[3].description@ == "Copy"@
            &&& items[4].key@ == "e"@ && items[4].description@ == "Export"@
            &&& items[5].key@ == "q"@ && items[5].description@ == "Back"@
        },
{
    assert(MAIN_KEYBINDINGS@.len() == 6);
    assert(DETAILS_KEYBINDINGS@.len() == 6);
}

/// A popup of any actions has their labels in their order and highlights the given
/// row. It lies in the frame, and in the middle of a frame that ends before the
/// coordinates do, with a row for each action and two for the border.
pub proof fn popup_has_a_row_for_each_action(
    popup: ActionPopup,
    frame: Rect,
    idx: usize,
    actions: Seq<(&'static str, &'static str)>,
    width: u16,
)
    requires
        popup.lists(frame, idx, actions, width),
        actions.len() + 2 <= u16::MAX,
    ensures
        popup.selected == idx,
        popup.labels@.len() == actions.len(),
        forall|i: int| 0 <= i < actions.len() ==> #[trigger] popup.labels@[i] == actions[i].0,
        frame.x <= popup.area.x && popup.area.x + popup.area.width <= frame.x + frame.width,
        frame.y <= popup.area.y && popup.area.y + popup.area.height <= frame.y + frame.height,
        frame.fits() ==> popup.area == centered(frame, width, (actions.len() + 2) as u16),
        frame.fits() && frame.height >= actions.len() + 2 ==> popup.area.height == actions.len()
            + 2,
        frame.fits() && frame.width >= width ==> popup.area.width == width,
        frame.fits() <==> frame.x + frame.width <= u16::MAX && frame.y + frame.height <= u16::MAX,
{
    if frame.fits() {
        popup_lies_in_the_middle(frame, width, (actions.len() + 2) as u16);
    }
}

/// A popup is shown exactly while one is open. It lists the labels of its actions in
/// their order and highlights the row of the state, in the middle of the frame.
pub proof fn popup_lists_its_actions(popup: Option<ActionPopup>, s: AppState, frame: Rect)
    requires
        is_popup_of(popup, s, frame),
    ensures
        popup is Some <==> s.popup is Some,
        s.popup matches Some(Popup::Copy(idx)) ==> popup matches Some(popup) && {
            &&& popup.selected == idx
            &&& popup.labels@.len() == 5
            &&& popup.labels@[0]@ == "Copy as Markdown"@
            &&& popup.labels@[1]@ == "Copy as cURL"@
            &&& popup.labels@[2]@ == "Copy as HAR"@
            &&& popup.labels@[3]@ == "Copy Request Body"@
            &&& popup.labels@[4]@ == "Copy Response Body"@
            &&& popup.area.inside(frame)
            &&& frame.fits() ==> popup.area == centered(frame, 24, 7)
        },
        s.popup matches Some(Popup::Export(idx)) ==> popup matches Some(popup) && {
            &&& popup.selected == idx
            &&& popup.labels@.len() == 3
            &&& popup.labels@[0]@ == "Export all as Markdown"@
            &&& popup.labels@[1]@ == "Export all as cURL"@
            &&& popup.labels@[2]@ == "Export all as HAR"@
            &&& popup.area.inside(frame)
            &&& frame.fits() ==> popup.area == centered(frame, 30, 5)
        },
{
    assert(COPY_ACTIONS@.len() == 5);
    assert(EXPORT_ACTIONS@.len() == 3);
}

/// The line of the search is there exactly while a query is typed or stands. It tells
/// the query, with a space for the cursor while it is typed; it lies in the last row
/// but one from the second column on, as wide as its text, and the cursor stands on the
/// column before its last.
pub proof fn search_line_tells_the_query(line: Option<SearchLine>, s: AppState, frame: Rect)
    requires
        is_search_line_of(line, s, frame),
        frame.height >= 2,
    ensures
        line is Some <==> s.input_mode || s.query.len() > 0,
        line matches Some(line) ==> {
            let start = "|search: "@;
            let width = line_width(line.text@) as u16;
            &&& s.input_mode ==> line.text@ == start + s.query + seq![' ', '|']
            &&& !s.input_mode ==> line.text@ == start + s.query + seq!['|']
            &&& line.area.x == 1 && line.area.height == 1 && line.area.width == width
            &&& line.area.y + 2 == frame.height
            &&& line.cursor.1 == line.area.y
            &&& width > 0 ==> line.cursor.0 + 1 == width
            &&& width == 0 ==> line.cursor.0 == 0
        },
{
    reveal_strlit(" ");
    reveal_strlit("");
    reveal_strlit("|");
    let start = "|search: "@;
    assert(start + s.query + " "@ + "|"@ =~= start + s.query + seq![' ', '|']);
    assert(start + s.query + ""@ + "|"@ =~= start + s.query + seq!['|']);
}

/// The whole screen has the content of the screen that is open in the area above the
/// footer, the footer below it, and over both the popup and the line of the search.
pub proof fn scene_has_every_part(scene: Scene, s: AppState, area: Rect, figures: Seq<Figures>)
    requires
        scene.shows(s, area, figures),
    ensures
        scene.content_area == content_area_of(area),
        scene.footer_area == footer_area_of(area),
        s.view is Main ==> (scene.content matches Content::Main(view) && view.shows(
            s,
            content_area_of(area),
            figures,
        )),
        s.view is Details ==> scene.content is Details,
        scene.content matches Content::Details(view) ==> (view is Some <==> s.selected
            < s.shown().len()),
        scene.content matches Content::Details(Some(view)) ==> view.shows(
            s,
            content_area_of(area),
            figures[s.selected as int],
        ),
        scene.footer.shows(s),
        is_popup_of(scene.popup, s, area),
        is_search_line_of(scene.search, s, area),
{
}

/// What can be drawn: the line of the search needs two rows; the list needs four
/// columns and a row that can be counted from one; details that are read need two
/// columns, and lines that have not been measured must be countable, as they are on
/// every screen of up to 16385 columns.
pub proof fn ordinary_screens_can_be_drawn(s: AppState, area: Rect, lines: Seq<Seq<char>>)
    ensures
        ({
            let rows = (s.input_mode || s.query.len() > 0) ==> area.height >= 2;
            let open = s.selected < s.shown().len() && s.traffic is Some;
            &&& s.view is Main ==> (s.drawable(area) <==> rows && area.width >= 4 && (s.selected
                < usize::MAX || s.shown().len() == 0))
            &&& s.view is Details && !open ==> (s.drawable(area) <==> rows)
            &&& s.view is Details && open && (s.scroll_size is Some || area.width <= 16385) ==> (
            s.drawable(area) <==> rows && area.width >= 2)
            &&& s.view is Details && open && s.scroll_size is None && area.width > 16385 && lines
                == detail_lines(s.traffic->0, s.tab == 0, (area.width - 2) as u16) ==> (s.drawable(
                area,
            ) <==> rows && forall|i: int|
                0 <= i < lines.len() ==> vstd::utf8::encode_utf8(#[trigger] lines[i]).len() as usize
                    <= u16::MAX)
        }),
{
}

/// Enter does what the highlighted label says: the format that is asked for is the one
/// that belongs to the label.
pub proof fn enter_does_what_the_label_says(popup: ActionPopup, s: AppState, frame: Rect)
    requires
        is_popup_of(Some(popup), s, frame),
        popup.selected < popup.labels@.len(),
    ensures
        ({
            let label = popup.labels@[popup.selected as int]@;
            match s.pressed(KeyCode::Enter).1 {
                Some(Request::Copy(_, format)) => {
                    ||| label == "Copy as Markdown"@ && format@ == "markdown"@
                    ||| label == "Copy as cURL"@ && format@ == "curl"@
                    ||| label == "Copy as HAR"@ && format@ == "har"@
                    ||| label == "Copy Request Body"@ && format@ == "req-body"@
                    ||| label == "Copy Response Body"@ && format@ == "res-body"@
                },
                Some(Request::Export(format)) => {
                    ||| label == "Export all as Markdown"@ && format@ == "markdown"@
                    ||| label == "Export all as cURL"@ && format@ == "curl"@
                    ||| label == "Export all as HAR"@ && format@ == "har"@
                },
                Some(Request::Fetch(_)) => false,
                None => s.popup->0 is Copy && s.selected >= s.shown().len(),
            }
        }),
{
    assert(COPY_ACTIONS@.len() == 5);
    assert(EXPORT_ACTIONS@.len() == 3);
    popup_lists_its_actions(Some(popup), s, frame);
    enter_asks_for_the_highlighted_row(s, popup.selected);
}

} // verus!
