//! The main screen: the list of the traffic.
use vstd::prelude::*;
use vstd::string::StringExecFns;
use crate::app::App;
use crate::layout::{Constraint, Rect};
use crate::model::AppState;
use crate::text::{
    byte_len, decimal, decimal_of, decimal_stands_for_the_number, repeat_char, repeated, value_of,
};
use crate::traffic::TrafficHead;

verus! {

/// The list has a column for each field where the screen is wider than this.
pub const LARGE_WIDTH: u16 = 100;

/// The widths of the columns next to that of the address.
pub const METHOD_WIDTH: u16 = 4;

pub const STATUS_WIDTH: u16 = 3;

pub const MIME_WIDTH: u16 = 16;

pub const SIZE_WIDTH: u16 = 7;

pub const TIME_DELTA_WIDTH: u16 = 5;

/// The borders, the mark of the selected row and the gaps between the columns.
pub const FRAME_WIDTH: u16 = 9;

/// The end at which a text that is too wide is cut.
#[derive(Clone, Copy, Debug, PartialEq, Eq, Structural)]
pub enum Cut {
    Head,
    Tail,
}

/// A text and the width that it has to fit in.
#[derive(Debug)]
pub struct Fitted {
    pub text: String,
    pub width: u16,
    pub cut: Cut,
}

/// The size and the time of an exchange as they are shown.
#[derive(Debug)]
pub struct Figures {
    pub size: String,
    pub time: String,
}

/// An exchange on two lines.
#[derive(Debug)]
pub struct TitleLines {
    pub title: Fitted,
    pub description: Fitted,
}

/// An exchange on one line, a cell for each field.
#[derive(Debug)]
pub struct WideRow {
    pub method: Fitted,
    pub uri: Fitted,
    pub status: String,
    pub mime: Fitted,
    pub size: String,
    pub time: String,
}

/// The rows of the list: one line each, or two.
#[derive(Debug)]
pub enum Rows {
    Wide(Vec<WideRow>),
    Narrow(Vec<TitleLines>),
}

/// A bar that shows a position in something longer than the screen.
#[derive(Clone, Copy, Debug, PartialEq, Eq, Structural)]
pub struct Scroll {
    pub len: usize,
    pub position: usize,
}

/// What the main screen shows.
#[derive(Debug)]
pub struct MainView {
    pub title: String,
    pub pagination: Option<String>,
    pub selected: Option<usize>,
    pub columns: Vec<Constraint>,
    pub rows: Rows,
    pub scrollbar: Option<Scroll>,
}

impl Fitted {
    /// The text, the width and the cut are these.
    pub open spec fn holds(self, text: Seq<char>, width: u16, cut: Cut) -> bool {
        self.text@ == text && self.width == width && self.cut == cut
    }
}

/// The method and the address of an exchange.
pub open spec fn title_of(head: TrafficHead) -> Seq<char> {
    head.method@ + " "@ + head.uri@
}

/// The status, type, size and time of an exchange, indented by as many spaces as
/// its method has bytes. Without a status there is nothing to say.
pub open spec fn description_of(head: TrafficHead, figures: Figures) -> Seq<char> {
    match head.status {
        Some(status) => repeated(' ', byte_len(head.method@) as nat) + " ← "@ + decimal_of(
            status as nat,
        ) + " "@ + head.mime@ + " "@ + figures.size@ + " "@ + figures.time@,
        None => ""@,
    }
}

impl TitleLines {
    /// The lines are those of an exchange on a screen of the given width.
    pub open spec fn shows(self, head: TrafficHead, width: u16, figures: Figures) -> bool {
        &&& self.title.holds(title_of(head), width, Cut::Tail)
        &&& self.description.holds(description_of(head, figures), width, Cut::Tail)
    }
}

/// The width that the other columns leave for the address.
pub open spec fn uri_width(width: u16) -> u16 {
    (width - FRAME_WIDTH - METHOD_WIDTH - STATUS_WIDTH - MIME_WIDTH - SIZE_WIDTH
        - TIME_DELTA_WIDTH) as u16
}

/// The status in decimal; nothing without one.
pub open spec fn status_of(head: TrafficHead) -> Seq<char> {
    match head.status {
        Some(status) => decimal_of(status as nat),
        None => ""@,
    }
}

impl WideRow {
    /// The cells are those of an exchange on a screen of the given width.
    pub open spec fn shows(self, head: TrafficHead, width: u16, figures: Figures) -> bool {
        &&& self.method.holds(head.method@, METHOD_WIDTH, Cut::Tail)
        &&& self.uri.holds(head.uri@, uri_width(width), Cut::Tail)
        &&& self.status@ == status_of(head)
        &&& self.mime.holds(head.mime@, MIME_WIDTH, Cut::Head)
        &&& self.size@ == figures.size@
        &&& self.time@ == figures.time@
    }
}

/// The selected row and the number of rows, both counted from one.
pub open spec fn pagination_of(s: AppState) -> Seq<char> {
    "["@ + decimal_of((s.selected + 1) as nat) + "/"@ + decimal_of(s.shown().len()) + "]"@
}

/// How many rows fit on the screen below each other without a scrollbar.
pub open spec fn rows_that_fit(area: Rect) -> int {
    if area.width > LARGE_WIDTH {
        if area.height > 2 {
            area.height - 2
        } else {
            0
        }
    } else if area.height > 1 {
        (area.height - 1) / 2
    } else {
        0
    }
}

/// The columns of the list: one for each field on a wide screen, else one.
pub open spec fn columns_of(width: u16) -> Seq<Constraint> {
    if width > LARGE_WIDTH {
        seq![
            Constraint::Length(METHOD_WIDTH),
            Constraint::Min(48),
            Constraint::Length(STATUS_WIDTH),
            Constraint::Length(MIME_WIDTH),
            Constraint::Length(SIZE_WIDTH),
            Constraint::Length(TIME_DELTA_WIDTH),
        ]
    } else {
        seq![Constraint::Percentage(100)]
    }
}

impl MainView {
    /// This is the main screen of a state in an area. `figures` are those of the
    /// rows.
    pub open spec fn shows(self, s: AppState, area: Rect, figures: Seq<Figures>) -> bool {
        let len = s.shown().len();
        &&& self.title@ == "Proxyfor ("@ + s.addr + ")"@
        &&& match self.pagination {
            Some(text) => len > 0 && text@ == pagination_of(s),
            None => len == 0,
        }
        &&& self.selected == if len > 0 {
            Some(s.selected)
        } else {
            None
        }
        &&& self.columns@ == columns_of(area.width)
        &&& match self.rows {
            Rows::Wide(rows) => {
                &&& area.width > LARGE_WIDTH
                &&& rows@.len() == len
                &&& forall|i: int|
                    0 <= i < len ==> (#[trigger] rows@[i]).shows(
                        s.shown()[i],
                        area.width,
                        figures[i],
                    )
            },
            Rows::Narrow(rows) => {
                &&& area.width <= LARGE_WIDTH
                &&& rows@.len() == len
                &&& forall|i: int|
                    0 <= i < len ==> (#[trigger] rows@[i]).shows(
                        s.shown()[i],
                        (area.width - 4) as u16,
                        figures[i],
                    )
            },
        }
        &&& self.scrollbar == if len > rows_that_fit(area) {
            Some(Scroll { len: len as usize, position: s.selected })
        } else {
            None
        }
    }
}

/// The two lines of an exchange on a screen of the given width.
pub fn title_lines(head: &TrafficHead, width: u16, figures: &Figures) -> (lines: TitleLines)
    ensures
        lines.shows(*head, width, *figures),
{
    let title = head.method.clone().concat(" ").concat(head.uri.as_str());
    let description = match head.status {
        Some(status) => repeat_char(' ', head.method.as_str().len()).concat(" ← ").concat(
            decimal(status as u64).as_str(),
        ).concat(" ").concat(head.mime.as_str()).concat(" ").concat(figures.size.as_str()).concat(
            " ",
        ).concat(figures.time.as_str()),
        None => "".to_owned(),
    };
    TitleLines {
        title: Fitted { text: title, width, cut: Cut::Tail },
        description: Fitted { text: description, width, cut: Cut::Tail },
    }
}

/// Whether `shown` can be what `ellipsis` makes of a text and a width.
pub open spec fn cut_to<E: Fn(&str, u16) -> String>(
    ellipsis: E,
    text: Seq<char>,
    width: u16,
    shown: Seq<char>,
) -> bool {
    exists|t: &str, s: String|
        t@ == text && s@ == shown && #[trigger] call_ensures(ellipsis, (t, width), s)
}

/// Cuts a text to a width.
fn cut_with<E: Fn(&str, u16) -> String>(text: &str, width: u16, ellipsis: &E) -> (shown: String)
    requires
        forall|text: &str, width: u16| call_requires(ellipsis, (text, width)),
    ensures
        cut_to(*ellipsis, text@, width, shown@),
{
    let shown = ellipsis(text, width);
    assert(call_ensures(*ellipsis, (text, width), shown));
    shown
}

impl Fitted {
    /// Whether `shown` can be the text, cut to its width at its end.
    pub open spec fn shown_as<H: Fn(&str, u16) -> String, T: Fn(&str, u16) -> String>(
        self,
        ellipsis_head: H,
        ellipsis_tail: T,
        shown: Seq<char>,
    ) -> bool {
        match self.cut {
            Cut::Head => cut_to(ellipsis_head, self.text@, self.width, shown),
            Cut::Tail => cut_to(ellipsis_tail, self.text@, self.width, shown),
        }
    }

    /// Cuts the text to its width with the helper for its end.
    pub fn fit<H: Fn(&str, u16) -> String, T: Fn(&str, u16) -> String>(
        &self,
        ellipsis_head: &H,
        ellipsis_tail: &T,
    ) -> (shown: String)
        requires
            forall|text: &str, width: u16| call_requires(ellipsis_head, (text, width)),
            forall|text: &str, width: u16| call_requires(ellipsis_tail, (text, width)),
        ensures
            self.shown_as(*ellipsis_head, *ellipsis_tail, shown@),
    {
        match self.cut {
            Cut::Head => cut_with(self.text.as_str(), self.width, ellipsis_head),
            Cut::Tail => cut_with(self.text.as_str(), self.width, ellipsis_tail),
        }
    }
}

impl TitleLines {
    /// Whether `text` can be the two lines, one under the other, each cut to its
    /// width at its end.
    pub open spec fn shown_as<E: Fn(&str, u16) -> String>(
        self,
        ellipsis_tail: E,
        text: Seq<char>,
    ) -> bool {
        exists|title: Seq<char>, description: Seq<char>|
            {
                &&& #[trigger] cut_to(ellipsis_tail, self.title.text@, self.title.width, title)
                &&& #[trigger] cut_to(
                    ellipsis_tail,
                    self.description.text@,
                    self.description.width,
                    description,
                )
                &&& text == title + "\n"@ + description
            }
    }
}

/// The two lines of an exchange as one text, each cut with `ellipsis_tail`.
pub fn generate_title<E: Fn(&str, u16) -> String>(lines: &TitleLines, ellipsis_tail: &E) -> (text:
    String)
    requires
        forall|text: &str, width: u16| call_requires(ellipsis_tail, (text, width)),
    ensures
        lines.shown_as(*ellipsis_tail, text@),
{
    let Fitted { text: title, width: title_width, .. } = &lines.title;
    let Fitted { text: description, width: description_width, .. } = &lines.description;
    let title = cut_with(title.as_str(), *title_width, ellipsis_tail);
    let description = cut_with(description.as_str(), *description_width, ellipsis_tail);
    title.concat("\n").concat(description.as_str())
}

impl WideRow {
    /// Whether these can be the texts of the cells, those of limited width cut.
    pub open spec fn shown_as<H: Fn(&str, u16) -> String, T: Fn(&str, u16) -> String>(
        self,
        ellipsis_head: H,
        ellipsis_tail: T,
        cells: Seq<String>,
    ) -> bool {
        &&& cells.len() == 6
        &&& self.method.shown_as(ellipsis_head, ellipsis_tail, cells[0]@)
        &&& self.uri.shown_as(ellipsis_head, ellipsis_tail, cells[1]@)
        &&& cells[2]@ == self.status@
        &&& self.mime.shown_as(ellipsis_head, ellipsis_tail, cells[3]@)
        &&& cells[4]@ == self.size@
        &&& cells[5]@ == self.time@
    }

    /// The texts of the cells, in the order of the columns.
    pub fn cells<H: Fn(&str, u16) -> String, T: Fn(&str, u16) -> String>(
        &self,
        ellipsis_head: &H,
        ellipsis_tail: &T,
    ) -> (cells: Vec<String>)
        requires
            forall|text: &str, width: u16| call_requires(ellipsis_head, (text, width)),
            forall|text: &str, width: u16| call_requires(ellipsis_tail, (text, width)),
        ensures
            self.shown_as(*ellipsis_head, *ellipsis_tail, cells@),
    {
        let mut cells: Vec<String> = Vec::new();
        cells.push(self.method.fit(ellipsis_head, ellipsis_tail));
        cells.push(self.uri.fit(ellipsis_head, ellipsis_tail));
        cells.push(self.status.clone());
        cells.push(self.mime.fit(ellipsis_head, ellipsis_tail));
        cells.push(self.size.clone());
        cells.push(self.time.clone());
        cells
    }
}

impl Figures {
    /// Whether these can be the figures that the helpers make of an exchange.
    pub open spec fn shows<S: Fn(Option<u64>) -> String, T: Fn(Option<u64>) -> String>(
        self,
        format_size: S,
        format_time_delta: T,
        head: TrafficHead,
    ) -> bool {
        &&& call_ensures(format_size, (head.size,), self.size)
        &&& call_ensures(format_time_delta, (head.time,), self.time)
    }
}

/// The cells of an exchange on a screen of the given width.
pub fn wide_row(head: &TrafficHead, width: u16, figures: &Figures) -> (row: WideRow)
    requires
        width > LARGE_WIDTH,
    ensures
        row.shows(*head, width, *figures),
        head.status matches Some(status) ==> value_of(row.status@) == status,
        head.status is None <==> row.status@.len() == 0,
{
    proof {
        reveal_strlit("");
        if let Some(status) = head.status {
            decimal_stands_for_the_number(status as nat);
        }
    }
    let uri_width = width - FRAME_WIDTH - METHOD_WIDTH - STATUS_WIDTH - MIME_WIDTH - SIZE_WIDTH
        - TIME_DELTA_WIDTH;
    let status = match head.status {
        Some(status) => decimal(status as u64),
        None => "".to_owned(),
    };
    WideRow {
        method: Fitted { text: head.method.clone(), width: METHOD_WIDTH, cut: Cut::Tail },
        uri: Fitted { text: head.uri.clone(), width: uri_width, cut: Cut::Tail },
        status,
        mime: Fitted { text: head.mime.clone(), width: MIME_WIDTH, cut: Cut::Head },
        size: figures.size.clone(),
        time: figures.time.clone(),
    }
}

impl App {
    /// The selected row and the number of rows.
    pub(crate) fn pagination(&self) -> (text: String)
        requires
            self@.selected < usize::MAX,
        ensures
            text@ == pagination_of(self@),
    {
        "[".to_owned().concat(decimal(self.selected_traffic_index as u64 + 1).as_str()).concat(
            "/",
        ).concat(decimal(self.shown_len() as u64).as_str()).concat("]")
    }

    /// The figures of the rows of the list, in order.
    pub fn figures<S: Fn(Option<u64>) -> String, T: Fn(Option<u64>) -> String>(
        &self,
        format_size: S,
        format_time_delta: T,
    ) -> (figures: Vec<Figures>)
        requires
            self@.wf(),
            forall|size: Option<u64>| call_requires(format_size, (size,)),
            forall|time: Option<u64>| call_requires(format_time_delta, (time,)),
        ensures
            figures@.len() == self@.shown().len(),
            forall|i: int|
                0 <= i < figures@.len() ==> (#[trigger] figures@[i]).shows(
                    format_size,
                    format_time_delta,
                    self@.shown()[i],
                ),
    {
        let traffics = self.filtered_traffics();
        let mut figures: Vec<Figures> = Vec::new();
        let mut i: usize = 0;
        while i < traffics.len()
            invariant
                i <= traffics@.len(),
                figures@.len() == i,
                forall|size: Option<u64>| call_requires(format_size, (size,)),
                forall|time: Option<u64>| call_requires(format_time_delta, (time,)),
                forall|k: int|
                    0 <= k < i ==> (#[trigger] figures@[k]).shows(
                        format_size,
                        format_time_delta,
                        *traffics@[k],
                    ),
            decreases traffics@.len() - i,
        {
            let size = format_size(traffics[i].size);
            let time = format_time_delta(traffics[i].time);
            figures.push(Figures { size, time });
            i += 1;
        }
        figures
    }

    /// The main screen in an area. `figures` are those of the rows.
    pub fn render_main_view(&self, area: Rect, figures: &Vec<Figures>) -> (view: MainView)
        requires
            self@.wf(),
            self@.shown().len() > 0 ==> self@.selected < usize::MAX,
            figures@.len() == self@.shown().len(),
            area.width >= 4,
        ensures
            view.shows(self@, area, figures@),
    {
        let traffics = self.filtered_traffics();
        let len = traffics.len();
        let wide = area.width > LARGE_WIDTH;
        let (pagination, selected) = if len > 0 {
            (Some(self.pagination()), Some(self.selected_traffic_index))
        } else {
            (None, None)
        };
        let mut columns: Vec<Constraint> = Vec::new();
        let mut i: usize = 0;
        let rows = if wide {
            columns.push(Constraint::Length(METHOD_WIDTH));
            columns.push(Constraint::Min(48));
            columns.push(Constraint::Length(STATUS_WIDTH));
            columns.push(Constraint::Length(MIME_WIDTH));
            columns.push(Constraint::Length(SIZE_WIDTH));
            columns.push(Constraint::Length(TIME_DELTA_WIDTH));
            let mut rows: Vec<WideRow> = Vec::new();
            while i < len
                invariant
                    i <= len,
                    len == traffics@.len(),
                    len == figures@.len(),
                    area.width > LARGE_WIDTH,
                    rows@.len() == i,
                    forall|k: int|
                        0 <= k < i ==> (#[trigger] rows@[k]).shows(
                            *traffics@[k],
                            area.width,
                            figures@[k],
                        ),
                decreases len - i,
            {
                rows.push(wide_row(traffics[i], area.width, &figures[i]));
                i += 1;
            }
            Rows::Wide(rows)
        } else {
            columns.push(Constraint::Percentage(100));
            let mut rows: Vec<TitleLines> = Vec::new();
            while i < len
                invariant
                    i <= len,
                    len == traffics@.len(),
                    len == figures@.len(),
                    area.width >= 4,
                    rows@.len() == i,
                    forall|k: int|
                        0 <= k < i ==> (#[trigger] rows@[k]).shows(
                            *traffics@[k],
                            (area.width - 4) as u16,
                            figures@[k],
                        ),
                decreases len - i,
            {
                rows.push(title_lines(traffics[i], area.width - 4, &figures[i]));
                i += 1;
            }
            Rows::Narrow(rows)
        };
        let fitting = if wide {
            area.height.saturating_sub(2)
        } else {
            area.height.saturating_sub(1) / 2
        };
        let scrollbar = if len > fitting as usize {
            Some(Scroll { len, position: self.selected_traffic_index })
        } else {
            None
        };
        assert(columns@ =~= columns_of(area.width));
        let title = "Proxyfor (".to_owned().concat(self.addr.as_str()).concat(")");
        MainView { title, pagination, selected, columns, rows, scrollbar }
    }
}

} // verus!
