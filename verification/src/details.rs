//! The details of one exchange.
use vstd::prelude::*;
use vstd::string::StringExecFns;
use ratatui::text::Line;
use ratatui::widgets::{Block, Paragraph, Wrap};
use crate::app::App;
use crate::layout::{split, Constraint, Direction, Rect};
use crate::list::{pagination_of, title_lines, Figures, Scroll, TitleLines};
use crate::model::AppState;
use crate::text::{byte_len, lines, lines_of, repeat_char, repeated, texts};
use crate::traffic::{Body, Header, TrafficDetails};

verus! {

/// The lines that `ratatui::widgets::Paragraph::line_count` counts for lines of
/// text in a box with a border, wrapped at a width.
pub uninterp spec fn wrapped_line_count(lines: Seq<Seq<char>>, width: u16) -> usize;

/// Lines can be wrapped at a width without counting columns past the range of `u16`:
/// the width is small, or every line is.
pub open spec fn countable(lines: Seq<Seq<char>>, width: u16) -> bool {
    width <= u16::MAX / 4 || forall|i: int|
        0 <= i < lines.len() ==> byte_len(#[trigger] lines[i]) <= u16::MAX
}

/// Counts lines with `ratatui::widgets::Paragraph::line_count`, of a paragraph with
/// a bordered block that wraps without trimming. The count depends on the text and
/// the width alone; at width zero it is zero, else it counts the two borders too.
/// The wrapping adds up columns in a `u16`: its sums stay below four times the width,
/// and they do not exceed the bytes of the line.
#[verifier::external_body]
fn count_lines(lines: &Vec<String>, width: u16) -> (count: usize)
    requires
        countable(texts(lines@), width),
    ensures
        count == wrapped_line_count(texts(lines@), width),
        width == 0 ==> count == 0,
        width > 0 ==> count >= 2,
{
    let text: Vec<Line> = lines.iter().map(|line| Line::raw(line.as_str())).collect();
    Paragraph::new(text).block(Block::bordered()).wrap(Wrap { trim: false }).line_count(width)
}

/// The headers and the body of an exchange under its title.
#[derive(Debug)]
pub struct DetailsBody {
    /// The first tab, that of the request, is open.
    pub is_req: bool,
    /// The title of the second tab.
    pub second_tab: &'static str,
    pub pagination: String,
    pub lines: Vec<String>,
    /// The last line stands for a body that is no text.
    pub underline_last: bool,
    pub scroll_offset: u16,
    pub scrollbar: Option<Scroll>,
}

/// What the screen with the details shows. The title has its own area; the body
/// follows once the exchange has been read.
#[derive(Debug)]
pub struct DetailsView {
    pub title_area: Rect,
    pub title: TitleLines,
    pub body_area: Rect,
    pub body: Option<DetailsBody>,
}

/// A header on a line.
pub open spec fn header_line(header: Header) -> Seq<char> {
    header.name@ + ": "@ + header.value@
}

/// The headers, a line for each.
pub open spec fn header_lines(headers: Option<Vec<Header>>) -> Seq<Seq<char>> {
    match headers {
        Some(headers) => Seq::new(headers@.len(), |i: int| header_line(headers@[i])),
        None => Seq::empty(),
    }
}

/// A rule and the lines of the body; what stands for a body that is no text is one
/// line.
pub open spec fn body_lines(body: Option<Body>, width: u16) -> Seq<Seq<char>> {
    match body {
        Some(body) => seq![repeated('—', width as nat)] + if body.utf8 {
            lines_of(body.value@)
        } else {
            seq![body.value@]
        },
        None => Seq::empty(),
    }
}

/// The lines of a tab: the headers and the body of the request or of the response,
/// or the error instead of a response.
pub open spec fn detail_lines(details: TrafficDetails, is_req: bool, width: u16) -> Seq<Seq<char>> {
    if is_req {
        header_lines(details.traffic.req_headers) + body_lines(details.req_body, width)
    } else {
        match details.traffic.error {
            Some(error) => seq![error@],
            None => header_lines(details.traffic.res_headers) + body_lines(
                details.res_body,
                width,
            ),
        }
    }
}

/// The last line of a tab stands for a body that is no text.
pub open spec fn ends_without_text(details: TrafficDetails, is_req: bool) -> bool {
    let body = if is_req {
        details.req_body
    } else if details.traffic.error is Some {
        None
    } else {
        details.res_body
    };
    body matches Some(body) && !body.utf8
}

/// The upper two rows of an area, as far as it has them.
pub open spec fn title_area_of(area: Rect) -> Rect {
    let rows = area.extent(Direction::Vertical);
    Rect {
        height: if rows < 2 {
            rows as u16
        } else {
            2
        },
        ..area
    }
}

/// The area under the upper two rows.
pub open spec fn body_area_of(area: Rect) -> Rect {
    let title = title_area_of(area);
    Rect {
        y: (area.y + title.height) as u16,
        height: (area.extent(Direction::Vertical) - title.height) as u16,
        ..area
    }
}

/// How far a tab scrolls: the lines that do not fit. Lines are counted modulo the
/// range of `u16`.
pub open spec fn scroll_size_of(details: TrafficDetails, is_req: bool, area: Rect) -> u16 {
    let width = (area.width - 2) as u16;
    let count = wrapped_line_count(detail_lines(details, is_req, width), width) as u16;
    let height = body_area_of(area).height;
    if count > height {
        (count - height) as u16
    } else {
        0
    }
}

impl AppState {
    /// The details can be drawn in an area: where they are shown it has the columns of
    /// the border, and where they have not been measured their lines can be counted.
    pub open spec fn details_fit(self, area: Rect) -> bool {
        self.selected_head() is Some && self.traffic is Some ==> {
            &&& area.width >= 2
            &&& self.scroll_size is None ==> countable(
                detail_lines(self.traffic->0, self.tab == 0, (area.width - 2) as u16),
                (area.width - 2) as u16,
            )
        }
    }

    /// The shown details have been measured in an area, if they had not been
    /// before.
    pub open spec fn measured(self, area: Rect) -> AppState {
        match (self.selected_head(), self.traffic, self.scroll_size) {
            (Some(_), Some(details), None) => AppState {
                scroll_size: Some(scroll_size_of(details, self.tab == 0, area)),
                ..self
            },
            _ => self,
        }
    }
}

impl DetailsBody {
    /// This is the body of the screen with the details of a state that has been
    /// measured in the area.
    pub open spec fn shows(self, s: AppState, details: TrafficDetails, area: Rect) -> bool {
        &&& self.is_req == (s.tab == 0)
        &&& self.second_tab@ == if details.traffic.error is Some {
            "Error"@
        } else {
            "Response"@
        }
        &&& self.pagination@ == pagination_of(s)
        &&& texts(self.lines@) == detail_lines(details, s.tab == 0, (area.width - 2) as u16)
        &&& self.underline_last == ends_without_text(details, s.tab == 0)
        &&& self.scroll_offset == s.scroll_offset
        &&& self.scrollbar == match s.scroll_size {
            Some(size) if size > 0 => Some(
                Scroll { len: size as usize, position: s.scroll_offset as usize },
            ),
            _ => None,
        }
    }
}

impl DetailsView {
    /// This is the screen with the details of a state that has been measured in the
    /// area. `figures` are those of the selected exchange.
    pub open spec fn shows(self, s: AppState, area: Rect, figures: Figures) -> bool {
        &&& s.selected_head() matches Some(head) && self.title.shows(head, area.width, figures)
        &&& self.title_area == title_area_of(area)
        &&& self.body_area == body_area_of(area)
        &&& match self.body {
            Some(body) => s.traffic matches Some(details) && body.shows(s, details, area),
            None => s.traffic is None,
        }
    }
}

/// Adds a line for each header.
fn push_headers(texts_so_far: &mut Vec<String>, headers: &Option<Vec<Header>>)
    ensures
        texts(final(texts_so_far)@) == texts(old(texts_so_far)@) + header_lines(*headers),
{
    let ghost before = texts(texts_so_far@);
    if let Some(headers) = headers {
        let mut i: usize = 0;
        assert(texts(texts_so_far@) =~= before + header_lines(Some(*headers)).take(0));
        while i < headers.len()
            invariant
                i <= headers@.len(),
                texts(texts_so_far@) == before + header_lines(Some(*headers)).take(i as int),
            decreases headers@.len() - i,
        {
            let ghost earlier = texts_so_far@;
            let line = headers[i].name.clone().concat(": ").concat(headers[i].value.as_str());
            texts_so_far.push(line);
            i += 1;
            assert(texts(texts_so_far@) =~= texts(earlier).push(header_line(headers@[i - 1])));
            assert(texts(texts_so_far@) =~= before + header_lines(Some(*headers)).take(i as int));
        }
        assert(header_lines(Some(*headers)).take(i as int) =~= header_lines(Some(*headers)));
    } else {
        assert(texts(texts_so_far@) =~= before + header_lines(*headers));
    }
}

/// Adds the rule and the lines of a body.
fn push_body(texts_so_far: &mut Vec<String>, body: &Option<Body>, width: u16)
    ensures
        texts(final(texts_so_far)@) == texts(old(texts_so_far)@) + body_lines(*body, width),
{
    let ghost before = texts(texts_so_far@);
    if let Some(body) = body {
        texts_so_far.push(repeat_char('—', width as usize));
        if body.utf8 {
            let mut more = lines(body.value.as_str());
            let ghost added = more@;
            texts_so_far.append(&mut more);
            assert(texts(texts_so_far@) =~= before + seq![repeated('—', width as nat)] + texts(
                added,
            ));
        } else {
            texts_so_far.push(body.value.clone());
        }
        assert(texts(texts_so_far@) =~= before + body_lines(Some(*body), width));
    } else {
        assert(texts(texts_so_far@) =~= before + body_lines(*body, width));
    }
}

/// The lines of a tab.
fn tab_lines(details: &TrafficDetails, is_req: bool, width: u16) -> (found: Vec<String>)
    ensures
        texts(found@) == detail_lines(*details, is_req, width),
{
    let mut found: Vec<String> = Vec::new();
    assert(texts(found@) =~= Seq::empty());
    if is_req {
        push_headers(&mut found, &details.traffic.req_headers);
        push_body(&mut found, &details.req_body, width);
    } else if let Some(error) = &details.traffic.error {
        found.push(error.clone());
    } else {
        push_headers(&mut found, &details.traffic.res_headers);
        push_body(&mut found, &details.res_body, width);
    }
    assert(texts(found@) =~= detail_lines(*details, is_req, width));
    found
}

/// Whether lines can be wrapped at a width.
fn can_count(lines: &Vec<String>, width: u16) -> (can: bool)
    ensures
        can == countable(texts(lines@), width),
{
    if width <= u16::MAX / 4 {
        return true;
    }
    let mut i: usize = 0;
    while i < lines.len()
        invariant
            i <= lines@.len(),
            width > u16::MAX / 4,
            forall|k: int| 0 <= k < i ==> byte_len(#[trigger] texts(lines@)[k]) <= u16::MAX,
        decreases lines@.len() - i,
    {
        if lines[i].as_str().len() > u16::MAX as usize {
            assert(byte_len(texts(lines@)[i as int]) > u16::MAX);
            return false;
        }
        i += 1;
    }
    true
}

impl App {
    /// Whether the details can be drawn in an area.
    pub fn details_fit(&self, area: Rect) -> (fit: bool)
        requires
            self@.wf(),
        ensures
            fit == self@.details_fit(area),
    {
        if self.selected_traffic().is_none() {
            return true;
        }
        match &self.current_traffic {
            Some(details) => area.width >= 2 && (self.details_scroll_size.is_some() || can_count(
                &tab_lines(details, self.details_tab_index == 0, area.width - 2),
                area.width - 2,
            )),
            None => true,
        }
    }

    /// The screen with the details in an area, once a row is selected that exists;
    /// measures the details if that has not been done. `figures` are those of the
    /// selected exchange.
    pub fn render_details_view(&mut self, area: Rect, figures: &Figures) -> (view: Option<DetailsView>)
        requires
            old(self)@.wf(),
            old(self)@.details_fit(area),
        ensures
            final(self)@ == old(self)@.measured(area),
            final(self)@.wf(),
            old(self)@.reachable() ==> final(self)@.reachable(),
            match view {
                Some(view) => view.shows(final(self)@, area, *figures),
                None => old(self)@.selected_head() is None,
            },
    {
        let title = match self.selected_traffic() {
            Some(head) => title_lines(head, area.width, figures),
            None => return None,
        };
        let mut constraints: Vec<Constraint> = Vec::new();
        constraints.push(Constraint::Length(2));
        constraints.push(Constraint::Min(0));
        let chunks = split(area, Direction::Vertical, &constraints);
        let (title_area, body_area) = (chunks[0], chunks[1]);
        proof {
            let given = seq![Constraint::Length(2), Constraint::Min(0)];
            assert(constraints@ =~= given);
            assert(given.drop_last().drop_last() =~= Seq::<Constraint>::empty());
            reveal_with_fuel(crate::layout::length_total, 3);
            assert(crate::layout::length_total(given) == 2);
            assert(crate::layout::single_min(given, 1));
            assert(title_area == title_area_of(area));
            assert(body_area == body_area_of(area));
        }
        let is_req = self.details_tab_index == 0;
        let (lines, second_tab, underline_last) = match &self.current_traffic {
            Some(details) => {
                let body = if is_req {
                    &details.req_body
                } else if details.traffic.error.is_some() {
                    &None
                } else {
                    &details.res_body
                };
                let no_text = match body {
                    Some(body) => !body.utf8,
                    None => false,
                };
                let second_tab = match &details.traffic.error {
                    Some(_) => "Error",
                    None => "Response",
                };
                (tab_lines(details, is_req, area.width - 2), second_tab, no_text)
            },
            None => return Some(DetailsView { title_area, title, body_area, body: None }),
        };
        let scroll_size = match self.details_scroll_size {
            Some(size) => size,
            None => {
                let count = #[verifier::truncate]
                (count_lines(&lines, area.width - 2) as u16);
                let size = count.saturating_sub(body_area.height);
                self.details_scroll_size = Some(size);
                size
            },
        };
        let scrollbar = if scroll_size > 0 {
            Some(Scroll { len: scroll_size as usize, position: self.details_scroll_offset as usize })
        } else {
            None
        };
        proof {
            match &self.filtered_traffic_indices {
                Some(indices) => assert(indices.len() == self@.shown().len()),
                None => assert(self.traffics.len() == self@.shown().len()),
            }
        }
        let body = DetailsBody {
            is_req,
            second_tab,
            pagination: self.pagination(),
            lines,
            underline_last,
            scroll_offset: self.details_scroll_offset,
            scrollbar,
        };
        Some(DetailsView { title_area, title, body_area, body: Some(body) })
    }
}

} // verus!
