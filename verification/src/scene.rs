//! The whole screen.
use vstd::prelude::*;
use crate::app::App;
use crate::chrome::{is_popup_of, is_search_line_of, ActionPopup, Footer, SearchLine};
use crate::details::DetailsView;
use crate::layout::{split, Constraint, Direction, Rect};
use crate::list::{Figures, MainView};
use crate::model::{AppState, Screen};

verus! {

/// What is shown above the footer.
#[derive(Debug)]
pub enum Content {
    Main(MainView),
    /// There is nothing where the selected row does not exist.
    Details(Option<DetailsView>),
}

/// Everything that is shown, each with its area.
#[derive(Debug)]
pub struct Scene {
    pub content_area: Rect,
    pub content: Content,
    pub footer_area: Rect,
    pub footer: Footer,
    pub popup: Option<ActionPopup>,
    pub search: Option<SearchLine>,
}

/// The area above the footer: all rows but the last, and at least five as far as
/// there are so many.
pub open spec fn content_area_of(area: Rect) -> Rect {
    let rows = area.extent(Direction::Vertical);
    Rect {
        height: if rows > 5 {
            (rows - 1) as u16
        } else {
            rows as u16
        },
        ..area
    }
}

/// The area of the footer: the last row, if five rows are left above it.
pub open spec fn footer_area_of(area: Rect) -> Rect {
    let content = content_area_of(area);
    Rect {
        y: (area.y + content.height) as u16,
        height: (area.extent(Direction::Vertical) - content.height) as u16,
        ..area
    }
}

impl AppState {
    /// The state can be drawn in the area: it has the columns and the rows from
    /// which borders and gaps are taken, the selected row can be counted from one, and
    /// the details fit.
    pub open spec fn drawable(self, area: Rect) -> bool {
        &&& self.view is Main ==> area.width >= 4 && (self.shown().len() > 0 ==> self.selected
            < usize::MAX)
        &&& self.view is Details ==> self.details_fit(area)
        &&& self.has_search_line() ==> area.height >= 2
    }

    /// The state has been drawn: details that are shown have been measured.
    pub open spec fn drawn(self, area: Rect) -> AppState {
        match self.view {
            Screen::Main => self,
            Screen::Details => self.measured(content_area_of(area)),
        }
    }
}

impl Scene {
    /// This is the whole screen of a state that has been drawn. `figures` are those
    /// of the rows of the list.
    pub open spec fn shows(self, s: AppState, area: Rect, figures: Seq<Figures>) -> bool {
        &&& self.content_area == content_area_of(area)
        &&& self.footer_area == footer_area_of(area)
        &&& match s.view {
            Screen::Main => self.content matches Content::Main(view) && view.shows(
                s,
                self.content_area,
                figures,
            ),
            Screen::Details => self.content matches Content::Details(view) && match view {
                Some(view) => view.shows(s, self.content_area, figures[s.selected as int]),
                None => s.selected_head() is None,
            },
        }
        &&& self.footer.shows(s)
        &&& is_popup_of(self.popup, s, area)
        &&& is_search_line_of(self.search, s, area)
    }
}

impl App {
    /// Whether the interface can be drawn in an area.
    pub fn drawable(&self, area: Rect) -> (can: bool)
        requires
            self@.wf(),
        ensures
            can == self@.drawable(area),
    {
        let content = match self.current_view {
            Screen::Main => area.width >= 4 && (self.shown_len() == 0
                || self.selected_traffic_index < usize::MAX),
            Screen::Details => self.details_fit(area),
        };
        let has_search_line = self.input_mode || !self.search_input.value.as_str().is_empty();
        content && (!has_search_line || area.height >= 2)
    }

    /// The whole screen. `figures` are those of the rows of the list.
    pub fn draw(&mut self, area: Rect, figures: &Vec<Figures>) -> (scene: Scene)
        requires
            old(self)@.wf(),
            old(self)@.drawable(area),
            figures@.len() == old(self)@.shown().len(),
        ensures
            final(self)@ == old(self)@.drawn(area),
            final(self)@.wf(),
            old(self)@.reachable() ==> final(self)@.reachable(),
            scene.shows(final(self)@, area, figures@),
    {
        let mut constraints: Vec<Constraint> = Vec::new();
        constraints.push(Constraint::Min(5));
        constraints.push(Constraint::Length(1));
        let chunks = split(area, Direction::Vertical, &constraints);
        let (content_area, footer_area) = (chunks[0], chunks[1]);
        proof {
            let given = seq![Constraint::Min(5), Constraint::Length(1)];
            assert(constraints@ =~= given);
            assert(given.drop_last().drop_last() =~= Seq::<Constraint>::empty());
            reveal_with_fuel(crate::layout::length_total, 3);
            assert(crate::layout::length_total(given) == 1);
            assert(crate::layout::single_min(given, 0));
            assert(content_area == content_area_of(area));
            assert(footer_area == footer_area_of(area));
        }
        let content = match self.current_view {
            Screen::Main => Content::Main(self.render_main_view(content_area, figures)),
            Screen::Details => {
                let row = self.selected_traffic_index;
                if row < figures.len() {
                    Content::Details(self.render_details_view(content_area, &figures[row]))
                } else {
                    Content::Details(None)
                }
            },
        };
        let footer = self.render_footer();
        let popup = self.render_popup(area);
        let search = self.render_input(area);
        Scene { content_area, content, footer_area, footer, popup, search }
    }
}

} // verus!
