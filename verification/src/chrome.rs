//! What surrounds the two screens: the footer, the popups and the search line.
use vstd::prelude::*;
use vstd::string::StringExecFns;
use ratatui::text::Line;
use crate::actions::{COPY_ACTIONS, EXPORT_ACTIONS};
use crate::app::App;
use crate::layout::{centered, popup_absolute_area, Rect};
use crate::model::{AppState, Confirm, Popup, Screen};

verus! {

/// The keys of the main screen and what they do.
pub const MAIN_KEYBINDINGS: [(&'static str, &'static str); 6] = [
    ("↵", "Select"),
    ("⇅", "Navigate"),
    ("/", "Search"),
    ("c", "Copy"),
    ("e", "Export"),
    ("q", "Quit"),
];

/// The keys of the details and what they do.
pub const DETAILS_KEYBINDINGS: [(&'static str, &'static str); 6] = [
    ("↹", "Switch"),
    ("⇅", "Scroll"),
    ("␣", "Next"),
    ("c", "Copy"),
    ("e", "Export"),
    ("q", "Back"),
];

/// The question whether to quit; the keys that answer it are marked.
pub const QUIT_QUESTION: [(&'static str, bool); 6] = [
    ("Quit", false),
    (" (", false),
    ("y", true),
    ("es,", false),
    ("n", true),
    ("o)?", false),
];

/// The widths of the popups.
pub const COPY_POPUP_WIDTH: u16 = 24;

pub const EXPORT_POPUP_WIDTH: u16 = 30;

/// A key, what it does, and what stands before the next one.
#[derive(Clone, Copy, Debug)]
pub struct HelpItem {
    pub key: &'static str,
    pub description: &'static str,
    pub separator: &'static str,
}

/// What the footer shows.
#[derive(Debug)]
pub enum Footer {
    /// A question in pieces, some of them marked.
    Confirm([(&'static str, bool); 6]),
    /// A notice, and whether it tells of an error.
    Notice(String, bool),
    /// The keys of the screen.
    Help(Vec<HelpItem>),
}

/// A popup with actions.
#[derive(Debug)]
pub struct ActionPopup {
    pub area: Rect,
    pub labels: Vec<&'static str>,
    pub selected: usize,
}

/// The line of the search and the cursor in it.
#[derive(Debug)]
pub struct SearchLine {
    pub text: String,
    pub area: Rect,
    pub cursor: (u16, u16),
}

/// The columns that `ratatui::text::Line::width` counts for a line of text.
pub uninterp spec fn line_width(text: Seq<char>) -> usize;

/// Measures a text with `ratatui::text::Line::width`; the width depends on the text
/// alone.
#[verifier::external_body]
fn measure(text: &str) -> (width: usize)
    ensures
        width == line_width(text@),
{
    Line::raw(text).width()
}

impl Screen {
    /// The keys of the screen and what they do.
    pub open spec fn bindings(self) -> Seq<(&'static str, &'static str)> {
        match self {
            Screen::Main => MAIN_KEYBINDINGS@,
            Screen::Details => DETAILS_KEYBINDINGS@,
        }
    }

    /// The keys of the screen and what they do.
    pub fn keybindings(&self) -> (bindings: [(&'static str, &'static str); 6])
        ensures
            bindings@ == self.bindings(),
    {
        match self {
            Screen::Main => MAIN_KEYBINDINGS,
            Screen::Details => DETAILS_KEYBINDINGS,
        }
    }
}

/// These are the keys of a screen, separated from each other.
pub open spec fn is_help(items: Seq<HelpItem>, screen: Screen) -> bool {
    let bindings = screen.bindings();
    &&& items.len() == bindings.len()
    &&& forall|i: int|
        0 <= i < items.len() ==> {
            &&& (#[trigger] items[i]).key == bindings[i].0
            &&& items[i].description == bindings[i].1
            &&& items[i].separator@ == if i == bindings.len() - 1 {
                ""@
            } else {
                " | "@
            }
        }
}

/// A notice as the footer shows it.
pub open spec fn notice_text(message: Seq<char>, is_error: bool) -> Seq<char> {
    if is_error {
        "Error: "@ + message
    } else {
        "✓ "@ + message
    }
}

impl Footer {
    /// This is the footer of a state: a question goes before a notice, a notice
    /// before the keys.
    pub open spec fn shows(self, s: AppState) -> bool {
        match (s.confirm, s.notifier) {
            (Some(Confirm::Quit), _) => self matches Footer::Confirm(pieces) && pieces@
                == QUIT_QUESTION@,
            (None, Some(notice)) => self matches Footer::Notice(text, is_error) && text@
                == notice_text(notice.message, notice.is_error) && is_error == notice.is_error,
            (None, None) => self matches Footer::Help(items) && is_help(items@, s.view),
        }
    }
}

impl ActionPopup {
    /// The popup lists the labels of `actions` in an area of the given width, which
    /// has a row for each and two for the border, in the middle of the frame.
    pub open spec fn lists(
        self,
        frame: Rect,
        idx: usize,
        actions: Seq<(&'static str, &'static str)>,
        width: u16,
    ) -> bool {
        &&& frame.fits() ==> self.area == centered(frame, width, (actions.len() + 2) as u16)
        &&& self.area.inside(frame)
        &&& self.labels@.len() == actions.len()
        &&& forall|i: int| 0 <= i < actions.len() ==> #[trigger] self.labels@[i] == actions[i].0
        &&& self.selected == idx
    }
}

/// These are the actions of the popup of a state, or none without one.
pub open spec fn is_popup_of(popup: Option<ActionPopup>, s: AppState, frame: Rect) -> bool {
    match s.popup {
        Some(Popup::Copy(idx)) => popup matches Some(popup) && popup.lists(
            frame,
            idx,
            COPY_ACTIONS@,
            COPY_POPUP_WIDTH,
        ),
        Some(Popup::Export(idx)) => popup matches Some(popup) && popup.lists(
            frame,
            idx,
            EXPORT_ACTIONS@,
            EXPORT_POPUP_WIDTH,
        ),
        None => popup is None,
    }
}

impl AppState {
    /// The line of the search is shown.
    pub open spec fn has_search_line(self) -> bool {
        self.input_mode || self.query.len() > 0
    }

    /// The text in the line of the search; while it is typed there is room for the
    /// cursor.
    pub open spec fn search_text(self) -> Seq<char> {
        "|search: "@ + self.query + if self.input_mode {
            " "@
        } else {
            ""@
        } + "|"@
    }
}

impl SearchLine {
    /// This is the line of the search of a state: in the last row but one, from the
    /// second column on, with the cursor on the column before its last. Widths are
    /// counted modulo the range of `u16`.
    pub open spec fn shows(self, s: AppState, frame: Rect) -> bool {
        let y = (frame.height - 2) as u16;
        let width = line_width(s.search_text()) as u16;
        &&& self.text@ == s.search_text()
        &&& self.area == Rect { x: 1, y, width, height: 1 }
        &&& self.cursor.0 == if width > 0 {
            width - 1
        } else {
            0
        }
        &&& self.cursor.1 == y
    }
}

/// These are the line of the search of a state, or nothing without one.
pub open spec fn is_search_line_of(line: Option<SearchLine>, s: AppState, frame: Rect) -> bool {
    match line {
        Some(line) => s.has_search_line() && line.shows(s, frame),
        None => !s.has_search_line(),
    }
}

impl App {
    /// The footer.
    pub fn render_footer(&self) -> (footer: Footer)
        ensures
            footer.shows(self@),
    {
        if let Some(confirm) = self.current_confirm {
            Footer::Confirm(Self::render_confirm(confirm))
        } else if let Some(notifier) = &self.current_notifier {
            Footer::Notice(
                Self::render_notifier(notifier.message.as_str(), notifier.is_error),
                notifier.is_error,
            )
        } else {
            Footer::Help(self.render_help_banner())
        }
    }

    /// The text of a notice.
    pub fn render_notifier(message: &str, is_error: bool) -> (text: String)
        ensures
            text@ == notice_text(message@, is_error),
    {
        if is_error {
            "Error: ".to_owned().concat(message)
        } else {
            "✓ ".to_owned().concat(message)
        }
    }

    /// The keys of the screen.
    pub fn render_help_banner(&self) -> (items: Vec<HelpItem>)
        ensures
            is_help(items@, self@.view),
    {
        let keybindings = self.current_view.keybindings();
        let mut items: Vec<HelpItem> = Vec::new();
        let mut i: usize = 0;
        while i < keybindings.len()
            invariant
                keybindings@ == self@.view.bindings(),
                keybindings@.len() == 6,
                i <= keybindings@.len(),
                items@.len() == i,
                forall|k: int|
                    0 <= k < i ==> {
                        &&& (#[trigger] items@[k]).key == keybindings@[k].0
                        &&& items@[k].description == keybindings@[k].1
                        &&& items@[k].separator@ == if k == keybindings@.len() - 1 {
                            ""@
                        } else {
                            " | "@
                        }
                    },
            decreases keybindings@.len() - i,
        {
            let separator = if i == keybindings.len() - 1 {
                ""
            } else {
                " | "
            };
            items.push(
                HelpItem { key: keybindings[i].0, description: keybindings[i].1, separator },
            );
            i += 1;
        }
        items
    }

    /// A question in pieces.
    pub fn render_confirm(confirm: Confirm) -> (pieces: [(&'static str, bool); 6])
        ensures
            pieces@ == QUIT_QUESTION@,
    {
        match confirm {
            Confirm::Quit => QUIT_QUESTION,
        }
    }

    /// The popup, if there is one.
    pub fn render_popup(&self, frame: Rect) -> (popup: Option<ActionPopup>)
        ensures
            is_popup_of(popup, self@, frame),
    {
        match self.current_popup {
            Some(Popup::Copy(idx)) => Some(
                Self::render_action_popup(frame, idx, COPY_ACTIONS.as_slice(), COPY_POPUP_WIDTH),
            ),
            Some(Popup::Export(idx)) => Some(
                Self::render_action_popup(
                    frame,
                    idx,
                    EXPORT_ACTIONS.as_slice(),
                    EXPORT_POPUP_WIDTH,
                ),
            ),
            None => None,
        }
    }

    /// A popup that lists actions.
    pub fn render_action_popup(
        frame: Rect,
        idx: usize,
        actions: &[(&'static str, &'static str)],
        width: u16,
    ) -> (popup: ActionPopup)
        requires
            actions@.len() + 2 <= u16::MAX,
        ensures
            popup.lists(frame, idx, actions@, width),
    {
        let mut labels: Vec<&'static str> = Vec::new();
        let mut i: usize = 0;
        while i < actions.len()
            invariant
                i <= actions@.len(),
                labels@.len() == i,
                forall|k: int| 0 <= k < i ==> #[trigger] labels@[k] == actions@[k].0,
            decreases actions@.len() - i,
        {
            labels.push(actions[i].0);
            i += 1;
        }
        let area = popup_absolute_area(frame, width, actions.len() as u16 + 2);
        ActionPopup { area, labels, selected: idx }
    }

    /// The line of the search, while it is typed or where there is a query.
    pub fn render_input(&self, frame: Rect) -> (line: Option<SearchLine>)
        requires
            self@.has_search_line() ==> frame.height >= 2,
        ensures
            is_search_line_of(line, self@, frame),
    {
        if !self.input_mode && self.search_input.value.as_str().is_empty() {
            return None;
        }
        let space = if self.input_mode {
            " "
        } else {
            ""
        };
        let text = "|search: ".to_owned().concat(self.search_input.value.as_str()).concat(
            space,
        ).concat("|");
        let y = frame.height - 2;
        let width = #[verifier::truncate]
        (measure(text.as_str()) as u16);
        let area = Rect { x: 1, y, width, height: 1 };
        Some(SearchLine { text, area, cursor: (width.saturating_sub(1), y) })
    }
}

} // verus!
