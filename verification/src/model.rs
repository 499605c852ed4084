//! The state of the interface and its transitions, as mathematics.
use vstd::prelude::*;
use crate::actions::{Message, Request, COPY_ACTIONS, EXPORT_ACTIONS};
use crate::input::edited;
use crate::keys::{Event, KeyCode};
use crate::nav::{next_of, prev_of};
use crate::text::words_of;
use crate::traffic::{TrafficDetails, TrafficHead};

verus! {

/// The milliseconds of a turn of the loop that draws and reads events.
pub const TICK_INTERVAL: u64 = 250;

/// The milliseconds that a notice stays.
pub const MESSAGE_TIMEOUT: u64 = 5000;

/// The two screens.
#[derive(Clone, Copy, Debug, PartialEq, Eq, Structural)]
pub enum Screen {
    Main,
    Details,
}

/// The popups, each with its selected action.
#[derive(Clone, Copy, Debug, PartialEq, Eq, Structural)]
pub enum Popup {
    Copy(usize),
    Export(usize),
}

/// The questions that wait for an answer.
#[derive(Clone, Copy, Debug, PartialEq, Eq, Structural)]
pub enum Confirm {
    Quit,
}

/// A notice in the footer and the last turn in which it is shown.
#[verifier::ext_equal]
pub struct Notice {
    pub message: Seq<char>,
    pub is_error: bool,
    pub timeout_step: u64,
}

/// The state of the interface.
#[verifier::ext_equal]
pub struct AppState {
    pub addr: Seq<char>,
    /// The selected row of the shown list.
    pub selected: usize,
    pub traffics: Seq<TrafficHead>,
    /// The positions in `traffics` that the search leaves, if there is a search.
    pub filtered: Option<Seq<usize>>,
    /// The tab of the details: 0 for the request, 1 for the response.
    pub tab: usize,
    pub scroll_offset: u16,
    /// How far the details scroll, once they have been measured.
    pub scroll_size: Option<u16>,
    pub view: Screen,
    pub traffic: Option<TrafficDetails>,
    pub popup: Option<Popup>,
    pub confirm: Option<Confirm>,
    pub notifier: Option<Notice>,
    pub input_mode: bool,
    pub query: Seq<char>,
    pub cursor: usize,
    pub should_quit: bool,
    /// The turns so far.
    pub step: u64,
}

/// Whether the exchange at `i` has the id.
pub open spec fn has_id(traffics: Seq<TrafficHead>, i: int, id: usize) -> bool {
    0 <= i < traffics.len() && traffics[i].id == id
}

/// The exchange at `i` is the first one with the id.
pub open spec fn is_first(traffics: Seq<TrafficHead>, i: int, id: usize) -> bool {
    &&& has_id(traffics, i, id)
    &&& forall|j: int| 0 <= j < i ==> !#[trigger] has_id(traffics, j, id)
}

/// The exchange at `i` is the last one with the id.
pub open spec fn is_last(traffics: Seq<TrafficHead>, i: int, id: usize) -> bool {
    &&& has_id(traffics, i, id)
    &&& forall|j: int| i < j < traffics.len() ==> !#[trigger] has_id(traffics, j, id)
}

/// The position of the first exchange with the id, if there is one.
pub open spec fn first_with(traffics: Seq<TrafficHead>, id: usize) -> Option<int> {
    if exists|i: int| is_first(traffics, i, id) {
        Some(choose|i: int| is_first(traffics, i, id))
    } else {
        None
    }
}

/// The position of the last exchange with the id, if there is one.
pub open spec fn last_with(traffics: Seq<TrafficHead>, id: usize) -> Option<int> {
    if exists|i: int| is_last(traffics, i, id) {
        Some(choose|i: int| is_last(traffics, i, id))
    } else {
        None
    }
}

/// No two exchanges have the same id.
pub open spec fn distinct_ids(traffics: Seq<TrafficHead>) -> bool {
    forall|i: int, j: int|
        0 <= i < j < traffics.len() ==> (#[trigger] traffics[i]).id != (#[trigger] traffics[j]).id
}

/// The positions of the answers that are true, in order.
pub open spec fn hit_positions(hits: Seq<bool>) -> Seq<usize>
    decreases hits.len(),
{
    if hits.len() == 0 {
        Seq::empty()
    } else {
        let before = hit_positions(hits.drop_last());
        if hits.last() {
            before.push((hits.len() - 1) as usize)
        } else {
            before
        }
    }
}

/// Whether `hit` is what `test_filter` answers for all the words together: that
/// each word fits, or that one does not.
pub open spec fn answers<F: Fn(&TrafficHead, &str) -> bool>(
    test_filter: F,
    head: TrafficHead,
    words: Seq<Seq<char>>,
    hit: bool,
) -> bool {
    if hit {
        forall|k: int| 0 <= k < words.len() ==> answers_word(test_filter, head, #[trigger] words[k], true)
    } else {
        exists|k: int| 0 <= k < words.len() && answers_word(test_filter, head, #[trigger] words[k], false)
    }
}

/// Whether `test_filter` can answer `hit` for a word.
pub open spec fn answers_word<F: Fn(&TrafficHead, &str) -> bool>(
    test_filter: F,
    head: TrafficHead,
    word: Seq<char>,
    hit: bool,
) -> bool {
    exists|w: &str| w@ == word && #[trigger] call_ensures(test_filter, (&head, w), hit)
}

impl AppState {
    /// The rows of the list, in order.
    pub open spec fn shown(self) -> Seq<TrafficHead> {
        match self.filtered {
            None => self.traffics,
            Some(filtered) => Seq::new(filtered.len(), |i: int| self.traffics[filtered[i] as int]),
        }
    }

    /// The exchange in the selected row, if there is such a row.
    pub open spec fn selected_head(self) -> Option<TrafficHead> {
        if self.selected < self.shown().len() {
            Some(self.shown()[self.selected as int])
        } else {
            None
        }
    }

    /// What the operations need of a state: positions point into the traffic, and the
    /// cursor lies within the query.
    pub open spec fn wf(self) -> bool {
        &&& self.traffics.len() <= usize::MAX
        &&& self.filtered matches Some(filtered) ==> forall|i: int|
            0 <= i < filtered.len() ==> (#[trigger] filtered[i]) < self.traffics.len()
        &&& self.cursor <= self.query.len()
    }

    /// The selected row is one of all the traffic, the selected action one of its
    /// popup, the tab one of the two, and the details are not scrolled past their end.
    pub open spec fn in_range(self) -> bool {
        &&& self.selected == 0 || self.selected < self.traffics.len()
        &&& match self.popup {
            Some(Popup::Copy(idx)) => idx < COPY_ACTIONS@.len(),
            Some(Popup::Export(idx)) => idx < EXPORT_ACTIONS@.len(),
            None => true,
        }
        &&& self.tab <= 1
        &&& match self.scroll_size {
            None => self.scroll_offset == 0,
            Some(size) => self.scroll_offset <= size,
        }
    }

    /// What holds in every state that is reached from the start, also between an
    /// edit of the query and the search that follows it: no exchange is recorded or
    /// listed twice, a query is typed on the main screen only, and details are open
    /// only beside a list that is not empty.
    pub open spec fn settled(self) -> bool {
        &&& self.wf()
        &&& self.in_range()
        &&& distinct_ids(self.traffics)
        &&& self.filtered matches Some(filtered) ==> forall|i: int, j: int|
            0 <= i < j < filtered.len() ==> #[trigger] filtered[i] < #[trigger] filtered[j]
        &&& self.input_mode ==> self.view is Main
        &&& self.view is Details ==> self.shown().len() > 0
    }

    /// What holds in every state that is reached from the start: besides, the list
    /// is filtered exactly if the query has words.
    pub open spec fn reachable(self) -> bool {
        &&& self.settled()
        &&& self.filtered is Some <==> words_of(self.query).len() > 0
    }

    /// The number of turns can still grow by as much as a notice lasts.
    pub open spec fn notice_fits(self) -> bool {
        self.step + MESSAGE_TIMEOUT / TICK_INTERVAL <= u64::MAX
    }

    /// The state at the start.
    pub open spec fn initial(addr: Seq<char>) -> AppState {
        AppState {
            addr,
            selected: 0,
            traffics: Seq::empty(),
            filtered: None,
            tab: 0,
            scroll_offset: 0,
            scroll_size: None,
            view: Screen::Main,
            traffic: None,
            popup: None,
            confirm: None,
            notifier: None,
            input_mode: false,
            query: Seq::empty(),
            cursor: 0,
            should_quit: false,
            step: 0,
        }
    }

    /// A notice is shown for the time that notices last.
    pub open spec fn notified(self, message: Seq<char>, is_error: bool) -> AppState {
        let timeout_step = (self.step + MESSAGE_TIMEOUT / TICK_INTERVAL) as u64;
        AppState { notifier: Some(Notice { message, is_error, timeout_step }), ..self }
    }

    /// A notice whose time is over goes.
    pub open spec fn without_stale_notice(self) -> AppState {
        match self.notifier {
            Some(notice) if self.step > notice.timeout_step => AppState { notifier: None, ..self },
            _ => self,
        }
    }

    /// A turn is over.
    pub open spec fn turned(self) -> AppState {
        AppState { step: (self.step + 1) as u64, ..self.without_stale_notice() }
    }

    /// The id of the selected exchange.
    pub open spec fn selected_id(self) -> Option<usize> {
        match self.selected_head() {
            Some(head) => Some(head.id),
            None => None,
        }
    }

    /// The list shows the exchanges whose answer in `hits` is true, or all where
    /// there are no answers, and the selection stays on its exchange if that is
    /// among them; else it goes to the first row. Were an id listed more than once,
    /// its first row would be selected in the whole list, its last in a filtered one.
    pub open spec fn searched(self, hits: Option<Seq<bool>>) -> AppState {
        let filtered = match hits {
            None => None,
            Some(hits) => Some(hit_positions(hits)),
        };
        let listed = AppState { filtered, ..self };
        let row = match (self.selected_id(), hits) {
            (Some(id), None) => first_with(listed.shown(), id),
            (Some(id), Some(_)) => last_with(listed.shown(), id),
            (None, _) => None,
        };
        let selected = match row {
            Some(row) => row as usize,
            None => 0,
        };
        AppState { selected, ..listed }
    }

    /// Whether `hits` are the answers of `test_filter` to the words of the query,
    /// one for each exchange. A query without words has none.
    pub open spec fn answered<F: Fn(&TrafficHead, &str) -> bool>(
        self,
        test_filter: F,
        hits: Option<Seq<bool>>,
    ) -> bool {
        let words = words_of(self.query);
        match hits {
            None => words.len() == 0,
            Some(hits) => {
                &&& words.len() > 0
                &&& hits.len() == self.traffics.len()
                &&& forall|i: int|
                    0 <= i < hits.len() ==> answers(
                        test_filter,
                        self.traffics[i],
                        words,
                        #[trigger] hits[i],
                    )
            },
        }
    }

    /// Whether a search with `test_filter` can end in the state `after`: it is the
    /// one that answers of `test_filter` to the words of the query lead to.
    pub open spec fn search_leads_to<F: Fn(&TrafficHead, &str) -> bool>(
        self,
        test_filter: F,
        after: AppState,
    ) -> bool {
        exists|hits: Option<Seq<bool>>| #[trigger]
            self.answered(test_filter, hits) && after == self.searched(hits)
    }

    /// The details of the selected exchange are asked for, to be read from their
    /// start. Without one nothing happens.
    pub open spec fn refetched(self) -> (AppState, Option<Request>) {
        match self.selected_id() {
            Some(id) => (
                AppState { scroll_offset: 0, scroll_size: None, ..self },
                Some(Request::Fetch(id)),
            ),
            None => (self, None),
        }
    }

    /// What copying with an action asks for.
    pub open spec fn copy_request(self, idx: usize) -> Option<Request> {
        match self.selected_id() {
            Some(id) if idx < COPY_ACTIONS@.len() => Some(
                Request::Copy(id, COPY_ACTIONS@[idx as int].1),
            ),
            _ => None,
        }
    }

    /// What exporting with an action asks for.
    pub open spec fn export_request(self, idx: usize) -> Option<Request> {
        if idx < EXPORT_ACTIONS@.len() {
            Some(Request::Export(EXPORT_ACTIONS@[idx as int].1))
        } else {
            None
        }
    }

    /// A message has come. An exchange that is known takes the place of its
    /// earlier state; another is added at the end.
    pub open spec fn received(self, message: Message) -> (AppState, Option<Request>) {
        match message {
            Message::TrafficHead(head) => match first_with(self.traffics, head.id) {
                Some(i) => {
                    let updated = AppState { traffics: self.traffics.update(i, head), ..self };
                    if self.selected == i && self.view is Details {
                        updated.refetched()
                    } else {
                        (updated, None)
                    }
                },
                None => (AppState { traffics: self.traffics.push(head), ..self }, None),
            },
            Message::TrafficDetails(details) => (AppState { traffic: Some(details), ..self }, None),
            Message::Error(error) => (self.notified(error@, true), None),
            Message::Info(info) => (self.notified(info@, false), None),
        }
    }

    /// A key has been pressed while the query is typed; the search follows.
    pub open spec fn typed(self, code: KeyCode, modifiers: u8) -> AppState {
        match code {
            KeyCode::Esc => AppState { input_mode: false, query: Seq::empty(), cursor: 0, ..self },
            KeyCode::Enter => AppState { input_mode: false, ..self },
            _ => {
                let (query, cursor) = edited(self.query, self.cursor, code, modifiers);
                AppState { query, cursor, ..self }
            },
        }
    }

    /// Back: out of the popup, out of the details, or to the question whether to
    /// quit.
    pub open spec fn left(self) -> AppState {
        if self.popup is Some {
            AppState { popup: None, ..self }
        } else {
            match self.view {
                Screen::Main => AppState { confirm: Some(Confirm::Quit), ..self },
                Screen::Details => AppState { traffic: None, view: Screen::Main, ..self },
            }
        }
    }

    /// One row down in the popup or the list, one line down in the details.
    pub open spec fn down(self) -> AppState {
        match self.popup {
            Some(Popup::Copy(idx)) => {
                let idx = next_of(COPY_ACTIONS@.len() as int, idx as int) as usize;
                AppState { popup: Some(Popup::Copy(idx)), ..self }
            },
            Some(Popup::Export(idx)) => {
                let idx = next_of(EXPORT_ACTIONS@.len() as int, idx as int) as usize;
                AppState { popup: Some(Popup::Export(idx)), ..self }
            },
            None => match self.view {
                Screen::Main => self.next_selected(),
                Screen::Details => match self.scroll_size {
                    Some(size) if size > 0 => {
                        let scroll_offset = if self.scroll_offset == size {
                            0
                        } else {
                            (self.scroll_offset + 1) as u16
                        };
                        AppState { scroll_offset, ..self }
                    },
                    _ => self,
                },
            },
        }
    }

    /// One row up in the popup or the list, one line up in the details.
    pub open spec fn up(self) -> AppState {
        match self.popup {
            Some(Popup::Copy(idx)) => {
                let idx = prev_of(COPY_ACTIONS@.len() as int, idx as int) as usize;
                AppState { popup: Some(Popup::Copy(idx)), ..self }
            },
            Some(Popup::Export(idx)) => {
                let idx = prev_of(EXPORT_ACTIONS@.len() as int, idx as int) as usize;
                AppState { popup: Some(Popup::Export(idx)), ..self }
            },
            None => match self.view {
                Screen::Main => AppState {
                    selected: prev_of(self.traffics.len() as int, self.selected as int) as usize,
                    ..self
                },
                Screen::Details => match self.scroll_size {
                    Some(size) if size > 0 => {
                        let scroll_offset = if self.scroll_offset == 0 {
                            size
                        } else {
                            (self.scroll_offset - 1) as u16
                        };
                        AppState { scroll_offset, ..self }
                    },
                    _ => self,
                },
            },
        }
    }

    /// The next row is selected. Rows are counted over all the traffic.
    pub open spec fn next_selected(self) -> AppState {
        AppState {
            selected: next_of(self.traffics.len() as int, self.selected as int) as usize,
            ..self
        }
    }

    /// The action of the popup is run, or the details of the selected row are
    /// opened.
    pub open spec fn entered(self) -> (AppState, Option<Request>) {
        match self.popup {
            Some(Popup::Copy(idx)) => (AppState { popup: None, ..self }, self.copy_request(idx)),
            Some(Popup::Export(idx)) => (
                AppState { popup: None, ..self },
                self.export_request(idx),
            ),
            None => if self.view is Main && self.shown().len() > 0 {
                AppState { view: Screen::Details, ..self }.refetched()
            } else {
                (self, None)
            },
        }
    }

    /// The other tab of the details is opened, to be read from its start.
    pub open spec fn switched(self) -> AppState {
        if self.view is Details {
            let tab = if self.tab == 0 {
                1
            } else {
                0
            };
            AppState { tab, scroll_offset: 0, scroll_size: None, ..self }
        } else {
            self
        }
    }

    /// The details of the next row are opened.
    pub open spec fn advanced(self) -> (AppState, Option<Request>) {
        if self.view is Details {
            self.next_selected().refetched()
        } else {
            (self, None)
        }
    }

    /// The popup with the actions on the selected exchange opens.
    pub open spec fn copying(self) -> AppState {
        if self.popup is Some {
            self
        } else if self.selected_head() is None {
            self.notified("No traffic selected"@, true)
        } else {
            AppState { popup: Some(Popup::Copy(0)), ..self }
        }
    }

    /// The popup with the actions on all traffic opens.
    pub open spec fn exporting(self) -> AppState {
        if self.popup is Some {
            self
        } else if self.traffics.len() == 0 {
            self.notified("No traffics"@, true)
        } else {
            AppState { popup: Some(Popup::Export(0)), ..self }
        }
    }

    /// A key that is refused with a notice: there is nothing to copy or to export.
    pub open spec fn key_notifies(self, code: KeyCode) -> bool {
        &&& self.popup is None
        &&& code == KeyCode::Char('c') && self.selected_head() is None || code == KeyCode::Char('e')
            && self.traffics.len() == 0
    }

    /// A key that scrolls the details down by a line.
    pub open spec fn key_scrolls_down(self, code: KeyCode) -> bool {
        &&& code is Down || code == KeyCode::Char('j')
        &&& self.popup is None
        &&& self.view is Details
        &&& self.scroll_size matches Some(size) && size > 0 && self.scroll_offset != size
    }

    /// What a key counts up has room: the turns for the time of a notice, the offset
    /// of the details for a line.
    pub open spec fn key_fits(self, code: KeyCode) -> bool {
        &&& self.key_notifies(code) ==> self.notice_fits()
        &&& self.key_scrolls_down(code) ==> self.scroll_offset < u16::MAX
    }

    /// What an event counts up has room. Only keys that are pressed while no query is
    /// typed count anything.
    pub open spec fn event_fits(self, event: Event) -> bool {
        match event {
            Event::Key(key) => key.kind is Press && !self.input_mode ==> self.key_fits(key.code),
            Event::Other => true,
        }
    }

    /// A key has been pressed while no query is typed.
    pub open spec fn pressed(self, code: KeyCode) -> (AppState, Option<Request>) {
        match code {
            KeyCode::Esc | KeyCode::Char('q') => (self.left(), None),
            KeyCode::Down | KeyCode::Char('j') => (self.down(), None),
            KeyCode::Up | KeyCode::Char('k') => (self.up(), None),
            KeyCode::Enter => self.entered(),
            KeyCode::Tab | KeyCode::Left | KeyCode::Right => (self.switched(), None),
            KeyCode::Char(' ') => self.advanced(),
            KeyCode::Char('c') => (self.copying(), None),
            KeyCode::Char('e') => (self.exporting(), None),
            KeyCode::Char('/') => if self.view is Main {
                (AppState { input_mode: true, ..self }, None)
            } else {
                (self, None)
            },
            KeyCode::Char('y') => if self.confirm is Some {
                (AppState { should_quit: true, ..self }, None)
            } else {
                (self, None)
            },
            KeyCode::Char('n') => (AppState { confirm: None, ..self }, None),
            _ => (self, None),
        }
    }
}

} // verus!
