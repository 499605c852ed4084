//! The state of the interface and what it does on keys and messages.
use vstd::prelude::*;
use crate::actions::{Message, Request, COPY_ACTIONS, EXPORT_ACTIONS};
use crate::input::{plain_edit, SearchInput};
use crate::key_laws::{
    copies_are_of_the_selected_exchange, copy_formats, exchange_keeps_the_selection,
    export_formats, exports_are_in_the_format_of_the_action,
};
use crate::keys::{Event, KeyCode, KeyEventKind};
use crate::laws::{
    first_is_unique, last_is_unique, pressed_keeps_reachable, pressed_keeps_wf,
    received_keeps_reachable, received_keeps_wf, searched_keeps_settled, searched_keeps_wf,
};
use crate::model::{
    answers, answers_word, first_with, has_id, hit_positions, is_first, AppState, Confirm,
    Notice, Popup, Screen, MESSAGE_TIMEOUT, TICK_INTERVAL,
};
use crate::nav::{next_idx, prev_idx};
use crate::text::{texts, words, words_of};
use crate::traffic::{TrafficDetails, TrafficHead};

verus! {

/// A notice in the footer and the last turn in which it is shown.
#[derive(Debug)]
pub struct Notifier {
    pub message: String,
    pub is_error: bool,
    pub timeout_step: u64,
}

/// The interface.
#[derive(Debug)]
pub struct App {
    pub addr: String,
    pub selected_traffic_index: usize,
    pub traffics: Vec<TrafficHead>,
    pub filtered_traffic_indices: Option<Vec<usize>>,
    pub details_tab_index: usize,
    pub details_scroll_offset: u16,
    pub details_scroll_size: Option<u16>,
    pub current_view: Screen,
    pub current_traffic: Option<TrafficDetails>,
    pub current_popup: Option<Popup>,
    pub current_confirm: Option<Confirm>,
    pub current_notifier: Option<Notifier>,
    pub input_mode: bool,
    pub search_input: SearchInput,
    pub should_quit: bool,
    pub step: u64,
}

/// What a turn of the loop ends with.
#[derive(Clone, Copy, Debug, PartialEq, Eq, Structural)]
pub enum Turn {
    /// The loop ends.
    Quit,
    /// The loop goes on; a new tick begins if the last one is over.
    Continue { new_tick: bool },
}

impl View for App {
    type V = AppState;

    open spec fn view(&self) -> AppState {
        AppState {
            addr: self.addr@,
            selected: self.selected_traffic_index,
            traffics: self.traffics@,
            filtered: match self.filtered_traffic_indices {
                Some(indices) => Some(indices@),
                None => None,
            },
            tab: self.details_tab_index,
            scroll_offset: self.details_scroll_offset,
            scroll_size: self.details_scroll_size,
            view: self.current_view,
            traffic: self.current_traffic,
            popup: self.current_popup,
            confirm: self.current_confirm,
            notifier: match self.current_notifier {
                Some(n) => Some(
                    Notice {
                        message: n.message@,
                        is_error: n.is_error,
                        timeout_step: n.timeout_step,
                    },
                ),
                None => None,
            },
            input_mode: self.input_mode,
            query: self.search_input.value@,
            cursor: self.search_input.cursor,
            should_quit: self.should_quit,
            step: self.step,
        }
    }
}

impl App {
    /// The interface at its start.
    pub fn new(addr: &str) -> (app: App)
        ensures
            app@ == AppState::initial(addr@),
            app@.wf(),
            app@.reachable(),
    {
        let app = App {
            addr: addr.to_owned(),
            selected_traffic_index: 0,
            traffics: Vec::new(),
            filtered_traffic_indices: None,
            details_tab_index: 0,
            details_scroll_offset: 0,
            details_scroll_size: None,
            current_view: Screen::Main,
            current_traffic: None,
            current_popup: None,
            current_confirm: None,
            current_notifier: None,
            input_mode: false,
            search_input: SearchInput::new(),
            should_quit: false,
            step: 0,
        };
        assert(words_of(app@.query).len() == 0) by {
            reveal_with_fuel(Seq::filter, 2);
        }
        app
    }

    /// The position of the first exchange with the id.
    fn find(&self, id: usize) -> (found: Option<usize>)
        ensures
            match found {
                Some(i) => first_with(self@.traffics, id) == Some(i as int) && is_first(
                    self@.traffics,
                    i as int,
                    id,
                ),
                None => first_with(self@.traffics, id) is None,
            },
    {
        let mut i: usize = 0;
        while i < self.traffics.len()
            invariant
                i <= self.traffics@.len(),
                forall|k: int| 0 <= k < i ==> !#[trigger] has_id(self@.traffics, k, id),
            decreases self.traffics@.len() - i,
        {
            if self.traffics[i].id == id {
                proof {
                    first_is_unique(self@.traffics, i as int, id);
                }
                return Some(i);
            }
            i += 1;
        }
        None
    }

    /// The exchanges that the list shows, in order.
    pub fn filtered_traffics(&self) -> (rows: Vec<&TrafficHead>)
        requires
            self@.wf(),
        ensures
            rows@.len() == self@.shown().len(),
            forall|i: int| 0 <= i < rows@.len() ==> *(#[trigger] rows@[i]) == self@.shown()[i],
    {
        let mut rows: Vec<&TrafficHead> = Vec::new();
        let mut i: usize = 0;
        match &self.filtered_traffic_indices {
            Some(indices) => {
                while i < indices.len()
                    invariant
                        self@.wf(),
                        self@.filtered == Some(indices@),
                        i <= indices@.len(),
                        rows@.len() == i,
                        forall|k: int|
                            0 <= k < i ==> *(#[trigger] rows@[k]) == self@.shown()[k],
                    decreases indices@.len() - i,
                {
                    assert((self@.filtered->0)[i as int] < self@.traffics.len());
                    rows.push(&self.traffics[indices[i]]);
                    i += 1;
                }
            },
            None => {
                while i < self.traffics.len()
                    invariant
                        self@.filtered is None,
                        i <= self.traffics@.len(),
                        rows@.len() == i,
                        forall|k: int|
                            0 <= k < i ==> *(#[trigger] rows@[k]) == self@.shown()[k],
                    decreases self.traffics@.len() - i,
                {
                    rows.push(&self.traffics[i]);
                    i += 1;
                }
            },
        }
        rows
    }

    /// The number of rows of the list.
    pub fn shown_len(&self) -> (len: usize)
        ensures
            len == self@.shown().len(),
    {
        match &self.filtered_traffic_indices {
            Some(indices) => indices.len(),
            None => self.traffics.len(),
        }
    }

    /// The exchange in the selected row, if there is such a row.
    pub fn selected_traffic(&self) -> (head: Option<&TrafficHead>)
        requires
            self@.wf(),
        ensures
            match head {
                Some(head) => self@.selected_head() == Some(*head),
                None => self@.selected_head() is None,
            },
    {
        let row = self.selected_traffic_index;
        match &self.filtered_traffic_indices {
            Some(indices) => if row < indices.len() {
                Some(&self.traffics[indices[row]])
            } else {
                None
            },
            None => if row < self.traffics.len() {
                Some(&self.traffics[row])
            } else {
                None
            },
        }
    }

    /// The id of the selected exchange.
    fn selected_id(&self) -> (id: Option<usize>)
        requires
            self@.wf(),
        ensures
            id == self@.selected_id(),
    {
        match self.selected_traffic() {
            Some(head) => Some(head.id),
            None => None,
        }
    }

    /// Shows the exchanges whose answer in `hits` is true, or all without answers,
    /// and keeps the selection on its exchange if that is among them.
    pub fn show_hits(&mut self, hits: Option<Vec<bool>>)
        requires
            old(self)@.wf(),
            hits matches Some(hits) ==> hits@.len() == old(self)@.traffics.len(),
        ensures
            final(self)@ == old(self)@.searched(
                match hits {
                    Some(hits) => Some(hits@),
                    None => None,
                },
            ),
            final(self)@.wf(),
            old(self)@.settled() && old(self)@.view is Main ==> final(self)@.settled(),
    {
        let selected_id = self.selected_id();
        let ghost before = self@;
        let ghost given = match &hits {
            Some(hits) => Some(hits@),
            None => None,
        };
        proof {
            searched_keeps_wf(before, given);
            if before.settled() && before.view is Main {
                searched_keeps_settled(before, given);
            }
        }
        match hits {
            None => {
                self.filtered_traffic_indices = None;
                self.selected_traffic_index = match selected_id {
                    Some(id) => match self.find(id) {
                        Some(i) => i,
                        None => 0,
                    },
                    None => 0,
                };
            },
            Some(hits) => {
                let mut indices: Vec<usize> = Vec::new();
                let mut selected: Option<usize> = None;
                let mut i: usize = 0;
                assert(hits@.take(0) =~= Seq::<bool>::empty());
                while i < hits.len()
                    invariant
                        i <= hits@.len(),
                        hits@.len() == self.traffics@.len(),
                        indices@ == hit_positions(hits@.take(i as int)),
                        indices@.len() <= i,
                        match selected {
                            Some(row) => {
                                &&& row < indices@.len()
                                &&& selected_id == Some(
                                    self.traffics@[indices@[row as int] as int].id,
                                )
                                &&& forall|k: int|
                                    row < k < indices@.len() ==> selected_id != Some(
                                        self.traffics@[(#[trigger] indices@[k]) as int].id,
                                    )
                            },
                            None => forall|k: int|
                                0 <= k < indices@.len() ==> selected_id != Some(
                                    self.traffics@[(#[trigger] indices@[k]) as int].id,
                                ),
                        },
                    decreases hits@.len() - i,
                {
                    assert(hits@.take(i + 1).drop_last() =~= hits@.take(i as int));
                    if hits[i] {
                        if let Some(id) = selected_id {
                            if self.traffics[i].id == id {
                                selected = Some(indices.len());
                            }
                        }
                        indices.push(i);
                    }
                    i += 1;
                }
                assert(hits@.take(i as int) =~= hits@);
                let ghost found = indices@;
                self.filtered_traffic_indices = Some(indices);
                self.selected_traffic_index = match selected {
                    Some(row) => row,
                    None => 0,
                };
                proof {
                    let rows = before.searched(given).shown();
                    if let Some(id) = selected_id {
                        assert forall|k: int| #[trigger] has_id(rows, k, id) implies selected
                            is Some && k <= selected->0 by {
                            assert(selected_id == Some(self.traffics@[found[k] as int].id));
                        }
                        if let Some(row) = selected {
                            assert(has_id(rows, row as int, id));
                            last_is_unique(rows, row as int, id);
                        }
                    }
                }
            },
        }
        assert(self@ =~= before.searched(given));
    }

    /// Whether an exchange fits every word of a query.
    fn fits_all<F: Fn(&TrafficHead, &str) -> bool>(
        head: &TrafficHead,
        query: &Vec<String>,
        test_filter: &F,
    ) -> (hit: bool)
        requires
            forall|head: &TrafficHead, word: &str| call_requires(test_filter, (head, word)),
        ensures
            answers(*test_filter, *head, texts(query@), hit),
    {
        let mut k: usize = 0;
        while k < query.len()
            invariant
                k <= query@.len(),
                forall|head: &TrafficHead, word: &str| call_requires(test_filter, (head, word)),
                forall|j: int|
                    0 <= j < k ==> answers_word(*test_filter, *head, #[trigger] texts(query@)[j], true),
            decreases query@.len() - k,
        {
            let word = query[k].as_str();
            let hit = test_filter(head, word);
            assert(call_ensures(*test_filter, (head, word), hit));
            assert(answers_word(*test_filter, *head, texts(query@)[k as int], hit));
            if !hit {
                return false;
            }
            k += 1;
        }
        true
    }

    /// Filters the list by the words of the query: an exchange stays if
    /// `test_filter` accepts it for every word. The selection stays on its exchange
    /// if that is still shown.
    pub fn search<F: Fn(&TrafficHead, &str) -> bool>(&mut self, test_filter: F)
        requires
            old(self)@.wf(),
            forall|head: &TrafficHead, word: &str| call_requires(test_filter, (head, word)),
        ensures
            old(self)@.search_leads_to(test_filter, final(self)@),
            final(self)@.wf(),
            old(self)@.settled() && old(self)@.view is Main ==> final(self)@.reachable(),
    {
        let query = words(self.search_input.value.as_str());
        assert(texts(query@).len() == query@.len());
        if query.len() == 0 {
            assert(old(self)@.answered(test_filter, None));
            self.show_hits(None);
        } else {
            let mut hits: Vec<bool> = Vec::new();
            let mut i: usize = 0;
            while i < self.traffics.len()
                invariant
                    i <= self.traffics@.len(),
                    hits@.len() == i,
                    forall|head: &TrafficHead, word: &str|
                        call_requires(test_filter, (head, word)),
                    forall|k: int|
                        0 <= k < i ==> answers(
                            test_filter,
                            self.traffics@[k],
                            texts(query@),
                            #[trigger] hits@[k],
                        ),
                decreases self.traffics@.len() - i,
            {
                let hit = Self::fits_all(&self.traffics[i], &query, &test_filter);
                hits.push(hit);
                i += 1;
            }
            assert(old(self)@.answered(test_filter, Some(hits@)));
            self.show_hits(Some(hits));
        }
    }

    /// Asks for the details of the selected exchange, if there is one, and scrolls
    /// them to their start.
    pub fn update_current_traffic(&mut self) -> (request: Option<Request>)
        requires
            old(self)@.wf(),
        ensures
            (final(self)@, request) == old(self)@.refetched(),
            final(self)@.wf(),
            old(self)@.reachable() ==> final(self)@.reachable(),
    {
        match self.selected_id() {
            Some(id) => {
                self.details_scroll_offset = 0;
                self.details_scroll_size = None;
                Some(Request::Fetch(id))
            },
            None => None,
        }
    }

    /// What the action `idx` on the selected exchange asks for.
    pub fn run_copy_command(&self, idx: usize) -> (request: Option<Request>)
        requires
            self@.wf(),
        ensures
            request == self@.copy_request(idx),
            request is Some <==> self@.selected_id() is Some && idx < 5,
            request matches Some(asked) ==> (asked matches Request::Copy(id, format)
                && self@.selected_id() == Some(id) && format@ == copy_formats()[idx as int]),
    {
        proof {
            copies_are_of_the_selected_exchange(self@, idx);
        }
        match self.selected_id() {
            Some(id) => if idx < COPY_ACTIONS.len() {
                Some(Request::Copy(id, COPY_ACTIONS[idx].1))
            } else {
                None
            },
            None => None,
        }
    }

    /// What the action `idx` on all traffic asks for.
    pub fn run_export_command(&self, idx: usize) -> (request: Option<Request>)
        ensures
            request == self@.export_request(idx),
            request is Some <==> idx < 3,
            request matches Some(asked) ==> (asked matches Request::Export(format) && format@
                == export_formats()[idx as int]),
    {
        proof {
            exports_are_in_the_format_of_the_action(self@, idx);
        }
        if idx < EXPORT_ACTIONS.len() {
            Some(Request::Export(EXPORT_ACTIONS[idx].1))
        } else {
            None
        }
    }

    /// Shows a notice in the footer.
    pub fn notify(&mut self, message: &str, is_error: bool)
        requires
            old(self)@.notice_fits(),
        ensures
            final(self)@ == old(self)@.notified(message@, is_error),
            old(self)@.wf() ==> final(self)@.wf(),
            old(self)@.reachable() ==> final(self)@.reachable(),
    {
        let timeout_step = self.step + MESSAGE_TIMEOUT / TICK_INTERVAL;
        self.current_notifier = Some(
            Notifier { message: message.to_owned(), is_error, timeout_step },
        );
    }

    /// Takes a notice away whose time is over.
    pub fn maybe_clear_notifier(&mut self)
        ensures
            final(self)@ == old(self)@.without_stale_notice(),
            old(self)@.wf() ==> final(self)@.wf(),
            old(self)@.reachable() ==> final(self)@.reachable(),
    {
        if let Some(notifier) = &self.current_notifier {
            if self.step > notifier.timeout_step {
                self.current_notifier = None;
            }
        }
    }

    /// Takes a message in.
    pub fn handle_message(&mut self, message: Message) -> (request: Option<Request>)
        requires
            old(self)@.wf(),
            message is Error || message is Info ==> old(self)@.notice_fits(),
        ensures
            (final(self)@, request) == old(self)@.received(message),
            final(self)@.selected == old(self)@.selected,
            old(self)@.selected_id() is Some ==> final(self)@.selected_id()
                == old(self)@.selected_id(),
            final(self)@.wf(),
            old(self)@.reachable() ==> final(self)@.reachable(),
    {
        let ghost before = self@;
        proof {
            if let Message::TrafficHead(head) = &message {
                exchange_keeps_the_selection(before, *head);
            }
        }
        match message {
            Message::TrafficHead(head) => match self.find(head.id) {
                Some(index) => {
                    proof {
                        received_keeps_wf(before, message);
                        if before.reachable() {
                            received_keeps_reachable(before, message);
                        }
                    }
                    self.traffics.set(index, head);
                    if self.selected_traffic_index == index && self.current_view == Screen::Details
                    {
                        self.update_current_traffic()
                    } else {
                        None
                    }
                },
                None => {
                    self.traffics.push(head);
                    proof {
                        assert(self.traffics.len() == self@.traffics.len());
                        received_keeps_wf(before, message);
                        if before.reachable() {
                            received_keeps_reachable(before, message);
                        }
                    }
                    None
                },
            },
            Message::TrafficDetails(details) => {
                self.current_traffic = Some(details);
                None
            },
            Message::Error(error) => {
                self.notify(error.as_str(), true);
                None
            },
            Message::Info(info) => {
                self.notify(info.as_str(), false);
                None
            },
        }
    }

    /// Edits the query with a key, without the search that follows.
    fn edit_query(&mut self, code: KeyCode, modifiers: u8)
        requires
            old(self)@.wf(),
        ensures
            final(self)@ == old(self)@.typed(code, modifiers),
            final(self)@.wf(),
            old(self)@.settled() ==> final(self)@.settled(),
            !(code is Esc) ==> plain_edit(
                old(self)@.query,
                old(self)@.cursor,
                code,
                modifiers,
                final(self)@.query,
                final(self)@.cursor,
            ),
    {
        match code {
            KeyCode::Esc => {
                self.input_mode = false;
                self.search_input.reset();
            },
            KeyCode::Enter => {
                self.input_mode = false;
            },
            _ => {
                self.search_input.press(code, modifiers);
            },
        }
    }

    /// Goes back.
    fn leave(&mut self)
        ensures
            final(self)@ == old(self)@.left(),
    {
        if self.current_popup.is_some() {
            self.current_popup = None;
        } else {
            match self.current_view {
                Screen::Main => {
                    self.current_confirm = Some(Confirm::Quit);
                },
                Screen::Details => {
                    self.current_traffic = None;
                    self.current_view = Screen::Main;
                },
            }
        }
    }

    /// Goes down by one.
    fn move_down(&mut self)
        requires
            old(self)@.key_scrolls_down(KeyCode::Down) ==> old(self)@.scroll_offset < u16::MAX,
        ensures
            final(self)@ == old(self)@.down(),
    {
        match self.current_popup {
            Some(Popup::Copy(idx)) => {
                self.current_popup = Some(Popup::Copy(next_idx(COPY_ACTIONS.len(), idx)));
            },
            Some(Popup::Export(idx)) => {
                self.current_popup = Some(Popup::Export(next_idx(EXPORT_ACTIONS.len(), idx)));
            },
            None => match self.current_view {
                Screen::Main => {
                    self.selected_traffic_index =
                    next_idx(self.traffics.len(), self.selected_traffic_index);
                },
                Screen::Details => {
                    if let Some(size) = self.details_scroll_size {
                        if size > 0 {
                            if self.details_scroll_offset == size {
                                self.details_scroll_offset = 0;
                            } else {
                                self.details_scroll_offset += 1;
                            }
                        }
                    }
                },
            },
        }
    }

    /// Goes up by one.
    fn move_up(&mut self)
        ensures
            final(self)@ == old(self)@.up(),
    {
        match self.current_popup {
            Some(Popup::Copy(idx)) => {
                self.current_popup = Some(Popup::Copy(prev_idx(COPY_ACTIONS.len(), idx)));
            },
            Some(Popup::Export(idx)) => {
                self.current_popup = Some(Popup::Export(prev_idx(EXPORT_ACTIONS.len(), idx)));
            },
            None => match self.current_view {
                Screen::Main => {
                    self.selected_traffic_index =
                    prev_idx(self.traffics.len(), self.selected_traffic_index);
                },
                Screen::Details => {
                    if let Some(size) = self.details_scroll_size {
                        if size > 0 {
                            if self.details_scroll_offset == 0 {
                                self.details_scroll_offset = size;
                            } else {
                                self.details_scroll_offset -= 1;
                            }
                        }
                    }
                },
            },
        }
    }

    /// Runs the action of the popup or opens the details.
    fn enter(&mut self) -> (request: Option<Request>)
        requires
            old(self)@.wf(),
        ensures
            (final(self)@, request) == old(self)@.entered(),
    {
        match self.current_popup {
            Some(popup) => {
                let request = match popup {
                    Popup::Copy(idx) => self.run_copy_command(idx),
                    Popup::Export(idx) => self.run_export_command(idx),
                };
                self.current_popup = None;
                request
            },
            None => if self.current_view == Screen::Main && self.shown_len() > 0 {
                self.current_view = Screen::Details;
                self.update_current_traffic()
            } else {
                None
            },
        }
    }

    /// Does what a key asks for that is pressed while no query is typed.
    pub fn press_key(&mut self, code: KeyCode) -> (request: Option<Request>)
        requires
            old(self)@.wf(),
            old(self)@.key_fits(code),
        ensures
            (final(self)@, request) == old(self)@.pressed(code),
            final(self)@.wf(),
            old(self)@.reachable() && !old(self)@.input_mode ==> final(self)@.reachable(),
    {
        proof {
            pressed_keeps_wf(self@, code);
            if self@.reachable() && !self@.input_mode {
                pressed_keeps_reachable(self@, code);
            }
        }
        match code {
            KeyCode::Esc | KeyCode::Char('q') => {
                self.leave();
                None
            },
            KeyCode::Down | KeyCode::Char('j') => {
                self.move_down();
                None
            },
            KeyCode::Up | KeyCode::Char('k') => {
                self.move_up();
                None
            },
            KeyCode::Enter => self.enter(),
            KeyCode::Tab | KeyCode::Left | KeyCode::Right => {
                if self.current_view == Screen::Details {
                    if self.details_tab_index == 0 {
                        self.details_tab_index = 1;
                    } else {
                        self.details_tab_index = 0;
                    }
                    self.details_scroll_offset = 0;
                    self.details_scroll_size = None;
                }
                None
            },
            KeyCode::Char(' ') => if self.current_view == Screen::Details {
                self.selected_traffic_index =
                next_idx(self.traffics.len(), self.selected_traffic_index);
                self.update_current_traffic()
            } else {
                None
            },
            KeyCode::Char('c') => {
                if self.current_popup.is_none() {
                    if self.selected_traffic().is_none() {
                        self.notify("No traffic selected", true);
                    } else {
                        self.current_popup = Some(Popup::Copy(0));
                    }
                }
                None
            },
            KeyCode::Char('e') => {
                if self.current_popup.is_none() {
                    if self.traffics.len() == 0 {
                        self.notify("No traffics", true);
                    } else {
                        self.current_popup = Some(Popup::Export(0));
                    }
                }
                None
            },
            KeyCode::Char('/') => {
                if self.current_view == Screen::Main {
                    self.input_mode = true;
                }
                None
            },
            KeyCode::Char('y') => {
                if self.current_confirm.is_some() {
                    self.should_quit = true;
                }
                None
            },
            KeyCode::Char('n') => {
                self.current_confirm = None;
                None
            },
            _ => None,
        }
    }

    /// Whether what an event counts up has room.
    pub fn can_handle(&self, event: Event) -> (can: bool)
        requires
            self@.wf(),
        ensures
            can == self@.event_fits(event),
    {
        let code = match event {
            Event::Key(key) => if key.kind == KeyEventKind::Press && !self.input_mode {
                key.code
            } else {
                return true;
            },
            Event::Other => return true,
        };
        if self.current_popup.is_some() {
            return true;
        }
        let notice_fits = self.step <= u64::MAX - MESSAGE_TIMEOUT / TICK_INTERVAL;
        match code {
            KeyCode::Char('c') => notice_fits || self.selected_traffic().is_some(),
            KeyCode::Char('e') => notice_fits || self.traffics.len() > 0,
            KeyCode::Down | KeyCode::Char('j') => match (
                self.current_view,
                self.details_scroll_size,
            ) {
                (Screen::Details, Some(size)) => size == 0 || self.details_scroll_offset == size
                    || self.details_scroll_offset < u16::MAX,
                _ => true,
            },
            _ => true,
        }
    }

    /// Handles an event of the terminal. Only keys that are pressed count; they
    /// edit the query while it is typed, which searches anew, and steer the
    /// interface else. `test_filter` tells whether an exchange fits a word.
    pub fn handle_events<F: Fn(&TrafficHead, &str) -> bool>(
        &mut self,
        event: Event,
        test_filter: F,
    ) -> (request: Option<Request>)
        requires
            old(self)@.wf(),
            old(self)@.event_fits(event),
            forall|head: &TrafficHead, word: &str| call_requires(test_filter, (head, word)),
        ensures
            final(self)@.wf(),
            old(self)@.reachable() ==> final(self)@.reachable(),
            match event {
                Event::Key(key) if key.kind is Press => if old(self)@.input_mode {
                    &&& request is None
                    &&& old(self)@.typed(key.code, key.modifiers).search_leads_to(
                        test_filter,
                        final(self)@,
                    )
                    &&& !(key.code is Esc) ==> plain_edit(
                        old(self)@.query,
                        old(self)@.cursor,
                        key.code,
                        key.modifiers,
                        final(self)@.query,
                        final(self)@.cursor,
                    )
                } else {
                    (final(self)@, request) == old(self)@.pressed(key.code)
                },
                _ => final(self)@ == old(self)@ && request is None,
            },
    {
        match event {
            Event::Key(key) => {
                if key.kind != KeyEventKind::Press {
                    return None;
                }
                if self.input_mode {
                    self.edit_query(key.code, key.modifiers);
                    self.search(test_filter);
                    None
                } else {
                    self.press_key(key.code)
                }
            },
            Event::Other => None,
        }
    }

    /// How long to wait for an event, in nanoseconds, so long after the tick began.
    pub fn poll_timeout(elapsed: u128) -> (timeout: u64)
        ensures
            timeout == if elapsed <= TICK_INTERVAL * 1_000_000 {
                TICK_INTERVAL * 1_000_000 - elapsed
            } else {
                0
            },
            elapsed <= 250_000_000 ==> elapsed + timeout == 250_000_000,
    {
        let tick: u64 = TICK_INTERVAL * 1_000_000;
        if elapsed <= tick as u128 {
            tick - elapsed as u64
        } else {
            0
        }
    }

    /// Ends a turn of the loop, so many nanoseconds after the tick began.
    pub fn finish_turn(&mut self, elapsed: u128) -> (turn: Turn)
        requires
            old(self)@.step < u64::MAX,
        ensures
            old(self)@.should_quit ==> turn is Quit && final(self)@ == old(self)@,
            !old(self)@.should_quit ==> turn == (Turn::Continue {
                new_tick: elapsed >= TICK_INTERVAL * 1_000_000,
            }) && final(self)@ == old(self)@.turned(),
            turn matches Turn::Continue { new_tick } ==> (new_tick <==> elapsed >= 250_000_000),
            old(self)@.wf() ==> final(self)@.wf(),
            old(self)@.reachable() ==> final(self)@.reachable(),
    {
        if self.should_quit {
            return Turn::Quit;
        }
        let tick: u64 = TICK_INTERVAL * 1_000_000;
        self.maybe_clear_notifier();
        self.step += 1;
        Turn::Continue { new_tick: elapsed >= tick as u128 }
    }
}

} // verus!
