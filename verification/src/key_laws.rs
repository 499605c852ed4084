//! What each key, message and turn does, and what it leaves alone.
use vstd::prelude::*;
use crate::actions::{
    extension_of, Message, Request, COPY_ACTIONS, EXPORT_ACTIONS, EXPORT_ALL_TRAFFICS,
};
use crate::app::App;
use crate::input::edited;
use crate::keys::{Event, KeyCode};
use crate::laws::{first_exists, is_first_of, turned_many};
use crate::model::{first_with, has_id, is_first, AppState, Confirm, Notice, Popup, Screen};
use crate::traffic::{TrafficDetails, TrafficHead};

verus! {

/// The state of an interface is made of its fields.
pub proof fn state_is_made_of_the_fields(app: App)
    ensures
        app@.addr == app.addr@,
        app@.selected == app.selected_traffic_index,
        app@.traffics == app.traffics@,
        app.filtered_traffic_indices is None <==> app@.filtered is None,
        app.filtered_traffic_indices matches Some(indices) ==> app@.filtered == Some(indices@),
        app@.tab == app.details_tab_index,
        app@.scroll_offset == app.details_scroll_offset,
        app@.scroll_size == app.details_scroll_size,
        app@.view == app.current_view,
        app@.traffic == app.current_traffic,
        app@.popup == app.current_popup,
        app@.confirm == app.current_confirm,
        app.current_notifier is None <==> app@.notifier is None,
        app.current_notifier matches Some(n) ==> app@.notifier == Some(
            (Notice { message: n.message@, is_error: n.is_error, timeout_step: n.timeout_step }),
        ),
        app@.input_mode == app.input_mode,
        app@.query == app.search_input.value@,
        app@.cursor == app.search_input.cursor,
        app@.should_quit == app.should_quit,
        app@.step == app.step,
{
}

/// At the start nothing is recorded, opened, asked, told or typed.
pub proof fn nothing_is_there_at_the_start(addr: Seq<char>)
    ensures
        ({
            let s = AppState::initial(addr);
            &&& s.addr == addr
            &&& s.traffics.len() == 0 && s.filtered is None && s.selected == 0
            &&& s.view is Main && s.traffic is None && s.tab == 0
            &&& s.scroll_offset == 0 && s.scroll_size is None
            &&& s.popup is None && s.confirm is None && s.notifier is None
            &&& !s.input_mode && s.query.len() == 0 && s.cursor == 0
            &&& !s.should_quit && s.step == 0
        }),
{
}

/// The list shows all exchanges, or those at the positions that a search left, in
/// this order; the selected exchange is the one in the selected row, if that row is
/// there.
pub proof fn list_shows_the_positions(s: AppState)
    ensures
        s.filtered is None ==> s.shown() == s.traffics,
        s.filtered matches Some(filtered) ==> s.shown().len() == filtered.len() && forall|i: int|
            0 <= i < filtered.len() ==> #[trigger] s.shown()[i] == s.traffics[filtered[i] as int],
        s.selected_head() is Some <==> s.selected < s.shown().len(),
        s.selected_id() is Some <==> s.selected < s.shown().len(),
        s.selected < s.shown().len() ==> s.selected_head() == Some(s.shown()[s.selected as int])
            && s.selected_id() == Some(s.shown()[s.selected as int].id),
{
}

/// Keys that have two names do the same under both.
pub proof fn keys_have_second_names(s: AppState)
    ensures
        s.pressed(KeyCode::Char('q')) == s.pressed(KeyCode::Esc),
        s.pressed(KeyCode::Char('j')) == s.pressed(KeyCode::Down),
        s.pressed(KeyCode::Char('k')) == s.pressed(KeyCode::Up),
        s.pressed(KeyCode::Left) == s.pressed(KeyCode::Tab),
        s.pressed(KeyCode::Right) == s.pressed(KeyCode::Tab),
{
}

/// Every other key does nothing.
pub proof fn other_keys_do_nothing(s: AppState, code: KeyCode)
    requires
        !(code is Esc || code is Enter || code is Down || code is Up || code is Tab || code is Left
            || code is Right),
        code matches KeyCode::Char(c) ==> !seq!['q', 'j', 'k', ' ', 'c', 'e', '/', 'y', 'n']
            .contains(c),
    ensures
        s.pressed(code) == (s, None::<Request>),
{
    let bound = seq!['q', 'j', 'k', ' ', 'c', 'e', '/', 'y', 'n'];
    assert(bound[0] == 'q' && bound[1] == 'j' && bound[2] == 'k' && bound[3] == ' ' && bound[4]
        == 'c' && bound[5] == 'e' && bound[6] == '/' && bound[7] == 'y' && bound[8] == 'n');
    assert(bound.contains('q') && bound.contains('j') && bound.contains('k') && bound.contains(' ')
        && bound.contains('c') && bound.contains('e') && bound.contains('/') && bound.contains('y')
        && bound.contains('n'));
}

/// Going back closes the popup; without one it leaves the details and forgets them,
/// and on the main screen it asks whether to quit. It changes nothing else.
pub proof fn going_back_closes_one_thing(s: AppState)
    ensures
        s.pressed(KeyCode::Esc).1 is None,
        s.popup is Some ==> s.pressed(KeyCode::Esc).0 == (AppState { popup: None, ..s }),
        s.popup is None && s.view is Details ==> s.pressed(KeyCode::Esc).0 == (AppState {
            view: Screen::Main,
            traffic: None,
            ..s
        }),
        s.popup is None && s.view is Main ==> s.pressed(KeyCode::Esc).0 == (AppState {
            confirm: Some(Confirm::Quit),
            ..s
        }),
{
}

/// In the popups, of five and of three rows, steps down and up go round, and change
/// only the row.
pub proof fn popup_rows_go_round(s: AppState, idx: usize)
    ensures
        s.popup == Some(Popup::Copy(idx)) && idx < 5 ==> {
            &&& s.pressed(KeyCode::Down) == (
                AppState { popup: Some(Popup::Copy(((idx + 1) % 5) as usize)), ..s },
                None::<Request>,
            )
            &&& s.pressed(KeyCode::Up) == (
                AppState { popup: Some(Popup::Copy(((idx + 4) % 5) as usize)), ..s },
                None::<Request>,
            )
        },
        s.popup == Some(Popup::Export(idx)) && idx < 3 ==> {
            &&& s.pressed(KeyCode::Down) == (
                AppState { popup: Some(Popup::Export(((idx + 1) % 3) as usize)), ..s },
                None::<Request>,
            )
            &&& s.pressed(KeyCode::Up) == (
                AppState { popup: Some(Popup::Export(((idx + 2) % 3) as usize)), ..s },
                None::<Request>,
            )
        },
{
    assert(COPY_ACTIONS@.len() == 5);
    assert(EXPORT_ACTIONS@.len() == 3);
}

/// On the main screen steps down and up go round over all the traffic, and change
/// only the selected row. Where that row is not there, a step down goes to the first
/// row and a step up to the row before.
pub proof fn list_rows_go_round(s: AppState)
    requires
        s.wf(),
        s.popup is None,
        s.view is Main,
    ensures
        ({
            let len = s.traffics.len() as int;
            let (down, asked_down) = s.pressed(KeyCode::Down);
            let (up, asked_up) = s.pressed(KeyCode::Up);
            &&& asked_down is None && down == (AppState { selected: down.selected, ..s })
            &&& asked_up is None && up == (AppState { selected: up.selected, ..s })
            &&& s.selected < len ==> down.selected == (s.selected + 1) % len && up.selected == (
            s.selected + len - 1) % len
            &&& s.selected >= len ==> down.selected == 0 && (s.selected > 0 ==> up.selected
                == s.selected - 1) && (s.selected == 0 ==> up.selected == 0)
        }),
{
    let len = s.traffics.len() as int;
    if s.selected < len {
        if s.selected + 1 < len {
            vstd::arithmetic::div_mod::lemma_small_mod((s.selected + 1) as nat, len as nat);
        } else {
            vstd::arithmetic::div_mod::lemma_mod_self_0(len);
        }
        if s.selected > 0 {
            vstd::arithmetic::div_mod::lemma_mod_add_multiples_vanish(s.selected - 1, len);
            vstd::arithmetic::div_mod::lemma_small_mod((s.selected - 1) as nat, len as nat);
        } else {
            vstd::arithmetic::div_mod::lemma_small_mod((len - 1) as nat, len as nat);
        }
    }
}

/// In the details steps down and up scroll by one line and go round over the lines
/// that can be scrolled to, and change only the offset. Details that fit, or that
/// have not been measured, do not scroll.
pub proof fn details_scroll_by_one_line(s: AppState)
    requires
        s.popup is None,
        s.view is Details,
    ensures
        ({
            let (down, asked_down) = s.pressed(KeyCode::Down);
            let (up, asked_up) = s.pressed(KeyCode::Up);
            &&& asked_down is None && down == (AppState { scroll_offset: down.scroll_offset, ..s })
            &&& asked_up is None && up == (AppState { scroll_offset: up.scroll_offset, ..s })
            &&& s.scroll_size is None || s.scroll_size == Some(0u16) ==> down == s && up == s
            &&& s.scroll_size matches Some(size) ==> size > 0 && s.scroll_offset <= size ==> {
                &&& s.scroll_offset < size ==> down.scroll_offset == s.scroll_offset + 1
                &&& s.scroll_offset == size ==> down.scroll_offset == 0
                &&& s.scroll_offset > 0 ==> up.scroll_offset == s.scroll_offset - 1
                &&& s.scroll_offset == 0 ==> up.scroll_offset == size
            }
            &&& s.scroll_size matches Some(size) ==> 0 < size < s.scroll_offset < u16::MAX ==> {
                &&& down.scroll_offset == s.scroll_offset + 1
                &&& up.scroll_offset == s.scroll_offset - 1
            }
        }),
{
}

/// The formats of the actions on one exchange, by their rows.
pub open spec fn copy_formats() -> Seq<Seq<char>> {
    seq!["markdown"@, "curl"@, "har"@, "req-body"@, "res-body"@]
}

/// The formats of the actions on all traffic, by their rows.
pub open spec fn export_formats() -> Seq<Seq<char>> {
    seq!["markdown"@, "curl"@, "har"@]
}

/// A copy is asked for exactly if an exchange is selected and the action is one of the
/// five: of that exchange, in the format of that action.
pub proof fn copies_are_of_the_selected_exchange(s: AppState, idx: usize)
    ensures
        s.copy_request(idx) is Some <==> s.selected < s.shown().len() && idx < 5,
        s.copy_request(idx) matches Some(asked) ==> (asked matches Request::Copy(id, format) && {
            &&& id == s.shown()[s.selected as int].id
            &&& idx == 0 ==> format@ == "markdown"@
            &&& idx == 1 ==> format@ == "curl"@
            &&& idx == 2 ==> format@ == "har"@
            &&& idx == 3 ==> format@ == "req-body"@
            &&& idx == 4 ==> format@ == "res-body"@
            &&& format@ == copy_formats()[idx as int]
        }),
{
    assert(COPY_ACTIONS@.len() == 5);
}

/// An export is asked for exactly if the action is one of the three, in the format of
/// that action.
pub proof fn exports_are_in_the_format_of_the_action(s: AppState, idx: usize)
    ensures
        s.export_request(idx) is Some <==> idx < 3,
        s.export_request(idx) matches Some(asked) ==> (asked matches Request::Export(format) && {
            &&& idx == 0 ==> format@ == "markdown"@
            &&& idx == 1 ==> format@ == "curl"@
            &&& idx == 2 ==> format@ == "har"@
            &&& format@ == export_formats()[idx as int]
        }),
{
    assert(EXPORT_ACTIONS@.len() == 3);
}

/// Enter in a popup closes it and changes nothing else. It asks for the selected
/// exchange, or for all traffic, in the format of the highlighted row, and for nothing
/// where there is no such exchange or row.
pub proof fn enter_asks_for_the_highlighted_row(s: AppState, idx: usize)
    ensures
        s.popup is Some ==> s.pressed(KeyCode::Enter).0 == (AppState { popup: None, ..s }),
        s.popup == Some(Popup::Copy(idx)) ==> {
            let asked = s.pressed(KeyCode::Enter).1;
            &&& asked is Some <==> s.selected < s.shown().len() && idx < 5
            &&& asked matches Some(asked) ==> (asked matches Request::Copy(id, format) && id
                == s.shown()[s.selected as int].id && format@ == copy_formats()[idx as int])
        },
        s.popup == Some(Popup::Export(idx)) ==> {
            let asked = s.pressed(KeyCode::Enter).1;
            &&& asked is Some <==> idx < 3
            &&& asked matches Some(asked) ==> (asked matches Request::Export(format) && format@
                == export_formats()[idx as int])
        },
{
    copies_are_of_the_selected_exchange(s, idx);
    exports_are_in_the_format_of_the_action(s, idx);
}

/// The formats of two different rows differ, so a request tells which row it came from.
pub proof fn formats_tell_the_rows_apart(i: int, j: int)
    ensures
        0 <= i < j < 5 ==> copy_formats()[i] != copy_formats()[j],
        0 <= i < j < 3 ==> export_formats()[i] != export_formats()[j],
{
    reveal_strlit("markdown");
    reveal_strlit("curl");
    reveal_strlit("har");
    reveal_strlit("req-body");
    reveal_strlit("res-body");
    assert("markdown"@.len() == 8 && "markdown"@[0] == 'm');
    assert("curl"@.len() == 4);
    assert("har"@.len() == 3);
    assert("req-body"@[2] == 'q' && "req-body"@[0] == 'r');
    assert("res-body"@[2] == 's' && "res-body"@[0] == 'r');
}

/// The details of the selected row are asked for by the id in it, to be read from their
/// start; where that row is not there nothing happens.
pub proof fn details_are_asked_for_by_id(s: AppState)
    ensures
        s.selected < s.shown().len() ==> s.refetched() == (
            AppState { scroll_offset: 0, scroll_size: None, ..s },
            Some(Request::Fetch(s.shown()[s.selected as int].id)),
        ),
        s.selected >= s.shown().len() ==> s.refetched() == (s, None::<Request>),
{
}

/// An export goes to a file whose name tells the format by its extension.
pub proof fn export_files_tell_their_formats(format: Seq<char>)
    ensures
        EXPORT_ALL_TRAFFICS@ == "proxyfor_all_traffics"@,
        format == "markdown"@ <==> extension_of(format) == ".md"@,
        format == "curl"@ <==> extension_of(format) == ".sh"@,
        format == "har"@ <==> extension_of(format) == ".har"@,
        !export_formats().contains(format) ==> extension_of(format) == ".txt"@,
{
    reveal_strlit("markdown");
    reveal_strlit("curl");
    reveal_strlit("har");
    reveal_strlit(".md");
    reveal_strlit(".sh");
    reveal_strlit(".har");
    reveal_strlit(".txt");
    assert("markdown"@.len() == 8 && "curl"@.len() == 4 && "har"@.len() == 3);
    assert(".md"@[1] == 'm' && ".sh"@[1] == 's' && ".har"@[1] == 'h' && ".txt"@[1] == 't');
    assert(export_formats()[0] == "markdown"@ && export_formats()[1] == "curl"@
        && export_formats()[2] == "har"@);
}

/// Enter on the main screen opens the details of the selected row, to be read from
/// their start, and asks for them. With nothing listed, or in the details, it does
/// nothing.
pub proof fn enter_opens_the_selected_row(s: AppState)
    requires
        s.popup is None,
    ensures
        s.view is Details || s.shown().len() == 0 ==> s.pressed(KeyCode::Enter) == (
            s,
            None::<Request>,
        ),
        s.view is Main && s.selected < s.shown().len() ==> s.pressed(KeyCode::Enter) == (
            AppState { view: Screen::Details, scroll_offset: 0, scroll_size: None, ..s },
            Some(Request::Fetch(s.shown()[s.selected as int].id)),
        ),
        s.view is Main && 0 < s.shown().len() <= s.selected ==> s.pressed(KeyCode::Enter) == (
            AppState { view: Screen::Details, ..s },
            None::<Request>,
        ),
{
}

/// Space opens the next row in the details, counted over all the traffic, and asks
/// for it if the list has that row. On the main screen it does nothing.
pub proof fn space_opens_the_next_row(s: AppState)
    requires
        s.wf(),
    ensures
        s.view is Main ==> s.pressed(KeyCode::Char(' ')) == (s, None::<Request>),
        s.view is Details ==> {
            let row = if s.selected + 1 < s.traffics.len() {
                (s.selected + 1) as usize
            } else {
                0
            };
            if row < s.shown().len() {
                s.pressed(KeyCode::Char(' ')) == (
                    AppState { selected: row, scroll_offset: 0, scroll_size: None, ..s },
                    Some(Request::Fetch(s.shown()[row as int].id)),
                )
            } else {
                s.pressed(KeyCode::Char(' ')) == (AppState { selected: row, ..s }, None::<Request>)
            }
        },
{
    assert(s.next_selected().shown() =~= s.shown());
}

/// Tab opens the other tab of the details, to be read from its start, and changes
/// nothing else. On the main screen it does nothing.
pub proof fn tab_opens_the_other_tab(s: AppState)
    ensures
        s.view is Main ==> s.pressed(KeyCode::Tab) == (s, None::<Request>),
        s.view is Details ==> s.pressed(KeyCode::Tab) == (
            AppState {
                tab: if s.tab == 0 {
                    1
                } else {
                    0
                },
                scroll_offset: 0,
                scroll_size: None,
                ..s
            },
            None::<Request>,
        ),
{
}

/// `c` opens the actions on the selected exchange, the first of them highlighted;
/// without a selected exchange it says so, as an error. Under a popup it does nothing.
pub proof fn c_opens_the_copy_popup(s: AppState)
    requires
        s.step + 20 <= u64::MAX,
    ensures
        s.popup is Some ==> s.pressed(KeyCode::Char('c')) == (s, None::<Request>),
        s.popup is None && s.selected < s.shown().len() ==> s.pressed(KeyCode::Char('c')) == (
            AppState { popup: Some(Popup::Copy(0)), ..s },
            None::<Request>,
        ),
        s.popup is None && s.selected >= s.shown().len() ==> s.pressed(KeyCode::Char('c')) == (
            AppState {
                notifier: Some(
                    Notice {
                        message: "No traffic selected"@,
                        is_error: true,
                        timeout_step: (s.step + 20) as u64,
                    },
                ),
                ..s
            },
            None::<Request>,
        ),
{
}

/// `e` opens the actions on all traffic, the first of them highlighted; without any
/// it says so, as an error. Under a popup it does nothing.
pub proof fn e_opens_the_export_popup(s: AppState)
    requires
        s.step + 20 <= u64::MAX,
    ensures
        s.popup is Some ==> s.pressed(KeyCode::Char('e')) == (s, None::<Request>),
        s.popup is None && s.traffics.len() > 0 ==> s.pressed(KeyCode::Char('e')) == (
            AppState { popup: Some(Popup::Export(0)), ..s },
            None::<Request>,
        ),
        s.popup is None && s.traffics.len() == 0 ==> s.pressed(KeyCode::Char('e')) == (
            AppState {
                notifier: Some(
                    Notice {
                        message: "No traffics"@,
                        is_error: true,
                        timeout_step: (s.step + 20) as u64,
                    },
                ),
                ..s
            },
            None::<Request>,
        ),
{
}

/// The slash starts to type a query on the main screen, and keeps what was typed;
/// `y` quits where that was asked, and `n` takes the question back. Nothing else
/// changes.
pub proof fn slash_and_answers(s: AppState)
    ensures
        s.view is Main ==> s.pressed(KeyCode::Char('/')) == (
            AppState { input_mode: true, ..s },
            None::<Request>,
        ),
        s.view is Details ==> s.pressed(KeyCode::Char('/')) == (s, None::<Request>),
        s.confirm is Some ==> s.pressed(KeyCode::Char('y')) == (
            AppState { should_quit: true, ..s },
            None::<Request>,
        ),
        s.confirm is None ==> s.pressed(KeyCode::Char('y')) == (s, None::<Request>),
        s.pressed(KeyCode::Char('n')) == (AppState { confirm: None, ..s }, None::<Request>),
{
}

/// No key records, forgets or filters exchanges, edits the query, counts turns or
/// brings details: those come from messages, from typing and from turns alone.
pub proof fn keys_leave_the_record_alone(s: AppState, code: KeyCode)
    ensures
        ({
            let after = s.pressed(code).0;
            &&& after.addr == s.addr && after.traffics == s.traffics && after.filtered == s.filtered
            &&& after.query == s.query && after.cursor == s.cursor && after.step == s.step
            &&& after.traffic == s.traffic || after.traffic is None
            &&& after.shown() == s.shown()
        }),
{
    assert(s.pressed(code).0.shown() =~= s.shown());
}

/// While the query is typed, escape empties it and ends typing, enter ends typing,
/// and every other key edits the line. Nothing else changes before the search.
pub proof fn typing_edits_the_query_only(s: AppState, code: KeyCode, modifiers: u8)
    ensures
        code is Esc ==> s.typed(code, modifiers) == (AppState {
            input_mode: false,
            query: Seq::empty(),
            cursor: 0,
            ..s
        }),
        code is Enter ==> s.typed(code, modifiers) == (AppState { input_mode: false, ..s }),
        !(code is Esc || code is Enter) ==> s.typed(code, modifiers) == (AppState {
            query: edited(s.query, s.cursor, code, modifiers).0,
            cursor: edited(s.query, s.cursor, code, modifiers).1,
            ..s
        }),
{
}

/// A message with an exchange never moves the selection: the selected row stays, and
/// so does the id of the exchange in it. Besides the record only the position in
/// details that are read anew changes.
pub proof fn exchange_keeps_the_selection(s: AppState, head: TrafficHead)
    requires
        s.wf(),
    ensures
        ({
            let (after, asked) = s.received(Message::TrafficHead(head));
            &&& after.selected == s.selected
            &&& s.selected_id() is Some ==> after.selected_id() == s.selected_id()
            &&& after == (AppState {
                traffics: after.traffics,
                scroll_offset: after.scroll_offset,
                scroll_size: after.scroll_size,
                ..s
            })
            &&& asked is None ==> after == (AppState { traffics: after.traffics, ..s })
        }),
{
    let after = s.received(Message::TrafficHead(head)).0;
    match first_with(s.traffics, head.id) {
        Some(p) => {
            assert(is_first(s.traffics, p, head.id));
        },
        None => {},
    }
    if s.selected_id() is Some {
        let row = s.selected as int;
        match s.filtered {
            Some(filtered) => {
                assert(filtered[row] < s.traffics.len());
                assert(after.traffics[filtered[row] as int].id == s.traffics[filtered[row] as int].id);
            },
            None => {
                assert(after.traffics[row].id == s.traffics[row].id);
            },
        }
    }
}

/// A known exchange takes the place of its earlier state, every other stays as it
/// is, and a new one comes last.
pub proof fn exchange_takes_its_place(s: AppState, head: TrafficHead, p: int)
    requires
        s.wf(),
    ensures
        is_first_of(s.traffics, p, head.id) ==> {
            let after = s.received(Message::TrafficHead(head)).0.traffics;
            &&& after.len() == s.traffics.len()
            &&& forall|i: int| 0 <= i < after.len() ==> #[trigger] after[i] == if i == p {
                head
            } else {
                s.traffics[i]
            }
        },
        (forall|i: int| 0 <= i < s.traffics.len() ==> (#[trigger] s.traffics[i]).id != head.id)
            ==> s.received(Message::TrafficHead(head)).0.traffics == s.traffics.push(head),
{
    if is_first_of(s.traffics, p, head.id) {
        assert(has_id(s.traffics, p, head.id));
        assert(is_first(s.traffics, p, head.id));
        crate::laws::first_is_unique(s.traffics, p, head.id);
    }
    if first_with(s.traffics, head.id) is Some {
        assert(is_first(s.traffics, first_with(s.traffics, head.id)->0, head.id));
    }
}

/// Details are read anew exactly if they are open and the exchange whose position in
/// the record is the selected row has changed; then they are asked for by the
/// selected id, and read from their start.
pub proof fn open_details_are_read_anew(s: AppState, head: TrafficHead)
    requires
        s.wf(),
    ensures
        ({
            let (after, asked) = s.received(Message::TrafficHead(head));
            let changed = s.view is Details && is_first_of(
                s.traffics,
                s.selected as int,
                head.id,
            ) && s.selected < s.shown().len();
            &&& changed ==> asked == Some(Request::Fetch(s.shown()[s.selected as int].id))
                && after.scroll_offset == 0 && after.scroll_size is None
            &&& !changed ==> asked is None
        }),
{
    exchange_keeps_the_selection(s, head);
    let row = s.selected as int;
    let after = s.received(Message::TrafficHead(head)).0;
    assert(after.shown().len() == s.shown().len() || first_with(s.traffics, head.id) is None);
    match first_with(s.traffics, head.id) {
        Some(p) => {
            assert(is_first(s.traffics, p, head.id));
            if is_first_of(s.traffics, row, head.id) {
                assert(has_id(s.traffics, row, head.id));
                crate::laws::first_is_unique(s.traffics, row, head.id);
            } else {
                assert forall|j: int| 0 <= j < p implies (#[trigger] s.traffics[j]).id
                    != head.id by {
                    assert(!has_id(s.traffics, j, head.id));
                }
                assert(is_first_of(s.traffics, p, head.id));
            }
        },
        None => {
            if is_first_of(s.traffics, row, head.id) {
                assert(has_id(s.traffics, row, head.id));
                first_exists(s.traffics, row, head.id);
            }
        },
    }
}

/// Details that come are kept, and change nothing else.
pub proof fn details_are_kept(s: AppState, details: TrafficDetails)
    ensures
        s.received(Message::TrafficDetails(details)) == (
            AppState { traffic: Some(details), ..s },
            None::<Request>,
        ),
{
}

/// What is told is shown as it was told, for twenty turns, as an error exactly if it
/// is one; it takes the place of what was told before and changes nothing else.
pub proof fn notices_show_what_is_told(
    s: AppState,
    text: String,
    message: Seq<char>,
    is_error: bool,
)
    requires
        s.step + 20 <= u64::MAX,
    ensures
        s.notified(message, is_error) == (AppState {
            notifier: Some(Notice { message, is_error, timeout_step: (s.step + 20) as u64 }),
            ..s
        }),
        s.received(Message::Info(text)) == (
            AppState {
                notifier: Some(
                    Notice {
                        message: text@,
                        is_error: false,
                        timeout_step: (s.step + 20) as u64,
                    },
                ),
                ..s
            },
            None::<Request>,
        ),
        s.received(Message::Error(text)) == (
            AppState {
                notifier: Some(
                    Notice { message: text@, is_error: true, timeout_step: (s.step + 20) as u64 },
                ),
                ..s
            },
            None::<Request>,
        ),
{
}

/// A turn counts one step, and takes a notice away whose last step lies behind;
/// nothing else changes.
pub proof fn turns_change_the_notice_only(s: AppState)
    requires
        s.step < u64::MAX,
    ensures
        s.turned().step == s.step + 1,
        s.turned() == (AppState { step: s.turned().step, notifier: s.turned().notifier, ..s }),
        s.turned().notifier == s.notifier || s.turned().notifier is None,
        s.notifier matches Some(notice) ==> (s.turned().notifier is None <==> notice.timeout_step
            < s.step),
{
}

/// A notice whose last step lies behind is taken away, and any other stays; nothing
/// else changes.
pub proof fn stale_notices_go(s: AppState)
    ensures
        ({
            let after = s.without_stale_notice();
            &&& after == (AppState { notifier: after.notifier, ..s })
            &&& after.notifier == s.notifier || after.notifier is None
            &&& s.notifier matches Some(notice) ==> (after.notifier is None <==> notice.timeout_step
                < s.step)
        }),
{
}

/// A notice is still there after twenty-one turns, and gone after one more.
pub proof fn notice_is_there_for_its_turns(s: AppState, text: String, n: nat)
    requires
        s.step + n <= u64::MAX,
        s.step + 20 <= u64::MAX,
    ensures
        ({
            let told = s.received(Message::Info(text)).0;
            let after = turned_many(told, n);
            &&& n <= 21 ==> after.notifier == told.notifier && after.notifier is Some
            &&& n > 21 ==> after.notifier is None
        }),
{
    crate::laws::notice_lasts_its_time(s, text@, false, n);
}

/// Every event is taken but a key that would count past a range: `c` or `e` with
/// nothing to copy or to export where twenty more turns cannot be counted, and a step
/// down from the largest offset.
pub proof fn events_are_taken(s: AppState, event: Event)
    ensures
        s.notice_fits() <==> s.step + 20 <= u64::MAX,
        !s.event_fits(event) <==> {
            &&& event matches Event::Key(key) && key.kind is Press && {
                let copy = key.code == KeyCode::Char('c') && s.selected >= s.shown().len();
                let export = key.code == KeyCode::Char('e') && s.traffics.len() == 0;
                let down = key.code is Down || key.code == KeyCode::Char('j');
                ||| (copy || export) && s.step + 20 > u64::MAX
                ||| down && s.view is Details && s.scroll_offset == u16::MAX && s.scroll_size
                    is Some && 0 < s.scroll_size->0 < u16::MAX
            }
            &&& !s.input_mode
            &&& s.popup is None
        },
{
}

/// A search changes the list and the selected row, and nothing else. Without answers
/// all exchanges are listed; with them those whose answer is true, in their order.
pub proof fn search_changes_the_list_only(s: AppState, hits: Option<Seq<bool>>)
    requires
        s.wf(),
        hits matches Some(hits) ==> hits.len() == s.traffics.len(),
    ensures
        ({
            let after = s.searched(hits);
            &&& after == (AppState { filtered: after.filtered, selected: after.selected, ..s })
            &&& hits is None <==> after.filtered is None
            &&& after.filtered matches Some(filtered) ==> {
                &&& forall|i: int, j: int|
                    0 <= i < j < filtered.len() ==> #[trigger] filtered[i] < #[trigger] filtered[j]
                &&& forall|i: int|
                    0 <= i < filtered.len() ==> (#[trigger] filtered[i]) < s.traffics.len() && (
                    hits->0)[filtered[i] as int]
                &&& forall|k: int|
                    0 <= k < s.traffics.len() && #[trigger] (hits->0)[k] ==> filtered.contains(
                        k as usize,
                    )
            }
        }),
{
    if hits is Some {
        crate::laws::hit_positions_are_the_hits(hits->0);
    }
}

/// After a search the selected row is the first one with the selected id in the whole
/// list, and the last one in a filtered list; where the id is not listed, or nothing
/// was selected, it is the first row.
pub proof fn search_selects_by_id(s: AppState, hits: Option<Seq<bool>>, row: int)
    requires
        s.wf(),
        hits matches Some(hits) ==> hits.len() == s.traffics.len(),
        0 <= row < s.searched(hits).shown().len(),
    ensures
        ({
            let after = s.searched(hits);
            let rows = after.shown();
            &&& s.selected >= s.shown().len() ==> after.selected == 0
            &&& s.selected < s.shown().len() && rows[row].id == s.shown()[s.selected as int].id ==> {
                &&& after.selected < rows.len()
                &&& rows[after.selected as int].id == s.shown()[s.selected as int].id
                &&& hits is None ==> after.selected <= row
                &&& hits is Some ==> after.selected >= row
            }
        }),
{
    let after = s.searched(hits);
    let rows = after.shown();
    crate::laws::search_keeps_the_selection(s, hits);
    crate::laws::searched_row_is_listed(s, hits);
    if s.selected < s.shown().len() && rows[row].id == s.shown()[s.selected as int].id {
        let id = rows[row].id;
        assert(has_id(rows, row, id));
        first_exists(rows, row, id);
        crate::laws::last_exists(rows, row, id);
        if hits is Some {
            crate::laws::hit_positions_are_the_hits(hits->0);
            let filtered = after.filtered->0;
            crate::laws::increasing_positions_grow(filtered, filtered.len() - 1);
            assert(filtered.len() <= s.traffics.len());
        }
    }
}

/// A search for a query without words lists all exchanges; one with words filters.
pub proof fn search_filters_if_there_are_words<F: Fn(&TrafficHead, &str) -> bool>(
    s: AppState,
    test_filter: F,
    after: AppState,
)
    requires
        s.search_leads_to(test_filter, after),
    ensures
        (forall|i: int| 0 <= i < s.query.len() ==> crate::text::white_space(#[trigger] s.query[i]))
            ==> after.shown() == s.traffics,
        (exists|i: int| 0 <= i < s.query.len() && !crate::text::white_space(#[trigger] s.query[i]))
            ==> after.filtered is Some,
{
    crate::text::words_need_a_character(s.query);
}

} // verus!
