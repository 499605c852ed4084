//! What holds of the interface as a whole.
use vstd::prelude::*;
use crate::actions::{Message, Request, COPY_ACTIONS, EXPORT_ACTIONS};
use crate::details::{body_area_of, title_area_of};
use crate::key_laws::{
    copies_are_of_the_selected_exchange, copy_formats, export_formats,
    exports_are_in_the_format_of_the_action,
};
use crate::keys::KeyCode;
use crate::layout::Rect;
use crate::model::{
    answers, answers_word, distinct_ids, first_with, has_id, hit_positions, is_first, is_last,
    last_with, AppState, Popup, MESSAGE_TIMEOUT, TICK_INTERVAL,
};
use crate::scene::{content_area_of, footer_area_of};
use crate::text::words_of;
use crate::traffic::TrafficHead;

verus! {

/// The exchange at `p` is the first one with the id: its id is that one, and the ids
/// before it are others.
pub open spec fn is_first_of(traffics: Seq<TrafficHead>, p: int, id: usize) -> bool {
    &&& 0 <= p < traffics.len() && traffics[p].id == id
    &&& forall|j: int| 0 <= j < p ==> (#[trigger] traffics[j]).id != id
}

/// The first exchange with an id is where `first_with` finds it.
pub proof fn first_is_unique(traffics: Seq<TrafficHead>, i: int, id: usize)
    requires
        is_first(traffics, i, id),
    ensures
        first_with(traffics, id) == Some(i),
{
    let j = choose|j: int| is_first(traffics, j, id);
    assert(is_first(traffics, j, id));
}

/// The last exchange with an id is where `last_with` finds it.
pub proof fn last_is_unique(traffics: Seq<TrafficHead>, i: int, id: usize)
    requires
        is_last(traffics, i, id),
    ensures
        last_with(traffics, id) == Some(i),
{
    let j = choose|j: int| is_last(traffics, j, id);
    assert(is_last(traffics, j, id));
}

/// Where an id occurs, there is a first exchange with it.
pub proof fn first_exists(traffics: Seq<TrafficHead>, i: int, id: usize)
    requires
        has_id(traffics, i, id),
    ensures
        first_with(traffics, id) matches Some(j) && is_first(traffics, j, id),
    decreases i,
{
    if exists|j: int| 0 <= j < i && has_id(traffics, j, id) {
        let j = choose|j: int| 0 <= j < i && has_id(traffics, j, id);
        first_exists(traffics, j, id);
    } else {
        assert(is_first(traffics, i, id));
        first_is_unique(traffics, i, id);
    }
}

/// Where an id occurs, there is a last exchange with it.
pub proof fn last_exists(traffics: Seq<TrafficHead>, i: int, id: usize)
    requires
        has_id(traffics, i, id),
    ensures
        last_with(traffics, id) matches Some(j) && is_last(traffics, j, id),
    decreases traffics.len() - i,
{
    if exists|j: int| i < j < traffics.len() && has_id(traffics, j, id) {
        let j = choose|j: int| i < j < traffics.len() && has_id(traffics, j, id);
        last_exists(traffics, j, id);
    } else {
        assert(is_last(traffics, i, id));
        last_is_unique(traffics, i, id);
    }
}

/// Where no id occurs twice, the first exchange with an id is also the last one.
pub proof fn distinct_ids_have_one_place(traffics: Seq<TrafficHead>, i: int, id: usize)
    requires
        distinct_ids(traffics),
        has_id(traffics, i, id),
    ensures
        first_with(traffics, id) == Some(i),
        last_with(traffics, id) == Some(i),
{
    assert forall|j: int| j != i implies !#[trigger] has_id(traffics, j, id) by {
        if 0 <= j < i {
            assert(traffics[j].id != traffics[i].id);
        } else if i < j < traffics.len() {
            assert(traffics[i].id != traffics[j].id);
        }
    }
    first_is_unique(traffics, i, id);
    last_is_unique(traffics, i, id);
}

/// The positions of the true answers are increasing, and they are exactly the
/// positions at which the answer is true.
pub proof fn hit_positions_are_the_hits(hits: Seq<bool>)
    requires
        hits.len() <= usize::MAX,
    ensures
        forall|i: int, j: int|
            0 <= i < j < hit_positions(hits).len() ==> #[trigger] hit_positions(hits)[i]
                < #[trigger] hit_positions(hits)[j],
        forall|i: int|
            0 <= i < hit_positions(hits).len() ==> (#[trigger] hit_positions(hits)[i]) < hits.len()
                && hits[hit_positions(hits)[i] as int],
        forall|k: int|
            0 <= k < hits.len() && #[trigger] hits[k] ==> hit_positions(hits).contains(k as usize),
    decreases hits.len(),
{
    if hits.len() > 0 {
        let prefix = hits.drop_last();
        let before = hit_positions(prefix);
        hit_positions_are_the_hits(prefix);
        let all = hit_positions(hits);
        assert forall|i: int| 0 <= i < all.len() implies (#[trigger] all[i]) < hits.len()
            && hits[all[i] as int] by {
            if i < before.len() {
                assert(prefix[before[i] as int]);
            }
        }
        assert forall|i: int, j: int| 0 <= i < j < all.len() implies #[trigger] all[i]
            < #[trigger] all[j] by {
            assert(before[i] < prefix.len());
        }
        assert forall|k: int| 0 <= k < hits.len() && #[trigger] hits[k] implies all.contains(
            k as usize,
        ) by {
            if k < prefix.len() {
                assert(prefix[k]);
                let i = choose|i: int| 0 <= i < before.len() && before[i] == k as usize;
                assert(all[i] == k as usize);
            } else {
                assert(all[all.len() - 1] == k as usize);
            }
        }
    }
}

/// Where no exchange is recorded twice, none is listed twice after a search.
pub proof fn searched_ids_are_distinct(s: AppState, hits: Option<Seq<bool>>)
    requires
        s.wf(),
        distinct_ids(s.traffics),
        hits matches Some(hits) ==> hits.len() == s.traffics.len(),
    ensures
        distinct_ids(s.searched(hits).shown()),
{
    if hits is Some {
        hit_positions_are_the_hits(hits->0);
    }
}

/// A list of increasing positions reaches at least as far as it is long.
pub proof fn increasing_positions_grow(positions: Seq<usize>, i: int)
    requires
        0 <= i < positions.len(),
        forall|j: int, k: int|
            0 <= j < k < positions.len() ==> #[trigger] positions[j] < #[trigger] positions[k],
    ensures
        i <= positions[i],
    decreases i,
{
    if i > 0 {
        increasing_positions_grow(positions, i - 1);
        assert(positions[i - 1] < positions[i]);
    }
}

/// The row that a search selects exists, if any row does.
pub proof fn searched_row_is_listed(s: AppState, hits: Option<Seq<bool>>)
    requires
        s.wf(),
        hits matches Some(hits) ==> hits.len() == s.traffics.len(),
    ensures
        ({
            let after = s.searched(hits);
            after.selected == 0 || after.selected < after.shown().len() && after.selected
                < s.traffics.len()
        }),
{
    let after = s.searched(hits);
    if s.selected_id() is Some {
        let id = s.selected_id()->0;
        if exists|i: int| has_id(after.shown(), i, id) {
            let i = choose|i: int| has_id(after.shown(), i, id);
            first_exists(after.shown(), i, id);
            last_exists(after.shown(), i, id);
        }
    }
    if hits is Some {
        hit_positions_are_the_hits(hits->0);
        let filtered = after.filtered->0;
        if 0 < filtered.len() {
            increasing_positions_grow(filtered, filtered.len() - 1);
        }
    }
}

/// A search leaves a state well-formed.
pub proof fn searched_keeps_wf(s: AppState, hits: Option<Seq<bool>>)
    requires
        s.wf(),
        hits matches Some(hits) ==> hits.len() == s.traffics.len(),
    ensures
        s.searched(hits).wf(),
{
    if hits is Some {
        hit_positions_are_the_hits(hits->0);
    }
}

/// A search on the main screen keeps what holds in every state.
pub proof fn searched_keeps_settled(s: AppState, hits: Option<Seq<bool>>)
    requires
        s.settled(),
        s.view is Main,
        hits matches Some(hits) ==> hits.len() == s.traffics.len(),
    ensures
        s.searched(hits).settled(),
{
    searched_keeps_wf(s, hits);
    searched_row_is_listed(s, hits);
    if hits is Some {
        hit_positions_are_the_hits(hits->0);
    }
}

/// Every key leaves a well-formed state well-formed.
pub proof fn pressed_keeps_wf(s: AppState, code: KeyCode)
    requires
        s.wf(),
    ensures
        s.pressed(code).0.wf(),
{
}

/// Every key that is pressed while no query is typed keeps what holds in every
/// state.
pub proof fn pressed_keeps_reachable(s: AppState, code: KeyCode)
    requires
        s.reachable(),
        !s.input_mode,
    ensures
        s.pressed(code).0.reachable(),
{
    assert(COPY_ACTIONS@.len() == 5);
    assert(EXPORT_ACTIONS@.len() == 3);
}

/// Every key that is typed into the query, with the search that follows, keeps what
/// holds in every state.
pub proof fn typed_keeps_reachable<F: Fn(&TrafficHead, &str) -> bool>(
    s: AppState,
    code: KeyCode,
    modifiers: u8,
    test_filter: F,
    after: AppState,
)
    requires
        s.reachable(),
        s.input_mode,
        s.typed(code, modifiers).wf(),
        s.typed(code, modifiers).search_leads_to(test_filter, after),
    ensures
        after.reachable(),
{
    let typed = s.typed(code, modifiers);
    let hits = choose|hits: Option<Seq<bool>>| #[trigger]
        typed.answered(test_filter, hits) && after == typed.searched(hits);
    assert(typed.shown() =~= s.shown());
    searched_keeps_settled(typed, hits);
}

/// Every message leaves a well-formed state well-formed.
pub proof fn received_keeps_wf(s: AppState, message: Message)
    requires
        s.wf(),
        s.received(message).0.traffics.len() <= usize::MAX,
    ensures
        s.received(message).0.wf(),
{
    if let Message::TrafficHead(head) = message {
        if first_with(s.traffics, head.id) is Some {
            let p = first_with(s.traffics, head.id)->0;
            assert(is_first(s.traffics, p, head.id));
        }
    }
}

/// Every message keeps what holds in every state.
pub proof fn received_keeps_reachable(s: AppState, message: Message)
    requires
        s.reachable(),
        s.received(message).0.traffics.len() <= usize::MAX,
    ensures
        s.received(message).0.reachable(),
{
    let after = s.received(message).0;
    received_keeps_wf(s, message);
    if let Message::TrafficHead(head) = message {
        exchanges_are_updated_in_place(s, head);
        assert forall|i: int, j: int| 0 <= i < j < after.traffics.len() implies (
        #[trigger] after.traffics[i]).id != (#[trigger] after.traffics[j]).id by {
            if j == s.traffics.len() {
                if has_id(s.traffics, i, head.id) {
                    first_exists(s.traffics, i, head.id);
                }
            } else {
                assert(s.traffics[i].id != s.traffics[j].id);
            }
        }
    }
}

/// The end of a turn keeps what holds in every state.
pub proof fn turned_keeps_reachable(s: AppState)
    requires
        s.reachable(),
    ensures
        s.turned().reachable(),
{
}

/// A step down and a step up, in either order, end in the state in which they began:
/// in the list, in a popup and in the details.
pub proof fn down_and_up_undo_each_other(s: AppState)
    requires
        s.wf(),
        s.in_range(),
    ensures
        s.down().up() == s,
        s.up().down() == s,
{
    assert(COPY_ACTIONS@.len() == 5);
    assert(EXPORT_ACTIONS@.len() == 3);
    assert(s.down().up() =~= s);
    assert(s.up().down() =~= s);
}

/// The state after `n` steps down.
pub open spec fn down_many(s: AppState, n: nat) -> AppState
    decreases n,
{
    if n == 0 {
        s
    } else {
        down_many(s, (n - 1) as nat).down()
    }
}

/// `n` steps down in the list advance the selection by `n` rows, counted modulo the
/// number of exchanges, and change nothing else.
pub proof fn down_many_counts_modulo(s: AppState, n: nat)
    requires
        s.wf(),
        s.view is Main,
        s.popup is None,
        s.selected < s.traffics.len(),
    ensures
        down_many(s, n) == (AppState {
            selected: ((s.selected + n) % (s.traffics.len() as int)) as usize,
            ..s
        }),
    decreases n,
{
    let len = s.traffics.len() as int;
    crate::nav::next_many_counts_modulo(len, s.selected as int, n);
    if n > 0 {
        down_many_counts_modulo(s, (n - 1) as nat);
        crate::nav::next_many_counts_modulo(len, s.selected as int, (n - 1) as nat);
        assert(0 <= (s.selected + n) % len < len) by (nonlinear_arith)
            requires
                len > 0,
        ;
        assert(0 <= (s.selected + n - 1) % len < len) by (nonlinear_arith)
            requires
                len > 0,
        ;
    }
    assert(down_many(s, n) =~= AppState {
        selected: ((s.selected + n) % len) as usize,
        ..s
    });
}

/// As many steps down in the list as there are exchanges come back to the same row.
pub proof fn full_turn_down_returns(s: AppState)
    requires
        s.wf(),
        s.view is Main,
        s.popup is None,
        s.selected == 0 || s.selected < s.traffics.len(),
    ensures
        down_many(s, s.traffics.len()) == s,
{
    let len = s.traffics.len();
    if len > 0 {
        down_many_counts_modulo(s, len);
        crate::nav::full_turn_returns(len as int, s.selected as int);
        crate::nav::next_many_counts_modulo(len as int, s.selected as int, len);
    }
}

/// An exchange is listed after a search exactly if its answer was true.
pub proof fn search_lists_exactly_the_hits(s: AppState, hits: Seq<bool>, k: int)
    requires
        s.wf(),
        hits.len() == s.traffics.len(),
        0 <= k < hits.len(),
    ensures
        s.searched(Some(hits)).filtered->0.contains(k as usize) <==> hits[k],
{
    hit_positions_are_the_hits(hits);
    let filtered = hit_positions(hits);
    if filtered.contains(k as usize) {
        let i = choose|i: int| 0 <= i < filtered.len() && filtered[i] == k as usize;
        assert(hits[filtered[i] as int]);
    }
}

/// A search lists exactly the exchanges that fit every word: for one that is listed
/// each word was accepted, for one that is not some word was refused.
pub proof fn search_asks_for_every_word<F: Fn(&TrafficHead, &str) -> bool>(
    s: AppState,
    test_filter: F,
    after: AppState,
    k: int,
)
    requires
        s.wf(),
        s.search_leads_to(test_filter, after),
        words_of(s.query).len() > 0,
        0 <= k < s.traffics.len(),
    ensures
        after.filtered is Some,
        after.filtered->0.contains(k as usize) ==> forall|w: int|
            0 <= w < words_of(s.query).len() ==> answers_word(
                test_filter,
                s.traffics[k],
                #[trigger] words_of(s.query)[w],
                true,
            ),
        !after.filtered->0.contains(k as usize) ==> exists|w: int|
            0 <= w < words_of(s.query).len() && answers_word(
                test_filter,
                s.traffics[k],
                #[trigger] words_of(s.query)[w],
                false,
            ),
{
    let hits = choose|hits: Option<Seq<bool>>| #[trigger]
        s.answered(test_filter, hits) && after == s.searched(hits);
    search_lists_exactly_the_hits(s, hits->0, k);
    assert(answers(test_filter, s.traffics[k], words_of(s.query), (hits->0)[k]));
}

/// Where `test_filter` answers by a rule, a search lists exactly the exchanges for
/// which the rule accepts every word.
pub proof fn search_follows_the_rule<F: Fn(&TrafficHead, &str) -> bool>(
    s: AppState,
    test_filter: F,
    rule: spec_fn(TrafficHead, Seq<char>) -> bool,
    after: AppState,
    k: int,
)
    requires
        s.wf(),
        s.search_leads_to(test_filter, after),
        words_of(s.query).len() > 0,
        0 <= k < s.traffics.len(),
        forall|head: &TrafficHead, word: &str, hit: bool| #[trigger]
            call_ensures(test_filter, (head, word), hit) ==> hit == rule(*head, word@),
    ensures
        after.filtered->0.contains(k as usize) <==> forall|w: int|
            0 <= w < words_of(s.query).len() ==> rule(
                s.traffics[k],
                #[trigger] words_of(s.query)[w],
            ),
{
    let words = words_of(s.query);
    search_asks_for_every_word(s, test_filter, after, k);
    if after.filtered->0.contains(k as usize) {
        assert forall|w: int| 0 <= w < words.len() implies rule(
            s.traffics[k],
            #[trigger] words[w],
        ) by {
            assert(answers_word(test_filter, s.traffics[k], words[w], true));
        }
    } else {
        let w = choose|w: int|
            0 <= w < words.len() && answers_word(
                test_filter,
                s.traffics[k],
                #[trigger] words[w],
                false,
            );
        assert(!rule(s.traffics[k], words[w]));
    }
}

/// A search keeps the selection on its exchange if that is still listed; else the
/// first row is selected.
pub proof fn search_keeps_the_selection(s: AppState, hits: Option<Seq<bool>>)
    requires
        s.wf(),
        hits matches Some(hits) ==> hits.len() == s.traffics.len(),
    ensures
        ({
            let after = s.searched(hits);
            let kept = s.selected_id() is Some && exists|i: int|
                has_id(after.shown(), i, s.selected_id()->0);
            &&& kept ==> after.selected_id() == s.selected_id()
            &&& !kept ==> after.selected == 0
        }),
{
    let after = s.searched(hits);
    let rows = after.shown();
    searched_row_is_listed(s, hits);
    if hits is Some {
        hit_positions_are_the_hits(hits->0);
        let filtered = after.filtered->0;
        if 0 < filtered.len() {
            increasing_positions_grow(filtered, filtered.len() - 1);
        }
    }
    if s.selected_id() is Some {
        let id = s.selected_id()->0;
        if exists|i: int| has_id(rows, i, id) {
            let i = choose|i: int| has_id(rows, i, id);
            first_exists(rows, i, id);
            last_exists(rows, i, id);
            let row = match hits {
                None => first_with(rows, id)->0,
                Some(_) => last_with(rows, id)->0,
            };
            assert(has_id(rows, row, id));
            assert(after.selected == row);
        }
    }
}

/// A search that is repeated with the same answers changes nothing, on either
/// screen.
pub proof fn searching_again_changes_nothing(s: AppState, hits: Option<Seq<bool>>)
    requires
        s.wf(),
        distinct_ids(s.traffics),
        hits matches Some(hits) ==> hits.len() == s.traffics.len(),
    ensures
        s.searched(hits).searched(hits) == s.searched(hits),
{
    let after = s.searched(hits);
    let again = after.searched(hits);
    searched_row_is_listed(s, hits);
    searched_ids_are_distinct(s, hits);
    assert(again.shown() =~= after.shown());
    if after.selected_id() is Some {
        let row = after.selected as int;
        let id = after.selected_id()->0;
        assert(has_id(after.shown(), row, id));
        distinct_ids_have_one_place(after.shown(), row, id);
    }
    assert(again =~= after);
}

/// A search with a rule, after which nothing changed, changes nothing when it is
/// run again.
pub proof fn search_by_a_rule_is_stable<F: Fn(&TrafficHead, &str) -> bool>(
    s: AppState,
    test_filter: F,
    rule: spec_fn(TrafficHead, Seq<char>) -> bool,
    once: AppState,
    twice: AppState,
)
    requires
        s.wf(),
        distinct_ids(s.traffics),
        forall|head: &TrafficHead, word: &str, hit: bool| #[trigger]
            call_ensures(test_filter, (head, word), hit) ==> hit == rule(*head, word@),
        s.search_leads_to(test_filter, once),
        once.search_leads_to(test_filter, twice),
    ensures
        twice == once,
{
    let words = words_of(s.query);
    let first = choose|hits: Option<Seq<bool>>| #[trigger]
        s.answered(test_filter, hits) && once == s.searched(hits);
    let second = choose|hits: Option<Seq<bool>>| #[trigger]
        once.answered(test_filter, hits) && twice == once.searched(hits);
    if first is Some {
        assert forall|i: int| 0 <= i < s.traffics.len() implies #[trigger] (first->0)[i]
            == (second->0)[i] by {
            let head = s.traffics[i];
            assert(answers(test_filter, head, words, (first->0)[i]));
            assert(answers(test_filter, head, words, (second->0)[i]));
            answers_follow_the_rule(test_filter, rule, head, words, (first->0)[i]);
            answers_follow_the_rule(test_filter, rule, head, words, (second->0)[i]);
        }
        assert(first->0 =~= second->0);
    }
    searching_again_changes_nothing(s, first);
}

/// The answer to all words together is whether the rule accepts each of them.
pub proof fn answers_follow_the_rule<F: Fn(&TrafficHead, &str) -> bool>(
    test_filter: F,
    rule: spec_fn(TrafficHead, Seq<char>) -> bool,
    head: TrafficHead,
    words: Seq<Seq<char>>,
    hit: bool,
)
    requires
        forall|head: &TrafficHead, word: &str, hit: bool| #[trigger]
            call_ensures(test_filter, (head, word), hit) ==> hit == rule(*head, word@),
        answers(test_filter, head, words, hit),
    ensures
        hit <==> forall|w: int| 0 <= w < words.len() ==> rule(head, #[trigger] words[w]),
{
    if hit {
        assert forall|w: int| 0 <= w < words.len() implies rule(head, #[trigger] words[w]) by {
            assert(answers_word(test_filter, head, words[w], true));
        }
    } else {
        let w = choose|w: int|
            0 <= w < words.len() && answers_word(test_filter, head, #[trigger] words[w], false);
        assert(!rule(head, words[w]));
    }
}

/// Escape while the query is typed ends the search: all exchanges are listed again,
/// and the selected one stays selected.
pub proof fn escape_ends_the_search<F: Fn(&TrafficHead, &str) -> bool>(
    s: AppState,
    modifiers: u8,
    test_filter: F,
    after: AppState,
)
    requires
        s.wf(),
        s.input_mode,
        s.typed(KeyCode::Esc, modifiers).search_leads_to(test_filter, after),
    ensures
        !after.input_mode,
        after.query.len() == 0,
        after.shown() == s.traffics,
        s.selected_id() is Some ==> after.selected_id() == s.selected_id(),
{
    let cleared = s.typed(KeyCode::Esc, modifiers);
    let hits = choose|hits: Option<Seq<bool>>| #[trigger]
        cleared.answered(test_filter, hits) && after == cleared.searched(hits);
    crate::text::no_words_without_text();
    assert(hits is None);
    assert(cleared.wf());
    search_keeps_the_selection(cleared, None);
    if s.selected_id() is Some {
        let id = s.selected_id()->0;
        let row = s.selected as int;
        let i = match s.filtered {
            Some(filtered) => filtered[row] as int,
            None => row,
        };
        assert(s.shown()[row] == s.traffics[i]);
        assert(has_id(after.shown(), i, id));
    }
}

/// The state after `n` turns in which nothing happens.
pub open spec fn turned_many(s: AppState, n: nat) -> AppState
    decreases n,
{
    if n == 0 {
        s
    } else {
        turned_many(s, (n - 1) as nat).turned()
    }
}

/// A notice is shown as long as notices last: it is gone after the turn in which its
/// time is over, and not before.
pub proof fn notice_lasts_its_time(s: AppState, message: Seq<char>, is_error: bool, n: nat)
    requires
        s.step + n <= u64::MAX,
        s.notice_fits(),
    ensures
        ({
            let noticed = s.notified(message, is_error);
            let after = turned_many(noticed, n);
            &&& after.step == s.step + n
            &&& n <= MESSAGE_TIMEOUT / TICK_INTERVAL + 1 ==> after.notifier == noticed.notifier
            &&& n > MESSAGE_TIMEOUT / TICK_INTERVAL + 1 ==> after.notifier is None
        }),
    decreases n,
{
    if n > 0 {
        notice_lasts_its_time(s, message, is_error, (n - 1) as nat);
    }
}

/// The interface quits only on `y`, and only while it has asked whether to.
pub proof fn quitting_is_confirmed(s: AppState, code: KeyCode)
    requires
        !s.should_quit,
        s.pressed(code).0.should_quit,
    ensures
        code == KeyCode::Char('y'),
        s.confirm is Some,
{
}

/// The question whether to quit comes only from going back on the main screen while
/// no popup is open.
pub proof fn question_comes_from_the_main_screen(s: AppState, code: KeyCode)
    requires
        s.confirm is None,
        s.pressed(code).0.confirm is Some,
    ensures
        code is Esc || code == KeyCode::Char('q'),
        s.view is Main,
        s.popup is None,
{
}

/// On the main screen going back and `y` quit; going back and `n` change nothing.
pub proof fn question_is_answered(s: AppState)
    requires
        s.view is Main,
        s.popup is None,
        s.confirm is None,
    ensures
        s.pressed(KeyCode::Char('q')).0.pressed(KeyCode::Char('y')).0.should_quit,
        s.pressed(KeyCode::Char('q')).0.pressed(KeyCode::Char('n')).0 == s,
{
    assert(s.pressed(KeyCode::Char('q')).0.pressed(KeyCode::Char('n')).0 =~= s);
}

/// A popup takes the keys that move and go back: the list and the details stay as
/// they are, and going back closes the popup.
pub proof fn popup_takes_the_keys(s: AppState)
    requires
        s.popup is Some,
    ensures
        s.left() == (AppState { popup: None, ..s }),
        s.down() == (AppState { popup: s.down().popup, ..s }),
        s.up() == (AppState { popup: s.up().popup, ..s }),
{
}

/// Opening the details and going back comes back to the same list, with the same
/// row selected.
pub proof fn details_return_to_the_list(s: AppState)
    requires
        s.wf(),
        s.view is Main,
        s.popup is None,
        s.shown().len() > 0,
    ensures
        ({
            let opened = s.pressed(KeyCode::Enter).0;
            let back = opened.pressed(KeyCode::Esc).0;
            &&& opened.view is Details
            &&& back.view is Main
            &&& back.shown() == s.shown()
            &&& back.selected == s.selected
            &&& back.traffics == s.traffics
        }),
{
}

/// Switching the tab twice comes back to the same tab.
pub proof fn switching_twice_returns(s: AppState)
    requires
        s.in_range(),
    ensures
        s.switched().switched().tab == s.tab,
        s.view is Details ==> s.switched().tab != s.tab,
{
}

/// What a key asks for concerns the selected exchange, or all of them: details are
/// read of the exchange that is then selected, and copies are made of the one that
/// was. Copies and exports are asked for in the format of the highlighted row.
pub proof fn requests_concern_the_selection(s: AppState, code: KeyCode)
    ensures
        match s.pressed(code).1 {
            Some(Request::Fetch(id)) => s.pressed(code).0.selected_id() == Some(id)
                && s.pressed(code).0.view is Details,
            Some(Request::Copy(id, format)) => s.selected_id() == Some(id) && (
            s.popup matches Some(Popup::Copy(idx)) && idx < 5 && format@
                == copy_formats()[idx as int]),
            Some(Request::Export(format)) => s.popup matches Some(Popup::Export(idx)) && idx < 3
                && format@ == export_formats()[idx as int],
            None => true,
        },
{
    match s.popup {
        Some(Popup::Copy(idx)) => copies_are_of_the_selected_exchange(s, idx),
        Some(Popup::Export(idx)) => exports_are_in_the_format_of_the_action(s, idx),
        None => {},
    }
}

/// After a message with an exchange it is recorded in that state; every other
/// exchange is as it was, in the same place, and only a new one makes the record
/// longer.
pub proof fn exchanges_are_updated_in_place(s: AppState, head: TrafficHead)
    requires
        s.wf(),
    ensures
        ({
            let after = s.received(Message::TrafficHead(head)).0.traffics;
            let known = exists|i: int| has_id(s.traffics, i, head.id);
            &&& after.len() == s.traffics.len() + if known {
                0int
            } else {
                1
            }
            &&& exists|i: int| has_id(after, i, head.id) && after[i] == head
            &&& forall|i: int|
                0 <= i < s.traffics.len() && (#[trigger] s.traffics[i]).id != head.id ==> after[i]
                    == s.traffics[i]
            &&& forall|i: int|
                0 <= i < s.traffics.len() ==> (#[trigger] after[i]).id == s.traffics[i].id
        }),
{
    let after = s.received(Message::TrafficHead(head)).0.traffics;
    if exists|i: int| has_id(s.traffics, i, head.id) {
        first_exists(s.traffics, choose|i: int| has_id(s.traffics, i, head.id), head.id);
    }
    match first_with(s.traffics, head.id) {
        Some(p) => {
            assert(is_first(s.traffics, p, head.id));
            assert(has_id(after, p, head.id) && after[p] == head);
        },
        None => {
            let p = s.traffics.len() as int;
            assert(has_id(after, p, head.id) && after[p] == head);
        },
    }
}

/// A message with an exchange that comes a second time changes the record no more.
pub proof fn repeated_exchange_changes_nothing(s: AppState, head: TrafficHead)
    requires
        s.wf(),
    ensures
        ({
            let once = s.received(Message::TrafficHead(head)).0;
            once.received(Message::TrafficHead(head)).0.traffics == once.traffics
        }),
{
    let once = s.received(Message::TrafficHead(head)).0;
    let p = match first_with(s.traffics, head.id) {
        Some(p) => p,
        None => s.traffics.len() as int,
    };
    if first_with(s.traffics, head.id) is Some {
        assert(is_first(s.traffics, p, head.id));
    }
    assert forall|j: int| 0 <= j < p implies !#[trigger] has_id(once.traffics, j, head.id) by {
        if has_id(s.traffics, j, head.id) {
            first_exists(s.traffics, j, head.id);
        }
    }
    assert(is_first(once.traffics, p, head.id));
    first_is_unique(once.traffics, p, head.id);
    assert(once.traffics.update(p, head) =~= once.traffics);
}

/// While the list is filtered, a new exchange waits for the next search: the rows
/// stay as they are.
pub proof fn new_exchange_waits_for_the_search(s: AppState, head: TrafficHead)
    requires
        s.wf(),
        s.filtered is Some,
        first_with(s.traffics, head.id) is None,
    ensures
        s.received(Message::TrafficHead(head)).0.shown() == s.shown(),
{
    let after = s.received(Message::TrafficHead(head)).0;
    assert forall|i: int| 0 <= i < s.shown().len() implies #[trigger] after.shown()[i]
        == s.shown()[i] by {
        assert((s.filtered->0)[i] < s.traffics.len());
    }
    assert(after.shown() =~= s.shown());
}

/// The screen is divided without rest: the footer follows the content, and the body
/// of the details follows their title.
pub proof fn areas_leave_no_rest(area: Rect)
    requires
        area.fits(),
    ensures
        ({
            let content = content_area_of(area);
            let footer = footer_area_of(area);
            &&& content.y == area.y
            &&& footer.y == content.y + content.height
            &&& content.height + footer.height == area.height
            &&& footer.height <= 1
        }),
        ({
            let title = title_area_of(area);
            let body = body_area_of(area);
            &&& title.y == area.y
            &&& body.y == title.y + title.height
            &&& title.height + body.height == area.height
            &&& title.height <= 2
        }),
{
}

/// Drawing measures the details once: a second time in the same area it changes
/// nothing.
pub proof fn drawing_twice_measures_once(s: AppState, area: Rect)
    ensures
        s.drawn(area).drawn(area) == s.drawn(area),
{
    assert(s.drawn(area).shown() =~= s.shown());
}

} // verus!
