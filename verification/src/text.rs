//! Text in the forms that the screens need: numbers in decimal, padding, the
//! lines of a body and the words of a query.
use vstd::prelude::*;

verus! {

/// `std::string::String::push` appends the character and leaves the rest as it is.
pub assume_specification[ String::push ](s: &mut String, ch: char)
    ensures
        final(s)@ == old(s)@.push(ch),
;

/// Whether a character has the Unicode property `White_Space`, as
/// `char::is_whitespace` answers it.
pub uninterp spec fn white_space(c: char) -> bool;

/// `char::is_whitespace` depends on the character alone, and the space is one.
pub assume_specification[ char::is_whitespace ](c: char) -> (white: bool)
    ensures
        white == white_space(c),
        c == ' ' ==> white,
;

/// The characters of each string of a list.
pub open spec fn texts(strings: Seq<String>) -> Seq<Seq<char>> {
    Seq::new(strings.len(), |i: int| strings[i]@)
}

/// The pieces of `s` between the characters that `sep` accepts: one more piece
/// than there are separators, pieces without a character included.
pub open spec fn fields(s: Seq<char>, sep: spec_fn(char) -> bool) -> Seq<Seq<char>>
    decreases s.len(),
{
    if s.len() == 0 {
        seq![Seq::<char>::empty()]
    } else {
        let before = fields(s.drop_last(), sep);
        if sep(s.last()) {
            before.push(Seq::empty())
        } else {
            before.drop_last().push(before.last().push(s.last()))
        }
    }
}

/// The pieces that hold a character, in order.
pub open spec fn non_empty(pieces: Seq<Seq<char>>) -> Seq<Seq<char>> {
    pieces.filter(|p: Seq<char>| p.len() > 0)
}

/// The words of `s`: its longest runs of characters that are not white space.
pub open spec fn words_of(s: Seq<char>) -> Seq<Seq<char>> {
    non_empty(fields(s, |c: char| white_space(c)))
}

/// A line without the carriage return that stood before its line feed.
pub open spec fn without_return(line: Seq<char>) -> Seq<char> {
    if line.len() > 0 && line.last() == '\r' {
        line.drop_last()
    } else {
        line
    }
}

/// The lines of `s`. A line ends with a line feed or with a carriage return and
/// a line feed; the end of the last line is optional.
pub open spec fn lines_of(s: Seq<char>) -> Seq<Seq<char>> {
    let pieces = fields(s, |c: char| c == '\n');
    let ended = Seq::new((pieces.len() - 1) as nat, |i: int| without_return(pieces[i]));
    if pieces.last().len() > 0 {
        ended.push(pieces.last())
    } else {
        ended
    }
}

/// `c`, `n` times.
pub open spec fn repeated(c: char, n: nat) -> Seq<char> {
    Seq::new(n, |i: int| c)
}

/// The bytes that the characters take in UTF-8.
pub open spec fn byte_len(s: Seq<char>) -> usize {
    vstd::utf8::encode_utf8(s).len() as usize
}

/// The decimal digit for `d`, which is below ten.
pub open spec fn digit_of(d: nat) -> char {
    (48 + d) as char
}

/// `n` in decimal, without leading zeros.
pub open spec fn decimal_of(n: nat) -> Seq<char>
    decreases n,
{
    if n < 10 {
        seq![digit_of(n)]
    } else {
        decimal_of(n / 10).push(digit_of(n % 10))
    }
}

/// Every piece list has a last piece.
pub proof fn fields_are_not_empty(s: Seq<char>, sep: spec_fn(char) -> bool)
    ensures
        fields(s, sep).len() >= 1,
    decreases s.len(),
{
    if s.len() > 0 {
        fields_are_not_empty(s.drop_last(), sep);
    }
}

/// A text without characters has no words.
pub proof fn no_words_without_text()
    ensures
        words_of(Seq::empty()).len() == 0,
{
    reveal_with_fuel(Seq::filter, 2);
}

/// Every piece between separators is free of them.
pub proof fn fields_hold_no_separator(s: Seq<char>, sep: spec_fn(char) -> bool)
    ensures
        forall|i: int, k: int|
            0 <= i < fields(s, sep).len() && 0 <= k < fields(s, sep)[i].len() ==> !sep(
                #[trigger] fields(s, sep)[i][k],
            ),
    decreases s.len(),
{
    fields_are_not_empty(s, sep);
    if s.len() > 0 {
        fields_are_not_empty(s.drop_last(), sep);
        fields_hold_no_separator(s.drop_last(), sep);
        let before = fields(s.drop_last(), sep);
        let all = fields(s, sep);
        assert forall|i: int, k: int| 0 <= i < all.len() && 0 <= k < all[i].len() implies !sep(
            #[trigger] all[i][k],
        ) by {
            if i < before.len() && k < before[i].len() {
                assert(!sep(before[i][k]));
                assert(all[i][k] == before[i][k]);
            }
        }
    }
}

/// Every word holds a character, and none that is white space.
pub proof fn words_are_filled(s: Seq<char>, i: int)
    requires
        0 <= i < words_of(s).len(),
    ensures
        words_of(s)[i].len() > 0,
        forall|k: int| 0 <= k < words_of(s)[i].len() ==> !white_space(#[trigger] words_of(s)[i][k]),
{
    let sep = |c: char| white_space(c);
    let pieces = fields(s, sep);
    let filled = |p: Seq<char>| p.len() > 0;
    fields_hold_no_separator(s, sep);
    pieces.lemma_filter_contains_rev(filled, words_of(s)[i]);
}

/// A separator divides the pieces: those before it, then those after it.
proof fn separator_divides_fields(s: Seq<char>, c: char, t: Seq<char>, sep: spec_fn(char) -> bool)
    requires
        sep(c),
    ensures
        fields(s + seq![c] + t, sep) == fields(s, sep) + fields(t, sep),
    decreases t.len(),
{
    let all = s + seq![c] + t;
    fields_are_not_empty(s, sep);
    if t.len() == 0 {
        assert(all.drop_last() =~= s);
        assert(fields(all, sep) =~= fields(s, sep) + fields(t, sep));
    } else {
        separator_divides_fields(s, c, t.drop_last(), sep);
        fields_are_not_empty(t.drop_last(), sep);
        assert(all.drop_last() =~= s + seq![c] + t.drop_last());
        assert(fields(all, sep) =~= fields(s, sep) + fields(t, sep));
    }
}

/// A text without a separator is one piece.
proof fn unbroken_text_is_one_field(s: Seq<char>, sep: spec_fn(char) -> bool)
    requires
        forall|i: int| 0 <= i < s.len() ==> !sep(#[trigger] s[i]),
    ensures
        fields(s, sep) == seq![s],
    decreases s.len(),
{
    if s.len() > 0 {
        unbroken_text_is_one_field(s.drop_last(), sep);
        assert(!sep(s[s.len() - 1]));
        assert(s.drop_last().push(s.last()) =~= s);
    } else {
        assert(s =~= Seq::<char>::empty());
    }
    assert(fields(s, sep) =~= seq![s]);
}

/// A text of characters that are not white space, at least one, is one word, however
/// long it is.
pub proof fn unbroken_text_is_one_word(s: Seq<char>)
    requires
        s.len() > 0,
        forall|i: int| 0 <= i < s.len() ==> !white_space(#[trigger] s[i]),
    ensures
        words_of(s) == seq![s],
{
    unbroken_text_is_one_field(s, |c: char| white_space(c));
    reveal_with_fuel(Seq::filter, 2);
    assert(seq![s].drop_last() =~= Seq::<Seq<char>>::empty());
    assert(words_of(s) =~= seq![s]);
}

/// White space divides the words: those before it, then those after it.
pub proof fn white_space_divides_words(s: Seq<char>, c: char, t: Seq<char>)
    requires
        white_space(c),
    ensures
        words_of(s + seq![c] + t) == words_of(s) + words_of(t),
{
    let sep = |c: char| white_space(c);
    let filled = |p: Seq<char>| p.len() > 0;
    separator_divides_fields(s, c, t, sep);
    Seq::filter_distributes_over_add(fields(s, sep), fields(t, sep), filled);
}

/// Joining the pieces gives the text without its separators.
proof fn fields_join_to_the_rest(s: Seq<char>, sep: spec_fn(char) -> bool)
    ensures
        fields(s, sep).flatten() == s.filter(|c: char| !sep(c)),
    decreases s.len(),
{
    let kept = |c: char| !sep(c);
    reveal(Seq::filter);
    if s.len() == 0 {
        assert(fields(s, sep) =~= Seq::<Seq<char>>::empty().push(Seq::empty()));
        Seq::<Seq<char>>::empty().lemma_flatten_push(Seq::<char>::empty());
        assert(fields(s, sep).flatten() =~= s.filter(kept));
    } else {
        let before = fields(s.drop_last(), sep);
        fields_join_to_the_rest(s.drop_last(), sep);
        fields_are_not_empty(s.drop_last(), sep);
        assert(before =~= before.drop_last().push(before.last()));
        before.drop_last().lemma_flatten_push(before.last());
        before.lemma_flatten_push(Seq::empty());
        before.drop_last().lemma_flatten_push(before.last().push(s.last()));
        assert(fields(s, sep).flatten() =~= s.filter(kept));
    }
}

/// Pieces without a character add nothing when pieces are joined.
proof fn empty_pieces_join_to_nothing(pieces: Seq<Seq<char>>)
    ensures
        non_empty(pieces).flatten() == pieces.flatten(),
    decreases pieces.len(),
{
    let filled = |p: Seq<char>| p.len() > 0;
    reveal(Seq::filter);
    if pieces.len() > 0 {
        empty_pieces_join_to_nothing(pieces.drop_last());
        assert(pieces =~= pieces.drop_last().push(pieces.last()));
        pieces.drop_last().lemma_flatten_push(pieces.last());
        non_empty(pieces.drop_last()).lemma_flatten_push(pieces.last());
        assert(non_empty(pieces).flatten() =~= pieces.flatten());
    }
}

/// No character is lost: the words, joined in order, are exactly the characters of
/// the text that are not white space, in order.
pub proof fn words_lose_no_character(s: Seq<char>)
    ensures
        words_of(s).flatten() == s.filter(|c: char| !white_space(c)),
{
    let sep = |c: char| white_space(c);
    fields_join_to_the_rest(s, sep);
    empty_pieces_join_to_nothing(fields(s, sep));
    assert((|c: char| !sep(c)) =~= (|c: char| !white_space(c)));
}

/// Every longest run of characters that are not white space is a word.
pub proof fn every_run_is_a_word(s: Seq<char>, i: int, j: int)
    requires
        0 <= i < j <= s.len(),
        forall|k: int| i <= k < j ==> !white_space(#[trigger] s[k]),
        i > 0 ==> white_space(s[i - 1]),
        j < s.len() ==> white_space(s[j]),
    ensures
        words_of(s).contains(s.subrange(i, j)),
{
    let run = s.subrange(i, j);
    unbroken_text_is_one_word(run);
    let head = if i > 0 {
        white_space_divides_words(s.take(i - 1), s[i - 1], run);
        assert(s.take(i - 1) + seq![s[i - 1]] + run =~= s.take(j));
        words_of(s.take(i - 1))
    } else {
        assert(run =~= s.take(j));
        Seq::empty()
    };
    assert(words_of(s.take(j)) =~= head.push(run));
    let at = head.len() as int;
    assert(words_of(s.take(j))[at] == run);
    if j < s.len() {
        white_space_divides_words(s.take(j), s[j], s.skip(j + 1));
        assert(s.take(j) + seq![s[j]] + s.skip(j + 1) =~= s);
        assert(words_of(s)[at] == run);
    } else {
        assert(s.take(j) =~= s);
    }
}

/// A text has words exactly if some character of it is not white space.
pub proof fn words_need_a_character(s: Seq<char>)
    ensures
        words_of(s).len() == 0 <==> forall|i: int|
            0 <= i < s.len() ==> white_space(#[trigger] s[i]),
    decreases s.len(),
{
    if s.len() == 0 {
        assert(s =~= Seq::empty());
        no_words_without_text();
    } else if exists|i: int| 0 <= i < s.len() && white_space(s[i]) {
        let i = choose|i: int| 0 <= i < s.len() && white_space(s[i]);
        assert(s =~= s.take(i) + seq![s[i]] + s.skip(i + 1));
        white_space_divides_words(s.take(i), s[i], s.skip(i + 1));
        words_need_a_character(s.take(i));
        words_need_a_character(s.skip(i + 1));
        if words_of(s).len() == 0 {
            assert forall|j: int| 0 <= j < s.len() implies white_space(#[trigger] s[j]) by {
                if j < i {
                    assert(white_space(s.take(i)[j]));
                } else if j > i {
                    assert(white_space(s.skip(i + 1)[j - i - 1]));
                }
            }
        }
    } else {
        unbroken_text_is_one_word(s);
        assert(!white_space(s[0]));
    }
}

/// A text without characters has no lines.
pub proof fn no_lines_without_text()
    ensures
        lines_of(Seq::empty()).len() == 0,
{
}

/// A text without a line feed, but with a character, is one line as it stands.
pub proof fn unbroken_text_is_one_line(s: Seq<char>)
    requires
        s.len() > 0,
        !s.contains('\n'),
    ensures
        lines_of(s) == seq![s],
{
    unbroken_text_is_one_field(s, |c: char| c == '\n');
    assert(lines_of(s) =~= seq![s]);
}

/// A line feed ends a line. With a carriage return before it, that is no part of the
/// line either; the lines of the rest follow.
pub proof fn line_feed_ends_a_line(s: Seq<char>, t: Seq<char>)
    requires
        !s.contains('\n'),
    ensures
        lines_of(s + seq!['\r', '\n'] + t) == seq![s] + lines_of(t),
        s.len() == 0 || s[s.len() - 1] != '\r' ==> lines_of(s + seq!['\n'] + t) == seq![s]
            + lines_of(t),
{
    let sep = |c: char| c == '\n';
    let returned = s.push('\r');
    assert forall|i: int| 0 <= i < s.len() implies !sep(#[trigger] s[i]) by {
        assert(s.contains(s[i]));
    }
    unbroken_text_is_one_field(s, sep);
    unbroken_text_is_one_field(returned, sep);
    separator_divides_fields(s, '\n', t, sep);
    separator_divides_fields(returned, '\n', t, sep);
    fields_are_not_empty(t, sep);
    assert(s + seq!['\r', '\n'] + t =~= returned + seq!['\n'] + t);
    assert(returned.drop_last() =~= s);
    let rest = fields(t, sep);
    assert((seq![returned] + rest).last() == rest.last());
    assert((seq![s] + rest).last() == rest.last());
    assert(lines_of(s + seq!['\r', '\n'] + t) =~= seq![s] + lines_of(t));
    if s.len() == 0 || s[s.len() - 1] != '\r' {
        assert(lines_of(s + seq!['\n'] + t) =~= seq![s] + lines_of(t));
    }
}

/// The number that decimal digits stand for.
pub open spec fn value_of(digits: Seq<char>) -> int
    decreases digits.len(),
{
    if digits.len() == 0 {
        0
    } else {
        10 * value_of(digits.drop_last()) + (digits.last() as int - '0' as int)
    }
}

/// A number in decimal is made of digits, does not begin with a zero that could be
/// left out, and stands for the number.
pub proof fn decimal_stands_for_the_number(n: nat)
    ensures
        value_of(decimal_of(n)) == n,
        decimal_of(n).len() > 0,
        forall|i: int| 0 <= i < decimal_of(n).len() ==> '0' <= #[trigger] decimal_of(n)[i] <= '9',
        n > 0 ==> decimal_of(n)[0] != '0',
    decreases n,
{
    if n < 10 {
        assert(decimal_of(n).drop_last() =~= Seq::<char>::empty());
    } else {
        decimal_stands_for_the_number(n / 10);
        assert(decimal_of(n).drop_last() =~= decimal_of(n / 10));
    }
    reveal_with_fuel(value_of, 2);
}

/// Different numbers are written differently.
pub proof fn decimals_tell_numbers_apart(m: nat, n: nat)
    requires
        decimal_of(m) == decimal_of(n),
    ensures
        m == n,
{
    decimal_stands_for_the_number(m);
    decimal_stands_for_the_number(n);
}

/// `c` repeated `n` times.
pub fn repeat_char(c: char, n: usize) -> (text: String)
    ensures
        text@ == repeated(c, n as nat),
{
    let mut text = String::new();
    let mut i: usize = 0;
    while i < n
        invariant
            i <= n,
            text@ == repeated(c, i as nat),
        decreases n - i,
    {
        text.push(c);
        i += 1;
        assert(text@ =~= repeated(c, i as nat));
    }
    text
}

/// A repeated character is there as often as asked for, and nothing else is.
pub proof fn repeated_holds_one_character(c: char, n: nat)
    ensures
        repeated(c, n).len() == n,
        forall|i: int| 0 <= i < n ==> #[trigger] repeated(c, n)[i] == c,
{
}

/// Writes `n` in decimal.
pub fn decimal(n: u64) -> (text: String)
    ensures
        text@ == decimal_of(n as nat),
    decreases n,
{
    let mut text = if n < 10 {
        String::new()
    } else {
        decimal(n / 10)
    };
    let digit = match n % 10 {
        0 => '0',
        1 => '1',
        2 => '2',
        3 => '3',
        4 => '4',
        5 => '5',
        6 => '6',
        7 => '7',
        8 => '8',
        _ => '9',
    };
    text.push(digit);
    assert(text@ =~= decimal_of(n as nat));
    text
}

/// A string of the given characters.
fn string_of(chars: &Vec<char>) -> (text: String)
    ensures
        text@ == chars@,
{
    let mut text = String::new();
    let mut i: usize = 0;
    while i < chars.len()
        invariant
            i <= chars@.len(),
            text@ == chars@.take(i as int),
        decreases chars@.len() - i,
    {
        text.push(chars[i]);
        i += 1;
        assert(text@ =~= chars@.take(i as int));
    }
    assert(text@ =~= chars@);
    text
}

/// The characters of a string.
fn chars_of(text: &str) -> (chars: Vec<char>)
    ensures
        chars@ == text@,
{
    let mut chars: Vec<char> = Vec::new();
    for c in it: text.chars()
        invariant
            chars@ == it.seq().take(it.index() as int),
            it.seq() == text@,
    {
        chars.push(c);
        assert(chars@ =~= it.seq().take(it.index() + 1));
    }
    assert(chars@ =~= text@);
    chars
}

/// The words of a text.
pub fn words(text: &str) -> (found: Vec<String>)
    ensures
        texts(found@) == words_of(text@),
        texts(found@).flatten() == text@.filter(|c: char| !white_space(c)),
{
    proof {
        words_lose_no_character(text@);
    }
    let ghost sep = |c: char| white_space(c);
    let ghost filled = |p: Seq<char>| p.len() > 0;
    let chars = chars_of(text);
    let mut found: Vec<String> = Vec::new();
    let mut word: Vec<char> = Vec::new();
    let mut i: usize = 0;
    assert(texts(found@) =~= non_empty(Seq::<Seq<char>>::empty())) by {
        reveal(Seq::filter);
    }
    assert(fields(chars@.take(0), sep).drop_last() =~= Seq::<Seq<char>>::empty());
    while i < chars.len()
        invariant
            i <= chars@.len(),
            sep == |c: char| white_space(c),
            filled == |p: Seq<char>| p.len() > 0,
            fields(chars@.take(i as int), sep).len() >= 1,
            word@ == fields(chars@.take(i as int), sep).last(),
            texts(found@) == non_empty(fields(chars@.take(i as int), sep).drop_last()),
        decreases chars@.len() - i,
    {
        let ghost before = fields(chars@.take(i as int), sep);
        let ghost earlier = found@;
        let c = chars[i];
        i += 1;
        assert(chars@.take(i as int).drop_last() =~= chars@.take(i - 1));
        let ghost after = fields(chars@.take(i as int), sep);
        if c.is_whitespace() {
            assert(after.drop_last() =~= before);
            assert(non_empty(before) =~= if word@.len() > 0 {
                non_empty(before.drop_last()).push(word@)
            } else {
                non_empty(before.drop_last())
            }) by {
                reveal(Seq::filter);
            }
            if word.len() > 0 {
                found.push(string_of(&word));
                assert(texts(found@) =~= texts(earlier).push(word@));
            }
            word = Vec::new();
        } else {
            assert(after.drop_last() =~= before.drop_last());
            word.push(c);
        }
    }
    let ghost all = fields(text@, sep);
    assert(chars@.take(i as int) =~= text@);
    assert(non_empty(all) =~= if word@.len() > 0 {
        non_empty(all.drop_last()).push(word@)
    } else {
        non_empty(all.drop_last())
    }) by {
        reveal(Seq::filter);
    }
    if word.len() > 0 {
        let ghost earlier = found@;
        found.push(string_of(&word));
        assert(texts(found@) =~= texts(earlier).push(word@));
    }
    found
}

/// The lines of a text, without their ends.
pub fn lines(text: &str) -> (found: Vec<String>)
    ensures
        texts(found@) == lines_of(text@),
{
    let ghost sep = |c: char| c == '\n';
    let chars = chars_of(text);
    let mut found: Vec<String> = Vec::new();
    let mut line: Vec<char> = Vec::new();
    let mut i: usize = 0;
    while i < chars.len()
        invariant
            i <= chars@.len(),
            sep == |c: char| c == '\n',
            fields(chars@.take(i as int), sep).len() == found@.len() + 1,
            line@ == fields(chars@.take(i as int), sep).last(),
            forall|k: int|
                0 <= k < found@.len() ==> #[trigger] found@[k]@ == without_return(
                    fields(chars@.take(i as int), sep)[k],
                ),
        decreases chars@.len() - i,
    {
        let ghost before = fields(chars@.take(i as int), sep);
        let c = chars[i];
        i += 1;
        assert(chars@.take(i as int).drop_last() =~= chars@.take(i - 1));
        if c == '\n' {
            let len = line.len();
            if len > 0 && line[len - 1] == '\r' {
                line.pop();
            }
            found.push(string_of(&line));
            line = Vec::new();
        } else {
            line.push(c);
        }
    }
    assert(chars@.take(i as int) =~= text@);
    if line.len() > 0 {
        found.push(string_of(&line));
    }
    assert(texts(found@) =~= lines_of(text@));
    found
}

} // verus!
