//! Words, titles and numbers as text, and the views of lists.
use vstd::prelude::*;
use vstd::string::*;

verus! {

/// The longest title, in characters, that is put in the terminal's title bar.
pub const TITLE_LIMIT: usize = 72;

/// Whether a character has Unicode's `White_Space` property.
pub open spec fn white_space(c: char) -> bool {
    let code = c as int;
    ||| 0x09 <= code <= 0x0D
    ||| code == 0x20
    ||| code == 0x85
    ||| code == 0xA0
    ||| code == 0x1680
    ||| 0x2000 <= code <= 0x200A
    ||| code == 0x2028
    ||| code == 0x2029
    ||| code == 0x202F
    ||| code == 0x205F
    ||| code == 0x3000
}

/// `char::is_whitespace`: whether the character has Unicode's `White_Space` property.
pub assume_specification[ char::is_whitespace ](c: char) -> (r: bool)
    ensures
        r == white_space(c),
;

/// `String::push` appends one character.
pub assume_specification[ String::push ](s: &mut String, c: char)
    ensures
        final(s)@ == old(s)@.push(c),
;

/// The elements' views, in order.
pub open spec fn views<T: View>(s: Seq<T>) -> Seq<T::V> {
    s.map_values(|x: T| x@)
}

/// The view of an optional value.
pub open spec fn opt_view<T: View>(o: Option<T>) -> Option<T::V> {
    match o {
        Some(x) => Some(x@),
        None => None,
    }
}

/// Appends `x` to `v`.
pub fn push_item<T: View>(v: &mut Vec<T>, x: T)
    ensures
        views(final(v)@) == views(old(v)@).push(x@),
        final(v)@ == old(v)@.push(x),
{
    v.push(x);
    assert(views(v@) =~= views(old(v)@).push(x@));
}

/// What a left-to-right scan of `s` has found: the closed words and the word still open.
pub open spec fn scan_words(s: Seq<char>) -> (Seq<Seq<char>>, Seq<char>)
    decreases s.len(),
{
    if s.len() == 0 {
        (Seq::empty(), Seq::empty())
    } else {
        let (closed, open) = scan_words(s.drop_last());
        if !white_space(s.last()) {
            (closed, open.push(s.last()))
        } else if open.len() == 0 {
            (closed, open)
        } else {
            (closed.push(open), Seq::empty())
        }
    }
}

/// The words of `s`: its maximal runs of characters that are not white space.
pub open spec fn words_of(s: Seq<char>) -> Seq<Seq<char>> {
    let (closed, open) = scan_words(s);
    if open.len() == 0 {
        closed
    } else {
        closed.push(open)
    }
}

/// The parts, one after the other.
pub open spec fn concat<T>(parts: Seq<Seq<T>>) -> Seq<T>
    decreases parts.len(),
{
    if parts.len() == 0 {
        Seq::empty()
    } else {
        concat(parts.drop_last()) + parts.last()
    }
}

/// The parts with `separator` between each two neighbours.
pub open spec fn joined(parts: Seq<Seq<char>>, separator: Seq<char>) -> Seq<char>
    decreases parts.len(),
{
    if parts.len() == 0 {
        Seq::empty()
    } else if parts.len() == 1 {
        parts[0]
    } else {
        joined(parts.drop_last(), separator) + separator + parts.last()
    }
}

/// `value`, cut to `TITLE_LIMIT` characters of which the last is an ellipsis if it is longer.
pub open spec fn clipped(value: Seq<char>) -> Seq<char> {
    if value.len() <= TITLE_LIMIT {
        value
    } else {
        value.take(TITLE_LIMIT - 1).push('…')
    }
}

/// A title as it is shown: single blanks between its words, and no longer than the limit.
pub open spec fn title_text(value: Seq<char>) -> Seq<char> {
    clipped(joined(words_of(value), " "@))
}

/// `value` without its line ends.
pub open spec fn on_one_line(value: Seq<char>) -> Seq<char> {
    value.filter(|c: char| c != '\n')
}

/// `value` without its line ends.
pub fn one_line(value: &str) -> (r: String)
    ensures
        r@ == on_one_line(value@),
{
    let mut r = String::new();
    proof {
        assert(value@.take(0) =~= Seq::empty());
        reveal(Seq::filter);
    }
    for c in it: value.chars()
        invariant
            it.seq() == value@,
            r@ == on_one_line(value@.take(it.index())),
    {
        proof {
            let i = it.index();
            assert(value@.take(i + 1) =~= value@.take(i).push(c));
            assert(value@.take(i + 1).drop_last() =~= value@.take(i));
            reveal(Seq::filter);
        }
        if c != '\n' {
            r.push(c);
        }
    }
    proof {
        assert(value@.take(value@.len() as int) =~= value@);
    }
    r
}

/// Splits `value` at white space.
pub fn split_words(value: &str) -> (words: Vec<String>)
    ensures
        views(words@) == words_of(value@),
{
    let mut words: Vec<String> = Vec::new();
    let mut open = String::new();
    proof {
        assert(value@.take(0) =~= Seq::empty());
        assert(views(words@) =~= Seq::empty());
    }
    for c in it: value.chars()
        invariant
            it.seq() == value@,
            (views(words@), open@) == scan_words(value@.take(it.index())),
    {
        proof {
            assert(value@.take(it.index() + 1).drop_last() =~= value@.take(it.index()));
        }
        if c.is_whitespace() {
            if !open.as_str().is_empty() {
                push_item(&mut words, open);
                open = String::new();
            }
        } else {
            open.push(c);
        }
    }
    proof {
        assert(value@.take(value@.len() as int) =~= value@);
    }
    if !open.as_str().is_empty() {
        push_item(&mut words, open);
    }
    words
}

/// Joins `parts` with `separator` between each two neighbours.
pub fn join_parts(parts: &Vec<String>, separator: &str) -> (r: String)
    ensures
        r@ == joined(views(parts@), separator@),
{
    let mut r = String::new();
    for i in 0..parts.len()
        invariant
            r@ == joined(views(parts@).take(i as int), separator@),
    {
        proof {
            assert(views(parts@).take(i + 1).drop_last() =~= views(parts@).take(i as int));
        }
        if i > 0 {
            r.append(separator);
        }
        r.append(parts[i].as_str());
        assert(r@ =~= joined(views(parts@).take(i + 1), separator@));
    }
    proof {
        assert(views(parts@).take(parts@.len() as int) =~= views(parts@));
    }
    r
}

/// The first `count` characters of `value`.
pub fn first_chars(value: &str, count: usize) -> (r: String)
    requires
        count <= value@.len(),
    ensures
        r@ == value@.take(count as int),
{
    value.substring_char(0, count).to_owned()
}

/// Cuts `value` to the title limit, and marks the cut with an ellipsis.
pub fn clip_title(value: String) -> (r: String)
    ensures
        r@ == clipped(value@),
{
    if value.as_str().unicode_len() <= TITLE_LIMIT {
        value
    } else {
        let mut r = first_chars(value.as_str(), TITLE_LIMIT - 1);
        r.push('…');
        r
    }
}

/// A show's title as it is put in the terminal's title bar: its words with single blanks
/// between them, cut to the limit.
pub fn title_copy(value: &str) -> (r: String)
    ensures
        r@ == title_text(value@),
{
    let words = split_words(value);
    clip_title(join_parts(&words, " "))
}

/// The decimal digits of `n`.
pub open spec fn decimal_text(n: nat) -> Seq<char>
    decreases n,
{
    if n < 10 {
        seq![(48 + n) as char]
    } else {
        decimal_text(n / 10).push((48 + n % 10) as char)
    }
}

/// The decimal digits of `n`.
pub fn decimal(n: u128) -> (r: String)
    ensures
        r@ == decimal_text(n as nat),
    decreases n,
{
    let digit = (48u8 + (n % 10) as u8) as char;
    let mut r = if n < 10 {
        String::new()
    } else {
        decimal(n / 10)
    };
    r.push(digit);
    assert(r@ =~= decimal_text(n as nat));
    r
}

/// Whether `word` has no white space in it.
pub open spec fn solid(word: Seq<char>) -> bool {
    forall|k: int| 0 <= k < word.len() ==> !white_space(#[trigger] word[k])
}

/// What a scan has found holds no white space, and no closed word is empty.
proof fn lemma_scan(s: Seq<char>)
    ensures
        solid(scan_words(s).1),
        forall|i: int|
            0 <= i < scan_words(s).0.len() ==> {
                &&& (#[trigger] scan_words(s).0[i]).len() > 0
                &&& solid(scan_words(s).0[i])
            },
    decreases s.len(),
{
    if s.len() > 0 {
        lemma_scan(s.drop_last());
        let (closed, open) = scan_words(s.drop_last());
        assert(solid(open));
        if !white_space(s.last()) {
            assert(scan_words(s) == (closed, open.push(s.last())));
            assert(solid(open.push(s.last())));
        } else if open.len() > 0 {
            assert(scan_words(s) == (closed.push(open), Seq::<char>::empty()));
        }
    }
}

/// No word is empty, and none has white space in it.
pub proof fn law_words_have_no_white_space(s: Seq<char>)
    ensures
        forall|i: int|
            0 <= i < words_of(s).len() ==> {
                &&& (#[trigger] words_of(s)[i]).len() > 0
                &&& solid(words_of(s)[i])
            },
{
    lemma_scan(s);
}

/// Words that are joined with blanks have no other white space between them.
proof fn lemma_joined_with_blanks(words: Seq<Seq<char>>)
    requires
        forall|i: int| 0 <= i < words.len() ==> solid(#[trigger] words[i]),
    ensures
        forall|k: int|
            0 <= k < joined(words, " "@).len() ==> (#[trigger] joined(words, " "@)[k]) == ' '
                || !white_space(joined(words, " "@)[k]),
    decreases words.len(),
{
    reveal_strlit(" ");
    if words.len() > 1 {
        let rest = words.drop_last();
        assert forall|i: int| 0 <= i < rest.len() implies solid(#[trigger] rest[i]) by {
            assert(rest[i] == words[i]);
        }
        lemma_joined_with_blanks(rest);
        let last = words.len() - 1;
        let before = joined(rest, " "@);
        assert forall|k: int|
            0 <= k < joined(words, " "@).len() implies (#[trigger] joined(words, " "@)[k]) == ' '
            || !white_space(joined(words, " "@)[k]) by {
            if k >= before.len() + 1 {
                assert(joined(words, " "@)[k] == words[last][k - before.len() - 1]);
            } else if k < before.len() {
                assert(joined(words, " "@)[k] == before[k]);
            }
        }
    } else if words.len() == 1 {
        assert forall|k: int|
            0 <= k < joined(words, " "@).len() implies !white_space(
            #[trigger] joined(words, " "@)[k],
        ) by {
            assert(joined(words, " "@)[k] == words[0][k]);
        }
    }
}

/// A title fits the title bar: it is not longer than the limit, and the only white space in it is
/// the blank.
pub proof fn law_title_fits_the_bar(value: Seq<char>)
    ensures
        title_text(value).len() <= TITLE_LIMIT,
        forall|k: int|
            0 <= k < title_text(value).len() ==> (#[trigger] title_text(value)[k]) == ' '
                || !white_space(title_text(value)[k]),
{
    law_words_have_no_white_space(value);
    lemma_joined_with_blanks(words_of(value));
    let whole = joined(words_of(value), " "@);
    assert forall|k: int|
        0 <= k < title_text(value).len() implies (#[trigger] title_text(value)[k]) == ' '
        || !white_space(title_text(value)[k]) by {
        if whole.len() <= TITLE_LIMIT || k < TITLE_LIMIT - 1 {
            assert(title_text(value)[k] == whole[k]);
        }
    }
}

/// Whether `text` has no white space but single blanks, and none at its start.
pub open spec fn spaced(text: Seq<char>) -> bool {
    forall|k: int|
        0 <= k < text.len() && white_space(#[trigger] text[k]) ==> text[k] == ' ' && k > 0
            && !white_space(text[k - 1])
}

/// Words that are joined with blanks are spaced, and end with a word.
proof fn lemma_joined_is_spaced(words: Seq<Seq<char>>)
    requires
        forall|i: int|
            0 <= i < words.len() ==> (#[trigger] words[i]).len() > 0 && solid(words[i]),
    ensures
        spaced(joined(words, " "@)),
        words.len() > 0 ==> joined(words, " "@).len() > 0 && !white_space(
            joined(words, " "@).last(),
        ),
    decreases words.len(),
{
    reveal_strlit(" ");
    if words.len() == 1 {
        assert(joined(words, " "@) == words[0]);
    } else if words.len() > 1 {
        let rest = words.drop_last();
        assert forall|i: int| 0 <= i < rest.len() implies (#[trigger] rest[i]).len() > 0 && solid(
            rest[i],
        ) by {
            assert(rest[i] == words[i]);
        }
        lemma_joined_is_spaced(rest);
        let before = joined(rest, " "@);
        let last = words[words.len() - 1];
        let whole = joined(words, " "@);
        assert(whole == before + " "@ + last);
        assert forall|k: int| 0 <= k < whole.len() && white_space(#[trigger] whole[k]) implies whole[k]
            == ' ' && k > 0 && !white_space(whole[k - 1]) by {
            if k < before.len() {
                assert(whole[k] == before[k]);
                assert(whole[k - 1] == before[k - 1]);
            } else if k == before.len() {
                assert(whole[k - 1] == before.last());
            } else {
                assert(whole[k] == last[k - before.len() - 1]);
            }
        }
        assert(whole.last() == last[last.len() - 1]);
    }
}

/// The words of a spaced text, joined with blanks, are the text again.
proof fn lemma_spaced_is_kept(text: Seq<char>)
    requires
        spaced(text),
    ensures
        ({
            let (closed, open) = scan_words(text);
            if text.len() == 0 {
                closed.len() == 0 && open.len() == 0
            } else if white_space(text.last()) {
                closed.len() > 0 && open.len() == 0 && text == joined(closed, " "@) + " "@
            } else {
                open.len() > 0 && text == joined(closed.push(open), " "@)
            }
        }),
    decreases text.len(),
{
    reveal_strlit(" ");
    if text.len() > 0 {
        let rest = text.drop_last();
        let c = text.last();
        assert forall|k: int| 0 <= k < rest.len() && white_space(#[trigger] rest[k]) implies rest[k]
            == ' ' && k > 0 && !white_space(rest[k - 1]) by {
            assert(rest[k] == text[k]);
            assert(rest[k - 1] == text[k - 1]);
        }
        lemma_spaced_is_kept(rest);
        let (closed, open) = scan_words(rest);
        assert(text =~= rest.push(c));
        if white_space(c) {
            assert(text[text.len() - 1] == c);
            assert(rest.len() > 0 && rest.last() == text[text.len() - 2]);
            assert(scan_words(text) == (closed.push(open), Seq::<char>::empty()));
            assert(" "@ =~= seq![' ']);
            assert(text =~= joined(closed.push(open), " "@) + " "@);
        } else {
            let longer = open.push(c);
            assert(scan_words(text) == (closed, longer));
            let words = closed.push(longer);
            assert(words.drop_last() =~= closed);
            if rest.len() == 0 {
                assert(text =~= joined(words, " "@));
            } else if white_space(rest.last()) {
                assert(longer =~= seq![c]);
                assert(text =~= joined(closed, " "@) + " "@ + longer);
            } else {
                assert(closed.push(open).drop_last() =~= closed);
                if closed.len() == 0 {
                    assert(text =~= longer);
                } else {
                    assert(text =~= joined(closed, " "@) + " "@ + longer);
                }
            }
        }
    }
}

/// A title that was made once stays as it is when it is made again.
pub proof fn law_a_title_stays_a_title(value: Seq<char>)
    ensures
        title_text(title_text(value)) == title_text(value),
{
    let words = words_of(value);
    let whole = joined(words, " "@);
    let title = title_text(value);
    law_words_have_no_white_space(value);
    lemma_joined_is_spaced(words);
    assert(spaced(title)) by {
        assert forall|k: int| 0 <= k < title.len() && white_space(#[trigger] title[k]) implies title[k]
            == ' ' && k > 0 && !white_space(title[k - 1]) by {
            assert(title[k] == whole[k]);
            assert(title[k - 1] == whole[k - 1]);
        }
    }
    lemma_spaced_is_kept(title);
    let (closed, open) = scan_words(title);
    if title.len() == 0 {
        assert(joined(words_of(title), " "@) =~= title);
    } else {
        assert(!white_space(title.last()));
        assert(words_of(title) == closed.push(open));
    }
}

/// The number that a text of digits denotes.
pub open spec fn number_in(text: Seq<char>) -> int
    decreases text.len(),
{
    if text.len() == 0 {
        0
    } else {
        10 * number_in(text.drop_last()) + (text.last() as int - 48)
    }
}

/// A number is written in digits that denote it, and without needless zeros before them.
pub proof fn law_a_number_can_be_read_back(n: u128, r: String)
    requires
        call_ensures(decimal, (n,), r),
    ensures
        number_in(r@) == n,
        forall|i: int| 0 <= i < r@.len() ==> '0' <= #[trigger] r@[i] <= '9',
        r@.len() > 1 ==> r@[0] != '0',
{
    lemma_decimal(n as nat);
}

/// The digits of a number.
proof fn lemma_decimal(n: nat)
    ensures
        number_in(decimal_text(n)) == n,
        decimal_text(n).len() >= 1,
        forall|i: int| 0 <= i < decimal_text(n).len() ==> '0' <= #[trigger] decimal_text(n)[i] <= '9',
        n > 0 ==> decimal_text(n)[0] != '0',
        n < 10 ==> decimal_text(n).len() == 1,
    decreases n,
{
    let text = decimal_text(n);
    reveal_with_fuel(number_in, 2);
    if n < 10 {
        assert(text.drop_last() =~= Seq::empty());
    } else {
        lemma_decimal(n / 10);
        assert(text.drop_last() =~= decimal_text(n / 10));
    }
}

/// The words of a text hold every character of it that is not white space, in their order.
proof fn lemma_words_keep_the_letters(s: Seq<char>)
    ensures
        concat(scan_words(s).0) + scan_words(s).1 == s.filter(|c: char| !white_space(c)),
    decreases s.len(),
{
    reveal(Seq::filter);
    if s.len() > 0 {
        let rest = s.drop_last();
        lemma_words_keep_the_letters(rest);
        let (closed, open) = scan_words(rest);
        if !white_space(s.last()) {
            assert(concat(closed) + open.push(s.last()) =~= (concat(closed) + open).push(s.last()));
        } else if open.len() == 0 {
            assert(concat(closed) + open =~= concat(closed));
        } else {
            assert(closed.push(open).drop_last() =~= closed);
            assert(concat(closed.push(open)) + Seq::<char>::empty() =~= concat(closed) + open);
        }
    } else {
        assert(concat(scan_words(s).0) + scan_words(s).1 =~= Seq::empty());
    }
}

/// A title keeps every letter of what it is made from, in its order and in the same words, with one
/// blank between two of them; where that is longer than 72 characters the first 71 stay, and an
/// ellipsis tells of the rest.
pub proof fn law_a_title_keeps_its_words(value: &str, r: String)
    requires
        call_ensures(title_copy, (value,), r),
    ensures
        concat(words_of(value@)) == value@.filter(|c: char| !white_space(c)),
        ({
            let whole = joined(words_of(value@), " "@);
            &&& whole.len() <= 72 ==> r@ == whole
            &&& whole.len() > 72 ==> r@ == whole.take(71) + seq!['…']
        }),
{
    lemma_words_keep_the_letters(value@);
    let (closed, open) = scan_words(value@);
    if open.len() == 0 {
        assert(concat(closed) + open =~= concat(closed));
    } else {
        assert(closed.push(open).drop_last() =~= closed);
    }
    let whole = joined(words_of(value@), " "@);
    if whole.len() > 72 {
        assert(r@ =~= whole.take(71) + seq!['…']);
    }
}

/// A text on one line has no line end, and everything else that it had.
pub proof fn law_one_line_has_no_line_end(value: &str, r: String)
    requires
        call_ensures(one_line, (value,), r),
    ensures
        r@ == value@.filter(|c: char| c != '\n'),
        !r@.contains('\n'),
{
    let keep = |c: char| c != '\n';
    assert forall|i: int| 0 <= i < r@.len() implies #[trigger] r@[i] != '\n' by {
        value@.lemma_filter_pred(keep, i);
    }
}

} // verus!
