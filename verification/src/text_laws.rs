//! What holds of the lines, words and trimmed form of every text.

use crate::text::after_plus;
use crate::text::decimal;
use crate::text::digit;
use crate::text::digit_of;
use crate::text::digits_value;
use crate::text::lines;
use crate::text::unsigned;
use crate::text::trim;
use crate::text::trim_end;
use crate::text::trim_start;
use crate::text::white_space;
use crate::text::words;
use vstd::prelude::*;

verus! {

/// The lines put together again, with a line feed between each two.
pub open spec fn unlines(ls: Seq<Seq<char>>) -> Seq<char>
    decreases ls.len(),
{
    if ls.len() == 0 {
        Seq::<char>::empty()
    } else if ls.len() == 1 {
        ls[0]
    } else {
        unlines(ls.drop_last()).push('\n') + ls.last()
    }
}

/// Whether every character of the text is white space.
pub open spec fn blank(s: Seq<char>) -> bool {
    forall|i: int| 0 <= i < s.len() ==> white_space(#[trigger] s[i])
}

/// A text has at least one line; no line holds a line feed; and the lines,
/// put together again with line feeds, are the text.
pub proof fn lemma_lines(s: Seq<char>)
    ensures
        lines(s).len() >= 1,
        forall|i: int, j: int|
            0 <= i < lines(s).len() && 0 <= j < lines(s)[i].len() ==> (#[trigger] lines(s)[i][j])
                != '\n',
        unlines(lines(s)) == s,
    decreases s.len(),
{
    if s.len() == 0 {
        assert(unlines(lines(s)) == s);
    } else {
        let before = lines(s.drop_last());
        lemma_lines(s.drop_last());
        let c = s.last();
        let all = lines(s);
        if c == '\n' {
            assert(all.drop_last() == before);
            assert(unlines(all) == unlines(before).push('\n') + Seq::<char>::empty());
            assert(unlines(all) == s.drop_last().push(c));
            assert(s.drop_last().push(c) == s);
            assert forall|i: int, j: int|
                0 <= i < all.len() && 0 <= j < all[i].len() implies (#[trigger] all[i][j])
                != '\n' by {
                if i < before.len() {
                    assert(all[i][j] == before[i][j]);
                }
            }
        } else {
            let head = before.drop_last();
            let last = before.last().push(c);
            assert(all == head.push(last));
            assert forall|i: int, j: int|
                0 <= i < all.len() && 0 <= j < all[i].len() implies (#[trigger] all[i][j])
                != '\n' by {
                if i < head.len() {
                    assert(all[i][j] == before[i][j]);
                } else if j < before.last().len() {
                    assert(all[i][j] == before[before.len() - 1][j]);
                }
            }
            if before.len() == 1 {
                assert(unlines(before) == before.last());
                assert(unlines(all) == last);
            } else {
                assert(all.drop_last() == head);
                assert(unlines(before) == unlines(head).push('\n') + before.last());
                assert(unlines(all) == unlines(head).push('\n') + last);
                assert(unlines(head).push('\n') + last == (unlines(head).push('\n')
                    + before.last()).push(c));
            }
            assert(unlines(all) == s.drop_last().push(c));
            assert(s.drop_last().push(c) == s);
        }
    }
}

/// No word is empty and no word holds white space. A text has no word
/// exactly if it is blank, and a text that ends in a character that is no
/// white space ends in its last word.
pub proof fn lemma_words(s: Seq<char>)
    ensures
        forall|i: int| 0 <= i < words(s).len() ==> (#[trigger] words(s)[i]).len() > 0,
        forall|i: int, j: int|
            0 <= i < words(s).len() && 0 <= j < words(s)[i].len() ==> !white_space(
                #[trigger] words(s)[i][j],
            ),
        words(s).len() == 0 <==> blank(s),
        s.len() > 0 && !white_space(s.last()) ==> words(s).len() > 0 && words(s).last().last()
            == s.last(),
    decreases s.len(),
{
    if s.len() > 0 {
        let init = s.drop_last();
        let before = words(init);
        let all = words(s);
        let c = s.last();
        lemma_words(init);
        if white_space(c) {
            if blank(init) {
                assert forall|i: int| 0 <= i < s.len() implies white_space(#[trigger] s[i]) by {
                    if i < init.len() {
                        assert(s[i] == init[i]);
                    }
                }
            }
            if blank(s) {
                assert forall|i: int| 0 <= i < init.len() implies white_space(
                    #[trigger] init[i],
                ) by {
                    assert(init[i] == s[i]);
                }
            }
        } else {
            assert(!blank(s)) by {
                assert(s[s.len() - 1] == c);
            }
            if s.len() >= 2 && !white_space(s[s.len() - 2]) {
                assert(init.last() == s[s.len() - 2]);
                let head = before.drop_last();
                let last = before.last().push(c);
                assert(all == head.push(last));
                assert forall|i: int, j: int|
                    0 <= i < all.len() && 0 <= j < all[i].len() implies !white_space(
                    #[trigger] all[i][j],
                ) by {
                    if i < head.len() {
                        assert(all[i][j] == before[i][j]);
                    } else if j < before.last().len() {
                        assert(all[i][j] == before[before.len() - 1][j]);
                    }
                }
                assert forall|i: int| 0 <= i < all.len() implies (#[trigger] all[i]).len() > 0 by {
                    if i < head.len() {
                        assert(all[i] == before[i]);
                    }
                }
            } else {
                assert(all == before.push(seq![c]));
                assert forall|i: int, j: int|
                    0 <= i < all.len() && 0 <= j < all[i].len() implies !white_space(
                    #[trigger] all[i][j],
                ) by {
                    if i < before.len() {
                        assert(all[i][j] == before[i][j]);
                    }
                }
                assert forall|i: int| 0 <= i < all.len() implies (#[trigger] all[i]).len() > 0 by {
                    if i < before.len() {
                        assert(all[i] == before[i]);
                    }
                }
            }
        }
    }
}

/// White space in front of a text changes none of its words.
pub proof fn lemma_words_after_space(s: Seq<char>)
    requires
        s.len() > 0,
        white_space(s[0]),
    ensures
        words(s) == words(s.skip(1)),
    decreases s.len(),
{
    let rest = s.skip(1);
    if rest.len() == 0 {
        assert(s.last() == s[0]);
        assert(s.drop_last().len() == 0);
        assert(words(s) == words(s.drop_last()));
    } else {
        let init = s.drop_last();
        let c = s.last();
        assert(init[0] == s[0]);
        lemma_words_after_space(init);
        assert(init.skip(1) == rest.drop_last());
        assert(rest.last() == c);
        let before = words(init);
        assert(words(rest.drop_last()) == before);
        if white_space(c) {
            assert(words(s) == before);
            assert(words(rest) == before);
        } else if !white_space(s[s.len() - 2]) {
            assert(rest.len() >= 2) by {
                if rest.len() == 1 {
                    assert(s[s.len() - 2] == s[0]);
                }
            }
            assert(rest[rest.len() - 2] == s[s.len() - 2]);
            assert(words(s) == before.drop_last().push(before.last().push(c)));
            assert(words(rest) == before.drop_last().push(before.last().push(c)));
        } else {
            if rest.len() >= 2 {
                assert(rest[rest.len() - 2] == s[s.len() - 2]);
            }
            assert(words(s) == before.push(seq![c]));
            assert(words(rest) == before.push(seq![c]));
        }
    }
}

/// A text and its trimmed form have the same words.
pub proof fn lemma_words_of_trimmed(s: Seq<char>)
    ensures
        words(trim_start(s)) == words(s),
        words(trim_end(s)) == words(s),
        words(trim(s)) == words(s),
{
    lemma_words_of_trim_start(s);
    lemma_words_of_trim_end(s);
    lemma_words_of_trim_end(trim_start(s));
}

/// A text and the text without its leading white space have the same
/// words.
pub proof fn lemma_words_of_trim_start(s: Seq<char>)
    ensures
        words(trim_start(s)) == words(s),
    decreases s.len(),
{
    if s.len() > 0 && white_space(s[0]) {
        lemma_words_after_space(s);
        lemma_words_of_trim_start(s.skip(1));
    }
}

/// A text and the text without its trailing white space have the same
/// words.
pub proof fn lemma_words_of_trim_end(s: Seq<char>)
    ensures
        words(trim_end(s)) == words(s),
    decreases s.len(),
{
    if s.len() > 0 && white_space(s.last()) {
        lemma_words_of_trim_end(s.drop_last());
    }
}

/// The text without its leading white space does not start with white
/// space, and what was taken off is white space only.
pub proof fn lemma_trim_start(s: Seq<char>)
    ensures
        trim_start(s).len() <= s.len(),
        trim_start(s) == s.skip(s.len() - trim_start(s).len()),
        blank(s.take(s.len() - trim_start(s).len())),
        trim_start(s).len() > 0 ==> !white_space(trim_start(s)[0]),
    decreases s.len(),
{
    if s.len() > 0 && white_space(s[0]) {
        let rest = s.skip(1);
        lemma_trim_start(rest);
        let cut = s.len() - trim_start(s).len();
        assert(rest.skip(rest.len() - trim_start(rest).len()) == s.skip(cut));
        assert forall|i: int| 0 <= i < cut implies white_space(#[trigger] s.take(cut)[i]) by {
            if i > 0 {
                assert(s.take(cut)[i] == rest.take(cut - 1)[i - 1]);
            }
        }
    } else {
        assert(s.skip(0) == s);
    }
}

/// The text without its trailing white space does not end in white space,
/// and what was taken off is white space only.
pub proof fn lemma_trim_end(s: Seq<char>)
    ensures
        trim_end(s).len() <= s.len(),
        trim_end(s) == s.take(trim_end(s).len() as int),
        blank(s.skip(trim_end(s).len() as int)),
        trim_end(s).len() > 0 ==> !white_space(trim_end(s).last()),
    decreases s.len(),
{
    if s.len() > 0 && white_space(s.last()) {
        let init = s.drop_last();
        lemma_trim_end(init);
        let keep = trim_end(s).len() as int;
        assert(init.take(keep) == s.take(keep));
        assert forall|i: int| 0 <= i < s.len() - keep implies white_space(
            #[trigger] s.skip(keep)[i],
        ) by {
            if i < init.len() - keep {
                assert(s.skip(keep)[i] == init.skip(keep)[i]);
            }
        }
    } else {
        assert(s.take(s.len() as int) == s);
    }
}

/// A trimmed text neither starts nor ends with white space, and trimming it
/// again changes nothing. It is empty exactly if the text is blank, that is,
/// has no words; otherwise it starts as the first word of the text starts.
pub proof fn lemma_trim(s: Seq<char>)
    ensures
        trim(s).len() > 0 ==> !white_space(trim(s)[0]) && !white_space(trim(s).last()),
        trim(trim(s)) == trim(s),
        trim(s).len() == 0 <==> words(s).len() == 0,
        trim(s).len() > 0 ==> words(s)[0].len() > 0 && words(s)[0][0] == trim(s)[0],
{
    let front = trim_start(s);
    let t = trim(s);
    lemma_trim_start(s);
    lemma_trim_end(front);
    if t.len() > 0 {
        assert(t[0] == front[0]);
        assert(trim_start(t) == t);
        assert(trim_end(t) == t);
    } else {
        assert(trim_start(t) == t);
        assert(trim_end(t) == t);
    }
    lemma_words_of_trimmed(s);
    lemma_words(t);
    if t.len() > 0 {
        assert(!blank(t)) by {
            assert(!white_space(t[0]));
        }
        lemma_first_word(t);
    }
}

/// A text that starts with a character that is no white space starts with
/// its first word.
pub proof fn lemma_first_word(s: Seq<char>)
    requires
        s.len() > 0,
        !white_space(s[0]),
    ensures
        words(s).len() > 0,
        words(s)[0].len() > 0,
        words(s)[0][0] == s[0],
    decreases s.len(),
{
    if s.len() == 1 {
        assert(words(s.drop_last()).len() == 0);
        assert(words(s) == Seq::<Seq<char>>::empty().push(seq![s.last()]));
    } else {
        let init = s.drop_last();
        assert(init[0] == s[0]);
        lemma_first_word(init);
        lemma_words(init);
        let before = words(init);
        if white_space(s.last()) {
        } else if !white_space(s[s.len() - 2]) {
            assert(init.last() == s[s.len() - 2]);
            if before.len() == 1 {
                assert(words(s)[0] == before[0].push(s.last()));
            } else {
                assert(words(s)[0] == before[0]);
            }
        } else {
            assert(words(s)[0] == before[0]);
        }
    }
}

/// The decimal digits of a number are digits, at least one, and write the
/// number: reading what was written gives the number back.
pub proof fn lemma_decimal(n: nat)
    ensures
        decimal(n).len() >= 1,
        forall|i: int| 0 <= i < decimal(n).len() ==> digit(#[trigger] decimal(n)[i]),
        digits_value(decimal(n)) == n,
        unsigned(decimal(n)) == Some(n),
        n > 0 ==> decimal(n)[0] != '0',
    decreases n,
{
    let d = decimal(n);
    if n < 10 {
        assert(d.drop_last().len() == 0);
        assert(digits_value(d.drop_last()) == 0);
        assert(d.last() == digit_of(n));
        assert(digits_value(d) == n);
    } else {
        lemma_decimal(n / 10);
        assert(d.drop_last() == decimal(n / 10));
        assert(d.last() == digit_of(n % 10));
        assert(digits_value(d) == (n / 10) * 10 + n % 10);
        assert forall|i: int| 0 <= i < d.len() implies digit(#[trigger] d[i]) by {
            if i < d.len() - 1 {
                assert(d[i] == decimal(n / 10)[i]);
            }
        }
        assert(d[0] == decimal(n / 10)[0]);
    }
    assert(d[0] != '+');
    assert(after_plus(d) == d);
}

} // verus!
