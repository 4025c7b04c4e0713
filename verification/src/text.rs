//! The text layer of the asset formats: characters, lines, words and
//! unsigned decimal numbers.
//!
//! Every format is read line by line and word by word. The spec functions here
//! say what the lines and words of a text are; the executable functions
//! compute them.

use crate::error::ParseError;
use vstd::prelude::*;

verus! {

/// `String::push` appends the character to the end of the string.
pub assume_specification[ String::push ](s: &mut String, c: char)
    ensures
        final(s)@ == old(s)@.push(c),
;

/// The characters with the Unicode property `White_Space`.
pub open spec fn white_space(c: char) -> bool {
    let n = c as u32;
    ||| 0x09 <= n <= 0x0d
    ||| n == 0x20
    ||| n == 0x85
    ||| n == 0xa0
    ||| n == 0x1680
    ||| 0x2000 <= n <= 0x200a
    ||| n == 0x2028
    ||| n == 0x2029
    ||| n == 0x202f
    ||| n == 0x205f
    ||| n == 0x3000
}

/// The views of a list of character vectors.
pub open spec fn texts(v: Seq<Vec<char>>) -> Seq<Seq<char>> {
    v.map_values(|w: Vec<char>| w@)
}

/// The lines of a text: the pieces between its line feeds. A text with `n`
/// line feeds has `n + 1` lines, the last of them empty if the text ends in a
/// line feed.
pub open spec fn lines(s: Seq<char>) -> Seq<Seq<char>>
    decreases s.len(),
{
    if s.len() == 0 {
        seq![Seq::<char>::empty()]
    } else {
        let before = lines(s.drop_last());
        if s.last() == '\n' {
            before.push(Seq::<char>::empty())
        } else {
            before.drop_last().push(before.last().push(s.last()))
        }
    }
}

/// The words of a text: its maximal runs of characters that are no white
/// space, from left to right.
pub open spec fn words(s: Seq<char>) -> Seq<Seq<char>>
    decreases s.len(),
{
    if s.len() == 0 {
        Seq::<Seq<char>>::empty()
    } else {
        let before = words(s.drop_last());
        if white_space(s.last()) {
            before
        } else if s.len() >= 2 && !white_space(s[s.len() - 2]) {
            before.drop_last().push(before.last().push(s.last()))
        } else {
            before.push(seq![s.last()])
        }
    }
}

/// The text without its leading white space.
pub open spec fn trim_start(s: Seq<char>) -> Seq<char>
    decreases s.len(),
{
    if s.len() > 0 && white_space(s[0]) {
        trim_start(s.skip(1))
    } else {
        s
    }
}

/// The text without its trailing white space.
pub open spec fn trim_end(s: Seq<char>) -> Seq<char>
    decreases s.len(),
{
    if s.len() > 0 && white_space(s.last()) {
        trim_end(s.drop_last())
    } else {
        s
    }
}

/// The text without its leading and trailing white space.
pub open spec fn trim(s: Seq<char>) -> Seq<char> {
    trim_end(trim_start(s))
}

/// The words joined by single spaces.
pub open spec fn join(w: Seq<Seq<char>>) -> Seq<char>
    decreases w.len(),
{
    if w.len() == 0 {
        Seq::<char>::empty()
    } else if w.len() == 1 {
        w[0]
    } else {
        join(w.drop_last()).push(' ') + w.last()
    }
}

/// Whether the text starts with the prefix.
pub open spec fn starts_with(s: Seq<char>, prefix: Seq<char>) -> bool {
    s.len() >= prefix.len() && s.take(prefix.len() as int) == prefix
}

/// Whether the character is one of `0` to `9`.
pub open spec fn digit(c: char) -> bool {
    '0' <= c <= '9'
}

/// The number that a run of decimal digits writes.
pub open spec fn digits_value(s: Seq<char>) -> nat
    decreases s.len(),
{
    if s.len() == 0 {
        0
    } else {
        digits_value(s.drop_last()) * 10 + ((s.last() as u32 - '0' as u32) as nat)
    }
}

/// The text without a leading `+`.
pub open spec fn after_plus(s: Seq<char>) -> Seq<char> {
    if s.len() > 0 && s[0] == '+' {
        s.skip(1)
    } else {
        s
    }
}

/// The number that a text writes as an unsigned decimal: one or more digits,
/// after an optional `+`. `None` for any other text.
pub open spec fn unsigned(s: Seq<char>) -> Option<nat> {
    let body = after_plus(s);
    if body.len() > 0 && (forall|i: int| 0 <= i < body.len() ==> digit(#[trigger] body[i])) {
        Some(digits_value(body))
    } else {
        None
    }
}

/// The number that a text writes as an unsigned decimal, if it is at most
/// `max`.
pub open spec fn unsigned_up_to(s: Seq<char>, max: nat) -> Option<nat> {
    match unsigned(s) {
        Some(n) => if n <= max {
            Some(n)
        } else {
            None
        },
        None => None,
    }
}

/// The decimal digits of a number, without leading zeros; `0` for zero.
pub open spec fn decimal(n: nat) -> Seq<char>
    decreases n,
{
    if n < 10 {
        seq![digit_of(n)]
    } else {
        decimal(n / 10).push(digit_of(n % 10))
    }
}

/// The character of a digit.
pub open spec fn digit_of(d: nat) -> char {
    if d == 0 {
        '0'
    } else if d == 1 {
        '1'
    } else if d == 2 {
        '2'
    } else if d == 3 {
        '3'
    } else if d == 4 {
        '4'
    } else if d == 5 {
        '5'
    } else if d == 6 {
        '6'
    } else if d == 7 {
        '7'
    } else if d == 8 {
        '8'
    } else {
        '9'
    }
}

/// What a parser's state is after the lines `ls`, one after the other from
/// `init`: `step` takes the state, a line's index and the line, and gives the
/// next state or the reason to give up. The first line that is refused
/// decides the result.
pub open spec fn fold_lines<S>(
    ls: Seq<Seq<char>>,
    init: S,
    step: spec_fn(S, int, Seq<char>) -> Result<S, ParseError>,
) -> Result<S, ParseError>
    decreases ls.len(),
{
    if ls.len() == 0 {
        Ok(init)
    } else {
        match fold_lines(ls.drop_last(), init, step) {
            Ok(s) => step(s, ls.len() - 1, ls.last()),
            Err(e) => Err(e),
        }
    }
}

/// Once a prefix of the lines is refused, so is the whole, for the same
/// reason.
pub proof fn lemma_fold_refused<S>(
    ls: Seq<Seq<char>>,
    k: int,
    init: S,
    step: spec_fn(S, int, Seq<char>) -> Result<S, ParseError>,
)
    requires
        0 <= k <= ls.len(),
        fold_lines(ls.take(k), init, step) is Err,
    ensures
        fold_lines(ls, init, step) == fold_lines(ls.take(k), init, step),
    decreases ls.len(),
{
    if k == ls.len() {
        assert(ls.take(k) == ls);
    } else {
        assert(ls.drop_last().take(k) == ls.take(k));
        lemma_fold_refused(ls.drop_last(), k, init, step);
    }
}

/// One more line: the state after `k + 1` lines is the step from the state
/// after `k` lines.
pub proof fn lemma_fold_next<S>(
    ls: Seq<Seq<char>>,
    k: int,
    init: S,
    step: spec_fn(S, int, Seq<char>) -> Result<S, ParseError>,
)
    requires
        0 <= k < ls.len(),
    ensures
        fold_lines(ls.take(k + 1), init, step) == match fold_lines(ls.take(k), init, step) {
            Ok(s) => step(s, k, ls[k]),
            Err(e) => Err(e),
        },
{
    assert(ls.take(k + 1).drop_last() == ls.take(k));
}

/// Whether the character is white space.
pub fn is_whitespace(c: char) -> (r: bool)
    ensures
        r == white_space(c),
{
    let n: u32 = c as u32;
    (0x09 <= n && n <= 0x0d) || n == 0x20 || n == 0x85 || n == 0xa0 || n == 0x1680 || (0x2000 <= n
        && n <= 0x200a) || n == 0x2028 || n == 0x2029 || n == 0x202f || n == 0x205f || n == 0x3000
}

/// The characters of a string slice, in order.
pub fn chars_of(s: &str) -> (v: Vec<char>)
    ensures
        v@ == s@,
{
    let mut v: Vec<char> = Vec::new();
    for c in it: s.chars()
        invariant
            v@ == it.seq().take(it.index() as int),
            it.seq() == s@,
    {
        v.push(c);
    }
    v
}

/// The string made of the characters `v[from..]`.
pub fn string_of(v: &Vec<char>, from: usize) -> (s: String)
    requires
        from <= v.len(),
    ensures
        s@ == v@.skip(from as int),
{
    let mut s = String::new();
    let mut i: usize = from;
    while i < v.len()
        invariant
            from <= i <= v.len(),
            s@ == v@.subrange(from as int, i as int),
        decreases v.len() - i,
    {
        s.push(v[i]);
        i += 1;
    }
    s
}

/// Splits a text into its lines.
pub fn split_lines(text: &Vec<char>) -> (r: Vec<Vec<char>>)
    ensures
        texts(r@) == lines(text@),
{
    let mut done: Vec<Vec<char>> = Vec::new();
    let mut current: Vec<char> = Vec::new();
    let mut i: usize = 0;
    while i < text.len()
        invariant
            i <= text.len(),
            texts(done@).push(current@) == lines(text@.take(i as int)),
        decreases text.len() - i,
    {
        let c = text[i];
        proof {
            let next = text@.take(i + 1);
            assert(next.drop_last() == text@.take(i as int));
            assert(next.last() == c);
            let before = lines(text@.take(i as int));
            assert(before.drop_last() == texts(done@));
            assert(before.last() == current@);
        }
        if c == '\n' {
            let ghost old_done = done@;
            done.push(current);
            current = Vec::new();
            proof {
                assert(texts(done@) == texts(old_done).push(done@.last()@));
            }
        } else {
            current.push(c);
        }
        i += 1;
    }
    proof {
        assert(text@.take(text.len() as int) == text@);
    }
    let ghost old_done = done@;
    done.push(current);
    proof {
        assert(texts(done@) == texts(old_done).push(done@.last()@));
    }
    done
}

/// Splits a text into its words.
pub fn split_words(line: &Vec<char>) -> (r: Vec<Vec<char>>)
    ensures
        texts(r@) == words(line@),
{
    let mut done: Vec<Vec<char>> = Vec::new();
    let mut current: Vec<char> = Vec::new();
    let mut i: usize = 0;
    while i < line.len()
        invariant
            i <= line.len(),
            current@.len() > 0 ==> i > 0 && !white_space(line@[i - 1]) && texts(done@).push(
                current@,
            ) == words(line@.take(i as int)),
            current@.len() == 0 ==> (i == 0 || white_space(line@[i - 1])) && texts(done@) == words(
                line@.take(i as int),
            ),
        decreases line.len() - i,
    {
        let c = line[i];
        proof {
            let next = line@.take(i + 1);
            assert(next.drop_last() == line@.take(i as int));
            assert(next.last() == c);
            if i > 0 {
                assert(next[next.len() - 2] == line@[i - 1]);
            }
            if current@.len() > 0 {
                let before = words(line@.take(i as int));
                assert(before.drop_last() == texts(done@));
                assert(before.last() == current@);
            }
        }
        if is_whitespace(c) {
            if current.len() > 0 {
                let ghost old_done = done@;
                done.push(current);
                current = Vec::new();
                proof {
                    assert(texts(done@) == texts(old_done).push(done@.last()@));
                }
            }
        } else {
            proof {
                if current@.len() == 0 {
                    assert(current@.push(c) == seq![c]);
                }
            }
            current.push(c);
        }
        i += 1;
    }
    proof {
        assert(line@.take(line.len() as int) == line@);
    }
    if current.len() > 0 {
        let ghost old_done = done@;
        done.push(current);
        proof {
            assert(texts(done@) == texts(old_done).push(done@.last()@));
        }
    }
    done
}

/// Removes the leading and trailing white space of a text.
pub fn trimmed(line: &Vec<char>) -> (r: Vec<char>)
    ensures
        r@ == trim(line@),
{
    let n = line.len();
    let mut a: usize = 0;
    proof {
        assert(line@.skip(0) == line@);
    }
    while a < n && is_whitespace(line[a])
        invariant
            a <= n,
            n == line.len(),
            trim_start(line@) == trim_start(line@.skip(a as int)),
        decreases n - a,
    {
        proof {
            assert(line@.skip(a as int).skip(1) == line@.skip(a + 1));
        }
        a += 1;
    }
    let mut b: usize = n;
    proof {
        assert(line@.skip(a as int) == line@.subrange(a as int, n as int));
    }
    while b > a && is_whitespace(line[b - 1])
        invariant
            a <= b <= n,
            n == line.len(),
            trim(line@) == trim_end(line@.subrange(a as int, b as int)),
        decreases b,
    {
        proof {
            assert(line@.subrange(a as int, b as int).drop_last() == line@.subrange(
                a as int,
                b - 1,
            ));
        }
        b -= 1;
    }
    let mut r: Vec<char> = Vec::new();
    let mut i: usize = a;
    while i < b
        invariant
            a <= i <= b <= n,
            n == line.len(),
            r@ == line@.subrange(a as int, i as int),
        decreases b - i,
    {
        r.push(line[i]);
        i += 1;
    }
    r
}

/// Whether two texts hold the same characters.
pub fn same_text(a: &Vec<char>, b: &Vec<char>) -> (r: bool)
    ensures
        r == (a@ == b@),
{
    if a.len() != b.len() {
        return false;
    }
    let mut i: usize = 0;
    while i < a.len()
        invariant
            i <= a.len(),
            a.len() == b.len(),
            a@.take(i as int) == b@.take(i as int),
        decreases a.len() - i,
    {
        if a[i] != b[i] {
            return false;
        }
        proof {
            assert(a@.take(i + 1) == a@.take(i as int).push(a@[i as int]));
            assert(b@.take(i + 1) == b@.take(i as int).push(b@[i as int]));
        }
        i += 1;
    }
    proof {
        assert(a@.take(a.len() as int) == a@);
        assert(b@.take(b.len() as int) == b@);
    }
    true
}

/// Whether a word is the given keyword.
pub fn is_word(word: &Vec<char>, keyword: &str) -> (r: bool)
    ensures
        r == (word@ == keyword@),
{
    let k = chars_of(keyword);
    same_text(word, &k)
}

/// The rest of a line after a prefix, or `None` if the line does not start
/// with it.
pub fn strip_prefix(line: &Vec<char>, prefix: &str) -> (r: Option<Vec<char>>)
    ensures
        starts_with(line@, prefix@) ==> r is Some && r->0@ == line@.skip(prefix@.len() as int),
        !starts_with(line@, prefix@) ==> r is None,
{
    let k = chars_of(prefix);
    if line.len() < k.len() {
        return None;
    }
    let mut i: usize = 0;
    while i < k.len()
        invariant
            i <= k.len() <= line.len(),
            k@ == prefix@,
            line@.take(i as int) == k@.take(i as int),
        decreases k.len() - i,
    {
        if line[i] != k[i] {
            proof {
                assert(line@.take(k.len() as int)[i as int] != k@[i as int]);
            }
            return None;
        }
        proof {
            assert(line@.take(i + 1) == line@.take(i as int).push(line@[i as int]));
            assert(k@.take(i + 1) == k@.take(i as int).push(k@[i as int]));
        }
        i += 1;
    }
    proof {
        assert(k@.take(k.len() as int) == k@);
    }
    let mut rest: Vec<char> = Vec::new();
    let mut j: usize = k.len();
    while j < line.len()
        invariant
            k.len() <= j <= line.len(),
            rest@ == line@.subrange(k.len() as int, j as int),
        decreases line.len() - j,
    {
        rest.push(line[j]);
        j += 1;
    }
    Some(rest)
}

/// The words `words[from..]`, joined by single spaces.
pub fn join_words(words: &Vec<Vec<char>>, from: usize) -> (s: String)
    requires
        from <= words.len(),
    ensures
        s@ == join(texts(words@).skip(from as int)),
{
    let ghost all = texts(words@);
    let mut s = String::new();
    let mut k: usize = from;
    proof {
        assert(all.subrange(from as int, from as int) == Seq::<Seq<char>>::empty());
    }
    while k < words.len()
        invariant
            from <= k <= words.len(),
            all == texts(words@),
            s@ == join(all.subrange(from as int, k as int)),
        decreases words.len() - k,
    {
        if k > from {
            s.push(' ');
        }
        let ghost base = s@;
        let word = &words[k];
        let mut j: usize = 0;
        while j < word.len()
            invariant
                j <= word.len(),
                s@ == base + word@.take(j as int),
            decreases word.len() - j,
        {
            s.push(word[j]);
            proof {
                assert(word@.take(j + 1) == word@.take(j as int).push(word@[j as int]));
            }
            j += 1;
        }
        proof {
            assert(word@.take(word.len() as int) == word@);
            let next = all.subrange(from as int, k + 1);
            assert(next.drop_last() == all.subrange(from as int, k as int));
            assert(next.last() == word@);
            if k == from {
                assert(base + word@ == word@);
            }
        }
        k += 1;
    }
    proof {
        assert(all.subrange(from as int, words.len() as int) == all.skip(from as int));
    }
    s
}

/// A run of digits writes at least what any of its prefixes writes.
proof fn lemma_digits_prefix(s: Seq<char>, k: int)
    requires
        0 <= k <= s.len(),
        forall|i: int| 0 <= i < s.len() ==> digit(#[trigger] s[i]),
    ensures
        digits_value(s.take(k)) <= digits_value(s),
    decreases s.len(),
{
    if k == s.len() {
        assert(s.take(k) == s);
    } else {
        lemma_digits_prefix(s.drop_last(), k);
        assert(s.drop_last().take(k) == s.take(k));
        assert(digit(s[s.len() - 1]));
    }
}

/// Reads an unsigned decimal number that is at most `max`.
pub fn parse_unsigned(word: &Vec<char>, max: usize) -> (r: Option<usize>)
    ensures
        match unsigned_up_to(word@, max as nat) {
            Some(n) => r == Some(n as usize),
            None => r is None,
        },
{
    let n = word.len();
    let start: usize = if n > 0 && word[0] == '+' {
        1
    } else {
        0
    };
    let ghost body = after_plus(word@);
    proof {
        assert(word@.skip(0) == word@);
    }
    if start == n {
        return None;
    }
    let mut i: usize = start;
    while i < n
        invariant
            start <= i <= n,
            n == word.len(),
            body == word@.skip(start as int),
            body == after_plus(word@),
            forall|j: int| 0 <= j < i - start ==> digit(#[trigger] body[j]),
        decreases n - i,
    {
        let c = word[i];
        if c < '0' || c > '9' {
            proof {
                assert(body[i - start] == c);
                assert(!digit(body[i - start]));
            }
            return None;
        }
        i += 1;
    }
    let mut value: usize = 0;
    i = start;
    proof {
        assert(body.take(0) == Seq::<char>::empty());
    }
    while i < n
        invariant
            start <= i <= n,
            n == word.len(),
            body == word@.skip(start as int),
            body == after_plus(word@),
            forall|j: int| 0 <= j < body.len() ==> digit(#[trigger] body[j]),
            value == digits_value(body.take(i - start)),
            value <= max,
        decreases n - i,
    {
        proof {
            assert(digit(body[i - start]));
            assert(body[i - start] == word@[i as int]);
        }
        let d: usize = (word[i] as u32 - '0' as u32) as usize;
        proof {
            let next = body.take(i - start + 1);
            assert(next.drop_last() == body.take(i - start));
            assert(next.last() == word@[i as int]);
            assert(digits_value(next) == value * 10 + d);
            lemma_digits_prefix(body, i - start + 1);
        }
        if d > max || value > (max - d) / 10 {
            return None;
        }
        value = value * 10 + d;
        i += 1;
    }
    proof {
        assert(body.take(n - start) == body);
    }
    Some(value)
}

/// The character of a digit.
fn digit_char(d: usize) -> (c: char)
    requires
        d < 10,
    ensures
        c == digit_of(d as nat),
{
    if d == 0 {
        '0'
    } else if d == 1 {
        '1'
    } else if d == 2 {
        '2'
    } else if d == 3 {
        '3'
    } else if d == 4 {
        '4'
    } else if d == 5 {
        '5'
    } else if d == 6 {
        '6'
    } else if d == 7 {
        '7'
    } else if d == 8 {
        '8'
    } else {
        '9'
    }
}

/// Appends the decimal digits of a number to a string.
pub fn push_decimal(s: &mut String, n: usize)
    ensures
        final(s)@ == old(s)@ + decimal(n as nat),
    decreases n,
{
    if n < 10 {
        s.push(digit_char(n));
        proof {
            assert(old(s)@.push(digit_of(n as nat)) == old(s)@ + decimal(n as nat));
        }
    } else {
        push_decimal(s, n / 10);
        s.push(digit_char(n % 10));
        proof {
            assert((old(s)@ + decimal((n / 10) as nat)).push(digit_of((n % 10) as nat)) == old(s)@
                + decimal(n as nat));
        }
    }
}

} // verus!
