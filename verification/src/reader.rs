//! Reading a binary32 value from text.
//!
//! The library does not convert decimal text to binary32 itself. Each parser
//! takes the conversion from its caller, as a function from a word to the
//! value it writes or `None`.
//!
//! A parser's contract holds for every such function. It has the form
//! `forall|g| reads_as(*number, g) ==> ...`: whatever mapping `g` from words
//! to values the conversion computes, the parser returns what the format
//! says under `g`. A conversion that answers each word in one way only
//! computes such a mapping ([`lemma_single_valued`]). Of one that may answer
//! a word in two ways a contract says only what does not hang on its
//! answers: a text that asks for no value is read as the format says.

use crate::scalar::Scalar;
use crate::text::string_of;
use crate::text::texts;
use vstd::prelude::*;

verus! {

/// What a conversion says of every word.
pub type Oracle = spec_fn(Seq<char>) -> Option<Scalar>;

/// The conversion `f` computes `g`: whatever it returns on a word is what `g`
/// says of that word.
pub open spec fn reads_as<F: Fn(&str) -> Option<Scalar>>(f: F, g: Oracle) -> bool {
    forall|t: &str, r: Option<Scalar>| #[trigger] f.ensures((t,), r) ==> r == g(t@)
}

/// The conversion `f` may be called on every word.
pub open spec fn reads_all<F: Fn(&str) -> Option<Scalar>>(f: F) -> bool {
    forall|t: &str| #[trigger] f.requires((t,))
}

/// The mapping that finds no value in any word. A text is read under it
/// without refusal exactly if none of its lines asks for a value.
pub open spec fn no_value() -> Oracle {
    |s: Seq<char>| None::<Scalar>
}

/// The conversion `f` answers each word in one way only.
pub open spec fn single_valued<F: Fn(&str) -> Option<Scalar>>(f: F) -> bool {
    forall|a: &str, b: &str, x: Option<Scalar>, y: Option<Scalar>|
        a@ == b@ && #[trigger] f.ensures((a,), x) && #[trigger] f.ensures((b,), y) ==> x == y
}

/// The conversion `f` may answer the word `s` with `r`.
pub open spec fn answers<F: Fn(&str) -> Option<Scalar>>(f: F, s: Seq<char>, r: Option<Scalar>) -> bool {
    exists|t: &str| t@ == s && #[trigger] f.ensures((t,), r)
}

/// What the conversion `f` answers to each word, if it answers each in one
/// way only.
pub open spec fn answer_of<F: Fn(&str) -> Option<Scalar>>(f: F) -> Oracle {
    |s: Seq<char>| choose|r: Option<Scalar>| answers(f, s, r)
}

/// A conversion computes a mapping exactly if it answers each word in one
/// way only, and then it computes the mapping of its answers.
pub proof fn lemma_single_valued<F: Fn(&str) -> Option<Scalar>>(f: F)
    ensures
        single_valued(f) ==> reads_as(f, answer_of(f)),
        (exists|g: Oracle| reads_as(f, g)) <==> single_valued(f),
{
    if single_valued(f) {
        assert forall|t: &str, r: Option<Scalar>| #[trigger] f.ensures((t,), r) implies r
            == answer_of(f)(t@) by {
            assert(answers(f, t@, r));
            let chosen = choose|x: Option<Scalar>| answers(f, t@, x);
            assert(answers(f, t@, chosen));
            let witness = choose|w: &str| w@ == t@ && #[trigger] f.ensures((w,), chosen);
            assert(f.ensures((witness,), chosen));
        }
        assert(reads_as(f, answer_of(f)));
    }
    if exists|g: Oracle| reads_as(f, g) {
        let g = choose|g: Oracle| reads_as(f, g);
        assert forall|a: &str, b: &str, x: Option<Scalar>, y: Option<Scalar>|
            a@ == b@ && #[trigger] f.ensures((a,), x) && #[trigger] f.ensures((b,), y) implies x
            == y by {
            assert(x == g(a@));
            assert(y == g(b@));
        }
    }
}

/// The values of the three words from `at` on, or `None` if one of them
/// writes no value.
pub open spec fn triple(w: Seq<Seq<char>>, at: int, g: Oracle) -> Option<[Scalar; 3]> {
    match (g(w[at]), g(w[at + 1]), g(w[at + 2])) {
        (Some(x), Some(y), Some(z)) => Some([x, y, z]),
        _ => None,
    }
}

/// The values of the two words from `at` on, or `None` if one of them writes
/// no value.
pub open spec fn pair(w: Seq<Seq<char>>, at: int, g: Oracle) -> Option<[Scalar; 2]> {
    match (g(w[at]), g(w[at + 1])) {
        (Some(x), Some(y)) => Some([x, y]),
        _ => None,
    }
}

/// Converts one word.
pub fn read_scalar<F: Fn(&str) -> Option<Scalar>>(word: &Vec<char>, number: &F) -> (r: Option<
    Scalar,
>)
    requires
        reads_all(*number),
    ensures
        forall|g: Oracle| #[trigger] reads_as(*number, g) ==> r == g(word@),
{
    let s = string_of(word, 0);
    proof {
        assert(word@.skip(0) == word@);
    }
    let t: &str = s.as_str();
    let r = number(t);
    assert(number.ensures((t,), r));
    r
}

/// Converts the three words from `at` on.
pub fn read_triple<F: Fn(&str) -> Option<Scalar>>(
    words: &Vec<Vec<char>>,
    at: usize,
    number: &F,
) -> (r: Option<[Scalar; 3]>)
    requires
        reads_all(*number),
        at + 3 <= words.len(),
    ensures
        forall|g: Oracle| #[trigger] reads_as(*number, g) ==> r == triple(texts(words@), at as int, g),
{
    let x = read_scalar(&words[at], number);
    let y = read_scalar(&words[at + 1], number);
    let z = read_scalar(&words[at + 2], number);
    match (x, y, z) {
        (Some(x), Some(y), Some(z)) => Some([x, y, z]),
        _ => None,
    }
}

/// Converts the two words from `at` on.
pub fn read_pair<F: Fn(&str) -> Option<Scalar>>(
    words: &Vec<Vec<char>>,
    at: usize,
    number: &F,
) -> (r: Option<[Scalar; 2]>)
    requires
        reads_all(*number),
        at + 2 <= words.len(),
    ensures
        forall|g: Oracle| #[trigger] reads_as(*number, g) ==> r == pair(texts(words@), at as int, g),
{
    let x = read_scalar(&words[at], number);
    let y = read_scalar(&words[at + 1], number);
    match (x, y) {
        (Some(x), Some(y)) => Some([x, y]),
        _ => None,
    }
}

} // verus!
