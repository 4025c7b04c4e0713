//! What holds of every geometry text that lists its geometry itself.

use crate::object::allowed_vertices;
use crate::object::indices_after;
use crate::object::listing_line;
use crate::object::Listing;
use crate::reader::Oracle;
use vstd::prelude::*;

verus! {

/// The larger of two numbers.
pub open spec fn larger(a: nat, b: nat) -> nat {
    if a >= b {
        a
    } else {
        b
    }
}

/// A line of indices keeps the indices that were there, in front, and never
/// takes their number beyond the limit.
pub proof fn lemma_indices_after(done: Seq<u16>, w: Seq<Seq<char>>, limit: nat)
    ensures
        match indices_after(done, w, limit) {
            Some(after) => done.len() <= after.len() <= larger(done.len(), limit)
                && after.len() <= done.len() + w.len() && after.take(done.len() as int) == done,
            None => true,
        },
    decreases w.len(),
{
    if w.len() == 0 {
        assert(done.take(done.len() as int) == done);
    } else {
        lemma_indices_after(done, w.drop_last(), limit);
        match indices_after(done, w.drop_last(), limit) {
            Some(before) => {
                match indices_after(done, w, limit) {
                    Some(after) => {
                        assert(after.take(done.len() as int) == before.take(done.len() as int));
                    },
                    None => {},
                }
            },
            None => {},
        }
    }
}

/// A line that is taken keeps the vertices and indices that were there, in
/// front; it adds one vertex at most, and none beyond the number that is
/// allowed; it adds no index beyond the number that is allowed.
pub proof fn lemma_listing_line(s: Listing, index: int, line: Seq<char>, g: Oracle)
    ensures
        match listing_line(s, index, line, g) {
            Ok(next) => {
                &&& s.vertices.len() <= next.vertices.len() <= s.vertices.len() + 1
                &&& next.vertices.len() <= larger(s.vertices.len(), allowed_vertices(s))
                &&& next.vertices.take(s.vertices.len() as int) == s.vertices
                &&& s.indices.len() <= next.indices.len() <= larger(s.indices.len(), s.index_limit)
                &&& next.indices.take(s.indices.len() as int) == s.indices
            },
            Err(_) => true,
        },
{
    lemma_indices_after(s.indices, crate::text::words(line), s.index_limit);
    match listing_line(s, index, line, g) {
        Ok(next) => {
            assert(next.vertices.take(s.vertices.len() as int) == s.vertices);
            assert(next.indices.take(s.indices.len() as int) == s.indices);
        },
        Err(_) => {},
    }
}

} // verus!
