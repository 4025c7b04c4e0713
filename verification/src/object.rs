//! Geometries and the geometry text format.
//!
//! A geometry text is read line by line and each line word by word. A line
//! without words and a line whose first word starts with `#` say nothing.
//!
//! - `name` sets the geometry's name to the rest of the words, joined by
//!   single spaces;
//! - `obj_file:` names a mesh file to take vertices and indices from. A text
//!   with such a line is a reference to that file, and nothing else in it
//!   but the name counts;
//! - `vertices N` allows `N` vertices in all, `indices N` allows `N` indices
//!   in all. Before such a line none is allowed;
//! - `position: x y z color: r g b normal: nx ny nz uv: u v` is a vertex.
//!   The groups after the position may be left off from the right; a group
//!   that is left off, or stands under another label, takes its default:
//!   white, the normal (0, 1, 0), the texture coordinates (0, 0). A vertex
//!   beyond the allowed number is skipped unread;
//! - a line whose first word starts with a decimal digit holds indices, one
//!   for each word, each at most 65535. Words beyond the allowed number are
//!   skipped unread.
//!
//! Any other line is skipped.

use crate::error::ParseError;
use crate::reader::no_value;
use crate::reader::pair;
use crate::reader::read_pair;
use crate::reader::read_triple;
use crate::reader::reads_all;
use crate::reader::reads_as;
use crate::reader::triple;
use crate::reader::Oracle;
use crate::scalar::Scalar;
use crate::scalar::ONE;
use crate::scalar::ZERO;
use crate::text::chars_of;
use crate::text::digit;
use crate::text::fold_lines;
use crate::text::is_word;
use crate::text::join;
use crate::text::join_words;
use crate::text::lemma_fold_next;
use crate::text::lemma_fold_refused;
use crate::text::lines;
use crate::text::parse_unsigned;
use crate::text::split_lines;
use crate::text::split_words;
use crate::text::string_of;
use crate::text::texts;
use crate::text::unsigned_up_to;
use crate::text::words;
use crate::vertex::Vertex;
use vstd::prelude::*;
use vstd::string::StringExecFns;

verus! {

/// The largest index that an index buffer of 16-bit indices holds.
pub const MAX_INDEX: usize = 65535;

/// A named mesh: vertices, and indices that pick three of them for each
/// triangle. Instances refer to a geometry by its name.
#[derive(Debug)]
pub struct ObjectGeometry {
    pub name: String,
    pub vertices: Vec<Vertex>,
    pub indices: Vec<u16>,
}

/// A geometry as a mathematical value.
pub struct GeometryView {
    pub name: Seq<char>,
    pub vertices: Seq<Vertex>,
    pub indices: Seq<u16>,
}

impl View for ObjectGeometry {
    type V = GeometryView;

    open spec fn view(&self) -> GeometryView {
        GeometryView { name: self.name@, vertices: self.vertices@, indices: self.indices@ }
    }
}

/// What a geometry text gives: a geometry, or the name of a mesh file to
/// take one from.
#[derive(Debug)]
pub enum GeometrySource {
    /// The text lists vertices and indices itself.
    Inline(ObjectGeometry),
    /// The text refers to a mesh file, by a path relative to the assets
    /// root.
    Mesh { name: String, obj_file: String },
}

/// A geometry source as a mathematical value.
pub enum SourceView {
    Inline(GeometryView),
    Mesh { name: Seq<char>, obj_file: Seq<char> },
}

impl View for GeometrySource {
    type V = SourceView;

    open spec fn view(&self) -> SourceView {
        match self {
            GeometrySource::Inline(g) => SourceView::Inline(g@),
            GeometrySource::Mesh { name, obj_file } => SourceView::Mesh {
                name: name@,
                obj_file: obj_file@,
            },
        }
    }
}

/// Whether a line of these words says nothing: it has no word, or starts
/// with `#`.
pub open spec fn silent(w: Seq<Seq<char>>) -> bool {
    w.len() == 0 || (w[0].len() > 0 && w[0][0] == '#')
}

/// What a geometry text says of itself: its name, and the mesh file it
/// refers to, if any.
pub struct Header {
    pub name: Seq<char>,
    pub obj_file: Option<Seq<char>>,
}

/// What one line does to the header read so far.
pub open spec fn header_line(h: Header, line: Seq<char>) -> Header {
    let w = words(line);
    if silent(w) || w.len() < 2 {
        h
    } else if w[0] == "name"@ {
        Header { name: join(w.skip(1)), ..h }
    } else if w[0] == "obj_file:"@ {
        Header { obj_file: Some(w[1]), ..h }
    } else {
        h
    }
}

/// The header of a text of these lines. Without a `name` line the geometry
/// is called `Unnamed`.
pub open spec fn header(ls: Seq<Seq<char>>) -> Header
    decreases ls.len(),
{
    if ls.len() == 0 {
        Header { name: "Unnamed"@, obj_file: None }
    } else {
        header_line(header(ls.drop_last()), ls.last())
    }
}

/// The vertices and indices read so far, and how many are allowed.
pub struct Listing {
    /// The number after the last `vertices`, or `None` before the first.
    pub vertex_limit: Option<nat>,
    pub vertices: Seq<Vertex>,
    /// The number after the last `indices`, or 0 before the first.
    pub index_limit: nat,
    pub indices: Seq<u16>,
}

/// The listing before the first line.
pub open spec fn new_listing() -> Listing {
    Listing {
        vertex_limit: None,
        vertices: Seq::<Vertex>::empty(),
        index_limit: 0,
        indices: Seq::<u16>::empty(),
    }
}

/// How many vertices are allowed.
pub open spec fn allowed_vertices(s: Listing) -> nat {
    match s.vertex_limit {
        Some(n) => n,
        None => 0,
    }
}

/// The vertex that a line of these words describes, or `None` if one of its
/// values is no number.
pub open spec fn vertex_of(w: Seq<Seq<char>>, g: Oracle) -> Option<Vertex> {
    let zero = Scalar { bits: ZERO };
    let one = Scalar { bits: ONE };
    let position = if w.len() >= 4 {
        triple(w, 1, g)
    } else {
        Some([zero, zero, zero])
    };
    let color = if w.len() >= 8 && w[4] == "color:"@ {
        triple(w, 5, g)
    } else {
        Some([one, one, one])
    };
    let normal = if w.len() >= 12 && w[8] == "normal:"@ {
        triple(w, 9, g)
    } else {
        Some([zero, one, zero])
    };
    let uv = if w.len() >= 15 && w[12] == "uv:"@ {
        pair(w, 13, g)
    } else {
        Some([zero, zero])
    };
    match (position, color, normal, uv) {
        (Some(position), Some(color), Some(normal), Some(uv)) => Some(
            Vertex { position, color, normal, uv },
        ),
        _ => None,
    }
}

/// The indices after a line of these words: each word adds one while fewer
/// than `limit` are there. `None` if a word that is read is no index.
pub open spec fn indices_after(done: Seq<u16>, w: Seq<Seq<char>>, limit: nat) -> Option<Seq<u16>>
    decreases w.len(),
{
    if w.len() == 0 {
        Some(done)
    } else {
        match indices_after(done, w.drop_last(), limit) {
            Some(before) => if before.len() >= limit {
                Some(before)
            } else {
                match unsigned_up_to(w.last(), MAX_INDEX as nat) {
                    Some(n) => Some(before.push(n as u16)),
                    None => None,
                }
            },
            None => None,
        }
    }
}

/// What one line of a geometry text does to the listing read so far.
pub open spec fn listing_line(s: Listing, index: int, line: Seq<char>, g: Oracle) -> Result<
    Listing,
    ParseError,
> {
    let w = words(line);
    if silent(w) {
        Ok(s)
    } else if w[0] == "vertices"@ || w[0] == "indices"@ {
        if w.len() >= 2 {
            match unsigned_up_to(w[1], usize::MAX as nat) {
                Some(n) => if w[0] == "vertices"@ {
                    Ok(Listing { vertex_limit: Some(n), ..s })
                } else {
                    Ok(Listing { index_limit: n, ..s })
                },
                None => Err(ParseError::InvalidCount { line: (index + 1) as usize }),
            }
        } else {
            Ok(s)
        }
    } else if w[0] == "position:"@ {
        if s.vertices.len() < allowed_vertices(s) {
            match vertex_of(w, g) {
                Some(v) => Ok(Listing { vertices: s.vertices.push(v), ..s }),
                None => Err(ParseError::InvalidNumber { line: (index + 1) as usize }),
            }
        } else {
            Ok(s)
        }
    } else if w[0].len() > 0 && digit(w[0][0]) {
        match indices_after(s.indices, w, s.index_limit) {
            Some(indices) => Ok(Listing { indices, ..s }),
            None => Err(ParseError::InvalidCount { line: (index + 1) as usize }),
        }
    } else {
        Ok(s)
    }
}

/// [`listing_line`] as a step over the lines of a text.
pub open spec fn listing_step(g: Oracle) -> spec_fn(Listing, int, Seq<char>) -> Result<
    Listing,
    ParseError,
> {
    |s: Listing, index: int, line: Seq<char>| listing_line(s, index, line, g)
}

/// What a geometry text gives. A text with an `obj_file:` line refers to that
/// file. Any other text lists its geometry itself: it is refused at the first
/// line with a count, an index or a value that is none, and, if no line is,
/// for want of a `vertices` line.
pub open spec fn parse_geometry(text: Seq<char>, g: Oracle) -> Result<SourceView, ParseError> {
    let h = header(lines(text));
    match h.obj_file {
        Some(obj_file) => Ok(SourceView::Mesh { name: h.name, obj_file }),
        None => match fold_lines(lines(text), new_listing(), listing_step(g)) {
            Ok(s) => if s.vertex_limit is Some {
                Ok(
                    SourceView::Inline(
                        GeometryView { name: h.name, vertices: s.vertices, indices: s.indices },
                    ),
                )
            } else {
                Err(ParseError::MissingGeometry)
            },
            Err(e) => Err(e),
        },
    }
}

/// The vertices and indices of a geometry text that is being read.
struct ListingReader {
    vertex_limit: Option<usize>,
    vertices: Vec<Vertex>,
    index_limit: usize,
    indices: Vec<u16>,
}

impl View for ListingReader {
    type V = Listing;

    closed spec fn view(&self) -> Listing {
        Listing {
            vertex_limit: match self.vertex_limit {
                Some(n) => Some(n as nat),
                None => None,
            },
            vertices: self.vertices@,
            index_limit: self.index_limit as nat,
            indices: self.indices@,
        }
    }
}

/// Reads the vertex that a line of these words describes.
fn read_vertex<F: Fn(&str) -> Option<Scalar>>(w: &Vec<Vec<char>>, number: &F) -> (r: Option<
    Vertex,
>)
    requires
        reads_all(*number),
    ensures
        forall|g: Oracle| #[trigger] reads_as(*number, g) ==> r == vertex_of(texts(w@), g),
        vertex_of(texts(w@), no_value()) is Some ==> r == vertex_of(texts(w@), no_value()),
{
    proof {
        assert(forall|i: int| 0 <= i < w.len() ==> texts(w@)[i] == w@[i]@);
    }
    let zero = Scalar { bits: ZERO };
    let one = Scalar { bits: ONE };
    let position = if w.len() >= 4 {
        read_triple(w, 1, number)
    } else {
        Some([zero, zero, zero])
    };
    let color = if w.len() >= 8 && is_word(&w[4], "color:") {
        read_triple(w, 5, number)
    } else {
        Some([one, one, one])
    };
    let normal = if w.len() >= 12 && is_word(&w[8], "normal:") {
        read_triple(w, 9, number)
    } else {
        Some([zero, one, zero])
    };
    let uv = if w.len() >= 15 && is_word(&w[12], "uv:") {
        read_pair(w, 13, number)
    } else {
        Some([zero, zero])
    };
    match (position, color, normal, uv) {
        (Some(position), Some(color), Some(normal), Some(uv)) => Some(
            Vertex { position, color, normal, uv },
        ),
        _ => None,
    }
}

/// Reads the indices of a line of these words, after those that are there.
fn read_indices(done: Vec<u16>, w: &Vec<Vec<char>>, limit: usize) -> (r: Option<Vec<u16>>)
    ensures
        match indices_after(done@, texts(w@), limit as nat) {
            Some(after) => r is Some && r->0@ == after,
            None => r is None,
        },
{
    let ghost all = texts(w@);
    let mut indices = done;
    let mut k: usize = 0;
    proof {
        assert(all.take(0) == Seq::<Seq<char>>::empty());
    }
    while k < w.len()
        invariant
            k <= w.len(),
            all == texts(w@),
            indices_after(done@, all.take(k as int), limit as nat) == Some(indices@),
        decreases w.len() - k,
    {
        proof {
            assert(all.take(k + 1).drop_last() == all.take(k as int));
            assert(all.take(k + 1).last() == w@[k as int]@);
        }
        if indices.len() < limit {
            match parse_unsigned(&w[k], MAX_INDEX) {
                Some(n) => {
                    indices.push(n as u16);
                },
                None => {
                    proof {
                        lemma_indices_refused(done@, all, k + 1, limit as nat);
                    }
                    return None;
                },
            }
        }
        k += 1;
    }
    proof {
        assert(all.take(w.len() as int) == all);
    }
    Some(indices)
}

/// Once a word is refused as an index, the line is.
proof fn lemma_indices_refused(done: Seq<u16>, w: Seq<Seq<char>>, k: int, limit: nat)
    requires
        0 <= k <= w.len(),
        indices_after(done, w.take(k), limit) is None,
    ensures
        indices_after(done, w, limit) is None,
    decreases w.len(),
{
    if k == w.len() {
        assert(w.take(k) == w);
    } else {
        assert(w.drop_last().take(k) == w.take(k));
        lemma_indices_refused(done, w.drop_last(), k, limit);
    }
}

impl ListingReader {
    fn new() -> (s: ListingReader)
        ensures
            s@ == new_listing(),
    {
        ListingReader {
            vertex_limit: None,
            vertices: Vec::new(),
            index_limit: 0,
            indices: Vec::new(),
        }
    }

    /// Applies one line of a geometry text.
    fn read_line<F: Fn(&str) -> Option<Scalar>>(
        self,
        index: usize,
        line: &Vec<char>,
        number: &F,
    ) -> (r: Result<ListingReader, ParseError>)
        requires
            index < usize::MAX,
            reads_all(*number),
        ensures
            forall|g: Oracle| #[trigger]
                reads_as(*number, g) ==> match listing_line(self@, index as int, line@, g) {
                    Ok(next) => r is Ok && r->Ok_0@ == next,
                    Err(e) => r is Err && r->Err_0 == e,
                },
            match listing_line(self@, index as int, line@, no_value()) {
                Ok(next) => r is Ok && r->Ok_0@ == next,
                Err(e) => !(e is InvalidNumber) ==> r is Err && r->Err_0 == e,
            },
    {
        let w = split_words(line);
        proof {
            assert(forall|i: int| 0 <= i < w.len() ==> texts(w@)[i] == w@[i]@);
        }
        if w.len() == 0 || (w[0].len() > 0 && w[0][0] == '#') {
            return Ok(self);
        }
        let key = &w[0];
        let vertices = is_word(key, "vertices");
        if vertices || is_word(key, "indices") {
            if w.len() >= 2 {
                return match parse_unsigned(&w[1], usize::MAX) {
                    Some(n) => if vertices {
                        Ok(ListingReader { vertex_limit: Some(n), ..self })
                    } else {
                        Ok(ListingReader { index_limit: n, ..self })
                    },
                    None => Err(ParseError::InvalidCount { line: index + 1 }),
                };
            }
            return Ok(self);
        }
        if is_word(key, "position:") {
            let allowed: usize = match self.vertex_limit {
                Some(n) => n,
                None => 0,
            };
            if self.vertices.len() < allowed {
                return match read_vertex(&w, number) {
                    Some(v) => {
                        let ListingReader { vertex_limit, vertices, index_limit, indices } = self;
                        let mut vertices = vertices;
                        vertices.push(v);
                        Ok(ListingReader { vertex_limit, vertices, index_limit, indices })
                    },
                    None => Err(ParseError::InvalidNumber { line: index + 1 }),
                };
            }
            return Ok(self);
        }
        if w[0].len() > 0 && w[0][0] >= '0' && w[0][0] <= '9' {
            let ListingReader { vertex_limit, vertices, index_limit, indices } = self;
            return match read_indices(indices, &w, index_limit) {
                Some(indices) => Ok(ListingReader { vertex_limit, vertices, index_limit, indices }),
                None => Err(ParseError::InvalidCount { line: index + 1 }),
            };
        }
        Ok(self)
    }
}

/// Reads the header of a geometry text from its lines.
fn read_header(all: &Vec<Vec<char>>) -> (r: (String, Option<String>))
    ensures
        r.0@ == header(texts(all@)).name,
        match header(texts(all@)).obj_file {
            Some(f) => r.1 is Some && r.1->0@ == f,
            None => r.1 is None,
        },
{
    let ghost ls = texts(all@);
    let mut name = String::from_str("Unnamed");
    let mut obj_file: Option<String> = None;
    let mut i: usize = 0;
    proof {
        assert(ls.take(0) == Seq::<Seq<char>>::empty());
    }
    while i < all.len()
        invariant
            i <= all.len(),
            ls == texts(all@),
            name@ == header(ls.take(i as int)).name,
            match header(ls.take(i as int)).obj_file {
                Some(f) => obj_file is Some && obj_file->0@ == f,
                None => obj_file is None,
            },
        decreases all.len() - i,
    {
        let w = split_words(&all[i]);
        proof {
            assert(ls.take(i + 1).drop_last() == ls.take(i as int));
            assert(ls.take(i + 1).last() == all@[i as int]@);
            assert(forall|k: int| 0 <= k < w.len() ==> texts(w@)[k] == w@[k]@);
        }
        if w.len() >= 2 && !(w[0].len() > 0 && w[0][0] == '#') {
            if is_word(&w[0], "name") {
                name = join_words(&w, 1);
            } else if is_word(&w[0], "obj_file:") {
                obj_file = Some(string_of(&w[1], 0));
                proof {
                    assert(w@[1]@.skip(0) == w@[1]@);
                }
            }
        }
        i += 1;
    }
    proof {
        assert(ls.take(all.len() as int) == ls);
    }
    (name, obj_file)
}

impl ObjectGeometry {
    /// Reads the content of a geometry file. `number` converts a word to the
    /// binary32 value it writes. Up to the first line that asks it, the text
    /// is read whatever `number` does: so is every reference to a mesh file,
    /// and a count or an index that is none is refused either way.
    pub fn load_from_arobj<F: Fn(&str) -> Option<Scalar>>(content: &str, number: &F) -> (r: Result<
        GeometrySource,
        ParseError,
    >)
        requires
            reads_all(*number),
        ensures
            forall|g: Oracle| #[trigger]
                reads_as(*number, g) ==> match parse_geometry(content@, g) {
                    Ok(s) => r is Ok && r->Ok_0@ == s,
                    Err(e) => r is Err && r->Err_0 == e,
                },
            match parse_geometry(content@, no_value()) {
                Ok(s) => r is Ok && r->Ok_0@ == s,
                Err(e) => !(e is InvalidNumber) ==> r is Err && r->Err_0 == e,
            },
    {
        let text = chars_of(content);
        let all = split_lines(&text);
        let ghost ls = lines(content@);
        let (name, obj_file) = read_header(&all);
        match obj_file {
            Some(obj_file) => {
                return Ok(GeometrySource::Mesh { name, obj_file });
            },
            None => {},
        }
        let mut reader = ListingReader::new();
        let mut i: usize = 0;
        proof {
            assert(ls.take(0) == Seq::<Seq<char>>::empty());
        }
        while i < all.len()
            invariant
                i <= all.len(),
                reads_all(*number),
                texts(all@) == ls,
                ls == lines(content@),
                header(ls).obj_file is None,
                forall|g: Oracle| #[trigger]
                    reads_as(*number, g) ==> fold_lines(
                        ls.take(i as int),
                        new_listing(),
                        listing_step(g),
                    ) == Ok::<Listing, ParseError>(reader@),
                fold_lines(ls, new_listing(), listing_step(no_value())) is Err && fold_lines(
                    ls,
                    new_listing(),
                    listing_step(no_value()),
                )->Err_0 is InvalidNumber || fold_lines(
                    ls.take(i as int),
                    new_listing(),
                    listing_step(no_value()),
                ) == Ok::<Listing, ParseError>(reader@),
            decreases all.len() - i,
        {
            let ghost before = reader@;
            let outcome = reader.read_line(i, &all[i], number);
            proof {
                assert(ls[i as int] == all@[i as int]@);
                assert forall|g: Oracle| #[trigger] reads_as(*number, g) implies fold_lines(
                    ls.take(i + 1),
                    new_listing(),
                    listing_step(g),
                ) == listing_line(before, i as int, ls[i as int], g) by {
                    lemma_fold_next(ls, i as int, new_listing(), listing_step(g));
                }
                lemma_fold_next(ls, i as int, new_listing(), listing_step(no_value()));
                if fold_lines(ls.take(i + 1), new_listing(), listing_step(no_value())) is Err {
                    lemma_fold_refused(ls, i + 1, new_listing(), listing_step(no_value()));
                }
            }
            match outcome {
                Ok(next) => {
                    reader = next;
                },
                Err(e) => {
                    proof {
                        assert forall|g: Oracle| #[trigger]
                            reads_as(*number, g) implies parse_geometry(content@, g) == Err::<
                            SourceView,
                            ParseError,
                        >(e) by {
                            lemma_fold_refused(ls, i + 1, new_listing(), listing_step(g));
                        }
                    }
                    return Err(e);
                },
            }
            i += 1;
        }
        proof {
            assert(ls.take(all.len() as int) == ls);
        }
        match reader.vertex_limit {
            Some(_) => Ok(
                GeometrySource::Inline(
                    ObjectGeometry { name, vertices: reader.vertices, indices: reader.indices },
                ),
            ),
            None => Err(ParseError::MissingGeometry),
        }
    }
}

} // verus!
