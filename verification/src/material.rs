//! Materials and the material text format.
//!
//! A material text is read line by line. A line is trimmed; an empty line and
//! a line that starts with `#` say nothing. `name `, `albedo_texture: `,
//! `roughness: ` and `metallic: ` at the start of a line set the field to the
//! trimmed rest of the line; a later line overrides an earlier one. Any other
//! line is skipped.

use crate::error::ParseError;
use crate::reader::no_value;
use crate::reader::read_scalar;
use crate::reader::reads_all;
use crate::reader::reads_as;
use crate::reader::Oracle;
use crate::scalar::Scalar;
use crate::scalar::HALF;
use crate::scalar::ZERO;
use crate::text::chars_of;
use crate::text::fold_lines;
use crate::text::lemma_fold_next;
use crate::text::lemma_fold_refused;
use crate::text::lines;
use crate::text::split_lines;
use crate::text::starts_with;
use crate::text::string_of;
use crate::text::strip_prefix;
use crate::text::texts;
use crate::text::trim;
use crate::text::trimmed;
use vstd::prelude::*;
use vstd::string::StringExecFns;

verus! {

/// The surface description of one instance.
#[derive(Debug)]
pub struct Material {
    pub name: String,
    /// The albedo texture's path, relative to the assets root.
    pub albedo_texture: String,
    pub roughness: Scalar,
    pub metallic: Scalar,
}

/// A material as a mathematical value.
pub struct MaterialView {
    pub name: Seq<char>,
    pub albedo_texture: Seq<char>,
    pub roughness: Scalar,
    pub metallic: Scalar,
}

impl View for Material {
    type V = MaterialView;

    open spec fn view(&self) -> MaterialView {
        MaterialView {
            name: self.name@,
            albedo_texture: self.albedo_texture@,
            roughness: self.roughness,
            metallic: self.metallic,
        }
    }
}

/// The material that a text starts from: every field that the text does not
/// set keeps this value.
pub open spec fn unnamed_material() -> MaterialView {
    MaterialView {
        name: "Unnamed"@,
        albedo_texture: "textures/white.png"@,
        roughness: Scalar { bits: HALF },
        metallic: Scalar { bits: ZERO },
    }
}

/// The material of an instance that was given none.
pub open spec fn default_material() -> MaterialView {
    MaterialView {
        name: "Default"@,
        albedo_texture: "textures/white.png"@,
        roughness: Scalar { bits: HALF },
        metallic: Scalar { bits: ZERO },
    }
}

/// What one line of a material text does to the material read so far.
pub open spec fn material_line(m: MaterialView, index: int, line: Seq<char>, g: Oracle) -> Result<
    MaterialView,
    ParseError,
> {
    let t = trim(line);
    if t.len() == 0 || t[0] == '#' {
        Ok(m)
    } else if starts_with(t, "name "@) {
        Ok(MaterialView { name: trim(t.skip("name "@.len() as int)), ..m })
    } else if starts_with(t, "albedo_texture: "@) {
        Ok(MaterialView { albedo_texture: trim(t.skip("albedo_texture: "@.len() as int)), ..m })
    } else if starts_with(t, "roughness: "@) {
        match g(trim(t.skip("roughness: "@.len() as int))) {
            Some(v) => Ok(MaterialView { roughness: v, ..m }),
            None => Err(ParseError::InvalidNumber { line: (index + 1) as usize }),
        }
    } else if starts_with(t, "metallic: "@) {
        match g(trim(t.skip("metallic: "@.len() as int))) {
            Some(v) => Ok(MaterialView { metallic: v, ..m }),
            None => Err(ParseError::InvalidNumber { line: (index + 1) as usize }),
        }
    } else {
        Ok(m)
    }
}

/// [`material_line`] as a step over the lines of a text.
pub open spec fn material_step(g: Oracle) -> spec_fn(MaterialView, int, Seq<char>) -> Result<
    MaterialView,
    ParseError,
> {
    |m: MaterialView, index: int, line: Seq<char>| material_line(m, index, line, g)
}

/// The material that a text describes, or the reason for which it describes
/// none: the first line whose `roughness: ` or `metallic: ` value is no
/// number.
pub open spec fn parse_material(text: Seq<char>, g: Oracle) -> Result<MaterialView, ParseError> {
    fold_lines(lines(text), unnamed_material(), material_step(g))
}

impl Material {
    /// Reads a material from the content of a material file. `number`
    /// converts a word to the binary32 value it writes; a text that sets
    /// neither roughness nor metallic does not ask it, and is read whatever
    /// `number` does.
    pub fn from_file<F: Fn(&str) -> Option<Scalar>>(content: &str, number: &F) -> (r: Result<
        Material,
        ParseError,
    >)
        requires
            reads_all(*number),
        ensures
            forall|g: Oracle| #[trigger]
                reads_as(*number, g) ==> match parse_material(content@, g) {
                    Ok(m) => r is Ok && r->Ok_0@ == m,
                    Err(e) => r == Err::<Material, ParseError>(e),
                },
            parse_material(content@, no_value()) is Ok ==> r is Ok && r->Ok_0@ == parse_material(
                content@,
                no_value(),
            )->Ok_0,
    {
        let text = chars_of(content);
        let all = split_lines(&text);
        let mut m = Material {
            name: String::from_str("Unnamed"),
            albedo_texture: String::from_str("textures/white.png"),
            roughness: Scalar { bits: HALF },
            metallic: Scalar { bits: ZERO },
        };
        let ghost ls = lines(content@);
        let mut i: usize = 0;
        proof {
            assert(ls.take(0) == Seq::<Seq<char>>::empty());
        }
        while i < all.len()
            invariant
                i <= all.len(),
                reads_all(*number),
                texts(all@) == ls,
                ls == lines(content@),
                forall|g: Oracle| #[trigger]
                    reads_as(*number, g) ==> fold_lines(
                        ls.take(i as int),
                        unnamed_material(),
                        material_step(g),
                    ) == Ok::<MaterialView, ParseError>(m@),
                fold_lines(ls, unnamed_material(), material_step(no_value())) is Ok ==> fold_lines(
                    ls.take(i as int),
                    unnamed_material(),
                    material_step(no_value()),
                ) == Ok::<MaterialView, ParseError>(m@),
            decreases all.len() - i,
        {
            let ghost before = m@;
            let outcome = Self::read_line(&mut m, i, &all[i], number);
            proof {
                assert(ls[i as int] == all@[i as int]@);
                assert forall|g: Oracle| #[trigger] reads_as(*number, g) implies fold_lines(
                    ls.take(i + 1),
                    unnamed_material(),
                    material_step(g),
                ) == material_line(before, i as int, ls[i as int], g) by {
                    lemma_fold_next(ls, i as int, unnamed_material(), material_step(g));
                }
                lemma_fold_next(ls, i as int, unnamed_material(), material_step(no_value()));
                if fold_lines(ls.take(i + 1), unnamed_material(), material_step(no_value())) is Err {
                    lemma_fold_refused(ls, i + 1, unnamed_material(), material_step(no_value()));
                }
            }
            match outcome {
                Ok(()) => {},
                Err(e) => {
                    proof {
                        assert forall|g: Oracle| #[trigger]
                            reads_as(*number, g) implies parse_material(content@, g) == Err::<
                            MaterialView,
                            ParseError,
                        >(e) by {
                            lemma_fold_refused(
                                ls,
                                i + 1,
                                unnamed_material(),
                                material_step(g),
                            );
                        }
                    }
                    return Err(e);
                },
            }
            i += 1;
        }
        proof {
            assert(ls.take(all.len() as int) == ls);
        }
        Ok(m)
    }

    /// Applies one line of a material text.
    fn read_line<F: Fn(&str) -> Option<Scalar>>(
        m: &mut Material,
        index: usize,
        line: &Vec<char>,
        number: &F,
    ) -> (r: Result<(), ParseError>)
        requires
            index < usize::MAX,
            reads_all(*number),
        ensures
            forall|g: Oracle| #[trigger]
                reads_as(*number, g) ==> match material_line(old(m)@, index as int, line@, g) {
                    Ok(next) => r is Ok && final(m)@ == next,
                    Err(e) => r == Err::<(), ParseError>(e) && final(m)@ == old(m)@,
                },
            material_line(old(m)@, index as int, line@, no_value()) is Ok ==> r is Ok && final(m)@
                == material_line(old(m)@, index as int, line@, no_value())->Ok_0,
    {
        let t = trimmed(line);
        if t.len() == 0 || t[0] == '#' {
            return Ok(());
        }
        if let Some(rest) = strip_prefix(&t, "name ") {
            m.name = string_of(&trimmed(&rest), 0);
            proof {
                assert(trim(rest@).skip(0) == trim(rest@));
            }
            return Ok(());
        }
        if let Some(rest) = strip_prefix(&t, "albedo_texture: ") {
            m.albedo_texture = string_of(&trimmed(&rest), 0);
            proof {
                assert(trim(rest@).skip(0) == trim(rest@));
            }
            return Ok(());
        }
        if let Some(rest) = strip_prefix(&t, "roughness: ") {
            match read_scalar(&trimmed(&rest), number) {
                Some(v) => {
                    m.roughness = v;
                    return Ok(());
                },
                None => {
                    return Err(ParseError::InvalidNumber { line: index + 1 });
                },
            }
        }
        if let Some(rest) = strip_prefix(&t, "metallic: ") {
            match read_scalar(&trimmed(&rest), number) {
                Some(v) => {
                    m.metallic = v;
                    return Ok(());
                },
                None => {
                    return Err(ParseError::InvalidNumber { line: index + 1 });
                },
            }
        }
        Ok(())
    }

    /// The material of an instance that was given none.
    pub fn default() -> (m: Material)
        ensures
            m@ == default_material(),
    {
        Material {
            name: String::from_str("Default"),
            albedo_texture: String::from_str("textures/white.png"),
            roughness: Scalar { bits: HALF },
            metallic: Scalar { bits: ZERO },
        }
    }
}

} // verus!
