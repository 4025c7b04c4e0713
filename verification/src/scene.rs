//! Scenes and the scene text format.
//!
//! A scene text is read line by line and each line word by word. A line
//! without words and a line whose first word starts with `#` say nothing. The
//! first word of any other line is its keyword:
//!
//! - `scene_name` sets the scene's name to the rest of the words, joined by
//!   single spaces;
//! - `light_direction:`, `light_color:` (three values), `light_intensity:`
//!   and `ambient_strength:` (one value) set a field of the light;
//! - `object` closes the object that is open, if there is one, and opens a
//!   new one;
//! - `geometry:`, `name:` (one word), `position:`, `rotation:`, `scale:`
//!   (three values) and `emissive:` (one value) set a field of the open
//!   object, and say nothing while none is open.
//!
//! A line with too few words for its keyword says nothing; words beyond those
//! that the keyword takes are not looked at. A later line overrides an
//! earlier one. The end of the text closes the open object. A line with any
//! other keyword is skipped.

use crate::error::ParseError;
use crate::material::default_material;
use crate::material::Material;
use crate::material::MaterialView;
use crate::object::silent;
use crate::object::GeometryView;
use crate::object::ObjectGeometry;
use crate::reader::no_value;
use crate::reader::read_scalar;
use crate::reader::read_triple;
use crate::reader::reads_all;
use crate::reader::reads_as;
use crate::reader::triple;
use crate::reader::Oracle;
use crate::scalar::Scalar;
use crate::scalar::ONE;
use crate::scalar::ZERO;
use crate::text::chars_of;
use crate::text::fold_lines;
use crate::text::is_word;
use crate::text::join;
use crate::text::join_words;
use crate::text::lemma_fold_next;
use crate::text::lemma_fold_refused;
use crate::text::lines;
use crate::text::split_lines;
use crate::text::split_words;
use crate::text::string_of;
use crate::text::texts;
use crate::text::words;
use crate::transform::Transform;
use vstd::prelude::*;
use vstd::string::StringExecFns;

verus! {

/// The pattern of `0.3`.
pub const LIGHT_DIRECTION_X: u32 = 0x3e99_999a;

/// The pattern of `-1.0`.
pub const LIGHT_DIRECTION_Y: u32 = 0xbf80_0000;

/// The pattern of `0.5`.
pub const LIGHT_DIRECTION_Z: u32 = 0x3f00_0000;

/// The pattern of `0.2`.
pub const AMBIENT_STRENGTH: u32 = 0x3e4c_cccd;

/// The one directional light of a scene.
#[derive(Clone, Copy, Debug, PartialEq, Eq)]
pub struct Light {
    pub direction: [Scalar; 3],
    pub color: [Scalar; 3],
    pub intensity: Scalar,
    pub ambient_strength: Scalar,
}

/// The light of a scene whose text sets none: white, of intensity 1, shining
/// down and to the side along (0.3, -1, 0.5), over an ambient share of 0.2.
pub open spec fn default_light() -> Light {
    Light {
        direction: [
            Scalar { bits: LIGHT_DIRECTION_X },
            Scalar { bits: LIGHT_DIRECTION_Y },
            Scalar { bits: LIGHT_DIRECTION_Z },
        ],
        color: [Scalar { bits: ONE }, Scalar { bits: ONE }, Scalar { bits: ONE }],
        intensity: Scalar { bits: ONE },
        ambient_strength: Scalar { bits: AMBIENT_STRENGTH },
    }
}

impl Default for Light {
    fn default() -> (l: Light)
        ensures
            l == default_light(),
    {
        Light {
            direction: [
                Scalar { bits: LIGHT_DIRECTION_X },
                Scalar { bits: LIGHT_DIRECTION_Y },
                Scalar { bits: LIGHT_DIRECTION_Z },
            ],
            color: [Scalar { bits: ONE }, Scalar { bits: ONE }, Scalar { bits: ONE }],
            intensity: Scalar { bits: ONE },
            ambient_strength: Scalar { bits: AMBIENT_STRENGTH },
        }
    }
}

/// One `object` block of a scene text: which geometry file to load, and how
/// the instance of it is called, placed and lit.
#[derive(Debug)]
pub struct ObjectDeclaration {
    /// The path of the geometry file: the assets root, `/`, and the word
    /// after `geometry:`.
    pub geometry_path: String,
    pub name: String,
    pub transform: Transform,
    pub emissive: Scalar,
}

/// An object declaration as a mathematical value.
pub struct DeclarationView {
    pub geometry_path: Seq<char>,
    pub name: Seq<char>,
    pub transform: Transform,
    pub emissive: Scalar,
}

impl View for ObjectDeclaration {
    type V = DeclarationView;

    open spec fn view(&self) -> DeclarationView {
        DeclarationView {
            geometry_path: self.geometry_path@,
            name: self.name@,
            transform: self.transform,
            emissive: self.emissive,
        }
    }
}

/// The views of a list of declarations.
pub open spec fn declarations(v: Seq<ObjectDeclaration>) -> Seq<DeclarationView> {
    v.map_values(|d: ObjectDeclaration| d@)
}

/// What a scene text says: the scene's name, its light, and its objects in
/// the order of the text.
#[derive(Debug)]
pub struct SceneDescription {
    pub name: String,
    pub light: Light,
    pub objects: Vec<ObjectDeclaration>,
}

/// A scene description as a mathematical value.
pub struct DescriptionView {
    pub name: Seq<char>,
    pub light: Light,
    pub objects: Seq<DeclarationView>,
}

impl View for SceneDescription {
    type V = DescriptionView;

    open spec fn view(&self) -> DescriptionView {
        DescriptionView {
            name: self.name@,
            light: self.light,
            objects: declarations(self.objects@),
        }
    }
}

/// The object that is open while a scene text is read.
pub struct Draft {
    pub geometry: Seq<char>,
    pub name: Seq<char>,
    pub position: [Scalar; 3],
    pub rotation: [Scalar; 3],
    pub scale: [Scalar; 3],
    pub emissive: Scalar,
}

/// What has been read of a scene text.
pub struct Reading {
    pub name: Seq<char>,
    pub light: Light,
    pub open: Option<Draft>,
    pub objects: Seq<DeclarationView>,
}

/// The object that `object` opens: without geometry and name, at the origin,
/// not rotated, of unit scale, not emissive.
pub open spec fn new_draft() -> Draft {
    Draft {
        geometry: Seq::<char>::empty(),
        name: Seq::<char>::empty(),
        position: [Scalar { bits: ZERO }, Scalar { bits: ZERO }, Scalar { bits: ZERO }],
        rotation: [Scalar { bits: ZERO }, Scalar { bits: ZERO }, Scalar { bits: ZERO }],
        scale: [Scalar { bits: ONE }, Scalar { bits: ONE }, Scalar { bits: ONE }],
        emissive: Scalar { bits: ZERO },
    }
}

/// The state before the first line.
pub open spec fn new_reading() -> Reading {
    Reading {
        name: "Unnamed Scene"@,
        light: default_light(),
        open: None,
        objects: Seq::<DeclarationView>::empty(),
    }
}

/// The declaration that a closed object becomes.
pub open spec fn declared(d: Draft, root: Seq<char>) -> DeclarationView {
    DeclarationView {
        geometry_path: root + "/"@ + d.geometry,
        name: d.name,
        transform: Transform { position: d.position, rotation: d.rotation, scale: d.scale },
        emissive: d.emissive,
    }
}

/// The objects once the open one, if any, is closed.
pub open spec fn closed(s: Reading, root: Seq<char>) -> Seq<DeclarationView> {
    match s.open {
        Some(d) => s.objects.push(declared(d, root)),
        None => s.objects,
    }
}

/// What a line with one of the light's keywords does.
pub open spec fn light_line(s: Reading, index: int, w: Seq<Seq<char>>, g: Oracle) -> Result<
    Reading,
    ParseError,
> {
    let refused = Err::<Reading, ParseError>(ParseError::InvalidNumber { line: (index + 1) as usize });
    if w[0] == "light_direction:"@ || w[0] == "light_color:"@ {
        if w.len() >= 4 {
            match triple(w, 1, g) {
                Some(v) => if w[0] == "light_direction:"@ {
                    Ok(Reading { light: Light { direction: v, ..s.light }, ..s })
                } else {
                    Ok(Reading { light: Light { color: v, ..s.light }, ..s })
                },
                None => refused,
            }
        } else {
            Ok(s)
        }
    } else {
        if w.len() >= 2 {
            match g(w[1]) {
                Some(v) => if w[0] == "light_intensity:"@ {
                    Ok(Reading { light: Light { intensity: v, ..s.light }, ..s })
                } else {
                    Ok(Reading { light: Light { ambient_strength: v, ..s.light }, ..s })
                },
                None => refused,
            }
        } else {
            Ok(s)
        }
    }
}

/// What a line with one of an object's keywords does to the open object.
pub open spec fn object_line(d: Draft, index: int, w: Seq<Seq<char>>, g: Oracle) -> Result<
    Draft,
    ParseError,
> {
    let refused = Err::<Draft, ParseError>(ParseError::InvalidNumber { line: (index + 1) as usize });
    if w[0] == "geometry:"@ {
        if w.len() > 1 {
            Ok(Draft { geometry: w[1], ..d })
        } else {
            Ok(d)
        }
    } else if w[0] == "name:"@ {
        if w.len() > 1 {
            Ok(Draft { name: w[1], ..d })
        } else {
            Ok(d)
        }
    } else if w[0] == "position:"@ || w[0] == "rotation:"@ || w[0] == "scale:"@ {
        if w.len() >= 4 {
            match triple(w, 1, g) {
                Some(v) => if w[0] == "position:"@ {
                    Ok(Draft { position: v, ..d })
                } else if w[0] == "rotation:"@ {
                    Ok(Draft { rotation: v, ..d })
                } else {
                    Ok(Draft { scale: v, ..d })
                },
                None => refused,
            }
        } else {
            Ok(d)
        }
    } else if w[0] == "emissive:"@ {
        if w.len() >= 2 {
            match g(w[1]) {
                Some(v) => Ok(Draft { emissive: v, ..d }),
                None => refused,
            }
        } else {
            Ok(d)
        }
    } else {
        Ok(d)
    }
}

/// What one line of a scene text does to what has been read.
pub open spec fn scene_line(
    s: Reading,
    index: int,
    line: Seq<char>,
    root: Seq<char>,
    g: Oracle,
) -> Result<Reading, ParseError> {
    let w = words(line);
    if silent(w) {
        Ok(s)
    } else if w[0] == "scene_name"@ {
        if w.len() > 1 {
            Ok(Reading { name: join(w.skip(1)), ..s })
        } else {
            Ok(s)
        }
    } else if w[0] == "light_direction:"@ || w[0] == "light_color:"@ || w[0] == "light_intensity:"@
        || w[0] == "ambient_strength:"@ {
        light_line(s, index, w, g)
    } else if w[0] == "object"@ {
        Ok(Reading { open: Some(new_draft()), objects: closed(s, root), ..s })
    } else {
        match s.open {
            Some(d) => match object_line(d, index, w, g) {
                Ok(next) => Ok(Reading { open: Some(next), ..s }),
                Err(e) => Err(e),
            },
            None => Ok(s),
        }
    }
}

/// [`scene_line`] as a step over the lines of a text.
pub open spec fn scene_step(root: Seq<char>, g: Oracle) -> spec_fn(Reading, int, Seq<char>) -> Result<
    Reading,
    ParseError,
> {
    |s: Reading, index: int, line: Seq<char>| scene_line(s, index, line, root, g)
}

/// What a scene text says, or the reason for which it says nothing: the
/// first line that sets a field to a word that is no number.
pub open spec fn parse_scene(text: Seq<char>, root: Seq<char>, g: Oracle) -> Result<
    DescriptionView,
    ParseError,
> {
    match fold_lines(lines(text), new_reading(), scene_step(root, g)) {
        Ok(s) => Ok(DescriptionView { name: s.name, light: s.light, objects: closed(s, root) }),
        Err(e) => Err(e),
    }
}

/// One placed occurrence of a geometry.
#[derive(Debug)]
pub struct ObjectInstance {
    pub name: String,
    /// The name of the geometry that the instance shows. It is a key into
    /// the scene's geometries, and may name none of them.
    pub geometry_name: String,
    pub transform: Transform,
    pub material: Material,
    /// How strongly the instance glows. An instance that glows also lights
    /// its surroundings.
    pub emissive: Scalar,
}

/// An instance as a mathematical value.
pub struct InstanceView {
    pub name: Seq<char>,
    pub geometry_name: Seq<char>,
    pub transform: Transform,
    pub material: MaterialView,
    pub emissive: Scalar,
}

impl View for ObjectInstance {
    type V = InstanceView;

    open spec fn view(&self) -> InstanceView {
        InstanceView {
            name: self.name@,
            geometry_name: self.geometry_name@,
            transform: self.transform,
            material: self.material@,
            emissive: self.emissive,
        }
    }
}

impl ObjectInstance {
    /// The path of the instance's albedo texture: the assets root, `/`, and
    /// the material's texture path.
    pub fn texture_path(&self, assets_root: &str) -> (path: String)
        ensures
            path@ == assets_root@ + "/"@ + self@.material.albedo_texture,
    {
        let mut path = String::from_str(assets_root);
        path.append("/");
        path.append(self.material.albedo_texture.as_str());
        path
    }
}

/// The views of a list of instances.
pub open spec fn instances_of(v: Seq<ObjectInstance>) -> Seq<InstanceView> {
    v.map_values(|i: ObjectInstance| i@)
}

/// The views of a list of geometries.
pub open spec fn geometries_of(v: Seq<ObjectGeometry>) -> Seq<GeometryView> {
    v.map_values(|g: ObjectGeometry| g@)
}

/// All that is to be drawn: instances in the order in which they are drawn,
/// the geometries they share, and one light.
#[derive(Debug)]
pub struct Scene {
    pub name: String,
    pub instances: Vec<ObjectInstance>,
    /// The geometries, in the order in which they came. [`Scene::place`]
    /// keeps their names distinct.
    pub geometries: Vec<ObjectGeometry>,
    pub light: Light,
}

/// A scene as a mathematical value.
pub struct SceneView {
    pub name: Seq<char>,
    pub instances: Seq<InstanceView>,
    pub geometries: Seq<GeometryView>,
    pub light: Light,
}

impl View for Scene {
    type V = SceneView;

    open spec fn view(&self) -> SceneView {
        SceneView {
            name: self.name@,
            instances: instances_of(self.instances@),
            geometries: geometries_of(self.geometries@),
            light: self.light,
        }
    }
}

/// Whether one of the geometries has the name.
pub open spec fn has_geometry(gs: Seq<GeometryView>, name: Seq<char>) -> bool {
    exists|i: int| 0 <= i < gs.len() && (#[trigger] gs[i]).name == name
}

/// The first of the geometries that has the name.
pub open spec fn lookup(gs: Seq<GeometryView>, name: Seq<char>) -> Option<GeometryView>
    decreases gs.len(),
{
    if gs.len() == 0 {
        None
    } else if gs[0].name == name {
        Some(gs[0])
    } else {
        lookup(gs.skip(1), name)
    }
}

/// The place of the first geometry from `from` on that has the name.
pub open spec fn position_from(gs: Seq<GeometryView>, name: Seq<char>, from: int) -> Option<int>
    decreases gs.len() - from,
{
    if from < 0 || from >= gs.len() {
        None
    } else if gs[from].name == name {
        Some(from)
    } else {
        position_from(gs, name, from + 1)
    }
}

/// The place of the first geometry that has the name.
pub open spec fn position_of(gs: Seq<GeometryView>, name: Seq<char>) -> Option<int> {
    position_from(gs, name, 0)
}

/// Whether no two of the geometries share a name.
pub open spec fn distinct_names(gs: Seq<GeometryView>) -> bool {
    forall|i: int, j: int|
        0 <= i < j < gs.len() ==> (#[trigger] gs[i]).name != (#[trigger] gs[j]).name
}

/// The scene without instances and geometries.
pub open spec fn empty_scene(name: Seq<char>, light: Light) -> SceneView {
    SceneView {
        name,
        instances: Seq::<InstanceView>::empty(),
        geometries: Seq::<GeometryView>::empty(),
        light,
    }
}

/// The instance that a declaration places, of a geometry of the given name.
pub open spec fn instance_of(d: DeclarationView, geometry_name: Seq<char>) -> InstanceView {
    InstanceView {
        name: d.name,
        geometry_name,
        transform: d.transform,
        material: default_material(),
        emissive: d.emissive,
    }
}

/// The scene after one more object: its instance comes last, and its
/// geometry joins the others unless one of them has its name already.
pub open spec fn placed(s: SceneView, d: DeclarationView, g: GeometryView) -> SceneView {
    SceneView {
        instances: s.instances.push(instance_of(d, g.name)),
        geometries: if has_geometry(s.geometries, g.name) {
            s.geometries
        } else {
            s.geometries.push(g)
        },
        ..s
    }
}

/// Placing an object keeps the geometries' names distinct.
pub proof fn lemma_placed_keeps_distinct(s: SceneView, d: DeclarationView, g: GeometryView)
    requires
        distinct_names(s.geometries),
    ensures
        distinct_names(placed(s, d, g).geometries),
{
    let r = placed(s, d, g).geometries;
    if !has_geometry(s.geometries, g.name) {
        assert forall|i: int, j: int| 0 <= i < j < r.len() implies (#[trigger] r[i]).name != (
        #[trigger] r[j]).name by {
            if j < s.geometries.len() {
                assert(s.geometries[i].name != s.geometries[j].name);
            } else {
                assert(s.geometries[i].name != g.name);
            }
        }
    }
}

/// The scene after the objects `ds`, each with the geometry of `gs` at the
/// same place, one after the other.
pub open spec fn placed_all(s: SceneView, ds: Seq<DeclarationView>, gs: Seq<GeometryView>) -> SceneView
    decreases ds.len(),
{
    if ds.len() == 0 || gs.len() != ds.len() {
        s
    } else {
        placed(placed_all(s, ds.drop_last(), gs.drop_last()), ds.last(), gs.last())
    }
}

/// The open object of a scene text that is being read.
struct OpenObject {
    geometry: String,
    name: String,
    position: [Scalar; 3],
    rotation: [Scalar; 3],
    scale: [Scalar; 3],
    emissive: Scalar,
}

impl View for OpenObject {
    type V = Draft;

    closed spec fn view(&self) -> Draft {
        Draft {
            geometry: self.geometry@,
            name: self.name@,
            position: self.position,
            rotation: self.rotation,
            scale: self.scale,
            emissive: self.emissive,
        }
    }
}

/// A scene text that is being read.
struct SceneReader {
    name: String,
    light: Light,
    open: Option<OpenObject>,
    objects: Vec<ObjectDeclaration>,
}

impl View for SceneReader {
    type V = Reading;

    closed spec fn view(&self) -> Reading {
        Reading {
            name: self.name@,
            light: self.light,
            open: match self.open {
                Some(o) => Some(o@),
                None => None,
            },
            objects: declarations(self.objects@),
        }
    }
}

impl OpenObject {
    fn new() -> (o: OpenObject)
        ensures
            o@ == new_draft(),
    {
        OpenObject {
            geometry: String::new(),
            name: String::new(),
            position: [Scalar { bits: ZERO }, Scalar { bits: ZERO }, Scalar { bits: ZERO }],
            rotation: [Scalar { bits: ZERO }, Scalar { bits: ZERO }, Scalar { bits: ZERO }],
            scale: [Scalar { bits: ONE }, Scalar { bits: ONE }, Scalar { bits: ONE }],
            emissive: Scalar { bits: ZERO },
        }
    }

    /// The declaration that the object becomes when it is closed.
    fn declare(self, root: &str) -> (d: ObjectDeclaration)
        ensures
            d@ == declared(self@, root@),
    {
        let mut path = String::from_str(root);
        path.append("/");
        path.append(self.geometry.as_str());
        ObjectDeclaration {
            geometry_path: path,
            name: self.name,
            transform: Transform {
                position: self.position,
                rotation: self.rotation,
                scale: self.scale,
            },
            emissive: self.emissive,
        }
    }

    /// Applies a line that starts with a keyword of an object.
    fn read_line<F: Fn(&str) -> Option<Scalar>>(
        self,
        index: usize,
        w: &Vec<Vec<char>>,
        number: &F,
    ) -> (r: Result<OpenObject, ParseError>)
        requires
            index < usize::MAX,
            reads_all(*number),
            w.len() > 0,
        ensures
            forall|g: Oracle| #[trigger]
                reads_as(*number, g) ==> match object_line(self@, index as int, texts(w@), g) {
                    Ok(next) => r is Ok && r->Ok_0@ == next,
                    Err(e) => r is Err && r->Err_0 == e,
                },
            object_line(self@, index as int, texts(w@), no_value()) is Ok ==> r is Ok && r->Ok_0@
                == object_line(self@, index as int, texts(w@), no_value())->Ok_0,
    {
        proof {
            assert(forall|i: int| 0 <= i < w.len() ==> texts(w@)[i] == w@[i]@);
        }
        let key = &w[0];
        if is_word(key, "geometry:") {
            if w.len() > 1 {
                let geometry = string_of(&w[1], 0);
                proof {
                    assert(w@[1]@.skip(0) == w@[1]@);
                }
                return Ok(OpenObject { geometry, ..self });
            }
            return Ok(self);
        }
        if is_word(key, "name:") {
            if w.len() > 1 {
                let name = string_of(&w[1], 0);
                proof {
                    assert(w@[1]@.skip(0) == w@[1]@);
                }
                return Ok(OpenObject { name, ..self });
            }
            return Ok(self);
        }
        let position = is_word(key, "position:");
        let rotation = is_word(key, "rotation:");
        let scale = is_word(key, "scale:");
        if position || rotation || scale {
            if w.len() >= 4 {
                return match read_triple(w, 1, number) {
                    Some(v) => if position {
                        Ok(OpenObject { position: v, ..self })
                    } else if rotation {
                        Ok(OpenObject { rotation: v, ..self })
                    } else {
                        Ok(OpenObject { scale: v, ..self })
                    },
                    None => Err(ParseError::InvalidNumber { line: index + 1 }),
                };
            }
            return Ok(self);
        }
        if is_word(key, "emissive:") {
            if w.len() >= 2 {
                return match read_scalar(&w[1], number) {
                    Some(v) => Ok(OpenObject { emissive: v, ..self }),
                    None => Err(ParseError::InvalidNumber { line: index + 1 }),
                };
            }
            return Ok(self);
        }
        Ok(self)
    }
}

impl SceneReader {
    fn new() -> (s: SceneReader)
        ensures
            s@ == new_reading(),
    {
        let objects: Vec<ObjectDeclaration> = Vec::new();
        proof {
            assert(declarations(objects@) == Seq::<DeclarationView>::empty());
        }
        SceneReader {
            name: String::from_str("Unnamed Scene"),
            light: Light::default(),
            open: None,
            objects,
        }
    }

    /// The objects once the open one, if any, is closed.
    fn close(open: Option<OpenObject>, objects: Vec<ObjectDeclaration>, root: &str) -> (r: Vec<
        ObjectDeclaration,
    >)
        ensures
            declarations(r@) == match open {
                Some(o) => declarations(objects@).push(declared(o@, root@)),
                None => declarations(objects@),
            },
    {
        let mut objects = objects;
        match open {
            Some(o) => {
                let ghost before = objects@;
                let d = o.declare(root);
                objects.push(d);
                proof {
                    assert(declarations(objects@) == declarations(before).push(d@));
                }
            },
            None => {},
        }
        objects
    }

    /// Applies a line that starts with a keyword of the light.
    fn read_light<F: Fn(&str) -> Option<Scalar>>(
        self,
        index: usize,
        w: &Vec<Vec<char>>,
        number: &F,
    ) -> (r: Result<SceneReader, ParseError>)
        requires
            index < usize::MAX,
            reads_all(*number),
            w.len() > 0,
        ensures
            forall|g: Oracle| #[trigger]
                reads_as(*number, g) ==> match light_line(self@, index as int, texts(w@), g) {
                    Ok(next) => r is Ok && r->Ok_0@ == next,
                    Err(e) => r is Err && r->Err_0 == e,
                },
            light_line(self@, index as int, texts(w@), no_value()) is Ok ==> r is Ok && r->Ok_0@
                == light_line(self@, index as int, texts(w@), no_value())->Ok_0,
    {
        proof {
            assert(forall|i: int| 0 <= i < w.len() ==> texts(w@)[i] == w@[i]@);
        }
        let key = &w[0];
        let direction = is_word(key, "light_direction:");
        let color = is_word(key, "light_color:");
        if direction || color {
            if w.len() >= 4 {
                return match read_triple(w, 1, number) {
                    Some(v) => if direction {
                        Ok(SceneReader { light: Light { direction: v, ..self.light }, ..self })
                    } else {
                        Ok(SceneReader { light: Light { color: v, ..self.light }, ..self })
                    },
                    None => Err(ParseError::InvalidNumber { line: index + 1 }),
                };
            }
            return Ok(self);
        }
        let intensity = is_word(key, "light_intensity:");
        if w.len() >= 2 {
            return match read_scalar(&w[1], number) {
                Some(v) => if intensity {
                    Ok(SceneReader { light: Light { intensity: v, ..self.light }, ..self })
                } else {
                    Ok(SceneReader { light: Light { ambient_strength: v, ..self.light }, ..self })
                },
                None => Err(ParseError::InvalidNumber { line: index + 1 }),
            };
        }
        Ok(self)
    }

    /// Applies one line of a scene text.
    fn read_line<F: Fn(&str) -> Option<Scalar>>(
        self,
        index: usize,
        line: &Vec<char>,
        root: &str,
        number: &F,
    ) -> (r: Result<SceneReader, ParseError>)
        requires
            index < usize::MAX,
            reads_all(*number),
        ensures
            forall|g: Oracle| #[trigger]
                reads_as(*number, g) ==> match scene_line(self@, index as int, line@, root@, g) {
                    Ok(next) => r is Ok && r->Ok_0@ == next,
                    Err(e) => r is Err && r->Err_0 == e,
                },
            scene_line(self@, index as int, line@, root@, no_value()) is Ok ==> r is Ok && r->Ok_0@
                == scene_line(self@, index as int, line@, root@, no_value())->Ok_0,
    {
        let w = split_words(line);
        proof {
            assert(forall|i: int| 0 <= i < w.len() ==> texts(w@)[i] == w@[i]@);
        }
        if w.len() == 0 || (w[0].len() > 0 && w[0][0] == '#') {
            return Ok(self);
        }
        let key = &w[0];
        if is_word(key, "scene_name") {
            if w.len() > 1 {
                let name = join_words(&w, 1);
                return Ok(SceneReader { name, ..self });
            }
            return Ok(self);
        }
        if is_word(key, "light_direction:") || is_word(key, "light_color:") || is_word(
            key,
            "light_intensity:",
        ) || is_word(key, "ambient_strength:") {
            return self.read_light(index, &w, number);
        }
        if is_word(key, "object") {
            let SceneReader { name, light, open, objects } = self;
            let objects = Self::close(open, objects, root);
            return Ok(SceneReader { name, light, open: Some(OpenObject::new()), objects });
        }
        let SceneReader { name, light, open, objects } = self;
        match open {
            Some(o) => match o.read_line(index, &w, number) {
                Ok(next) => Ok(SceneReader { name, light, open: Some(next), objects }),
                Err(e) => Err(e),
            },
            None => Ok(SceneReader { name, light, open: None, objects }),
        }
    }
}

impl Scene {
    /// Reads the content of a scene file. `assets_root` is the directory
    /// that the geometry paths of the text are relative to; `number`
    /// converts a word to the binary32 value it writes. A text that sets no
    /// value does not ask it, and is read whatever `number` does.
    pub fn load_from_arsc<F: Fn(&str) -> Option<Scalar>>(
        content: &str,
        assets_root: &str,
        number: &F,
    ) -> (r: Result<SceneDescription, ParseError>)
        requires
            reads_all(*number),
        ensures
            forall|g: Oracle| #[trigger]
                reads_as(*number, g) ==> match parse_scene(content@, assets_root@, g) {
                    Ok(d) => r is Ok && r->Ok_0@ == d,
                    Err(e) => r is Err && r->Err_0 == e,
                },
            parse_scene(content@, assets_root@, no_value()) is Ok ==> r is Ok && r->Ok_0@
                == parse_scene(content@, assets_root@, no_value())->Ok_0,
    {
        let text = chars_of(content);
        let all = split_lines(&text);
        let mut reader = SceneReader::new();
        let ghost ls = lines(content@);
        let ghost root = assets_root@;
        let mut i: usize = 0;
        proof {
            assert(ls.take(0) == Seq::<Seq<char>>::empty());
        }
        while i < all.len()
            invariant
                i <= all.len(),
                reads_all(*number),
                texts(all@) == ls,
                ls == lines(content@),
                root == assets_root@,
                forall|g: Oracle| #[trigger]
                    reads_as(*number, g) ==> fold_lines(
                        ls.take(i as int),
                        new_reading(),
                        scene_step(root, g),
                    ) == Ok::<Reading, ParseError>(reader@),
                fold_lines(ls, new_reading(), scene_step(root, no_value())) is Ok ==> fold_lines(
                    ls.take(i as int),
                    new_reading(),
                    scene_step(root, no_value()),
                ) == Ok::<Reading, ParseError>(reader@),
            decreases all.len() - i,
        {
            let ghost before = reader@;
            let outcome = reader.read_line(i, &all[i], assets_root, number);
            proof {
                assert(ls[i as int] == all@[i as int]@);
                assert forall|g: Oracle| #[trigger] reads_as(*number, g) implies fold_lines(
                    ls.take(i + 1),
                    new_reading(),
                    scene_step(root, g),
                ) == scene_line(before, i as int, ls[i as int], root, g) by {
                    lemma_fold_next(ls, i as int, new_reading(), scene_step(root, g));
                }
                lemma_fold_next(ls, i as int, new_reading(), scene_step(root, no_value()));
                if fold_lines(ls.take(i + 1), new_reading(), scene_step(root, no_value())) is Err {
                    lemma_fold_refused(ls, i + 1, new_reading(), scene_step(root, no_value()));
                }
            }
            match outcome {
                Ok(next) => {
                    reader = next;
                },
                Err(e) => {
                    proof {
                        assert forall|g: Oracle| #[trigger]
                            reads_as(*number, g) implies parse_scene(content@, root, g) == Err::<
                            DescriptionView,
                            ParseError,
                        >(e) by {
                            lemma_fold_refused(ls, i + 1, new_reading(), scene_step(root, g));
                        }
                    }
                    return Err(e);
                },
            }
            i += 1;
        }
        proof {
            assert(ls.take(all.len() as int) == ls);
        }
        let SceneReader { name, light, open, objects } = reader;
        let objects = SceneReader::close(open, objects, assets_root);
        Ok(SceneDescription { name, light, objects })
    }
}

impl Scene {
    /// A scene without instances and geometries, under the default light.
    pub fn new(name: String) -> (s: Scene)
        ensures
            s@ == empty_scene(name@, default_light()),
    {
        let s = Scene {
            name,
            instances: Vec::new(),
            geometries: Vec::new(),
            light: Light::default(),
        };
        proof {
            assert(instances_of(s.instances@) == Seq::<InstanceView>::empty());
            assert(geometries_of(s.geometries@) == Seq::<GeometryView>::empty());
        }
        s
    }

    /// Adds an instance after the others.
    pub fn add_instance(&mut self, instance: ObjectInstance)
        ensures
            final(self)@ == (SceneView {
                instances: old(self)@.instances.push(instance@),
                ..old(self)@
            }),
    {
        self.instances.push(instance);
        proof {
            assert(instances_of(self.instances@) == instances_of(old(self).instances@).push(
                instance@,
            ));
        }
    }

    /// The first geometry of the given name.
    pub fn get_geometry(&self, name: &str) -> (r: Option<&ObjectGeometry>)
        ensures
            match lookup(self@.geometries, name@) {
                Some(g) => r is Some && r->0@ == g,
                None => r is None,
            },
    {
        let ghost gs = self@.geometries;
        let wanted = String::from_str(name);
        let mut i: usize = 0;
        proof {
            assert(gs.skip(0) == gs);
        }
        while i < self.geometries.len()
            invariant
                i <= self.geometries.len(),
                gs == geometries_of(self.geometries@),
                wanted@ == name@,
                lookup(gs, name@) == lookup(gs.skip(i as int), name@),
            decreases self.geometries.len() - i,
        {
            let g = &self.geometries[i];
            proof {
                assert(gs.skip(i as int)[0] == g@);
                assert(gs.skip(i as int).skip(1) == gs.skip(i + 1));
            }
            if g.name == wanted {
                return Some(g);
            }
            i += 1;
        }
        None
    }

    /// The place of the first geometry of the given name.
    pub fn geometry_index(&self, name: &String) -> (r: Option<usize>)
        ensures
            match r {
                Some(i) => position_of(self@.geometries, name@) == Some(i as int)
                    && i < self.geometries.len(),
                None => position_of(self@.geometries, name@) is None,
            },
    {
        let ghost gs = self@.geometries;
        let mut i: usize = 0;
        while i < self.geometries.len()
            invariant
                i <= self.geometries.len(),
                gs == geometries_of(self.geometries@),
                position_of(gs, name@) == position_from(gs, name@, i as int),
            decreases self.geometries.len() - i,
        {
            proof {
                assert(gs[i as int] == self.geometries@[i as int]@);
            }
            if self.geometries[i].name == *name {
                return Some(i);
            }
            i += 1;
        }
        None
    }

    /// Puts a scene together from what its text says and the geometries
    /// that were loaded for its objects, `geometries[k]` for object `k`.
    pub fn assemble(description: SceneDescription, geometries: Vec<ObjectGeometry>) -> (s: Scene)
        requires
            geometries.len() == description.objects.len(),
        ensures
            s@ == placed_all(
                empty_scene(description@.name, description@.light),
                description@.objects,
                geometries_of(geometries@),
            ),
    {
        let ghost all = geometries_of(geometries@);
        let ghost decls = description@.objects;
        let ghost start = empty_scene(description@.name, description@.light);
        let ghost n = geometries.len() as int;
        let SceneDescription { name, light, objects } = description;
        let mut rest = geometries;
        let mut reversed: Vec<ObjectGeometry> = Vec::new();
        while rest.len() > 0
            invariant
                rest@.len() + reversed@.len() == n,
                all.len() == n,
                forall|i: int| 0 <= i < rest@.len() ==> (#[trigger] rest@[i])@ == all[i],
                forall|j: int|
                    0 <= j < reversed@.len() ==> (#[trigger] reversed@[j])@ == all[n - 1 - j],
            decreases rest@.len(),
        {
            let g = rest.pop().unwrap();
            reversed.push(g);
        }
        let mut scene = Scene { name, instances: Vec::new(), geometries: Vec::new(), light };
        proof {
            assert(instances_of(scene.instances@) == Seq::<InstanceView>::empty());
            assert(geometries_of(scene.geometries@) == Seq::<GeometryView>::empty());
            assert(decls.take(0) == Seq::<DeclarationView>::empty());
        }
        for d in it: objects.into_iter()
            invariant
                it.seq() == objects@,
                declarations(objects@) == decls,
                decls.len() == n,
                all.len() == n,
                reversed@.len() == n - it.index(),
                forall|j: int|
                    0 <= j < reversed@.len() ==> (#[trigger] reversed@[j])@ == all[n - 1 - j],
                scene@ == placed_all(start, decls.take(it.index() as int), all.take(it.index() as int)),
        {
            let ghost k = it.index() as int;
            let g = reversed.pop().unwrap();
            proof {
                assert(decls.take(k + 1).drop_last() == decls.take(k));
                assert(all.take(k + 1).drop_last() == all.take(k));
                assert(decls.take(k + 1).last() == d@);
                assert(all.take(k + 1).last() == g@);
            }
            scene.place(d, g);
        }
        proof {
            assert(decls.take(n) == decls);
            assert(all.take(n) == all);
        }
        scene
    }

    /// Places one more object: its instance comes last, and its geometry is
    /// kept unless the scene holds one of that name already.
    pub fn place(&mut self, declaration: ObjectDeclaration, geometry: ObjectGeometry)
        ensures
            final(self)@ == placed(old(self)@, declaration@, geometry@),
            distinct_names(old(self)@.geometries) ==> distinct_names(final(self)@.geometries),
    {
        proof {
            if distinct_names(self@.geometries) {
                lemma_placed_keeps_distinct(self@, declaration@, geometry@);
            }
        }
        let ghost gs = self@.geometries;
        let instance = ObjectInstance {
            name: declaration.name,
            geometry_name: geometry.name.clone(),
            transform: declaration.transform,
            material: Material::default(),
            emissive: declaration.emissive,
        };
        let mut known = false;
        let mut i: usize = 0;
        while i < self.geometries.len()
            invariant
                i <= self.geometries.len(),
                gs == geometries_of(self.geometries@),
                known == exists|k: int| 0 <= k < i && (#[trigger] gs[k]).name == geometry.name@,
            decreases self.geometries.len() - i,
        {
            proof {
                assert(gs[i as int] == self.geometries@[i as int]@);
            }
            if self.geometries[i].name == geometry.name {
                known = true;
            }
            i += 1;
        }
        if !known {
            self.geometries.push(geometry);
            proof {
                assert(geometries_of(self.geometries@) == gs.push(geometry@));
            }
        }
        self.instances.push(instance);
        proof {
            assert(instances_of(self.instances@) == instances_of(old(self).instances@).push(
                instance@,
            ));
        }
    }
}

} // verus!
