//! What holds of every scene that is put together object by object.

use crate::object::silent;
use crate::object::GeometryView;
use crate::reader::Oracle;
use crate::scene::closed;
use crate::scene::new_reading;
use crate::scene::parse_scene;
use crate::scene::scene_line;
use crate::scene::scene_step;
use crate::scene::Reading;
use crate::text::fold_lines;
use crate::text::lines;
use crate::text::words;
use crate::scene::distinct_names;
use crate::scene::empty_scene;
use crate::scene::has_geometry;
use crate::scene::instance_of;
use crate::scene::lemma_placed_keeps_distinct;
use crate::scene::placed;
use crate::scene::placed_all;
use crate::scene::DeclarationView;
use crate::scene::Light;
use crate::scene::SceneView;
use vstd::prelude::*;

verus! {

/// Placing an object keeps the geometries' names distinct, adds exactly the
/// name of its geometry to them, and lets the new instance's reference
/// resolve.
pub proof fn lemma_placed(s: SceneView, d: DeclarationView, g: GeometryView)
    ensures
        distinct_names(s.geometries) ==> distinct_names(placed(s, d, g).geometries),
        has_geometry(placed(s, d, g).geometries, g.name),
        forall|name: Seq<char>|
            has_geometry(s.geometries, name) ==> #[trigger] has_geometry(
                placed(s, d, g).geometries,
                name,
            ),
        forall|name: Seq<char>| #[trigger]
            has_geometry(placed(s, d, g).geometries, name) ==> name == g.name || has_geometry(
                s.geometries,
                name,
            ),
{
    let r = placed(s, d, g).geometries;
    if has_geometry(s.geometries, g.name) {
    } else {
        assert(r == s.geometries.push(g));
        assert(r[s.geometries.len() as int].name == g.name);
        assert forall|name: Seq<char>| has_geometry(s.geometries, name) implies #[trigger] has_geometry(
            r,
            name,
        ) by {
            let i = choose|i: int| 0 <= i < s.geometries.len() && (#[trigger] s.geometries[i]).name == name;
            assert(r[i].name == name);
        }
        assert forall|name: Seq<char>| #[trigger] has_geometry(r, name) implies name == g.name
            || has_geometry(s.geometries, name) by {
            let i = choose|i: int| 0 <= i < r.len() && (#[trigger] r[i]).name == name;
            if i < s.geometries.len() {
                assert(s.geometries[i].name == name);
            }
        }
        if distinct_names(s.geometries) {
            lemma_placed_keeps_distinct(s, d, g);
        }
    }
}

/// Loading the same geometry twice keeps one entry: an object whose
/// geometry has a name that the scene knows leaves the geometries as they are.
pub proof fn lemma_place_known_geometry(s: SceneView, d: DeclarationView, g: GeometryView)
    requires
        has_geometry(s.geometries, g.name),
    ensures
        placed(s, d, g).geometries == s.geometries,
{
}

/// Two objects of one geometry, placed into a scene without geometries,
/// leave it with one geometry: the first.
pub proof fn lemma_same_geometry_twice(
    name: Seq<char>,
    light: Light,
    d1: DeclarationView,
    d2: DeclarationView,
    g1: GeometryView,
    g2: GeometryView,
)
    requires
        g1.name == g2.name,
    ensures
        placed(placed(empty_scene(name, light), d1, g1), d2, g2).geometries == seq![g1],
        placed(placed(empty_scene(name, light), d1, g1), d2, g2).instances.len() == 2,
{
    let s0 = empty_scene(name, light);
    let s1 = placed(s0, d1, g1);
    assert(!has_geometry(s0.geometries, g1.name));
    assert(s1.geometries == seq![g1]);
    assert(s1.geometries[0].name == g2.name);
    assert(has_geometry(s1.geometries, g2.name));
}

/// A scene that is put together from `n` objects holds `n` more instances,
/// in the order of the objects, each with the name of the geometry that was
/// loaded for it; the instances it had stay in front. Its geometries keep
/// distinct names, and their names are those it had and those of the
/// geometries that were loaded, no more and no fewer. So every new instance
/// names a geometry of the scene.
pub proof fn lemma_placed_all(s: SceneView, ds: Seq<DeclarationView>, gs: Seq<GeometryView>)
    requires
        ds.len() == gs.len(),
    ensures
        placed_all(s, ds, gs).name == s.name,
        placed_all(s, ds, gs).light == s.light,
        placed_all(s, ds, gs).instances.len() == s.instances.len() + ds.len(),
        forall|i: int|
            0 <= i < s.instances.len() ==> (#[trigger] placed_all(s, ds, gs).instances[i])
                == s.instances[i],
        forall|k: int|
            0 <= k < ds.len() ==> (#[trigger] placed_all(s, ds, gs).instances[s.instances.len()
                + k]) == instance_of(ds[k], gs[k].name),
        distinct_names(s.geometries) ==> distinct_names(placed_all(s, ds, gs).geometries),
        forall|name: Seq<char>| #[trigger]
            has_geometry(placed_all(s, ds, gs).geometries, name) <==> has_geometry(
                s.geometries,
                name,
            ) || has_geometry(gs, name),
        forall|k: int|
            0 <= k < ds.len() ==> has_geometry(
                placed_all(s, ds, gs).geometries,
                (#[trigger] placed_all(s, ds, gs).instances[s.instances.len() + k]).geometry_name,
            ),
    decreases ds.len(),
{
    if ds.len() == 0 {
        assert forall|name: Seq<char>| !has_geometry(gs, name) by {}
    } else {
        let before = placed_all(s, ds.drop_last(), gs.drop_last());
        let after = placed_all(s, ds, gs);
        let d = ds.last();
        let g = gs.last();
        lemma_placed_all(s, ds.drop_last(), gs.drop_last());
        lemma_placed(before, d, g);
        assert(after == placed(before, d, g));
        assert forall|k: int| 0 <= k < ds.len() implies (#[trigger] after.instances[s.instances.len()
            + k]) == instance_of(ds[k], gs[k].name) by {
            if k < ds.len() - 1 {
                assert(before.instances[s.instances.len() + k] == instance_of(
                    ds.drop_last()[k],
                    gs.drop_last()[k].name,
                ));
            }
        }
        assert forall|name: Seq<char>| #[trigger]
            has_geometry(after.geometries, name) <==> has_geometry(s.geometries, name)
                || has_geometry(gs, name) by {
            if has_geometry(gs.drop_last(), name) {
                let i = choose|i: int|
                    0 <= i < gs.drop_last().len() && (#[trigger] gs.drop_last()[i]).name == name;
                assert(gs[i].name == name);
            }
            if has_geometry(gs, name) {
                let i = choose|i: int| 0 <= i < gs.len() && (#[trigger] gs[i]).name == name;
                if i < gs.len() - 1 {
                    assert(gs.drop_last()[i].name == name);
                }
            }
            assert(gs[gs.len() - 1].name == g.name);
            if has_geometry(after.geometries, name) {
                assert(name == g.name || has_geometry(before.geometries, name));
            }
            if has_geometry(s.geometries, name) || has_geometry(gs, name) {
                if name != g.name {
                    assert(has_geometry(before.geometries, name));
                }
            }
        }
        assert forall|k: int| 0 <= k < ds.len() implies has_geometry(
            after.geometries,
            (#[trigger] after.instances[s.instances.len() + k]).geometry_name,
        ) by {
            assert(gs[k].name == gs[k].name);
            assert(has_geometry(gs, gs[k].name));
        }
    }
}

/// Whether the line opens an object: its first word is `object`.
pub open spec fn opens_object(line: Seq<char>) -> bool {
    words(line).len() > 0 && words(line)[0] == "object"@
}

/// How many of the lines open an object.
pub open spec fn object_lines(ls: Seq<Seq<char>>) -> nat
    decreases ls.len(),
{
    if ls.len() == 0 {
        0
    } else if opens_object(ls.last()) {
        object_lines(ls.drop_last()) + 1
    } else {
        object_lines(ls.drop_last())
    }
}

/// A line that opens an object closes the one that is open and opens the
/// next; any other line that is taken leaves the number of objects, the
/// open one counted, as it is.
pub proof fn lemma_scene_line_objects(
    s: Reading,
    index: int,
    line: Seq<char>,
    root: Seq<char>,
    g: Oracle,
)
    ensures
        match scene_line(s, index, line, root, g) {
            Ok(next) => closed(next, root).len() == closed(s, root).len() + if opens_object(line) {
                1nat
            } else {
                0nat
            } && closed(next, root).take(s.objects.len() as int) == s.objects,
            Err(_) => true,
        },
{
    reveal_strlit("object");
    reveal_strlit("scene_name");
    reveal_strlit("light_direction:");
    reveal_strlit("light_color:");
    reveal_strlit("light_intensity:");
    reveal_strlit("ambient_strength:");
    let w = words(line);
    if w.len() > 0 && w[0] == "object"@ {
        assert(w[0].len() == 6);
        assert(w[0][0] == 'o');
        assert(!silent(w));
        assert("scene_name"@.len() == 10);
        assert("light_direction:"@.len() == 16);
        assert("light_color:"@.len() == 12);
        assert("light_intensity:"@.len() == 16);
        assert("ambient_strength:"@.len() == 17);
    }
    match scene_line(s, index, line, root, g) {
        Ok(next) => {
            assert(closed(next, root).take(s.objects.len() as int) == s.objects);
        },
        Err(_) => {},
    }
}

/// A scene text that is taken describes as many objects as it has lines
/// that open one.
pub proof fn lemma_scene_objects_counted(text: Seq<char>, root: Seq<char>, g: Oracle)
    ensures
        match parse_scene(text, root, g) {
            Ok(d) => d.objects.len() == object_lines(lines(text)),
            Err(_) => true,
        },
{
    lemma_fold_objects_counted(lines(text), root, g);
}

/// After any number of lines that were taken, the objects, the open one
/// counted, are as many as the lines that open one.
pub proof fn lemma_fold_objects_counted(ls: Seq<Seq<char>>, root: Seq<char>, g: Oracle)
    ensures
        match fold_lines(ls, new_reading(), scene_step(root, g)) {
            Ok(s) => closed(s, root).len() == object_lines(ls),
            Err(_) => true,
        },
    decreases ls.len(),
{
    if ls.len() > 0 {
        lemma_fold_objects_counted(ls.drop_last(), root, g);
        match fold_lines(ls.drop_last(), new_reading(), scene_step(root, g)) {
            Ok(s) => {
                lemma_scene_line_objects(s, ls.len() - 1, ls.last(), root, g);
            },
            Err(_) => {},
        }
    }
}

} // verus!
