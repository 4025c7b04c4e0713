//! What holds of the commands of every frame.

use crate::object::GeometryView;
use crate::renderer::draw;
use crate::renderer::draw_instance;
use crate::renderer::draws;
use crate::renderer::frame_commands;
use crate::renderer::frame_start;
use crate::renderer::Command;
use crate::renderer::ResourceGroup;
use crate::renderer::MODEL_SLOT;
use crate::renderer::TEXTURE_SLOT;
use crate::scene::has_geometry;
use crate::scene::lookup;
use crate::scene::position_from;
use crate::scene::position_of;
use crate::scene::SceneView;
use vstd::prelude::*;

verus! {

/// A search from `from` on finds the first geometry of the name at or after
/// `from`, and finds none only if there is none.
pub proof fn lemma_position_from(gs: Seq<GeometryView>, name: Seq<char>, from: int)
    requires
        0 <= from <= gs.len(),
    ensures
        match position_from(gs, name, from) {
            Some(i) => from <= i < gs.len() && gs[i].name == name && forall|j: int|
                from <= j < i ==> (#[trigger] gs[j]).name != name,
            None => forall|j: int| from <= j < gs.len() ==> (#[trigger] gs[j]).name != name,
        },
        lookup(gs.skip(from), name) == match position_from(gs, name, from) {
            Some(i) => Some(gs[i]),
            None => None,
        },
    decreases gs.len() - from,
{
    if from < gs.len() {
        assert(gs.skip(from)[0] == gs[from]);
        if gs[from].name != name {
            lemma_position_from(gs, name, from + 1);
            assert(gs.skip(from).skip(1) == gs.skip(from + 1));
        }
    }
}

/// The place that a name resolves to is that of the first geometry of the
/// name, which is the geometry that [`lookup`] gives; a name resolves to no
/// place exactly if no geometry has it.
pub proof fn lemma_position_of(gs: Seq<GeometryView>, name: Seq<char>)
    ensures
        match position_of(gs, name) {
            Some(i) => 0 <= i < gs.len() && gs[i].name == name && lookup(gs, name) == Some(gs[i])
                && forall|j: int| 0 <= j < i ==> (#[trigger] gs[j]).name != name,
            None => lookup(gs, name) is None,
        },
        position_of(gs, name) is Some <==> has_geometry(gs, name),
{
    lemma_position_from(gs, name, 0);
    assert(gs.skip(0) == gs);
    if has_geometry(gs, name) {
        let i = choose|i: int| 0 <= i < gs.len() && (#[trigger] gs[i]).name == name;
        assert(gs[i].name == name);
    }
}

/// An instance that refers to a geometry that the scene does not have is
/// left out of the frame: no command is issued for it.
pub proof fn lemma_dangling_skipped(s: SceneView, i: int)
    requires
        0 <= i < s.instances.len(),
        !has_geometry(s.geometries, s.instances[i].geometry_name),
    ensures
        draw_instance(s, i) == Seq::<Command>::empty(),
{
    lemma_position_of(s.geometries, s.instances[i].geometry_name);
}

/// An instance whose geometry the scene has is drawn by five commands: its
/// own model group and its own texture group are bound, then the buffers of
/// the first geometry of the name it refers to, and all indices of that
/// geometry are drawn once.
pub proof fn lemma_resolved_drawn(s: SceneView, i: int)
    requires
        0 <= i < s.instances.len(),
        has_geometry(s.geometries, s.instances[i].geometry_name),
    ensures
        position_of(s.geometries, s.instances[i].geometry_name) is Some,
        lookup(s.geometries, s.instances[i].geometry_name) is Some,
        draw_instance(s, i) == draw(
            i,
            position_of(s.geometries, s.instances[i].geometry_name)->0,
            lookup(s.geometries, s.instances[i].geometry_name)->0.indices.len() as int,
        ),
        draw_instance(s, i).len() == 5,
        draw_instance(s, i)[0] == (Command::SetBindGroup {
            slot: MODEL_SLOT,
            group: ResourceGroup::Model(i as usize),
        }),
        draw_instance(s, i)[1] == (Command::SetBindGroup {
            slot: TEXTURE_SLOT,
            group: ResourceGroup::Texture(i as usize),
        }),
{
    lemma_position_of(s.geometries, s.instances[i].geometry_name);
}

/// In a scene in which every instance refers to a geometry that the scene
/// has, every instance is drawn, in the order of the scene: instance `i` by
/// the five commands from place `5 * i` on.
pub proof fn lemma_draws_all(s: SceneView, n: int)
    requires
        0 <= n <= s.instances.len(),
        forall|i: int|
            0 <= i < s.instances.len() ==> has_geometry(
                s.geometries,
                (#[trigger] s.instances[i]).geometry_name,
            ),
    ensures
        draws(s, n).len() == 5 * n,
        forall|i: int|
            0 <= i < n ==> #[trigger] draws(s, n).subrange(5 * i, 5 * i + 5) == draw_instance(s, i),
    decreases n,
{
    if n > 0 {
        lemma_draws_all(s, n - 1);
        assert(has_geometry(s.geometries, s.instances[n - 1].geometry_name));
        lemma_resolved_drawn(s, n - 1);
        let before = draws(s, n - 1);
        let all = draws(s, n);
        assert forall|i: int| 0 <= i < n implies #[trigger] all.subrange(5 * i, 5 * i + 5)
            == draw_instance(s, i) by {
            if i < n - 1 {
                assert(all.subrange(5 * i, 5 * i + 5) == before.subrange(5 * i, 5 * i + 5));
            } else {
                assert(all.subrange(5 * i, 5 * i + 5) == draw_instance(s, i));
            }
        }
    }
}

/// A frame starts with the pipeline, the camera and the lights, bound once;
/// the draws follow. If every instance refers to a geometry that the scene
/// has, the frame holds one indexed draw for each instance.
pub proof fn lemma_frame(s: SceneView)
    ensures
        frame_commands(s).len() >= 3,
        frame_commands(s).subrange(0, 3) == frame_start(),
        (forall|i: int|
            0 <= i < s.instances.len() ==> has_geometry(
                s.geometries,
                (#[trigger] s.instances[i]).geometry_name,
            )) ==> frame_commands(s).len() == 3 + 5 * s.instances.len(),
{
    assert(frame_commands(s).subrange(0, 3) == frame_start());
    if forall|i: int|
        0 <= i < s.instances.len() ==> has_geometry(
            s.geometries,
            (#[trigger] s.instances[i]).geometry_name,
        ) {
        lemma_draws_all(s, s.instances.len() as int);
    }
}

} // verus!
