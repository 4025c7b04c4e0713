//! The lights of a scene as the shaders read them.
//!
//! Beside the one directional light, every instance that glows is a point
//! light. The shaders take a fixed number of them: the first
//! [`MAX_POINT_LIGHTS`] instances that glow, in the order of the scene, and
//! no others.

use crate::scalar::Scalar;
use crate::scalar::ZERO;
use crate::scene::instances_of;
use crate::scene::InstanceView;
use crate::scene::ObjectInstance;
use vstd::prelude::*;

verus! {

/// How many point lights the shaders take.
pub const MAX_POINT_LIGHTS: usize = 8;

/// A light that shines from a point in all directions.
#[derive(Clone, Copy, Debug, PartialEq, Eq)]
pub struct PointLight {
    pub position: [Scalar; 3],
    pub intensity: Scalar,
    pub color: [Scalar; 3],
}

/// What an instance sends out as a point light. The caller derives it from
/// the instance's glow: the intensity is the glow scaled for visibility.
#[derive(Clone, Copy, Debug, PartialEq, Eq)]
pub struct Emission {
    pub intensity: Scalar,
    pub color: [Scalar; 3],
}

/// The point lights of a scene: `count` lights in front, dark ones behind
/// them.
#[derive(Clone, Copy, Debug, PartialEq, Eq)]
pub struct PointLightsUniform {
    pub lights: [PointLight; 8],
    pub count: u32,
}

/// A light that is off: at the origin, black, of intensity 0.
pub open spec fn dark() -> PointLight {
    let zero = Scalar { bits: ZERO };
    PointLight { position: [zero, zero, zero], intensity: zero, color: [zero, zero, zero] }
}

/// The places of the instances that glow, in the order of the scene.
pub open spec fn emitters(instances: Seq<InstanceView>) -> Seq<int>
    decreases instances.len(),
{
    if instances.len() == 0 {
        Seq::<int>::empty()
    } else {
        let before = emitters(instances.drop_last());
        if instances.last().emissive.positive() {
            before.push(instances.len() - 1)
        } else {
            before
        }
    }
}

/// How many point lights a scene of these instances has: one for each
/// instance that glows, and [`MAX_POINT_LIGHTS`] at most.
pub open spec fn light_count(instances: Seq<InstanceView>) -> nat {
    if emitters(instances).len() <= MAX_POINT_LIGHTS {
        emitters(instances).len()
    } else {
        MAX_POINT_LIGHTS as nat
    }
}

/// The point light of an instance: where the instance stands, with what it
/// sends out.
pub open spec fn light_of(instance: InstanceView, emission: Emission) -> PointLight {
    PointLight {
        position: instance.transform.position,
        intensity: emission.intensity,
        color: emission.color,
    }
}

/// The point light in slot `k`: that of the `k`-th instance that glows, or a
/// dark one if fewer glow.
pub open spec fn slot(instances: Seq<InstanceView>, emissions: Seq<Emission>, k: int) -> PointLight {
    if 0 <= k < light_count(instances) {
        let i = emitters(instances)[k];
        light_of(instances[i], emissions[i])
    } else {
        dark()
    }
}

/// The point lights of a scene of these instances, `emissions[i]` being what
/// instance `i` sends out.
pub open spec fn point_lights(
    instances: Seq<InstanceView>,
    emissions: Seq<Emission>,
) -> PointLightsUniform {
    PointLightsUniform {
        lights: [
            slot(instances, emissions, 0),
            slot(instances, emissions, 1),
            slot(instances, emissions, 2),
            slot(instances, emissions, 3),
            slot(instances, emissions, 4),
            slot(instances, emissions, 5),
            slot(instances, emissions, 6),
            slot(instances, emissions, 7),
        ],
        count: light_count(instances) as u32,
    }
}

/// The emitters are places of instances that glow, in rising order, and
/// every instance that glows is among them.
pub proof fn lemma_emitters(instances: Seq<InstanceView>)
    ensures
        emitters(instances).len() <= instances.len(),
        forall|k: int|
            0 <= k < emitters(instances).len() ==> 0 <= (#[trigger] emitters(instances)[k])
                < instances.len() && instances[emitters(instances)[k]].emissive.positive(),
        forall|j: int, k: int|
            0 <= j < k < emitters(instances).len() ==> (#[trigger] emitters(instances)[j]) < (
            #[trigger] emitters(instances)[k]),
        forall|i: int|
            0 <= i < instances.len() && (#[trigger] instances[i]).emissive.positive()
                ==> emitters(instances).contains(i),
    decreases instances.len(),
{
    if instances.len() > 0 {
        let before = instances.drop_last();
        lemma_emitters(before);
        let e = emitters(instances);
        assert forall|i: int|
            0 <= i < instances.len() && (#[trigger] instances[i]).emissive.positive() implies e.contains(
            i,
        ) by {
            if i < instances.len() - 1 {
                assert(before[i].emissive.positive());
                let k = choose|k: int| 0 <= k < emitters(before).len() && emitters(before)[k] == i;
                assert(e[k] == i);
            } else {
                assert(e[e.len() - 1] == i);
            }
        }
        assert forall|k: int| 0 <= k < e.len() implies 0 <= (#[trigger] e[k]) < instances.len()
            && instances[e[k]].emissive.positive() by {
            if k < emitters(before).len() {
                assert(e[k] == emitters(before)[k]);
                assert(before[e[k]] == instances[e[k]]);
            }
        }
    }
}

/// The emitters among the first `n` instances are the first emitters of
/// all.
pub proof fn lemma_emitters_prefix(instances: Seq<InstanceView>, n: int)
    requires
        0 <= n <= instances.len(),
    ensures
        emitters(instances.take(n)).len() <= emitters(instances).len(),
        emitters(instances.take(n)) == emitters(instances).take(
            emitters(instances.take(n)).len() as int,
        ),
    decreases instances.len(),
{
    if n == instances.len() {
        assert(instances.take(n) == instances);
        assert(emitters(instances).take(emitters(instances).len() as int) == emitters(instances));
    } else {
        lemma_emitters_prefix(instances.drop_last(), n);
        assert(instances.drop_last().take(n) == instances.take(n));
        let short = emitters(instances.take(n));
        let before = emitters(instances.drop_last());
        assert(short == emitters(instances).take(short.len() as int)) by {
            assert(before.take(short.len() as int) == emitters(instances).take(short.len() as int));
        }
    }
}

/// However many instances glow, the shaders get [`MAX_POINT_LIGHTS`] point
/// lights at most: the count is exact below that many and stays there
/// above. The lights in front are those of the first instances that glow, in
/// the order of the scene; an instance that glows after
/// [`MAX_POINT_LIGHTS`] others is in no slot's place.
pub proof fn lemma_point_lights_capped(instances: Seq<InstanceView>, emissions: Seq<Emission>)
    ensures
        point_lights(instances, emissions).count <= MAX_POINT_LIGHTS,
        emitters(instances).len() >= MAX_POINT_LIGHTS ==> point_lights(instances, emissions).count
            == MAX_POINT_LIGHTS,
        emitters(instances).len() < MAX_POINT_LIGHTS ==> point_lights(instances, emissions).count
            == emitters(instances).len(),
        forall|k: int|
            0 <= k < 8 ==> (#[trigger] point_lights(instances, emissions).lights[k]) == slot(
                instances,
                emissions,
                k,
            ),
        forall|k: int|
            point_lights(instances, emissions).count <= k < 8 ==> (#[trigger] point_lights(
                instances,
                emissions,
            ).lights[k]) == dark(),
{
}

impl PointLightsUniform {
    /// Gathers the point lights of a scene. `emissions[i]` is what instance
    /// `i` sends out if it glows.
    pub fn collect(instances: &Vec<ObjectInstance>, emissions: &Vec<Emission>) -> (r:
        PointLightsUniform)
        requires
            emissions.len() == instances.len(),
        ensures
            r == point_lights(instances_of(instances@), emissions@),
    {
        let ghost all = instances_of(instances@);
        let zero = Scalar { bits: ZERO };
        let off = PointLight {
            position: [zero, zero, zero],
            intensity: zero,
            color: [zero, zero, zero],
        };
        let mut found: Vec<PointLight> = Vec::new();
        let mut i: usize = 0;
        proof {
            assert(all.take(0) == Seq::<InstanceView>::empty());
        }
        while i < instances.len()
            invariant
                i <= instances.len(),
                emissions.len() == instances.len(),
                all == instances_of(instances@),
                found@.len() == light_count(all.take(i as int)),
                forall|k: int|
                    0 <= k < found@.len() ==> #[trigger] found@[k] == slot(
                        all.take(i as int),
                        emissions@,
                        k,
                    ),
            decreases instances.len() - i,
        {
            proof {
                let now = all.take(i as int);
                let next = all.take(i + 1);
                assert(next.drop_last() == now);
                assert(next.last() == instances@[i as int]@);
                lemma_emitters(now);
                assert forall|k: int| 0 <= k < light_count(now) implies slot(next, emissions@, k)
                    == slot(now, emissions@, k) by {
                    assert(emitters(next)[k] == emitters(now)[k]);
                    assert(next[emitters(now)[k]] == now[emitters(now)[k]]);
                }
            }
            if instances[i].emissive.is_positive() && found.len() < MAX_POINT_LIGHTS {
                found.push(
                    PointLight {
                        position: instances[i].transform.position,
                        intensity: emissions[i].intensity,
                        color: emissions[i].color,
                    },
                );
            }
            i += 1;
        }
        proof {
            assert(all.take(instances.len() as int) == all);
        }
        let count = found.len();
        while found.len() < MAX_POINT_LIGHTS
            invariant
                count <= found@.len() <= MAX_POINT_LIGHTS,
                count == light_count(all),
                off == dark(),
                forall|k: int| 0 <= k < count ==> #[trigger] found@[k] == slot(all, emissions@, k),
                forall|k: int| count <= k < found@.len() ==> #[trigger] found@[k] == dark(),
            decreases MAX_POINT_LIGHTS - found@.len(),
        {
            found.push(off);
        }
        PointLightsUniform {
            lights: [
                found[0],
                found[1],
                found[2],
                found[3],
                found[4],
                found[5],
                found[6],
                found[7],
            ],
            count: count as u32,
        }
    }
}

} // verus!
