//! The fixed parts of the graphics pipeline: which resources are bound
//! where, how triangles are assembled and tested, and how the surface
//! presents.
//!
//! The shaders are written against these descriptions. The caller builds
//! the device's pipeline from them.

use crate::renderer::CAMERA_SLOT;
use crate::renderer::LIGHTS_SLOT;
use crate::renderer::MODEL_SLOT;
use crate::renderer::TEXTURE_SLOT;
use crate::texture::TextureFormat;
use vstd::prelude::*;

verus! {

/// What is bound at a binding of a resource group.
#[derive(Clone, Copy, Debug, PartialEq, Eq, Structural)]
pub enum BindingKind {
    /// A uniform buffer, bound whole.
    Uniform,
    /// A two-dimensional texture of filterable values.
    Texture,
    /// A filtering sampler.
    Sampler,
}

/// One binding of a resource group.
#[derive(Clone, Copy, Debug, PartialEq, Eq, Structural)]
pub struct BindingEntry {
    pub binding: u32,
    /// Whether the vertex stage reads the binding.
    pub vertex: bool,
    /// Whether the fragment stage reads the binding.
    pub fragment: bool,
    pub kind: BindingKind,
}

/// How vertices are put together to primitives.
#[derive(Clone, Copy, Debug, PartialEq, Eq, Structural)]
pub enum Topology {
    TriangleList,
}

/// Which winding is the front of a triangle.
#[derive(Clone, Copy, Debug, PartialEq, Eq, Structural)]
pub enum FrontFace {
    CounterClockwise,
}

/// Which comparison with the depth buffer a fragment has to pass.
#[derive(Clone, Copy, Debug, PartialEq, Eq, Structural)]
pub enum DepthCompare {
    Less,
}

/// When the surface shows a frame.
#[derive(Clone, Copy, Debug, PartialEq, Eq, Structural)]
pub enum PresentMode {
    /// At once, without waiting for the display.
    Immediate,
}

/// The fixed state of the render pipeline.
#[derive(Clone, Copy, Debug, PartialEq, Eq, Structural)]
pub struct PipelineDescription {
    pub topology: Topology,
    pub front_face: FrontFace,
    /// Whether triangles that face away are left out. They are not: both
    /// sides of a triangle are drawn.
    pub cull_back_faces: bool,
    pub depth_format: TextureFormat,
    pub depth_write_enabled: bool,
    pub depth_compare: DepthCompare,
    pub sample_count: u32,
}

/// How the surface is configured for a window of a given size.
#[derive(Clone, Copy, Debug, PartialEq, Eq, Structural)]
pub struct SurfaceDescription {
    pub width: u32,
    pub height: u32,
    pub present_mode: PresentMode,
    pub desired_maximum_frame_latency: u32,
}

/// The bindings of the resource group at a slot: the camera's matrix for
/// the vertex stage; an instance's model uniform for both stages; the
/// directional light and the point lights for the fragment stage; an
/// instance's texture and sampler for the fragment stage. No other slot is
/// used.
pub open spec fn group_layout(slot: u32) -> Seq<BindingEntry> {
    if slot == CAMERA_SLOT {
        seq![BindingEntry { binding: 0, vertex: true, fragment: false, kind: BindingKind::Uniform }]
    } else if slot == MODEL_SLOT {
        seq![BindingEntry { binding: 0, vertex: true, fragment: true, kind: BindingKind::Uniform }]
    } else if slot == LIGHTS_SLOT {
        seq![
            BindingEntry { binding: 0, vertex: false, fragment: true, kind: BindingKind::Uniform },
            BindingEntry { binding: 1, vertex: false, fragment: true, kind: BindingKind::Uniform },
        ]
    } else if slot == TEXTURE_SLOT {
        seq![
            BindingEntry { binding: 0, vertex: false, fragment: true, kind: BindingKind::Texture },
            BindingEntry { binding: 1, vertex: false, fragment: true, kind: BindingKind::Sampler },
        ]
    } else {
        Seq::<BindingEntry>::empty()
    }
}

/// The fixed state of the pipeline: indexed triangle lists, both sides
/// drawn, the nearer fragment wins, depth of at least 24 bits, one sample
/// for each pixel.
pub open spec fn fixed_pipeline() -> PipelineDescription {
    PipelineDescription {
        topology: Topology::TriangleList,
        front_face: FrontFace::CounterClockwise,
        cull_back_faces: false,
        depth_format: TextureFormat::Depth24Plus,
        depth_write_enabled: true,
        depth_compare: DepthCompare::Less,
        sample_count: 1,
    }
}

/// The bindings of the resource group at a slot.
pub fn bind_group_layout(slot: u32) -> (r: Vec<BindingEntry>)
    ensures
        r@ == group_layout(slot),
{
    let mut r: Vec<BindingEntry> = Vec::new();
    if slot == CAMERA_SLOT {
        r.push(BindingEntry { binding: 0, vertex: true, fragment: false, kind: BindingKind::Uniform });
    } else if slot == MODEL_SLOT {
        r.push(BindingEntry { binding: 0, vertex: true, fragment: true, kind: BindingKind::Uniform });
    } else if slot == LIGHTS_SLOT {
        r.push(BindingEntry { binding: 0, vertex: false, fragment: true, kind: BindingKind::Uniform });
        r.push(BindingEntry { binding: 1, vertex: false, fragment: true, kind: BindingKind::Uniform });
    } else if slot == TEXTURE_SLOT {
        r.push(BindingEntry { binding: 0, vertex: false, fragment: true, kind: BindingKind::Texture });
        r.push(BindingEntry { binding: 1, vertex: false, fragment: true, kind: BindingKind::Sampler });
    }
    r
}

/// The fixed state of the pipeline.
pub fn pipeline() -> (p: PipelineDescription)
    ensures
        p == fixed_pipeline(),
{
    PipelineDescription {
        topology: Topology::TriangleList,
        front_face: FrontFace::CounterClockwise,
        cull_back_faces: false,
        depth_format: TextureFormat::Depth24Plus,
        depth_write_enabled: true,
        depth_compare: DepthCompare::Less,
        sample_count: 1,
    }
}

/// Within each resource group the bindings are numbered from 0 without
/// gap, and every binding is read by at least one stage.
pub proof fn lemma_bindings_numbered(slot: u32)
    ensures
        forall|i: int|
            0 <= i < group_layout(slot).len() ==> (#[trigger] group_layout(slot)[i]).binding == i
                && (group_layout(slot)[i].vertex || group_layout(slot)[i].fragment),
        slot > TEXTURE_SLOT ==> group_layout(slot).len() == 0,
{
}

} // verus!
