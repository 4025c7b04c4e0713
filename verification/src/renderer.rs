//! The decisions of the frame loop.
//!
//! The caller owns the graphics device and the window. It asks here what to
//! do when the window changes size and when a frame is due, and carries out
//! what it is told: the commands of a frame come as a list, in the order in
//! which they are to be encoded.

use crate::camera::start_camera;
use crate::camera::Camera;
use crate::camera::CameraController;
use crate::camera::CameraUniform;
use crate::camera::identity_matrix;
use crate::camera::SENSITIVITY;
use crate::input::idle;
use crate::input::Input;
use crate::pipeline::PresentMode;
use crate::pipeline::SurfaceDescription;
use crate::scalar::ONE;
use crate::scalar::ZERO;
use crate::scalar::Scalar;
use crate::scene::position_of;
use crate::scene::Scene;
use crate::scene::SceneView;
use crate::texture::single_level;
use crate::texture::TextureDescription;
use crate::texture::TextureFormat;
use vstd::prelude::*;

verus! {

/// The slot of the camera's resource group.
pub const CAMERA_SLOT: u32 = 0;

/// The slot of an instance's model resource group.
pub const MODEL_SLOT: u32 = 1;

/// The slot of the lights' resource group.
pub const LIGHTS_SLOT: u32 = 2;

/// The slot of an instance's texture resource group.
pub const TEXTURE_SLOT: u32 = 3;

/// The pattern of `0.004`: the length of one camera movement.
pub const CAMERA_SPEED: u32 = 0x3b83_126f;

/// A bundle of resources that is bound to a slot of the pipeline.
#[derive(Clone, Copy, Debug, PartialEq, Eq, Structural)]
pub enum ResourceGroup {
    /// The view-projection matrix.
    Camera,
    /// The model matrix and glow of the instance at this place.
    Model(usize),
    /// The directional light and the point lights.
    Lights,
    /// The texture and sampler of the instance at this place.
    Texture(usize),
}

/// One command of a render pass.
#[derive(Clone, Copy, Debug, PartialEq, Eq, Structural)]
pub enum Command {
    SetPipeline,
    SetBindGroup { slot: u32, group: ResourceGroup },
    /// Binds the whole vertex buffer of the geometry at this place.
    SetVertexBuffer { slot: u32, geometry: usize },
    /// Binds the whole index buffer of the geometry at this place, as
    /// 16-bit indices.
    SetIndexBuffer { geometry: usize },
    /// Draws once the triangles of the first `index_count` indices.
    DrawIndexed { index_count: usize },
}

/// How the attempt to get the next image of the surface went.
#[derive(Clone, Copy, Debug, PartialEq, Eq, Structural)]
pub enum Acquisition {
    Ready,
    /// The surface no longer fits the window.
    Outdated,
    /// Any other failure.
    Failed,
}

/// One render pass: what the attachments are cleared to, and the commands
/// in the order in which they are encoded.
#[derive(Debug)]
pub struct Frame {
    /// Red, green, blue and alpha that the colour attachment is cleared to.
    pub clear_color: [Scalar; 4],
    /// The depth that the depth attachment is cleared to.
    pub clear_depth: Scalar,
    pub commands: Vec<Command>,
}

/// What to do with a frame.
#[derive(Debug)]
pub enum FrameAction {
    /// Nothing: the window has no area.
    Skip,
    /// Encode this frame in one render pass, submit it, present the image,
    /// and ask for the next frame.
    Draw(Frame),
    /// Configure the surface anew and leave this frame out.
    Reconfigure,
    /// Give up: the surface cannot be drawn to.
    Abort,
}

/// What the renderer knows beside the device's resources.
#[derive(Debug)]
pub struct State {
    pub width: u32,
    pub height: u32,
    pub scene: Scene,
    pub camera: Camera,
    pub camera_uniform: CameraUniform,
    pub camera_controller: CameraController,
    pub input: Input,
}

/// The renderer's state as a mathematical value.
pub struct StateView {
    pub width: u32,
    pub height: u32,
    pub scene: SceneView,
    pub camera: Camera,
    pub camera_uniform: CameraUniform,
    pub camera_controller: CameraController,
    pub input: Input,
}

impl View for State {
    type V = StateView;

    open spec fn view(&self) -> StateView {
        StateView {
            width: self.width,
            height: self.height,
            scene: self.scene@,
            camera: self.camera,
            camera_uniform: self.camera_uniform,
            camera_controller: self.camera_controller,
            input: self.input,
        }
    }
}

/// Whether a surface of this size has no area.
pub open spec fn degenerate(width: u32, height: u32) -> bool {
    width == 0 || height == 0
}

/// The commands that draw the instance at place `i` with the geometry at
/// place `g`.
pub open spec fn draw(i: int, g: int, index_count: int) -> Seq<Command> {
    seq![
        Command::SetBindGroup { slot: MODEL_SLOT, group: ResourceGroup::Model(i as usize) },
        Command::SetBindGroup { slot: TEXTURE_SLOT, group: ResourceGroup::Texture(i as usize) },
        Command::SetVertexBuffer { slot: 0, geometry: g as usize },
        Command::SetIndexBuffer { geometry: g as usize },
        Command::DrawIndexed { index_count: index_count as usize },
    ]
}

/// The commands that draw the instance at place `i`: none if the scene has
/// no geometry of the name that the instance refers to.
pub open spec fn draw_instance(s: SceneView, i: int) -> Seq<Command> {
    match position_of(s.geometries, s.instances[i].geometry_name) {
        Some(g) => draw(i, g, s.geometries[g].indices.len() as int),
        None => Seq::<Command>::empty(),
    }
}

/// The commands that draw the first `n` instances, in the order of the
/// scene.
pub open spec fn draws(s: SceneView, n: int) -> Seq<Command>
    decreases n,
{
    if n <= 0 {
        Seq::<Command>::empty()
    } else {
        draws(s, n - 1) + draw_instance(s, n - 1)
    }
}

/// The commands that every frame starts with: the pipeline, then the camera
/// and the lights, which are bound once for all instances.
pub open spec fn frame_start() -> Seq<Command> {
    seq![
        Command::SetPipeline,
        Command::SetBindGroup { slot: CAMERA_SLOT, group: ResourceGroup::Camera },
        Command::SetBindGroup { slot: LIGHTS_SLOT, group: ResourceGroup::Lights },
    ]
}

/// The commands of one frame of a scene.
pub open spec fn frame_commands(s: SceneView) -> Seq<Command> {
    frame_start() + draws(s, s.instances.len() as int)
}

/// Opaque black.
pub open spec fn black() -> [Scalar; 4] {
    [Scalar { bits: ZERO }, Scalar { bits: ZERO }, Scalar { bits: ZERO }, Scalar { bits: ONE }]
}

/// The depth of the far plane.
pub open spec fn far() -> Scalar {
    Scalar { bits: ONE }
}

/// The surface for a window of the given size: it shows each frame at once
/// and lets two frames at most wait.
pub open spec fn surface_for(width: u32, height: u32) -> SurfaceDescription {
    SurfaceDescription {
        width,
        height,
        present_mode: PresentMode::Immediate,
        desired_maximum_frame_latency: 2,
    }
}

/// The state once the window has been given a size: a size without area
/// changes nothing; any other becomes the size, and the camera takes its
/// aspect ratio.
pub open spec fn resized(s: StateView, width: u32, height: u32, aspect: Scalar) -> StateView {
    if degenerate(width, height) {
        s
    } else {
        StateView { width, height, camera: Camera { aspect, ..s.camera }, ..s }
    }
}

impl State {
    /// The state at the start, for a scene and a surface of the given size
    /// and aspect ratio.
    pub fn new(scene: Scene, width: u32, height: u32, aspect: Scalar) -> (s: State)
        ensures
            s@ == (StateView {
                width,
                height,
                scene: scene@,
                camera: start_camera(aspect),
                camera_uniform: CameraUniform { view_proj: identity_matrix() },
                camera_controller: CameraController {
                    speed: Scalar { bits: CAMERA_SPEED },
                    sensitivity: Scalar { bits: SENSITIVITY },
                },
                input: idle(),
            }),
    {
        State {
            width,
            height,
            scene,
            camera: Camera::new(aspect),
            camera_uniform: CameraUniform::new(),
            camera_controller: CameraController::new(Scalar { bits: CAMERA_SPEED }),
            input: Input::new(),
        }
    }

    /// Takes a new size of the window, with the aspect ratio that the
    /// caller has computed from it. Returns whether the size was taken: if
    /// so, the depth buffer is to be built anew at that size and the surface
    /// to be configured anew; if not, nothing is to be touched.
    pub fn resize(&mut self, width: u32, height: u32, aspect: Scalar) -> (taken: bool)
        ensures
            taken == !degenerate(width, height),
            final(self)@ == resized(old(self)@, width, height, aspect),
    {
        if width == 0 || height == 0 {
            return false;
        }
        self.width = width;
        self.height = height;
        self.camera.aspect = aspect;
        true
    }

    /// The shape of the depth buffer: as large as the window, one level, one
    /// sample for each pixel.
    pub fn create_depth_texture(&self) -> (d: TextureDescription)
        ensures
            d == single_level(self.width, self.height, TextureFormat::Depth24Plus),
    {
        TextureDescription {
            width: self.width,
            height: self.height,
            mip_level_count: 1,
            sample_count: 1,
            format: TextureFormat::Depth24Plus,
        }
    }

    /// How the surface is to be configured: as large as the window.
    pub fn configure_surface(&self) -> (d: SurfaceDescription)
        ensures
            d == surface_for(self.width, self.height),
    {
        SurfaceDescription {
            width: self.width,
            height: self.height,
            present_mode: PresentMode::Immediate,
            desired_maximum_frame_latency: 2,
        }
    }

    /// Whether a frame is to be drawn at all: not while the window has no
    /// area.
    pub fn frame_due(&self) -> (due: bool)
        ensures
            due == !degenerate(self.width, self.height),
    {
        self.width != 0 && self.height != 0
    }

    /// The commands of one frame.
    pub fn draw_commands(&self) -> (r: Vec<Command>)
        ensures
            r@ == frame_commands(self@.scene),
    {
        let ghost s = self@.scene;
        let mut commands: Vec<Command> = Vec::new();
        commands.push(Command::SetPipeline);
        commands.push(Command::SetBindGroup { slot: CAMERA_SLOT, group: ResourceGroup::Camera });
        commands.push(Command::SetBindGroup { slot: LIGHTS_SLOT, group: ResourceGroup::Lights });
        let mut i: usize = 0;
        proof {
            assert(commands@ == frame_start() + draws(s, 0));
        }
        while i < self.scene.instances.len()
            invariant
                i <= self.scene.instances.len(),
                s == self@.scene,
                commands@ == frame_start() + draws(s, i as int),
            decreases self.scene.instances.len() - i,
        {
            let ghost before = commands@;
            proof {
                assert(s.instances[i as int] == self.scene.instances@[i as int]@);
            }
            match self.scene.geometry_index(&self.scene.instances[i].geometry_name) {
                Some(g) => {
                    proof {
                        assert(s.geometries[g as int] == self.scene.geometries@[g as int]@);
                    }
                    let index_count = self.scene.geometries[g].indices.len();
                    commands.push(
                        Command::SetBindGroup { slot: MODEL_SLOT, group: ResourceGroup::Model(i) },
                    );
                    commands.push(
                        Command::SetBindGroup {
                            slot: TEXTURE_SLOT,
                            group: ResourceGroup::Texture(i),
                        },
                    );
                    commands.push(Command::SetVertexBuffer { slot: 0, geometry: g });
                    commands.push(Command::SetIndexBuffer { geometry: g });
                    commands.push(Command::DrawIndexed { index_count });
                    proof {
                        assert(commands@ == before + draw(i as int, g as int, index_count as int));
                    }
                },
                None => {
                    proof {
                        assert(commands@ == before + Seq::<Command>::empty());
                    }
                },
            }
            proof {
                assert(frame_start() + draws(s, i as int) + draw_instance(s, i as int)
                    == frame_start() + draws(s, i + 1));
            }
            i += 1;
        }
        commands
    }

    /// What to do with the frame that is due, given how the attempt to get
    /// the surface's next image went.
    pub fn render(&self, surface: Acquisition) -> (action: FrameAction)
        ensures
            degenerate(self.width, self.height) ==> action is Skip,
            !degenerate(self.width, self.height) ==> match surface {
                Acquisition::Ready => action is Draw && action->Draw_0.commands@ == frame_commands(
                    self@.scene,
                ) && action->Draw_0.clear_color == black() && action->Draw_0.clear_depth == far(),
                Acquisition::Outdated => action is Reconfigure,
                Acquisition::Failed => action is Abort,
            },
    {
        if !self.frame_due() {
            return FrameAction::Skip;
        }
        match surface {
            Acquisition::Ready => FrameAction::Draw(
                Frame {
                    clear_color: [
                        Scalar { bits: ZERO },
                        Scalar { bits: ZERO },
                        Scalar { bits: ZERO },
                        Scalar { bits: ONE },
                    ],
                    clear_depth: Scalar { bits: ONE },
                    commands: self.draw_commands(),
                },
            ),
            Acquisition::Outdated => FrameAction::Reconfigure,
            Acquisition::Failed => FrameAction::Abort,
        }
    }
}

} // verus!
