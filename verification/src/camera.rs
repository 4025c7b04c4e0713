//! The camera and what steers it.
//!
//! The camera looks along the direction that its yaw and pitch give. Each
//! frame the caller turns it by the mouse motion and moves it by the pressed
//! keys; the sums and products of that are the caller's, the limits are
//! kept here.

use crate::scalar::lemma_clamp_bounds;
use crate::scalar::Scalar;
use crate::scalar::HALF;
use crate::scalar::ONE;
use crate::scalar::ZERO;
use vstd::prelude::*;

verus! {

/// The pattern of `1.5`: the steepest pitch upwards, in radians.
pub const PITCH_MAX: u32 = 0x3fc0_0000;

/// The pattern of `-1.5`: the steepest pitch downwards, in radians.
pub const PITCH_MIN: u32 = 0xbfc0_0000;

/// The pattern of `0.002`: radians of turn for each unit of mouse motion.
pub const SENSITIVITY: u32 = 0x3b03_126f;

/// The pattern of `2.0`.
pub const TWO: u32 = 0x4000_0000;

/// The pattern of `45.0`: the vertical field of view at the start, in
/// degrees.
pub const START_FOVY: u32 = 0x4234_0000;

/// The pattern of `0.1`: the near plane at the start.
pub const START_ZNEAR: u32 = 0x3dcc_cccd;

/// The pattern of `100.0`: the far plane at the start.
pub const START_ZFAR: u32 = 0x42c8_0000;

/// The pattern of minus a quarter turn in radians: the yaw at the start.
pub const START_YAW: u32 = 0xbfc9_0fdb;

/// The pattern of `-0.4`: the pitch at the start, in radians.
pub const START_PITCH: u32 = 0xbecc_cccd;

/// Where the viewer stands and how the view is projected.
#[derive(Clone, Copy, Debug, PartialEq, Eq)]
pub struct Camera {
    pub eye: [Scalar; 3],
    pub target: [Scalar; 3],
    pub up: [Scalar; 3],
    pub aspect: Scalar,
    pub fovy: Scalar,
    pub znear: Scalar,
    pub zfar: Scalar,
    pub yaw: Scalar,
    pub pitch: Scalar,
}

/// How fast the camera moves and turns.
#[derive(Clone, Copy, Debug, PartialEq, Eq, Structural)]
pub struct CameraController {
    /// The length of one movement.
    pub speed: Scalar,
    /// Radians of turn for each unit of mouse motion.
    pub sensitivity: Scalar,
}

/// The view-projection matrix as the vertex stage reads it, column by
/// column.
#[derive(Clone, Copy, Debug, PartialEq, Eq)]
pub struct CameraUniform {
    pub view_proj: [[Scalar; 4]; 4],
}

/// The camera at the start: at (0, 1, 2), looking at the origin, y up.
pub open spec fn start_camera(aspect: Scalar) -> Camera {
    let zero = Scalar { bits: ZERO };
    let one = Scalar { bits: ONE };
    Camera {
        eye: [zero, one, Scalar { bits: TWO }],
        target: [zero, zero, zero],
        up: [zero, one, zero],
        aspect,
        fovy: Scalar { bits: START_FOVY },
        znear: Scalar { bits: START_ZNEAR },
        zfar: Scalar { bits: START_ZFAR },
        yaw: Scalar { bits: START_YAW },
        pitch: Scalar { bits: START_PITCH },
    }
}

/// The matrix that changes nothing.
pub open spec fn identity_matrix() -> [[Scalar; 4]; 4] {
    let zero = Scalar { bits: ZERO };
    let one = Scalar { bits: ONE };
    [[one, zero, zero, zero], [zero, one, zero, zero], [zero, zero, one, zero], [zero, zero, zero, one]]
}

/// The matrix that maps the depth range -1 to 1 of the projection to the
/// range 0 to 1 of the graphics device, column by column. The
/// view-projection matrix is this matrix times the perspective projection
/// times the view.
pub open spec fn clip_correction() -> [[Scalar; 4]; 4] {
    let zero = Scalar { bits: ZERO };
    let half = Scalar { bits: HALF };
    let one = Scalar { bits: ONE };
    [[one, zero, zero, zero], [zero, one, zero, zero], [zero, zero, half, zero], [zero, zero, half, one]]
}

/// The pitch that the camera takes when it is asked for `pitch`: the nearest
/// one between [`PITCH_MIN`] and [`PITCH_MAX`].
pub open spec fn kept_pitch(pitch: Scalar) -> Scalar {
    pitch.clamped(Scalar { bits: PITCH_MIN }, Scalar { bits: PITCH_MAX })
}

impl Camera {
    /// The camera at the start, for a surface of the given aspect ratio.
    pub fn new(aspect: Scalar) -> (c: Camera)
        ensures
            c == start_camera(aspect),
    {
        let zero = Scalar { bits: ZERO };
        let one = Scalar { bits: ONE };
        Camera {
            eye: [zero, one, Scalar { bits: TWO }],
            target: [zero, zero, zero],
            up: [zero, one, zero],
            aspect,
            fovy: Scalar { bits: START_FOVY },
            znear: Scalar { bits: START_ZNEAR },
            zfar: Scalar { bits: START_ZFAR },
            yaw: Scalar { bits: START_YAW },
            pitch: Scalar { bits: START_PITCH },
        }
    }

    /// The matrix that maps the projection's depth range to that of the
    /// graphics device.
    pub fn clip_correction() -> (m: [[Scalar; 4]; 4])
        ensures
            m == clip_correction(),
    {
        let zero = Scalar { bits: ZERO };
        let half = Scalar { bits: HALF };
        let one = Scalar { bits: ONE };
        [[one, zero, zero, zero], [zero, one, zero, zero], [zero, zero, half, zero], [zero, zero, half, one]]
    }

    /// Turns the camera to the given yaw and pitch. The pitch is kept
    /// between [`PITCH_MIN`] and [`PITCH_MAX`], so that the view never
    /// flips over.
    pub fn turn(&mut self, yaw: Scalar, pitch: Scalar)
        ensures
            *final(self) == (Camera { yaw, pitch: kept_pitch(pitch), ..*old(self) }),
    {
        self.yaw = yaw;
        self.pitch = pitch.clamp(Scalar { bits: PITCH_MIN }, Scalar { bits: PITCH_MAX });
    }
}

/// The camera after the mouse has moved by what gives the turns `mouse_yaw`
/// and `mouse_pitch`: it takes the new yaw and pitch if one of the turns is
/// not zero, and stays as it is if both are.
pub open spec fn looked(
    camera: Camera,
    mouse_yaw: Scalar,
    mouse_pitch: Scalar,
    yaw: Scalar,
    pitch: Scalar,
) -> Camera {
    if mouse_yaw.nonzero() || mouse_pitch.nonzero() {
        Camera { yaw, pitch: kept_pitch(pitch), ..camera }
    } else {
        camera
    }
}

impl CameraController {
    /// Turns the camera by the mouse. `mouse_yaw` and `mouse_pitch` are the
    /// pending mouse motion times the sensitivity; `yaw` is the camera's yaw
    /// plus `mouse_yaw`, `pitch` its pitch minus `mouse_pitch`, both computed
    /// by the caller. A mouse that has not moved leaves the camera as it is.
    pub fn look(
        &self,
        camera: &mut Camera,
        mouse_yaw: Scalar,
        mouse_pitch: Scalar,
        yaw: Scalar,
        pitch: Scalar,
    )
        ensures
            *final(camera) == looked(*old(camera), mouse_yaw, mouse_pitch, yaw, pitch),
    {
        if mouse_yaw.is_nonzero() || mouse_pitch.is_nonzero() {
            camera.turn(yaw, pitch);
        }
    }

    /// A controller that moves the camera by `speed` at each step.
    pub fn new(speed: Scalar) -> (c: CameraController)
        ensures
            c == (CameraController { speed, sensitivity: Scalar { bits: SENSITIVITY } }),
    {
        CameraController { speed, sensitivity: Scalar { bits: SENSITIVITY } }
    }
}

impl CameraUniform {
    /// The uniform of a camera that has not been looked through yet: the
    /// identity.
    pub fn new() -> (u: CameraUniform)
        ensures
            u.view_proj == identity_matrix(),
    {
        let zero = Scalar { bits: ZERO };
        let one = Scalar { bits: ONE };
        CameraUniform {
            view_proj: [
                [one, zero, zero, zero],
                [zero, one, zero, zero],
                [zero, zero, one, zero],
                [zero, zero, zero, one],
            ],
        }
    }

    /// Takes the camera's view-projection matrix, which the caller has
    /// computed.
    pub fn update_view_proj(&mut self, view_proj: [[Scalar; 4]; 4])
        ensures
            final(self).view_proj == view_proj,
    {
        self.view_proj = view_proj;
    }
}

/// However far the mouse is moved, the pitch stays between -1.5 and 1.5
/// radians: asked for more than 1.5 the camera takes exactly 1.5, asked for
/// less than -1.5 exactly -1.5, and a pitch in between is taken as it is.
pub proof fn lemma_pitch_kept(pitch: Scalar)
    ensures
        !pitch.nan() ==> (Scalar { bits: PITCH_MIN }).le(kept_pitch(pitch)) && kept_pitch(pitch).le(
            Scalar { bits: PITCH_MAX },
        ),
        (Scalar { bits: PITCH_MAX }).lt(pitch) ==> kept_pitch(pitch).bits == PITCH_MAX,
        pitch.lt(Scalar { bits: PITCH_MIN }) ==> kept_pitch(pitch).bits == PITCH_MIN,
        (Scalar { bits: PITCH_MIN }).le(pitch) && pitch.le(Scalar { bits: PITCH_MAX })
            ==> kept_pitch(pitch) == pitch,
        kept_pitch(kept_pitch(pitch)) == kept_pitch(pitch),
{
    lemma_clamp_bounds(pitch, Scalar { bits: PITCH_MIN }, Scalar { bits: PITCH_MAX });
}

} // verus!
