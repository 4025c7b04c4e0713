//! A float-free core for a real-time scene renderer: the asset formats, the
//! scene they describe, and the decisions of resource building and of the
//! frame loop, each with a contract that Verus proves.
//!
//! Binary32 values travel through the library by their bit patterns
//! ([`scalar::Scalar`]); arithmetic on them, file access and the graphics
//! device belong to the caller.

pub mod scalar;
pub mod text;
pub mod text_laws;
pub mod reader;
pub mod error;
pub mod material;
pub mod transform;
pub mod vertex;
pub mod object;
pub mod object_laws;
pub mod scene;
pub mod scene_laws;
pub mod mesh;
pub mod lights;
pub mod input;
pub mod camera;
pub mod renderer;
pub mod pipeline;
pub mod renderer_laws;
pub mod uniform;
pub mod texture;
pub mod capture;
