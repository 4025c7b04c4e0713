use arbitra::camera::Camera;
use arbitra::material::Material;
use arbitra::object::ObjectGeometry;
use arbitra::renderer::Acquisition;
use arbitra::renderer::Command;
use arbitra::renderer::FrameAction;
use arbitra::renderer::ResourceGroup;
use arbitra::renderer::State;
use arbitra::renderer::CAMERA_SLOT;
use arbitra::renderer::LIGHTS_SLOT;
use arbitra::renderer::MODEL_SLOT;
use arbitra::renderer::TEXTURE_SLOT;
use arbitra::scalar::Scalar;
use arbitra::scene::ObjectDeclaration;
use arbitra::scene::ObjectInstance;
use arbitra::scene::Scene;
use arbitra::texture::TextureFormat;
use arbitra::transform::Transform;

fn s(v: f32) -> Scalar {
    Scalar::from_bits(v.to_bits())
}

fn f(v: Scalar) -> f32 {
    f32::from_bits(v.to_bits())
}

fn geometry(name: &str, indices: usize) -> ObjectGeometry {
    ObjectGeometry { name: name.to_string(), vertices: Vec::new(), indices: vec![0; indices] }
}

fn declaration(name: &str) -> ObjectDeclaration {
    ObjectDeclaration {
        geometry_path: String::new(),
        name: name.to_string(),
        transform: Transform::new(),
        emissive: s(0.0),
    }
}

fn sample_scene() -> Scene {
    let mut scene = Scene::new("s".to_string());
    scene.place(declaration("a"), geometry("Cube", 36));
    scene.place(declaration("b"), geometry("Sphere", 960));
    scene.place(declaration("c"), geometry("Cube", 36));
    scene
}

fn draw(instance: usize, geometry: usize, index_count: usize) -> Vec<Command> {
    vec![
        Command::SetBindGroup { slot: 1, group: ResourceGroup::Model(instance) },
        Command::SetBindGroup { slot: 3, group: ResourceGroup::Texture(instance) },
        Command::SetVertexBuffer { slot: 0, geometry },
        Command::SetIndexBuffer { geometry },
        Command::DrawIndexed { index_count },
    ]
}

fn start() -> Vec<Command> {
    vec![
        Command::SetPipeline,
        Command::SetBindGroup { slot: 0, group: ResourceGroup::Camera },
        Command::SetBindGroup { slot: 2, group: ResourceGroup::Lights },
    ]
}

#[test]
fn resize_to_nothing_is_ignored_then_a_real_size_is_taken() {
    let mut state = State::new(sample_scene(), 1024, 768, s(1024.0 / 768.0));
    let depth = state.create_depth_texture();
    assert_eq!((depth.width, depth.height), (1024, 768));
    let camera = state.camera;

    assert!(!state.resize(0, 0, s(0.0 / 0.0)));
    assert_eq!((state.width, state.height), (1024, 768));
    assert_eq!(state.camera, camera);
    assert_eq!(state.create_depth_texture(), depth);

    assert!(state.resize(800, 600, s(800.0 / 600.0)));
    assert_eq!((state.width, state.height), (800, 600));
    assert_eq!(f(state.camera.aspect), 800.0 / 600.0);
    let depth = state.create_depth_texture();
    assert_eq!((depth.width, depth.height), (800, 600));
    assert_eq!(depth.format, TextureFormat::Depth24Plus);
    assert_eq!(depth.mip_level_count, 1);
    assert_eq!(depth.sample_count, 1);
    assert_eq!(state.camera.eye, camera.eye);
    assert_eq!(state.camera.pitch, camera.pitch);
}

#[test]
fn resize_ignores_a_size_with_one_side_of_zero() {
    let mut state = State::new(Scene::new("s".to_string()), 640, 480, s(640.0 / 480.0));
    assert!(!state.resize(0, 600, s(0.0)));
    assert!(!state.resize(800, 0, s(f32::INFINITY)));
    assert_eq!((state.width, state.height), (640, 480));
    assert_eq!(f(state.camera.aspect), 640.0 / 480.0);
    assert!(state.resize(1, 1, s(1.0)));
    assert_eq!((state.width, state.height), (1, 1));
}

#[test]
fn state_starts_with_the_start_camera_and_idle_input() {
    let state = State::new(sample_scene(), 800, 600, s(800.0 / 600.0));
    assert_eq!(state.camera, Camera::new(s(800.0 / 600.0)));
    assert_eq!(f(state.camera_controller.speed), 0.004);
    assert_eq!(f(state.camera_controller.sensitivity), 0.002);
    assert!(state.input.movements().is_empty());
    assert_eq!(state.scene.instances.len(), 3);
    assert!(state.frame_due());
}

#[test]
fn no_frame_while_the_window_has_no_area() {
    let state = State::new(sample_scene(), 0, 0, s(f32::NAN));
    assert!(!state.frame_due());
    for surface in [Acquisition::Ready, Acquisition::Outdated, Acquisition::Failed] {
        assert!(matches!(state.render(surface), FrameAction::Skip));
    }
    let state = State::new(sample_scene(), 800, 0, s(f32::INFINITY));
    assert!(!state.frame_due());
    assert!(matches!(state.render(Acquisition::Ready), FrameAction::Skip));
}

#[test]
fn outdated_surface_is_reconfigured_and_other_failures_abort() {
    let state = State::new(sample_scene(), 800, 600, s(800.0 / 600.0));
    assert!(matches!(state.render(Acquisition::Outdated), FrameAction::Reconfigure));
    assert!(matches!(state.render(Acquisition::Failed), FrameAction::Abort));
}

#[test]
fn frame_binds_camera_and_lights_once_and_draws_each_instance() {
    let state = State::new(sample_scene(), 800, 600, s(800.0 / 600.0));
    let frame = match state.render(Acquisition::Ready) {
        FrameAction::Draw(frame) => frame,
        _ => panic!("no draw"),
    };
    assert_eq!(frame.clear_color.map(f), [0.0, 0.0, 0.0, 1.0]);
    assert_eq!(f(frame.clear_depth), 1.0);
    let commands = frame.commands;
    let mut want = start();
    want.extend(draw(0, 0, 36));
    want.extend(draw(1, 1, 960));
    want.extend(draw(2, 0, 36));
    assert_eq!(commands, want);
    assert_eq!(commands, state.draw_commands());
    assert_eq!((CAMERA_SLOT, MODEL_SLOT, LIGHTS_SLOT, TEXTURE_SLOT), (0, 1, 2, 3));
}

#[test]
fn instance_with_dangling_geometry_is_left_out_of_the_frame() {
    let mut scene = sample_scene();
    scene.instances.insert(
        1,
        ObjectInstance {
            name: "ghost".to_string(),
            geometry_name: "Nowhere".to_string(),
            transform: Transform::new(),
            material: Material::default(),
            emissive: s(0.0),
        },
    );
    let state = State::new(scene, 800, 600, s(800.0 / 600.0));
    let mut want = start();
    want.extend(draw(0, 0, 36));
    want.extend(draw(2, 1, 960));
    want.extend(draw(3, 0, 36));
    assert_eq!(state.draw_commands(), want);
}

#[test]
fn frame_of_an_empty_scene_only_binds() {
    let state = State::new(Scene::new("s".to_string()), 800, 600, s(800.0 / 600.0));
    assert_eq!(state.draw_commands(), start());
}

#[test]
fn surface_is_configured_to_the_window() {
    let mut state = State::new(Scene::new("s".to_string()), 640, 480, s(640.0 / 480.0));
    let d = state.configure_surface();
    assert_eq!((d.width, d.height), (640, 480));
    assert_eq!(d.desired_maximum_frame_latency, 2);
    state.resize(0, 0, s(1.0));
    assert_eq!(state.configure_surface(), d);
    state.resize(320, 200, s(1.6));
    let d = state.configure_surface();
    assert_eq!((d.width, d.height), (320, 200));
}
