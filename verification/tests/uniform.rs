use arbitra::camera::CameraUniform;
use arbitra::lights::Emission;
use arbitra::lights::PointLightsUniform;
use arbitra::material::Material;
use arbitra::object::ObjectGeometry;
use arbitra::scalar::Scalar;
use arbitra::scene::Light;
use arbitra::scene::ObjectInstance;
use arbitra::transform::Transform;
use arbitra::uniform::LightUniform;
use arbitra::uniform::ModelUniform;
use arbitra::uniform::POINT_LIGHT_WORDS;
use arbitra::uniform::VERTEX_WORDS;
use arbitra::vertex::Vertex;
use arbitra::vertex::VERTEX_STRIDE;

fn s(v: f32) -> Scalar {
    Scalar::from_bits(v.to_bits())
}

fn floats(words: &Vec<u32>) -> Vec<f32> {
    words.iter().map(|w| f32::from_bits(*w)).collect()
}

fn native(words: &Vec<u32>) -> Vec<u8> {
    words.iter().flat_map(|w| w.to_ne_bytes()).collect()
}

fn matrix() -> [[Scalar; 4]; 4] {
    let mut m = [[s(0.0); 4]; 4];
    for c in 0..4 {
        for r in 0..4 {
            m[c][r] = s(1.0 + (4 * c + r) as f32);
        }
    }
    m
}

#[test]
fn light_uniform_layout() {
    let light = Light {
        direction: [s(0.5), s(-1.0), s(0.25)],
        color: [s(1.0), s(0.9), s(0.8)],
        intensity: s(2.5),
        ambient_strength: s(0.1),
    };
    let u = LightUniform::from_light(&light);
    assert_eq!(u.direction, light.direction);
    assert_eq!(u.color, light.color);
    assert_eq!(u.intensity, light.intensity);
    assert_eq!(u.ambient_strength, light.ambient_strength);
    assert_eq!(
        floats(&u.words()),
        vec![0.5, -1.0, 0.25, 0.0, 1.0, 0.9, 0.8, 0.0, 2.5, 0.1, 0.0, 0.0]
    );
    assert_eq!(u.bytes().len(), 48);
    assert_eq!(u.bytes(), native(&u.words()));
}

#[test]
fn model_uniform_layout() {
    let u = ModelUniform::new(matrix(), s(0.75));
    let words = floats(&u.words());
    assert_eq!(words.len(), 20);
    for k in 0..16 {
        assert_eq!(words[k], 1.0 + k as f32);
    }
    assert_eq!(&words[16..], &[0.75, 0.0, 0.0, 0.0]);
    assert_eq!(u.bytes().len(), 80);
    assert_eq!(u.bytes(), native(&u.words()));
}

#[test]
fn camera_uniform_bytes() {
    let mut u = CameraUniform::new();
    u.update_view_proj(matrix());
    assert_eq!(u.bytes().len(), 64);
    assert_eq!(u.bytes(), native(&u.words()));
    assert_eq!(&u.bytes()[0..4], &1.0f32.to_ne_bytes());
    assert_eq!(&u.bytes()[60..64], &16.0f32.to_ne_bytes());
}

#[test]
fn point_lights_uniform_layout() {
    let instances: Vec<ObjectInstance> = (0..2)
        .map(|k| ObjectInstance {
            name: String::new(),
            geometry_name: String::new(),
            transform: Transform::new().with_position(s(1.0 + k as f32), s(2.0), s(3.0)),
            material: Material::default(),
            emissive: s(1.0),
        })
        .collect();
    let emissions = vec![
        Emission { intensity: s(5.0), color: [s(0.1), s(0.2), s(0.3)] },
        Emission { intensity: s(6.0), color: [s(0.4), s(0.5), s(0.6)] },
    ];
    let u = PointLightsUniform::collect(&instances, &emissions);
    let words = u.words();
    assert_eq!(words.len(), 8 * POINT_LIGHT_WORDS + 4);
    assert_eq!(floats(&words)[0..8], [1.0, 2.0, 3.0, 5.0, 0.1, 0.2, 0.3, 0.0]);
    assert_eq!(floats(&words)[8..16], [2.0, 2.0, 3.0, 6.0, 0.4, 0.5, 0.6, 0.0]);
    assert!(words[16..64].iter().all(|w| *w == 0));
    assert_eq!(&words[64..], &[2, 0, 0, 0]);
    assert_eq!(u.bytes().len(), 272);
    assert_eq!(u.bytes(), native(&words));
}

#[test]
fn vertex_buffer_layout() {
    let v = |k: f32| Vertex {
        position: [s(k), s(k + 1.0), s(k + 2.0)],
        color: [s(k + 3.0), s(k + 4.0), s(k + 5.0)],
        normal: [s(k + 6.0), s(k + 7.0), s(k + 8.0)],
        uv: [s(k + 9.0), s(k + 10.0)],
    };
    let g = ObjectGeometry { name: "g".to_string(), vertices: vec![v(0.0), v(11.0), v(22.0)], indices: Vec::new() };
    let words = g.vertex_words();
    assert_eq!(words.len(), 3 * VERTEX_WORDS);
    for k in 0..33 {
        assert_eq!(f32::from_bits(words[k]), k as f32);
    }
    let bytes = g.vertex_bytes();
    assert_eq!(bytes.len() as u64, 3 * VERTEX_STRIDE);
    assert_eq!(bytes, native(&words));
    let empty = ObjectGeometry { name: "e".to_string(), vertices: Vec::new(), indices: Vec::new() };
    assert!(empty.vertex_words().is_empty());
    assert!(empty.vertex_bytes().is_empty());
}

#[test]
fn vertex_layout_description() {
    let layout = Vertex::desc();
    assert_eq!(layout.array_stride, 44);
    assert_eq!(layout.array_stride, 4 * VERTEX_WORDS as u64);
    let got: Vec<(u64, u32, u32)> =
        layout.attributes.iter().map(|a| (a.offset, a.shader_location, a.components)).collect();
    assert_eq!(got, vec![(0, 0, 3), (12, 1, 3), (24, 2, 3), (36, 3, 2)]);
}
