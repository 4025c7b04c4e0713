use arbitra::error::ParseError;
use arbitra::object::ObjectGeometry;
use arbitra::scalar::Scalar;
use arbitra::scene::Light;
use arbitra::scene::ObjectDeclaration;
use arbitra::scene::ObjectInstance;
use arbitra::scene::Scene;
use arbitra::material::Material;
use arbitra::transform::Transform;

fn number(word: &str) -> Option<Scalar> {
    word.parse::<f32>().ok().map(|v| Scalar::from_bits(v.to_bits()))
}

fn s(v: f32) -> Scalar {
    Scalar::from_bits(v.to_bits())
}

fn v3(a: [Scalar; 3]) -> [f32; 3] {
    [f32::from_bits(a[0].bits), f32::from_bits(a[1].bits), f32::from_bits(a[2].bits)]
}

fn f(v: Scalar) -> f32 {
    f32::from_bits(v.to_bits())
}

fn geometry(name: &str) -> ObjectGeometry {
    ObjectGeometry { name: name.to_string(), vertices: Vec::new(), indices: vec![0, 1, 2] }
}

fn declaration(name: &str, path: &str) -> ObjectDeclaration {
    ObjectDeclaration {
        geometry_path: path.to_string(),
        name: name.to_string(),
        transform: Transform::new(),
        emissive: s(0.0),
    }
}

const SAMPLE: &str = "\
# a sample scene
scene_name  Two   Cubes

light
light_direction: 0.5 -1.0 0.25
light_color: 1.0 0.9 0.8
light_intensity: 2.5
ambient_strength: 0.1

object
geometry: objects/cube.arobj
name: first
position: 1 2 3
rotation: 0 45 0
scale: 2 2 2

object
geometry: objects/sphere.arobj
name: lamp
position: -1.5 0.5 0
emissive: 0.75
";

#[test]
fn scene_with_one_light_and_two_objects() {
    let d = Scene::load_from_arsc(SAMPLE, "assets", &number).unwrap();
    assert_eq!(d.name, "Two Cubes");
    assert_eq!(v3(d.light.direction), [0.5, -1.0, 0.25]);
    assert_eq!(v3(d.light.color), [1.0, 0.9, 0.8]);
    assert_eq!(f(d.light.intensity), 2.5);
    assert_eq!(f(d.light.ambient_strength), 0.1);
    assert_eq!(d.objects.len(), 2);
    assert_eq!(d.objects[0].geometry_path, "assets/objects/cube.arobj");
    assert_eq!(d.objects[0].name, "first");
    assert_eq!(v3(d.objects[0].transform.position), [1.0, 2.0, 3.0]);
    assert_eq!(v3(d.objects[0].transform.rotation), [0.0, 45.0, 0.0]);
    assert_eq!(v3(d.objects[0].transform.scale), [2.0, 2.0, 2.0]);
    assert_eq!(f(d.objects[0].emissive), 0.0);
    assert_eq!(d.objects[1].geometry_path, "assets/objects/sphere.arobj");
    assert_eq!(d.objects[1].name, "lamp");
    assert_eq!(v3(d.objects[1].transform.position), [-1.5, 0.5, 0.0]);
    assert_eq!(v3(d.objects[1].transform.rotation), [0.0, 0.0, 0.0]);
    assert_eq!(v3(d.objects[1].transform.scale), [1.0, 1.0, 1.0]);
    assert_eq!(f(d.objects[1].emissive), 0.75);

    let mut scene = Scene::new(d.name.clone());
    scene.light = d.light;
    let mut loaded = vec![geometry("Cube"), geometry("Sphere")].into_iter();
    for o in d.objects {
        scene.place(o, loaded.next().unwrap());
    }
    assert_eq!(scene.instances.len(), 2);
    assert_eq!(scene.instances[0].name, "first");
    assert_eq!(scene.instances[0].geometry_name, "Cube");
    assert_eq!(scene.instances[1].name, "lamp");
    assert_eq!(scene.instances[1].geometry_name, "Sphere");
    let names: Vec<&str> = scene.geometries.iter().map(|g| g.name.as_str()).collect();
    assert_eq!(names, vec!["Cube", "Sphere"]);
}

#[test]
fn scene_same_geometry_twice_is_kept_once() {
    let mut scene = Scene::new("s".to_string());
    let mut first = geometry("Cube");
    first.indices = vec![9, 9, 9];
    scene.place(declaration("a", "assets/cube.arobj"), first);
    scene.place(declaration("b", "assets/cube.arobj"), geometry("Cube"));
    assert_eq!(scene.geometries.len(), 1);
    assert_eq!(scene.geometries[0].indices, vec![9, 9, 9]);
    assert_eq!(scene.instances.len(), 2);
    assert_eq!(scene.instances[0].geometry_name, "Cube");
    assert_eq!(scene.instances[1].geometry_name, "Cube");
    scene.place(declaration("c", "assets/other.arobj"), geometry("Other"));
    scene.place(declaration("d", "assets/cube.arobj"), geometry("Cube"));
    assert_eq!(scene.geometries.len(), 2);
    assert_eq!(scene.instances.len(), 4);
}

#[test]
fn scene_placed_instance_has_default_material() {
    let mut scene = Scene::new("s".to_string());
    let mut d = declaration("glow", "assets/cube.arobj");
    d.emissive = s(0.5);
    d.transform = Transform::new().with_position(s(1.0), s(2.0), s(3.0));
    scene.place(d, geometry("Cube"));
    let i = &scene.instances[0];
    assert_eq!(i.material.name, "Default");
    assert_eq!(i.material.albedo_texture, "textures/white.png");
    assert_eq!(f(i.emissive), 0.5);
    assert_eq!(v3(i.transform.position), [1.0, 2.0, 3.0]);
    assert_eq!(i.texture_path("assets"), "assets/textures/white.png");
}

#[test]
fn scene_empty_text_gives_defaults() {
    let d = Scene::load_from_arsc("", "assets", &number).unwrap();
    assert_eq!(d.name, "Unnamed Scene");
    assert_eq!(d.light, Light::default());
    assert_eq!(d.objects.len(), 0);
}

#[test]
fn scene_default_light() {
    let l = Light::default();
    assert_eq!(v3(l.direction), [0.3, -1.0, 0.5]);
    assert_eq!(v3(l.color), [1.0, 1.0, 1.0]);
    assert_eq!(f(l.intensity), 1.0);
    assert_eq!(f(l.ambient_strength), 0.2);
}

#[test]
fn scene_new_is_empty() {
    let scene = Scene::new("empty".to_string());
    assert_eq!(scene.name, "empty");
    assert!(scene.instances.is_empty());
    assert!(scene.geometries.is_empty());
    assert_eq!(scene.light, Light::default());
}

#[test]
fn scene_object_defaults_and_last_writer_wins() {
    let text = "object\nobject\nname: a\nname: b\nposition: 1 1 1\nposition: 2 2 2 ignored\nscale: 3 3\n";
    let d = Scene::load_from_arsc(text, "root", &number).unwrap();
    assert_eq!(d.objects.len(), 2);
    assert_eq!(d.objects[0].name, "");
    assert_eq!(d.objects[0].geometry_path, "root/");
    assert_eq!(v3(d.objects[0].transform.position), [0.0, 0.0, 0.0]);
    assert_eq!(v3(d.objects[0].transform.scale), [1.0, 1.0, 1.0]);
    assert_eq!(d.objects[1].name, "b");
    assert_eq!(v3(d.objects[1].transform.position), [2.0, 2.0, 2.0]);
    assert_eq!(v3(d.objects[1].transform.scale), [1.0, 1.0, 1.0]);
}

#[test]
fn scene_object_fields_before_any_object_say_nothing() {
    let text = "name: stray\nposition: not numbers here\nemissive: x\nscene_name A\n";
    let d = Scene::load_from_arsc(text, "root", &number).unwrap();
    assert_eq!(d.name, "A");
    assert_eq!(d.objects.len(), 0);
}

#[test]
fn scene_refuses_bad_numbers_with_their_line() {
    let cases = [
        ("light_direction: 1 2 x\n", 1),
        ("\nlight_color: a 2 3\n", 2),
        ("# c\n\nlight_intensity: bright\n", 3),
        ("ambient_strength: 0,1", 1),
        ("object\nposition: 1 2 3\nrotation: 1 2 3d\nscale: x y z", 3),
        ("object\nemissive: yes", 2),
        ("object\nscale: 1 2 3\nscale: 1 2 .\nemissive: x", 3),
    ];
    for (text, line) in cases {
        let r = Scene::load_from_arsc(text, "assets", &number);
        assert_eq!(r.err(), Some(ParseError::InvalidNumber { line }), "{text:?}");
    }
}

#[test]
fn scene_short_lines_and_unknown_keywords_are_skipped() {
    let text = "scene_name\nlight_direction: 1 2\nlight_intensity:\nobject\ngeometry:\nposition: 1 2\nemissive:\nwhatever 1 2 3\n#object\nlight\n";
    let d = Scene::load_from_arsc(text, "assets", &number).unwrap();
    assert_eq!(d.name, "Unnamed Scene");
    assert_eq!(d.light, Light::default());
    assert_eq!(d.objects.len(), 1);
    assert_eq!(d.objects[0].transform, Transform::new());
}

#[test]
fn scene_reads_special_numbers_and_windows_line_ends() {
    let text = "object\r\nposition: 1e2 -.5 +3.\r\nemissive: inf\r\n";
    let d = Scene::load_from_arsc(text, "assets", &number).unwrap();
    assert_eq!(v3(d.objects[0].transform.position), [100.0, -0.5, 3.0]);
    assert_eq!(f(d.objects[0].emissive), f32::INFINITY);
}

#[test]
fn scene_get_geometry_finds_by_name() {
    let mut scene = Scene::new("s".to_string());
    scene.place(declaration("a", "p"), geometry("Cube"));
    scene.place(declaration("b", "q"), geometry("Sphere"));
    assert_eq!(scene.get_geometry("Sphere").map(|g| g.name.as_str()), Some("Sphere"));
    assert_eq!(scene.get_geometry("Cube").map(|g| g.name.as_str()), Some("Cube"));
    assert!(scene.get_geometry("Cone").is_none());
    assert!(scene.get_geometry("cube").is_none());
    assert_eq!(scene.geometry_index(&"Sphere".to_string()), Some(1));
    assert_eq!(scene.geometry_index(&"Cone".to_string()), None);
}

#[test]
fn scene_add_instance_appends() {
    let mut scene = Scene::new("s".to_string());
    scene.add_instance(ObjectInstance {
        name: "loose".to_string(),
        geometry_name: "Nowhere".to_string(),
        transform: Transform::new(),
        material: Material::default(),
        emissive: s(0.0),
    });
    assert_eq!(scene.instances.len(), 1);
    assert_eq!(scene.instances[0].name, "loose");
    assert!(scene.geometries.is_empty());
    assert!(scene.get_geometry("Nowhere").is_none());
}

#[test]
fn scene_assembled_from_its_description() {
    let d = Scene::load_from_arsc(SAMPLE, "assets", &number).unwrap();
    let scene = Scene::assemble(d, vec![geometry("Cube"), geometry("Sphere")]);
    assert_eq!(scene.name, "Two Cubes");
    assert_eq!(f(scene.light.intensity), 2.5);
    assert_eq!(scene.instances.len(), 2);
    assert_eq!(scene.instances[0].name, "first");
    assert_eq!(scene.instances[0].geometry_name, "Cube");
    assert_eq!(v3(scene.instances[0].transform.scale), [2.0, 2.0, 2.0]);
    assert_eq!(scene.instances[1].name, "lamp");
    assert_eq!(scene.instances[1].geometry_name, "Sphere");
    assert_eq!(f(scene.instances[1].emissive), 0.75);
    let names: Vec<&str> = scene.geometries.iter().map(|g| g.name.as_str()).collect();
    assert_eq!(names, vec!["Cube", "Sphere"]);
}

#[test]
fn scene_assembled_keeps_the_first_of_equal_geometries() {
    let text = "object\nname: a\nobject\nname: b\nobject\nname: c\n";
    let d = Scene::load_from_arsc(text, "assets", &number).unwrap();
    let mut first = geometry("Cube");
    first.indices = vec![1];
    let mut second = geometry("Cube");
    second.indices = vec![2];
    let scene = Scene::assemble(d, vec![first, geometry("Other"), second]);
    assert_eq!(scene.geometries.len(), 2);
    assert_eq!(scene.geometries[0].name, "Cube");
    assert_eq!(scene.geometries[0].indices, vec![1]);
    assert_eq!(scene.geometries[1].name, "Other");
    let names: Vec<&str> = scene.instances.iter().map(|i| i.name.as_str()).collect();
    assert_eq!(names, vec!["a", "b", "c"]);
    let refs: Vec<&str> = scene.instances.iter().map(|i| i.geometry_name.as_str()).collect();
    assert_eq!(refs, vec!["Cube", "Other", "Cube"]);
}

#[test]
fn scene_without_objects_assembles_empty() {
    let d = Scene::load_from_arsc("scene_name Empty\n", "assets", &number).unwrap();
    let scene = Scene::assemble(d, Vec::new());
    assert_eq!(scene.name, "Empty");
    assert!(scene.instances.is_empty());
    assert!(scene.geometries.is_empty());
}
