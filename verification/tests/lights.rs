use arbitra::lights::Emission;
use arbitra::lights::PointLight;
use arbitra::lights::PointLightsUniform;
use arbitra::lights::MAX_POINT_LIGHTS;
use arbitra::material::Material;
use arbitra::scalar::Scalar;
use arbitra::scene::ObjectInstance;
use arbitra::transform::Transform;

fn s(v: f32) -> Scalar {
    Scalar::from_bits(v.to_bits())
}

fn f(v: Scalar) -> f32 {
    f32::from_bits(v.to_bits())
}

fn instance(k: usize, emissive: f32) -> ObjectInstance {
    ObjectInstance {
        name: format!("i{k}"),
        geometry_name: "Cube".to_string(),
        transform: Transform::new().with_position(s(k as f32), s(0.0), s(-(k as f32))),
        material: Material::default(),
        emissive: s(emissive),
    }
}

fn emissions(instances: &Vec<ObjectInstance>) -> Vec<Emission> {
    instances
        .iter()
        .map(|i| Emission { intensity: s(f(i.emissive) * 5.0), color: [s(1.0), s(0.5), s(0.25)] })
        .collect()
}

fn dark() -> PointLight {
    PointLight { position: [s(0.0); 3], intensity: s(0.0), color: [s(0.0); 3] }
}

#[test]
fn nine_emissive_instances_give_eight_point_lights() {
    let instances: Vec<ObjectInstance> = (0..9).map(|k| instance(k, 0.1 * (k + 1) as f32)).collect();
    let lights = PointLightsUniform::collect(&instances, &emissions(&instances));
    assert_eq!(lights.count, 8);
    assert_eq!(lights.lights.len(), MAX_POINT_LIGHTS);
    for k in 0..8 {
        assert_eq!(f(lights.lights[k].position[0]), k as f32);
        assert_eq!(f(lights.lights[k].intensity), 0.1 * (k + 1) as f32 * 5.0);
    }
    assert!(lights.lights.iter().all(|l| f(l.position[0]) != 8.0));
}

#[test]
fn point_lights_are_the_emissive_instances_in_order() {
    let instances = vec![
        instance(0, 0.0),
        instance(1, 2.0),
        instance(2, -1.0),
        instance(3, f32::NAN),
        instance(4, 0.5),
        instance(5, -0.0),
        instance(6, 1e-45),
    ];
    let lights = PointLightsUniform::collect(&instances, &emissions(&instances));
    assert_eq!(lights.count, 3);
    assert_eq!(
        lights.lights[0],
        PointLight { position: [s(1.0), s(0.0), s(-1.0)], intensity: s(10.0), color: [s(1.0), s(0.5), s(0.25)] }
    );
    assert_eq!(f(lights.lights[1].position[0]), 4.0);
    assert_eq!(f(lights.lights[1].intensity), 2.5);
    assert_eq!(f(lights.lights[2].position[0]), 6.0);
    for k in 3..8 {
        assert_eq!(lights.lights[k], dark());
    }
}

#[test]
fn scene_without_emissive_instances_has_no_point_lights() {
    let instances = vec![instance(0, 0.0), instance(1, 0.0)];
    let lights = PointLightsUniform::collect(&instances, &emissions(&instances));
    assert_eq!(lights.count, 0);
    assert!(lights.lights.iter().all(|l| *l == dark()));
    let none: Vec<ObjectInstance> = Vec::new();
    let lights = PointLightsUniform::collect(&none, &Vec::new());
    assert_eq!(lights.count, 0);
}

#[test]
fn exactly_eight_emissive_instances_fill_every_slot() {
    let mut instances: Vec<ObjectInstance> = Vec::new();
    for k in 0..12 {
        instances.push(instance(k, if k % 3 == 0 { 0.0 } else { 1.0 }));
    }
    let lights = PointLightsUniform::collect(&instances, &emissions(&instances));
    assert_eq!(lights.count, 8);
    let places: Vec<f32> = lights.lights.iter().map(|l| f(l.position[0])).collect();
    assert_eq!(places, vec![1.0, 2.0, 4.0, 5.0, 7.0, 8.0, 10.0, 11.0]);
}
