use arbitra::error::ParseError;
use arbitra::mesh::Mesh;
use arbitra::object::GeometrySource;
use arbitra::object::ObjectGeometry;
use arbitra::scalar::Scalar;
use arbitra::vertex::Vertex;

fn number(word: &str) -> Option<Scalar> {
    word.parse::<f32>().ok().map(|v| Scalar::from_bits(v.to_bits()))
}

fn s(v: f32) -> Scalar {
    Scalar::from_bits(v.to_bits())
}

fn ss(v: &[f32]) -> Vec<Scalar> {
    v.iter().map(|x| s(*x)).collect()
}

fn v3(a: [Scalar; 3]) -> [f32; 3] {
    [f32::from_bits(a[0].bits), f32::from_bits(a[1].bits), f32::from_bits(a[2].bits)]
}

fn v2(a: [Scalar; 2]) -> [f32; 2] {
    [f32::from_bits(a[0].bits), f32::from_bits(a[1].bits)]
}

fn inline(text: &str) -> ObjectGeometry {
    match ObjectGeometry::load_from_arobj(text, &number).unwrap() {
        GeometrySource::Inline(g) => g,
        GeometrySource::Mesh { .. } => panic!("a mesh reference"),
    }
}

#[test]
fn geometry_keeps_only_the_declared_number_of_vertices() {
    let text = "\
name Triangle
vertices 3
position: 0 0 0 color: 1 0 0
position: 1 0 0 color: 0 1 0
position: 0 1 0 color: 0 0 1
position: 9 9 9 color: 1 1 1
position: 8 8 8 color: 1 1 1
indices 3
0 1 2
";
    let g = inline(text);
    assert_eq!(g.name, "Triangle");
    assert_eq!(g.vertices.len(), 3);
    assert_eq!(v3(g.vertices[0].position), [0.0, 0.0, 0.0]);
    assert_eq!(v3(g.vertices[1].position), [1.0, 0.0, 0.0]);
    assert_eq!(v3(g.vertices[2].position), [0.0, 1.0, 0.0]);
    assert_eq!(v3(g.vertices[2].color), [0.0, 0.0, 1.0]);
    assert_eq!(g.indices, vec![0, 1, 2]);
}

#[test]
fn geometry_skips_surplus_vertices_unread() {
    let g = inline("vertices 1\nposition: 1 2 3\nposition: not a vertex at all\n");
    assert_eq!(g.vertices.len(), 1);
}

#[test]
fn geometry_vertex_groups_and_defaults() {
    let text = "\
vertices 5
position: 1 2 3 color: 0.1 0.2 0.3 normal: 0 0 1 uv: 0.25 0.75
position: 1 2 3 color: 0.1 0.2 0.3 normal: 0 0 1
position: 1 2 3 color: 0.1 0.2 0.3
position: 1 2 3
position:
";
    let g = inline(text);
    assert_eq!(g.vertices.len(), 5);
    let full = g.vertices[0];
    assert_eq!(v3(full.position), [1.0, 2.0, 3.0]);
    assert_eq!(v3(full.color), [0.1, 0.2, 0.3]);
    assert_eq!(v3(full.normal), [0.0, 0.0, 1.0]);
    assert_eq!(v2(full.uv), [0.25, 0.75]);
    assert_eq!(v2(g.vertices[1].uv), [0.0, 0.0]);
    assert_eq!(v3(g.vertices[1].normal), [0.0, 0.0, 1.0]);
    assert_eq!(v3(g.vertices[2].normal), [0.0, 1.0, 0.0]);
    assert_eq!(v3(g.vertices[2].color), [0.1, 0.2, 0.3]);
    assert_eq!(v3(g.vertices[3].color), [1.0, 1.0, 1.0]);
    assert_eq!(v3(g.vertices[4].position), [0.0, 0.0, 0.0]);
    assert_eq!(
        g.vertices[4],
        Vertex {
            position: [s(0.0), s(0.0), s(0.0)],
            color: [s(1.0), s(1.0), s(1.0)],
            normal: [s(0.0), s(1.0), s(0.0)],
            uv: [s(0.0), s(0.0)],
        }
    );
}

#[test]
fn geometry_group_under_another_label_takes_its_default() {
    let g = inline("vertices 1\nposition: 1 2 3 normal: 0 0 1 uv: 1 1\n");
    assert_eq!(v3(g.vertices[0].color), [1.0, 1.0, 1.0]);
    assert_eq!(v3(g.vertices[0].normal), [0.0, 1.0, 0.0]);
    assert_eq!(v2(g.vertices[0].uv), [0.0, 0.0]);
}

#[test]
fn geometry_indices_stop_at_their_limit() {
    let g = inline("vertices 0\nindices 4\n0 1 2\n2 3 0\n4 5 junk\n");
    assert_eq!(g.indices, vec![0, 1, 2, 2]);
    let g = inline("vertices 0\n0 1 2\nindices 2\n7 8 nine\n");
    assert_eq!(g.indices, vec![7, 8]);
    let g = inline("vertices 0\nindices 2\n7\nindices 3\n8 9 10\n");
    assert_eq!(g.indices, vec![7, 8, 9]);
    let g = inline("vertices 0\nindices 3\n65535 0\n");
    assert_eq!(g.indices, vec![65535, 0]);
}

#[test]
fn geometry_refuses_bad_counts_indices_and_values() {
    let cases = [
        ("vertices x\n", ParseError::InvalidCount { line: 1 }),
        ("\nvertices -3\n", ParseError::InvalidCount { line: 2 }),
        ("vertices 1\nindices 1.5\n", ParseError::InvalidCount { line: 2 }),
        ("vertices 1\nindices 3\n0 65536 1\n", ParseError::InvalidCount { line: 3 }),
        ("vertices 1\nindices 3\n0 1x 2\n", ParseError::InvalidCount { line: 3 }),
        ("vertices 1\nindices 3\n0 -1 2\n", ParseError::InvalidCount { line: 3 }),
        ("vertices 2\nposition: 1 2 3\nposition: 1 2 z\n", ParseError::InvalidNumber { line: 3 }),
        ("vertices 1\nposition: 1 2 3 color: 1 1 white\n", ParseError::InvalidNumber { line: 2 }),
        ("vertices 1\nposition: 1 2 3 color: 1 1 1 normal: 0 up 0\n", ParseError::InvalidNumber { line: 2 }),
        ("vertices 1\nposition: 1 2 3 color: 1 1 1 normal: 0 1 0 uv: 0 ?\n", ParseError::InvalidNumber { line: 2 }),
        ("name only a name\n", ParseError::MissingGeometry),
        ("", ParseError::MissingGeometry),
        ("indices 3\n0 1 2\n", ParseError::MissingGeometry),
    ];
    for (text, error) in cases {
        let r = ObjectGeometry::load_from_arobj(text, &number);
        assert_eq!(r.err(), Some(error), "{text:?}");
    }
}

#[test]
fn geometry_unknown_lines_and_comments_are_skipped() {
    let text = "# header\n\nvertices\nvertices 2\ntexture: foo.png\n  # position: 9 9 9\nposition: 1 1 1\nindices\n";
    let g = inline(text);
    assert_eq!(g.name, "Unnamed");
    assert_eq!(g.vertices.len(), 1);
    assert!(g.indices.is_empty());
}

#[test]
fn geometry_mesh_reference() {
    let text = "# a cube from a mesh file\nname  Big   Cube\nobj_file: models/cube.obj extra\n";
    match ObjectGeometry::load_from_arobj(text, &number).unwrap() {
        GeometrySource::Mesh { name, obj_file } => {
            assert_eq!(name, "Big Cube");
            assert_eq!(obj_file, "models/cube.obj");
        }
        GeometrySource::Inline(_) => panic!("an inline geometry"),
    }
}

#[test]
fn geometry_mesh_reference_ignores_the_listing() {
    let text = "obj_file: a.obj\nvertices many\nobj_file: b.obj\nobj_file:\nposition: x y z\n";
    match ObjectGeometry::load_from_arobj(text, &number).unwrap() {
        GeometrySource::Mesh { name, obj_file } => {
            assert_eq!(name, "Unnamed");
            assert_eq!(obj_file, "b.obj");
        }
        GeometrySource::Inline(_) => panic!("an inline geometry"),
    }
}

#[test]
fn mesh_without_normals_and_texcoords_takes_defaults() {
    let mesh = Mesh {
        positions: ss(&[0.0, 0.0, 0.0, 1.0, 0.0, 0.0, 0.0, 1.0, 0.0, 5.0]),
        normals: Vec::new(),
        texcoords: Vec::new(),
        indices: vec![0, 1, 2],
    };
    let g = ObjectGeometry::from_mesh("Tri".to_string(), &mesh);
    assert_eq!(g.name, "Tri");
    assert_eq!(g.vertices.len(), 3);
    for v in &g.vertices {
        assert_eq!(v3(v.color), [1.0, 1.0, 1.0]);
        assert_eq!(v3(v.normal), [0.0, 1.0, 0.0]);
        assert_eq!(v2(v.uv), [0.0, 0.0]);
    }
    assert_eq!(v3(g.vertices[1].position), [1.0, 0.0, 0.0]);
    assert_eq!(v3(g.vertices[2].position), [0.0, 1.0, 0.0]);
    assert_eq!(g.indices, vec![0, 1, 2]);
}

#[test]
fn mesh_with_normals_and_texcoords() {
    let mesh = Mesh {
        positions: ss(&[0.0, 0.0, 0.0, 1.0, 0.0, 0.0]),
        normals: ss(&[0.0, 0.0, 1.0, 1.0, 0.0, 0.0]),
        texcoords: ss(&[0.1, 0.2, 0.3, 0.4]),
        indices: vec![1, 0, 1],
    };
    let g = ObjectGeometry::from_mesh("m".to_string(), &mesh);
    assert_eq!(v3(g.vertices[0].normal), [0.0, 0.0, 1.0]);
    assert_eq!(v3(g.vertices[1].normal), [1.0, 0.0, 0.0]);
    assert_eq!(v2(g.vertices[0].uv), [0.1, 0.2]);
    assert_eq!(v2(g.vertices[1].uv), [0.3, 0.4]);
    assert_eq!(g.indices, vec![1, 0, 1]);
}

#[test]
fn mesh_indices_keep_their_low_sixteen_bits() {
    let mesh = Mesh {
        positions: Vec::new(),
        normals: Vec::new(),
        texcoords: Vec::new(),
        indices: vec![0, 65535, 65536, 65537, 0xffff_ffff, 0x0001_2345],
    };
    let g = ObjectGeometry::from_mesh("m".to_string(), &mesh);
    assert_eq!(g.indices, vec![0, 65535, 0, 1, 65535, 0x2345]);
    for (narrow, wide) in g.indices.iter().zip(mesh.indices.iter()) {
        assert_eq!(*narrow, *wide as u16);
    }
}

#[test]
fn mesh_file_without_models_is_refused() {
    let r = ObjectGeometry::from_models("m".to_string(), &Vec::new());
    assert_eq!(r.err(), Some(ParseError::NoModels));
}

#[test]
fn mesh_file_gives_its_first_model() {
    let first = Mesh { positions: ss(&[1.0, 2.0, 3.0]), normals: Vec::new(), texcoords: Vec::new(), indices: vec![0] };
    let second = Mesh { positions: Vec::new(), normals: Vec::new(), texcoords: Vec::new(), indices: vec![7] };
    let g = ObjectGeometry::from_models("m".to_string(), &vec![first, second]).unwrap();
    assert_eq!(g.vertices.len(), 1);
    assert_eq!(v3(g.vertices[0].position), [1.0, 2.0, 3.0]);
    assert_eq!(g.indices, vec![0]);
}

#[test]
fn mesh_is_complete_when_every_corner_has_what_the_mesh_has() {
    let mesh = |p: usize, n: usize, t: usize| Mesh {
        positions: vec![s(0.0); p],
        normals: vec![s(0.0); n],
        texcoords: vec![s(0.0); t],
        indices: Vec::new(),
    };
    assert!(mesh(0, 0, 0).is_complete());
    assert!(mesh(9, 0, 0).is_complete());
    assert!(mesh(9, 9, 6).is_complete());
    assert!(mesh(10, 9, 6).is_complete());
    assert!(mesh(9, 12, 8).is_complete());
    assert!(mesh(2, 1, 1).is_complete());
    assert!(!mesh(9, 8, 6).is_complete());
    assert!(!mesh(9, 9, 5).is_complete());
    assert!(!mesh(9, 6, 0).is_complete());
    assert!(!mesh(3, 0, 1).is_complete());
}
