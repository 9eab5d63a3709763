use grass_rendering::rendering::camera::{camera_turns, key_pressed, CameraKeys, PhysicalKey, YawPitch};
use grass_rendering::rendering::mesh;
use grass_rendering::rendering::vulkan;

fn bits3(v: [f32; 3]) -> [u32; 3] {
    [v[0].to_bits(), v[1].to_bits(), v[2].to_bits()]
}

#[test]
fn one_bits_is_one() {
    assert_eq!(f32::from_bits(mesh::ONE_BITS), 1.0);
}

#[test]
fn mesh_from_primitives_concatenates_vertices_and_keeps_last_indices() {
    let p1 = mesh::PrimitiveData {
        indices: Some(vec![0, 1, 2]),
        positions: vec![bits3([1.0, 2.0, 3.0]), bits3([4.0, 5.0, 6.0])],
        normals: vec![bits3([0.0, 1.0, 0.0]), bits3([0.0, 0.0, 1.0])],
        uvs: vec![[0.5f32.to_bits(), 0.25f32.to_bits()], [0, 0]],
    };
    let p2 = mesh::PrimitiveData {
        indices: Some(vec![9, 8]),
        positions: vec![bits3([7.0, 8.0, 9.0])],
        normals: vec![bits3([1.0, 0.0, 0.0])],
        uvs: vec![[0, 0]],
    };
    let mesh = mesh::Mesh::from_primitives(vec![p1, p2]);
    assert_eq!(mesh.indices, vec![9, 8]);
    assert_eq!(mesh.vertices.len(), 3);
    assert_eq!(mesh.vertices[0].pos, bits3([1.0, 2.0, 3.0]));
    assert_eq!(mesh.vertices[0].color, [mesh::ONE_BITS; 3]);
    assert_eq!(mesh.vertices[0].uv, [0.5f32.to_bits(), 0.25f32.to_bits()]);
    assert_eq!(mesh.vertices[1].normal, bits3([0.0, 0.0, 1.0]));
    assert_eq!(mesh.vertices[2].pos, bits3([7.0, 8.0, 9.0]));
}

#[test]
fn mesh_indices_empty_when_last_primitive_has_none() {
    let p1 = mesh::PrimitiveData { indices: Some(vec![1]), positions: vec![], normals: vec![], uvs: vec![] };
    let p2 = mesh::PrimitiveData { indices: None, positions: vec![], normals: vec![], uvs: vec![] };
    let mesh = mesh::Mesh::from_primitives(vec![p1, p2]);
    assert!(mesh.indices.is_empty());
    let empty = mesh::Mesh::from_primitives(vec![]);
    assert!(empty.indices.is_empty() && empty.vertices.is_empty());
}

#[test]
fn vertex_layout_descriptions() {
    let b = mesh::Vertex::get_binding_description();
    assert_eq!(b, mesh::VertexInputBinding { binding: 0, stride: 44, input_rate: vulkan::VERTEX_INPUT_RATE_VERTEX });
    assert_eq!(b.stride as usize, std::mem::size_of::<[f32; 11]>());
    assert_eq!(b.stride as usize, std::mem::size_of::<mesh::Vertex>());
    let a = mesh::Vertex::get_attribute_descriptions();
    assert_eq!(a[0], mesh::VertexInputAttribute { location: 0, binding: 0, format: vulkan::FORMAT_R32G32B32_SFLOAT, offset: 0 });
    assert_eq!(a[1].offset, 12);
    assert_eq!(a[2].offset, 24);
    assert_eq!(a[3], mesh::VertexInputAttribute { location: 3, binding: 0, format: vulkan::FORMAT_R32G32_SFLOAT, offset: 36 });
}

const KEYS: CameraKeys = CameraKeys { up: 22, down: 18, left: 0, right: 3 };

#[test]
fn key_pressed_matches_code() {
    assert!(key_pressed(PhysicalKey::Code(22), 22));
    assert!(!key_pressed(PhysicalKey::Code(21), 22));
    assert!(!key_pressed(PhysicalKey::Unidentified, 22));
}

#[test]
fn camera_turns_per_key() {
    assert_eq!(camera_turns(PhysicalKey::Code(22), KEYS), vec![YawPitch { yaw_degrees: 0, pitch_degrees: -30 }]);
    assert_eq!(camera_turns(PhysicalKey::Code(18), KEYS), vec![YawPitch { yaw_degrees: 0, pitch_degrees: 30 }]);
    assert_eq!(camera_turns(PhysicalKey::Code(0), KEYS), vec![YawPitch { yaw_degrees: -30, pitch_degrees: 0 }]);
    assert_eq!(camera_turns(PhysicalKey::Code(3), KEYS), vec![YawPitch { yaw_degrees: 30, pitch_degrees: 0 }]);
    assert!(camera_turns(PhysicalKey::Code(5), KEYS).is_empty());
    assert!(camera_turns(PhysicalKey::Unidentified, KEYS).is_empty());
}
