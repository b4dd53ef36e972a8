use asset_handles::mesh::narrow_indices;
use asset_handles::mesh::IndexFormat;
use asset_handles::mesh::Mesh;
use asset_handles::mesh::MeshToVertexBufferError;
use asset_handles::mesh::PrimitiveTopology;
use asset_handles::mesh::VertexAttribute;
use asset_handles::mesh::VertexAttributeDescriptor;
use asset_handles::mesh::VertexAttributeValues;
use asset_handles::mesh::VertexBufferDescriptor;
use asset_handles::mesh::VertexFormat;

fn float2(value: [f32; 2]) -> [u8; 8] {
    let mut bytes = [0u8; 8];
    for (i, component) in value.iter().enumerate() {
        bytes[4 * i..4 * i + 4].copy_from_slice(&component.to_ne_bytes());
    }
    bytes
}

fn float3(value: [f32; 3]) -> [u8; 12] {
    let mut bytes = [0u8; 12];
    for (i, component) in value.iter().enumerate() {
        bytes[4 * i..4 * i + 4].copy_from_slice(&component.to_ne_bytes());
    }
    bytes
}

fn attribute(name: &str, offset: u64, format: VertexFormat) -> VertexAttributeDescriptor {
    VertexAttributeDescriptor { name: name.to_string(), offset, format }
}

fn vertex_descriptor() -> VertexBufferDescriptor {
    VertexBufferDescriptor {
        name: "Vertex".to_string(),
        stride: 32,
        attributes: vec![
            attribute("Vertex_Position", 0, VertexFormat::Float3),
            attribute("Vertex_Normal", 12, VertexFormat::Float3),
            attribute("Vertex_Uv", 24, VertexFormat::Float2),
        ],
    }
}

#[test]
fn test_get_vertex_bytes() {
    let vertices: &[([f32; 3], [f32; 3], [f32; 2])] = &[
        ([0., 0., 0.], [1., 1., 1.], [2., 2.]),
        ([3., 3., 3.], [4., 4., 4.], [5., 5.]),
        ([6., 6., 6.], [7., 7., 7.], [8., 8.]),
    ];

    let mut positions = Vec::new();
    let mut normals = Vec::new();
    let mut uvs = Vec::new();
    for (position, normal, uv) in vertices.iter() {
        positions.push(float3(*position));
        normals.push(float3(*normal));
        uvs.push(float2(*uv));
    }

    let mesh = Mesh {
        primitive_topology: PrimitiveTopology::TriangleStrip,
        attributes: vec![
            VertexAttribute::position(positions),
            VertexAttribute::normal(normals),
            VertexAttribute::uv(uvs),
        ],
        indices: None,
    };

    let mut expected_vertices: Vec<u8> = Vec::new();
    for (position, normal, uv) in vertices.iter() {
        for component in position.iter().chain(normal.iter()).chain(uv.iter()) {
            expected_vertices.extend_from_slice(&component.to_ne_bytes());
        }
    }
    assert_eq!(expected_vertices.len(), 96);

    let descriptor = vertex_descriptor();
    assert!(mesh.can_pack(&descriptor));
    assert_eq!(
        mesh.get_vertex_buffer_bytes(&descriptor).unwrap(),
        expected_vertices,
        "buffer bytes are equal"
    );
}

#[test]
fn formats_and_sizes() {
    assert_eq!(VertexFormat::Float.get_size(), 4);
    assert_eq!(VertexFormat::Float2.get_size(), 8);
    assert_eq!(VertexFormat::Float3.get_size(), 12);
    assert_eq!(VertexFormat::Float4.get_size(), 16);
    let one = VertexAttributeValues::Float(vec![[1, 2, 3, 4], [5, 6, 7, 8]]);
    let two = VertexAttributeValues::Float2(vec![[9; 8]]);
    let three = VertexAttributeValues::Float3(vec![]);
    let four = VertexAttributeValues::Float4(vec![[7; 16], [8; 16], [9; 16]]);
    assert_eq!(VertexFormat::from(&one), VertexFormat::Float);
    assert_eq!(VertexFormat::from(&two), VertexFormat::Float2);
    assert_eq!(VertexFormat::from(&three), VertexFormat::Float3);
    assert_eq!(VertexFormat::from(&four), VertexFormat::Float4);
    assert_eq!(one.len(), 2);
    assert_eq!(two.len(), 1);
    assert_eq!(three.len(), 0);
    assert_eq!(four.len(), 3);
    assert_eq!(one.get_bytes(), vec![1, 2, 3, 4, 5, 6, 7, 8]);
    assert_eq!(two.get_bytes(), vec![9; 8]);
    assert_eq!(three.get_bytes(), Vec::<u8>::new());
    assert_eq!(four.get_bytes().len(), 48);
    assert_eq!(four.get_bytes()[16..32], [8u8; 16]);
}

#[test]
fn named_attributes() {
    assert_eq!(VertexAttribute::POSITION, "Vertex_Position");
    assert_eq!(VertexAttribute::NORMAL, "Vertex_Normal");
    assert_eq!(VertexAttribute::UV, "Vertex_Uv");
    assert_eq!(VertexAttribute::position(vec![]).name, "Vertex_Position");
    assert_eq!(VertexAttribute::normal(vec![]).name, "Vertex_Normal");
    let uv = VertexAttribute::uv(vec![[3; 8]]);
    assert_eq!(uv.name, "Vertex_Uv");
    assert_eq!(uv.values.get_bytes(), vec![3; 8]);
}

#[test]
fn new_mesh_is_empty() {
    let mesh = Mesh::new(PrimitiveTopology::TriangleList);
    assert_eq!(mesh.primitive_topology, PrimitiveTopology::TriangleList);
    assert!(mesh.attributes.is_empty());
    assert!(mesh.indices.is_none());
    assert_eq!(mesh.get_index_buffer_bytes(IndexFormat::Uint16), None);
    assert_eq!(mesh.get_index_buffer_bytes(IndexFormat::Uint32), None);
    let descriptor = vertex_descriptor();
    assert!(mesh.can_pack(&descriptor));
    let made = mesh.get_vertex_buffer_bytes(&descriptor);
    assert!(matches!(
        made,
        Err(MeshToVertexBufferError::MissingVertexAttribute { attribute_name })
            if attribute_name == "Vertex_Position"
    ));
}

#[test]
fn first_missing_attribute_is_named() {
    let mut mesh = Mesh::new(PrimitiveTopology::TriangleStrip);
    mesh.attributes.push(VertexAttribute::position(vec![[1; 12], [2; 12]]));
    mesh.attributes.push(VertexAttribute::uv(vec![[3; 8], [4; 8]]));
    let descriptor = vertex_descriptor();
    assert!(mesh.can_pack(&descriptor));
    let made = mesh.get_vertex_buffer_bytes(&descriptor);
    assert!(matches!(
        made,
        Err(MeshToVertexBufferError::MissingVertexAttribute { attribute_name })
            if attribute_name == "Vertex_Normal"
    ));
}

#[test]
fn unwritten_bytes_are_zero_and_later_attributes_overwrite() {
    let mut mesh = Mesh::new(PrimitiveTopology::PointList);
    mesh.attributes.push(VertexAttribute {
        name: "a".to_string(),
        values: VertexAttributeValues::Float(vec![[1, 2, 3, 4], [5, 6, 7, 8]]),
    });
    mesh.attributes.push(VertexAttribute {
        name: "b".to_string(),
        values: VertexAttributeValues::Float(vec![[9, 9, 9, 9], [8, 8, 8, 8]]),
    });
    mesh.attributes.push(VertexAttribute {
        name: "a".to_string(),
        values: VertexAttributeValues::Float(vec![[0; 4], [0; 4]]),
    });
    let descriptor = VertexBufferDescriptor {
        name: "Overlap".to_string(),
        stride: 10,
        attributes: vec![
            attribute("a", 1, VertexFormat::Float),
            attribute("b", 3, VertexFormat::Float),
        ],
    };
    assert!(mesh.can_pack(&descriptor));
    assert_eq!(
        mesh.get_vertex_buffer_bytes(&descriptor).unwrap(),
        vec![0, 1, 2, 9, 9, 9, 9, 0, 0, 0, 0, 5, 6, 8, 8, 8, 8, 0, 0, 0]
    );
}

#[test]
fn descriptor_format_decides_the_chunks() {
    let mut mesh = Mesh::new(PrimitiveTopology::PointList);
    mesh.attributes.push(VertexAttribute {
        name: "a".to_string(),
        values: VertexAttributeValues::Float(vec![[1; 4], [2; 4], [3; 4], [4; 4]]),
    });
    let descriptor = VertexBufferDescriptor {
        name: "Pairs".to_string(),
        stride: 8,
        attributes: vec![attribute("a", 0, VertexFormat::Float2)],
    };
    assert!(mesh.can_pack(&descriptor));
    let bytes = mesh.get_vertex_buffer_bytes(&descriptor).unwrap();
    assert_eq!(bytes.len(), 32);
    assert_eq!(bytes[..16], [1, 1, 1, 1, 2, 2, 2, 2, 3, 3, 3, 3, 4, 4, 4, 4]);
    assert_eq!(bytes[16..], [0u8; 16]);
}

#[test]
fn what_does_not_fit_cannot_be_packed() {
    let mut mesh = Mesh::new(PrimitiveTopology::PointList);
    mesh.attributes.push(VertexAttribute::position(vec![[1; 12], [2; 12]]));
    mesh.attributes.push(VertexAttribute::uv(vec![[3; 8], [4; 8], [5; 8]]));
    let fits = VertexBufferDescriptor {
        name: "Fits".to_string(),
        stride: 12,
        attributes: vec![attribute("Vertex_Position", 0, VertexFormat::Float3)],
    };
    assert!(mesh.can_pack(&fits));
    let past_the_end = VertexBufferDescriptor {
        name: "PastTheEnd".to_string(),
        stride: 12,
        attributes: vec![attribute("Vertex_Position", 1, VertexFormat::Float3)],
    };
    assert!(!mesh.can_pack(&past_the_end));
    let too_many_values = VertexBufferDescriptor {
        name: "TooMany".to_string(),
        stride: 12,
        attributes: vec![attribute("Vertex_Uv", 0, VertexFormat::Float2)],
    };
    assert!(!mesh.can_pack(&too_many_values));
    let ragged = VertexBufferDescriptor {
        name: "Ragged".to_string(),
        stride: 64,
        attributes: vec![attribute("Vertex_Position", 0, VertexFormat::Float4)],
    };
    assert!(!mesh.can_pack(&ragged));
    let after_missing = VertexBufferDescriptor {
        name: "AfterMissing".to_string(),
        stride: 12,
        attributes: vec![
            attribute("Vertex_Normal", 0, VertexFormat::Float3),
            attribute("Vertex_Position", 1, VertexFormat::Float3),
        ],
    };
    assert!(mesh.can_pack(&after_missing));
    let too_long = VertexBufferDescriptor {
        name: "TooLong".to_string(),
        stride: u64::MAX,
        attributes: vec![],
    };
    assert!(!mesh.can_pack(&too_long));
    let no_room = VertexBufferDescriptor {
        name: "NoRoom".to_string(),
        stride: 0,
        attributes: vec![attribute("Vertex_Position", 0, VertexFormat::Float3)],
    };
    assert!(!mesh.can_pack(&no_room));
}

#[test]
fn index_bytes_in_both_formats() {
    let mut mesh = Mesh::new(PrimitiveTopology::TriangleList);
    mesh.indices = Some(vec![0, 2, 1, 0x0001_0005, 0x1234_abcd]);
    let mut wide: Vec<u8> = Vec::new();
    for index in [0u32, 2, 1, 0x0001_0005, 0x1234_abcd] {
        wide.extend_from_slice(&index.to_ne_bytes());
    }
    let mut narrow: Vec<u8> = Vec::new();
    for index in [0u16, 2, 1, 5, 0xabcd] {
        narrow.extend_from_slice(&index.to_ne_bytes());
    }
    assert_eq!(mesh.get_index_buffer_bytes(IndexFormat::Uint32), Some(wide));
    assert_eq!(mesh.get_index_buffer_bytes(IndexFormat::Uint16), Some(narrow));
    assert_eq!(narrow_indices(&vec![0x0001_0005, 7, 0xffff_ffff]), vec![5, 7, 0xffff]);
    mesh.indices = Some(vec![]);
    assert_eq!(mesh.get_index_buffer_bytes(IndexFormat::Uint16), Some(vec![]));
}
