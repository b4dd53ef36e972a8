//! Meshes and their packing into vertex and index buffers.
//!
//! A vertex value is held as the bytes it occupies in memory, so packing is
//! a matter of placing bytes: value `i` of an attribute goes to
//! `stride * i + offset` of the buffer.
use vstd::bytes::spec_u16_to_le_bytes;
use vstd::bytes::spec_u32_to_le_bytes;
use vstd::prelude::*;
use vstd::std_specs::convert::FromSpecImpl;

verus! {

pub const VERTEX_BUFFER_ASSET_INDEX: usize = 0;

pub const INDEX_BUFFER_ASSET_INDEX: usize = 1;

/// How the vertices of a mesh form primitives.
#[derive(Debug, Clone, Copy, PartialEq, Eq, Hash, Structural)]
pub enum PrimitiveTopology {
    PointList,
    LineList,
    LineStrip,
    TriangleList,
    TriangleStrip,
}

/// The width of one index in an index buffer.
#[derive(Debug, Clone, Copy, PartialEq, Eq, Hash, Structural)]
pub enum IndexFormat {
    Uint16,
    Uint32,
}

/// The layout of one vertex value: one to four 32-bit floats.
#[derive(Debug, Clone, Copy, PartialEq, Eq, Hash, Structural)]
pub enum VertexFormat {
    Float,
    Float2,
    Float3,
    Float4,
}

impl VertexFormat {
    /// The number of bytes one value takes.
    pub open spec fn spec_get_size(&self) -> u64 {
        match *self {
            VertexFormat::Float => 4,
            VertexFormat::Float2 => 8,
            VertexFormat::Float3 => 12,
            VertexFormat::Float4 => 16,
        }
    }

    /// The number of bytes one value takes.
    #[verifier::when_used_as_spec(spec_get_size)]
    pub fn get_size(&self) -> (size: u64)
        ensures
            size == self.spec_get_size(),
    {
        match *self {
            VertexFormat::Float => 4,
            VertexFormat::Float2 => 4 * 2,
            VertexFormat::Float3 => 4 * 3,
            VertexFormat::Float4 => 4 * 4,
        }
    }
}

/// The values of one attribute, one entry for each vertex. An entry is the
/// bytes of its floats as they lie in memory.
#[derive(Clone, Debug)]
pub enum VertexAttributeValues {
    Float(Vec<[u8; 4]>),
    Float2(Vec<[u8; 8]>),
    Float3(Vec<[u8; 12]>),
    Float4(Vec<[u8; 16]>),
}

/// The entries one after another.
pub open spec fn concat<const N: usize>(values: Seq<[u8; N]>) -> Seq<u8>
    decreases values.len(),
{
    if values.len() == 0 {
        Seq::empty()
    } else {
        concat(values.drop_last()) + values.last()@
    }
}

/// The bytes of `values.len()` entries of `N` bytes each are `N` times as
/// many.
pub proof fn lemma_concat_len<const N: usize>(values: Seq<[u8; N]>)
    ensures
        concat(values).len() == N * values.len(),
    decreases values.len(),
{
    if values.len() > 0 {
        lemma_concat_len(values.drop_last());
        assert(N * values.len() == N * (values.len() - 1) + N) by (nonlinear_arith);
    }
}

fn concat_bytes<const N: usize>(values: &Vec<[u8; N]>) -> (bytes: Vec<u8>)
    ensures
        bytes@ == concat(values@),
{
    let mut bytes: Vec<u8> = Vec::new();
    let mut i: usize = 0;
    while i < values.len()
        invariant
            i <= values.len(),
            bytes@ == concat(values@.take(i as int)),
        decreases values.len() - i,
    {
        let mut j: usize = 0;
        while j < N
            invariant
                j <= N,
                i < values.len(),
                bytes@ == concat(values@.take(i as int)) + values@[i as int]@.take(j as int),
            decreases N - j,
        {
            let entry = &values[i];
            bytes.push(entry[j]);
            assert(values@[i as int]@.take(j as int + 1) =~= values@[i as int]@.take(j as int).push(
                values@[i as int]@[j as int],
            ));
            j = j + 1;
        }
        proof {
            assert(values@.take(i as int + 1).drop_last() =~= values@.take(i as int));
            assert(values@[i as int]@.take(N as int) =~= values@[i as int]@);
        }
        i = i + 1;
    }
    proof {
        assert(values@.take(values.len() as int) =~= values@);
    }
    bytes
}

impl VertexAttributeValues {
    /// The number of vertices the attribute has a value for.
    pub open spec fn spec_len(&self) -> nat {
        match *self {
            VertexAttributeValues::Float(values) => values@.len(),
            VertexAttributeValues::Float2(values) => values@.len(),
            VertexAttributeValues::Float3(values) => values@.len(),
            VertexAttributeValues::Float4(values) => values@.len(),
        }
    }

    /// The layout of the values.
    pub open spec fn format(&self) -> VertexFormat {
        match *self {
            VertexAttributeValues::Float(_) => VertexFormat::Float,
            VertexAttributeValues::Float2(_) => VertexFormat::Float2,
            VertexAttributeValues::Float3(_) => VertexFormat::Float3,
            VertexAttributeValues::Float4(_) => VertexFormat::Float4,
        }
    }

    /// The bytes of all values, in the order of the vertices.
    pub open spec fn spec_get_bytes(&self) -> Seq<u8> {
        match *self {
            VertexAttributeValues::Float(values) => concat(values@),
            VertexAttributeValues::Float2(values) => concat(values@),
            VertexAttributeValues::Float3(values) => concat(values@),
            VertexAttributeValues::Float4(values) => concat(values@),
        }
    }

    /// The values take as many bytes as their layout says.
    pub proof fn lemma_bytes_len(&self)
        ensures
            self.spec_get_bytes().len() == self.format().get_size() * self.spec_len(),
    {
        match *self {
            VertexAttributeValues::Float(values) => lemma_concat_len(values@),
            VertexAttributeValues::Float2(values) => lemma_concat_len(values@),
            VertexAttributeValues::Float3(values) => lemma_concat_len(values@),
            VertexAttributeValues::Float4(values) => lemma_concat_len(values@),
        }
    }

    /// The number of vertices the attribute has a value for.
    pub fn len(&self) -> (n: usize)
        ensures
            n == self.spec_len(),
    {
        match self {
            VertexAttributeValues::Float(values) => values.len(),
            VertexAttributeValues::Float2(values) => values.len(),
            VertexAttributeValues::Float3(values) => values.len(),
            VertexAttributeValues::Float4(values) => values.len(),
        }
    }

    /// The bytes of all values, in the order of the vertices.
    pub fn get_bytes(&self) -> (bytes: Vec<u8>)
        ensures
            bytes@ == self.spec_get_bytes(),
            bytes@.len() == self.format().get_size() * self.spec_len(),
    {
        match self {
            VertexAttributeValues::Float(values) => {
                proof {
                    lemma_concat_len(values@);
                }
                concat_bytes(values)
            },
            VertexAttributeValues::Float2(values) => {
                proof {
                    lemma_concat_len(values@);
                }
                concat_bytes(values)
            },
            VertexAttributeValues::Float3(values) => {
                proof {
                    lemma_concat_len(values@);
                }
                concat_bytes(values)
            },
            VertexAttributeValues::Float4(values) => {
                proof {
                    lemma_concat_len(values@);
                }
                concat_bytes(values)
            },
        }
    }
}

impl<'a> From<&'a VertexAttributeValues> for VertexFormat {
    /// The layout of the values.
    fn from(values: &'a VertexAttributeValues) -> (format: Self)
        ensures
            format == values.format(),
    {
        match values {
            VertexAttributeValues::Float(_) => VertexFormat::Float,
            VertexAttributeValues::Float2(_) => VertexFormat::Float2,
            VertexAttributeValues::Float3(_) => VertexFormat::Float3,
            VertexAttributeValues::Float4(_) => VertexFormat::Float4,
        }
    }
}

impl<'a> FromSpecImpl<&'a VertexAttributeValues> for VertexFormat {
    open spec fn obeys_from_spec() -> bool {
        true
    }

    open spec fn from_spec(values: &'a VertexAttributeValues) -> Self {
        values.format()
    }
}

/// One named attribute of a mesh.
#[derive(Debug)]
pub struct VertexAttribute {
    pub name: String,
    pub values: VertexAttributeValues,
}

impl VertexAttribute {
    pub const POSITION: &'static str = "Vertex_Position";

    pub const NORMAL: &'static str = "Vertex_Normal";

    pub const UV: &'static str = "Vertex_Uv";

    /// The attribute of the vertex positions.
    pub fn position(positions: Vec<[u8; 12]>) -> (attribute: Self)
        ensures
            attribute.name@ == Self::POSITION@,
            attribute.values == VertexAttributeValues::Float3(positions),
    {
        VertexAttribute {
            name: Self::POSITION.to_owned(),
            values: VertexAttributeValues::Float3(positions),
        }
    }

    /// The attribute of the vertex normals.
    pub fn normal(normals: Vec<[u8; 12]>) -> (attribute: Self)
        ensures
            attribute.name@ == Self::NORMAL@,
            attribute.values == VertexAttributeValues::Float3(normals),
    {
        VertexAttribute {
            name: Self::NORMAL.to_owned(),
            values: VertexAttributeValues::Float3(normals),
        }
    }

    /// The attribute of the texture coordinates.
    pub fn uv(uvs: Vec<[u8; 8]>) -> (attribute: Self)
        ensures
            attribute.name@ == Self::UV@,
            attribute.values == VertexAttributeValues::Float2(uvs),
    {
        VertexAttribute { name: Self::UV.to_owned(), values: VertexAttributeValues::Float2(uvs) }
    }
}

/// Where the values of one attribute lie within each vertex of a buffer.
#[derive(Debug, Clone)]
pub struct VertexAttributeDescriptor {
    pub name: String,
    pub offset: u64,
    pub format: VertexFormat,
}

/// The layout of a vertex buffer: `stride` bytes for each vertex.
#[derive(Debug, Clone)]
pub struct VertexBufferDescriptor {
    pub name: String,
    pub stride: u64,
    pub attributes: Vec<VertexAttributeDescriptor>,
}

#[derive(Debug)]
pub enum MeshToVertexBufferError {
    /// The descriptor asks for an attribute that the mesh does not have.
    MissingVertexAttribute { attribute_name: String },
    /// The mesh holds the attribute in another format than the descriptor.
    IncompatibleVertexAttributeFormat {
        attribute_name: String,
        descriptor_format: VertexFormat,
        mesh_format: VertexFormat,
    },
}

#[derive(Debug)]
pub struct Mesh {
    pub primitive_topology: PrimitiveTopology,
    pub attributes: Vec<VertexAttribute>,
    pub indices: Option<Vec<u32>>,
}

/// The index of the first attribute at or after `from` that has the name.
pub open spec fn first_named(attributes: Seq<VertexAttribute>, name: Seq<char>, from: int) -> Option<
    int,
>
    decreases attributes.len() - from,
{
    if from < 0 || from >= attributes.len() {
        None
    } else if attributes[from].name@ == name {
        Some(from)
    } else {
        first_named(attributes, name, from + 1)
    }
}

/// The buffer with `chunk` written over the bytes from `at` on.
pub open spec fn write_at(bytes: Seq<u8>, at: int, chunk: Seq<u8>) -> Seq<u8> {
    Seq::new(
        bytes.len(),
        |j: int|
            if at <= j < at + chunk.len() {
                chunk[j - at]
            } else {
                bytes[j]
            },
    )
}

/// The buffer after the first `count` values of an attribute are written:
/// value `i` is the bytes `size * i .. size * (i + 1)` of `data` and goes to
/// `stride * i + offset`. A later value overwrites an earlier one.
pub open spec fn write_values(
    bytes: Seq<u8>,
    stride: int,
    offset: int,
    size: int,
    data: Seq<u8>,
    count: nat,
) -> Seq<u8>
    decreases count,
{
    if count == 0 {
        bytes
    } else {
        write_at(
            write_values(bytes, stride, offset, size, data, (count - 1) as nat),
            stride * (count - 1) + offset,
            data.subrange(size * (count - 1), size * count),
        )
    }
}

/// Whether `data` is a whole number of values of `size` bytes and every one
/// of them has its place inside a buffer of `total` bytes.
pub open spec fn fits(total: int, stride: int, offset: int, size: int, data: Seq<u8>) -> bool {
    &&& data.len() % (size as nat) == 0
    &&& data.len() == 0 || stride * (data.len() / (size as nat) - 1) + offset + size <= total
}

/// Writing values keeps the length of the buffer.
pub proof fn lemma_write_values_len(
    bytes: Seq<u8>,
    stride: int,
    offset: int,
    size: int,
    data: Seq<u8>,
    count: nat,
)
    ensures
        write_values(bytes, stride, offset, size, data, count).len() == bytes.len(),
    decreases count,
{
    if count > 0 {
        lemma_write_values_len(bytes, stride, offset, size, data, (count - 1) as nat);
    }
}

/// Where the values of an attribute do not reach into the next vertex, each
/// of them is found in the buffer where it was put: value `i` at
/// `stride * i + offset`.
pub proof fn lemma_written_value_stays(
    bytes: Seq<u8>,
    stride: int,
    offset: int,
    size: int,
    data: Seq<u8>,
    count: nat,
    i: int,
)
    requires
        0 <= i < count,
        size > 0,
        offset >= 0,
        offset + size <= stride,
        stride * (count - 1) + offset + size <= bytes.len(),
        size * count <= data.len(),
    ensures
        0 <= stride * i + offset,
        stride * i + offset + size <= bytes.len(),
        0 <= size * i,
        size * i + size <= data.len(),
        write_values(bytes, stride, offset, size, data, count).subrange(
            stride * i + offset,
            stride * i + offset + size,
        ) == data.subrange(size * i, size * i + size),
    decreases count,
{
    let last = count - 1;
    let earlier = write_values(bytes, stride, offset, size, data, last as nat);
    let written = write_values(bytes, stride, offset, size, data, count);
    lemma_write_values_len(bytes, stride, offset, size, data, last as nat);
    assert(0 <= stride * i && stride * i <= stride * last && 0 <= size * i && size * i + size
        <= size * count && size * count == size * last + size) by (nonlinear_arith)
        requires
            stride > 0,
            size > 0,
            0 <= i <= last,
            count == last + 1,
    ;
    if i == last {
        assert(written.subrange(stride * i + offset, stride * i + offset + size) =~= data.subrange(
            size * i,
            size * i + size,
        ));
    } else {
        assert(stride * (i + 1) <= stride * last && stride * (i + 1) == stride * i + stride
            && stride * (last - 1) + stride == stride * last && size * last <= size * count)
            by (nonlinear_arith)
            requires
                stride > 0,
                size > 0,
                0 <= i < last,
                count == last + 1,
        ;
        lemma_written_value_stays(bytes, stride, offset, size, data, last as nat, i);
        assert(written.subrange(stride * i + offset, stride * i + offset + size)
            =~= earlier.subrange(stride * i + offset, stride * i + offset + size));
    }
}

proof fn lemma_value_place(total: int, stride: int, offset: int, size: int, len: int, i: int)
    requires
        size > 0,
        stride >= 0,
        offset >= 0,
        len >= 0,
        len % size == 0,
        0 <= i < len / size,
        stride * (len / size - 1) + offset + size <= total,
    ensures
        0 <= stride * i,
        stride * i + offset + size <= total,
        0 <= size * i,
        size * i + size <= len,
        size * (i + 1) == size * i + size,
{
    let n = len / size;
    assert(stride * i <= stride * (n - 1)) by (nonlinear_arith)
        requires
            stride >= 0,
            0 <= i <= n - 1,
    ;
    assert(0 <= stride * i) by (nonlinear_arith)
        requires
            stride >= 0,
            0 <= i,
    ;
    assert(0 <= size * i && size * i + size <= size * n && size * (i + 1) == size * i + size)
        by (nonlinear_arith)
        requires
            size > 0,
            0 <= i <= n - 1,
    ;
    assert(size * n == len) by (nonlinear_arith)
        requires
            size > 0,
            n == len / size,
            len % size == 0,
    ;
}

fn zeros(n: usize) -> (bytes: Vec<u8>)
    ensures
        bytes@ == Seq::new(n as nat, |j: int| 0u8),
{
    let mut bytes: Vec<u8> = Vec::new();
    while bytes.len() < n
        invariant
            bytes@.len() <= n,
            bytes@ == Seq::new(bytes@.len(), |j: int| 0u8),
        decreases n - bytes@.len(),
    {
        bytes.push(0);
        assert(bytes@ =~= Seq::new(bytes@.len(), |j: int| 0u8));
    }
    bytes
}

fn write_chunk(bytes: &mut Vec<u8>, at: usize, data: &Vec<u8>, from: usize, size: usize)
    requires
        at + size <= old(bytes)@.len(),
        from + size <= data@.len(),
    ensures
        final(bytes)@ == write_at(old(bytes)@, at as int, data@.subrange(from as int, from + size)),
{
    assert(bytes@ =~= write_at(old(bytes)@, at as int, data@.subrange(from as int, from as int)));
    let len = bytes.len();
    let data_len = data.len();
    let mut b: usize = 0;
    while b < size
        invariant
            b <= size,
            bytes@.len() == len,
            data@.len() == data_len,
            at + size <= len,
            from + size <= data_len,
            bytes@ == write_at(old(bytes)@, at as int, data@.subrange(from as int, from + b)),
        decreases size - b,
    {
        bytes.set(at + b, data[from + b]);
        b = b + 1;
        assert(bytes@ =~= write_at(
            old(bytes)@,
            at as int,
            data@.subrange(from as int, from + b),
        ));
    }
}

impl Mesh {
    /// A mesh without attributes and without indices.
    pub fn new(primitive_topology: PrimitiveTopology) -> (mesh: Self)
        ensures
            mesh.primitive_topology == primitive_topology,
            mesh.attributes@ == Seq::<VertexAttribute>::empty(),
            mesh.indices.is_none(),
    {
        Mesh { primitive_topology, attributes: Vec::new(), indices: None }
    }

    /// The number of vertices: the number of values of the first attribute.
    pub open spec fn vertex_count(&self) -> nat {
        if self.attributes@.len() == 0 {
            0
        } else {
            self.attributes@[0].values.spec_len()
        }
    }

    /// The length of the vertex buffer for the descriptor.
    pub open spec fn buffer_len(&self, descriptor: &VertexBufferDescriptor) -> int {
        descriptor.stride * self.vertex_count()
    }

    /// Whether every attribute of the descriptor from the `k`-th on, up to
    /// the first one that the mesh lacks, fits into the buffer.
    pub open spec fn can_pack_from(&self, descriptor: &VertexBufferDescriptor, k: int) -> bool
        decreases descriptor.attributes@.len() - k,
    {
        if k < 0 || k >= descriptor.attributes@.len() {
            true
        } else {
            let wanted = descriptor.attributes@[k];
            match first_named(self.attributes@, wanted.name@, 0) {
                None => true,
                Some(i) => fits(
                    self.buffer_len(descriptor),
                    descriptor.stride as int,
                    wanted.offset as int,
                    wanted.format.get_size() as int,
                    self.attributes@[i].values.spec_get_bytes(),
                ) && self.can_pack_from(descriptor, k + 1),
            }
        }
    }

    /// Whether the vertex buffer for the descriptor can be made: its length
    /// is one the machine can hold, and every value that is to be written has
    /// its place in it.
    pub open spec fn spec_can_pack(&self, descriptor: &VertexBufferDescriptor) -> bool {
        self.buffer_len(descriptor) <= usize::MAX && self.can_pack_from(descriptor, 0)
    }

    /// The buffer after the attributes of the descriptor from the `k`-th on
    /// are written into `bytes`, or the name of the first of them that the
    /// mesh lacks.
    pub open spec fn packed_from(
        &self,
        descriptor: &VertexBufferDescriptor,
        k: int,
        bytes: Seq<u8>,
    ) -> Result<Seq<u8>, Seq<char>>
        decreases descriptor.attributes@.len() - k,
    {
        if k < 0 || k >= descriptor.attributes@.len() {
            Ok(bytes)
        } else {
            let wanted = descriptor.attributes@[k];
            match first_named(self.attributes@, wanted.name@, 0) {
                None => Err(wanted.name@),
                Some(i) => {
                    let data = self.attributes@[i].values.spec_get_bytes();
                    let size = wanted.format.get_size() as int;
                    self.packed_from(
                        descriptor,
                        k + 1,
                        write_values(
                            bytes,
                            descriptor.stride as int,
                            wanted.offset as int,
                            size,
                            data,
                            data.len() / (size as nat),
                        ),
                    )
                },
            }
        }
    }

    /// The vertex buffer for the descriptor: zeros, with the attributes of
    /// the descriptor written in the descriptor's order; or the name of the
    /// first attribute that the mesh lacks.
    pub open spec fn packed(&self, descriptor: &VertexBufferDescriptor) -> Result<
        Seq<u8>,
        Seq<char>,
    > {
        self.packed_from(
            descriptor,
            0,
            Seq::new(self.buffer_len(descriptor) as nat, |j: int| 0u8),
        )
    }

    fn find_attribute(&self, name: &String) -> (found: Option<usize>)
        ensures
            match found {
                Some(i) => i < self.attributes@.len() && first_named(self.attributes@, name@, 0)
                    == Some(i as int),
                None => first_named(self.attributes@, name@, 0).is_none(),
            },
    {
        let mut i: usize = 0;
        while i < self.attributes.len()
            invariant
                i <= self.attributes@.len(),
                first_named(self.attributes@, name@, 0) == first_named(
                    self.attributes@,
                    name@,
                    i as int,
                ),
            decreases self.attributes@.len() - i,
        {
            if self.attributes[i].name == *name {
                return Some(i);
            }
            i = i + 1;
        }
        None
    }

    /// Whether the vertex buffer for the descriptor can be made. Where this
    /// is false, `get_vertex_buffer_bytes` may not be called.
    #[verifier::when_used_as_spec(spec_can_pack)]
    pub fn can_pack(&self, descriptor: &VertexBufferDescriptor) -> (ok: bool)
        ensures
            ok == self.spec_can_pack(descriptor),
    {
        let length: usize = if self.attributes.len() > 0 {
            self.attributes[0].values.len()
        } else {
            0
        };
        assert(descriptor.stride * length <= 0xffff_ffff_ffff_ffff * 0xffff_ffff_ffff_ffff)
            by (nonlinear_arith)
            requires
                0 <= descriptor.stride <= 0xffff_ffff_ffff_ffff,
                0 <= length <= 0xffff_ffff_ffff_ffff,
        ;
        let total: u128 = descriptor.stride as u128 * length as u128;
        if total > usize::MAX as u128 {
            return false;
        }
        let mut k: usize = 0;
        while k < descriptor.attributes.len()
            invariant
                k <= descriptor.attributes@.len(),
                total == self.buffer_len(descriptor),
                total <= usize::MAX,
                self.can_pack_from(descriptor, 0) == self.can_pack_from(descriptor, k as int),
            decreases descriptor.attributes@.len() - k,
        {
            let wanted = &descriptor.attributes[k];
            match self.find_attribute(&wanted.name) {
                None => {
                    return true;
                },
                Some(found) => {
                    let values = &self.attributes[found].values;
                    let held = VertexFormat::from(values).get_size() as u128;
                    let size = wanted.format.get_size() as u128;
                    let held_count = values.len();
                    proof {
                        values.lemma_bytes_len();
                    }
                    assert(held * held_count <= 16 * 0xffff_ffff_ffff_ffff) by (nonlinear_arith)
                        requires
                            0 <= held <= 16,
                            0 <= held_count <= 0xffff_ffff_ffff_ffff,
                    ;
                    let data_len: u128 = held * held_count as u128;
                    let ghost data = values.spec_get_bytes();
                    assert(data.len() == data_len);
                    if data_len % size != 0 {
                        return false;
                    }
                    let count: u128 = data_len / size;
                    if count > 0 {
                        if descriptor.stride == 0 || count - 1 > total {
                            assert(descriptor.stride * (count - 1) + wanted.offset + size > total)
                                by (nonlinear_arith)
                                requires
                                    size > 0,
                                    wanted.offset >= 0,
                                    count >= 1,
                                    descriptor.stride >= 0,
                                    total >= 0,
                                    descriptor.stride == 0 ==> total == 0,
                                    descriptor.stride > 0 ==> count - 1 > total,
                            ;
                            return false;
                        }
                        assert(descriptor.stride * (count - 1) <= 0xffff_ffff_ffff_ffff
                            * 0xffff_ffff_ffff_ffff) by (nonlinear_arith)
                            requires
                                0 <= descriptor.stride <= 0xffff_ffff_ffff_ffff,
                                0 <= count - 1 <= 0xffff_ffff_ffff_ffff,
                        ;
                        let end: u128 = descriptor.stride as u128 * (count - 1) + wanted.offset as u128
                            + size;
                        if end > total {
                            return false;
                        }
                    } else {
                        assert(data_len == 0) by (nonlinear_arith)
                            requires
                                size > 0,
                                data_len >= 0,
                                data_len / size == 0,
                                data_len % size == 0,
                        ;
                    }
                    assert(fits(
                        self.buffer_len(descriptor),
                        descriptor.stride as int,
                        wanted.offset as int,
                        wanted.format.get_size() as int,
                        data,
                    ));
                },
            }
            k = k + 1;
        }
        true
    }

    /// The bytes of the vertex buffer that the descriptor lays out.
    pub fn get_vertex_buffer_bytes(&self, vertex_buffer_descriptor: &VertexBufferDescriptor) -> (made:
        Result<Vec<u8>, MeshToVertexBufferError>)
        requires
            self.spec_can_pack(vertex_buffer_descriptor),
        ensures
            match made {
                Ok(bytes) => self.packed(vertex_buffer_descriptor) == Ok::<Seq<u8>, Seq<char>>(
                    bytes@,
                ),
                Err(MeshToVertexBufferError::MissingVertexAttribute { attribute_name }) =>
                    self.packed(vertex_buffer_descriptor) == Err::<Seq<u8>, Seq<char>>(
                    attribute_name@,
                ),
                Err(_) => false,
            },
    {
        let length: usize = if self.attributes.len() > 0 {
            self.attributes[0].values.len()
        } else {
            0
        };
        let stride: usize = if length > 0 {
            assert(vertex_buffer_descriptor.stride <= vertex_buffer_descriptor.stride * length)
                by (nonlinear_arith)
                requires
                    length >= 1,
                    vertex_buffer_descriptor.stride >= 0,
            ;
            vertex_buffer_descriptor.stride as usize
        } else {
            0
        };
        assert(stride * length == self.buffer_len(vertex_buffer_descriptor)) by (nonlinear_arith)
            requires
                length == self.vertex_count(),
                self.buffer_len(vertex_buffer_descriptor) == vertex_buffer_descriptor.stride
                    * self.vertex_count(),
                length > 0 ==> stride == vertex_buffer_descriptor.stride,
                length == 0 ==> stride == 0,
        ;
        let total: usize = stride * length;
        let mut bytes = zeros(total);
        let mut k: usize = 0;
        while k < vertex_buffer_descriptor.attributes.len()
            invariant
                k <= vertex_buffer_descriptor.attributes@.len(),
                total == self.buffer_len(vertex_buffer_descriptor),
                length == self.vertex_count(),
                length > 0 ==> stride == vertex_buffer_descriptor.stride,
                bytes@.len() == total,
                self.can_pack_from(vertex_buffer_descriptor, k as int),
                self.packed(vertex_buffer_descriptor) == self.packed_from(
                    vertex_buffer_descriptor,
                    k as int,
                    bytes@,
                ),
            decreases vertex_buffer_descriptor.attributes@.len() - k,
        {
            let vertex_attribute = &vertex_buffer_descriptor.attributes[k];
            match self.find_attribute(&vertex_attribute.name) {
                Some(found) => {
                    let attribute_bytes = self.attributes[found].values.get_bytes();
                    let attribute_size = vertex_attribute.format.get_size() as usize;
                    let count: usize = attribute_bytes.len() / attribute_size;
                    let ghost before = bytes@;
                    let mut i: usize = 0;
                    while i < count
                        invariant
                            i <= count,
                            count == attribute_bytes@.len() / (attribute_size as nat),
                            attribute_bytes@.len() <= usize::MAX,
                            attribute_size == vertex_attribute.format.get_size(),
                            attribute_size > 0,
                            total == self.buffer_len(vertex_buffer_descriptor),
                            length == self.vertex_count(),
                            length > 0 ==> stride == vertex_buffer_descriptor.stride,
                            bytes@.len() == total,
                            fits(
                                total as int,
                                vertex_buffer_descriptor.stride as int,
                                vertex_attribute.offset as int,
                                attribute_size as int,
                                attribute_bytes@,
                            ),
                            bytes@ == write_values(
                                before,
                                vertex_buffer_descriptor.stride as int,
                                vertex_attribute.offset as int,
                                attribute_size as int,
                                attribute_bytes@,
                                i as nat,
                            ),
                        decreases count - i,
                    {
                        proof {
                            lemma_value_place(
                                total as int,
                                vertex_buffer_descriptor.stride as int,
                                vertex_attribute.offset as int,
                                attribute_size as int,
                                attribute_bytes@.len() as int,
                                i as int,
                            );
                            assert(length > 0) by {
                                if length == 0 {
                                    assert(total == 0) by (nonlinear_arith)
                                        requires
                                            total == vertex_buffer_descriptor.stride * length,
                                            length == 0,
                                    ;
                                }
                            }
                        }
                        let vertex_offset = stride * i;
                        let attribute_offset = vertex_offset + vertex_attribute.offset as usize;
                        write_chunk(
                            &mut bytes,
                            attribute_offset,
                            &attribute_bytes,
                            attribute_size * i,
                            attribute_size,
                        );
                        i = i + 1;
                    }
                },
                None => {
                    return Err(
                        MeshToVertexBufferError::MissingVertexAttribute {
                            attribute_name: vertex_attribute.name.clone(),
                        },
                    );
                },
            }
            k = k + 1;
        }
        Ok(bytes)
    }
}

/// The bytes of the words one after another, each word with its low byte
/// first if `little_endian` and with its high byte first if not.
pub open spec fn memory_of_u32s(values: Seq<u32>, little_endian: bool) -> Seq<u8>
    decreases values.len(),
{
    if values.len() == 0 {
        Seq::empty()
    } else if little_endian {
        memory_of_u32s(values.drop_last(), little_endian) + spec_u32_to_le_bytes(values.last())
    } else {
        memory_of_u32s(values.drop_last(), little_endian) + spec_u32_to_le_bytes(
            values.last(),
        ).reverse()
    }
}

/// The bytes of the half-words one after another, each with its low byte
/// first if `little_endian` and with its high byte first if not.
pub open spec fn memory_of_u16s(values: Seq<u16>, little_endian: bool) -> Seq<u8>
    decreases values.len(),
{
    if values.len() == 0 {
        Seq::empty()
    } else if little_endian {
        memory_of_u16s(values.drop_last(), little_endian) + spec_u16_to_le_bytes(values.last())
    } else {
        memory_of_u16s(values.drop_last(), little_endian) + spec_u16_to_le_bytes(
            values.last(),
        ).reverse()
    }
}

/// The low 16 bits of each index.
pub open spec fn narrowed(indices: Seq<u32>) -> Seq<u16> {
    Seq::new(indices.len(), |i: int| (indices[i] % 0x1_0000) as u16)
}

/// `AsBytes::as_bytes` of zerocopy on a slice of `u32`, copied out. The call
/// gives the memory of the slice, four bytes for each value in the byte
/// order of the machine, which is one of the two orders for all values.
#[verifier::external_body]
fn u32s_as_bytes(values: &Vec<u32>) -> (bytes: Vec<u8>)
    ensures
        bytes@.len() == 4 * values@.len(),
        bytes@ == memory_of_u32s(values@, true) || bytes@ == memory_of_u32s(values@, false),
{
    zerocopy::AsBytes::as_bytes(values.as_slice()).to_vec()
}

/// `AsBytes::as_bytes` of zerocopy on a slice of `u16`, copied out. The call
/// gives the memory of the slice, two bytes for each value in the byte
/// order of the machine, which is one of the two orders for all values.
#[verifier::external_body]
fn u16s_as_bytes(values: &Vec<u16>) -> (bytes: Vec<u8>)
    ensures
        bytes@.len() == 2 * values@.len(),
        bytes@ == memory_of_u16s(values@, true) || bytes@ == memory_of_u16s(values@, false),
{
    zerocopy::AsBytes::as_bytes(values.as_slice()).to_vec()
}

/// Cuts every index down to its low 16 bits.
pub fn narrow_indices(indices: &Vec<u32>) -> (narrow: Vec<u16>)
    ensures
        narrow@ == narrowed(indices@),
{
    let mut narrow: Vec<u16> = Vec::new();
    let mut i: usize = 0;
    while i < indices.len()
        invariant
            i <= indices@.len(),
            narrow@ == narrowed(indices@.take(i as int)),
        decreases indices@.len() - i,
    {
        let index = indices[i];
        narrow.push((index % 0x1_0000) as u16);
        i = i + 1;
        assert(narrow@ =~= narrowed(indices@.take(i as int)));
    }
    assert(indices@.take(i as int) =~= indices@);
    narrow
}

impl Mesh {
    /// The bytes of the index buffer in the given format, in the byte order
    /// of the machine; `None` for a mesh without indices. An index that does
    /// not fit the format loses its high bits.
    pub fn get_index_buffer_bytes(&self, index_format: IndexFormat) -> (made: Option<Vec<u8>>)
        ensures
            made.is_none() <==> self.indices.is_none(),
            match (made, self.indices, index_format) {
                (Some(bytes), Some(indices), IndexFormat::Uint16) => {
                    &&& bytes@.len() == 2 * indices@.len()
                    &&& exists|little_endian: bool|
                        bytes@ == memory_of_u16s(narrowed(indices@), little_endian)
                },
                (Some(bytes), Some(indices), IndexFormat::Uint32) => {
                    &&& bytes@.len() == 4 * indices@.len()
                    &&& exists|little_endian: bool|
                        bytes@ == memory_of_u32s(indices@, little_endian)
                },
                _ => true,
            },
    {
        match &self.indices {
            None => None,
            Some(indices) => match index_format {
                IndexFormat::Uint16 => {
                    let narrow = narrow_indices(indices);
                    Some(u16s_as_bytes(&narrow))
                },
                IndexFormat::Uint32 => Some(u32s_as_bytes(indices)),
            },
        }
    }
}

} // verus!
