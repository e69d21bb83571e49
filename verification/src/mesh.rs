use vstd::prelude::*;
use crate::camera::Camera;
use crate::commands::{AttributeSlot, BufferRole, Cmd, MatrixSource, UniformSlot};
use crate::light::Light;
use crate::material::{is_material_apply, material_apply_len, Material};
use crate::transform::Transform3D;
use crate::values::{AttributeInfo, BufferId, UniformValue};

verus! {

/// Byte stride of a position-only vertex: three floats.
pub const STRIDE_POSITION: i32 = 12;
/// Byte stride of an interleaved position+normal vertex: six floats.
pub const STRIDE_POSITION_NORMAL: i32 = 24;

/// A renderable mesh: a vertex buffer the host has uploaded, its vertex
/// count and layout, and the material it draws with.  The layout is fixed
/// at construction: either position-only or interleaved position+normal.
pub struct Mesh {
    vertex_buffer: BufferId,
    vertex_count: i32,
    stride: i32,
    has_normals: bool,
    material: Material,
}

/// The commands of the depth-only path: bind the buffer and the position
/// attribute alone — the shadow pass never reads normals — and draw.
pub open spec fn spec_mesh_depth_cmds(mesh: Mesh) -> Seq<Cmd> {
    seq![
        Cmd::BindVertexBuffer { buffer: BufferRole::Mesh(mesh.spec_buffer()) },
        Cmd::EnableAttribute {
            slot: AttributeSlot::Position,
            info: AttributeInfo { size: 3, stride: mesh.spec_stride(), offset: 0 },
        },
        Cmd::DrawTriangles { first: 0, count: mesh.spec_vertex_count() },
    ]
}

/// The commands that bind `mesh`'s vertex data for the lit path — the
/// normal attribute only when the mesh carries normals — and draw.
pub open spec fn spec_mesh_geometry_cmds(mesh: Mesh) -> Seq<Cmd> {
    let base = seq![
        Cmd::BindVertexBuffer { buffer: BufferRole::Mesh(mesh.spec_buffer()) },
        Cmd::EnableAttribute {
            slot: AttributeSlot::Position,
            info: AttributeInfo { size: 3, stride: mesh.spec_stride(), offset: 0 },
        },
    ];
    let with_normals = if mesh.spec_has_normals() {
        base.push(
            Cmd::EnableAttribute {
                slot: AttributeSlot::Normal,
                info: AttributeInfo { size: 3, stride: mesh.spec_stride(), offset: 12 },
            },
        )
    } else {
        base
    };
    with_normals.push(Cmd::DrawTriangles { first: 0, count: mesh.spec_vertex_count() })
}

/// The commands [`Mesh::draw`] emits after the material upload: the three
/// transform matrices and the camera position, then the geometry.
pub open spec fn spec_mesh_draw_tail(mesh: Mesh, transform: Transform3D, camera: Camera) -> Seq<
    Cmd,
> {
    seq![
        Cmd::SetMatrix { slot: UniformSlot::ModelMatrix, source: MatrixSource::Model(transform) },
        Cmd::SetMatrix { slot: UniformSlot::ViewMatrix, source: MatrixSource::CameraView(camera) },
        Cmd::SetMatrix {
            slot: UniformSlot::ProjectionMatrix,
            source: MatrixSource::CameraProjection(camera),
        },
        Cmd::SetUniform {
            slot: UniformSlot::CameraPosition,
            value: UniformValue::Vec3(camera.position),
        },
    ] + spec_mesh_geometry_cmds(mesh)
}

/// Whether `cmds` is exactly what [`Mesh::draw`] emits: bind the mesh's
/// program, upload its material and the lights, then matrices, camera
/// position and geometry.
pub open spec fn is_mesh_draw(
    cmds: Seq<Cmd>,
    mesh: Mesh,
    transform: Transform3D,
    camera: Camera,
    lights: Seq<Light>,
) -> bool {
    let mat_len = material_apply_len(mesh.spec_material().table(), lights);
    &&& cmds.len() == mesh_draw_len(mesh, transform, camera, lights)
    &&& cmds[0] == (Cmd::UseProgram { program: mesh.spec_material().spec_program() })
    &&& is_material_apply(cmds.subrange(1, 1 + mat_len), mesh.spec_material().table(), lights)
    &&& cmds.skip(1 + mat_len) == spec_mesh_draw_tail(mesh, transform, camera)
}

/// Number of commands [`Mesh::draw`] emits.
pub open spec fn mesh_draw_len(
    mesh: Mesh,
    transform: Transform3D,
    camera: Camera,
    lights: Seq<Light>,
) -> int {
    1 + material_apply_len(mesh.spec_material().table(), lights) + spec_mesh_draw_tail(
        mesh,
        transform,
        camera,
    ).len()
}

impl Mesh {
    /// The vertex buffer handle.
    pub closed spec fn spec_buffer(&self) -> BufferId {
        self.vertex_buffer
    }

    /// Number of vertices drawn.
    pub closed spec fn spec_vertex_count(&self) -> i32 {
        self.vertex_count
    }

    /// Byte stride between vertices.
    pub closed spec fn spec_stride(&self) -> i32 {
        self.stride
    }

    /// Whether the buffer interleaves normals with positions.
    pub closed spec fn spec_has_normals(&self) -> bool {
        self.has_normals
    }

    /// The bound material.
    pub closed spec fn spec_material(&self) -> Material {
        self.material
    }

    /// Layout consistency: the stride matches the vertex kind, and the
    /// material's uniform table is well formed.
    pub open spec fn wf(&self) -> bool {
        &&& self.spec_stride() == if self.spec_has_normals() {
            STRIDE_POSITION_NORMAL as int
        } else {
            STRIDE_POSITION as int
        }
        &&& self.spec_vertex_count() >= 0
        &&& self.spec_material().wf()
    }

    /// A position-only mesh over a buffer of `vertex_count` vertices that
    /// the host has uploaded.
    pub fn new(vertex_buffer: BufferId, vertex_count: i32, material: Material) -> (m: Mesh)
        requires
            vertex_count >= 0,
            material.wf(),
        ensures
            m.wf(),
            m.spec_buffer() == vertex_buffer,
            m.spec_vertex_count() == vertex_count,
            m.spec_stride() == STRIDE_POSITION as int,
            !m.spec_has_normals(),
            m.spec_material() == material,
    {
        Mesh {
            vertex_buffer,
            vertex_count,
            stride: STRIDE_POSITION,
            has_normals: false,
            material,
        }
    }

    /// An interleaved position+normal mesh over a buffer of `vertex_count`
    /// vertices that the host has uploaded.
    pub fn with_normals(vertex_buffer: BufferId, vertex_count: i32, material: Material) -> (m:
        Mesh)
        requires
            vertex_count >= 0,
            material.wf(),
        ensures
            m.wf(),
            m.spec_buffer() == vertex_buffer,
            m.spec_vertex_count() == vertex_count,
            m.spec_stride() == STRIDE_POSITION_NORMAL as int,
            m.spec_has_normals(),
            m.spec_material() == material,
    {
        Mesh {
            vertex_buffer,
            vertex_count,
            stride: STRIDE_POSITION_NORMAL,
            has_normals: true,
            material,
        }
    }

    /// The bound material.
    pub fn material(&self) -> (m: &Material)
        ensures
            *m == self.spec_material(),
    {
        &self.material
    }

    /// The bound material, for mutation (updating its uniforms).
    pub fn material_mut(&mut self) -> (m: &mut Material)
        ensures
            *m == old(self).spec_material(),
            final(self).spec_material() == *final(m),
            final(self).spec_buffer() == old(self).spec_buffer(),
            final(self).spec_vertex_count() == old(self).spec_vertex_count(),
            final(self).spec_stride() == old(self).spec_stride(),
            final(self).spec_has_normals() == old(self).spec_has_normals(),
    {
        &mut self.material
    }

    /// Emits the depth-only draw used by the shadow pass: only the position
    /// attribute is bound, and the mesh's own material is ignored — the
    /// caller has bound the one shared depth program.
    pub fn draw_depth_only(&self) -> (cmds: Vec<Cmd>)
        ensures
            cmds@ =~= spec_mesh_depth_cmds(*self),
    {
        let mut cmds: Vec<Cmd> = Vec::new();
        cmds.push(Cmd::BindVertexBuffer { buffer: BufferRole::Mesh(self.vertex_buffer) });
        cmds.push(
            Cmd::EnableAttribute {
                slot: AttributeSlot::Position,
                info: AttributeInfo { size: 3, stride: self.stride, offset: 0 },
            },
        );
        cmds.push(Cmd::DrawTriangles { first: 0, count: self.vertex_count });
        cmds
    }

    /// Emits the full lit draw of the mesh: bind its program, upload the
    /// material uniforms and the light array, the model/view/projection
    /// matrices and camera position (each skipped by the host if the
    /// program lacks the slot), bind the vertex data — the normal attribute
    /// only when the mesh carries normals — and draw.
    pub fn draw(&self, transform: &Transform3D, camera: &Camera, lights: &[Light]) -> (cmds: Vec<
        Cmd,
    >)
        ensures
            is_mesh_draw(cmds@, *self, *transform, *camera, lights@),
    {
        let mut cmds: Vec<Cmd> = Vec::new();
        cmds.push(Cmd::UseProgram { program: self.material.program() });
        let mut mat_cmds = self.material.apply(lights);
        let ghost mat_seq = mat_cmds@;
        let ghost mat_len = mat_cmds@.len() as int;
        cmds.append(&mut mat_cmds);
        cmds.push(
            Cmd::SetMatrix { slot: UniformSlot::ModelMatrix, source: MatrixSource::Model(*transform) },
        );
        cmds.push(
            Cmd::SetMatrix { slot: UniformSlot::ViewMatrix, source: MatrixSource::CameraView(*camera) },
        );
        cmds.push(
            Cmd::SetMatrix {
                slot: UniformSlot::ProjectionMatrix,
                source: MatrixSource::CameraProjection(*camera),
            },
        );
        cmds.push(
            Cmd::SetUniform {
                slot: UniformSlot::CameraPosition,
                value: UniformValue::Vec3(camera.position),
            },
        );
        cmds.push(Cmd::BindVertexBuffer { buffer: BufferRole::Mesh(self.vertex_buffer) });
        cmds.push(
            Cmd::EnableAttribute {
                slot: AttributeSlot::Position,
                info: AttributeInfo { size: 3, stride: self.stride, offset: 0 },
            },
        );
        if self.has_normals {
            cmds.push(
                Cmd::EnableAttribute {
                    slot: AttributeSlot::Normal,
                    info: AttributeInfo { size: 3, stride: self.stride, offset: 12 },
                },
            );
        }
        cmds.push(Cmd::DrawTriangles { first: 0, count: self.vertex_count });
        proof {
            assert(cmds@.subrange(1, 1 + mat_len) =~= mat_seq);
            assert(cmds@.skip(1 + mat_len) =~= spec_mesh_draw_tail(*self, *transform, *camera));
        }
        cmds
    }
}

} // verus!
