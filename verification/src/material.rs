use vstd::prelude::*;
use crate::commands::{Cmd, UniformSlot};
use crate::light::{spec_apply_lights_cmds, apply_lights, Light};
use crate::text::{seq_contains, str_contains};
use crate::values::{ProgramId, UniformValue, Vec3Bits, Vec4Bits};

verus! {

/// A named uniform table, by view: shader name and value of each entry, in
/// table order.
pub type UniformTable = Seq<(Seq<char>, UniformValue)>;

/// The view of a stored uniform list: shader name and value of each entry.
pub open spec fn table_view(entries: Seq<(String, UniformValue)>) -> UniformTable {
    entries.map_values(|p: (String, UniformValue)| (p.0@, p.1))
}

/// A uniform table is well formed when its keys are unique: a name maps to
/// at most one value (last write wins on update).
pub open spec fn uniform_table_wf(t: UniformTable) -> bool {
    forall|i: int, j: int| #![trigger t[i], t[j]] 0 <= i < j < t.len() ==> t[i].0 != t[j].0
}

/// `t` updated at `key`: the first entry named `key` is overwritten in
/// place; a new name is appended.
pub open spec fn spec_table_set(t: UniformTable, key: Seq<char>, value: UniformValue) -> UniformTable
    decreases t.len(),
{
    if t.len() == 0 {
        seq![(key, value)]
    } else if t[0].0 == key {
        seq![(key, value)] + t.drop_first()
    } else {
        seq![t[0]] + spec_table_set(t.drop_first(), key, value)
    }
}

/// When the first entry named `key` stands at `i`, updating the table
/// overwrites exactly that entry.
proof fn lemma_table_set_found(t: UniformTable, key: Seq<char>, value: UniformValue, i: int)
    requires
        0 <= i < t.len(),
        forall|j: int| 0 <= j < i ==> t[j].0 != key,
        t[i].0 == key,
    ensures
        spec_table_set(t, key, value) =~= t.update(i, (key, value)),
    decreases i,
{
    if i == 0 {
    } else {
        lemma_table_set_found(t.drop_first(), key, value, i - 1);
    }
}

/// When no entry is named `key`, updating the table appends.
proof fn lemma_table_set_missing(t: UniformTable, key: Seq<char>, value: UniformValue)
    requires
        forall|j: int| 0 <= j < t.len() ==> t[j].0 != key,
    ensures
        spec_table_set(t, key, value) =~= t.push((key, value)),
    decreases t.len(),
{
    if t.len() == 0 {
    } else {
        lemma_table_set_missing(t.drop_first(), key, value);
    }
}

/// Whether `cmds` is exactly the upload of `table`: one `SetUniform` to the
/// named slot per entry, in table order.
pub open spec fn is_table_upload(cmds: Seq<Cmd>, table: UniformTable) -> bool {
    &&& cmds.len() == table.len()
    &&& forall|i: int|
        0 <= i < table.len() ==> ((#[trigger] cmds[i]) matches Cmd::SetUniform {
            slot: UniformSlot::Named(s),
            value,
        } && s@ == table[i].0 && value == table[i].1)
}

/// Whether `cmds` is exactly what [`Material::apply`] emits: the uniform
/// table upload followed by the light upload.
pub open spec fn is_material_apply(cmds: Seq<Cmd>, table: UniformTable, lights: Seq<Light>) -> bool {
    &&& cmds.len() == material_apply_len(table, lights)
    &&& is_table_upload(cmds.take(table.len() as int), table)
    &&& cmds.skip(table.len() as int) == spec_apply_lights_cmds(lights)
}

/// Number of commands [`Material::apply`] emits.
pub open spec fn material_apply_len(table: UniformTable, lights: Seq<Light>) -> int {
    table.len() + spec_apply_lights_cmds(lights).len() as int
}

/// A material: a compiled shader program plus a named uniform table, and
/// whether the program's vertex stage reads per-vertex normals.
pub struct Material {
    program: ProgramId,
    uniforms: Vec<(String, UniformValue)>,
    needs_normals: bool,
}

impl Material {
    /// The uniform table, by view, in table order.
    pub closed spec fn table(&self) -> UniformTable {
        table_view(self.uniforms@)
    }

    /// The program handle the material draws with.
    pub closed spec fn spec_program(&self) -> ProgramId {
        self.program
    }

    /// Whether the material's vertex stage reads per-vertex normals.
    pub closed spec fn spec_needs_normals(&self) -> bool {
        self.needs_normals
    }

    /// Key uniqueness of the uniform table.
    pub open spec fn wf(&self) -> bool {
        uniform_table_wf(self.table())
    }

    /// Builds a material over an already compiled and linked `program`.
    /// Whether the material needs per-vertex normals is derived, once, from
    /// the vertex stage's source text: it does exactly when that text
    /// declares a normal attribute.  (Compiling and linking — and their
    /// hard failure on bad source — happen before this, in the host layer
    /// that owns the graphics context.)
    pub fn from_source(program: ProgramId, vert_src: &str) -> (m: Material)
        ensures
            m.wf(),
            m.table() =~= Seq::<(Seq<char>, UniformValue)>::empty(),
            m.spec_program() == program,
            m.spec_needs_normals() == seq_contains(vert_src@, "attribute vec3 normal"@),
    {
        let needs_normals = str_contains(vert_src, "attribute vec3 normal");
        let m = Material { program, uniforms: Vec::new(), needs_normals };
        proof {
            assert(m.table() =~= Seq::<(Seq<char>, UniformValue)>::empty());
        }
        m
    }

    /// The program handle the material draws with.
    pub fn program(&self) -> (p: ProgramId)
        ensures
            p == self.spec_program(),
    {
        self.program
    }

    /// Whether the material's vertex stage reads per-vertex normals.
    pub fn needs_normals(&self) -> (b: bool)
        ensures
            b == self.spec_needs_normals(),
    {
        self.needs_normals
    }

    /// Overwrites or inserts the uniform named `name`.
    pub fn set(&mut self, name: &str, value: UniformValue)
        requires
            old(self).wf(),
        ensures
            final(self).wf(),
            final(self).table() =~= spec_table_set(old(self).table(), name@, value),
            final(self).spec_program() == old(self).spec_program(),
            final(self).spec_needs_normals() == old(self).spec_needs_normals(),
    {
        let key: String = name.to_owned();
        let n: usize = self.uniforms.len();
        let ghost old_table = self.table();
        for i in 0..n
            invariant
                n == self.uniforms@.len(),
                key@ == name@,
                *self == *old(self),
                old_table == old(self).table(),
                uniform_table_wf(old_table),
                forall|t: int| 0 <= t < i ==> old_table[t].0 != name@,
        {
            if self.uniforms[i].0 == key {
                proof {
                    assert(old_table[i as int].0 == name@);
                    lemma_table_set_found(old_table, name@, value, i as int);
                }
                self.uniforms[i] = (key, value);
                proof {
                    assert(final(self).table() =~= old_table.update(i as int, (name@, value)));
                    assert forall|a: int, b: int|
                        0 <= a < b < final(self).table().len() implies final(self).table()[a].0
                        != final(self).table()[b].0 by {
                        assert(final(self).table()[a].0 == old_table[a].0);
                        assert(final(self).table()[b].0 == old_table[b].0);
                        assert(old_table[a].0 != old_table[b].0);
                    };
                }
                return ;
            }
        }
        proof {
            lemma_table_set_missing(old_table, name@, value);
        }
        self.uniforms.push((key, value));
        proof {
            assert(final(self).table() =~= old_table.push((name@, value)));
        }
    }

    /// Overwrites or inserts a float uniform.
    pub fn set_float(&mut self, name: &str, bits: u32)
        requires
            old(self).wf(),
        ensures
            final(self).wf(),
            final(self).table() =~= spec_table_set(
                old(self).table(),
                name@,
                UniformValue::Float(bits),
            ),
            final(self).spec_program() == old(self).spec_program(),
            final(self).spec_needs_normals() == old(self).spec_needs_normals(),
    {
        self.set(name, UniformValue::Float(bits));
    }

    /// Overwrites or inserts a three-component vector uniform.
    pub fn set_vec3(&mut self, name: &str, v: Vec3Bits)
        requires
            old(self).wf(),
        ensures
            final(self).wf(),
            final(self).table() =~= spec_table_set(
                old(self).table(),
                name@,
                UniformValue::Vec3(v),
            ),
            final(self).spec_program() == old(self).spec_program(),
            final(self).spec_needs_normals() == old(self).spec_needs_normals(),
    {
        self.set(name, UniformValue::Vec3(v));
    }

    /// Overwrites or inserts a four-component vector uniform.
    pub fn set_vec4(&mut self, name: &str, v: Vec4Bits)
        requires
            old(self).wf(),
        ensures
            final(self).wf(),
            final(self).table() =~= spec_table_set(
                old(self).table(),
                name@,
                UniformValue::Vec4(v),
            ),
            final(self).spec_program() == old(self).spec_program(),
            final(self).spec_needs_normals() == old(self).spec_needs_normals(),
    {
        self.set(name, UniformValue::Vec4(v));
    }

    /// Overwrites or inserts the material's color as an opaque RGB vector.
    pub fn set_color(&mut self, r: u32, g: u32, b: u32)
        requires
            old(self).wf(),
        ensures
            final(self).wf(),
            final(self).table() =~= spec_table_set(
                old(self).table(),
                "color"@,
                UniformValue::Vec3(Vec3Bits { x: r, y: g, z: b }),
            ),
            final(self).spec_program() == old(self).spec_program(),
            final(self).spec_needs_normals() == old(self).spec_needs_normals(),
    {
        self.set_vec3("color", Vec3Bits { x: r, y: g, z: b });
    }

    /// Overwrites or inserts the material's color as an RGBA vector.
    pub fn set_color4(&mut self, r: u32, g: u32, b: u32, a: u32)
        requires
            old(self).wf(),
        ensures
            final(self).wf(),
            final(self).table() =~= spec_table_set(
                old(self).table(),
                "color"@,
                UniformValue::Vec4(Vec4Bits { x: r, y: g, z: b, w: a }),
            ),
            final(self).spec_program() == old(self).spec_program(),
            final(self).spec_needs_normals() == old(self).spec_needs_normals(),
    {
        self.set_vec4("color", Vec4Bits { x: r, y: g, z: b, w: a });
    }

    /// Emits the uploads that bind this material's parameters for one draw:
    /// every stored uniform, in table order, then the light array.  A slot
    /// the program does not declare is skipped silently by the host when it
    /// executes the upload.
    pub fn apply(&self, lights: &[Light]) -> (cmds: Vec<Cmd>)
        ensures
            is_material_apply(cmds@, self.table(), lights@),
    {
        let mut cmds: Vec<Cmd> = self.upload_cmds();
        let ghost n = self.table().len();
        let mut light_cmds: Vec<Cmd> = apply_lights(lights);
        cmds.append(&mut light_cmds);
        proof {
            assert(cmds@.take(n as int) =~= cmds@.subrange(0, n as int));
            assert(cmds@.skip(n as int) =~= spec_apply_lights_cmds(lights@));
        }
        cmds
    }

    /// Emits the upload of the uniform table alone, in table order.
    pub fn upload_cmds(&self) -> (cmds: Vec<Cmd>)
        ensures
            is_table_upload(cmds@, self.table()),
    {
        let n: usize = self.uniforms.len();
        let mut cmds: Vec<Cmd> = Vec::new();
        for i in 0..n
            invariant
                n == self.uniforms@.len(),
                cmds@.len() == i,
                is_table_upload(cmds@, self.table().take(i as int)),
        {
            let name: String = self.uniforms[i].0.clone();
            let value: UniformValue = self.uniforms[i].1;
            cmds.push(Cmd::SetUniform { slot: UniformSlot::Named(name), value });
        }
        proof {
            assert(self.table().take(n as int) =~= self.table());
        }
        cmds
    }
}

} // verus!
