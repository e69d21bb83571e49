use vstd::prelude::*;
use crate::commands::{AttributeSlot, BufferRole, Cmd, PingSlot, RenderTarget, TextureRole, UniformSlot};
use crate::material::{is_table_upload, spec_table_set, Material, UniformTable};
use crate::values::{AttributeInfo, ProgramId, UniformValue, Vec2Bits, Vec3Bits};

verus! {

/// The abstract content of one post-process effect: its program, its
/// uniform table by view, and whether it runs.
pub struct EffectSpec {
    pub program: ProgramId,
    pub table: UniformTable,
    pub enabled: bool,
}

/// A single full-screen effect: a fragment program over the built-in quad,
/// a named uniform table, and a toggle.  A disabled effect consumes no
/// ping-pong slot and leaves no trace in the frame.
pub struct PostProcessEffect {
    material: Material,
    enabled: bool,
}

impl PostProcessEffect {
    /// The effect's abstract content.
    pub closed spec fn spec_view(&self) -> EffectSpec {
        EffectSpec {
            program: self.material.spec_program(),
            table: self.material.table(),
            enabled: self.enabled,
        }
    }

    /// Key uniqueness of the uniform table.
    pub open spec fn wf(&self) -> bool {
        crate::material::uniform_table_wf(self.spec_view().table)
    }

    /// An enabled effect over an already compiled and linked program, with
    /// an empty uniform table.  (The host compiles the fragment source
    /// against the built-in full-screen vertex stage; compile or link
    /// failure is a hard construction error reported there.)
    pub fn new(program: ProgramId) -> (e: PostProcessEffect)
        ensures
            e.wf(),
            e.spec_view().program == program,
            e.spec_view().table =~= Seq::<(Seq<char>, UniformValue)>::empty(),
            e.spec_view().enabled,
    {
        PostProcessEffect { material: Material::from_source(program, ""), enabled: true }
    }

    /// Whether the effect runs on the next resolve.
    pub fn is_enabled(&self) -> (b: bool)
        ensures
            b == self.spec_view().enabled,
    {
        self.enabled
    }

    /// Switches the effect on or off; takes effect on the next resolve.
    pub fn set_enabled(&mut self, enabled: bool)
        ensures
            final(self).spec_view() == (EffectSpec { enabled, ..old(self).spec_view() }),
    {
        self.enabled = enabled;
    }

    /// The effect's program handle.
    pub fn program(&self) -> (p: ProgramId)
        ensures
            p == self.spec_view().program,
    {
        self.material.program()
    }

    /// Overwrites or inserts the uniform named `name`.
    pub fn set(&mut self, name: &str, value: UniformValue)
        requires
            old(self).wf(),
        ensures
            final(self).wf(),
            final(self).spec_view().table =~= spec_table_set(
                old(self).spec_view().table,
                name@,
                value,
            ),
            final(self).spec_view().program == old(self).spec_view().program,
            final(self).spec_view().enabled == old(self).spec_view().enabled,
    {
        self.material.set(name, value);
    }

    /// Overwrites or inserts a float uniform.
    pub fn set_float(&mut self, name: &str, bits: u32)
        requires
            old(self).wf(),
        ensures
            final(self).wf(),
            final(self).spec_view().table =~= spec_table_set(
                old(self).spec_view().table,
                name@,
                UniformValue::Float(bits),
            ),
            final(self).spec_view().program == old(self).spec_view().program,
            final(self).spec_view().enabled == old(self).spec_view().enabled,
    {
        self.material.set(name, UniformValue::Float(bits));
    }

    /// Overwrites or inserts a two-component vector uniform.
    pub fn set_vec2(&mut self, name: &str, v: Vec2Bits)
        requires
            old(self).wf(),
        ensures
            final(self).wf(),
            final(self).spec_view().table =~= spec_table_set(
                old(self).spec_view().table,
                name@,
                UniformValue::Vec2(v),
            ),
            final(self).spec_view().program == old(self).spec_view().program,
            final(self).spec_view().enabled == old(self).spec_view().enabled,
    {
        self.material.set(name, UniformValue::Vec2(v));
    }

    /// Overwrites or inserts a three-component vector uniform.
    pub fn set_vec3(&mut self, name: &str, v: Vec3Bits)
        requires
            old(self).wf(),
        ensures
            final(self).wf(),
            final(self).spec_view().table =~= spec_table_set(
                old(self).spec_view().table,
                name@,
                UniformValue::Vec3(v),
            ),
            final(self).spec_view().program == old(self).spec_view().program,
            final(self).spec_view().enabled == old(self).spec_view().enabled,
    {
        self.material.set(name, UniformValue::Vec3(v));
    }

    /// Emits the upload of the effect's uniform table, in table order.
    pub fn apply_uniforms(&self) -> (cmds: Vec<Cmd>)
        ensures
            is_table_upload(cmds@, self.spec_view().table),
    {
        self.material.upload_cmds()
    }
}

/// The enabled effects of a list, in their original relative order.
pub open spec fn enabled_views(effects: Seq<EffectSpec>) -> Seq<EffectSpec>
    decreases effects.len(),
{
    if effects.len() == 0 {
        Seq::empty()
    } else if effects[0].enabled {
        seq![effects[0]] + enabled_views(effects.drop_first())
    } else {
        enabled_views(effects.drop_first())
    }
}

/// Extending the list by one element extends its enabled effects by that
/// element exactly when it is enabled.
pub proof fn lemma_enabled_views_take_succ(effects: Seq<EffectSpec>, i: int)
    requires
        0 <= i < effects.len(),
    ensures
        enabled_views(effects.take(i + 1)) =~= if effects[i].enabled {
            enabled_views(effects.take(i)).push(effects[i])
        } else {
            enabled_views(effects.take(i))
        },
    decreases i,
{
    if i == 0 {
        assert(effects.take(1) =~= seq![effects[0]]);
        assert(effects.take(1).drop_first() =~= Seq::<EffectSpec>::empty());
        assert(effects.take(0) =~= Seq::<EffectSpec>::empty());
    } else {
        lemma_enabled_views_take_succ(effects.drop_first(), i - 1);
        assert(effects.take(i + 1).drop_first() =~= effects.drop_first().take(i));
        assert(effects.take(i).drop_first() =~= effects.drop_first().take(i - 1));
        assert(effects.take(i + 1)[0] == effects[0]);
        assert(effects.drop_first()[i - 1] == effects[i]);
    }
}

/// The slot reached from `s` after `n` read/write flips.
pub open spec fn spec_flip_n(s: PingSlot, n: nat) -> PingSlot {
    if n % 2 == 0 {
        s
    } else {
        s.spec_other()
    }
}

/// The commands that draw the built-in full-screen quad: two triangles,
/// position and texture coordinates interleaved at a 16-byte stride.
pub open spec fn spec_quad_cmds() -> Seq<Cmd> {
    seq![
        Cmd::BindVertexBuffer { buffer: BufferRole::Quad },
        Cmd::EnableAttribute {
            slot: AttributeSlot::Position,
            info: AttributeInfo { size: 2, stride: 16, offset: 0 },
        },
        Cmd::EnableAttribute {
            slot: AttributeSlot::Uv,
            info: AttributeInfo { size: 2, stride: 16, offset: 8 },
        },
        Cmd::DrawTriangles { first: 0, count: 6 },
    ]
}

/// Number of commands one effect pass emits.
pub open spec fn effect_pass_len(e: EffectSpec) -> int {
    11 + e.table.len() as int
}

/// Whether `cmds` is exactly one effect pass: bind `target`, clear its
/// color (depth is never touched during post-processing), bind the
/// effect's program and its input texture, upload the standard and the
/// effect's own uniforms, and draw the full-screen quad.
pub open spec fn is_effect_pass(
    cmds: Seq<Cmd>,
    e: EffectSpec,
    input: PingSlot,
    target: RenderTarget,
    width: i32,
    height: i32,
    time: u32,
) -> bool {
    &&& cmds.len() == effect_pass_len(e)
    &&& cmds[0] == (Cmd::BindTarget { target, width, height })
    &&& cmds[1] == Cmd::ClearColor
    &&& cmds[2] == (Cmd::UseProgram { program: e.program })
    &&& cmds[3] == (Cmd::BindTexture { unit: 0, texture: TextureRole::Ping(input) })
    &&& cmds[4] == (Cmd::SetUniform {
        slot: UniformSlot::ScreenTexture,
        value: UniformValue::Int(0),
    })
    &&& cmds[5] == (Cmd::SetUniform { slot: UniformSlot::Time, value: UniformValue::Float(time) })
    &&& cmds[6] == (Cmd::SetResolution { width, height })
    &&& is_table_upload(cmds.subrange(7, 7 + e.table.len() as int), e.table)
    &&& cmds.skip(7 + e.table.len() as int) == spec_quad_cmds()
}

/// Number of commands a whole chain of passes emits.
pub open spec fn chain_cmds_len(chain: Seq<EffectSpec>) -> int
    decreases chain.len(),
{
    if chain.len() == 0 {
        0
    } else {
        effect_pass_len(chain[0]) + chain_cmds_len(chain.drop_first())
    }
}

/// Whether `cmds` runs `chain` in order through the ping-pong targets:
/// each pass reads the slot the previous pass wrote, writes the other slot
/// — never the one it reads — and the last pass writes the presentation
/// target instead.
pub open spec fn is_effect_chain(
    cmds: Seq<Cmd>,
    chain: Seq<EffectSpec>,
    read: PingSlot,
    width: i32,
    height: i32,
    time: u32,
) -> bool
    decreases chain.len(),
{
    if chain.len() == 0 {
        cmds.len() == 0
    } else {
        let head_len = effect_pass_len(chain[0]);
        let target = if chain.len() == 1 {
            RenderTarget::Screen
        } else {
            RenderTarget::Ping(read.spec_other())
        };
        &&& cmds.len() == chain_cmds_len(chain)
        &&& is_effect_pass(cmds.take(head_len), chain[0], read, target, width, height, time)
        &&& is_effect_chain(
            cmds.skip(head_len),
            chain.drop_first(),
            read.spec_other(),
            width,
            height,
            time,
        )
    }
}

/// Number of commands resolving a stack emits.
pub open spec fn resolve_cmds_len(effects: Seq<EffectSpec>, enabled: bool) -> int {
    if !enabled {
        0
    } else {
        let chain = enabled_views(effects);
        if chain.len() == 0 {
            3
        } else {
            3 + chain_cmds_len(chain)
        }
    }
}

/// A chain never emits a negative number of commands.
pub proof fn lemma_chain_cmds_len_nonneg(chain: Seq<EffectSpec>)
    ensures
        chain_cmds_len(chain) >= 0,
    decreases chain.len(),
{
    if chain.len() > 0 {
        lemma_chain_cmds_len_nonneg(chain.drop_first());
    }
}

/// Whether `cmds` is exactly what resolving the stack emits.  A disabled
/// stack emits nothing.  An enabled stack with no enabled effect is a pure
/// blit: the scene image is copied to the presentation target and nothing
/// else happens beside the depth-test toggle around the copy.  Otherwise
/// the scene image is copied into the free ping-pong slot and the enabled
/// effects run as a chain ending on the presentation target.
pub open spec fn is_resolve(
    cmds: Seq<Cmd>,
    effects: Seq<EffectSpec>,
    enabled: bool,
    current: PingSlot,
    width: i32,
    height: i32,
    time: u32,
) -> bool {
    if !enabled {
        cmds.len() == 0
    } else {
        let chain = enabled_views(effects);
        if chain.len() == 0 {
            cmds =~= seq![
                Cmd::SetDepthTest { enabled: false },
                Cmd::BlitScene { to: RenderTarget::Screen },
                Cmd::SetDepthTest { enabled: true },
            ]
        } else {
            &&& cmds.len() == 3 + chain_cmds_len(chain)
            &&& cmds[0] == (Cmd::SetDepthTest { enabled: false })
            &&& cmds[1] == (Cmd::BlitScene {
                to: RenderTarget::Ping(current.spec_other()),
            })
            &&& is_effect_chain(
                cmds.subrange(2, cmds.len() - 1),
                chain,
                current.spec_other(),
                width,
                height,
                time,
            )
            &&& cmds.last() == (Cmd::SetDepthTest { enabled: true })
        }
    }
}

/// The ordered, toggleable chain of full-screen effects, applied through
/// two ping-pong color targets so that no pass ever reads the image it is
/// writing, whatever the chain's length.
pub struct PostProcessStack {
    effects: Vec<PostProcessEffect>,
    width: i32,
    height: i32,
    current: PingSlot,
    enabled: bool,
}

impl PostProcessStack {
    /// The effect list, by view, in application order.
    pub closed spec fn spec_effects(&self) -> Seq<EffectSpec> {
        self.effects@.map_values(|e: PostProcessEffect| e.spec_view())
    }

    /// Width of every buffer of the stack, in pixels.
    pub closed spec fn spec_width(&self) -> i32 {
        self.width
    }

    /// Height of every buffer of the stack, in pixels.
    pub closed spec fn spec_height(&self) -> i32 {
        self.height
    }

    /// The ping-pong slot holding the most recently written image.
    pub closed spec fn spec_current(&self) -> PingSlot {
        self.current
    }

    /// Whether the stack runs at all.
    pub closed spec fn spec_enabled(&self) -> bool {
        self.enabled
    }

    /// Key uniqueness of every effect's uniform table.
    pub open spec fn wf(&self) -> bool {
        forall|i: int|
            0 <= i < self.spec_effects().len() ==> crate::material::uniform_table_wf(
                #[trigger] self.spec_effects()[i].table,
            )
    }

    /// An enabled stack with no effects over buffers of the given size.
    /// (The host allocates the scene target, the depth renderbuffer, the
    /// two ping-pong targets and the quad buffer; allocation failure is a
    /// hard construction error reported there.)
    pub fn new(width: i32, height: i32) -> (s: PostProcessStack)
        ensures
            s.wf(),
            s.spec_effects() =~= Seq::<EffectSpec>::empty(),
            s.spec_width() == width,
            s.spec_height() == height,
            s.spec_current() == PingSlot::A,
            s.spec_enabled(),
    {
        PostProcessStack { effects: Vec::new(), width, height, current: PingSlot::A, enabled: true }
    }

    /// Whether the stack runs at all.
    pub fn is_enabled(&self) -> (b: bool)
        ensures
            b == self.spec_enabled(),
    {
        self.enabled
    }

    /// Switches the whole stack on or off.
    pub fn set_enabled(&mut self, enabled: bool)
        ensures
            final(self).spec_effects() == old(self).spec_effects(),
            final(self).spec_width() == old(self).spec_width(),
            final(self).spec_height() == old(self).spec_height(),
            final(self).spec_current() == old(self).spec_current(),
            final(self).spec_enabled() == enabled,
    {
        self.enabled = enabled;
    }

    /// Records the new size of the presentation surface.  (The host
    /// reallocates the underlying textures to match.)
    pub fn resize(&mut self, width: i32, height: i32)
        ensures
            final(self).spec_effects() == old(self).spec_effects(),
            final(self).spec_width() == width,
            final(self).spec_height() == height,
            final(self).spec_current() == old(self).spec_current(),
            final(self).spec_enabled() == old(self).spec_enabled(),
    {
        self.width = width;
        self.height = height;
    }

    /// Appends `effect` to the chain and returns its index.
    pub fn push(&mut self, effect: PostProcessEffect) -> (index: usize)
        requires
            effect.wf(),
        ensures
            index == old(self).spec_effects().len(),
            final(self).spec_effects() =~= old(self).spec_effects().push(effect.spec_view()),
            final(self).spec_width() == old(self).spec_width(),
            final(self).spec_height() == old(self).spec_height(),
            final(self).spec_current() == old(self).spec_current(),
            final(self).spec_enabled() == old(self).spec_enabled(),
            old(self).wf() ==> final(self).wf(),
    {
        let index = self.effects.len();
        self.effects.push(effect);
        proof {
            assert(self.spec_effects() =~= old(self).spec_effects().push(effect.spec_view()));
            if old(self).wf() {
                assert forall|i: int|
                    0 <= i < self.spec_effects().len() implies crate::material::uniform_table_wf(
                    #[trigger] self.spec_effects()[i].table,
                ) by {
                    if i < old(self).spec_effects().len() {
                        assert(self.spec_effects()[i] == old(self).spec_effects()[i]);
                    } else {
                        assert(self.spec_effects()[i] == effect.spec_view());
                    }
                };
            }
        }
        index
    }

    /// The effect at `index`, for mutation.  The stack afterwards holds,
    /// at the same index, whatever the caller made of the effect.
    pub fn get_mut(&mut self, index: usize) -> (r: Option<&mut PostProcessEffect>)
        ensures
            index < old(self).spec_effects().len() ==> (r matches Some(m) && m.spec_view() == old(
                self,
            ).spec_effects()[index as int] && final(self).spec_effects() =~= old(
                self,
            ).spec_effects().update(index as int, final(m).spec_view())),
            index >= old(self).spec_effects().len() ==> r is None && *final(self) == *old(self),
            final(self).spec_width() == old(self).spec_width(),
            final(self).spec_height() == old(self).spec_height(),
            final(self).spec_current() == old(self).spec_current(),
            final(self).spec_enabled() == old(self).spec_enabled(),
    {
        if index < self.effects.len() {
            Some(&mut self.effects[index])
        } else {
            None
        }
    }

    /// Removes and returns the effect at `index`; later effects move one
    /// place forward, keeping their relative order.  Unknown indices are
    /// answered with `None`, changing nothing.
    pub fn remove(&mut self, index: usize) -> (r: Option<PostProcessEffect>)
        ensures
            index < old(self).spec_effects().len() ==> (r matches Some(e) && e.spec_view() == old(
                self,
            ).spec_effects()[index as int] && final(self).spec_effects() =~= old(
                self,
            ).spec_effects().remove(index as int)),
            index >= old(self).spec_effects().len() ==> r is None && *final(self) == *old(self),
            final(self).spec_width() == old(self).spec_width(),
            final(self).spec_height() == old(self).spec_height(),
            final(self).spec_current() == old(self).spec_current(),
            final(self).spec_enabled() == old(self).spec_enabled(),
    {
        if index < self.effects.len() {
            Some(self.effects.remove(index))
        } else {
            None
        }
    }

    /// Removes every effect.
    pub fn clear(&mut self)
        ensures
            final(self).spec_effects() =~= Seq::<EffectSpec>::empty(),
            final(self).spec_width() == old(self).spec_width(),
            final(self).spec_height() == old(self).spec_height(),
            final(self).spec_current() == old(self).spec_current(),
            final(self).spec_enabled() == old(self).spec_enabled(),
    {
        self.effects.clear();
    }

    /// Number of effects in the chain.
    pub fn len(&self) -> (n: usize)
        ensures
            n == self.spec_effects().len(),
    {
        self.effects.len()
    }

    /// Emits the commands that aim the frame's rendering into the stack's
    /// scene buffer: bind it and clear color and depth.  A disabled stack
    /// emits nothing — rendering stays wherever the host left it.
    pub fn begin(&self) -> (cmds: Vec<Cmd>)
        ensures
            self.spec_enabled() ==> cmds@ =~= seq![
                Cmd::BindTarget {
                    target: RenderTarget::SceneBuffer,
                    width: self.spec_width(),
                    height: self.spec_height(),
                },
                Cmd::ClearColorAndDepth,
            ],
            !self.spec_enabled() ==> cmds@ =~= Seq::<Cmd>::empty(),
    {
        let mut cmds: Vec<Cmd> = Vec::new();
        if self.enabled {
            cmds.push(
                Cmd::BindTarget {
                    target: RenderTarget::SceneBuffer,
                    width: self.width,
                    height: self.height,
                },
            );
            cmds.push(Cmd::ClearColorAndDepth);
        }
        cmds
    }

    /// Resolves the rendered scene through the chain of enabled effects to
    /// the presentation target (see [`is_resolve`]): effects run strictly
    /// in list order, only enabled ones run, and the read slot advances by
    /// one flip per pass.
    pub fn end(&mut self, time: u32) -> (cmds: Vec<Cmd>)
        requires
            old(self).wf(),
        ensures
            final(self).wf(),
            is_resolve(
                cmds@,
                old(self).spec_effects(),
                old(self).spec_enabled(),
                old(self).spec_current(),
                old(self).spec_width(),
                old(self).spec_height(),
                time,
            ),
            cmds@.len() == resolve_cmds_len(old(self).spec_effects(), old(self).spec_enabled()),
            final(self).spec_effects() == old(self).spec_effects(),
            final(self).spec_width() == old(self).spec_width(),
            final(self).spec_height() == old(self).spec_height(),
            final(self).spec_enabled() == old(self).spec_enabled(),
            final(self).spec_current() == if old(self).spec_enabled() {
                spec_flip_n(
                    old(self).spec_current(),
                    enabled_views(old(self).spec_effects()).len(),
                )
            } else {
                old(self).spec_current()
            },
    {
        if !self.enabled {
            let cmds: Vec<Cmd> = Vec::new();
            return cmds;
        }
        let ghost chain = enabled_views(old(self).spec_effects());
        let en: Vec<usize> = self.enabled_indices();
        proof {
            assert(chain.len() == en@.len());
        }
        let mut cmds: Vec<Cmd> = Vec::new();
        cmds.push(Cmd::SetDepthTest { enabled: false });
        if en.len() == 0 {
            cmds.push(Cmd::BlitScene { to: RenderTarget::Screen });
            cmds.push(Cmd::SetDepthTest { enabled: true });
            proof {
                assert(cmds@ =~= seq![
                    Cmd::SetDepthTest { enabled: false },
                    Cmd::BlitScene { to: RenderTarget::Screen },
                    Cmd::SetDepthTest { enabled: true },
                ]);
            }
            cmds
        } else {
            let read0 = self.current.other();
            cmds.push(Cmd::BlitScene { to: RenderTarget::Ping(read0) });
            let mut chain_cmds = emit_chain(
                &self.effects,
                &en,
                0,
                read0,
                self.width,
                self.height,
                time,
            );
            let ghost chain_seq = chain_cmds@;
            proof {
                assert(en@.skip(0) =~= en@);
                assert(en@.map_values(|idx: usize| self.spec_effects()[idx as int])
                    =~= en@.map_values(|idx: usize| self.effects@[idx as int].spec_view()));
                assert(is_effect_chain(
                    chain_seq,
                    chain,
                    old(self).spec_current().spec_other(),
                    old(self).spec_width(),
                    old(self).spec_height(),
                    time,
                ));
            }
            cmds.append(&mut chain_cmds);
            if en.len() % 2 == 1 {
                self.current = self.current.other();
            }
            cmds.push(Cmd::SetDepthTest { enabled: true });
            proof {
                assert(cmds@.len() == 3 + chain_cmds_len(chain));
                assert(cmds@.subrange(2, cmds@.len() - 1) =~= chain_seq);
                assert(cmds@.last() == (Cmd::SetDepthTest { enabled: true }));
            }
            cmds
        }
    }

    /// Collects the indices of the enabled effects, in order.
    fn enabled_indices(&self) -> (en: Vec<usize>)
        ensures
            en@.map_values(
                |idx: usize| self.spec_effects()[idx as int],
            ) =~= enabled_views(self.spec_effects()),
            forall|j: int|
                0 <= j < en@.len() ==> (#[trigger] en@[j]) < self.spec_effects().len()
                    && self.spec_effects()[en@[j] as int].enabled,
    {
        let n: usize = self.effects.len();
        let mut en: Vec<usize> = Vec::new();
        proof {
            assert(self.spec_effects().take(0) =~= Seq::<EffectSpec>::empty());
        }
        for i in 0..n
            invariant
                n == self.spec_effects().len(),
                en@.map_values(
                    |idx: usize| self.spec_effects()[idx as int],
                ) =~= enabled_views(self.spec_effects().take(i as int)),
                forall|j: int|
                    0 <= j < en@.len() ==> (#[trigger] en@[j]) < i && self.spec_effects()[en@[j] as int].enabled,
        {
            proof {
                lemma_enabled_views_take_succ(self.spec_effects(), i as int);
            }
            if self.effects[i].is_enabled() {
                en.push(i);
            }
            proof {
                assert(en@.map_values(|idx: usize| self.spec_effects()[idx as int])
                    =~= enabled_views(self.spec_effects().take(i + 1)));
            }
        }
        proof {
            assert(self.spec_effects().take(n as int) =~= self.spec_effects());
        }
        en
    }
}

/// Emits the passes of the enabled effects `en[pos..]`, reading first from
/// `read`; every pass but the last writes the slot it does not read, and
/// the last writes the presentation target.
fn emit_chain(
    effects: &Vec<PostProcessEffect>,
    en: &Vec<usize>,
    pos: usize,
    read: PingSlot,
    width: i32,
    height: i32,
    time: u32,
) -> (cmds: Vec<Cmd>)
    requires
        pos <= en@.len(),
        forall|j: int|
            pos <= j < en@.len() ==> (#[trigger] en@[j]) < effects@.len(),
    ensures
        is_effect_chain(
            cmds@,
            en@.skip(pos as int).map_values(
                |idx: usize| effects@[idx as int].spec_view(),
            ),
            read,
            width,
            height,
            time,
        ),
    decreases en@.len() - pos,
{
    let ghost chain = en@.skip(pos as int).map_values(
        |idx: usize| effects@[idx as int].spec_view(),
    );
    if pos == en.len() {
        let cmds: Vec<Cmd> = Vec::new();
        proof {
            assert(chain.len() == 0);
        }
        cmds
    } else {
        let idx = en[pos];
        let is_last = pos + 1 == en.len();
        let target = if is_last {
            RenderTarget::Screen
        } else {
            RenderTarget::Ping(read.other())
        };
        let mut cmds = emit_pass(&effects[idx], read, target, width, height, time);
        let ghost head_seq = cmds@;
        let mut rest = emit_chain(effects, en, pos + 1, read.other(), width, height, time);
        let ghost rest_seq = rest@;
        cmds.append(&mut rest);
        proof {
            let head_len = effect_pass_len(chain[0]);
            assert(chain[0] == effects@[idx as int].spec_view());
            assert(chain.drop_first() =~= en@.skip(pos + 1).map_values(
                |idx: usize| effects@[idx as int].spec_view(),
            ));
            assert(head_seq.len() == head_len);
            assert(cmds@.take(head_len) =~= head_seq);
            assert(cmds@.skip(head_len) =~= rest_seq);
            assert((chain.len() == 1) == is_last);
            assert(is_effect_pass(
                cmds@.take(head_len),
                chain[0],
                read,
                if chain.len() == 1 {
                    RenderTarget::Screen
                } else {
                    RenderTarget::Ping(read.spec_other())
                },
                width,
                height,
                time,
            ));
            assert(is_effect_chain(
                cmds@.skip(head_len),
                chain.drop_first(),
                read.spec_other(),
                width,
                height,
                time,
            ));
            assert(rest_seq.len() == chain_cmds_len(chain.drop_first()));
            assert(cmds@.len() == chain_cmds_len(chain));
        }
        cmds
    }
}

/// Emits one effect pass (see [`is_effect_pass`]).
fn emit_pass(
    e: &PostProcessEffect,
    input: PingSlot,
    target: RenderTarget,
    width: i32,
    height: i32,
    time: u32,
) -> (cmds: Vec<Cmd>)
    ensures
        is_effect_pass(cmds@, e.spec_view(), input, target, width, height, time),
{
    let mut cmds: Vec<Cmd> = Vec::new();
    cmds.push(Cmd::BindTarget { target, width, height });
    cmds.push(Cmd::ClearColor);
    cmds.push(Cmd::UseProgram { program: e.program() });
    cmds.push(Cmd::BindTexture { unit: 0, texture: TextureRole::Ping(input) });
    cmds.push(Cmd::SetUniform { slot: UniformSlot::ScreenTexture, value: UniformValue::Int(0) });
    cmds.push(Cmd::SetUniform { slot: UniformSlot::Time, value: UniformValue::Float(time) });
    cmds.push(Cmd::SetResolution { width, height });
    let mut table_cmds = e.apply_uniforms();
    let ghost table_seq = table_cmds@;
    cmds.append(&mut table_cmds);
    cmds.push(Cmd::BindVertexBuffer { buffer: BufferRole::Quad });
    cmds.push(
        Cmd::EnableAttribute {
            slot: AttributeSlot::Position,
            info: AttributeInfo { size: 2, stride: 16, offset: 0 },
        },
    );
    cmds.push(
        Cmd::EnableAttribute {
            slot: AttributeSlot::Uv,
            info: AttributeInfo { size: 2, stride: 16, offset: 8 },
        },
    );
    cmds.push(Cmd::DrawTriangles { first: 0, count: 6 });
    proof {
        let tl = e.spec_view().table.len() as int;
        assert(cmds@.subrange(7, 7 + tl) =~= table_seq);
        assert(cmds@.skip(7 + tl) =~= spec_quad_cmds());
    }
    cmds
}

/// The programs bound by a command sequence, in order.
pub open spec fn spec_programs_of(cmds: Seq<Cmd>) -> Seq<ProgramId>
    decreases cmds.len(),
{
    if cmds.len() == 0 {
        Seq::empty()
    } else {
        (match cmds[0] {
            Cmd::UseProgram { program } => seq![program],
            _ => Seq::empty(),
        }) + spec_programs_of(cmds.drop_first())
    }
}

/// Program extraction distributes over concatenation.
pub proof fn lemma_programs_of_concat(a: Seq<Cmd>, b: Seq<Cmd>)
    ensures
        spec_programs_of(a + b) =~= spec_programs_of(a) + spec_programs_of(b),
    decreases a.len(),
{
    if a.len() == 0 {
        assert(a + b =~= b);
    } else {
        lemma_programs_of_concat(a.drop_first(), b);
        assert((a + b).drop_first() =~= a.drop_first() + b);
        assert((a + b)[0] == a[0]);
    }
}

/// A command sequence that binds no program contributes no programs.
pub proof fn lemma_programs_of_none(cmds: Seq<Cmd>)
    requires
        forall|i: int| 0 <= i < cmds.len() ==> !((#[trigger] cmds[i]) is UseProgram),
    ensures
        spec_programs_of(cmds) =~= Seq::<ProgramId>::empty(),
    decreases cmds.len(),
{
    if cmds.len() > 0 {
        assert(forall|i: int|
            0 <= i < cmds.drop_first().len() ==> !((#[trigger] cmds.drop_first()[i])
                is UseProgram)) by {
            assert(forall|i: int|
                0 <= i < cmds.drop_first().len() ==> cmds.drop_first()[i] == cmds[i + 1]);
        }
        lemma_programs_of_none(cmds.drop_first());
    }
}

/// One effect pass binds exactly the effect's program.
pub proof fn lemma_pass_programs(
    cmds: Seq<Cmd>,
    e: EffectSpec,
    input: PingSlot,
    target: RenderTarget,
    width: i32,
    height: i32,
    time: u32,
)
    requires
        is_effect_pass(cmds, e, input, target, width, height, time),
    ensures
        spec_programs_of(cmds) =~= seq![e.program],
{
    let head = cmds.take(2);
    let mid = cmds.subrange(2, 3);
    let tail = cmds.skip(3);
    assert(cmds =~= head + (mid + tail));
    assert(forall|i: int| 0 <= i < head.len() ==> !((#[trigger] head[i]) is UseProgram));
    lemma_programs_of_none(head);
    assert(forall|i: int|
        0 <= i < tail.len() ==> !((#[trigger] tail[i]) is UseProgram)) by {
        assert(forall|i: int| 0 <= i < tail.len() ==> tail[i] == cmds[i + 3]);
        assert(forall|i: int|
            7 <= i < 7 + e.table.len() ==> (#[trigger] cmds[i]) == cmds.subrange(
                7,
                7 + e.table.len() as int,
            )[i - 7]);
        assert(forall|i: int|
            7 + e.table.len() <= i < cmds.len() ==> (#[trigger] cmds[i]) == cmds.skip(
                7 + e.table.len() as int,
            )[i - 7 - e.table.len()]);
    }
    lemma_programs_of_none(tail);
    lemma_programs_of_concat(head, mid + tail);
    lemma_programs_of_concat(mid, tail);
    assert(mid[0] == cmds[2]);
    assert(mid.drop_first() =~= Seq::<Cmd>::empty());
    assert(spec_programs_of(mid.drop_first()) =~= Seq::<ProgramId>::empty());
    assert(spec_programs_of(mid) =~= seq![e.program]);
}

/// A chain binds exactly the chained effects' programs, in order.
pub proof fn lemma_chain_programs(
    cmds: Seq<Cmd>,
    chain: Seq<EffectSpec>,
    read: PingSlot,
    width: i32,
    height: i32,
    time: u32,
)
    requires
        is_effect_chain(cmds, chain, read, width, height, time),
    ensures
        spec_programs_of(cmds) =~= chain.map_values(|e: EffectSpec| e.program),
    decreases chain.len(),
{
    if chain.len() == 0 {
        assert(cmds =~= Seq::<Cmd>::empty());
    } else {
        let head_len = effect_pass_len(chain[0]);
        let target = if chain.len() == 1 {
            RenderTarget::Screen
        } else {
            RenderTarget::Ping(read.spec_other())
        };
        lemma_chain_cmds_len_nonneg(chain.drop_first());
        assert(cmds =~= cmds.take(head_len) + cmds.skip(head_len));
        lemma_pass_programs(cmds.take(head_len), chain[0], read, target, width, height, time);
        lemma_chain_programs(
            cmds.skip(head_len),
            chain.drop_first(),
            read.spec_other(),
            width,
            height,
            time,
        );
        lemma_programs_of_concat(cmds.take(head_len), cmds.skip(head_len));
        assert(chain.map_values(|e: EffectSpec| e.program) =~= seq![chain[0].program]
            + chain.drop_first().map_values(|e: EffectSpec| e.program));
    }
}

/// Order preservation: a resolve binds exactly the programs of the
/// enabled effects, in the order they were pushed — the first enabled
/// effect reads the scene image's copy, every later one reads its
/// predecessor's output.
pub proof fn lemma_resolve_order(
    cmds: Seq<Cmd>,
    effects: Seq<EffectSpec>,
    enabled: bool,
    current: PingSlot,
    width: i32,
    height: i32,
    time: u32,
)
    requires
        enabled,
        is_resolve(cmds, effects, enabled, current, width, height, time),
    ensures
        spec_programs_of(cmds) =~= enabled_views(effects).map_values(|e: EffectSpec| e.program),
{
    let chain = enabled_views(effects);
    if chain.len() == 0 {
        assert(forall|i: int| 0 <= i < cmds.len() ==> !((#[trigger] cmds[i]) is UseProgram));
        lemma_programs_of_none(cmds);
    } else {
        let body = cmds.subrange(2, cmds.len() - 1);
        lemma_chain_cmds_len_nonneg(chain);
        assert(cmds =~= cmds.take(2) + (body + cmds.skip(cmds.len() - 1)));
        assert(forall|i: int|
            0 <= i < cmds.take(2).len() ==> !((#[trigger] cmds.take(2)[i]) is UseProgram));
        lemma_programs_of_none(cmds.take(2));
        assert(cmds.skip(cmds.len() - 1) =~= seq![cmds.last()]);
        assert(forall|i: int|
            0 <= i < cmds.skip(cmds.len() - 1).len() ==> !((#[trigger] cmds.skip(
                cmds.len() - 1,
            )[i]) is UseProgram));
        lemma_programs_of_none(cmds.skip(cmds.len() - 1));
        lemma_chain_programs(body, chain, current.spec_other(), width, height, time);
        lemma_programs_of_concat(cmds.take(2), body + cmds.skip(cmds.len() - 1));
        lemma_programs_of_concat(body, cmds.skip(cmds.len() - 1));
    }
}

/// Effect toggling: the resolve of a stack is determined by its enabled
/// effects alone.  Disabling an effect in a longer chain therefore yields
/// exactly the command stream — and so exactly the output image — of the
/// shorter chain of the remaining enabled effects, in their original
/// relative order.
pub proof fn lemma_resolve_of_enabled(
    cmds: Seq<Cmd>,
    effects1: Seq<EffectSpec>,
    effects2: Seq<EffectSpec>,
    enabled: bool,
    current: PingSlot,
    width: i32,
    height: i32,
    time: u32,
)
    requires
        enabled_views(effects1) == enabled_views(effects2),
        is_resolve(cmds, effects1, enabled, current, width, height, time),
    ensures
        is_resolve(cmds, effects2, enabled, current, width, height, time),
{
}

} // verus!
