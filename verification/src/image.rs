use vstd::prelude::*;
use crate::commands::{Cmd, PingSlot, RenderTarget, TextureRole};
use crate::postprocess::{
    chain_cmds_len, effect_pass_len, enabled_views, is_effect_chain, is_effect_pass, is_resolve,
    lemma_chain_cmds_len_nonneg, EffectSpec,
};
use crate::values::ProgramId;

verus! {

// What the post-processing chain computes, stated over images themselves.
// An image is either the lit scene as rendered, or the result of running
// one effect program over an input image; executing a resolve's commands
// must leave the screen holding the composition of the enabled effects —
// in their pushed order — over the scene image.  The model abstracts one
// thing: a pass's output is taken as a function of its program and its
// input image alone (the pass-level contracts already pin the uniform
// parameters each pass uploads).

/// An image, by provenance.
pub enum ImageExpr {
    /// The scene as rendered into the scene buffer this frame.
    SceneImage,
    /// The output of one full-screen effect pass over `input`.
    Applied { program: ProgramId, input: Box<ImageExpr> },
}

/// The composition of a chain of effects over `input`, first effect first:
/// `chain_output([e1, e2], img)` is `e2(e1(img))`.
pub open spec fn chain_output(chain: Seq<EffectSpec>, input: ImageExpr) -> ImageExpr
    decreases chain.len(),
{
    if chain.len() == 0 {
        input
    } else {
        chain_output(
            chain.drop_first(),
            ImageExpr::Applied { program: chain[0].program, input: Box::new(input) },
        )
    }
}

/// The image-level state a resolve's commands act on: what each color
/// target shows, and which target, program and input texture are bound.
pub struct PpState {
    pub screen: Option<ImageExpr>,
    pub ping_a: Option<ImageExpr>,
    pub ping_b: Option<ImageExpr>,
    pub bound_target: Option<RenderTarget>,
    pub bound_program: Option<ProgramId>,
    pub bound_texture: Option<TextureRole>,
}

/// What a color target shows.  The scene buffer holds the rendered scene;
/// the shadow buffer holds no color image.
pub open spec fn target_content(s: PpState, t: RenderTarget) -> Option<ImageExpr> {
    match t {
        RenderTarget::Screen => s.screen,
        RenderTarget::SceneBuffer => Some(ImageExpr::SceneImage),
        RenderTarget::ShadowBuffer => None,
        RenderTarget::Ping(PingSlot::A) => s.ping_a,
        RenderTarget::Ping(PingSlot::B) => s.ping_b,
    }
}

/// What a sampled texture shows.
pub open spec fn texture_content(s: PpState, t: TextureRole) -> Option<ImageExpr> {
    match t {
        TextureRole::SceneColor => Some(ImageExpr::SceneImage),
        TextureRole::ShadowDepth => None,
        TextureRole::Ping(PingSlot::A) => s.ping_a,
        TextureRole::Ping(PingSlot::B) => s.ping_b,
    }
}

/// The state after `img` lands on target `t`.
pub open spec fn set_target(s: PpState, t: RenderTarget, img: ImageExpr) -> PpState {
    match t {
        RenderTarget::Screen => PpState { screen: Some(img), ..s },
        RenderTarget::Ping(PingSlot::A) => PpState { ping_a: Some(img), ..s },
        RenderTarget::Ping(PingSlot::B) => PpState { ping_b: Some(img), ..s },
        _ => s,
    }
}

/// One command's effect on the image-level state.  A triangle draw during
/// post-processing is a full-screen quad, so it replaces the bound
/// target's image outright with the bound program applied to the bound
/// input texture; commands that only set scalar uniforms or attribute
/// state leave the image level untouched.
pub open spec fn pp_step(s: PpState, c: Cmd) -> PpState {
    match c {
        Cmd::BindTarget { target, .. } => PpState { bound_target: Some(target), ..s },
        Cmd::UseProgram { program } => PpState { bound_program: Some(program), ..s },
        Cmd::BindTexture { unit, texture } => {
            if unit == 0 {
                PpState { bound_texture: Some(texture), ..s }
            } else {
                s
            }
        },
        Cmd::BlitScene { to } => set_target(s, to, ImageExpr::SceneImage),
        Cmd::DrawTriangles { .. } => {
            match (s.bound_target, s.bound_program, s.bound_texture) {
                (Some(t), Some(p), Some(tex)) => match texture_content(s, tex) {
                    Some(img) => set_target(
                        s,
                        t,
                        ImageExpr::Applied { program: p, input: Box::new(img) },
                    ),
                    None => s,
                },
                _ => s,
            }
        },
        _ => s,
    }
}

/// The state after executing `cmds` in order.
pub open spec fn pp_run(s: PpState, cmds: Seq<Cmd>) -> PpState
    decreases cmds.len(),
{
    if cmds.len() == 0 {
        s
    } else {
        pp_run(pp_step(s, cmds[0]), cmds.drop_first())
    }
}

/// Running a concatenation runs the parts in order.
pub proof fn lemma_pp_run_concat(s: PpState, a: Seq<Cmd>, b: Seq<Cmd>)
    ensures
        pp_run(s, a + b) == pp_run(pp_run(s, a), b),
    decreases a.len(),
{
    if a.len() == 0 {
        assert(a + b =~= b);
    } else {
        assert((a + b).drop_first() =~= a.drop_first() + b);
        assert((a + b)[0] == a[0]);
        lemma_pp_run_concat(pp_step(s, a[0]), a.drop_first(), b);
    }
}

/// Whether a command leaves the image-level state untouched.
pub open spec fn pp_neutral(c: Cmd) -> bool {
    match c {
        Cmd::BindTarget { .. } => false,
        Cmd::UseProgram { .. } => false,
        Cmd::BindTexture { .. } => false,
        Cmd::BlitScene { .. } => false,
        Cmd::DrawTriangles { .. } => false,
        _ => true,
    }
}

/// A run of neutral commands changes nothing.
pub proof fn lemma_pp_run_neutral(s: PpState, cmds: Seq<Cmd>)
    requires
        forall|i: int| 0 <= i < cmds.len() ==> pp_neutral(#[trigger] cmds[i]),
    ensures
        pp_run(s, cmds) == s,
    decreases cmds.len(),
{
    if cmds.len() > 0 {
        assert(forall|i: int|
            0 <= i < cmds.drop_first().len() ==> pp_neutral(#[trigger] cmds.drop_first()[i])) by {
            assert(forall|i: int|
                0 <= i < cmds.drop_first().len() ==> cmds.drop_first()[i] == cmds[i + 1]);
        }
        lemma_pp_run_neutral(pp_step(s, cmds[0]), cmds.drop_first());
    }
}

/// One effect pass applies its program to the image in its input slot and
/// lands the result on its target.
proof fn lemma_pass_output(
    s0: PpState,
    cmds: Seq<Cmd>,
    e: EffectSpec,
    input: PingSlot,
    target: RenderTarget,
    width: i32,
    height: i32,
    time: u32,
    img: ImageExpr,
)
    requires
        is_effect_pass(cmds, e, input, target, width, height, time),
        texture_content(s0, TextureRole::Ping(input)) == Some(img),
    ensures
        pp_run(s0, cmds) == set_target(
            PpState {
                bound_target: Some(target),
                bound_program: Some(e.program),
                bound_texture: Some(TextureRole::Ping(input)),
                ..s0
            },
            target,
            ImageExpr::Applied { program: e.program, input: Box::new(img) },
        ),
{
    let k = e.table.len() as int;
    let head = cmds.take(7);
    let mid = cmds.subrange(7, 7 + k);
    let tail = cmds.skip(7 + k);
    assert(cmds =~= head + (mid + tail));
    lemma_pp_run_concat(s0, head, mid + tail);

    // The seven fixed commands bind the target, the program and the input.
    let s1 = PpState {
        bound_target: Some(target),
        bound_program: Some(e.program),
        bound_texture: Some(TextureRole::Ping(input)),
        ..s0
    };
    assert(pp_run(s0, head) == s1) by {
        reveal_with_fuel(pp_run, 9);
        assert(head[0] == cmds[0]);
        let h1 = head.drop_first();
        assert(h1 =~= cmds.subrange(1, 7));
        let h2 = h1.drop_first();
        assert(h2 =~= cmds.subrange(2, 7));
        let h3 = h2.drop_first();
        assert(h3 =~= cmds.subrange(3, 7));
        let h4 = h3.drop_first();
        assert(h4 =~= cmds.subrange(4, 7));
        let h5 = h4.drop_first();
        assert(h5 =~= cmds.subrange(5, 7));
        let h6 = h5.drop_first();
        assert(h6 =~= cmds.subrange(6, 7));
        assert(h6.drop_first() =~= Seq::<Cmd>::empty());
        assert(h1[0] == cmds[1]);
        assert(h2[0] == cmds[2]);
        assert(h3[0] == cmds[3]);
        assert(h4[0] == cmds[4]);
        assert(h5[0] == cmds[5]);
        assert(h6[0] == cmds[6]);
    }

    lemma_pp_run_concat(s1, mid, tail);

    // The effect's own uniform uploads are image-neutral.
    assert(pp_run(s1, mid) == s1) by {
        assert(forall|i: int| 0 <= i < mid.len() ==> pp_neutral(#[trigger] mid[i]));
        lemma_pp_run_neutral(s1, mid);
    }

    // The quad draw reads the input slot — untouched so far — and lands
    // the applied image on the target.
    assert(tail == crate::postprocess::spec_quad_cmds());
    assert(pp_run(s1, tail) == set_target(
        s1,
        target,
        ImageExpr::Applied { program: e.program, input: Box::new(img) },
    )) by {
        reveal_with_fuel(pp_run, 6);
        let t1 = tail.drop_first();
        assert(t1 =~= tail.subrange(1, 4));
        let t2 = t1.drop_first();
        assert(t2 =~= tail.subrange(2, 4));
        let t3 = t2.drop_first();
        assert(t3 =~= tail.subrange(3, 4));
        assert(t3.drop_first() =~= Seq::<Cmd>::empty());
        assert(texture_content(s1, TextureRole::Ping(input)) == Some(img));
    }
}

/// A nonempty chain composes: after its passes, the presentation target
/// shows the chain's effects applied in order to the image that was in
/// the read slot.
proof fn lemma_chain_output(
    s0: PpState,
    cmds: Seq<Cmd>,
    chain: Seq<EffectSpec>,
    read: PingSlot,
    width: i32,
    height: i32,
    time: u32,
    img: ImageExpr,
)
    requires
        chain.len() > 0,
        is_effect_chain(cmds, chain, read, width, height, time),
        texture_content(s0, TextureRole::Ping(read)) == Some(img),
    ensures
        pp_run(s0, cmds).screen == Some(chain_output(chain, img)),
    decreases chain.len(),
{
    let head_len = effect_pass_len(chain[0]);
    let target = if chain.len() == 1 {
        RenderTarget::Screen
    } else {
        RenderTarget::Ping(read.spec_other())
    };
    lemma_chain_cmds_len_nonneg(chain.drop_first());
    assert(cmds =~= cmds.take(head_len) + cmds.skip(head_len));
    lemma_pp_run_concat(s0, cmds.take(head_len), cmds.skip(head_len));
    let applied = ImageExpr::Applied { program: chain[0].program, input: Box::new(img) };
    lemma_pass_output(
        s0,
        cmds.take(head_len),
        chain[0],
        read,
        target,
        width,
        height,
        time,
        img,
    );
    let s1 = pp_run(s0, cmds.take(head_len));
    if chain.len() == 1 {
        assert(s1.screen == Some(applied));
        assert(cmds.skip(head_len).len() == 0);
        assert(chain_output(chain, img) == chain_output(chain.drop_first(), applied));
    } else {
        // The pass wrote the other slot; the recursion reads it.
        assert(texture_content(s1, TextureRole::Ping(read.spec_other())) == Some(applied));
        lemma_chain_output(
            s1,
            cmds.skip(head_len),
            chain.drop_first(),
            read.spec_other(),
            width,
            height,
            time,
            applied,
        );
    }
}

/// What resolving an enabled stack shows on the screen: the enabled
/// effects, in the order they were pushed, composed over the scene image —
/// for effects `[g, v]` the screen shows `v(g(scene))`, never `g(v(scene))`
/// — and with no enabled effect, the scene image itself, plainly copied.
pub proof fn theorem_resolve_output(
    s0: PpState,
    cmds: Seq<Cmd>,
    effects: Seq<EffectSpec>,
    current: PingSlot,
    width: i32,
    height: i32,
    time: u32,
)
    requires
        is_resolve(cmds, effects, true, current, width, height, time),
    ensures
        pp_run(s0, cmds).screen == Some(
            chain_output(enabled_views(effects), ImageExpr::SceneImage),
        ),
{
    let chain = enabled_views(effects);
    if chain.len() == 0 {
        reveal_with_fuel(pp_run, 5);
        let s1 = pp_step(s0, cmds[0]);
        let s2 = pp_step(s1, cmds[1]);
        let s3 = pp_step(s2, cmds[2]);
        assert(cmds.drop_first() =~= cmds.subrange(1, 3));
        assert(cmds.drop_first().drop_first() =~= cmds.subrange(2, 3));
        assert(cmds.drop_first().drop_first().drop_first() =~= Seq::<Cmd>::empty());
        assert(cmds.drop_first()[0] == cmds[1]);
        assert(cmds.drop_first().drop_first()[0] == cmds[2]);
        assert(pp_run(s0, cmds) == s3);
        assert(s2.screen == Some(ImageExpr::SceneImage));
    } else {
        lemma_chain_cmds_len_nonneg(chain);
        let body = cmds.subrange(2, cmds.len() - 1);
        let last = cmds.skip(cmds.len() - 1);
        assert(cmds =~= cmds.take(2) + (body + last));
        lemma_pp_run_concat(s0, cmds.take(2), body + last);
        // The depth toggle is neutral; the blit seeds the free slot with
        // the scene image.
        let s1 = pp_run(s0, cmds.take(2));
        assert(s1 == pp_step(pp_step(s0, cmds[0]), cmds[1])) by {
            reveal_with_fuel(pp_run, 4);
            assert(cmds.take(2)[0] == cmds[0]);
            assert(cmds.take(2).drop_first() =~= cmds.subrange(1, 2));
            assert(cmds.subrange(1, 2)[0] == cmds[1]);
            assert(cmds.subrange(1, 2).drop_first() =~= Seq::<Cmd>::empty());
        }
        assert(texture_content(s1, TextureRole::Ping(current.spec_other())) == Some(
            ImageExpr::SceneImage,
        ));
        lemma_pp_run_concat(s1, body, last);
        lemma_chain_output(
            s1,
            body,
            chain,
            current.spec_other(),
            width,
            height,
            time,
            ImageExpr::SceneImage,
        );
        assert(last =~= seq![cmds.last()]);
        assert(pp_run(pp_run(s1, body), last) == pp_step(pp_run(s1, body), cmds.last())) by {
            reveal_with_fuel(pp_run, 3);
            assert(last[0] == cmds.last());
            assert(last.drop_first() =~= Seq::<Cmd>::empty());
        }
    }
}

} // verus!
