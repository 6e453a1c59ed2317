//! Properties of the decoder that hold for every command stream.
use vstd::prelude::*;

use crate::command::{Color, ExecutionCommand, PassMode, RenderCommand, CameraSlot};
use crate::renderer::{exec_step, render_run, render_step, DrawOp, RenderState};

verus! {

/// A command that only supplies an operand for text: a string or a vector.
pub open spec fn is_text_operand<V>(c: RenderCommand<V>) -> bool {
    c is PushString || c is PushVec2f
}

/// A command that neither draws nor changes the current colour: an operand
/// push, a camera selection or an ignored opcode.
pub open spec fn keeps_color<V>(c: RenderCommand<V>) -> bool {
    c is PushColor || c is PushVec2f || c is PushVec2i || c is PushInt32 || c is PushString
        || c is SetCamera || c is Other
}

/// The strings that a stream pushes, in order.
pub open spec fn pushed_strings<V>(cs: Seq<RenderCommand<V>>) -> Seq<String>
    decreases cs.len(),
{
    if cs.len() == 0 {
        Seq::empty()
    } else {
        let rest = pushed_strings(cs.drop_last());
        match cs.last() {
            RenderCommand::PushString(t) => rest.push(t),
            _ => rest,
        }
    }
}

/// The vectors that a stream pushes, in order.
pub open spec fn pushed_vectors<V>(cs: Seq<RenderCommand<V>>) -> Seq<V>
    decreases cs.len(),
{
    if cs.len() == 0 {
        Seq::empty()
    } else {
        let rest = pushed_vectors(cs.drop_last());
        match cs.last() {
            RenderCommand::PushVec2f(v) => rest.push(v),
            _ => rest,
        }
    }
}

/// The colour that an operation is drawn in, if it draws.
pub open spec fn op_color<V>(op: DrawOp<V>) -> Option<Color> {
    match op {
        DrawOp::Text { color, .. } => Some(color),
        DrawOp::Line { color, .. } => Some(color),
        DrawOp::Quad { color, .. } => Some(color),
        DrawOp::MeasureText { .. } => None,
    }
}

/// Running a stream with one more command at its end takes one more step.
pub proof fn lemma_run_push<V>(s: RenderState<V>, cs: Seq<RenderCommand<V>>, c: RenderCommand<V>, mode: PassMode)
    ensures
        render_run(s, cs.push(c), mode) == ({
            let before = render_run(s, cs, mode);
            let last = render_step(before.0, c, mode);
            (last.0, before.1 + last.1)
        }),
{
    assert(cs.push(c).drop_last() =~= cs);
}

/// Text operands only grow the string and vector stacks, in order, and
/// yield nothing.
pub proof fn lemma_run_text_operands<V>(s: RenderState<V>, cs: Seq<RenderCommand<V>>, mode: PassMode)
    requires
        forall|i: int| 0 <= i < cs.len() ==> is_text_operand(#[trigger] cs[i]),
    ensures
        render_run(s, cs, mode).0 == (RenderState {
            strings: s.strings + pushed_strings(cs),
            floats: s.floats + pushed_vectors(cs),
            ..s
        }),
        render_run(s, cs, mode).1 == Seq::<DrawOp<V>>::empty(),
    decreases cs.len(),
{
    if cs.len() == 0 {
        assert(s.strings + pushed_strings(cs) =~= s.strings);
        assert(s.floats + pushed_vectors(cs) =~= s.floats);
    } else {
        let init = cs.drop_last();
        assert forall|i: int| 0 <= i < init.len() implies is_text_operand(#[trigger] init[i]) by {
            assert(init[i] == cs[i]);
        }
        lemma_run_text_operands(s, init, mode);
        assert(cs.last() == cs[cs.len() - 1]);
        assert(is_text_operand(cs[cs.len() - 1]));
        match cs.last() {
            RenderCommand::PushString(t) => {
                assert(s.strings + pushed_strings(init).push(t) =~= (s.strings + pushed_strings(
                    init,
                )).push(t));
                assert(s.floats + pushed_vectors(cs) =~= s.floats + pushed_vectors(init));
            },
            RenderCommand::PushVec2f(v) => {
                assert(s.floats + pushed_vectors(init).push(v) =~= (s.floats + pushed_vectors(
                    init,
                )).push(v));
                assert(s.strings + pushed_strings(cs) =~= s.strings + pushed_strings(init));
            },
            _ => {},
        }
        assert(render_run(s, cs, mode).1 =~= Seq::<DrawOp<V>>::empty());
    }
}

/// Pushing `n` vectors onto an empty vector stack and then drawing lines
/// yields exactly `n / 2` lines, one for each consecutive pair of the pushed
/// vectors; a trailing unpaired vector is dropped.
pub proof fn lines_pair_pushed_vectors<V>(s: RenderState<V>, cs: Seq<RenderCommand<V>>)
    requires
        s.floats.len() == 0,
        forall|i: int| 0 <= i < cs.len() ==> #[trigger] cs[i] is PushVec2f,
    ensures
        ({
            let vs = pushed_vectors(cs);
            let out = render_run(s, cs.push(RenderCommand::DrawLines), PassMode::Paint).1;
            &&& vs.len() == cs.len()
            &&& out.len() == cs.len() / 2
            &&& forall|t: int|
                0 <= t < cs.len() / 2 ==> #[trigger] out[t] == (DrawOp::Line {
                    from: vs[2 * t],
                    to: vs[2 * t + 1],
                    camera: s.current_camera_position(),
                    color: s.color,
                })
        }),
{
    assert forall|i: int| 0 <= i < cs.len() implies is_text_operand(#[trigger] cs[i]) by {
        assert(cs[i] is PushVec2f);
    }
    lemma_run_text_operands(s, cs, PassMode::Paint);
    lemma_pushed_vectors_len(cs);
    lemma_run_push(s, cs, RenderCommand::DrawLines, PassMode::Paint);
    assert(s.floats + pushed_vectors(cs) =~= pushed_vectors(cs));
}

/// A stream of vector pushes pushes one vector per command.
pub proof fn lemma_pushed_vectors_len<V>(cs: Seq<RenderCommand<V>>)
    requires
        forall|i: int| 0 <= i < cs.len() ==> #[trigger] cs[i] is PushVec2f,
    ensures
        pushed_vectors(cs).len() == cs.len(),
    decreases cs.len(),
{
    if cs.len() > 0 {
        let init = cs.drop_last();
        assert forall|i: int| 0 <= i < init.len() implies #[trigger] init[i] is PushVec2f by {
            assert(init[i] == cs[i]);
        }
        lemma_pushed_vectors_len(init);
        assert(cs.last() == cs[cs.len() - 1]);
    }
}

/// With `k` strings and `k` vectors pushed onto empty stacks, in any
/// interleaving, draw-text attributes the `i`-th pushed string to the `i`-th
/// pushed vector, though both are walked from the end: the paint pass draws it
/// at that position and the measurement pass measures it at the same turn.
pub proof fn text_keeps_push_order<V>(s: RenderState<V>, cs: Seq<RenderCommand<V>>)
    requires
        s.strings.len() == 0,
        s.floats.len() == 0,
        forall|i: int| 0 <= i < cs.len() ==> is_text_operand(#[trigger] cs[i]),
        pushed_strings(cs).len() == pushed_vectors(cs).len(),
    ensures
        ({
            let strs = pushed_strings(cs);
            let pos = pushed_vectors(cs);
            let k = strs.len() as int;
            let painted = render_run(s, cs.push(RenderCommand::DrawText), PassMode::Paint).1;
            let measured = render_run(s, cs.push(RenderCommand::DrawText), PassMode::Measure).1;
            &&& painted.len() == k
            &&& measured.len() == k
            &&& forall|i: int|
                0 <= i < k ==> #[trigger] painted[k - 1 - i] == (DrawOp::Text {
                    text: strs[i],
                    position: Some(pos[i]),
                    camera: s.current_camera_position(),
                    color: s.color,
                })
            &&& forall|i: int|
                0 <= i < k ==> #[trigger] measured[k - 1 - i] == (DrawOp::<V>::MeasureText {
                    text: strs[i],
                })
        }),
{
    lemma_run_text_operands(s, cs, PassMode::Paint);
    lemma_run_text_operands(s, cs, PassMode::Measure);
    lemma_run_push(s, cs, RenderCommand::DrawText, PassMode::Paint);
    lemma_run_push(s, cs, RenderCommand::DrawText, PassMode::Measure);
    assert(s.strings + pushed_strings(cs) =~= pushed_strings(cs));
    assert(s.floats + pushed_vectors(cs) =~= pushed_vectors(cs));
}

/// Commands that keep the colour yield nothing and leave the colour as it is.
pub proof fn lemma_run_keeps_color<V>(s: RenderState<V>, cs: Seq<RenderCommand<V>>)
    requires
        forall|i: int| 0 <= i < cs.len() ==> keeps_color(#[trigger] cs[i]),
    ensures
        render_run(s, cs, PassMode::Paint).0.color == s.color,
        render_run(s, cs, PassMode::Paint).1 == Seq::<DrawOp<V>>::empty(),
    decreases cs.len(),
{
    if cs.len() > 0 {
        let init = cs.drop_last();
        assert forall|i: int| 0 <= i < init.len() implies keeps_color(#[trigger] init[i]) by {
            assert(init[i] == cs[i]);
        }
        lemma_run_keeps_color(s, init);
        assert(cs.last() == cs[cs.len() - 1]);
        assert(keeps_color(cs[cs.len() - 1]));
        assert(render_run(s, cs, PassMode::Paint).1 =~= Seq::<DrawOp<V>>::empty());
    }
}

/// The colour that set-color-uniform selects is the colour of every line or
/// rectangle of the next draw-lines or draw-quads, whatever operand pushes
/// and camera selections stand between; that draw ends with the flush that
/// restores opaque black.
pub proof fn color_persists_until_flush<V>(
    s: RenderState<V>,
    cs: Seq<RenderCommand<V>>,
    draw: RenderCommand<V>,
)
    requires
        s.colors.len() > 0,
        forall|i: int| 0 <= i < cs.len() ==> keeps_color(#[trigger] cs[i]),
        draw is DrawLines || draw is DrawQuads,
    ensures
        ({
            let stream = seq![RenderCommand::SetColorUniform] + cs;
            let out = render_run(s, stream.push(draw), PassMode::Paint).1;
            forall|t: int| 0 <= t < out.len() ==> op_color(#[trigger] out[t]) == Some(s.colors[0])
        }),
{
    let first = seq![RenderCommand::<V>::SetColorUniform];
    let stream = first + cs;
    let s1 = render_step(s, RenderCommand::SetColorUniform, PassMode::Paint).0;
    assert(render_run(s, first, PassMode::Paint) == (s1, Seq::<DrawOp<V>>::empty())) by {
        let none = Seq::<RenderCommand<V>>::empty();
        lemma_run_push(s, none, RenderCommand::SetColorUniform, PassMode::Paint);
        assert(none.push(RenderCommand::SetColorUniform) =~= first);
        assert(Seq::<DrawOp<V>>::empty() + Seq::<DrawOp<V>>::empty() =~= Seq::<DrawOp<V>>::empty());
    }
    lemma_run_append(s, first, cs, PassMode::Paint);
    lemma_run_keeps_color(s1, cs);
    lemma_run_push(s, stream, draw, PassMode::Paint);
    let out = render_run(s, stream.push(draw), PassMode::Paint).1;
    assert(out =~= render_step(render_run(s1, cs, PassMode::Paint).0, draw, PassMode::Paint).1);
}

/// Running two streams one after the other is running their concatenation.
pub proof fn lemma_run_append<V>(
    s: RenderState<V>,
    a: Seq<RenderCommand<V>>,
    b: Seq<RenderCommand<V>>,
    mode: PassMode,
)
    ensures
        render_run(s, a + b, mode) == ({
            let first = render_run(s, a, mode);
            let second = render_run(first.0, b, mode);
            (second.0, first.1 + second.1)
        }),
    decreases b.len(),
{
    if b.len() == 0 {
        assert(a + b =~= a);
        assert(render_run(s, a, mode).1 + Seq::<DrawOp<V>>::empty() =~= render_run(s, a, mode).1);
    } else {
        let init = b.drop_last();
        lemma_run_append(s, a, init, mode);
        assert((a + b).drop_last() =~= a + init);
        assert((a + b).last() == b.last());
        let first = render_run(s, a, mode);
        let mid = render_run(first.0, init, mode);
        let last = render_step(mid.0, b.last(), mode);
        assert(first.1 + (mid.1 + last.1) =~= (first.1 + mid.1) + last.1);
    }
}

/// After draw-text, and after draw-lines, draw-quads and draw-points in a
/// paint pass, all five stacks are empty and the colour is opaque black;
/// set-camera empties only the integer stack and set-color-uniform only the
/// colour stack, and both keep the other state. The camera update of the
/// execution stream flushes too.
pub proof fn actions_flush_stacks<V>(s: RenderState<V>, c: RenderCommand<V>, mode: PassMode)
    ensures
        ({
            let after = render_step(s, c, mode).0;
            &&& (c is DrawText || (mode == PassMode::Paint && (c is DrawLines || c is DrawQuads
                || c is DrawPoints))) ==> after.stacks_empty() && after.color
                == Color::black_spec()
            &&& c is SetCamera ==> after.ints.len() == 0 && after == (RenderState {
                ints: Seq::empty(),
                camera: after.camera,
                ..s
            })
            &&& (mode == PassMode::Paint && c is SetColorUniform) ==> after.colors.len() == 0
                && after == (RenderState { colors: Seq::empty(), color: after.color, ..s })
        }),
        exec_step(s, ExecutionCommand::UpdateCameraPosition).stacks_empty(),
        exec_step(s, ExecutionCommand::UpdateCameraPosition).color == Color::black_spec(),
{
}

/// A camera update writes only its target slot: the position of the other
/// slot is unchanged, and the target takes the first pushed vector.
pub proof fn camera_update_isolated<V>(s: RenderState<V>, other: CameraSlot)
    requires
        other != s.update_target(),
    ensures
        exec_step(s, ExecutionCommand::UpdateCameraPosition).camera_position(other)
            == s.camera_position(other),
        s.floats.len() > 0 ==> exec_step(s, ExecutionCommand::UpdateCameraPosition).camera_position(
            s.update_target(),
        ) == s.floats[0],
{
}

} // verus!
