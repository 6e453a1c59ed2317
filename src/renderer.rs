//! The decoder of the command streams: five operand stacks, the camera
//! registry and the current colour, and the operations that each command
//! yields in a measurement or a paint pass.
use vstd::prelude::*;

use crate::command::{
    camera_slot, slot_of, CameraSlot, Color, ExecutionCommand, PassMode, RenderCommand, Vec2i,
};

verus! {

/// An operation that a decode pass hands to the host.
#[derive(Clone, Debug, PartialEq)]
pub enum DrawOp<V> {
    /// Draw `text` in `color` at `camera` moved by `position`, or at `camera`
    /// itself where no position was pushed for it.
    Text { text: String, position: Option<V>, camera: V, color: Color },
    /// Stroke a line one unit wide from `from` to `to`, both moved by `camera`
    /// and snapped to pixel centres.
    Line { from: V, to: V, camera: V, color: Color },
    /// Fill the axis-aligned rectangle of extent `size` whose corner is
    /// `origin` moved by `camera`.
    Quad { origin: V, size: V, camera: V, color: Color },
    /// Measure `text` and report its size to the engine.
    MeasureText { text: String },
}

/// What a decoder holds: its operand stacks, in arrival order, the two camera
/// positions, the selected camera and the current colour.
pub struct RenderState<V> {
    pub ints: Seq<i32>,
    pub floats: Seq<V>,
    pub int_vecs: Seq<Vec2i>,
    pub colors: Seq<Color>,
    pub strings: Seq<String>,
    pub first_camera: V,
    pub second_camera: V,
    pub camera: CameraSlot,
    pub color: Color,
}

impl<V> RenderState<V> {
    /// Empty stacks, both cameras at `origin`, the first camera selected and
    /// opaque black as the colour.
    pub open spec fn initial(origin: V) -> Self {
        RenderState {
            ints: Seq::empty(),
            floats: Seq::empty(),
            int_vecs: Seq::empty(),
            colors: Seq::empty(),
            strings: Seq::empty(),
            first_camera: origin,
            second_camera: origin,
            camera: CameraSlot::First,
            color: Color::black_spec(),
        }
    }

    pub open spec fn stacks_empty(self) -> bool {
        &&& self.ints.len() == 0
        &&& self.floats.len() == 0
        &&& self.int_vecs.len() == 0
        &&& self.colors.len() == 0
        &&& self.strings.len() == 0
    }

    /// All five stacks emptied and the colour reset to opaque black; the
    /// cameras are kept.
    pub open spec fn flushed(self) -> Self {
        RenderState {
            ints: Seq::empty(),
            floats: Seq::empty(),
            int_vecs: Seq::empty(),
            colors: Seq::empty(),
            strings: Seq::empty(),
            color: Color::black_spec(),
            ..self
        }
    }

    pub open spec fn camera_position(self, slot: CameraSlot) -> V {
        match slot {
            CameraSlot::First => self.first_camera,
            CameraSlot::Second => self.second_camera,
        }
    }

    pub open spec fn current_camera_position(self) -> V {
        self.camera_position(self.camera)
    }

    pub open spec fn with_camera_position(self, slot: CameraSlot, position: V) -> Self {
        match slot {
            CameraSlot::First => RenderState { first_camera: position, ..self },
            CameraSlot::Second => RenderState { second_camera: position, ..self },
        }
    }

    /// The slot that a camera update writes: the one that the first pushed
    /// integer names, else the selected one.
    pub open spec fn update_target(self) -> CameraSlot {
        if self.ints.len() > 0 {
            slot_of(self.ints[0] as int)
        } else {
            self.camera
        }
    }

    /// Effect of a camera update: the target slot takes the first pushed
    /// vector, if there is one, and then everything is flushed.
    pub open spec fn camera_updated(self) -> Self {
        if self.floats.len() > 0 {
            self.with_camera_position(self.update_target(), self.floats[0]).flushed()
        } else {
            self.flushed()
        }
    }

    /// Effect of set-camera: the first pushed integer, if any, selects the
    /// camera; the integer stack is emptied.
    pub open spec fn camera_selected(self) -> Self {
        RenderState {
            ints: Seq::empty(),
            camera: if self.ints.len() > 0 {
                slot_of(self.ints[0] as int)
            } else {
                self.camera
            },
            ..self
        }
    }

    /// Effect of set-color-uniform: the first pushed colour, if any, becomes
    /// current; the colour stack is emptied.
    pub open spec fn color_selected(self) -> Self {
        RenderState {
            colors: Seq::empty(),
            color: if self.colors.len() > 0 {
                self.colors[0]
            } else {
                self.color
            },
            ..self
        }
    }
}

/// Text drawn by draw-text: the strings from the last pushed to the first,
/// each with the vector that lies as far from the end of the vector stack as
/// the string does from the end of the string stack, if there is one.
pub open spec fn text_ops<V>(s: RenderState<V>) -> Seq<DrawOp<V>> {
    let k = s.strings.len() as int;
    let m = s.floats.len() as int;
    Seq::new(
        k as nat,
        |t: int|
            DrawOp::Text {
                text: s.strings[k - 1 - t],
                position: if t < m {
                    Some(s.floats[m - 1 - t])
                } else {
                    None
                },
                camera: s.current_camera_position(),
                color: s.color,
            },
    )
}

/// Measurements asked for by draw-text in a measurement pass: the strings from
/// the last pushed to the first.
pub open spec fn measure_ops<V>(s: RenderState<V>) -> Seq<DrawOp<V>> {
    let k = s.strings.len() as int;
    Seq::new(k as nat, |t: int| DrawOp::MeasureText { text: s.strings[k - 1 - t] })
}

/// Lines drawn by draw-lines: one for each consecutive pair of pushed
/// vectors; a trailing unpaired vector is dropped.
pub open spec fn line_ops<V>(s: RenderState<V>) -> Seq<DrawOp<V>> {
    Seq::new(
        s.floats.len() / 2,
        |t: int|
            DrawOp::Line {
                from: s.floats[2 * t],
                to: s.floats[2 * t + 1],
                camera: s.current_camera_position(),
                color: s.color,
            },
    )
}

/// Rectangles filled by draw-quads: one for each consecutive pair (corner,
/// size) of pushed vectors; a trailing unpaired vector is dropped.
pub open spec fn quad_ops<V>(s: RenderState<V>) -> Seq<DrawOp<V>> {
    Seq::new(
        s.floats.len() / 2,
        |t: int|
            DrawOp::Quad {
                origin: s.floats[2 * t],
                size: s.floats[2 * t + 1],
                camera: s.current_camera_position(),
                color: s.color,
            },
    )
}

/// What an action that draws does in each pass: in a paint pass it yields
/// `ops` and flushes; in a measurement pass it is skipped.
pub open spec fn paint_action<V>(s: RenderState<V>, mode: PassMode, ops: Seq<DrawOp<V>>) -> (
    RenderState<V>,
    Seq<DrawOp<V>>,
) {
    match mode {
        PassMode::Measure => (s, Seq::empty()),
        PassMode::Paint => (s.flushed(), ops),
    }
}

/// The state after one render command, and the operations it yields.
pub open spec fn render_step<V>(s: RenderState<V>, c: RenderCommand<V>, mode: PassMode) -> (
    RenderState<V>,
    Seq<DrawOp<V>>,
) {
    match c {
        RenderCommand::PushColor(x) => (RenderState { colors: s.colors.push(x), ..s }, Seq::empty()),
        RenderCommand::PushVec2f(v) => (RenderState { floats: s.floats.push(v), ..s }, Seq::empty()),
        RenderCommand::PushVec2i(v) => (
            RenderState { int_vecs: s.int_vecs.push(v), ..s },
            Seq::empty(),
        ),
        RenderCommand::PushInt32(i) => (RenderState { ints: s.ints.push(i), ..s }, Seq::empty()),
        RenderCommand::PushString(t) => (
            RenderState { strings: s.strings.push(t), ..s },
            Seq::empty(),
        ),
        RenderCommand::DrawText => (
            s.flushed(),
            match mode {
                PassMode::Measure => measure_ops(s),
                PassMode::Paint => text_ops(s),
            },
        ),
        RenderCommand::DrawLines => paint_action(s, mode, line_ops(s)),
        RenderCommand::DrawQuads => paint_action(s, mode, quad_ops(s)),
        RenderCommand::DrawPoints => paint_action(s, mode, Seq::empty()),
        RenderCommand::SetCamera => (s.camera_selected(), Seq::empty()),
        RenderCommand::SetColorUniform => (
            match mode {
                PassMode::Measure => s,
                PassMode::Paint => s.color_selected(),
            },
            Seq::empty(),
        ),
        RenderCommand::Other => (s, Seq::empty()),
    }
}

/// The state after a render stream, in order, and all the operations it
/// yields, in order.
pub open spec fn render_run<V>(s: RenderState<V>, cs: Seq<RenderCommand<V>>, mode: PassMode) -> (
    RenderState<V>,
    Seq<DrawOp<V>>,
)
    decreases cs.len(),
{
    if cs.len() == 0 {
        (s, Seq::empty())
    } else {
        let before = render_run(s, cs.drop_last(), mode);
        let last = render_step(before.0, cs.last(), mode);
        (last.0, before.1 + last.1)
    }
}

/// The state after one execution command.
pub open spec fn exec_step<V>(s: RenderState<V>, c: ExecutionCommand<V>) -> RenderState<V> {
    match c {
        ExecutionCommand::PushVec2f(v) => RenderState { floats: s.floats.push(v), ..s },
        ExecutionCommand::PushInt32(i) => RenderState { ints: s.ints.push(i), ..s },
        ExecutionCommand::UpdateCameraPosition => s.camera_updated(),
        ExecutionCommand::Other => s,
    }
}

/// The state after an execution stream, in order.
pub open spec fn exec_run<V>(s: RenderState<V>, cs: Seq<ExecutionCommand<V>>) -> RenderState<V>
    decreases cs.len(),
{
    if cs.len() == 0 {
        s
    } else {
        exec_step(exec_run(s, cs.drop_last()), cs.last())
    }
}

/// The decoder's executable state.
pub struct Renderer<V> {
    first_camera: V,
    second_camera: V,
    current_camera: CameraSlot,
    current_color: Color,
    int32_data: Vec<i32>,
    vec2f_data: Vec<V>,
    vec2i_data: Vec<Vec2i>,
    color_data: Vec<Color>,
    str_data: Vec<String>,
}

impl<V> View for Renderer<V> {
    type V = RenderState<V>;

    closed spec fn view(&self) -> RenderState<V> {
        RenderState {
            ints: self.int32_data@,
            floats: self.vec2f_data@,
            int_vecs: self.vec2i_data@,
            colors: self.color_data@,
            strings: self.str_data@,
            first_camera: self.first_camera,
            second_camera: self.second_camera,
            camera: self.current_camera,
            color: self.current_color,
        }
    }
}

impl<V: Copy> Renderer<V> {
    /// A decoder with empty stacks whose two cameras stand at `origin`.
    pub fn new(origin: V) -> (r: Self)
        ensures
            r@ == RenderState::initial(origin),
    {
        Renderer {
            first_camera: origin,
            second_camera: origin,
            current_camera: CameraSlot::First,
            current_color: Color::black(),
            int32_data: Vec::new(),
            vec2f_data: Vec::new(),
            vec2i_data: Vec::new(),
            color_data: Vec::new(),
            str_data: Vec::new(),
        }
    }

    /// Empties the five stacks and resets the colour to opaque black.
    pub fn flush(&mut self)
        ensures
            final(self)@ == old(self)@.flushed(),
    {
        self.current_color = Color::black();
        self.int32_data.clear();
        self.vec2f_data.clear();
        self.vec2i_data.clear();
        self.color_data.clear();
        self.str_data.clear();
    }

    /// Position of the selected camera.
    pub fn camera_position(&self) -> (p: V)
        ensures
            p == self@.current_camera_position(),
    {
        match self.current_camera {
            CameraSlot::First => self.first_camera,
            CameraSlot::Second => self.second_camera,
        }
    }

    fn draw_text(&mut self, ops: &mut Vec<DrawOp<V>>)
        ensures
            final(self)@ == old(self)@.flushed(),
            final(ops)@ == old(ops)@ + text_ops(old(self)@),
    {
        let camera = self.camera_position();
        let color = self.current_color;
        let k = self.str_data.len();
        let m = self.vec2f_data.len();
        let ghost start = self@;
        let ghost expected = text_ops(start);
        let mut t: usize = 0;
        while t < k
            invariant
                t <= k,
                self@ == start,
                start == old(self)@,
                expected == text_ops(start),
                k == start.strings.len(),
                m == start.floats.len(),
                camera == start.current_camera_position(),
                color == start.color,
                ops@ == old(ops)@ + expected.take(t as int),
            decreases k - t,
        {
            let position = if t < m {
                Some(self.vec2f_data[m - 1 - t])
            } else {
                None
            };
            let text = self.str_data[k - 1 - t].clone();
            ops.push(DrawOp::Text { text, position, camera, color });
            proof {
                assert(expected.take(t + 1) =~= expected.take(t as int).push(expected[t as int]));
            }
            t = t + 1;
        }
        proof {
            assert(expected.take(k as int) =~= expected);
        }
        self.flush();
    }
    fn render_state_text(&mut self, ops: &mut Vec<DrawOp<V>>)
        ensures
            final(self)@ == old(self)@.flushed(),
            final(ops)@ == old(ops)@ + measure_ops(old(self)@),
    {
        let k = self.str_data.len();
        let ghost start = self@;
        let ghost expected = measure_ops(start);
        let mut t: usize = 0;
        while t < k
            invariant
                t <= k,
                self@ == start,
                start == old(self)@,
                expected == measure_ops(start),
                k == start.strings.len(),
                ops@ == old(ops)@ + expected.take(t as int),
            decreases k - t,
        {
            let text = self.str_data[k - 1 - t].clone();
            ops.push(DrawOp::MeasureText { text });
            proof {
                assert(expected.take(t + 1) =~= expected.take(t as int).push(expected[t as int]));
            }
            t = t + 1;
        }
        proof {
            assert(expected.take(k as int) =~= expected);
        }
        self.flush();
    }

    fn draw_lines(&mut self, ops: &mut Vec<DrawOp<V>>)
        ensures
            final(self)@ == old(self)@.flushed(),
            final(ops)@ == old(ops)@ + line_ops(old(self)@),
    {
        let camera = self.camera_position();
        let color = self.current_color;
        let pairs = self.vec2f_data.len() / 2;
        let ghost start = self@;
        let ghost expected = line_ops(start);
        let mut t: usize = 0;
        while t < pairs
            invariant
                t <= pairs,
                self@ == start,
                start == old(self)@,
                expected == line_ops(start),
                pairs == start.floats.len() / 2,
                camera == start.current_camera_position(),
                color == start.color,
                ops@ == old(ops)@ + expected.take(t as int),
            decreases pairs - t,
        {
            proof {
                assert(self.vec2f_data@ == start.floats);
                assert(2 * t + 1 < self.vec2f_data.len());
            }
            let from = self.vec2f_data[2 * t];
            let to = self.vec2f_data[2 * t + 1];
            ops.push(DrawOp::Line { from, to, camera, color });
            proof {
                assert(expected.take(t + 1) =~= expected.take(t as int).push(expected[t as int]));
            }
            t = t + 1;
        }
        proof {
            assert(expected.take(pairs as int) =~= expected);
        }
        self.flush();
    }

    fn draw_quads(&mut self, ops: &mut Vec<DrawOp<V>>)
        ensures
            final(self)@ == old(self)@.flushed(),
            final(ops)@ == old(ops)@ + quad_ops(old(self)@),
    {
        let camera = self.camera_position();
        let color = self.current_color;
        let pairs = self.vec2f_data.len() / 2;
        let ghost start = self@;
        let ghost expected = quad_ops(start);
        let mut t: usize = 0;
        while t < pairs
            invariant
                t <= pairs,
                self@ == start,
                start == old(self)@,
                expected == quad_ops(start),
                pairs == start.floats.len() / 2,
                camera == start.current_camera_position(),
                color == start.color,
                ops@ == old(ops)@ + expected.take(t as int),
            decreases pairs - t,
        {
            proof {
                assert(self.vec2f_data@ == start.floats);
                assert(2 * t + 1 < self.vec2f_data.len());
            }
            let origin = self.vec2f_data[2 * t];
            let size = self.vec2f_data[2 * t + 1];
            ops.push(DrawOp::Quad { origin, size, camera, color });
            proof {
                assert(expected.take(t + 1) =~= expected.take(t as int).push(expected[t as int]));
            }
            t = t + 1;
        }
        proof {
            assert(expected.take(pairs as int) =~= expected);
        }
        self.flush();
    }

    /// Points are not drawn; the command only flushes.
    fn draw_points(&mut self)
        ensures
            final(self)@ == old(self)@.flushed(),
    {
        self.flush();
    }

    fn set_camera(&mut self)
        ensures
            final(self)@ == old(self)@.camera_selected(),
    {
        if self.int32_data.len() > 0 {
            self.current_camera = camera_slot(self.int32_data[0]);
        }
        self.int32_data.clear();
    }

    fn set_color_uniform(&mut self)
        ensures
            final(self)@ == old(self)@.color_selected(),
    {
        if self.color_data.len() > 0 {
            self.current_color = self.color_data[0];
        }
        self.color_data.clear();
    }

    fn update_camera_position(&mut self)
        ensures
            final(self)@ == old(self)@.camera_updated(),
    {
        if self.vec2f_data.len() > 0 {
            let slot = if self.int32_data.len() > 0 {
                camera_slot(self.int32_data[0])
            } else {
                self.current_camera
            };
            let position = self.vec2f_data[0];
            match slot {
                CameraSlot::First => self.first_camera = position,
                CameraSlot::Second => self.second_camera = position,
            }
        }
        self.flush();
    }
    fn apply_render_command(&mut self, c: &RenderCommand<V>, mode: PassMode, ops: &mut Vec<DrawOp<V>>)
        ensures
            final(self)@ == render_step(old(self)@, *c, mode).0,
            final(ops)@ == old(ops)@ + render_step(old(self)@, *c, mode).1,
    {
        match c {
            RenderCommand::PushColor(x) => self.color_data.push(*x),
            RenderCommand::PushVec2f(v) => self.vec2f_data.push(*v),
            RenderCommand::PushVec2i(v) => self.vec2i_data.push(*v),
            RenderCommand::PushInt32(i) => self.int32_data.push(*i),
            RenderCommand::PushString(t) => self.str_data.push(t.clone()),
            RenderCommand::DrawText => match mode {
                PassMode::Measure => self.render_state_text(ops),
                PassMode::Paint => self.draw_text(ops),
            },
            RenderCommand::DrawLines => match mode {
                PassMode::Measure => {},
                PassMode::Paint => self.draw_lines(ops),
            },
            RenderCommand::DrawQuads => match mode {
                PassMode::Measure => {},
                PassMode::Paint => self.draw_quads(ops),
            },
            RenderCommand::DrawPoints => match mode {
                PassMode::Measure => {},
                PassMode::Paint => self.draw_points(),
            },
            RenderCommand::SetCamera => self.set_camera(),
            RenderCommand::SetColorUniform => match mode {
                PassMode::Measure => {},
                PassMode::Paint => self.set_color_uniform(),
            },
            RenderCommand::Other => {},
        }
    }

    /// Decodes a render stream in one pass of the given kind and returns the
    /// operations for the host, in order.
    pub fn decode_render(&mut self, commands: &Vec<RenderCommand<V>>, mode: PassMode) -> (ops: Vec<
        DrawOp<V>,
    >)
        ensures
            (final(self)@, ops@) == render_run(old(self)@, commands@, mode),
    {
        let mut ops: Vec<DrawOp<V>> = Vec::new();
        let mut i: usize = 0;
        while i < commands.len()
            invariant
                i <= commands.len(),
                (self@, ops@) == render_run(old(self)@, commands@.take(i as int), mode),
            decreases commands.len() - i,
        {
            proof {
                assert(commands@.take(i + 1).drop_last() =~= commands@.take(i as int));
            }
            self.apply_render_command(&commands[i], mode, &mut ops);
            i = i + 1;
        }
        proof {
            assert(commands@.take(commands.len() as int) =~= commands@);
        }
        ops
    }

    /// The measurement pass over the render stream.
    pub fn handle_render_state(&mut self, commands: &Vec<RenderCommand<V>>) -> (ops: Vec<DrawOp<V>>)
        ensures
            (final(self)@, ops@) == render_run(old(self)@, commands@, PassMode::Measure),
    {
        self.decode_render(commands, PassMode::Measure)
    }

    /// The paint pass over the render stream.
    pub fn handle_render_commands(&mut self, commands: &Vec<RenderCommand<V>>) -> (ops: Vec<DrawOp<V>>)
        ensures
            (final(self)@, ops@) == render_run(old(self)@, commands@, PassMode::Paint),
    {
        self.decode_render(commands, PassMode::Paint)
    }

    fn apply_exec_command(&mut self, c: &ExecutionCommand<V>)
        ensures
            final(self)@ == exec_step(old(self)@, *c),
    {
        match c {
            ExecutionCommand::PushVec2f(v) => self.vec2f_data.push(*v),
            ExecutionCommand::PushInt32(i) => self.int32_data.push(*i),
            ExecutionCommand::UpdateCameraPosition => self.update_camera_position(),
            ExecutionCommand::Other => {},
        }
    }

    /// Decodes the execution stream, which moves the cameras.
    pub fn handle_exec_commands(&mut self, commands: &Vec<ExecutionCommand<V>>)
        ensures
            final(self)@ == exec_run(old(self)@, commands@),
    {
        let mut i: usize = 0;
        while i < commands.len()
            invariant
                i <= commands.len(),
                self@ == exec_run(old(self)@, commands@.take(i as int)),
            decreases commands.len() - i,
        {
            proof {
                assert(commands@.take(i + 1).drop_last() =~= commands@.take(i as int));
            }
            self.apply_exec_command(&commands[i]);
            i = i + 1;
        }
        proof {
            assert(commands@.take(commands.len() as int) =~= commands@);
        }
    }

    /// Starts a frame: the stacks are flushed, the colour is reset and the
    /// first camera is selected; camera positions are kept.
    pub fn start_frame(&mut self)
        ensures
            final(self)@ == (RenderState { camera: CameraSlot::First, ..old(self)@.flushed() }),
    {
        self.flush();
        self.current_camera = CameraSlot::First;
    }
    /// The current colour.
    pub fn color(&self) -> (c: Color)
        ensures
            c == self@.color,
    {
        self.current_color
    }

    /// The selected camera.
    pub fn camera(&self) -> (slot: CameraSlot)
        ensures
            slot == self@.camera,
    {
        self.current_camera
    }

    /// Position of the camera in `slot`.
    pub fn position_of(&self, slot: CameraSlot) -> (p: V)
        ensures
            p == self@.camera_position(slot),
    {
        match slot {
            CameraSlot::First => self.first_camera,
            CameraSlot::Second => self.second_camera,
        }
    }

    /// Heights of the integer, vector, integer-vector, colour and string
    /// stacks.
    pub fn stack_lengths(&self) -> (r: (usize, usize, usize, usize, usize))
        ensures
            r.0 == self@.ints.len(),
            r.1 == self@.floats.len(),
            r.2 == self@.int_vecs.len(),
            r.3 == self@.colors.len(),
            r.4 == self@.strings.len(),
    {
        (
            self.int32_data.len(),
            self.vec2f_data.len(),
            self.vec2i_data.len(),
            self.color_data.len(),
            self.str_data.len(),
        )
    }

    /// Whether all five stacks are empty.
    pub fn stacks_empty(&self) -> (b: bool)
        ensures
            b == self@.stacks_empty(),
    {
        self.int32_data.len() == 0 && self.vec2f_data.len() == 0 && self.vec2i_data.len() == 0
            && self.color_data.len() == 0 && self.str_data.len() == 0
    }
}

} // verus!
