//! The command vocabulary of the two streams and the payload types that the
//! decoder interprets itself.
use vstd::prelude::*;

verus! {

/// An RGBA colour with eight bits per channel.
#[derive(Clone, Copy, Debug, PartialEq, Eq, Structural)]
pub struct Color {
    pub r: u8,
    pub g: u8,
    pub b: u8,
    pub a: u8,
}

impl Color {
    /// The colour that a flush restores: opaque black.
    pub open spec fn black_spec() -> Color {
        Color { r: 0, g: 0, b: 0, a: 255 }
    }

    pub fn black() -> (c: Color)
        ensures
            c == Color::black_spec(),
    {
        Color { r: 0, g: 0, b: 0, a: 255 }
    }

    pub fn rgba(r: u8, g: u8, b: u8, a: u8) -> (c: Color)
        ensures
            c == (Color { r, g, b, a }),
    {
        Color { r, g, b, a }
    }
}

/// A two-dimensional integer vector.
#[derive(Clone, Copy, Debug, PartialEq, Eq, Structural)]
pub struct Vec2i {
    pub x: i32,
    pub y: i32,
}

/// One of the two camera slots.
#[derive(Clone, Copy, Debug, PartialEq, Eq, Structural)]
pub enum CameraSlot {
    First,
    Second,
}

/// The slot that a camera index from the command stream selects. Only indices
/// 0 and 1 name a slot; any other index is clamped into that range.
pub open spec fn slot_of(index: int) -> CameraSlot {
    if index <= 0 {
        CameraSlot::First
    } else {
        CameraSlot::Second
    }
}

pub fn camera_slot(index: i32) -> (slot: CameraSlot)
    ensures
        slot == slot_of(index as int),
{
    if index <= 0 {
        CameraSlot::First
    } else {
        CameraSlot::Second
    }
}

/// Which of the two decode passes over the render stream is running.
#[derive(Clone, Copy, Debug, PartialEq, Eq, Structural)]
pub enum PassMode {
    /// Text is measured and its size reported back; nothing is drawn.
    Measure,
    /// Operations are drawn on the host surface.
    Paint,
}

/// An entry of the render stream.
#[derive(Clone, Debug, PartialEq)]
pub enum RenderCommand<V> {
    PushColor(Color),
    PushVec2f(V),
    PushVec2i(Vec2i),
    PushInt32(i32),
    PushString(String),
    DrawText,
    DrawLines,
    DrawQuads,
    DrawPoints,
    SetCamera,
    SetColorUniform,
    /// An opcode that this decoder does not act on; it is skipped.
    Other,
}

/// An entry of the execution stream.
#[derive(Clone, Debug, PartialEq)]
pub enum ExecutionCommand<V> {
    PushVec2f(V),
    PushInt32(i32),
    UpdateCameraPosition,
    /// An opcode that this decoder does not act on; it is skipped.
    Other,
}

} // verus!
