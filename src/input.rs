//! Pointer events of the host, as touch requests for the engine.
use vstd::prelude::*;

verus! {

/// A pointer event at a position local to the viewport.
#[derive(Clone, Copy, Debug, PartialEq)]
pub enum PointerEvent<V> {
    Down(V),
    Up(V),
    Move(V),
}

/// A touch request for the engine.
#[derive(Clone, Copy, Debug, PartialEq)]
pub enum TouchRequest<V> {
    Start(V),
    Move(V),
    End(V),
}

/// The touch request for a pointer event: a press starts a touch, a release
/// ends it and a move moves it, at the same position. Cameras play no part.
pub fn touch_request<V: Copy>(event: PointerEvent<V>) -> (r: TouchRequest<V>)
    ensures
        match event {
            PointerEvent::Down(p) => r == TouchRequest::Start(p),
            PointerEvent::Up(p) => r == TouchRequest::End(p),
            PointerEvent::Move(p) => r == TouchRequest::Move(p),
        },
{
    match event {
        PointerEvent::Down(p) => TouchRequest::Start(p),
        PointerEvent::Up(p) => TouchRequest::End(p),
        PointerEvent::Move(p) => TouchRequest::Move(p),
    }
}

} // verus!
