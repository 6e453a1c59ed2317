//! The fixed order of the work done on each paint tick.
use vstd::prelude::*;

verus! {

/// One step of a frame.
#[derive(Clone, Copy, Debug, PartialEq, Eq, Structural)]
pub enum FrameStep {
    /// Tell the engine the size of the viewport.
    ReportViewport,
    /// Tell the engine a frame begins, and start the decoder's frame.
    FrameStart,
    /// Advance the simulation.
    Step,
    /// Decode the execution stream, which moves the cameras.
    DrainExecution,
    /// Let the engine drop the stream it handed out.
    EngineFlush,
    /// Have the engine produce the render stream for measuring.
    RenderPass1,
    /// Decode the render stream in a measurement pass and report each size.
    MeasurePass,
    /// Flush the decoder's stacks and colour.
    LocalFlush,
    /// Have the engine produce the final render stream from the sizes.
    RenderPass2,
    /// Let the engine drop the state of the measurement pass.
    RenderStateFlush,
    /// Clip to the viewport and fill its background.
    FillBackground,
    /// Decode the render stream in a paint pass and draw each operation.
    PaintPass,
    /// Tell the engine the frame ended.
    FrameEnd,
}

/// The steps of a frame, in order: text is measured in a first pass over the
/// render stream, and only drawn in a second one, after the engine has placed
/// it with the sizes reported.
pub open spec fn frame_plan() -> Seq<FrameStep> {
    seq![
        FrameStep::ReportViewport,
        FrameStep::FrameStart,
        FrameStep::Step,
        FrameStep::DrainExecution,
        FrameStep::EngineFlush,
        FrameStep::RenderPass1,
        FrameStep::MeasurePass,
        FrameStep::LocalFlush,
        FrameStep::EngineFlush,
        FrameStep::RenderPass2,
        FrameStep::RenderStateFlush,
        FrameStep::FillBackground,
        FrameStep::PaintPass,
        FrameStep::FrameEnd,
    ]
}

/// The steps that one paint tick performs, in order.
pub fn frame_steps() -> (steps: Vec<FrameStep>)
    ensures
        steps@ == frame_plan(),
{
    let mut steps: Vec<FrameStep> = Vec::new();
    steps.push(FrameStep::ReportViewport);
    steps.push(FrameStep::FrameStart);
    steps.push(FrameStep::Step);
    steps.push(FrameStep::DrainExecution);
    steps.push(FrameStep::EngineFlush);
    steps.push(FrameStep::RenderPass1);
    steps.push(FrameStep::MeasurePass);
    steps.push(FrameStep::LocalFlush);
    steps.push(FrameStep::EngineFlush);
    steps.push(FrameStep::RenderPass2);
    steps.push(FrameStep::RenderStateFlush);
    steps.push(FrameStep::FillBackground);
    steps.push(FrameStep::PaintPass);
    steps.push(FrameStep::FrameEnd);
    assert(steps@ =~= frame_plan());
    steps
}

} // verus!
