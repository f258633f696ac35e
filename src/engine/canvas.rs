//! The capabilities that a renderable surface offers to the engine.
use crate::engine::error::EngineError;
use vstd::prelude::*;

verus! {

/// One call of a canvas lifecycle hook, with what it returned.
pub enum CanvasCall {
    Render(Result<(), EngineError>),
    Resize(Option<(u32, u32)>),
    Start(Result<(), EngineError>),
    End(Result<(), EngineError>),
}

/// A surface with dimensions.
pub trait Canvas {
    fn width(&self) -> u32;

    fn height(&self) -> u32;
}

/// A surface with a lifecycle: started once before the loop, rendered by the
/// render step, told of resizes, and ended once at teardown. Each hook may
/// fail, and the failure is handed back to the caller. Each hook call is
/// recorded, with its result, in the canvas's call log.
pub trait RenderableCanvas: Canvas {
    /// The hook calls made on this canvas so far, oldest first.
    spec fn canvas_calls(&self) -> Seq<CanvasCall>;

    fn on_render(&mut self) -> (r: Result<(), EngineError>)
        ensures
            final(self).canvas_calls() == old(self).canvas_calls().push(CanvasCall::Render(r)),
    ;

    /// Called when the window moved or was resized; the new dimensions if
    /// they changed.
    fn on_resize(&mut self) -> (r: Option<(u32, u32)>)
        ensures
            final(self).canvas_calls() == old(self).canvas_calls().push(CanvasCall::Resize(r)),
    ;

    fn on_start(&mut self) -> (r: Result<(), EngineError>)
        ensures
            final(self).canvas_calls() == old(self).canvas_calls().push(CanvasCall::Start(r)),
    ;

    fn on_end(&mut self) -> (r: Result<(), EngineError>)
        ensures
            final(self).canvas_calls() == old(self).canvas_calls().push(CanvasCall::End(r)),
    ;
}

} // verus!
