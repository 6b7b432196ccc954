//! What a frame is rendered with.

use crate::renderer::danmaku::DanmakuRenderPlan;
use crate::renderer::overlay::OverlayFrame;
use crate::time::Duration;
use vstd::prelude::*;

verus! {

/// What is drawn over a frame, and how large the output is where that is known.
#[derive(Debug, Clone, Copy)]
pub struct RenderFrameContext<'a> {
    pub media_time: Duration,
    pub generation: u64,
    pub overlay: Option<&'a OverlayFrame>,
    pub danmaku: Option<&'a DanmakuRenderPlan>,
    /// Zero where the output's size is not known.
    pub output_width: u32,
    pub output_height: u32,
}

impl<'a> RenderFrameContext<'a> {
    /// A frame with nothing over it.
    pub fn new(media_time: Duration, generation: u64) -> (context: RenderFrameContext<'a>)
        ensures
            context == (RenderFrameContext {
                media_time,
                generation,
                overlay: None,
                danmaku: None,
                output_width: 0,
                output_height: 0,
            }),
    {
        RenderFrameContext {
            media_time,
            generation,
            overlay: None,
            danmaku: None,
            output_width: 0,
            output_height: 0,
        }
    }

    pub fn overlay(self, overlay: Option<&'a OverlayFrame>) -> (context: RenderFrameContext<'a>)
        ensures
            context == (RenderFrameContext { overlay, ..self }),
    {
        RenderFrameContext { overlay, ..self }
    }

    pub fn danmaku(self, danmaku: Option<&'a DanmakuRenderPlan>) -> (context: RenderFrameContext<
        'a,
    >)
        ensures
            context == (RenderFrameContext { danmaku, ..self }),
    {
        RenderFrameContext { danmaku, ..self }
    }

    pub fn output_size(self, width: u32, height: u32) -> (context: RenderFrameContext<'a>)
        ensures
            context == (RenderFrameContext { output_width: width, output_height: height, ..self }),
    {
        RenderFrameContext { output_width: width, output_height: height, ..self }
    }
}

} // verus!
