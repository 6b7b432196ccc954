//! What a texture that Flutter shows was drawn from.

use crate::renderer::context::RenderFrameContext;
use crate::renderer::danmaku::{
    same_drawing, same_numbers, DanmakuGlyphInstance, DanmakuRenderPlan, PlanView,
};
use crate::float::{is_number, FloatBits};
use crate::renderer::overlay::{same_picture, OverlayFrame, OverlayView};
use crate::renderer::pipeline::LumaUpscalerMode;
use vstd::prelude::*;

verus! {

/// The inputs of the last published frame. Buffers are kept until their own
/// contents change, so a new video frame need not copy what is drawn over it.
#[derive(Debug)]
pub struct FlutterTextureScene {
    pub frame_token: u64,
    pub generation: u64,
    pub upscaler: LumaUpscalerMode,
    pub overlay: Option<OverlayFrame>,
    pub danmaku: Option<DanmakuRenderPlan>,
}

/// Whether an overlay looks like the one that is kept.
pub open spec fn overlay_kept(kept: Option<OverlayFrame>, overlay: Option<&OverlayFrame>) -> bool {
    match (kept, overlay) {
        (Some(kept), Some(overlay)) => same_picture(kept@, overlay@),
        (None, None) => true,
        _ => false,
    }
}

/// Whether comments are drawn like those that are kept.
pub open spec fn danmaku_kept(
    kept: Option<DanmakuRenderPlan>,
    danmaku: Option<&DanmakuRenderPlan>,
) -> bool {
    match (kept, danmaku) {
        (Some(kept), Some(danmaku)) => same_drawing(kept@, danmaku@),
        (None, None) => true,
        _ => false,
    }
}

/// Whether an overlay was taken over with all its contents.
pub open spec fn overlay_taken(kept: Option<OverlayFrame>, overlay: Option<&OverlayFrame>) -> bool {
    match (kept, overlay) {
        (Some(kept), Some(overlay)) => kept@ == overlay@,
        (None, None) => true,
        _ => false,
    }
}

/// Whether comments were taken over with all their contents.
pub open spec fn danmaku_taken(
    kept: Option<DanmakuRenderPlan>,
    danmaku: Option<&DanmakuRenderPlan>,
) -> bool {
    match (kept, danmaku) {
        (Some(kept), Some(danmaku)) => kept@ == danmaku@,
        (None, None) => true,
        _ => false,
    }
}

fn copy_overlay(overlay: Option<&OverlayFrame>) -> (copy: Option<OverlayFrame>)
    ensures
        overlay_taken(copy, overlay),
{
    match overlay {
        Some(overlay) => Some(overlay.duplicate()),
        None => None,
    }
}

fn copy_danmaku(danmaku: Option<&DanmakuRenderPlan>) -> (copy: Option<DanmakuRenderPlan>)
    ensures
        danmaku_taken(copy, danmaku),
{
    match danmaku {
        Some(danmaku) => Some(danmaku.duplicate()),
        None => None,
    }
}

impl FlutterTextureScene {
    /// Whether drawing again would give the same picture.
    pub open spec fn same_scene(
        self,
        frame_token: u64,
        upscaler: LumaUpscalerMode,
        context: RenderFrameContext<'_>,
    ) -> bool {
        &&& self.frame_token == frame_token
        &&& self.generation == context.generation
        &&& self.upscaler == upscaler
        &&& overlay_kept(self.overlay, context.overlay)
        &&& danmaku_kept(self.danmaku, context.danmaku)
    }

    pub fn new(
        frame_token: u64,
        upscaler: LumaUpscalerMode,
        context: RenderFrameContext<'_>,
    ) -> (scene: Self)
        ensures
            scene.frame_token == frame_token,
            scene.generation == context.generation,
            scene.upscaler == upscaler,
            overlay_taken(scene.overlay, context.overlay),
            danmaku_taken(scene.danmaku, context.danmaku),
    {
        FlutterTextureScene {
            frame_token,
            generation: context.generation,
            upscaler,
            overlay: copy_overlay(context.overlay),
            danmaku: copy_danmaku(context.danmaku),
        }
    }

    fn overlay_matches(&self, overlay: Option<&OverlayFrame>) -> (matched: bool)
        ensures
            matched == overlay_kept(self.overlay, overlay),
    {
        match (&self.overlay, overlay) {
            (Some(kept), Some(overlay)) => kept.looks_like(overlay),
            (None, None) => true,
            _ => false,
        }
    }

    fn danmaku_matches(&self, danmaku: Option<&DanmakuRenderPlan>) -> (matched: bool)
        ensures
            matched == danmaku_kept(self.danmaku, danmaku),
    {
        match (&self.danmaku, danmaku) {
            (Some(kept), Some(danmaku)) => kept.draws_like(danmaku),
            (None, None) => true,
            _ => false,
        }
    }

    /// Whether drawing again would give the same picture. Times do not matter;
    /// pixels, placements, the frame, the generation and the upscaler do.
    pub fn matches(
        &self,
        frame_token: u64,
        upscaler: LumaUpscalerMode,
        context: RenderFrameContext<'_>,
    ) -> (matched: bool)
        ensures
            matched == self.same_scene(frame_token, upscaler, context),
    {
        self.frame_token == frame_token && self.generation == context.generation && self.upscaler
            == upscaler && self.overlay_matches(context.overlay) && self.danmaku_matches(
            context.danmaku,
        )
    }

    /// Takes over what a frame was drawn from. What looks the same is kept as
    /// it is, and not copied again.
    pub fn update(
        &mut self,
        frame_token: u64,
        upscaler: LumaUpscalerMode,
        context: RenderFrameContext<'_>,
    )
        ensures
            final(self).frame_token == frame_token,
            final(self).generation == context.generation,
            final(self).upscaler == upscaler,
            if overlay_kept(old(self).overlay, context.overlay) {
                final(self).overlay == old(self).overlay
            } else {
                overlay_taken(final(self).overlay, context.overlay)
            },
            if danmaku_kept(old(self).danmaku, context.danmaku) {
                final(self).danmaku == old(self).danmaku
            } else {
                danmaku_taken(final(self).danmaku, context.danmaku)
            },
    {
        if !self.overlay_matches(context.overlay) {
            self.overlay = copy_overlay(context.overlay);
        }
        if !self.danmaku_matches(context.danmaku) {
            self.danmaku = copy_danmaku(context.danmaku);
        }
        self.frame_token = frame_token;
        self.generation = context.generation;
        self.upscaler = upscaler;
    }
}

/// Every value of a list is a number.
pub open spec fn all_numbers(values: Seq<FloatBits>) -> bool {
    forall|i: int| 0 <= i < values.len() ==> #[trigger] is_number(values[i])
}

/// Every value of a glyph is a number.
pub open spec fn proper(item: DanmakuGlyphInstance) -> bool {
    &&& all_numbers(item.rect@)
    &&& all_numbers(item.tex_rect@)
    &&& all_numbers(item.color_rgba@)
    &&& all_numbers(item.outline_rgba@)
    &&& all_numbers(item.shadow_rgba@)
    &&& all_numbers(item.shadow_offset@)
}

proof fn lemma_numbers_equal_themselves(values: Seq<FloatBits>)
    requires
        all_numbers(values),
    ensures
        same_numbers(values, values),
{
    assert forall|i: int| 0 <= i < values.len() implies #[trigger]
        crate::float::same_number(values[i], values[i]) by {
        assert(is_number(values[i]));
    }
}

/// A scene that was just drawn matches what it was drawn from, as long as the
/// comments hold nothing but numbers.
pub proof fn lemma_drawn_scene_matches(
    before: FlutterTextureScene,
    after: FlutterTextureScene,
    frame_token: u64,
    upscaler: LumaUpscalerMode,
    context: RenderFrameContext<'_>,
)
    requires
        context.danmaku matches Some(plan) ==> forall|i: int|
            0 <= i < plan.items@.len() ==> #[trigger] proper(plan.items@[i]),
        after.frame_token == frame_token,
        after.generation == context.generation,
        after.upscaler == upscaler,
        if overlay_kept(before.overlay, context.overlay) {
            after.overlay == before.overlay
        } else {
            overlay_taken(after.overlay, context.overlay)
        },
        if danmaku_kept(before.danmaku, context.danmaku) {
            after.danmaku == before.danmaku
        } else {
            danmaku_taken(after.danmaku, context.danmaku)
        },
    ensures
        after.same_scene(frame_token, upscaler, context),
{
    if !danmaku_kept(before.danmaku, context.danmaku) && context.danmaku is Some {
        let plan = context.danmaku->0;
        let kept = after.danmaku->0;
        assert forall|i: int| 0 <= i < kept@.items.len() implies #[trigger] kept@.items[i].same(
            plan@.items[i],
        ) by {
            let item = plan.items@[i];
            assert(proper(item));
            assert(kept@.items[i] == item);
            lemma_numbers_equal_themselves(item.rect@);
            lemma_numbers_equal_themselves(item.tex_rect@);
            lemma_numbers_equal_themselves(item.color_rgba@);
            lemma_numbers_equal_themselves(item.outline_rgba@);
            lemma_numbers_equal_themselves(item.shadow_rgba@);
            lemma_numbers_equal_themselves(item.shadow_offset@);
        }
    }
}

/// The time of an overlay does not matter to a scene, nor that of the comments.
pub proof fn lemma_scene_ignores_the_clock(overlay: OverlayView, plan: PlanView, other: PlanView)
    requires
        same_drawing(plan, other),
    ensures
        forall|pts: crate::time::Duration, changed: bool| #[trigger]
            same_picture(
                overlay,
                OverlayView { pts, subtitle_changed: changed, ..overlay },
            ),
        forall|media_time: crate::time::Duration, generation: u64| #[trigger]
            same_drawing(plan, PlanView { media_time, generation, ..other }),
{
}

} // verus!
