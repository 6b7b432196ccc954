use erika::renderer::danmaku::{
    glyph_draws, DanmakuGlyphAtlas, DanmakuGlyphInstance, DanmakuRenderPlan, DanmakuViewport,
    GlyphLayer,
};
use erika::renderer::draws::{
    prepare_danmaku_draws, prepare_overlay_draws, DanmakuError, OverlayError, PlaneRect,
};
use erika::renderer::layout::{batch_overlays, OVERLAY_BYTES};
use erika::renderer::output::OutputDescription;
use erika::renderer::overlay::{
    check_rgba_plane, overlay_has_planes, pack_alpha_atlas, plane_count, InvalidAlphaBitmap,
    OverlayFrame, OverlayViewport, PlaneCheck, SubtitleAlphaBitmap, SubtitleBitmapPlacement,
    SubtitleBitmapPlane,
};
use erika::renderer::pipeline::{VideoRenderPipeline, VideoUniforms};
use erika::renderer::quad::{glyph_quad, AtlasSpot, OverlayUniforms};
use erika::time::Duration;

fn float(value: f32) -> u32 {
    value.to_bits()
}

fn as_float(value: i64) -> u32 {
    (value as f32).to_bits()
}

fn divide(value: u32, by: u32) -> u32 {
    (value as f32 / by as f32).to_bits()
}

fn plus(left: u32, right: u32) -> u32 {
    (f32::from_bits(left) + f32::from_bits(right)).to_bits()
}

fn multiply(left: u32, right: u32) -> u32 {
    (f32::from_bits(left) * f32::from_bits(right)).to_bits()
}

fn exceeds(value: u32, base: u32, factor: u32) -> bool {
    f32::from_bits(value) > f32::from_bits(base) * f32::from_bits(factor)
}

fn bitmap(width: u32, height: u32, stride: usize, alpha: Vec<u8>) -> SubtitleAlphaBitmap {
    SubtitleAlphaBitmap::new(
        SubtitleBitmapPlacement::new(0, 0, width, height),
        stride,
        0xff00_00ff,
        alpha,
    )
}

fn overlay(planes: Vec<SubtitleBitmapPlane>, alpha: Vec<SubtitleAlphaBitmap>) -> OverlayFrame {
    OverlayFrame {
        pts: Duration::zero(),
        viewport: OverlayViewport::new(8, 8),
        subtitle_planes: planes,
        subtitle_alpha_planes: alpha,
        subtitle_changed: false,
    }
}

/// The bytes of `words` as the machine stores them.
fn native(words: &[u32]) -> Vec<u8> {
    words.iter().flat_map(|word| word.to_ne_bytes()).collect()
}

#[test]
fn alpha_bitmaps_are_packed_side_by_side() {
    let bitmaps = vec![
        bitmap(2, 2, 3, vec![1, 2, 0, 3, 4]),
        bitmap(0, 5, 0, vec![]),
        bitmap(1, 3, 1, vec![7, 8, 9]),
    ];
    let atlas = pack_alpha_atlas(&bitmaps).unwrap().unwrap();
    let width = atlas.width;
    for placement in &atlas.placements {
        let packed = &bitmaps[placement.index];
        for row in 0..packed.placement.height as usize {
            for column in 0..packed.placement.width as usize {
                assert_eq!(
                    atlas.pixels[row * width + placement.atlas_x + column],
                    packed.alpha[row * packed.stride + column]
                );
            }
        }
    }
    assert_eq!(atlas.height, 3);
    assert_eq!(atlas.pixels.len(), width * 3);
    assert_eq!(atlas.placements.len(), 2);
}

#[test]
fn broken_alpha_bitmaps_are_reported() {
    let bitmaps = vec![bitmap(1, 1, 1, vec![1]), bitmap(2, 2, 2, vec![1, 2, 3])];
    assert_eq!(pack_alpha_atlas(&bitmaps).err(), Some(InvalidAlphaBitmap { index: 1 }));
    assert!(pack_alpha_atlas(&vec![]).unwrap().is_none());
    assert!(!bitmaps[1].is_valid());
    assert!(bitmaps[0].is_valid());
    assert_eq!(bitmaps[1].required_len(), Some(4));
    assert!(bitmap(0, 4, 0, vec![]).is_empty());
}

#[test]
fn rgba_planes_are_measured() {
    let plane = |width, height, bytes| SubtitleBitmapPlane::new(0, 0, width, height, vec![0; bytes]);
    assert_eq!(check_rgba_plane(&plane(2, 3, 24)), PlaneCheck::Draw { bytes_per_row: 8 });
    assert_eq!(check_rgba_plane(&plane(0, 3, 0)), PlaneCheck::Skip);
    assert_eq!(
        check_rgba_plane(&plane(2, 3, 23)),
        PlaneCheck::WrongSize { actual: 23, expected: 24 }
    );
}

#[test]
fn overlays_know_what_they_show() {
    let empty = overlay(vec![], vec![]);
    assert!(!overlay_has_planes(&empty));
    let shown = overlay(
        vec![SubtitleBitmapPlane::new(0, 0, 1, 1, vec![1, 2, 3, 4])],
        vec![bitmap(1, 1, 1, vec![5])],
    );
    assert!(overlay_has_planes(&shown));
    assert_eq!(plane_count(&shown), 2);
    let copy = shown.duplicate();
    assert!(copy.looks_like(&shown));
    assert!(!copy.looks_like(&empty));
}

#[test]
fn quads_are_placed_in_their_viewport() {
    let plane = OverlayUniforms::rgba_plane(-3, 5, 7, 9, 0, 1080, &as_float);
    assert_eq!(plane.rect, [-3.0, 5.0, 7.0, 9.0].map(float));
    assert_eq!(plane.viewport, [1.0, 1080.0].map(float));
    assert_eq!(plane.overlay_mode, 0);
    let spot = AtlasSpot { x: 4, atlas_width: 16, atlas_height: 8 };
    let tinted = OverlayUniforms::alpha_atlas(
        [255, 0, 51, 102],
        1,
        2,
        8,
        4,
        spot,
        100,
        50,
        &as_float,
        &divide,
    );
    assert_eq!(tinted.tex_rect, [0.25, 0.0, 0.5, 0.5].map(float));
    assert_eq!(tinted.color, [1.0, 0.0, 0.2, 0.4].map(float));
    assert_eq!(tinted.overlay_mode, 1);
    assert_eq!(tinted.for_output(OutputDescription::sdr()).output_encoding, 0);
    let extended = OutputDescription::extended_linear(float(2.0), &multiply);
    assert_eq!(tinted.for_output(extended).output_encoding, 1);
}

#[test]
fn glyph_layers_are_drawn_back_to_front() {
    let glyph = DanmakuGlyphInstance {
        item_id: 9,
        rect: [10.0, 20.0, 5.0, 6.0].map(float),
        tex_rect: [0.0, 0.0, 1.0, 1.0].map(float),
        color_rgba: [float(1.0); 4],
        outline_rgba: [float(0.5); 4],
        shadow_rgba: [float(0.25); 4],
        shadow_offset: [2.0, 3.0].map(float),
    };
    let draws = glyph_draws(&vec![glyph]);
    let layers: Vec<_> = draws.iter().map(|draw| draw.layer).collect();
    assert_eq!(layers, [GlyphLayer::Shadow, GlyphLayer::Outline, GlyphLayer::Fill]);
    let viewport = DanmakuViewport::new(100, 50);
    let shadow = glyph_quad(&glyph, GlyphLayer::Shadow, viewport, &as_float, &plus);
    assert_eq!(shadow.rect, [12.0, 23.0, 5.0, 6.0].map(float));
    assert_eq!(shadow.color, [float(0.25); 4]);
    let fill = glyph_quad(&glyph, GlyphLayer::Fill, viewport, &as_float, &plus);
    assert_eq!(fill.rect, glyph.rect);
}

#[test]
fn overlays_are_prepared_for_drawing() {
    let frame = overlay(
        vec![
            SubtitleBitmapPlane::new(0, 0, 0, 9, vec![]),
            SubtitleBitmapPlane::new(3, 4, 1, 2, vec![0; 8]),
        ],
        vec![bitmap(2, 1, 2, vec![1, 2]), bitmap(1, 1, 1, vec![3])],
    );
    let prepare = |frame: &OverlayFrame| {
        prepare_overlay_draws(
            frame,
            OutputDescription::sdr(),
            &|plane| PlaneRect {
                x: frame.subtitle_planes[plane].x,
                y: frame.subtitle_planes[plane].y,
                width: 10,
                height: 20,
            },
            &|color| color.to_be_bytes(),
            &as_float,
            &divide,
        )
    };
    let draws = prepare(&frame).unwrap();
    assert_eq!(draws.planes.len(), 1);
    assert_eq!((draws.planes[0].plane, draws.planes[0].bytes_per_row), (1, 4));
    assert_eq!(draws.planes[0].uniforms.rect, [3.0, 4.0, 10.0, 20.0].map(float));
    assert_eq!(draws.atlas.unwrap().pixels, vec![1, 2, 3]);
    assert_eq!(draws.bitmaps.len(), 2);
    assert_eq!(draws.bitmaps[1].tex_rect[0], float(2.0 / 3.0));
    assert_eq!(draws.bitmaps[0].color, [1.0, 0.0, 0.0, 1.0].map(float));

    let short = overlay(vec![SubtitleBitmapPlane::new(0, 0, 1, 1, vec![0; 3])], vec![]);
    assert_eq!(
        prepare(&short).err(),
        Some(OverlayError::PlaneSize { index: 0, actual: 3, expected: 4 })
    );
    let broken = overlay(vec![], vec![bitmap(2, 2, 2, vec![1, 2, 3])]);
    assert_eq!(prepare(&broken).err(), Some(OverlayError::AlphaBitmap { index: 0 }));
}

#[test]
fn comments_are_prepared_for_drawing() {
    let glyph = DanmakuGlyphInstance {
        item_id: 9,
        rect: [10.0, 20.0, 5.0, 6.0].map(float),
        tex_rect: [0.0, 0.0, 1.0, 1.0].map(float),
        color_rgba: [float(1.0); 4],
        outline_rgba: [float(0.5); 4],
        shadow_rgba: [float(0.0); 4],
        shadow_offset: [2.0, 3.0].map(float),
    };
    let atlas = |bytes| DanmakuGlyphAtlas {
        width: 2,
        height: 2,
        stride: 2,
        fill_alpha: vec![0; bytes],
        outline_alpha: vec![0; bytes],
        version: 1,
        update: None,
    };
    let mut plan = DanmakuRenderPlan::empty(Duration::zero(), 1, DanmakuViewport::new(100, 50));
    let prepare = |plan: &DanmakuRenderPlan| {
        prepare_danmaku_draws(plan, OutputDescription::sdr(), 256, &as_float, &plus)
    };
    assert!(prepare(&plan).unwrap().is_none());
    plan.atlas = Some(atlas(3));
    assert_eq!(prepare(&plan).err(), Some(DanmakuError::InvalidAtlas));
    plan.atlas = Some(atlas(4));
    assert!(prepare(&plan).unwrap().is_none());
    plan.items.push(glyph);
    let draws = prepare(&plan).unwrap().unwrap();
    assert_eq!(draws.layers.len(), 2);
    assert_eq!(draws.batch.offsets, vec![0, 256]);
    assert_eq!(draws.quads[0].color, glyph.outline_rgba);
    assert_eq!(&draws.batch.bytes[256..256 + OVERLAY_BYTES], &draws.quads[1].bytes());
}

#[test]
fn uniforms_lie_in_memory_in_the_order_of_their_fields() {
    let pipeline = VideoRenderPipeline::sdr_default(&exceeds);
    let rows = [[21, 22, 23, 24], [25, 26, 27, 28], [29, 30, 31, 32]];
    let video = VideoUniforms::from_pipeline(&pipeline, true, false, rows);
    let words = video.words();
    assert_eq!(words.len(), 28);
    assert_eq!(words[0], 1);
    assert_eq!(&words[8..12], &video.nits);
    assert_eq!(&words[16..28], &rows.concat());
    assert_eq!(video.bytes(), native(&words));

    let quad = OverlayUniforms::rgba_plane(1, 2, 3, 4, 5, 6, &as_float);
    assert_eq!(quad.words()[8..10], quad.viewport);
    assert_eq!(quad.bytes(), native(&quad.words()));
    assert_eq!(quad.bytes().len(), OVERLAY_BYTES);
}

#[test]
fn quads_are_batched_for_one_draw_call() {
    let quads: Vec<_> = (0..3)
        .map(|x| OverlayUniforms::rgba_plane(x, 2, 3, 4, 5, 6, &as_float))
        .collect();
    let batch = batch_overlays(&quads, 256).unwrap();
    assert_eq!(batch.stride, 256);
    assert_eq!(batch.bytes.len(), 3 * 256);
    assert_eq!(batch.offsets, vec![0, 256, 512]);
    for (quad, offset) in quads.iter().zip(&batch.offsets) {
        let start = *offset as usize;
        assert_eq!(&batch.bytes[start..start + OVERLAY_BYTES], &quad.bytes());
        assert!(batch.bytes[start + OVERLAY_BYTES..start + 256].iter().all(|byte| *byte == 0));
    }
}
