use erika::color::{ColorPrimaries, TransferFunction};
use erika::float::{equal, larger_of};
use erika::renderer::frame::{source_color_for_player_frame, uniforms_for, FrameColor};
use erika::renderer::pipeline::{
    primaries_coordinates, ColorRange, ContentLightMetadata, HdrMetadata, LumaCoefficients,
    LumaUpscalerMode, MasteringDisplayMetadata, MatrixCoefficients, RenderPassKind, ScalerKernel,
    SourceColorState, TargetColorState, ToneMapOperator, VideoRenderPipeline, VideoUniforms,
    VIDEO_INPUT_MODE_MASK, VIDEO_INPUT_PACKED_ALPHA_RIGHT,
};

const NO_GAMUT: [[u32; 4]; 3] = [[0; 4]; 3];

fn exceeds(value: u32, base: u32, factor: u32) -> bool {
    f32::from_bits(value) > f32::from_bits(base) * f32::from_bits(factor)
}

fn multiply(left: u32, right: u32) -> u32 {
    (f32::from_bits(left) * f32::from_bits(right)).to_bits()
}

fn as_float(value: u32) -> u32 {
    (value as f32).to_bits()
}

fn nits(value: f32) -> u32 {
    value.to_bits()
}

fn hlg_inverse_oetf(encoded: f32) -> f32 {
    let (a, b, c) = (0.17883277_f32, 0.28466892_f32, 0.55991073_f32);
    let e = encoded.max(0.0);
    if e <= 0.5 {
        e * e / 3.0
    } else {
        (((e - c) / a).exp() + b) / 12.0
    }
}

fn hlg_encoded_to_source_reference_linear(
    encoded: [f32; 3],
    luma: LumaCoefficients,
    reference_white_nits: f32,
) -> [f32; 3] {
    let scene = encoded.map(hlg_inverse_oetf);
    let scene_luma = (f32::from_bits(luma.kr) * scene[0]
        + f32::from_bits(luma.kg) * scene[1]
        + f32::from_bits(luma.kb) * scene[2])
        .max(1e-6);
    let scale = 1000.0 * scene_luma.powf(1.2 - 1.0) / reference_white_nits.max(1.0);
    scene.map(|channel| channel * scale)
}

fn pq_to_sdr() -> VideoRenderPipeline {
    VideoRenderPipeline::new(
        SourceColorState::new(ColorPrimaries::Bt2020, TransferFunction::Pq),
        TargetColorState::sdr(ColorPrimaries::Bt709),
        &exceeds,
    )
}

#[test]
fn hlg_inverse_oetf_matches_bt2100_anchors() {
    assert!(hlg_inverse_oetf(0.0).abs() < 1e-7);
    assert!((hlg_inverse_oetf(0.5) - 1.0 / 12.0).abs() < 1e-6);
    let upper_at_half = (((0.5_f32 - 0.55991073) / 0.17883277).exp() + 0.28466892) / 12.0;
    assert!((hlg_inverse_oetf(0.5) - upper_at_half).abs() < 1e-5);
    assert!((hlg_inverse_oetf(1.0) - 1.0).abs() < 1e-3);
}

#[test]
fn hlg_full_scale_white_reaches_nominal_peak_over_reference_white() {
    let luma =
        MatrixCoefficients::Bt2020NonConstantLuminance.luma_coefficients(ColorPrimaries::Bt2020);
    let rgb = hlg_encoded_to_source_reference_linear([1.0, 1.0, 1.0], luma, 203.0);
    for channel in rgb {
        assert!((channel - 1000.0 / 203.0).abs() < 0.01, "{channel}");
    }
}

#[test]
fn hlg_reference_white_signal_lands_at_reference_white() {
    let luma =
        MatrixCoefficients::Bt2020NonConstantLuminance.luma_coefficients(ColorPrimaries::Bt2020);
    let rgb = hlg_encoded_to_source_reference_linear([0.75, 0.75, 0.75], luma, 203.0);
    for channel in rgb {
        assert!((channel - 1.0).abs() < 0.005, "{channel}");
    }
}

#[test]
fn hlg_source_uniforms_use_code_4_and_thousand_nit_peak() {
    let source = SourceColorState::new(ColorPrimaries::Bt2020, TransferFunction::Hlg);
    let target = TargetColorState::sdr(ColorPrimaries::Bt709);
    let pipeline = VideoRenderPipeline::new(source, target, &exceeds);

    let uniforms = VideoUniforms::from_pipeline(&pipeline, false, false, NO_GAMUT);

    assert!(source.is_hdr(&exceeds));
    assert_eq!(uniforms.source_transfer, 4);
    assert_eq!(uniforms.nits[0], nits(1000.0));
    assert_eq!(uniforms.nits[2], nits(203.0));
    assert!(pipeline.requires_tone_mapping(&exceeds));
}

#[test]
fn hdr_pq_to_sdr_builds_tone_mapping_graph() {
    let pipeline = pq_to_sdr();

    assert!(pipeline.requires_tone_mapping(&exceeds));
    assert!(pipeline.graph.contains(RenderPassKind::TransferDecode));
    assert!(pipeline.graph.contains(RenderPassKind::GamutMap));
    assert!(pipeline.graph.contains(RenderPassKind::ToneMap));
    assert!(pipeline.graph.contains(RenderPassKind::OutputTransform));
}

#[test]
fn hdr_pq_to_hdr10_keeps_absolute_pq_without_tone_mapping() {
    let source = SourceColorState::new(ColorPrimaries::Bt2020, TransferFunction::Pq);
    let target = TargetColorState::hdr10(ColorPrimaries::Bt2020);
    let pipeline = VideoRenderPipeline::new(source, target, &exceeds);

    assert_eq!(pipeline.target.transfer, TransferFunction::Pq);
    assert_eq!(pipeline.target.reference_white_nits, nits(203.0));
    assert!(!pipeline.requires_tone_mapping(&exceeds));
    assert!(!pipeline.graph.contains(RenderPassKind::GamutMap));
    assert!(!pipeline.graph.contains(RenderPassKind::ToneMap));
}

#[test]
fn sdr_bt709_to_sdr_skips_tone_mapping() {
    let source = SourceColorState::new(ColorPrimaries::Bt709, TransferFunction::Srgb);
    let target = TargetColorState::sdr(ColorPrimaries::Bt709);
    let pipeline = VideoRenderPipeline::new(source, target, &exceeds);

    assert!(!pipeline.requires_tone_mapping(&exceeds));
    assert!(!pipeline.graph.contains(RenderPassKind::ToneMap));
}

#[test]
fn unknown_sdr_source_uses_sdr_reference_white() {
    let source = SourceColorState::new(ColorPrimaries::Unknown, TransferFunction::Unknown);

    assert_eq!(source.nominal_peak_nits, nits(100.0));
    assert_eq!(source.reference_white_nits, nits(100.0));
    assert!(!source.is_hdr(&exceeds));
}

#[test]
fn retargeting_pipeline_preserves_render_options_and_rebuilds_graph() {
    let mut pipeline = pq_to_sdr();
    pipeline.tone_map.operator = ToneMapOperator::Clip;
    pipeline.scaler.kernel = ScalerKernel::Nearest;

    let pipeline = pipeline.with_target(
        TargetColorState::apple_edr(ColorPrimaries::Bt709, nits(4.0), &multiply),
        &exceeds,
    );

    assert_eq!(pipeline.target.edr_headroom, nits(4.0));
    assert_eq!(pipeline.tone_map.operator, ToneMapOperator::Clip);
    assert_eq!(pipeline.scaler.kernel, ScalerKernel::Nearest);
    assert!(!pipeline.graph.contains(RenderPassKind::Scale));
}

#[test]
fn luma_upscaler_adds_neural_upscale_pass() {
    let pipeline = VideoRenderPipeline::sdr_default(&exceeds);
    assert!(!pipeline.graph.contains(RenderPassKind::NeuralUpscale));

    let pipeline = pipeline.with_luma_upscaler(LumaUpscalerMode::ArtCnnC4F16, &exceeds);

    assert_eq!(pipeline.luma_upscaler, LumaUpscalerMode::ArtCnnC4F16);
    assert!(pipeline.graph.contains(RenderPassKind::NeuralUpscale));
}

#[test]
fn default_pipelines_have_the_default_options() {
    let pipeline = VideoRenderPipeline::sdr_default(&exceeds);
    assert_eq!(pipeline.tone_map.operator, ToneMapOperator::Mobius);
    assert_eq!(f32::from_bits(pipeline.tone_map.knee_start), 0.75);
    assert_eq!(f32::from_bits(pipeline.tone_map.desaturate), 0.0);
    assert_eq!(pipeline.scaler.kernel, ScalerKernel::Bilinear);
    assert_eq!(f32::from_bits(pipeline.scaler.radius), 1.0);
}

#[test]
fn matrix_defaults_follow_primaries() {
    let source = SourceColorState::new(ColorPrimaries::Bt2020, TransferFunction::Pq);
    let coeffs = source.matrix.luma_coefficients(source.primaries);

    assert!((f32::from_bits(coeffs.kr) - 0.2627).abs() < 0.0001);
    assert!((f32::from_bits(coeffs.kg) - 0.6780).abs() < 0.0001);
    assert!((f32::from_bits(coeffs.kb) - 0.0593).abs() < 0.0001);
}

#[test]
fn color_range_resolves_unspecified_to_fallback() {
    assert_eq!(ColorRange::Unspecified.resolve(ColorRange::Limited), ColorRange::Limited);
    assert_eq!(ColorRange::Full.resolve(ColorRange::Limited), ColorRange::Full);
}

fn metadata(max_luminance: Option<f32>, max_cll: u32) -> HdrMetadata {
    HdrMetadata::new(
        Some(MasteringDisplayMetadata {
            display_primaries: None,
            white_point: None,
            min_luminance_nits: Some(nits(0.005)),
            max_luminance_nits: max_luminance.map(nits),
        }),
        Some(ContentLightMetadata {
            max_content_light_level_nits: max_cll,
            max_frame_average_light_level_nits: 450,
        }),
    )
}

fn pq_with(metadata: HdrMetadata) -> SourceColorState {
    SourceColorState::new(ColorPrimaries::Bt2020, TransferFunction::Pq)
        .hdr_metadata(Some(metadata), &as_float)
}

#[test]
fn hdr_metadata_prefers_mastering_display_peak() {
    let metadata = metadata(Some(1000.0), 4000);
    let source = pq_with(metadata);

    assert_eq!(metadata.nominal_peak_nits(&as_float), Some(nits(1000.0)));
    assert_eq!(source.nominal_peak_nits, nits(1000.0));
    assert!(source.hdr_metadata == Some(metadata));
}

#[test]
fn hdr_metadata_falls_back_to_max_cll_when_mastering_peak_is_missing() {
    let metadata = metadata(None, 4000);
    let source = pq_with(metadata);

    assert_eq!(metadata.nominal_peak_nits(&as_float), Some(nits(4000.0)));
    assert_eq!(source.nominal_peak_nits, nits(4000.0));
}

#[test]
fn hdr_metadata_falls_back_to_mastering_peak_when_max_cll_is_missing() {
    let metadata = metadata(Some(1000.0), 0);
    let source = pq_with(metadata);

    assert_eq!(metadata.nominal_peak_nits(&as_float), Some(nits(1000.0)));
    assert_eq!(source.nominal_peak_nits, nits(1000.0));
}

#[test]
fn hdr_metadata_peaks_are_at_least_one_nit() {
    let silent = metadata(None, 0);
    assert_eq!(silent.nominal_peak_nits(&as_float), None);
    let plain = SourceColorState::new(ColorPrimaries::Bt2020, TransferFunction::Pq);
    assert_eq!(pq_with(silent).nominal_peak_nits, plain.nominal_peak_nits);
    for tiny in [0.0, -5.0, 0.5, f32::NAN] {
        assert_eq!(pq_with(metadata(Some(tiny), 0)).nominal_peak_nits, nits(1.0), "{tiny}");
    }
}

#[test]
fn pipeline_reports_gamut_mapping_when_primaries_differ() {
    let pipeline = pq_to_sdr();

    assert!(pipeline.requires_gamut_mapping());
    assert!(pipeline.graph.contains(RenderPassKind::GamutMap));
}

#[test]
fn unknown_primaries_count_as_bt709() {
    let source = SourceColorState::new(ColorPrimaries::Unknown, TransferFunction::Srgb);
    let target = TargetColorState::sdr(ColorPrimaries::Bt709);
    assert!(!VideoRenderPipeline::new(source, target, &exceeds).requires_gamut_mapping());
    assert!(
        primaries_coordinates(ColorPrimaries::Unknown)
            == primaries_coordinates(ColorPrimaries::Bt709)
    );
}

#[test]
fn packed_alpha_flag_survives_source_texture_mode_changes() {
    let pipeline = VideoRenderPipeline::sdr_default(&exceeds);
    let uniforms = VideoUniforms::from_pipeline(&pipeline, false, false, NO_GAMUT)
        .packed_alpha_right(true)
        .rgb_texture_input();

    assert!(uniforms.has_packed_alpha_right());
    assert_eq!(uniforms.input_mode & VIDEO_INPUT_MODE_MASK, 1);
    assert_eq!(
        uniforms.input_mode & VIDEO_INPUT_PACKED_ALPHA_RIGHT,
        VIDEO_INPUT_PACKED_ALPHA_RIGHT,
    );
    assert!(!uniforms.packed_alpha_right(false).has_packed_alpha_right());
}

#[test]
fn edr_targets_scale_their_peak_by_the_headroom() {
    let target = TargetColorState::extended_linear(
        ColorPrimaries::Bt709,
        nits(80.0),
        nits(4.0),
        &multiply,
    );
    assert_eq!(target.peak_nits, nits(320.0));
    assert_eq!(target.edr_headroom, nits(4.0));
    let flat = TargetColorState::apple_edr(ColorPrimaries::Bt709, nits(0.5), &multiply);
    assert_eq!(flat.edr_headroom, nits(1.0));
    assert_eq!(flat.peak_nits, nits(203.0));
}

#[test]
fn frame_colours_become_uniforms() {
    let color = FrameColor {
        primaries: ColorPrimaries::Bt2020,
        transfer: TransferFunction::Pq,
        range: ColorRange::Full,
        matrix: MatrixCoefficients::Unspecified,
        hdr_metadata: Some(metadata(Some(600.0), 0)),
    };
    let source = source_color_for_player_frame(color, &as_float);
    assert_eq!(source.nominal_peak_nits, nits(600.0));
    let rows = [[1, 2, 3, 0], [4, 5, 6, 0], [7, 8, 9, 0]];
    let uniforms = uniforms_for(
        source,
        TargetColorState::sdr(ColorPrimaries::Bt709),
        true,
        false,
        &exceeds,
        &|from, to| {
            assert_eq!((from, to), (ColorPrimaries::Bt2020, ColorPrimaries::Bt709));
            rows
        },
    );
    assert_eq!(uniforms.is_p010, 1);
    assert_eq!(uniforms.full_range, 1);
    assert_eq!(uniforms.source_transfer, 3);
    assert_eq!(uniforms.gamut_matrix_rows, rows);
    assert_eq!(uniforms.nits[0], nits(600.0));
}

#[test]
fn float_comparisons_agree_with_floating_point() {
    let values =
        [0.0, -0.0, 1.0, -1.0, 1e-45, f32::MAX, f32::INFINITY, f32::NEG_INFINITY, f32::NAN, 100.0];
    for left in values {
        for right in values {
            assert_eq!(equal(left.to_bits(), right.to_bits()), left == right, "{left} {right}");
        }
        assert_eq!(larger_of(left.to_bits(), 1.0f32.to_bits()), left.max(1.0).to_bits(), "{left}");
    }
}
