//! What the colour pipeline makes of a frame's colours, stated of the numbers that
//! the shaders are given.

use crate::color::{ColorPrimaries, TransferFunction};
use crate::float::{at_least, same_number, FloatBits};
use crate::renderer::frame::{converts, is_gamut, FrameColor, GamutRows};
use crate::renderer::pipeline::{
    code_of_tone_map, code_of_transfer, coordinates_of, flag, gamut_mapping_required, is_exceeds,
    is_level_conversion, is_packed_alpha, is_product, nominal_peak, pass_kinds, pass_label,
    reference_white, resolved_primaries, tone_mapping_required, with_base_mode, with_packed_alpha,
    ColorRange, LumaUpscalerMode, MatrixCoefficients, RenderPassKind, ScalerConfig, ScalerKernel,
    SourceColorState, TargetColorState, ToneMapOperator, VideoUniforms,
};
use vstd::prelude::*;

verus! {

/// The numbers that the shaders test for: 1 for sRGB, 2 for BT.1886, 3 for PQ and 4
/// for HLG, and an unknown transfer function is taken for sRGB; 0 clips, 1 is
/// Reinhard's curve and 2 the Mobius curve.
pub proof fn lemma_shader_codes(transfer: TransferFunction, operator: ToneMapOperator)
    ensures
        transfer == TransferFunction::Srgb ==> code_of_transfer(transfer) == 1,
        transfer == TransferFunction::Bt1886 ==> code_of_transfer(transfer) == 2,
        transfer == TransferFunction::Pq ==> code_of_transfer(transfer) == 3,
        transfer == TransferFunction::Hlg ==> code_of_transfer(transfer) == 4,
        transfer == TransferFunction::Unknown ==> code_of_transfer(transfer) == 1,
        operator == ToneMapOperator::Clip ==> code_of_tone_map(operator) == 0,
        operator == ToneMapOperator::Reinhard ==> code_of_tone_map(operator) == 1,
        operator == ToneMapOperator::Mobius ==> code_of_tone_map(operator) == 2,
        flag(true) == 1,
        flag(false) == 0,
{
}

/// Transfer functions that are known and differ have codes that differ, and so do
/// tone map operators that differ.
pub proof fn lemma_shader_codes_tell_apart(
    left: TransferFunction,
    right: TransferFunction,
    one: ToneMapOperator,
    other: ToneMapOperator,
)
    requires
        left != TransferFunction::Unknown,
        right != TransferFunction::Unknown,
    ensures
        code_of_transfer(left) == code_of_transfer(right) <==> left == right,
        code_of_tone_map(one) == code_of_tone_map(other) <==> one == other,
{
}

/// The uniforms of a frame say what its colours and the target's are: which transfer
/// functions, by the shaders' numbers; whether the range is full; how bright the
/// peaks and the whites are, the source before the target; the weights of red, green
/// and blue in luma; and the matrix from the source's primaries to the target's.
pub proof fn lemma_uniforms_tell_the_colors<
    G: Fn(ColorPrimaries, ColorPrimaries) -> GamutRows,
>(
    uniforms: VideoUniforms,
    source: SourceColorState,
    target: TargetColorState,
    edr_output: bool,
    gamut: G,
    rows: GamutRows,
)
    requires
        converts(uniforms, source, target, edr_output, gamut),
        is_gamut(gamut),
        gamut.ensures((source.primaries, target.primaries), rows),
    ensures
        uniforms.source_transfer == match source.transfer {
            TransferFunction::Srgb => 1u32,
            TransferFunction::Bt1886 => 2u32,
            TransferFunction::Pq => 3u32,
            TransferFunction::Hlg => 4u32,
            TransferFunction::Unknown => 1u32,
        },
        uniforms.target_transfer == match target.transfer {
            TransferFunction::Srgb => 1u32,
            TransferFunction::Bt1886 => 2u32,
            TransferFunction::Pq => 3u32,
            TransferFunction::Hlg => 4u32,
            TransferFunction::Unknown => 1u32,
        },
        uniforms.full_range == 1 <==> source.range == ColorRange::Full,
        uniforms.full_range <= 1,
        uniforms.tone_map == 2,
        uniforms.edr_output == 1 <==> edr_output,
        uniforms.edr_output <= 1,
        uniforms.nits@[0] == source.nominal_peak_nits,
        uniforms.nits@[1] == target.peak_nits,
        uniforms.nits@[2] == source.reference_white_nits,
        uniforms.nits@[3] == target.reference_white_nits,
        uniforms.luma_coefficients@[0] == source.matrix.luma(source.primaries).kr,
        uniforms.luma_coefficients@[1] == source.matrix.luma(source.primaries).kg,
        uniforms.luma_coefficients@[2] == source.matrix.luma(source.primaries).kb,
        uniforms.luma_coefficients@[3] == 0,
        uniforms.gamut_matrix_rows == rows,
{
}

/// A range that is given stands, and one that is not is the fallback. A matrix that
/// is given stands; one that is not follows from the primaries, wide ones or not.
/// Primaries that are not known are taken for BT.709.
pub proof fn lemma_what_is_given_stands(
    range: ColorRange,
    fallback: ColorRange,
    matrix: MatrixCoefficients,
    primaries: ColorPrimaries,
)
    ensures
        range == ColorRange::Unspecified ==> range.resolved(fallback) == fallback,
        range != ColorRange::Unspecified ==> range.resolved(fallback) == range,
        matrix != MatrixCoefficients::Unspecified ==> matrix.resolved(primaries) == matrix,
        matrix == MatrixCoefficients::Unspecified && primaries == ColorPrimaries::Bt2020
            ==> matrix.resolved(primaries) == MatrixCoefficients::Bt2020NonConstantLuminance,
        matrix == MatrixCoefficients::Unspecified && primaries != ColorPrimaries::Bt2020
            ==> matrix.resolved(primaries) == MatrixCoefficients::Bt709,
        primaries == ColorPrimaries::Unknown ==> resolved_primaries(primaries)
            == ColorPrimaries::Bt709,
        primaries != ColorPrimaries::Unknown ==> resolved_primaries(primaries) == primaries,
{
}

/// The weights of red, green and blue in luma: 0.299, 0.587 and 0.114 by BT.601,
/// 0.2126, 0.7152 and 0.0722 by BT.709, and 0.2627, 0.6780 and 0.0593 by BT.2020. Of
/// a matrix that is not given, those that its primaries imply.
pub proof fn lemma_luma_weights(matrix: MatrixCoefficients, primaries: ColorPrimaries)
    ensures
        ({
            let luma = matrix.luma(primaries);
            let wide = matrix == MatrixCoefficients::Bt2020NonConstantLuminance || (matrix
                == MatrixCoefficients::Unspecified && primaries == ColorPrimaries::Bt2020);
            &&& matrix == MatrixCoefficients::Bt601 ==> luma.kr == 0x3e99_1687 && luma.kg
                == 0x3f16_45a2 && luma.kb == 0x3de9_78d5
            &&& wide ==> luma.kr == 0x3e86_809d && luma.kg == 0x3f2d_9168 && luma.kb
                == 0x3d72_e48f
            &&& matrix != MatrixCoefficients::Bt601 && !wide ==> luma.kr == 0x3e59_b3d0
                && luma.kg == 0x3f37_1759 && luma.kb == 0x3d93_dd98
            &&& luma.kb < luma.kr < luma.kg
        }),
{
}

/// Where the primaries stand in the diagram, all of them with the D65 white point:
/// BT.2020's red at (0.708, 0.292), green at (0.170, 0.797) and blue at (0.131,
/// 0.046); Display P3's at (0.680, 0.320), (0.265, 0.690) and (0.150, 0.060); and
/// BT.709's at (0.640, 0.330), (0.300, 0.600) and (0.150, 0.060).
pub proof fn lemma_primaries_in_the_diagram(primaries: ColorPrimaries)
    ensures
        ({
            let at = coordinates_of(primaries);
            let wide = primaries == ColorPrimaries::Bt2020;
            let p3 = primaries == ColorPrimaries::DisplayP3;
            &&& at.white.x == 0x3ea0_1a37 && at.white.y == 0x3ea8_72b0
            &&& wide ==> at.red.x == 0x3f35_3f7d && at.red.y == 0x3e95_8106
            &&& wide ==> at.green.x == 0x3e2e_147b && at.green.y == 0x3f4c_0831
            &&& wide ==> at.blue.x == 0x3e06_24dd && at.blue.y == 0x3d3c_6a7f
            &&& p3 ==> at.red.x == 0x3f2e_147b && at.red.y == 0x3ea3_d70a
            &&& p3 ==> at.green.x == 0x3e87_ae14 && at.green.y == 0x3f30_a3d7
            &&& p3 ==> at.blue.x == 0x3e19_999a && at.blue.y == 0x3d75_c28f
            &&& !wide && !p3 ==> at.red.x == 0x3f23_d70a && at.red.y == 0x3ea8_f5c3
            &&& !wide && !p3 ==> at.green.x == 0x3e99_999a && at.green.y == 0x3f19_999a
            &&& !wide && !p3 ==> at.blue.x == 0x3e19_999a && at.blue.y == 0x3d75_c28f
            &&& at.red.x > at.green.x && at.red.x > at.blue.x
            &&& at.green.y > at.red.y && at.green.y > at.blue.y
        }),
{
}

/// What a transfer function implies of a source: a peak of 1000 nits and a white of
/// 203 for PQ and HLG, and 100 nits for both otherwise. What a new source says of its
/// matrix, range and metadata is nothing.
pub proof fn lemma_transfer_implies_the_levels(
    primaries: ColorPrimaries,
    transfer: TransferFunction,
)
    ensures
        ({
            let source = SourceColorState::of(primaries, transfer);
            let hdr = transfer == TransferFunction::Pq || transfer == TransferFunction::Hlg;
            &&& source.primaries == primaries
            &&& source.transfer == transfer
            &&& source.matrix == MatrixCoefficients::Unspecified
            &&& source.range == ColorRange::Unspecified
            &&& source.hdr_metadata is None
            &&& hdr ==> source.nominal_peak_nits == 0x447a_0000
            &&& hdr ==> source.reference_white_nits == 0x434b_0000
            &&& !hdr ==> source.nominal_peak_nits == 0x42c8_0000
            &&& !hdr ==> source.reference_white_nits == 0x42c8_0000
            &&& nominal_peak(transfer) == source.nominal_peak_nits
            &&& reference_white(transfer) == source.reference_white_nits
        }),
{
}

/// The peak of a frame: that of the display it was mastered on where the metadata
/// name one, else its brightest level where they name one above zero, and else what
/// its transfer function implies. A peak that is named counts as one nit at least.
/// Everything else about the frame is as it was decoded.
pub proof fn lemma_frame_peak_is_the_mastering_displays<C: Fn(u32) -> FloatBits>(
    color: FrameColor,
    as_float: C,
    level: FloatBits,
)
    requires
        is_level_conversion(as_float),
        color.hdr_metadata matches Some(metadata) && metadata.content_light matches Some(light)
            ==> as_float.ensures((light.max_content_light_level_nits,), level),
    ensures
        ({
            let source = color.source(as_float);
            let implied = nominal_peak(color.transfer);
            let metadata = color.hdr_metadata;
            let mastered = metadata is Some && metadata->0.mastering_display is Some
                && metadata->0.mastering_display->0.max_luminance_nits is Some;
            let lit = metadata is Some && metadata->0.content_light is Some
                && metadata->0.content_light->0.max_content_light_level_nits > 0;
            &&& source.primaries == color.primaries
            &&& source.transfer == color.transfer
            &&& source.range == color.range
            &&& source.matrix == color.matrix
            &&& source.hdr_metadata == color.hdr_metadata
            &&& source.reference_white_nits == reference_white(color.transfer)
            &&& mastered ==> source.nominal_peak_nits == at_least(
                metadata->0.mastering_display->0.max_luminance_nits->0,
                0x3f80_0000,
            )
            &&& !mastered && lit ==> source.nominal_peak_nits == at_least(level, 0x3f80_0000)
            &&& !mastered && !lit ==> source.nominal_peak_nits == implied
        }),
{
}

/// The larger of a value and a floor is the value where it is a number above the
/// floor, and else the floor: also where the value is negative or no number.
pub proof fn lemma_larger_of_value_and_floor(value: FloatBits, floor: FloatBits)
    requires
        floor <= 0x7f80_0000,
    ensures
        value <= 0x7f80_0000 && value >= floor ==> at_least(value, floor) == value,
        value <= floor ==> at_least(value, floor) == floor,
        value > 0x7f80_0000 ==> at_least(value, floor) == floor,
{
}

/// A number is the same as itself and as no other, but that both zeros are one; what
/// is no number is not even the same as itself.
pub proof fn lemma_same_numbers(left: FloatBits, right: FloatBits)
    ensures
        0x7f80_0000 < left < 0x8000_0000 || left > 0xff80_0000 ==> !same_number(left, right),
        left <= 0x7f80_0000 ==> same_number(left, left),
        0x8000_0000 <= left <= 0xff80_0000 ==> same_number(left, left),
        same_number(0, 0x8000_0000),
        same_number(0x8000_0000, 0),
        left != right && left != 0 && left != 0x8000_0000 ==> !same_number(left, right),
        left != right && right != 0 && right != 0x8000_0000 ==> !same_number(left, right),
{
}

/// A source is HDR by its transfer function, or by a peak more than half above its
/// white. Its tones are mapped where it is HDR and its peak is more than a twentieth
/// above what the target can show.
pub proof fn lemma_bright_sources_are_tone_mapped<
    E: Fn(FloatBits, FloatBits, FloatBits) -> bool,
>(source: SourceColorState, target: TargetColorState, exceeds: E, bright: bool, beyond: bool)
    requires
        is_exceeds(exceeds),
        exceeds.ensures(
            (source.nominal_peak_nits, source.reference_white_nits, 0x3fc0_0000),
            bright,
        ),
        exceeds.ensures((source.nominal_peak_nits, target.peak_nits, 0x3f86_6666), beyond),
    ensures
        source.hdr(exceeds) <==> source.transfer == TransferFunction::Pq || source.transfer
            == TransferFunction::Hlg || bright,
        tone_mapping_required(source, target, exceeds) <==> source.hdr(exceeds) && beyond,
{
    let peak = source.nominal_peak_nits;
    assert(exceeds.ensures((peak, source.reference_white_nits, 0x3fc0_0000), true) ==> bright);
    assert(exceeds.ensures((peak, target.peak_nits, 0x3f86_6666), true) ==> beyond);
}

/// The gamut is mapped exactly where the primaries differ, unknown ones counting as
/// BT.709; so it is never mapped onto itself.
pub proof fn lemma_gamut_is_mapped_between_different_primaries(
    source: SourceColorState,
    target: TargetColorState,
)
    ensures
        source.primaries == target.primaries ==> !gamut_mapping_required(source, target),
        source.primaries != target.primaries && source.primaries != ColorPrimaries::Unknown
            && target.primaries != ColorPrimaries::Unknown ==> gamut_mapping_required(
            source,
            target,
        ),
        source.primaries == ColorPrimaries::Unknown ==> (gamut_mapping_required(source, target)
            <==> target.primaries == ColorPrimaries::Bt2020 || target.primaries
            == ColorPrimaries::DisplayP3),
        target.primaries == ColorPrimaries::Unknown ==> (gamut_mapping_required(source, target)
            <==> source.primaries == ColorPrimaries::Bt2020 || source.primaries
            == ColorPrimaries::DisplayP3),
{
}

/// The targets. Standard output is sRGB with peak and white at 100 nits; HDR10 is PQ
/// up to 10000 nits with its white at 203; and an extended linear output has the
/// white it is given, a peak as many times above as its headroom, and neither below
/// one.
pub proof fn lemma_targets_have_their_levels<M: Fn(FloatBits, FloatBits) -> FloatBits>(
    primaries: ColorPrimaries,
    white: FloatBits,
    headroom: FloatBits,
    multiply: M,
    peak: FloatBits,
)
    requires
        is_product(multiply),
        multiply.ensures((at_least(white, 0x3f80_0000), at_least(headroom, 0x3f80_0000)), peak),
    ensures
        ({
            let standard = TargetColorState::of_sdr(primaries);
            &&& standard.primaries == primaries
            &&& standard.transfer == TransferFunction::Srgb
            &&& standard.peak_nits == 0x42c8_0000
            &&& standard.reference_white_nits == 0x42c8_0000
            &&& standard.edr_headroom == 0x3f80_0000
        }),
        ({
            let bright = TargetColorState::of_hdr10(primaries);
            &&& bright.primaries == primaries
            &&& bright.transfer == TransferFunction::Pq
            &&& bright.peak_nits == 0x461c_4000
            &&& bright.reference_white_nits == 0x434b_0000
            &&& bright.edr_headroom == 0x3f80_0000
        }),
        ({
            let linear = TargetColorState::of_extended_linear(primaries, white, headroom, multiply);
            &&& linear.primaries == primaries
            &&& linear.transfer == TransferFunction::Srgb
            &&& linear.peak_nits == peak
            &&& linear.reference_white_nits == at_least(white, 0x3f80_0000)
            &&& linear.edr_headroom == at_least(headroom, 0x3f80_0000)
        }),
{
}

/// The passes of a frame from its import to its output. All of them, where luma is
/// upscaled, the gamut and the tones are mapped and the picture is scaled; and those
/// that every frame needs, where none of that is done.
pub proof fn lemma_passes_from_import_to_output<
    E: Fn(FloatBits, FloatBits, FloatBits) -> bool,
>(
    source: SourceColorState,
    target: TargetColorState,
    scaler: ScalerConfig,
    luma_upscaler: LumaUpscalerMode,
    exceeds: E,
)
    ensures
        ({
            let kinds = pass_kinds(source, target, scaler, luma_upscaler, exceeds);
            let mapped = gamut_mapping_required(source, target);
            let toned = tone_mapping_required(source, target, exceeds);
            let upscaled = luma_upscaler != LumaUpscalerMode::Off;
            let scaled = scaler.kernel != ScalerKernel::Nearest;
            &&& upscaled && mapped && toned && scaled ==> kinds == seq![
                RenderPassKind::ImportFrame,
                RenderPassKind::NeuralUpscale,
                RenderPassKind::PlaneSampling,
                RenderPassKind::ChromaReconstruction,
                RenderPassKind::TransferDecode,
                RenderPassKind::GamutMap,
                RenderPassKind::ToneMap,
                RenderPassKind::Scale,
                RenderPassKind::OverlayComposite,
                RenderPassKind::Dither,
                RenderPassKind::OutputTransform,
            ]
            &&& !upscaled && !mapped && !toned && !scaled ==> kinds == seq![
                RenderPassKind::ImportFrame,
                RenderPassKind::PlaneSampling,
                RenderPassKind::ChromaReconstruction,
                RenderPassKind::TransferDecode,
                RenderPassKind::OverlayComposite,
                RenderPassKind::Dither,
                RenderPassKind::OutputTransform,
            ]
            &&& kinds[0] == RenderPassKind::ImportFrame
            &&& kinds.last() == RenderPassKind::OutputTransform
            &&& upscaled <==> kinds[1] == RenderPassKind::NeuralUpscale
        }),
{
}

/// What each pass is called.
pub proof fn lemma_passes_are_called(kind: RenderPassKind)
    ensures
        kind == RenderPassKind::ImportFrame ==> pass_label(kind) == "import frame"@,
        kind == RenderPassKind::NeuralUpscale ==> pass_label(kind) == "neural luma upscale"@,
        kind == RenderPassKind::PlaneSampling ==> pass_label(kind) == "sample YCbCr planes"@,
        kind == RenderPassKind::ChromaReconstruction ==> pass_label(kind)
            == "reconstruct chroma"@,
        kind == RenderPassKind::TransferDecode ==> pass_label(kind)
            == "decode transfer function"@,
        kind == RenderPassKind::GamutMap ==> pass_label(kind) == "map gamut"@,
        kind == RenderPassKind::ToneMap ==> pass_label(kind) == "tone map"@,
        kind == RenderPassKind::Scale ==> pass_label(kind) == "scale"@,
        kind == RenderPassKind::OverlayComposite ==> pass_label(kind) == "composite overlays"@,
        kind == RenderPassKind::Dither ==> pass_label(kind) == "dither"@,
        kind == RenderPassKind::OutputTransform ==> pass_label(kind) == "output transform"@,
{
}

/// The input mode's low byte says how the frame is sampled and the bit above it
/// whether its right half is alpha. Setting either leaves the other, and the bits
/// beyond both.
pub proof fn lemma_input_mode_bits(input_mode: u32, base: u32, enabled: bool)
    requires
        base <= 0xff,
    ensures
        with_base_mode(input_mode, base) & 0xff == base,
        with_base_mode(input_mode, base) >> 8 == input_mode >> 8,
        is_packed_alpha(input_mode) <==> input_mode & 0x100 != 0,
        with_packed_alpha(input_mode, enabled) & 0xff == input_mode & 0xff,
        with_packed_alpha(input_mode, enabled) & 0x100 == if enabled {
            0x100u32
        } else {
            0u32
        },
        with_packed_alpha(input_mode, enabled) >> 9 == input_mode >> 9,
{
    assert(((input_mode & !0xffu32) | base) & 0xff == base) by (bit_vector)
        requires
            base <= 0xff,
    ;
    assert(((input_mode & !0xffu32) | base) >> 8 == input_mode >> 8) by (bit_vector)
        requires
            base <= 0xff,
    ;
    assert((input_mode | 0x100) & 0xff == input_mode & 0xff) by (bit_vector);
    assert((input_mode | 0x100) & 0x100 == 0x100) by (bit_vector);
    assert((input_mode | 0x100) >> 9 == input_mode >> 9) by (bit_vector);
    assert((input_mode & !0x100u32) & 0xff == input_mode & 0xff) by (bit_vector);
    assert((input_mode & !0x100u32) & 0x100 == 0) by (bit_vector);
    assert((input_mode & !0x100u32) >> 9 == input_mode >> 9) by (bit_vector);
}

} // verus!
