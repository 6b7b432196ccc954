//! Decoded frames as the renderers see them.

use crate::color::{ColorPrimaries, TransferFunction};
use crate::float::{FloatBits, ZERO};
use crate::renderer::pipeline::{
    code_of_tone_map, code_of_transfer, flag, is_exceeds, is_level_conversion, ColorRange,
    HdrMetadata, MatrixCoefficients, SourceColorState, TargetColorState, ToneMapOperator,
    VideoRenderPipeline, VideoUniforms,
};
use crate::time::Duration;
use vstd::prelude::*;

verus! {

/// Where a frame was decoded.
#[derive(Debug, Clone, Copy, PartialEq, Eq, Structural)]
pub enum DecoderBackend {
    Software,
    VideoToolbox,
    D3d11va,
    MediaCodec,
    AvCodec,
}

/// A decoded frame on its way to the screen.
#[derive(Debug)]
pub struct PlayerVideoFrame<F> {
    pub frame: F,
    pub decode_backend: DecoderBackend,
    pub pts: Option<Duration>,
    pub media_time: Duration,
    pub late_by: Duration,
    pub generation: u64,
}

/// Keeps a decoded frame: `clone_ref` takes another reference to its data, and
/// everything else is copied.
pub fn retain_player_video_frame<F, X, C: FnOnce(&F) -> Result<F, X>>(
    frame: &PlayerVideoFrame<F>,
    clone_ref: C,
) -> (retained: Result<PlayerVideoFrame<F>, X>)
    requires
        clone_ref.requires((&frame.frame,)),
    ensures
        match retained {
            Ok(retained) => {
                &&& clone_ref.ensures((&frame.frame,), Ok(retained.frame))
                &&& retained.decode_backend == frame.decode_backend
                &&& retained.pts == frame.pts
                &&& retained.media_time == frame.media_time
                &&& retained.late_by == frame.late_by
                &&& retained.generation == frame.generation
            },
            Err(error) => clone_ref.ensures((&frame.frame,), Err(error)),
        },
{
    match clone_ref(&frame.frame) {
        Ok(data) => Ok(
            PlayerVideoFrame {
                frame: data,
                decode_backend: frame.decode_backend,
                pts: frame.pts,
                media_time: frame.media_time,
                late_by: frame.late_by,
                generation: frame.generation,
            },
        ),
        Err(error) => Err(error),
    }
}

/// How the colours of a decoded frame are to be read.
#[derive(Debug, Clone, Copy)]
pub struct FrameColor {
    pub primaries: ColorPrimaries,
    pub transfer: TransferFunction,
    pub range: ColorRange,
    pub matrix: MatrixCoefficients,
    pub hdr_metadata: Option<HdrMetadata>,
}

impl FrameColor {
    pub open spec fn source<C: Fn(u32) -> FloatBits>(self, as_float: C) -> SourceColorState {
        SourceColorState {
            range: self.range,
            matrix: self.matrix,
            ..SourceColorState::of(self.primaries, self.transfer)
        }.with_metadata(self.hdr_metadata, as_float)
    }
}

/// The colours of a decoded frame as a source of the pipeline.
pub fn source_color_for_player_frame<C: Fn(u32) -> FloatBits>(color: FrameColor, as_float: &C) -> (
source: SourceColorState)
    requires
        is_level_conversion(*as_float),
    ensures
        source == color.source(*as_float),
{
    SourceColorState::new(color.primaries, color.transfer).range(color.range).matrix(
        color.matrix,
    ).hdr_metadata(color.hdr_metadata, as_float)
}

/// The rows of a gamut matrix, padded for the shaders.
pub type GamutRows = [[FloatBits; 4]; 3];

/// `gamut` accepts everything and depends on its arguments alone.
pub open spec fn is_gamut<G: Fn(ColorPrimaries, ColorPrimaries) -> GamutRows>(gamut: G) -> bool {
    &&& forall|source: ColorPrimaries, target: ColorPrimaries| #[trigger]
        gamut.requires((source, target))
    &&& forall|
        source: ColorPrimaries,
        target: ColorPrimaries,
        first: GamutRows,
        second: GamutRows,
    |
        #[trigger] gamut.ensures((source, target), first) && #[trigger] gamut.ensures(
            (source, target),
            second,
        ) ==> first == second
}

/// The gamut matrix that `gamut` gives.
pub open spec fn gamut_rows<G: Fn(ColorPrimaries, ColorPrimaries) -> GamutRows>(
    gamut: G,
    source: ColorPrimaries,
    target: ColorPrimaries,
) -> GamutRows {
    choose|rows: GamutRows| gamut.ensures((source, target), rows)
}

/// Whether uniforms turn a source into a target, with the default tone mapping.
pub open spec fn converts<G: Fn(ColorPrimaries, ColorPrimaries) -> GamutRows>(
    uniforms: VideoUniforms,
    source: SourceColorState,
    target: TargetColorState,
    edr_output: bool,
    gamut: G,
) -> bool {
    let luma = source.matrix.luma(source.primaries);
    &&& uniforms.full_range == flag(source.range == ColorRange::Full)
    &&& uniforms.source_transfer == code_of_transfer(source.transfer)
    &&& uniforms.target_transfer == code_of_transfer(target.transfer)
    &&& uniforms.tone_map == code_of_tone_map(ToneMapOperator::Mobius)
    &&& uniforms.edr_output == flag(edr_output)
    &&& uniforms.nits@ == seq![
        source.nominal_peak_nits,
        target.peak_nits,
        source.reference_white_nits,
        target.reference_white_nits,
    ]
    &&& uniforms.luma_coefficients@ == seq![luma.kr, luma.kg, luma.kb, ZERO]
    &&& uniforms.gamut_matrix_rows == gamut_rows(gamut, source.primaries, target.primaries)
}

/// The uniforms that turn a source into a target.
pub fn uniforms_for<
    E: Fn(FloatBits, FloatBits, FloatBits) -> bool,
    G: Fn(ColorPrimaries, ColorPrimaries) -> GamutRows,
>(
    source: SourceColorState,
    target: TargetColorState,
    is_p010: bool,
    edr_output: bool,
    exceeds: &E,
    gamut: &G,
) -> (uniforms: VideoUniforms)
    requires
        is_exceeds(*exceeds),
        is_gamut(*gamut),
    ensures
        converts(uniforms, source, target, edr_output, *gamut),
        uniforms.source_transfer == match source.transfer {
            TransferFunction::Srgb => 1u32,
            TransferFunction::Bt1886 => 2u32,
            TransferFunction::Pq => 3u32,
            TransferFunction::Hlg => 4u32,
            TransferFunction::Unknown => 1u32,
        },
        uniforms.target_transfer == match target.transfer {
            TransferFunction::Srgb => 1u32,
            TransferFunction::Bt1886 => 2u32,
            TransferFunction::Pq => 3u32,
            TransferFunction::Hlg => 4u32,
            TransferFunction::Unknown => 1u32,
        },
        uniforms.is_p010 == flag(is_p010),
        uniforms.input_mode == 0,
        uniforms.scene_linear == 0,
{
    let pipeline: VideoRenderPipeline = VideoRenderPipeline::new(source, target, exceeds);
    let rows: GamutRows = gamut(source.primaries, target.primaries);
    VideoUniforms::from_pipeline(&pipeline, is_p010, edr_output, rows)
}

} // verus!
