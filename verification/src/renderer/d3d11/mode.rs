//! Choosing between standard dynamic range and HDR10, and the metadata that an
//! HDR10 display is given.

use crate::color::ColorPrimaries;
use crate::float::{at_least, larger_of, FloatBits};
use crate::renderer::context::RenderFrameContext;
use crate::renderer::d3d11::targets::TargetStep;
use crate::renderer::d3d11::video::D3d11RenderStep;
use crate::renderer::d3d11::{
    AttachedSurface, D3d11OutputMode, D3d11Renderer, D3d11RendererStats,
};
use crate::renderer::pipeline::{
    coordinates_of, flag, primaries_coordinates, Chromaticity, ContentLightMetadata,
    MasteringDisplayMetadata, PrimariesCoordinates, SourceColorState, TargetColorState, NITS_1000,
};
use vstd::prelude::*;

verus! {

/// What is to be done so that a surface has an output mode.
#[derive(Debug, Clone, Copy, PartialEq, Eq, Structural)]
pub enum ModeStep {
    /// It has it already, or there is no surface.
    Unchanged,
    /// The current frame is retired, and the surface's resources are made anew:
    /// see [`D3d11Renderer::rebuild_for_mode`].
    Rebuild,
}

/// What is to be done next to select an output mode.
#[derive(Debug, Clone, Copy, PartialEq, Eq, Structural)]
pub enum SelectStep {
    SetMode { mode: D3d11OutputMode },
    /// The display is told of the source.
    SetMetadata,
    Selected { mode: D3d11OutputMode },
    Failed,
}

impl D3d11Renderer {
    /// The mode that a surface can be given: Flutter shows standard dynamic
    /// range only.
    pub open spec fn possible_mode(self, mode: D3d11OutputMode) -> D3d11OutputMode {
        if self.surface is Some && self.surface->0.flutter_texture {
            D3d11OutputMode::Sdr
        } else {
            mode
        }
    }

    /// Asks for an output mode.
    pub fn set_output_mode(&mut self, mode: D3d11OutputMode) -> (step: ModeStep)
        ensures
            match old(self).surface {
                None => {
                    &&& step == ModeStep::Unchanged
                    &&& *final(self) == (D3d11Renderer {
                        stats: D3d11RendererStats {
                            hdr10_output_active: false,
                            ..old(self).stats
                        },
                        ..*old(self)
                    })
                },
                Some(surface) => {
                    let wanted = old(self).possible_mode(mode);
                    if surface.output_mode == wanted && surface.ready() {
                        &&& step == ModeStep::Unchanged
                        &&& *final(self) == (D3d11Renderer {
                            stats: D3d11RendererStats {
                                hdr10_output_active: wanted == D3d11OutputMode::Hdr10,
                                ..old(self).stats
                            },
                            ..*old(self)
                        })
                    } else {
                        &&& step == ModeStep::Rebuild
                        &&& *final(self) == (D3d11Renderer {
                            surface: Some(AttachedSurface { output_mode: wanted, ..surface }),
                            ..*old(self)
                        })
                    }
                },
            },
    {
        let mut surface: AttachedSurface = match self.surface {
            Some(surface) => surface,
            None => {
                self.stats.hdr10_output_active = false;
                return ModeStep::Unchanged;
            },
        };
        let wanted: D3d11OutputMode = if surface.flutter_texture {
            D3d11OutputMode::Sdr
        } else {
            mode
        };
        if surface.output_mode == wanted && surface.targets_ready() {
            self.stats.hdr10_output_active = wanted == D3d11OutputMode::Hdr10;
            return ModeStep::Unchanged;
        }
        surface.output_mode = wanted;
        self.surface = Some(surface);
        ModeStep::Rebuild
    }

    /// The renderer without its current frame, whose surface's resources are
    /// made anew.
    pub open spec fn mode_rebuilt(self) -> (Self, TargetStep) {
        D3d11Renderer { current_video: None, ..self }.targets_begun()
    }

    /// Starts to make a surface's resources for another output mode. The current
    /// frame goes first, since it was converted for the mode before; where the
    /// device could not be waited for it stays, and nothing is made.
    pub fn rebuild_for_mode(&mut self, waited: bool) -> (step: TargetStep)
        ensures
            (*final(self), step) == if waited {
                old(self).mode_rebuilt()
            } else {
                (*old(self), TargetStep::Failed)
            },
            final(self).at_step(step),
    {
        if !waited {
            return TargetStep::Failed;
        }
        self.retire_current_video();
        self.begin_targets()
    }

    /// Whether HDR10 output is tried for a source. Packed alpha is composited
    /// in standard dynamic range, and so is what Flutter shows.
    pub open spec fn tries_hdr10(self, source_is_pq: bool) -> bool {
        &&& source_is_pq
        &&& !self.video_has_alpha
        &&& self.has_device
        &&& self.surface matches Some(surface) && !surface.flutter_texture
        &&& !self.hdr10_output_unavailable
    }

    /// Starts selecting the output mode of a source.
    pub fn begin_selection(&mut self, source_is_hdr: bool, source_is_pq: bool) -> (step: SelectStep)
        requires
            old(self).stats.has_room(),
        ensures
            step == (SelectStep::SetMode {
                mode: if old(self).tries_hdr10(source_is_pq) {
                    D3d11OutputMode::Hdr10
                } else {
                    D3d11OutputMode::Sdr
                },
            }),
            *final(self) == (D3d11Renderer {
                stats: D3d11RendererStats {
                    hdr_source_frames: (old(self).stats.hdr_source_frames + flag(
                        source_is_hdr,
                    )) as u64,
                    ..old(self).stats
                },
                ..*old(self)
            }),
    {
        if source_is_hdr {
            self.stats.hdr_source_frames = self.stats.hdr_source_frames + 1;
        }
        let can_show: bool = match self.surface {
            Some(surface) => !surface.flutter_texture,
            None => false,
        };
        let mode: D3d11OutputMode = if source_is_pq && !self.video_has_alpha && self.has_device
            && can_show && !self.hdr10_output_unavailable {
            D3d11OutputMode::Hdr10
        } else {
            D3d11OutputMode::Sdr
        };
        SelectStep::SetMode { mode }
    }

    /// What follows from a step of the selection.
    pub open spec fn selection_answered_with(
        self,
        step: SelectStep,
        source_is_hdr: bool,
        succeeded: bool,
    ) -> (Self, SelectStep) {
        match (step, succeeded) {
            (SelectStep::SetMode { mode: D3d11OutputMode::Sdr }, true) => (
                D3d11Renderer {
                    stats: D3d11RendererStats {
                        sdr_tonemap_frames: (self.stats.sdr_tonemap_frames + flag(
                            source_is_hdr,
                        )) as u64,
                        ..self.stats
                    },
                    ..self
                },
                SelectStep::Selected { mode: D3d11OutputMode::Sdr },
            ),
            (SelectStep::SetMode { mode: D3d11OutputMode::Sdr }, false) => (
                self,
                SelectStep::Failed,
            ),
            (SelectStep::SetMode { mode: D3d11OutputMode::Hdr10 }, true) => (
                self,
                SelectStep::SetMetadata,
            ),
            (SelectStep::SetMode { mode: D3d11OutputMode::Hdr10 }, false) => (
                D3d11Renderer {
                    hdr10_output_unavailable: true,
                    stats: D3d11RendererStats {
                        hdr10_output_failures: (self.stats.hdr10_output_failures + 1) as u64,
                        ..self.stats
                    },
                    ..self
                },
                SelectStep::SetMode { mode: D3d11OutputMode::Sdr },
            ),
            (SelectStep::SetMetadata, true) => (
                D3d11Renderer {
                    stats: D3d11RendererStats {
                        hdr10_metadata_updates: (self.stats.hdr10_metadata_updates + 1) as u64,
                        hdr10_output_frames: (self.stats.hdr10_output_frames + 1) as u64,
                        ..self.stats
                    },
                    ..self
                },
                SelectStep::Selected { mode: D3d11OutputMode::Hdr10 },
            ),
            (SelectStep::SetMetadata, false) => (
                D3d11Renderer {
                    hdr10_output_unavailable: true,
                    stats: D3d11RendererStats {
                        hdr10_metadata_failures: (self.stats.hdr10_metadata_failures + 1) as u64,
                        ..self.stats
                    },
                    ..self
                },
                SelectStep::SetMode { mode: D3d11OutputMode::Sdr },
            ),
            (finished, _) => (self, finished),
        }
    }

    /// Takes in whether a step of the selection succeeded. HDR10 output that
    /// fails is not tried again on this surface; the frame is then shown in
    /// standard dynamic range.
    pub fn selection_answered(
        &mut self,
        step: SelectStep,
        source_is_hdr: bool,
        succeeded: bool,
    ) -> (next: SelectStep)
        requires
            old(self).stats.has_room(),
        ensures
            (*final(self), next) == old(self).selection_answered_with(
                step,
                source_is_hdr,
                succeeded,
            ),
    {
        match step {
            SelectStep::SetMode { mode } => {
                if mode == D3d11OutputMode::Sdr {
                    if !succeeded {
                        return SelectStep::Failed;
                    }
                    if source_is_hdr {
                        self.stats.sdr_tonemap_frames = self.stats.sdr_tonemap_frames + 1;
                    }
                    SelectStep::Selected { mode: D3d11OutputMode::Sdr }
                } else if succeeded {
                    SelectStep::SetMetadata
                } else {
                    self.stats.hdr10_output_failures = self.stats.hdr10_output_failures + 1;
                    self.hdr10_output_unavailable = true;
                    SelectStep::SetMode { mode: D3d11OutputMode::Sdr }
                }
            },
            SelectStep::SetMetadata => {
                if succeeded {
                    self.stats.hdr10_metadata_updates = self.stats.hdr10_metadata_updates + 1;
                    self.stats.hdr10_output_frames = self.stats.hdr10_output_frames + 1;
                    SelectStep::Selected { mode: D3d11OutputMode::Hdr10 }
                } else {
                    self.stats.hdr10_metadata_failures = self.stats.hdr10_metadata_failures + 1;
                    self.hdr10_output_unavailable = true;
                    SelectStep::SetMode { mode: D3d11OutputMode::Sdr }
                }
            },
            finished => finished,
        }
    }

    /// The colours that overlays are drawn in: those of the surface.
    pub open spec fn overlay_target(self) -> TargetColorState {
        match self.surface {
            Some(surface) => surface.output_mode.target(),
            None => D3d11OutputMode::Sdr.target(),
        }
    }

    /// The colours that overlays are composited in.
    pub fn overlay_target_color(&self) -> (target: TargetColorState)
        ensures
            target == self.overlay_target(),
    {
        let mode: D3d11OutputMode = match self.surface {
            Some(surface) => surface.output_mode,
            None => D3d11OutputMode::Sdr,
        };
        mode.target_color()
    }
}

/// No frame outlives a change of the output mode: until another one is imported
/// nothing is rendered.
pub proof fn lemma_mode_change_retires_the_frame(
    renderer: D3d11Renderer,
    context: RenderFrameContext<'_>,
)
    ensures
        renderer.mode_rebuilt().0.current_video is None,
        renderer.mode_rebuilt().0.next_render_step(context) == D3d11RenderStep::NoFrame,
{
}

/// HDR10 output that has failed is not tried again.
pub proof fn lemma_failed_hdr10_is_not_tried_again(
    renderer: D3d11Renderer,
    step: SelectStep,
    source_is_hdr: bool,
    source_is_pq: bool,
)
    requires
        step == SelectStep::SetMetadata || step == (SelectStep::SetMode {
            mode: D3d11OutputMode::Hdr10,
        }),
    ensures
        ({
            let (after, next) = renderer.selection_answered_with(step, source_is_hdr, false);
            &&& next == (SelectStep::SetMode { mode: D3d11OutputMode::Sdr })
            &&& !after.tries_hdr10(source_is_pq)
        }),
{
}

/// A selection ends after at most three steps, however they come out.
pub proof fn lemma_selection_ends(
    renderer: D3d11Renderer,
    step: SelectStep,
    source_is_hdr: bool,
    first: bool,
    second: bool,
    third: bool,
)
    ensures
        ({
            let (one, step1) = renderer.selection_answered_with(step, source_is_hdr, first);
            let (two, step2) = one.selection_answered_with(step1, source_is_hdr, second);
            let (three, step3) = two.selection_answered_with(step2, source_is_hdr, third);
            step3 is Selected || step3 is Failed
        }),
{
}

/// A light level of HDR10 metadata.
#[derive(Debug, Clone, Copy, PartialEq, Eq, Structural)]
pub enum LightLevel {
    /// The level that the content names, as far as it can be said.
    Known { nits: u16 },
    /// A share of the mastering luminance, in percent.
    ShareOfMastering { percent: u32 },
}

/// What an HDR10 display is told of a source.
#[derive(Debug, Clone, Copy, PartialEq, Eq, Structural)]
pub struct Hdr10Metadata {
    pub primaries: PrimariesCoordinates,
    pub max_mastering_nits: FloatBits,
    pub min_mastering_nits: FloatBits,
    pub max_content_light_level: LightLevel,
    pub max_frame_average_light_level: LightLevel,
}

/// The least luminance that a mastering display is taken to have, 0.005 nits.
pub const DEFAULT_MIN_MASTERING_NITS: FloatBits = 0x3ba3_d70a;

/// The largest light level that can be said.
pub open spec fn clamped(value: u32) -> u16 {
    if value <= u16::MAX {
        value as u16
    } else {
        u16::MAX
    }
}

pub fn clamp_u16(value: u32) -> (level: u16)
    ensures
        level == clamped(value),
{
    if value <= u16::MAX as u32 {
        value as u16
    } else {
        u16::MAX
    }
}

pub open spec fn mastering_of(source: SourceColorState) -> Option<MasteringDisplayMetadata> {
    match source.hdr_metadata {
        Some(metadata) => metadata.mastering_display,
        None => None,
    }
}

pub open spec fn content_light_of(source: SourceColorState) -> Option<ContentLightMetadata> {
    match source.hdr_metadata {
        Some(metadata) => metadata.content_light,
        None => None,
    }
}

/// The primaries of the mastering display, or those of BT.2020. A white point
/// counts only beside primaries.
pub open spec fn mastering_primaries(source: SourceColorState) -> PrimariesCoordinates {
    let standard = coordinates_of(ColorPrimaries::Bt2020);
    match mastering_of(source) {
        Some(mastering) => match mastering.display_primaries {
            Some(primaries) => PrimariesCoordinates {
                red: primaries@[0],
                green: primaries@[1],
                blue: primaries@[2],
                white: match mastering.white_point {
                    Some(white) => white,
                    None => standard.white,
                },
            },
            None => standard,
        },
        None => standard,
    }
}

pub open spec fn max_mastering(source: SourceColorState) -> FloatBits {
    match mastering_of(source) {
        Some(MasteringDisplayMetadata { max_luminance_nits: Some(nits), .. }) => nits,
        _ => at_least(source.nominal_peak_nits, NITS_1000),
    }
}

pub open spec fn min_mastering(source: SourceColorState) -> FloatBits {
    match mastering_of(source) {
        Some(MasteringDisplayMetadata { min_luminance_nits: Some(nits), .. }) => nits,
        _ => DEFAULT_MIN_MASTERING_NITS,
    }
}

/// What an HDR10 display is told of a source: what its metadata name, and
/// otherwise what is usual.
pub fn dxgi_hdr10_metadata(source: SourceColorState) -> (metadata: Hdr10Metadata)
    ensures
        metadata == (Hdr10Metadata {
            primaries: mastering_primaries(source),
            max_mastering_nits: max_mastering(source),
            min_mastering_nits: min_mastering(source),
            max_content_light_level: match content_light_of(source) {
                Some(light) => LightLevel::Known {
                    nits: clamped(light.max_content_light_level_nits),
                },
                None => LightLevel::ShareOfMastering { percent: 100 },
            },
            max_frame_average_light_level: match content_light_of(source) {
                Some(light) => LightLevel::Known {
                    nits: clamped(light.max_frame_average_light_level_nits),
                },
                None => LightLevel::ShareOfMastering { percent: 40 },
            },
        }),
{
    let mastering: Option<MasteringDisplayMetadata> = match source.hdr_metadata {
        Some(metadata) => metadata.mastering_display,
        None => None,
    };
    let content_light: Option<ContentLightMetadata> = match source.hdr_metadata {
        Some(metadata) => metadata.content_light,
        None => None,
    };
    let standard: PrimariesCoordinates = primaries_coordinates(ColorPrimaries::Bt2020);
    let mut primaries: PrimariesCoordinates = standard;
    let mut max_mastering_nits: FloatBits = larger_of(source.nominal_peak_nits, NITS_1000);
    let mut min_mastering_nits: FloatBits = DEFAULT_MIN_MASTERING_NITS;
    if let Some(display) = mastering {
        if let Some(coordinates) = display.display_primaries {
            let white: Chromaticity = match display.white_point {
                Some(white) => white,
                None => standard.white,
            };
            primaries =
            PrimariesCoordinates {
                red: coordinates[0],
                green: coordinates[1],
                blue: coordinates[2],
                white,
            };
        }
        if let Some(nits) = display.max_luminance_nits {
            max_mastering_nits = nits;
        }
        if let Some(nits) = display.min_luminance_nits {
            min_mastering_nits = nits;
        }
    }
    let (max_content_light_level, max_frame_average_light_level) = match content_light {
        Some(light) => (
            LightLevel::Known { nits: clamp_u16(light.max_content_light_level_nits) },
            LightLevel::Known { nits: clamp_u16(light.max_frame_average_light_level_nits) },
        ),
        None => (
            LightLevel::ShareOfMastering { percent: 100 },
            LightLevel::ShareOfMastering { percent: 40 },
        ),
    };
    Hdr10Metadata {
        primaries,
        max_mastering_nits,
        min_mastering_nits,
        max_content_light_level,
        max_frame_average_light_level,
    }
}

} // verus!
