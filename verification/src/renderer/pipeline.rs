//! The colour pipeline: source and target states, the render graph and the
//! uniforms that the video shaders share.
//!
//! Luminances and colour coefficients are floating point bit patterns. The
//! few products that decide something are handed in: `exceeds` tells whether
//! a value is greater than a base times a factor.

use crate::color::{ColorPrimaries, TransferFunction};
use crate::float::{at_least, larger_of, FloatBits, ONE, ZERO};
use vstd::prelude::*;

verus! {

pub const VIDEO_INPUT_MODE_MASK: u32 = 0xff;

pub const VIDEO_INPUT_PACKED_ALPHA_RIGHT: u32 = 0x100;

/// One hundred nits.
pub const NITS_100: FloatBits = 0x42c8_0000;

/// Two hundred and three nits, the reference white of HDR.
pub const NITS_203: FloatBits = 0x434b_0000;

/// One thousand nits.
pub const NITS_1000: FloatBits = 0x447a_0000;

/// Ten thousand nits.
pub const NITS_10000: FloatBits = 0x461c_4000;

/// One and a half: a source that much brighter than its white is HDR.
pub const HDR_PEAK_FACTOR: FloatBits = 0x3fc0_0000;

/// One and a twentieth: the excess over the target peak that is left alone.
pub const TONE_MAP_PEAK_FACTOR: FloatBits = 0x3f86_6666;

/// Three quarters.
pub const KNEE_START: FloatBits = 0x3f40_0000;

/// `exceeds` accepts everything and depends on its arguments alone.
pub open spec fn is_exceeds<E: Fn(FloatBits, FloatBits, FloatBits) -> bool>(exceeds: E) -> bool {
    &&& forall|value: FloatBits, base: FloatBits, factor: FloatBits| #[trigger]
        exceeds.requires((value, base, factor))
    &&& forall|value: FloatBits, base: FloatBits, factor: FloatBits|
        !(#[trigger] exceeds.ensures((value, base, factor), true) && exceeds.ensures(
            (value, base, factor),
            false,
        ))
}

/// Whether `value` is greater than `base` times `factor`.
pub open spec fn is_greater<E: Fn(FloatBits, FloatBits, FloatBits) -> bool>(
    exceeds: E,
    value: FloatBits,
    base: FloatBits,
    factor: FloatBits,
) -> bool {
    exceeds.ensures((value, base, factor), true)
}

#[derive(Debug, Clone, Copy, PartialEq)]
pub struct HdrMetadata {
    pub mastering_display: Option<MasteringDisplayMetadata>,
    pub content_light: Option<ContentLightMetadata>,
}

/// `as_float` accepts everything and depends on its argument alone.
pub open spec fn is_level_conversion<C: Fn(u32) -> FloatBits>(as_float: C) -> bool {
    &&& forall|level: u32| #[trigger] as_float.requires((level,))
    &&& forall|level: u32, first: FloatBits, second: FloatBits|
        #[trigger] as_float.ensures((level,), first) && #[trigger] as_float.ensures(
            (level,),
            second,
        ) ==> first == second
}

/// A light level as a floating point number.
pub open spec fn level_as_float<C: Fn(u32) -> FloatBits>(as_float: C, level: u32) -> FloatBits {
    choose|bits: FloatBits| as_float.ensures((level,), bits)
}

impl HdrMetadata {
    pub fn new(
        mastering_display: Option<MasteringDisplayMetadata>,
        content_light: Option<ContentLightMetadata>,
    ) -> (metadata: Self)
        ensures
            metadata.mastering_display == mastering_display,
            metadata.content_light == content_light,
    {
        HdrMetadata { mastering_display, content_light }
    }

    /// The peak of the mastering display, or else the content's own.
    pub open spec fn peak<C: Fn(u32) -> FloatBits>(self, as_float: C) -> Option<FloatBits> {
        match self.mastering_display {
            Some(display) if display.max_luminance_nits is Some => display.max_luminance_nits,
            _ => match self.content_light {
                Some(light) => light.level(as_float),
                None => None,
            },
        }
    }

    pub fn nominal_peak_nits<C: Fn(u32) -> FloatBits>(self, as_float: &C) -> (peak: Option<
        FloatBits,
    >)
        requires
            is_level_conversion(*as_float),
        ensures
            peak == self.peak(*as_float),
    {
        if let Some(display) = self.mastering_display {
            if display.max_luminance_nits.is_some() {
                return display.max_luminance_nits;
            }
        }
        match self.content_light {
            Some(light) => light.max_content_light_level_nits(as_float),
            None => None,
        }
    }
}

#[derive(Debug, Clone, Copy, PartialEq)]
pub struct MasteringDisplayMetadata {
    pub display_primaries: Option<[Chromaticity; 3]>,
    pub white_point: Option<Chromaticity>,
    pub min_luminance_nits: Option<FloatBits>,
    pub max_luminance_nits: Option<FloatBits>,
}

impl MasteringDisplayMetadata {
    pub fn max_luminance_nits(self) -> (nits: Option<FloatBits>)
        ensures
            nits == self.max_luminance_nits,
    {
        self.max_luminance_nits
    }
}

#[derive(Debug, Clone, Copy, PartialEq, Eq, Structural)]
pub struct ContentLightMetadata {
    pub max_content_light_level_nits: u32,
    pub max_frame_average_light_level_nits: u32,
}

impl ContentLightMetadata {
    /// The content's brightest level; zero means that it is not known.
    pub open spec fn level<C: Fn(u32) -> FloatBits>(self, as_float: C) -> Option<FloatBits> {
        if self.max_content_light_level_nits == 0 {
            None
        } else {
            Some(level_as_float(as_float, self.max_content_light_level_nits))
        }
    }

    pub fn max_content_light_level_nits<C: Fn(u32) -> FloatBits>(self, as_float: &C) -> (level:
        Option<FloatBits>)
        requires
            is_level_conversion(*as_float),
        ensures
            level == self.level(*as_float),
    {
        if self.max_content_light_level_nits == 0 {
            None
        } else {
            Some(as_float(self.max_content_light_level_nits))
        }
    }
}

#[derive(Debug, Clone, Copy, PartialEq, Eq, Structural)]
pub enum ColorRange {
    Unspecified,
    Limited,
    Full,
}

impl Default for ColorRange {
    fn default() -> (range: Self)
        ensures
            range == ColorRange::Unspecified,
    {
        ColorRange::Unspecified
    }
}

impl ColorRange {
    pub open spec fn resolved(self, fallback: Self) -> Self {
        if self == ColorRange::Unspecified {
            fallback
        } else {
            self
        }
    }

    pub fn resolve(self, fallback: Self) -> (range: Self)
        ensures
            range == self.resolved(fallback),
    {
        match self {
            ColorRange::Unspecified => fallback,
            _ => self,
        }
    }
}

/// A range that is resolved stays as it is, and with a definite fallback the
/// result is definite.
pub proof fn lemma_resolved_range_is_final(
    range: ColorRange,
    fallback: ColorRange,
    other: ColorRange,
)
    requires
        fallback != ColorRange::Unspecified,
    ensures
        range.resolved(fallback) != ColorRange::Unspecified,
        range.resolved(fallback).resolved(other) == range.resolved(fallback),
{
}

#[derive(Debug, Clone, Copy, PartialEq, Eq, Structural)]
pub enum MatrixCoefficients {
    Unspecified,
    Identity,
    Bt601,
    Bt709,
    Bt2020NonConstantLuminance,
}

impl Default for MatrixCoefficients {
    fn default() -> (matrix: Self)
        ensures
            matrix == MatrixCoefficients::Unspecified,
    {
        MatrixCoefficients::Unspecified
    }
}

impl MatrixCoefficients {
    /// The matrix to use: an unspecified one follows the primaries.
    pub open spec fn resolved(self, primaries: ColorPrimaries) -> Self {
        if self != MatrixCoefficients::Unspecified {
            self
        } else if primaries == ColorPrimaries::Bt2020 {
            MatrixCoefficients::Bt2020NonConstantLuminance
        } else {
            MatrixCoefficients::Bt709
        }
    }

    pub fn resolve(self, primaries: ColorPrimaries) -> (matrix: Self)
        ensures
            matrix == self.resolved(primaries),
    {
        if self != MatrixCoefficients::Unspecified {
            return self;
        }
        match primaries {
            ColorPrimaries::Bt2020 => MatrixCoefficients::Bt2020NonConstantLuminance,
            ColorPrimaries::Bt709 | ColorPrimaries::DisplayP3 => MatrixCoefficients::Bt709,
            ColorPrimaries::Unknown => MatrixCoefficients::Bt709,
        }
    }

    /// The luma weights of the matrix to use.
    pub open spec fn luma(self, primaries: ColorPrimaries) -> LumaCoefficients {
        match self.resolved(primaries) {
            MatrixCoefficients::Bt601 => LumaCoefficients {
                kr: 0x3e99_1687,
                kg: 0x3f16_45a2,
                kb: 0x3de9_78d5,
            },
            MatrixCoefficients::Bt2020NonConstantLuminance => LumaCoefficients {
                kr: 0x3e86_809d,
                kg: 0x3f2d_9168,
                kb: 0x3d72_e48f,
            },
            _ => LumaCoefficients { kr: 0x3e59_b3d0, kg: 0x3f37_1759, kb: 0x3d93_dd98 },
        }
    }

    pub fn luma_coefficients(self, primaries: ColorPrimaries) -> (luma: LumaCoefficients)
        ensures
            luma == self.luma(primaries),
    {
        match self.resolve(primaries) {
            MatrixCoefficients::Bt601 => LumaCoefficients::new(
                0x3e99_1687,
                0x3f16_45a2,
                0x3de9_78d5,
            ),
            MatrixCoefficients::Bt2020NonConstantLuminance => LumaCoefficients::new(
                0x3e86_809d,
                0x3f2d_9168,
                0x3d72_e48f,
            ),
            _ => LumaCoefficients::new(0x3e59_b3d0, 0x3f37_1759, 0x3d93_dd98),
        }
    }
}

/// A resolved matrix is definite and stays as it is, whatever the primaries.
pub proof fn lemma_resolved_matrix_is_final(
    matrix: MatrixCoefficients,
    primaries: ColorPrimaries,
    other: ColorPrimaries,
)
    ensures
        matrix.resolved(primaries) != MatrixCoefficients::Unspecified,
        matrix.resolved(primaries).resolved(other) == matrix.resolved(primaries),
{
}

#[derive(Debug, Clone, Copy, PartialEq, Eq, Structural)]
pub struct LumaCoefficients {
    pub kr: FloatBits,
    pub kg: FloatBits,
    pub kb: FloatBits,
}

impl LumaCoefficients {
    pub fn new(kr: FloatBits, kg: FloatBits, kb: FloatBits) -> (luma: Self)
        ensures
            luma == (LumaCoefficients { kr, kg, kb }),
    {
        LumaCoefficients { kr, kg, kb }
    }
}

#[derive(Debug, Clone, Copy, PartialEq, Eq, Structural)]
pub struct Chromaticity {
    pub x: FloatBits,
    pub y: FloatBits,
}

impl Chromaticity {
    pub fn new(x: FloatBits, y: FloatBits) -> (chromaticity: Self)
        ensures
            chromaticity == (Chromaticity { x, y }),
    {
        Chromaticity { x, y }
    }
}

#[derive(Debug, Clone, Copy, PartialEq, Eq, Structural)]
pub struct PrimariesCoordinates {
    pub red: Chromaticity,
    pub green: Chromaticity,
    pub blue: Chromaticity,
    pub white: Chromaticity,
}

impl PrimariesCoordinates {
    pub fn new(
        red: Chromaticity,
        green: Chromaticity,
        blue: Chromaticity,
        white: Chromaticity,
    ) -> (coordinates: Self)
        ensures
            coordinates == (PrimariesCoordinates { red, green, blue, white }),
    {
        PrimariesCoordinates { red, green, blue, white }
    }
}

/// The D65 white point.
pub open spec fn d65_white() -> Chromaticity {
    Chromaticity { x: 0x3ea0_1a37, y: 0x3ea8_72b0 }
}

/// The chromaticities of a set of primaries.
pub open spec fn coordinates_of(primaries: ColorPrimaries) -> PrimariesCoordinates {
    match resolved_primaries(primaries) {
        ColorPrimaries::Bt2020 => PrimariesCoordinates {
            red: Chromaticity { x: 0x3f35_3f7d, y: 0x3e95_8106 },
            green: Chromaticity { x: 0x3e2e_147b, y: 0x3f4c_0831 },
            blue: Chromaticity { x: 0x3e06_24dd, y: 0x3d3c_6a7f },
            white: d65_white(),
        },
        ColorPrimaries::DisplayP3 => PrimariesCoordinates {
            red: Chromaticity { x: 0x3f2e_147b, y: 0x3ea3_d70a },
            green: Chromaticity { x: 0x3e87_ae14, y: 0x3f30_a3d7 },
            blue: Chromaticity { x: 0x3e19_999a, y: 0x3d75_c28f },
            white: d65_white(),
        },
        _ => PrimariesCoordinates {
            red: Chromaticity { x: 0x3f23_d70a, y: 0x3ea8_f5c3 },
            green: Chromaticity { x: 0x3e99_999a, y: 0x3f19_999a },
            blue: Chromaticity { x: 0x3e19_999a, y: 0x3d75_c28f },
            white: d65_white(),
        },
    }
}

pub fn primaries_coordinates(primaries: ColorPrimaries) -> (coordinates: PrimariesCoordinates)
    ensures
        coordinates == coordinates_of(primaries),
{
    let white: Chromaticity = Chromaticity::new(0x3ea0_1a37, 0x3ea8_72b0);
    match resolve_primaries(primaries) {
        ColorPrimaries::Bt2020 => PrimariesCoordinates::new(
            Chromaticity::new(0x3f35_3f7d, 0x3e95_8106),
            Chromaticity::new(0x3e2e_147b, 0x3f4c_0831),
            Chromaticity::new(0x3e06_24dd, 0x3d3c_6a7f),
            white,
        ),
        ColorPrimaries::DisplayP3 => PrimariesCoordinates::new(
            Chromaticity::new(0x3f2e_147b, 0x3ea3_d70a),
            Chromaticity::new(0x3e87_ae14, 0x3f30_a3d7),
            Chromaticity::new(0x3e19_999a, 0x3d75_c28f),
            white,
        ),
        ColorPrimaries::Bt709 | ColorPrimaries::Unknown => PrimariesCoordinates::new(
            Chromaticity::new(0x3f23_d70a, 0x3ea8_f5c3),
            Chromaticity::new(0x3e99_999a, 0x3f19_999a),
            Chromaticity::new(0x3e19_999a, 0x3d75_c28f),
            white,
        ),
    }
}

/// The primaries to use: unknown ones count as BT.709.
pub open spec fn resolved_primaries(primaries: ColorPrimaries) -> ColorPrimaries {
    if primaries == ColorPrimaries::Unknown {
        ColorPrimaries::Bt709
    } else {
        primaries
    }
}

pub fn resolve_primaries(primaries: ColorPrimaries) -> (resolved: ColorPrimaries)
    ensures
        resolved == resolved_primaries(primaries),
{
    match primaries {
        ColorPrimaries::Unknown => ColorPrimaries::Bt709,
        _ => primaries,
    }
}

#[derive(Debug, Clone, Copy, PartialEq, Eq, Structural)]
pub enum ToneMapOperator {
    Clip,
    Reinhard,
    Mobius,
}

impl Default for ToneMapOperator {
    fn default() -> (operator: Self)
        ensures
            operator == ToneMapOperator::Mobius,
    {
        ToneMapOperator::Mobius
    }
}

#[derive(Debug, Clone, Copy, PartialEq, Eq, Structural)]
pub enum ScalerKernel {
    Nearest,
    Bilinear,
    Bicubic,
    Lanczos3,
}

impl Default for ScalerKernel {
    fn default() -> (kernel: Self)
        ensures
            kernel == ScalerKernel::Bilinear,
    {
        ScalerKernel::Bilinear
    }
}

/// Neural 2x luma upscaler applied to the decoded Y plane before plane
/// sampling. Chroma keeps its source resolution and is reconstructed by the
/// regular scaler.
#[derive(Debug, Clone, Copy, PartialEq, Eq, Structural)]
pub enum LumaUpscalerMode {
    Off,
    /// ArtCNN C4F16 (~12K parameters), lightweight real-time anime doubler.
    ArtCnnC4F16,
    /// ArtCNN C4F16 DS, denoising and sharpening for degraded anime sources.
    ArtCnnC4F16Ds,
    /// ArtCNN C4F32 (~48K parameters), higher quality real-time doubler.
    ArtCnnC4F32,
}

impl Default for LumaUpscalerMode {
    fn default() -> (mode: Self)
        ensures
            mode == LumaUpscalerMode::Off,
    {
        LumaUpscalerMode::Off
    }
}

impl LumaUpscalerMode {
    pub fn is_enabled(self) -> (enabled: bool)
        ensures
            enabled <==> self != LumaUpscalerMode::Off,
    {
        self != LumaUpscalerMode::Off
    }
}

#[derive(Debug, Clone, Copy, PartialEq)]
pub struct SourceColorState {
    pub primaries: ColorPrimaries,
    pub transfer: TransferFunction,
    pub matrix: MatrixCoefficients,
    pub range: ColorRange,
    pub hdr_metadata: Option<HdrMetadata>,
    pub nominal_peak_nits: FloatBits,
    pub reference_white_nits: FloatBits,
}

/// The peak that a transfer function implies.
pub open spec fn nominal_peak(transfer: TransferFunction) -> FloatBits {
    if transfer == TransferFunction::Pq || transfer == TransferFunction::Hlg {
        NITS_1000
    } else {
        NITS_100
    }
}

/// The white that a transfer function implies.
pub open spec fn reference_white(transfer: TransferFunction) -> FloatBits {
    if transfer == TransferFunction::Pq || transfer == TransferFunction::Hlg {
        NITS_203
    } else {
        NITS_100
    }
}

pub fn nominal_peak_for_transfer(transfer: TransferFunction) -> (peak: FloatBits)
    ensures
        peak == nominal_peak(transfer),
{
    match transfer {
        TransferFunction::Pq | TransferFunction::Hlg => NITS_1000,
        TransferFunction::Srgb | TransferFunction::Bt1886 | TransferFunction::Unknown => NITS_100,
    }
}

pub fn reference_white_for_transfer(transfer: TransferFunction) -> (white: FloatBits)
    ensures
        white == reference_white(transfer),
{
    match transfer {
        TransferFunction::Pq | TransferFunction::Hlg => NITS_203,
        TransferFunction::Srgb | TransferFunction::Bt1886 | TransferFunction::Unknown => NITS_100,
    }
}

impl SourceColorState {
    pub open spec fn of(primaries: ColorPrimaries, transfer: TransferFunction) -> Self {
        SourceColorState {
            primaries,
            transfer,
            matrix: MatrixCoefficients::Unspecified,
            range: ColorRange::Unspecified,
            hdr_metadata: None,
            nominal_peak_nits: nominal_peak(transfer),
            reference_white_nits: reference_white(transfer),
        }
    }

    pub fn new(primaries: ColorPrimaries, transfer: TransferFunction) -> (source: Self)
        ensures
            source == SourceColorState::of(primaries, transfer),
    {
        SourceColorState {
            primaries,
            transfer,
            matrix: MatrixCoefficients::default(),
            range: ColorRange::default(),
            hdr_metadata: None,
            nominal_peak_nits: nominal_peak_for_transfer(transfer),
            reference_white_nits: reference_white_for_transfer(transfer),
        }
    }

    pub fn range(self, range: ColorRange) -> (source: Self)
        ensures
            source == (SourceColorState { range, ..self }),
    {
        SourceColorState { range, ..self }
    }

    pub fn matrix(self, matrix: MatrixCoefficients) -> (source: Self)
        ensures
            source == (SourceColorState { matrix, ..self }),
    {
        SourceColorState { matrix, ..self }
    }

    pub fn nominal_peak_nits(self, peak: FloatBits) -> (source: Self)
        ensures
            source == (SourceColorState { nominal_peak_nits: at_least(peak, ONE), ..self }),
    {
        SourceColorState { nominal_peak_nits: larger_of(peak, ONE), ..self }
    }

    /// The source with its metadata; a peak that they name replaces the one
    /// the transfer function implies.
    pub open spec fn with_metadata<C: Fn(u32) -> FloatBits>(
        self,
        metadata: Option<HdrMetadata>,
        as_float: C,
    ) -> Self {
        let peak = match metadata {
            Some(metadata) => metadata.peak(as_float),
            None => None,
        };
        SourceColorState {
            hdr_metadata: metadata,
            nominal_peak_nits: match peak {
                Some(peak) => at_least(peak, ONE),
                None => self.nominal_peak_nits,
            },
            ..self
        }
    }

    pub fn hdr_metadata<C: Fn(u32) -> FloatBits>(
        self,
        metadata: Option<HdrMetadata>,
        as_float: &C,
    ) -> (source: Self)
        requires
            is_level_conversion(*as_float),
        ensures
            source == self.with_metadata(metadata, *as_float),
    {
        let mut source: SourceColorState = self;
        if let Some(metadata) = metadata {
            if let Some(peak) = metadata.nominal_peak_nits(as_float) {
                source.nominal_peak_nits = larger_of(peak, ONE);
            }
        }
        source.hdr_metadata = metadata;
        source
    }

    pub fn reference_white_nits(self, white: FloatBits) -> (source: Self)
        ensures
            source == (SourceColorState { reference_white_nits: at_least(white, ONE), ..self }),
    {
        SourceColorState { reference_white_nits: larger_of(white, ONE), ..self }
    }

    /// A source is HDR by its transfer function, or by a peak well above its
    /// white.
    pub open spec fn hdr<E: Fn(FloatBits, FloatBits, FloatBits) -> bool>(self, exceeds: E) -> bool {
        ||| self.transfer == TransferFunction::Pq
        ||| self.transfer == TransferFunction::Hlg
        ||| is_greater(
            exceeds,
            self.nominal_peak_nits,
            self.reference_white_nits,
            HDR_PEAK_FACTOR,
        )
    }

    pub fn is_hdr<E: Fn(FloatBits, FloatBits, FloatBits) -> bool>(&self, exceeds: &E) -> (hdr: bool)
        requires
            is_exceeds(*exceeds),
        ensures
            hdr == self.hdr(*exceeds),
    {
        self.transfer == TransferFunction::Pq || self.transfer == TransferFunction::Hlg || exceeds(
            self.nominal_peak_nits,
            self.reference_white_nits,
            HDR_PEAK_FACTOR,
        )
    }
}

impl Default for SourceColorState {
    fn default() -> (source: Self)
        ensures
            source == SourceColorState::of(ColorPrimaries::Unknown, TransferFunction::Unknown),
    {
        SourceColorState::new(ColorPrimaries::Unknown, TransferFunction::Unknown)
    }
}

#[derive(Debug, Clone, Copy, PartialEq, Eq, Structural)]
pub struct TargetColorState {
    pub primaries: ColorPrimaries,
    pub transfer: TransferFunction,
    pub peak_nits: FloatBits,
    pub reference_white_nits: FloatBits,
    pub edr_headroom: FloatBits,
}

/// `multiply` accepts everything and depends on its arguments alone.
pub open spec fn is_product<M: Fn(FloatBits, FloatBits) -> FloatBits>(multiply: M) -> bool {
    &&& forall|left: FloatBits, right: FloatBits| #[trigger] multiply.requires((left, right))
    &&& forall|left: FloatBits, right: FloatBits, first: FloatBits, second: FloatBits|
        #[trigger] multiply.ensures((left, right), first) && #[trigger] multiply.ensures(
            (left, right),
            second,
        ) ==> first == second
}

/// The product that `multiply` gives.
pub open spec fn product<M: Fn(FloatBits, FloatBits) -> FloatBits>(
    multiply: M,
    left: FloatBits,
    right: FloatBits,
) -> FloatBits {
    choose|bits: FloatBits| multiply.ensures((left, right), bits)
}

impl TargetColorState {
    pub open spec fn of_sdr(primaries: ColorPrimaries) -> Self {
        TargetColorState {
            primaries,
            transfer: TransferFunction::Srgb,
            peak_nits: NITS_100,
            reference_white_nits: NITS_100,
            edr_headroom: ONE,
        }
    }

    pub open spec fn of_hdr10(primaries: ColorPrimaries) -> Self {
        TargetColorState {
            primaries,
            transfer: TransferFunction::Pq,
            peak_nits: NITS_10000,
            reference_white_nits: NITS_203,
            edr_headroom: ONE,
        }
    }

    pub open spec fn of_extended_linear<M: Fn(FloatBits, FloatBits) -> FloatBits>(
        primaries: ColorPrimaries,
        reference_white_nits: FloatBits,
        headroom: FloatBits,
        multiply: M,
    ) -> Self {
        let white = at_least(reference_white_nits, ONE);
        let headroom = at_least(headroom, ONE);
        TargetColorState {
            primaries,
            transfer: TransferFunction::Srgb,
            peak_nits: product(multiply, white, headroom),
            reference_white_nits: white,
            edr_headroom: headroom,
        }
    }

    pub fn sdr(primaries: ColorPrimaries) -> (target: Self)
        ensures
            target == TargetColorState::of_sdr(primaries),
    {
        TargetColorState {
            primaries,
            transfer: TransferFunction::Srgb,
            peak_nits: NITS_100,
            reference_white_nits: NITS_100,
            edr_headroom: ONE,
        }
    }

    pub fn apple_edr<M: Fn(FloatBits, FloatBits) -> FloatBits>(
        primaries: ColorPrimaries,
        headroom: FloatBits,
        multiply: &M,
    ) -> (target: Self)
        requires
            is_product(*multiply),
        ensures
            target == TargetColorState::of_extended_linear(
                primaries,
                NITS_203,
                headroom,
                *multiply,
            ),
    {
        TargetColorState::extended_linear(primaries, NITS_203, headroom, multiply)
    }

    pub fn extended_linear<M: Fn(FloatBits, FloatBits) -> FloatBits>(
        primaries: ColorPrimaries,
        reference_white_nits: FloatBits,
        headroom: FloatBits,
        multiply: &M,
    ) -> (target: Self)
        requires
            is_product(*multiply),
        ensures
            target == TargetColorState::of_extended_linear(
                primaries,
                reference_white_nits,
                headroom,
                *multiply,
            ),
    {
        let white: FloatBits = larger_of(reference_white_nits, ONE);
        let headroom: FloatBits = larger_of(headroom, ONE);
        TargetColorState {
            primaries,
            transfer: TransferFunction::Srgb,
            peak_nits: multiply(white, headroom),
            reference_white_nits: white,
            edr_headroom: headroom,
        }
    }

    pub fn hdr10(primaries: ColorPrimaries) -> (target: Self)
        ensures
            target == TargetColorState::of_hdr10(primaries),
    {
        TargetColorState {
            primaries,
            transfer: TransferFunction::Pq,
            peak_nits: NITS_10000,
            reference_white_nits: NITS_203,
            edr_headroom: ONE,
        }
    }
}

impl Default for TargetColorState {
    fn default() -> (target: Self)
        ensures
            target == TargetColorState::of_sdr(ColorPrimaries::Bt709),
    {
        TargetColorState::sdr(ColorPrimaries::Bt709)
    }
}

#[derive(Debug, Clone, Copy, PartialEq, Eq, Structural)]
pub struct ToneMapConfig {
    pub operator: ToneMapOperator,
    pub knee_start: FloatBits,
    pub desaturate: FloatBits,
}

impl Default for ToneMapConfig {
    fn default() -> (config: Self)
        ensures
            config == (ToneMapConfig {
                operator: ToneMapOperator::Mobius,
                knee_start: KNEE_START,
                desaturate: ZERO,
            }),
            config.knee_start == 0x3f40_0000,
            config.desaturate == 0,
    {
        ToneMapConfig {
            operator: ToneMapOperator::Mobius,
            knee_start: KNEE_START,
            desaturate: ZERO,
        }
    }
}

#[derive(Debug, Clone, Copy, PartialEq, Eq, Structural)]
pub struct ScalerConfig {
    pub kernel: ScalerKernel,
    pub radius: FloatBits,
}

impl Default for ScalerConfig {
    fn default() -> (config: Self)
        ensures
            config == (ScalerConfig { kernel: ScalerKernel::Bilinear, radius: ONE }),
    {
        ScalerConfig { kernel: ScalerKernel::Bilinear, radius: ONE }
    }
}

#[derive(Debug, Clone, Copy, PartialEq, Eq, Structural)]
pub enum RenderPassKind {
    ImportFrame,
    NeuralUpscale,
    PlaneSampling,
    ChromaReconstruction,
    TransferDecode,
    GamutMap,
    ToneMap,
    Scale,
    OverlayComposite,
    Dither,
    OutputTransform,
}

#[derive(Debug, Clone, PartialEq, Eq)]
pub struct RenderPass {
    pub kind: RenderPassKind,
    pub label: &'static str,
}

impl RenderPass {
    pub fn new(kind: RenderPassKind, label: &'static str) -> (pass: Self)
        ensures
            pass.kind == kind,
            pass.label == label,
    {
        RenderPass { kind, label }
    }
}

/// The passes of a frame, in the order in which they run.
#[derive(Debug, Clone, PartialEq, Eq)]
pub struct RenderGraph {
    passes: Vec<RenderPass>,
}

impl View for RenderGraph {
    type V = Seq<RenderPass>;

    closed spec fn view(&self) -> Seq<RenderPass> {
        self.passes@
    }
}

impl Default for RenderGraph {
    fn default() -> (graph: Self)
        ensures
            graph@ == Seq::<RenderPass>::empty(),
    {
        RenderGraph { passes: Vec::new() }
    }
}

impl RenderGraph {
    pub fn new() -> (graph: Self)
        ensures
            graph@ == Seq::<RenderPass>::empty(),
    {
        RenderGraph { passes: Vec::new() }
    }

    pub fn push(&mut self, pass: RenderPass)
        ensures
            final(self)@ == old(self)@.push(pass),
    {
        self.passes.push(pass);
    }

    pub fn passes(&self) -> (passes: &[RenderPass])
        ensures
            passes@ == self@,
    {
        self.passes.as_slice()
    }

    pub fn contains(&self, kind: RenderPassKind) -> (found: bool)
        ensures
            found <==> has_pass(self@, kind),
    {
        let mut index: usize = 0;
        while index < self.passes.len()
            invariant
                index <= self.passes@.len(),
                forall|i: int| 0 <= i < index ==> #[trigger] self@[i].kind != kind,
            decreases self.passes@.len() - index,
        {
            if self.passes[index].kind == kind {
                assert(self@[index as int].kind == kind);
                return true;
            }
            index = index + 1;
        }
        false
    }
}

/// Whether a graph has a pass of this kind.
pub open spec fn has_pass(graph: Seq<RenderPass>, kind: RenderPassKind) -> bool {
    exists|i: int| 0 <= i < graph.len() && #[trigger] graph[i].kind == kind
}

/// The label of each kind of pass.
pub open spec fn pass_label(kind: RenderPassKind) -> Seq<char> {
    match kind {
        RenderPassKind::ImportFrame => "import frame"@,
        RenderPassKind::NeuralUpscale => "neural luma upscale"@,
        RenderPassKind::PlaneSampling => "sample YCbCr planes"@,
        RenderPassKind::ChromaReconstruction => "reconstruct chroma"@,
        RenderPassKind::TransferDecode => "decode transfer function"@,
        RenderPassKind::GamutMap => "map gamut"@,
        RenderPassKind::ToneMap => "tone map"@,
        RenderPassKind::Scale => "scale"@,
        RenderPassKind::OverlayComposite => "composite overlays"@,
        RenderPassKind::Dither => "dither"@,
        RenderPassKind::OutputTransform => "output transform"@,
    }
}

/// Whether the source needs to be brought into the target's luminance range.
pub open spec fn tone_mapping_required<E: Fn(FloatBits, FloatBits, FloatBits) -> bool>(
    source: SourceColorState,
    target: TargetColorState,
    exceeds: E,
) -> bool {
    source.hdr(exceeds) && is_greater(
        exceeds,
        source.nominal_peak_nits,
        target.peak_nits,
        TONE_MAP_PEAK_FACTOR,
    )
}

/// Whether the source needs to be brought into the target's gamut.
pub open spec fn gamut_mapping_required(source: SourceColorState, target: TargetColorState) -> bool {
    resolved_primaries(source.primaries) != resolved_primaries(target.primaries)
}

/// The kinds of the passes that a frame takes, in order.
pub open spec fn pass_kinds<E: Fn(FloatBits, FloatBits, FloatBits) -> bool>(
    source: SourceColorState,
    target: TargetColorState,
    scaler: ScalerConfig,
    luma_upscaler: LumaUpscalerMode,
    exceeds: E,
) -> Seq<RenderPassKind> {
    seq![RenderPassKind::ImportFrame] + (if luma_upscaler != LumaUpscalerMode::Off {
        seq![RenderPassKind::NeuralUpscale]
    } else {
        seq![]
    }) + seq![
        RenderPassKind::PlaneSampling,
        RenderPassKind::ChromaReconstruction,
        RenderPassKind::TransferDecode,
    ] + (if gamut_mapping_required(source, target) {
        seq![RenderPassKind::GamutMap]
    } else {
        seq![]
    }) + (if tone_mapping_required(source, target, exceeds) {
        seq![RenderPassKind::ToneMap]
    } else {
        seq![]
    }) + (if scaler.kernel != ScalerKernel::Nearest {
        seq![RenderPassKind::Scale]
    } else {
        seq![]
    }) + seq![
        RenderPassKind::OverlayComposite,
        RenderPassKind::Dither,
        RenderPassKind::OutputTransform,
    ]
}

/// `graph` runs these kinds of passes in this order, under their labels.
pub open spec fn runs(graph: Seq<RenderPass>, kinds: Seq<RenderPassKind>) -> bool {
    &&& graph.len() == kinds.len()
    &&& forall|i: int|
        0 <= i < graph.len() ==> (#[trigger] graph[i]).kind == kinds[i] && graph[i].label@
            == pass_label(kinds[i])
}

pub fn requires_tone_mapping<E: Fn(FloatBits, FloatBits, FloatBits) -> bool>(
    source: SourceColorState,
    target: TargetColorState,
    exceeds: &E,
) -> (required: bool)
    requires
        is_exceeds(*exceeds),
    ensures
        required == tone_mapping_required(source, target, *exceeds),
{
    if !source.is_hdr(exceeds) {
        return false;
    }
    exceeds(source.nominal_peak_nits, target.peak_nits, TONE_MAP_PEAK_FACTOR)
}

pub fn requires_gamut_mapping(source: SourceColorState, target: TargetColorState) -> (required: bool)
    ensures
        required == gamut_mapping_required(source, target),
{
    resolve_primaries(source.primaries) != resolve_primaries(target.primaries)
}

/// Appends a pass under its label.
fn push_pass(
    graph: &mut RenderGraph,
    kind: RenderPassKind,
    label: &'static str,
    kinds: Ghost<Seq<RenderPassKind>>,
)
    requires
        runs(old(graph)@, kinds@),
        label@ == pass_label(kind),
    ensures
        runs(final(graph)@, kinds@.push(kind)),
{
    graph.push(RenderPass::new(kind, label));
}

pub fn build_graph<E: Fn(FloatBits, FloatBits, FloatBits) -> bool>(
    source: SourceColorState,
    target: TargetColorState,
    scaler: ScalerConfig,
    luma_upscaler: LumaUpscalerMode,
    exceeds: &E,
) -> (graph: RenderGraph)
    requires
        is_exceeds(*exceeds),
    ensures
        runs(graph@, pass_kinds(source, target, scaler, luma_upscaler, *exceeds)),
{
    let mut graph = RenderGraph::new();
    let ghost mut kinds: Seq<RenderPassKind> = seq![];
    push_pass(&mut graph, RenderPassKind::ImportFrame, "import frame", Ghost(kinds));
    proof {
        kinds = kinds.push(RenderPassKind::ImportFrame);
    }
    if luma_upscaler.is_enabled() {
        push_pass(&mut graph, RenderPassKind::NeuralUpscale, "neural luma upscale", Ghost(kinds));
        proof {
            kinds = kinds.push(RenderPassKind::NeuralUpscale);
        }
    }
    push_pass(&mut graph, RenderPassKind::PlaneSampling, "sample YCbCr planes", Ghost(kinds));
    proof {
        kinds = kinds.push(RenderPassKind::PlaneSampling);
    }
    push_pass(&mut graph, RenderPassKind::ChromaReconstruction, "reconstruct chroma", Ghost(kinds));
    proof {
        kinds = kinds.push(RenderPassKind::ChromaReconstruction);
    }
    push_pass(&mut graph, RenderPassKind::TransferDecode, "decode transfer function", Ghost(kinds));
    proof {
        kinds = kinds.push(RenderPassKind::TransferDecode);
    }
    if requires_gamut_mapping(source, target) {
        push_pass(&mut graph, RenderPassKind::GamutMap, "map gamut", Ghost(kinds));
        proof {
            kinds = kinds.push(RenderPassKind::GamutMap);
        }
    }
    if requires_tone_mapping(source, target, exceeds) {
        push_pass(&mut graph, RenderPassKind::ToneMap, "tone map", Ghost(kinds));
        proof {
            kinds = kinds.push(RenderPassKind::ToneMap);
        }
    }
    if scaler.kernel != ScalerKernel::Nearest {
        push_pass(&mut graph, RenderPassKind::Scale, "scale", Ghost(kinds));
        proof {
            kinds = kinds.push(RenderPassKind::Scale);
        }
    }
    push_pass(&mut graph, RenderPassKind::OverlayComposite, "composite overlays", Ghost(kinds));
    proof {
        kinds = kinds.push(RenderPassKind::OverlayComposite);
    }
    push_pass(&mut graph, RenderPassKind::Dither, "dither", Ghost(kinds));
    proof {
        kinds = kinds.push(RenderPassKind::Dither);
    }
    push_pass(&mut graph, RenderPassKind::OutputTransform, "output transform", Ghost(kinds));
    proof {
        kinds = kinds.push(RenderPassKind::OutputTransform);
        assert(kinds =~= pass_kinds(source, target, scaler, luma_upscaler, *exceeds));
    }
    graph
}

/// A source and a target with the options under which one is turned into the
/// other, and the passes that do it.
#[derive(Debug, Clone, PartialEq)]
pub struct VideoRenderPipeline {
    pub source: SourceColorState,
    pub target: TargetColorState,
    pub tone_map: ToneMapConfig,
    pub scaler: ScalerConfig,
    pub luma_upscaler: LumaUpscalerMode,
    pub graph: RenderGraph,
}

impl VideoRenderPipeline {
    /// The graph is the one for the source, the target and the options.
    pub open spec fn graph_is_current<E: Fn(FloatBits, FloatBits, FloatBits) -> bool>(
        self,
        exceeds: E,
    ) -> bool {
        runs(
            self.graph@,
            pass_kinds(self.source, self.target, self.scaler, self.luma_upscaler, exceeds),
        )
    }

    pub fn new<E: Fn(FloatBits, FloatBits, FloatBits) -> bool>(
        source: SourceColorState,
        target: TargetColorState,
        exceeds: &E,
    ) -> (pipeline: Self)
        requires
            is_exceeds(*exceeds),
        ensures
            pipeline.source == source,
            pipeline.target == target,
            pipeline.tone_map == (ToneMapConfig {
                operator: ToneMapOperator::Mobius,
                knee_start: KNEE_START,
                desaturate: ZERO,
            }),
            pipeline.scaler == (ScalerConfig { kernel: ScalerKernel::Bilinear, radius: ONE }),
            pipeline.luma_upscaler == LumaUpscalerMode::Off,
            pipeline.graph_is_current(*exceeds),
    {
        let tone_map: ToneMapConfig = ToneMapConfig::default();
        let scaler: ScalerConfig = ScalerConfig::default();
        let luma_upscaler: LumaUpscalerMode = LumaUpscalerMode::default();
        let graph: RenderGraph = build_graph(source, target, scaler, luma_upscaler, exceeds);
        VideoRenderPipeline { source, target, tone_map, scaler, luma_upscaler, graph }
    }

    pub fn sdr_default<E: Fn(FloatBits, FloatBits, FloatBits) -> bool>(exceeds: &E) -> (pipeline:
        Self)
        requires
            is_exceeds(*exceeds),
        ensures
            pipeline.source == SourceColorState::of(
                ColorPrimaries::Unknown,
                TransferFunction::Unknown,
            ),
            pipeline.target == TargetColorState::of_sdr(ColorPrimaries::Bt709),
            pipeline.tone_map == (ToneMapConfig {
                operator: ToneMapOperator::Mobius,
                knee_start: KNEE_START,
                desaturate: ZERO,
            }),
            pipeline.scaler == (ScalerConfig { kernel: ScalerKernel::Bilinear, radius: ONE }),
            pipeline.luma_upscaler == LumaUpscalerMode::Off,
            pipeline.graph_is_current(*exceeds),
    {
        VideoRenderPipeline::new(SourceColorState::default(), TargetColorState::default(), exceeds)
    }

    /// The pipeline for another target: the options stay, the graph is built
    /// anew.
    pub fn with_target<E: Fn(FloatBits, FloatBits, FloatBits) -> bool>(
        self,
        target: TargetColorState,
        exceeds: &E,
    ) -> (pipeline: Self)
        requires
            is_exceeds(*exceeds),
        ensures
            pipeline.source == self.source,
            pipeline.target == target,
            pipeline.tone_map == self.tone_map,
            pipeline.scaler == self.scaler,
            pipeline.luma_upscaler == self.luma_upscaler,
            pipeline.graph_is_current(*exceeds),
    {
        let graph: RenderGraph = build_graph(
            self.source,
            target,
            self.scaler,
            self.luma_upscaler,
            exceeds,
        );
        VideoRenderPipeline {
            source: self.source,
            target,
            tone_map: self.tone_map,
            scaler: self.scaler,
            luma_upscaler: self.luma_upscaler,
            graph,
        }
    }

    /// The pipeline with another upscaler: all else stays, the graph is built
    /// anew.
    pub fn with_luma_upscaler<E: Fn(FloatBits, FloatBits, FloatBits) -> bool>(
        self,
        mode: LumaUpscalerMode,
        exceeds: &E,
    ) -> (pipeline: Self)
        requires
            is_exceeds(*exceeds),
        ensures
            pipeline.source == self.source,
            pipeline.target == self.target,
            pipeline.tone_map == self.tone_map,
            pipeline.scaler == self.scaler,
            pipeline.luma_upscaler == mode,
            pipeline.graph_is_current(*exceeds),
    {
        let graph: RenderGraph = build_graph(self.source, self.target, self.scaler, mode, exceeds);
        VideoRenderPipeline {
            source: self.source,
            target: self.target,
            tone_map: self.tone_map,
            scaler: self.scaler,
            luma_upscaler: mode,
            graph,
        }
    }

    pub fn requires_tone_mapping<E: Fn(FloatBits, FloatBits, FloatBits) -> bool>(
        &self,
        exceeds: &E,
    ) -> (required: bool)
        requires
            is_exceeds(*exceeds),
        ensures
            required == tone_mapping_required(self.source, self.target, *exceeds),
    {
        requires_tone_mapping(self.source, self.target, exceeds)
    }

    pub fn luma_coefficients(&self) -> (luma: LumaCoefficients)
        ensures
            luma == self.source.matrix.luma(self.source.primaries),
    {
        self.source.matrix.luma_coefficients(self.source.primaries)
    }

    pub fn requires_gamut_mapping(&self) -> (required: bool)
        ensures
            required == gamut_mapping_required(self.source, self.target),
    {
        requires_gamut_mapping(self.source, self.target)
    }
}

/// A graph has each optional pass exactly when it is called for, and every
/// other pass always.
pub proof fn lemma_graph_has_what_is_required<E: Fn(FloatBits, FloatBits, FloatBits) -> bool>(
    graph: Seq<RenderPass>,
    source: SourceColorState,
    target: TargetColorState,
    scaler: ScalerConfig,
    luma_upscaler: LumaUpscalerMode,
    exceeds: E,
)
    requires
        runs(graph, pass_kinds(source, target, scaler, luma_upscaler, exceeds)),
    ensures
        has_pass(graph, RenderPassKind::GamutMap) <==> gamut_mapping_required(source, target),
        has_pass(graph, RenderPassKind::ToneMap) <==> tone_mapping_required(
            source,
            target,
            exceeds,
        ),
        has_pass(graph, RenderPassKind::Scale) <==> scaler.kernel != ScalerKernel::Nearest,
        has_pass(graph, RenderPassKind::NeuralUpscale) <==> luma_upscaler != LumaUpscalerMode::Off,
        has_pass(graph, RenderPassKind::ImportFrame),
        has_pass(graph, RenderPassKind::PlaneSampling),
        has_pass(graph, RenderPassKind::ChromaReconstruction),
        has_pass(graph, RenderPassKind::TransferDecode),
        has_pass(graph, RenderPassKind::OverlayComposite),
        has_pass(graph, RenderPassKind::Dither),
        has_pass(graph, RenderPassKind::OutputTransform),
{
    let kinds = pass_kinds(source, target, scaler, luma_upscaler, exceeds);
    let upscale = if luma_upscaler != LumaUpscalerMode::Off {
        1int
    } else {
        0
    };
    let gamut = if gamut_mapping_required(source, target) {
        1int
    } else {
        0
    };
    let tone = if tone_mapping_required(source, target, exceeds) {
        1int
    } else {
        0
    };
    let scale = if scaler.kernel != ScalerKernel::Nearest {
        1int
    } else {
        0
    };
    assert(kinds.len() == 7 + upscale + gamut + tone + scale);
    assert(kinds[0] == RenderPassKind::ImportFrame);
    assert(graph[0].kind == kinds[0]);
    assert(graph[1].kind == kinds[1]);
    assert(graph[1 + upscale].kind == kinds[1 + upscale]);
    assert(graph[2 + upscale].kind == kinds[2 + upscale]);
    assert(graph[3 + upscale].kind == kinds[3 + upscale]);
    assert(graph[4 + upscale].kind == kinds[4 + upscale]);
    assert(graph[4 + upscale + gamut].kind == kinds[4 + upscale + gamut]);
    assert(graph[4 + upscale + gamut + tone].kind == kinds[4 + upscale + gamut + tone]);
    let rest = 4 + upscale + gamut + tone + scale;
    assert(graph[rest].kind == kinds[rest]);
    assert(graph[rest + 1].kind == kinds[rest + 1]);
    assert(graph[rest + 2].kind == kinds[rest + 2]);
}

/// The place of a kind of pass in the order of all of them.
pub open spec fn pass_rank(kind: RenderPassKind) -> int {
    match kind {
        RenderPassKind::ImportFrame => 0,
        RenderPassKind::NeuralUpscale => 1,
        RenderPassKind::PlaneSampling => 2,
        RenderPassKind::ChromaReconstruction => 3,
        RenderPassKind::TransferDecode => 4,
        RenderPassKind::GamutMap => 5,
        RenderPassKind::ToneMap => 6,
        RenderPassKind::Scale => 7,
        RenderPassKind::OverlayComposite => 8,
        RenderPassKind::Dither => 9,
        RenderPassKind::OutputTransform => 10,
    }
}

/// Passes always run in the same relative order, and none runs twice.
pub proof fn lemma_passes_run_in_order<E: Fn(FloatBits, FloatBits, FloatBits) -> bool>(
    source: SourceColorState,
    target: TargetColorState,
    scaler: ScalerConfig,
    luma_upscaler: LumaUpscalerMode,
    exceeds: E,
    earlier: int,
    later: int,
)
    requires
        0 <= earlier < later < pass_kinds(
            source,
            target,
            scaler,
            luma_upscaler,
            exceeds,
        ).len(),
    ensures
        ({
            let kinds = pass_kinds(source, target, scaler, luma_upscaler, exceeds);
            pass_rank(kinds[earlier]) < pass_rank(kinds[later])
        }),
{
}

/// Fragment-shader uniforms shared by the video sampling shaders, word for
/// word. Flags are one or zero; floating point words are bit patterns.
#[derive(Debug, Clone, Copy, PartialEq, Eq)]
pub struct VideoUniforms {
    pub is_p010: u32,
    pub full_range: u32,
    pub source_transfer: u32,
    pub target_transfer: u32,
    pub tone_map: u32,
    pub edr_output: u32,
    /// 0 samples Y + interleaved CbCr planes; 1 samples an already converted
    /// nonlinear RGB texture; 2 samples ArtCNN's packed 2x luma output plus a
    /// normal CbCr plane; 3 applies that packed luma as detail to an already
    /// converted nonlinear RGB texture.
    pub input_mode: u32,
    /// Leaves the shader output in target-reference-linear space so a backend
    /// can composite overlays before applying the output transfer function.
    pub scene_linear: u32,
    pub nits: [FloatBits; 4],
    pub luma_coefficients: [FloatBits; 4],
    pub gamut_matrix_rows: [[FloatBits; 4]; 3],
}

/// The number under which the shaders know a transfer function.
pub open spec fn code_of_transfer(transfer: TransferFunction) -> u32 {
    match transfer {
        TransferFunction::Srgb => 1,
        TransferFunction::Bt1886 => 2,
        TransferFunction::Pq => 3,
        TransferFunction::Hlg => 4,
        TransferFunction::Unknown => 1,
    }
}

/// The number under which the shaders know a tone map operator.
pub open spec fn code_of_tone_map(operator: ToneMapOperator) -> u32 {
    match operator {
        ToneMapOperator::Clip => 0,
        ToneMapOperator::Reinhard => 1,
        ToneMapOperator::Mobius => 2,
    }
}

pub fn transfer_code(transfer: TransferFunction) -> (code: u32)
    ensures
        code == code_of_transfer(transfer),
        code == match transfer {
            TransferFunction::Srgb => 1u32,
            TransferFunction::Bt1886 => 2u32,
            TransferFunction::Pq => 3u32,
            TransferFunction::Hlg => 4u32,
            TransferFunction::Unknown => 1u32,
        },
{
    match transfer {
        TransferFunction::Srgb => 1,
        TransferFunction::Bt1886 => 2,
        TransferFunction::Pq => 3,
        TransferFunction::Hlg => 4,
        TransferFunction::Unknown => 1,
    }
}

pub fn tone_map_code(operator: ToneMapOperator) -> (code: u32)
    ensures
        code == code_of_tone_map(operator),
        code == match operator {
            ToneMapOperator::Clip => 0u32,
            ToneMapOperator::Reinhard => 1u32,
            ToneMapOperator::Mobius => 2u32,
        },
{
    match operator {
        ToneMapOperator::Clip => 0,
        ToneMapOperator::Reinhard => 1,
        ToneMapOperator::Mobius => 2,
    }
}

/// One for yes and zero for no.
pub open spec fn flag(set: bool) -> u32 {
    if set {
        1
    } else {
        0
    }
}

fn as_flag(set: bool) -> (word: u32)
    ensures
        word == flag(set),
{
    if set {
        1
    } else {
        0
    }
}

/// The input mode with its base mode replaced; flags beyond it stay.
pub open spec fn with_base_mode(input_mode: u32, base: u32) -> u32 {
    (input_mode & !VIDEO_INPUT_MODE_MASK) | base
}

impl VideoUniforms {
    /// The uniforms of a pipeline. The gamut matrix rows come from the colour
    /// mathematics of the host.
    pub fn from_pipeline(
        pipeline: &VideoRenderPipeline,
        is_p010: bool,
        edr_output: bool,
        gamut_matrix_rows: [[FloatBits; 4]; 3],
    ) -> (uniforms: Self)
        ensures
            uniforms.is_p010 == flag(is_p010),
            uniforms.full_range == flag(pipeline.source.range == ColorRange::Full),
            uniforms.source_transfer == code_of_transfer(pipeline.source.transfer),
            uniforms.target_transfer == code_of_transfer(pipeline.target.transfer),
            uniforms.source_transfer == match pipeline.source.transfer {
                TransferFunction::Srgb => 1u32,
                TransferFunction::Bt1886 => 2u32,
                TransferFunction::Pq => 3u32,
                TransferFunction::Hlg => 4u32,
                TransferFunction::Unknown => 1u32,
            },
            uniforms.target_transfer == match pipeline.target.transfer {
                TransferFunction::Srgb => 1u32,
                TransferFunction::Bt1886 => 2u32,
                TransferFunction::Pq => 3u32,
                TransferFunction::Hlg => 4u32,
                TransferFunction::Unknown => 1u32,
            },
            uniforms.tone_map == code_of_tone_map(pipeline.tone_map.operator),
            uniforms.edr_output == flag(edr_output),
            uniforms.input_mode == 0,
            uniforms.scene_linear == 0,
            uniforms.nits@ == seq![
                pipeline.source.nominal_peak_nits,
                pipeline.target.peak_nits,
                pipeline.source.reference_white_nits,
                pipeline.target.reference_white_nits,
            ],
            ({
                let luma = pipeline.source.matrix.luma(pipeline.source.primaries);
                uniforms.luma_coefficients@ == seq![luma.kr, luma.kg, luma.kb, ZERO]
            }),
            uniforms.gamut_matrix_rows == gamut_matrix_rows,
    {
        let luma: LumaCoefficients = pipeline.luma_coefficients();
        VideoUniforms {
            is_p010: as_flag(is_p010),
            full_range: as_flag(pipeline.source.range == ColorRange::Full),
            source_transfer: transfer_code(pipeline.source.transfer),
            target_transfer: transfer_code(pipeline.target.transfer),
            tone_map: tone_map_code(pipeline.tone_map.operator),
            edr_output: as_flag(edr_output),
            input_mode: 0,
            scene_linear: 0,
            nits: [
                pipeline.source.nominal_peak_nits,
                pipeline.target.peak_nits,
                pipeline.source.reference_white_nits,
                pipeline.target.reference_white_nits,
            ],
            luma_coefficients: [luma.kr, luma.kg, luma.kb, ZERO],
            gamut_matrix_rows,
        }
    }

    pub fn rgb_texture_input(self) -> (uniforms: Self)
        ensures
            uniforms == (VideoUniforms {
                input_mode: with_base_mode(self.input_mode, 1),
                ..self
            }),
    {
        VideoUniforms { input_mode: (self.input_mode & !VIDEO_INPUT_MODE_MASK) | 1, ..self }
    }

    pub fn packed_d2s_luma_input(self) -> (uniforms: Self)
        ensures
            uniforms == (VideoUniforms {
                input_mode: with_base_mode(self.input_mode, 2),
                ..self
            }),
    {
        VideoUniforms { input_mode: (self.input_mode & !VIDEO_INPUT_MODE_MASK) | 2, ..self }
    }

    pub fn packed_d2s_rgb_detail_input(self) -> (uniforms: Self)
        ensures
            uniforms == (VideoUniforms {
                input_mode: with_base_mode(self.input_mode, 3),
                ..self
            }),
    {
        VideoUniforms { input_mode: (self.input_mode & !VIDEO_INPUT_MODE_MASK) | 3, ..self }
    }

    pub fn packed_alpha_right(self, enabled: bool) -> (uniforms: Self)
        ensures
            uniforms == (VideoUniforms {
                input_mode: with_packed_alpha(self.input_mode, enabled),
                ..self
            }),
    {
        let input_mode: u32 = if enabled {
            self.input_mode | VIDEO_INPUT_PACKED_ALPHA_RIGHT
        } else {
            self.input_mode & !VIDEO_INPUT_PACKED_ALPHA_RIGHT
        };
        VideoUniforms { input_mode, ..self }
    }

    pub fn has_packed_alpha_right(self) -> (packed: bool)
        ensures
            packed == is_packed_alpha(self.input_mode),
    {
        self.input_mode & VIDEO_INPUT_PACKED_ALPHA_RIGHT != 0
    }

    pub fn scene_linear_output(self) -> (uniforms: Self)
        ensures
            uniforms == (VideoUniforms { scene_linear: 1, ..self }),
    {
        VideoUniforms { scene_linear: 1, ..self }
    }
}

/// The input mode with its packed-alpha flag set or cleared.
pub open spec fn with_packed_alpha(input_mode: u32, enabled: bool) -> u32 {
    if enabled {
        input_mode | VIDEO_INPUT_PACKED_ALPHA_RIGHT
    } else {
        input_mode & !VIDEO_INPUT_PACKED_ALPHA_RIGHT
    }
}

/// Whether an input mode has its packed-alpha flag set.
pub open spec fn is_packed_alpha(input_mode: u32) -> bool {
    input_mode & VIDEO_INPUT_PACKED_ALPHA_RIGHT != 0
}

/// Changing the base mode keeps the packed-alpha flag, and the base mode is
/// then the one that was set.
pub proof fn lemma_base_mode_keeps_packed_alpha(input_mode: u32, base: u32)
    requires
        base <= 0xff,
    ensures
        is_packed_alpha(with_base_mode(input_mode, base)) == is_packed_alpha(input_mode),
        with_base_mode(input_mode, base) & VIDEO_INPUT_MODE_MASK == base,
{
    assert(((input_mode & !0xffu32) | base) & 0x100 == input_mode & 0x100) by (bit_vector)
        requires
            base <= 0xff,
    ;
    assert(((input_mode & !0xffu32) | base) & 0xff == base) by (bit_vector)
        requires
            base <= 0xff,
    ;
}

/// Setting or clearing the packed-alpha flag does just that and keeps the
/// base mode.
pub proof fn lemma_packed_alpha_keeps_base_mode(input_mode: u32, enabled: bool)
    ensures
        is_packed_alpha(with_packed_alpha(input_mode, enabled)) == enabled,
        with_packed_alpha(input_mode, enabled) & VIDEO_INPUT_MODE_MASK == input_mode
            & VIDEO_INPUT_MODE_MASK,
{
    assert((input_mode | 0x100) & 0x100 != 0) by (bit_vector);
    assert((input_mode & !0x100u32) & 0x100 == 0) by (bit_vector);
    assert((input_mode | 0x100) & 0xff == input_mode & 0xff) by (bit_vector);
    assert((input_mode & !0x100u32) & 0xff == input_mode & 0xff) by (bit_vector);
}

} // verus!
