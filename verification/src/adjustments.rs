//! Raster adjustment node parameter records and their choice enumerations.
//!
//! The structs here are the parameter holders for the primitive raster
//! operations named by the registry; the per-pixel colour arithmetic they
//! configure is performed by an execution engine outside this crate.

use vstd::prelude::*;
use crate::value::ImageFrame;

verus! {

/// How a luminance value is derived from a colour.
#[derive(Debug, Clone, Copy, PartialEq, Eq, Structural, Hash)]
pub enum LuminanceCalculation {
    SRGB,
    Perceptual,
    AverageChannels,
    MinimumChannels,
    MaximumChannels,
}

impl LuminanceCalculation {
    /// Every luminance calculation choice, in presentation order.
    pub fn list() -> (r: [LuminanceCalculation; 5])
        ensures
            r@ =~= seq![
                LuminanceCalculation::SRGB,
                LuminanceCalculation::Perceptual,
                LuminanceCalculation::AverageChannels,
                LuminanceCalculation::MinimumChannels,
                LuminanceCalculation::MaximumChannels,
            ],
    {
        [
            LuminanceCalculation::SRGB,
            LuminanceCalculation::Perceptual,
            LuminanceCalculation::AverageChannels,
            LuminanceCalculation::MinimumChannels,
            LuminanceCalculation::MaximumChannels,
        ]
    }
}

/// Compositing blend modes.
#[derive(Debug, Clone, Copy, PartialEq, Eq, Structural, Hash)]
pub enum BlendMode {
    Normal,
    Multiply,
    Darken,
    ColorBurn,
    LinearBurn,
    DarkerColor,
    Screen,
    Lighten,
    ColorDodge,
    LinearDodge,
    LighterColor,
    Overlay,
    SoftLight,
    HardLight,
    VividLight,
    LinearLight,
    PinLight,
    HardMix,
    Difference,
    Exclusion,
    Subtract,
    Divide,
    Hue,
    Saturation,
    Color,
    Luminosity,
    Erase,
    Restore,
    MultiplyAlpha,
}

impl BlendMode {
    /// The user-facing blend modes, grouped for presentation: normal, darken,
    /// lighten, contrast, inversion and component groups. The utility modes
    /// at the end of the enumeration are not listed.
    pub fn list() -> (r: Vec<Vec<BlendMode>>)
        ensures
            r@.len() == 6,
            r@[0]@ =~= seq![BlendMode::Normal],
            r@[1]@ =~= seq![
                BlendMode::Darken,
                BlendMode::Multiply,
                BlendMode::ColorBurn,
                BlendMode::LinearBurn,
                BlendMode::DarkerColor,
            ],
            r@[2]@ =~= seq![
                BlendMode::Lighten,
                BlendMode::Screen,
                BlendMode::ColorDodge,
                BlendMode::LinearDodge,
                BlendMode::LighterColor,
            ],
            r@[3]@ =~= seq![
                BlendMode::Overlay,
                BlendMode::SoftLight,
                BlendMode::HardLight,
                BlendMode::VividLight,
                BlendMode::LinearLight,
                BlendMode::PinLight,
                BlendMode::HardMix,
            ],
            r@[4]@ =~= seq![
                BlendMode::Difference,
                BlendMode::Exclusion,
                BlendMode::Subtract,
                BlendMode::Divide,
            ],
            r@[5]@ =~= seq![
                BlendMode::Hue,
                BlendMode::Saturation,
                BlendMode::Color,
                BlendMode::Luminosity,
            ],
    {
        let mut r: Vec<Vec<BlendMode>> = Vec::new();
        r.push(vec![BlendMode::Normal]);
        r.push(
            vec![
                BlendMode::Darken,
                BlendMode::Multiply,
                BlendMode::ColorBurn,
                BlendMode::LinearBurn,
                BlendMode::DarkerColor,
            ],
        );
        r.push(
            vec![
                BlendMode::Lighten,
                BlendMode::Screen,
                BlendMode::ColorDodge,
                BlendMode::LinearDodge,
                BlendMode::LighterColor,
            ],
        );
        r.push(
            vec![
                BlendMode::Overlay,
                BlendMode::SoftLight,
                BlendMode::HardLight,
                BlendMode::VividLight,
                BlendMode::LinearLight,
                BlendMode::PinLight,
                BlendMode::HardMix,
            ],
        );
        r.push(
            vec![
                BlendMode::Difference,
                BlendMode::Exclusion,
                BlendMode::Subtract,
                BlendMode::Divide,
            ],
        );
        r.push(
            vec![BlendMode::Hue, BlendMode::Saturation, BlendMode::Color, BlendMode::Luminosity],
        );
        r
    }
}

/// A colour channel selector.
#[derive(Debug, Clone, Copy, PartialEq, Eq, Structural, Hash)]
pub enum RedGreenBlue {
    Red,
    Green,
    Blue,
}

/// Whether an adjustment applies relative or absolute offsets.
#[derive(Debug, Clone, Copy, PartialEq, Eq, Structural, Hash)]
pub enum RelativeAbsolute {
    Relative,
    Absolute,
}

/// The colour parameter group edited by the selective-colour adjustment.
#[derive(Debug, Clone, Copy, PartialEq, Eq, Structural, Hash)]
pub enum SelectiveColorChoice {
    Reds,
    Yellows,
    Greens,
    Cyans,
    Blues,
    Magentas,
    Whites,
    Neutrals,
    Blacks,
}

/// Luminance conversion parameters.
#[derive(Debug, Clone, Copy, PartialEq, Eq, Structural, Hash)]
pub struct LuminanceNode<L> {
    pub luminance_calc: L,
}

/// Channel extraction parameters.
#[derive(Debug, Clone, Copy, PartialEq, Eq, Structural, Hash)]
pub struct ExtractChannelNode<T> {
    pub channel: T,
}

/// Alpha channel extraction (no parameters).
#[derive(Debug, Clone, Copy, PartialEq, Eq, Structural, Hash)]
pub struct ExtractAlphaNode;

/// Opaque colour extraction (no parameters).
#[derive(Debug, Clone, Copy, PartialEq, Eq, Structural, Hash)]
pub struct ExtractOpaqueNode;

/// Levels adjustment parameters.
#[derive(Debug, Clone, Copy, PartialEq, Eq, Structural, Hash)]
pub struct LevelsNode<InputStart, InputMid, InputEnd, OutputStart, OutputEnd> {
    pub input_start: InputStart,
    pub input_mid: InputMid,
    pub input_end: InputEnd,
    pub output_start: OutputStart,
    pub output_end: OutputEnd,
}

/// Grayscale conversion parameters.
#[derive(Debug, Clone, Copy, PartialEq, Eq, Structural, Hash)]
pub struct GrayscaleNode<Tint, Reds, Yellows, Greens, Cyans, Blues, Magentas> {
    pub tint: Tint,
    pub reds: Reds,
    pub yellows: Yellows,
    pub greens: Greens,
    pub cyans: Cyans,
    pub blues: Blues,
    pub magentas: Magentas,
}

/// Hue/saturation/lightness shift parameters.
#[derive(Debug, Clone, Copy, PartialEq, Eq, Structural, Hash)]
pub struct HueSaturationNode<Hue, Sat, Lightness> {
    pub hue_shift: Hue,
    pub saturation_shift: Sat,
    pub lightness_shift: Lightness,
}

/// Channel inversion (no parameters).
#[derive(Debug, Clone, Copy, PartialEq, Eq, Structural, Hash)]
pub struct InvertRGBNode;

/// Threshold parameters.
#[derive(Debug, Clone, Copy, PartialEq, Eq, Structural, Hash)]
pub struct ThresholdNode<MinLuminance, MaxLuminance, LuminanceCalc> {
    pub min_luminance: MinLuminance,
    pub max_luminance: MaxLuminance,
    pub luminance_calc: LuminanceCalc,
}

/// Blend parameters.
#[derive(Debug, Clone, Copy, PartialEq, Eq, Structural, Hash)]
pub struct BlendNode<Mode, Opacity> {
    pub blend_mode: Mode,
    pub opacity: Opacity,
}

/// Vibrance parameters.
#[derive(Debug, Clone, Copy, PartialEq, Eq, Structural, Hash)]
pub struct VibranceNode<Vibrance> {
    pub vibrance: Vibrance,
}

/// Channel mixer parameters: a monochrome mix and one mix per output channel.
#[derive(Debug, Clone, Copy, PartialEq, Eq, Structural, Hash)]
pub struct ChannelMixerNode<
    Monochrome,
    MonochromeR,
    MonochromeG,
    MonochromeB,
    MonochromeC,
    RedR,
    RedG,
    RedB,
    RedC,
    GreenR,
    GreenG,
    GreenB,
    GreenC,
    BlueR,
    BlueG,
    BlueB,
    BlueC,
> {
    pub monochrome: Monochrome,
    pub monochrome_r: MonochromeR,
    pub monochrome_g: MonochromeG,
    pub monochrome_b: MonochromeB,
    pub monochrome_c: MonochromeC,
    pub red_r: RedR,
    pub red_g: RedG,
    pub red_b: RedB,
    pub red_c: RedC,
    pub green_r: GreenR,
    pub green_g: GreenG,
    pub green_b: GreenB,
    pub green_c: GreenC,
    pub blue_r: BlueR,
    pub blue_g: BlueG,
    pub blue_b: BlueB,
    pub blue_c: BlueC,
}

/// Selective colour parameters: CMYK offsets per colour parameter group.
#[derive(Debug, Clone, Copy, PartialEq, Eq, Structural, Hash)]
pub struct SelectiveColorNode<
    Mode,
    RC,
    RM,
    RY,
    RK,
    YC,
    YM,
    YY,
    YK,
    GC,
    GM,
    GY,
    GK,
    CC,
    CM,
    CY,
    CK,
    BC,
    BM,
    BY,
    BK,
    MC,
    MM,
    MY,
    MK,
    WC,
    WM,
    WY,
    WK,
    NC,
    NM,
    NY,
    NK,
    KC,
    KM,
    KY,
    KK,
> {
    pub mode: Mode,
    pub r_c: RC,
    pub r_m: RM,
    pub r_y: RY,
    pub r_k: RK,
    pub y_c: YC,
    pub y_m: YM,
    pub y_y: YY,
    pub y_k: YK,
    pub g_c: GC,
    pub g_m: GM,
    pub g_y: GY,
    pub g_k: GK,
    pub c_c: CC,
    pub c_m: CM,
    pub c_y: CY,
    pub c_k: CK,
    pub b_c: BC,
    pub b_m: BM,
    pub b_y: BY,
    pub b_k: BK,
    pub m_c: MC,
    pub m_m: MM,
    pub m_y: MY,
    pub m_k: MK,
    pub w_c: WC,
    pub w_m: WM,
    pub w_y: WY,
    pub w_k: WK,
    pub n_c: NC,
    pub n_m: NM,
    pub n_y: NY,
    pub n_k: NK,
    pub k_c: KC,
    pub k_m: KM,
    pub k_y: KY,
    pub k_k: KK,
}

/// Opacity multiplier parameters.
#[derive(Debug, Clone, Copy, PartialEq, Eq, Structural, Hash)]
pub struct OpacityNode<O> {
    pub opacity_multiplier: O,
}

/// Posterize parameters.
#[derive(Debug, Clone, Copy, PartialEq, Eq, Structural, Hash)]
pub struct PosterizeNode<P> {
    pub posterize_value: P,
}

/// Exposure parameters.
#[derive(Debug, Clone, Copy, PartialEq, Eq, Structural, Hash)]
pub struct ExposureNode<Exposure, Offset, GammaCorrection> {
    pub exposure: Exposure,
    pub offset: Offset,
    pub gamma_correction: GammaCorrection,
}

/// Segment selection parameters.
#[derive(Debug, Clone, Copy, PartialEq, Eq, Structural, Hash)]
pub struct IndexNode<Index> {
    pub index: Index,
}

/// Select the image frame at `index` from a segment list, or the empty frame
/// when the index is out of range.
pub fn index_node(input: &Vec<ImageFrame>, index: u32) -> (r: ImageFrame)
    ensures
        (index as int) < input@.len() ==> crate::value::image_frame_equiv(
            r,
            input@[index as int],
        ),
        (index as int) >= input@.len() ==> r.is_empty_spec(),
{
    if (index as usize) < input.len() {
        crate::value::clone_image_frame(&input[index as usize])
    } else {
        ImageFrame::empty()
    }
}

} // verus!
