//! The value model: the closed tagged union of every strongly typed value a
//! node input or output can carry, together with its payload types.

use vstd::prelude::*;
use crate::fixed::Fixed;
use crate::geom::{Affine, IVec2, Vec2F};
use crate::adjustments::{
    BlendMode, LuminanceCalculation, RedGreenBlue, RelativeAbsolute, SelectiveColorChoice,
};
use crate::document::DocumentNode;
use crate::scene::GraphicGroup;
use crate::text::{hex_char, hex_digit_str};

verus! {

/// A colour with linear red, green, blue and alpha channels in `[0, 1]`.
#[derive(Debug, Clone, Copy, PartialEq, Eq, Structural, Hash)]
pub struct Color {
    pub red: Fixed,
    pub green: Fixed,
    pub blue: Fixed,
    pub alpha: Fixed,
}

impl Color {
    pub fn new(red: Fixed, green: Fixed, blue: Fixed, alpha: Fixed) -> (r: Self)
        ensures
            r == (Color { red, green, blue, alpha }),
    {
        Color { red, green, blue, alpha }
    }

    pub fn white() -> (r: Self)
        ensures
            r.red.micros == 1000000 && r.green.micros == 1000000 && r.blue.micros == 1000000
                && r.alpha.micros == 1000000,
    {
        Color { red: Fixed::one(), green: Fixed::one(), blue: Fixed::one(), alpha: Fixed::one() }
    }

    pub fn black() -> (r: Self)
        ensures
            r.red.micros == 0 && r.green.micros == 0 && r.blue.micros == 0 && r.alpha.micros
                == 1000000,
    {
        Color { red: Fixed::zero(), green: Fixed::zero(), blue: Fixed::zero(), alpha: Fixed::one() }
    }

    /// The channel truncated to a byte: clamped to `[0, 1]`, scaled by 255.
    pub open spec fn channel_byte_spec(c: Fixed) -> int {
        let m = if c.micros < 0 {
            0
        } else if c.micros > 1000000 {
            1000000int
        } else {
            c.micros as int
        };
        m * 255 / 1000000
    }

    /// The eight-character uppercase hexadecimal RGBA rendering.
    pub open spec fn rgba_hex_spec(self) -> Seq<char> {
        byte_hex_seq(Self::channel_byte_spec(self.red)) + byte_hex_seq(
            Self::channel_byte_spec(self.green),
        ) + byte_hex_seq(Self::channel_byte_spec(self.blue)) + byte_hex_seq(
            Self::channel_byte_spec(self.alpha),
        )
    }

    /// Renders the colour as eight uppercase hexadecimal digits, two per
    /// channel, in red, green, blue, alpha order.
    pub fn rgba_hex(self) -> (r: String)
        ensures
            r@ == self.rgba_hex_spec(),
    {
        let mut s = channel_hex(self.red);
        s.append(channel_hex(self.green).as_str());
        s.append(channel_hex(self.blue).as_str());
        s.append(channel_hex(self.alpha).as_str());
        s
    }
}

/// The two hexadecimal digits of a byte value.
pub open spec fn byte_hex_seq(b: int) -> Seq<char> {
    seq![hex_char(b / 16), hex_char(b % 16)]
}

/// The two hexadecimal digits of one colour channel.
fn channel_hex(c: Fixed) -> (r: String)
    ensures
        r@ == byte_hex_seq(Color::channel_byte_spec(c)),
{
    let m: i64 = if c.micros < 0 {
        0
    } else if c.micros > 1000000 {
        1000000
    } else {
        c.micros
    };
    let b: u64 = ((m * 255) / 1000000) as u64;
    let mut s = String::new();
    s.append(hex_digit_str(b / 16));
    s.append(hex_digit_str(b % 16));
    proof {
        assert(s@ =~= byte_hex_seq(Color::channel_byte_spec(c)));
    }
    s
}

/// A raw pixel buffer in row-major order.
#[derive(Debug, Clone, PartialEq)]
pub struct Image {
    pub width: u32,
    pub height: u32,
    pub data: Vec<Color>,
}

impl Image {
    /// Whether this is the empty image.
    pub open spec fn is_empty_spec(self) -> bool {
        self.width == 0 && self.height == 0 && self.data@ =~= Seq::<Color>::empty()
    }

    pub fn empty() -> (r: Self)
        ensures
            r.is_empty_spec(),
    {
        Image { width: 0, height: 0, data: Vec::new() }
    }
}

/// An image together with the transform that places it in the plane.
#[derive(Debug, Clone, PartialEq)]
pub struct ImageFrame {
    pub image: Image,
    pub transform: Affine,
}

impl ImageFrame {
    /// Whether this is the empty frame: an empty image under the zero
    /// transform.
    pub open spec fn is_empty_spec(self) -> bool {
        self.image.is_empty_spec() && self.transform == zero_affine_spec()
    }

    pub fn empty() -> (r: Self)
        ensures
            r.is_empty_spec(),
    {
        ImageFrame {
            image: Image::empty(),
            transform: Affine {
                a: Fixed::zero(),
                b: Fixed::zero(),
                c: Fixed::zero(),
                d: Fixed::zero(),
                e: Fixed::zero(),
                f: Fixed::zero(),
            },
        }
    }
}

/// The all-zero affine transform.
pub open spec fn zero_affine_spec() -> Affine {
    Affine {
        a: Fixed { micros: 0 },
        b: Fixed { micros: 0 },
        c: Fixed { micros: 0 },
        d: Fixed { micros: 0 },
        e: Fixed { micros: 0 },
        f: Fixed { micros: 0 },
    }
}

/// One run of a path: an open or closed polyline of anchor points.
#[derive(Debug, Clone, PartialEq)]
pub struct Subpath {
    pub points: Vec<Vec2F>,
    pub closed: bool,
}

/// Stroke appearance of a path.
#[derive(Debug, Clone, Copy, PartialEq, Eq, Structural, Hash)]
pub struct Stroke {
    pub color: Option<Color>,
    pub weight: Fixed,
}

/// Fill and stroke appearance of a path.
#[derive(Debug, Clone, Copy, PartialEq, Eq, Structural, Hash)]
pub struct PathStyle {
    pub fill: Option<Color>,
    pub stroke: Option<Stroke>,
}

/// Path geometry with its local transform and style.
#[derive(Debug, Clone, PartialEq)]
pub struct VectorData {
    pub subpaths: Vec<Subpath>,
    pub transform: Affine,
    pub style: PathStyle,
}

impl VectorData {
    /// Whether this is the empty vector data: no subpaths, the identity
    /// transform, and no fill or stroke.
    pub open spec fn is_empty_spec(self) -> bool {
        self.subpaths@ =~= Seq::<Subpath>::empty() && self.transform == identity_affine_spec()
            && self.style == (PathStyle { fill: Option::<Color>::None, stroke: Option::<
            Stroke,
        >::None })
    }

    pub fn empty() -> (r: Self)
        ensures
            r.is_empty_spec(),
    {
        VectorData {
            subpaths: Vec::new(),
            transform: Affine::identity(),
            style: PathStyle { fill: Option::None, stroke: Option::None },
        }
    }
}

/// The identity affine transform.
pub open spec fn identity_affine_spec() -> Affine {
    Affine {
        a: Fixed { micros: 1000000 },
        b: Fixed { micros: 0 },
        c: Fixed { micros: 0 },
        d: Fixed { micros: 1000000 },
        e: Fixed { micros: 0 },
        f: Fixed { micros: 0 },
    }
}

/// A font request: family and style names.
#[derive(Debug, Clone, PartialEq)]
pub struct Font {
    pub font_family: String,
    pub font_style: String,
}

impl Font {
    pub fn new(font_family: String, font_style: String) -> (r: Self)
        ensures
            r.font_family@ == font_family@ && r.font_style@ == font_style@,
    {
        Font { font_family, font_style }
    }
}

/// One gradient stop: a position in `[0, 1]` and an optional colour.
#[derive(Debug, Clone, Copy, PartialEq, Eq, Structural, Hash)]
pub struct GradientStop {
    pub position: Fixed,
    pub color: Option<Color>,
}

/// One recorded brush stroke: the trajectory drawn by the user.
#[derive(Debug, Clone, PartialEq)]
pub struct BrushStroke {
    pub trajectory: Vec<Vec2F>,
}

/// An opaque, initially empty cache for brush rendering.
#[derive(Debug, Clone, Copy, PartialEq, Eq, Structural, Hash)]
pub struct BrushCache {}

impl BrushCache {
    pub fn new_proto() -> (r: Self) {
        BrushCache {  }
    }
}

/// A handle connecting an image-synthesis node to its controller.
#[derive(Debug, Clone, Copy, PartialEq, Eq, Structural, Hash)]
pub struct ImaginateController {}

impl ImaginateController {
    pub fn new() -> (r: Self) {
        ImaginateController {  }
    }
}

/// Sampling methods offered by the image-synthesis backend.
#[derive(Debug, Clone, Copy, PartialEq, Eq, Structural, Hash)]
pub enum ImaginateSamplingMethod {
    EulerA,
    Euler,
    LMS,
    Heun,
    DPM2,
    DPM2A,
    DPMPlusPlus2sA,
    DPMPlusPlus2m,
    DPMFast,
    DPMAdaptive,
    LMSKarras,
    DPM2Karras,
    DPM2AKarras,
    DPMPlusPlus2sAKarras,
    DPMPlusPlus2mKarras,
    DDIM,
    PLMS,
}

/// How a masked region is initialised by the image-synthesis backend.
#[derive(Debug, Clone, Copy, PartialEq, Eq, Structural, Hash)]
pub enum ImaginateMaskStartingFill {
    Fill,
    Original,
    LatentNoise,
    LatentNothing,
}

/// How a path is filled.
#[derive(Debug, Clone, Copy, PartialEq, Eq, Structural, Hash)]
pub enum FillType {
    NoFill,
    Solid,
    Gradient,
}

/// The shape of a gradient.
#[derive(Debug, Clone, Copy, PartialEq, Eq, Structural, Hash)]
pub enum GradientType {
    Linear,
    Radial,
}

/// Stroke line cap styles.
#[derive(Debug, Clone, Copy, PartialEq, Eq, Structural, Hash)]
pub enum LineCap {
    Butt,
    Round,
    Square,
}

/// Stroke line join styles.
#[derive(Debug, Clone, Copy, PartialEq, Eq, Structural, Hash)]
pub enum LineJoin {
    Miter,
    Bevel,
    Round,
}

/// The declared type of a network-level input slot, named after the concrete
/// type it stands for.
#[derive(Debug, Clone, Copy, PartialEq, Eq, Hash)]
pub struct Type {
    pub name: &'static str,
}

impl Type {
    pub fn concrete(name: &'static str) -> (r: Self)
        ensures
            r.name@ == name@,
    {
        Type { name }
    }
}

/// Two declared types are the same when their names agree.
pub open spec fn type_equiv(a: Type, b: Type) -> bool {
    a.name@ == b.name@
}

/// Executable comparison of declared types.
pub fn type_eq(a: &Type, b: &Type) -> (r: bool)
    ensures
        r == type_equiv(*a, *b),
{
    crate::text::str_eq(a.name, b.name)
}

/// The data kind a slot presents in the graph editor.
#[derive(Debug, Clone, Copy, PartialEq, Eq, Structural, Hash)]
pub enum FrontendGraphDataType {
    General,
    Raster,
    Color,
    Number,
    Boolean,
    Subpath,
    GraphicGroup,
    Artboard,
}

/// Every strongly typed value a node input or output can carry.
#[derive(Debug)]
pub enum TaggedValue {
    Null,
    String(String),
    U32(u32),
    F32(Fixed),
    F64(Fixed),
    Bool(bool),
    DVec2(Vec2F),
    OptionalDVec2(Option<Vec2F>),
    IVec2(IVec2),
    DAffine2(Affine),
    Image(Image),
    ImageFrame(ImageFrame),
    Color(Color),
    OptionalColor(Option<Color>),
    Subpaths(Vec<Subpath>),
    VectorData(VectorData),
    ManipulatorGroupIds(Vec<u64>),
    Font(Font),
    VecF32(Vec<Fixed>),
    BlendMode(BlendMode),
    LuminanceCalculation(LuminanceCalculation),
    ImaginateSamplingMethod(ImaginateSamplingMethod),
    ImaginateMaskStartingFill(ImaginateMaskStartingFill),
    ImaginateController(ImaginateController),
    RedGreenBlue(RedGreenBlue),
    RelativeAbsolute(RelativeAbsolute),
    SelectiveColorChoice(SelectiveColorChoice),
    LineCap(LineCap),
    LineJoin(LineJoin),
    FillType(FillType),
    GradientType(GradientType),
    GradientPositions(Vec<GradientStop>),
    LayerPath(Option<Vec<u64>>),
    DocumentNode(Box<DocumentNode>),
    GraphicGroup(GraphicGroup),
    Segments(Vec<ImageFrame>),
    BrushStrokes(Vec<BrushStroke>),
    BrushCache(BrushCache),
}

/// The data kind presented for a value of each tag.
pub open spec fn data_type_of(v: TaggedValue) -> FrontendGraphDataType {
    match v {
        TaggedValue::U32(_) => FrontendGraphDataType::Number,
        TaggedValue::F32(_) => FrontendGraphDataType::Number,
        TaggedValue::F64(_) => FrontendGraphDataType::Number,
        TaggedValue::Bool(_) => FrontendGraphDataType::Boolean,
        TaggedValue::Color(_) => FrontendGraphDataType::Color,
        TaggedValue::OptionalColor(_) => FrontendGraphDataType::Color,
        TaggedValue::Image(_) => FrontendGraphDataType::Raster,
        TaggedValue::ImageFrame(_) => FrontendGraphDataType::Raster,
        TaggedValue::Segments(_) => FrontendGraphDataType::Raster,
        TaggedValue::Subpaths(_) => FrontendGraphDataType::Subpath,
        TaggedValue::VectorData(_) => FrontendGraphDataType::Subpath,
        TaggedValue::VecF32(_) => FrontendGraphDataType::Number,
        TaggedValue::GraphicGroup(_) => FrontendGraphDataType::GraphicGroup,
        _ => FrontendGraphDataType::General,
    }
}

/// Executable tag-to-data-kind mapping.
pub fn with_tagged_value(v: &TaggedValue) -> (r: FrontendGraphDataType)
    ensures
        r == data_type_of(*v),
{
    match v {
        TaggedValue::U32(_) => FrontendGraphDataType::Number,
        TaggedValue::F32(_) => FrontendGraphDataType::Number,
        TaggedValue::F64(_) => FrontendGraphDataType::Number,
        TaggedValue::Bool(_) => FrontendGraphDataType::Boolean,
        TaggedValue::Color(_) => FrontendGraphDataType::Color,
        TaggedValue::OptionalColor(_) => FrontendGraphDataType::Color,
        TaggedValue::Image(_) => FrontendGraphDataType::Raster,
        TaggedValue::ImageFrame(_) => FrontendGraphDataType::Raster,
        TaggedValue::Segments(_) => FrontendGraphDataType::Raster,
        TaggedValue::Subpaths(_) => FrontendGraphDataType::Subpath,
        TaggedValue::VectorData(_) => FrontendGraphDataType::Subpath,
        TaggedValue::VecF32(_) => FrontendGraphDataType::Number,
        TaggedValue::GraphicGroup(_) => FrontendGraphDataType::GraphicGroup,
        _ => FrontendGraphDataType::General,
    }
}

/// Deep equality of subpaths.
pub open spec fn subpath_equiv(a: Subpath, b: Subpath) -> bool {
    a.points@ == b.points@ && a.closed == b.closed
}

/// Deep equality of subpath lists.
pub open spec fn subpaths_equiv(a: Seq<Subpath>, b: Seq<Subpath>) -> bool {
    a.len() == b.len() && forall|i: int| 0 <= i < a.len() ==> subpath_equiv(a[i], b[i])
}

/// Deep equality of images.
pub open spec fn image_equiv(a: Image, b: Image) -> bool {
    a.width == b.width && a.height == b.height && a.data@ == b.data@
}

/// Deep equality of image frames.
pub open spec fn image_frame_equiv(a: ImageFrame, b: ImageFrame) -> bool {
    image_equiv(a.image, b.image) && a.transform == b.transform
}

/// Deep equality of segment lists.
pub open spec fn segments_equiv(a: Seq<ImageFrame>, b: Seq<ImageFrame>) -> bool {
    a.len() == b.len() && forall|i: int| 0 <= i < a.len() ==> image_frame_equiv(a[i], b[i])
}

/// Deep equality of vector data.
pub open spec fn vector_data_equiv(a: VectorData, b: VectorData) -> bool {
    subpaths_equiv(a.subpaths@, b.subpaths@) && a.transform == b.transform && a.style == b.style
}

/// Deep equality of fonts.
pub open spec fn font_equiv(a: Font, b: Font) -> bool {
    a.font_family@ == b.font_family@ && a.font_style@ == b.font_style@
}

/// Deep equality of brush strokes.
pub open spec fn brush_stroke_equiv(a: BrushStroke, b: BrushStroke) -> bool {
    a.trajectory@ == b.trajectory@
}

/// Deep equality of brush stroke lists.
pub open spec fn brush_strokes_equiv(a: Seq<BrushStroke>, b: Seq<BrushStroke>) -> bool {
    a.len() == b.len() && forall|i: int| 0 <= i < a.len() ==> brush_stroke_equiv(a[i], b[i])
}

/// Deep equality of optional node id paths.
pub open spec fn layer_path_equiv(a: Option<Vec<u64>>, b: Option<Vec<u64>>) -> bool {
    match (a, b) {
        (Option::Some(x), Option::Some(y)) => x@ == y@,
        (Option::None, Option::None) => true,
        _ => false,
    }
}

/// Deep equality of tagged values: tags agree and payloads agree, comparing
/// heap-backed payloads element for element.
pub open spec fn tagged_value_equiv(a: TaggedValue, b: TaggedValue) -> bool
    decreases a,
{
    match (a, b) {
        (TaggedValue::String(x), TaggedValue::String(y)) => x@ == y@,
        (TaggedValue::Image(x), TaggedValue::Image(y)) => image_equiv(x, y),
        (TaggedValue::ImageFrame(x), TaggedValue::ImageFrame(y)) => image_frame_equiv(x, y),
        (TaggedValue::Subpaths(x), TaggedValue::Subpaths(y)) => subpaths_equiv(x@, y@),
        (TaggedValue::VectorData(x), TaggedValue::VectorData(y)) => vector_data_equiv(x, y),
        (TaggedValue::ManipulatorGroupIds(x), TaggedValue::ManipulatorGroupIds(y)) => x@ == y@,
        (TaggedValue::Font(x), TaggedValue::Font(y)) => font_equiv(x, y),
        (TaggedValue::VecF32(x), TaggedValue::VecF32(y)) => x@ == y@,
        (TaggedValue::GradientPositions(x), TaggedValue::GradientPositions(y)) => x@ == y@,
        (TaggedValue::LayerPath(x), TaggedValue::LayerPath(y)) => layer_path_equiv(x, y),
        (TaggedValue::DocumentNode(x), TaggedValue::DocumentNode(y)) =>
            crate::document::document_node_equiv(*x, *y),
        (TaggedValue::GraphicGroup(x), TaggedValue::GraphicGroup(y)) =>
            crate::scene::graphic_group_equiv(x, y),
        (TaggedValue::Segments(x), TaggedValue::Segments(y)) => segments_equiv(x@, y@),
        (TaggedValue::BrushStrokes(x), TaggedValue::BrushStrokes(y)) => brush_strokes_equiv(
            x@,
            y@,
        ),
        (x, y) => x == y,
    }
}

/// Deep copy of a subpath.
pub fn clone_subpath(v: &Subpath) -> (r: Subpath)
    ensures
        subpath_equiv(r, *v),
{
    let mut points: Vec<Vec2F> = Vec::new();
    let mut i: usize = 0;
    while i < v.points.len()
        invariant
            i <= v.points@.len(),
            points@ =~= v.points@.subrange(0, i as int),
        decreases v.points@.len() - i,
    {
        points.push(v.points[i]);
        i = i + 1;
    }
    proof {
        assert(points@ =~= v.points@);
    }
    Subpath { points, closed: v.closed }
}

/// Deep copy of a subpath list.
pub fn clone_subpaths(v: &Vec<Subpath>) -> (r: Vec<Subpath>)
    ensures
        subpaths_equiv(r@, v@),
{
    let mut r: Vec<Subpath> = Vec::new();
    let mut i: usize = 0;
    while i < v.len()
        invariant
            i <= v@.len(),
            r@.len() == i,
            forall|j: int| 0 <= j < i ==> subpath_equiv(r@[j], v@[j]),
        decreases v@.len() - i,
    {
        r.push(clone_subpath(&v[i]));
        i = i + 1;
    }
    r
}

/// Deep copy of an image.
pub fn clone_image(v: &Image) -> (r: Image)
    ensures
        image_equiv(r, *v),
{
    let mut data: Vec<Color> = Vec::new();
    let mut i: usize = 0;
    while i < v.data.len()
        invariant
            i <= v.data@.len(),
            data@ =~= v.data@.subrange(0, i as int),
        decreases v.data@.len() - i,
    {
        data.push(v.data[i]);
        i = i + 1;
    }
    proof {
        assert(data@ =~= v.data@);
    }
    Image { width: v.width, height: v.height, data }
}

/// Deep copy of an image frame.
pub fn clone_image_frame(v: &ImageFrame) -> (r: ImageFrame)
    ensures
        image_frame_equiv(r, *v),
{
    ImageFrame { image: clone_image(&v.image), transform: v.transform }
}

/// Deep copy of vector data.
pub fn clone_vector_data(v: &VectorData) -> (r: VectorData)
    ensures
        vector_data_equiv(r, *v),
{
    VectorData { subpaths: clone_subpaths(&v.subpaths), transform: v.transform, style: v.style }
}

/// Deep copy of a font request.
pub fn clone_font(v: &Font) -> (r: Font)
    ensures
        font_equiv(r, *v),
{
    Font { font_family: v.font_family.clone(), font_style: v.font_style.clone() }
}

/// Deep copy of a vector of copyable elements.
pub fn clone_copy_vec<T: Copy>(v: &Vec<T>) -> (r: Vec<T>)
    ensures
        r@ == v@,
{
    let mut r: Vec<T> = Vec::new();
    let mut i: usize = 0;
    while i < v.len()
        invariant
            i <= v@.len(),
            r@ =~= v@.subrange(0, i as int),
        decreases v@.len() - i,
    {
        r.push(v[i]);
        i = i + 1;
    }
    proof {
        assert(r@ =~= v@);
    }
    r
}

/// Deep copy of a segment list.
pub fn clone_segments(v: &Vec<ImageFrame>) -> (r: Vec<ImageFrame>)
    ensures
        segments_equiv(r@, v@),
{
    let mut r: Vec<ImageFrame> = Vec::new();
    let mut i: usize = 0;
    while i < v.len()
        invariant
            i <= v@.len(),
            r@.len() == i,
            forall|j: int| 0 <= j < i ==> image_frame_equiv(r@[j], v@[j]),
        decreases v@.len() - i,
    {
        r.push(clone_image_frame(&v[i]));
        i = i + 1;
    }
    r
}

/// Deep copy of a brush stroke list.
pub fn clone_brush_strokes(v: &Vec<BrushStroke>) -> (r: Vec<BrushStroke>)
    ensures
        brush_strokes_equiv(r@, v@),
{
    let mut r: Vec<BrushStroke> = Vec::new();
    let mut i: usize = 0;
    while i < v.len()
        invariant
            i <= v@.len(),
            r@.len() == i,
            forall|j: int| 0 <= j < i ==> brush_stroke_equiv(r@[j], v@[j]),
        decreases v@.len() - i,
    {
        r.push(BrushStroke { trajectory: clone_copy_vec(&v[i].trajectory) });
        i = i + 1;
    }
    r
}

/// Deep copy of a tagged value.
pub fn clone_tagged_value(v: &TaggedValue) -> (r: TaggedValue)
    ensures
        tagged_value_equiv(r, *v),
    decreases *v,
{
    match v {
        TaggedValue::Null => TaggedValue::Null,
        TaggedValue::String(x) => TaggedValue::String(x.clone()),
        TaggedValue::U32(x) => TaggedValue::U32(*x),
        TaggedValue::F32(x) => TaggedValue::F32(*x),
        TaggedValue::F64(x) => TaggedValue::F64(*x),
        TaggedValue::Bool(x) => TaggedValue::Bool(*x),
        TaggedValue::DVec2(x) => TaggedValue::DVec2(*x),
        TaggedValue::OptionalDVec2(x) => TaggedValue::OptionalDVec2(*x),
        TaggedValue::IVec2(x) => TaggedValue::IVec2(*x),
        TaggedValue::DAffine2(x) => TaggedValue::DAffine2(*x),
        TaggedValue::Image(x) => TaggedValue::Image(clone_image(x)),
        TaggedValue::ImageFrame(x) => TaggedValue::ImageFrame(clone_image_frame(x)),
        TaggedValue::Color(x) => TaggedValue::Color(*x),
        TaggedValue::OptionalColor(x) => TaggedValue::OptionalColor(*x),
        TaggedValue::Subpaths(x) => TaggedValue::Subpaths(clone_subpaths(x)),
        TaggedValue::VectorData(x) => TaggedValue::VectorData(clone_vector_data(x)),
        TaggedValue::ManipulatorGroupIds(x) => TaggedValue::ManipulatorGroupIds(clone_copy_vec(x)),
        TaggedValue::Font(x) => TaggedValue::Font(clone_font(x)),
        TaggedValue::VecF32(x) => TaggedValue::VecF32(clone_copy_vec(x)),
        TaggedValue::BlendMode(x) => TaggedValue::BlendMode(*x),
        TaggedValue::LuminanceCalculation(x) => TaggedValue::LuminanceCalculation(*x),
        TaggedValue::ImaginateSamplingMethod(x) => TaggedValue::ImaginateSamplingMethod(*x),
        TaggedValue::ImaginateMaskStartingFill(x) => TaggedValue::ImaginateMaskStartingFill(*x),
        TaggedValue::ImaginateController(x) => TaggedValue::ImaginateController(*x),
        TaggedValue::RedGreenBlue(x) => TaggedValue::RedGreenBlue(*x),
        TaggedValue::RelativeAbsolute(x) => TaggedValue::RelativeAbsolute(*x),
        TaggedValue::SelectiveColorChoice(x) => TaggedValue::SelectiveColorChoice(*x),
        TaggedValue::LineCap(x) => TaggedValue::LineCap(*x),
        TaggedValue::LineJoin(x) => TaggedValue::LineJoin(*x),
        TaggedValue::FillType(x) => TaggedValue::FillType(*x),
        TaggedValue::GradientType(x) => TaggedValue::GradientType(*x),
        TaggedValue::GradientPositions(x) => TaggedValue::GradientPositions(clone_copy_vec(x)),
        TaggedValue::LayerPath(x) => TaggedValue::LayerPath(
            match x {
                Option::Some(p) => Option::Some(clone_copy_vec(p)),
                Option::None => Option::None,
            },
        ),
        TaggedValue::DocumentNode(x) => TaggedValue::DocumentNode(
            Box::new(crate::document::clone_document_node(&**x)),
        ),
        TaggedValue::GraphicGroup(x) => TaggedValue::GraphicGroup(
            crate::scene::clone_graphic_group(x),
        ),
        TaggedValue::Segments(x) => TaggedValue::Segments(clone_segments(x)),
        TaggedValue::BrushStrokes(x) => TaggedValue::BrushStrokes(clone_brush_strokes(x)),
        TaggedValue::BrushCache(x) => TaggedValue::BrushCache(*x),
    }
}

} // verus!
