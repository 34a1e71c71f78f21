//! The built-in node type catalog: one descriptor per node kind, built once
//! at startup into a [`NodeTypeRegistry`](crate::registry::NodeTypeRegistry).

use vstd::prelude::*;
use vstd::string::StringExecFns;
use crate::adjustments::{
    BlendMode, LuminanceCalculation, RedGreenBlue, RelativeAbsolute, SelectiveColorChoice,
};
use crate::document::{
    DocumentNode, DocumentNodeImplementation, DocumentNodeMetadata, NodeInput, NodeNetwork,
    NodeOutput,
};
use crate::fixed::Fixed;
use crate::geom::{Affine, IVec2, Vec2F};
use crate::registry::{
    resolve_spec, DocumentInputType, DocumentNodeType, DocumentOutputType, NodeImplementation,
    NodePropertiesHook, NodeTypeRegistry,
};
use crate::value::{
    Color, FillType, Font, FrontendGraphDataType, GradientStop, GradientType, Image, ImageFrame,
    ImaginateController, ImaginateMaskStartingFill, ImaginateSamplingMethod, LineCap, LineJoin,
    BrushCache, BrushStroke, Subpath, TaggedValue, Type, VectorData,
};

verus! {

/// Family name of the default text font.
pub const DEFAULT_FONT_FAMILY: &'static str = "Merriweather";

/// Style name of the default text font.
pub const DEFAULT_FONT_STYLE: &'static str = "Normal (400)";

/// Assembles one descriptor from well-formed input slots.
fn nt(
    name: &'static str,
    category: &'static str,
    identifier: NodeImplementation,
    inputs: Vec<DocumentInputType>,
    outputs: Vec<DocumentOutputType>,
    primary_output: bool,
    properties: NodePropertiesHook,
) -> (r: DocumentNodeType)
    requires
        forall|i: int| 0 <= i < inputs@.len() ==> (#[trigger] inputs@[i]).wf(),
    ensures
        r.wf(),
        r.name == name,
        r.category == category,
        r.inputs@ == inputs@,
        r.outputs@ == outputs@,
        r.primary_output == primary_output,
        r.properties == properties,
{
    DocumentNodeType { name, category, identifier, inputs, outputs, primary_output, properties }
}

/// An exposed or inline image-frame slot defaulting to the empty frame.
fn image_input(name: &'static str, exposed: bool) -> (r: DocumentInputType)
    ensures
        r.wf(),
{
    DocumentInputType::value(name, TaggedValue::ImageFrame(ImageFrame::empty()), exposed)
}

/// A numeric slot defaulting to the given count of millionths.
fn num_input(name: &'static str, micros: i64, exposed: bool) -> (r: DocumentInputType)
    ensures
        r.wf(),
{
    DocumentInputType::value(name, TaggedValue::F32(Fixed::from_micros(micros)), exposed)
}

/// A free-input slot of the given declared type.
fn net_input(name: &'static str, data_type: FrontendGraphDataType, ty: &'static str) -> (r:
    DocumentInputType)
    ensures
        r.wf(),
{
    DocumentInputType::new(name, data_type, NodeInput::Network(Type::concrete(ty)))
}

/// An exposed vector-data slot defaulting to the empty vector data.
fn vector_input(name: &'static str) -> (r: DocumentInputType)
    ensures
        r.wf(),
{
    DocumentInputType::value(name, TaggedValue::VectorData(VectorData::empty()), true)
}

/// One node of a nested implementation network.
fn inner_node(name: &'static str, inputs: Vec<NodeInput>, proto_name: &'static str) -> (r:
    DocumentNode)
{
    DocumentNode {
        name: String::from_str(name),
        inputs,
        implementation: DocumentNodeImplementation::proto(proto_name),
        metadata: DocumentNodeMetadata::origin(),
    }
}

/// The default node instance: no inputs and the identity operation.
pub fn default_document_node() -> (r: DocumentNode) {
    DocumentNode {
        name: String::new(),
        inputs: Vec::new(),
        implementation: DocumentNodeImplementation::proto("graphene_core::ops::IdNode"),
        metadata: DocumentNodeMetadata::origin(),
    }
}

/// The standard single raster output slot.
fn image_output() -> (r: Vec<DocumentOutputType>) {
    vec![DocumentOutputType::new("Image", FrontendGraphDataType::Raster)]
}

/// The standard single numeric output slot.
fn number_output() -> (r: Vec<DocumentOutputType>) {
    vec![DocumentOutputType::new("Output", FrontendGraphDataType::Number)]
}

/// The standard single subpath output slot.
fn vector_output() -> (r: Vec<DocumentOutputType>) {
    vec![DocumentOutputType::new("Vector", FrontendGraphDataType::Subpath)]
}

/// The declared shape of the "Value" node type: one input slot named
/// "Value" defaulting to an unexposed numeric zero, and one numeric output.
pub open spec fn value_descriptor_shape(d: DocumentNodeType) -> bool {
    &&& d.inputs@.len() == 1
    &&& d.inputs@[0].name@ == "Value"@
    &&& d.inputs@[0].data_type == FrontendGraphDataType::Number
    &&& d.inputs@[0].default == (NodeInput::Value {
        tagged_value: TaggedValue::F32(Fixed { micros: 0 }),
        exposed: false,
    })
    &&& d.outputs@.len() == 1
    &&& d.outputs@[0].data_type == FrontendGraphDataType::Number
}

/// Value, colour and structural input node types.
fn catalog_inputs() -> (r: Vec<DocumentNodeType>)
    ensures
        forall|i: int| 0 <= i < r@.len() ==> (#[trigger] r@[i]).wf(),
        r@.len() == 5,
        r@[0].name@ == "Boolean"@,
        r@[1].name@ == "Value"@,
        value_descriptor_shape(r@[1]),
        r@[2].name@ == "Color"@,
        r@[3].name@ == "Identity"@,
        r@[4].name@ == "Monitor"@,
{
    let mut r: Vec<DocumentNodeType> = Vec::new();
    r.push(
        nt(
            "Boolean",
            "Inputs",
            NodeImplementation::proto("graphene_core::ops::IdNode"),
            vec![DocumentInputType::value("Bool", TaggedValue::Bool(true), false)],
            vec![DocumentOutputType::new("Out", FrontendGraphDataType::Boolean)],
            false,
            NodePropertiesHook::Routine("boolean_properties"),
        ),
    );
    r.push(
        nt(
            "Value",
            "Inputs",
            NodeImplementation::proto("graphene_core::ops::IdNode"),
            vec![DocumentInputType::value("Value", TaggedValue::F32(Fixed::zero()), false)],
            vec![DocumentOutputType::new("Out", FrontendGraphDataType::Number)],
            false,
            NodePropertiesHook::Routine("value_properties"),
        ),
    );
    r.push(
        nt(
            "Color",
            "Inputs",
            NodeImplementation::proto("graphene_core::ops::IdNode"),
            vec![
                DocumentInputType::value("Value", TaggedValue::OptionalColor(Option::None), false),
            ],
            vec![DocumentOutputType::new("Out", FrontendGraphDataType::Color)],
            false,
            NodePropertiesHook::Routine("color_properties"),
        ),
    );
    r.push(
        nt(
            "Identity",
            "Structural",
            NodeImplementation::proto("graphene_core::ops::IdNode"),
            vec![
                DocumentInputType::new(
                    "In",
                    FrontendGraphDataType::General,
                    NodeInput::value(TaggedValue::Null, true),
                ),
            ],
            vec![DocumentOutputType::new("Out", FrontendGraphDataType::General)],
            false,
            crate::registry::string_properties("The identity node simply returns the input"),
        ),
    );
    r.push(
        nt(
            "Monitor",
            "Structural",
            NodeImplementation::proto("graphene_core::ops::IdNode"),
            vec![
                DocumentInputType::new(
                    "In",
                    FrontendGraphDataType::General,
                    NodeInput::value(TaggedValue::Null, true),
                ),
            ],
            vec![DocumentOutputType::new("Out", FrontendGraphDataType::General)],
            false,
            crate::registry::string_properties("The Monitor node stores the value of its last evaluation"),
        ),
    );
    r
}

/// The layer, artboard and resolution-reduction node types.
fn catalog_layer() -> (r: Vec<DocumentNodeType>)
    ensures
        forall|i: int| 0 <= i < r@.len() ==> (#[trigger] r@[i]).wf(),
        r@.len() == 3,
        r@[0].name@ == "Layer"@,
        r@[1].name@ == "Artboard"@,
        r@[2].name@ == "Downres"@,
{
    let mut r: Vec<DocumentNodeType> = Vec::new();
    let layer_network = NodeNetwork {
        inputs: vec![0, 0, 0, 0, 0, 0, 0, 0],
        outputs: vec![NodeOutput::new(1, 0)],
        nodes: vec![
            (
                0,
                DocumentNode {
                    name: String::new(),
                    inputs: vec![
                        NodeInput::Network(Type::concrete("VectorData")),
                        NodeInput::Network(Type::concrete("String")),
                        NodeInput::Network(Type::concrete("BlendMode")),
                        NodeInput::Network(Type::concrete("f32")),
                        NodeInput::Network(Type::concrete("bool")),
                        NodeInput::Network(Type::concrete("bool")),
                        NodeInput::Network(Type::concrete("bool")),
                        NodeInput::Network(Type::concrete("GraphicGroup")),
                    ],
                    implementation: DocumentNodeImplementation::proto(
                        "graphene_core::ConstructLayerNode<_, _, _, _, _, _, _>",
                    ),
                    metadata: DocumentNodeMetadata::origin(),
                },
            ),
            (
                1,
                DocumentNode {
                    name: String::new(),
                    inputs: vec![NodeInput::node(0, 0)],
                    implementation: DocumentNodeImplementation::proto(
                        "graphene_core::memo::MonitorNode<_>",
                    ),
                    metadata: DocumentNodeMetadata::origin(),
                },
            ),
        ],
    };
    r.push(
        nt(
            "Layer",
            "General",
            NodeImplementation::DocumentNode(layer_network),
            vec![
                vector_input("Vector Data"),
                DocumentInputType::value("Name", TaggedValue::String(String::new()), false),
                DocumentInputType::value(
                    "Blend Mode",
                    TaggedValue::BlendMode(BlendMode::Normal),
                    false,
                ),
                num_input("Opacity", 100_000_000, false),
                DocumentInputType::value("Visible", TaggedValue::Bool(true), false),
                DocumentInputType::value("Locked", TaggedValue::Bool(false), false),
                DocumentInputType::value("Collapsed", TaggedValue::Bool(false), false),
                DocumentInputType::value(
                    "Stack",
                    TaggedValue::GraphicGroup(crate::scene::GraphicGroup::empty()),
                    true,
                ),
            ],
            vec![DocumentOutputType::new("Out", FrontendGraphDataType::GraphicGroup)],
            false,
            NodePropertiesHook::Routine("layer_properties"),
        ),
    );
    r.push(
        nt(
            "Artboard",
            "General",
            NodeImplementation::proto("graphene_core::ConstructArtboardNode<_, _, _, _>"),
            vec![
                DocumentInputType::value(
                    "Graphic Group",
                    TaggedValue::GraphicGroup(crate::scene::GraphicGroup::empty()),
                    true,
                ),
                DocumentInputType::value("Location", TaggedValue::IVec2(IVec2::zero()), false),
                DocumentInputType::value(
                    "Dimensions",
                    TaggedValue::IVec2(IVec2::new(1920, 1080)),
                    false,
                ),
                DocumentInputType::value("Background", TaggedValue::Color(Color::white()), false),
                DocumentInputType::value("Clip", TaggedValue::Bool(false), false),
            ],
            vec![DocumentOutputType::new("Out", FrontendGraphDataType::Artboard)],
            false,
            NodePropertiesHook::Routine("artboard_properties"),
        ),
    );
    let downres_network = NodeNetwork {
        inputs: vec![0],
        outputs: vec![NodeOutput::new(1, 0)],
        nodes: vec![
            (
                0,
                inner_node(
                    "Downres",
                    vec![NodeInput::Network(Type::concrete("ImageFrame"))],
                    "graphene_std::raster::DownresNode<_>",
                ),
            ),
            (
                1,
                inner_node(
                    "Cache",
                    vec![
                        NodeInput::ShortCircuit(Type::concrete("()")),
                        NodeInput::node(0, 0),
                    ],
                    "graphene_core::memo::MemoNode<_, _>",
                ),
            ),
        ],
    };
    r.push(
        nt(
            "Downres",
            "Raster",
            NodeImplementation::DocumentNode(downres_network),
            vec![image_input("Image", false)],
            image_output(),
            false,
            crate::registry::string_properties("Downres the image to a lower resolution"),
        ),
    );
    r
}

/// Editor input, image loading and canvas node types.
fn catalog_io() -> (r: Vec<DocumentNodeType>)
    ensures
        forall|i: int| 0 <= i < r@.len() ==> (#[trigger] r@[i]).wf(),
        r@.len() == 4,
        r@[0].name@ == "Input Frame"@,
        r@[1].name@ == "Load Image"@,
        r@[2].name@ == "Create Canvas"@,
        r@[3].name@ == "Draw Canvas"@,
{
    let mut r: Vec<DocumentNodeType> = Vec::new();
    r.push(
        nt(
            "Input Frame",
            "Ignore",
            NodeImplementation::proto("graphene_core::ExtractImageFrame"),
            vec![net_input("In", FrontendGraphDataType::General, "WasmEditorApi")],
            vec![DocumentOutputType::new("Image Frame", FrontendGraphDataType::Raster)],
            false,
            NodePropertiesHook::Routine("input_properties"),
        ),
    );
    let load_image_network = NodeNetwork {
        inputs: vec![0, 0],
        outputs: vec![NodeOutput::new(1, 0)],
        nodes: vec![
            (
                0,
                inner_node(
                    "Load Resource",
                    vec![
                        NodeInput::Network(Type::concrete("WasmEditorApi")),
                        NodeInput::Network(Type::concrete("String")),
                    ],
                    "graphene_std::wasm_application_io::LoadResourceNode<_>",
                ),
            ),
            (
                1,
                inner_node(
                    "Decode Image",
                    vec![NodeInput::node(0, 0)],
                    "graphene_std::wasm_application_io::DecodeImageNode",
                ),
            ),
        ],
    };
    r.push(
        nt(
            "Load Image",
            "Structural",
            NodeImplementation::DocumentNode(load_image_network),
            vec![
                net_input("api", FrontendGraphDataType::General, "WasmEditorApi"),
                DocumentInputType::new(
                    "path",
                    FrontendGraphDataType::General,
                    NodeInput::value(
                        TaggedValue::String(String::from_str("graphite:null")),
                        false,
                    ),
                ),
            ],
            vec![DocumentOutputType::new("Image Frame", FrontendGraphDataType::Raster)],
            false,
            NodePropertiesHook::Routine("load_image_properties"),
        ),
    );
    let create_canvas_network = NodeNetwork {
        inputs: vec![0],
        outputs: vec![NodeOutput::new(1, 0)],
        nodes: vec![
            (
                0,
                inner_node(
                    "Create Canvas",
                    vec![NodeInput::Network(Type::concrete("WasmEditorApi"))],
                    "graphene_std::wasm_application_io::CreateSurfaceNode",
                ),
            ),
            (
                1,
                inner_node(
                    "Cache",
                    vec![
                        NodeInput::ShortCircuit(Type::concrete("()")),
                        NodeInput::node(0, 0),
                    ],
                    "graphene_core::memo::MemoNode<_, _>",
                ),
            ),
        ],
    };
    r.push(
        nt(
            "Create Canvas",
            "Structural",
            NodeImplementation::DocumentNode(create_canvas_network),
            vec![net_input("In", FrontendGraphDataType::General, "WasmEditorApi")],
            vec![DocumentOutputType::new("Canvas", FrontendGraphDataType::General)],
            false,
            NodePropertiesHook::NoProperties,
        ),
    );
    let draw_canvas_network = NodeNetwork {
        inputs: vec![0, 2],
        outputs: vec![NodeOutput::new(3, 0)],
        nodes: vec![
            (
                0,
                inner_node(
                    "Convert Image Frame",
                    vec![NodeInput::Network(Type::concrete("ImageFrame"))],
                    "graphene_core::ops::IntoNode<_, ImageFrame<SRGBA8>>",
                ),
            ),
            (
                1,
                inner_node(
                    "Create Canvas",
                    vec![NodeInput::Network(Type::concrete("WasmEditorApi"))],
                    "graphene_std::wasm_application_io::CreateSurfaceNode",
                ),
            ),
            (
                2,
                inner_node(
                    "Cache",
                    vec![
                        NodeInput::ShortCircuit(Type::concrete("()")),
                        NodeInput::node(1, 0),
                    ],
                    "graphene_core::memo::MemoNode<_, _>",
                ),
            ),
            (
                3,
                inner_node(
                    "Draw Canvas",
                    vec![NodeInput::node(0, 0), NodeInput::node(2, 0)],
                    "graphene_std::wasm_application_io::DrawImageFrameNode<_>",
                ),
            ),
        ],
    };
    r.push(
        nt(
            "Draw Canvas",
            "Structural",
            NodeImplementation::DocumentNode(draw_canvas_network),
            vec![
                image_input("In", true),
                net_input("In", FrontendGraphDataType::General, "WasmEditorApi"),
            ],
            vec![DocumentOutputType::new("Canvas", FrontendGraphDataType::General)],
            false,
            NodePropertiesHook::NoProperties,
        ),
    );
    r
}

/// Scope bracketing, the output sink, and the embedded image node types.
fn catalog_scope() -> (r: Vec<DocumentNodeType>)
    ensures
        forall|i: int| 0 <= i < r@.len() ==> (#[trigger] r@[i]).wf(),
        r@.len() == 4,
        r@[0].name@ == "Begin Scope"@,
        r@[1].name@ == "End Scope"@,
        r@[2].name@ == "Output"@,
        r@[3].name@ == "Image Frame"@,
        r@[0].inputs@.len() == 1,
        r@[1].inputs@.len() == 2,
        r@[2].inputs@.len() == 1,
{
    let mut r: Vec<DocumentNodeType> = Vec::new();
    let begin_scope_network = NodeNetwork {
        inputs: vec![0],
        outputs: vec![NodeOutput::new(1, 0), NodeOutput::new(2, 0)],
        nodes: vec![
            (
                0,
                inner_node(
                    "SetNode",
                    vec![NodeInput::ShortCircuit(Type::concrete("WasmEditorApi"))],
                    "graphene_core::ops::SomeNode",
                ),
            ),
            (
                1,
                inner_node(
                    "LetNode",
                    vec![NodeInput::node(0, 0)],
                    "graphene_core::memo::LetNode<_>",
                ),
            ),
            (
                2,
                inner_node(
                    "RefNode",
                    vec![
                        NodeInput::ShortCircuit(Type::concrete("()")),
                        NodeInput::lambda(1, 0),
                    ],
                    "graphene_core::memo::RefNode<_, _>",
                ),
            ),
        ],
    };
    r.push(
        nt(
            "Begin Scope",
            "Ignore",
            NodeImplementation::DocumentNode(begin_scope_network),
            vec![net_input("In", FrontendGraphDataType::Raster, "WasmEditorApi")],
            vec![
                DocumentOutputType::new("Scope", FrontendGraphDataType::General),
                DocumentOutputType::new("Binding", FrontendGraphDataType::Raster),
            ],
            false,
            crate::registry::string_properties("Binds the input in a local scope as a variable"),
        ),
    );
    r.push(
        nt(
            "End Scope",
            "Ignore",
            NodeImplementation::proto("graphene_core::memo::EndLetNode<_>"),
            vec![
                DocumentInputType::new(
                    "Scope",
                    FrontendGraphDataType::General,
                    NodeInput::value(TaggedValue::Null, true),
                ),
                image_input("Data", true),
            ],
            vec![DocumentOutputType::new("Frame", FrontendGraphDataType::Raster)],
            false,
            crate::registry::string_properties("The graph's output is drawn in the layer"),
        ),
    );
    r.push(
        nt(
            "Output",
            "Ignore",
            NodeImplementation::proto("graphene_core::ops::IdNode"),
            vec![image_input("Output", true)],
            Vec::new(),
            false,
            NodePropertiesHook::Routine("output_properties"),
        ),
    );
    r.push(
        nt(
            "Image Frame",
            "General",
            NodeImplementation::proto("graphene_std::raster::ImageFrameNode<_, _>"),
            vec![
                DocumentInputType::value("Image", TaggedValue::Image(Image::empty()), true),
                DocumentInputType::value(
                    "Transform",
                    TaggedValue::DAffine2(Affine::identity()),
                    true,
                ),
            ],
            image_output(),
            false,
            crate::registry::string_properties("Creates an embedded image with the given transform"),
        ),
    );
    r
}

/// Masking, channel and blend adjustment node types.
fn catalog_adjust_a() -> (r: Vec<DocumentNodeType>)
    ensures
        forall|i: int| 0 <= i < r@.len() ==> (#[trigger] r@[i]).wf(),
        r@.len() == 6,
        r@[0].name@ == "Mask"@,
        r@[1].name@ == "Insert Channel"@,
        r@[2].name@ == "Combine Channels"@,
        r@[3].name@ == "Blend"@,
        r@[4].name@ == "Levels"@,
        r@[5].name@ == "Grayscale"@,
{
    let mut r: Vec<DocumentNodeType> = Vec::new();
    r.push(
        nt(
            "Mask",
            "Image Adjustments",
            NodeImplementation::proto("graphene_std::raster::MaskImageNode<_, _, _>"),
            vec![image_input("Image", true), image_input("Stencil", true)],
            image_output(),
            false,
            NodePropertiesHook::Routine("mask_properties"),
        ),
    );
    r.push(
        nt(
            "Insert Channel",
            "Image Adjustments",
            NodeImplementation::proto("graphene_std::raster::InsertChannelNode<_, _, _, _>"),
            vec![
                image_input("Image", true),
                image_input("Insertion", true),
                DocumentInputType::value(
                    "Replace",
                    TaggedValue::RedGreenBlue(RedGreenBlue::Red),
                    false,
                ),
            ],
            image_output(),
            false,
            NodePropertiesHook::Routine("insert_channel_properties"),
        ),
    );
    r.push(
        nt(
            "Combine Channels",
            "Image Adjustments",
            NodeImplementation::proto("graphene_std::raster::CombineChannelsNode"),
            vec![
                DocumentInputType::value("None", TaggedValue::Null, false),
                image_input("Red", true),
                image_input("Green", true),
                image_input("Blue", true),
                image_input("Alpha", true),
            ],
            image_output(),
            false,
            NodePropertiesHook::NoProperties,
        ),
    );
    r.push(
        nt(
            "Blend",
            "Image Adjustments",
            NodeImplementation::proto("graphene_core::raster::BlendNode<_, _, _, _>"),
            vec![
                image_input("Image", true),
                image_input("Second", true),
                DocumentInputType::value(
                    "BlendMode",
                    TaggedValue::BlendMode(BlendMode::Normal),
                    false,
                ),
                num_input("Opacity", 100_000_000, false),
            ],
            image_output(),
            false,
            NodePropertiesHook::Routine("blend_properties"),
        ),
    );
    r.push(
        nt(
            "Levels",
            "Image Adjustments",
            NodeImplementation::proto("graphene_core::raster::LevelsNode<_, _, _, _, _>"),
            vec![
                image_input("Image", true),
                num_input("Shadows", 0, false),
                num_input("Midtones", 50_000_000, false),
                num_input("Highlights", 100_000_000, false),
                num_input("Output Minimums", 0, false),
                num_input("Output Maximums", 100_000_000, false),
            ],
            image_output(),
            false,
            NodePropertiesHook::Routine("levels_properties"),
        ),
    );
    r.push(
        nt(
            "Grayscale",
            "Image Adjustments",
            NodeImplementation::proto(
                "graphene_core::raster::GrayscaleNode<_, _, _, _, _, _, _>",
            ),
            vec![
                image_input("Image", true),
                DocumentInputType::value("Tint", TaggedValue::Color(Color::black()), false),
                num_input("Reds", 40_000_000, false),
                num_input("Yellows", 60_000_000, false),
                num_input("Greens", 40_000_000, false),
                num_input("Cyans", 60_000_000, false),
                num_input("Blues", 20_000_000, false),
                num_input("Magentas", 80_000_000, false),
            ],
            image_output(),
            false,
            NodePropertiesHook::Routine("grayscale_properties"),
        ),
    );
    r
}

/// Channel selection and extraction node types.
fn catalog_adjust_b() -> (r: Vec<DocumentNodeType>)
    ensures
        forall|i: int| 0 <= i < r@.len() ==> (#[trigger] r@[i]).wf(),
        r@.len() == 7,
        r@[0].name@ == "Color Channel"@,
        r@[1].name@ == "Blend Mode"@,
        r@[2].name@ == "Luminance"@,
        r@[3].name@ == "Extract Channel"@,
        r@[4].name@ == "Extract Alpha"@,
        r@[5].name@ == "Extract Opaque"@,
        r@[6].name@ == "Split Channels"@,
{
    let mut r: Vec<DocumentNodeType> = Vec::new();
    r.push(
        nt(
            "Color Channel",
            "Image Adjustments",
            NodeImplementation::proto("graphene_core::ops::IdNode"),
            vec![
                DocumentInputType::value(
                    "Channel",
                    TaggedValue::RedGreenBlue(RedGreenBlue::Red),
                    false,
                ),
            ],
            vec![DocumentOutputType::new("Out", FrontendGraphDataType::General)],
            false,
            NodePropertiesHook::Routine("color_channel_properties"),
        ),
    );
    r.push(
        nt(
            "Blend Mode",
            "Image Adjustments",
            NodeImplementation::proto("graphene_core::ops::IdNode"),
            vec![
                DocumentInputType::value(
                    "Mode",
                    TaggedValue::BlendMode(BlendMode::Normal),
                    false,
                ),
            ],
            vec![DocumentOutputType::new("Out", FrontendGraphDataType::General)],
            false,
            NodePropertiesHook::Routine("blend_mode_properties"),
        ),
    );
    r.push(
        nt(
            "Luminance",
            "Image Adjustments",
            NodeImplementation::proto("graphene_core::raster::LuminanceNode<_>"),
            vec![
                image_input("Image", true),
                DocumentInputType::value(
                    "Luminance Calc",
                    TaggedValue::LuminanceCalculation(LuminanceCalculation::SRGB),
                    false,
                ),
            ],
            image_output(),
            false,
            NodePropertiesHook::Routine("luminance_properties"),
        ),
    );
    r.push(
        nt(
            "Extract Channel",
            "Image Adjustments",
            NodeImplementation::proto("graphene_core::raster::ExtractChannelNode<_>"),
            vec![
                image_input("Image", true),
                DocumentInputType::value(
                    "From",
                    TaggedValue::RedGreenBlue(RedGreenBlue::Red),
                    false,
                ),
            ],
            image_output(),
            false,
            NodePropertiesHook::Routine("extract_channel_properties"),
        ),
    );
    r.push(
        nt(
            "Extract Alpha",
            "Image Adjustments",
            NodeImplementation::proto("graphene_core::raster::ExtractAlphaNode<>"),
            vec![image_input("Image", true)],
            image_output(),
            false,
            NodePropertiesHook::NoProperties,
        ),
    );
    r.push(
        nt(
            "Extract Opaque",
            "Image Adjustments",
            NodeImplementation::proto("graphene_core::raster::ExtractOpaqueNode<>"),
            vec![image_input("Image", true)],
            image_output(),
            false,
            NodePropertiesHook::NoProperties,
        ),
    );
    let split_channels_network = NodeNetwork {
        inputs: vec![0],
        outputs: vec![
            NodeOutput::new(4, 0),
            NodeOutput::new(1, 0),
            NodeOutput::new(2, 0),
            NodeOutput::new(3, 0),
            NodeOutput::new(4, 0),
        ],
        nodes: vec![
            (
                0,
                inner_node(
                    "Identity",
                    vec![NodeInput::Network(Type::concrete("ImageFrame"))],
                    "graphene_core::ops::IdNode",
                ),
            ),
            (
                1,
                inner_node(
                    "RedNode",
                    vec![
                        NodeInput::node(0, 0),
                        NodeInput::value(TaggedValue::RedGreenBlue(RedGreenBlue::Red), false),
                    ],
                    "graphene_core::raster::ExtractChannelNode<_>",
                ),
            ),
            (
                2,
                inner_node(
                    "GreenNode",
                    vec![
                        NodeInput::node(0, 0),
                        NodeInput::value(TaggedValue::RedGreenBlue(RedGreenBlue::Green), false),
                    ],
                    "graphene_core::raster::ExtractChannelNode<_>",
                ),
            ),
            (
                3,
                inner_node(
                    "BlueNode",
                    vec![
                        NodeInput::node(0, 0),
                        NodeInput::value(TaggedValue::RedGreenBlue(RedGreenBlue::Blue), false),
                    ],
                    "graphene_core::raster::ExtractChannelNode<_>",
                ),
            ),
            (
                4,
                inner_node(
                    "AlphaNode",
                    vec![NodeInput::node(0, 0)],
                    "graphene_core::raster::ExtractAlphaNode<>",
                ),
            ),
            (
                5,
                inner_node(
                    "EmptyOutput",
                    vec![
                        NodeInput::value(
                            TaggedValue::ImageFrame(ImageFrame::empty()),
                            false,
                        ),
                    ],
                    "graphene_core::ops::IdNode",
                ),
            ),
        ],
    };
    r.push(
        nt(
            "Split Channels",
            "Image Adjustments",
            NodeImplementation::DocumentNode(split_channels_network),
            vec![image_input("Image", true)],
            vec![
                DocumentOutputType::new("Empty", FrontendGraphDataType::Raster),
                DocumentOutputType::new("Red", FrontendGraphDataType::Raster),
                DocumentOutputType::new("Green", FrontendGraphDataType::Raster),
                DocumentOutputType::new("Blue", FrontendGraphDataType::Raster),
                DocumentOutputType::new("Alpha", FrontendGraphDataType::Raster),
            ],
            false,
            NodePropertiesHook::NoProperties,
        ),
    );
    r
}

/// Brush, caching and metaprogramming node types.
fn catalog_misc() -> (r: Vec<DocumentNodeType>)
    ensures
        forall|i: int| 0 <= i < r@.len() ==> (#[trigger] r@[i]).wf(),
        r@.len() == 6,
        r@[0].name@ == "Brush"@,
        r@[1].name@ == "Extract Vector Points"@,
        r@[2].name@ == "Memoize"@,
        r@[3].name@ == "Image"@,
        r@[4].name@ == "Ref"@,
        r@[5].name@ == "Extract"@,
{
    let mut r: Vec<DocumentNodeType> = Vec::new();
    r.push(
        nt(
            "Brush",
            "Brush",
            NodeImplementation::proto("graphene_std::brush::BrushNode<_, _, _>"),
            vec![
                image_input("Background", true),
                image_input("Bounds", true),
                DocumentInputType::value(
                    "Trace",
                    TaggedValue::BrushStrokes(Vec::<BrushStroke>::new()),
                    false,
                ),
                DocumentInputType::value(
                    "Cache",
                    TaggedValue::BrushCache(BrushCache::new_proto()),
                    false,
                ),
            ],
            image_output(),
            false,
            NodePropertiesHook::NoProperties,
        ),
    );
    r.push(
        nt(
            "Extract Vector Points",
            "Brush",
            NodeImplementation::proto("graphene_std::brush::VectorPointsNode"),
            vec![vector_input("VectorData")],
            vec![DocumentOutputType::new("Vector Points", FrontendGraphDataType::General)],
            false,
            NodePropertiesHook::NoProperties,
        ),
    );
    r.push(
        nt(
            "Memoize",
            "Structural",
            NodeImplementation::proto("graphene_core::memo::MemoNode<_, _>"),
            vec![
                DocumentInputType::value("ShortCircut", TaggedValue::Null, false),
                image_input("Image", true),
            ],
            image_output(),
            false,
            NodePropertiesHook::NoProperties,
        ),
    );
    r.push(
        nt(
            "Image",
            "Ignore",
            NodeImplementation::proto("graphene_core::ops::IdNode"),
            vec![image_input("Image", false)],
            image_output(),
            false,
            crate::registry::string_properties("A bitmap image embedded in this node"),
        ),
    );
    r.push(
        nt(
            "Ref",
            "Structural",
            NodeImplementation::proto("graphene_core::memo::MemoNode<_, _>"),
            vec![image_input("Image", true)],
            image_output(),
            false,
            NodePropertiesHook::NoProperties,
        ),
    );
    r.push(
        nt(
            "Extract",
            "Macros",
            NodeImplementation::Extract,
            vec![
                DocumentInputType::new(
                    "Node",
                    FrontendGraphDataType::General,
                    NodeInput::value(
                        TaggedValue::DocumentNode(Box::new(default_document_node())),
                        true,
                    ),
                ),
            ],
            vec![DocumentOutputType::new("DocumentNode", FrontendGraphDataType::General)],
            false,
            NodePropertiesHook::NoProperties,
        ),
    );
    r
}

/// Colour-mapping adjustment node types.
fn catalog_adjust_c() -> (r: Vec<DocumentNodeType>)
    ensures
        forall|i: int| 0 <= i < r@.len() ==> (#[trigger] r@[i]).wf(),
        r@.len() == 5,
        r@[0].name@ == "Invert RGB"@,
        r@[1].name@ == "Hue/Saturation"@,
        r@[2].name@ == "Brightness/Contrast"@,
        r@[3].name@ == "Threshold"@,
        r@[4].name@ == "Vibrance"@,
{
    let mut r: Vec<DocumentNodeType> = Vec::new();
    r.push(
        nt(
            "Invert RGB",
            "Image Adjustments",
            NodeImplementation::proto("graphene_core::raster::InvertRGBNode"),
            vec![image_input("Image", true)],
            image_output(),
            false,
            NodePropertiesHook::NoProperties,
        ),
    );
    r.push(
        nt(
            "Hue/Saturation",
            "Image Adjustments",
            NodeImplementation::proto("graphene_core::raster::HueSaturationNode<_, _, _>"),
            vec![
                image_input("Image", true),
                num_input("Hue Shift", 0, false),
                num_input("Saturation Shift", 0, false),
                num_input("Lightness Shift", 0, false),
            ],
            image_output(),
            false,
            NodePropertiesHook::Routine("adjust_hsl_properties"),
        ),
    );
    r.push(
        nt(
            "Brightness/Contrast",
            "Image Adjustments",
            NodeImplementation::proto("graphene_core::raster::BrightnessContrastNode<_, _, _>"),
            vec![
                image_input("Image", true),
                num_input("Brightness", 0, false),
                num_input("Contrast", 0, false),
                DocumentInputType::value("Use Legacy", TaggedValue::Bool(false), false),
            ],
            image_output(),
            false,
            NodePropertiesHook::Routine("brightness_contrast_properties"),
        ),
    );
    r.push(
        nt(
            "Threshold",
            "Image Adjustments",
            NodeImplementation::proto("graphene_core::raster::ThresholdNode<_, _, _>"),
            vec![
                image_input("Image", true),
                num_input("Min Luminance", 50_000_000, false),
                num_input("Max Luminance", 100_000_000, false),
                DocumentInputType::value(
                    "Luminance Calc",
                    TaggedValue::LuminanceCalculation(LuminanceCalculation::SRGB),
                    false,
                ),
            ],
            image_output(),
            false,
            NodePropertiesHook::Routine("adjust_threshold_properties"),
        ),
    );
    r.push(
        nt(
            "Vibrance",
            "Image Adjustments",
            NodeImplementation::proto("graphene_core::raster::VibranceNode<_>"),
            vec![image_input("Image", true), num_input("Vibrance", 0, false)],
            image_output(),
            false,
            NodePropertiesHook::Routine("adjust_vibrance_properties"),
        ),
    );
    r
}

/// The channel mixer node type.
fn catalog_channel_mixer() -> (r: Vec<DocumentNodeType>)
    ensures
        forall|i: int| 0 <= i < r@.len() ==> (#[trigger] r@[i]).wf(),
        r@.len() == 1,
        r@[0].name@ == "Channel Mixer"@,
{
    let mut r: Vec<DocumentNodeType> = Vec::new();
    r.push(
        nt(
            "Channel Mixer",
            "Image Adjustments",
            NodeImplementation::proto(
                "graphene_core::raster::ChannelMixerNode<_, _, _, _, _, _, _, _, _, _, _, _, _, _, _, _, _>",
            ),
            vec![
                image_input("Image", true),
                DocumentInputType::value("Monochrome", TaggedValue::Bool(false), false),
                num_input("Red", 40_000_000, false),
                num_input("Green", 40_000_000, false),
                num_input("Blue", 20_000_000, false),
                num_input("Constant", 0, false),
                num_input("(Red) Red", 100_000_000, false),
                num_input("(Red) Green", 0, false),
                num_input("(Red) Blue", 0, false),
                num_input("(Red) Constant", 0, false),
                num_input("(Green) Red", 0, false),
                num_input("(Green) Green", 100_000_000, false),
                num_input("(Green) Blue", 0, false),
                num_input("(Green) Constant", 0, false),
                num_input("(Blue) Red", 0, false),
                num_input("(Blue) Green", 0, false),
                num_input("(Blue) Blue", 100_000_000, false),
                num_input("(Blue) Constant", 0, false),
                DocumentInputType::value(
                    "Output Channel",
                    TaggedValue::RedGreenBlue(RedGreenBlue::Red),
                    false,
                ),
            ],
            image_output(),
            false,
            NodePropertiesHook::Routine("adjust_channel_mixer_properties"),
        ),
    );
    r
}

/// The selective colour node type.
fn catalog_selective_color() -> (r: Vec<DocumentNodeType>)
    ensures
        forall|i: int| 0 <= i < r@.len() ==> (#[trigger] r@[i]).wf(),
        r@.len() == 1,
        r@[0].name@ == "Selective Color"@,
{
    let mut r: Vec<DocumentNodeType> = Vec::new();
    let mut inputs: Vec<DocumentInputType> = Vec::new();
    inputs.push(image_input("Image", true));
    inputs.push(
        DocumentInputType::value(
            "Mode",
            TaggedValue::RelativeAbsolute(RelativeAbsolute::Relative),
            false,
        ),
    );
    inputs.push(num_input("(Reds) Cyan", 0, false));
    inputs.push(num_input("(Reds) Magenta", 0, false));
    inputs.push(num_input("(Reds) Yellow", 0, false));
    inputs.push(num_input("(Reds) Black", 0, false));
    inputs.push(num_input("(Yellows) Cyan", 0, false));
    inputs.push(num_input("(Yellows) Magenta", 0, false));
    inputs.push(num_input("(Yellows) Yellow", 0, false));
    inputs.push(num_input("(Yellows) Black", 0, false));
    inputs.push(num_input("(Greens) Cyan", 0, false));
    inputs.push(num_input("(Greens) Magenta", 0, false));
    inputs.push(num_input("(Greens) Yellow", 0, false));
    inputs.push(num_input("(Greens) Black", 0, false));
    inputs.push(num_input("(Cyans) Cyan", 0, false));
    inputs.push(num_input("(Cyans) Magenta", 0, false));
    inputs.push(num_input("(Cyans) Yellow", 0, false));
    inputs.push(num_input("(Cyans) Black", 0, false));
    inputs.push(num_input("(Blues) Cyan", 0, false));
    inputs.push(num_input("(Blues) Magenta", 0, false));
    inputs.push(num_input("(Blues) Yellow", 0, false));
    inputs.push(num_input("(Blues) Black", 0, false));
    inputs.push(num_input("(Magentas) Cyan", 0, false));
    inputs.push(num_input("(Magentas) Magenta", 0, false));
    inputs.push(num_input("(Magentas) Yellow", 0, false));
    inputs.push(num_input("(Magentas) Black", 0, false));
    inputs.push(num_input("(Whites) Cyan", 0, false));
    inputs.push(num_input("(Whites) Magenta", 0, false));
    inputs.push(num_input("(Whites) Yellow", 0, false));
    inputs.push(num_input("(Whites) Black", 0, false));
    inputs.push(num_input("(Neutrals) Cyan", 0, false));
    inputs.push(num_input("(Neutrals) Magenta", 0, false));
    inputs.push(num_input("(Neutrals) Yellow", 0, false));
    inputs.push(num_input("(Neutrals) Black", 0, false));
    inputs.push(num_input("(Blacks) Cyan", 0, false));
    inputs.push(num_input("(Blacks) Magenta", 0, false));
    inputs.push(num_input("(Blacks) Yellow", 0, false));
    inputs.push(num_input("(Blacks) Black", 0, false));
    inputs.push(
        DocumentInputType::value(
            "Colors",
            TaggedValue::SelectiveColorChoice(SelectiveColorChoice::Reds),
            false,
        ),
    );
    r.push(
        nt(
            "Selective Color",
            "Image Adjustments",
            NodeImplementation::proto(
                "graphene_core::raster::SelectiveColorNode<_, _, _, _, _, _, _, _, _, _, _, _, _, _, _, _, _, _, _, _, _, _, _, _, _, _, _, _, _, _, _, _, _, _, _, _, _>",
            ),
            inputs,
            image_output(),
            false,
            NodePropertiesHook::Routine("adjust_selective_color_properties"),
        ),
    );
    r
}

/// Opacity, posterize and exposure node types.
fn catalog_adjust_d() -> (r: Vec<DocumentNodeType>)
    ensures
        forall|i: int| 0 <= i < r@.len() ==> (#[trigger] r@[i]).wf(),
        r@.len() == 3,
        r@[0].name@ == "Opacity"@,
        r@[1].name@ == "Posterize"@,
        r@[2].name@ == "Exposure"@,
{
    let mut r: Vec<DocumentNodeType> = Vec::new();
    r.push(
        nt(
            "Opacity",
            "Image Adjustments",
            NodeImplementation::proto("graphene_core::raster::OpacityNode<_>"),
            vec![image_input("Image", true), num_input("Factor", 100_000_000, false)],
            image_output(),
            false,
            NodePropertiesHook::Routine("multiply_opacity"),
        ),
    );
    r.push(
        nt(
            "Posterize",
            "Image Adjustments",
            NodeImplementation::proto("graphene_core::raster::PosterizeNode<_>"),
            vec![image_input("Image", true), num_input("Value", 4_000_000, false)],
            image_output(),
            false,
            NodePropertiesHook::Routine("posterize_properties"),
        ),
    );
    r.push(
        nt(
            "Exposure",
            "Image Adjustments",
            NodeImplementation::proto("graphene_core::raster::ExposureNode<_, _, _>"),
            vec![
                image_input("Image", true),
                num_input("Exposure", 0, false),
                num_input("Offset", 0, false),
                num_input("Gamma Correction", 1_000_000, false),
            ],
            image_output(),
            false,
            NodePropertiesHook::Routine("exposure_properties"),
        ),
    );
    r
}

/// Scalar arithmetic node types.
fn catalog_math() -> (r: Vec<DocumentNodeType>)
    ensures
        forall|i: int| 0 <= i < r@.len() ==> (#[trigger] r@[i]).wf(),
        r@.len() == 10,
        r@[0].name@ == "Add"@,
        r@[1].name@ == "Subtract"@,
        r@[2].name@ == "Divide"@,
        r@[3].name@ == "Multiply"@,
        r@[4].name@ == "Exponent"@,
        r@[5].name@ == "Max"@,
        r@[6].name@ == "Min"@,
        r@[7].name@ == "Equality"@,
        r@[8].name@ == "Modulo"@,
        r@[9].name@ == "Log to Console"@,
{
    let mut r: Vec<DocumentNodeType> = Vec::new();
    r.push(
        nt(
            "Add",
            "Math",
            NodeImplementation::proto("graphene_core::ops::AddParameterNode<_>"),
            vec![num_input("Primary", 0, true), num_input("Addend", 0, false)],
            number_output(),
            false,
            NodePropertiesHook::Routine("add_properties"),
        ),
    );
    r.push(
        nt(
            "Subtract",
            "Math",
            NodeImplementation::proto("graphene_core::ops::AddParameterNode<_>"),
            vec![num_input("Primary", 0, true), num_input("Subtrahend", 0, false)],
            number_output(),
            false,
            NodePropertiesHook::Routine("subtract_properties"),
        ),
    );
    r.push(
        nt(
            "Divide",
            "Math",
            NodeImplementation::proto("graphene_core::ops::DivideParameterNode<_>"),
            vec![num_input("Primary", 0, true), num_input("Divisor", 0, false)],
            number_output(),
            false,
            NodePropertiesHook::Routine("divide_properties"),
        ),
    );
    r.push(
        nt(
            "Multiply",
            "Math",
            NodeImplementation::proto("graphene_core::ops::MultiplyParameterNode<_>"),
            vec![num_input("Primary", 0, true), num_input("Multiplicand", 0, false)],
            number_output(),
            false,
            NodePropertiesHook::Routine("multiply_properties"),
        ),
    );
    r.push(
        nt(
            "Exponent",
            "Math",
            NodeImplementation::proto("graphene_core::ops::ExponentParameterNode<_>"),
            vec![num_input("Primary", 0, true), num_input("Power", 0, false)],
            number_output(),
            false,
            NodePropertiesHook::Routine("exponent_properties"),
        ),
    );
    r.push(
        nt(
            "Max",
            "Math",
            NodeImplementation::proto("graphene_core::ops::MaxParameterNode<_>"),
            vec![num_input("First", 0, true), num_input("Second", 0, true)],
            number_output(),
            false,
            NodePropertiesHook::Routine("max_properties"),
        ),
    );
    r.push(
        nt(
            "Min",
            "Math",
            NodeImplementation::proto("graphene_core::ops::MinParameterNode<_>"),
            vec![num_input("First", 0, true), num_input("Second", 0, true)],
            number_output(),
            false,
            NodePropertiesHook::Routine("min_properties"),
        ),
    );
    r.push(
        nt(
            "Equality",
            "Math",
            NodeImplementation::proto("graphene_core::ops::EqParameterNode<_>"),
            vec![num_input("First", 0, true), num_input("Second", 0, true)],
            number_output(),
            false,
            NodePropertiesHook::Routine("eq_properties"),
        ),
    );
    r.push(
        nt(
            "Modulo",
            "Math",
            NodeImplementation::proto("graphene_core::ops::ModuloParameterNode<_>"),
            vec![num_input("Primary", 0, true), num_input("Modulus", 0, false)],
            number_output(),
            false,
            NodePropertiesHook::Routine("modulo_properties"),
        ),
    );
    r.push(
        nt(
            "Log to Console",
            "Logic",
            NodeImplementation::proto("graphene_core::logic::LogToConsoleNode"),
            vec![
                DocumentInputType::value(
                    "First",
                    TaggedValue::String(String::from_str("Not Connected to a value yet")),
                    true,
                ),
            ],
            vec![DocumentOutputType::new("Output", FrontendGraphDataType::General)],
            false,
            NodePropertiesHook::Routine("no_properties"),
        ),
    );
    r
}

/// The image-synthesis node type, also available on its own.
pub fn imaginate_node_type() -> (r: DocumentNodeType)
    ensures
        r.wf(),
        r.name@ == "Imaginate"@,
{
    let imaginate_network = NodeNetwork {
        inputs: vec![0, 1, 1, 1, 1, 1, 1, 1, 1, 1, 1, 1, 1, 1, 1, 1, 1, 1],
        outputs: vec![NodeOutput::new(1, 0)],
        nodes: vec![
            (
                0,
                inner_node(
                    "Frame Monitor",
                    vec![NodeInput::Network(Type::concrete("ImageFrame"))],
                    "graphene_core::memo::MonitorNode<_>",
                ),
            ),
            (
                1,
                inner_node(
                    "Imaginate",
                    vec![
                        NodeInput::node(0, 0),
                        NodeInput::Network(Type::concrete("WasmEditorApi")),
                        NodeInput::Network(Type::concrete("ImaginateController")),
                        NodeInput::Network(Type::concrete("f64")),
                        NodeInput::Network(Type::concrete("Option<DVec2>")),
                        NodeInput::Network(Type::concrete("u32")),
                        NodeInput::Network(Type::concrete("ImaginateSamplingMethod")),
                        NodeInput::Network(Type::concrete("f32")),
                        NodeInput::Network(Type::concrete("String")),
                        NodeInput::Network(Type::concrete("String")),
                        NodeInput::Network(Type::concrete("bool")),
                        NodeInput::Network(Type::concrete("f32")),
                        NodeInput::Network(Type::concrete("Option<Vec<u64>>")),
                        NodeInput::Network(Type::concrete("bool")),
                        NodeInput::Network(Type::concrete("f32")),
                        NodeInput::Network(Type::concrete("ImaginateMaskStartingFill")),
                        NodeInput::Network(Type::concrete("bool")),
                        NodeInput::Network(Type::concrete("bool")),
                    ],
                    "graphene_std::raster::ImaginateNode<_, _, _, _, _, _, _, _, _, _, _, _, _, _, _, _, _, _>",
                ),
            ),
        ],
    };
    let mut inputs: Vec<DocumentInputType> = Vec::new();
    inputs.push(image_input("Input Image", true));
    inputs.push(net_input("Editor Api", FrontendGraphDataType::General, "WasmEditorApi"));
    inputs.push(
        DocumentInputType::value(
            "Controller",
            TaggedValue::ImaginateController(ImaginateController::new()),
            false,
        ),
    );
    inputs.push(
        DocumentInputType::value("Seed", TaggedValue::F64(Fixed::zero()), false),
    );
    inputs.push(
        DocumentInputType::value("Resolution", TaggedValue::OptionalDVec2(Option::None), false),
    );
    inputs.push(DocumentInputType::value("Samples", TaggedValue::U32(30), false));
    inputs.push(
        DocumentInputType::value(
            "Sampling Method",
            TaggedValue::ImaginateSamplingMethod(ImaginateSamplingMethod::EulerA),
            false,
        ),
    );
    inputs.push(num_input("Prompt Guidance", 7_500_000, false));
    inputs.push(DocumentInputType::value("Prompt", TaggedValue::String(String::new()), false));
    inputs.push(
        DocumentInputType::value("Negative Prompt", TaggedValue::String(String::new()), false),
    );
    inputs.push(DocumentInputType::value("Adapt Input Image", TaggedValue::Bool(false), false));
    inputs.push(num_input("Image Creativity", 66_000_000, false));
    inputs.push(
        DocumentInputType::value("Masking Layer", TaggedValue::LayerPath(Option::None), false),
    );
    inputs.push(DocumentInputType::value("Inpaint", TaggedValue::Bool(true), false));
    inputs.push(num_input("Mask Blur", 4_000_000, false));
    inputs.push(
        DocumentInputType::value(
            "Mask Starting Fill",
            TaggedValue::ImaginateMaskStartingFill(ImaginateMaskStartingFill::Fill),
            false,
        ),
    );
    inputs.push(DocumentInputType::value("Improve Faces", TaggedValue::Bool(false), false));
    inputs.push(DocumentInputType::value("Tiling", TaggedValue::Bool(false), false));
    nt(
        "Imaginate",
        "Image Synthesis",
        NodeImplementation::DocumentNode(imaginate_network),
        inputs,
        image_output(),
        false,
        NodePropertiesHook::Routine("imaginate_properties"),
    )
}

/// Vector generator and styling node types.
fn catalog_vector() -> (r: Vec<DocumentNodeType>)
    ensures
        forall|i: int| 0 <= i < r@.len() ==> (#[trigger] r@[i]).wf(),
        r@.len() == 7,
        r@[0].name@ == "Unit Circle Generator"@,
        r@[1].name@ == "Shape"@,
        r@[2].name@ == "Text"@,
        r@[3].name@ == "Transform"@,
        r@[4].name@ == "SetTransform"@,
        r@[5].name@ == "Fill"@,
        r@[6].name@ == "Stroke"@,
        r@[1].inputs@.len() == 2,
        r@[2].inputs@.len() == 4,
        r@[3].inputs@.len() == 6,
        r@[5].inputs@.len() == 8,
        r@[6].inputs@.len() == 8,
{
    let mut r: Vec<DocumentNodeType> = Vec::new();
    r.push(
        nt(
            "Unit Circle Generator",
            "Vector",
            NodeImplementation::proto("graphene_core::vector::generator_nodes::UnitCircleGenerator"),
            vec![DocumentInputType::none()],
            vector_output(),
            false,
            NodePropertiesHook::NoProperties,
        ),
    );
    r.push(
        nt(
            "Shape",
            "Vector",
            NodeImplementation::proto("graphene_core::vector::generator_nodes::PathGenerator<_>"),
            vec![
                DocumentInputType::value(
                    "Path Data",
                    TaggedValue::Subpaths(Vec::<Subpath>::new()),
                    false,
                ),
                DocumentInputType::value(
                    "Mirror",
                    TaggedValue::ManipulatorGroupIds(Vec::<u64>::new()),
                    false,
                ),
            ],
            vector_output(),
            false,
            NodePropertiesHook::NoProperties,
        ),
    );
    r.push(
        nt(
            "Text",
            "Vector",
            NodeImplementation::proto("graphene_core::text::TextGenerator<_, _, _>"),
            vec![
                DocumentInputType::none(),
                DocumentInputType::value(
                    "Text",
                    TaggedValue::String(String::from_str("hello world")),
                    false,
                ),
                DocumentInputType::value(
                    "Font",
                    TaggedValue::Font(
                        Font::new(
                            String::from_str(DEFAULT_FONT_FAMILY),
                            String::from_str(DEFAULT_FONT_STYLE),
                        ),
                    ),
                    false,
                ),
                DocumentInputType::value(
                    "Size",
                    TaggedValue::F64(Fixed::from_micros(24_000_000)),
                    false,
                ),
            ],
            vector_output(),
            false,
            NodePropertiesHook::Routine("node_section_font"),
        ),
    );
    r.push(
        nt(
            "Transform",
            "Transform",
            NodeImplementation::proto("graphene_core::transform::TransformNode<_, _, _, _, _>"),
            vec![
                vector_input("Data"),
                DocumentInputType::value("Translation", TaggedValue::DVec2(Vec2F::zero()), false),
                num_input("Rotation", 0, false),
                DocumentInputType::value("Scale", TaggedValue::DVec2(Vec2F::one()), false),
                DocumentInputType::value("Skew", TaggedValue::DVec2(Vec2F::zero()), false),
                DocumentInputType::value(
                    "Pivot",
                    TaggedValue::DVec2(
                        Vec2F::new(Fixed::from_micros(500_000), Fixed::from_micros(500_000)),
                    ),
                    false,
                ),
            ],
            vec![DocumentOutputType::new("Data", FrontendGraphDataType::Subpath)],
            false,
            NodePropertiesHook::Routine("transform_properties"),
        ),
    );
    r.push(
        nt(
            "SetTransform",
            "Transform",
            NodeImplementation::proto("graphene_core::transform::SetTransformNode<_>"),
            vec![
                vector_input("Data"),
                DocumentInputType::value(
                    "Transform",
                    TaggedValue::DAffine2(Affine::identity()),
                    true,
                ),
            ],
            vec![DocumentOutputType::new("Data", FrontendGraphDataType::Subpath)],
            false,
            NodePropertiesHook::NoProperties,
        ),
    );
    r.push(
        nt(
            "Fill",
            "Vector",
            NodeImplementation::proto("graphene_core::vector::SetFillNode<_, _, _, _, _, _, _>"),
            vec![
                vector_input("Vector Data"),
                DocumentInputType::value("Fill Type", TaggedValue::FillType(FillType::NoFill), false),
                DocumentInputType::value(
                    "Solid Color",
                    TaggedValue::OptionalColor(Option::None),
                    false,
                ),
                DocumentInputType::value(
                    "Gradient Type",
                    TaggedValue::GradientType(GradientType::Linear),
                    false,
                ),
                DocumentInputType::value(
                    "Start",
                    TaggedValue::DVec2(Vec2F::new(Fixed::zero(), Fixed::from_micros(500_000))),
                    false,
                ),
                DocumentInputType::value(
                    "End",
                    TaggedValue::DVec2(Vec2F::new(Fixed::one(), Fixed::from_micros(500_000))),
                    false,
                ),
                DocumentInputType::value(
                    "Transform",
                    TaggedValue::DAffine2(Affine::identity()),
                    false,
                ),
                DocumentInputType::value(
                    "Positions",
                    TaggedValue::GradientPositions(
                        vec![
                            GradientStop {
                                position: Fixed::zero(),
                                color: Option::Some(Color::black()),
                            },
                            GradientStop {
                                position: Fixed::one(),
                                color: Option::Some(Color::white()),
                            },
                        ],
                    ),
                    false,
                ),
            ],
            vector_output(),
            false,
            NodePropertiesHook::Routine("fill_properties"),
        ),
    );
    r.push(
        nt(
            "Stroke",
            "Vector",
            NodeImplementation::proto("graphene_core::vector::SetStrokeNode<_, _, _, _, _, _, _>"),
            vec![
                vector_input("Vector Data"),
                DocumentInputType::value(
                    "Color",
                    TaggedValue::OptionalColor(Option::Some(Color::black())),
                    false,
                ),
                num_input("Weight", 0, false),
                DocumentInputType::value(
                    "Dash Lengths",
                    TaggedValue::VecF32(Vec::<Fixed>::new()),
                    false,
                ),
                num_input("Dash Offset", 0, false),
                DocumentInputType::value("Line Cap", TaggedValue::LineCap(LineCap::Butt), false),
                DocumentInputType::value(
                    "Line Join",
                    TaggedValue::LineJoin(LineJoin::Miter),
                    false,
                ),
                num_input("Miter Limit", 4_000_000, false),
            ],
            vector_output(),
            false,
            NodePropertiesHook::Routine("stroke_properties"),
        ),
    );
    r
}

/// Vector replication and segmentation node types.
fn catalog_vector_ops() -> (r: Vec<DocumentNodeType>)
    ensures
        forall|i: int| 0 <= i < r@.len() ==> (#[trigger] r@[i]).wf(),
        r@.len() == 5,
        r@[0].name@ == "Repeat"@,
        r@[1].name@ == "Bounding Box"@,
        r@[2].name@ == "Circular Repeat"@,
        r@[3].name@ == "Image Segmentation"@,
        r@[4].name@ == "Index"@,
{
    let mut r: Vec<DocumentNodeType> = Vec::new();
    r.push(
        nt(
            "Repeat",
            "Vector",
            NodeImplementation::proto("graphene_core::vector::RepeatNode<_, _>"),
            vec![
                vector_input("Vector Data"),
                DocumentInputType::value(
                    "Direction",
                    TaggedValue::DVec2(Vec2F::new(Fixed::from_int(100), Fixed::zero())),
                    false,
                ),
                DocumentInputType::value("Count", TaggedValue::U32(10), false),
            ],
            vector_output(),
            false,
            NodePropertiesHook::Routine("repeat_properties"),
        ),
    );
    r.push(
        nt(
            "Bounding Box",
            "Vector",
            NodeImplementation::proto("graphene_core::vector::BoundingBoxNode"),
            vec![vector_input("Vector Data")],
            vector_output(),
            false,
            NodePropertiesHook::Routine("no_properties"),
        ),
    );
    r.push(
        nt(
            "Circular Repeat",
            "Vector",
            NodeImplementation::proto("graphene_core::vector::CircularRepeatNode<_, _, _>"),
            vec![
                vector_input("Vector Data"),
                num_input("Rotation Offset", 0, false),
                num_input("Radius", 5_000_000, false),
                DocumentInputType::value("Count", TaggedValue::U32(10), false),
            ],
            vector_output(),
            false,
            NodePropertiesHook::Routine("circle_repeat_properties"),
        ),
    );
    r.push(
        nt(
            "Image Segmentation",
            "Image Adjustments",
            NodeImplementation::proto("graphene_std::image_segmentation::ImageSegmentationNode<_>"),
            vec![image_input("Image", true), image_input("Mask", true)],
            vec![DocumentOutputType::new("Segments", FrontendGraphDataType::Raster)],
            false,
            NodePropertiesHook::NoProperties,
        ),
    );
    r.push(
        nt(
            "Index",
            "Image Adjustments",
            NodeImplementation::proto("graphene_core::raster::IndexNode<_>"),
            vec![
                DocumentInputType::value(
                    "Segmentation",
                    TaggedValue::Segments(vec![ImageFrame::empty()]),
                    true,
                ),
                DocumentInputType::value("Index", TaggedValue::U32(0), false),
            ],
            image_output(),
            false,
            NodePropertiesHook::Routine("index_node_properties"),
        ),
    );
    r
}

/// The whole catalog, in presentation order.
#[verifier::rlimit(100)]
pub fn static_nodes() -> (r: Vec<DocumentNodeType>)
    ensures
        forall|i: int| 0 <= i < r@.len() ==> (#[trigger] r@[i]).wf(),
        r@.len() == 68,
        r@[0].name@ == "Boolean"@,
        r@[1].name@ == "Value"@,
        value_descriptor_shape(r@[1]),
        r@[2].name@ == "Color"@,
        r@[3].name@ == "Identity"@,
        r@[4].name@ == "Monitor"@,
        r@[5].name@ == "Layer"@,
        r@[6].name@ == "Artboard"@,
        r@[7].name@ == "Downres"@,
        r@[8].name@ == "Input Frame"@,
        r@[9].name@ == "Load Image"@,
        r@[10].name@ == "Create Canvas"@,
        r@[11].name@ == "Draw Canvas"@,
        r@[12].name@ == "Begin Scope"@,
        r@[13].name@ == "End Scope"@,
        r@[14].name@ == "Output"@,
        r@[15].name@ == "Image Frame"@,
        r@[16].name@ == "Mask"@,
        r@[17].name@ == "Insert Channel"@,
        r@[18].name@ == "Combine Channels"@,
        r@[19].name@ == "Blend"@,
        r@[20].name@ == "Levels"@,
        r@[21].name@ == "Grayscale"@,
        r@[22].name@ == "Color Channel"@,
        r@[23].name@ == "Blend Mode"@,
        r@[24].name@ == "Luminance"@,
        r@[25].name@ == "Extract Channel"@,
        r@[26].name@ == "Extract Alpha"@,
        r@[27].name@ == "Extract Opaque"@,
        r@[28].name@ == "Split Channels"@,
        r@[29].name@ == "Brush"@,
        r@[30].name@ == "Extract Vector Points"@,
        r@[31].name@ == "Memoize"@,
        r@[32].name@ == "Image"@,
        r@[33].name@ == "Ref"@,
        r@[34].name@ == "Extract"@,
        r@[35].name@ == "Invert RGB"@,
        r@[36].name@ == "Hue/Saturation"@,
        r@[37].name@ == "Brightness/Contrast"@,
        r@[38].name@ == "Threshold"@,
        r@[39].name@ == "Vibrance"@,
        r@[40].name@ == "Channel Mixer"@,
        r@[41].name@ == "Selective Color"@,
        r@[42].name@ == "Opacity"@,
        r@[43].name@ == "Posterize"@,
        r@[44].name@ == "Exposure"@,
        r@[45].name@ == "Add"@,
        r@[46].name@ == "Subtract"@,
        r@[47].name@ == "Divide"@,
        r@[48].name@ == "Multiply"@,
        r@[49].name@ == "Exponent"@,
        r@[50].name@ == "Max"@,
        r@[51].name@ == "Min"@,
        r@[52].name@ == "Equality"@,
        r@[53].name@ == "Modulo"@,
        r@[54].name@ == "Log to Console"@,
        r@[55].name@ == "Imaginate"@,
        r@[56].name@ == "Unit Circle Generator"@,
        r@[57].name@ == "Shape"@,
        r@[58].name@ == "Text"@,
        r@[59].name@ == "Transform"@,
        r@[60].name@ == "SetTransform"@,
        r@[61].name@ == "Fill"@,
        r@[62].name@ == "Stroke"@,
        r@[63].name@ == "Repeat"@,
        r@[64].name@ == "Bounding Box"@,
        r@[65].name@ == "Circular Repeat"@,
        r@[66].name@ == "Image Segmentation"@,
        r@[67].name@ == "Index"@,
        r@[12].inputs@.len() == 1,
        r@[13].inputs@.len() == 2,
        r@[14].inputs@.len() == 1,
        r@[57].inputs@.len() == 2,
        r@[58].inputs@.len() == 4,
        r@[59].inputs@.len() == 6,
        r@[61].inputs@.len() == 8,
        r@[62].inputs@.len() == 8,
{
    let mut r = catalog_inputs();
    let mut part = catalog_layer();
    r.append(&mut part);
    let mut part = catalog_io();
    r.append(&mut part);
    let mut part = catalog_scope();
    r.append(&mut part);
    let mut part = catalog_adjust_a();
    r.append(&mut part);
    let mut part = catalog_adjust_b();
    r.append(&mut part);
    let mut part = catalog_misc();
    r.append(&mut part);
    let mut part = catalog_adjust_c();
    r.append(&mut part);
    let mut part = catalog_channel_mixer();
    r.append(&mut part);
    let mut part = catalog_selective_color();
    r.append(&mut part);
    let mut part = catalog_adjust_d();
    r.append(&mut part);
    let mut part = catalog_math();
    r.append(&mut part);
    r.push(imaginate_node_type());
    let mut part = catalog_vector();
    r.append(&mut part);
    let mut part = catalog_vector_ops();
    r.append(&mut part);
    r
}

impl NodeTypeRegistry {
    /// Builds the catalog. Do this once at startup and pass the registry by
    /// reference thereafter; it is never mutated. The node types that the
    /// network builders and the scope wrapper look up by name are all
    /// present, with the declared input counts those callers hand over.
    #[verifier::rlimit(100)]
    pub fn new() -> (r: NodeTypeRegistry)
        ensures
            r.wf(),
            resolve_spec(r.types@, "Input Frame"@) is Some,
            (resolve_spec(r.types@, "Value"@) matches Option::Some(d)
                && value_descriptor_shape(d)),
            crate::compiler::resolves_with_inputs(r, "Begin Scope"@, 1),
            crate::compiler::resolves_with_inputs(r, "End Scope"@, 2),
            crate::compiler::resolves_with_inputs(r, "Output"@, 1),
            crate::compiler::resolves_with_inputs(r, "Shape"@, 2),
            crate::compiler::resolves_with_inputs(r, "Text"@, 4),
            crate::compiler::resolves_with_inputs(r, "Transform"@, 6),
            crate::compiler::resolves_with_inputs(r, "Fill"@, 8),
            crate::compiler::resolves_with_inputs(r, "Stroke"@, 8),
    {
        let types = static_nodes();
        let r = NodeTypeRegistry { types };
        proof {
            let t = r.types@;
            reveal_strlit("Add");
            reveal_strlit("Artboard");
            reveal_strlit("Begin Scope");
            reveal_strlit("Blend");
            reveal_strlit("Blend Mode");
            reveal_strlit("Boolean");
            reveal_strlit("Bounding Box");
            reveal_strlit("Brightness/Contrast");
            reveal_strlit("Brush");
            reveal_strlit("Channel Mixer");
            reveal_strlit("Circular Repeat");
            reveal_strlit("Color");
            reveal_strlit("Color Channel");
            reveal_strlit("Combine Channels");
            reveal_strlit("Create Canvas");
            reveal_strlit("Divide");
            reveal_strlit("Downres");
            reveal_strlit("Draw Canvas");
            reveal_strlit("End Scope");
            reveal_strlit("Equality");
            reveal_strlit("Exponent");
            reveal_strlit("Exposure");
            reveal_strlit("Extract");
            reveal_strlit("Extract Alpha");
            reveal_strlit("Extract Channel");
            reveal_strlit("Extract Opaque");
            reveal_strlit("Extract Vector Points");
            reveal_strlit("Fill");
            reveal_strlit("Grayscale");
            reveal_strlit("Hue/Saturation");
            reveal_strlit("Identity");
            reveal_strlit("Image");
            reveal_strlit("Image Frame");
            reveal_strlit("Image Segmentation");
            reveal_strlit("Imaginate");
            reveal_strlit("Index");
            reveal_strlit("Input Frame");
            reveal_strlit("Insert Channel");
            reveal_strlit("Invert RGB");
            reveal_strlit("Layer");
            reveal_strlit("Levels");
            reveal_strlit("Load Image");
            reveal_strlit("Log to Console");
            reveal_strlit("Luminance");
            reveal_strlit("Mask");
            reveal_strlit("Max");
            reveal_strlit("Memoize");
            reveal_strlit("Min");
            reveal_strlit("Modulo");
            reveal_strlit("Monitor");
            reveal_strlit("Multiply");
            reveal_strlit("Opacity");
            reveal_strlit("Output");
            reveal_strlit("Posterize");
            reveal_strlit("Ref");
            reveal_strlit("Repeat");
            reveal_strlit("Selective Color");
            reveal_strlit("SetTransform");
            reveal_strlit("Shape");
            reveal_strlit("Split Channels");
            reveal_strlit("Stroke");
            reveal_strlit("Subtract");
            reveal_strlit("Text");
            reveal_strlit("Threshold");
            reveal_strlit("Transform");
            reveal_strlit("Unit Circle Generator");
            reveal_strlit("Value");
            reveal_strlit("Vibrance");
            assert("Add"@.len() == 3);
            assert("Artboard"@.len() == 8);
            assert("Begin Scope"@.len() == 11);
            assert("Blend"@.len() == 5);
            assert("Blend Mode"@.len() == 10);
            assert("Boolean"@.len() == 7);
            assert("Bounding Box"@.len() == 12);
            assert("Brightness/Contrast"@.len() == 19);
            assert("Brush"@.len() == 5);
            assert("Channel Mixer"@.len() == 13);
            assert("Circular Repeat"@.len() == 15);
            assert("Color"@.len() == 5);
            assert("Color Channel"@.len() == 13);
            assert("Combine Channels"@.len() == 16);
            assert("Create Canvas"@.len() == 13);
            assert("Divide"@.len() == 6);
            assert("Downres"@.len() == 7);
            assert("Draw Canvas"@.len() == 11);
            assert("End Scope"@.len() == 9);
            assert("Equality"@.len() == 8);
            assert("Exponent"@.len() == 8);
            assert("Exposure"@.len() == 8);
            assert("Extract"@.len() == 7);
            assert("Extract Alpha"@.len() == 13);
            assert("Extract Channel"@.len() == 15);
            assert("Extract Opaque"@.len() == 14);
            assert("Extract Vector Points"@.len() == 21);
            assert("Fill"@.len() == 4);
            assert("Grayscale"@.len() == 9);
            assert("Hue/Saturation"@.len() == 14);
            assert("Identity"@.len() == 8);
            assert("Image"@.len() == 5);
            assert("Image Frame"@.len() == 11);
            assert("Image Segmentation"@.len() == 18);
            assert("Imaginate"@.len() == 9);
            assert("Index"@.len() == 5);
            assert("Input Frame"@.len() == 11);
            assert("Insert Channel"@.len() == 14);
            assert("Invert RGB"@.len() == 10);
            assert("Layer"@.len() == 5);
            assert("Levels"@.len() == 6);
            assert("Load Image"@.len() == 10);
            assert("Log to Console"@.len() == 14);
            assert("Luminance"@.len() == 9);
            assert("Mask"@.len() == 4);
            assert("Max"@.len() == 3);
            assert("Memoize"@.len() == 7);
            assert("Min"@.len() == 3);
            assert("Modulo"@.len() == 6);
            assert("Monitor"@.len() == 7);
            assert("Multiply"@.len() == 8);
            assert("Opacity"@.len() == 7);
            assert("Output"@.len() == 6);
            assert("Posterize"@.len() == 9);
            assert("Ref"@.len() == 3);
            assert("Repeat"@.len() == 6);
            assert("Selective Color"@.len() == 15);
            assert("SetTransform"@.len() == 12);
            assert("Shape"@.len() == 5);
            assert("Split Channels"@.len() == 14);
            assert("Stroke"@.len() == 6);
            assert("Subtract"@.len() == 8);
            assert("Text"@.len() == 4);
            assert("Threshold"@.len() == 9);
            assert("Transform"@.len() == 9);
            assert("Unit Circle Generator"@.len() == 21);
            assert("Value"@.len() == 5);
            assert("Vibrance"@.len() == 8);
            assert("Begin Scope"@[0] == 'B');
            assert("Blend"@[0] == 'B');
            assert("Brush"@[0] == 'B');
            assert("Color"@[0] == 'C');
            assert("Divide"@[0] == 'D');
            assert("Draw Canvas"@[0] == 'D');
            assert("End Scope"@[0] == 'E');
            assert("Fill"@[0] == 'F');
            assert("Grayscale"@[0] == 'G');
            assert("Image"@[0] == 'I');
            assert("Imaginate"@[0] == 'I');
            assert("Input Frame"@[0] == 'I');
            assert("Layer"@[0] == 'L');
            assert("Levels"@[0] == 'L');
            assert("Luminance"@[0] == 'L');
            assert("Mask"@[0] == 'M');
            assert("Modulo"@[0] == 'M');
            assert("Output"@[0] == 'O');
            assert("Posterize"@[0] == 'P');
            assert("Shape"@[0] == 'S');
            assert("Stroke"@[0] == 'S');
            assert("Text"@[0] == 'T');
            assert("Threshold"@[1] == 'h');
            assert("Transform"@[0] == 'T');
            assert("Transform"@[1] == 'r');
            assert("Value"@[0] == 'V');
            assert forall|i: int| 0 <= i < 1 implies (#[trigger] t[i]).name@ != "Value"@ by {
                assert(i == 0);
            }
            crate::registry::lemma_resolve_skip(t, "Value"@, 1);
            assert(t.skip(1).len() > 0);
            assert(t.skip(1)[0] == t[1]);
            assert(resolve_spec(t, "Value"@) == Option::Some(t[1]));
            assert forall|i: int| 0 <= i < 8 implies (#[trigger] t[i]).name@ != "Input Frame"@ by {
                assert(i == 0 || i == 1 || i == 2 || i == 3 || i == 4 || i == 5 || i == 6 || i == 7);
            }
            crate::registry::lemma_resolve_skip(t, "Input Frame"@, 8);
            assert(t.skip(8).len() > 0);
            assert(t.skip(8)[0] == t[8]);
            assert(resolve_spec(t, "Input Frame"@) == Option::Some(t[8]));
            assert forall|i: int| 0 <= i < 12 implies (#[trigger] t[i]).name@ != "Begin Scope"@ by {
                assert(i == 0 || i == 1 || i == 2 || i == 3 || i == 4 || i == 5 || i == 6 || i == 7 || i == 8 || i == 9 || i == 10 || i == 11);
            }
            crate::registry::lemma_resolve_skip(t, "Begin Scope"@, 12);
            assert(t.skip(12).len() > 0);
            assert(t.skip(12)[0] == t[12]);
            assert(resolve_spec(t, "Begin Scope"@) == Option::Some(t[12]));
            assert forall|i: int| 0 <= i < 13 implies (#[trigger] t[i]).name@ != "End Scope"@ by {
                assert(i == 0 || i == 1 || i == 2 || i == 3 || i == 4 || i == 5 || i == 6 || i == 7 || i == 8 || i == 9 || i == 10 || i == 11 || i == 12);
            }
            crate::registry::lemma_resolve_skip(t, "End Scope"@, 13);
            assert(t.skip(13).len() > 0);
            assert(t.skip(13)[0] == t[13]);
            assert(resolve_spec(t, "End Scope"@) == Option::Some(t[13]));
            assert forall|i: int| 0 <= i < 14 implies (#[trigger] t[i]).name@ != "Output"@ by {
                assert(i == 0 || i == 1 || i == 2 || i == 3 || i == 4 || i == 5 || i == 6 || i == 7 || i == 8 || i == 9 || i == 10 || i == 11 || i == 12 || i == 13);
            }
            crate::registry::lemma_resolve_skip(t, "Output"@, 14);
            assert(t.skip(14).len() > 0);
            assert(t.skip(14)[0] == t[14]);
            assert(resolve_spec(t, "Output"@) == Option::Some(t[14]));
            assert forall|i: int| 0 <= i < 57 implies (#[trigger] t[i]).name@ != "Shape"@ by {
                assert(i == 0 || i == 1 || i == 2 || i == 3 || i == 4 || i == 5 || i == 6 || i == 7 || i == 8 || i == 9 || i == 10 || i == 11 || i == 12 || i == 13 || i == 14 || i == 15 || i == 16 || i == 17 || i == 18 || i == 19 || i == 20 || i == 21 || i == 22 || i == 23 || i == 24 || i == 25 || i == 26 || i == 27 || i == 28 || i == 29 || i == 30 || i == 31 || i == 32 || i == 33 || i == 34 || i == 35 || i == 36 || i == 37 || i == 38 || i == 39 || i == 40 || i == 41 || i == 42 || i == 43 || i == 44 || i == 45 || i == 46 || i == 47 || i == 48 || i == 49 || i == 50 || i == 51 || i == 52 || i == 53 || i == 54 || i == 55 || i == 56);
            }
            crate::registry::lemma_resolve_skip(t, "Shape"@, 57);
            assert(t.skip(57).len() > 0);
            assert(t.skip(57)[0] == t[57]);
            assert(resolve_spec(t, "Shape"@) == Option::Some(t[57]));
            assert forall|i: int| 0 <= i < 58 implies (#[trigger] t[i]).name@ != "Text"@ by {
                assert(i == 0 || i == 1 || i == 2 || i == 3 || i == 4 || i == 5 || i == 6 || i == 7 || i == 8 || i == 9 || i == 10 || i == 11 || i == 12 || i == 13 || i == 14 || i == 15 || i == 16 || i == 17 || i == 18 || i == 19 || i == 20 || i == 21 || i == 22 || i == 23 || i == 24 || i == 25 || i == 26 || i == 27 || i == 28 || i == 29 || i == 30 || i == 31 || i == 32 || i == 33 || i == 34 || i == 35 || i == 36 || i == 37 || i == 38 || i == 39 || i == 40 || i == 41 || i == 42 || i == 43 || i == 44 || i == 45 || i == 46 || i == 47 || i == 48 || i == 49 || i == 50 || i == 51 || i == 52 || i == 53 || i == 54 || i == 55 || i == 56 || i == 57);
            }
            crate::registry::lemma_resolve_skip(t, "Text"@, 58);
            assert(t.skip(58).len() > 0);
            assert(t.skip(58)[0] == t[58]);
            assert(resolve_spec(t, "Text"@) == Option::Some(t[58]));
            assert forall|i: int| 0 <= i < 59 implies (#[trigger] t[i]).name@ != "Transform"@ by {
                assert(i == 0 || i == 1 || i == 2 || i == 3 || i == 4 || i == 5 || i == 6 || i == 7 || i == 8 || i == 9 || i == 10 || i == 11 || i == 12 || i == 13 || i == 14 || i == 15 || i == 16 || i == 17 || i == 18 || i == 19 || i == 20 || i == 21 || i == 22 || i == 23 || i == 24 || i == 25 || i == 26 || i == 27 || i == 28 || i == 29 || i == 30 || i == 31 || i == 32 || i == 33 || i == 34 || i == 35 || i == 36 || i == 37 || i == 38 || i == 39 || i == 40 || i == 41 || i == 42 || i == 43 || i == 44 || i == 45 || i == 46 || i == 47 || i == 48 || i == 49 || i == 50 || i == 51 || i == 52 || i == 53 || i == 54 || i == 55 || i == 56 || i == 57 || i == 58);
            }
            crate::registry::lemma_resolve_skip(t, "Transform"@, 59);
            assert(t.skip(59).len() > 0);
            assert(t.skip(59)[0] == t[59]);
            assert(resolve_spec(t, "Transform"@) == Option::Some(t[59]));
            assert forall|i: int| 0 <= i < 61 implies (#[trigger] t[i]).name@ != "Fill"@ by {
                assert(i == 0 || i == 1 || i == 2 || i == 3 || i == 4 || i == 5 || i == 6 || i == 7 || i == 8 || i == 9 || i == 10 || i == 11 || i == 12 || i == 13 || i == 14 || i == 15 || i == 16 || i == 17 || i == 18 || i == 19 || i == 20 || i == 21 || i == 22 || i == 23 || i == 24 || i == 25 || i == 26 || i == 27 || i == 28 || i == 29 || i == 30 || i == 31 || i == 32 || i == 33 || i == 34 || i == 35 || i == 36 || i == 37 || i == 38 || i == 39 || i == 40 || i == 41 || i == 42 || i == 43 || i == 44 || i == 45 || i == 46 || i == 47 || i == 48 || i == 49 || i == 50 || i == 51 || i == 52 || i == 53 || i == 54 || i == 55 || i == 56 || i == 57 || i == 58 || i == 59 || i == 60);
            }
            crate::registry::lemma_resolve_skip(t, "Fill"@, 61);
            assert(t.skip(61).len() > 0);
            assert(t.skip(61)[0] == t[61]);
            assert(resolve_spec(t, "Fill"@) == Option::Some(t[61]));
            assert forall|i: int| 0 <= i < 62 implies (#[trigger] t[i]).name@ != "Stroke"@ by {
                assert(i == 0 || i == 1 || i == 2 || i == 3 || i == 4 || i == 5 || i == 6 || i == 7 || i == 8 || i == 9 || i == 10 || i == 11 || i == 12 || i == 13 || i == 14 || i == 15 || i == 16 || i == 17 || i == 18 || i == 19 || i == 20 || i == 21 || i == 22 || i == 23 || i == 24 || i == 25 || i == 26 || i == 27 || i == 28 || i == 29 || i == 30 || i == 31 || i == 32 || i == 33 || i == 34 || i == 35 || i == 36 || i == 37 || i == 38 || i == 39 || i == 40 || i == 41 || i == 42 || i == 43 || i == 44 || i == 45 || i == 46 || i == 47 || i == 48 || i == 49 || i == 50 || i == 51 || i == 52 || i == 53 || i == 54 || i == 55 || i == 56 || i == 57 || i == 58 || i == 59 || i == 60 || i == 61);
            }
            crate::registry::lemma_resolve_skip(t, "Stroke"@, 62);
            assert(t.skip(62).len() > 0);
            assert(t.skip(62)[0] == t[62]);
            assert(resolve_spec(t, "Stroke"@) == Option::Some(t[62]));
        }
        r
    }
}

} // verus!
