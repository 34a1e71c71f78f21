use node_graph::adjustments::{index_node, BlendMode, LuminanceCalculation};
use node_graph::fixed::Fixed;
use node_graph::geom::{Affine, IVec2, Vec2F};
use node_graph::render::{
    bounding_box, format_transform_matrix, render_svg, RenderParams, SvgAttr, SvgRender,
    SvgSegment, ViewMode,
};
use node_graph::scene::{Artboard, GraphicElement, GraphicElementData, GraphicGroup};
use node_graph::text::{fixed_to_string, i64_to_string, str_eq, u64_to_string};
use node_graph::value::{Color, Image, ImageFrame, PathStyle, Subpath, VectorData};

fn params() -> RenderParams {
    RenderParams::new(ViewMode::Normal, None, false)
}

fn element(data: GraphicElementData) -> GraphicElement {
    GraphicElement {
        name: String::new(),
        blend_mode: BlendMode::Normal,
        opacity: Fixed::one(),
        visible: true,
        locked: false,
        collapsed: false,
        graphic_element_data: data,
    }
}

fn frame_with_transform(t: Affine) -> ImageFrame {
    ImageFrame { image: Image::empty(), transform: t }
}

fn translation(x: i32, y: i32) -> Affine {
    Affine::from_translation(Vec2F::new(Fixed::from_int(x), Fixed::from_int(y)))
}

#[test]
fn numbers_render_in_plain_decimal() {
    assert_eq!(u64_to_string(0), "0");
    assert_eq!(u64_to_string(1080), "1080");
    assert_eq!(i64_to_string(-42), "-42");
    assert_eq!(fixed_to_string(Fixed::zero()), "0");
    assert_eq!(fixed_to_string(Fixed::from_int(100)), "100");
    assert_eq!(fixed_to_string(Fixed::from_micros(7_500_000)), "7.5");
    assert_eq!(fixed_to_string(Fixed::from_micros(1_230_000)), "1.23");
    assert_eq!(fixed_to_string(Fixed::from_micros(1)), "0.000001");
    assert_eq!(fixed_to_string(Fixed::from_micros(-2_500_000)), "-2.5");
}

#[test]
fn fixed_arithmetic_is_exact_and_saturating() {
    let half = Fixed::from_micros(500_000);
    assert_eq!(half.mul(half).micros, 250_000);
    assert_eq!(Fixed::from_int(-3).mul(Fixed::from_int(2)).micros, -6_000_000);
    assert_eq!(Fixed::from_micros(i64::MAX).add(Fixed::one()).micros, i64::MAX);
    assert_eq!(Fixed::from_micros(i64::MIN).neg().micros, i64::MAX);
    // products truncate toward zero
    assert_eq!(Fixed::from_micros(1).mul(Fixed::from_micros(1)).micros, 0);
    assert_eq!(Fixed::from_micros(-1).mul(Fixed::from_micros(1)).micros, 0);
}

#[test]
fn transform_matrix_text() {
    assert_eq!(
        format_transform_matrix(Affine::identity()),
        "matrix(1, 0, 0, 1, 0, 0)"
    );
    assert_eq!(
        format_transform_matrix(translation(3, -4)),
        "matrix(1, 0, 0, 1, 3, -4)"
    );
}

#[test]
fn colors_render_as_uppercase_hex() {
    assert_eq!(Color::white().rgba_hex(), "FFFFFFFF");
    assert_eq!(Color::black().rgba_hex(), "000000FF");
    let c = Color::new(
        Fixed::from_micros(500_000),
        Fixed::zero(),
        Fixed::from_int(4),   // clamped to 1
        Fixed::from_int(-1),  // clamped to 0
    );
    assert_eq!(c.rgba_hex(), "7F00FF00");
}

#[test]
fn zero_linear_transform_has_no_bounding_box() {
    // Whatever the translation, a zero linear part collapses the image frame.
    for (tx, ty) in [(0, 0), (5, -3), (1000, 1000)] {
        let mut t = translation(tx, ty);
        t.a = Fixed::zero();
        t.d = Fixed::zero();
        let data = GraphicElementData::ImageFrame(frame_with_transform(t));
        assert_eq!(bounding_box(&data, Affine::identity()), None);
        assert_eq!(bounding_box(&data, translation(9, 9)), None);
    }
    // A non-degenerate frame does have a box.
    let data = GraphicElementData::ImageFrame(frame_with_transform(Affine::identity()));
    assert!(bounding_box(&data, Affine::identity()).is_some());
}

fn image_elem(x: i32, y: i32) -> GraphicElement {
    element(GraphicElementData::ImageFrame(frame_with_transform(translation(x, y))))
}

#[test]
fn group_bounding_box_ignores_child_order() {
    let ab = GraphicElementData::GraphicGroup(GraphicGroup {
        elements: vec![image_elem(0, 0), image_elem(10, 10)],
    });
    let ba = GraphicElementData::GraphicGroup(GraphicGroup {
        elements: vec![image_elem(10, 10), image_elem(0, 0)],
    });
    let bb_ab = bounding_box(&ab, Affine::identity()).unwrap();
    let bb_ba = bounding_box(&ba, Affine::identity()).unwrap();
    assert_eq!(bb_ab, bb_ba);
    assert_eq!(bb_ab.min.x.micros, 0);
    assert_eq!(bb_ab.max.x.micros, 11_000_000);
}

#[test]
fn empty_group_has_no_bounding_box() {
    let g = GraphicElementData::GraphicGroup(GraphicGroup::empty());
    assert_eq!(bounding_box(&g, Affine::identity()), None);
}

#[test]
fn empty_parent_tag_collapses_to_self_closing() {
    // A parent tag whose child callback produced nothing becomes a single
    // self-closing tag, not a matched empty pair.
    let mut render = SvgRender::new();
    let mark = render.parent_tag_open(
        "g",
        vec![SvgAttr { name: "class", value: SvgSegment::Slice("empty") }],
    );
    render.parent_tag_close("g", mark);
    assert_eq!(render.svg.to_svg_string(), "\n<g class=\"empty\"/>");

    let mut render = SvgRender::new();
    let mark = render.parent_tag_open("g", vec![]);
    render.svg.push(SvgSegment::Slice("x"));
    render.parent_tag_close("g", mark);
    assert_eq!(render.svg.to_svg_string(), "\n<g>x\n</g>");
}

#[test]
fn render_empty_group_appends_nothing() {
    let mut render = SvgRender::new();
    render_svg(
        &GraphicElementData::GraphicGroup(GraphicGroup::empty()),
        &mut render,
        &params(),
    );
    assert_eq!(render.svg.to_svg_string(), "");
    assert!(render.image_data.is_empty());
}

#[test]
fn render_artboard_scenario() {
    // Location (0,0), dimensions (100,100), clipped, containing one empty
    // group: a background rectangle, a label, one clip path definition, and
    // a self-closing contents group referencing it.
    let artboard = Artboard::new(
        GraphicGroup {
            elements: vec![element(GraphicElementData::GraphicGroup(GraphicGroup::empty()))],
        },
        IVec2::new(0, 0),
        IVec2::new(100, 100),
        Color::white(),
        true,
    );
    let mut render = SvgRender::new();
    render_svg(
        &GraphicElementData::Artboard(Box::new(artboard)),
        &mut render,
        &params(),
    );
    let svg = render.svg.to_svg_string();
    let expected = "\n<rect class=\"artboard-bg\" fill=\"#FFFFFFFF\" x=\"0\" y=\"0\" width=\"100\" height=\"100\"/>\n<text class=\"artboard-label\" fill=\"white\" x=\"0\" y=\"-4\" font-size=\"14px\">Artboard\n</text>\n<g class=\"artboard\" clip-path=\"url(#artboard-0)\"/>";
    assert_eq!(svg, expected);
    assert_eq!(
        render.svg_defs,
        "<clipPath id=\"artboard-0\"><rect x=\"0\" y=\"0\" width=\"100\" height=\"100\"/></clipPath>"
    );
    // The empty contents group collapsed: no matched </g> pair was written.
    assert!(!svg.contains("</g>"));
}

#[test]
fn deferred_assets_get_distinct_identifiers() {
    let group = GraphicElementData::GraphicGroup(GraphicGroup {
        elements: vec![image_elem(0, 0), image_elem(5, 5)],
    });
    let mut render = SvgRender::new();
    render_svg(&group, &mut render, &params());
    assert_eq!(render.image_data.len(), 2);
    assert_eq!(render.image_data[0].0, 0);
    assert_eq!(render.image_data[1].0, 1);
}

#[test]
fn render_image_frame_defers_pixel_data() {
    let mut render = SvgRender::new();
    render_svg(
        &GraphicElementData::ImageFrame(frame_with_transform(translation(2, 3))),
        &mut render,
        &params(),
    );
    let svg = render.svg.to_svg_string();
    assert!(svg.contains("<image width=\"1\" height=\"1\" preserveAspectRatio=\"none\""));
    assert!(svg.contains("transform=\"matrix(1, 0, 0, 1, 2, 3)\""));
    // The binary data went to the side list under the generated identifier.
    assert_eq!(render.image_data.len(), 1);
    assert_eq!(render.image_data[0].0, 0);
    assert!(svg.contains("<!-- Blob url not yet loaded -->"));
}

#[test]
fn render_vector_shape_path() {
    let shape = VectorData {
        subpaths: vec![Subpath {
            points: vec![
                Vec2F::new(Fixed::zero(), Fixed::zero()),
                Vec2F::new(Fixed::from_int(10), Fixed::zero()),
                Vec2F::new(Fixed::from_int(10), Fixed::from_int(5)),
            ],
            closed: true,
        }],
        transform: Affine::identity(),
        style: PathStyle { fill: Some(Color::black()), stroke: None },
    };
    let mut render = SvgRender::new();
    render_svg(
        &GraphicElementData::VectorShape(Box::new(shape)),
        &mut render,
        &params(),
    );
    let svg = render.svg.to_svg_string();
    assert!(svg.contains("class=\"vector-data\""));
    assert!(svg.contains("d=\"M 0,0 L 10,0 L 10,5 Z\""));
    assert!(svg.contains("fill=\"#000000FF\""));
}

#[test]
fn format_svg_wraps_output_and_defs() {
    let mut render = SvgRender::new();
    render.svg.push(SvgSegment::Slice("<x/>"));
    render.format_svg(
        Vec2F::new(Fixed::zero(), Fixed::zero()),
        Vec2F::new(Fixed::from_int(100), Fixed::from_int(50)),
    );
    assert_eq!(
        render.svg.to_svg_string(),
        "<svg xmlns=\"http://www.w3.org/2000/svg\" viewBox=\"0 0 100 50\"><defs></defs><x/></svg>"
    );
}

#[test]
fn adjustment_choice_lists() {
    assert_eq!(LuminanceCalculation::list().len(), 5);
    let groups = BlendMode::list();
    assert_eq!(groups.len(), 6);
    assert_eq!(groups[0], vec![BlendMode::Normal]);
    assert_eq!(groups[3].len(), 7);
    let total: usize = groups.iter().map(|g| g.len()).sum();
    assert_eq!(total, 26);
}

#[test]
fn index_node_selects_or_falls_back() {
    let frames = vec![
        frame_with_transform(translation(1, 0)),
        frame_with_transform(translation(2, 0)),
    ];
    let chosen = index_node(&frames, 1);
    assert_eq!(chosen.transform.e.micros, 2_000_000);
    let fallback = index_node(&frames, 9);
    assert_eq!(fallback.transform, node_graph::value::ImageFrame::empty().transform);
    assert_eq!(fallback.image.width, 0);
}

#[test]
fn string_comparison_is_character_exact() {
    assert!(str_eq("Begin Scope", "Begin Scope"));
    assert!(!str_eq("Begin Scope", "begin scope"));
    assert!(!str_eq("a", "ab"));
}
