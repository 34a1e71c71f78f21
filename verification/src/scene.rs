//! The scene graph: the renderable data produced by evaluating a network, as
//! opposed to the graph definition itself.

use vstd::prelude::*;
use crate::fixed::Fixed;
use crate::geom::IVec2;
use crate::adjustments::BlendMode;
use crate::value::{
    clone_image_frame, clone_vector_data, image_frame_equiv, vector_data_equiv, Color, ImageFrame,
    VectorData,
};

verus! {

/// A renderable scene value: a vector shape, a placed image, reserved text,
/// a nested group, or an artboard.
#[derive(Debug)]
pub enum GraphicElementData {
    VectorShape(Box<VectorData>),
    ImageFrame(ImageFrame),
    Text(String),
    GraphicGroup(GraphicGroup),
    Artboard(Box<Artboard>),
}

/// One element of a group, with its presentation attributes.
#[derive(Debug)]
pub struct GraphicElement {
    pub name: String,
    pub blend_mode: BlendMode,
    pub opacity: Fixed,
    pub visible: bool,
    pub locked: bool,
    pub collapsed: bool,
    pub graphic_element_data: GraphicElementData,
}

/// An ordered sequence of scene elements. A group exclusively owns its
/// children.
#[derive(Debug)]
pub struct GraphicGroup {
    pub elements: Vec<GraphicElement>,
}

impl GraphicGroup {
    pub open spec fn is_empty_spec(self) -> bool {
        self.elements@ =~= Seq::<GraphicElement>::empty()
    }

    pub fn empty() -> (r: Self)
        ensures
            r.is_empty_spec(),
    {
        GraphicGroup { elements: Vec::new() }
    }
}

/// A clipped, labelled drawing area wrapping one group.
#[derive(Debug)]
pub struct Artboard {
    pub graphic_group: GraphicGroup,
    pub location: IVec2,
    pub dimensions: IVec2,
    pub background: Color,
    pub clip: bool,
}

impl Artboard {
    pub fn new(
        graphic_group: GraphicGroup,
        location: IVec2,
        dimensions: IVec2,
        background: Color,
        clip: bool,
    ) -> (r: Self)
        ensures
            graphic_group_equiv(r.graphic_group, graphic_group),
            r.location == location,
            r.dimensions == dimensions,
            r.background == background,
            r.clip == clip,
    {
        let r = Artboard { graphic_group, location, dimensions, background, clip };
        proof {
            lemma_graphic_group_equiv_reflexive(r.graphic_group);
        }
        r
    }
}

/// Deep equality of scene values.
pub open spec fn graphic_element_data_equiv(a: GraphicElementData, b: GraphicElementData) -> bool
    decreases a,
{
    match (a, b) {
        (GraphicElementData::VectorShape(x), GraphicElementData::VectorShape(y)) =>
            vector_data_equiv(*x, *y),
        (GraphicElementData::ImageFrame(x), GraphicElementData::ImageFrame(y)) =>
            image_frame_equiv(x, y),
        (GraphicElementData::Text(x), GraphicElementData::Text(y)) => x@ == y@,
        (GraphicElementData::GraphicGroup(x), GraphicElementData::GraphicGroup(y)) =>
            graphic_group_equiv(x, y),
        (GraphicElementData::Artboard(x), GraphicElementData::Artboard(y)) => artboard_equiv(
            *x,
            *y,
        ),
        _ => false,
    }
}

/// Deep equality of group elements.
pub open spec fn graphic_element_equiv(a: GraphicElement, b: GraphicElement) -> bool
    decreases a,
{
    a.name@ == b.name@ && a.blend_mode == b.blend_mode && a.opacity == b.opacity && a.visible
        == b.visible && a.locked == b.locked && a.collapsed == b.collapsed
        && graphic_element_data_equiv(a.graphic_element_data, b.graphic_element_data)
}

/// Deep equality of groups.
pub open spec fn graphic_group_equiv(a: GraphicGroup, b: GraphicGroup) -> bool
    decreases a,
{
    a.elements@.len() == b.elements@.len() && forall|i: int|
        0 <= i < a.elements@.len() ==> graphic_element_equiv(a.elements@[i], b.elements@[i])
}

/// Deep equality of artboards.
pub open spec fn artboard_equiv(a: Artboard, b: Artboard) -> bool
    decreases a,
{
    graphic_group_equiv(a.graphic_group, b.graphic_group) && a.location == b.location
        && a.dimensions == b.dimensions && a.background == b.background && a.clip == b.clip
}

/// Every scene value is deep-equal to itself.
pub proof fn lemma_graphic_element_data_equiv_reflexive(a: GraphicElementData)
    ensures
        graphic_element_data_equiv(a, a),
    decreases a,
{
    match a {
        GraphicElementData::VectorShape(_) => {},
        GraphicElementData::ImageFrame(_) => {},
        GraphicElementData::Text(_) => {},
        GraphicElementData::GraphicGroup(x) => {
            lemma_graphic_group_equiv_reflexive(x);
        },
        GraphicElementData::Artboard(x) => {
            lemma_graphic_group_equiv_reflexive(x.graphic_group);
        },
    }
}

/// Every group is deep-equal to itself.
pub proof fn lemma_graphic_group_equiv_reflexive(a: GraphicGroup)
    ensures
        graphic_group_equiv(a, a),
    decreases a,
{
    assert forall|i: int| 0 <= i < a.elements@.len() implies graphic_element_equiv(
        a.elements@[i],
        a.elements@[i],
    ) by {
        lemma_graphic_element_data_equiv_reflexive(a.elements@[i].graphic_element_data);
    }
}

/// Deep copy of a scene value.
pub fn clone_graphic_element_data(v: &GraphicElementData) -> (r: GraphicElementData)
    ensures
        graphic_element_data_equiv(r, *v),
    decreases *v,
{
    match v {
        GraphicElementData::VectorShape(x) => GraphicElementData::VectorShape(
            Box::new(clone_vector_data(&**x)),
        ),
        GraphicElementData::ImageFrame(x) => GraphicElementData::ImageFrame(clone_image_frame(x)),
        GraphicElementData::Text(x) => GraphicElementData::Text(x.clone()),
        GraphicElementData::GraphicGroup(x) => GraphicElementData::GraphicGroup(
            clone_graphic_group(x),
        ),
        GraphicElementData::Artboard(x) => GraphicElementData::Artboard(
            Box::new(
                Artboard {
                    graphic_group: clone_graphic_group(&x.graphic_group),
                    location: x.location,
                    dimensions: x.dimensions,
                    background: x.background,
                    clip: x.clip,
                },
            ),
        ),
    }
}

/// Deep copy of a group.
pub fn clone_graphic_group(v: &GraphicGroup) -> (r: GraphicGroup)
    ensures
        graphic_group_equiv(r, *v),
    decreases *v,
{
    let mut elements: Vec<GraphicElement> = Vec::new();
    let mut i: usize = 0;
    while i < v.elements.len()
        invariant
            i <= v.elements@.len(),
            elements@.len() == i,
            forall|j: int| 0 <= j < i ==> graphic_element_equiv(elements@[j], v.elements@[j]),
        decreases v.elements@.len() - i,
    {
        let e = &v.elements[i];
        let data = clone_graphic_element_data(&e.graphic_element_data);
        elements.push(
            GraphicElement {
                name: e.name.clone(),
                blend_mode: e.blend_mode,
                opacity: e.opacity,
                visible: e.visible,
                locked: e.locked,
                collapsed: e.collapsed,
                graphic_element_data: data,
            },
        );
        i = i + 1;
    }
    GraphicGroup { elements }
}

} // verus!
