//! The document graph model: node inputs, node instances, and networks of
//! nodes with free-input and output wiring.

use vstd::prelude::*;
use vstd::string::StringExecFns;
use crate::geom::IVec2;
use crate::value::{clone_tagged_value, tagged_value_equiv, type_equiv, TaggedValue, Type};

verus! {

/// Identifier of a node within one network.
pub type NodeId = u64;

/// A reference to one output of a node in the same network.
#[derive(Debug, Clone, Copy, PartialEq, Eq, Structural, Hash)]
pub struct NodeOutput {
    pub node_id: NodeId,
    pub node_output_index: usize,
}

impl NodeOutput {
    pub fn new(node_id: NodeId, node_output_index: usize) -> (r: Self)
        ensures
            r == (NodeOutput { node_id, node_output_index }),
    {
        NodeOutput { node_id, node_output_index }
    }
}

/// Editor-only placement of a node on the canvas; the compiler may discard
/// it freely.
#[derive(Debug, Clone, Copy, PartialEq, Eq, Structural, Hash)]
pub struct DocumentNodeMetadata {
    pub position: IVec2,
}

impl DocumentNodeMetadata {
    pub fn position(x: i32, y: i32) -> (r: Self)
        ensures
            r.position.x == x && r.position.y == y,
    {
        DocumentNodeMetadata { position: IVec2 { x, y } }
    }

    pub fn origin() -> (r: Self)
        ensures
            r.position.x == 0 && r.position.y == 0,
    {
        DocumentNodeMetadata { position: IVec2 { x: 0, y: 0 } }
    }
}

/// The name of a primitive operation in the execution engine: an opaque
/// capability token resolved outside this crate.
#[derive(Debug, Clone, Copy, PartialEq, Eq, Hash)]
pub struct NodeIdentifier {
    pub name: &'static str,
}

impl NodeIdentifier {
    pub fn new(name: &'static str) -> (r: Self)
        ensures
            r.name@ == name@,
    {
        NodeIdentifier { name }
    }
}

/// Equality of primitive operation names.
pub open spec fn node_identifier_equiv(a: NodeIdentifier, b: NodeIdentifier) -> bool {
    a.name@ == b.name@
}

/// One input slot binding of a node instance.
#[derive(Debug)]
pub enum NodeInput {
    /// A literal value; `exposed` chooses between a graph connector and an
    /// inline editor.
    Value { tagged_value: TaggedValue, exposed: bool },
    /// The output `output_index` of node `node_id` in the same network;
    /// `lazy` marks a call-by-need edge.
    Node { node_id: NodeId, output_index: usize, lazy: bool },
    /// A network-level free input of the declared type, supplied by the
    /// enclosing scope.
    Network(Type),
    /// A sequencing-only edge independent of data flow.
    ShortCircuit(Type),
}

impl NodeInput {
    /// An eager reference to the primary or numbered output of a node.
    pub fn node(node_id: NodeId, output_index: usize) -> (r: Self)
        ensures
            r == (NodeInput::Node { node_id, output_index, lazy: false }),
    {
        NodeInput::Node { node_id, output_index, lazy: false }
    }

    /// A call-by-need reference to the output of a node.
    pub fn lambda(node_id: NodeId, output_index: usize) -> (r: Self)
        ensures
            r == (NodeInput::Node { node_id, output_index, lazy: true }),
    {
        NodeInput::Node { node_id, output_index, lazy: true }
    }

    /// A literal value binding.
    pub fn value(tagged_value: TaggedValue, exposed: bool) -> (r: Self)
        ensures
            r == (NodeInput::Value { tagged_value, exposed }),
    {
        NodeInput::Value { tagged_value, exposed }
    }

    /// Whether this binding is a network-level free input.
    pub open spec fn is_network_spec(self) -> bool {
        self matches NodeInput::Network(_)
    }
}

/// Deep equality of input bindings.
pub open spec fn node_input_equiv(a: NodeInput, b: NodeInput) -> bool
    decreases a,
{
    match (a, b) {
        (
            NodeInput::Value { tagged_value: x, exposed: p },
            NodeInput::Value { tagged_value: y, exposed: q },
        ) => tagged_value_equiv(x, y) && p == q,
        (NodeInput::Network(x), NodeInput::Network(y)) => type_equiv(x, y),
        (NodeInput::ShortCircuit(x), NodeInput::ShortCircuit(y)) => type_equiv(x, y),
        (x, y) => x == y,
    }
}

/// Deep equality of input binding lists.
pub open spec fn inputs_equiv(a: Seq<NodeInput>, b: Seq<NodeInput>) -> bool
    decreases a,
{
    a.len() == b.len() && forall|i: int| 0 <= i < a.len() ==> node_input_equiv(a[i], b[i])
}

/// What a node instance executes: a primitive operation, a nested network to
/// inline, or the reification of its own definition as a value.
#[derive(Debug)]
pub enum DocumentNodeImplementation {
    Network(NodeNetwork),
    Unresolved(NodeIdentifier),
    Extract,
}

impl DocumentNodeImplementation {
    pub fn proto(name: &'static str) -> (r: Self)
        ensures
            r matches DocumentNodeImplementation::Unresolved(id) && id.name@ == name@,
    {
        DocumentNodeImplementation::Unresolved(NodeIdentifier::new(name))
    }
}

/// Deep equality of node implementations.
pub open spec fn implementation_equiv(
    a: DocumentNodeImplementation,
    b: DocumentNodeImplementation,
) -> bool
    decreases a,
{
    match (a, b) {
        (DocumentNodeImplementation::Network(x), DocumentNodeImplementation::Network(y)) =>
            network_equiv(x, y),
        (DocumentNodeImplementation::Unresolved(x), DocumentNodeImplementation::Unresolved(y)) =>
            node_identifier_equiv(x, y),
        (DocumentNodeImplementation::Extract, DocumentNodeImplementation::Extract) => true,
        _ => false,
    }
}

/// One node instance: a display name, its ordered input bindings, what it
/// executes, and editor-only metadata.
#[derive(Debug)]
pub struct DocumentNode {
    pub name: String,
    pub inputs: Vec<NodeInput>,
    pub implementation: DocumentNodeImplementation,
    pub metadata: DocumentNodeMetadata,
}

/// Deep equality of node instances.
pub open spec fn document_node_equiv(a: DocumentNode, b: DocumentNode) -> bool
    decreases a,
{
    a.name@ == b.name@ && inputs_equiv(a.inputs@, b.inputs@) && implementation_equiv(
        a.implementation,
        b.implementation,
    ) && a.metadata == b.metadata
}

/// Deep equality of node maps: the same identifiers bind deep-equal nodes in
/// the same order.
pub open spec fn nodes_equiv(a: Seq<(NodeId, DocumentNode)>, b: Seq<(NodeId, DocumentNode)>) -> bool
    decreases a,
{
    a.len() == b.len() && forall|i: int|
        0 <= i < a.len() ==> a[i].0 == b[i].0 && document_node_equiv(a[i].1, b[i].1)
}

/// A graph of node instances.
///
/// `nodes` maps identifiers to instances (held as an association list whose
/// keys are unique; insertion order carries no meaning). `inputs` lists, for
/// each network-level free input, the identifier of the node that consumes
/// it. `outputs` names the node outputs the network exposes.
#[derive(Debug)]
pub struct NodeNetwork {
    pub inputs: Vec<NodeId>,
    pub outputs: Vec<NodeOutput>,
    pub nodes: Vec<(NodeId, DocumentNode)>,
}

/// Deep equality of networks.
pub open spec fn network_equiv(a: NodeNetwork, b: NodeNetwork) -> bool
    decreases a,
{
    a.inputs@ == b.inputs@ && a.outputs@ == b.outputs@ && nodes_equiv(a.nodes@, b.nodes@)
}

impl NodeNetwork {
    /// A network with no nodes, no free inputs and no outputs.
    pub fn empty() -> (r: Self)
        ensures
            r.inputs@ =~= Seq::<NodeId>::empty(),
            r.outputs@ =~= Seq::<NodeOutput>::empty(),
            r.nodes@ =~= Seq::<(NodeId, DocumentNode)>::empty(),
    {
        NodeNetwork { inputs: Vec::new(), outputs: Vec::new(), nodes: Vec::new() }
    }

    /// Every node identifier in the map is distinct.
    pub open spec fn ids_unique(self) -> bool {
        forall|i: int, j: int|
            0 <= i < j < self.nodes@.len() ==> self.nodes@[i].0 != self.nodes@[j].0
    }

    /// The position of `id` in the node map, if present.
    pub open spec fn find_node_spec(self, id: NodeId) -> Option<int> {
        if exists|i: int| 0 <= i < self.nodes@.len() && self.nodes@[i].0 == id {
            Option::Some(choose|i: int| 0 <= i < self.nodes@.len() && self.nodes@[i].0 == id)
        } else {
            Option::<int>::None
        }
    }

    /// Appends `node` under the next sequential identifier. When `connect`
    /// is set and a previous node exists, the new node's first input is
    /// rewired to the previous node's primary output. The network's exposed
    /// output becomes the new node's primary output.
    pub fn push_node(&mut self, node: DocumentNode, connect: bool) -> (id: NodeId)
        ensures
            id == old(self).nodes@.len(),
            final(self).nodes@.len() == old(self).nodes@.len() + 1,
            final(self).nodes@.subrange(0, old(self).nodes@.len() as int) == old(self).nodes@,
            final(self).nodes@.last().0 == id,
            final(self).outputs@ =~= seq![NodeOutput { node_id: id, node_output_index: 0 }],
            final(self).inputs@ == old(self).inputs@,
            ({
                let stored = final(self).nodes@.last().1;
                &&& stored.name@ == node.name@
                &&& stored.implementation == node.implementation
                &&& stored.metadata == node.metadata
                &&& if connect && id > 0 && node.inputs@.len() > 0 {
                    stored.inputs@ =~= node.inputs@.update(
                        0,
                        NodeInput::Node { node_id: (id - 1) as NodeId, output_index: 0, lazy: false },
                    )
                } else {
                    stored.inputs@ == node.inputs@
                }
            }),
    {
        let id: NodeId = self.nodes.len() as NodeId;
        let mut node = node;
        if connect && id > 0 && node.inputs.len() > 0 {
            node.inputs.set(0, NodeInput::node(id - 1, 0));
        }
        self.nodes.push((id, node));
        self.outputs = vec![NodeOutput { node_id: id, node_output_index: 0 }];
        id
    }
}

/// Every tagged value is deep-equal to itself.
pub proof fn lemma_tagged_value_equiv_reflexive(v: TaggedValue)
    ensures
        tagged_value_equiv(v, v),
    decreases v,
{
    match v {
        TaggedValue::DocumentNode(x) => {
            lemma_document_node_equiv_reflexive(*x);
        },
        TaggedValue::GraphicGroup(x) => {
            crate::scene::lemma_graphic_group_equiv_reflexive(x);
        },
        _ => {},
    }
}

/// Every input binding is deep-equal to itself.
pub proof fn lemma_node_input_equiv_reflexive(v: NodeInput)
    ensures
        node_input_equiv(v, v),
    decreases v,
{
    match v {
        NodeInput::Value { tagged_value, exposed } => {
            lemma_tagged_value_equiv_reflexive(tagged_value);
        },
        _ => {},
    }
}

/// Every input binding list is deep-equal to itself.
pub proof fn lemma_inputs_equiv_reflexive(v: Seq<NodeInput>)
    ensures
        inputs_equiv(v, v),
    decreases v,
{
    assert forall|i: int| 0 <= i < v.len() implies node_input_equiv(v[i], v[i]) by {
        lemma_node_input_equiv_reflexive(v[i]);
    }
}

/// Every node implementation is deep-equal to itself.
pub proof fn lemma_implementation_equiv_reflexive(v: DocumentNodeImplementation)
    ensures
        implementation_equiv(v, v),
    decreases v,
{
    match v {
        DocumentNodeImplementation::Network(x) => {
            lemma_network_equiv_reflexive(x);
        },
        _ => {},
    }
}

/// Every node instance is deep-equal to itself.
pub proof fn lemma_document_node_equiv_reflexive(v: DocumentNode)
    ensures
        document_node_equiv(v, v),
    decreases v,
{
    lemma_inputs_equiv_reflexive(v.inputs@);
    lemma_implementation_equiv_reflexive(v.implementation);
}

/// Every network is deep-equal to itself.
pub proof fn lemma_network_equiv_reflexive(v: NodeNetwork)
    ensures
        network_equiv(v, v),
    decreases v,
{
    assert forall|i: int| 0 <= i < v.nodes@.len() implies v.nodes@[i].0 == v.nodes@[i].0
        && document_node_equiv(v.nodes@[i].1, v.nodes@[i].1) by {
        lemma_document_node_equiv_reflexive(v.nodes@[i].1);
    }
}

/// Deep copy of an input binding.
pub fn clone_node_input(v: &NodeInput) -> (r: NodeInput)
    ensures
        node_input_equiv(r, *v),
    decreases *v,
{
    match v {
        NodeInput::Value { tagged_value, exposed } => NodeInput::Value {
            tagged_value: clone_tagged_value(tagged_value),
            exposed: *exposed,
        },
        NodeInput::Node { node_id, output_index, lazy } => NodeInput::Node {
            node_id: *node_id,
            output_index: *output_index,
            lazy: *lazy,
        },
        NodeInput::Network(t) => NodeInput::Network(*t),
        NodeInput::ShortCircuit(t) => NodeInput::ShortCircuit(*t),
    }
}

/// Deep copy of an input binding list.
pub fn clone_inputs(v: &Vec<NodeInput>) -> (r: Vec<NodeInput>)
    ensures
        inputs_equiv(r@, v@),
    decreases *v,
{
    let mut r: Vec<NodeInput> = Vec::new();
    let mut i: usize = 0;
    while i < v.len()
        invariant
            i <= v@.len(),
            r@.len() == i,
            forall|j: int| 0 <= j < i ==> node_input_equiv(r@[j], v@[j]),
        decreases v@.len() - i,
    {
        r.push(clone_node_input(&v[i]));
        i = i + 1;
    }
    r
}

/// Deep copy of a node implementation.
pub fn clone_implementation(v: &DocumentNodeImplementation) -> (r: DocumentNodeImplementation)
    ensures
        implementation_equiv(r, *v),
    decreases *v,
{
    match v {
        DocumentNodeImplementation::Network(n) => DocumentNodeImplementation::Network(
            clone_network(n),
        ),
        DocumentNodeImplementation::Unresolved(id) => DocumentNodeImplementation::Unresolved(*id),
        DocumentNodeImplementation::Extract => DocumentNodeImplementation::Extract,
    }
}

/// Deep copy of a node instance.
pub fn clone_document_node(v: &DocumentNode) -> (r: DocumentNode)
    ensures
        document_node_equiv(r, *v),
    decreases *v,
{
    DocumentNode {
        name: v.name.clone(),
        inputs: clone_inputs(&v.inputs),
        implementation: clone_implementation(&v.implementation),
        metadata: v.metadata,
    }
}

/// Deep copy of a network.
pub fn clone_network(v: &NodeNetwork) -> (r: NodeNetwork)
    ensures
        network_equiv(r, *v),
    decreases *v,
{
    let mut nodes: Vec<(NodeId, DocumentNode)> = Vec::new();
    let mut i: usize = 0;
    while i < v.nodes.len()
        invariant
            i <= v.nodes@.len(),
            nodes@.len() == i,
            forall|j: int|
                0 <= j < i ==> nodes@[j].0 == v.nodes@[j].0 && document_node_equiv(
                    nodes@[j].1,
                    v.nodes@[j].1,
                ),
        decreases v.nodes@.len() - i,
    {
        let entry = &v.nodes[i];
        let copied = clone_document_node(&entry.1);
        nodes.push((entry.0, copied));
        i = i + 1;
    }
    NodeNetwork {
        inputs: crate::value::clone_copy_vec(&v.inputs),
        outputs: crate::value::clone_copy_vec(&v.outputs),
        nodes,
    }
}

} // verus!
