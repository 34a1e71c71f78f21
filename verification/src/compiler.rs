//! The network compiler: instantiating node type descriptors into concrete
//! nodes, inlining nested sub-networks, and wrapping free inputs in a scope.

use vstd::prelude::*;
use vstd::string::StringExecFns;
use crate::document::{
    clone_network, clone_node_input, document_node_equiv, implementation_equiv, network_equiv,
    node_input_equiv, DocumentNode, DocumentNodeImplementation, DocumentNodeMetadata, NodeId,
    NodeInput, NodeNetwork, NodeOutput,
};
use crate::registry::{
    resolve_document_node_type, resolve_spec, DocumentNodeType, NodeImplementation,
    NodeTypeRegistry,
};
use crate::value::TaggedValue;

verus! {

/// The implementation an instance of this descriptor receives: a primitive
/// identifier is carried through unchanged, a nested network is copied, and
/// the extract marker is carried through.
pub open spec fn implementation_of(d: DocumentNodeType, r: DocumentNodeImplementation) -> bool {
    match d.identifier {
        NodeImplementation::ProtoNode(id) => r == DocumentNodeImplementation::Unresolved(id),
        NodeImplementation::DocumentNode(net) => r matches DocumentNodeImplementation::Network(n2)
            && network_equiv(n2, net),
        NodeImplementation::Extract => r == DocumentNodeImplementation::Extract,
    }
}

impl DocumentNodeType {
    /// Derives the executable implementation for an instance of this type.
    pub fn generate_implementation(&self) -> (r: DocumentNodeImplementation)
        ensures
            implementation_of(*self, r),
    {
        match &self.identifier {
            NodeImplementation::DocumentNode(network) => DocumentNodeImplementation::Network(
                clone_network(network),
            ),
            NodeImplementation::ProtoNode(ident) => DocumentNodeImplementation::Unresolved(*ident),
            NodeImplementation::Extract => DocumentNodeImplementation::Extract,
        }
    }

    /// Instantiates this type with the given input bindings, which must be
    /// exactly as many as the type declares.
    pub fn to_document_node(&self, inputs: Vec<NodeInput>, metadata: DocumentNodeMetadata) -> (r:
        DocumentNode)
        requires
            inputs@.len() == self.inputs@.len(),
        ensures
            r.name@ == self.name@,
            r.inputs == inputs,
            r.metadata == metadata,
            implementation_of(*self, r.implementation),
    {
        DocumentNode {
            name: String::from_str(self.name),
            inputs,
            implementation: self.generate_implementation(),
            metadata,
        }
    }

    /// Instantiates this type from a sparse, possibly short list of
    /// overrides: each present entry replaces the declared default at its
    /// position, and every other slot falls back to the default.
    pub fn to_document_node_default_inputs(
        &self,
        input_override: Vec<Option<NodeInput>>,
        metadata: DocumentNodeMetadata,
    ) -> (r: DocumentNode)
        ensures
            r.name@ == self.name@,
            r.inputs@.len() == self.inputs@.len(),
            forall|i: int|
                0 <= i < self.inputs@.len() ==> node_input_equiv(
                    #[trigger] r.inputs@[i],
                    if 0 <= i < input_override@.len() && input_override@[i] is Some {
                        input_override@[i]->0
                    } else {
                        self.inputs@[i].default
                    },
                ),
            r.metadata == metadata,
            implementation_of(*self, r.implementation),
    {
        let n = self.inputs.len();
        let mut inputs: Vec<NodeInput> = Vec::new();
        let mut i: usize = 0;
        while i < n
            invariant
                i <= n,
                n == self.inputs@.len(),
                inputs@.len() == i,
                forall|j: int|
                    0 <= j < i ==> node_input_equiv(
                        #[trigger] inputs@[j],
                        if 0 <= j < input_override@.len() && input_override@[j] is Some {
                            input_override@[j]->0
                        } else {
                            self.inputs@[j].default
                        },
                    ),
            decreases n - i,
        {
            if i < input_override.len() {
                match &input_override[i] {
                    Option::Some(binding) => {
                        inputs.push(clone_node_input(binding));
                    },
                    Option::None => {
                        inputs.push(clone_node_input(&self.inputs[i].default));
                    },
                }
            } else {
                inputs.push(clone_node_input(&self.inputs[i].default));
            }
            i = i + 1;
        }
        self.to_document_node(inputs, metadata)
    }
}

/// A node is primitive: its implementation is not a nested network.
pub open spec fn node_flat(n: DocumentNode) -> bool {
    !(n.implementation matches DocumentNodeImplementation::Network(_))
}

/// Every node of the network is primitive.
pub open spec fn network_flat(net: NodeNetwork) -> bool {
    forall|i: int| 0 <= i < net.nodes@.len() ==> node_flat(#[trigger] net.nodes@[i].1)
}

/// The number of primitive nodes a node stands for: itself when primitive,
/// otherwise the primitive nodes of its nested network.
pub open spec fn node_prim(n: DocumentNode) -> nat
    decreases n,
{
    match n.implementation {
        DocumentNodeImplementation::Network(inner) => nodes_prim(inner.nodes@),
        _ => 1,
    }
}

/// Total primitive-node count of a node map.
pub open spec fn nodes_prim(s: Seq<(NodeId, DocumentNode)>) -> nat
    decreases s,
{
    if s.len() == 0 {
        0
    } else {
        nodes_prim(s.drop_last()) + node_prim(s.last().1)
    }
}

/// Structural cost of a node: one for the node itself plus the cost of its
/// nested network, if any. Inlining one nested node lowers the total cost of
/// a network by exactly one, which bounds the number of inlining steps.
pub open spec fn node_cost(n: DocumentNode) -> nat
    decreases n,
{
    match n.implementation {
        DocumentNodeImplementation::Network(inner) => 1 + nodes_cost(inner.nodes@),
        _ => 1,
    }
}

/// Total structural cost of a node map.
pub open spec fn nodes_cost(s: Seq<(NodeId, DocumentNode)>) -> nat
    decreases s,
{
    if s.len() == 0 {
        0
    } else {
        nodes_cost(s.drop_last()) + node_cost(s.last().1)
    }
}

/// Counts distribute over appending one node.
proof fn lemma_counts_push(s: Seq<(NodeId, DocumentNode)>, x: (NodeId, DocumentNode))
    ensures
        nodes_prim(s.push(x)) == nodes_prim(s) + node_prim(x.1),
        nodes_cost(s.push(x)) == nodes_cost(s) + node_cost(x.1),
{
    assert(s.push(x).drop_last() =~= s);
    assert(s.push(x).last() == x);
}

/// Counts distribute over concatenation.
proof fn lemma_counts_concat(a: Seq<(NodeId, DocumentNode)>, b: Seq<(NodeId, DocumentNode)>)
    ensures
        nodes_prim(a + b) == nodes_prim(a) + nodes_prim(b),
        nodes_cost(a + b) == nodes_cost(a) + nodes_cost(b),
    decreases b.len(),
{
    if b.len() == 0 {
        assert(a + b =~= a);
    } else {
        assert((a + b).drop_last() =~= a + b.drop_last());
        assert((a + b).last() == b.last());
        lemma_counts_concat(a, b.drop_last());
        assert(b.drop_last().push(b.last()) =~= b);
        lemma_counts_push(b.drop_last(), b.last());
    }
}

/// Counts split around a removed element.
proof fn lemma_counts_remove(s: Seq<(NodeId, DocumentNode)>, k: int)
    requires
        0 <= k < s.len(),
    ensures
        nodes_prim(s) == nodes_prim(s.remove(k)) + node_prim(s[k].1),
        nodes_cost(s) == nodes_cost(s.remove(k)) + node_cost(s[k].1),
{
    let pre = s.subrange(0, k);
    let post = s.subrange(k + 1, s.len() as int);
    assert(s =~= pre + (seq![s[k]] + post));
    assert(s.remove(k) =~= pre + post);
    lemma_counts_concat(pre, seq![s[k]] + post);
    lemma_counts_concat(seq![s[k]], post);
    lemma_counts_concat(pre, post);
    assert(seq![s[k]].drop_last() =~= Seq::<(NodeId, DocumentNode)>::empty());
    assert(nodes_prim(Seq::<(NodeId, DocumentNode)>::empty()) == 0);
    assert(nodes_cost(Seq::<(NodeId, DocumentNode)>::empty()) == 0);
    assert(seq![s[k]].last() == s[k]);
    assert(nodes_prim(seq![s[k]]) == node_prim(s[k].1));
    assert(nodes_cost(seq![s[k]]) == node_cost(s[k].1));
}

/// In a flat node map the primitive count is the node count.
proof fn lemma_prim_flat(s: Seq<(NodeId, DocumentNode)>)
    requires
        forall|i: int| 0 <= i < s.len() ==> node_flat(#[trigger] s[i].1),
    ensures
        nodes_prim(s) == s.len(),
    decreases s.len(),
{
    if s.len() > 0 {
        assert(node_flat(s[s.len() - 1].1));
        assert forall|i: int| 0 <= i < s.drop_last().len() implies node_flat(
            #[trigger] s.drop_last()[i].1,
        ) by {
            assert(s.drop_last()[i] == s[i]);
        }
        lemma_prim_flat(s.drop_last());
        assert(s.last() == s[s.len() - 1]);
        assert(node_prim(s.last().1) == 1);
    }
}

/// The position of the first node whose implementation is a nested network.
fn find_nested(nodes: &Vec<(NodeId, DocumentNode)>) -> (r: Option<usize>)
    ensures
        match r {
            Option::Some(k) => k < nodes@.len() && !node_flat(nodes@[k as int].1),
            Option::None => forall|i: int| 0 <= i < nodes@.len() ==> node_flat(
                #[trigger] nodes@[i].1,
            ),
        },
{
    let n = nodes.len();
    let mut i: usize = 0;
    while i < n
        invariant
            i <= n,
            n == nodes@.len(),
            forall|j: int| 0 <= j < i ==> node_flat(#[trigger] nodes@[j].1),
        decreases n - i,
    {
        match &nodes[i].1.implementation {
            DocumentNodeImplementation::Network(_) => {
                return Option::Some(i);
            },
            _ => {},
        }
        i = i + 1;
    }
    Option::None
}

/// The position of `id` in an identifier table.
fn pos_of(ids: &Vec<NodeId>, id: NodeId) -> (r: Option<usize>)
    ensures
        match r {
            Option::Some(p) => p < ids@.len() && ids@[p as int] == id,
            Option::None => true,
        },
{
    let n = ids.len();
    let mut i: usize = 0;
    while i < n
        invariant
            i <= n,
            n == ids@.len(),
        decreases n - i,
    {
        if ids[i] == id {
            return Option::Some(i);
        }
        i = i + 1;
    }
    Option::None
}

/// Rewrites one node-output reference under the renumbering that inlining
/// applies: references to the inlined node are redirected through the inner
/// network's output table; other references move to their new identifiers.
/// A reference the tables cannot resolve is kept unchanged.
fn map_ref(
    node_id: NodeId,
    output_index: usize,
    removed_id: NodeId,
    inner_outputs: &Vec<NodeOutput>,
    inner_ids: &Vec<NodeId>,
    outer_ids: &Vec<NodeId>,
    m: usize,
) -> (r: (NodeId, usize)) {
    if node_id == removed_id {
        if output_index < inner_outputs.len() {
            let target = inner_outputs[output_index];
            match pos_of(inner_ids, target.node_id) {
                Option::Some(p) => {
                    match (m as u64).checked_add(p as u64) {
                        Option::Some(new_id) => (new_id, target.node_output_index),
                        Option::None => (node_id, output_index),
                    }
                },
                Option::None => (node_id, output_index),
            }
        } else {
            (node_id, output_index)
        }
    } else {
        match pos_of(outer_ids, node_id) {
            Option::Some(p) => (p as u64, output_index),
            Option::None => (node_id, output_index),
        }
    }
}

/// Inlines the nested network implementing the node at position `k`: the
/// node is removed, its network's nodes join the outer map under fresh
/// sequential identifiers, the outer node's input bindings replace the inner
/// network's free-input slots, and references to the removed node's outputs
/// are redirected to the corresponding inner output nodes. The total
/// primitive count is unchanged and the structural cost drops by one.
fn inline_at(net: NodeNetwork, k: usize) -> (r: NodeNetwork)
    requires
        k < net.nodes@.len(),
        !node_flat(net.nodes@[k as int].1),
    ensures
        nodes_prim(r.nodes@) == nodes_prim(net.nodes@),
        nodes_cost(r.nodes@) + 1 == nodes_cost(net.nodes@),
        r.outputs@.len() == net.outputs@.len(),
{
    let NodeNetwork { inputs: _, outputs: old_outputs, nodes: mut nodes } = net;
    let ghost orig_nodes = nodes@;
    let removed = nodes.remove(k);
    let removed_id = removed.0;
    let DocumentNode {
        name: _,
        inputs: removed_inputs,
        implementation: removed_impl,
        metadata: _,
    } = removed.1;
    let inner: NodeNetwork = match removed_impl {
        DocumentNodeImplementation::Network(inner) => inner,
        _ => {
            proof {
                assert(false);
            }
            NodeNetwork::empty()
        },
    };
    proof {
        lemma_counts_remove(orig_nodes, k as int);
    }
    let m = nodes.len();

    // Identifier tables: old outer identifiers (after removal) and the inner
    // network's identifiers, each mapped to its position.
    let mut outer_ids: Vec<NodeId> = Vec::new();
    let mut i: usize = 0;
    while i < m
        invariant
            i <= m,
            m == nodes@.len(),
        decreases m - i,
    {
        outer_ids.push(nodes[i].0);
        i = i + 1;
    }
    let inner_len = inner.nodes.len();
    let mut inner_ids: Vec<NodeId> = Vec::new();
    let mut i: usize = 0;
    while i < inner_len
        invariant
            i <= inner_len,
            inner_len == inner.nodes@.len(),
        decreases inner_len - i,
    {
        inner_ids.push(inner.nodes[i].0);
        i = i + 1;
    }

    // Remaining outer nodes: renumbered, with references rewritten.
    let ghost remaining = nodes@;
    let mut new_nodes: Vec<(NodeId, DocumentNode)> = Vec::new();
    let mut i: usize = 0;
    while i < m
        invariant
            i <= m,
            m == nodes@.len(),
            nodes@ == remaining,
            new_nodes@.len() == i,
            nodes_prim(new_nodes@) == nodes_prim(remaining.take(i as int)),
            nodes_cost(new_nodes@) == nodes_cost(remaining.take(i as int)),
        decreases m - i,
    {
        let node_ref = &nodes[i];
        let mut new_inputs: Vec<NodeInput> = Vec::new();
        let ins = &node_ref.1.inputs;
        let n_ins = ins.len();
        let mut j: usize = 0;
        while j < n_ins
            invariant
                j <= n_ins,
                n_ins == ins@.len(),
            decreases n_ins - j,
        {
            match &ins[j] {
                NodeInput::Node { node_id, output_index, lazy } => {
                    let (new_id, new_index) = map_ref(
                        *node_id,
                        *output_index,
                        removed_id,
                        &inner.outputs,
                        &inner_ids,
                        &outer_ids,
                        m,
                    );
                    new_inputs.push(
                        NodeInput::Node { node_id: new_id, output_index: new_index, lazy: *lazy },
                    );
                },
                other => {
                    new_inputs.push(clone_node_input(other));
                },
            }
            j = j + 1;
        }
        let rewritten = DocumentNode {
            name: node_ref.1.name.clone(),
            inputs: new_inputs,
            implementation: crate::document::clone_implementation(&node_ref.1.implementation),
            metadata: node_ref.1.metadata,
        };
        proof {
            lemma_counts_push(new_nodes@, (i as NodeId, rewritten));
            lemma_impl_equiv_counts(rewritten, remaining[i as int].1);
            assert(remaining.take(i as int + 1).drop_last() =~= remaining.take(i as int));
            assert(remaining.take(i as int + 1).last() == remaining[i as int]);
        }
        new_nodes.push((i as NodeId, rewritten));
        i = i + 1;
    }
    proof {
        assert(remaining.take(m as int) =~= remaining);
    }

    // The inner network's nodes: renumbered after the outer nodes, with
    // their free-input slots bound to the removed node's input bindings.
    // The wiring rule: the j-th entry of the inner input list names the
    // consuming node; that node's next unbound free-input slot receives the
    // outer node's j-th binding.
    let ghost inner_nodes_seq = inner.nodes@;
    let mut p: usize = 0;
    while p < inner_len
        invariant
            p <= inner_len,
            inner_len == inner.nodes@.len(),
            inner.nodes@ == inner_nodes_seq,
            new_nodes@.len() == m + p,
            nodes_prim(new_nodes@) == nodes_prim(remaining) + nodes_prim(
                inner_nodes_seq.take(p as int),
            ),
            nodes_cost(new_nodes@) == nodes_cost(remaining) + nodes_cost(
                inner_nodes_seq.take(p as int),
            ),
        decreases inner_len - p,
    {
        let entry = &inner.nodes[p];
        let iid = entry.0;
        // The outer binding indices feeding this node's free-input slots.
        let mut feeds: Vec<usize> = Vec::new();
        let n_feeds_src = inner.inputs.len();
        let mut j: usize = 0;
        while j < n_feeds_src
            invariant
                j <= n_feeds_src,
                n_feeds_src == inner.inputs@.len(),
            decreases n_feeds_src - j,
        {
            if inner.inputs[j] == iid {
                feeds.push(j);
            }
            j = j + 1;
        }
        let mut new_inputs: Vec<NodeInput> = Vec::new();
        let ins = &entry.1.inputs;
        let n_ins = ins.len();
        let mut used: usize = 0;
        let mut j: usize = 0;
        while j < n_ins
            invariant
                j <= n_ins,
                used <= j,
                n_ins == ins@.len(),
            decreases n_ins - j,
        {
            match &ins[j] {
                NodeInput::Network(ty) => {
                    if used < feeds.len() && feeds[used] < removed_inputs.len() {
                        let binding = &removed_inputs[feeds[used]];
                        match binding {
                            NodeInput::Node { node_id, output_index, lazy } => {
                                let (new_ref, new_index) = map_ref(
                                    *node_id,
                                    *output_index,
                                    removed_id,
                                    &inner.outputs,
                                    &inner_ids,
                                    &outer_ids,
                                    m,
                                );
                                new_inputs.push(
                                    NodeInput::Node {
                                        node_id: new_ref,
                                        output_index: new_index,
                                        lazy: *lazy,
                                    },
                                );
                            },
                            other => {
                                new_inputs.push(clone_node_input(other));
                            },
                        }
                    } else {
                        new_inputs.push(NodeInput::Network(*ty));
                    }
                    used = used + 1;
                },
                NodeInput::Node { node_id, output_index, lazy } => {
                    let mapped: NodeInput = match pos_of(&inner_ids, *node_id) {
                        Option::Some(q) => {
                            match (m as u64).checked_add(q as u64) {
                                Option::Some(new_id) => NodeInput::Node {
                                    node_id: new_id,
                                    output_index: *output_index,
                                    lazy: *lazy,
                                },
                                Option::None => NodeInput::Node {
                                    node_id: *node_id,
                                    output_index: *output_index,
                                    lazy: *lazy,
                                },
                            }
                        },
                        Option::None => NodeInput::Node {
                            node_id: *node_id,
                            output_index: *output_index,
                            lazy: *lazy,
                        },
                    };
                    new_inputs.push(mapped);
                },
                other => {
                    new_inputs.push(clone_node_input(other));
                },
            }
            j = j + 1;
        }
        let new_id: NodeId = match (m as u64).checked_add(p as u64) {
            Option::Some(v) => v,
            Option::None => iid,
        };
        let rewritten = DocumentNode {
            name: entry.1.name.clone(),
            inputs: new_inputs,
            implementation: crate::document::clone_implementation(&entry.1.implementation),
            metadata: entry.1.metadata,
        };
        proof {
            lemma_counts_push(new_nodes@, (new_id, rewritten));
            lemma_impl_equiv_counts(rewritten, inner_nodes_seq[p as int].1);
            assert(inner_nodes_seq.take(p as int + 1).drop_last() =~= inner_nodes_seq.take(
                p as int,
            ));
            assert(inner_nodes_seq.take(p as int + 1).last() == inner_nodes_seq[p as int]);
        }
        new_nodes.push((new_id, rewritten));
        p = p + 1;
    }
    proof {
        assert(inner_nodes_seq.take(inner_len as int) =~= inner_nodes_seq);
    }

    // Outputs: redirected through the inner output table where they named
    // the removed node.
    let mut new_outputs: Vec<NodeOutput> = Vec::new();
    let n_outs = old_outputs.len();
    let mut i: usize = 0;
    while i < n_outs
        invariant
            i <= n_outs,
            n_outs == old_outputs@.len(),
            new_outputs@.len() == i,
        decreases n_outs - i,
    {
        let out = old_outputs[i];
        let (new_id, new_index) = map_ref(
            out.node_id,
            out.node_output_index,
            removed_id,
            &inner.outputs,
            &inner_ids,
            &outer_ids,
            m,
        );
        new_outputs.push(NodeOutput { node_id: new_id, node_output_index: new_index });
        i = i + 1;
    }

    // The free-input list is recomputed from the remaining free slots: one
    // entry per slot, naming the node that consumes it.
    let mut new_inputs_list: Vec<NodeId> = Vec::new();
    let total = new_nodes.len();
    let mut i: usize = 0;
    while i < total
        invariant
            i <= total,
            total == new_nodes@.len(),
        decreases total - i,
    {
        let entry = &new_nodes[i];
        let n_ins = entry.1.inputs.len();
        let mut j: usize = 0;
        while j < n_ins
            invariant
                j <= n_ins,
                n_ins == entry.1.inputs@.len(),
            decreases n_ins - j,
        {
            match &entry.1.inputs[j] {
                NodeInput::Network(_) => {
                    new_inputs_list.push(entry.0);
                },
                _ => {},
            }
            j = j + 1;
        }
        i = i + 1;
    }

    proof {
        lemma_counts_remove(orig_nodes, k as int);
    }
    NodeNetwork { inputs: new_inputs_list, outputs: new_outputs, nodes: new_nodes }
}

/// Nodes with equal implementations stand for the same primitive count and
/// structural cost.
proof fn lemma_impl_equiv_counts(a: DocumentNode, b: DocumentNode)
    requires
        implementation_equiv(a.implementation, b.implementation),
    ensures
        node_prim(a) == node_prim(b),
        node_cost(a) == node_cost(b),
    decreases a,
{
    match a.implementation {
        DocumentNodeImplementation::Network(x) => {
            match b.implementation {
                DocumentNodeImplementation::Network(y) => {
                    lemma_nodes_equiv_counts(x.nodes@, y.nodes@);
                },
                _ => {},
            }
        },
        _ => {},
    }
}

/// Deep-equal node maps have the same counts.
proof fn lemma_nodes_equiv_counts(
    a: Seq<(NodeId, DocumentNode)>,
    b: Seq<(NodeId, DocumentNode)>,
)
    requires
        crate::document::nodes_equiv(a, b),
    ensures
        nodes_prim(a) == nodes_prim(b),
        nodes_cost(a) == nodes_cost(b),
    decreases a,
{
    if a.len() > 0 {
        assert(crate::document::nodes_equiv(a.drop_last(), b.drop_last()));
        lemma_nodes_equiv_counts(a.drop_last(), b.drop_last());
        assert(document_node_equiv(a.last().1, b.last().1));
        lemma_node_equiv_counts(a.last().1, b.last().1);
    }
}

/// Deep-equal nodes have the same counts.
proof fn lemma_node_equiv_counts(a: DocumentNode, b: DocumentNode)
    requires
        document_node_equiv(a, b),
    ensures
        node_prim(a) == node_prim(b),
        node_cost(a) == node_cost(b),
    decreases a,
{
    match a.implementation {
        DocumentNodeImplementation::Network(x) => {
            match b.implementation {
                DocumentNodeImplementation::Network(y) => {
                    lemma_nodes_equiv_counts(x.nodes@, y.nodes@);
                },
                _ => {},
            }
        },
        _ => {},
    }
}

/// Flattens a network: nested sub-network implementations are inlined, one
/// at a time, until every node is primitive. Each step removes one nesting
/// wrapper and keeps the total primitive count, so the recursion terminates
/// for every finite nesting depth, and the flat result holds exactly the
/// network's primitive nodes. A network that is already flat is returned
/// unchanged.
pub fn flatten_network(net: NodeNetwork) -> (r: NodeNetwork)
    ensures
        network_flat(r),
        nodes_prim(r.nodes@) == nodes_prim(net.nodes@),
        r.nodes@.len() == nodes_prim(net.nodes@),
        r.outputs@.len() == net.outputs@.len(),
        network_flat(net) ==> r == net,
    decreases nodes_cost(net.nodes@),
{
    match find_nested(&net.nodes) {
        Option::None => {
            proof {
                lemma_prim_flat(net.nodes@);
            }
            net
        },
        Option::Some(k) => {
            proof {
                assert(!node_flat(net.nodes@[k as int].1));
            }
            let ghost old_nodes = net.nodes@;
            let reduced = inline_at(net, k);
            flatten_network(reduced)
        },
    }
}

/// The consumers of one node's free-input slots: its identifier, once per
/// `Network` slot, in slot order.
pub open spec fn node_consumers(id: NodeId, inputs: Seq<NodeInput>) -> Seq<NodeId>
    decreases inputs.len(),
{
    if inputs.len() == 0 {
        Seq::empty()
    } else {
        node_consumers(id, inputs.drop_last()) + (if inputs.last() is Network {
            seq![id]
        } else {
            Seq::<NodeId>::empty()
        })
    }
}

/// The recorded free-input list of a node map: for every free-input slot,
/// in node order and slot order, the identifier of the consuming node.
pub open spec fn free_consumers(s: Seq<(NodeId, DocumentNode)>) -> Seq<NodeId>
    decreases s.len(),
{
    if s.len() == 0 {
        Seq::empty()
    } else {
        free_consumers(s.drop_last()) + node_consumers(s.last().0, s.last().1.inputs@)
    }
}

/// How many free-input slots stand before position `j` in an input list.
pub open spec fn slots_before(inputs: Seq<NodeInput>, j: int) -> int
    decreases j,
{
    if j <= 0 {
        0
    } else {
        slots_before(inputs, j - 1) + (if 0 <= j - 1 < inputs.len() && inputs[j - 1]
            is Network {
            1int
        } else {
            0
        })
    }
}

/// How many of a nested network's free-input slots on the node with this
/// identifier are fed by the enclosing node's bindings: one per entry of the
/// recorded free-input list that names the node and lies below the binding
/// count.
pub open spec fn fed_count(consumers: Seq<NodeId>, n_bindings: int, id: NodeId) -> int
    decreases consumers.len(),
{
    if consumers.len() == 0 {
        0
    } else {
        fed_count(consumers.drop_last(), n_bindings, id) + (if consumers.len() - 1 < n_bindings
            && consumers.last() == id {
            1int
        } else {
            0
        })
    }
}

/// Every free-input slot of the node that survives flattening declares the
/// named type. The node's first `fed` slots are fed by the enclosing
/// bindings and vanish; the rest survive. Slots of a nested implementation
/// survive according to the same rule, with the nested network's recorded
/// free-input list deciding which of them this node's bindings feed.
pub open spec fn node_survivors_named(n: DocumentNode, fed: int, tname: Seq<char>) -> bool
    decreases n,
{
    (forall|j: int|
        0 <= j < n.inputs@.len() ==> match #[trigger] n.inputs@[j] {
            NodeInput::Network(ty) => slots_before(n.inputs@, j) >= fed ==> ty.name@ == tname,
            _ => true,
        }) && match n.implementation {
        DocumentNodeImplementation::Network(inner) => forall|i: int|
            0 <= i < inner.nodes@.len() ==> node_survivors_named(
                (#[trigger] inner.nodes@[i]).1,
                fed_count(inner.inputs@, n.inputs@.len() as int, inner.nodes@[i].0),
                tname,
            ),
        _ => true,
    }
}

/// Every free-input slot of the map that survives flattening declares the
/// named type; nothing feeds the top-level slots.
pub open spec fn survivors_named(s: Seq<(NodeId, DocumentNode)>, tname: Seq<char>) -> bool {
    forall|i: int| 0 <= i < s.len() ==> node_survivors_named((#[trigger] s[i]).1, 0, tname)
}

/// The free-input slots that survive flattening all declare one and the
/// same type: a network whose surviving slots mix two declared types cannot
/// be wrapped in a scope, since one shared value must feed every slot.
pub open spec fn free_types_uniform_surviving(s: Seq<(NodeId, DocumentNode)>) -> bool {
    exists|tname: Seq<char>| survivors_named(s, tname)
}

/// Some node of the map still has a free-input slot.
pub open spec fn has_free_slot(s: Seq<(NodeId, DocumentNode)>) -> bool {
    exists|i: int, j: int|
        0 <= i < s.len() && 0 <= j < s[i].1.inputs@.len() && (#[trigger] s[i].1.inputs@[j])
            is Network
}

/// Some free-input slot of the map declares a type with this name.
pub open spec fn some_slot_named(s: Seq<(NodeId, DocumentNode)>, tname: Seq<char>) -> bool {
    exists|i: int, j: int|
        0 <= i < s.len() && 0 <= j < s[i].1.inputs@.len() && ((#[trigger] s[i].1.inputs@[j])
            matches NodeInput::Network(ty) && ty.name@ == tname)
}

/// Some free-input slot exists in the input list prefix.
pub open spec fn has_slot_in(inputs: Seq<NodeInput>) -> bool {
    exists|j: int| 0 <= j < inputs.len() && (#[trigger] inputs[j]) is Network
}

/// Walks every node's input slots: collects, per free-input slot, the
/// identifier of the consuming node, and remembers the first free slot.
fn scan_free(nodes: &Vec<(NodeId, DocumentNode)>) -> (r: (Vec<NodeId>, Option<NodeInput>))
    ensures
        r.0@ == free_consumers(nodes@),
        (r.1 is None) == (r.0@.len() == 0),
        (r.0@.len() == 0) == !has_free_slot(nodes@),
        r.1 matches Option::Some(x) ==> (x matches NodeInput::Network(ty) && some_slot_named(
            nodes@,
            ty.name@,
        )),
{
    let mut collected: Vec<NodeId> = Vec::new();
    let mut first: Option<NodeInput> = Option::None;
    let n = nodes.len();
    let mut i: usize = 0;
    proof {
        assert(nodes@.take(0) =~= Seq::<(NodeId, DocumentNode)>::empty());
    }
    while i < n
        invariant
            i <= n,
            n == nodes@.len(),
            collected@ == free_consumers(nodes@.take(i as int)),
            (first is None) == (collected@.len() == 0),
            (collected@.len() == 0) == !has_free_slot(nodes@.take(i as int)),
            first matches Option::Some(x) ==> (x matches NodeInput::Network(ty)
                && some_slot_named(nodes@, ty.name@)),
        decreases n - i,
    {
        let entry = &nodes[i];
        let n_ins = entry.1.inputs.len();
        let mut j: usize = 0;
        proof {
            assert(nodes@[i as int].1.inputs@.take(0) =~= Seq::<NodeInput>::empty());
            assert(collected@ + node_consumers(
                nodes@[i as int].0,
                nodes@[i as int].1.inputs@.take(0),
            ) =~= collected@);
        }
        while j < n_ins
            invariant
                j <= n_ins,
                i < n,
                n == nodes@.len(),
                n_ins == nodes@[i as int].1.inputs@.len(),
                entry == nodes@[i as int],
                collected@ == free_consumers(nodes@.take(i as int)) + node_consumers(
                    nodes@[i as int].0,
                    nodes@[i as int].1.inputs@.take(j as int),
                ),
                (first is None) == (collected@.len() == 0),
                (collected@.len() == 0) == !(has_free_slot(nodes@.take(i as int)) || has_slot_in(
                    nodes@[i as int].1.inputs@.take(j as int),
                )),
                first matches Option::Some(x) ==> (x matches NodeInput::Network(ty)
                    && some_slot_named(nodes@, ty.name@)),
            decreases n_ins - j,
        {
            match &entry.1.inputs[j] {
                NodeInput::Network(ty) => {
                    if first.is_none() {
                        first = Option::Some(NodeInput::Network(*ty));
                        proof {
                            assert(nodes@[i as int].1.inputs@[j as int] matches
                                NodeInput::Network(t0) && t0.name@ == ty.name@);
                            assert(some_slot_named(nodes@, ty.name@));
                        }
                    }
                    collected.push(entry.0);
                    proof {
                        let pre = nodes@[i as int].1.inputs@.take(j as int);
                        let post = nodes@[i as int].1.inputs@.take(j as int + 1);
                        assert(post.drop_last() =~= pre);
                        assert(post.last() == nodes@[i as int].1.inputs@[j as int]);
                        assert(post[j as int] is Network);
                        assert(has_slot_in(post));
                        assert(collected@ =~= free_consumers(nodes@.take(i as int))
                            + node_consumers(nodes@[i as int].0, post));
                    }
                },
                _ => {
                    proof {
                        let pre = nodes@[i as int].1.inputs@.take(j as int);
                        let post = nodes@[i as int].1.inputs@.take(j as int + 1);
                        assert(post.drop_last() =~= pre);
                        assert(post.last() == nodes@[i as int].1.inputs@[j as int]);
                        assert(collected@ =~= free_consumers(nodes@.take(i as int))
                            + node_consumers(nodes@[i as int].0, post));
                        assert(forall|q: int| 0 <= q < j ==> post[q] == pre[q]);
                        assert(has_slot_in(post) == has_slot_in(pre)) by {
                            if has_slot_in(post) {
                                let q = choose|q: int|
                                    0 <= q < post.len() && post[q] is Network;
                                assert(post[j as int] == nodes@[i as int].1.inputs@[j as int]);
                                assert(q < j);
                                assert(pre[q] is Network);
                            }
                            if has_slot_in(pre) {
                                let q = choose|q: int| 0 <= q < pre.len() && pre[q] is Network;
                                assert(post[q] is Network);
                            }
                        };
                    }
                },
            }
            j = j + 1;
        }
        proof {
            let pre = nodes@.take(i as int);
            let post = nodes@.take(i as int + 1);
            let full_inputs = nodes@[i as int].1.inputs@;
            assert(full_inputs.take(j as int) =~= full_inputs);
            assert(post.drop_last() =~= pre);
            assert(post.last() == nodes@[i as int]);
            assert(collected@ =~= free_consumers(post));
            assert((has_free_slot(pre) || has_slot_in(full_inputs)) == has_free_slot(post)) by {
                if has_free_slot(pre) {
                    let (a, b) = choose|a: int, b: int|
                        0 <= a < pre.len() && 0 <= b < pre[a].1.inputs@.len() && pre[a].1.inputs@[b]
                            is Network;
                    assert(post[a] == pre[a]);
                    assert(has_free_slot(post));
                }
                if has_slot_in(full_inputs) {
                    let b = choose|b: int|
                        0 <= b < full_inputs.len() && full_inputs[b] is Network;
                    assert(post[i as int] == nodes@[i as int]);
                    assert(has_free_slot(post));
                }
                if has_free_slot(post) {
                    let (a, b) = choose|a: int, b: int|
                        0 <= a < post.len() && 0 <= b < post[a].1.inputs@.len()
                            && post[a].1.inputs@[b] is Network;
                    if a < i as int {
                        assert(pre[a] == post[a]);
                        assert(has_free_slot(pre));
                    } else {
                        assert(post[a] == nodes@[i as int]);
                        assert(has_slot_in(full_inputs));
                    }
                }
            };
        }
        i = i + 1;
    }
    proof {
        assert(nodes@.take(n as int) =~= nodes@);
    }
    (collected, first)
}

/// Wraps a network so that a single externally supplied value can feed every
/// remaining free-input slot: the network is flattened, its free-input
/// consumers are collected, and, when any exist, the network is placed
/// between a "Begin Scope" node binding the shared input and an "End Scope"
/// node yielding the result. A network without free inputs is returned
/// without wrapping.
pub fn wrap_network_in_scope(network: NodeNetwork, registry: &NodeTypeRegistry) -> (r: NodeNetwork)
    requires
        resolves_with_inputs(*registry, "Begin Scope"@, 1),
        resolves_with_inputs(*registry, "End Scope"@, 2),
        free_types_uniform_surviving(network.nodes@),
    ensures
        (network_flat(network) && !has_free_slot(network.nodes@) && network.inputs@.len() == 0)
            ==> r == network,
        (network_flat(network) && has_free_slot(network.nodes@)) ==> ({
            &&& r.nodes@.len() == 3
            &&& r.inputs@.len() == 1 && r.inputs@[0] == 0u64
            &&& r.outputs@.len() == 1 && r.outputs@[0] == (NodeOutput {
                node_id: 2,
                node_output_index: 0,
            })
            &&& r.nodes@[0].0 == 0 && r.nodes@[0].1.name@ == "Begin Scope"@
            &&& r.nodes@[0].1.inputs@.len() == 1
            &&& (r.nodes@[0].1.inputs@[0] matches NodeInput::Network(ty) && some_slot_named(
                network.nodes@,
                ty.name@,
            ))
            &&& r.nodes@[1].0 == 1 && r.nodes@[1].1.name@ == "Scope"@
            &&& r.nodes@[1].1.inputs@.len() == free_consumers(network.nodes@).len()
            &&& (forall|k: int|
                0 <= k < r.nodes@[1].1.inputs@.len() ==> (#[trigger] r.nodes@[1].1.inputs@[k])
                    == (NodeInput::Node { node_id: 0, output_index: 1, lazy: false }))
            &&& (r.nodes@[1].1.implementation matches DocumentNodeImplementation::Network(inner)
                && inner.nodes@ == network.nodes@ && inner.inputs@ == free_consumers(
                    network.nodes@,
                ))
            &&& r.nodes@[2].0 == 2 && r.nodes@[2].1.name@ == "End Scope"@
            &&& r.nodes@[2].1.inputs@.len() == 2
            &&& r.nodes@[2].1.inputs@[0] == (NodeInput::Node {
                node_id: 0,
                output_index: 0,
                lazy: false,
            })
            &&& r.nodes@[2].1.inputs@[1] == (NodeInput::Node {
                node_id: 1,
                output_index: 0,
                lazy: false,
            })
        }),
        ({
            ||| (network_flat(r) && !has_free_slot(r.nodes@) && r.inputs@.len() == 0
                && nodes_prim(r.nodes@) == nodes_prim(network.nodes@) && r.nodes@.len()
                == nodes_prim(network.nodes@) && r.outputs@.len() == network.outputs@.len())
            ||| ({
                &&& r.nodes@.len() == 3
                &&& r.inputs@.len() == 1 && r.inputs@[0] == 0u64
                &&& r.outputs@.len() == 1 && r.outputs@[0] == (NodeOutput {
                    node_id: 2,
                    node_output_index: 0,
                })
                &&& r.nodes@[0].0 == 0 && r.nodes@[0].1.name@ == "Begin Scope"@
                &&& r.nodes@[0].1.inputs@.len() == 1
                &&& r.nodes@[1].0 == 1 && r.nodes@[1].1.name@ == "Scope"@
                &&& r.nodes@[2].0 == 2 && r.nodes@[2].1.name@ == "End Scope"@
                &&& r.nodes@[2].1.inputs@.len() == 2
                &&& r.nodes@[2].1.inputs@[0] == (NodeInput::Node {
                    node_id: 0,
                    output_index: 0,
                    lazy: false,
                })
                &&& r.nodes@[2].1.inputs@[1] == (NodeInput::Node {
                    node_id: 1,
                    output_index: 0,
                    lazy: false,
                })
                &&& (r.nodes@[1].1.implementation matches DocumentNodeImplementation::Network(
                    inner,
                ) && network_flat(inner) && nodes_prim(inner.nodes@) == nodes_prim(
                    network.nodes@,
                ) && inner.nodes@.len() == nodes_prim(network.nodes@) && inner.outputs@.len()
                    == network.outputs@.len() && has_free_slot(inner.nodes@) && inner.inputs@
                    == free_consumers(inner.nodes@) && r.nodes@[1].1.inputs@.len()
                    == free_consumers(inner.nodes@).len() && (forall|k: int|
                    0 <= k < r.nodes@[1].1.inputs@.len() ==> (#[trigger] r.nodes@[1].1.inputs@[k])
                        == (NodeInput::Node { node_id: 0, output_index: 1, lazy: false }))
                    && (r.nodes@[0].1.inputs@[0] matches NodeInput::Network(ty)
                    && some_slot_named(inner.nodes@, ty.name@)))
            })
        }),
{
    let ghost given = network;
    let mut network = flatten_network(network);
    let (network_inputs, first) = scan_free(&network.nodes);
    let len = network_inputs.len();
    if len == 0 {
        if network.inputs.len() > 0 {
            network.inputs = network_inputs;
        }
        return network;
    }
    network.inputs = network_inputs;
    let input_type: NodeInput = match first {
        Option::Some(x) => x,
        Option::None => {
            proof {
                assert(false);
            }
            NodeInput::value(TaggedValue::Null, false)
        },
    };
    let begin_scope = resolve_document_node_type(registry, "Begin Scope");
    let end_scope = resolve_document_node_type(registry, "End Scope");
    proof {
        lemma_resolve_spec_name(registry.types@, "Begin Scope"@);
        lemma_resolve_spec_name(registry.types@, "End Scope"@);
    }
    match (begin_scope, end_scope) {
        (Option::Some(begin_scope), Option::Some(end_scope)) => {
            let mut scope_inputs: Vec<NodeInput> = Vec::new();
            let mut i: usize = 0;
            while i < len
                invariant
                    i <= len,
                    scope_inputs@.len() == i,
                    forall|k: int|
                        0 <= k < i ==> (#[trigger] scope_inputs@[k]) == (NodeInput::Node {
                            node_id: 0,
                            output_index: 1,
                            lazy: false,
                        }),
                decreases len - i,
            {
                scope_inputs.push(NodeInput::node(0, 1));
                i = i + 1;
            }
            let inner_node = DocumentNode {
                name: String::from_str("Scope"),
                inputs: scope_inputs,
                implementation: DocumentNodeImplementation::Network(network),
                metadata: DocumentNodeMetadata::origin(),
            };
            let begin = begin_scope.to_document_node(
                vec![input_type],
                DocumentNodeMetadata::origin(),
            );
            let end = end_scope.to_document_node(
                vec![NodeInput::node(0, 0), NodeInput::node(1, 0)],
                DocumentNodeMetadata::origin(),
            );
            proof {
                reveal_strlit("Scope");
            }
            NodeNetwork {
                inputs: vec![0],
                outputs: vec![NodeOutput { node_id: 2, node_output_index: 0 }],
                nodes: vec![(0, begin), (1, inner_node), (2, end)],
            }
        },
        _ => {
            proof {
                assert(false);
            }
            network
        },
    }
}

/// A chained instance of a descriptor: as many input slots as the
/// descriptor declares, every slot after the first carrying the
/// descriptor's default binding (the first is rewired to the predecessor).
pub open spec fn chained_defaults(n: DocumentNode, d: DocumentNodeType) -> bool {
    n.inputs@.len() == d.inputs@.len() && forall|i: int|
        1 <= i < d.inputs@.len() ==> node_input_equiv(
            #[trigger] n.inputs@[i],
            d.inputs@[i].default,
        )
}

/// Lookup succeeded for a name and the found descriptor declares exactly
/// `n_inputs` input slots.
pub open spec fn resolves_with_inputs(
    reg: NodeTypeRegistry,
    name: Seq<char>,
    n_inputs: int,
) -> bool {
    match resolve_spec(reg.types@, name) {
        Option::Some(d) => d.inputs@.len() == n_inputs,
        Option::None => false,
    }
}

/// Whatever descriptor a lookup finds bears the looked-up name.
pub proof fn lemma_resolve_spec_name(types: Seq<DocumentNodeType>, name: Seq<char>)
    ensures
        resolve_spec(types, name) matches Option::Some(d) ==> d.name@ == name,
    decreases types.len(),
{
    if types.len() > 0 && types[0].name@ != name {
        lemma_resolve_spec_name(types.drop_first(), name);
    }
}

/// Builds the initial two-node network for an image document: an editor
/// input frame feeding the output sink.
pub fn new_image_network(
    output_offset: i32,
    output_node_id: NodeId,
    registry: &NodeTypeRegistry,
) -> (r: NodeNetwork)
    requires
        resolve_spec(registry.types@, "Input Frame"@) is Some,
        resolves_with_inputs(*registry, "Output"@, 1),
        output_offset <= 0x7fff_fff0,
    ensures
        r.inputs@ =~= seq![0u64],
        r.nodes@.len() == 2,
        r.nodes@[0].0 == 0 && r.nodes@[0].1.name@ == "Input Frame"@,
        r.nodes@[1].0 == 1 && r.nodes@[1].1.name@ == "Output"@,
        r.nodes@[1].1.inputs@ =~= seq![
            NodeInput::Node { node_id: output_node_id, output_index: 0, lazy: false },
        ],
        r.outputs@ =~= seq![NodeOutput { node_id: 1, node_output_index: 0 }],
        r.nodes@[0].1.metadata.position == (crate::geom::IVec2 { x: 8, y: 4 }),
        r.nodes@[1].1.metadata.position == (crate::geom::IVec2 {
            x: (output_offset + 8) as i32,
            y: 4,
        }),
        ({
            let d = resolve_spec(registry.types@, "Input Frame"@)->0;
            r.nodes@[0].1.inputs@.len() == d.inputs@.len() && forall|i: int|
                0 <= i < d.inputs@.len() ==> node_input_equiv(
                    #[trigger] r.nodes@[0].1.inputs@[i],
                    d.inputs@[i].default,
                )
        }),
{
    let input_frame = resolve_document_node_type(registry, "Input Frame");
    let output = resolve_document_node_type(registry, "Output");
    let mut network = NodeNetwork { inputs: vec![0], outputs: Vec::new(), nodes: Vec::new() };
    proof {
        lemma_resolve_spec_name(registry.types@, "Input Frame"@);
        lemma_resolve_spec_name(registry.types@, "Output"@);
    }
    match (input_frame, output) {
        (Option::Some(input_frame), Option::Some(output)) => {
            network.push_node(
                input_frame.to_document_node_default_inputs(
                    Vec::new(),
                    DocumentNodeMetadata::position(8, 4),
                ),
                false,
            );
            let ghost s1 = network.nodes@;
            network.push_node(
                output.to_document_node(
                    vec![NodeInput::node(output_node_id, 0)],
                    DocumentNodeMetadata::position(output_offset + 8, 4),
                ),
                false,
            );
            proof {
                assert(network.nodes@.subrange(0, 1) == s1);
                assert(network.nodes@.subrange(0, 1)[0] == network.nodes@[0]);
                assert(network.nodes@[1] == network.nodes@.last());
            }
            network
        },
        _ => {
            proof {
                assert(false);
            }
            network
        },
    }
}

/// Builds the five-node network for a vector document: a path generator
/// chained through transform, fill and stroke into the output sink.
pub fn new_vector_network(
    subpaths: Vec<crate::value::Subpath>,
    registry: &NodeTypeRegistry,
) -> (r: NodeNetwork)
    requires
        resolves_with_inputs(*registry, "Shape"@, 2),
        resolves_with_inputs(*registry, "Transform"@, 6),
        resolves_with_inputs(*registry, "Fill"@, 8),
        resolves_with_inputs(*registry, "Stroke"@, 8),
        resolves_with_inputs(*registry, "Output"@, 1),
    ensures
        r.inputs@ =~= seq![0u64],
        r.nodes@.len() == 5,
        r.nodes@[0].0 == 0 && r.nodes@[0].1.name@ == "Shape"@,
        r.nodes@[1].0 == 1 && r.nodes@[1].1.name@ == "Transform"@,
        r.nodes@[2].0 == 2 && r.nodes@[2].1.name@ == "Fill"@,
        r.nodes@[3].0 == 3 && r.nodes@[3].1.name@ == "Stroke"@,
        r.nodes@[4].0 == 4 && r.nodes@[4].1.name@ == "Output"@,
        r.outputs@ =~= seq![NodeOutput { node_id: 4, node_output_index: 0 }],
        forall|k: int|
            1 <= k <= 4 ==> (#[trigger] r.nodes@[k].1.inputs@[0]) == (NodeInput::Node {
                node_id: (k - 1) as NodeId,
                output_index: 0,
                lazy: false,
            }),
        r.nodes@[0].1.inputs@.len() == 2,
        node_input_equiv(
            r.nodes@[0].1.inputs@[0],
            NodeInput::Value { tagged_value: TaggedValue::Subpaths(subpaths), exposed: false },
        ),
        node_input_equiv(
            r.nodes@[0].1.inputs@[1],
            resolve_spec(registry.types@, "Shape"@)->0.inputs@[1].default,
        ),
        r.nodes@[0].1.metadata.position == (crate::geom::IVec2 { x: 0, y: 4 }),
        chained_defaults(r.nodes@[1].1, resolve_spec(registry.types@, "Transform"@)->0),
        chained_defaults(r.nodes@[2].1, resolve_spec(registry.types@, "Fill"@)->0),
        chained_defaults(r.nodes@[3].1, resolve_spec(registry.types@, "Stroke"@)->0),
        chained_defaults(r.nodes@[4].1, resolve_spec(registry.types@, "Output"@)->0),
{
    let path_generator = resolve_document_node_type(registry, "Shape");
    let transform = resolve_document_node_type(registry, "Transform");
    let fill = resolve_document_node_type(registry, "Fill");
    let stroke = resolve_document_node_type(registry, "Stroke");
    let output = resolve_document_node_type(registry, "Output");
    proof {
        lemma_resolve_spec_name(registry.types@, "Shape"@);
        lemma_resolve_spec_name(registry.types@, "Transform"@);
        lemma_resolve_spec_name(registry.types@, "Fill"@);
        lemma_resolve_spec_name(registry.types@, "Stroke"@);
        lemma_resolve_spec_name(registry.types@, "Output"@);
    }
    let mut network = NodeNetwork { inputs: vec![0], outputs: Vec::new(), nodes: Vec::new() };
    match (path_generator, transform, fill, stroke, output) {
        (
            Option::Some(path_generator),
            Option::Some(transform),
            Option::Some(fill),
            Option::Some(stroke),
            Option::Some(output),
        ) => {
            network.push_node(
                path_generator.to_document_node_default_inputs(
                    vec![
                        Option::Some(
                            NodeInput::value(TaggedValue::Subpaths(subpaths), false),
                        ),
                    ],
                    DocumentNodeMetadata::position(0, 4),
                ),
                false,
            );
            let ghost s1 = network.nodes@;
            network.push_node(
                transform.to_document_node_default_inputs(
                    vec![Option::None],
                    DocumentNodeMetadata::origin(),
                ),
                true,
            );
            let ghost s2 = network.nodes@;
            proof {
                assert(s2.subrange(0, 1) == s1);
                assert(s2.subrange(0, 1)[0] == s2[0]);
                assert(s2[1] == s2.last());
            }
            network.push_node(
                fill.to_document_node_default_inputs(
                    vec![Option::None],
                    DocumentNodeMetadata::origin(),
                ),
                true,
            );
            let ghost s3 = network.nodes@;
            proof {
                assert(s3.subrange(0, 2) == s2);
                assert(s3.subrange(0, 2)[0] == s3[0]);
                assert(s3.subrange(0, 2)[1] == s3[1]);
                assert(s3[2] == s3.last());
            }
            network.push_node(
                stroke.to_document_node_default_inputs(
                    vec![Option::None],
                    DocumentNodeMetadata::origin(),
                ),
                true,
            );
            let ghost s4 = network.nodes@;
            proof {
                assert(s4.subrange(0, 3) == s3);
                assert(s4.subrange(0, 3)[0] == s4[0]);
                assert(s4.subrange(0, 3)[1] == s4[1]);
                assert(s4.subrange(0, 3)[2] == s4[2]);
                assert(s4[3] == s4.last());
            }
            network.push_node(
                output.to_document_node_default_inputs(
                    vec![Option::None],
                    DocumentNodeMetadata::origin(),
                ),
                true,
            );
            proof {
                let s5 = network.nodes@;
                assert(s5.subrange(0, 4) == s4);
                assert(s5.subrange(0, 4)[0] == s5[0]);
                assert(s5.subrange(0, 4)[1] == s5[1]);
                assert(s5.subrange(0, 4)[2] == s5[2]);
                assert(s5.subrange(0, 4)[3] == s5[3]);
                assert(s5[4] == s5.last());
            }
            network
        },
        _ => {
            proof {
                assert(false);
            }
            network
        },
    }
}

/// Builds the five-node network for a text document: a text generator
/// chained through transform, fill and stroke into the output sink.
pub fn new_text_network(
    text: String,
    font: crate::value::Font,
    size: crate::fixed::Fixed,
    registry: &NodeTypeRegistry,
) -> (r: NodeNetwork)
    requires
        resolves_with_inputs(*registry, "Text"@, 4),
        resolves_with_inputs(*registry, "Transform"@, 6),
        resolves_with_inputs(*registry, "Fill"@, 8),
        resolves_with_inputs(*registry, "Stroke"@, 8),
        resolves_with_inputs(*registry, "Output"@, 1),
    ensures
        r.inputs@ =~= seq![0u64],
        r.nodes@.len() == 5,
        r.nodes@[0].0 == 0 && r.nodes@[0].1.name@ == "Text"@,
        r.nodes@[1].1.name@ == "Transform"@,
        r.nodes@[2].1.name@ == "Fill"@,
        r.nodes@[3].1.name@ == "Stroke"@,
        r.nodes@[4].1.name@ == "Output"@,
        r.outputs@ =~= seq![NodeOutput { node_id: 4, node_output_index: 0 }],
        r.nodes@[0].1.inputs@.len() == 4,
        (r.nodes@[0].1.inputs@[0] matches NodeInput::Network(ty) && ty.name@
            == "WasmEditorApi"@),
        r.nodes@[0].1.inputs@[1] == (NodeInput::Value {
            tagged_value: TaggedValue::String(text),
            exposed: false,
        }),
        r.nodes@[0].1.inputs@[2] == (NodeInput::Value {
            tagged_value: TaggedValue::Font(font),
            exposed: false,
        }),
        r.nodes@[0].1.inputs@[3] == (NodeInput::Value {
            tagged_value: TaggedValue::F64(size),
            exposed: false,
        }),
        r.nodes@[0].1.metadata.position == (crate::geom::IVec2 { x: 0, y: 4 }),
        forall|k: int|
            1 <= k <= 4 ==> (#[trigger] r.nodes@[k].1.inputs@[0]) == (NodeInput::Node {
                node_id: (k - 1) as NodeId,
                output_index: 0,
                lazy: false,
            }),
        chained_defaults(r.nodes@[1].1, resolve_spec(registry.types@, "Transform"@)->0),
        chained_defaults(r.nodes@[2].1, resolve_spec(registry.types@, "Fill"@)->0),
        chained_defaults(r.nodes@[3].1, resolve_spec(registry.types@, "Stroke"@)->0),
        chained_defaults(r.nodes@[4].1, resolve_spec(registry.types@, "Output"@)->0),
{
    let text_generator = resolve_document_node_type(registry, "Text");
    let transform = resolve_document_node_type(registry, "Transform");
    let fill = resolve_document_node_type(registry, "Fill");
    let stroke = resolve_document_node_type(registry, "Stroke");
    let output = resolve_document_node_type(registry, "Output");
    proof {
        lemma_resolve_spec_name(registry.types@, "Text"@);
        lemma_resolve_spec_name(registry.types@, "Transform"@);
        lemma_resolve_spec_name(registry.types@, "Fill"@);
        lemma_resolve_spec_name(registry.types@, "Stroke"@);
        lemma_resolve_spec_name(registry.types@, "Output"@);
    }
    let mut network = NodeNetwork { inputs: vec![0], outputs: Vec::new(), nodes: Vec::new() };
    match (text_generator, transform, fill, stroke, output) {
        (
            Option::Some(text_generator),
            Option::Some(transform),
            Option::Some(fill),
            Option::Some(stroke),
            Option::Some(output),
        ) => {
            network.push_node(
                text_generator.to_document_node(
                    vec![
                        NodeInput::Network(crate::value::Type::concrete("WasmEditorApi")),
                        NodeInput::value(TaggedValue::String(text), false),
                        NodeInput::value(TaggedValue::Font(font), false),
                        NodeInput::value(TaggedValue::F64(size), false),
                    ],
                    DocumentNodeMetadata::position(0, 4),
                ),
                false,
            );
            let ghost s1 = network.nodes@;
            network.push_node(
                transform.to_document_node_default_inputs(
                    vec![Option::None],
                    DocumentNodeMetadata::origin(),
                ),
                true,
            );
            let ghost s2 = network.nodes@;
            proof {
                assert(s2.subrange(0, 1) == s1);
                assert(s2.subrange(0, 1)[0] == s2[0]);
                assert(s2[1] == s2.last());
            }
            network.push_node(
                fill.to_document_node_default_inputs(
                    vec![Option::None],
                    DocumentNodeMetadata::origin(),
                ),
                true,
            );
            let ghost s3 = network.nodes@;
            proof {
                assert(s3.subrange(0, 2) == s2);
                assert(s3.subrange(0, 2)[0] == s3[0]);
                assert(s3.subrange(0, 2)[1] == s3[1]);
                assert(s3[2] == s3.last());
            }
            network.push_node(
                stroke.to_document_node_default_inputs(
                    vec![Option::None],
                    DocumentNodeMetadata::origin(),
                ),
                true,
            );
            let ghost s4 = network.nodes@;
            proof {
                assert(s4.subrange(0, 3) == s3);
                assert(s4.subrange(0, 3)[0] == s4[0]);
                assert(s4.subrange(0, 3)[1] == s4[1]);
                assert(s4.subrange(0, 3)[2] == s4[2]);
                assert(s4[3] == s4.last());
            }
            network.push_node(
                output.to_document_node_default_inputs(
                    vec![Option::None],
                    DocumentNodeMetadata::origin(),
                ),
                true,
            );
            proof {
                let s5 = network.nodes@;
                assert(s5.subrange(0, 4) == s4);
                assert(s5.subrange(0, 4)[0] == s5[0]);
                assert(s5.subrange(0, 4)[1] == s5[1]);
                assert(s5.subrange(0, 4)[2] == s5[2]);
                assert(s5.subrange(0, 4)[3] == s5[3]);
                assert(s5[4] == s5.last());
            }
            network
        },
        _ => {
            proof {
                assert(false);
            }
            network
        },
    }
}

} // verus!
