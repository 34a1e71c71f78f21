use node_graph::compiler::{flatten_network, wrap_network_in_scope};
use node_graph::document::{
    clone_network, DocumentNode, DocumentNodeImplementation, DocumentNodeMetadata, NodeInput,
    NodeNetwork, NodeOutput,
};
use node_graph::fixed::Fixed;
use node_graph::registry::{resolve_document_node_type, NodeTypeRegistry};
use node_graph::value::{TaggedValue, Type};

fn primitive_node(name: &str, inputs: Vec<NodeInput>) -> DocumentNode {
    DocumentNode {
        name: name.to_string(),
        inputs,
        implementation: DocumentNodeImplementation::proto("graphene_core::ops::IdNode"),
        metadata: DocumentNodeMetadata::origin(),
    }
}

#[test]
fn instantiate_carries_given_inputs() {
    let registry = NodeTypeRegistry::new();
    let d = resolve_document_node_type(&registry, "Value").unwrap();
    let node = d.to_document_node(
        vec![NodeInput::value(TaggedValue::F32(Fixed::from_int(7)), false)],
        DocumentNodeMetadata::origin(),
    );
    assert_eq!(node.name, "Value");
    assert_eq!(node.inputs.len(), 1);
    match &node.implementation {
        DocumentNodeImplementation::Unresolved(id) => {
            assert_eq!(id.name, "graphene_core::ops::IdNode")
        }
        other => panic!("wrong implementation: {:?}", other),
    }
}

#[test]
fn instantiate_with_defaults_fills_missing_slots() {
    let registry = NodeTypeRegistry::new();
    let d = resolve_document_node_type(&registry, "Blend").unwrap();
    // Override only the second slot; the other three fall back to defaults.
    let node = d.to_document_node_default_inputs(
        vec![
            None,
            Some(NodeInput::node(9, 0)),
        ],
        DocumentNodeMetadata::origin(),
    );
    assert_eq!(node.inputs.len(), 4);
    match &node.inputs[1] {
        NodeInput::Node { node_id, output_index, lazy } => {
            assert_eq!((*node_id, *output_index, *lazy), (9, 0, false));
        }
        other => panic!("override not applied: {:?}", other),
    }
    match &node.inputs[3] {
        NodeInput::Value { tagged_value: TaggedValue::F32(x), .. } => {
            assert_eq!(x.micros, 100_000_000)
        }
        other => panic!("default not applied: {:?}", other),
    }
}

#[test]
fn instantiate_extract_marker() {
    let registry = NodeTypeRegistry::new();
    let d = resolve_document_node_type(&registry, "Extract").unwrap();
    let node = d.to_document_node_default_inputs(vec![], DocumentNodeMetadata::origin());
    assert!(matches!(node.implementation, DocumentNodeImplementation::Extract));
}

#[test]
fn new_vector_network_shape() {
    // An empty subpath list yields the five-node generator chain whose final
    // output references the fifth node's primary output.
    let registry = NodeTypeRegistry::new();
    let network = node_graph::compiler::new_vector_network(vec![], &registry);
    assert_eq!(network.nodes.len(), 5);
    let names: Vec<&str> = network.nodes.iter().map(|(_, n)| n.name.as_str()).collect();
    assert_eq!(names, vec!["Shape", "Transform", "Fill", "Stroke", "Output"]);
    assert_eq!(network.outputs, vec![NodeOutput::new(4, 0)]);
    assert_eq!(network.inputs, vec![0]);
    for k in 1..5u64 {
        match &network.nodes[k as usize].1.inputs[0] {
            NodeInput::Node { node_id, output_index, .. } => {
                assert_eq!((*node_id, *output_index), (k - 1, 0));
            }
            other => panic!("node {} not chained: {:?}", k, other),
        }
    }
}

#[test]
fn new_image_network_shape() {
    let registry = NodeTypeRegistry::new();
    let network = node_graph::compiler::new_image_network(8, 0, &registry);
    assert_eq!(network.nodes.len(), 2);
    assert_eq!(network.nodes[0].1.name, "Input Frame");
    assert_eq!(network.nodes[1].1.name, "Output");
    assert_eq!(network.outputs, vec![NodeOutput::new(1, 0)]);
}

#[test]
fn new_text_network_shape() {
    let registry = NodeTypeRegistry::new();
    let network = node_graph::compiler::new_text_network(
        "hi".to_string(),
        node_graph::value::Font::new("Merriweather".to_string(), "Normal (400)".to_string()),
        Fixed::from_int(24),
        &registry,
    );
    assert_eq!(network.nodes.len(), 5);
    assert_eq!(network.nodes[0].1.name, "Text");
    assert_eq!(network.nodes[0].1.inputs.len(), 4);
    assert_eq!(network.outputs, vec![NodeOutput::new(4, 0)]);
}

#[test]
fn wrap_without_free_inputs_is_identity() {
    // A flat network with no free inputs needs no scope and comes back
    // unchanged.
    let registry = NodeTypeRegistry::new();
    let network = NodeNetwork {
        inputs: vec![],
        outputs: vec![NodeOutput::new(1, 0)],
        nodes: vec![
            (0, primitive_node("a", vec![NodeInput::value(TaggedValue::Bool(true), false)])),
            (1, primitive_node("b", vec![NodeInput::node(0, 0)])),
        ],
    };
    let copy = clone_network(&network);
    let wrapped = wrap_network_in_scope(network, &registry);
    assert_eq!(format!("{:?}", wrapped), format!("{:?}", copy));
}

#[test]
fn wrap_with_free_input_builds_three_node_scope() {
    // One free-input-consuming node yields the begin/inner/end wrapper whose
    // first node takes the network's free-input type and whose output list
    // has exactly one entry.
    let registry = NodeTypeRegistry::new();
    let ty = Type::concrete("WasmEditorApi");
    let network = NodeNetwork {
        inputs: vec![0],
        outputs: vec![NodeOutput::new(0, 0)],
        nodes: vec![(0, primitive_node("consumer", vec![NodeInput::Network(ty)]))],
    };
    let wrapped = wrap_network_in_scope(network, &registry);
    assert_eq!(wrapped.nodes.len(), 3);
    assert_eq!(wrapped.outputs, vec![NodeOutput::new(2, 0)]);
    assert_eq!(wrapped.inputs, vec![0]);
    assert_eq!(wrapped.nodes[0].1.name, "Begin Scope");
    assert_eq!(wrapped.nodes[0].1.inputs.len(), 1);
    match &wrapped.nodes[0].1.inputs[0] {
        NodeInput::Network(t) => assert_eq!(t.name, "WasmEditorApi"),
        other => panic!("begin scope input is not the free-input type: {:?}", other),
    }
    assert_eq!(wrapped.nodes[1].1.name, "Scope");
    match &wrapped.nodes[1].1.implementation {
        DocumentNodeImplementation::Network(inner) => {
            assert_eq!(inner.nodes.len(), 1);
            assert_eq!(inner.inputs, vec![0]);
        }
        other => panic!("scope node holds no network: {:?}", other),
    }
    assert_eq!(wrapped.nodes[1].1.inputs.len(), 1);
    assert_eq!(wrapped.nodes[2].1.name, "End Scope");
    assert_eq!(wrapped.nodes[2].1.inputs.len(), 2);
}

#[test]
fn wrap_wires_every_consumer_to_the_scope_binding() {
    // Two free-input slots: the Scope node carries one reference to the
    // Begin Scope binding output per slot, and the inner network records
    // the consuming node per slot, in order.
    let registry = NodeTypeRegistry::new();
    let network = NodeNetwork {
        inputs: vec![3, 7],
        outputs: vec![NodeOutput::new(7, 0)],
        nodes: vec![
            (
                3,
                primitive_node(
                    "first",
                    vec![NodeInput::Network(Type::concrete("WasmEditorApi"))],
                ),
            ),
            (
                7,
                primitive_node(
                    "second",
                    vec![
                        NodeInput::node(3, 0),
                        NodeInput::Network(Type::concrete("WasmEditorApi")),
                    ],
                ),
            ),
        ],
    };
    let wrapped = wrap_network_in_scope(network, &registry);
    assert_eq!(wrapped.nodes.len(), 3);
    assert_eq!(wrapped.nodes[1].1.inputs.len(), 2);
    for input in &wrapped.nodes[1].1.inputs {
        match input {
            NodeInput::Node { node_id, output_index, lazy } => {
                assert_eq!((*node_id, *output_index, *lazy), (0, 1, false));
            }
            other => panic!("scope input is not the binding reference: {:?}", other),
        }
    }
    match &wrapped.nodes[1].1.implementation {
        DocumentNodeImplementation::Network(inner) => {
            assert_eq!(inner.inputs, vec![3, 7]);
        }
        other => panic!("scope node holds no network: {:?}", other),
    }
}

#[test]
fn new_text_network_embeds_its_arguments() {
    let registry = NodeTypeRegistry::new();
    let network = node_graph::compiler::new_text_network(
        "hello".to_string(),
        node_graph::value::Font::new("Merriweather".to_string(), "Normal (400)".to_string()),
        Fixed::from_int(24),
        &registry,
    );
    let text_inputs = &network.nodes[0].1.inputs;
    match &text_inputs[0] {
        NodeInput::Network(ty) => assert_eq!(ty.name, "WasmEditorApi"),
        other => panic!("missing editor-api free input: {:?}", other),
    }
    match &text_inputs[1] {
        NodeInput::Value { tagged_value: TaggedValue::String(s), exposed: false } => {
            assert_eq!(s, "hello")
        }
        other => panic!("text literal missing: {:?}", other),
    }
    match &text_inputs[2] {
        NodeInput::Value { tagged_value: TaggedValue::Font(f), exposed: false } => {
            assert_eq!(f.font_family, "Merriweather")
        }
        other => panic!("font literal missing: {:?}", other),
    }
    match &text_inputs[3] {
        NodeInput::Value { tagged_value: TaggedValue::F64(x), exposed: false } => {
            assert_eq!(x.micros, 24_000_000)
        }
        other => panic!("size literal missing: {:?}", other),
    }
    for k in 1..5u64 {
        match &network.nodes[k as usize].1.inputs[0] {
            NodeInput::Node { node_id, output_index, .. } => {
                assert_eq!((*node_id, *output_index), (k - 1, 0));
            }
            other => panic!("node {} not chained: {:?}", k, other),
        }
    }
}

#[test]
fn new_vector_network_keeps_descriptor_defaults() {
    // Every slot that the builder does not rewire carries the descriptor's
    // declared default.
    let registry = NodeTypeRegistry::new();
    let network = node_graph::compiler::new_vector_network(vec![], &registry);
    let transform = resolve_document_node_type(&registry, "Transform").unwrap();
    let built = &network.nodes[1].1;
    assert_eq!(built.inputs.len(), transform.inputs.len());
    for i in 1..transform.inputs.len() {
        assert_eq!(
            format!("{:?}", built.inputs[i]),
            format!("{:?}", transform.inputs[i].default)
        );
    }
}

#[test]
fn flatten_inlines_nested_networks() {
    let inner = NodeNetwork {
        inputs: vec![0],
        outputs: vec![NodeOutput::new(1, 0)],
        nodes: vec![
            (
                0,
                primitive_node(
                    "inner_a",
                    vec![NodeInput::Network(Type::concrete("f32"))],
                ),
            ),
            (1, primitive_node("inner_b", vec![NodeInput::node(0, 0)])),
        ],
    };
    let outer = NodeNetwork {
        inputs: vec![],
        outputs: vec![NodeOutput::new(1, 0)],
        nodes: vec![
            (
                0,
                primitive_node(
                    "value",
                    vec![NodeInput::value(TaggedValue::F32(Fixed::from_int(3)), false)],
                ),
            ),
            (
                1,
                DocumentNode {
                    name: "wrapper".to_string(),
                    inputs: vec![NodeInput::node(0, 0)],
                    implementation: DocumentNodeImplementation::Network(inner),
                    metadata: DocumentNodeMetadata::origin(),
                },
            ),
        ],
    };
    let flat = flatten_network(outer);
    assert_eq!(flat.nodes.len(), 3);
    assert!(flat.nodes.iter().all(|(_, n)| !matches!(
        n.implementation,
        DocumentNodeImplementation::Network(_)
    )));
    // The wrapper's binding replaced the inner free-input slot.
    let inner_a = flat.nodes.iter().find(|(_, n)| n.name == "inner_a").unwrap();
    match &inner_a.1.inputs[0] {
        NodeInput::Node { node_id, .. } => {
            let target = flat.nodes.iter().find(|(id, _)| id == node_id).unwrap();
            assert_eq!(target.1.name, "value");
        }
        other => panic!("free input not substituted: {:?}", other),
    }
    // The outer output follows the inner network's output node.
    let out_ref = flat.outputs[0];
    let out_node = flat.nodes.iter().find(|(id, _)| *id == out_ref.node_id).unwrap();
    assert_eq!(out_node.1.name, "inner_b");
}

#[test]
fn flatten_converges_over_deep_nesting() {
    // Three levels of nesting still converge to primitive-only nodes.
    let mut net = NodeNetwork {
        inputs: vec![],
        outputs: vec![NodeOutput::new(0, 0)],
        nodes: vec![(0, primitive_node("leaf", vec![]))],
    };
    for level in 0..3 {
        net = NodeNetwork {
            inputs: vec![],
            outputs: vec![NodeOutput::new(0, 0)],
            nodes: vec![(
                0,
                DocumentNode {
                    name: format!("level{}", level),
                    inputs: vec![],
                    implementation: DocumentNodeImplementation::Network(net),
                    metadata: DocumentNodeMetadata::origin(),
                },
            )],
        };
    }
    let flat = flatten_network(net);
    assert_eq!(flat.nodes.len(), 1);
    assert_eq!(flat.nodes[0].1.name, "leaf");
}

#[test]
fn wrap_flattens_nested_networks_first() {
    // A nested sub-network whose inner node consumes a free input is
    // flattened before wrapping, and the surviving free slot drives the
    // scope construction.
    let registry = NodeTypeRegistry::new();
    let inner = NodeNetwork {
        inputs: vec![0],
        outputs: vec![NodeOutput::new(0, 0)],
        nodes: vec![(
            0,
            primitive_node(
                "inner_consumer",
                vec![NodeInput::Network(Type::concrete("WasmEditorApi"))],
            ),
        )],
    };
    let outer = NodeNetwork {
        inputs: vec![0],
        outputs: vec![NodeOutput::new(0, 0)],
        nodes: vec![(
            0,
            DocumentNode {
                name: "nested".to_string(),
                inputs: vec![NodeInput::Network(Type::concrete("WasmEditorApi"))],
                implementation: DocumentNodeImplementation::Network(inner),
                metadata: DocumentNodeMetadata::origin(),
            },
        )],
    };
    let wrapped = wrap_network_in_scope(outer, &registry);
    assert_eq!(wrapped.nodes.len(), 3);
    assert_eq!(wrapped.nodes[0].1.name, "Begin Scope");
    match &wrapped.nodes[1].1.implementation {
        DocumentNodeImplementation::Network(flattened) => {
            assert_eq!(flattened.nodes.len(), 1);
            assert_eq!(flattened.nodes[0].1.name, "inner_consumer");
            assert!(matches!(
                flattened.nodes[0].1.implementation,
                DocumentNodeImplementation::Unresolved(_)
            ));
        }
        other => panic!("scope node holds no network: {:?}", other),
    }
}

#[test]
fn wrap_accepts_internally_mixed_nested_types() {
    // A nested implementation may mix free-input types internally, as the
    // catalog's own nested networks do: the enclosing bindings feed those
    // slots away during flattening, and only the surviving slots must share
    // one type.
    let registry = NodeTypeRegistry::new();
    let inner = NodeNetwork {
        inputs: vec![0, 0],
        outputs: vec![NodeOutput::new(0, 0)],
        nodes: vec![(
            0,
            primitive_node(
                "loader",
                vec![
                    NodeInput::Network(Type::concrete("WasmEditorApi")),
                    NodeInput::Network(Type::concrete("String")),
                ],
            ),
        )],
    };
    let outer = NodeNetwork {
        inputs: vec![0],
        outputs: vec![NodeOutput::new(0, 0)],
        nodes: vec![(
            0,
            DocumentNode {
                name: "load".to_string(),
                inputs: vec![
                    NodeInput::Network(Type::concrete("WasmEditorApi")),
                    NodeInput::value(TaggedValue::String("path".to_string()), false),
                ],
                implementation: DocumentNodeImplementation::Network(inner),
                metadata: DocumentNodeMetadata::origin(),
            },
        )],
    };
    let wrapped = wrap_network_in_scope(outer, &registry);
    assert_eq!(wrapped.nodes.len(), 3);
    assert_eq!(wrapped.nodes[0].1.name, "Begin Scope");
    match &wrapped.nodes[0].1.inputs[0] {
        NodeInput::Network(ty) => assert_eq!(ty.name, "WasmEditorApi"),
        other => panic!("wrong scope input: {:?}", other),
    }
    match &wrapped.nodes[1].1.implementation {
        DocumentNodeImplementation::Network(flattened) => {
            assert_eq!(flattened.nodes.len(), 1);
            // The string slot was fed by the binding; the editor-api slot
            // survived.
            match &flattened.nodes[0].1.inputs[1] {
                NodeInput::Value { tagged_value: TaggedValue::String(p), .. } => {
                    assert_eq!(p, "path")
                }
                other => panic!("string binding not substituted: {:?}", other),
            }
        }
        other => panic!("scope node holds no network: {:?}", other),
    }
}

#[test]
fn flatten_keeps_flat_networks_unchanged() {
    let network = NodeNetwork {
        inputs: vec![7],
        outputs: vec![NodeOutput::new(0, 0)],
        nodes: vec![(7, primitive_node("only", vec![NodeInput::Network(Type::concrete("bool"))]))],
    };
    let copy = clone_network(&network);
    let flat = flatten_network(network);
    assert_eq!(format!("{:?}", flat), format!("{:?}", copy));
}
