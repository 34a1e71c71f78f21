use node_graph::document::NodeInput;
use node_graph::registry::{
    collect_node_types, resolve_document_node_type, NodeTypeRegistry,
};
use node_graph::value::{with_tagged_value, FrontendGraphDataType, TaggedValue};

#[test]
fn registry_has_sixty_eight_entries() {
    let registry = NodeTypeRegistry::new();
    assert_eq!(registry.types.len(), 68);
}

#[test]
fn resolve_value_descriptor() {
    // Lookup of "Value" finds one input named "Value" defaulting to a
    // numeric zero, and one numeric output.
    let registry = NodeTypeRegistry::new();
    let d = resolve_document_node_type(&registry, "Value").expect("Value node type not found");
    assert_eq!(d.name, "Value");
    assert_eq!(d.inputs.len(), 1);
    assert_eq!(d.inputs[0].name, "Value");
    assert_eq!(d.inputs[0].data_type, FrontendGraphDataType::Number);
    match &d.inputs[0].default {
        NodeInput::Value { tagged_value, exposed } => {
            assert!(!*exposed);
            match tagged_value {
                TaggedValue::F32(x) => assert_eq!(x.micros, 0),
                other => panic!("wrong default tag: {:?}", other),
            }
        }
        other => panic!("wrong default binding: {:?}", other),
    }
    assert_eq!(d.outputs.len(), 1);
    assert_eq!(d.outputs[0].data_type, FrontendGraphDataType::Number);
}

#[test]
fn resolve_is_case_sensitive_and_total() {
    let registry = NodeTypeRegistry::new();
    assert!(resolve_document_node_type(&registry, "value").is_none());
    assert!(resolve_document_node_type(&registry, "No Such Node").is_none());
    for name in [
        "Boolean",
        "Identity",
        "Layer",
        "Artboard",
        "Input Frame",
        "Begin Scope",
        "End Scope",
        "Output",
        "Shape",
        "Text",
        "Transform",
        "Fill",
        "Stroke",
        "Imaginate",
        "Index",
    ] {
        let d = resolve_document_node_type(&registry, name)
            .unwrap_or_else(|| panic!("{} not found", name));
        assert_eq!(d.name, name);
    }
}

#[test]
fn every_literal_default_matches_its_declared_kind() {
    // The executable check of the registry's self-consistency invariant.
    let registry = NodeTypeRegistry::new();
    for d in &registry.types {
        for input in &d.inputs {
            if let NodeInput::Value { tagged_value, .. } = &input.default {
                assert_eq!(
                    input.data_type,
                    with_tagged_value(tagged_value),
                    "slot {} of {} mismatches",
                    input.name,
                    d.name
                );
            }
        }
    }
}

#[test]
fn collect_node_types_hides_ignored_categories() {
    let registry = NodeTypeRegistry::new();
    let listed = collect_node_types(&registry);
    assert!(listed.iter().all(|t| !t.category.eq_ignore_ascii_case("ignore")));
    assert!(listed.iter().any(|t| t.name == "Boolean"));
    assert!(listed.iter().any(|t| t.name == "Shape"));
    // "Input Frame", "Begin Scope", "End Scope", "Output" and "Image" are
    // internal-only.
    assert!(listed.iter().all(|t| t.name != "Input Frame"));
    assert!(listed.iter().all(|t| t.name != "Begin Scope"));
    assert!(listed.iter().all(|t| t.name != "Output"));
    assert_eq!(listed.len(), registry.types.len() - 5);
}

#[test]
fn selective_color_declares_all_parameter_groups() {
    let registry = NodeTypeRegistry::new();
    let d = resolve_document_node_type(&registry, "Selective Color").unwrap();
    // image + mode + nine groups of four + display-only choice
    assert_eq!(d.inputs.len(), 39);
    assert_eq!(d.inputs[38].name, "Colors");
}

#[test]
fn channel_mixer_declares_nineteen_inputs() {
    let registry = NodeTypeRegistry::new();
    let d = resolve_document_node_type(&registry, "Channel Mixer").unwrap();
    assert_eq!(d.inputs.len(), 19);
    assert_eq!(d.inputs[18].name, "Output Channel");
}

#[test]
fn imaginate_has_eighteen_inputs() {
    let registry = NodeTypeRegistry::new();
    let d = resolve_document_node_type(&registry, "Imaginate").unwrap();
    assert_eq!(d.inputs.len(), 18);
    assert_eq!(d.category, "Image Synthesis");
}
