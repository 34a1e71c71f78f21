//! Node type descriptors and the registry that catalogues them.

use vstd::prelude::*;
use crate::document::{NodeIdentifier, NodeInput, NodeNetwork};
use crate::value::{data_type_of, with_tagged_value, FrontendGraphDataType, TaggedValue};
use crate::text::{lower_char, str_eq, str_eq_ignore_ascii_case};

verus! {

/// One declared input slot of a node type: a display name, the data kind it
/// presents, and its default binding.
#[derive(Debug)]
pub struct DocumentInputType {
    pub name: &'static str,
    pub data_type: FrontendGraphDataType,
    pub default: NodeInput,
}

impl DocumentInputType {
    /// A literal default binding's value tag must match the slot's declared
    /// data kind; other bindings are unconstrained.
    pub open spec fn wf(self) -> bool {
        match self.default {
            NodeInput::Value { tagged_value, exposed } => self.data_type == data_type_of(
                tagged_value,
            ),
            _ => true,
        }
    }

    pub fn new(name: &'static str, data_type: FrontendGraphDataType, default: NodeInput) -> (r:
        Self)
        ensures
            r.name == name,
            r.data_type == data_type,
            r.default == default,
    {
        DocumentInputType { name, data_type, default }
    }

    /// A slot defaulting to the literal `tagged_value`, presenting the data
    /// kind derived from the value's own tag — consistent by construction.
    pub fn value(name: &'static str, tagged_value: TaggedValue, exposed: bool) -> (r: Self)
        ensures
            r.name == name,
            r.wf(),
            r.default matches NodeInput::Value { tagged_value: v, exposed: e } && v
                == tagged_value && e == exposed,
            r.data_type == data_type_of(tagged_value),
    {
        let data_type = with_tagged_value(&tagged_value);
        let default = NodeInput::value(tagged_value, exposed);
        DocumentInputType { name, data_type, default }
    }

    /// The placeholder slot: an unexposed empty value.
    pub fn none() -> (r: Self)
        ensures
            r.wf(),
            r.name@ == "None"@,
            r.data_type == FrontendGraphDataType::General,
            r.default matches NodeInput::Value { tagged_value: v, exposed: e } && v
                == TaggedValue::Null && e == false,
    {
        DocumentInputType {
            name: "None",
            data_type: FrontendGraphDataType::General,
            default: NodeInput::value(TaggedValue::Null, false),
        }
    }
}

/// One declared output slot of a node type.
#[derive(Debug, Clone, Copy, PartialEq, Eq, Hash)]
pub struct DocumentOutputType {
    pub name: &'static str,
    pub data_type: FrontendGraphDataType,
}

impl DocumentOutputType {
    pub fn new(name: &'static str, data_type: FrontendGraphDataType) -> (r: Self)
        ensures
            r.name == name,
            r.data_type == data_type,
    {
        DocumentOutputType { name, data_type }
    }
}

/// How a node type is implemented: a primitive operation, a nested network,
/// or the extract marker that reifies a node definition as a value.
#[derive(Debug)]
pub enum NodeImplementation {
    ProtoNode(NodeIdentifier),
    DocumentNode(NodeNetwork),
    Extract,
}

impl NodeImplementation {
    pub fn proto(name: &'static str) -> (r: Self)
        ensures
            r matches NodeImplementation::ProtoNode(id) && id.name@ == name@,
    {
        NodeImplementation::ProtoNode(NodeIdentifier::new(name))
    }
}

/// The property-panel layout a node type presents: none, a fixed line of
/// text, or a named layout routine provided by the editor shell.
#[derive(Debug, Clone, Copy, PartialEq, Eq, Hash)]
pub enum NodePropertiesHook {
    NoProperties,
    Description(&'static str),
    Routine(&'static str),
}

/// A property panel of one fixed line of text.
pub fn string_properties(text: &'static str) -> (r: NodePropertiesHook)
    ensures
        r == NodePropertiesHook::Description(text),
{
    NodePropertiesHook::Description(text)
}

/// The static template for one kind of graph node.
#[derive(Debug)]
pub struct DocumentNodeType {
    pub name: &'static str,
    pub category: &'static str,
    pub identifier: NodeImplementation,
    pub inputs: Vec<DocumentInputType>,
    pub outputs: Vec<DocumentOutputType>,
    pub primary_output: bool,
    pub properties: NodePropertiesHook,
}

impl DocumentNodeType {
    /// Every input slot's literal default tag-matches its declared kind.
    pub open spec fn wf(self) -> bool {
        forall|i: int| 0 <= i < self.inputs@.len() ==> (#[trigger] self.inputs@[i]).wf()
    }
}

/// A registry row handed to the type picker.
#[derive(Debug, Clone, Copy, PartialEq, Eq, Hash)]
pub struct FrontendNodeType {
    pub name: &'static str,
    pub category: &'static str,
}

impl FrontendNodeType {
    pub fn new(name: &'static str, category: &'static str) -> (r: Self)
        ensures
            r.name == name,
            r.category == category,
    {
        FrontendNodeType { name, category }
    }
}

/// The first catalog entry with the given name, if any.
pub open spec fn resolve_spec(types: Seq<DocumentNodeType>, name: Seq<char>) -> Option<
    DocumentNodeType,
>
    decreases types.len(),
{
    if types.len() == 0 {
        Option::<DocumentNodeType>::None
    } else if types[0].name@ == name {
        Option::Some(types[0])
    } else {
        resolve_spec(types.drop_first(), name)
    }
}

/// Whether a catalog entry is shown in user-facing listings: its category
/// must not equal "ignore" up to ASCII case.
pub open spec fn listed_spec(d: DocumentNodeType) -> bool {
    d.category@.map_values(|c: char| lower_char(c)) != "ignore"@.map_values(
        |c: char| lower_char(c),
    )
}

/// The user-facing rows of a catalog, in catalog order.
pub open spec fn collect_spec(types: Seq<DocumentNodeType>) -> Seq<FrontendNodeType>
    decreases types.len(),
{
    if types.len() == 0 {
        Seq::empty()
    } else {
        collect_spec(types.drop_last()) + (if listed_spec(types.last()) {
            seq![
                FrontendNodeType { name: types.last().name, category: types.last().category },
            ]
        } else {
            Seq::empty()
        })
    }
}

/// The catalog of built-in node types. Built once at startup and then read
/// only; look entries up with [`resolve_document_node_type`].
pub struct NodeTypeRegistry {
    pub types: Vec<DocumentNodeType>,
}

impl NodeTypeRegistry {
    /// Every catalog entry is well formed.
    pub open spec fn wf(self) -> bool {
        forall|i: int| 0 <= i < self.types@.len() ==> (#[trigger] self.types@[i]).wf()
    }
}

/// A lookup skips any prefix of entries bearing other names.
pub proof fn lemma_resolve_skip(types: Seq<DocumentNodeType>, name: Seq<char>, k: int)
    requires
        0 <= k <= types.len(),
        forall|i: int| 0 <= i < k ==> (#[trigger] types[i]).name@ != name,
    ensures
        resolve_spec(types, name) == resolve_spec(types.skip(k), name),
    decreases k,
{
    if k > 0 {
        assert(types[0].name@ != name);
        assert(types.drop_first() =~= types.skip(1));
        assert forall|i: int| 0 <= i < k - 1 implies (#[trigger] types.skip(1)[i]).name@
            != name by {
            assert(types.skip(1)[i] == types[i + 1]);
        }
        lemma_resolve_skip(types.skip(1), name, k - 1);
        assert(types.skip(1).skip(k - 1) =~= types.skip(k));
    } else {
        assert(types.skip(0) =~= types);
    }
}

/// Every descriptor of a well-formed registry is self-consistent: wherever
/// an input slot's default binding is a literal value, that value's tag
/// matches the slot's declared data kind.
pub proof fn lemma_registry_defaults_tag_match(registry: NodeTypeRegistry)
    requires
        registry.wf(),
    ensures
        forall|i: int, j: int|
            0 <= i < registry.types@.len() && 0 <= j < registry.types@[i].inputs@.len()
                ==> match (#[trigger] registry.types@[i].inputs@[j]).default {
                NodeInput::Value { tagged_value, exposed } => registry.types@[i].inputs@[j].data_type
                    == data_type_of(tagged_value),
                _ => true,
            },
{
    assert forall|i: int, j: int|
        0 <= i < registry.types@.len() && 0 <= j < registry.types@[i].inputs@.len() implies match (
    #[trigger] registry.types@[i].inputs@[j]).default {
        NodeInput::Value { tagged_value, exposed } => registry.types@[i].inputs@[j].data_type
            == data_type_of(tagged_value),
        _ => true,
    } by {
        assert(registry.types@[i].wf());
        assert(registry.types@[i].inputs@[j].wf());
    }
}

/// Exact, case-sensitive lookup of a node type by name. Absence is an
/// ordinary condition the caller answers with a diagnostic placeholder.
pub fn resolve_document_node_type<'a>(registry: &'a NodeTypeRegistry, name: &str) -> (r: Option<
    &'a DocumentNodeType,
>)
    ensures
        match r {
            Option::Some(d) => resolve_spec(registry.types@, name@) matches Option::Some(found)
                && *d == found,
            Option::None => resolve_spec(registry.types@, name@) is None,
        },
{
    let n = registry.types.len();
    let mut i: usize = 0;
    proof {
        assert(registry.types@.skip(0) =~= registry.types@);
    }
    while i < n
        invariant
            i <= n,
            n == registry.types@.len(),
            resolve_spec(registry.types@, name@) == resolve_spec(
                registry.types@.skip(i as int),
                name@,
            ),
        decreases n - i,
    {
        proof {
            assert(registry.types@.skip(i as int).len() > 0);
            assert(registry.types@.skip(i as int)[0] == registry.types@[i as int]);
            assert(registry.types@.skip(i as int).drop_first() =~= registry.types@.skip(
                i as int + 1,
            ));
        }
        if str_eq(registry.types[i].name, name) {
            return Option::Some(&registry.types[i]);
        }
        i = i + 1;
    }
    proof {
        assert(registry.types@.skip(n as int).len() == 0);
    }
    Option::None
}

/// Enumerates the catalog rows whose category is not "ignore" (in any ASCII
/// case), for the type picker.
pub fn collect_node_types(registry: &NodeTypeRegistry) -> (r: Vec<FrontendNodeType>)
    ensures
        r@ == collect_spec(registry.types@),
{
    let mut r: Vec<FrontendNodeType> = Vec::new();
    let n = registry.types.len();
    let mut i: usize = 0;
    while i < n
        invariant
            i <= n,
            n == registry.types@.len(),
            r@ == collect_spec(registry.types@.take(i as int)),
        decreases n - i,
    {
        let d = &registry.types[i];
        if !str_eq_ignore_ascii_case(d.category, "ignore") {
            r.push(FrontendNodeType { name: d.name, category: d.category });
        }
        proof {
            let pre = registry.types@.take(i as int);
            let post = registry.types@.take(i as int + 1);
            assert(post.drop_last() =~= pre);
            assert(post.last() == registry.types@[i as int]);
        }
        i = i + 1;
    }
    proof {
        assert(registry.types@.take(n as int) =~= registry.types@);
    }
    r
}

} // verus!
