//! The output model: schema nodes, entry descriptors, higher-order setting
//! descriptors, compiled path segments, and the dynamic mirror values that
//! carry literal defaults.
//!
//! Every executable type in this module has a ghost counterpart (`Spec...`)
//! over `Seq` and `Seq<char>`, reached through [`DeepView`].  The compiler's
//! contracts are stated over those ghost values, so that two structurally
//! identical trees are equal in the mathematical model.
//!
//! Floating-point literals are carried as IEEE-754 `u64` bit patterns: this
//! compiler only transports them from the declaration into the schema tree,
//! it never computes with them.

use vstd::prelude::*;

verus! {

/// A numeric literal from an annotation: an integer, or a floating-point
/// number as its IEEE-754 bit pattern.
#[derive(Clone, Copy, Debug, PartialEq, Eq)]
pub enum NumLit {
    Int(i128),
    Float(u64),
}

/// Presentation hint for a numeric leaf.  A slider carries its own bounds,
/// step and logarithmic flag, independent of the leaf-level bounds.
#[derive(Clone, Copy, Debug, PartialEq, Eq)]
pub enum NumericGuiType {
    TextBox,
    UpDown,
    Slider { min: NumLit, max: NumLit, step: Option<NumLit>, logarithmic: bool },
}

/// Presentation hint for a choice control.
#[derive(Clone, Copy, Debug, PartialEq, Eq)]
pub enum ChoiceControlType {
    Dropdown,
    ButtonGroup,
}

/// How a modifier updates its target location.
#[derive(Clone, Copy, Debug, PartialEq, Eq)]
pub enum UpdateType {
    Assign,
    Remove,
}

/// One navigation step of a compiled path expression: a named child, a
/// text-keyed child, or a step out to the enclosing node.
#[derive(Clone, Debug, PartialEq, Eq)]
pub enum PathSegment {
    Identifier(String),
    Subscript(String),
    Parent,
}

pub enum SpecPathSegment {
    Identifier(Seq<char>),
    Subscript(Seq<char>),
    Parent,
}

impl DeepView for PathSegment {
    type V = SpecPathSegment;

    open spec fn deep_view(&self) -> SpecPathSegment {
        match self {
            PathSegment::Identifier(name) => SpecPathSegment::Identifier(name@),
            PathSegment::Subscript(key) => SpecPathSegment::Subscript(key@),
            PathSegment::Parent => SpecPathSegment::Parent,
        }
    }
}

/// An input variable of a modifier: the distinguished input reference, or a
/// compiled path.
#[derive(Clone, Debug, PartialEq, Eq)]
pub enum ModifierVariable {
    Input,
    Path(Vec<PathSegment>),
}

pub enum SpecModifierVariable {
    Input,
    Path(Seq<SpecPathSegment>),
}

impl DeepView for ModifierVariable {
    type V = SpecModifierVariable;

    open spec fn deep_view(&self) -> SpecModifierVariable {
        match self {
            ModifierVariable::Input => SpecModifierVariable::Input,
            ModifierVariable::Path(segments) => SpecModifierVariable::Path(segments.deep_view()),
        }
    }
}

/// A compiled update rule of a higher-order setting: where to write, how to
/// update, the update expression, and the expression's input variables.
#[derive(Clone, Debug, PartialEq, Eq)]
pub struct ModifierDescriptor {
    pub target: Vec<PathSegment>,
    pub update_operation: UpdateType,
    pub expression: String,
    pub variables: Vec<ModifierVariable>,
}

pub struct SpecModifierDescriptor {
    pub target: Seq<SpecPathSegment>,
    pub update_operation: UpdateType,
    pub expression: Seq<char>,
    pub variables: Seq<SpecModifierVariable>,
}

impl DeepView for ModifierDescriptor {
    type V = SpecModifierDescriptor;

    open spec fn deep_view(&self) -> SpecModifierDescriptor {
        SpecModifierDescriptor {
            target: self.target.deep_view(),
            update_operation: self.update_operation,
            expression: self.expression@,
            variables: self.variables.deep_view(),
        }
    }
}

/// The data kind of a higher-order setting: a choice among named variants, a
/// boolean, or a pure action.
#[derive(Clone, Debug, PartialEq, Eq)]
pub enum HigherOrderType {
    Choice { default: String, variants: Vec<String>, gui: ChoiceControlType },
    Bool { default: bool },
    Action,
}

pub enum SpecHigherOrderType {
    Choice { default: Seq<char>, variants: Seq<Seq<char>>, gui: ChoiceControlType },
    Bool { default: bool },
    Action,
}

impl DeepView for HigherOrderType {
    type V = SpecHigherOrderType;

    open spec fn deep_view(&self) -> SpecHigherOrderType {
        match self {
            HigherOrderType::Choice { default, variants, gui } => SpecHigherOrderType::Choice {
                default: default@,
                variants: variants.deep_view(),
                gui: *gui,
            },
            HigherOrderType::Bool { default } => SpecHigherOrderType::Bool { default: *default },
            HigherOrderType::Action => SpecHigherOrderType::Action,
        }
    }
}

/// A dynamic default value, shaped like the declaration it belongs to.  Leaf
/// defaults are plain values; wrapper defaults carry their flags and inner
/// defaults; record and union defaults list their per-field (per-variant)
/// defaults in declaration order.
#[derive(Debug, PartialEq)]
pub enum MirrorValue {
    Bool(bool),
    Int(i128),
    Float(u64),
    Text(String),
    Array(Vec<MirrorValue>),
    Optional { set: bool, content: Box<MirrorValue> },
    Switch { enabled: bool, content: Box<MirrorValue> },
    Vector { element: Box<MirrorValue>, default: Vec<MirrorValue> },
    Dictionary { key: String, value: Box<MirrorValue>, default: Vec<(String, MirrorValue)> },
    Record { fields: Vec<(String, MirrorValue)> },
    Union { variant: String, data: Vec<(String, MirrorValue)> },
}

pub enum SpecMirrorValue {
    Bool(bool),
    Int(i128),
    Float(u64),
    Text(Seq<char>),
    Array(Seq<SpecMirrorValue>),
    Optional { set: bool, content: Box<SpecMirrorValue> },
    Switch { enabled: bool, content: Box<SpecMirrorValue> },
    Vector { element: Box<SpecMirrorValue>, default: Seq<SpecMirrorValue> },
    Dictionary {
        key: Seq<char>,
        value: Box<SpecMirrorValue>,
        default: Seq<(Seq<char>, SpecMirrorValue)>,
    },
    Record { fields: Seq<(Seq<char>, SpecMirrorValue)> },
    Union { variant: Seq<char>, data: Seq<(Seq<char>, SpecMirrorValue)> },
}

pub open spec fn mirror_values_view(s: Seq<MirrorValue>) -> Seq<SpecMirrorValue>
    decreases s,
{
    if s.len() == 0 {
        Seq::empty()
    } else {
        seq![mirror_value_view(s[0])] + mirror_values_view(s.drop_first())
    }
}

pub open spec fn mirror_pairs_view(s: Seq<(String, MirrorValue)>) -> Seq<
    (Seq<char>, SpecMirrorValue),
>
    decreases s,
{
    if s.len() == 0 {
        Seq::empty()
    } else {
        seq![(s[0].0@, mirror_value_view(s[0].1))] + mirror_pairs_view(s.drop_first())
    }
}

pub open spec fn mirror_value_view(m: MirrorValue) -> SpecMirrorValue
    decreases m,
{
    match m {
        MirrorValue::Bool(b) => SpecMirrorValue::Bool(b),
        MirrorValue::Int(v) => SpecMirrorValue::Int(v),
        MirrorValue::Float(bits) => SpecMirrorValue::Float(bits),
        MirrorValue::Text(s) => SpecMirrorValue::Text(s@),
        MirrorValue::Array(items) => SpecMirrorValue::Array(mirror_values_view(items@)),
        MirrorValue::Optional { set, content } => SpecMirrorValue::Optional {
            set,
            content: Box::new(mirror_value_view(*content)),
        },
        MirrorValue::Switch { enabled, content } => SpecMirrorValue::Switch {
            enabled,
            content: Box::new(mirror_value_view(*content)),
        },
        MirrorValue::Vector { element, default } => SpecMirrorValue::Vector {
            element: Box::new(mirror_value_view(*element)),
            default: mirror_values_view(default@),
        },
        MirrorValue::Dictionary { key, value, default } => SpecMirrorValue::Dictionary {
            key: key@,
            value: Box::new(mirror_value_view(*value)),
            default: mirror_pairs_view(default@),
        },
        MirrorValue::Record { fields } => SpecMirrorValue::Record {
            fields: mirror_pairs_view(fields@),
        },
        MirrorValue::Union { variant, data } => SpecMirrorValue::Union {
            variant: variant@,
            data: mirror_pairs_view(data@),
        },
    }
}

impl DeepView for MirrorValue {
    type V = SpecMirrorValue;

    open spec fn deep_view(&self) -> SpecMirrorValue {
        mirror_value_view(*self)
    }
}

pub proof fn lemma_mirror_values_view(s: Seq<MirrorValue>)
    ensures
        mirror_values_view(s).len() == s.len(),
        forall|i: int|
            0 <= i < s.len() ==> mirror_values_view(s)[i] == mirror_value_view(#[trigger] s[i]),
    decreases s,
{
    if s.len() > 0 {
        lemma_mirror_values_view(s.drop_first());
        assert forall|i: int| 0 <= i < s.len() implies mirror_values_view(s)[i] == mirror_value_view(s[i]) by {
            if i > 0 {
                assert(s.drop_first()[i - 1] == s[i]);
            }
        }
    }
}

pub proof fn lemma_mirror_pairs_view(s: Seq<(String, MirrorValue)>)
    ensures
        mirror_pairs_view(s).len() == s.len(),
        forall|i: int|
            0 <= i < s.len() ==> mirror_pairs_view(s)[i] == (
                (#[trigger] s[i]).0@,
                mirror_value_view(s[i].1),
            ),
    decreases s,
{
    if s.len() > 0 {
        lemma_mirror_pairs_view(s.drop_first());
        assert forall|i: int| 0 <= i < s.len() implies mirror_pairs_view(s)[i] == (s[i].0@, mirror_value_view(s[i].1)) by {
            if i > 0 {
                assert(s.drop_first()[i - 1] == s[i]);
            }
        }
    }
}

/// A structural copy of a mirror value.
pub fn clone_mirror_value(m: &MirrorValue) -> (r: MirrorValue)
    ensures
        r.deep_view() == m.deep_view(),
    decreases m,
{
    match m {
        MirrorValue::Bool(b) => MirrorValue::Bool(*b),
        MirrorValue::Int(v) => MirrorValue::Int(*v),
        MirrorValue::Float(bits) => MirrorValue::Float(*bits),
        MirrorValue::Text(s) => MirrorValue::Text(s.clone()),
        MirrorValue::Array(items) => MirrorValue::Array(clone_mirror_values(items)),
        MirrorValue::Optional { set, content } => MirrorValue::Optional {
            set: *set,
            content: Box::new(clone_mirror_value(content)),
        },
        MirrorValue::Switch { enabled, content } => MirrorValue::Switch {
            enabled: *enabled,
            content: Box::new(clone_mirror_value(content)),
        },
        MirrorValue::Vector { element, default } => MirrorValue::Vector {
            element: Box::new(clone_mirror_value(element)),
            default: clone_mirror_values(default),
        },
        MirrorValue::Dictionary { key, value, default } => MirrorValue::Dictionary {
            key: key.clone(),
            value: Box::new(clone_mirror_value(value)),
            default: clone_mirror_pairs(default),
        },
        MirrorValue::Record { fields } => MirrorValue::Record {
            fields: clone_mirror_pairs(fields),
        },
        MirrorValue::Union { variant, data } => MirrorValue::Union {
            variant: variant.clone(),
            data: clone_mirror_pairs(data),
        },
    }
}

/// A structural copy of a list of mirror values.
pub fn clone_mirror_values(v: &Vec<MirrorValue>) -> (r: Vec<MirrorValue>)
    ensures
        mirror_values_view(r@) == mirror_values_view(v@),
    decreases v,
{
    let mut out: Vec<MirrorValue> = Vec::new();
    let mut k: usize = 0;
    while k < v.len()
        invariant
            k <= v@.len(),
            out@.len() == k,
            forall|i: int|
                0 <= i < k ==> mirror_value_view(#[trigger] out@[i]) == mirror_value_view(v@[i]),
        decreases v@.len() - k,
    {
        let item = clone_mirror_value(&v[k]);
        out.push(item);
        k = k + 1;
    }
    proof {
        lemma_mirror_values_view(out@);
        lemma_mirror_values_view(v@);
        assert forall|i: int|
            0 <= i < v@.len() implies mirror_values_view(out@)[i] == mirror_values_view(v@)[i] by {
            assert(mirror_value_view(out@[i]) == mirror_value_view(v@[i]));
        }
        assert(mirror_values_view(out@) =~= mirror_values_view(v@));
    }
    out
}

/// A structural copy of a list of named mirror values.
pub fn clone_mirror_pairs(v: &Vec<(String, MirrorValue)>) -> (r: Vec<(String, MirrorValue)>)
    ensures
        mirror_pairs_view(r@) == mirror_pairs_view(v@),
    decreases v,
{
    let mut out: Vec<(String, MirrorValue)> = Vec::new();
    let mut k: usize = 0;
    while k < v.len()
        invariant
            k <= v@.len(),
            out@.len() == k,
            forall|i: int|
                0 <= i < k ==> (#[trigger] out@[i]).0@ == v@[i].0@ && mirror_value_view(out@[i].1)
                    == mirror_value_view(v@[i].1),
        decreases v@.len() - k,
    {
        let name = v[k].0.clone();
        let item = clone_mirror_value(&v[k].1);
        out.push((name, item));
        k = k + 1;
    }
    proof {
        lemma_mirror_pairs_view(out@);
        lemma_mirror_pairs_view(v@);
        assert forall|i: int|
            0 <= i < v@.len() implies mirror_pairs_view(out@)[i] == mirror_pairs_view(v@)[i] by {
            assert(out@[i].0@ == v@[i].0@ && mirror_value_view(out@[i].1) == mirror_value_view(
                v@[i].1,
            ));
        }
        assert(mirror_pairs_view(out@) =~= mirror_pairs_view(v@));
    }
    out
}

/// The payload of a value-bearing entry: whether it is an advanced setting,
/// and its schema subtree.
#[derive(Debug, PartialEq)]
pub struct EntryData {
    pub advanced: bool,
    pub content: SchemaNode,
}

pub struct SpecEntryData {
    pub advanced: bool,
    pub content: SpecSchemaNode,
}

/// One entry of a section: stored data, a content-free placeholder marker, or
/// a higher-order (derived) setting.
#[derive(Debug, PartialEq)]
pub enum EntryType {
    Data(EntryData),
    Placeholder,
    HigherOrder { data_type: HigherOrderType, modifiers: Vec<ModifierDescriptor> },
}

pub enum SpecEntryType {
    Data(SpecEntryData),
    Placeholder,
    HigherOrder { data_type: SpecHigherOrderType, modifiers: Seq<SpecModifierDescriptor> },
}

/// One node of the compiled schema tree.  The node kind mirrors the shape it
/// was compiled from; `Section` and `Choice` list their entries in
/// declaration order.
#[derive(Debug, PartialEq)]
pub enum SchemaNode {
    Section {
        entries: Vec<(String, EntryType)>,
    },
    Choice {
        default: String,
        variants: Vec<(String, Option<EntryData>)>,
        gui: Option<ChoiceControlType>,
    },
    Optional {
        default_set: bool,
        content: Box<SchemaNode>,
    },
    Switch {
        default_enabled: bool,
        content_advanced: bool,
        content: Box<SchemaNode>,
    },
    Boolean {
        default: bool,
    },
    Integer {
        default: i128,
        min: Option<i128>,
        max: Option<i128>,
        step: Option<i128>,
        gui: Option<NumericGuiType>,
        suffix: Option<String>,
    },
    Float {
        default: u64,
        min: Option<u64>,
        max: Option<u64>,
        step: Option<u64>,
        gui: Option<NumericGuiType>,
        suffix: Option<String>,
    },
    Text {
        default: String,
    },
    Array(Vec<SchemaNode>),
    Vector {
        default_element: Box<SchemaNode>,
        default: Vec<MirrorValue>,
    },
    Dictionary {
        default_key: String,
        default_value: Box<SchemaNode>,
        default: Vec<(String, MirrorValue)>,
    },
}

pub enum SpecSchemaNode {
    Section {
        entries: Seq<(Seq<char>, SpecEntryType)>,
    },
    Choice {
        default: Seq<char>,
        variants: Seq<(Seq<char>, Option<SpecEntryData>)>,
        gui: Option<ChoiceControlType>,
    },
    Optional {
        default_set: bool,
        content: Box<SpecSchemaNode>,
    },
    Switch {
        default_enabled: bool,
        content_advanced: bool,
        content: Box<SpecSchemaNode>,
    },
    Boolean {
        default: bool,
    },
    Integer {
        default: i128,
        min: Option<i128>,
        max: Option<i128>,
        step: Option<i128>,
        gui: Option<NumericGuiType>,
        suffix: Option<Seq<char>>,
    },
    Float {
        default: u64,
        min: Option<u64>,
        max: Option<u64>,
        step: Option<u64>,
        gui: Option<NumericGuiType>,
        suffix: Option<Seq<char>>,
    },
    Text {
        default: Seq<char>,
    },
    Array(Seq<SpecSchemaNode>),
    Vector {
        default_element: Box<SpecSchemaNode>,
        default: Seq<SpecMirrorValue>,
    },
    Dictionary {
        default_key: Seq<char>,
        default_value: Box<SpecSchemaNode>,
        default: Seq<(Seq<char>, SpecMirrorValue)>,
    },
}

pub open spec fn option_string_view(s: Option<String>) -> Option<Seq<char>> {
    match s {
        Some(t) => Some(t@),
        None => None,
    }
}

pub open spec fn entry_data_view(d: EntryData) -> SpecEntryData
    decreases d,
{
    SpecEntryData { advanced: d.advanced, content: schema_node_view(d.content) }
}

pub open spec fn entry_type_view(e: EntryType) -> SpecEntryType
    decreases e,
{
    match e {
        EntryType::Data(d) => SpecEntryType::Data(entry_data_view(d)),
        EntryType::Placeholder => SpecEntryType::Placeholder,
        EntryType::HigherOrder { data_type, modifiers } => SpecEntryType::HigherOrder {
            data_type: data_type.deep_view(),
            modifiers: modifiers.deep_view(),
        },
    }
}

pub open spec fn entries_view(s: Seq<(String, EntryType)>) -> Seq<(Seq<char>, SpecEntryType)>
    decreases s,
{
    if s.len() == 0 {
        Seq::empty()
    } else {
        seq![(s[0].0@, entry_type_view(s[0].1))] + entries_view(s.drop_first())
    }
}

pub open spec fn variant_entries_view(s: Seq<(String, Option<EntryData>)>) -> Seq<
    (Seq<char>, Option<SpecEntryData>),
>
    decreases s,
{
    if s.len() == 0 {
        Seq::empty()
    } else {
        seq![
            (
                s[0].0@,
                match s[0].1 {
                    Some(d) => Some(entry_data_view(d)),
                    None => None,
                },
            ),
        ] + variant_entries_view(s.drop_first())
    }
}

pub open spec fn nodes_view(s: Seq<SchemaNode>) -> Seq<SpecSchemaNode>
    decreases s,
{
    if s.len() == 0 {
        Seq::empty()
    } else {
        seq![schema_node_view(s[0])] + nodes_view(s.drop_first())
    }
}

pub open spec fn schema_node_view(n: SchemaNode) -> SpecSchemaNode
    decreases n,
{
    match n {
        SchemaNode::Section { entries } => SpecSchemaNode::Section {
            entries: entries_view(entries@),
        },
        SchemaNode::Choice { default, variants, gui } => SpecSchemaNode::Choice {
            default: default@,
            variants: variant_entries_view(variants@),
            gui,
        },
        SchemaNode::Optional { default_set, content } => SpecSchemaNode::Optional {
            default_set,
            content: Box::new(schema_node_view(*content)),
        },
        SchemaNode::Switch { default_enabled, content_advanced, content } => SpecSchemaNode::Switch {
            default_enabled,
            content_advanced,
            content: Box::new(schema_node_view(*content)),
        },
        SchemaNode::Boolean { default } => SpecSchemaNode::Boolean { default },
        SchemaNode::Integer { default, min, max, step, gui, suffix } => SpecSchemaNode::Integer {
            default,
            min,
            max,
            step,
            gui,
            suffix: option_string_view(suffix),
        },
        SchemaNode::Float { default, min, max, step, gui, suffix } => SpecSchemaNode::Float {
            default,
            min,
            max,
            step,
            gui,
            suffix: option_string_view(suffix),
        },
        SchemaNode::Text { default } => SpecSchemaNode::Text { default: default@ },
        SchemaNode::Array(children) => SpecSchemaNode::Array(nodes_view(children@)),
        SchemaNode::Vector { default_element, default } => SpecSchemaNode::Vector {
            default_element: Box::new(schema_node_view(*default_element)),
            default: mirror_values_view(default@),
        },
        SchemaNode::Dictionary { default_key, default_value, default } => SpecSchemaNode::Dictionary {
            default_key: default_key@,
            default_value: Box::new(schema_node_view(*default_value)),
            default: mirror_pairs_view(default@),
        },
    }
}

impl DeepView for EntryData {
    type V = SpecEntryData;

    open spec fn deep_view(&self) -> SpecEntryData {
        entry_data_view(*self)
    }
}

impl DeepView for EntryType {
    type V = SpecEntryType;

    open spec fn deep_view(&self) -> SpecEntryType {
        entry_type_view(*self)
    }
}

impl DeepView for SchemaNode {
    type V = SpecSchemaNode;

    open spec fn deep_view(&self) -> SpecSchemaNode {
        schema_node_view(*self)
    }
}

pub proof fn lemma_entries_view(s: Seq<(String, EntryType)>)
    ensures
        entries_view(s).len() == s.len(),
        forall|i: int|
            0 <= i < s.len() ==> entries_view(s)[i] == (
                (#[trigger] s[i]).0@,
                entry_type_view(s[i].1),
            ),
    decreases s,
{
    if s.len() > 0 {
        lemma_entries_view(s.drop_first());
        assert forall|i: int| 0 <= i < s.len() implies entries_view(s)[i] == (s[i].0@, entry_type_view(s[i].1)) by {
            if i > 0 {
                assert(s.drop_first()[i - 1] == s[i]);
            }
        }
    }
}

pub proof fn lemma_variant_entries_view(s: Seq<(String, Option<EntryData>)>)
    ensures
        variant_entries_view(s).len() == s.len(),
        forall|i: int|
            0 <= i < s.len() ==> variant_entries_view(s)[i] == (
                (#[trigger] s[i]).0@,
                match s[i].1 {
                    Some(d) => Some(entry_data_view(d)),
                    None => None,
                },
            ),
    decreases s,
{
    if s.len() > 0 {
        lemma_variant_entries_view(s.drop_first());
        assert forall|i: int| 0 <= i < s.len() implies variant_entries_view(s)[i] == (s[i].0@, match s[i].1 { Some(d) => Some(entry_data_view(d)), None => None }) by {
            if i > 0 {
                assert(s.drop_first()[i - 1] == s[i]);
            }
        }
    }
}

pub proof fn lemma_nodes_view(s: Seq<SchemaNode>)
    ensures
        nodes_view(s).len() == s.len(),
        forall|i: int|
            0 <= i < s.len() ==> nodes_view(s)[i] == schema_node_view(#[trigger] s[i]),
    decreases s,
{
    if s.len() > 0 {
        lemma_nodes_view(s.drop_first());
        assert forall|i: int| 0 <= i < s.len() implies nodes_view(s)[i] == schema_node_view(s[i]) by {
            if i > 0 {
                assert(s.drop_first()[i - 1] == s[i]);
            }
        }
    }
}

} // verus!
