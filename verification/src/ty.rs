//! The shape compiler: leaves, wrappers and composite references.
//!
//! Compilation of one shape is split in two passes that mirror the two lives
//! of a declaration.  [`check_shape`] validates the shape and its annotations
//! and derives the mirror type; every diagnostic of the taxonomy that
//! concerns a shape arises here, independent of any default data.
//! [`node_shape`] then builds the schema node from the mirror-default value,
//! and is total for every checked shape and fitting mirror value.
//! [`schema`] runs both and pairs the results.

use vstd::prelude::*;

use crate::error::SchemaError;
use crate::error::SpecSchemaError;
use crate::node::MirrorValue;
use crate::node::NumLit;
use crate::node::SchemaNode;
use crate::node::SpecSchemaNode;
use crate::node::clone_mirror_pairs;
use crate::node::clone_mirror_values;
use crate::node::lemma_nodes_view;
use crate::node::mirror_pairs_view;
use crate::node::mirror_values_view;
use crate::node::nodes_view;
use crate::node::option_string_view;
use crate::node::schema_node_view;
use crate::shape::Declaration;
use crate::shape::FieldAnnotation;
use crate::shape::MirrorTy;
use crate::shape::PrimitiveKind;
use crate::shape::SpecMirrorTy;
use crate::shape::TypeShape;
use crate::shape::find_decl;
use crate::shape::fits_shape;
use crate::shape::is_float_kind;
use crate::shape::is_integer_kind;
use crate::shape::lemma_find_decl_bound;
use crate::shape::mirror_ty_view;
use crate::shape::spec_find_decl;
use crate::decl::node_decl;
use crate::decl::registry_ok;
use crate::decl::spec_check_decl;
use crate::decl::spec_node_decl;

verus! {

/// The source token of a primitive kind, as named in diagnostics.
pub open spec fn kind_token(k: PrimitiveKind) -> Seq<char> {
    match k {
        PrimitiveKind::Bool => "bool"@,
        PrimitiveKind::U8 => "u8"@,
        PrimitiveKind::U16 => "u16"@,
        PrimitiveKind::U32 => "u32"@,
        PrimitiveKind::U64 => "u64"@,
        PrimitiveKind::Usize => "usize"@,
        PrimitiveKind::U128 => "u128"@,
        PrimitiveKind::I8 => "i8"@,
        PrimitiveKind::I16 => "i16"@,
        PrimitiveKind::I32 => "i32"@,
        PrimitiveKind::I64 => "i64"@,
        PrimitiveKind::Isize => "isize"@,
        PrimitiveKind::I128 => "i128"@,
        PrimitiveKind::F32 => "f32"@,
        PrimitiveKind::F64 => "f64"@,
        PrimitiveKind::Text => "String"@,
    }
}

fn kind_token_exec(k: PrimitiveKind) -> (r: String)
    ensures
        r@ == kind_token(k),
{
    match k {
        PrimitiveKind::Bool => "bool".to_owned(),
        PrimitiveKind::U8 => "u8".to_owned(),
        PrimitiveKind::U16 => "u16".to_owned(),
        PrimitiveKind::U32 => "u32".to_owned(),
        PrimitiveKind::U64 => "u64".to_owned(),
        PrimitiveKind::Usize => "usize".to_owned(),
        PrimitiveKind::U128 => "u128".to_owned(),
        PrimitiveKind::I8 => "i8".to_owned(),
        PrimitiveKind::I16 => "i16".to_owned(),
        PrimitiveKind::I32 => "i32".to_owned(),
        PrimitiveKind::I64 => "i64".to_owned(),
        PrimitiveKind::Isize => "isize".to_owned(),
        PrimitiveKind::I128 => "i128".to_owned(),
        PrimitiveKind::F32 => "f32".to_owned(),
        PrimitiveKind::F64 => "f64".to_owned(),
        PrimitiveKind::Text => "String".to_owned(),
    }
}

/// The token naming a composite leaf in diagnostics.
pub open spec fn custom_token() -> Seq<char> {
    "custom"@
}

/// The diagnostic for a dictionary pair type without exactly two components.
pub open spec fn two_components_msg() -> Seq<char> {
    "Expected two arguments"@
}

/// The diagnostic for a dictionary pair type whose key component is not
/// text.
pub open spec fn key_not_text_msg() -> Seq<char> {
    "First argument must be a `String`"@
}

/// The suffix of a generated mirror type name.
pub open spec fn default_suffix() -> Seq<char> {
    "Default"@
}

/// Whether the annotation carries any numeric or GUI attribute: a bound, a
/// step, a GUI hint, or a suffix label.
pub open spec fn has_numeric_attrs(ann: FieldAnnotation) -> bool {
    ann.min is Some || ann.max is Some || ann.step is Some || ann.gui is Some
        || ann.suffix is Some
}

/// Rejects numeric and GUI attributes on a leaf that takes none, naming the
/// leaf's type token.
pub open spec fn spec_forbid_numeric_attrs(ann: FieldAnnotation, token: Seq<char>) -> Result<
    (),
    SpecSchemaError,
> {
    if has_numeric_attrs(ann) {
        Err(SpecSchemaError::UnexpectedAttribute(token))
    } else {
        Ok(())
    }
}

/// Whether an optional bound literal agrees with the leaf's numeric family.
pub open spec fn opt_lit_matches(l: Option<NumLit>, integer: bool) -> bool {
    match l {
        None => true,
        Some(NumLit::Int(v)) => integer,
        Some(NumLit::Float(bits)) => !integer,
    }
}

/// The integer payload of an optional bound literal.
pub open spec fn int_lit_value(l: Option<NumLit>) -> Option<i128> {
    match l {
        Some(NumLit::Int(v)) => Some(v),
        _ => None,
    }
}

/// The floating-point bit payload of an optional bound literal.
pub open spec fn float_lit_bits(l: Option<NumLit>) -> Option<u64> {
    match l {
        Some(NumLit::Float(bits)) => Some(bits),
        _ => None,
    }
}

/// The mirror type of a shape, or the first diagnostic the shape or its
/// annotations raise.  No mirror data is consulted: a shape checks the same
/// way wherever it is instantiated.
pub open spec fn spec_check_shape(
    reg: Seq<Declaration>,
    i: int,
    shape: TypeShape,
    ann: FieldAnnotation,
) -> Result<SpecMirrorTy, SpecSchemaError>
    decreases shape,
{
    match shape {
        TypeShape::Primitive(k) => {
            if k == PrimitiveKind::Bool || k == PrimitiveKind::Text {
                match spec_forbid_numeric_attrs(ann, kind_token(k)) {
                    Err(e) => Err(e),
                    Ok(u) => Ok(SpecMirrorTy::Primitive(k)),
                }
            } else if is_integer_kind(k) || is_float_kind(k) {
                if !(opt_lit_matches(ann.min, is_integer_kind(k)) && opt_lit_matches(
                    ann.max,
                    is_integer_kind(k),
                ) && opt_lit_matches(ann.step, is_integer_kind(k))) {
                    Err(SpecSchemaError::TypeMismatchLiteral(kind_token(k)))
                } else {
                    Ok(SpecMirrorTy::Primitive(k))
                }
            } else {
                Err(SpecSchemaError::UnsupportedType(kind_token(k)))
            }
        },
        TypeShape::Optional(inner) => match spec_check_shape(reg, i, *inner, ann) {
            Err(e) => Err(e),
            Ok(t) => Ok(SpecMirrorTy::Optional(Box::new(t))),
        },
        TypeShape::Switch(inner) => match spec_check_shape(reg, i, *inner, ann) {
            Err(e) => Err(e),
            Ok(t) => Ok(SpecMirrorTy::Switch(Box::new(t))),
        },
        TypeShape::FixedArray(inner, len) => match spec_check_shape(reg, i, *inner, ann) {
            Err(e) => Err(e),
            Ok(t) => Ok(SpecMirrorTy::Array(Box::new(t), len as int)),
        },
        TypeShape::Collection(inner) => match spec_check_shape(reg, i, *inner, ann) {
            Err(e) => Err(e),
            Ok(t) => Ok(SpecMirrorTy::Vector(Box::new(t))),
        },
        TypeShape::Dictionary(components) => {
            if components@.len() != 2 {
                Err(SpecSchemaError::WrongArgumentCount(two_components_msg()))
            } else if !(components@[0] matches TypeShape::Primitive(PrimitiveKind::Text)) {
                Err(SpecSchemaError::WrongArgumentCount(key_not_text_msg()))
            } else {
                match spec_check_shape(reg, i, components@[1], ann) {
                    Err(e) => Err(e),
                    Ok(t) => Ok(SpecMirrorTy::Dictionary(Box::new(t))),
                }
            }
        },
        TypeShape::Composite(name) => match spec_forbid_numeric_attrs(ann, custom_token()) {
            Err(e) => Err(e),
            Ok(u) => match spec_find_decl(reg, i, name@) {
                Some(j) => Ok(SpecMirrorTy::Named(name@ + default_suffix())),
                None => Err(SpecSchemaError::CyclicReference(name@)),
            },
        },
    }
}

/// Validates one shape with its annotations and derives its mirror type.
#[verifier::rlimit(60)]
pub fn check_shape(
    reg: &Vec<Declaration>,
    i: usize,
    shape: &TypeShape,
    ann: &FieldAnnotation,
) -> (r: Result<MirrorTy, SchemaError>)
    requires
        i <= reg@.len(),
    ensures
        match r {
            Ok(t) => spec_check_shape(reg@, i as int, *shape, *ann) == Ok::<_, SpecSchemaError>(
                mirror_ty_view(t),
            ),
            Err(e) => spec_check_shape(reg@, i as int, *shape, *ann) == Err::<SpecMirrorTy, _>(
                e.deep_view(),
            ),
        },
    decreases shape,
{
    match shape {
        TypeShape::Primitive(k) => {
            let is_int = matches!(
                k,
                PrimitiveKind::U8 | PrimitiveKind::U16 | PrimitiveKind::U32 | PrimitiveKind::U64
                    | PrimitiveKind::Usize | PrimitiveKind::I8 | PrimitiveKind::I16
                    | PrimitiveKind::I32 | PrimitiveKind::I64 | PrimitiveKind::Isize
            );
            let is_float = matches!(k, PrimitiveKind::F32 | PrimitiveKind::F64);
            if matches!(k, PrimitiveKind::Bool | PrimitiveKind::Text) {
                match forbid_numeric_attrs(ann, kind_token_exec(*k)) {
                    Err(e) => Err(e),
                    Ok(u) => Ok(MirrorTy::Primitive(*k)),
                }
            } else if is_int || is_float {
                let min_ok = lit_matches_exec(&ann.min, is_int);
                let max_ok = lit_matches_exec(&ann.max, is_int);
                let step_ok = lit_matches_exec(&ann.step, is_int);
                if !(min_ok && max_ok && step_ok) {
                    Err(SchemaError::TypeMismatchLiteral(kind_token_exec(*k)))
                } else {
                    Ok(MirrorTy::Primitive(*k))
                }
            } else {
                Err(SchemaError::UnsupportedType(kind_token_exec(*k)))
            }
        },
        TypeShape::Optional(inner) => match check_shape(reg, i, inner, ann) {
            Err(e) => Err(e),
            Ok(t) => Ok(MirrorTy::Optional(Box::new(t))),
        },
        TypeShape::Switch(inner) => match check_shape(reg, i, inner, ann) {
            Err(e) => Err(e),
            Ok(t) => Ok(MirrorTy::Switch(Box::new(t))),
        },
        TypeShape::FixedArray(inner, len) => match check_shape(reg, i, inner, ann) {
            Err(e) => Err(e),
            Ok(t) => Ok(MirrorTy::Array(Box::new(t), *len)),
        },
        TypeShape::Collection(inner) => match check_shape(reg, i, inner, ann) {
            Err(e) => Err(e),
            Ok(t) => Ok(MirrorTy::Vector(Box::new(t))),
        },
        TypeShape::Dictionary(components) => {
            if components.len() != 2 {
                Err(SchemaError::WrongArgumentCount("Expected two arguments".to_owned()))
            } else if !matches!(&components[0], TypeShape::Primitive(PrimitiveKind::Text)) {
                Err(
                    SchemaError::WrongArgumentCount(
                        "First argument must be a `String`".to_owned(),
                    ),
                )
            } else {
                match check_shape(reg, i, &components[1], ann) {
                    Err(e) => Err(e),
                    Ok(t) => Ok(MirrorTy::Dictionary(Box::new(t))),
                }
            }
        },
        TypeShape::Composite(name) => {
            match forbid_numeric_attrs(ann, "custom".to_owned()) {
                Err(e) => Err(e),
                Ok(u) => match find_decl(reg, i, name) {
                    Some(j) => Ok(MirrorTy::Named(name.clone().concat("Default"))),
                    None => Err(SchemaError::CyclicReference(name.clone())),
                },
            }
        },
    }
}

/// Rejects any numeric or GUI attribute on a leaf of the named kind.
pub fn forbid_numeric_attrs(ann: &FieldAnnotation, token: String) -> (r: Result<(), SchemaError>)
    ensures
        match r {
            Ok(u) => spec_forbid_numeric_attrs(*ann, token@) == Ok::<(), SpecSchemaError>(()),
            Err(e) => spec_forbid_numeric_attrs(*ann, token@) == Err::<(), _>(e.deep_view()),
        },
{
    if ann.min.is_some() || ann.max.is_some() || ann.step.is_some() || ann.gui.is_some()
        || ann.suffix.is_some() {
        Err(SchemaError::UnexpectedAttribute(token))
    } else {
        Ok(())
    }
}

fn lit_matches_exec(l: &Option<NumLit>, integer: bool) -> (r: bool)
    ensures
        r == opt_lit_matches(*l, integer),
{
    match l {
        None => true,
        Some(NumLit::Int(v)) => integer,
        Some(NumLit::Float(bits)) => !integer,
    }
}

/// The schema node a checked shape and a fitting mirror value compile to.
/// For a shape that does not check or a mirror value that does not fit, the
/// result is a placeholder boolean node that no caller can reach.
pub open spec fn spec_node_shape(
    reg: Seq<Declaration>,
    i: int,
    shape: TypeShape,
    ann: FieldAnnotation,
    m: MirrorValue,
) -> SpecSchemaNode
    decreases i, 0int, shape,
{
    match shape {
        TypeShape::Primitive(k) => {
            if k == PrimitiveKind::Bool {
                match m {
                    MirrorValue::Bool(b) => SpecSchemaNode::Boolean { default: b },
                    _ => dummy_node(),
                }
            } else if is_integer_kind(k) {
                match m {
                    MirrorValue::Int(v) => SpecSchemaNode::Integer {
                        default: v,
                        min: int_lit_value(ann.min),
                        max: int_lit_value(ann.max),
                        step: int_lit_value(ann.step),
                        gui: ann.gui,
                        suffix: option_string_view(ann.suffix),
                    },
                    _ => dummy_node(),
                }
            } else if is_float_kind(k) {
                match m {
                    MirrorValue::Float(bits) => SpecSchemaNode::Float {
                        default: bits,
                        min: float_lit_bits(ann.min),
                        max: float_lit_bits(ann.max),
                        step: float_lit_bits(ann.step),
                        gui: ann.gui,
                        suffix: option_string_view(ann.suffix),
                    },
                    _ => dummy_node(),
                }
            } else if k == PrimitiveKind::Text {
                match m {
                    MirrorValue::Text(s) => SpecSchemaNode::Text { default: s@ },
                    _ => dummy_node(),
                }
            } else {
                dummy_node()
            }
        },
        TypeShape::Optional(inner) => match m {
            MirrorValue::Optional { set, content } => SpecSchemaNode::Optional {
                default_set: set,
                content: Box::new(spec_node_shape(reg, i, *inner, ann, *content)),
            },
            _ => dummy_node(),
        },
        TypeShape::Switch(inner) => match m {
            MirrorValue::Switch { enabled, content } => SpecSchemaNode::Switch {
                default_enabled: enabled,
                content_advanced: ann.advanced,
                content: Box::new(spec_node_shape(reg, i, *inner, ann, *content)),
            },
            _ => dummy_node(),
        },
        TypeShape::FixedArray(inner, len) => match m {
            MirrorValue::Array(items) => SpecSchemaNode::Array(
                Seq::new(items@.len(), |k: int| spec_node_shape(reg, i, *inner, ann, items@[k])),
            ),
            _ => dummy_node(),
        },
        TypeShape::Collection(inner) => match m {
            MirrorValue::Vector { element, default } => SpecSchemaNode::Vector {
                default_element: Box::new(spec_node_shape(reg, i, *inner, ann, *element)),
                default: mirror_values_view(default@),
            },
            _ => dummy_node(),
        },
        TypeShape::Dictionary(components) => {
            if components@.len() == 2 && (components@[0] matches TypeShape::Primitive(
                PrimitiveKind::Text,
            )) {
                match m {
                    MirrorValue::Dictionary { key, value, default } => SpecSchemaNode::Dictionary {
                        default_key: key@,
                        default_value: Box::new(
                            spec_node_shape(reg, i, components@[1], ann, *value),
                        ),
                        default: mirror_pairs_view(default@),
                    },
                    _ => dummy_node(),
                }
            } else {
                dummy_node()
            }
        },
        TypeShape::Composite(name) => {
            proof {
                lemma_find_decl_bound(reg, i, name@);
            }
            match spec_find_decl(reg, i, name@) {
                Some(j) => spec_node_decl(reg, j, m),
                None => dummy_node(),
            }
        },
    }
}

/// The placeholder node of the unreachable branches of [`spec_node_shape`].
pub open spec fn dummy_node() -> SpecSchemaNode {
    SpecSchemaNode::Boolean { default: false }
}

/// Builds the schema node of a checked shape from a fitting mirror value.
#[verifier::rlimit(80)]
pub fn node_shape(
    reg: &Vec<Declaration>,
    i: usize,
    shape: &TypeShape,
    ann: &FieldAnnotation,
    m: &MirrorValue,
) -> (r: SchemaNode)
    requires
        i <= reg@.len(),
        registry_ok(reg@, i as int),
        spec_check_shape(reg@, i as int, *shape, *ann) is Ok,
        fits_shape(reg@, i as int, *shape, *m),
    ensures
        r.deep_view() == spec_node_shape(reg@, i as int, *shape, *ann, *m),
    decreases i, 0int, shape,
{
    match shape {
        TypeShape::Primitive(k) => {
            if matches!(k, PrimitiveKind::Bool) {
                match m {
                    MirrorValue::Bool(b) => SchemaNode::Boolean { default: *b },
                    _ => unreached(),
                }
            } else if matches!(
                k,
                PrimitiveKind::U8 | PrimitiveKind::U16 | PrimitiveKind::U32 | PrimitiveKind::U64
                    | PrimitiveKind::Usize | PrimitiveKind::I8 | PrimitiveKind::I16
                    | PrimitiveKind::I32 | PrimitiveKind::I64 | PrimitiveKind::Isize
            ) {
                match m {
                    MirrorValue::Int(v) => SchemaNode::Integer {
                        default: *v,
                        min: int_lit_exec(&ann.min),
                        max: int_lit_exec(&ann.max),
                        step: int_lit_exec(&ann.step),
                        gui: ann.gui,
                        suffix: clone_opt_string(&ann.suffix),
                    },
                    _ => unreached(),
                }
            } else if matches!(k, PrimitiveKind::F32 | PrimitiveKind::F64) {
                match m {
                    MirrorValue::Float(bits) => SchemaNode::Float {
                        default: *bits,
                        min: float_lit_exec(&ann.min),
                        max: float_lit_exec(&ann.max),
                        step: float_lit_exec(&ann.step),
                        gui: ann.gui,
                        suffix: clone_opt_string(&ann.suffix),
                    },
                    _ => unreached(),
                }
            } else if matches!(k, PrimitiveKind::Text) {
                match m {
                    MirrorValue::Text(s) => SchemaNode::Text { default: s.clone() },
                    _ => unreached(),
                }
            } else {
                unreached()
            }
        },
        TypeShape::Optional(inner) => match m {
            MirrorValue::Optional { set, content } => SchemaNode::Optional {
                default_set: *set,
                content: Box::new(node_shape(reg, i, inner, ann, content)),
            },
            _ => unreached(),
        },
        TypeShape::Switch(inner) => match m {
            MirrorValue::Switch { enabled, content } => SchemaNode::Switch {
                default_enabled: *enabled,
                content_advanced: ann.advanced,
                content: Box::new(node_shape(reg, i, inner, ann, content)),
            },
            _ => unreached(),
        },
        TypeShape::FixedArray(inner, len) => match m {
            MirrorValue::Array(items) => {
                let mut children: Vec<SchemaNode> = Vec::new();
                let mut k: usize = 0;
                while k < items.len()
                    invariant
                        k <= items@.len(),
                        children@.len() == k,
                        i <= reg@.len(),
                        registry_ok(reg@, i as int),
                        spec_check_shape(reg@, i as int, *shape, *ann) is Ok,
                        fits_shape(reg@, i as int, *shape, *m),
                        *shape == TypeShape::FixedArray(*inner, *len),
                        *m == MirrorValue::Array(*items),
                        forall|idx: int|
                            0 <= idx < k ==> schema_node_view(#[trigger] children@[idx])
                                == spec_node_shape(reg@, i as int, *(*inner), *ann, items@[idx]),
                    decreases items@.len() - k,
                {
                    let child = node_shape(reg, i, inner, ann, &items[k]);
                    children.push(child);
                    k = k + 1;
                }
                proof {
                    lemma_nodes_view(children@);
                    let spec_result = spec_node_shape(reg@, i as int, *shape, *ann, *m);
                    let expected = (match spec_result {
                        SpecSchemaNode::Array(s) => s,
                        _ => Seq::empty(),
                    });
                    assert(spec_result == SpecSchemaNode::Array(expected));
                    assert forall|idx: int|
                        0 <= idx < items@.len() implies nodes_view(children@)[idx]
                        == expected[idx] by {
                        assert(schema_node_view(children@[idx]) == spec_node_shape(
                            reg@,
                            i as int,
                            *(*inner),
                            *ann,
                            items@[idx],
                        ));
                        assert(expected[idx] == spec_node_shape(
                            reg@,
                            i as int,
                            *(*inner),
                            *ann,
                            items@[idx],
                        ));
                    }
                    assert(nodes_view(children@) =~= expected);
                    assert(SpecSchemaNode::Array(nodes_view(children@)) == spec_result);
                }
                SchemaNode::Array(children)
            },
            _ => unreached(),
        },
        TypeShape::Collection(inner) => match m {
            MirrorValue::Vector { element, default } => SchemaNode::Vector {
                default_element: Box::new(node_shape(reg, i, inner, ann, element)),
                default: clone_mirror_values(default),
            },
            _ => unreached(),
        },
        TypeShape::Dictionary(components) => {
            if components.len() == 2 && matches!(
                &components[0],
                TypeShape::Primitive(PrimitiveKind::Text),
            ) {
                match m {
                    MirrorValue::Dictionary { key, value, default } => SchemaNode::Dictionary {
                        default_key: key.clone(),
                        default_value: Box::new(node_shape(reg, i, &components[1], ann, value)),
                        default: clone_mirror_pairs(default),
                    },
                    _ => unreached(),
                }
            } else {
                unreached()
            }
        },
        TypeShape::Composite(name) => {
            proof {
                lemma_find_decl_bound(reg@, i as int, name@);
            }
            match find_decl(reg, i, name) {
                Some(j) => {
                    proof {
                        assert(spec_check_decl(reg@, j as int) is Ok);
                    }
                    node_decl(reg, j, m)
                },
                None => unreached(),
            }
        },
    }
}

fn int_lit_exec(l: &Option<NumLit>) -> (r: Option<i128>)
    ensures
        r == int_lit_value(*l),
{
    match l {
        Some(NumLit::Int(v)) => Some(*v),
        _ => None,
    }
}

fn float_lit_exec(l: &Option<NumLit>) -> (r: Option<u64>)
    ensures
        r == float_lit_bits(*l),
{
    match l {
        Some(NumLit::Float(bits)) => Some(*bits),
        _ => None,
    }
}

fn clone_opt_string(s: &Option<String>) -> (r: Option<String>)
    ensures
        option_string_view(r) == option_string_view(*s),
{
    match s {
        Some(t) => Some(t.clone()),
        None => None,
    }
}

/// The two compiled artifacts of one shape: the mirror type the generated
/// default structure uses at this position, and the schema node built from
/// the default data.
#[derive(Debug, PartialEq)]
pub struct TypeSchemaData {
    pub default_ty: MirrorTy,
    pub node: SchemaNode,
}

pub struct SpecTypeSchemaData {
    pub default_ty: SpecMirrorTy,
    pub node: SpecSchemaNode,
}

impl DeepView for TypeSchemaData {
    type V = SpecTypeSchemaData;

    open spec fn deep_view(&self) -> SpecTypeSchemaData {
        SpecTypeSchemaData {
            default_ty: mirror_ty_view(self.default_ty),
            node: schema_node_view(self.node),
        }
    }
}

/// The full compilation of one shape: its mirror type and its schema node,
/// or the first diagnostic.
pub open spec fn spec_ty_schema(
    reg: Seq<Declaration>,
    i: int,
    shape: TypeShape,
    ann: FieldAnnotation,
    m: MirrorValue,
) -> Result<SpecTypeSchemaData, SpecSchemaError> {
    match spec_check_shape(reg, i, shape, ann) {
        Err(e) => Err(e),
        Ok(t) => Ok(
            SpecTypeSchemaData { default_ty: t, node: spec_node_shape(reg, i, shape, ann, m) },
        ),
    }
}

/// Compiles one shape with its annotations and its mirror-default value.
pub fn schema(
    reg: &Vec<Declaration>,
    i: usize,
    shape: &TypeShape,
    ann: &FieldAnnotation,
    m: &MirrorValue,
) -> (r: Result<TypeSchemaData, SchemaError>)
    requires
        i <= reg@.len(),
        registry_ok(reg@, i as int),
        fits_shape(reg@, i as int, *shape, *m),
    ensures
        match r {
            Ok(data) => spec_ty_schema(reg@, i as int, *shape, *ann, *m) == Ok::<
                _,
                SpecSchemaError,
            >(data.deep_view()),
            Err(e) => spec_ty_schema(reg@, i as int, *shape, *ann, *m) == Err::<
                SpecTypeSchemaData,
                _,
            >(e.deep_view()),
        },
    decreases i, 1int, shape,
{
    match check_shape(reg, i, shape, ann) {
        Err(e) => Err(e),
        Ok(default_ty) => {
            let node = node_shape(reg, i, shape, ann, m);
            Ok(TypeSchemaData { default_ty, node })
        },
    }
}

} // verus!
