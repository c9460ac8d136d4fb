//! The input model: declared type shapes, field annotations, declarations,
//! the registry of already-compiled declarations, and the mirror-type
//! descriptions the compiler derives.
//!
//! A declaration is compiled against a registry: an ordered list of
//! declarations in build order, where a composite reference may only name a
//! declaration that stands strictly earlier in the list.  A reference that
//! does not resolve this way is a reference cycle or a build-order violation
//! and is rejected.

use vstd::prelude::*;

use crate::node::HigherOrderType;
use crate::node::MirrorValue;
use crate::node::NumLit;
use crate::node::NumericGuiType;
use crate::node::ChoiceControlType;
use crate::node::UpdateType;

verus! {

/// The closed set of primitive leaf tokens.  The oversized integers are
/// recognized but rejected by the leaf compiler.
#[derive(Clone, Copy, Debug, PartialEq, Eq, Structural)]
pub enum PrimitiveKind {
    Bool,
    U8,
    U16,
    U32,
    U64,
    Usize,
    U128,
    I8,
    I16,
    I32,
    I64,
    Isize,
    I128,
    F32,
    F64,
    Text,
}

pub open spec fn is_unsigned_kind(k: PrimitiveKind) -> bool {
    k == PrimitiveKind::U8 || k == PrimitiveKind::U16 || k == PrimitiveKind::U32 || k
        == PrimitiveKind::U64 || k == PrimitiveKind::Usize
}

pub open spec fn is_signed_kind(k: PrimitiveKind) -> bool {
    k == PrimitiveKind::I8 || k == PrimitiveKind::I16 || k == PrimitiveKind::I32 || k
        == PrimitiveKind::I64 || k == PrimitiveKind::Isize
}

/// The integer kinds accepted by the leaf compiler.
pub open spec fn is_integer_kind(k: PrimitiveKind) -> bool {
    is_unsigned_kind(k) || is_signed_kind(k)
}

pub open spec fn is_float_kind(k: PrimitiveKind) -> bool {
    k == PrimitiveKind::F32 || k == PrimitiveKind::F64
}

/// The declared shape of a field: a primitive leaf, a single-argument
/// wrapper, a collection of pairs (the dictionary surface form, carrying its
/// declared pair components), or a reference to another declared type.
#[derive(Debug, PartialEq)]
pub enum TypeShape {
    Primitive(PrimitiveKind),
    Optional(Box<TypeShape>),
    Switch(Box<TypeShape>),
    FixedArray(Box<TypeShape>, usize),
    Collection(Box<TypeShape>),
    Dictionary(Vec<TypeShape>),
    Composite(String),
}

/// One update rule of a higher-order setting, before path compilation: the
/// target and the variables are still path-expression strings.
#[derive(Debug, PartialEq)]
pub struct ModifierDesc {
    pub target: String,
    pub update_op: UpdateType,
    pub expr: String,
    pub vars: Vec<String>,
}

/// A higher-order (derived) setting declaration: a name, a data kind, and
/// the update rules it drives.
#[derive(Debug, PartialEq)]
pub struct HigherOrderSetting {
    pub name: String,
    pub data: HigherOrderType,
    pub modifiers: Vec<ModifierDesc>,
}

/// The annotations attached to one field.
#[derive(Debug, PartialEq)]
pub struct FieldAnnotation {
    pub advanced: bool,
    pub min: Option<NumLit>,
    pub max: Option<NumLit>,
    pub step: Option<NumLit>,
    pub gui: Option<NumericGuiType>,
    pub suffix: Option<String>,
    pub strings: Vec<(String, String)>,
    pub placeholders: Vec<String>,
    pub higher_order: Vec<HigherOrderSetting>,
}

/// One named, annotated field of a record.
#[derive(Debug, PartialEq)]
pub struct Field {
    pub name: String,
    pub shape: TypeShape,
    pub annotation: FieldAnnotation,
}

/// The payload of a union variant: no data, exactly one wrapped shape, or a
/// record of named fields.
#[derive(Debug, PartialEq)]
pub enum VariantData {
    Unit,
    Single { shape: TypeShape, annotation: FieldAnnotation },
    Record(Vec<Field>),
}

/// One named variant of a union.
#[derive(Debug, PartialEq)]
pub struct Variant {
    pub name: String,
    pub data: VariantData,
}

/// The body of a declaration: an ordered record, or a tagged union with an
/// optional global choice-control hint.
#[derive(Debug, PartialEq)]
pub enum DeclBody {
    Record(Vec<Field>),
    Union { variants: Vec<Variant>, gui: Option<ChoiceControlType> },
}

/// One declaration handed in by the front end: a name, its declared type
/// parameters (rejected when non-empty), and its body.
#[derive(Debug, PartialEq)]
pub struct Declaration {
    pub name: String,
    pub generics: Vec<String>,
    pub body: DeclBody,
}

/// A reference to the mirror type of a compiled shape.
#[derive(Debug, PartialEq)]
pub enum MirrorTy {
    Primitive(PrimitiveKind),
    Array(Box<MirrorTy>, usize),
    Optional(Box<MirrorTy>),
    Switch(Box<MirrorTy>),
    Vector(Box<MirrorTy>),
    Dictionary(Box<MirrorTy>),
    Named(String),
}

pub enum SpecMirrorTy {
    Primitive(PrimitiveKind),
    Array(Box<SpecMirrorTy>, int),
    Optional(Box<SpecMirrorTy>),
    Switch(Box<SpecMirrorTy>),
    Vector(Box<SpecMirrorTy>),
    Dictionary(Box<SpecMirrorTy>),
    Named(Seq<char>),
}

pub open spec fn mirror_ty_view(t: MirrorTy) -> SpecMirrorTy
    decreases t,
{
    match t {
        MirrorTy::Primitive(k) => SpecMirrorTy::Primitive(k),
        MirrorTy::Array(inner, len) => SpecMirrorTy::Array(
            Box::new(mirror_ty_view(*inner)),
            len as int,
        ),
        MirrorTy::Optional(inner) => SpecMirrorTy::Optional(Box::new(mirror_ty_view(*inner))),
        MirrorTy::Switch(inner) => SpecMirrorTy::Switch(Box::new(mirror_ty_view(*inner))),
        MirrorTy::Vector(inner) => SpecMirrorTy::Vector(Box::new(mirror_ty_view(*inner))),
        MirrorTy::Dictionary(inner) => SpecMirrorTy::Dictionary(Box::new(mirror_ty_view(*inner))),
        MirrorTy::Named(name) => SpecMirrorTy::Named(name@),
    }
}

impl DeepView for MirrorTy {
    type V = SpecMirrorTy;

    open spec fn deep_view(&self) -> SpecMirrorTy {
        mirror_ty_view(*self)
    }
}

/// One field of a generated mirror type: the original field's name and the
/// mirror type of its shape.
#[derive(Debug, PartialEq)]
pub struct MirrorField {
    pub name: String,
    pub ty: MirrorTy,
}

pub struct SpecMirrorField {
    pub name: Seq<char>,
    pub ty: SpecMirrorTy,
}

impl DeepView for MirrorField {
    type V = SpecMirrorField;

    open spec fn deep_view(&self) -> SpecMirrorField {
        SpecMirrorField { name: self.name@, ty: mirror_ty_view(self.ty) }
    }
}

/// An auxiliary generated record mirror type, one per record-shaped union
/// variant.
#[derive(Debug, PartialEq)]
pub struct AuxRecordTy {
    pub name: String,
    pub fields: Vec<MirrorField>,
}

pub struct SpecAuxRecordTy {
    pub name: Seq<char>,
    pub fields: Seq<SpecMirrorField>,
}

impl DeepView for AuxRecordTy {
    type V = SpecAuxRecordTy;

    open spec fn deep_view(&self) -> SpecAuxRecordTy {
        SpecAuxRecordTy { name: self.name@, fields: self.fields.deep_view() }
    }
}

/// The synthesized default-variant selector type of a union: an enumeration
/// of the variant names, in declaration order.
#[derive(Debug, PartialEq)]
pub struct SelectorTy {
    pub name: String,
    pub cases: Vec<String>,
}

pub struct SpecSelectorTy {
    pub name: Seq<char>,
    pub cases: Seq<Seq<char>>,
}

impl DeepView for SelectorTy {
    type V = SpecSelectorTy;

    open spec fn deep_view(&self) -> SpecSelectorTy {
        SpecSelectorTy { name: self.name@, cases: self.cases.deep_view() }
    }
}

/// The auxiliary objects synthesized for a union: the per-variant record
/// mirror types and the default-variant selector.
#[derive(Debug, PartialEq)]
pub struct AuxObjects {
    pub records: Vec<AuxRecordTy>,
    pub selector: SelectorTy,
}

pub struct SpecAuxObjects {
    pub records: Seq<SpecAuxRecordTy>,
    pub selector: SpecSelectorTy,
}

impl DeepView for AuxObjects {
    type V = SpecAuxObjects;

    open spec fn deep_view(&self) -> SpecAuxObjects {
        SpecAuxObjects { records: self.records.deep_view(), selector: self.selector.deep_view() }
    }
}

/// The first declaration among `reg[from..i]` whose name is `name`, if any.
pub open spec fn spec_find_from(reg: Seq<Declaration>, from: int, i: int, name: Seq<char>) -> Option<
    int,
>
    decreases i - from,
{
    if from >= i {
        None
    } else if reg[from].name@ == name {
        Some(from)
    } else {
        spec_find_from(reg, from + 1, i, name)
    }
}

/// The declaration a composite reference resolves to: the first declaration
/// strictly before position `i` that carries the referenced name.
pub open spec fn spec_find_decl(reg: Seq<Declaration>, i: int, name: Seq<char>) -> Option<int> {
    spec_find_from(reg, 0, i, name)
}

pub proof fn lemma_find_from_bound(reg: Seq<Declaration>, from: int, i: int, name: Seq<char>)
    ensures
        match spec_find_from(reg, from, i, name) {
            Some(j) => from <= j < i && reg[j].name@ == name,
            None => true,
        },
    decreases i - from,
{
    if from < i && reg[from].name@ != name {
        lemma_find_from_bound(reg, from + 1, i, name);
    }
}

pub proof fn lemma_find_decl_bound(reg: Seq<Declaration>, i: int, name: Seq<char>)
    ensures
        match spec_find_decl(reg, i, name) {
            Some(j) => 0 <= j < i && reg[j].name@ == name,
            None => true,
        },
{
    lemma_find_from_bound(reg, 0, i, name);
}

/// Looks a composite reference up among the declarations compiled before
/// position `i`.
pub fn find_decl(reg: &Vec<Declaration>, i: usize, name: &String) -> (r: Option<usize>)
    requires
        i <= reg@.len(),
    ensures
        match r {
            Some(j) => spec_find_decl(reg@, i as int, name@) == Some(j as int) && j < i,
            None => spec_find_decl(reg@, i as int, name@) is None,
        },
{
    let mut k: usize = 0;
    while k < i
        invariant
            k <= i <= reg@.len(),
            spec_find_from(reg@, 0, i as int, name@) == spec_find_from(
                reg@,
                k as int,
                i as int,
                name@,
            ),
        decreases i - k,
    {
        if reg[k].name.eq(name) {
            return Some(k);
        }
        k = k + 1;
    }
    None
}

/// The number of data-bearing variants among the first `k` variants.
pub open spec fn data_count(variants: Seq<Variant>, k: int) -> int
    decreases k,
{
    if k <= 0 {
        0
    } else {
        data_count(variants, k - 1) + (if variants[k - 1].data is Unit {
            0int
        } else {
            1int
        })
    }
}

pub proof fn lemma_data_count_bounds(variants: Seq<Variant>, k: int)
    requires
        0 <= k <= variants.len(),
    ensures
        0 <= data_count(variants, k) <= k,
        k > 0 ==> data_count(variants, k - 1) <= data_count(variants, k),
    decreases k,
{
    if k > 0 {
        lemma_data_count_bounds(variants, k - 1);
    }
}

/// Whether a mirror value has the structure the given shape calls for.  For
/// a shape the compiler rejects, no structure is demanded: the compiler
/// fails before reading the mirror.
pub open spec fn fits_shape(reg: Seq<Declaration>, i: int, shape: TypeShape, m: MirrorValue) -> bool
    decreases i, 0int, shape,
{
    match shape {
        TypeShape::Primitive(k) => {
            if k == PrimitiveKind::Bool {
                m is Bool
            } else if is_integer_kind(k) {
                m is Int
            } else if is_float_kind(k) {
                m is Float
            } else if k == PrimitiveKind::Text {
                m is Text
            } else {
                true
            }
        },
        TypeShape::Optional(inner) => match m {
            MirrorValue::Optional { set, content } => fits_shape(reg, i, *inner, *content),
            _ => false,
        },
        TypeShape::Switch(inner) => match m {
            MirrorValue::Switch { enabled, content } => fits_shape(reg, i, *inner, *content),
            _ => false,
        },
        TypeShape::FixedArray(inner, len) => match m {
            MirrorValue::Array(items) => items@.len() == len as int && (forall|k: int|
                0 <= k < items@.len() ==> fits_shape(reg, i, *inner, #[trigger] items@[k])),
            _ => false,
        },
        TypeShape::Collection(inner) => match m {
            MirrorValue::Vector { element, default } => fits_shape(reg, i, *inner, *element) && (
            forall|k: int|
                0 <= k < default@.len() ==> fits_shape(reg, i, *inner, #[trigger] default@[k])),
            _ => false,
        },
        TypeShape::Dictionary(components) => {
            if components@.len() == 2 && (components@[0] matches TypeShape::Primitive(
                PrimitiveKind::Text,
            )) {
                match m {
                    MirrorValue::Dictionary { key, value, default } => fits_shape(
                        reg,
                        i,
                        components@[1],
                        *value,
                    ) && (forall|k: int|
                        0 <= k < default@.len() ==> fits_shape(
                            reg,
                            i,
                            components@[1],
                            (#[trigger] default@[k]).1,
                        )),
                    _ => false,
                }
            } else {
                true
            }
        },
        TypeShape::Composite(name) => {
            proof {
                lemma_find_decl_bound(reg, i, name@);
            }
            match spec_find_decl(reg, i, name@) {
                Some(j) => fits_decl(reg, j, m),
                None => true,
            }
        },
    }
}

/// Whether a record mirror value lists exactly the declared fields, in
/// order, each with a fitting mirror value.
pub open spec fn fits_record_fields(
    reg: Seq<Declaration>,
    i: int,
    fields: Seq<Field>,
    mfields: Seq<(String, MirrorValue)>,
) -> bool
    decreases i, 1int, fields,
{
    &&& mfields.len() == fields.len()
    &&& forall|k: int| 0 <= k < fields.len() ==> (#[trigger] mfields[k]).0@ == fields[k].name@
    &&& forall|k: int|
        0 <= k < fields.len() ==> fits_shape(reg, i, (#[trigger] fields[k]).shape, mfields[k].1)
}

/// Whether a union mirror value carries one fitting mirror entry per
/// data-bearing variant, in declaration order.
pub open spec fn fits_variant_data(
    reg: Seq<Declaration>,
    i: int,
    variants: Seq<Variant>,
    data: Seq<(String, MirrorValue)>,
) -> bool
    decreases i, 2int, variants,
{
    &&& data.len() == data_count(variants, variants.len() as int)
    &&& forall|k: int|
        #![trigger variants[k]]
        0 <= k < variants.len() ==> {
            match variants[k].data {
                VariantData::Unit => true,
                VariantData::Single { shape, annotation } => {
                    &&& 0 <= data_count(variants, k) < data.len()
                    &&& data[data_count(variants, k)].0@ == variants[k].name@
                    &&& fits_shape(reg, i, shape, data[data_count(variants, k)].1)
                },
                VariantData::Record(fields) => {
                    &&& 0 <= data_count(variants, k) < data.len()
                    &&& data[data_count(variants, k)].0@ == variants[k].name@
                    &&& match data[data_count(variants, k)].1 {
                        MirrorValue::Record { fields: mf } => fits_record_fields(
                            reg,
                            i,
                            fields@,
                            mf@,
                        ),
                        _ => false,
                    }
                },
            }
        }
}

/// Whether a union mirror value carries a selector naming one of the
/// variants and one fitting mirror entry per data-bearing variant, in
/// declaration order.
pub open spec fn fits_variants(
    reg: Seq<Declaration>,
    i: int,
    variants: Seq<Variant>,
    selector: Seq<char>,
    data: Seq<(String, MirrorValue)>,
) -> bool
    decreases i, 3int, variants,
{
    &&& fits_variant_data(reg, i, variants, data)
    &&& (exists|k: int| 0 <= k < variants.len() && (#[trigger] variants[k]).name@ == selector)
}

/// Dropping the first variant shifts the count of data-bearing variants by
/// the first variant's own contribution.
pub proof fn lemma_data_count_drop(variants: Seq<Variant>, k: int)
    requires
        variants.len() > 0,
        0 <= k <= variants.len() - 1,
    ensures
        data_count(variants.drop_first(), k) == data_count(variants, k + 1) - data_count(
            variants,
            1,
        ),
    decreases k,
{
    if k > 0 {
        lemma_data_count_drop(variants, k - 1);
        assert(variants.drop_first()[k - 1] == variants[k]);
    }
}

/// A fitting mirror for a variant list also fits its tail, with the data
/// entries of the first variant consumed.
pub proof fn lemma_fits_variant_data_drop(
    reg: Seq<Declaration>,
    i: int,
    variants: Seq<Variant>,
    data: Seq<(String, MirrorValue)>,
)
    requires
        fits_variant_data(reg, i, variants, data),
        variants.len() > 0,
    ensures
        fits_variant_data(
            reg,
            i,
            variants.drop_first(),
            data.skip(data_count(variants, 1)),
        ),
{
    let vrest = variants.drop_first();
    let c1 = data_count(variants, 1);
    let drest = data.skip(c1);
    lemma_data_count_bounds(variants, 1);
    assert(data_count(variants, variants.len() as int) >= c1) by {
        lemma_data_count_mono(variants, 1, variants.len() as int);
    }
    lemma_data_count_drop(variants, vrest.len() as int);
    assert(drest.len() == data_count(vrest, vrest.len() as int));
    assert forall|k: int| #![trigger vrest[k]] 0 <= k < vrest.len() implies {
        match vrest[k].data {
            VariantData::Unit => true,
            VariantData::Single { shape, annotation } => {
                &&& 0 <= data_count(vrest, k) < drest.len()
                &&& drest[data_count(vrest, k)].0@ == vrest[k].name@
                &&& fits_shape(reg, i, shape, drest[data_count(vrest, k)].1)
            },
            VariantData::Record(fields) => {
                &&& 0 <= data_count(vrest, k) < drest.len()
                &&& drest[data_count(vrest, k)].0@ == vrest[k].name@
                &&& match drest[data_count(vrest, k)].1 {
                    MirrorValue::Record { fields: mf } => fits_record_fields(
                        reg,
                        i,
                        fields@,
                        mf@,
                    ),
                    _ => false,
                }
            },
        }
    } by {
        assert(vrest[k] == variants[k + 1]);
        lemma_data_count_drop(variants, k);
        lemma_data_count_bounds(variants, k + 1);
        lemma_data_count_bounds(vrest, k);
        lemma_data_count_mono(variants, 1, k + 1);
        if !(vrest[k].data is Unit) {
            assert(0 <= data_count(variants, k + 1) < data.len());
            assert(c1 + data_count(vrest, k) == data_count(variants, k + 1));
            assert(drest[data_count(vrest, k)] == data[c1 + data_count(vrest, k)]);
        }
    }
}

/// The count of data-bearing variants is monotone in the prefix length.
pub proof fn lemma_data_count_mono(variants: Seq<Variant>, a: int, b: int)
    requires
        0 <= a <= b,
    ensures
        data_count(variants, a) <= data_count(variants, b),
    decreases b - a,
{
    if a < b {
        lemma_data_count_mono(variants, a, b - 1);
        lemma_data_count_bounds_step(variants, b);
    }
}

proof fn lemma_data_count_bounds_step(variants: Seq<Variant>, k: int)
    requires
        k >= 1,
    ensures
        data_count(variants, k - 1) <= data_count(variants, k),
{
}

/// Whether a mirror value is a well-shaped default instance for the
/// declaration at position `i`.
pub open spec fn fits_decl(reg: Seq<Declaration>, i: int, m: MirrorValue) -> bool
    decreases i, 4int, reg[i],
{
    match reg[i].body {
        DeclBody::Record(fields) => match m {
            MirrorValue::Record { fields: mf } => fits_record_fields(reg, i, fields@, mf@),
            _ => false,
        },
        DeclBody::Union { variants, gui } => match m {
            MirrorValue::Union { variant, data } => fits_variants(
                reg,
                i,
                variants@,
                variant@,
                data@,
            ),
            _ => false,
        },
    }
}

} // verus!
