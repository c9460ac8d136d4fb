//! The structural laws of the compiler.
//!
//! Each law is stated over the mathematical model that the executable
//! compiler is proved to implement, and is proved from the model alone:
//!
//! * shape fidelity ([`lemma_decl_fidelity`], [`lemma_shape_fidelity`]):
//!   every compiled node's kind corresponds one-to-one to the outer
//!   constructor of the shape it was compiled from, recursively, at any
//!   nesting depth;
//! * entry-order preservation ([`lemma_entry_order`]): section entries and
//!   mirror fields keep declaration order, with the placeholder and
//!   higher-order entries of a field standing immediately before the field's
//!   own entry, in their own declaration order;
//! * selector round-trip ([`lemma_selector_round_trip`]): a compiled union's
//!   choice node carries exactly the mirror's default-variant name, and every
//!   data-bearing variant keeps its mirror field whether or not it is the
//!   active default;
//! * determinism ([`lemma_compile_deterministic`]): compiling the same
//!   declaration twice yields structurally identical results.

use vstd::prelude::*;

use crate::decl::group_len;
use crate::decl::registry_ok;
use crate::decl::spec_check_decl;
use crate::decl::spec_check_fields;
use crate::decl::spec_check_variants;
use crate::decl::spec_field_group;
use crate::decl::spec_ho_entry;
use crate::decl::spec_node_decl;
use crate::decl::spec_node_fields;
use crate::decl::spec_schema;
use crate::decl::spec_variant_entries;
use crate::decl::selector_field_name;
use crate::decl::SpecCompiledDeclaration;
use crate::error::SpecSchemaError;
use crate::node::MirrorValue;
use crate::node::SpecEntryData;
use crate::node::SpecEntryType;
use crate::node::SpecSchemaNode;
use crate::shape::DeclBody;
use crate::shape::Declaration;
use crate::shape::Field;
use crate::shape::FieldAnnotation;
use crate::shape::PrimitiveKind;
use crate::shape::SpecMirrorField;
use crate::shape::TypeShape;
use crate::shape::Variant;
use crate::shape::VariantData;
use crate::shape::data_count;
use crate::shape::fits_decl;
use crate::shape::fits_record_fields;
use crate::shape::fits_shape;
use crate::shape::fits_variant_data;
use crate::shape::is_float_kind;
use crate::shape::is_integer_kind;
use crate::shape::lemma_data_count_bounds;
use crate::shape::lemma_fits_variant_data_drop;
use crate::shape::lemma_find_decl_bound;
use crate::shape::spec_find_decl;
use crate::ty::spec_check_shape;
use crate::ty::spec_node_shape;

verus! {

/// Whether a schema node's kind corresponds one-to-one to the outer
/// constructor of the shape, recursively through wrappers, sections, choices
/// and composite references.
pub open spec fn node_matches_shape(
    reg: Seq<Declaration>,
    i: int,
    shape: TypeShape,
    n: SpecSchemaNode,
) -> bool
    decreases i, 0int, shape,
{
    match shape {
        TypeShape::Primitive(k) => {
            if k == PrimitiveKind::Bool {
                n is Boolean
            } else if is_integer_kind(k) {
                n is Integer
            } else if is_float_kind(k) {
                n is Float
            } else if k == PrimitiveKind::Text {
                n is Text
            } else {
                true
            }
        },
        TypeShape::Optional(inner) => n matches SpecSchemaNode::Optional { default_set, content }
            && node_matches_shape(reg, i, *inner, *content),
        TypeShape::Switch(inner) => n matches SpecSchemaNode::Switch {
            default_enabled,
            content_advanced,
            content,
        } && node_matches_shape(reg, i, *inner, *content),
        TypeShape::FixedArray(inner, len) => n matches SpecSchemaNode::Array(children)
            && children.len() == len as int && (forall|k: int|
            0 <= k < children.len() ==> node_matches_shape(reg, i, *inner, #[trigger] children[k])),
        TypeShape::Collection(inner) => n matches SpecSchemaNode::Vector {
            default_element,
            default,
        } && node_matches_shape(reg, i, *inner, *default_element),
        TypeShape::Dictionary(components) => {
            if components@.len() == 2 && (components@[0] matches TypeShape::Primitive(
                PrimitiveKind::Text,
            )) {
                n matches SpecSchemaNode::Dictionary { default_key, default_value, default }
                    && node_matches_shape(reg, i, components@[1], *default_value)
            } else {
                true
            }
        },
        TypeShape::Composite(name) => {
            proof {
                lemma_find_decl_bound(reg, i, name@);
            }
            match spec_find_decl(reg, i, name@) {
                Some(j) => node_matches_decl(reg, j, n),
                None => true,
            }
        },
    }
}

/// Whether section entries correspond to the declared fields: each field
/// owns a block of entries ending in its own data entry, whose content
/// matches the field's shape.
pub open spec fn entries_match_fields(
    reg: Seq<Declaration>,
    i: int,
    fields: Seq<Field>,
    entries: Seq<(Seq<char>, SpecEntryType)>,
) -> bool
    decreases i, 2int, fields,
{
    if fields.len() == 0 {
        entries.len() == 0
    } else {
        let g = group_len(fields[0]);
        &&& entries.len() >= g
        &&& entries[g - 1].0 == fields[0].name@
        &&& entries[g - 1].1 matches SpecEntryType::Data(d) && node_matches_shape(
            reg,
            i,
            fields[0].shape,
            d.content,
        )
        &&& entries_match_fields(reg, i, fields.drop_first(), entries.skip(g))
    }
}

/// Whether choice entries correspond to the declared variants, one entry per
/// variant in order: none for a unit variant, matching content for a
/// data-bearing one.
pub open spec fn variants_match(
    reg: Seq<Declaration>,
    i: int,
    variants: Seq<Variant>,
    ventries: Seq<(Seq<char>, Option<SpecEntryData>)>,
) -> bool
    decreases i, 3int, variants,
{
    if variants.len() == 0 {
        ventries.len() == 0
    } else {
        &&& ventries.len() >= 1
        &&& ventries[0].0 == variants[0].name@
        &&& (match variants[0].data {
            VariantData::Unit => ventries[0].1 is None,
            VariantData::Single { shape, annotation } => ventries[0].1 matches Some(d)
                && node_matches_shape(reg, i, shape, d.content),
            VariantData::Record(fields) => ventries[0].1 matches Some(d) && (
            d.content matches SpecSchemaNode::Section { entries } && entries_match_fields(
                reg,
                i,
                fields@,
                entries,
            )),
        })
        &&& variants_match(reg, i, variants.drop_first(), ventries.drop_first())
    }
}

/// Whether a schema node corresponds to the declaration at position `i`: a
/// section for a record, a choice for a union, with matching entries.
pub open spec fn node_matches_decl(reg: Seq<Declaration>, i: int, n: SpecSchemaNode) -> bool
    decreases i, 4int, reg[i],
{
    match reg[i].body {
        DeclBody::Record(fields) => n matches SpecSchemaNode::Section { entries }
            && entries_match_fields(reg, i, fields@, entries),
        DeclBody::Union { variants, gui } => n matches SpecSchemaNode::Choice {
            default,
            variants: ventries,
            gui: g,
        } && variants_match(reg, i, variants@, ventries),
    }
}

proof fn lemma_fits_fields_drop(
    reg: Seq<Declaration>,
    i: int,
    fields: Seq<Field>,
    mfields: Seq<(String, MirrorValue)>,
)
    requires
        fits_record_fields(reg, i, fields, mfields),
        fields.len() > 0,
    ensures
        fits_record_fields(reg, i, fields.drop_first(), mfields.drop_first()),
{
    let fr = fields.drop_first();
    let mr = mfields.drop_first();
    assert forall|k: int| 0 <= k < fr.len() implies (#[trigger] mr[k]).0@ == fr[k].name@ by {
        assert(mfields[k + 1].0@ == fields[k + 1].name@);
    }
    assert forall|k: int|
        0 <= k < fr.len() implies fits_shape(reg, i, (#[trigger] fr[k]).shape, mr[k].1) by {
        assert(fits_shape(reg, i, fields[k + 1].shape, mfields[k + 1].1));
    }
}

/// Shape fidelity at the shape level: the compiled node's kind corresponds
/// to the shape's outer constructor, recursively.
pub proof fn lemma_shape_fidelity(
    reg: Seq<Declaration>,
    i: int,
    shape: TypeShape,
    ann: FieldAnnotation,
    m: MirrorValue,
)
    requires
        0 <= i <= reg.len(),
        registry_ok(reg, i),
        spec_check_shape(reg, i, shape, ann) is Ok,
        fits_shape(reg, i, shape, m),
    ensures
        node_matches_shape(reg, i, shape, spec_node_shape(reg, i, shape, ann, m)),
    decreases i, 0int, shape,
{
    let n = spec_node_shape(reg, i, shape, ann, m);
    match shape {
        TypeShape::Primitive(k) => {},
        TypeShape::Optional(inner) => {
            match m {
                MirrorValue::Optional { set, content } => {
                    lemma_shape_fidelity(reg, i, *inner, ann, *content);
                },
                _ => {},
            }
        },
        TypeShape::Switch(inner) => {
            match m {
                MirrorValue::Switch { enabled, content } => {
                    lemma_shape_fidelity(reg, i, *inner, ann, *content);
                },
                _ => {},
            }
        },
        TypeShape::FixedArray(inner, len) => {
            match m {
                MirrorValue::Array(items) => {
                    match n {
                        SpecSchemaNode::Array(children) => {
                            assert forall|k: int|
                                0 <= k < children.len() implies node_matches_shape(
                                reg,
                                i,
                                *inner,
                                #[trigger] children[k],
                            ) by {
                                assert(fits_shape(reg, i, *inner, items@[k]));
                                lemma_shape_fidelity(reg, i, *inner, ann, items@[k]);
                                assert(children[k] == spec_node_shape(
                                    reg,
                                    i,
                                    *inner,
                                    ann,
                                    items@[k],
                                ));
                            }
                        },
                        _ => {},
                    }
                },
                _ => {},
            }
        },
        TypeShape::Collection(inner) => {
            match m {
                MirrorValue::Vector { element, default } => {
                    lemma_shape_fidelity(reg, i, *inner, ann, *element);
                },
                _ => {},
            }
        },
        TypeShape::Dictionary(components) => {
            if components@.len() == 2 && (components@[0] matches TypeShape::Primitive(
                PrimitiveKind::Text,
            )) {
                match m {
                    MirrorValue::Dictionary { key, value, default } => {
                        lemma_shape_fidelity(reg, i, components@[1], ann, *value);
                    },
                    _ => {},
                }
            }
        },
        TypeShape::Composite(name) => {
            lemma_find_decl_bound(reg, i, name@);
            match spec_find_decl(reg, i, name@) {
                Some(j) => {
                    assert(spec_check_decl(reg, j) is Ok);
                    lemma_decl_fidelity(reg, j, m);
                },
                None => {},
            }
        },
    }
}

/// Shape fidelity for a record's fields.
pub proof fn lemma_fields_fidelity(
    reg: Seq<Declaration>,
    i: int,
    fields: Seq<Field>,
    mfields: Seq<(String, MirrorValue)>,
)
    requires
        0 <= i <= reg.len(),
        registry_ok(reg, i),
        spec_check_fields(reg, i, fields) is Ok,
        fits_record_fields(reg, i, fields, mfields),
    ensures
        entries_match_fields(reg, i, fields, spec_node_fields(reg, i, fields, mfields)),
    decreases i, 2int, fields,
{
    if fields.len() > 0 {
        let f = fields[0];
        let g = group_len(f);
        let group = spec_field_group(reg, i, f, mfields[0].1);
        let rest = spec_node_fields(reg, i, fields.drop_first(), mfields.drop_first());
        let entries = spec_node_fields(reg, i, fields, mfields);
        assert(entries == group + rest);
        assert(group.len() == g);
        assert(entries[g - 1] == group[g - 1]);
        assert(fits_shape(reg, i, fields[0].shape, mfields[0].1));
        lemma_shape_fidelity(reg, i, f.shape, f.annotation, mfields[0].1);
        assert(entries.skip(g) =~= rest);
        lemma_fits_fields_drop(reg, i, fields, mfields);
        lemma_fields_fidelity(reg, i, fields.drop_first(), mfields.drop_first());
    }
}

/// Shape fidelity for a union's variants.
pub proof fn lemma_variants_fidelity(
    reg: Seq<Declaration>,
    i: int,
    uname: Seq<char>,
    variants: Seq<Variant>,
    data: Seq<(String, MirrorValue)>,
)
    requires
        0 <= i <= reg.len(),
        registry_ok(reg, i),
        spec_check_variants(reg, i, uname, variants) is Ok,
        fits_variant_data(reg, i, variants, data),
    ensures
        variants_match(reg, i, variants, spec_variant_entries(reg, i, variants, data)),
    decreases i, 3int, variants,
{
    if variants.len() > 0 {
        let v = variants[0];
        let ventries = spec_variant_entries(reg, i, variants, data);
        let vrest = variants.drop_first();
        lemma_fits_variant_data_drop(reg, i, variants, data);
        lemma_data_count_bounds(variants, 1);
        assert(variants[0] == v);
        match v.data {
            VariantData::Unit => {
                assert(data_count(variants, 1) == 0);
                assert(data.skip(0) =~= data);
                lemma_variants_fidelity(reg, i, uname, vrest, data);
                assert(ventries.drop_first() =~= spec_variant_entries(reg, i, vrest, data));
            },
            VariantData::Single { shape, annotation } => {
                assert(data_count(variants, 0) == 0);
                assert(0 <= data_count(variants, 0) < data.len());
                assert(fits_shape(reg, i, shape, data[0].1));
                lemma_shape_fidelity(reg, i, shape, annotation, data[0].1);
                assert(data_count(variants, 1) == 1);
                assert(data.skip(1) =~= data.drop_first());
                lemma_variants_fidelity(reg, i, uname, vrest, data.drop_first());
                assert(ventries.drop_first() =~= spec_variant_entries(
                    reg,
                    i,
                    vrest,
                    data.drop_first(),
                ));
            },
            VariantData::Record(fields) => {
                assert(data_count(variants, 0) == 0);
                assert(0 <= data_count(variants, 0) < data.len());
                match data[0].1 {
                    MirrorValue::Record { fields: mf } => {
                        assert(fits_record_fields(reg, i, fields@, mf@));
                        lemma_fields_fidelity(reg, i, fields@, mf@);
                    },
                    _ => {
                        assert(false);
                    },
                }
                assert(data_count(variants, 1) == 1);
                assert(data.skip(1) =~= data.drop_first());
                lemma_variants_fidelity(reg, i, uname, vrest, data.drop_first());
                assert(ventries.drop_first() =~= spec_variant_entries(
                    reg,
                    i,
                    vrest,
                    data.drop_first(),
                ));
            },
        }
    }
}

/// Shape fidelity at the declaration level: a checked declaration's compiled
/// node corresponds to its body, recursively through every field, variant
/// and composite reference.
pub proof fn lemma_decl_fidelity(reg: Seq<Declaration>, i: int, m: MirrorValue)
    requires
        0 <= i < reg.len(),
        registry_ok(reg, i),
        spec_check_decl(reg, i) is Ok,
        fits_decl(reg, i, m),
    ensures
        node_matches_decl(reg, i, spec_node_decl(reg, i, m)),
    decreases i, 4int, reg[i],
{
    match reg[i].body {
        DeclBody::Record(fields) => match m {
            MirrorValue::Record { fields: mf } => {
                lemma_fields_fidelity(reg, i, fields@, mf@);
            },
            _ => {},
        },
        DeclBody::Union { variants, gui } => match m {
            MirrorValue::Union { variant, data } => {
                lemma_variants_fidelity(reg, i, reg[i].name@, variants@, data@);
            },
            _ => {},
        },
    }
}

/// The names of a sequence of mirror fields, in order.
pub open spec fn mirror_field_names(fields: Seq<SpecMirrorField>) -> Seq<Seq<char>> {
    Seq::new(fields.len(), |k: int| fields[k].name)
}

/// The names of a sequence of section entries, in order.
pub open spec fn entry_names(entries: Seq<(Seq<char>, SpecEntryType)>) -> Seq<Seq<char>> {
    Seq::new(entries.len(), |k: int| entries[k].0)
}

/// The names of the declared fields, in order.
pub open spec fn field_names(fields: Seq<Field>) -> Seq<Seq<char>> {
    Seq::new(fields.len(), |k: int| fields[k].name@)
}

/// The entry names one field contributes: its placeholder keys, then its
/// higher-order setting names, then the field's own name.
pub open spec fn field_entry_names(f: Field) -> Seq<Seq<char>> {
    Seq::new(f.annotation.placeholders@.len(), |k: int| f.annotation.placeholders@[k]@) + Seq::new(
        f.annotation.higher_order@.len(),
        |k: int| f.annotation.higher_order@[k].name@,
    ) + seq![f.name@]
}

/// The entry names of a whole record, field group after field group, in
/// declaration order.
pub open spec fn fields_entry_names(fields: Seq<Field>) -> Seq<Seq<char>>
    decreases fields,
{
    if fields.len() == 0 {
        Seq::empty()
    } else {
        field_entry_names(fields[0]) + fields_entry_names(fields.drop_first())
    }
}

proof fn lemma_ho_entry_name(s: crate::shape::HigherOrderSetting)
    ensures
        spec_ho_entry(s).0 == s.name@,
{
    match crate::higher_order::spec_ho_schema(s) {
        Ok(entry) => {},
        Err(e) => {},
    }
}

/// Entry-order preservation: the section's entry names are exactly the
/// fields' name groups in declaration order (each field's placeholder keys,
/// then its higher-order setting names, then the field's own name), and the
/// mirror fields carry the declared field names in declaration order.
pub proof fn lemma_entry_order(
    reg: Seq<Declaration>,
    i: int,
    fields: Seq<Field>,
    mfields: Seq<(String, MirrorValue)>,
)
    ensures
        entry_names(spec_node_fields(reg, i, fields, mfields)) == fields_entry_names(fields),
        match spec_check_fields(reg, i, fields) {
            Ok(mf) => mirror_field_names(mf) == field_names(fields),
            Err(e) => true,
        },
    decreases fields,
{
    if fields.len() == 0 {
        assert(entry_names(spec_node_fields(reg, i, fields, mfields)) =~= fields_entry_names(
            fields,
        ));
        assert(mirror_field_names(Seq::<SpecMirrorField>::empty()) =~= field_names(fields));
    } else {
        let f = fields[0];
        lemma_entry_order(reg, i, fields.drop_first(), mfields.drop_first());
        let group = spec_field_group(reg, i, f, mfields[0].1);
        let rest = spec_node_fields(reg, i, fields.drop_first(), mfields.drop_first());
        assert forall|k: int| 0 <= k < group.len() implies group[k].0 == field_entry_names(f)[k] by {
            if f.annotation.placeholders@.len() <= k < f.annotation.placeholders@.len()
                + f.annotation.higher_order@.len() {
                lemma_ho_entry_name(
                    f.annotation.higher_order@[k - f.annotation.placeholders@.len()],
                );
            }
        }
        assert(entry_names(spec_node_fields(reg, i, fields, mfields)) =~= fields_entry_names(
            fields,
        ));
        match spec_check_fields(reg, i, fields) {
            Ok(mf) => {
                match spec_check_fields(reg, i, fields.drop_first()) {
                    Ok(rmf) => {
                        assert(mf.len() == 1 + rmf.len());
                        assert(mf[0].name == fields[0].name@);
                        assert(forall|j: int| 1 <= j < mf.len() ==> #[trigger] mf[j] == rmf[j - 1]);
                        assert(mirror_field_names(rmf).len() == rmf.len());
                        assert(field_names(fields.drop_first()).len() == fields.drop_first().len());
                        assert(rmf.len() == fields.drop_first().len());
                        assert forall|k: int|
                            0 <= k < mf.len() implies mirror_field_names(mf)[k] == field_names(
                            fields,
                        )[k] by {
                            if k > 0 {
                                assert(mf[k] == rmf[k - 1]);
                                assert(mirror_field_names(rmf)[k - 1] == field_names(
                                    fields.drop_first(),
                                )[k - 1]);
                                assert(field_names(fields.drop_first())[k - 1]
                                    == fields.drop_first()[k - 1].name@);
                                assert(fields.drop_first()[k - 1] == fields[k]);
                            }
                        }
                        assert(mirror_field_names(mf) =~= field_names(fields));
                    },
                    Err(e2) => {
                        assert(false);
                    },
                }
            },
            Err(e) => {},
        }
    }
}

/// The names of the data-bearing variants, in declaration order.
pub open spec fn data_variant_names(variants: Seq<Variant>) -> Seq<Seq<char>>
    decreases variants,
{
    if variants.len() == 0 {
        Seq::empty()
    } else if variants[0].data is Unit {
        data_variant_names(variants.drop_first())
    } else {
        seq![variants[0].name@] + data_variant_names(variants.drop_first())
    }
}

proof fn lemma_check_variants_names(
    reg: Seq<Declaration>,
    i: int,
    uname: Seq<char>,
    variants: Seq<Variant>,
)
    ensures
        match spec_check_variants(reg, i, uname, variants) {
            Ok(pair) => mirror_field_names(pair.0) == data_variant_names(variants),
            Err(e) => true,
        },
    decreases variants,
{
    if variants.len() == 0 {
        match spec_check_variants(reg, i, uname, variants) {
            Ok(pair) => {
                assert(mirror_field_names(pair.0) =~= data_variant_names(variants));
            },
            Err(e) => {},
        }
    } else {
        lemma_check_variants_names(reg, i, uname, variants.drop_first());
        match spec_check_variants(reg, i, uname, variants) {
            Ok(pair) => {
                assert(mirror_field_names(pair.0) =~= data_variant_names(variants));
            },
            Err(e) => {},
        }
    }
}

/// Selector round-trip: for a union, the compiled choice node's default is
/// exactly the mirror's declared default-variant name, and the mirror type
/// keeps one field per data-bearing variant, in declaration order, followed
/// by the always-present selector field.
pub proof fn lemma_selector_round_trip(reg: Seq<Declaration>, i: int, m: MirrorValue)
    requires
        0 <= i < reg.len(),
        reg[i].body is Union,
        m is Union,
    ensures
        match spec_schema(reg, i, m) {
            Ok(c) => {
                &&& (match (reg[i].body, m) {
                    (
                        DeclBody::Union { variants, gui },
                        MirrorValue::Union { variant, data },
                    ) => {
                        &&& c.node matches SpecSchemaNode::Choice {
                            default,
                            variants: ventries,
                            gui: g,
                        } && default == variant@
                        &&& mirror_field_names(c.default_fields) == data_variant_names(variants@)
                            + seq![selector_field_name()]
                    },
                    _ => true,
                })
            },
            Err(e) => true,
        },
{
    match spec_schema(reg, i, m) {
        Ok(c) => {
            match (reg[i].body, m) {
                (DeclBody::Union { variants, gui }, MirrorValue::Union { variant, data }) => {
                    lemma_check_variants_names(reg, i, reg[i].name@, variants@);
                    match spec_check_variants(reg, i, reg[i].name@, variants@) {
                        Ok(pair) => {
                            assert(mirror_field_names(c.default_fields) =~= data_variant_names(
                                variants@,
                            ) + seq![selector_field_name()]);
                        },
                        Err(e) => {},
                    }
                },
                _ => {},
            }
        },
        Err(e) => {},
    }
}

/// Determinism: the compiler is a function of the registry, the position and
/// the mirror value alone, so two compilations of the same declaration yield
/// structurally identical results.
pub proof fn lemma_compile_deterministic(
    reg: Seq<Declaration>,
    i: int,
    m: MirrorValue,
    r1: Result<SpecCompiledDeclaration, SpecSchemaError>,
    r2: Result<SpecCompiledDeclaration, SpecSchemaError>,
)
    requires
        r1 == spec_schema(reg, i, m),
        r2 == spec_schema(reg, i, m),
    ensures
        r1 == r2,
{
}

} // verus!
