//! The record, union and declaration compilers.
//!
//! A record compiles to a `Section` node listing, for each field in
//! declaration order, its placeholder entries, its higher-order entries and
//! its own data entry, together with one mirror field per declared field.  A
//! union compiles to a `Choice` node with one entry per variant in
//! declaration order, a mirror field per data-bearing variant plus the
//! always-present selector field, a synthesized selector type, and one
//! auxiliary record mirror type per record-shaped variant.
//!
//! As in the shape compiler, checking (which raises every diagnostic and
//! derives the mirror types) is separated from node construction (which is
//! total for checked declarations and fitting mirror values).

use vstd::prelude::*;

use crate::error::SchemaError;
use crate::error::SpecSchemaError;
use crate::higher_order;
use crate::higher_order::spec_ho_schema;
use crate::node::ChoiceControlType;
use crate::node::EntryData;
use crate::node::EntryType;
use crate::node::MirrorValue;
use crate::node::SchemaNode;
use crate::node::SpecEntryData;
use crate::node::SpecEntryType;
use crate::node::SpecSchemaNode;
use crate::node::entries_view;
use crate::node::entry_data_view;
use crate::node::entry_type_view;
use crate::node::lemma_entries_view;
use crate::node::lemma_variant_entries_view;
use crate::node::schema_node_view;
use crate::node::variant_entries_view;
use crate::shape::AuxObjects;
use crate::shape::AuxRecordTy;
use crate::shape::DeclBody;
use crate::shape::Declaration;
use crate::shape::Field;
use crate::shape::HigherOrderSetting;
use crate::shape::MirrorField;
use crate::shape::MirrorTy;
use crate::shape::SelectorTy;
use crate::shape::SpecAuxObjects;
use crate::shape::SpecAuxRecordTy;
use crate::shape::SpecMirrorField;
use crate::shape::SpecMirrorTy;
use crate::shape::SpecSelectorTy;
use crate::shape::Variant;
use crate::shape::VariantData;
use crate::shape::data_count;
use crate::shape::fits_decl;
use crate::shape::fits_record_fields;
use crate::shape::fits_shape;
use crate::shape::fits_variants;
use crate::shape::mirror_ty_view;
use crate::ty;
use crate::ty::default_suffix;
use crate::ty::spec_check_shape;
use crate::ty::spec_node_shape;

verus! {

/// The suffix of a synthesized selector type name.
pub open spec fn selector_suffix() -> Seq<char> {
    "DefaultVariant"@
}

/// The name of the always-present selector field of a union mirror.
pub open spec fn selector_field_name() -> Seq<char> {
    "variant"@
}

/// Concatenates a type name with a synthesized suffix.
pub fn suffix_name(base: &String, suffix: &str) -> (r: String)
    ensures
        r@ == base@ + suffix@,
{
    base.clone().concat(suffix)
}

/// The first diagnostic among a field's higher-order declarations, if any.
pub open spec fn spec_check_ho_list(hos: Seq<HigherOrderSetting>) -> Option<SpecSchemaError>
    decreases hos,
{
    if hos.len() == 0 {
        None
    } else {
        match spec_ho_schema(hos[0]) {
            Err(e) => Some(e),
            Ok(entry) => spec_check_ho_list(hos.drop_first()),
        }
    }
}

/// The mirror fields of a record, or the first diagnostic: per field, the
/// shape is checked first, then its higher-order declarations.
pub open spec fn spec_check_fields(reg: Seq<Declaration>, i: int, fields: Seq<Field>) -> Result<
    Seq<SpecMirrorField>,
    SpecSchemaError,
>
    decreases fields,
{
    if fields.len() == 0 {
        Ok(Seq::empty())
    } else {
        match spec_check_shape(reg, i, fields[0].shape, fields[0].annotation) {
            Err(e) => Err(e),
            Ok(t) => match spec_check_ho_list(fields[0].annotation.higher_order@) {
                Some(e) => Err(e),
                None => match spec_check_fields(reg, i, fields.drop_first()) {
                    Err(e) => Err(e),
                    Ok(rest) => Ok(
                        seq![SpecMirrorField { name: fields[0].name@, ty: t }] + rest,
                    ),
                },
            },
        }
    }
}

/// The mirror fields (one per data-bearing variant) and auxiliary record
/// types (one per record-shaped variant) of a union, or the first
/// diagnostic.  A single-value variant must not declare placeholder or
/// higher-order attributes.
pub open spec fn spec_check_variants(
    reg: Seq<Declaration>,
    i: int,
    uname: Seq<char>,
    variants: Seq<Variant>,
) -> Result<(Seq<SpecMirrorField>, Seq<SpecAuxRecordTy>), SpecSchemaError>
    decreases variants,
{
    if variants.len() == 0 {
        Ok((Seq::empty(), Seq::empty()))
    } else {
        let v = variants[0];
        match v.data {
            VariantData::Unit => spec_check_variants(reg, i, uname, variants.drop_first()),
            VariantData::Single { shape, annotation } => {
                if annotation.placeholders@.len() > 0 || annotation.higher_order@.len() > 0 {
                    Err(SpecSchemaError::UnexpectedAttribute(v.name@))
                } else {
                    match spec_check_shape(reg, i, shape, annotation) {
                        Err(e) => Err(e),
                        Ok(t) => match spec_check_variants(reg, i, uname, variants.drop_first()) {
                            Err(e) => Err(e),
                            Ok(rest) => Ok(
                                (
                                    seq![SpecMirrorField { name: v.name@, ty: t }] + rest.0,
                                    rest.1,
                                ),
                            ),
                        },
                    }
                }
            },
            VariantData::Record(fields) => {
                match spec_check_fields(reg, i, fields@) {
                    Err(e) => Err(e),
                    Ok(mfields) => match spec_check_variants(reg, i, uname, variants.drop_first()) {
                        Err(e) => Err(e),
                        Ok(rest) => {
                            let aux_name = uname + v.name@ + default_suffix();
                            Ok(
                                (
                                    seq![
                                        SpecMirrorField {
                                            name: v.name@,
                                            ty: SpecMirrorTy::Named(aux_name),
                                        },
                                    ] + rest.0,
                                    seq![SpecAuxRecordTy { name: aux_name, fields: mfields }]
                                        + rest.1,
                                ),
                            )
                        },
                    },
                }
            },
        }
    }
}

/// The names of a union's variants, in declaration order: the cases of the
/// synthesized selector type.
pub open spec fn variant_names(variants: Seq<Variant>) -> Seq<Seq<char>> {
    Seq::new(variants.len(), |k: int| variants[k].name@)
}

/// The type-level result of checking one declaration: the mirror type's
/// name, its fields, and the auxiliary objects of a union.
pub struct SpecDeclInfo {
    pub name: Seq<char>,
    pub fields: Seq<SpecMirrorField>,
    pub aux: Option<SpecAuxObjects>,
}

/// The mirror-type information of the declaration at position `i`, or the
/// first diagnostic.  A declaration with type parameters is rejected.
pub open spec fn spec_check_decl(reg: Seq<Declaration>, i: int) -> Result<
    SpecDeclInfo,
    SpecSchemaError,
> {
    let d = reg[i];
    if d.generics@.len() > 0 {
        Err(SpecSchemaError::GenericsUnsupported(d.name@))
    } else {
        match d.body {
            DeclBody::Record(fields) => match spec_check_fields(reg, i, fields@) {
                Err(e) => Err(e),
                Ok(mfields) => Ok(
                    SpecDeclInfo { name: d.name@ + default_suffix(), fields: mfields, aux: None },
                ),
            },
            DeclBody::Union { variants, gui } => match spec_check_variants(
                reg,
                i,
                d.name@,
                variants@,
            ) {
                Err(e) => Err(e),
                Ok(pair) => Ok(
                    SpecDeclInfo {
                        name: d.name@ + default_suffix(),
                        fields: pair.0 + seq![
                            SpecMirrorField {
                                name: selector_field_name(),
                                ty: SpecMirrorTy::Named(d.name@ + selector_suffix()),
                            },
                        ],
                        aux: Some(
                            SpecAuxObjects {
                                records: pair.1,
                                selector: SpecSelectorTy {
                                    name: d.name@ + selector_suffix(),
                                    cases: variant_names(variants@),
                                },
                            },
                        ),
                    },
                ),
            },
        }
    }
}

/// Whether every declaration before position `i` checks: the topological
/// precondition under which composite references can be instantiated.
pub open spec fn registry_ok(reg: Seq<Declaration>, i: int) -> bool {
    forall|j: int| 0 <= j < i ==> spec_check_decl(reg, j) is Ok
}

/// The schema entry a higher-order setting contributes; for one that does
/// not check, a placeholder that no caller can reach.
pub open spec fn spec_ho_entry(s: HigherOrderSetting) -> (Seq<char>, SpecEntryType) {
    match spec_ho_schema(s) {
        Ok(entry) => entry,
        Err(e) => (s.name@, SpecEntryType::Placeholder),
    }
}

/// The placeholder entries of a field, one per declared key, in order.
pub open spec fn placeholder_entries(keys: Seq<String>) -> Seq<(Seq<char>, SpecEntryType)> {
    Seq::new(keys.len(), |k: int| (keys[k]@, SpecEntryType::Placeholder))
}

/// The higher-order entries of a field, one per declaration, in order.
pub open spec fn ho_entries(hos: Seq<HigherOrderSetting>) -> Seq<(Seq<char>, SpecEntryType)> {
    Seq::new(hos.len(), |k: int| spec_ho_entry(hos[k]))
}

/// The number of section entries one field contributes: its placeholders,
/// its higher-order settings, and its own data entry.
pub open spec fn group_len(f: Field) -> int {
    f.annotation.placeholders@.len() + f.annotation.higher_order@.len() + 1int
}

/// Every section entry one field contributes: its placeholder entries, then
/// its higher-order entries, then its own data entry.
pub open spec fn spec_field_group(reg: Seq<Declaration>, i: int, f: Field, m: MirrorValue) -> Seq<
    (Seq<char>, SpecEntryType),
>
    decreases i, 1int, f,
{
    placeholder_entries(f.annotation.placeholders@) + ho_entries(f.annotation.higher_order@)
        + seq![
        (
            f.name@,
            SpecEntryType::Data(
                SpecEntryData {
                    advanced: f.annotation.advanced,
                    content: spec_node_shape(reg, i, f.shape, f.annotation, m),
                },
            ),
        ),
    ]
}

/// The section entries of a record, in declaration order.
pub open spec fn spec_node_fields(
    reg: Seq<Declaration>,
    i: int,
    fields: Seq<Field>,
    mfields: Seq<(String, MirrorValue)>,
) -> Seq<(Seq<char>, SpecEntryType)>
    decreases i, 2int, fields,
{
    if fields.len() == 0 {
        Seq::empty()
    } else {
        spec_field_group(reg, i, fields[0], mfields[0].1) + spec_node_fields(
            reg,
            i,
            fields.drop_first(),
            mfields.drop_first(),
        )
    }
}

/// The choice entries of a union, in declaration order; `data` holds the
/// mirror values of the data-bearing variants, consumed positionally.
pub open spec fn spec_variant_entries(
    reg: Seq<Declaration>,
    i: int,
    variants: Seq<Variant>,
    data: Seq<(String, MirrorValue)>,
) -> Seq<(Seq<char>, Option<SpecEntryData>)>
    decreases i, 3int, variants,
{
    if variants.len() == 0 {
        Seq::empty()
    } else {
        let v = variants[0];
        match v.data {
            VariantData::Unit => seq![(v.name@, None::<SpecEntryData>)] + spec_variant_entries(
                reg,
                i,
                variants.drop_first(),
                data,
            ),
            VariantData::Single { shape, annotation } => seq![
                (
                    v.name@,
                    Some(
                        SpecEntryData {
                            advanced: annotation.advanced,
                            content: spec_node_shape(reg, i, shape, annotation, data[0].1),
                        },
                    ),
                ),
            ] + spec_variant_entries(reg, i, variants.drop_first(), data.drop_first()),
            VariantData::Record(fields) => {
                let content = match data[0].1 {
                    MirrorValue::Record { fields: mf } => SpecSchemaNode::Section {
                        entries: spec_node_fields(reg, i, fields@, mf@),
                    },
                    _ => crate::ty::dummy_node(),
                };
                seq![(v.name@, Some(SpecEntryData { advanced: false, content }))]
                    + spec_variant_entries(reg, i, variants.drop_first(), data.drop_first())
            },
        }
    }
}

/// The schema node of the declaration at position `i`, built from a fitting
/// mirror value: a section for a record, a choice for a union.
pub open spec fn spec_node_decl(reg: Seq<Declaration>, i: int, m: MirrorValue) -> SpecSchemaNode
    decreases i, 4int, reg[i],
{
    match reg[i].body {
        DeclBody::Record(fields) => match m {
            MirrorValue::Record { fields: mf } => SpecSchemaNode::Section {
                entries: spec_node_fields(reg, i, fields@, mf@),
            },
            _ => crate::ty::dummy_node(),
        },
        DeclBody::Union { variants, gui } => match m {
            MirrorValue::Union { variant, data } => SpecSchemaNode::Choice {
                default: variant@,
                variants: spec_variant_entries(reg, i, variants@, data@),
                gui,
            },
            _ => crate::ty::dummy_node(),
        },
    }
}

/// Compiles an ordered list of annotated fields: the mirror fields and the
/// section node, or the first diagnostic.
#[verifier::rlimit(80)]
pub fn named_fields_schema(
    reg: &Vec<Declaration>,
    i: usize,
    fields: &Vec<Field>,
    mfields: &Vec<(String, MirrorValue)>,
) -> (r: Result<(Vec<MirrorField>, SchemaNode), SchemaError>)
    requires
        i <= reg@.len(),
        registry_ok(reg@, i as int),
        fits_record_fields(reg@, i as int, fields@, mfields@),
    ensures
        match r {
            Ok(out) => {
                &&& spec_check_fields(reg@, i as int, fields@) == Ok::<_, SpecSchemaError>(
                    out.0.deep_view(),
                )
                &&& out.1.deep_view() == SpecSchemaNode::Section {
                    entries: spec_node_fields(reg@, i as int, fields@, mfields@),
                }
            },
            Err(e) => spec_check_fields(reg@, i as int, fields@) == Err::<Seq<SpecMirrorField>, _>(
                e.deep_view(),
            ),
        },
    decreases i, 2int, fields@,
{
    let mut mirror_fields: Vec<MirrorField> = Vec::new();
    let mut entries: Vec<(String, EntryType)> = Vec::new();
    let mut k: usize = 0;
    proof {
        assert(fields@.skip(0) =~= fields@);
        assert(mfields@.skip(0) =~= mfields@);
    }
    while k < fields.len()
        invariant
            k <= fields@.len(),
            i <= reg@.len(),
            registry_ok(reg@, i as int),
            fits_record_fields(reg@, i as int, fields@, mfields@),
            mfields@.len() == fields@.len(),
            (match spec_check_fields(reg@, i as int, fields@.skip(k as int)) {
                Ok(rest) => spec_check_fields(reg@, i as int, fields@) == Ok::<
                    _,
                    SpecSchemaError,
                >(mirror_fields.deep_view() + rest),
                Err(e) => spec_check_fields(reg@, i as int, fields@) == Err::<
                    Seq<SpecMirrorField>,
                    _,
                >(e),
            }),
            spec_node_fields(reg@, i as int, fields@, mfields@) == entries_view(entries@)
                + spec_node_fields(
                reg@,
                i as int,
                fields@.skip(k as int),
                mfields@.skip(k as int),
            ),
        decreases fields@.len() - k,
    {
        proof {
            assert(fields@.skip(k as int)[0] == fields@[k as int]);
            assert(mfields@.skip(k as int)[0] == mfields@[k as int]);
            assert(fields@.skip(k as int).drop_first() =~= fields@.skip(k as int + 1));
            assert(mfields@.skip(k as int).drop_first() =~= mfields@.skip(k as int + 1));
            assert(fits_shape(reg@, i as int, fields@[k as int].shape, mfields@[k as int].1));
        }
        let f = &fields[k];
        let tsd = match ty::schema(reg, i, &f.shape, &f.annotation, &mfields[k].1) {
            Ok(tsd) => tsd,
            Err(e) => {
                return Err(e);
            },
        };
        // the entries this field contributes, in order: placeholders,
        // higher-order settings, then the field's own data entry
        let mut group: Vec<(String, EntryType)> = Vec::new();
        let nph = f.annotation.placeholders.len();
        let mut p: usize = 0;
        while p < nph
            invariant
                p <= nph,
                nph == f.annotation.placeholders@.len(),
                group@.len() == p,
                forall|idx: int|
                    0 <= idx < p ==> (#[trigger] group@[idx]).0@
                        == f.annotation.placeholders@[idx]@ && group@[idx].1 is Placeholder,
            decreases nph - p,
        {
            let key = f.annotation.placeholders[p].clone();
            group.push((key, EntryType::Placeholder));
            p = p + 1;
        }
        let nho = f.annotation.higher_order.len();
        let mut h: usize = 0;
        proof {
            assert(f.annotation.higher_order@.skip(0) =~= f.annotation.higher_order@);
        }
        while h < nho
            invariant
                h <= nho,
                i <= reg@.len(),
                k < fields@.len(),
                *f == fields@[k as int],
                fields@.skip(k as int)[0] == fields@[k as int],
                spec_check_shape(reg@, i as int, fields@[k as int].shape, fields@[k as int].annotation) is Ok,
                (match spec_check_fields(reg@, i as int, fields@.skip(k as int)) {
                    Ok(rest) => spec_check_fields(reg@, i as int, fields@) == Ok::<
                        _,
                        SpecSchemaError,
                    >(mirror_fields.deep_view() + rest),
                    Err(e) => spec_check_fields(reg@, i as int, fields@) == Err::<
                        Seq<SpecMirrorField>,
                        _,
                    >(e),
                }),
                nho == f.annotation.higher_order@.len(),
                nph == f.annotation.placeholders@.len(),
                group@.len() == nph + h,
                forall|idx: int|
                    0 <= idx < nph ==> (#[trigger] group@[idx]).0@
                        == f.annotation.placeholders@[idx]@ && group@[idx].1 is Placeholder,
                forall|idx: int|
                    0 <= idx < h ==> ((#[trigger] group@[nph + idx]).0@, entry_type_view(
                        group@[nph + idx].1,
                    )) == spec_ho_entry(f.annotation.higher_order@[idx]),
                spec_check_ho_list(f.annotation.higher_order@) == spec_check_ho_list(
                    f.annotation.higher_order@.skip(h as int),
                ),
            decreases nho - h,
        {
            proof {
                assert(f.annotation.higher_order@.skip(h as int)[0]
                    == f.annotation.higher_order@[h as int]);
                assert(f.annotation.higher_order@.skip(h as int).drop_first()
                    =~= f.annotation.higher_order@.skip(h as int + 1));
            }
            match higher_order::schema(&f.annotation.higher_order[h]) {
                Ok(entry) => {
                    group.push(entry);
                },
                Err(e) => {
                    proof {
                        assert(spec_check_ho_list(f.annotation.higher_order@.skip(h as int))
                            == Some(e.deep_view()));
                        assert(spec_check_ho_list(f.annotation.higher_order@) == Some(
                            e.deep_view(),
                        ));
                        assert(*f == fields@[k as int]);
                        assert(fields@.skip(k as int)[0] == fields@[k as int]);
                        assert(spec_check_shape(reg@, i as int, f.shape, f.annotation) is Ok);
                        assert(spec_check_fields(reg@, i as int, fields@.skip(k as int)) == Err::<
                            Seq<SpecMirrorField>,
                            _,
                        >(e.deep_view()));
                    }
                    return Err(e);
                },
            }
            h = h + 1;
        }
        let ghost base = group@;
        proof {
            assert(f.annotation.higher_order@.skip(nho as int).len() == 0);
        }
        group.push(
            (
                f.name.clone(),
                EntryType::Data(EntryData { advanced: f.annotation.advanced, content: tsd.node }),
            ),
        );
        proof {
            lemma_entries_view(group@);
            let groupv = entries_view(group@);
            let expected = spec_field_group(reg@, i as int, fields@[k as int], mfields@[k as int].1);
            let ph = fields@[k as int].annotation.placeholders@;
            let hos = fields@[k as int].annotation.higher_order@;
            assert(*f == fields@[k as int]);
            assert(expected.len() == ph.len() + hos.len() + 1);
            assert(group@.len() == ph.len() + hos.len() + 1);
            assert(schema_node_view(tsd.node) == spec_node_shape(
                reg@,
                i as int,
                fields@[k as int].shape,
                fields@[k as int].annotation,
                mfields@[k as int].1,
            ));
            assert forall|idx: int| 0 <= idx < groupv.len() implies groupv[idx] == expected[idx] by {
                assert(groupv[idx] == ((#[trigger] group@[idx]).0@, entry_type_view(group@[idx].1)));
                if idx < ph.len() {
                    assert(group@[idx] == base[idx]);
                    assert(base[idx].0@ == ph[idx]@ && base[idx].1 is Placeholder);
                    assert(expected[idx] == placeholder_entries(ph)[idx]);
                    assert(placeholder_entries(ph)[idx] == (ph[idx]@, SpecEntryType::Placeholder));
                } else if idx < ph.len() + hos.len() {
                    let j = idx - ph.len();
                    assert(group@[idx] == base[idx]);
                    assert(base[ph.len() + j] == base[idx]);
                    assert((base[ph.len() + j].0@, entry_type_view(base[ph.len() + j].1))
                        == spec_ho_entry(hos[j]));
                    assert(expected[idx] == ho_entries(hos)[j]);
                    assert(ho_entries(hos)[j] == spec_ho_entry(hos[j]));
                } else {
                    assert(idx == ph.len() + hos.len());
                    assert(group@[idx].0@ == fields@[k as int].name@);
                    assert(entry_type_view(group@[idx].1) == SpecEntryType::Data(
                        SpecEntryData {
                            advanced: fields@[k as int].annotation.advanced,
                            content: schema_node_view(tsd.node),
                        },
                    ));
                }
            }
            assert(groupv =~= expected);
        }
        let ghost old_entries = entries@;
        let ghost old_mf = mirror_fields.deep_view();
        let ghost group_snapshot = group@;
        let mut group_moved = group;
        entries.append(&mut group_moved);
        mirror_fields.push(MirrorField { name: f.name.clone(), ty: tsd.default_ty });
        proof {
            let mfk = SpecMirrorField {
                name: fields@[k as int].name@,
                ty: mirror_ty_view(tsd.default_ty),
            };
            assert(mirror_fields.deep_view() =~= old_mf.push(mfk));
            assert forall|rest: Seq<SpecMirrorField>|
                old_mf + (seq![mfk] + rest) =~= mirror_fields.deep_view() + rest by {}
            lemma_entries_view(entries@);
            lemma_entries_view(old_entries);
            lemma_entries_view(group_snapshot);
            assert(entries@ == old_entries + group_snapshot);
            assert forall|idx: int|
                0 <= idx < entries@.len() implies entries_view(entries@)[idx] == (entries_view(
                old_entries,
            ) + entries_view(group_snapshot))[idx] by {
                if idx < old_entries.len() {
                    assert(entries@[idx] == old_entries[idx]);
                } else {
                    assert(entries@[idx] == group_snapshot[idx - old_entries.len()]);
                }
            }
            assert(entries_view(entries@) =~= entries_view(old_entries) + entries_view(
                group_snapshot,
            ));
            let rest = spec_node_fields(
                reg@,
                i as int,
                fields@.skip(k as int + 1),
                mfields@.skip(k as int + 1),
            );
            assert(spec_node_fields(
                reg@,
                i as int,
                fields@.skip(k as int),
                mfields@.skip(k as int),
            ) == entries_view(group_snapshot) + rest);
            assert(entries_view(old_entries) + (entries_view(group_snapshot) + rest)
                =~= entries_view(entries@) + rest);
            assert(spec_node_fields(reg@, i as int, fields@, mfields@) == entries_view(entries@)
                + rest);
        }
        k = k + 1;
    }
    proof {
        assert(fields@.skip(fields@.len() as int).len() == 0);
        assert(spec_node_fields(
            reg@,
            i as int,
            fields@.skip(fields@.len() as int),
            mfields@.skip(fields@.len() as int),
        ) =~= Seq::<(Seq<char>, SpecEntryType)>::empty());
        assert(entries_view(entries@) + Seq::<(Seq<char>, SpecEntryType)>::empty()
            =~= entries_view(entries@));
        assert(mirror_fields.deep_view() + Seq::<SpecMirrorField>::empty()
            =~= mirror_fields.deep_view());
    }
    Ok((mirror_fields, SchemaNode::Section { entries }))
}

/// Compiles a union's variants: the mirror fields of the data-bearing
/// variants, the auxiliary record mirror types, and the choice node, or the
/// first diagnostic.
#[verifier::rlimit(80)]
pub fn variants_schema(
    reg: &Vec<Declaration>,
    i: usize,
    uname: &String,
    variants: &Vec<Variant>,
    gui: Option<ChoiceControlType>,
    m_variant: &String,
    data: &Vec<(String, MirrorValue)>,
) -> (r: Result<(Vec<MirrorField>, Vec<AuxRecordTy>, SchemaNode), SchemaError>)
    requires
        i <= reg@.len(),
        registry_ok(reg@, i as int),
        fits_variants(reg@, i as int, variants@, m_variant@, data@),
    ensures
        match r {
            Ok(out) => {
                &&& spec_check_variants(reg@, i as int, uname@, variants@) == Ok::<
                    _,
                    SpecSchemaError,
                >((out.0.deep_view(), out.1.deep_view()))
                &&& out.2.deep_view() == SpecSchemaNode::Choice {
                    default: m_variant@,
                    variants: spec_variant_entries(reg@, i as int, variants@, data@),
                    gui,
                }
            },
            Err(e) => spec_check_variants(reg@, i as int, uname@, variants@) == Err::<
                (Seq<SpecMirrorField>, Seq<SpecAuxRecordTy>),
                _,
            >(e.deep_view()),
        },
    decreases i, 3int, variants@,
{
    let mut mirror_fields: Vec<MirrorField> = Vec::new();
    let mut aux_records: Vec<AuxRecordTy> = Vec::new();
    let mut entries: Vec<(String, Option<EntryData>)> = Vec::new();
    let mut k: usize = 0;
    let mut d: usize = 0;
    proof {
        assert(variants@.skip(0) =~= variants@);
        assert(data@.skip(0) =~= data@);
    }
    while k < variants.len()
        invariant
            k <= variants@.len(),
            i <= reg@.len(),
            registry_ok(reg@, i as int),
            fits_variants(reg@, i as int, variants@, m_variant@, data@),
            d as int == data_count(variants@, k as int),
            d <= data@.len(),
            (match spec_check_variants(reg@, i as int, uname@, variants@.skip(k as int)) {
                Ok(rest) => spec_check_variants(reg@, i as int, uname@, variants@) == Ok::<
                    _,
                    SpecSchemaError,
                >((mirror_fields.deep_view() + rest.0, aux_records.deep_view() + rest.1)),
                Err(e) => spec_check_variants(reg@, i as int, uname@, variants@) == Err::<
                    (Seq<SpecMirrorField>, Seq<SpecAuxRecordTy>),
                    _,
                >(e),
            }),
            spec_variant_entries(reg@, i as int, variants@, data@) == variant_entries_view(
                entries@,
            ) + spec_variant_entries(
                reg@,
                i as int,
                variants@.skip(k as int),
                data@.skip(d as int),
            ),
        decreases variants@.len() - k,
    {
        proof {
            assert(variants@.skip(k as int)[0] == variants@[k as int]);
            assert(variants@.skip(k as int).drop_first() =~= variants@.skip(k as int + 1));
        }
        let v = &variants[k];
        let ghost old_entries = entries@;
        match &v.data {
            VariantData::Unit => {
                entries.push((v.name.clone(), None));
                proof {
                    assert(data_count(variants@, k as int + 1) == d as int);
                    lemma_variant_entries_view(entries@);
                    lemma_variant_entries_view(old_entries);
                    let x = (variants@[k as int].name@, None::<SpecEntryData>);
                    assert forall|idx: int|
                        0 <= idx < entries@.len() implies variant_entries_view(entries@)[idx] == (
                        variant_entries_view(old_entries) + seq![x])[idx] by {
                        if idx < old_entries.len() {
                            assert(entries@[idx] == old_entries[idx]);
                        } else {
                            assert(entries@[idx].0@ == variants@[k as int].name@);
                            assert(entries@[idx].1 is None);
                        }
                    }
                    assert(variant_entries_view(entries@) =~= variant_entries_view(old_entries)
                        + seq![x]);
                    let rest = spec_variant_entries(
                        reg@,
                        i as int,
                        variants@.skip(k as int + 1),
                        data@.skip(d as int),
                    );
                    assert(spec_variant_entries(
                        reg@,
                        i as int,
                        variants@.skip(k as int),
                        data@.skip(d as int),
                    ) == seq![x] + rest);
                    assert(variant_entries_view(old_entries) + (seq![x] + rest)
                        =~= variant_entries_view(entries@) + rest);
                    assert(spec_variant_entries(reg@, i as int, variants@, data@)
                        == variant_entries_view(entries@) + rest);
                }
            },
            VariantData::Single { shape, annotation } => {
                proof {
                    assert(variants@[k as int].data matches VariantData::Single { .. });
                    assert(0 <= data_count(variants@, k as int) < data@.len());
                    assert(d < data.len());
                    assert(data@.skip(d as int)[0] == data@[d as int]);
                    assert(data@.skip(d as int).drop_first() =~= data@.skip(d as int + 1));
                }
                if annotation.placeholders.len() > 0 || annotation.higher_order.len() > 0 {
                    return Err(SchemaError::UnexpectedAttribute(v.name.clone()));
                }
                let tsd = match ty::schema(reg, i, shape, annotation, &data[d].1) {
                    Ok(tsd) => tsd,
                    Err(e) => {
                        return Err(e);
                    },
                };
                let ghost old_mf = mirror_fields.deep_view();
                mirror_fields.push(MirrorField { name: v.name.clone(), ty: tsd.default_ty });
                entries.push(
                    (
                        v.name.clone(),
                        Some(EntryData { advanced: annotation.advanced, content: tsd.node }),
                    ),
                );
                proof {
                    assert(data_count(variants@, k as int + 1) == d as int + 1);
                    let mfk = SpecMirrorField {
                        name: variants@[k as int].name@,
                        ty: mirror_ty_view(tsd.default_ty),
                    };
                    assert(mirror_fields.deep_view() =~= old_mf.push(mfk));
                    assert forall|rest: Seq<SpecMirrorField>|
                        old_mf + (seq![mfk] + rest) =~= mirror_fields.deep_view() + rest by {}
                    lemma_variant_entries_view(entries@);
                    lemma_variant_entries_view(old_entries);
                    assert(schema_node_view(tsd.node) == spec_node_shape(
                        reg@,
                        i as int,
                        *shape,
                        *annotation,
                        data@[d as int].1,
                    ));
                    let x = (
                        variants@[k as int].name@,
                        Some(
                            SpecEntryData {
                                advanced: annotation.advanced,
                                content: schema_node_view(tsd.node),
                            },
                        ),
                    );
                    assert forall|idx: int|
                        0 <= idx < entries@.len() implies variant_entries_view(entries@)[idx] == (
                        variant_entries_view(old_entries) + seq![x])[idx] by {
                        if idx < old_entries.len() {
                            assert(entries@[idx] == old_entries[idx]);
                        } else {
                            assert(entries@[idx].0@ == variants@[k as int].name@);
                            assert(entries@[idx].1 matches Some(dd) && entry_data_view(dd)
                                == SpecEntryData {
                                advanced: annotation.advanced,
                                content: schema_node_view(tsd.node),
                            });
                        }
                    }
                    assert(variant_entries_view(entries@) =~= variant_entries_view(old_entries)
                        + seq![x]);
                    let rest = spec_variant_entries(
                        reg@,
                        i as int,
                        variants@.skip(k as int + 1),
                        data@.skip(d as int + 1),
                    );
                    assert(spec_variant_entries(
                        reg@,
                        i as int,
                        variants@.skip(k as int),
                        data@.skip(d as int),
                    ) == seq![x] + rest);
                    assert(variant_entries_view(old_entries) + (seq![x] + rest)
                        =~= variant_entries_view(entries@) + rest);
                    assert(spec_variant_entries(reg@, i as int, variants@, data@)
                        == variant_entries_view(entries@) + rest);
                }
                d = d + 1;
            },
            VariantData::Record(rfields) => {
                proof {
                    assert(variants@[k as int].data matches VariantData::Record(..));
                    assert(0 <= data_count(variants@, k as int) < data@.len());
                    assert(d < data.len());
                    assert(data@.skip(d as int)[0] == data@[d as int]);
                    assert(data@.skip(d as int).drop_first() =~= data@.skip(d as int + 1));
                }
                let section = match &data[d].1 {
                    MirrorValue::Record { fields: mf } => {
                        match named_fields_schema(reg, i, rfields, mf) {
                            Ok(out) => out,
                            Err(e) => {
                                return Err(e);
                            },
                        }
                    },
                    _ => unreached(),
                };
                let (rmf, section_node) = section;
                let aux_name = suffix_name(uname, v.name.as_str()).concat("Default");
                let ghost old_mf = mirror_fields.deep_view();
                let ghost old_aux = aux_records.deep_view();
                mirror_fields.push(
                    MirrorField { name: v.name.clone(), ty: MirrorTy::Named(aux_name.clone()) },
                );
                aux_records.push(AuxRecordTy { name: aux_name, fields: rmf });
                entries.push(
                    (
                        v.name.clone(),
                        Some(EntryData { advanced: false, content: section_node }),
                    ),
                );
                proof {
                    assert(data_count(variants@, k as int + 1) == d as int + 1);
                    let aux_name_spec = uname@ + variants@[k as int].name@ + default_suffix();
                    let mfk = SpecMirrorField {
                        name: variants@[k as int].name@,
                        ty: SpecMirrorTy::Named(aux_name_spec),
                    };
                    assert(mirror_fields.deep_view() =~= old_mf.push(mfk));
                    assert forall|rest: Seq<SpecMirrorField>|
                        old_mf + (seq![mfk] + rest) =~= mirror_fields.deep_view() + rest by {}
                    let auxk = aux_records.deep_view()[old_aux.len() as int];
                    assert(aux_records.deep_view() =~= old_aux.push(auxk));
                    assert forall|rest: Seq<SpecAuxRecordTy>|
                        old_aux + (seq![auxk] + rest) =~= aux_records.deep_view() + rest by {}
                    lemma_variant_entries_view(entries@);
                    lemma_variant_entries_view(old_entries);
                    let x = (
                        variants@[k as int].name@,
                        Some(
                            SpecEntryData {
                                advanced: false,
                                content: schema_node_view(section_node),
                            },
                        ),
                    );
                    assert forall|idx: int|
                        0 <= idx < entries@.len() implies variant_entries_view(entries@)[idx] == (
                        variant_entries_view(old_entries) + seq![x])[idx] by {
                        if idx < old_entries.len() {
                            assert(entries@[idx] == old_entries[idx]);
                        } else {
                            assert(entries@[idx].0@ == variants@[k as int].name@);
                            assert(entries@[idx].1 matches Some(dd) && entry_data_view(dd)
                                == SpecEntryData {
                                advanced: false,
                                content: schema_node_view(section_node),
                            });
                        }
                    }
                    assert(variant_entries_view(entries@) =~= variant_entries_view(old_entries)
                        + seq![x]);
                    let rest = spec_variant_entries(
                        reg@,
                        i as int,
                        variants@.skip(k as int + 1),
                        data@.skip(d as int + 1),
                    );
                    assert(spec_variant_entries(
                        reg@,
                        i as int,
                        variants@.skip(k as int),
                        data@.skip(d as int),
                    ) == seq![x] + rest);
                    assert(variant_entries_view(old_entries) + (seq![x] + rest)
                        =~= variant_entries_view(entries@) + rest);
                    assert(spec_variant_entries(reg@, i as int, variants@, data@)
                        == variant_entries_view(entries@) + rest);
                }
                d = d + 1;
            },
        }
        k = k + 1;
    }
    proof {
        assert(variants@.skip(variants@.len() as int).len() == 0);
        assert(mirror_fields.deep_view() + Seq::<SpecMirrorField>::empty()
            =~= mirror_fields.deep_view());
        assert(aux_records.deep_view() + Seq::<SpecAuxRecordTy>::empty()
            =~= aux_records.deep_view());
        assert(variant_entries_view(entries@) + Seq::<
            (Seq<char>, Option<SpecEntryData>),
        >::empty() =~= variant_entries_view(entries@));
    }
    let node = SchemaNode::Choice { default: m_variant.clone(), variants: entries, gui };
    Ok((mirror_fields, aux_records, node))
}

/// Builds the schema node of a checked declaration from a fitting mirror
/// value.
pub fn node_decl(reg: &Vec<Declaration>, i: usize, m: &MirrorValue) -> (r: SchemaNode)
    requires
        i < reg@.len(),
        registry_ok(reg@, i as int),
        spec_check_decl(reg@, i as int) is Ok,
        fits_decl(reg@, i as int, *m),
    ensures
        r.deep_view() == spec_node_decl(reg@, i as int, *m),
    decreases i, 4int, reg@[i as int],
{
    let d = &reg[i];
    match &d.body {
        DeclBody::Record(fields) => match m {
            MirrorValue::Record { fields: mf } => {
                match named_fields_schema(reg, i, fields, mf) {
                    Ok(out) => out.1,
                    Err(e) => unreached(),
                }
            },
            _ => unreached(),
        },
        DeclBody::Union { variants, gui } => match m {
            MirrorValue::Union { variant, data } => {
                match variants_schema(reg, i, &d.name, variants, *gui, variant, data) {
                    Ok(out) => out.2,
                    Err(e) => unreached(),
                }
            },
            _ => unreached(),
        },
    }
}

/// The compiled form of one declaration: the generated mirror type's name
/// and fields, the auxiliary objects of a union, and the root schema node.
#[derive(Debug, PartialEq)]
pub struct CompiledDeclaration {
    pub default_ty_name: String,
    pub default_fields: Vec<MirrorField>,
    pub aux: Option<AuxObjects>,
    pub node: SchemaNode,
}

pub struct SpecCompiledDeclaration {
    pub default_ty_name: Seq<char>,
    pub default_fields: Seq<SpecMirrorField>,
    pub aux: Option<SpecAuxObjects>,
    pub node: SpecSchemaNode,
}

impl DeepView for CompiledDeclaration {
    type V = SpecCompiledDeclaration;

    open spec fn deep_view(&self) -> SpecCompiledDeclaration {
        SpecCompiledDeclaration {
            default_ty_name: self.default_ty_name@,
            default_fields: self.default_fields.deep_view(),
            aux: self.aux.deep_view(),
            node: schema_node_view(self.node),
        }
    }
}

/// The full compilation of the declaration at position `i` against its
/// mirror-default value, or the first diagnostic.
pub open spec fn spec_schema(reg: Seq<Declaration>, i: int, m: MirrorValue) -> Result<
    SpecCompiledDeclaration,
    SpecSchemaError,
> {
    match spec_check_decl(reg, i) {
        Err(e) => Err(e),
        Ok(info) => Ok(
            SpecCompiledDeclaration {
                default_ty_name: info.name,
                default_fields: info.fields,
                aux: info.aux,
                node: spec_node_decl(reg, i, m),
            },
        ),
    }
}

/// Compiles the declaration at position `i` of the registry against its
/// mirror-default value: the mirror type description and the root schema
/// node, or the first diagnostic.
pub fn schema(reg: &Vec<Declaration>, i: usize, m: &MirrorValue) -> (r: Result<
    CompiledDeclaration,
    SchemaError,
>)
    requires
        i < reg@.len(),
        registry_ok(reg@, i as int),
        fits_decl(reg@, i as int, *m),
    ensures
        match r {
            Ok(c) => spec_schema(reg@, i as int, *m) == Ok::<_, SpecSchemaError>(c.deep_view()),
            Err(e) => spec_schema(reg@, i as int, *m) == Err::<SpecCompiledDeclaration, _>(
                e.deep_view(),
            ),
        },
{
    let d = &reg[i];
    if d.generics.len() > 0 {
        return Err(SchemaError::GenericsUnsupported(d.name.clone()));
    }
    match &d.body {
        DeclBody::Record(fields) => match m {
            MirrorValue::Record { fields: mf } => {
                match named_fields_schema(reg, i, fields, mf) {
                    Err(e) => Err(e),
                    Ok(out) => Ok(
                        CompiledDeclaration {
                            default_ty_name: suffix_name(&d.name, "Default"),
                            default_fields: out.0,
                            aux: None,
                            node: out.1,
                        },
                    ),
                }
            },
            _ => unreached(),
        },
        DeclBody::Union { variants, gui } => match m {
            MirrorValue::Union { variant, data } => {
                match variants_schema(reg, i, &d.name, variants, *gui, variant, data) {
                    Err(e) => Err(e),
                    Ok(out) => {
                        let (vfields, records, node) = out;
                        let mut default_fields = vfields;
                        let ghost data_fields = default_fields.deep_view();
                        default_fields.push(
                            MirrorField {
                                name: "variant".to_owned(),
                                ty: MirrorTy::Named(suffix_name(&d.name, "DefaultVariant")),
                            },
                        );
                        let mut cases: Vec<String> = Vec::new();
                        let mut k: usize = 0;
                        while k < variants.len()
                            invariant
                                k <= variants@.len(),
                                cases@.len() == k,
                                forall|idx: int|
                                    0 <= idx < k ==> (#[trigger] cases@[idx])@
                                        == variants@[idx].name@,
                            decreases variants@.len() - k,
                        {
                            let name = variants[k].name.clone();
                            cases.push(name);
                            k = k + 1;
                        }
                        proof {
                            assert(cases.deep_view() =~= variant_names(variants@));
                            assert(default_fields.deep_view() =~= data_fields + seq![
                                SpecMirrorField {
                                    name: selector_field_name(),
                                    ty: SpecMirrorTy::Named(d.name@ + selector_suffix()),
                                },
                            ]);
                        }
                        Ok(
                            CompiledDeclaration {
                                default_ty_name: suffix_name(&d.name, "Default"),
                                default_fields,
                                aux: Some(
                                    AuxObjects {
                                        records,
                                        selector: SelectorTy {
                                            name: suffix_name(&d.name, "DefaultVariant"),
                                            cases,
                                        },
                                    },
                                ),
                                node,
                            },
                        )
                    },
                }
            },
            _ => unreached(),
        },
    }
}

} // verus!
