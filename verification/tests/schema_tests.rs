use settings_schema::ChoiceControlType;
use settings_schema::DeclBody;
use settings_schema::Declaration;
use settings_schema::EntryData;
use settings_schema::EntryType;
use settings_schema::Field;
use settings_schema::FieldAnnotation;
use settings_schema::HigherOrderSetting;
use settings_schema::HigherOrderType;
use settings_schema::MirrorTy;
use settings_schema::MirrorValue;
use settings_schema::ModifierDesc;
use settings_schema::ModifierVariable;
use settings_schema::NumLit;
use settings_schema::NumericGuiType;
use settings_schema::PathSegment;
use settings_schema::PrimitiveKind;
use settings_schema::SchemaError;
use settings_schema::SchemaNode;
use settings_schema::TypeShape;
use settings_schema::UpdateType;
use settings_schema::Variant;
use settings_schema::VariantData;
use settings_schema::decl;
use settings_schema::ty;
use settings_schema::Switch;

fn ann() -> FieldAnnotation {
    FieldAnnotation {
        advanced: false,
        min: None,
        max: None,
        step: None,
        gui: None,
        suffix: None,
        strings: vec![],
        placeholders: vec![],
        higher_order: vec![],
    }
}

fn field(name: &str, shape: TypeShape, annotation: FieldAnnotation) -> Field {
    Field { name: name.to_string(), shape, annotation }
}

fn record_decl(name: &str, fields: Vec<Field>) -> Declaration {
    Declaration { name: name.to_string(), generics: vec![], body: DeclBody::Record(fields) }
}

fn mirror_record(fields: Vec<(&str, MirrorValue)>) -> MirrorValue {
    MirrorValue::Record {
        fields: fields.into_iter().map(|(n, v)| (n.to_string(), v)).collect(),
    }
}

#[test]
fn boolean_field_with_min_is_rejected() {
    let mut a = ann();
    a.min = Some(NumLit::Int(1));
    let reg = vec![record_decl("S", vec![field("flag", TypeShape::Primitive(PrimitiveKind::Bool), a)])];
    let mirror = mirror_record(vec![("flag", MirrorValue::Bool(true))]);
    let r = decl::schema(&reg, 0, &mirror);
    assert_eq!(r, Err(SchemaError::UnexpectedAttribute("bool".to_string())));
}

#[test]
fn text_field_with_slider_is_rejected() {
    let mut a = ann();
    a.gui = Some(NumericGuiType::Slider {
        min: NumLit::Int(0),
        max: NumLit::Int(10),
        step: None,
        logarithmic: false,
    });
    let reg = vec![record_decl("S", vec![field("label", TypeShape::Primitive(PrimitiveKind::Text), a)])];
    let mirror = mirror_record(vec![("label", MirrorValue::Text("x".to_string()))]);
    let r = decl::schema(&reg, 0, &mirror);
    assert_eq!(r, Err(SchemaError::UnexpectedAttribute("String".to_string())));
}

#[test]
fn dictionary_with_non_text_key_is_rejected() {
    let shape = TypeShape::Dictionary(vec![
        TypeShape::Primitive(PrimitiveKind::U8),
        TypeShape::Primitive(PrimitiveKind::Bool),
    ]);
    let reg = vec![record_decl("S", vec![field("d", shape, ann())])];
    let mirror = mirror_record(vec![("d", MirrorValue::Bool(false))]);
    let r = decl::schema(&reg, 0, &mirror);
    assert_eq!(
        r,
        Err(SchemaError::WrongArgumentCount("First argument must be a `String`".to_string()))
    );
}

#[test]
fn dictionary_with_wrong_arity_is_rejected() {
    let shape = TypeShape::Dictionary(vec![
        TypeShape::Primitive(PrimitiveKind::Text),
        TypeShape::Primitive(PrimitiveKind::Bool),
        TypeShape::Primitive(PrimitiveKind::Bool),
    ]);
    let reg = vec![record_decl("S", vec![field("d", shape, ann())])];
    let mirror = mirror_record(vec![("d", MirrorValue::Bool(false))]);
    let r = decl::schema(&reg, 0, &mirror);
    assert_eq!(r, Err(SchemaError::WrongArgumentCount("Expected two arguments".to_string())));
}

#[test]
fn oversized_integer_is_rejected() {
    let reg = vec![record_decl(
        "S",
        vec![field("n", TypeShape::Primitive(PrimitiveKind::U128), ann())],
    )];
    let mirror = mirror_record(vec![("n", MirrorValue::Int(0))]);
    let r = decl::schema(&reg, 0, &mirror);
    assert_eq!(r, Err(SchemaError::UnsupportedType("u128".to_string())));
}

#[test]
fn mismatched_bound_literal_is_rejected() {
    let mut a = ann();
    a.min = Some(NumLit::Float(0.5f64.to_bits()));
    let reg = vec![record_decl("S", vec![field("n", TypeShape::Primitive(PrimitiveKind::U32), a)])];
    let mirror = mirror_record(vec![("n", MirrorValue::Int(1))]);
    let r = decl::schema(&reg, 0, &mirror);
    assert_eq!(r, Err(SchemaError::TypeMismatchLiteral("u32".to_string())));
}

#[test]
fn generics_are_rejected() {
    let reg = vec![Declaration {
        name: "G".to_string(),
        generics: vec!["T".to_string()],
        body: DeclBody::Record(vec![]),
    }];
    let mirror = mirror_record(vec![]);
    let r = decl::schema(&reg, 0, &mirror);
    assert_eq!(r, Err(SchemaError::GenericsUnsupported("G".to_string())));
}

#[test]
fn unresolved_composite_is_rejected() {
    let reg = vec![record_decl(
        "S",
        vec![field("inner", TypeShape::Composite("Missing".to_string()), ann())],
    )];
    let mirror = mirror_record(vec![("inner", MirrorValue::Record { fields: vec![] })]);
    let r = decl::schema(&reg, 0, &mirror);
    assert_eq!(r, Err(SchemaError::CyclicReference("Missing".to_string())));
}

#[test]
fn forward_reference_is_rejected() {
    // a composite may only name a declaration that stands earlier in the
    // registry; a forward (or cyclic) reference is refused
    let outer = record_decl(
        "Outer",
        vec![field("inner", TypeShape::Composite("Inner".to_string()), ann())],
    );
    let inner = record_decl("Inner", vec![]);
    let reg = vec![outer, inner];
    let mirror = mirror_record(vec![("inner", mirror_record(vec![]))]);
    let r = decl::schema(&reg, 0, &mirror);
    assert_eq!(r, Err(SchemaError::CyclicReference("Inner".to_string())));
}

#[test]
fn invalid_modifier_path_is_rejected() {
    let mut a = ann();
    a.higher_order = vec![HigherOrderSetting {
        name: "h".to_string(),
        data: HigherOrderType::Action,
        modifiers: vec![ModifierDesc {
            target: "a[1]".to_string(),
            update_op: UpdateType::Assign,
            expr: "{}".to_string(),
            vars: vec![],
        }],
    }];
    let reg = vec![record_decl("S", vec![field("flag", TypeShape::Primitive(PrimitiveKind::Bool), a)])];
    let mirror = mirror_record(vec![("flag", MirrorValue::Bool(true))]);
    let r = decl::schema(&reg, 0, &mirror);
    assert_eq!(r, Err(SchemaError::InvalidPathExpression("a[1]".to_string())));
}

#[test]
fn integer_leaf_node_is_exact() {
    let mut a = ann();
    a.min = Some(NumLit::Int(1));
    a.max = Some(NumLit::Int(10));
    a.step = Some(NumLit::Int(2));
    a.suffix = Some("ms".to_string());
    a.gui = Some(NumericGuiType::TextBox);
    let reg = vec![record_decl("S", vec![field("n", TypeShape::Primitive(PrimitiveKind::U32), a)])];
    let mirror = mirror_record(vec![("n", MirrorValue::Int(5))]);
    let c = decl::schema(&reg, 0, &mirror).unwrap();
    assert_eq!(c.default_ty_name, "SDefault");
    assert_eq!(c.default_fields.len(), 1);
    assert_eq!(c.default_fields[0].name, "n");
    assert_eq!(c.default_fields[0].ty, MirrorTy::Primitive(PrimitiveKind::U32));
    let expected = SchemaNode::Section {
        entries: vec![(
            "n".to_string(),
            EntryType::Data(EntryData {
                advanced: false,
                content: SchemaNode::Integer {
                    default: 5,
                    min: Some(1),
                    max: Some(10),
                    step: Some(2),
                    gui: Some(NumericGuiType::TextBox),
                    suffix: Some("ms".to_string()),
                },
            }),
        )],
    };
    assert_eq!(c.node, expected);
}

#[test]
fn float_leaf_node_is_exact() {
    let mut a = ann();
    a.min = Some(NumLit::Float(0.5f64.to_bits()));
    let reg = vec![record_decl("S", vec![field("x", TypeShape::Primitive(PrimitiveKind::F64), a)])];
    let mirror = mirror_record(vec![("x", MirrorValue::Float(1.25f64.to_bits()))]);
    let c = decl::schema(&reg, 0, &mirror).unwrap();
    match &c.node {
        SchemaNode::Section { entries } => match &entries[0].1 {
            EntryType::Data(d) => {
                assert_eq!(
                    d.content,
                    SchemaNode::Float {
                        default: 1.25f64.to_bits(),
                        min: Some(0.5f64.to_bits()),
                        max: None,
                        step: None,
                        gui: None,
                        suffix: None,
                    }
                );
            }
            other => panic!("expected a data entry, got {:?}", other),
        },
        other => panic!("expected a section, got {:?}", other),
    }
}

#[test]
fn wrappers_keep_shape() {
    // one field per wrapper kind: the node kind must mirror the shape kind
    let fields = vec![
        field("o", TypeShape::Optional(Box::new(TypeShape::Primitive(PrimitiveKind::Bool))), ann()),
        field("s", TypeShape::Switch(Box::new(TypeShape::Primitive(PrimitiveKind::Text))), ann()),
        field(
            "arr",
            TypeShape::FixedArray(Box::new(TypeShape::Primitive(PrimitiveKind::Bool)), 2),
            ann(),
        ),
        field("v", TypeShape::Collection(Box::new(TypeShape::Primitive(PrimitiveKind::I32))), ann()),
        field(
            "d",
            TypeShape::Dictionary(vec![
                TypeShape::Primitive(PrimitiveKind::Text),
                TypeShape::Primitive(PrimitiveKind::Bool),
            ]),
            ann(),
        ),
    ];
    let reg = vec![record_decl("S", fields)];
    let mirror = mirror_record(vec![
        ("o", MirrorValue::Optional { set: true, content: Box::new(MirrorValue::Bool(true)) }),
        (
            "s",
            MirrorValue::Switch {
                enabled: false,
                content: Box::new(MirrorValue::Text("t".to_string())),
            },
        ),
        ("arr", MirrorValue::Array(vec![MirrorValue::Bool(true), MirrorValue::Bool(false)])),
        (
            "v",
            MirrorValue::Vector {
                element: Box::new(MirrorValue::Int(7)),
                default: vec![MirrorValue::Int(1), MirrorValue::Int(2)],
            },
        ),
        (
            "d",
            MirrorValue::Dictionary {
                key: "key".to_string(),
                value: Box::new(MirrorValue::Bool(true)),
                default: vec![("a".to_string(), MirrorValue::Bool(false))],
            },
        ),
    ]);
    let c = decl::schema(&reg, 0, &mirror).unwrap();
    let entries = match &c.node {
        SchemaNode::Section { entries } => entries,
        other => panic!("expected a section, got {:?}", other),
    };
    let content = |k: usize| match &entries[k].1 {
        EntryType::Data(d) => &d.content,
        other => panic!("expected a data entry, got {:?}", other),
    };
    assert!(matches!(content(0), SchemaNode::Optional { default_set: true, .. }));
    assert!(matches!(
        content(1),
        SchemaNode::Switch { default_enabled: false, content_advanced: false, .. }
    ));
    match content(2) {
        SchemaNode::Array(children) => {
            assert_eq!(children.len(), 2);
            assert_eq!(children[0], SchemaNode::Boolean { default: true });
            assert_eq!(children[1], SchemaNode::Boolean { default: false });
        }
        other => panic!("expected an array, got {:?}", other),
    }
    match content(3) {
        SchemaNode::Vector { default_element, default } => {
            assert_eq!(**default_element, SchemaNode::Integer {
                default: 7,
                min: None,
                max: None,
                step: None,
                gui: None,
                suffix: None,
            });
            assert_eq!(default, &vec![MirrorValue::Int(1), MirrorValue::Int(2)]);
        }
        other => panic!("expected a vector, got {:?}", other),
    }
    match content(4) {
        SchemaNode::Dictionary { default_key, default_value, default } => {
            assert_eq!(default_key, "key");
            assert_eq!(**default_value, SchemaNode::Boolean { default: true });
            assert_eq!(default, &vec![("a".to_string(), MirrorValue::Bool(false))]);
        }
        other => panic!("expected a dictionary, got {:?}", other),
    }
    // mirror types mirror the shapes too
    assert_eq!(
        c.default_fields[0].ty,
        MirrorTy::Optional(Box::new(MirrorTy::Primitive(PrimitiveKind::Bool)))
    );
    assert_eq!(
        c.default_fields[2].ty,
        MirrorTy::Array(Box::new(MirrorTy::Primitive(PrimitiveKind::Bool)), 2)
    );
    assert_eq!(
        c.default_fields[4].ty,
        MirrorTy::Dictionary(Box::new(MirrorTy::Primitive(PrimitiveKind::Bool)))
    );
}

#[test]
fn composite_reference_compiles_the_referenced_declaration() {
    let inner = record_decl(
        "Inner",
        vec![field("flag", TypeShape::Primitive(PrimitiveKind::Bool), ann())],
    );
    let outer = record_decl(
        "Outer",
        vec![field("inner", TypeShape::Composite("Inner".to_string()), ann())],
    );
    let reg = vec![inner, outer];
    let mirror = mirror_record(vec![(
        "inner",
        mirror_record(vec![("flag", MirrorValue::Bool(true))]),
    )]);
    let c = decl::schema(&reg, 1, &mirror).unwrap();
    assert_eq!(c.default_fields[0].ty, MirrorTy::Named("InnerDefault".to_string()));
    let entries = match &c.node {
        SchemaNode::Section { entries } => entries,
        other => panic!("expected a section, got {:?}", other),
    };
    match &entries[0].1 {
        EntryType::Data(d) => {
            let expected = SchemaNode::Section {
                entries: vec![(
                    "flag".to_string(),
                    EntryType::Data(EntryData {
                        advanced: false,
                        content: SchemaNode::Boolean { default: true },
                    }),
                )],
            };
            assert_eq!(d.content, expected);
        }
        other => panic!("expected a data entry, got {:?}", other),
    }
}

#[test]
fn entry_order_with_placeholders_and_higher_order() {
    let mut a1 = ann();
    a1.placeholders = vec!["p1".to_string(), "p2".to_string()];
    a1.higher_order = vec![HigherOrderSetting {
        name: "h1".to_string(),
        data: HigherOrderType::Bool { default: true },
        modifiers: vec![],
    }];
    let fields = vec![
        field("first", TypeShape::Primitive(PrimitiveKind::Bool), a1),
        field("second", TypeShape::Primitive(PrimitiveKind::Text), ann()),
    ];
    let reg = vec![record_decl("S", fields)];
    let mirror = mirror_record(vec![
        ("first", MirrorValue::Bool(false)),
        ("second", MirrorValue::Text("x".to_string())),
    ]);
    let c = decl::schema(&reg, 0, &mirror).unwrap();
    let entries = match &c.node {
        SchemaNode::Section { entries } => entries,
        other => panic!("expected a section, got {:?}", other),
    };
    let names: Vec<&str> = entries.iter().map(|e| e.0.as_str()).collect();
    assert_eq!(names, vec!["p1", "p2", "h1", "first", "second"]);
    assert!(matches!(entries[0].1, EntryType::Placeholder));
    assert!(matches!(entries[1].1, EntryType::Placeholder));
    assert!(matches!(entries[2].1, EntryType::HigherOrder { .. }));
    let mirror_names: Vec<&str> = c.default_fields.iter().map(|f| f.name.as_str()).collect();
    assert_eq!(mirror_names, vec!["first", "second"]);
}

fn union_decl() -> Declaration {
    Declaration {
        name: "Union".to_string(),
        generics: vec![],
        body: DeclBody::Union {
            variants: vec![
                Variant { name: "A".to_string(), data: VariantData::Unit },
                Variant {
                    name: "B".to_string(),
                    data: VariantData::Single {
                        shape: TypeShape::Primitive(PrimitiveKind::Bool),
                        annotation: ann(),
                    },
                },
                Variant {
                    name: "C".to_string(),
                    data: VariantData::Record(vec![field(
                        "x",
                        TypeShape::Primitive(PrimitiveKind::U8),
                        ann(),
                    )]),
                },
            ],
            gui: Some(ChoiceControlType::ButtonGroup),
        },
    }
}

fn union_mirror(selector: &str) -> MirrorValue {
    MirrorValue::Union {
        variant: selector.to_string(),
        data: vec![
            ("B".to_string(), MirrorValue::Bool(true)),
            ("C".to_string(), mirror_record(vec![("x", MirrorValue::Int(3))])),
        ],
    }
}

#[test]
fn union_selector_round_trip() {
    let reg = vec![union_decl()];
    let mirror = union_mirror("A");
    let c = decl::schema(&reg, 0, &mirror).unwrap();
    match &c.node {
        SchemaNode::Choice { default, variants, gui } => {
            assert_eq!(default, "A");
            assert_eq!(gui, &Some(ChoiceControlType::ButtonGroup));
            let names: Vec<&str> = variants.iter().map(|v| v.0.as_str()).collect();
            assert_eq!(names, vec!["A", "B", "C"]);
            assert!(variants[0].1.is_none());
            // the non-default variants' payloads are still populated
            match &variants[1].1 {
                Some(d) => assert_eq!(d.content, SchemaNode::Boolean { default: true }),
                None => panic!("expected entry data for the single-value variant"),
            }
            match &variants[2].1 {
                Some(d) => match &d.content {
                    SchemaNode::Section { entries } => assert_eq!(entries[0].0, "x"),
                    other => panic!("expected a section, got {:?}", other),
                },
                None => panic!("expected entry data for the record variant"),
            }
        }
        other => panic!("expected a choice, got {:?}", other),
    }
    // mirror fields: one per data-bearing variant, then the selector
    let mirror_names: Vec<&str> = c.default_fields.iter().map(|f| f.name.as_str()).collect();
    assert_eq!(mirror_names, vec!["B", "C", "variant"]);
    let aux = c.aux.unwrap();
    assert_eq!(aux.selector.name, "UnionDefaultVariant");
    let cases: Vec<&str> = aux.selector.cases.iter().map(|c| c.as_str()).collect();
    assert_eq!(cases, vec!["A", "B", "C"]);
    assert_eq!(aux.records.len(), 1);
    assert_eq!(aux.records[0].name, "UnionCDefault");
    assert_eq!(aux.records[0].fields[0].name, "x");
}

#[test]
fn union_single_variant_rejects_placeholder() {
    let mut a = ann();
    a.placeholders = vec!["p".to_string()];
    let reg = vec![Declaration {
        name: "U".to_string(),
        generics: vec![],
        body: DeclBody::Union {
            variants: vec![Variant {
                name: "Only".to_string(),
                data: VariantData::Single {
                    shape: TypeShape::Primitive(PrimitiveKind::Bool),
                    annotation: a,
                },
            }],
            gui: None,
        },
    }];
    let mirror = MirrorValue::Union {
        variant: "Only".to_string(),
        data: vec![("Only".to_string(), MirrorValue::Bool(true))],
    };
    let r = decl::schema(&reg, 0, &mirror);
    assert_eq!(r, Err(SchemaError::UnexpectedAttribute("Only".to_string())));
}

#[test]
fn compiling_twice_is_identical() {
    let reg = vec![union_decl()];
    let mirror = union_mirror("B");
    let first = decl::schema(&reg, 0, &mirror).unwrap();
    let second = decl::schema(&reg, 0, &mirror).unwrap();
    assert_eq!(first, second);
}

#[test]
fn higher_order_entry_is_exact() {
    let setting = HigherOrderSetting {
        name: "toggle".to_string(),
        data: HigherOrderType::Choice {
            default: "On".to_string(),
            variants: vec!["On".to_string(), "Off".to_string()],
            gui: ChoiceControlType::Dropdown,
        },
        modifiers: vec![ModifierDesc {
            target: "a.parent().b".to_string(),
            update_op: UpdateType::Assign,
            expr: "{input}".to_string(),
            vars: vec!["input".to_string(), "c[\"k\"]".to_string()],
        }],
    };
    let (name, entry) = settings_schema::higher_order::schema(&setting).unwrap();
    assert_eq!(name, "toggle");
    match entry {
        EntryType::HigherOrder { data_type, modifiers } => {
            assert_eq!(
                data_type,
                HigherOrderType::Choice {
                    default: "On".to_string(),
                    variants: vec!["On".to_string(), "Off".to_string()],
                    gui: ChoiceControlType::Dropdown,
                }
            );
            assert_eq!(modifiers.len(), 1);
            assert_eq!(
                modifiers[0].target,
                vec![
                    PathSegment::Identifier("a".to_string()),
                    PathSegment::Parent,
                    PathSegment::Identifier("b".to_string()),
                ]
            );
            assert_eq!(modifiers[0].update_operation, UpdateType::Assign);
            assert_eq!(modifiers[0].expression, "{input}");
            assert_eq!(
                modifiers[0].variables,
                vec![
                    ModifierVariable::Input,
                    ModifierVariable::Path(vec![
                        PathSegment::Identifier("c".to_string()),
                        PathSegment::Subscript("k".to_string()),
                    ]),
                ]
            );
        }
        other => panic!("expected a higher-order entry, got {:?}", other),
    }
}

#[test]
fn ty_schema_compiles_one_shape() {
    let reg: Vec<Declaration> = vec![];
    let shape = TypeShape::Optional(Box::new(TypeShape::Primitive(PrimitiveKind::U8)));
    let m = MirrorValue::Optional { set: false, content: Box::new(MirrorValue::Int(9)) };
    let data = ty::schema(&reg, 0, &shape, &ann(), &m).unwrap();
    assert_eq!(data.default_ty, MirrorTy::Optional(Box::new(MirrorTy::Primitive(PrimitiveKind::U8))));
    assert_eq!(
        data.node,
        SchemaNode::Optional {
            default_set: false,
            content: Box::new(SchemaNode::Integer {
                default: 9,
                min: None,
                max: None,
                step: None,
                gui: None,
                suffix: None,
            }),
        }
    );
}

#[test]
fn switch_advanced_flag_propagates() {
    let mut a = ann();
    a.advanced = true;
    let reg = vec![record_decl(
        "S",
        vec![field(
            "sw",
            TypeShape::Switch(Box::new(TypeShape::Primitive(PrimitiveKind::Bool))),
            a,
        )],
    )];
    let mirror = mirror_record(vec![(
        "sw",
        MirrorValue::Switch { enabled: true, content: Box::new(MirrorValue::Bool(false)) },
    )]);
    let c = decl::schema(&reg, 0, &mirror).unwrap();
    match &c.node {
        SchemaNode::Section { entries } => match &entries[0].1 {
            EntryType::Data(d) => {
                assert!(d.advanced);
                assert!(matches!(
                    d.content,
                    SchemaNode::Switch { default_enabled: true, content_advanced: true, .. }
                ));
            }
            other => panic!("expected a data entry, got {:?}", other),
        },
        other => panic!("expected a section, got {:?}", other),
    }
}

#[test]
fn slider_and_suffix_are_accepted_on_numeric_leaves() {
    let mut a = ann();
    a.gui = Some(NumericGuiType::Slider {
        min: NumLit::Int(0),
        max: NumLit::Int(100),
        step: Some(NumLit::Int(5)),
        logarithmic: true,
    });
    a.suffix = Some("%".to_string());
    let reg = vec![record_decl("S", vec![field("n", TypeShape::Primitive(PrimitiveKind::I64), a)])];
    let mirror = mirror_record(vec![("n", MirrorValue::Int(-3))]);
    let c = decl::schema(&reg, 0, &mirror).unwrap();
    match &c.node {
        SchemaNode::Section { entries } => match &entries[0].1 {
            EntryType::Data(d) => assert_eq!(
                d.content,
                SchemaNode::Integer {
                    default: -3,
                    min: None,
                    max: None,
                    step: None,
                    gui: Some(NumericGuiType::Slider {
                        min: NumLit::Int(0),
                        max: NumLit::Int(100),
                        step: Some(NumLit::Int(5)),
                        logarithmic: true,
                    }),
                    suffix: Some("%".to_string()),
                }
            ),
            other => panic!("expected a data entry, got {:?}", other),
        },
        other => panic!("expected a section, got {:?}", other),
    }
}

#[test]
fn nested_wrappers_keep_shape() {
    // an optional of a collection of switches of booleans
    let shape = TypeShape::Optional(Box::new(TypeShape::Collection(Box::new(TypeShape::Switch(
        Box::new(TypeShape::Primitive(PrimitiveKind::Bool)),
    )))));
    let m = MirrorValue::Optional {
        set: true,
        content: Box::new(MirrorValue::Vector {
            element: Box::new(MirrorValue::Switch {
                enabled: false,
                content: Box::new(MirrorValue::Bool(true)),
            }),
            default: vec![],
        }),
    };
    let reg: Vec<Declaration> = vec![];
    let data = ty::schema(&reg, 0, &shape, &ann(), &m).unwrap();
    match data.node {
        SchemaNode::Optional { default_set: true, content } => match *content {
            SchemaNode::Vector { default_element, .. } => match *default_element {
                SchemaNode::Switch { default_enabled: false, content_advanced: false, content } => {
                    assert_eq!(*content, SchemaNode::Boolean { default: true });
                }
                other => panic!("expected a switch, got {:?}", other),
            },
            other => panic!("expected a vector, got {:?}", other),
        },
        other => panic!("expected an optional, got {:?}", other),
    }
}

#[test]
fn into_option_of_switch() {
    let on: Switch<u8> = Switch::Enabled(7);
    let off: Switch<u8> = Switch::Disabled;
    assert_eq!(on.into_option(), Some(7));
    assert_eq!(off.into_option(), None);
}

#[test]
fn empty_record_compiles_to_empty_section() {
    let reg = vec![record_decl("Empty", vec![])];
    let mirror = mirror_record(vec![]);
    let c = decl::schema(&reg, 0, &mirror).unwrap();
    assert_eq!(c.default_ty_name, "EmptyDefault");
    assert_eq!(c.node, SchemaNode::Section { entries: vec![] });
    assert!(c.default_fields.is_empty());
}

#[test]
fn numeric_attrs_on_composite_are_rejected() {
    let inner = record_decl("Inner", vec![]);
    let mut a = ann();
    a.suffix = Some("x".to_string());
    let outer = record_decl(
        "Outer",
        vec![field("inner", TypeShape::Composite("Inner".to_string()), a)],
    );
    let reg = vec![inner, outer];
    let mirror = mirror_record(vec![("inner", mirror_record(vec![]))]);
    let r = decl::schema(&reg, 1, &mirror);
    assert_eq!(r, Err(SchemaError::UnexpectedAttribute("custom".to_string())));
}
