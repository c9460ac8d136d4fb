//! A compiler from annotated structural type descriptions to configuration
//! schemas.
//!
//! A declaration (a record of annotated fields, or a tagged union of
//! variants) is compiled into two co-derived artifacts: a mirror description
//! of the default-value structure, and a schema tree ([`node::SchemaNode`])
//! that carries structure, validation bounds and presentation hints for every
//! entry.  A small companion compiler ([`path`]) turns restricted
//! path-expression strings into structured navigation paths for dependent
//! ("higher-order") settings.
//!
//! Every compilation function is specified against a mathematical model of
//! the same compilation, and the structural laws (shape fidelity, entry-order
//! preservation, selector round-trip, determinism) are proved in [`laws`].

pub mod decl;
pub mod defaults;
pub mod error;
pub mod higher_order;
pub mod laws;
pub mod node;
pub mod path;
pub mod shape;
pub mod ty;

pub use defaults::DictionaryDefault;
pub use defaults::OptionalDefault;
pub use defaults::Switch;
pub use defaults::SwitchDefault;
pub use defaults::VectorDefault;
pub use error::SchemaError;
pub use node::ChoiceControlType;
pub use node::EntryData;
pub use node::EntryType;
pub use node::HigherOrderType;
pub use node::MirrorValue;
pub use node::ModifierDescriptor;
pub use node::ModifierVariable;
pub use node::NumLit;
pub use node::NumericGuiType;
pub use node::PathSegment;
pub use node::SchemaNode;
pub use node::UpdateType;
pub use shape::Declaration;
pub use shape::DeclBody;
pub use shape::Field;
pub use shape::FieldAnnotation;
pub use shape::HigherOrderSetting;
pub use shape::MirrorField;
pub use shape::MirrorTy;
pub use shape::ModifierDesc;
pub use shape::PrimitiveKind;
pub use shape::TypeShape;
pub use shape::Variant;
pub use shape::VariantData;
pub use ty::TypeSchemaData;
