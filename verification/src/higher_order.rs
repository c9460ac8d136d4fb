//! The higher-order setting compiler.
//!
//! A higher-order setting is a derived pseudo-setting: it stores no value of
//! its own and contributes one schema entry carrying its data kind verbatim
//! plus its compiled update rules.  Every modifier target and every non-input
//! variable string is compiled by the path-expression compiler; the first
//! string that fails to parse aborts the setting with its diagnostic.

use vstd::prelude::*;

use crate::error::SchemaError;
use crate::error::SpecSchemaError;
use crate::node::EntryType;
use crate::node::HigherOrderType;
use crate::node::ModifierDescriptor;
use crate::node::ModifierVariable;
use crate::node::SpecEntryType;
use crate::node::SpecModifierDescriptor;
use crate::node::SpecModifierVariable;
use crate::path::parse_path_string;
use crate::path::parse_var_path_string;
use crate::path::spec_parse_path_result;
use crate::path::spec_parse_var_result;
use crate::shape::HigherOrderSetting;
use crate::shape::ModifierDesc;

verus! {

/// The compiled variables of a modifier, or the first diagnostic.
pub open spec fn spec_compile_vars(vars: Seq<String>) -> Result<
    Seq<SpecModifierVariable>,
    SpecSchemaError,
>
    decreases vars,
{
    if vars.len() == 0 {
        Ok(Seq::empty())
    } else {
        match spec_parse_var_result(vars[0]@) {
            Err(e) => Err(e),
            Ok(v) => match spec_compile_vars(vars.drop_first()) {
                Err(e) => Err(e),
                Ok(rest) => Ok(seq![v] + rest),
            },
        }
    }
}

/// The compiled descriptor of one modifier, or the first diagnostic.
pub open spec fn spec_compile_modifier(m: ModifierDesc) -> Result<
    SpecModifierDescriptor,
    SpecSchemaError,
> {
    match spec_parse_path_result(m.target@) {
        Err(e) => Err(e),
        Ok(target) => match spec_compile_vars(m.vars@) {
            Err(e) => Err(e),
            Ok(variables) => Ok(
                SpecModifierDescriptor {
                    target,
                    update_operation: m.update_op,
                    expression: m.expr@,
                    variables,
                },
            ),
        },
    }
}

/// The compiled descriptors of a modifier list, or the first diagnostic.
pub open spec fn spec_compile_modifiers(mods: Seq<ModifierDesc>) -> Result<
    Seq<SpecModifierDescriptor>,
    SpecSchemaError,
>
    decreases mods,
{
    if mods.len() == 0 {
        Ok(Seq::empty())
    } else {
        match spec_compile_modifier(mods[0]) {
            Err(e) => Err(e),
            Ok(d) => match spec_compile_modifiers(mods.drop_first()) {
                Err(e) => Err(e),
                Ok(rest) => Ok(seq![d] + rest),
            },
        }
    }
}

/// The schema entry a higher-order setting compiles to: its name, its data
/// kind verbatim, and its compiled modifiers; or the first diagnostic.
pub open spec fn spec_ho_schema(setting: HigherOrderSetting) -> Result<
    (Seq<char>, SpecEntryType),
    SpecSchemaError,
> {
    match spec_compile_modifiers(setting.modifiers@) {
        Err(e) => Err(e),
        Ok(modifiers) => Ok(
            (
                setting.name@,
                SpecEntryType::HigherOrder { data_type: setting.data.deep_view(), modifiers },
            ),
        ),
    }
}

/// A structural copy of a higher-order data kind.
pub fn clone_higher_order_type(t: &HigherOrderType) -> (r: HigherOrderType)
    ensures
        r.deep_view() == t.deep_view(),
{
    match t {
        HigherOrderType::Choice { default, variants, gui } => {
            let mut out: Vec<String> = Vec::new();
            let mut k: usize = 0;
            while k < variants.len()
                invariant
                    k <= variants@.len(),
                    out@.len() == k,
                    forall|i: int| 0 <= i < k ==> (#[trigger] out@[i])@ == variants@[i]@,
                decreases variants@.len() - k,
            {
                let s = variants[k].clone();
                out.push(s);
                k = k + 1;
            }
            proof {
                assert(out.deep_view() =~= variants.deep_view());
            }
            HigherOrderType::Choice { default: default.clone(), variants: out, gui: *gui }
        },
        HigherOrderType::Bool { default } => HigherOrderType::Bool { default: *default },
        HigherOrderType::Action => HigherOrderType::Action,
    }
}

fn compile_vars(vars: &Vec<String>) -> (r: Result<Vec<ModifierVariable>, SchemaError>)
    ensures
        match r {
            Ok(out) => spec_compile_vars(vars@) == Ok::<_, SpecSchemaError>(out.deep_view()),
            Err(e) => spec_compile_vars(vars@) == Err::<Seq<SpecModifierVariable>, _>(
                e.deep_view(),
            ),
        },
{
    let mut out: Vec<ModifierVariable> = Vec::new();
    let mut k: usize = 0;
    proof {
        assert(vars@.skip(0) =~= vars@);
    }
    while k < vars.len()
        invariant
            k <= vars@.len(),
            spec_compile_vars(vars@) == (match spec_compile_vars(vars@.skip(k as int)) {
                Ok(rest) => Ok::<_, SpecSchemaError>(out.deep_view() + rest),
                Err(e) => Err(e),
            }),
        decreases vars@.len() - k,
    {
        proof {
            assert(vars@.skip(k as int)[0] == vars@[k as int]);
            assert(vars@.skip(k as int).drop_first() =~= vars@.skip(k as int + 1));
        }
        match parse_var_path_string(vars[k].as_str()) {
            Ok(v) => {
                let ghost old_out = out.deep_view();
                out.push(v);
                proof {
                    assert(out.deep_view() =~= old_out.push(v.deep_view()));
                    assert forall|rest: Seq<SpecModifierVariable>|
                        old_out + (seq![v.deep_view()] + rest) =~= out.deep_view() + rest by {}
                }
            },
            Err(e) => {
                return Err(e);
            },
        }
        k = k + 1;
    }
    proof {
        assert(vars@.skip(vars@.len() as int).len() == 0);
        assert(out.deep_view() + Seq::<SpecModifierVariable>::empty() =~= out.deep_view());
    }
    Ok(out)
}

fn compile_modifier(m: &ModifierDesc) -> (r: Result<ModifierDescriptor, SchemaError>)
    ensures
        match r {
            Ok(d) => spec_compile_modifier(*m) == Ok::<_, SpecSchemaError>(d.deep_view()),
            Err(e) => spec_compile_modifier(*m) == Err::<SpecModifierDescriptor, _>(e.deep_view()),
        },
{
    let target = match parse_path_string(m.target.as_str()) {
        Ok(t) => t,
        Err(e) => {
            return Err(e);
        },
    };
    let variables = match compile_vars(&m.vars) {
        Ok(v) => v,
        Err(e) => {
            return Err(e);
        },
    };
    Ok(
        ModifierDescriptor {
            target,
            update_operation: m.update_op,
            expression: m.expr.clone(),
            variables,
        },
    )
}

fn compile_modifiers(mods: &Vec<ModifierDesc>) -> (r: Result<Vec<ModifierDescriptor>, SchemaError>)
    ensures
        match r {
            Ok(out) => spec_compile_modifiers(mods@) == Ok::<_, SpecSchemaError>(out.deep_view()),
            Err(e) => spec_compile_modifiers(mods@) == Err::<Seq<SpecModifierDescriptor>, _>(
                e.deep_view(),
            ),
        },
{
    let mut out: Vec<ModifierDescriptor> = Vec::new();
    let mut k: usize = 0;
    proof {
        assert(mods@.skip(0) =~= mods@);
    }
    while k < mods.len()
        invariant
            k <= mods@.len(),
            spec_compile_modifiers(mods@) == (match spec_compile_modifiers(
                mods@.skip(k as int),
            ) {
                Ok(rest) => Ok::<_, SpecSchemaError>(out.deep_view() + rest),
                Err(e) => Err(e),
            }),
        decreases mods@.len() - k,
    {
        proof {
            assert(mods@.skip(k as int)[0] == mods@[k as int]);
            assert(mods@.skip(k as int).drop_first() =~= mods@.skip(k as int + 1));
        }
        match compile_modifier(&mods[k]) {
            Ok(d) => {
                let ghost old_out = out.deep_view();
                out.push(d);
                proof {
                    assert(out.deep_view() =~= old_out.push(d.deep_view()));
                    assert forall|rest: Seq<SpecModifierDescriptor>|
                        old_out + (seq![d.deep_view()] + rest) =~= out.deep_view() + rest by {}
                }
            },
            Err(e) => {
                return Err(e);
            },
        }
        k = k + 1;
    }
    proof {
        assert(mods@.skip(mods@.len() as int).len() == 0);
        assert(out.deep_view() + Seq::<SpecModifierDescriptor>::empty() =~= out.deep_view());
    }
    Ok(out)
}

/// Compiles one higher-order setting declaration into its schema entry.
pub fn schema(setting: &HigherOrderSetting) -> (r: Result<(String, EntryType), SchemaError>)
    ensures
        match r {
            Ok(entry) => spec_ho_schema(*setting) == Ok::<_, SpecSchemaError>(
                (entry.0@, entry.1.deep_view()),
            ),
            Err(e) => spec_ho_schema(*setting) == Err::<(Seq<char>, SpecEntryType), _>(
                e.deep_view(),
            ),
        },
{
    let modifiers = match compile_modifiers(&setting.modifiers) {
        Ok(m) => m,
        Err(e) => {
            return Err(e);
        },
    };
    let data_type = clone_higher_order_type(&setting.data);
    Ok(
        (
            setting.name.clone(),
            EntryType::HigherOrder { data_type, modifiers },
        ),
    )
}

} // verus!
