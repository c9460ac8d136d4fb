//! The path-expression compiler.
//!
//! A path expression names a location in the structural tree relative to an
//! implicit current node.  The grammar is
//!
//! ```text
//! Path := Atom Step*
//! Atom := Identifier | 'parent()'
//! Step := '.' Identifier | '.' 'parent()' | '[' StringLiteral ']'
//! ```
//!
//! with ASCII identifiers, plain quoted string literals (no escapes), and
//! whitespace allowed between tokens.  A well-formed expression compiles to a
//! non-empty segment list, left to right; anything else is an
//! `InvalidPathExpression` diagnostic carrying the offending string.
//!
//! The executable parser is proved to return exactly what the specification
//! parser [`spec_parse_path`] yields.

use vstd::prelude::*;

use crate::error::SchemaError;
use crate::error::SpecSchemaError;
use crate::node::ModifierVariable;
use crate::node::PathSegment;
use crate::node::SpecModifierVariable;
use crate::node::SpecPathSegment;

verus! {

pub open spec fn is_space_char(c: char) -> bool {
    c == ' ' || c == '\t' || c == '\n' || c == '\r'
}

pub open spec fn is_ident_start_char(c: char) -> bool {
    (97 <= c as u32 && c as u32 <= 122) || (65 <= c as u32 && c as u32 <= 90) || c == '_'
}

pub open spec fn is_ident_char(c: char) -> bool {
    is_ident_start_char(c) || (48 <= c as u32 && c as u32 <= 57)
}

/// The characters of the distinguished `parent` token.
pub open spec fn parent_chars() -> Seq<char> {
    seq!['p', 'a', 'r', 'e', 'n', 't']
}

/// The characters of the distinguished `input` variable token.
pub open spec fn input_chars() -> Seq<char> {
    seq!['i', 'n', 'p', 'u', 't']
}

/// The first position at or after `i` that does not hold whitespace.
pub open spec fn ws_end(s: Seq<char>, i: int) -> int
    decreases s.len() - i,
{
    if i < s.len() && is_space_char(s[i]) {
        ws_end(s, i + 1)
    } else {
        i
    }
}

/// The first position at or after `i` that does not hold an identifier
/// character.
pub open spec fn ident_end(s: Seq<char>, i: int) -> int
    decreases s.len() - i,
{
    if i < s.len() && is_ident_char(s[i]) {
        ident_end(s, i + 1)
    } else {
        i
    }
}

/// The first position at or after `i` that holds a quote or a backslash.
pub open spec fn lit_end(s: Seq<char>, i: int) -> int
    decreases s.len() - i,
{
    if i < s.len() && s[i] != '"' && s[i] != '\\' {
        lit_end(s, i + 1)
    } else {
        i
    }
}

pub proof fn lemma_ws_end_bounds(s: Seq<char>, i: int)
    requires
        i <= s.len(),
    ensures
        i <= ws_end(s, i) <= s.len(),
    decreases s.len() - i,
{
    if i < s.len() && is_space_char(s[i]) {
        lemma_ws_end_bounds(s, i + 1);
    }
}

pub proof fn lemma_ident_end_bounds(s: Seq<char>, i: int)
    requires
        i <= s.len(),
    ensures
        i <= ident_end(s, i) <= s.len(),
    decreases s.len() - i,
{
    if i < s.len() && is_ident_char(s[i]) {
        lemma_ident_end_bounds(s, i + 1);
    }
}

pub proof fn lemma_lit_end_bounds(s: Seq<char>, i: int)
    requires
        i <= s.len(),
    ensures
        i <= lit_end(s, i) <= s.len(),
    decreases s.len() - i,
{
    if i < s.len() && s[i] != '"' && s[i] != '\\' {
        lemma_lit_end_bounds(s, i + 1);
    }
}

/// Parses one identifier-or-`parent()` unit starting exactly at `i`.
/// Yields the segment and the position after it.
pub open spec fn parse_unit(s: Seq<char>, i: int) -> Option<(SpecPathSegment, int)> {
    if i < s.len() && is_ident_start_char(s[i]) {
        let e = ident_end(s, i);
        let name = s.subrange(i, e);
        let j = ws_end(s, e);
        if j < s.len() && s[j] == '(' {
            if name == parent_chars() {
                let k = ws_end(s, j + 1);
                if k < s.len() && s[k] == ')' {
                    Some((SpecPathSegment::Parent, k + 1))
                } else {
                    None
                }
            } else {
                None
            }
        } else {
            Some((SpecPathSegment::Identifier(name), e))
        }
    } else {
        None
    }
}

/// Parses one string-keyed subscript starting exactly at `i`.
pub open spec fn parse_subscript(s: Seq<char>, i: int) -> Option<(SpecPathSegment, int)> {
    if i < s.len() && s[i] == '[' {
        let k = ws_end(s, i + 1);
        if k < s.len() && s[k] == '"' {
            let e = lit_end(s, k + 1);
            if e < s.len() && s[e] == '"' {
                let key = s.subrange(k + 1, e);
                let m = ws_end(s, e + 1);
                if m < s.len() && s[m] == ']' {
                    Some((SpecPathSegment::Subscript(key), m + 1))
                } else {
                    None
                }
            } else {
                None
            }
        } else {
            None
        }
    } else {
        None
    }
}

pub proof fn lemma_parse_unit_bounds(s: Seq<char>, i: int)
    requires
        i <= s.len(),
    ensures
        match parse_unit(s, i) {
            Some(r) => i < r.1 <= s.len(),
            None => true,
        },
{
    if i < s.len() && is_ident_start_char(s[i]) {
        lemma_ident_end_bounds(s, i + 1);
        assert(ident_end(s, i) == ident_end(s, i + 1));
        let e = ident_end(s, i);
        lemma_ws_end_bounds(s, e);
        let j = ws_end(s, e);
        if j < s.len() && s[j] == '(' {
            lemma_ws_end_bounds(s, j + 1);
        }
    }
}

pub proof fn lemma_parse_subscript_bounds(s: Seq<char>, i: int)
    requires
        i <= s.len(),
    ensures
        match parse_subscript(s, i) {
            Some(r) => i < r.1 <= s.len(),
            None => true,
        },
{
    if i < s.len() && s[i] == '[' {
        lemma_ws_end_bounds(s, i + 1);
        let k = ws_end(s, i + 1);
        if k < s.len() && s[k] == '"' {
            lemma_lit_end_bounds(s, k + 1);
            let e = lit_end(s, k + 1);
            if e < s.len() && s[e] == '"' {
                lemma_ws_end_bounds(s, e + 1);
            }
        }
    }
}

/// Parses the remaining steps after a well-formed prefix, extending `acc`.
pub open spec fn parse_steps(s: Seq<char>, i: int, acc: Seq<SpecPathSegment>) -> Option<
    Seq<SpecPathSegment>,
>
    decreases s.len() - i,
{
    let j = ws_end(s, i);
    if j >= s.len() {
        Some(acc)
    } else if s[j] == '.' {
        let k = ws_end(s, j + 1);
        match parse_unit(s, k) {
            Some(r) => {
                proof {
                    lemma_steps_progress(s, i);
                }
                parse_steps(s, r.1, acc.push(r.0))
            },
            None => None,
        }
    } else if s[j] == '[' {
        match parse_subscript(s, j) {
            Some(r) => {
                proof {
                    lemma_steps_progress(s, i);
                }
                parse_steps(s, r.1, acc.push(r.0))
            },
            None => None,
        }
    } else {
        None
    }
}

/// The positions consumed by one step strictly advance and stay in range.
pub proof fn lemma_steps_progress(s: Seq<char>, i: int)
    ensures
        ws_end(s, i) < s.len() ==> {
            let j = ws_end(s, i);
            &&& i <= j
            &&& (match parse_unit(s, ws_end(s, j + 1)) {
                Some(r) => i < r.1 <= s.len(),
                None => true,
            })
            &&& (match parse_subscript(s, j) {
                Some(r) => i < r.1 <= s.len(),
                None => true,
            })
        },
{
    let j = ws_end(s, i);
    if j < s.len() {
        if i > s.len() {
            assert(ws_end(s, i) == i);
        }
        lemma_ws_end_bounds(s, i);
        lemma_ws_end_bounds(s, j + 1);
        let k = ws_end(s, j + 1);
        lemma_parse_unit_bounds(s, k);
        lemma_parse_subscript_bounds(s, j);
    }
}

/// The specification parser: the compiled segments of a path expression, or
/// nothing when the string is not in the grammar.
pub open spec fn spec_parse_path(s: Seq<char>) -> Option<Seq<SpecPathSegment>> {
    let i = ws_end(s, 0);
    match parse_unit(s, i) {
        Some(r) => parse_steps(s, r.1, seq![r.0]),
        None => None,
    }
}

/// The specification of [`parse_path_string`]: the compiled segments, or the
/// diagnostic naming the string.
pub open spec fn spec_parse_path_result(s: Seq<char>) -> Result<
    Seq<SpecPathSegment>,
    SpecSchemaError,
> {
    match spec_parse_path(s) {
        Some(segments) => Ok(segments),
        None => Err(SpecSchemaError::InvalidPathExpression(s)),
    }
}

/// The specification of [`parse_var_path_string`]: the distinguished input
/// token, a compiled path, or the diagnostic naming the string.
pub open spec fn spec_parse_var_result(s: Seq<char>) -> Result<
    SpecModifierVariable,
    SpecSchemaError,
> {
    if s == input_chars() {
        Ok(SpecModifierVariable::Input)
    } else {
        match spec_parse_path(s) {
            Some(segments) => Ok(SpecModifierVariable::Path(segments)),
            None => Err(SpecSchemaError::InvalidPathExpression(s)),
        }
    }
}

fn is_space(c: char) -> (r: bool)
    ensures
        r == is_space_char(c),
{
    c == ' ' || c == '\t' || c == '\n' || c == '\r'
}

fn is_ident_start(c: char) -> (r: bool)
    ensures
        r == is_ident_start_char(c),
{
    let u = c as u32;
    (97 <= u && u <= 122) || (65 <= u && u <= 90) || c == '_'
}

fn is_ident(c: char) -> (r: bool)
    ensures
        r == is_ident_char(c),
{
    let u = c as u32;
    is_ident_start(c) || (48 <= u && u <= 57)
}

fn ws_end_exec(s: &str, n: usize, i: usize) -> (r: usize)
    requires
        n == s@.len(),
        i <= n,
    ensures
        r as int == ws_end(s@, i as int),
        i <= r <= n,
    decreases n - i,
{
    if i < n && is_space(s.get_char(i)) {
        ws_end_exec(s, n, i + 1)
    } else {
        i
    }
}

fn ident_end_exec(s: &str, n: usize, i: usize) -> (r: usize)
    requires
        n == s@.len(),
        i <= n,
    ensures
        r as int == ident_end(s@, i as int),
        i <= r <= n,
    decreases n - i,
{
    if i < n && is_ident(s.get_char(i)) {
        ident_end_exec(s, n, i + 1)
    } else {
        i
    }
}

fn lit_end_exec(s: &str, n: usize, i: usize) -> (r: usize)
    requires
        n == s@.len(),
        i <= n,
    ensures
        r as int == lit_end(s@, i as int),
        i <= r <= n,
    decreases n - i,
{
    if i < n {
        let c = s.get_char(i);
        if c != '"' && c != '\\' {
            lit_end_exec(s, n, i + 1)
        } else {
            i
        }
    } else {
        i
    }
}

/// Whether the identifier run `s[i..e]` spells `parent`.
fn is_parent_ident(s: &str, n: usize, i: usize, e: usize) -> (r: bool)
    requires
        n == s@.len(),
        i <= e <= n,
    ensures
        r == (s@.subrange(i as int, e as int) == parent_chars()),
{
    if e - i != 6 {
        proof {
            assert(s@.subrange(i as int, e as int).len() != parent_chars().len());
        }
        return false;
    }
    let r = s.get_char(i) == 'p' && s.get_char(i + 1) == 'a' && s.get_char(i + 2) == 'r'
        && s.get_char(i + 3) == 'e' && s.get_char(i + 4) == 'n' && s.get_char(i + 5) == 't';
    proof {
        let sub = s@.subrange(i as int, e as int);
        if r {
            assert(sub =~= parent_chars());
        } else {
            assert(sub.len() == 6);
            assert(sub[0] == s@[i as int] && sub[1] == s@[i as int + 1] && sub[2] == s@[i as int
                + 2] && sub[3] == s@[i as int + 3] && sub[4] == s@[i as int + 4] && sub[5] == s@[
                i as int + 5]);
        }
    }
    r
}

fn parse_unit_exec(s: &str, n: usize, i: usize) -> (r: Option<(PathSegment, usize)>)
    requires
        n == s@.len(),
        i <= n,
    ensures
        match r {
            Some(p) => parse_unit(s@, i as int) == Some((p.0.deep_view(), p.1 as int)),
            None => parse_unit(s@, i as int) is None,
        },
{
    if i < n && is_ident_start(s.get_char(i)) {
        let e = ident_end_exec(s, n, i);
        proof {
            lemma_ident_end_bounds(s@, i as int);
        }
        let j = ws_end_exec(s, n, e);
        if j < n && s.get_char(j) == '(' {
            if is_parent_ident(s, n, i, e) {
                let k = ws_end_exec(s, n, j + 1);
                if k < n && s.get_char(k) == ')' {
                    Some((PathSegment::Parent, k + 1))
                } else {
                    None
                }
            } else {
                None
            }
        } else {
            let name = s.substring_char(i, e).to_owned();
            Some((PathSegment::Identifier(name), e))
        }
    } else {
        None
    }
}

fn parse_subscript_exec(s: &str, n: usize, i: usize) -> (r: Option<(PathSegment, usize)>)
    requires
        n == s@.len(),
        i <= n,
    ensures
        match r {
            Some(p) => parse_subscript(s@, i as int) == Some((p.0.deep_view(), p.1 as int)),
            None => parse_subscript(s@, i as int) is None,
        },
{
    if i < n && s.get_char(i) == '[' {
        let k = ws_end_exec(s, n, i + 1);
        if k < n && s.get_char(k) == '"' {
            let e = lit_end_exec(s, n, k + 1);
            if e < n && s.get_char(e) == '"' {
                let key = s.substring_char(k + 1, e).to_owned();
                let m = ws_end_exec(s, n, e + 1);
                if m < n && s.get_char(m) == ']' {
                    Some((PathSegment::Subscript(key), m + 1))
                } else {
                    None
                }
            } else {
                None
            }
        } else {
            None
        }
    } else {
        None
    }
}

fn parse_steps_exec(s: &str, n: usize, i: usize, acc: Vec<PathSegment>) -> (r: Option<
    Vec<PathSegment>,
>)
    requires
        n == s@.len(),
        i <= n,
    ensures
        match r {
            Some(segments) => parse_steps(s@, i as int, acc.deep_view()) == Some(
                segments.deep_view(),
            ),
            None => parse_steps(s@, i as int, acc.deep_view()) is None,
        },
    decreases n - i,
{
    let j = ws_end_exec(s, n, i);
    if j >= n {
        Some(acc)
    } else {
        let c = s.get_char(j);
        if c == '.' {
            let k = ws_end_exec(s, n, j + 1);
            match parse_unit_exec(s, n, k) {
                Some(p) => {
                    proof {
                        lemma_steps_progress(s@, i as int);
                    }
                    let (seg, m) = p;
                    let mut acc2 = acc;
                    let ghost old_acc = acc2.deep_view();
                    acc2.push(seg);
                    proof {
                        assert(acc2.deep_view() =~= old_acc.push(seg.deep_view()));
                    }
                    parse_steps_exec(s, n, m, acc2)
                },
                None => None,
            }
        } else if c == '[' {
            match parse_subscript_exec(s, n, j) {
                Some(p) => {
                    proof {
                        lemma_steps_progress(s@, i as int);
                    }
                    let (seg, m) = p;
                    let mut acc2 = acc;
                    let ghost old_acc = acc2.deep_view();
                    acc2.push(seg);
                    proof {
                        assert(acc2.deep_view() =~= old_acc.push(seg.deep_view()));
                    }
                    parse_steps_exec(s, n, m, acc2)
                },
                None => None,
            }
        } else {
            None
        }
    }
}

/// Compiles a path-expression string into its segment list, or reports the
/// string as an invalid path expression.
pub fn parse_path_string(path: &str) -> (r: Result<Vec<PathSegment>, SchemaError>)
    ensures
        match r {
            Ok(segments) => spec_parse_path_result(path@) == Ok::<_, SpecSchemaError>(
                segments.deep_view(),
            ),
            Err(e) => spec_parse_path_result(path@) == Err::<Seq<SpecPathSegment>, _>(
                e.deep_view(),
            ),
        },
{
    let n = path.unicode_len();
    let i = ws_end_exec(path, n, 0);
    match parse_unit_exec(path, n, i) {
        Some(p) => {
            let (seg, m) = p;
            proof {
                lemma_parse_unit_bounds(path@, i as int);
            }
            let mut acc: Vec<PathSegment> = Vec::new();
            acc.push(seg);
            proof {
                assert(acc.deep_view() =~= seq![seg.deep_view()]);
            }
            match parse_steps_exec(path, n, m, acc) {
                Some(segments) => Ok(segments),
                None => Err(SchemaError::InvalidPathExpression(path.to_owned())),
            }
        },
        None => Err(SchemaError::InvalidPathExpression(path.to_owned())),
    }
}

/// Compiles a modifier-variable string: the literal `input` token compiles
/// to the distinguished input variable, anything else must be a path
/// expression.
pub fn parse_var_path_string(path: &str) -> (r: Result<ModifierVariable, SchemaError>)
    ensures
        match r {
            Ok(variable) => spec_parse_var_result(path@) == Ok::<_, SpecSchemaError>(
                variable.deep_view(),
            ),
            Err(e) => spec_parse_var_result(path@) == Err::<SpecModifierVariable, _>(
                e.deep_view(),
            ),
        },
{
    let n = path.unicode_len();
    let input = n == 5 && path.get_char(0) == 'i' && path.get_char(1) == 'n' && path.get_char(2)
        == 'p' && path.get_char(3) == 'u' && path.get_char(4) == 't';
    proof {
        if input {
            assert(path@ =~= input_chars());
        } else {
            if path@.len() == 5 {
                assert(path@[0] == input_chars()[0] ==> path@[0] == 'i');
            }
            assert(path@ != input_chars());
        }
    }
    if input {
        Ok(ModifierVariable::Input)
    } else {
        match parse_path_string(path) {
            Ok(segments) => Ok(ModifierVariable::Path(segments)),
            Err(e) => Err(e),
        }
    }
}

} // verus!
