use settings_schema::ModifierVariable;
use settings_schema::PathSegment;
use settings_schema::SchemaError;
use settings_schema::path::parse_path_string;
use settings_schema::path::parse_var_path_string;

fn ident(name: &str) -> PathSegment {
    PathSegment::Identifier(name.to_string())
}

fn subscript(key: &str) -> PathSegment {
    PathSegment::Subscript(key.to_string())
}

#[test]
fn path_single_identifier() {
    assert_eq!(parse_path_string("a"), Ok(vec![ident("a")]));
}

#[test]
fn path_field_access() {
    assert_eq!(parse_path_string("a.b"), Ok(vec![ident("a"), ident("b")]));
}

#[test]
fn path_string_subscript() {
    assert_eq!(parse_path_string("a[\"k\"]"), Ok(vec![ident("a"), subscript("k")]));
}

#[test]
fn path_parent_call() {
    assert_eq!(parse_path_string("parent()"), Ok(vec![PathSegment::Parent]));
}

#[test]
fn path_parent_method() {
    assert_eq!(
        parse_path_string("a.parent().b"),
        Ok(vec![ident("a"), PathSegment::Parent, ident("b")])
    );
}

#[test]
fn path_non_string_index_is_rejected() {
    assert_eq!(
        parse_path_string("a[1]"),
        Err(SchemaError::InvalidPathExpression("a[1]".to_string()))
    );
}

#[test]
fn path_empty_is_rejected() {
    assert!(matches!(parse_path_string(""), Err(SchemaError::InvalidPathExpression(_))));
}

#[test]
fn path_double_dot_is_rejected() {
    assert!(matches!(parse_path_string("a..b"), Err(SchemaError::InvalidPathExpression(_))));
}

#[test]
fn path_trailing_dot_is_rejected() {
    assert!(matches!(parse_path_string("a."), Err(SchemaError::InvalidPathExpression(_))));
}

#[test]
fn path_call_of_other_name_is_rejected() {
    assert!(matches!(parse_path_string("foo()"), Err(SchemaError::InvalidPathExpression(_))));
}

#[test]
fn path_parent_with_argument_is_rejected() {
    assert!(matches!(parse_path_string("parent(x)"), Err(SchemaError::InvalidPathExpression(_))));
}

#[test]
fn path_whitespace_between_tokens_is_accepted() {
    assert_eq!(parse_path_string("a . b"), Ok(vec![ident("a"), ident("b")]));
    assert_eq!(parse_path_string(" a [ \"k\" ] "), Ok(vec![ident("a"), subscript("k")]));
}

#[test]
fn path_bare_parent_is_an_identifier() {
    // only the call form steps out; the bare word is an ordinary name
    assert_eq!(parse_path_string("a.parent"), Ok(vec![ident("a"), ident("parent")]));
}

#[test]
fn path_subscript_chain() {
    assert_eq!(
        parse_path_string("parent()[\"x\"][\"y\"]"),
        Ok(vec![PathSegment::Parent, subscript("x"), subscript("y")])
    );
}

#[test]
fn var_input_token() {
    assert_eq!(parse_var_path_string("input"), Ok(ModifierVariable::Input));
}

#[test]
fn var_path() {
    assert_eq!(
        parse_var_path_string("a.b"),
        Ok(ModifierVariable::Path(vec![ident("a"), ident("b")]))
    );
}

#[test]
fn var_invalid_path_is_rejected() {
    assert_eq!(
        parse_var_path_string("3x"),
        Err(SchemaError::InvalidPathExpression("3x".to_string()))
    );
}
