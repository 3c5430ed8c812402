use oag::ir::IrType;
use oag::pack::TypeMapConfig;
use oag::type_map::{map_field_type, map_type};

fn ts_type_map() -> TypeMapConfig {
    TypeMapConfig {
        string: "string".into(),
        number: "number".into(),
        integer: "number".into(),
        boolean: "boolean".into(),
        null: "null".into(),
        datetime: "string".into(),
        binary: "Blob".into(),
        any: "unknown".into(),
        void: "void".into(),
        string_literal: "\"{value}\"".into(),
        integer_literal: "{value}".into(),
        ref_type: "{name}".into(),
        array: "{inner}[]".into(),
        array_union: Some("({inner})[]".into()),
        map: "Record<string, {inner}>".into(),
        object: "{ {fields} }".into(),
        object_empty: "Record<string, unknown>".into(),
        object_field_required: "{name}: {type}".into(),
        object_field_optional: "{name}?: {type}".into(),
        object_field_separator: "; ".into(),
        union_separator: " | ".into(),
        intersection_separator: " & ".into(),
        optional_suffix: String::new(),
    }
}

fn py_type_map() -> TypeMapConfig {
    TypeMapConfig {
        string: "str".into(),
        number: "float".into(),
        integer: "int".into(),
        boolean: "bool".into(),
        null: "None".into(),
        datetime: "str".into(),
        binary: "bytes".into(),
        any: "Any".into(),
        void: "None".into(),
        string_literal: "Literal[\"{value}\"]".into(),
        integer_literal: "Literal[{value}]".into(),
        ref_type: "{name}".into(),
        array: "list[{inner}]".into(),
        array_union: None,
        map: "dict[str, {inner}]".into(),
        object: "dict[str, Any]".into(),
        object_empty: "dict[str, Any]".into(),
        object_field_required: "{name}: {type}".into(),
        object_field_optional: "{name}: {type}".into(),
        object_field_separator: ", ".into(),
        union_separator: " | ".into(),
        intersection_separator: ", ".into(),
        optional_suffix: " | None = None".into(),
    }
}

#[test]
fn ts_primitives() {
    let tm = ts_type_map();
    assert_eq!(map_type(&IrType::String, &tm), "string");
    assert_eq!(map_type(&IrType::Number, &tm), "number");
    assert_eq!(map_type(&IrType::Integer, &tm), "number");
    assert_eq!(map_type(&IrType::Boolean, &tm), "boolean");
    assert_eq!(map_type(&IrType::Null, &tm), "null");
    assert_eq!(map_type(&IrType::Any, &tm), "unknown");
    assert_eq!(map_type(&IrType::Void, &tm), "void");
}

#[test]
fn ts_array() {
    let tm = ts_type_map();
    assert_eq!(map_type(&IrType::Array(Box::new(IrType::String)), &tm), "string[]");
    assert_eq!(
        map_type(&IrType::Array(Box::new(IrType::Union(vec![IrType::String, IrType::Number]))), &tm),
        "(string | number)[]"
    );
}

#[test]
fn ts_map() {
    let tm = ts_type_map();
    assert_eq!(map_type(&IrType::MapOf(Box::new(IrType::String)), &tm), "Record<string, string>");
}

#[test]
fn ts_ref() {
    let tm = ts_type_map();
    assert_eq!(map_type(&IrType::Ref("Pet".to_string()), &tm), "Pet");
}

#[test]
fn ts_union() {
    let tm = ts_type_map();
    assert_eq!(map_type(&IrType::Union(vec![IrType::String, IrType::Number]), &tm), "string | number");
}

#[test]
fn ts_object() {
    let tm = ts_type_map();
    assert_eq!(
        map_type(
            &IrType::Object(vec![("name".into(), IrType::String, true), ("age".into(), IrType::Number, false)]),
            &tm
        ),
        "{ name: string; age?: number }"
    );
    assert_eq!(map_type(&IrType::Object(vec![]), &tm), "Record<string, unknown>");
}

#[test]
fn py_primitives() {
    let tm = py_type_map();
    assert_eq!(map_type(&IrType::String, &tm), "str");
    assert_eq!(map_type(&IrType::Number, &tm), "float");
    assert_eq!(map_type(&IrType::Integer, &tm), "int");
    assert_eq!(map_type(&IrType::Boolean, &tm), "bool");
    assert_eq!(map_type(&IrType::Null, &tm), "None");
    assert_eq!(map_type(&IrType::Any, &tm), "Any");
    assert_eq!(map_type(&IrType::Void, &tm), "None");
}

#[test]
fn py_array() {
    let tm = py_type_map();
    assert_eq!(map_type(&IrType::Array(Box::new(IrType::String)), &tm), "list[str]");
}

#[test]
fn py_map() {
    let tm = py_type_map();
    assert_eq!(map_type(&IrType::MapOf(Box::new(IrType::String)), &tm), "dict[str, str]");
}

#[test]
fn py_ref() {
    let tm = py_type_map();
    assert_eq!(map_type(&IrType::Ref("Pet".to_string()), &tm), "Pet");
}

#[test]
fn py_optional_field() {
    let tm = py_type_map();
    assert_eq!(map_field_type(&IrType::String, true, &tm), "str");
    assert_eq!(map_field_type(&IrType::String, false, &tm), "str | None = None");
}

#[test]
fn ts_string_literal() {
    let tm = ts_type_map();
    assert_eq!(map_type(&IrType::StringLiteral("hello".into()), &tm), "\"hello\"");
}

#[test]
fn py_string_literal() {
    let tm = py_type_map();
    assert_eq!(map_type(&IrType::StringLiteral("hello".into()), &tm), "Literal[\"hello\"]");
}

#[test]
fn ts_integer_literal() {
    let tm = ts_type_map();
    assert_eq!(map_type(&IrType::IntegerLiteral(42), &tm), "42");
}

#[test]
fn py_integer_literal() {
    let tm = py_type_map();
    assert_eq!(map_type(&IrType::IntegerLiteral(42), &tm), "Literal[42]");
}

#[test]
fn ts_intersection() {
    let tm = ts_type_map();
    assert_eq!(
        map_type(&IrType::Intersection(vec![IrType::Ref("Base".into()), IrType::Ref("Extra".into())]), &tm),
        "Base & Extra"
    );
}

#[test]
fn negative_integer_literal_and_nested_array() {
    let tm = ts_type_map();
    assert_eq!(map_type(&IrType::IntegerLiteral(-7), &tm), "-7");
    assert_eq!(map_type(&IrType::IntegerLiteral(i64::MIN), &tm), "-9223372036854775808");
    assert_eq!(
        map_type(&IrType::Array(Box::new(IrType::Array(Box::new(IrType::Ref("Pet".into()))))), &tm),
        "Pet[][]"
    );
    let py = py_type_map();
    assert_eq!(map_type(&IrType::Array(Box::new(IrType::Union(vec![IrType::String, IrType::Null]))), &py), "list[str | None]");
}
