use oag::context::guards::build_guard_contexts;
use oag::context::hooks::{build_hook_names, HookKind};
use oag::context::operations::ContextKind;
use oag::context::schemas::{build_schema_contexts, collect_sse_event_types, schema_names, SchemaContext};
use oag::context::template::build_context;
use oag::context::test_cases::{
    build_python_test_path, build_ts_test_call_args, guess_mock_type, mock_path_value_ts, mock_value_python, mock_value_ts,
};
use oag::ir::{
    HttpMethod, IrDiscriminator, IrEnumSchema, IrEnumVariant, IrField, IrInfo, IrModule, IrObjectSchema, IrOperation,
    IrParameter, IrParameterLocation, IrRequestBody, IrResponse, IrReturnType, IrSchema, IrSpec, IrSseReturn, IrType,
    IrUnionSchema, NormalizedName,
};
use oag::pack::TypeMapConfig;

fn name(original: &str, pascal: &str, snake: &str, camel: &str) -> NormalizedName {
    NormalizedName {
        original: original.into(),
        pascal_case: pascal.into(),
        snake_case: snake.into(),
        camel_case: camel.into(),
        screaming_snake: snake.to_uppercase(),
    }
}

fn ts_map() -> TypeMapConfig {
    TypeMapConfig {
        string: "string".into(),
        number: "number".into(),
        integer: "number".into(),
        boolean: "boolean".into(),
        null: "null".into(),
        datetime: "string".into(),
        binary: "Blob".into(),
        any: "unknown".into(),
        void: "void".into(),
        string_literal: "\"{value}\"".into(),
        integer_literal: "{value}".into(),
        ref_type: "{name}".into(),
        array: "{inner}[]".into(),
        array_union: Some("({inner})[]".into()),
        map: "Record<string, {inner}>".into(),
        object: "{ {fields} }".into(),
        object_empty: "Record<string, unknown>".into(),
        object_field_required: "{name}: {type}".into(),
        object_field_optional: "{name}?: {type}".into(),
        object_field_separator: "; ".into(),
        union_separator: " | ".into(),
        intersection_separator: " & ".into(),
        optional_suffix: String::new(),
    }
}

fn op(n: NormalizedName, method: HttpMethod, path: &str, return_type: IrReturnType) -> IrOperation {
    IrOperation {
        name: n,
        method,
        path: path.into(),
        summary: None,
        description: None,
        tags: vec![],
        parameters: vec![],
        request_body: None,
        return_type,
        deprecated: false,
    }
}

fn pet_id_param() -> IrParameter {
    IrParameter {
        name: name("petId", "PetId", "pet_id", "petId"),
        original_name: "petId".into(),
        location: IrParameterLocation::Path,
        param_type: IrType::Integer,
        required: true,
        style: None,
        explode: None,
    }
}

fn spec() -> IrSpec {
    let mut get_pet = op(
        name("getPet", "GetPet", "get_pet", "getPet"),
        HttpMethod::Get,
        "/pets/{petId}",
        IrReturnType::Standard(IrResponse { response_type: IrType::Ref("Pet".into()), description: None }),
    );
    get_pet.parameters.push(pet_id_param());
    let mut create_pet = op(
        name("createPet", "CreatePet", "create_pet", "createPet"),
        HttpMethod::Post,
        "/pets",
        IrReturnType::Standard(IrResponse { response_type: IrType::Ref("Pet".into()), description: None }),
    );
    create_pet.request_body =
        Some(IrRequestBody { body_type: IrType::Ref("NewPet".into()), required: true, content_type: "application/json".into() });
    let chat = op(
        name("chat", "Chat", "chat", "chat"),
        HttpMethod::Post,
        "/chat",
        IrReturnType::Sse(IrSseReturn {
            event_type: IrType::Union(vec![IrType::Ref("Delta".into()), IrType::Ref("Done".into())]),
            variants: vec![IrType::Ref("Delta".into()), IrType::Ref("Done".into())],
            event_type_name: Some("ChatStreamEvent".into()),
            also_has_json: true,
            json_response: Some(IrResponse { response_type: IrType::Ref("Reply".into()), description: None }),
        }),
    );
    let delete_pet = op(name("deletePet", "DeletePet", "delete_pet", "deletePet"), HttpMethod::Delete, "/pets/{petId}", IrReturnType::Void);
    // A second operation named like the first: its client method is dropped.
    let get_pet_again = op(
        name("getPet", "GetPet", "get_pet", "getPet"),
        HttpMethod::Get,
        "/v2/pets",
        IrReturnType::Standard(IrResponse { response_type: IrType::Ref("Other".into()), description: None }),
    );
    IrSpec {
        info: IrInfo { title: "Petstore".into(), version: "1.0.0".into(), description: None },
        schemas: vec![
            IrSchema::Object(IrObjectSchema {
                name: name("Pet", "Pet", "pet", "pet"),
                description: None,
                fields: vec![
                    IrField {
                        name: name("petName", "PetName", "pet_name", "petName"),
                        original_name: "petName".into(),
                        field_type: IrType::String,
                        required: true,
                        description: None,
                    },
                    IrField {
                        name: name("tag", "Tag", "tag", "tag"),
                        original_name: "tag".into(),
                        field_type: IrType::String,
                        required: false,
                        description: Some("a tag".into()),
                    },
                ],
                additional_properties: None,
            }),
            IrSchema::Enum(IrEnumSchema {
                name: name("Status", "Status", "status", "status"),
                description: None,
                variants: vec![IrEnumVariant::String("in stock".into()), IrEnumVariant::Integer(-3), IrEnumVariant::Integer(7)],
            }),
            IrSchema::Union(IrUnionSchema {
                name: name("Shape", "Shape", "shape", "shape"),
                description: None,
                variants: vec![IrType::Ref("Circle".into()), IrType::Ref("Square".into())],
                discriminator: Some(IrDiscriminator {
                    property_name: "kind".into(),
                    mapping: vec![
                        ("circle".into(), "Circle".into()),
                        ("1".into(), "Square".into()),
                        ("tri".into(), "Triangle".into()),
                    ],
                }),
            }),
        ],
        operations: vec![get_pet, create_pet, chat, delete_pet, get_pet_again],
        modules: vec![IrModule { name: name("pets", "Pets", "pets", "pets") }],
    }
}

#[test]
fn operations_deduplicate_method_names() {
    let ir = spec();
    let ctx = build_context(&ir, &ts_map(), "camel", "camel");
    let names: Vec<&str> = ctx.operations.iter().map(|o| o.method_name.as_str()).collect();
    assert_eq!(names, vec!["getPet", "createPet", "chatStream", "chat", "deletePet"]);
    assert_eq!(ctx.operations[2].kind, ContextKind::Sse);
    assert_eq!(ctx.operations[2].event_type.as_deref(), Some("ChatStreamEvent"));
    assert_eq!(ctx.operations[3].return_type, "Reply");
    assert_eq!(ctx.operations[3].description.as_deref(), Some(" (JSON response)"));
    assert_eq!(ctx.operations[4].return_type, "void");
    assert!(ctx.has_sse);
    // The dropped duplicate does not contribute imports.
    assert_eq!(ctx.imported_types, vec!["ChatStreamEvent", "NewPet", "Pet", "Reply"]);
    assert_eq!(ctx.model_imports, vec!["ChatStreamEvent", "NewPet", "Other", "Pet", "Reply"]);
}

#[test]
fn params_signature_and_path_params() {
    let ir = spec();
    let ctx = build_context(&ir, &ts_map(), "camel", "camel");
    let get_pet = &ctx.operations[0];
    assert_eq!(get_pet.params_signature, "petId: number, options?: RequestOptions");
    assert!(get_pet.has_path_params);
    assert_eq!(get_pet.path_params[0].original_name, "petId");
    let create = &ctx.operations[1];
    assert_eq!(create.params_signature, "body: NewPet, options?: RequestOptions");
    assert_eq!(create.body_type, "NewPet");
    assert_eq!(create.body_content_type, "application/json");
    assert_eq!(ctx.operations[2].params_signature, "options?: SSEOptions");
}

#[test]
fn hooks_and_hook_names() {
    let ir = spec();
    let ctx = build_context(&ir, &ts_map(), "camel", "camel");
    let hooks: Vec<(&str, HookKind)> = ctx.hooks.iter().map(|h| (h.hook_name.as_str(), h.kind)).collect();
    assert_eq!(
        hooks,
        vec![
            ("useGetPet", HookKind::Query),
            ("useCreatePet", HookKind::Mutation),
            ("useChatStream", HookKind::Sse),
            ("useChat", HookKind::Mutation),
            ("useDeletePet", HookKind::Mutation),
        ]
    );
    assert!(ctx.has_queries && ctx.has_mutations && ctx.has_hook_sse);
    assert_eq!(ctx.hooks[2].event_type_array, "ChatStreamEvent[]");
    assert_eq!(build_hook_names(&ir), vec!["useGetPet", "useCreatePet", "useChatStream", "useChat", "useDeletePet"]);
    assert_eq!(ctx.hook_names, build_hook_names(&ir));
}

#[test]
fn schema_contexts() {
    let ir = spec();
    let schemas = build_schema_contexts(&ir, &ts_map(), "snake");
    match &schemas[0] {
        SchemaContext::Object(o) => {
            assert_eq!(o.name, "Pet");
            assert_eq!(o.fields[0].name, "pet_name");
            assert!(o.fields[0].needs_alias);
            assert_eq!(o.fields[1].field_type_str, "string");
            assert!(!o.fields[1].needs_alias);
            assert!(!o.has_additional_properties);
        }
        _ => panic!("Pet is an object"),
    }
    match &schemas[1] {
        SchemaContext::Enum(e) => {
            assert_eq!(e.variants, vec!["\"in stock\"", "-3", "7"]);
            let py: Vec<(&str, &str)> = e.py_variants.iter().map(|p| (p.name.as_str(), p.value.as_str())).collect();
            assert_eq!(py, vec![("InStock", "\"in stock\""), ("Neg3", "-3"), ("Value7", "7")]);
            assert!(!e.is_integer);
        }
        _ => panic!("Status is an enum"),
    }
    match &schemas[2] {
        SchemaContext::Union(u) => assert_eq!(u.variants, vec!["Circle", "Square"]),
        _ => panic!("Shape is a union"),
    }
    assert_eq!(schemas[0].kind(), "object");
}

#[test]
fn integer_enum_is_integer() {
    let mut ir = spec();
    ir.schemas = vec![IrSchema::Enum(IrEnumSchema {
        name: name("Level", "Level", "level", "level"),
        description: None,
        variants: vec![IrEnumVariant::Integer(0), IrEnumVariant::Integer(1)],
    })];
    match &build_schema_contexts(&ir, &ts_map(), "camel")[0] {
        SchemaContext::Enum(e) => assert!(e.is_integer),
        _ => panic!("Level is an enum"),
    }
    ir.schemas = vec![IrSchema::Enum(IrEnumSchema {
        name: name("Empty", "Empty", "empty", "empty"),
        description: None,
        variants: vec![],
    })];
    match &build_schema_contexts(&ir, &ts_map(), "camel")[0] {
        SchemaContext::Enum(e) => assert!(!e.is_integer),
        _ => panic!("Empty is an enum"),
    }
}

#[test]
fn guards_for_discriminated_unions() {
    let ir = spec();
    let g = build_guard_contexts(&ir);
    assert_eq!(g.imports, vec!["Shape", "Circle", "Square"]);
    assert_eq!(g.guards.len(), 2);
    assert_eq!(g.guards[0].variant_name, "Circle");
    assert_eq!(g.guards[0].property_name, "kind");
    assert!(!g.guards[0].is_integer_discriminator);
    assert_eq!(g.guards[1].discriminator_value, "1");
    assert!(g.guards[1].is_integer_discriminator);
}

#[test]
fn sse_event_types_skip_schema_names() {
    let ir = spec();
    let names = schema_names(&ir);
    assert_eq!(names, vec!["Pet", "Status", "Shape"]);
    let events = collect_sse_event_types(&ir, &names, &ts_map());
    assert_eq!(events.len(), 1);
    assert_eq!(events[0].name, "ChatStreamEvent");
    assert_eq!(events[0].variants, vec!["Delta", "Done"]);
    let shadowed = vec!["ChatStreamEvent".to_string()];
    assert!(collect_sse_event_types(&ir, &shadowed, &ts_map()).is_empty());
}

#[test]
fn test_contexts() {
    let ir = spec();
    let ctx = build_context(&ir, &ts_map(), "camel", "camel");
    let t = &ctx.test_operations[0];
    assert_eq!(t.method_name, "getPet");
    assert_eq!(t.test_call_args, "1");
    assert_eq!(t.expected_url_pattern, "/pets/1");
    assert_eq!(t.mock_response, "{} as Pet");
    let t2 = &ctx.test_operations[1];
    assert_eq!(t2.test_call_args, "{} as NewPet");
    let void_test = ctx.test_operations.iter().find(|t| t.method_name == "deletePet").unwrap();
    assert_eq!(void_test.mock_response, "undefined");
    assert_eq!(ctx.test_type_imports, vec!["NewPet", "Pet", "Reply"]);
    assert_eq!(ctx.py_test_operations.len(), 6);
    assert_eq!(ctx.py_test_operations[0].test_path, "/pets/1");
    assert_eq!(ctx.py_test_operations[1].mock_body, "NewPet.model_construct()");
    assert_eq!(ctx.py_test_operations[0].http_method, "get");
    assert_eq!(ctx.py_model_imports, vec!["NewPet"]);
}

#[test]
fn mock_values() {
    assert_eq!(mock_value_ts(&IrType::StringLiteral("a".into())), "\"a\"");
    assert_eq!(mock_value_ts(&IrType::Union(vec![IrType::Boolean, IrType::String])), "true");
    assert_eq!(mock_value_ts(&IrType::Union(vec![])), "{}");
    assert_eq!(mock_value_python(&IrType::Null), "None");
    assert_eq!(mock_value_python(&IrType::Binary), "b\"test\"");
    assert_eq!(mock_value_python(&IrType::IntegerLiteral(-2)), "-2");
    assert_eq!(mock_path_value_ts(&IrType::Number), "1");
    assert_eq!(mock_path_value_ts(&IrType::String), "test");
    assert!(matches!(guess_mock_type("Pet[]"), IrType::Array(_)));
    assert!(matches!(guess_mock_type("number"), IrType::Number));
    match guess_mock_type("Pet") {
        IrType::Ref(n) => assert_eq!(n, "Pet"),
        _ => panic!("a schema name guesses a reference"),
    }
}

#[test]
fn test_call_args_and_path() {
    let mut o = op(name("find", "Find", "find", "find"), HttpMethod::Head, "/a/{id}/{id}", IrReturnType::Void);
    o.parameters.push(IrParameter {
        name: name("id", "Id", "id", "id"),
        original_name: "id".into(),
        location: IrParameterLocation::Path,
        param_type: IrType::String,
        required: true,
        style: None,
        explode: None,
    });
    o.parameters.push(IrParameter {
        name: name("q", "Q", "q", "q"),
        original_name: "q".into(),
        location: IrParameterLocation::Query,
        param_type: IrType::Integer,
        required: false,
        style: None,
        explode: None,
    });
    o.parameters.push(IrParameter {
        name: name("x", "X", "x", "x"),
        original_name: "X-Key".into(),
        location: IrParameterLocation::Header,
        param_type: IrType::String,
        required: true,
        style: None,
        explode: None,
    });
    assert_eq!(build_ts_test_call_args(&o), "\"test\", \"test\"");
    assert_eq!(build_python_test_path("/a/{id}/{id}", &o), "/a/test/test");
}

#[test]
fn field_casing_original_keeps_spec_names() {
    let mut ir = spec();
    if let IrSchema::Object(o) = &mut ir.schemas[0] {
        o.fields[0].name = name("pet-name", "PetName", "pet_name", "petName");
        o.fields[0].original_name = "pet-name".into();
    }
    let names = |casing: &str| -> Vec<String> {
        match &build_schema_contexts(&ir, &ts_map(), casing)[0] {
            SchemaContext::Object(o) => o.fields.iter().map(|f| f.name.clone()).collect(),
            _ => panic!("Pet is an object"),
        }
    };
    assert_eq!(names("original"), vec!["pet-name", "tag"]);
    assert_eq!(names("camel"), vec!["petName", "tag"]);
    assert_eq!(names("pascal"), vec!["PetName", "Tag"]);
    assert_eq!(names("snake"), vec!["pet_name", "tag"]);
}

fn enum_is_integer(variants: Vec<IrEnumVariant>) -> bool {
    let mut ir = spec();
    ir.schemas = vec![IrSchema::Enum(IrEnumSchema {
        name: name("Status", "Status", "status", "status"),
        description: None,
        variants,
    })];
    match &build_schema_contexts(&ir, &ts_map(), "camel")[0] {
        SchemaContext::Enum(e) => e.is_integer,
        _ => panic!("Status is an enum"),
    }
}

#[test]
fn all_integer_enum_context_is_integer() {
    assert!(enum_is_integer(vec![IrEnumVariant::Integer(1), IrEnumVariant::Integer(2), IrEnumVariant::Integer(3)]));
}

#[test]
fn mixed_enum_context_is_not_integer() {
    assert!(!enum_is_integer(vec![IrEnumVariant::Integer(1), IrEnumVariant::String("active".into())]));
}

#[test]
fn all_string_enum_context_is_not_integer() {
    assert!(!enum_is_integer(vec![IrEnumVariant::String("active".into()), IrEnumVariant::String("inactive".into())]));
}
