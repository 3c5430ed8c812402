//! The template context as JSON, with the keys that templates read.
use vstd::prelude::*;

use crate::config::{GeneratorConfig, ScaffoldValue, ToolSetting};
use crate::context::guards::GuardContext;
use crate::context::hooks::{HookContext, HookKind};
use crate::context::operations::{kind_text, OperationContext};
use crate::context::params::{PathParamContext, PyParamContext, QueryParamContext};
use crate::context::schemas::{FieldContext, PyVariantContext, SchemaContext, SseEventTypeContext};
use crate::context::template::TemplateContext;
use crate::context::test_cases::{PyTestContext, TestContext};
use crate::ir::{method_text, IrParameterLocation};
use crate::json::{json_entries_of, json_of, jsons_of, opt_str_json, opt_str_value, push_entry, strs_json, strs_value, Json, JsonValue};
use crate::text::owned;

verus! {

/// Values that templates read as JSON.
pub trait ToJson {
    /// The JSON value templates read.
    spec fn json(&self) -> Json;

    /// Builds the JSON value templates read.
    fn to_json_value(&self) -> (r: JsonValue)
        ensures
            json_of(r) == self.json(),
    ;
}

/// A JSON string.
pub open spec fn s(t: Seq<char>) -> Json {
    Json::Str(t)
}

/// A JSON array of the values of `v`.
pub open spec fn arr_json<T: ToJson>(v: Seq<T>) -> Json {
    Json::Arr(v.map_values(|x: T| x.json()))
}

/// Builds a JSON array of the values of `v`.
pub fn array_value<T: ToJson>(v: &Vec<T>) -> (r: JsonValue)
    ensures
        json_of(r) == arr_json(v@),
{
    let mut items: Vec<JsonValue> = Vec::new();
    let mut i: usize = 0;
    while i < v.len()
        invariant
            i <= v@.len(),
            jsons_of(items@) == v@.take(i as int).map_values(|x: T| x.json()),
        decreases v@.len() - i,
    {
        let ghost before = items@;
        let item = v[i].to_json_value();
        items.push(item);
        proof {
            assert(items@.drop_last() =~= before);
            assert(jsons_of(items@) == jsons_of(before).push(json_of(item)));
            assert(v@.take(i + 1).map_values(|x: T| x.json()) =~= v@.take(i as int).map_values(|x: T| x.json()).push(
                v@[i as int].json(),
            ));
        }
        i = i + 1;
    }
    assert(v@.take(v@.len() as int) =~= v@);
    JsonValue::Arr(items)
}

fn str_value(t: &String) -> (r: JsonValue)
    ensures
        json_of(r) == Json::Str(t@),
{
    JsonValue::Str(t.clone())
}

fn lit_value(t: &str) -> (r: JsonValue)
    ensures
        json_of(r) == Json::Str(t@),
{
    JsonValue::Str(owned(t))
}

impl ToJson for PathParamContext {
    open spec fn json(&self) -> Json {
        Json::Obj(seq![("name"@, s(self.name@)), ("original_name"@, s(self.original_name@))])
    }

    fn to_json_value(&self) -> (r: JsonValue) {
        let mut es: Vec<(String, JsonValue)> = Vec::new();
        push_entry(&mut es, "name", str_value(&self.name));
        push_entry(&mut es, "original_name", str_value(&self.original_name));
        assert(json_entries_of(es@) =~= seq![("name"@, s(self.name@)), ("original_name"@, s(self.original_name@))]);
        JsonValue::Obj(es)
    }
}

impl ToJson for QueryParamContext {
    open spec fn json(&self) -> Json {
        Json::Obj(seq![
            ("name"@, s(self.name@)),
            ("original_name"@, s(self.original_name@)),
            ("style"@, s(self.style@)),
            ("explode"@, Json::Bool(self.explode)),
            ("type_kind"@, s(self.type_kind@)),
        ])
    }

    fn to_json_value(&self) -> (r: JsonValue) {
        let mut es: Vec<(String, JsonValue)> = Vec::new();
        push_entry(&mut es, "name", str_value(&self.name));
        push_entry(&mut es, "original_name", str_value(&self.original_name));
        push_entry(&mut es, "style", str_value(&self.style));
        push_entry(&mut es, "explode", JsonValue::Bool(self.explode));
        push_entry(&mut es, "type_kind", lit_value(self.type_kind));
        assert(json_entries_of(es@) =~= seq![
            ("name"@, s(self.name@)),
            ("original_name"@, s(self.original_name@)),
            ("style"@, s(self.style@)),
            ("explode"@, Json::Bool(self.explode)),
            ("type_kind"@, s(self.type_kind@)),
        ]);
        JsonValue::Obj(es)
    }
}

/// A parameter location as templates spell it.
pub open spec fn location_text(l: IrParameterLocation) -> Seq<char> {
    match l {
        IrParameterLocation::Path => "path"@,
        IrParameterLocation::Query => "query"@,
        IrParameterLocation::Header => "header"@,
        IrParameterLocation::Cookie => "cookie"@,
    }
}

fn location_str(l: IrParameterLocation) -> (r: &'static str)
    ensures
        r@ == location_text(l),
{
    match l {
        IrParameterLocation::Path => "path",
        IrParameterLocation::Query => "query",
        IrParameterLocation::Header => "header",
        IrParameterLocation::Cookie => "cookie",
    }
}

impl ToJson for PyParamContext {
    open spec fn json(&self) -> Json {
        Json::Obj(seq![
            ("name"@, s(self.name@)),
            ("original_name"@, s(self.original_name@)),
            ("type_str"@, s(self.type_str@)),
            ("location"@, s(location_text(self.location))),
            ("required"@, Json::Bool(self.required)),
            ("needs_alias"@, Json::Bool(self.needs_alias)),
        ])
    }

    fn to_json_value(&self) -> (r: JsonValue) {
        let mut es: Vec<(String, JsonValue)> = Vec::new();
        push_entry(&mut es, "name", str_value(&self.name));
        push_entry(&mut es, "original_name", str_value(&self.original_name));
        push_entry(&mut es, "type_str", str_value(&self.type_str));
        push_entry(&mut es, "location", lit_value(location_str(self.location)));
        push_entry(&mut es, "required", JsonValue::Bool(self.required));
        push_entry(&mut es, "needs_alias", JsonValue::Bool(self.needs_alias));
        assert(json_entries_of(es@) =~= seq![
            ("name"@, s(self.name@)),
            ("original_name"@, s(self.original_name@)),
            ("type_str"@, s(self.type_str@)),
            ("location"@, s(location_text(self.location))),
            ("required"@, Json::Bool(self.required)),
            ("needs_alias"@, Json::Bool(self.needs_alias)),
        ]);
        JsonValue::Obj(es)
    }
}

/// The entries of a client method, with `event_type` last for streaming methods.
pub open spec fn operation_entries(o: OperationContext) -> Seq<(Seq<char>, Json)> {
    let base = seq![
        ("kind"@, s(kind_text(o.kind))),
        ("method_name"@, s(o.method_name@)),
        ("name"@, s(o.name@)),
        ("http_method"@, s(method_text(o.http_method))),
        ("path"@, s(o.path@)),
        ("params_signature"@, s(o.params_signature@)),
        ("return_type"@, s(o.return_type@)),
        ("path_params"@, arr_json(o.path_params@)),
        ("query_params"@, arr_json(o.query_params@)),
        ("params"@, arr_json(o.params@)),
        ("header_params_obj"@, s(o.header_params_obj@)),
        ("has_body"@, Json::Bool(o.has_body)),
        ("body_type"@, s(o.body_type@)),
        ("body_param_name"@, s(o.body_param_name@)),
        ("body_content_type"@, s(o.body_content_type@)),
        ("is_multipart"@, Json::Bool(o.is_multipart)),
        ("has_path_params"@, Json::Bool(o.has_path_params)),
        ("has_query_params"@, Json::Bool(o.has_query_params)),
        ("has_header_params"@, Json::Bool(o.has_header_params)),
        ("summary"@, opt_str_json(o.summary)),
        ("description"@, opt_str_json(o.description)),
        ("deprecated"@, Json::Bool(o.deprecated)),
    ];
    match o.event_type {
        Some(e) => base.push(("event_type"@, s(e@))),
        None => base,
    }
}

impl ToJson for OperationContext {
    open spec fn json(&self) -> Json {
        Json::Obj(operation_entries(*self))
    }

    fn to_json_value(&self) -> (r: JsonValue) {
        let mut es: Vec<(String, JsonValue)> = Vec::new();
        push_entry(&mut es, "kind", lit_value(self.kind.as_str()));
        push_entry(&mut es, "method_name", str_value(&self.method_name));
        push_entry(&mut es, "name", str_value(&self.name));
        push_entry(&mut es, "http_method", lit_value(self.http_method.as_str()));
        push_entry(&mut es, "path", str_value(&self.path));
        push_entry(&mut es, "params_signature", str_value(&self.params_signature));
        push_entry(&mut es, "return_type", str_value(&self.return_type));
        push_entry(&mut es, "path_params", array_value(&self.path_params));
        push_entry(&mut es, "query_params", array_value(&self.query_params));
        push_entry(&mut es, "params", array_value(&self.params));
        push_entry(&mut es, "header_params_obj", str_value(&self.header_params_obj));
        push_entry(&mut es, "has_body", JsonValue::Bool(self.has_body));
        push_entry(&mut es, "body_type", str_value(&self.body_type));
        push_entry(&mut es, "body_param_name", str_value(&self.body_param_name));
        push_entry(&mut es, "body_content_type", str_value(&self.body_content_type));
        push_entry(&mut es, "is_multipart", JsonValue::Bool(self.is_multipart));
        push_entry(&mut es, "has_path_params", JsonValue::Bool(self.has_path_params));
        push_entry(&mut es, "has_query_params", JsonValue::Bool(self.has_query_params));
        push_entry(&mut es, "has_header_params", JsonValue::Bool(self.has_header_params));
        push_entry(&mut es, "summary", opt_str_value(&self.summary));
        push_entry(&mut es, "description", opt_str_value(&self.description));
        push_entry(&mut es, "deprecated", JsonValue::Bool(self.deprecated));
        let ghost base = json_entries_of(es@);
        match &self.event_type {
            Some(e) => {
                push_entry(&mut es, "event_type", str_value(e));
            },
            None => {},
        }
        assert(base =~= seq![
            ("kind"@, s(kind_text(self.kind))),
            ("method_name"@, s(self.method_name@)),
            ("name"@, s(self.name@)),
            ("http_method"@, s(method_text(self.http_method))),
            ("path"@, s(self.path@)),
            ("params_signature"@, s(self.params_signature@)),
            ("return_type"@, s(self.return_type@)),
            ("path_params"@, arr_json(self.path_params@)),
            ("query_params"@, arr_json(self.query_params@)),
            ("params"@, arr_json(self.params@)),
            ("header_params_obj"@, s(self.header_params_obj@)),
            ("has_body"@, Json::Bool(self.has_body)),
            ("body_type"@, s(self.body_type@)),
            ("body_param_name"@, s(self.body_param_name@)),
            ("body_content_type"@, s(self.body_content_type@)),
            ("is_multipart"@, Json::Bool(self.is_multipart)),
            ("has_path_params"@, Json::Bool(self.has_path_params)),
            ("has_query_params"@, Json::Bool(self.has_query_params)),
            ("has_header_params"@, Json::Bool(self.has_header_params)),
            ("summary"@, opt_str_json(self.summary)),
            ("description"@, opt_str_json(self.description)),
            ("deprecated"@, Json::Bool(self.deprecated)),
        ]);
        JsonValue::Obj(es)
    }
}

impl ToJson for FieldContext {
    open spec fn json(&self) -> Json {
        Json::Obj(seq![
            ("name"@, s(self.name@)),
            ("original_name"@, s(self.original_name@)),
            ("type_str"@, s(self.type_str@)),
            ("field_type_str"@, s(self.field_type_str@)),
            ("required"@, Json::Bool(self.required)),
            ("description"@, opt_str_json(self.description)),
            ("needs_alias"@, Json::Bool(self.needs_alias)),
        ])
    }

    fn to_json_value(&self) -> (r: JsonValue) {
        let mut es: Vec<(String, JsonValue)> = Vec::new();
        push_entry(&mut es, "name", str_value(&self.name));
        push_entry(&mut es, "original_name", str_value(&self.original_name));
        push_entry(&mut es, "type_str", str_value(&self.type_str));
        push_entry(&mut es, "field_type_str", str_value(&self.field_type_str));
        push_entry(&mut es, "required", JsonValue::Bool(self.required));
        push_entry(&mut es, "description", opt_str_value(&self.description));
        push_entry(&mut es, "needs_alias", JsonValue::Bool(self.needs_alias));
        assert(json_entries_of(es@) =~= seq![
            ("name"@, s(self.name@)),
            ("original_name"@, s(self.original_name@)),
            ("type_str"@, s(self.type_str@)),
            ("field_type_str"@, s(self.field_type_str@)),
            ("required"@, Json::Bool(self.required)),
            ("description"@, opt_str_json(self.description)),
            ("needs_alias"@, Json::Bool(self.needs_alias)),
        ]);
        JsonValue::Obj(es)
    }
}

impl ToJson for PyVariantContext {
    open spec fn json(&self) -> Json {
        Json::Obj(seq![
            ("name"@, s(self.name@)),
            ("value"@, s(self.value@)),
        ])
    }

    fn to_json_value(&self) -> (r: JsonValue) {
        let mut es: Vec<(String, JsonValue)> = Vec::new();
        push_entry(&mut es, "name", str_value(&self.name));
        push_entry(&mut es, "value", str_value(&self.value));
        assert(json_entries_of(es@) =~= seq![
            ("name"@, s(self.name@)),
            ("value"@, s(self.value@)),
        ]);
        JsonValue::Obj(es)
    }
}

impl ToJson for SseEventTypeContext {
    open spec fn json(&self) -> Json {
        Json::Obj(seq![
            ("name"@, s(self.name@)),
            ("variants"@, strs_json(self.variants@)),
        ])
    }

    fn to_json_value(&self) -> (r: JsonValue) {
        let mut es: Vec<(String, JsonValue)> = Vec::new();
        push_entry(&mut es, "name", str_value(&self.name));
        push_entry(&mut es, "variants", strs_value(&self.variants));
        assert(json_entries_of(es@) =~= seq![
            ("name"@, s(self.name@)),
            ("variants"@, strs_json(self.variants@)),
        ]);
        JsonValue::Obj(es)
    }
}

impl ToJson for GuardContext {
    open spec fn json(&self) -> Json {
        Json::Obj(seq![
            ("union_name"@, s(self.union_name@)),
            ("variant_name"@, s(self.variant_name@)),
            ("property_name"@, s(self.property_name@)),
            ("discriminator_value"@, s(self.discriminator_value@)),
            ("is_integer_discriminator"@, Json::Bool(self.is_integer_discriminator)),
        ])
    }

    fn to_json_value(&self) -> (r: JsonValue) {
        let mut es: Vec<(String, JsonValue)> = Vec::new();
        push_entry(&mut es, "union_name", str_value(&self.union_name));
        push_entry(&mut es, "variant_name", str_value(&self.variant_name));
        push_entry(&mut es, "property_name", str_value(&self.property_name));
        push_entry(&mut es, "discriminator_value", str_value(&self.discriminator_value));
        push_entry(&mut es, "is_integer_discriminator", JsonValue::Bool(self.is_integer_discriminator));
        assert(json_entries_of(es@) =~= seq![
            ("union_name"@, s(self.union_name@)),
            ("variant_name"@, s(self.variant_name@)),
            ("property_name"@, s(self.property_name@)),
            ("discriminator_value"@, s(self.discriminator_value@)),
            ("is_integer_discriminator"@, Json::Bool(self.is_integer_discriminator)),
        ]);
        JsonValue::Obj(es)
    }
}

impl ToJson for TestContext {
    open spec fn json(&self) -> Json {
        Json::Obj(seq![
            ("kind"@, s(kind_text(self.kind))),
            ("method_name"@, s(self.method_name@)),
            ("http_method"@, s(method_text(self.http_method))),
            ("return_type"@, s(self.return_type@)),
            ("has_body"@, Json::Bool(self.has_body)),
            ("test_call_args"@, s(self.test_call_args@)),
            ("expected_url_pattern"@, s(self.expected_url_pattern@)),
            ("mock_response"@, s(self.mock_response@)),
        ])
    }

    fn to_json_value(&self) -> (r: JsonValue) {
        let mut es: Vec<(String, JsonValue)> = Vec::new();
        push_entry(&mut es, "kind", lit_value(self.kind.as_str()));
        push_entry(&mut es, "method_name", str_value(&self.method_name));
        push_entry(&mut es, "http_method", lit_value(self.http_method.as_str()));
        push_entry(&mut es, "return_type", str_value(&self.return_type));
        push_entry(&mut es, "has_body", JsonValue::Bool(self.has_body));
        push_entry(&mut es, "test_call_args", str_value(&self.test_call_args));
        push_entry(&mut es, "expected_url_pattern", str_value(&self.expected_url_pattern));
        push_entry(&mut es, "mock_response", str_value(&self.mock_response));
        assert(json_entries_of(es@) =~= seq![
            ("kind"@, s(kind_text(self.kind))),
            ("method_name"@, s(self.method_name@)),
            ("http_method"@, s(method_text(self.http_method))),
            ("return_type"@, s(self.return_type@)),
            ("has_body"@, Json::Bool(self.has_body)),
            ("test_call_args"@, s(self.test_call_args@)),
            ("expected_url_pattern"@, s(self.expected_url_pattern@)),
            ("mock_response"@, s(self.mock_response@)),
        ]);
        JsonValue::Obj(es)
    }
}

impl ToJson for PyTestContext {
    open spec fn json(&self) -> Json {
        Json::Obj(seq![
            ("kind"@, s(kind_text(self.kind))),
            ("name"@, s(self.name@)),
            ("http_method"@, s(self.http_method@)),
            ("path"@, s(self.path@)),
            ("test_path"@, s(self.test_path@)),
            ("has_body"@, Json::Bool(self.has_body)),
            ("mock_body"@, s(self.mock_body@)),
        ])
    }

    fn to_json_value(&self) -> (r: JsonValue) {
        let mut es: Vec<(String, JsonValue)> = Vec::new();
        push_entry(&mut es, "kind", lit_value(self.kind.as_str()));
        push_entry(&mut es, "name", str_value(&self.name));
        push_entry(&mut es, "http_method", str_value(&self.http_method));
        push_entry(&mut es, "path", str_value(&self.path));
        push_entry(&mut es, "test_path", str_value(&self.test_path));
        push_entry(&mut es, "has_body", JsonValue::Bool(self.has_body));
        push_entry(&mut es, "mock_body", str_value(&self.mock_body));
        assert(json_entries_of(es@) =~= seq![
            ("kind"@, s(kind_text(self.kind))),
            ("name"@, s(self.name@)),
            ("http_method"@, s(self.http_method@)),
            ("path"@, s(self.path@)),
            ("test_path"@, s(self.test_path@)),
            ("has_body"@, Json::Bool(self.has_body)),
            ("mock_body"@, s(self.mock_body@)),
        ]);
        JsonValue::Obj(es)
    }
}

/// The entries of a hook: those of its kind.
pub open spec fn hook_entries(h: HookContext) -> Seq<(Seq<char>, Json)> {
    match h.kind {
        HookKind::Query => seq![
            ("kind"@, s("query"@)),
            ("hook_name"@, s(h.hook_name@)),
            ("method_name"@, s(h.method_name@)),
            ("params_signature"@, s(h.params_signature@)),
            ("return_type"@, s(h.return_type@)),
            ("swr_key"@, s(h.swr_key@)),
            ("call_args"@, s(h.call_args@)),
            ("description"@, opt_str_json(h.description)),
        ],
        HookKind::Mutation => seq![
            ("kind"@, s("mutation"@)),
            ("hook_name"@, s(h.hook_name@)),
            ("method_name"@, s(h.method_name@)),
            ("path_params_signature"@, s(h.path_params_signature@)),
            ("return_type"@, s(h.return_type@)),
            ("has_body"@, Json::Bool(h.has_body)),
            ("body_type"@, s(h.body_type@)),
            ("swr_key"@, s(h.swr_key@)),
            ("swr_key_type"@, s(h.swr_key_type@)),
            ("call_args"@, s(h.call_args@)),
            ("description"@, opt_str_json(h.description)),
        ],
        HookKind::Sse => seq![
            ("kind"@, s("sse"@)),
            ("hook_name"@, s(h.hook_name@)),
            ("method_name"@, s(h.method_name@)),
            ("path_params_signature"@, s(h.path_params_signature@)),
            ("event_type"@, s(h.event_type@)),
            ("event_type_array"@, s(h.event_type_array@)),
            ("trigger_params"@, s(h.trigger_params@)),
            ("stream_call_args"@, s(h.stream_call_args@)),
            ("deps"@, s(h.deps@)),
            ("description"@, opt_str_json(h.description)),
        ],
    }
}

fn query_hook_value(h: &HookContext) -> (r: JsonValue)
    ensures
        json_of(r) == Json::Obj(seq![
            ("kind"@, s("query"@)),
            ("hook_name"@, s(h.hook_name@)),
            ("method_name"@, s(h.method_name@)),
            ("params_signature"@, s(h.params_signature@)),
            ("return_type"@, s(h.return_type@)),
            ("swr_key"@, s(h.swr_key@)),
            ("call_args"@, s(h.call_args@)),
            ("description"@, opt_str_json(h.description)),
        ]),
{
    let mut es: Vec<(String, JsonValue)> = Vec::new();
    push_entry(&mut es, "kind", lit_value("query"));
    push_entry(&mut es, "hook_name", str_value(&h.hook_name));
    push_entry(&mut es, "method_name", str_value(&h.method_name));
    push_entry(&mut es, "params_signature", str_value(&h.params_signature));
    push_entry(&mut es, "return_type", str_value(&h.return_type));
    push_entry(&mut es, "swr_key", str_value(&h.swr_key));
    push_entry(&mut es, "call_args", str_value(&h.call_args));
    push_entry(&mut es, "description", opt_str_value(&h.description));
    assert(json_entries_of(es@) =~= seq![
        ("kind"@, s("query"@)),
        ("hook_name"@, s(h.hook_name@)),
        ("method_name"@, s(h.method_name@)),
        ("params_signature"@, s(h.params_signature@)),
        ("return_type"@, s(h.return_type@)),
        ("swr_key"@, s(h.swr_key@)),
        ("call_args"@, s(h.call_args@)),
        ("description"@, opt_str_json(h.description)),
    ]);
    JsonValue::Obj(es)
}

fn mutation_hook_value(h: &HookContext) -> (r: JsonValue)
    ensures
        json_of(r) == Json::Obj(seq![
            ("kind"@, s("mutation"@)),
            ("hook_name"@, s(h.hook_name@)),
            ("method_name"@, s(h.method_name@)),
            ("path_params_signature"@, s(h.path_params_signature@)),
            ("return_type"@, s(h.return_type@)),
            ("has_body"@, Json::Bool(h.has_body)),
            ("body_type"@, s(h.body_type@)),
            ("swr_key"@, s(h.swr_key@)),
            ("swr_key_type"@, s(h.swr_key_type@)),
            ("call_args"@, s(h.call_args@)),
            ("description"@, opt_str_json(h.description)),
        ]),
{
    let mut es: Vec<(String, JsonValue)> = Vec::new();
    push_entry(&mut es, "kind", lit_value("mutation"));
    push_entry(&mut es, "hook_name", str_value(&h.hook_name));
    push_entry(&mut es, "method_name", str_value(&h.method_name));
    push_entry(&mut es, "path_params_signature", str_value(&h.path_params_signature));
    push_entry(&mut es, "return_type", str_value(&h.return_type));
    push_entry(&mut es, "has_body", JsonValue::Bool(h.has_body));
    push_entry(&mut es, "body_type", str_value(&h.body_type));
    push_entry(&mut es, "swr_key", str_value(&h.swr_key));
    push_entry(&mut es, "swr_key_type", str_value(&h.swr_key_type));
    push_entry(&mut es, "call_args", str_value(&h.call_args));
    push_entry(&mut es, "description", opt_str_value(&h.description));
    assert(json_entries_of(es@) =~= seq![
        ("kind"@, s("mutation"@)),
        ("hook_name"@, s(h.hook_name@)),
        ("method_name"@, s(h.method_name@)),
        ("path_params_signature"@, s(h.path_params_signature@)),
        ("return_type"@, s(h.return_type@)),
        ("has_body"@, Json::Bool(h.has_body)),
        ("body_type"@, s(h.body_type@)),
        ("swr_key"@, s(h.swr_key@)),
        ("swr_key_type"@, s(h.swr_key_type@)),
        ("call_args"@, s(h.call_args@)),
        ("description"@, opt_str_json(h.description)),
    ]);
    JsonValue::Obj(es)
}

fn sse_hook_value(h: &HookContext) -> (r: JsonValue)
    ensures
        json_of(r) == Json::Obj(seq![
            ("kind"@, s("sse"@)),
            ("hook_name"@, s(h.hook_name@)),
            ("method_name"@, s(h.method_name@)),
            ("path_params_signature"@, s(h.path_params_signature@)),
            ("event_type"@, s(h.event_type@)),
            ("event_type_array"@, s(h.event_type_array@)),
            ("trigger_params"@, s(h.trigger_params@)),
            ("stream_call_args"@, s(h.stream_call_args@)),
            ("deps"@, s(h.deps@)),
            ("description"@, opt_str_json(h.description)),
        ]),
{
    let mut es: Vec<(String, JsonValue)> = Vec::new();
    push_entry(&mut es, "kind", lit_value("sse"));
    push_entry(&mut es, "hook_name", str_value(&h.hook_name));
    push_entry(&mut es, "method_name", str_value(&h.method_name));
    push_entry(&mut es, "path_params_signature", str_value(&h.path_params_signature));
    push_entry(&mut es, "event_type", str_value(&h.event_type));
    push_entry(&mut es, "event_type_array", str_value(&h.event_type_array));
    push_entry(&mut es, "trigger_params", str_value(&h.trigger_params));
    push_entry(&mut es, "stream_call_args", str_value(&h.stream_call_args));
    push_entry(&mut es, "deps", str_value(&h.deps));
    push_entry(&mut es, "description", opt_str_value(&h.description));
    assert(json_entries_of(es@) =~= seq![
        ("kind"@, s("sse"@)),
        ("hook_name"@, s(h.hook_name@)),
        ("method_name"@, s(h.method_name@)),
        ("path_params_signature"@, s(h.path_params_signature@)),
        ("event_type"@, s(h.event_type@)),
        ("event_type_array"@, s(h.event_type_array@)),
        ("trigger_params"@, s(h.trigger_params@)),
        ("stream_call_args"@, s(h.stream_call_args@)),
        ("deps"@, s(h.deps@)),
        ("description"@, opt_str_json(h.description)),
    ]);
    JsonValue::Obj(es)
}

impl ToJson for HookContext {
    open spec fn json(&self) -> Json {
        Json::Obj(hook_entries(*self))
    }

    fn to_json_value(&self) -> (r: JsonValue) {
        match self.kind {
            HookKind::Query => query_hook_value(self),
            HookKind::Mutation => mutation_hook_value(self),
            HookKind::Sse => sse_hook_value(self),
        }
    }
}

/// The entries of a schema: those of its kind.
pub open spec fn schema_entries(c: SchemaContext) -> Seq<(Seq<char>, Json)> {
    match c {
        SchemaContext::Object(o) => seq![
            ("kind"@, s("object"@)),
            ("name"@, s(o.name@)),
            ("description"@, opt_str_json(o.description)),
            ("fields"@, arr_json(o.fields@)),
            ("additional_properties"@, opt_str_json(o.additional_properties)),
            ("has_additional_properties"@, Json::Bool(o.has_additional_properties)),
        ],
        SchemaContext::Enum(e) => seq![
            ("kind"@, s("enum"@)),
            ("name"@, s(e.name@)),
            ("description"@, opt_str_json(e.description)),
            ("variants"@, strs_json(e.variants@)),
            ("py_variants"@, arr_json(e.py_variants@)),
            ("is_integer"@, Json::Bool(e.is_integer)),
        ],
        SchemaContext::Alias(a) => seq![
            ("kind"@, s("alias"@)),
            ("name"@, s(a.name@)),
            ("description"@, opt_str_json(a.description)),
            ("target"@, s(a.target@)),
        ],
        SchemaContext::Union(u) => seq![
            ("kind"@, s("union"@)),
            ("name"@, s(u.name@)),
            ("description"@, opt_str_json(u.description)),
            ("variants"@, strs_json(u.variants@)),
        ],
    }
}

impl ToJson for SchemaContext {
    open spec fn json(&self) -> Json {
        Json::Obj(schema_entries(*self))
    }

    fn to_json_value(&self) -> (r: JsonValue) {
        match self {
            SchemaContext::Object(o) => {
                let mut es: Vec<(String, JsonValue)> = Vec::new();
                push_entry(&mut es, "kind", lit_value("object"));
                push_entry(&mut es, "name", str_value(&o.name));
                push_entry(&mut es, "description", opt_str_value(&o.description));
                push_entry(&mut es, "fields", array_value(&o.fields));
                push_entry(&mut es, "additional_properties", opt_str_value(&o.additional_properties));
                push_entry(&mut es, "has_additional_properties", JsonValue::Bool(o.has_additional_properties));
                assert(json_entries_of(es@) =~= schema_entries(*self));
                JsonValue::Obj(es)
            },
            SchemaContext::Enum(e) => {
                let mut es: Vec<(String, JsonValue)> = Vec::new();
                push_entry(&mut es, "kind", lit_value("enum"));
                push_entry(&mut es, "name", str_value(&e.name));
                push_entry(&mut es, "description", opt_str_value(&e.description));
                push_entry(&mut es, "variants", strs_value(&e.variants));
                push_entry(&mut es, "py_variants", array_value(&e.py_variants));
                push_entry(&mut es, "is_integer", JsonValue::Bool(e.is_integer));
                assert(json_entries_of(es@) =~= schema_entries(*self));
                JsonValue::Obj(es)
            },
            SchemaContext::Alias(a) => {
                let mut es: Vec<(String, JsonValue)> = Vec::new();
                push_entry(&mut es, "kind", lit_value("alias"));
                push_entry(&mut es, "name", str_value(&a.name));
                push_entry(&mut es, "description", opt_str_value(&a.description));
                push_entry(&mut es, "target", str_value(&a.target));
                assert(json_entries_of(es@) =~= schema_entries(*self));
                JsonValue::Obj(es)
            },
            SchemaContext::Union(u) => {
                let mut es: Vec<(String, JsonValue)> = Vec::new();
                push_entry(&mut es, "kind", lit_value("union"));
                push_entry(&mut es, "name", str_value(&u.name));
                push_entry(&mut es, "description", opt_str_value(&u.description));
                push_entry(&mut es, "variants", strs_value(&u.variants));
                assert(json_entries_of(es@) =~= schema_entries(*self));
                JsonValue::Obj(es)
            },
        }
    }
}

/// The entries of the template context.
pub open spec fn template_entries(c: TemplateContext) -> Seq<(Seq<char>, Json)> {
    seq![
        ("title"@, s(c.title@)),
        ("schemas"@, arr_json(c.schemas@)),
        ("sse_event_types"@, arr_json(c.sse_event_types@)),
        ("imports"@, strs_json(c.imports@)),
        ("guards"@, arr_json(c.guards@)),
        ("operations"@, arr_json(c.operations@)),
        ("hooks"@, arr_json(c.hooks@)),
        ("imported_types"@, strs_json(c.imported_types@)),
        ("hook_imported_types"@, strs_json(c.hook_imported_types@)),
        ("model_imports"@, strs_json(c.model_imports@)),
        ("has_sse"@, Json::Bool(c.has_sse)),
        ("has_queries"@, Json::Bool(c.has_queries)),
        ("has_mutations"@, Json::Bool(c.has_mutations)),
        ("has_hook_sse"@, Json::Bool(c.has_hook_sse)),
        ("test_operations"@, arr_json(c.test_operations@)),
        ("test_type_imports"@, strs_json(c.test_type_imports@)),
        ("py_test_operations"@, arr_json(c.py_test_operations@)),
        ("py_model_imports"@, strs_json(c.py_model_imports@)),
        ("hook_names"@, strs_json(c.hook_names@)),
    ]
}

fn template_entries_value(c: &TemplateContext) -> (r: Vec<(String, JsonValue)>)
    ensures
        json_entries_of(r@) == template_entries(*c),
{
    let mut es: Vec<(String, JsonValue)> = Vec::new();
    push_entry(&mut es, "title", str_value(&c.title));
    push_entry(&mut es, "schemas", array_value(&c.schemas));
    push_entry(&mut es, "sse_event_types", array_value(&c.sse_event_types));
    push_entry(&mut es, "imports", strs_value(&c.imports));
    push_entry(&mut es, "guards", array_value(&c.guards));
    push_entry(&mut es, "operations", array_value(&c.operations));
    push_entry(&mut es, "hooks", array_value(&c.hooks));
    push_entry(&mut es, "imported_types", strs_value(&c.imported_types));
    push_entry(&mut es, "hook_imported_types", strs_value(&c.hook_imported_types));
    push_entry(&mut es, "model_imports", strs_value(&c.model_imports));
    push_entry(&mut es, "has_sse", JsonValue::Bool(c.has_sse));
    push_entry(&mut es, "has_queries", JsonValue::Bool(c.has_queries));
    push_entry(&mut es, "has_mutations", JsonValue::Bool(c.has_mutations));
    push_entry(&mut es, "has_hook_sse", JsonValue::Bool(c.has_hook_sse));
    push_entry(&mut es, "test_operations", array_value(&c.test_operations));
    push_entry(&mut es, "test_type_imports", strs_value(&c.test_type_imports));
    push_entry(&mut es, "py_test_operations", array_value(&c.py_test_operations));
    push_entry(&mut es, "py_model_imports", strs_value(&c.py_model_imports));
    push_entry(&mut es, "hook_names", strs_value(&c.hook_names));
    assert(json_entries_of(es@) =~= template_entries(*c));
    es
}

/// A tool setting as JSON: the tool's name, or `false` when disabled.
pub open spec fn tool_json(t: ToolSetting) -> Json {
    match t {
        ToolSetting::Named(n) => Json::Str(n@),
        ToolSetting::Disabled => Json::Bool(false),
    }
}

fn tool_value(t: &ToolSetting) -> (r: JsonValue)
    ensures
        json_of(r) == tool_json(*t),
{
    match t {
        ToolSetting::Named(n) => JsonValue::Str(n.clone()),
        ToolSetting::Disabled => JsonValue::Bool(false),
    }
}

/// Scaffold options as JSON: JSON text from the config file as it is, or the
/// object a legacy config implies.
pub open spec fn scaffold_json(v: ScaffoldValue) -> Json {
    match v {
        ScaffoldValue::Json(t) => Json::Raw(t@),
        ScaffoldValue::Legacy(l) => Json::Obj(seq![
            ("package_name"@, opt_str_json(l.package_name)),
            ("repository"@, opt_str_json(l.repository)),
            ("index"@, Json::Bool(l.index)),
            ("formatter"@, tool_json(l.formatter)),
            ("bundler"@, tool_json(l.bundler)),
            ("test_runner"@, s(l.test_runner@)),
        ]),
    }
}

fn scaffold_value(v: &ScaffoldValue) -> (r: JsonValue)
    ensures
        json_of(r) == scaffold_json(*v),
{
    match v {
        ScaffoldValue::Json(t) => JsonValue::Raw(t.clone()),
        ScaffoldValue::Legacy(l) => {
            let mut es: Vec<(String, JsonValue)> = Vec::new();
            push_entry(&mut es, "package_name", opt_str_value(&l.package_name));
            push_entry(&mut es, "repository", opt_str_value(&l.repository));
            push_entry(&mut es, "index", JsonValue::Bool(l.index));
            push_entry(&mut es, "formatter", tool_value(&l.formatter));
            push_entry(&mut es, "bundler", tool_value(&l.bundler));
            push_entry(&mut es, "test_runner", str_value(&l.test_runner));
            assert(json_entries_of(es@) =~= seq![
                ("package_name"@, opt_str_json(l.package_name)),
                ("repository"@, opt_str_json(l.repository)),
                ("index"@, Json::Bool(l.index)),
                ("formatter"@, tool_json(l.formatter)),
                ("bundler"@, tool_json(l.bundler)),
                ("test_runner"@, s(l.test_runner@)),
            ]);
            JsonValue::Obj(es)
        },
    }
}

/// What templates render from: the template context, then the generator's
/// options: its scaffold options (left out without any), source directory,
/// whether JSDoc is off, and base URL.
pub open spec fn render_context_json(c: TemplateContext, config: GeneratorConfig) -> Json {
    let with_scaffold = match config.scaffold {
        Some(v) => template_entries(c).push(("scaffold"@, scaffold_json(v))),
        None => template_entries(c),
    };
    Json::Obj(with_scaffold + seq![
        ("source_dir"@, s(config.source_dir@)),
        ("no_jsdoc"@, Json::Bool(match config.no_jsdoc {
        Some(b) => b,
        None => false,
        })),
        ("base_url"@, opt_str_json(config.base_url)),
    ])
}

/// Builds what templates render from.
pub fn render_context_value(c: &TemplateContext, config: &GeneratorConfig) -> (r: JsonValue)
    ensures
        json_of(r) == render_context_json(*c, *config),
{
    let mut es = template_entries_value(c);
    let ghost base = json_entries_of(es@);
    match &config.scaffold {
        Some(v) => {
            push_entry(&mut es, "scaffold", scaffold_value(v));
        },
        None => {},
    }
    let ghost mid = json_entries_of(es@);
    push_entry(&mut es, "source_dir", str_value(&config.source_dir));
    push_entry(&mut es, "no_jsdoc", JsonValue::Bool(crate::engine::no_jsdoc(config)));
    push_entry(&mut es, "base_url", opt_str_value(&config.base_url));
    assert(json_entries_of(es@) =~= mid + seq![
        ("source_dir"@, s(config.source_dir@)),
        ("no_jsdoc"@, Json::Bool(match config.no_jsdoc {
        Some(b) => b,
        None => false,
        })),
        ("base_url"@, opt_str_json(config.base_url)),
    ]);
    JsonValue::Obj(es)
}

} // verus!
