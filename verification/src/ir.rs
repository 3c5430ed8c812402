//! The intermediate representation that generators consume.
use vstd::prelude::*;

verus! {

/// A type in the intermediate representation.
#[derive(Debug)]
pub enum IrType {
    String,
    StringLiteral(String),
    IntegerLiteral(i64),
    Number,
    Integer,
    Boolean,
    Null,
    DateTime,
    Binary,
    Any,
    Void,
    /// A named schema.
    Ref(String),
    Array(Box<IrType>),
    /// A string-keyed map with values of the boxed type.
    MapOf(Box<IrType>),
    /// An inline object: (field name, field type, required).
    Object(Vec<(String, IrType, bool)>),
    Union(Vec<IrType>),
    Intersection(Vec<IrType>),
}

/// A name in every casing the generators use.
#[derive(Debug)]
pub struct NormalizedName {
    pub original: String,
    pub pascal_case: String,
    pub snake_case: String,
    pub camel_case: String,
    pub screaming_snake: String,
}

/// Where an operation parameter is sent.
#[derive(Debug, Clone, Copy, PartialEq, Eq, Structural)]
pub enum IrParameterLocation {
    Path,
    Query,
    Header,
    Cookie,
}

/// An operation parameter.
#[derive(Debug)]
pub struct IrParameter {
    pub name: NormalizedName,
    pub original_name: String,
    pub location: IrParameterLocation,
    pub param_type: IrType,
    pub required: bool,
    pub style: Option<String>,
    pub explode: Option<bool>,
}

/// The HTTP method of an operation.
#[derive(Debug, Clone, Copy, PartialEq, Eq, Structural)]
pub enum HttpMethod {
    Get,
    Post,
    Put,
    Delete,
    Patch,
    Head,
    Options,
    Trace,
}

/// The request body of an operation.
#[derive(Debug)]
pub struct IrRequestBody {
    pub body_type: IrType,
    pub required: bool,
    pub content_type: String,
}

/// A (non-streaming) response.
#[derive(Debug)]
pub struct IrResponse {
    pub response_type: IrType,
    pub description: Option<String>,
}

/// A server-sent-events response, possibly alongside a JSON response.
#[derive(Debug)]
pub struct IrSseReturn {
    pub event_type: IrType,
    pub variants: Vec<IrType>,
    pub event_type_name: Option<String>,
    pub also_has_json: bool,
    pub json_response: Option<IrResponse>,
}

/// What an operation returns.
#[derive(Debug)]
pub enum IrReturnType {
    Standard(IrResponse),
    Sse(IrSseReturn),
    Void,
}

/// An API operation.
#[derive(Debug)]
pub struct IrOperation {
    pub name: NormalizedName,
    pub method: HttpMethod,
    pub path: String,
    pub summary: Option<String>,
    pub description: Option<String>,
    pub tags: Vec<String>,
    pub parameters: Vec<IrParameter>,
    pub request_body: Option<IrRequestBody>,
    pub return_type: IrReturnType,
    pub deprecated: bool,
}

/// A field of an object schema.
#[derive(Debug)]
pub struct IrField {
    pub name: NormalizedName,
    pub original_name: String,
    pub field_type: IrType,
    pub required: bool,
    pub description: Option<String>,
}

/// A named object schema.
#[derive(Debug)]
pub struct IrObjectSchema {
    pub name: NormalizedName,
    pub description: Option<String>,
    pub fields: Vec<IrField>,
    pub additional_properties: Option<IrType>,
}

/// One value of an enum schema.
#[derive(Debug)]
pub enum IrEnumVariant {
    String(String),
    Integer(i64),
}

/// A named enum schema.
#[derive(Debug)]
pub struct IrEnumSchema {
    pub name: NormalizedName,
    pub description: Option<String>,
    pub variants: Vec<IrEnumVariant>,
}

/// A named alias of another type.
#[derive(Debug)]
pub struct IrAliasSchema {
    pub name: NormalizedName,
    pub description: Option<String>,
    pub target: IrType,
}

/// The discriminator of a union: property name and (value, schema name) pairs in order.
#[derive(Debug)]
pub struct IrDiscriminator {
    pub property_name: String,
    pub mapping: Vec<(String, String)>,
}

/// A named union schema.
#[derive(Debug)]
pub struct IrUnionSchema {
    pub name: NormalizedName,
    pub description: Option<String>,
    pub variants: Vec<IrType>,
    pub discriminator: Option<IrDiscriminator>,
}

/// A named schema.
#[derive(Debug)]
pub enum IrSchema {
    Object(IrObjectSchema),
    Enum(IrEnumSchema),
    Alias(IrAliasSchema),
    Union(IrUnionSchema),
}

/// The `info` block of a spec.
#[derive(Debug)]
pub struct IrInfo {
    pub title: String,
    pub version: String,
    pub description: Option<String>,
}

/// A module of the API: a named group of operations.
#[derive(Debug)]
pub struct IrModule {
    pub name: NormalizedName,
}

/// A whole API in intermediate form.
#[derive(Debug)]
pub struct IrSpec {
    pub info: IrInfo,
    pub schemas: Vec<IrSchema>,
    pub operations: Vec<IrOperation>,
    pub modules: Vec<IrModule>,
}

/// The name of a schema.
pub open spec fn schema_name(s: IrSchema) -> NormalizedName {
    match s {
        IrSchema::Object(o) => o.name,
        IrSchema::Enum(e) => e.name,
        IrSchema::Alias(a) => a.name,
        IrSchema::Union(u) => u.name,
    }
}

impl IrSchema {
    /// The name of this schema.
    pub fn name(&self) -> (r: &NormalizedName)
        ensures
            *r == schema_name(*self),
    {
        match self {
            IrSchema::Object(o) => &o.name,
            IrSchema::Enum(e) => &e.name,
            IrSchema::Alias(a) => &a.name,
            IrSchema::Union(u) => &u.name,
        }
    }
}

/// The uppercase HTTP method name.
pub open spec fn method_text(m: HttpMethod) -> Seq<char> {
    match m {
        HttpMethod::Get => seq!['G', 'E', 'T'],
        HttpMethod::Post => seq!['P', 'O', 'S', 'T'],
        HttpMethod::Put => seq!['P', 'U', 'T'],
        HttpMethod::Delete => seq!['D', 'E', 'L', 'E', 'T', 'E'],
        HttpMethod::Patch => seq!['P', 'A', 'T', 'C', 'H'],
        HttpMethod::Head => seq!['H', 'E', 'A', 'D'],
        HttpMethod::Options => seq!['O', 'P', 'T', 'I', 'O', 'N', 'S'],
        HttpMethod::Trace => seq!['T', 'R', 'A', 'C', 'E'],
    }
}

impl HttpMethod {
    /// The uppercase method name, as sent on the wire.
    pub fn as_str(&self) -> (r: &'static str)
        ensures
            r@ == method_text(*self),
    {
        match self {
            HttpMethod::Get => {
                proof { reveal_strlit("GET"); }
                "GET"
            },
            HttpMethod::Post => {
                proof { reveal_strlit("POST"); }
                "POST"
            },
            HttpMethod::Put => {
                proof { reveal_strlit("PUT"); }
                "PUT"
            },
            HttpMethod::Delete => {
                proof { reveal_strlit("DELETE"); }
                "DELETE"
            },
            HttpMethod::Patch => {
                proof { reveal_strlit("PATCH"); }
                "PATCH"
            },
            HttpMethod::Head => {
                proof { reveal_strlit("HEAD"); }
                "HEAD"
            },
            HttpMethod::Options => {
                proof { reveal_strlit("OPTIONS"); }
                "OPTIONS"
            },
            HttpMethod::Trace => {
                proof { reveal_strlit("TRACE"); }
                "TRACE"
            },
        }
    }
}

/// `a` and `b` are the same type: equal, with vectors compared element by element.
pub open spec fn same_type(a: IrType, b: IrType) -> bool
    decreases a,
{
    match a {
        IrType::Array(x) => b matches IrType::Array(y) && same_type(*x, *y),
        IrType::MapOf(x) => b matches IrType::MapOf(y) && same_type(*x, *y),
        IrType::Object(fs) => b matches IrType::Object(gs) && same_fields(fs@, gs@),
        IrType::Union(xs) => b matches IrType::Union(ys) && same_types(xs@, ys@),
        IrType::Intersection(xs) => b matches IrType::Intersection(ys) && same_types(xs@, ys@),
        _ => a == b,
    }
}

/// Element by element, the same types.
pub open spec fn same_types(xs: Seq<IrType>, ys: Seq<IrType>) -> bool
    decreases xs,
{
    xs.len() == ys.len() && (xs.len() == 0 || (same_types(xs.drop_last(), ys.drop_last()) && same_type(xs.last(), ys.last())))
}

/// Field by field, the same inline object fields.
pub open spec fn same_fields(xs: Seq<(String, IrType, bool)>, ys: Seq<(String, IrType, bool)>) -> bool
    decreases xs,
{
    xs.len() == ys.len() && (xs.len() == 0 || (same_fields(xs.drop_last(), ys.drop_last())
        && xs.last().0 == ys.last().0 && same_type(xs.last().1, ys.last().1) && xs.last().2 == ys.last().2))
}

impl IrType {
    /// A copy of this type.
    pub fn copy(&self) -> (r: IrType)
        ensures
            same_type(r, *self),
        decreases self, 1nat,
    {
        match self {
            IrType::String => IrType::String,
            IrType::StringLiteral(s) => IrType::StringLiteral(s.clone()),
            IrType::IntegerLiteral(i) => IrType::IntegerLiteral(*i),
            IrType::Number => IrType::Number,
            IrType::Integer => IrType::Integer,
            IrType::Boolean => IrType::Boolean,
            IrType::Null => IrType::Null,
            IrType::DateTime => IrType::DateTime,
            IrType::Binary => IrType::Binary,
            IrType::Any => IrType::Any,
            IrType::Void => IrType::Void,
            IrType::Ref(name) => IrType::Ref(name.clone()),
            IrType::Array(inner) => IrType::Array(Box::new((**inner).copy())),
            IrType::MapOf(inner) => IrType::MapOf(Box::new((**inner).copy())),
            IrType::Object(fields) => IrType::Object(IrType::copy_fields(fields)),
            IrType::Union(vs) => IrType::Union(IrType::copy_all(vs)),
            IrType::Intersection(vs) => IrType::Intersection(IrType::copy_all(vs)),
        }
    }

    fn copy_fields(fields: &Vec<(String, IrType, bool)>) -> (r: Vec<(String, IrType, bool)>)
        ensures
            same_fields(r@, fields@),
        decreases fields, 0nat,
    {
        let mut out: Vec<(String, IrType, bool)> = Vec::new();
        let mut i: usize = 0;
        while i < fields.len()
            invariant
                i <= fields@.len(),
                same_fields(out@, fields@.take(i as int)),
            decreases fields@.len() - i,
        {
            proof {
                assert(decreases_to!(fields => fields@));
                assert(decreases_to!(fields@ => fields@[i as int]));
                assert(decreases_to!(fields@[i as int] => fields@[i as int].1));
            }
            let t = fields[i].1.copy();
            let ghost before = out@;
            out.push((fields[i].0.clone(), t, fields[i].2));
            assert(out@.drop_last() =~= before);
            assert(fields@.take(i + 1).drop_last() =~= fields@.take(i as int));
            i = i + 1;
        }
        assert(fields@.take(fields@.len() as int) =~= fields@);
        out
    }

    /// Copies of the types, in order.
    pub fn copy_all(vs: &Vec<IrType>) -> (r: Vec<IrType>)
        ensures
            same_types(r@, vs@),
        decreases vs, 0nat,
    {
        let mut out: Vec<IrType> = Vec::new();
        let mut i: usize = 0;
        while i < vs.len()
            invariant
                i <= vs@.len(),
                same_types(out@, vs@.take(i as int)),
            decreases vs@.len() - i,
        {
            proof {
                assert(decreases_to!(vs => vs@));
                assert(decreases_to!(vs@ => vs@[i as int]));
            }
            let ghost before = out@;
            out.push(vs[i].copy());
            assert(out@.drop_last() =~= before);
            assert(vs@.take(i + 1).drop_last() =~= vs@.take(i as int));
            i = i + 1;
        }
        assert(vs@.take(vs@.len() as int) =~= vs@);
        out
    }
}

} // verus!
