//! Working out what an operation returns from its declared responses, and
//! recognising server-sent event streams.
use vstd::prelude::*;

use crate::ir::{same_type, same_types, IrResponse, IrReturnType, IrSseReturn, IrType};
use crate::text::{is_digit, owned};

verus! {

/// The item schema of an event stream, with its schemas already resolved to IR types.
#[derive(Debug)]
pub enum ItemSchema {
    /// A `$ref`, resolved.
    Ref(IrType),
    /// An inline schema: its resolved type, and its `oneOf` alternatives resolved.
    Schema { resolved: IrType, one_of: Vec<IrType> },
}

/// A media type of a response, its schemas resolved to IR types.
#[derive(Debug)]
pub struct MediaType {
    pub schema: Option<IrType>,
    /// The schema of each item of a stream (OpenAPI 3.2 `itemSchema`).
    pub item_schema: Option<ItemSchema>,
}

/// A declared response: description, and media types by content type in declared order.
#[derive(Debug)]
pub struct Response {
    pub description: String,
    pub content: indexmap::IndexMap<String, MediaType>,
}

/// A response, or a reference to one.
#[derive(Debug)]
pub enum ResponseOrRef {
    Response(Response),
    Ref(String),
}

/// The responses a map holds, in declared order: (status code, response).
pub uninterp spec fn response_entries(m: indexmap::IndexMap<String, ResponseOrRef>) -> Seq<(Seq<char>, ResponseOrRef)>;

/// The media types a map holds, in declared order: (content type, media type).
pub uninterp spec fn media_entries(m: indexmap::IndexMap<String, MediaType>) -> Seq<(Seq<char>, MediaType)>;

/// The value of the first entry with key `key`.
pub open spec fn lookup<T>(s: Seq<(Seq<char>, T)>, key: Seq<char>) -> Option<T>
    decreases s.len(),
{
    if s.len() == 0 {
        None
    } else if s[0].0 == key {
        Some(s[0].1)
    } else {
        lookup(s.skip(1), key)
    }
}

/// The spec-level value of an optional reference.
pub open spec fn opt_ref<T>(o: Option<&T>) -> Option<T> {
    match o {
        Some(t) => Some(*t),
        None => None,
    }
}

/// `IndexMap::get` on responses: the response of a status code. A map holds
/// each key once, so that is the first (and only) entry with the key.
#[verifier::external_body]
fn response_get<'a>(m: &'a indexmap::IndexMap<String, ResponseOrRef>, code: &str) -> (r: Option<&'a ResponseOrRef>)
    ensures
        opt_ref(r) == lookup(response_entries(*m), code@),
{
    m.get(code)
}

/// `IndexMap::len` on responses: how many responses the map holds.
#[verifier::external_body]
fn response_count(m: &indexmap::IndexMap<String, ResponseOrRef>) -> (r: usize)
    ensures
        r == response_entries(*m).len(),
{
    m.len()
}

/// `IndexMap::get_index` on responses: the entry at a position in declared order.
#[verifier::external_body]
fn response_at<'a>(m: &'a indexmap::IndexMap<String, ResponseOrRef>, i: usize) -> (r: Option<(&'a String, &'a ResponseOrRef)>)
    ensures
        match r {
            Some((k, v)) => i < response_entries(*m).len() && k@ == response_entries(*m)[i as int].0
                && *v == response_entries(*m)[i as int].1,
            None => i >= response_entries(*m).len(),
        },
{
    m.get_index(i)
}

/// `IndexMap::get` on media types: the media type of a content type. A map
/// holds each key once, so that is the first (and only) entry with the key.
#[verifier::external_body]
fn media_get<'a>(m: &'a indexmap::IndexMap<String, MediaType>, content_type: &str) -> (r: Option<&'a MediaType>)
    ensures
        opt_ref(r) == lookup(media_entries(*m), content_type@),
{
    m.get(content_type)
}

/// `IndexMap::is_empty` on media types: whether the map holds none.
#[verifier::external_body]
fn media_is_empty(m: &indexmap::IndexMap<String, MediaType>) -> (r: bool)
    ensures
        r == (media_entries(*m).len() == 0),
{
    m.is_empty()
}

/// `IndexMap::first` on media types: the first entry in declared order.
#[verifier::external_body]
fn media_first<'a>(m: &'a indexmap::IndexMap<String, MediaType>) -> (r: Option<(&'a String, &'a MediaType)>)
    ensures
        match r {
            Some((k, v)) => media_entries(*m).len() > 0 && k@ == media_entries(*m)[0].0 && *v == media_entries(*m)[0].1,
            None => media_entries(*m).len() == 0,
        },
{
    m.first()
}

/// An explicit 2xx status code: three characters, `2` then two ASCII digits.
pub open spec fn is_2xx_code(code: Seq<char>) -> bool {
    code.len() == 3 && code[0] == '2' && is_digit(code[1]) && is_digit(code[2])
}

/// Whether a response key is an explicit 2xx status code (e.g. `"204"`).
pub fn is_2xx(code: &str) -> (r: bool)
    ensures
        r == is_2xx_code(code@),
{
    if code.unicode_len() != 3 {
        return false;
    }
    let a = code.get_char(0);
    let b = code.get_char(1);
    let c = code.get_char(2);
    a == '2' && '0' <= b && b <= '9' && '0' <= c && c <= '9'
}

/// The value of the first entry whose key is an explicit 2xx code.
pub open spec fn first_2xx<T>(s: Seq<(Seq<char>, T)>) -> Option<T>
    decreases s.len(),
{
    if s.len() == 0 {
        None
    } else if is_2xx_code(s[0].0) {
        Some(s[0].1)
    } else {
        first_2xx(s.skip(1))
    }
}

fn find_first_2xx(responses: &indexmap::IndexMap<String, ResponseOrRef>) -> (r: Option<&ResponseOrRef>)
    ensures
        opt_ref(r) == first_2xx(response_entries(*responses)),
{
    let ghost s = response_entries(*responses);
    let n = response_count(responses);
    let mut i: usize = 0;
    assert(s.skip(0) =~= s);
    while i < n
        invariant
            s == response_entries(*responses),
            n == s.len(),
            i <= s.len(),
            first_2xx(s) == first_2xx(s.skip(i as int)),
        decreases s.len() - i,
    {
        assert(s.skip(i as int)[0] == s[i as int]);
        match response_at(responses, i) {
            Some((code, resp)) => {
                if is_2xx(code.as_str()) {
                    return Some(resp);
                }
            },
            None => {},
        }
        assert(s.skip(i as int).skip(1) =~= s.skip(i + 1));
        i = i + 1;
    }
    None
}

/// The response an operation's return type comes from: `200`, `201`, `202`
/// or `203` in that order of preference, else the first other explicit 2xx
/// code in declared order, else `2XX`, `2xx`, then `default`.
pub open spec fn success_response(s: Seq<(Seq<char>, ResponseOrRef)>) -> Option<ResponseOrRef> {
    if lookup(s, "200"@) is Some {
        lookup(s, "200"@)
    } else if lookup(s, "201"@) is Some {
        lookup(s, "201"@)
    } else if lookup(s, "202"@) is Some {
        lookup(s, "202"@)
    } else if lookup(s, "203"@) is Some {
        lookup(s, "203"@)
    } else if first_2xx(s) is Some {
        first_2xx(s)
    } else if lookup(s, "2XX"@) is Some {
        lookup(s, "2XX"@)
    } else if lookup(s, "2xx"@) is Some {
        lookup(s, "2xx"@)
    } else {
        lookup(s, "default"@)
    }
}

/// Picks the response that an operation's return type comes from.
pub fn find_success_response(responses: &indexmap::IndexMap<String, ResponseOrRef>) -> (r: Option<&ResponseOrRef>)
    ensures
        opt_ref(r) == success_response(response_entries(*responses)),
{
    let ghost s = response_entries(*responses);
    let preferred = ["200", "201", "202", "203"];
    let mut i: usize = 0;
    while i < 4
        invariant
            s == response_entries(*responses),
            preferred@ == seq!["200", "201", "202", "203"],
            i <= 4,
            forall|k: int| 0 <= k < i ==> lookup(s, (#[trigger] preferred@[k])@) is None,
        decreases 4 - i,
    {
        match response_get(responses, preferred[i]) {
            Some(resp) => {
                return Some(resp);
            },
            None => {},
        }
        i = i + 1;
    }
    assert(lookup(s, preferred@[0]@) is None);
    assert(lookup(s, preferred@[1]@) is None);
    assert(lookup(s, preferred@[2]@) is None);
    assert(lookup(s, preferred@[3]@) is None);
    match find_first_2xx(responses) {
        Some(resp) => {
            return Some(resp);
        },
        None => {},
    }
    match response_get(responses, "2XX") {
        Some(resp) => {
            return Some(resp);
        },
        None => {},
    }
    match response_get(responses, "2xx") {
        Some(resp) => {
            return Some(resp);
        },
        None => {},
    }
    response_get(responses, "default")
}

/// The resolved schema of a media type, `Any` without one.
pub open spec fn schema_or_any(schema: Option<IrType>) -> IrType {
    match schema {
        Some(t) => t,
        None => IrType::Any,
    }
}

fn copy_schema_or_any(schema: &Option<IrType>) -> (r: IrType)
    ensures
        same_type(r, schema_or_any(*schema)),
{
    match schema {
        Some(t) => t.copy(),
        None => IrType::Any,
    }
}

/// The event type, variants and event type name of a stream with the given
/// item schema: for an inline schema with `oneOf` alternatives, their union,
/// the alternatives, and `<Operation>StreamEvent`; else the resolved type alone.
pub open spec fn event_info_is(r: (IrType, Vec<IrType>, Option<String>), operation_pascal: Seq<char>, item: ItemSchema) -> bool {
    match item {
        ItemSchema::Schema { resolved, one_of } => if one_of@.len() > 0 {
            &&& r.0 matches IrType::Union(vs) && same_types(vs@, one_of@)
            &&& same_types(r.1@, one_of@)
            &&& r.2 matches Some(n) && n@ == operation_pascal + "StreamEvent"@
        } else {
            same_type(r.0, resolved) && r.1@.len() == 0 && r.2 is None
        },
        ItemSchema::Ref(t) => same_type(r.0, t) && r.1@.len() == 0 && r.2 is None,
    }
}

/// Works out the event type of a stream from its item schema.
pub fn extract_event_info(operation_pascal: &str, item_schema: &ItemSchema) -> (r: (IrType, Vec<IrType>, Option<String>))
    ensures
        event_info_is(r, operation_pascal@, *item_schema),
{
    match item_schema {
        ItemSchema::Ref(t) => (t.copy(), Vec::new(), None),
        ItemSchema::Schema { resolved, one_of } => {
            if one_of.len() > 0 {
                let variants = IrType::copy_all(one_of);
                let event_type = IrType::Union(IrType::copy_all(one_of));
                let event_name = owned(operation_pascal).concat("StreamEvent");
                (event_type, variants, Some(event_name))
            } else {
                (resolved.copy(), Vec::new(), None)
            }
        },
    }
}

/// `r` is the stream return of an operation whose stream media type is `sse`
/// and whose JSON media type, if any, is `json`.
pub open spec fn sse_return_is(r: IrSseReturn, operation_pascal: Seq<char>, sse: MediaType, json: Option<MediaType>) -> bool {
    &&& match sse.item_schema {
        Some(item) => event_info_is((r.event_type, r.variants, r.event_type_name), operation_pascal, item),
        None => same_type(r.event_type, schema_or_any(sse.schema)) && r.variants@.len() == 0 && r.event_type_name is None,
    }
    &&& match json {
        Some(j) => r.json_response matches Some(resp) && same_type(resp.response_type, schema_or_any(j.schema))
            && resp.description is None,
        None => r.json_response is None,
    }
    &&& r.also_has_json == (json is Some)
}

/// Builds the return of a streaming operation, with its JSON alternative if any.
pub fn build_sse_return(operation_pascal: &str, sse_mt: &MediaType, json_mt: Option<&MediaType>) -> (r: IrSseReturn)
    ensures
        sse_return_is(r, operation_pascal@, *sse_mt, opt_ref(json_mt)),
{
    let (event_type, variants, event_type_name) = match &sse_mt.item_schema {
        Some(item_schema) => extract_event_info(operation_pascal, item_schema),
        None => (copy_schema_or_any(&sse_mt.schema), Vec::new(), None),
    };
    let json_response = match json_mt {
        Some(mt) => Some(IrResponse { response_type: copy_schema_or_any(&mt.schema), description: None }),
        None => None,
    };
    IrSseReturn {
        event_type,
        variants,
        event_type_name,
        also_has_json: json_response.is_some(),
        json_response,
    }
}

/// `r` is what an operation with these responses returns: nothing without a
/// success response, for a reference or for one without content; a stream
/// when it offers `text/event-stream`; else the `application/json` body with
/// the response's description; else the body of its first media type.
pub open spec fn return_type_is(r: IrReturnType, operation_pascal: Seq<char>, responses: Seq<(Seq<char>, ResponseOrRef)>) -> bool {
    match success_response(responses) {
        Some(ResponseOrRef::Response(resp)) => {
            let content = media_entries(resp.content);
            if content.len() == 0 {
                r is Void
            } else {
                match (lookup(content, "text/event-stream"@), lookup(content, "application/json"@)) {
                    (Some(sse), json) => r matches IrReturnType::Sse(s) && sse_return_is(s, operation_pascal, sse, json),
                    (None, Some(json)) => r matches IrReturnType::Standard(s) && same_type(s.response_type, schema_or_any(json.schema))
                        && s.description == Some(resp.description),
                    (None, None) => r matches IrReturnType::Standard(s) && same_type(s.response_type, schema_or_any(content[0].1.schema))
                        && s.description is None,
                }
            }
        },
        _ => r is Void,
    }
}

/// Detects whether an operation's responses include an event stream, and
/// works out what the operation returns.
pub fn detect_return_type(operation_pascal: &str, responses: &indexmap::IndexMap<String, ResponseOrRef>) -> (r: IrReturnType)
    ensures
        return_type_is(r, operation_pascal@, response_entries(*responses)),
{
    let response = match find_success_response(responses) {
        Some(ResponseOrRef::Response(resp)) => resp,
        _ => {
            return IrReturnType::Void;
        },
    };
    if media_is_empty(&response.content) {
        return IrReturnType::Void;
    }
    let sse = media_get(&response.content, "text/event-stream");
    let json = media_get(&response.content, "application/json");
    match (sse, json) {
        (Some(sse_mt), json_mt) => IrReturnType::Sse(build_sse_return(operation_pascal, sse_mt, json_mt)),
        (None, Some(json_mt)) => IrReturnType::Standard(IrResponse {
            response_type: copy_schema_or_any(&json_mt.schema),
            description: Some(response.description.clone()),
        }),
        (None, None) => match media_first(&response.content) {
            Some((_, mt)) => IrReturnType::Standard(IrResponse {
                response_type: copy_schema_or_any(&mt.schema),
                description: None,
            }),
            None => IrReturnType::Void,
        },
    }
}

} // verus!
