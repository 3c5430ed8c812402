use indexmap::IndexMap;
use oag::ir::{IrReturnType, IrType};
use oag::sse_detector::{
    build_sse_return, detect_return_type, extract_event_info, find_success_response, is_2xx, ItemSchema, MediaType,
    Response, ResponseOrRef,
};

fn map<T>(entries: Vec<(String, T)>) -> IndexMap<String, T> {
    entries.into_iter().collect()
}

fn json_media(t: IrType) -> MediaType {
    MediaType { schema: Some(t), item_schema: None }
}

fn response(content: Vec<(String, MediaType)>) -> ResponseOrRef {
    ResponseOrRef::Response(Response { description: "ok".into(), content: map(content) })
}

fn desc_of(r: Option<&ResponseOrRef>) -> Option<String> {
    match r {
        Some(ResponseOrRef::Response(resp)) => resp.content.first().map(|(ct, _)| ct.clone()),
        Some(ResponseOrRef::Ref(r)) => Some(r.clone()),
        None => None,
    }
}

#[test]
fn two_hundred_codes() {
    assert!(is_2xx("204"));
    assert!(is_2xx("299"));
    assert!(!is_2xx("2XX"));
    assert!(!is_2xx("20"));
    assert!(!is_2xx("2004"));
    assert!(!is_2xx("304"));
    assert!(!is_2xx("2a4"));
}

#[test]
fn success_response_preference() {
    let rs = map(vec![
        ("204".to_string(), ResponseOrRef::Ref("r204".into())),
        ("default".to_string(), ResponseOrRef::Ref("rdef".into())),
        ("202".to_string(), ResponseOrRef::Ref("r202".into())),
        ("201".to_string(), ResponseOrRef::Ref("r201".into())),
    ]);
    assert_eq!(desc_of(find_success_response(&rs)), Some("r201".into()));
    let rs = map(vec![
        ("default".to_string(), ResponseOrRef::Ref("rdef".into())),
        ("206".to_string(), ResponseOrRef::Ref("r206".into())),
        ("204".to_string(), ResponseOrRef::Ref("r204".into())),
    ]);
    assert_eq!(desc_of(find_success_response(&rs)), Some("r206".into()));
    let rs = map(vec![
        ("default".to_string(), ResponseOrRef::Ref("rdef".into())),
        ("2XX".to_string(), ResponseOrRef::Ref("r2XX".into())),
    ]);
    assert_eq!(desc_of(find_success_response(&rs)), Some("r2XX".into()));
    let rs = map(vec![("404".to_string(), ResponseOrRef::Ref("r404".into()))]);
    assert!(find_success_response(&rs).is_none());
}

#[test]
fn detects_streams_and_json() {
    let sse = MediaType {
        schema: None,
        item_schema: Some(ItemSchema::Schema {
            resolved: IrType::Any,
            one_of: vec![IrType::Ref("Delta".into()), IrType::Ref("Done".into())],
        }),
    };
    let rs = map(vec![(
        "200".to_string(),
        response(vec![
            ("application/json".into(), json_media(IrType::Ref("Reply".into()))),
            ("text/event-stream".into(), sse),
        ]),
    )]);
    match detect_return_type("Chat", &rs) {
        IrReturnType::Sse(s) => {
            assert_eq!(s.event_type_name.as_deref(), Some("ChatStreamEvent"));
            assert_eq!(s.variants.len(), 2);
            assert!(matches!(s.event_type, IrType::Union(ref v) if v.len() == 2));
            assert!(s.also_has_json);
            assert!(matches!(s.json_response, Some(ref j) if matches!(j.response_type, IrType::Ref(ref n) if n == "Reply")));
        }
        _ => panic!("an event stream response is a stream"),
    }
}

#[test]
fn detects_json_and_other_content() {
    let rs = map(vec![("201".to_string(), response(vec![("application/json".into(), MediaType { schema: None, item_schema: None })]))]);
    match detect_return_type("X", &rs) {
        IrReturnType::Standard(r) => {
            assert!(matches!(r.response_type, IrType::Any));
            assert_eq!(r.description.as_deref(), Some("ok"));
        }
        _ => panic!("a JSON response is standard"),
    }
    let rs = map(vec![("200".to_string(), response(vec![("text/plain".into(), json_media(IrType::String))]))]);
    match detect_return_type("X", &rs) {
        IrReturnType::Standard(r) => {
            assert!(matches!(r.response_type, IrType::String));
            assert!(r.description.is_none());
        }
        _ => panic!("another media type is standard"),
    }
    let rs = map(vec![("200".to_string(), response(vec![]))]);
    assert!(matches!(detect_return_type("X", &rs), IrReturnType::Void));
    let rs = map(vec![("200".to_string(), ResponseOrRef::Ref("#/components/responses/Ok".into()))]);
    assert!(matches!(detect_return_type("X", &rs), IrReturnType::Void));
}

#[test]
fn event_info_without_one_of() {
    let (t, vs, n) = extract_event_info("Op", &ItemSchema::Ref(IrType::Ref("Event".into())));
    assert!(matches!(t, IrType::Ref(ref x) if x == "Event"));
    assert!(vs.is_empty() && n.is_none());
    let (t, vs, n) = extract_event_info("Op", &ItemSchema::Schema { resolved: IrType::String, one_of: vec![] });
    assert!(matches!(t, IrType::String));
    assert!(vs.is_empty() && n.is_none());
    let r = build_sse_return("Op", &MediaType { schema: None, item_schema: None }, None);
    assert!(matches!(r.event_type, IrType::Any));
    assert!(!r.also_has_json && r.json_response.is_none());
}
