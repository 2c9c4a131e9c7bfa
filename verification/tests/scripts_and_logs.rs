use mxlite::logger::{enabled, level_label, max_level, LogLevel};
use mxlite::script::fetch::{
    body_failed, body_received, fetch_plan, header_entries, json_parsed, method_from_upper,
    received, request_method, response_table, send_failed, try_into_request, BodyStep, FetchError,
    FetchMethod, FetchOutput, ResponseHead,
};
use mxlite::script::value_type::{strings_of, ValueType};

fn s(v: &str) -> ValueType {
    ValueType::String(v.to_string())
}

fn table(entries: Vec<(&str, ValueType)>) -> ValueType {
    ValueType::Table(entries.into_iter().map(|(k, v)| (k.to_string(), v)).collect())
}

fn lookup<'a>(t: &'a ValueType, key: &str) -> Option<&'a ValueType> {
    t.table_entry(key)
}

#[test]
fn table_lookups() {
    let t = table(vec![("a", s("x")), ("n", ValueType::Integer(3)), ("a", s("y"))]);
    assert_eq!(t.table_string("a").as_deref(), Some("x"));
    assert_eq!(t.table_string("n"), None);
    assert!(matches!(lookup(&t, "n"), Some(ValueType::Integer(3))));
    assert!(lookup(&t, "zz").is_none());
    assert!(s("a").table_entry("a").is_none());
    let inner = table(vec![("k", s("v")), ("skip", ValueType::Boolean(true)), ("k2", s("w"))]);
    let outer = table(vec![("headers", inner)]);
    let entries = outer.table_table("headers").unwrap();
    assert_eq!(strings_of(entries), vec![("k".to_string(), "v".to_string()), ("k2".to_string(), "w".to_string())]);
    assert!(outer.table_table("missing").is_none());
}

#[test]
fn request_table_needs_a_url() {
    let e = try_into_request(&table(vec![("method", s("GET"))])).unwrap_err();
    assert!(matches!(e, FetchError::UrlRequired));
    assert_eq!(e.message(), "url is required");
    let e = try_into_request(&table(vec![("url", ValueType::Integer(1))])).unwrap_err();
    assert!(matches!(e, FetchError::UrlRequired));
    assert!(matches!(try_into_request(&ValueType::Empty), Err(FetchError::UrlRequired)));
}

#[test]
fn request_table_fields() {
    let req = try_into_request(&table(vec![
        ("url", s("http://h/x")),
        ("method", s("post")),
        ("headers", table(vec![("Accept", s("*/*")), ("X-N", ValueType::Integer(1))])),
        ("body", s("{}")),
        ("output", s("json")),
    ]))
    .unwrap();
    assert_eq!(req.url, "http://h/x");
    assert_eq!(req.method.as_deref(), Some("post"));
    assert_eq!(req.headers, Some(vec![("Accept".to_string(), "*/*".to_string())]));
    assert_eq!(req.body.as_deref(), Some("{}"));
    assert_eq!(req.output, Some(FetchOutput::Json));
    let req = try_into_request(&table(vec![("url", s("u")), ("output", s("xml")), ("headers", s("h"))])).unwrap();
    assert_eq!(req.output, None);
    assert_eq!(req.headers, None);
    assert_eq!(req.method, None);
}

#[test]
fn methods() {
    assert_eq!(request_method(&None).unwrap(), FetchMethod::Get);
    assert_eq!(request_method(&Some("delete".to_string())).unwrap(), FetchMethod::Delete);
    assert_eq!(request_method(&Some("Patch".to_string())).unwrap(), FetchMethod::Patch);
    assert_eq!(request_method(&Some("PUT".to_string())).unwrap(), FetchMethod::Put);
    assert_eq!(request_method(&Some("gEt".to_string())).unwrap(), FetchMethod::Get);
    assert!(request_method(&Some("get ".to_string())).is_err());
    let e = request_method(&Some("fetch".to_string())).unwrap_err();
    assert!(matches!(&e, FetchError::UnsupportedMethod(m) if m == "fetch"));
    assert_eq!(e.message(), "Unsupported HTTP method: fetch");
    assert_eq!(method_from_upper("POST", "post").unwrap(), FetchMethod::Post);
    assert!(method_from_upper("post", "post").is_err());
}

#[test]
fn plans() {
    let plan = fetch_plan(&table(vec![("url", s("http://h"))])).unwrap();
    assert_eq!(plan.method, FetchMethod::Get);
    assert_eq!(plan.output, FetchOutput::Text);
    assert_eq!(plan.url, "http://h");
    assert!(plan.headers.is_none() && plan.body.is_none());
    let e = fetch_plan(&table(vec![("url", s("http://h")), ("method", s("HEAD"))])).unwrap_err();
    assert!(matches!(e, FetchError::UnsupportedMethod(m) if m == "HEAD"));
    let plan = fetch_plan(&table(vec![("url", s("http://h")), ("method", s("post"))])).unwrap();
    assert_eq!(plan.method, FetchMethod::Post);
    assert!(matches!(
        fetch_plan(&table(vec![("url", s("http://h")), ("method", s("trace"))])),
        Err(FetchError::UnsupportedMethod(m)) if m == "trace"
    ));
    let e = fetch_plan(&table(vec![("method", s("HEAD"))])).unwrap_err();
    assert!(matches!(e, FetchError::UrlRequired));
}

#[test]
fn header_table_keeps_last_value() {
    let pairs = vec![
        ("a".to_string(), "1".to_string()),
        ("b".to_string(), "2".to_string()),
        ("a".to_string(), "3".to_string()),
    ];
    let e = header_entries(&pairs);
    assert_eq!(e.len(), 2);
    assert_eq!(e[0].0, "a");
    assert!(matches!(&e[0].1, ValueType::String(v) if v == "3"));
    assert_eq!(e[1].0, "b");
    assert!(matches!(&e[1].1, ValueType::String(v) if v == "2"));
    assert!(header_entries(&vec![]).is_empty());
}

fn names(t: &ValueType) -> Vec<String> {
    match t {
        ValueType::Table(e) => e.iter().map(|(k, _)| k.clone()).collect(),
        _ => panic!("not a table"),
    }
}

#[test]
fn unsent_answer() {
    let t = response_table(send_failed(FetchOutput::Text, "connection refused".into()));
    assert_eq!(names(&t), vec!["ok", "status", "error"]);
    assert!(matches!(lookup(&t, "ok"), Some(ValueType::Boolean(false))));
    assert!(matches!(lookup(&t, "status"), Some(ValueType::Integer(0))));
    assert_eq!(t.table_string("error").as_deref(), Some("connection refused"));
}

fn head(status: u16) -> ResponseHead {
    ResponseHead {
        status,
        status_text: Some("OK".to_string()),
        headers: vec![("content-type".into(), "text/plain".into())],
    }
}

#[test]
fn text_answer() {
    let r = received(head(200), FetchOutput::Text);
    assert!(r.ok);
    let done = match body_received(r, "hello".into()) {
        BodyStep::Done(r) => r,
        BodyStep::ParseJson(..) => panic!("text was asked for"),
    };
    let t = response_table(done);
    assert_eq!(names(&t), vec!["ok", "status", "statusText", "headers", "text"]);
    assert!(matches!(lookup(&t, "status"), Some(ValueType::Integer(200))));
    assert_eq!(t.table_string("text").as_deref(), Some("hello"));
    let h = t.table_table("headers").unwrap();
    assert_eq!(strings_of(h), vec![("content-type".to_string(), "text/plain".to_string())]);
}

#[test]
fn json_answers() {
    let r = received(head(404), FetchOutput::Json);
    assert!(!r.ok);
    let (r, text) = match body_received(r, "[1]".into()) {
        BodyStep::ParseJson(r, text) => (r, text),
        BodyStep::Done(_) => panic!("json was asked for"),
    };
    assert_eq!(text, "[1]");
    let ok = response_table(json_parsed(r, Ok(ValueType::Array(vec![ValueType::Integer(1)]))));
    assert_eq!(names(&ok), vec!["ok", "status", "statusText", "headers", "json"]);
    assert!(matches!(lookup(&ok, "json"), Some(ValueType::Array(a)) if a.len() == 1));

    let r = received(head(200), FetchOutput::Json);
    let bad = response_table(json_parsed(r, Err("expected value".into())));
    assert!(matches!(lookup(&bad, "ok"), Some(ValueType::Boolean(false))));
    assert_eq!(bad.table_string("error").as_deref(), Some("expected value"));
}

#[test]
fn unreadable_body() {
    let r = received(ResponseHead { status: 299, status_text: None, headers: vec![] }, FetchOutput::Text);
    assert!(r.ok);
    let t = response_table(body_failed(r, "reset".into()));
    assert_eq!(names(&t), vec!["ok", "status", "headers", "error"]);
    assert!(matches!(lookup(&t, "ok"), Some(ValueType::Boolean(false))));
    assert!(!received(head(300), FetchOutput::Text).ok);
    assert!(!received(head(199), FetchOutput::Text).ok);
}

#[test]
fn log_levels() {
    assert_eq!(max_level(true, true), LogLevel::Trace);
    assert_eq!(max_level(true, false), LogLevel::Debug);
    assert_eq!(max_level(false, true), LogLevel::Debug);
    assert_eq!(max_level(false, false), LogLevel::Info);
    assert!(enabled(LogLevel::Error, LogLevel::Info));
    assert!(enabled(LogLevel::Info, LogLevel::Info));
    assert!(!enabled(LogLevel::Debug, LogLevel::Info));
    assert!(enabled(LogLevel::Trace, LogLevel::Trace));
    assert_eq!(level_label(LogLevel::Warn), "WARN ");
    assert_eq!(level_label(LogLevel::Error), "ERROR");
    assert_eq!(level_label(LogLevel::Info).len(), 5);
}
