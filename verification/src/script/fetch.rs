//! The `fetch` call that scripts use for HTTP requests: how a script's request
//! table is read, which method it asks for, and the table that answers it.
//! Sending the request and reading the reply are done by the caller.
use vstd::prelude::*;

use crate::script::value_type::{
    entry_names, entry_value, find_entry, names_once, string_entries, string_field, strings_of, table_value, ValueType,
};
use crate::text::{pair_views, push_str, same_text};

verus! {

/// How the reply body is handed back: as text, or parsed as JSON.
#[derive(Debug, Clone, Copy, PartialEq, Eq, Structural)]
pub enum FetchOutput {
    Text,
    Json,
}

/// The HTTP methods a script may ask for.
#[derive(Debug, Clone, Copy, PartialEq, Eq, Structural)]
pub enum FetchMethod {
    Get,
    Post,
    Put,
    Delete,
    Patch,
}

/// A script's request, as read from its request table.
#[derive(Debug)]
pub struct FetchRequest {
    pub url: String,
    pub method: Option<String>,
    pub headers: Option<Vec<(String, String)>>,
    pub body: Option<String>,
    pub output: Option<FetchOutput>,
}

/// Why a script's request is refused before anything is sent.
#[derive(Debug, Clone)]
pub enum FetchError {
    /// The request table has no string `url`.
    UrlRequired,
    /// The method, as the script wrote it, is none of those supported.
    UnsupportedMethod(String),
}

/// The message of a refusal, as the script sees it.
pub open spec fn error_message(e: FetchError) -> Seq<char> {
    match e {
        FetchError::UrlRequired => "url is required"@,
        FetchError::UnsupportedMethod(v) => "Unsupported HTTP method: "@ + v@,
    }
}

impl FetchError {
    /// The message of this refusal.
    pub fn message(&self) -> (m: String)
        ensures
            m@ == error_message(*self),
    {
        match self {
            FetchError::UrlRequired => "url is required".to_owned(),
            FetchError::UnsupportedMethod(v) => {
                let mut m = "Unsupported HTTP method: ".to_owned();
                push_str(&mut m, v.as_str());
                m
            },
        }
    }
}

/// The output a name asks for: `text` or `json`, and no other.
pub open spec fn output_named(name: Seq<char>) -> Option<FetchOutput> {
    if name == "text"@ {
        Some(FetchOutput::Text)
    } else if name == "json"@ {
        Some(FetchOutput::Json)
    } else {
        None
    }
}

/// The output a request table asks for.
pub open spec fn output_field(v: ValueType) -> Option<FetchOutput> {
    match string_field(v, "output"@) {
        Some(s) => output_named(s@),
        None => None,
    }
}

/// The headers of a request table: the string entries of its `headers`
/// table, when it has one.
pub open spec fn headers_field(v: ValueType) -> Option<Seq<(Seq<char>, Seq<char>)>> {
    match table_value(v, "headers"@) {
        Some(ValueType::Table(t)) => Some(string_entries(t@)),
        _ => None,
    }
}

/// What an optional list of string pairs holds.
pub open spec fn headers_view(h: Option<Vec<(String, String)>>) -> Option<Seq<(Seq<char>, Seq<char>)>> {
    match h {
        Some(list) => Some(pair_views(list@)),
        None => None,
    }
}

/// `r` is what the request table `v` asks for.
pub open spec fn describes_request(r: FetchRequest, v: ValueType) -> bool {
    &&& string_field(v, "url"@) == Some(r.url)
    &&& r.method == string_field(v, "method"@)
    &&& headers_view(r.headers) == headers_field(v)
    &&& r.body == string_field(v, "body"@)
    &&& r.output == output_field(v)
}

/// Reads a script's request table. It is refused exactly when it has no
/// string `url`; the other fields are read when they have the right kind.
pub fn try_into_request(v: &ValueType) -> (r: Result<FetchRequest, FetchError>)
    ensures
        match r {
            Ok(req) => describes_request(req, *v),
            Err(e) => e is UrlRequired && string_field(*v, "url"@) is None,
        },
{
    let url = match v.table_string("url") {
        Some(u) => u,
        None => {
            return Err(FetchError::UrlRequired);
        },
    };
    let method = v.table_string("method");
    let headers = match v.table_table("headers") {
        Some(t) => Some(strings_of(t)),
        None => None,
    };
    let body = v.table_string("body");
    let output = match v.table_string("output") {
        Some(s) => {
            if same_text(s.as_str(), "text") {
                Some(FetchOutput::Text)
            } else if same_text(s.as_str(), "json") {
                Some(FetchOutput::Json)
            } else {
                None
            }
        },
        None => None,
    };
    Ok(FetchRequest { url, method, headers, body, output })
}

/// A request table asking for `text` output gets the body as text, one
/// asking for `json` gets it parsed, and one asking for anything else, or
/// for nothing, gets no output choice (and so the default, text).
pub proof fn law_output_choice(r: FetchRequest, v: ValueType)
    requires
        describes_request(r, v),
    ensures
        match string_field(v, "output"@) {
            Some(s) => {
                &&& s@ == "text"@ ==> r.output == Some(FetchOutput::Text)
                &&& s@ == "json"@ ==> r.output == Some(FetchOutput::Json)
                &&& s@ != "text"@ && s@ != "json"@ ==> r.output is None
            },
            None => r.output is None,
        },
{
    lemma_answer_names();
}

/// The five method names, and only they, select a method: `GET`, `POST`,
/// `PUT`, `DELETE` and `PATCH`, each its own.
pub proof fn law_method_names(name: Seq<char>)
    ensures
        method_named("GET"@) == Some(FetchMethod::Get),
        method_named("POST"@) == Some(FetchMethod::Post),
        method_named("PUT"@) == Some(FetchMethod::Put),
        method_named("DELETE"@) == Some(FetchMethod::Delete),
        method_named("PATCH"@) == Some(FetchMethod::Patch),
        method_named(name) is Some ==> (name == "GET"@ || name == "POST"@ || name == "PUT"@
            || name == "DELETE"@ || name == "PATCH"@),
{
    reveal_strlit("GET");
    reveal_strlit("POST");
    reveal_strlit("PUT");
    reveal_strlit("DELETE");
    reveal_strlit("PATCH");
    assert("GET"@[0] != "PUT"@[0]);
    assert("POST"@.len() != "GET"@.len());
    assert("DELETE"@.len() != "PATCH"@.len());
}

/// What `str::to_uppercase` gives for a string.
pub uninterp spec fn uppercase(s: Seq<char>) -> Seq<char>;

/// The upper case of an ASCII character: `a` to `z` become `A` to `Z`,
/// the others stay as they are.
pub open spec fn ascii_upper(c: char) -> char {
    if 'a' <= c <= 'z' {
        ((c as u32) - 32) as char
    } else {
        c
    }
}

/// Whether every character of `s` is ASCII.
pub open spec fn ascii_text(s: Seq<char>) -> bool {
    forall|i: int| 0 <= i < s.len() ==> (#[trigger] s[i] as u32) < 128
}

/// Calls `str::to_uppercase`, which maps each character to its Unicode
/// upper case. The contract names the result; of ASCII text it states the
/// mapping, which leaves every character but the letters `a` to `z` alone.
/// What it does to other characters (some become several) is left to the name.
#[verifier::external_body]
fn upper_case(s: &str) -> (u: String)
    ensures
        u@ == uppercase(s@),
        ascii_text(s@) ==> u@ == s@.map_values(|c: char| ascii_upper(c)),
{
    s.to_uppercase()
}

/// The method that an upper-case name stands for.
pub open spec fn method_named(upper: Seq<char>) -> Option<FetchMethod> {
    if upper == "GET"@ {
        Some(FetchMethod::Get)
    } else if upper == "POST"@ {
        Some(FetchMethod::Post)
    } else if upper == "PUT"@ {
        Some(FetchMethod::Put)
    } else if upper == "DELETE"@ {
        Some(FetchMethod::Delete)
    } else if upper == "PATCH"@ {
        Some(FetchMethod::Patch)
    } else {
        None
    }
}

/// The method for `given`, whose upper case is `upper`; a refusal that
/// quotes `given` when it is none of those supported.
pub fn method_from_upper(upper: &str, given: &str) -> (m: Result<FetchMethod, FetchError>)
    ensures
        match method_named(upper@) {
            Some(x) => m == Ok::<FetchMethod, FetchError>(x),
            None => m matches Err(FetchError::UnsupportedMethod(s)) && s@ == given@,
        },
{
    if same_text(upper, "GET") {
        Ok(FetchMethod::Get)
    } else if same_text(upper, "POST") {
        Ok(FetchMethod::Post)
    } else if same_text(upper, "PUT") {
        Ok(FetchMethod::Put)
    } else if same_text(upper, "DELETE") {
        Ok(FetchMethod::Delete)
    } else if same_text(upper, "PATCH") {
        Ok(FetchMethod::Patch)
    } else {
        Err(FetchError::UnsupportedMethod(given.to_owned()))
    }
}

/// The method a request asks for: `GET` when it names none, else the one its
/// name stands for in upper case.
pub open spec fn request_method_spec(method: Option<String>) -> Option<FetchMethod> {
    match method {
        None => Some(FetchMethod::Get),
        Some(v) => method_named(uppercase(v@)),
    }
}

/// The method a request asks for, or the refusal that quotes its name.
pub fn request_method(method: &Option<String>) -> (m: Result<FetchMethod, FetchError>)
    ensures
        match request_method_spec(*method) {
            Some(x) => m == Ok::<FetchMethod, FetchError>(x),
            None => {
                &&& m matches Err(FetchError::UnsupportedMethod(s))
                &&& *method matches Some(v)
                &&& m->Err_0->UnsupportedMethod_0@ == v@
            },
        },
        match *method {
            Some(v) => ascii_text(v@) ==> match method_named(
                v@.map_values(|c: char| ascii_upper(c)),
            ) {
                Some(x) => m == Ok::<FetchMethod, FetchError>(x),
                None => m is Err,
            },
            None => true,
        },
{
    match method {
        None => Ok(FetchMethod::Get),
        Some(v) => {
            let upper = upper_case(v.as_str());
            method_from_upper(upper.as_str(), v.as_str())
        },
    }
}

/// A request ready to send.
#[derive(Debug)]
pub struct FetchPlan {
    pub method: FetchMethod,
    pub url: String,
    pub headers: Option<Vec<(String, String)>>,
    pub body: Option<String>,
    pub output: FetchOutput,
}

/// `p` is the request that the table `v` asks to send: the output is text
/// unless the table asks for JSON.
pub open spec fn plan_for(p: FetchPlan, v: ValueType) -> bool {
    &&& string_field(v, "url"@) == Some(p.url)
    &&& request_method_spec(string_field(v, "method"@)) == Some(p.method)
    &&& headers_view(p.headers) == headers_field(v)
    &&& p.body == string_field(v, "body"@)
    &&& p.output == match output_field(v) {
        Some(o) => o,
        None => FetchOutput::Text,
    }
}

/// The request a script's table asks to send. It is refused when the table
/// has no string `url`, and otherwise when its method is not supported.
pub fn fetch_plan(v: &ValueType) -> (p: Result<FetchPlan, FetchError>)
    ensures
        match p {
            Ok(plan) => plan_for(plan, *v),
            Err(FetchError::UrlRequired) => string_field(*v, "url"@) is None,
            Err(FetchError::UnsupportedMethod(m)) => {
                &&& string_field(*v, "url"@) is Some
                &&& request_method_spec(string_field(*v, "method"@)) is None
                &&& string_field(*v, "method"@) matches Some(given)
                &&& given@ == m@
            },
        },
        string_field(*v, "url"@) is Some ==> match string_field(*v, "method"@) {
            Some(given) => ascii_text(given@) ==> match method_named(
                given@.map_values(|c: char| ascii_upper(c)),
            ) {
                Some(x) => p matches Ok(plan) && plan.method == x,
                None => p matches Err(FetchError::UnsupportedMethod(_)),
            },
            None => p matches Ok(plan) && plan.method == FetchMethod::Get,
        },
{
    let req = match try_into_request(v) {
        Ok(req) => req,
        Err(e) => {
            return Err(e);
        },
    };
    let method = match request_method(&req.method) {
        Ok(m) => m,
        Err(e) => {
            return Err(e);
        },
    };
    let output = match req.output {
        Some(o) => o,
        None => FetchOutput::Text,
    };
    Ok(FetchPlan { method, url: req.url, headers: req.headers, body: req.body, output })
}

/// The value of the last pair whose key is `key`.
pub open spec fn last_value(pairs: Seq<(Seq<char>, Seq<char>)>, key: Seq<char>) -> Option<Seq<char>>
    decreases pairs.len(),
{
    if pairs.len() == 0 {
        None
    } else if pairs.last().0 == key {
        Some(pairs.last().1)
    } else {
        last_value(pairs.drop_last(), key)
    }
}

/// The value found for `key` is the one given at the last position where
/// `key` occurs, and there is one exactly when `key` occurs.
pub proof fn law_last_value_is_latest(pairs: Seq<(Seq<char>, Seq<char>)>, key: Seq<char>)
    ensures
        match last_value(pairs, key) {
            Some(v) => exists|i: int|
                0 <= i < pairs.len() && #[trigger] pairs[i] == (key, v) && forall|j: int|
                    i < j < pairs.len() ==> (#[trigger] pairs[j]).0 != key,
            None => forall|i: int| 0 <= i < pairs.len() ==> (#[trigger] pairs[i]).0 != key,
        },
    decreases pairs.len(),
{
    if pairs.len() > 0 {
        let init = pairs.drop_last();
        law_last_value_is_latest(init, key);
        if pairs.last().0 != key {
            match last_value(init, key) {
                Some(v) => {
                    let i = choose|i: int|
                        0 <= i < init.len() && #[trigger] init[i] == (key, v) && forall|j: int|
                            i < j < init.len() ==> (#[trigger] init[j]).0 != key;
                    assert(pairs[i] == init[i]);
                    assert forall|j: int| i < j < pairs.len() implies (#[trigger] pairs[j]).0 != key by {
                        if j < init.len() {
                            assert(pairs[j] == init[j]);
                        }
                    }
                },
                None => {
                    assert forall|i: int| 0 <= i < pairs.len() implies (#[trigger] pairs[i]).0 != key by {
                        if i < init.len() {
                            assert(pairs[i] == init[i]);
                        }
                    }
                },
            }
        } else {
            assert(pairs[pairs.len() - 1] == (key, pairs.last().1));
        }
    }
}

/// `entries` holds each key of `pairs` once, as a string entry whose value is
/// the last one given for it, and nothing else.
pub open spec fn last_wins(entries: Seq<(String, ValueType)>, pairs: Seq<(Seq<char>, Seq<char>)>) -> bool {
    &&& names_once(entries)
    &&& forall|i: int|
        0 <= i < entries.len() ==> (#[trigger] entries[i].1 matches ValueType::String(s) && last_value(
            pairs,
            entries[i].0@,
        ) == Some(s@))
    &&& forall|k: Seq<char>|
        #[trigger] last_value(pairs, k) is Some ==> exists|i: int|
            0 <= i < entries.len() && #[trigger] entries[i].0@ == k
}

/// The table of header pairs: each name once, with the last value given for it.
pub fn header_entries(pairs: &Vec<(String, String)>) -> (entries: Vec<(String, ValueType)>)
    ensures
        last_wins(entries@, pair_views(pairs@)),
{
    let mut entries: Vec<(String, ValueType)> = Vec::new();
    let mut i: usize = 0;
    while i < pairs.len()
        invariant
            0 <= i <= pairs.len(),
            last_wins(entries@, pair_views(pairs@).take(i as int)),
        decreases pairs.len() - i,
    {
        let ghost before = pair_views(pairs@).take(i as int);
        let ghost after = pair_views(pairs@).take(i + 1);
        assert(after.drop_last() =~= before);
        let name = &pairs[i].0;
        let value = &pairs[i].1;
        assert(after.last() == (name@, value@));
        let ghost old_entries = entries@;
        match find_entry(&entries, name.as_str()) {
            Some(j) => {
                entries.set(j, (name.clone(), ValueType::String(value.clone())));
                assert forall|k: Seq<char>| #[trigger] last_value(after, k) is Some implies exists|
                    x: int,
                | 0 <= x < entries.len() && #[trigger] entries@[x].0@ == k by {
                    if k == name@ {
                        assert(entries@[j as int].0@ == k);
                    } else {
                        assert(last_value(before, k) is Some);
                        let x = choose|x: int| 0 <= x < old_entries.len() && #[trigger] old_entries[x].0@ == k;
                        assert(entries@[x].0@ == k);
                    }
                }
            },
            None => {
                entries.push((name.clone(), ValueType::String(value.clone())));
                assert forall|k: Seq<char>| #[trigger] last_value(after, k) is Some implies exists|
                    x: int,
                | 0 <= x < entries.len() && #[trigger] entries@[x].0@ == k by {
                    if k == name@ {
                        assert(entries@[old_entries.len() as int].0@ == k);
                    } else {
                        assert(last_value(before, k) is Some);
                        let x = choose|x: int| 0 <= x < old_entries.len() && #[trigger] old_entries[x].0@ == k;
                        assert(entries@[x].0@ == k);
                    }
                }
            },
        }
        i = i + 1;
    }
    assert(pair_views(pairs@).take(pairs.len() as int) =~= pair_views(pairs@));
    entries
}

/// The answer to a script's request, before it becomes the table the script reads.
#[derive(Debug)]
pub struct FetchResponse {
    pub ok: bool,
    pub status: u16,
    pub status_text: Option<String>,
    pub headers: Option<Vec<(String, String)>>,
    pub text: Option<String>,
    pub json: Option<ValueType>,
    pub length: Option<u64>,
    pub output: FetchOutput,
    pub error: Option<String>,
}

/// `name` alone when `present`, else nothing.
pub open spec fn name_if(present: bool, name: Seq<char>) -> Seq<Seq<char>> {
    if present {
        seq![name]
    } else {
        Seq::empty()
    }
}

/// The names of the answer table of `r`, in order: `ok` and `status`, then
/// each optional field that `r` has.
pub open spec fn response_names(r: FetchResponse) -> Seq<Seq<char>> {
    seq!["ok"@, "status"@] + name_if(r.status_text is Some, "statusText"@) + name_if(
        r.headers is Some,
        "headers"@,
    ) + name_if(r.text is Some, "text"@) + name_if(r.json is Some, "json"@) + name_if(
        r.length is Some,
        "length"@,
    ) + name_if(r.error is Some, "error"@)
}

/// `v` is what the answer table of `r` holds under `name`.
pub open spec fn response_value(r: FetchResponse, name: Seq<char>, v: ValueType) -> bool {
    if name == "ok"@ {
        v == ValueType::Boolean(r.ok)
    } else if name == "status"@ {
        v == ValueType::Integer(r.status as i64)
    } else if name == "statusText"@ {
        r.status_text matches Some(s) && v == ValueType::String(s)
    } else if name == "headers"@ {
        r.headers matches Some(h) && (v matches ValueType::Table(t) && last_wins(t@, pair_views(h@)))
    } else if name == "text"@ {
        r.text matches Some(s) && v == ValueType::String(s)
    } else if name == "json"@ {
        r.json == Some(v)
    } else if name == "length"@ {
        r.length matches Some(n) && v == ValueType::Integer(n as i64)
    } else if name == "error"@ {
        r.error matches Some(e) && v == ValueType::String(e)
    } else {
        false
    }
}

/// `t` is the answer table of `r`.
pub open spec fn describes_response(t: ValueType, r: FetchResponse) -> bool {
    t matches ValueType::Table(e) && {
        &&& entry_names(e@) == response_names(r)
        &&& names_once(e@)
        &&& forall|i: int| 0 <= i < e.len() ==> response_value(r, #[trigger] e@[i].0@, e@[i].1)
    }
}

/// The lengths and letters that tell the names of an answer table apart.
proof fn lemma_answer_names()
    ensures
        "ok"@.len() == 2,
        "status"@.len() == 6,
        "statusText"@.len() == 10,
        "headers"@.len() == 7,
        "text"@.len() == 4,
        "json"@.len() == 4,
        "length"@.len() == 6,
        "error"@.len() == 5,
        "status"@ != "length"@,
        "text"@ != "json"@,
{
    reveal_strlit("ok");
    reveal_strlit("status");
    reveal_strlit("statusText");
    reveal_strlit("headers");
    reveal_strlit("text");
    reveal_strlit("json");
    reveal_strlit("length");
    reveal_strlit("error");
    assert("status"@[0] != "length"@[0]);
    assert("text"@[0] != "json"@[0]);
}

/// The place of a name among the names of an answer table.
spec fn answer_rank(name: Seq<char>) -> int {
    if name == "ok"@ {
        0
    } else if name == "status"@ {
        1
    } else if name == "statusText"@ {
        2
    } else if name == "headers"@ {
        3
    } else if name == "text"@ {
        4
    } else if name == "json"@ {
        5
    } else if name == "length"@ {
        6
    } else if name == "error"@ {
        7
    } else {
        8
    }
}

/// The names of `e` come in strictly increasing place.
spec fn ranks_increase(e: Seq<(String, ValueType)>) -> bool {
    forall|i: int, j: int|
        0 <= i < j < e.len() ==> answer_rank(#[trigger] e[i].0@) < answer_rank(#[trigger] e[j].0@)
}

/// Adds the entry `name`, holding `v`, to the answer table of `r`.
fn push_answer(
    e: &mut Vec<(String, ValueType)>,
    name: &str,
    v: ValueType,
    Ghost(r): Ghost<FetchResponse>,
)
    requires
        forall|i: int|
            0 <= i < old(e).len() ==> response_value(r, #[trigger] old(e)@[i].0@, old(e)@[i].1),
        response_value(r, name@, v),
        ranks_increase(old(e)@),
        forall|i: int| 0 <= i < old(e).len() ==> answer_rank(#[trigger] old(e)@[i].0@) < answer_rank(name@),
    ensures
        entry_names(final(e)@) == entry_names(old(e)@).push(name@),
        ranks_increase(final(e)@),
        forall|i: int| 0 <= i < final(e).len() ==> answer_rank(#[trigger] final(e)@[i].0@) <= answer_rank(name@),
        forall|i: int|
            0 <= i < final(e).len() ==> response_value(r, #[trigger] final(e)@[i].0@, final(e)@[i].1),
{
    let ghost prev = e@;
    e.push((name.to_owned(), v));
    assert(entry_names(e@) =~= entry_names(prev).push(name@));
    assert forall|i: int| 0 <= i < e.len() implies response_value(r, #[trigger] e@[i].0@, e@[i].1) by {
        if i < prev.len() {
            assert(e@[i] == prev[i]);
        }
    }
    assert forall|i: int, j: int| 0 <= i < j < e.len() implies answer_rank(#[trigger] e@[i].0@)
        < answer_rank(#[trigger] e@[j].0@) by {
        assert(e@[i] == prev[i]);
        if j < prev.len() {
            assert(e@[j] == prev[j]);
        }
    }
    assert forall|i: int| 0 <= i < e.len() implies answer_rank(#[trigger] e@[i].0@) <= answer_rank(name@) by {
        if i < prev.len() {
            assert(e@[i] == prev[i]);
        }
    }
}

/// Names in strictly increasing place are given once.
proof fn lemma_ranks_once(e: Seq<(String, ValueType)>)
    requires
        ranks_increase(e),
    ensures
        names_once(e),
{
    assert forall|i: int, j: int| 0 <= i < j < e.len() implies #[trigger] e[i].0@ != #[trigger] e[j].0@ by {
        assert(answer_rank(e[i].0@) < answer_rank(e[j].0@));
    }
}

/// The table a script reads as the answer to its request.
pub fn response_table(r: FetchResponse) -> (t: ValueType)
    ensures
        describes_response(t, r),
{
    proof {
        lemma_answer_names();
    }
    let ghost r0 = r;
    let FetchResponse { ok, status, status_text, headers, text, json, length, output: _, error } = r;
    let mut e: Vec<(String, ValueType)> = Vec::new();
    push_answer(&mut e, "ok", ValueType::Boolean(ok), Ghost(r0));
    push_answer(&mut e, "status", ValueType::Integer(status as i64), Ghost(r0));
    let ghost mut names = seq!["ok"@, "status"@];
    assert(entry_names(e@) =~= names);
    if let Some(v) = status_text {
        push_answer(&mut e, "statusText", ValueType::String(v), Ghost(r0));
    }
    proof {
        names = names + name_if(r0.status_text is Some, "statusText"@);
        assert(entry_names(e@) =~= names);
    }
    if let Some(h) = headers {
        let table = header_entries(&h);
        push_answer(&mut e, "headers", ValueType::Table(table), Ghost(r0));
    }
    proof {
        names = names + name_if(r0.headers is Some, "headers"@);
        assert(entry_names(e@) =~= names);
    }
    if let Some(v) = text {
        push_answer(&mut e, "text", ValueType::String(v), Ghost(r0));
    }
    proof {
        names = names + name_if(r0.text is Some, "text"@);
        assert(entry_names(e@) =~= names);
    }
    if let Some(v) = json {
        push_answer(&mut e, "json", v, Ghost(r0));
    }
    proof {
        names = names + name_if(r0.json is Some, "json"@);
        assert(entry_names(e@) =~= names);
    }
    if let Some(n) = length {
        push_answer(&mut e, "length", ValueType::Integer(#[verifier::truncate] (n as i64)), Ghost(r0));
    }
    proof {
        names = names + name_if(r0.length is Some, "length"@);
        assert(entry_names(e@) =~= names);
    }
    if let Some(v) = error {
        push_answer(&mut e, "error", ValueType::String(v), Ghost(r0));
    }
    proof {
        names = names + name_if(r0.error is Some, "error"@);
        assert(entry_names(e@) =~= names);
        lemma_ranks_once(e@);
    }
    ValueType::Table(e)
}

/// A script reading an answer table finds `ok` and `status` in it, as the
/// answer says.
pub proof fn law_answer_reads(t: ValueType, r: FetchResponse)
    requires
        describes_response(t, r),
    ensures
        table_value(t, "ok"@) == Some(ValueType::Boolean(r.ok)),
        table_value(t, "status"@) == Some(ValueType::Integer(r.status as i64)),
{
    lemma_answer_names();
    let e = t->Table_0@;
    assert(response_names(r).len() >= 2);
    assert(entry_names(e).len() == e.len());
    assert(entry_names(e)[0] == "ok"@);
    assert(entry_names(e)[1] == "status"@);
    assert(e[0].0@ == "ok"@);
    assert(e[1].0@ == "status"@);
    assert(response_value(r, e[0].0@, e[0].1));
    assert(response_value(r, e[1].0@, e[1].1));
    assert(e.drop_first()[0] == e[1]);
    assert(entry_value(e.drop_first(), "status"@) == Some(e[1].1));
}

/// The answer when the request could not be sent: not ok, status 0, and the
/// error.
pub open spec fn unsent(output: FetchOutput, error: String) -> FetchResponse {
    FetchResponse {
        ok: false,
        status: 0,
        status_text: None,
        headers: None,
        text: None,
        json: None,
        length: None,
        output,
        error: Some(error),
    }
}

/// The answer when the request could not be sent.
pub fn send_failed(output: FetchOutput, error: String) -> (r: FetchResponse)
    ensures
        r == unsent(output, error),
{
    FetchResponse {
        ok: false,
        status: 0,
        status_text: None,
        headers: None,
        text: None,
        json: None,
        length: None,
        output,
        error: Some(error),
    }
}

/// What the status line and the headers of a reply say: the status code, its
/// reason phrase when the code has one, and the header pairs in the order
/// they came.
#[derive(Debug)]
pub struct ResponseHead {
    pub status: u16,
    pub status_text: Option<String>,
    pub headers: Vec<(String, String)>,
}

/// A status code that reports success: one from 200 to 299.
pub open spec fn is_success(status: u16) -> bool {
    200 <= status <= 299
}

/// The answer as far as the status line and headers give it.
pub open spec fn received_spec(head: ResponseHead, output: FetchOutput) -> FetchResponse {
    FetchResponse {
        ok: is_success(head.status),
        status: head.status,
        status_text: head.status_text,
        headers: Some(head.headers),
        text: None,
        json: None,
        length: None,
        output,
        error: None,
    }
}

/// The answer as far as the status line and headers give it; it is ok when
/// the status reports success.
pub fn received(head: ResponseHead, output: FetchOutput) -> (r: FetchResponse)
    ensures
        r == received_spec(head, output),
        r.ok == (200 <= head.status && head.status <= 299),
{
    let ok = 200 <= head.status && head.status <= 299;
    FetchResponse {
        ok,
        status: head.status,
        status_text: head.status_text,
        headers: Some(head.headers),
        text: None,
        json: None,
        length: None,
        output,
        error: None,
    }
}

/// A reply is ok exactly when its status is a 2xx code, from 200 to 299:
/// 201 Created and 204 No Content are as ok as 200, 199 and 300 are not.
pub proof fn law_ok_is_2xx(head: ResponseHead, output: FetchOutput)
    ensures
        received_spec(head, output).ok <==> (200 <= head.status && head.status < 300),
        received_spec(head, output).status == head.status,
        received_spec(head, output).error is None,
{
}

/// `r` turned into a failure: not ok, with `error`.
pub open spec fn failed_with(r: FetchResponse, error: String) -> FetchResponse {
    FetchResponse { ok: false, error: Some(error), ..r }
}

/// The answer when the reply's body could not be read.
pub fn body_failed(r: FetchResponse, error: String) -> (f: FetchResponse)
    ensures
        f == failed_with(r, error),
{
    FetchResponse { ok: false, error: Some(error), ..r }
}

/// What follows the reading of the body: the answer is complete, or the body
/// is to be parsed as JSON first.
#[derive(Debug)]
pub enum BodyStep {
    Done(FetchResponse),
    ParseJson(FetchResponse, String),
}

/// Takes the reply's body: as the answer's text when text was asked for,
/// else to be parsed as JSON.
pub fn body_received(r: FetchResponse, text: String) -> (step: BodyStep)
    ensures
        match r.output {
            FetchOutput::Text => step == BodyStep::Done(FetchResponse { text: Some(text), ..r }),
            FetchOutput::Json => step == BodyStep::ParseJson(r, text),
        },
{
    match r.output {
        FetchOutput::Text => BodyStep::Done(FetchResponse { text: Some(text), ..r }),
        FetchOutput::Json => BodyStep::ParseJson(r, text),
    }
}

/// Takes the outcome of parsing the body as JSON: the parsed value, or a
/// failure with the parser's error.
pub fn json_parsed(r: FetchResponse, parsed: Result<ValueType, String>) -> (f: FetchResponse)
    ensures
        match parsed {
            Ok(v) => f == (FetchResponse { json: Some(v), ..r }),
            Err(e) => f == failed_with(r, e),
        },
{
    match parsed {
        Ok(v) => FetchResponse { json: Some(v), ..r },
        Err(e) => FetchResponse { ok: false, error: Some(e), ..r },
    }
}

} // verus!
